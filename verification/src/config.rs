//! Configuration: the `superfastgen.yaml` settings, the command-line settings,
//! how they combine, and which generators a run performs.

use vstd::prelude::*;
use crate::primitives::{parent_of, path_parent};
use crate::text::{ends_with, str_ends_with, str_eq};

verus! {

// ---------------------------------------------------------------------------
// Defaults
// ---------------------------------------------------------------------------

/// The default source directory, as with Dart's `build_runner`.
pub open spec fn default_lib_dir() -> Seq<char> {
    "lib"@
}

/// The default output directory.
pub open spec fn default_output_path() -> Seq<char> {
    "lib/generated"@
}

/// The default assets directory.
pub open spec fn default_assets_dir() -> Seq<char> {
    "assets"@
}

/// The default source directory: `lib`.
pub fn default_lib_dir_str() -> (r: &'static str)
    ensures
        r@ == default_lib_dir(),
{
    "lib"
}

/// The default output directory: `lib/generated`.
pub fn default_output_path_str() -> (r: &'static str)
    ensures
        r@ == default_output_path(),
{
    "lib/generated"
}

/// The default assets directory: `assets`.
pub fn default_assets_dir_str() -> (r: &'static str)
    ensures
        r@ == default_assets_dir(),
{
    "assets"
}

// ---------------------------------------------------------------------------
// superfastgen.yaml
// ---------------------------------------------------------------------------

/// The `generate` section of `superfastgen.yaml`.
#[derive(Debug, Clone)]
pub struct GenerateConfig {
    pub input: Option<String>,
    pub output: Option<String>,
    pub freezed: Option<bool>,
    pub json: Option<bool>,
    pub riverpod: Option<bool>,
    pub provider: Option<bool>,
}

/// The `assets` section of `superfastgen.yaml`.
#[derive(Debug, Clone)]
pub struct AssetsConfig {
    pub input: Option<String>,
    pub output: Option<String>,
    pub include_images: Option<bool>,
    pub include_fonts: Option<bool>,
    pub include_icons: Option<bool>,
}

/// The whole of `superfastgen.yaml`.
#[derive(Debug, Clone)]
pub struct SuperfastgenConfig {
    pub generate: Option<GenerateConfig>,
    pub assets: Option<AssetsConfig>,
}

/// A `generate` section with nothing set.
pub open spec fn empty_generate_config() -> GenerateConfig {
    GenerateConfig { input: None, output: None, freezed: None, json: None, riverpod: None, provider: None }
}

/// An `assets` section with nothing set.
pub open spec fn empty_assets_config() -> AssetsConfig {
    AssetsConfig { input: None, output: None, include_images: None, include_fonts: None, include_icons: None }
}

impl Default for GenerateConfig {
    fn default() -> (r: Self)
        ensures
            r == empty_generate_config(),
    {
        GenerateConfig { input: None, output: None, freezed: None, json: None, riverpod: None, provider: None }
    }
}

impl Default for AssetsConfig {
    fn default() -> (r: Self)
        ensures
            r == empty_assets_config(),
    {
        AssetsConfig { input: None, output: None, include_images: None, include_fonts: None, include_icons: None }
    }
}

impl Default for SuperfastgenConfig {
    fn default() -> (r: Self)
        ensures
            r.generate is None,
            r.assets is None,
    {
        SuperfastgenConfig { generate: None, assets: None }
    }
}

/// The `generate` section that applies: the one in the file, or an empty one when
/// there is no file or no such section.
pub open spec fn generate_section(yaml: Option<SuperfastgenConfig>) -> GenerateConfig {
    match yaml {
        Some(c) => match c.generate {
            Some(g) => g,
            None => empty_generate_config(),
        },
        None => empty_generate_config(),
    }
}

/// The `assets` section that applies.
pub open spec fn assets_section(yaml: Option<SuperfastgenConfig>) -> AssetsConfig {
    match yaml {
        Some(c) => match c.assets {
            Some(a) => a,
            None => empty_assets_config(),
        },
        None => empty_assets_config(),
    }
}

/// Takes the `generate` section that applies.
fn take_generate_section(yaml: &Option<SuperfastgenConfig>) -> (r: GenerateConfig)
    ensures
        r == generate_section(*yaml),
{
    match yaml {
        Some(c) => match &c.generate {
            Some(g) => GenerateConfig {
                input: g.input.clone(),
                output: g.output.clone(),
                freezed: g.freezed,
                json: g.json,
                riverpod: g.riverpod,
                provider: g.provider,
            },
            None => GenerateConfig::default(),
        },
        None => GenerateConfig::default(),
    }
}

/// Takes the `assets` section that applies.
fn take_assets_section(yaml: &Option<SuperfastgenConfig>) -> (r: AssetsConfig)
    ensures
        r == assets_section(*yaml),
{
    match yaml {
        Some(c) => match &c.assets {
            Some(a) => AssetsConfig {
                input: a.input.clone(),
                output: a.output.clone(),
                include_images: a.include_images,
                include_fonts: a.include_fonts,
                include_icons: a.include_icons,
            },
            None => AssetsConfig::default(),
        },
        None => AssetsConfig::default(),
    }
}

/// Checks the text of `pubspec.yaml`; every text is accepted.
pub fn parse_pubspec_yaml(_content: &str) -> (r: Result<(), String>)
    ensures
        r is Ok,
{
    Ok(())
}

/// The minimal `pubspec.yaml` that the tool writes: `name: superfastgen`.
pub fn generate_pubspec_yaml() -> (r: Result<String, String>)
    ensures
        r matches Ok(s) && s@ == "name: superfastgen"@,
{
    Ok(String::from_str("name: superfastgen"))
}

// ---------------------------------------------------------------------------
// The settings of a run
// ---------------------------------------------------------------------------

/// The command-line settings that the configuration depends on.
#[derive(Debug, Clone)]
pub struct CliArgs {
    pub output: String,
    pub assets: String,
    pub watch: bool,
    pub delete_conflicting_outputs: bool,
    pub build_filter: Option<String>,
}

/// The settings a run works with.
#[derive(Debug, Clone)]
pub struct EffectiveConfig {
    pub output: String,
    pub assets: String,
    pub watch: bool,
    pub delete_conflicting_outputs: bool,
    pub build_filter: Option<String>,
}

/// The text of an optional string, or `dflt`.
pub open spec fn text_or(o: Option<String>, dflt: Seq<char>) -> Seq<char> {
    match o {
        Some(s) => s@,
        None => dflt,
    }
}

/// The output directory of a run: the command line's when it is not the default,
/// else the `generate.output` of the file, else the default.
pub open spec fn merged_output(cli: CliArgs, yaml: Option<SuperfastgenConfig>) -> Seq<char> {
    if cli.output@ != default_output_path() {
        cli.output@
    } else {
        text_or(generate_section(yaml).output, default_output_path())
    }
}

/// The assets directory of a run: the command line's when it is not the default,
/// else the `assets.input` of the file, else the default.
pub open spec fn merged_assets(cli: CliArgs, yaml: Option<SuperfastgenConfig>) -> Seq<char> {
    if cli.assets@ != default_assets_dir() {
        cli.assets@
    } else {
        text_or(assets_section(yaml).input, default_assets_dir())
    }
}

/// The text of an optional string, or `dflt`.
fn string_or(o: Option<String>, dflt: &str) -> (r: String)
    ensures
        r@ == text_or(o, dflt@),
{
    match o {
        Some(s) => s,
        None => String::from_str(dflt),
    }
}

/// Combines the command line with `superfastgen.yaml`: a directory given on the
/// command line (other than the default) wins over the file, the file wins over
/// the default; watch mode, the deletion of conflicting outputs and the build
/// filter come from the command line alone.
pub fn merge_config(cli: &CliArgs, yaml_config: Option<SuperfastgenConfig>) -> (r: EffectiveConfig)
    ensures
        r.output@ == merged_output(*cli, yaml_config),
        r.assets@ == merged_assets(*cli, yaml_config),
        r.watch == cli.watch,
        r.delete_conflicting_outputs == cli.delete_conflicting_outputs,
        r.build_filter == cli.build_filter,
{
    let yaml_gen = take_generate_section(&yaml_config);
    let yaml_assets = take_assets_section(&yaml_config);
    let output = if !str_eq(cli.output.as_str(), default_output_path_str()) {
        cli.output.clone()
    } else {
        string_or(yaml_gen.output, default_output_path_str())
    };
    let assets = if !str_eq(cli.assets.as_str(), default_assets_dir_str()) {
        cli.assets.clone()
    } else {
        string_or(yaml_assets.input, default_assets_dir_str())
    };
    let build_filter = match &cli.build_filter {
        Some(f) => Some(f.clone()),
        None => None,
    };
    EffectiveConfig {
        output,
        assets,
        watch: cli.watch,
        delete_conflicting_outputs: cli.delete_conflicting_outputs,
        build_filter,
    }
}

/// The directory whose Dart files a run reads: the directory of the build filter
/// when one is given and has a parent, else `lib`.
pub open spec fn input_dir(build_filter: Option<String>) -> Seq<char> {
    match build_filter {
        Some(f) => match parent_of(f@) {
            Some(p) => p,
            None => default_lib_dir(),
        },
        None => default_lib_dir(),
    }
}

/// Computes the directory whose Dart files a run reads, as `input_dir` describes.
pub fn input_path_for(build_filter: &Option<String>) -> (r: String)
    ensures
        r@ == input_dir(*build_filter),
{
    match build_filter {
        Some(f) => match path_parent(f.as_str()) {
            Some(p) => p,
            None => String::from_str(default_lib_dir_str()),
        },
        None => String::from_str(default_lib_dir_str()),
    }
}

/// An asset generation to perform: where the assets are and where the class goes.
#[derive(Debug, Clone)]
pub struct AssetsJob {
    pub assets_path: String,
    pub output_path: String,
}

/// What a run of all generators does: the directories it reads and writes,
/// whether it deletes conflicting outputs, which code generators it runs, and the
/// asset generation it performs, if any.
#[derive(Debug, Clone)]
pub struct GenerationPlan {
    pub input_path: String,
    pub output: String,
    pub delete_conflicting_outputs: bool,
    pub freezed: bool,
    pub json: bool,
    pub riverpod: bool,
    pub provider: bool,
    pub assets: Option<AssetsJob>,
}

/// A setting of the file, on unless it is set to `false`.
pub open spec fn enabled(flag: Option<bool>) -> bool {
    match flag {
        Some(b) => b,
        None => true,
    }
}

/// Reads a setting of the file, on unless it is set to `false`.
fn is_enabled(flag: Option<bool>) -> (r: bool)
    ensures
        r == enabled(flag),
{
    match flag {
        Some(b) => b,
        None => true,
    }
}

/// Decides what a run of all generators does with the settings `cfg` and the
/// contents of `superfastgen.yaml`, if it could be read: each code generator runs
/// unless the file turns it off; the assets are generated unless the file turns
/// off images, fonts and icons all three, into the file's `assets.output` or else
/// the run's output directory.
pub fn run_generators(cfg: &EffectiveConfig, yaml_config: Option<SuperfastgenConfig>) -> (r: GenerationPlan)
    ensures
        r.input_path@ == input_dir(cfg.build_filter),
        r.output@ == cfg.output@,
        r.delete_conflicting_outputs == cfg.delete_conflicting_outputs,
        r.freezed == enabled(generate_section(yaml_config).freezed),
        r.json == enabled(generate_section(yaml_config).json),
        r.riverpod == enabled(generate_section(yaml_config).riverpod),
        r.provider == enabled(generate_section(yaml_config).provider),
        ({
            let a = assets_section(yaml_config);
            if enabled(a.include_images) || enabled(a.include_fonts) || enabled(a.include_icons) {
                r.assets matches Some(job) && job.assets_path@ == cfg.assets@ && job.output_path@ == text_or(
                    a.output,
                    cfg.output@,
                )
            } else {
                r.assets is None
            }
        }),
{
    let yaml_gen = take_generate_section(&yaml_config);
    let yaml_assets = take_assets_section(&yaml_config);
    let input_path = input_path_for(&cfg.build_filter);
    let assets = if is_enabled(yaml_assets.include_images) || is_enabled(yaml_assets.include_fonts) || is_enabled(
        yaml_assets.include_icons,
    ) {
        Some(
            AssetsJob {
                assets_path: cfg.assets.clone(),
                output_path: string_or(yaml_assets.output, cfg.output.as_str()),
            },
        )
    } else {
        None
    };
    GenerationPlan {
        input_path,
        output: cfg.output.clone(),
        delete_conflicting_outputs: cfg.delete_conflicting_outputs,
        freezed: is_enabled(yaml_gen.freezed),
        json: is_enabled(yaml_gen.json),
        riverpod: is_enabled(yaml_gen.riverpod),
        provider: is_enabled(yaml_gen.provider),
        assets,
    }
}

/// A file that the generators write, by its name: `.g.dart`, `.freezed.dart` or
/// `.config.dart`.
pub open spec fn is_generated_name(name: Seq<char>) -> bool {
    ends_with(name, ".g.dart"@) || ends_with(name, ".freezed.dart"@) || ends_with(name, ".config.dart"@)
}

/// Whether the file named `file_name` is one that the generators write, and that
/// cleaning removes.
pub fn is_generated_file(file_name: &str) -> (r: bool)
    ensures
        r == is_generated_name(file_name@),
{
    str_ends_with(file_name, ".g.dart") || str_ends_with(file_name, ".freezed.dart") || str_ends_with(
        file_name,
        ".config.dart",
    )
}

// ---------------------------------------------------------------------------
// Watch mode
// ---------------------------------------------------------------------------

/// What the file watcher hands over: a change of one of these kinds, an error
/// of the watcher, or an error of the channel that carries its reports.
#[derive(Debug, Clone, Copy, PartialEq, Eq, Structural)]
pub enum WatchEvent {
    Created,
    Modified,
    Removed,
    OtherChange,
    WatcherError,
    ChannelError,
}

/// What watch mode does next.
#[derive(Debug, Clone, Copy, PartialEq, Eq, Structural)]
pub enum WatchAction {
    /// Report the change and run all generators again.
    Regenerate,
    /// Report the watcher's error and go on watching.
    ReportWatcherError,
    /// Report the channel's error and go on watching.
    ReportChannelError,
    /// Go on watching.
    Wait,
}

/// Decides what watch mode does on `event`: a file created, modified or removed
/// makes it run the generators again; other changes are passed over; errors are
/// reported, and watching goes on in every case.
pub fn watch_step(event: WatchEvent) -> (r: WatchAction)
    ensures
        r == (match event {
            WatchEvent::Created | WatchEvent::Modified | WatchEvent::Removed => WatchAction::Regenerate,
            WatchEvent::OtherChange => WatchAction::Wait,
            WatchEvent::WatcherError => WatchAction::ReportWatcherError,
            WatchEvent::ChannelError => WatchAction::ReportChannelError,
        }),
{
    match event {
        WatchEvent::Created | WatchEvent::Modified | WatchEvent::Removed => WatchAction::Regenerate,
        WatchEvent::OtherChange => WatchAction::Wait,
        WatchEvent::WatcherError => WatchAction::ReportWatcherError,
        WatchEvent::ChannelError => WatchAction::ReportChannelError,
    }
}

// ---------------------------------------------------------------------------
// Laws
// ---------------------------------------------------------------------------

/// A directory given on the command line, other than the default, is the one a
/// run uses, whatever `superfastgen.yaml` says.
pub proof fn lemma_command_line_wins(cli: CliArgs, yaml: Option<SuperfastgenConfig>)
    ensures
        cli.output@ != default_output_path() ==> merged_output(cli, yaml) == cli.output@,
        cli.assets@ != default_assets_dir() ==> merged_assets(cli, yaml) == cli.assets@,
{
}

/// Without `superfastgen.yaml`, a run uses the command line's directories.
pub proof fn lemma_no_file_keeps_command_line(cli: CliArgs)
    ensures
        merged_output(cli, None) == cli.output@,
        merged_assets(cli, None) == cli.assets@,
{
}

/// Without `superfastgen.yaml`, a run performs every generator.
pub proof fn lemma_no_file_runs_everything()
    ensures
        enabled(generate_section(None).freezed),
        enabled(generate_section(None).json),
        enabled(generate_section(None).riverpod),
        enabled(generate_section(None).provider),
        enabled(assets_section(None).include_images),
{
}

} // verus!
