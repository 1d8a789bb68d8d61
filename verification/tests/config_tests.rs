use superfastgen::config::{
    generate_pubspec_yaml, input_path_for, is_generated_file, merge_config, parse_pubspec_yaml, run_generators,
    watch_step, AssetsConfig, CliArgs, EffectiveConfig, GenerateConfig, SuperfastgenConfig, WatchAction, WatchEvent,
};

fn cli(output: &str, assets: &str) -> CliArgs {
    CliArgs {
        output: output.to_string(),
        assets: assets.to_string(),
        watch: false,
        delete_conflicting_outputs: false,
        build_filter: None,
    }
}

fn yaml() -> SuperfastgenConfig {
    SuperfastgenConfig {
        generate: Some(GenerateConfig {
            input: Some("lib/".to_string()),
            output: Some("lib/gen/".to_string()),
            freezed: Some(true),
            json: Some(false),
            riverpod: None,
            provider: Some(false),
        }),
        assets: Some(AssetsConfig {
            input: Some("res/".to_string()),
            output: None,
            include_images: Some(false),
            include_fonts: Some(false),
            include_icons: Some(true),
        }),
    }
}

#[test]
fn test_run_generators() {
    let cfg = EffectiveConfig {
        output: "lib/generated".to_string(),
        assets: "assets".to_string(),
        watch: false,
        delete_conflicting_outputs: false,
        build_filter: None,
    };
    let plan = run_generators(&cfg, None);
    assert_eq!(plan.input_path, "lib");
    assert!(plan.freezed && plan.json && plan.riverpod && plan.provider);
    let job = plan.assets.unwrap();
    assert_eq!(job.assets_path, "assets");
    assert_eq!(job.output_path, "lib/generated");
}

#[test]
fn file_settings_apply_when_command_line_keeps_defaults() {
    let e = merge_config(&cli("lib/generated", "assets"), Some(yaml()));
    assert_eq!(e.output, "lib/gen/");
    assert_eq!(e.assets, "res/");
}

#[test]
fn command_line_wins_over_file() {
    let e = merge_config(&cli("out/", "my-assets/"), Some(yaml()));
    assert_eq!(e.output, "out/");
    assert_eq!(e.assets, "my-assets/");
}

#[test]
fn defaults_without_file() {
    let e = merge_config(&cli("lib/generated", "assets"), None);
    assert_eq!(e.output, "lib/generated");
    assert_eq!(e.assets, "assets");
    assert!(!e.watch);
}

#[test]
fn plan_follows_file() {
    let mut c = cli("lib/generated", "assets");
    c.build_filter = Some("lib/models/user.dart".to_string());
    c.delete_conflicting_outputs = true;
    let e = merge_config(&c, Some(yaml()));
    let plan = run_generators(&e, Some(yaml()));
    assert_eq!(plan.input_path, "lib/models");
    assert!(plan.delete_conflicting_outputs);
    assert!(plan.freezed);
    assert!(!plan.json);
    assert!(plan.riverpod);
    assert!(!plan.provider);
    let job = plan.assets.unwrap();
    assert_eq!(job.assets_path, "res/");
    assert_eq!(job.output_path, "lib/gen/");
}

#[test]
fn no_assets_when_all_kinds_are_off() {
    let mut y = yaml();
    if let Some(a) = y.assets.as_mut() {
        a.include_icons = Some(false);
    }
    let e = merge_config(&cli("lib/generated", "assets"), Some(y.clone()));
    assert!(run_generators(&e, Some(y)).assets.is_none());
}

#[test]
fn input_paths() {
    assert_eq!(input_path_for(&None), "lib");
    assert_eq!(input_path_for(&Some("lib/a/b.dart".to_string())), "lib/a");
    assert_eq!(input_path_for(&Some("/".to_string())), "lib");
}

#[test]
fn generated_files() {
    assert!(is_generated_file("user.g.dart"));
    assert!(is_generated_file("user.freezed.dart"));
    assert!(is_generated_file("app.config.dart"));
    assert!(!is_generated_file("user.dart"));
}

#[test]
fn pubspec_helpers() {
    assert_eq!(parse_pubspec_yaml("name: x"), Ok(()));
    assert_eq!(generate_pubspec_yaml(), Ok("name: superfastgen".to_string()));
}

#[test]
fn watch_mode_regenerates_on_file_changes_only() {
    assert_eq!(watch_step(WatchEvent::Created), WatchAction::Regenerate);
    assert_eq!(watch_step(WatchEvent::Modified), WatchAction::Regenerate);
    assert_eq!(watch_step(WatchEvent::Removed), WatchAction::Regenerate);
    assert_eq!(watch_step(WatchEvent::OtherChange), WatchAction::Wait);
    assert_eq!(watch_step(WatchEvent::WatcherError), WatchAction::ReportWatcherError);
    assert_eq!(watch_step(WatchEvent::ChannelError), WatchAction::ReportChannelError);
}
