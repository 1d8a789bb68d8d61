//! The `build_runner`-style generator: finding annotated classes in Dart
//! sources and writing the `.g.dart` part of each.

use vstd::prelude::*;
use crate::commands::freezed_gen::DartClass;
use crate::commands::generate_templates::{
    emit_g_cases, emit_g_copy_with, emit_g_eq, emit_g_hash_code, emit_g_regular_class, emit_g_regular_json,
    emit_g_to_string, g_case_part_fn, put_g_copy_with, put_g_eq, put_g_hash_code, put_g_regular_class,
    put_g_regular_json, put_g_to_string, GCasePart, lemma_g_case_part_extends, lemma_g_regular_keeps,
    lemma_g_regular_class_from_mixin, lemma_g_case_class_holds_line, g_case_class_line,
};
use crate::commands::syntax_tree::{
    extract_fields_from_dart_class, extract_functions_from_dart_source, extract_union_cases_from_dart_class,
    functions_in, functions_view, tree_cases, tree_fields, SyntaxNode, TreeCase,
};
use crate::primitives::{
    char_lowercase, char_to_lowercase, components_of, extension_of, path_extension, path_components, file_name_of, file_stem_of, joined_path, parent_of, path_eq, path_file_name,
    path_file_stem, path_join, path_parent, same_path, sha1_digest, sha1_of, str_chars, string_push,
};
use crate::text::{
    bounds_ok, contains, contains_slice, ends_with, ends_with_slice, find, find_at_or_after, find_from, find_slice,
    is_ascii_char, is_match_at, lemma_find_contains, lemma_find_from, lines, line_bounds, push_chars, starts_with,
    starts_with_slice, str_contains, str_ends_with, str_eq, fold_put, replace_all, replace_str, lemma_replace_by_itself, texts, lemma_fold_put_ends, lemma_fold_put_step,
    str_starts_with, string_of, texts_of, trim, trim_bounds, trim_end_matches, trim_end_matches_at,
    trim_start_matches, trim_start_matches_at, word_bounds, words, keeps, lemma_fold_put_keeps, lemma_keeps_add,
    lemma_keeps_trans, lemma_keeps_match, lemma_keeps_starts_with, lemma_fold_put_contains, lemma_contains_keeps,
};
use vstd::utf8::encode_utf8;

verus! {

// ---------------------------------------------------------------------------
// Types
// ---------------------------------------------------------------------------

/// A field or parameter: its name, its type, and whether it is a named parameter.
#[derive(Debug, Clone)]
pub struct DartField {
    pub name: String,
    pub ty: String,
    pub is_named: bool,
}

/// A top-level Dart function with its annotations.
#[derive(Debug, Clone)]
pub struct DartFunction {
    pub name: String,
    pub return_type: String,
    pub parameters: Vec<DartField>,
    pub annotations: Vec<String>,
    pub file_path: String,
}

/// A case (named factory constructor) of a union class.
#[derive(Debug, Clone)]
pub struct CaseInfo {
    pub case_name: String,
    pub fields: Vec<DartField>,
}

/// A generated `.g.dart` file: where it goes and what it holds.
#[derive(Debug)]
pub struct GenerationResult {
    pub input_file: String,
    pub output_file: String,
    pub generated_code: String,
}

// ---------------------------------------------------------------------------
// Finding classes
// ---------------------------------------------------------------------------

/// A class declaration found in a source: its name and the annotations above it.
pub struct ClassHeader {
    pub name: Seq<char>,
    pub annotations: Seq<Seq<char>>,
}

/// The position of the class name among the words of a declaration line:
/// the third word after `abstract class`, the second after `class`.
pub open spec fn name_word(t: Seq<char>) -> int {
    if starts_with(t, "abstract class "@) {
        2
    } else {
        1
    }
}

/// The line declares a class.
pub open spec fn is_class_line(t: Seq<char>) -> bool {
    starts_with(t, "class "@) || starts_with(t, "abstract class "@)
}

/// The classes declared in the lines `ls`, and the annotations waiting for a
/// class after them. Each trimmed line that starts with `@` is an annotation;
/// a class line takes the waiting annotations (and always clears them); any
/// other line that is neither empty nor a `//` comment clears them.
pub open spec fn scan_classes(ls: Seq<Seq<char>>) -> (Seq<ClassHeader>, Seq<Seq<char>>)
    decreases ls.len(),
{
    if ls.len() == 0 {
        (Seq::empty(), Seq::empty())
    } else {
        let (cs, pending) = scan_classes(ls.drop_last());
        let t = trim(ls.last());
        if starts_with(t, "@"@) {
            (cs, pending.push(t))
        } else if is_class_line(t) {
            let ws = words(t);
            if ws.len() > name_word(t) {
                (cs.push(ClassHeader { name: ws[name_word(t)], annotations: pending }), Seq::empty())
            } else {
                (cs, Seq::empty())
            }
        } else if t.len() > 0 && !starts_with(t, "//"@) {
            (cs, Seq::empty())
        } else {
            (cs, pending)
        }
    }
}

/// The classes declared in the Dart source `content`.
pub open spec fn classes_in(content: Seq<char>) -> Seq<ClassHeader> {
    scan_classes(lines(content)).0
}

/// The class `c` is the header `h` found in the file `file_path`.
pub open spec fn class_matches(c: DartClass, h: ClassHeader, file_path: Seq<char>) -> bool {
    &&& c.name@ == h.name
    &&& texts(c.annotations@) == h.annotations
    &&& c.file_path@ == file_path
}

/// Finds the classes declared in the Dart source `content` of the file at
/// `file_path`, with the annotations written directly above each, as
/// `scan_classes` describes.
pub fn parse_dart_content(content: &str, file_path: &str) -> (r: Option<Vec<DartClass>>)
    ensures
        r matches Some(v) && v@.len() == classes_in(content@).len() && forall|i: int|
            0 <= i < v@.len() ==> class_matches(#[trigger] v@[i], classes_in(content@)[i], file_path@),
{
    let s = str_chars(content);
    let bounds = line_bounds(s.as_slice(), 0, s.len());
    proof {
        assert(s@.subrange(0, s@.len() as int) =~= s@);
    }
    let ghost ls = texts_of(s@, bounds@);
    let at = str_chars("@");
    let class_kw = str_chars("class ");
    let abstract_kw = str_chars("abstract class ");
    let comment = str_chars("//");
    let mut classes: Vec<DartClass> = Vec::new();
    let mut pending: Vec<String> = Vec::new();
    let mut i: usize = 0;
    while i < bounds.len()
        invariant
            i <= bounds@.len(),
            bounds_ok(s@, bounds@),
            ls == texts_of(s@, bounds@),
            ls == lines(content@),
            at@ == "@"@,
            class_kw@ == "class "@,
            abstract_kw@ == "abstract class "@,
            comment@ == "//"@,
            classes@.len() == scan_classes(ls.take(i as int)).0.len(),
            forall|k: int|
                0 <= k < classes@.len() ==> class_matches(
                    #[trigger] classes@[k],
                    scan_classes(ls.take(i as int)).0[k],
                    file_path@,
                ),
            texts(pending@) == scan_classes(ls.take(i as int)).1,
        decreases bounds.len() - i,
    {
        let (lo, hi) = bounds[i];
        proof {
            assert(bounds_ok(s@, bounds@));
            assert(bounds@[i as int].0 <= bounds@[i as int].1 && bounds@[i as int].1 <= s@.len());
            assert(ls.take(i + 1).drop_last() =~= ls.take(i as int));
            assert(ls.take(i + 1).last() == s@.subrange(lo as int, hi as int));
        }
        let ghost prev_classes = classes@;
        let ghost prev = scan_classes(ls.take(i as int));
        let (a, b) = trim_bounds(s.as_slice(), lo, hi);
        let t = &s[a..b];
        assert(t@ =~= trim(ls.take(i + 1).last()));
        if starts_with_slice(t, at.as_slice()) {
            let ghost before = pending@;
            pending.push(string_of(s.as_slice(), a, b));
            assert(texts(pending@) =~= texts(before).push(t@));
        } else if starts_with_slice(t, class_kw.as_slice()) || starts_with_slice(t, abstract_kw.as_slice()) {
            let ws = word_bounds(s.as_slice(), a, b);
            let idx: usize = if starts_with_slice(t, abstract_kw.as_slice()) {
                2
            } else {
                1
            };
            let annotations = pending;
            pending = Vec::new();
            assert(texts(pending@) =~= Seq::<Seq<char>>::empty());
            if ws.len() > idx {
                let (wa, wb) = ws[idx];
                proof {
                    assert(bounds_ok(s@, ws@));
                    assert(ws@[idx as int].0 <= ws@[idx as int].1 && ws@[idx as int].1 <= s@.len());
                    assert(texts_of(s@, ws@)[idx as int] == s@.subrange(wa as int, wb as int));
                }
                classes.push(
                    DartClass {
                        name: string_of(s.as_slice(), wa, wb),
                        annotations,
                        file_path: String::from_str(file_path),
                    },
                );
                proof {
                    assert forall|k: int| 0 <= k < classes@.len() implies class_matches(
                        #[trigger] classes@[k],
                        scan_classes(ls.take(i + 1)).0[k],
                        file_path@,
                    ) by {
                        if k < prev_classes.len() {
                            assert(classes@[k] == prev_classes[k]);
                        }
                    }
                }
            }
        } else if b > a && !starts_with_slice(t, comment.as_slice()) {
            pending = Vec::new();
            assert(texts(pending@) =~= Seq::<Seq<char>>::empty());
        }
        i += 1;
    }
    proof {
        assert(ls.take(bounds@.len() as int) =~= ls);
    }
    Some(classes)
}

// ---------------------------------------------------------------------------
// Views
// ---------------------------------------------------------------------------

/// A parameter as text: what a `DartField` of this module holds.
pub struct ParamModel {
    pub name: Seq<char>,
    pub ty: Seq<char>,
    pub is_named: bool,
}

impl View for DartField {
    type V = ParamModel;

    open spec fn view(&self) -> ParamModel {
        ParamModel { name: self.name@, ty: self.ty@, is_named: self.is_named }
    }
}

/// The models of a sequence of parameters.
pub open spec fn params_view(v: Seq<DartField>) -> Seq<ParamModel> {
    v.map_values(|p: DartField| p@)
}

/// A function as text: what a `DartFunction` holds.
pub struct FunctionModel {
    pub name: Seq<char>,
    pub return_type: Seq<char>,
    pub parameters: Seq<ParamModel>,
    pub annotations: Seq<Seq<char>>,
    pub file_path: Seq<char>,
}

impl View for DartFunction {
    type V = FunctionModel;

    open spec fn view(&self) -> FunctionModel {
        FunctionModel {
            name: self.name@,
            return_type: self.return_type@,
            parameters: params_view(self.parameters@),
            annotations: texts(self.annotations@),
            file_path: self.file_path@,
        }
    }
}

/// Some annotation of `anns` contains `pat`.
pub open spec fn has_annotation(anns: Seq<Seq<char>>, pat: Seq<char>) -> bool {
    exists|i: int| 0 <= i < anns.len() && contains(#[trigger] anns[i], pat)
}

/// Some annotation of `anns` contains `@riverpod`.
pub open spec fn has_riverpod(anns: Seq<Seq<char>>) -> bool {
    has_annotation(anns, "@riverpod"@)
}

/// Whether some annotation of `anns` contains `pat`.
pub fn any_contains(anns: &Vec<String>, pat: &str) -> (r: bool)
    ensures
        r == has_annotation(texts(anns@), pat@),
{
    let mut i: usize = 0;
    while i < anns.len()
        invariant
            i <= anns@.len(),
            forall|j: int| 0 <= j < i ==> !contains(#[trigger] texts(anns@)[j], pat@),
        decreases anns.len() - i,
    {
        assert(texts(anns@)[i as int] == anns@[i as int]@);
        if str_contains(anns[i].as_str(), pat) {
            assert(contains(texts(anns@)[i as int], pat@));
            return true;
        }
        i += 1;
    }
    false
}

// ---------------------------------------------------------------------------
// Numbers as text
// ---------------------------------------------------------------------------

/// The digits, then the letters, of hexadecimal numbers.
pub open spec fn hex_digits() -> Seq<char> {
    "0123456789abcdef"@
}

/// The lowercase hexadecimal text of `bytes`, two digits per byte (`{:x}` of a digest).
pub open spec fn hex_of(bytes: Seq<u8>) -> Seq<char>
    decreases bytes.len(),
{
    if bytes.len() == 0 {
        Seq::empty()
    } else {
        let b = bytes.last();
        hex_of(bytes.drop_last()).push(hex_digits()[(b / 16) as int]).push(hex_digits()[(b % 16) as int])
    }
}

/// Writes `bytes` as lowercase hexadecimal text.
pub fn to_hex(bytes: &[u8]) -> (r: String)
    ensures
        r@ == hex_of(bytes@),
{
    proof {
        reveal_strlit("0123456789abcdef");
    }
    let digits = str_chars("0123456789abcdef");
    let mut out = String::new();
    let mut i: usize = 0;
    while i < bytes.len()
        invariant
            i <= bytes@.len(),
            digits@ == hex_digits(),
            digits@.len() == 16,
            out@ == hex_of(bytes@.take(i as int)),
        decreases bytes.len() - i,
    {
        let b = bytes[i];
        proof {
            assert(bytes@.take(i + 1).drop_last() =~= bytes@.take(i as int));
            assert(bytes@.take(i + 1).last() == b);
        }
        string_push(&mut out, digits[(b / 16) as usize]);
        string_push(&mut out, digits[(b % 16) as usize]);
        i += 1;
    }
    assert(bytes@.take(bytes@.len() as int) =~= bytes@);
    out
}

/// The decimal text of `n`.
pub open spec fn decimal(n: nat) -> Seq<char>
    decreases n,
{
    if n < 10 {
        seq!["0123456789"@[n as int]]
    } else {
        decimal(n / 10).push("0123456789"@[(n % 10) as int])
    }
}

/// Writes `n` in decimal.
pub fn to_decimal(n: usize) -> (r: String)
    ensures
        r@ == decimal(n as nat),
    decreases n,
{
    proof {
        reveal_strlit("0123456789");
    }
    let digits = str_chars("0123456789");
    if n < 10 {
        let mut out = String::new();
        string_push(&mut out, digits[n]);
        out
    } else {
        let mut out = to_decimal(n / 10);
        string_push(&mut out, digits[n % 10]);
        out
    }
}

// ---------------------------------------------------------------------------
// Function providers
// ---------------------------------------------------------------------------

/// A parameter that a family provider passes on: anything but the `ref`.
pub open spec fn is_family_param(p: ParamModel) -> bool {
    p.name != "ref"@ && p.ty != "Ref"@
}

/// The parameters of `ps` that a family provider passes on, in order.
pub open spec fn family_params(ps: Seq<ParamModel>) -> Seq<ParamModel>
    decreases ps.len(),
{
    if ps.len() == 0 {
        Seq::empty()
    } else if is_family_param(ps.last()) {
        family_params(ps.drop_last()).push(ps.last())
    } else {
        family_params(ps.drop_last())
    }
}

/// How many of `ps` are positional.
pub open spec fn positional_count(ps: Seq<ParamModel>) -> nat
    decreases ps.len(),
{
    if ps.len() == 0 {
        0
    } else {
        positional_count(ps.drop_last()) + if ps.last().is_named {
            0nat
        } else {
            1nat
        }
    }
}

/// The arguments after `ref` in the call of a family provider's function: a
/// named parameter as `, name: params['name']`; a single positional parameter as
/// `, params` (and nothing after it); several positional ones as `, params[i]`.
pub open spec fn family_args(ps: Seq<ParamModel>, positional: nat, i: nat) -> Seq<char>
    decreases ps.len(),
{
    if ps.len() == 0 {
        Seq::empty()
    } else {
        let p = ps[0];
        if p.is_named {
            ", "@ + p.name + ": params['"@ + p.name + "']"@ + family_args(ps.drop_first(), positional, i)
        } else if positional == 1 {
            ", params"@
        } else {
            ", params["@ + decimal(i) + "]"@ + family_args(ps.drop_first(), positional, i + 1)
        }
    }
}

/// The provider class for a function returning `rt`.
pub open spec fn provider_kind(rt: Seq<char>) -> Seq<char> {
    if starts_with(rt, "Future<"@) {
        "AutoDisposeFutureProvider"@
    } else if starts_with(rt, "Stream<"@) {
        "AutoDisposeStreamProvider"@
    } else {
        "AutoDisposeProvider"@
    }
}

/// The type a provider of a function returning `rt` provides: the type inside
/// `Future<...>` or `Stream<...>`, or `rt` itself.
pub open spec fn provided_type(rt: Seq<char>) -> Seq<char> {
    if starts_with(rt, "Future<"@) {
        trim_end_matches(trim_start_matches(rt, "Future<"@), ">"@)
    } else if starts_with(rt, "Stream<"@) {
        trim_end_matches(trim_start_matches(rt, "Stream<"@), ">"@)
    } else {
        rt
    }
}

/// The type a family provider provides: `rt` without `Future<` and its last
/// character when it is a `Future`, else `rt`.
pub open spec fn family_type(rt: Seq<char>) -> Seq<char> {
    if starts_with(rt, "Future<"@) {
        rt.subrange(7, rt.len() - 1)
    } else {
        rt
    }
}

/// The return type of a family `Future` provider is cut by bytes, which fails
/// when `Future<` is all of it or it ends with a non-ASCII character.
pub open spec fn function_provider_panics(f: FunctionModel) -> bool {
    &&& family_params(f.parameters).len() > 0
    &&& starts_with(f.return_type, "Future<"@)
    &&& (f.return_type.len() == 7 || !is_ascii_char(f.return_type.last()))
}

/// The provider code of the function `f`: a hash function named after the
/// provider, then either a family provider (when `f` takes parameters besides its
/// `ref`) or a plain auto-dispose provider.
pub open spec fn function_provider_text(f: FunctionModel) -> Seq<char> {
    let pn = f.name + "Provider"@;
    let hash = hex_of(sha1_of(encode_utf8(f.name + f.file_path)));
    let head = "String _$"@ + pn + "Hash() => r'"@ + hash + "';\n\n"@;
    let fam = family_params(f.parameters);
    if fam.len() > 0 {
        let pt = if fam.len() == 1 {
            fam[0].ty
        } else {
            "Map<String, dynamic>"@
        };
        head + "final "@ + pn + " = "@ + provider_kind(f.return_type) + ".family<"@ + family_type(f.return_type)
            + ", "@ + pt + ">((ref, params) {\n  return "@ + f.name + "(ref"@ + family_args(
            fam,
            positional_count(fam),
            0,
        ) + ");\n});\n  name: r'"@ + pn
            + "',\n  debugGetCreateSourceHash:\n      const bool.fromEnvironment('dart.vm.product') ? null : _$"@
            + pn + "Hash,\n  dependencies: null,\n  allTransitiveDependencies: null,\n"@
    } else {
        head + "final "@ + pn + " = "@ + provider_kind(f.return_type) + "<"@ + provided_type(f.return_type)
            + ">((ref) {\n  return "@ + f.name + "(ref);\n});\n"@
    }
}

/// The parameters that a family provider passes on.
fn family_params_of(ps: &Vec<DartField>) -> (r: Vec<DartField>)
    ensures
        params_view(r@) == family_params(params_view(ps@)),
{
    let ghost pv = params_view(ps@);
    let mut out: Vec<DartField> = Vec::new();
    let mut i: usize = 0;
    while i < ps.len()
        invariant
            i <= ps@.len(),
            pv == params_view(ps@),
            params_view(out@) == family_params(pv.take(i as int)),
        decreases ps.len() - i,
    {
        let p = &ps[i];
        proof {
            assert(pv.take(i + 1).drop_last() =~= pv.take(i as int));
            assert(pv.take(i + 1).last() == p@);
        }
        if !str_eq(p.name.as_str(), "ref") && !str_eq(p.ty.as_str(), "Ref") {
            let ghost before = out@;
            out.push(DartField { name: p.name.clone(), ty: p.ty.clone(), is_named: p.is_named });
            assert(params_view(out@) =~= params_view(before).push(p@));
        }
        i += 1;
    }
    assert(pv.take(ps@.len() as int) =~= pv);
    out
}

/// How many of `ps` are positional.
fn count_positional(ps: &Vec<DartField>) -> (r: usize)
    ensures
        r == positional_count(params_view(ps@)),
{
    let ghost pv = params_view(ps@);
    let mut n: usize = 0;
    let mut i: usize = 0;
    while i < ps.len()
        invariant
            i <= ps@.len(),
            pv == params_view(ps@),
            n == positional_count(pv.take(i as int)),
            n <= i,
        decreases ps.len() - i,
    {
        proof {
            assert(pv.take(i + 1).drop_last() =~= pv.take(i as int));
            assert(pv.take(i + 1).last() == ps@[i as int]@);
        }
        if !ps[i].is_named {
            n += 1;
        }
        i += 1;
    }
    assert(pv.take(ps@.len() as int) =~= pv);
    n
}

/// Appends the arguments of a family provider's call, as `family_args` describes.
fn emit_family_args(code: &mut String, ps: &Vec<DartField>, positional: usize)
    ensures
        final(code)@ == old(code)@ + family_args(params_view(ps@), positional as nat, 0),
{
    let ghost pv = params_view(ps@);
    let mut i: usize = 0;
    let mut positional_i: usize = 0;
    assert(pv.skip(0) =~= pv);
    while i < ps.len()
        invariant
            i <= ps@.len(),
            positional_i <= i,
            pv == params_view(ps@),
            code@ + family_args(pv.skip(i as int), positional as nat, positional_i as nat) == old(code)@
                + family_args(pv, positional as nat, 0),
        decreases ps.len() - i,
    {
        let p = &ps[i];
        let ghost before = code@;
        proof {
            assert(pv.skip(i as int)[0] == p@);
            assert(pv.skip(i as int).drop_first() =~= pv.skip(i + 1));
        }
        if p.is_named {
            code.append(", ");
            code.append(p.name.as_str());
            code.append(": params['");
            code.append(p.name.as_str());
            code.append("']");
            assert(code@ + family_args(pv.skip(i + 1), positional as nat, positional_i as nat) =~= before
                + family_args(pv.skip(i as int), positional as nat, positional_i as nat));
        } else if positional == 1 {
            code.append(", params");
            assert(code@ =~= before + family_args(pv.skip(i as int), positional as nat, positional_i as nat));
            return;
        } else {
            let d = to_decimal(positional_i);
            code.append(", params[");
            code.append(d.as_str());
            code.append("]");
            assert(code@ + family_args(pv.skip(i + 1), positional as nat, (positional_i + 1) as nat) =~= before
                + family_args(pv.skip(i as int), positional as nat, positional_i as nat));
            positional_i += 1;
        }
        i += 1;
    }
    assert(code@ + family_args(pv.skip(i as int), positional as nat, positional_i as nat) =~= code@);
}

/// Generates the provider code of the function `function`, as
/// `function_provider_text` describes.
pub fn generate_function_provider(function: &DartFunction) -> (r: String)
    requires
        !function_provider_panics(function@),
    ensures
        r@ == function_provider_text(function@),
{
    proof {
        reveal_strlit("Future<");
        reveal_strlit("Stream<");
        reveal_strlit(">");
    }
    let mut pn = function.name.clone();
    pn.append("Provider");
    let mut hash_input = function.name.clone();
    hash_input.append(function.file_path.as_str());
    let digest = sha1_digest(hash_input.as_str().as_bytes());
    let hash = to_hex(digest.as_slice());
    let mut code = String::from_str("String _$");
    code.append(pn.as_str());
    code.append("Hash() => r'");
    code.append(hash.as_str());
    code.append("';\n\n");
    let rt = function.return_type.as_str();
    let kind = if str_starts_with(rt, "Future<") {
        "AutoDisposeFutureProvider"
    } else if str_starts_with(rt, "Stream<") {
        "AutoDisposeStreamProvider"
    } else {
        "AutoDisposeProvider"
    };
    let fam = family_params_of(&function.parameters);
    if fam.len() > 0 {
        let rcs = str_chars(rt);
        let return_type = if str_starts_with(rt, "Future<") {
            string_of(rcs.as_slice(), 7, rcs.len() - 1)
        } else {
            String::from_str(rt)
        };
        let param_type = if fam.len() == 1 {
            fam[0].ty.clone()
        } else {
            String::from_str("Map<String, dynamic>")
        };
        code.append("final ");
        code.append(pn.as_str());
        code.append(" = ");
        code.append(kind);
        code.append(".family<");
        code.append(return_type.as_str());
        code.append(", ");
        code.append(param_type.as_str());
        code.append(">((ref, params) {\n  return ");
        code.append(function.name.as_str());
        code.append("(ref");
        let positional = count_positional(&fam);
        emit_family_args(&mut code, &fam, positional);
        code.append(");\n});\n  name: r'");
        code.append(pn.as_str());
        code.append(
            "',\n  debugGetCreateSourceHash:\n      const bool.fromEnvironment('dart.vm.product') ? null : _$",
        );
        code.append(pn.as_str());
        code.append("Hash,\n  dependencies: null,\n  allTransitiveDependencies: null,\n");
    } else {
        let cs = str_chars(rt);
        let provided = if str_starts_with(rt, "Future<") || str_starts_with(rt, "Stream<") {
            let p = str_chars("Future<");
            let q = str_chars("Stream<");
            let close = str_chars(">");
            let a = if str_starts_with(rt, "Future<") {
                trim_start_matches_at(cs.as_slice(), p.as_slice(), 0, cs.len())
            } else {
                trim_start_matches_at(cs.as_slice(), q.as_slice(), 0, cs.len())
            };
            let b = trim_end_matches_at(cs.as_slice(), close.as_slice(), a, cs.len());
            proof {
                assert(cs@.subrange(0, cs@.len() as int) =~= cs@);
            }
            string_of(cs.as_slice(), a, b)
        } else {
            String::from_str(rt)
        };
        code.append("final ");
        code.append(pn.as_str());
        code.append(" = ");
        code.append(kind);
        code.append("<");
        code.append(provided.as_str());
        code.append(">((ref) {\n  return ");
        code.append(function.name.as_str());
        code.append("(ref);\n});\n");
    }
    code
}

// ---------------------------------------------------------------------------
// Notifier providers
// ---------------------------------------------------------------------------

/// The state type a `build()` line declares: `AuthState`, `String` or `bool`.
pub open spec fn build_line_type(nl: Seq<char>) -> Option<Seq<char>> {
    if starts_with(nl, "AuthState build()"@) || starts_with(nl, "String build()"@) || starts_with(nl, "bool build()"@) {
        if contains(nl, "AuthState"@) {
            Some("AuthState"@)
        } else if contains(nl, "String"@) {
            Some("String"@)
        } else if contains(nl, "bool"@) {
            Some("bool"@)
        } else {
            None
        }
    } else {
        None
    }
}

/// The type of the first `build()` method among the lines `ls[i..]` that
/// follows an `@override` line.
pub open spec fn build_type_from(ls: Seq<Seq<char>>, i: nat) -> Option<Seq<char>>
    decreases ls.len() - i,
{
    if i >= ls.len() {
        None
    } else if starts_with(trim(ls[i as int]), "@override"@) && i + 1 < ls.len() && build_line_type(
        trim(ls[i + 1 as int]),
    ) is Some {
        build_line_type(trim(ls[i + 1 as int]))
    } else {
        build_type_from(ls, i + 1)
    }
}

/// The position of the first occurrence of `p` in `s` (0 when there is none).
pub open spec fn first_pos(s: Seq<char>, p: Seq<char>) -> int {
    match find(s, p) {
        Some(k) => k,
        None => 0,
    }
}

/// The state type that the declaration line `t` of the class `name` gives: for
/// `extends _$...`, the class name without its trailing `Notifier`s; for
/// `extends Notifier<T>`, the `T` up to the first `>`.
pub open spec fn declared_type(t: Seq<char>, name: Seq<char>) -> Option<Seq<char>> {
    if starts_with(t, "class "@) && contains(t, name) {
        if contains(t, "extends _$"@) {
            Some(
                if ends_with(name, "Notifier"@) {
                    trim_end_matches(name, "Notifier"@)
                } else {
                    name
                },
            )
        } else if contains(t, "extends Notifier<"@) {
            let start = first_pos(t, "Notifier<"@);
            match find_from(t, ">"@, start as nat) {
                Some(e) => Some(t.subrange(start + 9, e)),
                None => None,
            }
        } else {
            None
        }
    } else {
        None
    }
}

/// The state type given by the first declaration line of the class `name` among `ls[i..]`.
pub open spec fn declared_type_from(ls: Seq<Seq<char>>, i: nat, name: Seq<char>) -> Option<Seq<char>>
    decreases ls.len() - i,
{
    if i >= ls.len() {
        None
    } else if declared_type(trim(ls[i as int]), name) is Some {
        declared_type(trim(ls[i as int]), name)
    } else {
        declared_type_from(ls, i + 1, name)
    }
}

/// The state type of the notifier class `name` in `content`: from its `build()`
/// method, else from its declaration, else `String`.
pub open spec fn class_state_type(content: Seq<char>, name: Seq<char>) -> Seq<char> {
    let ls = lines(content);
    match build_type_from(ls, 0) {
        Some(t) => t,
        None => match declared_type_from(ls, 0, name) {
            Some(t) => t,
            None => "String"@,
        },
    }
}

/// The state type a `build()` line gives: a line starting with
/// `AuthState build()` gives `AuthState`; one starting with `String build()`
/// gives `String` unless it also names `AuthState`; one starting with
/// `bool build()` gives `bool` unless it names `AuthState` or `String`; any other
/// line gives none.
pub proof fn lemma_build_line_type(nl: Seq<char>)
    ensures
        starts_with(nl, "AuthState build()"@) ==> build_line_type(nl) == Some("AuthState"@),
        starts_with(nl, "String build()"@) && !contains(nl, "AuthState"@) ==> build_line_type(nl) == Some(
            "String"@,
        ),
        starts_with(nl, "bool build()"@) && !contains(nl, "AuthState"@) && !contains(nl, "String"@)
            ==> build_line_type(nl) == Some("bool"@),
        !starts_with(nl, "AuthState build()"@) && !starts_with(nl, "String build()"@) && !starts_with(
            nl,
            "bool build()"@,
        ) ==> build_line_type(nl) is None,
{
    reveal_strlit("AuthState build()");
    reveal_strlit("String build()");
    reveal_strlit("bool build()");
    reveal_strlit("AuthState");
    reveal_strlit("String");
    reveal_strlit("bool");
    if starts_with(nl, "AuthState build()"@) {
        assert(nl.subrange(0, 9) =~= "AuthState"@);
        assert(is_match_at(nl, "AuthState"@, 0));
    }
    if starts_with(nl, "String build()"@) {
        assert(nl.subrange(0, 6) =~= "String"@);
        assert(is_match_at(nl, "String"@, 0));
    }
    if starts_with(nl, "bool build()"@) {
        assert(nl.subrange(0, 4) =~= "bool"@);
        assert(is_match_at(nl, "bool"@, 0));
    }
}

/// The notifier whose first `@override` line followed by a recognised `build()`
/// line is followed by a `String build()` line (that does not name `AuthState`)
/// has the state type `String`, whatever the class is named and however it is
/// declared.
pub proof fn lemma_string_build_state(content: Seq<char>, name: Seq<char>, i: int)
    requires
        0 <= i,
        i + 1 < lines(content).len(),
        starts_with(trim(lines(content)[i]), "@override"@),
        starts_with(trim(lines(content)[i + 1]), "String build()"@),
        !contains(trim(lines(content)[i + 1]), "AuthState"@),
        forall|j: int|
            0 <= j < i && j + 1 < lines(content).len() && starts_with(trim(#[trigger] lines(content)[j]), "@override"@)
                ==> !starts_with(trim(lines(content)[j + 1]), "AuthState build()"@) && !starts_with(
                trim(lines(content)[j + 1]),
                "String build()"@,
            ) && !starts_with(trim(lines(content)[j + 1]), "bool build()"@),
    ensures
        class_state_type(content, name) == "String"@,
{
    let ls = lines(content);
    lemma_build_line_type(trim(ls[i + 1]));
    lemma_build_type_before(ls, 0, i);
}

/// `build_type_from` skips the lines before `i` when none of them is an
/// `@override` line followed by a recognised `build()` line, and `i` is one.
proof fn lemma_build_type_before(ls: Seq<Seq<char>>, k: nat, i: int)
    requires
        k <= i,
        i + 1 < ls.len(),
        starts_with(trim(ls[i]), "@override"@),
        build_line_type(trim(ls[i + 1])) is Some,
        forall|j: int|
            0 <= j < i && j + 1 < ls.len() && starts_with(trim(#[trigger] ls[j]), "@override"@)
                ==> !starts_with(trim(ls[j + 1]), "AuthState build()"@) && !starts_with(
                trim(ls[j + 1]),
                "String build()"@,
            ) && !starts_with(trim(ls[j + 1]), "bool build()"@),
    ensures
        build_type_from(ls, k) == build_line_type(trim(ls[i + 1])),
    decreases i - k,
{
    if k < i {
        if starts_with(trim(ls[k as int]), "@override"@) && k + 1 < ls.len() {
            lemma_build_line_type(trim(ls[k + 1 as int]));
        }
        lemma_build_type_before(ls, k + 1, i);
    }
}

/// The type of the `build()` line `s[lo..hi]`, as `build_line_type` describes.
fn build_line_type_of(s: &[char], lo: usize, hi: usize) -> (r: Option<&'static str>)
    requires
        lo <= hi <= s@.len(),
    ensures
        match r {
            Some(x) => build_line_type(s@.subrange(lo as int, hi as int)) == Some(x@),
            None => build_line_type(s@.subrange(lo as int, hi as int)) is None,
        },
{
    let t = &s[lo..hi];
    assert(t@ =~= s@.subrange(lo as int, hi as int));
    let a = str_chars("AuthState build()");
    let b = str_chars("String build()");
    let c = str_chars("bool build()");
    if starts_with_slice(t, a.as_slice()) || starts_with_slice(t, b.as_slice()) || starts_with_slice(t, c.as_slice()) {
        let x = str_chars("AuthState");
        let y = str_chars("String");
        let z = str_chars("bool");
        if contains_slice(t, x.as_slice()) {
            Some("AuthState")
        } else if contains_slice(t, y.as_slice()) {
            Some("String")
        } else if contains_slice(t, z.as_slice()) {
            Some("bool")
        } else {
            None
        }
    } else {
        None
    }
}

/// The state type given by the declaration line `s[lo..hi]`, as `declared_type` describes.
fn declared_type_of(s: &[char], lo: usize, hi: usize, name: &str) -> (r: Option<String>)
    requires
        lo <= hi <= s@.len(),
    ensures
        match r {
            Some(x) => declared_type(s@.subrange(lo as int, hi as int), name@) == Some(x@),
            None => declared_type(s@.subrange(lo as int, hi as int), name@) is None,
        },
{
    let t = &s[lo..hi];
    assert(t@ =~= s@.subrange(lo as int, hi as int));
    let class_kw = str_chars("class ");
    let nm = str_chars(name);
    if !(starts_with_slice(t, class_kw.as_slice()) && contains_slice(t, nm.as_slice())) {
        return None;
    }
    let ext = str_chars("extends _$");
    let ext_notifier = str_chars("extends Notifier<");
    if contains_slice(t, ext.as_slice()) {
        let notifier = str_chars("Notifier");
        if ends_with_slice(nm.as_slice(), notifier.as_slice()) {
            let e = trim_end_matches_at(nm.as_slice(), notifier.as_slice(), 0, nm.len());
            assert(nm@.subrange(0, nm@.len() as int) =~= nm@);
            Some(string_of(nm.as_slice(), 0, e))
        } else {
            Some(String::from_str(name))
        }
    } else if contains_slice(t, ext_notifier.as_slice()) {
        proof {
            reveal_strlit("Notifier<");
            reveal_strlit("extends Notifier<");
            reveal_strlit(">");
        }
        let notifier_open = str_chars("Notifier<");
        let gt = str_chars(">");
        proof {
            lemma_find_contains(t@, ext_notifier@);
            let k = choose|k: int| is_match_at(t@, ext_notifier@, k);
            assert(ext_notifier@.len() == 17);
            assert(t@.subrange(k, k + 17) == ext_notifier@);
            assert(ext_notifier@.subrange(8, 17) =~= notifier_open@);
            assert(t@.subrange(k + 8, k + 17) =~= t@.subrange(k, k + 17).subrange(8, 17));
            assert(is_match_at(t@, notifier_open@, k + 8));
            lemma_find_contains(t@, notifier_open@);
        }
        let start = find_slice(t, notifier_open.as_slice()).unwrap();
        match find_at_or_after(t, gt.as_slice(), start) {
            Some(e) => {
                proof {
                    lemma_find_from(t@, gt@, start as nat);
                    assert forall|j: int| start <= j < start + 9 implies !is_match_at(t@, gt@, j) by {
                        assert(t@.subrange(start as int, start + 9) == notifier_open@);
                        assert(t@[j] == t@.subrange(start as int, start + 9)[j - start]);
                        if is_match_at(t@, gt@, j) {
                            assert(t@.subrange(j, j + 1)[0] == t@[j]);
                        }
                    }
                }
                Some(string_of(t, start + 9, e))
            },
            None => None,
        }
    } else {
        None
    }
}

/// Finds the state type of the notifier class `class_name` in `content`, as
/// `class_state_type` describes.
pub fn extract_class_type_from_content(content: &str, class_name: &str) -> (r: String)
    ensures
        r@ == class_state_type(content@, class_name@),
{
    let s = str_chars(content);
    let bounds = line_bounds(s.as_slice(), 0, s.len());
    proof {
        assert(s@.subrange(0, s@.len() as int) =~= s@);
    }
    let ghost ls = texts_of(s@, bounds@);
    let over = str_chars("@override");
    let mut i: usize = 0;
    while i < bounds.len()
        invariant
            i <= bounds@.len(),
            bounds_ok(s@, bounds@),
            ls == texts_of(s@, bounds@),
            ls == lines(content@),
            over@ == "@override"@,
            build_type_from(ls, i as nat) == build_type_from(ls, 0),
        decreases bounds.len() - i,
    {
        let (lo, hi) = bounds[i];
        proof {
            assert(bounds@[i as int].0 <= bounds@[i as int].1 && bounds@[i as int].1 <= s@.len());
        }
        let (a, b) = trim_bounds(s.as_slice(), lo, hi);
        let t = &s[a..b];
        assert(t@ =~= s@.subrange(a as int, b as int));
        if starts_with_slice(t, over.as_slice()) && i + 1 < bounds.len() {
            let (lo2, hi2) = bounds[i + 1];
            proof {
                assert(bounds@[i + 1].0 <= bounds@[i + 1].1 && bounds@[i + 1].1 <= s@.len());
            }
            let (a2, b2) = trim_bounds(s.as_slice(), lo2, hi2);
            match build_line_type_of(s.as_slice(), a2, b2) {
                Some(t) => {
                    return String::from_str(t);
                },
                None => {},
            }
        }
        i += 1;
    }
    let mut j: usize = 0;
    while j < bounds.len()
        invariant
            j <= bounds@.len(),
            bounds_ok(s@, bounds@),
            ls == texts_of(s@, bounds@),
            ls == lines(content@),
            build_type_from(ls, 0) is None,
            declared_type_from(ls, j as nat, class_name@) == declared_type_from(ls, 0, class_name@),
        decreases bounds.len() - j,
    {
        let (lo, hi) = bounds[j];
        proof {
            assert(bounds@[j as int].0 <= bounds@[j as int].1 && bounds@[j as int].1 <= s@.len());
        }
        let (a, b) = trim_bounds(s.as_slice(), lo, hi);
        match declared_type_of(s.as_slice(), a, b, class_name) {
            Some(t) => {
                return t;
            },
            None => {},
        }
        j += 1;
    }
    String::from_str("String")
}

/// `s` with its first character in lowercase (all of the characters of its
/// lowercase mapping) and the rest as it is.
pub open spec fn lower_first_all(s: Seq<char>) -> Seq<char> {
    if s.len() == 0 {
        s
    } else {
        char_lowercase(s[0]) + s.skip(1)
    }
}

/// Lowercases the first character of `s`, as `lower_first_all` describes.
pub fn to_lower_camel_case(s: &str) -> (r: String)
    ensures
        r@ == lower_first_all(s@),
{
    let cs = str_chars(s);
    if cs.len() == 0 {
        return String::new();
    }
    let mut out = char_to_lowercase(cs[0]);
    push_chars(&mut out, cs.as_slice(), 1, cs.len());
    assert(cs@.subrange(1, cs@.len() as int) =~= cs@.skip(1));
    out
}

/// The notifier provider code of the class `name` whose source is `content`: the
/// abstract `_$Name` notifier base class and the `NotifierProvider`, both for the
/// state type of the class. Nothing when the source could not be read.
pub open spec fn notifier_provider_text(name: Seq<char>, content: Option<Seq<char>>) -> Seq<char> {
    match content {
        None => Seq::empty(),
        Some(c) => {
            let ct = class_state_type(c, name);
            "abstract class _$"@ + name + " extends Notifier<"@ + ct + "> {\n  @override\n  "@ + ct
                + " build();\n}\n\nfinal "@ + lower_first_all(name) + "Provider = NotifierProvider<"@ + name
                + ", "@ + ct + ">(() {\n  return "@ + name + "();\n});\n"@
        },
    }
}

/// A notifier whose `build()` is declared `String build()` (as in
/// `lemma_string_build_state`) is a `Notifier<String>` and gets a
/// `NotifierProvider<Name, String>`.
pub proof fn lemma_string_build_notifier(content: Seq<char>, name: Seq<char>, i: int)
    requires
        0 <= i,
        i + 1 < lines(content).len(),
        starts_with(trim(lines(content)[i]), "@override"@),
        starts_with(trim(lines(content)[i + 1]), "String build()"@),
        !contains(trim(lines(content)[i + 1]), "AuthState"@),
        forall|j: int|
            0 <= j < i && j + 1 < lines(content).len() && starts_with(trim(#[trigger] lines(content)[j]), "@override"@)
                ==> !starts_with(trim(lines(content)[j + 1]), "AuthState build()"@) && !starts_with(
                trim(lines(content)[j + 1]),
                "String build()"@,
            ) && !starts_with(trim(lines(content)[j + 1]), "bool build()"@),
    ensures
        notifier_provider_text(name, Some(content)) == "abstract class _$"@ + name
            + " extends Notifier<String> {\n  @override\n  String build();\n}\n\nfinal "@ + lower_first_all(name)
            + "Provider = NotifierProvider<"@ + name + ", String>(() {\n  return "@ + name + "();\n});\n"@,
{
    lemma_string_build_state(content, name, i);
    reveal_strlit(" extends Notifier<");
    reveal_strlit("String");
    reveal_strlit("> {\n  @override\n  ");
    reveal_strlit(" build();\n}\n\nfinal ");
    reveal_strlit(" extends Notifier<String> {\n  @override\n  String build();\n}\n\nfinal ");
    reveal_strlit(", ");
    reveal_strlit(">(() {\n  return ");
    reveal_strlit(", String>(() {\n  return ");
    assert(notifier_provider_text(name, Some(content)) =~= "abstract class _$"@ + name
        + " extends Notifier<String> {\n  @override\n  String build();\n}\n\nfinal "@ + lower_first_all(name)
        + "Provider = NotifierProvider<"@ + name + ", String>(() {\n  return "@ + name + "();\n});\n"@);
}

/// The text of an optional string.
pub open spec fn opt_text(o: Option<String>) -> Option<Seq<char>> {
    match o {
        Some(s) => Some(s@),
        None => None,
    }
}

/// Generates the notifier provider code of `class`, whose source file holds
/// `class_content` (`None` when it could not be read).
pub fn generate_notifier_provider(class: &DartClass, class_content: &Option<String>) -> (r: String)
    ensures
        r@ == notifier_provider_text(class.name@, opt_text(*class_content)),
{
    let content = match class_content {
        Some(c) => c.as_str(),
        None => {
            return String::new();
        },
    };
    let class_type = extract_class_type_from_content(content, class.name.as_str());
    let lcc = to_lower_camel_case(class.name.as_str());
    let mut code = String::from_str("abstract class _$");
    code.append(class.name.as_str());
    code.append(" extends Notifier<");
    code.append(class_type.as_str());
    code.append("> {\n  @override\n  ");
    code.append(class_type.as_str());
    code.append(" build();\n}\n\nfinal ");
    code.append(lcc.as_str());
    code.append("Provider = NotifierProvider<");
    code.append(class.name.as_str());
    code.append(", ");
    code.append(class_type.as_str());
    code.append(">(() {\n  return ");
    code.append(class.name.as_str());
    code.append("();\n});\n");
    code
}

// ---------------------------------------------------------------------------
// Freezed and JSON parts
// ---------------------------------------------------------------------------

/// The file name of a path, or the empty text.
pub open spec fn file_name_or_empty(p: Seq<char>) -> Seq<char> {
    match file_name_of(p) {
        Some(x) => x,
        None => Seq::empty(),
    }
}

/// The `.g.dart` Freezed part of the class `n` in the file named `file_name`,
/// with the union cases `cs` and the fields `fs`: a class for each case when
/// there are several, else the mixin and implementation of the class; then the
/// JSON functions of each.
pub open spec fn g_freezed_text(n: Seq<char>, file_name: Seq<char>, cs: Seq<TreeCase>, fs: Seq<ParamModel>) -> Seq<char> {
    let head = "// GENERATED CODE - DO NOT MODIFY BY HAND\n// **************************************************************************\n// FreezedGenerator\n// **************************************************************************\n\npart of '"@
        + file_name + "';\n\n"@;
    if cs.len() > 1 {
        fold_put(
            fold_put(head, cs, g_case_part_fn(n, GCasePart::Class)) + "\n// JSON Serialization Functions\n"@,
            cs,
            g_case_part_fn(n, GCasePart::Json),
        )
    } else {
        put_g_regular_json(put_g_regular_class(head, n, fs) + "\n// JSON Serialization Functions\n"@, n, fs)
    }
}

/// Generates the Freezed part of `class`, whose source has the syntax tree `root`.
pub fn generate_freezed_code(class: &DartClass, root: &SyntaxNode) -> (r: String)
    requires
        file_name_of(class.file_path@) is Some,
    ensures
        r@ == g_freezed_text(
            class.name@,
            file_name_or_empty(class.file_path@),
            tree_cases(*root, class.name@),
            tree_fields(*root, class.name@),
        ),
{
    let file_name = match path_file_name(class.file_path.as_str()) {
        Some(x) => x,
        None => String::new(),
    };
    let n = class.name.as_str();
    let mut code = String::from_str(
        "// GENERATED CODE - DO NOT MODIFY BY HAND\n// **************************************************************************\n// FreezedGenerator\n// **************************************************************************\n\npart of '",
    );
    code.append(file_name.as_str());
    code.append("';\n\n");
    let union_cases = extract_union_cases_from_dart_class(root, n);
    if union_cases.len() > 1 {
        emit_g_cases(&mut code, n, union_cases.as_slice(), GCasePart::Class);
        code.append("\n// JSON Serialization Functions\n");
        emit_g_cases(&mut code, n, union_cases.as_slice(), GCasePart::Json);
    } else {
        let fields = extract_fields_from_dart_class(root, n);
        emit_g_regular_class(&mut code, n, fields.as_slice());
        code.append("\n// JSON Serialization Functions\n");
        emit_g_regular_json(&mut code, n, fields.as_slice());
    }
    code
}

/// The `.g.dart` JSON part of the class `n` in the file named `file_name`: a
/// comment for each union case when there are several, else one for the class;
/// the JSON functions themselves are left to `build_runner`.
pub open spec fn g_json_text(n: Seq<char>, file_name: Seq<char>, cs: Seq<TreeCase>) -> Seq<char> {
    let head = "// GENERATED CODE - DO NOT MODIFY BY HAND\n// **************************************************************************\n// JsonSerializableGenerator\n// **************************************************************************\n\npart of '"@
        + file_name + "';\n\n"@;
    if cs.len() > 1 {
        fold_put(head, cs, g_case_part_fn(n, GCasePart::Comment))
    } else {
        head + "// "@ + n + ": generated by Rust, JSON serialization is handled by build_runner\n"@
    }
}

/// Generates the JSON part of `class`, whose source has the syntax tree `root`.
pub fn generate_json_code(class: &DartClass, root: &SyntaxNode) -> (r: String)
    requires
        file_name_of(class.file_path@) is Some,
    ensures
        r@ == g_json_text(class.name@, file_name_or_empty(class.file_path@), tree_cases(*root, class.name@)),
{
    let file_name = match path_file_name(class.file_path.as_str()) {
        Some(x) => x,
        None => String::new(),
    };
    let n = class.name.as_str();
    let mut code = String::from_str(
        "// GENERATED CODE - DO NOT MODIFY BY HAND\n// **************************************************************************\n// JsonSerializableGenerator\n// **************************************************************************\n\npart of '",
    );
    code.append(file_name.as_str());
    code.append("';\n\n");
    let union_cases = extract_union_cases_from_dart_class(root, n);
    if union_cases.len() > 1 {
        emit_g_cases(&mut code, n, union_cases.as_slice(), GCasePart::Comment);
    } else {
        code.append("// ");
        code.append(n);
        code.append(": generated by Rust, JSON serialization is handled by build_runner\n");
    }
    code
}

// ---------------------------------------------------------------------------
// Riverpod parts
// ---------------------------------------------------------------------------

/// The parent directory of a path, or the empty path.
pub open spec fn parent_or_empty(p: Seq<char>) -> Seq<char> {
    match parent_of(p) {
        Some(x) => x,
        None => Seq::empty(),
    }
}

/// The path that the `part of` directive of a Riverpod part in `output_dir` names
/// for the source file `file_path`: its file name when the part sits next to it,
/// else the file name under `providers/`.
pub open spec fn riverpod_part_of(file_path: Seq<char>, output_dir: Seq<char>) -> Seq<char> {
    if same_path(output_dir, parent_or_empty(file_path)) {
        file_name_or_empty(file_path)
    } else {
        "providers/"@ + file_name_or_empty(file_path)
    }
}

/// Writes the provider of a function annotated with `@riverpod`, and a blank line.
pub open spec fn function_provider_fn() -> spec_fn(Seq<char>, FunctionModel) -> Seq<char> {
    |o: Seq<char>, f: FunctionModel| if has_riverpod(f.annotations) {
        o + function_provider_text(f) + "\n"@
    } else {
        o
    }
}

/// No function of `fs` annotated with `@riverpod` has a provider that cannot be written.
pub open spec fn providers_ok(fs: Seq<FunctionModel>) -> bool {
    forall|i: int| 0 <= i < fs.len() && has_riverpod(#[trigger] fs[i].annotations) ==> !function_provider_panics(fs[i])
}

/// The `.g.dart` Riverpod part for `class` written into `output_dir`, with the
/// functions `fs` of its source file: the `part of` directive, the providers of
/// the functions annotated with `@riverpod`, and the notifier provider of the
/// class when it is annotated with `@riverpod`.
pub open spec fn riverpod_text(
    class: DartClass,
    output_dir: Seq<char>,
    fs: Seq<FunctionModel>,
    content: Option<Seq<char>>,
) -> Seq<char> {
    let head = "// GENERATED CODE - DO NOT MODIFY BY HAND\n// **************************************************************************\n// RiverpodGenerator\n// **************************************************************************\n\npart of '"@
        + riverpod_part_of(class.file_path@, output_dir) + "';\n\n"@;
    let providers = fold_put(head, fs, function_provider_fn());
    if has_riverpod(texts(class.annotations@)) {
        providers + notifier_provider_text(class.name@, content)
    } else {
        providers
    }
}

/// Generates the Riverpod part of `class` for the directory `output_dir`; `root`
/// is the syntax tree of its source file and `class_content` its text (`None`
/// when it could not be read).
pub fn generate_riverpod_code(
    class: &DartClass,
    output_dir: &str,
    root: &SyntaxNode,
    class_content: &Option<String>,
) -> (r: String)
    requires
        file_name_of(class.file_path@) is Some,
        providers_ok(functions_in(*root, Seq::empty(), class.file_path@)),
    ensures
        r@ == riverpod_text(
            *class,
            output_dir@,
            functions_in(*root, Seq::empty(), class.file_path@),
            opt_text(*class_content),
        ),
{
    let file_name = match path_file_name(class.file_path.as_str()) {
        Some(x) => x,
        None => String::new(),
    };
    let input_dir = match path_parent(class.file_path.as_str()) {
        Some(x) => x,
        None => String::new(),
    };
    let relative_path = if path_eq(output_dir, input_dir.as_str()) {
        file_name
    } else {
        let mut p = String::from_str("providers/");
        p.append(file_name.as_str());
        p
    };
    let mut code = String::from_str(
        "// GENERATED CODE - DO NOT MODIFY BY HAND\n// **************************************************************************\n// RiverpodGenerator\n// **************************************************************************\n\npart of '",
    );
    code.append(relative_path.as_str());
    code.append("';\n\n");
    let functions = extract_functions_from_dart_source(root, class.file_path.as_str());
    let ghost fs = functions_view(functions@);
    let ghost head = code@;
    proof {
        lemma_fold_put_ends(head, fs, function_provider_fn());
    }
    let mut i: usize = 0;
    while i < functions.len()
        invariant
            i <= functions@.len(),
            fs == functions_view(functions@),
            providers_ok(fs),
            fold_put(code@, fs.skip(i as int), function_provider_fn()) == fold_put(head, fs, function_provider_fn()),
        decreases functions.len() - i,
    {
        let ghost before = code@;
        let f = &functions[i];
        assert(fs[i as int] == f@);
        if any_contains(&f.annotations, "@riverpod") {
            assert(has_riverpod(fs[i as int].annotations));
            let provider = generate_function_provider(f);
            code.append(provider.as_str());
            code.append("\n");
        }
        proof {
            lemma_fold_put_step(before, fs, i as int, function_provider_fn());
        }
        i += 1;
    }
    proof {
        lemma_fold_put_ends(code@, fs, function_provider_fn());
    }
    if any_contains(&class.annotations, "@riverpod") {
        let notifier = generate_notifier_provider(class, class_content);
        code.append(notifier.as_str());
    }
    code
}

/// Whether `generate_riverpod_code` may not be called for the functions of `root`,
/// because the provider of one of them cannot be written.
pub fn riverpod_would_panic(root: &SyntaxNode, file_path: &str) -> (r: bool)
    ensures
        r == !providers_ok(functions_in(*root, Seq::empty(), file_path@)),
{
    let functions = extract_functions_from_dart_source(root, file_path);
    let ghost fs = functions_view(functions@);
    let mut i: usize = 0;
    while i < functions.len()
        invariant
            i <= functions@.len(),
            fs == functions_view(functions@),
            fs == functions_in(*root, Seq::empty(), file_path@),
            forall|j: int| 0 <= j < i && has_riverpod(#[trigger] fs[j].annotations) ==> !function_provider_panics(fs[j]),
        decreases functions.len() - i,
    {
        let f = &functions[i];
        assert(fs[i as int] == f@);
        if any_contains(&f.annotations, "@riverpod") && function_provider_would_panic(f) {
            assert(has_riverpod(fs[i as int].annotations));
            return true;
        }
        i += 1;
    }
    false
}

/// Whether `generate_function_provider` may not be called on `function`.
pub fn function_provider_would_panic(function: &DartFunction) -> (r: bool)
    ensures
        r == function_provider_panics(function@),
{
    let fam = family_params_of(&function.parameters);
    if fam.len() == 0 || !str_starts_with(function.return_type.as_str(), "Future<") {
        return false;
    }
    proof {
        reveal_strlit("Future<");
    }
    let cs = str_chars(function.return_type.as_str());
    cs.len() == 7 || (cs[cs.len() - 1] as u32) >= 0x80
}

// ---------------------------------------------------------------------------
// `.g.dart` files
// ---------------------------------------------------------------------------

/// The code that the generator `generator_type` writes for `class`, when it is
/// one of `freezed`, `json` and `riverpod`.
pub open spec fn g_dart_code(
    generator_type: Seq<char>,
    class: DartClass,
    output_path: Seq<char>,
    root: SyntaxNode,
    content: Option<Seq<char>>,
) -> Option<Seq<char>> {
    if generator_type == "freezed"@ {
        Some(
            g_freezed_text(
                class.name@,
                file_name_or_empty(class.file_path@),
                tree_cases(root, class.name@),
                tree_fields(root, class.name@),
            ),
        )
    } else if generator_type == "json"@ {
        Some(g_json_text(class.name@, file_name_or_empty(class.file_path@), tree_cases(root, class.name@)))
    } else if generator_type == "riverpod"@ {
        Some(riverpod_text(class, output_path, functions_in(root, Seq::empty(), class.file_path@), content))
    } else {
        None
    }
}

/// The `.g.dart` file that the generator `generator_type` writes for `class`
/// into `output_path`: `<stem>.g.dart` there, holding the generated code; `root`
/// is the syntax tree of the class's source file and `class_content` its text.
/// `None` when the source path has no file name or the generator is unknown.
pub fn generate_g_dart_file_with_output_path(
    class: &DartClass,
    generator_type: &str,
    output_path: &str,
    root: &SyntaxNode,
    class_content: &Option<String>,
) -> (r: Option<GenerationResult>)
    requires
        generator_type@ == "riverpod"@ ==> providers_ok(functions_in(*root, Seq::empty(), class.file_path@)),
    ensures
        match r {
            Some(g) => {
                &&& file_stem_of(class.file_path@) matches Some(stem)
                &&& g.input_file@ == class.file_path@
                &&& g.output_file@ == joined_path(output_path@, stem + ".g.dart"@)
                &&& g_dart_code(generator_type@, *class, output_path@, *root, opt_text(*class_content)) == Some(
                    g.generated_code@,
                )
            },
            None => file_stem_of(class.file_path@) is None || g_dart_code(
                generator_type@,
                *class,
                output_path@,
                *root,
                opt_text(*class_content),
            ) is None,
        },
{
    let stem = match path_file_stem(class.file_path.as_str()) {
        Some(x) => x,
        None => {
            return None;
        },
    };
    let output_name = stem.concat(".g.dart");
    let output_file = path_join(output_path, output_name.as_str());
    let generated_code = if str_eq(generator_type, "freezed") {
        generate_freezed_code(class, root)
    } else if str_eq(generator_type, "json") {
        generate_json_code(class, root)
    } else if str_eq(generator_type, "riverpod") {
        generate_riverpod_code(class, output_path, root, class_content)
    } else {
        return None;
    };
    Some(GenerationResult { input_file: class.file_path.clone(), output_file, generated_code })
}

// ---------------------------------------------------------------------------
// The `part` directive of a source file
// ---------------------------------------------------------------------------

/// How many leading components `a` and `b` share.
pub open spec fn common_prefix_len(a: Seq<Seq<char>>, b: Seq<Seq<char>>, i: nat) -> nat
    decreases a.len() - i,
{
    if i < a.len() && i < b.len() && a[i as int] == b[i as int] {
        common_prefix_len(a, b, i + 1)
    } else {
        i
    }
}

/// `acc` followed by each of `parts`, with a `/` before each one that does not
/// start the text.
pub open spec fn join_path_parts(acc: Seq<char>, parts: Seq<Seq<char>>) -> Seq<char>
    decreases parts.len(),
{
    if parts.len() == 0 {
        acc
    } else {
        let acc2 = if acc.len() > 0 {
            acc + "/"@
        } else {
            acc
        };
        join_path_parts(acc2 + parts[0], parts.drop_first())
    }
}

/// The path from the directory with the components `from` to the file `name` in
/// the directory with the components `to`: a `..` for each component of `from`
/// after the common ones, then the rest of `to`, then `name`.
pub open spec fn relative_path(from: Seq<Seq<char>>, to: Seq<Seq<char>>, name: Seq<char>) -> Seq<char> {
    let common = common_prefix_len(from, to, 0);
    let ups = Seq::new((from.len() - common) as nat, |i: int| ".."@);
    join_path_parts(Seq::empty(), ups + to.skip(common as int) + seq![name])
}

/// The path by which the source file `input_file` names its part `output_file`.
pub open spec fn part_path(input_file: Seq<char>, output_file: Seq<char>) -> Seq<char> {
    let input_dir = parent_or_empty(input_file);
    let output_dir = parent_or_empty(output_file);
    if same_path(input_dir, output_dir) {
        file_name_or_empty(output_file)
    } else {
        relative_path(components_of(input_dir), components_of(output_dir), file_name_or_empty(output_file))
    }
}

/// The source text `content` of `input_file` with its `part '<name>';` directive
/// for `output_file` pointing at the part's actual place.
pub open spec fn updated_part_directive(content: Seq<char>, input_file: Seq<char>, output_file: Seq<char>) -> Seq<char> {
    let old_part = "part '"@ + file_name_or_empty(output_file) + "';"@;
    let new_part = "part '"@ + part_path(input_file, output_file) + "';"@;
    replace_all(content, old_part, new_part)
}

/// Rewrites the `part` directive in the source text `content` of `input_file`, as
/// `updated_part_directive` describes; the caller writes the file back when the
/// text changed.
pub fn update_part_directive(content: &str, input_file: &str, output_file: &str) -> (r: String)
    ensures
        r@ == updated_part_directive(content@, input_file@, output_file@),
{
    let input_dir = match path_parent(input_file) {
        Some(x) => x,
        None => String::new(),
    };
    let output_dir = match path_parent(output_file) {
        Some(x) => x,
        None => String::new(),
    };
    let output_filename = match path_file_name(output_file) {
        Some(x) => x,
        None => String::new(),
    };
    let relative = if path_eq(input_dir.as_str(), output_dir.as_str()) {
        output_filename.clone()
    } else {
        let ip = path_components(input_dir.as_str());
        let op = path_components(output_dir.as_str());
        let ghost a = texts(ip@);
        let ghost b = texts(op@);
        let mut common: usize = 0;
        while common < ip.len() && common < op.len() && str_eq(ip[common].as_str(), op[common].as_str())
            invariant
                common <= ip@.len(),
                common <= op@.len(),
                a == texts(ip@),
                b == texts(op@),
                common_prefix_len(a, b, common as nat) == common_prefix_len(a, b, 0),
            decreases ip.len() - common,
        {
            assert(a[common as int] == ip@[common as int]@ && b[common as int] == op@[common as int]@);
            common += 1;
        }
        proof {
            if common < ip@.len() && common < op@.len() {
                assert(a[common as int] == ip@[common as int]@ && b[common as int] == op@[common as int]@);
            }
        }
        let ghost ups = Seq::new((a.len() - common) as nat, |i: int| ".."@);
        let ghost parts = ups + b.skip(common as int) + seq![output_filename@];
        let mut rel = String::new();
        let mut k: usize = 0;
        proof {
            reveal_strlit("..");
            assert(parts.skip(0) =~= parts);
        }
        while k < ip.len() - common
            invariant
                common <= ip@.len(),
                k <= ip@.len() - common,
                parts == ups + b.skip(common as int) + seq![output_filename@],
                ups == Seq::new((a.len() - common) as nat, |i: int| ".."@),
                a.len() == ip@.len(),
                join_path_parts(rel@, parts.skip(k as int)) == join_path_parts(Seq::empty(), parts),
            decreases ip.len() - common - k,
        {
            proof {
                assert(parts.skip(k as int)[0] == ".."@);
                assert(parts.skip(k as int).drop_first() =~= parts.skip(k + 1));
            }
            if rel.unicode_len() > 0 {
                rel.append("/");
            }
            rel.append("..");
            k += 1;
        }
        let mut m: usize = common;
        while m < op.len()
            invariant
                common <= m <= op@.len(),
                b == texts(op@),
                parts == ups + b.skip(common as int) + seq![output_filename@],
                ups.len() == ip@.len() - common,
                join_path_parts(rel@, parts.skip(ups.len() + m - common)) == join_path_parts(Seq::empty(), parts),
            decreases op.len() - m,
        {
            proof {
                let j = ups.len() + m - common;
                assert(parts.skip(j)[0] == b[m as int]);
                assert(b[m as int] == op@[m as int]@);
                assert(parts.skip(j).drop_first() =~= parts.skip(j + 1));
            }
            if rel.unicode_len() > 0 {
                rel.append("/");
            }
            rel.append(op[m].as_str());
            m += 1;
        }
        proof {
            let j = ups.len() + op@.len() - common;
            assert(parts.skip(j) =~= seq![output_filename@]);
            assert(parts.skip(j).drop_first() =~= Seq::<Seq<char>>::empty());
        }
        let ghost r0 = rel@;
        proof {
            let acc2 = if r0.len() > 0 {
                r0 + "/"@
            } else {
                r0
            };
            assert(seq![output_filename@].drop_first() =~= Seq::<Seq<char>>::empty());
            assert(join_path_parts(acc2 + output_filename@, Seq::<Seq<char>>::empty()) == acc2 + output_filename@);
            assert(join_path_parts(r0, seq![output_filename@]) == acc2 + output_filename@);
        }
        if rel.unicode_len() > 0 {
            rel.append("/");
        }
        rel.append(output_filename.as_str());
        proof {
            assert(common_prefix_len(a, b, common as nat) == common);
            assert(a == components_of(input_dir@));
            assert(b == components_of(output_dir@));
            assert(rel@ == join_path_parts(Seq::empty(), parts));
        }
        rel
    };
    assert(relative@ == part_path(input_file@, output_file@));
    let mut old_part = String::from_str("part '");
    old_part.append(output_filename.as_str());
    old_part.append("';");
    let mut new_part = String::from_str("part '");
    new_part.append(relative.as_str());
    new_part.append("';");
    proof {
        reveal_strlit("part '");
    }
    replace_str(content, old_part.as_str(), new_part.as_str())
}

// ---------------------------------------------------------------------------
// Choosing the classes to generate
// ---------------------------------------------------------------------------

/// A class as text: its name, annotations and file.
pub open spec fn class_view(c: DartClass) -> (Seq<char>, Seq<Seq<char>>, Seq<char>) {
    (c.name@, texts(c.annotations@), c.file_path@)
}

/// The texts of a sequence of classes.
pub open spec fn classes_view(v: Seq<DartClass>) -> Seq<(Seq<char>, Seq<Seq<char>>, Seq<char>)> {
    v.map_values(|c: DartClass| class_view(c))
}

/// The classes of `cs` with an annotation that contains `annotation`, in order,
/// without a class that repeats the name and file (compared as paths) of the class
/// kept just before it.
pub open spec fn target_classes(cs: Seq<DartClass>, annotation: Seq<char>) -> Seq<(Seq<char>, Seq<Seq<char>>, Seq<char>)>
    decreases cs.len(),
{
    if cs.len() == 0 {
        Seq::empty()
    } else {
        let prev = target_classes(cs.drop_last(), annotation);
        let c = class_view(cs.last());
        if !has_annotation(c.1, annotation) {
            prev
        } else if prev.len() > 0 && prev.last().0 == c.0 && same_path(prev.last().2, c.2) {
            prev
        } else {
            prev.push(c)
        }
    }
}

/// A copy of `c`.
fn copy_class(c: &DartClass) -> (r: DartClass)
    ensures
        class_view(r) == class_view(*c),
{
    let mut annotations: Vec<String> = Vec::new();
    let mut i: usize = 0;
    while i < c.annotations.len()
        invariant
            i <= c.annotations@.len(),
            texts(annotations@) == texts(c.annotations@).take(i as int),
        decreases c.annotations.len() - i,
    {
        let ghost before = annotations@;
        let a = c.annotations[i].clone();
        assert(a@ == c.annotations@[i as int]@);
        annotations.push(a);
        assert(texts(annotations@) =~= texts(before).push(a@));
        assert(texts(c.annotations@).take(i + 1) =~= texts(c.annotations@).take(i as int).push(a@));
        i += 1;
    }
    assert(texts(c.annotations@).take(c.annotations@.len() as int) =~= texts(c.annotations@));
    DartClass { name: c.name.clone(), annotations, file_path: c.file_path.clone() }
}

/// The classes to generate code for with the annotation `annotation`, as
/// `target_classes` describes.
pub fn select_target_classes(classes: &[DartClass], annotation: &str) -> (r: Vec<DartClass>)
    ensures
        classes_view(r@) == target_classes(classes@, annotation@),
{
    let mut out: Vec<DartClass> = Vec::new();
    let mut i: usize = 0;
    assert(classes@.take(0) =~= Seq::<DartClass>::empty());
    assert(classes_view(out@) =~= Seq::<(Seq<char>, Seq<Seq<char>>, Seq<char>)>::empty());
    while i < classes.len()
        invariant
            i <= classes@.len(),
            classes_view(out@) == target_classes(classes@.take(i as int), annotation@),
        decreases classes.len() - i,
    {
        let c = &classes[i];
        proof {
            assert(classes@.take(i + 1).drop_last() =~= classes@.take(i as int));
            assert(classes@.take(i + 1).last() == *c);
        }
        let ghost prev = classes_view(out@);
        if any_contains(&c.annotations, annotation) {
            let repeats = out.len() > 0 && str_eq(out[out.len() - 1].name.as_str(), c.name.as_str()) && path_eq(
                out[out.len() - 1].file_path.as_str(),
                c.file_path.as_str(),
            );
            proof {
                if out@.len() > 0 {
                    assert(prev.last() == class_view(out@[out@.len() - 1]));
                }
            }
            if !repeats {
                let ghost before = out@;
                let copy = copy_class(c);
                out.push(copy);
                assert(classes_view(out@) =~= classes_view(before).push(class_view(*c)));
            }
        }
        i += 1;
    }
    assert(classes@.take(classes@.len() as int) =~= classes@);
    out
}

// ---------------------------------------------------------------------------
// Class members
// ---------------------------------------------------------------------------

/// A `copyWith` method for the class `class_name`, as `put_g_copy_with` describes.
pub fn generate_copy_with(class_name: &str, fields: &[DartField]) -> (r: String)
    ensures
        r@ == put_g_copy_with(Seq::empty(), class_name@, params_view(fields@)),
{
    let mut code = String::new();
    emit_g_copy_with(&mut code, class_name, fields);
    code
}

/// A `toString` method for the class `class_name`, as `put_g_to_string` describes.
pub fn generate_to_string(class_name: &str, fields: &[DartField]) -> (r: String)
    ensures
        r@ == put_g_to_string(Seq::empty(), class_name@, params_view(fields@)),
{
    let mut code = String::new();
    emit_g_to_string(&mut code, class_name, fields);
    code
}

/// An `operator ==` for the class `class_name`, as `put_g_eq` describes.
pub fn generate_eq(class_name: &str, fields: &[DartField]) -> (r: String)
    ensures
        r@ == put_g_eq(Seq::empty(), class_name@, params_view(fields@)),
{
    let mut code = String::new();
    emit_g_eq(&mut code, class_name, fields);
    code
}

/// A `hashCode` getter, as `put_g_hash_code` describes.
pub fn generate_hash_code(fields: &[DartField]) -> (r: String)
    ensures
        r@ == put_g_hash_code(Seq::empty(), Seq::empty(), params_view(fields@)),
{
    let mut code = String::new();
    emit_g_hash_code(&mut code, "", fields);
    proof {
        reveal_strlit("");
    }
    code
}

/// The `fromJson` factory of the class `class_name`, which calls `_$NameFromJson`.
pub fn generate_from_json(class_name: &str, _fields: &[DartField]) -> (r: String)
    ensures
        r@ == "  factory "@ + class_name@ + ".fromJson(Map<String, dynamic> json) => _$"@ + class_name@
            + "FromJson(json);\n"@,
{
    let mut code = String::from_str("  factory ");
    code.append(class_name);
    code.append(".fromJson(Map<String, dynamic> json) => _$");
    code.append(class_name);
    code.append("FromJson(json);\n");
    code
}

/// The `toJson` method of the class `class_name`, which calls `_$NameToJson`.
pub fn generate_to_json(class_name: &str, _fields: &[DartField]) -> (r: String)
    ensures
        r@ == "  Map<String, dynamic> toJson() => _$"@ + class_name@ + "ToJson(this);\n"@,
{
    let mut code = String::from_str("  Map<String, dynamic> toJson() => _$");
    code.append(class_name);
    code.append("ToJson(this);\n");
    code
}

/// The type name `t` occurs generically in the signature of `f`: in its return
/// type or in the type of a parameter, followed by `<`.
pub open spec fn function_uses(f: FunctionModel, t: Seq<char>) -> bool {
    contains(f.return_type, t + "<"@) || exists|j: int|
        0 <= j < f.parameters.len() && contains(#[trigger] f.parameters[j].ty, t + "<"@)
}

/// Some function of `fs` uses the type name `t` generically.
pub open spec fn uses_type(fs: Seq<FunctionModel>, t: Seq<char>) -> bool {
    exists|i: int| 0 <= i < fs.len() && function_uses(#[trigger] fs[i], t)
}

/// Whether some function of `functions` uses the generic type `t`.
fn uses_type_exec(functions: &[DartFunction], t: &str) -> (r: bool)
    ensures
        r == uses_type(functions_view(functions@), t@),
{
    let ghost fs = functions_view(functions@);
    let pat = String::from_str(t).concat("<");
    let mut i: usize = 0;
    while i < functions.len()
        invariant
            i <= functions@.len(),
            fs == functions_view(functions@),
            pat@ == t@ + "<"@,
            forall|k: int| 0 <= k < i ==> !function_uses(#[trigger] fs[k], t@),
        decreases functions.len() - i,
    {
        let f = &functions[i];
        assert(fs[i as int] == f@);
        if str_contains(f.return_type.as_str(), pat.as_str()) {
            assert(function_uses(fs[i as int], t@));
            return true;
        }
        let mut j: usize = 0;
        while j < f.parameters.len()
            invariant
                j <= f.parameters@.len(),
                i < functions@.len(),
                fs == functions_view(functions@),
                fs[i as int] == f@,
                pat@ == t@ + "<"@,
                forall|m: int| 0 <= m < j ==> !contains(#[trigger] params_view(f.parameters@)[m].ty, t@ + "<"@),
            decreases f.parameters.len() - j,
        {
            assert(params_view(f.parameters@)[j as int] == f.parameters@[j as int]@);
            if str_contains(f.parameters[j].ty.as_str(), pat.as_str()) {
                assert(contains(f@.parameters[j as int].ty, t@ + "<"@));
                assert(function_uses(f@, t@));
                assert(function_uses(fs[i as int], t@));
                return true;
            }
            j += 1;
        }
        assert(!function_uses(f@, t@));
        i += 1;
    }
    false
}

/// The generic collection types that `functions` use, each once, in the order
/// `List`, `Map`, `Set`.
pub open spec fn used_types(fs: Seq<FunctionModel>) -> Seq<Seq<char>> {
    let l = if uses_type(fs, "List"@) {
        seq!["List"@]
    } else {
        Seq::empty()
    };
    let m = if uses_type(fs, "Map"@) {
        l.push("Map"@)
    } else {
        l
    };
    if uses_type(fs, "Set"@) {
        m.push("Set"@)
    } else {
        m
    }
}

/// Collects the generic collection types that `functions` use, as `used_types` describes.
pub fn collect_used_types(functions: &[DartFunction]) -> (r: Vec<String>)
    ensures
        texts(r@) == used_types(functions_view(functions@)),
{
    let mut types: Vec<String> = Vec::new();
    if uses_type_exec(functions, "List") {
        types.push(String::from_str("List"));
    }
    let ghost l = texts(types@);
    if uses_type_exec(functions, "Map") {
        types.push(String::from_str("Map"));
        assert(texts(types@) =~= l.push("Map"@));
    }
    let ghost m = texts(types@);
    if uses_type_exec(functions, "Set") {
        types.push(String::from_str("Set"));
        assert(texts(types@) =~= m.push("Set"@));
    }
    proof {
        if uses_type(functions_view(functions@), "List"@) {
            assert(l =~= seq!["List"@]);
        } else {
            assert(l =~= Seq::<Seq<char>>::empty());
        }
    }
    types
}

/// The file is a Dart source by its extension.
pub open spec fn is_dart_path(p: Seq<char>) -> bool {
    extension_of(p) == Some("dart"@)
}

/// Whether the file at `path` is a Dart source: its extension is `dart`.
pub fn is_dart_file(path: &str) -> (r: bool)
    ensures
        r == is_dart_path(path@),
{
    match path_extension(path) {
        Some(e) => str_eq(e.as_str(), "dart"),
        None => false,
    }
}

/// Whether a file named `file_name` is a `.g.dart` part, which cleaning with
/// `--delete-conflicting-outputs` removes.
pub fn is_g_dart_file(file_name: &str) -> (r: bool)
    ensures
        r == ends_with(file_name@, ".g.dart"@),
{
    str_ends_with(file_name, ".g.dart")
}

/// The classes chosen for an annotation all carry it, and no chosen class repeats
/// the name and file (as a path) of the one chosen just before it.
pub proof fn lemma_targets_annotated_and_distinct(cs: Seq<DartClass>, annotation: Seq<char>)
    ensures
        forall|i: int|
            0 <= i < target_classes(cs, annotation).len() ==> has_annotation(
                #[trigger] target_classes(cs, annotation)[i].1,
                annotation,
            ),
        forall|i: int|
            0 <= i < target_classes(cs, annotation).len() - 1 ==> !(#[trigger] target_classes(cs, annotation)[i].0
                == target_classes(cs, annotation)[i + 1].0 && same_path(target_classes(cs, annotation)[i].2, target_classes(
                cs,
                annotation,
            )[i + 1].2)),
    decreases cs.len(),
{
    if cs.len() > 0 {
        lemma_targets_annotated_and_distinct(cs.drop_last(), annotation);
        let prev = target_classes(cs.drop_last(), annotation);
        let r = target_classes(cs, annotation);
        assert forall|i: int| 0 <= i < r.len() implies has_annotation(#[trigger] r[i].1, annotation) by {
            if i < prev.len() {
                assert(r[i] == prev[i]);
            }
        }
        assert forall|i: int| 0 <= i < r.len() - 1 implies !(#[trigger] r[i].0 == r[i + 1].0 && same_path(r[i].2, r[i
            + 1].2)) by {
            if i + 1 < prev.len() {
                assert(r[i] == prev[i] && r[i + 1] == prev[i + 1]);
            } else if r.len() > prev.len() {
                assert(r[i] == prev.last());
            }
        }
    }
}


/// Every class that carries the annotation is generated: some chosen class has
/// its name and a file that is the same path; and every chosen class is one of
/// the classes found.
pub proof fn lemma_annotated_classes_all_targeted(cs: Seq<DartClass>, annotation: Seq<char>)
    ensures
        forall|i: int|
            0 <= i < cs.len() && has_annotation(#[trigger] class_view(cs[i]).1, annotation) ==> exists|j: int|
                0 <= j < target_classes(cs, annotation).len() && #[trigger] target_classes(cs, annotation)[j].0
                    == cs[i].name@ && (target_classes(cs, annotation)[j].2 == cs[i].file_path@ || same_path(
                    target_classes(cs, annotation)[j].2,
                    cs[i].file_path@,
                )),
        forall|j: int|
            0 <= j < target_classes(cs, annotation).len() ==> exists|i: int|
                0 <= i < cs.len() && #[trigger] target_classes(cs, annotation)[j] == class_view(cs[i]),
    decreases cs.len(),
{
    if cs.len() > 0 {
        let init = cs.drop_last();
        lemma_annotated_classes_all_targeted(init, annotation);
        let prev = target_classes(init, annotation);
        let r = target_classes(cs, annotation);
        assert(forall|k: int| 0 <= k < prev.len() ==> r[k] == prev[k]);
        assert forall|i: int| 0 <= i < cs.len() && has_annotation(#[trigger] class_view(cs[i]).1, annotation) implies exists|j: int|
            0 <= j < r.len() && #[trigger] r[j].0 == cs[i].name@ && (r[j].2 == cs[i].file_path@ || same_path(
                r[j].2,
                cs[i].file_path@,
            )) by {
            if i < init.len() {
                assert(cs[i] == init[i]);
                assert(has_annotation(class_view(init[i]).1, annotation));
                let j = choose|j: int| 0 <= j < prev.len() && #[trigger] prev[j].0 == init[i].name@ && (prev[j].2
                    == init[i].file_path@ || same_path(prev[j].2, init[i].file_path@));
                assert(r[j] == prev[j]);
            } else if r.len() > prev.len() {
                assert(r[prev.len() as int] == class_view(cs.last()));
                assert(r[prev.len() as int].0 == cs[i].name@);
            } else {
                assert(r[prev.len() - 1] == prev.last());
            }
        }
        assert forall|j: int| 0 <= j < r.len() implies exists|i: int|
            0 <= i < cs.len() && #[trigger] r[j] == class_view(cs[i]) by {
            if j < prev.len() {
                assert(r[j] == prev[j]);
                let i = choose|i: int| 0 <= i < init.len() && #[trigger] prev[j] == class_view(init[i]);
                assert(cs[i] == init[i]);
            } else {
                assert(r[j] == class_view(cs[cs.len() - 1]));
            }
        }
    }
}


/// A part written into the directory of its source leaves the source's text as
/// it is: the `part` directive already names it.
pub proof fn lemma_part_next_to_source_keeps_text(content: Seq<char>, input_file: Seq<char>, output_file: Seq<char>)
    requires
        same_path(parent_or_empty(input_file), parent_or_empty(output_file)),
    ensures
        updated_part_directive(content, input_file, output_file) == content,
{
    let part = "part '"@ + file_name_or_empty(output_file) + "';"@;
    reveal_strlit("part '");
    assert(part.len() > 0);
    lemma_replace_by_itself(Seq::empty(), content, part, 0);
    assert(Seq::<char>::empty() + content.subrange(0, content.len() as int) =~= content);
}


/// The type of the parameter of a family provider with the parameters `fam`:
/// the type of the only one, or a map for several.
pub open spec fn family_param_type(fam: Seq<ParamModel>) -> Seq<char> {
    if fam.len() == 1 {
        fam[0].ty
    } else {
        "Map<String, dynamic>"@
    }
}

/// The hash line that starts the provider of the function `f`.
pub open spec fn provider_hash_line(f: FunctionModel) -> Seq<char> {
    "String _$"@ + f.name + "Provider"@ + "Hash() => r'"@ + hex_of(sha1_of(encode_utf8(f.name + f.file_path))) + "';\n\n"@
}

/// The provider of a function starts with its hash line, then declares
/// `final <name>Provider = <kind>`: a `.family` provider when the function has
/// parameters besides `ref`, else a plain one that calls the function with `ref`.
#[verifier::spinoff_prover]
#[verifier::rlimit(80)]
pub proof fn lemma_function_provider_shape(f: FunctionModel)
    ensures
        starts_with(function_provider_text(f), provider_hash_line(f)),
        ({
            let t = function_provider_text(f);
            let decl = provider_hash_line(f) + "final "@ + f.name + "Provider"@ + " = "@ + provider_kind(f.return_type);
            &&& starts_with(t, decl)
            &&& family_params(f.parameters).len() > 0 ==> starts_with(t, decl + ".family<"@)
            &&& family_params(f.parameters).len() > 0 ==> starts_with(
                t,
                decl + ".family<"@ + family_type(f.return_type) + ", "@ + family_param_type(family_params(f.parameters))
                    + ">((ref, params) {\n"@,
            )
            &&& family_params(f.parameters).len() == 0 ==> t == decl + "<"@ + provided_type(f.return_type)
                + ">((ref) {\n  return "@ + f.name + "(ref);\n});\n"@
        }),
{
    let t = function_provider_text(f);
    let h = provider_hash_line(f);
    let pn = f.name + "Provider"@;
    let decl = h + "final "@ + pn + " = "@ + provider_kind(f.return_type);
    assert(decl =~= provider_hash_line(f) + "final "@ + f.name + "Provider"@ + " = "@ + provider_kind(f.return_type));
    assert(("String _$"@ + pn + "Hash() => r'"@ + hex_of(sha1_of(encode_utf8(f.name + f.file_path))) + "';\n\n"@) =~= h);
    let fam = family_params(f.parameters);
    if fam.len() > 0 {
        let pt = if fam.len() == 1 {
            fam[0].ty
        } else {
            "Map<String, dynamic>"@
        };
        let rest = family_type(f.return_type) + ", "@ + pt + ">((ref, params) {\n  return "@ + f.name + "(ref"@
            + family_args(fam, positional_count(fam), 0) + ");\n});\n  name: r'"@ + pn
            + "',\n  debugGetCreateSourceHash:\n      const bool.fromEnvironment('dart.vm.product') ? null : _$"@
            + pn + "Hash,\n  dependencies: null,\n  allTransitiveDependencies: null,\n"@;
        assert(t =~= decl + ".family<"@ + rest);
        assert(t.subrange(0, (decl + ".family<"@).len() as int) =~= decl + ".family<"@);
        let line = decl + ".family<"@ + family_type(f.return_type) + ", "@ + family_param_type(fam) + ">((ref, params) {\n"@;
        reveal_strlit(">((ref, params) {\n  return ");
        reveal_strlit(">((ref, params) {\n");
        assert(t.subrange(0, line.len() as int) =~= line);
        assert(t.subrange(0, decl.len() as int) =~= decl);
        assert(t.subrange(0, h.len() as int) =~= h);
    } else {
        let rest = "<"@ + provided_type(f.return_type) + ">((ref) {\n  return "@ + f.name + "(ref);\n});\n"@;
        assert(t =~= decl + rest);
        assert(decl + rest =~= decl + "<"@ + provided_type(f.return_type) + ">((ref) {\n  return "@ + f.name
            + "(ref);\n});\n"@);
        assert(t.subrange(0, decl.len() as int) =~= decl);
        assert(t.subrange(0, h.len() as int) =~= h);
    }
}

/// The kind of provider follows the function's return type: a `Future<...>`
/// function gets an `AutoDisposeFutureProvider`, a `Stream<...>` function an
/// `AutoDisposeStreamProvider`, and any other an `AutoDisposeProvider`, whether
/// the provider is a plain one or a `.family`.
pub proof fn lemma_function_provider_kind(f: FunctionModel)
    ensures
        starts_with(f.return_type, "Future<"@) ==> starts_with(
            function_provider_text(f),
            provider_hash_line(f) + "final "@ + f.name + "Provider"@ + " = "@ + "AutoDisposeFutureProvider"@,
        ),
        starts_with(f.return_type, "Stream<"@) ==> starts_with(
            function_provider_text(f),
            provider_hash_line(f) + "final "@ + f.name + "Provider"@ + " = "@ + "AutoDisposeStreamProvider"@,
        ),
        !starts_with(f.return_type, "Future<"@) && !starts_with(f.return_type, "Stream<"@) ==> starts_with(
            function_provider_text(f),
            provider_hash_line(f) + "final "@ + f.name + "Provider"@ + " = "@ + "AutoDisposeProvider"@,
        ),
{
    lemma_function_provider_shape(f);
    reveal_strlit("Future<");
    reveal_strlit("Stream<");
    let rt = f.return_type;
    if starts_with(rt, "Stream<"@) {
        assert(rt.subrange(0, 7)[0] == rt[0]);
        assert(!starts_with(rt, "Future<"@));
    }
}

/// A function returning `Stream<T>` (or `Future<T>`) provides `T`, when `T`
/// neither starts with that wrapper nor ends with `>`.
pub proof fn lemma_provided_type_inside(w: Seq<char>, x: Seq<char>)
    requires
        w == "Stream<"@ || w == "Future<"@,
        !starts_with(x, w),
        !(x.len() > 0 && x.last() == '>'),
    ensures
        provided_type(w + x + ">"@) == x,
{
    reveal_strlit("Stream<");
    reveal_strlit("Future<");
    reveal_strlit(">");
    let s = w + x + ">"@;
    assert(s.subrange(0, 7) =~= w);
    let r = s.skip(7);
    assert(r =~= x + ">"@);
    if starts_with(r, w) {
        if x.len() >= 7 {
            assert(x.subrange(0, 7) =~= r.subrange(0, 7));
        } else {
            assert(r.subrange(0, 7)[x.len() as int] == r[x.len() as int]);
        }
    }
    assert(!starts_with(r, w));
    if w == "Stream<"@ {
        assert(s.subrange(0, 7)[0] == 'S');
        assert(!starts_with(s, "Future<"@)) by {
            assert(s.subrange(0, 7)[0] == s[0]);
        }
    }
    assert(trim_start_matches(r, w) == r);
    assert(r.subrange(r.len() - 1, r.len() as int) =~= ">"@);
    assert(r.take(r.len() - 1) =~= x);
    if x.len() > 0 && ends_with(x, ">"@) {
        assert(x.subrange(x.len() - 1, x.len() as int)[0] == x.last());
    }
    assert(trim_end_matches(x, ">"@) == x);
}

/// A function returning `Stream<T>` that takes no parameter but `ref` gets a plain
/// `AutoDisposeStreamProvider<T>` that calls it with `ref`.
pub proof fn lemma_stream_provider_without_parameters(f: FunctionModel, x: Seq<char>)
    requires
        f.return_type == "Stream<"@ + x + ">"@,
        !starts_with(x, "Stream<"@),
        !(x.len() > 0 && x.last() == '>'),
        family_params(f.parameters).len() == 0,
    ensures
        function_provider_text(f) == provider_hash_line(f) + "final "@ + f.name + "Provider = AutoDisposeStreamProvider<"@
            + x + ">((ref) {\n  return "@ + f.name + "(ref);\n});\n"@,
{
    lemma_function_provider_shape(f);
    lemma_function_provider_kind(f);
    lemma_provided_type_inside("Stream<"@, x);
    reveal_strlit("Stream<");
    reveal_strlit("Future<");
    reveal_strlit("Provider");
    reveal_strlit(" = ");
    reveal_strlit("AutoDisposeStreamProvider");
    reveal_strlit("Provider = AutoDisposeStreamProvider<");
    reveal_strlit("<");
    reveal_strlit(">((ref) {\n  return ");
    reveal_strlit("(ref);\n});\n");
    let rt = f.return_type;
    assert(rt.subrange(0, 7) =~= "Stream<"@);
    assert(rt.subrange(0, 7)[0] == rt[0]);
    assert(!starts_with(rt, "Future<"@));
    assert(provider_kind(rt) == "AutoDisposeStreamProvider"@);
    assert(provided_type(rt) == x);
    assert(function_provider_text(f) =~= provider_hash_line(f) + "final "@ + f.name + "Provider = AutoDisposeStreamProvider<"@
        + x + ">((ref) {\n  return "@ + f.name + "(ref);\n});\n"@);
}


/// The `.g.dart` Freezed part of a class starts with the generated-code line,
/// and holds the `FreezedGenerator` banner and the `part of` line naming its
/// source file; a class with at most one case holds the mixin `_$Name`.
#[verifier::spinoff_prover]
pub proof fn lemma_g_freezed_text_head(n: Seq<char>, file_name: Seq<char>, cs: Seq<TreeCase>, fs: Seq<ParamModel>)
    ensures
        starts_with(g_freezed_text(n, file_name, cs, fs), "// GENERATED CODE - DO NOT MODIFY BY HAND\n"@),
        contains(g_freezed_text(n, file_name, cs, fs), "// FreezedGenerator\n"@),
        contains(g_freezed_text(n, file_name, cs, fs), "part of '"@ + file_name + "';\n\n"@),
        cs.len() <= 1 ==> contains(g_freezed_text(n, file_name, cs, fs), "mixin _$"@ + n + " {\n"@),
        cs.len() > 1 ==> forall|k: int|
            0 <= k < cs.len() ==> contains(g_freezed_text(n, file_name, cs, fs), g_case_class_line(n, #[trigger] cs[k].case_name)),
{
    let big = "// GENERATED CODE - DO NOT MODIFY BY HAND\n// **************************************************************************\n// FreezedGenerator\n// **************************************************************************\n\npart of '"@;
    let head = big + file_name + "';\n\n"@;
    let t = g_freezed_text(n, file_name, cs, fs);
    let sep = "\n// JSON Serialization Functions\n"@;
    lemma_g_case_part_extends(n, GCasePart::Class);
    lemma_g_case_part_extends(n, GCasePart::Json);
    lemma_g_regular_keeps(head, n, fs);
    if cs.len() > 1 {
        let a = fold_put(head, cs, g_case_part_fn(n, GCasePart::Class));
        lemma_fold_put_keeps(head, cs, g_case_part_fn(n, GCasePart::Class));
        lemma_keeps_add(a, sep);
        lemma_fold_put_keeps(a + sep, cs, g_case_part_fn(n, GCasePart::Json));
        lemma_keeps_trans(head, a, a + sep);
        lemma_keeps_trans(head, a + sep, t);
        assert forall|k: int| 0 <= k < cs.len() implies contains(t, g_case_class_line(n, #[trigger] cs[k].case_name)) by {
            lemma_g_case_class_holds_line(n, cs[k]);
            lemma_fold_put_contains(head, cs, g_case_part_fn(n, GCasePart::Class), k, g_case_class_line(n, cs[k].case_name));
            lemma_keeps_trans(a, a + sep, t);
            lemma_contains_keeps(a, t, g_case_class_line(n, cs[k].case_name));
        }
    } else {
        let a = put_g_regular_class(head, n, fs);
        lemma_keeps_add(a, sep);
        lemma_keeps_trans(head, a, a + sep);
        lemma_keeps_trans(head, a + sep, t);
        lemma_g_regular_class_mixin(head, n, fs);
        lemma_keeps_trans(head + "mixin _$"@ + n + " {\n"@, a, a + sep);
        lemma_keeps_trans(head + "mixin _$"@ + n + " {\n"@, a + sep, t);
        let m = "mixin _$"@ + n + " {\n"@;
        assert((head + "mixin _$"@ + n + " {\n"@).subrange(head.len() as int, (head.len() + m.len()) as int) =~= m);
        lemma_keeps_match(head + "mixin _$"@ + n + " {\n"@, t, m, head.len() as int);
    }
    reveal_strlit("// GENERATED CODE - DO NOT MODIFY BY HAND\n// **************************************************************************\n// FreezedGenerator\n// **************************************************************************\n\npart of '");
    reveal_strlit("// GENERATED CODE - DO NOT MODIFY BY HAND\n");
    reveal_strlit("// FreezedGenerator\n");
    reveal_strlit("part of '");
    assert(head.subrange(0, 42) =~= "// GENERATED CODE - DO NOT MODIFY BY HAND\n"@);
    lemma_keeps_match(head, t, "// GENERATED CODE - DO NOT MODIFY BY HAND\n"@, 0);
    assert(head.subrange(120, 140) =~= "// FreezedGenerator\n"@);
    lemma_keeps_match(head, t, "// FreezedGenerator\n"@, 120);
    let part = "part of '"@ + file_name + "';\n\n"@;
    assert(head.subrange(219, 219 + part.len() as int) =~= part);
    lemma_keeps_match(head, t, part, 219);
}

/// The class code of a regular class begins with its mixin.
proof fn lemma_g_regular_class_mixin(o: Seq<char>, n: Seq<char>, fs: Seq<ParamModel>)
    ensures
        keeps(o + "mixin _$"@ + n + " {\n"@, put_g_regular_class(o, n, fs)),
{
    let a = o + "mixin _$"@ + n + " {\n"@;
    let b = a + "  "@ + n + " copyWith({"@;
    assert(keeps(a, b)) by {
        reveal(keeps);
    }
    lemma_g_regular_class_from_mixin(o, n, fs);
    lemma_keeps_trans(a, b, put_g_regular_class(o, n, fs));
}

} // verus!
