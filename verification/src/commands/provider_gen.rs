//! Riverpod provider generation.

use vstd::prelude::*;
use crate::primitives::{
    joined_path, parent_of, path_join, path_parent, is_upper, is_uppercase_char, lower_first, lower_first_char, path_file_stem, file_stem_of,
    str_chars, string_push, upper_first, upper_first_char,
};
use crate::text::{
    contains, contains_slice, ends_with, ends_with_slice, fold_put, lemma_fold_put_ends,
    lemma_fold_put_step, replace_all, replace_str, starts_with, trim_end_matches, trim_end_matches_at, starts_with_slice, trim,
    trim_bounds, lemma_contains_trim,
};

verus! {

/// A provider to generate: the annotated function (or notifier class) and what it returns.
#[derive(Clone, Debug)]
pub struct ProviderClass {
    pub name: String,
    pub return_type: String,
}

/// A named, typed field of a Dart declaration.
#[derive(Clone, Debug)]
pub struct DartField {
    pub name: String,
    pub ty: String,
}

/// The kinds of Riverpod providers.
#[derive(Clone, Debug)]
pub enum ProviderType {
    Provider,
    FutureProvider,
    StreamProvider,
    AsyncNotifierProvider,
}

/// The generated provider code together with the `part of` directive of its file.
pub struct ProviderGenerationResult {
    pub provider_code: String,
    pub part_directive: String,
}

// ---------------------------------------------------------------------------
// lowerCamelCase
// ---------------------------------------------------------------------------

/// Writes after `out` the characters `s[i..]` converted as by `to_lower_camel_case`
/// after its first character: uppercase characters are kept, `_` is dropped and
/// capitalizes the character after it, other characters are kept.
pub open spec fn put_camel_rest(out: Seq<char>, s: Seq<char>, i: nat, cap: bool) -> Seq<char>
    decreases s.len() - i,
{
    if i >= s.len() {
        out
    } else {
        let c = s[i as int];
        if is_upper(c) {
            put_camel_rest(out.push(c), s, i + 1, false)
        } else if c == '_' {
            put_camel_rest(out, s, i + 1, true)
        } else if cap {
            put_camel_rest(out.push(upper_first(c)), s, i + 1, false)
        } else {
            put_camel_rest(out.push(c), s, i + 1, false)
        }
    }
}

/// `s` in lowerCamelCase: its first character lowercased, then the rest as
/// `put_camel_rest` converts it.
pub open spec fn lower_camel_case(s: Seq<char>) -> Seq<char> {
    if s.len() == 0 {
        Seq::empty()
    } else {
        put_camel_rest(seq![lower_first(s[0])], s, 1, false)
    }
}

/// Converts an identifier such as `get_user` or `AuthNotifier` to lowerCamelCase.
pub fn to_lower_camel_case(s: &str) -> (r: String)
    ensures
        r@ == lower_camel_case(s@),
{
    let cs = str_chars(s);
    let mut result = String::new();
    if cs.len() == 0 {
        return result;
    }
    string_push(&mut result, lower_first_char(cs[0]));
    let mut capitalize_next = false;
    let mut i: usize = 1;
    while i < cs.len()
        invariant
            1 <= i <= cs@.len(),
            cs@ == s@,
            put_camel_rest(result@, cs@, i as nat, capitalize_next) == lower_camel_case(s@),
        decreases cs.len() - i,
    {
        let c = cs[i];
        if is_uppercase_char(c) {
            string_push(&mut result, c);
            capitalize_next = false;
        } else if c == '_' {
            capitalize_next = true;
        } else if capitalize_next {
            string_push(&mut result, upper_first_char(c));
            capitalize_next = false;
        } else {
            string_push(&mut result, c);
        }
        i += 1;
    }
    result
}

// ---------------------------------------------------------------------------
// Single providers
// ---------------------------------------------------------------------------

/// The provider variable name for a function or class: its name without
/// `Notifier`, in lowerCamelCase, followed by `Provider`.
pub open spec fn provider_name(name: Seq<char>) -> Seq<char> {
    lower_camel_case(replace_all(name, "Notifier"@, ""@)) + "Provider"@
}

/// The provider declaration for `name` returning `ret`: nothing for a `...Notifier`
/// class (the official generator makes those), a `StreamProvider` for a
/// `get...Status` function, a `FutureProvider.family` for other `get...` functions,
/// and a plain `Provider` otherwise.
pub open spec fn single_provider_text(name: Seq<char>, ret: Seq<char>) -> Seq<char> {
    let p = provider_name(name);
    if ends_with(name, "Notifier"@) {
        Seq::empty()
    } else if starts_with(name, "get"@) && contains(name, "Status"@) {
        "final "@ + p + " = StreamProvider<"@ + ret + ">((ref) {\n  return "@ + name
            + "(ref);\n});\n\n"@
    } else if starts_with(name, "get"@) {
        "final "@ + p + " = FutureProvider.family<"@ + ret
            + ", String>((ref, userId) async {\n  return await "@ + name
            + "(ref, userId);\n});\n\n"@
    } else {
        "final "@ + p + " = Provider<"@ + ret + ">((ref) {\n  return "@ + name
            + "(ref);\n});\n\n"@
    }
}

/// Generates the provider declaration for one class or function.
pub fn generate_provider_code(class: &ProviderClass) -> (r: String)
    ensures
        r@ == single_provider_text(class.name@, class.return_type@),
{
    generate_single_provider(class)
}

fn generate_single_provider(class: &ProviderClass) -> (r: String)
    ensures
        r@ == single_provider_text(class.name@, class.return_type@),
{
    proof {
        reveal_strlit("Notifier");
    }
    let stripped = replace_str(class.name.as_str(), "Notifier", "");
    let lcc = to_lower_camel_case(stripped.as_str());
    let name = str_chars(class.name.as_str());
    let notifier = str_chars("Notifier");
    let get = str_chars("get");
    let status = str_chars("Status");
    if ends_with_slice(name.as_slice(), notifier.as_slice()) {
        return String::new();
    }
    let mut code = String::from_str("final ");
    code.append(lcc.as_str());
    code.append("Provider");
    if starts_with_slice(name.as_slice(), get.as_slice()) && contains_slice(
        name.as_slice(),
        status.as_slice(),
    ) {
        code.append(" = StreamProvider<");
        code.append(class.return_type.as_str());
        code.append(">((ref) {\n  return ");
        code.append(class.name.as_str());
        code.append("(ref);\n});\n\n");
    } else if starts_with_slice(name.as_slice(), get.as_slice()) {
        code.append(" = FutureProvider.family<");
        code.append(class.return_type.as_str());
        code.append(", String>((ref, userId) async {\n  return await ");
        code.append(class.name.as_str());
        code.append("(ref, userId);\n});\n\n");
    } else {
        code.append(" = Provider<");
        code.append(class.return_type.as_str());
        code.append(">((ref) {\n  return ");
        code.append(class.name.as_str());
        code.append("(ref);\n});\n\n");
    }
    code
}

// ---------------------------------------------------------------------------
// Provider files
// ---------------------------------------------------------------------------

/// The file stem of a path, or the empty text when it has none.
pub open spec fn stem_or_empty(p: Seq<char>) -> Seq<char> {
    match file_stem_of(p) {
        Some(x) => x,
        None => Seq::empty(),
    }
}

/// The name of the library that a generated provider file at `output_path` is part
/// of: the file stem, without the `.g` of a `.g.dart` file.
pub open spec fn provider_part_of(output_path: Seq<char>) -> Seq<char> {
    let stem = stem_or_empty(output_path);
    if ends_with(stem, ".g"@) {
        trim_end_matches(stem, ".g"@)
    } else {
        stem
    }
}

/// Writes the abstract base class `_$Name` of a `...Notifier` class; other classes write nothing.
pub open spec fn put_notifier_base() -> spec_fn(Seq<char>, ProviderClass) -> Seq<char> {
    |o: Seq<char>, c: ProviderClass|
        if ends_with(c.name@, "Notifier"@) {
            o + "abstract class _$"@ + c.name@ + " extends AsyncNotifier<"@ + c.return_type@
                + "> {\n"@ + "  @override\n"@ + "  Future<"@ + c.return_type@ + "> build();\n"@
                + "}\n\n"@
        } else {
            o
        }
}

/// Writes the provider declaration of a class.
pub open spec fn put_provider() -> spec_fn(Seq<char>, ProviderClass) -> Seq<char> {
    |o: Seq<char>, c: ProviderClass| o + single_provider_text(c.name@, c.return_type@)
}

/// The Dart hash helper class written into every provider file.
pub open spec fn put_system_hash(o: Seq<char>) -> Seq<char> {
    o + "/// Copied from Dart SDK\n"@ + "class _SystemHash {\n"@ + "  _SystemHash._();\n\n"@
        + "  static int combine(int hash, int value) {\n"@
        + "    // ignore: parameter_assignments\n"@
        + "    hash = 0x1fffffff & (hash + value);\n"@
        + "    // ignore: parameter_assignments\n"@
        + "    hash = 0x1fffffff & (hash + ((0x0007ffff & hash) << 10));\n"@
        + "    return hash ^ (hash >> 6);\n"@ + "  }\n\n"@ + "  static int finish(int hash) {\n"@
        + "    // ignore: parameter_assignments\n"@
        + "    hash = 0x1fffffff & (hash + ((0x03ffffff & hash) << 3));\n"@
        + "    // ignore: parameter_assignments\n"@ + "    hash = hash ^ (hash >> 11);\n"@
        + "    return 0x1fffffff & (hash + ((0x00003fff & hash) << 15));\n"@ + "  }\n"@
        + "}\n\n"@
}

/// The text of a provider file at `output_path` for `classes`: header with the
/// `part of` directive, the base classes of the notifier classes, the hash helper,
/// the providers of all classes in order, and the lint footer.
pub open spec fn provider_file_text(classes: Seq<ProviderClass>, output_path: Seq<char>) -> Seq<char> {
    let head = "// GENERATED CODE - DO NOT MODIFY BY HAND\n"@ + "part of '"@ + provider_part_of(
        output_path,
    ) + ".dart';\n\n"@
        + "// **************************************************************************\n"@
        + "// RiverpodGenerator\n"@
        + "// **************************************************************************\n\n"@;
    let bases = fold_put(head, classes, put_notifier_base());
    let providers = fold_put(put_system_hash(bases), classes, put_provider());
    providers + "// ignore_for_file: type=lint\n"@
        + "// ignore_for_file: subtype_of_sealed_class, invalid_use_of_internal_member, invalid_use_of_visible_for_testing_member, deprecated_member_use_from_same_package\n"@
}

/// The text of the provider file at `output_path` for `provider_classes`; the
/// caller writes it to the file.
pub fn generate_provider_file(provider_classes: &[ProviderClass], output_path: &str) -> (r: String)
    ensures
        r@ == provider_file_text(provider_classes@, output_path@),
{
    let stem = match path_file_stem(output_path) {
        Some(x) => x,
        None => String::new(),
    };
    let stem_chars = str_chars(stem.as_str());
    let dot_g = str_chars(".g");
    let part_of = if ends_with_slice(stem_chars.as_slice(), dot_g.as_slice()) {
        let e = trim_end_matches_at(stem_chars.as_slice(), dot_g.as_slice(), 0, stem_chars.len());
        proof {
            assert(stem_chars@.subrange(0, stem_chars@.len() as int) =~= stem_chars@);
        }
        crate::text::string_of(stem_chars.as_slice(), 0, e)
    } else {
        stem
    };
    let mut code = String::from_str("// GENERATED CODE - DO NOT MODIFY BY HAND\n");
    code.append("part of '");
    code.append(part_of.as_str());
    code.append(".dart';\n\n");
    code.append("// **************************************************************************\n");
    code.append("// RiverpodGenerator\n");
    code.append("// **************************************************************************\n\n");
    let ghost head = code@;
    let mut i: usize = 0;
    proof {
        lemma_fold_put_ends(head, provider_classes@, put_notifier_base());
    }
    while i < provider_classes.len()
        invariant
            i <= provider_classes@.len(),
            fold_put(code@, provider_classes@.skip(i as int), put_notifier_base()) == fold_put(
                head,
                provider_classes@,
                put_notifier_base(),
            ),
        decreases provider_classes.len() - i,
    {
        let class = &provider_classes[i];
        let ghost before = code@;
        let name = str_chars(class.name.as_str());
        let notifier = str_chars("Notifier");
        if ends_with_slice(name.as_slice(), notifier.as_slice()) {
            code.append("abstract class _$");
            code.append(class.name.as_str());
            code.append(" extends AsyncNotifier<");
            code.append(class.return_type.as_str());
            code.append("> {\n");
            code.append("  @override\n");
            code.append("  Future<");
            code.append(class.return_type.as_str());
            code.append("> build();\n");
            code.append("}\n\n");
        }
        proof {
            assert(code@ == (put_notifier_base())(before, provider_classes@[i as int]));
            lemma_fold_put_step(before, provider_classes@, i as int, put_notifier_base());
        }
        i += 1;
    }
    proof {
        lemma_fold_put_ends(code@, provider_classes@, put_notifier_base());
    }
    code.append("/// Copied from Dart SDK\n");
    code.append("class _SystemHash {\n");
    code.append("  _SystemHash._();\n\n");
    code.append("  static int combine(int hash, int value) {\n");
    code.append("    // ignore: parameter_assignments\n");
    code.append("    hash = 0x1fffffff & (hash + value);\n");
    code.append("    // ignore: parameter_assignments\n");
    code.append("    hash = 0x1fffffff & (hash + ((0x0007ffff & hash) << 10));\n");
    code.append("    return hash ^ (hash >> 6);\n");
    code.append("  }\n\n");
    code.append("  static int finish(int hash) {\n");
    code.append("    // ignore: parameter_assignments\n");
    code.append("    hash = 0x1fffffff & (hash + ((0x03ffffff & hash) << 3));\n");
    code.append("    // ignore: parameter_assignments\n");
    code.append("    hash = hash ^ (hash >> 11);\n");
    code.append("    return 0x1fffffff & (hash + ((0x00003fff & hash) << 15));\n");
    code.append("  }\n");
    code.append("}\n\n");
    let ghost mid = code@;
    let mut j: usize = 0;
    proof {
        lemma_fold_put_ends(mid, provider_classes@, put_provider());
    }
    while j < provider_classes.len()
        invariant
            j <= provider_classes@.len(),
            fold_put(code@, provider_classes@.skip(j as int), put_provider()) == fold_put(
                mid,
                provider_classes@,
                put_provider(),
            ),
        decreases provider_classes.len() - j,
    {
        let ghost before = code@;
        let provider_code = generate_single_provider(&provider_classes[j]);
        code.append(provider_code.as_str());
        proof {
            lemma_fold_put_step(before, provider_classes@, j as int, put_provider());
        }
        j += 1;
    }
    proof {
        lemma_fold_put_ends(code@, provider_classes@, put_provider());
    }
    code.append("// ignore_for_file: type=lint\n");
    code.append(
        "// ignore_for_file: subtype_of_sealed_class, invalid_use_of_internal_member, invalid_use_of_visible_for_testing_member, deprecated_member_use_from_same_package\n",
    );
    code
}

// ---------------------------------------------------------------------------
// Annotations and output paths
// ---------------------------------------------------------------------------

/// The annotation marks a Riverpod provider: once trimmed, it contains `@riverpod`.
pub open spec fn is_riverpod_annotation(a: Seq<char>) -> bool {
    contains(trim(a), "@riverpod"@)
}

/// How many of `anns` are Riverpod annotations.
pub open spec fn riverpod_count(anns: Seq<String>) -> nat
    decreases anns.len(),
{
    if anns.len() == 0 {
        0
    } else {
        riverpod_count(anns.drop_last()) + if is_riverpod_annotation(anns.last()@) {
            1nat
        } else {
            0nat
        }
    }
}

/// The provider kinds that `annotations` call for: one `Provider` for each
/// annotation that contains `@riverpod`.
pub fn extract_provider_annotations(annotations: &[String]) -> (r: Vec<ProviderType>)
    ensures
        r@.len() == riverpod_count(annotations@),
        forall|i: int| 0 <= i < r@.len() ==> #[trigger] r@[i] is Provider,
{
    let mut provider_types: Vec<ProviderType> = Vec::new();
    let pat = str_chars("@riverpod");
    let mut i: usize = 0;
    while i < annotations.len()
        invariant
            i <= annotations@.len(),
            pat@ == "@riverpod"@,
            provider_types@.len() == riverpod_count(annotations@.take(i as int)),
            forall|k: int| 0 <= k < provider_types@.len() ==> #[trigger] provider_types@[k] is Provider,
        decreases annotations.len() - i,
    {
        assert(annotations@.take(i + 1).drop_last() =~= annotations@.take(i as int));
        let a = str_chars(annotations[i].as_str());
        let (lo, hi) = trim_bounds(a.as_slice(), 0, a.len());
        let t = crate::text::string_of(a.as_slice(), lo, hi);
        let tc = str_chars(t.as_str());
        proof {
            assert(a@.subrange(0, a@.len() as int) =~= a@);
        }
        if contains_slice(tc.as_slice(), pat.as_slice()) {
            provider_types.push(ProviderType::Provider);
        }
        i += 1;
    }
    assert(annotations@.take(annotations@.len() as int) =~= annotations@);
    provider_types
}

/// The parent directory of a path, or the empty path when it has none.
pub open spec fn parent_or_empty(p: Seq<char>) -> Seq<char> {
    match parent_of(p) {
        Some(x) => x,
        None => Seq::empty(),
    }
}

/// The two output files of a source file: `<stem>.provider.dart` and
/// `<stem>.g.dart`, both in the directory of the source file.
pub fn get_provider_output_paths(file_path: &str) -> (r: (String, String))
    ensures
        r.0@ == joined_path(parent_or_empty(file_path@), stem_or_empty(file_path@) + ".provider.dart"@),
        r.1@ == joined_path(parent_or_empty(file_path@), stem_or_empty(file_path@) + ".g.dart"@),
{
    let stem = match path_file_stem(file_path) {
        Some(x) => x,
        None => String::new(),
    };
    let parent = match path_parent(file_path) {
        Some(x) => x,
        None => String::new(),
    };
    let provider_name = stem.clone().concat(".provider.dart");
    let g_name = stem.concat(".g.dart");
    (path_join(parent.as_str(), provider_name.as_str()), path_join(parent.as_str(), g_name.as_str()))
}

/// No provider is written for a class exactly when its name ends with
/// `Notifier`: those are left to the official generator.
pub proof fn lemma_no_provider_iff_notifier(name: Seq<char>, ret: Seq<char>)
    ensures
        single_provider_text(name, ret).len() == 0 <==> ends_with(name, "Notifier"@),
{
    reveal_strlit("final ");
    if !ends_with(name, "Notifier"@) {
        assert(single_provider_text(name, ret)[0] == 'f');
    }
}


/// An annotation is a Riverpod annotation exactly when its untrimmed text holds
/// `@riverpod`; the count of Riverpod annotations adds up over concatenation.
pub proof fn lemma_riverpod_count_laws(a: Seq<String>, b: Seq<String>)
    ensures
        forall|x: Seq<char>| #[trigger] is_riverpod_annotation(x) == contains(x, "@riverpod"@),
        riverpod_count(a + b) == riverpod_count(a) + riverpod_count(b),
    decreases b.len(),
{
    reveal_strlit("@riverpod");
    assert forall|x: Seq<char>| #[trigger] is_riverpod_annotation(x) == contains(x, "@riverpod"@) by {
        lemma_contains_trim(x, "@riverpod"@);
    }
    if b.len() == 0 {
        assert(a + b =~= a);
    } else {
        lemma_riverpod_count_laws(a, b.drop_last());
        assert((a + b).drop_last() =~= a + b.drop_last());
        assert((a + b).last() == b.last());
    }
}

} // verus!
