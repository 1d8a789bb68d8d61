//! The JsonSerializable part of the generated code: `fromJson` and `toJson`
//! functions, field by field.

use vstd::prelude::*;
use crate::commands::freezed_gen::{cases_view, fields_view, CaseInfo, CaseModel, DartField, FieldModel};
use crate::primitives::str_chars;
use crate::text::{
    char_utf8_len, contains, contains_slice, find, find_at_or_after, find_from, find_slice, fold_put,
    is_match_at, lemma_find_contains, lemma_find_from, lemma_fold_put_ends, lemma_fold_put_step, len_utf8,
    push_chars, str_eq, string_of, trim_end_matches, trim_end_matches_at, trim_start_matches,
    trim_start_matches_at, utf8_len, starts_with, keeps, lemma_fold_put_contains,
};

verus! {

// ---------------------------------------------------------------------------
// Splitting
// ---------------------------------------------------------------------------

/// The text of `s` before the first occurrence of `p`, or all of `s` when `p`
/// does not occur (`s.split(p).next()`).
pub open spec fn split_first(s: Seq<char>, p: Seq<char>) -> Seq<char> {
    match find(s, p) {
        Some(i) => s.take(i),
        None => s,
    }
}

/// The text of `s` between the first occurrence of `p` and the next one, or to the
/// end of `s` when there is no next one (`s.split(p).nth(1)`).
pub open spec fn split_second(s: Seq<char>, p: Seq<char>) -> Seq<char> {
    match find(s, p) {
        Some(i) => split_first(s.skip(i + p.len()), p),
        None => Seq::empty(),
    }
}

/// `p` occurs in `s` exactly once, counting occurrences from left to right
/// without overlap (`s.split(p)` has two parts).
pub open spec fn occurs_once(s: Seq<char>, p: Seq<char>) -> bool {
    match find(s, p) {
        Some(i) => !contains(s.skip(i + p.len()), p),
        None => false,
    }
}

// ---------------------------------------------------------------------------
// Long expressions
// ---------------------------------------------------------------------------

/// The line break and indentation put before a continued part of an expression.
pub open spec fn continuation() -> Seq<char> {
    "\n          "@
}

/// A nullable `DateTime` conversion is always laid out on three lines.
pub open spec fn is_nullable_date(e: Seq<char>) -> bool {
    contains(e, "json['"@) && contains(e, "] == null ? null : DateTime.parse("@)
}

/// The expression is longer than 80 bytes.
pub open spec fn is_long(e: Seq<char>) -> bool {
    utf8_len(e) > 80
}

/// A long expression is split at its single `? null :`.
pub open spec fn splits_at_null(e: Seq<char>) -> bool {
    is_long(e) && occurs_once(e, "? null :"@)
}

/// A long expression with a `?.map(` and a `).toList()` is split before the `?.map(`.
pub open spec fn splits_at_map(e: Seq<char>) -> bool {
    is_long(e) && contains(e, "?.map("@) && contains(e, ").toList()"@)
}

/// The position of the first occurrence of `p` in `s` (0 when there is none).
pub open spec fn pos(s: Seq<char>, p: Seq<char>) -> int {
    match find(s, p) {
        Some(i) => i,
        None => 0,
    }
}

/// The layout of a generated conversion expression: a nullable `DateTime`
/// conversion of `json['name']` on three lines; an expression of more than 80
/// bytes broken before and after its single `? null :`, or else before its first
/// `?.map(` when it also has a `).toList()`; any other expression as it is.
pub open spec fn format_long(e: Seq<char>) -> Seq<char> {
    if is_nullable_date(e) {
        let name = split_first(split_second(e, "json['"@), "']"@);
        "json['"@ + name + "'] == null\n          ? null\n          : DateTime.parse(json['"@ + name
            + "'] as String)"@
    } else if splits_at_null(e) {
        let i = pos(e, "? null :"@);
        e.take(i) + "\n          ? null\n          : "@ + e.skip(i + 8)
    } else if splits_at_map(e) {
        let m = pos(e, "?.map("@);
        e.take(m) + continuation() + e.skip(m)
    } else {
        e
    }
}

/// The layout of `e` would cut it between a `).toList()` and a later `?.map(`,
/// a range that ends before it starts, which no layout is defined for.
pub open spec fn format_long_panics(e: Seq<char>) -> bool {
    &&& !is_nullable_date(e)
    &&& !splits_at_null(e)
    &&& splits_at_map(e)
    &&& pos(e, ").toList()"@) + 9 < pos(e, "?.map("@)
}

/// The bytes of the first `i` characters of `s`, one more character at a time.
proof fn lemma_utf8_len_step(s: Seq<char>, i: int)
    requires
        0 <= i < s.len(),
    ensures
        utf8_len(s.take(i + 1)) == utf8_len(s.take(i)) + char_utf8_len(s[i]),
{
    assert(s.take(i + 1).drop_last() =~= s.take(i));
}

/// A prefix has no more bytes than the whole text.
proof fn lemma_utf8_len_prefix(s: Seq<char>, i: int)
    requires
        0 <= i <= s.len(),
    ensures
        utf8_len(s.take(i)) <= utf8_len(s),
    decreases s.len() - i,
{
    if i == s.len() {
        assert(s.take(i) =~= s);
    } else {
        lemma_utf8_len_step(s, i);
        lemma_utf8_len_prefix(s, i + 1);
    }
}

/// Whether the UTF-8 encoding of `s` has more than 80 bytes.
fn longer_than_80_bytes(s: &[char]) -> (r: bool)
    ensures
        r == (utf8_len(s@) > 80),
{
    let mut n: usize = 0;
    let mut i: usize = 0;
    while i < s.len()
        invariant
            i <= s@.len(),
            n == utf8_len(s@.take(i as int)),
            n <= 80,
        decreases s.len() - i,
    {
        proof {
            lemma_utf8_len_step(s@, i as int);
        }
        n = n + len_utf8(s[i]);
        if n > 80 {
            proof {
                lemma_utf8_len_prefix(s@, i + 1);
            }
            return true;
        }
        i += 1;
    }
    assert(s@.take(s@.len() as int) =~= s@);
    false
}

/// The text before the first occurrence of `p` in `s[lo..hi]`, or all of it.
fn split_first_of(s: &[char], lo: usize, hi: usize, p: &[char]) -> (r: (usize, usize))
    requires
        lo <= hi <= s@.len(),
    ensures
        r.0 == lo,
        lo <= r.1 <= hi,
        s@.subrange(lo as int, r.1 as int) == split_first(s@.subrange(lo as int, hi as int), p@),
{
    let t = &s[lo..hi];
    assert(t@ =~= s@.subrange(lo as int, hi as int));
    proof {
        lemma_find_contains(t@, p@);
    }
    match find_slice(t, p) {
        Some(k) => {
            assert(t@.take(k as int) =~= s@.subrange(lo as int, lo + k));
            (lo, lo + k)
        },
        None => (lo, hi),
    }
}

/// No occurrence of `p` starts at or after `k` exactly when the rest of `s` from
/// `k` on does not contain `p`.
proof fn lemma_none_after(s: Seq<char>, p: Seq<char>, k: int)
    requires
        0 <= k <= s.len(),
    ensures
        find_from(s, p, k as nat) is None <==> !contains(s.skip(k), p),
{
    lemma_find_from(s, p, k as nat);
    let t = s.skip(k);
    assert forall|j: int| is_match_at(t, p, j) implies #[trigger] is_match_at(s, p, j + k) by {
        assert(t.subrange(j, j + p.len()) =~= s.subrange(j + k, j + k + p.len()));
    }
    assert forall|j: int| j >= k && is_match_at(s, p, j) implies #[trigger] is_match_at(t, p, j - k) by {
        assert(t.subrange(j - k, j - k + p.len()) =~= s.subrange(j, j + p.len()));
    }
    if find_from(s, p, k as nat) is None {
        assert forall|j: int| !#[trigger] is_match_at(t, p, j) by {
            if is_match_at(t, p, j) {
                assert(is_match_at(s, p, j + k));
            }
        }
    } else {
        let m = find_from(s, p, k as nat)->0;
        assert(is_match_at(t, p, m - k));
    }
}

/// Lays out a generated conversion expression as `format_long` describes.
pub fn format_long_expression(expr: &str) -> (r: String)
    requires
        !format_long_panics(expr@),
    ensures
        r@ == format_long(expr@),
{
    proof {
        reveal_strlit("json['");
        reveal_strlit("']");
        reveal_strlit("? null :");
    }
    let e = str_chars(expr);
    let elen = e.len();
    let json_open = str_chars("json['");
    let null_date = str_chars("] == null ? null : DateTime.parse(");
    if contains_slice(e.as_slice(), json_open.as_slice()) && contains_slice(e.as_slice(), null_date.as_slice()) {
        proof {
            lemma_find_contains(e@, json_open@);
        }
        let i = find_slice(e.as_slice(), json_open.as_slice()).unwrap();
        let start = i + 6;
        let (a, b) = split_first_of(e.as_slice(), start, elen, json_open.as_slice());
        let close = str_chars("']");
        let (c, d) = split_first_of(e.as_slice(), a, b, close.as_slice());
        proof {
            assert(e@.skip(i + 6) =~= e@.subrange(start as int, e@.len() as int));
        }
        let name = string_of(e.as_slice(), c, d);
        let mut out = String::from_str("json['");
        out.append(name.as_str());
        out.append("'] == null\n          ? null\n          : DateTime.parse(json['");
        out.append(name.as_str());
        out.append("'] as String)");
        return out;
    }
    let long = longer_than_80_bytes(e.as_slice());
    if long {
        let q = str_chars("? null :");
        match find_slice(e.as_slice(), q.as_slice()) {
            Some(i) => {
                proof {
                    lemma_find_contains(e@, q@);
                    assert(i + 8 <= e@.len());
                }
                let rest = find_at_or_after(e.as_slice(), q.as_slice(), i + 8);
                proof {
                    lemma_none_after(e@, q@, i + 8);
                }
                if rest.is_none() {
                    let mut out = string_of(e.as_slice(), 0, i);
                    out.append("\n          ? null\n          : ");
                    push_chars(&mut out, e.as_slice(), i + 8, elen);
                    proof {
                        assert(e@.subrange(0, i as int) =~= e@.take(i as int));
                        assert(e@.subrange(i + 8, e@.len() as int) =~= e@.skip(i + 8));
                    }
                    return out;
                }
            },
            None => {},
        }
        let m = str_chars("?.map(");
        let t = str_chars(").toList()");
        if contains_slice(e.as_slice(), m.as_slice()) && contains_slice(e.as_slice(), t.as_slice()) {
            proof {
                lemma_find_contains(e@, m@);
                lemma_find_contains(e@, t@);
            }
            let map_start = find_slice(e.as_slice(), m.as_slice()).unwrap();
            let mut out = string_of(e.as_slice(), 0, map_start);
            out.append("\n          ");
            push_chars(&mut out, e.as_slice(), map_start, elen);
            proof {
                assert(e@.subrange(0, map_start as int) =~= e@.take(map_start as int));
                assert(e@.subrange(map_start as int, e@.len() as int) =~= e@.skip(map_start as int));
            }
            return out;
        }
    }
    String::from_str(expr)
}

/// Whether `format_long_expression` may not be called on `expr`.
pub fn format_would_panic(expr: &str) -> (r: bool)
    ensures
        r == format_long_panics(expr@),
{
    proof {
        reveal_strlit("json['");
        reveal_strlit("? null :");
        reveal_strlit(").toList()");
        reveal_strlit("?.map(");
    }
    let e = str_chars(expr);
    let elen = e.len();
    let json_open = str_chars("json['");
    let null_date = str_chars("] == null ? null : DateTime.parse(");
    if contains_slice(e.as_slice(), json_open.as_slice()) && contains_slice(e.as_slice(), null_date.as_slice()) {
        return false;
    }
    if !longer_than_80_bytes(e.as_slice()) {
        return false;
    }
    let q = str_chars("? null :");
    proof {
        lemma_find_contains(e@, q@);
    }
    match find_slice(e.as_slice(), q.as_slice()) {
        Some(i) => {
            assert(i + 8 <= elen);
            let rest = find_at_or_after(e.as_slice(), q.as_slice(), i + 8);
            proof {
                lemma_none_after(e@, q@, i + 8);
            }
            if rest.is_none() {
                return false;
            }
        },
        None => {},
    }
    let m = str_chars("?.map(");
    let t = str_chars(").toList()");
    match (find_slice(e.as_slice(), m.as_slice()), find_slice(e.as_slice(), t.as_slice())) {
        (Some(a), Some(b)) => {
            proof {
                lemma_find_contains(e@, m@);
                lemma_find_contains(e@, t@);
            }
            assert(b + 10 <= elen);
            b + 9 < a
        },
        _ => {
            proof {
                lemma_find_contains(e@, m@);
                lemma_find_contains(e@, t@);
            }
            false
        },
    }
}

// ---------------------------------------------------------------------------
// Field conversions
// ---------------------------------------------------------------------------

/// `s` without its leading and trailing single quotes (`str::trim_matches('\'')`).
pub open spec fn trim_quotes(s: Seq<char>) -> Seq<char> {
    trim_end_matches(trim_start_matches(s, "'"@), "'"@)
}

/// The default value of a field, or `dflt` when it has none.
pub open spec fn default_or(f: FieldModel, dflt: Seq<char>) -> Seq<char> {
    match f.default_value {
        Some(d) => d,
        None => dflt,
    }
}

/// The expression that reads the field `f` from `json` in a `fromJson` function,
/// by the field's type: `DateTime` parsed from a string, `int` through `num`,
/// string lists mapped element by element (with `const []` for an empty list
/// default), `String` and `bool` with their default when they have one, and a
/// plain cast for any other type.
pub open spec fn field_conversion(f: FieldModel) -> Seq<char> {
    let n = f.name;
    if f.ty == "DateTime"@ {
        "DateTime.parse(json['"@ + n + "'] as String)"@
    } else if f.ty == "DateTime?"@ {
        "json['"@ + n + "'] == null\n          ? null\n          : DateTime.parse(json['"@ + n + "'] as String)"@
    } else if f.ty == "int"@ {
        "(json['"@ + n + "'] as num).toInt()"@
    } else if f.ty == "int?"@ {
        "(json['"@ + n + "'] as num?)?.toInt()"@
    } else if f.ty == "List<String>"@ {
        if f.has_default && f.default_value == Some("[]"@) {
            "(json['"@ + n + "'] as List<dynamic>?)\n          ?.map((e) => e as String)\n          .toList() ??\n      const []"@
        } else {
            "(json['"@ + n + "'] as List<dynamic>?)?.map((e) => e as String).toList()"@
        }
    } else if f.ty == "List<String>?"@ {
        "(json['"@ + n + "'] as List<dynamic>?)?.map((e) => e as String).toList()"@
    } else if f.ty == "String"@ {
        if f.has_default {
            "json['"@ + n + "'] as String? ?? '"@ + trim_quotes(default_or(f, "''"@)) + "'"@
        } else {
            "json['"@ + n + "'] as String"@
        }
    } else if f.ty == "bool"@ {
        if f.has_default {
            "json['"@ + n + "'] as bool? ?? "@ + trim_quotes(default_or(f, "false"@))
        } else {
            "json['"@ + n + "'] as bool"@
        }
    } else {
        "json['"@ + n + "'] as "@ + f.ty
    }
}

/// How each field is read from the decoded JSON map `json`, by its type:
/// `DateTime`s are parsed from strings, `int`s are read as `num` and converted
/// with `toInt()`, lists of strings are read as `List<dynamic>?` and each element
/// is cast to `String` (never the raw value cast to `List<String>`, which a decoded
/// JSON list is not), and an empty-list default gives `const []` when the key is
/// missing; `String` and `bool` fields with a default fall back to it; any other
/// type is a plain cast of `json['name']` to the type.
pub proof fn lemma_field_conversion_by_type(f: FieldModel)
    ensures
        f.ty == "DateTime"@ ==> field_conversion(f) == "DateTime.parse(json['"@ + f.name + "'] as String)"@,
        f.ty == "DateTime?"@ ==> field_conversion(f) == "json['"@ + f.name
            + "'] == null\n          ? null\n          : DateTime.parse(json['"@ + f.name + "'] as String)"@,
        f.ty == "int"@ ==> field_conversion(f) == "(json['"@ + f.name + "'] as num).toInt()"@,
        f.ty == "int?"@ ==> field_conversion(f) == "(json['"@ + f.name + "'] as num?)?.toInt()"@,
        f.ty == "List<String>"@ && !(f.has_default && f.default_value == Some("[]"@)) ==> field_conversion(f)
            == "(json['"@ + f.name + "'] as List<dynamic>?)?.map((e) => e as String).toList()"@,
        f.ty == "List<String>"@ && f.has_default && f.default_value == Some("[]"@) ==> field_conversion(f)
            == "(json['"@ + f.name
            + "'] as List<dynamic>?)\n          ?.map((e) => e as String)\n          .toList() ??\n      const []"@,
        f.ty == "List<String>?"@ ==> field_conversion(f) == "(json['"@ + f.name
            + "'] as List<dynamic>?)?.map((e) => e as String).toList()"@,
        f.ty == "String"@ && !f.has_default ==> field_conversion(f) == "json['"@ + f.name + "'] as String"@,
        f.ty == "String"@ && f.has_default ==> field_conversion(f) == "json['"@ + f.name + "'] as String? ?? '"@
            + trim_quotes(default_or(f, "''"@)) + "'"@,
        f.ty == "bool"@ && !f.has_default ==> field_conversion(f) == "json['"@ + f.name + "'] as bool"@,
        f.ty == "bool"@ && f.has_default ==> field_conversion(f) == "json['"@ + f.name + "'] as bool? ?? "@
            + trim_quotes(default_or(f, "false"@)),
        f.ty != "DateTime"@ && f.ty != "DateTime?"@ && f.ty != "int"@ && f.ty != "int?"@ && f.ty != "List<String>"@
            && f.ty != "List<String>?"@ && f.ty != "String"@ && f.ty != "bool"@ ==> field_conversion(f)
            == "json['"@ + f.name + "'] as "@ + f.ty,
{
    reveal_strlit("DateTime");
    reveal_strlit("DateTime?");
    reveal_strlit("int");
    reveal_strlit("int?");
    reveal_strlit("List<String>");
    reveal_strlit("List<String>?");
    reveal_strlit("String");
    reveal_strlit("bool");
    assert("DateTime"@.len() == 8 && "DateTime?"@.len() == 9 && "int"@.len() == 3 && "int?"@.len() == 4);
    assert("List<String>"@.len() == 12 && "List<String>?"@.len() == 13 && "String"@.len() == 6);
    assert("bool"@.len() == 4 && "int?"@[0] != "bool"@[0]);
}

/// A list of strings, nullable or not, is not read by casting the raw JSON value
/// to `List<String>`: its conversion starts by reading the value as
/// `List<dynamic>?` and casts each element with `e as String`.
pub proof fn lemma_string_lists_read_as_dynamic(f: FieldModel)
    requires
        f.ty == "List<String>"@ || f.ty == "List<String>?"@,
    ensures
        starts_with(field_conversion(f), "(json['"@ + f.name + "'] as List<dynamic>?)"@),
        contains(field_conversion(f), "?.map((e) => e as String)"@),
{
    let c = field_conversion(f);
    let head = "(json['"@ + f.name + "'] as List<dynamic>?)"@;
    lemma_field_conversion_by_type(f);
    reveal_strlit("(json['");
    reveal_strlit("'] as List<dynamic>?)");
    reveal_strlit("'] as List<dynamic>?)?.map((e) => e as String).toList()");
    reveal_strlit("'] as List<dynamic>?)\n          ?.map((e) => e as String)\n          .toList() ??\n      const []");
    reveal_strlit("?.map((e) => e as String)");
    assert(c.subrange(0, head.len() as int) =~= head);
    let k = head.len() as int + if f.ty == "List<String>"@ && f.has_default && f.default_value == Some("[]"@) { 11int } else { 0int };
    assert(c.subrange(k, k + 25) =~= "?.map((e) => e as String)"@);
    assert(is_match_at(c, "?.map((e) => e as String)"@, k));
}

/// Removes the leading and trailing single quotes of `s`.
fn trim_single_quotes(s: &str) -> (r: String)
    ensures
        r@ == trim_quotes(s@),
{
    let cs = str_chars(s);
    let q = str_chars("'");
    let a = trim_start_matches_at(cs.as_slice(), q.as_slice(), 0, cs.len());
    let b = trim_end_matches_at(cs.as_slice(), q.as_slice(), a, cs.len());
    assert(cs@.subrange(0, cs@.len() as int) =~= cs@);
    string_of(cs.as_slice(), a, b)
}

/// Builds the expression that reads a field in a `fromJson` function.
pub fn get_field_conversion(field: &DartField) -> (r: String)
    ensures
        r@ == field_conversion(field@),
{
    let n = field.name.as_str();
    let t = field.ty.as_str();
    let mut out = String::new();
    if str_eq(t, "DateTime") {
        out.append("DateTime.parse(json['");
        out.append(n);
        out.append("'] as String)");
    } else if str_eq(t, "DateTime?") {
        out.append("json['");
        out.append(n);
        out.append("'] == null\n          ? null\n          : DateTime.parse(json['");
        out.append(n);
        out.append("'] as String)");
    } else if str_eq(t, "int") {
        out.append("(json['");
        out.append(n);
        out.append("'] as num).toInt()");
    } else if str_eq(t, "int?") {
        out.append("(json['");
        out.append(n);
        out.append("'] as num?)?.toInt()");
    } else if str_eq(t, "List<String>") {
        let empty_default = match &field.default_value {
            Some(d) => str_eq(d.as_str(), "[]"),
            None => false,
        };
        if field.has_default && empty_default {
            out.append("(json['");
            out.append(n);
            out.append("'] as List<dynamic>?)\n          ?.map((e) => e as String)\n          .toList() ??\n      const []");
        } else {
            out.append("(json['");
            out.append(n);
            out.append("'] as List<dynamic>?)?.map((e) => e as String).toList()");
        }
    } else if str_eq(t, "List<String>?") {
        out.append("(json['");
        out.append(n);
        out.append("'] as List<dynamic>?)?.map((e) => e as String).toList()");
    } else if str_eq(t, "String") {
        if field.has_default {
            let d = match &field.default_value {
                Some(d) => trim_single_quotes(d.as_str()),
                None => trim_single_quotes("''"),
            };
            out.append("json['");
            out.append(n);
            out.append("'] as String? ?? '");
            out.append(d.as_str());
            out.append("'");
        } else {
            out.append("json['");
            out.append(n);
            out.append("'] as String");
        }
    } else if str_eq(t, "bool") {
        if field.has_default {
            let d = match &field.default_value {
                Some(d) => trim_single_quotes(d.as_str()),
                None => trim_single_quotes("false"),
            };
            out.append("json['");
            out.append(n);
            out.append("'] as bool? ?? ");
            out.append(d.as_str());
        } else {
            out.append("json['");
            out.append(n);
            out.append("'] as bool");
        }
    } else {
        out.append("json['");
        out.append(n);
        out.append("'] as ");
        out.append(t);
    }
    out
}

/// The expression that writes the field `f` in a `toJson` function: `DateTime`
/// values as ISO 8601 strings, anything else as it is.
pub open spec fn to_json_conversion(f: FieldModel) -> Seq<char> {
    if f.ty == "DateTime"@ {
        "instance."@ + f.name + ".toIso8601String()"@
    } else if f.ty == "DateTime?"@ {
        "instance."@ + f.name + "?.toIso8601String()"@
    } else {
        "instance."@ + f.name
    }
}

/// Builds the expression that writes a field in a `toJson` function.
pub fn get_to_json_field_conversion(field: &DartField) -> (r: String)
    ensures
        r@ == to_json_conversion(field@),
{
    let mut out = String::from_str("instance.");
    out.append(field.name.as_str());
    if str_eq(field.ty.as_str(), "DateTime") {
        out.append(".toIso8601String()");
    } else if str_eq(field.ty.as_str(), "DateTime?") {
        out.append("?.toIso8601String()");
    }
    out
}

// ---------------------------------------------------------------------------
// fromJson and toJson functions
// ---------------------------------------------------------------------------

/// No field conversion of `fs` makes `format_long_expression` panic.
pub open spec fn conversions_ok(fs: Seq<FieldModel>) -> bool {
    forall|i: int| 0 <= i < fs.len() ==> !format_long_panics(field_conversion(#[trigger] fs[i]))
}

/// No field conversion of any case of `cs` makes `format_long_expression` panic.
pub open spec fn case_conversions_ok(cs: Seq<CaseModel>) -> bool {
    forall|i: int| 0 <= i < cs.len() ==> conversions_ok(#[trigger] cs[i].fields)
}

/// `o` followed by the `fromJson` argument of the field `f`, indented by `indent`:
/// `name: <conversion>,`.
pub open spec fn put_from_json_entry(o: Seq<char>, f: FieldModel, indent: Seq<char>) -> Seq<char> {
    o + indent + f.name + ": "@ + format_long(field_conversion(f)) + ",\n"@
}

/// `put_from_json_entry` with the indentation `indent`.
pub open spec fn from_json_entry_fn(indent: Seq<char>) -> spec_fn(Seq<char>, FieldModel) -> Seq<char> {
    |o: Seq<char>, f: FieldModel| put_from_json_entry(o, f, indent)
}

/// Appends the `fromJson` arguments of `fields`, in order.
fn emit_from_json_entries(code: &mut String, fields: &[DartField], indent: &str)
    requires
        conversions_ok(fields_view(fields@)),
    ensures
        final(code)@ == fold_put(old(code)@, fields_view(fields@), from_json_entry_fn(indent@)),
{
    let ghost fs = fields_view(fields@);
    let ghost first = code@;
    proof {
        lemma_fold_put_ends(first, fs, from_json_entry_fn(indent@));
    }
    let mut i: usize = 0;
    while i < fields.len()
        invariant
            i <= fields@.len(),
            fs == fields_view(fields@),
            conversions_ok(fs),
            fold_put(code@, fs.skip(i as int), from_json_entry_fn(indent@)) == fold_put(first, fs, from_json_entry_fn(indent@)),
        decreases fields.len() - i,
    {
        let ghost before = code@;
        let f = &fields[i];
        assert(fs[i as int] == f@);
        let conv = get_field_conversion(f);
        let formatted = format_long_expression(conv.as_str());
        code.append(indent);
        code.append(f.name.as_str());
        code.append(": ");
        code.append(formatted.as_str());
        code.append(",\n");
        proof {
            lemma_fold_put_step(before, fs, i as int, from_json_entry_fn(indent@));
        }
        i += 1;
    }
    proof {
        lemma_fold_put_ends(code@, fs, from_json_entry_fn(indent@));
    }
}

/// `o` followed by the `toJson` entry of the field `f`: `'name': <conversion>,`.
pub open spec fn put_to_json_entry(o: Seq<char>, f: FieldModel) -> Seq<char> {
    o + "  '"@ + f.name + "': "@ + to_json_conversion(f) + ",\n"@
}

/// `put_to_json_entry` as a function of the text so far and the field.
pub open spec fn to_json_entry_fn() -> spec_fn(Seq<char>, FieldModel) -> Seq<char> {
    |o: Seq<char>, f: FieldModel| put_to_json_entry(o, f)
}

/// A field is written to JSON from `instance.<name>`: a `DateTime` as its ISO 8601
/// text (`?.` for a nullable one), any other type as it is.
pub proof fn lemma_to_json_conversion_by_type(f: FieldModel)
    ensures
        f.ty == "DateTime"@ ==> to_json_conversion(f) == "instance."@ + f.name + ".toIso8601String()"@,
        f.ty == "DateTime?"@ ==> to_json_conversion(f) == "instance."@ + f.name + "?.toIso8601String()"@,
        f.ty != "DateTime"@ && f.ty != "DateTime?"@ ==> to_json_conversion(f) == "instance."@ + f.name,
{
    reveal_strlit("DateTime");
    reveal_strlit("DateTime?");
    assert("DateTime"@.len() == 8 && "DateTime?"@.len() == 9);
}

/// The `toJson` entries of the fields write every field, under its own name, from
/// `instance.<name>`.
pub proof fn lemma_to_json_entries_write_every_field(o: Seq<char>, fs: Seq<FieldModel>, i: int)
    requires
        0 <= i < fs.len(),
    ensures
        contains(fold_put(o, fs, to_json_entry_fn()), "  '"@ + fs[i].name + "': instance."@ + fs[i].name),
{
    let p = "  '"@ + fs[i].name + "': instance."@ + fs[i].name;
    reveal_strlit("  '");
    reveal_strlit("': ");
    reveal_strlit("': instance.");
    reveal_strlit("instance.");
    reveal(keeps);
    assert forall|q: Seq<char>, f: FieldModel| #[trigger] keeps(q, to_json_entry_fn()(q, f)) by {}
    assert forall|q: Seq<char>| #[trigger] contains(to_json_entry_fn()(q, fs[i]), p) by {
        let w = to_json_entry_fn()(q, fs[i]);
        lemma_to_json_conversion_by_type(fs[i]);
        assert(w.subrange(q.len() as int, q.len() + p.len() as int) =~= p);
        assert(is_match_at(w, p, q.len() as int));
    }
    lemma_fold_put_contains(o, fs, to_json_entry_fn(), i, p);
}

/// The `fromJson` arguments of the fields pass every field, under its own name,
/// the value its conversion reads from `json['<name>']`.
pub proof fn lemma_from_json_entries_read_every_field(o: Seq<char>, fs: Seq<FieldModel>, indent: Seq<char>, i: int)
    requires
        0 <= i < fs.len(),
    ensures
        contains(
            fold_put(o, fs, from_json_entry_fn(indent)),
            indent + fs[i].name + ": "@ + format_long(field_conversion(fs[i])) + ",\n"@,
        ),
{
    let p = indent + fs[i].name + ": "@ + format_long(field_conversion(fs[i])) + ",\n"@;
    reveal(keeps);
    assert forall|q: Seq<char>, f: FieldModel| #[trigger] keeps(q, from_json_entry_fn(indent)(q, f)) by {}
    assert forall|q: Seq<char>| #[trigger] contains(from_json_entry_fn(indent)(q, fs[i]), p) by {
        let w = from_json_entry_fn(indent)(q, fs[i]);
        assert(w =~= q + p);
        assert(w.subrange(q.len() as int, q.len() + p.len() as int) =~= p);
        assert(is_match_at(w, p, q.len() as int));
    }
    lemma_fold_put_contains(o, fs, from_json_entry_fn(indent), i, p);
}

/// Appends the `toJson` entries of `fields`, in order.
fn emit_to_json_entries(code: &mut String, fields: &[DartField])
    ensures
        final(code)@ == fold_put(old(code)@, fields_view(fields@), to_json_entry_fn()),
{
    let ghost fs = fields_view(fields@);
    let ghost first = code@;
    proof {
        lemma_fold_put_ends(first, fs, to_json_entry_fn());
    }
    let mut i: usize = 0;
    while i < fields.len()
        invariant
            i <= fields@.len(),
            fs == fields_view(fields@),
            fold_put(code@, fs.skip(i as int), to_json_entry_fn()) == fold_put(first, fs, to_json_entry_fn()),
        decreases fields.len() - i,
    {
        let ghost before = code@;
        let f = &fields[i];
        let conv = get_to_json_field_conversion(f);
        code.append("  '");
        code.append(f.name.as_str());
        code.append("': ");
        code.append(conv.as_str());
        code.append(",\n");
        proof {
            lemma_fold_put_step(before, fs, i as int, to_json_entry_fn());
        }
        i += 1;
    }
    proof {
        lemma_fold_put_ends(code@, fs, to_json_entry_fn());
    }
}

/// The JsonSerializable functions of the regular class `n` with the fields `fs`:
/// `_$$NameImplImplFromJson`, which builds the implementation class from a JSON
/// map field by field, and `_$$NameImplImplToJson`, which writes each field.
pub open spec fn regular_json_text(n: Seq<char>, fs: Seq<FieldModel>) -> Seq<char> {
    let imp = "_$$"@ + n + "ImplImpl"@;
    let head = imp + " _$$"@ + n + "ImplImplFromJson(\n  Map<String, dynamic> json,\n) => "@ + imp + "(\n"@;
    let from = fold_put(head, fs, from_json_entry_fn("  "@));
    let mid = from + ");\n\nMap<String, dynamic> _$$"@ + n + "ImplImplToJson(\n  "@ + imp
        + " instance,\n) => <String, dynamic>{\n"@;
    fold_put(mid, fs, to_json_entry_fn()) + "};\n\n"@
}

/// Writes the JsonSerializable functions of a regular class.
pub fn regular_json_code(n: &str, fields: &[DartField]) -> (r: String)
    requires
        conversions_ok(fields_view(fields@)),
    ensures
        r@ == regular_json_text(n@, fields_view(fields@)),
{
    let mut imp = String::from_str("_$$");
    imp.append(n);
    imp.append("ImplImpl");
    let mut code = String::new();
    code.append(imp.as_str());
    code.append(" _$$");
    code.append(n);
    code.append("ImplImplFromJson(\n  Map<String, dynamic> json,\n) => ");
    code.append(imp.as_str());
    code.append("(\n");
    emit_from_json_entries(&mut code, fields, "  ");
    code.append(");\n\nMap<String, dynamic> _$$");
    code.append(n);
    code.append("ImplImplToJson(\n  ");
    code.append(imp.as_str());
    code.append(" instance,\n) => <String, dynamic>{\n");
    emit_to_json_entries(&mut code, fields);
    code.append("};\n\n");
    code
}

/// `o` followed by the `case` of the union case `c` of the class `n` in the
/// `fromJson` switch: a call of the case constructor with the converted fields.
pub open spec fn put_from_json_case(o: Seq<char>, c: CaseModel, n: Seq<char>) -> Seq<char> {
    let o1 = o + "    case '"@ + c.case_name + "':\n"@;
    if c.fields.len() == 0 {
        o1 + "      return "@ + n + "."@ + c.case_name + "();\n"@
    } else {
        fold_put(o1 + "      return "@ + n + "."@ + c.case_name + "(\n"@, c.fields, from_json_entry_fn("        "@))
            + "      );\n"@
    }
}

/// `put_from_json_case` for the class `n`.
pub open spec fn from_json_case_fn(n: Seq<char>) -> spec_fn(Seq<char>, CaseModel) -> Seq<char> {
    |o: Seq<char>, c: CaseModel| put_from_json_case(o, c, n)
}

/// The `fromJson` function of the union class `n` with the cases `cs`: a switch
/// on the `type` entry of the JSON map, with one `case` for each union case and an
/// `ArgumentError` for an unknown type.
pub open spec fn union_json_text(n: Seq<char>, cs: Seq<CaseModel>) -> Seq<char> {
    let head = n + " _$"@ + n + "FromJson(\n  Map<String, dynamic> json,\n) {\n  switch (json['type'] as String) {\n"@;
    fold_put(head, cs, from_json_case_fn(n))
        + "    default:\n      throw ArgumentError('Unknown type: ' + json['type'].toString());\n  }\n}\n\n"@
}

/// Writes the `fromJson` function of a union class.
pub fn union_json_code(n: &str, cases: &[CaseInfo]) -> (r: String)
    requires
        case_conversions_ok(cases_view(cases@)),
    ensures
        r@ == union_json_text(n@, cases_view(cases@)),
{
    let ghost cs = cases_view(cases@);
    let mut code = String::from_str(n);
    code.append(" _$");
    code.append(n);
    code.append("FromJson(\n  Map<String, dynamic> json,\n) {\n  switch (json['type'] as String) {\n");
    let ghost first = code@;
    proof {
        lemma_fold_put_ends(first, cs, from_json_case_fn(n@));
    }
    let mut i: usize = 0;
    while i < cases.len()
        invariant
            i <= cases@.len(),
            cs == cases_view(cases@),
            case_conversions_ok(cs),
            fold_put(code@, cs.skip(i as int), from_json_case_fn(n@)) == fold_put(first, cs, from_json_case_fn(n@)),
        decreases cases.len() - i,
    {
        let ghost before = code@;
        let c = &cases[i];
        assert(cs[i as int] == c@);
        code.append("    case '");
        code.append(c.case_name.as_str());
        code.append("':\n");
        if c.fields.len() == 0 {
            code.append("      return ");
            code.append(n);
            code.append(".");
            code.append(c.case_name.as_str());
            code.append("();\n");
        } else {
            code.append("      return ");
            code.append(n);
            code.append(".");
            code.append(c.case_name.as_str());
            code.append("(\n");
            emit_from_json_entries(&mut code, c.fields.as_slice(), "        ");
            code.append("      );\n");
        }
        proof {
            lemma_fold_put_step(before, cs, i as int, from_json_case_fn(n@));
        }
        i += 1;
    }
    proof {
        lemma_fold_put_ends(code@, cs, from_json_case_fn(n@));
    }
    code.append("    default:\n      throw ArgumentError('Unknown type: ' + json['type'].toString());\n  }\n}\n\n");
    code
}


/// An expression of at most 80 bytes that is not a nullable `DateTime`
/// conversion is laid out as it is.
pub proof fn lemma_short_expression_unchanged(e: Seq<char>)
    requires
        !is_nullable_date(e),
        !is_long(e),
    ensures
        format_long(e) == e,
{
}

} // verus!
