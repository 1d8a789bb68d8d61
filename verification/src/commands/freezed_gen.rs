//! Freezed and JsonSerializable code generation, and the text scanning of Dart
//! classes that it rests on.

use vstd::prelude::*;
use crate::commands::freezed_json::{
    case_conversions_ok, conversions_ok, field_conversion, format_long_panics, format_would_panic,
    get_field_conversion, regular_json_code, regular_json_text, union_json_code, union_json_text,
};
use crate::commands::freezed_templates::{
    lemma_regular_class_ends_line, lemma_union_class_ends_line, lemma_regular_class_text_start, lemma_union_class_text_start, regular_class_code, regular_class_text,
    regular_from_json_start, union_class_code, union_class_text, union_mixin_start,
};
use crate::primitives::{file_stem_of, joined_path, parent_of, path_file_stem, path_join, path_parent, str_chars, string_push};
use crate::text::{
    bounds_ok, char_utf8_len, contains, is_match_at, contains_slice, ends_with, ends_with_slice, find,
    find_at_or_after, find_from, find_slice, fold_put, is_white, is_whitespace, len_utf8,
    lemma_find_from, lemma_fold_put_ends, lemma_fold_put_step, line_bounds, lines, match_at,
    rfind_char, rfind_char_slice, starts_with, starts_with_slice, str_eq, string_of, texts_of, trim,
    trim_bounds, trim_end_matches, trim_end_matches_at, trim_start_matches,
    trim_start_matches_at, word_bounds, words, ends_line, lacks_char, occurs_once, lemma_contains_across_line,
    lemma_once_across_line, lemma_line_occurs_once, lemma_lacks_char_no_match,
};

verus! {

// ---------------------------------------------------------------------------
// Types
// ---------------------------------------------------------------------------

/// A Dart class found in a source file, with the annotations written above it.
#[derive(Clone, Debug)]
pub struct DartClass {
    pub name: String,
    pub annotations: Vec<String>,
    pub file_path: String,
}

/// A field (constructor parameter) of a Dart class.
#[derive(Clone, Debug)]
pub struct DartField {
    pub name: String,
    pub ty: String,
    /// The parameter is a named parameter.
    pub is_named: bool,
    /// The parameter carries a `@Default(...)` annotation.
    pub has_default: bool,
    /// The value inside `@Default(...)`.
    pub default_value: Option<String>,
}

/// A Dart top-level function.
#[derive(Clone, Debug)]
pub struct DartFunction {
    pub name: String,
    pub return_type: String,
    pub parameters: Vec<DartField>,
    pub annotations: Vec<String>,
    pub file_path: String,
}

/// One case (named factory constructor) of a Freezed union class.
#[derive(Clone, Debug)]
pub struct CaseInfo {
    pub case_name: String,
    pub fields: Vec<DartField>,
}

/// The contents of the `.freezed.dart` and `.g.dart` files of one source file.
pub struct GenerationResult {
    pub freezed_code: String,
    pub g_dart_code: String,
}

/// A field as text: what a `DartField` holds.
pub struct FieldModel {
    pub name: Seq<char>,
    pub ty: Seq<char>,
    pub is_named: bool,
    pub has_default: bool,
    pub default_value: Option<Seq<char>>,
}

impl View for DartField {
    type V = FieldModel;

    open spec fn view(&self) -> FieldModel {
        FieldModel {
            name: self.name@,
            ty: self.ty@,
            is_named: self.is_named,
            has_default: self.has_default,
            default_value: match self.default_value {
                Some(d) => Some(d@),
                None => None,
            },
        }
    }
}

/// The models of a sequence of fields.
pub open spec fn fields_view(v: Seq<DartField>) -> Seq<FieldModel> {
    v.map_values(|f: DartField| f@)
}

/// A union case as text: what a `CaseInfo` holds.
pub struct CaseModel {
    pub case_name: Seq<char>,
    pub fields: Seq<FieldModel>,
}

impl View for CaseInfo {
    type V = CaseModel;

    open spec fn view(&self) -> CaseModel {
        CaseModel { case_name: self.case_name@, fields: fields_view(self.fields@) }
    }
}

/// The models of a sequence of union cases.
pub open spec fn cases_view(v: Seq<CaseInfo>) -> Seq<CaseModel> {
    v.map_values(|c: CaseInfo| c@)
}

// ---------------------------------------------------------------------------
// Parameters
// ---------------------------------------------------------------------------

/// The parameter text begins with a word that stands for a commented-out enum value.
pub open spec fn starts_with_comment_word(p: Seq<char>) -> bool {
    ||| starts_with(p, "draft"@)
    ||| starts_with(p, "published"@)
    ||| starts_with(p, "cancelled"@)
    ||| starts_with(p, "completed"@)
    ||| starts_with(p, "pending"@)
    ||| starts_with(p, "succeeded"@)
    ||| starts_with(p, "failed"@)
}

/// The text is one of the words that stand for commented-out enum values.
pub open spec fn is_comment_word(p: Seq<char>) -> bool {
    ||| p == "draft"@
    ||| p == "published"@
    ||| p == "cancelled"@
    ||| p == "completed"@
    ||| p == "pending"@
    ||| p == "succeeded"@
    ||| p == "failed"@
}

/// Every character of `p` is whitespace or `/`.
pub open spec fn only_white_or_slash(p: Seq<char>) -> bool {
    forall|i: int| 0 <= i < p.len() ==> is_white(#[trigger] p[i]) || p[i] == '/'
}

/// The parameter once a `@Default(...)` annotation is taken out: whether there was
/// one, the trimmed value inside it, and the trimmed remaining text.
pub open spec fn take_default(p: Seq<char>) -> (bool, Option<Seq<char>>, Seq<char>) {
    match find(p, "@Default("@) {
        Some(ds) => match find(p.skip(ds), ")"@) {
            Some(de) => (
                true,
                Some(trim(p.subrange(ds + 9, ds + de))),
                trim(p.take(ds) + p.skip(ds + de + 1)),
            ),
            None => (false, None, p),
        },
        None => (false, None, p),
    }
}

/// The field that a constructor parameter such as `required String name`,
/// `int? age` or `@Default(0) int count` declares: the first word is the type,
/// the second (without trailing commas) the name.  Comments, empty text and
/// commented-out enum values declare none.
pub open spec fn parse_parameter(param: Seq<char>) -> Option<FieldModel> {
    let p = trim(param);
    if starts_with(p, "//"@) || starts_with(p, "/*"@) || p.len() == 0 {
        None
    } else if only_white_or_slash(p) {
        None
    } else if is_comment_word(p) || starts_with_comment_word(p) {
        None
    } else {
        let (has_default, default_value, q) = take_default(p);
        let r = trim(trim_start_matches(q, "required "@));
        let ws = words(r);
        let ty = if ws.len() > 0 {
            ws[0]
        } else {
            Seq::empty()
        };
        let name = if ws.len() > 1 {
            trim_end_matches(ws[1], ","@)
        } else {
            Seq::empty()
        };
        if ty.len() == 0 || name.len() == 0 {
            None
        } else {
            Some(
                FieldModel {
                    name,
                    ty,
                    is_named: contains(r, ":"@) || contains(r, "{"@) || contains(r, "}"@),
                    has_default,
                    default_value,
                },
            )
        }
    }
}

/// Whether one of the comment words begins `s[lo..hi]`.
fn starts_with_any_comment_word(s: &[char], lo: usize, hi: usize) -> (r: bool)
    requires
        lo <= hi <= s@.len(),
    ensures
        r == starts_with_comment_word(s@.subrange(lo as int, hi as int)),
        r == (is_comment_word(s@.subrange(lo as int, hi as int)) || starts_with_comment_word(
            s@.subrange(lo as int, hi as int),
        )),
{
    let t = &s[lo..hi];
    assert(t@ =~= s@.subrange(lo as int, hi as int));
    let w1 = str_chars("draft");
    let w2 = str_chars("published");
    let w3 = str_chars("cancelled");
    let w4 = str_chars("completed");
    let w5 = str_chars("pending");
    let w6 = str_chars("succeeded");
    let w7 = str_chars("failed");
    proof {
        let p = t@;
        if p == "draft"@ {
            assert(p.subrange(0, "draft"@.len() as int) =~= p);
        }
        if p == "published"@ {
            assert(p.subrange(0, "published"@.len() as int) =~= p);
        }
        if p == "cancelled"@ {
            assert(p.subrange(0, "cancelled"@.len() as int) =~= p);
        }
        if p == "completed"@ {
            assert(p.subrange(0, "completed"@.len() as int) =~= p);
        }
        if p == "pending"@ {
            assert(p.subrange(0, "pending"@.len() as int) =~= p);
        }
        if p == "succeeded"@ {
            assert(p.subrange(0, "succeeded"@.len() as int) =~= p);
        }
        if p == "failed"@ {
            assert(p.subrange(0, "failed"@.len() as int) =~= p);
        }
    }
    starts_with_slice(t, w1.as_slice()) || starts_with_slice(t, w2.as_slice()) || starts_with_slice(
        t,
        w3.as_slice(),
    ) || starts_with_slice(t, w4.as_slice()) || starts_with_slice(t, w5.as_slice())
        || starts_with_slice(t, w6.as_slice()) || starts_with_slice(t, w7.as_slice())
}

/// Whether every character of `s[lo..hi]` is whitespace or `/`.
fn all_white_or_slash(s: &[char], lo: usize, hi: usize) -> (r: bool)
    requires
        lo <= hi <= s@.len(),
    ensures
        r == only_white_or_slash(s@.subrange(lo as int, hi as int)),
{
    let mut i = lo;
    while i < hi
        invariant
            lo <= i <= hi <= s@.len(),
            forall|j: int| lo <= j < i ==> is_white(#[trigger] s@[j]) || s@[j] == '/',
        decreases hi - i,
    {
        if !is_whitespace(s[i]) && s[i] != '/' {
            assert(s@.subrange(lo as int, hi as int)[i - lo] == s@[i as int]);
            return false;
        }
        i += 1;
    }
    assert forall|j: int| 0 <= j < hi - lo implies is_white(
        #[trigger] s@.subrange(lo as int, hi as int)[j],
    ) || s@.subrange(lo as int, hi as int)[j] == '/' by {
        assert(s@.subrange(lo as int, hi as int)[j] == s@[lo + j]);
    }
    true
}

/// Parses one constructor parameter into the field it declares.
#[verifier::spinoff_prover]
#[verifier::rlimit(40)]
pub fn parse_dart_parameter(param: &str) -> (r: Option<DartField>)
    ensures
        match r {
            Some(f) => parse_parameter(param@) == Some(f@),
            None => parse_parameter(param@) is None,
        },
{
    let s = str_chars(param);
    let (lo, hi) = trim_bounds(s.as_slice(), 0, s.len());
    proof {
        assert(s@.subrange(0, s@.len() as int) =~= s@);
    }
    let ghost p = s@.subrange(lo as int, hi as int);
    let p_str = string_of(s.as_slice(), lo, hi);
    let pc = str_chars(p_str.as_str());
    let slashes = str_chars("//");
    let open_comment = str_chars("/*");
    if starts_with_slice(pc.as_slice(), slashes.as_slice()) || starts_with_slice(
        pc.as_slice(),
        open_comment.as_slice(),
    ) || pc.len() == 0 {
        return None;
    }
    proof {
        assert(pc@.subrange(0, pc@.len() as int) =~= pc@);
    }
    if all_white_or_slash(pc.as_slice(), 0, pc.len()) {
        return None;
    }
    if starts_with_any_comment_word(pc.as_slice(), 0, pc.len()) {
        return None;
    }
    // Take out a `@Default(...)` annotation.
    let dflt = str_chars("@Default(");
    let close = str_chars(")");
    let mut has_default = false;
    let mut default_value: Option<String> = None;
    let mut q: Vec<char> = pc.clone();
    proof {
        reveal_strlit("@Default(");
        reveal_strlit(")");
    }
    match find_slice(pc.as_slice(), dflt.as_slice()) {
        Some(ds) => {
            proof {
                crate::text::lemma_find_contains(pc@, dflt@);
            }
            let found = find_slice(&pc[ds..pc.len()], close.as_slice());
            proof {
                assert(pc@.subrange(ds as int, pc@.len() as int) =~= pc@.skip(ds as int));
            }
            match found {
                Some(de) => {
                    proof {
                        crate::text::lemma_find_contains(pc@.skip(ds as int), close@);
                        crate::text::lemma_find_from(pc@.skip(ds as int), close@, 0);
                        let sk = pc@.skip(ds as int);
                        assert(sk.subrange(de as int, de + 1) == close@);
                        assert(sk[de as int] == sk.subrange(de as int, de + 1)[0]);
                        assert(sk[de as int] == ')');
                        if de < 9 {
                            assert(pc@.subrange(ds as int, ds + 9) == dflt@);
                            assert(sk[de as int] == pc@.subrange(ds as int, ds + 9)[de as int]);
                            assert(false);
                        }
                    }
                    has_default = true;
                    let (vlo, vhi) = trim_bounds(pc.as_slice(), ds + 9, ds + de);
                    default_value = Some(string_of(pc.as_slice(), vlo, vhi));
                    let mut joined: Vec<char> = Vec::new();
                    let mut k: usize = 0;
                    while k < ds
                        invariant
                            k <= ds <= pc@.len(),
                            joined@ == pc@.take(k as int),
                        decreases ds - k,
                    {
                        joined.push(pc[k]);
                        assert(pc@.take(k + 1) =~= pc@.take(k as int).push(pc@[k as int]));
                        k += 1;
                    }
                    let mut k2: usize = ds + de + 1;
                    let ghost head = joined@;
                    while k2 < pc.len()
                        invariant
                            ds + de + 1 <= k2 <= pc@.len(),
                            joined@ == head + pc@.subrange(ds + de + 1, k2 as int),
                        decreases pc.len() - k2,
                    {
                        joined.push(pc[k2]);
                        assert(pc@.subrange(ds + de + 1, k2 + 1) =~= pc@.subrange(
                            ds + de + 1,
                            k2 as int,
                        ).push(pc@[k2 as int]));
                        k2 += 1;
                    }
                    proof {
                        assert(pc@.subrange(ds + de + 1, pc@.len() as int) =~= pc@.skip(
                            ds + de + 1,
                        ));
                    }
                    let (jlo, jhi) = trim_bounds(joined.as_slice(), 0, joined.len());
                    proof {
                        assert(joined@.subrange(0, joined@.len() as int) =~= joined@);
                    }
                    let t = string_of(joined.as_slice(), jlo, jhi);
                    q = str_chars(t.as_str());
                },
                None => {},
            }
        },
        None => {},
    }
    proof {
        assert(pc@ == p);
    }
    assert((has_default, match default_value { Some(d) => Some(d@), None => None }, q@) == take_default(p));
    // Remove `required ` and split into words.
    let required = str_chars("required ");
    let a = trim_start_matches_at(q.as_slice(), required.as_slice(), 0, q.len());
    proof {
        assert(q@.subrange(0, q@.len() as int) =~= q@);
    }
    let (rlo, rhi) = trim_bounds(q.as_slice(), a, q.len());
    let r_str = string_of(q.as_slice(), rlo, rhi);
    let rc = str_chars(r_str.as_str());
    let ws = word_bounds(rc.as_slice(), 0, rc.len());
    proof {
        assert(rc@.subrange(0, rc@.len() as int) =~= rc@);
    }
    if ws.len() < 2 {
        proof {
            assert(texts_of(rc@, ws@).len() == ws@.len());
        }
        return None;
    }
    let (t0, t1) = ws[0];
    let (n0, n1) = ws[1];
    proof {
        assert(texts_of(rc@, ws@)[0] == rc@.subrange(t0 as int, t1 as int));
        assert(texts_of(rc@, ws@)[1] == rc@.subrange(n0 as int, n1 as int));
        assert(bounds_ok(rc@, ws@));
        assert(ws@[0].0 <= ws@[0].1 && ws@[1].0 <= ws@[1].1);
    }
    let comma = str_chars(",");
    let n_end = trim_end_matches_at(rc.as_slice(), comma.as_slice(), n0, n1);
    if t1 == t0 || n_end == n0 {
        return None;
    }
    let colon = str_chars(":");
    let lbrace = str_chars("{");
    let rbrace = str_chars("}");
    let is_named = contains_slice(rc.as_slice(), colon.as_slice()) || contains_slice(
        rc.as_slice(),
        lbrace.as_slice(),
    ) || contains_slice(rc.as_slice(), rbrace.as_slice());
    Some(
        DartField {
            name: string_of(rc.as_slice(), n0, n_end),
            ty: string_of(rc.as_slice(), t0, t1),
            is_named,
            has_default,
            default_value,
        },
    )
}

// ---------------------------------------------------------------------------
// Fields of the main constructor
// ---------------------------------------------------------------------------

/// From character `i` of `t` on, with `bc` braces open (and `inc` once one has
/// opened): the offset of the brace that closes the first one.
pub open spec fn close_brace_from(t: Seq<char>, i: nat, bc: int, inc: bool) -> Option<int>
    decreases t.len() - i,
{
    if i >= t.len() {
        None
    } else if t[i as int] == '{' {
        close_brace_from(t, i + 1, bc + 1, true)
    } else if t[i as int] == '}' {
        if inc && bc - 1 == 0 {
            Some(i as int)
        } else {
            close_brace_from(t, i + 1, bc - 1, inc)
        }
    } else {
        close_brace_from(t, i + 1, bc, inc)
    }
}

/// The number of characters of `t`, from `j` on, whose UTF-8 encoding takes exactly
/// `n - acc` more bytes; none when `n` bytes end inside a character or past `t`.
pub open spec fn chars_for_bytes(t: Seq<char>, j: nat, acc: nat, n: nat) -> Option<int>
    decreases t.len() - j,
{
    if acc == n {
        Some(j as int)
    } else if acc > n || j >= t.len() {
        None
    } else {
        chars_for_bytes(t, j + 1, acc + char_utf8_len(t[j as int]), n)
    }
}

/// Where the parameter list of a constructor stands in a source file.
pub enum ParamsRegion {
    /// There is no such constructor, or its braces are not closed.
    Absent,
    /// Scanning the constructor slices text at a byte that is not a character boundary.
    Panics,
    /// The parameters are the characters `lo..hi` of the source.
    Region(int, int),
}

/// The region of the parameters of `const factory Name({ ... })` in `src`.  The
/// constructor text runs from the pattern to its closing brace, measured as a
/// number of characters but cut as that number of bytes; its parameters lie
/// between its first `{` and its last `}`.
pub open spec fn constructor_params(src: Seq<char>, class_name: Seq<char>) -> ParamsRegion {
    let pat = "const factory "@ + class_name + "({"@;
    match find(src, pat) {
        None => ParamsRegion::Absent,
        Some(k) => {
            let t = src.skip(k);
            match close_brace_from(t, 0, 0, false) {
                None => ParamsRegion::Absent,
                Some(i) => match chars_for_bytes(t, 0, 0, (i + 1) as nat) {
                    None => ParamsRegion::Panics,
                    Some(e) => {
                        let c = t.take(e);
                        match (find(c, "{"@), rfind_char(c, '}')) {
                            (Some(sb), Some(eb)) => if sb + 1 > eb {
                                ParamsRegion::Panics
                            } else {
                                ParamsRegion::Region(k + sb + 1, k + eb)
                            },
                            _ => ParamsRegion::Absent,
                        }
                    },
                },
            }
        },
    }
}

/// Splits the parameter text `t`, from character `i` on, at the commas outside
/// braces, parentheses and `//` comments; `out` holds the trimmed, non-empty
/// parameters so far and `cur` the one being read.  The comment state `ct` is 1
/// inside `//` and 2 inside `/*`.
pub open spec fn split_params_from(
    t: Seq<char>,
    i: nat,
    out: Seq<Seq<char>>,
    cur: Seq<char>,
    bc: int,
    pc: int,
    inc: bool,
    ct: int,
) -> Seq<Seq<char>>
    decreases t.len() - i,
{
    if i >= t.len() {
        if trim(cur).len() > 0 {
            out.push(trim(cur))
        } else {
            out
        }
    } else {
        let c = t[i as int];
        let n = (i + 1) as nat;
        if c == '{' {
            split_params_from(t, n, out, cur.push(c), if !inc { bc + 1 } else { bc }, pc, inc, ct)
        } else if c == '}' {
            split_params_from(t, n, out, cur.push(c), if !inc { bc - 1 } else { bc }, pc, inc, ct)
        } else if c == '(' {
            split_params_from(t, n, out, cur.push(c), bc, if !inc { pc + 1 } else { pc }, inc, ct)
        } else if c == ')' {
            split_params_from(t, n, out, cur.push(c), bc, if !inc { pc - 1 } else { pc }, inc, ct)
        } else if c == '/' {
            let cur2 = cur.push(c);
            if !inc && ends_with(cur2, "//"@) {
                split_params_from(t, n, out, cur2, bc, pc, true, 1)
            } else if !inc && ends_with(cur2, "/*"@) {
                split_params_from(t, n, out, cur2, bc, pc, true, 2)
            } else {
                split_params_from(t, n, out, cur2, bc, pc, inc, ct)
            }
        } else if c == '*' {
            let cur2 = cur.push(c);
            if inc && ct == 2 && ends_with(cur2, "*/"@) {
                split_params_from(t, n, out, cur2, bc, pc, false, 0)
            } else {
                split_params_from(t, n, out, cur2, bc, pc, inc, ct)
            }
        } else if c == '\n' {
            if inc && ct == 1 {
                split_params_from(t, n, out, cur.push(c), bc, pc, false, 0)
            } else {
                split_params_from(t, n, out, cur.push(c), bc, pc, inc, ct)
            }
        } else if c == ',' {
            if bc == 0 && pc == 0 && !inc {
                let tr = trim(cur);
                split_params_from(
                    t,
                    n,
                    if tr.len() > 0 { out.push(tr) } else { out },
                    Seq::empty(),
                    bc,
                    pc,
                    inc,
                    ct,
                )
            } else {
                split_params_from(t, n, out, cur.push(c), bc, pc, inc, ct)
            }
        } else {
            split_params_from(t, n, out, cur.push(c), bc, pc, inc, ct)
        }
    }
}

/// The parameters of a constructor's parameter text.
pub open spec fn split_params(t: Seq<char>) -> Seq<Seq<char>> {
    split_params_from(t, 0, Seq::empty(), Seq::empty(), 0, 0, false, 0)
}

/// A line of a parameter that is dropped when the parameter is cleaned: a comment,
/// an empty line, or a commented-out enum value.
pub open spec fn is_noise_line(tl: Seq<char>) -> bool {
    starts_with(tl, "//"@) || starts_with(tl, "/*"@) || tl.len() == 0 || is_comment_word(tl)
}

/// Writes a trimmed line of a parameter, after a space when text precedes it.
pub open spec fn put_clean_line() -> spec_fn(Seq<char>, Seq<char>) -> Seq<char> {
    |o: Seq<char>, l: Seq<char>|
        {
            let tl = trim(l);
            if is_noise_line(tl) {
                o
            } else if o.len() > 0 {
                o.push(' ') + tl
            } else {
                o + tl
            }
        }
}

/// A parameter with its comment lines dropped and its other lines trimmed and
/// joined by single spaces.
pub open spec fn clean_param(p: Seq<char>) -> Seq<char> {
    fold_put(Seq::empty(), lines(p), put_clean_line())
}

/// The fields that the parameters `ps` declare, in order.
pub open spec fn fields_of_params(ps: Seq<Seq<char>>) -> Seq<FieldModel>
    decreases ps.len(),
{
    if ps.len() == 0 {
        Seq::empty()
    } else {
        let rest = fields_of_params(ps.drop_last());
        match parse_parameter(clean_param(ps.last())) {
            Some(f) => rest.push(f),
            None => rest,
        }
    }
}

/// The fields of the main constructor `const factory Name({ ... })` of the class
/// `class_name` in `src`; none when there is no such constructor.
pub open spec fn extract_fields(src: Seq<char>, class_name: Seq<char>) -> Seq<FieldModel> {
    match constructor_params(src, class_name) {
        ParamsRegion::Region(lo, hi) => fields_of_params(split_params(src.subrange(lo, hi))),
        _ => Seq::empty(),
    }
}

/// Scanning the main constructor of `class_name` in `src` cuts text inside a character.
pub open spec fn fields_scan_panics(src: Seq<char>, class_name: Seq<char>) -> bool {
    constructor_params(src, class_name) is Panics
}

/// Finds the parameter region of the main constructor, as `constructor_params` states.
fn scan_constructor(s: &[char], class_name: &str) -> (r: Option<Option<(usize, usize)>>)
    requires
        s@.len() < 0x8000_0000,
    ensures
        match r {
            None => constructor_params(s@, class_name@) is Panics,
            Some(None) => constructor_params(s@, class_name@) is Absent,
            Some(Some((lo, hi))) => constructor_params(s@, class_name@) == ParamsRegion::Region(
                lo as int,
                hi as int,
            ) && lo <= hi <= s@.len(),
        },
{
    let mut pat_s = String::from_str("const factory ");
    pat_s.append(class_name);
    pat_s.append("({");
    let pat = str_chars(pat_s.as_str());
    let k = match find_slice(s, pat.as_slice()) {
        None => return Some(None),
        Some(k) => k,
    };
    proof {
        crate::text::lemma_find_contains(s@, pat@);
    }
    let ghost t = s@.skip(k as int);
    // The closing brace.
    let mut bc: i32 = 0;
    let mut inc = false;
    let mut i: usize = 0;
    let mut close: Option<usize> = None;
    while close.is_none() && k + i < s.len()
        invariant
            k <= s@.len() < 0x8000_0000,
            t == s@.skip(k as int),
            k + i <= s@.len(),
            -(i as int) <= bc <= i,
            match close {
                None => close_brace_from(t, i as nat, bc as int, inc) == close_brace_from(
                    t,
                    0,
                    0,
                    false,
                ),
                Some(ci) => close_brace_from(t, 0, 0, false) == Some(ci as int) && k + ci < s@.len(),
            },
        decreases s.len() - k - i + if close.is_none() {
            1int
        } else {
            0int
        },
    {
        let c = s[k + i];
        assert(t[i as int] == c);
        if c == '{' {
            bc = bc + 1;
            inc = true;
            i += 1;
        } else if c == '}' {
            bc = bc - 1;
            if inc && bc == 0 {
                close = Some(i);
            } else {
                i += 1;
            }
        } else {
            i += 1;
        }
    }
    let i = match close {
        None => {
            return Some(None);
        },
        Some(i) => i,
    };
    // The character where `i + 1` bytes end.
    let n = i + 1;
    let mut acc: usize = 0;
    let mut j: usize = 0;
    while acc < n && k + j < s.len()
        invariant
            k <= s@.len() < 0x8000_0000,
            t == s@.skip(k as int),
            k + j <= s@.len(),
            n <= s@.len(),
            acc <= n + 4,
            chars_for_bytes(t, j as nat, acc as nat, n as nat) == chars_for_bytes(t, 0, 0, n as nat),
        decreases s.len() - k - j,
    {
        acc = acc + len_utf8(s[k + j]);
        j += 1;
    }
    if acc != n {
        return None;
    }
    let c_end = k + j;
    let ghost c = t.take(j as int);
    assert(s@.subrange(k as int, c_end as int) =~= c);
    let lb = str_chars("{");
    let sb = find_slice(&s[k..c_end], lb.as_slice());
    let eb = rfind_char_slice(&s[k..c_end], '}');
    proof {
        assert(s@.subrange(k as int, c_end as int) =~= s@.subrange(k as int, c_end as int));
        crate::text::lemma_find_contains(c, lb@);
        crate::text::lemma_rfind_char(c, '}');
    }
    match (sb, eb) {
        (Some(sb), Some(eb)) => {
            if sb + 1 > eb {
                None
            } else {
                proof {
                    crate::text::lemma_find_contains(c, lb@);
                }
                Some(Some((k + sb + 1, k + eb)))
            }
        },
        _ => Some(None),
    }
}

/// Splits the parameter text `s[lo..hi]` as `split_params` states.
fn split_param_text(s: &[char], lo: usize, hi: usize) -> (r: Vec<String>)
    requires
        lo <= hi <= s@.len() < 0x8000_0000,
    ensures
        r@.map_values(|x: String| x@) == split_params(s@.subrange(lo as int, hi as int)),
{
    let ghost t = s@.subrange(lo as int, hi as int);
    let mut params: Vec<String> = Vec::new();
    let mut cur: Vec<char> = Vec::new();
    let mut bc: i32 = 0;
    let mut pc: i32 = 0;
    let mut inc = false;
    let mut ct: i32 = 0;
    let slash2 = str_chars("//");
    let slash_star = str_chars("/*");
    let star_slash = str_chars("*/");
    let mut i = lo;
    assert(params@.map_values(|x: String| x@) =~= Seq::<Seq<char>>::empty());
    assert(cur@ =~= Seq::<char>::empty());
    while i < hi
        invariant
            lo <= i <= hi <= s@.len() < 0x8000_0000,
            t == s@.subrange(lo as int, hi as int),
            slash2@ == "//"@,
            slash_star@ == "/*"@,
            star_slash@ == "*/"@,
            -(i as int) <= bc <= i,
            -(i as int) <= pc <= i,
            split_params_from(
                t,
                (i - lo) as nat,
                params@.map_values(|x: String| x@),
                cur@,
                bc as int,
                pc as int,
                inc,
                ct as int,
            ) == split_params(t),
        decreases hi - i,
    {
        let c = s[i];
        assert(t[i - lo] == c);
        let ghost before = params@;
        if c == '{' {
            if !inc {
                bc = bc + 1;
            }
            cur.push(c);
        } else if c == '}' {
            if !inc {
                bc = bc - 1;
            }
            cur.push(c);
        } else if c == '(' {
            if !inc {
                pc = pc + 1;
            }
            cur.push(c);
        } else if c == ')' {
            if !inc {
                pc = pc - 1;
            }
            cur.push(c);
        } else if c == '/' {
            cur.push(c);
            if !inc {
                if ends_with_slice(cur.as_slice(), slash2.as_slice()) {
                    inc = true;
                    ct = 1;
                } else if ends_with_slice(cur.as_slice(), slash_star.as_slice()) {
                    inc = true;
                    ct = 2;
                }
            }
        } else if c == '*' {
            cur.push(c);
            if inc && ct == 2 && ends_with_slice(cur.as_slice(), star_slash.as_slice()) {
                inc = false;
                ct = 0;
            }
        } else if c == '\n' {
            if inc && ct == 1 {
                inc = false;
                ct = 0;
            }
            cur.push(c);
        } else if c == ',' {
            if bc == 0 && pc == 0 && !inc {
                let (a, b) = trim_bounds(cur.as_slice(), 0, cur.len());
                proof {
                    assert(cur@.subrange(0, cur@.len() as int) =~= cur@);
                }
                if a < b {
                    let p = string_of(cur.as_slice(), a, b);
                    params.push(p);
                    proof {
                        assert(params@.map_values(|x: String| x@) =~= before.map_values(
                            |x: String| x@,
                        ).push(trim(cur@)));
                    }
                }
                cur = Vec::new();
            } else {
                cur.push(c);
            }
        } else {
            cur.push(c);
        }
        i += 1;
    }
    let (a, b) = trim_bounds(cur.as_slice(), 0, cur.len());
    proof {
        assert(cur@.subrange(0, cur@.len() as int) =~= cur@);
    }
    if a < b {
        let ghost before = params@;
        let p = string_of(cur.as_slice(), a, b);
        params.push(p);
        proof {
            assert(params@.map_values(|x: String| x@) =~= before.map_values(|x: String| x@).push(
                trim(cur@),
            ));
        }
    }
    params
}

/// Cleans a parameter as `clean_param` states.
fn clean_parameter(param: &str) -> (r: String)
    ensures
        r@ == clean_param(param@),
{
    let s = str_chars(param);
    let lb = line_bounds(s.as_slice(), 0, s.len());
    proof {
        assert(s@.subrange(0, s@.len() as int) =~= s@);
    }
    let ghost ls = lines(param@);
    let mut out = String::new();
    let mut i: usize = 0;
    let slash2 = str_chars("//");
    let slash_star = str_chars("/*");
    proof {
        lemma_fold_put_ends(Seq::<char>::empty(), ls, put_clean_line());
    }
    while i < lb.len()
        invariant
            i <= lb@.len(),
            ls == texts_of(s@, lb@),
            bounds_ok(s@, lb@),
            slash2@ == "//"@,
            slash_star@ == "/*"@,
            fold_put(out@, ls.skip(i as int), put_clean_line()) == fold_put(
                Seq::<char>::empty(),
                ls,
                put_clean_line(),
            ),
        decreases lb.len() - i,
    {
        let (l0, l1) = lb[i];
        let ghost before = out@;
        proof {
            assert(bounds_ok(s@, lb@));
            assert(lb@[i as int].0 <= lb@[i as int].1 && lb@[i as int].1 <= s@.len());
            assert(ls[i as int] == s@.subrange(l0 as int, l1 as int));
        }
        let (a, b) = trim_bounds(s.as_slice(), l0, l1);
        let tl = string_of(s.as_slice(), a, b);
        let tc = str_chars(tl.as_str());
        proof {
            assert(tc@.subrange(0, tc@.len() as int) =~= tc@);
        }
        let noise = starts_with_slice(tc.as_slice(), slash2.as_slice()) || starts_with_slice(
            tc.as_slice(),
            slash_star.as_slice(),
        ) || tc.len() == 0 || starts_with_any_comment_word_exact(tc.as_slice());
        if !noise {
            if out.as_str().unicode_len() > 0 {
                string_push(&mut out, ' ');
            }
            out.append(tl.as_str());
        }
        proof {
            assert(out@ == (put_clean_line())(before, ls[i as int]));
            lemma_fold_put_step(before, ls, i as int, put_clean_line());
        }
        i += 1;
    }
    proof {
        lemma_fold_put_ends(out@, ls, put_clean_line());
    }
    out
}

/// Whether `s` is one of the comment words.
fn starts_with_any_comment_word_exact(s: &[char]) -> (r: bool)
    ensures
        r == is_comment_word(s@),
{
    let w1 = str_chars("draft");
    let w2 = str_chars("published");
    let w3 = str_chars("cancelled");
    let w4 = str_chars("completed");
    let w5 = str_chars("pending");
    let w6 = str_chars("succeeded");
    let w7 = str_chars("failed");
    chars_eq(s, w1.as_slice()) || chars_eq(s, w2.as_slice()) || chars_eq(s, w3.as_slice())
        || chars_eq(s, w4.as_slice()) || chars_eq(s, w5.as_slice()) || chars_eq(s, w6.as_slice())
        || chars_eq(s, w7.as_slice())
}

/// Whether two character sequences are equal.
pub fn chars_eq(a: &[char], b: &[char]) -> (r: bool)
    ensures
        r == (a@ == b@),
{
    if a.len() != b.len() {
        return false;
    }
    let r = match_at(a, b, 0);
    proof {
        if r {
            assert(a@.subrange(0, b@.len() as int) =~= a@);
        } else {
            assert(a@.subrange(0, b@.len() as int) =~= a@);
        }
    }
    r
}

/// Extracts the fields of the main constructor `const factory Name({ ... })` of the
/// class `class_name` from the Dart source `source_content`.
pub fn extract_fields_from_dart_class(source_content: &str, class_name: &str) -> (r: Vec<DartField>)
    requires
        source_content@.len() < 0x8000_0000,
        !fields_scan_panics(source_content@, class_name@),
    ensures
        fields_view(r@) == extract_fields(source_content@, class_name@),
{
    let s = str_chars(source_content);
    let mut fields: Vec<DartField> = Vec::new();
    let (lo, hi) = match scan_constructor(s.as_slice(), class_name) {
        Some(Some(b)) => b,
        _ => {
            return fields;
        },
    };
    let params = split_param_text(s.as_slice(), lo, hi);
    let ghost ps = params@.map_values(|x: String| x@);
    let mut i: usize = 0;
    while i < params.len()
        invariant
            i <= params@.len(),
            ps == params@.map_values(|x: String| x@),
            fields_view(fields@) == fields_of_params(ps.take(i as int)),
        decreases params.len() - i,
    {
        let cleaned = clean_parameter(params[i].as_str());
        let ghost before = fields@;
        proof {
            assert(ps.take(i + 1).drop_last() =~= ps.take(i as int));
            assert(ps.take(i + 1).last() == params@[i as int]@);
        }
        match parse_dart_parameter(cleaned.as_str()) {
            Some(f) => {
                fields.push(f);
                proof {
                    assert(fields_view(fields@) =~= fields_view(before).push(f@));
                }
            },
            None => {},
        }
        i += 1;
    }
    proof {
        assert(ps.take(params@.len() as int) =~= ps);
    }
    fields
}

/// Whether `extract_fields_from_dart_class` may not be called on these arguments,
/// because the scan would cut the text inside a character.
pub fn fields_scan_would_panic(source_content: &str, class_name: &str) -> (r: bool)
    requires
        source_content@.len() < 0x8000_0000,
    ensures
        r == fields_scan_panics(source_content@, class_name@),
{
    let s = str_chars(source_content);
    scan_constructor(s.as_slice(), class_name).is_none()
}

// ---------------------------------------------------------------------------
// Union cases
// ---------------------------------------------------------------------------

/// The text between the first `(` of `t` and the parenthesis that closes it;
/// `lvl` parentheses are open from character `i` on, `found` once one has opened.
pub open spec fn paren_content_from(t: Seq<char>, i: nat, lvl: int, found: bool, acc: Seq<char>) -> Seq<char>
    decreases t.len() - i,
{
    if i >= t.len() {
        acc
    } else {
        let c = t[i as int];
        let n = (i + 1) as nat;
        if c == '(' {
            if lvl + 1 == 1 {
                paren_content_from(t, n, lvl + 1, true, acc)
            } else if lvl + 1 >= 1 {
                paren_content_from(t, n, lvl + 1, true, acc.push(c))
            } else {
                paren_content_from(t, n, lvl + 1, true, acc)
            }
        } else if c == ')' {
            if lvl - 1 == 0 {
                acc
            } else if found && lvl - 1 >= 1 {
                paren_content_from(t, n, lvl - 1, found, acc.push(c))
            } else {
                paren_content_from(t, n, lvl - 1, found, acc)
            }
        } else if found && lvl >= 1 {
            paren_content_from(t, n, lvl, found, acc.push(c))
        } else {
            paren_content_from(t, n, lvl, found, acc)
        }
    }
}

/// Splits `t`, from character `i` on, at the commas outside parentheses (and, when
/// `braces`, outside braces); `out` holds the trimmed, non-empty pieces so far.
pub open spec fn split_commas_from(
    t: Seq<char>,
    i: nat,
    braces: bool,
    out: Seq<Seq<char>>,
    cur: Seq<char>,
    bc: int,
    pc: int,
) -> Seq<Seq<char>>
    decreases t.len() - i,
{
    if i >= t.len() {
        if trim(cur).len() > 0 {
            out.push(trim(cur))
        } else {
            out
        }
    } else {
        let c = t[i as int];
        let n = (i + 1) as nat;
        if braces && c == '{' {
            split_commas_from(t, n, braces, out, cur.push(c), bc + 1, pc)
        } else if braces && c == '}' {
            split_commas_from(t, n, braces, out, cur.push(c), bc - 1, pc)
        } else if c == '(' {
            split_commas_from(t, n, braces, out, cur.push(c), bc, pc + 1)
        } else if c == ')' {
            split_commas_from(t, n, braces, out, cur.push(c), bc, pc - 1)
        } else if c == ',' {
            if bc == 0 && pc == 0 {
                let tr = trim(cur);
                split_commas_from(
                    t,
                    n,
                    braces,
                    if tr.len() > 0 { out.push(tr) } else { out },
                    Seq::empty(),
                    bc,
                    pc,
                )
            } else {
                split_commas_from(t, n, braces, out, cur.push(c), bc, pc)
            }
        } else {
            split_commas_from(t, n, braces, out, cur.push(c), bc, pc)
        }
    }
}

/// Some field of `fs` is named `name`.
pub open spec fn has_field_named(fs: Seq<FieldModel>, name: Seq<char>) -> bool {
    exists|j: int| 0 <= j < fs.len() && #[trigger] fs[j].name == name
}

/// The fields that the parameters `ps` of a union case declare, skipping comments
/// and repeated names.
pub open spec fn case_fields_of(ps: Seq<Seq<char>>) -> Seq<FieldModel>
    decreases ps.len(),
{
    if ps.len() == 0 {
        Seq::empty()
    } else {
        let rest = case_fields_of(ps.drop_last());
        let p = trim(ps.last());
        if p.len() == 0 || starts_with(p, "//"@) {
            rest
        } else {
            match parse_parameter(p) {
                Some(f) => if has_field_named(rest, f.name) {
                    rest
                } else {
                    rest.push(f)
                },
                None => rest,
            }
        }
    }
}

/// The parameters of a union case's parameter text: named (`{...}`) or positional.
pub open spec fn case_params(pc: Seq<char>) -> Seq<Seq<char>> {
    if starts_with(pc, "{"@) && ends_with(pc, "}"@) {
        split_commas_from(pc.subrange(1, pc.len() - 1), 0, true, Seq::empty(), Seq::empty(), 0, 0)
    } else {
        split_commas_from(pc, 0, false, Seq::empty(), Seq::empty(), 0, 0)
    }
}

/// The union case that a factory declaration `const factory Name.case(...) = ...;`
/// declares, if it names the class followed by a dot.
pub open spec fn case_of_decl(decl: Seq<char>, class_name: Seq<char>) -> Option<CaseModel> {
    match find(decl, class_name + "."@) {
        None => None,
        Some(dp) => {
            let after = decl.skip(dp + class_name.len() + 1);
            match find(after, "("@) {
                Some(pp) => {
                    let pc = trim(paren_content_from(after.skip(pp), 0, 0, false, Seq::empty()));
                    Some(
                        CaseModel {
                            case_name: trim(after.take(pp)),
                            fields: if pc.len() == 0 {
                                Seq::empty()
                            } else {
                                case_fields_of(case_params(pc))
                            },
                        },
                    )
                },
                None => Some(CaseModel { case_name: trim(after), fields: Seq::empty() }),
            }
        },
    }
}

/// The lines `fl` joined by single spaces.
pub open spec fn join_space(fl: Seq<Seq<char>>) -> Seq<char>
    decreases fl.len(),
{
    if fl.len() == 0 {
        Seq::empty()
    } else if fl.len() == 1 {
        fl[0]
    } else {
        join_space(fl.drop_last()) + " "@ + fl.last()
    }
}

/// Scans the lines `ls` of a source file from line `i` on for the factory
/// constructors of the class `class_name`; `None` when the brace count, an unsigned
/// number, would go below zero.
pub open spec fn union_scan(
    ls: Seq<Seq<char>>,
    i: nat,
    class_name: Seq<char>,
    in_class: bool,
    bc: nat,
    in_f: bool,
    fl: Seq<Seq<char>>,
    cases: Seq<CaseModel>,
) -> Option<Seq<CaseModel>>
    decreases ls.len() - i,
{
    if i >= ls.len() {
        Some(cases)
    } else {
        let tr = trim(ls[i as int]);
        let o = crate::text::count_char(tr, '{');
        let c = crate::text::count_char(tr, '}');
        let n = (i + 1) as nat;
        if starts_with(tr, "class "@ + class_name) {
            if c > o {
                None
            } else {
                union_scan(ls, n, class_name, true, (o - c) as nat, in_f, fl, cases)
            }
        } else if in_class {
            if c > bc + o {
                None
            } else if bc + o - c == 0 {
                Some(cases)
            } else {
                let bc2 = (bc + o - c) as nat;
                let starts = contains(tr, "const factory"@);
                let in_f2 = starts || in_f;
                let fl2 = if starts {
                    Seq::empty()
                } else {
                    fl
                };
                if in_f2 {
                    let fl3 = fl2.push(tr);
                    if contains(tr, ")"@) || contains(tr, ";"@) {
                        let cases2 = match case_of_decl(join_space(fl3), class_name) {
                            Some(cm) => cases.push(cm),
                            None => cases,
                        };
                        union_scan(ls, n, class_name, in_class, bc2, false, fl3, cases2)
                    } else {
                        union_scan(ls, n, class_name, in_class, bc2, true, fl3, cases)
                    }
                } else {
                    union_scan(ls, n, class_name, in_class, bc2, in_f2, fl2, cases)
                }
            }
        } else {
            union_scan(ls, n, class_name, in_class, bc, in_f, fl, cases)
        }
    }
}

/// The union cases of the class `class_name` in `src`: one for each factory
/// constructor `const factory Name.case(...)` inside the class body, with its fields.
pub open spec fn extract_union_cases(src: Seq<char>, class_name: Seq<char>) -> Seq<CaseModel> {
    match union_scan(lines(src), 0, class_name, false, 0, false, Seq::empty(), Seq::empty()) {
        Some(cs) => cs,
        None => Seq::empty(),
    }
}

/// Scanning the class `class_name` in `src` for union cases would take its unsigned
/// brace count below zero.
pub open spec fn union_scan_panics(src: Seq<char>, class_name: Seq<char>) -> bool {
    union_scan(lines(src), 0, class_name, false, 0, false, Seq::empty(), Seq::empty()) is None
}

/// The text between the first `(` of `s[lo..hi]` and the parenthesis that closes it.
fn paren_content(s: &[char], lo: usize, hi: usize) -> (r: Vec<char>)
    requires
        lo <= hi <= s@.len(),
    ensures
        r@ == paren_content_from(s@.subrange(lo as int, hi as int), 0, 0, false, Seq::empty()),
        r@.len() <= hi - lo,
{
    let ghost t = s@.subrange(lo as int, hi as int);
    let mut acc: Vec<char> = Vec::new();
    let mut lvl: i128 = 0;
    let mut found = false;
    let mut i = lo;
    while i < hi
        invariant
            lo <= i <= hi <= s@.len(),
            t == s@.subrange(lo as int, hi as int),
            -(i as int) <= lvl <= i,
            acc@.len() <= i - lo,
            paren_content_from(t, (i - lo) as nat, lvl as int, found, acc@) == paren_content_from(
                t,
                0,
                0,
                false,
                Seq::empty(),
            ),
        decreases hi - i,
    {
        let c = s[i];
        assert(t[i - lo] == c);
        if c == '(' {
            lvl = lvl + 1;
            found = true;
            if lvl != 1 && lvl >= 1 {
                acc.push(c);
            }
        } else if c == ')' {
            lvl = lvl - 1;
            if lvl == 0 {
                return acc;
            }
            if found && lvl >= 1 {
                acc.push(c);
            }
        } else if found && lvl >= 1 {
            acc.push(c);
        }
        i += 1;
    }
    acc
}

/// Splits `s[lo..hi]` as `split_commas_from` states.
fn split_commas(s: &[char], lo: usize, hi: usize, braces: bool) -> (r: Vec<String>)
    requires
        lo <= hi <= s@.len(),
    ensures
        r@.map_values(|x: String| x@) == split_commas_from(
            s@.subrange(lo as int, hi as int),
            0,
            braces,
            Seq::empty(),
            Seq::empty(),
            0,
            0,
        ),
{
    let ghost t = s@.subrange(lo as int, hi as int);
    let mut out: Vec<String> = Vec::new();
    let mut cur: Vec<char> = Vec::new();
    let mut bc: i128 = 0;
    let mut pc: i128 = 0;
    let mut i = lo;
    assert(out@.map_values(|x: String| x@) =~= Seq::<Seq<char>>::empty());
    while i < hi
        invariant
            lo <= i <= hi <= s@.len(),
            t == s@.subrange(lo as int, hi as int),
            -(i as int) <= bc <= i,
            -(i as int) <= pc <= i,
            split_commas_from(
                t,
                (i - lo) as nat,
                braces,
                out@.map_values(|x: String| x@),
                cur@,
                bc as int,
                pc as int,
            ) == split_commas_from(t, 0, braces, Seq::empty(), Seq::empty(), 0, 0),
        decreases hi - i,
    {
        let c = s[i];
        assert(t[i - lo] == c);
        let ghost before = out@;
        if braces && c == '{' {
            bc = bc + 1;
            cur.push(c);
        } else if braces && c == '}' {
            bc = bc - 1;
            cur.push(c);
        } else if c == '(' {
            pc = pc + 1;
            cur.push(c);
        } else if c == ')' {
            pc = pc - 1;
            cur.push(c);
        } else if c == ',' {
            if bc == 0 && pc == 0 {
                let (a, b) = trim_bounds(cur.as_slice(), 0, cur.len());
                proof {
                    assert(cur@.subrange(0, cur@.len() as int) =~= cur@);
                }
                if a < b {
                    out.push(string_of(cur.as_slice(), a, b));
                    proof {
                        assert(out@.map_values(|x: String| x@) =~= before.map_values(|x: String| x@).push(
                            trim(cur@),
                        ));
                    }
                }
                cur = Vec::new();
            } else {
                cur.push(c);
            }
        } else {
            cur.push(c);
        }
        i += 1;
    }
    let (a, b) = trim_bounds(cur.as_slice(), 0, cur.len());
    proof {
        assert(cur@.subrange(0, cur@.len() as int) =~= cur@);
    }
    if a < b {
        let ghost before = out@;
        out.push(string_of(cur.as_slice(), a, b));
        proof {
            assert(out@.map_values(|x: String| x@) =~= before.map_values(|x: String| x@).push(
                trim(cur@),
            ));
        }
    }
    out
}

/// Whether some field of `fs` is named `name`.
fn has_field(fs: &Vec<DartField>, name: &str) -> (r: bool)
    ensures
        r == has_field_named(fields_view(fs@), name@),
{
    let nc = str_chars(name);
    let mut j: usize = 0;
    while j < fs.len()
        invariant
            j <= fs@.len(),
            nc@ == name@,
            forall|k: int| 0 <= k < j ==> fields_view(fs@)[k].name != name@,
        decreases fs.len() - j,
    {
        let fc = str_chars(fs[j].name.as_str());
        if chars_eq(fc.as_slice(), nc.as_slice()) {
            assert(fields_view(fs@)[j as int].name == name@);
            return true;
        }
        j += 1;
    }
    false
}

/// The fields of the parameters `ps`, as `case_fields_of` states.
fn case_fields(ps: &Vec<String>) -> (r: Vec<DartField>)
    ensures
        fields_view(r@) == case_fields_of(ps@.map_values(|x: String| x@)),
{
    let ghost pv = ps@.map_values(|x: String| x@);
    let mut fields: Vec<DartField> = Vec::new();
    let slash2 = str_chars("//");
    let mut i: usize = 0;
    while i < ps.len()
        invariant
            i <= ps@.len(),
            pv == ps@.map_values(|x: String| x@),
            slash2@ == "//"@,
            fields_view(fields@) == case_fields_of(pv.take(i as int)),
        decreases ps.len() - i,
    {
        proof {
            assert(pv.take(i + 1).drop_last() =~= pv.take(i as int));
            assert(pv.take(i + 1).last() == ps@[i as int]@);
        }
        let pcs = str_chars(ps[i].as_str());
        let (a, b) = trim_bounds(pcs.as_slice(), 0, pcs.len());
        proof {
            assert(pcs@.subrange(0, pcs@.len() as int) =~= pcs@);
        }
        let p = string_of(pcs.as_slice(), a, b);
        let pc = str_chars(p.as_str());
        if a < b && !starts_with_slice(pc.as_slice(), slash2.as_slice()) {
            match parse_dart_parameter(p.as_str()) {
                Some(f) => {
                    if !has_field(&fields, f.name.as_str()) {
                        let ghost before = fields@;
                        fields.push(f);
                        proof {
                            assert(fields_view(fields@) =~= fields_view(before).push(f@));
                        }
                    }
                },
                None => {},
            }
        }
        i += 1;
    }
    proof {
        assert(pv.take(ps@.len() as int) =~= pv);
    }
    fields
}

/// The union case of a factory declaration, as `case_of_decl` states.
fn case_from_decl(decl: &str, class_name: &str) -> (r: Option<CaseInfo>)
    ensures
        match r {
            Some(c) => case_of_decl(decl@, class_name@) == Some(c@),
            None => case_of_decl(decl@, class_name@) is None,
        },
{
    let d = str_chars(decl);
    let mut pat_s = String::from_str(class_name);
    pat_s.append(".");
    let pat = str_chars(pat_s.as_str());
    let cn = str_chars(class_name);
    let dp = match find_slice(d.as_slice(), pat.as_slice()) {
        None => return None,
        Some(dp) => dp,
    };
    proof {
        crate::text::lemma_find_contains(d@, pat@);
        reveal_strlit(".");
        assert(pat@ == class_name@ + "."@);
        assert(pat@.len() == cn@.len() + 1);
        assert(crate::text::is_match_at(d@, pat@, dp as int));
        assert(dp + pat@.len() <= d@.len());
        assert(cn@ == class_name@);
        assert(cn@.len() == cn.len());
        assert(dp + cn.len() + 1 <= d.len());
    }
    let a0 = dp + cn.len() + 1;
    let ghost after = d@.skip(a0 as int);
    assert(d@.subrange(a0 as int, d@.len() as int) =~= after);
    let lp = str_chars("(");
    match find_slice(&d[a0..d.len()], lp.as_slice()) {
        Some(pp) => {
            proof {
                crate::text::lemma_find_contains(after, lp@);
            }
            let (n0, n1) = trim_bounds(d.as_slice(), a0, a0 + pp);
            assert(d@.subrange(a0 as int, a0 + pp) =~= after.take(pp as int));
            let case_name = string_of(d.as_slice(), n0, n1);
            let content = paren_content(d.as_slice(), a0 + pp, d.len());
            assert(d@.subrange(a0 + pp, d@.len() as int) =~= after.skip(pp as int));
            let (c0, c1) = trim_bounds(content.as_slice(), 0, content.len());
            proof {
                assert(content@.subrange(0, content@.len() as int) =~= content@);
            }
            let pcs = string_of(content.as_slice(), c0, c1);
            let pc = str_chars(pcs.as_str());
            if pc.len() == 0 {
                let fields: Vec<DartField> = Vec::new();
                assert(fields_view(fields@) =~= Seq::<FieldModel>::empty());
                return Some(CaseInfo { case_name, fields });
            }
            let lb = str_chars("{");
            let rb = str_chars("}");
            let params = if starts_with_slice(pc.as_slice(), lb.as_slice()) && ends_with_slice(
                pc.as_slice(),
                rb.as_slice(),
            ) {
                proof {
                    reveal_strlit("{");
                    reveal_strlit("}");
                    if pc@.len() == 1 {
                        assert(pc@.subrange(0, 1)[0] == '{');
                        assert(pc@.subrange(0, 1)[0] == '}');
                    }
                }
                split_commas(pc.as_slice(), 1, pc.len() - 1, true)
            } else {
                assert(pc@.subrange(0, pc@.len() as int) =~= pc@);
                split_commas(pc.as_slice(), 0, pc.len(), false)
            };
            let fields = case_fields(&params);
            Some(CaseInfo { case_name, fields })
        },
        None => {
            let (n0, n1) = trim_bounds(d.as_slice(), a0, d.len());
            let fields: Vec<DartField> = Vec::new();
            assert(fields_view(fields@) =~= Seq::<FieldModel>::empty());
            Some(CaseInfo { case_name: string_of(d.as_slice(), n0, n1), fields })
        },
    }
}

/// Extracts the union cases (named factory constructors) of the class `class_name`
/// from the Dart source `source_content`, with their fields.
pub fn extract_union_cases_from_dart_class(source_content: &str, class_name: &str) -> (r: Vec<CaseInfo>)
    requires
        source_content@.len() < 0x8000_0000,
        !union_scan_panics(source_content@, class_name@),
    ensures
        cases_view(r@) == extract_union_cases(source_content@, class_name@),
{
    match scan_union_cases(source_content, class_name) {
        Some(cases) => cases,
        None => Vec::new(),
    }
}

/// Whether `extract_union_cases_from_dart_class` may not be called on these
/// arguments, because the scan would take its brace count below zero.
pub fn union_scan_would_panic(source_content: &str, class_name: &str) -> (r: bool)
    requires
        source_content@.len() < 0x8000_0000,
    ensures
        r == union_scan_panics(source_content@, class_name@),
{
    scan_union_cases(source_content, class_name).is_none()
}

/// Scans for union cases as `union_scan` states.
fn scan_union_cases(source_content: &str, class_name: &str) -> (r: Option<Vec<CaseInfo>>)
    requires
        source_content@.len() < 0x8000_0000,
    ensures
        match r {
            Some(cs) => union_scan(
                lines(source_content@),
                0,
                class_name@,
                false,
                0,
                false,
                Seq::empty(),
                Seq::empty(),
            ) == Some(cases_view(cs@)),
            None => union_scan_panics(source_content@, class_name@),
        },
{
    let s = str_chars(source_content);
    let lb = line_bounds(s.as_slice(), 0, s.len());
    proof {
        assert(s@.subrange(0, s@.len() as int) =~= s@);
    }
    let ghost ls = lines(source_content@);
    let mut class_pat_s = String::from_str("class ");
    class_pat_s.append(class_name);
    let class_pat = str_chars(class_pat_s.as_str());
    let factory = str_chars("const factory");
    let rparen = str_chars(")");
    let semi = str_chars(";");
    let mut cases: Vec<CaseInfo> = Vec::new();
    let mut in_class = false;
    let mut bc: usize = 0;
    let mut in_f = false;
    let mut fl: Vec<String> = Vec::new();
    let mut i: usize = 0;
    assert(cases_view(cases@) =~= Seq::<CaseModel>::empty());
    assert(fl@.map_values(|x: String| x@) =~= Seq::<Seq<char>>::empty());
    while i < lb.len()
        invariant
            i <= lb@.len(),
            s@.len() < 0x8000_0000,
            ls == texts_of(s@, lb@),
            ls == lines(source_content@),
            bounds_ok(s@, lb@),
            crate::text::bounds_ordered(lb@),
            bc <= (if i == 0 { 0 } else { lb@[i - 1].1 as int }),
            class_pat@ == "class "@ + class_name@,
            factory@ == "const factory"@,
            rparen@ == ")"@,
            semi@ == ";"@,
            union_scan(
                ls,
                i as nat,
                class_name@,
                in_class,
                bc as nat,
                in_f,
                fl@.map_values(|x: String| x@),
                cases_view(cases@),
            ) == union_scan(ls, 0, class_name@, false, 0, false, Seq::empty(), Seq::empty()),
        decreases lb.len() - i,
    {
        let (l0, l1) = lb[i];
        proof {
            assert(lb@[i as int].0 <= lb@[i as int].1 && lb@[i as int].1 <= s@.len());
            assert(ls[i as int] == s@.subrange(l0 as int, l1 as int));
        }
        let (a, b) = trim_bounds(s.as_slice(), l0, l1);
        let tr = string_of(s.as_slice(), a, b);
        let tc = str_chars(tr.as_str());
        proof {
            assert(tc@.subrange(0, tc@.len() as int) =~= tc@);
        }
        let o = crate::text::count_char_in(tc.as_slice(), 0, tc.len(), '{');
        let c = crate::text::count_char_in(tc.as_slice(), 0, tc.len(), '}');
        proof {
            if i > 0 {
                assert(lb@[i - 1].1 <= lb@[i as int].0);
            }
        }
        let ghost fl_now = fl@.map_values(|x: String| x@);
        let ghost cases_now = cases_view(cases@);
        if starts_with_slice(tc.as_slice(), class_pat.as_slice()) {
            if c > o {
                assert(union_scan(ls, i as nat, class_name@, in_class, bc as nat, in_f, fl_now, cases_now) is None);
                return None;
            }
            in_class = true;
            bc = o - c;
        } else if in_class {
            if c > bc + o {
                assert(union_scan(ls, i as nat, class_name@, in_class, bc as nat, in_f, fl_now, cases_now) is None);
                return None;
            }
            if bc + o - c == 0 {
                assert(union_scan(ls, i as nat, class_name@, in_class, bc as nat, in_f, fl_now, cases_now) == Some(cases_now));
                return Some(cases);
            }
            bc = bc + o - c;
            let starts = contains_slice(tc.as_slice(), factory.as_slice());
            if starts {
                in_f = true;
                fl = Vec::new();
                assert(fl@.map_values(|x: String| x@) =~= Seq::<Seq<char>>::empty());
            }
            if in_f {
                let ghost fl_before = fl@;
                fl.push(tr);
                assert(fl@.map_values(|x: String| x@) =~= fl_before.map_values(|x: String| x@).push(
                    tc@,
                ));
                if contains_slice(tc.as_slice(), rparen.as_slice()) || contains_slice(
                    tc.as_slice(),
                    semi.as_slice(),
                ) {
                    let decl = join_with_space(&fl);
                    in_f = false;
                    match case_from_decl(decl.as_str(), class_name) {
                        Some(cm) => {
                            let ghost before = cases@;
                            cases.push(cm);
                            assert(cases_view(cases@) =~= cases_view(before).push(cm@));
                        },
                        None => {},
                    }
                }
            }
        }
        i += 1;
    }
    Some(cases)
}

/// The texts of `fl` joined by single spaces.
fn join_with_space(fl: &Vec<String>) -> (r: String)
    ensures
        r@ == join_space(fl@.map_values(|x: String| x@)),
{
    let ghost fv = fl@.map_values(|x: String| x@);
    let mut out = String::new();
    if fl.len() == 0 {
        return out;
    }
    out.append(fl[0].as_str());
    let mut i: usize = 1;
    proof {
        assert(fv.take(1).len() == 1);
        assert(Seq::<char>::empty() + fl@[0]@ =~= fl@[0]@);
    }
    while i < fl.len()
        invariant
            1 <= i <= fl@.len(),
            fv == fl@.map_values(|x: String| x@),
            out@ == join_space(fv.take(i as int)),
        decreases fl.len() - i,
    {
        out.append(" ");
        out.append(fl[i].as_str());
        proof {
            assert(fv.take(i + 1).drop_last() =~= fv.take(i as int));
        }
        i += 1;
    }
    proof {
        assert(fv.take(fl@.len() as int) =~= fv);
    }
    out
}

// ---------------------------------------------------------------------------
// Generated code of a class
// ---------------------------------------------------------------------------

/// The source can be scanned for the class `n`: it is not too long, and neither
/// scan fails on it.
pub open spec fn source_scannable(n: Seq<char>, src: Seq<char>) -> bool {
    &&& src.len() < 0x8000_0000
    &&& !fields_scan_panics(src, n)
    &&& !union_scan_panics(src, n)
}

/// The Freezed code of the class `n` whose source is `src`: the union class code
/// when the source declares union cases for it, the regular class code otherwise.
pub open spec fn freezed_code_text(n: Seq<char>, src: Seq<char>) -> Seq<char> {
    let cs = extract_union_cases(src, n);
    if cs.len() > 0 {
        union_class_text(n, cs)
    } else {
        regular_class_text(n, extract_fields(src, n))
    }
}

/// Generates the Freezed code (`.freezed.dart` part) of `class`, whose source
/// file holds `source_content`.
pub fn generate_freezed_code(class: &DartClass, source_content: &str) -> (r: String)
    requires
        source_scannable(class.name@, source_content@),
    ensures
        r@ == freezed_code_text(class.name@, source_content@),
{
    let union_cases = extract_union_cases_from_dart_class(source_content, class.name.as_str());
    let fields = extract_fields_from_dart_class(source_content, class.name.as_str());
    if union_cases.len() > 0 {
        union_class_code(class.name.as_str(), union_cases.as_slice())
    } else {
        regular_class_code(class.name.as_str(), fields.as_slice())
    }
}

/// The field conversions of the class `n` in `src` that the JSON code uses can all
/// be laid out without a panic.
pub open spec fn json_convertible(n: Seq<char>, src: Seq<char>) -> bool {
    let cs = extract_union_cases(src, n);
    if cs.len() > 0 {
        case_conversions_ok(cs)
    } else {
        conversions_ok(extract_fields(src, n))
    }
}

/// The JsonSerializable code of the class `n` whose source is `src`.
pub open spec fn json_code_text(n: Seq<char>, src: Seq<char>) -> Seq<char> {
    let cs = extract_union_cases(src, n);
    if cs.len() > 0 {
        union_json_text(n, cs)
    } else {
        regular_json_text(n, extract_fields(src, n))
    }
}

/// Generates the JsonSerializable code (`.g.dart` part) of `class`, whose source
/// file holds `source_content`.
pub fn generate_json_code(class: &DartClass, source_content: &str) -> (r: String)
    requires
        source_scannable(class.name@, source_content@),
        json_convertible(class.name@, source_content@),
    ensures
        r@ == json_code_text(class.name@, source_content@),
{
    let fields = extract_fields_from_dart_class(source_content, class.name.as_str());
    let union_cases = extract_union_cases_from_dart_class(source_content, class.name.as_str());
    if union_cases.len() > 0 {
        union_json_code(class.name.as_str(), union_cases.as_slice())
    } else {
        regular_json_code(class.name.as_str(), fields.as_slice())
    }
}

/// Whether some field conversion of `fields` cannot be laid out.
fn conversions_would_panic(fields: &[DartField]) -> (r: bool)
    ensures
        r == !conversions_ok(fields_view(fields@)),
{
    let mut i: usize = 0;
    while i < fields.len()
        invariant
            i <= fields@.len(),
            forall|j: int| 0 <= j < i ==> !format_long_panics(field_conversion(#[trigger] fields_view(fields@)[j])),
        decreases fields.len() - i,
    {
        let conv = get_field_conversion(&fields[i]);
        if format_would_panic(conv.as_str()) {
            assert(!format_long_panics(field_conversion(fields_view(fields@)[i as int])) == false);
            return true;
        }
        i += 1;
    }
    false
}

/// Whether `generate_freezed_code` and `generate_json_code` may not be called for
/// `class_name` on `source_content`.
pub fn source_would_panic(class_name: &str, source_content: &str) -> (r: bool)
    ensures
        r == !(source_scannable(class_name@, source_content@) && json_convertible(class_name@, source_content@)),
{
    if source_content.unicode_len() >= 0x8000_0000 {
        return true;
    }
    if fields_scan_would_panic(source_content, class_name) || union_scan_would_panic(source_content, class_name) {
        return true;
    }
    let union_cases = extract_union_cases_from_dart_class(source_content, class_name);
    if union_cases.len() > 0 {
        let ghost cs = cases_view(union_cases@);
        let mut i: usize = 0;
        while i < union_cases.len()
            invariant
                i <= union_cases@.len(),
                cs == cases_view(union_cases@),
                cs == extract_union_cases(source_content@, class_name@),
                cs.len() > 0,
                source_scannable(class_name@, source_content@),
                forall|j: int| 0 <= j < i ==> conversions_ok(#[trigger] cs[j].fields),
            decreases union_cases.len() - i,
        {
            if conversions_would_panic(union_cases[i].fields.as_slice()) {
                assert(cs[i as int] == union_cases@[i as int]@);
                assert(!conversions_ok(cs[i as int].fields));
                assert(!case_conversions_ok(cs));
                return true;
            }
            i += 1;
        }
        false
    } else {
        let fields = extract_fields_from_dart_class(source_content, class_name);
        conversions_would_panic(fields.as_slice())
    }
}

// ---------------------------------------------------------------------------
// Generated files
// ---------------------------------------------------------------------------

/// The start of a `.freezed.dart` file that is part of `<stem>.dart`: the
/// generated-code comments, the `part of` directive, the `_$identity` function and
/// the `_privateConstructorUsedError` shared by all classes of the file.
pub open spec fn freezed_file_head(stem: Seq<char>) -> Seq<char> {
    "// coverage:ignore-file\n// GENERATED CODE - DO NOT MODIFY BY HAND\n// ignore_for_file: type=lint\n// ignore_for_file: unused_element, deprecated_member_use, deprecated_member_use_from_same_package, use_function_type_syntax_for_parameters, unnecessary_const, avoid_init_to_null, invalid_override_different_default_values_named, prefer_expression_function_bodies, annotate_overrides, invalid_annotation_target, unnecessary_question_mark\n\npart of '"@
        + stem
        + ".dart';\n\n// **************************************************************************\n// FreezedGenerator\n// **************************************************************************\n\nT _$identity<T>(T value) => value;\n\nfinal _privateConstructorUsedError = UnsupportedError(\n    'It seems like you constructed your class using `MyClass._()`. This constructor is only meant to be used by freezed and you are not supposed to need it nor use it.\\nPlease check the documentation here for more information: https://github.com/rrousselGit/freezed#adding-getters-and-methods-to-our-models');\n\n"@
}

/// The start of a `.g.dart` file that is part of `<stem>.dart`.
pub open spec fn g_dart_file_head(stem: Seq<char>) -> Seq<char> {
    "// GENERATED CODE - DO NOT MODIFY BY HAND\n\npart of '"@ + stem
        + ".dart';\n\n// **************************************************************************\n// JsonSerializableGenerator\n// **************************************************************************\n\n"@
}

/// A class to generate code for, with its name, the text of its source file, and
/// whether no earlier class of the file has the same name.
pub struct ClassUnit {
    pub name: Seq<char>,
    pub source: Seq<char>,
    pub first: bool,
}

/// No class before position `i` of `classes` has the name of the class at `i`.
pub open spec fn first_of_name(classes: Seq<DartClass>, i: int) -> bool {
    forall|j: int| 0 <= j < i ==> #[trigger] classes[j].name@ != classes[i].name@
}

/// The classes to generate code for, each with the source at the same position.
pub open spec fn class_units(classes: Seq<DartClass>, sources: Seq<String>) -> Seq<ClassUnit> {
    Seq::new(
        classes.len(),
        |i: int| ClassUnit { name: classes[i].name@, source: sources[i]@, first: first_of_name(classes, i) },
    )
}

/// Writes the Freezed code of a class.
pub open spec fn put_freezed_unit() -> spec_fn(Seq<char>, ClassUnit) -> Seq<char> {
    |o: Seq<char>, u: ClassUnit| o + freezed_code_text(u.name, u.source)
}

/// Writes the JSON code of a class, when it is the first class of its name.
pub open spec fn put_json_unit() -> spec_fn(Seq<char>, ClassUnit) -> Seq<char> {
    |o: Seq<char>, u: ClassUnit| if u.first { o + json_code_text(u.name, u.source) } else { o }
}

/// `s` without the last of two or more line breaks at its end.
pub open spec fn strip_blank_tail(s: Seq<char>) -> Seq<char>
    decreases s.len(),
{
    if s.len() >= 2 && ends_with(s, "\n\n"@) {
        strip_blank_tail(s.drop_last())
    } else {
        s
    }
}

/// `s` ending with exactly one line break: extra line breaks at the end are
/// removed, and one is added when there is none.
pub open spec fn one_final_newline(s: Seq<char>) -> Seq<char> {
    let t = strip_blank_tail(s);
    if ends_with(t, "\n"@) {
        t
    } else {
        t.push('\n')
    }
}

/// All classes of the file can be generated from their sources.
pub open spec fn sources_ok(classes: Seq<DartClass>, sources: Seq<String>) -> bool {
    &&& classes.len() == sources.len()
    &&& forall|i: int|
        0 <= i < classes.len() ==> source_scannable(#[trigger] classes[i].name@, sources[i]@)
            && json_convertible(classes[i].name@, sources[i]@)
}

/// The `.freezed.dart` text of the file `<stem>.dart` with these classes: the head,
/// then the Freezed code of every class in order.
pub open spec fn freezed_file_text(stem: Seq<char>, classes: Seq<DartClass>, sources: Seq<String>) -> Seq<char> {
    fold_put(freezed_file_head(stem), class_units(classes, sources), put_freezed_unit())
}

/// The `.g.dart` text of the file `<stem>.dart` with these classes: the head, then
/// the JSON code of the first class of each name, in order, ending with exactly one
/// line break.
pub open spec fn g_dart_file_text(stem: Seq<char>, classes: Seq<DartClass>, sources: Seq<String>) -> Seq<char> {
    one_final_newline(fold_put(g_dart_file_head(stem), class_units(classes, sources), put_json_unit()))
}

/// The file stem of a path, or the empty text.
pub open spec fn stem_of(p: Seq<char>) -> Seq<char> {
    match file_stem_of(p) {
        Some(x) => x,
        None => Seq::empty(),
    }
}

/// Removes the extra line breaks at the end of `code`, as `one_final_newline` does.
fn end_with_one_newline(code: &str) -> (r: String)
    ensures
        r@ == one_final_newline(code@),
{
    let cs = str_chars(code);
    let mut e = cs.len();
    proof {
        assert(cs@.take(e as int) =~= cs@);
        reveal_strlit("\n\n");
        reveal_strlit("\n");
    }
    while e >= 2 && cs[e - 1] == '\n' && cs[e - 2] == '\n'
        invariant
            e <= cs@.len(),
            cs@ == code@,
            strip_blank_tail(cs@.take(e as int)) == strip_blank_tail(code@),
        decreases e,
    {
        proof {
            reveal_strlit("\n\n");
        }
        assert(cs@.take(e as int).subrange(e - 2, e as int) =~= "\n\n"@);
        assert(cs@.take(e as int).drop_last() =~= cs@.take(e - 1));
        e -= 1;
    }
    proof {
        let t = cs@.take(e as int);
        if e >= 2 && ends_with(t, "\n\n"@) {
            assert(t.subrange(e - 2, e as int) =~= "\n\n"@);
            assert(t[e - 2] == "\n\n"@[0]);
            assert(t[e - 1] == "\n\n"@[1]);
        }
        assert(strip_blank_tail(t) == t);
    }
    let mut out = string_of(cs.as_slice(), 0, e);
    if e >= 1 && cs[e - 1] == '\n' {
        assert(out@.subrange(out@.len() - 1, out@.len() as int) =~= "\n"@);
    } else {
        proof {
            if ends_with(out@, "\n"@) {
                assert(out@[out@.len() - 1] == out@.subrange(out@.len() - 1, out@.len() as int)[0]);
            }
        }
        string_push(&mut out, '\n');
    }
    out
}

/// Generates the `.freezed.dart` and `.g.dart` contents for the Dart file at
/// `file_path` and its `classes`; `sources[i]` is the text of the source file of
/// `classes[i]` (the caller reads it, the empty text when it cannot).
/// The Freezed code of every class goes into the first file, in order; the JSON
/// code of the first class of each name goes into the second.
pub fn generate_freezed_file(file_path: &str, classes: &[DartClass], sources: &[String]) -> (r: Option<GenerationResult>)
    requires
        file_stem_of(file_path@) is Some,
        sources_ok(classes@, sources@),
    ensures
        r matches Some(g) && g.freezed_code@ == freezed_file_text(stem_of(file_path@), classes@, sources@)
            && g.g_dart_code@ == g_dart_file_text(stem_of(file_path@), classes@, sources@),
{
    let stem = match path_file_stem(file_path) {
        Some(x) => x,
        None => String::new(),
    };
    let ghost units = class_units(classes@, sources@);
    let mut freezed_code = String::from_str(
        "// coverage:ignore-file\n// GENERATED CODE - DO NOT MODIFY BY HAND\n// ignore_for_file: type=lint\n// ignore_for_file: unused_element, deprecated_member_use, deprecated_member_use_from_same_package, use_function_type_syntax_for_parameters, unnecessary_const, avoid_init_to_null, invalid_override_different_default_values_named, prefer_expression_function_bodies, annotate_overrides, invalid_annotation_target, unnecessary_question_mark\n\npart of '",
    );
    freezed_code.append(stem.as_str());
    freezed_code.append(
        ".dart';\n\n// **************************************************************************\n// FreezedGenerator\n// **************************************************************************\n\nT _$identity<T>(T value) => value;\n\nfinal _privateConstructorUsedError = UnsupportedError(\n    'It seems like you constructed your class using `MyClass._()`. This constructor is only meant to be used by freezed and you are not supposed to need it nor use it.\\nPlease check the documentation here for more information: https://github.com/rrousselGit/freezed#adding-getters-and-methods-to-our-models');\n\n",
    );
    let ghost head = freezed_code@;
    proof {
        lemma_fold_put_ends(head, units, put_freezed_unit());
    }
    let mut i: usize = 0;
    while i < classes.len()
        invariant
            i <= classes@.len(),
            units == class_units(classes@, sources@),
            sources_ok(classes@, sources@),
            fold_put(freezed_code@, units.skip(i as int), put_freezed_unit()) == fold_put(head, units, put_freezed_unit()),
        decreases classes.len() - i,
    {
        let ghost before = freezed_code@;
        assert(source_scannable(classes@[i as int].name@, sources@[i as int]@));
        let class_code = generate_freezed_code(&classes[i], sources[i].as_str());
        freezed_code.append(class_code.as_str());
        proof {
            lemma_fold_put_step(before, units, i as int, put_freezed_unit());
        }
        i += 1;
    }
    proof {
        lemma_fold_put_ends(freezed_code@, units, put_freezed_unit());
    }
    let mut g_dart_code = String::from_str("// GENERATED CODE - DO NOT MODIFY BY HAND\n\npart of '");
    g_dart_code.append(stem.as_str());
    g_dart_code.append(
        ".dart';\n\n// **************************************************************************\n// JsonSerializableGenerator\n// **************************************************************************\n\n",
    );
    let ghost ghead = g_dart_code@;
    proof {
        lemma_fold_put_ends(ghead, units, put_json_unit());
    }
    let mut k: usize = 0;
    while k < classes.len()
        invariant
            k <= classes@.len(),
            units == class_units(classes@, sources@),
            sources_ok(classes@, sources@),
            fold_put(g_dart_code@, units.skip(k as int), put_json_unit()) == fold_put(ghead, units, put_json_unit()),
        decreases classes.len() - k,
    {
        let ghost before = g_dart_code@;
        let mut seen = false;
        let mut j: usize = 0;
        while j < k
            invariant
                j <= k < classes@.len(),
                seen <==> exists|m: int| 0 <= m < j && #[trigger] classes@[m].name@ == classes@[k as int].name@,
            decreases k - j,
        {
            if str_eq(classes[j].name.as_str(), classes[k].name.as_str()) {
                seen = true;
            }
            j += 1;
        }
        if !seen {
            assert(first_of_name(classes@, k as int));
            let json = generate_json_code(&classes[k], sources[k].as_str());
            g_dart_code.append(json.as_str());
        } else {
            proof {
                let m = choose|m: int| 0 <= m < k && #[trigger] classes@[m].name@ == classes@[k as int].name@;
                assert(classes@[m].name@ == classes@[k as int].name@);
                assert(!first_of_name(classes@, k as int));
            }
        }
        proof {
            lemma_fold_put_step(before, units, k as int, put_json_unit());
        }
        k += 1;
    }
    proof {
        lemma_fold_put_ends(g_dart_code@, units, put_json_unit());
    }
    let g_dart_code = end_with_one_newline(g_dart_code.as_str());
    Some(GenerationResult { freezed_code, g_dart_code })
}

/// Checks what `generate_freezed_file` requires, then generates: `None` when the
/// path has no file stem, when `sources` does not hold one text per class, or when
/// the source of a class cannot be scanned or its fields converted.
pub fn try_generate_freezed_file(file_path: &str, classes: &[DartClass], sources: &[String]) -> (r: Option<GenerationResult>)
    ensures
        r is Some <==> file_stem_of(file_path@) is Some && sources_ok(classes@, sources@),
        r matches Some(g) ==> g.freezed_code@ == freezed_file_text(stem_of(file_path@), classes@, sources@)
            && g.g_dart_code@ == g_dart_file_text(stem_of(file_path@), classes@, sources@),
{
    if path_file_stem(file_path).is_none() {
        return None;
    }
    if classes.len() != sources.len() {
        return None;
    }
    let mut i: usize = 0;
    while i < classes.len()
        invariant
            i <= classes@.len(),
            classes@.len() == sources@.len(),
            forall|j: int|
                0 <= j < i ==> source_scannable(#[trigger] classes@[j].name@, sources@[j]@)
                    && json_convertible(classes@[j].name@, sources@[j]@),
        decreases classes.len() - i,
    {
        if source_would_panic(classes[i].name.as_str(), sources[i].as_str()) {
            return None;
        }
        i += 1;
    }
    generate_freezed_file(file_path, classes, sources)
}

/// The name of the generated files of a source file with this stem: the stem
/// without a final `.freezed` or `.g`.
pub open spec fn output_base(stem: Seq<char>) -> Seq<char> {
    if ends_with(stem, ".freezed"@) {
        stem.take(stem.len() - 8)
    } else if ends_with(stem, ".g"@) {
        stem.take(stem.len() - 2)
    } else {
        stem
    }
}

/// The parent directory of a path, or the empty path.
pub open spec fn parent_dir(p: Seq<char>) -> Seq<char> {
    match parent_of(p) {
        Some(x) => x,
        None => Seq::empty(),
    }
}

/// The `.freezed.dart` and `.g.dart` output files of the source file at
/// `file_path`, always in its own directory.
pub fn get_safe_output_paths(file_path: &str) -> (r: (String, String))
    requires
        file_stem_of(file_path@) is Some,
        parent_of(file_path@) is Some,
    ensures
        r.0@ == joined_path(parent_dir(file_path@), output_base(stem_of(file_path@)) + ".freezed.dart"@),
        r.1@ == joined_path(parent_dir(file_path@), output_base(stem_of(file_path@)) + ".g.dart"@),
{
    proof {
        reveal_strlit(".freezed");
        reveal_strlit(".g");
    }
    let stem = match path_file_stem(file_path) {
        Some(x) => x,
        None => String::new(),
    };
    let parent = match path_parent(file_path) {
        Some(x) => x,
        None => String::new(),
    };
    let cs = str_chars(stem.as_str());
    let freezed = str_chars(".freezed");
    let g = str_chars(".g");
    let base = if ends_with_slice(cs.as_slice(), freezed.as_slice()) {
        string_of(cs.as_slice(), 0, cs.len() - 8)
    } else if ends_with_slice(cs.as_slice(), g.as_slice()) {
        string_of(cs.as_slice(), 0, cs.len() - 2)
    } else {
        stem
    };
    let freezed_name = base.clone().concat(".freezed.dart");
    let g_name = base.concat(".g.dart");
    (path_join(parent.as_str(), freezed_name.as_str()), path_join(parent.as_str(), g_name.as_str()))
}

/// Checks what `get_safe_output_paths` requires, then computes the paths: `None`
/// when the path has no file stem or no parent.
pub fn try_get_safe_output_paths(file_path: &str) -> (r: Option<(String, String)>)
    ensures
        r is Some <==> file_stem_of(file_path@) is Some && parent_of(file_path@) is Some,
        r matches Some(p) ==> p.0@ == joined_path(parent_dir(file_path@), output_base(stem_of(file_path@)) + ".freezed.dart"@)
            && p.1@ == joined_path(parent_dir(file_path@), output_base(stem_of(file_path@)) + ".g.dart"@),
{
    if path_file_stem(file_path).is_none() || path_parent(file_path).is_none() {
        return None;
    }
    Some(get_safe_output_paths(file_path))
}

/// After `strip_blank_tail` the text no longer ends with two line breaks.
proof fn lemma_strip_blank_tail(s: Seq<char>)
    ensures
        !ends_with(strip_blank_tail(s), "\n\n"@),
        strip_blank_tail(s).len() <= s.len(),
    decreases s.len(),
{
    reveal_strlit("\n\n");
    if s.len() >= 2 && ends_with(s, "\n\n"@) {
        lemma_strip_blank_tail(s.drop_last());
    } else if s.len() < 2 {
        assert(!ends_with(s, "\n\n"@));
    }
}

/// A generated `.g.dart` file ends with exactly one line break, whatever its classes.
pub proof fn lemma_g_dart_ends_with_one_newline(stem: Seq<char>, classes: Seq<DartClass>, sources: Seq<String>)
    ensures
        ends_with(g_dart_file_text(stem, classes, sources), "\n"@),
        !ends_with(g_dart_file_text(stem, classes, sources), "\n\n"@),
{
    reveal_strlit("\n\n");
    reveal_strlit("\n");
    let body = fold_put(g_dart_file_head(stem), class_units(classes, sources), put_json_unit());
    let t = strip_blank_tail(body);
    lemma_strip_blank_tail(body);
    let r = one_final_newline(body);
    if ends_with(t, "\n"@) {
        assert(r == t);
    } else {
        assert(r == t.push('\n'));
        assert(r.subrange(r.len() - 1, r.len() as int) =~= "\n"@);
        if ends_with(r, "\n\n"@) {
            assert(r.subrange(r.len() - 2, r.len() as int)[0] == '\n');
            assert(t.subrange(t.len() - 1, t.len() as int) =~= "\n"@);
        }
    }
}


/// Writing the Freezed code of classes after a text keeps that text in front.
proof fn lemma_freezed_units_after(p: Seq<char>, q: Seq<char>, units: Seq<ClassUnit>)
    ensures
        fold_put(p + q, units, put_freezed_unit()) == p + fold_put(q, units, put_freezed_unit()),
    decreases units.len(),
{
    if units.len() > 0 {
        let u = units[0];
        let code = freezed_code_text(u.name, u.source);
        assert((p + q) + code =~= p + (q + code));
        lemma_freezed_units_after(p, q + code, units.drop_first());
    }
}

/// The `.freezed.dart` text of a file is its head, written once and holding the
/// shared `_$identity` and `_privateConstructorUsedError`, followed by the Freezed
/// code of each of its classes in order.
pub proof fn lemma_freezed_file_is_head_then_classes(stem: Seq<char>, classes: Seq<DartClass>, sources: Seq<String>)
    ensures
        freezed_file_text(stem, classes, sources) == freezed_file_head(stem) + fold_put(
            Seq::empty(),
            class_units(classes, sources),
            put_freezed_unit(),
        ),
{
    assert(freezed_file_head(stem) + Seq::<char>::empty() =~= freezed_file_head(stem));
    lemma_freezed_units_after(freezed_file_head(stem), Seq::empty(), class_units(classes, sources));
}


/// The definition of `_privateConstructorUsedError` that the classes of a
/// `.freezed.dart` file share.
pub open spec fn unused_error_definition() -> Seq<char> {
    "final _privateConstructorUsedError = UnsupportedError("@
}

/// The `_$identity` function that the classes of a `.freezed.dart` file share.
pub open spec fn identity_definition() -> Seq<char> {
    "T _$identity<T>(T value) => value;"@
}

/// The Freezed code of a class ends with a line break.
pub proof fn lemma_freezed_code_ends_line(n: Seq<char>, src: Seq<char>)
    ensures
        ends_line(freezed_code_text(n, src)),
{
    let cs = extract_union_cases(src, n);
    if cs.len() > 0 {
        lemma_union_class_ends_line(n, cs);
    } else {
        lemma_regular_class_ends_line(n, extract_fields(src, n));
    }
}

/// Writing after `q` the Freezed code of classes none of which holds `x`, a text
/// without line breaks, writes no `x`, when `q` holds none and is empty or ends a line.
#[verifier::spinoff_prover]
#[verifier::rlimit(40)]
proof fn lemma_units_lack(q: Seq<char>, units: Seq<ClassUnit>, x: Seq<char>)
    requires
        q.len() == 0 || ends_line(q),
        !contains(q, x),
        lacks_char(x, '\n'),
        forall|k: int|
            0 <= k < units.len() ==> !contains(freezed_code_text(#[trigger] units[k].name, units[k].source), x),
    ensures
        !contains(fold_put(q, units, put_freezed_unit()), x),
    decreases units.len(),
{
    if units.len() > 0 {
        let u = units[0];
        let c = freezed_code_text(u.name, u.source);
        assert(!contains(c, x));
        lemma_freezed_code_ends_line(u.name, u.source);
        let q2 = q + c;
        if q.len() == 0 {
            assert(q2 =~= c);
        } else {
            lemma_contains_across_line(q, c, x);
        }
        assert(q2.last() == c.last());
        let more = units.drop_first();
        assert forall|k: int| 0 <= k < more.len() implies !contains(
            freezed_code_text(#[trigger] more[k].name, more[k].source),
            x,
        ) by {
            assert(more[k] == units[k + 1]);
        }
        assert(put_freezed_unit()(q, u) == q2);
        lemma_units_lack(q2, more, x);
    }
}

/// The `part of` line of a `.freezed.dart` file that is part of `<stem>.dart`.
pub open spec fn part_of_line(stem: Seq<char>) -> Seq<char> {
    "part of '"@ + stem + ".dart';\n"@
}

/// The comment lines that open a `.freezed.dart` file.
spec fn head_comments() -> Seq<char> {
    "// coverage:ignore-file\n// GENERATED CODE - DO NOT MODIFY BY HAND\n// ignore_for_file: type=lint\n// ignore_for_file: unused_element, deprecated_member_use, deprecated_member_use_from_same_package, use_function_type_syntax_for_parameters, unnecessary_const, avoid_init_to_null, invalid_override_different_default_values_named, prefer_expression_function_bodies, annotate_overrides, invalid_annotation_target, unnecessary_question_mark\n\n"@
}

/// The banner of the Freezed generator, between the `part of` line and `_$identity`.
spec fn head_banner() -> Seq<char> {
    "\n// **************************************************************************\n// FreezedGenerator\n// **************************************************************************\n\n"@
}

/// The message of `_privateConstructorUsedError`, which ends the head of a
/// `.freezed.dart` file.
spec fn head_message() -> Seq<char> {
    "    'It seems like you constructed your class using `MyClass._()`. This constructor is only meant to be used by freezed and you are not supposed to need it nor use it.\\nPlease check the documentation here for more information: https://github.com/rrousselGit/freezed#adding-getters-and-methods-to-our-models');\n\n"@
}

/// The head of a `.freezed.dart` file, line by line.
proof fn lemma_freezed_head_lines(stem: Seq<char>)
    ensures
        freezed_file_head(stem) == head_comments() + part_of_line(stem) + head_banner() + identity_definition().push(
            '\n',
        ) + "\n"@ + unused_error_definition().push('\n') + head_message(),
        ends_line(head_comments()),
        ends_line(part_of_line(stem)),
        ends_line(head_banner()),
        ends_line("\n"@),
        ends_line(head_message()),
        lacks_char(head_comments(), 'U') && lacks_char(head_comments(), '$'),
        lacks_char(head_banner(), 'U') && lacks_char(head_banner(), '$'),
        lacks_char("\n"@, 'U') && lacks_char("\n"@, '$'),
        lacks_char(head_message(), 'U') && lacks_char(head_message(), '$'),
        lacks_char(identity_definition().push('\n'), 'U'),
        lacks_char(unused_error_definition().push('\n'), '$'),
        lacks_char(unused_error_definition(), '\n'),
        lacks_char(identity_definition(), '\n'),
        unused_error_definition().len() > 25 && unused_error_definition()[25] == 'U',
        identity_definition().len() > 3 && identity_definition()[3] == '$',
{
    reveal_strlit("final _privateConstructorUsedError = UnsupportedError(");
    reveal_strlit("T _$identity<T>(T value) => value;");
    reveal_strlit("// coverage:ignore-file\n// GENERATED CODE - DO NOT MODIFY BY HAND\n// ignore_for_file: type=lint\n// ignore_for_file: unused_element, deprecated_member_use, deprecated_member_use_from_same_package, use_function_type_syntax_for_parameters, unnecessary_const, avoid_init_to_null, invalid_override_different_default_values_named, prefer_expression_function_bodies, annotate_overrides, invalid_annotation_target, unnecessary_question_mark\n\n");
    reveal_strlit("\n// **************************************************************************\n// FreezedGenerator\n// **************************************************************************\n\n");
    reveal_strlit("\n");
    reveal_strlit("    'It seems like you constructed your class using `MyClass._()`. This constructor is only meant to be used by freezed and you are not supposed to need it nor use it.\\nPlease check the documentation here for more information: https://github.com/rrousselGit/freezed#adding-getters-and-methods-to-our-models');\n\n");
    reveal_strlit("part of '");
    reveal_strlit(".dart';\n");
    reveal_strlit("// coverage:ignore-file\n// GENERATED CODE - DO NOT MODIFY BY HAND\n// ignore_for_file: type=lint\n// ignore_for_file: unused_element, deprecated_member_use, deprecated_member_use_from_same_package, use_function_type_syntax_for_parameters, unnecessary_const, avoid_init_to_null, invalid_override_different_default_values_named, prefer_expression_function_bodies, annotate_overrides, invalid_annotation_target, unnecessary_question_mark\n\npart of '");
    reveal_strlit(".dart';\n\n// **************************************************************************\n// FreezedGenerator\n// **************************************************************************\n\nT _$identity<T>(T value) => value;\n\nfinal _privateConstructorUsedError = UnsupportedError(\n    'It seems like you constructed your class using `MyClass._()`. This constructor is only meant to be used by freezed and you are not supposed to need it nor use it.\\nPlease check the documentation here for more information: https://github.com/rrousselGit/freezed#adding-getters-and-methods-to-our-models');\n\n");
    assert(freezed_file_head(stem) =~= head_comments() + part_of_line(stem) + head_banner() + identity_definition().push(
        '\n',
    ) + "\n"@ + unused_error_definition().push('\n') + head_message());
}

/// The head of a `.freezed.dart` file holds the definition of
/// `_privateConstructorUsedError` (`unused` true) or the `_$identity` function
/// (`unused` false) exactly once, when its `part of` line does not hold it.
proof fn lemma_freezed_head_once(stem: Seq<char>, unused: bool)
    requires
        !contains(part_of_line(stem), if unused { unused_error_definition() } else { identity_definition() }),
    ensures
        occurs_once(freezed_file_head(stem), if unused { unused_error_definition() } else { identity_definition() }),
        ends_line(freezed_file_head(stem)),
{
    let x = if unused { unused_error_definition() } else { identity_definition() };
    let j: int = if unused { 25 } else { 3 };
    lemma_freezed_head_lines(stem);
    let c1 = head_comments();
    let sl = part_of_line(stem);
    let c3 = head_banner();
    let il = identity_definition().push('\n');
    let c4 = "\n"@;
    let pl = unused_error_definition().push('\n');
    let c5 = head_message();
    lemma_lacks_char_no_match(c1, x, j);
    lemma_lacks_char_no_match(c3, x, j);
    lemma_lacks_char_no_match(c4, x, j);
    lemma_lacks_char_no_match(c5, x, j);
    let x1 = c1 + sl;
    let x2 = x1 + c3;
    let x3 = x2 + il;
    let x4 = x3 + c4;
    let x5 = x4 + pl;
    let x6 = x5 + c5;
    assert(x1.last() == sl.last());
    assert(x2.last() == c3.last());
    assert(x3.last() == '\n');
    assert(x4.last() == '\n');
    assert(x5.last() == '\n');
    assert(x6.last() == c5.last());
    lemma_contains_across_line(c1, sl, x);
    lemma_contains_across_line(x1, c3, x);
    if unused {
        lemma_lacks_char_no_match(il, x, j);
        lemma_line_occurs_once(x);
        lemma_contains_across_line(x2, il, x);
        lemma_contains_across_line(x3, c4, x);
        lemma_once_across_line(x4, pl, x);
        lemma_once_across_line(x5, c5, x);
    } else {
        lemma_lacks_char_no_match(pl, x, j);
        lemma_line_occurs_once(x);
        lemma_once_across_line(x2, il, x);
        lemma_once_across_line(x3, c4, x);
        lemma_once_across_line(x4, pl, x);
        lemma_once_across_line(x5, c5, x);
    }
}

/// The Freezed code of the classes of a file, written one after another, holds
/// `x`, a text without line breaks, nowhere when the code of none of them holds it.
#[verifier::spinoff_prover]
proof fn lemma_classes_lack(classes: Seq<DartClass>, sources: Seq<String>, x: Seq<char>)
    requires
        x.len() > 0,
        lacks_char(x, '\n'),
        forall|i: int|
            0 <= i < classes.len() ==> !contains(freezed_code_text(#[trigger] classes[i].name@, sources[i]@), x),
    ensures
        !contains(fold_put(Seq::empty(), class_units(classes, sources), put_freezed_unit()), x),
{
    let units = class_units(classes, sources);
    assert forall|k: int| 0 <= k < units.len() implies !contains(
        freezed_code_text(#[trigger] units[k].name, units[k].source),
        x,
    ) by {
        assert(units[k].name == classes[k].name@);
        assert(units[k].source == sources[k]@);
    }
    assert(!contains(Seq::<char>::empty(), x)) by {
        if contains(Seq::<char>::empty(), x) {
            let k = choose|k: int| is_match_at(Seq::<char>::empty(), x, k);
        }
    }
    lemma_units_lack(Seq::empty(), units, x);
}

/// Neither shared definition holds a line break.
proof fn lemma_definitions_one_line()
    ensures
        lacks_char(unused_error_definition(), '\n'),
        lacks_char(identity_definition(), '\n'),
        unused_error_definition().len() > 0,
        identity_definition().len() > 0,
{
    reveal_strlit("final _privateConstructorUsedError = UnsupportedError(");
    reveal_strlit("T _$identity<T>(T value) => value;");
}

/// A `.freezed.dart` file holds the definition of `_privateConstructorUsedError`
/// and the `_$identity` function exactly once each: its head writes them once for
/// all its classes. This holds whenever neither its `part of` line nor the code of
/// one of its classes holds them itself.
pub proof fn lemma_freezed_file_shares_definitions(stem: Seq<char>, classes: Seq<DartClass>, sources: Seq<String>)
    requires
        !contains(part_of_line(stem), unused_error_definition()),
        !contains(part_of_line(stem), identity_definition()),
        forall|i: int|
            0 <= i < classes.len() ==> !contains(
                freezed_code_text(#[trigger] classes[i].name@, sources[i]@),
                unused_error_definition(),
            ) && !contains(freezed_code_text(classes[i].name@, sources[i]@), identity_definition()),
    ensures
        occurs_once(freezed_file_text(stem, classes, sources), unused_error_definition()),
        occurs_once(freezed_file_text(stem, classes, sources), identity_definition()),
{
    let p = unused_error_definition();
    let d = identity_definition();
    let rest = fold_put(Seq::empty(), class_units(classes, sources), put_freezed_unit());
    lemma_definitions_one_line();
    lemma_classes_lack(classes, sources, p);
    lemma_classes_lack(classes, sources, d);
    lemma_freezed_head_once(stem, true);
    lemma_freezed_head_once(stem, false);
    lemma_once_across_line(freezed_file_head(stem), rest, p);
    lemma_once_across_line(freezed_file_head(stem), rest, d);
    lemma_freezed_file_is_head_then_classes(stem, classes, sources);
}

/// Writing the JSON code of classes after a text keeps that text in front.
proof fn lemma_json_units_after(p: Seq<char>, q: Seq<char>, units: Seq<ClassUnit>)
    ensures
        fold_put(p + q, units, put_json_unit()) == p + fold_put(q, units, put_json_unit()),
    decreases units.len(),
{
    if units.len() > 0 {
        let u = units[0];
        if u.first {
            let code = json_code_text(u.name, u.source);
            assert((p + q) + code =~= p + (q + code));
            lemma_json_units_after(p, q + code, units.drop_first());
        } else {
            lemma_json_units_after(p, q, units.drop_first());
        }
    }
}

/// The `.g.dart` text of a file is its head followed by the JSON code of the first
/// class of each name, in order, with every line break at its end removed and
/// one added.
pub proof fn lemma_g_dart_file_is_head_then_json(stem: Seq<char>, classes: Seq<DartClass>, sources: Seq<String>)
    ensures
        g_dart_file_text(stem, classes, sources) == one_final_newline(
            g_dart_file_head(stem) + fold_put(Seq::empty(), class_units(classes, sources), put_json_unit()),
        ),
        g_dart_file_text(stem, classes, sources) == trim_end_matches(
            g_dart_file_head(stem) + fold_put(Seq::empty(), class_units(classes, sources), put_json_unit()),
            "\n"@,
        ) + "\n"@,
{
    assert(g_dart_file_head(stem) + Seq::<char>::empty() =~= g_dart_file_head(stem));
    lemma_json_units_after(g_dart_file_head(stem), Seq::empty(), class_units(classes, sources));
    lemma_one_final_newline_trims(
        g_dart_file_head(stem) + fold_put(Seq::empty(), class_units(classes, sources), put_json_unit()),
    );
}

/// Dropping the extra line breaks at the end does not change what trimming all
/// of them leaves.
proof fn lemma_strip_blank_tail_trim(s: Seq<char>)
    ensures
        trim_end_matches(strip_blank_tail(s), "\n"@) == trim_end_matches(s, "\n"@),
    decreases s.len(),
{
    reveal_strlit("\n\n");
    reveal_strlit("\n");
    if s.len() >= 2 && ends_with(s, "\n\n"@) {
        lemma_strip_blank_tail_trim(s.drop_last());
        assert(s.subrange(s.len() - 2, s.len() as int)[1] == s[s.len() - 1]);
        assert(s.subrange(s.len() - 1, s.len() as int) =~= "\n"@);
        assert(s.take(s.len() - 1) =~= s.drop_last());
    }
}

/// Making the line breaks at the end of `s` exactly one is trimming them all and
/// adding one.
pub proof fn lemma_one_final_newline_trims(s: Seq<char>)
    ensures
        one_final_newline(s) == trim_end_matches(s, "\n"@) + "\n"@,
{
    reveal_strlit("\n\n");
    reveal_strlit("\n");
    lemma_strip_blank_tail_trim(s);
    lemma_strip_blank_tail(s);
    let t = strip_blank_tail(s);
    if ends_with(t, "\n"@) {
        assert(t[t.len() - 1] == '\n') by {
            assert(t.subrange(t.len() - 1, t.len() as int)[0] == t[t.len() - 1]);
        }
        let u = t.take(t.len() - 1);
        if ends_with(u, "\n"@) {
            assert(u[u.len() - 1] == t[t.len() - 2]);
            assert(u.subrange(u.len() - 1, u.len() as int)[0] == u[u.len() - 1]);
            assert(t.subrange(t.len() - 2, t.len() as int) =~= "\n\n"@);
        }
        assert(trim_end_matches(t, "\n"@) == trim_end_matches(u, "\n"@));
        assert(trim_end_matches(u, "\n"@) == u);
        assert(u + "\n"@ =~= t);
    } else {
        assert(trim_end_matches(t, "\n"@) == t);
        assert(t.push('\n') =~= t + "\n"@);
    }
}


/// The Freezed code of a class begins with the mixin `_$Name` and its `when`
/// method when its source declares union cases, and with its `FromJson`
/// function otherwise.
pub proof fn lemma_freezed_code_start(n: Seq<char>, src: Seq<char>)
    ensures
        extract_union_cases(src, n).len() > 0 ==> starts_with(freezed_code_text(n, src), union_mixin_start(n)),
        extract_union_cases(src, n).len() == 0 ==> starts_with(freezed_code_text(n, src), regular_from_json_start(n)),
{
    lemma_union_class_text_start(Seq::empty(), n, extract_union_cases(src, n));
    lemma_regular_class_text_start(n, extract_fields(src, n));
}


/// No two fields of `fs` have the same name.
pub open spec fn distinct_field_names(fs: Seq<FieldModel>) -> bool {
    forall|i: int, j: int| 0 <= i < j < fs.len() ==> #[trigger] fs[i].name != #[trigger] fs[j].name
}

/// The fields of a union case's parameters have distinct names.
proof fn lemma_case_fields_distinct(ps: Seq<Seq<char>>)
    ensures
        distinct_field_names(case_fields_of(ps)),
    decreases ps.len(),
{
    if ps.len() > 0 {
        lemma_case_fields_distinct(ps.drop_last());
        let rest = case_fields_of(ps.drop_last());
        let p = trim(ps.last());
        if !(p.len() == 0 || starts_with(p, "//"@)) {
            match parse_parameter(p) {
                Some(f) => {
                    if !has_field_named(rest, f.name) {
                        let r = rest.push(f);
                        assert forall|i: int, j: int| 0 <= i < j < r.len() implies #[trigger] r[i].name
                            != #[trigger] r[j].name by {
                            if j == rest.len() {
                                if r[i].name == f.name {
                                    assert(rest[i].name == f.name);
                                    assert(has_field_named(rest, f.name));
                                }
                            } else {
                                assert(r[i] == rest[i] && r[j] == rest[j]);
                            }
                        }
                    }
                },
                None => {},
            }
        }
    }
}

/// Every union case found in a factory declaration has fields of distinct names.
proof fn lemma_case_of_decl_distinct(decl: Seq<char>, class_name: Seq<char>)
    ensures
        case_of_decl(decl, class_name) matches Some(cm) ==> distinct_field_names(cm.fields),
{
    match find(decl, class_name + "."@) {
        None => {},
        Some(dp) => {
            let after = decl.skip(dp + class_name.len() + 1);
            match find(after, "("@) {
                Some(pp) => {
                    let pc = trim(paren_content_from(after.skip(pp), 0, 0, false, Seq::empty()));
                    if pc.len() > 0 {
                        lemma_case_fields_distinct(case_params(pc));
                    }
                },
                None => {},
            }
        },
    }
}

/// The union scan only adds cases whose fields have distinct names.
proof fn lemma_union_scan_distinct(
    ls: Seq<Seq<char>>,
    i: nat,
    class_name: Seq<char>,
    in_class: bool,
    bc: nat,
    in_f: bool,
    fl: Seq<Seq<char>>,
    cases: Seq<CaseModel>,
)
    requires
        forall|k: int| 0 <= k < cases.len() ==> distinct_field_names(#[trigger] cases[k].fields),
    ensures
        union_scan(ls, i, class_name, in_class, bc, in_f, fl, cases) matches Some(r) ==> forall|k: int|
            0 <= k < r.len() ==> distinct_field_names(#[trigger] r[k].fields),
    decreases ls.len() - i,
{
    if i < ls.len() {
        let tr = trim(ls[i as int]);
        let o = crate::text::count_char(tr, '{');
        let c = crate::text::count_char(tr, '}');
        let n = (i + 1) as nat;
        if starts_with(tr, "class "@ + class_name) {
            if c <= o {
                lemma_union_scan_distinct(ls, n, class_name, true, (o - c) as nat, in_f, fl, cases);
            }
        } else if in_class {
            if !(c > bc + o) && bc + o - c != 0 {
                let bc2 = (bc + o - c) as nat;
                let starts = contains(tr, "const factory"@);
                let in_f2 = starts || in_f;
                let fl2 = if starts {
                    Seq::empty()
                } else {
                    fl
                };
                if in_f2 {
                    let fl3 = fl2.push(tr);
                    if contains(tr, ")"@) || contains(tr, ";"@) {
                        lemma_case_of_decl_distinct(join_space(fl3), class_name);
                        let cases2 = match case_of_decl(join_space(fl3), class_name) {
                            Some(cm) => cases.push(cm),
                            None => cases,
                        };
                        assert forall|k: int| 0 <= k < cases2.len() implies distinct_field_names(
                            #[trigger] cases2[k].fields,
                        ) by {
                            if k < cases.len() {
                                assert(cases2[k] == cases[k]);
                            }
                        }
                        lemma_union_scan_distinct(ls, n, class_name, in_class, bc2, false, fl3, cases2);
                    } else {
                        lemma_union_scan_distinct(ls, n, class_name, in_class, bc2, true, fl3, cases);
                    }
                } else {
                    lemma_union_scan_distinct(ls, n, class_name, in_class, bc2, in_f2, fl2, cases);
                }
            }
        } else {
            lemma_union_scan_distinct(ls, n, class_name, in_class, bc, in_f, fl, cases);
        }
    }
}

/// Before the class line is met, the union scan finds no cases when no later line
/// declares the class.
proof fn lemma_union_scan_no_class(
    ls: Seq<Seq<char>>,
    i: nat,
    class_name: Seq<char>,
    bc: nat,
    in_f: bool,
    fl: Seq<Seq<char>>,
)
    requires
        forall|k: int| i <= k < ls.len() ==> !starts_with(trim(#[trigger] ls[k]), "class "@ + class_name),
    ensures
        union_scan(ls, i, class_name, false, bc, in_f, fl, Seq::empty()) == Some(Seq::<CaseModel>::empty()),
    decreases ls.len() - i,
{
    if i < ls.len() {
        assert(!starts_with(trim(ls[i as int]), "class "@ + class_name));
        lemma_union_scan_no_class(ls, (i + 1) as nat, class_name, bc, in_f, fl);
    }
}

/// The union cases read from a source have fields of distinct names, and there
/// are none when no line of the source, trimmed, starts with `class` and the
/// class name.
pub proof fn lemma_union_cases_shape(src: Seq<char>, class_name: Seq<char>)
    ensures
        forall|k: int|
            0 <= k < extract_union_cases(src, class_name).len() ==> distinct_field_names(
                #[trigger] extract_union_cases(src, class_name)[k].fields,
            ),
        (forall|k: int| 0 <= k < lines(src).len() ==> !starts_with(trim(#[trigger] lines(src)[k]), "class "@ + class_name))
            ==> extract_union_cases(src, class_name).len() == 0,
{
    lemma_union_scan_distinct(lines(src), 0, class_name, false, 0, false, Seq::empty(), Seq::empty());
    if forall|k: int| 0 <= k < lines(src).len() ==> !starts_with(trim(#[trigger] lines(src)[k]), "class "@ + class_name) {
        lemma_union_scan_no_class(lines(src), 0, class_name, 0, false, Seq::empty());
    }
}

} // verus!
