//! Reading Dart declarations from a syntax tree: top-level functions with their
//! annotations, return types and parameters; the fields of a class; and the
//! cases of a union class.

use vstd::prelude::*;
use crate::commands::generate::{params_view, CaseInfo, DartField, DartFunction, FunctionModel, ParamModel};
use crate::primitives::{str_chars, string_push};
use crate::text::{
    contains, ends_with, texts, find_at_or_after, find_from, find_slice, is_match_at, lemma_find_contains,
    lemma_find_from, str_contains, str_ends_with, str_eq, string_of, trim, trim_bounds,
};

verus! {

// ---------------------------------------------------------------------------
// Syntax trees
// ---------------------------------------------------------------------------

/// A node of a Dart syntax tree: its kind (such as `function_signature`), the
/// source text it spans, and its children in order.
#[derive(Debug)]
pub struct SyntaxNode {
    pub kind: String,
    pub text: String,
    pub children: Vec<SyntaxNode>,
}

/// The text of the first of `cs` of kind `k`, if any.
pub open spec fn first_of_kind(cs: Seq<SyntaxNode>, k: Seq<char>) -> Option<Seq<char>>
    decreases cs.len(),
{
    if cs.len() == 0 {
        None
    } else if cs[0].kind@ == k {
        Some(cs[0].text@)
    } else {
        first_of_kind(cs.drop_first(), k)
    }
}

/// The text of the last of `cs` of kind `k`, if any.
pub open spec fn last_of_kind(cs: Seq<SyntaxNode>, k: Seq<char>) -> Option<Seq<char>>
    decreases cs.len(),
{
    if cs.len() == 0 {
        None
    } else if cs.last().kind@ == k {
        Some(cs.last().text@)
    } else {
        last_of_kind(cs.drop_last(), k)
    }
}

/// The text of the first node of `cs` of kind `k`.
pub fn first_text_of_kind(cs: &Vec<SyntaxNode>, k: &str) -> (r: Option<String>)
    ensures
        match r {
            Some(t) => first_of_kind(cs@, k@) == Some(t@),
            None => first_of_kind(cs@, k@) is None,
        },
{
    let mut i: usize = 0;
    assert(cs@.skip(0) =~= cs@);
    while i < cs.len()
        invariant
            i <= cs@.len(),
            first_of_kind(cs@.skip(i as int), k@) == first_of_kind(cs@, k@),
        decreases cs.len() - i,
    {
        proof {
            assert(cs@.skip(i as int).drop_first() =~= cs@.skip(i + 1));
        }
        if str_eq(cs[i].kind.as_str(), k) {
            return Some(cs[i].text.clone());
        }
        i += 1;
    }
    None
}

/// The text of the last node of `cs` of kind `k`.
pub fn last_text_of_kind(cs: &Vec<SyntaxNode>, k: &str) -> (r: Option<String>)
    ensures
        match r {
            Some(t) => last_of_kind(cs@, k@) == Some(t@),
            None => last_of_kind(cs@, k@) is None,
        },
{
    let mut i: usize = cs.len();
    assert(cs@.take(i as int) =~= cs@);
    while i > 0
        invariant
            i <= cs@.len(),
            last_of_kind(cs@.take(i as int), k@) == last_of_kind(cs@, k@),
        decreases i,
    {
        proof {
            assert(cs@.take(i as int).drop_last() =~= cs@.take(i - 1));
        }
        if str_eq(cs[i - 1].kind.as_str(), k) {
            return Some(cs[i - 1].text.clone());
        }
        i -= 1;
    }
    None
}

// ---------------------------------------------------------------------------
// Annotations
// ---------------------------------------------------------------------------

/// The annotations written before a declaration, nearest first: the siblings
/// before it are read backwards, taking each `annotation`, passing over comments
/// and whitespace, and stopping at anything else.
pub open spec fn annotations_before(prev: Seq<SyntaxNode>) -> Seq<Seq<char>>
    decreases prev.len(),
{
    if prev.len() == 0 {
        Seq::empty()
    } else {
        let s = prev.last();
        if s.kind@ == "annotation"@ {
            seq![s.text@] + annotations_before(prev.drop_last())
        } else if contains(s.kind@, "comment"@) || contains(s.kind@, "whitespace"@) {
            annotations_before(prev.drop_last())
        } else {
            Seq::empty()
        }
    }
}

/// Collects the annotations before `siblings[idx]`, as `annotations_before` describes.
fn collect_annotations(siblings: &[SyntaxNode], idx: usize) -> (r: Vec<String>)
    requires
        idx <= siblings@.len(),
    ensures
        texts(r@) == annotations_before(siblings@.take(idx as int)),
{
    let mut out: Vec<String> = Vec::new();
    let mut j: usize = idx;
    while j > 0
        invariant
            j <= idx <= siblings@.len(),
            texts(out@) + annotations_before(siblings@.take(j as int)) == annotations_before(
                siblings@.take(idx as int),
            ),
        decreases j,
    {
        let s = &siblings[j - 1];
        proof {
            assert(siblings@.take(j as int).drop_last() =~= siblings@.take(j - 1));
            assert(siblings@.take(j as int).last() == *s);
        }
        if str_eq(s.kind.as_str(), "annotation") {
            let ghost before = out@;
            out.push(s.text.clone());
            assert(texts(out@) =~= texts(before).push(s.text@));
            assert(texts(out@) + annotations_before(siblings@.take(j - 1)) =~= texts(before) + (seq![s.text@]
                + annotations_before(siblings@.take(j - 1))));
        } else if str_contains(s.kind.as_str(), "comment") || str_contains(s.kind.as_str(), "whitespace") {
        } else {
            assert(texts(out@) + annotations_before(siblings@.take(j as int)) =~= texts(out@));
            assert(texts(out@) + annotations_before(siblings@.take(0)) =~= texts(out@));
            return out;
        }
        j -= 1;
    }
    assert(texts(out@) + annotations_before(siblings@.take(0)) =~= texts(out@));
    out
}

// ---------------------------------------------------------------------------
// Return types
// ---------------------------------------------------------------------------

/// What reading the children of a function signature gathers about its
/// return type.
pub struct TypeScan {
    pub base: Seq<char>,
    pub args: Seq<Seq<char>>,
    pub nullable: bool,
    pub ret: Seq<char>,
    pub done: bool,
}

/// Nothing gathered yet.
pub open spec fn type_scan_start() -> TypeScan {
    TypeScan { base: "dynamic"@, args: Seq::empty(), nullable: false, ret: "dynamic"@, done: false }
}

/// Reads the children `cs` of a `nullable_type` after the type name `base` and
/// the type arguments `args` read so far: a type name replaces `base`, type
/// arguments are added to `args`.
pub open spec fn scan_nullable(cs: Seq<SyntaxNode>, base: Seq<char>, args: Seq<Seq<char>>) -> (Seq<char>, Seq<Seq<char>>)
    decreases cs.len(),
{
    if cs.len() == 0 {
        (base, args)
    } else {
        let (b, a) = scan_nullable(cs.drop_last(), base, args);
        let c = cs.last();
        if c.kind@ == "type_identifier"@ {
            (c.text@, a)
        } else if c.kind@ == "type_arguments"@ {
            (b, a.push(c.text@))
        } else {
            (b, a)
        }
    }
}

/// Reads one child of a function signature: a nullable type, a type name, type
/// arguments, or a function type, which ends the reading.
pub open spec fn scan_type_step(st: TypeScan, c: SyntaxNode) -> TypeScan {
    if c.kind@ == "nullable_type"@ {
        let (b, a) = scan_nullable(c.children@, st.base, st.args);
        TypeScan { base: b, args: a, nullable: true, ..st }
    } else if c.kind@ == "type_identifier"@ {
        TypeScan { base: c.text@, ..st }
    } else if c.kind@ == "type_arguments"@ {
        TypeScan { args: st.args.push(c.text@), ..st }
    } else if c.kind@ == "function_type"@ {
        TypeScan { ret: c.text@, done: true, ..st }
    } else {
        st
    }
}

/// Reads the children `cs` of a function signature, until a function type.
pub open spec fn scan_type(cs: Seq<SyntaxNode>) -> TypeScan
    decreases cs.len(),
{
    if cs.len() == 0 {
        type_scan_start()
    } else {
        let prev = scan_type(cs.drop_last());
        if prev.done {
            prev
        } else {
            scan_type_step(prev, cs.last())
        }
    }
}

/// The texts of `ts` one after another.
pub open spec fn concat_all(ts: Seq<Seq<char>>) -> Seq<char>
    decreases ts.len(),
{
    if ts.len() == 0 {
        Seq::empty()
    } else {
        concat_all(ts.drop_last()) + ts.last()
    }
}

/// The generic type `p...>` in the text `t`, from the first `p` to the first `>`
/// after it; `dynamic` when no `>` follows.
pub open spec fn bracket_type(t: Seq<char>, p: Seq<char>) -> Seq<char> {
    let start = match find_from(t, p, 0) {
        Some(k) => k,
        None => 0,
    };
    match find_from(t, ">"@, start as nat) {
        Some(e) => t.subrange(start, e + 1),
        None => "dynamic"@,
    }
}

/// The return type of a function signature with the children `cs` and the text
/// `text`: the type name with its type arguments (or the function type), `?`
/// added for a nullable type; when nothing is found, the first `Future<...>` or
/// `List<...>` in the text; else `dynamic`.
pub open spec fn return_type_of(cs: Seq<SyntaxNode>, text: Seq<char>) -> Seq<char> {
    let st = scan_type(cs);
    let rt1 = if st.base != "dynamic"@ && st.args.len() > 0 {
        st.base + concat_all(st.args)
    } else if st.base != "dynamic"@ {
        st.base
    } else {
        st.ret
    };
    let rt2 = if st.nullable && !ends_with(rt1, "?"@) {
        rt1.push('?')
    } else {
        rt1
    };
    if rt2 == "dynamic"@ {
        if contains(text, "Future<"@) {
            bracket_type(text, "Future<"@)
        } else if contains(text, "List<"@) {
            bracket_type(text, "List<"@)
        } else {
            "dynamic"@
        }
    } else {
        rt2
    }
}

/// Finds the generic type `p...>` in `t`, as `bracket_type` describes.
fn bracket_type_of(t: &str, p: &str) -> (r: String)
    requires
        p@.len() > 0,
        contains(t@, p@),
    ensures
        r@ == bracket_type(t@, p@),
{
    proof {
        reveal_strlit(">");
    }
    let cs = str_chars(t);
    let n = cs.len();
    let ps = str_chars(p);
    let gt = str_chars(">");
    proof {
        lemma_find_contains(cs@, ps@);
    }
    let start = find_slice(cs.as_slice(), ps.as_slice()).unwrap();
    match find_at_or_after(cs.as_slice(), gt.as_slice(), start) {
        Some(e) => {
            proof {
                lemma_find_from(cs@, gt@, start as nat);
                assert(e + 1 <= n);
            }
            string_of(cs.as_slice(), start, e + 1)
        },
        None => String::from_str("dynamic"),
    }
}

/// Reads the children of a `nullable_type` into `st`.
fn scan_nullable_exec(cs: &Vec<SyntaxNode>, base: &mut String, args: &mut Vec<String>)
    ensures
        (final(base)@, texts(final(args)@)) == scan_nullable(cs@, old(base)@, texts(old(args)@)),
{
    let ghost b0 = base@;
    let ghost a0 = texts(args@);
    let mut i: usize = 0;
    assert(cs@.take(0) =~= Seq::<SyntaxNode>::empty());
    while i < cs.len()
        invariant
            i <= cs@.len(),
            (base@, texts(args@)) == scan_nullable(cs@.take(i as int), b0, a0),
        decreases cs.len() - i,
    {
        let c = &cs[i];
        proof {
            assert(cs@.take(i + 1).drop_last() =~= cs@.take(i as int));
            assert(cs@.take(i + 1).last() == *c);
        }
        if str_eq(c.kind.as_str(), "type_identifier") {
            *base = c.text.clone();
        } else if str_eq(c.kind.as_str(), "type_arguments") {
            let ghost before = args@;
            args.push(c.text.clone());
            assert(texts(args@) =~= texts(before).push(c.text@));
        }
        i += 1;
    }
    assert(cs@.take(cs@.len() as int) =~= cs@);
}

/// Finds the return type of a function signature, as `return_type_of` describes.
fn return_type_exec(node: &SyntaxNode) -> (r: String)
    ensures
        r@ == return_type_of(node.children@, node.text@),
{
    let cs = &node.children;
    let mut base = String::from_str("dynamic");
    let mut args: Vec<String> = Vec::new();
    let mut nullable = false;
    let mut ret = String::from_str("dynamic");
    let mut done = false;
    let mut i: usize = 0;
    assert(cs@.take(0) =~= Seq::<SyntaxNode>::empty());
    assert(texts(args@) =~= Seq::<Seq<char>>::empty());
    while i < cs.len() && !done
        invariant
            i <= cs@.len(),
            ({
                let st = scan_type(cs@.take(i as int));
                &&& base@ == st.base
                &&& texts(args@) == st.args
                &&& nullable == st.nullable
                &&& ret@ == st.ret
                &&& done == st.done
            }),
            done ==> forall|j: int| i <= j <= cs@.len() ==> #[trigger] scan_type(cs@.take(j)) == scan_type(
                cs@.take(i as int),
            ),
        decreases cs.len() - i,
    {
        let c = &cs[i];
        proof {
            assert(cs@.take(i + 1).drop_last() =~= cs@.take(i as int));
            assert(cs@.take(i + 1).last() == *c);
        }
        if str_eq(c.kind.as_str(), "nullable_type") {
            nullable = true;
            scan_nullable_exec(&c.children, &mut base, &mut args);
        } else if str_eq(c.kind.as_str(), "type_identifier") {
            base = c.text.clone();
        } else if str_eq(c.kind.as_str(), "type_arguments") {
            let ghost before = args@;
            args.push(c.text.clone());
            assert(texts(args@) =~= texts(before).push(c.text@));
        } else if str_eq(c.kind.as_str(), "function_type") {
            ret = c.text.clone();
            done = true;
        }
        i += 1;
        proof {
            if done {
                assert forall|j: int| i <= j <= cs@.len() implies #[trigger] scan_type(cs@.take(j)) == scan_type(
                    cs@.take(i as int),
                ) by {
                    lemma_scan_type_done(cs@, i as int, j);
                }
            }
        }
    }
    proof {
        if !done {
            assert(cs@.take(i as int) =~= cs@);
        }
        assert(cs@.take(cs@.len() as int) =~= cs@);
    }
    let mut concat = String::new();
    let mut k: usize = 0;
    assert(args@.take(0) =~= Seq::<String>::empty());
    while k < args.len()
        invariant
            k <= args@.len(),
            concat@ == concat_all(texts(args@.take(k as int))),
        decreases args.len() - k,
    {
        proof {
            assert(texts(args@.take(k + 1)).drop_last() =~= texts(args@.take(k as int)));
            assert(texts(args@.take(k + 1)).last() == args@[k as int]@);
        }
        concat.append(args[k].as_str());
        k += 1;
    }
    assert(args@.take(args@.len() as int) =~= args@);
    let not_dynamic = !str_eq(base.as_str(), "dynamic");
    let mut rt = if not_dynamic && args.len() > 0 {
        let mut t = base.clone();
        t.append(concat.as_str());
        t
    } else if not_dynamic {
        base
    } else {
        ret
    };
    if nullable && !str_ends_with(rt.as_str(), "?") {
        string_push(&mut rt, '?');
    }
    if str_eq(rt.as_str(), "dynamic") {
        proof {
            reveal_strlit("Future<");
            reveal_strlit("List<");
        }
        if str_contains(node.text.as_str(), "Future<") {
            bracket_type_of(node.text.as_str(), "Future<")
        } else if str_contains(node.text.as_str(), "List<") {
            bracket_type_of(node.text.as_str(), "List<")
        } else {
            String::from_str("dynamic")
        }
    } else {
        rt
    }
}

/// Once a function type has been read, reading more children changes nothing.
proof fn lemma_scan_type_done(cs: Seq<SyntaxNode>, i: int, j: int)
    requires
        0 <= i <= j <= cs.len(),
        scan_type(cs.take(i)).done,
    ensures
        scan_type(cs.take(j)) == scan_type(cs.take(i)),
    decreases j - i,
{
    if j > i {
        lemma_scan_type_done(cs, i, j - 1);
        assert(cs.take(j).drop_last() =~= cs.take(j - 1));
    }
}

// ---------------------------------------------------------------------------
// Parameters
// ---------------------------------------------------------------------------

/// The parameter declared by a `formal_parameter` node: its last type name
/// (trimmed; `dynamic` when there is none) with `?` added when the parameter's
/// text has a `?`, and its last identifier (`param` when there is none).
pub open spec fn param_of(p: SyntaxNode, named: bool) -> ParamModel {
    let ty0 = match last_of_kind(p.children@, "type_identifier"@) {
        Some(t) => trim(t),
        None => "dynamic"@,
    };
    let ty = if contains(p.text@, "?"@) && !ends_with(ty0, "?"@) {
        ty0.push('?')
    } else {
        ty0
    };
    let name = match last_of_kind(p.children@, "identifier"@) {
        Some(n) => n,
        None => "param"@,
    };
    ParamModel { name, ty, is_named: named }
}

/// The named parameters among the children `cs` of `optional_formal_parameters`.
pub open spec fn optional_params(cs: Seq<SyntaxNode>) -> Seq<ParamModel>
    decreases cs.len(),
{
    if cs.len() == 0 {
        Seq::empty()
    } else if cs.last().kind@ == "formal_parameter"@ {
        optional_params(cs.drop_last()).push(param_of(cs.last(), true))
    } else {
        optional_params(cs.drop_last())
    }
}

/// The parameters among the children `cs` of a `formal_parameter_list`.
pub open spec fn list_params(cs: Seq<SyntaxNode>) -> Seq<ParamModel>
    decreases cs.len(),
{
    if cs.len() == 0 {
        Seq::empty()
    } else {
        let prev = list_params(cs.drop_last());
        let c = cs.last();
        if c.kind@ == "formal_parameter"@ {
            prev.push(param_of(c, false))
        } else if c.kind@ == "optional_formal_parameters"@ {
            prev + optional_params(c.children@)
        } else {
            prev
        }
    }
}

/// The parameters of a function signature with the children `cs`.
pub open spec fn signature_params(cs: Seq<SyntaxNode>) -> Seq<ParamModel>
    decreases cs.len(),
{
    if cs.len() == 0 {
        Seq::empty()
    } else if cs.last().kind@ == "formal_parameter_list"@ {
        signature_params(cs.drop_last()) + list_params(cs.last().children@)
    } else {
        signature_params(cs.drop_last())
    }
}

/// Reads the parameter declared by a `formal_parameter` node.
fn param_exec(p: &SyntaxNode, named: bool) -> (r: DartField)
    ensures
        r@ == param_of(*p, named),
{
    let ty0 = match last_text_of_kind(&p.children, "type_identifier") {
        Some(t) => {
            let cs = str_chars(t.as_str());
            let (a, b) = trim_bounds(cs.as_slice(), 0, cs.len());
            assert(cs@.subrange(0, cs@.len() as int) =~= cs@);
            string_of(cs.as_slice(), a, b)
        },
        None => String::from_str("dynamic"),
    };
    let mut ty = ty0;
    if str_contains(p.text.as_str(), "?") && !str_ends_with(ty.as_str(), "?") {
        string_push(&mut ty, '?');
    }
    let name = match last_text_of_kind(&p.children, "identifier") {
        Some(n) => n,
        None => String::from_str("param"),
    };
    DartField { name, ty, is_named: named }
}

/// Appends the parameters of a function signature's children to `out`.
fn signature_params_exec(cs: &Vec<SyntaxNode>, out: &mut Vec<DartField>)
    ensures
        params_view(final(out)@) == params_view(old(out)@) + signature_params(cs@),
{
    let ghost start = params_view(out@);
    let mut i: usize = 0;
    assert(cs@.take(0) =~= Seq::<SyntaxNode>::empty());
    assert(start + Seq::<ParamModel>::empty() =~= start);
    while i < cs.len()
        invariant
            i <= cs@.len(),
            params_view(out@) == start + signature_params(cs@.take(i as int)),
        decreases cs.len() - i,
    {
        let c = &cs[i];
        proof {
            assert(cs@.take(i + 1).drop_last() =~= cs@.take(i as int));
            assert(cs@.take(i + 1).last() == *c);
        }
        if str_eq(c.kind.as_str(), "formal_parameter_list") {
            let ghost before = params_view(out@);
            let lc = &c.children;
            let mut j: usize = 0;
            assert(lc@.take(0) =~= Seq::<SyntaxNode>::empty());
            assert(before + Seq::<ParamModel>::empty() =~= before);
            while j < lc.len()
                invariant
                    j <= lc@.len(),
                    params_view(out@) == before + list_params(lc@.take(j as int)),
                decreases lc.len() - j,
            {
                let param = &lc[j];
                proof {
                    assert(lc@.take(j + 1).drop_last() =~= lc@.take(j as int));
                    assert(lc@.take(j + 1).last() == *param);
                }
                let ghost b2 = out@;
                if str_eq(param.kind.as_str(), "formal_parameter") {
                    let f = param_exec(param, false);
                    out.push(f);
                    assert(params_view(out@) =~= params_view(b2).push(f@));
                } else if str_eq(param.kind.as_str(), "optional_formal_parameters") {
                    let oc = &param.children;
                    let mut k: usize = 0;
                    assert(oc@.take(0) =~= Seq::<SyntaxNode>::empty());
                    assert(params_view(b2) + Seq::<ParamModel>::empty() =~= params_view(b2));
                    while k < oc.len()
                        invariant
                            k <= oc@.len(),
                            params_view(out@) == params_view(b2) + optional_params(oc@.take(k as int)),
                        decreases oc.len() - k,
                    {
                        let op = &oc[k];
                        proof {
                            assert(oc@.take(k + 1).drop_last() =~= oc@.take(k as int));
                            assert(oc@.take(k + 1).last() == *op);
                        }
                        if str_eq(op.kind.as_str(), "formal_parameter") {
                            let ghost b3 = out@;
                            let f = param_exec(op, true);
                            out.push(f);
                            assert(params_view(out@) =~= params_view(b3).push(f@));
                        }
                        k += 1;
                    }
                    assert(oc@.take(oc@.len() as int) =~= oc@);
                }
                j += 1;
            }
            assert(lc@.take(lc@.len() as int) =~= lc@);
        }
        i += 1;
    }
    assert(cs@.take(cs@.len() as int) =~= cs@);
}

// ---------------------------------------------------------------------------
// Functions
// ---------------------------------------------------------------------------

/// The function declared by the `function_signature` node `n`, whose siblings
/// before it are `prev`, in the file `file_path`.
pub open spec fn function_at(n: SyntaxNode, prev: Seq<SyntaxNode>, file_path: Seq<char>) -> FunctionModel {
    FunctionModel {
        name: match first_of_kind(n.children@, "identifier"@) {
            Some(t) => t,
            None => Seq::empty(),
        },
        return_type: return_type_of(n.children@, n.text@),
        parameters: signature_params(n.children@),
        annotations: annotations_before(prev),
        file_path,
    }
}

/// The functions declared in the tree `n` (whose siblings before it are
/// `prev`), in pre-order: `n` itself when it is a function signature, then those
/// of its children in order.
pub open spec fn functions_in(n: SyntaxNode, prev: Seq<SyntaxNode>, file_path: Seq<char>) -> Seq<FunctionModel>
    decreases n, 1nat, 0nat,
{
    let own = if n.kind@ == "function_signature"@ {
        seq![function_at(n, prev, file_path)]
    } else {
        Seq::empty()
    };
    own + functions_in_children(n, 0, file_path)
}

/// The functions declared in the children `i..` of `n`.
pub open spec fn functions_in_children(n: SyntaxNode, i: nat, file_path: Seq<char>) -> Seq<FunctionModel>
    decreases n, 0nat, n.children@.len() - i,
{
    if i >= n.children@.len() {
        Seq::empty()
    } else {
        proof {
            assert(decreases_to!(n => n.children));
            assert(decreases_to!(n.children => n.children@));
            assert(decreases_to!(n.children@ => n.children@[i as int]));
        }
        functions_in(n.children@[i as int], n.children@.take(i as int), file_path) + functions_in_children(
            n,
            i + 1,
            file_path,
        )
    }
}

/// The models of a sequence of functions.
pub open spec fn functions_view(v: Seq<DartFunction>) -> Seq<FunctionModel> {
    v.map_values(|f: DartFunction| f@)
}

/// Appends the functions of the tree `node`, whose siblings before it are
/// `siblings[..idx]`, as `functions_in` describes.
fn visit_functions(
    node: &SyntaxNode,
    siblings: &[SyntaxNode],
    idx: usize,
    file_path: &str,
    functions: &mut Vec<DartFunction>,
)
    requires
        idx <= siblings@.len(),
    ensures
        functions_view(final(functions)@) == functions_view(old(functions)@) + functions_in(
            *node,
            siblings@.take(idx as int),
            file_path@,
        ),
    decreases *node, 1nat, 0nat,
{
    let ghost before = functions_view(functions@);
    if str_eq(node.kind.as_str(), "function_signature") {
        let name = match first_text_of_kind(&node.children, "identifier") {
            Some(t) => t,
            None => String::new(),
        };
        let annotations = collect_annotations(siblings, idx);
        let return_type = return_type_exec(node);
        let mut parameters: Vec<DartField> = Vec::new();
        signature_params_exec(&node.children, &mut parameters);
        assert(params_view(parameters@) =~= Seq::<ParamModel>::empty() + signature_params(node.children@));
        let f = DartFunction { name, return_type, parameters, annotations, file_path: String::from_str(file_path) };
        let ghost b2 = functions@;
        functions.push(f);
        assert(functions_view(functions@) =~= functions_view(b2).push(f@));
        assert(f@ == function_at(*node, siblings@.take(idx as int), file_path@));
    }
    let ghost mid = functions_view(functions@);
    visit_children(node, 0, file_path, functions);
    assert(functions_view(functions@) =~= before + functions_in(*node, siblings@.take(idx as int), file_path@));
}

/// Appends the functions of the children `i..` of `node`.
fn visit_children(node: &SyntaxNode, i: usize, file_path: &str, functions: &mut Vec<DartFunction>)
    requires
        i <= node.children@.len(),
    ensures
        functions_view(final(functions)@) == functions_view(old(functions)@) + functions_in_children(
            *node,
            i as nat,
            file_path@,
        ),
    decreases *node, 0nat, node.children@.len() - i,
{
    if i >= node.children.len() {
        assert(functions_view(functions@) =~= functions_view(functions@) + Seq::<FunctionModel>::empty());
        return;
    }
    proof {
        assert(decreases_to!(*node => node.children));
        assert(decreases_to!(node.children => node.children@));
        assert(decreases_to!(node.children@ => node.children@[i as int]));
    }
    let ghost before = functions_view(functions@);
    visit_functions(&node.children[i], node.children.as_slice(), i, file_path, functions);
    let ghost mid = functions_view(functions@);
    visit_children(node, i + 1, file_path, functions);
    assert(functions_view(functions@) =~= before + functions_in_children(*node, i as nat, file_path@));
}

/// The functions declared in the syntax tree `root` of the Dart file at
/// `file_path`, in pre-order, as `functions_in` describes.
pub fn extract_functions_from_dart_source(root: &SyntaxNode, file_path: &str) -> (r: Vec<DartFunction>)
    ensures
        functions_view(r@) == functions_in(*root, Seq::empty(), file_path@),
{
    let mut functions: Vec<DartFunction> = Vec::new();
    let none: Vec<SyntaxNode> = Vec::new();
    visit_functions(root, none.as_slice(), 0, file_path, &mut functions);
    assert(none@.take(0) =~= Seq::<SyntaxNode>::empty());
    assert(functions_view(functions@) =~= functions_in(*root, Seq::empty(), file_path@));
    functions
}

// ---------------------------------------------------------------------------
// Fields of classes
// ---------------------------------------------------------------------------

/// The fields `fs` after reading each node of `cs` in order by `step`.
pub open spec fn fold_fields(
    fs: Seq<ParamModel>,
    cs: Seq<SyntaxNode>,
    step: spec_fn(Seq<ParamModel>, SyntaxNode) -> Seq<ParamModel>,
) -> Seq<ParamModel>
    decreases cs.len(),
{
    if cs.len() == 0 {
        fs
    } else {
        step(fold_fields(fs, cs.drop_last(), step), cs.last())
    }
}

/// One more node read by `fold_fields`.
pub proof fn lemma_fold_fields_step(
    fs: Seq<ParamModel>,
    cs: Seq<SyntaxNode>,
    i: int,
    step: spec_fn(Seq<ParamModel>, SyntaxNode) -> Seq<ParamModel>,
)
    requires
        0 <= i < cs.len(),
    ensures
        fold_fields(fs, cs.take(i + 1), step) == step(fold_fields(fs, cs.take(i), step), cs[i]),
{
    assert(cs.take(i + 1).drop_last() =~= cs.take(i));
}

/// The start and the end of a loop over the nodes `cs`.
pub proof fn lemma_fold_fields_ends(
    fs: Seq<ParamModel>,
    cs: Seq<SyntaxNode>,
    step: spec_fn(Seq<ParamModel>, SyntaxNode) -> Seq<ParamModel>,
)
    ensures
        fold_fields(fs, cs.take(0), step) == fs,
        cs.take(cs.len() as int) == cs,
{
    assert(cs.take(0) =~= Seq::<SyntaxNode>::empty());
    assert(cs.take(cs.len() as int) =~= cs);
}

/// `fs` has a field named `name`.
pub open spec fn has_name(fs: Seq<ParamModel>, name: Seq<char>) -> bool {
    exists|i: int| 0 <= i < fs.len() && #[trigger] fs[i].name == name
}

/// `fs` with `f` added, unless a field of its name is there already.
pub open spec fn add_unique(fs: Seq<ParamModel>, f: ParamModel) -> Seq<ParamModel> {
    if has_name(fs, f.name) {
        fs
    } else {
        fs.push(f)
    }
}

/// A type with `?` added when the declaration's text has a `?` and the type lacks it.
pub open spec fn with_question(ty: Seq<char>, text: Seq<char>) -> Seq<char> {
    if contains(text, "?"@) && !ends_with(ty, "?"@) {
        ty.push('?')
    } else {
        ty
    }
}

/// The type and the name found in the tree `n`: a direct child's type name (or
/// nullable type) or identifier is taken, the last one winning; a deeper one
/// only where none was found at a shallower level.
pub open spec fn type_and_name(n: SyntaxNode) -> (Option<Seq<char>>, Option<Seq<char>>)
    decreases n, 1nat, 0nat,
{
    type_and_name_upto(n, n.children@.len())
}

/// `type_and_name` after reading the first `i` children of `n`.
pub open spec fn type_and_name_upto(n: SyntaxNode, i: nat) -> (Option<Seq<char>>, Option<Seq<char>>)
    decreases n, 0nat, i,
{
    if i == 0 || i > n.children@.len() {
        (None, None)
    } else {
        let (ft, fname) = type_and_name_upto(n, (i - 1) as nat);
        let c = n.children@[i - 1];
        if c.kind@ == "type_identifier"@ {
            (
                if trim(c.text@).len() > 0 {
                    Some(trim(c.text@))
                } else {
                    ft
                },
                fname,
            )
        } else if c.kind@ == "nullable_type"@ {
            (
                match last_of_kind(c.children@, "type_identifier"@) {
                    Some(t) => Some(t + "?"@),
                    None => ft,
                },
                fname,
            )
        } else if c.kind@ == "identifier"@ {
            (ft, Some(c.text@))
        } else {
            proof {
                assert(decreases_to!(n => n.children));
                assert(decreases_to!(n.children => n.children@));
                assert(decreases_to!(n.children@ => n.children@[i - 1]));
            }
            let (ct, cn) = type_and_name(c);
            (
                if ft is None {
                    ct
                } else {
                    ft
                },
                if fname is None {
                    cn
                } else {
                    fname
                },
            )
        }
    }
}

/// The field of a `formal_parameter` node added to `fs`, when it has a type and
/// a name and no field of its name is there.
pub open spec fn from_formal_parameter(fs: Seq<ParamModel>, p: SyntaxNode) -> Seq<ParamModel> {
    match type_and_name(p) {
        (Some(ty), Some(name)) => add_unique(fs, ParamModel { name, ty: with_question(ty, p.text@), is_named: false }),
        _ => fs,
    }
}

/// The last type name (trimmed) and identifier among the children `cs` of a
/// `typed_identifier`, after `ty` and `name`.
pub open spec fn scan_typed(cs: Seq<SyntaxNode>, ty: Seq<char>, name: Seq<char>) -> (Seq<char>, Seq<char>)
    decreases cs.len(),
{
    if cs.len() == 0 {
        (ty, name)
    } else {
        let (t, n) = scan_typed(cs.drop_last(), ty, name);
        let c = cs.last();
        if c.kind@ == "type_identifier"@ {
            (trim(c.text@), n)
        } else if c.kind@ == "identifier"@ {
            (t, c.text@)
        } else {
            (t, n)
        }
    }
}

/// The type name and identifier of the `typed_identifier` children of `cs`.
pub open spec fn scan_default_param(cs: Seq<SyntaxNode>) -> (Seq<char>, Seq<char>)
    decreases cs.len(),
{
    if cs.len() == 0 {
        (Seq::empty(), Seq::empty())
    } else {
        let (t, n) = scan_default_param(cs.drop_last());
        if cs.last().kind@ == "typed_identifier"@ {
            scan_typed(cs.last().children@, t, n)
        } else {
            (t, n)
        }
    }
}

/// A field with this type and name added to `fs` when both are non-empty.
pub open spec fn add_typed(fs: Seq<ParamModel>, tn: (Seq<char>, Seq<char>)) -> Seq<ParamModel> {
    if tn.1.len() > 0 && tn.0.len() > 0 {
        fs.push(ParamModel { name: tn.1, ty: tn.0, is_named: false })
    } else {
        fs
    }
}

/// The field of a `formal_parameter_list` child added to `fs`.
pub open spec fn param_list_step(fs: Seq<ParamModel>, p: SyntaxNode) -> Seq<ParamModel> {
    if p.kind@ == "formal_parameter"@ {
        from_formal_parameter(fs, p)
    } else if p.kind@ == "default_formal_parameter"@ {
        add_typed(fs, scan_default_param(p.children@))
    } else if p.kind@ == "typed_identifier"@ {
        add_typed(fs, scan_typed(p.children@, Seq::empty(), Seq::empty()))
    } else {
        fs
    }
}

/// `param_list_step` as a function.
pub open spec fn param_list_step_fn() -> spec_fn(Seq<ParamModel>, SyntaxNode) -> Seq<ParamModel> {
    |fs: Seq<ParamModel>, p: SyntaxNode| param_list_step(fs, p)
}

/// The fields of the parameter lists among the children of a constructor signature.
pub open spec fn signature_step(fs: Seq<ParamModel>, c: SyntaxNode) -> Seq<ParamModel> {
    if c.kind@ == "formal_parameter_list"@ {
        fold_fields(fs, c.children@, param_list_step_fn())
    } else {
        fs
    }
}

/// `signature_step` as a function.
pub open spec fn signature_step_fn() -> spec_fn(Seq<ParamModel>, SyntaxNode) -> Seq<ParamModel> {
    |fs: Seq<ParamModel>, c: SyntaxNode| signature_step(fs, c)
}

/// The type of a declaration: its last non-empty type name, trimmed.
pub open spec fn declaration_type(cs: Seq<SyntaxNode>) -> Option<Seq<char>>
    decreases cs.len(),
{
    if cs.len() == 0 {
        None
    } else if cs.last().kind@ == "type_identifier"@ && trim(cs.last().text@).len() > 0 {
        Some(trim(cs.last().text@))
    } else {
        declaration_type(cs.drop_last())
    }
}

/// The texts of the nodes of kind `k` among `cs`, in order.
pub open spec fn texts_of_kind(cs: Seq<SyntaxNode>, k: Seq<char>) -> Seq<Seq<char>>
    decreases cs.len(),
{
    if cs.len() == 0 {
        Seq::empty()
    } else if cs.last().kind@ == k {
        texts_of_kind(cs.drop_last(), k).push(cs.last().text@)
    } else {
        texts_of_kind(cs.drop_last(), k)
    }
}

/// The identifiers of the `initialized_identifier` children of `cs`.
pub open spec fn initialized_names(cs: Seq<SyntaxNode>) -> Seq<Seq<char>>
    decreases cs.len(),
{
    if cs.len() == 0 {
        Seq::empty()
    } else if cs.last().kind@ == "initialized_identifier"@ {
        initialized_names(cs.drop_last()) + texts_of_kind(cs.last().children@, "identifier"@)
    } else {
        initialized_names(cs.drop_last())
    }
}

/// The names declared by the `initialized_identifier_list` children of `cs`.
pub open spec fn declared_names(cs: Seq<SyntaxNode>) -> Seq<Seq<char>>
    decreases cs.len(),
{
    if cs.len() == 0 {
        Seq::empty()
    } else if cs.last().kind@ == "initialized_identifier_list"@ {
        declared_names(cs.drop_last()) + initialized_names(cs.last().children@)
    } else {
        declared_names(cs.drop_last())
    }
}

/// `fs` with a field of type `ty` for each of `names` not there yet.
pub open spec fn add_names(fs: Seq<ParamModel>, names: Seq<Seq<char>>, ty: Seq<char>) -> Seq<ParamModel>
    decreases names.len(),
{
    if names.len() == 0 {
        fs
    } else {
        add_unique(add_names(fs, names.drop_last(), ty), ParamModel { name: names.last(), ty, is_named: false })
    }
}

/// The fields of the formal parameters among `cs`, and of the formal parameters
/// inside the `optional_formal_parameters` among them.
pub open spec fn factory_param_step(fs: Seq<ParamModel>, p: SyntaxNode) -> Seq<ParamModel> {
    if p.kind@ == "formal_parameter"@ {
        from_formal_parameter(fs, p)
    } else if p.kind@ == "optional_formal_parameters"@ {
        fold_fields(fs, p.children@, formal_only_fn())
    } else {
        fs
    }
}

/// Reads a node only when it is a formal parameter.
pub open spec fn formal_only_fn() -> spec_fn(Seq<ParamModel>, SyntaxNode) -> Seq<ParamModel> {
    |fs: Seq<ParamModel>, p: SyntaxNode| if p.kind@ == "formal_parameter"@ {
        from_formal_parameter(fs, p)
    } else {
        fs
    }
}

/// `factory_param_step` as a function.
pub open spec fn factory_param_step_fn() -> spec_fn(Seq<ParamModel>, SyntaxNode) -> Seq<ParamModel> {
    |fs: Seq<ParamModel>, p: SyntaxNode| factory_param_step(fs, p)
}

/// The fields of the parameter lists of a redirecting factory constructor.
pub open spec fn factory_step(fs: Seq<ParamModel>, c: SyntaxNode) -> Seq<ParamModel> {
    if c.kind@ == "formal_parameter_list"@ {
        fold_fields(fs, c.children@, factory_param_step_fn())
    } else {
        fs
    }
}

/// The fields of the redirecting factory constructors among the children of a declaration.
pub open spec fn declaration_factory_step(fs: Seq<ParamModel>, c: SyntaxNode) -> Seq<ParamModel> {
    if c.kind@ == "redirecting_factory_constructor_signature"@ {
        fold_fields(fs, c.children@, factory_step_fn())
    } else {
        fs
    }
}

/// `factory_step` as a function.
pub open spec fn factory_step_fn() -> spec_fn(Seq<ParamModel>, SyntaxNode) -> Seq<ParamModel> {
    |fs: Seq<ParamModel>, c: SyntaxNode| factory_step(fs, c)
}

/// `declaration_factory_step` as a function.
pub open spec fn declaration_factory_step_fn() -> spec_fn(Seq<ParamModel>, SyntaxNode) -> Seq<ParamModel> {
    |fs: Seq<ParamModel>, c: SyntaxNode| declaration_factory_step(fs, c)
}

/// The fields of a `declaration` node added to `fs`: the declared names with the
/// declared type, then the parameters of its redirecting factory constructors.
pub open spec fn from_declaration(fs: Seq<ParamModel>, d: SyntaxNode) -> Seq<ParamModel> {
    let with_names = match declaration_type(d.children@) {
        Some(ty) => add_names(fs, declared_names(d.children@), with_question(ty, d.text@)),
        None => fs,
    };
    fold_fields(with_names, d.children@, declaration_factory_step_fn())
}

/// The fields of a `field_declaration` node added to `fs`: its identifiers with its
/// last type name.
pub open spec fn from_field_declaration(fs: Seq<ParamModel>, d: SyntaxNode) -> Seq<ParamModel> {
    match last_of_kind(d.children@, "type_identifier"@) {
        Some(ty) => add_names(fs, texts_of_kind(d.children@, "identifier"@), with_question(ty, d.text@)),
        None => fs,
    }
}

/// The fields of a constructor declaration: those of its constructor signatures.
pub open spec fn constructor_declaration_step(fs: Seq<ParamModel>, c: SyntaxNode) -> Seq<ParamModel> {
    if c.kind@ == "constructor_signature"@ {
        fold_fields(fs, c.children@, signature_step_fn())
    } else {
        fs
    }
}

/// `constructor_declaration_step` as a function.
pub open spec fn constructor_declaration_step_fn() -> spec_fn(Seq<ParamModel>, SyntaxNode) -> Seq<ParamModel> {
    |fs: Seq<ParamModel>, c: SyntaxNode| constructor_declaration_step(fs, c)
}

/// The fields of one member of a class body: declarations and field declarations
/// always; constructors only when the class is not a union.
pub open spec fn body_item_step(fs: Seq<ParamModel>, item: SyntaxNode, union: bool) -> Seq<ParamModel> {
    let k = item.kind@;
    if k == "declaration"@ {
        from_declaration(fs, item)
    } else if k == "field_declaration"@ {
        from_field_declaration(fs, item)
    } else if union {
        fs
    } else if k == "constructor_signature"@ || k == "redirecting_factory_constructor_signature"@ || k
        == "const_constructor_signature"@ {
        fold_fields(fs, item.children@, signature_step_fn())
    } else if k == "constructor_declaration"@ {
        fold_fields(fs, item.children@, constructor_declaration_step_fn())
    } else {
        fs
    }
}

/// `body_item_step` as a function.
pub open spec fn body_item_step_fn(union: bool) -> spec_fn(Seq<ParamModel>, SyntaxNode) -> Seq<ParamModel> {
    |fs: Seq<ParamModel>, item: SyntaxNode| body_item_step(fs, item, union)
}

/// The fields of the class bodies among the children of a class definition.
pub open spec fn class_member_step(fs: Seq<ParamModel>, m: SyntaxNode, union: bool) -> Seq<ParamModel> {
    if m.kind@ == "class_body"@ {
        fold_fields(fs, m.children@, body_item_step_fn(union))
    } else {
        fs
    }
}

/// `class_member_step` as a function.
pub open spec fn class_member_step_fn(union: bool) -> spec_fn(Seq<ParamModel>, SyntaxNode) -> Seq<ParamModel> {
    |fs: Seq<ParamModel>, m: SyntaxNode| class_member_step(fs, m, union)
}

/// How many nodes of kind `k` are among `cs`.
pub open spec fn count_kind(cs: Seq<SyntaxNode>, k: Seq<char>) -> nat
    decreases cs.len(),
{
    if cs.len() == 0 {
        0
    } else {
        count_kind(cs.drop_last(), k) + if cs.last().kind@ == k {
            1nat
        } else {
            0nat
        }
    }
}

/// How many redirecting factory constructors the class bodies among `cs` hold.
pub open spec fn factory_count(cs: Seq<SyntaxNode>) -> nat
    decreases cs.len(),
{
    if cs.len() == 0 {
        0
    } else {
        factory_count(cs.drop_last()) + if cs.last().kind@ == "class_body"@ {
            count_kind(cs.last().children@, "redirecting_factory_constructor_signature"@)
        } else {
            0nat
        }
    }
}

/// The name of a class definition: its first identifier, or the empty text.
pub open spec fn class_name_of(c: SyntaxNode) -> Seq<char> {
    match first_of_kind(c.children@, "identifier"@) {
        Some(t) => t,
        None => Seq::empty(),
    }
}

/// The fields of the class definition `c` added to `fs`, when it is the class
/// `target`; a class with more than one redirecting factory constructor is a
/// union, whose constructors are not read.
pub open spec fn class_fields_step(fs: Seq<ParamModel>, c: SyntaxNode, target: Seq<char>) -> Seq<ParamModel> {
    if c.kind@ == "class_definition"@ && class_name_of(c) == target {
        fold_fields(fs, c.children@, class_member_step_fn(factory_count(c.children@) > 1))
    } else {
        fs
    }
}

/// `class_fields_step` as a function.
pub open spec fn class_fields_step_fn(target: Seq<char>) -> spec_fn(Seq<ParamModel>, SyntaxNode) -> Seq<ParamModel> {
    |fs: Seq<ParamModel>, c: SyntaxNode| class_fields_step(fs, c, target)
}

/// The fields of the class `target` in the syntax tree `root`.
pub open spec fn tree_fields(root: SyntaxNode, target: Seq<char>) -> Seq<ParamModel> {
    fold_fields(Seq::empty(), root.children@, class_fields_step_fn(target))
}

/// The texts of an optional pair of strings.
pub open spec fn opt_texts(r: (Option<String>, Option<String>)) -> (Option<Seq<char>>, Option<Seq<char>>) {
    (opt_text_of(r.0), opt_text_of(r.1))
}

/// The text of an optional string.
pub open spec fn opt_text_of(o: Option<String>) -> Option<Seq<char>> {
    match o {
        Some(s) => Some(s@),
        None => None,
    }
}

/// Whether some field of `fields` is named `name`.
fn has_field_named(fields: &Vec<DartField>, name: &str) -> (r: bool)
    ensures
        r == has_name(params_view(fields@), name@),
{
    let mut i: usize = 0;
    while i < fields.len()
        invariant
            i <= fields@.len(),
            forall|j: int| 0 <= j < i ==> #[trigger] params_view(fields@)[j].name != name@,
        decreases fields.len() - i,
    {
        assert(params_view(fields@)[i as int] == fields@[i as int]@);
        if str_eq(fields[i].name.as_str(), name) {
            assert(params_view(fields@)[i as int].name == name@);
            return true;
        }
        i += 1;
    }
    false
}

/// Adds `f` to `fields` unless a field of its name is there.
fn push_unique(fields: &mut Vec<DartField>, f: DartField)
    ensures
        params_view(final(fields)@) == add_unique(params_view(old(fields)@), f@),
{
    if !has_field_named(fields, f.name.as_str()) {
        let ghost before = fields@;
        fields.push(f);
        assert(params_view(fields@) =~= params_view(before).push(f@));
    }
}

/// Adds `?` to `ty` as `with_question` describes.
fn with_question_exec(ty: String, text: &str) -> (r: String)
    ensures
        r@ == with_question(ty@, text@),
{
    let mut t = ty;
    if str_contains(text, "?") && !str_ends_with(t.as_str(), "?") {
        string_push(&mut t, '?');
    }
    t
}

/// The trimmed text of `s`.
fn trimmed(s: &str) -> (r: String)
    ensures
        r@ == trim(s@),
{
    let cs = str_chars(s);
    let (a, b) = trim_bounds(cs.as_slice(), 0, cs.len());
    assert(cs@.subrange(0, cs@.len() as int) =~= cs@);
    string_of(cs.as_slice(), a, b)
}

/// Finds the type and the name in the tree `n`, as `type_and_name` describes.
fn type_and_name_exec(n: &SyntaxNode) -> (r: (Option<String>, Option<String>))
    ensures
        opt_texts(r) == type_and_name(*n),
    decreases *n, 1nat, 0nat,
{
    let cs = &n.children;
    let mut ft: Option<String> = None;
    let mut fname: Option<String> = None;
    let mut i: usize = 0;
    while i < cs.len()
        invariant
            i <= cs@.len(),
            cs@ == n.children@,
            opt_texts((ft, fname)) == type_and_name_upto(*n, i as nat),
        decreases cs.len() - i,
    {
        let c = &cs[i];
        assert(n.children@[i as int] == *c);
        if str_eq(c.kind.as_str(), "type_identifier") {
            let tt = trimmed(c.text.as_str());
            if tt.unicode_len() > 0 {
                ft = Some(tt);
            }
        } else if str_eq(c.kind.as_str(), "nullable_type") {
            match last_text_of_kind(&c.children, "type_identifier") {
                Some(t) => {
                    let mut q = t;
                    q.append("?");
                    ft = Some(q);
                },
                None => {},
            }
        } else if str_eq(c.kind.as_str(), "identifier") {
            fname = Some(c.text.clone());
        } else {
            proof {
                assert(decreases_to!(*n => n.children));
                assert(decreases_to!(n.children => n.children@));
                assert(decreases_to!(n.children@ => n.children@[i as int]));
            }
            let (ct, cn) = type_and_name_exec(c);
            if ft.is_none() {
                ft = ct;
            }
            if fname.is_none() {
                fname = cn;
            }
        }
        i += 1;
    }
    (ft, fname)
}

/// Adds the field of a `formal_parameter` node, as `from_formal_parameter` describes.
fn from_formal_parameter_exec(fields: &mut Vec<DartField>, p: &SyntaxNode)
    ensures
        params_view(final(fields)@) == from_formal_parameter(params_view(old(fields)@), *p),
{
    let (ty, name) = type_and_name_exec(p);
    match (ty, name) {
        (Some(ty), Some(name)) => {
            let ty = with_question_exec(ty, p.text.as_str());
            push_unique(fields, DartField { name, ty, is_named: false });
        },
        _ => {},
    }
}

/// Reads the children of a `typed_identifier`, as `scan_typed` describes.
fn scan_typed_exec(cs: &Vec<SyntaxNode>, ty: &mut String, name: &mut String)
    ensures
        (final(ty)@, final(name)@) == scan_typed(cs@, old(ty)@, old(name)@),
{
    let ghost t0 = ty@;
    let ghost n0 = name@;
    let mut i: usize = 0;
    assert(cs@.take(0) =~= Seq::<SyntaxNode>::empty());
    while i < cs.len()
        invariant
            i <= cs@.len(),
            (ty@, name@) == scan_typed(cs@.take(i as int), t0, n0),
        decreases cs.len() - i,
    {
        let c = &cs[i];
        proof {
            assert(cs@.take(i + 1).drop_last() =~= cs@.take(i as int));
            assert(cs@.take(i + 1).last() == *c);
        }
        if str_eq(c.kind.as_str(), "type_identifier") {
            *ty = trimmed(c.text.as_str());
        } else if str_eq(c.kind.as_str(), "identifier") {
            *name = c.text.clone();
        }
        i += 1;
    }
    assert(cs@.take(cs@.len() as int) =~= cs@);
}

/// Adds a field with this type and name when both are non-empty.
fn add_typed_exec(fields: &mut Vec<DartField>, ty: String, name: String)
    ensures
        params_view(final(fields)@) == add_typed(params_view(old(fields)@), (ty@, name@)),
{
    if name.unicode_len() > 0 && ty.unicode_len() > 0 {
        let ghost before = fields@;
        let f = DartField { name, ty, is_named: false };
        fields.push(f);
        assert(params_view(fields@) =~= params_view(before).push(f@));
    }
}

/// Adds the field of a parameter list entry, as `param_list_step` describes.
fn param_list_step_exec(fields: &mut Vec<DartField>, p: &SyntaxNode)
    ensures
        params_view(final(fields)@) == param_list_step(params_view(old(fields)@), *p),
{
    if str_eq(p.kind.as_str(), "formal_parameter") {
        from_formal_parameter_exec(fields, p);
    } else if str_eq(p.kind.as_str(), "default_formal_parameter") {
        let mut ty = String::new();
        let mut name = String::new();
        let cs = &p.children;
        let mut i: usize = 0;
        assert(cs@.take(0) =~= Seq::<SyntaxNode>::empty());
        while i < cs.len()
            invariant
                i <= cs@.len(),
                (ty@, name@) == scan_default_param(cs@.take(i as int)),
            decreases cs.len() - i,
        {
            let c = &cs[i];
            proof {
                assert(cs@.take(i + 1).drop_last() =~= cs@.take(i as int));
                assert(cs@.take(i + 1).last() == *c);
            }
            if str_eq(c.kind.as_str(), "typed_identifier") {
                scan_typed_exec(&c.children, &mut ty, &mut name);
            }
            i += 1;
        }
        assert(cs@.take(cs@.len() as int) =~= cs@);
        add_typed_exec(fields, ty, name);
    } else if str_eq(p.kind.as_str(), "typed_identifier") {
        let mut ty = String::new();
        let mut name = String::new();
        scan_typed_exec(&p.children, &mut ty, &mut name);
        add_typed_exec(fields, ty, name);
    }
}

/// Whether the node is of the kind `k`.
fn is_kind(n: &SyntaxNode, k: &str) -> (r: bool)
    ensures
        r == (n.kind@ == k@),
{
    str_eq(n.kind.as_str(), k)
}

/// Adds the fields of the entries of a parameter list.
fn param_list_exec(fields: &mut Vec<DartField>, cs: &Vec<SyntaxNode>)
    ensures
        params_view(final(fields)@) == fold_fields(params_view(old(fields)@), cs@, param_list_step_fn()),
{
    let ghost start = params_view(fields@);
    proof {
        lemma_fold_fields_ends(start, cs@, param_list_step_fn());
    }
    let mut i: usize = 0;
    while i < cs.len()
        invariant
            i <= cs@.len(),
            params_view(fields@) == fold_fields(start, cs@.take(i as int), param_list_step_fn()),
        decreases cs.len() - i,
    {
        proof {
            lemma_fold_fields_step(start, cs@, i as int, param_list_step_fn());
        }
        param_list_step_exec(fields, &cs[i]);
        i += 1;
    }
}

/// Adds the fields of the parameter lists among a signature's children.
fn signature_exec(fields: &mut Vec<DartField>, cs: &Vec<SyntaxNode>)
    ensures
        params_view(final(fields)@) == fold_fields(params_view(old(fields)@), cs@, signature_step_fn()),
{
    let ghost start = params_view(fields@);
    proof {
        lemma_fold_fields_ends(start, cs@, signature_step_fn());
    }
    let mut i: usize = 0;
    while i < cs.len()
        invariant
            i <= cs@.len(),
            params_view(fields@) == fold_fields(start, cs@.take(i as int), signature_step_fn()),
        decreases cs.len() - i,
    {
        proof {
            lemma_fold_fields_step(start, cs@, i as int, signature_step_fn());
        }
        if is_kind(&cs[i], "formal_parameter_list") {
            param_list_exec(fields, &cs[i].children);
        }
        i += 1;
    }
}

/// Adds the fields of the formal parameters among `cs`.
fn formal_only_exec(fields: &mut Vec<DartField>, cs: &Vec<SyntaxNode>)
    ensures
        params_view(final(fields)@) == fold_fields(params_view(old(fields)@), cs@, formal_only_fn()),
{
    let ghost start = params_view(fields@);
    proof {
        lemma_fold_fields_ends(start, cs@, formal_only_fn());
    }
    let mut i: usize = 0;
    while i < cs.len()
        invariant
            i <= cs@.len(),
            params_view(fields@) == fold_fields(start, cs@.take(i as int), formal_only_fn()),
        decreases cs.len() - i,
    {
        proof {
            lemma_fold_fields_step(start, cs@, i as int, formal_only_fn());
        }
        if is_kind(&cs[i], "formal_parameter") {
            from_formal_parameter_exec(fields, &cs[i]);
        }
        i += 1;
    }
}

/// Adds the fields of a redirecting factory constructor's parameter list.
fn factory_params_exec(fields: &mut Vec<DartField>, cs: &Vec<SyntaxNode>)
    ensures
        params_view(final(fields)@) == fold_fields(params_view(old(fields)@), cs@, factory_param_step_fn()),
{
    let ghost start = params_view(fields@);
    proof {
        lemma_fold_fields_ends(start, cs@, factory_param_step_fn());
    }
    let mut i: usize = 0;
    while i < cs.len()
        invariant
            i <= cs@.len(),
            params_view(fields@) == fold_fields(start, cs@.take(i as int), factory_param_step_fn()),
        decreases cs.len() - i,
    {
        proof {
            lemma_fold_fields_step(start, cs@, i as int, factory_param_step_fn());
        }
        if is_kind(&cs[i], "formal_parameter") {
            from_formal_parameter_exec(fields, &cs[i]);
        } else if is_kind(&cs[i], "optional_formal_parameters") {
            formal_only_exec(fields, &cs[i].children);
        }
        i += 1;
    }
}

/// Adds the fields of the parameter lists of a redirecting factory constructor.
fn factory_exec(fields: &mut Vec<DartField>, cs: &Vec<SyntaxNode>)
    ensures
        params_view(final(fields)@) == fold_fields(params_view(old(fields)@), cs@, factory_step_fn()),
{
    let ghost start = params_view(fields@);
    proof {
        lemma_fold_fields_ends(start, cs@, factory_step_fn());
    }
    let mut i: usize = 0;
    while i < cs.len()
        invariant
            i <= cs@.len(),
            params_view(fields@) == fold_fields(start, cs@.take(i as int), factory_step_fn()),
        decreases cs.len() - i,
    {
        proof {
            lemma_fold_fields_step(start, cs@, i as int, factory_step_fn());
        }
        if is_kind(&cs[i], "formal_parameter_list") {
            factory_params_exec(fields, &cs[i].children);
        }
        i += 1;
    }
}

/// Adds the fields of the redirecting factory constructors among a declaration's children.
fn declaration_factories_exec(fields: &mut Vec<DartField>, cs: &Vec<SyntaxNode>)
    ensures
        params_view(final(fields)@) == fold_fields(params_view(old(fields)@), cs@, declaration_factory_step_fn()),
{
    let ghost start = params_view(fields@);
    proof {
        lemma_fold_fields_ends(start, cs@, declaration_factory_step_fn());
    }
    let mut i: usize = 0;
    while i < cs.len()
        invariant
            i <= cs@.len(),
            params_view(fields@) == fold_fields(start, cs@.take(i as int), declaration_factory_step_fn()),
        decreases cs.len() - i,
    {
        proof {
            lemma_fold_fields_step(start, cs@, i as int, declaration_factory_step_fn());
        }
        if is_kind(&cs[i], "redirecting_factory_constructor_signature") {
            factory_exec(fields, &cs[i].children);
        }
        i += 1;
    }
}

/// Adds the fields of the constructor signatures among a constructor declaration's children.
fn constructor_declaration_exec(fields: &mut Vec<DartField>, cs: &Vec<SyntaxNode>)
    ensures
        params_view(final(fields)@) == fold_fields(params_view(old(fields)@), cs@, constructor_declaration_step_fn()),
{
    let ghost start = params_view(fields@);
    proof {
        lemma_fold_fields_ends(start, cs@, constructor_declaration_step_fn());
    }
    let mut i: usize = 0;
    while i < cs.len()
        invariant
            i <= cs@.len(),
            params_view(fields@) == fold_fields(start, cs@.take(i as int), constructor_declaration_step_fn()),
        decreases cs.len() - i,
    {
        proof {
            lemma_fold_fields_step(start, cs@, i as int, constructor_declaration_step_fn());
        }
        if is_kind(&cs[i], "constructor_signature") {
            signature_exec(fields, &cs[i].children);
        }
        i += 1;
    }
}


/// The type of a declaration, as `declaration_type` describes.
fn declaration_type_exec(cs: &Vec<SyntaxNode>) -> (r: Option<String>)
    ensures
        opt_text_of(r) == declaration_type(cs@),
{
    let mut i: usize = cs.len();
    assert(cs@.take(i as int) =~= cs@);
    while i > 0
        invariant
            i <= cs@.len(),
            declaration_type(cs@.take(i as int)) == declaration_type(cs@),
        decreases i,
    {
        proof {
            assert(cs@.take(i as int).drop_last() =~= cs@.take(i - 1));
            assert(cs@.take(i as int).last() == cs@[i - 1]);
        }
        if is_kind(&cs[i - 1], "type_identifier") {
            let t = trimmed(cs[i - 1].text.as_str());
            if t.unicode_len() > 0 {
                return Some(t);
            }
        }
        i -= 1;
    }
    None
}

/// Appends the texts of the nodes of kind `k` among `cs` to `out`.
fn push_texts_of_kind(out: &mut Vec<String>, cs: &Vec<SyntaxNode>, k: &str)
    ensures
        texts(final(out)@) == texts(old(out)@) + texts_of_kind(cs@, k@),
{
    let ghost start = texts(out@);
    let mut i: usize = 0;
    assert(cs@.take(0) =~= Seq::<SyntaxNode>::empty());
    assert(start + Seq::<Seq<char>>::empty() =~= start);
    while i < cs.len()
        invariant
            i <= cs@.len(),
            texts(out@) == start + texts_of_kind(cs@.take(i as int), k@),
        decreases cs.len() - i,
    {
        proof {
            assert(cs@.take(i + 1).drop_last() =~= cs@.take(i as int));
            assert(cs@.take(i + 1).last() == cs@[i as int]);
        }
        if is_kind(&cs[i], k) {
            let ghost before = out@;
            out.push(cs[i].text.clone());
            assert(texts(out@) =~= texts(before).push(cs@[i as int].text@));
        }
        i += 1;
    }
    assert(cs@.take(cs@.len() as int) =~= cs@);
}

/// The names declared by the `initialized_identifier_list` children of `cs`.
fn declared_names_exec(cs: &Vec<SyntaxNode>) -> (r: Vec<String>)
    ensures
        texts(r@) == declared_names(cs@),
{
    let mut out: Vec<String> = Vec::new();
    let mut i: usize = 0;
    assert(cs@.take(0) =~= Seq::<SyntaxNode>::empty());
    assert(texts(out@) =~= Seq::<Seq<char>>::empty());
    while i < cs.len()
        invariant
            i <= cs@.len(),
            texts(out@) == declared_names(cs@.take(i as int)),
        decreases cs.len() - i,
    {
        proof {
            assert(cs@.take(i + 1).drop_last() =~= cs@.take(i as int));
            assert(cs@.take(i + 1).last() == cs@[i as int]);
        }
        if is_kind(&cs[i], "initialized_identifier_list") {
            let inner = &cs[i].children;
            let ghost before = texts(out@);
            let mut j: usize = 0;
            assert(inner@.take(0) =~= Seq::<SyntaxNode>::empty());
            assert(before + Seq::<Seq<char>>::empty() =~= before);
            while j < inner.len()
                invariant
                    j <= inner@.len(),
                    texts(out@) == before + initialized_names(inner@.take(j as int)),
                decreases inner.len() - j,
            {
                proof {
                    assert(inner@.take(j + 1).drop_last() =~= inner@.take(j as int));
                    assert(inner@.take(j + 1).last() == inner@[j as int]);
                }
                if is_kind(&inner[j], "initialized_identifier") {
                    let ghost b2 = texts(out@);
                    push_texts_of_kind(&mut out, &inner[j].children, "identifier");
                    assert(b2 + texts_of_kind(inner@[j as int].children@, "identifier"@) == before
                        + initialized_names(inner@.take(j + 1))) by {
                        assert(before + initialized_names(inner@.take(j as int)) + texts_of_kind(
                            inner@[j as int].children@,
                            "identifier"@,
                        ) =~= before + (initialized_names(inner@.take(j as int)) + texts_of_kind(
                            inner@[j as int].children@,
                            "identifier"@,
                        )));
                    }
                }
                j += 1;
            }
            assert(inner@.take(inner@.len() as int) =~= inner@);
            assert(before + initialized_names(inner@) =~= declared_names(cs@.take(i as int)) + initialized_names(
                inner@,
            ));
        }
        i += 1;
    }
    assert(cs@.take(cs@.len() as int) =~= cs@);
    out
}

/// Adds a field of type `ty` for each of `names` not there yet.
fn add_names_exec(fields: &mut Vec<DartField>, names: &Vec<String>, ty: &str)
    ensures
        params_view(final(fields)@) == add_names(params_view(old(fields)@), texts(names@), ty@),
{
    let ghost start = params_view(fields@);
    let ghost ns = texts(names@);
    let mut i: usize = 0;
    assert(ns.take(0) =~= Seq::<Seq<char>>::empty());
    while i < names.len()
        invariant
            i <= names@.len(),
            ns == texts(names@),
            params_view(fields@) == add_names(start, ns.take(i as int), ty@),
        decreases names.len() - i,
    {
        proof {
            assert(ns.take(i + 1).drop_last() =~= ns.take(i as int));
            assert(ns.take(i + 1).last() == names@[i as int]@);
        }
        push_unique(fields, DartField { name: names[i].clone(), ty: String::from_str(ty), is_named: false });
        i += 1;
    }
    assert(ns.take(names@.len() as int) =~= ns);
}

/// Adds the fields of a `declaration` node, as `from_declaration` describes.
fn from_declaration_exec(fields: &mut Vec<DartField>, d: &SyntaxNode)
    ensures
        params_view(final(fields)@) == from_declaration(params_view(old(fields)@), *d),
{
    match declaration_type_exec(&d.children) {
        Some(ty) => {
            let names = declared_names_exec(&d.children);
            let ty = with_question_exec(ty, d.text.as_str());
            add_names_exec(fields, &names, ty.as_str());
        },
        None => {},
    }
    declaration_factories_exec(fields, &d.children);
}

/// Adds the fields of a `field_declaration` node, as `from_field_declaration` describes.
fn from_field_declaration_exec(fields: &mut Vec<DartField>, d: &SyntaxNode)
    ensures
        params_view(final(fields)@) == from_field_declaration(params_view(old(fields)@), *d),
{
    match last_text_of_kind(&d.children, "type_identifier") {
        Some(ty) => {
            let mut names: Vec<String> = Vec::new();
            push_texts_of_kind(&mut names, &d.children, "identifier");
            assert(texts(names@) =~= texts_of_kind(d.children@, "identifier"@));
            let ty = with_question_exec(ty, d.text.as_str());
            add_names_exec(fields, &names, ty.as_str());
        },
        None => {},
    }
}

/// Adds the fields of one member of a class body, as `body_item_step` describes.
fn body_item_step_exec(fields: &mut Vec<DartField>, item: &SyntaxNode, union: bool)
    ensures
        params_view(final(fields)@) == body_item_step(params_view(old(fields)@), *item, union),
{
    if is_kind(item, "declaration") {
        from_declaration_exec(fields, item);
    } else if is_kind(item, "field_declaration") {
        from_field_declaration_exec(fields, item);
    } else if union {
    } else if is_kind(item, "constructor_signature") || is_kind(item, "redirecting_factory_constructor_signature")
        || is_kind(item, "const_constructor_signature") {
        signature_exec(fields, &item.children);
    } else if is_kind(item, "constructor_declaration") {
        constructor_declaration_exec(fields, &item.children);
    }
}

/// Adds the fields of the members of a class body.
fn class_body_exec(fields: &mut Vec<DartField>, cs: &Vec<SyntaxNode>, union: bool)
    ensures
        params_view(final(fields)@) == fold_fields(params_view(old(fields)@), cs@, body_item_step_fn(union)),
{
    let ghost start = params_view(fields@);
    proof {
        lemma_fold_fields_ends(start, cs@, body_item_step_fn(union));
    }
    let mut i: usize = 0;
    while i < cs.len()
        invariant
            i <= cs@.len(),
            params_view(fields@) == fold_fields(start, cs@.take(i as int), body_item_step_fn(union)),
        decreases cs.len() - i,
    {
        proof {
            lemma_fold_fields_step(start, cs@, i as int, body_item_step_fn(union));
        }
        body_item_step_exec(fields, &cs[i], union);
        i += 1;
    }
}

/// Adds the fields of the class bodies among a class definition's children.
fn class_members_exec(fields: &mut Vec<DartField>, cs: &Vec<SyntaxNode>, union: bool)
    ensures
        params_view(final(fields)@) == fold_fields(params_view(old(fields)@), cs@, class_member_step_fn(union)),
{
    let ghost start = params_view(fields@);
    proof {
        lemma_fold_fields_ends(start, cs@, class_member_step_fn(union));
    }
    let mut i: usize = 0;
    while i < cs.len()
        invariant
            i <= cs@.len(),
            params_view(fields@) == fold_fields(start, cs@.take(i as int), class_member_step_fn(union)),
        decreases cs.len() - i,
    {
        proof {
            lemma_fold_fields_step(start, cs@, i as int, class_member_step_fn(union));
        }
        if is_kind(&cs[i], "class_body") {
            class_body_exec(fields, &cs[i].children, union);
        }
        i += 1;
    }
}


/// How many nodes of kind `k` are among `cs`.
fn count_kind_exec(cs: &Vec<SyntaxNode>, k: &str) -> (r: usize)
    ensures
        r == count_kind(cs@, k@),
{
    let mut n: usize = 0;
    let mut i: usize = 0;
    assert(cs@.take(0) =~= Seq::<SyntaxNode>::empty());
    while i < cs.len()
        invariant
            i <= cs@.len(),
            n == count_kind(cs@.take(i as int), k@),
            n <= i,
        decreases cs.len() - i,
    {
        proof {
            assert(cs@.take(i + 1).drop_last() =~= cs@.take(i as int));
            assert(cs@.take(i + 1).last() == cs@[i as int]);
        }
        if is_kind(&cs[i], k) {
            n += 1;
        }
        i += 1;
    }
    assert(cs@.take(cs@.len() as int) =~= cs@);
    n
}

/// Whether the class bodies among `cs` hold more than one redirecting factory
/// constructor.
fn has_several_factories(cs: &Vec<SyntaxNode>) -> (r: bool)
    ensures
        r == (factory_count(cs@) > 1),
{
    let mut n: usize = 0;
    let mut i: usize = 0;
    assert(cs@.take(0) =~= Seq::<SyntaxNode>::empty());
    while i < cs.len()
        invariant
            i <= cs@.len(),
            n <= 2,
            n == factory_count(cs@.take(i as int)) || (n == 2 && factory_count(cs@.take(i as int)) >= 2),
        decreases cs.len() - i,
    {
        proof {
            assert(cs@.take(i + 1).drop_last() =~= cs@.take(i as int));
            assert(cs@.take(i + 1).last() == cs@[i as int]);
        }
        if is_kind(&cs[i], "class_body") {
            let c = count_kind_exec(&cs[i].children, "redirecting_factory_constructor_signature");
            if c >= 2 {
                n = 2;
            } else if n + c >= 2 {
                n = 2;
            } else {
                n = n + c;
            }
        }
        i += 1;
    }
    assert(cs@.take(cs@.len() as int) =~= cs@);
    n > 1
}

/// Adds the fields of the class definition `c` when it is the class `target`.
fn class_fields_step_exec(fields: &mut Vec<DartField>, c: &SyntaxNode, target: &str)
    ensures
        params_view(final(fields)@) == class_fields_step(params_view(old(fields)@), *c, target@),
{
    if is_kind(c, "class_definition") {
        let name = match first_text_of_kind(&c.children, "identifier") {
            Some(t) => t,
            None => String::new(),
        };
        if str_eq(name.as_str(), target) {
            let union = has_several_factories(&c.children);
            class_members_exec(fields, &c.children, union);
        }
    }
}

/// Adds the fields of the class `target` among the top-level nodes `cs`.
fn tree_fields_exec(fields: &mut Vec<DartField>, cs: &Vec<SyntaxNode>, target: &str)
    ensures
        params_view(final(fields)@) == fold_fields(params_view(old(fields)@), cs@, class_fields_step_fn(target@)),
{
    let ghost start = params_view(fields@);
    proof {
        lemma_fold_fields_ends(start, cs@, class_fields_step_fn(target@));
    }
    let mut i: usize = 0;
    while i < cs.len()
        invariant
            i <= cs@.len(),
            params_view(fields@) == fold_fields(start, cs@.take(i as int), class_fields_step_fn(target@)),
        decreases cs.len() - i,
    {
        proof {
            lemma_fold_fields_step(start, cs@, i as int, class_fields_step_fn(target@));
        }
        class_fields_step_exec(fields, &cs[i], target);
        i += 1;
    }
}


/// The fields of the class `target_class_name` in the syntax tree `root` of a
/// Dart source, as `tree_fields` describes.
pub fn extract_fields_from_dart_class(root: &SyntaxNode, target_class_name: &str) -> (r: Vec<DartField>)
    ensures
        params_view(r@) == tree_fields(*root, target_class_name@),
{
    let mut fields: Vec<DartField> = Vec::new();
    assert(params_view(fields@) =~= Seq::<ParamModel>::empty());
    tree_fields_exec(&mut fields, &root.children, target_class_name);
    fields
}

// ---------------------------------------------------------------------------
// Union cases
// ---------------------------------------------------------------------------

/// A union case as text: what a `CaseInfo` of the generator holds.
pub struct TreeCase {
    pub case_name: Seq<char>,
    pub fields: Seq<ParamModel>,
}

impl View for CaseInfo {
    type V = TreeCase;

    open spec fn view(&self) -> TreeCase {
        TreeCase { case_name: self.case_name@, fields: params_view(self.fields@) }
    }
}

/// The models of a sequence of union cases.
pub open spec fn tree_cases_view(v: Seq<CaseInfo>) -> Seq<TreeCase> {
    v.map_values(|c: CaseInfo| c@)
}

/// Reading the children `cs` of a redirecting factory constructor: the case
/// name (the identifier after a `.`), the fields of its parameter lists, and
/// whether a `.` was just read.
pub open spec fn case_scan(cs: Seq<SyntaxNode>) -> (Seq<char>, Seq<ParamModel>, bool)
    decreases cs.len(),
{
    if cs.len() == 0 {
        (Seq::empty(), Seq::empty(), false)
    } else {
        let (name, fs, dot) = case_scan(cs.drop_last());
        let sub = cs.last();
        let (name2, dot2) = if sub.kind@ == "identifier"@ && dot {
            (sub.text@, false)
        } else if sub.kind@ == "."@ {
            (name, true)
        } else {
            (name, dot)
        };
        let fs2 = if sub.kind@ == "formal_parameter_list"@ {
            fold_fields(fs, sub.children@, param_list_step_fn())
        } else {
            fs
        };
        (name2, fs2, dot2)
    }
}

/// The cases `acc` with the case of the redirecting factory constructor `c`
/// added, when `c` is one and names a case.
pub open spec fn signature_case_step(acc: Seq<TreeCase>, c: SyntaxNode) -> Seq<TreeCase> {
    if c.kind@ == "redirecting_factory_constructor_signature"@ {
        let (name, fs, _) = case_scan(c.children@);
        if name.len() > 0 {
            acc.push(TreeCase { case_name: name, fields: fs })
        } else {
            acc
        }
    } else {
        acc
    }
}

/// The cases `acc` after reading each node of `cs` in order by `step`.
pub open spec fn fold_cases(
    acc: Seq<TreeCase>,
    cs: Seq<SyntaxNode>,
    step: spec_fn(Seq<TreeCase>, SyntaxNode) -> Seq<TreeCase>,
) -> Seq<TreeCase>
    decreases cs.len(),
{
    if cs.len() == 0 {
        acc
    } else {
        step(fold_cases(acc, cs.drop_last(), step), cs.last())
    }
}

/// One more node read by `fold_cases`.
pub proof fn lemma_fold_cases_step(
    acc: Seq<TreeCase>,
    cs: Seq<SyntaxNode>,
    i: int,
    step: spec_fn(Seq<TreeCase>, SyntaxNode) -> Seq<TreeCase>,
)
    requires
        0 <= i < cs.len(),
    ensures
        fold_cases(acc, cs.take(i + 1), step) == step(fold_cases(acc, cs.take(i), step), cs[i]),
{
    assert(cs.take(i + 1).drop_last() =~= cs.take(i));
}

/// The start and the end of a loop over the nodes `cs`.
pub proof fn lemma_fold_cases_ends(
    acc: Seq<TreeCase>,
    cs: Seq<SyntaxNode>,
    step: spec_fn(Seq<TreeCase>, SyntaxNode) -> Seq<TreeCase>,
)
    ensures
        fold_cases(acc, cs.take(0), step) == acc,
        cs.take(cs.len() as int) == cs,
{
    assert(cs.take(0) =~= Seq::<SyntaxNode>::empty());
    assert(cs.take(cs.len() as int) =~= cs);
}

/// `signature_case_step` as a function.
pub open spec fn signature_case_step_fn() -> spec_fn(Seq<TreeCase>, SyntaxNode) -> Seq<TreeCase> {
    |acc: Seq<TreeCase>, c: SyntaxNode| signature_case_step(acc, c)
}

/// The cases of the declarations among the members of a class body.
pub open spec fn body_case_step_fn() -> spec_fn(Seq<TreeCase>, SyntaxNode) -> Seq<TreeCase> {
    |acc: Seq<TreeCase>, item: SyntaxNode| if item.kind@ == "declaration"@ {
        fold_cases(acc, item.children@, signature_case_step_fn())
    } else {
        acc
    }
}

/// The cases of the class bodies among the children of a class definition.
pub open spec fn class_case_step_fn() -> spec_fn(Seq<TreeCase>, SyntaxNode) -> Seq<TreeCase> {
    |acc: Seq<TreeCase>, m: SyntaxNode| if m.kind@ == "class_body"@ {
        fold_cases(acc, m.children@, body_case_step_fn())
    } else {
        acc
    }
}

/// The cases of the class definition `c` when it is the class `target`.
pub open spec fn tree_case_step_fn(target: Seq<char>) -> spec_fn(Seq<TreeCase>, SyntaxNode) -> Seq<TreeCase> {
    |acc: Seq<TreeCase>, c: SyntaxNode| if c.kind@ == "class_definition"@ && class_name_of(c) == target {
        fold_cases(acc, c.children@, class_case_step_fn())
    } else {
        acc
    }
}

/// The union cases of the class `target` in the syntax tree `root`: each
/// redirecting factory constructor `Name.case(...)` declared in its body, with
/// the fields of its parameters.
pub open spec fn tree_cases(root: SyntaxNode, target: Seq<char>) -> Seq<TreeCase> {
    fold_cases(Seq::empty(), root.children@, tree_case_step_fn(target))
}

/// Reads the case of a redirecting factory constructor, as `case_scan` describes.
fn case_scan_exec(cs: &Vec<SyntaxNode>) -> (r: (String, Vec<DartField>))
    ensures
        ({
            let (name, fs, _) = case_scan(cs@);
            r.0@ == name && params_view(r.1@) == fs
        }),
{
    let mut name = String::new();
    let mut fields: Vec<DartField> = Vec::new();
    let mut dot = false;
    let mut i: usize = 0;
    assert(cs@.take(0) =~= Seq::<SyntaxNode>::empty());
    assert(params_view(fields@) =~= Seq::<ParamModel>::empty());
    while i < cs.len()
        invariant
            i <= cs@.len(),
            case_scan(cs@.take(i as int)) == (name@, params_view(fields@), dot),
        decreases cs.len() - i,
    {
        let sub = &cs[i];
        proof {
            assert(cs@.take(i + 1).drop_last() =~= cs@.take(i as int));
            assert(cs@.take(i + 1).last() == *sub);
        }
        if is_kind(sub, "identifier") && dot {
            name = sub.text.clone();
            dot = false;
        } else if is_kind(sub, ".") {
            dot = true;
        }
        if is_kind(sub, "formal_parameter_list") {
            param_list_exec(&mut fields, &sub.children);
        }
        i += 1;
    }
    assert(cs@.take(cs@.len() as int) =~= cs@);
    (name, fields)
}

/// Adds the case of `c`, as `signature_case_step` describes.
fn signature_case_step_exec(acc: &mut Vec<CaseInfo>, c: &SyntaxNode)
    ensures
        tree_cases_view(final(acc)@) == signature_case_step(tree_cases_view(old(acc)@), *c),
{
    if is_kind(c, "redirecting_factory_constructor_signature") {
        let (case_name, fields) = case_scan_exec(&c.children);
        if case_name.unicode_len() > 0 {
            let ghost before = acc@;
            let k = CaseInfo { case_name, fields };
            acc.push(k);
            assert(tree_cases_view(acc@) =~= tree_cases_view(before).push(k@));
        }
    }
}

/// Adds the cases of the redirecting factory constructors among a declaration's children.
fn declaration_cases_exec(acc: &mut Vec<CaseInfo>, cs: &Vec<SyntaxNode>)
    ensures
        tree_cases_view(final(acc)@) == fold_cases(tree_cases_view(old(acc)@), cs@, signature_case_step_fn()),
{
    let ghost start = tree_cases_view(acc@);
    proof {
        lemma_fold_cases_ends(start, cs@, signature_case_step_fn());
    }
    let mut i: usize = 0;
    while i < cs.len()
        invariant
            i <= cs@.len(),
            tree_cases_view(acc@) == fold_cases(start, cs@.take(i as int), signature_case_step_fn()),
        decreases cs.len() - i,
    {
        proof {
            lemma_fold_cases_step(start, cs@, i as int, signature_case_step_fn());
        }
        signature_case_step_exec(acc, &cs[i]);
        i += 1;
    }
}

/// Adds the cases of the declarations among the members of a class body.
fn body_cases_exec(acc: &mut Vec<CaseInfo>, cs: &Vec<SyntaxNode>)
    ensures
        tree_cases_view(final(acc)@) == fold_cases(tree_cases_view(old(acc)@), cs@, body_case_step_fn()),
{
    let ghost start = tree_cases_view(acc@);
    proof {
        lemma_fold_cases_ends(start, cs@, body_case_step_fn());
    }
    let mut i: usize = 0;
    while i < cs.len()
        invariant
            i <= cs@.len(),
            tree_cases_view(acc@) == fold_cases(start, cs@.take(i as int), body_case_step_fn()),
        decreases cs.len() - i,
    {
        proof {
            lemma_fold_cases_step(start, cs@, i as int, body_case_step_fn());
        }
        if is_kind(&cs[i], "declaration") {
            declaration_cases_exec(acc, &cs[i].children);
        }
        i += 1;
    }
}

/// Adds the cases of the class bodies among a class definition's children.
fn class_cases_exec(acc: &mut Vec<CaseInfo>, cs: &Vec<SyntaxNode>)
    ensures
        tree_cases_view(final(acc)@) == fold_cases(tree_cases_view(old(acc)@), cs@, class_case_step_fn()),
{
    let ghost start = tree_cases_view(acc@);
    proof {
        lemma_fold_cases_ends(start, cs@, class_case_step_fn());
    }
    let mut i: usize = 0;
    while i < cs.len()
        invariant
            i <= cs@.len(),
            tree_cases_view(acc@) == fold_cases(start, cs@.take(i as int), class_case_step_fn()),
        decreases cs.len() - i,
    {
        proof {
            lemma_fold_cases_step(start, cs@, i as int, class_case_step_fn());
        }
        if is_kind(&cs[i], "class_body") {
            body_cases_exec(acc, &cs[i].children);
        }
        i += 1;
    }
}

/// Adds the cases of the class `target` among the top-level nodes `cs`.
fn tree_cases_exec(acc: &mut Vec<CaseInfo>, cs: &Vec<SyntaxNode>, target: &str)
    ensures
        tree_cases_view(final(acc)@) == fold_cases(tree_cases_view(old(acc)@), cs@, tree_case_step_fn(target@)),
{
    let ghost start = tree_cases_view(acc@);
    proof {
        lemma_fold_cases_ends(start, cs@, tree_case_step_fn(target@));
    }
    let mut i: usize = 0;
    while i < cs.len()
        invariant
            i <= cs@.len(),
            tree_cases_view(acc@) == fold_cases(start, cs@.take(i as int), tree_case_step_fn(target@)),
        decreases cs.len() - i,
    {
        proof {
            lemma_fold_cases_step(start, cs@, i as int, tree_case_step_fn(target@));
        }
        if is_kind(&cs[i], "class_definition") {
            let name = match first_text_of_kind(&cs[i].children, "identifier") {
                Some(t) => t,
                None => String::new(),
            };
            if str_eq(name.as_str(), target) {
                class_cases_exec(acc, &cs[i].children);
            }
        }
        i += 1;
    }
}

/// The union cases of the class `target_class_name` in the syntax tree `root` of a
/// Dart source, as `tree_cases` describes.
pub fn extract_union_cases_from_dart_class(root: &SyntaxNode, target_class_name: &str) -> (r: Vec<CaseInfo>)
    ensures
        tree_cases_view(r@) == tree_cases(*root, target_class_name@),
{
    let mut cases: Vec<CaseInfo> = Vec::new();
    assert(tree_cases_view(cases@) =~= Seq::<TreeCase>::empty());
    tree_cases_exec(&mut cases, &root.children, target_class_name);
    cases
}


// ---------------------------------------------------------------------------
// What the functions read from a tree hold
// ---------------------------------------------------------------------------

/// The kinds of node whose text a function is read from.
pub open spec fn read_kind(k: Seq<char>) -> bool {
    k == "type_identifier"@ || k == "identifier"@ || k == "function_type"@ || k == "type_arguments"@
}

/// Every node of the tree `n` of a kind that functions are read from spans some
/// text that is not all blank (as every node does that the parser did not insert
/// as missing).
pub open spec fn solid(n: SyntaxNode) -> bool
    decreases n, 1nat, 0nat,
{
    &&& (read_kind(n.kind@) ==> n.text@.len() > 0 && trim(n.text@).len() > 0)
    &&& solid_children(n, 0)
}

/// The children `i..` of `n` are solid.
pub open spec fn solid_children(n: SyntaxNode, i: nat) -> bool
    decreases n, 0nat, n.children@.len() - i,
{
    if i >= n.children@.len() {
        true
    } else {
        proof {
            assert(decreases_to!(n => n.children));
            assert(decreases_to!(n.children => n.children@));
            assert(decreases_to!(n.children@ => n.children@[i as int]));
        }
        solid(n.children@[i as int]) && solid_children(n, i + 1)
    }
}

/// The children of a solid node are solid.
proof fn lemma_solid_children(n: SyntaxNode, i: nat)
    requires
        solid_children(n, i),
    ensures
        forall|j: int| i <= j < n.children@.len() ==> solid(#[trigger] n.children@[j]),
    decreases n.children@.len() - i,
{
    if i < n.children@.len() {
        lemma_solid_children(n, i + 1);
    }
}

/// A found text of some kind is the text of a node of that kind among `cs`.
proof fn lemma_last_of_kind(cs: Seq<SyntaxNode>, k: Seq<char>)
    ensures
        last_of_kind(cs, k) matches Some(t) ==> exists|j: int| 0 <= j < cs.len() && #[trigger] cs[j].kind@ == k && cs[j].text@ == t,
    decreases cs.len(),
{
    if cs.len() > 0 && cs.last().kind@ != k {
        lemma_last_of_kind(cs.drop_last(), k);
        if last_of_kind(cs, k) is Some {
            let j = choose|j: int| 0 <= j < cs.drop_last().len() && #[trigger] cs.drop_last()[j].kind@ == k
                && cs.drop_last()[j].text@ == last_of_kind(cs, k)->0;
            assert(cs[j] == cs.drop_last()[j]);
        }
    } else if cs.len() > 0 {
        assert(cs[cs.len() - 1].kind@ == k);
    }
}

/// A parameter read from a solid node has a name and a type.
proof fn lemma_param_of_solid(p: SyntaxNode, named: bool)
    requires
        solid(p),
    ensures
        param_of(p, named).name.len() > 0,
        param_of(p, named).ty.len() > 0,
{
    reveal_strlit("dynamic");
    reveal_strlit("param");
    lemma_solid_children(p, 0);
    lemma_last_of_kind(p.children@, "type_identifier"@);
    lemma_last_of_kind(p.children@, "identifier"@);
    match last_of_kind(p.children@, "type_identifier"@) {
        Some(t) => {
            let j = choose|j: int| 0 <= j < p.children@.len() && #[trigger] p.children@[j].kind@ == "type_identifier"@
                && p.children@[j].text@ == t;
            assert(solid(p.children@[j]));
        },
        None => {},
    }
    match last_of_kind(p.children@, "identifier"@) {
        Some(t) => {
            let j = choose|j: int| 0 <= j < p.children@.len() && #[trigger] p.children@[j].kind@ == "identifier"@
                && p.children@[j].text@ == t;
            assert(solid(p.children@[j]));
        },
        None => {},
    }
}

/// Every parameter of a function signature with solid children has a name and a type.
proof fn lemma_signature_params_solid(cs: Seq<SyntaxNode>)
    requires
        forall|j: int| 0 <= j < cs.len() ==> solid(#[trigger] cs[j]),
    ensures
        forall|k: int|
            0 <= k < signature_params(cs).len() ==> (#[trigger] signature_params(cs)[k]).name.len() > 0
                && signature_params(cs)[k].ty.len() > 0,
    decreases cs.len(),
{
    if cs.len() > 0 {
        lemma_signature_params_solid(cs.drop_last());
        let c = cs.last();
        assert(solid(cs[cs.len() - 1]));
        if c.kind@ == "formal_parameter_list"@ {
            lemma_solid_children(c, 0);
            lemma_list_params_solid(c.children@);
            let a = signature_params(cs.drop_last());
            let b = list_params(c.children@);
            assert(signature_params(cs) == a + b);
            assert forall|k: int| 0 <= k < (a + b).len() implies (#[trigger] (a + b)[k]).name.len() > 0 && (a
                + b)[k].ty.len() > 0 by {
                if k < a.len() {
                    assert((a + b)[k] == a[k]);
                } else {
                    assert((a + b)[k] == b[k - a.len()]);
                }
            }
        }
    }
}

/// Every parameter of a parameter list with solid children has a name and a type.
proof fn lemma_list_params_solid(cs: Seq<SyntaxNode>)
    requires
        forall|j: int| 0 <= j < cs.len() ==> solid(#[trigger] cs[j]),
    ensures
        forall|k: int|
            0 <= k < list_params(cs).len() ==> (#[trigger] list_params(cs)[k]).name.len() > 0
                && list_params(cs)[k].ty.len() > 0,
    decreases cs.len(),
{
    if cs.len() > 0 {
        lemma_list_params_solid(cs.drop_last());
        let c = cs.last();
        assert(solid(cs[cs.len() - 1]));
        let a = list_params(cs.drop_last());
        if c.kind@ == "formal_parameter"@ {
            lemma_param_of_solid(c, false);
            assert forall|k: int| 0 <= k < list_params(cs).len() implies (#[trigger] list_params(cs)[k]).name.len()
                > 0 && list_params(cs)[k].ty.len() > 0 by {
                if k < a.len() {
                    assert(list_params(cs)[k] == a[k]);
                }
            }
        } else if c.kind@ == "optional_formal_parameters"@ {
            lemma_solid_children(c, 0);
            lemma_optional_params_solid(c.children@);
            let b = optional_params(c.children@);
            assert forall|k: int| 0 <= k < (a + b).len() implies (#[trigger] (a + b)[k]).name.len() > 0 && (a
                + b)[k].ty.len() > 0 by {
                if k < a.len() {
                    assert((a + b)[k] == a[k]);
                } else {
                    assert((a + b)[k] == b[k - a.len()]);
                }
            }
        }
    }
}

/// Every named parameter with solid nodes has a name and a type.
proof fn lemma_optional_params_solid(cs: Seq<SyntaxNode>)
    requires
        forall|j: int| 0 <= j < cs.len() ==> solid(#[trigger] cs[j]),
    ensures
        forall|k: int|
            0 <= k < optional_params(cs).len() ==> (#[trigger] optional_params(cs)[k]).name.len() > 0
                && optional_params(cs)[k].ty.len() > 0,
    decreases cs.len(),
{
    if cs.len() > 0 {
        lemma_optional_params_solid(cs.drop_last());
        let c = cs.last();
        assert(solid(cs[cs.len() - 1]));
        let a = optional_params(cs.drop_last());
        if c.kind@ == "formal_parameter"@ {
            lemma_param_of_solid(c, true);
            assert forall|k: int| 0 <= k < optional_params(cs).len() implies (#[trigger] optional_params(cs)[k]).name.len()
                > 0 && optional_params(cs)[k].ty.len() > 0 by {
                if k < a.len() {
                    assert(optional_params(cs)[k] == a[k]);
                }
            }
        }
    }
}

/// Reading the return type over solid children finds a non-empty type name and
/// function type.
proof fn lemma_scan_type_solid(cs: Seq<SyntaxNode>)
    requires
        forall|j: int| 0 <= j < cs.len() ==> solid(#[trigger] cs[j]),
    ensures
        scan_type(cs).base.len() > 0,
        scan_type(cs).ret.len() > 0,
    decreases cs.len(),
{
    reveal_strlit("dynamic");
    if cs.len() > 0 {
        lemma_scan_type_solid(cs.drop_last());
        let c = cs.last();
        assert(solid(cs[cs.len() - 1]));
        let prev = scan_type(cs.drop_last());
        if !prev.done && c.kind@ == "nullable_type"@ {
            lemma_solid_children(c, 0);
            lemma_scan_nullable_solid(c.children@, prev.base, prev.args);
        }
    }
}

/// Reading a nullable type over solid nodes keeps the type name non-empty.
proof fn lemma_scan_nullable_solid(cs: Seq<SyntaxNode>, base: Seq<char>, args: Seq<Seq<char>>)
    requires
        forall|j: int| 0 <= j < cs.len() ==> solid(#[trigger] cs[j]),
        base.len() > 0,
    ensures
        scan_nullable(cs, base, args).0.len() > 0,
    decreases cs.len(),
{
    if cs.len() > 0 {
        lemma_scan_nullable_solid(cs.drop_last(), base, args);
        assert(solid(cs[cs.len() - 1]));
    }
}

/// The return type read over solid children is not empty.
proof fn lemma_return_type_solid(cs: Seq<SyntaxNode>, text: Seq<char>)
    requires
        forall|j: int| 0 <= j < cs.len() ==> solid(#[trigger] cs[j]),
    ensures
        return_type_of(cs, text).len() > 0,
{
    reveal_strlit("dynamic");
    reveal_strlit(">");
    lemma_scan_type_solid(cs);
    let st = scan_type(cs);
    let rt1 = if st.base != "dynamic"@ && st.args.len() > 0 {
        st.base + concat_all(st.args)
    } else if st.base != "dynamic"@ {
        st.base
    } else {
        st.ret
    };
    assert(rt1.len() > 0);
    if contains(text, "Future<"@) {
        lemma_bracket_type_nonempty(text, "Future<"@);
    }
    if contains(text, "List<"@) {
        lemma_bracket_type_nonempty(text, "List<"@);
    }
}

/// A generic type found in a text is not empty.
proof fn lemma_bracket_type_nonempty(t: Seq<char>, p: Seq<char>)
    ensures
        bracket_type(t, p).len() > 0,
{
    reveal_strlit("dynamic");
    reveal_strlit(">");
    lemma_find_from(t, p, 0);
    let start = match find_from(t, p, 0) {
        Some(k) => k,
        None => 0,
    };
    lemma_find_from(t, ">"@, start as nat);
}

/// The functions read from the tree `n` all carry the path `file_path`; over a
/// solid tree each has a return type, and each of its parameters a name and a type.
proof fn lemma_functions_in_shape(n: SyntaxNode, prev: Seq<SyntaxNode>, file_path: Seq<char>)
    ensures
        forall|k: int|
            0 <= k < functions_in(n, prev, file_path).len() ==> (#[trigger] functions_in(n, prev, file_path)[k]).file_path
                == file_path,
        solid(n) ==> forall|k: int|
            0 <= k < functions_in(n, prev, file_path).len() ==> function_well_read(
                #[trigger] functions_in(n, prev, file_path)[k],
            ),
    decreases n, 1nat, 0nat,
{
    let own = if n.kind@ == "function_signature"@ {
        seq![function_at(n, prev, file_path)]
    } else {
        Seq::empty()
    };
    lemma_functions_in_children_shape(n, 0, file_path);
    if solid(n) {
        lemma_solid_children(n, 0);
        if n.kind@ == "function_signature"@ {
            lemma_return_type_solid(n.children@, n.text@);
            lemma_signature_params_solid(n.children@);
        }
    }
    let rest = functions_in_children(n, 0, file_path);
    assert(functions_in(n, prev, file_path) == own + rest);
    assert forall|k: int| 0 <= k < (own + rest).len() implies (#[trigger] (own + rest)[k]).file_path == file_path
        && (solid(n) ==> function_well_read((own + rest)[k])) by {
        if k < own.len() {
            assert((own + rest)[k] == own[k]);
        } else {
            assert((own + rest)[k] == rest[k - own.len()]);
        }
    }
}

/// The functions read from the children `i..` of `n`, as `lemma_functions_in_shape` says.
proof fn lemma_functions_in_children_shape(n: SyntaxNode, i: nat, file_path: Seq<char>)
    ensures
        forall|k: int|
            0 <= k < functions_in_children(n, i, file_path).len() ==> (#[trigger] functions_in_children(
                n,
                i,
                file_path,
            )[k]).file_path == file_path,
        solid_children(n, i) ==> forall|k: int|
            0 <= k < functions_in_children(n, i, file_path).len() ==> function_well_read(
                #[trigger] functions_in_children(n, i, file_path)[k],
            ),
    decreases n, 0nat, n.children@.len() - i,
{
    if i < n.children@.len() {
        assert(decreases_to!(n => n.children));
        assert(decreases_to!(n.children => n.children@));
        assert(decreases_to!(n.children@ => n.children@[i as int]));
        let c = n.children@[i as int];
        lemma_functions_in_shape(c, n.children@.take(i as int), file_path);
        lemma_functions_in_children_shape(n, i + 1, file_path);
        let a = functions_in(c, n.children@.take(i as int), file_path);
        let b = functions_in_children(n, i + 1, file_path);
        assert(functions_in_children(n, i, file_path) == a + b);
        assert forall|k: int| 0 <= k < (a + b).len() implies (#[trigger] (a + b)[k]).file_path == file_path && (
        solid_children(n, i) ==> function_well_read((a + b)[k])) by {
            if k < a.len() {
                assert((a + b)[k] == a[k]);
            } else {
                assert((a + b)[k] == b[k - a.len()]);
            }
        }
    }
}

/// A function read well: it has a return type, and each of its parameters a
/// name and a type.
pub open spec fn function_well_read(f: FunctionModel) -> bool {
    &&& f.return_type.len() > 0
    &&& forall|k: int| 0 <= k < f.parameters.len() ==> (#[trigger] f.parameters[k]).name.len() > 0
        && f.parameters[k].ty.len() > 0
}

/// The functions read from a Dart syntax tree all carry the given path; when
/// every type name, identifier, function type and type-argument node of the tree
/// spans non-blank text, each function has a return type and each of its
/// parameters a name and a type.
pub proof fn lemma_functions_read_shape(root: SyntaxNode, file_path: Seq<char>)
    ensures
        forall|k: int|
            0 <= k < functions_in(root, Seq::empty(), file_path).len() ==> (#[trigger] functions_in(
                root,
                Seq::empty(),
                file_path,
            )[k]).file_path == file_path,
        solid(root) ==> forall|k: int|
            0 <= k < functions_in(root, Seq::empty(), file_path).len() ==> function_well_read(
                #[trigger] functions_in(root, Seq::empty(), file_path)[k],
            ),
{
    lemma_functions_in_shape(root, Seq::empty(), file_path);
}


/// No node of the tree `n` is a function signature.
pub open spec fn no_signature(n: SyntaxNode) -> bool
    decreases n, 1nat, 0nat,
{
    n.kind@ != "function_signature"@ && no_signature_children(n, 0)
}

/// No node of the children `i..` of `n` is a function signature.
pub open spec fn no_signature_children(n: SyntaxNode, i: nat) -> bool
    decreases n, 0nat, n.children@.len() - i,
{
    if i >= n.children@.len() {
        true
    } else {
        proof {
            assert(decreases_to!(n => n.children));
            assert(decreases_to!(n.children => n.children@));
            assert(decreases_to!(n.children@ => n.children@[i as int]));
        }
        no_signature(n.children@[i as int]) && no_signature_children(n, i + 1)
    }
}

/// A tree without function signatures declares no function.
proof fn lemma_no_signature_no_functions(n: SyntaxNode, prev: Seq<SyntaxNode>, file_path: Seq<char>)
    requires
        no_signature(n),
    ensures
        functions_in(n, prev, file_path).len() == 0,
    decreases n, 1nat, 0nat,
{
    lemma_no_signature_children_none(n, 0, file_path);
}

/// Children without function signatures declare no function.
proof fn lemma_no_signature_children_none(n: SyntaxNode, i: nat, file_path: Seq<char>)
    requires
        no_signature_children(n, i),
    ensures
        functions_in_children(n, i, file_path).len() == 0,
    decreases n, 0nat, n.children@.len() - i,
{
    if i < n.children@.len() {
        assert(decreases_to!(n => n.children));
        assert(decreases_to!(n.children => n.children@));
        assert(decreases_to!(n.children@ => n.children@[i as int]));
        lemma_no_signature_no_functions(n.children@[i as int], n.children@.take(i as int), file_path);
        lemma_no_signature_children_none(n, i + 1, file_path);
    }
}

/// A syntax tree with no function signature, such as that of `class A {}`,
/// declares no function.
pub proof fn lemma_no_signature_reads_nothing(root: SyntaxNode, file_path: Seq<char>)
    requires
        no_signature(root),
    ensures
        functions_in(root, Seq::empty(), file_path).len() == 0,
{
    lemma_no_signature_no_functions(root, Seq::empty(), file_path);
}

} // verus!
