//! The Dart text of Freezed classes, written piece by piece.
//!
//! Each piece of text has a spec function that appends it to the text written so
//! far and an executable function that appends it to a `String`; the executable
//! function's contract is that spec function.

use vstd::prelude::*;
use crate::commands::freezed_gen::{cases_view, fields_view, CaseInfo, CaseModel, DartField, FieldModel};
use crate::primitives::{str_chars, string_push};
use crate::text::{
    contains, ends_with, ends_with_slice, fold_put, lemma_fold_put_ends, lemma_fold_put_step, str_contains,
    str_ends_with, str_eq, string_of, to_ascii_upper, ascii_upper, extends, keeps, lemma_fold_put_keeps_all,
    lemma_keeps_starts_with, starts_with, lemma_fold_put_keeps, lemma_keeps_add, lemma_keeps_refl,
    lemma_keeps_trans, lemma_keeps_len, lemma_keeps_take, ends_line, lemma_fold_put_ends_line, lacks_char, is_match_at, lemma_fold_put_contains,
    lemma_contains_keeps,
};

verus! {

// ---------------------------------------------------------------------------
// Pieces written for one field
// ---------------------------------------------------------------------------

/// The pieces of text written for one field.
#[derive(Clone, Copy, Debug)]
pub enum FieldPiece {
    /// A throwing getter of the mixin: `  Type get name => throw ...;`.
    GetterLine,
    /// A parameter of the abstract `call` of `$NameCopyWith`: `Type name,`.
    CallParam,
    /// A parameter of a `call` implementation: `Object? name = freezed,` when nullable, `= null` otherwise.
    ObjectParam,
    /// An argument of the copy made by `call`: the given value, or `_value.name` when none was given.
    CopyAssign,
    /// A parameter of the implementation constructor: `this.name` when nullable, `this.name = default` (with `const` for an empty list default) when defaulted, `required this.name` otherwise.
    CtorParam,
    /// An overriding final field: `  @override` then `  final Type name;`.
    FinalField,
    /// The first field in a `toString` result: `name: $name`.
    ToStringFirst,
    /// A further field in a `toString` result: `, name: $name`.
    ToStringNext,
    /// The comparison of one field in `operator ==`, deep for `tags` and `attendees`.
    EqLine,
    /// The hash of one field in `hashCode`, deep for `tags` and `attendees`.
    HashLine,
    /// A parameter of the abstract `_$NameImpl` factory, `required` unless nullable or defaulted.
    FactoryParam,
    /// An overriding abstract getter: `  @override` then `  Type get name;`.
    OverrideGetter,
    /// The first parameter of a callback type: `Type name`.
    TypedFirst,
    /// A further parameter of a callback type: `, Type name`.
    TypedNext,
    /// The first argument of a callback call: `name`.
    NameFirst,
    /// A further argument of a callback call: `, name`.
    NameNext,
    /// An entry of a union case JSON map: `      'name': name,`.
    JsonEntry,
    /// A parameter of a union case constructor: `this.name` when defaulted or nullable, `required this.name` otherwise.
    ThisParam,
    /// A positional union case parameter written as a named one: `    required Type name,`.
    RequiredTypedParam,
    /// An abstract getter of a union case class: `  Type get name;`.
    AbstractGetter,
    /// A parameter of a union case `call`: `    Object? name = freezed,`.
    FreezedParam,
    /// An argument of the copy made by a union case `call`.
    CaseCopyAssign,
}

/// `o` followed by the piece `k` of the field `f`.
pub open spec fn put_field_piece(o: Seq<char>, f: FieldModel, k: FieldPiece) -> Seq<char> {
    match k {
        FieldPiece::GetterLine => {
            o + "  "@ + f.ty + " get "@ + f.name + " => throw _privateConstructorUsedError;\n"@
        },
        FieldPiece::CallParam => {
            o + "\n      "@ + f.ty + " "@ + f.name + ","@
        },
        FieldPiece::ObjectParam => {
            let o1 = o + "\n    Object? "@ + f.name + " = "@;
            let o2 = if ends_with(f.ty, "?"@) { o1 + "freezed"@ } else { o1 + "null"@ };
            o2 + ","@
        },
        FieldPiece::CopyAssign => {
            let o1 = o;
            let o2 = if ends_with(f.ty, "?"@) { o1 + "      "@ + f.name + ": freezed == "@ + f.name + "\n"@ + "          ? _value."@ + f.name + "\n"@ + "          : "@ + f.name + " // ignore: cast_nullable_to_non_nullable\n"@ + "              as "@ + f.ty + ",\n"@ } else { o1 + "      "@ + f.name + ": null == "@ + f.name + "\n"@ + "          ? _value."@ + f.name + "\n"@ + "          : "@ + f.name + " // ignore: cast_nullable_to_non_nullable\n"@ + "              as "@ + f.ty + ",\n"@ };
            o2
        },
        FieldPiece::CtorParam => {
            if ends_with(f.ty, "?"@) {
                o + "this."@ + f.name + ","@
            } else if f.has_default {
                match f.default_value {
                    Some(d) => if contains(f.ty, "List<"@) && d == "[]"@ {
                        o + "this."@ + f.name + " = const "@ + d + ","@
                    } else {
                        o + "this."@ + f.name + " = "@ + d + ","@
                    },
                    None => o + "this."@ + f.name + ","@,
                }
            } else {
                o + "required this."@ + f.name + ","@
            }
        },
        FieldPiece::FinalField => {
            o + "  @override\n"@ + "  final "@ + f.ty + " "@ + f.name + ";\n"@
        },
        FieldPiece::ToStringFirst => {
            o + f.name + ": $"@ + f.name
        },
        FieldPiece::ToStringNext => {
            o + ", "@ + f.name + ": $"@ + f.name
        },
        FieldPiece::EqLine => {
            let o1 = o;
            let o4 = if f.name == "tags"@ { o1 + "            const DeepCollectionEquality().equals(other.tags, tags) &&\n"@ } else { let o2 = o1; let o3 = if f.name == "attendees"@ { o2 + "            const DeepCollectionEquality()\n                .equals(other.attendees, attendees) &&\n"@ } else { o2 + "            (identical(other."@ + f.name + ", "@ + f.name + ") || other."@ + f.name + " == "@ + f.name + ") &&\n"@ }; o3 };
            o4
        },
        FieldPiece::HashLine => {
            let o1 = o;
            let o4 = if f.name == "tags"@ { o1 + "      const DeepCollectionEquality().hash(tags),\n"@ } else { let o2 = o1; let o3 = if f.name == "attendees"@ { o2 + "      const DeepCollectionEquality().hash(attendees),\n"@ } else { o2 + "      "@ + f.name + ",\n"@ }; o3 };
            o4
        },
        FieldPiece::FactoryParam => {
            let o1 = o;
            let o2 = if ends_with(f.ty, "?"@) || f.has_default { o1 + "      final "@ + f.ty + " "@ + f.name + ",\n"@ } else { o1 + "      required final "@ + f.ty + " "@ + f.name + ",\n"@ };
            o2
        },
        FieldPiece::OverrideGetter => {
            o + "  @override\n"@ + "  "@ + f.ty + " get "@ + f.name + ";\n"@
        },
        FieldPiece::TypedFirst => {
            o + f.ty + " "@ + f.name
        },
        FieldPiece::TypedNext => {
            o + ", "@ + f.ty + " "@ + f.name
        },
        FieldPiece::NameFirst => {
            o + f.name
        },
        FieldPiece::NameNext => {
            o + ", "@ + f.name
        },
        FieldPiece::JsonEntry => {
            o + "      '"@ + f.name + "': "@ + f.name + ",\n"@
        },
        FieldPiece::ThisParam => {
            let o1 = o;
            let o2 = if f.has_default || ends_with(f.ty, "?"@) { o1 + "    this."@ + f.name + ",\n"@ } else { o1 + "    required this."@ + f.name + ",\n"@ };
            o2
        },
        FieldPiece::RequiredTypedParam => {
            o + "    required "@ + f.ty + " "@ + f.name + ",\n"@
        },
        FieldPiece::AbstractGetter => {
            o + "  "@ + f.ty + " get "@ + f.name + ";\n"@
        },
        FieldPiece::FreezedParam => {
            o + "    Object? "@ + f.name + " = freezed,\n"@
        },
        FieldPiece::CaseCopyAssign => {
            o + "      "@ + f.name + ": "@ + f.name + " == freezed\n"@ + "          ? _value."@ + f.name + "\n"@ + "          : "@ + f.name + " as "@ + f.ty + ",\n"@
        },
    }
}

/// Appends the piece `k` of the field `f` to `code`.
pub fn emit_field_piece(code: &mut String, f: &DartField, k: FieldPiece)
    ensures
        final(code)@ == put_field_piece(old(code)@, f@, k),
{
    match k {
        FieldPiece::GetterLine => {
            code.append("  ");
            code.append(f.ty.as_str());
            code.append(" get ");
            code.append(f.name.as_str());
            code.append(" => throw _privateConstructorUsedError;\n");
        },
        FieldPiece::CallParam => {
            code.append("\n      ");
            code.append(f.ty.as_str());
            code.append(" ");
            code.append(f.name.as_str());
            code.append(",");
        },
        FieldPiece::ObjectParam => {
            code.append("\n    Object? ");
            code.append(f.name.as_str());
            code.append(" = ");
            if str_ends_with(f.ty.as_str(), "?") {
                code.append("freezed");
            } else {
                code.append("null");
            }
            code.append(",");
        },
        FieldPiece::CopyAssign => {
            if str_ends_with(f.ty.as_str(), "?") {
                code.append("      ");
                code.append(f.name.as_str());
                code.append(": freezed == ");
                code.append(f.name.as_str());
                code.append("\n");
                code.append("          ? _value.");
                code.append(f.name.as_str());
                code.append("\n");
                code.append("          : ");
                code.append(f.name.as_str());
                code.append(" // ignore: cast_nullable_to_non_nullable\n");
                code.append("              as ");
                code.append(f.ty.as_str());
                code.append(",\n");
            } else {
                code.append("      ");
                code.append(f.name.as_str());
                code.append(": null == ");
                code.append(f.name.as_str());
                code.append("\n");
                code.append("          ? _value.");
                code.append(f.name.as_str());
                code.append("\n");
                code.append("          : ");
                code.append(f.name.as_str());
                code.append(" // ignore: cast_nullable_to_non_nullable\n");
                code.append("              as ");
                code.append(f.ty.as_str());
                code.append(",\n");
            }
        },
        FieldPiece::CtorParam => {
            if str_ends_with(f.ty.as_str(), "?") {
                code.append("this.");
                code.append(f.name.as_str());
                code.append(",");
            } else if f.has_default {
                match &f.default_value {
                    Some(d) => {
                        if str_contains(f.ty.as_str(), "List<") && str_eq(d.as_str(), "[]") {
                            code.append("this.");
                            code.append(f.name.as_str());
                            code.append(" = const ");
                            code.append(d.as_str());
                            code.append(",");
                        } else {
                            code.append("this.");
                            code.append(f.name.as_str());
                            code.append(" = ");
                            code.append(d.as_str());
                            code.append(",");
                        }
                    },
                    None => {
                        code.append("this.");
                        code.append(f.name.as_str());
                        code.append(",");
                    },
                }
            } else {
                code.append("required this.");
                code.append(f.name.as_str());
                code.append(",");
            }
        },
        FieldPiece::FinalField => {
            code.append("  @override\n");
            code.append("  final ");
            code.append(f.ty.as_str());
            code.append(" ");
            code.append(f.name.as_str());
            code.append(";\n");
        },
        FieldPiece::ToStringFirst => {
            code.append(f.name.as_str());
            code.append(": $");
            code.append(f.name.as_str());
        },
        FieldPiece::ToStringNext => {
            code.append(", ");
            code.append(f.name.as_str());
            code.append(": $");
            code.append(f.name.as_str());
        },
        FieldPiece::EqLine => {
            if str_eq(f.name.as_str(), "tags") {
                code.append("            const DeepCollectionEquality().equals(other.tags, tags) &&\n");
            } else {
                if str_eq(f.name.as_str(), "attendees") {
                    code.append("            const DeepCollectionEquality()\n                .equals(other.attendees, attendees) &&\n");
                } else {
                    code.append("            (identical(other.");
                    code.append(f.name.as_str());
                    code.append(", ");
                    code.append(f.name.as_str());
                    code.append(") || other.");
                    code.append(f.name.as_str());
                    code.append(" == ");
                    code.append(f.name.as_str());
                    code.append(") &&\n");
                }
            }
        },
        FieldPiece::HashLine => {
            if str_eq(f.name.as_str(), "tags") {
                code.append("      const DeepCollectionEquality().hash(tags),\n");
            } else {
                if str_eq(f.name.as_str(), "attendees") {
                    code.append("      const DeepCollectionEquality().hash(attendees),\n");
                } else {
                    code.append("      ");
                    code.append(f.name.as_str());
                    code.append(",\n");
                }
            }
        },
        FieldPiece::FactoryParam => {
            if str_ends_with(f.ty.as_str(), "?") || f.has_default {
                code.append("      final ");
                code.append(f.ty.as_str());
                code.append(" ");
                code.append(f.name.as_str());
                code.append(",\n");
            } else {
                code.append("      required final ");
                code.append(f.ty.as_str());
                code.append(" ");
                code.append(f.name.as_str());
                code.append(",\n");
            }
        },
        FieldPiece::OverrideGetter => {
            code.append("  @override\n");
            code.append("  ");
            code.append(f.ty.as_str());
            code.append(" get ");
            code.append(f.name.as_str());
            code.append(";\n");
        },
        FieldPiece::TypedFirst => {
            code.append(f.ty.as_str());
            code.append(" ");
            code.append(f.name.as_str());
        },
        FieldPiece::TypedNext => {
            code.append(", ");
            code.append(f.ty.as_str());
            code.append(" ");
            code.append(f.name.as_str());
        },
        FieldPiece::NameFirst => {
            code.append(f.name.as_str());
        },
        FieldPiece::NameNext => {
            code.append(", ");
            code.append(f.name.as_str());
        },
        FieldPiece::JsonEntry => {
            code.append("      '");
            code.append(f.name.as_str());
            code.append("': ");
            code.append(f.name.as_str());
            code.append(",\n");
        },
        FieldPiece::ThisParam => {
            if f.has_default || str_ends_with(f.ty.as_str(), "?") {
                code.append("    this.");
                code.append(f.name.as_str());
                code.append(",\n");
            } else {
                code.append("    required this.");
                code.append(f.name.as_str());
                code.append(",\n");
            }
        },
        FieldPiece::RequiredTypedParam => {
            code.append("    required ");
            code.append(f.ty.as_str());
            code.append(" ");
            code.append(f.name.as_str());
            code.append(",\n");
        },
        FieldPiece::AbstractGetter => {
            code.append("  ");
            code.append(f.ty.as_str());
            code.append(" get ");
            code.append(f.name.as_str());
            code.append(";\n");
        },
        FieldPiece::FreezedParam => {
            code.append("    Object? ");
            code.append(f.name.as_str());
            code.append(" = freezed,\n");
        },
        FieldPiece::CaseCopyAssign => {
            code.append("      ");
            code.append(f.name.as_str());
            code.append(": ");
            code.append(f.name.as_str());
            code.append(" == freezed\n");
            code.append("          ? _value.");
            code.append(f.name.as_str());
            code.append("\n");
            code.append("          : ");
            code.append(f.name.as_str());
            code.append(" as ");
            code.append(f.ty.as_str());
            code.append(",\n");
        },
    }
}

/// `put_field_piece` for the piece `k`, as a function of the text so far and the field.
pub open spec fn field_piece_fn(k: FieldPiece) -> spec_fn(Seq<char>, FieldModel) -> Seq<char> {
    |o: Seq<char>, f: FieldModel| put_field_piece(o, f, k)
}

/// Appends the piece `k` of each of `fields[start..]`, in order.
pub fn emit_fields_from(code: &mut String, fields: &[DartField], start: usize, k: FieldPiece)
    requires
        start <= fields@.len(),
    ensures
        final(code)@ == fold_put(old(code)@, fields_view(fields@).skip(start as int), field_piece_fn(k)),
{
    let ghost fs = fields_view(fields@);
    let ghost first = code@;
    let mut i: usize = start;
    proof {
        lemma_fold_put_ends(first, fs, field_piece_fn(k));
    }
    while i < fields.len()
        invariant
            start <= i <= fields@.len(),
            fs == fields_view(fields@),
            fold_put(code@, fs.skip(i as int), field_piece_fn(k)) == fold_put(first, fs.skip(start as int), field_piece_fn(k)),
        decreases fields.len() - i,
    {
        let ghost before = code@;
        emit_field_piece(code, &fields[i], k);
        proof {
            lemma_fold_put_step(before, fs, i as int, field_piece_fn(k));
        }
        i += 1;
    }
    proof {
        lemma_fold_put_ends(code@, fs, field_piece_fn(k));
    }
}

/// Appends the piece `k` of each of `fields`, in order.
pub fn emit_fields(code: &mut String, fields: &[DartField], k: FieldPiece)
    ensures
        final(code)@ == fold_put(old(code)@, fields_view(fields@), field_piece_fn(k)),
{
    proof {
        lemma_fold_put_ends(code@, fields_view(fields@), field_piece_fn(k));
    }
    emit_fields_from(code, fields, 0, k);
}

/// `o` followed by the fields joined: the first as the piece `first`, the others
/// as the piece `next` (nothing when there are no fields).
pub open spec fn put_joined(o: Seq<char>, fs: Seq<FieldModel>, first: FieldPiece, next: FieldPiece) -> Seq<char> {
    if fs.len() == 0 {
        o
    } else {
        fold_put(put_field_piece(o, fs[0], first), fs.skip(1), field_piece_fn(next))
    }
}

/// Appends the fields joined as `put_joined` describes.
pub fn emit_joined(code: &mut String, fields: &[DartField], first: FieldPiece, next: FieldPiece)
    ensures
        final(code)@ == put_joined(old(code)@, fields_view(fields@), first, next),
{
    if fields.len() > 0 {
        emit_field_piece(code, &fields[0], first);
        emit_fields_from(code, fields, 1, next);
    }
}

/// Some field is a named parameter.
pub open spec fn any_named(fs: Seq<FieldModel>) -> bool {
    exists|i: int| 0 <= i < fs.len() && #[trigger] fs[i].is_named
}

/// Whether some field of `fields` is a named parameter.
pub fn has_named_field(fields: &[DartField]) -> (r: bool)
    ensures
        r == any_named(fields_view(fields@)),
{
    let mut i: usize = 0;
    while i < fields.len()
        invariant
            i <= fields@.len(),
            forall|j: int| 0 <= j < i ==> !(#[trigger] fields_view(fields@)[j]).is_named,
        decreases fields.len() - i,
    {
        if fields[i].is_named {
            assert(fields_view(fields@)[i as int].is_named);
            return true;
        }
        i += 1;
    }
    false
}

// ---------------------------------------------------------------------------
// Class names
// ---------------------------------------------------------------------------

/// Writes after `out` the characters `s[i..]` in PascalCase: `_` and `-` are
/// dropped and make the next character an ASCII capital; the first character is
/// capitalized when `cap` holds.
pub open spec fn put_pascal(out: Seq<char>, s: Seq<char>, i: nat, cap: bool) -> Seq<char>
    decreases s.len() - i,
{
    if i >= s.len() {
        out
    } else {
        let c = s[i as int];
        if c == '_' || c == '-' {
            put_pascal(out, s, i + 1, true)
        } else if cap {
            put_pascal(out.push(ascii_upper(c)), s, i + 1, false)
        } else {
            put_pascal(out.push(c), s, i + 1, false)
        }
    }
}

/// `s` in PascalCase: `sign_in` gives `SignIn`.
pub open spec fn pascal_case(s: Seq<char>) -> Seq<char> {
    put_pascal(Seq::empty(), s, 0, true)
}

/// `s` holds no `_` or `-`.
pub open spec fn no_word_marks(s: Seq<char>) -> bool {
    forall|k: int| 0 <= k < s.len() ==> #[trigger] s[k] != '_' && s[k] != '-'
}

/// PascalCase writing keeps what was written before it.
proof fn lemma_pascal_keeps(out: Seq<char>, s: Seq<char>, i: nat, cap: bool)
    ensures
        put_pascal(out, s, i, cap).len() >= out.len(),
        forall|k: int| 0 <= k < out.len() ==> #[trigger] put_pascal(out, s, i, cap)[k] == out[k],
    decreases s.len() - i,
{
    if i < s.len() {
        let c = s[i as int];
        if c == '_' || c == '-' {
            lemma_pascal_keeps(out, s, i + 1, true);
        } else if cap {
            lemma_pascal_keeps(out.push(ascii_upper(c)), s, i + 1, false);
        } else {
            lemma_pascal_keeps(out.push(c), s, i + 1, false);
        }
    }
}

/// PascalCase writing adds no `_` or `-`.
proof fn lemma_pascal_no_marks(out: Seq<char>, s: Seq<char>, i: nat, cap: bool)
    requires
        no_word_marks(out),
    ensures
        no_word_marks(put_pascal(out, s, i, cap)),
    decreases s.len() - i,
{
    if i < s.len() {
        let c = s[i as int];
        if c == '_' || c == '-' {
            lemma_pascal_no_marks(out, s, i + 1, true);
        } else if cap {
            let o2 = out.push(ascii_upper(c));
            assert(no_word_marks(o2)) by {
                assert forall|k: int| 0 <= k < o2.len() implies #[trigger] o2[k] != '_' && o2[k] != '-' by {
                    if k < out.len() {
                        assert(o2[k] == out[k]);
                    }
                }
            }
            lemma_pascal_no_marks(o2, s, i + 1, false);
        } else {
            let o2 = out.push(c);
            assert(no_word_marks(o2)) by {
                assert forall|k: int| 0 <= k < o2.len() implies #[trigger] o2[k] != '_' && o2[k] != '-' by {
                    if k < out.len() {
                        assert(o2[k] == out[k]);
                    }
                }
            }
            lemma_pascal_no_marks(o2, s, i + 1, false);
        }
    }
}

/// With capitalization pending, the first character written is an ASCII capital
/// (or a character that has none).
proof fn lemma_pascal_capital_first(out: Seq<char>, s: Seq<char>, i: nat)
    ensures
        put_pascal(out, s, i, true).len() > out.len() ==> ascii_upper(put_pascal(out, s, i, true)[out.len() as int])
            == put_pascal(out, s, i, true)[out.len() as int],
    decreases s.len() - i,
{
    if i < s.len() {
        let c = s[i as int];
        if c == '_' || c == '-' {
            lemma_pascal_capital_first(out, s, i + 1);
        } else {
            let o2 = out.push(ascii_upper(c));
            lemma_pascal_keeps(o2, s, i + 1, false);
            assert(put_pascal(out, s, i, true)[out.len() as int] == o2[out.len() as int]);
        }
    }
}

/// Without marks and without pending capitalization, PascalCase writing copies.
proof fn lemma_pascal_copies(out: Seq<char>, s: Seq<char>, i: nat)
    requires
        no_word_marks(s),
        i <= s.len(),
    ensures
        put_pascal(out, s, i, false) == out + s.skip(i as int),
    decreases s.len() - i,
{
    if i < s.len() {
        lemma_pascal_copies(out.push(s[i as int]), s, i + 1);
        assert(out.push(s[i as int]) + s.skip((i + 1) as int) =~= out + s.skip(i as int));
    } else {
        assert(out + s.skip(i as int) =~= out);
    }
}

/// A PascalCase name holds no `_` or `-`, and writing it in PascalCase again
/// gives it back.
pub proof fn lemma_pascal_case_idempotent(s: Seq<char>)
    ensures
        no_word_marks(pascal_case(s)),
        pascal_case(pascal_case(s)) == pascal_case(s),
{
    let t = pascal_case(s);
    lemma_pascal_no_marks(Seq::empty(), s, 0, true);
    if t.len() == 0 {
        assert(pascal_case(t) == t);
    } else {
        lemma_pascal_capital_first(Seq::empty(), s, 0);
        let c = t[0];
        assert(c != '_' && c != '-');
        lemma_pascal_copies(seq![ascii_upper(c)], t, 1);
        assert(ascii_upper(c) == c);
        assert(seq![c] + t.skip(1) =~= t);
        assert(pascal_case(t) == put_pascal(Seq::<char>::empty().push(ascii_upper(c)), t, 1, false));
        assert(Seq::<char>::empty().push(ascii_upper(c)) =~= seq![ascii_upper(c)]);
    }
}

/// Converts a case name such as `sign_in` to PascalCase.
pub fn to_pascal_case(s: &str) -> (r: String)
    ensures
        r@ == pascal_case(s@),
{
    let cs = str_chars(s);
    let mut result = String::new();
    let mut capitalize_next = true;
    let mut i: usize = 0;
    while i < cs.len()
        invariant
            i <= cs@.len(),
            cs@ == s@,
            put_pascal(result@, cs@, i as nat, capitalize_next) == pascal_case(s@),
        decreases cs.len() - i,
    {
        let c = cs[i];
        if c == '_' || c == '-' {
            capitalize_next = true;
        } else if capitalize_next {
            string_push(&mut result, to_ascii_upper(c));
            capitalize_next = false;
        } else {
            string_push(&mut result, c);
        }
        i += 1;
    }
    result
}

/// The class of the union case `case_name` of the class `n`: `n` followed by the
/// case name in PascalCase.
pub open spec fn case_class_name(n: Seq<char>, case_name: Seq<char>) -> Seq<char> {
    n + pascal_case(case_name)
}

/// The implementation class of a union case: `_$` followed by its case class and `Impl`.
pub open spec fn impl_class_name(n: Seq<char>, case_name: Seq<char>) -> Seq<char> {
    "_$"@ + case_class_name(n, case_name) + "Impl"@
}

/// Computes `case_class_name`.
pub fn case_class_name_of(n: &str, case_name: &str) -> (r: String)
    ensures
        r@ == case_class_name(n@, case_name@),
{
    let p = to_pascal_case(case_name);
    let mut r = String::from_str(n);
    r.append(p.as_str());
    r
}

/// Computes `impl_class_name`.
pub fn impl_class_name_of(n: &str, case_name: &str) -> (r: String)
    ensures
        r@ == impl_class_name(n@, case_name@),
{
    let c = case_class_name_of(n, case_name);
    let mut r = String::from_str("_$");
    r.append(c.as_str());
    r.append("Impl");
    r
}

// ---------------------------------------------------------------------------
// Pieces written for one union case
// ---------------------------------------------------------------------------

/// The pieces of text written for one case of a union class.
#[derive(Clone, Copy, Debug)]
pub enum CasePiece {
    /// A callback parameter of `when`: `    required TResult Function(Type name, ...) case,`.
    WhenLine,
    /// A callback parameter of `whenOrNull`: `    TResult? Function(Type name, ...)? case,`.
    WhenOrNullLine,
    /// A callback parameter of `maybeWhen`: `    TResult Function(Type name, ...)? case,`.
    MaybeWhenLine,
    /// A callback parameter of `map` in the mixin, taking the case class.
    MapLine,
    /// A callback parameter of `mapOrNull` in the mixin.
    MapOrNullLine,
    /// A callback parameter of `maybeMap` in the mixin.
    MaybeMapLine,
    /// A callback parameter of `map` in the implementation of the case `cur`: the case named `cur` takes its implementation class.
    MapImplLine,
    /// A callback parameter of `mapOrNull` in the implementation of the case `cur`.
    MapOrNullImplLine,
    /// A callback parameter of `maybeMap` in the implementation of the case `cur`.
    MaybeMapImplLine,
    /// The `toJson` entry of the case in the extension on the class.
    ExtensionEntry,
}

/// `o` followed by the piece `k` of the case `c` of the class `n`; `cur` names the
/// case whose implementation class is being written.
pub open spec fn put_case_piece(o: Seq<char>, c: CaseModel, n: Seq<char>, cur: Seq<char>, k: CasePiece) -> Seq<char> {
    match k {
        CasePiece::WhenLine => {
            let o1 = put_joined(o + "    required TResult Function("@, c.fields, FieldPiece::TypedFirst, FieldPiece::TypedNext);
            o1 + ") "@ + c.case_name + ",\n"@
        },
        CasePiece::WhenOrNullLine => {
            let o1 = put_joined(o + "    TResult? Function("@, c.fields, FieldPiece::TypedFirst, FieldPiece::TypedNext);
            o1 + ")? "@ + c.case_name + ",\n"@
        },
        CasePiece::MaybeWhenLine => {
            let o1 = put_joined(o + "    TResult Function("@, c.fields, FieldPiece::TypedFirst, FieldPiece::TypedNext);
            o1 + ")? "@ + c.case_name + ",\n"@
        },
        CasePiece::MapLine => {
            let o1 = o;
            o1 + "    required TResult Function("@ + case_class_name(n, c.case_name) + ") "@ + c.case_name + ",\n"@
        },
        CasePiece::MapOrNullLine => {
            let o1 = o;
            o1 + "    TResult? Function("@ + case_class_name(n, c.case_name) + ")? "@ + c.case_name + ",\n"@
        },
        CasePiece::MaybeMapLine => {
            let o1 = o;
            o1 + "    TResult Function("@ + case_class_name(n, c.case_name) + ")? "@ + c.case_name + ",\n"@
        },
        CasePiece::MapImplLine => {
            let o1 = o;
            let o2 = o1;
            let o3 = o2 + "    required TResult Function("@;
            let o4 = if c.case_name == cur { o3 + impl_class_name(n, cur) } else { o3 + case_class_name(n, c.case_name) };
            o4 + ") "@ + c.case_name + ",\n"@
        },
        CasePiece::MapOrNullImplLine => {
            let o1 = o;
            let o2 = o1;
            let o3 = o2 + "    TResult? Function("@;
            let o4 = if c.case_name == cur { o3 + impl_class_name(n, cur) } else { o3 + case_class_name(n, c.case_name) };
            o4 + ")? "@ + c.case_name + ",\n"@
        },
        CasePiece::MaybeMapImplLine => {
            let o1 = o;
            let o2 = o1;
            let o3 = o2 + "    TResult Function("@;
            let o4 = if c.case_name == cur { o3 + impl_class_name(n, cur) } else { o3 + case_class_name(n, c.case_name) };
            o4 + ")? "@ + c.case_name + ",\n"@
        },
        CasePiece::ExtensionEntry => {
            let o1 = put_joined(o + "    "@ + c.case_name + ": ("@, c.fields, FieldPiece::NameFirst, FieldPiece::NameNext);
            let o2 = fold_put(o1 + ") => <String, dynamic>{\n      'type': '"@ + c.case_name + "',\n"@, c.fields, field_piece_fn(FieldPiece::JsonEntry));
            o2 + "    },\n"@
        },
    }
}

/// Appends the piece `k` of the case `c` to `code`.
pub fn emit_case_piece(code: &mut String, c: &CaseInfo, n: &str, cur: &str, k: CasePiece)
    ensures
        final(code)@ == put_case_piece(old(code)@, c@, n@, cur@, k),
{
    match k {
        CasePiece::WhenLine => {
            code.append("    required TResult Function(");
            emit_joined(code, c.fields.as_slice(), FieldPiece::TypedFirst, FieldPiece::TypedNext);
            code.append(") ");
            code.append(c.case_name.as_str());
            code.append(",\n");
        },
        CasePiece::WhenOrNullLine => {
            code.append("    TResult? Function(");
            emit_joined(code, c.fields.as_slice(), FieldPiece::TypedFirst, FieldPiece::TypedNext);
            code.append(")? ");
            code.append(c.case_name.as_str());
            code.append(",\n");
        },
        CasePiece::MaybeWhenLine => {
            code.append("    TResult Function(");
            emit_joined(code, c.fields.as_slice(), FieldPiece::TypedFirst, FieldPiece::TypedNext);
            code.append(")? ");
            code.append(c.case_name.as_str());
            code.append(",\n");
        },
        CasePiece::MapLine => {
            let ccn = case_class_name_of(n, c.case_name.as_str());
            code.append("    required TResult Function(");
            code.append(ccn.as_str());
            code.append(") ");
            code.append(c.case_name.as_str());
            code.append(",\n");
        },
        CasePiece::MapOrNullLine => {
            let ccn = case_class_name_of(n, c.case_name.as_str());
            code.append("    TResult? Function(");
            code.append(ccn.as_str());
            code.append(")? ");
            code.append(c.case_name.as_str());
            code.append(",\n");
        },
        CasePiece::MaybeMapLine => {
            let ccn = case_class_name_of(n, c.case_name.as_str());
            code.append("    TResult Function(");
            code.append(ccn.as_str());
            code.append(")? ");
            code.append(c.case_name.as_str());
            code.append(",\n");
        },
        CasePiece::MapImplLine => {
            let ccn = case_class_name_of(n, c.case_name.as_str());
            let icur = impl_class_name_of(n, cur);
            code.append("    required TResult Function(");
            if str_eq(c.case_name.as_str(), cur) {
                code.append(icur.as_str());
            } else {
                code.append(ccn.as_str());
            }
            code.append(") ");
            code.append(c.case_name.as_str());
            code.append(",\n");
        },
        CasePiece::MapOrNullImplLine => {
            let ccn = case_class_name_of(n, c.case_name.as_str());
            let icur = impl_class_name_of(n, cur);
            code.append("    TResult? Function(");
            if str_eq(c.case_name.as_str(), cur) {
                code.append(icur.as_str());
            } else {
                code.append(ccn.as_str());
            }
            code.append(")? ");
            code.append(c.case_name.as_str());
            code.append(",\n");
        },
        CasePiece::MaybeMapImplLine => {
            let ccn = case_class_name_of(n, c.case_name.as_str());
            let icur = impl_class_name_of(n, cur);
            code.append("    TResult Function(");
            if str_eq(c.case_name.as_str(), cur) {
                code.append(icur.as_str());
            } else {
                code.append(ccn.as_str());
            }
            code.append(")? ");
            code.append(c.case_name.as_str());
            code.append(",\n");
        },
        CasePiece::ExtensionEntry => {
            code.append("    ");
            code.append(c.case_name.as_str());
            code.append(": (");
            emit_joined(code, c.fields.as_slice(), FieldPiece::NameFirst, FieldPiece::NameNext);
            code.append(") => <String, dynamic>{\n      'type': '");
            code.append(c.case_name.as_str());
            code.append("',\n");
            emit_fields(code, c.fields.as_slice(), FieldPiece::JsonEntry);
            code.append("    },\n");
        },
    }
}

/// `put_case_piece` for the piece `k`, as a function of the text so far and the case.
pub open spec fn case_piece_fn(n: Seq<char>, cur: Seq<char>, k: CasePiece) -> spec_fn(Seq<char>, CaseModel) -> Seq<char> {
    |o: Seq<char>, c: CaseModel| put_case_piece(o, c, n, cur, k)
}

/// Appends the piece `k` of each of `cases`, in order.
pub fn emit_cases(code: &mut String, cases: &[CaseInfo], n: &str, cur: &str, k: CasePiece)
    ensures
        final(code)@ == fold_put(old(code)@, cases_view(cases@), case_piece_fn(n@, cur@, k)),
{
    let ghost cs = cases_view(cases@);
    let ghost first = code@;
    let mut i: usize = 0;
    proof {
        lemma_fold_put_ends(first, cs, case_piece_fn(n@, cur@, k));
    }
    while i < cases.len()
        invariant
            i <= cases@.len(),
            cs == cases_view(cases@),
            fold_put(code@, cs.skip(i as int), case_piece_fn(n@, cur@, k)) == fold_put(first, cs, case_piece_fn(n@, cur@, k)),
        decreases cases.len() - i,
    {
        let ghost before = code@;
        emit_case_piece(code, &cases[i], n, cur, k);
        proof {
            lemma_fold_put_step(before, cs, i as int, case_piece_fn(n@, cur@, k));
        }
        i += 1;
    }
    proof {
        lemma_fold_put_ends(code@, cs, case_piece_fn(n@, cur@, k));
    }
}

// ---------------------------------------------------------------------------
// Union classes
// ---------------------------------------------------------------------------

/// The start of the code of the union class `n` with the cases `cs`: the mixin with `when`, `map` and their variants, and the `toJson` extension.
pub open spec fn put_union_head(o: Seq<char>, n: Seq<char>, cs: Seq<CaseModel>) -> Seq<char> {
    let o1 = fold_put(o + "/// @nodoc\n"@ + "mixin _$"@ + n + " {\n"@ + "  @optionalTypeArgs\n  TResult when<TResult extends Object?>({\n"@, cs, case_piece_fn(n, ""@, CasePiece::WhenLine));
    let o2 = fold_put(o1 + "  }) => throw _privateConstructorUsedError;\n"@ + "  @optionalTypeArgs\n  TResult? whenOrNull<TResult extends Object?>({\n"@, cs, case_piece_fn(n, ""@, CasePiece::WhenOrNullLine));
    let o3 = fold_put(o2 + "  }) => throw _privateConstructorUsedError;\n"@ + "  @optionalTypeArgs\n  TResult maybeWhen<TResult extends Object?>({\n"@, cs, case_piece_fn(n, ""@, CasePiece::MaybeWhenLine));
    let o4 = fold_put(o3 + "    required TResult orElse(),\n"@ + "  }) => throw _privateConstructorUsedError;\n"@ + "  @optionalTypeArgs\n  TResult map<TResult extends Object?>({\n"@, cs, case_piece_fn(n, ""@, CasePiece::MapLine));
    let o5 = fold_put(o4 + "  }) => throw _privateConstructorUsedError;\n"@ + "  @optionalTypeArgs\n  TResult? mapOrNull<TResult extends Object?>({\n"@, cs, case_piece_fn(n, ""@, CasePiece::MapOrNullLine));
    let o6 = fold_put(o5 + "  }) => throw _privateConstructorUsedError;\n"@ + "  @optionalTypeArgs\n  TResult maybeMap<TResult extends Object?>({\n"@, cs, case_piece_fn(n, ""@, CasePiece::MaybeMapLine));
    let o7 = fold_put(o6 + "    required TResult orElse(),\n"@ + "  }) => throw _privateConstructorUsedError;\n\n"@ + "  /// Serializes this "@ + n + " to a JSON map.\n  Map<String, dynamic> toJson() => throw _privateConstructorUsedError;\n}\n\n"@ + "/// @nodoc\n"@ + "extension "@ + n + "Extension on "@ + n + " {\n"@ + "  Map<String, dynamic> toJson() => when(\n"@, cs, case_piece_fn(n, ""@, CasePiece::ExtensionEntry));
    o7 + "  );\n}\n\n"@
}

/// Appends the start of the code of a union class, as `put_union_head` describes.
pub fn emit_union_head(code: &mut String, n: &str, cases: &[CaseInfo])
    ensures
        final(code)@ == put_union_head(old(code)@, n@, cases_view(cases@)),
{
    code.append("/// @nodoc\n");
    code.append("mixin _$");
    code.append(n);
    code.append(" {\n");
    code.append("  @optionalTypeArgs\n  TResult when<TResult extends Object?>({\n");
    emit_cases(code, cases, n, "", CasePiece::WhenLine);
    code.append("  }) => throw _privateConstructorUsedError;\n");
    code.append("  @optionalTypeArgs\n  TResult? whenOrNull<TResult extends Object?>({\n");
    emit_cases(code, cases, n, "", CasePiece::WhenOrNullLine);
    code.append("  }) => throw _privateConstructorUsedError;\n");
    code.append("  @optionalTypeArgs\n  TResult maybeWhen<TResult extends Object?>({\n");
    emit_cases(code, cases, n, "", CasePiece::MaybeWhenLine);
    code.append("    required TResult orElse(),\n");
    code.append("  }) => throw _privateConstructorUsedError;\n");
    code.append("  @optionalTypeArgs\n  TResult map<TResult extends Object?>({\n");
    emit_cases(code, cases, n, "", CasePiece::MapLine);
    code.append("  }) => throw _privateConstructorUsedError;\n");
    code.append("  @optionalTypeArgs\n  TResult? mapOrNull<TResult extends Object?>({\n");
    emit_cases(code, cases, n, "", CasePiece::MapOrNullLine);
    code.append("  }) => throw _privateConstructorUsedError;\n");
    code.append("  @optionalTypeArgs\n  TResult maybeMap<TResult extends Object?>({\n");
    emit_cases(code, cases, n, "", CasePiece::MaybeMapLine);
    code.append("    required TResult orElse(),\n");
    code.append("  }) => throw _privateConstructorUsedError;\n\n");
    code.append("  /// Serializes this ");
    code.append(n);
    code.append(" to a JSON map.\n  Map<String, dynamic> toJson() => throw _privateConstructorUsedError;\n}\n\n");
    code.append("/// @nodoc\n");
    code.append("extension ");
    code.append(n);
    code.append("Extension on ");
    code.append(n);
    code.append(" {\n");
    code.append("  Map<String, dynamic> toJson() => when(\n");
    emit_cases(code, cases, n, "", CasePiece::ExtensionEntry);
    code.append("  );\n}\n\n");
}

/// The code of the case `c` of the union class `n` whose cases are `cs`: the case class, its implementation and its `copyWith` classes.
pub open spec fn put_case_class(o: Seq<char>, n: Seq<char>, c: CaseModel, cs: Seq<CaseModel>) -> Seq<char> {
    let o1 = o;
    let o2 = o1 + "abstract class "@ + case_class_name(n, c.case_name) + " implements "@ + n + " {\n"@;
    let o7 = if c.fields.len() == 0 { o2 + "  const factory "@ + case_class_name(n, c.case_name) + "() = "@ + impl_class_name(n, c.case_name) + ";\n\n"@ } else { let o3 = o2; let o6 = if any_named(c.fields) { let o4 = fold_put(o3 + "  const factory "@ + case_class_name(n, c.case_name) + "({\n"@, c.fields, field_piece_fn(FieldPiece::ThisParam)); o4 + "  }) = "@ + impl_class_name(n, c.case_name) + ";\n\n"@ } else { let o5 = fold_put(o3 + "  const factory "@ + case_class_name(n, c.case_name) + "({\n"@, c.fields, field_piece_fn(FieldPiece::RequiredTypedParam)); o5 + "  }) = "@ + impl_class_name(n, c.case_name) + ";\n\n"@ }; o6 };
    let o8 = fold_put(o7, c.fields, field_piece_fn(FieldPiece::AbstractGetter));
    let o9 = o8;
    let o10 = if c.fields.len() == 0 { o9 } else { o9 + "\n"@ };
    let o11 = o10 + "  /// Create a copy of "@ + n + "\n  /// with the given fields replaced by the non-null parameter values.\n  @JsonKey(includeFromJson: false, includeToJson: false)\n"@ + "  _$$"@ + case_class_name(n, c.case_name) + "ImplCopyWith<"@ + impl_class_name(n, c.case_name) + "> get copyWith =>\n"@ + "      throw _privateConstructorUsedError;\n}\n\n"@ + "/// @nodoc\n@JsonSerializable()\n"@ + "class "@ + impl_class_name(n, c.case_name) + " implements "@ + case_class_name(n, c.case_name) + " {\n"@;
    let o13 = if c.fields.len() == 0 { o11 + "  const "@ + impl_class_name(n, c.case_name) + "();\n\n"@ } else { let o12 = fold_put(o11 + "  const "@ + impl_class_name(n, c.case_name) + "({\n"@, c.fields, field_piece_fn(FieldPiece::ThisParam)); o12 + "  });\n\n"@ };
    let o14 = o13;
    let o16 = if c.fields.len() == 0 { o14 } else { let o15 = fold_put(o14, c.fields, field_piece_fn(FieldPiece::FinalField)); o15 + "\n"@ };
    let o17 = o16 + "  @override\n"@ + "  String get $type => '"@ + c.case_name + "';\n\n"@ + "  @override\n  String toString() {\n"@;
    let o19 = if c.fields.len() == 0 { o17 + "    return '"@ + c.case_name + "';\n"@ } else { let o18 = put_joined(o17 + "    return '"@ + n + "."@ + c.case_name + "("@, c.fields, FieldPiece::ToStringFirst, FieldPiece::ToStringNext); o18 + ")';\n"@ };
    let o20 = fold_put(o19 + "  }\n\n"@ + "  @override\n  bool operator ==(Object other) {\n    return identical(this, other) ||\n"@ + "        (other.runtimeType == runtimeType && other is "@ + impl_class_name(n, c.case_name) + ");\n"@ + "  }\n\n"@ + "  @JsonKey(includeFromJson: false, includeToJson: false)\n  @override\n  int get hashCode => runtimeType.hashCode;\n\n"@ + "  @JsonKey(includeFromJson: false, includeToJson: false)\n  @override\n"@ + "  _$$"@ + case_class_name(n, c.case_name) + "ImplCopyWith<"@ + impl_class_name(n, c.case_name) + "> get copyWith =>\n"@ + "      __$$"@ + case_class_name(n, c.case_name) + "ImplCopyWithImpl<"@ + impl_class_name(n, c.case_name) + ">(this, _$identity);\n\n"@ + "  @override\n  @optionalTypeArgs\n  TResult when<TResult extends Object?>({\n"@, cs, case_piece_fn(n, c.case_name, CasePiece::WhenLine));
    let o21 = put_joined(o20 + "  }) {\n"@ + "    return "@ + c.case_name + "("@, c.fields, FieldPiece::NameFirst, FieldPiece::NameNext);
    let o22 = fold_put(o21 + ");\n  }\n\n"@ + "  @override\n  @optionalTypeArgs\n  TResult? whenOrNull<TResult extends Object?>({\n"@, cs, case_piece_fn(n, c.case_name, CasePiece::WhenOrNullLine));
    let o23 = put_joined(o22 + "  }) {\n"@ + "    return "@ + c.case_name + "?.call("@, c.fields, FieldPiece::NameFirst, FieldPiece::NameNext);
    let o24 = fold_put(o23 + ");\n  }\n\n"@ + "  @override\n  @optionalTypeArgs\n  TResult maybeWhen<TResult extends Object?>({\n"@, cs, case_piece_fn(n, c.case_name, CasePiece::MaybeWhenLine));
    let o25 = put_joined(o24 + "    required TResult orElse(),\n  }) {\n"@ + "    if ("@ + c.case_name + " != null) {\n"@ + "      return "@ + c.case_name + "("@, c.fields, FieldPiece::NameFirst, FieldPiece::NameNext);
    let o26 = fold_put(o25 + ");\n    }\n    return orElse();\n  }\n\n"@ + "  @override\n  @optionalTypeArgs\n  TResult map<TResult extends Object?>({\n"@, cs, case_piece_fn(n, c.case_name, CasePiece::MapImplLine));
    let o27 = fold_put(o26 + "  }) {\n"@ + "    return "@ + c.case_name + "(this);\n"@ + "  }\n\n"@ + "  @override\n  @optionalTypeArgs\n  TResult? mapOrNull<TResult extends Object?>({\n"@, cs, case_piece_fn(n, c.case_name, CasePiece::MapOrNullImplLine));
    let o28 = fold_put(o27 + "  }) {\n"@ + "    return "@ + c.case_name + "?.call(this);\n"@ + "  }\n\n"@ + "  @override\n  @optionalTypeArgs\n  TResult maybeMap<TResult extends Object?>({\n"@, cs, case_piece_fn(n, c.case_name, CasePiece::MaybeMapImplLine));
    let o29 = fold_put(o28 + "    required TResult orElse(),\n  }) {\n"@ + "    if ("@ + c.case_name + " != null) {\n"@ + "      return "@ + c.case_name + "(this);\n"@ + "    }\n    return orElse();\n  }\n\n"@ + "  @override\n  Map<String, dynamic> toJson() {\n    return <String, dynamic>{\n"@ + "      'type': '"@ + c.case_name + "',\n"@, c.fields, field_piece_fn(FieldPiece::JsonEntry));
    let o30 = o29 + "    };\n  }\n}\n\n"@ + "/// @nodoc\n"@ + "abstract class _$$"@ + case_class_name(n, c.case_name) + "ImplCopyWith<$Res> {\n"@ + "  factory _$$"@ + case_class_name(n, c.case_name) + "ImplCopyWith("@ + impl_class_name(n, c.case_name) + " value, $Res Function("@ + impl_class_name(n, c.case_name) + ") then) =\n"@ + "      __$$"@ + case_class_name(n, c.case_name) + "ImplCopyWithImpl<$Res>;\n\n"@;
    let o32 = if c.fields.len() == 0 { o30 + "  $Res call();\n"@ } else { let o31 = fold_put(o30 + "  $Res call({\n"@, c.fields, field_piece_fn(FieldPiece::FreezedParam)); o31 + "  });\n"@ };
    let o33 = o32 + "}\n\n"@ + "/// @nodoc\n"@ + "class __$$"@ + case_class_name(n, c.case_name) + "ImplCopyWithImpl<$Res> implements _$$"@ + case_class_name(n, c.case_name) + "ImplCopyWith<$Res> {\n"@ + "  __$$"@ + case_class_name(n, c.case_name) + "ImplCopyWithImpl(this._value, this._then);\n\n"@ + "  final "@ + impl_class_name(n, c.case_name) + " _value;\n"@ + "  final $Res Function("@ + impl_class_name(n, c.case_name) + ") _then;\n\n"@ + "  @pragma('vm:prefer-inline')\n  @override\n"@;
    let o36 = if c.fields.len() == 0 { o33 + "  $Res call() {\n    // _value is used to satisfy the unused_field warning\n    _value;\n"@ + "    return _then("@ + impl_class_name(n, c.case_name) + "());\n"@ } else { let o34 = fold_put(o33 + "  $Res call({\n"@, c.fields, field_piece_fn(FieldPiece::FreezedParam)); let o35 = fold_put(o34 + "  }) {\n"@ + "    return _then("@ + impl_class_name(n, c.case_name) + "(\n"@, c.fields, field_piece_fn(FieldPiece::CaseCopyAssign)); o35 + "    ));\n"@ };
    o36 + "  }\n}\n\n"@
}

/// Appends the code of one union case, as `put_case_class` describes.
pub fn emit_case_class(code: &mut String, n: &str, c: &CaseInfo, cases: &[CaseInfo])
    ensures
        final(code)@ == put_case_class(old(code)@, n@, c@, cases_view(cases@)),
{
    let ccn = case_class_name_of(n, c.case_name.as_str());
    let icn = impl_class_name_of(n, c.case_name.as_str());
    code.append("abstract class ");
    code.append(ccn.as_str());
    code.append(" implements ");
    code.append(n);
    code.append(" {\n");
    if c.fields.len() == 0 {
        code.append("  const factory ");
        code.append(ccn.as_str());
        code.append("() = ");
        code.append(icn.as_str());
        code.append(";\n\n");
    } else {
        if has_named_field(c.fields.as_slice()) {
            code.append("  const factory ");
            code.append(ccn.as_str());
            code.append("({\n");
            emit_fields(code, c.fields.as_slice(), FieldPiece::ThisParam);
            code.append("  }) = ");
            code.append(icn.as_str());
            code.append(";\n\n");
        } else {
            code.append("  const factory ");
            code.append(ccn.as_str());
            code.append("({\n");
            emit_fields(code, c.fields.as_slice(), FieldPiece::RequiredTypedParam);
            code.append("  }) = ");
            code.append(icn.as_str());
            code.append(";\n\n");
        }
    }
    emit_fields(code, c.fields.as_slice(), FieldPiece::AbstractGetter);
    if c.fields.len() == 0 {
    } else {
        code.append("\n");
    }
    code.append("  /// Create a copy of ");
    code.append(n);
    code.append("\n  /// with the given fields replaced by the non-null parameter values.\n  @JsonKey(includeFromJson: false, includeToJson: false)\n");
    code.append("  _$$");
    code.append(ccn.as_str());
    code.append("ImplCopyWith<");
    code.append(icn.as_str());
    code.append("> get copyWith =>\n");
    code.append("      throw _privateConstructorUsedError;\n}\n\n");
    code.append("/// @nodoc\n@JsonSerializable()\n");
    code.append("class ");
    code.append(icn.as_str());
    code.append(" implements ");
    code.append(ccn.as_str());
    code.append(" {\n");
    if c.fields.len() == 0 {
        code.append("  const ");
        code.append(icn.as_str());
        code.append("();\n\n");
    } else {
        code.append("  const ");
        code.append(icn.as_str());
        code.append("({\n");
        emit_fields(code, c.fields.as_slice(), FieldPiece::ThisParam);
        code.append("  });\n\n");
    }
    if c.fields.len() == 0 {
    } else {
        emit_fields(code, c.fields.as_slice(), FieldPiece::FinalField);
        code.append("\n");
    }
    code.append("  @override\n");
    code.append("  String get $type => '");
    code.append(c.case_name.as_str());
    code.append("';\n\n");
    code.append("  @override\n  String toString() {\n");
    if c.fields.len() == 0 {
        code.append("    return '");
        code.append(c.case_name.as_str());
        code.append("';\n");
    } else {
        code.append("    return '");
        code.append(n);
        code.append(".");
        code.append(c.case_name.as_str());
        code.append("(");
        emit_joined(code, c.fields.as_slice(), FieldPiece::ToStringFirst, FieldPiece::ToStringNext);
        code.append(")';\n");
    }
    code.append("  }\n\n");
    code.append("  @override\n  bool operator ==(Object other) {\n    return identical(this, other) ||\n");
    code.append("        (other.runtimeType == runtimeType && other is ");
    code.append(icn.as_str());
    code.append(");\n");
    code.append("  }\n\n");
    code.append("  @JsonKey(includeFromJson: false, includeToJson: false)\n  @override\n  int get hashCode => runtimeType.hashCode;\n\n");
    code.append("  @JsonKey(includeFromJson: false, includeToJson: false)\n  @override\n");
    code.append("  _$$");
    code.append(ccn.as_str());
    code.append("ImplCopyWith<");
    code.append(icn.as_str());
    code.append("> get copyWith =>\n");
    code.append("      __$$");
    code.append(ccn.as_str());
    code.append("ImplCopyWithImpl<");
    code.append(icn.as_str());
    code.append(">(this, _$identity);\n\n");
    code.append("  @override\n  @optionalTypeArgs\n  TResult when<TResult extends Object?>({\n");
    emit_cases(code, cases, n, c.case_name.as_str(), CasePiece::WhenLine);
    code.append("  }) {\n");
    code.append("    return ");
    code.append(c.case_name.as_str());
    code.append("(");
    emit_joined(code, c.fields.as_slice(), FieldPiece::NameFirst, FieldPiece::NameNext);
    code.append(");\n  }\n\n");
    code.append("  @override\n  @optionalTypeArgs\n  TResult? whenOrNull<TResult extends Object?>({\n");
    emit_cases(code, cases, n, c.case_name.as_str(), CasePiece::WhenOrNullLine);
    code.append("  }) {\n");
    code.append("    return ");
    code.append(c.case_name.as_str());
    code.append("?.call(");
    emit_joined(code, c.fields.as_slice(), FieldPiece::NameFirst, FieldPiece::NameNext);
    code.append(");\n  }\n\n");
    code.append("  @override\n  @optionalTypeArgs\n  TResult maybeWhen<TResult extends Object?>({\n");
    emit_cases(code, cases, n, c.case_name.as_str(), CasePiece::MaybeWhenLine);
    code.append("    required TResult orElse(),\n  }) {\n");
    code.append("    if (");
    code.append(c.case_name.as_str());
    code.append(" != null) {\n");
    code.append("      return ");
    code.append(c.case_name.as_str());
    code.append("(");
    emit_joined(code, c.fields.as_slice(), FieldPiece::NameFirst, FieldPiece::NameNext);
    code.append(");\n    }\n    return orElse();\n  }\n\n");
    code.append("  @override\n  @optionalTypeArgs\n  TResult map<TResult extends Object?>({\n");
    emit_cases(code, cases, n, c.case_name.as_str(), CasePiece::MapImplLine);
    code.append("  }) {\n");
    code.append("    return ");
    code.append(c.case_name.as_str());
    code.append("(this);\n");
    code.append("  }\n\n");
    code.append("  @override\n  @optionalTypeArgs\n  TResult? mapOrNull<TResult extends Object?>({\n");
    emit_cases(code, cases, n, c.case_name.as_str(), CasePiece::MapOrNullImplLine);
    code.append("  }) {\n");
    code.append("    return ");
    code.append(c.case_name.as_str());
    code.append("?.call(this);\n");
    code.append("  }\n\n");
    code.append("  @override\n  @optionalTypeArgs\n  TResult maybeMap<TResult extends Object?>({\n");
    emit_cases(code, cases, n, c.case_name.as_str(), CasePiece::MaybeMapImplLine);
    code.append("    required TResult orElse(),\n  }) {\n");
    code.append("    if (");
    code.append(c.case_name.as_str());
    code.append(" != null) {\n");
    code.append("      return ");
    code.append(c.case_name.as_str());
    code.append("(this);\n");
    code.append("    }\n    return orElse();\n  }\n\n");
    code.append("  @override\n  Map<String, dynamic> toJson() {\n    return <String, dynamic>{\n");
    code.append("      'type': '");
    code.append(c.case_name.as_str());
    code.append("',\n");
    emit_fields(code, c.fields.as_slice(), FieldPiece::JsonEntry);
    code.append("    };\n  }\n}\n\n");
    code.append("/// @nodoc\n");
    code.append("abstract class _$$");
    code.append(ccn.as_str());
    code.append("ImplCopyWith<$Res> {\n");
    code.append("  factory _$$");
    code.append(ccn.as_str());
    code.append("ImplCopyWith(");
    code.append(icn.as_str());
    code.append(" value, $Res Function(");
    code.append(icn.as_str());
    code.append(") then) =\n");
    code.append("      __$$");
    code.append(ccn.as_str());
    code.append("ImplCopyWithImpl<$Res>;\n\n");
    if c.fields.len() == 0 {
        code.append("  $Res call();\n");
    } else {
        code.append("  $Res call({\n");
        emit_fields(code, c.fields.as_slice(), FieldPiece::FreezedParam);
        code.append("  });\n");
    }
    code.append("}\n\n");
    code.append("/// @nodoc\n");
    code.append("class __$$");
    code.append(ccn.as_str());
    code.append("ImplCopyWithImpl<$Res> implements _$$");
    code.append(ccn.as_str());
    code.append("ImplCopyWith<$Res> {\n");
    code.append("  __$$");
    code.append(ccn.as_str());
    code.append("ImplCopyWithImpl(this._value, this._then);\n\n");
    code.append("  final ");
    code.append(icn.as_str());
    code.append(" _value;\n");
    code.append("  final $Res Function(");
    code.append(icn.as_str());
    code.append(") _then;\n\n");
    code.append("  @pragma('vm:prefer-inline')\n  @override\n");
    if c.fields.len() == 0 {
        code.append("  $Res call() {\n    // _value is used to satisfy the unused_field warning\n    _value;\n");
        code.append("    return _then(");
        code.append(icn.as_str());
        code.append("());\n");
    } else {
        code.append("  $Res call({\n");
        emit_fields(code, c.fields.as_slice(), FieldPiece::FreezedParam);
        code.append("  }) {\n");
        code.append("    return _then(");
        code.append(icn.as_str());
        code.append("(\n");
        emit_fields(code, c.fields.as_slice(), FieldPiece::CaseCopyAssign);
        code.append("    ));\n");
    }
    code.append("  }\n}\n\n");
}

// ---------------------------------------------------------------------------
// Regular classes
// ---------------------------------------------------------------------------

/// The first part of the code of the regular (non-union) class `n` with the fields `fs`: its `fromJson` function, its mixin and its `copyWith` classes.
pub open spec fn put_regular_head(o: Seq<char>, n: Seq<char>, fs: Seq<FieldModel>) -> Seq<char> {
    let o1 = fold_put(o + n + " _$"@ + n + "FromJson(Map<String, dynamic> json) {\n"@ + "  return _$"@ + n + "Impl.fromJson(json);\n"@ + "}\n\n"@ + "/// @nodoc\n"@ + "mixin _$"@ + n + " {\n"@, fs, field_piece_fn(FieldPiece::GetterLine));
    let o2 = fold_put(o1 + "\n"@ + "  /// Serializes this "@ + n + " to a JSON map.\n"@ + "  Map<String, dynamic> toJson() => throw _privateConstructorUsedError;\n\n"@ + "  /// Create a copy of "@ + n + "\n"@ + "  /// with the given fields replaced by the non-null parameter values.\n"@ + "  @JsonKey(includeFromJson: false, includeToJson: false)\n"@ + "  $"@ + n + "CopyWith<"@ + n + "> get copyWith => throw _privateConstructorUsedError;\n"@ + "}\n\n"@ + "/// @nodoc\n"@ + "abstract class $"@ + n + "CopyWith<$Res> {\n"@ + "  factory $"@ + n + "CopyWith("@ + n + " value, $Res Function("@ + n + ") then) =\n"@ + "      _$"@ + n + "CopyWithImpl<$Res, "@ + n + ">;\n"@ + "  @useResult\n"@ + "  $Res call({"@, fs, field_piece_fn(FieldPiece::CallParam));
    let o3 = fold_put(o2 + "\n  });\n"@ + "}\n\n"@ + "/// @nodoc\n"@ + "class _$"@ + n + "CopyWithImpl<$Res, $Val extends "@ + n + ">\n"@ + "    implements $"@ + n + "CopyWith<$Res> {\n"@ + "  _$"@ + n + "CopyWithImpl(this._value, this._then);\n"@ + "\n"@ + "  // ignore: unused_field\n"@ + "  final $Val _value;\n"@ + "  // ignore: unused_field\n"@ + "  final $Res Function($Val) _then;\n"@ + "  /// Create a copy of "@ + n + "\n"@ + "  /// with the given fields replaced by the non-null parameter values.\n"@ + "  @pragma('vm:prefer-inline')\n"@ + "  @override\n"@ + "  $Res call({"@, fs, field_piece_fn(FieldPiece::ObjectParam));
    let o4 = fold_put(o3 + "\n  }) {\n"@ + "    return _then(_value.copyWith(\n"@, fs, field_piece_fn(FieldPiece::CopyAssign));
    let o5 = fold_put(o4 + "    ) as $Val);\n"@ + "  }\n"@ + "}\n\n"@ + "/// @nodoc\n"@ + "abstract class _$$$"@ + n + "ImplImplCopyWith<$Res> implements $"@ + n + "CopyWith<$Res> {\n"@ + "  factory _$$$"@ + n + "ImplImplCopyWith(\n"@ + "          _$$"@ + n + "ImplImpl value, $Res Function(_$$"@ + n + "ImplImpl) then) =\n"@ + "      __$$$"@ + n + "ImplImplCopyWithImpl<$Res>;\n"@ + "  @override\n"@ + "  @useResult\n"@ + "  $Res call({"@, fs, field_piece_fn(FieldPiece::ObjectParam));
    let o6 = fold_put(o5 + "\n  });\n"@ + "}\n\n"@ + "/// @nodoc\n"@ + "class __$$$"@ + n + "ImplImplCopyWithImpl<$Res>\n"@ + "    extends _$"@ + n + "CopyWithImpl<$Res, _$$"@ + n + "ImplImpl>\n"@ + "    implements _$$$"@ + n + "ImplImplCopyWith<$Res> {\n"@ + "  __$$$"@ + n + "ImplImplCopyWithImpl(\n"@ + "      _$$"@ + n + "ImplImpl _value, $Res Function(_$$"@ + n + "ImplImpl) _then)\n"@ + "      : super(_value, _then);\n"@ + "\n"@ + "  /// Create a copy of "@ + n + "\n"@ + "  /// with the given fields replaced by the non-null parameter values.\n"@ + "  @pragma('vm:prefer-inline')\n"@ + "  @override\n"@ + "  $Res call({"@, fs, field_piece_fn(FieldPiece::ObjectParam));
    let o7 = fold_put(o6 + "\n  }) {\n"@ + "    return _then(_$$"@ + n + "ImplImpl(\n"@, fs, field_piece_fn(FieldPiece::CopyAssign));
    o7 + "    ));\n"@ + "  }\n"@ + "}\n\n"@
}

/// Appends the first part of the code of a regular class, as `put_regular_head` describes.
pub fn emit_regular_head(code: &mut String, n: &str, fields: &[DartField])
    ensures
        final(code)@ == put_regular_head(old(code)@, n@, fields_view(fields@)),
{
    code.append(n);
    code.append(" _$");
    code.append(n);
    code.append("FromJson(Map<String, dynamic> json) {\n");
    code.append("  return _$");
    code.append(n);
    code.append("Impl.fromJson(json);\n");
    code.append("}\n\n");
    code.append("/// @nodoc\n");
    code.append("mixin _$");
    code.append(n);
    code.append(" {\n");
    emit_fields(code, fields, FieldPiece::GetterLine);
    code.append("\n");
    code.append("  /// Serializes this ");
    code.append(n);
    code.append(" to a JSON map.\n");
    code.append("  Map<String, dynamic> toJson() => throw _privateConstructorUsedError;\n\n");
    code.append("  /// Create a copy of ");
    code.append(n);
    code.append("\n");
    code.append("  /// with the given fields replaced by the non-null parameter values.\n");
    code.append("  @JsonKey(includeFromJson: false, includeToJson: false)\n");
    code.append("  $");
    code.append(n);
    code.append("CopyWith<");
    code.append(n);
    code.append("> get copyWith => throw _privateConstructorUsedError;\n");
    code.append("}\n\n");
    code.append("/// @nodoc\n");
    code.append("abstract class $");
    code.append(n);
    code.append("CopyWith<$Res> {\n");
    code.append("  factory $");
    code.append(n);
    code.append("CopyWith(");
    code.append(n);
    code.append(" value, $Res Function(");
    code.append(n);
    code.append(") then) =\n");
    code.append("      _$");
    code.append(n);
    code.append("CopyWithImpl<$Res, ");
    code.append(n);
    code.append(">;\n");
    code.append("  @useResult\n");
    code.append("  $Res call({");
    emit_fields(code, fields, FieldPiece::CallParam);
    code.append("\n  });\n");
    code.append("}\n\n");
    code.append("/// @nodoc\n");
    code.append("class _$");
    code.append(n);
    code.append("CopyWithImpl<$Res, $Val extends ");
    code.append(n);
    code.append(">\n");
    code.append("    implements $");
    code.append(n);
    code.append("CopyWith<$Res> {\n");
    code.append("  _$");
    code.append(n);
    code.append("CopyWithImpl(this._value, this._then);\n");
    code.append("\n");
    code.append("  // ignore: unused_field\n");
    code.append("  final $Val _value;\n");
    code.append("  // ignore: unused_field\n");
    code.append("  final $Res Function($Val) _then;\n");
    code.append("  /// Create a copy of ");
    code.append(n);
    code.append("\n");
    code.append("  /// with the given fields replaced by the non-null parameter values.\n");
    code.append("  @pragma('vm:prefer-inline')\n");
    code.append("  @override\n");
    code.append("  $Res call({");
    emit_fields(code, fields, FieldPiece::ObjectParam);
    code.append("\n  }) {\n");
    code.append("    return _then(_value.copyWith(\n");
    emit_fields(code, fields, FieldPiece::CopyAssign);
    code.append("    ) as $Val);\n");
    code.append("  }\n");
    code.append("}\n\n");
    code.append("/// @nodoc\n");
    code.append("abstract class _$$$");
    code.append(n);
    code.append("ImplImplCopyWith<$Res> implements $");
    code.append(n);
    code.append("CopyWith<$Res> {\n");
    code.append("  factory _$$$");
    code.append(n);
    code.append("ImplImplCopyWith(\n");
    code.append("          _$$");
    code.append(n);
    code.append("ImplImpl value, $Res Function(_$$");
    code.append(n);
    code.append("ImplImpl) then) =\n");
    code.append("      __$$$");
    code.append(n);
    code.append("ImplImplCopyWithImpl<$Res>;\n");
    code.append("  @override\n");
    code.append("  @useResult\n");
    code.append("  $Res call({");
    emit_fields(code, fields, FieldPiece::ObjectParam);
    code.append("\n  });\n");
    code.append("}\n\n");
    code.append("/// @nodoc\n");
    code.append("class __$$$");
    code.append(n);
    code.append("ImplImplCopyWithImpl<$Res>\n");
    code.append("    extends _$");
    code.append(n);
    code.append("CopyWithImpl<$Res, _$$");
    code.append(n);
    code.append("ImplImpl>\n");
    code.append("    implements _$$$");
    code.append(n);
    code.append("ImplImplCopyWith<$Res> {\n");
    code.append("  __$$$");
    code.append(n);
    code.append("ImplImplCopyWithImpl(\n");
    code.append("      _$$");
    code.append(n);
    code.append("ImplImpl _value, $Res Function(_$$");
    code.append(n);
    code.append("ImplImpl) _then)\n");
    code.append("      : super(_value, _then);\n");
    code.append("\n");
    code.append("  /// Create a copy of ");
    code.append(n);
    code.append("\n");
    code.append("  /// with the given fields replaced by the non-null parameter values.\n");
    code.append("  @pragma('vm:prefer-inline')\n");
    code.append("  @override\n");
    code.append("  $Res call({");
    emit_fields(code, fields, FieldPiece::ObjectParam);
    code.append("\n  }) {\n");
    code.append("    return _then(_$$");
    code.append(n);
    code.append("ImplImpl(\n");
    emit_fields(code, fields, FieldPiece::CopyAssign);
    code.append("    ));\n");
    code.append("  }\n");
    code.append("}\n\n");
}

/// The second part of the code of the regular class `n` with the fields `fs`: its implementation class and the abstract `_$NameImpl` class.
pub open spec fn put_regular_tail(o: Seq<char>, n: Seq<char>, fs: Seq<FieldModel>) -> Seq<char> {
    let o1 = fold_put(o + "/// @nodoc\n"@ + "@JsonSerializable()\n"@ + "class _$$"@ + n + "ImplImpl implements _$"@ + n + "Impl {\n"@ + "  const _$$"@ + n + "ImplImpl(\n"@ + "      {"@, fs, field_piece_fn(FieldPiece::CtorParam));
    let o2 = fold_put(o1 + "});\n\n"@ + "  factory _$$"@ + n + "ImplImpl.fromJson(Map<String, dynamic> json) =>\n"@ + "      _$$"@ + n + "ImplImplFromJson(json);\n\n"@, fs, field_piece_fn(FieldPiece::FinalField));
    let o3 = put_joined(o2 + "\n"@ + "  @override\n"@ + "  String toString() {\n"@ + "    return '"@ + n + "("@, fs, FieldPiece::ToStringFirst, FieldPiece::ToStringNext);
    let o4 = fold_put(o3 + ")';\n"@ + "  }\n\n"@ + "  @override\n"@ + "  bool operator ==(Object other) {\n"@ + "    return identical(this, other) ||\n"@ + "        (other.runtimeType == runtimeType &&\n"@ + "            other is _$$"@ + n + "ImplImpl &&\n"@, fs, field_piece_fn(FieldPiece::EqLine));
    let o5 = if ends_with(o4, " &&\n"@) { o4.take(o4.len() - 4) } else { o4 };
    let o6 = fold_put(o5 + ");\n"@ + "  }\n\n"@ + "  @JsonKey(includeFromJson: false, includeToJson: false)\n"@ + "  @override\n"@ + "  int get hashCode => Object.hash(\n"@ + "      runtimeType,\n"@, fs, field_piece_fn(FieldPiece::HashLine));
    let o7 = fold_put(o6 + "  );\n\n"@ + "  /// Create a copy of "@ + n + "\n"@ + "  /// with the given fields replaced by the non-null parameter values.\n"@ + "  @JsonKey(includeFromJson: false, includeToJson: false)\n"@ + "  @override\n"@ + "  @pragma('vm:prefer-inline')\n"@ + "  _$$$"@ + n + "ImplImplCopyWith<_$$"@ + n + "ImplImpl> get copyWith =>\n"@ + "      __$$$"@ + n + "ImplImplCopyWithImpl<_$$"@ + n + "ImplImpl>(this, _$identity);\n"@ + "\n"@ + "  @override\n"@ + "  Map<String, dynamic> toJson() {\n"@ + "    return _$$"@ + n + "ImplImplToJson(\n"@ + "      this,\n"@ + "    );\n"@ + "  }\n"@ + "}\n\n"@ + "abstract class _$"@ + n + "Impl implements "@ + n + " {\n"@ + "  const factory _$"@ + n + "Impl(\n"@ + "    {\n"@, fs, field_piece_fn(FieldPiece::FactoryParam));
    let o8 = fold_put(o7 + "    }\n  ) = _$$"@ + n + "ImplImpl;\n\n"@ + "  factory _$"@ + n + "Impl.fromJson(Map<String, dynamic> json) =\n"@ + "      _$$"@ + n + "ImplImpl.fromJson;\n\n"@, fs, field_piece_fn(FieldPiece::OverrideGetter));
    o8 + "\n"@ + "  /// Create a copy of "@ + n + "\n"@ + "  /// with the given fields replaced by the non-null parameter values.\n"@ + "  @override\n"@ + "  @JsonKey(includeFromJson: false, includeToJson: false)\n"@ + "  _$$$"@ + n + "ImplImplCopyWith<_$$"@ + n + "ImplImpl> get copyWith =>\n"@ + "      throw _privateConstructorUsedError;\n"@ + "}\n\n"@
}

/// Appends the second part of the code of a regular class, as `put_regular_tail` describes.
pub fn emit_regular_tail(code: &mut String, n: &str, fields: &[DartField])
    ensures
        final(code)@ == put_regular_tail(old(code)@, n@, fields_view(fields@)),
{
    code.append("/// @nodoc\n");
    code.append("@JsonSerializable()\n");
    code.append("class _$$");
    code.append(n);
    code.append("ImplImpl implements _$");
    code.append(n);
    code.append("Impl {\n");
    code.append("  const _$$");
    code.append(n);
    code.append("ImplImpl(\n");
    code.append("      {");
    emit_fields(code, fields, FieldPiece::CtorParam);
    code.append("});\n\n");
    code.append("  factory _$$");
    code.append(n);
    code.append("ImplImpl.fromJson(Map<String, dynamic> json) =>\n");
    code.append("      _$$");
    code.append(n);
    code.append("ImplImplFromJson(json);\n\n");
    emit_fields(code, fields, FieldPiece::FinalField);
    code.append("\n");
    code.append("  @override\n");
    code.append("  String toString() {\n");
    code.append("    return '");
    code.append(n);
    code.append("(");
    emit_joined(code, fields, FieldPiece::ToStringFirst, FieldPiece::ToStringNext);
    code.append(")';\n");
    code.append("  }\n\n");
    code.append("  @override\n");
    code.append("  bool operator ==(Object other) {\n");
    code.append("    return identical(this, other) ||\n");
    code.append("        (other.runtimeType == runtimeType &&\n");
    code.append("            other is _$$");
    code.append(n);
    code.append("ImplImpl &&\n");
    emit_fields(code, fields, FieldPiece::EqLine);
    proof {
        reveal_strlit(" &&\n");
    }
    let cs = str_chars(code.as_str());
    let tail = str_chars(" &&\n");
    if ends_with_slice(cs.as_slice(), tail.as_slice()) {
        *code = string_of(cs.as_slice(), 0, cs.len() - 4);
    }
    code.append(");\n");
    code.append("  }\n\n");
    code.append("  @JsonKey(includeFromJson: false, includeToJson: false)\n");
    code.append("  @override\n");
    code.append("  int get hashCode => Object.hash(\n");
    code.append("      runtimeType,\n");
    emit_fields(code, fields, FieldPiece::HashLine);
    code.append("  );\n\n");
    code.append("  /// Create a copy of ");
    code.append(n);
    code.append("\n");
    code.append("  /// with the given fields replaced by the non-null parameter values.\n");
    code.append("  @JsonKey(includeFromJson: false, includeToJson: false)\n");
    code.append("  @override\n");
    code.append("  @pragma('vm:prefer-inline')\n");
    code.append("  _$$$");
    code.append(n);
    code.append("ImplImplCopyWith<_$$");
    code.append(n);
    code.append("ImplImpl> get copyWith =>\n");
    code.append("      __$$$");
    code.append(n);
    code.append("ImplImplCopyWithImpl<_$$");
    code.append(n);
    code.append("ImplImpl>(this, _$identity);\n");
    code.append("\n");
    code.append("  @override\n");
    code.append("  Map<String, dynamic> toJson() {\n");
    code.append("    return _$$");
    code.append(n);
    code.append("ImplImplToJson(\n");
    code.append("      this,\n");
    code.append("    );\n");
    code.append("  }\n");
    code.append("}\n\n");
    code.append("abstract class _$");
    code.append(n);
    code.append("Impl implements ");
    code.append(n);
    code.append(" {\n");
    code.append("  const factory _$");
    code.append(n);
    code.append("Impl(\n");
    code.append("    {\n");
    emit_fields(code, fields, FieldPiece::FactoryParam);
    code.append("    }\n  ) = _$$");
    code.append(n);
    code.append("ImplImpl;\n\n");
    code.append("  factory _$");
    code.append(n);
    code.append("Impl.fromJson(Map<String, dynamic> json) =\n");
    code.append("      _$$");
    code.append(n);
    code.append("ImplImpl.fromJson;\n\n");
    emit_fields(code, fields, FieldPiece::OverrideGetter);
    code.append("\n");
    code.append("  /// Create a copy of ");
    code.append(n);
    code.append("\n");
    code.append("  /// with the given fields replaced by the non-null parameter values.\n");
    code.append("  @override\n");
    code.append("  @JsonKey(includeFromJson: false, includeToJson: false)\n");
    code.append("  _$$$");
    code.append(n);
    code.append("ImplImplCopyWith<_$$");
    code.append(n);
    code.append("ImplImpl> get copyWith =>\n");
    code.append("      throw _privateConstructorUsedError;\n");
    code.append("}\n\n");
}

/// `put_case_class` for the class `n` with the cases `cs`, as a function of the text
/// so far and the case.
pub open spec fn case_class_fn(n: Seq<char>, cs: Seq<CaseModel>) -> spec_fn(Seq<char>, CaseModel) -> Seq<char> {
    |o: Seq<char>, c: CaseModel| put_case_class(o, n, c, cs)
}

/// The code of the union class `n` with the cases `cs`: its start, then the code of
/// each case in order.
pub open spec fn union_class_text(n: Seq<char>, cs: Seq<CaseModel>) -> Seq<char> {
    fold_put(put_union_head(Seq::empty(), n, cs), cs, case_class_fn(n, cs))
}

/// Writes the code of the union class `n` with the cases `cases`.
pub fn union_class_code(n: &str, cases: &[CaseInfo]) -> (r: String)
    ensures
        r@ == union_class_text(n@, cases_view(cases@)),
{
    let ghost cs = cases_view(cases@);
    let mut code = String::new();
    emit_union_head(&mut code, n, cases);
    let ghost head = code@;
    let mut i: usize = 0;
    proof {
        lemma_fold_put_ends(head, cs, case_class_fn(n@, cs));
    }
    while i < cases.len()
        invariant
            i <= cases@.len(),
            cs == cases_view(cases@),
            fold_put(code@, cs.skip(i as int), case_class_fn(n@, cs)) == fold_put(head, cs, case_class_fn(n@, cs)),
        decreases cases.len() - i,
    {
        let ghost before = code@;
        emit_case_class(&mut code, n, &cases[i], cases);
        proof {
            lemma_fold_put_step(before, cs, i as int, case_class_fn(n@, cs));
        }
        i += 1;
    }
    proof {
        lemma_fold_put_ends(code@, cs, case_class_fn(n@, cs));
    }
    code
}

/// The code of the regular class `n` with the fields `fs`.
pub open spec fn regular_class_text(n: Seq<char>, fs: Seq<FieldModel>) -> Seq<char> {
    put_regular_tail(put_regular_head(Seq::empty(), n, fs), n, fs)
}

// ---------------------------------------------------------------------------
// No comparison left dangling in `operator ==`
// ---------------------------------------------------------------------------

/// The texts of the field `f` hold no `&`.
pub open spec fn field_lacks_amp(f: FieldModel) -> bool {
    &&& lacks_char(f.name, '&')
    &&& lacks_char(f.ty, '&')
    &&& (f.default_value matches Some(d) ==> lacks_char(d, '&'))
}

/// `s` holds `&` and a line break at `k`.
spec fn amp_break_at(s: Seq<char>, k: int) -> bool {
    s[k] == '&' && s[k + 1] == '\n'
}

/// In `s`, every `&` followed by a line break is followed next by a space.
spec fn amp_breaks_indented(s: Seq<char>) -> bool {
    forall|k: int| 0 <= k && k + 2 < s.len() && #[trigger] amp_break_at(s, k) ==> s[k + 2] == ' '
}

/// `s` ends with ` &&` and a line break, after a character that is neither `&` nor a line break.
spec fn ends_amp_line(s: Seq<char>) -> bool {
    &&& s.len() >= 5
    &&& s[s.len() - 4] == ' ' && s[s.len() - 3] == '&' && s[s.len() - 2] == '&' && s[s.len() - 1] == '\n'
    &&& s[s.len() - 5] != '&' && s[s.len() - 5] != '\n'
}

/// `s` ends neither with `&` nor with `&` and a line break.
spec fn ends_clear(s: Seq<char>) -> bool {
    &&& !(s.len() >= 1 && s.last() == '&')
    &&& !(s.len() >= 2 && s[s.len() - 2] == '&' && s.last() == '\n')
}

/// Text that a space-indented line or text without `&` may follow.
spec fn amp_ok(s: Seq<char>) -> bool {
    amp_breaks_indented(s) && ends_clear(s)
}

/// Text in the middle of the comparisons of `operator ==`.
spec fn eq_ok(s: Seq<char>) -> bool {
    amp_breaks_indented(s) && ends_amp_line(s)
}

/// Appending text without `&` keeps `amp_ok`.
proof fn lemma_append_amp_ok(s: Seq<char>, x: Seq<char>)
    requires
        amp_ok(s),
        lacks_char(x, '&'),
    ensures
        amp_ok(s + x),
{
    let t = s + x;
    assert forall|k: int| 0 <= k && k + 2 < t.len() && #[trigger] amp_break_at(t, k) implies t[k + 2] == ' ' by {
        if k + 2 < s.len() {
            assert(amp_break_at(s, k));
        } else if k < s.len() {
            assert(t[k] == s[k]);
            if k + 1 < s.len() {
                assert(t[k + 1] == s[k + 1]);
            } else {
                assert(t[k + 1] == x[0]);
            }
        } else {
            assert(t[k] == x[k - s.len()]);
        }
    }
    if x.len() == 0 {
        assert(t =~= s);
    } else {
        assert(t.last() == x.last());
        if x.len() == 1 {
            if s.len() > 0 {
                assert(t[t.len() - 2] == s.last());
            }
        } else {
            assert(t[t.len() - 2] == x[x.len() - 2]);
        }
    }
}

/// Appending a space-indented line that ends with ` &&` gives text in the middle of
/// the comparisons.
proof fn lemma_amp_line(s: Seq<char>, e: Seq<char>)
    requires
        amp_breaks_indented(s),
        ends_clear(s) || ends_amp_line(s),
        e.len() >= 5,
        e[0] == ' ',
        ends_amp_line(e),
        lacks_char(e.take(e.len() - 3), '&'),
    ensures
        eq_ok(s + e),
{
    let t = s + e;
    assert forall|k: int| 0 <= k && k + 2 < t.len() && #[trigger] amp_break_at(t, k) implies t[k + 2] == ' ' by {
        if k + 2 < s.len() {
            assert(amp_break_at(s, k));
        } else if k < s.len() {
            assert(t[k] == s[k]);
            if k + 1 < s.len() {
                assert(t[k + 1] == s[k + 1]);
                assert(t[k + 2] == e[0]);
            } else {
                assert(t[k + 1] == e[0]);
            }
        } else {
            let j = k - s.len();
            assert(t[k] == e[j]);
            assert(t[k + 1] == e[j + 1]);
            if j < e.len() - 3 {
                assert(e.take(e.len() - 3)[j] == e[j]);
            }
        }
    }
    assert(t[t.len() - 1] == e[e.len() - 1]);
    assert(t[t.len() - 2] == e[e.len() - 2]);
    assert(t[t.len() - 3] == e[e.len() - 3]);
    assert(t[t.len() - 4] == e[e.len() - 4]);
    assert(t[t.len() - 5] == e[e.len() - 5]);
}

/// The piece `GetterLine` of a field is appended to the text before it, and holds no
/// `&` when the field's texts hold none.
proof fn lemma_piece_amp_getter_line(o: Seq<char>, f: FieldModel)
    ensures
        put_field_piece(o, f, FieldPiece::GetterLine) == o + put_field_piece(Seq::empty(), f, FieldPiece::GetterLine),
        field_lacks_amp(f) ==> lacks_char(put_field_piece(Seq::empty(), f, FieldPiece::GetterLine), '&'),
{
    reveal_strlit("  ");
    reveal_strlit(" => throw _privateConstructorUsedError;\n");
    reveal_strlit(" get ");
    assert(put_field_piece(o, f, FieldPiece::GetterLine) =~= o + put_field_piece(Seq::empty(), f, FieldPiece::GetterLine));
}

/// The piece `CallParam` of a field is appended to the text before it, and holds no
/// `&` when the field's texts hold none.
proof fn lemma_piece_amp_call_param(o: Seq<char>, f: FieldModel)
    ensures
        put_field_piece(o, f, FieldPiece::CallParam) == o + put_field_piece(Seq::empty(), f, FieldPiece::CallParam),
        field_lacks_amp(f) ==> lacks_char(put_field_piece(Seq::empty(), f, FieldPiece::CallParam), '&'),
{
    reveal_strlit(" ");
    reveal_strlit(",");
    reveal_strlit("\n      ");
    assert(put_field_piece(o, f, FieldPiece::CallParam) =~= o + put_field_piece(Seq::empty(), f, FieldPiece::CallParam));
}

/// The piece `ObjectParam` of a field is appended to the text before it, and holds no
/// `&` when the field's texts hold none.
proof fn lemma_piece_amp_object_param(o: Seq<char>, f: FieldModel)
    ensures
        put_field_piece(o, f, FieldPiece::ObjectParam) == o + put_field_piece(Seq::empty(), f, FieldPiece::ObjectParam),
        field_lacks_amp(f) ==> lacks_char(put_field_piece(Seq::empty(), f, FieldPiece::ObjectParam), '&'),
{
    reveal_strlit(" = ");
    reveal_strlit(",");
    reveal_strlit("?");
    reveal_strlit("\n    Object? ");
    reveal_strlit("freezed");
    reveal_strlit("null");
    assert(put_field_piece(o, f, FieldPiece::ObjectParam) =~= o + put_field_piece(Seq::empty(), f, FieldPiece::ObjectParam));
}

/// The piece `CopyAssign` of a field is appended to the text before it, and holds no
/// `&` when the field's texts hold none.
proof fn lemma_piece_amp_copy_assign(o: Seq<char>, f: FieldModel)
    ensures
        put_field_piece(o, f, FieldPiece::CopyAssign) == o + put_field_piece(Seq::empty(), f, FieldPiece::CopyAssign),
        field_lacks_amp(f) ==> lacks_char(put_field_piece(Seq::empty(), f, FieldPiece::CopyAssign), '&'),
{
    reveal_strlit("      ");
    reveal_strlit("              as ");
    reveal_strlit("          : ");
    reveal_strlit("          ? _value.");
    reveal_strlit(" // ignore: cast_nullable_to_non_nullable\n");
    reveal_strlit(",\n");
    reveal_strlit(": freezed == ");
    reveal_strlit(": null == ");
    reveal_strlit("?");
    reveal_strlit("\n");
    assert(put_field_piece(o, f, FieldPiece::CopyAssign) =~= o + put_field_piece(Seq::empty(), f, FieldPiece::CopyAssign));
}

/// The piece `CtorParam` of a field is appended to the text before it, and holds no
/// `&` when the field's texts hold none.
proof fn lemma_piece_amp_ctor_param(o: Seq<char>, f: FieldModel)
    ensures
        put_field_piece(o, f, FieldPiece::CtorParam) == o + put_field_piece(Seq::empty(), f, FieldPiece::CtorParam),
        field_lacks_amp(f) ==> lacks_char(put_field_piece(Seq::empty(), f, FieldPiece::CtorParam), '&'),
{
    reveal_strlit(" = ");
    reveal_strlit(" = const ");
    reveal_strlit(",");
    reveal_strlit("?");
    reveal_strlit("List<");
    reveal_strlit("[]");
    reveal_strlit("required this.");
    reveal_strlit("this.");
    assert(put_field_piece(o, f, FieldPiece::CtorParam) =~= o + put_field_piece(Seq::empty(), f, FieldPiece::CtorParam));
}

/// The piece `FinalField` of a field is appended to the text before it, and holds no
/// `&` when the field's texts hold none.
proof fn lemma_piece_amp_final_field(o: Seq<char>, f: FieldModel)
    ensures
        put_field_piece(o, f, FieldPiece::FinalField) == o + put_field_piece(Seq::empty(), f, FieldPiece::FinalField),
        field_lacks_amp(f) ==> lacks_char(put_field_piece(Seq::empty(), f, FieldPiece::FinalField), '&'),
{
    reveal_strlit(" ");
    reveal_strlit("  @override\n");
    reveal_strlit("  final ");
    reveal_strlit(";\n");
    assert(put_field_piece(o, f, FieldPiece::FinalField) =~= o + put_field_piece(Seq::empty(), f, FieldPiece::FinalField));
}

/// The piece `ToStringFirst` of a field is appended to the text before it, and holds no
/// `&` when the field's texts hold none.
proof fn lemma_piece_amp_to_string_first(o: Seq<char>, f: FieldModel)
    ensures
        put_field_piece(o, f, FieldPiece::ToStringFirst) == o + put_field_piece(Seq::empty(), f, FieldPiece::ToStringFirst),
        field_lacks_amp(f) ==> lacks_char(put_field_piece(Seq::empty(), f, FieldPiece::ToStringFirst), '&'),
{
    reveal_strlit(": $");
    assert(put_field_piece(o, f, FieldPiece::ToStringFirst) =~= o + put_field_piece(Seq::empty(), f, FieldPiece::ToStringFirst));
}

/// The piece `ToStringNext` of a field is appended to the text before it, and holds no
/// `&` when the field's texts hold none.
proof fn lemma_piece_amp_to_string_next(o: Seq<char>, f: FieldModel)
    ensures
        put_field_piece(o, f, FieldPiece::ToStringNext) == o + put_field_piece(Seq::empty(), f, FieldPiece::ToStringNext),
        field_lacks_amp(f) ==> lacks_char(put_field_piece(Seq::empty(), f, FieldPiece::ToStringNext), '&'),
{
    reveal_strlit(", ");
    reveal_strlit(": $");
    assert(put_field_piece(o, f, FieldPiece::ToStringNext) =~= o + put_field_piece(Seq::empty(), f, FieldPiece::ToStringNext));
}

/// The piece `HashLine` of a field is appended to the text before it, and holds no
/// `&` when the field's texts hold none.
proof fn lemma_piece_amp_hash_line(o: Seq<char>, f: FieldModel)
    ensures
        put_field_piece(o, f, FieldPiece::HashLine) == o + put_field_piece(Seq::empty(), f, FieldPiece::HashLine),
        field_lacks_amp(f) ==> lacks_char(put_field_piece(Seq::empty(), f, FieldPiece::HashLine), '&'),
{
    reveal_strlit("      ");
    reveal_strlit("      const DeepCollectionEquality().hash(attendees),\n");
    reveal_strlit("      const DeepCollectionEquality().hash(tags),\n");
    reveal_strlit(",\n");
    reveal_strlit("attendees");
    reveal_strlit("tags");
    assert(put_field_piece(o, f, FieldPiece::HashLine) =~= o + put_field_piece(Seq::empty(), f, FieldPiece::HashLine));
}

/// The piece `FactoryParam` of a field is appended to the text before it, and holds no
/// `&` when the field's texts hold none.
proof fn lemma_piece_amp_factory_param(o: Seq<char>, f: FieldModel)
    ensures
        put_field_piece(o, f, FieldPiece::FactoryParam) == o + put_field_piece(Seq::empty(), f, FieldPiece::FactoryParam),
        field_lacks_amp(f) ==> lacks_char(put_field_piece(Seq::empty(), f, FieldPiece::FactoryParam), '&'),
{
    reveal_strlit(" ");
    reveal_strlit("      final ");
    reveal_strlit("      required final ");
    reveal_strlit(",\n");
    reveal_strlit("?");
    assert(put_field_piece(o, f, FieldPiece::FactoryParam) =~= o + put_field_piece(Seq::empty(), f, FieldPiece::FactoryParam));
}

/// The piece `OverrideGetter` of a field is appended to the text before it, and holds no
/// `&` when the field's texts hold none.
proof fn lemma_piece_amp_override_getter(o: Seq<char>, f: FieldModel)
    ensures
        put_field_piece(o, f, FieldPiece::OverrideGetter) == o + put_field_piece(Seq::empty(), f, FieldPiece::OverrideGetter),
        field_lacks_amp(f) ==> lacks_char(put_field_piece(Seq::empty(), f, FieldPiece::OverrideGetter), '&'),
{
    reveal_strlit("  ");
    reveal_strlit("  @override\n");
    reveal_strlit(" get ");
    reveal_strlit(";\n");
    assert(put_field_piece(o, f, FieldPiece::OverrideGetter) =~= o + put_field_piece(Seq::empty(), f, FieldPiece::OverrideGetter));
}

/// The comparison piece of a field is appended to the text before it.
proof fn lemma_piece_appends_eq(o: Seq<char>, f: FieldModel)
    ensures
        put_field_piece(o, f, FieldPiece::EqLine) == o + put_field_piece(Seq::empty(), f, FieldPiece::EqLine),
{
    assert(put_field_piece(o, f, FieldPiece::EqLine) =~= o + put_field_piece(Seq::empty(), f, FieldPiece::EqLine));
}

/// The pieces of a regular class other than comparisons are appended to the text
/// before them, and hold no `&` when the field's texts hold none.
proof fn lemma_piece_amp(o: Seq<char>, f: FieldModel, k: FieldPiece)
    requires
        k == FieldPiece::GetterLine || k == FieldPiece::CallParam || k == FieldPiece::ObjectParam
            || k == FieldPiece::CopyAssign || k == FieldPiece::CtorParam || k == FieldPiece::FinalField
            || k == FieldPiece::ToStringFirst || k == FieldPiece::ToStringNext || k == FieldPiece::HashLine
            || k == FieldPiece::FactoryParam || k == FieldPiece::OverrideGetter,
    ensures
        put_field_piece(o, f, k) == o + put_field_piece(Seq::empty(), f, k),
        field_lacks_amp(f) ==> lacks_char(put_field_piece(Seq::empty(), f, k), '&'),
{
    match k {
        FieldPiece::GetterLine => lemma_piece_amp_getter_line(o, f),
        FieldPiece::CallParam => lemma_piece_amp_call_param(o, f),
        FieldPiece::ObjectParam => lemma_piece_amp_object_param(o, f),
        FieldPiece::CopyAssign => lemma_piece_amp_copy_assign(o, f),
        FieldPiece::CtorParam => lemma_piece_amp_ctor_param(o, f),
        FieldPiece::FinalField => lemma_piece_amp_final_field(o, f),
        FieldPiece::ToStringFirst => lemma_piece_amp_to_string_first(o, f),
        FieldPiece::ToStringNext => lemma_piece_amp_to_string_next(o, f),
        FieldPiece::HashLine => lemma_piece_amp_hash_line(o, f),
        FieldPiece::FactoryParam => lemma_piece_amp_factory_param(o, f),
        FieldPiece::OverrideGetter => lemma_piece_amp_override_getter(o, f),
        _ => {},
    }
}

/// The comparison of a field is a space-indented line ending with ` &&` when the field's texts hold no `&`.
proof fn lemma_eq_piece_shape(f: FieldModel)
    requires
        field_lacks_amp(f),
    ensures
        ({
            let e = put_field_piece(Seq::empty(), f, FieldPiece::EqLine);
            &&& e.len() >= 5
            &&& e[0] == ' '
            &&& ends_amp_line(e)
            &&& lacks_char(e.take(e.len() - 3), '&')
        }),
{
    reveal_strlit("            const DeepCollectionEquality().equals(other.tags, tags) &&\n");
    reveal_strlit("            const DeepCollectionEquality()\n                .equals(other.attendees, attendees) &&\n");
    reveal_strlit(") &&\n");
    reveal_strlit("            (identical(other.");
    reveal_strlit(", ");
    reveal_strlit(") || other.");
    reveal_strlit(" == ");
    reveal_strlit("            const DeepCollectionEquality().equals(other.tags, tags)");
    reveal_strlit("            const DeepCollectionEquality()\n                .equals(other.attendees, attendees)");
    reveal_strlit(")");
    let e = put_field_piece(Seq::empty(), f, FieldPiece::EqLine);
    reveal_strlit("            const DeepCollectionEquality().equals(other.tags, tags) ");
    reveal_strlit("            const DeepCollectionEquality()\n                .equals(other.attendees, attendees) ");
    reveal_strlit(") ");
    if f.name == "tags"@ {
        assert(e.take(e.len() - 3) =~= "            const DeepCollectionEquality().equals(other.tags, tags) "@);
    } else if f.name == "attendees"@ {
        assert(e.take(e.len() - 3) =~= "            const DeepCollectionEquality()\n                .equals(other.attendees, attendees) "@);
    } else {
        assert(e.take(e.len() - 3) =~= "            (identical(other."@ + f.name + ", "@ + f.name + ") || other."@ + f.name + " == "@ + f.name + ") "@);
    }
}

/// Writing pieces other than comparisons of fields without `&` keeps `amp_ok`.
proof fn lemma_fields_amp_ok(o: Seq<char>, fs: Seq<FieldModel>, k: FieldPiece)
    requires
        amp_ok(o),
        k == FieldPiece::GetterLine || k == FieldPiece::CallParam || k == FieldPiece::ObjectParam
            || k == FieldPiece::CopyAssign || k == FieldPiece::CtorParam || k == FieldPiece::FinalField
            || k == FieldPiece::HashLine || k == FieldPiece::FactoryParam || k == FieldPiece::OverrideGetter
            || k == FieldPiece::ToStringNext,
        forall|i: int| 0 <= i < fs.len() ==> field_lacks_amp(#[trigger] fs[i]),
    ensures
        amp_ok(fold_put(o, fs, field_piece_fn(k))),
    decreases fs.len(),
{
    if fs.len() > 0 {
        lemma_piece_amp(o, fs[0], k);
        lemma_append_amp_ok(o, put_field_piece(Seq::empty(), fs[0], k));
        let more = fs.drop_first();
        assert forall|i: int| 0 <= i < more.len() implies field_lacks_amp(#[trigger] more[i]) by {
            assert(more[i] == fs[i + 1]);
        }
        lemma_fields_amp_ok(put_field_piece(o, fs[0], k), more, k);
    }
}

/// Writing joined pieces other than comparisons of fields without `&` keeps `amp_ok`.
proof fn lemma_joined_amp_ok(o: Seq<char>, fs: Seq<FieldModel>, first: FieldPiece, next: FieldPiece)
    requires
        amp_ok(o),
        first == FieldPiece::ToStringFirst,
        next == FieldPiece::ToStringNext,
        forall|i: int| 0 <= i < fs.len() ==> field_lacks_amp(#[trigger] fs[i]),
    ensures
        amp_ok(put_joined(o, fs, first, next)),
{
    if fs.len() > 0 {
        lemma_piece_amp(o, fs[0], first);
        lemma_append_amp_ok(o, put_field_piece(Seq::empty(), fs[0], first));
        let more = fs.skip(1);
        assert forall|i: int| 0 <= i < more.len() implies field_lacks_amp(#[trigger] more[i]) by {
            assert(more[i] == fs[i + 1]);
        }
        lemma_fields_amp_ok(put_field_piece(o, fs[0], first), more, next);
    }
}

/// Writing the comparisons of fields without `&` keeps `eq_ok`.
proof fn lemma_eq_lines_ok(o: Seq<char>, fs: Seq<FieldModel>)
    requires
        eq_ok(o),
        forall|i: int| 0 <= i < fs.len() ==> field_lacks_amp(#[trigger] fs[i]),
    ensures
        eq_ok(fold_put(o, fs, field_piece_fn(FieldPiece::EqLine))),
    decreases fs.len(),
{
    if fs.len() > 0 {
        lemma_piece_appends_eq(o, fs[0]);
        lemma_eq_piece_shape(fs[0]);
        lemma_amp_line(o, put_field_piece(Seq::empty(), fs[0], FieldPiece::EqLine));
        let more = fs.drop_first();
        assert forall|i: int| 0 <= i < more.len() implies field_lacks_amp(#[trigger] more[i]) by {
            assert(more[i] == fs[i + 1]);
        }
        lemma_eq_lines_ok(put_field_piece(o, fs[0], FieldPiece::EqLine), more);
    }
}

/// Cutting the ` &&` of the last comparison leaves text that `amp_ok` holds of.
proof fn lemma_strip_amp_line(s: Seq<char>)
    requires
        eq_ok(s),
    ensures
        ends_with(s, " &&\n"@),
        amp_ok(s.take(s.len() - 4)),
{
    reveal_strlit(" &&\n");
    assert(s.subrange(s.len() - 4, s.len() as int) =~= " &&\n"@);
    let t = s.take(s.len() - 4);
    assert forall|k: int| 0 <= k && k + 2 < t.len() && #[trigger] amp_break_at(t, k) implies t[k + 2] == ' ' by {
        assert(amp_break_at(s, k));
    }
    assert(t.last() == s[s.len() - 5]);
}

/// One step of `lemma_regular_head_amp_ok`: a part of the first part of a regular class keeps `amp_ok`.
proof fn lemma_regular_head_step_1(s: Seq<char>, n: Seq<char>, fs: Seq<FieldModel>)
    requires
        amp_ok(s),
        lacks_char(n, '&'),
        forall|i: int| 0 <= i < fs.len() ==> field_lacks_amp(#[trigger] fs[i]),
    ensures
        amp_ok(fold_put(s + n + " _$"@ + n + "FromJson(Map<String, dynamic> json) {\n"@ + "  return _$"@ + n + "Impl.fromJson(json);\n"@ + "}\n\n"@ + "/// @nodoc\n"@ + "mixin _$"@ + n + " {\n"@, fs, field_piece_fn(FieldPiece::GetterLine))),
{
    lemma_append_amp_ok(s, n);
    reveal_strlit(" _$");
    assert(lacks_char(" _$"@, '&'));
    lemma_append_amp_ok(s + n, " _$"@);
    lemma_append_amp_ok(s + n + " _$"@, n);
    reveal_strlit("FromJson(Map<String, dynamic> json) {\n");
    assert(lacks_char("FromJson(Map<String, dynamic> json) {\n"@, '&'));
    lemma_append_amp_ok(s + n + " _$"@ + n, "FromJson(Map<String, dynamic> json) {\n"@);
    reveal_strlit("  return _$");
    assert(lacks_char("  return _$"@, '&'));
    lemma_append_amp_ok(s + n + " _$"@ + n + "FromJson(Map<String, dynamic> json) {\n"@, "  return _$"@);
    lemma_append_amp_ok(s + n + " _$"@ + n + "FromJson(Map<String, dynamic> json) {\n"@ + "  return _$"@, n);
    reveal_strlit("Impl.fromJson(json);\n");
    assert(lacks_char("Impl.fromJson(json);\n"@, '&'));
    lemma_append_amp_ok(s + n + " _$"@ + n + "FromJson(Map<String, dynamic> json) {\n"@ + "  return _$"@ + n, "Impl.fromJson(json);\n"@);
    reveal_strlit("}\n\n");
    assert(lacks_char("}\n\n"@, '&'));
    lemma_append_amp_ok(s + n + " _$"@ + n + "FromJson(Map<String, dynamic> json) {\n"@ + "  return _$"@ + n + "Impl.fromJson(json);\n"@, "}\n\n"@);
    reveal_strlit("/// @nodoc\n");
    assert(lacks_char("/// @nodoc\n"@, '&'));
    lemma_append_amp_ok(s + n + " _$"@ + n + "FromJson(Map<String, dynamic> json) {\n"@ + "  return _$"@ + n + "Impl.fromJson(json);\n"@ + "}\n\n"@, "/// @nodoc\n"@);
    reveal_strlit("mixin _$");
    assert(lacks_char("mixin _$"@, '&'));
    lemma_append_amp_ok(s + n + " _$"@ + n + "FromJson(Map<String, dynamic> json) {\n"@ + "  return _$"@ + n + "Impl.fromJson(json);\n"@ + "}\n\n"@ + "/// @nodoc\n"@, "mixin _$"@);
    lemma_append_amp_ok(s + n + " _$"@ + n + "FromJson(Map<String, dynamic> json) {\n"@ + "  return _$"@ + n + "Impl.fromJson(json);\n"@ + "}\n\n"@ + "/// @nodoc\n"@ + "mixin _$"@, n);
    reveal_strlit(" {\n");
    assert(lacks_char(" {\n"@, '&'));
    lemma_append_amp_ok(s + n + " _$"@ + n + "FromJson(Map<String, dynamic> json) {\n"@ + "  return _$"@ + n + "Impl.fromJson(json);\n"@ + "}\n\n"@ + "/// @nodoc\n"@ + "mixin _$"@ + n, " {\n"@);
    lemma_fields_amp_ok(s + n + " _$"@ + n + "FromJson(Map<String, dynamic> json) {\n"@ + "  return _$"@ + n + "Impl.fromJson(json);\n"@ + "}\n\n"@ + "/// @nodoc\n"@ + "mixin _$"@ + n + " {\n"@, fs, FieldPiece::GetterLine);}

/// One step of `lemma_regular_head_amp_ok`: a part of the first part of a regular class keeps `amp_ok`.
proof fn lemma_regular_head_step_2(s: Seq<char>, n: Seq<char>, fs: Seq<FieldModel>)
    requires
        amp_ok(s),
        lacks_char(n, '&'),
        forall|i: int| 0 <= i < fs.len() ==> field_lacks_amp(#[trigger] fs[i]),
    ensures
        amp_ok(fold_put(s + "\n"@ + "  /// Serializes this "@ + n + " to a JSON map.\n"@ + "  Map<String, dynamic> toJson() => throw _privateConstructorUsedError;\n\n"@ + "  /// Create a copy of "@ + n + "\n"@ + "  /// with the given fields replaced by the non-null parameter values.\n"@ + "  @JsonKey(includeFromJson: false, includeToJson: false)\n"@ + "  $"@ + n + "CopyWith<"@ + n + "> get copyWith => throw _privateConstructorUsedError;\n"@ + "}\n\n"@ + "/// @nodoc\n"@ + "abstract class $"@ + n + "CopyWith<$Res> {\n"@ + "  factory $"@ + n + "CopyWith("@ + n + " value, $Res Function("@ + n + ") then) =\n"@ + "      _$"@ + n + "CopyWithImpl<$Res, "@ + n + ">;\n"@ + "  @useResult\n"@ + "  $Res call({"@, fs, field_piece_fn(FieldPiece::CallParam))),
{
    reveal_strlit("\n");
    assert(lacks_char("\n"@, '&'));
    lemma_append_amp_ok(s, "\n"@);
    reveal_strlit("  /// Serializes this ");
    assert(lacks_char("  /// Serializes this "@, '&'));
    lemma_append_amp_ok(s + "\n"@, "  /// Serializes this "@);
    lemma_append_amp_ok(s + "\n"@ + "  /// Serializes this "@, n);
    reveal_strlit(" to a JSON map.\n");
    assert(lacks_char(" to a JSON map.\n"@, '&'));
    lemma_append_amp_ok(s + "\n"@ + "  /// Serializes this "@ + n, " to a JSON map.\n"@);
    reveal_strlit("  Map<String, dynamic> toJson() => throw _privateConstructorUsedError;\n\n");
    assert(lacks_char("  Map<String, dynamic> toJson() => throw _privateConstructorUsedError;\n\n"@, '&'));
    lemma_append_amp_ok(s + "\n"@ + "  /// Serializes this "@ + n + " to a JSON map.\n"@, "  Map<String, dynamic> toJson() => throw _privateConstructorUsedError;\n\n"@);
    reveal_strlit("  /// Create a copy of ");
    assert(lacks_char("  /// Create a copy of "@, '&'));
    lemma_append_amp_ok(s + "\n"@ + "  /// Serializes this "@ + n + " to a JSON map.\n"@ + "  Map<String, dynamic> toJson() => throw _privateConstructorUsedError;\n\n"@, "  /// Create a copy of "@);
    lemma_append_amp_ok(s + "\n"@ + "  /// Serializes this "@ + n + " to a JSON map.\n"@ + "  Map<String, dynamic> toJson() => throw _privateConstructorUsedError;\n\n"@ + "  /// Create a copy of "@, n);
    reveal_strlit("\n");
    assert(lacks_char("\n"@, '&'));
    lemma_append_amp_ok(s + "\n"@ + "  /// Serializes this "@ + n + " to a JSON map.\n"@ + "  Map<String, dynamic> toJson() => throw _privateConstructorUsedError;\n\n"@ + "  /// Create a copy of "@ + n, "\n"@);
    reveal_strlit("  /// with the given fields replaced by the non-null parameter values.\n");
    assert(lacks_char("  /// with the given fields replaced by the non-null parameter values.\n"@, '&'));
    lemma_append_amp_ok(s + "\n"@ + "  /// Serializes this "@ + n + " to a JSON map.\n"@ + "  Map<String, dynamic> toJson() => throw _privateConstructorUsedError;\n\n"@ + "  /// Create a copy of "@ + n + "\n"@, "  /// with the given fields replaced by the non-null parameter values.\n"@);
    reveal_strlit("  @JsonKey(includeFromJson: false, includeToJson: false)\n");
    assert(lacks_char("  @JsonKey(includeFromJson: false, includeToJson: false)\n"@, '&'));
    lemma_append_amp_ok(s + "\n"@ + "  /// Serializes this "@ + n + " to a JSON map.\n"@ + "  Map<String, dynamic> toJson() => throw _privateConstructorUsedError;\n\n"@ + "  /// Create a copy of "@ + n + "\n"@ + "  /// with the given fields replaced by the non-null parameter values.\n"@, "  @JsonKey(includeFromJson: false, includeToJson: false)\n"@);
    reveal_strlit("  $");
    assert(lacks_char("  $"@, '&'));
    lemma_append_amp_ok(s + "\n"@ + "  /// Serializes this "@ + n + " to a JSON map.\n"@ + "  Map<String, dynamic> toJson() => throw _privateConstructorUsedError;\n\n"@ + "  /// Create a copy of "@ + n + "\n"@ + "  /// with the given fields replaced by the non-null parameter values.\n"@ + "  @JsonKey(includeFromJson: false, includeToJson: false)\n"@, "  $"@);
    lemma_append_amp_ok(s + "\n"@ + "  /// Serializes this "@ + n + " to a JSON map.\n"@ + "  Map<String, dynamic> toJson() => throw _privateConstructorUsedError;\n\n"@ + "  /// Create a copy of "@ + n + "\n"@ + "  /// with the given fields replaced by the non-null parameter values.\n"@ + "  @JsonKey(includeFromJson: false, includeToJson: false)\n"@ + "  $"@, n);
    reveal_strlit("CopyWith<");
    assert(lacks_char("CopyWith<"@, '&'));
    lemma_append_amp_ok(s + "\n"@ + "  /// Serializes this "@ + n + " to a JSON map.\n"@ + "  Map<String, dynamic> toJson() => throw _privateConstructorUsedError;\n\n"@ + "  /// Create a copy of "@ + n + "\n"@ + "  /// with the given fields replaced by the non-null parameter values.\n"@ + "  @JsonKey(includeFromJson: false, includeToJson: false)\n"@ + "  $"@ + n, "CopyWith<"@);
    lemma_append_amp_ok(s + "\n"@ + "  /// Serializes this "@ + n + " to a JSON map.\n"@ + "  Map<String, dynamic> toJson() => throw _privateConstructorUsedError;\n\n"@ + "  /// Create a copy of "@ + n + "\n"@ + "  /// with the given fields replaced by the non-null parameter values.\n"@ + "  @JsonKey(includeFromJson: false, includeToJson: false)\n"@ + "  $"@ + n + "CopyWith<"@, n);
    reveal_strlit("> get copyWith => throw _privateConstructorUsedError;\n");
    assert(lacks_char("> get copyWith => throw _privateConstructorUsedError;\n"@, '&'));
    lemma_append_amp_ok(s + "\n"@ + "  /// Serializes this "@ + n + " to a JSON map.\n"@ + "  Map<String, dynamic> toJson() => throw _privateConstructorUsedError;\n\n"@ + "  /// Create a copy of "@ + n + "\n"@ + "  /// with the given fields replaced by the non-null parameter values.\n"@ + "  @JsonKey(includeFromJson: false, includeToJson: false)\n"@ + "  $"@ + n + "CopyWith<"@ + n, "> get copyWith => throw _privateConstructorUsedError;\n"@);
    reveal_strlit("}\n\n");
    assert(lacks_char("}\n\n"@, '&'));
    lemma_append_amp_ok(s + "\n"@ + "  /// Serializes this "@ + n + " to a JSON map.\n"@ + "  Map<String, dynamic> toJson() => throw _privateConstructorUsedError;\n\n"@ + "  /// Create a copy of "@ + n + "\n"@ + "  /// with the given fields replaced by the non-null parameter values.\n"@ + "  @JsonKey(includeFromJson: false, includeToJson: false)\n"@ + "  $"@ + n + "CopyWith<"@ + n + "> get copyWith => throw _privateConstructorUsedError;\n"@, "}\n\n"@);
    reveal_strlit("/// @nodoc\n");
    assert(lacks_char("/// @nodoc\n"@, '&'));
    lemma_append_amp_ok(s + "\n"@ + "  /// Serializes this "@ + n + " to a JSON map.\n"@ + "  Map<String, dynamic> toJson() => throw _privateConstructorUsedError;\n\n"@ + "  /// Create a copy of "@ + n + "\n"@ + "  /// with the given fields replaced by the non-null parameter values.\n"@ + "  @JsonKey(includeFromJson: false, includeToJson: false)\n"@ + "  $"@ + n + "CopyWith<"@ + n + "> get copyWith => throw _privateConstructorUsedError;\n"@ + "}\n\n"@, "/// @nodoc\n"@);
    reveal_strlit("abstract class $");
    assert(lacks_char("abstract class $"@, '&'));
    lemma_append_amp_ok(s + "\n"@ + "  /// Serializes this "@ + n + " to a JSON map.\n"@ + "  Map<String, dynamic> toJson() => throw _privateConstructorUsedError;\n\n"@ + "  /// Create a copy of "@ + n + "\n"@ + "  /// with the given fields replaced by the non-null parameter values.\n"@ + "  @JsonKey(includeFromJson: false, includeToJson: false)\n"@ + "  $"@ + n + "CopyWith<"@ + n + "> get copyWith => throw _privateConstructorUsedError;\n"@ + "}\n\n"@ + "/// @nodoc\n"@, "abstract class $"@);
    lemma_append_amp_ok(s + "\n"@ + "  /// Serializes this "@ + n + " to a JSON map.\n"@ + "  Map<String, dynamic> toJson() => throw _privateConstructorUsedError;\n\n"@ + "  /// Create a copy of "@ + n + "\n"@ + "  /// with the given fields replaced by the non-null parameter values.\n"@ + "  @JsonKey(includeFromJson: false, includeToJson: false)\n"@ + "  $"@ + n + "CopyWith<"@ + n + "> get copyWith => throw _privateConstructorUsedError;\n"@ + "}\n\n"@ + "/// @nodoc\n"@ + "abstract class $"@, n);
    reveal_strlit("CopyWith<$Res> {\n");
    assert(lacks_char("CopyWith<$Res> {\n"@, '&'));
    lemma_append_amp_ok(s + "\n"@ + "  /// Serializes this "@ + n + " to a JSON map.\n"@ + "  Map<String, dynamic> toJson() => throw _privateConstructorUsedError;\n\n"@ + "  /// Create a copy of "@ + n + "\n"@ + "  /// with the given fields replaced by the non-null parameter values.\n"@ + "  @JsonKey(includeFromJson: false, includeToJson: false)\n"@ + "  $"@ + n + "CopyWith<"@ + n + "> get copyWith => throw _privateConstructorUsedError;\n"@ + "}\n\n"@ + "/// @nodoc\n"@ + "abstract class $"@ + n, "CopyWith<$Res> {\n"@);
    reveal_strlit("  factory $");
    assert(lacks_char("  factory $"@, '&'));
    lemma_append_amp_ok(s + "\n"@ + "  /// Serializes this "@ + n + " to a JSON map.\n"@ + "  Map<String, dynamic> toJson() => throw _privateConstructorUsedError;\n\n"@ + "  /// Create a copy of "@ + n + "\n"@ + "  /// with the given fields replaced by the non-null parameter values.\n"@ + "  @JsonKey(includeFromJson: false, includeToJson: false)\n"@ + "  $"@ + n + "CopyWith<"@ + n + "> get copyWith => throw _privateConstructorUsedError;\n"@ + "}\n\n"@ + "/// @nodoc\n"@ + "abstract class $"@ + n + "CopyWith<$Res> {\n"@, "  factory $"@);
    lemma_append_amp_ok(s + "\n"@ + "  /// Serializes this "@ + n + " to a JSON map.\n"@ + "  Map<String, dynamic> toJson() => throw _privateConstructorUsedError;\n\n"@ + "  /// Create a copy of "@ + n + "\n"@ + "  /// with the given fields replaced by the non-null parameter values.\n"@ + "  @JsonKey(includeFromJson: false, includeToJson: false)\n"@ + "  $"@ + n + "CopyWith<"@ + n + "> get copyWith => throw _privateConstructorUsedError;\n"@ + "}\n\n"@ + "/// @nodoc\n"@ + "abstract class $"@ + n + "CopyWith<$Res> {\n"@ + "  factory $"@, n);
    reveal_strlit("CopyWith(");
    assert(lacks_char("CopyWith("@, '&'));
    lemma_append_amp_ok(s + "\n"@ + "  /// Serializes this "@ + n + " to a JSON map.\n"@ + "  Map<String, dynamic> toJson() => throw _privateConstructorUsedError;\n\n"@ + "  /// Create a copy of "@ + n + "\n"@ + "  /// with the given fields replaced by the non-null parameter values.\n"@ + "  @JsonKey(includeFromJson: false, includeToJson: false)\n"@ + "  $"@ + n + "CopyWith<"@ + n + "> get copyWith => throw _privateConstructorUsedError;\n"@ + "}\n\n"@ + "/// @nodoc\n"@ + "abstract class $"@ + n + "CopyWith<$Res> {\n"@ + "  factory $"@ + n, "CopyWith("@);
    lemma_append_amp_ok(s + "\n"@ + "  /// Serializes this "@ + n + " to a JSON map.\n"@ + "  Map<String, dynamic> toJson() => throw _privateConstructorUsedError;\n\n"@ + "  /// Create a copy of "@ + n + "\n"@ + "  /// with the given fields replaced by the non-null parameter values.\n"@ + "  @JsonKey(includeFromJson: false, includeToJson: false)\n"@ + "  $"@ + n + "CopyWith<"@ + n + "> get copyWith => throw _privateConstructorUsedError;\n"@ + "}\n\n"@ + "/// @nodoc\n"@ + "abstract class $"@ + n + "CopyWith<$Res> {\n"@ + "  factory $"@ + n + "CopyWith("@, n);
    reveal_strlit(" value, $Res Function(");
    assert(lacks_char(" value, $Res Function("@, '&'));
    lemma_append_amp_ok(s + "\n"@ + "  /// Serializes this "@ + n + " to a JSON map.\n"@ + "  Map<String, dynamic> toJson() => throw _privateConstructorUsedError;\n\n"@ + "  /// Create a copy of "@ + n + "\n"@ + "  /// with the given fields replaced by the non-null parameter values.\n"@ + "  @JsonKey(includeFromJson: false, includeToJson: false)\n"@ + "  $"@ + n + "CopyWith<"@ + n + "> get copyWith => throw _privateConstructorUsedError;\n"@ + "}\n\n"@ + "/// @nodoc\n"@ + "abstract class $"@ + n + "CopyWith<$Res> {\n"@ + "  factory $"@ + n + "CopyWith("@ + n, " value, $Res Function("@);
    lemma_append_amp_ok(s + "\n"@ + "  /// Serializes this "@ + n + " to a JSON map.\n"@ + "  Map<String, dynamic> toJson() => throw _privateConstructorUsedError;\n\n"@ + "  /// Create a copy of "@ + n + "\n"@ + "  /// with the given fields replaced by the non-null parameter values.\n"@ + "  @JsonKey(includeFromJson: false, includeToJson: false)\n"@ + "  $"@ + n + "CopyWith<"@ + n + "> get copyWith => throw _privateConstructorUsedError;\n"@ + "}\n\n"@ + "/// @nodoc\n"@ + "abstract class $"@ + n + "CopyWith<$Res> {\n"@ + "  factory $"@ + n + "CopyWith("@ + n + " value, $Res Function("@, n);
    reveal_strlit(") then) =\n");
    assert(lacks_char(") then) =\n"@, '&'));
    lemma_append_amp_ok(s + "\n"@ + "  /// Serializes this "@ + n + " to a JSON map.\n"@ + "  Map<String, dynamic> toJson() => throw _privateConstructorUsedError;\n\n"@ + "  /// Create a copy of "@ + n + "\n"@ + "  /// with the given fields replaced by the non-null parameter values.\n"@ + "  @JsonKey(includeFromJson: false, includeToJson: false)\n"@ + "  $"@ + n + "CopyWith<"@ + n + "> get copyWith => throw _privateConstructorUsedError;\n"@ + "}\n\n"@ + "/// @nodoc\n"@ + "abstract class $"@ + n + "CopyWith<$Res> {\n"@ + "  factory $"@ + n + "CopyWith("@ + n + " value, $Res Function("@ + n, ") then) =\n"@);
    reveal_strlit("      _$");
    assert(lacks_char("      _$"@, '&'));
    lemma_append_amp_ok(s + "\n"@ + "  /// Serializes this "@ + n + " to a JSON map.\n"@ + "  Map<String, dynamic> toJson() => throw _privateConstructorUsedError;\n\n"@ + "  /// Create a copy of "@ + n + "\n"@ + "  /// with the given fields replaced by the non-null parameter values.\n"@ + "  @JsonKey(includeFromJson: false, includeToJson: false)\n"@ + "  $"@ + n + "CopyWith<"@ + n + "> get copyWith => throw _privateConstructorUsedError;\n"@ + "}\n\n"@ + "/// @nodoc\n"@ + "abstract class $"@ + n + "CopyWith<$Res> {\n"@ + "  factory $"@ + n + "CopyWith("@ + n + " value, $Res Function("@ + n + ") then) =\n"@, "      _$"@);
    lemma_append_amp_ok(s + "\n"@ + "  /// Serializes this "@ + n + " to a JSON map.\n"@ + "  Map<String, dynamic> toJson() => throw _privateConstructorUsedError;\n\n"@ + "  /// Create a copy of "@ + n + "\n"@ + "  /// with the given fields replaced by the non-null parameter values.\n"@ + "  @JsonKey(includeFromJson: false, includeToJson: false)\n"@ + "  $"@ + n + "CopyWith<"@ + n + "> get copyWith => throw _privateConstructorUsedError;\n"@ + "}\n\n"@ + "/// @nodoc\n"@ + "abstract class $"@ + n + "CopyWith<$Res> {\n"@ + "  factory $"@ + n + "CopyWith("@ + n + " value, $Res Function("@ + n + ") then) =\n"@ + "      _$"@, n);
    reveal_strlit("CopyWithImpl<$Res, ");
    assert(lacks_char("CopyWithImpl<$Res, "@, '&'));
    lemma_append_amp_ok(s + "\n"@ + "  /// Serializes this "@ + n + " to a JSON map.\n"@ + "  Map<String, dynamic> toJson() => throw _privateConstructorUsedError;\n\n"@ + "  /// Create a copy of "@ + n + "\n"@ + "  /// with the given fields replaced by the non-null parameter values.\n"@ + "  @JsonKey(includeFromJson: false, includeToJson: false)\n"@ + "  $"@ + n + "CopyWith<"@ + n + "> get copyWith => throw _privateConstructorUsedError;\n"@ + "}\n\n"@ + "/// @nodoc\n"@ + "abstract class $"@ + n + "CopyWith<$Res> {\n"@ + "  factory $"@ + n + "CopyWith("@ + n + " value, $Res Function("@ + n + ") then) =\n"@ + "      _$"@ + n, "CopyWithImpl<$Res, "@);
    lemma_append_amp_ok(s + "\n"@ + "  /// Serializes this "@ + n + " to a JSON map.\n"@ + "  Map<String, dynamic> toJson() => throw _privateConstructorUsedError;\n\n"@ + "  /// Create a copy of "@ + n + "\n"@ + "  /// with the given fields replaced by the non-null parameter values.\n"@ + "  @JsonKey(includeFromJson: false, includeToJson: false)\n"@ + "  $"@ + n + "CopyWith<"@ + n + "> get copyWith => throw _privateConstructorUsedError;\n"@ + "}\n\n"@ + "/// @nodoc\n"@ + "abstract class $"@ + n + "CopyWith<$Res> {\n"@ + "  factory $"@ + n + "CopyWith("@ + n + " value, $Res Function("@ + n + ") then) =\n"@ + "      _$"@ + n + "CopyWithImpl<$Res, "@, n);
    reveal_strlit(">;\n");
    assert(lacks_char(">;\n"@, '&'));
    lemma_append_amp_ok(s + "\n"@ + "  /// Serializes this "@ + n + " to a JSON map.\n"@ + "  Map<String, dynamic> toJson() => throw _privateConstructorUsedError;\n\n"@ + "  /// Create a copy of "@ + n + "\n"@ + "  /// with the given fields replaced by the non-null parameter values.\n"@ + "  @JsonKey(includeFromJson: false, includeToJson: false)\n"@ + "  $"@ + n + "CopyWith<"@ + n + "> get copyWith => throw _privateConstructorUsedError;\n"@ + "}\n\n"@ + "/// @nodoc\n"@ + "abstract class $"@ + n + "CopyWith<$Res> {\n"@ + "  factory $"@ + n + "CopyWith("@ + n + " value, $Res Function("@ + n + ") then) =\n"@ + "      _$"@ + n + "CopyWithImpl<$Res, "@ + n, ">;\n"@);
    reveal_strlit("  @useResult\n");
    assert(lacks_char("  @useResult\n"@, '&'));
    lemma_append_amp_ok(s + "\n"@ + "  /// Serializes this "@ + n + " to a JSON map.\n"@ + "  Map<String, dynamic> toJson() => throw _privateConstructorUsedError;\n\n"@ + "  /// Create a copy of "@ + n + "\n"@ + "  /// with the given fields replaced by the non-null parameter values.\n"@ + "  @JsonKey(includeFromJson: false, includeToJson: false)\n"@ + "  $"@ + n + "CopyWith<"@ + n + "> get copyWith => throw _privateConstructorUsedError;\n"@ + "}\n\n"@ + "/// @nodoc\n"@ + "abstract class $"@ + n + "CopyWith<$Res> {\n"@ + "  factory $"@ + n + "CopyWith("@ + n + " value, $Res Function("@ + n + ") then) =\n"@ + "      _$"@ + n + "CopyWithImpl<$Res, "@ + n + ">;\n"@, "  @useResult\n"@);
    reveal_strlit("  $Res call({");
    assert(lacks_char("  $Res call({"@, '&'));
    lemma_append_amp_ok(s + "\n"@ + "  /// Serializes this "@ + n + " to a JSON map.\n"@ + "  Map<String, dynamic> toJson() => throw _privateConstructorUsedError;\n\n"@ + "  /// Create a copy of "@ + n + "\n"@ + "  /// with the given fields replaced by the non-null parameter values.\n"@ + "  @JsonKey(includeFromJson: false, includeToJson: false)\n"@ + "  $"@ + n + "CopyWith<"@ + n + "> get copyWith => throw _privateConstructorUsedError;\n"@ + "}\n\n"@ + "/// @nodoc\n"@ + "abstract class $"@ + n + "CopyWith<$Res> {\n"@ + "  factory $"@ + n + "CopyWith("@ + n + " value, $Res Function("@ + n + ") then) =\n"@ + "      _$"@ + n + "CopyWithImpl<$Res, "@ + n + ">;\n"@ + "  @useResult\n"@, "  $Res call({"@);
    lemma_fields_amp_ok(s + "\n"@ + "  /// Serializes this "@ + n + " to a JSON map.\n"@ + "  Map<String, dynamic> toJson() => throw _privateConstructorUsedError;\n\n"@ + "  /// Create a copy of "@ + n + "\n"@ + "  /// with the given fields replaced by the non-null parameter values.\n"@ + "  @JsonKey(includeFromJson: false, includeToJson: false)\n"@ + "  $"@ + n + "CopyWith<"@ + n + "> get copyWith => throw _privateConstructorUsedError;\n"@ + "}\n\n"@ + "/// @nodoc\n"@ + "abstract class $"@ + n + "CopyWith<$Res> {\n"@ + "  factory $"@ + n + "CopyWith("@ + n + " value, $Res Function("@ + n + ") then) =\n"@ + "      _$"@ + n + "CopyWithImpl<$Res, "@ + n + ">;\n"@ + "  @useResult\n"@ + "  $Res call({"@, fs, FieldPiece::CallParam);}

/// One step of `lemma_regular_head_amp_ok`: a part of the first part of a regular class keeps `amp_ok`.
proof fn lemma_regular_head_step_3(s: Seq<char>, n: Seq<char>, fs: Seq<FieldModel>)
    requires
        amp_ok(s),
        lacks_char(n, '&'),
        forall|i: int| 0 <= i < fs.len() ==> field_lacks_amp(#[trigger] fs[i]),
    ensures
        amp_ok(fold_put(s + "\n  });\n"@ + "}\n\n"@ + "/// @nodoc\n"@ + "class _$"@ + n + "CopyWithImpl<$Res, $Val extends "@ + n + ">\n"@ + "    implements $"@ + n + "CopyWith<$Res> {\n"@ + "  _$"@ + n + "CopyWithImpl(this._value, this._then);\n"@ + "\n"@ + "  // ignore: unused_field\n"@ + "  final $Val _value;\n"@ + "  // ignore: unused_field\n"@ + "  final $Res Function($Val) _then;\n"@ + "  /// Create a copy of "@ + n + "\n"@ + "  /// with the given fields replaced by the non-null parameter values.\n"@ + "  @pragma('vm:prefer-inline')\n"@ + "  @override\n"@ + "  $Res call({"@, fs, field_piece_fn(FieldPiece::ObjectParam))),
{
    reveal_strlit("\n  });\n");
    assert(lacks_char("\n  });\n"@, '&'));
    lemma_append_amp_ok(s, "\n  });\n"@);
    reveal_strlit("}\n\n");
    assert(lacks_char("}\n\n"@, '&'));
    lemma_append_amp_ok(s + "\n  });\n"@, "}\n\n"@);
    reveal_strlit("/// @nodoc\n");
    assert(lacks_char("/// @nodoc\n"@, '&'));
    lemma_append_amp_ok(s + "\n  });\n"@ + "}\n\n"@, "/// @nodoc\n"@);
    reveal_strlit("class _$");
    assert(lacks_char("class _$"@, '&'));
    lemma_append_amp_ok(s + "\n  });\n"@ + "}\n\n"@ + "/// @nodoc\n"@, "class _$"@);
    lemma_append_amp_ok(s + "\n  });\n"@ + "}\n\n"@ + "/// @nodoc\n"@ + "class _$"@, n);
    reveal_strlit("CopyWithImpl<$Res, $Val extends ");
    assert(lacks_char("CopyWithImpl<$Res, $Val extends "@, '&'));
    lemma_append_amp_ok(s + "\n  });\n"@ + "}\n\n"@ + "/// @nodoc\n"@ + "class _$"@ + n, "CopyWithImpl<$Res, $Val extends "@);
    lemma_append_amp_ok(s + "\n  });\n"@ + "}\n\n"@ + "/// @nodoc\n"@ + "class _$"@ + n + "CopyWithImpl<$Res, $Val extends "@, n);
    reveal_strlit(">\n");
    assert(lacks_char(">\n"@, '&'));
    lemma_append_amp_ok(s + "\n  });\n"@ + "}\n\n"@ + "/// @nodoc\n"@ + "class _$"@ + n + "CopyWithImpl<$Res, $Val extends "@ + n, ">\n"@);
    reveal_strlit("    implements $");
    assert(lacks_char("    implements $"@, '&'));
    lemma_append_amp_ok(s + "\n  });\n"@ + "}\n\n"@ + "/// @nodoc\n"@ + "class _$"@ + n + "CopyWithImpl<$Res, $Val extends "@ + n + ">\n"@, "    implements $"@);
    lemma_append_amp_ok(s + "\n  });\n"@ + "}\n\n"@ + "/// @nodoc\n"@ + "class _$"@ + n + "CopyWithImpl<$Res, $Val extends "@ + n + ">\n"@ + "    implements $"@, n);
    reveal_strlit("CopyWith<$Res> {\n");
    assert(lacks_char("CopyWith<$Res> {\n"@, '&'));
    lemma_append_amp_ok(s + "\n  });\n"@ + "}\n\n"@ + "/// @nodoc\n"@ + "class _$"@ + n + "CopyWithImpl<$Res, $Val extends "@ + n + ">\n"@ + "    implements $"@ + n, "CopyWith<$Res> {\n"@);
    reveal_strlit("  _$");
    assert(lacks_char("  _$"@, '&'));
    lemma_append_amp_ok(s + "\n  });\n"@ + "}\n\n"@ + "/// @nodoc\n"@ + "class _$"@ + n + "CopyWithImpl<$Res, $Val extends "@ + n + ">\n"@ + "    implements $"@ + n + "CopyWith<$Res> {\n"@, "  _$"@);
    lemma_append_amp_ok(s + "\n  });\n"@ + "}\n\n"@ + "/// @nodoc\n"@ + "class _$"@ + n + "CopyWithImpl<$Res, $Val extends "@ + n + ">\n"@ + "    implements $"@ + n + "CopyWith<$Res> {\n"@ + "  _$"@, n);
    reveal_strlit("CopyWithImpl(this._value, this._then);\n");
    assert(lacks_char("CopyWithImpl(this._value, this._then);\n"@, '&'));
    lemma_append_amp_ok(s + "\n  });\n"@ + "}\n\n"@ + "/// @nodoc\n"@ + "class _$"@ + n + "CopyWithImpl<$Res, $Val extends "@ + n + ">\n"@ + "    implements $"@ + n + "CopyWith<$Res> {\n"@ + "  _$"@ + n, "CopyWithImpl(this._value, this._then);\n"@);
    reveal_strlit("\n");
    assert(lacks_char("\n"@, '&'));
    lemma_append_amp_ok(s + "\n  });\n"@ + "}\n\n"@ + "/// @nodoc\n"@ + "class _$"@ + n + "CopyWithImpl<$Res, $Val extends "@ + n + ">\n"@ + "    implements $"@ + n + "CopyWith<$Res> {\n"@ + "  _$"@ + n + "CopyWithImpl(this._value, this._then);\n"@, "\n"@);
    reveal_strlit("  // ignore: unused_field\n");
    assert(lacks_char("  // ignore: unused_field\n"@, '&'));
    lemma_append_amp_ok(s + "\n  });\n"@ + "}\n\n"@ + "/// @nodoc\n"@ + "class _$"@ + n + "CopyWithImpl<$Res, $Val extends "@ + n + ">\n"@ + "    implements $"@ + n + "CopyWith<$Res> {\n"@ + "  _$"@ + n + "CopyWithImpl(this._value, this._then);\n"@ + "\n"@, "  // ignore: unused_field\n"@);
    reveal_strlit("  final $Val _value;\n");
    assert(lacks_char("  final $Val _value;\n"@, '&'));
    lemma_append_amp_ok(s + "\n  });\n"@ + "}\n\n"@ + "/// @nodoc\n"@ + "class _$"@ + n + "CopyWithImpl<$Res, $Val extends "@ + n + ">\n"@ + "    implements $"@ + n + "CopyWith<$Res> {\n"@ + "  _$"@ + n + "CopyWithImpl(this._value, this._then);\n"@ + "\n"@ + "  // ignore: unused_field\n"@, "  final $Val _value;\n"@);
    reveal_strlit("  // ignore: unused_field\n");
    assert(lacks_char("  // ignore: unused_field\n"@, '&'));
    lemma_append_amp_ok(s + "\n  });\n"@ + "}\n\n"@ + "/// @nodoc\n"@ + "class _$"@ + n + "CopyWithImpl<$Res, $Val extends "@ + n + ">\n"@ + "    implements $"@ + n + "CopyWith<$Res> {\n"@ + "  _$"@ + n + "CopyWithImpl(this._value, this._then);\n"@ + "\n"@ + "  // ignore: unused_field\n"@ + "  final $Val _value;\n"@, "  // ignore: unused_field\n"@);
    reveal_strlit("  final $Res Function($Val) _then;\n");
    assert(lacks_char("  final $Res Function($Val) _then;\n"@, '&'));
    lemma_append_amp_ok(s + "\n  });\n"@ + "}\n\n"@ + "/// @nodoc\n"@ + "class _$"@ + n + "CopyWithImpl<$Res, $Val extends "@ + n + ">\n"@ + "    implements $"@ + n + "CopyWith<$Res> {\n"@ + "  _$"@ + n + "CopyWithImpl(this._value, this._then);\n"@ + "\n"@ + "  // ignore: unused_field\n"@ + "  final $Val _value;\n"@ + "  // ignore: unused_field\n"@, "  final $Res Function($Val) _then;\n"@);
    reveal_strlit("  /// Create a copy of ");
    assert(lacks_char("  /// Create a copy of "@, '&'));
    lemma_append_amp_ok(s + "\n  });\n"@ + "}\n\n"@ + "/// @nodoc\n"@ + "class _$"@ + n + "CopyWithImpl<$Res, $Val extends "@ + n + ">\n"@ + "    implements $"@ + n + "CopyWith<$Res> {\n"@ + "  _$"@ + n + "CopyWithImpl(this._value, this._then);\n"@ + "\n"@ + "  // ignore: unused_field\n"@ + "  final $Val _value;\n"@ + "  // ignore: unused_field\n"@ + "  final $Res Function($Val) _then;\n"@, "  /// Create a copy of "@);
    lemma_append_amp_ok(s + "\n  });\n"@ + "}\n\n"@ + "/// @nodoc\n"@ + "class _$"@ + n + "CopyWithImpl<$Res, $Val extends "@ + n + ">\n"@ + "    implements $"@ + n + "CopyWith<$Res> {\n"@ + "  _$"@ + n + "CopyWithImpl(this._value, this._then);\n"@ + "\n"@ + "  // ignore: unused_field\n"@ + "  final $Val _value;\n"@ + "  // ignore: unused_field\n"@ + "  final $Res Function($Val) _then;\n"@ + "  /// Create a copy of "@, n);
    reveal_strlit("\n");
    assert(lacks_char("\n"@, '&'));
    lemma_append_amp_ok(s + "\n  });\n"@ + "}\n\n"@ + "/// @nodoc\n"@ + "class _$"@ + n + "CopyWithImpl<$Res, $Val extends "@ + n + ">\n"@ + "    implements $"@ + n + "CopyWith<$Res> {\n"@ + "  _$"@ + n + "CopyWithImpl(this._value, this._then);\n"@ + "\n"@ + "  // ignore: unused_field\n"@ + "  final $Val _value;\n"@ + "  // ignore: unused_field\n"@ + "  final $Res Function($Val) _then;\n"@ + "  /// Create a copy of "@ + n, "\n"@);
    reveal_strlit("  /// with the given fields replaced by the non-null parameter values.\n");
    assert(lacks_char("  /// with the given fields replaced by the non-null parameter values.\n"@, '&'));
    lemma_append_amp_ok(s + "\n  });\n"@ + "}\n\n"@ + "/// @nodoc\n"@ + "class _$"@ + n + "CopyWithImpl<$Res, $Val extends "@ + n + ">\n"@ + "    implements $"@ + n + "CopyWith<$Res> {\n"@ + "  _$"@ + n + "CopyWithImpl(this._value, this._then);\n"@ + "\n"@ + "  // ignore: unused_field\n"@ + "  final $Val _value;\n"@ + "  // ignore: unused_field\n"@ + "  final $Res Function($Val) _then;\n"@ + "  /// Create a copy of "@ + n + "\n"@, "  /// with the given fields replaced by the non-null parameter values.\n"@);
    reveal_strlit("  @pragma('vm:prefer-inline')\n");
    assert(lacks_char("  @pragma('vm:prefer-inline')\n"@, '&'));
    lemma_append_amp_ok(s + "\n  });\n"@ + "}\n\n"@ + "/// @nodoc\n"@ + "class _$"@ + n + "CopyWithImpl<$Res, $Val extends "@ + n + ">\n"@ + "    implements $"@ + n + "CopyWith<$Res> {\n"@ + "  _$"@ + n + "CopyWithImpl(this._value, this._then);\n"@ + "\n"@ + "  // ignore: unused_field\n"@ + "  final $Val _value;\n"@ + "  // ignore: unused_field\n"@ + "  final $Res Function($Val) _then;\n"@ + "  /// Create a copy of "@ + n + "\n"@ + "  /// with the given fields replaced by the non-null parameter values.\n"@, "  @pragma('vm:prefer-inline')\n"@);
    reveal_strlit("  @override\n");
    assert(lacks_char("  @override\n"@, '&'));
    lemma_append_amp_ok(s + "\n  });\n"@ + "}\n\n"@ + "/// @nodoc\n"@ + "class _$"@ + n + "CopyWithImpl<$Res, $Val extends "@ + n + ">\n"@ + "    implements $"@ + n + "CopyWith<$Res> {\n"@ + "  _$"@ + n + "CopyWithImpl(this._value, this._then);\n"@ + "\n"@ + "  // ignore: unused_field\n"@ + "  final $Val _value;\n"@ + "  // ignore: unused_field\n"@ + "  final $Res Function($Val) _then;\n"@ + "  /// Create a copy of "@ + n + "\n"@ + "  /// with the given fields replaced by the non-null parameter values.\n"@ + "  @pragma('vm:prefer-inline')\n"@, "  @override\n"@);
    reveal_strlit("  $Res call({");
    assert(lacks_char("  $Res call({"@, '&'));
    lemma_append_amp_ok(s + "\n  });\n"@ + "}\n\n"@ + "/// @nodoc\n"@ + "class _$"@ + n + "CopyWithImpl<$Res, $Val extends "@ + n + ">\n"@ + "    implements $"@ + n + "CopyWith<$Res> {\n"@ + "  _$"@ + n + "CopyWithImpl(this._value, this._then);\n"@ + "\n"@ + "  // ignore: unused_field\n"@ + "  final $Val _value;\n"@ + "  // ignore: unused_field\n"@ + "  final $Res Function($Val) _then;\n"@ + "  /// Create a copy of "@ + n + "\n"@ + "  /// with the given fields replaced by the non-null parameter values.\n"@ + "  @pragma('vm:prefer-inline')\n"@ + "  @override\n"@, "  $Res call({"@);
    lemma_fields_amp_ok(s + "\n  });\n"@ + "}\n\n"@ + "/// @nodoc\n"@ + "class _$"@ + n + "CopyWithImpl<$Res, $Val extends "@ + n + ">\n"@ + "    implements $"@ + n + "CopyWith<$Res> {\n"@ + "  _$"@ + n + "CopyWithImpl(this._value, this._then);\n"@ + "\n"@ + "  // ignore: unused_field\n"@ + "  final $Val _value;\n"@ + "  // ignore: unused_field\n"@ + "  final $Res Function($Val) _then;\n"@ + "  /// Create a copy of "@ + n + "\n"@ + "  /// with the given fields replaced by the non-null parameter values.\n"@ + "  @pragma('vm:prefer-inline')\n"@ + "  @override\n"@ + "  $Res call({"@, fs, FieldPiece::ObjectParam);}

/// One step of `lemma_regular_head_amp_ok`: a part of the first part of a regular class keeps `amp_ok`.
proof fn lemma_regular_head_step_4(s: Seq<char>, n: Seq<char>, fs: Seq<FieldModel>)
    requires
        amp_ok(s),
        lacks_char(n, '&'),
        forall|i: int| 0 <= i < fs.len() ==> field_lacks_amp(#[trigger] fs[i]),
    ensures
        amp_ok(fold_put(s + "\n  }) {\n"@ + "    return _then(_value.copyWith(\n"@, fs, field_piece_fn(FieldPiece::CopyAssign))),
{
    reveal_strlit("\n  }) {\n");
    assert(lacks_char("\n  }) {\n"@, '&'));
    lemma_append_amp_ok(s, "\n  }) {\n"@);
    reveal_strlit("    return _then(_value.copyWith(\n");
    assert(lacks_char("    return _then(_value.copyWith(\n"@, '&'));
    lemma_append_amp_ok(s + "\n  }) {\n"@, "    return _then(_value.copyWith(\n"@);
    lemma_fields_amp_ok(s + "\n  }) {\n"@ + "    return _then(_value.copyWith(\n"@, fs, FieldPiece::CopyAssign);}

/// One step of `lemma_regular_head_amp_ok`: a part of the first part of a regular class keeps `amp_ok`.
proof fn lemma_regular_head_step_5(s: Seq<char>, n: Seq<char>, fs: Seq<FieldModel>)
    requires
        amp_ok(s),
        lacks_char(n, '&'),
        forall|i: int| 0 <= i < fs.len() ==> field_lacks_amp(#[trigger] fs[i]),
    ensures
        amp_ok(fold_put(s + "    ) as $Val);\n"@ + "  }\n"@ + "}\n\n"@ + "/// @nodoc\n"@ + "abstract class _$$$"@ + n + "ImplImplCopyWith<$Res> implements $"@ + n + "CopyWith<$Res> {\n"@ + "  factory _$$$"@ + n + "ImplImplCopyWith(\n"@ + "          _$$"@ + n + "ImplImpl value, $Res Function(_$$"@ + n + "ImplImpl) then) =\n"@ + "      __$$$"@ + n + "ImplImplCopyWithImpl<$Res>;\n"@ + "  @override\n"@ + "  @useResult\n"@ + "  $Res call({"@, fs, field_piece_fn(FieldPiece::ObjectParam))),
{
    reveal_strlit("    ) as $Val);\n");
    assert(lacks_char("    ) as $Val);\n"@, '&'));
    lemma_append_amp_ok(s, "    ) as $Val);\n"@);
    reveal_strlit("  }\n");
    assert(lacks_char("  }\n"@, '&'));
    lemma_append_amp_ok(s + "    ) as $Val);\n"@, "  }\n"@);
    reveal_strlit("}\n\n");
    assert(lacks_char("}\n\n"@, '&'));
    lemma_append_amp_ok(s + "    ) as $Val);\n"@ + "  }\n"@, "}\n\n"@);
    reveal_strlit("/// @nodoc\n");
    assert(lacks_char("/// @nodoc\n"@, '&'));
    lemma_append_amp_ok(s + "    ) as $Val);\n"@ + "  }\n"@ + "}\n\n"@, "/// @nodoc\n"@);
    reveal_strlit("abstract class _$$$");
    assert(lacks_char("abstract class _$$$"@, '&'));
    lemma_append_amp_ok(s + "    ) as $Val);\n"@ + "  }\n"@ + "}\n\n"@ + "/// @nodoc\n"@, "abstract class _$$$"@);
    lemma_append_amp_ok(s + "    ) as $Val);\n"@ + "  }\n"@ + "}\n\n"@ + "/// @nodoc\n"@ + "abstract class _$$$"@, n);
    reveal_strlit("ImplImplCopyWith<$Res> implements $");
    assert(lacks_char("ImplImplCopyWith<$Res> implements $"@, '&'));
    lemma_append_amp_ok(s + "    ) as $Val);\n"@ + "  }\n"@ + "}\n\n"@ + "/// @nodoc\n"@ + "abstract class _$$$"@ + n, "ImplImplCopyWith<$Res> implements $"@);
    lemma_append_amp_ok(s + "    ) as $Val);\n"@ + "  }\n"@ + "}\n\n"@ + "/// @nodoc\n"@ + "abstract class _$$$"@ + n + "ImplImplCopyWith<$Res> implements $"@, n);
    reveal_strlit("CopyWith<$Res> {\n");
    assert(lacks_char("CopyWith<$Res> {\n"@, '&'));
    lemma_append_amp_ok(s + "    ) as $Val);\n"@ + "  }\n"@ + "}\n\n"@ + "/// @nodoc\n"@ + "abstract class _$$$"@ + n + "ImplImplCopyWith<$Res> implements $"@ + n, "CopyWith<$Res> {\n"@);
    reveal_strlit("  factory _$$$");
    assert(lacks_char("  factory _$$$"@, '&'));
    lemma_append_amp_ok(s + "    ) as $Val);\n"@ + "  }\n"@ + "}\n\n"@ + "/// @nodoc\n"@ + "abstract class _$$$"@ + n + "ImplImplCopyWith<$Res> implements $"@ + n + "CopyWith<$Res> {\n"@, "  factory _$$$"@);
    lemma_append_amp_ok(s + "    ) as $Val);\n"@ + "  }\n"@ + "}\n\n"@ + "/// @nodoc\n"@ + "abstract class _$$$"@ + n + "ImplImplCopyWith<$Res> implements $"@ + n + "CopyWith<$Res> {\n"@ + "  factory _$$$"@, n);
    reveal_strlit("ImplImplCopyWith(\n");
    assert(lacks_char("ImplImplCopyWith(\n"@, '&'));
    lemma_append_amp_ok(s + "    ) as $Val);\n"@ + "  }\n"@ + "}\n\n"@ + "/// @nodoc\n"@ + "abstract class _$$$"@ + n + "ImplImplCopyWith<$Res> implements $"@ + n + "CopyWith<$Res> {\n"@ + "  factory _$$$"@ + n, "ImplImplCopyWith(\n"@);
    reveal_strlit("          _$$");
    assert(lacks_char("          _$$"@, '&'));
    lemma_append_amp_ok(s + "    ) as $Val);\n"@ + "  }\n"@ + "}\n\n"@ + "/// @nodoc\n"@ + "abstract class _$$$"@ + n + "ImplImplCopyWith<$Res> implements $"@ + n + "CopyWith<$Res> {\n"@ + "  factory _$$$"@ + n + "ImplImplCopyWith(\n"@, "          _$$"@);
    lemma_append_amp_ok(s + "    ) as $Val);\n"@ + "  }\n"@ + "}\n\n"@ + "/// @nodoc\n"@ + "abstract class _$$$"@ + n + "ImplImplCopyWith<$Res> implements $"@ + n + "CopyWith<$Res> {\n"@ + "  factory _$$$"@ + n + "ImplImplCopyWith(\n"@ + "          _$$"@, n);
    reveal_strlit("ImplImpl value, $Res Function(_$$");
    assert(lacks_char("ImplImpl value, $Res Function(_$$"@, '&'));
    lemma_append_amp_ok(s + "    ) as $Val);\n"@ + "  }\n"@ + "}\n\n"@ + "/// @nodoc\n"@ + "abstract class _$$$"@ + n + "ImplImplCopyWith<$Res> implements $"@ + n + "CopyWith<$Res> {\n"@ + "  factory _$$$"@ + n + "ImplImplCopyWith(\n"@ + "          _$$"@ + n, "ImplImpl value, $Res Function(_$$"@);
    lemma_append_amp_ok(s + "    ) as $Val);\n"@ + "  }\n"@ + "}\n\n"@ + "/// @nodoc\n"@ + "abstract class _$$$"@ + n + "ImplImplCopyWith<$Res> implements $"@ + n + "CopyWith<$Res> {\n"@ + "  factory _$$$"@ + n + "ImplImplCopyWith(\n"@ + "          _$$"@ + n + "ImplImpl value, $Res Function(_$$"@, n);
    reveal_strlit("ImplImpl) then) =\n");
    assert(lacks_char("ImplImpl) then) =\n"@, '&'));
    lemma_append_amp_ok(s + "    ) as $Val);\n"@ + "  }\n"@ + "}\n\n"@ + "/// @nodoc\n"@ + "abstract class _$$$"@ + n + "ImplImplCopyWith<$Res> implements $"@ + n + "CopyWith<$Res> {\n"@ + "  factory _$$$"@ + n + "ImplImplCopyWith(\n"@ + "          _$$"@ + n + "ImplImpl value, $Res Function(_$$"@ + n, "ImplImpl) then) =\n"@);
    reveal_strlit("      __$$$");
    assert(lacks_char("      __$$$"@, '&'));
    lemma_append_amp_ok(s + "    ) as $Val);\n"@ + "  }\n"@ + "}\n\n"@ + "/// @nodoc\n"@ + "abstract class _$$$"@ + n + "ImplImplCopyWith<$Res> implements $"@ + n + "CopyWith<$Res> {\n"@ + "  factory _$$$"@ + n + "ImplImplCopyWith(\n"@ + "          _$$"@ + n + "ImplImpl value, $Res Function(_$$"@ + n + "ImplImpl) then) =\n"@, "      __$$$"@);
    lemma_append_amp_ok(s + "    ) as $Val);\n"@ + "  }\n"@ + "}\n\n"@ + "/// @nodoc\n"@ + "abstract class _$$$"@ + n + "ImplImplCopyWith<$Res> implements $"@ + n + "CopyWith<$Res> {\n"@ + "  factory _$$$"@ + n + "ImplImplCopyWith(\n"@ + "          _$$"@ + n + "ImplImpl value, $Res Function(_$$"@ + n + "ImplImpl) then) =\n"@ + "      __$$$"@, n);
    reveal_strlit("ImplImplCopyWithImpl<$Res>;\n");
    assert(lacks_char("ImplImplCopyWithImpl<$Res>;\n"@, '&'));
    lemma_append_amp_ok(s + "    ) as $Val);\n"@ + "  }\n"@ + "}\n\n"@ + "/// @nodoc\n"@ + "abstract class _$$$"@ + n + "ImplImplCopyWith<$Res> implements $"@ + n + "CopyWith<$Res> {\n"@ + "  factory _$$$"@ + n + "ImplImplCopyWith(\n"@ + "          _$$"@ + n + "ImplImpl value, $Res Function(_$$"@ + n + "ImplImpl) then) =\n"@ + "      __$$$"@ + n, "ImplImplCopyWithImpl<$Res>;\n"@);
    reveal_strlit("  @override\n");
    assert(lacks_char("  @override\n"@, '&'));
    lemma_append_amp_ok(s + "    ) as $Val);\n"@ + "  }\n"@ + "}\n\n"@ + "/// @nodoc\n"@ + "abstract class _$$$"@ + n + "ImplImplCopyWith<$Res> implements $"@ + n + "CopyWith<$Res> {\n"@ + "  factory _$$$"@ + n + "ImplImplCopyWith(\n"@ + "          _$$"@ + n + "ImplImpl value, $Res Function(_$$"@ + n + "ImplImpl) then) =\n"@ + "      __$$$"@ + n + "ImplImplCopyWithImpl<$Res>;\n"@, "  @override\n"@);
    reveal_strlit("  @useResult\n");
    assert(lacks_char("  @useResult\n"@, '&'));
    lemma_append_amp_ok(s + "    ) as $Val);\n"@ + "  }\n"@ + "}\n\n"@ + "/// @nodoc\n"@ + "abstract class _$$$"@ + n + "ImplImplCopyWith<$Res> implements $"@ + n + "CopyWith<$Res> {\n"@ + "  factory _$$$"@ + n + "ImplImplCopyWith(\n"@ + "          _$$"@ + n + "ImplImpl value, $Res Function(_$$"@ + n + "ImplImpl) then) =\n"@ + "      __$$$"@ + n + "ImplImplCopyWithImpl<$Res>;\n"@ + "  @override\n"@, "  @useResult\n"@);
    reveal_strlit("  $Res call({");
    assert(lacks_char("  $Res call({"@, '&'));
    lemma_append_amp_ok(s + "    ) as $Val);\n"@ + "  }\n"@ + "}\n\n"@ + "/// @nodoc\n"@ + "abstract class _$$$"@ + n + "ImplImplCopyWith<$Res> implements $"@ + n + "CopyWith<$Res> {\n"@ + "  factory _$$$"@ + n + "ImplImplCopyWith(\n"@ + "          _$$"@ + n + "ImplImpl value, $Res Function(_$$"@ + n + "ImplImpl) then) =\n"@ + "      __$$$"@ + n + "ImplImplCopyWithImpl<$Res>;\n"@ + "  @override\n"@ + "  @useResult\n"@, "  $Res call({"@);
    lemma_fields_amp_ok(s + "    ) as $Val);\n"@ + "  }\n"@ + "}\n\n"@ + "/// @nodoc\n"@ + "abstract class _$$$"@ + n + "ImplImplCopyWith<$Res> implements $"@ + n + "CopyWith<$Res> {\n"@ + "  factory _$$$"@ + n + "ImplImplCopyWith(\n"@ + "          _$$"@ + n + "ImplImpl value, $Res Function(_$$"@ + n + "ImplImpl) then) =\n"@ + "      __$$$"@ + n + "ImplImplCopyWithImpl<$Res>;\n"@ + "  @override\n"@ + "  @useResult\n"@ + "  $Res call({"@, fs, FieldPiece::ObjectParam);}

/// One step of `lemma_regular_head_amp_ok`: a part of the first part of a regular class keeps `amp_ok`.
proof fn lemma_regular_head_step_6(s: Seq<char>, n: Seq<char>, fs: Seq<FieldModel>)
    requires
        amp_ok(s),
        lacks_char(n, '&'),
        forall|i: int| 0 <= i < fs.len() ==> field_lacks_amp(#[trigger] fs[i]),
    ensures
        amp_ok(fold_put(s + "\n  });\n"@ + "}\n\n"@ + "/// @nodoc\n"@ + "class __$$$"@ + n + "ImplImplCopyWithImpl<$Res>\n"@ + "    extends _$"@ + n + "CopyWithImpl<$Res, _$$"@ + n + "ImplImpl>\n"@ + "    implements _$$$"@ + n + "ImplImplCopyWith<$Res> {\n"@ + "  __$$$"@ + n + "ImplImplCopyWithImpl(\n"@ + "      _$$"@ + n + "ImplImpl _value, $Res Function(_$$"@ + n + "ImplImpl) _then)\n"@ + "      : super(_value, _then);\n"@ + "\n"@ + "  /// Create a copy of "@ + n + "\n"@ + "  /// with the given fields replaced by the non-null parameter values.\n"@ + "  @pragma('vm:prefer-inline')\n"@ + "  @override\n"@ + "  $Res call({"@, fs, field_piece_fn(FieldPiece::ObjectParam))),
{
    reveal_strlit("\n  });\n");
    assert(lacks_char("\n  });\n"@, '&'));
    lemma_append_amp_ok(s, "\n  });\n"@);
    reveal_strlit("}\n\n");
    assert(lacks_char("}\n\n"@, '&'));
    lemma_append_amp_ok(s + "\n  });\n"@, "}\n\n"@);
    reveal_strlit("/// @nodoc\n");
    assert(lacks_char("/// @nodoc\n"@, '&'));
    lemma_append_amp_ok(s + "\n  });\n"@ + "}\n\n"@, "/// @nodoc\n"@);
    reveal_strlit("class __$$$");
    assert(lacks_char("class __$$$"@, '&'));
    lemma_append_amp_ok(s + "\n  });\n"@ + "}\n\n"@ + "/// @nodoc\n"@, "class __$$$"@);
    lemma_append_amp_ok(s + "\n  });\n"@ + "}\n\n"@ + "/// @nodoc\n"@ + "class __$$$"@, n);
    reveal_strlit("ImplImplCopyWithImpl<$Res>\n");
    assert(lacks_char("ImplImplCopyWithImpl<$Res>\n"@, '&'));
    lemma_append_amp_ok(s + "\n  });\n"@ + "}\n\n"@ + "/// @nodoc\n"@ + "class __$$$"@ + n, "ImplImplCopyWithImpl<$Res>\n"@);
    reveal_strlit("    extends _$");
    assert(lacks_char("    extends _$"@, '&'));
    lemma_append_amp_ok(s + "\n  });\n"@ + "}\n\n"@ + "/// @nodoc\n"@ + "class __$$$"@ + n + "ImplImplCopyWithImpl<$Res>\n"@, "    extends _$"@);
    lemma_append_amp_ok(s + "\n  });\n"@ + "}\n\n"@ + "/// @nodoc\n"@ + "class __$$$"@ + n + "ImplImplCopyWithImpl<$Res>\n"@ + "    extends _$"@, n);
    reveal_strlit("CopyWithImpl<$Res, _$$");
    assert(lacks_char("CopyWithImpl<$Res, _$$"@, '&'));
    lemma_append_amp_ok(s + "\n  });\n"@ + "}\n\n"@ + "/// @nodoc\n"@ + "class __$$$"@ + n + "ImplImplCopyWithImpl<$Res>\n"@ + "    extends _$"@ + n, "CopyWithImpl<$Res, _$$"@);
    lemma_append_amp_ok(s + "\n  });\n"@ + "}\n\n"@ + "/// @nodoc\n"@ + "class __$$$"@ + n + "ImplImplCopyWithImpl<$Res>\n"@ + "    extends _$"@ + n + "CopyWithImpl<$Res, _$$"@, n);
    reveal_strlit("ImplImpl>\n");
    assert(lacks_char("ImplImpl>\n"@, '&'));
    lemma_append_amp_ok(s + "\n  });\n"@ + "}\n\n"@ + "/// @nodoc\n"@ + "class __$$$"@ + n + "ImplImplCopyWithImpl<$Res>\n"@ + "    extends _$"@ + n + "CopyWithImpl<$Res, _$$"@ + n, "ImplImpl>\n"@);
    reveal_strlit("    implements _$$$");
    assert(lacks_char("    implements _$$$"@, '&'));
    lemma_append_amp_ok(s + "\n  });\n"@ + "}\n\n"@ + "/// @nodoc\n"@ + "class __$$$"@ + n + "ImplImplCopyWithImpl<$Res>\n"@ + "    extends _$"@ + n + "CopyWithImpl<$Res, _$$"@ + n + "ImplImpl>\n"@, "    implements _$$$"@);
    lemma_append_amp_ok(s + "\n  });\n"@ + "}\n\n"@ + "/// @nodoc\n"@ + "class __$$$"@ + n + "ImplImplCopyWithImpl<$Res>\n"@ + "    extends _$"@ + n + "CopyWithImpl<$Res, _$$"@ + n + "ImplImpl>\n"@ + "    implements _$$$"@, n);
    reveal_strlit("ImplImplCopyWith<$Res> {\n");
    assert(lacks_char("ImplImplCopyWith<$Res> {\n"@, '&'));
    lemma_append_amp_ok(s + "\n  });\n"@ + "}\n\n"@ + "/// @nodoc\n"@ + "class __$$$"@ + n + "ImplImplCopyWithImpl<$Res>\n"@ + "    extends _$"@ + n + "CopyWithImpl<$Res, _$$"@ + n + "ImplImpl>\n"@ + "    implements _$$$"@ + n, "ImplImplCopyWith<$Res> {\n"@);
    reveal_strlit("  __$$$");
    assert(lacks_char("  __$$$"@, '&'));
    lemma_append_amp_ok(s + "\n  });\n"@ + "}\n\n"@ + "/// @nodoc\n"@ + "class __$$$"@ + n + "ImplImplCopyWithImpl<$Res>\n"@ + "    extends _$"@ + n + "CopyWithImpl<$Res, _$$"@ + n + "ImplImpl>\n"@ + "    implements _$$$"@ + n + "ImplImplCopyWith<$Res> {\n"@, "  __$$$"@);
    lemma_append_amp_ok(s + "\n  });\n"@ + "}\n\n"@ + "/// @nodoc\n"@ + "class __$$$"@ + n + "ImplImplCopyWithImpl<$Res>\n"@ + "    extends _$"@ + n + "CopyWithImpl<$Res, _$$"@ + n + "ImplImpl>\n"@ + "    implements _$$$"@ + n + "ImplImplCopyWith<$Res> {\n"@ + "  __$$$"@, n);
    reveal_strlit("ImplImplCopyWithImpl(\n");
    assert(lacks_char("ImplImplCopyWithImpl(\n"@, '&'));
    lemma_append_amp_ok(s + "\n  });\n"@ + "}\n\n"@ + "/// @nodoc\n"@ + "class __$$$"@ + n + "ImplImplCopyWithImpl<$Res>\n"@ + "    extends _$"@ + n + "CopyWithImpl<$Res, _$$"@ + n + "ImplImpl>\n"@ + "    implements _$$$"@ + n + "ImplImplCopyWith<$Res> {\n"@ + "  __$$$"@ + n, "ImplImplCopyWithImpl(\n"@);
    reveal_strlit("      _$$");
    assert(lacks_char("      _$$"@, '&'));
    lemma_append_amp_ok(s + "\n  });\n"@ + "}\n\n"@ + "/// @nodoc\n"@ + "class __$$$"@ + n + "ImplImplCopyWithImpl<$Res>\n"@ + "    extends _$"@ + n + "CopyWithImpl<$Res, _$$"@ + n + "ImplImpl>\n"@ + "    implements _$$$"@ + n + "ImplImplCopyWith<$Res> {\n"@ + "  __$$$"@ + n + "ImplImplCopyWithImpl(\n"@, "      _$$"@);
    lemma_append_amp_ok(s + "\n  });\n"@ + "}\n\n"@ + "/// @nodoc\n"@ + "class __$$$"@ + n + "ImplImplCopyWithImpl<$Res>\n"@ + "    extends _$"@ + n + "CopyWithImpl<$Res, _$$"@ + n + "ImplImpl>\n"@ + "    implements _$$$"@ + n + "ImplImplCopyWith<$Res> {\n"@ + "  __$$$"@ + n + "ImplImplCopyWithImpl(\n"@ + "      _$$"@, n);
    reveal_strlit("ImplImpl _value, $Res Function(_$$");
    assert(lacks_char("ImplImpl _value, $Res Function(_$$"@, '&'));
    lemma_append_amp_ok(s + "\n  });\n"@ + "}\n\n"@ + "/// @nodoc\n"@ + "class __$$$"@ + n + "ImplImplCopyWithImpl<$Res>\n"@ + "    extends _$"@ + n + "CopyWithImpl<$Res, _$$"@ + n + "ImplImpl>\n"@ + "    implements _$$$"@ + n + "ImplImplCopyWith<$Res> {\n"@ + "  __$$$"@ + n + "ImplImplCopyWithImpl(\n"@ + "      _$$"@ + n, "ImplImpl _value, $Res Function(_$$"@);
    lemma_append_amp_ok(s + "\n  });\n"@ + "}\n\n"@ + "/// @nodoc\n"@ + "class __$$$"@ + n + "ImplImplCopyWithImpl<$Res>\n"@ + "    extends _$"@ + n + "CopyWithImpl<$Res, _$$"@ + n + "ImplImpl>\n"@ + "    implements _$$$"@ + n + "ImplImplCopyWith<$Res> {\n"@ + "  __$$$"@ + n + "ImplImplCopyWithImpl(\n"@ + "      _$$"@ + n + "ImplImpl _value, $Res Function(_$$"@, n);
    reveal_strlit("ImplImpl) _then)\n");
    assert(lacks_char("ImplImpl) _then)\n"@, '&'));
    lemma_append_amp_ok(s + "\n  });\n"@ + "}\n\n"@ + "/// @nodoc\n"@ + "class __$$$"@ + n + "ImplImplCopyWithImpl<$Res>\n"@ + "    extends _$"@ + n + "CopyWithImpl<$Res, _$$"@ + n + "ImplImpl>\n"@ + "    implements _$$$"@ + n + "ImplImplCopyWith<$Res> {\n"@ + "  __$$$"@ + n + "ImplImplCopyWithImpl(\n"@ + "      _$$"@ + n + "ImplImpl _value, $Res Function(_$$"@ + n, "ImplImpl) _then)\n"@);
    reveal_strlit("      : super(_value, _then);\n");
    assert(lacks_char("      : super(_value, _then);\n"@, '&'));
    lemma_append_amp_ok(s + "\n  });\n"@ + "}\n\n"@ + "/// @nodoc\n"@ + "class __$$$"@ + n + "ImplImplCopyWithImpl<$Res>\n"@ + "    extends _$"@ + n + "CopyWithImpl<$Res, _$$"@ + n + "ImplImpl>\n"@ + "    implements _$$$"@ + n + "ImplImplCopyWith<$Res> {\n"@ + "  __$$$"@ + n + "ImplImplCopyWithImpl(\n"@ + "      _$$"@ + n + "ImplImpl _value, $Res Function(_$$"@ + n + "ImplImpl) _then)\n"@, "      : super(_value, _then);\n"@);
    reveal_strlit("\n");
    assert(lacks_char("\n"@, '&'));
    lemma_append_amp_ok(s + "\n  });\n"@ + "}\n\n"@ + "/// @nodoc\n"@ + "class __$$$"@ + n + "ImplImplCopyWithImpl<$Res>\n"@ + "    extends _$"@ + n + "CopyWithImpl<$Res, _$$"@ + n + "ImplImpl>\n"@ + "    implements _$$$"@ + n + "ImplImplCopyWith<$Res> {\n"@ + "  __$$$"@ + n + "ImplImplCopyWithImpl(\n"@ + "      _$$"@ + n + "ImplImpl _value, $Res Function(_$$"@ + n + "ImplImpl) _then)\n"@ + "      : super(_value, _then);\n"@, "\n"@);
    reveal_strlit("  /// Create a copy of ");
    assert(lacks_char("  /// Create a copy of "@, '&'));
    lemma_append_amp_ok(s + "\n  });\n"@ + "}\n\n"@ + "/// @nodoc\n"@ + "class __$$$"@ + n + "ImplImplCopyWithImpl<$Res>\n"@ + "    extends _$"@ + n + "CopyWithImpl<$Res, _$$"@ + n + "ImplImpl>\n"@ + "    implements _$$$"@ + n + "ImplImplCopyWith<$Res> {\n"@ + "  __$$$"@ + n + "ImplImplCopyWithImpl(\n"@ + "      _$$"@ + n + "ImplImpl _value, $Res Function(_$$"@ + n + "ImplImpl) _then)\n"@ + "      : super(_value, _then);\n"@ + "\n"@, "  /// Create a copy of "@);
    lemma_append_amp_ok(s + "\n  });\n"@ + "}\n\n"@ + "/// @nodoc\n"@ + "class __$$$"@ + n + "ImplImplCopyWithImpl<$Res>\n"@ + "    extends _$"@ + n + "CopyWithImpl<$Res, _$$"@ + n + "ImplImpl>\n"@ + "    implements _$$$"@ + n + "ImplImplCopyWith<$Res> {\n"@ + "  __$$$"@ + n + "ImplImplCopyWithImpl(\n"@ + "      _$$"@ + n + "ImplImpl _value, $Res Function(_$$"@ + n + "ImplImpl) _then)\n"@ + "      : super(_value, _then);\n"@ + "\n"@ + "  /// Create a copy of "@, n);
    reveal_strlit("\n");
    assert(lacks_char("\n"@, '&'));
    lemma_append_amp_ok(s + "\n  });\n"@ + "}\n\n"@ + "/// @nodoc\n"@ + "class __$$$"@ + n + "ImplImplCopyWithImpl<$Res>\n"@ + "    extends _$"@ + n + "CopyWithImpl<$Res, _$$"@ + n + "ImplImpl>\n"@ + "    implements _$$$"@ + n + "ImplImplCopyWith<$Res> {\n"@ + "  __$$$"@ + n + "ImplImplCopyWithImpl(\n"@ + "      _$$"@ + n + "ImplImpl _value, $Res Function(_$$"@ + n + "ImplImpl) _then)\n"@ + "      : super(_value, _then);\n"@ + "\n"@ + "  /// Create a copy of "@ + n, "\n"@);
    reveal_strlit("  /// with the given fields replaced by the non-null parameter values.\n");
    assert(lacks_char("  /// with the given fields replaced by the non-null parameter values.\n"@, '&'));
    lemma_append_amp_ok(s + "\n  });\n"@ + "}\n\n"@ + "/// @nodoc\n"@ + "class __$$$"@ + n + "ImplImplCopyWithImpl<$Res>\n"@ + "    extends _$"@ + n + "CopyWithImpl<$Res, _$$"@ + n + "ImplImpl>\n"@ + "    implements _$$$"@ + n + "ImplImplCopyWith<$Res> {\n"@ + "  __$$$"@ + n + "ImplImplCopyWithImpl(\n"@ + "      _$$"@ + n + "ImplImpl _value, $Res Function(_$$"@ + n + "ImplImpl) _then)\n"@ + "      : super(_value, _then);\n"@ + "\n"@ + "  /// Create a copy of "@ + n + "\n"@, "  /// with the given fields replaced by the non-null parameter values.\n"@);
    reveal_strlit("  @pragma('vm:prefer-inline')\n");
    assert(lacks_char("  @pragma('vm:prefer-inline')\n"@, '&'));
    lemma_append_amp_ok(s + "\n  });\n"@ + "}\n\n"@ + "/// @nodoc\n"@ + "class __$$$"@ + n + "ImplImplCopyWithImpl<$Res>\n"@ + "    extends _$"@ + n + "CopyWithImpl<$Res, _$$"@ + n + "ImplImpl>\n"@ + "    implements _$$$"@ + n + "ImplImplCopyWith<$Res> {\n"@ + "  __$$$"@ + n + "ImplImplCopyWithImpl(\n"@ + "      _$$"@ + n + "ImplImpl _value, $Res Function(_$$"@ + n + "ImplImpl) _then)\n"@ + "      : super(_value, _then);\n"@ + "\n"@ + "  /// Create a copy of "@ + n + "\n"@ + "  /// with the given fields replaced by the non-null parameter values.\n"@, "  @pragma('vm:prefer-inline')\n"@);
    reveal_strlit("  @override\n");
    assert(lacks_char("  @override\n"@, '&'));
    lemma_append_amp_ok(s + "\n  });\n"@ + "}\n\n"@ + "/// @nodoc\n"@ + "class __$$$"@ + n + "ImplImplCopyWithImpl<$Res>\n"@ + "    extends _$"@ + n + "CopyWithImpl<$Res, _$$"@ + n + "ImplImpl>\n"@ + "    implements _$$$"@ + n + "ImplImplCopyWith<$Res> {\n"@ + "  __$$$"@ + n + "ImplImplCopyWithImpl(\n"@ + "      _$$"@ + n + "ImplImpl _value, $Res Function(_$$"@ + n + "ImplImpl) _then)\n"@ + "      : super(_value, _then);\n"@ + "\n"@ + "  /// Create a copy of "@ + n + "\n"@ + "  /// with the given fields replaced by the non-null parameter values.\n"@ + "  @pragma('vm:prefer-inline')\n"@, "  @override\n"@);
    reveal_strlit("  $Res call({");
    assert(lacks_char("  $Res call({"@, '&'));
    lemma_append_amp_ok(s + "\n  });\n"@ + "}\n\n"@ + "/// @nodoc\n"@ + "class __$$$"@ + n + "ImplImplCopyWithImpl<$Res>\n"@ + "    extends _$"@ + n + "CopyWithImpl<$Res, _$$"@ + n + "ImplImpl>\n"@ + "    implements _$$$"@ + n + "ImplImplCopyWith<$Res> {\n"@ + "  __$$$"@ + n + "ImplImplCopyWithImpl(\n"@ + "      _$$"@ + n + "ImplImpl _value, $Res Function(_$$"@ + n + "ImplImpl) _then)\n"@ + "      : super(_value, _then);\n"@ + "\n"@ + "  /// Create a copy of "@ + n + "\n"@ + "  /// with the given fields replaced by the non-null parameter values.\n"@ + "  @pragma('vm:prefer-inline')\n"@ + "  @override\n"@, "  $Res call({"@);
    lemma_fields_amp_ok(s + "\n  });\n"@ + "}\n\n"@ + "/// @nodoc\n"@ + "class __$$$"@ + n + "ImplImplCopyWithImpl<$Res>\n"@ + "    extends _$"@ + n + "CopyWithImpl<$Res, _$$"@ + n + "ImplImpl>\n"@ + "    implements _$$$"@ + n + "ImplImplCopyWith<$Res> {\n"@ + "  __$$$"@ + n + "ImplImplCopyWithImpl(\n"@ + "      _$$"@ + n + "ImplImpl _value, $Res Function(_$$"@ + n + "ImplImpl) _then)\n"@ + "      : super(_value, _then);\n"@ + "\n"@ + "  /// Create a copy of "@ + n + "\n"@ + "  /// with the given fields replaced by the non-null parameter values.\n"@ + "  @pragma('vm:prefer-inline')\n"@ + "  @override\n"@ + "  $Res call({"@, fs, FieldPiece::ObjectParam);}

/// One step of `lemma_regular_head_amp_ok`: a part of the first part of a regular class keeps `amp_ok`.
proof fn lemma_regular_head_step_7(s: Seq<char>, n: Seq<char>, fs: Seq<FieldModel>)
    requires
        amp_ok(s),
        lacks_char(n, '&'),
        forall|i: int| 0 <= i < fs.len() ==> field_lacks_amp(#[trigger] fs[i]),
    ensures
        amp_ok(fold_put(s + "\n  }) {\n"@ + "    return _then(_$$"@ + n + "ImplImpl(\n"@, fs, field_piece_fn(FieldPiece::CopyAssign))),
{
    reveal_strlit("\n  }) {\n");
    assert(lacks_char("\n  }) {\n"@, '&'));
    lemma_append_amp_ok(s, "\n  }) {\n"@);
    reveal_strlit("    return _then(_$$");
    assert(lacks_char("    return _then(_$$"@, '&'));
    lemma_append_amp_ok(s + "\n  }) {\n"@, "    return _then(_$$"@);
    lemma_append_amp_ok(s + "\n  }) {\n"@ + "    return _then(_$$"@, n);
    reveal_strlit("ImplImpl(\n");
    assert(lacks_char("ImplImpl(\n"@, '&'));
    lemma_append_amp_ok(s + "\n  }) {\n"@ + "    return _then(_$$"@ + n, "ImplImpl(\n"@);
    lemma_fields_amp_ok(s + "\n  }) {\n"@ + "    return _then(_$$"@ + n + "ImplImpl(\n"@, fs, FieldPiece::CopyAssign);}

/// One step of `lemma_regular_head_amp_ok`: a part of the first part of a regular class keeps `amp_ok`.
proof fn lemma_regular_head_step_8(s: Seq<char>, n: Seq<char>)
    requires
        amp_ok(s),
        lacks_char(n, '&'),
    ensures
        amp_ok(s + "    ));\n"@ + "  }\n"@ + "}\n\n"@),
{
    reveal_strlit("    ));\n");
    assert(lacks_char("    ));\n"@, '&'));
    lemma_append_amp_ok(s, "    ));\n"@);
    reveal_strlit("  }\n");
    assert(lacks_char("  }\n"@, '&'));
    lemma_append_amp_ok(s + "    ));\n"@, "  }\n"@);
    reveal_strlit("}\n\n");
    assert(lacks_char("}\n\n"@, '&'));
    lemma_append_amp_ok(s + "    ));\n"@ + "  }\n"@, "}\n\n"@);
}

/// The first part of the code of a regular class keeps `amp_ok`.
#[verifier::spinoff_prover]
proof fn lemma_regular_head_amp_ok(o: Seq<char>, n: Seq<char>, fs: Seq<FieldModel>)
    requires
        amp_ok(o),
        lacks_char(n, '&'),
        forall|i: int| 0 <= i < fs.len() ==> field_lacks_amp(#[trigger] fs[i]),
    ensures
        amp_ok(put_regular_head(o, n, fs)),
{
    lemma_regular_head_step_1(o, n, fs);
    let o1 = fold_put(o + n + " _$"@ + n + "FromJson(Map<String, dynamic> json) {\n"@ + "  return _$"@ + n + "Impl.fromJson(json);\n"@ + "}\n\n"@ + "/// @nodoc\n"@ + "mixin _$"@ + n + " {\n"@, fs, field_piece_fn(FieldPiece::GetterLine));
    lemma_regular_head_step_2(o1, n, fs);
    let o2 = fold_put(o1 + "\n"@ + "  /// Serializes this "@ + n + " to a JSON map.\n"@ + "  Map<String, dynamic> toJson() => throw _privateConstructorUsedError;\n\n"@ + "  /// Create a copy of "@ + n + "\n"@ + "  /// with the given fields replaced by the non-null parameter values.\n"@ + "  @JsonKey(includeFromJson: false, includeToJson: false)\n"@ + "  $"@ + n + "CopyWith<"@ + n + "> get copyWith => throw _privateConstructorUsedError;\n"@ + "}\n\n"@ + "/// @nodoc\n"@ + "abstract class $"@ + n + "CopyWith<$Res> {\n"@ + "  factory $"@ + n + "CopyWith("@ + n + " value, $Res Function("@ + n + ") then) =\n"@ + "      _$"@ + n + "CopyWithImpl<$Res, "@ + n + ">;\n"@ + "  @useResult\n"@ + "  $Res call({"@, fs, field_piece_fn(FieldPiece::CallParam));
    lemma_regular_head_step_3(o2, n, fs);
    let o3 = fold_put(o2 + "\n  });\n"@ + "}\n\n"@ + "/// @nodoc\n"@ + "class _$"@ + n + "CopyWithImpl<$Res, $Val extends "@ + n + ">\n"@ + "    implements $"@ + n + "CopyWith<$Res> {\n"@ + "  _$"@ + n + "CopyWithImpl(this._value, this._then);\n"@ + "\n"@ + "  // ignore: unused_field\n"@ + "  final $Val _value;\n"@ + "  // ignore: unused_field\n"@ + "  final $Res Function($Val) _then;\n"@ + "  /// Create a copy of "@ + n + "\n"@ + "  /// with the given fields replaced by the non-null parameter values.\n"@ + "  @pragma('vm:prefer-inline')\n"@ + "  @override\n"@ + "  $Res call({"@, fs, field_piece_fn(FieldPiece::ObjectParam));
    lemma_regular_head_step_4(o3, n, fs);
    let o4 = fold_put(o3 + "\n  }) {\n"@ + "    return _then(_value.copyWith(\n"@, fs, field_piece_fn(FieldPiece::CopyAssign));
    lemma_regular_head_step_5(o4, n, fs);
    let o5 = fold_put(o4 + "    ) as $Val);\n"@ + "  }\n"@ + "}\n\n"@ + "/// @nodoc\n"@ + "abstract class _$$$"@ + n + "ImplImplCopyWith<$Res> implements $"@ + n + "CopyWith<$Res> {\n"@ + "  factory _$$$"@ + n + "ImplImplCopyWith(\n"@ + "          _$$"@ + n + "ImplImpl value, $Res Function(_$$"@ + n + "ImplImpl) then) =\n"@ + "      __$$$"@ + n + "ImplImplCopyWithImpl<$Res>;\n"@ + "  @override\n"@ + "  @useResult\n"@ + "  $Res call({"@, fs, field_piece_fn(FieldPiece::ObjectParam));
    lemma_regular_head_step_6(o5, n, fs);
    let o6 = fold_put(o5 + "\n  });\n"@ + "}\n\n"@ + "/// @nodoc\n"@ + "class __$$$"@ + n + "ImplImplCopyWithImpl<$Res>\n"@ + "    extends _$"@ + n + "CopyWithImpl<$Res, _$$"@ + n + "ImplImpl>\n"@ + "    implements _$$$"@ + n + "ImplImplCopyWith<$Res> {\n"@ + "  __$$$"@ + n + "ImplImplCopyWithImpl(\n"@ + "      _$$"@ + n + "ImplImpl _value, $Res Function(_$$"@ + n + "ImplImpl) _then)\n"@ + "      : super(_value, _then);\n"@ + "\n"@ + "  /// Create a copy of "@ + n + "\n"@ + "  /// with the given fields replaced by the non-null parameter values.\n"@ + "  @pragma('vm:prefer-inline')\n"@ + "  @override\n"@ + "  $Res call({"@, fs, field_piece_fn(FieldPiece::ObjectParam));
    lemma_regular_head_step_7(o6, n, fs);
    let o7 = fold_put(o6 + "\n  }) {\n"@ + "    return _then(_$$"@ + n + "ImplImpl(\n"@, fs, field_piece_fn(FieldPiece::CopyAssign));
    lemma_regular_head_step_8(o7, n);
    assert(put_regular_head(o, n, fs) == o7 + "    ));\n"@ + "  }\n"@ + "}\n\n"@);
}

/// One step of `lemma_regular_tail_amp_ok`: a part of the second part of a regular class keeps `amp_ok`.
proof fn lemma_regular_tail_step_1(s: Seq<char>, n: Seq<char>, fs: Seq<FieldModel>)
    requires
        amp_ok(s),
        lacks_char(n, '&'),
        forall|i: int| 0 <= i < fs.len() ==> field_lacks_amp(#[trigger] fs[i]),
    ensures
        amp_ok(fold_put(s + "/// @nodoc\n"@ + "@JsonSerializable()\n"@ + "class _$$"@ + n + "ImplImpl implements _$"@ + n + "Impl {\n"@ + "  const _$$"@ + n + "ImplImpl(\n"@ + "      {"@, fs, field_piece_fn(FieldPiece::CtorParam))),
{
    reveal_strlit("/// @nodoc\n");
    assert(lacks_char("/// @nodoc\n"@, '&'));
    lemma_append_amp_ok(s, "/// @nodoc\n"@);
    reveal_strlit("@JsonSerializable()\n");
    assert(lacks_char("@JsonSerializable()\n"@, '&'));
    lemma_append_amp_ok(s + "/// @nodoc\n"@, "@JsonSerializable()\n"@);
    reveal_strlit("class _$$");
    assert(lacks_char("class _$$"@, '&'));
    lemma_append_amp_ok(s + "/// @nodoc\n"@ + "@JsonSerializable()\n"@, "class _$$"@);
    lemma_append_amp_ok(s + "/// @nodoc\n"@ + "@JsonSerializable()\n"@ + "class _$$"@, n);
    reveal_strlit("ImplImpl implements _$");
    assert(lacks_char("ImplImpl implements _$"@, '&'));
    lemma_append_amp_ok(s + "/// @nodoc\n"@ + "@JsonSerializable()\n"@ + "class _$$"@ + n, "ImplImpl implements _$"@);
    lemma_append_amp_ok(s + "/// @nodoc\n"@ + "@JsonSerializable()\n"@ + "class _$$"@ + n + "ImplImpl implements _$"@, n);
    reveal_strlit("Impl {\n");
    assert(lacks_char("Impl {\n"@, '&'));
    lemma_append_amp_ok(s + "/// @nodoc\n"@ + "@JsonSerializable()\n"@ + "class _$$"@ + n + "ImplImpl implements _$"@ + n, "Impl {\n"@);
    reveal_strlit("  const _$$");
    assert(lacks_char("  const _$$"@, '&'));
    lemma_append_amp_ok(s + "/// @nodoc\n"@ + "@JsonSerializable()\n"@ + "class _$$"@ + n + "ImplImpl implements _$"@ + n + "Impl {\n"@, "  const _$$"@);
    lemma_append_amp_ok(s + "/// @nodoc\n"@ + "@JsonSerializable()\n"@ + "class _$$"@ + n + "ImplImpl implements _$"@ + n + "Impl {\n"@ + "  const _$$"@, n);
    reveal_strlit("ImplImpl(\n");
    assert(lacks_char("ImplImpl(\n"@, '&'));
    lemma_append_amp_ok(s + "/// @nodoc\n"@ + "@JsonSerializable()\n"@ + "class _$$"@ + n + "ImplImpl implements _$"@ + n + "Impl {\n"@ + "  const _$$"@ + n, "ImplImpl(\n"@);
    reveal_strlit("      {");
    assert(lacks_char("      {"@, '&'));
    lemma_append_amp_ok(s + "/// @nodoc\n"@ + "@JsonSerializable()\n"@ + "class _$$"@ + n + "ImplImpl implements _$"@ + n + "Impl {\n"@ + "  const _$$"@ + n + "ImplImpl(\n"@, "      {"@);
    lemma_fields_amp_ok(s + "/// @nodoc\n"@ + "@JsonSerializable()\n"@ + "class _$$"@ + n + "ImplImpl implements _$"@ + n + "Impl {\n"@ + "  const _$$"@ + n + "ImplImpl(\n"@ + "      {"@, fs, FieldPiece::CtorParam);}

/// One step of `lemma_regular_tail_amp_ok`: a part of the second part of a regular class keeps `amp_ok`.
proof fn lemma_regular_tail_step_2(s: Seq<char>, n: Seq<char>, fs: Seq<FieldModel>)
    requires
        amp_ok(s),
        lacks_char(n, '&'),
        forall|i: int| 0 <= i < fs.len() ==> field_lacks_amp(#[trigger] fs[i]),
    ensures
        amp_ok(fold_put(s + "});\n\n"@ + "  factory _$$"@ + n + "ImplImpl.fromJson(Map<String, dynamic> json) =>\n"@ + "      _$$"@ + n + "ImplImplFromJson(json);\n\n"@, fs, field_piece_fn(FieldPiece::FinalField))),
{
    reveal_strlit("});\n\n");
    assert(lacks_char("});\n\n"@, '&'));
    lemma_append_amp_ok(s, "});\n\n"@);
    reveal_strlit("  factory _$$");
    assert(lacks_char("  factory _$$"@, '&'));
    lemma_append_amp_ok(s + "});\n\n"@, "  factory _$$"@);
    lemma_append_amp_ok(s + "});\n\n"@ + "  factory _$$"@, n);
    reveal_strlit("ImplImpl.fromJson(Map<String, dynamic> json) =>\n");
    assert(lacks_char("ImplImpl.fromJson(Map<String, dynamic> json) =>\n"@, '&'));
    lemma_append_amp_ok(s + "});\n\n"@ + "  factory _$$"@ + n, "ImplImpl.fromJson(Map<String, dynamic> json) =>\n"@);
    reveal_strlit("      _$$");
    assert(lacks_char("      _$$"@, '&'));
    lemma_append_amp_ok(s + "});\n\n"@ + "  factory _$$"@ + n + "ImplImpl.fromJson(Map<String, dynamic> json) =>\n"@, "      _$$"@);
    lemma_append_amp_ok(s + "});\n\n"@ + "  factory _$$"@ + n + "ImplImpl.fromJson(Map<String, dynamic> json) =>\n"@ + "      _$$"@, n);
    reveal_strlit("ImplImplFromJson(json);\n\n");
    assert(lacks_char("ImplImplFromJson(json);\n\n"@, '&'));
    lemma_append_amp_ok(s + "});\n\n"@ + "  factory _$$"@ + n + "ImplImpl.fromJson(Map<String, dynamic> json) =>\n"@ + "      _$$"@ + n, "ImplImplFromJson(json);\n\n"@);
    lemma_fields_amp_ok(s + "});\n\n"@ + "  factory _$$"@ + n + "ImplImpl.fromJson(Map<String, dynamic> json) =>\n"@ + "      _$$"@ + n + "ImplImplFromJson(json);\n\n"@, fs, FieldPiece::FinalField);}

/// One step of `lemma_regular_tail_amp_ok`: a part of the second part of a regular class keeps `amp_ok`.
proof fn lemma_regular_tail_step_3(s: Seq<char>, n: Seq<char>, fs: Seq<FieldModel>)
    requires
        amp_ok(s),
        lacks_char(n, '&'),
        forall|i: int| 0 <= i < fs.len() ==> field_lacks_amp(#[trigger] fs[i]),
    ensures
        amp_ok(put_joined(s + "\n"@ + "  @override\n"@ + "  String toString() {\n"@ + "    return '"@ + n + "("@, fs, FieldPiece::ToStringFirst, FieldPiece::ToStringNext)),
{
    reveal_strlit("\n");
    assert(lacks_char("\n"@, '&'));
    lemma_append_amp_ok(s, "\n"@);
    reveal_strlit("  @override\n");
    assert(lacks_char("  @override\n"@, '&'));
    lemma_append_amp_ok(s + "\n"@, "  @override\n"@);
    reveal_strlit("  String toString() {\n");
    assert(lacks_char("  String toString() {\n"@, '&'));
    lemma_append_amp_ok(s + "\n"@ + "  @override\n"@, "  String toString() {\n"@);
    reveal_strlit("    return '");
    assert(lacks_char("    return '"@, '&'));
    lemma_append_amp_ok(s + "\n"@ + "  @override\n"@ + "  String toString() {\n"@, "    return '"@);
    lemma_append_amp_ok(s + "\n"@ + "  @override\n"@ + "  String toString() {\n"@ + "    return '"@, n);
    reveal_strlit("(");
    assert(lacks_char("("@, '&'));
    lemma_append_amp_ok(s + "\n"@ + "  @override\n"@ + "  String toString() {\n"@ + "    return '"@ + n, "("@);
    lemma_joined_amp_ok(s + "\n"@ + "  @override\n"@ + "  String toString() {\n"@ + "    return '"@ + n + "("@, fs, FieldPiece::ToStringFirst, FieldPiece::ToStringNext);}

/// One step of `lemma_regular_tail_amp_ok`: a part of the second part of a regular class keeps `amp_ok`.
proof fn lemma_regular_tail_step_4(s: Seq<char>, n: Seq<char>, fs: Seq<FieldModel>)
    requires
        amp_ok(s),
        lacks_char(n, '&'),
        forall|i: int| 0 <= i < fs.len() ==> field_lacks_amp(#[trigger] fs[i]),
    ensures
        eq_ok(fold_put(s + ")';\n"@ + "  }\n\n"@ + "  @override\n"@ + "  bool operator ==(Object other) {\n"@ + "    return identical(this, other) ||\n"@ + "        (other.runtimeType == runtimeType &&\n"@ + "            other is _$$"@ + n + "ImplImpl &&\n"@, fs, field_piece_fn(FieldPiece::EqLine))),
{
    reveal_strlit("            other is _$$");
    reveal_strlit("        (other.runtimeType == runtimeType &&\n");
    reveal_strlit("    return identical(this, other) ||\n");
    reveal_strlit("  @override\n");
    reveal_strlit("  bool operator ==(Object other) {\n");
    reveal_strlit("  }\n\n");
    reveal_strlit(")';\n");
    reveal_strlit("ImplImpl &&\n");
    reveal_strlit("        (other.runtimeType == runtimeType ");
    let a = ")';\n"@ + "  }\n\n"@ + "  @override\n"@ + "  bool operator ==(Object other) {\n"@ + "    return identical(this, other) ||\n"@;
    assert(lacks_char(a, '&'));
    lemma_append_amp_ok(s, a);
    let e1 = "        (other.runtimeType == runtimeType &&\n"@;
    let e2 = "            other is _$$"@ + n + "ImplImpl &&\n"@;
    assert(e1.take(e1.len() - 3) =~= "        (other.runtimeType == runtimeType "@);
    reveal_strlit("ImplImpl ");
    assert(e2.take(e2.len() - 3) =~= "            other is _$$"@ + n + "ImplImpl "@);
    assert(lacks_char(e2.take(e2.len() - 3), '&'));
    lemma_amp_line(s + a, e1);
    lemma_amp_line(s + a + e1, e2);
    assert(s + ")';\n"@ + "  }\n\n"@ + "  @override\n"@ + "  bool operator ==(Object other) {\n"@ + "    return identical(this, other) ||\n"@ + "        (other.runtimeType == runtimeType &&\n"@ + "            other is _$$"@ + n + "ImplImpl &&\n"@ =~= s + a + e1 + e2);
    lemma_eq_lines_ok(s + ")';\n"@ + "  }\n\n"@ + "  @override\n"@ + "  bool operator ==(Object other) {\n"@ + "    return identical(this, other) ||\n"@ + "        (other.runtimeType == runtimeType &&\n"@ + "            other is _$$"@ + n + "ImplImpl &&\n"@, fs);
}

/// One step of `lemma_regular_tail_amp_ok`: a part of the second part of a regular class keeps `amp_ok`.
proof fn lemma_regular_tail_step_5(s: Seq<char>, n: Seq<char>, fs: Seq<FieldModel>)
    requires
        amp_ok(s),
        lacks_char(n, '&'),
        forall|i: int| 0 <= i < fs.len() ==> field_lacks_amp(#[trigger] fs[i]),
    ensures
        amp_ok(fold_put(s + ");\n"@ + "  }\n\n"@ + "  @JsonKey(includeFromJson: false, includeToJson: false)\n"@ + "  @override\n"@ + "  int get hashCode => Object.hash(\n"@ + "      runtimeType,\n"@, fs, field_piece_fn(FieldPiece::HashLine))),
{
    reveal_strlit(");\n");
    assert(lacks_char(");\n"@, '&'));
    lemma_append_amp_ok(s, ");\n"@);
    reveal_strlit("  }\n\n");
    assert(lacks_char("  }\n\n"@, '&'));
    lemma_append_amp_ok(s + ");\n"@, "  }\n\n"@);
    reveal_strlit("  @JsonKey(includeFromJson: false, includeToJson: false)\n");
    assert(lacks_char("  @JsonKey(includeFromJson: false, includeToJson: false)\n"@, '&'));
    lemma_append_amp_ok(s + ");\n"@ + "  }\n\n"@, "  @JsonKey(includeFromJson: false, includeToJson: false)\n"@);
    reveal_strlit("  @override\n");
    assert(lacks_char("  @override\n"@, '&'));
    lemma_append_amp_ok(s + ");\n"@ + "  }\n\n"@ + "  @JsonKey(includeFromJson: false, includeToJson: false)\n"@, "  @override\n"@);
    reveal_strlit("  int get hashCode => Object.hash(\n");
    assert(lacks_char("  int get hashCode => Object.hash(\n"@, '&'));
    lemma_append_amp_ok(s + ");\n"@ + "  }\n\n"@ + "  @JsonKey(includeFromJson: false, includeToJson: false)\n"@ + "  @override\n"@, "  int get hashCode => Object.hash(\n"@);
    reveal_strlit("      runtimeType,\n");
    assert(lacks_char("      runtimeType,\n"@, '&'));
    lemma_append_amp_ok(s + ");\n"@ + "  }\n\n"@ + "  @JsonKey(includeFromJson: false, includeToJson: false)\n"@ + "  @override\n"@ + "  int get hashCode => Object.hash(\n"@, "      runtimeType,\n"@);
    lemma_fields_amp_ok(s + ");\n"@ + "  }\n\n"@ + "  @JsonKey(includeFromJson: false, includeToJson: false)\n"@ + "  @override\n"@ + "  int get hashCode => Object.hash(\n"@ + "      runtimeType,\n"@, fs, FieldPiece::HashLine);}

/// One step of `lemma_regular_tail_amp_ok`: a part of the second part of a regular class keeps `amp_ok`.
#[verifier::spinoff_prover]
#[verifier::rlimit(60)]
proof fn lemma_regular_tail_step_6(s: Seq<char>, n: Seq<char>, fs: Seq<FieldModel>)
    requires
        amp_ok(s),
        lacks_char(n, '&'),
        forall|i: int| 0 <= i < fs.len() ==> field_lacks_amp(#[trigger] fs[i]),
    ensures
        amp_ok(fold_put(s + "  );\n\n"@ + "  /// Create a copy of "@ + n + "\n"@ + "  /// with the given fields replaced by the non-null parameter values.\n"@ + "  @JsonKey(includeFromJson: false, includeToJson: false)\n"@ + "  @override\n"@ + "  @pragma('vm:prefer-inline')\n"@ + "  _$$$"@ + n + "ImplImplCopyWith<_$$"@ + n + "ImplImpl> get copyWith =>\n"@ + "      __$$$"@ + n + "ImplImplCopyWithImpl<_$$"@ + n + "ImplImpl>(this, _$identity);\n"@ + "\n"@ + "  @override\n"@ + "  Map<String, dynamic> toJson() {\n"@ + "    return _$$"@ + n + "ImplImplToJson(\n"@ + "      this,\n"@ + "    );\n"@ + "  }\n"@ + "}\n\n"@ + "abstract class _$"@ + n + "Impl implements "@ + n + " {\n"@ + "  const factory _$"@ + n + "Impl(\n"@ + "    {\n"@, fs, field_piece_fn(FieldPiece::FactoryParam))),
{
    reveal_strlit("  );\n\n");
    assert(lacks_char("  );\n\n"@, '&'));
    lemma_append_amp_ok(s, "  );\n\n"@);
    reveal_strlit("  /// Create a copy of ");
    assert(lacks_char("  /// Create a copy of "@, '&'));
    lemma_append_amp_ok(s + "  );\n\n"@, "  /// Create a copy of "@);
    lemma_append_amp_ok(s + "  );\n\n"@ + "  /// Create a copy of "@, n);
    reveal_strlit("\n");
    assert(lacks_char("\n"@, '&'));
    lemma_append_amp_ok(s + "  );\n\n"@ + "  /// Create a copy of "@ + n, "\n"@);
    reveal_strlit("  /// with the given fields replaced by the non-null parameter values.\n");
    assert(lacks_char("  /// with the given fields replaced by the non-null parameter values.\n"@, '&'));
    lemma_append_amp_ok(s + "  );\n\n"@ + "  /// Create a copy of "@ + n + "\n"@, "  /// with the given fields replaced by the non-null parameter values.\n"@);
    reveal_strlit("  @JsonKey(includeFromJson: false, includeToJson: false)\n");
    assert(lacks_char("  @JsonKey(includeFromJson: false, includeToJson: false)\n"@, '&'));
    lemma_append_amp_ok(s + "  );\n\n"@ + "  /// Create a copy of "@ + n + "\n"@ + "  /// with the given fields replaced by the non-null parameter values.\n"@, "  @JsonKey(includeFromJson: false, includeToJson: false)\n"@);
    reveal_strlit("  @override\n");
    assert(lacks_char("  @override\n"@, '&'));
    lemma_append_amp_ok(s + "  );\n\n"@ + "  /// Create a copy of "@ + n + "\n"@ + "  /// with the given fields replaced by the non-null parameter values.\n"@ + "  @JsonKey(includeFromJson: false, includeToJson: false)\n"@, "  @override\n"@);
    reveal_strlit("  @pragma('vm:prefer-inline')\n");
    assert(lacks_char("  @pragma('vm:prefer-inline')\n"@, '&'));
    lemma_append_amp_ok(s + "  );\n\n"@ + "  /// Create a copy of "@ + n + "\n"@ + "  /// with the given fields replaced by the non-null parameter values.\n"@ + "  @JsonKey(includeFromJson: false, includeToJson: false)\n"@ + "  @override\n"@, "  @pragma('vm:prefer-inline')\n"@);
    reveal_strlit("  _$$$");
    assert(lacks_char("  _$$$"@, '&'));
    lemma_append_amp_ok(s + "  );\n\n"@ + "  /// Create a copy of "@ + n + "\n"@ + "  /// with the given fields replaced by the non-null parameter values.\n"@ + "  @JsonKey(includeFromJson: false, includeToJson: false)\n"@ + "  @override\n"@ + "  @pragma('vm:prefer-inline')\n"@, "  _$$$"@);
    lemma_append_amp_ok(s + "  );\n\n"@ + "  /// Create a copy of "@ + n + "\n"@ + "  /// with the given fields replaced by the non-null parameter values.\n"@ + "  @JsonKey(includeFromJson: false, includeToJson: false)\n"@ + "  @override\n"@ + "  @pragma('vm:prefer-inline')\n"@ + "  _$$$"@, n);
    reveal_strlit("ImplImplCopyWith<_$$");
    assert(lacks_char("ImplImplCopyWith<_$$"@, '&'));
    lemma_append_amp_ok(s + "  );\n\n"@ + "  /// Create a copy of "@ + n + "\n"@ + "  /// with the given fields replaced by the non-null parameter values.\n"@ + "  @JsonKey(includeFromJson: false, includeToJson: false)\n"@ + "  @override\n"@ + "  @pragma('vm:prefer-inline')\n"@ + "  _$$$"@ + n, "ImplImplCopyWith<_$$"@);
    lemma_append_amp_ok(s + "  );\n\n"@ + "  /// Create a copy of "@ + n + "\n"@ + "  /// with the given fields replaced by the non-null parameter values.\n"@ + "  @JsonKey(includeFromJson: false, includeToJson: false)\n"@ + "  @override\n"@ + "  @pragma('vm:prefer-inline')\n"@ + "  _$$$"@ + n + "ImplImplCopyWith<_$$"@, n);
    reveal_strlit("ImplImpl> get copyWith =>\n");
    assert(lacks_char("ImplImpl> get copyWith =>\n"@, '&'));
    lemma_append_amp_ok(s + "  );\n\n"@ + "  /// Create a copy of "@ + n + "\n"@ + "  /// with the given fields replaced by the non-null parameter values.\n"@ + "  @JsonKey(includeFromJson: false, includeToJson: false)\n"@ + "  @override\n"@ + "  @pragma('vm:prefer-inline')\n"@ + "  _$$$"@ + n + "ImplImplCopyWith<_$$"@ + n, "ImplImpl> get copyWith =>\n"@);
    reveal_strlit("      __$$$");
    assert(lacks_char("      __$$$"@, '&'));
    lemma_append_amp_ok(s + "  );\n\n"@ + "  /// Create a copy of "@ + n + "\n"@ + "  /// with the given fields replaced by the non-null parameter values.\n"@ + "  @JsonKey(includeFromJson: false, includeToJson: false)\n"@ + "  @override\n"@ + "  @pragma('vm:prefer-inline')\n"@ + "  _$$$"@ + n + "ImplImplCopyWith<_$$"@ + n + "ImplImpl> get copyWith =>\n"@, "      __$$$"@);
    lemma_append_amp_ok(s + "  );\n\n"@ + "  /// Create a copy of "@ + n + "\n"@ + "  /// with the given fields replaced by the non-null parameter values.\n"@ + "  @JsonKey(includeFromJson: false, includeToJson: false)\n"@ + "  @override\n"@ + "  @pragma('vm:prefer-inline')\n"@ + "  _$$$"@ + n + "ImplImplCopyWith<_$$"@ + n + "ImplImpl> get copyWith =>\n"@ + "      __$$$"@, n);
    reveal_strlit("ImplImplCopyWithImpl<_$$");
    assert(lacks_char("ImplImplCopyWithImpl<_$$"@, '&'));
    lemma_append_amp_ok(s + "  );\n\n"@ + "  /// Create a copy of "@ + n + "\n"@ + "  /// with the given fields replaced by the non-null parameter values.\n"@ + "  @JsonKey(includeFromJson: false, includeToJson: false)\n"@ + "  @override\n"@ + "  @pragma('vm:prefer-inline')\n"@ + "  _$$$"@ + n + "ImplImplCopyWith<_$$"@ + n + "ImplImpl> get copyWith =>\n"@ + "      __$$$"@ + n, "ImplImplCopyWithImpl<_$$"@);
    lemma_append_amp_ok(s + "  );\n\n"@ + "  /// Create a copy of "@ + n + "\n"@ + "  /// with the given fields replaced by the non-null parameter values.\n"@ + "  @JsonKey(includeFromJson: false, includeToJson: false)\n"@ + "  @override\n"@ + "  @pragma('vm:prefer-inline')\n"@ + "  _$$$"@ + n + "ImplImplCopyWith<_$$"@ + n + "ImplImpl> get copyWith =>\n"@ + "      __$$$"@ + n + "ImplImplCopyWithImpl<_$$"@, n);
    reveal_strlit("ImplImpl>(this, _$identity);\n");
    assert(lacks_char("ImplImpl>(this, _$identity);\n"@, '&'));
    lemma_append_amp_ok(s + "  );\n\n"@ + "  /// Create a copy of "@ + n + "\n"@ + "  /// with the given fields replaced by the non-null parameter values.\n"@ + "  @JsonKey(includeFromJson: false, includeToJson: false)\n"@ + "  @override\n"@ + "  @pragma('vm:prefer-inline')\n"@ + "  _$$$"@ + n + "ImplImplCopyWith<_$$"@ + n + "ImplImpl> get copyWith =>\n"@ + "      __$$$"@ + n + "ImplImplCopyWithImpl<_$$"@ + n, "ImplImpl>(this, _$identity);\n"@);
    reveal_strlit("\n");
    assert(lacks_char("\n"@, '&'));
    lemma_append_amp_ok(s + "  );\n\n"@ + "  /// Create a copy of "@ + n + "\n"@ + "  /// with the given fields replaced by the non-null parameter values.\n"@ + "  @JsonKey(includeFromJson: false, includeToJson: false)\n"@ + "  @override\n"@ + "  @pragma('vm:prefer-inline')\n"@ + "  _$$$"@ + n + "ImplImplCopyWith<_$$"@ + n + "ImplImpl> get copyWith =>\n"@ + "      __$$$"@ + n + "ImplImplCopyWithImpl<_$$"@ + n + "ImplImpl>(this, _$identity);\n"@, "\n"@);
    reveal_strlit("  @override\n");
    assert(lacks_char("  @override\n"@, '&'));
    lemma_append_amp_ok(s + "  );\n\n"@ + "  /// Create a copy of "@ + n + "\n"@ + "  /// with the given fields replaced by the non-null parameter values.\n"@ + "  @JsonKey(includeFromJson: false, includeToJson: false)\n"@ + "  @override\n"@ + "  @pragma('vm:prefer-inline')\n"@ + "  _$$$"@ + n + "ImplImplCopyWith<_$$"@ + n + "ImplImpl> get copyWith =>\n"@ + "      __$$$"@ + n + "ImplImplCopyWithImpl<_$$"@ + n + "ImplImpl>(this, _$identity);\n"@ + "\n"@, "  @override\n"@);
    reveal_strlit("  Map<String, dynamic> toJson() {\n");
    assert(lacks_char("  Map<String, dynamic> toJson() {\n"@, '&'));
    lemma_append_amp_ok(s + "  );\n\n"@ + "  /// Create a copy of "@ + n + "\n"@ + "  /// with the given fields replaced by the non-null parameter values.\n"@ + "  @JsonKey(includeFromJson: false, includeToJson: false)\n"@ + "  @override\n"@ + "  @pragma('vm:prefer-inline')\n"@ + "  _$$$"@ + n + "ImplImplCopyWith<_$$"@ + n + "ImplImpl> get copyWith =>\n"@ + "      __$$$"@ + n + "ImplImplCopyWithImpl<_$$"@ + n + "ImplImpl>(this, _$identity);\n"@ + "\n"@ + "  @override\n"@, "  Map<String, dynamic> toJson() {\n"@);
    reveal_strlit("    return _$$");
    assert(lacks_char("    return _$$"@, '&'));
    lemma_append_amp_ok(s + "  );\n\n"@ + "  /// Create a copy of "@ + n + "\n"@ + "  /// with the given fields replaced by the non-null parameter values.\n"@ + "  @JsonKey(includeFromJson: false, includeToJson: false)\n"@ + "  @override\n"@ + "  @pragma('vm:prefer-inline')\n"@ + "  _$$$"@ + n + "ImplImplCopyWith<_$$"@ + n + "ImplImpl> get copyWith =>\n"@ + "      __$$$"@ + n + "ImplImplCopyWithImpl<_$$"@ + n + "ImplImpl>(this, _$identity);\n"@ + "\n"@ + "  @override\n"@ + "  Map<String, dynamic> toJson() {\n"@, "    return _$$"@);
    lemma_append_amp_ok(s + "  );\n\n"@ + "  /// Create a copy of "@ + n + "\n"@ + "  /// with the given fields replaced by the non-null parameter values.\n"@ + "  @JsonKey(includeFromJson: false, includeToJson: false)\n"@ + "  @override\n"@ + "  @pragma('vm:prefer-inline')\n"@ + "  _$$$"@ + n + "ImplImplCopyWith<_$$"@ + n + "ImplImpl> get copyWith =>\n"@ + "      __$$$"@ + n + "ImplImplCopyWithImpl<_$$"@ + n + "ImplImpl>(this, _$identity);\n"@ + "\n"@ + "  @override\n"@ + "  Map<String, dynamic> toJson() {\n"@ + "    return _$$"@, n);
    reveal_strlit("ImplImplToJson(\n");
    assert(lacks_char("ImplImplToJson(\n"@, '&'));
    lemma_append_amp_ok(s + "  );\n\n"@ + "  /// Create a copy of "@ + n + "\n"@ + "  /// with the given fields replaced by the non-null parameter values.\n"@ + "  @JsonKey(includeFromJson: false, includeToJson: false)\n"@ + "  @override\n"@ + "  @pragma('vm:prefer-inline')\n"@ + "  _$$$"@ + n + "ImplImplCopyWith<_$$"@ + n + "ImplImpl> get copyWith =>\n"@ + "      __$$$"@ + n + "ImplImplCopyWithImpl<_$$"@ + n + "ImplImpl>(this, _$identity);\n"@ + "\n"@ + "  @override\n"@ + "  Map<String, dynamic> toJson() {\n"@ + "    return _$$"@ + n, "ImplImplToJson(\n"@);
    reveal_strlit("      this,\n");
    assert(lacks_char("      this,\n"@, '&'));
    lemma_append_amp_ok(s + "  );\n\n"@ + "  /// Create a copy of "@ + n + "\n"@ + "  /// with the given fields replaced by the non-null parameter values.\n"@ + "  @JsonKey(includeFromJson: false, includeToJson: false)\n"@ + "  @override\n"@ + "  @pragma('vm:prefer-inline')\n"@ + "  _$$$"@ + n + "ImplImplCopyWith<_$$"@ + n + "ImplImpl> get copyWith =>\n"@ + "      __$$$"@ + n + "ImplImplCopyWithImpl<_$$"@ + n + "ImplImpl>(this, _$identity);\n"@ + "\n"@ + "  @override\n"@ + "  Map<String, dynamic> toJson() {\n"@ + "    return _$$"@ + n + "ImplImplToJson(\n"@, "      this,\n"@);
    reveal_strlit("    );\n");
    assert(lacks_char("    );\n"@, '&'));
    lemma_append_amp_ok(s + "  );\n\n"@ + "  /// Create a copy of "@ + n + "\n"@ + "  /// with the given fields replaced by the non-null parameter values.\n"@ + "  @JsonKey(includeFromJson: false, includeToJson: false)\n"@ + "  @override\n"@ + "  @pragma('vm:prefer-inline')\n"@ + "  _$$$"@ + n + "ImplImplCopyWith<_$$"@ + n + "ImplImpl> get copyWith =>\n"@ + "      __$$$"@ + n + "ImplImplCopyWithImpl<_$$"@ + n + "ImplImpl>(this, _$identity);\n"@ + "\n"@ + "  @override\n"@ + "  Map<String, dynamic> toJson() {\n"@ + "    return _$$"@ + n + "ImplImplToJson(\n"@ + "      this,\n"@, "    );\n"@);
    reveal_strlit("  }\n");
    assert(lacks_char("  }\n"@, '&'));
    lemma_append_amp_ok(s + "  );\n\n"@ + "  /// Create a copy of "@ + n + "\n"@ + "  /// with the given fields replaced by the non-null parameter values.\n"@ + "  @JsonKey(includeFromJson: false, includeToJson: false)\n"@ + "  @override\n"@ + "  @pragma('vm:prefer-inline')\n"@ + "  _$$$"@ + n + "ImplImplCopyWith<_$$"@ + n + "ImplImpl> get copyWith =>\n"@ + "      __$$$"@ + n + "ImplImplCopyWithImpl<_$$"@ + n + "ImplImpl>(this, _$identity);\n"@ + "\n"@ + "  @override\n"@ + "  Map<String, dynamic> toJson() {\n"@ + "    return _$$"@ + n + "ImplImplToJson(\n"@ + "      this,\n"@ + "    );\n"@, "  }\n"@);
    reveal_strlit("}\n\n");
    assert(lacks_char("}\n\n"@, '&'));
    lemma_append_amp_ok(s + "  );\n\n"@ + "  /// Create a copy of "@ + n + "\n"@ + "  /// with the given fields replaced by the non-null parameter values.\n"@ + "  @JsonKey(includeFromJson: false, includeToJson: false)\n"@ + "  @override\n"@ + "  @pragma('vm:prefer-inline')\n"@ + "  _$$$"@ + n + "ImplImplCopyWith<_$$"@ + n + "ImplImpl> get copyWith =>\n"@ + "      __$$$"@ + n + "ImplImplCopyWithImpl<_$$"@ + n + "ImplImpl>(this, _$identity);\n"@ + "\n"@ + "  @override\n"@ + "  Map<String, dynamic> toJson() {\n"@ + "    return _$$"@ + n + "ImplImplToJson(\n"@ + "      this,\n"@ + "    );\n"@ + "  }\n"@, "}\n\n"@);
    reveal_strlit("abstract class _$");
    assert(lacks_char("abstract class _$"@, '&'));
    lemma_append_amp_ok(s + "  );\n\n"@ + "  /// Create a copy of "@ + n + "\n"@ + "  /// with the given fields replaced by the non-null parameter values.\n"@ + "  @JsonKey(includeFromJson: false, includeToJson: false)\n"@ + "  @override\n"@ + "  @pragma('vm:prefer-inline')\n"@ + "  _$$$"@ + n + "ImplImplCopyWith<_$$"@ + n + "ImplImpl> get copyWith =>\n"@ + "      __$$$"@ + n + "ImplImplCopyWithImpl<_$$"@ + n + "ImplImpl>(this, _$identity);\n"@ + "\n"@ + "  @override\n"@ + "  Map<String, dynamic> toJson() {\n"@ + "    return _$$"@ + n + "ImplImplToJson(\n"@ + "      this,\n"@ + "    );\n"@ + "  }\n"@ + "}\n\n"@, "abstract class _$"@);
    lemma_append_amp_ok(s + "  );\n\n"@ + "  /// Create a copy of "@ + n + "\n"@ + "  /// with the given fields replaced by the non-null parameter values.\n"@ + "  @JsonKey(includeFromJson: false, includeToJson: false)\n"@ + "  @override\n"@ + "  @pragma('vm:prefer-inline')\n"@ + "  _$$$"@ + n + "ImplImplCopyWith<_$$"@ + n + "ImplImpl> get copyWith =>\n"@ + "      __$$$"@ + n + "ImplImplCopyWithImpl<_$$"@ + n + "ImplImpl>(this, _$identity);\n"@ + "\n"@ + "  @override\n"@ + "  Map<String, dynamic> toJson() {\n"@ + "    return _$$"@ + n + "ImplImplToJson(\n"@ + "      this,\n"@ + "    );\n"@ + "  }\n"@ + "}\n\n"@ + "abstract class _$"@, n);
    reveal_strlit("Impl implements ");
    assert(lacks_char("Impl implements "@, '&'));
    lemma_append_amp_ok(s + "  );\n\n"@ + "  /// Create a copy of "@ + n + "\n"@ + "  /// with the given fields replaced by the non-null parameter values.\n"@ + "  @JsonKey(includeFromJson: false, includeToJson: false)\n"@ + "  @override\n"@ + "  @pragma('vm:prefer-inline')\n"@ + "  _$$$"@ + n + "ImplImplCopyWith<_$$"@ + n + "ImplImpl> get copyWith =>\n"@ + "      __$$$"@ + n + "ImplImplCopyWithImpl<_$$"@ + n + "ImplImpl>(this, _$identity);\n"@ + "\n"@ + "  @override\n"@ + "  Map<String, dynamic> toJson() {\n"@ + "    return _$$"@ + n + "ImplImplToJson(\n"@ + "      this,\n"@ + "    );\n"@ + "  }\n"@ + "}\n\n"@ + "abstract class _$"@ + n, "Impl implements "@);
    lemma_append_amp_ok(s + "  );\n\n"@ + "  /// Create a copy of "@ + n + "\n"@ + "  /// with the given fields replaced by the non-null parameter values.\n"@ + "  @JsonKey(includeFromJson: false, includeToJson: false)\n"@ + "  @override\n"@ + "  @pragma('vm:prefer-inline')\n"@ + "  _$$$"@ + n + "ImplImplCopyWith<_$$"@ + n + "ImplImpl> get copyWith =>\n"@ + "      __$$$"@ + n + "ImplImplCopyWithImpl<_$$"@ + n + "ImplImpl>(this, _$identity);\n"@ + "\n"@ + "  @override\n"@ + "  Map<String, dynamic> toJson() {\n"@ + "    return _$$"@ + n + "ImplImplToJson(\n"@ + "      this,\n"@ + "    );\n"@ + "  }\n"@ + "}\n\n"@ + "abstract class _$"@ + n + "Impl implements "@, n);
    reveal_strlit(" {\n");
    assert(lacks_char(" {\n"@, '&'));
    lemma_append_amp_ok(s + "  );\n\n"@ + "  /// Create a copy of "@ + n + "\n"@ + "  /// with the given fields replaced by the non-null parameter values.\n"@ + "  @JsonKey(includeFromJson: false, includeToJson: false)\n"@ + "  @override\n"@ + "  @pragma('vm:prefer-inline')\n"@ + "  _$$$"@ + n + "ImplImplCopyWith<_$$"@ + n + "ImplImpl> get copyWith =>\n"@ + "      __$$$"@ + n + "ImplImplCopyWithImpl<_$$"@ + n + "ImplImpl>(this, _$identity);\n"@ + "\n"@ + "  @override\n"@ + "  Map<String, dynamic> toJson() {\n"@ + "    return _$$"@ + n + "ImplImplToJson(\n"@ + "      this,\n"@ + "    );\n"@ + "  }\n"@ + "}\n\n"@ + "abstract class _$"@ + n + "Impl implements "@ + n, " {\n"@);
    reveal_strlit("  const factory _$");
    assert(lacks_char("  const factory _$"@, '&'));
    lemma_append_amp_ok(s + "  );\n\n"@ + "  /// Create a copy of "@ + n + "\n"@ + "  /// with the given fields replaced by the non-null parameter values.\n"@ + "  @JsonKey(includeFromJson: false, includeToJson: false)\n"@ + "  @override\n"@ + "  @pragma('vm:prefer-inline')\n"@ + "  _$$$"@ + n + "ImplImplCopyWith<_$$"@ + n + "ImplImpl> get copyWith =>\n"@ + "      __$$$"@ + n + "ImplImplCopyWithImpl<_$$"@ + n + "ImplImpl>(this, _$identity);\n"@ + "\n"@ + "  @override\n"@ + "  Map<String, dynamic> toJson() {\n"@ + "    return _$$"@ + n + "ImplImplToJson(\n"@ + "      this,\n"@ + "    );\n"@ + "  }\n"@ + "}\n\n"@ + "abstract class _$"@ + n + "Impl implements "@ + n + " {\n"@, "  const factory _$"@);
    lemma_append_amp_ok(s + "  );\n\n"@ + "  /// Create a copy of "@ + n + "\n"@ + "  /// with the given fields replaced by the non-null parameter values.\n"@ + "  @JsonKey(includeFromJson: false, includeToJson: false)\n"@ + "  @override\n"@ + "  @pragma('vm:prefer-inline')\n"@ + "  _$$$"@ + n + "ImplImplCopyWith<_$$"@ + n + "ImplImpl> get copyWith =>\n"@ + "      __$$$"@ + n + "ImplImplCopyWithImpl<_$$"@ + n + "ImplImpl>(this, _$identity);\n"@ + "\n"@ + "  @override\n"@ + "  Map<String, dynamic> toJson() {\n"@ + "    return _$$"@ + n + "ImplImplToJson(\n"@ + "      this,\n"@ + "    );\n"@ + "  }\n"@ + "}\n\n"@ + "abstract class _$"@ + n + "Impl implements "@ + n + " {\n"@ + "  const factory _$"@, n);
    reveal_strlit("Impl(\n");
    assert(lacks_char("Impl(\n"@, '&'));
    lemma_append_amp_ok(s + "  );\n\n"@ + "  /// Create a copy of "@ + n + "\n"@ + "  /// with the given fields replaced by the non-null parameter values.\n"@ + "  @JsonKey(includeFromJson: false, includeToJson: false)\n"@ + "  @override\n"@ + "  @pragma('vm:prefer-inline')\n"@ + "  _$$$"@ + n + "ImplImplCopyWith<_$$"@ + n + "ImplImpl> get copyWith =>\n"@ + "      __$$$"@ + n + "ImplImplCopyWithImpl<_$$"@ + n + "ImplImpl>(this, _$identity);\n"@ + "\n"@ + "  @override\n"@ + "  Map<String, dynamic> toJson() {\n"@ + "    return _$$"@ + n + "ImplImplToJson(\n"@ + "      this,\n"@ + "    );\n"@ + "  }\n"@ + "}\n\n"@ + "abstract class _$"@ + n + "Impl implements "@ + n + " {\n"@ + "  const factory _$"@ + n, "Impl(\n"@);
    reveal_strlit("    {\n");
    assert(lacks_char("    {\n"@, '&'));
    lemma_append_amp_ok(s + "  );\n\n"@ + "  /// Create a copy of "@ + n + "\n"@ + "  /// with the given fields replaced by the non-null parameter values.\n"@ + "  @JsonKey(includeFromJson: false, includeToJson: false)\n"@ + "  @override\n"@ + "  @pragma('vm:prefer-inline')\n"@ + "  _$$$"@ + n + "ImplImplCopyWith<_$$"@ + n + "ImplImpl> get copyWith =>\n"@ + "      __$$$"@ + n + "ImplImplCopyWithImpl<_$$"@ + n + "ImplImpl>(this, _$identity);\n"@ + "\n"@ + "  @override\n"@ + "  Map<String, dynamic> toJson() {\n"@ + "    return _$$"@ + n + "ImplImplToJson(\n"@ + "      this,\n"@ + "    );\n"@ + "  }\n"@ + "}\n\n"@ + "abstract class _$"@ + n + "Impl implements "@ + n + " {\n"@ + "  const factory _$"@ + n + "Impl(\n"@, "    {\n"@);
    lemma_fields_amp_ok(s + "  );\n\n"@ + "  /// Create a copy of "@ + n + "\n"@ + "  /// with the given fields replaced by the non-null parameter values.\n"@ + "  @JsonKey(includeFromJson: false, includeToJson: false)\n"@ + "  @override\n"@ + "  @pragma('vm:prefer-inline')\n"@ + "  _$$$"@ + n + "ImplImplCopyWith<_$$"@ + n + "ImplImpl> get copyWith =>\n"@ + "      __$$$"@ + n + "ImplImplCopyWithImpl<_$$"@ + n + "ImplImpl>(this, _$identity);\n"@ + "\n"@ + "  @override\n"@ + "  Map<String, dynamic> toJson() {\n"@ + "    return _$$"@ + n + "ImplImplToJson(\n"@ + "      this,\n"@ + "    );\n"@ + "  }\n"@ + "}\n\n"@ + "abstract class _$"@ + n + "Impl implements "@ + n + " {\n"@ + "  const factory _$"@ + n + "Impl(\n"@ + "    {\n"@, fs, FieldPiece::FactoryParam);}

/// One step of `lemma_regular_tail_amp_ok`: a part of the second part of a regular class keeps `amp_ok`.
proof fn lemma_regular_tail_step_7(s: Seq<char>, n: Seq<char>, fs: Seq<FieldModel>)
    requires
        amp_ok(s),
        lacks_char(n, '&'),
        forall|i: int| 0 <= i < fs.len() ==> field_lacks_amp(#[trigger] fs[i]),
    ensures
        amp_ok(fold_put(s + "    }\n  ) = _$$"@ + n + "ImplImpl;\n\n"@ + "  factory _$"@ + n + "Impl.fromJson(Map<String, dynamic> json) =\n"@ + "      _$$"@ + n + "ImplImpl.fromJson;\n\n"@, fs, field_piece_fn(FieldPiece::OverrideGetter))),
{
    reveal_strlit("    }\n  ) = _$$");
    assert(lacks_char("    }\n  ) = _$$"@, '&'));
    lemma_append_amp_ok(s, "    }\n  ) = _$$"@);
    lemma_append_amp_ok(s + "    }\n  ) = _$$"@, n);
    reveal_strlit("ImplImpl;\n\n");
    assert(lacks_char("ImplImpl;\n\n"@, '&'));
    lemma_append_amp_ok(s + "    }\n  ) = _$$"@ + n, "ImplImpl;\n\n"@);
    reveal_strlit("  factory _$");
    assert(lacks_char("  factory _$"@, '&'));
    lemma_append_amp_ok(s + "    }\n  ) = _$$"@ + n + "ImplImpl;\n\n"@, "  factory _$"@);
    lemma_append_amp_ok(s + "    }\n  ) = _$$"@ + n + "ImplImpl;\n\n"@ + "  factory _$"@, n);
    reveal_strlit("Impl.fromJson(Map<String, dynamic> json) =\n");
    assert(lacks_char("Impl.fromJson(Map<String, dynamic> json) =\n"@, '&'));
    lemma_append_amp_ok(s + "    }\n  ) = _$$"@ + n + "ImplImpl;\n\n"@ + "  factory _$"@ + n, "Impl.fromJson(Map<String, dynamic> json) =\n"@);
    reveal_strlit("      _$$");
    assert(lacks_char("      _$$"@, '&'));
    lemma_append_amp_ok(s + "    }\n  ) = _$$"@ + n + "ImplImpl;\n\n"@ + "  factory _$"@ + n + "Impl.fromJson(Map<String, dynamic> json) =\n"@, "      _$$"@);
    lemma_append_amp_ok(s + "    }\n  ) = _$$"@ + n + "ImplImpl;\n\n"@ + "  factory _$"@ + n + "Impl.fromJson(Map<String, dynamic> json) =\n"@ + "      _$$"@, n);
    reveal_strlit("ImplImpl.fromJson;\n\n");
    assert(lacks_char("ImplImpl.fromJson;\n\n"@, '&'));
    lemma_append_amp_ok(s + "    }\n  ) = _$$"@ + n + "ImplImpl;\n\n"@ + "  factory _$"@ + n + "Impl.fromJson(Map<String, dynamic> json) =\n"@ + "      _$$"@ + n, "ImplImpl.fromJson;\n\n"@);
    lemma_fields_amp_ok(s + "    }\n  ) = _$$"@ + n + "ImplImpl;\n\n"@ + "  factory _$"@ + n + "Impl.fromJson(Map<String, dynamic> json) =\n"@ + "      _$$"@ + n + "ImplImpl.fromJson;\n\n"@, fs, FieldPiece::OverrideGetter);}

/// One step of `lemma_regular_tail_amp_ok`: a part of the second part of a regular class keeps `amp_ok`.
proof fn lemma_regular_tail_step_8(s: Seq<char>, n: Seq<char>)
    requires
        amp_ok(s),
        lacks_char(n, '&'),
    ensures
        amp_ok(s + "\n"@ + "  /// Create a copy of "@ + n + "\n"@ + "  /// with the given fields replaced by the non-null parameter values.\n"@ + "  @override\n"@ + "  @JsonKey(includeFromJson: false, includeToJson: false)\n"@ + "  _$$$"@ + n + "ImplImplCopyWith<_$$"@ + n + "ImplImpl> get copyWith =>\n"@ + "      throw _privateConstructorUsedError;\n"@ + "}\n\n"@),
{
    reveal_strlit("\n");
    assert(lacks_char("\n"@, '&'));
    lemma_append_amp_ok(s, "\n"@);
    reveal_strlit("  /// Create a copy of ");
    assert(lacks_char("  /// Create a copy of "@, '&'));
    lemma_append_amp_ok(s + "\n"@, "  /// Create a copy of "@);
    lemma_append_amp_ok(s + "\n"@ + "  /// Create a copy of "@, n);
    reveal_strlit("\n");
    assert(lacks_char("\n"@, '&'));
    lemma_append_amp_ok(s + "\n"@ + "  /// Create a copy of "@ + n, "\n"@);
    reveal_strlit("  /// with the given fields replaced by the non-null parameter values.\n");
    assert(lacks_char("  /// with the given fields replaced by the non-null parameter values.\n"@, '&'));
    lemma_append_amp_ok(s + "\n"@ + "  /// Create a copy of "@ + n + "\n"@, "  /// with the given fields replaced by the non-null parameter values.\n"@);
    reveal_strlit("  @override\n");
    assert(lacks_char("  @override\n"@, '&'));
    lemma_append_amp_ok(s + "\n"@ + "  /// Create a copy of "@ + n + "\n"@ + "  /// with the given fields replaced by the non-null parameter values.\n"@, "  @override\n"@);
    reveal_strlit("  @JsonKey(includeFromJson: false, includeToJson: false)\n");
    assert(lacks_char("  @JsonKey(includeFromJson: false, includeToJson: false)\n"@, '&'));
    lemma_append_amp_ok(s + "\n"@ + "  /// Create a copy of "@ + n + "\n"@ + "  /// with the given fields replaced by the non-null parameter values.\n"@ + "  @override\n"@, "  @JsonKey(includeFromJson: false, includeToJson: false)\n"@);
    reveal_strlit("  _$$$");
    assert(lacks_char("  _$$$"@, '&'));
    lemma_append_amp_ok(s + "\n"@ + "  /// Create a copy of "@ + n + "\n"@ + "  /// with the given fields replaced by the non-null parameter values.\n"@ + "  @override\n"@ + "  @JsonKey(includeFromJson: false, includeToJson: false)\n"@, "  _$$$"@);
    lemma_append_amp_ok(s + "\n"@ + "  /// Create a copy of "@ + n + "\n"@ + "  /// with the given fields replaced by the non-null parameter values.\n"@ + "  @override\n"@ + "  @JsonKey(includeFromJson: false, includeToJson: false)\n"@ + "  _$$$"@, n);
    reveal_strlit("ImplImplCopyWith<_$$");
    assert(lacks_char("ImplImplCopyWith<_$$"@, '&'));
    lemma_append_amp_ok(s + "\n"@ + "  /// Create a copy of "@ + n + "\n"@ + "  /// with the given fields replaced by the non-null parameter values.\n"@ + "  @override\n"@ + "  @JsonKey(includeFromJson: false, includeToJson: false)\n"@ + "  _$$$"@ + n, "ImplImplCopyWith<_$$"@);
    lemma_append_amp_ok(s + "\n"@ + "  /// Create a copy of "@ + n + "\n"@ + "  /// with the given fields replaced by the non-null parameter values.\n"@ + "  @override\n"@ + "  @JsonKey(includeFromJson: false, includeToJson: false)\n"@ + "  _$$$"@ + n + "ImplImplCopyWith<_$$"@, n);
    reveal_strlit("ImplImpl> get copyWith =>\n");
    assert(lacks_char("ImplImpl> get copyWith =>\n"@, '&'));
    lemma_append_amp_ok(s + "\n"@ + "  /// Create a copy of "@ + n + "\n"@ + "  /// with the given fields replaced by the non-null parameter values.\n"@ + "  @override\n"@ + "  @JsonKey(includeFromJson: false, includeToJson: false)\n"@ + "  _$$$"@ + n + "ImplImplCopyWith<_$$"@ + n, "ImplImpl> get copyWith =>\n"@);
    reveal_strlit("      throw _privateConstructorUsedError;\n");
    assert(lacks_char("      throw _privateConstructorUsedError;\n"@, '&'));
    lemma_append_amp_ok(s + "\n"@ + "  /// Create a copy of "@ + n + "\n"@ + "  /// with the given fields replaced by the non-null parameter values.\n"@ + "  @override\n"@ + "  @JsonKey(includeFromJson: false, includeToJson: false)\n"@ + "  _$$$"@ + n + "ImplImplCopyWith<_$$"@ + n + "ImplImpl> get copyWith =>\n"@, "      throw _privateConstructorUsedError;\n"@);
    reveal_strlit("}\n\n");
    assert(lacks_char("}\n\n"@, '&'));
    lemma_append_amp_ok(s + "\n"@ + "  /// Create a copy of "@ + n + "\n"@ + "  /// with the given fields replaced by the non-null parameter values.\n"@ + "  @override\n"@ + "  @JsonKey(includeFromJson: false, includeToJson: false)\n"@ + "  _$$$"@ + n + "ImplImplCopyWith<_$$"@ + n + "ImplImpl> get copyWith =>\n"@ + "      throw _privateConstructorUsedError;\n"@, "}\n\n"@);
}

/// The second part of the code of a regular class keeps `amp_ok`.
#[verifier::spinoff_prover]
proof fn lemma_regular_tail_amp_ok(o: Seq<char>, n: Seq<char>, fs: Seq<FieldModel>)
    requires
        amp_ok(o),
        lacks_char(n, '&'),
        forall|i: int| 0 <= i < fs.len() ==> field_lacks_amp(#[trigger] fs[i]),
    ensures
        amp_ok(put_regular_tail(o, n, fs)),
{
    lemma_regular_tail_step_1(o, n, fs);
    let o1 = fold_put(o + "/// @nodoc\n"@ + "@JsonSerializable()\n"@ + "class _$$"@ + n + "ImplImpl implements _$"@ + n + "Impl {\n"@ + "  const _$$"@ + n + "ImplImpl(\n"@ + "      {"@, fs, field_piece_fn(FieldPiece::CtorParam));
    lemma_regular_tail_step_2(o1, n, fs);
    let o2 = fold_put(o1 + "});\n\n"@ + "  factory _$$"@ + n + "ImplImpl.fromJson(Map<String, dynamic> json) =>\n"@ + "      _$$"@ + n + "ImplImplFromJson(json);\n\n"@, fs, field_piece_fn(FieldPiece::FinalField));
    lemma_regular_tail_step_3(o2, n, fs);
    let o3 = put_joined(o2 + "\n"@ + "  @override\n"@ + "  String toString() {\n"@ + "    return '"@ + n + "("@, fs, FieldPiece::ToStringFirst, FieldPiece::ToStringNext);
    lemma_regular_tail_step_4(o3, n, fs);
    let o4 = fold_put(o3 + ")';\n"@ + "  }\n\n"@ + "  @override\n"@ + "  bool operator ==(Object other) {\n"@ + "    return identical(this, other) ||\n"@ + "        (other.runtimeType == runtimeType &&\n"@ + "            other is _$$"@ + n + "ImplImpl &&\n"@, fs, field_piece_fn(FieldPiece::EqLine));
    lemma_strip_amp_line(o4);
    let o5 = if ends_with(o4, " &&\n"@) { o4.take(o4.len() - 4) } else { o4 };
    lemma_regular_tail_step_5(o5, n, fs);
    let o6 = fold_put(o5 + ");\n"@ + "  }\n\n"@ + "  @JsonKey(includeFromJson: false, includeToJson: false)\n"@ + "  @override\n"@ + "  int get hashCode => Object.hash(\n"@ + "      runtimeType,\n"@, fs, field_piece_fn(FieldPiece::HashLine));
    lemma_regular_tail_step_6(o6, n, fs);
    let o7 = fold_put(o6 + "  );\n\n"@ + "  /// Create a copy of "@ + n + "\n"@ + "  /// with the given fields replaced by the non-null parameter values.\n"@ + "  @JsonKey(includeFromJson: false, includeToJson: false)\n"@ + "  @override\n"@ + "  @pragma('vm:prefer-inline')\n"@ + "  _$$$"@ + n + "ImplImplCopyWith<_$$"@ + n + "ImplImpl> get copyWith =>\n"@ + "      __$$$"@ + n + "ImplImplCopyWithImpl<_$$"@ + n + "ImplImpl>(this, _$identity);\n"@ + "\n"@ + "  @override\n"@ + "  Map<String, dynamic> toJson() {\n"@ + "    return _$$"@ + n + "ImplImplToJson(\n"@ + "      this,\n"@ + "    );\n"@ + "  }\n"@ + "}\n\n"@ + "abstract class _$"@ + n + "Impl implements "@ + n + " {\n"@ + "  const factory _$"@ + n + "Impl(\n"@ + "    {\n"@, fs, field_piece_fn(FieldPiece::FactoryParam));
    lemma_regular_tail_step_7(o7, n, fs);
    let o8 = fold_put(o7 + "    }\n  ) = _$$"@ + n + "ImplImpl;\n\n"@ + "  factory _$"@ + n + "Impl.fromJson(Map<String, dynamic> json) =\n"@ + "      _$$"@ + n + "ImplImpl.fromJson;\n\n"@, fs, field_piece_fn(FieldPiece::OverrideGetter));
    lemma_regular_tail_step_8(o8, n);
    assert(put_regular_tail(o, n, fs) == o8 + "\n"@ + "  /// Create a copy of "@ + n + "\n"@ + "  /// with the given fields replaced by the non-null parameter values.\n"@ + "  @override\n"@ + "  @JsonKey(includeFromJson: false, includeToJson: false)\n"@ + "  _$$$"@ + n + "ImplImplCopyWith<_$$"@ + n + "ImplImpl> get copyWith =>\n"@ + "      throw _privateConstructorUsedError;\n"@ + "}\n\n"@);
}

/// The `operator ==` of a regular class never ends in a dangling `&&`: its code
/// holds no `&&` followed by a line break and `);`, when the class name and the
/// names, types and default values of its fields hold no `&`.
pub proof fn lemma_regular_class_no_dangling_and(n: Seq<char>, fs: Seq<FieldModel>)
    requires
        lacks_char(n, '&'),
        forall|i: int| 0 <= i < fs.len() ==> field_lacks_amp(#[trigger] fs[i]),
    ensures
        !contains(regular_class_text(n, fs), "&&\n);"@),
{
    let e = Seq::<char>::empty();
    assert(amp_ok(e));
    lemma_regular_head_amp_ok(e, n, fs);
    lemma_regular_tail_amp_ok(put_regular_head(e, n, fs), n, fs);
    let t = regular_class_text(n, fs);
    reveal_strlit("&&\n);");
    if contains(t, "&&\n);"@) {
        let k = choose|k: int| is_match_at(t, "&&\n);"@, k);
        assert(t.subrange(k, k + 5)[1] == t[k + 1]);
        assert(t.subrange(k, k + 5)[2] == t[k + 2]);
        assert(t.subrange(k, k + 5)[3] == t[k + 3]);
        assert(amp_break_at(t, k + 1));
    }
}

/// The code of a regular class ends with a line break.
pub proof fn lemma_regular_class_ends_line(n: Seq<char>, fs: Seq<FieldModel>)
    ensures
        ends_line(regular_class_text(n, fs)),
{
    reveal_strlit("}\n\n");
}

/// The code of a union class ends with a line break.
pub proof fn lemma_union_class_ends_line(n: Seq<char>, cs: Seq<CaseModel>)
    ensures
        ends_line(union_class_text(n, cs)),
{
    reveal_strlit("  );\n}\n\n");
    let f = case_class_fn(n, cs);
    assert forall|o: Seq<char>, c: CaseModel| #[trigger] ends_line(f(o, c)) by {
        reveal_strlit("  }\n}\n\n");
    }
    lemma_fold_put_ends_line(put_union_head(Seq::empty(), n, cs), cs, f);
}

/// Writes the code of the regular class `n` with the fields `fields`.
pub fn regular_class_code(n: &str, fields: &[DartField]) -> (r: String)
    ensures
        r@ == regular_class_text(n@, fields_view(fields@)),
{
    let mut code = String::new();
    emit_regular_head(&mut code, n, fields);
    emit_regular_tail(&mut code, n, fields);
    code
}



// ---------------------------------------------------------------------------
// Laws of the class text
// ---------------------------------------------------------------------------

/// Writing a piece of a field only appends to the text.
proof fn lemma_field_piece_extends(k: FieldPiece)
    ensures
        extends(field_piece_fn(k)),
{
    reveal(keeps);
    assert forall|o: Seq<char>, f: FieldModel| #[trigger] keeps(o, field_piece_fn(k)(o, f)) by {
        assert(field_piece_fn(k)(o, f) == put_field_piece(o, f, k));
    }
}

/// What each piece of a field writes, by what the field is: a nullable field
/// (its type ends with `?`) is an optional constructor parameter, its `copyWith`
/// parameter defaults to `freezed` and the copy tests it against `freezed`; a
/// field without a default that is not nullable is a `required` parameter; an
/// empty-list default of a list type is written `const []`; `operator ==`
/// compares the field of `other` with the field itself, and `hashCode` hashes
/// the field (by deep collection equality for `tags` and `attendees`); the class
/// declares the field `final` with its type.
pub proof fn lemma_field_piece_meaning(o: Seq<char>, f: FieldModel)
    ensures
        ends_with(f.ty, "?"@) ==> put_field_piece(o, f, FieldPiece::CtorParam) == o + "this."@ + f.name + ","@,
        !ends_with(f.ty, "?"@) && !f.has_default ==> put_field_piece(o, f, FieldPiece::CtorParam) == o
            + "required this."@ + f.name + ","@,
        !ends_with(f.ty, "?"@) && f.has_default && f.default_value == Some("[]"@) && contains(f.ty, "List<"@)
            ==> put_field_piece(o, f, FieldPiece::CtorParam) == o + "this."@ + f.name + " = const []"@ + ","@,
        !ends_with(f.ty, "?"@) && f.has_default && f.default_value is Some && !(f.default_value->0 == "[]"@
            && contains(f.ty, "List<"@)) ==> put_field_piece(o, f, FieldPiece::CtorParam) == o + "this."@ + f.name
            + " = "@ + f.default_value->0 + ","@,
        ends_with(f.ty, "?"@) || f.has_default ==> put_field_piece(o, f, FieldPiece::FactoryParam) == o
            + "      final "@ + f.ty + " "@ + f.name + ",\n"@,
        !ends_with(f.ty, "?"@) && !f.has_default ==> put_field_piece(o, f, FieldPiece::FactoryParam) == o
            + "      required final "@ + f.ty + " "@ + f.name + ",\n"@,
        ends_with(f.ty, "?"@) ==> put_field_piece(o, f, FieldPiece::ObjectParam) == o + "\n    Object? "@ + f.name
            + " = freezed,"@,
        !ends_with(f.ty, "?"@) ==> put_field_piece(o, f, FieldPiece::ObjectParam) == o + "\n    Object? "@ + f.name
            + " = null,"@,
        ends_with(f.ty, "?"@) ==> put_field_piece(o, f, FieldPiece::CopyAssign) == o + "      "@ + f.name
            + ": freezed == "@ + f.name + "\n          ? _value."@ + f.name + "\n          : "@ + f.name
            + " // ignore: cast_nullable_to_non_nullable\n              as "@ + f.ty + ",\n"@,
        !ends_with(f.ty, "?"@) ==> put_field_piece(o, f, FieldPiece::CopyAssign) == o + "      "@ + f.name
            + ": null == "@ + f.name + "\n          ? _value."@ + f.name + "\n          : "@ + f.name
            + " // ignore: cast_nullable_to_non_nullable\n              as "@ + f.ty + ",\n"@,
        f.name != "tags"@ && f.name != "attendees"@ ==> put_field_piece(o, f, FieldPiece::EqLine) == o
            + "            (identical(other."@ + f.name + ", "@ + f.name + ") || other."@ + f.name + " == "@ + f.name
            + ") &&\n"@,
        f.name == "tags"@ ==> put_field_piece(o, f, FieldPiece::EqLine) == o
            + "            const DeepCollectionEquality().equals(other.tags, tags) &&\n"@,
        f.name == "attendees"@ ==> put_field_piece(o, f, FieldPiece::EqLine) == o
            + "            const DeepCollectionEquality()\n                .equals(other.attendees, attendees) &&\n"@,
        f.name != "tags"@ && f.name != "attendees"@ ==> put_field_piece(o, f, FieldPiece::HashLine) == o + "      "@
            + f.name + ",\n"@,
        f.name == "tags"@ ==> put_field_piece(o, f, FieldPiece::HashLine) == o
            + "      const DeepCollectionEquality().hash(tags),\n"@,
        f.name == "attendees"@ ==> put_field_piece(o, f, FieldPiece::HashLine) == o
            + "      const DeepCollectionEquality().hash(attendees),\n"@,
        put_field_piece(o, f, FieldPiece::FinalField) == o + "  @override\n  final "@ + f.ty + " "@ + f.name + ";\n"@,
        put_field_piece(o, f, FieldPiece::OverrideGetter) == o + "  @override\n  "@ + f.ty + " get "@ + f.name
            + ";\n"@,
        put_field_piece(o, f, FieldPiece::GetterLine) == o + "  "@ + f.ty + " get "@ + f.name
            + " => throw _privateConstructorUsedError;\n"@,
{
    reveal_strlit("tags");
    reveal_strlit("attendees");
    reveal_strlit("[]");
    reveal_strlit(" = const ");
    reveal_strlit(" = const []");
    reveal_strlit("\n    Object? ");
    reveal_strlit(" = ");
    reveal_strlit("freezed");
    reveal_strlit("null");
    reveal_strlit(",");
    reveal_strlit(" = freezed,");
    reveal_strlit(" = null,");
    reveal_strlit("      ");
    reveal_strlit(": freezed == ");
    reveal_strlit(": null == ");
    reveal_strlit("\n");
    reveal_strlit("          ? _value.");
    reveal_strlit("          : ");
    reveal_strlit(" // ignore: cast_nullable_to_non_nullable\n");
    reveal_strlit("              as ");
    reveal_strlit(",\n");
    reveal_strlit("\n          ? _value.");
    reveal_strlit("\n          : ");
    reveal_strlit(" // ignore: cast_nullable_to_non_nullable\n              as ");
    reveal_strlit("  @override\n");
    reveal_strlit("  final ");
    reveal_strlit(" ");
    reveal_strlit(";\n");
    reveal_strlit("  @override\n  final ");
    reveal_strlit("  ");
    reveal_strlit("  @override\n  ");
    reveal_strlit(" get ");
    assert("tags"@.len() != "attendees"@.len());
    if ends_with(f.ty, "?"@) {
        assert(put_field_piece(o, f, FieldPiece::ObjectParam) =~= o + "\n    Object? "@ + f.name + " = freezed,"@);
        assert(put_field_piece(o, f, FieldPiece::CopyAssign) =~= o + "      "@ + f.name + ": freezed == "@ + f.name
            + "\n          ? _value."@ + f.name + "\n          : "@ + f.name
            + " // ignore: cast_nullable_to_non_nullable\n              as "@ + f.ty + ",\n"@);
    } else {
        assert(put_field_piece(o, f, FieldPiece::ObjectParam) =~= o + "\n    Object? "@ + f.name + " = null,"@);
        assert(put_field_piece(o, f, FieldPiece::CopyAssign) =~= o + "      "@ + f.name + ": null == "@ + f.name
            + "\n          ? _value."@ + f.name + "\n          : "@ + f.name
            + " // ignore: cast_nullable_to_non_nullable\n              as "@ + f.ty + ",\n"@);
    }
    assert(put_field_piece(o, f, FieldPiece::FinalField) =~= o + "  @override\n  final "@ + f.ty + " "@ + f.name + ";\n"@);
    assert(put_field_piece(o, f, FieldPiece::OverrideGetter) =~= o + "  @override\n  "@ + f.ty + " get "@ + f.name + ";\n"@);
    if !ends_with(f.ty, "?"@) && f.has_default && f.default_value == Some("[]"@) && contains(f.ty, "List<"@) {
        assert(put_field_piece(o, f, FieldPiece::CtorParam) =~= o + "this."@ + f.name + " = const []"@ + ","@);
    }
}

/// In `toString`, every field is written as its name, `: $` and its name again,
/// so that Dart interpolates its value: the first field alone, each later one
/// after `, `.
pub proof fn lemma_to_string_pieces(o: Seq<char>, f: FieldModel)
    ensures
        put_field_piece(o, f, FieldPiece::ToStringFirst) == o + f.name + ": $"@ + f.name,
        put_field_piece(o, f, FieldPiece::ToStringNext) == o + ", "@ + f.name + ": $"@ + f.name,
{
}

/// The `toString` fields of a class interpolate the value of every field: for
/// each field, the text holds its name, `: $` and its name again.
pub proof fn lemma_to_string_interpolates_every_field(o: Seq<char>, fs: Seq<FieldModel>, i: int)
    requires
        0 <= i < fs.len(),
    ensures
        contains(
            put_joined(o, fs, FieldPiece::ToStringFirst, FieldPiece::ToStringNext),
            fs[i].name + ": $"@ + fs[i].name,
        ),
{
    let p = fs[i].name + ": $"@ + fs[i].name;
    lemma_field_piece_extends(FieldPiece::ToStringNext);
    let o1 = put_field_piece(o, fs[0], FieldPiece::ToStringFirst);
    let rest = fs.skip(1);
    if i == 0 {
        assert(o1 =~= o + p);
        assert(o1.subrange(o.len() as int, o.len() + p.len() as int) =~= p);
        assert(is_match_at(o1, p, o.len() as int));
        lemma_fold_put_keeps(o1, rest, field_piece_fn(FieldPiece::ToStringNext));
        lemma_contains_keeps(o1, fold_put(o1, rest, field_piece_fn(FieldPiece::ToStringNext)), p);
    } else {
        assert(rest[i - 1] == fs[i]);
        assert forall|q: Seq<char>| #[trigger] contains(field_piece_fn(FieldPiece::ToStringNext)(q, rest[i - 1]), p) by {
            let w = field_piece_fn(FieldPiece::ToStringNext)(q, rest[i - 1]);
            assert(w =~= q + ", "@ + p);
            reveal_strlit(", ");
            assert(w.subrange(q.len() + 2 as int, q.len() + 2 + p.len() as int) =~= p);
            assert(is_match_at(w, p, q.len() + 2 as int));
        }
        lemma_fold_put_contains(o1, rest, field_piece_fn(FieldPiece::ToStringNext), i - 1, p);
    }
}

/// Writing fields joined only appends to the text.
proof fn lemma_joined_keeps(o: Seq<char>, fs: Seq<FieldModel>, first: FieldPiece, next: FieldPiece)
    ensures
        keeps(o, put_joined(o, fs, first, next)),
{
    if fs.len() > 0 {
        lemma_field_piece_extends(first);
        lemma_field_piece_extends(next);
        let o1 = put_field_piece(o, fs[0], first);
        assert(keeps(o, field_piece_fn(first)(o, fs[0])));
        lemma_fold_put_keeps(o1, fs.skip(1), field_piece_fn(next));
        lemma_keeps_trans(o, o1, put_joined(o, fs, first, next));
    } else {
        lemma_keeps_refl(o);
    }
}

/// Writing a piece of a union case only appends to the text.
proof fn lemma_case_piece_extends(n: Seq<char>, cur: Seq<char>, k: CasePiece)
    ensures
        extends(case_piece_fn(n, cur, k)),
{
    assert forall|o: Seq<char>, c: CaseModel| #[trigger] keeps(o, case_piece_fn(n, cur, k)(o, c)) by {
        assert(case_piece_fn(n, cur, k)(o, c) == put_case_piece(o, c, n, cur, k));
        lemma_field_piece_extends(FieldPiece::JsonEntry);
        match k {
            CasePiece::WhenLine => {
                let a = o + "    required TResult Function("@;
                lemma_keeps_add(o, "    required TResult Function("@);
                lemma_joined_keeps(a, c.fields, FieldPiece::TypedFirst, FieldPiece::TypedNext);
                lemma_keeps_trans(o, a, put_joined(a, c.fields, FieldPiece::TypedFirst, FieldPiece::TypedNext));
                reveal(keeps);
            },
            CasePiece::WhenOrNullLine => {
                let a = o + "    TResult? Function("@;
                lemma_keeps_add(o, "    TResult? Function("@);
                lemma_joined_keeps(a, c.fields, FieldPiece::TypedFirst, FieldPiece::TypedNext);
                lemma_keeps_trans(o, a, put_joined(a, c.fields, FieldPiece::TypedFirst, FieldPiece::TypedNext));
                reveal(keeps);
            },
            CasePiece::MaybeWhenLine => {
                let a = o + "    TResult Function("@;
                lemma_keeps_add(o, "    TResult Function("@);
                lemma_joined_keeps(a, c.fields, FieldPiece::TypedFirst, FieldPiece::TypedNext);
                lemma_keeps_trans(o, a, put_joined(a, c.fields, FieldPiece::TypedFirst, FieldPiece::TypedNext));
                reveal(keeps);
            },
            CasePiece::ExtensionEntry => {
                let a = o + "    "@ + c.case_name + ": ("@;
                reveal(keeps);
                assert(keeps(o, a));
                lemma_joined_keeps(a, c.fields, FieldPiece::NameFirst, FieldPiece::NameNext);
                let o1 = put_joined(a, c.fields, FieldPiece::NameFirst, FieldPiece::NameNext);
                let b = o1 + ") => <String, dynamic>{\n      'type': '"@ + c.case_name + "',\n"@;
                assert(keeps(o1, b));
                lemma_fold_put_keeps(b, c.fields, field_piece_fn(FieldPiece::JsonEntry));
                let o2 = fold_put(b, c.fields, field_piece_fn(FieldPiece::JsonEntry));
                lemma_keeps_trans(o, a, o1);
                lemma_keeps_trans(o, o1, b);
                lemma_keeps_trans(o, b, o2);
                assert(keeps(o2, o2 + "    },\n"@));
                lemma_keeps_trans(o, o2, o2 + "    },\n"@);
            },
            _ => {
                reveal(keeps);
            },
        }
    }
}

/// Writing the classes of one union case only appends to the text.
#[verifier::rlimit(100)]
proof fn lemma_case_class_keeps(o: Seq<char>, n: Seq<char>, c: CaseModel, cs: Seq<CaseModel>)
    ensures
        keeps(o, put_case_class(o, n, c, cs)),
{
    lemma_field_piece_extends(FieldPiece::GetterLine);
    lemma_field_piece_extends(FieldPiece::CallParam);
    lemma_field_piece_extends(FieldPiece::ObjectParam);
    lemma_field_piece_extends(FieldPiece::CopyAssign);
    lemma_field_piece_extends(FieldPiece::CtorParam);
    lemma_field_piece_extends(FieldPiece::FinalField);
    lemma_field_piece_extends(FieldPiece::ToStringFirst);
    lemma_field_piece_extends(FieldPiece::ToStringNext);
    lemma_field_piece_extends(FieldPiece::EqLine);
    lemma_field_piece_extends(FieldPiece::HashLine);
    lemma_field_piece_extends(FieldPiece::FactoryParam);
    lemma_field_piece_extends(FieldPiece::OverrideGetter);
    lemma_field_piece_extends(FieldPiece::TypedFirst);
    lemma_field_piece_extends(FieldPiece::TypedNext);
    lemma_field_piece_extends(FieldPiece::NameFirst);
    lemma_field_piece_extends(FieldPiece::NameNext);
    lemma_field_piece_extends(FieldPiece::JsonEntry);
    lemma_field_piece_extends(FieldPiece::ThisParam);
    lemma_field_piece_extends(FieldPiece::RequiredTypedParam);
    lemma_field_piece_extends(FieldPiece::AbstractGetter);
    lemma_field_piece_extends(FieldPiece::FreezedParam);
    lemma_field_piece_extends(FieldPiece::CaseCopyAssign);
    lemma_case_piece_extends(n, c.case_name, CasePiece::WhenLine);
    lemma_case_piece_extends(n, c.case_name, CasePiece::WhenOrNullLine);
    lemma_case_piece_extends(n, c.case_name, CasePiece::MaybeWhenLine);
    lemma_case_piece_extends(n, c.case_name, CasePiece::MapLine);
    lemma_case_piece_extends(n, c.case_name, CasePiece::MapOrNullLine);
    lemma_case_piece_extends(n, c.case_name, CasePiece::MaybeMapLine);
    lemma_case_piece_extends(n, c.case_name, CasePiece::MapImplLine);
    lemma_case_piece_extends(n, c.case_name, CasePiece::MapOrNullImplLine);
    lemma_case_piece_extends(n, c.case_name, CasePiece::MaybeMapImplLine);
    lemma_case_piece_extends(n, c.case_name, CasePiece::ExtensionEntry);
    lemma_keeps_refl(o);
    let o1 = o;
    assert(keeps(o, o1));
    lemma_keeps_add(o1, "abstract class "@);
    lemma_keeps_trans(o, o1, o1 + "abstract class "@);
    lemma_keeps_add(o1 + "abstract class "@, case_class_name(n, c.case_name));
    lemma_keeps_trans(o, o1 + "abstract class "@, o1 + "abstract class "@ + case_class_name(n, c.case_name));
    lemma_keeps_add(o1 + "abstract class "@ + case_class_name(n, c.case_name), " implements "@);
    lemma_keeps_trans(o, o1 + "abstract class "@ + case_class_name(n, c.case_name), o1 + "abstract class "@ + case_class_name(n, c.case_name) + " implements "@);
    lemma_keeps_add(o1 + "abstract class "@ + case_class_name(n, c.case_name) + " implements "@, n);
    lemma_keeps_trans(o, o1 + "abstract class "@ + case_class_name(n, c.case_name) + " implements "@, o1 + "abstract class "@ + case_class_name(n, c.case_name) + " implements "@ + n);
    lemma_keeps_add(o1 + "abstract class "@ + case_class_name(n, c.case_name) + " implements "@ + n, " {\n"@);
    lemma_keeps_trans(o, o1 + "abstract class "@ + case_class_name(n, c.case_name) + " implements "@ + n, o1 + "abstract class "@ + case_class_name(n, c.case_name) + " implements "@ + n + " {\n"@);
    let o2 = o1 + "abstract class "@ + case_class_name(n, c.case_name) + " implements "@ + n + " {\n"@;
    assert(keeps(o, o2));
    if c.fields.len() == 0 {
        lemma_keeps_add(o2, "  const factory "@);
        lemma_keeps_trans(o, o2, o2 + "  const factory "@);
        lemma_keeps_add(o2 + "  const factory "@, case_class_name(n, c.case_name));
        lemma_keeps_trans(o, o2 + "  const factory "@, o2 + "  const factory "@ + case_class_name(n, c.case_name));
        lemma_keeps_add(o2 + "  const factory "@ + case_class_name(n, c.case_name), "() = "@);
        lemma_keeps_trans(o, o2 + "  const factory "@ + case_class_name(n, c.case_name), o2 + "  const factory "@ + case_class_name(n, c.case_name) + "() = "@);
        lemma_keeps_add(o2 + "  const factory "@ + case_class_name(n, c.case_name) + "() = "@, impl_class_name(n, c.case_name));
        lemma_keeps_trans(o, o2 + "  const factory "@ + case_class_name(n, c.case_name) + "() = "@, o2 + "  const factory "@ + case_class_name(n, c.case_name) + "() = "@ + impl_class_name(n, c.case_name));
        lemma_keeps_add(o2 + "  const factory "@ + case_class_name(n, c.case_name) + "() = "@ + impl_class_name(n, c.case_name), ";\n\n"@);
        lemma_keeps_trans(o, o2 + "  const factory "@ + case_class_name(n, c.case_name) + "() = "@ + impl_class_name(n, c.case_name), o2 + "  const factory "@ + case_class_name(n, c.case_name) + "() = "@ + impl_class_name(n, c.case_name) + ";\n\n"@);
    } else {
        let o3 = o2;
        assert(keeps(o, o3));
        if any_named(c.fields) {
            lemma_keeps_add(o3, "  const factory "@);
            lemma_keeps_trans(o, o3, o3 + "  const factory "@);
            lemma_keeps_add(o3 + "  const factory "@, case_class_name(n, c.case_name));
            lemma_keeps_trans(o, o3 + "  const factory "@, o3 + "  const factory "@ + case_class_name(n, c.case_name));
            lemma_keeps_add(o3 + "  const factory "@ + case_class_name(n, c.case_name), "({\n"@);
            lemma_keeps_trans(o, o3 + "  const factory "@ + case_class_name(n, c.case_name), o3 + "  const factory "@ + case_class_name(n, c.case_name) + "({\n"@);
            lemma_fold_put_keeps(o3 + "  const factory "@ + case_class_name(n, c.case_name) + "({\n"@, c.fields, field_piece_fn(FieldPiece::ThisParam));
            lemma_keeps_trans(o, o3 + "  const factory "@ + case_class_name(n, c.case_name) + "({\n"@, fold_put(o3 + "  const factory "@ + case_class_name(n, c.case_name) + "({\n"@, c.fields, field_piece_fn(FieldPiece::ThisParam)));
            let o4 = fold_put(o3 + "  const factory "@ + case_class_name(n, c.case_name) + "({\n"@, c.fields, field_piece_fn(FieldPiece::ThisParam));
            assert(keeps(o, o4));
            lemma_keeps_add(o4, "  }) = "@);
            lemma_keeps_trans(o, o4, o4 + "  }) = "@);
            lemma_keeps_add(o4 + "  }) = "@, impl_class_name(n, c.case_name));
            lemma_keeps_trans(o, o4 + "  }) = "@, o4 + "  }) = "@ + impl_class_name(n, c.case_name));
            lemma_keeps_add(o4 + "  }) = "@ + impl_class_name(n, c.case_name), ";\n\n"@);
            lemma_keeps_trans(o, o4 + "  }) = "@ + impl_class_name(n, c.case_name), o4 + "  }) = "@ + impl_class_name(n, c.case_name) + ";\n\n"@);
        } else {
            lemma_keeps_add(o3, "  const factory "@);
            lemma_keeps_trans(o, o3, o3 + "  const factory "@);
            lemma_keeps_add(o3 + "  const factory "@, case_class_name(n, c.case_name));
            lemma_keeps_trans(o, o3 + "  const factory "@, o3 + "  const factory "@ + case_class_name(n, c.case_name));
            lemma_keeps_add(o3 + "  const factory "@ + case_class_name(n, c.case_name), "({\n"@);
            lemma_keeps_trans(o, o3 + "  const factory "@ + case_class_name(n, c.case_name), o3 + "  const factory "@ + case_class_name(n, c.case_name) + "({\n"@);
            lemma_fold_put_keeps(o3 + "  const factory "@ + case_class_name(n, c.case_name) + "({\n"@, c.fields, field_piece_fn(FieldPiece::RequiredTypedParam));
            lemma_keeps_trans(o, o3 + "  const factory "@ + case_class_name(n, c.case_name) + "({\n"@, fold_put(o3 + "  const factory "@ + case_class_name(n, c.case_name) + "({\n"@, c.fields, field_piece_fn(FieldPiece::RequiredTypedParam)));
            let o5 = fold_put(o3 + "  const factory "@ + case_class_name(n, c.case_name) + "({\n"@, c.fields, field_piece_fn(FieldPiece::RequiredTypedParam));
            assert(keeps(o, o5));
            lemma_keeps_add(o5, "  }) = "@);
            lemma_keeps_trans(o, o5, o5 + "  }) = "@);
            lemma_keeps_add(o5 + "  }) = "@, impl_class_name(n, c.case_name));
            lemma_keeps_trans(o, o5 + "  }) = "@, o5 + "  }) = "@ + impl_class_name(n, c.case_name));
            lemma_keeps_add(o5 + "  }) = "@ + impl_class_name(n, c.case_name), ";\n\n"@);
            lemma_keeps_trans(o, o5 + "  }) = "@ + impl_class_name(n, c.case_name), o5 + "  }) = "@ + impl_class_name(n, c.case_name) + ";\n\n"@);
        }
        let o6 = if any_named(c.fields) { let o4 = fold_put(o3 + "  const factory "@ + case_class_name(n, c.case_name) + "({\n"@, c.fields, field_piece_fn(FieldPiece::ThisParam)); o4 + "  }) = "@ + impl_class_name(n, c.case_name) + ";\n\n"@ } else { let o5 = fold_put(o3 + "  const factory "@ + case_class_name(n, c.case_name) + "({\n"@, c.fields, field_piece_fn(FieldPiece::RequiredTypedParam)); o5 + "  }) = "@ + impl_class_name(n, c.case_name) + ";\n\n"@ };
        assert(keeps(o, o6));
    }
    let o7 = if c.fields.len() == 0 { o2 + "  const factory "@ + case_class_name(n, c.case_name) + "() = "@ + impl_class_name(n, c.case_name) + ";\n\n"@ } else { let o3 = o2; let o6 = if any_named(c.fields) { let o4 = fold_put(o3 + "  const factory "@ + case_class_name(n, c.case_name) + "({\n"@, c.fields, field_piece_fn(FieldPiece::ThisParam)); o4 + "  }) = "@ + impl_class_name(n, c.case_name) + ";\n\n"@ } else { let o5 = fold_put(o3 + "  const factory "@ + case_class_name(n, c.case_name) + "({\n"@, c.fields, field_piece_fn(FieldPiece::RequiredTypedParam)); o5 + "  }) = "@ + impl_class_name(n, c.case_name) + ";\n\n"@ }; o6 };
    assert(keeps(o, o7));
    lemma_fold_put_keeps(o7, c.fields, field_piece_fn(FieldPiece::AbstractGetter));
    lemma_keeps_trans(o, o7, fold_put(o7, c.fields, field_piece_fn(FieldPiece::AbstractGetter)));
    let o8 = fold_put(o7, c.fields, field_piece_fn(FieldPiece::AbstractGetter));
    assert(keeps(o, o8));
    let o9 = o8;
    assert(keeps(o, o9));
    if c.fields.len() == 0 {
    } else {
        lemma_keeps_add(o9, "\n"@);
        lemma_keeps_trans(o, o9, o9 + "\n"@);
    }
    let o10 = if c.fields.len() == 0 { o9 } else { o9 + "\n"@ };
    assert(keeps(o, o10));
    lemma_keeps_add(o10, "  /// Create a copy of "@);
    lemma_keeps_trans(o, o10, o10 + "  /// Create a copy of "@);
    lemma_keeps_add(o10 + "  /// Create a copy of "@, n);
    lemma_keeps_trans(o, o10 + "  /// Create a copy of "@, o10 + "  /// Create a copy of "@ + n);
    lemma_keeps_add(o10 + "  /// Create a copy of "@ + n, "\n  /// with the given fields replaced by the non-null parameter values.\n  @JsonKey(includeFromJson: false, includeToJson: false)\n"@);
    lemma_keeps_trans(o, o10 + "  /// Create a copy of "@ + n, o10 + "  /// Create a copy of "@ + n + "\n  /// with the given fields replaced by the non-null parameter values.\n  @JsonKey(includeFromJson: false, includeToJson: false)\n"@);
    lemma_keeps_add(o10 + "  /// Create a copy of "@ + n + "\n  /// with the given fields replaced by the non-null parameter values.\n  @JsonKey(includeFromJson: false, includeToJson: false)\n"@, "  _$$"@);
    lemma_keeps_trans(o, o10 + "  /// Create a copy of "@ + n + "\n  /// with the given fields replaced by the non-null parameter values.\n  @JsonKey(includeFromJson: false, includeToJson: false)\n"@, o10 + "  /// Create a copy of "@ + n + "\n  /// with the given fields replaced by the non-null parameter values.\n  @JsonKey(includeFromJson: false, includeToJson: false)\n"@ + "  _$$"@);
    lemma_keeps_add(o10 + "  /// Create a copy of "@ + n + "\n  /// with the given fields replaced by the non-null parameter values.\n  @JsonKey(includeFromJson: false, includeToJson: false)\n"@ + "  _$$"@, case_class_name(n, c.case_name));
    lemma_keeps_trans(o, o10 + "  /// Create a copy of "@ + n + "\n  /// with the given fields replaced by the non-null parameter values.\n  @JsonKey(includeFromJson: false, includeToJson: false)\n"@ + "  _$$"@, o10 + "  /// Create a copy of "@ + n + "\n  /// with the given fields replaced by the non-null parameter values.\n  @JsonKey(includeFromJson: false, includeToJson: false)\n"@ + "  _$$"@ + case_class_name(n, c.case_name));
    lemma_keeps_add(o10 + "  /// Create a copy of "@ + n + "\n  /// with the given fields replaced by the non-null parameter values.\n  @JsonKey(includeFromJson: false, includeToJson: false)\n"@ + "  _$$"@ + case_class_name(n, c.case_name), "ImplCopyWith<"@);
    lemma_keeps_trans(o, o10 + "  /// Create a copy of "@ + n + "\n  /// with the given fields replaced by the non-null parameter values.\n  @JsonKey(includeFromJson: false, includeToJson: false)\n"@ + "  _$$"@ + case_class_name(n, c.case_name), o10 + "  /// Create a copy of "@ + n + "\n  /// with the given fields replaced by the non-null parameter values.\n  @JsonKey(includeFromJson: false, includeToJson: false)\n"@ + "  _$$"@ + case_class_name(n, c.case_name) + "ImplCopyWith<"@);
    lemma_keeps_add(o10 + "  /// Create a copy of "@ + n + "\n  /// with the given fields replaced by the non-null parameter values.\n  @JsonKey(includeFromJson: false, includeToJson: false)\n"@ + "  _$$"@ + case_class_name(n, c.case_name) + "ImplCopyWith<"@, impl_class_name(n, c.case_name));
    lemma_keeps_trans(o, o10 + "  /// Create a copy of "@ + n + "\n  /// with the given fields replaced by the non-null parameter values.\n  @JsonKey(includeFromJson: false, includeToJson: false)\n"@ + "  _$$"@ + case_class_name(n, c.case_name) + "ImplCopyWith<"@, o10 + "  /// Create a copy of "@ + n + "\n  /// with the given fields replaced by the non-null parameter values.\n  @JsonKey(includeFromJson: false, includeToJson: false)\n"@ + "  _$$"@ + case_class_name(n, c.case_name) + "ImplCopyWith<"@ + impl_class_name(n, c.case_name));
    lemma_keeps_add(o10 + "  /// Create a copy of "@ + n + "\n  /// with the given fields replaced by the non-null parameter values.\n  @JsonKey(includeFromJson: false, includeToJson: false)\n"@ + "  _$$"@ + case_class_name(n, c.case_name) + "ImplCopyWith<"@ + impl_class_name(n, c.case_name), "> get copyWith =>\n"@);
    lemma_keeps_trans(o, o10 + "  /// Create a copy of "@ + n + "\n  /// with the given fields replaced by the non-null parameter values.\n  @JsonKey(includeFromJson: false, includeToJson: false)\n"@ + "  _$$"@ + case_class_name(n, c.case_name) + "ImplCopyWith<"@ + impl_class_name(n, c.case_name), o10 + "  /// Create a copy of "@ + n + "\n  /// with the given fields replaced by the non-null parameter values.\n  @JsonKey(includeFromJson: false, includeToJson: false)\n"@ + "  _$$"@ + case_class_name(n, c.case_name) + "ImplCopyWith<"@ + impl_class_name(n, c.case_name) + "> get copyWith =>\n"@);
    lemma_keeps_add(o10 + "  /// Create a copy of "@ + n + "\n  /// with the given fields replaced by the non-null parameter values.\n  @JsonKey(includeFromJson: false, includeToJson: false)\n"@ + "  _$$"@ + case_class_name(n, c.case_name) + "ImplCopyWith<"@ + impl_class_name(n, c.case_name) + "> get copyWith =>\n"@, "      throw _privateConstructorUsedError;\n}\n\n"@);
    lemma_keeps_trans(o, o10 + "  /// Create a copy of "@ + n + "\n  /// with the given fields replaced by the non-null parameter values.\n  @JsonKey(includeFromJson: false, includeToJson: false)\n"@ + "  _$$"@ + case_class_name(n, c.case_name) + "ImplCopyWith<"@ + impl_class_name(n, c.case_name) + "> get copyWith =>\n"@, o10 + "  /// Create a copy of "@ + n + "\n  /// with the given fields replaced by the non-null parameter values.\n  @JsonKey(includeFromJson: false, includeToJson: false)\n"@ + "  _$$"@ + case_class_name(n, c.case_name) + "ImplCopyWith<"@ + impl_class_name(n, c.case_name) + "> get copyWith =>\n"@ + "      throw _privateConstructorUsedError;\n}\n\n"@);
    lemma_keeps_add(o10 + "  /// Create a copy of "@ + n + "\n  /// with the given fields replaced by the non-null parameter values.\n  @JsonKey(includeFromJson: false, includeToJson: false)\n"@ + "  _$$"@ + case_class_name(n, c.case_name) + "ImplCopyWith<"@ + impl_class_name(n, c.case_name) + "> get copyWith =>\n"@ + "      throw _privateConstructorUsedError;\n}\n\n"@, "/// @nodoc\n@JsonSerializable()\n"@);
    lemma_keeps_trans(o, o10 + "  /// Create a copy of "@ + n + "\n  /// with the given fields replaced by the non-null parameter values.\n  @JsonKey(includeFromJson: false, includeToJson: false)\n"@ + "  _$$"@ + case_class_name(n, c.case_name) + "ImplCopyWith<"@ + impl_class_name(n, c.case_name) + "> get copyWith =>\n"@ + "      throw _privateConstructorUsedError;\n}\n\n"@, o10 + "  /// Create a copy of "@ + n + "\n  /// with the given fields replaced by the non-null parameter values.\n  @JsonKey(includeFromJson: false, includeToJson: false)\n"@ + "  _$$"@ + case_class_name(n, c.case_name) + "ImplCopyWith<"@ + impl_class_name(n, c.case_name) + "> get copyWith =>\n"@ + "      throw _privateConstructorUsedError;\n}\n\n"@ + "/// @nodoc\n@JsonSerializable()\n"@);
    lemma_keeps_add(o10 + "  /// Create a copy of "@ + n + "\n  /// with the given fields replaced by the non-null parameter values.\n  @JsonKey(includeFromJson: false, includeToJson: false)\n"@ + "  _$$"@ + case_class_name(n, c.case_name) + "ImplCopyWith<"@ + impl_class_name(n, c.case_name) + "> get copyWith =>\n"@ + "      throw _privateConstructorUsedError;\n}\n\n"@ + "/// @nodoc\n@JsonSerializable()\n"@, "class "@);
    lemma_keeps_trans(o, o10 + "  /// Create a copy of "@ + n + "\n  /// with the given fields replaced by the non-null parameter values.\n  @JsonKey(includeFromJson: false, includeToJson: false)\n"@ + "  _$$"@ + case_class_name(n, c.case_name) + "ImplCopyWith<"@ + impl_class_name(n, c.case_name) + "> get copyWith =>\n"@ + "      throw _privateConstructorUsedError;\n}\n\n"@ + "/// @nodoc\n@JsonSerializable()\n"@, o10 + "  /// Create a copy of "@ + n + "\n  /// with the given fields replaced by the non-null parameter values.\n  @JsonKey(includeFromJson: false, includeToJson: false)\n"@ + "  _$$"@ + case_class_name(n, c.case_name) + "ImplCopyWith<"@ + impl_class_name(n, c.case_name) + "> get copyWith =>\n"@ + "      throw _privateConstructorUsedError;\n}\n\n"@ + "/// @nodoc\n@JsonSerializable()\n"@ + "class "@);
    lemma_keeps_add(o10 + "  /// Create a copy of "@ + n + "\n  /// with the given fields replaced by the non-null parameter values.\n  @JsonKey(includeFromJson: false, includeToJson: false)\n"@ + "  _$$"@ + case_class_name(n, c.case_name) + "ImplCopyWith<"@ + impl_class_name(n, c.case_name) + "> get copyWith =>\n"@ + "      throw _privateConstructorUsedError;\n}\n\n"@ + "/// @nodoc\n@JsonSerializable()\n"@ + "class "@, impl_class_name(n, c.case_name));
    lemma_keeps_trans(o, o10 + "  /// Create a copy of "@ + n + "\n  /// with the given fields replaced by the non-null parameter values.\n  @JsonKey(includeFromJson: false, includeToJson: false)\n"@ + "  _$$"@ + case_class_name(n, c.case_name) + "ImplCopyWith<"@ + impl_class_name(n, c.case_name) + "> get copyWith =>\n"@ + "      throw _privateConstructorUsedError;\n}\n\n"@ + "/// @nodoc\n@JsonSerializable()\n"@ + "class "@, o10 + "  /// Create a copy of "@ + n + "\n  /// with the given fields replaced by the non-null parameter values.\n  @JsonKey(includeFromJson: false, includeToJson: false)\n"@ + "  _$$"@ + case_class_name(n, c.case_name) + "ImplCopyWith<"@ + impl_class_name(n, c.case_name) + "> get copyWith =>\n"@ + "      throw _privateConstructorUsedError;\n}\n\n"@ + "/// @nodoc\n@JsonSerializable()\n"@ + "class "@ + impl_class_name(n, c.case_name));
    lemma_keeps_add(o10 + "  /// Create a copy of "@ + n + "\n  /// with the given fields replaced by the non-null parameter values.\n  @JsonKey(includeFromJson: false, includeToJson: false)\n"@ + "  _$$"@ + case_class_name(n, c.case_name) + "ImplCopyWith<"@ + impl_class_name(n, c.case_name) + "> get copyWith =>\n"@ + "      throw _privateConstructorUsedError;\n}\n\n"@ + "/// @nodoc\n@JsonSerializable()\n"@ + "class "@ + impl_class_name(n, c.case_name), " implements "@);
    lemma_keeps_trans(o, o10 + "  /// Create a copy of "@ + n + "\n  /// with the given fields replaced by the non-null parameter values.\n  @JsonKey(includeFromJson: false, includeToJson: false)\n"@ + "  _$$"@ + case_class_name(n, c.case_name) + "ImplCopyWith<"@ + impl_class_name(n, c.case_name) + "> get copyWith =>\n"@ + "      throw _privateConstructorUsedError;\n}\n\n"@ + "/// @nodoc\n@JsonSerializable()\n"@ + "class "@ + impl_class_name(n, c.case_name), o10 + "  /// Create a copy of "@ + n + "\n  /// with the given fields replaced by the non-null parameter values.\n  @JsonKey(includeFromJson: false, includeToJson: false)\n"@ + "  _$$"@ + case_class_name(n, c.case_name) + "ImplCopyWith<"@ + impl_class_name(n, c.case_name) + "> get copyWith =>\n"@ + "      throw _privateConstructorUsedError;\n}\n\n"@ + "/// @nodoc\n@JsonSerializable()\n"@ + "class "@ + impl_class_name(n, c.case_name) + " implements "@);
    lemma_keeps_add(o10 + "  /// Create a copy of "@ + n + "\n  /// with the given fields replaced by the non-null parameter values.\n  @JsonKey(includeFromJson: false, includeToJson: false)\n"@ + "  _$$"@ + case_class_name(n, c.case_name) + "ImplCopyWith<"@ + impl_class_name(n, c.case_name) + "> get copyWith =>\n"@ + "      throw _privateConstructorUsedError;\n}\n\n"@ + "/// @nodoc\n@JsonSerializable()\n"@ + "class "@ + impl_class_name(n, c.case_name) + " implements "@, case_class_name(n, c.case_name));
    lemma_keeps_trans(o, o10 + "  /// Create a copy of "@ + n + "\n  /// with the given fields replaced by the non-null parameter values.\n  @JsonKey(includeFromJson: false, includeToJson: false)\n"@ + "  _$$"@ + case_class_name(n, c.case_name) + "ImplCopyWith<"@ + impl_class_name(n, c.case_name) + "> get copyWith =>\n"@ + "      throw _privateConstructorUsedError;\n}\n\n"@ + "/// @nodoc\n@JsonSerializable()\n"@ + "class "@ + impl_class_name(n, c.case_name) + " implements "@, o10 + "  /// Create a copy of "@ + n + "\n  /// with the given fields replaced by the non-null parameter values.\n  @JsonKey(includeFromJson: false, includeToJson: false)\n"@ + "  _$$"@ + case_class_name(n, c.case_name) + "ImplCopyWith<"@ + impl_class_name(n, c.case_name) + "> get copyWith =>\n"@ + "      throw _privateConstructorUsedError;\n}\n\n"@ + "/// @nodoc\n@JsonSerializable()\n"@ + "class "@ + impl_class_name(n, c.case_name) + " implements "@ + case_class_name(n, c.case_name));
    lemma_keeps_add(o10 + "  /// Create a copy of "@ + n + "\n  /// with the given fields replaced by the non-null parameter values.\n  @JsonKey(includeFromJson: false, includeToJson: false)\n"@ + "  _$$"@ + case_class_name(n, c.case_name) + "ImplCopyWith<"@ + impl_class_name(n, c.case_name) + "> get copyWith =>\n"@ + "      throw _privateConstructorUsedError;\n}\n\n"@ + "/// @nodoc\n@JsonSerializable()\n"@ + "class "@ + impl_class_name(n, c.case_name) + " implements "@ + case_class_name(n, c.case_name), " {\n"@);
    lemma_keeps_trans(o, o10 + "  /// Create a copy of "@ + n + "\n  /// with the given fields replaced by the non-null parameter values.\n  @JsonKey(includeFromJson: false, includeToJson: false)\n"@ + "  _$$"@ + case_class_name(n, c.case_name) + "ImplCopyWith<"@ + impl_class_name(n, c.case_name) + "> get copyWith =>\n"@ + "      throw _privateConstructorUsedError;\n}\n\n"@ + "/// @nodoc\n@JsonSerializable()\n"@ + "class "@ + impl_class_name(n, c.case_name) + " implements "@ + case_class_name(n, c.case_name), o10 + "  /// Create a copy of "@ + n + "\n  /// with the given fields replaced by the non-null parameter values.\n  @JsonKey(includeFromJson: false, includeToJson: false)\n"@ + "  _$$"@ + case_class_name(n, c.case_name) + "ImplCopyWith<"@ + impl_class_name(n, c.case_name) + "> get copyWith =>\n"@ + "      throw _privateConstructorUsedError;\n}\n\n"@ + "/// @nodoc\n@JsonSerializable()\n"@ + "class "@ + impl_class_name(n, c.case_name) + " implements "@ + case_class_name(n, c.case_name) + " {\n"@);
    let o11 = o10 + "  /// Create a copy of "@ + n + "\n  /// with the given fields replaced by the non-null parameter values.\n  @JsonKey(includeFromJson: false, includeToJson: false)\n"@ + "  _$$"@ + case_class_name(n, c.case_name) + "ImplCopyWith<"@ + impl_class_name(n, c.case_name) + "> get copyWith =>\n"@ + "      throw _privateConstructorUsedError;\n}\n\n"@ + "/// @nodoc\n@JsonSerializable()\n"@ + "class "@ + impl_class_name(n, c.case_name) + " implements "@ + case_class_name(n, c.case_name) + " {\n"@;
    assert(keeps(o, o11));
    if c.fields.len() == 0 {
        lemma_keeps_add(o11, "  const "@);
        lemma_keeps_trans(o, o11, o11 + "  const "@);
        lemma_keeps_add(o11 + "  const "@, impl_class_name(n, c.case_name));
        lemma_keeps_trans(o, o11 + "  const "@, o11 + "  const "@ + impl_class_name(n, c.case_name));
        lemma_keeps_add(o11 + "  const "@ + impl_class_name(n, c.case_name), "();\n\n"@);
        lemma_keeps_trans(o, o11 + "  const "@ + impl_class_name(n, c.case_name), o11 + "  const "@ + impl_class_name(n, c.case_name) + "();\n\n"@);
    } else {
        lemma_keeps_add(o11, "  const "@);
        lemma_keeps_trans(o, o11, o11 + "  const "@);
        lemma_keeps_add(o11 + "  const "@, impl_class_name(n, c.case_name));
        lemma_keeps_trans(o, o11 + "  const "@, o11 + "  const "@ + impl_class_name(n, c.case_name));
        lemma_keeps_add(o11 + "  const "@ + impl_class_name(n, c.case_name), "({\n"@);
        lemma_keeps_trans(o, o11 + "  const "@ + impl_class_name(n, c.case_name), o11 + "  const "@ + impl_class_name(n, c.case_name) + "({\n"@);
        lemma_fold_put_keeps(o11 + "  const "@ + impl_class_name(n, c.case_name) + "({\n"@, c.fields, field_piece_fn(FieldPiece::ThisParam));
        lemma_keeps_trans(o, o11 + "  const "@ + impl_class_name(n, c.case_name) + "({\n"@, fold_put(o11 + "  const "@ + impl_class_name(n, c.case_name) + "({\n"@, c.fields, field_piece_fn(FieldPiece::ThisParam)));
        let o12 = fold_put(o11 + "  const "@ + impl_class_name(n, c.case_name) + "({\n"@, c.fields, field_piece_fn(FieldPiece::ThisParam));
        assert(keeps(o, o12));
        lemma_keeps_add(o12, "  });\n\n"@);
        lemma_keeps_trans(o, o12, o12 + "  });\n\n"@);
    }
    let o13 = if c.fields.len() == 0 { o11 + "  const "@ + impl_class_name(n, c.case_name) + "();\n\n"@ } else { let o12 = fold_put(o11 + "  const "@ + impl_class_name(n, c.case_name) + "({\n"@, c.fields, field_piece_fn(FieldPiece::ThisParam)); o12 + "  });\n\n"@ };
    assert(keeps(o, o13));
    let o14 = o13;
    assert(keeps(o, o14));
    if c.fields.len() == 0 {
    } else {
        lemma_fold_put_keeps(o14, c.fields, field_piece_fn(FieldPiece::FinalField));
        lemma_keeps_trans(o, o14, fold_put(o14, c.fields, field_piece_fn(FieldPiece::FinalField)));
        let o15 = fold_put(o14, c.fields, field_piece_fn(FieldPiece::FinalField));
        assert(keeps(o, o15));
        lemma_keeps_add(o15, "\n"@);
        lemma_keeps_trans(o, o15, o15 + "\n"@);
    }
    let o16 = if c.fields.len() == 0 { o14 } else { let o15 = fold_put(o14, c.fields, field_piece_fn(FieldPiece::FinalField)); o15 + "\n"@ };
    assert(keeps(o, o16));
    lemma_keeps_add(o16, "  @override\n"@);
    lemma_keeps_trans(o, o16, o16 + "  @override\n"@);
    lemma_keeps_add(o16 + "  @override\n"@, "  String get $type => '"@);
    lemma_keeps_trans(o, o16 + "  @override\n"@, o16 + "  @override\n"@ + "  String get $type => '"@);
    lemma_keeps_add(o16 + "  @override\n"@ + "  String get $type => '"@, c.case_name);
    lemma_keeps_trans(o, o16 + "  @override\n"@ + "  String get $type => '"@, o16 + "  @override\n"@ + "  String get $type => '"@ + c.case_name);
    lemma_keeps_add(o16 + "  @override\n"@ + "  String get $type => '"@ + c.case_name, "';\n\n"@);
    lemma_keeps_trans(o, o16 + "  @override\n"@ + "  String get $type => '"@ + c.case_name, o16 + "  @override\n"@ + "  String get $type => '"@ + c.case_name + "';\n\n"@);
    lemma_keeps_add(o16 + "  @override\n"@ + "  String get $type => '"@ + c.case_name + "';\n\n"@, "  @override\n  String toString() {\n"@);
    lemma_keeps_trans(o, o16 + "  @override\n"@ + "  String get $type => '"@ + c.case_name + "';\n\n"@, o16 + "  @override\n"@ + "  String get $type => '"@ + c.case_name + "';\n\n"@ + "  @override\n  String toString() {\n"@);
    let o17 = o16 + "  @override\n"@ + "  String get $type => '"@ + c.case_name + "';\n\n"@ + "  @override\n  String toString() {\n"@;
    assert(keeps(o, o17));
    if c.fields.len() == 0 {
        lemma_keeps_add(o17, "    return '"@);
        lemma_keeps_trans(o, o17, o17 + "    return '"@);
        lemma_keeps_add(o17 + "    return '"@, c.case_name);
        lemma_keeps_trans(o, o17 + "    return '"@, o17 + "    return '"@ + c.case_name);
        lemma_keeps_add(o17 + "    return '"@ + c.case_name, "';\n"@);
        lemma_keeps_trans(o, o17 + "    return '"@ + c.case_name, o17 + "    return '"@ + c.case_name + "';\n"@);
    } else {
        lemma_keeps_add(o17, "    return '"@);
        lemma_keeps_trans(o, o17, o17 + "    return '"@);
        lemma_keeps_add(o17 + "    return '"@, n);
        lemma_keeps_trans(o, o17 + "    return '"@, o17 + "    return '"@ + n);
        lemma_keeps_add(o17 + "    return '"@ + n, "."@);
        lemma_keeps_trans(o, o17 + "    return '"@ + n, o17 + "    return '"@ + n + "."@);
        lemma_keeps_add(o17 + "    return '"@ + n + "."@, c.case_name);
        lemma_keeps_trans(o, o17 + "    return '"@ + n + "."@, o17 + "    return '"@ + n + "."@ + c.case_name);
        lemma_keeps_add(o17 + "    return '"@ + n + "."@ + c.case_name, "("@);
        lemma_keeps_trans(o, o17 + "    return '"@ + n + "."@ + c.case_name, o17 + "    return '"@ + n + "."@ + c.case_name + "("@);
        lemma_joined_keeps(o17 + "    return '"@ + n + "."@ + c.case_name + "("@, c.fields, FieldPiece::ToStringFirst, FieldPiece::ToStringNext);
        lemma_keeps_trans(o, o17 + "    return '"@ + n + "."@ + c.case_name + "("@, put_joined(o17 + "    return '"@ + n + "."@ + c.case_name + "("@, c.fields, FieldPiece::ToStringFirst, FieldPiece::ToStringNext));
        let o18 = put_joined(o17 + "    return '"@ + n + "."@ + c.case_name + "("@, c.fields, FieldPiece::ToStringFirst, FieldPiece::ToStringNext);
        assert(keeps(o, o18));
        lemma_keeps_add(o18, ")';\n"@);
        lemma_keeps_trans(o, o18, o18 + ")';\n"@);
    }
    let o19 = if c.fields.len() == 0 { o17 + "    return '"@ + c.case_name + "';\n"@ } else { let o18 = put_joined(o17 + "    return '"@ + n + "."@ + c.case_name + "("@, c.fields, FieldPiece::ToStringFirst, FieldPiece::ToStringNext); o18 + ")';\n"@ };
    assert(keeps(o, o19));
    lemma_keeps_add(o19, "  }\n\n"@);
    lemma_keeps_trans(o, o19, o19 + "  }\n\n"@);
    lemma_keeps_add(o19 + "  }\n\n"@, "  @override\n  bool operator ==(Object other) {\n    return identical(this, other) ||\n"@);
    lemma_keeps_trans(o, o19 + "  }\n\n"@, o19 + "  }\n\n"@ + "  @override\n  bool operator ==(Object other) {\n    return identical(this, other) ||\n"@);
    lemma_keeps_add(o19 + "  }\n\n"@ + "  @override\n  bool operator ==(Object other) {\n    return identical(this, other) ||\n"@, "        (other.runtimeType == runtimeType && other is "@);
    lemma_keeps_trans(o, o19 + "  }\n\n"@ + "  @override\n  bool operator ==(Object other) {\n    return identical(this, other) ||\n"@, o19 + "  }\n\n"@ + "  @override\n  bool operator ==(Object other) {\n    return identical(this, other) ||\n"@ + "        (other.runtimeType == runtimeType && other is "@);
    lemma_keeps_add(o19 + "  }\n\n"@ + "  @override\n  bool operator ==(Object other) {\n    return identical(this, other) ||\n"@ + "        (other.runtimeType == runtimeType && other is "@, impl_class_name(n, c.case_name));
    lemma_keeps_trans(o, o19 + "  }\n\n"@ + "  @override\n  bool operator ==(Object other) {\n    return identical(this, other) ||\n"@ + "        (other.runtimeType == runtimeType && other is "@, o19 + "  }\n\n"@ + "  @override\n  bool operator ==(Object other) {\n    return identical(this, other) ||\n"@ + "        (other.runtimeType == runtimeType && other is "@ + impl_class_name(n, c.case_name));
    lemma_keeps_add(o19 + "  }\n\n"@ + "  @override\n  bool operator ==(Object other) {\n    return identical(this, other) ||\n"@ + "        (other.runtimeType == runtimeType && other is "@ + impl_class_name(n, c.case_name), ");\n"@);
    lemma_keeps_trans(o, o19 + "  }\n\n"@ + "  @override\n  bool operator ==(Object other) {\n    return identical(this, other) ||\n"@ + "        (other.runtimeType == runtimeType && other is "@ + impl_class_name(n, c.case_name), o19 + "  }\n\n"@ + "  @override\n  bool operator ==(Object other) {\n    return identical(this, other) ||\n"@ + "        (other.runtimeType == runtimeType && other is "@ + impl_class_name(n, c.case_name) + ");\n"@);
    lemma_keeps_add(o19 + "  }\n\n"@ + "  @override\n  bool operator ==(Object other) {\n    return identical(this, other) ||\n"@ + "        (other.runtimeType == runtimeType && other is "@ + impl_class_name(n, c.case_name) + ");\n"@, "  }\n\n"@);
    lemma_keeps_trans(o, o19 + "  }\n\n"@ + "  @override\n  bool operator ==(Object other) {\n    return identical(this, other) ||\n"@ + "        (other.runtimeType == runtimeType && other is "@ + impl_class_name(n, c.case_name) + ");\n"@, o19 + "  }\n\n"@ + "  @override\n  bool operator ==(Object other) {\n    return identical(this, other) ||\n"@ + "        (other.runtimeType == runtimeType && other is "@ + impl_class_name(n, c.case_name) + ");\n"@ + "  }\n\n"@);
    lemma_keeps_add(o19 + "  }\n\n"@ + "  @override\n  bool operator ==(Object other) {\n    return identical(this, other) ||\n"@ + "        (other.runtimeType == runtimeType && other is "@ + impl_class_name(n, c.case_name) + ");\n"@ + "  }\n\n"@, "  @JsonKey(includeFromJson: false, includeToJson: false)\n  @override\n  int get hashCode => runtimeType.hashCode;\n\n"@);
    lemma_keeps_trans(o, o19 + "  }\n\n"@ + "  @override\n  bool operator ==(Object other) {\n    return identical(this, other) ||\n"@ + "        (other.runtimeType == runtimeType && other is "@ + impl_class_name(n, c.case_name) + ");\n"@ + "  }\n\n"@, o19 + "  }\n\n"@ + "  @override\n  bool operator ==(Object other) {\n    return identical(this, other) ||\n"@ + "        (other.runtimeType == runtimeType && other is "@ + impl_class_name(n, c.case_name) + ");\n"@ + "  }\n\n"@ + "  @JsonKey(includeFromJson: false, includeToJson: false)\n  @override\n  int get hashCode => runtimeType.hashCode;\n\n"@);
    lemma_keeps_add(o19 + "  }\n\n"@ + "  @override\n  bool operator ==(Object other) {\n    return identical(this, other) ||\n"@ + "        (other.runtimeType == runtimeType && other is "@ + impl_class_name(n, c.case_name) + ");\n"@ + "  }\n\n"@ + "  @JsonKey(includeFromJson: false, includeToJson: false)\n  @override\n  int get hashCode => runtimeType.hashCode;\n\n"@, "  @JsonKey(includeFromJson: false, includeToJson: false)\n  @override\n"@);
    lemma_keeps_trans(o, o19 + "  }\n\n"@ + "  @override\n  bool operator ==(Object other) {\n    return identical(this, other) ||\n"@ + "        (other.runtimeType == runtimeType && other is "@ + impl_class_name(n, c.case_name) + ");\n"@ + "  }\n\n"@ + "  @JsonKey(includeFromJson: false, includeToJson: false)\n  @override\n  int get hashCode => runtimeType.hashCode;\n\n"@, o19 + "  }\n\n"@ + "  @override\n  bool operator ==(Object other) {\n    return identical(this, other) ||\n"@ + "        (other.runtimeType == runtimeType && other is "@ + impl_class_name(n, c.case_name) + ");\n"@ + "  }\n\n"@ + "  @JsonKey(includeFromJson: false, includeToJson: false)\n  @override\n  int get hashCode => runtimeType.hashCode;\n\n"@ + "  @JsonKey(includeFromJson: false, includeToJson: false)\n  @override\n"@);
    lemma_keeps_add(o19 + "  }\n\n"@ + "  @override\n  bool operator ==(Object other) {\n    return identical(this, other) ||\n"@ + "        (other.runtimeType == runtimeType && other is "@ + impl_class_name(n, c.case_name) + ");\n"@ + "  }\n\n"@ + "  @JsonKey(includeFromJson: false, includeToJson: false)\n  @override\n  int get hashCode => runtimeType.hashCode;\n\n"@ + "  @JsonKey(includeFromJson: false, includeToJson: false)\n  @override\n"@, "  _$$"@);
    lemma_keeps_trans(o, o19 + "  }\n\n"@ + "  @override\n  bool operator ==(Object other) {\n    return identical(this, other) ||\n"@ + "        (other.runtimeType == runtimeType && other is "@ + impl_class_name(n, c.case_name) + ");\n"@ + "  }\n\n"@ + "  @JsonKey(includeFromJson: false, includeToJson: false)\n  @override\n  int get hashCode => runtimeType.hashCode;\n\n"@ + "  @JsonKey(includeFromJson: false, includeToJson: false)\n  @override\n"@, o19 + "  }\n\n"@ + "  @override\n  bool operator ==(Object other) {\n    return identical(this, other) ||\n"@ + "        (other.runtimeType == runtimeType && other is "@ + impl_class_name(n, c.case_name) + ");\n"@ + "  }\n\n"@ + "  @JsonKey(includeFromJson: false, includeToJson: false)\n  @override\n  int get hashCode => runtimeType.hashCode;\n\n"@ + "  @JsonKey(includeFromJson: false, includeToJson: false)\n  @override\n"@ + "  _$$"@);
    lemma_keeps_add(o19 + "  }\n\n"@ + "  @override\n  bool operator ==(Object other) {\n    return identical(this, other) ||\n"@ + "        (other.runtimeType == runtimeType && other is "@ + impl_class_name(n, c.case_name) + ");\n"@ + "  }\n\n"@ + "  @JsonKey(includeFromJson: false, includeToJson: false)\n  @override\n  int get hashCode => runtimeType.hashCode;\n\n"@ + "  @JsonKey(includeFromJson: false, includeToJson: false)\n  @override\n"@ + "  _$$"@, case_class_name(n, c.case_name));
    lemma_keeps_trans(o, o19 + "  }\n\n"@ + "  @override\n  bool operator ==(Object other) {\n    return identical(this, other) ||\n"@ + "        (other.runtimeType == runtimeType && other is "@ + impl_class_name(n, c.case_name) + ");\n"@ + "  }\n\n"@ + "  @JsonKey(includeFromJson: false, includeToJson: false)\n  @override\n  int get hashCode => runtimeType.hashCode;\n\n"@ + "  @JsonKey(includeFromJson: false, includeToJson: false)\n  @override\n"@ + "  _$$"@, o19 + "  }\n\n"@ + "  @override\n  bool operator ==(Object other) {\n    return identical(this, other) ||\n"@ + "        (other.runtimeType == runtimeType && other is "@ + impl_class_name(n, c.case_name) + ");\n"@ + "  }\n\n"@ + "  @JsonKey(includeFromJson: false, includeToJson: false)\n  @override\n  int get hashCode => runtimeType.hashCode;\n\n"@ + "  @JsonKey(includeFromJson: false, includeToJson: false)\n  @override\n"@ + "  _$$"@ + case_class_name(n, c.case_name));
    lemma_keeps_add(o19 + "  }\n\n"@ + "  @override\n  bool operator ==(Object other) {\n    return identical(this, other) ||\n"@ + "        (other.runtimeType == runtimeType && other is "@ + impl_class_name(n, c.case_name) + ");\n"@ + "  }\n\n"@ + "  @JsonKey(includeFromJson: false, includeToJson: false)\n  @override\n  int get hashCode => runtimeType.hashCode;\n\n"@ + "  @JsonKey(includeFromJson: false, includeToJson: false)\n  @override\n"@ + "  _$$"@ + case_class_name(n, c.case_name), "ImplCopyWith<"@);
    lemma_keeps_trans(o, o19 + "  }\n\n"@ + "  @override\n  bool operator ==(Object other) {\n    return identical(this, other) ||\n"@ + "        (other.runtimeType == runtimeType && other is "@ + impl_class_name(n, c.case_name) + ");\n"@ + "  }\n\n"@ + "  @JsonKey(includeFromJson: false, includeToJson: false)\n  @override\n  int get hashCode => runtimeType.hashCode;\n\n"@ + "  @JsonKey(includeFromJson: false, includeToJson: false)\n  @override\n"@ + "  _$$"@ + case_class_name(n, c.case_name), o19 + "  }\n\n"@ + "  @override\n  bool operator ==(Object other) {\n    return identical(this, other) ||\n"@ + "        (other.runtimeType == runtimeType && other is "@ + impl_class_name(n, c.case_name) + ");\n"@ + "  }\n\n"@ + "  @JsonKey(includeFromJson: false, includeToJson: false)\n  @override\n  int get hashCode => runtimeType.hashCode;\n\n"@ + "  @JsonKey(includeFromJson: false, includeToJson: false)\n  @override\n"@ + "  _$$"@ + case_class_name(n, c.case_name) + "ImplCopyWith<"@);
    lemma_keeps_add(o19 + "  }\n\n"@ + "  @override\n  bool operator ==(Object other) {\n    return identical(this, other) ||\n"@ + "        (other.runtimeType == runtimeType && other is "@ + impl_class_name(n, c.case_name) + ");\n"@ + "  }\n\n"@ + "  @JsonKey(includeFromJson: false, includeToJson: false)\n  @override\n  int get hashCode => runtimeType.hashCode;\n\n"@ + "  @JsonKey(includeFromJson: false, includeToJson: false)\n  @override\n"@ + "  _$$"@ + case_class_name(n, c.case_name) + "ImplCopyWith<"@, impl_class_name(n, c.case_name));
    lemma_keeps_trans(o, o19 + "  }\n\n"@ + "  @override\n  bool operator ==(Object other) {\n    return identical(this, other) ||\n"@ + "        (other.runtimeType == runtimeType && other is "@ + impl_class_name(n, c.case_name) + ");\n"@ + "  }\n\n"@ + "  @JsonKey(includeFromJson: false, includeToJson: false)\n  @override\n  int get hashCode => runtimeType.hashCode;\n\n"@ + "  @JsonKey(includeFromJson: false, includeToJson: false)\n  @override\n"@ + "  _$$"@ + case_class_name(n, c.case_name) + "ImplCopyWith<"@, o19 + "  }\n\n"@ + "  @override\n  bool operator ==(Object other) {\n    return identical(this, other) ||\n"@ + "        (other.runtimeType == runtimeType && other is "@ + impl_class_name(n, c.case_name) + ");\n"@ + "  }\n\n"@ + "  @JsonKey(includeFromJson: false, includeToJson: false)\n  @override\n  int get hashCode => runtimeType.hashCode;\n\n"@ + "  @JsonKey(includeFromJson: false, includeToJson: false)\n  @override\n"@ + "  _$$"@ + case_class_name(n, c.case_name) + "ImplCopyWith<"@ + impl_class_name(n, c.case_name));
    lemma_keeps_add(o19 + "  }\n\n"@ + "  @override\n  bool operator ==(Object other) {\n    return identical(this, other) ||\n"@ + "        (other.runtimeType == runtimeType && other is "@ + impl_class_name(n, c.case_name) + ");\n"@ + "  }\n\n"@ + "  @JsonKey(includeFromJson: false, includeToJson: false)\n  @override\n  int get hashCode => runtimeType.hashCode;\n\n"@ + "  @JsonKey(includeFromJson: false, includeToJson: false)\n  @override\n"@ + "  _$$"@ + case_class_name(n, c.case_name) + "ImplCopyWith<"@ + impl_class_name(n, c.case_name), "> get copyWith =>\n"@);
    lemma_keeps_trans(o, o19 + "  }\n\n"@ + "  @override\n  bool operator ==(Object other) {\n    return identical(this, other) ||\n"@ + "        (other.runtimeType == runtimeType && other is "@ + impl_class_name(n, c.case_name) + ");\n"@ + "  }\n\n"@ + "  @JsonKey(includeFromJson: false, includeToJson: false)\n  @override\n  int get hashCode => runtimeType.hashCode;\n\n"@ + "  @JsonKey(includeFromJson: false, includeToJson: false)\n  @override\n"@ + "  _$$"@ + case_class_name(n, c.case_name) + "ImplCopyWith<"@ + impl_class_name(n, c.case_name), o19 + "  }\n\n"@ + "  @override\n  bool operator ==(Object other) {\n    return identical(this, other) ||\n"@ + "        (other.runtimeType == runtimeType && other is "@ + impl_class_name(n, c.case_name) + ");\n"@ + "  }\n\n"@ + "  @JsonKey(includeFromJson: false, includeToJson: false)\n  @override\n  int get hashCode => runtimeType.hashCode;\n\n"@ + "  @JsonKey(includeFromJson: false, includeToJson: false)\n  @override\n"@ + "  _$$"@ + case_class_name(n, c.case_name) + "ImplCopyWith<"@ + impl_class_name(n, c.case_name) + "> get copyWith =>\n"@);
    lemma_keeps_add(o19 + "  }\n\n"@ + "  @override\n  bool operator ==(Object other) {\n    return identical(this, other) ||\n"@ + "        (other.runtimeType == runtimeType && other is "@ + impl_class_name(n, c.case_name) + ");\n"@ + "  }\n\n"@ + "  @JsonKey(includeFromJson: false, includeToJson: false)\n  @override\n  int get hashCode => runtimeType.hashCode;\n\n"@ + "  @JsonKey(includeFromJson: false, includeToJson: false)\n  @override\n"@ + "  _$$"@ + case_class_name(n, c.case_name) + "ImplCopyWith<"@ + impl_class_name(n, c.case_name) + "> get copyWith =>\n"@, "      __$$"@);
    lemma_keeps_trans(o, o19 + "  }\n\n"@ + "  @override\n  bool operator ==(Object other) {\n    return identical(this, other) ||\n"@ + "        (other.runtimeType == runtimeType && other is "@ + impl_class_name(n, c.case_name) + ");\n"@ + "  }\n\n"@ + "  @JsonKey(includeFromJson: false, includeToJson: false)\n  @override\n  int get hashCode => runtimeType.hashCode;\n\n"@ + "  @JsonKey(includeFromJson: false, includeToJson: false)\n  @override\n"@ + "  _$$"@ + case_class_name(n, c.case_name) + "ImplCopyWith<"@ + impl_class_name(n, c.case_name) + "> get copyWith =>\n"@, o19 + "  }\n\n"@ + "  @override\n  bool operator ==(Object other) {\n    return identical(this, other) ||\n"@ + "        (other.runtimeType == runtimeType && other is "@ + impl_class_name(n, c.case_name) + ");\n"@ + "  }\n\n"@ + "  @JsonKey(includeFromJson: false, includeToJson: false)\n  @override\n  int get hashCode => runtimeType.hashCode;\n\n"@ + "  @JsonKey(includeFromJson: false, includeToJson: false)\n  @override\n"@ + "  _$$"@ + case_class_name(n, c.case_name) + "ImplCopyWith<"@ + impl_class_name(n, c.case_name) + "> get copyWith =>\n"@ + "      __$$"@);
    lemma_keeps_add(o19 + "  }\n\n"@ + "  @override\n  bool operator ==(Object other) {\n    return identical(this, other) ||\n"@ + "        (other.runtimeType == runtimeType && other is "@ + impl_class_name(n, c.case_name) + ");\n"@ + "  }\n\n"@ + "  @JsonKey(includeFromJson: false, includeToJson: false)\n  @override\n  int get hashCode => runtimeType.hashCode;\n\n"@ + "  @JsonKey(includeFromJson: false, includeToJson: false)\n  @override\n"@ + "  _$$"@ + case_class_name(n, c.case_name) + "ImplCopyWith<"@ + impl_class_name(n, c.case_name) + "> get copyWith =>\n"@ + "      __$$"@, case_class_name(n, c.case_name));
    lemma_keeps_trans(o, o19 + "  }\n\n"@ + "  @override\n  bool operator ==(Object other) {\n    return identical(this, other) ||\n"@ + "        (other.runtimeType == runtimeType && other is "@ + impl_class_name(n, c.case_name) + ");\n"@ + "  }\n\n"@ + "  @JsonKey(includeFromJson: false, includeToJson: false)\n  @override\n  int get hashCode => runtimeType.hashCode;\n\n"@ + "  @JsonKey(includeFromJson: false, includeToJson: false)\n  @override\n"@ + "  _$$"@ + case_class_name(n, c.case_name) + "ImplCopyWith<"@ + impl_class_name(n, c.case_name) + "> get copyWith =>\n"@ + "      __$$"@, o19 + "  }\n\n"@ + "  @override\n  bool operator ==(Object other) {\n    return identical(this, other) ||\n"@ + "        (other.runtimeType == runtimeType && other is "@ + impl_class_name(n, c.case_name) + ");\n"@ + "  }\n\n"@ + "  @JsonKey(includeFromJson: false, includeToJson: false)\n  @override\n  int get hashCode => runtimeType.hashCode;\n\n"@ + "  @JsonKey(includeFromJson: false, includeToJson: false)\n  @override\n"@ + "  _$$"@ + case_class_name(n, c.case_name) + "ImplCopyWith<"@ + impl_class_name(n, c.case_name) + "> get copyWith =>\n"@ + "      __$$"@ + case_class_name(n, c.case_name));
    lemma_keeps_add(o19 + "  }\n\n"@ + "  @override\n  bool operator ==(Object other) {\n    return identical(this, other) ||\n"@ + "        (other.runtimeType == runtimeType && other is "@ + impl_class_name(n, c.case_name) + ");\n"@ + "  }\n\n"@ + "  @JsonKey(includeFromJson: false, includeToJson: false)\n  @override\n  int get hashCode => runtimeType.hashCode;\n\n"@ + "  @JsonKey(includeFromJson: false, includeToJson: false)\n  @override\n"@ + "  _$$"@ + case_class_name(n, c.case_name) + "ImplCopyWith<"@ + impl_class_name(n, c.case_name) + "> get copyWith =>\n"@ + "      __$$"@ + case_class_name(n, c.case_name), "ImplCopyWithImpl<"@);
    lemma_keeps_trans(o, o19 + "  }\n\n"@ + "  @override\n  bool operator ==(Object other) {\n    return identical(this, other) ||\n"@ + "        (other.runtimeType == runtimeType && other is "@ + impl_class_name(n, c.case_name) + ");\n"@ + "  }\n\n"@ + "  @JsonKey(includeFromJson: false, includeToJson: false)\n  @override\n  int get hashCode => runtimeType.hashCode;\n\n"@ + "  @JsonKey(includeFromJson: false, includeToJson: false)\n  @override\n"@ + "  _$$"@ + case_class_name(n, c.case_name) + "ImplCopyWith<"@ + impl_class_name(n, c.case_name) + "> get copyWith =>\n"@ + "      __$$"@ + case_class_name(n, c.case_name), o19 + "  }\n\n"@ + "  @override\n  bool operator ==(Object other) {\n    return identical(this, other) ||\n"@ + "        (other.runtimeType == runtimeType && other is "@ + impl_class_name(n, c.case_name) + ");\n"@ + "  }\n\n"@ + "  @JsonKey(includeFromJson: false, includeToJson: false)\n  @override\n  int get hashCode => runtimeType.hashCode;\n\n"@ + "  @JsonKey(includeFromJson: false, includeToJson: false)\n  @override\n"@ + "  _$$"@ + case_class_name(n, c.case_name) + "ImplCopyWith<"@ + impl_class_name(n, c.case_name) + "> get copyWith =>\n"@ + "      __$$"@ + case_class_name(n, c.case_name) + "ImplCopyWithImpl<"@);
    lemma_keeps_add(o19 + "  }\n\n"@ + "  @override\n  bool operator ==(Object other) {\n    return identical(this, other) ||\n"@ + "        (other.runtimeType == runtimeType && other is "@ + impl_class_name(n, c.case_name) + ");\n"@ + "  }\n\n"@ + "  @JsonKey(includeFromJson: false, includeToJson: false)\n  @override\n  int get hashCode => runtimeType.hashCode;\n\n"@ + "  @JsonKey(includeFromJson: false, includeToJson: false)\n  @override\n"@ + "  _$$"@ + case_class_name(n, c.case_name) + "ImplCopyWith<"@ + impl_class_name(n, c.case_name) + "> get copyWith =>\n"@ + "      __$$"@ + case_class_name(n, c.case_name) + "ImplCopyWithImpl<"@, impl_class_name(n, c.case_name));
    lemma_keeps_trans(o, o19 + "  }\n\n"@ + "  @override\n  bool operator ==(Object other) {\n    return identical(this, other) ||\n"@ + "        (other.runtimeType == runtimeType && other is "@ + impl_class_name(n, c.case_name) + ");\n"@ + "  }\n\n"@ + "  @JsonKey(includeFromJson: false, includeToJson: false)\n  @override\n  int get hashCode => runtimeType.hashCode;\n\n"@ + "  @JsonKey(includeFromJson: false, includeToJson: false)\n  @override\n"@ + "  _$$"@ + case_class_name(n, c.case_name) + "ImplCopyWith<"@ + impl_class_name(n, c.case_name) + "> get copyWith =>\n"@ + "      __$$"@ + case_class_name(n, c.case_name) + "ImplCopyWithImpl<"@, o19 + "  }\n\n"@ + "  @override\n  bool operator ==(Object other) {\n    return identical(this, other) ||\n"@ + "        (other.runtimeType == runtimeType && other is "@ + impl_class_name(n, c.case_name) + ");\n"@ + "  }\n\n"@ + "  @JsonKey(includeFromJson: false, includeToJson: false)\n  @override\n  int get hashCode => runtimeType.hashCode;\n\n"@ + "  @JsonKey(includeFromJson: false, includeToJson: false)\n  @override\n"@ + "  _$$"@ + case_class_name(n, c.case_name) + "ImplCopyWith<"@ + impl_class_name(n, c.case_name) + "> get copyWith =>\n"@ + "      __$$"@ + case_class_name(n, c.case_name) + "ImplCopyWithImpl<"@ + impl_class_name(n, c.case_name));
    lemma_keeps_add(o19 + "  }\n\n"@ + "  @override\n  bool operator ==(Object other) {\n    return identical(this, other) ||\n"@ + "        (other.runtimeType == runtimeType && other is "@ + impl_class_name(n, c.case_name) + ");\n"@ + "  }\n\n"@ + "  @JsonKey(includeFromJson: false, includeToJson: false)\n  @override\n  int get hashCode => runtimeType.hashCode;\n\n"@ + "  @JsonKey(includeFromJson: false, includeToJson: false)\n  @override\n"@ + "  _$$"@ + case_class_name(n, c.case_name) + "ImplCopyWith<"@ + impl_class_name(n, c.case_name) + "> get copyWith =>\n"@ + "      __$$"@ + case_class_name(n, c.case_name) + "ImplCopyWithImpl<"@ + impl_class_name(n, c.case_name), ">(this, _$identity);\n\n"@);
    lemma_keeps_trans(o, o19 + "  }\n\n"@ + "  @override\n  bool operator ==(Object other) {\n    return identical(this, other) ||\n"@ + "        (other.runtimeType == runtimeType && other is "@ + impl_class_name(n, c.case_name) + ");\n"@ + "  }\n\n"@ + "  @JsonKey(includeFromJson: false, includeToJson: false)\n  @override\n  int get hashCode => runtimeType.hashCode;\n\n"@ + "  @JsonKey(includeFromJson: false, includeToJson: false)\n  @override\n"@ + "  _$$"@ + case_class_name(n, c.case_name) + "ImplCopyWith<"@ + impl_class_name(n, c.case_name) + "> get copyWith =>\n"@ + "      __$$"@ + case_class_name(n, c.case_name) + "ImplCopyWithImpl<"@ + impl_class_name(n, c.case_name), o19 + "  }\n\n"@ + "  @override\n  bool operator ==(Object other) {\n    return identical(this, other) ||\n"@ + "        (other.runtimeType == runtimeType && other is "@ + impl_class_name(n, c.case_name) + ");\n"@ + "  }\n\n"@ + "  @JsonKey(includeFromJson: false, includeToJson: false)\n  @override\n  int get hashCode => runtimeType.hashCode;\n\n"@ + "  @JsonKey(includeFromJson: false, includeToJson: false)\n  @override\n"@ + "  _$$"@ + case_class_name(n, c.case_name) + "ImplCopyWith<"@ + impl_class_name(n, c.case_name) + "> get copyWith =>\n"@ + "      __$$"@ + case_class_name(n, c.case_name) + "ImplCopyWithImpl<"@ + impl_class_name(n, c.case_name) + ">(this, _$identity);\n\n"@);
    lemma_keeps_add(o19 + "  }\n\n"@ + "  @override\n  bool operator ==(Object other) {\n    return identical(this, other) ||\n"@ + "        (other.runtimeType == runtimeType && other is "@ + impl_class_name(n, c.case_name) + ");\n"@ + "  }\n\n"@ + "  @JsonKey(includeFromJson: false, includeToJson: false)\n  @override\n  int get hashCode => runtimeType.hashCode;\n\n"@ + "  @JsonKey(includeFromJson: false, includeToJson: false)\n  @override\n"@ + "  _$$"@ + case_class_name(n, c.case_name) + "ImplCopyWith<"@ + impl_class_name(n, c.case_name) + "> get copyWith =>\n"@ + "      __$$"@ + case_class_name(n, c.case_name) + "ImplCopyWithImpl<"@ + impl_class_name(n, c.case_name) + ">(this, _$identity);\n\n"@, "  @override\n  @optionalTypeArgs\n  TResult when<TResult extends Object?>({\n"@);
    lemma_keeps_trans(o, o19 + "  }\n\n"@ + "  @override\n  bool operator ==(Object other) {\n    return identical(this, other) ||\n"@ + "        (other.runtimeType == runtimeType && other is "@ + impl_class_name(n, c.case_name) + ");\n"@ + "  }\n\n"@ + "  @JsonKey(includeFromJson: false, includeToJson: false)\n  @override\n  int get hashCode => runtimeType.hashCode;\n\n"@ + "  @JsonKey(includeFromJson: false, includeToJson: false)\n  @override\n"@ + "  _$$"@ + case_class_name(n, c.case_name) + "ImplCopyWith<"@ + impl_class_name(n, c.case_name) + "> get copyWith =>\n"@ + "      __$$"@ + case_class_name(n, c.case_name) + "ImplCopyWithImpl<"@ + impl_class_name(n, c.case_name) + ">(this, _$identity);\n\n"@, o19 + "  }\n\n"@ + "  @override\n  bool operator ==(Object other) {\n    return identical(this, other) ||\n"@ + "        (other.runtimeType == runtimeType && other is "@ + impl_class_name(n, c.case_name) + ");\n"@ + "  }\n\n"@ + "  @JsonKey(includeFromJson: false, includeToJson: false)\n  @override\n  int get hashCode => runtimeType.hashCode;\n\n"@ + "  @JsonKey(includeFromJson: false, includeToJson: false)\n  @override\n"@ + "  _$$"@ + case_class_name(n, c.case_name) + "ImplCopyWith<"@ + impl_class_name(n, c.case_name) + "> get copyWith =>\n"@ + "      __$$"@ + case_class_name(n, c.case_name) + "ImplCopyWithImpl<"@ + impl_class_name(n, c.case_name) + ">(this, _$identity);\n\n"@ + "  @override\n  @optionalTypeArgs\n  TResult when<TResult extends Object?>({\n"@);
    lemma_fold_put_keeps(o19 + "  }\n\n"@ + "  @override\n  bool operator ==(Object other) {\n    return identical(this, other) ||\n"@ + "        (other.runtimeType == runtimeType && other is "@ + impl_class_name(n, c.case_name) + ");\n"@ + "  }\n\n"@ + "  @JsonKey(includeFromJson: false, includeToJson: false)\n  @override\n  int get hashCode => runtimeType.hashCode;\n\n"@ + "  @JsonKey(includeFromJson: false, includeToJson: false)\n  @override\n"@ + "  _$$"@ + case_class_name(n, c.case_name) + "ImplCopyWith<"@ + impl_class_name(n, c.case_name) + "> get copyWith =>\n"@ + "      __$$"@ + case_class_name(n, c.case_name) + "ImplCopyWithImpl<"@ + impl_class_name(n, c.case_name) + ">(this, _$identity);\n\n"@ + "  @override\n  @optionalTypeArgs\n  TResult when<TResult extends Object?>({\n"@, cs, case_piece_fn(n, c.case_name, CasePiece::WhenLine));
    lemma_keeps_trans(o, o19 + "  }\n\n"@ + "  @override\n  bool operator ==(Object other) {\n    return identical(this, other) ||\n"@ + "        (other.runtimeType == runtimeType && other is "@ + impl_class_name(n, c.case_name) + ");\n"@ + "  }\n\n"@ + "  @JsonKey(includeFromJson: false, includeToJson: false)\n  @override\n  int get hashCode => runtimeType.hashCode;\n\n"@ + "  @JsonKey(includeFromJson: false, includeToJson: false)\n  @override\n"@ + "  _$$"@ + case_class_name(n, c.case_name) + "ImplCopyWith<"@ + impl_class_name(n, c.case_name) + "> get copyWith =>\n"@ + "      __$$"@ + case_class_name(n, c.case_name) + "ImplCopyWithImpl<"@ + impl_class_name(n, c.case_name) + ">(this, _$identity);\n\n"@ + "  @override\n  @optionalTypeArgs\n  TResult when<TResult extends Object?>({\n"@, fold_put(o19 + "  }\n\n"@ + "  @override\n  bool operator ==(Object other) {\n    return identical(this, other) ||\n"@ + "        (other.runtimeType == runtimeType && other is "@ + impl_class_name(n, c.case_name) + ");\n"@ + "  }\n\n"@ + "  @JsonKey(includeFromJson: false, includeToJson: false)\n  @override\n  int get hashCode => runtimeType.hashCode;\n\n"@ + "  @JsonKey(includeFromJson: false, includeToJson: false)\n  @override\n"@ + "  _$$"@ + case_class_name(n, c.case_name) + "ImplCopyWith<"@ + impl_class_name(n, c.case_name) + "> get copyWith =>\n"@ + "      __$$"@ + case_class_name(n, c.case_name) + "ImplCopyWithImpl<"@ + impl_class_name(n, c.case_name) + ">(this, _$identity);\n\n"@ + "  @override\n  @optionalTypeArgs\n  TResult when<TResult extends Object?>({\n"@, cs, case_piece_fn(n, c.case_name, CasePiece::WhenLine)));
    let o20 = fold_put(o19 + "  }\n\n"@ + "  @override\n  bool operator ==(Object other) {\n    return identical(this, other) ||\n"@ + "        (other.runtimeType == runtimeType && other is "@ + impl_class_name(n, c.case_name) + ");\n"@ + "  }\n\n"@ + "  @JsonKey(includeFromJson: false, includeToJson: false)\n  @override\n  int get hashCode => runtimeType.hashCode;\n\n"@ + "  @JsonKey(includeFromJson: false, includeToJson: false)\n  @override\n"@ + "  _$$"@ + case_class_name(n, c.case_name) + "ImplCopyWith<"@ + impl_class_name(n, c.case_name) + "> get copyWith =>\n"@ + "      __$$"@ + case_class_name(n, c.case_name) + "ImplCopyWithImpl<"@ + impl_class_name(n, c.case_name) + ">(this, _$identity);\n\n"@ + "  @override\n  @optionalTypeArgs\n  TResult when<TResult extends Object?>({\n"@, cs, case_piece_fn(n, c.case_name, CasePiece::WhenLine));
    assert(keeps(o, o20));
    lemma_keeps_add(o20, "  }) {\n"@);
    lemma_keeps_trans(o, o20, o20 + "  }) {\n"@);
    lemma_keeps_add(o20 + "  }) {\n"@, "    return "@);
    lemma_keeps_trans(o, o20 + "  }) {\n"@, o20 + "  }) {\n"@ + "    return "@);
    lemma_keeps_add(o20 + "  }) {\n"@ + "    return "@, c.case_name);
    lemma_keeps_trans(o, o20 + "  }) {\n"@ + "    return "@, o20 + "  }) {\n"@ + "    return "@ + c.case_name);
    lemma_keeps_add(o20 + "  }) {\n"@ + "    return "@ + c.case_name, "("@);
    lemma_keeps_trans(o, o20 + "  }) {\n"@ + "    return "@ + c.case_name, o20 + "  }) {\n"@ + "    return "@ + c.case_name + "("@);
    lemma_joined_keeps(o20 + "  }) {\n"@ + "    return "@ + c.case_name + "("@, c.fields, FieldPiece::NameFirst, FieldPiece::NameNext);
    lemma_keeps_trans(o, o20 + "  }) {\n"@ + "    return "@ + c.case_name + "("@, put_joined(o20 + "  }) {\n"@ + "    return "@ + c.case_name + "("@, c.fields, FieldPiece::NameFirst, FieldPiece::NameNext));
    let o21 = put_joined(o20 + "  }) {\n"@ + "    return "@ + c.case_name + "("@, c.fields, FieldPiece::NameFirst, FieldPiece::NameNext);
    assert(keeps(o, o21));
    lemma_keeps_add(o21, ");\n  }\n\n"@);
    lemma_keeps_trans(o, o21, o21 + ");\n  }\n\n"@);
    lemma_keeps_add(o21 + ");\n  }\n\n"@, "  @override\n  @optionalTypeArgs\n  TResult? whenOrNull<TResult extends Object?>({\n"@);
    lemma_keeps_trans(o, o21 + ");\n  }\n\n"@, o21 + ");\n  }\n\n"@ + "  @override\n  @optionalTypeArgs\n  TResult? whenOrNull<TResult extends Object?>({\n"@);
    lemma_fold_put_keeps(o21 + ");\n  }\n\n"@ + "  @override\n  @optionalTypeArgs\n  TResult? whenOrNull<TResult extends Object?>({\n"@, cs, case_piece_fn(n, c.case_name, CasePiece::WhenOrNullLine));
    lemma_keeps_trans(o, o21 + ");\n  }\n\n"@ + "  @override\n  @optionalTypeArgs\n  TResult? whenOrNull<TResult extends Object?>({\n"@, fold_put(o21 + ");\n  }\n\n"@ + "  @override\n  @optionalTypeArgs\n  TResult? whenOrNull<TResult extends Object?>({\n"@, cs, case_piece_fn(n, c.case_name, CasePiece::WhenOrNullLine)));
    let o22 = fold_put(o21 + ");\n  }\n\n"@ + "  @override\n  @optionalTypeArgs\n  TResult? whenOrNull<TResult extends Object?>({\n"@, cs, case_piece_fn(n, c.case_name, CasePiece::WhenOrNullLine));
    assert(keeps(o, o22));
    lemma_keeps_add(o22, "  }) {\n"@);
    lemma_keeps_trans(o, o22, o22 + "  }) {\n"@);
    lemma_keeps_add(o22 + "  }) {\n"@, "    return "@);
    lemma_keeps_trans(o, o22 + "  }) {\n"@, o22 + "  }) {\n"@ + "    return "@);
    lemma_keeps_add(o22 + "  }) {\n"@ + "    return "@, c.case_name);
    lemma_keeps_trans(o, o22 + "  }) {\n"@ + "    return "@, o22 + "  }) {\n"@ + "    return "@ + c.case_name);
    lemma_keeps_add(o22 + "  }) {\n"@ + "    return "@ + c.case_name, "?.call("@);
    lemma_keeps_trans(o, o22 + "  }) {\n"@ + "    return "@ + c.case_name, o22 + "  }) {\n"@ + "    return "@ + c.case_name + "?.call("@);
    lemma_joined_keeps(o22 + "  }) {\n"@ + "    return "@ + c.case_name + "?.call("@, c.fields, FieldPiece::NameFirst, FieldPiece::NameNext);
    lemma_keeps_trans(o, o22 + "  }) {\n"@ + "    return "@ + c.case_name + "?.call("@, put_joined(o22 + "  }) {\n"@ + "    return "@ + c.case_name + "?.call("@, c.fields, FieldPiece::NameFirst, FieldPiece::NameNext));
    let o23 = put_joined(o22 + "  }) {\n"@ + "    return "@ + c.case_name + "?.call("@, c.fields, FieldPiece::NameFirst, FieldPiece::NameNext);
    assert(keeps(o, o23));
    lemma_keeps_add(o23, ");\n  }\n\n"@);
    lemma_keeps_trans(o, o23, o23 + ");\n  }\n\n"@);
    lemma_keeps_add(o23 + ");\n  }\n\n"@, "  @override\n  @optionalTypeArgs\n  TResult maybeWhen<TResult extends Object?>({\n"@);
    lemma_keeps_trans(o, o23 + ");\n  }\n\n"@, o23 + ");\n  }\n\n"@ + "  @override\n  @optionalTypeArgs\n  TResult maybeWhen<TResult extends Object?>({\n"@);
    lemma_fold_put_keeps(o23 + ");\n  }\n\n"@ + "  @override\n  @optionalTypeArgs\n  TResult maybeWhen<TResult extends Object?>({\n"@, cs, case_piece_fn(n, c.case_name, CasePiece::MaybeWhenLine));
    lemma_keeps_trans(o, o23 + ");\n  }\n\n"@ + "  @override\n  @optionalTypeArgs\n  TResult maybeWhen<TResult extends Object?>({\n"@, fold_put(o23 + ");\n  }\n\n"@ + "  @override\n  @optionalTypeArgs\n  TResult maybeWhen<TResult extends Object?>({\n"@, cs, case_piece_fn(n, c.case_name, CasePiece::MaybeWhenLine)));
    let o24 = fold_put(o23 + ");\n  }\n\n"@ + "  @override\n  @optionalTypeArgs\n  TResult maybeWhen<TResult extends Object?>({\n"@, cs, case_piece_fn(n, c.case_name, CasePiece::MaybeWhenLine));
    assert(keeps(o, o24));
    lemma_keeps_add(o24, "    required TResult orElse(),\n  }) {\n"@);
    lemma_keeps_trans(o, o24, o24 + "    required TResult orElse(),\n  }) {\n"@);
    lemma_keeps_add(o24 + "    required TResult orElse(),\n  }) {\n"@, "    if ("@);
    lemma_keeps_trans(o, o24 + "    required TResult orElse(),\n  }) {\n"@, o24 + "    required TResult orElse(),\n  }) {\n"@ + "    if ("@);
    lemma_keeps_add(o24 + "    required TResult orElse(),\n  }) {\n"@ + "    if ("@, c.case_name);
    lemma_keeps_trans(o, o24 + "    required TResult orElse(),\n  }) {\n"@ + "    if ("@, o24 + "    required TResult orElse(),\n  }) {\n"@ + "    if ("@ + c.case_name);
    lemma_keeps_add(o24 + "    required TResult orElse(),\n  }) {\n"@ + "    if ("@ + c.case_name, " != null) {\n"@);
    lemma_keeps_trans(o, o24 + "    required TResult orElse(),\n  }) {\n"@ + "    if ("@ + c.case_name, o24 + "    required TResult orElse(),\n  }) {\n"@ + "    if ("@ + c.case_name + " != null) {\n"@);
    lemma_keeps_add(o24 + "    required TResult orElse(),\n  }) {\n"@ + "    if ("@ + c.case_name + " != null) {\n"@, "      return "@);
    lemma_keeps_trans(o, o24 + "    required TResult orElse(),\n  }) {\n"@ + "    if ("@ + c.case_name + " != null) {\n"@, o24 + "    required TResult orElse(),\n  }) {\n"@ + "    if ("@ + c.case_name + " != null) {\n"@ + "      return "@);
    lemma_keeps_add(o24 + "    required TResult orElse(),\n  }) {\n"@ + "    if ("@ + c.case_name + " != null) {\n"@ + "      return "@, c.case_name);
    lemma_keeps_trans(o, o24 + "    required TResult orElse(),\n  }) {\n"@ + "    if ("@ + c.case_name + " != null) {\n"@ + "      return "@, o24 + "    required TResult orElse(),\n  }) {\n"@ + "    if ("@ + c.case_name + " != null) {\n"@ + "      return "@ + c.case_name);
    lemma_keeps_add(o24 + "    required TResult orElse(),\n  }) {\n"@ + "    if ("@ + c.case_name + " != null) {\n"@ + "      return "@ + c.case_name, "("@);
    lemma_keeps_trans(o, o24 + "    required TResult orElse(),\n  }) {\n"@ + "    if ("@ + c.case_name + " != null) {\n"@ + "      return "@ + c.case_name, o24 + "    required TResult orElse(),\n  }) {\n"@ + "    if ("@ + c.case_name + " != null) {\n"@ + "      return "@ + c.case_name + "("@);
    lemma_joined_keeps(o24 + "    required TResult orElse(),\n  }) {\n"@ + "    if ("@ + c.case_name + " != null) {\n"@ + "      return "@ + c.case_name + "("@, c.fields, FieldPiece::NameFirst, FieldPiece::NameNext);
    lemma_keeps_trans(o, o24 + "    required TResult orElse(),\n  }) {\n"@ + "    if ("@ + c.case_name + " != null) {\n"@ + "      return "@ + c.case_name + "("@, put_joined(o24 + "    required TResult orElse(),\n  }) {\n"@ + "    if ("@ + c.case_name + " != null) {\n"@ + "      return "@ + c.case_name + "("@, c.fields, FieldPiece::NameFirst, FieldPiece::NameNext));
    let o25 = put_joined(o24 + "    required TResult orElse(),\n  }) {\n"@ + "    if ("@ + c.case_name + " != null) {\n"@ + "      return "@ + c.case_name + "("@, c.fields, FieldPiece::NameFirst, FieldPiece::NameNext);
    assert(keeps(o, o25));
    lemma_keeps_add(o25, ");\n    }\n    return orElse();\n  }\n\n"@);
    lemma_keeps_trans(o, o25, o25 + ");\n    }\n    return orElse();\n  }\n\n"@);
    lemma_keeps_add(o25 + ");\n    }\n    return orElse();\n  }\n\n"@, "  @override\n  @optionalTypeArgs\n  TResult map<TResult extends Object?>({\n"@);
    lemma_keeps_trans(o, o25 + ");\n    }\n    return orElse();\n  }\n\n"@, o25 + ");\n    }\n    return orElse();\n  }\n\n"@ + "  @override\n  @optionalTypeArgs\n  TResult map<TResult extends Object?>({\n"@);
    lemma_fold_put_keeps(o25 + ");\n    }\n    return orElse();\n  }\n\n"@ + "  @override\n  @optionalTypeArgs\n  TResult map<TResult extends Object?>({\n"@, cs, case_piece_fn(n, c.case_name, CasePiece::MapImplLine));
    lemma_keeps_trans(o, o25 + ");\n    }\n    return orElse();\n  }\n\n"@ + "  @override\n  @optionalTypeArgs\n  TResult map<TResult extends Object?>({\n"@, fold_put(o25 + ");\n    }\n    return orElse();\n  }\n\n"@ + "  @override\n  @optionalTypeArgs\n  TResult map<TResult extends Object?>({\n"@, cs, case_piece_fn(n, c.case_name, CasePiece::MapImplLine)));
    let o26 = fold_put(o25 + ");\n    }\n    return orElse();\n  }\n\n"@ + "  @override\n  @optionalTypeArgs\n  TResult map<TResult extends Object?>({\n"@, cs, case_piece_fn(n, c.case_name, CasePiece::MapImplLine));
    assert(keeps(o, o26));
    lemma_keeps_add(o26, "  }) {\n"@);
    lemma_keeps_trans(o, o26, o26 + "  }) {\n"@);
    lemma_keeps_add(o26 + "  }) {\n"@, "    return "@);
    lemma_keeps_trans(o, o26 + "  }) {\n"@, o26 + "  }) {\n"@ + "    return "@);
    lemma_keeps_add(o26 + "  }) {\n"@ + "    return "@, c.case_name);
    lemma_keeps_trans(o, o26 + "  }) {\n"@ + "    return "@, o26 + "  }) {\n"@ + "    return "@ + c.case_name);
    lemma_keeps_add(o26 + "  }) {\n"@ + "    return "@ + c.case_name, "(this);\n"@);
    lemma_keeps_trans(o, o26 + "  }) {\n"@ + "    return "@ + c.case_name, o26 + "  }) {\n"@ + "    return "@ + c.case_name + "(this);\n"@);
    lemma_keeps_add(o26 + "  }) {\n"@ + "    return "@ + c.case_name + "(this);\n"@, "  }\n\n"@);
    lemma_keeps_trans(o, o26 + "  }) {\n"@ + "    return "@ + c.case_name + "(this);\n"@, o26 + "  }) {\n"@ + "    return "@ + c.case_name + "(this);\n"@ + "  }\n\n"@);
    lemma_keeps_add(o26 + "  }) {\n"@ + "    return "@ + c.case_name + "(this);\n"@ + "  }\n\n"@, "  @override\n  @optionalTypeArgs\n  TResult? mapOrNull<TResult extends Object?>({\n"@);
    lemma_keeps_trans(o, o26 + "  }) {\n"@ + "    return "@ + c.case_name + "(this);\n"@ + "  }\n\n"@, o26 + "  }) {\n"@ + "    return "@ + c.case_name + "(this);\n"@ + "  }\n\n"@ + "  @override\n  @optionalTypeArgs\n  TResult? mapOrNull<TResult extends Object?>({\n"@);
    lemma_fold_put_keeps(o26 + "  }) {\n"@ + "    return "@ + c.case_name + "(this);\n"@ + "  }\n\n"@ + "  @override\n  @optionalTypeArgs\n  TResult? mapOrNull<TResult extends Object?>({\n"@, cs, case_piece_fn(n, c.case_name, CasePiece::MapOrNullImplLine));
    lemma_keeps_trans(o, o26 + "  }) {\n"@ + "    return "@ + c.case_name + "(this);\n"@ + "  }\n\n"@ + "  @override\n  @optionalTypeArgs\n  TResult? mapOrNull<TResult extends Object?>({\n"@, fold_put(o26 + "  }) {\n"@ + "    return "@ + c.case_name + "(this);\n"@ + "  }\n\n"@ + "  @override\n  @optionalTypeArgs\n  TResult? mapOrNull<TResult extends Object?>({\n"@, cs, case_piece_fn(n, c.case_name, CasePiece::MapOrNullImplLine)));
    let o27 = fold_put(o26 + "  }) {\n"@ + "    return "@ + c.case_name + "(this);\n"@ + "  }\n\n"@ + "  @override\n  @optionalTypeArgs\n  TResult? mapOrNull<TResult extends Object?>({\n"@, cs, case_piece_fn(n, c.case_name, CasePiece::MapOrNullImplLine));
    assert(keeps(o, o27));
    lemma_keeps_add(o27, "  }) {\n"@);
    lemma_keeps_trans(o, o27, o27 + "  }) {\n"@);
    lemma_keeps_add(o27 + "  }) {\n"@, "    return "@);
    lemma_keeps_trans(o, o27 + "  }) {\n"@, o27 + "  }) {\n"@ + "    return "@);
    lemma_keeps_add(o27 + "  }) {\n"@ + "    return "@, c.case_name);
    lemma_keeps_trans(o, o27 + "  }) {\n"@ + "    return "@, o27 + "  }) {\n"@ + "    return "@ + c.case_name);
    lemma_keeps_add(o27 + "  }) {\n"@ + "    return "@ + c.case_name, "?.call(this);\n"@);
    lemma_keeps_trans(o, o27 + "  }) {\n"@ + "    return "@ + c.case_name, o27 + "  }) {\n"@ + "    return "@ + c.case_name + "?.call(this);\n"@);
    lemma_keeps_add(o27 + "  }) {\n"@ + "    return "@ + c.case_name + "?.call(this);\n"@, "  }\n\n"@);
    lemma_keeps_trans(o, o27 + "  }) {\n"@ + "    return "@ + c.case_name + "?.call(this);\n"@, o27 + "  }) {\n"@ + "    return "@ + c.case_name + "?.call(this);\n"@ + "  }\n\n"@);
    lemma_keeps_add(o27 + "  }) {\n"@ + "    return "@ + c.case_name + "?.call(this);\n"@ + "  }\n\n"@, "  @override\n  @optionalTypeArgs\n  TResult maybeMap<TResult extends Object?>({\n"@);
    lemma_keeps_trans(o, o27 + "  }) {\n"@ + "    return "@ + c.case_name + "?.call(this);\n"@ + "  }\n\n"@, o27 + "  }) {\n"@ + "    return "@ + c.case_name + "?.call(this);\n"@ + "  }\n\n"@ + "  @override\n  @optionalTypeArgs\n  TResult maybeMap<TResult extends Object?>({\n"@);
    lemma_fold_put_keeps(o27 + "  }) {\n"@ + "    return "@ + c.case_name + "?.call(this);\n"@ + "  }\n\n"@ + "  @override\n  @optionalTypeArgs\n  TResult maybeMap<TResult extends Object?>({\n"@, cs, case_piece_fn(n, c.case_name, CasePiece::MaybeMapImplLine));
    lemma_keeps_trans(o, o27 + "  }) {\n"@ + "    return "@ + c.case_name + "?.call(this);\n"@ + "  }\n\n"@ + "  @override\n  @optionalTypeArgs\n  TResult maybeMap<TResult extends Object?>({\n"@, fold_put(o27 + "  }) {\n"@ + "    return "@ + c.case_name + "?.call(this);\n"@ + "  }\n\n"@ + "  @override\n  @optionalTypeArgs\n  TResult maybeMap<TResult extends Object?>({\n"@, cs, case_piece_fn(n, c.case_name, CasePiece::MaybeMapImplLine)));
    let o28 = fold_put(o27 + "  }) {\n"@ + "    return "@ + c.case_name + "?.call(this);\n"@ + "  }\n\n"@ + "  @override\n  @optionalTypeArgs\n  TResult maybeMap<TResult extends Object?>({\n"@, cs, case_piece_fn(n, c.case_name, CasePiece::MaybeMapImplLine));
    assert(keeps(o, o28));
    lemma_keeps_add(o28, "    required TResult orElse(),\n  }) {\n"@);
    lemma_keeps_trans(o, o28, o28 + "    required TResult orElse(),\n  }) {\n"@);
    lemma_keeps_add(o28 + "    required TResult orElse(),\n  }) {\n"@, "    if ("@);
    lemma_keeps_trans(o, o28 + "    required TResult orElse(),\n  }) {\n"@, o28 + "    required TResult orElse(),\n  }) {\n"@ + "    if ("@);
    lemma_keeps_add(o28 + "    required TResult orElse(),\n  }) {\n"@ + "    if ("@, c.case_name);
    lemma_keeps_trans(o, o28 + "    required TResult orElse(),\n  }) {\n"@ + "    if ("@, o28 + "    required TResult orElse(),\n  }) {\n"@ + "    if ("@ + c.case_name);
    lemma_keeps_add(o28 + "    required TResult orElse(),\n  }) {\n"@ + "    if ("@ + c.case_name, " != null) {\n"@);
    lemma_keeps_trans(o, o28 + "    required TResult orElse(),\n  }) {\n"@ + "    if ("@ + c.case_name, o28 + "    required TResult orElse(),\n  }) {\n"@ + "    if ("@ + c.case_name + " != null) {\n"@);
    lemma_keeps_add(o28 + "    required TResult orElse(),\n  }) {\n"@ + "    if ("@ + c.case_name + " != null) {\n"@, "      return "@);
    lemma_keeps_trans(o, o28 + "    required TResult orElse(),\n  }) {\n"@ + "    if ("@ + c.case_name + " != null) {\n"@, o28 + "    required TResult orElse(),\n  }) {\n"@ + "    if ("@ + c.case_name + " != null) {\n"@ + "      return "@);
    lemma_keeps_add(o28 + "    required TResult orElse(),\n  }) {\n"@ + "    if ("@ + c.case_name + " != null) {\n"@ + "      return "@, c.case_name);
    lemma_keeps_trans(o, o28 + "    required TResult orElse(),\n  }) {\n"@ + "    if ("@ + c.case_name + " != null) {\n"@ + "      return "@, o28 + "    required TResult orElse(),\n  }) {\n"@ + "    if ("@ + c.case_name + " != null) {\n"@ + "      return "@ + c.case_name);
    lemma_keeps_add(o28 + "    required TResult orElse(),\n  }) {\n"@ + "    if ("@ + c.case_name + " != null) {\n"@ + "      return "@ + c.case_name, "(this);\n"@);
    lemma_keeps_trans(o, o28 + "    required TResult orElse(),\n  }) {\n"@ + "    if ("@ + c.case_name + " != null) {\n"@ + "      return "@ + c.case_name, o28 + "    required TResult orElse(),\n  }) {\n"@ + "    if ("@ + c.case_name + " != null) {\n"@ + "      return "@ + c.case_name + "(this);\n"@);
    lemma_keeps_add(o28 + "    required TResult orElse(),\n  }) {\n"@ + "    if ("@ + c.case_name + " != null) {\n"@ + "      return "@ + c.case_name + "(this);\n"@, "    }\n    return orElse();\n  }\n\n"@);
    lemma_keeps_trans(o, o28 + "    required TResult orElse(),\n  }) {\n"@ + "    if ("@ + c.case_name + " != null) {\n"@ + "      return "@ + c.case_name + "(this);\n"@, o28 + "    required TResult orElse(),\n  }) {\n"@ + "    if ("@ + c.case_name + " != null) {\n"@ + "      return "@ + c.case_name + "(this);\n"@ + "    }\n    return orElse();\n  }\n\n"@);
    lemma_keeps_add(o28 + "    required TResult orElse(),\n  }) {\n"@ + "    if ("@ + c.case_name + " != null) {\n"@ + "      return "@ + c.case_name + "(this);\n"@ + "    }\n    return orElse();\n  }\n\n"@, "  @override\n  Map<String, dynamic> toJson() {\n    return <String, dynamic>{\n"@);
    lemma_keeps_trans(o, o28 + "    required TResult orElse(),\n  }) {\n"@ + "    if ("@ + c.case_name + " != null) {\n"@ + "      return "@ + c.case_name + "(this);\n"@ + "    }\n    return orElse();\n  }\n\n"@, o28 + "    required TResult orElse(),\n  }) {\n"@ + "    if ("@ + c.case_name + " != null) {\n"@ + "      return "@ + c.case_name + "(this);\n"@ + "    }\n    return orElse();\n  }\n\n"@ + "  @override\n  Map<String, dynamic> toJson() {\n    return <String, dynamic>{\n"@);
    lemma_keeps_add(o28 + "    required TResult orElse(),\n  }) {\n"@ + "    if ("@ + c.case_name + " != null) {\n"@ + "      return "@ + c.case_name + "(this);\n"@ + "    }\n    return orElse();\n  }\n\n"@ + "  @override\n  Map<String, dynamic> toJson() {\n    return <String, dynamic>{\n"@, "      'type': '"@);
    lemma_keeps_trans(o, o28 + "    required TResult orElse(),\n  }) {\n"@ + "    if ("@ + c.case_name + " != null) {\n"@ + "      return "@ + c.case_name + "(this);\n"@ + "    }\n    return orElse();\n  }\n\n"@ + "  @override\n  Map<String, dynamic> toJson() {\n    return <String, dynamic>{\n"@, o28 + "    required TResult orElse(),\n  }) {\n"@ + "    if ("@ + c.case_name + " != null) {\n"@ + "      return "@ + c.case_name + "(this);\n"@ + "    }\n    return orElse();\n  }\n\n"@ + "  @override\n  Map<String, dynamic> toJson() {\n    return <String, dynamic>{\n"@ + "      'type': '"@);
    lemma_keeps_add(o28 + "    required TResult orElse(),\n  }) {\n"@ + "    if ("@ + c.case_name + " != null) {\n"@ + "      return "@ + c.case_name + "(this);\n"@ + "    }\n    return orElse();\n  }\n\n"@ + "  @override\n  Map<String, dynamic> toJson() {\n    return <String, dynamic>{\n"@ + "      'type': '"@, c.case_name);
    lemma_keeps_trans(o, o28 + "    required TResult orElse(),\n  }) {\n"@ + "    if ("@ + c.case_name + " != null) {\n"@ + "      return "@ + c.case_name + "(this);\n"@ + "    }\n    return orElse();\n  }\n\n"@ + "  @override\n  Map<String, dynamic> toJson() {\n    return <String, dynamic>{\n"@ + "      'type': '"@, o28 + "    required TResult orElse(),\n  }) {\n"@ + "    if ("@ + c.case_name + " != null) {\n"@ + "      return "@ + c.case_name + "(this);\n"@ + "    }\n    return orElse();\n  }\n\n"@ + "  @override\n  Map<String, dynamic> toJson() {\n    return <String, dynamic>{\n"@ + "      'type': '"@ + c.case_name);
    lemma_keeps_add(o28 + "    required TResult orElse(),\n  }) {\n"@ + "    if ("@ + c.case_name + " != null) {\n"@ + "      return "@ + c.case_name + "(this);\n"@ + "    }\n    return orElse();\n  }\n\n"@ + "  @override\n  Map<String, dynamic> toJson() {\n    return <String, dynamic>{\n"@ + "      'type': '"@ + c.case_name, "',\n"@);
    lemma_keeps_trans(o, o28 + "    required TResult orElse(),\n  }) {\n"@ + "    if ("@ + c.case_name + " != null) {\n"@ + "      return "@ + c.case_name + "(this);\n"@ + "    }\n    return orElse();\n  }\n\n"@ + "  @override\n  Map<String, dynamic> toJson() {\n    return <String, dynamic>{\n"@ + "      'type': '"@ + c.case_name, o28 + "    required TResult orElse(),\n  }) {\n"@ + "    if ("@ + c.case_name + " != null) {\n"@ + "      return "@ + c.case_name + "(this);\n"@ + "    }\n    return orElse();\n  }\n\n"@ + "  @override\n  Map<String, dynamic> toJson() {\n    return <String, dynamic>{\n"@ + "      'type': '"@ + c.case_name + "',\n"@);
    lemma_fold_put_keeps(o28 + "    required TResult orElse(),\n  }) {\n"@ + "    if ("@ + c.case_name + " != null) {\n"@ + "      return "@ + c.case_name + "(this);\n"@ + "    }\n    return orElse();\n  }\n\n"@ + "  @override\n  Map<String, dynamic> toJson() {\n    return <String, dynamic>{\n"@ + "      'type': '"@ + c.case_name + "',\n"@, c.fields, field_piece_fn(FieldPiece::JsonEntry));
    lemma_keeps_trans(o, o28 + "    required TResult orElse(),\n  }) {\n"@ + "    if ("@ + c.case_name + " != null) {\n"@ + "      return "@ + c.case_name + "(this);\n"@ + "    }\n    return orElse();\n  }\n\n"@ + "  @override\n  Map<String, dynamic> toJson() {\n    return <String, dynamic>{\n"@ + "      'type': '"@ + c.case_name + "',\n"@, fold_put(o28 + "    required TResult orElse(),\n  }) {\n"@ + "    if ("@ + c.case_name + " != null) {\n"@ + "      return "@ + c.case_name + "(this);\n"@ + "    }\n    return orElse();\n  }\n\n"@ + "  @override\n  Map<String, dynamic> toJson() {\n    return <String, dynamic>{\n"@ + "      'type': '"@ + c.case_name + "',\n"@, c.fields, field_piece_fn(FieldPiece::JsonEntry)));
    let o29 = fold_put(o28 + "    required TResult orElse(),\n  }) {\n"@ + "    if ("@ + c.case_name + " != null) {\n"@ + "      return "@ + c.case_name + "(this);\n"@ + "    }\n    return orElse();\n  }\n\n"@ + "  @override\n  Map<String, dynamic> toJson() {\n    return <String, dynamic>{\n"@ + "      'type': '"@ + c.case_name + "',\n"@, c.fields, field_piece_fn(FieldPiece::JsonEntry));
    assert(keeps(o, o29));
    lemma_keeps_add(o29, "    };\n  }\n}\n\n"@);
    lemma_keeps_trans(o, o29, o29 + "    };\n  }\n}\n\n"@);
    lemma_keeps_add(o29 + "    };\n  }\n}\n\n"@, "/// @nodoc\n"@);
    lemma_keeps_trans(o, o29 + "    };\n  }\n}\n\n"@, o29 + "    };\n  }\n}\n\n"@ + "/// @nodoc\n"@);
    lemma_keeps_add(o29 + "    };\n  }\n}\n\n"@ + "/// @nodoc\n"@, "abstract class _$$"@);
    lemma_keeps_trans(o, o29 + "    };\n  }\n}\n\n"@ + "/// @nodoc\n"@, o29 + "    };\n  }\n}\n\n"@ + "/// @nodoc\n"@ + "abstract class _$$"@);
    lemma_keeps_add(o29 + "    };\n  }\n}\n\n"@ + "/// @nodoc\n"@ + "abstract class _$$"@, case_class_name(n, c.case_name));
    lemma_keeps_trans(o, o29 + "    };\n  }\n}\n\n"@ + "/// @nodoc\n"@ + "abstract class _$$"@, o29 + "    };\n  }\n}\n\n"@ + "/// @nodoc\n"@ + "abstract class _$$"@ + case_class_name(n, c.case_name));
    lemma_keeps_add(o29 + "    };\n  }\n}\n\n"@ + "/// @nodoc\n"@ + "abstract class _$$"@ + case_class_name(n, c.case_name), "ImplCopyWith<$Res> {\n"@);
    lemma_keeps_trans(o, o29 + "    };\n  }\n}\n\n"@ + "/// @nodoc\n"@ + "abstract class _$$"@ + case_class_name(n, c.case_name), o29 + "    };\n  }\n}\n\n"@ + "/// @nodoc\n"@ + "abstract class _$$"@ + case_class_name(n, c.case_name) + "ImplCopyWith<$Res> {\n"@);
    lemma_keeps_add(o29 + "    };\n  }\n}\n\n"@ + "/// @nodoc\n"@ + "abstract class _$$"@ + case_class_name(n, c.case_name) + "ImplCopyWith<$Res> {\n"@, "  factory _$$"@);
    lemma_keeps_trans(o, o29 + "    };\n  }\n}\n\n"@ + "/// @nodoc\n"@ + "abstract class _$$"@ + case_class_name(n, c.case_name) + "ImplCopyWith<$Res> {\n"@, o29 + "    };\n  }\n}\n\n"@ + "/// @nodoc\n"@ + "abstract class _$$"@ + case_class_name(n, c.case_name) + "ImplCopyWith<$Res> {\n"@ + "  factory _$$"@);
    lemma_keeps_add(o29 + "    };\n  }\n}\n\n"@ + "/// @nodoc\n"@ + "abstract class _$$"@ + case_class_name(n, c.case_name) + "ImplCopyWith<$Res> {\n"@ + "  factory _$$"@, case_class_name(n, c.case_name));
    lemma_keeps_trans(o, o29 + "    };\n  }\n}\n\n"@ + "/// @nodoc\n"@ + "abstract class _$$"@ + case_class_name(n, c.case_name) + "ImplCopyWith<$Res> {\n"@ + "  factory _$$"@, o29 + "    };\n  }\n}\n\n"@ + "/// @nodoc\n"@ + "abstract class _$$"@ + case_class_name(n, c.case_name) + "ImplCopyWith<$Res> {\n"@ + "  factory _$$"@ + case_class_name(n, c.case_name));
    lemma_keeps_add(o29 + "    };\n  }\n}\n\n"@ + "/// @nodoc\n"@ + "abstract class _$$"@ + case_class_name(n, c.case_name) + "ImplCopyWith<$Res> {\n"@ + "  factory _$$"@ + case_class_name(n, c.case_name), "ImplCopyWith("@);
    lemma_keeps_trans(o, o29 + "    };\n  }\n}\n\n"@ + "/// @nodoc\n"@ + "abstract class _$$"@ + case_class_name(n, c.case_name) + "ImplCopyWith<$Res> {\n"@ + "  factory _$$"@ + case_class_name(n, c.case_name), o29 + "    };\n  }\n}\n\n"@ + "/// @nodoc\n"@ + "abstract class _$$"@ + case_class_name(n, c.case_name) + "ImplCopyWith<$Res> {\n"@ + "  factory _$$"@ + case_class_name(n, c.case_name) + "ImplCopyWith("@);
    lemma_keeps_add(o29 + "    };\n  }\n}\n\n"@ + "/// @nodoc\n"@ + "abstract class _$$"@ + case_class_name(n, c.case_name) + "ImplCopyWith<$Res> {\n"@ + "  factory _$$"@ + case_class_name(n, c.case_name) + "ImplCopyWith("@, impl_class_name(n, c.case_name));
    lemma_keeps_trans(o, o29 + "    };\n  }\n}\n\n"@ + "/// @nodoc\n"@ + "abstract class _$$"@ + case_class_name(n, c.case_name) + "ImplCopyWith<$Res> {\n"@ + "  factory _$$"@ + case_class_name(n, c.case_name) + "ImplCopyWith("@, o29 + "    };\n  }\n}\n\n"@ + "/// @nodoc\n"@ + "abstract class _$$"@ + case_class_name(n, c.case_name) + "ImplCopyWith<$Res> {\n"@ + "  factory _$$"@ + case_class_name(n, c.case_name) + "ImplCopyWith("@ + impl_class_name(n, c.case_name));
    lemma_keeps_add(o29 + "    };\n  }\n}\n\n"@ + "/// @nodoc\n"@ + "abstract class _$$"@ + case_class_name(n, c.case_name) + "ImplCopyWith<$Res> {\n"@ + "  factory _$$"@ + case_class_name(n, c.case_name) + "ImplCopyWith("@ + impl_class_name(n, c.case_name), " value, $Res Function("@);
    lemma_keeps_trans(o, o29 + "    };\n  }\n}\n\n"@ + "/// @nodoc\n"@ + "abstract class _$$"@ + case_class_name(n, c.case_name) + "ImplCopyWith<$Res> {\n"@ + "  factory _$$"@ + case_class_name(n, c.case_name) + "ImplCopyWith("@ + impl_class_name(n, c.case_name), o29 + "    };\n  }\n}\n\n"@ + "/// @nodoc\n"@ + "abstract class _$$"@ + case_class_name(n, c.case_name) + "ImplCopyWith<$Res> {\n"@ + "  factory _$$"@ + case_class_name(n, c.case_name) + "ImplCopyWith("@ + impl_class_name(n, c.case_name) + " value, $Res Function("@);
    lemma_keeps_add(o29 + "    };\n  }\n}\n\n"@ + "/// @nodoc\n"@ + "abstract class _$$"@ + case_class_name(n, c.case_name) + "ImplCopyWith<$Res> {\n"@ + "  factory _$$"@ + case_class_name(n, c.case_name) + "ImplCopyWith("@ + impl_class_name(n, c.case_name) + " value, $Res Function("@, impl_class_name(n, c.case_name));
    lemma_keeps_trans(o, o29 + "    };\n  }\n}\n\n"@ + "/// @nodoc\n"@ + "abstract class _$$"@ + case_class_name(n, c.case_name) + "ImplCopyWith<$Res> {\n"@ + "  factory _$$"@ + case_class_name(n, c.case_name) + "ImplCopyWith("@ + impl_class_name(n, c.case_name) + " value, $Res Function("@, o29 + "    };\n  }\n}\n\n"@ + "/// @nodoc\n"@ + "abstract class _$$"@ + case_class_name(n, c.case_name) + "ImplCopyWith<$Res> {\n"@ + "  factory _$$"@ + case_class_name(n, c.case_name) + "ImplCopyWith("@ + impl_class_name(n, c.case_name) + " value, $Res Function("@ + impl_class_name(n, c.case_name));
    lemma_keeps_add(o29 + "    };\n  }\n}\n\n"@ + "/// @nodoc\n"@ + "abstract class _$$"@ + case_class_name(n, c.case_name) + "ImplCopyWith<$Res> {\n"@ + "  factory _$$"@ + case_class_name(n, c.case_name) + "ImplCopyWith("@ + impl_class_name(n, c.case_name) + " value, $Res Function("@ + impl_class_name(n, c.case_name), ") then) =\n"@);
    lemma_keeps_trans(o, o29 + "    };\n  }\n}\n\n"@ + "/// @nodoc\n"@ + "abstract class _$$"@ + case_class_name(n, c.case_name) + "ImplCopyWith<$Res> {\n"@ + "  factory _$$"@ + case_class_name(n, c.case_name) + "ImplCopyWith("@ + impl_class_name(n, c.case_name) + " value, $Res Function("@ + impl_class_name(n, c.case_name), o29 + "    };\n  }\n}\n\n"@ + "/// @nodoc\n"@ + "abstract class _$$"@ + case_class_name(n, c.case_name) + "ImplCopyWith<$Res> {\n"@ + "  factory _$$"@ + case_class_name(n, c.case_name) + "ImplCopyWith("@ + impl_class_name(n, c.case_name) + " value, $Res Function("@ + impl_class_name(n, c.case_name) + ") then) =\n"@);
    lemma_keeps_add(o29 + "    };\n  }\n}\n\n"@ + "/// @nodoc\n"@ + "abstract class _$$"@ + case_class_name(n, c.case_name) + "ImplCopyWith<$Res> {\n"@ + "  factory _$$"@ + case_class_name(n, c.case_name) + "ImplCopyWith("@ + impl_class_name(n, c.case_name) + " value, $Res Function("@ + impl_class_name(n, c.case_name) + ") then) =\n"@, "      __$$"@);
    lemma_keeps_trans(o, o29 + "    };\n  }\n}\n\n"@ + "/// @nodoc\n"@ + "abstract class _$$"@ + case_class_name(n, c.case_name) + "ImplCopyWith<$Res> {\n"@ + "  factory _$$"@ + case_class_name(n, c.case_name) + "ImplCopyWith("@ + impl_class_name(n, c.case_name) + " value, $Res Function("@ + impl_class_name(n, c.case_name) + ") then) =\n"@, o29 + "    };\n  }\n}\n\n"@ + "/// @nodoc\n"@ + "abstract class _$$"@ + case_class_name(n, c.case_name) + "ImplCopyWith<$Res> {\n"@ + "  factory _$$"@ + case_class_name(n, c.case_name) + "ImplCopyWith("@ + impl_class_name(n, c.case_name) + " value, $Res Function("@ + impl_class_name(n, c.case_name) + ") then) =\n"@ + "      __$$"@);
    lemma_keeps_add(o29 + "    };\n  }\n}\n\n"@ + "/// @nodoc\n"@ + "abstract class _$$"@ + case_class_name(n, c.case_name) + "ImplCopyWith<$Res> {\n"@ + "  factory _$$"@ + case_class_name(n, c.case_name) + "ImplCopyWith("@ + impl_class_name(n, c.case_name) + " value, $Res Function("@ + impl_class_name(n, c.case_name) + ") then) =\n"@ + "      __$$"@, case_class_name(n, c.case_name));
    lemma_keeps_trans(o, o29 + "    };\n  }\n}\n\n"@ + "/// @nodoc\n"@ + "abstract class _$$"@ + case_class_name(n, c.case_name) + "ImplCopyWith<$Res> {\n"@ + "  factory _$$"@ + case_class_name(n, c.case_name) + "ImplCopyWith("@ + impl_class_name(n, c.case_name) + " value, $Res Function("@ + impl_class_name(n, c.case_name) + ") then) =\n"@ + "      __$$"@, o29 + "    };\n  }\n}\n\n"@ + "/// @nodoc\n"@ + "abstract class _$$"@ + case_class_name(n, c.case_name) + "ImplCopyWith<$Res> {\n"@ + "  factory _$$"@ + case_class_name(n, c.case_name) + "ImplCopyWith("@ + impl_class_name(n, c.case_name) + " value, $Res Function("@ + impl_class_name(n, c.case_name) + ") then) =\n"@ + "      __$$"@ + case_class_name(n, c.case_name));
    lemma_keeps_add(o29 + "    };\n  }\n}\n\n"@ + "/// @nodoc\n"@ + "abstract class _$$"@ + case_class_name(n, c.case_name) + "ImplCopyWith<$Res> {\n"@ + "  factory _$$"@ + case_class_name(n, c.case_name) + "ImplCopyWith("@ + impl_class_name(n, c.case_name) + " value, $Res Function("@ + impl_class_name(n, c.case_name) + ") then) =\n"@ + "      __$$"@ + case_class_name(n, c.case_name), "ImplCopyWithImpl<$Res>;\n\n"@);
    lemma_keeps_trans(o, o29 + "    };\n  }\n}\n\n"@ + "/// @nodoc\n"@ + "abstract class _$$"@ + case_class_name(n, c.case_name) + "ImplCopyWith<$Res> {\n"@ + "  factory _$$"@ + case_class_name(n, c.case_name) + "ImplCopyWith("@ + impl_class_name(n, c.case_name) + " value, $Res Function("@ + impl_class_name(n, c.case_name) + ") then) =\n"@ + "      __$$"@ + case_class_name(n, c.case_name), o29 + "    };\n  }\n}\n\n"@ + "/// @nodoc\n"@ + "abstract class _$$"@ + case_class_name(n, c.case_name) + "ImplCopyWith<$Res> {\n"@ + "  factory _$$"@ + case_class_name(n, c.case_name) + "ImplCopyWith("@ + impl_class_name(n, c.case_name) + " value, $Res Function("@ + impl_class_name(n, c.case_name) + ") then) =\n"@ + "      __$$"@ + case_class_name(n, c.case_name) + "ImplCopyWithImpl<$Res>;\n\n"@);
    let o30 = o29 + "    };\n  }\n}\n\n"@ + "/// @nodoc\n"@ + "abstract class _$$"@ + case_class_name(n, c.case_name) + "ImplCopyWith<$Res> {\n"@ + "  factory _$$"@ + case_class_name(n, c.case_name) + "ImplCopyWith("@ + impl_class_name(n, c.case_name) + " value, $Res Function("@ + impl_class_name(n, c.case_name) + ") then) =\n"@ + "      __$$"@ + case_class_name(n, c.case_name) + "ImplCopyWithImpl<$Res>;\n\n"@;
    assert(keeps(o, o30));
    if c.fields.len() == 0 {
        lemma_keeps_add(o30, "  $Res call();\n"@);
        lemma_keeps_trans(o, o30, o30 + "  $Res call();\n"@);
    } else {
        lemma_keeps_add(o30, "  $Res call({\n"@);
        lemma_keeps_trans(o, o30, o30 + "  $Res call({\n"@);
        lemma_fold_put_keeps(o30 + "  $Res call({\n"@, c.fields, field_piece_fn(FieldPiece::FreezedParam));
        lemma_keeps_trans(o, o30 + "  $Res call({\n"@, fold_put(o30 + "  $Res call({\n"@, c.fields, field_piece_fn(FieldPiece::FreezedParam)));
        let o31 = fold_put(o30 + "  $Res call({\n"@, c.fields, field_piece_fn(FieldPiece::FreezedParam));
        assert(keeps(o, o31));
        lemma_keeps_add(o31, "  });\n"@);
        lemma_keeps_trans(o, o31, o31 + "  });\n"@);
    }
    let o32 = if c.fields.len() == 0 { o30 + "  $Res call();\n"@ } else { let o31 = fold_put(o30 + "  $Res call({\n"@, c.fields, field_piece_fn(FieldPiece::FreezedParam)); o31 + "  });\n"@ };
    assert(keeps(o, o32));
    lemma_keeps_add(o32, "}\n\n"@);
    lemma_keeps_trans(o, o32, o32 + "}\n\n"@);
    lemma_keeps_add(o32 + "}\n\n"@, "/// @nodoc\n"@);
    lemma_keeps_trans(o, o32 + "}\n\n"@, o32 + "}\n\n"@ + "/// @nodoc\n"@);
    lemma_keeps_add(o32 + "}\n\n"@ + "/// @nodoc\n"@, "class __$$"@);
    lemma_keeps_trans(o, o32 + "}\n\n"@ + "/// @nodoc\n"@, o32 + "}\n\n"@ + "/// @nodoc\n"@ + "class __$$"@);
    lemma_keeps_add(o32 + "}\n\n"@ + "/// @nodoc\n"@ + "class __$$"@, case_class_name(n, c.case_name));
    lemma_keeps_trans(o, o32 + "}\n\n"@ + "/// @nodoc\n"@ + "class __$$"@, o32 + "}\n\n"@ + "/// @nodoc\n"@ + "class __$$"@ + case_class_name(n, c.case_name));
    lemma_keeps_add(o32 + "}\n\n"@ + "/// @nodoc\n"@ + "class __$$"@ + case_class_name(n, c.case_name), "ImplCopyWithImpl<$Res> implements _$$"@);
    lemma_keeps_trans(o, o32 + "}\n\n"@ + "/// @nodoc\n"@ + "class __$$"@ + case_class_name(n, c.case_name), o32 + "}\n\n"@ + "/// @nodoc\n"@ + "class __$$"@ + case_class_name(n, c.case_name) + "ImplCopyWithImpl<$Res> implements _$$"@);
    lemma_keeps_add(o32 + "}\n\n"@ + "/// @nodoc\n"@ + "class __$$"@ + case_class_name(n, c.case_name) + "ImplCopyWithImpl<$Res> implements _$$"@, case_class_name(n, c.case_name));
    lemma_keeps_trans(o, o32 + "}\n\n"@ + "/// @nodoc\n"@ + "class __$$"@ + case_class_name(n, c.case_name) + "ImplCopyWithImpl<$Res> implements _$$"@, o32 + "}\n\n"@ + "/// @nodoc\n"@ + "class __$$"@ + case_class_name(n, c.case_name) + "ImplCopyWithImpl<$Res> implements _$$"@ + case_class_name(n, c.case_name));
    lemma_keeps_add(o32 + "}\n\n"@ + "/// @nodoc\n"@ + "class __$$"@ + case_class_name(n, c.case_name) + "ImplCopyWithImpl<$Res> implements _$$"@ + case_class_name(n, c.case_name), "ImplCopyWith<$Res> {\n"@);
    lemma_keeps_trans(o, o32 + "}\n\n"@ + "/// @nodoc\n"@ + "class __$$"@ + case_class_name(n, c.case_name) + "ImplCopyWithImpl<$Res> implements _$$"@ + case_class_name(n, c.case_name), o32 + "}\n\n"@ + "/// @nodoc\n"@ + "class __$$"@ + case_class_name(n, c.case_name) + "ImplCopyWithImpl<$Res> implements _$$"@ + case_class_name(n, c.case_name) + "ImplCopyWith<$Res> {\n"@);
    lemma_keeps_add(o32 + "}\n\n"@ + "/// @nodoc\n"@ + "class __$$"@ + case_class_name(n, c.case_name) + "ImplCopyWithImpl<$Res> implements _$$"@ + case_class_name(n, c.case_name) + "ImplCopyWith<$Res> {\n"@, "  __$$"@);
    lemma_keeps_trans(o, o32 + "}\n\n"@ + "/// @nodoc\n"@ + "class __$$"@ + case_class_name(n, c.case_name) + "ImplCopyWithImpl<$Res> implements _$$"@ + case_class_name(n, c.case_name) + "ImplCopyWith<$Res> {\n"@, o32 + "}\n\n"@ + "/// @nodoc\n"@ + "class __$$"@ + case_class_name(n, c.case_name) + "ImplCopyWithImpl<$Res> implements _$$"@ + case_class_name(n, c.case_name) + "ImplCopyWith<$Res> {\n"@ + "  __$$"@);
    lemma_keeps_add(o32 + "}\n\n"@ + "/// @nodoc\n"@ + "class __$$"@ + case_class_name(n, c.case_name) + "ImplCopyWithImpl<$Res> implements _$$"@ + case_class_name(n, c.case_name) + "ImplCopyWith<$Res> {\n"@ + "  __$$"@, case_class_name(n, c.case_name));
    lemma_keeps_trans(o, o32 + "}\n\n"@ + "/// @nodoc\n"@ + "class __$$"@ + case_class_name(n, c.case_name) + "ImplCopyWithImpl<$Res> implements _$$"@ + case_class_name(n, c.case_name) + "ImplCopyWith<$Res> {\n"@ + "  __$$"@, o32 + "}\n\n"@ + "/// @nodoc\n"@ + "class __$$"@ + case_class_name(n, c.case_name) + "ImplCopyWithImpl<$Res> implements _$$"@ + case_class_name(n, c.case_name) + "ImplCopyWith<$Res> {\n"@ + "  __$$"@ + case_class_name(n, c.case_name));
    lemma_keeps_add(o32 + "}\n\n"@ + "/// @nodoc\n"@ + "class __$$"@ + case_class_name(n, c.case_name) + "ImplCopyWithImpl<$Res> implements _$$"@ + case_class_name(n, c.case_name) + "ImplCopyWith<$Res> {\n"@ + "  __$$"@ + case_class_name(n, c.case_name), "ImplCopyWithImpl(this._value, this._then);\n\n"@);
    lemma_keeps_trans(o, o32 + "}\n\n"@ + "/// @nodoc\n"@ + "class __$$"@ + case_class_name(n, c.case_name) + "ImplCopyWithImpl<$Res> implements _$$"@ + case_class_name(n, c.case_name) + "ImplCopyWith<$Res> {\n"@ + "  __$$"@ + case_class_name(n, c.case_name), o32 + "}\n\n"@ + "/// @nodoc\n"@ + "class __$$"@ + case_class_name(n, c.case_name) + "ImplCopyWithImpl<$Res> implements _$$"@ + case_class_name(n, c.case_name) + "ImplCopyWith<$Res> {\n"@ + "  __$$"@ + case_class_name(n, c.case_name) + "ImplCopyWithImpl(this._value, this._then);\n\n"@);
    lemma_keeps_add(o32 + "}\n\n"@ + "/// @nodoc\n"@ + "class __$$"@ + case_class_name(n, c.case_name) + "ImplCopyWithImpl<$Res> implements _$$"@ + case_class_name(n, c.case_name) + "ImplCopyWith<$Res> {\n"@ + "  __$$"@ + case_class_name(n, c.case_name) + "ImplCopyWithImpl(this._value, this._then);\n\n"@, "  final "@);
    lemma_keeps_trans(o, o32 + "}\n\n"@ + "/// @nodoc\n"@ + "class __$$"@ + case_class_name(n, c.case_name) + "ImplCopyWithImpl<$Res> implements _$$"@ + case_class_name(n, c.case_name) + "ImplCopyWith<$Res> {\n"@ + "  __$$"@ + case_class_name(n, c.case_name) + "ImplCopyWithImpl(this._value, this._then);\n\n"@, o32 + "}\n\n"@ + "/// @nodoc\n"@ + "class __$$"@ + case_class_name(n, c.case_name) + "ImplCopyWithImpl<$Res> implements _$$"@ + case_class_name(n, c.case_name) + "ImplCopyWith<$Res> {\n"@ + "  __$$"@ + case_class_name(n, c.case_name) + "ImplCopyWithImpl(this._value, this._then);\n\n"@ + "  final "@);
    lemma_keeps_add(o32 + "}\n\n"@ + "/// @nodoc\n"@ + "class __$$"@ + case_class_name(n, c.case_name) + "ImplCopyWithImpl<$Res> implements _$$"@ + case_class_name(n, c.case_name) + "ImplCopyWith<$Res> {\n"@ + "  __$$"@ + case_class_name(n, c.case_name) + "ImplCopyWithImpl(this._value, this._then);\n\n"@ + "  final "@, impl_class_name(n, c.case_name));
    lemma_keeps_trans(o, o32 + "}\n\n"@ + "/// @nodoc\n"@ + "class __$$"@ + case_class_name(n, c.case_name) + "ImplCopyWithImpl<$Res> implements _$$"@ + case_class_name(n, c.case_name) + "ImplCopyWith<$Res> {\n"@ + "  __$$"@ + case_class_name(n, c.case_name) + "ImplCopyWithImpl(this._value, this._then);\n\n"@ + "  final "@, o32 + "}\n\n"@ + "/// @nodoc\n"@ + "class __$$"@ + case_class_name(n, c.case_name) + "ImplCopyWithImpl<$Res> implements _$$"@ + case_class_name(n, c.case_name) + "ImplCopyWith<$Res> {\n"@ + "  __$$"@ + case_class_name(n, c.case_name) + "ImplCopyWithImpl(this._value, this._then);\n\n"@ + "  final "@ + impl_class_name(n, c.case_name));
    lemma_keeps_add(o32 + "}\n\n"@ + "/// @nodoc\n"@ + "class __$$"@ + case_class_name(n, c.case_name) + "ImplCopyWithImpl<$Res> implements _$$"@ + case_class_name(n, c.case_name) + "ImplCopyWith<$Res> {\n"@ + "  __$$"@ + case_class_name(n, c.case_name) + "ImplCopyWithImpl(this._value, this._then);\n\n"@ + "  final "@ + impl_class_name(n, c.case_name), " _value;\n"@);
    lemma_keeps_trans(o, o32 + "}\n\n"@ + "/// @nodoc\n"@ + "class __$$"@ + case_class_name(n, c.case_name) + "ImplCopyWithImpl<$Res> implements _$$"@ + case_class_name(n, c.case_name) + "ImplCopyWith<$Res> {\n"@ + "  __$$"@ + case_class_name(n, c.case_name) + "ImplCopyWithImpl(this._value, this._then);\n\n"@ + "  final "@ + impl_class_name(n, c.case_name), o32 + "}\n\n"@ + "/// @nodoc\n"@ + "class __$$"@ + case_class_name(n, c.case_name) + "ImplCopyWithImpl<$Res> implements _$$"@ + case_class_name(n, c.case_name) + "ImplCopyWith<$Res> {\n"@ + "  __$$"@ + case_class_name(n, c.case_name) + "ImplCopyWithImpl(this._value, this._then);\n\n"@ + "  final "@ + impl_class_name(n, c.case_name) + " _value;\n"@);
    lemma_keeps_add(o32 + "}\n\n"@ + "/// @nodoc\n"@ + "class __$$"@ + case_class_name(n, c.case_name) + "ImplCopyWithImpl<$Res> implements _$$"@ + case_class_name(n, c.case_name) + "ImplCopyWith<$Res> {\n"@ + "  __$$"@ + case_class_name(n, c.case_name) + "ImplCopyWithImpl(this._value, this._then);\n\n"@ + "  final "@ + impl_class_name(n, c.case_name) + " _value;\n"@, "  final $Res Function("@);
    lemma_keeps_trans(o, o32 + "}\n\n"@ + "/// @nodoc\n"@ + "class __$$"@ + case_class_name(n, c.case_name) + "ImplCopyWithImpl<$Res> implements _$$"@ + case_class_name(n, c.case_name) + "ImplCopyWith<$Res> {\n"@ + "  __$$"@ + case_class_name(n, c.case_name) + "ImplCopyWithImpl(this._value, this._then);\n\n"@ + "  final "@ + impl_class_name(n, c.case_name) + " _value;\n"@, o32 + "}\n\n"@ + "/// @nodoc\n"@ + "class __$$"@ + case_class_name(n, c.case_name) + "ImplCopyWithImpl<$Res> implements _$$"@ + case_class_name(n, c.case_name) + "ImplCopyWith<$Res> {\n"@ + "  __$$"@ + case_class_name(n, c.case_name) + "ImplCopyWithImpl(this._value, this._then);\n\n"@ + "  final "@ + impl_class_name(n, c.case_name) + " _value;\n"@ + "  final $Res Function("@);
    lemma_keeps_add(o32 + "}\n\n"@ + "/// @nodoc\n"@ + "class __$$"@ + case_class_name(n, c.case_name) + "ImplCopyWithImpl<$Res> implements _$$"@ + case_class_name(n, c.case_name) + "ImplCopyWith<$Res> {\n"@ + "  __$$"@ + case_class_name(n, c.case_name) + "ImplCopyWithImpl(this._value, this._then);\n\n"@ + "  final "@ + impl_class_name(n, c.case_name) + " _value;\n"@ + "  final $Res Function("@, impl_class_name(n, c.case_name));
    lemma_keeps_trans(o, o32 + "}\n\n"@ + "/// @nodoc\n"@ + "class __$$"@ + case_class_name(n, c.case_name) + "ImplCopyWithImpl<$Res> implements _$$"@ + case_class_name(n, c.case_name) + "ImplCopyWith<$Res> {\n"@ + "  __$$"@ + case_class_name(n, c.case_name) + "ImplCopyWithImpl(this._value, this._then);\n\n"@ + "  final "@ + impl_class_name(n, c.case_name) + " _value;\n"@ + "  final $Res Function("@, o32 + "}\n\n"@ + "/// @nodoc\n"@ + "class __$$"@ + case_class_name(n, c.case_name) + "ImplCopyWithImpl<$Res> implements _$$"@ + case_class_name(n, c.case_name) + "ImplCopyWith<$Res> {\n"@ + "  __$$"@ + case_class_name(n, c.case_name) + "ImplCopyWithImpl(this._value, this._then);\n\n"@ + "  final "@ + impl_class_name(n, c.case_name) + " _value;\n"@ + "  final $Res Function("@ + impl_class_name(n, c.case_name));
    lemma_keeps_add(o32 + "}\n\n"@ + "/// @nodoc\n"@ + "class __$$"@ + case_class_name(n, c.case_name) + "ImplCopyWithImpl<$Res> implements _$$"@ + case_class_name(n, c.case_name) + "ImplCopyWith<$Res> {\n"@ + "  __$$"@ + case_class_name(n, c.case_name) + "ImplCopyWithImpl(this._value, this._then);\n\n"@ + "  final "@ + impl_class_name(n, c.case_name) + " _value;\n"@ + "  final $Res Function("@ + impl_class_name(n, c.case_name), ") _then;\n\n"@);
    lemma_keeps_trans(o, o32 + "}\n\n"@ + "/// @nodoc\n"@ + "class __$$"@ + case_class_name(n, c.case_name) + "ImplCopyWithImpl<$Res> implements _$$"@ + case_class_name(n, c.case_name) + "ImplCopyWith<$Res> {\n"@ + "  __$$"@ + case_class_name(n, c.case_name) + "ImplCopyWithImpl(this._value, this._then);\n\n"@ + "  final "@ + impl_class_name(n, c.case_name) + " _value;\n"@ + "  final $Res Function("@ + impl_class_name(n, c.case_name), o32 + "}\n\n"@ + "/// @nodoc\n"@ + "class __$$"@ + case_class_name(n, c.case_name) + "ImplCopyWithImpl<$Res> implements _$$"@ + case_class_name(n, c.case_name) + "ImplCopyWith<$Res> {\n"@ + "  __$$"@ + case_class_name(n, c.case_name) + "ImplCopyWithImpl(this._value, this._then);\n\n"@ + "  final "@ + impl_class_name(n, c.case_name) + " _value;\n"@ + "  final $Res Function("@ + impl_class_name(n, c.case_name) + ") _then;\n\n"@);
    lemma_keeps_add(o32 + "}\n\n"@ + "/// @nodoc\n"@ + "class __$$"@ + case_class_name(n, c.case_name) + "ImplCopyWithImpl<$Res> implements _$$"@ + case_class_name(n, c.case_name) + "ImplCopyWith<$Res> {\n"@ + "  __$$"@ + case_class_name(n, c.case_name) + "ImplCopyWithImpl(this._value, this._then);\n\n"@ + "  final "@ + impl_class_name(n, c.case_name) + " _value;\n"@ + "  final $Res Function("@ + impl_class_name(n, c.case_name) + ") _then;\n\n"@, "  @pragma('vm:prefer-inline')\n  @override\n"@);
    lemma_keeps_trans(o, o32 + "}\n\n"@ + "/// @nodoc\n"@ + "class __$$"@ + case_class_name(n, c.case_name) + "ImplCopyWithImpl<$Res> implements _$$"@ + case_class_name(n, c.case_name) + "ImplCopyWith<$Res> {\n"@ + "  __$$"@ + case_class_name(n, c.case_name) + "ImplCopyWithImpl(this._value, this._then);\n\n"@ + "  final "@ + impl_class_name(n, c.case_name) + " _value;\n"@ + "  final $Res Function("@ + impl_class_name(n, c.case_name) + ") _then;\n\n"@, o32 + "}\n\n"@ + "/// @nodoc\n"@ + "class __$$"@ + case_class_name(n, c.case_name) + "ImplCopyWithImpl<$Res> implements _$$"@ + case_class_name(n, c.case_name) + "ImplCopyWith<$Res> {\n"@ + "  __$$"@ + case_class_name(n, c.case_name) + "ImplCopyWithImpl(this._value, this._then);\n\n"@ + "  final "@ + impl_class_name(n, c.case_name) + " _value;\n"@ + "  final $Res Function("@ + impl_class_name(n, c.case_name) + ") _then;\n\n"@ + "  @pragma('vm:prefer-inline')\n  @override\n"@);
    let o33 = o32 + "}\n\n"@ + "/// @nodoc\n"@ + "class __$$"@ + case_class_name(n, c.case_name) + "ImplCopyWithImpl<$Res> implements _$$"@ + case_class_name(n, c.case_name) + "ImplCopyWith<$Res> {\n"@ + "  __$$"@ + case_class_name(n, c.case_name) + "ImplCopyWithImpl(this._value, this._then);\n\n"@ + "  final "@ + impl_class_name(n, c.case_name) + " _value;\n"@ + "  final $Res Function("@ + impl_class_name(n, c.case_name) + ") _then;\n\n"@ + "  @pragma('vm:prefer-inline')\n  @override\n"@;
    assert(keeps(o, o33));
    if c.fields.len() == 0 {
        lemma_keeps_add(o33, "  $Res call() {\n    // _value is used to satisfy the unused_field warning\n    _value;\n"@);
        lemma_keeps_trans(o, o33, o33 + "  $Res call() {\n    // _value is used to satisfy the unused_field warning\n    _value;\n"@);
        lemma_keeps_add(o33 + "  $Res call() {\n    // _value is used to satisfy the unused_field warning\n    _value;\n"@, "    return _then("@);
        lemma_keeps_trans(o, o33 + "  $Res call() {\n    // _value is used to satisfy the unused_field warning\n    _value;\n"@, o33 + "  $Res call() {\n    // _value is used to satisfy the unused_field warning\n    _value;\n"@ + "    return _then("@);
        lemma_keeps_add(o33 + "  $Res call() {\n    // _value is used to satisfy the unused_field warning\n    _value;\n"@ + "    return _then("@, impl_class_name(n, c.case_name));
        lemma_keeps_trans(o, o33 + "  $Res call() {\n    // _value is used to satisfy the unused_field warning\n    _value;\n"@ + "    return _then("@, o33 + "  $Res call() {\n    // _value is used to satisfy the unused_field warning\n    _value;\n"@ + "    return _then("@ + impl_class_name(n, c.case_name));
        lemma_keeps_add(o33 + "  $Res call() {\n    // _value is used to satisfy the unused_field warning\n    _value;\n"@ + "    return _then("@ + impl_class_name(n, c.case_name), "());\n"@);
        lemma_keeps_trans(o, o33 + "  $Res call() {\n    // _value is used to satisfy the unused_field warning\n    _value;\n"@ + "    return _then("@ + impl_class_name(n, c.case_name), o33 + "  $Res call() {\n    // _value is used to satisfy the unused_field warning\n    _value;\n"@ + "    return _then("@ + impl_class_name(n, c.case_name) + "());\n"@);
    } else {
        lemma_keeps_add(o33, "  $Res call({\n"@);
        lemma_keeps_trans(o, o33, o33 + "  $Res call({\n"@);
        lemma_fold_put_keeps(o33 + "  $Res call({\n"@, c.fields, field_piece_fn(FieldPiece::FreezedParam));
        lemma_keeps_trans(o, o33 + "  $Res call({\n"@, fold_put(o33 + "  $Res call({\n"@, c.fields, field_piece_fn(FieldPiece::FreezedParam)));
        let o34 = fold_put(o33 + "  $Res call({\n"@, c.fields, field_piece_fn(FieldPiece::FreezedParam));
        assert(keeps(o, o34));
        lemma_keeps_add(o34, "  }) {\n"@);
        lemma_keeps_trans(o, o34, o34 + "  }) {\n"@);
        lemma_keeps_add(o34 + "  }) {\n"@, "    return _then("@);
        lemma_keeps_trans(o, o34 + "  }) {\n"@, o34 + "  }) {\n"@ + "    return _then("@);
        lemma_keeps_add(o34 + "  }) {\n"@ + "    return _then("@, impl_class_name(n, c.case_name));
        lemma_keeps_trans(o, o34 + "  }) {\n"@ + "    return _then("@, o34 + "  }) {\n"@ + "    return _then("@ + impl_class_name(n, c.case_name));
        lemma_keeps_add(o34 + "  }) {\n"@ + "    return _then("@ + impl_class_name(n, c.case_name), "(\n"@);
        lemma_keeps_trans(o, o34 + "  }) {\n"@ + "    return _then("@ + impl_class_name(n, c.case_name), o34 + "  }) {\n"@ + "    return _then("@ + impl_class_name(n, c.case_name) + "(\n"@);
        lemma_fold_put_keeps(o34 + "  }) {\n"@ + "    return _then("@ + impl_class_name(n, c.case_name) + "(\n"@, c.fields, field_piece_fn(FieldPiece::CaseCopyAssign));
        lemma_keeps_trans(o, o34 + "  }) {\n"@ + "    return _then("@ + impl_class_name(n, c.case_name) + "(\n"@, fold_put(o34 + "  }) {\n"@ + "    return _then("@ + impl_class_name(n, c.case_name) + "(\n"@, c.fields, field_piece_fn(FieldPiece::CaseCopyAssign)));
        let o35 = fold_put(o34 + "  }) {\n"@ + "    return _then("@ + impl_class_name(n, c.case_name) + "(\n"@, c.fields, field_piece_fn(FieldPiece::CaseCopyAssign));
        assert(keeps(o, o35));
        lemma_keeps_add(o35, "    ));\n"@);
        lemma_keeps_trans(o, o35, o35 + "    ));\n"@);
    }
    let o36 = if c.fields.len() == 0 { o33 + "  $Res call() {\n    // _value is used to satisfy the unused_field warning\n    _value;\n"@ + "    return _then("@ + impl_class_name(n, c.case_name) + "());\n"@ } else { let o34 = fold_put(o33 + "  $Res call({\n"@, c.fields, field_piece_fn(FieldPiece::FreezedParam)); let o35 = fold_put(o34 + "  }) {\n"@ + "    return _then("@ + impl_class_name(n, c.case_name) + "(\n"@, c.fields, field_piece_fn(FieldPiece::CaseCopyAssign)); o35 + "    ));\n"@ };
    assert(keeps(o, o36));
    lemma_keeps_add(o36, "  }\n}\n\n"@);
    lemma_keeps_trans(o, o36, o36 + "  }\n}\n\n"@);
    assert(put_case_class(o, n, c, cs) == o36 + "  }\n}\n\n"@);
}

/// Writing the classes of union cases only appends to the text.
proof fn lemma_case_class_extends(n: Seq<char>, cs: Seq<CaseModel>)
    ensures
        extends(case_class_fn(n, cs)),
{
    assert forall|o: Seq<char>, c: CaseModel| #[trigger] keeps(o, case_class_fn(n, cs)(o, c)) by {
        lemma_case_class_keeps(o, n, c, cs);
        assert(case_class_fn(n, cs)(o, c) == put_case_class(o, n, c, cs));
    }
}

/// Writing the first part of a regular class only appends to the text.
#[verifier::rlimit(100)]
proof fn lemma_regular_head_keeps(o: Seq<char>, n: Seq<char>, fs: Seq<FieldModel>)
    ensures
        keeps(o, put_regular_head(o, n, fs)),
{
    lemma_field_piece_extends(FieldPiece::GetterLine);
    lemma_field_piece_extends(FieldPiece::CallParam);
    lemma_field_piece_extends(FieldPiece::ObjectParam);
    lemma_field_piece_extends(FieldPiece::CopyAssign);
    lemma_field_piece_extends(FieldPiece::CtorParam);
    lemma_field_piece_extends(FieldPiece::FinalField);
    lemma_field_piece_extends(FieldPiece::ToStringFirst);
    lemma_field_piece_extends(FieldPiece::ToStringNext);
    lemma_field_piece_extends(FieldPiece::EqLine);
    lemma_field_piece_extends(FieldPiece::HashLine);
    lemma_field_piece_extends(FieldPiece::FactoryParam);
    lemma_field_piece_extends(FieldPiece::OverrideGetter);
    lemma_field_piece_extends(FieldPiece::TypedFirst);
    lemma_field_piece_extends(FieldPiece::TypedNext);
    lemma_field_piece_extends(FieldPiece::NameFirst);
    lemma_field_piece_extends(FieldPiece::NameNext);
    lemma_field_piece_extends(FieldPiece::JsonEntry);
    lemma_field_piece_extends(FieldPiece::ThisParam);
    lemma_field_piece_extends(FieldPiece::RequiredTypedParam);
    lemma_field_piece_extends(FieldPiece::AbstractGetter);
    lemma_field_piece_extends(FieldPiece::FreezedParam);
    lemma_field_piece_extends(FieldPiece::CaseCopyAssign);
    lemma_keeps_refl(o);
    lemma_keeps_add(o, n);
    lemma_keeps_trans(o, o, o + n);
    lemma_keeps_add(o + n, " _$"@);
    lemma_keeps_trans(o, o + n, o + n + " _$"@);
    lemma_keeps_add(o + n + " _$"@, n);
    lemma_keeps_trans(o, o + n + " _$"@, o + n + " _$"@ + n);
    lemma_keeps_add(o + n + " _$"@ + n, "FromJson(Map<String, dynamic> json) {\n"@);
    lemma_keeps_trans(o, o + n + " _$"@ + n, o + n + " _$"@ + n + "FromJson(Map<String, dynamic> json) {\n"@);
    lemma_keeps_add(o + n + " _$"@ + n + "FromJson(Map<String, dynamic> json) {\n"@, "  return _$"@);
    lemma_keeps_trans(o, o + n + " _$"@ + n + "FromJson(Map<String, dynamic> json) {\n"@, o + n + " _$"@ + n + "FromJson(Map<String, dynamic> json) {\n"@ + "  return _$"@);
    lemma_keeps_add(o + n + " _$"@ + n + "FromJson(Map<String, dynamic> json) {\n"@ + "  return _$"@, n);
    lemma_keeps_trans(o, o + n + " _$"@ + n + "FromJson(Map<String, dynamic> json) {\n"@ + "  return _$"@, o + n + " _$"@ + n + "FromJson(Map<String, dynamic> json) {\n"@ + "  return _$"@ + n);
    lemma_keeps_add(o + n + " _$"@ + n + "FromJson(Map<String, dynamic> json) {\n"@ + "  return _$"@ + n, "Impl.fromJson(json);\n"@);
    lemma_keeps_trans(o, o + n + " _$"@ + n + "FromJson(Map<String, dynamic> json) {\n"@ + "  return _$"@ + n, o + n + " _$"@ + n + "FromJson(Map<String, dynamic> json) {\n"@ + "  return _$"@ + n + "Impl.fromJson(json);\n"@);
    lemma_keeps_add(o + n + " _$"@ + n + "FromJson(Map<String, dynamic> json) {\n"@ + "  return _$"@ + n + "Impl.fromJson(json);\n"@, "}\n\n"@);
    lemma_keeps_trans(o, o + n + " _$"@ + n + "FromJson(Map<String, dynamic> json) {\n"@ + "  return _$"@ + n + "Impl.fromJson(json);\n"@, o + n + " _$"@ + n + "FromJson(Map<String, dynamic> json) {\n"@ + "  return _$"@ + n + "Impl.fromJson(json);\n"@ + "}\n\n"@);
    lemma_keeps_add(o + n + " _$"@ + n + "FromJson(Map<String, dynamic> json) {\n"@ + "  return _$"@ + n + "Impl.fromJson(json);\n"@ + "}\n\n"@, "/// @nodoc\n"@);
    lemma_keeps_trans(o, o + n + " _$"@ + n + "FromJson(Map<String, dynamic> json) {\n"@ + "  return _$"@ + n + "Impl.fromJson(json);\n"@ + "}\n\n"@, o + n + " _$"@ + n + "FromJson(Map<String, dynamic> json) {\n"@ + "  return _$"@ + n + "Impl.fromJson(json);\n"@ + "}\n\n"@ + "/// @nodoc\n"@);
    lemma_keeps_add(o + n + " _$"@ + n + "FromJson(Map<String, dynamic> json) {\n"@ + "  return _$"@ + n + "Impl.fromJson(json);\n"@ + "}\n\n"@ + "/// @nodoc\n"@, "mixin _$"@);
    lemma_keeps_trans(o, o + n + " _$"@ + n + "FromJson(Map<String, dynamic> json) {\n"@ + "  return _$"@ + n + "Impl.fromJson(json);\n"@ + "}\n\n"@ + "/// @nodoc\n"@, o + n + " _$"@ + n + "FromJson(Map<String, dynamic> json) {\n"@ + "  return _$"@ + n + "Impl.fromJson(json);\n"@ + "}\n\n"@ + "/// @nodoc\n"@ + "mixin _$"@);
    lemma_keeps_add(o + n + " _$"@ + n + "FromJson(Map<String, dynamic> json) {\n"@ + "  return _$"@ + n + "Impl.fromJson(json);\n"@ + "}\n\n"@ + "/// @nodoc\n"@ + "mixin _$"@, n);
    lemma_keeps_trans(o, o + n + " _$"@ + n + "FromJson(Map<String, dynamic> json) {\n"@ + "  return _$"@ + n + "Impl.fromJson(json);\n"@ + "}\n\n"@ + "/// @nodoc\n"@ + "mixin _$"@, o + n + " _$"@ + n + "FromJson(Map<String, dynamic> json) {\n"@ + "  return _$"@ + n + "Impl.fromJson(json);\n"@ + "}\n\n"@ + "/// @nodoc\n"@ + "mixin _$"@ + n);
    lemma_keeps_add(o + n + " _$"@ + n + "FromJson(Map<String, dynamic> json) {\n"@ + "  return _$"@ + n + "Impl.fromJson(json);\n"@ + "}\n\n"@ + "/// @nodoc\n"@ + "mixin _$"@ + n, " {\n"@);
    lemma_keeps_trans(o, o + n + " _$"@ + n + "FromJson(Map<String, dynamic> json) {\n"@ + "  return _$"@ + n + "Impl.fromJson(json);\n"@ + "}\n\n"@ + "/// @nodoc\n"@ + "mixin _$"@ + n, o + n + " _$"@ + n + "FromJson(Map<String, dynamic> json) {\n"@ + "  return _$"@ + n + "Impl.fromJson(json);\n"@ + "}\n\n"@ + "/// @nodoc\n"@ + "mixin _$"@ + n + " {\n"@);
    lemma_fold_put_keeps(o + n + " _$"@ + n + "FromJson(Map<String, dynamic> json) {\n"@ + "  return _$"@ + n + "Impl.fromJson(json);\n"@ + "}\n\n"@ + "/// @nodoc\n"@ + "mixin _$"@ + n + " {\n"@, fs, field_piece_fn(FieldPiece::GetterLine));
    lemma_keeps_trans(o, o + n + " _$"@ + n + "FromJson(Map<String, dynamic> json) {\n"@ + "  return _$"@ + n + "Impl.fromJson(json);\n"@ + "}\n\n"@ + "/// @nodoc\n"@ + "mixin _$"@ + n + " {\n"@, fold_put(o + n + " _$"@ + n + "FromJson(Map<String, dynamic> json) {\n"@ + "  return _$"@ + n + "Impl.fromJson(json);\n"@ + "}\n\n"@ + "/// @nodoc\n"@ + "mixin _$"@ + n + " {\n"@, fs, field_piece_fn(FieldPiece::GetterLine)));
    let o1 = fold_put(o + n + " _$"@ + n + "FromJson(Map<String, dynamic> json) {\n"@ + "  return _$"@ + n + "Impl.fromJson(json);\n"@ + "}\n\n"@ + "/// @nodoc\n"@ + "mixin _$"@ + n + " {\n"@, fs, field_piece_fn(FieldPiece::GetterLine));
    assert(keeps(o, o1));
    lemma_keeps_add(o1, "\n"@);
    lemma_keeps_trans(o, o1, o1 + "\n"@);
    lemma_keeps_add(o1 + "\n"@, "  /// Serializes this "@);
    lemma_keeps_trans(o, o1 + "\n"@, o1 + "\n"@ + "  /// Serializes this "@);
    lemma_keeps_add(o1 + "\n"@ + "  /// Serializes this "@, n);
    lemma_keeps_trans(o, o1 + "\n"@ + "  /// Serializes this "@, o1 + "\n"@ + "  /// Serializes this "@ + n);
    lemma_keeps_add(o1 + "\n"@ + "  /// Serializes this "@ + n, " to a JSON map.\n"@);
    lemma_keeps_trans(o, o1 + "\n"@ + "  /// Serializes this "@ + n, o1 + "\n"@ + "  /// Serializes this "@ + n + " to a JSON map.\n"@);
    lemma_keeps_add(o1 + "\n"@ + "  /// Serializes this "@ + n + " to a JSON map.\n"@, "  Map<String, dynamic> toJson() => throw _privateConstructorUsedError;\n\n"@);
    lemma_keeps_trans(o, o1 + "\n"@ + "  /// Serializes this "@ + n + " to a JSON map.\n"@, o1 + "\n"@ + "  /// Serializes this "@ + n + " to a JSON map.\n"@ + "  Map<String, dynamic> toJson() => throw _privateConstructorUsedError;\n\n"@);
    lemma_keeps_add(o1 + "\n"@ + "  /// Serializes this "@ + n + " to a JSON map.\n"@ + "  Map<String, dynamic> toJson() => throw _privateConstructorUsedError;\n\n"@, "  /// Create a copy of "@);
    lemma_keeps_trans(o, o1 + "\n"@ + "  /// Serializes this "@ + n + " to a JSON map.\n"@ + "  Map<String, dynamic> toJson() => throw _privateConstructorUsedError;\n\n"@, o1 + "\n"@ + "  /// Serializes this "@ + n + " to a JSON map.\n"@ + "  Map<String, dynamic> toJson() => throw _privateConstructorUsedError;\n\n"@ + "  /// Create a copy of "@);
    lemma_keeps_add(o1 + "\n"@ + "  /// Serializes this "@ + n + " to a JSON map.\n"@ + "  Map<String, dynamic> toJson() => throw _privateConstructorUsedError;\n\n"@ + "  /// Create a copy of "@, n);
    lemma_keeps_trans(o, o1 + "\n"@ + "  /// Serializes this "@ + n + " to a JSON map.\n"@ + "  Map<String, dynamic> toJson() => throw _privateConstructorUsedError;\n\n"@ + "  /// Create a copy of "@, o1 + "\n"@ + "  /// Serializes this "@ + n + " to a JSON map.\n"@ + "  Map<String, dynamic> toJson() => throw _privateConstructorUsedError;\n\n"@ + "  /// Create a copy of "@ + n);
    lemma_keeps_add(o1 + "\n"@ + "  /// Serializes this "@ + n + " to a JSON map.\n"@ + "  Map<String, dynamic> toJson() => throw _privateConstructorUsedError;\n\n"@ + "  /// Create a copy of "@ + n, "\n"@);
    lemma_keeps_trans(o, o1 + "\n"@ + "  /// Serializes this "@ + n + " to a JSON map.\n"@ + "  Map<String, dynamic> toJson() => throw _privateConstructorUsedError;\n\n"@ + "  /// Create a copy of "@ + n, o1 + "\n"@ + "  /// Serializes this "@ + n + " to a JSON map.\n"@ + "  Map<String, dynamic> toJson() => throw _privateConstructorUsedError;\n\n"@ + "  /// Create a copy of "@ + n + "\n"@);
    lemma_keeps_add(o1 + "\n"@ + "  /// Serializes this "@ + n + " to a JSON map.\n"@ + "  Map<String, dynamic> toJson() => throw _privateConstructorUsedError;\n\n"@ + "  /// Create a copy of "@ + n + "\n"@, "  /// with the given fields replaced by the non-null parameter values.\n"@);
    lemma_keeps_trans(o, o1 + "\n"@ + "  /// Serializes this "@ + n + " to a JSON map.\n"@ + "  Map<String, dynamic> toJson() => throw _privateConstructorUsedError;\n\n"@ + "  /// Create a copy of "@ + n + "\n"@, o1 + "\n"@ + "  /// Serializes this "@ + n + " to a JSON map.\n"@ + "  Map<String, dynamic> toJson() => throw _privateConstructorUsedError;\n\n"@ + "  /// Create a copy of "@ + n + "\n"@ + "  /// with the given fields replaced by the non-null parameter values.\n"@);
    lemma_keeps_add(o1 + "\n"@ + "  /// Serializes this "@ + n + " to a JSON map.\n"@ + "  Map<String, dynamic> toJson() => throw _privateConstructorUsedError;\n\n"@ + "  /// Create a copy of "@ + n + "\n"@ + "  /// with the given fields replaced by the non-null parameter values.\n"@, "  @JsonKey(includeFromJson: false, includeToJson: false)\n"@);
    lemma_keeps_trans(o, o1 + "\n"@ + "  /// Serializes this "@ + n + " to a JSON map.\n"@ + "  Map<String, dynamic> toJson() => throw _privateConstructorUsedError;\n\n"@ + "  /// Create a copy of "@ + n + "\n"@ + "  /// with the given fields replaced by the non-null parameter values.\n"@, o1 + "\n"@ + "  /// Serializes this "@ + n + " to a JSON map.\n"@ + "  Map<String, dynamic> toJson() => throw _privateConstructorUsedError;\n\n"@ + "  /// Create a copy of "@ + n + "\n"@ + "  /// with the given fields replaced by the non-null parameter values.\n"@ + "  @JsonKey(includeFromJson: false, includeToJson: false)\n"@);
    lemma_keeps_add(o1 + "\n"@ + "  /// Serializes this "@ + n + " to a JSON map.\n"@ + "  Map<String, dynamic> toJson() => throw _privateConstructorUsedError;\n\n"@ + "  /// Create a copy of "@ + n + "\n"@ + "  /// with the given fields replaced by the non-null parameter values.\n"@ + "  @JsonKey(includeFromJson: false, includeToJson: false)\n"@, "  $"@);
    lemma_keeps_trans(o, o1 + "\n"@ + "  /// Serializes this "@ + n + " to a JSON map.\n"@ + "  Map<String, dynamic> toJson() => throw _privateConstructorUsedError;\n\n"@ + "  /// Create a copy of "@ + n + "\n"@ + "  /// with the given fields replaced by the non-null parameter values.\n"@ + "  @JsonKey(includeFromJson: false, includeToJson: false)\n"@, o1 + "\n"@ + "  /// Serializes this "@ + n + " to a JSON map.\n"@ + "  Map<String, dynamic> toJson() => throw _privateConstructorUsedError;\n\n"@ + "  /// Create a copy of "@ + n + "\n"@ + "  /// with the given fields replaced by the non-null parameter values.\n"@ + "  @JsonKey(includeFromJson: false, includeToJson: false)\n"@ + "  $"@);
    lemma_keeps_add(o1 + "\n"@ + "  /// Serializes this "@ + n + " to a JSON map.\n"@ + "  Map<String, dynamic> toJson() => throw _privateConstructorUsedError;\n\n"@ + "  /// Create a copy of "@ + n + "\n"@ + "  /// with the given fields replaced by the non-null parameter values.\n"@ + "  @JsonKey(includeFromJson: false, includeToJson: false)\n"@ + "  $"@, n);
    lemma_keeps_trans(o, o1 + "\n"@ + "  /// Serializes this "@ + n + " to a JSON map.\n"@ + "  Map<String, dynamic> toJson() => throw _privateConstructorUsedError;\n\n"@ + "  /// Create a copy of "@ + n + "\n"@ + "  /// with the given fields replaced by the non-null parameter values.\n"@ + "  @JsonKey(includeFromJson: false, includeToJson: false)\n"@ + "  $"@, o1 + "\n"@ + "  /// Serializes this "@ + n + " to a JSON map.\n"@ + "  Map<String, dynamic> toJson() => throw _privateConstructorUsedError;\n\n"@ + "  /// Create a copy of "@ + n + "\n"@ + "  /// with the given fields replaced by the non-null parameter values.\n"@ + "  @JsonKey(includeFromJson: false, includeToJson: false)\n"@ + "  $"@ + n);
    lemma_keeps_add(o1 + "\n"@ + "  /// Serializes this "@ + n + " to a JSON map.\n"@ + "  Map<String, dynamic> toJson() => throw _privateConstructorUsedError;\n\n"@ + "  /// Create a copy of "@ + n + "\n"@ + "  /// with the given fields replaced by the non-null parameter values.\n"@ + "  @JsonKey(includeFromJson: false, includeToJson: false)\n"@ + "  $"@ + n, "CopyWith<"@);
    lemma_keeps_trans(o, o1 + "\n"@ + "  /// Serializes this "@ + n + " to a JSON map.\n"@ + "  Map<String, dynamic> toJson() => throw _privateConstructorUsedError;\n\n"@ + "  /// Create a copy of "@ + n + "\n"@ + "  /// with the given fields replaced by the non-null parameter values.\n"@ + "  @JsonKey(includeFromJson: false, includeToJson: false)\n"@ + "  $"@ + n, o1 + "\n"@ + "  /// Serializes this "@ + n + " to a JSON map.\n"@ + "  Map<String, dynamic> toJson() => throw _privateConstructorUsedError;\n\n"@ + "  /// Create a copy of "@ + n + "\n"@ + "  /// with the given fields replaced by the non-null parameter values.\n"@ + "  @JsonKey(includeFromJson: false, includeToJson: false)\n"@ + "  $"@ + n + "CopyWith<"@);
    lemma_keeps_add(o1 + "\n"@ + "  /// Serializes this "@ + n + " to a JSON map.\n"@ + "  Map<String, dynamic> toJson() => throw _privateConstructorUsedError;\n\n"@ + "  /// Create a copy of "@ + n + "\n"@ + "  /// with the given fields replaced by the non-null parameter values.\n"@ + "  @JsonKey(includeFromJson: false, includeToJson: false)\n"@ + "  $"@ + n + "CopyWith<"@, n);
    lemma_keeps_trans(o, o1 + "\n"@ + "  /// Serializes this "@ + n + " to a JSON map.\n"@ + "  Map<String, dynamic> toJson() => throw _privateConstructorUsedError;\n\n"@ + "  /// Create a copy of "@ + n + "\n"@ + "  /// with the given fields replaced by the non-null parameter values.\n"@ + "  @JsonKey(includeFromJson: false, includeToJson: false)\n"@ + "  $"@ + n + "CopyWith<"@, o1 + "\n"@ + "  /// Serializes this "@ + n + " to a JSON map.\n"@ + "  Map<String, dynamic> toJson() => throw _privateConstructorUsedError;\n\n"@ + "  /// Create a copy of "@ + n + "\n"@ + "  /// with the given fields replaced by the non-null parameter values.\n"@ + "  @JsonKey(includeFromJson: false, includeToJson: false)\n"@ + "  $"@ + n + "CopyWith<"@ + n);
    lemma_keeps_add(o1 + "\n"@ + "  /// Serializes this "@ + n + " to a JSON map.\n"@ + "  Map<String, dynamic> toJson() => throw _privateConstructorUsedError;\n\n"@ + "  /// Create a copy of "@ + n + "\n"@ + "  /// with the given fields replaced by the non-null parameter values.\n"@ + "  @JsonKey(includeFromJson: false, includeToJson: false)\n"@ + "  $"@ + n + "CopyWith<"@ + n, "> get copyWith => throw _privateConstructorUsedError;\n"@);
    lemma_keeps_trans(o, o1 + "\n"@ + "  /// Serializes this "@ + n + " to a JSON map.\n"@ + "  Map<String, dynamic> toJson() => throw _privateConstructorUsedError;\n\n"@ + "  /// Create a copy of "@ + n + "\n"@ + "  /// with the given fields replaced by the non-null parameter values.\n"@ + "  @JsonKey(includeFromJson: false, includeToJson: false)\n"@ + "  $"@ + n + "CopyWith<"@ + n, o1 + "\n"@ + "  /// Serializes this "@ + n + " to a JSON map.\n"@ + "  Map<String, dynamic> toJson() => throw _privateConstructorUsedError;\n\n"@ + "  /// Create a copy of "@ + n + "\n"@ + "  /// with the given fields replaced by the non-null parameter values.\n"@ + "  @JsonKey(includeFromJson: false, includeToJson: false)\n"@ + "  $"@ + n + "CopyWith<"@ + n + "> get copyWith => throw _privateConstructorUsedError;\n"@);
    lemma_keeps_add(o1 + "\n"@ + "  /// Serializes this "@ + n + " to a JSON map.\n"@ + "  Map<String, dynamic> toJson() => throw _privateConstructorUsedError;\n\n"@ + "  /// Create a copy of "@ + n + "\n"@ + "  /// with the given fields replaced by the non-null parameter values.\n"@ + "  @JsonKey(includeFromJson: false, includeToJson: false)\n"@ + "  $"@ + n + "CopyWith<"@ + n + "> get copyWith => throw _privateConstructorUsedError;\n"@, "}\n\n"@);
    lemma_keeps_trans(o, o1 + "\n"@ + "  /// Serializes this "@ + n + " to a JSON map.\n"@ + "  Map<String, dynamic> toJson() => throw _privateConstructorUsedError;\n\n"@ + "  /// Create a copy of "@ + n + "\n"@ + "  /// with the given fields replaced by the non-null parameter values.\n"@ + "  @JsonKey(includeFromJson: false, includeToJson: false)\n"@ + "  $"@ + n + "CopyWith<"@ + n + "> get copyWith => throw _privateConstructorUsedError;\n"@, o1 + "\n"@ + "  /// Serializes this "@ + n + " to a JSON map.\n"@ + "  Map<String, dynamic> toJson() => throw _privateConstructorUsedError;\n\n"@ + "  /// Create a copy of "@ + n + "\n"@ + "  /// with the given fields replaced by the non-null parameter values.\n"@ + "  @JsonKey(includeFromJson: false, includeToJson: false)\n"@ + "  $"@ + n + "CopyWith<"@ + n + "> get copyWith => throw _privateConstructorUsedError;\n"@ + "}\n\n"@);
    lemma_keeps_add(o1 + "\n"@ + "  /// Serializes this "@ + n + " to a JSON map.\n"@ + "  Map<String, dynamic> toJson() => throw _privateConstructorUsedError;\n\n"@ + "  /// Create a copy of "@ + n + "\n"@ + "  /// with the given fields replaced by the non-null parameter values.\n"@ + "  @JsonKey(includeFromJson: false, includeToJson: false)\n"@ + "  $"@ + n + "CopyWith<"@ + n + "> get copyWith => throw _privateConstructorUsedError;\n"@ + "}\n\n"@, "/// @nodoc\n"@);
    lemma_keeps_trans(o, o1 + "\n"@ + "  /// Serializes this "@ + n + " to a JSON map.\n"@ + "  Map<String, dynamic> toJson() => throw _privateConstructorUsedError;\n\n"@ + "  /// Create a copy of "@ + n + "\n"@ + "  /// with the given fields replaced by the non-null parameter values.\n"@ + "  @JsonKey(includeFromJson: false, includeToJson: false)\n"@ + "  $"@ + n + "CopyWith<"@ + n + "> get copyWith => throw _privateConstructorUsedError;\n"@ + "}\n\n"@, o1 + "\n"@ + "  /// Serializes this "@ + n + " to a JSON map.\n"@ + "  Map<String, dynamic> toJson() => throw _privateConstructorUsedError;\n\n"@ + "  /// Create a copy of "@ + n + "\n"@ + "  /// with the given fields replaced by the non-null parameter values.\n"@ + "  @JsonKey(includeFromJson: false, includeToJson: false)\n"@ + "  $"@ + n + "CopyWith<"@ + n + "> get copyWith => throw _privateConstructorUsedError;\n"@ + "}\n\n"@ + "/// @nodoc\n"@);
    lemma_keeps_add(o1 + "\n"@ + "  /// Serializes this "@ + n + " to a JSON map.\n"@ + "  Map<String, dynamic> toJson() => throw _privateConstructorUsedError;\n\n"@ + "  /// Create a copy of "@ + n + "\n"@ + "  /// with the given fields replaced by the non-null parameter values.\n"@ + "  @JsonKey(includeFromJson: false, includeToJson: false)\n"@ + "  $"@ + n + "CopyWith<"@ + n + "> get copyWith => throw _privateConstructorUsedError;\n"@ + "}\n\n"@ + "/// @nodoc\n"@, "abstract class $"@);
    lemma_keeps_trans(o, o1 + "\n"@ + "  /// Serializes this "@ + n + " to a JSON map.\n"@ + "  Map<String, dynamic> toJson() => throw _privateConstructorUsedError;\n\n"@ + "  /// Create a copy of "@ + n + "\n"@ + "  /// with the given fields replaced by the non-null parameter values.\n"@ + "  @JsonKey(includeFromJson: false, includeToJson: false)\n"@ + "  $"@ + n + "CopyWith<"@ + n + "> get copyWith => throw _privateConstructorUsedError;\n"@ + "}\n\n"@ + "/// @nodoc\n"@, o1 + "\n"@ + "  /// Serializes this "@ + n + " to a JSON map.\n"@ + "  Map<String, dynamic> toJson() => throw _privateConstructorUsedError;\n\n"@ + "  /// Create a copy of "@ + n + "\n"@ + "  /// with the given fields replaced by the non-null parameter values.\n"@ + "  @JsonKey(includeFromJson: false, includeToJson: false)\n"@ + "  $"@ + n + "CopyWith<"@ + n + "> get copyWith => throw _privateConstructorUsedError;\n"@ + "}\n\n"@ + "/// @nodoc\n"@ + "abstract class $"@);
    lemma_keeps_add(o1 + "\n"@ + "  /// Serializes this "@ + n + " to a JSON map.\n"@ + "  Map<String, dynamic> toJson() => throw _privateConstructorUsedError;\n\n"@ + "  /// Create a copy of "@ + n + "\n"@ + "  /// with the given fields replaced by the non-null parameter values.\n"@ + "  @JsonKey(includeFromJson: false, includeToJson: false)\n"@ + "  $"@ + n + "CopyWith<"@ + n + "> get copyWith => throw _privateConstructorUsedError;\n"@ + "}\n\n"@ + "/// @nodoc\n"@ + "abstract class $"@, n);
    lemma_keeps_trans(o, o1 + "\n"@ + "  /// Serializes this "@ + n + " to a JSON map.\n"@ + "  Map<String, dynamic> toJson() => throw _privateConstructorUsedError;\n\n"@ + "  /// Create a copy of "@ + n + "\n"@ + "  /// with the given fields replaced by the non-null parameter values.\n"@ + "  @JsonKey(includeFromJson: false, includeToJson: false)\n"@ + "  $"@ + n + "CopyWith<"@ + n + "> get copyWith => throw _privateConstructorUsedError;\n"@ + "}\n\n"@ + "/// @nodoc\n"@ + "abstract class $"@, o1 + "\n"@ + "  /// Serializes this "@ + n + " to a JSON map.\n"@ + "  Map<String, dynamic> toJson() => throw _privateConstructorUsedError;\n\n"@ + "  /// Create a copy of "@ + n + "\n"@ + "  /// with the given fields replaced by the non-null parameter values.\n"@ + "  @JsonKey(includeFromJson: false, includeToJson: false)\n"@ + "  $"@ + n + "CopyWith<"@ + n + "> get copyWith => throw _privateConstructorUsedError;\n"@ + "}\n\n"@ + "/// @nodoc\n"@ + "abstract class $"@ + n);
    lemma_keeps_add(o1 + "\n"@ + "  /// Serializes this "@ + n + " to a JSON map.\n"@ + "  Map<String, dynamic> toJson() => throw _privateConstructorUsedError;\n\n"@ + "  /// Create a copy of "@ + n + "\n"@ + "  /// with the given fields replaced by the non-null parameter values.\n"@ + "  @JsonKey(includeFromJson: false, includeToJson: false)\n"@ + "  $"@ + n + "CopyWith<"@ + n + "> get copyWith => throw _privateConstructorUsedError;\n"@ + "}\n\n"@ + "/// @nodoc\n"@ + "abstract class $"@ + n, "CopyWith<$Res> {\n"@);
    lemma_keeps_trans(o, o1 + "\n"@ + "  /// Serializes this "@ + n + " to a JSON map.\n"@ + "  Map<String, dynamic> toJson() => throw _privateConstructorUsedError;\n\n"@ + "  /// Create a copy of "@ + n + "\n"@ + "  /// with the given fields replaced by the non-null parameter values.\n"@ + "  @JsonKey(includeFromJson: false, includeToJson: false)\n"@ + "  $"@ + n + "CopyWith<"@ + n + "> get copyWith => throw _privateConstructorUsedError;\n"@ + "}\n\n"@ + "/// @nodoc\n"@ + "abstract class $"@ + n, o1 + "\n"@ + "  /// Serializes this "@ + n + " to a JSON map.\n"@ + "  Map<String, dynamic> toJson() => throw _privateConstructorUsedError;\n\n"@ + "  /// Create a copy of "@ + n + "\n"@ + "  /// with the given fields replaced by the non-null parameter values.\n"@ + "  @JsonKey(includeFromJson: false, includeToJson: false)\n"@ + "  $"@ + n + "CopyWith<"@ + n + "> get copyWith => throw _privateConstructorUsedError;\n"@ + "}\n\n"@ + "/// @nodoc\n"@ + "abstract class $"@ + n + "CopyWith<$Res> {\n"@);
    lemma_keeps_add(o1 + "\n"@ + "  /// Serializes this "@ + n + " to a JSON map.\n"@ + "  Map<String, dynamic> toJson() => throw _privateConstructorUsedError;\n\n"@ + "  /// Create a copy of "@ + n + "\n"@ + "  /// with the given fields replaced by the non-null parameter values.\n"@ + "  @JsonKey(includeFromJson: false, includeToJson: false)\n"@ + "  $"@ + n + "CopyWith<"@ + n + "> get copyWith => throw _privateConstructorUsedError;\n"@ + "}\n\n"@ + "/// @nodoc\n"@ + "abstract class $"@ + n + "CopyWith<$Res> {\n"@, "  factory $"@);
    lemma_keeps_trans(o, o1 + "\n"@ + "  /// Serializes this "@ + n + " to a JSON map.\n"@ + "  Map<String, dynamic> toJson() => throw _privateConstructorUsedError;\n\n"@ + "  /// Create a copy of "@ + n + "\n"@ + "  /// with the given fields replaced by the non-null parameter values.\n"@ + "  @JsonKey(includeFromJson: false, includeToJson: false)\n"@ + "  $"@ + n + "CopyWith<"@ + n + "> get copyWith => throw _privateConstructorUsedError;\n"@ + "}\n\n"@ + "/// @nodoc\n"@ + "abstract class $"@ + n + "CopyWith<$Res> {\n"@, o1 + "\n"@ + "  /// Serializes this "@ + n + " to a JSON map.\n"@ + "  Map<String, dynamic> toJson() => throw _privateConstructorUsedError;\n\n"@ + "  /// Create a copy of "@ + n + "\n"@ + "  /// with the given fields replaced by the non-null parameter values.\n"@ + "  @JsonKey(includeFromJson: false, includeToJson: false)\n"@ + "  $"@ + n + "CopyWith<"@ + n + "> get copyWith => throw _privateConstructorUsedError;\n"@ + "}\n\n"@ + "/// @nodoc\n"@ + "abstract class $"@ + n + "CopyWith<$Res> {\n"@ + "  factory $"@);
    lemma_keeps_add(o1 + "\n"@ + "  /// Serializes this "@ + n + " to a JSON map.\n"@ + "  Map<String, dynamic> toJson() => throw _privateConstructorUsedError;\n\n"@ + "  /// Create a copy of "@ + n + "\n"@ + "  /// with the given fields replaced by the non-null parameter values.\n"@ + "  @JsonKey(includeFromJson: false, includeToJson: false)\n"@ + "  $"@ + n + "CopyWith<"@ + n + "> get copyWith => throw _privateConstructorUsedError;\n"@ + "}\n\n"@ + "/// @nodoc\n"@ + "abstract class $"@ + n + "CopyWith<$Res> {\n"@ + "  factory $"@, n);
    lemma_keeps_trans(o, o1 + "\n"@ + "  /// Serializes this "@ + n + " to a JSON map.\n"@ + "  Map<String, dynamic> toJson() => throw _privateConstructorUsedError;\n\n"@ + "  /// Create a copy of "@ + n + "\n"@ + "  /// with the given fields replaced by the non-null parameter values.\n"@ + "  @JsonKey(includeFromJson: false, includeToJson: false)\n"@ + "  $"@ + n + "CopyWith<"@ + n + "> get copyWith => throw _privateConstructorUsedError;\n"@ + "}\n\n"@ + "/// @nodoc\n"@ + "abstract class $"@ + n + "CopyWith<$Res> {\n"@ + "  factory $"@, o1 + "\n"@ + "  /// Serializes this "@ + n + " to a JSON map.\n"@ + "  Map<String, dynamic> toJson() => throw _privateConstructorUsedError;\n\n"@ + "  /// Create a copy of "@ + n + "\n"@ + "  /// with the given fields replaced by the non-null parameter values.\n"@ + "  @JsonKey(includeFromJson: false, includeToJson: false)\n"@ + "  $"@ + n + "CopyWith<"@ + n + "> get copyWith => throw _privateConstructorUsedError;\n"@ + "}\n\n"@ + "/// @nodoc\n"@ + "abstract class $"@ + n + "CopyWith<$Res> {\n"@ + "  factory $"@ + n);
    lemma_keeps_add(o1 + "\n"@ + "  /// Serializes this "@ + n + " to a JSON map.\n"@ + "  Map<String, dynamic> toJson() => throw _privateConstructorUsedError;\n\n"@ + "  /// Create a copy of "@ + n + "\n"@ + "  /// with the given fields replaced by the non-null parameter values.\n"@ + "  @JsonKey(includeFromJson: false, includeToJson: false)\n"@ + "  $"@ + n + "CopyWith<"@ + n + "> get copyWith => throw _privateConstructorUsedError;\n"@ + "}\n\n"@ + "/// @nodoc\n"@ + "abstract class $"@ + n + "CopyWith<$Res> {\n"@ + "  factory $"@ + n, "CopyWith("@);
    lemma_keeps_trans(o, o1 + "\n"@ + "  /// Serializes this "@ + n + " to a JSON map.\n"@ + "  Map<String, dynamic> toJson() => throw _privateConstructorUsedError;\n\n"@ + "  /// Create a copy of "@ + n + "\n"@ + "  /// with the given fields replaced by the non-null parameter values.\n"@ + "  @JsonKey(includeFromJson: false, includeToJson: false)\n"@ + "  $"@ + n + "CopyWith<"@ + n + "> get copyWith => throw _privateConstructorUsedError;\n"@ + "}\n\n"@ + "/// @nodoc\n"@ + "abstract class $"@ + n + "CopyWith<$Res> {\n"@ + "  factory $"@ + n, o1 + "\n"@ + "  /// Serializes this "@ + n + " to a JSON map.\n"@ + "  Map<String, dynamic> toJson() => throw _privateConstructorUsedError;\n\n"@ + "  /// Create a copy of "@ + n + "\n"@ + "  /// with the given fields replaced by the non-null parameter values.\n"@ + "  @JsonKey(includeFromJson: false, includeToJson: false)\n"@ + "  $"@ + n + "CopyWith<"@ + n + "> get copyWith => throw _privateConstructorUsedError;\n"@ + "}\n\n"@ + "/// @nodoc\n"@ + "abstract class $"@ + n + "CopyWith<$Res> {\n"@ + "  factory $"@ + n + "CopyWith("@);
    lemma_keeps_add(o1 + "\n"@ + "  /// Serializes this "@ + n + " to a JSON map.\n"@ + "  Map<String, dynamic> toJson() => throw _privateConstructorUsedError;\n\n"@ + "  /// Create a copy of "@ + n + "\n"@ + "  /// with the given fields replaced by the non-null parameter values.\n"@ + "  @JsonKey(includeFromJson: false, includeToJson: false)\n"@ + "  $"@ + n + "CopyWith<"@ + n + "> get copyWith => throw _privateConstructorUsedError;\n"@ + "}\n\n"@ + "/// @nodoc\n"@ + "abstract class $"@ + n + "CopyWith<$Res> {\n"@ + "  factory $"@ + n + "CopyWith("@, n);
    lemma_keeps_trans(o, o1 + "\n"@ + "  /// Serializes this "@ + n + " to a JSON map.\n"@ + "  Map<String, dynamic> toJson() => throw _privateConstructorUsedError;\n\n"@ + "  /// Create a copy of "@ + n + "\n"@ + "  /// with the given fields replaced by the non-null parameter values.\n"@ + "  @JsonKey(includeFromJson: false, includeToJson: false)\n"@ + "  $"@ + n + "CopyWith<"@ + n + "> get copyWith => throw _privateConstructorUsedError;\n"@ + "}\n\n"@ + "/// @nodoc\n"@ + "abstract class $"@ + n + "CopyWith<$Res> {\n"@ + "  factory $"@ + n + "CopyWith("@, o1 + "\n"@ + "  /// Serializes this "@ + n + " to a JSON map.\n"@ + "  Map<String, dynamic> toJson() => throw _privateConstructorUsedError;\n\n"@ + "  /// Create a copy of "@ + n + "\n"@ + "  /// with the given fields replaced by the non-null parameter values.\n"@ + "  @JsonKey(includeFromJson: false, includeToJson: false)\n"@ + "  $"@ + n + "CopyWith<"@ + n + "> get copyWith => throw _privateConstructorUsedError;\n"@ + "}\n\n"@ + "/// @nodoc\n"@ + "abstract class $"@ + n + "CopyWith<$Res> {\n"@ + "  factory $"@ + n + "CopyWith("@ + n);
    lemma_keeps_add(o1 + "\n"@ + "  /// Serializes this "@ + n + " to a JSON map.\n"@ + "  Map<String, dynamic> toJson() => throw _privateConstructorUsedError;\n\n"@ + "  /// Create a copy of "@ + n + "\n"@ + "  /// with the given fields replaced by the non-null parameter values.\n"@ + "  @JsonKey(includeFromJson: false, includeToJson: false)\n"@ + "  $"@ + n + "CopyWith<"@ + n + "> get copyWith => throw _privateConstructorUsedError;\n"@ + "}\n\n"@ + "/// @nodoc\n"@ + "abstract class $"@ + n + "CopyWith<$Res> {\n"@ + "  factory $"@ + n + "CopyWith("@ + n, " value, $Res Function("@);
    lemma_keeps_trans(o, o1 + "\n"@ + "  /// Serializes this "@ + n + " to a JSON map.\n"@ + "  Map<String, dynamic> toJson() => throw _privateConstructorUsedError;\n\n"@ + "  /// Create a copy of "@ + n + "\n"@ + "  /// with the given fields replaced by the non-null parameter values.\n"@ + "  @JsonKey(includeFromJson: false, includeToJson: false)\n"@ + "  $"@ + n + "CopyWith<"@ + n + "> get copyWith => throw _privateConstructorUsedError;\n"@ + "}\n\n"@ + "/// @nodoc\n"@ + "abstract class $"@ + n + "CopyWith<$Res> {\n"@ + "  factory $"@ + n + "CopyWith("@ + n, o1 + "\n"@ + "  /// Serializes this "@ + n + " to a JSON map.\n"@ + "  Map<String, dynamic> toJson() => throw _privateConstructorUsedError;\n\n"@ + "  /// Create a copy of "@ + n + "\n"@ + "  /// with the given fields replaced by the non-null parameter values.\n"@ + "  @JsonKey(includeFromJson: false, includeToJson: false)\n"@ + "  $"@ + n + "CopyWith<"@ + n + "> get copyWith => throw _privateConstructorUsedError;\n"@ + "}\n\n"@ + "/// @nodoc\n"@ + "abstract class $"@ + n + "CopyWith<$Res> {\n"@ + "  factory $"@ + n + "CopyWith("@ + n + " value, $Res Function("@);
    lemma_keeps_add(o1 + "\n"@ + "  /// Serializes this "@ + n + " to a JSON map.\n"@ + "  Map<String, dynamic> toJson() => throw _privateConstructorUsedError;\n\n"@ + "  /// Create a copy of "@ + n + "\n"@ + "  /// with the given fields replaced by the non-null parameter values.\n"@ + "  @JsonKey(includeFromJson: false, includeToJson: false)\n"@ + "  $"@ + n + "CopyWith<"@ + n + "> get copyWith => throw _privateConstructorUsedError;\n"@ + "}\n\n"@ + "/// @nodoc\n"@ + "abstract class $"@ + n + "CopyWith<$Res> {\n"@ + "  factory $"@ + n + "CopyWith("@ + n + " value, $Res Function("@, n);
    lemma_keeps_trans(o, o1 + "\n"@ + "  /// Serializes this "@ + n + " to a JSON map.\n"@ + "  Map<String, dynamic> toJson() => throw _privateConstructorUsedError;\n\n"@ + "  /// Create a copy of "@ + n + "\n"@ + "  /// with the given fields replaced by the non-null parameter values.\n"@ + "  @JsonKey(includeFromJson: false, includeToJson: false)\n"@ + "  $"@ + n + "CopyWith<"@ + n + "> get copyWith => throw _privateConstructorUsedError;\n"@ + "}\n\n"@ + "/// @nodoc\n"@ + "abstract class $"@ + n + "CopyWith<$Res> {\n"@ + "  factory $"@ + n + "CopyWith("@ + n + " value, $Res Function("@, o1 + "\n"@ + "  /// Serializes this "@ + n + " to a JSON map.\n"@ + "  Map<String, dynamic> toJson() => throw _privateConstructorUsedError;\n\n"@ + "  /// Create a copy of "@ + n + "\n"@ + "  /// with the given fields replaced by the non-null parameter values.\n"@ + "  @JsonKey(includeFromJson: false, includeToJson: false)\n"@ + "  $"@ + n + "CopyWith<"@ + n + "> get copyWith => throw _privateConstructorUsedError;\n"@ + "}\n\n"@ + "/// @nodoc\n"@ + "abstract class $"@ + n + "CopyWith<$Res> {\n"@ + "  factory $"@ + n + "CopyWith("@ + n + " value, $Res Function("@ + n);
    lemma_keeps_add(o1 + "\n"@ + "  /// Serializes this "@ + n + " to a JSON map.\n"@ + "  Map<String, dynamic> toJson() => throw _privateConstructorUsedError;\n\n"@ + "  /// Create a copy of "@ + n + "\n"@ + "  /// with the given fields replaced by the non-null parameter values.\n"@ + "  @JsonKey(includeFromJson: false, includeToJson: false)\n"@ + "  $"@ + n + "CopyWith<"@ + n + "> get copyWith => throw _privateConstructorUsedError;\n"@ + "}\n\n"@ + "/// @nodoc\n"@ + "abstract class $"@ + n + "CopyWith<$Res> {\n"@ + "  factory $"@ + n + "CopyWith("@ + n + " value, $Res Function("@ + n, ") then) =\n"@);
    lemma_keeps_trans(o, o1 + "\n"@ + "  /// Serializes this "@ + n + " to a JSON map.\n"@ + "  Map<String, dynamic> toJson() => throw _privateConstructorUsedError;\n\n"@ + "  /// Create a copy of "@ + n + "\n"@ + "  /// with the given fields replaced by the non-null parameter values.\n"@ + "  @JsonKey(includeFromJson: false, includeToJson: false)\n"@ + "  $"@ + n + "CopyWith<"@ + n + "> get copyWith => throw _privateConstructorUsedError;\n"@ + "}\n\n"@ + "/// @nodoc\n"@ + "abstract class $"@ + n + "CopyWith<$Res> {\n"@ + "  factory $"@ + n + "CopyWith("@ + n + " value, $Res Function("@ + n, o1 + "\n"@ + "  /// Serializes this "@ + n + " to a JSON map.\n"@ + "  Map<String, dynamic> toJson() => throw _privateConstructorUsedError;\n\n"@ + "  /// Create a copy of "@ + n + "\n"@ + "  /// with the given fields replaced by the non-null parameter values.\n"@ + "  @JsonKey(includeFromJson: false, includeToJson: false)\n"@ + "  $"@ + n + "CopyWith<"@ + n + "> get copyWith => throw _privateConstructorUsedError;\n"@ + "}\n\n"@ + "/// @nodoc\n"@ + "abstract class $"@ + n + "CopyWith<$Res> {\n"@ + "  factory $"@ + n + "CopyWith("@ + n + " value, $Res Function("@ + n + ") then) =\n"@);
    lemma_keeps_add(o1 + "\n"@ + "  /// Serializes this "@ + n + " to a JSON map.\n"@ + "  Map<String, dynamic> toJson() => throw _privateConstructorUsedError;\n\n"@ + "  /// Create a copy of "@ + n + "\n"@ + "  /// with the given fields replaced by the non-null parameter values.\n"@ + "  @JsonKey(includeFromJson: false, includeToJson: false)\n"@ + "  $"@ + n + "CopyWith<"@ + n + "> get copyWith => throw _privateConstructorUsedError;\n"@ + "}\n\n"@ + "/// @nodoc\n"@ + "abstract class $"@ + n + "CopyWith<$Res> {\n"@ + "  factory $"@ + n + "CopyWith("@ + n + " value, $Res Function("@ + n + ") then) =\n"@, "      _$"@);
    lemma_keeps_trans(o, o1 + "\n"@ + "  /// Serializes this "@ + n + " to a JSON map.\n"@ + "  Map<String, dynamic> toJson() => throw _privateConstructorUsedError;\n\n"@ + "  /// Create a copy of "@ + n + "\n"@ + "  /// with the given fields replaced by the non-null parameter values.\n"@ + "  @JsonKey(includeFromJson: false, includeToJson: false)\n"@ + "  $"@ + n + "CopyWith<"@ + n + "> get copyWith => throw _privateConstructorUsedError;\n"@ + "}\n\n"@ + "/// @nodoc\n"@ + "abstract class $"@ + n + "CopyWith<$Res> {\n"@ + "  factory $"@ + n + "CopyWith("@ + n + " value, $Res Function("@ + n + ") then) =\n"@, o1 + "\n"@ + "  /// Serializes this "@ + n + " to a JSON map.\n"@ + "  Map<String, dynamic> toJson() => throw _privateConstructorUsedError;\n\n"@ + "  /// Create a copy of "@ + n + "\n"@ + "  /// with the given fields replaced by the non-null parameter values.\n"@ + "  @JsonKey(includeFromJson: false, includeToJson: false)\n"@ + "  $"@ + n + "CopyWith<"@ + n + "> get copyWith => throw _privateConstructorUsedError;\n"@ + "}\n\n"@ + "/// @nodoc\n"@ + "abstract class $"@ + n + "CopyWith<$Res> {\n"@ + "  factory $"@ + n + "CopyWith("@ + n + " value, $Res Function("@ + n + ") then) =\n"@ + "      _$"@);
    lemma_keeps_add(o1 + "\n"@ + "  /// Serializes this "@ + n + " to a JSON map.\n"@ + "  Map<String, dynamic> toJson() => throw _privateConstructorUsedError;\n\n"@ + "  /// Create a copy of "@ + n + "\n"@ + "  /// with the given fields replaced by the non-null parameter values.\n"@ + "  @JsonKey(includeFromJson: false, includeToJson: false)\n"@ + "  $"@ + n + "CopyWith<"@ + n + "> get copyWith => throw _privateConstructorUsedError;\n"@ + "}\n\n"@ + "/// @nodoc\n"@ + "abstract class $"@ + n + "CopyWith<$Res> {\n"@ + "  factory $"@ + n + "CopyWith("@ + n + " value, $Res Function("@ + n + ") then) =\n"@ + "      _$"@, n);
    lemma_keeps_trans(o, o1 + "\n"@ + "  /// Serializes this "@ + n + " to a JSON map.\n"@ + "  Map<String, dynamic> toJson() => throw _privateConstructorUsedError;\n\n"@ + "  /// Create a copy of "@ + n + "\n"@ + "  /// with the given fields replaced by the non-null parameter values.\n"@ + "  @JsonKey(includeFromJson: false, includeToJson: false)\n"@ + "  $"@ + n + "CopyWith<"@ + n + "> get copyWith => throw _privateConstructorUsedError;\n"@ + "}\n\n"@ + "/// @nodoc\n"@ + "abstract class $"@ + n + "CopyWith<$Res> {\n"@ + "  factory $"@ + n + "CopyWith("@ + n + " value, $Res Function("@ + n + ") then) =\n"@ + "      _$"@, o1 + "\n"@ + "  /// Serializes this "@ + n + " to a JSON map.\n"@ + "  Map<String, dynamic> toJson() => throw _privateConstructorUsedError;\n\n"@ + "  /// Create a copy of "@ + n + "\n"@ + "  /// with the given fields replaced by the non-null parameter values.\n"@ + "  @JsonKey(includeFromJson: false, includeToJson: false)\n"@ + "  $"@ + n + "CopyWith<"@ + n + "> get copyWith => throw _privateConstructorUsedError;\n"@ + "}\n\n"@ + "/// @nodoc\n"@ + "abstract class $"@ + n + "CopyWith<$Res> {\n"@ + "  factory $"@ + n + "CopyWith("@ + n + " value, $Res Function("@ + n + ") then) =\n"@ + "      _$"@ + n);
    lemma_keeps_add(o1 + "\n"@ + "  /// Serializes this "@ + n + " to a JSON map.\n"@ + "  Map<String, dynamic> toJson() => throw _privateConstructorUsedError;\n\n"@ + "  /// Create a copy of "@ + n + "\n"@ + "  /// with the given fields replaced by the non-null parameter values.\n"@ + "  @JsonKey(includeFromJson: false, includeToJson: false)\n"@ + "  $"@ + n + "CopyWith<"@ + n + "> get copyWith => throw _privateConstructorUsedError;\n"@ + "}\n\n"@ + "/// @nodoc\n"@ + "abstract class $"@ + n + "CopyWith<$Res> {\n"@ + "  factory $"@ + n + "CopyWith("@ + n + " value, $Res Function("@ + n + ") then) =\n"@ + "      _$"@ + n, "CopyWithImpl<$Res, "@);
    lemma_keeps_trans(o, o1 + "\n"@ + "  /// Serializes this "@ + n + " to a JSON map.\n"@ + "  Map<String, dynamic> toJson() => throw _privateConstructorUsedError;\n\n"@ + "  /// Create a copy of "@ + n + "\n"@ + "  /// with the given fields replaced by the non-null parameter values.\n"@ + "  @JsonKey(includeFromJson: false, includeToJson: false)\n"@ + "  $"@ + n + "CopyWith<"@ + n + "> get copyWith => throw _privateConstructorUsedError;\n"@ + "}\n\n"@ + "/// @nodoc\n"@ + "abstract class $"@ + n + "CopyWith<$Res> {\n"@ + "  factory $"@ + n + "CopyWith("@ + n + " value, $Res Function("@ + n + ") then) =\n"@ + "      _$"@ + n, o1 + "\n"@ + "  /// Serializes this "@ + n + " to a JSON map.\n"@ + "  Map<String, dynamic> toJson() => throw _privateConstructorUsedError;\n\n"@ + "  /// Create a copy of "@ + n + "\n"@ + "  /// with the given fields replaced by the non-null parameter values.\n"@ + "  @JsonKey(includeFromJson: false, includeToJson: false)\n"@ + "  $"@ + n + "CopyWith<"@ + n + "> get copyWith => throw _privateConstructorUsedError;\n"@ + "}\n\n"@ + "/// @nodoc\n"@ + "abstract class $"@ + n + "CopyWith<$Res> {\n"@ + "  factory $"@ + n + "CopyWith("@ + n + " value, $Res Function("@ + n + ") then) =\n"@ + "      _$"@ + n + "CopyWithImpl<$Res, "@);
    lemma_keeps_add(o1 + "\n"@ + "  /// Serializes this "@ + n + " to a JSON map.\n"@ + "  Map<String, dynamic> toJson() => throw _privateConstructorUsedError;\n\n"@ + "  /// Create a copy of "@ + n + "\n"@ + "  /// with the given fields replaced by the non-null parameter values.\n"@ + "  @JsonKey(includeFromJson: false, includeToJson: false)\n"@ + "  $"@ + n + "CopyWith<"@ + n + "> get copyWith => throw _privateConstructorUsedError;\n"@ + "}\n\n"@ + "/// @nodoc\n"@ + "abstract class $"@ + n + "CopyWith<$Res> {\n"@ + "  factory $"@ + n + "CopyWith("@ + n + " value, $Res Function("@ + n + ") then) =\n"@ + "      _$"@ + n + "CopyWithImpl<$Res, "@, n);
    lemma_keeps_trans(o, o1 + "\n"@ + "  /// Serializes this "@ + n + " to a JSON map.\n"@ + "  Map<String, dynamic> toJson() => throw _privateConstructorUsedError;\n\n"@ + "  /// Create a copy of "@ + n + "\n"@ + "  /// with the given fields replaced by the non-null parameter values.\n"@ + "  @JsonKey(includeFromJson: false, includeToJson: false)\n"@ + "  $"@ + n + "CopyWith<"@ + n + "> get copyWith => throw _privateConstructorUsedError;\n"@ + "}\n\n"@ + "/// @nodoc\n"@ + "abstract class $"@ + n + "CopyWith<$Res> {\n"@ + "  factory $"@ + n + "CopyWith("@ + n + " value, $Res Function("@ + n + ") then) =\n"@ + "      _$"@ + n + "CopyWithImpl<$Res, "@, o1 + "\n"@ + "  /// Serializes this "@ + n + " to a JSON map.\n"@ + "  Map<String, dynamic> toJson() => throw _privateConstructorUsedError;\n\n"@ + "  /// Create a copy of "@ + n + "\n"@ + "  /// with the given fields replaced by the non-null parameter values.\n"@ + "  @JsonKey(includeFromJson: false, includeToJson: false)\n"@ + "  $"@ + n + "CopyWith<"@ + n + "> get copyWith => throw _privateConstructorUsedError;\n"@ + "}\n\n"@ + "/// @nodoc\n"@ + "abstract class $"@ + n + "CopyWith<$Res> {\n"@ + "  factory $"@ + n + "CopyWith("@ + n + " value, $Res Function("@ + n + ") then) =\n"@ + "      _$"@ + n + "CopyWithImpl<$Res, "@ + n);
    lemma_keeps_add(o1 + "\n"@ + "  /// Serializes this "@ + n + " to a JSON map.\n"@ + "  Map<String, dynamic> toJson() => throw _privateConstructorUsedError;\n\n"@ + "  /// Create a copy of "@ + n + "\n"@ + "  /// with the given fields replaced by the non-null parameter values.\n"@ + "  @JsonKey(includeFromJson: false, includeToJson: false)\n"@ + "  $"@ + n + "CopyWith<"@ + n + "> get copyWith => throw _privateConstructorUsedError;\n"@ + "}\n\n"@ + "/// @nodoc\n"@ + "abstract class $"@ + n + "CopyWith<$Res> {\n"@ + "  factory $"@ + n + "CopyWith("@ + n + " value, $Res Function("@ + n + ") then) =\n"@ + "      _$"@ + n + "CopyWithImpl<$Res, "@ + n, ">;\n"@);
    lemma_keeps_trans(o, o1 + "\n"@ + "  /// Serializes this "@ + n + " to a JSON map.\n"@ + "  Map<String, dynamic> toJson() => throw _privateConstructorUsedError;\n\n"@ + "  /// Create a copy of "@ + n + "\n"@ + "  /// with the given fields replaced by the non-null parameter values.\n"@ + "  @JsonKey(includeFromJson: false, includeToJson: false)\n"@ + "  $"@ + n + "CopyWith<"@ + n + "> get copyWith => throw _privateConstructorUsedError;\n"@ + "}\n\n"@ + "/// @nodoc\n"@ + "abstract class $"@ + n + "CopyWith<$Res> {\n"@ + "  factory $"@ + n + "CopyWith("@ + n + " value, $Res Function("@ + n + ") then) =\n"@ + "      _$"@ + n + "CopyWithImpl<$Res, "@ + n, o1 + "\n"@ + "  /// Serializes this "@ + n + " to a JSON map.\n"@ + "  Map<String, dynamic> toJson() => throw _privateConstructorUsedError;\n\n"@ + "  /// Create a copy of "@ + n + "\n"@ + "  /// with the given fields replaced by the non-null parameter values.\n"@ + "  @JsonKey(includeFromJson: false, includeToJson: false)\n"@ + "  $"@ + n + "CopyWith<"@ + n + "> get copyWith => throw _privateConstructorUsedError;\n"@ + "}\n\n"@ + "/// @nodoc\n"@ + "abstract class $"@ + n + "CopyWith<$Res> {\n"@ + "  factory $"@ + n + "CopyWith("@ + n + " value, $Res Function("@ + n + ") then) =\n"@ + "      _$"@ + n + "CopyWithImpl<$Res, "@ + n + ">;\n"@);
    lemma_keeps_add(o1 + "\n"@ + "  /// Serializes this "@ + n + " to a JSON map.\n"@ + "  Map<String, dynamic> toJson() => throw _privateConstructorUsedError;\n\n"@ + "  /// Create a copy of "@ + n + "\n"@ + "  /// with the given fields replaced by the non-null parameter values.\n"@ + "  @JsonKey(includeFromJson: false, includeToJson: false)\n"@ + "  $"@ + n + "CopyWith<"@ + n + "> get copyWith => throw _privateConstructorUsedError;\n"@ + "}\n\n"@ + "/// @nodoc\n"@ + "abstract class $"@ + n + "CopyWith<$Res> {\n"@ + "  factory $"@ + n + "CopyWith("@ + n + " value, $Res Function("@ + n + ") then) =\n"@ + "      _$"@ + n + "CopyWithImpl<$Res, "@ + n + ">;\n"@, "  @useResult\n"@);
    lemma_keeps_trans(o, o1 + "\n"@ + "  /// Serializes this "@ + n + " to a JSON map.\n"@ + "  Map<String, dynamic> toJson() => throw _privateConstructorUsedError;\n\n"@ + "  /// Create a copy of "@ + n + "\n"@ + "  /// with the given fields replaced by the non-null parameter values.\n"@ + "  @JsonKey(includeFromJson: false, includeToJson: false)\n"@ + "  $"@ + n + "CopyWith<"@ + n + "> get copyWith => throw _privateConstructorUsedError;\n"@ + "}\n\n"@ + "/// @nodoc\n"@ + "abstract class $"@ + n + "CopyWith<$Res> {\n"@ + "  factory $"@ + n + "CopyWith("@ + n + " value, $Res Function("@ + n + ") then) =\n"@ + "      _$"@ + n + "CopyWithImpl<$Res, "@ + n + ">;\n"@, o1 + "\n"@ + "  /// Serializes this "@ + n + " to a JSON map.\n"@ + "  Map<String, dynamic> toJson() => throw _privateConstructorUsedError;\n\n"@ + "  /// Create a copy of "@ + n + "\n"@ + "  /// with the given fields replaced by the non-null parameter values.\n"@ + "  @JsonKey(includeFromJson: false, includeToJson: false)\n"@ + "  $"@ + n + "CopyWith<"@ + n + "> get copyWith => throw _privateConstructorUsedError;\n"@ + "}\n\n"@ + "/// @nodoc\n"@ + "abstract class $"@ + n + "CopyWith<$Res> {\n"@ + "  factory $"@ + n + "CopyWith("@ + n + " value, $Res Function("@ + n + ") then) =\n"@ + "      _$"@ + n + "CopyWithImpl<$Res, "@ + n + ">;\n"@ + "  @useResult\n"@);
    lemma_keeps_add(o1 + "\n"@ + "  /// Serializes this "@ + n + " to a JSON map.\n"@ + "  Map<String, dynamic> toJson() => throw _privateConstructorUsedError;\n\n"@ + "  /// Create a copy of "@ + n + "\n"@ + "  /// with the given fields replaced by the non-null parameter values.\n"@ + "  @JsonKey(includeFromJson: false, includeToJson: false)\n"@ + "  $"@ + n + "CopyWith<"@ + n + "> get copyWith => throw _privateConstructorUsedError;\n"@ + "}\n\n"@ + "/// @nodoc\n"@ + "abstract class $"@ + n + "CopyWith<$Res> {\n"@ + "  factory $"@ + n + "CopyWith("@ + n + " value, $Res Function("@ + n + ") then) =\n"@ + "      _$"@ + n + "CopyWithImpl<$Res, "@ + n + ">;\n"@ + "  @useResult\n"@, "  $Res call({"@);
    lemma_keeps_trans(o, o1 + "\n"@ + "  /// Serializes this "@ + n + " to a JSON map.\n"@ + "  Map<String, dynamic> toJson() => throw _privateConstructorUsedError;\n\n"@ + "  /// Create a copy of "@ + n + "\n"@ + "  /// with the given fields replaced by the non-null parameter values.\n"@ + "  @JsonKey(includeFromJson: false, includeToJson: false)\n"@ + "  $"@ + n + "CopyWith<"@ + n + "> get copyWith => throw _privateConstructorUsedError;\n"@ + "}\n\n"@ + "/// @nodoc\n"@ + "abstract class $"@ + n + "CopyWith<$Res> {\n"@ + "  factory $"@ + n + "CopyWith("@ + n + " value, $Res Function("@ + n + ") then) =\n"@ + "      _$"@ + n + "CopyWithImpl<$Res, "@ + n + ">;\n"@ + "  @useResult\n"@, o1 + "\n"@ + "  /// Serializes this "@ + n + " to a JSON map.\n"@ + "  Map<String, dynamic> toJson() => throw _privateConstructorUsedError;\n\n"@ + "  /// Create a copy of "@ + n + "\n"@ + "  /// with the given fields replaced by the non-null parameter values.\n"@ + "  @JsonKey(includeFromJson: false, includeToJson: false)\n"@ + "  $"@ + n + "CopyWith<"@ + n + "> get copyWith => throw _privateConstructorUsedError;\n"@ + "}\n\n"@ + "/// @nodoc\n"@ + "abstract class $"@ + n + "CopyWith<$Res> {\n"@ + "  factory $"@ + n + "CopyWith("@ + n + " value, $Res Function("@ + n + ") then) =\n"@ + "      _$"@ + n + "CopyWithImpl<$Res, "@ + n + ">;\n"@ + "  @useResult\n"@ + "  $Res call({"@);
    lemma_fold_put_keeps(o1 + "\n"@ + "  /// Serializes this "@ + n + " to a JSON map.\n"@ + "  Map<String, dynamic> toJson() => throw _privateConstructorUsedError;\n\n"@ + "  /// Create a copy of "@ + n + "\n"@ + "  /// with the given fields replaced by the non-null parameter values.\n"@ + "  @JsonKey(includeFromJson: false, includeToJson: false)\n"@ + "  $"@ + n + "CopyWith<"@ + n + "> get copyWith => throw _privateConstructorUsedError;\n"@ + "}\n\n"@ + "/// @nodoc\n"@ + "abstract class $"@ + n + "CopyWith<$Res> {\n"@ + "  factory $"@ + n + "CopyWith("@ + n + " value, $Res Function("@ + n + ") then) =\n"@ + "      _$"@ + n + "CopyWithImpl<$Res, "@ + n + ">;\n"@ + "  @useResult\n"@ + "  $Res call({"@, fs, field_piece_fn(FieldPiece::CallParam));
    lemma_keeps_trans(o, o1 + "\n"@ + "  /// Serializes this "@ + n + " to a JSON map.\n"@ + "  Map<String, dynamic> toJson() => throw _privateConstructorUsedError;\n\n"@ + "  /// Create a copy of "@ + n + "\n"@ + "  /// with the given fields replaced by the non-null parameter values.\n"@ + "  @JsonKey(includeFromJson: false, includeToJson: false)\n"@ + "  $"@ + n + "CopyWith<"@ + n + "> get copyWith => throw _privateConstructorUsedError;\n"@ + "}\n\n"@ + "/// @nodoc\n"@ + "abstract class $"@ + n + "CopyWith<$Res> {\n"@ + "  factory $"@ + n + "CopyWith("@ + n + " value, $Res Function("@ + n + ") then) =\n"@ + "      _$"@ + n + "CopyWithImpl<$Res, "@ + n + ">;\n"@ + "  @useResult\n"@ + "  $Res call({"@, fold_put(o1 + "\n"@ + "  /// Serializes this "@ + n + " to a JSON map.\n"@ + "  Map<String, dynamic> toJson() => throw _privateConstructorUsedError;\n\n"@ + "  /// Create a copy of "@ + n + "\n"@ + "  /// with the given fields replaced by the non-null parameter values.\n"@ + "  @JsonKey(includeFromJson: false, includeToJson: false)\n"@ + "  $"@ + n + "CopyWith<"@ + n + "> get copyWith => throw _privateConstructorUsedError;\n"@ + "}\n\n"@ + "/// @nodoc\n"@ + "abstract class $"@ + n + "CopyWith<$Res> {\n"@ + "  factory $"@ + n + "CopyWith("@ + n + " value, $Res Function("@ + n + ") then) =\n"@ + "      _$"@ + n + "CopyWithImpl<$Res, "@ + n + ">;\n"@ + "  @useResult\n"@ + "  $Res call({"@, fs, field_piece_fn(FieldPiece::CallParam)));
    let o2 = fold_put(o1 + "\n"@ + "  /// Serializes this "@ + n + " to a JSON map.\n"@ + "  Map<String, dynamic> toJson() => throw _privateConstructorUsedError;\n\n"@ + "  /// Create a copy of "@ + n + "\n"@ + "  /// with the given fields replaced by the non-null parameter values.\n"@ + "  @JsonKey(includeFromJson: false, includeToJson: false)\n"@ + "  $"@ + n + "CopyWith<"@ + n + "> get copyWith => throw _privateConstructorUsedError;\n"@ + "}\n\n"@ + "/// @nodoc\n"@ + "abstract class $"@ + n + "CopyWith<$Res> {\n"@ + "  factory $"@ + n + "CopyWith("@ + n + " value, $Res Function("@ + n + ") then) =\n"@ + "      _$"@ + n + "CopyWithImpl<$Res, "@ + n + ">;\n"@ + "  @useResult\n"@ + "  $Res call({"@, fs, field_piece_fn(FieldPiece::CallParam));
    assert(keeps(o, o2));
    lemma_keeps_add(o2, "\n  });\n"@);
    lemma_keeps_trans(o, o2, o2 + "\n  });\n"@);
    lemma_keeps_add(o2 + "\n  });\n"@, "}\n\n"@);
    lemma_keeps_trans(o, o2 + "\n  });\n"@, o2 + "\n  });\n"@ + "}\n\n"@);
    lemma_keeps_add(o2 + "\n  });\n"@ + "}\n\n"@, "/// @nodoc\n"@);
    lemma_keeps_trans(o, o2 + "\n  });\n"@ + "}\n\n"@, o2 + "\n  });\n"@ + "}\n\n"@ + "/// @nodoc\n"@);
    lemma_keeps_add(o2 + "\n  });\n"@ + "}\n\n"@ + "/// @nodoc\n"@, "class _$"@);
    lemma_keeps_trans(o, o2 + "\n  });\n"@ + "}\n\n"@ + "/// @nodoc\n"@, o2 + "\n  });\n"@ + "}\n\n"@ + "/// @nodoc\n"@ + "class _$"@);
    lemma_keeps_add(o2 + "\n  });\n"@ + "}\n\n"@ + "/// @nodoc\n"@ + "class _$"@, n);
    lemma_keeps_trans(o, o2 + "\n  });\n"@ + "}\n\n"@ + "/// @nodoc\n"@ + "class _$"@, o2 + "\n  });\n"@ + "}\n\n"@ + "/// @nodoc\n"@ + "class _$"@ + n);
    lemma_keeps_add(o2 + "\n  });\n"@ + "}\n\n"@ + "/// @nodoc\n"@ + "class _$"@ + n, "CopyWithImpl<$Res, $Val extends "@);
    lemma_keeps_trans(o, o2 + "\n  });\n"@ + "}\n\n"@ + "/// @nodoc\n"@ + "class _$"@ + n, o2 + "\n  });\n"@ + "}\n\n"@ + "/// @nodoc\n"@ + "class _$"@ + n + "CopyWithImpl<$Res, $Val extends "@);
    lemma_keeps_add(o2 + "\n  });\n"@ + "}\n\n"@ + "/// @nodoc\n"@ + "class _$"@ + n + "CopyWithImpl<$Res, $Val extends "@, n);
    lemma_keeps_trans(o, o2 + "\n  });\n"@ + "}\n\n"@ + "/// @nodoc\n"@ + "class _$"@ + n + "CopyWithImpl<$Res, $Val extends "@, o2 + "\n  });\n"@ + "}\n\n"@ + "/// @nodoc\n"@ + "class _$"@ + n + "CopyWithImpl<$Res, $Val extends "@ + n);
    lemma_keeps_add(o2 + "\n  });\n"@ + "}\n\n"@ + "/// @nodoc\n"@ + "class _$"@ + n + "CopyWithImpl<$Res, $Val extends "@ + n, ">\n"@);
    lemma_keeps_trans(o, o2 + "\n  });\n"@ + "}\n\n"@ + "/// @nodoc\n"@ + "class _$"@ + n + "CopyWithImpl<$Res, $Val extends "@ + n, o2 + "\n  });\n"@ + "}\n\n"@ + "/// @nodoc\n"@ + "class _$"@ + n + "CopyWithImpl<$Res, $Val extends "@ + n + ">\n"@);
    lemma_keeps_add(o2 + "\n  });\n"@ + "}\n\n"@ + "/// @nodoc\n"@ + "class _$"@ + n + "CopyWithImpl<$Res, $Val extends "@ + n + ">\n"@, "    implements $"@);
    lemma_keeps_trans(o, o2 + "\n  });\n"@ + "}\n\n"@ + "/// @nodoc\n"@ + "class _$"@ + n + "CopyWithImpl<$Res, $Val extends "@ + n + ">\n"@, o2 + "\n  });\n"@ + "}\n\n"@ + "/// @nodoc\n"@ + "class _$"@ + n + "CopyWithImpl<$Res, $Val extends "@ + n + ">\n"@ + "    implements $"@);
    lemma_keeps_add(o2 + "\n  });\n"@ + "}\n\n"@ + "/// @nodoc\n"@ + "class _$"@ + n + "CopyWithImpl<$Res, $Val extends "@ + n + ">\n"@ + "    implements $"@, n);
    lemma_keeps_trans(o, o2 + "\n  });\n"@ + "}\n\n"@ + "/// @nodoc\n"@ + "class _$"@ + n + "CopyWithImpl<$Res, $Val extends "@ + n + ">\n"@ + "    implements $"@, o2 + "\n  });\n"@ + "}\n\n"@ + "/// @nodoc\n"@ + "class _$"@ + n + "CopyWithImpl<$Res, $Val extends "@ + n + ">\n"@ + "    implements $"@ + n);
    lemma_keeps_add(o2 + "\n  });\n"@ + "}\n\n"@ + "/// @nodoc\n"@ + "class _$"@ + n + "CopyWithImpl<$Res, $Val extends "@ + n + ">\n"@ + "    implements $"@ + n, "CopyWith<$Res> {\n"@);
    lemma_keeps_trans(o, o2 + "\n  });\n"@ + "}\n\n"@ + "/// @nodoc\n"@ + "class _$"@ + n + "CopyWithImpl<$Res, $Val extends "@ + n + ">\n"@ + "    implements $"@ + n, o2 + "\n  });\n"@ + "}\n\n"@ + "/// @nodoc\n"@ + "class _$"@ + n + "CopyWithImpl<$Res, $Val extends "@ + n + ">\n"@ + "    implements $"@ + n + "CopyWith<$Res> {\n"@);
    lemma_keeps_add(o2 + "\n  });\n"@ + "}\n\n"@ + "/// @nodoc\n"@ + "class _$"@ + n + "CopyWithImpl<$Res, $Val extends "@ + n + ">\n"@ + "    implements $"@ + n + "CopyWith<$Res> {\n"@, "  _$"@);
    lemma_keeps_trans(o, o2 + "\n  });\n"@ + "}\n\n"@ + "/// @nodoc\n"@ + "class _$"@ + n + "CopyWithImpl<$Res, $Val extends "@ + n + ">\n"@ + "    implements $"@ + n + "CopyWith<$Res> {\n"@, o2 + "\n  });\n"@ + "}\n\n"@ + "/// @nodoc\n"@ + "class _$"@ + n + "CopyWithImpl<$Res, $Val extends "@ + n + ">\n"@ + "    implements $"@ + n + "CopyWith<$Res> {\n"@ + "  _$"@);
    lemma_keeps_add(o2 + "\n  });\n"@ + "}\n\n"@ + "/// @nodoc\n"@ + "class _$"@ + n + "CopyWithImpl<$Res, $Val extends "@ + n + ">\n"@ + "    implements $"@ + n + "CopyWith<$Res> {\n"@ + "  _$"@, n);
    lemma_keeps_trans(o, o2 + "\n  });\n"@ + "}\n\n"@ + "/// @nodoc\n"@ + "class _$"@ + n + "CopyWithImpl<$Res, $Val extends "@ + n + ">\n"@ + "    implements $"@ + n + "CopyWith<$Res> {\n"@ + "  _$"@, o2 + "\n  });\n"@ + "}\n\n"@ + "/// @nodoc\n"@ + "class _$"@ + n + "CopyWithImpl<$Res, $Val extends "@ + n + ">\n"@ + "    implements $"@ + n + "CopyWith<$Res> {\n"@ + "  _$"@ + n);
    lemma_keeps_add(o2 + "\n  });\n"@ + "}\n\n"@ + "/// @nodoc\n"@ + "class _$"@ + n + "CopyWithImpl<$Res, $Val extends "@ + n + ">\n"@ + "    implements $"@ + n + "CopyWith<$Res> {\n"@ + "  _$"@ + n, "CopyWithImpl(this._value, this._then);\n"@);
    lemma_keeps_trans(o, o2 + "\n  });\n"@ + "}\n\n"@ + "/// @nodoc\n"@ + "class _$"@ + n + "CopyWithImpl<$Res, $Val extends "@ + n + ">\n"@ + "    implements $"@ + n + "CopyWith<$Res> {\n"@ + "  _$"@ + n, o2 + "\n  });\n"@ + "}\n\n"@ + "/// @nodoc\n"@ + "class _$"@ + n + "CopyWithImpl<$Res, $Val extends "@ + n + ">\n"@ + "    implements $"@ + n + "CopyWith<$Res> {\n"@ + "  _$"@ + n + "CopyWithImpl(this._value, this._then);\n"@);
    lemma_keeps_add(o2 + "\n  });\n"@ + "}\n\n"@ + "/// @nodoc\n"@ + "class _$"@ + n + "CopyWithImpl<$Res, $Val extends "@ + n + ">\n"@ + "    implements $"@ + n + "CopyWith<$Res> {\n"@ + "  _$"@ + n + "CopyWithImpl(this._value, this._then);\n"@, "\n"@);
    lemma_keeps_trans(o, o2 + "\n  });\n"@ + "}\n\n"@ + "/// @nodoc\n"@ + "class _$"@ + n + "CopyWithImpl<$Res, $Val extends "@ + n + ">\n"@ + "    implements $"@ + n + "CopyWith<$Res> {\n"@ + "  _$"@ + n + "CopyWithImpl(this._value, this._then);\n"@, o2 + "\n  });\n"@ + "}\n\n"@ + "/// @nodoc\n"@ + "class _$"@ + n + "CopyWithImpl<$Res, $Val extends "@ + n + ">\n"@ + "    implements $"@ + n + "CopyWith<$Res> {\n"@ + "  _$"@ + n + "CopyWithImpl(this._value, this._then);\n"@ + "\n"@);
    lemma_keeps_add(o2 + "\n  });\n"@ + "}\n\n"@ + "/// @nodoc\n"@ + "class _$"@ + n + "CopyWithImpl<$Res, $Val extends "@ + n + ">\n"@ + "    implements $"@ + n + "CopyWith<$Res> {\n"@ + "  _$"@ + n + "CopyWithImpl(this._value, this._then);\n"@ + "\n"@, "  // ignore: unused_field\n"@);
    lemma_keeps_trans(o, o2 + "\n  });\n"@ + "}\n\n"@ + "/// @nodoc\n"@ + "class _$"@ + n + "CopyWithImpl<$Res, $Val extends "@ + n + ">\n"@ + "    implements $"@ + n + "CopyWith<$Res> {\n"@ + "  _$"@ + n + "CopyWithImpl(this._value, this._then);\n"@ + "\n"@, o2 + "\n  });\n"@ + "}\n\n"@ + "/// @nodoc\n"@ + "class _$"@ + n + "CopyWithImpl<$Res, $Val extends "@ + n + ">\n"@ + "    implements $"@ + n + "CopyWith<$Res> {\n"@ + "  _$"@ + n + "CopyWithImpl(this._value, this._then);\n"@ + "\n"@ + "  // ignore: unused_field\n"@);
    lemma_keeps_add(o2 + "\n  });\n"@ + "}\n\n"@ + "/// @nodoc\n"@ + "class _$"@ + n + "CopyWithImpl<$Res, $Val extends "@ + n + ">\n"@ + "    implements $"@ + n + "CopyWith<$Res> {\n"@ + "  _$"@ + n + "CopyWithImpl(this._value, this._then);\n"@ + "\n"@ + "  // ignore: unused_field\n"@, "  final $Val _value;\n"@);
    lemma_keeps_trans(o, o2 + "\n  });\n"@ + "}\n\n"@ + "/// @nodoc\n"@ + "class _$"@ + n + "CopyWithImpl<$Res, $Val extends "@ + n + ">\n"@ + "    implements $"@ + n + "CopyWith<$Res> {\n"@ + "  _$"@ + n + "CopyWithImpl(this._value, this._then);\n"@ + "\n"@ + "  // ignore: unused_field\n"@, o2 + "\n  });\n"@ + "}\n\n"@ + "/// @nodoc\n"@ + "class _$"@ + n + "CopyWithImpl<$Res, $Val extends "@ + n + ">\n"@ + "    implements $"@ + n + "CopyWith<$Res> {\n"@ + "  _$"@ + n + "CopyWithImpl(this._value, this._then);\n"@ + "\n"@ + "  // ignore: unused_field\n"@ + "  final $Val _value;\n"@);
    lemma_keeps_add(o2 + "\n  });\n"@ + "}\n\n"@ + "/// @nodoc\n"@ + "class _$"@ + n + "CopyWithImpl<$Res, $Val extends "@ + n + ">\n"@ + "    implements $"@ + n + "CopyWith<$Res> {\n"@ + "  _$"@ + n + "CopyWithImpl(this._value, this._then);\n"@ + "\n"@ + "  // ignore: unused_field\n"@ + "  final $Val _value;\n"@, "  // ignore: unused_field\n"@);
    lemma_keeps_trans(o, o2 + "\n  });\n"@ + "}\n\n"@ + "/// @nodoc\n"@ + "class _$"@ + n + "CopyWithImpl<$Res, $Val extends "@ + n + ">\n"@ + "    implements $"@ + n + "CopyWith<$Res> {\n"@ + "  _$"@ + n + "CopyWithImpl(this._value, this._then);\n"@ + "\n"@ + "  // ignore: unused_field\n"@ + "  final $Val _value;\n"@, o2 + "\n  });\n"@ + "}\n\n"@ + "/// @nodoc\n"@ + "class _$"@ + n + "CopyWithImpl<$Res, $Val extends "@ + n + ">\n"@ + "    implements $"@ + n + "CopyWith<$Res> {\n"@ + "  _$"@ + n + "CopyWithImpl(this._value, this._then);\n"@ + "\n"@ + "  // ignore: unused_field\n"@ + "  final $Val _value;\n"@ + "  // ignore: unused_field\n"@);
    lemma_keeps_add(o2 + "\n  });\n"@ + "}\n\n"@ + "/// @nodoc\n"@ + "class _$"@ + n + "CopyWithImpl<$Res, $Val extends "@ + n + ">\n"@ + "    implements $"@ + n + "CopyWith<$Res> {\n"@ + "  _$"@ + n + "CopyWithImpl(this._value, this._then);\n"@ + "\n"@ + "  // ignore: unused_field\n"@ + "  final $Val _value;\n"@ + "  // ignore: unused_field\n"@, "  final $Res Function($Val) _then;\n"@);
    lemma_keeps_trans(o, o2 + "\n  });\n"@ + "}\n\n"@ + "/// @nodoc\n"@ + "class _$"@ + n + "CopyWithImpl<$Res, $Val extends "@ + n + ">\n"@ + "    implements $"@ + n + "CopyWith<$Res> {\n"@ + "  _$"@ + n + "CopyWithImpl(this._value, this._then);\n"@ + "\n"@ + "  // ignore: unused_field\n"@ + "  final $Val _value;\n"@ + "  // ignore: unused_field\n"@, o2 + "\n  });\n"@ + "}\n\n"@ + "/// @nodoc\n"@ + "class _$"@ + n + "CopyWithImpl<$Res, $Val extends "@ + n + ">\n"@ + "    implements $"@ + n + "CopyWith<$Res> {\n"@ + "  _$"@ + n + "CopyWithImpl(this._value, this._then);\n"@ + "\n"@ + "  // ignore: unused_field\n"@ + "  final $Val _value;\n"@ + "  // ignore: unused_field\n"@ + "  final $Res Function($Val) _then;\n"@);
    lemma_keeps_add(o2 + "\n  });\n"@ + "}\n\n"@ + "/// @nodoc\n"@ + "class _$"@ + n + "CopyWithImpl<$Res, $Val extends "@ + n + ">\n"@ + "    implements $"@ + n + "CopyWith<$Res> {\n"@ + "  _$"@ + n + "CopyWithImpl(this._value, this._then);\n"@ + "\n"@ + "  // ignore: unused_field\n"@ + "  final $Val _value;\n"@ + "  // ignore: unused_field\n"@ + "  final $Res Function($Val) _then;\n"@, "  /// Create a copy of "@);
    lemma_keeps_trans(o, o2 + "\n  });\n"@ + "}\n\n"@ + "/// @nodoc\n"@ + "class _$"@ + n + "CopyWithImpl<$Res, $Val extends "@ + n + ">\n"@ + "    implements $"@ + n + "CopyWith<$Res> {\n"@ + "  _$"@ + n + "CopyWithImpl(this._value, this._then);\n"@ + "\n"@ + "  // ignore: unused_field\n"@ + "  final $Val _value;\n"@ + "  // ignore: unused_field\n"@ + "  final $Res Function($Val) _then;\n"@, o2 + "\n  });\n"@ + "}\n\n"@ + "/// @nodoc\n"@ + "class _$"@ + n + "CopyWithImpl<$Res, $Val extends "@ + n + ">\n"@ + "    implements $"@ + n + "CopyWith<$Res> {\n"@ + "  _$"@ + n + "CopyWithImpl(this._value, this._then);\n"@ + "\n"@ + "  // ignore: unused_field\n"@ + "  final $Val _value;\n"@ + "  // ignore: unused_field\n"@ + "  final $Res Function($Val) _then;\n"@ + "  /// Create a copy of "@);
    lemma_keeps_add(o2 + "\n  });\n"@ + "}\n\n"@ + "/// @nodoc\n"@ + "class _$"@ + n + "CopyWithImpl<$Res, $Val extends "@ + n + ">\n"@ + "    implements $"@ + n + "CopyWith<$Res> {\n"@ + "  _$"@ + n + "CopyWithImpl(this._value, this._then);\n"@ + "\n"@ + "  // ignore: unused_field\n"@ + "  final $Val _value;\n"@ + "  // ignore: unused_field\n"@ + "  final $Res Function($Val) _then;\n"@ + "  /// Create a copy of "@, n);
    lemma_keeps_trans(o, o2 + "\n  });\n"@ + "}\n\n"@ + "/// @nodoc\n"@ + "class _$"@ + n + "CopyWithImpl<$Res, $Val extends "@ + n + ">\n"@ + "    implements $"@ + n + "CopyWith<$Res> {\n"@ + "  _$"@ + n + "CopyWithImpl(this._value, this._then);\n"@ + "\n"@ + "  // ignore: unused_field\n"@ + "  final $Val _value;\n"@ + "  // ignore: unused_field\n"@ + "  final $Res Function($Val) _then;\n"@ + "  /// Create a copy of "@, o2 + "\n  });\n"@ + "}\n\n"@ + "/// @nodoc\n"@ + "class _$"@ + n + "CopyWithImpl<$Res, $Val extends "@ + n + ">\n"@ + "    implements $"@ + n + "CopyWith<$Res> {\n"@ + "  _$"@ + n + "CopyWithImpl(this._value, this._then);\n"@ + "\n"@ + "  // ignore: unused_field\n"@ + "  final $Val _value;\n"@ + "  // ignore: unused_field\n"@ + "  final $Res Function($Val) _then;\n"@ + "  /// Create a copy of "@ + n);
    lemma_keeps_add(o2 + "\n  });\n"@ + "}\n\n"@ + "/// @nodoc\n"@ + "class _$"@ + n + "CopyWithImpl<$Res, $Val extends "@ + n + ">\n"@ + "    implements $"@ + n + "CopyWith<$Res> {\n"@ + "  _$"@ + n + "CopyWithImpl(this._value, this._then);\n"@ + "\n"@ + "  // ignore: unused_field\n"@ + "  final $Val _value;\n"@ + "  // ignore: unused_field\n"@ + "  final $Res Function($Val) _then;\n"@ + "  /// Create a copy of "@ + n, "\n"@);
    lemma_keeps_trans(o, o2 + "\n  });\n"@ + "}\n\n"@ + "/// @nodoc\n"@ + "class _$"@ + n + "CopyWithImpl<$Res, $Val extends "@ + n + ">\n"@ + "    implements $"@ + n + "CopyWith<$Res> {\n"@ + "  _$"@ + n + "CopyWithImpl(this._value, this._then);\n"@ + "\n"@ + "  // ignore: unused_field\n"@ + "  final $Val _value;\n"@ + "  // ignore: unused_field\n"@ + "  final $Res Function($Val) _then;\n"@ + "  /// Create a copy of "@ + n, o2 + "\n  });\n"@ + "}\n\n"@ + "/// @nodoc\n"@ + "class _$"@ + n + "CopyWithImpl<$Res, $Val extends "@ + n + ">\n"@ + "    implements $"@ + n + "CopyWith<$Res> {\n"@ + "  _$"@ + n + "CopyWithImpl(this._value, this._then);\n"@ + "\n"@ + "  // ignore: unused_field\n"@ + "  final $Val _value;\n"@ + "  // ignore: unused_field\n"@ + "  final $Res Function($Val) _then;\n"@ + "  /// Create a copy of "@ + n + "\n"@);
    lemma_keeps_add(o2 + "\n  });\n"@ + "}\n\n"@ + "/// @nodoc\n"@ + "class _$"@ + n + "CopyWithImpl<$Res, $Val extends "@ + n + ">\n"@ + "    implements $"@ + n + "CopyWith<$Res> {\n"@ + "  _$"@ + n + "CopyWithImpl(this._value, this._then);\n"@ + "\n"@ + "  // ignore: unused_field\n"@ + "  final $Val _value;\n"@ + "  // ignore: unused_field\n"@ + "  final $Res Function($Val) _then;\n"@ + "  /// Create a copy of "@ + n + "\n"@, "  /// with the given fields replaced by the non-null parameter values.\n"@);
    lemma_keeps_trans(o, o2 + "\n  });\n"@ + "}\n\n"@ + "/// @nodoc\n"@ + "class _$"@ + n + "CopyWithImpl<$Res, $Val extends "@ + n + ">\n"@ + "    implements $"@ + n + "CopyWith<$Res> {\n"@ + "  _$"@ + n + "CopyWithImpl(this._value, this._then);\n"@ + "\n"@ + "  // ignore: unused_field\n"@ + "  final $Val _value;\n"@ + "  // ignore: unused_field\n"@ + "  final $Res Function($Val) _then;\n"@ + "  /// Create a copy of "@ + n + "\n"@, o2 + "\n  });\n"@ + "}\n\n"@ + "/// @nodoc\n"@ + "class _$"@ + n + "CopyWithImpl<$Res, $Val extends "@ + n + ">\n"@ + "    implements $"@ + n + "CopyWith<$Res> {\n"@ + "  _$"@ + n + "CopyWithImpl(this._value, this._then);\n"@ + "\n"@ + "  // ignore: unused_field\n"@ + "  final $Val _value;\n"@ + "  // ignore: unused_field\n"@ + "  final $Res Function($Val) _then;\n"@ + "  /// Create a copy of "@ + n + "\n"@ + "  /// with the given fields replaced by the non-null parameter values.\n"@);
    lemma_keeps_add(o2 + "\n  });\n"@ + "}\n\n"@ + "/// @nodoc\n"@ + "class _$"@ + n + "CopyWithImpl<$Res, $Val extends "@ + n + ">\n"@ + "    implements $"@ + n + "CopyWith<$Res> {\n"@ + "  _$"@ + n + "CopyWithImpl(this._value, this._then);\n"@ + "\n"@ + "  // ignore: unused_field\n"@ + "  final $Val _value;\n"@ + "  // ignore: unused_field\n"@ + "  final $Res Function($Val) _then;\n"@ + "  /// Create a copy of "@ + n + "\n"@ + "  /// with the given fields replaced by the non-null parameter values.\n"@, "  @pragma('vm:prefer-inline')\n"@);
    lemma_keeps_trans(o, o2 + "\n  });\n"@ + "}\n\n"@ + "/// @nodoc\n"@ + "class _$"@ + n + "CopyWithImpl<$Res, $Val extends "@ + n + ">\n"@ + "    implements $"@ + n + "CopyWith<$Res> {\n"@ + "  _$"@ + n + "CopyWithImpl(this._value, this._then);\n"@ + "\n"@ + "  // ignore: unused_field\n"@ + "  final $Val _value;\n"@ + "  // ignore: unused_field\n"@ + "  final $Res Function($Val) _then;\n"@ + "  /// Create a copy of "@ + n + "\n"@ + "  /// with the given fields replaced by the non-null parameter values.\n"@, o2 + "\n  });\n"@ + "}\n\n"@ + "/// @nodoc\n"@ + "class _$"@ + n + "CopyWithImpl<$Res, $Val extends "@ + n + ">\n"@ + "    implements $"@ + n + "CopyWith<$Res> {\n"@ + "  _$"@ + n + "CopyWithImpl(this._value, this._then);\n"@ + "\n"@ + "  // ignore: unused_field\n"@ + "  final $Val _value;\n"@ + "  // ignore: unused_field\n"@ + "  final $Res Function($Val) _then;\n"@ + "  /// Create a copy of "@ + n + "\n"@ + "  /// with the given fields replaced by the non-null parameter values.\n"@ + "  @pragma('vm:prefer-inline')\n"@);
    lemma_keeps_add(o2 + "\n  });\n"@ + "}\n\n"@ + "/// @nodoc\n"@ + "class _$"@ + n + "CopyWithImpl<$Res, $Val extends "@ + n + ">\n"@ + "    implements $"@ + n + "CopyWith<$Res> {\n"@ + "  _$"@ + n + "CopyWithImpl(this._value, this._then);\n"@ + "\n"@ + "  // ignore: unused_field\n"@ + "  final $Val _value;\n"@ + "  // ignore: unused_field\n"@ + "  final $Res Function($Val) _then;\n"@ + "  /// Create a copy of "@ + n + "\n"@ + "  /// with the given fields replaced by the non-null parameter values.\n"@ + "  @pragma('vm:prefer-inline')\n"@, "  @override\n"@);
    lemma_keeps_trans(o, o2 + "\n  });\n"@ + "}\n\n"@ + "/// @nodoc\n"@ + "class _$"@ + n + "CopyWithImpl<$Res, $Val extends "@ + n + ">\n"@ + "    implements $"@ + n + "CopyWith<$Res> {\n"@ + "  _$"@ + n + "CopyWithImpl(this._value, this._then);\n"@ + "\n"@ + "  // ignore: unused_field\n"@ + "  final $Val _value;\n"@ + "  // ignore: unused_field\n"@ + "  final $Res Function($Val) _then;\n"@ + "  /// Create a copy of "@ + n + "\n"@ + "  /// with the given fields replaced by the non-null parameter values.\n"@ + "  @pragma('vm:prefer-inline')\n"@, o2 + "\n  });\n"@ + "}\n\n"@ + "/// @nodoc\n"@ + "class _$"@ + n + "CopyWithImpl<$Res, $Val extends "@ + n + ">\n"@ + "    implements $"@ + n + "CopyWith<$Res> {\n"@ + "  _$"@ + n + "CopyWithImpl(this._value, this._then);\n"@ + "\n"@ + "  // ignore: unused_field\n"@ + "  final $Val _value;\n"@ + "  // ignore: unused_field\n"@ + "  final $Res Function($Val) _then;\n"@ + "  /// Create a copy of "@ + n + "\n"@ + "  /// with the given fields replaced by the non-null parameter values.\n"@ + "  @pragma('vm:prefer-inline')\n"@ + "  @override\n"@);
    lemma_keeps_add(o2 + "\n  });\n"@ + "}\n\n"@ + "/// @nodoc\n"@ + "class _$"@ + n + "CopyWithImpl<$Res, $Val extends "@ + n + ">\n"@ + "    implements $"@ + n + "CopyWith<$Res> {\n"@ + "  _$"@ + n + "CopyWithImpl(this._value, this._then);\n"@ + "\n"@ + "  // ignore: unused_field\n"@ + "  final $Val _value;\n"@ + "  // ignore: unused_field\n"@ + "  final $Res Function($Val) _then;\n"@ + "  /// Create a copy of "@ + n + "\n"@ + "  /// with the given fields replaced by the non-null parameter values.\n"@ + "  @pragma('vm:prefer-inline')\n"@ + "  @override\n"@, "  $Res call({"@);
    lemma_keeps_trans(o, o2 + "\n  });\n"@ + "}\n\n"@ + "/// @nodoc\n"@ + "class _$"@ + n + "CopyWithImpl<$Res, $Val extends "@ + n + ">\n"@ + "    implements $"@ + n + "CopyWith<$Res> {\n"@ + "  _$"@ + n + "CopyWithImpl(this._value, this._then);\n"@ + "\n"@ + "  // ignore: unused_field\n"@ + "  final $Val _value;\n"@ + "  // ignore: unused_field\n"@ + "  final $Res Function($Val) _then;\n"@ + "  /// Create a copy of "@ + n + "\n"@ + "  /// with the given fields replaced by the non-null parameter values.\n"@ + "  @pragma('vm:prefer-inline')\n"@ + "  @override\n"@, o2 + "\n  });\n"@ + "}\n\n"@ + "/// @nodoc\n"@ + "class _$"@ + n + "CopyWithImpl<$Res, $Val extends "@ + n + ">\n"@ + "    implements $"@ + n + "CopyWith<$Res> {\n"@ + "  _$"@ + n + "CopyWithImpl(this._value, this._then);\n"@ + "\n"@ + "  // ignore: unused_field\n"@ + "  final $Val _value;\n"@ + "  // ignore: unused_field\n"@ + "  final $Res Function($Val) _then;\n"@ + "  /// Create a copy of "@ + n + "\n"@ + "  /// with the given fields replaced by the non-null parameter values.\n"@ + "  @pragma('vm:prefer-inline')\n"@ + "  @override\n"@ + "  $Res call({"@);
    lemma_fold_put_keeps(o2 + "\n  });\n"@ + "}\n\n"@ + "/// @nodoc\n"@ + "class _$"@ + n + "CopyWithImpl<$Res, $Val extends "@ + n + ">\n"@ + "    implements $"@ + n + "CopyWith<$Res> {\n"@ + "  _$"@ + n + "CopyWithImpl(this._value, this._then);\n"@ + "\n"@ + "  // ignore: unused_field\n"@ + "  final $Val _value;\n"@ + "  // ignore: unused_field\n"@ + "  final $Res Function($Val) _then;\n"@ + "  /// Create a copy of "@ + n + "\n"@ + "  /// with the given fields replaced by the non-null parameter values.\n"@ + "  @pragma('vm:prefer-inline')\n"@ + "  @override\n"@ + "  $Res call({"@, fs, field_piece_fn(FieldPiece::ObjectParam));
    lemma_keeps_trans(o, o2 + "\n  });\n"@ + "}\n\n"@ + "/// @nodoc\n"@ + "class _$"@ + n + "CopyWithImpl<$Res, $Val extends "@ + n + ">\n"@ + "    implements $"@ + n + "CopyWith<$Res> {\n"@ + "  _$"@ + n + "CopyWithImpl(this._value, this._then);\n"@ + "\n"@ + "  // ignore: unused_field\n"@ + "  final $Val _value;\n"@ + "  // ignore: unused_field\n"@ + "  final $Res Function($Val) _then;\n"@ + "  /// Create a copy of "@ + n + "\n"@ + "  /// with the given fields replaced by the non-null parameter values.\n"@ + "  @pragma('vm:prefer-inline')\n"@ + "  @override\n"@ + "  $Res call({"@, fold_put(o2 + "\n  });\n"@ + "}\n\n"@ + "/// @nodoc\n"@ + "class _$"@ + n + "CopyWithImpl<$Res, $Val extends "@ + n + ">\n"@ + "    implements $"@ + n + "CopyWith<$Res> {\n"@ + "  _$"@ + n + "CopyWithImpl(this._value, this._then);\n"@ + "\n"@ + "  // ignore: unused_field\n"@ + "  final $Val _value;\n"@ + "  // ignore: unused_field\n"@ + "  final $Res Function($Val) _then;\n"@ + "  /// Create a copy of "@ + n + "\n"@ + "  /// with the given fields replaced by the non-null parameter values.\n"@ + "  @pragma('vm:prefer-inline')\n"@ + "  @override\n"@ + "  $Res call({"@, fs, field_piece_fn(FieldPiece::ObjectParam)));
    let o3 = fold_put(o2 + "\n  });\n"@ + "}\n\n"@ + "/// @nodoc\n"@ + "class _$"@ + n + "CopyWithImpl<$Res, $Val extends "@ + n + ">\n"@ + "    implements $"@ + n + "CopyWith<$Res> {\n"@ + "  _$"@ + n + "CopyWithImpl(this._value, this._then);\n"@ + "\n"@ + "  // ignore: unused_field\n"@ + "  final $Val _value;\n"@ + "  // ignore: unused_field\n"@ + "  final $Res Function($Val) _then;\n"@ + "  /// Create a copy of "@ + n + "\n"@ + "  /// with the given fields replaced by the non-null parameter values.\n"@ + "  @pragma('vm:prefer-inline')\n"@ + "  @override\n"@ + "  $Res call({"@, fs, field_piece_fn(FieldPiece::ObjectParam));
    assert(keeps(o, o3));
    lemma_keeps_add(o3, "\n  }) {\n"@);
    lemma_keeps_trans(o, o3, o3 + "\n  }) {\n"@);
    lemma_keeps_add(o3 + "\n  }) {\n"@, "    return _then(_value.copyWith(\n"@);
    lemma_keeps_trans(o, o3 + "\n  }) {\n"@, o3 + "\n  }) {\n"@ + "    return _then(_value.copyWith(\n"@);
    lemma_fold_put_keeps(o3 + "\n  }) {\n"@ + "    return _then(_value.copyWith(\n"@, fs, field_piece_fn(FieldPiece::CopyAssign));
    lemma_keeps_trans(o, o3 + "\n  }) {\n"@ + "    return _then(_value.copyWith(\n"@, fold_put(o3 + "\n  }) {\n"@ + "    return _then(_value.copyWith(\n"@, fs, field_piece_fn(FieldPiece::CopyAssign)));
    let o4 = fold_put(o3 + "\n  }) {\n"@ + "    return _then(_value.copyWith(\n"@, fs, field_piece_fn(FieldPiece::CopyAssign));
    assert(keeps(o, o4));
    lemma_keeps_add(o4, "    ) as $Val);\n"@);
    lemma_keeps_trans(o, o4, o4 + "    ) as $Val);\n"@);
    lemma_keeps_add(o4 + "    ) as $Val);\n"@, "  }\n"@);
    lemma_keeps_trans(o, o4 + "    ) as $Val);\n"@, o4 + "    ) as $Val);\n"@ + "  }\n"@);
    lemma_keeps_add(o4 + "    ) as $Val);\n"@ + "  }\n"@, "}\n\n"@);
    lemma_keeps_trans(o, o4 + "    ) as $Val);\n"@ + "  }\n"@, o4 + "    ) as $Val);\n"@ + "  }\n"@ + "}\n\n"@);
    lemma_keeps_add(o4 + "    ) as $Val);\n"@ + "  }\n"@ + "}\n\n"@, "/// @nodoc\n"@);
    lemma_keeps_trans(o, o4 + "    ) as $Val);\n"@ + "  }\n"@ + "}\n\n"@, o4 + "    ) as $Val);\n"@ + "  }\n"@ + "}\n\n"@ + "/// @nodoc\n"@);
    lemma_keeps_add(o4 + "    ) as $Val);\n"@ + "  }\n"@ + "}\n\n"@ + "/// @nodoc\n"@, "abstract class _$$$"@);
    lemma_keeps_trans(o, o4 + "    ) as $Val);\n"@ + "  }\n"@ + "}\n\n"@ + "/// @nodoc\n"@, o4 + "    ) as $Val);\n"@ + "  }\n"@ + "}\n\n"@ + "/// @nodoc\n"@ + "abstract class _$$$"@);
    lemma_keeps_add(o4 + "    ) as $Val);\n"@ + "  }\n"@ + "}\n\n"@ + "/// @nodoc\n"@ + "abstract class _$$$"@, n);
    lemma_keeps_trans(o, o4 + "    ) as $Val);\n"@ + "  }\n"@ + "}\n\n"@ + "/// @nodoc\n"@ + "abstract class _$$$"@, o4 + "    ) as $Val);\n"@ + "  }\n"@ + "}\n\n"@ + "/// @nodoc\n"@ + "abstract class _$$$"@ + n);
    lemma_keeps_add(o4 + "    ) as $Val);\n"@ + "  }\n"@ + "}\n\n"@ + "/// @nodoc\n"@ + "abstract class _$$$"@ + n, "ImplImplCopyWith<$Res> implements $"@);
    lemma_keeps_trans(o, o4 + "    ) as $Val);\n"@ + "  }\n"@ + "}\n\n"@ + "/// @nodoc\n"@ + "abstract class _$$$"@ + n, o4 + "    ) as $Val);\n"@ + "  }\n"@ + "}\n\n"@ + "/// @nodoc\n"@ + "abstract class _$$$"@ + n + "ImplImplCopyWith<$Res> implements $"@);
    lemma_keeps_add(o4 + "    ) as $Val);\n"@ + "  }\n"@ + "}\n\n"@ + "/// @nodoc\n"@ + "abstract class _$$$"@ + n + "ImplImplCopyWith<$Res> implements $"@, n);
    lemma_keeps_trans(o, o4 + "    ) as $Val);\n"@ + "  }\n"@ + "}\n\n"@ + "/// @nodoc\n"@ + "abstract class _$$$"@ + n + "ImplImplCopyWith<$Res> implements $"@, o4 + "    ) as $Val);\n"@ + "  }\n"@ + "}\n\n"@ + "/// @nodoc\n"@ + "abstract class _$$$"@ + n + "ImplImplCopyWith<$Res> implements $"@ + n);
    lemma_keeps_add(o4 + "    ) as $Val);\n"@ + "  }\n"@ + "}\n\n"@ + "/// @nodoc\n"@ + "abstract class _$$$"@ + n + "ImplImplCopyWith<$Res> implements $"@ + n, "CopyWith<$Res> {\n"@);
    lemma_keeps_trans(o, o4 + "    ) as $Val);\n"@ + "  }\n"@ + "}\n\n"@ + "/// @nodoc\n"@ + "abstract class _$$$"@ + n + "ImplImplCopyWith<$Res> implements $"@ + n, o4 + "    ) as $Val);\n"@ + "  }\n"@ + "}\n\n"@ + "/// @nodoc\n"@ + "abstract class _$$$"@ + n + "ImplImplCopyWith<$Res> implements $"@ + n + "CopyWith<$Res> {\n"@);
    lemma_keeps_add(o4 + "    ) as $Val);\n"@ + "  }\n"@ + "}\n\n"@ + "/// @nodoc\n"@ + "abstract class _$$$"@ + n + "ImplImplCopyWith<$Res> implements $"@ + n + "CopyWith<$Res> {\n"@, "  factory _$$$"@);
    lemma_keeps_trans(o, o4 + "    ) as $Val);\n"@ + "  }\n"@ + "}\n\n"@ + "/// @nodoc\n"@ + "abstract class _$$$"@ + n + "ImplImplCopyWith<$Res> implements $"@ + n + "CopyWith<$Res> {\n"@, o4 + "    ) as $Val);\n"@ + "  }\n"@ + "}\n\n"@ + "/// @nodoc\n"@ + "abstract class _$$$"@ + n + "ImplImplCopyWith<$Res> implements $"@ + n + "CopyWith<$Res> {\n"@ + "  factory _$$$"@);
    lemma_keeps_add(o4 + "    ) as $Val);\n"@ + "  }\n"@ + "}\n\n"@ + "/// @nodoc\n"@ + "abstract class _$$$"@ + n + "ImplImplCopyWith<$Res> implements $"@ + n + "CopyWith<$Res> {\n"@ + "  factory _$$$"@, n);
    lemma_keeps_trans(o, o4 + "    ) as $Val);\n"@ + "  }\n"@ + "}\n\n"@ + "/// @nodoc\n"@ + "abstract class _$$$"@ + n + "ImplImplCopyWith<$Res> implements $"@ + n + "CopyWith<$Res> {\n"@ + "  factory _$$$"@, o4 + "    ) as $Val);\n"@ + "  }\n"@ + "}\n\n"@ + "/// @nodoc\n"@ + "abstract class _$$$"@ + n + "ImplImplCopyWith<$Res> implements $"@ + n + "CopyWith<$Res> {\n"@ + "  factory _$$$"@ + n);
    lemma_keeps_add(o4 + "    ) as $Val);\n"@ + "  }\n"@ + "}\n\n"@ + "/// @nodoc\n"@ + "abstract class _$$$"@ + n + "ImplImplCopyWith<$Res> implements $"@ + n + "CopyWith<$Res> {\n"@ + "  factory _$$$"@ + n, "ImplImplCopyWith(\n"@);
    lemma_keeps_trans(o, o4 + "    ) as $Val);\n"@ + "  }\n"@ + "}\n\n"@ + "/// @nodoc\n"@ + "abstract class _$$$"@ + n + "ImplImplCopyWith<$Res> implements $"@ + n + "CopyWith<$Res> {\n"@ + "  factory _$$$"@ + n, o4 + "    ) as $Val);\n"@ + "  }\n"@ + "}\n\n"@ + "/// @nodoc\n"@ + "abstract class _$$$"@ + n + "ImplImplCopyWith<$Res> implements $"@ + n + "CopyWith<$Res> {\n"@ + "  factory _$$$"@ + n + "ImplImplCopyWith(\n"@);
    lemma_keeps_add(o4 + "    ) as $Val);\n"@ + "  }\n"@ + "}\n\n"@ + "/// @nodoc\n"@ + "abstract class _$$$"@ + n + "ImplImplCopyWith<$Res> implements $"@ + n + "CopyWith<$Res> {\n"@ + "  factory _$$$"@ + n + "ImplImplCopyWith(\n"@, "          _$$"@);
    lemma_keeps_trans(o, o4 + "    ) as $Val);\n"@ + "  }\n"@ + "}\n\n"@ + "/// @nodoc\n"@ + "abstract class _$$$"@ + n + "ImplImplCopyWith<$Res> implements $"@ + n + "CopyWith<$Res> {\n"@ + "  factory _$$$"@ + n + "ImplImplCopyWith(\n"@, o4 + "    ) as $Val);\n"@ + "  }\n"@ + "}\n\n"@ + "/// @nodoc\n"@ + "abstract class _$$$"@ + n + "ImplImplCopyWith<$Res> implements $"@ + n + "CopyWith<$Res> {\n"@ + "  factory _$$$"@ + n + "ImplImplCopyWith(\n"@ + "          _$$"@);
    lemma_keeps_add(o4 + "    ) as $Val);\n"@ + "  }\n"@ + "}\n\n"@ + "/// @nodoc\n"@ + "abstract class _$$$"@ + n + "ImplImplCopyWith<$Res> implements $"@ + n + "CopyWith<$Res> {\n"@ + "  factory _$$$"@ + n + "ImplImplCopyWith(\n"@ + "          _$$"@, n);
    lemma_keeps_trans(o, o4 + "    ) as $Val);\n"@ + "  }\n"@ + "}\n\n"@ + "/// @nodoc\n"@ + "abstract class _$$$"@ + n + "ImplImplCopyWith<$Res> implements $"@ + n + "CopyWith<$Res> {\n"@ + "  factory _$$$"@ + n + "ImplImplCopyWith(\n"@ + "          _$$"@, o4 + "    ) as $Val);\n"@ + "  }\n"@ + "}\n\n"@ + "/// @nodoc\n"@ + "abstract class _$$$"@ + n + "ImplImplCopyWith<$Res> implements $"@ + n + "CopyWith<$Res> {\n"@ + "  factory _$$$"@ + n + "ImplImplCopyWith(\n"@ + "          _$$"@ + n);
    lemma_keeps_add(o4 + "    ) as $Val);\n"@ + "  }\n"@ + "}\n\n"@ + "/// @nodoc\n"@ + "abstract class _$$$"@ + n + "ImplImplCopyWith<$Res> implements $"@ + n + "CopyWith<$Res> {\n"@ + "  factory _$$$"@ + n + "ImplImplCopyWith(\n"@ + "          _$$"@ + n, "ImplImpl value, $Res Function(_$$"@);
    lemma_keeps_trans(o, o4 + "    ) as $Val);\n"@ + "  }\n"@ + "}\n\n"@ + "/// @nodoc\n"@ + "abstract class _$$$"@ + n + "ImplImplCopyWith<$Res> implements $"@ + n + "CopyWith<$Res> {\n"@ + "  factory _$$$"@ + n + "ImplImplCopyWith(\n"@ + "          _$$"@ + n, o4 + "    ) as $Val);\n"@ + "  }\n"@ + "}\n\n"@ + "/// @nodoc\n"@ + "abstract class _$$$"@ + n + "ImplImplCopyWith<$Res> implements $"@ + n + "CopyWith<$Res> {\n"@ + "  factory _$$$"@ + n + "ImplImplCopyWith(\n"@ + "          _$$"@ + n + "ImplImpl value, $Res Function(_$$"@);
    lemma_keeps_add(o4 + "    ) as $Val);\n"@ + "  }\n"@ + "}\n\n"@ + "/// @nodoc\n"@ + "abstract class _$$$"@ + n + "ImplImplCopyWith<$Res> implements $"@ + n + "CopyWith<$Res> {\n"@ + "  factory _$$$"@ + n + "ImplImplCopyWith(\n"@ + "          _$$"@ + n + "ImplImpl value, $Res Function(_$$"@, n);
    lemma_keeps_trans(o, o4 + "    ) as $Val);\n"@ + "  }\n"@ + "}\n\n"@ + "/// @nodoc\n"@ + "abstract class _$$$"@ + n + "ImplImplCopyWith<$Res> implements $"@ + n + "CopyWith<$Res> {\n"@ + "  factory _$$$"@ + n + "ImplImplCopyWith(\n"@ + "          _$$"@ + n + "ImplImpl value, $Res Function(_$$"@, o4 + "    ) as $Val);\n"@ + "  }\n"@ + "}\n\n"@ + "/// @nodoc\n"@ + "abstract class _$$$"@ + n + "ImplImplCopyWith<$Res> implements $"@ + n + "CopyWith<$Res> {\n"@ + "  factory _$$$"@ + n + "ImplImplCopyWith(\n"@ + "          _$$"@ + n + "ImplImpl value, $Res Function(_$$"@ + n);
    lemma_keeps_add(o4 + "    ) as $Val);\n"@ + "  }\n"@ + "}\n\n"@ + "/// @nodoc\n"@ + "abstract class _$$$"@ + n + "ImplImplCopyWith<$Res> implements $"@ + n + "CopyWith<$Res> {\n"@ + "  factory _$$$"@ + n + "ImplImplCopyWith(\n"@ + "          _$$"@ + n + "ImplImpl value, $Res Function(_$$"@ + n, "ImplImpl) then) =\n"@);
    lemma_keeps_trans(o, o4 + "    ) as $Val);\n"@ + "  }\n"@ + "}\n\n"@ + "/// @nodoc\n"@ + "abstract class _$$$"@ + n + "ImplImplCopyWith<$Res> implements $"@ + n + "CopyWith<$Res> {\n"@ + "  factory _$$$"@ + n + "ImplImplCopyWith(\n"@ + "          _$$"@ + n + "ImplImpl value, $Res Function(_$$"@ + n, o4 + "    ) as $Val);\n"@ + "  }\n"@ + "}\n\n"@ + "/// @nodoc\n"@ + "abstract class _$$$"@ + n + "ImplImplCopyWith<$Res> implements $"@ + n + "CopyWith<$Res> {\n"@ + "  factory _$$$"@ + n + "ImplImplCopyWith(\n"@ + "          _$$"@ + n + "ImplImpl value, $Res Function(_$$"@ + n + "ImplImpl) then) =\n"@);
    lemma_keeps_add(o4 + "    ) as $Val);\n"@ + "  }\n"@ + "}\n\n"@ + "/// @nodoc\n"@ + "abstract class _$$$"@ + n + "ImplImplCopyWith<$Res> implements $"@ + n + "CopyWith<$Res> {\n"@ + "  factory _$$$"@ + n + "ImplImplCopyWith(\n"@ + "          _$$"@ + n + "ImplImpl value, $Res Function(_$$"@ + n + "ImplImpl) then) =\n"@, "      __$$$"@);
    lemma_keeps_trans(o, o4 + "    ) as $Val);\n"@ + "  }\n"@ + "}\n\n"@ + "/// @nodoc\n"@ + "abstract class _$$$"@ + n + "ImplImplCopyWith<$Res> implements $"@ + n + "CopyWith<$Res> {\n"@ + "  factory _$$$"@ + n + "ImplImplCopyWith(\n"@ + "          _$$"@ + n + "ImplImpl value, $Res Function(_$$"@ + n + "ImplImpl) then) =\n"@, o4 + "    ) as $Val);\n"@ + "  }\n"@ + "}\n\n"@ + "/// @nodoc\n"@ + "abstract class _$$$"@ + n + "ImplImplCopyWith<$Res> implements $"@ + n + "CopyWith<$Res> {\n"@ + "  factory _$$$"@ + n + "ImplImplCopyWith(\n"@ + "          _$$"@ + n + "ImplImpl value, $Res Function(_$$"@ + n + "ImplImpl) then) =\n"@ + "      __$$$"@);
    lemma_keeps_add(o4 + "    ) as $Val);\n"@ + "  }\n"@ + "}\n\n"@ + "/// @nodoc\n"@ + "abstract class _$$$"@ + n + "ImplImplCopyWith<$Res> implements $"@ + n + "CopyWith<$Res> {\n"@ + "  factory _$$$"@ + n + "ImplImplCopyWith(\n"@ + "          _$$"@ + n + "ImplImpl value, $Res Function(_$$"@ + n + "ImplImpl) then) =\n"@ + "      __$$$"@, n);
    lemma_keeps_trans(o, o4 + "    ) as $Val);\n"@ + "  }\n"@ + "}\n\n"@ + "/// @nodoc\n"@ + "abstract class _$$$"@ + n + "ImplImplCopyWith<$Res> implements $"@ + n + "CopyWith<$Res> {\n"@ + "  factory _$$$"@ + n + "ImplImplCopyWith(\n"@ + "          _$$"@ + n + "ImplImpl value, $Res Function(_$$"@ + n + "ImplImpl) then) =\n"@ + "      __$$$"@, o4 + "    ) as $Val);\n"@ + "  }\n"@ + "}\n\n"@ + "/// @nodoc\n"@ + "abstract class _$$$"@ + n + "ImplImplCopyWith<$Res> implements $"@ + n + "CopyWith<$Res> {\n"@ + "  factory _$$$"@ + n + "ImplImplCopyWith(\n"@ + "          _$$"@ + n + "ImplImpl value, $Res Function(_$$"@ + n + "ImplImpl) then) =\n"@ + "      __$$$"@ + n);
    lemma_keeps_add(o4 + "    ) as $Val);\n"@ + "  }\n"@ + "}\n\n"@ + "/// @nodoc\n"@ + "abstract class _$$$"@ + n + "ImplImplCopyWith<$Res> implements $"@ + n + "CopyWith<$Res> {\n"@ + "  factory _$$$"@ + n + "ImplImplCopyWith(\n"@ + "          _$$"@ + n + "ImplImpl value, $Res Function(_$$"@ + n + "ImplImpl) then) =\n"@ + "      __$$$"@ + n, "ImplImplCopyWithImpl<$Res>;\n"@);
    lemma_keeps_trans(o, o4 + "    ) as $Val);\n"@ + "  }\n"@ + "}\n\n"@ + "/// @nodoc\n"@ + "abstract class _$$$"@ + n + "ImplImplCopyWith<$Res> implements $"@ + n + "CopyWith<$Res> {\n"@ + "  factory _$$$"@ + n + "ImplImplCopyWith(\n"@ + "          _$$"@ + n + "ImplImpl value, $Res Function(_$$"@ + n + "ImplImpl) then) =\n"@ + "      __$$$"@ + n, o4 + "    ) as $Val);\n"@ + "  }\n"@ + "}\n\n"@ + "/// @nodoc\n"@ + "abstract class _$$$"@ + n + "ImplImplCopyWith<$Res> implements $"@ + n + "CopyWith<$Res> {\n"@ + "  factory _$$$"@ + n + "ImplImplCopyWith(\n"@ + "          _$$"@ + n + "ImplImpl value, $Res Function(_$$"@ + n + "ImplImpl) then) =\n"@ + "      __$$$"@ + n + "ImplImplCopyWithImpl<$Res>;\n"@);
    lemma_keeps_add(o4 + "    ) as $Val);\n"@ + "  }\n"@ + "}\n\n"@ + "/// @nodoc\n"@ + "abstract class _$$$"@ + n + "ImplImplCopyWith<$Res> implements $"@ + n + "CopyWith<$Res> {\n"@ + "  factory _$$$"@ + n + "ImplImplCopyWith(\n"@ + "          _$$"@ + n + "ImplImpl value, $Res Function(_$$"@ + n + "ImplImpl) then) =\n"@ + "      __$$$"@ + n + "ImplImplCopyWithImpl<$Res>;\n"@, "  @override\n"@);
    lemma_keeps_trans(o, o4 + "    ) as $Val);\n"@ + "  }\n"@ + "}\n\n"@ + "/// @nodoc\n"@ + "abstract class _$$$"@ + n + "ImplImplCopyWith<$Res> implements $"@ + n + "CopyWith<$Res> {\n"@ + "  factory _$$$"@ + n + "ImplImplCopyWith(\n"@ + "          _$$"@ + n + "ImplImpl value, $Res Function(_$$"@ + n + "ImplImpl) then) =\n"@ + "      __$$$"@ + n + "ImplImplCopyWithImpl<$Res>;\n"@, o4 + "    ) as $Val);\n"@ + "  }\n"@ + "}\n\n"@ + "/// @nodoc\n"@ + "abstract class _$$$"@ + n + "ImplImplCopyWith<$Res> implements $"@ + n + "CopyWith<$Res> {\n"@ + "  factory _$$$"@ + n + "ImplImplCopyWith(\n"@ + "          _$$"@ + n + "ImplImpl value, $Res Function(_$$"@ + n + "ImplImpl) then) =\n"@ + "      __$$$"@ + n + "ImplImplCopyWithImpl<$Res>;\n"@ + "  @override\n"@);
    lemma_keeps_add(o4 + "    ) as $Val);\n"@ + "  }\n"@ + "}\n\n"@ + "/// @nodoc\n"@ + "abstract class _$$$"@ + n + "ImplImplCopyWith<$Res> implements $"@ + n + "CopyWith<$Res> {\n"@ + "  factory _$$$"@ + n + "ImplImplCopyWith(\n"@ + "          _$$"@ + n + "ImplImpl value, $Res Function(_$$"@ + n + "ImplImpl) then) =\n"@ + "      __$$$"@ + n + "ImplImplCopyWithImpl<$Res>;\n"@ + "  @override\n"@, "  @useResult\n"@);
    lemma_keeps_trans(o, o4 + "    ) as $Val);\n"@ + "  }\n"@ + "}\n\n"@ + "/// @nodoc\n"@ + "abstract class _$$$"@ + n + "ImplImplCopyWith<$Res> implements $"@ + n + "CopyWith<$Res> {\n"@ + "  factory _$$$"@ + n + "ImplImplCopyWith(\n"@ + "          _$$"@ + n + "ImplImpl value, $Res Function(_$$"@ + n + "ImplImpl) then) =\n"@ + "      __$$$"@ + n + "ImplImplCopyWithImpl<$Res>;\n"@ + "  @override\n"@, o4 + "    ) as $Val);\n"@ + "  }\n"@ + "}\n\n"@ + "/// @nodoc\n"@ + "abstract class _$$$"@ + n + "ImplImplCopyWith<$Res> implements $"@ + n + "CopyWith<$Res> {\n"@ + "  factory _$$$"@ + n + "ImplImplCopyWith(\n"@ + "          _$$"@ + n + "ImplImpl value, $Res Function(_$$"@ + n + "ImplImpl) then) =\n"@ + "      __$$$"@ + n + "ImplImplCopyWithImpl<$Res>;\n"@ + "  @override\n"@ + "  @useResult\n"@);
    lemma_keeps_add(o4 + "    ) as $Val);\n"@ + "  }\n"@ + "}\n\n"@ + "/// @nodoc\n"@ + "abstract class _$$$"@ + n + "ImplImplCopyWith<$Res> implements $"@ + n + "CopyWith<$Res> {\n"@ + "  factory _$$$"@ + n + "ImplImplCopyWith(\n"@ + "          _$$"@ + n + "ImplImpl value, $Res Function(_$$"@ + n + "ImplImpl) then) =\n"@ + "      __$$$"@ + n + "ImplImplCopyWithImpl<$Res>;\n"@ + "  @override\n"@ + "  @useResult\n"@, "  $Res call({"@);
    lemma_keeps_trans(o, o4 + "    ) as $Val);\n"@ + "  }\n"@ + "}\n\n"@ + "/// @nodoc\n"@ + "abstract class _$$$"@ + n + "ImplImplCopyWith<$Res> implements $"@ + n + "CopyWith<$Res> {\n"@ + "  factory _$$$"@ + n + "ImplImplCopyWith(\n"@ + "          _$$"@ + n + "ImplImpl value, $Res Function(_$$"@ + n + "ImplImpl) then) =\n"@ + "      __$$$"@ + n + "ImplImplCopyWithImpl<$Res>;\n"@ + "  @override\n"@ + "  @useResult\n"@, o4 + "    ) as $Val);\n"@ + "  }\n"@ + "}\n\n"@ + "/// @nodoc\n"@ + "abstract class _$$$"@ + n + "ImplImplCopyWith<$Res> implements $"@ + n + "CopyWith<$Res> {\n"@ + "  factory _$$$"@ + n + "ImplImplCopyWith(\n"@ + "          _$$"@ + n + "ImplImpl value, $Res Function(_$$"@ + n + "ImplImpl) then) =\n"@ + "      __$$$"@ + n + "ImplImplCopyWithImpl<$Res>;\n"@ + "  @override\n"@ + "  @useResult\n"@ + "  $Res call({"@);
    lemma_fold_put_keeps(o4 + "    ) as $Val);\n"@ + "  }\n"@ + "}\n\n"@ + "/// @nodoc\n"@ + "abstract class _$$$"@ + n + "ImplImplCopyWith<$Res> implements $"@ + n + "CopyWith<$Res> {\n"@ + "  factory _$$$"@ + n + "ImplImplCopyWith(\n"@ + "          _$$"@ + n + "ImplImpl value, $Res Function(_$$"@ + n + "ImplImpl) then) =\n"@ + "      __$$$"@ + n + "ImplImplCopyWithImpl<$Res>;\n"@ + "  @override\n"@ + "  @useResult\n"@ + "  $Res call({"@, fs, field_piece_fn(FieldPiece::ObjectParam));
    lemma_keeps_trans(o, o4 + "    ) as $Val);\n"@ + "  }\n"@ + "}\n\n"@ + "/// @nodoc\n"@ + "abstract class _$$$"@ + n + "ImplImplCopyWith<$Res> implements $"@ + n + "CopyWith<$Res> {\n"@ + "  factory _$$$"@ + n + "ImplImplCopyWith(\n"@ + "          _$$"@ + n + "ImplImpl value, $Res Function(_$$"@ + n + "ImplImpl) then) =\n"@ + "      __$$$"@ + n + "ImplImplCopyWithImpl<$Res>;\n"@ + "  @override\n"@ + "  @useResult\n"@ + "  $Res call({"@, fold_put(o4 + "    ) as $Val);\n"@ + "  }\n"@ + "}\n\n"@ + "/// @nodoc\n"@ + "abstract class _$$$"@ + n + "ImplImplCopyWith<$Res> implements $"@ + n + "CopyWith<$Res> {\n"@ + "  factory _$$$"@ + n + "ImplImplCopyWith(\n"@ + "          _$$"@ + n + "ImplImpl value, $Res Function(_$$"@ + n + "ImplImpl) then) =\n"@ + "      __$$$"@ + n + "ImplImplCopyWithImpl<$Res>;\n"@ + "  @override\n"@ + "  @useResult\n"@ + "  $Res call({"@, fs, field_piece_fn(FieldPiece::ObjectParam)));
    let o5 = fold_put(o4 + "    ) as $Val);\n"@ + "  }\n"@ + "}\n\n"@ + "/// @nodoc\n"@ + "abstract class _$$$"@ + n + "ImplImplCopyWith<$Res> implements $"@ + n + "CopyWith<$Res> {\n"@ + "  factory _$$$"@ + n + "ImplImplCopyWith(\n"@ + "          _$$"@ + n + "ImplImpl value, $Res Function(_$$"@ + n + "ImplImpl) then) =\n"@ + "      __$$$"@ + n + "ImplImplCopyWithImpl<$Res>;\n"@ + "  @override\n"@ + "  @useResult\n"@ + "  $Res call({"@, fs, field_piece_fn(FieldPiece::ObjectParam));
    assert(keeps(o, o5));
    lemma_keeps_add(o5, "\n  });\n"@);
    lemma_keeps_trans(o, o5, o5 + "\n  });\n"@);
    lemma_keeps_add(o5 + "\n  });\n"@, "}\n\n"@);
    lemma_keeps_trans(o, o5 + "\n  });\n"@, o5 + "\n  });\n"@ + "}\n\n"@);
    lemma_keeps_add(o5 + "\n  });\n"@ + "}\n\n"@, "/// @nodoc\n"@);
    lemma_keeps_trans(o, o5 + "\n  });\n"@ + "}\n\n"@, o5 + "\n  });\n"@ + "}\n\n"@ + "/// @nodoc\n"@);
    lemma_keeps_add(o5 + "\n  });\n"@ + "}\n\n"@ + "/// @nodoc\n"@, "class __$$$"@);
    lemma_keeps_trans(o, o5 + "\n  });\n"@ + "}\n\n"@ + "/// @nodoc\n"@, o5 + "\n  });\n"@ + "}\n\n"@ + "/// @nodoc\n"@ + "class __$$$"@);
    lemma_keeps_add(o5 + "\n  });\n"@ + "}\n\n"@ + "/// @nodoc\n"@ + "class __$$$"@, n);
    lemma_keeps_trans(o, o5 + "\n  });\n"@ + "}\n\n"@ + "/// @nodoc\n"@ + "class __$$$"@, o5 + "\n  });\n"@ + "}\n\n"@ + "/// @nodoc\n"@ + "class __$$$"@ + n);
    lemma_keeps_add(o5 + "\n  });\n"@ + "}\n\n"@ + "/// @nodoc\n"@ + "class __$$$"@ + n, "ImplImplCopyWithImpl<$Res>\n"@);
    lemma_keeps_trans(o, o5 + "\n  });\n"@ + "}\n\n"@ + "/// @nodoc\n"@ + "class __$$$"@ + n, o5 + "\n  });\n"@ + "}\n\n"@ + "/// @nodoc\n"@ + "class __$$$"@ + n + "ImplImplCopyWithImpl<$Res>\n"@);
    lemma_keeps_add(o5 + "\n  });\n"@ + "}\n\n"@ + "/// @nodoc\n"@ + "class __$$$"@ + n + "ImplImplCopyWithImpl<$Res>\n"@, "    extends _$"@);
    lemma_keeps_trans(o, o5 + "\n  });\n"@ + "}\n\n"@ + "/// @nodoc\n"@ + "class __$$$"@ + n + "ImplImplCopyWithImpl<$Res>\n"@, o5 + "\n  });\n"@ + "}\n\n"@ + "/// @nodoc\n"@ + "class __$$$"@ + n + "ImplImplCopyWithImpl<$Res>\n"@ + "    extends _$"@);
    lemma_keeps_add(o5 + "\n  });\n"@ + "}\n\n"@ + "/// @nodoc\n"@ + "class __$$$"@ + n + "ImplImplCopyWithImpl<$Res>\n"@ + "    extends _$"@, n);
    lemma_keeps_trans(o, o5 + "\n  });\n"@ + "}\n\n"@ + "/// @nodoc\n"@ + "class __$$$"@ + n + "ImplImplCopyWithImpl<$Res>\n"@ + "    extends _$"@, o5 + "\n  });\n"@ + "}\n\n"@ + "/// @nodoc\n"@ + "class __$$$"@ + n + "ImplImplCopyWithImpl<$Res>\n"@ + "    extends _$"@ + n);
    lemma_keeps_add(o5 + "\n  });\n"@ + "}\n\n"@ + "/// @nodoc\n"@ + "class __$$$"@ + n + "ImplImplCopyWithImpl<$Res>\n"@ + "    extends _$"@ + n, "CopyWithImpl<$Res, _$$"@);
    lemma_keeps_trans(o, o5 + "\n  });\n"@ + "}\n\n"@ + "/// @nodoc\n"@ + "class __$$$"@ + n + "ImplImplCopyWithImpl<$Res>\n"@ + "    extends _$"@ + n, o5 + "\n  });\n"@ + "}\n\n"@ + "/// @nodoc\n"@ + "class __$$$"@ + n + "ImplImplCopyWithImpl<$Res>\n"@ + "    extends _$"@ + n + "CopyWithImpl<$Res, _$$"@);
    lemma_keeps_add(o5 + "\n  });\n"@ + "}\n\n"@ + "/// @nodoc\n"@ + "class __$$$"@ + n + "ImplImplCopyWithImpl<$Res>\n"@ + "    extends _$"@ + n + "CopyWithImpl<$Res, _$$"@, n);
    lemma_keeps_trans(o, o5 + "\n  });\n"@ + "}\n\n"@ + "/// @nodoc\n"@ + "class __$$$"@ + n + "ImplImplCopyWithImpl<$Res>\n"@ + "    extends _$"@ + n + "CopyWithImpl<$Res, _$$"@, o5 + "\n  });\n"@ + "}\n\n"@ + "/// @nodoc\n"@ + "class __$$$"@ + n + "ImplImplCopyWithImpl<$Res>\n"@ + "    extends _$"@ + n + "CopyWithImpl<$Res, _$$"@ + n);
    lemma_keeps_add(o5 + "\n  });\n"@ + "}\n\n"@ + "/// @nodoc\n"@ + "class __$$$"@ + n + "ImplImplCopyWithImpl<$Res>\n"@ + "    extends _$"@ + n + "CopyWithImpl<$Res, _$$"@ + n, "ImplImpl>\n"@);
    lemma_keeps_trans(o, o5 + "\n  });\n"@ + "}\n\n"@ + "/// @nodoc\n"@ + "class __$$$"@ + n + "ImplImplCopyWithImpl<$Res>\n"@ + "    extends _$"@ + n + "CopyWithImpl<$Res, _$$"@ + n, o5 + "\n  });\n"@ + "}\n\n"@ + "/// @nodoc\n"@ + "class __$$$"@ + n + "ImplImplCopyWithImpl<$Res>\n"@ + "    extends _$"@ + n + "CopyWithImpl<$Res, _$$"@ + n + "ImplImpl>\n"@);
    lemma_keeps_add(o5 + "\n  });\n"@ + "}\n\n"@ + "/// @nodoc\n"@ + "class __$$$"@ + n + "ImplImplCopyWithImpl<$Res>\n"@ + "    extends _$"@ + n + "CopyWithImpl<$Res, _$$"@ + n + "ImplImpl>\n"@, "    implements _$$$"@);
    lemma_keeps_trans(o, o5 + "\n  });\n"@ + "}\n\n"@ + "/// @nodoc\n"@ + "class __$$$"@ + n + "ImplImplCopyWithImpl<$Res>\n"@ + "    extends _$"@ + n + "CopyWithImpl<$Res, _$$"@ + n + "ImplImpl>\n"@, o5 + "\n  });\n"@ + "}\n\n"@ + "/// @nodoc\n"@ + "class __$$$"@ + n + "ImplImplCopyWithImpl<$Res>\n"@ + "    extends _$"@ + n + "CopyWithImpl<$Res, _$$"@ + n + "ImplImpl>\n"@ + "    implements _$$$"@);
    lemma_keeps_add(o5 + "\n  });\n"@ + "}\n\n"@ + "/// @nodoc\n"@ + "class __$$$"@ + n + "ImplImplCopyWithImpl<$Res>\n"@ + "    extends _$"@ + n + "CopyWithImpl<$Res, _$$"@ + n + "ImplImpl>\n"@ + "    implements _$$$"@, n);
    lemma_keeps_trans(o, o5 + "\n  });\n"@ + "}\n\n"@ + "/// @nodoc\n"@ + "class __$$$"@ + n + "ImplImplCopyWithImpl<$Res>\n"@ + "    extends _$"@ + n + "CopyWithImpl<$Res, _$$"@ + n + "ImplImpl>\n"@ + "    implements _$$$"@, o5 + "\n  });\n"@ + "}\n\n"@ + "/// @nodoc\n"@ + "class __$$$"@ + n + "ImplImplCopyWithImpl<$Res>\n"@ + "    extends _$"@ + n + "CopyWithImpl<$Res, _$$"@ + n + "ImplImpl>\n"@ + "    implements _$$$"@ + n);
    lemma_keeps_add(o5 + "\n  });\n"@ + "}\n\n"@ + "/// @nodoc\n"@ + "class __$$$"@ + n + "ImplImplCopyWithImpl<$Res>\n"@ + "    extends _$"@ + n + "CopyWithImpl<$Res, _$$"@ + n + "ImplImpl>\n"@ + "    implements _$$$"@ + n, "ImplImplCopyWith<$Res> {\n"@);
    lemma_keeps_trans(o, o5 + "\n  });\n"@ + "}\n\n"@ + "/// @nodoc\n"@ + "class __$$$"@ + n + "ImplImplCopyWithImpl<$Res>\n"@ + "    extends _$"@ + n + "CopyWithImpl<$Res, _$$"@ + n + "ImplImpl>\n"@ + "    implements _$$$"@ + n, o5 + "\n  });\n"@ + "}\n\n"@ + "/// @nodoc\n"@ + "class __$$$"@ + n + "ImplImplCopyWithImpl<$Res>\n"@ + "    extends _$"@ + n + "CopyWithImpl<$Res, _$$"@ + n + "ImplImpl>\n"@ + "    implements _$$$"@ + n + "ImplImplCopyWith<$Res> {\n"@);
    lemma_keeps_add(o5 + "\n  });\n"@ + "}\n\n"@ + "/// @nodoc\n"@ + "class __$$$"@ + n + "ImplImplCopyWithImpl<$Res>\n"@ + "    extends _$"@ + n + "CopyWithImpl<$Res, _$$"@ + n + "ImplImpl>\n"@ + "    implements _$$$"@ + n + "ImplImplCopyWith<$Res> {\n"@, "  __$$$"@);
    lemma_keeps_trans(o, o5 + "\n  });\n"@ + "}\n\n"@ + "/// @nodoc\n"@ + "class __$$$"@ + n + "ImplImplCopyWithImpl<$Res>\n"@ + "    extends _$"@ + n + "CopyWithImpl<$Res, _$$"@ + n + "ImplImpl>\n"@ + "    implements _$$$"@ + n + "ImplImplCopyWith<$Res> {\n"@, o5 + "\n  });\n"@ + "}\n\n"@ + "/// @nodoc\n"@ + "class __$$$"@ + n + "ImplImplCopyWithImpl<$Res>\n"@ + "    extends _$"@ + n + "CopyWithImpl<$Res, _$$"@ + n + "ImplImpl>\n"@ + "    implements _$$$"@ + n + "ImplImplCopyWith<$Res> {\n"@ + "  __$$$"@);
    lemma_keeps_add(o5 + "\n  });\n"@ + "}\n\n"@ + "/// @nodoc\n"@ + "class __$$$"@ + n + "ImplImplCopyWithImpl<$Res>\n"@ + "    extends _$"@ + n + "CopyWithImpl<$Res, _$$"@ + n + "ImplImpl>\n"@ + "    implements _$$$"@ + n + "ImplImplCopyWith<$Res> {\n"@ + "  __$$$"@, n);
    lemma_keeps_trans(o, o5 + "\n  });\n"@ + "}\n\n"@ + "/// @nodoc\n"@ + "class __$$$"@ + n + "ImplImplCopyWithImpl<$Res>\n"@ + "    extends _$"@ + n + "CopyWithImpl<$Res, _$$"@ + n + "ImplImpl>\n"@ + "    implements _$$$"@ + n + "ImplImplCopyWith<$Res> {\n"@ + "  __$$$"@, o5 + "\n  });\n"@ + "}\n\n"@ + "/// @nodoc\n"@ + "class __$$$"@ + n + "ImplImplCopyWithImpl<$Res>\n"@ + "    extends _$"@ + n + "CopyWithImpl<$Res, _$$"@ + n + "ImplImpl>\n"@ + "    implements _$$$"@ + n + "ImplImplCopyWith<$Res> {\n"@ + "  __$$$"@ + n);
    lemma_keeps_add(o5 + "\n  });\n"@ + "}\n\n"@ + "/// @nodoc\n"@ + "class __$$$"@ + n + "ImplImplCopyWithImpl<$Res>\n"@ + "    extends _$"@ + n + "CopyWithImpl<$Res, _$$"@ + n + "ImplImpl>\n"@ + "    implements _$$$"@ + n + "ImplImplCopyWith<$Res> {\n"@ + "  __$$$"@ + n, "ImplImplCopyWithImpl(\n"@);
    lemma_keeps_trans(o, o5 + "\n  });\n"@ + "}\n\n"@ + "/// @nodoc\n"@ + "class __$$$"@ + n + "ImplImplCopyWithImpl<$Res>\n"@ + "    extends _$"@ + n + "CopyWithImpl<$Res, _$$"@ + n + "ImplImpl>\n"@ + "    implements _$$$"@ + n + "ImplImplCopyWith<$Res> {\n"@ + "  __$$$"@ + n, o5 + "\n  });\n"@ + "}\n\n"@ + "/// @nodoc\n"@ + "class __$$$"@ + n + "ImplImplCopyWithImpl<$Res>\n"@ + "    extends _$"@ + n + "CopyWithImpl<$Res, _$$"@ + n + "ImplImpl>\n"@ + "    implements _$$$"@ + n + "ImplImplCopyWith<$Res> {\n"@ + "  __$$$"@ + n + "ImplImplCopyWithImpl(\n"@);
    lemma_keeps_add(o5 + "\n  });\n"@ + "}\n\n"@ + "/// @nodoc\n"@ + "class __$$$"@ + n + "ImplImplCopyWithImpl<$Res>\n"@ + "    extends _$"@ + n + "CopyWithImpl<$Res, _$$"@ + n + "ImplImpl>\n"@ + "    implements _$$$"@ + n + "ImplImplCopyWith<$Res> {\n"@ + "  __$$$"@ + n + "ImplImplCopyWithImpl(\n"@, "      _$$"@);
    lemma_keeps_trans(o, o5 + "\n  });\n"@ + "}\n\n"@ + "/// @nodoc\n"@ + "class __$$$"@ + n + "ImplImplCopyWithImpl<$Res>\n"@ + "    extends _$"@ + n + "CopyWithImpl<$Res, _$$"@ + n + "ImplImpl>\n"@ + "    implements _$$$"@ + n + "ImplImplCopyWith<$Res> {\n"@ + "  __$$$"@ + n + "ImplImplCopyWithImpl(\n"@, o5 + "\n  });\n"@ + "}\n\n"@ + "/// @nodoc\n"@ + "class __$$$"@ + n + "ImplImplCopyWithImpl<$Res>\n"@ + "    extends _$"@ + n + "CopyWithImpl<$Res, _$$"@ + n + "ImplImpl>\n"@ + "    implements _$$$"@ + n + "ImplImplCopyWith<$Res> {\n"@ + "  __$$$"@ + n + "ImplImplCopyWithImpl(\n"@ + "      _$$"@);
    lemma_keeps_add(o5 + "\n  });\n"@ + "}\n\n"@ + "/// @nodoc\n"@ + "class __$$$"@ + n + "ImplImplCopyWithImpl<$Res>\n"@ + "    extends _$"@ + n + "CopyWithImpl<$Res, _$$"@ + n + "ImplImpl>\n"@ + "    implements _$$$"@ + n + "ImplImplCopyWith<$Res> {\n"@ + "  __$$$"@ + n + "ImplImplCopyWithImpl(\n"@ + "      _$$"@, n);
    lemma_keeps_trans(o, o5 + "\n  });\n"@ + "}\n\n"@ + "/// @nodoc\n"@ + "class __$$$"@ + n + "ImplImplCopyWithImpl<$Res>\n"@ + "    extends _$"@ + n + "CopyWithImpl<$Res, _$$"@ + n + "ImplImpl>\n"@ + "    implements _$$$"@ + n + "ImplImplCopyWith<$Res> {\n"@ + "  __$$$"@ + n + "ImplImplCopyWithImpl(\n"@ + "      _$$"@, o5 + "\n  });\n"@ + "}\n\n"@ + "/// @nodoc\n"@ + "class __$$$"@ + n + "ImplImplCopyWithImpl<$Res>\n"@ + "    extends _$"@ + n + "CopyWithImpl<$Res, _$$"@ + n + "ImplImpl>\n"@ + "    implements _$$$"@ + n + "ImplImplCopyWith<$Res> {\n"@ + "  __$$$"@ + n + "ImplImplCopyWithImpl(\n"@ + "      _$$"@ + n);
    lemma_keeps_add(o5 + "\n  });\n"@ + "}\n\n"@ + "/// @nodoc\n"@ + "class __$$$"@ + n + "ImplImplCopyWithImpl<$Res>\n"@ + "    extends _$"@ + n + "CopyWithImpl<$Res, _$$"@ + n + "ImplImpl>\n"@ + "    implements _$$$"@ + n + "ImplImplCopyWith<$Res> {\n"@ + "  __$$$"@ + n + "ImplImplCopyWithImpl(\n"@ + "      _$$"@ + n, "ImplImpl _value, $Res Function(_$$"@);
    lemma_keeps_trans(o, o5 + "\n  });\n"@ + "}\n\n"@ + "/// @nodoc\n"@ + "class __$$$"@ + n + "ImplImplCopyWithImpl<$Res>\n"@ + "    extends _$"@ + n + "CopyWithImpl<$Res, _$$"@ + n + "ImplImpl>\n"@ + "    implements _$$$"@ + n + "ImplImplCopyWith<$Res> {\n"@ + "  __$$$"@ + n + "ImplImplCopyWithImpl(\n"@ + "      _$$"@ + n, o5 + "\n  });\n"@ + "}\n\n"@ + "/// @nodoc\n"@ + "class __$$$"@ + n + "ImplImplCopyWithImpl<$Res>\n"@ + "    extends _$"@ + n + "CopyWithImpl<$Res, _$$"@ + n + "ImplImpl>\n"@ + "    implements _$$$"@ + n + "ImplImplCopyWith<$Res> {\n"@ + "  __$$$"@ + n + "ImplImplCopyWithImpl(\n"@ + "      _$$"@ + n + "ImplImpl _value, $Res Function(_$$"@);
    lemma_keeps_add(o5 + "\n  });\n"@ + "}\n\n"@ + "/// @nodoc\n"@ + "class __$$$"@ + n + "ImplImplCopyWithImpl<$Res>\n"@ + "    extends _$"@ + n + "CopyWithImpl<$Res, _$$"@ + n + "ImplImpl>\n"@ + "    implements _$$$"@ + n + "ImplImplCopyWith<$Res> {\n"@ + "  __$$$"@ + n + "ImplImplCopyWithImpl(\n"@ + "      _$$"@ + n + "ImplImpl _value, $Res Function(_$$"@, n);
    lemma_keeps_trans(o, o5 + "\n  });\n"@ + "}\n\n"@ + "/// @nodoc\n"@ + "class __$$$"@ + n + "ImplImplCopyWithImpl<$Res>\n"@ + "    extends _$"@ + n + "CopyWithImpl<$Res, _$$"@ + n + "ImplImpl>\n"@ + "    implements _$$$"@ + n + "ImplImplCopyWith<$Res> {\n"@ + "  __$$$"@ + n + "ImplImplCopyWithImpl(\n"@ + "      _$$"@ + n + "ImplImpl _value, $Res Function(_$$"@, o5 + "\n  });\n"@ + "}\n\n"@ + "/// @nodoc\n"@ + "class __$$$"@ + n + "ImplImplCopyWithImpl<$Res>\n"@ + "    extends _$"@ + n + "CopyWithImpl<$Res, _$$"@ + n + "ImplImpl>\n"@ + "    implements _$$$"@ + n + "ImplImplCopyWith<$Res> {\n"@ + "  __$$$"@ + n + "ImplImplCopyWithImpl(\n"@ + "      _$$"@ + n + "ImplImpl _value, $Res Function(_$$"@ + n);
    lemma_keeps_add(o5 + "\n  });\n"@ + "}\n\n"@ + "/// @nodoc\n"@ + "class __$$$"@ + n + "ImplImplCopyWithImpl<$Res>\n"@ + "    extends _$"@ + n + "CopyWithImpl<$Res, _$$"@ + n + "ImplImpl>\n"@ + "    implements _$$$"@ + n + "ImplImplCopyWith<$Res> {\n"@ + "  __$$$"@ + n + "ImplImplCopyWithImpl(\n"@ + "      _$$"@ + n + "ImplImpl _value, $Res Function(_$$"@ + n, "ImplImpl) _then)\n"@);
    lemma_keeps_trans(o, o5 + "\n  });\n"@ + "}\n\n"@ + "/// @nodoc\n"@ + "class __$$$"@ + n + "ImplImplCopyWithImpl<$Res>\n"@ + "    extends _$"@ + n + "CopyWithImpl<$Res, _$$"@ + n + "ImplImpl>\n"@ + "    implements _$$$"@ + n + "ImplImplCopyWith<$Res> {\n"@ + "  __$$$"@ + n + "ImplImplCopyWithImpl(\n"@ + "      _$$"@ + n + "ImplImpl _value, $Res Function(_$$"@ + n, o5 + "\n  });\n"@ + "}\n\n"@ + "/// @nodoc\n"@ + "class __$$$"@ + n + "ImplImplCopyWithImpl<$Res>\n"@ + "    extends _$"@ + n + "CopyWithImpl<$Res, _$$"@ + n + "ImplImpl>\n"@ + "    implements _$$$"@ + n + "ImplImplCopyWith<$Res> {\n"@ + "  __$$$"@ + n + "ImplImplCopyWithImpl(\n"@ + "      _$$"@ + n + "ImplImpl _value, $Res Function(_$$"@ + n + "ImplImpl) _then)\n"@);
    lemma_keeps_add(o5 + "\n  });\n"@ + "}\n\n"@ + "/// @nodoc\n"@ + "class __$$$"@ + n + "ImplImplCopyWithImpl<$Res>\n"@ + "    extends _$"@ + n + "CopyWithImpl<$Res, _$$"@ + n + "ImplImpl>\n"@ + "    implements _$$$"@ + n + "ImplImplCopyWith<$Res> {\n"@ + "  __$$$"@ + n + "ImplImplCopyWithImpl(\n"@ + "      _$$"@ + n + "ImplImpl _value, $Res Function(_$$"@ + n + "ImplImpl) _then)\n"@, "      : super(_value, _then);\n"@);
    lemma_keeps_trans(o, o5 + "\n  });\n"@ + "}\n\n"@ + "/// @nodoc\n"@ + "class __$$$"@ + n + "ImplImplCopyWithImpl<$Res>\n"@ + "    extends _$"@ + n + "CopyWithImpl<$Res, _$$"@ + n + "ImplImpl>\n"@ + "    implements _$$$"@ + n + "ImplImplCopyWith<$Res> {\n"@ + "  __$$$"@ + n + "ImplImplCopyWithImpl(\n"@ + "      _$$"@ + n + "ImplImpl _value, $Res Function(_$$"@ + n + "ImplImpl) _then)\n"@, o5 + "\n  });\n"@ + "}\n\n"@ + "/// @nodoc\n"@ + "class __$$$"@ + n + "ImplImplCopyWithImpl<$Res>\n"@ + "    extends _$"@ + n + "CopyWithImpl<$Res, _$$"@ + n + "ImplImpl>\n"@ + "    implements _$$$"@ + n + "ImplImplCopyWith<$Res> {\n"@ + "  __$$$"@ + n + "ImplImplCopyWithImpl(\n"@ + "      _$$"@ + n + "ImplImpl _value, $Res Function(_$$"@ + n + "ImplImpl) _then)\n"@ + "      : super(_value, _then);\n"@);
    lemma_keeps_add(o5 + "\n  });\n"@ + "}\n\n"@ + "/// @nodoc\n"@ + "class __$$$"@ + n + "ImplImplCopyWithImpl<$Res>\n"@ + "    extends _$"@ + n + "CopyWithImpl<$Res, _$$"@ + n + "ImplImpl>\n"@ + "    implements _$$$"@ + n + "ImplImplCopyWith<$Res> {\n"@ + "  __$$$"@ + n + "ImplImplCopyWithImpl(\n"@ + "      _$$"@ + n + "ImplImpl _value, $Res Function(_$$"@ + n + "ImplImpl) _then)\n"@ + "      : super(_value, _then);\n"@, "\n"@);
    lemma_keeps_trans(o, o5 + "\n  });\n"@ + "}\n\n"@ + "/// @nodoc\n"@ + "class __$$$"@ + n + "ImplImplCopyWithImpl<$Res>\n"@ + "    extends _$"@ + n + "CopyWithImpl<$Res, _$$"@ + n + "ImplImpl>\n"@ + "    implements _$$$"@ + n + "ImplImplCopyWith<$Res> {\n"@ + "  __$$$"@ + n + "ImplImplCopyWithImpl(\n"@ + "      _$$"@ + n + "ImplImpl _value, $Res Function(_$$"@ + n + "ImplImpl) _then)\n"@ + "      : super(_value, _then);\n"@, o5 + "\n  });\n"@ + "}\n\n"@ + "/// @nodoc\n"@ + "class __$$$"@ + n + "ImplImplCopyWithImpl<$Res>\n"@ + "    extends _$"@ + n + "CopyWithImpl<$Res, _$$"@ + n + "ImplImpl>\n"@ + "    implements _$$$"@ + n + "ImplImplCopyWith<$Res> {\n"@ + "  __$$$"@ + n + "ImplImplCopyWithImpl(\n"@ + "      _$$"@ + n + "ImplImpl _value, $Res Function(_$$"@ + n + "ImplImpl) _then)\n"@ + "      : super(_value, _then);\n"@ + "\n"@);
    lemma_keeps_add(o5 + "\n  });\n"@ + "}\n\n"@ + "/// @nodoc\n"@ + "class __$$$"@ + n + "ImplImplCopyWithImpl<$Res>\n"@ + "    extends _$"@ + n + "CopyWithImpl<$Res, _$$"@ + n + "ImplImpl>\n"@ + "    implements _$$$"@ + n + "ImplImplCopyWith<$Res> {\n"@ + "  __$$$"@ + n + "ImplImplCopyWithImpl(\n"@ + "      _$$"@ + n + "ImplImpl _value, $Res Function(_$$"@ + n + "ImplImpl) _then)\n"@ + "      : super(_value, _then);\n"@ + "\n"@, "  /// Create a copy of "@);
    lemma_keeps_trans(o, o5 + "\n  });\n"@ + "}\n\n"@ + "/// @nodoc\n"@ + "class __$$$"@ + n + "ImplImplCopyWithImpl<$Res>\n"@ + "    extends _$"@ + n + "CopyWithImpl<$Res, _$$"@ + n + "ImplImpl>\n"@ + "    implements _$$$"@ + n + "ImplImplCopyWith<$Res> {\n"@ + "  __$$$"@ + n + "ImplImplCopyWithImpl(\n"@ + "      _$$"@ + n + "ImplImpl _value, $Res Function(_$$"@ + n + "ImplImpl) _then)\n"@ + "      : super(_value, _then);\n"@ + "\n"@, o5 + "\n  });\n"@ + "}\n\n"@ + "/// @nodoc\n"@ + "class __$$$"@ + n + "ImplImplCopyWithImpl<$Res>\n"@ + "    extends _$"@ + n + "CopyWithImpl<$Res, _$$"@ + n + "ImplImpl>\n"@ + "    implements _$$$"@ + n + "ImplImplCopyWith<$Res> {\n"@ + "  __$$$"@ + n + "ImplImplCopyWithImpl(\n"@ + "      _$$"@ + n + "ImplImpl _value, $Res Function(_$$"@ + n + "ImplImpl) _then)\n"@ + "      : super(_value, _then);\n"@ + "\n"@ + "  /// Create a copy of "@);
    lemma_keeps_add(o5 + "\n  });\n"@ + "}\n\n"@ + "/// @nodoc\n"@ + "class __$$$"@ + n + "ImplImplCopyWithImpl<$Res>\n"@ + "    extends _$"@ + n + "CopyWithImpl<$Res, _$$"@ + n + "ImplImpl>\n"@ + "    implements _$$$"@ + n + "ImplImplCopyWith<$Res> {\n"@ + "  __$$$"@ + n + "ImplImplCopyWithImpl(\n"@ + "      _$$"@ + n + "ImplImpl _value, $Res Function(_$$"@ + n + "ImplImpl) _then)\n"@ + "      : super(_value, _then);\n"@ + "\n"@ + "  /// Create a copy of "@, n);
    lemma_keeps_trans(o, o5 + "\n  });\n"@ + "}\n\n"@ + "/// @nodoc\n"@ + "class __$$$"@ + n + "ImplImplCopyWithImpl<$Res>\n"@ + "    extends _$"@ + n + "CopyWithImpl<$Res, _$$"@ + n + "ImplImpl>\n"@ + "    implements _$$$"@ + n + "ImplImplCopyWith<$Res> {\n"@ + "  __$$$"@ + n + "ImplImplCopyWithImpl(\n"@ + "      _$$"@ + n + "ImplImpl _value, $Res Function(_$$"@ + n + "ImplImpl) _then)\n"@ + "      : super(_value, _then);\n"@ + "\n"@ + "  /// Create a copy of "@, o5 + "\n  });\n"@ + "}\n\n"@ + "/// @nodoc\n"@ + "class __$$$"@ + n + "ImplImplCopyWithImpl<$Res>\n"@ + "    extends _$"@ + n + "CopyWithImpl<$Res, _$$"@ + n + "ImplImpl>\n"@ + "    implements _$$$"@ + n + "ImplImplCopyWith<$Res> {\n"@ + "  __$$$"@ + n + "ImplImplCopyWithImpl(\n"@ + "      _$$"@ + n + "ImplImpl _value, $Res Function(_$$"@ + n + "ImplImpl) _then)\n"@ + "      : super(_value, _then);\n"@ + "\n"@ + "  /// Create a copy of "@ + n);
    lemma_keeps_add(o5 + "\n  });\n"@ + "}\n\n"@ + "/// @nodoc\n"@ + "class __$$$"@ + n + "ImplImplCopyWithImpl<$Res>\n"@ + "    extends _$"@ + n + "CopyWithImpl<$Res, _$$"@ + n + "ImplImpl>\n"@ + "    implements _$$$"@ + n + "ImplImplCopyWith<$Res> {\n"@ + "  __$$$"@ + n + "ImplImplCopyWithImpl(\n"@ + "      _$$"@ + n + "ImplImpl _value, $Res Function(_$$"@ + n + "ImplImpl) _then)\n"@ + "      : super(_value, _then);\n"@ + "\n"@ + "  /// Create a copy of "@ + n, "\n"@);
    lemma_keeps_trans(o, o5 + "\n  });\n"@ + "}\n\n"@ + "/// @nodoc\n"@ + "class __$$$"@ + n + "ImplImplCopyWithImpl<$Res>\n"@ + "    extends _$"@ + n + "CopyWithImpl<$Res, _$$"@ + n + "ImplImpl>\n"@ + "    implements _$$$"@ + n + "ImplImplCopyWith<$Res> {\n"@ + "  __$$$"@ + n + "ImplImplCopyWithImpl(\n"@ + "      _$$"@ + n + "ImplImpl _value, $Res Function(_$$"@ + n + "ImplImpl) _then)\n"@ + "      : super(_value, _then);\n"@ + "\n"@ + "  /// Create a copy of "@ + n, o5 + "\n  });\n"@ + "}\n\n"@ + "/// @nodoc\n"@ + "class __$$$"@ + n + "ImplImplCopyWithImpl<$Res>\n"@ + "    extends _$"@ + n + "CopyWithImpl<$Res, _$$"@ + n + "ImplImpl>\n"@ + "    implements _$$$"@ + n + "ImplImplCopyWith<$Res> {\n"@ + "  __$$$"@ + n + "ImplImplCopyWithImpl(\n"@ + "      _$$"@ + n + "ImplImpl _value, $Res Function(_$$"@ + n + "ImplImpl) _then)\n"@ + "      : super(_value, _then);\n"@ + "\n"@ + "  /// Create a copy of "@ + n + "\n"@);
    lemma_keeps_add(o5 + "\n  });\n"@ + "}\n\n"@ + "/// @nodoc\n"@ + "class __$$$"@ + n + "ImplImplCopyWithImpl<$Res>\n"@ + "    extends _$"@ + n + "CopyWithImpl<$Res, _$$"@ + n + "ImplImpl>\n"@ + "    implements _$$$"@ + n + "ImplImplCopyWith<$Res> {\n"@ + "  __$$$"@ + n + "ImplImplCopyWithImpl(\n"@ + "      _$$"@ + n + "ImplImpl _value, $Res Function(_$$"@ + n + "ImplImpl) _then)\n"@ + "      : super(_value, _then);\n"@ + "\n"@ + "  /// Create a copy of "@ + n + "\n"@, "  /// with the given fields replaced by the non-null parameter values.\n"@);
    lemma_keeps_trans(o, o5 + "\n  });\n"@ + "}\n\n"@ + "/// @nodoc\n"@ + "class __$$$"@ + n + "ImplImplCopyWithImpl<$Res>\n"@ + "    extends _$"@ + n + "CopyWithImpl<$Res, _$$"@ + n + "ImplImpl>\n"@ + "    implements _$$$"@ + n + "ImplImplCopyWith<$Res> {\n"@ + "  __$$$"@ + n + "ImplImplCopyWithImpl(\n"@ + "      _$$"@ + n + "ImplImpl _value, $Res Function(_$$"@ + n + "ImplImpl) _then)\n"@ + "      : super(_value, _then);\n"@ + "\n"@ + "  /// Create a copy of "@ + n + "\n"@, o5 + "\n  });\n"@ + "}\n\n"@ + "/// @nodoc\n"@ + "class __$$$"@ + n + "ImplImplCopyWithImpl<$Res>\n"@ + "    extends _$"@ + n + "CopyWithImpl<$Res, _$$"@ + n + "ImplImpl>\n"@ + "    implements _$$$"@ + n + "ImplImplCopyWith<$Res> {\n"@ + "  __$$$"@ + n + "ImplImplCopyWithImpl(\n"@ + "      _$$"@ + n + "ImplImpl _value, $Res Function(_$$"@ + n + "ImplImpl) _then)\n"@ + "      : super(_value, _then);\n"@ + "\n"@ + "  /// Create a copy of "@ + n + "\n"@ + "  /// with the given fields replaced by the non-null parameter values.\n"@);
    lemma_keeps_add(o5 + "\n  });\n"@ + "}\n\n"@ + "/// @nodoc\n"@ + "class __$$$"@ + n + "ImplImplCopyWithImpl<$Res>\n"@ + "    extends _$"@ + n + "CopyWithImpl<$Res, _$$"@ + n + "ImplImpl>\n"@ + "    implements _$$$"@ + n + "ImplImplCopyWith<$Res> {\n"@ + "  __$$$"@ + n + "ImplImplCopyWithImpl(\n"@ + "      _$$"@ + n + "ImplImpl _value, $Res Function(_$$"@ + n + "ImplImpl) _then)\n"@ + "      : super(_value, _then);\n"@ + "\n"@ + "  /// Create a copy of "@ + n + "\n"@ + "  /// with the given fields replaced by the non-null parameter values.\n"@, "  @pragma('vm:prefer-inline')\n"@);
    lemma_keeps_trans(o, o5 + "\n  });\n"@ + "}\n\n"@ + "/// @nodoc\n"@ + "class __$$$"@ + n + "ImplImplCopyWithImpl<$Res>\n"@ + "    extends _$"@ + n + "CopyWithImpl<$Res, _$$"@ + n + "ImplImpl>\n"@ + "    implements _$$$"@ + n + "ImplImplCopyWith<$Res> {\n"@ + "  __$$$"@ + n + "ImplImplCopyWithImpl(\n"@ + "      _$$"@ + n + "ImplImpl _value, $Res Function(_$$"@ + n + "ImplImpl) _then)\n"@ + "      : super(_value, _then);\n"@ + "\n"@ + "  /// Create a copy of "@ + n + "\n"@ + "  /// with the given fields replaced by the non-null parameter values.\n"@, o5 + "\n  });\n"@ + "}\n\n"@ + "/// @nodoc\n"@ + "class __$$$"@ + n + "ImplImplCopyWithImpl<$Res>\n"@ + "    extends _$"@ + n + "CopyWithImpl<$Res, _$$"@ + n + "ImplImpl>\n"@ + "    implements _$$$"@ + n + "ImplImplCopyWith<$Res> {\n"@ + "  __$$$"@ + n + "ImplImplCopyWithImpl(\n"@ + "      _$$"@ + n + "ImplImpl _value, $Res Function(_$$"@ + n + "ImplImpl) _then)\n"@ + "      : super(_value, _then);\n"@ + "\n"@ + "  /// Create a copy of "@ + n + "\n"@ + "  /// with the given fields replaced by the non-null parameter values.\n"@ + "  @pragma('vm:prefer-inline')\n"@);
    lemma_keeps_add(o5 + "\n  });\n"@ + "}\n\n"@ + "/// @nodoc\n"@ + "class __$$$"@ + n + "ImplImplCopyWithImpl<$Res>\n"@ + "    extends _$"@ + n + "CopyWithImpl<$Res, _$$"@ + n + "ImplImpl>\n"@ + "    implements _$$$"@ + n + "ImplImplCopyWith<$Res> {\n"@ + "  __$$$"@ + n + "ImplImplCopyWithImpl(\n"@ + "      _$$"@ + n + "ImplImpl _value, $Res Function(_$$"@ + n + "ImplImpl) _then)\n"@ + "      : super(_value, _then);\n"@ + "\n"@ + "  /// Create a copy of "@ + n + "\n"@ + "  /// with the given fields replaced by the non-null parameter values.\n"@ + "  @pragma('vm:prefer-inline')\n"@, "  @override\n"@);
    lemma_keeps_trans(o, o5 + "\n  });\n"@ + "}\n\n"@ + "/// @nodoc\n"@ + "class __$$$"@ + n + "ImplImplCopyWithImpl<$Res>\n"@ + "    extends _$"@ + n + "CopyWithImpl<$Res, _$$"@ + n + "ImplImpl>\n"@ + "    implements _$$$"@ + n + "ImplImplCopyWith<$Res> {\n"@ + "  __$$$"@ + n + "ImplImplCopyWithImpl(\n"@ + "      _$$"@ + n + "ImplImpl _value, $Res Function(_$$"@ + n + "ImplImpl) _then)\n"@ + "      : super(_value, _then);\n"@ + "\n"@ + "  /// Create a copy of "@ + n + "\n"@ + "  /// with the given fields replaced by the non-null parameter values.\n"@ + "  @pragma('vm:prefer-inline')\n"@, o5 + "\n  });\n"@ + "}\n\n"@ + "/// @nodoc\n"@ + "class __$$$"@ + n + "ImplImplCopyWithImpl<$Res>\n"@ + "    extends _$"@ + n + "CopyWithImpl<$Res, _$$"@ + n + "ImplImpl>\n"@ + "    implements _$$$"@ + n + "ImplImplCopyWith<$Res> {\n"@ + "  __$$$"@ + n + "ImplImplCopyWithImpl(\n"@ + "      _$$"@ + n + "ImplImpl _value, $Res Function(_$$"@ + n + "ImplImpl) _then)\n"@ + "      : super(_value, _then);\n"@ + "\n"@ + "  /// Create a copy of "@ + n + "\n"@ + "  /// with the given fields replaced by the non-null parameter values.\n"@ + "  @pragma('vm:prefer-inline')\n"@ + "  @override\n"@);
    lemma_keeps_add(o5 + "\n  });\n"@ + "}\n\n"@ + "/// @nodoc\n"@ + "class __$$$"@ + n + "ImplImplCopyWithImpl<$Res>\n"@ + "    extends _$"@ + n + "CopyWithImpl<$Res, _$$"@ + n + "ImplImpl>\n"@ + "    implements _$$$"@ + n + "ImplImplCopyWith<$Res> {\n"@ + "  __$$$"@ + n + "ImplImplCopyWithImpl(\n"@ + "      _$$"@ + n + "ImplImpl _value, $Res Function(_$$"@ + n + "ImplImpl) _then)\n"@ + "      : super(_value, _then);\n"@ + "\n"@ + "  /// Create a copy of "@ + n + "\n"@ + "  /// with the given fields replaced by the non-null parameter values.\n"@ + "  @pragma('vm:prefer-inline')\n"@ + "  @override\n"@, "  $Res call({"@);
    lemma_keeps_trans(o, o5 + "\n  });\n"@ + "}\n\n"@ + "/// @nodoc\n"@ + "class __$$$"@ + n + "ImplImplCopyWithImpl<$Res>\n"@ + "    extends _$"@ + n + "CopyWithImpl<$Res, _$$"@ + n + "ImplImpl>\n"@ + "    implements _$$$"@ + n + "ImplImplCopyWith<$Res> {\n"@ + "  __$$$"@ + n + "ImplImplCopyWithImpl(\n"@ + "      _$$"@ + n + "ImplImpl _value, $Res Function(_$$"@ + n + "ImplImpl) _then)\n"@ + "      : super(_value, _then);\n"@ + "\n"@ + "  /// Create a copy of "@ + n + "\n"@ + "  /// with the given fields replaced by the non-null parameter values.\n"@ + "  @pragma('vm:prefer-inline')\n"@ + "  @override\n"@, o5 + "\n  });\n"@ + "}\n\n"@ + "/// @nodoc\n"@ + "class __$$$"@ + n + "ImplImplCopyWithImpl<$Res>\n"@ + "    extends _$"@ + n + "CopyWithImpl<$Res, _$$"@ + n + "ImplImpl>\n"@ + "    implements _$$$"@ + n + "ImplImplCopyWith<$Res> {\n"@ + "  __$$$"@ + n + "ImplImplCopyWithImpl(\n"@ + "      _$$"@ + n + "ImplImpl _value, $Res Function(_$$"@ + n + "ImplImpl) _then)\n"@ + "      : super(_value, _then);\n"@ + "\n"@ + "  /// Create a copy of "@ + n + "\n"@ + "  /// with the given fields replaced by the non-null parameter values.\n"@ + "  @pragma('vm:prefer-inline')\n"@ + "  @override\n"@ + "  $Res call({"@);
    lemma_fold_put_keeps(o5 + "\n  });\n"@ + "}\n\n"@ + "/// @nodoc\n"@ + "class __$$$"@ + n + "ImplImplCopyWithImpl<$Res>\n"@ + "    extends _$"@ + n + "CopyWithImpl<$Res, _$$"@ + n + "ImplImpl>\n"@ + "    implements _$$$"@ + n + "ImplImplCopyWith<$Res> {\n"@ + "  __$$$"@ + n + "ImplImplCopyWithImpl(\n"@ + "      _$$"@ + n + "ImplImpl _value, $Res Function(_$$"@ + n + "ImplImpl) _then)\n"@ + "      : super(_value, _then);\n"@ + "\n"@ + "  /// Create a copy of "@ + n + "\n"@ + "  /// with the given fields replaced by the non-null parameter values.\n"@ + "  @pragma('vm:prefer-inline')\n"@ + "  @override\n"@ + "  $Res call({"@, fs, field_piece_fn(FieldPiece::ObjectParam));
    lemma_keeps_trans(o, o5 + "\n  });\n"@ + "}\n\n"@ + "/// @nodoc\n"@ + "class __$$$"@ + n + "ImplImplCopyWithImpl<$Res>\n"@ + "    extends _$"@ + n + "CopyWithImpl<$Res, _$$"@ + n + "ImplImpl>\n"@ + "    implements _$$$"@ + n + "ImplImplCopyWith<$Res> {\n"@ + "  __$$$"@ + n + "ImplImplCopyWithImpl(\n"@ + "      _$$"@ + n + "ImplImpl _value, $Res Function(_$$"@ + n + "ImplImpl) _then)\n"@ + "      : super(_value, _then);\n"@ + "\n"@ + "  /// Create a copy of "@ + n + "\n"@ + "  /// with the given fields replaced by the non-null parameter values.\n"@ + "  @pragma('vm:prefer-inline')\n"@ + "  @override\n"@ + "  $Res call({"@, fold_put(o5 + "\n  });\n"@ + "}\n\n"@ + "/// @nodoc\n"@ + "class __$$$"@ + n + "ImplImplCopyWithImpl<$Res>\n"@ + "    extends _$"@ + n + "CopyWithImpl<$Res, _$$"@ + n + "ImplImpl>\n"@ + "    implements _$$$"@ + n + "ImplImplCopyWith<$Res> {\n"@ + "  __$$$"@ + n + "ImplImplCopyWithImpl(\n"@ + "      _$$"@ + n + "ImplImpl _value, $Res Function(_$$"@ + n + "ImplImpl) _then)\n"@ + "      : super(_value, _then);\n"@ + "\n"@ + "  /// Create a copy of "@ + n + "\n"@ + "  /// with the given fields replaced by the non-null parameter values.\n"@ + "  @pragma('vm:prefer-inline')\n"@ + "  @override\n"@ + "  $Res call({"@, fs, field_piece_fn(FieldPiece::ObjectParam)));
    let o6 = fold_put(o5 + "\n  });\n"@ + "}\n\n"@ + "/// @nodoc\n"@ + "class __$$$"@ + n + "ImplImplCopyWithImpl<$Res>\n"@ + "    extends _$"@ + n + "CopyWithImpl<$Res, _$$"@ + n + "ImplImpl>\n"@ + "    implements _$$$"@ + n + "ImplImplCopyWith<$Res> {\n"@ + "  __$$$"@ + n + "ImplImplCopyWithImpl(\n"@ + "      _$$"@ + n + "ImplImpl _value, $Res Function(_$$"@ + n + "ImplImpl) _then)\n"@ + "      : super(_value, _then);\n"@ + "\n"@ + "  /// Create a copy of "@ + n + "\n"@ + "  /// with the given fields replaced by the non-null parameter values.\n"@ + "  @pragma('vm:prefer-inline')\n"@ + "  @override\n"@ + "  $Res call({"@, fs, field_piece_fn(FieldPiece::ObjectParam));
    assert(keeps(o, o6));
    lemma_keeps_add(o6, "\n  }) {\n"@);
    lemma_keeps_trans(o, o6, o6 + "\n  }) {\n"@);
    lemma_keeps_add(o6 + "\n  }) {\n"@, "    return _then(_$$"@);
    lemma_keeps_trans(o, o6 + "\n  }) {\n"@, o6 + "\n  }) {\n"@ + "    return _then(_$$"@);
    lemma_keeps_add(o6 + "\n  }) {\n"@ + "    return _then(_$$"@, n);
    lemma_keeps_trans(o, o6 + "\n  }) {\n"@ + "    return _then(_$$"@, o6 + "\n  }) {\n"@ + "    return _then(_$$"@ + n);
    lemma_keeps_add(o6 + "\n  }) {\n"@ + "    return _then(_$$"@ + n, "ImplImpl(\n"@);
    lemma_keeps_trans(o, o6 + "\n  }) {\n"@ + "    return _then(_$$"@ + n, o6 + "\n  }) {\n"@ + "    return _then(_$$"@ + n + "ImplImpl(\n"@);
    lemma_fold_put_keeps(o6 + "\n  }) {\n"@ + "    return _then(_$$"@ + n + "ImplImpl(\n"@, fs, field_piece_fn(FieldPiece::CopyAssign));
    lemma_keeps_trans(o, o6 + "\n  }) {\n"@ + "    return _then(_$$"@ + n + "ImplImpl(\n"@, fold_put(o6 + "\n  }) {\n"@ + "    return _then(_$$"@ + n + "ImplImpl(\n"@, fs, field_piece_fn(FieldPiece::CopyAssign)));
    let o7 = fold_put(o6 + "\n  }) {\n"@ + "    return _then(_$$"@ + n + "ImplImpl(\n"@, fs, field_piece_fn(FieldPiece::CopyAssign));
    assert(keeps(o, o7));
    lemma_keeps_add(o7, "    ));\n"@);
    lemma_keeps_trans(o, o7, o7 + "    ));\n"@);
    lemma_keeps_add(o7 + "    ));\n"@, "  }\n"@);
    lemma_keeps_trans(o, o7 + "    ));\n"@, o7 + "    ));\n"@ + "  }\n"@);
    lemma_keeps_add(o7 + "    ));\n"@ + "  }\n"@, "}\n\n"@);
    lemma_keeps_trans(o, o7 + "    ));\n"@ + "  }\n"@, o7 + "    ));\n"@ + "  }\n"@ + "}\n\n"@);
    assert(put_regular_head(o, n, fs) == o7 + "    ));\n"@ + "  }\n"@ + "}\n\n"@);
}

/// Writing the second part of a regular class only appends to the text.
#[verifier::rlimit(100)]
proof fn lemma_regular_tail_keeps(o: Seq<char>, n: Seq<char>, fs: Seq<FieldModel>)
    ensures
        keeps(o, put_regular_tail(o, n, fs)),
{
    lemma_field_piece_extends(FieldPiece::GetterLine);
    lemma_field_piece_extends(FieldPiece::CallParam);
    lemma_field_piece_extends(FieldPiece::ObjectParam);
    lemma_field_piece_extends(FieldPiece::CopyAssign);
    lemma_field_piece_extends(FieldPiece::CtorParam);
    lemma_field_piece_extends(FieldPiece::FinalField);
    lemma_field_piece_extends(FieldPiece::ToStringFirst);
    lemma_field_piece_extends(FieldPiece::ToStringNext);
    lemma_field_piece_extends(FieldPiece::EqLine);
    lemma_field_piece_extends(FieldPiece::HashLine);
    lemma_field_piece_extends(FieldPiece::FactoryParam);
    lemma_field_piece_extends(FieldPiece::OverrideGetter);
    lemma_field_piece_extends(FieldPiece::TypedFirst);
    lemma_field_piece_extends(FieldPiece::TypedNext);
    lemma_field_piece_extends(FieldPiece::NameFirst);
    lemma_field_piece_extends(FieldPiece::NameNext);
    lemma_field_piece_extends(FieldPiece::JsonEntry);
    lemma_field_piece_extends(FieldPiece::ThisParam);
    lemma_field_piece_extends(FieldPiece::RequiredTypedParam);
    lemma_field_piece_extends(FieldPiece::AbstractGetter);
    lemma_field_piece_extends(FieldPiece::FreezedParam);
    lemma_field_piece_extends(FieldPiece::CaseCopyAssign);
    reveal_strlit("ImplImpl &&\n");
    lemma_keeps_refl(o);
    lemma_keeps_add(o, "/// @nodoc\n"@);
    lemma_keeps_trans(o, o, o + "/// @nodoc\n"@);
    lemma_keeps_add(o + "/// @nodoc\n"@, "@JsonSerializable()\n"@);
    lemma_keeps_trans(o, o + "/// @nodoc\n"@, o + "/// @nodoc\n"@ + "@JsonSerializable()\n"@);
    lemma_keeps_add(o + "/// @nodoc\n"@ + "@JsonSerializable()\n"@, "class _$$"@);
    lemma_keeps_trans(o, o + "/// @nodoc\n"@ + "@JsonSerializable()\n"@, o + "/// @nodoc\n"@ + "@JsonSerializable()\n"@ + "class _$$"@);
    lemma_keeps_add(o + "/// @nodoc\n"@ + "@JsonSerializable()\n"@ + "class _$$"@, n);
    lemma_keeps_trans(o, o + "/// @nodoc\n"@ + "@JsonSerializable()\n"@ + "class _$$"@, o + "/// @nodoc\n"@ + "@JsonSerializable()\n"@ + "class _$$"@ + n);
    lemma_keeps_add(o + "/// @nodoc\n"@ + "@JsonSerializable()\n"@ + "class _$$"@ + n, "ImplImpl implements _$"@);
    lemma_keeps_trans(o, o + "/// @nodoc\n"@ + "@JsonSerializable()\n"@ + "class _$$"@ + n, o + "/// @nodoc\n"@ + "@JsonSerializable()\n"@ + "class _$$"@ + n + "ImplImpl implements _$"@);
    lemma_keeps_add(o + "/// @nodoc\n"@ + "@JsonSerializable()\n"@ + "class _$$"@ + n + "ImplImpl implements _$"@, n);
    lemma_keeps_trans(o, o + "/// @nodoc\n"@ + "@JsonSerializable()\n"@ + "class _$$"@ + n + "ImplImpl implements _$"@, o + "/// @nodoc\n"@ + "@JsonSerializable()\n"@ + "class _$$"@ + n + "ImplImpl implements _$"@ + n);
    lemma_keeps_add(o + "/// @nodoc\n"@ + "@JsonSerializable()\n"@ + "class _$$"@ + n + "ImplImpl implements _$"@ + n, "Impl {\n"@);
    lemma_keeps_trans(o, o + "/// @nodoc\n"@ + "@JsonSerializable()\n"@ + "class _$$"@ + n + "ImplImpl implements _$"@ + n, o + "/// @nodoc\n"@ + "@JsonSerializable()\n"@ + "class _$$"@ + n + "ImplImpl implements _$"@ + n + "Impl {\n"@);
    lemma_keeps_add(o + "/// @nodoc\n"@ + "@JsonSerializable()\n"@ + "class _$$"@ + n + "ImplImpl implements _$"@ + n + "Impl {\n"@, "  const _$$"@);
    lemma_keeps_trans(o, o + "/// @nodoc\n"@ + "@JsonSerializable()\n"@ + "class _$$"@ + n + "ImplImpl implements _$"@ + n + "Impl {\n"@, o + "/// @nodoc\n"@ + "@JsonSerializable()\n"@ + "class _$$"@ + n + "ImplImpl implements _$"@ + n + "Impl {\n"@ + "  const _$$"@);
    lemma_keeps_add(o + "/// @nodoc\n"@ + "@JsonSerializable()\n"@ + "class _$$"@ + n + "ImplImpl implements _$"@ + n + "Impl {\n"@ + "  const _$$"@, n);
    lemma_keeps_trans(o, o + "/// @nodoc\n"@ + "@JsonSerializable()\n"@ + "class _$$"@ + n + "ImplImpl implements _$"@ + n + "Impl {\n"@ + "  const _$$"@, o + "/// @nodoc\n"@ + "@JsonSerializable()\n"@ + "class _$$"@ + n + "ImplImpl implements _$"@ + n + "Impl {\n"@ + "  const _$$"@ + n);
    lemma_keeps_add(o + "/// @nodoc\n"@ + "@JsonSerializable()\n"@ + "class _$$"@ + n + "ImplImpl implements _$"@ + n + "Impl {\n"@ + "  const _$$"@ + n, "ImplImpl(\n"@);
    lemma_keeps_trans(o, o + "/// @nodoc\n"@ + "@JsonSerializable()\n"@ + "class _$$"@ + n + "ImplImpl implements _$"@ + n + "Impl {\n"@ + "  const _$$"@ + n, o + "/// @nodoc\n"@ + "@JsonSerializable()\n"@ + "class _$$"@ + n + "ImplImpl implements _$"@ + n + "Impl {\n"@ + "  const _$$"@ + n + "ImplImpl(\n"@);
    lemma_keeps_add(o + "/// @nodoc\n"@ + "@JsonSerializable()\n"@ + "class _$$"@ + n + "ImplImpl implements _$"@ + n + "Impl {\n"@ + "  const _$$"@ + n + "ImplImpl(\n"@, "      {"@);
    lemma_keeps_trans(o, o + "/// @nodoc\n"@ + "@JsonSerializable()\n"@ + "class _$$"@ + n + "ImplImpl implements _$"@ + n + "Impl {\n"@ + "  const _$$"@ + n + "ImplImpl(\n"@, o + "/// @nodoc\n"@ + "@JsonSerializable()\n"@ + "class _$$"@ + n + "ImplImpl implements _$"@ + n + "Impl {\n"@ + "  const _$$"@ + n + "ImplImpl(\n"@ + "      {"@);
    lemma_fold_put_keeps(o + "/// @nodoc\n"@ + "@JsonSerializable()\n"@ + "class _$$"@ + n + "ImplImpl implements _$"@ + n + "Impl {\n"@ + "  const _$$"@ + n + "ImplImpl(\n"@ + "      {"@, fs, field_piece_fn(FieldPiece::CtorParam));
    lemma_keeps_trans(o, o + "/// @nodoc\n"@ + "@JsonSerializable()\n"@ + "class _$$"@ + n + "ImplImpl implements _$"@ + n + "Impl {\n"@ + "  const _$$"@ + n + "ImplImpl(\n"@ + "      {"@, fold_put(o + "/// @nodoc\n"@ + "@JsonSerializable()\n"@ + "class _$$"@ + n + "ImplImpl implements _$"@ + n + "Impl {\n"@ + "  const _$$"@ + n + "ImplImpl(\n"@ + "      {"@, fs, field_piece_fn(FieldPiece::CtorParam)));
    let o1 = fold_put(o + "/// @nodoc\n"@ + "@JsonSerializable()\n"@ + "class _$$"@ + n + "ImplImpl implements _$"@ + n + "Impl {\n"@ + "  const _$$"@ + n + "ImplImpl(\n"@ + "      {"@, fs, field_piece_fn(FieldPiece::CtorParam));
    assert(keeps(o, o1));
    lemma_keeps_add(o1, "});\n\n"@);
    lemma_keeps_trans(o, o1, o1 + "});\n\n"@);
    lemma_keeps_add(o1 + "});\n\n"@, "  factory _$$"@);
    lemma_keeps_trans(o, o1 + "});\n\n"@, o1 + "});\n\n"@ + "  factory _$$"@);
    lemma_keeps_add(o1 + "});\n\n"@ + "  factory _$$"@, n);
    lemma_keeps_trans(o, o1 + "});\n\n"@ + "  factory _$$"@, o1 + "});\n\n"@ + "  factory _$$"@ + n);
    lemma_keeps_add(o1 + "});\n\n"@ + "  factory _$$"@ + n, "ImplImpl.fromJson(Map<String, dynamic> json) =>\n"@);
    lemma_keeps_trans(o, o1 + "});\n\n"@ + "  factory _$$"@ + n, o1 + "});\n\n"@ + "  factory _$$"@ + n + "ImplImpl.fromJson(Map<String, dynamic> json) =>\n"@);
    lemma_keeps_add(o1 + "});\n\n"@ + "  factory _$$"@ + n + "ImplImpl.fromJson(Map<String, dynamic> json) =>\n"@, "      _$$"@);
    lemma_keeps_trans(o, o1 + "});\n\n"@ + "  factory _$$"@ + n + "ImplImpl.fromJson(Map<String, dynamic> json) =>\n"@, o1 + "});\n\n"@ + "  factory _$$"@ + n + "ImplImpl.fromJson(Map<String, dynamic> json) =>\n"@ + "      _$$"@);
    lemma_keeps_add(o1 + "});\n\n"@ + "  factory _$$"@ + n + "ImplImpl.fromJson(Map<String, dynamic> json) =>\n"@ + "      _$$"@, n);
    lemma_keeps_trans(o, o1 + "});\n\n"@ + "  factory _$$"@ + n + "ImplImpl.fromJson(Map<String, dynamic> json) =>\n"@ + "      _$$"@, o1 + "});\n\n"@ + "  factory _$$"@ + n + "ImplImpl.fromJson(Map<String, dynamic> json) =>\n"@ + "      _$$"@ + n);
    lemma_keeps_add(o1 + "});\n\n"@ + "  factory _$$"@ + n + "ImplImpl.fromJson(Map<String, dynamic> json) =>\n"@ + "      _$$"@ + n, "ImplImplFromJson(json);\n\n"@);
    lemma_keeps_trans(o, o1 + "});\n\n"@ + "  factory _$$"@ + n + "ImplImpl.fromJson(Map<String, dynamic> json) =>\n"@ + "      _$$"@ + n, o1 + "});\n\n"@ + "  factory _$$"@ + n + "ImplImpl.fromJson(Map<String, dynamic> json) =>\n"@ + "      _$$"@ + n + "ImplImplFromJson(json);\n\n"@);
    lemma_fold_put_keeps(o1 + "});\n\n"@ + "  factory _$$"@ + n + "ImplImpl.fromJson(Map<String, dynamic> json) =>\n"@ + "      _$$"@ + n + "ImplImplFromJson(json);\n\n"@, fs, field_piece_fn(FieldPiece::FinalField));
    lemma_keeps_trans(o, o1 + "});\n\n"@ + "  factory _$$"@ + n + "ImplImpl.fromJson(Map<String, dynamic> json) =>\n"@ + "      _$$"@ + n + "ImplImplFromJson(json);\n\n"@, fold_put(o1 + "});\n\n"@ + "  factory _$$"@ + n + "ImplImpl.fromJson(Map<String, dynamic> json) =>\n"@ + "      _$$"@ + n + "ImplImplFromJson(json);\n\n"@, fs, field_piece_fn(FieldPiece::FinalField)));
    let o2 = fold_put(o1 + "});\n\n"@ + "  factory _$$"@ + n + "ImplImpl.fromJson(Map<String, dynamic> json) =>\n"@ + "      _$$"@ + n + "ImplImplFromJson(json);\n\n"@, fs, field_piece_fn(FieldPiece::FinalField));
    assert(keeps(o, o2));
    lemma_keeps_add(o2, "\n"@);
    lemma_keeps_trans(o, o2, o2 + "\n"@);
    lemma_keeps_add(o2 + "\n"@, "  @override\n"@);
    lemma_keeps_trans(o, o2 + "\n"@, o2 + "\n"@ + "  @override\n"@);
    lemma_keeps_add(o2 + "\n"@ + "  @override\n"@, "  String toString() {\n"@);
    lemma_keeps_trans(o, o2 + "\n"@ + "  @override\n"@, o2 + "\n"@ + "  @override\n"@ + "  String toString() {\n"@);
    lemma_keeps_add(o2 + "\n"@ + "  @override\n"@ + "  String toString() {\n"@, "    return '"@);
    lemma_keeps_trans(o, o2 + "\n"@ + "  @override\n"@ + "  String toString() {\n"@, o2 + "\n"@ + "  @override\n"@ + "  String toString() {\n"@ + "    return '"@);
    lemma_keeps_add(o2 + "\n"@ + "  @override\n"@ + "  String toString() {\n"@ + "    return '"@, n);
    lemma_keeps_trans(o, o2 + "\n"@ + "  @override\n"@ + "  String toString() {\n"@ + "    return '"@, o2 + "\n"@ + "  @override\n"@ + "  String toString() {\n"@ + "    return '"@ + n);
    lemma_keeps_add(o2 + "\n"@ + "  @override\n"@ + "  String toString() {\n"@ + "    return '"@ + n, "("@);
    lemma_keeps_trans(o, o2 + "\n"@ + "  @override\n"@ + "  String toString() {\n"@ + "    return '"@ + n, o2 + "\n"@ + "  @override\n"@ + "  String toString() {\n"@ + "    return '"@ + n + "("@);
    lemma_joined_keeps(o2 + "\n"@ + "  @override\n"@ + "  String toString() {\n"@ + "    return '"@ + n + "("@, fs, FieldPiece::ToStringFirst, FieldPiece::ToStringNext);
    lemma_keeps_trans(o, o2 + "\n"@ + "  @override\n"@ + "  String toString() {\n"@ + "    return '"@ + n + "("@, put_joined(o2 + "\n"@ + "  @override\n"@ + "  String toString() {\n"@ + "    return '"@ + n + "("@, fs, FieldPiece::ToStringFirst, FieldPiece::ToStringNext));
    let o3 = put_joined(o2 + "\n"@ + "  @override\n"@ + "  String toString() {\n"@ + "    return '"@ + n + "("@, fs, FieldPiece::ToStringFirst, FieldPiece::ToStringNext);
    assert(keeps(o, o3));
    lemma_keeps_add(o3, ")';\n"@);
    lemma_keeps_trans(o, o3, o3 + ")';\n"@);
    lemma_keeps_add(o3 + ")';\n"@, "  }\n\n"@);
    lemma_keeps_trans(o, o3 + ")';\n"@, o3 + ")';\n"@ + "  }\n\n"@);
    lemma_keeps_add(o3 + ")';\n"@ + "  }\n\n"@, "  @override\n"@);
    lemma_keeps_trans(o, o3 + ")';\n"@ + "  }\n\n"@, o3 + ")';\n"@ + "  }\n\n"@ + "  @override\n"@);
    lemma_keeps_add(o3 + ")';\n"@ + "  }\n\n"@ + "  @override\n"@, "  bool operator ==(Object other) {\n"@);
    lemma_keeps_trans(o, o3 + ")';\n"@ + "  }\n\n"@ + "  @override\n"@, o3 + ")';\n"@ + "  }\n\n"@ + "  @override\n"@ + "  bool operator ==(Object other) {\n"@);
    lemma_keeps_add(o3 + ")';\n"@ + "  }\n\n"@ + "  @override\n"@ + "  bool operator ==(Object other) {\n"@, "    return identical(this, other) ||\n"@);
    lemma_keeps_trans(o, o3 + ")';\n"@ + "  }\n\n"@ + "  @override\n"@ + "  bool operator ==(Object other) {\n"@, o3 + ")';\n"@ + "  }\n\n"@ + "  @override\n"@ + "  bool operator ==(Object other) {\n"@ + "    return identical(this, other) ||\n"@);
    lemma_keeps_add(o3 + ")';\n"@ + "  }\n\n"@ + "  @override\n"@ + "  bool operator ==(Object other) {\n"@ + "    return identical(this, other) ||\n"@, "        (other.runtimeType == runtimeType &&\n"@);
    lemma_keeps_trans(o, o3 + ")';\n"@ + "  }\n\n"@ + "  @override\n"@ + "  bool operator ==(Object other) {\n"@ + "    return identical(this, other) ||\n"@, o3 + ")';\n"@ + "  }\n\n"@ + "  @override\n"@ + "  bool operator ==(Object other) {\n"@ + "    return identical(this, other) ||\n"@ + "        (other.runtimeType == runtimeType &&\n"@);
    lemma_keeps_add(o3 + ")';\n"@ + "  }\n\n"@ + "  @override\n"@ + "  bool operator ==(Object other) {\n"@ + "    return identical(this, other) ||\n"@ + "        (other.runtimeType == runtimeType &&\n"@, "            other is _$$"@);
    lemma_keeps_trans(o, o3 + ")';\n"@ + "  }\n\n"@ + "  @override\n"@ + "  bool operator ==(Object other) {\n"@ + "    return identical(this, other) ||\n"@ + "        (other.runtimeType == runtimeType &&\n"@, o3 + ")';\n"@ + "  }\n\n"@ + "  @override\n"@ + "  bool operator ==(Object other) {\n"@ + "    return identical(this, other) ||\n"@ + "        (other.runtimeType == runtimeType &&\n"@ + "            other is _$$"@);
    lemma_keeps_add(o3 + ")';\n"@ + "  }\n\n"@ + "  @override\n"@ + "  bool operator ==(Object other) {\n"@ + "    return identical(this, other) ||\n"@ + "        (other.runtimeType == runtimeType &&\n"@ + "            other is _$$"@, n);
    lemma_keeps_trans(o, o3 + ")';\n"@ + "  }\n\n"@ + "  @override\n"@ + "  bool operator ==(Object other) {\n"@ + "    return identical(this, other) ||\n"@ + "        (other.runtimeType == runtimeType &&\n"@ + "            other is _$$"@, o3 + ")';\n"@ + "  }\n\n"@ + "  @override\n"@ + "  bool operator ==(Object other) {\n"@ + "    return identical(this, other) ||\n"@ + "        (other.runtimeType == runtimeType &&\n"@ + "            other is _$$"@ + n);
    lemma_keeps_add(o3 + ")';\n"@ + "  }\n\n"@ + "  @override\n"@ + "  bool operator ==(Object other) {\n"@ + "    return identical(this, other) ||\n"@ + "        (other.runtimeType == runtimeType &&\n"@ + "            other is _$$"@ + n, "ImplImpl &&\n"@);
    lemma_keeps_trans(o, o3 + ")';\n"@ + "  }\n\n"@ + "  @override\n"@ + "  bool operator ==(Object other) {\n"@ + "    return identical(this, other) ||\n"@ + "        (other.runtimeType == runtimeType &&\n"@ + "            other is _$$"@ + n, o3 + ")';\n"@ + "  }\n\n"@ + "  @override\n"@ + "  bool operator ==(Object other) {\n"@ + "    return identical(this, other) ||\n"@ + "        (other.runtimeType == runtimeType &&\n"@ + "            other is _$$"@ + n + "ImplImpl &&\n"@);
    lemma_fold_put_keeps(o3 + ")';\n"@ + "  }\n\n"@ + "  @override\n"@ + "  bool operator ==(Object other) {\n"@ + "    return identical(this, other) ||\n"@ + "        (other.runtimeType == runtimeType &&\n"@ + "            other is _$$"@ + n + "ImplImpl &&\n"@, fs, field_piece_fn(FieldPiece::EqLine));
    lemma_keeps_trans(o, o3 + ")';\n"@ + "  }\n\n"@ + "  @override\n"@ + "  bool operator ==(Object other) {\n"@ + "    return identical(this, other) ||\n"@ + "        (other.runtimeType == runtimeType &&\n"@ + "            other is _$$"@ + n + "ImplImpl &&\n"@, fold_put(o3 + ")';\n"@ + "  }\n\n"@ + "  @override\n"@ + "  bool operator ==(Object other) {\n"@ + "    return identical(this, other) ||\n"@ + "        (other.runtimeType == runtimeType &&\n"@ + "            other is _$$"@ + n + "ImplImpl &&\n"@, fs, field_piece_fn(FieldPiece::EqLine)));
    let o4 = fold_put(o3 + ")';\n"@ + "  }\n\n"@ + "  @override\n"@ + "  bool operator ==(Object other) {\n"@ + "    return identical(this, other) ||\n"@ + "        (other.runtimeType == runtimeType &&\n"@ + "            other is _$$"@ + n + "ImplImpl &&\n"@, fs, field_piece_fn(FieldPiece::EqLine));
    assert(keeps(o, o4));
    if ends_with(o4, " &&\n"@) {
        lemma_keeps_len(o3 + ")';\n"@ + "  }\n\n"@ + "  @override\n"@ + "  bool operator ==(Object other) {\n"@ + "    return identical(this, other) ||\n"@ + "        (other.runtimeType == runtimeType &&\n"@ + "            other is _$$"@ + n + "ImplImpl &&\n"@, o4);
        lemma_keeps_len(o, o3);
        lemma_keeps_take(o, o4, 4);
    } else {
    }
    let o5 = if ends_with(o4, " &&\n"@) { o4.take(o4.len() - 4) } else { o4 };
    assert(keeps(o, o5));
    lemma_keeps_add(o5, ");\n"@);
    lemma_keeps_trans(o, o5, o5 + ");\n"@);
    lemma_keeps_add(o5 + ");\n"@, "  }\n\n"@);
    lemma_keeps_trans(o, o5 + ");\n"@, o5 + ");\n"@ + "  }\n\n"@);
    lemma_keeps_add(o5 + ");\n"@ + "  }\n\n"@, "  @JsonKey(includeFromJson: false, includeToJson: false)\n"@);
    lemma_keeps_trans(o, o5 + ");\n"@ + "  }\n\n"@, o5 + ");\n"@ + "  }\n\n"@ + "  @JsonKey(includeFromJson: false, includeToJson: false)\n"@);
    lemma_keeps_add(o5 + ");\n"@ + "  }\n\n"@ + "  @JsonKey(includeFromJson: false, includeToJson: false)\n"@, "  @override\n"@);
    lemma_keeps_trans(o, o5 + ");\n"@ + "  }\n\n"@ + "  @JsonKey(includeFromJson: false, includeToJson: false)\n"@, o5 + ");\n"@ + "  }\n\n"@ + "  @JsonKey(includeFromJson: false, includeToJson: false)\n"@ + "  @override\n"@);
    lemma_keeps_add(o5 + ");\n"@ + "  }\n\n"@ + "  @JsonKey(includeFromJson: false, includeToJson: false)\n"@ + "  @override\n"@, "  int get hashCode => Object.hash(\n"@);
    lemma_keeps_trans(o, o5 + ");\n"@ + "  }\n\n"@ + "  @JsonKey(includeFromJson: false, includeToJson: false)\n"@ + "  @override\n"@, o5 + ");\n"@ + "  }\n\n"@ + "  @JsonKey(includeFromJson: false, includeToJson: false)\n"@ + "  @override\n"@ + "  int get hashCode => Object.hash(\n"@);
    lemma_keeps_add(o5 + ");\n"@ + "  }\n\n"@ + "  @JsonKey(includeFromJson: false, includeToJson: false)\n"@ + "  @override\n"@ + "  int get hashCode => Object.hash(\n"@, "      runtimeType,\n"@);
    lemma_keeps_trans(o, o5 + ");\n"@ + "  }\n\n"@ + "  @JsonKey(includeFromJson: false, includeToJson: false)\n"@ + "  @override\n"@ + "  int get hashCode => Object.hash(\n"@, o5 + ");\n"@ + "  }\n\n"@ + "  @JsonKey(includeFromJson: false, includeToJson: false)\n"@ + "  @override\n"@ + "  int get hashCode => Object.hash(\n"@ + "      runtimeType,\n"@);
    lemma_fold_put_keeps(o5 + ");\n"@ + "  }\n\n"@ + "  @JsonKey(includeFromJson: false, includeToJson: false)\n"@ + "  @override\n"@ + "  int get hashCode => Object.hash(\n"@ + "      runtimeType,\n"@, fs, field_piece_fn(FieldPiece::HashLine));
    lemma_keeps_trans(o, o5 + ");\n"@ + "  }\n\n"@ + "  @JsonKey(includeFromJson: false, includeToJson: false)\n"@ + "  @override\n"@ + "  int get hashCode => Object.hash(\n"@ + "      runtimeType,\n"@, fold_put(o5 + ");\n"@ + "  }\n\n"@ + "  @JsonKey(includeFromJson: false, includeToJson: false)\n"@ + "  @override\n"@ + "  int get hashCode => Object.hash(\n"@ + "      runtimeType,\n"@, fs, field_piece_fn(FieldPiece::HashLine)));
    let o6 = fold_put(o5 + ");\n"@ + "  }\n\n"@ + "  @JsonKey(includeFromJson: false, includeToJson: false)\n"@ + "  @override\n"@ + "  int get hashCode => Object.hash(\n"@ + "      runtimeType,\n"@, fs, field_piece_fn(FieldPiece::HashLine));
    assert(keeps(o, o6));
    lemma_keeps_add(o6, "  );\n\n"@);
    lemma_keeps_trans(o, o6, o6 + "  );\n\n"@);
    lemma_keeps_add(o6 + "  );\n\n"@, "  /// Create a copy of "@);
    lemma_keeps_trans(o, o6 + "  );\n\n"@, o6 + "  );\n\n"@ + "  /// Create a copy of "@);
    lemma_keeps_add(o6 + "  );\n\n"@ + "  /// Create a copy of "@, n);
    lemma_keeps_trans(o, o6 + "  );\n\n"@ + "  /// Create a copy of "@, o6 + "  );\n\n"@ + "  /// Create a copy of "@ + n);
    lemma_keeps_add(o6 + "  );\n\n"@ + "  /// Create a copy of "@ + n, "\n"@);
    lemma_keeps_trans(o, o6 + "  );\n\n"@ + "  /// Create a copy of "@ + n, o6 + "  );\n\n"@ + "  /// Create a copy of "@ + n + "\n"@);
    lemma_keeps_add(o6 + "  );\n\n"@ + "  /// Create a copy of "@ + n + "\n"@, "  /// with the given fields replaced by the non-null parameter values.\n"@);
    lemma_keeps_trans(o, o6 + "  );\n\n"@ + "  /// Create a copy of "@ + n + "\n"@, o6 + "  );\n\n"@ + "  /// Create a copy of "@ + n + "\n"@ + "  /// with the given fields replaced by the non-null parameter values.\n"@);
    lemma_keeps_add(o6 + "  );\n\n"@ + "  /// Create a copy of "@ + n + "\n"@ + "  /// with the given fields replaced by the non-null parameter values.\n"@, "  @JsonKey(includeFromJson: false, includeToJson: false)\n"@);
    lemma_keeps_trans(o, o6 + "  );\n\n"@ + "  /// Create a copy of "@ + n + "\n"@ + "  /// with the given fields replaced by the non-null parameter values.\n"@, o6 + "  );\n\n"@ + "  /// Create a copy of "@ + n + "\n"@ + "  /// with the given fields replaced by the non-null parameter values.\n"@ + "  @JsonKey(includeFromJson: false, includeToJson: false)\n"@);
    lemma_keeps_add(o6 + "  );\n\n"@ + "  /// Create a copy of "@ + n + "\n"@ + "  /// with the given fields replaced by the non-null parameter values.\n"@ + "  @JsonKey(includeFromJson: false, includeToJson: false)\n"@, "  @override\n"@);
    lemma_keeps_trans(o, o6 + "  );\n\n"@ + "  /// Create a copy of "@ + n + "\n"@ + "  /// with the given fields replaced by the non-null parameter values.\n"@ + "  @JsonKey(includeFromJson: false, includeToJson: false)\n"@, o6 + "  );\n\n"@ + "  /// Create a copy of "@ + n + "\n"@ + "  /// with the given fields replaced by the non-null parameter values.\n"@ + "  @JsonKey(includeFromJson: false, includeToJson: false)\n"@ + "  @override\n"@);
    lemma_keeps_add(o6 + "  );\n\n"@ + "  /// Create a copy of "@ + n + "\n"@ + "  /// with the given fields replaced by the non-null parameter values.\n"@ + "  @JsonKey(includeFromJson: false, includeToJson: false)\n"@ + "  @override\n"@, "  @pragma('vm:prefer-inline')\n"@);
    lemma_keeps_trans(o, o6 + "  );\n\n"@ + "  /// Create a copy of "@ + n + "\n"@ + "  /// with the given fields replaced by the non-null parameter values.\n"@ + "  @JsonKey(includeFromJson: false, includeToJson: false)\n"@ + "  @override\n"@, o6 + "  );\n\n"@ + "  /// Create a copy of "@ + n + "\n"@ + "  /// with the given fields replaced by the non-null parameter values.\n"@ + "  @JsonKey(includeFromJson: false, includeToJson: false)\n"@ + "  @override\n"@ + "  @pragma('vm:prefer-inline')\n"@);
    lemma_keeps_add(o6 + "  );\n\n"@ + "  /// Create a copy of "@ + n + "\n"@ + "  /// with the given fields replaced by the non-null parameter values.\n"@ + "  @JsonKey(includeFromJson: false, includeToJson: false)\n"@ + "  @override\n"@ + "  @pragma('vm:prefer-inline')\n"@, "  _$$$"@);
    lemma_keeps_trans(o, o6 + "  );\n\n"@ + "  /// Create a copy of "@ + n + "\n"@ + "  /// with the given fields replaced by the non-null parameter values.\n"@ + "  @JsonKey(includeFromJson: false, includeToJson: false)\n"@ + "  @override\n"@ + "  @pragma('vm:prefer-inline')\n"@, o6 + "  );\n\n"@ + "  /// Create a copy of "@ + n + "\n"@ + "  /// with the given fields replaced by the non-null parameter values.\n"@ + "  @JsonKey(includeFromJson: false, includeToJson: false)\n"@ + "  @override\n"@ + "  @pragma('vm:prefer-inline')\n"@ + "  _$$$"@);
    lemma_keeps_add(o6 + "  );\n\n"@ + "  /// Create a copy of "@ + n + "\n"@ + "  /// with the given fields replaced by the non-null parameter values.\n"@ + "  @JsonKey(includeFromJson: false, includeToJson: false)\n"@ + "  @override\n"@ + "  @pragma('vm:prefer-inline')\n"@ + "  _$$$"@, n);
    lemma_keeps_trans(o, o6 + "  );\n\n"@ + "  /// Create a copy of "@ + n + "\n"@ + "  /// with the given fields replaced by the non-null parameter values.\n"@ + "  @JsonKey(includeFromJson: false, includeToJson: false)\n"@ + "  @override\n"@ + "  @pragma('vm:prefer-inline')\n"@ + "  _$$$"@, o6 + "  );\n\n"@ + "  /// Create a copy of "@ + n + "\n"@ + "  /// with the given fields replaced by the non-null parameter values.\n"@ + "  @JsonKey(includeFromJson: false, includeToJson: false)\n"@ + "  @override\n"@ + "  @pragma('vm:prefer-inline')\n"@ + "  _$$$"@ + n);
    lemma_keeps_add(o6 + "  );\n\n"@ + "  /// Create a copy of "@ + n + "\n"@ + "  /// with the given fields replaced by the non-null parameter values.\n"@ + "  @JsonKey(includeFromJson: false, includeToJson: false)\n"@ + "  @override\n"@ + "  @pragma('vm:prefer-inline')\n"@ + "  _$$$"@ + n, "ImplImplCopyWith<_$$"@);
    lemma_keeps_trans(o, o6 + "  );\n\n"@ + "  /// Create a copy of "@ + n + "\n"@ + "  /// with the given fields replaced by the non-null parameter values.\n"@ + "  @JsonKey(includeFromJson: false, includeToJson: false)\n"@ + "  @override\n"@ + "  @pragma('vm:prefer-inline')\n"@ + "  _$$$"@ + n, o6 + "  );\n\n"@ + "  /// Create a copy of "@ + n + "\n"@ + "  /// with the given fields replaced by the non-null parameter values.\n"@ + "  @JsonKey(includeFromJson: false, includeToJson: false)\n"@ + "  @override\n"@ + "  @pragma('vm:prefer-inline')\n"@ + "  _$$$"@ + n + "ImplImplCopyWith<_$$"@);
    lemma_keeps_add(o6 + "  );\n\n"@ + "  /// Create a copy of "@ + n + "\n"@ + "  /// with the given fields replaced by the non-null parameter values.\n"@ + "  @JsonKey(includeFromJson: false, includeToJson: false)\n"@ + "  @override\n"@ + "  @pragma('vm:prefer-inline')\n"@ + "  _$$$"@ + n + "ImplImplCopyWith<_$$"@, n);
    lemma_keeps_trans(o, o6 + "  );\n\n"@ + "  /// Create a copy of "@ + n + "\n"@ + "  /// with the given fields replaced by the non-null parameter values.\n"@ + "  @JsonKey(includeFromJson: false, includeToJson: false)\n"@ + "  @override\n"@ + "  @pragma('vm:prefer-inline')\n"@ + "  _$$$"@ + n + "ImplImplCopyWith<_$$"@, o6 + "  );\n\n"@ + "  /// Create a copy of "@ + n + "\n"@ + "  /// with the given fields replaced by the non-null parameter values.\n"@ + "  @JsonKey(includeFromJson: false, includeToJson: false)\n"@ + "  @override\n"@ + "  @pragma('vm:prefer-inline')\n"@ + "  _$$$"@ + n + "ImplImplCopyWith<_$$"@ + n);
    lemma_keeps_add(o6 + "  );\n\n"@ + "  /// Create a copy of "@ + n + "\n"@ + "  /// with the given fields replaced by the non-null parameter values.\n"@ + "  @JsonKey(includeFromJson: false, includeToJson: false)\n"@ + "  @override\n"@ + "  @pragma('vm:prefer-inline')\n"@ + "  _$$$"@ + n + "ImplImplCopyWith<_$$"@ + n, "ImplImpl> get copyWith =>\n"@);
    lemma_keeps_trans(o, o6 + "  );\n\n"@ + "  /// Create a copy of "@ + n + "\n"@ + "  /// with the given fields replaced by the non-null parameter values.\n"@ + "  @JsonKey(includeFromJson: false, includeToJson: false)\n"@ + "  @override\n"@ + "  @pragma('vm:prefer-inline')\n"@ + "  _$$$"@ + n + "ImplImplCopyWith<_$$"@ + n, o6 + "  );\n\n"@ + "  /// Create a copy of "@ + n + "\n"@ + "  /// with the given fields replaced by the non-null parameter values.\n"@ + "  @JsonKey(includeFromJson: false, includeToJson: false)\n"@ + "  @override\n"@ + "  @pragma('vm:prefer-inline')\n"@ + "  _$$$"@ + n + "ImplImplCopyWith<_$$"@ + n + "ImplImpl> get copyWith =>\n"@);
    lemma_keeps_add(o6 + "  );\n\n"@ + "  /// Create a copy of "@ + n + "\n"@ + "  /// with the given fields replaced by the non-null parameter values.\n"@ + "  @JsonKey(includeFromJson: false, includeToJson: false)\n"@ + "  @override\n"@ + "  @pragma('vm:prefer-inline')\n"@ + "  _$$$"@ + n + "ImplImplCopyWith<_$$"@ + n + "ImplImpl> get copyWith =>\n"@, "      __$$$"@);
    lemma_keeps_trans(o, o6 + "  );\n\n"@ + "  /// Create a copy of "@ + n + "\n"@ + "  /// with the given fields replaced by the non-null parameter values.\n"@ + "  @JsonKey(includeFromJson: false, includeToJson: false)\n"@ + "  @override\n"@ + "  @pragma('vm:prefer-inline')\n"@ + "  _$$$"@ + n + "ImplImplCopyWith<_$$"@ + n + "ImplImpl> get copyWith =>\n"@, o6 + "  );\n\n"@ + "  /// Create a copy of "@ + n + "\n"@ + "  /// with the given fields replaced by the non-null parameter values.\n"@ + "  @JsonKey(includeFromJson: false, includeToJson: false)\n"@ + "  @override\n"@ + "  @pragma('vm:prefer-inline')\n"@ + "  _$$$"@ + n + "ImplImplCopyWith<_$$"@ + n + "ImplImpl> get copyWith =>\n"@ + "      __$$$"@);
    lemma_keeps_add(o6 + "  );\n\n"@ + "  /// Create a copy of "@ + n + "\n"@ + "  /// with the given fields replaced by the non-null parameter values.\n"@ + "  @JsonKey(includeFromJson: false, includeToJson: false)\n"@ + "  @override\n"@ + "  @pragma('vm:prefer-inline')\n"@ + "  _$$$"@ + n + "ImplImplCopyWith<_$$"@ + n + "ImplImpl> get copyWith =>\n"@ + "      __$$$"@, n);
    lemma_keeps_trans(o, o6 + "  );\n\n"@ + "  /// Create a copy of "@ + n + "\n"@ + "  /// with the given fields replaced by the non-null parameter values.\n"@ + "  @JsonKey(includeFromJson: false, includeToJson: false)\n"@ + "  @override\n"@ + "  @pragma('vm:prefer-inline')\n"@ + "  _$$$"@ + n + "ImplImplCopyWith<_$$"@ + n + "ImplImpl> get copyWith =>\n"@ + "      __$$$"@, o6 + "  );\n\n"@ + "  /// Create a copy of "@ + n + "\n"@ + "  /// with the given fields replaced by the non-null parameter values.\n"@ + "  @JsonKey(includeFromJson: false, includeToJson: false)\n"@ + "  @override\n"@ + "  @pragma('vm:prefer-inline')\n"@ + "  _$$$"@ + n + "ImplImplCopyWith<_$$"@ + n + "ImplImpl> get copyWith =>\n"@ + "      __$$$"@ + n);
    lemma_keeps_add(o6 + "  );\n\n"@ + "  /// Create a copy of "@ + n + "\n"@ + "  /// with the given fields replaced by the non-null parameter values.\n"@ + "  @JsonKey(includeFromJson: false, includeToJson: false)\n"@ + "  @override\n"@ + "  @pragma('vm:prefer-inline')\n"@ + "  _$$$"@ + n + "ImplImplCopyWith<_$$"@ + n + "ImplImpl> get copyWith =>\n"@ + "      __$$$"@ + n, "ImplImplCopyWithImpl<_$$"@);
    lemma_keeps_trans(o, o6 + "  );\n\n"@ + "  /// Create a copy of "@ + n + "\n"@ + "  /// with the given fields replaced by the non-null parameter values.\n"@ + "  @JsonKey(includeFromJson: false, includeToJson: false)\n"@ + "  @override\n"@ + "  @pragma('vm:prefer-inline')\n"@ + "  _$$$"@ + n + "ImplImplCopyWith<_$$"@ + n + "ImplImpl> get copyWith =>\n"@ + "      __$$$"@ + n, o6 + "  );\n\n"@ + "  /// Create a copy of "@ + n + "\n"@ + "  /// with the given fields replaced by the non-null parameter values.\n"@ + "  @JsonKey(includeFromJson: false, includeToJson: false)\n"@ + "  @override\n"@ + "  @pragma('vm:prefer-inline')\n"@ + "  _$$$"@ + n + "ImplImplCopyWith<_$$"@ + n + "ImplImpl> get copyWith =>\n"@ + "      __$$$"@ + n + "ImplImplCopyWithImpl<_$$"@);
    lemma_keeps_add(o6 + "  );\n\n"@ + "  /// Create a copy of "@ + n + "\n"@ + "  /// with the given fields replaced by the non-null parameter values.\n"@ + "  @JsonKey(includeFromJson: false, includeToJson: false)\n"@ + "  @override\n"@ + "  @pragma('vm:prefer-inline')\n"@ + "  _$$$"@ + n + "ImplImplCopyWith<_$$"@ + n + "ImplImpl> get copyWith =>\n"@ + "      __$$$"@ + n + "ImplImplCopyWithImpl<_$$"@, n);
    lemma_keeps_trans(o, o6 + "  );\n\n"@ + "  /// Create a copy of "@ + n + "\n"@ + "  /// with the given fields replaced by the non-null parameter values.\n"@ + "  @JsonKey(includeFromJson: false, includeToJson: false)\n"@ + "  @override\n"@ + "  @pragma('vm:prefer-inline')\n"@ + "  _$$$"@ + n + "ImplImplCopyWith<_$$"@ + n + "ImplImpl> get copyWith =>\n"@ + "      __$$$"@ + n + "ImplImplCopyWithImpl<_$$"@, o6 + "  );\n\n"@ + "  /// Create a copy of "@ + n + "\n"@ + "  /// with the given fields replaced by the non-null parameter values.\n"@ + "  @JsonKey(includeFromJson: false, includeToJson: false)\n"@ + "  @override\n"@ + "  @pragma('vm:prefer-inline')\n"@ + "  _$$$"@ + n + "ImplImplCopyWith<_$$"@ + n + "ImplImpl> get copyWith =>\n"@ + "      __$$$"@ + n + "ImplImplCopyWithImpl<_$$"@ + n);
    lemma_keeps_add(o6 + "  );\n\n"@ + "  /// Create a copy of "@ + n + "\n"@ + "  /// with the given fields replaced by the non-null parameter values.\n"@ + "  @JsonKey(includeFromJson: false, includeToJson: false)\n"@ + "  @override\n"@ + "  @pragma('vm:prefer-inline')\n"@ + "  _$$$"@ + n + "ImplImplCopyWith<_$$"@ + n + "ImplImpl> get copyWith =>\n"@ + "      __$$$"@ + n + "ImplImplCopyWithImpl<_$$"@ + n, "ImplImpl>(this, _$identity);\n"@);
    lemma_keeps_trans(o, o6 + "  );\n\n"@ + "  /// Create a copy of "@ + n + "\n"@ + "  /// with the given fields replaced by the non-null parameter values.\n"@ + "  @JsonKey(includeFromJson: false, includeToJson: false)\n"@ + "  @override\n"@ + "  @pragma('vm:prefer-inline')\n"@ + "  _$$$"@ + n + "ImplImplCopyWith<_$$"@ + n + "ImplImpl> get copyWith =>\n"@ + "      __$$$"@ + n + "ImplImplCopyWithImpl<_$$"@ + n, o6 + "  );\n\n"@ + "  /// Create a copy of "@ + n + "\n"@ + "  /// with the given fields replaced by the non-null parameter values.\n"@ + "  @JsonKey(includeFromJson: false, includeToJson: false)\n"@ + "  @override\n"@ + "  @pragma('vm:prefer-inline')\n"@ + "  _$$$"@ + n + "ImplImplCopyWith<_$$"@ + n + "ImplImpl> get copyWith =>\n"@ + "      __$$$"@ + n + "ImplImplCopyWithImpl<_$$"@ + n + "ImplImpl>(this, _$identity);\n"@);
    lemma_keeps_add(o6 + "  );\n\n"@ + "  /// Create a copy of "@ + n + "\n"@ + "  /// with the given fields replaced by the non-null parameter values.\n"@ + "  @JsonKey(includeFromJson: false, includeToJson: false)\n"@ + "  @override\n"@ + "  @pragma('vm:prefer-inline')\n"@ + "  _$$$"@ + n + "ImplImplCopyWith<_$$"@ + n + "ImplImpl> get copyWith =>\n"@ + "      __$$$"@ + n + "ImplImplCopyWithImpl<_$$"@ + n + "ImplImpl>(this, _$identity);\n"@, "\n"@);
    lemma_keeps_trans(o, o6 + "  );\n\n"@ + "  /// Create a copy of "@ + n + "\n"@ + "  /// with the given fields replaced by the non-null parameter values.\n"@ + "  @JsonKey(includeFromJson: false, includeToJson: false)\n"@ + "  @override\n"@ + "  @pragma('vm:prefer-inline')\n"@ + "  _$$$"@ + n + "ImplImplCopyWith<_$$"@ + n + "ImplImpl> get copyWith =>\n"@ + "      __$$$"@ + n + "ImplImplCopyWithImpl<_$$"@ + n + "ImplImpl>(this, _$identity);\n"@, o6 + "  );\n\n"@ + "  /// Create a copy of "@ + n + "\n"@ + "  /// with the given fields replaced by the non-null parameter values.\n"@ + "  @JsonKey(includeFromJson: false, includeToJson: false)\n"@ + "  @override\n"@ + "  @pragma('vm:prefer-inline')\n"@ + "  _$$$"@ + n + "ImplImplCopyWith<_$$"@ + n + "ImplImpl> get copyWith =>\n"@ + "      __$$$"@ + n + "ImplImplCopyWithImpl<_$$"@ + n + "ImplImpl>(this, _$identity);\n"@ + "\n"@);
    lemma_keeps_add(o6 + "  );\n\n"@ + "  /// Create a copy of "@ + n + "\n"@ + "  /// with the given fields replaced by the non-null parameter values.\n"@ + "  @JsonKey(includeFromJson: false, includeToJson: false)\n"@ + "  @override\n"@ + "  @pragma('vm:prefer-inline')\n"@ + "  _$$$"@ + n + "ImplImplCopyWith<_$$"@ + n + "ImplImpl> get copyWith =>\n"@ + "      __$$$"@ + n + "ImplImplCopyWithImpl<_$$"@ + n + "ImplImpl>(this, _$identity);\n"@ + "\n"@, "  @override\n"@);
    lemma_keeps_trans(o, o6 + "  );\n\n"@ + "  /// Create a copy of "@ + n + "\n"@ + "  /// with the given fields replaced by the non-null parameter values.\n"@ + "  @JsonKey(includeFromJson: false, includeToJson: false)\n"@ + "  @override\n"@ + "  @pragma('vm:prefer-inline')\n"@ + "  _$$$"@ + n + "ImplImplCopyWith<_$$"@ + n + "ImplImpl> get copyWith =>\n"@ + "      __$$$"@ + n + "ImplImplCopyWithImpl<_$$"@ + n + "ImplImpl>(this, _$identity);\n"@ + "\n"@, o6 + "  );\n\n"@ + "  /// Create a copy of "@ + n + "\n"@ + "  /// with the given fields replaced by the non-null parameter values.\n"@ + "  @JsonKey(includeFromJson: false, includeToJson: false)\n"@ + "  @override\n"@ + "  @pragma('vm:prefer-inline')\n"@ + "  _$$$"@ + n + "ImplImplCopyWith<_$$"@ + n + "ImplImpl> get copyWith =>\n"@ + "      __$$$"@ + n + "ImplImplCopyWithImpl<_$$"@ + n + "ImplImpl>(this, _$identity);\n"@ + "\n"@ + "  @override\n"@);
    lemma_keeps_add(o6 + "  );\n\n"@ + "  /// Create a copy of "@ + n + "\n"@ + "  /// with the given fields replaced by the non-null parameter values.\n"@ + "  @JsonKey(includeFromJson: false, includeToJson: false)\n"@ + "  @override\n"@ + "  @pragma('vm:prefer-inline')\n"@ + "  _$$$"@ + n + "ImplImplCopyWith<_$$"@ + n + "ImplImpl> get copyWith =>\n"@ + "      __$$$"@ + n + "ImplImplCopyWithImpl<_$$"@ + n + "ImplImpl>(this, _$identity);\n"@ + "\n"@ + "  @override\n"@, "  Map<String, dynamic> toJson() {\n"@);
    lemma_keeps_trans(o, o6 + "  );\n\n"@ + "  /// Create a copy of "@ + n + "\n"@ + "  /// with the given fields replaced by the non-null parameter values.\n"@ + "  @JsonKey(includeFromJson: false, includeToJson: false)\n"@ + "  @override\n"@ + "  @pragma('vm:prefer-inline')\n"@ + "  _$$$"@ + n + "ImplImplCopyWith<_$$"@ + n + "ImplImpl> get copyWith =>\n"@ + "      __$$$"@ + n + "ImplImplCopyWithImpl<_$$"@ + n + "ImplImpl>(this, _$identity);\n"@ + "\n"@ + "  @override\n"@, o6 + "  );\n\n"@ + "  /// Create a copy of "@ + n + "\n"@ + "  /// with the given fields replaced by the non-null parameter values.\n"@ + "  @JsonKey(includeFromJson: false, includeToJson: false)\n"@ + "  @override\n"@ + "  @pragma('vm:prefer-inline')\n"@ + "  _$$$"@ + n + "ImplImplCopyWith<_$$"@ + n + "ImplImpl> get copyWith =>\n"@ + "      __$$$"@ + n + "ImplImplCopyWithImpl<_$$"@ + n + "ImplImpl>(this, _$identity);\n"@ + "\n"@ + "  @override\n"@ + "  Map<String, dynamic> toJson() {\n"@);
    lemma_keeps_add(o6 + "  );\n\n"@ + "  /// Create a copy of "@ + n + "\n"@ + "  /// with the given fields replaced by the non-null parameter values.\n"@ + "  @JsonKey(includeFromJson: false, includeToJson: false)\n"@ + "  @override\n"@ + "  @pragma('vm:prefer-inline')\n"@ + "  _$$$"@ + n + "ImplImplCopyWith<_$$"@ + n + "ImplImpl> get copyWith =>\n"@ + "      __$$$"@ + n + "ImplImplCopyWithImpl<_$$"@ + n + "ImplImpl>(this, _$identity);\n"@ + "\n"@ + "  @override\n"@ + "  Map<String, dynamic> toJson() {\n"@, "    return _$$"@);
    lemma_keeps_trans(o, o6 + "  );\n\n"@ + "  /// Create a copy of "@ + n + "\n"@ + "  /// with the given fields replaced by the non-null parameter values.\n"@ + "  @JsonKey(includeFromJson: false, includeToJson: false)\n"@ + "  @override\n"@ + "  @pragma('vm:prefer-inline')\n"@ + "  _$$$"@ + n + "ImplImplCopyWith<_$$"@ + n + "ImplImpl> get copyWith =>\n"@ + "      __$$$"@ + n + "ImplImplCopyWithImpl<_$$"@ + n + "ImplImpl>(this, _$identity);\n"@ + "\n"@ + "  @override\n"@ + "  Map<String, dynamic> toJson() {\n"@, o6 + "  );\n\n"@ + "  /// Create a copy of "@ + n + "\n"@ + "  /// with the given fields replaced by the non-null parameter values.\n"@ + "  @JsonKey(includeFromJson: false, includeToJson: false)\n"@ + "  @override\n"@ + "  @pragma('vm:prefer-inline')\n"@ + "  _$$$"@ + n + "ImplImplCopyWith<_$$"@ + n + "ImplImpl> get copyWith =>\n"@ + "      __$$$"@ + n + "ImplImplCopyWithImpl<_$$"@ + n + "ImplImpl>(this, _$identity);\n"@ + "\n"@ + "  @override\n"@ + "  Map<String, dynamic> toJson() {\n"@ + "    return _$$"@);
    lemma_keeps_add(o6 + "  );\n\n"@ + "  /// Create a copy of "@ + n + "\n"@ + "  /// with the given fields replaced by the non-null parameter values.\n"@ + "  @JsonKey(includeFromJson: false, includeToJson: false)\n"@ + "  @override\n"@ + "  @pragma('vm:prefer-inline')\n"@ + "  _$$$"@ + n + "ImplImplCopyWith<_$$"@ + n + "ImplImpl> get copyWith =>\n"@ + "      __$$$"@ + n + "ImplImplCopyWithImpl<_$$"@ + n + "ImplImpl>(this, _$identity);\n"@ + "\n"@ + "  @override\n"@ + "  Map<String, dynamic> toJson() {\n"@ + "    return _$$"@, n);
    lemma_keeps_trans(o, o6 + "  );\n\n"@ + "  /// Create a copy of "@ + n + "\n"@ + "  /// with the given fields replaced by the non-null parameter values.\n"@ + "  @JsonKey(includeFromJson: false, includeToJson: false)\n"@ + "  @override\n"@ + "  @pragma('vm:prefer-inline')\n"@ + "  _$$$"@ + n + "ImplImplCopyWith<_$$"@ + n + "ImplImpl> get copyWith =>\n"@ + "      __$$$"@ + n + "ImplImplCopyWithImpl<_$$"@ + n + "ImplImpl>(this, _$identity);\n"@ + "\n"@ + "  @override\n"@ + "  Map<String, dynamic> toJson() {\n"@ + "    return _$$"@, o6 + "  );\n\n"@ + "  /// Create a copy of "@ + n + "\n"@ + "  /// with the given fields replaced by the non-null parameter values.\n"@ + "  @JsonKey(includeFromJson: false, includeToJson: false)\n"@ + "  @override\n"@ + "  @pragma('vm:prefer-inline')\n"@ + "  _$$$"@ + n + "ImplImplCopyWith<_$$"@ + n + "ImplImpl> get copyWith =>\n"@ + "      __$$$"@ + n + "ImplImplCopyWithImpl<_$$"@ + n + "ImplImpl>(this, _$identity);\n"@ + "\n"@ + "  @override\n"@ + "  Map<String, dynamic> toJson() {\n"@ + "    return _$$"@ + n);
    lemma_keeps_add(o6 + "  );\n\n"@ + "  /// Create a copy of "@ + n + "\n"@ + "  /// with the given fields replaced by the non-null parameter values.\n"@ + "  @JsonKey(includeFromJson: false, includeToJson: false)\n"@ + "  @override\n"@ + "  @pragma('vm:prefer-inline')\n"@ + "  _$$$"@ + n + "ImplImplCopyWith<_$$"@ + n + "ImplImpl> get copyWith =>\n"@ + "      __$$$"@ + n + "ImplImplCopyWithImpl<_$$"@ + n + "ImplImpl>(this, _$identity);\n"@ + "\n"@ + "  @override\n"@ + "  Map<String, dynamic> toJson() {\n"@ + "    return _$$"@ + n, "ImplImplToJson(\n"@);
    lemma_keeps_trans(o, o6 + "  );\n\n"@ + "  /// Create a copy of "@ + n + "\n"@ + "  /// with the given fields replaced by the non-null parameter values.\n"@ + "  @JsonKey(includeFromJson: false, includeToJson: false)\n"@ + "  @override\n"@ + "  @pragma('vm:prefer-inline')\n"@ + "  _$$$"@ + n + "ImplImplCopyWith<_$$"@ + n + "ImplImpl> get copyWith =>\n"@ + "      __$$$"@ + n + "ImplImplCopyWithImpl<_$$"@ + n + "ImplImpl>(this, _$identity);\n"@ + "\n"@ + "  @override\n"@ + "  Map<String, dynamic> toJson() {\n"@ + "    return _$$"@ + n, o6 + "  );\n\n"@ + "  /// Create a copy of "@ + n + "\n"@ + "  /// with the given fields replaced by the non-null parameter values.\n"@ + "  @JsonKey(includeFromJson: false, includeToJson: false)\n"@ + "  @override\n"@ + "  @pragma('vm:prefer-inline')\n"@ + "  _$$$"@ + n + "ImplImplCopyWith<_$$"@ + n + "ImplImpl> get copyWith =>\n"@ + "      __$$$"@ + n + "ImplImplCopyWithImpl<_$$"@ + n + "ImplImpl>(this, _$identity);\n"@ + "\n"@ + "  @override\n"@ + "  Map<String, dynamic> toJson() {\n"@ + "    return _$$"@ + n + "ImplImplToJson(\n"@);
    lemma_keeps_add(o6 + "  );\n\n"@ + "  /// Create a copy of "@ + n + "\n"@ + "  /// with the given fields replaced by the non-null parameter values.\n"@ + "  @JsonKey(includeFromJson: false, includeToJson: false)\n"@ + "  @override\n"@ + "  @pragma('vm:prefer-inline')\n"@ + "  _$$$"@ + n + "ImplImplCopyWith<_$$"@ + n + "ImplImpl> get copyWith =>\n"@ + "      __$$$"@ + n + "ImplImplCopyWithImpl<_$$"@ + n + "ImplImpl>(this, _$identity);\n"@ + "\n"@ + "  @override\n"@ + "  Map<String, dynamic> toJson() {\n"@ + "    return _$$"@ + n + "ImplImplToJson(\n"@, "      this,\n"@);
    lemma_keeps_trans(o, o6 + "  );\n\n"@ + "  /// Create a copy of "@ + n + "\n"@ + "  /// with the given fields replaced by the non-null parameter values.\n"@ + "  @JsonKey(includeFromJson: false, includeToJson: false)\n"@ + "  @override\n"@ + "  @pragma('vm:prefer-inline')\n"@ + "  _$$$"@ + n + "ImplImplCopyWith<_$$"@ + n + "ImplImpl> get copyWith =>\n"@ + "      __$$$"@ + n + "ImplImplCopyWithImpl<_$$"@ + n + "ImplImpl>(this, _$identity);\n"@ + "\n"@ + "  @override\n"@ + "  Map<String, dynamic> toJson() {\n"@ + "    return _$$"@ + n + "ImplImplToJson(\n"@, o6 + "  );\n\n"@ + "  /// Create a copy of "@ + n + "\n"@ + "  /// with the given fields replaced by the non-null parameter values.\n"@ + "  @JsonKey(includeFromJson: false, includeToJson: false)\n"@ + "  @override\n"@ + "  @pragma('vm:prefer-inline')\n"@ + "  _$$$"@ + n + "ImplImplCopyWith<_$$"@ + n + "ImplImpl> get copyWith =>\n"@ + "      __$$$"@ + n + "ImplImplCopyWithImpl<_$$"@ + n + "ImplImpl>(this, _$identity);\n"@ + "\n"@ + "  @override\n"@ + "  Map<String, dynamic> toJson() {\n"@ + "    return _$$"@ + n + "ImplImplToJson(\n"@ + "      this,\n"@);
    lemma_keeps_add(o6 + "  );\n\n"@ + "  /// Create a copy of "@ + n + "\n"@ + "  /// with the given fields replaced by the non-null parameter values.\n"@ + "  @JsonKey(includeFromJson: false, includeToJson: false)\n"@ + "  @override\n"@ + "  @pragma('vm:prefer-inline')\n"@ + "  _$$$"@ + n + "ImplImplCopyWith<_$$"@ + n + "ImplImpl> get copyWith =>\n"@ + "      __$$$"@ + n + "ImplImplCopyWithImpl<_$$"@ + n + "ImplImpl>(this, _$identity);\n"@ + "\n"@ + "  @override\n"@ + "  Map<String, dynamic> toJson() {\n"@ + "    return _$$"@ + n + "ImplImplToJson(\n"@ + "      this,\n"@, "    );\n"@);
    lemma_keeps_trans(o, o6 + "  );\n\n"@ + "  /// Create a copy of "@ + n + "\n"@ + "  /// with the given fields replaced by the non-null parameter values.\n"@ + "  @JsonKey(includeFromJson: false, includeToJson: false)\n"@ + "  @override\n"@ + "  @pragma('vm:prefer-inline')\n"@ + "  _$$$"@ + n + "ImplImplCopyWith<_$$"@ + n + "ImplImpl> get copyWith =>\n"@ + "      __$$$"@ + n + "ImplImplCopyWithImpl<_$$"@ + n + "ImplImpl>(this, _$identity);\n"@ + "\n"@ + "  @override\n"@ + "  Map<String, dynamic> toJson() {\n"@ + "    return _$$"@ + n + "ImplImplToJson(\n"@ + "      this,\n"@, o6 + "  );\n\n"@ + "  /// Create a copy of "@ + n + "\n"@ + "  /// with the given fields replaced by the non-null parameter values.\n"@ + "  @JsonKey(includeFromJson: false, includeToJson: false)\n"@ + "  @override\n"@ + "  @pragma('vm:prefer-inline')\n"@ + "  _$$$"@ + n + "ImplImplCopyWith<_$$"@ + n + "ImplImpl> get copyWith =>\n"@ + "      __$$$"@ + n + "ImplImplCopyWithImpl<_$$"@ + n + "ImplImpl>(this, _$identity);\n"@ + "\n"@ + "  @override\n"@ + "  Map<String, dynamic> toJson() {\n"@ + "    return _$$"@ + n + "ImplImplToJson(\n"@ + "      this,\n"@ + "    );\n"@);
    lemma_keeps_add(o6 + "  );\n\n"@ + "  /// Create a copy of "@ + n + "\n"@ + "  /// with the given fields replaced by the non-null parameter values.\n"@ + "  @JsonKey(includeFromJson: false, includeToJson: false)\n"@ + "  @override\n"@ + "  @pragma('vm:prefer-inline')\n"@ + "  _$$$"@ + n + "ImplImplCopyWith<_$$"@ + n + "ImplImpl> get copyWith =>\n"@ + "      __$$$"@ + n + "ImplImplCopyWithImpl<_$$"@ + n + "ImplImpl>(this, _$identity);\n"@ + "\n"@ + "  @override\n"@ + "  Map<String, dynamic> toJson() {\n"@ + "    return _$$"@ + n + "ImplImplToJson(\n"@ + "      this,\n"@ + "    );\n"@, "  }\n"@);
    lemma_keeps_trans(o, o6 + "  );\n\n"@ + "  /// Create a copy of "@ + n + "\n"@ + "  /// with the given fields replaced by the non-null parameter values.\n"@ + "  @JsonKey(includeFromJson: false, includeToJson: false)\n"@ + "  @override\n"@ + "  @pragma('vm:prefer-inline')\n"@ + "  _$$$"@ + n + "ImplImplCopyWith<_$$"@ + n + "ImplImpl> get copyWith =>\n"@ + "      __$$$"@ + n + "ImplImplCopyWithImpl<_$$"@ + n + "ImplImpl>(this, _$identity);\n"@ + "\n"@ + "  @override\n"@ + "  Map<String, dynamic> toJson() {\n"@ + "    return _$$"@ + n + "ImplImplToJson(\n"@ + "      this,\n"@ + "    );\n"@, o6 + "  );\n\n"@ + "  /// Create a copy of "@ + n + "\n"@ + "  /// with the given fields replaced by the non-null parameter values.\n"@ + "  @JsonKey(includeFromJson: false, includeToJson: false)\n"@ + "  @override\n"@ + "  @pragma('vm:prefer-inline')\n"@ + "  _$$$"@ + n + "ImplImplCopyWith<_$$"@ + n + "ImplImpl> get copyWith =>\n"@ + "      __$$$"@ + n + "ImplImplCopyWithImpl<_$$"@ + n + "ImplImpl>(this, _$identity);\n"@ + "\n"@ + "  @override\n"@ + "  Map<String, dynamic> toJson() {\n"@ + "    return _$$"@ + n + "ImplImplToJson(\n"@ + "      this,\n"@ + "    );\n"@ + "  }\n"@);
    lemma_keeps_add(o6 + "  );\n\n"@ + "  /// Create a copy of "@ + n + "\n"@ + "  /// with the given fields replaced by the non-null parameter values.\n"@ + "  @JsonKey(includeFromJson: false, includeToJson: false)\n"@ + "  @override\n"@ + "  @pragma('vm:prefer-inline')\n"@ + "  _$$$"@ + n + "ImplImplCopyWith<_$$"@ + n + "ImplImpl> get copyWith =>\n"@ + "      __$$$"@ + n + "ImplImplCopyWithImpl<_$$"@ + n + "ImplImpl>(this, _$identity);\n"@ + "\n"@ + "  @override\n"@ + "  Map<String, dynamic> toJson() {\n"@ + "    return _$$"@ + n + "ImplImplToJson(\n"@ + "      this,\n"@ + "    );\n"@ + "  }\n"@, "}\n\n"@);
    lemma_keeps_trans(o, o6 + "  );\n\n"@ + "  /// Create a copy of "@ + n + "\n"@ + "  /// with the given fields replaced by the non-null parameter values.\n"@ + "  @JsonKey(includeFromJson: false, includeToJson: false)\n"@ + "  @override\n"@ + "  @pragma('vm:prefer-inline')\n"@ + "  _$$$"@ + n + "ImplImplCopyWith<_$$"@ + n + "ImplImpl> get copyWith =>\n"@ + "      __$$$"@ + n + "ImplImplCopyWithImpl<_$$"@ + n + "ImplImpl>(this, _$identity);\n"@ + "\n"@ + "  @override\n"@ + "  Map<String, dynamic> toJson() {\n"@ + "    return _$$"@ + n + "ImplImplToJson(\n"@ + "      this,\n"@ + "    );\n"@ + "  }\n"@, o6 + "  );\n\n"@ + "  /// Create a copy of "@ + n + "\n"@ + "  /// with the given fields replaced by the non-null parameter values.\n"@ + "  @JsonKey(includeFromJson: false, includeToJson: false)\n"@ + "  @override\n"@ + "  @pragma('vm:prefer-inline')\n"@ + "  _$$$"@ + n + "ImplImplCopyWith<_$$"@ + n + "ImplImpl> get copyWith =>\n"@ + "      __$$$"@ + n + "ImplImplCopyWithImpl<_$$"@ + n + "ImplImpl>(this, _$identity);\n"@ + "\n"@ + "  @override\n"@ + "  Map<String, dynamic> toJson() {\n"@ + "    return _$$"@ + n + "ImplImplToJson(\n"@ + "      this,\n"@ + "    );\n"@ + "  }\n"@ + "}\n\n"@);
    lemma_keeps_add(o6 + "  );\n\n"@ + "  /// Create a copy of "@ + n + "\n"@ + "  /// with the given fields replaced by the non-null parameter values.\n"@ + "  @JsonKey(includeFromJson: false, includeToJson: false)\n"@ + "  @override\n"@ + "  @pragma('vm:prefer-inline')\n"@ + "  _$$$"@ + n + "ImplImplCopyWith<_$$"@ + n + "ImplImpl> get copyWith =>\n"@ + "      __$$$"@ + n + "ImplImplCopyWithImpl<_$$"@ + n + "ImplImpl>(this, _$identity);\n"@ + "\n"@ + "  @override\n"@ + "  Map<String, dynamic> toJson() {\n"@ + "    return _$$"@ + n + "ImplImplToJson(\n"@ + "      this,\n"@ + "    );\n"@ + "  }\n"@ + "}\n\n"@, "abstract class _$"@);
    lemma_keeps_trans(o, o6 + "  );\n\n"@ + "  /// Create a copy of "@ + n + "\n"@ + "  /// with the given fields replaced by the non-null parameter values.\n"@ + "  @JsonKey(includeFromJson: false, includeToJson: false)\n"@ + "  @override\n"@ + "  @pragma('vm:prefer-inline')\n"@ + "  _$$$"@ + n + "ImplImplCopyWith<_$$"@ + n + "ImplImpl> get copyWith =>\n"@ + "      __$$$"@ + n + "ImplImplCopyWithImpl<_$$"@ + n + "ImplImpl>(this, _$identity);\n"@ + "\n"@ + "  @override\n"@ + "  Map<String, dynamic> toJson() {\n"@ + "    return _$$"@ + n + "ImplImplToJson(\n"@ + "      this,\n"@ + "    );\n"@ + "  }\n"@ + "}\n\n"@, o6 + "  );\n\n"@ + "  /// Create a copy of "@ + n + "\n"@ + "  /// with the given fields replaced by the non-null parameter values.\n"@ + "  @JsonKey(includeFromJson: false, includeToJson: false)\n"@ + "  @override\n"@ + "  @pragma('vm:prefer-inline')\n"@ + "  _$$$"@ + n + "ImplImplCopyWith<_$$"@ + n + "ImplImpl> get copyWith =>\n"@ + "      __$$$"@ + n + "ImplImplCopyWithImpl<_$$"@ + n + "ImplImpl>(this, _$identity);\n"@ + "\n"@ + "  @override\n"@ + "  Map<String, dynamic> toJson() {\n"@ + "    return _$$"@ + n + "ImplImplToJson(\n"@ + "      this,\n"@ + "    );\n"@ + "  }\n"@ + "}\n\n"@ + "abstract class _$"@);
    lemma_keeps_add(o6 + "  );\n\n"@ + "  /// Create a copy of "@ + n + "\n"@ + "  /// with the given fields replaced by the non-null parameter values.\n"@ + "  @JsonKey(includeFromJson: false, includeToJson: false)\n"@ + "  @override\n"@ + "  @pragma('vm:prefer-inline')\n"@ + "  _$$$"@ + n + "ImplImplCopyWith<_$$"@ + n + "ImplImpl> get copyWith =>\n"@ + "      __$$$"@ + n + "ImplImplCopyWithImpl<_$$"@ + n + "ImplImpl>(this, _$identity);\n"@ + "\n"@ + "  @override\n"@ + "  Map<String, dynamic> toJson() {\n"@ + "    return _$$"@ + n + "ImplImplToJson(\n"@ + "      this,\n"@ + "    );\n"@ + "  }\n"@ + "}\n\n"@ + "abstract class _$"@, n);
    lemma_keeps_trans(o, o6 + "  );\n\n"@ + "  /// Create a copy of "@ + n + "\n"@ + "  /// with the given fields replaced by the non-null parameter values.\n"@ + "  @JsonKey(includeFromJson: false, includeToJson: false)\n"@ + "  @override\n"@ + "  @pragma('vm:prefer-inline')\n"@ + "  _$$$"@ + n + "ImplImplCopyWith<_$$"@ + n + "ImplImpl> get copyWith =>\n"@ + "      __$$$"@ + n + "ImplImplCopyWithImpl<_$$"@ + n + "ImplImpl>(this, _$identity);\n"@ + "\n"@ + "  @override\n"@ + "  Map<String, dynamic> toJson() {\n"@ + "    return _$$"@ + n + "ImplImplToJson(\n"@ + "      this,\n"@ + "    );\n"@ + "  }\n"@ + "}\n\n"@ + "abstract class _$"@, o6 + "  );\n\n"@ + "  /// Create a copy of "@ + n + "\n"@ + "  /// with the given fields replaced by the non-null parameter values.\n"@ + "  @JsonKey(includeFromJson: false, includeToJson: false)\n"@ + "  @override\n"@ + "  @pragma('vm:prefer-inline')\n"@ + "  _$$$"@ + n + "ImplImplCopyWith<_$$"@ + n + "ImplImpl> get copyWith =>\n"@ + "      __$$$"@ + n + "ImplImplCopyWithImpl<_$$"@ + n + "ImplImpl>(this, _$identity);\n"@ + "\n"@ + "  @override\n"@ + "  Map<String, dynamic> toJson() {\n"@ + "    return _$$"@ + n + "ImplImplToJson(\n"@ + "      this,\n"@ + "    );\n"@ + "  }\n"@ + "}\n\n"@ + "abstract class _$"@ + n);
    lemma_keeps_add(o6 + "  );\n\n"@ + "  /// Create a copy of "@ + n + "\n"@ + "  /// with the given fields replaced by the non-null parameter values.\n"@ + "  @JsonKey(includeFromJson: false, includeToJson: false)\n"@ + "  @override\n"@ + "  @pragma('vm:prefer-inline')\n"@ + "  _$$$"@ + n + "ImplImplCopyWith<_$$"@ + n + "ImplImpl> get copyWith =>\n"@ + "      __$$$"@ + n + "ImplImplCopyWithImpl<_$$"@ + n + "ImplImpl>(this, _$identity);\n"@ + "\n"@ + "  @override\n"@ + "  Map<String, dynamic> toJson() {\n"@ + "    return _$$"@ + n + "ImplImplToJson(\n"@ + "      this,\n"@ + "    );\n"@ + "  }\n"@ + "}\n\n"@ + "abstract class _$"@ + n, "Impl implements "@);
    lemma_keeps_trans(o, o6 + "  );\n\n"@ + "  /// Create a copy of "@ + n + "\n"@ + "  /// with the given fields replaced by the non-null parameter values.\n"@ + "  @JsonKey(includeFromJson: false, includeToJson: false)\n"@ + "  @override\n"@ + "  @pragma('vm:prefer-inline')\n"@ + "  _$$$"@ + n + "ImplImplCopyWith<_$$"@ + n + "ImplImpl> get copyWith =>\n"@ + "      __$$$"@ + n + "ImplImplCopyWithImpl<_$$"@ + n + "ImplImpl>(this, _$identity);\n"@ + "\n"@ + "  @override\n"@ + "  Map<String, dynamic> toJson() {\n"@ + "    return _$$"@ + n + "ImplImplToJson(\n"@ + "      this,\n"@ + "    );\n"@ + "  }\n"@ + "}\n\n"@ + "abstract class _$"@ + n, o6 + "  );\n\n"@ + "  /// Create a copy of "@ + n + "\n"@ + "  /// with the given fields replaced by the non-null parameter values.\n"@ + "  @JsonKey(includeFromJson: false, includeToJson: false)\n"@ + "  @override\n"@ + "  @pragma('vm:prefer-inline')\n"@ + "  _$$$"@ + n + "ImplImplCopyWith<_$$"@ + n + "ImplImpl> get copyWith =>\n"@ + "      __$$$"@ + n + "ImplImplCopyWithImpl<_$$"@ + n + "ImplImpl>(this, _$identity);\n"@ + "\n"@ + "  @override\n"@ + "  Map<String, dynamic> toJson() {\n"@ + "    return _$$"@ + n + "ImplImplToJson(\n"@ + "      this,\n"@ + "    );\n"@ + "  }\n"@ + "}\n\n"@ + "abstract class _$"@ + n + "Impl implements "@);
    lemma_keeps_add(o6 + "  );\n\n"@ + "  /// Create a copy of "@ + n + "\n"@ + "  /// with the given fields replaced by the non-null parameter values.\n"@ + "  @JsonKey(includeFromJson: false, includeToJson: false)\n"@ + "  @override\n"@ + "  @pragma('vm:prefer-inline')\n"@ + "  _$$$"@ + n + "ImplImplCopyWith<_$$"@ + n + "ImplImpl> get copyWith =>\n"@ + "      __$$$"@ + n + "ImplImplCopyWithImpl<_$$"@ + n + "ImplImpl>(this, _$identity);\n"@ + "\n"@ + "  @override\n"@ + "  Map<String, dynamic> toJson() {\n"@ + "    return _$$"@ + n + "ImplImplToJson(\n"@ + "      this,\n"@ + "    );\n"@ + "  }\n"@ + "}\n\n"@ + "abstract class _$"@ + n + "Impl implements "@, n);
    lemma_keeps_trans(o, o6 + "  );\n\n"@ + "  /// Create a copy of "@ + n + "\n"@ + "  /// with the given fields replaced by the non-null parameter values.\n"@ + "  @JsonKey(includeFromJson: false, includeToJson: false)\n"@ + "  @override\n"@ + "  @pragma('vm:prefer-inline')\n"@ + "  _$$$"@ + n + "ImplImplCopyWith<_$$"@ + n + "ImplImpl> get copyWith =>\n"@ + "      __$$$"@ + n + "ImplImplCopyWithImpl<_$$"@ + n + "ImplImpl>(this, _$identity);\n"@ + "\n"@ + "  @override\n"@ + "  Map<String, dynamic> toJson() {\n"@ + "    return _$$"@ + n + "ImplImplToJson(\n"@ + "      this,\n"@ + "    );\n"@ + "  }\n"@ + "}\n\n"@ + "abstract class _$"@ + n + "Impl implements "@, o6 + "  );\n\n"@ + "  /// Create a copy of "@ + n + "\n"@ + "  /// with the given fields replaced by the non-null parameter values.\n"@ + "  @JsonKey(includeFromJson: false, includeToJson: false)\n"@ + "  @override\n"@ + "  @pragma('vm:prefer-inline')\n"@ + "  _$$$"@ + n + "ImplImplCopyWith<_$$"@ + n + "ImplImpl> get copyWith =>\n"@ + "      __$$$"@ + n + "ImplImplCopyWithImpl<_$$"@ + n + "ImplImpl>(this, _$identity);\n"@ + "\n"@ + "  @override\n"@ + "  Map<String, dynamic> toJson() {\n"@ + "    return _$$"@ + n + "ImplImplToJson(\n"@ + "      this,\n"@ + "    );\n"@ + "  }\n"@ + "}\n\n"@ + "abstract class _$"@ + n + "Impl implements "@ + n);
    lemma_keeps_add(o6 + "  );\n\n"@ + "  /// Create a copy of "@ + n + "\n"@ + "  /// with the given fields replaced by the non-null parameter values.\n"@ + "  @JsonKey(includeFromJson: false, includeToJson: false)\n"@ + "  @override\n"@ + "  @pragma('vm:prefer-inline')\n"@ + "  _$$$"@ + n + "ImplImplCopyWith<_$$"@ + n + "ImplImpl> get copyWith =>\n"@ + "      __$$$"@ + n + "ImplImplCopyWithImpl<_$$"@ + n + "ImplImpl>(this, _$identity);\n"@ + "\n"@ + "  @override\n"@ + "  Map<String, dynamic> toJson() {\n"@ + "    return _$$"@ + n + "ImplImplToJson(\n"@ + "      this,\n"@ + "    );\n"@ + "  }\n"@ + "}\n\n"@ + "abstract class _$"@ + n + "Impl implements "@ + n, " {\n"@);
    lemma_keeps_trans(o, o6 + "  );\n\n"@ + "  /// Create a copy of "@ + n + "\n"@ + "  /// with the given fields replaced by the non-null parameter values.\n"@ + "  @JsonKey(includeFromJson: false, includeToJson: false)\n"@ + "  @override\n"@ + "  @pragma('vm:prefer-inline')\n"@ + "  _$$$"@ + n + "ImplImplCopyWith<_$$"@ + n + "ImplImpl> get copyWith =>\n"@ + "      __$$$"@ + n + "ImplImplCopyWithImpl<_$$"@ + n + "ImplImpl>(this, _$identity);\n"@ + "\n"@ + "  @override\n"@ + "  Map<String, dynamic> toJson() {\n"@ + "    return _$$"@ + n + "ImplImplToJson(\n"@ + "      this,\n"@ + "    );\n"@ + "  }\n"@ + "}\n\n"@ + "abstract class _$"@ + n + "Impl implements "@ + n, o6 + "  );\n\n"@ + "  /// Create a copy of "@ + n + "\n"@ + "  /// with the given fields replaced by the non-null parameter values.\n"@ + "  @JsonKey(includeFromJson: false, includeToJson: false)\n"@ + "  @override\n"@ + "  @pragma('vm:prefer-inline')\n"@ + "  _$$$"@ + n + "ImplImplCopyWith<_$$"@ + n + "ImplImpl> get copyWith =>\n"@ + "      __$$$"@ + n + "ImplImplCopyWithImpl<_$$"@ + n + "ImplImpl>(this, _$identity);\n"@ + "\n"@ + "  @override\n"@ + "  Map<String, dynamic> toJson() {\n"@ + "    return _$$"@ + n + "ImplImplToJson(\n"@ + "      this,\n"@ + "    );\n"@ + "  }\n"@ + "}\n\n"@ + "abstract class _$"@ + n + "Impl implements "@ + n + " {\n"@);
    lemma_keeps_add(o6 + "  );\n\n"@ + "  /// Create a copy of "@ + n + "\n"@ + "  /// with the given fields replaced by the non-null parameter values.\n"@ + "  @JsonKey(includeFromJson: false, includeToJson: false)\n"@ + "  @override\n"@ + "  @pragma('vm:prefer-inline')\n"@ + "  _$$$"@ + n + "ImplImplCopyWith<_$$"@ + n + "ImplImpl> get copyWith =>\n"@ + "      __$$$"@ + n + "ImplImplCopyWithImpl<_$$"@ + n + "ImplImpl>(this, _$identity);\n"@ + "\n"@ + "  @override\n"@ + "  Map<String, dynamic> toJson() {\n"@ + "    return _$$"@ + n + "ImplImplToJson(\n"@ + "      this,\n"@ + "    );\n"@ + "  }\n"@ + "}\n\n"@ + "abstract class _$"@ + n + "Impl implements "@ + n + " {\n"@, "  const factory _$"@);
    lemma_keeps_trans(o, o6 + "  );\n\n"@ + "  /// Create a copy of "@ + n + "\n"@ + "  /// with the given fields replaced by the non-null parameter values.\n"@ + "  @JsonKey(includeFromJson: false, includeToJson: false)\n"@ + "  @override\n"@ + "  @pragma('vm:prefer-inline')\n"@ + "  _$$$"@ + n + "ImplImplCopyWith<_$$"@ + n + "ImplImpl> get copyWith =>\n"@ + "      __$$$"@ + n + "ImplImplCopyWithImpl<_$$"@ + n + "ImplImpl>(this, _$identity);\n"@ + "\n"@ + "  @override\n"@ + "  Map<String, dynamic> toJson() {\n"@ + "    return _$$"@ + n + "ImplImplToJson(\n"@ + "      this,\n"@ + "    );\n"@ + "  }\n"@ + "}\n\n"@ + "abstract class _$"@ + n + "Impl implements "@ + n + " {\n"@, o6 + "  );\n\n"@ + "  /// Create a copy of "@ + n + "\n"@ + "  /// with the given fields replaced by the non-null parameter values.\n"@ + "  @JsonKey(includeFromJson: false, includeToJson: false)\n"@ + "  @override\n"@ + "  @pragma('vm:prefer-inline')\n"@ + "  _$$$"@ + n + "ImplImplCopyWith<_$$"@ + n + "ImplImpl> get copyWith =>\n"@ + "      __$$$"@ + n + "ImplImplCopyWithImpl<_$$"@ + n + "ImplImpl>(this, _$identity);\n"@ + "\n"@ + "  @override\n"@ + "  Map<String, dynamic> toJson() {\n"@ + "    return _$$"@ + n + "ImplImplToJson(\n"@ + "      this,\n"@ + "    );\n"@ + "  }\n"@ + "}\n\n"@ + "abstract class _$"@ + n + "Impl implements "@ + n + " {\n"@ + "  const factory _$"@);
    lemma_keeps_add(o6 + "  );\n\n"@ + "  /// Create a copy of "@ + n + "\n"@ + "  /// with the given fields replaced by the non-null parameter values.\n"@ + "  @JsonKey(includeFromJson: false, includeToJson: false)\n"@ + "  @override\n"@ + "  @pragma('vm:prefer-inline')\n"@ + "  _$$$"@ + n + "ImplImplCopyWith<_$$"@ + n + "ImplImpl> get copyWith =>\n"@ + "      __$$$"@ + n + "ImplImplCopyWithImpl<_$$"@ + n + "ImplImpl>(this, _$identity);\n"@ + "\n"@ + "  @override\n"@ + "  Map<String, dynamic> toJson() {\n"@ + "    return _$$"@ + n + "ImplImplToJson(\n"@ + "      this,\n"@ + "    );\n"@ + "  }\n"@ + "}\n\n"@ + "abstract class _$"@ + n + "Impl implements "@ + n + " {\n"@ + "  const factory _$"@, n);
    lemma_keeps_trans(o, o6 + "  );\n\n"@ + "  /// Create a copy of "@ + n + "\n"@ + "  /// with the given fields replaced by the non-null parameter values.\n"@ + "  @JsonKey(includeFromJson: false, includeToJson: false)\n"@ + "  @override\n"@ + "  @pragma('vm:prefer-inline')\n"@ + "  _$$$"@ + n + "ImplImplCopyWith<_$$"@ + n + "ImplImpl> get copyWith =>\n"@ + "      __$$$"@ + n + "ImplImplCopyWithImpl<_$$"@ + n + "ImplImpl>(this, _$identity);\n"@ + "\n"@ + "  @override\n"@ + "  Map<String, dynamic> toJson() {\n"@ + "    return _$$"@ + n + "ImplImplToJson(\n"@ + "      this,\n"@ + "    );\n"@ + "  }\n"@ + "}\n\n"@ + "abstract class _$"@ + n + "Impl implements "@ + n + " {\n"@ + "  const factory _$"@, o6 + "  );\n\n"@ + "  /// Create a copy of "@ + n + "\n"@ + "  /// with the given fields replaced by the non-null parameter values.\n"@ + "  @JsonKey(includeFromJson: false, includeToJson: false)\n"@ + "  @override\n"@ + "  @pragma('vm:prefer-inline')\n"@ + "  _$$$"@ + n + "ImplImplCopyWith<_$$"@ + n + "ImplImpl> get copyWith =>\n"@ + "      __$$$"@ + n + "ImplImplCopyWithImpl<_$$"@ + n + "ImplImpl>(this, _$identity);\n"@ + "\n"@ + "  @override\n"@ + "  Map<String, dynamic> toJson() {\n"@ + "    return _$$"@ + n + "ImplImplToJson(\n"@ + "      this,\n"@ + "    );\n"@ + "  }\n"@ + "}\n\n"@ + "abstract class _$"@ + n + "Impl implements "@ + n + " {\n"@ + "  const factory _$"@ + n);
    lemma_keeps_add(o6 + "  );\n\n"@ + "  /// Create a copy of "@ + n + "\n"@ + "  /// with the given fields replaced by the non-null parameter values.\n"@ + "  @JsonKey(includeFromJson: false, includeToJson: false)\n"@ + "  @override\n"@ + "  @pragma('vm:prefer-inline')\n"@ + "  _$$$"@ + n + "ImplImplCopyWith<_$$"@ + n + "ImplImpl> get copyWith =>\n"@ + "      __$$$"@ + n + "ImplImplCopyWithImpl<_$$"@ + n + "ImplImpl>(this, _$identity);\n"@ + "\n"@ + "  @override\n"@ + "  Map<String, dynamic> toJson() {\n"@ + "    return _$$"@ + n + "ImplImplToJson(\n"@ + "      this,\n"@ + "    );\n"@ + "  }\n"@ + "}\n\n"@ + "abstract class _$"@ + n + "Impl implements "@ + n + " {\n"@ + "  const factory _$"@ + n, "Impl(\n"@);
    lemma_keeps_trans(o, o6 + "  );\n\n"@ + "  /// Create a copy of "@ + n + "\n"@ + "  /// with the given fields replaced by the non-null parameter values.\n"@ + "  @JsonKey(includeFromJson: false, includeToJson: false)\n"@ + "  @override\n"@ + "  @pragma('vm:prefer-inline')\n"@ + "  _$$$"@ + n + "ImplImplCopyWith<_$$"@ + n + "ImplImpl> get copyWith =>\n"@ + "      __$$$"@ + n + "ImplImplCopyWithImpl<_$$"@ + n + "ImplImpl>(this, _$identity);\n"@ + "\n"@ + "  @override\n"@ + "  Map<String, dynamic> toJson() {\n"@ + "    return _$$"@ + n + "ImplImplToJson(\n"@ + "      this,\n"@ + "    );\n"@ + "  }\n"@ + "}\n\n"@ + "abstract class _$"@ + n + "Impl implements "@ + n + " {\n"@ + "  const factory _$"@ + n, o6 + "  );\n\n"@ + "  /// Create a copy of "@ + n + "\n"@ + "  /// with the given fields replaced by the non-null parameter values.\n"@ + "  @JsonKey(includeFromJson: false, includeToJson: false)\n"@ + "  @override\n"@ + "  @pragma('vm:prefer-inline')\n"@ + "  _$$$"@ + n + "ImplImplCopyWith<_$$"@ + n + "ImplImpl> get copyWith =>\n"@ + "      __$$$"@ + n + "ImplImplCopyWithImpl<_$$"@ + n + "ImplImpl>(this, _$identity);\n"@ + "\n"@ + "  @override\n"@ + "  Map<String, dynamic> toJson() {\n"@ + "    return _$$"@ + n + "ImplImplToJson(\n"@ + "      this,\n"@ + "    );\n"@ + "  }\n"@ + "}\n\n"@ + "abstract class _$"@ + n + "Impl implements "@ + n + " {\n"@ + "  const factory _$"@ + n + "Impl(\n"@);
    lemma_keeps_add(o6 + "  );\n\n"@ + "  /// Create a copy of "@ + n + "\n"@ + "  /// with the given fields replaced by the non-null parameter values.\n"@ + "  @JsonKey(includeFromJson: false, includeToJson: false)\n"@ + "  @override\n"@ + "  @pragma('vm:prefer-inline')\n"@ + "  _$$$"@ + n + "ImplImplCopyWith<_$$"@ + n + "ImplImpl> get copyWith =>\n"@ + "      __$$$"@ + n + "ImplImplCopyWithImpl<_$$"@ + n + "ImplImpl>(this, _$identity);\n"@ + "\n"@ + "  @override\n"@ + "  Map<String, dynamic> toJson() {\n"@ + "    return _$$"@ + n + "ImplImplToJson(\n"@ + "      this,\n"@ + "    );\n"@ + "  }\n"@ + "}\n\n"@ + "abstract class _$"@ + n + "Impl implements "@ + n + " {\n"@ + "  const factory _$"@ + n + "Impl(\n"@, "    {\n"@);
    lemma_keeps_trans(o, o6 + "  );\n\n"@ + "  /// Create a copy of "@ + n + "\n"@ + "  /// with the given fields replaced by the non-null parameter values.\n"@ + "  @JsonKey(includeFromJson: false, includeToJson: false)\n"@ + "  @override\n"@ + "  @pragma('vm:prefer-inline')\n"@ + "  _$$$"@ + n + "ImplImplCopyWith<_$$"@ + n + "ImplImpl> get copyWith =>\n"@ + "      __$$$"@ + n + "ImplImplCopyWithImpl<_$$"@ + n + "ImplImpl>(this, _$identity);\n"@ + "\n"@ + "  @override\n"@ + "  Map<String, dynamic> toJson() {\n"@ + "    return _$$"@ + n + "ImplImplToJson(\n"@ + "      this,\n"@ + "    );\n"@ + "  }\n"@ + "}\n\n"@ + "abstract class _$"@ + n + "Impl implements "@ + n + " {\n"@ + "  const factory _$"@ + n + "Impl(\n"@, o6 + "  );\n\n"@ + "  /// Create a copy of "@ + n + "\n"@ + "  /// with the given fields replaced by the non-null parameter values.\n"@ + "  @JsonKey(includeFromJson: false, includeToJson: false)\n"@ + "  @override\n"@ + "  @pragma('vm:prefer-inline')\n"@ + "  _$$$"@ + n + "ImplImplCopyWith<_$$"@ + n + "ImplImpl> get copyWith =>\n"@ + "      __$$$"@ + n + "ImplImplCopyWithImpl<_$$"@ + n + "ImplImpl>(this, _$identity);\n"@ + "\n"@ + "  @override\n"@ + "  Map<String, dynamic> toJson() {\n"@ + "    return _$$"@ + n + "ImplImplToJson(\n"@ + "      this,\n"@ + "    );\n"@ + "  }\n"@ + "}\n\n"@ + "abstract class _$"@ + n + "Impl implements "@ + n + " {\n"@ + "  const factory _$"@ + n + "Impl(\n"@ + "    {\n"@);
    lemma_fold_put_keeps(o6 + "  );\n\n"@ + "  /// Create a copy of "@ + n + "\n"@ + "  /// with the given fields replaced by the non-null parameter values.\n"@ + "  @JsonKey(includeFromJson: false, includeToJson: false)\n"@ + "  @override\n"@ + "  @pragma('vm:prefer-inline')\n"@ + "  _$$$"@ + n + "ImplImplCopyWith<_$$"@ + n + "ImplImpl> get copyWith =>\n"@ + "      __$$$"@ + n + "ImplImplCopyWithImpl<_$$"@ + n + "ImplImpl>(this, _$identity);\n"@ + "\n"@ + "  @override\n"@ + "  Map<String, dynamic> toJson() {\n"@ + "    return _$$"@ + n + "ImplImplToJson(\n"@ + "      this,\n"@ + "    );\n"@ + "  }\n"@ + "}\n\n"@ + "abstract class _$"@ + n + "Impl implements "@ + n + " {\n"@ + "  const factory _$"@ + n + "Impl(\n"@ + "    {\n"@, fs, field_piece_fn(FieldPiece::FactoryParam));
    lemma_keeps_trans(o, o6 + "  );\n\n"@ + "  /// Create a copy of "@ + n + "\n"@ + "  /// with the given fields replaced by the non-null parameter values.\n"@ + "  @JsonKey(includeFromJson: false, includeToJson: false)\n"@ + "  @override\n"@ + "  @pragma('vm:prefer-inline')\n"@ + "  _$$$"@ + n + "ImplImplCopyWith<_$$"@ + n + "ImplImpl> get copyWith =>\n"@ + "      __$$$"@ + n + "ImplImplCopyWithImpl<_$$"@ + n + "ImplImpl>(this, _$identity);\n"@ + "\n"@ + "  @override\n"@ + "  Map<String, dynamic> toJson() {\n"@ + "    return _$$"@ + n + "ImplImplToJson(\n"@ + "      this,\n"@ + "    );\n"@ + "  }\n"@ + "}\n\n"@ + "abstract class _$"@ + n + "Impl implements "@ + n + " {\n"@ + "  const factory _$"@ + n + "Impl(\n"@ + "    {\n"@, fold_put(o6 + "  );\n\n"@ + "  /// Create a copy of "@ + n + "\n"@ + "  /// with the given fields replaced by the non-null parameter values.\n"@ + "  @JsonKey(includeFromJson: false, includeToJson: false)\n"@ + "  @override\n"@ + "  @pragma('vm:prefer-inline')\n"@ + "  _$$$"@ + n + "ImplImplCopyWith<_$$"@ + n + "ImplImpl> get copyWith =>\n"@ + "      __$$$"@ + n + "ImplImplCopyWithImpl<_$$"@ + n + "ImplImpl>(this, _$identity);\n"@ + "\n"@ + "  @override\n"@ + "  Map<String, dynamic> toJson() {\n"@ + "    return _$$"@ + n + "ImplImplToJson(\n"@ + "      this,\n"@ + "    );\n"@ + "  }\n"@ + "}\n\n"@ + "abstract class _$"@ + n + "Impl implements "@ + n + " {\n"@ + "  const factory _$"@ + n + "Impl(\n"@ + "    {\n"@, fs, field_piece_fn(FieldPiece::FactoryParam)));
    let o7 = fold_put(o6 + "  );\n\n"@ + "  /// Create a copy of "@ + n + "\n"@ + "  /// with the given fields replaced by the non-null parameter values.\n"@ + "  @JsonKey(includeFromJson: false, includeToJson: false)\n"@ + "  @override\n"@ + "  @pragma('vm:prefer-inline')\n"@ + "  _$$$"@ + n + "ImplImplCopyWith<_$$"@ + n + "ImplImpl> get copyWith =>\n"@ + "      __$$$"@ + n + "ImplImplCopyWithImpl<_$$"@ + n + "ImplImpl>(this, _$identity);\n"@ + "\n"@ + "  @override\n"@ + "  Map<String, dynamic> toJson() {\n"@ + "    return _$$"@ + n + "ImplImplToJson(\n"@ + "      this,\n"@ + "    );\n"@ + "  }\n"@ + "}\n\n"@ + "abstract class _$"@ + n + "Impl implements "@ + n + " {\n"@ + "  const factory _$"@ + n + "Impl(\n"@ + "    {\n"@, fs, field_piece_fn(FieldPiece::FactoryParam));
    assert(keeps(o, o7));
    lemma_keeps_add(o7, "    }\n  ) = _$$"@);
    lemma_keeps_trans(o, o7, o7 + "    }\n  ) = _$$"@);
    lemma_keeps_add(o7 + "    }\n  ) = _$$"@, n);
    lemma_keeps_trans(o, o7 + "    }\n  ) = _$$"@, o7 + "    }\n  ) = _$$"@ + n);
    lemma_keeps_add(o7 + "    }\n  ) = _$$"@ + n, "ImplImpl;\n\n"@);
    lemma_keeps_trans(o, o7 + "    }\n  ) = _$$"@ + n, o7 + "    }\n  ) = _$$"@ + n + "ImplImpl;\n\n"@);
    lemma_keeps_add(o7 + "    }\n  ) = _$$"@ + n + "ImplImpl;\n\n"@, "  factory _$"@);
    lemma_keeps_trans(o, o7 + "    }\n  ) = _$$"@ + n + "ImplImpl;\n\n"@, o7 + "    }\n  ) = _$$"@ + n + "ImplImpl;\n\n"@ + "  factory _$"@);
    lemma_keeps_add(o7 + "    }\n  ) = _$$"@ + n + "ImplImpl;\n\n"@ + "  factory _$"@, n);
    lemma_keeps_trans(o, o7 + "    }\n  ) = _$$"@ + n + "ImplImpl;\n\n"@ + "  factory _$"@, o7 + "    }\n  ) = _$$"@ + n + "ImplImpl;\n\n"@ + "  factory _$"@ + n);
    lemma_keeps_add(o7 + "    }\n  ) = _$$"@ + n + "ImplImpl;\n\n"@ + "  factory _$"@ + n, "Impl.fromJson(Map<String, dynamic> json) =\n"@);
    lemma_keeps_trans(o, o7 + "    }\n  ) = _$$"@ + n + "ImplImpl;\n\n"@ + "  factory _$"@ + n, o7 + "    }\n  ) = _$$"@ + n + "ImplImpl;\n\n"@ + "  factory _$"@ + n + "Impl.fromJson(Map<String, dynamic> json) =\n"@);
    lemma_keeps_add(o7 + "    }\n  ) = _$$"@ + n + "ImplImpl;\n\n"@ + "  factory _$"@ + n + "Impl.fromJson(Map<String, dynamic> json) =\n"@, "      _$$"@);
    lemma_keeps_trans(o, o7 + "    }\n  ) = _$$"@ + n + "ImplImpl;\n\n"@ + "  factory _$"@ + n + "Impl.fromJson(Map<String, dynamic> json) =\n"@, o7 + "    }\n  ) = _$$"@ + n + "ImplImpl;\n\n"@ + "  factory _$"@ + n + "Impl.fromJson(Map<String, dynamic> json) =\n"@ + "      _$$"@);
    lemma_keeps_add(o7 + "    }\n  ) = _$$"@ + n + "ImplImpl;\n\n"@ + "  factory _$"@ + n + "Impl.fromJson(Map<String, dynamic> json) =\n"@ + "      _$$"@, n);
    lemma_keeps_trans(o, o7 + "    }\n  ) = _$$"@ + n + "ImplImpl;\n\n"@ + "  factory _$"@ + n + "Impl.fromJson(Map<String, dynamic> json) =\n"@ + "      _$$"@, o7 + "    }\n  ) = _$$"@ + n + "ImplImpl;\n\n"@ + "  factory _$"@ + n + "Impl.fromJson(Map<String, dynamic> json) =\n"@ + "      _$$"@ + n);
    lemma_keeps_add(o7 + "    }\n  ) = _$$"@ + n + "ImplImpl;\n\n"@ + "  factory _$"@ + n + "Impl.fromJson(Map<String, dynamic> json) =\n"@ + "      _$$"@ + n, "ImplImpl.fromJson;\n\n"@);
    lemma_keeps_trans(o, o7 + "    }\n  ) = _$$"@ + n + "ImplImpl;\n\n"@ + "  factory _$"@ + n + "Impl.fromJson(Map<String, dynamic> json) =\n"@ + "      _$$"@ + n, o7 + "    }\n  ) = _$$"@ + n + "ImplImpl;\n\n"@ + "  factory _$"@ + n + "Impl.fromJson(Map<String, dynamic> json) =\n"@ + "      _$$"@ + n + "ImplImpl.fromJson;\n\n"@);
    lemma_fold_put_keeps(o7 + "    }\n  ) = _$$"@ + n + "ImplImpl;\n\n"@ + "  factory _$"@ + n + "Impl.fromJson(Map<String, dynamic> json) =\n"@ + "      _$$"@ + n + "ImplImpl.fromJson;\n\n"@, fs, field_piece_fn(FieldPiece::OverrideGetter));
    lemma_keeps_trans(o, o7 + "    }\n  ) = _$$"@ + n + "ImplImpl;\n\n"@ + "  factory _$"@ + n + "Impl.fromJson(Map<String, dynamic> json) =\n"@ + "      _$$"@ + n + "ImplImpl.fromJson;\n\n"@, fold_put(o7 + "    }\n  ) = _$$"@ + n + "ImplImpl;\n\n"@ + "  factory _$"@ + n + "Impl.fromJson(Map<String, dynamic> json) =\n"@ + "      _$$"@ + n + "ImplImpl.fromJson;\n\n"@, fs, field_piece_fn(FieldPiece::OverrideGetter)));
    let o8 = fold_put(o7 + "    }\n  ) = _$$"@ + n + "ImplImpl;\n\n"@ + "  factory _$"@ + n + "Impl.fromJson(Map<String, dynamic> json) =\n"@ + "      _$$"@ + n + "ImplImpl.fromJson;\n\n"@, fs, field_piece_fn(FieldPiece::OverrideGetter));
    assert(keeps(o, o8));
    lemma_keeps_add(o8, "\n"@);
    lemma_keeps_trans(o, o8, o8 + "\n"@);
    lemma_keeps_add(o8 + "\n"@, "  /// Create a copy of "@);
    lemma_keeps_trans(o, o8 + "\n"@, o8 + "\n"@ + "  /// Create a copy of "@);
    lemma_keeps_add(o8 + "\n"@ + "  /// Create a copy of "@, n);
    lemma_keeps_trans(o, o8 + "\n"@ + "  /// Create a copy of "@, o8 + "\n"@ + "  /// Create a copy of "@ + n);
    lemma_keeps_add(o8 + "\n"@ + "  /// Create a copy of "@ + n, "\n"@);
    lemma_keeps_trans(o, o8 + "\n"@ + "  /// Create a copy of "@ + n, o8 + "\n"@ + "  /// Create a copy of "@ + n + "\n"@);
    lemma_keeps_add(o8 + "\n"@ + "  /// Create a copy of "@ + n + "\n"@, "  /// with the given fields replaced by the non-null parameter values.\n"@);
    lemma_keeps_trans(o, o8 + "\n"@ + "  /// Create a copy of "@ + n + "\n"@, o8 + "\n"@ + "  /// Create a copy of "@ + n + "\n"@ + "  /// with the given fields replaced by the non-null parameter values.\n"@);
    lemma_keeps_add(o8 + "\n"@ + "  /// Create a copy of "@ + n + "\n"@ + "  /// with the given fields replaced by the non-null parameter values.\n"@, "  @override\n"@);
    lemma_keeps_trans(o, o8 + "\n"@ + "  /// Create a copy of "@ + n + "\n"@ + "  /// with the given fields replaced by the non-null parameter values.\n"@, o8 + "\n"@ + "  /// Create a copy of "@ + n + "\n"@ + "  /// with the given fields replaced by the non-null parameter values.\n"@ + "  @override\n"@);
    lemma_keeps_add(o8 + "\n"@ + "  /// Create a copy of "@ + n + "\n"@ + "  /// with the given fields replaced by the non-null parameter values.\n"@ + "  @override\n"@, "  @JsonKey(includeFromJson: false, includeToJson: false)\n"@);
    lemma_keeps_trans(o, o8 + "\n"@ + "  /// Create a copy of "@ + n + "\n"@ + "  /// with the given fields replaced by the non-null parameter values.\n"@ + "  @override\n"@, o8 + "\n"@ + "  /// Create a copy of "@ + n + "\n"@ + "  /// with the given fields replaced by the non-null parameter values.\n"@ + "  @override\n"@ + "  @JsonKey(includeFromJson: false, includeToJson: false)\n"@);
    lemma_keeps_add(o8 + "\n"@ + "  /// Create a copy of "@ + n + "\n"@ + "  /// with the given fields replaced by the non-null parameter values.\n"@ + "  @override\n"@ + "  @JsonKey(includeFromJson: false, includeToJson: false)\n"@, "  _$$$"@);
    lemma_keeps_trans(o, o8 + "\n"@ + "  /// Create a copy of "@ + n + "\n"@ + "  /// with the given fields replaced by the non-null parameter values.\n"@ + "  @override\n"@ + "  @JsonKey(includeFromJson: false, includeToJson: false)\n"@, o8 + "\n"@ + "  /// Create a copy of "@ + n + "\n"@ + "  /// with the given fields replaced by the non-null parameter values.\n"@ + "  @override\n"@ + "  @JsonKey(includeFromJson: false, includeToJson: false)\n"@ + "  _$$$"@);
    lemma_keeps_add(o8 + "\n"@ + "  /// Create a copy of "@ + n + "\n"@ + "  /// with the given fields replaced by the non-null parameter values.\n"@ + "  @override\n"@ + "  @JsonKey(includeFromJson: false, includeToJson: false)\n"@ + "  _$$$"@, n);
    lemma_keeps_trans(o, o8 + "\n"@ + "  /// Create a copy of "@ + n + "\n"@ + "  /// with the given fields replaced by the non-null parameter values.\n"@ + "  @override\n"@ + "  @JsonKey(includeFromJson: false, includeToJson: false)\n"@ + "  _$$$"@, o8 + "\n"@ + "  /// Create a copy of "@ + n + "\n"@ + "  /// with the given fields replaced by the non-null parameter values.\n"@ + "  @override\n"@ + "  @JsonKey(includeFromJson: false, includeToJson: false)\n"@ + "  _$$$"@ + n);
    lemma_keeps_add(o8 + "\n"@ + "  /// Create a copy of "@ + n + "\n"@ + "  /// with the given fields replaced by the non-null parameter values.\n"@ + "  @override\n"@ + "  @JsonKey(includeFromJson: false, includeToJson: false)\n"@ + "  _$$$"@ + n, "ImplImplCopyWith<_$$"@);
    lemma_keeps_trans(o, o8 + "\n"@ + "  /// Create a copy of "@ + n + "\n"@ + "  /// with the given fields replaced by the non-null parameter values.\n"@ + "  @override\n"@ + "  @JsonKey(includeFromJson: false, includeToJson: false)\n"@ + "  _$$$"@ + n, o8 + "\n"@ + "  /// Create a copy of "@ + n + "\n"@ + "  /// with the given fields replaced by the non-null parameter values.\n"@ + "  @override\n"@ + "  @JsonKey(includeFromJson: false, includeToJson: false)\n"@ + "  _$$$"@ + n + "ImplImplCopyWith<_$$"@);
    lemma_keeps_add(o8 + "\n"@ + "  /// Create a copy of "@ + n + "\n"@ + "  /// with the given fields replaced by the non-null parameter values.\n"@ + "  @override\n"@ + "  @JsonKey(includeFromJson: false, includeToJson: false)\n"@ + "  _$$$"@ + n + "ImplImplCopyWith<_$$"@, n);
    lemma_keeps_trans(o, o8 + "\n"@ + "  /// Create a copy of "@ + n + "\n"@ + "  /// with the given fields replaced by the non-null parameter values.\n"@ + "  @override\n"@ + "  @JsonKey(includeFromJson: false, includeToJson: false)\n"@ + "  _$$$"@ + n + "ImplImplCopyWith<_$$"@, o8 + "\n"@ + "  /// Create a copy of "@ + n + "\n"@ + "  /// with the given fields replaced by the non-null parameter values.\n"@ + "  @override\n"@ + "  @JsonKey(includeFromJson: false, includeToJson: false)\n"@ + "  _$$$"@ + n + "ImplImplCopyWith<_$$"@ + n);
    lemma_keeps_add(o8 + "\n"@ + "  /// Create a copy of "@ + n + "\n"@ + "  /// with the given fields replaced by the non-null parameter values.\n"@ + "  @override\n"@ + "  @JsonKey(includeFromJson: false, includeToJson: false)\n"@ + "  _$$$"@ + n + "ImplImplCopyWith<_$$"@ + n, "ImplImpl> get copyWith =>\n"@);
    lemma_keeps_trans(o, o8 + "\n"@ + "  /// Create a copy of "@ + n + "\n"@ + "  /// with the given fields replaced by the non-null parameter values.\n"@ + "  @override\n"@ + "  @JsonKey(includeFromJson: false, includeToJson: false)\n"@ + "  _$$$"@ + n + "ImplImplCopyWith<_$$"@ + n, o8 + "\n"@ + "  /// Create a copy of "@ + n + "\n"@ + "  /// with the given fields replaced by the non-null parameter values.\n"@ + "  @override\n"@ + "  @JsonKey(includeFromJson: false, includeToJson: false)\n"@ + "  _$$$"@ + n + "ImplImplCopyWith<_$$"@ + n + "ImplImpl> get copyWith =>\n"@);
    lemma_keeps_add(o8 + "\n"@ + "  /// Create a copy of "@ + n + "\n"@ + "  /// with the given fields replaced by the non-null parameter values.\n"@ + "  @override\n"@ + "  @JsonKey(includeFromJson: false, includeToJson: false)\n"@ + "  _$$$"@ + n + "ImplImplCopyWith<_$$"@ + n + "ImplImpl> get copyWith =>\n"@, "      throw _privateConstructorUsedError;\n"@);
    lemma_keeps_trans(o, o8 + "\n"@ + "  /// Create a copy of "@ + n + "\n"@ + "  /// with the given fields replaced by the non-null parameter values.\n"@ + "  @override\n"@ + "  @JsonKey(includeFromJson: false, includeToJson: false)\n"@ + "  _$$$"@ + n + "ImplImplCopyWith<_$$"@ + n + "ImplImpl> get copyWith =>\n"@, o8 + "\n"@ + "  /// Create a copy of "@ + n + "\n"@ + "  /// with the given fields replaced by the non-null parameter values.\n"@ + "  @override\n"@ + "  @JsonKey(includeFromJson: false, includeToJson: false)\n"@ + "  _$$$"@ + n + "ImplImplCopyWith<_$$"@ + n + "ImplImpl> get copyWith =>\n"@ + "      throw _privateConstructorUsedError;\n"@);
    lemma_keeps_add(o8 + "\n"@ + "  /// Create a copy of "@ + n + "\n"@ + "  /// with the given fields replaced by the non-null parameter values.\n"@ + "  @override\n"@ + "  @JsonKey(includeFromJson: false, includeToJson: false)\n"@ + "  _$$$"@ + n + "ImplImplCopyWith<_$$"@ + n + "ImplImpl> get copyWith =>\n"@ + "      throw _privateConstructorUsedError;\n"@, "}\n\n"@);
    lemma_keeps_trans(o, o8 + "\n"@ + "  /// Create a copy of "@ + n + "\n"@ + "  /// with the given fields replaced by the non-null parameter values.\n"@ + "  @override\n"@ + "  @JsonKey(includeFromJson: false, includeToJson: false)\n"@ + "  _$$$"@ + n + "ImplImplCopyWith<_$$"@ + n + "ImplImpl> get copyWith =>\n"@ + "      throw _privateConstructorUsedError;\n"@, o8 + "\n"@ + "  /// Create a copy of "@ + n + "\n"@ + "  /// with the given fields replaced by the non-null parameter values.\n"@ + "  @override\n"@ + "  @JsonKey(includeFromJson: false, includeToJson: false)\n"@ + "  _$$$"@ + n + "ImplImplCopyWith<_$$"@ + n + "ImplImpl> get copyWith =>\n"@ + "      throw _privateConstructorUsedError;\n"@ + "}\n\n"@);
    assert(put_regular_tail(o, n, fs) == o8 + "\n"@ + "  /// Create a copy of "@ + n + "\n"@ + "  /// with the given fields replaced by the non-null parameter values.\n"@ + "  @override\n"@ + "  @JsonKey(includeFromJson: false, includeToJson: false)\n"@ + "  _$$$"@ + n + "ImplImplCopyWith<_$$"@ + n + "ImplImpl> get copyWith =>\n"@ + "      throw _privateConstructorUsedError;\n"@ + "}\n\n"@);
}

/// The start of the code of a union class `n`.
pub open spec fn union_mixin_start(n: Seq<char>) -> Seq<char> {
    "/// @nodoc\n"@ + "mixin _$"@ + n + " {\n"@ + "  @optionalTypeArgs\n  TResult when<TResult extends Object?>({\n"@
}

/// The start of the code of a regular class `n`: its `FromJson` function.
pub open spec fn regular_from_json_start(n: Seq<char>) -> Seq<char> {
    n + " _$"@ + n + "FromJson(Map<String, dynamic> json) {\n"@
}

/// The code of a union class begins with the mixin `_$Name` and its `when`
/// method; appending it to a text keeps that text and adds to it.
pub proof fn lemma_union_class_text_start(o: Seq<char>, n: Seq<char>, cs: Seq<CaseModel>)
    ensures
        starts_with(union_class_text(n, cs), union_mixin_start(n)),
        starts_with(o + union_class_text(n, cs), o),
        (o + union_class_text(n, cs)).len() > o.len(),
{
    lemma_case_piece_extends(n, ""@, CasePiece::WhenLine);
    lemma_case_piece_extends(n, ""@, CasePiece::WhenOrNullLine);
    lemma_case_piece_extends(n, ""@, CasePiece::MaybeWhenLine);
    lemma_case_piece_extends(n, ""@, CasePiece::MapLine);
    lemma_case_piece_extends(n, ""@, CasePiece::MapOrNullLine);
    lemma_case_piece_extends(n, ""@, CasePiece::MaybeMapLine);
    lemma_case_piece_extends(n, ""@, CasePiece::MapImplLine);
    lemma_case_piece_extends(n, ""@, CasePiece::MapOrNullImplLine);
    lemma_case_piece_extends(n, ""@, CasePiece::MaybeMapImplLine);
    lemma_case_piece_extends(n, ""@, CasePiece::ExtensionEntry);
    lemma_case_class_extends(n, cs);
    let start = union_mixin_start(n);
    let e = Seq::<char>::empty();
    let head = put_union_head(e, n, cs);
    lemma_union_head_starts(n, cs);
    lemma_fold_put_keeps(head, cs, case_class_fn(n, cs));
    lemma_keeps_trans(start, head, union_class_text(n, cs));
    lemma_keeps_starts_with(start, union_class_text(n, cs));
    lemma_keeps_add(o, union_class_text(n, cs));
    lemma_keeps_starts_with(o, o + union_class_text(n, cs));
    lemma_keeps_len(start, union_class_text(n, cs));
    reveal_strlit("/// @nodoc\n");
}

/// The first part of a union class begins with its mixin and `when` method.
proof fn lemma_union_head_starts(n: Seq<char>, cs: Seq<CaseModel>)
    ensures
        keeps(union_mixin_start(n), put_union_head(Seq::empty(), n, cs)),
{
    lemma_case_piece_extends(n, ""@, CasePiece::WhenLine);
    lemma_case_piece_extends(n, ""@, CasePiece::WhenOrNullLine);
    lemma_case_piece_extends(n, ""@, CasePiece::MaybeWhenLine);
    lemma_case_piece_extends(n, ""@, CasePiece::MapLine);
    lemma_case_piece_extends(n, ""@, CasePiece::MapOrNullLine);
    lemma_case_piece_extends(n, ""@, CasePiece::MaybeMapLine);
    lemma_case_piece_extends(n, ""@, CasePiece::MapImplLine);
    lemma_case_piece_extends(n, ""@, CasePiece::MapOrNullImplLine);
    lemma_case_piece_extends(n, ""@, CasePiece::MaybeMapImplLine);
    lemma_case_piece_extends(n, ""@, CasePiece::ExtensionEntry);
    lemma_fold_put_keeps_all(case_piece_fn(n, ""@, CasePiece::WhenLine));
    lemma_fold_put_keeps_all(case_piece_fn(n, ""@, CasePiece::WhenOrNullLine));
    lemma_fold_put_keeps_all(case_piece_fn(n, ""@, CasePiece::MaybeWhenLine));
    lemma_fold_put_keeps_all(case_piece_fn(n, ""@, CasePiece::MapLine));
    lemma_fold_put_keeps_all(case_piece_fn(n, ""@, CasePiece::MapOrNullLine));
    lemma_fold_put_keeps_all(case_piece_fn(n, ""@, CasePiece::MaybeMapLine));
    lemma_fold_put_keeps_all(case_piece_fn(n, ""@, CasePiece::ExtensionEntry));
    reveal(keeps);
    let e = Seq::<char>::empty();
    assert(e + "/// @nodoc\n"@ + "mixin _$"@ + n + " {\n"@ + "  @optionalTypeArgs\n  TResult when<TResult extends Object?>({\n"@
        =~= union_mixin_start(n));
}

/// The code of a regular class begins with its `FromJson` function.
pub proof fn lemma_regular_class_text_start(n: Seq<char>, fs: Seq<FieldModel>)
    ensures
        starts_with(regular_class_text(n, fs), regular_from_json_start(n)),
{
    lemma_field_piece_extends(FieldPiece::GetterLine);
    lemma_field_piece_extends(FieldPiece::CallParam);
    lemma_field_piece_extends(FieldPiece::ObjectParam);
    lemma_field_piece_extends(FieldPiece::CopyAssign);
    lemma_field_piece_extends(FieldPiece::CtorParam);
    lemma_field_piece_extends(FieldPiece::FinalField);
    lemma_field_piece_extends(FieldPiece::ToStringFirst);
    lemma_field_piece_extends(FieldPiece::ToStringNext);
    lemma_field_piece_extends(FieldPiece::EqLine);
    lemma_field_piece_extends(FieldPiece::HashLine);
    lemma_field_piece_extends(FieldPiece::FactoryParam);
    lemma_field_piece_extends(FieldPiece::OverrideGetter);
    lemma_field_piece_extends(FieldPiece::TypedFirst);
    lemma_field_piece_extends(FieldPiece::TypedNext);
    lemma_field_piece_extends(FieldPiece::NameFirst);
    lemma_field_piece_extends(FieldPiece::NameNext);
    lemma_field_piece_extends(FieldPiece::JsonEntry);
    lemma_field_piece_extends(FieldPiece::ThisParam);
    lemma_field_piece_extends(FieldPiece::RequiredTypedParam);
    lemma_field_piece_extends(FieldPiece::AbstractGetter);
    lemma_field_piece_extends(FieldPiece::FreezedParam);
    lemma_field_piece_extends(FieldPiece::CaseCopyAssign);
    let start = regular_from_json_start(n);
    let e = Seq::<char>::empty();
    let head = put_regular_head(e, n, fs);
    let lit = e + n + " _$"@ + n + "FromJson(Map<String, dynamic> json) {\n"@ + "  return _$"@ + n
        + "Impl.fromJson(json);\n"@ + "}\n\n"@ + "/// @nodoc\n"@ + "mixin _$"@ + n + " {\n"@;
    assert(keeps(start, lit)) by {
        reveal(keeps);
    }
    lemma_fold_put_keeps(lit, fs, field_piece_fn(FieldPiece::GetterLine));
    let o1 = fold_put(lit, fs, field_piece_fn(FieldPiece::GetterLine));
    lemma_keeps_trans(start, lit, o1);
    lemma_regular_head_rest(n, fs);
    lemma_keeps_trans(start, o1, head);
    lemma_regular_tail_keeps(head, n, fs);
    lemma_keeps_trans(start, head, regular_class_text(n, fs));
    lemma_keeps_starts_with(start, regular_class_text(n, fs));
}


/// The first part of a regular class begins with its `FromJson` function and
/// the getters of its mixin.
#[verifier::rlimit(100)]
proof fn lemma_regular_head_rest(n: Seq<char>, fs: Seq<FieldModel>)
    ensures
        keeps(
            fold_put(Seq::<char>::empty() + n + " _$"@ + n + "FromJson(Map<String, dynamic> json) {\n"@ + "  return _$"@ + n + "Impl.fromJson(json);\n"@ + "}\n\n"@ + "/// @nodoc\n"@ + "mixin _$"@ + n + " {\n"@, fs, field_piece_fn(FieldPiece::GetterLine)),
            put_regular_head(Seq::empty(), n, fs),
        ),
{
    lemma_field_piece_extends(FieldPiece::GetterLine);
    lemma_field_piece_extends(FieldPiece::CallParam);
    lemma_field_piece_extends(FieldPiece::ObjectParam);
    lemma_field_piece_extends(FieldPiece::CopyAssign);
    lemma_field_piece_extends(FieldPiece::CtorParam);
    lemma_field_piece_extends(FieldPiece::FinalField);
    lemma_field_piece_extends(FieldPiece::ToStringFirst);
    lemma_field_piece_extends(FieldPiece::ToStringNext);
    lemma_field_piece_extends(FieldPiece::EqLine);
    lemma_field_piece_extends(FieldPiece::HashLine);
    lemma_field_piece_extends(FieldPiece::FactoryParam);
    lemma_field_piece_extends(FieldPiece::OverrideGetter);
    lemma_field_piece_extends(FieldPiece::TypedFirst);
    lemma_field_piece_extends(FieldPiece::TypedNext);
    lemma_field_piece_extends(FieldPiece::NameFirst);
    lemma_field_piece_extends(FieldPiece::NameNext);
    lemma_field_piece_extends(FieldPiece::JsonEntry);
    lemma_field_piece_extends(FieldPiece::ThisParam);
    lemma_field_piece_extends(FieldPiece::RequiredTypedParam);
    lemma_field_piece_extends(FieldPiece::AbstractGetter);
    lemma_field_piece_extends(FieldPiece::FreezedParam);
    lemma_field_piece_extends(FieldPiece::CaseCopyAssign);
    let o = Seq::<char>::empty();
    let o1 = fold_put(o + n + " _$"@ + n + "FromJson(Map<String, dynamic> json) {\n"@ + "  return _$"@ + n + "Impl.fromJson(json);\n"@ + "}\n\n"@ + "/// @nodoc\n"@ + "mixin _$"@ + n + " {\n"@, fs, field_piece_fn(FieldPiece::GetterLine));
    lemma_keeps_refl(o1);
    lemma_keeps_refl(o1);
    lemma_keeps_add(o1, "\n"@);
    lemma_keeps_trans(o1, o1, o1 + "\n"@);
    lemma_keeps_add(o1 + "\n"@, "  /// Serializes this "@);
    lemma_keeps_trans(o1, o1 + "\n"@, o1 + "\n"@ + "  /// Serializes this "@);
    lemma_keeps_add(o1 + "\n"@ + "  /// Serializes this "@, n);
    lemma_keeps_trans(o1, o1 + "\n"@ + "  /// Serializes this "@, o1 + "\n"@ + "  /// Serializes this "@ + n);
    lemma_keeps_add(o1 + "\n"@ + "  /// Serializes this "@ + n, " to a JSON map.\n"@);
    lemma_keeps_trans(o1, o1 + "\n"@ + "  /// Serializes this "@ + n, o1 + "\n"@ + "  /// Serializes this "@ + n + " to a JSON map.\n"@);
    lemma_keeps_add(o1 + "\n"@ + "  /// Serializes this "@ + n + " to a JSON map.\n"@, "  Map<String, dynamic> toJson() => throw _privateConstructorUsedError;\n\n"@);
    lemma_keeps_trans(o1, o1 + "\n"@ + "  /// Serializes this "@ + n + " to a JSON map.\n"@, o1 + "\n"@ + "  /// Serializes this "@ + n + " to a JSON map.\n"@ + "  Map<String, dynamic> toJson() => throw _privateConstructorUsedError;\n\n"@);
    lemma_keeps_add(o1 + "\n"@ + "  /// Serializes this "@ + n + " to a JSON map.\n"@ + "  Map<String, dynamic> toJson() => throw _privateConstructorUsedError;\n\n"@, "  /// Create a copy of "@);
    lemma_keeps_trans(o1, o1 + "\n"@ + "  /// Serializes this "@ + n + " to a JSON map.\n"@ + "  Map<String, dynamic> toJson() => throw _privateConstructorUsedError;\n\n"@, o1 + "\n"@ + "  /// Serializes this "@ + n + " to a JSON map.\n"@ + "  Map<String, dynamic> toJson() => throw _privateConstructorUsedError;\n\n"@ + "  /// Create a copy of "@);
    lemma_keeps_add(o1 + "\n"@ + "  /// Serializes this "@ + n + " to a JSON map.\n"@ + "  Map<String, dynamic> toJson() => throw _privateConstructorUsedError;\n\n"@ + "  /// Create a copy of "@, n);
    lemma_keeps_trans(o1, o1 + "\n"@ + "  /// Serializes this "@ + n + " to a JSON map.\n"@ + "  Map<String, dynamic> toJson() => throw _privateConstructorUsedError;\n\n"@ + "  /// Create a copy of "@, o1 + "\n"@ + "  /// Serializes this "@ + n + " to a JSON map.\n"@ + "  Map<String, dynamic> toJson() => throw _privateConstructorUsedError;\n\n"@ + "  /// Create a copy of "@ + n);
    lemma_keeps_add(o1 + "\n"@ + "  /// Serializes this "@ + n + " to a JSON map.\n"@ + "  Map<String, dynamic> toJson() => throw _privateConstructorUsedError;\n\n"@ + "  /// Create a copy of "@ + n, "\n"@);
    lemma_keeps_trans(o1, o1 + "\n"@ + "  /// Serializes this "@ + n + " to a JSON map.\n"@ + "  Map<String, dynamic> toJson() => throw _privateConstructorUsedError;\n\n"@ + "  /// Create a copy of "@ + n, o1 + "\n"@ + "  /// Serializes this "@ + n + " to a JSON map.\n"@ + "  Map<String, dynamic> toJson() => throw _privateConstructorUsedError;\n\n"@ + "  /// Create a copy of "@ + n + "\n"@);
    lemma_keeps_add(o1 + "\n"@ + "  /// Serializes this "@ + n + " to a JSON map.\n"@ + "  Map<String, dynamic> toJson() => throw _privateConstructorUsedError;\n\n"@ + "  /// Create a copy of "@ + n + "\n"@, "  /// with the given fields replaced by the non-null parameter values.\n"@);
    lemma_keeps_trans(o1, o1 + "\n"@ + "  /// Serializes this "@ + n + " to a JSON map.\n"@ + "  Map<String, dynamic> toJson() => throw _privateConstructorUsedError;\n\n"@ + "  /// Create a copy of "@ + n + "\n"@, o1 + "\n"@ + "  /// Serializes this "@ + n + " to a JSON map.\n"@ + "  Map<String, dynamic> toJson() => throw _privateConstructorUsedError;\n\n"@ + "  /// Create a copy of "@ + n + "\n"@ + "  /// with the given fields replaced by the non-null parameter values.\n"@);
    lemma_keeps_add(o1 + "\n"@ + "  /// Serializes this "@ + n + " to a JSON map.\n"@ + "  Map<String, dynamic> toJson() => throw _privateConstructorUsedError;\n\n"@ + "  /// Create a copy of "@ + n + "\n"@ + "  /// with the given fields replaced by the non-null parameter values.\n"@, "  @JsonKey(includeFromJson: false, includeToJson: false)\n"@);
    lemma_keeps_trans(o1, o1 + "\n"@ + "  /// Serializes this "@ + n + " to a JSON map.\n"@ + "  Map<String, dynamic> toJson() => throw _privateConstructorUsedError;\n\n"@ + "  /// Create a copy of "@ + n + "\n"@ + "  /// with the given fields replaced by the non-null parameter values.\n"@, o1 + "\n"@ + "  /// Serializes this "@ + n + " to a JSON map.\n"@ + "  Map<String, dynamic> toJson() => throw _privateConstructorUsedError;\n\n"@ + "  /// Create a copy of "@ + n + "\n"@ + "  /// with the given fields replaced by the non-null parameter values.\n"@ + "  @JsonKey(includeFromJson: false, includeToJson: false)\n"@);
    lemma_keeps_add(o1 + "\n"@ + "  /// Serializes this "@ + n + " to a JSON map.\n"@ + "  Map<String, dynamic> toJson() => throw _privateConstructorUsedError;\n\n"@ + "  /// Create a copy of "@ + n + "\n"@ + "  /// with the given fields replaced by the non-null parameter values.\n"@ + "  @JsonKey(includeFromJson: false, includeToJson: false)\n"@, "  $"@);
    lemma_keeps_trans(o1, o1 + "\n"@ + "  /// Serializes this "@ + n + " to a JSON map.\n"@ + "  Map<String, dynamic> toJson() => throw _privateConstructorUsedError;\n\n"@ + "  /// Create a copy of "@ + n + "\n"@ + "  /// with the given fields replaced by the non-null parameter values.\n"@ + "  @JsonKey(includeFromJson: false, includeToJson: false)\n"@, o1 + "\n"@ + "  /// Serializes this "@ + n + " to a JSON map.\n"@ + "  Map<String, dynamic> toJson() => throw _privateConstructorUsedError;\n\n"@ + "  /// Create a copy of "@ + n + "\n"@ + "  /// with the given fields replaced by the non-null parameter values.\n"@ + "  @JsonKey(includeFromJson: false, includeToJson: false)\n"@ + "  $"@);
    lemma_keeps_add(o1 + "\n"@ + "  /// Serializes this "@ + n + " to a JSON map.\n"@ + "  Map<String, dynamic> toJson() => throw _privateConstructorUsedError;\n\n"@ + "  /// Create a copy of "@ + n + "\n"@ + "  /// with the given fields replaced by the non-null parameter values.\n"@ + "  @JsonKey(includeFromJson: false, includeToJson: false)\n"@ + "  $"@, n);
    lemma_keeps_trans(o1, o1 + "\n"@ + "  /// Serializes this "@ + n + " to a JSON map.\n"@ + "  Map<String, dynamic> toJson() => throw _privateConstructorUsedError;\n\n"@ + "  /// Create a copy of "@ + n + "\n"@ + "  /// with the given fields replaced by the non-null parameter values.\n"@ + "  @JsonKey(includeFromJson: false, includeToJson: false)\n"@ + "  $"@, o1 + "\n"@ + "  /// Serializes this "@ + n + " to a JSON map.\n"@ + "  Map<String, dynamic> toJson() => throw _privateConstructorUsedError;\n\n"@ + "  /// Create a copy of "@ + n + "\n"@ + "  /// with the given fields replaced by the non-null parameter values.\n"@ + "  @JsonKey(includeFromJson: false, includeToJson: false)\n"@ + "  $"@ + n);
    lemma_keeps_add(o1 + "\n"@ + "  /// Serializes this "@ + n + " to a JSON map.\n"@ + "  Map<String, dynamic> toJson() => throw _privateConstructorUsedError;\n\n"@ + "  /// Create a copy of "@ + n + "\n"@ + "  /// with the given fields replaced by the non-null parameter values.\n"@ + "  @JsonKey(includeFromJson: false, includeToJson: false)\n"@ + "  $"@ + n, "CopyWith<"@);
    lemma_keeps_trans(o1, o1 + "\n"@ + "  /// Serializes this "@ + n + " to a JSON map.\n"@ + "  Map<String, dynamic> toJson() => throw _privateConstructorUsedError;\n\n"@ + "  /// Create a copy of "@ + n + "\n"@ + "  /// with the given fields replaced by the non-null parameter values.\n"@ + "  @JsonKey(includeFromJson: false, includeToJson: false)\n"@ + "  $"@ + n, o1 + "\n"@ + "  /// Serializes this "@ + n + " to a JSON map.\n"@ + "  Map<String, dynamic> toJson() => throw _privateConstructorUsedError;\n\n"@ + "  /// Create a copy of "@ + n + "\n"@ + "  /// with the given fields replaced by the non-null parameter values.\n"@ + "  @JsonKey(includeFromJson: false, includeToJson: false)\n"@ + "  $"@ + n + "CopyWith<"@);
    lemma_keeps_add(o1 + "\n"@ + "  /// Serializes this "@ + n + " to a JSON map.\n"@ + "  Map<String, dynamic> toJson() => throw _privateConstructorUsedError;\n\n"@ + "  /// Create a copy of "@ + n + "\n"@ + "  /// with the given fields replaced by the non-null parameter values.\n"@ + "  @JsonKey(includeFromJson: false, includeToJson: false)\n"@ + "  $"@ + n + "CopyWith<"@, n);
    lemma_keeps_trans(o1, o1 + "\n"@ + "  /// Serializes this "@ + n + " to a JSON map.\n"@ + "  Map<String, dynamic> toJson() => throw _privateConstructorUsedError;\n\n"@ + "  /// Create a copy of "@ + n + "\n"@ + "  /// with the given fields replaced by the non-null parameter values.\n"@ + "  @JsonKey(includeFromJson: false, includeToJson: false)\n"@ + "  $"@ + n + "CopyWith<"@, o1 + "\n"@ + "  /// Serializes this "@ + n + " to a JSON map.\n"@ + "  Map<String, dynamic> toJson() => throw _privateConstructorUsedError;\n\n"@ + "  /// Create a copy of "@ + n + "\n"@ + "  /// with the given fields replaced by the non-null parameter values.\n"@ + "  @JsonKey(includeFromJson: false, includeToJson: false)\n"@ + "  $"@ + n + "CopyWith<"@ + n);
    lemma_keeps_add(o1 + "\n"@ + "  /// Serializes this "@ + n + " to a JSON map.\n"@ + "  Map<String, dynamic> toJson() => throw _privateConstructorUsedError;\n\n"@ + "  /// Create a copy of "@ + n + "\n"@ + "  /// with the given fields replaced by the non-null parameter values.\n"@ + "  @JsonKey(includeFromJson: false, includeToJson: false)\n"@ + "  $"@ + n + "CopyWith<"@ + n, "> get copyWith => throw _privateConstructorUsedError;\n"@);
    lemma_keeps_trans(o1, o1 + "\n"@ + "  /// Serializes this "@ + n + " to a JSON map.\n"@ + "  Map<String, dynamic> toJson() => throw _privateConstructorUsedError;\n\n"@ + "  /// Create a copy of "@ + n + "\n"@ + "  /// with the given fields replaced by the non-null parameter values.\n"@ + "  @JsonKey(includeFromJson: false, includeToJson: false)\n"@ + "  $"@ + n + "CopyWith<"@ + n, o1 + "\n"@ + "  /// Serializes this "@ + n + " to a JSON map.\n"@ + "  Map<String, dynamic> toJson() => throw _privateConstructorUsedError;\n\n"@ + "  /// Create a copy of "@ + n + "\n"@ + "  /// with the given fields replaced by the non-null parameter values.\n"@ + "  @JsonKey(includeFromJson: false, includeToJson: false)\n"@ + "  $"@ + n + "CopyWith<"@ + n + "> get copyWith => throw _privateConstructorUsedError;\n"@);
    lemma_keeps_add(o1 + "\n"@ + "  /// Serializes this "@ + n + " to a JSON map.\n"@ + "  Map<String, dynamic> toJson() => throw _privateConstructorUsedError;\n\n"@ + "  /// Create a copy of "@ + n + "\n"@ + "  /// with the given fields replaced by the non-null parameter values.\n"@ + "  @JsonKey(includeFromJson: false, includeToJson: false)\n"@ + "  $"@ + n + "CopyWith<"@ + n + "> get copyWith => throw _privateConstructorUsedError;\n"@, "}\n\n"@);
    lemma_keeps_trans(o1, o1 + "\n"@ + "  /// Serializes this "@ + n + " to a JSON map.\n"@ + "  Map<String, dynamic> toJson() => throw _privateConstructorUsedError;\n\n"@ + "  /// Create a copy of "@ + n + "\n"@ + "  /// with the given fields replaced by the non-null parameter values.\n"@ + "  @JsonKey(includeFromJson: false, includeToJson: false)\n"@ + "  $"@ + n + "CopyWith<"@ + n + "> get copyWith => throw _privateConstructorUsedError;\n"@, o1 + "\n"@ + "  /// Serializes this "@ + n + " to a JSON map.\n"@ + "  Map<String, dynamic> toJson() => throw _privateConstructorUsedError;\n\n"@ + "  /// Create a copy of "@ + n + "\n"@ + "  /// with the given fields replaced by the non-null parameter values.\n"@ + "  @JsonKey(includeFromJson: false, includeToJson: false)\n"@ + "  $"@ + n + "CopyWith<"@ + n + "> get copyWith => throw _privateConstructorUsedError;\n"@ + "}\n\n"@);
    lemma_keeps_add(o1 + "\n"@ + "  /// Serializes this "@ + n + " to a JSON map.\n"@ + "  Map<String, dynamic> toJson() => throw _privateConstructorUsedError;\n\n"@ + "  /// Create a copy of "@ + n + "\n"@ + "  /// with the given fields replaced by the non-null parameter values.\n"@ + "  @JsonKey(includeFromJson: false, includeToJson: false)\n"@ + "  $"@ + n + "CopyWith<"@ + n + "> get copyWith => throw _privateConstructorUsedError;\n"@ + "}\n\n"@, "/// @nodoc\n"@);
    lemma_keeps_trans(o1, o1 + "\n"@ + "  /// Serializes this "@ + n + " to a JSON map.\n"@ + "  Map<String, dynamic> toJson() => throw _privateConstructorUsedError;\n\n"@ + "  /// Create a copy of "@ + n + "\n"@ + "  /// with the given fields replaced by the non-null parameter values.\n"@ + "  @JsonKey(includeFromJson: false, includeToJson: false)\n"@ + "  $"@ + n + "CopyWith<"@ + n + "> get copyWith => throw _privateConstructorUsedError;\n"@ + "}\n\n"@, o1 + "\n"@ + "  /// Serializes this "@ + n + " to a JSON map.\n"@ + "  Map<String, dynamic> toJson() => throw _privateConstructorUsedError;\n\n"@ + "  /// Create a copy of "@ + n + "\n"@ + "  /// with the given fields replaced by the non-null parameter values.\n"@ + "  @JsonKey(includeFromJson: false, includeToJson: false)\n"@ + "  $"@ + n + "CopyWith<"@ + n + "> get copyWith => throw _privateConstructorUsedError;\n"@ + "}\n\n"@ + "/// @nodoc\n"@);
    lemma_keeps_add(o1 + "\n"@ + "  /// Serializes this "@ + n + " to a JSON map.\n"@ + "  Map<String, dynamic> toJson() => throw _privateConstructorUsedError;\n\n"@ + "  /// Create a copy of "@ + n + "\n"@ + "  /// with the given fields replaced by the non-null parameter values.\n"@ + "  @JsonKey(includeFromJson: false, includeToJson: false)\n"@ + "  $"@ + n + "CopyWith<"@ + n + "> get copyWith => throw _privateConstructorUsedError;\n"@ + "}\n\n"@ + "/// @nodoc\n"@, "abstract class $"@);
    lemma_keeps_trans(o1, o1 + "\n"@ + "  /// Serializes this "@ + n + " to a JSON map.\n"@ + "  Map<String, dynamic> toJson() => throw _privateConstructorUsedError;\n\n"@ + "  /// Create a copy of "@ + n + "\n"@ + "  /// with the given fields replaced by the non-null parameter values.\n"@ + "  @JsonKey(includeFromJson: false, includeToJson: false)\n"@ + "  $"@ + n + "CopyWith<"@ + n + "> get copyWith => throw _privateConstructorUsedError;\n"@ + "}\n\n"@ + "/// @nodoc\n"@, o1 + "\n"@ + "  /// Serializes this "@ + n + " to a JSON map.\n"@ + "  Map<String, dynamic> toJson() => throw _privateConstructorUsedError;\n\n"@ + "  /// Create a copy of "@ + n + "\n"@ + "  /// with the given fields replaced by the non-null parameter values.\n"@ + "  @JsonKey(includeFromJson: false, includeToJson: false)\n"@ + "  $"@ + n + "CopyWith<"@ + n + "> get copyWith => throw _privateConstructorUsedError;\n"@ + "}\n\n"@ + "/// @nodoc\n"@ + "abstract class $"@);
    lemma_keeps_add(o1 + "\n"@ + "  /// Serializes this "@ + n + " to a JSON map.\n"@ + "  Map<String, dynamic> toJson() => throw _privateConstructorUsedError;\n\n"@ + "  /// Create a copy of "@ + n + "\n"@ + "  /// with the given fields replaced by the non-null parameter values.\n"@ + "  @JsonKey(includeFromJson: false, includeToJson: false)\n"@ + "  $"@ + n + "CopyWith<"@ + n + "> get copyWith => throw _privateConstructorUsedError;\n"@ + "}\n\n"@ + "/// @nodoc\n"@ + "abstract class $"@, n);
    lemma_keeps_trans(o1, o1 + "\n"@ + "  /// Serializes this "@ + n + " to a JSON map.\n"@ + "  Map<String, dynamic> toJson() => throw _privateConstructorUsedError;\n\n"@ + "  /// Create a copy of "@ + n + "\n"@ + "  /// with the given fields replaced by the non-null parameter values.\n"@ + "  @JsonKey(includeFromJson: false, includeToJson: false)\n"@ + "  $"@ + n + "CopyWith<"@ + n + "> get copyWith => throw _privateConstructorUsedError;\n"@ + "}\n\n"@ + "/// @nodoc\n"@ + "abstract class $"@, o1 + "\n"@ + "  /// Serializes this "@ + n + " to a JSON map.\n"@ + "  Map<String, dynamic> toJson() => throw _privateConstructorUsedError;\n\n"@ + "  /// Create a copy of "@ + n + "\n"@ + "  /// with the given fields replaced by the non-null parameter values.\n"@ + "  @JsonKey(includeFromJson: false, includeToJson: false)\n"@ + "  $"@ + n + "CopyWith<"@ + n + "> get copyWith => throw _privateConstructorUsedError;\n"@ + "}\n\n"@ + "/// @nodoc\n"@ + "abstract class $"@ + n);
    lemma_keeps_add(o1 + "\n"@ + "  /// Serializes this "@ + n + " to a JSON map.\n"@ + "  Map<String, dynamic> toJson() => throw _privateConstructorUsedError;\n\n"@ + "  /// Create a copy of "@ + n + "\n"@ + "  /// with the given fields replaced by the non-null parameter values.\n"@ + "  @JsonKey(includeFromJson: false, includeToJson: false)\n"@ + "  $"@ + n + "CopyWith<"@ + n + "> get copyWith => throw _privateConstructorUsedError;\n"@ + "}\n\n"@ + "/// @nodoc\n"@ + "abstract class $"@ + n, "CopyWith<$Res> {\n"@);
    lemma_keeps_trans(o1, o1 + "\n"@ + "  /// Serializes this "@ + n + " to a JSON map.\n"@ + "  Map<String, dynamic> toJson() => throw _privateConstructorUsedError;\n\n"@ + "  /// Create a copy of "@ + n + "\n"@ + "  /// with the given fields replaced by the non-null parameter values.\n"@ + "  @JsonKey(includeFromJson: false, includeToJson: false)\n"@ + "  $"@ + n + "CopyWith<"@ + n + "> get copyWith => throw _privateConstructorUsedError;\n"@ + "}\n\n"@ + "/// @nodoc\n"@ + "abstract class $"@ + n, o1 + "\n"@ + "  /// Serializes this "@ + n + " to a JSON map.\n"@ + "  Map<String, dynamic> toJson() => throw _privateConstructorUsedError;\n\n"@ + "  /// Create a copy of "@ + n + "\n"@ + "  /// with the given fields replaced by the non-null parameter values.\n"@ + "  @JsonKey(includeFromJson: false, includeToJson: false)\n"@ + "  $"@ + n + "CopyWith<"@ + n + "> get copyWith => throw _privateConstructorUsedError;\n"@ + "}\n\n"@ + "/// @nodoc\n"@ + "abstract class $"@ + n + "CopyWith<$Res> {\n"@);
    lemma_keeps_add(o1 + "\n"@ + "  /// Serializes this "@ + n + " to a JSON map.\n"@ + "  Map<String, dynamic> toJson() => throw _privateConstructorUsedError;\n\n"@ + "  /// Create a copy of "@ + n + "\n"@ + "  /// with the given fields replaced by the non-null parameter values.\n"@ + "  @JsonKey(includeFromJson: false, includeToJson: false)\n"@ + "  $"@ + n + "CopyWith<"@ + n + "> get copyWith => throw _privateConstructorUsedError;\n"@ + "}\n\n"@ + "/// @nodoc\n"@ + "abstract class $"@ + n + "CopyWith<$Res> {\n"@, "  factory $"@);
    lemma_keeps_trans(o1, o1 + "\n"@ + "  /// Serializes this "@ + n + " to a JSON map.\n"@ + "  Map<String, dynamic> toJson() => throw _privateConstructorUsedError;\n\n"@ + "  /// Create a copy of "@ + n + "\n"@ + "  /// with the given fields replaced by the non-null parameter values.\n"@ + "  @JsonKey(includeFromJson: false, includeToJson: false)\n"@ + "  $"@ + n + "CopyWith<"@ + n + "> get copyWith => throw _privateConstructorUsedError;\n"@ + "}\n\n"@ + "/// @nodoc\n"@ + "abstract class $"@ + n + "CopyWith<$Res> {\n"@, o1 + "\n"@ + "  /// Serializes this "@ + n + " to a JSON map.\n"@ + "  Map<String, dynamic> toJson() => throw _privateConstructorUsedError;\n\n"@ + "  /// Create a copy of "@ + n + "\n"@ + "  /// with the given fields replaced by the non-null parameter values.\n"@ + "  @JsonKey(includeFromJson: false, includeToJson: false)\n"@ + "  $"@ + n + "CopyWith<"@ + n + "> get copyWith => throw _privateConstructorUsedError;\n"@ + "}\n\n"@ + "/// @nodoc\n"@ + "abstract class $"@ + n + "CopyWith<$Res> {\n"@ + "  factory $"@);
    lemma_keeps_add(o1 + "\n"@ + "  /// Serializes this "@ + n + " to a JSON map.\n"@ + "  Map<String, dynamic> toJson() => throw _privateConstructorUsedError;\n\n"@ + "  /// Create a copy of "@ + n + "\n"@ + "  /// with the given fields replaced by the non-null parameter values.\n"@ + "  @JsonKey(includeFromJson: false, includeToJson: false)\n"@ + "  $"@ + n + "CopyWith<"@ + n + "> get copyWith => throw _privateConstructorUsedError;\n"@ + "}\n\n"@ + "/// @nodoc\n"@ + "abstract class $"@ + n + "CopyWith<$Res> {\n"@ + "  factory $"@, n);
    lemma_keeps_trans(o1, o1 + "\n"@ + "  /// Serializes this "@ + n + " to a JSON map.\n"@ + "  Map<String, dynamic> toJson() => throw _privateConstructorUsedError;\n\n"@ + "  /// Create a copy of "@ + n + "\n"@ + "  /// with the given fields replaced by the non-null parameter values.\n"@ + "  @JsonKey(includeFromJson: false, includeToJson: false)\n"@ + "  $"@ + n + "CopyWith<"@ + n + "> get copyWith => throw _privateConstructorUsedError;\n"@ + "}\n\n"@ + "/// @nodoc\n"@ + "abstract class $"@ + n + "CopyWith<$Res> {\n"@ + "  factory $"@, o1 + "\n"@ + "  /// Serializes this "@ + n + " to a JSON map.\n"@ + "  Map<String, dynamic> toJson() => throw _privateConstructorUsedError;\n\n"@ + "  /// Create a copy of "@ + n + "\n"@ + "  /// with the given fields replaced by the non-null parameter values.\n"@ + "  @JsonKey(includeFromJson: false, includeToJson: false)\n"@ + "  $"@ + n + "CopyWith<"@ + n + "> get copyWith => throw _privateConstructorUsedError;\n"@ + "}\n\n"@ + "/// @nodoc\n"@ + "abstract class $"@ + n + "CopyWith<$Res> {\n"@ + "  factory $"@ + n);
    lemma_keeps_add(o1 + "\n"@ + "  /// Serializes this "@ + n + " to a JSON map.\n"@ + "  Map<String, dynamic> toJson() => throw _privateConstructorUsedError;\n\n"@ + "  /// Create a copy of "@ + n + "\n"@ + "  /// with the given fields replaced by the non-null parameter values.\n"@ + "  @JsonKey(includeFromJson: false, includeToJson: false)\n"@ + "  $"@ + n + "CopyWith<"@ + n + "> get copyWith => throw _privateConstructorUsedError;\n"@ + "}\n\n"@ + "/// @nodoc\n"@ + "abstract class $"@ + n + "CopyWith<$Res> {\n"@ + "  factory $"@ + n, "CopyWith("@);
    lemma_keeps_trans(o1, o1 + "\n"@ + "  /// Serializes this "@ + n + " to a JSON map.\n"@ + "  Map<String, dynamic> toJson() => throw _privateConstructorUsedError;\n\n"@ + "  /// Create a copy of "@ + n + "\n"@ + "  /// with the given fields replaced by the non-null parameter values.\n"@ + "  @JsonKey(includeFromJson: false, includeToJson: false)\n"@ + "  $"@ + n + "CopyWith<"@ + n + "> get copyWith => throw _privateConstructorUsedError;\n"@ + "}\n\n"@ + "/// @nodoc\n"@ + "abstract class $"@ + n + "CopyWith<$Res> {\n"@ + "  factory $"@ + n, o1 + "\n"@ + "  /// Serializes this "@ + n + " to a JSON map.\n"@ + "  Map<String, dynamic> toJson() => throw _privateConstructorUsedError;\n\n"@ + "  /// Create a copy of "@ + n + "\n"@ + "  /// with the given fields replaced by the non-null parameter values.\n"@ + "  @JsonKey(includeFromJson: false, includeToJson: false)\n"@ + "  $"@ + n + "CopyWith<"@ + n + "> get copyWith => throw _privateConstructorUsedError;\n"@ + "}\n\n"@ + "/// @nodoc\n"@ + "abstract class $"@ + n + "CopyWith<$Res> {\n"@ + "  factory $"@ + n + "CopyWith("@);
    lemma_keeps_add(o1 + "\n"@ + "  /// Serializes this "@ + n + " to a JSON map.\n"@ + "  Map<String, dynamic> toJson() => throw _privateConstructorUsedError;\n\n"@ + "  /// Create a copy of "@ + n + "\n"@ + "  /// with the given fields replaced by the non-null parameter values.\n"@ + "  @JsonKey(includeFromJson: false, includeToJson: false)\n"@ + "  $"@ + n + "CopyWith<"@ + n + "> get copyWith => throw _privateConstructorUsedError;\n"@ + "}\n\n"@ + "/// @nodoc\n"@ + "abstract class $"@ + n + "CopyWith<$Res> {\n"@ + "  factory $"@ + n + "CopyWith("@, n);
    lemma_keeps_trans(o1, o1 + "\n"@ + "  /// Serializes this "@ + n + " to a JSON map.\n"@ + "  Map<String, dynamic> toJson() => throw _privateConstructorUsedError;\n\n"@ + "  /// Create a copy of "@ + n + "\n"@ + "  /// with the given fields replaced by the non-null parameter values.\n"@ + "  @JsonKey(includeFromJson: false, includeToJson: false)\n"@ + "  $"@ + n + "CopyWith<"@ + n + "> get copyWith => throw _privateConstructorUsedError;\n"@ + "}\n\n"@ + "/// @nodoc\n"@ + "abstract class $"@ + n + "CopyWith<$Res> {\n"@ + "  factory $"@ + n + "CopyWith("@, o1 + "\n"@ + "  /// Serializes this "@ + n + " to a JSON map.\n"@ + "  Map<String, dynamic> toJson() => throw _privateConstructorUsedError;\n\n"@ + "  /// Create a copy of "@ + n + "\n"@ + "  /// with the given fields replaced by the non-null parameter values.\n"@ + "  @JsonKey(includeFromJson: false, includeToJson: false)\n"@ + "  $"@ + n + "CopyWith<"@ + n + "> get copyWith => throw _privateConstructorUsedError;\n"@ + "}\n\n"@ + "/// @nodoc\n"@ + "abstract class $"@ + n + "CopyWith<$Res> {\n"@ + "  factory $"@ + n + "CopyWith("@ + n);
    lemma_keeps_add(o1 + "\n"@ + "  /// Serializes this "@ + n + " to a JSON map.\n"@ + "  Map<String, dynamic> toJson() => throw _privateConstructorUsedError;\n\n"@ + "  /// Create a copy of "@ + n + "\n"@ + "  /// with the given fields replaced by the non-null parameter values.\n"@ + "  @JsonKey(includeFromJson: false, includeToJson: false)\n"@ + "  $"@ + n + "CopyWith<"@ + n + "> get copyWith => throw _privateConstructorUsedError;\n"@ + "}\n\n"@ + "/// @nodoc\n"@ + "abstract class $"@ + n + "CopyWith<$Res> {\n"@ + "  factory $"@ + n + "CopyWith("@ + n, " value, $Res Function("@);
    lemma_keeps_trans(o1, o1 + "\n"@ + "  /// Serializes this "@ + n + " to a JSON map.\n"@ + "  Map<String, dynamic> toJson() => throw _privateConstructorUsedError;\n\n"@ + "  /// Create a copy of "@ + n + "\n"@ + "  /// with the given fields replaced by the non-null parameter values.\n"@ + "  @JsonKey(includeFromJson: false, includeToJson: false)\n"@ + "  $"@ + n + "CopyWith<"@ + n + "> get copyWith => throw _privateConstructorUsedError;\n"@ + "}\n\n"@ + "/// @nodoc\n"@ + "abstract class $"@ + n + "CopyWith<$Res> {\n"@ + "  factory $"@ + n + "CopyWith("@ + n, o1 + "\n"@ + "  /// Serializes this "@ + n + " to a JSON map.\n"@ + "  Map<String, dynamic> toJson() => throw _privateConstructorUsedError;\n\n"@ + "  /// Create a copy of "@ + n + "\n"@ + "  /// with the given fields replaced by the non-null parameter values.\n"@ + "  @JsonKey(includeFromJson: false, includeToJson: false)\n"@ + "  $"@ + n + "CopyWith<"@ + n + "> get copyWith => throw _privateConstructorUsedError;\n"@ + "}\n\n"@ + "/// @nodoc\n"@ + "abstract class $"@ + n + "CopyWith<$Res> {\n"@ + "  factory $"@ + n + "CopyWith("@ + n + " value, $Res Function("@);
    lemma_keeps_add(o1 + "\n"@ + "  /// Serializes this "@ + n + " to a JSON map.\n"@ + "  Map<String, dynamic> toJson() => throw _privateConstructorUsedError;\n\n"@ + "  /// Create a copy of "@ + n + "\n"@ + "  /// with the given fields replaced by the non-null parameter values.\n"@ + "  @JsonKey(includeFromJson: false, includeToJson: false)\n"@ + "  $"@ + n + "CopyWith<"@ + n + "> get copyWith => throw _privateConstructorUsedError;\n"@ + "}\n\n"@ + "/// @nodoc\n"@ + "abstract class $"@ + n + "CopyWith<$Res> {\n"@ + "  factory $"@ + n + "CopyWith("@ + n + " value, $Res Function("@, n);
    lemma_keeps_trans(o1, o1 + "\n"@ + "  /// Serializes this "@ + n + " to a JSON map.\n"@ + "  Map<String, dynamic> toJson() => throw _privateConstructorUsedError;\n\n"@ + "  /// Create a copy of "@ + n + "\n"@ + "  /// with the given fields replaced by the non-null parameter values.\n"@ + "  @JsonKey(includeFromJson: false, includeToJson: false)\n"@ + "  $"@ + n + "CopyWith<"@ + n + "> get copyWith => throw _privateConstructorUsedError;\n"@ + "}\n\n"@ + "/// @nodoc\n"@ + "abstract class $"@ + n + "CopyWith<$Res> {\n"@ + "  factory $"@ + n + "CopyWith("@ + n + " value, $Res Function("@, o1 + "\n"@ + "  /// Serializes this "@ + n + " to a JSON map.\n"@ + "  Map<String, dynamic> toJson() => throw _privateConstructorUsedError;\n\n"@ + "  /// Create a copy of "@ + n + "\n"@ + "  /// with the given fields replaced by the non-null parameter values.\n"@ + "  @JsonKey(includeFromJson: false, includeToJson: false)\n"@ + "  $"@ + n + "CopyWith<"@ + n + "> get copyWith => throw _privateConstructorUsedError;\n"@ + "}\n\n"@ + "/// @nodoc\n"@ + "abstract class $"@ + n + "CopyWith<$Res> {\n"@ + "  factory $"@ + n + "CopyWith("@ + n + " value, $Res Function("@ + n);
    lemma_keeps_add(o1 + "\n"@ + "  /// Serializes this "@ + n + " to a JSON map.\n"@ + "  Map<String, dynamic> toJson() => throw _privateConstructorUsedError;\n\n"@ + "  /// Create a copy of "@ + n + "\n"@ + "  /// with the given fields replaced by the non-null parameter values.\n"@ + "  @JsonKey(includeFromJson: false, includeToJson: false)\n"@ + "  $"@ + n + "CopyWith<"@ + n + "> get copyWith => throw _privateConstructorUsedError;\n"@ + "}\n\n"@ + "/// @nodoc\n"@ + "abstract class $"@ + n + "CopyWith<$Res> {\n"@ + "  factory $"@ + n + "CopyWith("@ + n + " value, $Res Function("@ + n, ") then) =\n"@);
    lemma_keeps_trans(o1, o1 + "\n"@ + "  /// Serializes this "@ + n + " to a JSON map.\n"@ + "  Map<String, dynamic> toJson() => throw _privateConstructorUsedError;\n\n"@ + "  /// Create a copy of "@ + n + "\n"@ + "  /// with the given fields replaced by the non-null parameter values.\n"@ + "  @JsonKey(includeFromJson: false, includeToJson: false)\n"@ + "  $"@ + n + "CopyWith<"@ + n + "> get copyWith => throw _privateConstructorUsedError;\n"@ + "}\n\n"@ + "/// @nodoc\n"@ + "abstract class $"@ + n + "CopyWith<$Res> {\n"@ + "  factory $"@ + n + "CopyWith("@ + n + " value, $Res Function("@ + n, o1 + "\n"@ + "  /// Serializes this "@ + n + " to a JSON map.\n"@ + "  Map<String, dynamic> toJson() => throw _privateConstructorUsedError;\n\n"@ + "  /// Create a copy of "@ + n + "\n"@ + "  /// with the given fields replaced by the non-null parameter values.\n"@ + "  @JsonKey(includeFromJson: false, includeToJson: false)\n"@ + "  $"@ + n + "CopyWith<"@ + n + "> get copyWith => throw _privateConstructorUsedError;\n"@ + "}\n\n"@ + "/// @nodoc\n"@ + "abstract class $"@ + n + "CopyWith<$Res> {\n"@ + "  factory $"@ + n + "CopyWith("@ + n + " value, $Res Function("@ + n + ") then) =\n"@);
    lemma_keeps_add(o1 + "\n"@ + "  /// Serializes this "@ + n + " to a JSON map.\n"@ + "  Map<String, dynamic> toJson() => throw _privateConstructorUsedError;\n\n"@ + "  /// Create a copy of "@ + n + "\n"@ + "  /// with the given fields replaced by the non-null parameter values.\n"@ + "  @JsonKey(includeFromJson: false, includeToJson: false)\n"@ + "  $"@ + n + "CopyWith<"@ + n + "> get copyWith => throw _privateConstructorUsedError;\n"@ + "}\n\n"@ + "/// @nodoc\n"@ + "abstract class $"@ + n + "CopyWith<$Res> {\n"@ + "  factory $"@ + n + "CopyWith("@ + n + " value, $Res Function("@ + n + ") then) =\n"@, "      _$"@);
    lemma_keeps_trans(o1, o1 + "\n"@ + "  /// Serializes this "@ + n + " to a JSON map.\n"@ + "  Map<String, dynamic> toJson() => throw _privateConstructorUsedError;\n\n"@ + "  /// Create a copy of "@ + n + "\n"@ + "  /// with the given fields replaced by the non-null parameter values.\n"@ + "  @JsonKey(includeFromJson: false, includeToJson: false)\n"@ + "  $"@ + n + "CopyWith<"@ + n + "> get copyWith => throw _privateConstructorUsedError;\n"@ + "}\n\n"@ + "/// @nodoc\n"@ + "abstract class $"@ + n + "CopyWith<$Res> {\n"@ + "  factory $"@ + n + "CopyWith("@ + n + " value, $Res Function("@ + n + ") then) =\n"@, o1 + "\n"@ + "  /// Serializes this "@ + n + " to a JSON map.\n"@ + "  Map<String, dynamic> toJson() => throw _privateConstructorUsedError;\n\n"@ + "  /// Create a copy of "@ + n + "\n"@ + "  /// with the given fields replaced by the non-null parameter values.\n"@ + "  @JsonKey(includeFromJson: false, includeToJson: false)\n"@ + "  $"@ + n + "CopyWith<"@ + n + "> get copyWith => throw _privateConstructorUsedError;\n"@ + "}\n\n"@ + "/// @nodoc\n"@ + "abstract class $"@ + n + "CopyWith<$Res> {\n"@ + "  factory $"@ + n + "CopyWith("@ + n + " value, $Res Function("@ + n + ") then) =\n"@ + "      _$"@);
    lemma_keeps_add(o1 + "\n"@ + "  /// Serializes this "@ + n + " to a JSON map.\n"@ + "  Map<String, dynamic> toJson() => throw _privateConstructorUsedError;\n\n"@ + "  /// Create a copy of "@ + n + "\n"@ + "  /// with the given fields replaced by the non-null parameter values.\n"@ + "  @JsonKey(includeFromJson: false, includeToJson: false)\n"@ + "  $"@ + n + "CopyWith<"@ + n + "> get copyWith => throw _privateConstructorUsedError;\n"@ + "}\n\n"@ + "/// @nodoc\n"@ + "abstract class $"@ + n + "CopyWith<$Res> {\n"@ + "  factory $"@ + n + "CopyWith("@ + n + " value, $Res Function("@ + n + ") then) =\n"@ + "      _$"@, n);
    lemma_keeps_trans(o1, o1 + "\n"@ + "  /// Serializes this "@ + n + " to a JSON map.\n"@ + "  Map<String, dynamic> toJson() => throw _privateConstructorUsedError;\n\n"@ + "  /// Create a copy of "@ + n + "\n"@ + "  /// with the given fields replaced by the non-null parameter values.\n"@ + "  @JsonKey(includeFromJson: false, includeToJson: false)\n"@ + "  $"@ + n + "CopyWith<"@ + n + "> get copyWith => throw _privateConstructorUsedError;\n"@ + "}\n\n"@ + "/// @nodoc\n"@ + "abstract class $"@ + n + "CopyWith<$Res> {\n"@ + "  factory $"@ + n + "CopyWith("@ + n + " value, $Res Function("@ + n + ") then) =\n"@ + "      _$"@, o1 + "\n"@ + "  /// Serializes this "@ + n + " to a JSON map.\n"@ + "  Map<String, dynamic> toJson() => throw _privateConstructorUsedError;\n\n"@ + "  /// Create a copy of "@ + n + "\n"@ + "  /// with the given fields replaced by the non-null parameter values.\n"@ + "  @JsonKey(includeFromJson: false, includeToJson: false)\n"@ + "  $"@ + n + "CopyWith<"@ + n + "> get copyWith => throw _privateConstructorUsedError;\n"@ + "}\n\n"@ + "/// @nodoc\n"@ + "abstract class $"@ + n + "CopyWith<$Res> {\n"@ + "  factory $"@ + n + "CopyWith("@ + n + " value, $Res Function("@ + n + ") then) =\n"@ + "      _$"@ + n);
    lemma_keeps_add(o1 + "\n"@ + "  /// Serializes this "@ + n + " to a JSON map.\n"@ + "  Map<String, dynamic> toJson() => throw _privateConstructorUsedError;\n\n"@ + "  /// Create a copy of "@ + n + "\n"@ + "  /// with the given fields replaced by the non-null parameter values.\n"@ + "  @JsonKey(includeFromJson: false, includeToJson: false)\n"@ + "  $"@ + n + "CopyWith<"@ + n + "> get copyWith => throw _privateConstructorUsedError;\n"@ + "}\n\n"@ + "/// @nodoc\n"@ + "abstract class $"@ + n + "CopyWith<$Res> {\n"@ + "  factory $"@ + n + "CopyWith("@ + n + " value, $Res Function("@ + n + ") then) =\n"@ + "      _$"@ + n, "CopyWithImpl<$Res, "@);
    lemma_keeps_trans(o1, o1 + "\n"@ + "  /// Serializes this "@ + n + " to a JSON map.\n"@ + "  Map<String, dynamic> toJson() => throw _privateConstructorUsedError;\n\n"@ + "  /// Create a copy of "@ + n + "\n"@ + "  /// with the given fields replaced by the non-null parameter values.\n"@ + "  @JsonKey(includeFromJson: false, includeToJson: false)\n"@ + "  $"@ + n + "CopyWith<"@ + n + "> get copyWith => throw _privateConstructorUsedError;\n"@ + "}\n\n"@ + "/// @nodoc\n"@ + "abstract class $"@ + n + "CopyWith<$Res> {\n"@ + "  factory $"@ + n + "CopyWith("@ + n + " value, $Res Function("@ + n + ") then) =\n"@ + "      _$"@ + n, o1 + "\n"@ + "  /// Serializes this "@ + n + " to a JSON map.\n"@ + "  Map<String, dynamic> toJson() => throw _privateConstructorUsedError;\n\n"@ + "  /// Create a copy of "@ + n + "\n"@ + "  /// with the given fields replaced by the non-null parameter values.\n"@ + "  @JsonKey(includeFromJson: false, includeToJson: false)\n"@ + "  $"@ + n + "CopyWith<"@ + n + "> get copyWith => throw _privateConstructorUsedError;\n"@ + "}\n\n"@ + "/// @nodoc\n"@ + "abstract class $"@ + n + "CopyWith<$Res> {\n"@ + "  factory $"@ + n + "CopyWith("@ + n + " value, $Res Function("@ + n + ") then) =\n"@ + "      _$"@ + n + "CopyWithImpl<$Res, "@);
    lemma_keeps_add(o1 + "\n"@ + "  /// Serializes this "@ + n + " to a JSON map.\n"@ + "  Map<String, dynamic> toJson() => throw _privateConstructorUsedError;\n\n"@ + "  /// Create a copy of "@ + n + "\n"@ + "  /// with the given fields replaced by the non-null parameter values.\n"@ + "  @JsonKey(includeFromJson: false, includeToJson: false)\n"@ + "  $"@ + n + "CopyWith<"@ + n + "> get copyWith => throw _privateConstructorUsedError;\n"@ + "}\n\n"@ + "/// @nodoc\n"@ + "abstract class $"@ + n + "CopyWith<$Res> {\n"@ + "  factory $"@ + n + "CopyWith("@ + n + " value, $Res Function("@ + n + ") then) =\n"@ + "      _$"@ + n + "CopyWithImpl<$Res, "@, n);
    lemma_keeps_trans(o1, o1 + "\n"@ + "  /// Serializes this "@ + n + " to a JSON map.\n"@ + "  Map<String, dynamic> toJson() => throw _privateConstructorUsedError;\n\n"@ + "  /// Create a copy of "@ + n + "\n"@ + "  /// with the given fields replaced by the non-null parameter values.\n"@ + "  @JsonKey(includeFromJson: false, includeToJson: false)\n"@ + "  $"@ + n + "CopyWith<"@ + n + "> get copyWith => throw _privateConstructorUsedError;\n"@ + "}\n\n"@ + "/// @nodoc\n"@ + "abstract class $"@ + n + "CopyWith<$Res> {\n"@ + "  factory $"@ + n + "CopyWith("@ + n + " value, $Res Function("@ + n + ") then) =\n"@ + "      _$"@ + n + "CopyWithImpl<$Res, "@, o1 + "\n"@ + "  /// Serializes this "@ + n + " to a JSON map.\n"@ + "  Map<String, dynamic> toJson() => throw _privateConstructorUsedError;\n\n"@ + "  /// Create a copy of "@ + n + "\n"@ + "  /// with the given fields replaced by the non-null parameter values.\n"@ + "  @JsonKey(includeFromJson: false, includeToJson: false)\n"@ + "  $"@ + n + "CopyWith<"@ + n + "> get copyWith => throw _privateConstructorUsedError;\n"@ + "}\n\n"@ + "/// @nodoc\n"@ + "abstract class $"@ + n + "CopyWith<$Res> {\n"@ + "  factory $"@ + n + "CopyWith("@ + n + " value, $Res Function("@ + n + ") then) =\n"@ + "      _$"@ + n + "CopyWithImpl<$Res, "@ + n);
    lemma_keeps_add(o1 + "\n"@ + "  /// Serializes this "@ + n + " to a JSON map.\n"@ + "  Map<String, dynamic> toJson() => throw _privateConstructorUsedError;\n\n"@ + "  /// Create a copy of "@ + n + "\n"@ + "  /// with the given fields replaced by the non-null parameter values.\n"@ + "  @JsonKey(includeFromJson: false, includeToJson: false)\n"@ + "  $"@ + n + "CopyWith<"@ + n + "> get copyWith => throw _privateConstructorUsedError;\n"@ + "}\n\n"@ + "/// @nodoc\n"@ + "abstract class $"@ + n + "CopyWith<$Res> {\n"@ + "  factory $"@ + n + "CopyWith("@ + n + " value, $Res Function("@ + n + ") then) =\n"@ + "      _$"@ + n + "CopyWithImpl<$Res, "@ + n, ">;\n"@);
    lemma_keeps_trans(o1, o1 + "\n"@ + "  /// Serializes this "@ + n + " to a JSON map.\n"@ + "  Map<String, dynamic> toJson() => throw _privateConstructorUsedError;\n\n"@ + "  /// Create a copy of "@ + n + "\n"@ + "  /// with the given fields replaced by the non-null parameter values.\n"@ + "  @JsonKey(includeFromJson: false, includeToJson: false)\n"@ + "  $"@ + n + "CopyWith<"@ + n + "> get copyWith => throw _privateConstructorUsedError;\n"@ + "}\n\n"@ + "/// @nodoc\n"@ + "abstract class $"@ + n + "CopyWith<$Res> {\n"@ + "  factory $"@ + n + "CopyWith("@ + n + " value, $Res Function("@ + n + ") then) =\n"@ + "      _$"@ + n + "CopyWithImpl<$Res, "@ + n, o1 + "\n"@ + "  /// Serializes this "@ + n + " to a JSON map.\n"@ + "  Map<String, dynamic> toJson() => throw _privateConstructorUsedError;\n\n"@ + "  /// Create a copy of "@ + n + "\n"@ + "  /// with the given fields replaced by the non-null parameter values.\n"@ + "  @JsonKey(includeFromJson: false, includeToJson: false)\n"@ + "  $"@ + n + "CopyWith<"@ + n + "> get copyWith => throw _privateConstructorUsedError;\n"@ + "}\n\n"@ + "/// @nodoc\n"@ + "abstract class $"@ + n + "CopyWith<$Res> {\n"@ + "  factory $"@ + n + "CopyWith("@ + n + " value, $Res Function("@ + n + ") then) =\n"@ + "      _$"@ + n + "CopyWithImpl<$Res, "@ + n + ">;\n"@);
    lemma_keeps_add(o1 + "\n"@ + "  /// Serializes this "@ + n + " to a JSON map.\n"@ + "  Map<String, dynamic> toJson() => throw _privateConstructorUsedError;\n\n"@ + "  /// Create a copy of "@ + n + "\n"@ + "  /// with the given fields replaced by the non-null parameter values.\n"@ + "  @JsonKey(includeFromJson: false, includeToJson: false)\n"@ + "  $"@ + n + "CopyWith<"@ + n + "> get copyWith => throw _privateConstructorUsedError;\n"@ + "}\n\n"@ + "/// @nodoc\n"@ + "abstract class $"@ + n + "CopyWith<$Res> {\n"@ + "  factory $"@ + n + "CopyWith("@ + n + " value, $Res Function("@ + n + ") then) =\n"@ + "      _$"@ + n + "CopyWithImpl<$Res, "@ + n + ">;\n"@, "  @useResult\n"@);
    lemma_keeps_trans(o1, o1 + "\n"@ + "  /// Serializes this "@ + n + " to a JSON map.\n"@ + "  Map<String, dynamic> toJson() => throw _privateConstructorUsedError;\n\n"@ + "  /// Create a copy of "@ + n + "\n"@ + "  /// with the given fields replaced by the non-null parameter values.\n"@ + "  @JsonKey(includeFromJson: false, includeToJson: false)\n"@ + "  $"@ + n + "CopyWith<"@ + n + "> get copyWith => throw _privateConstructorUsedError;\n"@ + "}\n\n"@ + "/// @nodoc\n"@ + "abstract class $"@ + n + "CopyWith<$Res> {\n"@ + "  factory $"@ + n + "CopyWith("@ + n + " value, $Res Function("@ + n + ") then) =\n"@ + "      _$"@ + n + "CopyWithImpl<$Res, "@ + n + ">;\n"@, o1 + "\n"@ + "  /// Serializes this "@ + n + " to a JSON map.\n"@ + "  Map<String, dynamic> toJson() => throw _privateConstructorUsedError;\n\n"@ + "  /// Create a copy of "@ + n + "\n"@ + "  /// with the given fields replaced by the non-null parameter values.\n"@ + "  @JsonKey(includeFromJson: false, includeToJson: false)\n"@ + "  $"@ + n + "CopyWith<"@ + n + "> get copyWith => throw _privateConstructorUsedError;\n"@ + "}\n\n"@ + "/// @nodoc\n"@ + "abstract class $"@ + n + "CopyWith<$Res> {\n"@ + "  factory $"@ + n + "CopyWith("@ + n + " value, $Res Function("@ + n + ") then) =\n"@ + "      _$"@ + n + "CopyWithImpl<$Res, "@ + n + ">;\n"@ + "  @useResult\n"@);
    lemma_keeps_add(o1 + "\n"@ + "  /// Serializes this "@ + n + " to a JSON map.\n"@ + "  Map<String, dynamic> toJson() => throw _privateConstructorUsedError;\n\n"@ + "  /// Create a copy of "@ + n + "\n"@ + "  /// with the given fields replaced by the non-null parameter values.\n"@ + "  @JsonKey(includeFromJson: false, includeToJson: false)\n"@ + "  $"@ + n + "CopyWith<"@ + n + "> get copyWith => throw _privateConstructorUsedError;\n"@ + "}\n\n"@ + "/// @nodoc\n"@ + "abstract class $"@ + n + "CopyWith<$Res> {\n"@ + "  factory $"@ + n + "CopyWith("@ + n + " value, $Res Function("@ + n + ") then) =\n"@ + "      _$"@ + n + "CopyWithImpl<$Res, "@ + n + ">;\n"@ + "  @useResult\n"@, "  $Res call({"@);
    lemma_keeps_trans(o1, o1 + "\n"@ + "  /// Serializes this "@ + n + " to a JSON map.\n"@ + "  Map<String, dynamic> toJson() => throw _privateConstructorUsedError;\n\n"@ + "  /// Create a copy of "@ + n + "\n"@ + "  /// with the given fields replaced by the non-null parameter values.\n"@ + "  @JsonKey(includeFromJson: false, includeToJson: false)\n"@ + "  $"@ + n + "CopyWith<"@ + n + "> get copyWith => throw _privateConstructorUsedError;\n"@ + "}\n\n"@ + "/// @nodoc\n"@ + "abstract class $"@ + n + "CopyWith<$Res> {\n"@ + "  factory $"@ + n + "CopyWith("@ + n + " value, $Res Function("@ + n + ") then) =\n"@ + "      _$"@ + n + "CopyWithImpl<$Res, "@ + n + ">;\n"@ + "  @useResult\n"@, o1 + "\n"@ + "  /// Serializes this "@ + n + " to a JSON map.\n"@ + "  Map<String, dynamic> toJson() => throw _privateConstructorUsedError;\n\n"@ + "  /// Create a copy of "@ + n + "\n"@ + "  /// with the given fields replaced by the non-null parameter values.\n"@ + "  @JsonKey(includeFromJson: false, includeToJson: false)\n"@ + "  $"@ + n + "CopyWith<"@ + n + "> get copyWith => throw _privateConstructorUsedError;\n"@ + "}\n\n"@ + "/// @nodoc\n"@ + "abstract class $"@ + n + "CopyWith<$Res> {\n"@ + "  factory $"@ + n + "CopyWith("@ + n + " value, $Res Function("@ + n + ") then) =\n"@ + "      _$"@ + n + "CopyWithImpl<$Res, "@ + n + ">;\n"@ + "  @useResult\n"@ + "  $Res call({"@);
    lemma_fold_put_keeps(o1 + "\n"@ + "  /// Serializes this "@ + n + " to a JSON map.\n"@ + "  Map<String, dynamic> toJson() => throw _privateConstructorUsedError;\n\n"@ + "  /// Create a copy of "@ + n + "\n"@ + "  /// with the given fields replaced by the non-null parameter values.\n"@ + "  @JsonKey(includeFromJson: false, includeToJson: false)\n"@ + "  $"@ + n + "CopyWith<"@ + n + "> get copyWith => throw _privateConstructorUsedError;\n"@ + "}\n\n"@ + "/// @nodoc\n"@ + "abstract class $"@ + n + "CopyWith<$Res> {\n"@ + "  factory $"@ + n + "CopyWith("@ + n + " value, $Res Function("@ + n + ") then) =\n"@ + "      _$"@ + n + "CopyWithImpl<$Res, "@ + n + ">;\n"@ + "  @useResult\n"@ + "  $Res call({"@, fs, field_piece_fn(FieldPiece::CallParam));
    lemma_keeps_trans(o1, o1 + "\n"@ + "  /// Serializes this "@ + n + " to a JSON map.\n"@ + "  Map<String, dynamic> toJson() => throw _privateConstructorUsedError;\n\n"@ + "  /// Create a copy of "@ + n + "\n"@ + "  /// with the given fields replaced by the non-null parameter values.\n"@ + "  @JsonKey(includeFromJson: false, includeToJson: false)\n"@ + "  $"@ + n + "CopyWith<"@ + n + "> get copyWith => throw _privateConstructorUsedError;\n"@ + "}\n\n"@ + "/// @nodoc\n"@ + "abstract class $"@ + n + "CopyWith<$Res> {\n"@ + "  factory $"@ + n + "CopyWith("@ + n + " value, $Res Function("@ + n + ") then) =\n"@ + "      _$"@ + n + "CopyWithImpl<$Res, "@ + n + ">;\n"@ + "  @useResult\n"@ + "  $Res call({"@, fold_put(o1 + "\n"@ + "  /// Serializes this "@ + n + " to a JSON map.\n"@ + "  Map<String, dynamic> toJson() => throw _privateConstructorUsedError;\n\n"@ + "  /// Create a copy of "@ + n + "\n"@ + "  /// with the given fields replaced by the non-null parameter values.\n"@ + "  @JsonKey(includeFromJson: false, includeToJson: false)\n"@ + "  $"@ + n + "CopyWith<"@ + n + "> get copyWith => throw _privateConstructorUsedError;\n"@ + "}\n\n"@ + "/// @nodoc\n"@ + "abstract class $"@ + n + "CopyWith<$Res> {\n"@ + "  factory $"@ + n + "CopyWith("@ + n + " value, $Res Function("@ + n + ") then) =\n"@ + "      _$"@ + n + "CopyWithImpl<$Res, "@ + n + ">;\n"@ + "  @useResult\n"@ + "  $Res call({"@, fs, field_piece_fn(FieldPiece::CallParam)));
    let o2 = fold_put(o1 + "\n"@ + "  /// Serializes this "@ + n + " to a JSON map.\n"@ + "  Map<String, dynamic> toJson() => throw _privateConstructorUsedError;\n\n"@ + "  /// Create a copy of "@ + n + "\n"@ + "  /// with the given fields replaced by the non-null parameter values.\n"@ + "  @JsonKey(includeFromJson: false, includeToJson: false)\n"@ + "  $"@ + n + "CopyWith<"@ + n + "> get copyWith => throw _privateConstructorUsedError;\n"@ + "}\n\n"@ + "/// @nodoc\n"@ + "abstract class $"@ + n + "CopyWith<$Res> {\n"@ + "  factory $"@ + n + "CopyWith("@ + n + " value, $Res Function("@ + n + ") then) =\n"@ + "      _$"@ + n + "CopyWithImpl<$Res, "@ + n + ">;\n"@ + "  @useResult\n"@ + "  $Res call({"@, fs, field_piece_fn(FieldPiece::CallParam));
    assert(keeps(o1, o2));
    lemma_keeps_add(o2, "\n  });\n"@);
    lemma_keeps_trans(o1, o2, o2 + "\n  });\n"@);
    lemma_keeps_add(o2 + "\n  });\n"@, "}\n\n"@);
    lemma_keeps_trans(o1, o2 + "\n  });\n"@, o2 + "\n  });\n"@ + "}\n\n"@);
    lemma_keeps_add(o2 + "\n  });\n"@ + "}\n\n"@, "/// @nodoc\n"@);
    lemma_keeps_trans(o1, o2 + "\n  });\n"@ + "}\n\n"@, o2 + "\n  });\n"@ + "}\n\n"@ + "/// @nodoc\n"@);
    lemma_keeps_add(o2 + "\n  });\n"@ + "}\n\n"@ + "/// @nodoc\n"@, "class _$"@);
    lemma_keeps_trans(o1, o2 + "\n  });\n"@ + "}\n\n"@ + "/// @nodoc\n"@, o2 + "\n  });\n"@ + "}\n\n"@ + "/// @nodoc\n"@ + "class _$"@);
    lemma_keeps_add(o2 + "\n  });\n"@ + "}\n\n"@ + "/// @nodoc\n"@ + "class _$"@, n);
    lemma_keeps_trans(o1, o2 + "\n  });\n"@ + "}\n\n"@ + "/// @nodoc\n"@ + "class _$"@, o2 + "\n  });\n"@ + "}\n\n"@ + "/// @nodoc\n"@ + "class _$"@ + n);
    lemma_keeps_add(o2 + "\n  });\n"@ + "}\n\n"@ + "/// @nodoc\n"@ + "class _$"@ + n, "CopyWithImpl<$Res, $Val extends "@);
    lemma_keeps_trans(o1, o2 + "\n  });\n"@ + "}\n\n"@ + "/// @nodoc\n"@ + "class _$"@ + n, o2 + "\n  });\n"@ + "}\n\n"@ + "/// @nodoc\n"@ + "class _$"@ + n + "CopyWithImpl<$Res, $Val extends "@);
    lemma_keeps_add(o2 + "\n  });\n"@ + "}\n\n"@ + "/// @nodoc\n"@ + "class _$"@ + n + "CopyWithImpl<$Res, $Val extends "@, n);
    lemma_keeps_trans(o1, o2 + "\n  });\n"@ + "}\n\n"@ + "/// @nodoc\n"@ + "class _$"@ + n + "CopyWithImpl<$Res, $Val extends "@, o2 + "\n  });\n"@ + "}\n\n"@ + "/// @nodoc\n"@ + "class _$"@ + n + "CopyWithImpl<$Res, $Val extends "@ + n);
    lemma_keeps_add(o2 + "\n  });\n"@ + "}\n\n"@ + "/// @nodoc\n"@ + "class _$"@ + n + "CopyWithImpl<$Res, $Val extends "@ + n, ">\n"@);
    lemma_keeps_trans(o1, o2 + "\n  });\n"@ + "}\n\n"@ + "/// @nodoc\n"@ + "class _$"@ + n + "CopyWithImpl<$Res, $Val extends "@ + n, o2 + "\n  });\n"@ + "}\n\n"@ + "/// @nodoc\n"@ + "class _$"@ + n + "CopyWithImpl<$Res, $Val extends "@ + n + ">\n"@);
    lemma_keeps_add(o2 + "\n  });\n"@ + "}\n\n"@ + "/// @nodoc\n"@ + "class _$"@ + n + "CopyWithImpl<$Res, $Val extends "@ + n + ">\n"@, "    implements $"@);
    lemma_keeps_trans(o1, o2 + "\n  });\n"@ + "}\n\n"@ + "/// @nodoc\n"@ + "class _$"@ + n + "CopyWithImpl<$Res, $Val extends "@ + n + ">\n"@, o2 + "\n  });\n"@ + "}\n\n"@ + "/// @nodoc\n"@ + "class _$"@ + n + "CopyWithImpl<$Res, $Val extends "@ + n + ">\n"@ + "    implements $"@);
    lemma_keeps_add(o2 + "\n  });\n"@ + "}\n\n"@ + "/// @nodoc\n"@ + "class _$"@ + n + "CopyWithImpl<$Res, $Val extends "@ + n + ">\n"@ + "    implements $"@, n);
    lemma_keeps_trans(o1, o2 + "\n  });\n"@ + "}\n\n"@ + "/// @nodoc\n"@ + "class _$"@ + n + "CopyWithImpl<$Res, $Val extends "@ + n + ">\n"@ + "    implements $"@, o2 + "\n  });\n"@ + "}\n\n"@ + "/// @nodoc\n"@ + "class _$"@ + n + "CopyWithImpl<$Res, $Val extends "@ + n + ">\n"@ + "    implements $"@ + n);
    lemma_keeps_add(o2 + "\n  });\n"@ + "}\n\n"@ + "/// @nodoc\n"@ + "class _$"@ + n + "CopyWithImpl<$Res, $Val extends "@ + n + ">\n"@ + "    implements $"@ + n, "CopyWith<$Res> {\n"@);
    lemma_keeps_trans(o1, o2 + "\n  });\n"@ + "}\n\n"@ + "/// @nodoc\n"@ + "class _$"@ + n + "CopyWithImpl<$Res, $Val extends "@ + n + ">\n"@ + "    implements $"@ + n, o2 + "\n  });\n"@ + "}\n\n"@ + "/// @nodoc\n"@ + "class _$"@ + n + "CopyWithImpl<$Res, $Val extends "@ + n + ">\n"@ + "    implements $"@ + n + "CopyWith<$Res> {\n"@);
    lemma_keeps_add(o2 + "\n  });\n"@ + "}\n\n"@ + "/// @nodoc\n"@ + "class _$"@ + n + "CopyWithImpl<$Res, $Val extends "@ + n + ">\n"@ + "    implements $"@ + n + "CopyWith<$Res> {\n"@, "  _$"@);
    lemma_keeps_trans(o1, o2 + "\n  });\n"@ + "}\n\n"@ + "/// @nodoc\n"@ + "class _$"@ + n + "CopyWithImpl<$Res, $Val extends "@ + n + ">\n"@ + "    implements $"@ + n + "CopyWith<$Res> {\n"@, o2 + "\n  });\n"@ + "}\n\n"@ + "/// @nodoc\n"@ + "class _$"@ + n + "CopyWithImpl<$Res, $Val extends "@ + n + ">\n"@ + "    implements $"@ + n + "CopyWith<$Res> {\n"@ + "  _$"@);
    lemma_keeps_add(o2 + "\n  });\n"@ + "}\n\n"@ + "/// @nodoc\n"@ + "class _$"@ + n + "CopyWithImpl<$Res, $Val extends "@ + n + ">\n"@ + "    implements $"@ + n + "CopyWith<$Res> {\n"@ + "  _$"@, n);
    lemma_keeps_trans(o1, o2 + "\n  });\n"@ + "}\n\n"@ + "/// @nodoc\n"@ + "class _$"@ + n + "CopyWithImpl<$Res, $Val extends "@ + n + ">\n"@ + "    implements $"@ + n + "CopyWith<$Res> {\n"@ + "  _$"@, o2 + "\n  });\n"@ + "}\n\n"@ + "/// @nodoc\n"@ + "class _$"@ + n + "CopyWithImpl<$Res, $Val extends "@ + n + ">\n"@ + "    implements $"@ + n + "CopyWith<$Res> {\n"@ + "  _$"@ + n);
    lemma_keeps_add(o2 + "\n  });\n"@ + "}\n\n"@ + "/// @nodoc\n"@ + "class _$"@ + n + "CopyWithImpl<$Res, $Val extends "@ + n + ">\n"@ + "    implements $"@ + n + "CopyWith<$Res> {\n"@ + "  _$"@ + n, "CopyWithImpl(this._value, this._then);\n"@);
    lemma_keeps_trans(o1, o2 + "\n  });\n"@ + "}\n\n"@ + "/// @nodoc\n"@ + "class _$"@ + n + "CopyWithImpl<$Res, $Val extends "@ + n + ">\n"@ + "    implements $"@ + n + "CopyWith<$Res> {\n"@ + "  _$"@ + n, o2 + "\n  });\n"@ + "}\n\n"@ + "/// @nodoc\n"@ + "class _$"@ + n + "CopyWithImpl<$Res, $Val extends "@ + n + ">\n"@ + "    implements $"@ + n + "CopyWith<$Res> {\n"@ + "  _$"@ + n + "CopyWithImpl(this._value, this._then);\n"@);
    lemma_keeps_add(o2 + "\n  });\n"@ + "}\n\n"@ + "/// @nodoc\n"@ + "class _$"@ + n + "CopyWithImpl<$Res, $Val extends "@ + n + ">\n"@ + "    implements $"@ + n + "CopyWith<$Res> {\n"@ + "  _$"@ + n + "CopyWithImpl(this._value, this._then);\n"@, "\n"@);
    lemma_keeps_trans(o1, o2 + "\n  });\n"@ + "}\n\n"@ + "/// @nodoc\n"@ + "class _$"@ + n + "CopyWithImpl<$Res, $Val extends "@ + n + ">\n"@ + "    implements $"@ + n + "CopyWith<$Res> {\n"@ + "  _$"@ + n + "CopyWithImpl(this._value, this._then);\n"@, o2 + "\n  });\n"@ + "}\n\n"@ + "/// @nodoc\n"@ + "class _$"@ + n + "CopyWithImpl<$Res, $Val extends "@ + n + ">\n"@ + "    implements $"@ + n + "CopyWith<$Res> {\n"@ + "  _$"@ + n + "CopyWithImpl(this._value, this._then);\n"@ + "\n"@);
    lemma_keeps_add(o2 + "\n  });\n"@ + "}\n\n"@ + "/// @nodoc\n"@ + "class _$"@ + n + "CopyWithImpl<$Res, $Val extends "@ + n + ">\n"@ + "    implements $"@ + n + "CopyWith<$Res> {\n"@ + "  _$"@ + n + "CopyWithImpl(this._value, this._then);\n"@ + "\n"@, "  // ignore: unused_field\n"@);
    lemma_keeps_trans(o1, o2 + "\n  });\n"@ + "}\n\n"@ + "/// @nodoc\n"@ + "class _$"@ + n + "CopyWithImpl<$Res, $Val extends "@ + n + ">\n"@ + "    implements $"@ + n + "CopyWith<$Res> {\n"@ + "  _$"@ + n + "CopyWithImpl(this._value, this._then);\n"@ + "\n"@, o2 + "\n  });\n"@ + "}\n\n"@ + "/// @nodoc\n"@ + "class _$"@ + n + "CopyWithImpl<$Res, $Val extends "@ + n + ">\n"@ + "    implements $"@ + n + "CopyWith<$Res> {\n"@ + "  _$"@ + n + "CopyWithImpl(this._value, this._then);\n"@ + "\n"@ + "  // ignore: unused_field\n"@);
    lemma_keeps_add(o2 + "\n  });\n"@ + "}\n\n"@ + "/// @nodoc\n"@ + "class _$"@ + n + "CopyWithImpl<$Res, $Val extends "@ + n + ">\n"@ + "    implements $"@ + n + "CopyWith<$Res> {\n"@ + "  _$"@ + n + "CopyWithImpl(this._value, this._then);\n"@ + "\n"@ + "  // ignore: unused_field\n"@, "  final $Val _value;\n"@);
    lemma_keeps_trans(o1, o2 + "\n  });\n"@ + "}\n\n"@ + "/// @nodoc\n"@ + "class _$"@ + n + "CopyWithImpl<$Res, $Val extends "@ + n + ">\n"@ + "    implements $"@ + n + "CopyWith<$Res> {\n"@ + "  _$"@ + n + "CopyWithImpl(this._value, this._then);\n"@ + "\n"@ + "  // ignore: unused_field\n"@, o2 + "\n  });\n"@ + "}\n\n"@ + "/// @nodoc\n"@ + "class _$"@ + n + "CopyWithImpl<$Res, $Val extends "@ + n + ">\n"@ + "    implements $"@ + n + "CopyWith<$Res> {\n"@ + "  _$"@ + n + "CopyWithImpl(this._value, this._then);\n"@ + "\n"@ + "  // ignore: unused_field\n"@ + "  final $Val _value;\n"@);
    lemma_keeps_add(o2 + "\n  });\n"@ + "}\n\n"@ + "/// @nodoc\n"@ + "class _$"@ + n + "CopyWithImpl<$Res, $Val extends "@ + n + ">\n"@ + "    implements $"@ + n + "CopyWith<$Res> {\n"@ + "  _$"@ + n + "CopyWithImpl(this._value, this._then);\n"@ + "\n"@ + "  // ignore: unused_field\n"@ + "  final $Val _value;\n"@, "  // ignore: unused_field\n"@);
    lemma_keeps_trans(o1, o2 + "\n  });\n"@ + "}\n\n"@ + "/// @nodoc\n"@ + "class _$"@ + n + "CopyWithImpl<$Res, $Val extends "@ + n + ">\n"@ + "    implements $"@ + n + "CopyWith<$Res> {\n"@ + "  _$"@ + n + "CopyWithImpl(this._value, this._then);\n"@ + "\n"@ + "  // ignore: unused_field\n"@ + "  final $Val _value;\n"@, o2 + "\n  });\n"@ + "}\n\n"@ + "/// @nodoc\n"@ + "class _$"@ + n + "CopyWithImpl<$Res, $Val extends "@ + n + ">\n"@ + "    implements $"@ + n + "CopyWith<$Res> {\n"@ + "  _$"@ + n + "CopyWithImpl(this._value, this._then);\n"@ + "\n"@ + "  // ignore: unused_field\n"@ + "  final $Val _value;\n"@ + "  // ignore: unused_field\n"@);
    lemma_keeps_add(o2 + "\n  });\n"@ + "}\n\n"@ + "/// @nodoc\n"@ + "class _$"@ + n + "CopyWithImpl<$Res, $Val extends "@ + n + ">\n"@ + "    implements $"@ + n + "CopyWith<$Res> {\n"@ + "  _$"@ + n + "CopyWithImpl(this._value, this._then);\n"@ + "\n"@ + "  // ignore: unused_field\n"@ + "  final $Val _value;\n"@ + "  // ignore: unused_field\n"@, "  final $Res Function($Val) _then;\n"@);
    lemma_keeps_trans(o1, o2 + "\n  });\n"@ + "}\n\n"@ + "/// @nodoc\n"@ + "class _$"@ + n + "CopyWithImpl<$Res, $Val extends "@ + n + ">\n"@ + "    implements $"@ + n + "CopyWith<$Res> {\n"@ + "  _$"@ + n + "CopyWithImpl(this._value, this._then);\n"@ + "\n"@ + "  // ignore: unused_field\n"@ + "  final $Val _value;\n"@ + "  // ignore: unused_field\n"@, o2 + "\n  });\n"@ + "}\n\n"@ + "/// @nodoc\n"@ + "class _$"@ + n + "CopyWithImpl<$Res, $Val extends "@ + n + ">\n"@ + "    implements $"@ + n + "CopyWith<$Res> {\n"@ + "  _$"@ + n + "CopyWithImpl(this._value, this._then);\n"@ + "\n"@ + "  // ignore: unused_field\n"@ + "  final $Val _value;\n"@ + "  // ignore: unused_field\n"@ + "  final $Res Function($Val) _then;\n"@);
    lemma_keeps_add(o2 + "\n  });\n"@ + "}\n\n"@ + "/// @nodoc\n"@ + "class _$"@ + n + "CopyWithImpl<$Res, $Val extends "@ + n + ">\n"@ + "    implements $"@ + n + "CopyWith<$Res> {\n"@ + "  _$"@ + n + "CopyWithImpl(this._value, this._then);\n"@ + "\n"@ + "  // ignore: unused_field\n"@ + "  final $Val _value;\n"@ + "  // ignore: unused_field\n"@ + "  final $Res Function($Val) _then;\n"@, "  /// Create a copy of "@);
    lemma_keeps_trans(o1, o2 + "\n  });\n"@ + "}\n\n"@ + "/// @nodoc\n"@ + "class _$"@ + n + "CopyWithImpl<$Res, $Val extends "@ + n + ">\n"@ + "    implements $"@ + n + "CopyWith<$Res> {\n"@ + "  _$"@ + n + "CopyWithImpl(this._value, this._then);\n"@ + "\n"@ + "  // ignore: unused_field\n"@ + "  final $Val _value;\n"@ + "  // ignore: unused_field\n"@ + "  final $Res Function($Val) _then;\n"@, o2 + "\n  });\n"@ + "}\n\n"@ + "/// @nodoc\n"@ + "class _$"@ + n + "CopyWithImpl<$Res, $Val extends "@ + n + ">\n"@ + "    implements $"@ + n + "CopyWith<$Res> {\n"@ + "  _$"@ + n + "CopyWithImpl(this._value, this._then);\n"@ + "\n"@ + "  // ignore: unused_field\n"@ + "  final $Val _value;\n"@ + "  // ignore: unused_field\n"@ + "  final $Res Function($Val) _then;\n"@ + "  /// Create a copy of "@);
    lemma_keeps_add(o2 + "\n  });\n"@ + "}\n\n"@ + "/// @nodoc\n"@ + "class _$"@ + n + "CopyWithImpl<$Res, $Val extends "@ + n + ">\n"@ + "    implements $"@ + n + "CopyWith<$Res> {\n"@ + "  _$"@ + n + "CopyWithImpl(this._value, this._then);\n"@ + "\n"@ + "  // ignore: unused_field\n"@ + "  final $Val _value;\n"@ + "  // ignore: unused_field\n"@ + "  final $Res Function($Val) _then;\n"@ + "  /// Create a copy of "@, n);
    lemma_keeps_trans(o1, o2 + "\n  });\n"@ + "}\n\n"@ + "/// @nodoc\n"@ + "class _$"@ + n + "CopyWithImpl<$Res, $Val extends "@ + n + ">\n"@ + "    implements $"@ + n + "CopyWith<$Res> {\n"@ + "  _$"@ + n + "CopyWithImpl(this._value, this._then);\n"@ + "\n"@ + "  // ignore: unused_field\n"@ + "  final $Val _value;\n"@ + "  // ignore: unused_field\n"@ + "  final $Res Function($Val) _then;\n"@ + "  /// Create a copy of "@, o2 + "\n  });\n"@ + "}\n\n"@ + "/// @nodoc\n"@ + "class _$"@ + n + "CopyWithImpl<$Res, $Val extends "@ + n + ">\n"@ + "    implements $"@ + n + "CopyWith<$Res> {\n"@ + "  _$"@ + n + "CopyWithImpl(this._value, this._then);\n"@ + "\n"@ + "  // ignore: unused_field\n"@ + "  final $Val _value;\n"@ + "  // ignore: unused_field\n"@ + "  final $Res Function($Val) _then;\n"@ + "  /// Create a copy of "@ + n);
    lemma_keeps_add(o2 + "\n  });\n"@ + "}\n\n"@ + "/// @nodoc\n"@ + "class _$"@ + n + "CopyWithImpl<$Res, $Val extends "@ + n + ">\n"@ + "    implements $"@ + n + "CopyWith<$Res> {\n"@ + "  _$"@ + n + "CopyWithImpl(this._value, this._then);\n"@ + "\n"@ + "  // ignore: unused_field\n"@ + "  final $Val _value;\n"@ + "  // ignore: unused_field\n"@ + "  final $Res Function($Val) _then;\n"@ + "  /// Create a copy of "@ + n, "\n"@);
    lemma_keeps_trans(o1, o2 + "\n  });\n"@ + "}\n\n"@ + "/// @nodoc\n"@ + "class _$"@ + n + "CopyWithImpl<$Res, $Val extends "@ + n + ">\n"@ + "    implements $"@ + n + "CopyWith<$Res> {\n"@ + "  _$"@ + n + "CopyWithImpl(this._value, this._then);\n"@ + "\n"@ + "  // ignore: unused_field\n"@ + "  final $Val _value;\n"@ + "  // ignore: unused_field\n"@ + "  final $Res Function($Val) _then;\n"@ + "  /// Create a copy of "@ + n, o2 + "\n  });\n"@ + "}\n\n"@ + "/// @nodoc\n"@ + "class _$"@ + n + "CopyWithImpl<$Res, $Val extends "@ + n + ">\n"@ + "    implements $"@ + n + "CopyWith<$Res> {\n"@ + "  _$"@ + n + "CopyWithImpl(this._value, this._then);\n"@ + "\n"@ + "  // ignore: unused_field\n"@ + "  final $Val _value;\n"@ + "  // ignore: unused_field\n"@ + "  final $Res Function($Val) _then;\n"@ + "  /// Create a copy of "@ + n + "\n"@);
    lemma_keeps_add(o2 + "\n  });\n"@ + "}\n\n"@ + "/// @nodoc\n"@ + "class _$"@ + n + "CopyWithImpl<$Res, $Val extends "@ + n + ">\n"@ + "    implements $"@ + n + "CopyWith<$Res> {\n"@ + "  _$"@ + n + "CopyWithImpl(this._value, this._then);\n"@ + "\n"@ + "  // ignore: unused_field\n"@ + "  final $Val _value;\n"@ + "  // ignore: unused_field\n"@ + "  final $Res Function($Val) _then;\n"@ + "  /// Create a copy of "@ + n + "\n"@, "  /// with the given fields replaced by the non-null parameter values.\n"@);
    lemma_keeps_trans(o1, o2 + "\n  });\n"@ + "}\n\n"@ + "/// @nodoc\n"@ + "class _$"@ + n + "CopyWithImpl<$Res, $Val extends "@ + n + ">\n"@ + "    implements $"@ + n + "CopyWith<$Res> {\n"@ + "  _$"@ + n + "CopyWithImpl(this._value, this._then);\n"@ + "\n"@ + "  // ignore: unused_field\n"@ + "  final $Val _value;\n"@ + "  // ignore: unused_field\n"@ + "  final $Res Function($Val) _then;\n"@ + "  /// Create a copy of "@ + n + "\n"@, o2 + "\n  });\n"@ + "}\n\n"@ + "/// @nodoc\n"@ + "class _$"@ + n + "CopyWithImpl<$Res, $Val extends "@ + n + ">\n"@ + "    implements $"@ + n + "CopyWith<$Res> {\n"@ + "  _$"@ + n + "CopyWithImpl(this._value, this._then);\n"@ + "\n"@ + "  // ignore: unused_field\n"@ + "  final $Val _value;\n"@ + "  // ignore: unused_field\n"@ + "  final $Res Function($Val) _then;\n"@ + "  /// Create a copy of "@ + n + "\n"@ + "  /// with the given fields replaced by the non-null parameter values.\n"@);
    lemma_keeps_add(o2 + "\n  });\n"@ + "}\n\n"@ + "/// @nodoc\n"@ + "class _$"@ + n + "CopyWithImpl<$Res, $Val extends "@ + n + ">\n"@ + "    implements $"@ + n + "CopyWith<$Res> {\n"@ + "  _$"@ + n + "CopyWithImpl(this._value, this._then);\n"@ + "\n"@ + "  // ignore: unused_field\n"@ + "  final $Val _value;\n"@ + "  // ignore: unused_field\n"@ + "  final $Res Function($Val) _then;\n"@ + "  /// Create a copy of "@ + n + "\n"@ + "  /// with the given fields replaced by the non-null parameter values.\n"@, "  @pragma('vm:prefer-inline')\n"@);
    lemma_keeps_trans(o1, o2 + "\n  });\n"@ + "}\n\n"@ + "/// @nodoc\n"@ + "class _$"@ + n + "CopyWithImpl<$Res, $Val extends "@ + n + ">\n"@ + "    implements $"@ + n + "CopyWith<$Res> {\n"@ + "  _$"@ + n + "CopyWithImpl(this._value, this._then);\n"@ + "\n"@ + "  // ignore: unused_field\n"@ + "  final $Val _value;\n"@ + "  // ignore: unused_field\n"@ + "  final $Res Function($Val) _then;\n"@ + "  /// Create a copy of "@ + n + "\n"@ + "  /// with the given fields replaced by the non-null parameter values.\n"@, o2 + "\n  });\n"@ + "}\n\n"@ + "/// @nodoc\n"@ + "class _$"@ + n + "CopyWithImpl<$Res, $Val extends "@ + n + ">\n"@ + "    implements $"@ + n + "CopyWith<$Res> {\n"@ + "  _$"@ + n + "CopyWithImpl(this._value, this._then);\n"@ + "\n"@ + "  // ignore: unused_field\n"@ + "  final $Val _value;\n"@ + "  // ignore: unused_field\n"@ + "  final $Res Function($Val) _then;\n"@ + "  /// Create a copy of "@ + n + "\n"@ + "  /// with the given fields replaced by the non-null parameter values.\n"@ + "  @pragma('vm:prefer-inline')\n"@);
    lemma_keeps_add(o2 + "\n  });\n"@ + "}\n\n"@ + "/// @nodoc\n"@ + "class _$"@ + n + "CopyWithImpl<$Res, $Val extends "@ + n + ">\n"@ + "    implements $"@ + n + "CopyWith<$Res> {\n"@ + "  _$"@ + n + "CopyWithImpl(this._value, this._then);\n"@ + "\n"@ + "  // ignore: unused_field\n"@ + "  final $Val _value;\n"@ + "  // ignore: unused_field\n"@ + "  final $Res Function($Val) _then;\n"@ + "  /// Create a copy of "@ + n + "\n"@ + "  /// with the given fields replaced by the non-null parameter values.\n"@ + "  @pragma('vm:prefer-inline')\n"@, "  @override\n"@);
    lemma_keeps_trans(o1, o2 + "\n  });\n"@ + "}\n\n"@ + "/// @nodoc\n"@ + "class _$"@ + n + "CopyWithImpl<$Res, $Val extends "@ + n + ">\n"@ + "    implements $"@ + n + "CopyWith<$Res> {\n"@ + "  _$"@ + n + "CopyWithImpl(this._value, this._then);\n"@ + "\n"@ + "  // ignore: unused_field\n"@ + "  final $Val _value;\n"@ + "  // ignore: unused_field\n"@ + "  final $Res Function($Val) _then;\n"@ + "  /// Create a copy of "@ + n + "\n"@ + "  /// with the given fields replaced by the non-null parameter values.\n"@ + "  @pragma('vm:prefer-inline')\n"@, o2 + "\n  });\n"@ + "}\n\n"@ + "/// @nodoc\n"@ + "class _$"@ + n + "CopyWithImpl<$Res, $Val extends "@ + n + ">\n"@ + "    implements $"@ + n + "CopyWith<$Res> {\n"@ + "  _$"@ + n + "CopyWithImpl(this._value, this._then);\n"@ + "\n"@ + "  // ignore: unused_field\n"@ + "  final $Val _value;\n"@ + "  // ignore: unused_field\n"@ + "  final $Res Function($Val) _then;\n"@ + "  /// Create a copy of "@ + n + "\n"@ + "  /// with the given fields replaced by the non-null parameter values.\n"@ + "  @pragma('vm:prefer-inline')\n"@ + "  @override\n"@);
    lemma_keeps_add(o2 + "\n  });\n"@ + "}\n\n"@ + "/// @nodoc\n"@ + "class _$"@ + n + "CopyWithImpl<$Res, $Val extends "@ + n + ">\n"@ + "    implements $"@ + n + "CopyWith<$Res> {\n"@ + "  _$"@ + n + "CopyWithImpl(this._value, this._then);\n"@ + "\n"@ + "  // ignore: unused_field\n"@ + "  final $Val _value;\n"@ + "  // ignore: unused_field\n"@ + "  final $Res Function($Val) _then;\n"@ + "  /// Create a copy of "@ + n + "\n"@ + "  /// with the given fields replaced by the non-null parameter values.\n"@ + "  @pragma('vm:prefer-inline')\n"@ + "  @override\n"@, "  $Res call({"@);
    lemma_keeps_trans(o1, o2 + "\n  });\n"@ + "}\n\n"@ + "/// @nodoc\n"@ + "class _$"@ + n + "CopyWithImpl<$Res, $Val extends "@ + n + ">\n"@ + "    implements $"@ + n + "CopyWith<$Res> {\n"@ + "  _$"@ + n + "CopyWithImpl(this._value, this._then);\n"@ + "\n"@ + "  // ignore: unused_field\n"@ + "  final $Val _value;\n"@ + "  // ignore: unused_field\n"@ + "  final $Res Function($Val) _then;\n"@ + "  /// Create a copy of "@ + n + "\n"@ + "  /// with the given fields replaced by the non-null parameter values.\n"@ + "  @pragma('vm:prefer-inline')\n"@ + "  @override\n"@, o2 + "\n  });\n"@ + "}\n\n"@ + "/// @nodoc\n"@ + "class _$"@ + n + "CopyWithImpl<$Res, $Val extends "@ + n + ">\n"@ + "    implements $"@ + n + "CopyWith<$Res> {\n"@ + "  _$"@ + n + "CopyWithImpl(this._value, this._then);\n"@ + "\n"@ + "  // ignore: unused_field\n"@ + "  final $Val _value;\n"@ + "  // ignore: unused_field\n"@ + "  final $Res Function($Val) _then;\n"@ + "  /// Create a copy of "@ + n + "\n"@ + "  /// with the given fields replaced by the non-null parameter values.\n"@ + "  @pragma('vm:prefer-inline')\n"@ + "  @override\n"@ + "  $Res call({"@);
    lemma_fold_put_keeps(o2 + "\n  });\n"@ + "}\n\n"@ + "/// @nodoc\n"@ + "class _$"@ + n + "CopyWithImpl<$Res, $Val extends "@ + n + ">\n"@ + "    implements $"@ + n + "CopyWith<$Res> {\n"@ + "  _$"@ + n + "CopyWithImpl(this._value, this._then);\n"@ + "\n"@ + "  // ignore: unused_field\n"@ + "  final $Val _value;\n"@ + "  // ignore: unused_field\n"@ + "  final $Res Function($Val) _then;\n"@ + "  /// Create a copy of "@ + n + "\n"@ + "  /// with the given fields replaced by the non-null parameter values.\n"@ + "  @pragma('vm:prefer-inline')\n"@ + "  @override\n"@ + "  $Res call({"@, fs, field_piece_fn(FieldPiece::ObjectParam));
    lemma_keeps_trans(o1, o2 + "\n  });\n"@ + "}\n\n"@ + "/// @nodoc\n"@ + "class _$"@ + n + "CopyWithImpl<$Res, $Val extends "@ + n + ">\n"@ + "    implements $"@ + n + "CopyWith<$Res> {\n"@ + "  _$"@ + n + "CopyWithImpl(this._value, this._then);\n"@ + "\n"@ + "  // ignore: unused_field\n"@ + "  final $Val _value;\n"@ + "  // ignore: unused_field\n"@ + "  final $Res Function($Val) _then;\n"@ + "  /// Create a copy of "@ + n + "\n"@ + "  /// with the given fields replaced by the non-null parameter values.\n"@ + "  @pragma('vm:prefer-inline')\n"@ + "  @override\n"@ + "  $Res call({"@, fold_put(o2 + "\n  });\n"@ + "}\n\n"@ + "/// @nodoc\n"@ + "class _$"@ + n + "CopyWithImpl<$Res, $Val extends "@ + n + ">\n"@ + "    implements $"@ + n + "CopyWith<$Res> {\n"@ + "  _$"@ + n + "CopyWithImpl(this._value, this._then);\n"@ + "\n"@ + "  // ignore: unused_field\n"@ + "  final $Val _value;\n"@ + "  // ignore: unused_field\n"@ + "  final $Res Function($Val) _then;\n"@ + "  /// Create a copy of "@ + n + "\n"@ + "  /// with the given fields replaced by the non-null parameter values.\n"@ + "  @pragma('vm:prefer-inline')\n"@ + "  @override\n"@ + "  $Res call({"@, fs, field_piece_fn(FieldPiece::ObjectParam)));
    let o3 = fold_put(o2 + "\n  });\n"@ + "}\n\n"@ + "/// @nodoc\n"@ + "class _$"@ + n + "CopyWithImpl<$Res, $Val extends "@ + n + ">\n"@ + "    implements $"@ + n + "CopyWith<$Res> {\n"@ + "  _$"@ + n + "CopyWithImpl(this._value, this._then);\n"@ + "\n"@ + "  // ignore: unused_field\n"@ + "  final $Val _value;\n"@ + "  // ignore: unused_field\n"@ + "  final $Res Function($Val) _then;\n"@ + "  /// Create a copy of "@ + n + "\n"@ + "  /// with the given fields replaced by the non-null parameter values.\n"@ + "  @pragma('vm:prefer-inline')\n"@ + "  @override\n"@ + "  $Res call({"@, fs, field_piece_fn(FieldPiece::ObjectParam));
    assert(keeps(o1, o3));
    lemma_keeps_add(o3, "\n  }) {\n"@);
    lemma_keeps_trans(o1, o3, o3 + "\n  }) {\n"@);
    lemma_keeps_add(o3 + "\n  }) {\n"@, "    return _then(_value.copyWith(\n"@);
    lemma_keeps_trans(o1, o3 + "\n  }) {\n"@, o3 + "\n  }) {\n"@ + "    return _then(_value.copyWith(\n"@);
    lemma_fold_put_keeps(o3 + "\n  }) {\n"@ + "    return _then(_value.copyWith(\n"@, fs, field_piece_fn(FieldPiece::CopyAssign));
    lemma_keeps_trans(o1, o3 + "\n  }) {\n"@ + "    return _then(_value.copyWith(\n"@, fold_put(o3 + "\n  }) {\n"@ + "    return _then(_value.copyWith(\n"@, fs, field_piece_fn(FieldPiece::CopyAssign)));
    let o4 = fold_put(o3 + "\n  }) {\n"@ + "    return _then(_value.copyWith(\n"@, fs, field_piece_fn(FieldPiece::CopyAssign));
    assert(keeps(o1, o4));
    lemma_keeps_add(o4, "    ) as $Val);\n"@);
    lemma_keeps_trans(o1, o4, o4 + "    ) as $Val);\n"@);
    lemma_keeps_add(o4 + "    ) as $Val);\n"@, "  }\n"@);
    lemma_keeps_trans(o1, o4 + "    ) as $Val);\n"@, o4 + "    ) as $Val);\n"@ + "  }\n"@);
    lemma_keeps_add(o4 + "    ) as $Val);\n"@ + "  }\n"@, "}\n\n"@);
    lemma_keeps_trans(o1, o4 + "    ) as $Val);\n"@ + "  }\n"@, o4 + "    ) as $Val);\n"@ + "  }\n"@ + "}\n\n"@);
    lemma_keeps_add(o4 + "    ) as $Val);\n"@ + "  }\n"@ + "}\n\n"@, "/// @nodoc\n"@);
    lemma_keeps_trans(o1, o4 + "    ) as $Val);\n"@ + "  }\n"@ + "}\n\n"@, o4 + "    ) as $Val);\n"@ + "  }\n"@ + "}\n\n"@ + "/// @nodoc\n"@);
    lemma_keeps_add(o4 + "    ) as $Val);\n"@ + "  }\n"@ + "}\n\n"@ + "/// @nodoc\n"@, "abstract class _$$$"@);
    lemma_keeps_trans(o1, o4 + "    ) as $Val);\n"@ + "  }\n"@ + "}\n\n"@ + "/// @nodoc\n"@, o4 + "    ) as $Val);\n"@ + "  }\n"@ + "}\n\n"@ + "/// @nodoc\n"@ + "abstract class _$$$"@);
    lemma_keeps_add(o4 + "    ) as $Val);\n"@ + "  }\n"@ + "}\n\n"@ + "/// @nodoc\n"@ + "abstract class _$$$"@, n);
    lemma_keeps_trans(o1, o4 + "    ) as $Val);\n"@ + "  }\n"@ + "}\n\n"@ + "/// @nodoc\n"@ + "abstract class _$$$"@, o4 + "    ) as $Val);\n"@ + "  }\n"@ + "}\n\n"@ + "/// @nodoc\n"@ + "abstract class _$$$"@ + n);
    lemma_keeps_add(o4 + "    ) as $Val);\n"@ + "  }\n"@ + "}\n\n"@ + "/// @nodoc\n"@ + "abstract class _$$$"@ + n, "ImplImplCopyWith<$Res> implements $"@);
    lemma_keeps_trans(o1, o4 + "    ) as $Val);\n"@ + "  }\n"@ + "}\n\n"@ + "/// @nodoc\n"@ + "abstract class _$$$"@ + n, o4 + "    ) as $Val);\n"@ + "  }\n"@ + "}\n\n"@ + "/// @nodoc\n"@ + "abstract class _$$$"@ + n + "ImplImplCopyWith<$Res> implements $"@);
    lemma_keeps_add(o4 + "    ) as $Val);\n"@ + "  }\n"@ + "}\n\n"@ + "/// @nodoc\n"@ + "abstract class _$$$"@ + n + "ImplImplCopyWith<$Res> implements $"@, n);
    lemma_keeps_trans(o1, o4 + "    ) as $Val);\n"@ + "  }\n"@ + "}\n\n"@ + "/// @nodoc\n"@ + "abstract class _$$$"@ + n + "ImplImplCopyWith<$Res> implements $"@, o4 + "    ) as $Val);\n"@ + "  }\n"@ + "}\n\n"@ + "/// @nodoc\n"@ + "abstract class _$$$"@ + n + "ImplImplCopyWith<$Res> implements $"@ + n);
    lemma_keeps_add(o4 + "    ) as $Val);\n"@ + "  }\n"@ + "}\n\n"@ + "/// @nodoc\n"@ + "abstract class _$$$"@ + n + "ImplImplCopyWith<$Res> implements $"@ + n, "CopyWith<$Res> {\n"@);
    lemma_keeps_trans(o1, o4 + "    ) as $Val);\n"@ + "  }\n"@ + "}\n\n"@ + "/// @nodoc\n"@ + "abstract class _$$$"@ + n + "ImplImplCopyWith<$Res> implements $"@ + n, o4 + "    ) as $Val);\n"@ + "  }\n"@ + "}\n\n"@ + "/// @nodoc\n"@ + "abstract class _$$$"@ + n + "ImplImplCopyWith<$Res> implements $"@ + n + "CopyWith<$Res> {\n"@);
    lemma_keeps_add(o4 + "    ) as $Val);\n"@ + "  }\n"@ + "}\n\n"@ + "/// @nodoc\n"@ + "abstract class _$$$"@ + n + "ImplImplCopyWith<$Res> implements $"@ + n + "CopyWith<$Res> {\n"@, "  factory _$$$"@);
    lemma_keeps_trans(o1, o4 + "    ) as $Val);\n"@ + "  }\n"@ + "}\n\n"@ + "/// @nodoc\n"@ + "abstract class _$$$"@ + n + "ImplImplCopyWith<$Res> implements $"@ + n + "CopyWith<$Res> {\n"@, o4 + "    ) as $Val);\n"@ + "  }\n"@ + "}\n\n"@ + "/// @nodoc\n"@ + "abstract class _$$$"@ + n + "ImplImplCopyWith<$Res> implements $"@ + n + "CopyWith<$Res> {\n"@ + "  factory _$$$"@);
    lemma_keeps_add(o4 + "    ) as $Val);\n"@ + "  }\n"@ + "}\n\n"@ + "/// @nodoc\n"@ + "abstract class _$$$"@ + n + "ImplImplCopyWith<$Res> implements $"@ + n + "CopyWith<$Res> {\n"@ + "  factory _$$$"@, n);
    lemma_keeps_trans(o1, o4 + "    ) as $Val);\n"@ + "  }\n"@ + "}\n\n"@ + "/// @nodoc\n"@ + "abstract class _$$$"@ + n + "ImplImplCopyWith<$Res> implements $"@ + n + "CopyWith<$Res> {\n"@ + "  factory _$$$"@, o4 + "    ) as $Val);\n"@ + "  }\n"@ + "}\n\n"@ + "/// @nodoc\n"@ + "abstract class _$$$"@ + n + "ImplImplCopyWith<$Res> implements $"@ + n + "CopyWith<$Res> {\n"@ + "  factory _$$$"@ + n);
    lemma_keeps_add(o4 + "    ) as $Val);\n"@ + "  }\n"@ + "}\n\n"@ + "/// @nodoc\n"@ + "abstract class _$$$"@ + n + "ImplImplCopyWith<$Res> implements $"@ + n + "CopyWith<$Res> {\n"@ + "  factory _$$$"@ + n, "ImplImplCopyWith(\n"@);
    lemma_keeps_trans(o1, o4 + "    ) as $Val);\n"@ + "  }\n"@ + "}\n\n"@ + "/// @nodoc\n"@ + "abstract class _$$$"@ + n + "ImplImplCopyWith<$Res> implements $"@ + n + "CopyWith<$Res> {\n"@ + "  factory _$$$"@ + n, o4 + "    ) as $Val);\n"@ + "  }\n"@ + "}\n\n"@ + "/// @nodoc\n"@ + "abstract class _$$$"@ + n + "ImplImplCopyWith<$Res> implements $"@ + n + "CopyWith<$Res> {\n"@ + "  factory _$$$"@ + n + "ImplImplCopyWith(\n"@);
    lemma_keeps_add(o4 + "    ) as $Val);\n"@ + "  }\n"@ + "}\n\n"@ + "/// @nodoc\n"@ + "abstract class _$$$"@ + n + "ImplImplCopyWith<$Res> implements $"@ + n + "CopyWith<$Res> {\n"@ + "  factory _$$$"@ + n + "ImplImplCopyWith(\n"@, "          _$$"@);
    lemma_keeps_trans(o1, o4 + "    ) as $Val);\n"@ + "  }\n"@ + "}\n\n"@ + "/// @nodoc\n"@ + "abstract class _$$$"@ + n + "ImplImplCopyWith<$Res> implements $"@ + n + "CopyWith<$Res> {\n"@ + "  factory _$$$"@ + n + "ImplImplCopyWith(\n"@, o4 + "    ) as $Val);\n"@ + "  }\n"@ + "}\n\n"@ + "/// @nodoc\n"@ + "abstract class _$$$"@ + n + "ImplImplCopyWith<$Res> implements $"@ + n + "CopyWith<$Res> {\n"@ + "  factory _$$$"@ + n + "ImplImplCopyWith(\n"@ + "          _$$"@);
    lemma_keeps_add(o4 + "    ) as $Val);\n"@ + "  }\n"@ + "}\n\n"@ + "/// @nodoc\n"@ + "abstract class _$$$"@ + n + "ImplImplCopyWith<$Res> implements $"@ + n + "CopyWith<$Res> {\n"@ + "  factory _$$$"@ + n + "ImplImplCopyWith(\n"@ + "          _$$"@, n);
    lemma_keeps_trans(o1, o4 + "    ) as $Val);\n"@ + "  }\n"@ + "}\n\n"@ + "/// @nodoc\n"@ + "abstract class _$$$"@ + n + "ImplImplCopyWith<$Res> implements $"@ + n + "CopyWith<$Res> {\n"@ + "  factory _$$$"@ + n + "ImplImplCopyWith(\n"@ + "          _$$"@, o4 + "    ) as $Val);\n"@ + "  }\n"@ + "}\n\n"@ + "/// @nodoc\n"@ + "abstract class _$$$"@ + n + "ImplImplCopyWith<$Res> implements $"@ + n + "CopyWith<$Res> {\n"@ + "  factory _$$$"@ + n + "ImplImplCopyWith(\n"@ + "          _$$"@ + n);
    lemma_keeps_add(o4 + "    ) as $Val);\n"@ + "  }\n"@ + "}\n\n"@ + "/// @nodoc\n"@ + "abstract class _$$$"@ + n + "ImplImplCopyWith<$Res> implements $"@ + n + "CopyWith<$Res> {\n"@ + "  factory _$$$"@ + n + "ImplImplCopyWith(\n"@ + "          _$$"@ + n, "ImplImpl value, $Res Function(_$$"@);
    lemma_keeps_trans(o1, o4 + "    ) as $Val);\n"@ + "  }\n"@ + "}\n\n"@ + "/// @nodoc\n"@ + "abstract class _$$$"@ + n + "ImplImplCopyWith<$Res> implements $"@ + n + "CopyWith<$Res> {\n"@ + "  factory _$$$"@ + n + "ImplImplCopyWith(\n"@ + "          _$$"@ + n, o4 + "    ) as $Val);\n"@ + "  }\n"@ + "}\n\n"@ + "/// @nodoc\n"@ + "abstract class _$$$"@ + n + "ImplImplCopyWith<$Res> implements $"@ + n + "CopyWith<$Res> {\n"@ + "  factory _$$$"@ + n + "ImplImplCopyWith(\n"@ + "          _$$"@ + n + "ImplImpl value, $Res Function(_$$"@);
    lemma_keeps_add(o4 + "    ) as $Val);\n"@ + "  }\n"@ + "}\n\n"@ + "/// @nodoc\n"@ + "abstract class _$$$"@ + n + "ImplImplCopyWith<$Res> implements $"@ + n + "CopyWith<$Res> {\n"@ + "  factory _$$$"@ + n + "ImplImplCopyWith(\n"@ + "          _$$"@ + n + "ImplImpl value, $Res Function(_$$"@, n);
    lemma_keeps_trans(o1, o4 + "    ) as $Val);\n"@ + "  }\n"@ + "}\n\n"@ + "/// @nodoc\n"@ + "abstract class _$$$"@ + n + "ImplImplCopyWith<$Res> implements $"@ + n + "CopyWith<$Res> {\n"@ + "  factory _$$$"@ + n + "ImplImplCopyWith(\n"@ + "          _$$"@ + n + "ImplImpl value, $Res Function(_$$"@, o4 + "    ) as $Val);\n"@ + "  }\n"@ + "}\n\n"@ + "/// @nodoc\n"@ + "abstract class _$$$"@ + n + "ImplImplCopyWith<$Res> implements $"@ + n + "CopyWith<$Res> {\n"@ + "  factory _$$$"@ + n + "ImplImplCopyWith(\n"@ + "          _$$"@ + n + "ImplImpl value, $Res Function(_$$"@ + n);
    lemma_keeps_add(o4 + "    ) as $Val);\n"@ + "  }\n"@ + "}\n\n"@ + "/// @nodoc\n"@ + "abstract class _$$$"@ + n + "ImplImplCopyWith<$Res> implements $"@ + n + "CopyWith<$Res> {\n"@ + "  factory _$$$"@ + n + "ImplImplCopyWith(\n"@ + "          _$$"@ + n + "ImplImpl value, $Res Function(_$$"@ + n, "ImplImpl) then) =\n"@);
    lemma_keeps_trans(o1, o4 + "    ) as $Val);\n"@ + "  }\n"@ + "}\n\n"@ + "/// @nodoc\n"@ + "abstract class _$$$"@ + n + "ImplImplCopyWith<$Res> implements $"@ + n + "CopyWith<$Res> {\n"@ + "  factory _$$$"@ + n + "ImplImplCopyWith(\n"@ + "          _$$"@ + n + "ImplImpl value, $Res Function(_$$"@ + n, o4 + "    ) as $Val);\n"@ + "  }\n"@ + "}\n\n"@ + "/// @nodoc\n"@ + "abstract class _$$$"@ + n + "ImplImplCopyWith<$Res> implements $"@ + n + "CopyWith<$Res> {\n"@ + "  factory _$$$"@ + n + "ImplImplCopyWith(\n"@ + "          _$$"@ + n + "ImplImpl value, $Res Function(_$$"@ + n + "ImplImpl) then) =\n"@);
    lemma_keeps_add(o4 + "    ) as $Val);\n"@ + "  }\n"@ + "}\n\n"@ + "/// @nodoc\n"@ + "abstract class _$$$"@ + n + "ImplImplCopyWith<$Res> implements $"@ + n + "CopyWith<$Res> {\n"@ + "  factory _$$$"@ + n + "ImplImplCopyWith(\n"@ + "          _$$"@ + n + "ImplImpl value, $Res Function(_$$"@ + n + "ImplImpl) then) =\n"@, "      __$$$"@);
    lemma_keeps_trans(o1, o4 + "    ) as $Val);\n"@ + "  }\n"@ + "}\n\n"@ + "/// @nodoc\n"@ + "abstract class _$$$"@ + n + "ImplImplCopyWith<$Res> implements $"@ + n + "CopyWith<$Res> {\n"@ + "  factory _$$$"@ + n + "ImplImplCopyWith(\n"@ + "          _$$"@ + n + "ImplImpl value, $Res Function(_$$"@ + n + "ImplImpl) then) =\n"@, o4 + "    ) as $Val);\n"@ + "  }\n"@ + "}\n\n"@ + "/// @nodoc\n"@ + "abstract class _$$$"@ + n + "ImplImplCopyWith<$Res> implements $"@ + n + "CopyWith<$Res> {\n"@ + "  factory _$$$"@ + n + "ImplImplCopyWith(\n"@ + "          _$$"@ + n + "ImplImpl value, $Res Function(_$$"@ + n + "ImplImpl) then) =\n"@ + "      __$$$"@);
    lemma_keeps_add(o4 + "    ) as $Val);\n"@ + "  }\n"@ + "}\n\n"@ + "/// @nodoc\n"@ + "abstract class _$$$"@ + n + "ImplImplCopyWith<$Res> implements $"@ + n + "CopyWith<$Res> {\n"@ + "  factory _$$$"@ + n + "ImplImplCopyWith(\n"@ + "          _$$"@ + n + "ImplImpl value, $Res Function(_$$"@ + n + "ImplImpl) then) =\n"@ + "      __$$$"@, n);
    lemma_keeps_trans(o1, o4 + "    ) as $Val);\n"@ + "  }\n"@ + "}\n\n"@ + "/// @nodoc\n"@ + "abstract class _$$$"@ + n + "ImplImplCopyWith<$Res> implements $"@ + n + "CopyWith<$Res> {\n"@ + "  factory _$$$"@ + n + "ImplImplCopyWith(\n"@ + "          _$$"@ + n + "ImplImpl value, $Res Function(_$$"@ + n + "ImplImpl) then) =\n"@ + "      __$$$"@, o4 + "    ) as $Val);\n"@ + "  }\n"@ + "}\n\n"@ + "/// @nodoc\n"@ + "abstract class _$$$"@ + n + "ImplImplCopyWith<$Res> implements $"@ + n + "CopyWith<$Res> {\n"@ + "  factory _$$$"@ + n + "ImplImplCopyWith(\n"@ + "          _$$"@ + n + "ImplImpl value, $Res Function(_$$"@ + n + "ImplImpl) then) =\n"@ + "      __$$$"@ + n);
    lemma_keeps_add(o4 + "    ) as $Val);\n"@ + "  }\n"@ + "}\n\n"@ + "/// @nodoc\n"@ + "abstract class _$$$"@ + n + "ImplImplCopyWith<$Res> implements $"@ + n + "CopyWith<$Res> {\n"@ + "  factory _$$$"@ + n + "ImplImplCopyWith(\n"@ + "          _$$"@ + n + "ImplImpl value, $Res Function(_$$"@ + n + "ImplImpl) then) =\n"@ + "      __$$$"@ + n, "ImplImplCopyWithImpl<$Res>;\n"@);
    lemma_keeps_trans(o1, o4 + "    ) as $Val);\n"@ + "  }\n"@ + "}\n\n"@ + "/// @nodoc\n"@ + "abstract class _$$$"@ + n + "ImplImplCopyWith<$Res> implements $"@ + n + "CopyWith<$Res> {\n"@ + "  factory _$$$"@ + n + "ImplImplCopyWith(\n"@ + "          _$$"@ + n + "ImplImpl value, $Res Function(_$$"@ + n + "ImplImpl) then) =\n"@ + "      __$$$"@ + n, o4 + "    ) as $Val);\n"@ + "  }\n"@ + "}\n\n"@ + "/// @nodoc\n"@ + "abstract class _$$$"@ + n + "ImplImplCopyWith<$Res> implements $"@ + n + "CopyWith<$Res> {\n"@ + "  factory _$$$"@ + n + "ImplImplCopyWith(\n"@ + "          _$$"@ + n + "ImplImpl value, $Res Function(_$$"@ + n + "ImplImpl) then) =\n"@ + "      __$$$"@ + n + "ImplImplCopyWithImpl<$Res>;\n"@);
    lemma_keeps_add(o4 + "    ) as $Val);\n"@ + "  }\n"@ + "}\n\n"@ + "/// @nodoc\n"@ + "abstract class _$$$"@ + n + "ImplImplCopyWith<$Res> implements $"@ + n + "CopyWith<$Res> {\n"@ + "  factory _$$$"@ + n + "ImplImplCopyWith(\n"@ + "          _$$"@ + n + "ImplImpl value, $Res Function(_$$"@ + n + "ImplImpl) then) =\n"@ + "      __$$$"@ + n + "ImplImplCopyWithImpl<$Res>;\n"@, "  @override\n"@);
    lemma_keeps_trans(o1, o4 + "    ) as $Val);\n"@ + "  }\n"@ + "}\n\n"@ + "/// @nodoc\n"@ + "abstract class _$$$"@ + n + "ImplImplCopyWith<$Res> implements $"@ + n + "CopyWith<$Res> {\n"@ + "  factory _$$$"@ + n + "ImplImplCopyWith(\n"@ + "          _$$"@ + n + "ImplImpl value, $Res Function(_$$"@ + n + "ImplImpl) then) =\n"@ + "      __$$$"@ + n + "ImplImplCopyWithImpl<$Res>;\n"@, o4 + "    ) as $Val);\n"@ + "  }\n"@ + "}\n\n"@ + "/// @nodoc\n"@ + "abstract class _$$$"@ + n + "ImplImplCopyWith<$Res> implements $"@ + n + "CopyWith<$Res> {\n"@ + "  factory _$$$"@ + n + "ImplImplCopyWith(\n"@ + "          _$$"@ + n + "ImplImpl value, $Res Function(_$$"@ + n + "ImplImpl) then) =\n"@ + "      __$$$"@ + n + "ImplImplCopyWithImpl<$Res>;\n"@ + "  @override\n"@);
    lemma_keeps_add(o4 + "    ) as $Val);\n"@ + "  }\n"@ + "}\n\n"@ + "/// @nodoc\n"@ + "abstract class _$$$"@ + n + "ImplImplCopyWith<$Res> implements $"@ + n + "CopyWith<$Res> {\n"@ + "  factory _$$$"@ + n + "ImplImplCopyWith(\n"@ + "          _$$"@ + n + "ImplImpl value, $Res Function(_$$"@ + n + "ImplImpl) then) =\n"@ + "      __$$$"@ + n + "ImplImplCopyWithImpl<$Res>;\n"@ + "  @override\n"@, "  @useResult\n"@);
    lemma_keeps_trans(o1, o4 + "    ) as $Val);\n"@ + "  }\n"@ + "}\n\n"@ + "/// @nodoc\n"@ + "abstract class _$$$"@ + n + "ImplImplCopyWith<$Res> implements $"@ + n + "CopyWith<$Res> {\n"@ + "  factory _$$$"@ + n + "ImplImplCopyWith(\n"@ + "          _$$"@ + n + "ImplImpl value, $Res Function(_$$"@ + n + "ImplImpl) then) =\n"@ + "      __$$$"@ + n + "ImplImplCopyWithImpl<$Res>;\n"@ + "  @override\n"@, o4 + "    ) as $Val);\n"@ + "  }\n"@ + "}\n\n"@ + "/// @nodoc\n"@ + "abstract class _$$$"@ + n + "ImplImplCopyWith<$Res> implements $"@ + n + "CopyWith<$Res> {\n"@ + "  factory _$$$"@ + n + "ImplImplCopyWith(\n"@ + "          _$$"@ + n + "ImplImpl value, $Res Function(_$$"@ + n + "ImplImpl) then) =\n"@ + "      __$$$"@ + n + "ImplImplCopyWithImpl<$Res>;\n"@ + "  @override\n"@ + "  @useResult\n"@);
    lemma_keeps_add(o4 + "    ) as $Val);\n"@ + "  }\n"@ + "}\n\n"@ + "/// @nodoc\n"@ + "abstract class _$$$"@ + n + "ImplImplCopyWith<$Res> implements $"@ + n + "CopyWith<$Res> {\n"@ + "  factory _$$$"@ + n + "ImplImplCopyWith(\n"@ + "          _$$"@ + n + "ImplImpl value, $Res Function(_$$"@ + n + "ImplImpl) then) =\n"@ + "      __$$$"@ + n + "ImplImplCopyWithImpl<$Res>;\n"@ + "  @override\n"@ + "  @useResult\n"@, "  $Res call({"@);
    lemma_keeps_trans(o1, o4 + "    ) as $Val);\n"@ + "  }\n"@ + "}\n\n"@ + "/// @nodoc\n"@ + "abstract class _$$$"@ + n + "ImplImplCopyWith<$Res> implements $"@ + n + "CopyWith<$Res> {\n"@ + "  factory _$$$"@ + n + "ImplImplCopyWith(\n"@ + "          _$$"@ + n + "ImplImpl value, $Res Function(_$$"@ + n + "ImplImpl) then) =\n"@ + "      __$$$"@ + n + "ImplImplCopyWithImpl<$Res>;\n"@ + "  @override\n"@ + "  @useResult\n"@, o4 + "    ) as $Val);\n"@ + "  }\n"@ + "}\n\n"@ + "/// @nodoc\n"@ + "abstract class _$$$"@ + n + "ImplImplCopyWith<$Res> implements $"@ + n + "CopyWith<$Res> {\n"@ + "  factory _$$$"@ + n + "ImplImplCopyWith(\n"@ + "          _$$"@ + n + "ImplImpl value, $Res Function(_$$"@ + n + "ImplImpl) then) =\n"@ + "      __$$$"@ + n + "ImplImplCopyWithImpl<$Res>;\n"@ + "  @override\n"@ + "  @useResult\n"@ + "  $Res call({"@);
    lemma_fold_put_keeps(o4 + "    ) as $Val);\n"@ + "  }\n"@ + "}\n\n"@ + "/// @nodoc\n"@ + "abstract class _$$$"@ + n + "ImplImplCopyWith<$Res> implements $"@ + n + "CopyWith<$Res> {\n"@ + "  factory _$$$"@ + n + "ImplImplCopyWith(\n"@ + "          _$$"@ + n + "ImplImpl value, $Res Function(_$$"@ + n + "ImplImpl) then) =\n"@ + "      __$$$"@ + n + "ImplImplCopyWithImpl<$Res>;\n"@ + "  @override\n"@ + "  @useResult\n"@ + "  $Res call({"@, fs, field_piece_fn(FieldPiece::ObjectParam));
    lemma_keeps_trans(o1, o4 + "    ) as $Val);\n"@ + "  }\n"@ + "}\n\n"@ + "/// @nodoc\n"@ + "abstract class _$$$"@ + n + "ImplImplCopyWith<$Res> implements $"@ + n + "CopyWith<$Res> {\n"@ + "  factory _$$$"@ + n + "ImplImplCopyWith(\n"@ + "          _$$"@ + n + "ImplImpl value, $Res Function(_$$"@ + n + "ImplImpl) then) =\n"@ + "      __$$$"@ + n + "ImplImplCopyWithImpl<$Res>;\n"@ + "  @override\n"@ + "  @useResult\n"@ + "  $Res call({"@, fold_put(o4 + "    ) as $Val);\n"@ + "  }\n"@ + "}\n\n"@ + "/// @nodoc\n"@ + "abstract class _$$$"@ + n + "ImplImplCopyWith<$Res> implements $"@ + n + "CopyWith<$Res> {\n"@ + "  factory _$$$"@ + n + "ImplImplCopyWith(\n"@ + "          _$$"@ + n + "ImplImpl value, $Res Function(_$$"@ + n + "ImplImpl) then) =\n"@ + "      __$$$"@ + n + "ImplImplCopyWithImpl<$Res>;\n"@ + "  @override\n"@ + "  @useResult\n"@ + "  $Res call({"@, fs, field_piece_fn(FieldPiece::ObjectParam)));
    let o5 = fold_put(o4 + "    ) as $Val);\n"@ + "  }\n"@ + "}\n\n"@ + "/// @nodoc\n"@ + "abstract class _$$$"@ + n + "ImplImplCopyWith<$Res> implements $"@ + n + "CopyWith<$Res> {\n"@ + "  factory _$$$"@ + n + "ImplImplCopyWith(\n"@ + "          _$$"@ + n + "ImplImpl value, $Res Function(_$$"@ + n + "ImplImpl) then) =\n"@ + "      __$$$"@ + n + "ImplImplCopyWithImpl<$Res>;\n"@ + "  @override\n"@ + "  @useResult\n"@ + "  $Res call({"@, fs, field_piece_fn(FieldPiece::ObjectParam));
    assert(keeps(o1, o5));
    lemma_keeps_add(o5, "\n  });\n"@);
    lemma_keeps_trans(o1, o5, o5 + "\n  });\n"@);
    lemma_keeps_add(o5 + "\n  });\n"@, "}\n\n"@);
    lemma_keeps_trans(o1, o5 + "\n  });\n"@, o5 + "\n  });\n"@ + "}\n\n"@);
    lemma_keeps_add(o5 + "\n  });\n"@ + "}\n\n"@, "/// @nodoc\n"@);
    lemma_keeps_trans(o1, o5 + "\n  });\n"@ + "}\n\n"@, o5 + "\n  });\n"@ + "}\n\n"@ + "/// @nodoc\n"@);
    lemma_keeps_add(o5 + "\n  });\n"@ + "}\n\n"@ + "/// @nodoc\n"@, "class __$$$"@);
    lemma_keeps_trans(o1, o5 + "\n  });\n"@ + "}\n\n"@ + "/// @nodoc\n"@, o5 + "\n  });\n"@ + "}\n\n"@ + "/// @nodoc\n"@ + "class __$$$"@);
    lemma_keeps_add(o5 + "\n  });\n"@ + "}\n\n"@ + "/// @nodoc\n"@ + "class __$$$"@, n);
    lemma_keeps_trans(o1, o5 + "\n  });\n"@ + "}\n\n"@ + "/// @nodoc\n"@ + "class __$$$"@, o5 + "\n  });\n"@ + "}\n\n"@ + "/// @nodoc\n"@ + "class __$$$"@ + n);
    lemma_keeps_add(o5 + "\n  });\n"@ + "}\n\n"@ + "/// @nodoc\n"@ + "class __$$$"@ + n, "ImplImplCopyWithImpl<$Res>\n"@);
    lemma_keeps_trans(o1, o5 + "\n  });\n"@ + "}\n\n"@ + "/// @nodoc\n"@ + "class __$$$"@ + n, o5 + "\n  });\n"@ + "}\n\n"@ + "/// @nodoc\n"@ + "class __$$$"@ + n + "ImplImplCopyWithImpl<$Res>\n"@);
    lemma_keeps_add(o5 + "\n  });\n"@ + "}\n\n"@ + "/// @nodoc\n"@ + "class __$$$"@ + n + "ImplImplCopyWithImpl<$Res>\n"@, "    extends _$"@);
    lemma_keeps_trans(o1, o5 + "\n  });\n"@ + "}\n\n"@ + "/// @nodoc\n"@ + "class __$$$"@ + n + "ImplImplCopyWithImpl<$Res>\n"@, o5 + "\n  });\n"@ + "}\n\n"@ + "/// @nodoc\n"@ + "class __$$$"@ + n + "ImplImplCopyWithImpl<$Res>\n"@ + "    extends _$"@);
    lemma_keeps_add(o5 + "\n  });\n"@ + "}\n\n"@ + "/// @nodoc\n"@ + "class __$$$"@ + n + "ImplImplCopyWithImpl<$Res>\n"@ + "    extends _$"@, n);
    lemma_keeps_trans(o1, o5 + "\n  });\n"@ + "}\n\n"@ + "/// @nodoc\n"@ + "class __$$$"@ + n + "ImplImplCopyWithImpl<$Res>\n"@ + "    extends _$"@, o5 + "\n  });\n"@ + "}\n\n"@ + "/// @nodoc\n"@ + "class __$$$"@ + n + "ImplImplCopyWithImpl<$Res>\n"@ + "    extends _$"@ + n);
    lemma_keeps_add(o5 + "\n  });\n"@ + "}\n\n"@ + "/// @nodoc\n"@ + "class __$$$"@ + n + "ImplImplCopyWithImpl<$Res>\n"@ + "    extends _$"@ + n, "CopyWithImpl<$Res, _$$"@);
    lemma_keeps_trans(o1, o5 + "\n  });\n"@ + "}\n\n"@ + "/// @nodoc\n"@ + "class __$$$"@ + n + "ImplImplCopyWithImpl<$Res>\n"@ + "    extends _$"@ + n, o5 + "\n  });\n"@ + "}\n\n"@ + "/// @nodoc\n"@ + "class __$$$"@ + n + "ImplImplCopyWithImpl<$Res>\n"@ + "    extends _$"@ + n + "CopyWithImpl<$Res, _$$"@);
    lemma_keeps_add(o5 + "\n  });\n"@ + "}\n\n"@ + "/// @nodoc\n"@ + "class __$$$"@ + n + "ImplImplCopyWithImpl<$Res>\n"@ + "    extends _$"@ + n + "CopyWithImpl<$Res, _$$"@, n);
    lemma_keeps_trans(o1, o5 + "\n  });\n"@ + "}\n\n"@ + "/// @nodoc\n"@ + "class __$$$"@ + n + "ImplImplCopyWithImpl<$Res>\n"@ + "    extends _$"@ + n + "CopyWithImpl<$Res, _$$"@, o5 + "\n  });\n"@ + "}\n\n"@ + "/// @nodoc\n"@ + "class __$$$"@ + n + "ImplImplCopyWithImpl<$Res>\n"@ + "    extends _$"@ + n + "CopyWithImpl<$Res, _$$"@ + n);
    lemma_keeps_add(o5 + "\n  });\n"@ + "}\n\n"@ + "/// @nodoc\n"@ + "class __$$$"@ + n + "ImplImplCopyWithImpl<$Res>\n"@ + "    extends _$"@ + n + "CopyWithImpl<$Res, _$$"@ + n, "ImplImpl>\n"@);
    lemma_keeps_trans(o1, o5 + "\n  });\n"@ + "}\n\n"@ + "/// @nodoc\n"@ + "class __$$$"@ + n + "ImplImplCopyWithImpl<$Res>\n"@ + "    extends _$"@ + n + "CopyWithImpl<$Res, _$$"@ + n, o5 + "\n  });\n"@ + "}\n\n"@ + "/// @nodoc\n"@ + "class __$$$"@ + n + "ImplImplCopyWithImpl<$Res>\n"@ + "    extends _$"@ + n + "CopyWithImpl<$Res, _$$"@ + n + "ImplImpl>\n"@);
    lemma_keeps_add(o5 + "\n  });\n"@ + "}\n\n"@ + "/// @nodoc\n"@ + "class __$$$"@ + n + "ImplImplCopyWithImpl<$Res>\n"@ + "    extends _$"@ + n + "CopyWithImpl<$Res, _$$"@ + n + "ImplImpl>\n"@, "    implements _$$$"@);
    lemma_keeps_trans(o1, o5 + "\n  });\n"@ + "}\n\n"@ + "/// @nodoc\n"@ + "class __$$$"@ + n + "ImplImplCopyWithImpl<$Res>\n"@ + "    extends _$"@ + n + "CopyWithImpl<$Res, _$$"@ + n + "ImplImpl>\n"@, o5 + "\n  });\n"@ + "}\n\n"@ + "/// @nodoc\n"@ + "class __$$$"@ + n + "ImplImplCopyWithImpl<$Res>\n"@ + "    extends _$"@ + n + "CopyWithImpl<$Res, _$$"@ + n + "ImplImpl>\n"@ + "    implements _$$$"@);
    lemma_keeps_add(o5 + "\n  });\n"@ + "}\n\n"@ + "/// @nodoc\n"@ + "class __$$$"@ + n + "ImplImplCopyWithImpl<$Res>\n"@ + "    extends _$"@ + n + "CopyWithImpl<$Res, _$$"@ + n + "ImplImpl>\n"@ + "    implements _$$$"@, n);
    lemma_keeps_trans(o1, o5 + "\n  });\n"@ + "}\n\n"@ + "/// @nodoc\n"@ + "class __$$$"@ + n + "ImplImplCopyWithImpl<$Res>\n"@ + "    extends _$"@ + n + "CopyWithImpl<$Res, _$$"@ + n + "ImplImpl>\n"@ + "    implements _$$$"@, o5 + "\n  });\n"@ + "}\n\n"@ + "/// @nodoc\n"@ + "class __$$$"@ + n + "ImplImplCopyWithImpl<$Res>\n"@ + "    extends _$"@ + n + "CopyWithImpl<$Res, _$$"@ + n + "ImplImpl>\n"@ + "    implements _$$$"@ + n);
    lemma_keeps_add(o5 + "\n  });\n"@ + "}\n\n"@ + "/// @nodoc\n"@ + "class __$$$"@ + n + "ImplImplCopyWithImpl<$Res>\n"@ + "    extends _$"@ + n + "CopyWithImpl<$Res, _$$"@ + n + "ImplImpl>\n"@ + "    implements _$$$"@ + n, "ImplImplCopyWith<$Res> {\n"@);
    lemma_keeps_trans(o1, o5 + "\n  });\n"@ + "}\n\n"@ + "/// @nodoc\n"@ + "class __$$$"@ + n + "ImplImplCopyWithImpl<$Res>\n"@ + "    extends _$"@ + n + "CopyWithImpl<$Res, _$$"@ + n + "ImplImpl>\n"@ + "    implements _$$$"@ + n, o5 + "\n  });\n"@ + "}\n\n"@ + "/// @nodoc\n"@ + "class __$$$"@ + n + "ImplImplCopyWithImpl<$Res>\n"@ + "    extends _$"@ + n + "CopyWithImpl<$Res, _$$"@ + n + "ImplImpl>\n"@ + "    implements _$$$"@ + n + "ImplImplCopyWith<$Res> {\n"@);
    lemma_keeps_add(o5 + "\n  });\n"@ + "}\n\n"@ + "/// @nodoc\n"@ + "class __$$$"@ + n + "ImplImplCopyWithImpl<$Res>\n"@ + "    extends _$"@ + n + "CopyWithImpl<$Res, _$$"@ + n + "ImplImpl>\n"@ + "    implements _$$$"@ + n + "ImplImplCopyWith<$Res> {\n"@, "  __$$$"@);
    lemma_keeps_trans(o1, o5 + "\n  });\n"@ + "}\n\n"@ + "/// @nodoc\n"@ + "class __$$$"@ + n + "ImplImplCopyWithImpl<$Res>\n"@ + "    extends _$"@ + n + "CopyWithImpl<$Res, _$$"@ + n + "ImplImpl>\n"@ + "    implements _$$$"@ + n + "ImplImplCopyWith<$Res> {\n"@, o5 + "\n  });\n"@ + "}\n\n"@ + "/// @nodoc\n"@ + "class __$$$"@ + n + "ImplImplCopyWithImpl<$Res>\n"@ + "    extends _$"@ + n + "CopyWithImpl<$Res, _$$"@ + n + "ImplImpl>\n"@ + "    implements _$$$"@ + n + "ImplImplCopyWith<$Res> {\n"@ + "  __$$$"@);
    lemma_keeps_add(o5 + "\n  });\n"@ + "}\n\n"@ + "/// @nodoc\n"@ + "class __$$$"@ + n + "ImplImplCopyWithImpl<$Res>\n"@ + "    extends _$"@ + n + "CopyWithImpl<$Res, _$$"@ + n + "ImplImpl>\n"@ + "    implements _$$$"@ + n + "ImplImplCopyWith<$Res> {\n"@ + "  __$$$"@, n);
    lemma_keeps_trans(o1, o5 + "\n  });\n"@ + "}\n\n"@ + "/// @nodoc\n"@ + "class __$$$"@ + n + "ImplImplCopyWithImpl<$Res>\n"@ + "    extends _$"@ + n + "CopyWithImpl<$Res, _$$"@ + n + "ImplImpl>\n"@ + "    implements _$$$"@ + n + "ImplImplCopyWith<$Res> {\n"@ + "  __$$$"@, o5 + "\n  });\n"@ + "}\n\n"@ + "/// @nodoc\n"@ + "class __$$$"@ + n + "ImplImplCopyWithImpl<$Res>\n"@ + "    extends _$"@ + n + "CopyWithImpl<$Res, _$$"@ + n + "ImplImpl>\n"@ + "    implements _$$$"@ + n + "ImplImplCopyWith<$Res> {\n"@ + "  __$$$"@ + n);
    lemma_keeps_add(o5 + "\n  });\n"@ + "}\n\n"@ + "/// @nodoc\n"@ + "class __$$$"@ + n + "ImplImplCopyWithImpl<$Res>\n"@ + "    extends _$"@ + n + "CopyWithImpl<$Res, _$$"@ + n + "ImplImpl>\n"@ + "    implements _$$$"@ + n + "ImplImplCopyWith<$Res> {\n"@ + "  __$$$"@ + n, "ImplImplCopyWithImpl(\n"@);
    lemma_keeps_trans(o1, o5 + "\n  });\n"@ + "}\n\n"@ + "/// @nodoc\n"@ + "class __$$$"@ + n + "ImplImplCopyWithImpl<$Res>\n"@ + "    extends _$"@ + n + "CopyWithImpl<$Res, _$$"@ + n + "ImplImpl>\n"@ + "    implements _$$$"@ + n + "ImplImplCopyWith<$Res> {\n"@ + "  __$$$"@ + n, o5 + "\n  });\n"@ + "}\n\n"@ + "/// @nodoc\n"@ + "class __$$$"@ + n + "ImplImplCopyWithImpl<$Res>\n"@ + "    extends _$"@ + n + "CopyWithImpl<$Res, _$$"@ + n + "ImplImpl>\n"@ + "    implements _$$$"@ + n + "ImplImplCopyWith<$Res> {\n"@ + "  __$$$"@ + n + "ImplImplCopyWithImpl(\n"@);
    lemma_keeps_add(o5 + "\n  });\n"@ + "}\n\n"@ + "/// @nodoc\n"@ + "class __$$$"@ + n + "ImplImplCopyWithImpl<$Res>\n"@ + "    extends _$"@ + n + "CopyWithImpl<$Res, _$$"@ + n + "ImplImpl>\n"@ + "    implements _$$$"@ + n + "ImplImplCopyWith<$Res> {\n"@ + "  __$$$"@ + n + "ImplImplCopyWithImpl(\n"@, "      _$$"@);
    lemma_keeps_trans(o1, o5 + "\n  });\n"@ + "}\n\n"@ + "/// @nodoc\n"@ + "class __$$$"@ + n + "ImplImplCopyWithImpl<$Res>\n"@ + "    extends _$"@ + n + "CopyWithImpl<$Res, _$$"@ + n + "ImplImpl>\n"@ + "    implements _$$$"@ + n + "ImplImplCopyWith<$Res> {\n"@ + "  __$$$"@ + n + "ImplImplCopyWithImpl(\n"@, o5 + "\n  });\n"@ + "}\n\n"@ + "/// @nodoc\n"@ + "class __$$$"@ + n + "ImplImplCopyWithImpl<$Res>\n"@ + "    extends _$"@ + n + "CopyWithImpl<$Res, _$$"@ + n + "ImplImpl>\n"@ + "    implements _$$$"@ + n + "ImplImplCopyWith<$Res> {\n"@ + "  __$$$"@ + n + "ImplImplCopyWithImpl(\n"@ + "      _$$"@);
    lemma_keeps_add(o5 + "\n  });\n"@ + "}\n\n"@ + "/// @nodoc\n"@ + "class __$$$"@ + n + "ImplImplCopyWithImpl<$Res>\n"@ + "    extends _$"@ + n + "CopyWithImpl<$Res, _$$"@ + n + "ImplImpl>\n"@ + "    implements _$$$"@ + n + "ImplImplCopyWith<$Res> {\n"@ + "  __$$$"@ + n + "ImplImplCopyWithImpl(\n"@ + "      _$$"@, n);
    lemma_keeps_trans(o1, o5 + "\n  });\n"@ + "}\n\n"@ + "/// @nodoc\n"@ + "class __$$$"@ + n + "ImplImplCopyWithImpl<$Res>\n"@ + "    extends _$"@ + n + "CopyWithImpl<$Res, _$$"@ + n + "ImplImpl>\n"@ + "    implements _$$$"@ + n + "ImplImplCopyWith<$Res> {\n"@ + "  __$$$"@ + n + "ImplImplCopyWithImpl(\n"@ + "      _$$"@, o5 + "\n  });\n"@ + "}\n\n"@ + "/// @nodoc\n"@ + "class __$$$"@ + n + "ImplImplCopyWithImpl<$Res>\n"@ + "    extends _$"@ + n + "CopyWithImpl<$Res, _$$"@ + n + "ImplImpl>\n"@ + "    implements _$$$"@ + n + "ImplImplCopyWith<$Res> {\n"@ + "  __$$$"@ + n + "ImplImplCopyWithImpl(\n"@ + "      _$$"@ + n);
    lemma_keeps_add(o5 + "\n  });\n"@ + "}\n\n"@ + "/// @nodoc\n"@ + "class __$$$"@ + n + "ImplImplCopyWithImpl<$Res>\n"@ + "    extends _$"@ + n + "CopyWithImpl<$Res, _$$"@ + n + "ImplImpl>\n"@ + "    implements _$$$"@ + n + "ImplImplCopyWith<$Res> {\n"@ + "  __$$$"@ + n + "ImplImplCopyWithImpl(\n"@ + "      _$$"@ + n, "ImplImpl _value, $Res Function(_$$"@);
    lemma_keeps_trans(o1, o5 + "\n  });\n"@ + "}\n\n"@ + "/// @nodoc\n"@ + "class __$$$"@ + n + "ImplImplCopyWithImpl<$Res>\n"@ + "    extends _$"@ + n + "CopyWithImpl<$Res, _$$"@ + n + "ImplImpl>\n"@ + "    implements _$$$"@ + n + "ImplImplCopyWith<$Res> {\n"@ + "  __$$$"@ + n + "ImplImplCopyWithImpl(\n"@ + "      _$$"@ + n, o5 + "\n  });\n"@ + "}\n\n"@ + "/// @nodoc\n"@ + "class __$$$"@ + n + "ImplImplCopyWithImpl<$Res>\n"@ + "    extends _$"@ + n + "CopyWithImpl<$Res, _$$"@ + n + "ImplImpl>\n"@ + "    implements _$$$"@ + n + "ImplImplCopyWith<$Res> {\n"@ + "  __$$$"@ + n + "ImplImplCopyWithImpl(\n"@ + "      _$$"@ + n + "ImplImpl _value, $Res Function(_$$"@);
    lemma_keeps_add(o5 + "\n  });\n"@ + "}\n\n"@ + "/// @nodoc\n"@ + "class __$$$"@ + n + "ImplImplCopyWithImpl<$Res>\n"@ + "    extends _$"@ + n + "CopyWithImpl<$Res, _$$"@ + n + "ImplImpl>\n"@ + "    implements _$$$"@ + n + "ImplImplCopyWith<$Res> {\n"@ + "  __$$$"@ + n + "ImplImplCopyWithImpl(\n"@ + "      _$$"@ + n + "ImplImpl _value, $Res Function(_$$"@, n);
    lemma_keeps_trans(o1, o5 + "\n  });\n"@ + "}\n\n"@ + "/// @nodoc\n"@ + "class __$$$"@ + n + "ImplImplCopyWithImpl<$Res>\n"@ + "    extends _$"@ + n + "CopyWithImpl<$Res, _$$"@ + n + "ImplImpl>\n"@ + "    implements _$$$"@ + n + "ImplImplCopyWith<$Res> {\n"@ + "  __$$$"@ + n + "ImplImplCopyWithImpl(\n"@ + "      _$$"@ + n + "ImplImpl _value, $Res Function(_$$"@, o5 + "\n  });\n"@ + "}\n\n"@ + "/// @nodoc\n"@ + "class __$$$"@ + n + "ImplImplCopyWithImpl<$Res>\n"@ + "    extends _$"@ + n + "CopyWithImpl<$Res, _$$"@ + n + "ImplImpl>\n"@ + "    implements _$$$"@ + n + "ImplImplCopyWith<$Res> {\n"@ + "  __$$$"@ + n + "ImplImplCopyWithImpl(\n"@ + "      _$$"@ + n + "ImplImpl _value, $Res Function(_$$"@ + n);
    lemma_keeps_add(o5 + "\n  });\n"@ + "}\n\n"@ + "/// @nodoc\n"@ + "class __$$$"@ + n + "ImplImplCopyWithImpl<$Res>\n"@ + "    extends _$"@ + n + "CopyWithImpl<$Res, _$$"@ + n + "ImplImpl>\n"@ + "    implements _$$$"@ + n + "ImplImplCopyWith<$Res> {\n"@ + "  __$$$"@ + n + "ImplImplCopyWithImpl(\n"@ + "      _$$"@ + n + "ImplImpl _value, $Res Function(_$$"@ + n, "ImplImpl) _then)\n"@);
    lemma_keeps_trans(o1, o5 + "\n  });\n"@ + "}\n\n"@ + "/// @nodoc\n"@ + "class __$$$"@ + n + "ImplImplCopyWithImpl<$Res>\n"@ + "    extends _$"@ + n + "CopyWithImpl<$Res, _$$"@ + n + "ImplImpl>\n"@ + "    implements _$$$"@ + n + "ImplImplCopyWith<$Res> {\n"@ + "  __$$$"@ + n + "ImplImplCopyWithImpl(\n"@ + "      _$$"@ + n + "ImplImpl _value, $Res Function(_$$"@ + n, o5 + "\n  });\n"@ + "}\n\n"@ + "/// @nodoc\n"@ + "class __$$$"@ + n + "ImplImplCopyWithImpl<$Res>\n"@ + "    extends _$"@ + n + "CopyWithImpl<$Res, _$$"@ + n + "ImplImpl>\n"@ + "    implements _$$$"@ + n + "ImplImplCopyWith<$Res> {\n"@ + "  __$$$"@ + n + "ImplImplCopyWithImpl(\n"@ + "      _$$"@ + n + "ImplImpl _value, $Res Function(_$$"@ + n + "ImplImpl) _then)\n"@);
    lemma_keeps_add(o5 + "\n  });\n"@ + "}\n\n"@ + "/// @nodoc\n"@ + "class __$$$"@ + n + "ImplImplCopyWithImpl<$Res>\n"@ + "    extends _$"@ + n + "CopyWithImpl<$Res, _$$"@ + n + "ImplImpl>\n"@ + "    implements _$$$"@ + n + "ImplImplCopyWith<$Res> {\n"@ + "  __$$$"@ + n + "ImplImplCopyWithImpl(\n"@ + "      _$$"@ + n + "ImplImpl _value, $Res Function(_$$"@ + n + "ImplImpl) _then)\n"@, "      : super(_value, _then);\n"@);
    lemma_keeps_trans(o1, o5 + "\n  });\n"@ + "}\n\n"@ + "/// @nodoc\n"@ + "class __$$$"@ + n + "ImplImplCopyWithImpl<$Res>\n"@ + "    extends _$"@ + n + "CopyWithImpl<$Res, _$$"@ + n + "ImplImpl>\n"@ + "    implements _$$$"@ + n + "ImplImplCopyWith<$Res> {\n"@ + "  __$$$"@ + n + "ImplImplCopyWithImpl(\n"@ + "      _$$"@ + n + "ImplImpl _value, $Res Function(_$$"@ + n + "ImplImpl) _then)\n"@, o5 + "\n  });\n"@ + "}\n\n"@ + "/// @nodoc\n"@ + "class __$$$"@ + n + "ImplImplCopyWithImpl<$Res>\n"@ + "    extends _$"@ + n + "CopyWithImpl<$Res, _$$"@ + n + "ImplImpl>\n"@ + "    implements _$$$"@ + n + "ImplImplCopyWith<$Res> {\n"@ + "  __$$$"@ + n + "ImplImplCopyWithImpl(\n"@ + "      _$$"@ + n + "ImplImpl _value, $Res Function(_$$"@ + n + "ImplImpl) _then)\n"@ + "      : super(_value, _then);\n"@);
    lemma_keeps_add(o5 + "\n  });\n"@ + "}\n\n"@ + "/// @nodoc\n"@ + "class __$$$"@ + n + "ImplImplCopyWithImpl<$Res>\n"@ + "    extends _$"@ + n + "CopyWithImpl<$Res, _$$"@ + n + "ImplImpl>\n"@ + "    implements _$$$"@ + n + "ImplImplCopyWith<$Res> {\n"@ + "  __$$$"@ + n + "ImplImplCopyWithImpl(\n"@ + "      _$$"@ + n + "ImplImpl _value, $Res Function(_$$"@ + n + "ImplImpl) _then)\n"@ + "      : super(_value, _then);\n"@, "\n"@);
    lemma_keeps_trans(o1, o5 + "\n  });\n"@ + "}\n\n"@ + "/// @nodoc\n"@ + "class __$$$"@ + n + "ImplImplCopyWithImpl<$Res>\n"@ + "    extends _$"@ + n + "CopyWithImpl<$Res, _$$"@ + n + "ImplImpl>\n"@ + "    implements _$$$"@ + n + "ImplImplCopyWith<$Res> {\n"@ + "  __$$$"@ + n + "ImplImplCopyWithImpl(\n"@ + "      _$$"@ + n + "ImplImpl _value, $Res Function(_$$"@ + n + "ImplImpl) _then)\n"@ + "      : super(_value, _then);\n"@, o5 + "\n  });\n"@ + "}\n\n"@ + "/// @nodoc\n"@ + "class __$$$"@ + n + "ImplImplCopyWithImpl<$Res>\n"@ + "    extends _$"@ + n + "CopyWithImpl<$Res, _$$"@ + n + "ImplImpl>\n"@ + "    implements _$$$"@ + n + "ImplImplCopyWith<$Res> {\n"@ + "  __$$$"@ + n + "ImplImplCopyWithImpl(\n"@ + "      _$$"@ + n + "ImplImpl _value, $Res Function(_$$"@ + n + "ImplImpl) _then)\n"@ + "      : super(_value, _then);\n"@ + "\n"@);
    lemma_keeps_add(o5 + "\n  });\n"@ + "}\n\n"@ + "/// @nodoc\n"@ + "class __$$$"@ + n + "ImplImplCopyWithImpl<$Res>\n"@ + "    extends _$"@ + n + "CopyWithImpl<$Res, _$$"@ + n + "ImplImpl>\n"@ + "    implements _$$$"@ + n + "ImplImplCopyWith<$Res> {\n"@ + "  __$$$"@ + n + "ImplImplCopyWithImpl(\n"@ + "      _$$"@ + n + "ImplImpl _value, $Res Function(_$$"@ + n + "ImplImpl) _then)\n"@ + "      : super(_value, _then);\n"@ + "\n"@, "  /// Create a copy of "@);
    lemma_keeps_trans(o1, o5 + "\n  });\n"@ + "}\n\n"@ + "/// @nodoc\n"@ + "class __$$$"@ + n + "ImplImplCopyWithImpl<$Res>\n"@ + "    extends _$"@ + n + "CopyWithImpl<$Res, _$$"@ + n + "ImplImpl>\n"@ + "    implements _$$$"@ + n + "ImplImplCopyWith<$Res> {\n"@ + "  __$$$"@ + n + "ImplImplCopyWithImpl(\n"@ + "      _$$"@ + n + "ImplImpl _value, $Res Function(_$$"@ + n + "ImplImpl) _then)\n"@ + "      : super(_value, _then);\n"@ + "\n"@, o5 + "\n  });\n"@ + "}\n\n"@ + "/// @nodoc\n"@ + "class __$$$"@ + n + "ImplImplCopyWithImpl<$Res>\n"@ + "    extends _$"@ + n + "CopyWithImpl<$Res, _$$"@ + n + "ImplImpl>\n"@ + "    implements _$$$"@ + n + "ImplImplCopyWith<$Res> {\n"@ + "  __$$$"@ + n + "ImplImplCopyWithImpl(\n"@ + "      _$$"@ + n + "ImplImpl _value, $Res Function(_$$"@ + n + "ImplImpl) _then)\n"@ + "      : super(_value, _then);\n"@ + "\n"@ + "  /// Create a copy of "@);
    lemma_keeps_add(o5 + "\n  });\n"@ + "}\n\n"@ + "/// @nodoc\n"@ + "class __$$$"@ + n + "ImplImplCopyWithImpl<$Res>\n"@ + "    extends _$"@ + n + "CopyWithImpl<$Res, _$$"@ + n + "ImplImpl>\n"@ + "    implements _$$$"@ + n + "ImplImplCopyWith<$Res> {\n"@ + "  __$$$"@ + n + "ImplImplCopyWithImpl(\n"@ + "      _$$"@ + n + "ImplImpl _value, $Res Function(_$$"@ + n + "ImplImpl) _then)\n"@ + "      : super(_value, _then);\n"@ + "\n"@ + "  /// Create a copy of "@, n);
    lemma_keeps_trans(o1, o5 + "\n  });\n"@ + "}\n\n"@ + "/// @nodoc\n"@ + "class __$$$"@ + n + "ImplImplCopyWithImpl<$Res>\n"@ + "    extends _$"@ + n + "CopyWithImpl<$Res, _$$"@ + n + "ImplImpl>\n"@ + "    implements _$$$"@ + n + "ImplImplCopyWith<$Res> {\n"@ + "  __$$$"@ + n + "ImplImplCopyWithImpl(\n"@ + "      _$$"@ + n + "ImplImpl _value, $Res Function(_$$"@ + n + "ImplImpl) _then)\n"@ + "      : super(_value, _then);\n"@ + "\n"@ + "  /// Create a copy of "@, o5 + "\n  });\n"@ + "}\n\n"@ + "/// @nodoc\n"@ + "class __$$$"@ + n + "ImplImplCopyWithImpl<$Res>\n"@ + "    extends _$"@ + n + "CopyWithImpl<$Res, _$$"@ + n + "ImplImpl>\n"@ + "    implements _$$$"@ + n + "ImplImplCopyWith<$Res> {\n"@ + "  __$$$"@ + n + "ImplImplCopyWithImpl(\n"@ + "      _$$"@ + n + "ImplImpl _value, $Res Function(_$$"@ + n + "ImplImpl) _then)\n"@ + "      : super(_value, _then);\n"@ + "\n"@ + "  /// Create a copy of "@ + n);
    lemma_keeps_add(o5 + "\n  });\n"@ + "}\n\n"@ + "/// @nodoc\n"@ + "class __$$$"@ + n + "ImplImplCopyWithImpl<$Res>\n"@ + "    extends _$"@ + n + "CopyWithImpl<$Res, _$$"@ + n + "ImplImpl>\n"@ + "    implements _$$$"@ + n + "ImplImplCopyWith<$Res> {\n"@ + "  __$$$"@ + n + "ImplImplCopyWithImpl(\n"@ + "      _$$"@ + n + "ImplImpl _value, $Res Function(_$$"@ + n + "ImplImpl) _then)\n"@ + "      : super(_value, _then);\n"@ + "\n"@ + "  /// Create a copy of "@ + n, "\n"@);
    lemma_keeps_trans(o1, o5 + "\n  });\n"@ + "}\n\n"@ + "/// @nodoc\n"@ + "class __$$$"@ + n + "ImplImplCopyWithImpl<$Res>\n"@ + "    extends _$"@ + n + "CopyWithImpl<$Res, _$$"@ + n + "ImplImpl>\n"@ + "    implements _$$$"@ + n + "ImplImplCopyWith<$Res> {\n"@ + "  __$$$"@ + n + "ImplImplCopyWithImpl(\n"@ + "      _$$"@ + n + "ImplImpl _value, $Res Function(_$$"@ + n + "ImplImpl) _then)\n"@ + "      : super(_value, _then);\n"@ + "\n"@ + "  /// Create a copy of "@ + n, o5 + "\n  });\n"@ + "}\n\n"@ + "/// @nodoc\n"@ + "class __$$$"@ + n + "ImplImplCopyWithImpl<$Res>\n"@ + "    extends _$"@ + n + "CopyWithImpl<$Res, _$$"@ + n + "ImplImpl>\n"@ + "    implements _$$$"@ + n + "ImplImplCopyWith<$Res> {\n"@ + "  __$$$"@ + n + "ImplImplCopyWithImpl(\n"@ + "      _$$"@ + n + "ImplImpl _value, $Res Function(_$$"@ + n + "ImplImpl) _then)\n"@ + "      : super(_value, _then);\n"@ + "\n"@ + "  /// Create a copy of "@ + n + "\n"@);
    lemma_keeps_add(o5 + "\n  });\n"@ + "}\n\n"@ + "/// @nodoc\n"@ + "class __$$$"@ + n + "ImplImplCopyWithImpl<$Res>\n"@ + "    extends _$"@ + n + "CopyWithImpl<$Res, _$$"@ + n + "ImplImpl>\n"@ + "    implements _$$$"@ + n + "ImplImplCopyWith<$Res> {\n"@ + "  __$$$"@ + n + "ImplImplCopyWithImpl(\n"@ + "      _$$"@ + n + "ImplImpl _value, $Res Function(_$$"@ + n + "ImplImpl) _then)\n"@ + "      : super(_value, _then);\n"@ + "\n"@ + "  /// Create a copy of "@ + n + "\n"@, "  /// with the given fields replaced by the non-null parameter values.\n"@);
    lemma_keeps_trans(o1, o5 + "\n  });\n"@ + "}\n\n"@ + "/// @nodoc\n"@ + "class __$$$"@ + n + "ImplImplCopyWithImpl<$Res>\n"@ + "    extends _$"@ + n + "CopyWithImpl<$Res, _$$"@ + n + "ImplImpl>\n"@ + "    implements _$$$"@ + n + "ImplImplCopyWith<$Res> {\n"@ + "  __$$$"@ + n + "ImplImplCopyWithImpl(\n"@ + "      _$$"@ + n + "ImplImpl _value, $Res Function(_$$"@ + n + "ImplImpl) _then)\n"@ + "      : super(_value, _then);\n"@ + "\n"@ + "  /// Create a copy of "@ + n + "\n"@, o5 + "\n  });\n"@ + "}\n\n"@ + "/// @nodoc\n"@ + "class __$$$"@ + n + "ImplImplCopyWithImpl<$Res>\n"@ + "    extends _$"@ + n + "CopyWithImpl<$Res, _$$"@ + n + "ImplImpl>\n"@ + "    implements _$$$"@ + n + "ImplImplCopyWith<$Res> {\n"@ + "  __$$$"@ + n + "ImplImplCopyWithImpl(\n"@ + "      _$$"@ + n + "ImplImpl _value, $Res Function(_$$"@ + n + "ImplImpl) _then)\n"@ + "      : super(_value, _then);\n"@ + "\n"@ + "  /// Create a copy of "@ + n + "\n"@ + "  /// with the given fields replaced by the non-null parameter values.\n"@);
    lemma_keeps_add(o5 + "\n  });\n"@ + "}\n\n"@ + "/// @nodoc\n"@ + "class __$$$"@ + n + "ImplImplCopyWithImpl<$Res>\n"@ + "    extends _$"@ + n + "CopyWithImpl<$Res, _$$"@ + n + "ImplImpl>\n"@ + "    implements _$$$"@ + n + "ImplImplCopyWith<$Res> {\n"@ + "  __$$$"@ + n + "ImplImplCopyWithImpl(\n"@ + "      _$$"@ + n + "ImplImpl _value, $Res Function(_$$"@ + n + "ImplImpl) _then)\n"@ + "      : super(_value, _then);\n"@ + "\n"@ + "  /// Create a copy of "@ + n + "\n"@ + "  /// with the given fields replaced by the non-null parameter values.\n"@, "  @pragma('vm:prefer-inline')\n"@);
    lemma_keeps_trans(o1, o5 + "\n  });\n"@ + "}\n\n"@ + "/// @nodoc\n"@ + "class __$$$"@ + n + "ImplImplCopyWithImpl<$Res>\n"@ + "    extends _$"@ + n + "CopyWithImpl<$Res, _$$"@ + n + "ImplImpl>\n"@ + "    implements _$$$"@ + n + "ImplImplCopyWith<$Res> {\n"@ + "  __$$$"@ + n + "ImplImplCopyWithImpl(\n"@ + "      _$$"@ + n + "ImplImpl _value, $Res Function(_$$"@ + n + "ImplImpl) _then)\n"@ + "      : super(_value, _then);\n"@ + "\n"@ + "  /// Create a copy of "@ + n + "\n"@ + "  /// with the given fields replaced by the non-null parameter values.\n"@, o5 + "\n  });\n"@ + "}\n\n"@ + "/// @nodoc\n"@ + "class __$$$"@ + n + "ImplImplCopyWithImpl<$Res>\n"@ + "    extends _$"@ + n + "CopyWithImpl<$Res, _$$"@ + n + "ImplImpl>\n"@ + "    implements _$$$"@ + n + "ImplImplCopyWith<$Res> {\n"@ + "  __$$$"@ + n + "ImplImplCopyWithImpl(\n"@ + "      _$$"@ + n + "ImplImpl _value, $Res Function(_$$"@ + n + "ImplImpl) _then)\n"@ + "      : super(_value, _then);\n"@ + "\n"@ + "  /// Create a copy of "@ + n + "\n"@ + "  /// with the given fields replaced by the non-null parameter values.\n"@ + "  @pragma('vm:prefer-inline')\n"@);
    lemma_keeps_add(o5 + "\n  });\n"@ + "}\n\n"@ + "/// @nodoc\n"@ + "class __$$$"@ + n + "ImplImplCopyWithImpl<$Res>\n"@ + "    extends _$"@ + n + "CopyWithImpl<$Res, _$$"@ + n + "ImplImpl>\n"@ + "    implements _$$$"@ + n + "ImplImplCopyWith<$Res> {\n"@ + "  __$$$"@ + n + "ImplImplCopyWithImpl(\n"@ + "      _$$"@ + n + "ImplImpl _value, $Res Function(_$$"@ + n + "ImplImpl) _then)\n"@ + "      : super(_value, _then);\n"@ + "\n"@ + "  /// Create a copy of "@ + n + "\n"@ + "  /// with the given fields replaced by the non-null parameter values.\n"@ + "  @pragma('vm:prefer-inline')\n"@, "  @override\n"@);
    lemma_keeps_trans(o1, o5 + "\n  });\n"@ + "}\n\n"@ + "/// @nodoc\n"@ + "class __$$$"@ + n + "ImplImplCopyWithImpl<$Res>\n"@ + "    extends _$"@ + n + "CopyWithImpl<$Res, _$$"@ + n + "ImplImpl>\n"@ + "    implements _$$$"@ + n + "ImplImplCopyWith<$Res> {\n"@ + "  __$$$"@ + n + "ImplImplCopyWithImpl(\n"@ + "      _$$"@ + n + "ImplImpl _value, $Res Function(_$$"@ + n + "ImplImpl) _then)\n"@ + "      : super(_value, _then);\n"@ + "\n"@ + "  /// Create a copy of "@ + n + "\n"@ + "  /// with the given fields replaced by the non-null parameter values.\n"@ + "  @pragma('vm:prefer-inline')\n"@, o5 + "\n  });\n"@ + "}\n\n"@ + "/// @nodoc\n"@ + "class __$$$"@ + n + "ImplImplCopyWithImpl<$Res>\n"@ + "    extends _$"@ + n + "CopyWithImpl<$Res, _$$"@ + n + "ImplImpl>\n"@ + "    implements _$$$"@ + n + "ImplImplCopyWith<$Res> {\n"@ + "  __$$$"@ + n + "ImplImplCopyWithImpl(\n"@ + "      _$$"@ + n + "ImplImpl _value, $Res Function(_$$"@ + n + "ImplImpl) _then)\n"@ + "      : super(_value, _then);\n"@ + "\n"@ + "  /// Create a copy of "@ + n + "\n"@ + "  /// with the given fields replaced by the non-null parameter values.\n"@ + "  @pragma('vm:prefer-inline')\n"@ + "  @override\n"@);
    lemma_keeps_add(o5 + "\n  });\n"@ + "}\n\n"@ + "/// @nodoc\n"@ + "class __$$$"@ + n + "ImplImplCopyWithImpl<$Res>\n"@ + "    extends _$"@ + n + "CopyWithImpl<$Res, _$$"@ + n + "ImplImpl>\n"@ + "    implements _$$$"@ + n + "ImplImplCopyWith<$Res> {\n"@ + "  __$$$"@ + n + "ImplImplCopyWithImpl(\n"@ + "      _$$"@ + n + "ImplImpl _value, $Res Function(_$$"@ + n + "ImplImpl) _then)\n"@ + "      : super(_value, _then);\n"@ + "\n"@ + "  /// Create a copy of "@ + n + "\n"@ + "  /// with the given fields replaced by the non-null parameter values.\n"@ + "  @pragma('vm:prefer-inline')\n"@ + "  @override\n"@, "  $Res call({"@);
    lemma_keeps_trans(o1, o5 + "\n  });\n"@ + "}\n\n"@ + "/// @nodoc\n"@ + "class __$$$"@ + n + "ImplImplCopyWithImpl<$Res>\n"@ + "    extends _$"@ + n + "CopyWithImpl<$Res, _$$"@ + n + "ImplImpl>\n"@ + "    implements _$$$"@ + n + "ImplImplCopyWith<$Res> {\n"@ + "  __$$$"@ + n + "ImplImplCopyWithImpl(\n"@ + "      _$$"@ + n + "ImplImpl _value, $Res Function(_$$"@ + n + "ImplImpl) _then)\n"@ + "      : super(_value, _then);\n"@ + "\n"@ + "  /// Create a copy of "@ + n + "\n"@ + "  /// with the given fields replaced by the non-null parameter values.\n"@ + "  @pragma('vm:prefer-inline')\n"@ + "  @override\n"@, o5 + "\n  });\n"@ + "}\n\n"@ + "/// @nodoc\n"@ + "class __$$$"@ + n + "ImplImplCopyWithImpl<$Res>\n"@ + "    extends _$"@ + n + "CopyWithImpl<$Res, _$$"@ + n + "ImplImpl>\n"@ + "    implements _$$$"@ + n + "ImplImplCopyWith<$Res> {\n"@ + "  __$$$"@ + n + "ImplImplCopyWithImpl(\n"@ + "      _$$"@ + n + "ImplImpl _value, $Res Function(_$$"@ + n + "ImplImpl) _then)\n"@ + "      : super(_value, _then);\n"@ + "\n"@ + "  /// Create a copy of "@ + n + "\n"@ + "  /// with the given fields replaced by the non-null parameter values.\n"@ + "  @pragma('vm:prefer-inline')\n"@ + "  @override\n"@ + "  $Res call({"@);
    lemma_fold_put_keeps(o5 + "\n  });\n"@ + "}\n\n"@ + "/// @nodoc\n"@ + "class __$$$"@ + n + "ImplImplCopyWithImpl<$Res>\n"@ + "    extends _$"@ + n + "CopyWithImpl<$Res, _$$"@ + n + "ImplImpl>\n"@ + "    implements _$$$"@ + n + "ImplImplCopyWith<$Res> {\n"@ + "  __$$$"@ + n + "ImplImplCopyWithImpl(\n"@ + "      _$$"@ + n + "ImplImpl _value, $Res Function(_$$"@ + n + "ImplImpl) _then)\n"@ + "      : super(_value, _then);\n"@ + "\n"@ + "  /// Create a copy of "@ + n + "\n"@ + "  /// with the given fields replaced by the non-null parameter values.\n"@ + "  @pragma('vm:prefer-inline')\n"@ + "  @override\n"@ + "  $Res call({"@, fs, field_piece_fn(FieldPiece::ObjectParam));
    lemma_keeps_trans(o1, o5 + "\n  });\n"@ + "}\n\n"@ + "/// @nodoc\n"@ + "class __$$$"@ + n + "ImplImplCopyWithImpl<$Res>\n"@ + "    extends _$"@ + n + "CopyWithImpl<$Res, _$$"@ + n + "ImplImpl>\n"@ + "    implements _$$$"@ + n + "ImplImplCopyWith<$Res> {\n"@ + "  __$$$"@ + n + "ImplImplCopyWithImpl(\n"@ + "      _$$"@ + n + "ImplImpl _value, $Res Function(_$$"@ + n + "ImplImpl) _then)\n"@ + "      : super(_value, _then);\n"@ + "\n"@ + "  /// Create a copy of "@ + n + "\n"@ + "  /// with the given fields replaced by the non-null parameter values.\n"@ + "  @pragma('vm:prefer-inline')\n"@ + "  @override\n"@ + "  $Res call({"@, fold_put(o5 + "\n  });\n"@ + "}\n\n"@ + "/// @nodoc\n"@ + "class __$$$"@ + n + "ImplImplCopyWithImpl<$Res>\n"@ + "    extends _$"@ + n + "CopyWithImpl<$Res, _$$"@ + n + "ImplImpl>\n"@ + "    implements _$$$"@ + n + "ImplImplCopyWith<$Res> {\n"@ + "  __$$$"@ + n + "ImplImplCopyWithImpl(\n"@ + "      _$$"@ + n + "ImplImpl _value, $Res Function(_$$"@ + n + "ImplImpl) _then)\n"@ + "      : super(_value, _then);\n"@ + "\n"@ + "  /// Create a copy of "@ + n + "\n"@ + "  /// with the given fields replaced by the non-null parameter values.\n"@ + "  @pragma('vm:prefer-inline')\n"@ + "  @override\n"@ + "  $Res call({"@, fs, field_piece_fn(FieldPiece::ObjectParam)));
    let o6 = fold_put(o5 + "\n  });\n"@ + "}\n\n"@ + "/// @nodoc\n"@ + "class __$$$"@ + n + "ImplImplCopyWithImpl<$Res>\n"@ + "    extends _$"@ + n + "CopyWithImpl<$Res, _$$"@ + n + "ImplImpl>\n"@ + "    implements _$$$"@ + n + "ImplImplCopyWith<$Res> {\n"@ + "  __$$$"@ + n + "ImplImplCopyWithImpl(\n"@ + "      _$$"@ + n + "ImplImpl _value, $Res Function(_$$"@ + n + "ImplImpl) _then)\n"@ + "      : super(_value, _then);\n"@ + "\n"@ + "  /// Create a copy of "@ + n + "\n"@ + "  /// with the given fields replaced by the non-null parameter values.\n"@ + "  @pragma('vm:prefer-inline')\n"@ + "  @override\n"@ + "  $Res call({"@, fs, field_piece_fn(FieldPiece::ObjectParam));
    assert(keeps(o1, o6));
    lemma_keeps_add(o6, "\n  }) {\n"@);
    lemma_keeps_trans(o1, o6, o6 + "\n  }) {\n"@);
    lemma_keeps_add(o6 + "\n  }) {\n"@, "    return _then(_$$"@);
    lemma_keeps_trans(o1, o6 + "\n  }) {\n"@, o6 + "\n  }) {\n"@ + "    return _then(_$$"@);
    lemma_keeps_add(o6 + "\n  }) {\n"@ + "    return _then(_$$"@, n);
    lemma_keeps_trans(o1, o6 + "\n  }) {\n"@ + "    return _then(_$$"@, o6 + "\n  }) {\n"@ + "    return _then(_$$"@ + n);
    lemma_keeps_add(o6 + "\n  }) {\n"@ + "    return _then(_$$"@ + n, "ImplImpl(\n"@);
    lemma_keeps_trans(o1, o6 + "\n  }) {\n"@ + "    return _then(_$$"@ + n, o6 + "\n  }) {\n"@ + "    return _then(_$$"@ + n + "ImplImpl(\n"@);
    lemma_fold_put_keeps(o6 + "\n  }) {\n"@ + "    return _then(_$$"@ + n + "ImplImpl(\n"@, fs, field_piece_fn(FieldPiece::CopyAssign));
    lemma_keeps_trans(o1, o6 + "\n  }) {\n"@ + "    return _then(_$$"@ + n + "ImplImpl(\n"@, fold_put(o6 + "\n  }) {\n"@ + "    return _then(_$$"@ + n + "ImplImpl(\n"@, fs, field_piece_fn(FieldPiece::CopyAssign)));
    let o7 = fold_put(o6 + "\n  }) {\n"@ + "    return _then(_$$"@ + n + "ImplImpl(\n"@, fs, field_piece_fn(FieldPiece::CopyAssign));
    assert(keeps(o1, o7));
    lemma_keeps_add(o7, "    ));\n"@);
    lemma_keeps_trans(o1, o7, o7 + "    ));\n"@);
    lemma_keeps_add(o7 + "    ));\n"@, "  }\n"@);
    lemma_keeps_trans(o1, o7 + "    ));\n"@, o7 + "    ));\n"@ + "  }\n"@);
    lemma_keeps_add(o7 + "    ));\n"@ + "  }\n"@, "}\n\n"@);
    lemma_keeps_trans(o1, o7 + "    ));\n"@ + "  }\n"@, o7 + "    ));\n"@ + "  }\n"@ + "}\n\n"@);
    assert(put_regular_head(o, n, fs) == o7 + "    ));\n"@ + "  }\n"@ + "}\n\n"@);
}

} // verus!
