//! The Dart text that the `build_runner`-style generator writes for a class,
//! written piece by piece.

use vstd::prelude::*;
use crate::commands::freezed_templates::{case_class_name, case_class_name_of};
use crate::commands::generate::{params_view, CaseInfo, DartField, ParamModel};
use crate::commands::syntax_tree::{TreeCase, tree_cases_view};
use crate::text::{
    ends_with, extends, fold_put, keeps, lemma_fold_put_ends, lemma_fold_put_keeps, lemma_fold_put_step, lemma_keeps_add,
    lemma_keeps_refl, lemma_keeps_trans, str_ends_with, contains, is_match_at, lemma_contains_keeps,
};

verus! {

/// The pieces of text written for one field.
#[derive(Clone, Copy, Debug)]
pub enum GPiece {
    /// A final field: `  final Type name;`.
    FinalField,
    /// The first constructor parameter: `this.name` when nullable, `required this.name` otherwise.
    ThisFirst,
    /// A further constructor parameter, after `, `.
    ThisNext,
    /// The first field in a `toString` result: `name: ${name}`.
    ToStrFirst,
    /// A further field in a `toString` result, after `, `.
    ToStrNext,
    /// The comparison of one field in `operator ==`.
    EqLine,
    /// The hash of the first field: `name.hashCode`.
    HashFirst,
    /// The hash of a further field: ` ^ name.hashCode`.
    HashNext,
    /// The first `copyWith` parameter: the type made nullable, then the name.
    CopyParamFirst,
    /// A further `copyWith` parameter, after `, `.
    CopyParamNext,
    /// The first `copyWith` argument: `name: name ?? this.name`.
    CopyArgFirst,
    /// A further `copyWith` argument, after `, `.
    CopyArgNext,
    /// A `copyWith` parameter on a line of its own: `    Type? name,`.
    CopyParamLine,
    /// The first field in a plain `toString` result: `name: $name`.
    ToStrPlainFirst,
    /// A further field in a plain `toString` result, after `, `.
    ToStrPlainNext,
    /// The first comparison of a plain `operator ==`: `        name == other.name`.
    EqFirst,
    /// A further comparison of a plain `operator ==`, after ` &&` and a line break.
    EqNext,
    /// An entry of a `toJson` map: `    'name': instance.name,`.
    ToJsonEntry,
    /// An argument of a `fromJson` constructor call: `    name: json['name'] as Type,`.
    FromJsonEntry,
}

/// `o` followed by the piece `k` of the field `f`.
pub open spec fn put_g_piece(o: Seq<char>, f: ParamModel, k: GPiece) -> Seq<char> {
    match k {
        GPiece::FinalField => {
            o + "  final "@ + f.ty + " "@ + f.name + ";\n"@
        },
        GPiece::ThisFirst => {
            let o1 = o;
            let o2 = if ends_with(f.ty, "?"@) { o1 + "this."@ + f.name } else { o1 + "required this."@ + f.name };
            o2
        },
        GPiece::ThisNext => {
            let o1 = o + ", "@;
            let o2 = if ends_with(f.ty, "?"@) { o1 + "this."@ + f.name } else { o1 + "required this."@ + f.name };
            o2
        },
        GPiece::ToStrFirst => {
            o + f.name + ": ${"@ + f.name + "}"@
        },
        GPiece::ToStrNext => {
            o + ", "@ + f.name + ": ${"@ + f.name + "}"@
        },
        GPiece::EqLine => {
            o + "        "@ + f.name + " == other."@ + f.name + " &&\n"@
        },
        GPiece::HashFirst => {
            o + f.name + ".hashCode"@
        },
        GPiece::HashNext => {
            o + " ^ "@ + f.name + ".hashCode"@
        },
        GPiece::CopyParamFirst => {
            let o1 = o;
            let o2 = if ends_with(f.ty, "?"@) { o1 + f.ty } else { o1 + f.ty + "?"@ };
            o2 + " "@ + f.name
        },
        GPiece::CopyParamNext => {
            let o1 = o + ", "@;
            let o2 = if ends_with(f.ty, "?"@) { o1 + f.ty } else { o1 + f.ty + "?"@ };
            o2 + " "@ + f.name
        },
        GPiece::CopyArgFirst => {
            o + f.name + ": "@ + f.name + " ?? this."@ + f.name
        },
        GPiece::CopyArgNext => {
            o + ", "@ + f.name + ": "@ + f.name + " ?? this."@ + f.name
        },
        GPiece::CopyParamLine => {
            let o1 = o + "    "@;
            let o2 = if ends_with(f.ty, "?"@) { o1 + f.ty } else { o1 + f.ty + "?"@ };
            o2 + " "@ + f.name + ",\n"@
        },
        GPiece::ToStrPlainFirst => {
            o + f.name + ": $"@ + f.name
        },
        GPiece::ToStrPlainNext => {
            o + ", "@ + f.name + ": $"@ + f.name
        },
        GPiece::EqFirst => {
            o + "        "@ + f.name + " == other."@ + f.name
        },
        GPiece::EqNext => {
            o + " &&\n        "@ + f.name + " == other."@ + f.name
        },
        GPiece::ToJsonEntry => {
            o + "    '"@ + f.name + "': instance."@ + f.name + ",\n"@
        },
        GPiece::FromJsonEntry => {
            o + "    "@ + f.name + ": json['"@ + f.name + "'] as "@ + f.ty + ",\n"@
        },
    }
}

/// Appends the piece `k` of the field `f` to `code`.
pub fn emit_g_piece(code: &mut String, f: &DartField, k: GPiece)
    ensures
        final(code)@ == put_g_piece(old(code)@, f@, k),
{
    match k {
        GPiece::FinalField => {
            code.append("  final ");
            code.append(f.ty.as_str());
            code.append(" ");
            code.append(f.name.as_str());
            code.append(";\n");
        },
        GPiece::ThisFirst => {
            if str_ends_with(f.ty.as_str(), "?") {
                code.append("this.");
                code.append(f.name.as_str());
            } else {
                code.append("required this.");
                code.append(f.name.as_str());
            }
        },
        GPiece::ThisNext => {
            code.append(", ");
            if str_ends_with(f.ty.as_str(), "?") {
                code.append("this.");
                code.append(f.name.as_str());
            } else {
                code.append("required this.");
                code.append(f.name.as_str());
            }
        },
        GPiece::ToStrFirst => {
            code.append(f.name.as_str());
            code.append(": ${");
            code.append(f.name.as_str());
            code.append("}");
        },
        GPiece::ToStrNext => {
            code.append(", ");
            code.append(f.name.as_str());
            code.append(": ${");
            code.append(f.name.as_str());
            code.append("}");
        },
        GPiece::EqLine => {
            code.append("        ");
            code.append(f.name.as_str());
            code.append(" == other.");
            code.append(f.name.as_str());
            code.append(" &&\n");
        },
        GPiece::HashFirst => {
            code.append(f.name.as_str());
            code.append(".hashCode");
        },
        GPiece::HashNext => {
            code.append(" ^ ");
            code.append(f.name.as_str());
            code.append(".hashCode");
        },
        GPiece::CopyParamFirst => {
            if str_ends_with(f.ty.as_str(), "?") {
                code.append(f.ty.as_str());
            } else {
                code.append(f.ty.as_str());
                code.append("?");
            }
            code.append(" ");
            code.append(f.name.as_str());
        },
        GPiece::CopyParamNext => {
            code.append(", ");
            if str_ends_with(f.ty.as_str(), "?") {
                code.append(f.ty.as_str());
            } else {
                code.append(f.ty.as_str());
                code.append("?");
            }
            code.append(" ");
            code.append(f.name.as_str());
        },
        GPiece::CopyArgFirst => {
            code.append(f.name.as_str());
            code.append(": ");
            code.append(f.name.as_str());
            code.append(" ?? this.");
            code.append(f.name.as_str());
        },
        GPiece::CopyArgNext => {
            code.append(", ");
            code.append(f.name.as_str());
            code.append(": ");
            code.append(f.name.as_str());
            code.append(" ?? this.");
            code.append(f.name.as_str());
        },
        GPiece::CopyParamLine => {
            code.append("    ");
            if str_ends_with(f.ty.as_str(), "?") {
                code.append(f.ty.as_str());
            } else {
                code.append(f.ty.as_str());
                code.append("?");
            }
            code.append(" ");
            code.append(f.name.as_str());
            code.append(",\n");
        },
        GPiece::ToStrPlainFirst => {
            code.append(f.name.as_str());
            code.append(": $");
            code.append(f.name.as_str());
        },
        GPiece::ToStrPlainNext => {
            code.append(", ");
            code.append(f.name.as_str());
            code.append(": $");
            code.append(f.name.as_str());
        },
        GPiece::EqFirst => {
            code.append("        ");
            code.append(f.name.as_str());
            code.append(" == other.");
            code.append(f.name.as_str());
        },
        GPiece::EqNext => {
            code.append(" &&\n        ");
            code.append(f.name.as_str());
            code.append(" == other.");
            code.append(f.name.as_str());
        },
        GPiece::ToJsonEntry => {
            code.append("    '");
            code.append(f.name.as_str());
            code.append("': instance.");
            code.append(f.name.as_str());
            code.append(",\n");
        },
        GPiece::FromJsonEntry => {
            code.append("    ");
            code.append(f.name.as_str());
            code.append(": json['");
            code.append(f.name.as_str());
            code.append("'] as ");
            code.append(f.ty.as_str());
            code.append(",\n");
        },
    }
}

/// `put_g_piece` for the piece `k`, as a function of the text so far and the field.
pub open spec fn g_piece_fn(k: GPiece) -> spec_fn(Seq<char>, ParamModel) -> Seq<char> {
    |o: Seq<char>, f: ParamModel| put_g_piece(o, f, k)
}

/// Appends the piece `k` of each of `fields[start..]`, in order.
pub fn emit_g_fields_from(code: &mut String, fields: &[DartField], start: usize, k: GPiece)
    requires
        start <= fields@.len(),
    ensures
        final(code)@ == fold_put(old(code)@, params_view(fields@).skip(start as int), g_piece_fn(k)),
{
    let ghost fs = params_view(fields@);
    let ghost first = code@;
    let mut i: usize = start;
    proof {
        lemma_fold_put_ends(first, fs, g_piece_fn(k));
    }
    while i < fields.len()
        invariant
            start <= i <= fields@.len(),
            fs == params_view(fields@),
            fold_put(code@, fs.skip(i as int), g_piece_fn(k)) == fold_put(first, fs.skip(start as int), g_piece_fn(k)),
        decreases fields.len() - i,
    {
        let ghost before = code@;
        emit_g_piece(code, &fields[i], k);
        proof {
            lemma_fold_put_step(before, fs, i as int, g_piece_fn(k));
        }
        i += 1;
    }
    proof {
        lemma_fold_put_ends(code@, fs, g_piece_fn(k));
    }
}

/// Appends the piece `k` of each of `fields`, in order.
pub fn emit_g_fields(code: &mut String, fields: &[DartField], k: GPiece)
    ensures
        final(code)@ == fold_put(old(code)@, params_view(fields@), g_piece_fn(k)),
{
    proof {
        lemma_fold_put_ends(code@, params_view(fields@), g_piece_fn(k));
    }
    emit_g_fields_from(code, fields, 0, k);
}

/// `o` followed by the fields joined: the first as the piece `first`, the others
/// as the piece `next`.
pub open spec fn put_g_joined(o: Seq<char>, fs: Seq<ParamModel>, first: GPiece, next: GPiece) -> Seq<char> {
    if fs.len() == 0 {
        o
    } else {
        fold_put(put_g_piece(o, fs[0], first), fs.skip(1), g_piece_fn(next))
    }
}

/// Appends the fields joined as `put_g_joined` describes.
pub fn emit_g_joined(code: &mut String, fields: &[DartField], first: GPiece, next: GPiece)
    ensures
        final(code)@ == put_g_joined(old(code)@, params_view(fields@), first, next),
{
    if fields.len() > 0 {
        emit_g_piece(code, &fields[0], first);
        emit_g_fields_from(code, fields, 1, next);
    }
}

/// The class of the union case `c` of the class `n`, with its fields, `toString`, `==`, `hashCode` and `toJson`.
pub open spec fn put_g_case_class(o: Seq<char>, n: Seq<char>, c: TreeCase) -> Seq<char> {
    let o1 = o;
    let o2 = fold_put(o1 + "class "@ + case_class_name(n, c.case_name) + " implements "@ + n + " {\n"@, c.fields, g_piece_fn(GPiece::FinalField));
    let o3 = put_g_joined(o2 + "\n"@ + "  const "@ + case_class_name(n, c.case_name) + "({"@, c.fields, GPiece::ThisFirst, GPiece::ThisNext);
    let o4 = put_g_joined(o3 + "});\n\n"@ + "  @override\n  String toString() {\n    return '"@ + case_class_name(n, c.case_name) + "("@, c.fields, GPiece::ToStrFirst, GPiece::ToStrNext);
    let o5 = fold_put(o4 + ")"@ + "';\n  }\n\n"@ + "  @override\n  bool operator ==(Object other) {\n    return identical(this, other) ||\n        other is "@ + case_class_name(n, c.case_name) + " &&\n"@, c.fields, g_piece_fn(GPiece::EqLine));
    let o6 = put_g_joined(o5 + "        true;\n  }\n\n"@ + "  @override\n  int get hashCode => "@, c.fields, GPiece::HashFirst, GPiece::HashNext);
    let o7 = o6;
    let o8 = if c.fields.len() == 0 { o7 + "0"@ } else { o7 };
    o8 + ";\n\n"@ + "  Map<String, dynamic> toJson() => _$"@ + case_class_name(n, c.case_name) + "ToJson(this);\n"@ + "}\n\n"@
}

/// Appends the class of a union case, as `put_g_case_class` describes.
pub fn emit_g_case_class(code: &mut String, n: &str, c: &CaseInfo)
    ensures
        final(code)@ == put_g_case_class(old(code)@, n@, c@),
{
    let ccn = case_class_name_of(n, c.case_name.as_str());
    code.append("class ");
    code.append(ccn.as_str());
    code.append(" implements ");
    code.append(n);
    code.append(" {\n");
    emit_g_fields(code, c.fields.as_slice(), GPiece::FinalField);
    code.append("\n");
    code.append("  const ");
    code.append(ccn.as_str());
    code.append("({");
    emit_g_joined(code, c.fields.as_slice(), GPiece::ThisFirst, GPiece::ThisNext);
    code.append("});\n\n");
    code.append("  @override\n  String toString() {\n    return '");
    code.append(ccn.as_str());
    code.append("(");
    emit_g_joined(code, c.fields.as_slice(), GPiece::ToStrFirst, GPiece::ToStrNext);
    code.append(")");
    code.append("';\n  }\n\n");
    code.append("  @override\n  bool operator ==(Object other) {\n    return identical(this, other) ||\n        other is ");
    code.append(ccn.as_str());
    code.append(" &&\n");
    emit_g_fields(code, c.fields.as_slice(), GPiece::EqLine);
    code.append("        true;\n  }\n\n");
    code.append("  @override\n  int get hashCode => ");
    emit_g_joined(code, c.fields.as_slice(), GPiece::HashFirst, GPiece::HashNext);
    if c.fields.len() == 0 {
        code.append("0");
    } else {
    }
    code.append(";\n\n");
    code.append("  Map<String, dynamic> toJson() => _$");
    code.append(ccn.as_str());
    code.append("ToJson(this);\n");
    code.append("}\n\n");
}

/// The `toJson` and `fromJson` functions of the union case `c` of the class `n`.
pub open spec fn put_g_case_json(o: Seq<char>, n: Seq<char>, c: TreeCase) -> Seq<char> {
    let o1 = o;
    let o2 = fold_put(o1 + "Map<String, dynamic> _$"@ + case_class_name(n, c.case_name) + "ToJson("@ + case_class_name(n, c.case_name) + " instance) {\n"@ + "  return {\n"@, c.fields, g_piece_fn(GPiece::ToJsonEntry));
    let o3 = fold_put(o2 + "  };\n"@ + "}\n\n"@ + case_class_name(n, c.case_name) + " _$"@ + case_class_name(n, c.case_name) + "FromJson(Map<String, dynamic> json) {\n"@ + "  return "@ + case_class_name(n, c.case_name) + "(\n"@, c.fields, g_piece_fn(GPiece::FromJsonEntry));
    o3 + "  );\n"@ + "}\n\n"@
}

/// Appends the JSON functions of a union case, as `put_g_case_json` describes.
pub fn emit_g_case_json(code: &mut String, n: &str, c: &CaseInfo)
    ensures
        final(code)@ == put_g_case_json(old(code)@, n@, c@),
{
    let ccn = case_class_name_of(n, c.case_name.as_str());
    code.append("Map<String, dynamic> _$");
    code.append(ccn.as_str());
    code.append("ToJson(");
    code.append(ccn.as_str());
    code.append(" instance) {\n");
    code.append("  return {\n");
    emit_g_fields(code, c.fields.as_slice(), GPiece::ToJsonEntry);
    code.append("  };\n");
    code.append("}\n\n");
    code.append(ccn.as_str());
    code.append(" _$");
    code.append(ccn.as_str());
    code.append("FromJson(Map<String, dynamic> json) {\n");
    code.append("  return ");
    code.append(ccn.as_str());
    code.append("(\n");
    emit_g_fields(code, c.fields.as_slice(), GPiece::FromJsonEntry);
    code.append("  );\n");
    code.append("}\n\n");
}

/// The comment that stands for the JSON code of the union case `c` of the class `n`.
pub open spec fn put_g_case_comment(o: Seq<char>, n: Seq<char>, c: TreeCase) -> Seq<char> {
    let o1 = o;
    o1 + "// "@ + case_class_name(n, c.case_name) + ": generated by Rust, JSON serialization is handled by build_runner\n"@
}

/// Appends the comment of a union case, as `put_g_case_comment` describes.
pub fn emit_g_case_comment(code: &mut String, n: &str, c: &CaseInfo)
    ensures
        final(code)@ == put_g_case_comment(old(code)@, n@, c@),
{
    let ccn = case_class_name_of(n, c.case_name.as_str());
    code.append("// ");
    code.append(ccn.as_str());
    code.append(": generated by Rust, JSON serialization is handled by build_runner\n");
}

/// The mixin and the implementation class of the regular class `n` with the fields `fs`.
pub open spec fn put_g_regular_class(o: Seq<char>, n: Seq<char>, fs: Seq<ParamModel>) -> Seq<char> {
    let o1 = put_g_joined(o + "mixin _$"@ + n + " {\n"@ + "  "@ + n + " copyWith({"@, fs, GPiece::CopyParamFirst, GPiece::CopyParamNext);
    let o2 = fold_put(o1 + "});\n"@ + "}\n\n"@ + "class _"@ + n + " with _$"@ + n + " implements "@ + n + " {\n"@, fs, g_piece_fn(GPiece::FinalField));
    let o3 = put_g_joined(o2 + "\n"@ + "  const _"@ + n + "({"@, fs, GPiece::ThisFirst, GPiece::ThisNext);
    let o4 = put_g_joined(o3 + ");\n\n"@ + "  @override\n  "@ + n + " copyWith({"@, fs, GPiece::CopyParamFirst, GPiece::CopyParamNext);
    let o5 = put_g_joined(o4 + "}}) {\n"@ + "    return _"@ + n + "("@, fs, GPiece::CopyArgFirst, GPiece::CopyArgNext);
    let o6 = put_g_joined(o5 + ");\n  }\n\n"@ + "  @override\n  String toString() {\n    return '"@ + n + "("@, fs, GPiece::ToStrFirst, GPiece::ToStrNext);
    let o7 = fold_put(o6 + ")';\n  }\n\n"@ + "  @override\n  bool operator ==(Object other) {\n    return identical(this, other) ||\n        other is _"@ + n + " &&\n"@, fs, g_piece_fn(GPiece::EqLine));
    let o8 = put_g_joined(o7 + "        true;\n  }\n\n"@ + "  @override\n  int get hashCode => "@, fs, GPiece::HashFirst, GPiece::HashNext);
    o8 + ";\n\n"@ + "  Map<String, dynamic> toJson() => _$"@ + n + "ToJson(this);\n"@ + "}\n"@
}

/// Appends the classes of a regular class, as `put_g_regular_class` describes.
pub fn emit_g_regular_class(code: &mut String, n: &str, fields: &[DartField])
    ensures
        final(code)@ == put_g_regular_class(old(code)@, n@, params_view(fields@)),
{
    code.append("mixin _$");
    code.append(n);
    code.append(" {\n");
    code.append("  ");
    code.append(n);
    code.append(" copyWith({");
    emit_g_joined(code, fields, GPiece::CopyParamFirst, GPiece::CopyParamNext);
    code.append("});\n");
    code.append("}\n\n");
    code.append("class _");
    code.append(n);
    code.append(" with _$");
    code.append(n);
    code.append(" implements ");
    code.append(n);
    code.append(" {\n");
    emit_g_fields(code, fields, GPiece::FinalField);
    code.append("\n");
    code.append("  const _");
    code.append(n);
    code.append("({");
    emit_g_joined(code, fields, GPiece::ThisFirst, GPiece::ThisNext);
    code.append(");\n\n");
    code.append("  @override\n  ");
    code.append(n);
    code.append(" copyWith({");
    emit_g_joined(code, fields, GPiece::CopyParamFirst, GPiece::CopyParamNext);
    code.append("}}) {\n");
    code.append("    return _");
    code.append(n);
    code.append("(");
    emit_g_joined(code, fields, GPiece::CopyArgFirst, GPiece::CopyArgNext);
    code.append(");\n  }\n\n");
    code.append("  @override\n  String toString() {\n    return '");
    code.append(n);
    code.append("(");
    emit_g_joined(code, fields, GPiece::ToStrFirst, GPiece::ToStrNext);
    code.append(")';\n  }\n\n");
    code.append("  @override\n  bool operator ==(Object other) {\n    return identical(this, other) ||\n        other is _");
    code.append(n);
    code.append(" &&\n");
    emit_g_fields(code, fields, GPiece::EqLine);
    code.append("        true;\n  }\n\n");
    code.append("  @override\n  int get hashCode => ");
    emit_g_joined(code, fields, GPiece::HashFirst, GPiece::HashNext);
    code.append(";\n\n");
    code.append("  Map<String, dynamic> toJson() => _$");
    code.append(n);
    code.append("ToJson(this);\n");
    code.append("}\n");
}

/// The `toJson` and `fromJson` functions of the regular class `n` with the fields `fs`.
pub open spec fn put_g_regular_json(o: Seq<char>, n: Seq<char>, fs: Seq<ParamModel>) -> Seq<char> {
    let o1 = fold_put(o + "Map<String, dynamic> _$"@ + n + "ToJson("@ + n + " instance) {\n"@ + "  return {\n"@, fs, g_piece_fn(GPiece::ToJsonEntry));
    let o2 = fold_put(o1 + "  };\n"@ + "}\n\n"@ + n + " _$"@ + n + "FromJson(Map<String, dynamic> json) {\n"@ + "  return "@ + n + "(\n"@, fs, g_piece_fn(GPiece::FromJsonEntry));
    o2 + "  );\n"@ + "}\n"@
}

/// Appends the JSON functions of a regular class, as `put_g_regular_json` describes.
pub fn emit_g_regular_json(code: &mut String, n: &str, fields: &[DartField])
    ensures
        final(code)@ == put_g_regular_json(old(code)@, n@, params_view(fields@)),
{
    code.append("Map<String, dynamic> _$");
    code.append(n);
    code.append("ToJson(");
    code.append(n);
    code.append(" instance) {\n");
    code.append("  return {\n");
    emit_g_fields(code, fields, GPiece::ToJsonEntry);
    code.append("  };\n");
    code.append("}\n\n");
    code.append(n);
    code.append(" _$");
    code.append(n);
    code.append("FromJson(Map<String, dynamic> json) {\n");
    code.append("  return ");
    code.append(n);
    code.append("(\n");
    emit_g_fields(code, fields, GPiece::FromJsonEntry);
    code.append("  );\n");
    code.append("}\n");
}

/// A `copyWith` method for the class `n` with the fields `fs`, each parameter on a line of its own.
pub open spec fn put_g_copy_with(o: Seq<char>, n: Seq<char>, fs: Seq<ParamModel>) -> Seq<char> {
    let o1 = fold_put(o + "  "@ + n + " copyWith({\n"@, fs, g_piece_fn(GPiece::CopyParamLine));
    let o2 = put_g_joined(o1 + "  }) {\n"@ + "    return _"@ + n + "("@, fs, GPiece::CopyArgFirst, GPiece::CopyArgNext);
    o2 + ");\n"@ + "  }\n"@
}

/// Appends a `copyWith` method, as `put_g_copy_with` describes.
pub fn emit_g_copy_with(code: &mut String, n: &str, fields: &[DartField])
    ensures
        final(code)@ == put_g_copy_with(old(code)@, n@, params_view(fields@)),
{
    code.append("  ");
    code.append(n);
    code.append(" copyWith({\n");
    emit_g_fields(code, fields, GPiece::CopyParamLine);
    code.append("  }) {\n");
    code.append("    return _");
    code.append(n);
    code.append("(");
    emit_g_joined(code, fields, GPiece::CopyArgFirst, GPiece::CopyArgNext);
    code.append(");\n");
    code.append("  }\n");
}

/// A `toString` method for the class `n` with the fields `fs`.
pub open spec fn put_g_to_string(o: Seq<char>, n: Seq<char>, fs: Seq<ParamModel>) -> Seq<char> {
    let o1 = put_g_joined(o + "  @override\n"@ + "  String toString() {\n"@ + "    return '"@ + n + "("@, fs, GPiece::ToStrPlainFirst, GPiece::ToStrPlainNext);
    o1 + ")';\n"@ + "  }\n"@
}

/// Appends a `toString` method, as `put_g_to_string` describes.
pub fn emit_g_to_string(code: &mut String, n: &str, fields: &[DartField])
    ensures
        final(code)@ == put_g_to_string(old(code)@, n@, params_view(fields@)),
{
    code.append("  @override\n");
    code.append("  String toString() {\n");
    code.append("    return '");
    code.append(n);
    code.append("(");
    emit_g_joined(code, fields, GPiece::ToStrPlainFirst, GPiece::ToStrPlainNext);
    code.append(")';\n");
    code.append("  }\n");
}

/// An `operator ==` for the class `_n` with the fields `fs`.
pub open spec fn put_g_eq(o: Seq<char>, n: Seq<char>, fs: Seq<ParamModel>) -> Seq<char> {
    let o1 = put_g_joined(o + "  @override\n"@ + "  bool operator ==(Object other) {\n"@ + "    return identical(this, other) ||\n"@ + "        other is _"@ + n + " &&\n"@, fs, GPiece::EqFirst, GPiece::EqNext);
    o1 + ";\n"@ + "  }\n"@
}

/// Appends an `operator ==`, as `put_g_eq` describes.
pub fn emit_g_eq(code: &mut String, n: &str, fields: &[DartField])
    ensures
        final(code)@ == put_g_eq(old(code)@, n@, params_view(fields@)),
{
    code.append("  @override\n");
    code.append("  bool operator ==(Object other) {\n");
    code.append("    return identical(this, other) ||\n");
    code.append("        other is _");
    code.append(n);
    code.append(" &&\n");
    emit_g_joined(code, fields, GPiece::EqFirst, GPiece::EqNext);
    code.append(";\n");
    code.append("  }\n");
}

/// A `hashCode` getter combining the hashes of the fields `fs` (`0` without fields).
pub open spec fn put_g_hash_code(o: Seq<char>, n: Seq<char>, fs: Seq<ParamModel>) -> Seq<char> {
    let o1 = put_g_joined(o + "  @override\n"@ + "  int get hashCode => "@, fs, GPiece::HashFirst, GPiece::HashNext);
    let o2 = o1;
    let o3 = if fs.len() == 0 { o2 + "0"@ } else { o2 };
    o3 + ";\n"@
}

/// Appends a `hashCode` getter, as `put_g_hash_code` describes.
pub fn emit_g_hash_code(code: &mut String, n: &str, fields: &[DartField])
    ensures
        final(code)@ == put_g_hash_code(old(code)@, n@, params_view(fields@)),
{
    code.append("  @override\n");
    code.append("  int get hashCode => ");
    emit_g_joined(code, fields, GPiece::HashFirst, GPiece::HashNext);
    if fields.len() == 0 {
        code.append("0");
    } else {
    }
    code.append(";\n");
}

/// The union case pieces written for each case.
#[derive(Clone, Copy, Debug)]
pub enum GCasePart {
    /// The class of the case.
    Class,
    /// The JSON functions of the case.
    Json,
    /// The comment standing for the case's JSON code.
    Comment,
}

/// `o` followed by the part `p` of the case `c` of the class `n`.
pub open spec fn put_g_case_part(o: Seq<char>, n: Seq<char>, c: TreeCase, p: GCasePart) -> Seq<char> {
    match p {
        GCasePart::Class => put_g_case_class(o, n, c),
        GCasePart::Json => put_g_case_json(o, n, c),
        GCasePart::Comment => put_g_case_comment(o, n, c),
    }
}

/// `put_g_case_part` as a function of the text so far and the case.
pub open spec fn g_case_part_fn(n: Seq<char>, p: GCasePart) -> spec_fn(Seq<char>, TreeCase) -> Seq<char> {
    |o: Seq<char>, c: TreeCase| put_g_case_part(o, n, c, p)
}

/// Appends the part `p` of each of `cases`, in order.
pub fn emit_g_cases(code: &mut String, n: &str, cases: &[CaseInfo], p: GCasePart)
    ensures
        final(code)@ == fold_put(old(code)@, tree_cases_view(cases@), g_case_part_fn(n@, p)),
{
    let ghost cs = tree_cases_view(cases@);
    let ghost first = code@;
    proof {
        lemma_fold_put_ends(first, cs, g_case_part_fn(n@, p));
    }
    let mut i: usize = 0;
    while i < cases.len()
        invariant
            i <= cases@.len(),
            cs == tree_cases_view(cases@),
            fold_put(code@, cs.skip(i as int), g_case_part_fn(n@, p)) == fold_put(first, cs, g_case_part_fn(n@, p)),
        decreases cases.len() - i,
    {
        let ghost before = code@;
        match p {
            GCasePart::Class => emit_g_case_class(code, n, &cases[i]),
            GCasePart::Json => emit_g_case_json(code, n, &cases[i]),
            GCasePart::Comment => emit_g_case_comment(code, n, &cases[i]),
        }
        proof {
            lemma_fold_put_step(before, cs, i as int, g_case_part_fn(n@, p));
        }
        i += 1;
    }
    proof {
        lemma_fold_put_ends(code@, cs, g_case_part_fn(n@, p));
    }
}


// ---------------------------------------------------------------------------
// Writing only appends
// ---------------------------------------------------------------------------

/// Writing a piece of a field only appends to the text.
proof fn lemma_g_piece_extends(k: GPiece)
    ensures
        extends(g_piece_fn(k)),
{
    reveal(keeps);
    assert forall|o: Seq<char>, f: ParamModel| #[trigger] keeps(o, g_piece_fn(k)(o, f)) by {
        assert(g_piece_fn(k)(o, f) == put_g_piece(o, f, k));
    }
}

/// Writing fields joined only appends to the text.
proof fn lemma_g_joined_keeps(o: Seq<char>, fs: Seq<ParamModel>, first: GPiece, next: GPiece)
    ensures
        keeps(o, put_g_joined(o, fs, first, next)),
{
    if fs.len() > 0 {
        lemma_g_piece_extends(first);
        lemma_g_piece_extends(next);
        let o1 = put_g_piece(o, fs[0], first);
        assert(keeps(o, g_piece_fn(first)(o, fs[0])));
        lemma_fold_put_keeps(o1, fs.skip(1), g_piece_fn(next));
        lemma_keeps_trans(o, o1, put_g_joined(o, fs, first, next));
    } else {
        lemma_keeps_refl(o);
    }
}

/// Writing this part only appends to the text.
#[verifier::rlimit(100)]
proof fn lemma_put_g_case_class_keeps(o: Seq<char>, n: Seq<char>, c: TreeCase)
    ensures
        keeps(o, put_g_case_class(o, n, c)),
{
    lemma_g_piece_extends(GPiece::FinalField);
    lemma_g_piece_extends(GPiece::ThisFirst);
    lemma_g_piece_extends(GPiece::ThisNext);
    lemma_g_piece_extends(GPiece::ToStrFirst);
    lemma_g_piece_extends(GPiece::ToStrNext);
    lemma_g_piece_extends(GPiece::EqLine);
    lemma_g_piece_extends(GPiece::HashFirst);
    lemma_g_piece_extends(GPiece::HashNext);
    lemma_g_piece_extends(GPiece::CopyParamFirst);
    lemma_g_piece_extends(GPiece::CopyParamNext);
    lemma_g_piece_extends(GPiece::CopyArgFirst);
    lemma_g_piece_extends(GPiece::CopyArgNext);
    lemma_g_piece_extends(GPiece::CopyParamLine);
    lemma_g_piece_extends(GPiece::ToStrPlainFirst);
    lemma_g_piece_extends(GPiece::ToStrPlainNext);
    lemma_g_piece_extends(GPiece::EqFirst);
    lemma_g_piece_extends(GPiece::EqNext);
    lemma_g_piece_extends(GPiece::ToJsonEntry);
    lemma_g_piece_extends(GPiece::FromJsonEntry);
    lemma_keeps_refl(o);
    let o1 = o;
    assert(keeps(o, o1));
    lemma_keeps_add(o1, "class "@);
    lemma_keeps_trans(o, o1, o1 + "class "@);
    lemma_keeps_add(o1 + "class "@, case_class_name(n, c.case_name));
    lemma_keeps_trans(o, o1 + "class "@, o1 + "class "@ + case_class_name(n, c.case_name));
    lemma_keeps_add(o1 + "class "@ + case_class_name(n, c.case_name), " implements "@);
    lemma_keeps_trans(o, o1 + "class "@ + case_class_name(n, c.case_name), o1 + "class "@ + case_class_name(n, c.case_name) + " implements "@);
    lemma_keeps_add(o1 + "class "@ + case_class_name(n, c.case_name) + " implements "@, n);
    lemma_keeps_trans(o, o1 + "class "@ + case_class_name(n, c.case_name) + " implements "@, o1 + "class "@ + case_class_name(n, c.case_name) + " implements "@ + n);
    lemma_keeps_add(o1 + "class "@ + case_class_name(n, c.case_name) + " implements "@ + n, " {\n"@);
    lemma_keeps_trans(o, o1 + "class "@ + case_class_name(n, c.case_name) + " implements "@ + n, o1 + "class "@ + case_class_name(n, c.case_name) + " implements "@ + n + " {\n"@);
    lemma_fold_put_keeps(o1 + "class "@ + case_class_name(n, c.case_name) + " implements "@ + n + " {\n"@, c.fields, g_piece_fn(GPiece::FinalField));
    lemma_keeps_trans(o, o1 + "class "@ + case_class_name(n, c.case_name) + " implements "@ + n + " {\n"@, fold_put(o1 + "class "@ + case_class_name(n, c.case_name) + " implements "@ + n + " {\n"@, c.fields, g_piece_fn(GPiece::FinalField)));
    let o2 = fold_put(o1 + "class "@ + case_class_name(n, c.case_name) + " implements "@ + n + " {\n"@, c.fields, g_piece_fn(GPiece::FinalField));
    assert(keeps(o, o2));
    lemma_keeps_add(o2, "\n"@);
    lemma_keeps_trans(o, o2, o2 + "\n"@);
    lemma_keeps_add(o2 + "\n"@, "  const "@);
    lemma_keeps_trans(o, o2 + "\n"@, o2 + "\n"@ + "  const "@);
    lemma_keeps_add(o2 + "\n"@ + "  const "@, case_class_name(n, c.case_name));
    lemma_keeps_trans(o, o2 + "\n"@ + "  const "@, o2 + "\n"@ + "  const "@ + case_class_name(n, c.case_name));
    lemma_keeps_add(o2 + "\n"@ + "  const "@ + case_class_name(n, c.case_name), "({"@);
    lemma_keeps_trans(o, o2 + "\n"@ + "  const "@ + case_class_name(n, c.case_name), o2 + "\n"@ + "  const "@ + case_class_name(n, c.case_name) + "({"@);
    lemma_g_joined_keeps(o2 + "\n"@ + "  const "@ + case_class_name(n, c.case_name) + "({"@, c.fields, GPiece::ThisFirst, GPiece::ThisNext);
    lemma_keeps_trans(o, o2 + "\n"@ + "  const "@ + case_class_name(n, c.case_name) + "({"@, put_g_joined(o2 + "\n"@ + "  const "@ + case_class_name(n, c.case_name) + "({"@, c.fields, GPiece::ThisFirst, GPiece::ThisNext));
    let o3 = put_g_joined(o2 + "\n"@ + "  const "@ + case_class_name(n, c.case_name) + "({"@, c.fields, GPiece::ThisFirst, GPiece::ThisNext);
    assert(keeps(o, o3));
    lemma_keeps_add(o3, "});\n\n"@);
    lemma_keeps_trans(o, o3, o3 + "});\n\n"@);
    lemma_keeps_add(o3 + "});\n\n"@, "  @override\n  String toString() {\n    return '"@);
    lemma_keeps_trans(o, o3 + "});\n\n"@, o3 + "});\n\n"@ + "  @override\n  String toString() {\n    return '"@);
    lemma_keeps_add(o3 + "});\n\n"@ + "  @override\n  String toString() {\n    return '"@, case_class_name(n, c.case_name));
    lemma_keeps_trans(o, o3 + "});\n\n"@ + "  @override\n  String toString() {\n    return '"@, o3 + "});\n\n"@ + "  @override\n  String toString() {\n    return '"@ + case_class_name(n, c.case_name));
    lemma_keeps_add(o3 + "});\n\n"@ + "  @override\n  String toString() {\n    return '"@ + case_class_name(n, c.case_name), "("@);
    lemma_keeps_trans(o, o3 + "});\n\n"@ + "  @override\n  String toString() {\n    return '"@ + case_class_name(n, c.case_name), o3 + "});\n\n"@ + "  @override\n  String toString() {\n    return '"@ + case_class_name(n, c.case_name) + "("@);
    lemma_g_joined_keeps(o3 + "});\n\n"@ + "  @override\n  String toString() {\n    return '"@ + case_class_name(n, c.case_name) + "("@, c.fields, GPiece::ToStrFirst, GPiece::ToStrNext);
    lemma_keeps_trans(o, o3 + "});\n\n"@ + "  @override\n  String toString() {\n    return '"@ + case_class_name(n, c.case_name) + "("@, put_g_joined(o3 + "});\n\n"@ + "  @override\n  String toString() {\n    return '"@ + case_class_name(n, c.case_name) + "("@, c.fields, GPiece::ToStrFirst, GPiece::ToStrNext));
    let o4 = put_g_joined(o3 + "});\n\n"@ + "  @override\n  String toString() {\n    return '"@ + case_class_name(n, c.case_name) + "("@, c.fields, GPiece::ToStrFirst, GPiece::ToStrNext);
    assert(keeps(o, o4));
    lemma_keeps_add(o4, ")"@);
    lemma_keeps_trans(o, o4, o4 + ")"@);
    lemma_keeps_add(o4 + ")"@, "';\n  }\n\n"@);
    lemma_keeps_trans(o, o4 + ")"@, o4 + ")"@ + "';\n  }\n\n"@);
    lemma_keeps_add(o4 + ")"@ + "';\n  }\n\n"@, "  @override\n  bool operator ==(Object other) {\n    return identical(this, other) ||\n        other is "@);
    lemma_keeps_trans(o, o4 + ")"@ + "';\n  }\n\n"@, o4 + ")"@ + "';\n  }\n\n"@ + "  @override\n  bool operator ==(Object other) {\n    return identical(this, other) ||\n        other is "@);
    lemma_keeps_add(o4 + ")"@ + "';\n  }\n\n"@ + "  @override\n  bool operator ==(Object other) {\n    return identical(this, other) ||\n        other is "@, case_class_name(n, c.case_name));
    lemma_keeps_trans(o, o4 + ")"@ + "';\n  }\n\n"@ + "  @override\n  bool operator ==(Object other) {\n    return identical(this, other) ||\n        other is "@, o4 + ")"@ + "';\n  }\n\n"@ + "  @override\n  bool operator ==(Object other) {\n    return identical(this, other) ||\n        other is "@ + case_class_name(n, c.case_name));
    lemma_keeps_add(o4 + ")"@ + "';\n  }\n\n"@ + "  @override\n  bool operator ==(Object other) {\n    return identical(this, other) ||\n        other is "@ + case_class_name(n, c.case_name), " &&\n"@);
    lemma_keeps_trans(o, o4 + ")"@ + "';\n  }\n\n"@ + "  @override\n  bool operator ==(Object other) {\n    return identical(this, other) ||\n        other is "@ + case_class_name(n, c.case_name), o4 + ")"@ + "';\n  }\n\n"@ + "  @override\n  bool operator ==(Object other) {\n    return identical(this, other) ||\n        other is "@ + case_class_name(n, c.case_name) + " &&\n"@);
    lemma_fold_put_keeps(o4 + ")"@ + "';\n  }\n\n"@ + "  @override\n  bool operator ==(Object other) {\n    return identical(this, other) ||\n        other is "@ + case_class_name(n, c.case_name) + " &&\n"@, c.fields, g_piece_fn(GPiece::EqLine));
    lemma_keeps_trans(o, o4 + ")"@ + "';\n  }\n\n"@ + "  @override\n  bool operator ==(Object other) {\n    return identical(this, other) ||\n        other is "@ + case_class_name(n, c.case_name) + " &&\n"@, fold_put(o4 + ")"@ + "';\n  }\n\n"@ + "  @override\n  bool operator ==(Object other) {\n    return identical(this, other) ||\n        other is "@ + case_class_name(n, c.case_name) + " &&\n"@, c.fields, g_piece_fn(GPiece::EqLine)));
    let o5 = fold_put(o4 + ")"@ + "';\n  }\n\n"@ + "  @override\n  bool operator ==(Object other) {\n    return identical(this, other) ||\n        other is "@ + case_class_name(n, c.case_name) + " &&\n"@, c.fields, g_piece_fn(GPiece::EqLine));
    assert(keeps(o, o5));
    lemma_keeps_add(o5, "        true;\n  }\n\n"@);
    lemma_keeps_trans(o, o5, o5 + "        true;\n  }\n\n"@);
    lemma_keeps_add(o5 + "        true;\n  }\n\n"@, "  @override\n  int get hashCode => "@);
    lemma_keeps_trans(o, o5 + "        true;\n  }\n\n"@, o5 + "        true;\n  }\n\n"@ + "  @override\n  int get hashCode => "@);
    lemma_g_joined_keeps(o5 + "        true;\n  }\n\n"@ + "  @override\n  int get hashCode => "@, c.fields, GPiece::HashFirst, GPiece::HashNext);
    lemma_keeps_trans(o, o5 + "        true;\n  }\n\n"@ + "  @override\n  int get hashCode => "@, put_g_joined(o5 + "        true;\n  }\n\n"@ + "  @override\n  int get hashCode => "@, c.fields, GPiece::HashFirst, GPiece::HashNext));
    let o6 = put_g_joined(o5 + "        true;\n  }\n\n"@ + "  @override\n  int get hashCode => "@, c.fields, GPiece::HashFirst, GPiece::HashNext);
    assert(keeps(o, o6));
    let o7 = o6;
    assert(keeps(o, o7));
    if c.fields.len() == 0 {
        lemma_keeps_add(o7, "0"@);
        lemma_keeps_trans(o, o7, o7 + "0"@);
    } else {
    }
    let o8 = if c.fields.len() == 0 { o7 + "0"@ } else { o7 };
    assert(keeps(o, o8));
    lemma_keeps_add(o8, ";\n\n"@);
    lemma_keeps_trans(o, o8, o8 + ";\n\n"@);
    lemma_keeps_add(o8 + ";\n\n"@, "  Map<String, dynamic> toJson() => _$"@);
    lemma_keeps_trans(o, o8 + ";\n\n"@, o8 + ";\n\n"@ + "  Map<String, dynamic> toJson() => _$"@);
    lemma_keeps_add(o8 + ";\n\n"@ + "  Map<String, dynamic> toJson() => _$"@, case_class_name(n, c.case_name));
    lemma_keeps_trans(o, o8 + ";\n\n"@ + "  Map<String, dynamic> toJson() => _$"@, o8 + ";\n\n"@ + "  Map<String, dynamic> toJson() => _$"@ + case_class_name(n, c.case_name));
    lemma_keeps_add(o8 + ";\n\n"@ + "  Map<String, dynamic> toJson() => _$"@ + case_class_name(n, c.case_name), "ToJson(this);\n"@);
    lemma_keeps_trans(o, o8 + ";\n\n"@ + "  Map<String, dynamic> toJson() => _$"@ + case_class_name(n, c.case_name), o8 + ";\n\n"@ + "  Map<String, dynamic> toJson() => _$"@ + case_class_name(n, c.case_name) + "ToJson(this);\n"@);
    lemma_keeps_add(o8 + ";\n\n"@ + "  Map<String, dynamic> toJson() => _$"@ + case_class_name(n, c.case_name) + "ToJson(this);\n"@, "}\n\n"@);
    lemma_keeps_trans(o, o8 + ";\n\n"@ + "  Map<String, dynamic> toJson() => _$"@ + case_class_name(n, c.case_name) + "ToJson(this);\n"@, o8 + ";\n\n"@ + "  Map<String, dynamic> toJson() => _$"@ + case_class_name(n, c.case_name) + "ToJson(this);\n"@ + "}\n\n"@);
    assert(put_g_case_class(o, n, c) == o8 + ";\n\n"@ + "  Map<String, dynamic> toJson() => _$"@ + case_class_name(n, c.case_name) + "ToJson(this);\n"@ + "}\n\n"@);
}

/// Writing this part only appends to the text.
#[verifier::rlimit(100)]
proof fn lemma_put_g_case_json_keeps(o: Seq<char>, n: Seq<char>, c: TreeCase)
    ensures
        keeps(o, put_g_case_json(o, n, c)),
{
    lemma_g_piece_extends(GPiece::FinalField);
    lemma_g_piece_extends(GPiece::ThisFirst);
    lemma_g_piece_extends(GPiece::ThisNext);
    lemma_g_piece_extends(GPiece::ToStrFirst);
    lemma_g_piece_extends(GPiece::ToStrNext);
    lemma_g_piece_extends(GPiece::EqLine);
    lemma_g_piece_extends(GPiece::HashFirst);
    lemma_g_piece_extends(GPiece::HashNext);
    lemma_g_piece_extends(GPiece::CopyParamFirst);
    lemma_g_piece_extends(GPiece::CopyParamNext);
    lemma_g_piece_extends(GPiece::CopyArgFirst);
    lemma_g_piece_extends(GPiece::CopyArgNext);
    lemma_g_piece_extends(GPiece::CopyParamLine);
    lemma_g_piece_extends(GPiece::ToStrPlainFirst);
    lemma_g_piece_extends(GPiece::ToStrPlainNext);
    lemma_g_piece_extends(GPiece::EqFirst);
    lemma_g_piece_extends(GPiece::EqNext);
    lemma_g_piece_extends(GPiece::ToJsonEntry);
    lemma_g_piece_extends(GPiece::FromJsonEntry);
    lemma_keeps_refl(o);
    let o1 = o;
    assert(keeps(o, o1));
    lemma_keeps_add(o1, "Map<String, dynamic> _$"@);
    lemma_keeps_trans(o, o1, o1 + "Map<String, dynamic> _$"@);
    lemma_keeps_add(o1 + "Map<String, dynamic> _$"@, case_class_name(n, c.case_name));
    lemma_keeps_trans(o, o1 + "Map<String, dynamic> _$"@, o1 + "Map<String, dynamic> _$"@ + case_class_name(n, c.case_name));
    lemma_keeps_add(o1 + "Map<String, dynamic> _$"@ + case_class_name(n, c.case_name), "ToJson("@);
    lemma_keeps_trans(o, o1 + "Map<String, dynamic> _$"@ + case_class_name(n, c.case_name), o1 + "Map<String, dynamic> _$"@ + case_class_name(n, c.case_name) + "ToJson("@);
    lemma_keeps_add(o1 + "Map<String, dynamic> _$"@ + case_class_name(n, c.case_name) + "ToJson("@, case_class_name(n, c.case_name));
    lemma_keeps_trans(o, o1 + "Map<String, dynamic> _$"@ + case_class_name(n, c.case_name) + "ToJson("@, o1 + "Map<String, dynamic> _$"@ + case_class_name(n, c.case_name) + "ToJson("@ + case_class_name(n, c.case_name));
    lemma_keeps_add(o1 + "Map<String, dynamic> _$"@ + case_class_name(n, c.case_name) + "ToJson("@ + case_class_name(n, c.case_name), " instance) {\n"@);
    lemma_keeps_trans(o, o1 + "Map<String, dynamic> _$"@ + case_class_name(n, c.case_name) + "ToJson("@ + case_class_name(n, c.case_name), o1 + "Map<String, dynamic> _$"@ + case_class_name(n, c.case_name) + "ToJson("@ + case_class_name(n, c.case_name) + " instance) {\n"@);
    lemma_keeps_add(o1 + "Map<String, dynamic> _$"@ + case_class_name(n, c.case_name) + "ToJson("@ + case_class_name(n, c.case_name) + " instance) {\n"@, "  return {\n"@);
    lemma_keeps_trans(o, o1 + "Map<String, dynamic> _$"@ + case_class_name(n, c.case_name) + "ToJson("@ + case_class_name(n, c.case_name) + " instance) {\n"@, o1 + "Map<String, dynamic> _$"@ + case_class_name(n, c.case_name) + "ToJson("@ + case_class_name(n, c.case_name) + " instance) {\n"@ + "  return {\n"@);
    lemma_fold_put_keeps(o1 + "Map<String, dynamic> _$"@ + case_class_name(n, c.case_name) + "ToJson("@ + case_class_name(n, c.case_name) + " instance) {\n"@ + "  return {\n"@, c.fields, g_piece_fn(GPiece::ToJsonEntry));
    lemma_keeps_trans(o, o1 + "Map<String, dynamic> _$"@ + case_class_name(n, c.case_name) + "ToJson("@ + case_class_name(n, c.case_name) + " instance) {\n"@ + "  return {\n"@, fold_put(o1 + "Map<String, dynamic> _$"@ + case_class_name(n, c.case_name) + "ToJson("@ + case_class_name(n, c.case_name) + " instance) {\n"@ + "  return {\n"@, c.fields, g_piece_fn(GPiece::ToJsonEntry)));
    let o2 = fold_put(o1 + "Map<String, dynamic> _$"@ + case_class_name(n, c.case_name) + "ToJson("@ + case_class_name(n, c.case_name) + " instance) {\n"@ + "  return {\n"@, c.fields, g_piece_fn(GPiece::ToJsonEntry));
    assert(keeps(o, o2));
    lemma_keeps_add(o2, "  };\n"@);
    lemma_keeps_trans(o, o2, o2 + "  };\n"@);
    lemma_keeps_add(o2 + "  };\n"@, "}\n\n"@);
    lemma_keeps_trans(o, o2 + "  };\n"@, o2 + "  };\n"@ + "}\n\n"@);
    lemma_keeps_add(o2 + "  };\n"@ + "}\n\n"@, case_class_name(n, c.case_name));
    lemma_keeps_trans(o, o2 + "  };\n"@ + "}\n\n"@, o2 + "  };\n"@ + "}\n\n"@ + case_class_name(n, c.case_name));
    lemma_keeps_add(o2 + "  };\n"@ + "}\n\n"@ + case_class_name(n, c.case_name), " _$"@);
    lemma_keeps_trans(o, o2 + "  };\n"@ + "}\n\n"@ + case_class_name(n, c.case_name), o2 + "  };\n"@ + "}\n\n"@ + case_class_name(n, c.case_name) + " _$"@);
    lemma_keeps_add(o2 + "  };\n"@ + "}\n\n"@ + case_class_name(n, c.case_name) + " _$"@, case_class_name(n, c.case_name));
    lemma_keeps_trans(o, o2 + "  };\n"@ + "}\n\n"@ + case_class_name(n, c.case_name) + " _$"@, o2 + "  };\n"@ + "}\n\n"@ + case_class_name(n, c.case_name) + " _$"@ + case_class_name(n, c.case_name));
    lemma_keeps_add(o2 + "  };\n"@ + "}\n\n"@ + case_class_name(n, c.case_name) + " _$"@ + case_class_name(n, c.case_name), "FromJson(Map<String, dynamic> json) {\n"@);
    lemma_keeps_trans(o, o2 + "  };\n"@ + "}\n\n"@ + case_class_name(n, c.case_name) + " _$"@ + case_class_name(n, c.case_name), o2 + "  };\n"@ + "}\n\n"@ + case_class_name(n, c.case_name) + " _$"@ + case_class_name(n, c.case_name) + "FromJson(Map<String, dynamic> json) {\n"@);
    lemma_keeps_add(o2 + "  };\n"@ + "}\n\n"@ + case_class_name(n, c.case_name) + " _$"@ + case_class_name(n, c.case_name) + "FromJson(Map<String, dynamic> json) {\n"@, "  return "@);
    lemma_keeps_trans(o, o2 + "  };\n"@ + "}\n\n"@ + case_class_name(n, c.case_name) + " _$"@ + case_class_name(n, c.case_name) + "FromJson(Map<String, dynamic> json) {\n"@, o2 + "  };\n"@ + "}\n\n"@ + case_class_name(n, c.case_name) + " _$"@ + case_class_name(n, c.case_name) + "FromJson(Map<String, dynamic> json) {\n"@ + "  return "@);
    lemma_keeps_add(o2 + "  };\n"@ + "}\n\n"@ + case_class_name(n, c.case_name) + " _$"@ + case_class_name(n, c.case_name) + "FromJson(Map<String, dynamic> json) {\n"@ + "  return "@, case_class_name(n, c.case_name));
    lemma_keeps_trans(o, o2 + "  };\n"@ + "}\n\n"@ + case_class_name(n, c.case_name) + " _$"@ + case_class_name(n, c.case_name) + "FromJson(Map<String, dynamic> json) {\n"@ + "  return "@, o2 + "  };\n"@ + "}\n\n"@ + case_class_name(n, c.case_name) + " _$"@ + case_class_name(n, c.case_name) + "FromJson(Map<String, dynamic> json) {\n"@ + "  return "@ + case_class_name(n, c.case_name));
    lemma_keeps_add(o2 + "  };\n"@ + "}\n\n"@ + case_class_name(n, c.case_name) + " _$"@ + case_class_name(n, c.case_name) + "FromJson(Map<String, dynamic> json) {\n"@ + "  return "@ + case_class_name(n, c.case_name), "(\n"@);
    lemma_keeps_trans(o, o2 + "  };\n"@ + "}\n\n"@ + case_class_name(n, c.case_name) + " _$"@ + case_class_name(n, c.case_name) + "FromJson(Map<String, dynamic> json) {\n"@ + "  return "@ + case_class_name(n, c.case_name), o2 + "  };\n"@ + "}\n\n"@ + case_class_name(n, c.case_name) + " _$"@ + case_class_name(n, c.case_name) + "FromJson(Map<String, dynamic> json) {\n"@ + "  return "@ + case_class_name(n, c.case_name) + "(\n"@);
    lemma_fold_put_keeps(o2 + "  };\n"@ + "}\n\n"@ + case_class_name(n, c.case_name) + " _$"@ + case_class_name(n, c.case_name) + "FromJson(Map<String, dynamic> json) {\n"@ + "  return "@ + case_class_name(n, c.case_name) + "(\n"@, c.fields, g_piece_fn(GPiece::FromJsonEntry));
    lemma_keeps_trans(o, o2 + "  };\n"@ + "}\n\n"@ + case_class_name(n, c.case_name) + " _$"@ + case_class_name(n, c.case_name) + "FromJson(Map<String, dynamic> json) {\n"@ + "  return "@ + case_class_name(n, c.case_name) + "(\n"@, fold_put(o2 + "  };\n"@ + "}\n\n"@ + case_class_name(n, c.case_name) + " _$"@ + case_class_name(n, c.case_name) + "FromJson(Map<String, dynamic> json) {\n"@ + "  return "@ + case_class_name(n, c.case_name) + "(\n"@, c.fields, g_piece_fn(GPiece::FromJsonEntry)));
    let o3 = fold_put(o2 + "  };\n"@ + "}\n\n"@ + case_class_name(n, c.case_name) + " _$"@ + case_class_name(n, c.case_name) + "FromJson(Map<String, dynamic> json) {\n"@ + "  return "@ + case_class_name(n, c.case_name) + "(\n"@, c.fields, g_piece_fn(GPiece::FromJsonEntry));
    assert(keeps(o, o3));
    lemma_keeps_add(o3, "  );\n"@);
    lemma_keeps_trans(o, o3, o3 + "  );\n"@);
    lemma_keeps_add(o3 + "  );\n"@, "}\n\n"@);
    lemma_keeps_trans(o, o3 + "  );\n"@, o3 + "  );\n"@ + "}\n\n"@);
    assert(put_g_case_json(o, n, c) == o3 + "  );\n"@ + "}\n\n"@);
}

/// Writing this part only appends to the text.
#[verifier::rlimit(100)]
proof fn lemma_put_g_case_comment_keeps(o: Seq<char>, n: Seq<char>, c: TreeCase)
    ensures
        keeps(o, put_g_case_comment(o, n, c)),
{
    lemma_g_piece_extends(GPiece::FinalField);
    lemma_g_piece_extends(GPiece::ThisFirst);
    lemma_g_piece_extends(GPiece::ThisNext);
    lemma_g_piece_extends(GPiece::ToStrFirst);
    lemma_g_piece_extends(GPiece::ToStrNext);
    lemma_g_piece_extends(GPiece::EqLine);
    lemma_g_piece_extends(GPiece::HashFirst);
    lemma_g_piece_extends(GPiece::HashNext);
    lemma_g_piece_extends(GPiece::CopyParamFirst);
    lemma_g_piece_extends(GPiece::CopyParamNext);
    lemma_g_piece_extends(GPiece::CopyArgFirst);
    lemma_g_piece_extends(GPiece::CopyArgNext);
    lemma_g_piece_extends(GPiece::CopyParamLine);
    lemma_g_piece_extends(GPiece::ToStrPlainFirst);
    lemma_g_piece_extends(GPiece::ToStrPlainNext);
    lemma_g_piece_extends(GPiece::EqFirst);
    lemma_g_piece_extends(GPiece::EqNext);
    lemma_g_piece_extends(GPiece::ToJsonEntry);
    lemma_g_piece_extends(GPiece::FromJsonEntry);
    lemma_keeps_refl(o);
    let o1 = o;
    assert(keeps(o, o1));
    lemma_keeps_add(o1, "// "@);
    lemma_keeps_trans(o, o1, o1 + "// "@);
    lemma_keeps_add(o1 + "// "@, case_class_name(n, c.case_name));
    lemma_keeps_trans(o, o1 + "// "@, o1 + "// "@ + case_class_name(n, c.case_name));
    lemma_keeps_add(o1 + "// "@ + case_class_name(n, c.case_name), ": generated by Rust, JSON serialization is handled by build_runner\n"@);
    lemma_keeps_trans(o, o1 + "// "@ + case_class_name(n, c.case_name), o1 + "// "@ + case_class_name(n, c.case_name) + ": generated by Rust, JSON serialization is handled by build_runner\n"@);
    assert(put_g_case_comment(o, n, c) == o1 + "// "@ + case_class_name(n, c.case_name) + ": generated by Rust, JSON serialization is handled by build_runner\n"@);
}

/// Writing this part only appends to the text.
#[verifier::rlimit(100)]
proof fn lemma_put_g_regular_class_keeps(o: Seq<char>, n: Seq<char>, fs: Seq<ParamModel>)
    ensures
        keeps(o, put_g_regular_class(o, n, fs)),
{
    lemma_g_piece_extends(GPiece::FinalField);
    lemma_g_piece_extends(GPiece::ThisFirst);
    lemma_g_piece_extends(GPiece::ThisNext);
    lemma_g_piece_extends(GPiece::ToStrFirst);
    lemma_g_piece_extends(GPiece::ToStrNext);
    lemma_g_piece_extends(GPiece::EqLine);
    lemma_g_piece_extends(GPiece::HashFirst);
    lemma_g_piece_extends(GPiece::HashNext);
    lemma_g_piece_extends(GPiece::CopyParamFirst);
    lemma_g_piece_extends(GPiece::CopyParamNext);
    lemma_g_piece_extends(GPiece::CopyArgFirst);
    lemma_g_piece_extends(GPiece::CopyArgNext);
    lemma_g_piece_extends(GPiece::CopyParamLine);
    lemma_g_piece_extends(GPiece::ToStrPlainFirst);
    lemma_g_piece_extends(GPiece::ToStrPlainNext);
    lemma_g_piece_extends(GPiece::EqFirst);
    lemma_g_piece_extends(GPiece::EqNext);
    lemma_g_piece_extends(GPiece::ToJsonEntry);
    lemma_g_piece_extends(GPiece::FromJsonEntry);
    lemma_keeps_refl(o);
    lemma_keeps_add(o, "mixin _$"@);
    lemma_keeps_trans(o, o, o + "mixin _$"@);
    lemma_keeps_add(o + "mixin _$"@, n);
    lemma_keeps_trans(o, o + "mixin _$"@, o + "mixin _$"@ + n);
    lemma_keeps_add(o + "mixin _$"@ + n, " {\n"@);
    lemma_keeps_trans(o, o + "mixin _$"@ + n, o + "mixin _$"@ + n + " {\n"@);
    lemma_keeps_add(o + "mixin _$"@ + n + " {\n"@, "  "@);
    lemma_keeps_trans(o, o + "mixin _$"@ + n + " {\n"@, o + "mixin _$"@ + n + " {\n"@ + "  "@);
    lemma_keeps_add(o + "mixin _$"@ + n + " {\n"@ + "  "@, n);
    lemma_keeps_trans(o, o + "mixin _$"@ + n + " {\n"@ + "  "@, o + "mixin _$"@ + n + " {\n"@ + "  "@ + n);
    lemma_keeps_add(o + "mixin _$"@ + n + " {\n"@ + "  "@ + n, " copyWith({"@);
    lemma_keeps_trans(o, o + "mixin _$"@ + n + " {\n"@ + "  "@ + n, o + "mixin _$"@ + n + " {\n"@ + "  "@ + n + " copyWith({"@);
    lemma_g_joined_keeps(o + "mixin _$"@ + n + " {\n"@ + "  "@ + n + " copyWith({"@, fs, GPiece::CopyParamFirst, GPiece::CopyParamNext);
    lemma_keeps_trans(o, o + "mixin _$"@ + n + " {\n"@ + "  "@ + n + " copyWith({"@, put_g_joined(o + "mixin _$"@ + n + " {\n"@ + "  "@ + n + " copyWith({"@, fs, GPiece::CopyParamFirst, GPiece::CopyParamNext));
    let o1 = put_g_joined(o + "mixin _$"@ + n + " {\n"@ + "  "@ + n + " copyWith({"@, fs, GPiece::CopyParamFirst, GPiece::CopyParamNext);
    assert(keeps(o, o1));
    lemma_keeps_add(o1, "});\n"@);
    lemma_keeps_trans(o, o1, o1 + "});\n"@);
    lemma_keeps_add(o1 + "});\n"@, "}\n\n"@);
    lemma_keeps_trans(o, o1 + "});\n"@, o1 + "});\n"@ + "}\n\n"@);
    lemma_keeps_add(o1 + "});\n"@ + "}\n\n"@, "class _"@);
    lemma_keeps_trans(o, o1 + "});\n"@ + "}\n\n"@, o1 + "});\n"@ + "}\n\n"@ + "class _"@);
    lemma_keeps_add(o1 + "});\n"@ + "}\n\n"@ + "class _"@, n);
    lemma_keeps_trans(o, o1 + "});\n"@ + "}\n\n"@ + "class _"@, o1 + "});\n"@ + "}\n\n"@ + "class _"@ + n);
    lemma_keeps_add(o1 + "});\n"@ + "}\n\n"@ + "class _"@ + n, " with _$"@);
    lemma_keeps_trans(o, o1 + "});\n"@ + "}\n\n"@ + "class _"@ + n, o1 + "});\n"@ + "}\n\n"@ + "class _"@ + n + " with _$"@);
    lemma_keeps_add(o1 + "});\n"@ + "}\n\n"@ + "class _"@ + n + " with _$"@, n);
    lemma_keeps_trans(o, o1 + "});\n"@ + "}\n\n"@ + "class _"@ + n + " with _$"@, o1 + "});\n"@ + "}\n\n"@ + "class _"@ + n + " with _$"@ + n);
    lemma_keeps_add(o1 + "});\n"@ + "}\n\n"@ + "class _"@ + n + " with _$"@ + n, " implements "@);
    lemma_keeps_trans(o, o1 + "});\n"@ + "}\n\n"@ + "class _"@ + n + " with _$"@ + n, o1 + "});\n"@ + "}\n\n"@ + "class _"@ + n + " with _$"@ + n + " implements "@);
    lemma_keeps_add(o1 + "});\n"@ + "}\n\n"@ + "class _"@ + n + " with _$"@ + n + " implements "@, n);
    lemma_keeps_trans(o, o1 + "});\n"@ + "}\n\n"@ + "class _"@ + n + " with _$"@ + n + " implements "@, o1 + "});\n"@ + "}\n\n"@ + "class _"@ + n + " with _$"@ + n + " implements "@ + n);
    lemma_keeps_add(o1 + "});\n"@ + "}\n\n"@ + "class _"@ + n + " with _$"@ + n + " implements "@ + n, " {\n"@);
    lemma_keeps_trans(o, o1 + "});\n"@ + "}\n\n"@ + "class _"@ + n + " with _$"@ + n + " implements "@ + n, o1 + "});\n"@ + "}\n\n"@ + "class _"@ + n + " with _$"@ + n + " implements "@ + n + " {\n"@);
    lemma_fold_put_keeps(o1 + "});\n"@ + "}\n\n"@ + "class _"@ + n + " with _$"@ + n + " implements "@ + n + " {\n"@, fs, g_piece_fn(GPiece::FinalField));
    lemma_keeps_trans(o, o1 + "});\n"@ + "}\n\n"@ + "class _"@ + n + " with _$"@ + n + " implements "@ + n + " {\n"@, fold_put(o1 + "});\n"@ + "}\n\n"@ + "class _"@ + n + " with _$"@ + n + " implements "@ + n + " {\n"@, fs, g_piece_fn(GPiece::FinalField)));
    let o2 = fold_put(o1 + "});\n"@ + "}\n\n"@ + "class _"@ + n + " with _$"@ + n + " implements "@ + n + " {\n"@, fs, g_piece_fn(GPiece::FinalField));
    assert(keeps(o, o2));
    lemma_keeps_add(o2, "\n"@);
    lemma_keeps_trans(o, o2, o2 + "\n"@);
    lemma_keeps_add(o2 + "\n"@, "  const _"@);
    lemma_keeps_trans(o, o2 + "\n"@, o2 + "\n"@ + "  const _"@);
    lemma_keeps_add(o2 + "\n"@ + "  const _"@, n);
    lemma_keeps_trans(o, o2 + "\n"@ + "  const _"@, o2 + "\n"@ + "  const _"@ + n);
    lemma_keeps_add(o2 + "\n"@ + "  const _"@ + n, "({"@);
    lemma_keeps_trans(o, o2 + "\n"@ + "  const _"@ + n, o2 + "\n"@ + "  const _"@ + n + "({"@);
    lemma_g_joined_keeps(o2 + "\n"@ + "  const _"@ + n + "({"@, fs, GPiece::ThisFirst, GPiece::ThisNext);
    lemma_keeps_trans(o, o2 + "\n"@ + "  const _"@ + n + "({"@, put_g_joined(o2 + "\n"@ + "  const _"@ + n + "({"@, fs, GPiece::ThisFirst, GPiece::ThisNext));
    let o3 = put_g_joined(o2 + "\n"@ + "  const _"@ + n + "({"@, fs, GPiece::ThisFirst, GPiece::ThisNext);
    assert(keeps(o, o3));
    lemma_keeps_add(o3, ");\n\n"@);
    lemma_keeps_trans(o, o3, o3 + ");\n\n"@);
    lemma_keeps_add(o3 + ");\n\n"@, "  @override\n  "@);
    lemma_keeps_trans(o, o3 + ");\n\n"@, o3 + ");\n\n"@ + "  @override\n  "@);
    lemma_keeps_add(o3 + ");\n\n"@ + "  @override\n  "@, n);
    lemma_keeps_trans(o, o3 + ");\n\n"@ + "  @override\n  "@, o3 + ");\n\n"@ + "  @override\n  "@ + n);
    lemma_keeps_add(o3 + ");\n\n"@ + "  @override\n  "@ + n, " copyWith({"@);
    lemma_keeps_trans(o, o3 + ");\n\n"@ + "  @override\n  "@ + n, o3 + ");\n\n"@ + "  @override\n  "@ + n + " copyWith({"@);
    lemma_g_joined_keeps(o3 + ");\n\n"@ + "  @override\n  "@ + n + " copyWith({"@, fs, GPiece::CopyParamFirst, GPiece::CopyParamNext);
    lemma_keeps_trans(o, o3 + ");\n\n"@ + "  @override\n  "@ + n + " copyWith({"@, put_g_joined(o3 + ");\n\n"@ + "  @override\n  "@ + n + " copyWith({"@, fs, GPiece::CopyParamFirst, GPiece::CopyParamNext));
    let o4 = put_g_joined(o3 + ");\n\n"@ + "  @override\n  "@ + n + " copyWith({"@, fs, GPiece::CopyParamFirst, GPiece::CopyParamNext);
    assert(keeps(o, o4));
    lemma_keeps_add(o4, "}}) {\n"@);
    lemma_keeps_trans(o, o4, o4 + "}}) {\n"@);
    lemma_keeps_add(o4 + "}}) {\n"@, "    return _"@);
    lemma_keeps_trans(o, o4 + "}}) {\n"@, o4 + "}}) {\n"@ + "    return _"@);
    lemma_keeps_add(o4 + "}}) {\n"@ + "    return _"@, n);
    lemma_keeps_trans(o, o4 + "}}) {\n"@ + "    return _"@, o4 + "}}) {\n"@ + "    return _"@ + n);
    lemma_keeps_add(o4 + "}}) {\n"@ + "    return _"@ + n, "("@);
    lemma_keeps_trans(o, o4 + "}}) {\n"@ + "    return _"@ + n, o4 + "}}) {\n"@ + "    return _"@ + n + "("@);
    lemma_g_joined_keeps(o4 + "}}) {\n"@ + "    return _"@ + n + "("@, fs, GPiece::CopyArgFirst, GPiece::CopyArgNext);
    lemma_keeps_trans(o, o4 + "}}) {\n"@ + "    return _"@ + n + "("@, put_g_joined(o4 + "}}) {\n"@ + "    return _"@ + n + "("@, fs, GPiece::CopyArgFirst, GPiece::CopyArgNext));
    let o5 = put_g_joined(o4 + "}}) {\n"@ + "    return _"@ + n + "("@, fs, GPiece::CopyArgFirst, GPiece::CopyArgNext);
    assert(keeps(o, o5));
    lemma_keeps_add(o5, ");\n  }\n\n"@);
    lemma_keeps_trans(o, o5, o5 + ");\n  }\n\n"@);
    lemma_keeps_add(o5 + ");\n  }\n\n"@, "  @override\n  String toString() {\n    return '"@);
    lemma_keeps_trans(o, o5 + ");\n  }\n\n"@, o5 + ");\n  }\n\n"@ + "  @override\n  String toString() {\n    return '"@);
    lemma_keeps_add(o5 + ");\n  }\n\n"@ + "  @override\n  String toString() {\n    return '"@, n);
    lemma_keeps_trans(o, o5 + ");\n  }\n\n"@ + "  @override\n  String toString() {\n    return '"@, o5 + ");\n  }\n\n"@ + "  @override\n  String toString() {\n    return '"@ + n);
    lemma_keeps_add(o5 + ");\n  }\n\n"@ + "  @override\n  String toString() {\n    return '"@ + n, "("@);
    lemma_keeps_trans(o, o5 + ");\n  }\n\n"@ + "  @override\n  String toString() {\n    return '"@ + n, o5 + ");\n  }\n\n"@ + "  @override\n  String toString() {\n    return '"@ + n + "("@);
    lemma_g_joined_keeps(o5 + ");\n  }\n\n"@ + "  @override\n  String toString() {\n    return '"@ + n + "("@, fs, GPiece::ToStrFirst, GPiece::ToStrNext);
    lemma_keeps_trans(o, o5 + ");\n  }\n\n"@ + "  @override\n  String toString() {\n    return '"@ + n + "("@, put_g_joined(o5 + ");\n  }\n\n"@ + "  @override\n  String toString() {\n    return '"@ + n + "("@, fs, GPiece::ToStrFirst, GPiece::ToStrNext));
    let o6 = put_g_joined(o5 + ");\n  }\n\n"@ + "  @override\n  String toString() {\n    return '"@ + n + "("@, fs, GPiece::ToStrFirst, GPiece::ToStrNext);
    assert(keeps(o, o6));
    lemma_keeps_add(o6, ")';\n  }\n\n"@);
    lemma_keeps_trans(o, o6, o6 + ")';\n  }\n\n"@);
    lemma_keeps_add(o6 + ")';\n  }\n\n"@, "  @override\n  bool operator ==(Object other) {\n    return identical(this, other) ||\n        other is _"@);
    lemma_keeps_trans(o, o6 + ")';\n  }\n\n"@, o6 + ")';\n  }\n\n"@ + "  @override\n  bool operator ==(Object other) {\n    return identical(this, other) ||\n        other is _"@);
    lemma_keeps_add(o6 + ")';\n  }\n\n"@ + "  @override\n  bool operator ==(Object other) {\n    return identical(this, other) ||\n        other is _"@, n);
    lemma_keeps_trans(o, o6 + ")';\n  }\n\n"@ + "  @override\n  bool operator ==(Object other) {\n    return identical(this, other) ||\n        other is _"@, o6 + ")';\n  }\n\n"@ + "  @override\n  bool operator ==(Object other) {\n    return identical(this, other) ||\n        other is _"@ + n);
    lemma_keeps_add(o6 + ")';\n  }\n\n"@ + "  @override\n  bool operator ==(Object other) {\n    return identical(this, other) ||\n        other is _"@ + n, " &&\n"@);
    lemma_keeps_trans(o, o6 + ")';\n  }\n\n"@ + "  @override\n  bool operator ==(Object other) {\n    return identical(this, other) ||\n        other is _"@ + n, o6 + ")';\n  }\n\n"@ + "  @override\n  bool operator ==(Object other) {\n    return identical(this, other) ||\n        other is _"@ + n + " &&\n"@);
    lemma_fold_put_keeps(o6 + ")';\n  }\n\n"@ + "  @override\n  bool operator ==(Object other) {\n    return identical(this, other) ||\n        other is _"@ + n + " &&\n"@, fs, g_piece_fn(GPiece::EqLine));
    lemma_keeps_trans(o, o6 + ")';\n  }\n\n"@ + "  @override\n  bool operator ==(Object other) {\n    return identical(this, other) ||\n        other is _"@ + n + " &&\n"@, fold_put(o6 + ")';\n  }\n\n"@ + "  @override\n  bool operator ==(Object other) {\n    return identical(this, other) ||\n        other is _"@ + n + " &&\n"@, fs, g_piece_fn(GPiece::EqLine)));
    let o7 = fold_put(o6 + ")';\n  }\n\n"@ + "  @override\n  bool operator ==(Object other) {\n    return identical(this, other) ||\n        other is _"@ + n + " &&\n"@, fs, g_piece_fn(GPiece::EqLine));
    assert(keeps(o, o7));
    lemma_keeps_add(o7, "        true;\n  }\n\n"@);
    lemma_keeps_trans(o, o7, o7 + "        true;\n  }\n\n"@);
    lemma_keeps_add(o7 + "        true;\n  }\n\n"@, "  @override\n  int get hashCode => "@);
    lemma_keeps_trans(o, o7 + "        true;\n  }\n\n"@, o7 + "        true;\n  }\n\n"@ + "  @override\n  int get hashCode => "@);
    lemma_g_joined_keeps(o7 + "        true;\n  }\n\n"@ + "  @override\n  int get hashCode => "@, fs, GPiece::HashFirst, GPiece::HashNext);
    lemma_keeps_trans(o, o7 + "        true;\n  }\n\n"@ + "  @override\n  int get hashCode => "@, put_g_joined(o7 + "        true;\n  }\n\n"@ + "  @override\n  int get hashCode => "@, fs, GPiece::HashFirst, GPiece::HashNext));
    let o8 = put_g_joined(o7 + "        true;\n  }\n\n"@ + "  @override\n  int get hashCode => "@, fs, GPiece::HashFirst, GPiece::HashNext);
    assert(keeps(o, o8));
    lemma_keeps_add(o8, ";\n\n"@);
    lemma_keeps_trans(o, o8, o8 + ";\n\n"@);
    lemma_keeps_add(o8 + ";\n\n"@, "  Map<String, dynamic> toJson() => _$"@);
    lemma_keeps_trans(o, o8 + ";\n\n"@, o8 + ";\n\n"@ + "  Map<String, dynamic> toJson() => _$"@);
    lemma_keeps_add(o8 + ";\n\n"@ + "  Map<String, dynamic> toJson() => _$"@, n);
    lemma_keeps_trans(o, o8 + ";\n\n"@ + "  Map<String, dynamic> toJson() => _$"@, o8 + ";\n\n"@ + "  Map<String, dynamic> toJson() => _$"@ + n);
    lemma_keeps_add(o8 + ";\n\n"@ + "  Map<String, dynamic> toJson() => _$"@ + n, "ToJson(this);\n"@);
    lemma_keeps_trans(o, o8 + ";\n\n"@ + "  Map<String, dynamic> toJson() => _$"@ + n, o8 + ";\n\n"@ + "  Map<String, dynamic> toJson() => _$"@ + n + "ToJson(this);\n"@);
    lemma_keeps_add(o8 + ";\n\n"@ + "  Map<String, dynamic> toJson() => _$"@ + n + "ToJson(this);\n"@, "}\n"@);
    lemma_keeps_trans(o, o8 + ";\n\n"@ + "  Map<String, dynamic> toJson() => _$"@ + n + "ToJson(this);\n"@, o8 + ";\n\n"@ + "  Map<String, dynamic> toJson() => _$"@ + n + "ToJson(this);\n"@ + "}\n"@);
    assert(put_g_regular_class(o, n, fs) == o8 + ";\n\n"@ + "  Map<String, dynamic> toJson() => _$"@ + n + "ToJson(this);\n"@ + "}\n"@);
}

/// Writing this part only appends to the text.
#[verifier::rlimit(100)]
proof fn lemma_put_g_regular_json_keeps(o: Seq<char>, n: Seq<char>, fs: Seq<ParamModel>)
    ensures
        keeps(o, put_g_regular_json(o, n, fs)),
{
    lemma_g_piece_extends(GPiece::FinalField);
    lemma_g_piece_extends(GPiece::ThisFirst);
    lemma_g_piece_extends(GPiece::ThisNext);
    lemma_g_piece_extends(GPiece::ToStrFirst);
    lemma_g_piece_extends(GPiece::ToStrNext);
    lemma_g_piece_extends(GPiece::EqLine);
    lemma_g_piece_extends(GPiece::HashFirst);
    lemma_g_piece_extends(GPiece::HashNext);
    lemma_g_piece_extends(GPiece::CopyParamFirst);
    lemma_g_piece_extends(GPiece::CopyParamNext);
    lemma_g_piece_extends(GPiece::CopyArgFirst);
    lemma_g_piece_extends(GPiece::CopyArgNext);
    lemma_g_piece_extends(GPiece::CopyParamLine);
    lemma_g_piece_extends(GPiece::ToStrPlainFirst);
    lemma_g_piece_extends(GPiece::ToStrPlainNext);
    lemma_g_piece_extends(GPiece::EqFirst);
    lemma_g_piece_extends(GPiece::EqNext);
    lemma_g_piece_extends(GPiece::ToJsonEntry);
    lemma_g_piece_extends(GPiece::FromJsonEntry);
    lemma_keeps_refl(o);
    lemma_keeps_add(o, "Map<String, dynamic> _$"@);
    lemma_keeps_trans(o, o, o + "Map<String, dynamic> _$"@);
    lemma_keeps_add(o + "Map<String, dynamic> _$"@, n);
    lemma_keeps_trans(o, o + "Map<String, dynamic> _$"@, o + "Map<String, dynamic> _$"@ + n);
    lemma_keeps_add(o + "Map<String, dynamic> _$"@ + n, "ToJson("@);
    lemma_keeps_trans(o, o + "Map<String, dynamic> _$"@ + n, o + "Map<String, dynamic> _$"@ + n + "ToJson("@);
    lemma_keeps_add(o + "Map<String, dynamic> _$"@ + n + "ToJson("@, n);
    lemma_keeps_trans(o, o + "Map<String, dynamic> _$"@ + n + "ToJson("@, o + "Map<String, dynamic> _$"@ + n + "ToJson("@ + n);
    lemma_keeps_add(o + "Map<String, dynamic> _$"@ + n + "ToJson("@ + n, " instance) {\n"@);
    lemma_keeps_trans(o, o + "Map<String, dynamic> _$"@ + n + "ToJson("@ + n, o + "Map<String, dynamic> _$"@ + n + "ToJson("@ + n + " instance) {\n"@);
    lemma_keeps_add(o + "Map<String, dynamic> _$"@ + n + "ToJson("@ + n + " instance) {\n"@, "  return {\n"@);
    lemma_keeps_trans(o, o + "Map<String, dynamic> _$"@ + n + "ToJson("@ + n + " instance) {\n"@, o + "Map<String, dynamic> _$"@ + n + "ToJson("@ + n + " instance) {\n"@ + "  return {\n"@);
    lemma_fold_put_keeps(o + "Map<String, dynamic> _$"@ + n + "ToJson("@ + n + " instance) {\n"@ + "  return {\n"@, fs, g_piece_fn(GPiece::ToJsonEntry));
    lemma_keeps_trans(o, o + "Map<String, dynamic> _$"@ + n + "ToJson("@ + n + " instance) {\n"@ + "  return {\n"@, fold_put(o + "Map<String, dynamic> _$"@ + n + "ToJson("@ + n + " instance) {\n"@ + "  return {\n"@, fs, g_piece_fn(GPiece::ToJsonEntry)));
    let o1 = fold_put(o + "Map<String, dynamic> _$"@ + n + "ToJson("@ + n + " instance) {\n"@ + "  return {\n"@, fs, g_piece_fn(GPiece::ToJsonEntry));
    assert(keeps(o, o1));
    lemma_keeps_add(o1, "  };\n"@);
    lemma_keeps_trans(o, o1, o1 + "  };\n"@);
    lemma_keeps_add(o1 + "  };\n"@, "}\n\n"@);
    lemma_keeps_trans(o, o1 + "  };\n"@, o1 + "  };\n"@ + "}\n\n"@);
    lemma_keeps_add(o1 + "  };\n"@ + "}\n\n"@, n);
    lemma_keeps_trans(o, o1 + "  };\n"@ + "}\n\n"@, o1 + "  };\n"@ + "}\n\n"@ + n);
    lemma_keeps_add(o1 + "  };\n"@ + "}\n\n"@ + n, " _$"@);
    lemma_keeps_trans(o, o1 + "  };\n"@ + "}\n\n"@ + n, o1 + "  };\n"@ + "}\n\n"@ + n + " _$"@);
    lemma_keeps_add(o1 + "  };\n"@ + "}\n\n"@ + n + " _$"@, n);
    lemma_keeps_trans(o, o1 + "  };\n"@ + "}\n\n"@ + n + " _$"@, o1 + "  };\n"@ + "}\n\n"@ + n + " _$"@ + n);
    lemma_keeps_add(o1 + "  };\n"@ + "}\n\n"@ + n + " _$"@ + n, "FromJson(Map<String, dynamic> json) {\n"@);
    lemma_keeps_trans(o, o1 + "  };\n"@ + "}\n\n"@ + n + " _$"@ + n, o1 + "  };\n"@ + "}\n\n"@ + n + " _$"@ + n + "FromJson(Map<String, dynamic> json) {\n"@);
    lemma_keeps_add(o1 + "  };\n"@ + "}\n\n"@ + n + " _$"@ + n + "FromJson(Map<String, dynamic> json) {\n"@, "  return "@);
    lemma_keeps_trans(o, o1 + "  };\n"@ + "}\n\n"@ + n + " _$"@ + n + "FromJson(Map<String, dynamic> json) {\n"@, o1 + "  };\n"@ + "}\n\n"@ + n + " _$"@ + n + "FromJson(Map<String, dynamic> json) {\n"@ + "  return "@);
    lemma_keeps_add(o1 + "  };\n"@ + "}\n\n"@ + n + " _$"@ + n + "FromJson(Map<String, dynamic> json) {\n"@ + "  return "@, n);
    lemma_keeps_trans(o, o1 + "  };\n"@ + "}\n\n"@ + n + " _$"@ + n + "FromJson(Map<String, dynamic> json) {\n"@ + "  return "@, o1 + "  };\n"@ + "}\n\n"@ + n + " _$"@ + n + "FromJson(Map<String, dynamic> json) {\n"@ + "  return "@ + n);
    lemma_keeps_add(o1 + "  };\n"@ + "}\n\n"@ + n + " _$"@ + n + "FromJson(Map<String, dynamic> json) {\n"@ + "  return "@ + n, "(\n"@);
    lemma_keeps_trans(o, o1 + "  };\n"@ + "}\n\n"@ + n + " _$"@ + n + "FromJson(Map<String, dynamic> json) {\n"@ + "  return "@ + n, o1 + "  };\n"@ + "}\n\n"@ + n + " _$"@ + n + "FromJson(Map<String, dynamic> json) {\n"@ + "  return "@ + n + "(\n"@);
    lemma_fold_put_keeps(o1 + "  };\n"@ + "}\n\n"@ + n + " _$"@ + n + "FromJson(Map<String, dynamic> json) {\n"@ + "  return "@ + n + "(\n"@, fs, g_piece_fn(GPiece::FromJsonEntry));
    lemma_keeps_trans(o, o1 + "  };\n"@ + "}\n\n"@ + n + " _$"@ + n + "FromJson(Map<String, dynamic> json) {\n"@ + "  return "@ + n + "(\n"@, fold_put(o1 + "  };\n"@ + "}\n\n"@ + n + " _$"@ + n + "FromJson(Map<String, dynamic> json) {\n"@ + "  return "@ + n + "(\n"@, fs, g_piece_fn(GPiece::FromJsonEntry)));
    let o2 = fold_put(o1 + "  };\n"@ + "}\n\n"@ + n + " _$"@ + n + "FromJson(Map<String, dynamic> json) {\n"@ + "  return "@ + n + "(\n"@, fs, g_piece_fn(GPiece::FromJsonEntry));
    assert(keeps(o, o2));
    lemma_keeps_add(o2, "  );\n"@);
    lemma_keeps_trans(o, o2, o2 + "  );\n"@);
    lemma_keeps_add(o2 + "  );\n"@, "}\n"@);
    lemma_keeps_trans(o, o2 + "  );\n"@, o2 + "  );\n"@ + "}\n"@);
    assert(put_g_regular_json(o, n, fs) == o2 + "  );\n"@ + "}\n"@);
}

/// Writing a part of union cases only appends to the text.
pub proof fn lemma_g_case_part_extends(n: Seq<char>, p: GCasePart)
    ensures
        extends(g_case_part_fn(n, p)),
{
    assert forall|o: Seq<char>, c: TreeCase| #[trigger] keeps(o, g_case_part_fn(n, p)(o, c)) by {
        assert(g_case_part_fn(n, p)(o, c) == put_g_case_part(o, n, c, p));
        match p {
            GCasePart::Class => lemma_put_g_case_class_keeps(o, n, c),
            GCasePart::Json => lemma_put_g_case_json_keeps(o, n, c),
            GCasePart::Comment => lemma_put_g_case_comment_keeps(o, n, c),
        }
    }
}

/// Writing the class and JSON code of a regular class only appends to the text.
pub proof fn lemma_g_regular_keeps(o: Seq<char>, n: Seq<char>, fs: Seq<ParamModel>)
    ensures
        keeps(o, put_g_regular_class(o, n, fs)),
        forall|q: Seq<char>| #[trigger] keeps(q, put_g_regular_json(q, n, fs)),
{
    lemma_put_g_regular_class_keeps(o, n, fs);
    assert forall|q: Seq<char>| #[trigger] keeps(q, put_g_regular_json(q, n, fs)) by {
        lemma_put_g_regular_json_keeps(q, n, fs);
    }
}


/// The class code of a regular class begins with its mixin and the start of
/// its `copyWith`.
#[verifier::rlimit(100)]
pub proof fn lemma_g_regular_class_from_mixin(o: Seq<char>, n: Seq<char>, fs: Seq<ParamModel>)
    ensures
        keeps(o + "mixin _$"@ + n + " {\n"@ + "  "@ + n + " copyWith({"@, put_g_regular_class(o, n, fs)),
{
    lemma_g_piece_extends(GPiece::FinalField);
    lemma_g_piece_extends(GPiece::ThisFirst);
    lemma_g_piece_extends(GPiece::ThisNext);
    lemma_g_piece_extends(GPiece::ToStrFirst);
    lemma_g_piece_extends(GPiece::ToStrNext);
    lemma_g_piece_extends(GPiece::EqLine);
    lemma_g_piece_extends(GPiece::HashFirst);
    lemma_g_piece_extends(GPiece::HashNext);
    lemma_g_piece_extends(GPiece::CopyParamFirst);
    lemma_g_piece_extends(GPiece::CopyParamNext);
    lemma_g_piece_extends(GPiece::CopyArgFirst);
    lemma_g_piece_extends(GPiece::CopyArgNext);
    lemma_g_piece_extends(GPiece::CopyParamLine);
    lemma_g_piece_extends(GPiece::ToStrPlainFirst);
    lemma_g_piece_extends(GPiece::ToStrPlainNext);
    lemma_g_piece_extends(GPiece::EqFirst);
    lemma_g_piece_extends(GPiece::EqNext);
    lemma_g_piece_extends(GPiece::ToJsonEntry);
    lemma_g_piece_extends(GPiece::FromJsonEntry);
    let r = o + "mixin _$"@ + n + " {\n"@ + "  "@ + n + " copyWith({"@;
    let o1 = put_g_joined(o + "mixin _$"@ + n + " {\n"@ + "  "@ + n + " copyWith({"@, fs, GPiece::CopyParamFirst, GPiece::CopyParamNext);
    lemma_g_joined_keeps(r, fs, GPiece::CopyParamFirst, GPiece::CopyParamNext);
    assert(keeps(r, o1));
    lemma_keeps_add(o1, "});\n"@);
    lemma_keeps_trans(r, o1, o1 + "});\n"@);
    lemma_keeps_add(o1 + "});\n"@, "}\n\n"@);
    lemma_keeps_trans(r, o1 + "});\n"@, o1 + "});\n"@ + "}\n\n"@);
    lemma_keeps_add(o1 + "});\n"@ + "}\n\n"@, "class _"@);
    lemma_keeps_trans(r, o1 + "});\n"@ + "}\n\n"@, o1 + "});\n"@ + "}\n\n"@ + "class _"@);
    lemma_keeps_add(o1 + "});\n"@ + "}\n\n"@ + "class _"@, n);
    lemma_keeps_trans(r, o1 + "});\n"@ + "}\n\n"@ + "class _"@, o1 + "});\n"@ + "}\n\n"@ + "class _"@ + n);
    lemma_keeps_add(o1 + "});\n"@ + "}\n\n"@ + "class _"@ + n, " with _$"@);
    lemma_keeps_trans(r, o1 + "});\n"@ + "}\n\n"@ + "class _"@ + n, o1 + "});\n"@ + "}\n\n"@ + "class _"@ + n + " with _$"@);
    lemma_keeps_add(o1 + "});\n"@ + "}\n\n"@ + "class _"@ + n + " with _$"@, n);
    lemma_keeps_trans(r, o1 + "});\n"@ + "}\n\n"@ + "class _"@ + n + " with _$"@, o1 + "});\n"@ + "}\n\n"@ + "class _"@ + n + " with _$"@ + n);
    lemma_keeps_add(o1 + "});\n"@ + "}\n\n"@ + "class _"@ + n + " with _$"@ + n, " implements "@);
    lemma_keeps_trans(r, o1 + "});\n"@ + "}\n\n"@ + "class _"@ + n + " with _$"@ + n, o1 + "});\n"@ + "}\n\n"@ + "class _"@ + n + " with _$"@ + n + " implements "@);
    lemma_keeps_add(o1 + "});\n"@ + "}\n\n"@ + "class _"@ + n + " with _$"@ + n + " implements "@, n);
    lemma_keeps_trans(r, o1 + "});\n"@ + "}\n\n"@ + "class _"@ + n + " with _$"@ + n + " implements "@, o1 + "});\n"@ + "}\n\n"@ + "class _"@ + n + " with _$"@ + n + " implements "@ + n);
    lemma_keeps_add(o1 + "});\n"@ + "}\n\n"@ + "class _"@ + n + " with _$"@ + n + " implements "@ + n, " {\n"@);
    lemma_keeps_trans(r, o1 + "});\n"@ + "}\n\n"@ + "class _"@ + n + " with _$"@ + n + " implements "@ + n, o1 + "});\n"@ + "}\n\n"@ + "class _"@ + n + " with _$"@ + n + " implements "@ + n + " {\n"@);
    lemma_fold_put_keeps(o1 + "});\n"@ + "}\n\n"@ + "class _"@ + n + " with _$"@ + n + " implements "@ + n + " {\n"@, fs, g_piece_fn(GPiece::FinalField));
    lemma_keeps_trans(r, o1 + "});\n"@ + "}\n\n"@ + "class _"@ + n + " with _$"@ + n + " implements "@ + n + " {\n"@, fold_put(o1 + "});\n"@ + "}\n\n"@ + "class _"@ + n + " with _$"@ + n + " implements "@ + n + " {\n"@, fs, g_piece_fn(GPiece::FinalField)));
    let o2 = fold_put(o1 + "});\n"@ + "}\n\n"@ + "class _"@ + n + " with _$"@ + n + " implements "@ + n + " {\n"@, fs, g_piece_fn(GPiece::FinalField));
    assert(keeps(r, o2));
    lemma_keeps_add(o2, "\n"@);
    lemma_keeps_trans(r, o2, o2 + "\n"@);
    lemma_keeps_add(o2 + "\n"@, "  const _"@);
    lemma_keeps_trans(r, o2 + "\n"@, o2 + "\n"@ + "  const _"@);
    lemma_keeps_add(o2 + "\n"@ + "  const _"@, n);
    lemma_keeps_trans(r, o2 + "\n"@ + "  const _"@, o2 + "\n"@ + "  const _"@ + n);
    lemma_keeps_add(o2 + "\n"@ + "  const _"@ + n, "({"@);
    lemma_keeps_trans(r, o2 + "\n"@ + "  const _"@ + n, o2 + "\n"@ + "  const _"@ + n + "({"@);
    lemma_g_joined_keeps(o2 + "\n"@ + "  const _"@ + n + "({"@, fs, GPiece::ThisFirst, GPiece::ThisNext);
    lemma_keeps_trans(r, o2 + "\n"@ + "  const _"@ + n + "({"@, put_g_joined(o2 + "\n"@ + "  const _"@ + n + "({"@, fs, GPiece::ThisFirst, GPiece::ThisNext));
    let o3 = put_g_joined(o2 + "\n"@ + "  const _"@ + n + "({"@, fs, GPiece::ThisFirst, GPiece::ThisNext);
    assert(keeps(r, o3));
    lemma_keeps_add(o3, ");\n\n"@);
    lemma_keeps_trans(r, o3, o3 + ");\n\n"@);
    lemma_keeps_add(o3 + ");\n\n"@, "  @override\n  "@);
    lemma_keeps_trans(r, o3 + ");\n\n"@, o3 + ");\n\n"@ + "  @override\n  "@);
    lemma_keeps_add(o3 + ");\n\n"@ + "  @override\n  "@, n);
    lemma_keeps_trans(r, o3 + ");\n\n"@ + "  @override\n  "@, o3 + ");\n\n"@ + "  @override\n  "@ + n);
    lemma_keeps_add(o3 + ");\n\n"@ + "  @override\n  "@ + n, " copyWith({"@);
    lemma_keeps_trans(r, o3 + ");\n\n"@ + "  @override\n  "@ + n, o3 + ");\n\n"@ + "  @override\n  "@ + n + " copyWith({"@);
    lemma_g_joined_keeps(o3 + ");\n\n"@ + "  @override\n  "@ + n + " copyWith({"@, fs, GPiece::CopyParamFirst, GPiece::CopyParamNext);
    lemma_keeps_trans(r, o3 + ");\n\n"@ + "  @override\n  "@ + n + " copyWith({"@, put_g_joined(o3 + ");\n\n"@ + "  @override\n  "@ + n + " copyWith({"@, fs, GPiece::CopyParamFirst, GPiece::CopyParamNext));
    let o4 = put_g_joined(o3 + ");\n\n"@ + "  @override\n  "@ + n + " copyWith({"@, fs, GPiece::CopyParamFirst, GPiece::CopyParamNext);
    assert(keeps(r, o4));
    lemma_keeps_add(o4, "}}) {\n"@);
    lemma_keeps_trans(r, o4, o4 + "}}) {\n"@);
    lemma_keeps_add(o4 + "}}) {\n"@, "    return _"@);
    lemma_keeps_trans(r, o4 + "}}) {\n"@, o4 + "}}) {\n"@ + "    return _"@);
    lemma_keeps_add(o4 + "}}) {\n"@ + "    return _"@, n);
    lemma_keeps_trans(r, o4 + "}}) {\n"@ + "    return _"@, o4 + "}}) {\n"@ + "    return _"@ + n);
    lemma_keeps_add(o4 + "}}) {\n"@ + "    return _"@ + n, "("@);
    lemma_keeps_trans(r, o4 + "}}) {\n"@ + "    return _"@ + n, o4 + "}}) {\n"@ + "    return _"@ + n + "("@);
    lemma_g_joined_keeps(o4 + "}}) {\n"@ + "    return _"@ + n + "("@, fs, GPiece::CopyArgFirst, GPiece::CopyArgNext);
    lemma_keeps_trans(r, o4 + "}}) {\n"@ + "    return _"@ + n + "("@, put_g_joined(o4 + "}}) {\n"@ + "    return _"@ + n + "("@, fs, GPiece::CopyArgFirst, GPiece::CopyArgNext));
    let o5 = put_g_joined(o4 + "}}) {\n"@ + "    return _"@ + n + "("@, fs, GPiece::CopyArgFirst, GPiece::CopyArgNext);
    assert(keeps(r, o5));
    lemma_keeps_add(o5, ");\n  }\n\n"@);
    lemma_keeps_trans(r, o5, o5 + ");\n  }\n\n"@);
    lemma_keeps_add(o5 + ");\n  }\n\n"@, "  @override\n  String toString() {\n    return '"@);
    lemma_keeps_trans(r, o5 + ");\n  }\n\n"@, o5 + ");\n  }\n\n"@ + "  @override\n  String toString() {\n    return '"@);
    lemma_keeps_add(o5 + ");\n  }\n\n"@ + "  @override\n  String toString() {\n    return '"@, n);
    lemma_keeps_trans(r, o5 + ");\n  }\n\n"@ + "  @override\n  String toString() {\n    return '"@, o5 + ");\n  }\n\n"@ + "  @override\n  String toString() {\n    return '"@ + n);
    lemma_keeps_add(o5 + ");\n  }\n\n"@ + "  @override\n  String toString() {\n    return '"@ + n, "("@);
    lemma_keeps_trans(r, o5 + ");\n  }\n\n"@ + "  @override\n  String toString() {\n    return '"@ + n, o5 + ");\n  }\n\n"@ + "  @override\n  String toString() {\n    return '"@ + n + "("@);
    lemma_g_joined_keeps(o5 + ");\n  }\n\n"@ + "  @override\n  String toString() {\n    return '"@ + n + "("@, fs, GPiece::ToStrFirst, GPiece::ToStrNext);
    lemma_keeps_trans(r, o5 + ");\n  }\n\n"@ + "  @override\n  String toString() {\n    return '"@ + n + "("@, put_g_joined(o5 + ");\n  }\n\n"@ + "  @override\n  String toString() {\n    return '"@ + n + "("@, fs, GPiece::ToStrFirst, GPiece::ToStrNext));
    let o6 = put_g_joined(o5 + ");\n  }\n\n"@ + "  @override\n  String toString() {\n    return '"@ + n + "("@, fs, GPiece::ToStrFirst, GPiece::ToStrNext);
    assert(keeps(r, o6));
    lemma_keeps_add(o6, ")';\n  }\n\n"@);
    lemma_keeps_trans(r, o6, o6 + ")';\n  }\n\n"@);
    lemma_keeps_add(o6 + ")';\n  }\n\n"@, "  @override\n  bool operator ==(Object other) {\n    return identical(this, other) ||\n        other is _"@);
    lemma_keeps_trans(r, o6 + ")';\n  }\n\n"@, o6 + ")';\n  }\n\n"@ + "  @override\n  bool operator ==(Object other) {\n    return identical(this, other) ||\n        other is _"@);
    lemma_keeps_add(o6 + ")';\n  }\n\n"@ + "  @override\n  bool operator ==(Object other) {\n    return identical(this, other) ||\n        other is _"@, n);
    lemma_keeps_trans(r, o6 + ")';\n  }\n\n"@ + "  @override\n  bool operator ==(Object other) {\n    return identical(this, other) ||\n        other is _"@, o6 + ")';\n  }\n\n"@ + "  @override\n  bool operator ==(Object other) {\n    return identical(this, other) ||\n        other is _"@ + n);
    lemma_keeps_add(o6 + ")';\n  }\n\n"@ + "  @override\n  bool operator ==(Object other) {\n    return identical(this, other) ||\n        other is _"@ + n, " &&\n"@);
    lemma_keeps_trans(r, o6 + ")';\n  }\n\n"@ + "  @override\n  bool operator ==(Object other) {\n    return identical(this, other) ||\n        other is _"@ + n, o6 + ")';\n  }\n\n"@ + "  @override\n  bool operator ==(Object other) {\n    return identical(this, other) ||\n        other is _"@ + n + " &&\n"@);
    lemma_fold_put_keeps(o6 + ")';\n  }\n\n"@ + "  @override\n  bool operator ==(Object other) {\n    return identical(this, other) ||\n        other is _"@ + n + " &&\n"@, fs, g_piece_fn(GPiece::EqLine));
    lemma_keeps_trans(r, o6 + ")';\n  }\n\n"@ + "  @override\n  bool operator ==(Object other) {\n    return identical(this, other) ||\n        other is _"@ + n + " &&\n"@, fold_put(o6 + ")';\n  }\n\n"@ + "  @override\n  bool operator ==(Object other) {\n    return identical(this, other) ||\n        other is _"@ + n + " &&\n"@, fs, g_piece_fn(GPiece::EqLine)));
    let o7 = fold_put(o6 + ")';\n  }\n\n"@ + "  @override\n  bool operator ==(Object other) {\n    return identical(this, other) ||\n        other is _"@ + n + " &&\n"@, fs, g_piece_fn(GPiece::EqLine));
    assert(keeps(r, o7));
    lemma_keeps_add(o7, "        true;\n  }\n\n"@);
    lemma_keeps_trans(r, o7, o7 + "        true;\n  }\n\n"@);
    lemma_keeps_add(o7 + "        true;\n  }\n\n"@, "  @override\n  int get hashCode => "@);
    lemma_keeps_trans(r, o7 + "        true;\n  }\n\n"@, o7 + "        true;\n  }\n\n"@ + "  @override\n  int get hashCode => "@);
    lemma_g_joined_keeps(o7 + "        true;\n  }\n\n"@ + "  @override\n  int get hashCode => "@, fs, GPiece::HashFirst, GPiece::HashNext);
    lemma_keeps_trans(r, o7 + "        true;\n  }\n\n"@ + "  @override\n  int get hashCode => "@, put_g_joined(o7 + "        true;\n  }\n\n"@ + "  @override\n  int get hashCode => "@, fs, GPiece::HashFirst, GPiece::HashNext));
    let o8 = put_g_joined(o7 + "        true;\n  }\n\n"@ + "  @override\n  int get hashCode => "@, fs, GPiece::HashFirst, GPiece::HashNext);
    assert(keeps(r, o8));
    lemma_keeps_add(o8, ";\n\n"@);
    lemma_keeps_trans(r, o8, o8 + ";\n\n"@);
    lemma_keeps_add(o8 + ";\n\n"@, "  Map<String, dynamic> toJson() => _$"@);
    lemma_keeps_trans(r, o8 + ";\n\n"@, o8 + ";\n\n"@ + "  Map<String, dynamic> toJson() => _$"@);
    lemma_keeps_add(o8 + ";\n\n"@ + "  Map<String, dynamic> toJson() => _$"@, n);
    lemma_keeps_trans(r, o8 + ";\n\n"@ + "  Map<String, dynamic> toJson() => _$"@, o8 + ";\n\n"@ + "  Map<String, dynamic> toJson() => _$"@ + n);
    lemma_keeps_add(o8 + ";\n\n"@ + "  Map<String, dynamic> toJson() => _$"@ + n, "ToJson(this);\n"@);
    lemma_keeps_trans(r, o8 + ";\n\n"@ + "  Map<String, dynamic> toJson() => _$"@ + n, o8 + ";\n\n"@ + "  Map<String, dynamic> toJson() => _$"@ + n + "ToJson(this);\n"@);
    lemma_keeps_add(o8 + ";\n\n"@ + "  Map<String, dynamic> toJson() => _$"@ + n + "ToJson(this);\n"@, "}\n"@);
    lemma_keeps_trans(r, o8 + ";\n\n"@ + "  Map<String, dynamic> toJson() => _$"@ + n + "ToJson(this);\n"@, o8 + ";\n\n"@ + "  Map<String, dynamic> toJson() => _$"@ + n + "ToJson(this);\n"@ + "}\n"@);
    assert(put_g_regular_class(o, n, fs) == o8 + ";\n\n"@ + "  Map<String, dynamic> toJson() => _$"@ + n + "ToJson(this);\n"@ + "}\n"@);
}


/// The class of a union case, written after `o`, begins with its class line.
#[verifier::rlimit(100)]
proof fn lemma_g_case_class_from_line(o: Seq<char>, n: Seq<char>, c: TreeCase)
    ensures
        keeps(o + "class "@ + case_class_name(n, c.case_name) + " implements "@ + n + " {\n"@, put_g_case_class(o, n, c)),
{
    lemma_g_piece_extends(GPiece::FinalField);
    lemma_g_piece_extends(GPiece::ThisFirst);
    lemma_g_piece_extends(GPiece::ThisNext);
    lemma_g_piece_extends(GPiece::ToStrFirst);
    lemma_g_piece_extends(GPiece::ToStrNext);
    lemma_g_piece_extends(GPiece::EqLine);
    lemma_g_piece_extends(GPiece::HashFirst);
    lemma_g_piece_extends(GPiece::HashNext);
    lemma_g_piece_extends(GPiece::CopyParamFirst);
    lemma_g_piece_extends(GPiece::CopyParamNext);
    lemma_g_piece_extends(GPiece::CopyArgFirst);
    lemma_g_piece_extends(GPiece::CopyArgNext);
    lemma_g_piece_extends(GPiece::CopyParamLine);
    lemma_g_piece_extends(GPiece::ToStrPlainFirst);
    lemma_g_piece_extends(GPiece::ToStrPlainNext);
    lemma_g_piece_extends(GPiece::EqFirst);
    lemma_g_piece_extends(GPiece::EqNext);
    lemma_g_piece_extends(GPiece::ToJsonEntry);
    lemma_g_piece_extends(GPiece::FromJsonEntry);
    let o1 = o;
    let r = o1 + "class "@ + case_class_name(n, c.case_name) + " implements "@ + n + " {\n"@;
    let o2 = fold_put(o1 + "class "@ + case_class_name(n, c.case_name) + " implements "@ + n + " {\n"@, c.fields, g_piece_fn(GPiece::FinalField));
    lemma_fold_put_keeps(r, c.fields, g_piece_fn(GPiece::FinalField));
    assert(keeps(r, o2));
    lemma_keeps_add(o2, "\n"@);
    lemma_keeps_trans(r, o2, o2 + "\n"@);
    lemma_keeps_add(o2 + "\n"@, "  const "@);
    lemma_keeps_trans(r, o2 + "\n"@, o2 + "\n"@ + "  const "@);
    lemma_keeps_add(o2 + "\n"@ + "  const "@, case_class_name(n, c.case_name));
    lemma_keeps_trans(r, o2 + "\n"@ + "  const "@, o2 + "\n"@ + "  const "@ + case_class_name(n, c.case_name));
    lemma_keeps_add(o2 + "\n"@ + "  const "@ + case_class_name(n, c.case_name), "({"@);
    lemma_keeps_trans(r, o2 + "\n"@ + "  const "@ + case_class_name(n, c.case_name), o2 + "\n"@ + "  const "@ + case_class_name(n, c.case_name) + "({"@);
    lemma_g_joined_keeps(o2 + "\n"@ + "  const "@ + case_class_name(n, c.case_name) + "({"@, c.fields, GPiece::ThisFirst, GPiece::ThisNext);
    lemma_keeps_trans(r, o2 + "\n"@ + "  const "@ + case_class_name(n, c.case_name) + "({"@, put_g_joined(o2 + "\n"@ + "  const "@ + case_class_name(n, c.case_name) + "({"@, c.fields, GPiece::ThisFirst, GPiece::ThisNext));
    let o3 = put_g_joined(o2 + "\n"@ + "  const "@ + case_class_name(n, c.case_name) + "({"@, c.fields, GPiece::ThisFirst, GPiece::ThisNext);
    assert(keeps(r, o3));
    lemma_keeps_add(o3, "});\n\n"@);
    lemma_keeps_trans(r, o3, o3 + "});\n\n"@);
    lemma_keeps_add(o3 + "});\n\n"@, "  @override\n  String toString() {\n    return '"@);
    lemma_keeps_trans(r, o3 + "});\n\n"@, o3 + "});\n\n"@ + "  @override\n  String toString() {\n    return '"@);
    lemma_keeps_add(o3 + "});\n\n"@ + "  @override\n  String toString() {\n    return '"@, case_class_name(n, c.case_name));
    lemma_keeps_trans(r, o3 + "});\n\n"@ + "  @override\n  String toString() {\n    return '"@, o3 + "});\n\n"@ + "  @override\n  String toString() {\n    return '"@ + case_class_name(n, c.case_name));
    lemma_keeps_add(o3 + "});\n\n"@ + "  @override\n  String toString() {\n    return '"@ + case_class_name(n, c.case_name), "("@);
    lemma_keeps_trans(r, o3 + "});\n\n"@ + "  @override\n  String toString() {\n    return '"@ + case_class_name(n, c.case_name), o3 + "});\n\n"@ + "  @override\n  String toString() {\n    return '"@ + case_class_name(n, c.case_name) + "("@);
    lemma_g_joined_keeps(o3 + "});\n\n"@ + "  @override\n  String toString() {\n    return '"@ + case_class_name(n, c.case_name) + "("@, c.fields, GPiece::ToStrFirst, GPiece::ToStrNext);
    lemma_keeps_trans(r, o3 + "});\n\n"@ + "  @override\n  String toString() {\n    return '"@ + case_class_name(n, c.case_name) + "("@, put_g_joined(o3 + "});\n\n"@ + "  @override\n  String toString() {\n    return '"@ + case_class_name(n, c.case_name) + "("@, c.fields, GPiece::ToStrFirst, GPiece::ToStrNext));
    let o4 = put_g_joined(o3 + "});\n\n"@ + "  @override\n  String toString() {\n    return '"@ + case_class_name(n, c.case_name) + "("@, c.fields, GPiece::ToStrFirst, GPiece::ToStrNext);
    assert(keeps(r, o4));
    lemma_keeps_add(o4, ")"@);
    lemma_keeps_trans(r, o4, o4 + ")"@);
    lemma_keeps_add(o4 + ")"@, "';\n  }\n\n"@);
    lemma_keeps_trans(r, o4 + ")"@, o4 + ")"@ + "';\n  }\n\n"@);
    lemma_keeps_add(o4 + ")"@ + "';\n  }\n\n"@, "  @override\n  bool operator ==(Object other) {\n    return identical(this, other) ||\n        other is "@);
    lemma_keeps_trans(r, o4 + ")"@ + "';\n  }\n\n"@, o4 + ")"@ + "';\n  }\n\n"@ + "  @override\n  bool operator ==(Object other) {\n    return identical(this, other) ||\n        other is "@);
    lemma_keeps_add(o4 + ")"@ + "';\n  }\n\n"@ + "  @override\n  bool operator ==(Object other) {\n    return identical(this, other) ||\n        other is "@, case_class_name(n, c.case_name));
    lemma_keeps_trans(r, o4 + ")"@ + "';\n  }\n\n"@ + "  @override\n  bool operator ==(Object other) {\n    return identical(this, other) ||\n        other is "@, o4 + ")"@ + "';\n  }\n\n"@ + "  @override\n  bool operator ==(Object other) {\n    return identical(this, other) ||\n        other is "@ + case_class_name(n, c.case_name));
    lemma_keeps_add(o4 + ")"@ + "';\n  }\n\n"@ + "  @override\n  bool operator ==(Object other) {\n    return identical(this, other) ||\n        other is "@ + case_class_name(n, c.case_name), " &&\n"@);
    lemma_keeps_trans(r, o4 + ")"@ + "';\n  }\n\n"@ + "  @override\n  bool operator ==(Object other) {\n    return identical(this, other) ||\n        other is "@ + case_class_name(n, c.case_name), o4 + ")"@ + "';\n  }\n\n"@ + "  @override\n  bool operator ==(Object other) {\n    return identical(this, other) ||\n        other is "@ + case_class_name(n, c.case_name) + " &&\n"@);
    lemma_fold_put_keeps(o4 + ")"@ + "';\n  }\n\n"@ + "  @override\n  bool operator ==(Object other) {\n    return identical(this, other) ||\n        other is "@ + case_class_name(n, c.case_name) + " &&\n"@, c.fields, g_piece_fn(GPiece::EqLine));
    lemma_keeps_trans(r, o4 + ")"@ + "';\n  }\n\n"@ + "  @override\n  bool operator ==(Object other) {\n    return identical(this, other) ||\n        other is "@ + case_class_name(n, c.case_name) + " &&\n"@, fold_put(o4 + ")"@ + "';\n  }\n\n"@ + "  @override\n  bool operator ==(Object other) {\n    return identical(this, other) ||\n        other is "@ + case_class_name(n, c.case_name) + " &&\n"@, c.fields, g_piece_fn(GPiece::EqLine)));
    let o5 = fold_put(o4 + ")"@ + "';\n  }\n\n"@ + "  @override\n  bool operator ==(Object other) {\n    return identical(this, other) ||\n        other is "@ + case_class_name(n, c.case_name) + " &&\n"@, c.fields, g_piece_fn(GPiece::EqLine));
    assert(keeps(r, o5));
    lemma_keeps_add(o5, "        true;\n  }\n\n"@);
    lemma_keeps_trans(r, o5, o5 + "        true;\n  }\n\n"@);
    lemma_keeps_add(o5 + "        true;\n  }\n\n"@, "  @override\n  int get hashCode => "@);
    lemma_keeps_trans(r, o5 + "        true;\n  }\n\n"@, o5 + "        true;\n  }\n\n"@ + "  @override\n  int get hashCode => "@);
    lemma_g_joined_keeps(o5 + "        true;\n  }\n\n"@ + "  @override\n  int get hashCode => "@, c.fields, GPiece::HashFirst, GPiece::HashNext);
    lemma_keeps_trans(r, o5 + "        true;\n  }\n\n"@ + "  @override\n  int get hashCode => "@, put_g_joined(o5 + "        true;\n  }\n\n"@ + "  @override\n  int get hashCode => "@, c.fields, GPiece::HashFirst, GPiece::HashNext));
    let o6 = put_g_joined(o5 + "        true;\n  }\n\n"@ + "  @override\n  int get hashCode => "@, c.fields, GPiece::HashFirst, GPiece::HashNext);
    assert(keeps(r, o6));
    let o7 = o6;
    assert(keeps(r, o7));
    if c.fields.len() == 0 {
        lemma_keeps_add(o7, "0"@);
        lemma_keeps_trans(r, o7, o7 + "0"@);
    } else {
    }
    let o8 = if c.fields.len() == 0 { o7 + "0"@ } else { o7 };
    assert(keeps(r, o8));
    lemma_keeps_add(o8, ";\n\n"@);
    lemma_keeps_trans(r, o8, o8 + ";\n\n"@);
    lemma_keeps_add(o8 + ";\n\n"@, "  Map<String, dynamic> toJson() => _$"@);
    lemma_keeps_trans(r, o8 + ";\n\n"@, o8 + ";\n\n"@ + "  Map<String, dynamic> toJson() => _$"@);
    lemma_keeps_add(o8 + ";\n\n"@ + "  Map<String, dynamic> toJson() => _$"@, case_class_name(n, c.case_name));
    lemma_keeps_trans(r, o8 + ";\n\n"@ + "  Map<String, dynamic> toJson() => _$"@, o8 + ";\n\n"@ + "  Map<String, dynamic> toJson() => _$"@ + case_class_name(n, c.case_name));
    lemma_keeps_add(o8 + ";\n\n"@ + "  Map<String, dynamic> toJson() => _$"@ + case_class_name(n, c.case_name), "ToJson(this);\n"@);
    lemma_keeps_trans(r, o8 + ";\n\n"@ + "  Map<String, dynamic> toJson() => _$"@ + case_class_name(n, c.case_name), o8 + ";\n\n"@ + "  Map<String, dynamic> toJson() => _$"@ + case_class_name(n, c.case_name) + "ToJson(this);\n"@);
    lemma_keeps_add(o8 + ";\n\n"@ + "  Map<String, dynamic> toJson() => _$"@ + case_class_name(n, c.case_name) + "ToJson(this);\n"@, "}\n\n"@);
    lemma_keeps_trans(r, o8 + ";\n\n"@ + "  Map<String, dynamic> toJson() => _$"@ + case_class_name(n, c.case_name) + "ToJson(this);\n"@, o8 + ";\n\n"@ + "  Map<String, dynamic> toJson() => _$"@ + case_class_name(n, c.case_name) + "ToJson(this);\n"@ + "}\n\n"@);
    assert(put_g_case_class(o, n, c) == o8 + ";\n\n"@ + "  Map<String, dynamic> toJson() => _$"@ + case_class_name(n, c.case_name) + "ToJson(this);\n"@ + "}\n\n"@);
}

/// The line that opens the class of the case `case_name` of the union class `n`.
pub open spec fn g_case_class_line(n: Seq<char>, case_name: Seq<char>) -> Seq<char> {
    "class "@ + case_class_name(n, case_name) + " implements "@ + n + " {\n"@
}

/// The class of a union case holds its class line, wherever it is written.
pub proof fn lemma_g_case_class_holds_line(n: Seq<char>, c: TreeCase)
    ensures
        forall|o: Seq<char>| #[trigger] contains(g_case_part_fn(n, GCasePart::Class)(o, c), g_case_class_line(n, c.case_name)),
{
    assert forall|o: Seq<char>| #[trigger] contains(g_case_part_fn(n, GCasePart::Class)(o, c), g_case_class_line(n, c.case_name)) by {
        let line = g_case_class_line(n, c.case_name);
        let start = o + "class "@ + case_class_name(n, c.case_name) + " implements "@ + n + " {\n"@;
        assert(start =~= o + line);
        assert(start.subrange(o.len() as int, (o.len() + line.len()) as int) =~= line);
        assert(is_match_at(start, line, o.len() as int));
        lemma_g_case_class_from_line(o, n, c);
        assert(g_case_part_fn(n, GCasePart::Class)(o, c) == put_g_case_class(o, n, c));
        lemma_contains_keeps(start, put_g_case_class(o, n, c), line);
    }
}

} // verus!
