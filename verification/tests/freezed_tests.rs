use superfastgen::commands::freezed_gen::{
    extract_fields_from_dart_class, extract_union_cases_from_dart_class, generate_freezed_file, generate_json_code,
    get_safe_output_paths, parse_dart_parameter, source_would_panic, try_generate_freezed_file,
    try_get_safe_output_paths, DartClass, DartField,
};
use superfastgen::commands::freezed_json::{
    format_long_expression, format_would_panic, get_field_conversion, get_to_json_field_conversion,
};
use superfastgen::commands::freezed_templates::{regular_class_code, to_pascal_case};

const USER_SOURCE: &str = r#"
import 'package:freezed_annotation/freezed_annotation.dart';

part 'user.freezed.dart';
part 'user.g.dart';

@freezed
class User with _$User {
  const factory User({
    required String name,
    required String email,
    int? age,
  }) = _User;

  factory User.fromJson(Map<String, dynamic> json) => _$UserFromJson(json);
}
"#;

fn field(name: &str, ty: &str) -> DartField {
    DartField { name: name.to_string(), ty: ty.to_string(), is_named: true, has_default: false, default_value: None }
}

fn with_default(name: &str, ty: &str, value: &str) -> DartField {
    DartField {
        name: name.to_string(),
        ty: ty.to_string(),
        is_named: true,
        has_default: true,
        default_value: Some(value.to_string()),
    }
}

fn user_class() -> DartClass {
    DartClass { name: "User".to_string(), annotations: vec!["@freezed".to_string()], file_path: "lib/user.dart".to_string() }
}

#[test]
fn fields_of_a_freezed_class_from_its_text() {
    let fields = extract_fields_from_dart_class(USER_SOURCE, "User");
    let got: Vec<(&str, &str)> = fields.iter().map(|f| (f.name.as_str(), f.ty.as_str())).collect();
    assert_eq!(got, vec![("name", "String"), ("email", "String"), ("age", "int?")]);
    assert!(extract_union_cases_from_dart_class(USER_SOURCE, "User").is_empty());
}

#[test]
fn parameters_with_and_without_defaults() {
    let p = parse_dart_parameter("required String name,").unwrap();
    assert_eq!((p.name.as_str(), p.ty.as_str(), p.is_named, p.has_default), ("name", "String", false, false));

    let p = parse_dart_parameter("@Default('guest') String role").unwrap();
    assert_eq!((p.name.as_str(), p.ty.as_str()), ("role", "String"));
    assert!(p.has_default);
    assert_eq!(p.default_value.as_deref(), Some("'guest'"));

    let p = parse_dart_parameter("{required int count}").unwrap();
    assert_eq!((p.name.as_str(), p.ty.as_str(), p.is_named), ("int", "{required", true));

    assert!(parse_dart_parameter("// a comment").is_none());
    assert!(parse_dart_parameter("draft").is_none());
    assert!(parse_dart_parameter("int").is_none());
    assert!(parse_dart_parameter("   ").is_none());
}

#[test]
fn json_conversions_by_type() {
    assert_eq!(get_field_conversion(&field("at", "DateTime")), "DateTime.parse(json['at'] as String)");
    assert_eq!(
        get_field_conversion(&field("at", "DateTime?")),
        "json['at'] == null\n          ? null\n          : DateTime.parse(json['at'] as String)"
    );
    assert_eq!(get_field_conversion(&field("n", "int")), "(json['n'] as num).toInt()");
    assert_eq!(get_field_conversion(&field("n", "int?")), "(json['n'] as num?)?.toInt()");
    assert_eq!(get_field_conversion(&with_default("role", "String", "'guest'")), "json['role'] as String? ?? 'guest'");
    assert_eq!(get_field_conversion(&with_default("ok", "bool", "true")), "json['ok'] as bool? ?? true");
    assert_eq!(get_field_conversion(&field("ok", "bool")), "json['ok'] as bool");
    assert_eq!(
        get_field_conversion(&with_default("tags", "List<String>", "[]")),
        "(json['tags'] as List<dynamic>?)\n          ?.map((e) => e as String)\n          .toList() ??\n      const []"
    );
    assert_eq!(get_field_conversion(&field("address", "Address")), "json['address'] as Address");

    assert_eq!(get_to_json_field_conversion(&field("at", "DateTime")), "instance.at.toIso8601String()");
    assert_eq!(get_to_json_field_conversion(&field("at", "DateTime?")), "instance.at?.toIso8601String()");
    assert_eq!(get_to_json_field_conversion(&field("name", "String")), "instance.name");
}

#[test]
fn long_expressions_are_laid_out() {
    assert_eq!(format_long_expression("json['name'] as String"), "json['name'] as String");
    assert_eq!(
        format_long_expression("json['at'] == null ? null : DateTime.parse(json['at'] as String)"),
        "json['at'] == null\n          ? null\n          : DateTime.parse(json['at'] as String)"
    );
    let long = "json['shipping_address'] == null ? null : Address.fromJson(json['shipping_address'] as Map<String, dynamic>)";
    assert!(!format_would_panic(long));
    assert_eq!(
        format_long_expression(long),
        "json['shipping_address'] == null \n          ? null\n          :  Address.fromJson(json['shipping_address'] as Map<String, dynamic>)"
    );
}

#[test]
fn pascal_case_names() {
    assert_eq!(to_pascal_case("in_progress"), "InProgress");
    assert_eq!(to_pascal_case("loaded-data"), "LoadedData");
    assert_eq!(to_pascal_case(""), "");
}

#[test]
fn output_paths_next_to_the_source() {
    let (freezed, g) = get_safe_output_paths("lib/models/user.dart");
    assert_eq!(freezed, "lib/models/user.freezed.dart");
    assert_eq!(g, "lib/models/user.g.dart");
    let (freezed, g) = get_safe_output_paths("lib/user.g.dart");
    assert_eq!(freezed, "lib/user.freezed.dart");
    assert_eq!(g, "lib/user.g.dart");
    assert!(try_get_safe_output_paths("").is_none());
}

#[test]
fn freezed_file_writes_the_shared_head_once() {
    let classes = vec![user_class(), user_class()];
    let sources = vec![USER_SOURCE.to_string(), USER_SOURCE.to_string()];
    assert!(!source_would_panic("User", USER_SOURCE));
    let result = generate_freezed_file("lib/user.dart", &classes, &sources).unwrap();

    assert!(result.freezed_code.starts_with("// coverage:ignore-file\n// GENERATED CODE - DO NOT MODIFY BY HAND\n"));
    assert!(result.freezed_code.contains("part of 'user.dart';\n\n"));
    assert_eq!(result.freezed_code.matches("final _privateConstructorUsedError = UnsupportedError(").count(), 1);
    assert_eq!(result.freezed_code.matches("T _$identity<T>(T value) => value;").count(), 1);

    assert!(result.g_dart_code.starts_with("// GENERATED CODE - DO NOT MODIFY BY HAND\n\npart of 'user.dart';\n\n"));
    assert!(result.g_dart_code.ends_with("\n"));
    assert!(!result.g_dart_code.ends_with("\n\n"));
    let json = generate_json_code(&user_class(), USER_SOURCE);
    assert_eq!(result.g_dart_code.matches(json.trim_end()).count(), 1);
}

#[test]
fn freezed_file_needs_one_source_per_class() {
    let classes = vec![user_class()];
    assert!(try_generate_freezed_file("lib/user.dart", &classes, &[]).is_none());
    assert!(try_generate_freezed_file("lib/user.dart", &classes, &[USER_SOURCE.to_string()]).is_some());
}

const RESULT_SOURCE: &str = r#"
@freezed
class Result with _$Result {
  const factory Result.success({required String data}) = _Success;
  const factory Result.failure({required String message, int? code}) = _Failure;
}
"#;

fn result_class() -> DartClass {
    DartClass {
        name: "Result".to_string(),
        annotations: vec!["@freezed".to_string()],
        file_path: "lib/result.dart".to_string(),
    }
}

#[test]
fn union_cases_from_factory_constructors() {
    let cases = extract_union_cases_from_dart_class(RESULT_SOURCE, "Result");
    let got: Vec<(&str, Vec<(&str, &str)>)> = cases
        .iter()
        .map(|c| (c.case_name.as_str(), c.fields.iter().map(|f| (f.name.as_str(), f.ty.as_str())).collect()))
        .collect();
    assert_eq!(got, vec![("success", vec![("data", "String")]), ("failure", vec![("message", "String"), ("code", "int?")])]);
}

#[test]
fn union_class_code_and_json() {
    assert!(!source_would_panic("Result", RESULT_SOURCE));
    let code = superfastgen::commands::freezed_gen::generate_freezed_code(&result_class(), RESULT_SOURCE);
    assert!(code.starts_with(
        "/// @nodoc\nmixin _$Result {\n  @optionalTypeArgs\n  TResult when<TResult extends Object?>({\n    required TResult Function(String data) success,\n    required TResult Function(String message, int? code) failure,\n  }) => throw _privateConstructorUsedError;\n"
    ));
    assert!(code.contains("    required TResult Function(ResultSuccess) success,\n"));

    let json = generate_json_code(&result_class(), RESULT_SOURCE);
    assert_eq!(
        json,
        "Result _$ResultFromJson(\n  Map<String, dynamic> json,\n) {\n  switch (json['type'] as String) {\n    case 'success':\n      return Result.success(\n        data: json['data'] as String,\n      );\n    case 'failure':\n      return Result.failure(\n        message: json['message'] as String,\n        code: (json['code'] as num?)?.toInt(),\n      );\n    default:\n      throw ArgumentError('Unknown type: ' + json['type'].toString());\n  }\n}\n\n"
    );
}

#[test]
fn class_code_starts_by_kind() {
    let regular = superfastgen::commands::freezed_gen::generate_freezed_code(&user_class(), USER_SOURCE);
    assert!(regular.starts_with("User _$UserFromJson(Map<String, dynamic> json) {\n"));
    let union = superfastgen::commands::freezed_gen::generate_freezed_code(&result_class(), RESULT_SOURCE);
    assert!(union.starts_with("/// @nodoc\nmixin _$Result {\n"));
}

#[test]
fn union_case_fields_are_distinct_and_need_the_class() {
    let src = "class Result {\n  const factory Result.a({String x, int x}) = _A;\n}\n";
    let cases = extract_union_cases_from_dart_class(src, "Result");
    assert_eq!(cases.len(), 1);
    assert_eq!(cases[0].fields.len(), 1);
    assert!(extract_union_cases_from_dart_class(RESULT_SOURCE, "Other").is_empty());
}

#[test]
fn pascal_case_is_stable() {
    let once = to_pascal_case("sign_in-now");
    assert_eq!(once, "SignInNow");
    assert_eq!(to_pascal_case(&once), once);
}

#[test]
fn equality_never_ends_in_a_dangling_and() {
    let cases = vec![
        vec![],
        vec![field("name", "String")],
        vec![field("tags", "List<String>"), field("attendees", "List<String>"), field("age", "int?")],
        vec![with_default("count", "int", "0"), field("email", "String")],
    ];
    for fields in cases {
        let code = regular_class_code("User", &fields);
        assert!(!code.contains("&&\n);"));
        assert!(code.contains("            other is _$$UserImplImpl"));
    }
    let one = regular_class_code("User", &[field("name", "String")]);
    assert!(one.contains("other is _$$UserImplImpl &&\n            (identical(other.name, name) || other.name == name));\n"));
}

#[test]
fn union_case_without_parameters() {
    let src = "@freezed\nclass Result with _$Result {\n  const factory Result.success({required String data}) = _Success;\n  const factory Result.failure() = _Failure;\n}\n";
    assert!(!source_would_panic("Result", src));
    let cases = extract_union_cases_from_dart_class(src, "Result");
    assert_eq!(cases.len(), 2);
    assert_eq!(cases[1].case_name, "failure");
    assert!(cases[1].fields.is_empty());
    let code = superfastgen::commands::freezed_gen::generate_freezed_code(&result_class(), src);
    assert_eq!(code.matches("abstract class ResultFailure implements Result {\n").count(), 1);
    assert!(code.contains("  const factory ResultFailure() = _$ResultFailureImpl;\n\n"));
    assert!(code.contains("  String get $type => 'failure';\n"));
    assert_eq!(code.matches("extension ResultExtension on Result {\n").count(), 1);
}

#[test]
fn empty_list_default_is_const() {
    let src = "@freezed\nclass Post with _$Post {\n  const factory Post({\n    required String title,\n    @Default([]) List<String> tags,\n  }) = _Post;\n}\n";
    let post = DartClass { name: "Post".to_string(), annotations: vec!["@freezed".to_string()], file_path: "lib/post.dart".to_string() };
    assert!(!source_would_panic("Post", src));
    let fields = extract_fields_from_dart_class(src, "Post");
    assert_eq!(fields.len(), 2);
    assert_eq!(fields[1].name, "tags");
    assert_eq!(fields[1].default_value, Some("[]".to_string()));
    let code = superfastgen::commands::freezed_gen::generate_freezed_code(&post, src);
    assert!(code.contains("this.tags = const [],"));
    assert!(code.contains("            const DeepCollectionEquality().equals(other.tags, tags));\n"));
    assert!(!code.contains("&&\n);"));
}
