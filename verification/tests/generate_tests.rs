use superfastgen::commands::freezed_gen::DartClass;
use superfastgen::commands::generate::{
    any_contains, collect_used_types, generate_freezed_code, extract_class_type_from_content, generate_from_json, generate_function_provider,
    generate_g_dart_file_with_output_path, generate_notifier_provider, generate_to_json, is_dart_file,
    is_g_dart_file, parse_dart_content, select_target_classes, to_decimal, to_hex, to_lower_camel_case,
    update_part_directive, DartField, DartFunction,
};
use superfastgen::commands::syntax_tree::{extract_fields_from_dart_class, extract_functions_from_dart_source, SyntaxNode};

fn node(kind: &str, text: &str, children: Vec<SyntaxNode>) -> SyntaxNode {
    SyntaxNode { kind: kind.to_string(), text: text.to_string(), children }
}

fn leaf(kind: &str, text: &str) -> SyntaxNode {
    node(kind, text, vec![])
}

fn param(name: &str, ty: &str, is_named: bool) -> DartField {
    DartField { name: name.to_string(), ty: ty.to_string(), is_named }
}

fn class(name: &str, annotations: &[&str], file_path: &str) -> DartClass {
    DartClass {
        name: name.to_string(),
        annotations: annotations.iter().map(|a| a.to_string()).collect(),
        file_path: file_path.to_string(),
    }
}

/// The tree that the Dart grammar gives for a Freezed class `User` with the
/// named parameters `name`, `email` and `age` in its factory constructor.
fn freezed_user_tree() -> SyntaxNode {
    let formal = |ty: SyntaxNode, name: &str, text: &str| {
        node("formal_parameter", text, vec![ty, leaf("identifier", name)])
    };
    let params = node(
        "optional_formal_parameters",
        "{\n    required String name,\n    required String email,\n    int? age,\n  }",
        vec![
            leaf("{", "{"),
            formal(leaf("type_identifier", "String"), "name", "required String name"),
            leaf(",", ","),
            formal(leaf("type_identifier", "String"), "email", "required String email"),
            leaf(",", ","),
            formal(
                node("nullable_type", "int?", vec![leaf("type_identifier", "int"), leaf("?", "?")]),
                "age",
                "int? age",
            ),
            leaf(",", ","),
            leaf("}", "}"),
        ],
    );
    let signature = node(
        "redirecting_factory_constructor_signature",
        "const factory User({...}) = _User",
        vec![
            leaf("const_builtin", "const"),
            leaf("factory", "factory"),
            leaf("identifier", "User"),
            node("formal_parameter_list", "({...})", vec![leaf("(", "("), params, leaf(")", ")")]),
            leaf("=", "="),
            leaf("type_identifier", "_User"),
        ],
    );
    let from_json = node(
        "method_signature",
        "factory User.fromJson(Map<String, dynamic> json)",
        vec![leaf("identifier", "User"), leaf("identifier", "fromJson")],
    );
    let body = node(
        "class_body",
        "{ ... }",
        vec![
            leaf("{", "{"),
            node("declaration", "const factory User({...}) = _User", vec![signature]),
            leaf(";", ";"),
            from_json,
            leaf("}", "}"),
        ],
    );
    node(
        "program",
        "",
        vec![
            leaf("import_or_export", "import 'package:freezed_annotation/freezed_annotation.dart';"),
            node("annotation", "@freezed", vec![leaf("identifier", "freezed")]),
            node(
                "class_definition",
                "class User with _$User { ... }",
                vec![leaf("class", "class"), leaf("identifier", "User"), leaf("mixins", "with _$User"), body],
            ),
        ],
    )
}

#[test]
fn test_parse_dart_content() {
    let content = r#"
@freezed
class User {
  const factory User({required String name}) = _User;
}
"#;

    let classes = parse_dart_content(content, "test.dart").unwrap();

    assert_eq!(classes.len(), 1);
    assert_eq!(classes[0].name, "User");
    assert!(classes[0].annotations.iter().any(|ann| ann.contains("@freezed")));
}

#[test]
fn test_extract_fields_from_freezed_class() {
    let root = freezed_user_tree();

    let fields = extract_fields_from_dart_class(&root, "User");

    assert_eq!(fields.len(), 3);

    let name_field = fields.iter().find(|f| f.name == "name").unwrap();
    assert_eq!(name_field.ty, "String");

    let email_field = fields.iter().find(|f| f.name == "email").unwrap();
    assert_eq!(email_field.ty, "String");

    let age_field = fields.iter().find(|f| f.name == "age").unwrap();
    assert_eq!(age_field.ty, "int?");
}

#[test]
fn test_generate_g_dart_file_with_output_path() {
    let temp_dir = tempfile::TempDir::new().unwrap();
    let input_file = temp_dir.path().join("test.dart");
    let dir = temp_dir.path().to_str().unwrap().to_string();

    let class = DartClass {
        name: "TestClass".to_string(),
        annotations: vec!["@riverpod".to_string()],
        file_path: input_file.to_str().unwrap().to_string(),
    };
    let root = node("program", "", vec![]);

    let result = generate_g_dart_file_with_output_path(&class, "riverpod", &dir, &root, &None);

    assert!(result.is_some());
    let result = result.unwrap();

    let output = std::path::Path::new(&result.output_file);
    assert!(output.file_name().unwrap() == "test.g.dart");
    assert!(output.parent().unwrap() == temp_dir.path());

    assert!(result.generated_code.contains("part of 'test.dart'"));
    assert!(result.generated_code.contains("// GENERATED CODE"));
}

#[test]
fn parse_dart_content_keeps_annotations_until_a_class() {
    let content = "@freezed\n// a comment\n\n@Deprecated('x')\nabstract class Shape {}\nvoid f() {}\n@riverpod\nint x = 1;\nclass Plain {}\nclass\n";
    let classes = parse_dart_content(content, "lib/shape.dart").unwrap();
    assert_eq!(classes.len(), 2);
    assert_eq!(classes[0].name, "Shape");
    assert_eq!(classes[0].annotations, vec!["@freezed".to_string(), "@Deprecated('x')".to_string()]);
    assert_eq!(classes[0].file_path, "lib/shape.dart");
    assert_eq!(classes[1].name, "Plain");
    assert!(classes[1].annotations.is_empty());
}

#[test]
fn extract_fields_skips_other_classes() {
    let root = freezed_user_tree();
    assert!(extract_fields_from_dart_class(&root, "Account").is_empty());
}

#[test]
fn g_dart_file_in_another_directory_names_providers_part() {
    let class = class("Counter", &["@riverpod"], "lib/counter.dart");
    let root = node("program", "", vec![]);
    let result = generate_g_dart_file_with_output_path(&class, "riverpod", "lib/gen", &root, &None).unwrap();
    assert_eq!(result.input_file, "lib/counter.dart");
    assert_eq!(result.output_file, "lib/gen/counter.g.dart");
    assert!(result.generated_code.contains("part of 'providers/counter.dart';"));
}

#[test]
fn g_dart_file_for_unknown_generator_is_none() {
    let class = class("Counter", &["@riverpod"], "lib/counter.dart");
    let root = node("program", "", vec![]);
    assert!(generate_g_dart_file_with_output_path(&class, "mobx", "lib", &root, &None).is_none());
}

#[test]
fn json_g_dart_file_names_its_source() {
    let class = class("User", &["@JsonSerializable()"], "lib/user.dart");
    let root = node("program", "", vec![]);
    let result = generate_g_dart_file_with_output_path(&class, "json", "lib", &root, &None).unwrap();
    assert_eq!(result.output_file, "lib/user.g.dart");
    assert!(result.generated_code.contains("part of 'user.dart';"));
}

#[test]
fn function_provider_for_a_future() {
    let function = DartFunction {
        name: "testFunction".to_string(),
        return_type: "Future<String>".to_string(),
        parameters: vec![param("ref", "TestFunctionRef", false)],
        annotations: vec!["@riverpod".to_string()],
        file_path: "lib/test_provider.dart".to_string(),
    };
    let code = generate_function_provider(&function);
    assert_eq!(
        code,
        "String _$testFunctionProviderHash() => r'7aa64850d72a81b25f502ccf7702202e61e66fa8';\n\n\
         final testFunctionProvider = AutoDisposeFutureProvider<String>((ref) {\n  return testFunction(ref);\n});\n"
    );
}

#[test]
fn function_provider_for_a_family() {
    let function = DartFunction {
        name: "fetchUser".to_string(),
        return_type: "Future<User>".to_string(),
        parameters: vec![param("ref", "Ref", false), param("id", "int", false)],
        annotations: vec!["@riverpod".to_string()],
        file_path: "lib/user.dart".to_string(),
    };
    let code = generate_function_provider(&function);
    assert!(code.starts_with("String _$fetchUserProviderHash() => r'f626a0cd37052b7dcd218ba56800e5d5035c1ceb';\n\n"));
    assert!(code.contains("final fetchUserProvider = AutoDisposeFutureProvider.family<User, int>((ref, params) {\n"));
    assert!(code.contains("  return fetchUser(ref, params);\n"));
    assert!(code.contains("  name: r'fetchUserProvider',\n"));
}

#[test]
fn notifier_provider_without_source_is_empty() {
    let class = class("Counter", &["@riverpod"], "lib/counter.dart");
    assert_eq!(generate_notifier_provider(&class, &None), "");
}

#[test]
fn class_type_from_notifier_build() {
    let content = "@riverpod\nclass Flag extends _$Flag {\n  @override\n  bool build() => false;\n}\n";
    assert_eq!(extract_class_type_from_content(content, "Flag"), "bool");
    let content = "@riverpod\nclass CounterNotifier extends _$CounterNotifier {\n  @override\n  int build() => 0;\n}\n";
    assert_eq!(extract_class_type_from_content(content, "CounterNotifier"), "Counter");
}

#[test]
fn select_targets_keeps_annotated_and_drops_repeats() {
    let classes = vec![
        class("A", &["@freezed"], "lib/a.dart"),
        class("A", &["@freezed"], "lib/a.dart"),
        class("B", &["@riverpod"], "lib/b.dart"),
        class("C", &["@freezed"], "lib/c.dart"),
    ];
    let picked = select_target_classes(&classes, "@freezed");
    let names: Vec<&str> = picked.iter().map(|c| c.name.as_str()).collect();
    assert_eq!(names, vec!["A", "C"]);
}

#[test]
fn part_directive_points_at_the_output_directory() {
    let content = "import 'x.dart';\npart 'user.g.dart';\n";
    let updated = update_part_directive(content, "lib/models/user.dart", "lib/gen/user.g.dart");
    assert_eq!(updated, "import 'x.dart';\npart '../gen/user.g.dart';\n");
    let same = update_part_directive(content, "lib/user.dart", "lib/user.g.dart");
    assert_eq!(same, content);
}

#[test]
fn used_collection_types_in_order() {
    let function = DartFunction {
        name: "f".to_string(),
        return_type: "Set<int>".to_string(),
        parameters: vec![param("xs", "List<String>", false)],
        annotations: vec![],
        file_path: "lib/f.dart".to_string(),
    };
    assert_eq!(collect_used_types(&[function]), vec!["List".to_string(), "Set".to_string()]);
}

#[test]
fn hex_and_decimal_text() {
    assert_eq!(to_hex(&[0x00, 0x0f, 0xab, 0xff]), "000fabff");
    assert_eq!(to_decimal(0), "0");
    assert_eq!(to_decimal(4096), "4096");
}

#[test]
fn dart_file_names() {
    assert!(is_dart_file("lib/main.dart"));
    assert!(!is_dart_file("lib/notes.txt"));
    assert!(!is_dart_file("lib/dart"));
    assert!(is_g_dart_file("user.g.dart"));
    assert!(!is_g_dart_file("user.dart"));
}

#[test]
fn lower_camel_case_and_annotations() {
    assert_eq!(to_lower_camel_case("AuthNotifier"), "authNotifier");
    assert_eq!(to_lower_camel_case(""), "");
    assert!(any_contains(&vec!["@Riverpod(keepAlive: true)".to_string(), "@riverpod".to_string()], "@riverpod"));
    assert!(!any_contains(&vec!["@freezed".to_string()], "@riverpod"));
}

#[test]
fn json_members() {
    assert_eq!(
        generate_from_json("User", &[]),
        "  factory User.fromJson(Map<String, dynamic> json) => _$UserFromJson(json);\n"
    );
    assert_eq!(generate_to_json("User", &[]), "  Map<String, dynamic> toJson() => _$UserToJson(this);\n");
}

#[test]
fn select_targets_compares_files_as_paths() {
    let classes = vec![class("A", &["@freezed"], "lib/a.dart"), class("A", &["@freezed"], "lib//a.dart")];
    let picked = select_target_classes(&classes, "@freezed");
    assert_eq!(picked.len(), 1);
    assert_eq!(picked[0].file_path, "lib/a.dart");
}

#[test]
fn functions_read_from_a_tree_carry_their_file() {
    let signature = node(
        "function_signature",
        "Future<String> fetch(Ref ref)",
        vec![
            leaf("type_identifier", "Future"),
            leaf("type_arguments", "<String>"),
            leaf("identifier", "fetch"),
            node(
                "formal_parameter_list",
                "(Ref ref)",
                vec![
                    leaf("(", "("),
                    node("formal_parameter", "Ref ref", vec![leaf("type_identifier", "Ref"), leaf("identifier", "ref")]),
                    leaf(")", ")"),
                ],
            ),
        ],
    );
    let root = node("program", "", vec![node("annotation", "@riverpod", vec![]), signature]);
    let functions = extract_functions_from_dart_source(&root, "lib/a.dart");
    assert_eq!(functions.len(), 1);
    let f = &functions[0];
    assert_eq!(f.name, "fetch");
    assert_eq!(f.return_type, "Future<String>");
    assert_eq!(f.file_path, "lib/a.dart");
    assert_eq!(f.annotations, vec!["@riverpod".to_string()]);
    assert_eq!((f.parameters[0].name.as_str(), f.parameters[0].ty.as_str()), ("ref", "Ref"));

    let no_functions = node("program", "class A {}", vec![node("class_definition", "class A {}", vec![])]);
    assert!(extract_functions_from_dart_source(&no_functions, "lib/a.dart").is_empty());
}

#[test]
fn freezed_part_head_from_a_tree() {
    let class = class("User", &["@freezed"], "lib/user.dart");
    let code = generate_freezed_code(&class, &freezed_user_tree());
    assert!(code.starts_with("// GENERATED CODE - DO NOT MODIFY BY HAND\n"));
    assert!(code.contains("// FreezedGenerator\n"));
    assert!(code.contains("part of 'user.dart';\n\n"));
    assert!(code.contains("mixin _$User {\n"));
}

#[test]
fn function_provider_family_of_several_parameters_takes_a_map() {
    let function = DartFunction {
        name: "searchUsers".to_string(),
        return_type: "Future<List<User>>".to_string(),
        parameters: vec![param("ref", "Ref", false), param("query", "String", false), param("page", "int", false)],
        annotations: vec!["@riverpod".to_string()],
        file_path: "lib/search.dart".to_string(),
    };
    let code = generate_function_provider(&function);
    assert!(code.starts_with("String _$searchUsersProviderHash() => r'"));
    let hash_line_end = code.find("';\n\n").unwrap();
    assert_eq!(hash_line_end, "String _$searchUsersProviderHash() => r'".len() + 40);
    assert!(code[hash_line_end + 4..].starts_with(
        "final searchUsersProvider = AutoDisposeFutureProvider.family<List<User>, Map<String, dynamic>>((ref, params) {\n"
    ));
}
