use superfastgen::commands::provider_gen::{
    extract_provider_annotations, generate_provider_code, generate_provider_file, get_provider_output_paths,
    to_lower_camel_case, ProviderClass, ProviderType,
};

#[test]
fn test_to_lower_camel_case() {
    assert_eq!(to_lower_camel_case("AuthNotifier"), "authNotifier");
    assert_eq!(to_lower_camel_case("getUserInfo"), "getUserInfo");
}

#[test]
fn test_extract_provider_annotations() {
    let annotations = vec!["@riverpod".to_string()];
    let result = extract_provider_annotations(&annotations);
    assert_eq!(result.len(), 1);
}

#[test]
fn annotations_are_trimmed_and_filtered() {
    let annotations = vec!["  @riverpod  ".to_string(), "@freezed".to_string(), "@Riverpod(keepAlive: true)".to_string()];
    let result = extract_provider_annotations(&annotations);
    assert_eq!(result.len(), 1);
    assert!(matches!(result[0], ProviderType::Provider));
}

#[test]
fn lower_camel_case_of_snake_case() {
    assert_eq!(to_lower_camel_case("get_user_info"), "getUserInfo");
    assert_eq!(to_lower_camel_case(""), "");
    assert_eq!(to_lower_camel_case("A"), "a");
}

fn class(name: &str, ret: &str) -> ProviderClass {
    ProviderClass { name: name.to_string(), return_type: ret.to_string() }
}

#[test]
fn provider_kinds() {
    assert_eq!(generate_provider_code(&class("AuthNotifier", "User")), "");
    assert_eq!(
        generate_provider_code(&class("getUserStatus", "bool")),
        "final getUserStatusProvider = StreamProvider<bool>((ref) {\n  return getUserStatus(ref);\n});\n\n"
    );
    assert_eq!(
        generate_provider_code(&class("getUser", "User")),
        "final getUserProvider = FutureProvider.family<User, String>((ref, userId) async {\n  return await getUser(ref, userId);\n});\n\n"
    );
    assert_eq!(
        generate_provider_code(&class("counter", "int")),
        "final counterProvider = Provider<int>((ref) {\n  return counter(ref);\n});\n\n"
    );
}

#[test]
fn provider_file() {
    let classes = vec![class("AuthNotifier", "User"), class("counter", "int")];
    let text = generate_provider_file(&classes, "lib/auth.g.dart");
    assert!(text.starts_with("// GENERATED CODE - DO NOT MODIFY BY HAND\npart of 'auth.dart';\n\n"));
    assert!(text.contains("abstract class _$AuthNotifier extends AsyncNotifier<User> {\n  @override\n  Future<User> build();\n}\n\n"));
    assert!(text.contains("class _SystemHash {\n"));
    assert!(text.contains("final counterProvider = Provider<int>"));
    assert!(!text.contains("authProvider"));
    assert!(text.ends_with("deprecated_member_use_from_same_package\n"));
}

#[test]
fn provider_output_paths() {
    let (p, g) = get_provider_output_paths("lib/auth.dart");
    assert_eq!(p, "lib/auth.provider.dart");
    assert_eq!(g, "lib/auth.g.dart");
}
