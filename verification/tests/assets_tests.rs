use superfastgen::commands::assets::{
    asset_file_to_constant_name_camel_case, assets_output_file, assets_would_panic, capitalize_first,
    collect_asset_files, generate_dart_assets_class, get_asset_category, get_asset_type, sort_strings,
    split_on_char, text_le_exec, AssetSource,
};

#[test]
fn test_generate_dart_assets_class() {
    let asset_files = vec![
        "assets/images/logo.png".to_string(),
        "assets/data/sample.json".to_string(),
    ];

    let dart_code = generate_dart_assets_class(&asset_files);

    assert!(dart_code.contains("class Assets"));
    assert!(dart_code.contains("class $AssetsImagesGen"));
    assert!(dart_code.contains("class $AssetsDataGen"));
    assert!(dart_code.contains("AssetGenImage"));
    assert!(dart_code.contains("assets/images/logo.png"));
    assert!(dart_code.contains("assets/data/sample.json"));
}

#[test]
fn test_asset_file_to_constant_name() {
    let test_cases = vec![
        ("assets/images/logo.png", "logo"),
        ("assets/data/sample.json", "sample"),
        ("assets/fonts/Roboto-Regular.ttf", "robotoRegular"),
    ];

    for (input, expected) in test_cases {
        let result = asset_file_to_constant_name_camel_case(input);
        assert_eq!(result, expected);
    }
}

#[test]
fn test_collect_asset_files_from_project() {
    // The directory `assets/images/` holds `logo.png`; `assets/data.json` is a file.
    let asset_paths = vec!["assets/images/".to_string(), "assets/data.json".to_string()];
    let sources = vec![AssetSource::Dir(vec!["logo.png".to_string()]), AssetSource::File];

    let asset_files = collect_asset_files(&asset_paths, &sources);

    assert!(asset_files.len() >= 2);
    assert!(asset_files.contains(&"assets/images//logo.png".to_string()));
    assert!(asset_files.contains(&"assets/data.json".to_string()));
}

#[test]
fn collect_skips_paths_outside_assets_and_missing_ones() {
    let asset_paths = vec![
        "images/x.png".to_string(),
        "assets/missing.png".to_string(),
        "assets/b.png".to_string(),
        "assets/a.png".to_string(),
    ];
    let sources = vec![AssetSource::File, AssetSource::Missing, AssetSource::File, AssetSource::File];
    let files = collect_asset_files(&asset_paths, &sources);
    assert_eq!(files, vec!["assets/a.png".to_string(), "assets/b.png".to_string()]);
}

#[test]
fn sort_orders_like_str() {
    let v = vec![
        "b".to_string(),
        "ab".to_string(),
        "a".to_string(),
        "B".to_string(),
        "é".to_string(),
        "a".to_string(),
    ];
    let mut expected = v.clone();
    expected.sort();
    assert_eq!(sort_strings(&v), expected);
    assert!(text_le_exec("a", "ab"));
    assert!(!text_le_exec("b", "ab"));
    assert!(text_le_exec("", ""));
}

#[test]
fn asset_categories() {
    assert_eq!(get_asset_category("assets/images/logo.png"), Some("images".to_string()));
    assert_eq!(get_asset_category("assets/logo.png"), None);
    assert_eq!(get_asset_category("images/icons/logo.png"), None);
    assert_eq!(get_asset_category("assets//x.png"), Some("".to_string()));
}

#[test]
fn asset_types_by_extension() {
    assert_eq!(get_asset_type("assets/images/logo.PNG"), "image");
    assert_eq!(get_asset_type("assets/images/logo.svg"), "image");
    assert_eq!(get_asset_type("assets/fonts/a.woff2"), "font");
    assert_eq!(get_asset_type("assets/data/a.json"), "data");
    assert_eq!(get_asset_type("assets/data/README"), "data");
}

#[test]
fn capitalizing() {
    assert_eq!(capitalize_first("images"), "Images");
    assert_eq!(capitalize_first(""), "");
    assert_eq!(capitalize_first("9lives"), "9lives");
}

#[test]
fn constant_names_edge_cases() {
    assert_eq!(asset_file_to_constant_name_camel_case("assets/icons/my_icon-big.png"), "myIconBig");
    assert_eq!(asset_file_to_constant_name_camel_case("assets/images/"), "images");
    assert_eq!(asset_file_to_constant_name_camel_case("assets/images/Logo"), "logo");
    assert_eq!(asset_file_to_constant_name_camel_case("assets/a b.png"), "aB");
}

#[test]
fn splitting_paths() {
    assert_eq!(split_on_char("a/b//c", '/'), vec!["a", "b", "", "c"]);
    assert_eq!(split_on_char("", '/'), vec![""]);
}

#[test]
fn assets_class_groups_in_first_appearance_order() {
    let files = vec![
        "assets/data/a.json".to_string(),
        "assets/images/logo.png".to_string(),
        "assets/data//b.json".to_string(),
        "README.md".to_string(),
    ];
    let code = generate_dart_assets_class(&files);
    let data = code.find("class $AssetsDataGen").unwrap();
    let images = code.find("class $AssetsImagesGen").unwrap();
    assert!(data < images);
    assert!(code.contains("  /// File path: assets/data/b.json\n  String get b => 'assets/data/b.json';\n"));
    assert!(code.contains("  List<String> get values => [a, b];\n"));
    assert!(code.contains("  AssetGenImage get logo => const AssetGenImage('assets/images/logo.png');\n"));
    assert!(code.contains("  List<AssetGenImage> get values => [logo];\n"));
    assert!(code.contains("  static const $AssetsDataGen data = $AssetsDataGen();\n"));
    assert!(!code.contains("README"));
    assert!(code.starts_with("// dart format width=80\n"));
    assert!(code.ends_with("  final int frames;\n}\n"));
}

#[test]
fn assets_that_cannot_be_capitalized_are_reported() {
    assert!(assets_would_panic(&vec!["assets/画像/a.png".to_string()]));
    assert!(!assets_would_panic(&vec!["assets/images/a.png".to_string()]));
}

#[test]
fn output_file_of_assets() {
    assert_eq!(assets_output_file("lib/gen/"), "lib/gen/assets.gen.dart");
    assert_eq!(assets_output_file("lib/gen"), "lib/gen/assets.gen.dart");
}

#[test]
fn constant_names_are_camel_case() {
    assert_eq!(asset_file_to_constant_name_camel_case("assets/images/my_icon-dark.png"), "myIconDark");
    assert_eq!(asset_file_to_constant_name_camel_case("assets/images/Big Logo.png"), "bigLogo");
    assert_eq!(asset_file_to_constant_name_camel_case("assets/images/"), "images");
    // A file name that begins with `-` keeps it.
    assert_eq!(asset_file_to_constant_name_camel_case("assets/images/-foo.png"), "-foo");
}

#[test]
fn assets_text_documents_each_asset() {
    let files = vec!["assets/images/logo.png".to_string(), "assets//data/sample.json".to_string(), "readme.md".to_string()];
    let text = generate_dart_assets_class(&files);
    assert!(text.contains("  /// File path: assets/images/logo.png\n"));
    assert!(text.contains("  /// File path: assets/data/sample.json\n"));
    assert!(text.contains("class $AssetsImagesGen {\n"));
    assert!(text.contains("class $AssetsDataGen {\n"));
    assert!(!text.contains("File path: readme.md"));
}

#[test]
fn collected_files_start_with_a_listed_path() {
    let paths = vec!["assets/images".to_string(), "lib/x.dart".to_string()];
    let sources = vec![AssetSource::Dir(vec!["b.png".to_string(), "a.png".to_string()]), AssetSource::File];
    let files = collect_asset_files(&paths, &sources);
    assert_eq!(files, vec!["assets/images/a.png".to_string(), "assets/images/b.png".to_string()]);
    assert!(files.iter().all(|f| f.starts_with("assets/images")));
}

#[test]
fn collected_files_do_not_depend_on_walk_order() {
    let paths = vec!["assets/images".to_string()];
    let one = collect_asset_files(&paths, &[AssetSource::Dir(vec!["b.png".to_string(), "a.png".to_string(), "c/d.png".to_string()])]);
    let two = collect_asset_files(&paths, &[AssetSource::Dir(vec!["c/d.png".to_string(), "a.png".to_string(), "b.png".to_string()])]);
    assert_eq!(one, two);
}
