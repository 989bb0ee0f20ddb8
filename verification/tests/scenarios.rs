use std::io::{Cursor, Write};
use std::path::PathBuf;

use fusion_tool::config::{get_toml, InstalledModule, Language};
use fusion_tool::environment::{resolve, selected_env, DEFAULT_ENV};
use fusion_tool::github::parse_github_spec;
use fusion_tool::install::{import_hint, upsert_module};
use fusion_tool::manifest::{npm_package_name, python_package_name, ModuleImplLanguage};
use fusion_tool::scaffold::{scaffold_manifest, scaffold_package, ModuleInitOptions};
use fusion_tool::structure::{project_files, DIRECTORIES, PROJECT_NAME_PLACEHOLDER};
use fusion_tool::update::{extract_binary, extract_from_zip, is_newer, numbers};

const BINARY_NAME: &str = "fusion";

fn resolved(name: &str, env: Option<&str>) -> (Option<String>, String) {
    resolve(Some(name.to_string()), env.map(String::from), None).unwrap()
}

#[test]
fn test_inline_environment() {
    assert_eq!(
        resolved("run:stage", None),
        (Some("run".to_string()), "stage".to_string())
    );
}

#[test]
fn test_flag_environment() {
    assert_eq!(
        resolved("run", Some("prod")),
        (Some("run".to_string()), "prod".to_string())
    );
}

#[test]
fn test_defaults_to_dev() {
    assert_eq!(
        resolved("run", None),
        (Some("run".to_string()), DEFAULT_ENV.to_string())
    );
}

#[test]
fn test_trailing_colon_is_part_of_no_environment() {
    assert_eq!(
        resolved("run:", None),
        (Some("run:".to_string()), DEFAULT_ENV.to_string())
    );
}

#[test]
fn test_conflicting_environments() {
    assert!(resolve(Some("run:stage".to_string()), Some("prod".to_string()), None).is_err());

    assert!(resolve(Some("run:stage".to_string()), Some("stage".to_string()), None).is_ok());
}

#[test]
fn test_selected_env() {
    assert_eq!(
        selected_env(None, false, true, false).as_deref(),
        Some("stage")
    );
    assert_eq!(
        selected_env(Some("test".into()), false, false, false).as_deref(),
        Some("test")
    );
    assert_eq!(selected_env(None, false, false, false), None);
}

#[test]
fn test_is_newer() {
    assert!(is_newer("1.0.4", "1.0.3"));
    assert!(is_newer("1.1.0", "1.0.9"));
    assert!(is_newer("1.10.0", "1.9.0"));
    assert!(is_newer("2.0.0", "1.99.99"));

    assert!(!is_newer("1.0.3", "1.0.3"));
    assert!(!is_newer("1.0.2", "1.0.3"));
    assert!(!is_newer("0.9.9", "1.0.0"));
    assert!(!is_newer("1.0.3-beta.1", "1.0.3"));
}

#[test]
fn test_numbers_drops_prerelease_suffix() {
    assert_eq!(numbers("1.0.3"), vec![1, 0, 3]);
    assert_eq!(numbers("1.0.3-beta.1"), vec![1, 0, 3]);
    assert_eq!(numbers("nonsense"), vec![0]);
}

#[test]
fn test_get_toml() {
    assert_eq!(get_toml(), PathBuf::from("fusion-framework.toml"));
}

#[test]
fn test_parse_owner_repo() {
    let spec = parse_github_spec("cipherunits/fusion-mod-jwt").unwrap();
    assert_eq!(spec.owner, "cipherunits");
    assert_eq!(spec.repo, "fusion-mod-jwt");
    assert!(spec.reference.is_none());
}

#[test]
fn test_parse_with_ref() {
    let spec = parse_github_spec("acme/mod@v1.2.3").unwrap();
    assert_eq!(spec.reference.as_deref(), Some("v1.2.3"));
    assert_eq!(spec.source_label(), "github:acme/mod@v1.2.3");
}

#[test]
fn test_parse_url() {
    let spec = parse_github_spec("https://github.com/acme/mod.git").unwrap();
    assert_eq!(spec.owner, "acme");
    assert_eq!(spec.repo, "mod");
}

#[test]
fn test_parse_tree_url() {
    let spec = parse_github_spec("https://github.com/acme/mod/tree/develop").unwrap();
    assert_eq!(spec.reference.as_deref(), Some("develop"));
}

#[test]
fn test_npm_package_name() {
    assert_eq!(npm_package_name("jwt"), "fusion-jwt-mod");
    assert_eq!(npm_package_name("auth"), "fusion-auth-mod");
}

#[test]
fn test_python_package_name() {
    assert_eq!(python_package_name("jwt"), "fusion_jwt_mod");
    assert_eq!(python_package_name("jwt-auth"), "fusion_jwt_auth_mod");
}

#[test]
fn test_extract_from_zip() {
    let mut buffer = Cursor::new(Vec::new());

    {
        let mut writer = zip::ZipWriter::new(&mut buffer);

        writer
            .start_file(BINARY_NAME, zip::write::SimpleFileOptions::default())
            .unwrap();

        writer.write_all(b"a fusion binary").unwrap();

        writer.finish().unwrap();
    }

    let archive = buffer.into_inner();

    assert_eq!(extract_from_zip(&archive, BINARY_NAME).unwrap(), b"a fusion binary");
    assert!(extract_binary(&archive, "fusion-v1.0.0-target.zip", BINARY_NAME).is_ok());
}

fn example_options(
    name: &str,
    description: &str,
    language: ModuleImplLanguage,
    target_python: bool,
    target_typescript: bool,
) -> ModuleInitOptions {
    ModuleInitOptions {
        name: name.into(),
        description: description.into(),
        language,
        target_python,
        target_typescript,
    }
}

fn file<'a>(files: &'a [(String, String)], path: &str) -> Option<&'a str> {
    files.iter().find(|(p, _)| p == path).map(|(_, content)| content.as_str())
}

#[test]
fn test_upsert_records_module_without_touching_main() {
    let mut modules: Vec<InstalledModule> = vec![];

    upsert_module(
        &mut modules,
        InstalledModule {
            id: "example".into(),
            source: "github:acme/example".into(),
            version: "0.1.0".into(),
            path: ".fusion/modules/example".into(),
        },
    );

    assert_eq!(modules.len(), 1);
    assert_eq!(modules[0].id, "example");
    assert_eq!(modules[0].path, ".fusion/modules/example");
}

#[test]
fn test_import_hint_python() {
    let manifest = scaffold_manifest(&example_options(
        "example",
        "example",
        ModuleImplLanguage::Python,
        true,
        false,
    ))
    .unwrap();

    assert_eq!(import_hint(&manifest, "python"), "from fusion_example_mod import hello");
}

#[test]
fn test_scaffold_python_writes_manifest_and_package() {
    let options = example_options("example", "Example module", ModuleImplLanguage::Python, true, false);
    let (manifest, files) = scaffold_package(&options).unwrap();

    assert_eq!(manifest.module.id, "example");
    assert!(file(&files, "python/fusion_example_mod/hello.py").is_some());
    assert!(file(&files, "python/fusion_example_mod/routes.py").is_none());

    let init = file(&files, "python/fusion_example_mod/__init__.py").unwrap();
    assert!(init.contains("hello"));
    assert!(!init.contains("route"));
}

#[test]
fn test_scaffold_rust_workspace() {
    let options = example_options("tokens", "Token helpers", ModuleImplLanguage::Rust, true, true);
    let (_, files) = scaffold_package(&options).unwrap();

    assert!(file(&files, "crates/core/src/lib.rs").is_some());
    assert!(file(&files, "bindings/python/src/lib.rs").is_some());
    assert!(file(&files, "bindings/python/python/fusion_tokens_mod/routes.py").is_none());
    assert!(file(&files, "js/index.js").is_some());

    let js = file(&files, "js/index.js").unwrap();
    assert!(js.contains("function hello"));
    assert!(!js.contains("FusionBaseApi"));
}

#[test]
fn test_scaffold_typescript() {
    let options = example_options("billing", "Billing module", ModuleImplLanguage::TypeScript, false, true);
    let (_, files) = scaffold_package(&options).unwrap();

    let src = file(&files, "src/index.ts").unwrap();
    assert!(src.contains("export function hello"));
    assert!(!src.contains("fusion-framework"));
}

#[test]
fn test_python_layout_is_created() {
    let files = project_files(Language::Python, "my-app");

    assert!(file(&files, "main.py").is_some());
    assert!(file(&files, "core/settings.py").is_some());
    assert!(DIRECTORIES.contains(&"src/modules"));
    assert!(DIRECTORIES.contains(&"src/modules/products"));
    assert!(file(&files, "src/modules/products/products.py").is_some());

    let settings = file(&files, "core/settings.py").unwrap();

    assert!(settings.contains("SECRET_KEY = settings.get(\"secret_key\")"));
    assert!(!settings.contains(PROJECT_NAME_PLACEHOLDER));
}
