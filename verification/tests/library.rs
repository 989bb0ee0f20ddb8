use std::io::{Cursor, Write};

use fusion_tool::archive::{plan_extraction, read_module_archive, ArchiveError};
use fusion_tool::json::{
    fresh_package_json, link_dependency, linked_package_json, package_json_text, JsonValue,
    LinkError,
};
use fusion_tool::config::{
    extension_from, language_from, new_config, parse_language, setting_value, tool_version,
    version_exists_on_system, version_from, ConfigError, InstalledModule, Language,
    UnsupportedLanguage, CONFIG_FILE, DEFAULT_PROJECT_NAME, FUSION_FRAMEWORK_VERSION,
};
use fusion_tool::environment::{
    available, decimal, dev, environment_file, file_name, git, list_width, lookup_command, prod, resolve, stage, Environment,
    ExecError, PYTHON_GITIGNORE, TYPESCRIPT_GITIGNORE,
};
use fusion_tool::github::{parse_github_spec, GitHubSpec, GitHubSpecError};
use fusion_tool::install::{
    build_commands, check_host_language, file_dependency, import_hint, manifest_location,
    plan_install, typescript_package, upsert_module, vendor_path, InstallError, ManifestAt,
};
use fusion_tool::manifest::{
    csharp_package_name, is_valid_id, supports_host_language, validate_manifest, ManifestError, ModuleBuild,
    ModuleEntry, ModuleImpl, ModuleImplLanguage, ModuleManifest, ModuleMeta, ModuleTargets,
    UnsupportedModuleLanguage,
};
use fusion_tool::scaffold::{
    cli_targets, default_build, default_description, default_directory, gitignore_template,
    module_id, readme_template, scaffold_manifest, scaffold_package, suggested_package, targets,
    ModuleInitOptions, ScaffoldError, RUST_MODULE_GITIGNORE,
};
use fusion_tool::structure::{
    project_files, render, write_language_project_files, PROJECT_NAME_PLACEHOLDER,
};
use fusion_tool::update::{
    archive_format, extract_binary, extract_from_tar_gz, extract_from_zip, find_asset, is_newer,
    file_name_of, numbers, pick_entry, plan_update, release_target, release_version, ArchiveFormat, UpdateError,
    UpdateStep,
};

fn sample_rust() -> ModuleManifest {
    ModuleManifest {
        module: ModuleMeta {
            id: "example".into(),
            name: "example".into(),
            version: "0.1.0".into(),
            description: "Example helpers".into(),
            impl_: ModuleImpl { language: ModuleImplLanguage::Rust },
            targets: ModuleTargets { python: true, typescript: true, csharp: false },
            entry: ModuleEntry {
                python: Some("fusion_example_mod".into()),
                typescript: Some("fusion-example-mod".into()),
                csharp: None,
            },
            build: ModuleBuild {
                python: Some("maturin develop --release".into()),
                typescript: Some("npm install && npm run build".into()),
                rust: None,
                csharp: None,
            },
        },
    }
}

fn module(id: &str, version: &str) -> InstalledModule {
    InstalledModule {
        id: id.into(),
        source: format!("github:acme/{id}"),
        version: version.into(),
        path: format!(".fusion/modules/{id}"),
    }
}

fn environment(commands: &[(&str, &str)]) -> Environment {
    Environment {
        env: "dev".into(),
        commands: commands.iter().map(|(n, c)| (n.to_string(), c.to_string())).collect(),
    }
}

fn zip_with(name: &str, content: &[u8]) -> Vec<u8> {
    let mut buffer = Cursor::new(Vec::new());
    {
        let mut writer = zip::ZipWriter::new(&mut buffer);
        writer.start_file(name, zip::write::SimpleFileOptions::default()).unwrap();
        writer.write_all(content).unwrap();
        writer.finish().unwrap();
    }
    buffer.into_inner()
}

fn tar_gz_with(entries: &[(&str, &[u8])]) -> Vec<u8> {
    let encoder = flate2::write::GzEncoder::new(Vec::new(), flate2::Compression::default());
    let mut builder = tar::Builder::new(encoder);
    for (path, content) in entries {
        let mut header = tar::Header::new_gnu();
        header.set_size(content.len() as u64);
        header.set_mode(0o755);
        header.set_cksum();
        builder.append_data(&mut header, path, *content).unwrap();
    }
    builder.into_inner().unwrap().finish().unwrap()
}

// ---------------------------------------------------------------------------
// Configuration
// ---------------------------------------------------------------------------

const CONFIG: &str = r#"
[project]
name = "demo"
description = "demo"

[fusionframework]
language = "python"
extension = ".py"
version = "1.0.0"

[tool]
version = "0.1.0"
"#;

#[test]
fn config_settings_are_read_from_the_framework_table() {
    assert_eq!(language_from(CONFIG).unwrap(), "python");
    assert_eq!(extension_from(CONFIG).unwrap(), ".py");
    assert_eq!(version_from(CONFIG).unwrap(), "1.0.0");
    assert_eq!(version_exists_on_system(CONFIG), Ok(true));
}

#[test]
fn config_setting_missing_reads_as_empty() {
    let content = "[fusionframework]\nlanguage = \"python\"\n";
    assert_eq!(extension_from(content).unwrap(), "");
    assert_eq!(version_exists_on_system(content), Ok(false));
}

#[test]
fn config_other_version_is_not_on_system() {
    let content = "[fusionframework]\nversion = \"2.0.0\"\n";
    assert_eq!(version_exists_on_system(content), Ok(false));
}

#[test]
fn config_invalid_toml_is_a_parse_error() {
    assert_eq!(language_from("not = [valid"), Err(ConfigError::Parse));
}

#[test]
fn setting_values_from_lookups() {
    let error = toml::from_str::<toml::Value>("not = [valid").unwrap_err();
    assert_eq!(setting_value(Err(error)), Err(ConfigError::Parse));
    assert_eq!(setting_value(Ok(None)), Ok(String::new()));
    assert_eq!(setting_value(Ok(Some(".py".into()))), Ok(".py".to_string()));
}

#[test]
fn config_constants() {
    assert_eq!(CONFIG_FILE, "fusion-framework.toml");
    assert_eq!(tool_version(), FUSION_FRAMEWORK_VERSION);
}

#[test]
fn language_names_parse_back() {
    for language in [Language::Python, Language::TypeScript, Language::AspNetCore] {
        assert_eq!(parse_language(language.name()), Ok(language));
        assert_eq!(parse_language(&language.name().to_uppercase()), Ok(language));
    }
}

#[test]
fn project_languages_in_any_case() {
    assert_eq!(parse_language("Python"), Ok(Language::Python));
    assert_eq!(parse_language("TS"), Ok(Language::TypeScript));
    assert_eq!(parse_language("NodeJS"), Ok(Language::TypeScript));
    assert_eq!(parse_language("CSharp"), Ok(Language::AspNetCore));
    assert_eq!(parse_language("asp.net-core"), Ok(Language::AspNetCore));
    assert_eq!(parse_language("cobol"), Err(UnsupportedLanguage));
    assert_eq!(Language::AspNetCore.name(), "asp-core");
    assert_eq!(Language::TypeScript.extension(), ".ts");
}

// ---------------------------------------------------------------------------
// Environments
// ---------------------------------------------------------------------------

#[test]
fn resolve_falls_back_to_fusion_env() {
    assert_eq!(
        resolve(Some("run".into()), None, Some("stage".into())),
        Ok((Some("run".to_string()), "stage".to_string()))
    );
    assert_eq!(
        resolve(Some("run".into()), Some("prod".into()), Some("stage".into())),
        Ok((Some("run".to_string()), "prod".to_string()))
    );
    assert_eq!(resolve(None, None, None), Ok((None, "dev".to_string())));
    assert_eq!(
        resolve(Some("run:stage".into()), Some("prod".into()), None),
        Err(ExecError::TwoEnvironments)
    );
}

#[test]
fn inline_environment_is_the_flag() {
    for fusion_env in [None, Some("prod".to_string())] {
        assert_eq!(
            resolve(Some("run:stage".into()), None, fusion_env.clone()),
            resolve(Some("run".into()), Some("stage".into()), fusion_env)
        );
    }
}

#[test]
fn environment_file_names() {
    assert_eq!(file_name("dev"), "fusion.dev.json");
    assert_eq!(file_name("qa"), "fusion.qa.json");
}

#[test]
fn declared_commands_are_found_first_come() {
    let env = environment(&[("run", "python main.py"), ("test", "pytest"), ("run", "other")]);
    assert_eq!(lookup_command(&env, "run"), Ok("python main.py".to_string()));
    assert_eq!(lookup_command(&env, "test"), Ok("pytest".to_string()));
    assert_eq!(lookup_command(&env, "lint"), Err(ExecError::NotDeclared));
}

#[test]
fn available_commands_hint() {
    assert_eq!(available(&environment(&[])), " No commands are declared yet.");
    assert_eq!(available(&environment(&[("run", "a")])), " Available: run");
    assert_eq!(available(&environment(&[("run", "a"), ("test", "b")])), " Available: run, test");
}

#[test]
fn list_width_is_the_widest_name() {
    assert_eq!(list_width(&environment(&[("run", "a"), ("migrate", "b")])), Ok(7));
    assert_eq!(list_width(&environment(&[("é", "a")])), Ok(2));
    assert_eq!(list_width(&environment(&[])), Err(ExecError::NoCommands));
}

#[test]
fn new_project_environments() {
    let d = dev();
    assert_eq!((d.env.as_str(), d.host.as_str(), d.port, d.swagger_enabled), ("dev", "127.0.0.1", 8080, true));
    let p = prod();
    assert_eq!((p.env.as_str(), p.port, p.swagger_enabled), ("prod", 9090, false));
    let s = stage();
    assert_eq!((s.env.as_str(), s.port, s.swagger_enabled), ("stage", 1010, false));
}

#[test]
fn environment_files_of_new_projects() {
    assert_eq!(decimal(0), "0");
    assert_eq!(decimal(8080), "8080");
    assert_eq!(decimal(65535), "65535");

    let text = environment_file(&dev());
    let value: serde_json::Value = serde_json::from_str(&text).unwrap();
    assert_eq!(value["env"], "dev");
    assert_eq!(value["config"]["host"], "127.0.0.1");
    assert_eq!(value["config"]["port"], 8080);
    assert_eq!(value["config"]["swagger"]["enabled"], true);
    assert_eq!(value["config"]["swagger"]["auth"]["schemes"]["ApiKeyAuth"]["name"], "X-API-Key");
    assert_eq!(value["commands"].as_object().map(|o| o.is_empty()), Some(true));

    let value: serde_json::Value = serde_json::from_str(&environment_file(&prod())).unwrap();
    assert_eq!((value["config"]["port"].as_u64(), value["config"]["swagger"]["enabled"].as_bool()), (Some(9090), Some(false)));

    let mut odd = stage();
    odd.env = "qa \"x\" \\".to_string();
    let value: serde_json::Value = serde_json::from_str(&environment_file(&odd)).unwrap();
    assert_eq!(value["env"], "qa \"x\" \\");
}

#[test]
fn gitignore_of_each_language() {
    assert_eq!(git(Language::Python), PYTHON_GITIGNORE);
    assert_eq!(git(Language::TypeScript), TYPESCRIPT_GITIGNORE);
    assert!(PYTHON_GITIGNORE.contains("__pycache__/"));
    assert!(TYPESCRIPT_GITIGNORE.contains("node_modules"));
}

// ---------------------------------------------------------------------------
// GitHub specs
// ---------------------------------------------------------------------------

#[test]
fn github_spec_errors() {
    assert_eq!(parse_github_spec("   "), Err(GitHubSpecError::Empty));
    assert_eq!(parse_github_spec("///"), Err(GitHubSpecError::Empty));
    assert_eq!(parse_github_spec("ftp://github.com/acme/mod"), Err(GitHubSpecError::UnsupportedUrl));
    assert_eq!(parse_github_spec("github.company.com/acme/mod"), Err(GitHubSpecError::UnsupportedUrl));
    assert_eq!(parse_github_spec("@v1"), Err(GitHubSpecError::MissingOwner));
    assert_eq!(parse_github_spec("acme"), Err(GitHubSpecError::MissingRepo));
    assert_eq!(parse_github_spec("https://gitlab.com/acme/mod"), Err(GitHubSpecError::UnsupportedUrl));
    assert_eq!(parse_github_spec("www.gitlab.com/acme/mod"), Err(GitHubSpecError::UnsupportedUrl));
    assert_eq!(parse_github_spec("acme/mod/extra"), Err(GitHubSpecError::UnexpectedPath));
    assert_eq!(
        parse_github_spec("https://github.com/acme/mod/blob/main/README.md"),
        Err(GitHubSpecError::UnexpectedPath)
    );
    assert_eq!(parse_github_spec("acme/.git"), Err(GitHubSpecError::Invalid));
}

#[test]
fn github_spec_forms() {
    let expected = GitHubSpec { owner: "acme".into(), repo: "mod".into(), reference: None };
    assert_eq!(parse_github_spec(" acme/mod/ "), Ok(expected.clone()));
    assert_eq!(parse_github_spec("github:acme/mod"), Ok(expected.clone()));
    assert_eq!(parse_github_spec("www.github.com/acme/mod"), Ok(expected.clone()));
    assert_eq!(parse_github_spec("http://github.com/acme/mod"), Ok(expected.clone()));
    assert_eq!(parse_github_spec("acme//mod"), Ok(expected));

    let archive = parse_github_spec("https://github.com/acme/mod/archive/v1.0.zip").unwrap();
    assert_eq!((archive.owner.as_str(), archive.repo.as_str(), archive.reference), ("acme", "mod", None));

    let slashed = parse_github_spec("acme/mod@feature/login").unwrap();
    assert_eq!(slashed.reference.as_deref(), Some("feature/login"));

    let pinned = parse_github_spec("https://github.com/acme/mod/commit/abc123").unwrap();
    assert_eq!(pinned.reference.as_deref(), Some("abc123"));
    assert_eq!(pinned.zipball_url(), "https://api.github.com/repos/acme/mod/zipball/abc123");

    let tree_ref = parse_github_spec("https://github.com/acme/mod/tree/develop@v2").unwrap();
    assert_eq!(tree_ref.reference.as_deref(), Some("develop@v2"));
}

#[test]
fn github_labels_and_urls() {
    let spec = GitHubSpec { owner: "acme".into(), repo: "mod".into(), reference: None };
    assert_eq!(spec.source_label(), "github:acme/mod");
    assert_eq!(spec.zipball_url(), "https://api.github.com/repos/acme/mod/zipball");
}

#[test]
fn github_source_label_parses_back() {
    for spec in [
        GitHubSpec { owner: "acme".into(), repo: "mod".into(), reference: None },
        GitHubSpec { owner: "cipherunits".into(), repo: "fusion-mod-jwt".into(), reference: Some("v1.2.3".into()) },
    ] {
        assert_eq!(parse_github_spec(&spec.source_label()), Ok(spec));
    }
}

// ---------------------------------------------------------------------------
// Manifests
// ---------------------------------------------------------------------------

#[test]
fn validate_accepts_sample_rust_manifest() {
    let manifest = sample_rust();
    assert_eq!(validate_manifest(&manifest), Ok(()));
    assert!(supports_host_language(&manifest, "python"));
    assert!(supports_host_language(&manifest, "typescript"));
    assert!(!supports_host_language(&manifest, "asp-core"));
}

#[test]
fn validate_reports_each_rule() {
    let with = |change: fn(&mut ModuleMeta)| {
        let mut manifest = sample_rust();
        change(&mut manifest.module);
        validate_manifest(&manifest)
    };

    assert_eq!(with(|m| m.id = "  ".into()), Err(ManifestError::EmptyId));
    assert_eq!(with(|m| m.id = "EXAMPLE".into()), Err(ManifestError::InvalidId));
    assert_eq!(with(|m| m.name = "".into()), Err(ManifestError::EmptyName));
    assert_eq!(with(|m| m.version = " ".into()), Err(ManifestError::EmptyVersion));
    assert_eq!(
        with(|m| m.targets = ModuleTargets { python: false, typescript: false, csharp: false }),
        Err(ManifestError::NoTargets)
    );
    assert_eq!(with(|m| m.entry.python = None), Err(ManifestError::PythonTargetWithoutEntry));
    assert_eq!(with(|m| m.entry.typescript = Some("".into())), Err(ManifestError::TypeScriptTargetWithoutEntry));
    assert_eq!(
        with(|m| {
            m.impl_.language = ModuleImplLanguage::Python;
            m.targets.python = false;
        }),
        Err(ManifestError::PythonModuleWithoutPythonTarget)
    );
    assert_eq!(
        with(|m| {
            m.impl_.language = ModuleImplLanguage::Python;
            m.entry.python = None;
        }),
        Err(ManifestError::PythonModuleWithoutEntry)
    );
    assert_eq!(
        with(|m| {
            m.impl_.language = ModuleImplLanguage::TypeScript;
            m.targets.typescript = false;
        }),
        Err(ManifestError::TypeScriptModuleWithoutTypeScriptTarget)
    );
    assert_eq!(
        with(|m| {
            m.impl_.language = ModuleImplLanguage::TypeScript;
            m.entry.typescript = None;
        }),
        Err(ManifestError::TypeScriptModuleWithoutEntry)
    );
}

#[test]
fn validate_rejects_uppercase_id() {
    let mut manifest = sample_rust();
    manifest.module.id = "EXAMPLE".into();
    manifest.module.impl_.language = ModuleImplLanguage::Python;
    manifest.module.targets = ModuleTargets { python: true, typescript: false, csharp: false };
    assert!(validate_manifest(&manifest).is_err());
}

#[test]
fn module_ids() {
    assert!(is_valid_id("example"));
    assert!(is_valid_id("jwt-auth2"));
    assert!(!is_valid_id(""));
    assert!(!is_valid_id("2fa"));
    assert!(!is_valid_id("-x"));
    assert!(!is_valid_id("a--b"));
    assert!(!is_valid_id("ab-"));
    assert!(!is_valid_id("a_b"));
    assert!(!is_valid_id("Ab"));
}

#[test]
fn module_languages_in_any_case() {
    assert_eq!(ModuleImplLanguage::parse("RUST"), Ok(ModuleImplLanguage::Rust));
    assert_eq!(ModuleImplLanguage::parse("Js"), Ok(ModuleImplLanguage::TypeScript));
    assert_eq!(ModuleImplLanguage::parse("py"), Ok(ModuleImplLanguage::Python));
    assert_eq!(ModuleImplLanguage::parse("go"), Err(UnsupportedModuleLanguage));
    assert_eq!(ModuleImplLanguage::TypeScript.as_str(), "typescript");
}

// ---------------------------------------------------------------------------
// Installing
// ---------------------------------------------------------------------------

#[test]
fn module_hosts() {
    assert_eq!(check_host_language("python"), Ok(()));
    assert_eq!(check_host_language("typescript"), Ok(()));
    assert_eq!(check_host_language("asp-core"), Ok(()));
    assert_eq!(check_host_language("go"), Err(InstallError::UnsupportedHost));
}

#[test]
fn vendoring_paths() {
    assert_eq!(vendor_path("jwt"), ".fusion/modules/jwt");
    assert_eq!(file_dependency(".fusion/modules/jwt"), "file:.fusion/modules/jwt");
}

#[test]
fn import_hints() {
    let mut manifest = sample_rust();
    assert_eq!(import_hint(&manifest, "typescript"), "import { hello } from \"fusion-example-mod\"");
    manifest.module.id = "jwt-auth".into();
    manifest.module.entry = ModuleEntry::default();
    assert_eq!(import_hint(&manifest, "python"), "from fusion_jwt_auth_mod import hello");
    assert_eq!(import_hint(&manifest, "typescript"), "import { hello } from \"fusion-jwt-auth-mod\"");
    assert_eq!(import_hint(&manifest, "asp-core"), "using FusionJwtAuthMod;");
    assert_eq!(import_hint(&manifest, "go"), "");
}

#[test]
fn typescript_package_names() {
    let mut manifest = sample_rust();
    assert_eq!(typescript_package(&manifest), "fusion-example-mod");
    manifest.module.entry.typescript = None;
    assert_eq!(typescript_package(&manifest), "fusion-mod-example");
}

#[test]
fn build_commands_by_host() {
    let mut manifest = sample_rust();
    manifest.module.build.rust = Some("cargo build --release".into());
    assert_eq!(
        build_commands(&manifest, "python"),
        vec!["cargo build --release".to_string(), "maturin develop --release".to_string()]
    );
    assert_eq!(
        build_commands(&manifest, "typescript"),
        vec!["cargo build --release".to_string(), "npm install && npm run build".to_string()]
    );
    assert!(build_commands(&manifest, "go").is_empty());
    assert_eq!(build_commands(&manifest, "asp-core"), vec!["cargo build --release".to_string()]);

    manifest.module.impl_.language = ModuleImplLanguage::Python;
    assert_eq!(build_commands(&manifest, "python"), vec!["maturin develop --release".to_string()]);
    assert!(build_commands(&manifest, "typescript").is_empty());
}

#[test]
fn upsert_appends_then_replaces() {
    let mut modules = vec![module("jwt", "0.1.0")];
    upsert_module(&mut modules, module("auth", "0.1.0"));
    assert_eq!(modules.iter().map(|m| m.id.as_str()).collect::<Vec<_>>(), vec!["jwt", "auth"]);

    upsert_module(&mut modules, module("jwt", "0.2.0"));
    assert_eq!(modules.len(), 2);
    assert_eq!(modules[0].id, "jwt");
    assert_eq!(modules[0].version, "0.2.0");
    assert_eq!(modules[1].id, "auth");
}

#[test]
fn upsert_twice_is_upsert_once() {
    let mut once = vec![module("jwt", "0.1.0"), module("auth", "0.1.0")];
    upsert_module(&mut once, module("auth", "0.3.0"));
    let mut twice = once.clone();
    upsert_module(&mut twice, module("auth", "0.3.0"));
    assert_eq!(once.len(), twice.len());
    for (a, b) in once.iter().zip(twice.iter()) {
        assert_eq!((&a.id, &a.version, &a.source, &a.path), (&b.id, &b.version, &b.source, &b.path));
    }
}

// ---------------------------------------------------------------------------
// Scaffolding
// ---------------------------------------------------------------------------

#[test]
fn module_ids_from_names() {
    assert_eq!(module_id("My_Module"), "my-module");
    assert_eq!(module_id("jwt"), "jwt");
}

#[test]
fn rust_module_needs_a_target() {
    assert_eq!(targets(ModuleImplLanguage::Rust, false, false), Err(ScaffoldError::NoTarget));
    assert_eq!(targets(ModuleImplLanguage::Rust, true, false), Ok((true, false)));
    assert_eq!(targets(ModuleImplLanguage::Python, false, true), Ok((true, false)));
    assert_eq!(targets(ModuleImplLanguage::TypeScript, true, false), Ok((false, true)));

    let options = ModuleInitOptions {
        name: "tokens".into(),
        description: "d".into(),
        language: ModuleImplLanguage::Rust,
        target_python: false,
        target_typescript: false,
    };
    assert!(matches!(scaffold_manifest(&options), Err(ScaffoldError::NoTarget)));
}

#[test]
fn scaffolded_manifest_is_valid_and_named() {
    let options = ModuleInitOptions {
        name: "Token_Kit".into(),
        description: "Token helpers".into(),
        language: ModuleImplLanguage::Rust,
        target_python: true,
        target_typescript: false,
    };
    let manifest = scaffold_manifest(&options).unwrap();
    assert_eq!(manifest.module.id, "token-kit");
    assert_eq!(manifest.module.name, "Token_Kit");
    assert_eq!(manifest.module.version, "0.1.0");
    assert_eq!(manifest.module.entry.python.as_deref(), Some("fusion_token_kit_mod"));
    assert_eq!(manifest.module.entry.typescript, None);
    assert_eq!(validate_manifest(&manifest), Ok(()));
}

#[test]
fn default_builds() {
    let b = default_build(ModuleImplLanguage::Rust, true, false);
    assert_eq!(b.rust.as_deref(), Some("cargo build --release"));
    assert_eq!(b.python.as_deref(), Some("maturin develop --release -m bindings/python/Cargo.toml"));
    assert_eq!(b.typescript, None);
    let b = default_build(ModuleImplLanguage::Python, false, false);
    assert_eq!(b.python.as_deref(), Some("pip install -e ."));
}

#[test]
fn module_readme_and_gitignore() {
    let readme = readme_template("jwt", "fusion_jwt_mod", "fusion-jwt-mod", "JWT helpers", ModuleImplLanguage::TypeScript);
    assert!(readme.starts_with("# fusion-jwt-mod"));
    assert!(readme.contains("JWT helpers"));
    assert!(readme.contains("import { hello } from \"fusion-jwt-mod\""));
    assert_eq!(gitignore_template(ModuleImplLanguage::Rust), RUST_MODULE_GITIGNORE);
}

// ---------------------------------------------------------------------------
// Project structure
// ---------------------------------------------------------------------------

#[test]
fn render_replaces_every_placeholder() {
    let template = format!("a {p} b {p}", p = PROJECT_NAME_PLACEHOLDER);
    assert_eq!(render(&template, "shop"), "a shop b shop");
    assert_eq!(render("no placeholder", "shop"), "no placeholder");
}

#[test]
fn language_project_files() {
    assert!(write_language_project_files(Language::Python, "my-app").is_empty());

    let ts = write_language_project_files(Language::TypeScript, "my-app");
    assert_eq!(ts.iter().map(|(n, _)| n.as_str()).collect::<Vec<_>>(), vec!["package.json", "tsconfig.json"]);
    assert!(ts[0].1.contains("\"name\": \"my-app\""));
    assert!(ts[0].1.contains("\"fusion-framework\": \"1.0.0\""));

    let cs = write_language_project_files(Language::AspNetCore, "my-app");
    assert_eq!(cs[0].0, "my-app.csproj");
    assert!(cs[0].1.contains("<RootNamespace>my_app</RootNamespace>"));
}

// ---------------------------------------------------------------------------
// Updating
// ---------------------------------------------------------------------------

#[test]
fn newer_is_a_strict_order_on_examples() {
    assert!(!is_newer("1.2.3", "1.2.3"));
    assert!(is_newer("1.2.4", "1.2.3") && !is_newer("1.2.3", "1.2.4"));
    assert!(is_newer("1.3.0", "1.2.4") && is_newer("1.2.4", "1.2.3") && is_newer("1.3.0", "1.2.3"));
    assert!(is_newer("1.0.1", "1.0"));
    assert!(!is_newer("1.0.3-rc.2", "1.0.3") && !is_newer("1.0.3", "1.0.3-rc.2"));
}

#[test]
fn version_numbers() {
    assert_eq!(numbers("1.x.3"), vec![1, 0, 3]);
    assert_eq!(numbers(""), vec![0]);
    assert_eq!(numbers("18446744073709551616.1"), vec![0, 1]);
}

#[test]
fn release_versions() {
    assert_eq!(release_version("v1.2.0"), "1.2.0");
    assert_eq!(release_version("vv2"), "2");
    assert_eq!(release_version("1.0.4"), "1.0.4");
    assert_eq!(release_version("v"), "");
}

#[test]
fn release_targets() {
    assert_eq!(release_target("linux", "x86_64"), Ok("x86_64-unknown-linux-gnu"));
    assert_eq!(release_target("macos", "x86_64"), Ok("x86_64-apple-darwin"));
    assert_eq!(release_target("windows", "x86_64"), Ok("x86_64-pc-windows-msvc"));
    assert_eq!(release_target("linux", "aarch64"), Err(UpdateError::NoPrebuiltRelease));
}

#[test]
fn release_assets() {
    let names = vec![
        "checksums.txt".to_string(),
        "fusion-v1.0.0-x86_64-apple-darwin.tar.gz".to_string(),
        "fusion-v1.0.0-x86_64-unknown-linux-gnu.tar.gz".to_string(),
    ];
    assert_eq!(find_asset(&names, "x86_64-unknown-linux-gnu"), Ok(2));
    assert_eq!(find_asset(&names, "x86_64-pc-windows-msvc"), Err(UpdateError::NoAssetForTarget));
}

#[test]
fn archive_formats() {
    assert_eq!(archive_format("a.zip"), Ok(ArchiveFormat::Zip));
    assert_eq!(archive_format("a.tar.gz"), Ok(ArchiveFormat::TarGz));
    assert_eq!(archive_format("a.tgz"), Err(UpdateError::UnsupportedArchive));
    assert_eq!(extract_binary(b"", "a.7z", "fusion"), Err(UpdateError::UnsupportedArchive));
}

#[test]
fn zip_archive_errors() {
    let archive = zip_with("README.md", b"read me");
    assert_eq!(extract_from_zip(&archive, "fusion"), Err(UpdateError::BinaryMissing));
    assert_eq!(extract_from_zip(b"not a zip", "fusion"), Err(UpdateError::UnreadableArchive));
    let archive = zip_with("fusion", b"binary");
    assert_eq!(extract_binary(&archive, "x.zip", "fusion"), Ok(b"binary".to_vec()));
}

#[test]
fn tar_gz_archives() {
    let archive = tar_gz_with(&[("fusion-v1/README.md", b"read me"), ("fusion-v1/fusion", b"the binary")]);
    assert_eq!(extract_from_tar_gz(&archive, "fusion"), Ok(b"the binary".to_vec()));
    assert_eq!(extract_binary(&archive, "fusion-v1.tar.gz", "fusion"), Ok(b"the binary".to_vec()));
    assert_eq!(extract_from_tar_gz(&archive, "fusion.exe"), Err(UpdateError::BinaryMissing));
    assert_eq!(extract_from_tar_gz(b"not gzip", "fusion"), Err(UpdateError::UnreadableArchive));
}

#[test]
fn picking_entries() {
    let entries = vec![
        (b"fusion-v1/".to_vec(), b"a directory".to_vec()),
        (b"fusion-v1/fusion/..".to_vec(), b"not it".to_vec()),
        (b"fusion-v1/fusion".to_vec(), b"first".to_vec()),
        (b"fusion".to_vec(), b"second".to_vec()),
    ];
    assert_eq!(pick_entry(entries.clone(), false, "fusion"), Ok(b"first".to_vec()));
    assert_eq!(pick_entry(entries.clone(), true, "other"), Err(UpdateError::UnreadableArchive));
    assert_eq!(pick_entry(entries, false, "other"), Err(UpdateError::BinaryMissing));
}

#[test]
fn file_names_of_byte_paths() {
    assert_eq!(file_name_of(&b"a/b/fusion".to_vec()), Some(b"fusion".to_vec()));
    assert_eq!(file_name_of(&b"a/fusion/".to_vec()), Some(b"fusion".to_vec()));
    assert_eq!(file_name_of(&b"a/fusion/.".to_vec()), Some(b"fusion".to_vec()));
    assert_eq!(file_name_of(&b"a/..".to_vec()), None);
    assert_eq!(file_name_of(&b".".to_vec()), None);
    assert_eq!(file_name_of(&b"/".to_vec()), None);
    assert_eq!(file_name_of(&b"".to_vec()), None);
    assert_eq!(file_name_of(&b"a\\fusion".to_vec()), Some(b"a\\fusion".to_vec()));
}

// ---------------------------------------------------------------------------
// Plans
// ---------------------------------------------------------------------------

#[test]
fn install_plan_for_a_typescript_host() {
    let plan = plan_install(&sample_rust(), "typescript", "github:acme/example@v1").unwrap();
    assert_eq!(plan.id, "example");
    assert_eq!(plan.vendor_rel, ".fusion/modules/example");
    assert_eq!(plan.build_commands, vec!["npm install && npm run build".to_string()]);
    assert_eq!(
        plan.typescript_link,
        Some(("fusion-example-mod".to_string(), "file:.fusion/modules/example".to_string()))
    );
    assert_eq!(plan.record.id, "example");
    assert_eq!(plan.record.source, "github:acme/example@v1");
    assert_eq!(plan.record.version, "0.1.0");
    assert_eq!(plan.record.path, ".fusion/modules/example");
    assert_eq!(plan.import_hint, "import { hello } from \"fusion-example-mod\"");
}

#[test]
fn install_plan_for_a_python_host_links_nothing() {
    let plan = plan_install(&sample_rust(), "python", "github:acme/example").unwrap();
    assert_eq!(plan.typescript_link, None);
    assert_eq!(plan.import_hint, "from fusion_example_mod import hello");
}

#[test]
fn install_plan_refusals() {
    assert!(matches!(
        plan_install(&sample_rust(), "go", "github:acme/example"),
        Err(InstallError::UnsupportedHost)
    ));
    let mut manifest = sample_rust();
    manifest.module.targets.typescript = false;
    assert!(matches!(
        plan_install(&manifest, "typescript", "github:acme/example"),
        Err(InstallError::NotForHost)
    ));
}

#[test]
fn module_init_defaults() {
    assert_eq!(cli_targets(ModuleImplLanguage::Python, false), Some((true, false)));
    assert_eq!(cli_targets(ModuleImplLanguage::TypeScript, true), Some((false, true)));
    assert_eq!(cli_targets(ModuleImplLanguage::Rust, true), Some((true, true)));
    assert_eq!(cli_targets(ModuleImplLanguage::Rust, false), None);
    assert_eq!(default_description("jwt"), "Fusion module jwt");
    assert_eq!(default_directory("jwt"), "fusion-jwt-mod");
    assert_eq!(suggested_package(ModuleImplLanguage::TypeScript, "jwt-auth"), "fusion-jwt-auth-mod");
    assert_eq!(suggested_package(ModuleImplLanguage::Rust, "jwt-auth"), "fusion_jwt_auth_mod");
}

#[test]
fn module_package_files_in_order() {
    let options = ModuleInitOptions {
        name: "example".into(),
        description: "Example module".into(),
        language: ModuleImplLanguage::Python,
        target_python: true,
        target_typescript: false,
    };
    let (manifest, files) = scaffold_package(&options).unwrap();
    assert_eq!(manifest.module.id, "example");
    let names: Vec<&str> = files.iter().map(|(n, _)| n.as_str()).collect();
    assert_eq!(
        names,
        vec![
            "README.md",
            ".gitignore",
            "pyproject.toml",
            "python/fusion_example_mod/__init__.py",
            "python/fusion_example_mod/hello.py",
        ]
    );
    assert!(files[0].1.contains("Example module"));
}

#[test]
fn new_project_configuration() {
    let config = new_config(Language::TypeScript, "shop".into(), "A shop".into(), "0.1.0");
    assert_eq!(config.project.name, "shop");
    assert_eq!(config.project.description, "A shop");
    assert_eq!(config.fusionframework.language, "typescript");
    assert_eq!(config.fusionframework.extension, ".ts");
    assert_eq!(config.fusionframework.version, FUSION_FRAMEWORK_VERSION);
    assert_eq!(config.tool.version, "0.1.0");
    assert!(config.modules.is_empty());
    assert_eq!(DEFAULT_PROJECT_NAME, "fusion-project");
}

#[test]
fn new_project_files_follow_the_extension() {
    let files = project_files(Language::TypeScript, "shop");
    let names: Vec<&str> = files.iter().map(|(n, _)| n.as_str()).collect();
    assert_eq!(
        names,
        vec!["main.ts", "core/settings.ts", "src/modules/products/products.ts", "package.json", "tsconfig.json"]
    );
    assert!(files.iter().all(|(_, content)| !content.contains(PROJECT_NAME_PLACEHOLDER)));
}

#[test]
fn update_plans() {
    let names = vec![
        "fusion-v1.1.0-x86_64-apple-darwin.tar.gz".to_string(),
        "fusion-v1.1.0-x86_64-unknown-linux-gnu.tar.gz".to_string(),
    ];
    assert_eq!(
        plan_update("v1.1.0", "1.0.9", "linux", "x86_64", &names),
        Ok(("1.1.0".to_string(), UpdateStep::Download(1)))
    );
    assert_eq!(
        plan_update("v1.1.0", "1.1.0", "linux", "aarch64", &names),
        Ok(("1.1.0".to_string(), UpdateStep::UpToDate))
    );
    assert_eq!(
        plan_update("v1.1.0", "1.0.0", "linux", "aarch64", &names),
        Err(UpdateError::NoPrebuiltRelease)
    );
    assert_eq!(
        plan_update("v1.1.0", "1.0.0", "windows", "x86_64", &names),
        Err(UpdateError::NoAssetForTarget)
    );
}

// ---------------------------------------------------------------------------
// package.json links, module archives, manifest lookup
// ---------------------------------------------------------------------------

#[test]
fn package_json_links() {
    let fresh = linked_package_json(None, "fusion-jwt-mod", "file:.fusion/modules/jwt").unwrap();
    let value: serde_json::Value = serde_json::from_str(&fresh).unwrap();
    assert_eq!(value["name"], "fusion-app");
    assert_eq!(value["private"], true);
    assert_eq!(value["dependencies"]["fusion-jwt-mod"], "file:.fusion/modules/jwt");
    assert!(fresh.ends_with("}\n"));

    let existing = r#"{"name":"shop","dependencies":{"left-pad":"1.0.0","fusion-jwt-mod":"0.1.0"}}"#;
    let edited = linked_package_json(Some(existing), "fusion-jwt-mod", "file:x").unwrap();
    let value: serde_json::Value = serde_json::from_str(&edited).unwrap();
    assert_eq!(value["name"], "shop");
    assert_eq!(value["dependencies"]["left-pad"], "1.0.0");
    assert_eq!(value["dependencies"]["fusion-jwt-mod"], "file:x");

    assert_eq!(linked_package_json(Some("{oops"), "p", "d"), Err(LinkError::Parse));
    assert_eq!(linked_package_json(Some("[1]"), "p", "d"), Err(LinkError::NotObject));
    assert_eq!(linked_package_json(Some(r#"{"dependencies":3}"#), "p", "d"), Err(LinkError::DependenciesNotObject));
    assert_eq!(package_json_text(Ok("{}".into())), Ok("{}\n".to_string()));
    assert_eq!(package_json_text(Err(LinkError::Serialize)), Err(LinkError::Serialize));
}

fn zip_of(entries: &[(&str, &[u8])]) -> Vec<u8> {
    let mut buffer = Cursor::new(Vec::new());
    {
        let mut writer = zip::ZipWriter::new(&mut buffer);
        for (name, content) in entries {
            if name.ends_with('/') {
                writer.add_directory(*name, zip::write::SimpleFileOptions::default()).unwrap();
            } else {
                writer.start_file(*name, zip::write::SimpleFileOptions::default()).unwrap();
                writer.write_all(content).unwrap();
            }
        }
        writer.finish().unwrap();
    }
    buffer.into_inner()
}

#[test]
fn module_archive_extraction_stays_inside() {
    let archive = zip_of(&[
        ("acme-mod-123/", b""),
        ("acme-mod-123/fusion.module.toml", b"[module]"),
        ("../escape.txt", b"no"),
        ("acme-mod-123/src/lib.py", b"print()"),
    ]);
    let plan = read_module_archive(&archive).unwrap();
    assert_eq!(plan.root.as_deref(), Some("acme-mod-123"));
    let paths: Vec<String> = plan.items.iter().map(|(cs, _, _, _)| cs.join("/")).collect();
    assert_eq!(paths, vec!["acme-mod-123", "acme-mod-123/fusion.module.toml", "acme-mod-123/src/lib.py"]);
    assert!(plan.items[0].1);
    assert_eq!(plan.items[1].2, b"[module]".to_vec());
    assert!(matches!(read_module_archive(b"not a zip"), Err(ArchiveError::Open)));
}

#[test]
fn extraction_plans_skip_unsafe_names() {
    let entries = vec![
        (None, false, b"x".to_vec(), None),
        (Some(vec!["..".to_string(), "x".to_string()]), false, b"x".to_vec(), None),
        (Some(vec![]), true, vec![], None),
        (Some(vec!["a\\b".to_string()]), false, b"x".to_vec(), None),
        (Some(vec!["repo".to_string(), "file".to_string()]), false, b"ok".to_vec(), Some(0o644)),
    ];
    let plan = plan_extraction(&entries);
    assert_eq!(plan.root.as_deref(), Some("repo"));
    assert_eq!(plan.items.len(), 1);
    assert_eq!(plan.items[0].3, Some(0o644));
    assert_eq!(plan_extraction(&vec![]).root, None);
}

#[test]
fn manifest_locations() {
    assert_eq!(manifest_location(true, &vec![true]), Some(ManifestAt::Root));
    assert_eq!(manifest_location(false, &vec![false, true, true]), Some(ManifestAt::Entry(1)));
    assert_eq!(manifest_location(false, &vec![false]), None);
}

#[test]
fn csharp_modules_and_asp_core_hosts() {
    assert_eq!(ModuleImplLanguage::parse("CSharp"), Ok(ModuleImplLanguage::CSharp));
    assert_eq!(ModuleImplLanguage::parse("cs"), Ok(ModuleImplLanguage::CSharp));
    assert_eq!(check_host_language("asp-core"), Ok(()));
    assert_eq!(csharp_package_name("jwt-auth"), "FusionJwtAuthMod");
    assert_eq!(csharp_package_name("security"), "FusionSecurityMod");

    let options = ModuleInitOptions {
        name: "security".into(),
        description: "Security helpers".into(),
        language: ModuleImplLanguage::CSharp,
        target_python: false,
        target_typescript: false,
    };
    let (manifest, files) = scaffold_package(&options).unwrap();
    assert_eq!(manifest.module.id, "security");
    assert!(manifest.module.targets.csharp && !manifest.module.targets.python);
    assert_eq!(manifest.module.entry.csharp.as_deref(), Some("FusionSecurityMod"));
    assert_eq!(manifest.module.build.csharp.as_deref(), Some("dotnet build"));
    assert_eq!(validate_manifest(&manifest), Ok(()));
    let names: Vec<&str> = files.iter().map(|(n, _)| n.as_str()).collect();
    assert_eq!(names, vec!["README.md", ".gitignore", "FusionSecurityMod.csproj", "Module.cs"]);
    assert!(files[3].1.contains("public static string Hello"));
    assert!(files[0].1.contains("using FusionSecurityMod;"));

    let plan = plan_install(&manifest, "asp-core", "github:acme/fusion-security-mod").unwrap();
    assert_eq!(plan.build_commands, vec!["dotnet build".to_string()]);
    assert_eq!(
        plan.dotnet_reference.as_deref(),
        Some("dotnet add reference .fusion/modules/security/FusionSecurityMod.csproj")
    );
    assert_eq!(plan.import_hint, "using FusionSecurityMod;");
    assert_eq!(plan.typescript_link, None);
    assert!(matches!(plan_install(&sample_rust(), "asp-core", "github:a/b"), Err(InstallError::NotForHost)));
    assert!(matches!(plan_install(&sample_rust(), "cobol", "github:a/b"), Err(InstallError::UnsupportedHost)));

    let mut rust = sample_rust();
    rust.module.targets.csharp = true;
    assert_eq!(validate_manifest(&rust), Err(ManifestError::CSharpTargetWithoutEntry));
    rust.module.entry.csharp = Some("FusionExampleMod".into());
    rust.module.build.csharp = Some("dotnet build bindings/csharp".into());
    rust.module.build.rust = Some("cargo build --release".into());
    let plan = plan_install(&rust, "asp-core", "github:a/b").unwrap();
    assert_eq!(plan.build_commands, vec!["cargo build --release".to_string(), "dotnet build bindings/csharp".to_string()]);
    assert_eq!(
        plan.dotnet_reference.as_deref(),
        Some("dotnet add reference .fusion/modules/example/bindings/csharp/FusionExampleMod.csproj")
    );
}

fn object(members: Vec<(&str, JsonValue)>) -> JsonValue {
    JsonValue::Object(members.into_iter().map(|(k, v)| (k.to_string(), v)).collect())
}

#[test]
fn link_dependency_on_documents() {
    let doc = object(vec![
        ("dependencies", object(vec![("a", JsonValue::Str("1".into()))])),
        ("name", JsonValue::Str("shop".into())),
    ]);
    let linked = link_dependency(doc, "fusion-jwt-mod", "file:x").unwrap();
    let JsonValue::Object(members) = &linked else { panic!("not an object") };
    assert_eq!(members.len(), 2);
    assert_eq!(members[0].0, "dependencies");
    assert!(matches!(&members[1], (k, JsonValue::Str(v)) if k == "name" && v == "shop"));
    let JsonValue::Object(deps) = &members[0].1 else { panic!("dependencies") };
    assert_eq!(deps.len(), 2);
    assert!(matches!(&deps[1], (k, JsonValue::Str(v)) if k == "fusion-jwt-mod" && v == "file:x"));

    let replaced = link_dependency(
        object(vec![("dependencies", object(vec![("p", JsonValue::Str("0.1".into()))]))]),
        "p",
        "d",
    )
    .unwrap();
    let JsonValue::Object(members) = &replaced else { panic!("not an object") };
    let JsonValue::Object(deps) = &members[0].1 else { panic!("dependencies") };
    assert!(deps.len() == 1 && matches!(&deps[0].1, JsonValue::Str(v) if v == "d"));

    let added = link_dependency(fresh_package_json(), "p", "d").unwrap();
    let JsonValue::Object(members) = &added else { panic!("not an object") };
    assert_eq!(members.len(), 4);
    assert_eq!(members[3].0, "dependencies");

    assert!(matches!(link_dependency(JsonValue::Null, "p", "d"), Err(LinkError::NotObject)));
    assert!(matches!(
        link_dependency(object(vec![("dependencies", JsonValue::Array(vec![]))]), "p", "d"),
        Err(LinkError::DependenciesNotObject)
    ));
}
