//! `fusion-framework.toml`: the project configuration, the host languages a
//! project can be written in, and reading framework settings back from the
//! configuration text.

use vstd::prelude::*;
use crate::text::{ascii_lower, ascii_lowercase, is_ascii_text, opt_view, chars_of, is_text, spec_lowercase, string_from_chars, to_lowercase};

verus! {

/// Version of the framework that generated projects target.
pub const FUSION_FRAMEWORK_VERSION: &'static str = "1.0.0";

/// Name of the project configuration file.
pub const CONFIG_FILE: &'static str = "fusion-framework.toml";

/// Project name offered when the target directory gives none.
pub const DEFAULT_PROJECT_NAME: &'static str = "fusion-project";

/// Project description offered by `fusion init`.
pub const DEFAULT_PROJECT_DESCRIPTION: &'static str = "A Fusion Framework project";

/// The `fusion-framework.toml` document.
#[derive(Debug, Clone)]
pub struct Config {
    pub project: ProjectConfig,
    pub fusionframework: FrameworkConfig,
    pub tool: ToolConfig,
    pub modules: Vec<InstalledModule>,
}

/// The `[project]` table.
#[derive(Debug, Clone)]
pub struct ProjectConfig {
    pub name: String,
    pub description: String,
}

/// The `[fusionframework]` table.
#[derive(Debug, Clone)]
pub struct FrameworkConfig {
    pub language: String,
    pub extension: String,
    pub version: String,
}

/// The `[tool]` table.
#[derive(Debug, Clone)]
pub struct ToolConfig {
    pub version: String,
}

/// One `[[modules]]` entry: a module vendored into the project.
#[derive(Debug, Clone)]
pub struct InstalledModule {
    pub id: String,
    pub source: String,
    pub version: String,
    pub path: String,
}

/// The language a project is written in.
#[derive(Debug, Clone, Copy, PartialEq, Eq, Structural)]
pub enum Language {
    Python,
    TypeScript,
    AspNetCore,
}

/// A language name that is not a project language.
#[derive(Debug, Clone, Copy, PartialEq, Eq, Structural)]
pub struct UnsupportedLanguage;

/// Why a framework setting could not be read from the configuration.
#[derive(Debug, Clone, Copy, PartialEq, Eq, Structural)]
pub enum ConfigError {
    /// The configuration text is not valid TOML.
    Parse,
}

pub open spec fn spec_language_name(l: Language) -> Seq<char> {
    match l {
        Language::Python => "python"@,
        Language::TypeScript => "typescript"@,
        Language::AspNetCore => "asp-core"@,
    }
}

pub open spec fn spec_language_extension(l: Language) -> Seq<char> {
    match l {
        Language::Python => ".py"@,
        Language::TypeScript => ".ts"@,
        Language::AspNetCore => ".cs"@,
    }
}

/// The project language named by an already lowercased word.
pub open spec fn spec_project_language(lowered: Seq<char>) -> Option<Language> {
    if lowered == "python"@ || lowered == "py"@ {
        Some(Language::Python)
    } else if lowered == "typescript"@ || lowered == "ts"@ || lowered == "node"@ || lowered
        == "nodejs"@ {
        Some(Language::TypeScript)
    } else if lowered == "csharp"@ || lowered == "cs"@ || lowered == "asp-core"@ || lowered
        == "aspnet"@ || lowered == "aspnetcore"@ || lowered == "asp.net"@ || lowered
        == "asp.net-core"@ {
        Some(Language::AspNetCore)
    } else {
        None
    }
}

impl Language {
    /// The language's name as recorded in `fusion-framework.toml`.
    pub fn name(&self) -> (s: &'static str)
        ensures
            s@ == spec_language_name(*self),
    {
        match self {
            Language::Python => "python",
            Language::TypeScript => "typescript",
            Language::AspNetCore => "asp-core",
        }
    }

    /// The file extension of the language's source files.
    pub fn extension(&self) -> (s: &'static str)
        ensures
            s@ == spec_language_extension(*self),
    {
        match self {
            Language::Python => ".py",
            Language::TypeScript => ".ts",
            Language::AspNetCore => ".cs",
        }
    }

    /// The project language named by a lowercased word.
    pub fn from_lowercase(lowered: &str) -> (r: Result<Language, UnsupportedLanguage>)
        ensures
            match r {
                Ok(l) => spec_project_language(lowered@) == Some(l),
                Err(_) => spec_project_language(lowered@) is None,
            },
    {
        let v = chars_of(lowered);
        if is_text(&v, "python") || is_text(&v, "py") {
            Ok(Language::Python)
        } else if is_text(&v, "typescript") || is_text(&v, "ts") || is_text(&v, "node") || is_text(
            &v,
            "nodejs",
        ) {
            Ok(Language::TypeScript)
        } else if is_text(&v, "csharp") || is_text(&v, "cs") || is_text(&v, "asp-core") || is_text(
            &v,
            "aspnet",
        ) || is_text(&v, "aspnetcore") || is_text(&v, "asp.net") || is_text(&v, "asp.net-core") {
            Ok(Language::AspNetCore)
        } else {
            Err(UnsupportedLanguage)
        }
    }
}

/// The project language named on the command line, in any letter case.
pub fn parse_language(value: &str) -> (r: Result<Language, UnsupportedLanguage>)
    ensures
        match r {
            Ok(l) => spec_project_language(spec_lowercase(value@)) == Some(l),
            Err(_) => spec_project_language(spec_lowercase(value@)) is None,
        },
        is_ascii_text(value@) ==> match r {
            Ok(l) => spec_project_language(ascii_lowercase(value@)) == Some(l),
            Err(_) => spec_project_language(ascii_lowercase(value@)) is None,
        },
{
    let lowered = to_lowercase(value);
    Language::from_lowercase(lowered.as_str())
}

/// Name of the Fusion Framework configuration file.
pub fn get_toml() -> (name: String)
    ensures
        name@ == CONFIG_FILE@,
{
    string_from_chars(&chars_of(CONFIG_FILE))
}

/// The configuration of a new project of `language` named `name`, created
/// by the tool of version `tool_version`: it records the language's name
/// and extension, the framework version, and no modules.
pub fn new_config(language: Language, name: String, description: String, tool_version: &str) -> (c: Config)
    ensures
        c.project.name@ == name@,
        c.project.description@ == description@,
        c.fusionframework.language@ == spec_language_name(language),
        c.fusionframework.extension@ == spec_language_extension(language),
        c.fusionframework.version@ == FUSION_FRAMEWORK_VERSION@,
        c.tool.version@ == tool_version@,
        c.modules@.len() == 0,
{
    Config {
        project: ProjectConfig { name, description },
        fusionframework: FrameworkConfig {
            language: string_from_chars(&chars_of(language.name())),
            extension: string_from_chars(&chars_of(language.extension())),
            version: string_from_chars(&chars_of(FUSION_FRAMEWORK_VERSION)),
        },
        tool: ToolConfig { version: string_from_chars(&chars_of(tool_version)) },
        modules: Vec::new(),
    }
}

/// The framework version new projects are created with.
pub fn tool_version() -> (v: String)
    ensures
        v@ == FUSION_FRAMEWORK_VERSION@,
{
    string_from_chars(&chars_of(FUSION_FRAMEWORK_VERSION))
}

// ---------------------------------------------------------------------------
// Reading framework settings
// ---------------------------------------------------------------------------

#[verifier::external_type_specification]
#[verifier::external_body]
pub struct ExTomlDeError(toml::de::Error);

/// What TOML document `content` holds at `[table] key` as a string:
/// `None` when `content` is not valid TOML, `Some(None)` when there is no
/// such string.
pub uninterp spec fn toml_string_at(
    content: Seq<char>,
    table: Seq<char>,
    key: Seq<char>,
) -> Option<Option<Seq<char>>>;

/// Parses `content` with `toml::from_str` into a `toml::Value` and reads the
/// string at `[table] key` (`Value::get`, `Value::as_str`). The result is
/// named by `toml_string_at`; TOML's grammar is not restated here.
#[verifier::external_body]
fn toml_table_string(content: &str, table: &str, key: &str) -> (r: Result<
    Option<String>,
    toml::de::Error,
>)
    ensures
        match r {
            Ok(v) => toml_string_at(content@, table@, key@) == Some(opt_view(v)),
            Err(_) => toml_string_at(content@, table@, key@) is None,
        },
{
    let value: toml::Value = toml::from_str(content)?;
    Ok(value.get(table).and_then(|t| t.get(key)).and_then(|v| v.as_str()).map(|s| s.to_string()))
}

/// The string at `[fusionframework] key` of a configuration, or the empty
/// string when there is none.
pub open spec fn spec_framework_setting(content: Seq<char>, key: Seq<char>) -> Option<Seq<char>> {
    match toml_string_at(content, "fusionframework"@, key) {
        None => None,
        Some(None) => Some(Seq::empty()),
        Some(Some(s)) => Some(s),
    }
}

/// A framework setting from what the TOML lookup found: a parse failure is
/// `ConfigError::Parse`, a missing or non-string value reads as empty.
pub fn setting_value(found: Result<Option<String>, toml::de::Error>) -> (r: Result<String, ConfigError>)
    ensures
        match found {
            Err(_) => r == Err::<String, ConfigError>(ConfigError::Parse),
            Ok(None) => r matches Ok(s) && s@ == Seq::<char>::empty(),
            Ok(Some(v)) => r matches Ok(s) && s@ == v@,
        },
{
    match found {
        Err(_) => Err(ConfigError::Parse),
        Ok(None) => Ok(string_from_chars(&Vec::new())),
        Ok(Some(s)) => Ok(s),
    }
}

fn framework_setting(content: &str, key: &str) -> (r: Result<String, ConfigError>)
    ensures
        match r {
            Ok(s) => spec_framework_setting(content@, key@) == Some(s@),
            Err(_) => spec_framework_setting(content@, key@) is None,
        },
{
    setting_value(toml_table_string(content, "fusionframework", key))
}

/// The framework extension recorded in a project's configuration text.
pub fn extension_from(content: &str) -> (r: Result<String, ConfigError>)
    ensures
        match r {
            Ok(s) => spec_framework_setting(content@, "extension"@) == Some(s@),
            Err(_) => spec_framework_setting(content@, "extension"@) is None,
        },
{
    framework_setting(content, "extension")
}

/// The framework language recorded in a project's configuration text.
pub fn language_from(content: &str) -> (r: Result<String, ConfigError>)
    ensures
        match r {
            Ok(s) => spec_framework_setting(content@, "language"@) == Some(s@),
            Err(_) => spec_framework_setting(content@, "language"@) is None,
        },
{
    framework_setting(content, "language")
}

/// The framework version recorded in a project's configuration text.
pub fn version_from(content: &str) -> (r: Result<String, ConfigError>)
    ensures
        match r {
            Ok(s) => spec_framework_setting(content@, "version"@) == Some(s@),
            Err(_) => spec_framework_setting(content@, "version"@) is None,
        },
{
    framework_setting(content, "version")
}

/// Whether a project's configuration records the framework version this
/// tool creates projects with.
pub fn version_exists_on_system(content: &str) -> (r: Result<bool, ConfigError>)
    ensures
        match r {
            Ok(b) => spec_framework_setting(content@, "version"@) matches Some(v) && b == (v
                == FUSION_FRAMEWORK_VERSION@),
            Err(_) => spec_framework_setting(content@, "version"@) is None,
        },
{
    let v = version_from(content)?;
    Ok(is_text(&chars_of(v.as_str()), FUSION_FRAMEWORK_VERSION))
}

// ---------------------------------------------------------------------------
// Laws
// ---------------------------------------------------------------------------

proof fn lemma_ascii_lower_idempotent(c: char)
    requires
        (c as u32) < 128,
    ensures
        (ascii_lower(c) as u32) < 128,
        ascii_lower(ascii_lower(c)) == ascii_lower(c),
{
}

/// Lowercasing ASCII text twice is lowercasing it once, so the project
/// language of an ASCII word is that of its lowercase form.
pub proof fn language_ignores_ascii_case(s: Seq<char>)
    requires
        is_ascii_text(s),
    ensures
        is_ascii_text(ascii_lowercase(s)),
        ascii_lowercase(ascii_lowercase(s)) == ascii_lowercase(s),
        spec_project_language(ascii_lowercase(ascii_lowercase(s))) == spec_project_language(ascii_lowercase(s)),
{
    assert forall|i: int| 0 <= i < s.len() implies (#[trigger] ascii_lowercase(s)[i] as u32) < 128 && ascii_lower(
        ascii_lowercase(s)[i],
    ) == ascii_lowercase(s)[i] by {
        lemma_ascii_lower_idempotent(s[i]);
    }
    assert(ascii_lowercase(ascii_lowercase(s)) =~= ascii_lowercase(s));
}

/// Every project language's name (`python`, `typescript`, `asp-core`)
/// parses back to that language.
pub proof fn language_names_parse_back(l: Language)
    ensures
        spec_project_language("python"@) == Some(Language::Python),
        spec_project_language("typescript"@) == Some(Language::TypeScript),
        spec_project_language("asp-core"@) == Some(Language::AspNetCore),
        is_ascii_text(spec_language_name(l)),
        spec_project_language(ascii_lowercase(spec_language_name(l))) == Some(l),
{
    reveal_strlit("python");
    reveal_strlit("typescript");
    reveal_strlit("asp-core");
    reveal_strlit("py");
    reveal_strlit("ts");
    reveal_strlit("node");
    reveal_strlit("nodejs");
    reveal_strlit("csharp");
    reveal_strlit("cs");
    assert("typescript"@.len() != "python"@.len() && "typescript"@.len() != "py"@.len());
    assert("asp-core"@.len() != "python"@.len() && "asp-core"@.len() != "py"@.len());
    assert("asp-core"@.len() != "typescript"@.len() && "asp-core"@.len() != "ts"@.len());
    assert("asp-core"@.len() != "node"@.len() && "asp-core"@.len() != "nodejs"@.len());
    assert("asp-core"@.len() != "csharp"@.len() && "asp-core"@.len() != "cs"@.len());
    let n = spec_language_name(l);
    assert forall|i: int| 0 <= i < n.len() implies ascii_lower(#[trigger] n[i]) == n[i] && (n[i] as u32) < 128 by {}
    assert(ascii_lowercase(n) =~= n);
}

} // verus!
