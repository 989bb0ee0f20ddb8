//! `fusion.module.toml`: the manifest every publishable module carries, its
//! validation, and the naming rules for module ids and host packages.

use vstd::prelude::*;
use crate::text::{
    ascii_lowercase, is_ascii_text,
    chars_of, is_text, push_all, push_str, replace_char, replace_char_exec, spec_lowercase,
    string_from_chars, to_lowercase, trim, trim_exec,
};

verus! {

/// File name of the module manifest.
pub const MANIFEST_FILE: &'static str = "fusion.module.toml";

#[derive(Debug, Clone, PartialEq, Eq)]
pub struct ModuleManifest {
    pub module: ModuleMeta,
}

#[derive(Debug, Clone, PartialEq, Eq)]
pub struct ModuleMeta {
    pub id: String,
    pub name: String,
    pub version: String,
    pub description: String,
    pub impl_: ModuleImpl,
    pub targets: ModuleTargets,
    pub entry: ModuleEntry,
    pub build: ModuleBuild,
}

/// The `[module.impl]` table.
#[derive(Debug, Clone, Copy, PartialEq, Eq)]
pub struct ModuleImpl {
    pub language: ModuleImplLanguage,
}

/// The language a module is implemented in.
#[derive(Debug, Clone, Copy, PartialEq, Eq, Structural)]
pub enum ModuleImplLanguage {
    Python,
    TypeScript,
    Rust,
    CSharp,
}

/// Which host languages a module can be used from.
#[derive(Debug, Clone, Copy, PartialEq, Eq)]
pub struct ModuleTargets {
    pub python: bool,
    pub typescript: bool,
    /// ASP.NET Core (`asp-core`) hosts; off unless the manifest says so.
    pub csharp: bool,
}

/// The package each host imports.
#[derive(Debug, Clone, PartialEq, Eq, Default)]
pub struct ModuleEntry {
    pub python: Option<String>,
    pub typescript: Option<String>,
    /// The C# namespace (and project name) an ASP.NET Core host uses.
    pub csharp: Option<String>,
}

/// Shell commands that build the module for each host.
#[derive(Debug, Clone, PartialEq, Eq, Default)]
pub struct ModuleBuild {
    pub python: Option<String>,
    pub typescript: Option<String>,
    pub rust: Option<String>,
    pub csharp: Option<String>,
}

/// A language name that is not a module language.
#[derive(Debug, Clone, Copy, PartialEq, Eq, Structural)]
pub struct UnsupportedModuleLanguage;

/// Why a manifest was refused.
#[derive(Debug, Clone, Copy, PartialEq, Eq, Structural)]
pub enum ManifestError {
    /// `module.id` is empty (or only whitespace).
    EmptyId,
    /// `module.id` breaks the id rules (see [`is_valid_id`]).
    InvalidId,
    /// `module.name` is empty (or only whitespace).
    EmptyName,
    /// `module.version` is empty (or only whitespace).
    EmptyVersion,
    /// No host language is targeted.
    NoTargets,
    /// A Python module that does not target python.
    PythonModuleWithoutPythonTarget,
    /// A Python module without `module.entry.python`.
    PythonModuleWithoutEntry,
    /// A TypeScript module that does not target typescript.
    TypeScriptModuleWithoutTypeScriptTarget,
    /// A TypeScript module without `module.entry.typescript`.
    TypeScriptModuleWithoutEntry,
    /// A Rust module targeting python without `module.entry.python`.
    PythonTargetWithoutEntry,
    /// A Rust module targeting typescript without `module.entry.typescript`.
    TypeScriptTargetWithoutEntry,
    /// A C# module that does not target csharp.
    CSharpModuleWithoutCSharpTarget,
    /// A C# module without `module.entry.csharp`.
    CSharpModuleWithoutEntry,
    /// A Rust module targeting csharp without `module.entry.csharp`.
    CSharpTargetWithoutEntry,
}

// ---------------------------------------------------------------------------
// Specification
// ---------------------------------------------------------------------------

pub open spec fn spec_language_name(l: ModuleImplLanguage) -> Seq<char> {
    match l {
        ModuleImplLanguage::Python => "python"@,
        ModuleImplLanguage::TypeScript => "typescript"@,
        ModuleImplLanguage::Rust => "rust"@,
        ModuleImplLanguage::CSharp => "csharp"@,
    }
}

/// The module language named by an already lowercased word.
pub open spec fn spec_module_language(lowered: Seq<char>) -> Option<ModuleImplLanguage> {
    if lowered == "python"@ || lowered == "py"@ {
        Some(ModuleImplLanguage::Python)
    } else if lowered == "typescript"@ || lowered == "ts"@ || lowered == "javascript"@ || lowered
        == "js"@ || lowered == "node"@ {
        Some(ModuleImplLanguage::TypeScript)
    } else if lowered == "rust"@ || lowered == "rs"@ {
        Some(ModuleImplLanguage::Rust)
    } else if lowered == "csharp"@ || lowered == "cs"@ || lowered == "c#"@ {
        Some(ModuleImplLanguage::CSharp)
    } else {
        None
    }
}

pub open spec fn is_id_char(c: char) -> bool {
    ('a' <= c <= 'z') || ('0' <= c <= '9') || c == '-'
}

/// A module id: starts with a lowercase ASCII letter, holds only lowercase
/// ASCII letters, digits and hyphens, with no two hyphens in a row and no
/// hyphen at the end.
pub open spec fn spec_valid_id(s: Seq<char>) -> bool {
    &&& s.len() > 0
    &&& 'a' <= s[0] <= 'z'
    &&& forall|i: int| 0 <= i < s.len() ==> is_id_char(#[trigger] s[i])
    &&& forall|i: int| 0 <= i < s.len() - 1 ==> !(#[trigger] s[i] == '-' && s[i + 1] == '-')
    &&& s.last() != '-'
}

pub open spec fn spec_python_package_name(id: Seq<char>) -> Seq<char> {
    "fusion_"@ + replace_char(id, '-', "_"@) + "_mod"@
}

pub open spec fn spec_npm_package_name(id: Seq<char>) -> Seq<char> {
    "fusion-"@ + id + "-mod"@
}

/// An ASCII letter in uppercase.
pub open spec fn ascii_upper(c: char) -> char {
    if 'a' <= c <= 'z' {
        (((c as u8) - 32) as u8) as char
    } else {
        c
    }
}

/// `s` in PascalCase: hyphens dropped and the letter after each one (and
/// the first) in uppercase; `cap` says whether the first letter is.
pub open spec fn pascal_from(s: Seq<char>, cap: bool) -> Seq<char>
    decreases s.len(),
{
    if s.len() == 0 {
        seq![]
    } else if s[0] == '-' {
        pascal_from(s.drop_first(), true)
    } else {
        seq![if cap { ascii_upper(s[0]) } else { s[0] }] + pascal_from(s.drop_first(), false)
    }
}

/// Recommended C# namespace of a module: `Fusion<Name>Mod`, the id in
/// PascalCase (`jwt-auth` gives `FusionJwtAuthMod`).
pub open spec fn spec_csharp_package_name(id: Seq<char>) -> Seq<char> {
    "Fusion"@ + pascal_from(id, true) + "Mod"@
}

/// An entry that is absent or empty.
pub open spec fn entry_missing(e: Option<String>) -> bool {
    match e {
        Some(s) => s@.len() == 0,
        None => true,
    }
}

/// When a manifest is accepted, and the first rule it breaks otherwise.
pub open spec fn spec_validate(m: ModuleManifest) -> Result<(), ManifestError> {
    let meta = m.module;
    let id = trim(meta.id@);
    if id.len() == 0 {
        Err(ManifestError::EmptyId)
    } else if !spec_valid_id(id) {
        Err(ManifestError::InvalidId)
    } else if trim(meta.name@).len() == 0 {
        Err(ManifestError::EmptyName)
    } else if trim(meta.version@).len() == 0 {
        Err(ManifestError::EmptyVersion)
    } else if !meta.targets.python && !meta.targets.typescript && !meta.targets.csharp {
        Err(ManifestError::NoTargets)
    } else {
        match meta.impl_.language {
            ModuleImplLanguage::Python => if !meta.targets.python {
                Err(ManifestError::PythonModuleWithoutPythonTarget)
            } else if entry_missing(meta.entry.python) {
                Err(ManifestError::PythonModuleWithoutEntry)
            } else {
                Ok(())
            },
            ModuleImplLanguage::TypeScript => if !meta.targets.typescript {
                Err(ManifestError::TypeScriptModuleWithoutTypeScriptTarget)
            } else if entry_missing(meta.entry.typescript) {
                Err(ManifestError::TypeScriptModuleWithoutEntry)
            } else {
                Ok(())
            },
            ModuleImplLanguage::Rust => if meta.targets.python && entry_missing(meta.entry.python) {
                Err(ManifestError::PythonTargetWithoutEntry)
            } else if meta.targets.typescript && entry_missing(meta.entry.typescript) {
                Err(ManifestError::TypeScriptTargetWithoutEntry)
            } else if meta.targets.csharp && entry_missing(meta.entry.csharp) {
                Err(ManifestError::CSharpTargetWithoutEntry)
            } else {
                Ok(())
            },
            ModuleImplLanguage::CSharp => if !meta.targets.csharp {
                Err(ManifestError::CSharpModuleWithoutCSharpTarget)
            } else if entry_missing(meta.entry.csharp) {
                Err(ManifestError::CSharpModuleWithoutEntry)
            } else {
                Ok(())
            },
        }
    }
}

/// Whether a module can be used from a host project of the given language.
pub open spec fn spec_supports_host(m: ModuleManifest, host: Seq<char>) -> bool {
    if host == "python"@ {
        m.module.targets.python
    } else if host == "typescript"@ {
        m.module.targets.typescript
    } else if host == "asp-core"@ {
        m.module.targets.csharp
    } else {
        false
    }
}

// ---------------------------------------------------------------------------
// Implementation
// ---------------------------------------------------------------------------

impl ModuleImplLanguage {
    /// The language's name as written in manifests.
    pub fn as_str(self) -> (s: &'static str)
        ensures
            s@ == spec_language_name(self),
    {
        match self {
            ModuleImplLanguage::Python => "python",
            ModuleImplLanguage::TypeScript => "typescript",
            ModuleImplLanguage::Rust => "rust",
            ModuleImplLanguage::CSharp => "csharp",
        }
    }

    /// The module language named by a lowercased word: `python`/`py`,
    /// `typescript`/`ts`/`javascript`/`js`/`node`, `rust`/`rs`, or
    /// `csharp`/`cs`/`c#`.
    pub fn from_lowercase(lowered: &str) -> (r: Result<Self, UnsupportedModuleLanguage>)
        ensures
            match r {
                Ok(l) => spec_module_language(lowered@) == Some(l),
                Err(_) => spec_module_language(lowered@) is None,
            },
    {
        let v = chars_of(lowered);
        if is_text(&v, "python") || is_text(&v, "py") {
            Ok(ModuleImplLanguage::Python)
        } else if is_text(&v, "typescript") || is_text(&v, "ts") || is_text(&v, "javascript")
            || is_text(&v, "js") || is_text(&v, "node") {
            Ok(ModuleImplLanguage::TypeScript)
        } else if is_text(&v, "rust") || is_text(&v, "rs") {
            Ok(ModuleImplLanguage::Rust)
        } else if is_text(&v, "csharp") || is_text(&v, "cs") || is_text(&v, "c#") {
            Ok(ModuleImplLanguage::CSharp)
        } else {
            Err(UnsupportedModuleLanguage)
        }
    }

    /// The module language named by `value`, in any letter case.
    pub fn parse(value: &str) -> (r: Result<Self, UnsupportedModuleLanguage>)
        ensures
            match r {
                Ok(l) => spec_module_language(spec_lowercase(value@)) == Some(l),
                Err(_) => spec_module_language(spec_lowercase(value@)) is None,
            },
            is_ascii_text(value@) ==> match r {
                Ok(l) => spec_module_language(ascii_lowercase(value@)) == Some(l),
                Err(_) => spec_module_language(ascii_lowercase(value@)) is None,
            },
    {
        let lowered = to_lowercase(value);
        Self::from_lowercase(lowered.as_str())
    }
}

impl Default for ModuleTargets {
    /// Both hosts are targeted unless the manifest says otherwise.
    fn default() -> (t: Self)
        ensures
            t.python && t.typescript && !t.csharp,
    {
        ModuleTargets { python: default_true(), typescript: default_true(), csharp: false }
    }
}

/// Value of an omitted target flag.
pub fn default_true() -> (b: bool)
    ensures
        b,
{
    true
}

/// Whether `id` is a valid module id (see [`spec_valid_id`]).
pub fn is_valid_id(id: &str) -> (r: bool)
    ensures
        r == spec_valid_id(id@),
{
    let s = chars_of(id);
    if s.len() == 0 {
        return false;
    }
    if !('a' <= s[0] && s[0] <= 'z') {
        return false;
    }
    let mut i: usize = 0;
    while i < s.len()
        invariant
            s@ == id@,
            i <= s.len(),
            s.len() > 0,
            forall|j: int| 0 <= j < i ==> is_id_char(#[trigger] s@[j]),
            forall|j: int| 0 <= j < i && j < s.len() - 1 ==> !(#[trigger] s@[j] == '-' && s@[j + 1]
                == '-'),
        decreases s.len() - i,
    {
        let c = s[i];
        if !(('a' <= c && c <= 'z') || ('0' <= c && c <= '9') || c == '-') {
            assert(!is_id_char(s@[i as int]));
            return false;
        }
        if c == '-' && i + 1 < s.len() && s[i + 1] == '-' {
            return false;
        }
        i = i + 1;
    }
    s[s.len() - 1] != '-'
}

/// Recommended Python import package of a module: `fusion_<id>_mod` with
/// hyphens turned into underscores.
pub fn python_package_name(id: &str) -> (name: String)
    ensures
        name@ == spec_python_package_name(id@),
{
    let mut v: Vec<char> = Vec::new();
    push_str(&mut v, "fusion_");
    push_all(&mut v, &replace_char_exec(&chars_of(id), '-', "_"));
    push_str(&mut v, "_mod");
    string_from_chars(&v)
}

/// Recommended npm package of a module: `fusion-<id>-mod`.
pub fn npm_package_name(id: &str) -> (name: String)
    ensures
        name@ == spec_npm_package_name(id@),
{
    let mut v: Vec<char> = Vec::new();
    push_str(&mut v, "fusion-");
    push_all(&mut v, &chars_of(id));
    push_str(&mut v, "-mod");
    string_from_chars(&v)
}

/// Recommended C# namespace of a module: `Fusion<Name>Mod`.
pub fn csharp_package_name(id: &str) -> (name: String)
    ensures
        name@ == spec_csharp_package_name(id@),
{
    let s = chars_of(id);
    let mut v: Vec<char> = Vec::new();
    push_str(&mut v, "Fusion");
    let ghost head = v@;
    let mut cap = true;
    let mut i: usize = 0;
    assert(s@.skip(0) =~= s@);
    while i < s.len()
        invariant
            i <= s.len(),
            s@ == id@,
            head + pascal_from(id@, true) == v@ + pascal_from(s@.skip(i as int), cap),
        decreases s.len() - i,
    {
        let ghost rest = s@.skip(i as int);
        assert(rest[0] == s@[i as int]);
        assert(rest.drop_first() =~= s@.skip(i + 1));
        let c = s[i];
        if c == '-' {
            cap = true;
        } else {
            let u = if cap && 'a' <= c && c <= 'z' {
                ((c as u8) - 32) as char
            } else {
                c
            };
            assert(u == (if cap { ascii_upper(c) } else { c }));
            let ghost before = v@;
            v.push(u);
            assert(before + (seq![u] + pascal_from(rest.drop_first(), false)) =~= v@ + pascal_from(
                rest.drop_first(),
                false,
            ));
            cap = false;
        }
        i = i + 1;
    }
    assert(s@.skip(s.len() as int) =~= Seq::<char>::empty());
    assert(v@ + pascal_from(Seq::<char>::empty(), cap) =~= v@);
    push_str(&mut v, "Mod");
    string_from_chars(&v)
}

fn entry_missing_exec(e: &Option<String>) -> (r: bool)
    ensures
        r == entry_missing(*e),
{
    match e {
        Some(s) => s.as_str().unicode_len() == 0,
        None => true,
    }
}

/// Checks the manifest rules, reporting the first one broken.
pub fn validate_manifest(manifest: &ModuleManifest) -> (r: Result<(), ManifestError>)
    ensures
        r == spec_validate(*manifest),
{
    let meta = &manifest.module;
    let id = trim_exec(&chars_of(meta.id.as_str()));
    if id.len() == 0 {
        return Err(ManifestError::EmptyId);
    }
    let id_string = string_from_chars(&id);
    if !is_valid_id(id_string.as_str()) {
        return Err(ManifestError::InvalidId);
    }
    if trim_exec(&chars_of(meta.name.as_str())).len() == 0 {
        return Err(ManifestError::EmptyName);
    }
    if trim_exec(&chars_of(meta.version.as_str())).len() == 0 {
        return Err(ManifestError::EmptyVersion);
    }
    if !meta.targets.python && !meta.targets.typescript && !meta.targets.csharp {
        return Err(ManifestError::NoTargets);
    }
    match meta.impl_.language {
        ModuleImplLanguage::Python => {
            if !meta.targets.python {
                return Err(ManifestError::PythonModuleWithoutPythonTarget);
            }
            if entry_missing_exec(&meta.entry.python) {
                return Err(ManifestError::PythonModuleWithoutEntry);
            }
        },
        ModuleImplLanguage::TypeScript => {
            if !meta.targets.typescript {
                return Err(ManifestError::TypeScriptModuleWithoutTypeScriptTarget);
            }
            if entry_missing_exec(&meta.entry.typescript) {
                return Err(ManifestError::TypeScriptModuleWithoutEntry);
            }
        },
        ModuleImplLanguage::Rust => {
            if meta.targets.python && entry_missing_exec(&meta.entry.python) {
                return Err(ManifestError::PythonTargetWithoutEntry);
            }
            if meta.targets.typescript && entry_missing_exec(&meta.entry.typescript) {
                return Err(ManifestError::TypeScriptTargetWithoutEntry);
            }
            if meta.targets.csharp && entry_missing_exec(&meta.entry.csharp) {
                return Err(ManifestError::CSharpTargetWithoutEntry);
            }
        },
        ModuleImplLanguage::CSharp => {
            if !meta.targets.csharp {
                return Err(ManifestError::CSharpModuleWithoutCSharpTarget);
            }
            if entry_missing_exec(&meta.entry.csharp) {
                return Err(ManifestError::CSharpModuleWithoutEntry);
            }
        },
    }
    Ok(())
}

/// Whether a module can be used from a host project whose language is
/// `host_language` (`python`, `typescript` or `asp-core`).
pub fn supports_host_language(manifest: &ModuleManifest, host_language: &str) -> (r: bool)
    ensures
        r == spec_supports_host(*manifest, host_language@),
{
    let h = chars_of(host_language);
    if is_text(&h, "python") {
        manifest.module.targets.python
    } else if is_text(&h, "typescript") {
        manifest.module.targets.typescript
    } else if is_text(&h, "asp-core") {
        manifest.module.targets.csharp
    } else {
        false
    }
}

/// A module that passes validation can be used from the host language it
/// is written in.
pub proof fn valid_module_supports_its_own_host(m: ModuleManifest)
    requires
        spec_validate(m) is Ok,
    ensures
        m.module.impl_.language == ModuleImplLanguage::Python ==> spec_supports_host(m, "python"@),
        m.module.impl_.language == ModuleImplLanguage::TypeScript ==> spec_supports_host(
            m,
            "typescript"@,
        ),
        m.module.impl_.language == ModuleImplLanguage::CSharp ==> spec_supports_host(m, "asp-core"@),
        spec_supports_host(m, "python"@) || spec_supports_host(m, "typescript"@) || spec_supports_host(
            m,
            "asp-core"@,
        ),
{
    reveal_strlit("python");
    reveal_strlit("typescript");
    reveal_strlit("asp-core");
    assert("typescript"@.len() != "python"@.len());
    assert("asp-core"@.len() != "python"@.len());
    assert("asp-core"@.len() != "typescript"@.len());
}

/// Every module language's own name, in lowercase or in capitals, parses
/// back to that language: `python`, `typescript`, `rust` and `csharp`.
pub proof fn module_language_names_parse_back(l: ModuleImplLanguage)
    ensures
        spec_module_language("python"@) == Some(ModuleImplLanguage::Python),
        spec_module_language("typescript"@) == Some(ModuleImplLanguage::TypeScript),
        spec_module_language("rust"@) == Some(ModuleImplLanguage::Rust),
        spec_module_language("csharp"@) == Some(ModuleImplLanguage::CSharp),
        spec_module_language(ascii_lowercase("PYTHON"@)) == Some(ModuleImplLanguage::Python),
        spec_module_language(ascii_lowercase("TYPESCRIPT"@)) == Some(ModuleImplLanguage::TypeScript),
        spec_module_language(ascii_lowercase("RUST"@)) == Some(ModuleImplLanguage::Rust),
        spec_module_language(ascii_lowercase("CSHARP"@)) == Some(ModuleImplLanguage::CSharp),
        is_ascii_text(spec_language_name(l)),
        spec_module_language(spec_language_name(l)) == Some(l),
{
    reveal_strlit("python");
    reveal_strlit("py");
    reveal_strlit("typescript");
    reveal_strlit("ts");
    reveal_strlit("javascript");
    reveal_strlit("js");
    reveal_strlit("node");
    reveal_strlit("rust");
    reveal_strlit("rs");
    reveal_strlit("csharp");
    reveal_strlit("cs");
    reveal_strlit("c#");
    reveal_strlit("PYTHON");
    reveal_strlit("TYPESCRIPT");
    reveal_strlit("RUST");
    reveal_strlit("CSHARP");
    assert("rust"@[0] != "node"@[0]);
    assert("csharp"@[0] != "python"@[0]);
    assert("cs"@[0] != "py"@[0] && "cs"@[0] != "ts"@[0] && "cs"@[0] != "js"@[0]);
    assert("rust"@[0] != "python"@[0]);
    assert(ascii_lowercase("PYTHON"@) =~= "python"@);
    assert(ascii_lowercase("TYPESCRIPT"@) =~= "typescript"@);
    assert(ascii_lowercase("RUST"@) =~= "rust"@);
    assert(ascii_lowercase("CSHARP"@) =~= "csharp"@);
    let n = spec_language_name(l);
    assert forall|i: int| 0 <= i < n.len() implies (#[trigger] n[i] as u32) < 128 by {}
}

} // verus!
