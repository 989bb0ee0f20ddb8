//! Creating a publishable module package: its id, targets, manifest,
//! README and `.gitignore`.

use vstd::prelude::*;
use crate::manifest::{
    csharp_package_name, spec_csharp_package_name,
    ModuleBuild, ModuleEntry, ModuleImpl, ModuleImplLanguage, ModuleManifest, ModuleMeta,
    ModuleTargets, npm_package_name, python_package_name, spec_language_name,
    spec_npm_package_name, spec_python_package_name, spec_valid_id, spec_validate,
};
use crate::module_files::{module_files, spec_module_files, spec_names};
use crate::structure::file_views;
use crate::text::{
    ascii_lowercase, is_ascii_text, opt_view, chars_of, is_ws, push_all, push_str, replace_char, replace_char_exec, spec_lowercase,
    string_from_chars, to_lowercase, trim,
};

verus! {

/// Version a new module package starts at.
pub const INITIAL_VERSION: &'static str = "0.1.0";

/// What `fusion module init` was asked to create.
pub struct ModuleInitOptions {
    pub name: String,
    pub description: String,
    pub language: ModuleImplLanguage,
    pub target_python: bool,
    pub target_typescript: bool,
}

/// Why a module package could not be laid out.
#[derive(Debug, Clone, Copy, PartialEq, Eq, Structural)]
pub enum ScaffoldError {
    /// A Rust module with neither python nor typescript as a target.
    NoTarget,
}

/// A fixed piece of a module's README.
pub const README_TITLE: &'static str = r#"# fusion-"#;

/// A fixed piece of a module's README.
pub const README_AFTER_TITLE: &'static str = r#"-mod

"#;

/// A fixed piece of a module's README.
pub const README_AFTER_DESCRIPTION: &'static str = r#"

## Naming

Recommended (not required):

- Python import package: `fusion_<name>_mod` (this package: `"#;

/// A fixed piece of a module's README.
pub const README_AFTER_PY_PACKAGE: &'static str = r#"`)
- npm package: `fusion-<name>-mod` (this package: `"#;

/// A fixed piece of a module's README.
pub const README_AFTER_NPM_PACKAGE: &'static str = r#"`)

## Implementation

- Language: **"#;

/// A fixed piece of a module's README.
pub const README_AFTER_LANGUAGE: &'static str = r#"**
- Manifest: `fusion.module.toml`

This is a normal library package. After `fusion add`, import it from your Fusion app.

## Usage in a Fusion app

"#;

/// A fixed piece of a module's README.
pub const README_AFTER_USAGE: &'static str = r#"

## Install into a Fusion app

```bash
fusion add --github YOUR_GITHUB_USERNAME/fusion-"#;

/// A fixed piece of a module's README.
pub const README_END: &'static str = r#"-mod
```
"#;

/// README usage example of a Python or Rust module, up to its package.
pub const USAGE_PY_HEAD: &'static str = r#"```python
from "#;

/// README usage example of a Python or Rust module, after its package.
pub const USAGE_PY_TAIL: &'static str = r#" import hello

print(hello("world"))
```"#;

/// README usage example of a TypeScript module, up to its package.
pub const USAGE_TS_HEAD: &'static str = r#"```ts
import { hello } from ""#;

/// README usage example of a TypeScript module, after its package.
pub const USAGE_TS_TAIL: &'static str = r#"";

console.log(hello("world"));
```"#;

/// `.gitignore` of a Python module package.
pub const PYTHON_MODULE_GITIGNORE: &'static str = r#"__pycache__/
*.py[cod]
.venv/
dist/
*.egg-info/
.pytest_cache/
"#;

/// `.gitignore` of a TypeScript module package.
pub const TYPESCRIPT_MODULE_GITIGNORE: &'static str = r#"node_modules/
js/*.js.map
*.tsbuildinfo
"#;

/// README usage example of a C# module, up to its namespace.
pub const USAGE_CS_HEAD: &'static str = r#"```csharp
using "#;

/// README usage example of a C# module, after its namespace.
pub const USAGE_CS_TAIL: &'static str = r#";

Console.WriteLine(Module.Hello("world"));
```"#;

/// `.gitignore` of a C# module package.
pub const CSHARP_MODULE_GITIGNORE: &'static str = r#"bin/
obj/
*.user
"#;

/// `.gitignore` of a Rust module package.
pub const RUST_MODULE_GITIGNORE: &'static str = r#"target/
node_modules/
*.node
__pycache__/
.venv/
dist/
*.egg-info/
"#;

// ---------------------------------------------------------------------------
// Specification
// ---------------------------------------------------------------------------

/// A module id from a name that is already lowercase: underscores become
/// hyphens.
pub open spec fn spec_id_from_lowercase(lowered: Seq<char>) -> Seq<char> {
    replace_char(lowered, '_', "-"@)
}

/// The Python and TypeScript hosts a module targets: fixed by Python,
/// TypeScript and C# modules, chosen for Rust modules.
pub open spec fn spec_targets(language: ModuleImplLanguage, python: bool, typescript: bool) -> (bool, bool) {
    match language {
        ModuleImplLanguage::Python => (true, false),
        ModuleImplLanguage::TypeScript => (false, true),
        ModuleImplLanguage::Rust => (python, typescript),
        ModuleImplLanguage::CSharp => (false, false),
    }
}

/// Whether a new module targets some host: C# modules target ASP.NET Core
/// hosts, the others the Python and TypeScript hosts of [`spec_targets`].
pub open spec fn spec_has_target(language: ModuleImplLanguage, python: bool, typescript: bool) -> bool {
    spec_targets(language, python, typescript).0 || spec_targets(language, python, typescript).1
        || language == ModuleImplLanguage::CSharp
}

pub open spec fn opt_text(b: bool, s: Seq<char>) -> Option<Seq<char>> {
    if b { Some(s) } else { None }
}

/// The build commands a new module package declares.
/// (python, typescript, rust, csharp)
pub open spec fn spec_default_build(language: ModuleImplLanguage, python: bool, typescript: bool) -> (
    Option<Seq<char>>,
    Option<Seq<char>>,
    Option<Seq<char>>,
    Option<Seq<char>>,
) {
    match language {
        ModuleImplLanguage::Python => (Some("pip install -e ."@), None, None, None),
        ModuleImplLanguage::TypeScript => (None, Some("npm install && npm run build"@), None, None),
        ModuleImplLanguage::Rust => (
            opt_text(python, "maturin develop --release -m bindings/python/Cargo.toml"@),
            opt_text(typescript, "npm install --prefix bindings/node && npm run build --prefix bindings/node"@),
            Some("cargo build --release"@),
            None,
        ),
        ModuleImplLanguage::CSharp => (None, None, None, Some("dotnet build"@)),
    }
}

pub open spec fn build_view(b: ModuleBuild) -> (
    Option<Seq<char>>,
    Option<Seq<char>>,
    Option<Seq<char>>,
    Option<Seq<char>>,
) {
    (opt_view(b.python), opt_view(b.typescript), opt_view(b.rust), opt_view(b.csharp))
}

/// The manifest of a new module package whose id is `id`.
pub open spec fn spec_scaffold_manifest(o: ModuleInitOptions, id: Seq<char>, m: ModuleManifest) -> bool {
    let (python, typescript) = spec_targets(o.language, o.target_python, o.target_typescript);
    &&& m.module.id@ == id
    &&& m.module.name@ == o.name@
    &&& m.module.version@ == INITIAL_VERSION@
    &&& m.module.description@ == o.description@
    &&& m.module.impl_.language == o.language
    &&& m.module.targets.python == python
    &&& m.module.targets.typescript == typescript
    &&& m.module.targets.csharp == (o.language == ModuleImplLanguage::CSharp)
    &&& opt_view(m.module.entry.python) == opt_text(python, spec_python_package_name(id))
    &&& opt_view(m.module.entry.typescript) == opt_text(typescript, spec_npm_package_name(id))
    &&& opt_view(m.module.entry.csharp) == opt_text(
        o.language == ModuleImplLanguage::CSharp,
        spec_csharp_package_name(id),
    )
    &&& build_view(m.module.build) == spec_default_build(o.language, python, typescript)
}

/// The README of a new module package.
pub open spec fn spec_readme(
    id: Seq<char>,
    py_package: Seq<char>,
    npm_package: Seq<char>,
    description: Seq<char>,
    language: ModuleImplLanguage,
) -> Seq<char> {
    let usage = match language {
        ModuleImplLanguage::TypeScript => USAGE_TS_HEAD@ + npm_package + USAGE_TS_TAIL@,
        ModuleImplLanguage::CSharp => USAGE_CS_HEAD@ + spec_csharp_package_name(id) + USAGE_CS_TAIL@,
        _ => USAGE_PY_HEAD@ + py_package + USAGE_PY_TAIL@,
    };
    README_TITLE@ + id + README_AFTER_TITLE@ + description + README_AFTER_DESCRIPTION@ + py_package
        + README_AFTER_PY_PACKAGE@ + npm_package + README_AFTER_NPM_PACKAGE@ + spec_language_name(
        language,
    ) + README_AFTER_LANGUAGE@ + usage + README_AFTER_USAGE@ + id + README_END@
}

/// The `.gitignore` of a new module package.
pub open spec fn spec_gitignore(language: ModuleImplLanguage) -> Seq<char> {
    match language {
        ModuleImplLanguage::Python => PYTHON_MODULE_GITIGNORE@,
        ModuleImplLanguage::TypeScript => TYPESCRIPT_MODULE_GITIGNORE@,
        ModuleImplLanguage::Rust => RUST_MODULE_GITIGNORE@,
        ModuleImplLanguage::CSharp => CSHARP_MODULE_GITIGNORE@,
    }
}

/// The files of a new module package besides its manifest, in the order
/// they are written: README, `.gitignore`, then the sources.
pub open spec fn spec_package_files(o: ModuleInitOptions, id: Seq<char>) -> Seq<(Seq<char>, Seq<char>)> {
    let (python, typescript) = spec_targets(o.language, o.target_python, o.target_typescript);
    seq![
        ("README.md"@, spec_readme(id, spec_python_package_name(id), spec_npm_package_name(id), o.description@, o.language)),
        (".gitignore"@, spec_gitignore(o.language)),
    ] + spec_module_files(o.language, spec_names(id, python, typescript))
}

// ---------------------------------------------------------------------------
// Implementation
// ---------------------------------------------------------------------------

/// A module id from an already lowercase name: underscores become hyphens.
pub fn id_from_lowercase(lowered: &str) -> (id: String)
    ensures
        id@ == spec_id_from_lowercase(lowered@),
{
    string_from_chars(&replace_char_exec(&chars_of(lowered), '_', "-"))
}

/// The id of a module named `name`: lowercased, with underscores turned
/// into hyphens.
pub fn module_id(name: &str) -> (id: String)
    ensures
        id@ == spec_id_from_lowercase(spec_lowercase(name@)),
        is_ascii_text(name@) ==> id@ == spec_id_from_lowercase(ascii_lowercase(name@)),
{
    let lowered = to_lowercase(name);
    id_from_lowercase(lowered.as_str())
}

/// The hosts a new module targets.
pub fn targets(language: ModuleImplLanguage, target_python: bool, target_typescript: bool) -> (r: Result<
    (bool, bool),
    ScaffoldError,
>)
    ensures
        match r {
            Ok(t) => t == spec_targets(language, target_python, target_typescript) && spec_has_target(
                language,
                target_python,
                target_typescript,
            ),
            Err(e) => e == ScaffoldError::NoTarget && !spec_has_target(language, target_python, target_typescript),
        },
{
    let t = match language {
        ModuleImplLanguage::Python => (true, false),
        ModuleImplLanguage::TypeScript => (false, true),
        ModuleImplLanguage::Rust => (target_python, target_typescript),
        ModuleImplLanguage::CSharp => (false, false),
    };
    if !t.0 && !t.1 && !matches!(language, ModuleImplLanguage::CSharp) {
        Err(ScaffoldError::NoTarget)
    } else {
        Ok(t)
    }
}

fn text(lit: &str) -> (s: String)
    ensures
        s@ == lit@,
{
    string_from_chars(&chars_of(lit))
}

fn opt_string(b: bool, s: String) -> (r: Option<String>)
    ensures
        opt_view(r) == opt_text(b, s@),
{
    if b { Some(s) } else { None }
}

/// The hosts `fusion module init` targets without asking: Python and
/// TypeScript modules have theirs fixed (a C# module targets ASP.NET Core
/// hosts only), and a Rust module whose language
/// came from the command line targets both; `None` when the user is asked.
pub fn cli_targets(language: ModuleImplLanguage, language_from_cli: bool) -> (r: Option<(bool, bool)>)
    ensures
        r == (match language {
            ModuleImplLanguage::Python => Some((true, false)),
            ModuleImplLanguage::TypeScript => Some((false, true)),
            ModuleImplLanguage::Rust => if language_from_cli {
                Some((true, true))
            } else {
                None
            },
            ModuleImplLanguage::CSharp => Some((false, false)),
        }),
{
    match language {
        ModuleImplLanguage::Python => Some((true, false)),
        ModuleImplLanguage::TypeScript => Some((false, true)),
        ModuleImplLanguage::Rust => if language_from_cli {
            Some((true, true))
        } else {
            None
        },
        ModuleImplLanguage::CSharp => Some((false, false)),
    }
}

/// The description a new module is offered: `Fusion module <id>`.
pub fn default_description(id: &str) -> (d: String)
    ensures
        d@ == "Fusion module "@ + id@,
{
    let mut v = chars_of("Fusion module ");
    push_str(&mut v, id);
    string_from_chars(&v)
}

/// The directory a new module package is offered: `fusion-<id>-mod`.
pub fn default_directory(id: &str) -> (d: String)
    ensures
        d@ == spec_npm_package_name(id@),
{
    npm_package_name(id)
}

/// The package name suggested once a module package is created: the npm
/// name for TypeScript modules, the C# namespace for C# modules, the
/// Python name otherwise.
pub fn suggested_package(language: ModuleImplLanguage, id: &str) -> (name: String)
    ensures
        name@ == (match language {
            ModuleImplLanguage::TypeScript => spec_npm_package_name(id@),
            ModuleImplLanguage::CSharp => spec_csharp_package_name(id@),
            _ => spec_python_package_name(id@),
        }),
{
    match language {
        ModuleImplLanguage::TypeScript => npm_package_name(id),
        ModuleImplLanguage::CSharp => csharp_package_name(id),
        _ => python_package_name(id),
    }
}

/// The build commands a new module package declares.
pub fn default_build(language: ModuleImplLanguage, target_python: bool, target_typescript: bool) -> (b: ModuleBuild)
    ensures
        build_view(b) == spec_default_build(language, target_python, target_typescript),
{
    match language {
        ModuleImplLanguage::Python => ModuleBuild {
            python: Some(text("pip install -e .")),
            typescript: None,
            rust: None,
            csharp: None,
        },
        ModuleImplLanguage::TypeScript => ModuleBuild {
            python: None,
            typescript: Some(text("npm install && npm run build")),
            rust: None,
            csharp: None,
        },
        ModuleImplLanguage::Rust => ModuleBuild {
            rust: Some(text("cargo build --release")),
            python: opt_string(target_python, text("maturin develop --release -m bindings/python/Cargo.toml")),
            typescript: opt_string(
                target_typescript,
                text("npm install --prefix bindings/node && npm run build --prefix bindings/node"),
            ),
            csharp: None,
        },
        ModuleImplLanguage::CSharp => ModuleBuild {
            python: None,
            typescript: None,
            rust: None,
            csharp: Some(text("dotnet build")),
        },
    }
}

/// The manifest of a new module package, whose id comes from its name.
pub fn scaffold_manifest(options: &ModuleInitOptions) -> (r: Result<ModuleManifest, ScaffoldError>)
    ensures
        r is Err <==> !spec_has_target(options.language, options.target_python, options.target_typescript),
        match r {
            Ok(m) => spec_scaffold_manifest(*options, spec_id_from_lowercase(spec_lowercase(options.name@)), m),
            Err(e) => e == ScaffoldError::NoTarget && !spec_has_target(
                options.language,
                options.target_python,
                options.target_typescript,
            ),
        },
{
    let id = module_id(options.name.as_str());
    let (target_python, target_typescript) = targets(
        options.language,
        options.target_python,
        options.target_typescript,
    )?;
    let py_package = python_package_name(id.as_str());
    let npm_package = npm_package_name(id.as_str());
    let cs_package = csharp_package_name(id.as_str());
    let is_csharp = matches!(options.language, ModuleImplLanguage::CSharp);
    let manifest = ModuleManifest {
        module: ModuleMeta {
            id,
            name: options.name.clone(),
            version: text(INITIAL_VERSION),
            description: options.description.clone(),
            impl_: ModuleImpl { language: options.language },
            targets: ModuleTargets { python: target_python, typescript: target_typescript, csharp: is_csharp },
            entry: ModuleEntry {
                python: opt_string(target_python, py_package),
                typescript: opt_string(target_typescript, npm_package),
                csharp: opt_string(is_csharp, cs_package),
            },
            build: default_build(options.language, target_python, target_typescript),
        },
    };
    Ok(manifest)
}

/// The README of a new module package.
pub fn readme_template(
    id: &str,
    py_package: &str,
    npm_package: &str,
    description: &str,
    language: ModuleImplLanguage,
) -> (readme: String)
    ensures
        readme@ == spec_readme(id@, py_package@, npm_package@, description@, language),
{
    let mut v = chars_of(README_TITLE);
    push_str(&mut v, id);
    push_str(&mut v, README_AFTER_TITLE);
    push_str(&mut v, description);
    push_str(&mut v, README_AFTER_DESCRIPTION);
    push_str(&mut v, py_package);
    push_str(&mut v, README_AFTER_PY_PACKAGE);
    push_str(&mut v, npm_package);
    push_str(&mut v, README_AFTER_NPM_PACKAGE);
    push_str(&mut v, language.as_str());
    push_str(&mut v, README_AFTER_LANGUAGE);
    match language {
        ModuleImplLanguage::TypeScript => {
            push_str(&mut v, USAGE_TS_HEAD);
            push_str(&mut v, npm_package);
            push_str(&mut v, USAGE_TS_TAIL);
        },
        ModuleImplLanguage::CSharp => {
            push_str(&mut v, USAGE_CS_HEAD);
            push_all(&mut v, &chars_of(csharp_package_name(id).as_str()));
            push_str(&mut v, USAGE_CS_TAIL);
        },
        _ => {
            push_str(&mut v, USAGE_PY_HEAD);
            push_str(&mut v, py_package);
            push_str(&mut v, USAGE_PY_TAIL);
        },
    }
    push_str(&mut v, README_AFTER_USAGE);
    push_str(&mut v, id);
    push_str(&mut v, README_END);
    string_from_chars(&v)
}

/// The `.gitignore` of a new module package.
pub fn gitignore_template(language: ModuleImplLanguage) -> (content: &'static str)
    ensures
        content@ == spec_gitignore(language),
{
    match language {
        ModuleImplLanguage::Python => PYTHON_MODULE_GITIGNORE,
        ModuleImplLanguage::TypeScript => TYPESCRIPT_MODULE_GITIGNORE,
        ModuleImplLanguage::Rust => RUST_MODULE_GITIGNORE,
        ModuleImplLanguage::CSharp => CSHARP_MODULE_GITIGNORE,
    }
}

/// A new module package: its manifest and the files written beside it
/// (README, `.gitignore`, sources), for a module whose id comes from its
/// name.
pub fn scaffold_package(options: &ModuleInitOptions) -> (r: Result<
    (ModuleManifest, Vec<(String, String)>),
    ScaffoldError,
>)
    ensures
        r is Err <==> !spec_has_target(options.language, options.target_python, options.target_typescript),
        match r {
            Ok((m, files)) => {
                let id = spec_id_from_lowercase(spec_lowercase(options.name@));
                spec_scaffold_manifest(*options, id, m) && file_views(files@) == spec_package_files(
                    *options,
                    id,
                )
            },
            Err(e) => e == ScaffoldError::NoTarget && !spec_has_target(
                options.language,
                options.target_python,
                options.target_typescript,
            ),
        },
{
    let manifest = scaffold_manifest(options)?;
    let id = manifest.module.id.as_str();
    let py_package = python_package_name(id);
    let npm_package = npm_package_name(id);
    let readme = readme_template(
        id,
        py_package.as_str(),
        npm_package.as_str(),
        options.description.as_str(),
        options.language,
    );
    let mut files: Vec<(String, String)> = Vec::new();
    files.push((text("README.md"), readme));
    files.push((text(".gitignore"), text(gitignore_template(options.language))));
    let mut sources = module_files(
        options.language,
        id,
        manifest.module.targets.python,
        manifest.module.targets.typescript,
    );
    let ghost head = file_views(files@);
    let ghost tail = file_views(sources@);
    files.append(&mut sources);
    assert(file_views(files@) =~= head + tail);
    Ok((manifest, files))
}

// ---------------------------------------------------------------------------
// Laws
// ---------------------------------------------------------------------------

proof fn lemma_trim_without_ws(s: Seq<char>)
    requires
        forall|i: int| 0 <= i < s.len() ==> !is_ws(#[trigger] s[i]),
    ensures
        trim(s) == s,
{
    if s.len() > 0 {
        assert(!is_ws(s[0]));
        assert(!is_ws(s.last()));
    }
}

/// A module package laid out for a valid id and a non-blank name carries a
/// manifest that `fusion add` accepts, and that manifest targets the hosts
/// it declares entries for.
pub proof fn scaffolded_manifest_is_valid(o: ModuleInitOptions, id: Seq<char>, m: ModuleManifest)
    requires
        spec_scaffold_manifest(o, id, m),
        spec_valid_id(id),
        trim(o.name@).len() > 0,
        spec_has_target(o.language, o.target_python, o.target_typescript),
    ensures
        spec_validate(m) == Ok::<(), crate::manifest::ManifestError>(()),
{
    assert forall|i: int| 0 <= i < id.len() implies !is_ws(#[trigger] id[i]) by {
        assert(crate::manifest::is_id_char(id[i]));
    }
    lemma_trim_without_ws(id);
    reveal_strlit("0.1.0");
    assert forall|i: int| 0 <= i < INITIAL_VERSION@.len() implies !is_ws(#[trigger] INITIAL_VERSION@[i]) by {}
    lemma_trim_without_ws(INITIAL_VERSION@);
    reveal_strlit("fusion_");
    reveal_strlit("fusion-");
    assert(spec_python_package_name(id).len() > 0);
    assert(spec_npm_package_name(id).len() > 0);
    reveal_strlit("Fusion");
    assert(spec_csharp_package_name(id).len() > 0);
}

} // verus!
