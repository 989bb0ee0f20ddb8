//! The starting layout of a new project: entry point, settings and example
//! module templates, and the package files each language needs.

use vstd::prelude::*;
use crate::config::{spec_language_extension, FUSION_FRAMEWORK_VERSION, Language};
use crate::text::{chars_of, push_all, push_str, replace_char, replace_char_exec, starts_with, slice_chars, string_from_chars};

verus! {

/// Text in a template that stands for the project's name.
pub const PROJECT_NAME_PLACEHOLDER: &'static str = "__PROJECT_NAME__";

/// Directories every new project starts with; `src/modules` also creates `src`.
pub const DIRECTORIES: [&'static str; 3] = ["core", "src/modules", "src/modules/products"];

/// Entry point of a new Python project.
pub const PYTHON_MAIN: &'static str = r#"
"""Entry point: register routes, middleware, and start the server."""

import src.modules.products.products  # registers @router classes

from fusion_framework.app import FusionApp
from fusion_framework.config import get_settings, load_settings_module

# Global middleware (optional).
# Each item: (request, call_next) -> response | call_next(request)
# Example:
#   from fusion_framework import bearer_jwt
#   MIDDLEWARE = [bearer_jwt()]
MIDDLEWARE: list = []


def main() -> None:
    load_settings_module("settings")
    app = FusionApp(get_settings())
    for middleware in MIDDLEWARE:
        app.use(middleware)
    app.listen()


if __name__ == "__main__":
    main()

"#;

/// Example products module of a new Python project.
pub const PYTHON_PRODUCTS: &'static str = r#"
# Fusion Framework
# Docs:     https://fusion.cipherunit.xyz/
# Desktop:  https://fusion.cipherunit.xyz/en/gui
# CLI tool: https://github.com/cipherunits/fusion-tool


from fusion_framework.api import FusionBaseApi
from fusion_framework.route import route
from fusion_framework import status

@route(
      "api/[module]/",
      tags=["swagger"],
      desc="Fusion Framework Api",
      version="v1",
      deprecated=False
      )
class ProductModule(FusionBaseApi):
    """Product management module."""

    def get(self):
        return self.response({"products_id": 12},status=status.HTTP_SUCCESS)

    def post(self):
            return self.response({"products_id": 12},status=status.HTTP_201_CREATED)
    
    def delete(self):
            return self.response({"products_id": 12},status=status.HTTP_204_NO_CONTENT)
    
    def patch(self):
            return self.response({"products_id": 12},status=status.HTTP_SUCCESS)
        
"#;

/// `core/settings.py` of a new Python project.
pub const PYTHON_SETTINGS: &'static str = r#"
# Docs: https://fusion.cipherunit.xyz/

# Fusion Framework Settings
# --------------------------------------------
# This file contains the core configuration
# for your application.
#
# License: MIT License
# You are free to use, modify, and distribute.


# variables or external config providers.
from fusion_framework import settings


# Never expose your secret key in public repositories
SECRET_KEY = settings.get("secret_key")

# Enable debug mode (DO NOT use True in production)
DEBUG = settings.get("debug", default=False)

"#;

/// Entry point of a new TypeScript project.
pub const TYPESCRIPT_MAIN: &'static str = r#"
/**
 * Entry point: register routes, middleware, and start the server.
 */
import "./src/modules/products/products";

import { FusionApp, getSettings, settings } from "fusion-framework";

// Global middleware (optional). Framework ships with none by default.
// Example: import { bearerJwt } from "fusion-framework"; const MIDDLEWARE = [bearerJwt()];
const MIDDLEWARE: Array<(req: any, next: any) => any> = [];

async function main() {
  settings.ensureLoaded([process.cwd()]);
  const app = new FusionApp(getSettings());
  for (const mw of MIDDLEWARE) app.use(mw);
  await app.listen();
}

main().catch((err) => {
  console.error(err);
  process.exit(1);
});
"#;

/// Example products module of a new TypeScript project.
pub const TYPESCRIPT_PRODUCTS: &'static str = r#"
// Fusion Framework
// Docs:     https://fusion.cipherunit.xyz/
// Desktop:  https://fusion.cipherunit.xyz/en/gui
// CLI tool: https://github.com/cipherunits/fusion-tool

import { FusionBaseApi, route, status } from "fusion-framework";

export const ProductModule = route("api/[module]/", {
  tags: ["swagger"],
  desc: "Fusion Framework Api",
  version: "v1",
  deprecated: false,
})(
  class ProductModule extends FusionBaseApi {
    get() {
      return this.response({ products_id: 12 }, status.HTTP_SUCCESS);
    }

    post() {
      return this.response({ products_id: 12 }, status.HTTP_201_CREATED);
    }

    delete() {
      return this.response({ products_id: 12 }, status.HTTP_204_NO_CONTENT);
    }

    patch() {
      return this.response({ products_id: 12 }, status.HTTP_SUCCESS);
    }
  },
);
"#;

/// `core/settings.ts` of a new TypeScript project.
pub const TYPESCRIPT_SETTINGS: &'static str = r#"
// Fusion Framework Settings
// Values come from fusion.<env>.json (FUSION_ENV, default: dev).

import { settings } from "fusion-framework";

settings.ensureLoaded();

export const SECRET_KEY = settings.get("secret_key");
export const DEBUG = settings.get("debug", false);
"#;

/// Entry point of a new ASP.NET Core project.
pub const CSHARP_MAIN: &'static str = r#"
// Fusion Framework entry point
using System.Collections.Generic;
using FusionFramework;

// Global middleware (optional). Framework ships with none by default.
// Example: MIDDLEWARE.Add(Middleware.BearerJwt());
static class Program
{
    static readonly List<FusionMiddleware> MIDDLEWARE = new();

    static void Main()
    {
        Route.RegisterAll(typeof(Program).Assembly);
        SettingsStore.Current.EnsureLoaded(System.IO.Directory.GetCurrentDirectory());
        using var app = new FusionApp(SettingsStore.GetSettings());
        foreach (var mw in MIDDLEWARE)
            app.Use(mw);
        app.Listen();
    }
}
"#;

/// Example products module of a new ASP.NET Core project.
pub const CSHARP_PRODUCTS: &'static str = r#"
// Fusion Framework
// Docs:     https://fusion.cipherunit.xyz/
// Desktop:  https://fusion.cipherunit.xyz/en/gui
// CLI tool: https://github.com/cipherunits/fusion-tool

using FusionFramework;

namespace Products;

[Route("api/[module]", Tags = new[] { "swagger" }, Desc = "Fusion Framework Api", Version = "v1")]
public class ProductModule : FusionBaseApi
{
    public object Get() =>
        Response(new { products_id = 12 }, Status.HTTP_SUCCESS);

    public object Post() =>
        Response(new { products_id = 12 }, Status.HTTP_201_CREATED);

    public object Delete() =>
        Response(new { products_id = 12 }, Status.HTTP_204_NO_CONTENT);

    public object Patch() =>
        Response(new { products_id = 12 }, Status.HTTP_SUCCESS);
}
"#;

/// `core/settings.cs` of a new ASP.NET Core project.
pub const CSHARP_SETTINGS: &'static str = r#"
// Fusion Framework Settings
// Values come from fusion.<env>.json (FUSION_ENV, default: dev).

using FusionFramework;

public static class CoreSettings
{
    static CoreSettings()
    {
        SettingsStore.Current.EnsureLoaded();
    }

    public static object? SecretKey => SettingsStore.Current.Get("secret_key");
    public static object? Debug => SettingsStore.Current.Get("debug", false);
}
"#;

/// `package.json` of a new TypeScript project, up to the project's name.
pub const PACKAGE_JSON_HEAD: &'static str = r#"{
  "name": ""#;

/// `package.json` between the project's name and the framework version.
pub const PACKAGE_JSON_MIDDLE: &'static str = r#"",
  "version": "0.1.0",
  "private": true,
  "type": "module",
  "scripts": {
    "dev": "tsx main.ts",
    "start": "tsx main.ts"
  },
  "dependencies": {
    "fusion-framework": ""#;

/// `package.json` after the framework version.
pub const PACKAGE_JSON_TAIL: &'static str = r#""
  },
  "devDependencies": {
    "tsx": "^4.19.0",
    "typescript": "^5.6.0"
  }
}
"#;

/// `tsconfig.json` of a new TypeScript project.
pub const TSCONFIG_JSON: &'static str = r#"{
  "compilerOptions": {
    "target": "ES2022",
    "module": "NodeNext",
    "moduleResolution": "NodeNext",
    "strict": true,
    "esModuleInterop": true,
    "skipLibCheck": true,
    "outDir": "dist"
  },
  "include": ["**/*.ts"]
}
"#;

/// Project file of a new ASP.NET Core project, up to its root namespace.
pub const CSPROJ_HEAD: &'static str = r#"<Project Sdk="Microsoft.NET.Sdk">
  <PropertyGroup>
    <OutputType>Exe</OutputType>
    <TargetFramework>net8.0</TargetFramework>
    <ImplicitUsings>enable</ImplicitUsings>
    <Nullable>enable</Nullable>
    <RootNamespace>"#;

/// Project file between the root namespace and the framework version.
pub const CSPROJ_MIDDLE: &'static str = r#"</RootNamespace>
    <AutomaticallyUseReferenceAssemblyPackages>false</AutomaticallyUseReferenceAssemblyPackages>
  </PropertyGroup>
  <ItemGroup>
    <!-- Prefer the published NuGet package when available. -->
    <PackageReference Include="FusionFramework" Version=""#;

/// Project file after the framework version.
pub const CSPROJ_TAIL: &'static str = r#"" />
  </ItemGroup>
</Project>
"#;

// ---------------------------------------------------------------------------
// Templates
// ---------------------------------------------------------------------------

/// Entry point, settings and products templates of a language.
pub open spec fn spec_templates(language: Language) -> (Seq<char>, Seq<char>, Seq<char>) {
    match language {
        Language::Python => (PYTHON_MAIN@, PYTHON_SETTINGS@, PYTHON_PRODUCTS@),
        Language::TypeScript => (TYPESCRIPT_MAIN@, TYPESCRIPT_SETTINGS@, TYPESCRIPT_PRODUCTS@),
        Language::AspNetCore => (CSHARP_MAIN@, CSHARP_SETTINGS@, CSHARP_PRODUCTS@),
    }
}

/// Entry point, settings and products templates for a language.
pub fn templates(language: Language) -> (t: (&'static str, &'static str, &'static str))
    ensures
        (t.0@, t.1@, t.2@) == spec_templates(language),
{
    match language {
        Language::Python => (PYTHON_MAIN, PYTHON_SETTINGS, PYTHON_PRODUCTS),
        Language::TypeScript => (TYPESCRIPT_MAIN, TYPESCRIPT_SETTINGS, TYPESCRIPT_PRODUCTS),
        Language::AspNetCore => (CSHARP_MAIN, CSHARP_SETTINGS, CSHARP_PRODUCTS),
    }
}

/// The example products module template of a language.
pub fn products_template(language: Language) -> (t: &'static str)
    ensures
        t@ == spec_templates(language).2,
{
    match language {
        Language::Python => PYTHON_PRODUCTS,
        Language::TypeScript => TYPESCRIPT_PRODUCTS,
        Language::AspNetCore => CSHARP_PRODUCTS,
    }
}

/// `s` with every occurrence of the non-empty `pat` replaced by `rep`,
/// scanning left to right without overlaps (`str::replace`).
pub open spec fn replace_all(s: Seq<char>, pat: Seq<char>, rep: Seq<char>) -> Seq<char>
    decreases s.len(),
{
    if pat.len() == 0 || s.len() == 0 {
        s
    } else if pat.is_prefix_of(s) {
        rep + replace_all(s.skip(pat.len() as int), pat, rep)
    } else {
        seq![s[0]] + replace_all(s.drop_first(), pat, rep)
    }
}

/// A template with the project's name put in place of the placeholder.
pub open spec fn spec_render(template: Seq<char>, project_name: Seq<char>) -> Seq<char> {
    replace_all(template, PROJECT_NAME_PLACEHOLDER@, project_name)
}

/// Puts the project's name in place of every placeholder of a template.
pub fn render(template: &str, project_name: &str) -> (r: String)
    ensures
        r@ == spec_render(template@, project_name@),
{
    let s = chars_of(template);
    let pat = chars_of(PROJECT_NAME_PLACEHOLDER);
    let rep = chars_of(project_name);
    proof {
        reveal_strlit("__PROJECT_NAME__");
    }
    let mut out: Vec<char> = Vec::new();
    let mut i: usize = 0;
    assert(s@.skip(0) =~= s@);
    assert(out@ + replace_all(s@, pat@, rep@) =~= replace_all(s@, pat@, rep@));
    while i < s.len()
        invariant
            i <= s.len(),
            pat@ == PROJECT_NAME_PLACEHOLDER@,
            pat@.len() > 0,
            replace_all(s@, pat@, rep@) == out@ + replace_all(s@.skip(i as int), pat@, rep@),
        decreases s.len() - i,
    {
        let rest = slice_chars(&s, i, s.len());
        assert(rest@ =~= s@.skip(i as int));
        let ghost before = out@;
        if starts_with(&rest, &pat) {
            push_all(&mut out, &rep);
            proof {
                assert(s@.skip(i as int).skip(pat@.len() as int) =~= s@.skip(i + pat@.len()));
                assert(before + (rep@ + replace_all(s@.skip(i + pat@.len()), pat@, rep@)) =~= out@
                    + replace_all(s@.skip(i + pat@.len()), pat@, rep@));
            }
            i = i + pat.len();
        } else {
            out.push(s[i]);
            proof {
                assert(s@.skip(i as int).drop_first() =~= s@.skip(i + 1));
                assert(s@.skip(i as int)[0] == s@[i as int]);
                assert(before + (seq![s@[i as int]] + replace_all(s@.skip(i + 1), pat@, rep@))
                    =~= out@ + replace_all(s@.skip(i + 1), pat@, rep@));
            }
            i = i + 1;
        }
    }
    proof {
        assert(replace_all(s@.skip(i as int), pat@, rep@) =~= s@.skip(i as int));
    }
    string_from_chars(&out)
}

proof fn lemma_replace_all_absent(s: Seq<char>, pat: Seq<char>, rep: Seq<char>)
    requires
        pat.len() > 0,
        forall|i: int| 0 <= i <= s.len() - pat.len() ==> #[trigger] s.subrange(i, i + pat.len()) != pat,
    ensures
        replace_all(s, pat, rep) == s,
    decreases s.len(),
{
    if s.len() > 0 {
        if pat.len() <= s.len() {
            let z: int = 0;
            assert(s.subrange(z, z + pat.len()) != pat);
            assert(!pat.is_prefix_of(s));
        }
        let t = s.drop_first();
        assert forall|i: int| 0 <= i <= t.len() - pat.len() implies #[trigger] t.subrange(i, i + pat.len()) != pat by {
            assert(t.subrange(i, i + pat.len()) =~= s.subrange(i + 1, i + 1 + pat.len()));
        }
        lemma_replace_all_absent(t, pat, rep);
        assert(seq![s[0]] + t =~= s);
    }
}

/// A template without the placeholder is written out unchanged, whatever the
/// project is called.
pub proof fn render_keeps_text_without_placeholder(template: Seq<char>, project_name: Seq<char>)
    requires
        !crate::text::contains_seq(template, PROJECT_NAME_PLACEHOLDER@),
    ensures
        spec_render(template, project_name) == template,
{
    reveal_strlit("__PROJECT_NAME__");
    lemma_replace_all_absent(template, PROJECT_NAME_PLACEHOLDER@, project_name);
}

// ---------------------------------------------------------------------------
// Package files
// ---------------------------------------------------------------------------

/// The package files (name and content) a new project of `language` gets
/// besides its sources: `package.json` and `tsconfig.json` for TypeScript,
/// `<name>.csproj` for ASP.NET Core, none for Python.
pub open spec fn spec_language_project_files(language: Language, project_name: Seq<char>) -> Seq<(Seq<char>, Seq<char>)> {
    match language {
        Language::Python => seq![],
        Language::TypeScript => seq![
            ("package.json"@, PACKAGE_JSON_HEAD@ + project_name + PACKAGE_JSON_MIDDLE@ + FUSION_FRAMEWORK_VERSION@ + PACKAGE_JSON_TAIL@),
            ("tsconfig.json"@, TSCONFIG_JSON@),
        ],
        Language::AspNetCore => seq![
            (project_name + ".csproj"@, CSPROJ_HEAD@ + replace_char(project_name, '-', "_"@) + CSPROJ_MIDDLE@ + FUSION_FRAMEWORK_VERSION@ + CSPROJ_TAIL@),
        ],
    }
}

pub open spec fn file_views(files: Seq<(String, String)>) -> Seq<(Seq<char>, Seq<char>)> {
    Seq::new(files.len(), |i: int| (files[i].0@, files[i].1@))
}

fn text_of(lit: &str) -> (s: String)
    ensures
        s@ == lit@,
{
    string_from_chars(&chars_of(lit))
}

/// The package files a new project of `language` gets besides its sources.
pub fn write_language_project_files(language: Language, project_name: &str) -> (files: Vec<(String, String)>)
    ensures
        file_views(files@) == spec_language_project_files(language, project_name@),
{
    let mut files: Vec<(String, String)> = Vec::new();
    match language {
        Language::Python => {},
        Language::TypeScript => {
            let mut v = chars_of(PACKAGE_JSON_HEAD);
            push_str(&mut v, project_name);
            push_str(&mut v, PACKAGE_JSON_MIDDLE);
            push_str(&mut v, FUSION_FRAMEWORK_VERSION);
            push_str(&mut v, PACKAGE_JSON_TAIL);
            files.push((text_of("package.json"), string_from_chars(&v)));
            files.push((text_of("tsconfig.json"), text_of(TSCONFIG_JSON)));
        },
        Language::AspNetCore => {
            let mut name = chars_of(project_name);
            push_str(&mut name, ".csproj");
            let mut v = chars_of(CSPROJ_HEAD);
            push_all(&mut v, &replace_char_exec(&chars_of(project_name), '-', "_"));
            push_str(&mut v, CSPROJ_MIDDLE);
            push_str(&mut v, FUSION_FRAMEWORK_VERSION);
            push_str(&mut v, CSPROJ_TAIL);
            files.push((string_from_chars(&name), string_from_chars(&v)));
        },
    }
    assert(file_views(files@) =~= spec_language_project_files(language, project_name@));
    files
}

// ---------------------------------------------------------------------------
// All files of a new project
// ---------------------------------------------------------------------------

/// Every file a new project of `language` starts with, in the order they
/// are written: entry point, settings and products module (each rendered
/// with the project's name and named with the language's extension), then
/// the package files.
pub open spec fn spec_project_files(language: Language, project_name: Seq<char>) -> Seq<(Seq<char>, Seq<char>)> {
    let ext = spec_language_extension(language);
    let (main, settings, products) = spec_templates(language);
    seq![
        ("main"@ + ext, spec_render(main, project_name)),
        ("core/settings"@ + ext, spec_render(settings, project_name)),
        ("src/modules/products/products"@ + ext, spec_render(products, project_name)),
    ] + spec_language_project_files(language, project_name)
}

fn named(prefix: &str, extension: &str) -> (s: String)
    ensures
        s@ == prefix@ + extension@,
{
    let mut v = chars_of(prefix);
    push_str(&mut v, extension);
    string_from_chars(&v)
}

/// The files of a new project, paths relative to the project directory.
pub fn project_files(language: Language, project_name: &str) -> (files: Vec<(String, String)>)
    ensures
        file_views(files@) == spec_project_files(language, project_name@),
{
    let (main, settings, products) = templates(language);
    let extension = language.extension();
    let mut files: Vec<(String, String)> = Vec::new();
    files.push((named("main", extension), render(main, project_name)));
    files.push((named("core/settings", extension), render(settings, project_name)));
    files.push((named("src/modules/products/products", extension), render(products, project_name)));
    let ghost head = file_views(files@);
    let mut rest = write_language_project_files(language, project_name);
    let ghost tail = file_views(rest@);
    files.append(&mut rest);
    assert(file_views(files@) =~= head + tail);
    files
}

/// Each language's project starts with its own entry point, settings and
/// products templates, rendered with the project's name, in `main`,
/// `core/settings` and `src/modules/products/products` with the language's
/// extension.
pub proof fn project_files_use_their_templates(n: Seq<char>)
    ensures
        spec_project_files(Language::Python, n)[0] == ("main"@ + ".py"@, spec_render(PYTHON_MAIN@, n)),
        spec_project_files(Language::Python, n)[1] == ("core/settings"@ + ".py"@, spec_render(PYTHON_SETTINGS@, n)),
        spec_project_files(Language::Python, n)[2] == (
            "src/modules/products/products"@ + ".py"@,
            spec_render(PYTHON_PRODUCTS@, n),
        ),
        spec_project_files(Language::TypeScript, n)[0] == ("main"@ + ".ts"@, spec_render(TYPESCRIPT_MAIN@, n)),
        spec_project_files(Language::TypeScript, n)[1] == (
            "core/settings"@ + ".ts"@,
            spec_render(TYPESCRIPT_SETTINGS@, n),
        ),
        spec_project_files(Language::TypeScript, n)[2] == (
            "src/modules/products/products"@ + ".ts"@,
            spec_render(TYPESCRIPT_PRODUCTS@, n),
        ),
        spec_project_files(Language::AspNetCore, n)[0] == ("main"@ + ".cs"@, spec_render(CSHARP_MAIN@, n)),
        spec_project_files(Language::AspNetCore, n)[1] == (
            "core/settings"@ + ".cs"@,
            spec_render(CSHARP_SETTINGS@, n),
        ),
        spec_project_files(Language::AspNetCore, n)[2] == (
            "src/modules/products/products"@ + ".cs"@,
            spec_render(CSHARP_PRODUCTS@, n),
        ),
{
}

} // verus!
