//! The source files of a new module package, by implementation language
//! and host targets: names relative to the package root, and contents.

use vstd::prelude::*;
use crate::manifest::{
    csharp_package_name, spec_csharp_package_name,
    ModuleImplLanguage, npm_package_name, python_package_name, spec_npm_package_name,
    spec_python_package_name,
};
use crate::structure::file_views;
use crate::text::{chars_of, push_str, string_from_chars};

verus! {

/// Extra workspace member of a Rust module that targets python.
pub const PYTHON_MEMBER: &'static str = ", \"bindings/python\"";

/// Extra workspace member of a Rust module that targets typescript.
pub const NODE_MEMBER: &'static str = ", \"bindings/node\"";

/// Fixed text of the `pyproject.toml` of a Python module.
pub const PY_PYPROJECT_0: &'static str = r#"[build-system]
requires = ["setuptools>=68", "wheel"]
build-backend = "setuptools.build_meta"

[project]
name = ""#;

/// Fixed text of the `pyproject.toml` of a Python module.
pub const PY_PYPROJECT_1: &'static str = r#""
version = "0.1.0"
description = "Fusion module "#;

/// Fixed text of the `pyproject.toml` of a Python module.
pub const PY_PYPROJECT_2: &'static str = r#""
requires-python = ">=3.10"
dependencies = []

[tool.setuptools.packages.find]
where = ["python"]
"#;

/// Fixed text of the `__init__.py` of a Python module.
pub const PY_INIT_0: &'static str = r#""""Fusion module `"#;

/// Fixed text of the `__init__.py` of a Python module.
pub const PY_INIT_1: &'static str = r#"` — importable package for Fusion apps."""

from .hello import hello

__all__ = ["hello"]
"#;

/// Fixed text of the `hello.py` of a Python module.
pub const PY_HELLO_0: &'static str = r#""""Public helpers for the `"#;

/// Fixed text of the `hello.py` of a Python module.
pub const PY_HELLO_1: &'static str = r#"` module."""


def hello(name: str = "Fusion") -> str:
    """Example function — replace with your own package API."""
    return f"Hello, {name}! (from "#;

/// Fixed text of the `hello.py` of a Python module.
pub const PY_HELLO_2: &'static str = r#")"
"#;

/// Fixed text of the `package.json` of a TypeScript module.
pub const TS_PACKAGE_JSON_0: &'static str = r#"{
  "name": ""#;

/// Fixed text of the `package.json` of a TypeScript module.
pub const TS_PACKAGE_JSON_1: &'static str = r#"",
  "version": "0.1.0",
  "description": "Fusion module "#;

/// Fixed text of the `package.json` of a TypeScript module.
pub const TS_PACKAGE_JSON_2: &'static str = r#"",
  "main": "js/index.js",
  "types": "js/index.d.ts",
  "scripts": {
    "build": "tsc -p tsconfig.json"
  },
  "devDependencies": {
    "typescript": "^5.6.0",
    "@types/node": "^22.0.0"
  }
}
"#;

/// Fixed text of the `tsconfig.json` of a TypeScript module.
pub const TS_TSCONFIG: &'static str = r#"{
  "compilerOptions": {
    "target": "ES2020",
    "module": "CommonJS",
    "declaration": true,
    "outDir": "js",
    "rootDir": "src",
    "strict": true,
    "esModuleInterop": true,
    "skipLibCheck": true
  },
  "include": ["src/**/*"]
}
"#;

/// Fixed text of the `src/index.ts` of a TypeScript module.
pub const TS_INDEX_TS_0: &'static str = r#"/** Fusion module `"#;

/// Fixed text of the `src/index.ts` of a TypeScript module.
pub const TS_INDEX_TS_1: &'static str = r#"` — importable package for Fusion apps. */

export function hello(name: string = "Fusion"): string {
  return `Hello, ${name}! (from "#;

/// Fixed text of the `src/index.ts` of a TypeScript module.
pub const TS_INDEX_TS_2: &'static str = r#")`;
}
"#;

/// Fixed text of the `js/index.js` of a TypeScript module.
pub const TS_INDEX_JS_0: &'static str = r#""use strict";

/** Fusion module `"#;

/// Fixed text of the `js/index.js` of a TypeScript module.
pub const TS_INDEX_JS_1: &'static str = r#"` — importable package for Fusion apps. */

function hello(name = "Fusion") {
  return `Hello, ${name}! (from "#;

/// Fixed text of the `js/index.js` of a TypeScript module.
pub const TS_INDEX_JS_2: &'static str = r#")`;
}

module.exports = { hello };
"#;

/// Fixed text of the `js/index.d.ts` of a TypeScript module.
pub const TS_INDEX_D_TS: &'static str = r#"export declare function hello(name?: string): string;
"#;

/// Fixed text of the workspace `Cargo.toml` of a Rust module.
pub const RS_WORKSPACE_0: &'static str = r#"[workspace]
members = ["crates/core""#;

/// Fixed text of the workspace `Cargo.toml` of a Rust module.
pub const RS_WORKSPACE_1: &'static str = r#"]
resolver = "2"

[workspace.package]
version = "0.1.0"
edition = "2021"
"#;

/// Fixed text of the `Cargo.toml` of a Rust module's core crate.
pub const RS_CORE_CARGO_0: &'static str = r#"[package]
name = ""#;

/// Fixed text of the `Cargo.toml` of a Rust module's core crate.
pub const RS_CORE_CARGO_1: &'static str = r#""
version.workspace = true
edition.workspace = true

[lib]
path = "src/lib.rs"
"#;

/// Fixed text of the `lib.rs` of a Rust module's core crate.
pub const RS_CORE_LIB_0: &'static str = r#"//! Core logic for the `"#;

/// Fixed text of the `lib.rs` of a Rust module's core crate.
pub const RS_CORE_LIB_1: &'static str = r#"` Fusion module.
//! Keep this crate free of PyO3 / N-API so both bindings can share it.

pub fn hello(name: &str) -> String {
    format!("Hello, {name}! (from "#;

/// Fixed text of the `lib.rs` of a Rust module's core crate.
pub const RS_CORE_LIB_2: &'static str = r#")")
}

#[cfg(test)]
mod tests {
    use super::*;

    #[test]
    fn test_hello() {
        assert!(hello("Fusion").contains(""#;

/// Fixed text of the `lib.rs` of a Rust module's core crate.
pub const RS_CORE_LIB_3: &'static str = r#""));
    }
}
"#;

/// Fixed text of the `Cargo.toml` of a Rust module's Python binding.
pub const RS_PY_CARGO_0: &'static str = r#"[package]
name = ""#;

/// Fixed text of the `Cargo.toml` of a Rust module's Python binding.
pub const RS_PY_CARGO_1: &'static str = r#"_native"
version.workspace = true
edition.workspace = true

[lib]
name = "_native"
crate-type = ["cdylib"]
path = "src/lib.rs"

[dependencies]
"#;

/// Fixed text of the `Cargo.toml` of a Rust module's Python binding.
pub const RS_PY_CARGO_2: &'static str = r#" = { path = "../../crates/core" }
pyo3 = { version = "0.23", features = ["extension-module"] }
"#;

/// Fixed text of the `lib.rs` of a Rust module's Python binding.
pub const RS_PY_LIB_0: &'static str = r#"use pyo3::prelude::*;

#[pyfunction]
#[pyo3(signature = (name="Fusion"))]
fn hello(name: &str) -> String {
    "#;

/// Fixed text of the `lib.rs` of a Rust module's Python binding.
pub const RS_PY_LIB_1: &'static str = r#"::hello(name)
}

#[pymodule]
fn _native(m: &Bound<'_, PyModule>) -> PyResult<()> {
    m.add_function(wrap_pyfunction!(hello, m)?)?;
    Ok(())
}
"#;

/// Fixed text of the `pyproject.toml` of a Rust module's Python binding.
pub const RS_PY_PYPROJECT_0: &'static str = r#"[build-system]
requires = ["maturin>=1.7,<2"]
build-backend = "maturin"

[project]
name = ""#;

/// Fixed text of the `pyproject.toml` of a Rust module's Python binding.
pub const RS_PY_PYPROJECT_1: &'static str = r#""
version = "0.1.0"
description = "Fusion module "#;

/// Fixed text of the `pyproject.toml` of a Rust module's Python binding.
pub const RS_PY_PYPROJECT_2: &'static str = r#" (Rust + PyO3)"
requires-python = ">=3.10"
dependencies = []

[tool.maturin]
manifest-path = "Cargo.toml"
module-name = ""#;

/// Fixed text of the `pyproject.toml` of a Rust module's Python binding.
pub const RS_PY_PYPROJECT_3: &'static str = r#"._native"
python-source = "python"
features = ["pyo3/extension-module"]
"#;

/// Fixed text of the `__init__.py` of a Rust module's Python package.
pub const RS_PY_INIT_0: &'static str = r#""""Fusion module `"#;

/// Fixed text of the `__init__.py` of a Rust module's Python package.
pub const RS_PY_INIT_1: &'static str = r#"` (Rust core via PyO3)."""

from . import _native


def hello(name: str = "Fusion") -> str:
    return _native.hello(name)


__all__ = ["hello"]
"#;

/// Fixed text of the `Cargo.toml` of a Rust module's Node binding.
pub const RS_NODE_CARGO_0: &'static str = r#"[package]
name = "fusion-mod-"#;

/// Fixed text of the `Cargo.toml` of a Rust module's Node binding.
pub const RS_NODE_CARGO_1: &'static str = r#"-node"
version.workspace = true
edition.workspace = true

[lib]
crate-type = ["cdylib"]
path = "src/lib.rs"

[dependencies]
"#;

/// Fixed text of the `Cargo.toml` of a Rust module's Node binding.
pub const RS_NODE_CARGO_2: &'static str = r#" = { path = "../../crates/core" }
napi = { version = "2", default-features = false, features = ["napi4"] }
napi-derive = "2"

[build-dependencies]
napi-build = "2"
"#;

/// Fixed text of the `build.rs` of a Rust module's Node binding.
pub const RS_NODE_BUILD: &'static str = r#"fn main() {
    napi_build::setup();
}
"#;

/// Fixed text of the `lib.rs` of a Rust module's Node binding.
pub const RS_NODE_LIB_0: &'static str = r#"#![deny(clippy::all)]

use napi_derive::napi;

#[napi]
pub fn hello(name: Option<String>) -> String {
    "#;

/// Fixed text of the `lib.rs` of a Rust module's Node binding.
pub const RS_NODE_LIB_1: &'static str = r#"::hello(name.as_deref().unwrap_or("Fusion"))
}
"#;

/// Fixed text of the `package.json` of a Rust module's Node binding.
pub const RS_NODE_PACKAGE_JSON_0: &'static str = r#"{
  "name": ""#;

/// Fixed text of the `package.json` of a Rust module's Node binding.
pub const RS_NODE_PACKAGE_JSON_1: &'static str = r#"-native",
  "version": "0.1.0",
  "main": "index.js",
  "types": "index.d.ts",
  "scripts": {
    "build": "napi build --platform --release"
  },
  "devDependencies": {
    "@napi-rs/cli": "^2.18.0"
  }
}
"#;

/// Fixed text of the root `package.json` of a Rust module.
pub const RS_ROOT_PACKAGE_JSON_0: &'static str = r#"{
  "name": ""#;

/// Fixed text of the root `package.json` of a Rust module.
pub const RS_ROOT_PACKAGE_JSON_1: &'static str = r#"",
  "version": "0.1.0",
  "description": "Fusion module "#;

/// Fixed text of the root `package.json` of a Rust module.
pub const RS_ROOT_PACKAGE_JSON_2: &'static str = r#" (Rust + N-API)",
  "main": "js/index.js",
  "scripts": {
    "build": "npm run build --prefix bindings/node"
  }
}
"#;

/// Fixed text of the `js/index.js` of a Rust module.
pub const RS_INDEX_JS_0: &'static str = r#""use strict";

let native;
try {
  native = require("../bindings/node");
} catch {
  native = {
    hello: (name = "Fusion") => `Hello, ${name}! (from "#;

/// Fixed text of the `js/index.js` of a Rust module.
pub const RS_INDEX_JS_1: &'static str = r#")`,
  };
}

function hello(name = "Fusion") {
  return native.hello(name);
}

module.exports = { hello };
"#;

/// Fixed text of the `js/index.d.ts` of a Rust module.
pub const RS_INDEX_D_TS: &'static str = r#"export declare function hello(name?: string): string;
"#;

/// The names a module package's files are written with.
pub struct NamesView {
    pub id: Seq<char>,
    pub package: Seq<char>,
    pub npm: Seq<char>,
    pub cs: Seq<char>,
    pub python: bool,
    pub typescript: bool,
}

/// The names of a module package: its id, Python package, npm package and
/// the hosts it targets.
pub struct Names {
    pub id: String,
    pub package: String,
    pub npm: String,
    pub cs: String,
    pub python: bool,
    pub typescript: bool,
}

impl View for Names {
    type V = NamesView;

    open spec fn view(&self) -> NamesView {
        NamesView {
            id: self.id@,
            package: self.package@,
            npm: self.npm@,
            cs: self.cs@,
            python: self.python,
            typescript: self.typescript,
        }
    }
}

pub open spec fn spec_python_member(n: NamesView) -> Seq<char> {
    if n.python { PYTHON_MEMBER@ } else { ""@ }
}

pub open spec fn spec_node_member(n: NamesView) -> Seq<char> {
    if n.typescript { NODE_MEMBER@ } else { ""@ }
}

fn python_member(n: &Names) -> (s: &'static str)
    ensures
        s@ == spec_python_member(n@),
{
    if n.python { PYTHON_MEMBER } else { "" }
}

fn node_member(n: &Names) -> (s: &'static str)
    ensures
        s@ == spec_node_member(n@),
{
    if n.typescript { NODE_MEMBER } else { "" }
}

/// Name of the `pyproject.toml` of a Python module.
pub open spec fn spec_py_pyproject_path(n: NamesView) -> Seq<char> {
    "pyproject.toml"@
}

/// Content of the `pyproject.toml` of a Python module.
pub open spec fn spec_py_pyproject(n: NamesView) -> Seq<char> {
    PY_PYPROJECT_0@ + n.package + PY_PYPROJECT_1@ + n.id + PY_PYPROJECT_2@
}

fn file_py_pyproject(n: &Names) -> (f: (String, String))
    ensures
        f.0@ == spec_py_pyproject_path(n@),
        f.1@ == spec_py_pyproject(n@),
{
    let mut p = chars_of("pyproject.toml");
    let mut c = chars_of(PY_PYPROJECT_0);
    push_str(&mut c, n.package.as_str());
    push_str(&mut c, PY_PYPROJECT_1);
    push_str(&mut c, n.id.as_str());
    push_str(&mut c, PY_PYPROJECT_2);
    (string_from_chars(&p), string_from_chars(&c))
}

/// Name of the `__init__.py` of a Python module.
pub open spec fn spec_py_init_path(n: NamesView) -> Seq<char> {
    "python/"@ + n.package + "/__init__.py"@
}

/// Content of the `__init__.py` of a Python module.
pub open spec fn spec_py_init(n: NamesView) -> Seq<char> {
    PY_INIT_0@ + n.id + PY_INIT_1@
}

fn file_py_init(n: &Names) -> (f: (String, String))
    ensures
        f.0@ == spec_py_init_path(n@),
        f.1@ == spec_py_init(n@),
{
    let mut p = chars_of("python/");
    push_str(&mut p, n.package.as_str());
    push_str(&mut p, "/__init__.py");
    let mut c = chars_of(PY_INIT_0);
    push_str(&mut c, n.id.as_str());
    push_str(&mut c, PY_INIT_1);
    (string_from_chars(&p), string_from_chars(&c))
}

/// Name of the `hello.py` of a Python module.
pub open spec fn spec_py_hello_path(n: NamesView) -> Seq<char> {
    "python/"@ + n.package + "/hello.py"@
}

/// Content of the `hello.py` of a Python module.
pub open spec fn spec_py_hello(n: NamesView) -> Seq<char> {
    PY_HELLO_0@ + n.id + PY_HELLO_1@ + n.id + PY_HELLO_2@
}

fn file_py_hello(n: &Names) -> (f: (String, String))
    ensures
        f.0@ == spec_py_hello_path(n@),
        f.1@ == spec_py_hello(n@),
{
    let mut p = chars_of("python/");
    push_str(&mut p, n.package.as_str());
    push_str(&mut p, "/hello.py");
    let mut c = chars_of(PY_HELLO_0);
    push_str(&mut c, n.id.as_str());
    push_str(&mut c, PY_HELLO_1);
    push_str(&mut c, n.id.as_str());
    push_str(&mut c, PY_HELLO_2);
    (string_from_chars(&p), string_from_chars(&c))
}

/// Project file of a C# module, up to its namespace.
pub const CS_PROJECT_0: &'static str = r#"<Project Sdk="Microsoft.NET.Sdk">
  <PropertyGroup>
    <TargetFramework>net8.0</TargetFramework>
    <ImplicitUsings>enable</ImplicitUsings>
    <Nullable>enable</Nullable>
    <RootNamespace>"#;

/// Project file of a C# module, after its namespace.
pub const CS_PROJECT_1: &'static str = r#"</RootNamespace>
  </PropertyGroup>
</Project>
"#;

/// `Module.cs` of a C# module, up to its namespace.
pub const CS_MODULE_0: &'static str = r#"namespace "#;

/// `Module.cs` of a C# module, after its namespace.
pub const CS_MODULE_1: &'static str = r#";

public static class Module
{
    public static string Hello(string name) => $"Hello, {name}!";
}
"#;

/// Name of the project file of a C# module: `<Namespace>.csproj`.
pub open spec fn spec_cs_project_path(n: NamesView) -> Seq<char> {
    n.cs + ".csproj"@
}

/// Content of the project file of a C# module.
pub open spec fn spec_cs_project(n: NamesView) -> Seq<char> {
    CS_PROJECT_0@ + n.cs + CS_PROJECT_1@
}

fn file_cs_project(n: &Names) -> (f: (String, String))
    ensures
        f.0@ == spec_cs_project_path(n@),
        f.1@ == spec_cs_project(n@),
{
    let mut p = chars_of(n.cs.as_str());
    push_str(&mut p, ".csproj");
    let mut c = chars_of(CS_PROJECT_0);
    push_str(&mut c, n.cs.as_str());
    push_str(&mut c, CS_PROJECT_1);
    (string_from_chars(&p), string_from_chars(&c))
}

/// Name of the `Module.cs` of a C# module.
pub open spec fn spec_cs_module_path(n: NamesView) -> Seq<char> {
    "Module.cs"@
}

/// Content of the `Module.cs` of a C# module: `Module.Hello`.
pub open spec fn spec_cs_module(n: NamesView) -> Seq<char> {
    CS_MODULE_0@ + n.cs + CS_MODULE_1@
}

fn file_cs_module(n: &Names) -> (f: (String, String))
    ensures
        f.0@ == spec_cs_module_path(n@),
        f.1@ == spec_cs_module(n@),
{
    let p = chars_of("Module.cs");
    let mut c = chars_of(CS_MODULE_0);
    push_str(&mut c, n.cs.as_str());
    push_str(&mut c, CS_MODULE_1);
    (string_from_chars(&p), string_from_chars(&c))
}

/// Name of the `package.json` of a TypeScript module.
pub open spec fn spec_ts_package_json_path(n: NamesView) -> Seq<char> {
    "package.json"@
}

/// Content of the `package.json` of a TypeScript module.
pub open spec fn spec_ts_package_json(n: NamesView) -> Seq<char> {
    TS_PACKAGE_JSON_0@ + n.npm + TS_PACKAGE_JSON_1@ + n.id + TS_PACKAGE_JSON_2@
}

fn file_ts_package_json(n: &Names) -> (f: (String, String))
    ensures
        f.0@ == spec_ts_package_json_path(n@),
        f.1@ == spec_ts_package_json(n@),
{
    let mut p = chars_of("package.json");
    let mut c = chars_of(TS_PACKAGE_JSON_0);
    push_str(&mut c, n.npm.as_str());
    push_str(&mut c, TS_PACKAGE_JSON_1);
    push_str(&mut c, n.id.as_str());
    push_str(&mut c, TS_PACKAGE_JSON_2);
    (string_from_chars(&p), string_from_chars(&c))
}

/// Name of the `tsconfig.json` of a TypeScript module.
pub open spec fn spec_ts_tsconfig_path(n: NamesView) -> Seq<char> {
    "tsconfig.json"@
}

/// Content of the `tsconfig.json` of a TypeScript module.
pub open spec fn spec_ts_tsconfig(n: NamesView) -> Seq<char> {
    TS_TSCONFIG@
}

fn file_ts_tsconfig(n: &Names) -> (f: (String, String))
    ensures
        f.0@ == spec_ts_tsconfig_path(n@),
        f.1@ == spec_ts_tsconfig(n@),
{
    let mut p = chars_of("tsconfig.json");
    let mut c = chars_of(TS_TSCONFIG);
    (string_from_chars(&p), string_from_chars(&c))
}

/// Name of the `src/index.ts` of a TypeScript module.
pub open spec fn spec_ts_index_ts_path(n: NamesView) -> Seq<char> {
    "src/index.ts"@
}

/// Content of the `src/index.ts` of a TypeScript module.
pub open spec fn spec_ts_index_ts(n: NamesView) -> Seq<char> {
    TS_INDEX_TS_0@ + n.id + TS_INDEX_TS_1@ + n.id + TS_INDEX_TS_2@
}

fn file_ts_index_ts(n: &Names) -> (f: (String, String))
    ensures
        f.0@ == spec_ts_index_ts_path(n@),
        f.1@ == spec_ts_index_ts(n@),
{
    let mut p = chars_of("src/index.ts");
    let mut c = chars_of(TS_INDEX_TS_0);
    push_str(&mut c, n.id.as_str());
    push_str(&mut c, TS_INDEX_TS_1);
    push_str(&mut c, n.id.as_str());
    push_str(&mut c, TS_INDEX_TS_2);
    (string_from_chars(&p), string_from_chars(&c))
}

/// Name of the `js/index.js` of a TypeScript module.
pub open spec fn spec_ts_index_js_path(n: NamesView) -> Seq<char> {
    "js/index.js"@
}

/// Content of the `js/index.js` of a TypeScript module.
pub open spec fn spec_ts_index_js(n: NamesView) -> Seq<char> {
    TS_INDEX_JS_0@ + n.id + TS_INDEX_JS_1@ + n.id + TS_INDEX_JS_2@
}

fn file_ts_index_js(n: &Names) -> (f: (String, String))
    ensures
        f.0@ == spec_ts_index_js_path(n@),
        f.1@ == spec_ts_index_js(n@),
{
    let mut p = chars_of("js/index.js");
    let mut c = chars_of(TS_INDEX_JS_0);
    push_str(&mut c, n.id.as_str());
    push_str(&mut c, TS_INDEX_JS_1);
    push_str(&mut c, n.id.as_str());
    push_str(&mut c, TS_INDEX_JS_2);
    (string_from_chars(&p), string_from_chars(&c))
}

/// Name of the `js/index.d.ts` of a TypeScript module.
pub open spec fn spec_ts_index_d_ts_path(n: NamesView) -> Seq<char> {
    "js/index.d.ts"@
}

/// Content of the `js/index.d.ts` of a TypeScript module.
pub open spec fn spec_ts_index_d_ts(n: NamesView) -> Seq<char> {
    TS_INDEX_D_TS@
}

fn file_ts_index_d_ts(n: &Names) -> (f: (String, String))
    ensures
        f.0@ == spec_ts_index_d_ts_path(n@),
        f.1@ == spec_ts_index_d_ts(n@),
{
    let mut p = chars_of("js/index.d.ts");
    let mut c = chars_of(TS_INDEX_D_TS);
    (string_from_chars(&p), string_from_chars(&c))
}

/// Name of the workspace `Cargo.toml` of a Rust module.
pub open spec fn spec_rs_workspace_path(n: NamesView) -> Seq<char> {
    "Cargo.toml"@
}

/// Content of the workspace `Cargo.toml` of a Rust module.
pub open spec fn spec_rs_workspace(n: NamesView) -> Seq<char> {
    RS_WORKSPACE_0@ + spec_python_member(n) + spec_node_member(n) + RS_WORKSPACE_1@
}

fn file_rs_workspace(n: &Names) -> (f: (String, String))
    ensures
        f.0@ == spec_rs_workspace_path(n@),
        f.1@ == spec_rs_workspace(n@),
{
    let mut p = chars_of("Cargo.toml");
    let mut c = chars_of(RS_WORKSPACE_0);
    push_str(&mut c, python_member(n));
    push_str(&mut c, node_member(n));
    push_str(&mut c, RS_WORKSPACE_1);
    (string_from_chars(&p), string_from_chars(&c))
}

/// Name of the `Cargo.toml` of a Rust module's core crate.
pub open spec fn spec_rs_core_cargo_path(n: NamesView) -> Seq<char> {
    "crates/core/Cargo.toml"@
}

/// Content of the `Cargo.toml` of a Rust module's core crate.
pub open spec fn spec_rs_core_cargo(n: NamesView) -> Seq<char> {
    RS_CORE_CARGO_0@ + n.package + RS_CORE_CARGO_1@
}

fn file_rs_core_cargo(n: &Names) -> (f: (String, String))
    ensures
        f.0@ == spec_rs_core_cargo_path(n@),
        f.1@ == spec_rs_core_cargo(n@),
{
    let mut p = chars_of("crates/core/Cargo.toml");
    let mut c = chars_of(RS_CORE_CARGO_0);
    push_str(&mut c, n.package.as_str());
    push_str(&mut c, RS_CORE_CARGO_1);
    (string_from_chars(&p), string_from_chars(&c))
}

/// Name of the `lib.rs` of a Rust module's core crate.
pub open spec fn spec_rs_core_lib_path(n: NamesView) -> Seq<char> {
    "crates/core/src/lib.rs"@
}

/// Content of the `lib.rs` of a Rust module's core crate.
pub open spec fn spec_rs_core_lib(n: NamesView) -> Seq<char> {
    RS_CORE_LIB_0@ + n.id + RS_CORE_LIB_1@ + n.id + RS_CORE_LIB_2@ + n.id + RS_CORE_LIB_3@
}

fn file_rs_core_lib(n: &Names) -> (f: (String, String))
    ensures
        f.0@ == spec_rs_core_lib_path(n@),
        f.1@ == spec_rs_core_lib(n@),
{
    let mut p = chars_of("crates/core/src/lib.rs");
    let mut c = chars_of(RS_CORE_LIB_0);
    push_str(&mut c, n.id.as_str());
    push_str(&mut c, RS_CORE_LIB_1);
    push_str(&mut c, n.id.as_str());
    push_str(&mut c, RS_CORE_LIB_2);
    push_str(&mut c, n.id.as_str());
    push_str(&mut c, RS_CORE_LIB_3);
    (string_from_chars(&p), string_from_chars(&c))
}

/// Name of the `Cargo.toml` of a Rust module's Python binding.
pub open spec fn spec_rs_py_cargo_path(n: NamesView) -> Seq<char> {
    "bindings/python/Cargo.toml"@
}

/// Content of the `Cargo.toml` of a Rust module's Python binding.
pub open spec fn spec_rs_py_cargo(n: NamesView) -> Seq<char> {
    RS_PY_CARGO_0@ + n.package + RS_PY_CARGO_1@ + n.package + RS_PY_CARGO_2@
}

fn file_rs_py_cargo(n: &Names) -> (f: (String, String))
    ensures
        f.0@ == spec_rs_py_cargo_path(n@),
        f.1@ == spec_rs_py_cargo(n@),
{
    let mut p = chars_of("bindings/python/Cargo.toml");
    let mut c = chars_of(RS_PY_CARGO_0);
    push_str(&mut c, n.package.as_str());
    push_str(&mut c, RS_PY_CARGO_1);
    push_str(&mut c, n.package.as_str());
    push_str(&mut c, RS_PY_CARGO_2);
    (string_from_chars(&p), string_from_chars(&c))
}

/// Name of the `lib.rs` of a Rust module's Python binding.
pub open spec fn spec_rs_py_lib_path(n: NamesView) -> Seq<char> {
    "bindings/python/src/lib.rs"@
}

/// Content of the `lib.rs` of a Rust module's Python binding.
pub open spec fn spec_rs_py_lib(n: NamesView) -> Seq<char> {
    RS_PY_LIB_0@ + n.package + RS_PY_LIB_1@
}

fn file_rs_py_lib(n: &Names) -> (f: (String, String))
    ensures
        f.0@ == spec_rs_py_lib_path(n@),
        f.1@ == spec_rs_py_lib(n@),
{
    let mut p = chars_of("bindings/python/src/lib.rs");
    let mut c = chars_of(RS_PY_LIB_0);
    push_str(&mut c, n.package.as_str());
    push_str(&mut c, RS_PY_LIB_1);
    (string_from_chars(&p), string_from_chars(&c))
}

/// Name of the `pyproject.toml` of a Rust module's Python binding.
pub open spec fn spec_rs_py_pyproject_path(n: NamesView) -> Seq<char> {
    "bindings/python/pyproject.toml"@
}

/// Content of the `pyproject.toml` of a Rust module's Python binding.
pub open spec fn spec_rs_py_pyproject(n: NamesView) -> Seq<char> {
    RS_PY_PYPROJECT_0@ + n.package + RS_PY_PYPROJECT_1@ + n.id + RS_PY_PYPROJECT_2@ + n.package + RS_PY_PYPROJECT_3@
}

fn file_rs_py_pyproject(n: &Names) -> (f: (String, String))
    ensures
        f.0@ == spec_rs_py_pyproject_path(n@),
        f.1@ == spec_rs_py_pyproject(n@),
{
    let mut p = chars_of("bindings/python/pyproject.toml");
    let mut c = chars_of(RS_PY_PYPROJECT_0);
    push_str(&mut c, n.package.as_str());
    push_str(&mut c, RS_PY_PYPROJECT_1);
    push_str(&mut c, n.id.as_str());
    push_str(&mut c, RS_PY_PYPROJECT_2);
    push_str(&mut c, n.package.as_str());
    push_str(&mut c, RS_PY_PYPROJECT_3);
    (string_from_chars(&p), string_from_chars(&c))
}

/// Name of the `__init__.py` of a Rust module's Python package.
pub open spec fn spec_rs_py_init_path(n: NamesView) -> Seq<char> {
    "bindings/python/python/"@ + n.package + "/__init__.py"@
}

/// Content of the `__init__.py` of a Rust module's Python package.
pub open spec fn spec_rs_py_init(n: NamesView) -> Seq<char> {
    RS_PY_INIT_0@ + n.id + RS_PY_INIT_1@
}

fn file_rs_py_init(n: &Names) -> (f: (String, String))
    ensures
        f.0@ == spec_rs_py_init_path(n@),
        f.1@ == spec_rs_py_init(n@),
{
    let mut p = chars_of("bindings/python/python/");
    push_str(&mut p, n.package.as_str());
    push_str(&mut p, "/__init__.py");
    let mut c = chars_of(RS_PY_INIT_0);
    push_str(&mut c, n.id.as_str());
    push_str(&mut c, RS_PY_INIT_1);
    (string_from_chars(&p), string_from_chars(&c))
}

/// Name of the `Cargo.toml` of a Rust module's Node binding.
pub open spec fn spec_rs_node_cargo_path(n: NamesView) -> Seq<char> {
    "bindings/node/Cargo.toml"@
}

/// Content of the `Cargo.toml` of a Rust module's Node binding.
pub open spec fn spec_rs_node_cargo(n: NamesView) -> Seq<char> {
    RS_NODE_CARGO_0@ + n.id + RS_NODE_CARGO_1@ + n.package + RS_NODE_CARGO_2@
}

fn file_rs_node_cargo(n: &Names) -> (f: (String, String))
    ensures
        f.0@ == spec_rs_node_cargo_path(n@),
        f.1@ == spec_rs_node_cargo(n@),
{
    let mut p = chars_of("bindings/node/Cargo.toml");
    let mut c = chars_of(RS_NODE_CARGO_0);
    push_str(&mut c, n.id.as_str());
    push_str(&mut c, RS_NODE_CARGO_1);
    push_str(&mut c, n.package.as_str());
    push_str(&mut c, RS_NODE_CARGO_2);
    (string_from_chars(&p), string_from_chars(&c))
}

/// Name of the `build.rs` of a Rust module's Node binding.
pub open spec fn spec_rs_node_build_path(n: NamesView) -> Seq<char> {
    "bindings/node/build.rs"@
}

/// Content of the `build.rs` of a Rust module's Node binding.
pub open spec fn spec_rs_node_build(n: NamesView) -> Seq<char> {
    RS_NODE_BUILD@
}

fn file_rs_node_build(n: &Names) -> (f: (String, String))
    ensures
        f.0@ == spec_rs_node_build_path(n@),
        f.1@ == spec_rs_node_build(n@),
{
    let mut p = chars_of("bindings/node/build.rs");
    let mut c = chars_of(RS_NODE_BUILD);
    (string_from_chars(&p), string_from_chars(&c))
}

/// Name of the `lib.rs` of a Rust module's Node binding.
pub open spec fn spec_rs_node_lib_path(n: NamesView) -> Seq<char> {
    "bindings/node/src/lib.rs"@
}

/// Content of the `lib.rs` of a Rust module's Node binding.
pub open spec fn spec_rs_node_lib(n: NamesView) -> Seq<char> {
    RS_NODE_LIB_0@ + n.package + RS_NODE_LIB_1@
}

fn file_rs_node_lib(n: &Names) -> (f: (String, String))
    ensures
        f.0@ == spec_rs_node_lib_path(n@),
        f.1@ == spec_rs_node_lib(n@),
{
    let mut p = chars_of("bindings/node/src/lib.rs");
    let mut c = chars_of(RS_NODE_LIB_0);
    push_str(&mut c, n.package.as_str());
    push_str(&mut c, RS_NODE_LIB_1);
    (string_from_chars(&p), string_from_chars(&c))
}

/// Name of the `package.json` of a Rust module's Node binding.
pub open spec fn spec_rs_node_package_json_path(n: NamesView) -> Seq<char> {
    "bindings/node/package.json"@
}

/// Content of the `package.json` of a Rust module's Node binding.
pub open spec fn spec_rs_node_package_json(n: NamesView) -> Seq<char> {
    RS_NODE_PACKAGE_JSON_0@ + n.npm + RS_NODE_PACKAGE_JSON_1@
}

fn file_rs_node_package_json(n: &Names) -> (f: (String, String))
    ensures
        f.0@ == spec_rs_node_package_json_path(n@),
        f.1@ == spec_rs_node_package_json(n@),
{
    let mut p = chars_of("bindings/node/package.json");
    let mut c = chars_of(RS_NODE_PACKAGE_JSON_0);
    push_str(&mut c, n.npm.as_str());
    push_str(&mut c, RS_NODE_PACKAGE_JSON_1);
    (string_from_chars(&p), string_from_chars(&c))
}

/// Name of the root `package.json` of a Rust module.
pub open spec fn spec_rs_root_package_json_path(n: NamesView) -> Seq<char> {
    "package.json"@
}

/// Content of the root `package.json` of a Rust module.
pub open spec fn spec_rs_root_package_json(n: NamesView) -> Seq<char> {
    RS_ROOT_PACKAGE_JSON_0@ + n.npm + RS_ROOT_PACKAGE_JSON_1@ + n.id + RS_ROOT_PACKAGE_JSON_2@
}

fn file_rs_root_package_json(n: &Names) -> (f: (String, String))
    ensures
        f.0@ == spec_rs_root_package_json_path(n@),
        f.1@ == spec_rs_root_package_json(n@),
{
    let mut p = chars_of("package.json");
    let mut c = chars_of(RS_ROOT_PACKAGE_JSON_0);
    push_str(&mut c, n.npm.as_str());
    push_str(&mut c, RS_ROOT_PACKAGE_JSON_1);
    push_str(&mut c, n.id.as_str());
    push_str(&mut c, RS_ROOT_PACKAGE_JSON_2);
    (string_from_chars(&p), string_from_chars(&c))
}

/// Name of the `js/index.js` of a Rust module.
pub open spec fn spec_rs_index_js_path(n: NamesView) -> Seq<char> {
    "js/index.js"@
}

/// Content of the `js/index.js` of a Rust module.
pub open spec fn spec_rs_index_js(n: NamesView) -> Seq<char> {
    RS_INDEX_JS_0@ + n.id + RS_INDEX_JS_1@
}

fn file_rs_index_js(n: &Names) -> (f: (String, String))
    ensures
        f.0@ == spec_rs_index_js_path(n@),
        f.1@ == spec_rs_index_js(n@),
{
    let mut p = chars_of("js/index.js");
    let mut c = chars_of(RS_INDEX_JS_0);
    push_str(&mut c, n.id.as_str());
    push_str(&mut c, RS_INDEX_JS_1);
    (string_from_chars(&p), string_from_chars(&c))
}

/// Name of the `js/index.d.ts` of a Rust module.
pub open spec fn spec_rs_index_d_ts_path(n: NamesView) -> Seq<char> {
    "js/index.d.ts"@
}

/// Content of the `js/index.d.ts` of a Rust module.
pub open spec fn spec_rs_index_d_ts(n: NamesView) -> Seq<char> {
    RS_INDEX_D_TS@
}

fn file_rs_index_d_ts(n: &Names) -> (f: (String, String))
    ensures
        f.0@ == spec_rs_index_d_ts_path(n@),
        f.1@ == spec_rs_index_d_ts(n@),
{
    let mut p = chars_of("js/index.d.ts");
    let mut c = chars_of(RS_INDEX_D_TS);
    (string_from_chars(&p), string_from_chars(&c))
}

/// The files of a module package, in the order they are written: the
/// Python or TypeScript package, the C# class library, or the Rust
/// workspace with a binding for
/// each targeted host.
pub open spec fn spec_module_files(language: ModuleImplLanguage, n: NamesView) -> Seq<(Seq<char>, Seq<char>)> {
    match language {
        ModuleImplLanguage::Python => seq![(spec_py_pyproject_path(n), spec_py_pyproject(n)), (spec_py_init_path(n), spec_py_init(n)), (spec_py_hello_path(n), spec_py_hello(n))],
        ModuleImplLanguage::TypeScript => seq![(spec_ts_package_json_path(n), spec_ts_package_json(n)), (spec_ts_tsconfig_path(n), spec_ts_tsconfig(n)), (spec_ts_index_ts_path(n), spec_ts_index_ts(n)), (spec_ts_index_js_path(n), spec_ts_index_js(n)), (spec_ts_index_d_ts_path(n), spec_ts_index_d_ts(n))],
        ModuleImplLanguage::CSharp => seq![(spec_cs_project_path(n), spec_cs_project(n)), (spec_cs_module_path(n), spec_cs_module(n))],
        ModuleImplLanguage::Rust => seq![(spec_rs_workspace_path(n), spec_rs_workspace(n)), (spec_rs_core_cargo_path(n), spec_rs_core_cargo(n)), (spec_rs_core_lib_path(n), spec_rs_core_lib(n))] + (if n.python {
            seq![(spec_rs_py_cargo_path(n), spec_rs_py_cargo(n)), (spec_rs_py_lib_path(n), spec_rs_py_lib(n)), (spec_rs_py_pyproject_path(n), spec_rs_py_pyproject(n)), (spec_rs_py_init_path(n), spec_rs_py_init(n))]
        } else {
            seq![]
        }) + (if n.typescript {
            seq![(spec_rs_node_cargo_path(n), spec_rs_node_cargo(n)), (spec_rs_node_build_path(n), spec_rs_node_build(n)), (spec_rs_node_lib_path(n), spec_rs_node_lib(n)), (spec_rs_node_package_json_path(n), spec_rs_node_package_json(n)), (spec_rs_root_package_json_path(n), spec_rs_root_package_json(n)), (spec_rs_index_js_path(n), spec_rs_index_js(n)), (spec_rs_index_d_ts_path(n), spec_rs_index_d_ts(n))]
        } else {
            seq![]
        }),
    }
}

/// The names a module with id `id` is written with.
pub open spec fn spec_names(id: Seq<char>, python: bool, typescript: bool) -> NamesView {
    NamesView {
        id,
        package: spec_python_package_name(id),
        npm: spec_npm_package_name(id),
        cs: spec_csharp_package_name(id),
        python,
        typescript,
    }
}

fn push_file(files: &mut Vec<(String, String)>, f: (String, String))
    ensures
        file_views(final(files)@) == file_views(old(files)@).push((f.0@, f.1@)),
{
    let ghost before = file_views(old(files)@);
    files.push(f);
    assert(file_views(files@) =~= before.push((f.0@, f.1@)));
}

/// The source files of a new module package with id `id`, implemented in
/// `language`, targeting the given hosts (the targets matter for Rust).
pub fn module_files(language: ModuleImplLanguage, id: &str, target_python: bool, target_typescript: bool) -> (files: Vec<(String, String)>)
    ensures
        file_views(files@) == spec_module_files(language, spec_names(id@, target_python, target_typescript)),
{
    let n = Names {
        id: string_from_chars(&chars_of(id)),
        package: python_package_name(id),
        npm: npm_package_name(id),
        cs: csharp_package_name(id),
        python: target_python,
        typescript: target_typescript,
    };
    let mut files: Vec<(String, String)> = Vec::new();
    assert(file_views(files@) =~= seq![]);
    match language {
        ModuleImplLanguage::Python => {
            push_file(&mut files, file_py_pyproject(&n));
            push_file(&mut files, file_py_init(&n));
            push_file(&mut files, file_py_hello(&n));
        },
        ModuleImplLanguage::TypeScript => {
            push_file(&mut files, file_ts_package_json(&n));
            push_file(&mut files, file_ts_tsconfig(&n));
            push_file(&mut files, file_ts_index_ts(&n));
            push_file(&mut files, file_ts_index_js(&n));
            push_file(&mut files, file_ts_index_d_ts(&n));
        },
        ModuleImplLanguage::CSharp => {
            push_file(&mut files, file_cs_project(&n));
            push_file(&mut files, file_cs_module(&n));
        },
        ModuleImplLanguage::Rust => {
            push_file(&mut files, file_rs_workspace(&n));
            push_file(&mut files, file_rs_core_cargo(&n));
            push_file(&mut files, file_rs_core_lib(&n));
            let ghost core = file_views(files@);
            if target_python {
                push_file(&mut files, file_rs_py_cargo(&n));
                push_file(&mut files, file_rs_py_lib(&n));
                push_file(&mut files, file_rs_py_pyproject(&n));
                push_file(&mut files, file_rs_py_init(&n));
            }
            let ghost with_python = file_views(files@);
            if target_typescript {
                push_file(&mut files, file_rs_node_cargo(&n));
                push_file(&mut files, file_rs_node_build(&n));
                push_file(&mut files, file_rs_node_lib(&n));
                push_file(&mut files, file_rs_node_package_json(&n));
                push_file(&mut files, file_rs_root_package_json(&n));
                push_file(&mut files, file_rs_index_js(&n));
                push_file(&mut files, file_rs_index_d_ts(&n));
            }
            proof {
                let nv = n@;
                assert(with_python =~= core + (if nv.python { seq![(spec_rs_py_cargo_path(nv), spec_rs_py_cargo(nv)), (spec_rs_py_lib_path(nv), spec_rs_py_lib(nv)), (spec_rs_py_pyproject_path(nv), spec_rs_py_pyproject(nv)), (spec_rs_py_init_path(nv), spec_rs_py_init(nv))] } else { seq![] }));
                assert(file_views(files@) =~= with_python + (if nv.typescript { seq![(spec_rs_node_cargo_path(nv), spec_rs_node_cargo(nv)), (spec_rs_node_build_path(nv), spec_rs_node_build(nv)), (spec_rs_node_lib_path(nv), spec_rs_node_lib(nv)), (spec_rs_node_package_json_path(nv), spec_rs_node_package_json(nv)), (spec_rs_root_package_json_path(nv), spec_rs_root_package_json(nv)), (spec_rs_index_js_path(nv), spec_rs_index_js(nv)), (spec_rs_index_d_ts_path(nv), spec_rs_index_d_ts(nv))] } else { seq![] }));
            }
        },
    }
    assert(file_views(files@) =~= spec_module_files(language, n@));
    files
}

} // verus!
