# fusion-tool

`fusion` creates Fusion Framework projects, runs the commands their
environment files declare, scaffolds and installs Fusion modules, and updates
itself.

- `src/` is the library `fusion_tool`, verified with Verus: parsing module
  specs and manifests, choosing environments and commands, planning module
  installs and self-updates, and the files new projects and module packages
  start with. Each public function's contract says what it returns, and
  when it fails; results computed by outside crates (lowercasing, TOML,
  zip, tar, and JSON reading and printing) are named rather than restated. The laws that relate
  several functions are public proof functions.
- `app/` is the `fusion` binary around it: argument parsing (clap), prompts
  (dialoguer), files, processes, downloads (ureq) and TOML/JSON
  (de)serialisation (serde).
- `tests/` runs the library on concrete inputs.

Modules are implemented in Python, TypeScript, Rust or C# and installed into
Python, TypeScript or ASP.NET Core (`asp-core`) projects. A C# module is a
class library (`<Namespace>.csproj` and `Module.cs` with `Module.Hello`),
named `Fusion<Name>Mod`; an `asp-core` host builds it with its declared
command (`dotnet build`) and references it with `dotnet add reference`.
`fusion module init` lays out Rust modules with Python and Node bindings; a
Rust module that also targets `csharp` keeps its C# project under
`bindings/csharp`.
