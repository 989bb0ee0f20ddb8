//! Installing a module into a project: which hosts can take modules, where
//! a module is vendored, which build commands run, how the project records
//! it, and how the app imports it.

use vstd::prelude::*;
use crate::config::InstalledModule;
use crate::manifest::{
    csharp_package_name, spec_csharp_package_name, spec_supports_host, supports_host_language,
    ModuleImplLanguage, ModuleManifest,
};
use crate::text::{
    opt_view, chars_of, is_text, push_all, push_str, replace_char, replace_char_exec, same_chars,
    string_from_chars,
};

verus! {

/// Directory, relative to the project root, that holds vendored modules.
pub const VENDOR_ROOT: &'static str = ".fusion/modules";

#[verifier::external_type_specification]
#[verifier::external_body]
pub struct ExPathBuf(std::path::PathBuf);

/// What `fusion add` reports once a module is installed.
pub struct InstallResult {
    pub id: String,
    pub path: std::path::PathBuf,
    pub import_hint: String,
}

/// Why a module cannot be installed.
#[derive(Debug, Clone, Copy, PartialEq, Eq, Structural)]
pub enum InstallError {
    /// The project's language cannot take modules (only Python and
    /// TypeScript projects can).
    UnsupportedHost,
    /// The module does not target the project's language.
    NotForHost,
}

/// Everything `fusion add` does with a downloaded module, decided before
/// any of it is done.
pub struct InstallPlan {
    /// The module's id.
    pub id: String,
    /// Where the module is vendored, relative to the project root.
    pub vendor_rel: String,
    /// Build commands to run in the vendored module, in order.
    pub build_commands: Vec<String>,
    /// For a TypeScript host: the npm package and the `package.json`
    /// dependency that points it at the vendored module.
    pub typescript_link: Option<(String, String)>,
    /// For an ASP.NET Core host: the command, run in the project root, that
    /// references the vendored module's C# project.
    pub dotnet_reference: Option<String>,
    /// The entry recorded in the project's `[[modules]]`.
    pub record: InstalledModule,
    /// The import line to show the user.
    pub import_hint: String,
}

pub open spec fn opt_seq(o: Option<String>) -> Seq<Seq<char>> {
    match o {
        Some(s) => seq![s@],
        None => seq![],
    }
}

/// The C# namespace (and project name) of a module: its `entry.csharp`, or
/// `Fusion<Name>Mod`.
pub open spec fn spec_csharp_package(m: ModuleManifest) -> Seq<char> {
    match m.module.entry.csharp {
        Some(p) => p@,
        None => spec_csharp_package_name(m.module.id@),
    }
}

/// The import line shown after installing, for a Python, TypeScript or
/// ASP.NET Core host.
pub open spec fn spec_import_hint(m: ModuleManifest, host: Seq<char>) -> Seq<char> {
    if host == "python"@ {
        let package = match m.module.entry.python {
            Some(p) => p@,
            None => "fusion_"@ + replace_char(m.module.id@, '-', "_"@) + "_mod"@,
        };
        "from "@ + package + " import hello"@
    } else if host == "typescript"@ {
        let package = match m.module.entry.typescript {
            Some(p) => p@,
            None => "fusion-"@ + m.module.id@ + "-mod"@,
        };
        "import { hello } from \""@ + package + "\""@
    } else if host == "asp-core"@ {
        "using "@ + spec_csharp_package(m) + ";"@
    } else {
        Seq::empty()
    }
}

/// The build commands run for a module in a host project, in order.
pub open spec fn spec_build_commands(m: ModuleManifest, host: Seq<char>) -> Seq<Seq<char>> {
    let b = m.module.build;
    match m.module.impl_.language {
        ModuleImplLanguage::Python => if host == "python"@ {
            opt_seq(b.python)
        } else {
            seq![]
        },
        ModuleImplLanguage::TypeScript => if host == "typescript"@ {
            opt_seq(b.typescript)
        } else {
            seq![]
        },
        ModuleImplLanguage::Rust => if host == "python"@ {
            opt_seq(b.rust) + opt_seq(b.python)
        } else if host == "typescript"@ {
            opt_seq(b.rust) + opt_seq(b.typescript)
        } else if host == "asp-core"@ {
            opt_seq(b.rust) + opt_seq(b.csharp)
        } else {
            seq![]
        },
        ModuleImplLanguage::CSharp => if host == "asp-core"@ {
            opt_seq(b.csharp)
        } else {
            seq![]
        },
    }
}

/// Position of the first module recorded with `id`, or `ms.len()`.
pub open spec fn first_with_id(ms: Seq<InstalledModule>, id: Seq<char>) -> nat
    decreases ms.len(),
{
    if ms.len() == 0 {
        0
    } else if ms[0].id@ == id {
        0
    } else {
        1 + first_with_id(ms.drop_first(), id)
    }
}

/// The recorded modules after recording `m`: it replaces the first module
/// with its id, or is appended when there is none.
pub open spec fn spec_upsert(ms: Seq<InstalledModule>, m: InstalledModule) -> Seq<InstalledModule> {
    let i = first_with_id(ms, m.id@);
    if i < ms.len() {
        ms.update(i as int, m)
    } else {
        ms.push(m)
    }
}

pub proof fn lemma_first_with_id(ms: Seq<InstalledModule>, id: Seq<char>)
    ensures
        first_with_id(ms, id) <= ms.len(),
        first_with_id(ms, id) < ms.len() ==> ms[first_with_id(ms, id) as int].id@ == id,
        forall|j: int| 0 <= j < first_with_id(ms, id) ==> (#[trigger] ms[j]).id@ != id,
    decreases ms.len(),
{
    if ms.len() > 0 && ms[0].id@ != id {
        lemma_first_with_id(ms.drop_first(), id);
        assert forall|j: int| 0 <= j < first_with_id(ms, id) implies (#[trigger] ms[j]).id@ != id by {
            if j > 0 {
                assert(ms[j] == ms.drop_first()[j - 1]);
            }
        }
    }
}

pub proof fn lemma_first_with_id_at(ms: Seq<InstalledModule>, id: Seq<char>, i: int)
    requires
        0 <= i <= ms.len(),
        i == ms.len() || ms[i].id@ == id,
        forall|j: int| 0 <= j < i ==> (#[trigger] ms[j]).id@ != id,
    ensures
        first_with_id(ms, id) == i,
    decreases i,
{
    if i > 0 {
        assert forall|j: int| 0 <= j < i - 1 implies (#[trigger] ms.drop_first()[j]).id@ != id by {
            assert(ms.drop_first()[j] == ms[j + 1]);
        }
        lemma_first_with_id_at(ms.drop_first(), id, i - 1);
    }
}

// ---------------------------------------------------------------------------
// Implementation
// ---------------------------------------------------------------------------

/// The project languages that can take modules.
pub open spec fn spec_module_host(host: Seq<char>) -> bool {
    host == "python"@ || host == "typescript"@ || host == "asp-core"@
}

/// Whether a project of language `host_language` can take modules: Python,
/// TypeScript and ASP.NET Core (`asp-core`) projects can.
pub fn check_host_language(host_language: &str) -> (r: Result<(), InstallError>)
    ensures
        r is Ok <==> spec_module_host(host_language@),
        r matches Err(e) ==> e == InstallError::UnsupportedHost,
{
    let h = chars_of(host_language);
    if is_text(&h, "python") || is_text(&h, "typescript") || is_text(&h, "asp-core") {
        Ok(())
    } else {
        Err(InstallError::UnsupportedHost)
    }
}

/// `.fusion/modules/<id>`, where a module is vendored.
pub fn vendor_path(id: &str) -> (path: String)
    ensures
        path@ == VENDOR_ROOT@ + "/"@ + id@,
{
    let mut v = chars_of(VENDOR_ROOT);
    push_str(&mut v, "/");
    push_all(&mut v, &chars_of(id));
    string_from_chars(&v)
}

/// The import line to show once a module is installed in a host project.
pub fn import_hint(manifest: &ModuleManifest, host_language: &str) -> (hint: String)
    ensures
        hint@ == spec_import_hint(*manifest, host_language@),
{
    let h = chars_of(host_language);
    let meta = &manifest.module;
    if is_text(&h, "python") {
        let package = match &meta.entry.python {
            Some(p) => chars_of(p.as_str()),
            None => {
                let mut v = chars_of("fusion_");
                push_all(&mut v, &replace_char_exec(&chars_of(meta.id.as_str()), '-', "_"));
                push_str(&mut v, "_mod");
                v
            },
        };
        let mut v = chars_of("from ");
        push_all(&mut v, &package);
        push_str(&mut v, " import hello");
        string_from_chars(&v)
    } else if is_text(&h, "typescript") {
        let package = match &meta.entry.typescript {
            Some(p) => chars_of(p.as_str()),
            None => {
                let mut v = chars_of("fusion-");
                push_all(&mut v, &chars_of(meta.id.as_str()));
                push_str(&mut v, "-mod");
                v
            },
        };
        let mut v = chars_of("import { hello } from \"");
        push_all(&mut v, &package);
        push_str(&mut v, "\"");
        string_from_chars(&v)
    } else if is_text(&h, "asp-core") {
        let mut v = chars_of("using ");
        push_all(&mut v, &chars_of(csharp_package(manifest).as_str()));
        push_str(&mut v, ";");
        string_from_chars(&v)
    } else {
        string_from_chars(&Vec::new())
    }
}

fn push_opt(list: &mut Vec<String>, o: &Option<String>)
    ensures
        crate::text::views_of_strings(final(list)@) == crate::text::views_of_strings(old(list)@)
            + opt_seq(*o),
{
    let ghost before = old(list)@;
    match o {
        Some(s) => {
            list.push(s.clone());
            proof {
                assert(crate::text::views_of_strings(list@) =~= crate::text::views_of_strings(
                    before,
                ).push(s@));
            }
        },
        None => {
            assert(crate::text::views_of_strings(list@) =~= crate::text::views_of_strings(before)
                + seq![]);
        },
    }
}

/// The build commands a module declares for a host project, in the order
/// they run: the Rust build first for Rust modules.
pub fn build_commands(manifest: &ModuleManifest, host_language: &str) -> (commands: Vec<String>)
    ensures
        crate::text::views_of_strings(commands@) == spec_build_commands(*manifest, host_language@),
{
    let h = chars_of(host_language);
    let is_python = is_text(&h, "python");
    let is_typescript = is_text(&h, "typescript");
    let is_aspnet = is_text(&h, "asp-core");
    let b = &manifest.module.build;
    let mut commands: Vec<String> = Vec::new();
    assert(crate::text::views_of_strings(commands@) =~= seq![]);
    match manifest.module.impl_.language {
        ModuleImplLanguage::Python => {
            if is_python {
                push_opt(&mut commands, &b.python);
            }
        },
        ModuleImplLanguage::TypeScript => {
            if is_typescript {
                push_opt(&mut commands, &b.typescript);
            }
        },
        ModuleImplLanguage::Rust => {
            if is_python {
                push_opt(&mut commands, &b.rust);
                push_opt(&mut commands, &b.python);
            } else if is_typescript {
                push_opt(&mut commands, &b.rust);
                push_opt(&mut commands, &b.typescript);
            } else if is_aspnet {
                push_opt(&mut commands, &b.rust);
                push_opt(&mut commands, &b.csharp);
            }
        },
        ModuleImplLanguage::CSharp => {
            if is_aspnet {
                push_opt(&mut commands, &b.csharp);
            }
        },
    }
    proof {
        reveal_strlit("python");
        reveal_strlit("typescript");
        reveal_strlit("asp-core");
        assert("python"@.len() != "typescript"@.len());
        assert("python"@.len() != "asp-core"@.len());
        assert("asp-core"@.len() != "typescript"@.len());
        assert(seq![] + opt_seq(b.rust) =~= opt_seq(b.rust));
    }
    commands
}

/// The npm package a TypeScript host links to a vendored module.
pub fn typescript_package(manifest: &ModuleManifest) -> (name: String)
    ensures
        name@ == (match manifest.module.entry.typescript {
            Some(p) => p@,
            None => "fusion-mod-"@ + manifest.module.id@,
        }),
{
    match &manifest.module.entry.typescript {
        Some(p) => p.clone(),
        None => {
            let mut v = chars_of("fusion-mod-");
            push_all(&mut v, &chars_of(manifest.module.id.as_str()));
            string_from_chars(&v)
        },
    }
}

/// The `package.json` dependency that points at a vendored module.
pub fn file_dependency(vendor_rel: &str) -> (spec: String)
    ensures
        spec@ == "file:"@ + vendor_rel@,
{
    let mut v = chars_of("file:");
    push_all(&mut v, &chars_of(vendor_rel));
    string_from_chars(&v)
}

/// The `package.json` link a host of language `host` gets for a module
/// vendored at `vendor_rel`: the npm package and its `file:` dependency,
/// for TypeScript hosts only.
pub open spec fn spec_typescript_link(m: ModuleManifest, host: Seq<char>, vendor_rel: Seq<char>) -> Option<
    (Seq<char>, Seq<char>),
> {
    if host == "typescript"@ {
        let package = match m.module.entry.typescript {
            Some(p) => p@,
            None => "fusion-mod-"@ + m.module.id@,
        };
        Some((package, "file:"@ + vendor_rel))
    } else {
        None
    }
}

/// The command that references a module vendored at `vendor_rel` from an
/// ASP.NET Core host: `dotnet add reference` with the module's C# project,
/// `<Namespace>.csproj` at the root of a C# module and under
/// `bindings/csharp` of a Rust module; none for other hosts.
pub open spec fn spec_dotnet_reference(m: ModuleManifest, host: Seq<char>, vendor_rel: Seq<char>) -> Option<Seq<char>> {
    if host == "asp-core"@ {
        let dir = match m.module.impl_.language {
            ModuleImplLanguage::Rust => "/bindings/csharp/"@,
            _ => "/"@,
        };
        Some("dotnet add reference "@ + vendor_rel + dir + spec_csharp_package(m) + ".csproj"@)
    } else {
        None
    }
}

/// The C# namespace of a module (see [`spec_csharp_package`]).
pub fn csharp_package(manifest: &ModuleManifest) -> (name: String)
    ensures
        name@ == spec_csharp_package(*manifest),
{
    match &manifest.module.entry.csharp {
        Some(p) => string_from_chars(&chars_of(p.as_str())),
        None => csharp_package_name(manifest.module.id.as_str()),
    }
}

fn dotnet_reference(manifest: &ModuleManifest, host_language: &str, vendor_rel: &str) -> (r: Option<String>)
    ensures
        opt_view(r) == spec_dotnet_reference(*manifest, host_language@, vendor_rel@),
{
    if !is_text(&chars_of(host_language), "asp-core") {
        return None;
    }
    let mut v = chars_of("dotnet add reference ");
    push_str(&mut v, vendor_rel);
    match manifest.module.impl_.language {
        ModuleImplLanguage::Rust => push_str(&mut v, "/bindings/csharp/"),
        _ => push_str(&mut v, "/"),
    }
    push_all(&mut v, &chars_of(csharp_package(manifest).as_str()));
    push_str(&mut v, ".csproj");
    Some(string_from_chars(&v))
}

pub open spec fn link_view(l: Option<(String, String)>) -> Option<(Seq<char>, Seq<char>)> {
    match l {
        Some((a, b)) => Some((a@, b@)),
        None => None,
    }
}

/// Plans the installation of a downloaded module into a host project of
/// language `host_language`, recording it with source `source`: refused
/// when the host cannot take modules or the module does not target it.
pub fn plan_install(manifest: &ModuleManifest, host_language: &str, source: &str) -> (r: Result<
    InstallPlan,
    InstallError,
>)
    ensures
        match r {
            Ok(p) => {
                let m = *manifest;
                let host = host_language@;
                let vendor_rel = VENDOR_ROOT@ + "/"@ + m.module.id@;
                &&& spec_module_host(host)
                &&& spec_supports_host(m, host)
                &&& p.id@ == m.module.id@
                &&& p.vendor_rel@ == vendor_rel
                &&& crate::text::views_of_strings(p.build_commands@) == spec_build_commands(m, host)
                &&& link_view(p.typescript_link) == spec_typescript_link(m, host, vendor_rel)
                &&& opt_view(p.dotnet_reference) == spec_dotnet_reference(m, host, vendor_rel)
                &&& p.record.id@ == m.module.id@
                &&& p.record.source@ == source@
                &&& p.record.version@ == m.module.version@
                &&& p.record.path@ == vendor_rel
                &&& p.import_hint@ == spec_import_hint(m, host)
            },
            Err(e) => if spec_module_host(host_language@) {
                e == InstallError::NotForHost && !spec_supports_host(*manifest, host_language@)
            } else {
                e == InstallError::UnsupportedHost
            },
        },
{
    check_host_language(host_language)?;
    if !supports_host_language(manifest, host_language) {
        return Err(InstallError::NotForHost);
    }
    let id = manifest.module.id.clone();
    let vendor_rel = vendor_path(id.as_str());
    let typescript_link = if is_text(&chars_of(host_language), "typescript") {
        Some((typescript_package(manifest), file_dependency(vendor_rel.as_str())))
    } else {
        None
    };
    let reference = dotnet_reference(manifest, host_language, vendor_rel.as_str());
    let record = InstalledModule {
        id: id.clone(),
        source: string_from_chars(&chars_of(source)),
        version: manifest.module.version.clone(),
        path: vendor_rel.clone(),
    };
    Ok(InstallPlan {
        id,
        vendor_rel,
        build_commands: build_commands(manifest, host_language),
        typescript_link,
        dotnet_reference: reference,
        record,
        import_hint: import_hint(manifest, host_language),
    })
}

/// Where a downloaded repository keeps its `fusion.module.toml`.
#[derive(Debug, Clone, Copy, PartialEq, Eq, Structural)]
pub enum ManifestAt {
    /// At the repository root.
    Root,
    /// In the directory entry at this index of the root's listing.
    Entry(usize),
}

/// Chooses the manifest of a downloaded repository: the one at its root,
/// else the first entry of the root's listing that holds one
/// (`entry_has_manifest[i]` says whether entry `i` does); none otherwise.
pub fn manifest_location(at_root: bool, entry_has_manifest: &Vec<bool>) -> (r: Option<ManifestAt>)
    ensures
        at_root ==> r == Some(ManifestAt::Root),
        !at_root ==> match r {
            Some(ManifestAt::Entry(i)) => i < entry_has_manifest.len() && entry_has_manifest@[i as int]
                && forall|j: int| 0 <= j < i ==> !#[trigger] entry_has_manifest@[j],
            Some(ManifestAt::Root) => false,
            None => forall|j: int| 0 <= j < entry_has_manifest.len() ==> !#[trigger] entry_has_manifest@[j],
        },
{
    if at_root {
        return Some(ManifestAt::Root);
    }
    let mut i: usize = 0;
    while i < entry_has_manifest.len()
        invariant
            !at_root,
            i <= entry_has_manifest.len(),
            forall|j: int| 0 <= j < i ==> !#[trigger] entry_has_manifest@[j],
        decreases entry_has_manifest.len() - i,
    {
        if entry_has_manifest[i] {
            return Some(ManifestAt::Entry(i));
        }
        i = i + 1;
    }
    None
}

/// Records `module` in the project's module list: it replaces the entry
/// with the same id, or is appended.
pub fn upsert_module(modules: &mut Vec<InstalledModule>, module: InstalledModule)
    ensures
        final(modules)@ == spec_upsert(old(modules)@, module),
{
    let ghost ms = old(modules)@;
    let ghost m = module;
    let id = chars_of(module.id.as_str());
    let mut i: usize = 0;
    while i < modules.len()
        invariant
            modules@ == ms,
            ms == old(modules)@,
            m == module,
            id@ == m.id@,
            i <= modules.len(),
            forall|j: int| 0 <= j < i ==> (#[trigger] ms[j]).id@ != m.id@,
        decreases modules.len() - i,
    {
        if same_chars(&chars_of(modules[i].id.as_str()), &id) {
            assert(ms[i as int].id@ == m.id@);
            proof {
                lemma_first_with_id_at(ms, m.id@, i as int);
            }
            modules.set(i, module);
            assert(modules@ =~= ms.update(i as int, m));
            return;
        }
        i = i + 1;
    }
    proof {
        lemma_first_with_id_at(ms, m.id@, ms.len() as int);
    }
    modules.push(module);
}

/// Recording a module is idempotent: recording it again changes nothing.
pub proof fn upsert_idempotent(ms: Seq<InstalledModule>, m: InstalledModule)
    ensures
        spec_upsert(spec_upsert(ms, m), m) == spec_upsert(ms, m),
{
    lemma_first_with_id(ms, m.id@);
    let once = spec_upsert(ms, m);
    let i = first_with_id(ms, m.id@);
    assert forall|j: int| 0 <= j < i implies (#[trigger] once[j]).id@ != m.id@ by {
        assert(once[j] == ms[j]);
    }
    lemma_first_with_id_at(once, m.id@, i as int);
    assert(once.update(i as int, m) =~= once);
}

/// After recording, the module is listed: it is the first entry with its
/// id, every entry with another id is kept in place, and the list grows by
/// at most one.
pub proof fn upsert_records_module(ms: Seq<InstalledModule>, m: InstalledModule)
    ensures
        ({
            let after = spec_upsert(ms, m);
            let i = first_with_id(after, m.id@);
            &&& i < after.len()
            &&& after[i as int] == m
            &&& after.len() == ms.len() || after.len() == ms.len() + 1
            &&& forall|j: int| 0 <= j < ms.len() && ms[j].id@ != m.id@ ==> #[trigger] after[j] == ms[j]
        }),
{
    lemma_first_with_id(ms, m.id@);
    let after = spec_upsert(ms, m);
    let i = first_with_id(ms, m.id@);
    assert forall|j: int| 0 <= j < i implies (#[trigger] after[j]).id@ != m.id@ by {
        assert(after[j] == ms[j]);
    }
    lemma_first_with_id_at(after, m.id@, i as int);
}

/// A module installed into the host its language is written for runs
/// exactly the build command it declares for that host (Python in python,
/// TypeScript in typescript, C# in asp-core), and nothing when it declares
/// none; a Rust module runs its Rust build first, then the host's.
pub proof fn own_host_runs_declared_build(m: ModuleManifest)
    ensures
        m.module.impl_.language == ModuleImplLanguage::Python ==> match m.module.build.python {
            Some(c) => spec_build_commands(m, "python"@) == seq![c@],
            None => spec_build_commands(m, "python"@).len() == 0,
        },
        m.module.impl_.language == ModuleImplLanguage::TypeScript ==> match m.module.build.typescript {
            Some(c) => spec_build_commands(m, "typescript"@) == seq![c@],
            None => spec_build_commands(m, "typescript"@).len() == 0,
        },
        m.module.impl_.language == ModuleImplLanguage::CSharp ==> match m.module.build.csharp {
            Some(c) => spec_build_commands(m, "asp-core"@) == seq![c@],
            None => spec_build_commands(m, "asp-core"@).len() == 0,
        },
        m.module.impl_.language == ModuleImplLanguage::Rust ==> match m.module.build.rust {
            Some(r) => {
                &&& (m.module.build.python matches Some(c) ==> spec_build_commands(m, "python"@) == seq![r@, c@])
                &&& (m.module.build.typescript matches Some(c) ==> spec_build_commands(m, "typescript"@)
                    == seq![r@, c@])
                &&& (m.module.build.csharp matches Some(c) ==> spec_build_commands(m, "asp-core"@)
                    == seq![r@, c@])
            },
            None => true,
        },
{
    reveal_strlit("python");
    reveal_strlit("typescript");
    reveal_strlit("asp-core");
    assert("python"@.len() != "typescript"@.len());
    assert("python"@.len() != "asp-core"@.len());
    assert("asp-core"@.len() != "typescript"@.len());
    let b = m.module.build;
    if let (Some(r), Some(c)) = (b.rust, b.python) {
        assert(seq![r@] + seq![c@] =~= seq![r@, c@]);
    }
    if let (Some(r), Some(c)) = (b.rust, b.typescript) {
        assert(seq![r@] + seq![c@] =~= seq![r@, c@]);
    }
    if let (Some(r), Some(c)) = (b.rust, b.csharp) {
        assert(seq![r@] + seq![c@] =~= seq![r@, c@]);
    }
}

} // verus!
