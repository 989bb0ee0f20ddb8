//! Environment files `fusion.<env>.json`: which environment a project
//! command runs in, the commands an environment declares, and the files a
//! new project starts with.

use vstd::prelude::*;
use crate::config::Language;
use crate::text::{
    opt_view, chars_of, find_char, replace_char, replace_char_exec, index_of, lemma_index_of_at, push_all, push_str, same_chars,
    slice_chars, string_from_chars,
};

verus! {

/// Environment used when none is requested and `FUSION_ENV` is unset.
pub const DEFAULT_ENV: &'static str = "dev";

/// An environment file as the library reads it: its name and the commands
/// it declares (name, shell command), in listing order.
#[derive(Debug, Clone)]
pub struct Environment {
    pub env: String,
    pub commands: Vec<(String, String)>,
}

/// The settings a new project's environment file starts with.
#[derive(Debug, Clone)]
pub struct NewEnvironment {
    pub env: String,
    pub host: String,
    pub port: u16,
    pub swagger_enabled: bool,
}

/// Why a project command could not be chosen.
#[derive(Debug, Clone, Copy, PartialEq, Eq, Structural)]
pub enum ExecError {
    /// `name:env` and an environment flag name different environments.
    TwoEnvironments,
    /// The environment declares no commands.
    NoCommands,
    /// The environment does not declare the command.
    NotDeclared,
}

// ---------------------------------------------------------------------------
// Choosing the environment
// ---------------------------------------------------------------------------

/// The environment chosen by `--env`, `--dev`, `--stage` and `--prod`, in
/// that order of precedence.
pub open spec fn spec_selected_env(env: Option<Seq<char>>, dev: bool, stage: bool, prod: bool) -> Option<
    Seq<char>,
> {
    if env is Some {
        env
    } else if dev {
        Some("dev"@)
    } else if stage {
        Some("stage"@)
    } else if prod {
        Some("prod"@)
    } else {
        None
    }
}

/// Collapses the environment flags into a single choice.
pub fn selected_env(env: Option<String>, dev: bool, stage: bool, prod: bool) -> (r: Option<String>)
    ensures
        opt_view(r) == spec_selected_env(opt_view(env), dev, stage, prod),
{
    if let Some(env) = env {
        return Some(env);
    }
    if dev {
        return Some(string_from_chars(&chars_of("dev")));
    }
    if stage {
        return Some(string_from_chars(&chars_of("stage")));
    }
    if prod {
        return Some(string_from_chars(&chars_of("prod")));
    }
    None
}

/// The environment flags choose an environment exactly when one is given:
/// `--env` wins, and a single `--dev`, `--stage` or `--prod` chooses `dev`,
/// `stage` or `prod`.
pub proof fn selected_env_follows_flags(env: Option<Seq<char>>, dev: bool, stage: bool, prod: bool)
    ensures
        spec_selected_env(env, dev, stage, prod) is Some <==> (env is Some || dev || stage || prod),
        env matches Some(e) ==> spec_selected_env(env, dev, stage, prod) == Some(e),
        env is None && dev && !stage && !prod ==> spec_selected_env(env, dev, stage, prod) == Some("dev"@),
        env is None && !dev && stage && !prod ==> spec_selected_env(env, dev, stage, prod) == Some("stage"@),
        env is None && !dev && !stage && prod ==> spec_selected_env(env, dev, stage, prod) == Some("prod"@),
{
}

/// `run:stage` split into the command and its environment; a name without
/// `:`, or with nothing after it, names no environment.
pub open spec fn spec_split_inline(name: Seq<char>) -> (Seq<char>, Option<Seq<char>>) {
    let i = index_of(name, ':');
    if i < name.len() && i + 1 < name.len() {
        (name.take(i as int), Some(name.skip(i + 1 as int)))
    } else {
        (name, None)
    }
}

/// The command and environment a `fusion command` call resolves to: an
/// environment written as `name:env` must agree with the flag, and the
/// environment falls back to `FUSION_ENV`, then to `dev`.
pub open spec fn spec_resolve(
    name: Option<Seq<char>>,
    flag: Option<Seq<char>>,
    fusion_env: Option<Seq<char>>,
) -> Result<(Option<Seq<char>>, Seq<char>), ExecError> {
    let (name, inline) = match name {
        Some(n) => (Some(spec_split_inline(n).0), spec_split_inline(n).1),
        None => (None, None),
    };
    if inline is Some && flag is Some && inline != flag {
        Err(ExecError::TwoEnvironments)
    } else {
        let env = if inline is Some {
            inline->0
        } else if flag is Some {
            flag->0
        } else if fusion_env is Some {
            fusion_env->0
        } else {
            DEFAULT_ENV@
        };
        Ok((name, env))
    }
}

/// Splits `run:stage` into its command and environment, then settles on the
/// environment to use; `fusion_env` is the value of `FUSION_ENV`, if set.
pub fn resolve(name: Option<String>, env: Option<String>, fusion_env: Option<String>) -> (r: Result<
    (Option<String>, String),
    ExecError,
>)
    ensures
        match r {
            Ok((n, e)) => spec_resolve(opt_view(name), opt_view(env), opt_view(fusion_env)) == Ok::<
                (Option<Seq<char>>, Seq<char>),
                ExecError,
            >((opt_view(n), e@)),
            Err(e) => spec_resolve(opt_view(name), opt_view(env), opt_view(fusion_env)) == Err::<
                (Option<Seq<char>>, Seq<char>),
                ExecError,
            >(e),
        },
{
    let (name, inline_env): (Option<String>, Option<Vec<char>>) = match name {
        Some(n) => {
            let v = chars_of(n.as_str());
            let i = find_char(&v, 0, ':');
            proof {
                assert(v@.skip(0) =~= v@);
            }
            if i < v.len() && i + 1 < v.len() {
                (Some(string_from_chars(&slice_chars(&v, 0, i))), Some(slice_chars(&v, i + 1, v.len())))
            } else {
                (Some(n), None)
            }
        },
        None => (None, None),
    };
    if let (Some(inline), Some(flag)) = (&inline_env, &env) {
        if !same_chars(inline, &chars_of(flag.as_str())) {
            return Err(ExecError::TwoEnvironments);
        }
    }
    let chosen = match inline_env {
        Some(inline) => string_from_chars(&inline),
        None => match env {
            Some(flag) => flag,
            None => match fusion_env {
                Some(value) => value,
                None => string_from_chars(&chars_of(DEFAULT_ENV)),
            },
        },
    };
    Ok((name, chosen))
}

/// `name:env` is the same request as `name` with the environment flag `env`
/// (`fusion command run:stage` is `fusion command run --stage`), whatever
/// `FUSION_ENV` holds.
pub proof fn inline_environment_is_flag(name: Seq<char>, env: Seq<char>, fusion_env: Option<Seq<char>>)
    requires
        !name.contains(':'),
        env.len() > 0,
    ensures
        spec_resolve(Some(name + seq![':'] + env), None, fusion_env) == spec_resolve(
            Some(name),
            Some(env),
            fusion_env,
        ),
        spec_resolve(Some(name), Some(env), fusion_env) == Ok::<
            (Option<Seq<char>>, Seq<char>),
            ExecError,
        >((Some(name), env)),
{
    let s = name + seq![':'] + env;
    assert forall|j: int| 0 <= j < name.len() implies s[j] != ':' by {
        assert(s[j] == name[j]);
        if name[j] == ':' {
            assert(name.contains(':'));
        }
    }
    lemma_index_of_at(s, ':', name.len() as int);
    assert(s.take(name.len() as int) =~= name);
    assert(s.skip(name.len() + 1 as int) =~= env);
    assert forall|j: int| 0 <= j < name.len() implies name[j] != ':' by {
        if name[j] == ':' {
            assert(name.contains(':'));
        }
    }
    lemma_index_of_at(name, ':', name.len() as int);
}

/// A command named without an environment runs in the flag's environment,
/// else in `FUSION_ENV`, else in `dev`.
pub proof fn environment_fallbacks(name: Seq<char>, flag: Option<Seq<char>>, fusion_env: Option<Seq<char>>)
    requires
        !name.contains(':'),
    ensures
        spec_resolve(Some(name), flag, fusion_env) == Ok::<(Option<Seq<char>>, Seq<char>), ExecError>((
            Some(name),
            match flag {
                Some(f) => f,
                None => match fusion_env {
                    Some(v) => v,
                    None => "dev"@,
                },
            },
        )),
{
    assert forall|j: int| 0 <= j < name.len() implies name[j] != ':' by {
        if name[j] == ':' {
            assert(name.contains(':'));
        }
    }
    lemma_index_of_at(name, ':', name.len() as int);
}

// ---------------------------------------------------------------------------
// Declared commands
// ---------------------------------------------------------------------------

/// `fusion.<env>.json`.
pub open spec fn spec_file_name(env: Seq<char>) -> Seq<char> {
    "fusion."@ + env + ".json"@
}

/// The environment file of `env`.
pub fn file_name(env: &str) -> (name: String)
    ensures
        name@ == spec_file_name(env@),
{
    let mut v: Vec<char> = Vec::new();
    push_str(&mut v, "fusion.");
    push_all(&mut v, &chars_of(env));
    push_str(&mut v, ".json");
    string_from_chars(&v)
}

/// The names of the declared commands joined by `, `.
pub open spec fn join_names(commands: Seq<(String, String)>) -> Seq<char>
    decreases commands.len(),
{
    if commands.len() == 0 {
        Seq::empty()
    } else if commands.len() == 1 {
        commands[0].0@
    } else {
        join_names(commands.drop_last()) + ", "@ + commands.last().0@
    }
}

/// The hint listing the declared commands, shown after an unknown name.
pub open spec fn spec_available(commands: Seq<(String, String)>) -> Seq<char> {
    if commands.len() == 0 {
        " No commands are declared yet."@
    } else {
        " Available: "@ + join_names(commands)
    }
}

/// ` Available: a, b` for the commands an environment declares, or a note
/// that it declares none.
pub fn available(environment: &Environment) -> (hint: String)
    ensures
        hint@ == spec_available(environment.commands@),
{
    let commands = &environment.commands;
    if commands.len() == 0 {
        return string_from_chars(&chars_of(" No commands are declared yet."));
    }
    let mut names: Vec<char> = Vec::new();
    let mut i: usize = 0;
    while i < commands.len()
        invariant
            i <= commands.len(),
            names@ == join_names(commands@.take(i as int)),
        decreases commands.len() - i,
    {
        proof {
            let t = commands@.take(i + 1);
            assert(t.drop_last() =~= commands@.take(i as int));
        }
        if i > 0 {
            push_str(&mut names, ", ");
        }
        push_all(&mut names, &chars_of(commands[i].0.as_str()));
        proof {
            if i == 0 {
                assert(names@ =~= commands@.take(1)[0].0@);
            }
        }
        i = i + 1;
    }
    assert(commands@.take(commands@.len() as int) =~= commands@);
    let mut v = chars_of(" Available: ");
    push_all(&mut v, &names);
    string_from_chars(&v)
}

/// The shell command declared under `name`, or `NotDeclared`.
pub fn lookup_command(environment: &Environment, name: &str) -> (r: Result<String, ExecError>)
    ensures
        match r {
            Ok(c) => exists|i: int|
                0 <= i < environment.commands@.len() && environment.commands@[i].0@ == name@
                    && environment.commands@[i].1@ == c@ && forall|j: int|
                    0 <= j < i ==> #[trigger] environment.commands@[j].0@ != name@,
            Err(e) => e == ExecError::NotDeclared && forall|i: int|
                0 <= i < environment.commands@.len() ==> #[trigger] environment.commands@[i].0@
                    != name@,
        },
{
    let wanted = chars_of(name);
    let commands = &environment.commands;
    let mut i: usize = 0;
    while i < commands.len()
        invariant
            i <= commands.len(),
            commands@ == environment.commands@,
            wanted@ == name@,
            forall|j: int| 0 <= j < i ==> #[trigger] commands@[j].0@ != name@,
        decreases commands.len() - i,
    {
        if same_chars(&chars_of(commands[i].0.as_str()), &wanted) {
            let c = commands[i].1.clone();
            assert(environment.commands@[i as int].0@ == name@ && environment.commands@[i as int].1@
                == c@);
            return Ok(c);
        }
        i = i + 1;
    }
    Err(ExecError::NotDeclared)
}

/// What `str::len` gives for a string of characters `s`: the length of its
/// UTF-8 encoding.
pub open spec fn utf8_len(s: Seq<char>) -> usize {
    vstd::utf8::encode_utf8(s).len() as usize
}

/// The widest command name, in bytes, for aligning the listing of an
/// environment's commands; `NoCommands` when it declares none.
pub fn list_width(environment: &Environment) -> (r: Result<usize, ExecError>)
    ensures
        match r {
            Ok(w) => environment.commands@.len() > 0 && (exists|i: int|
                0 <= i < environment.commands@.len() && w
                    == #[trigger] utf8_len(environment.commands@[i].0@)) && forall|
                i: int|
                0 <= i < environment.commands@.len() ==> #[trigger] utf8_len(environment.commands@[i].0@)
                    <= w,
            Err(e) => e == ExecError::NoCommands && environment.commands@.len() == 0,
        },
{
    let commands = &environment.commands;
    if commands.len() == 0 {
        return Err(ExecError::NoCommands);
    }
    let mut width = commands[0].0.as_str().len();
    assert(width == utf8_len(commands@[0].0@));
    let mut i: usize = 1;
    while i < commands.len()
        invariant
            1 <= i <= commands.len(),
            exists|k: int| 0 <= k < i && width == #[trigger] utf8_len(commands@[k].0@),
            forall|k: int| 0 <= k < i ==> #[trigger] utf8_len(commands@[k].0@) <= width,
        decreases commands.len() - i,
    {
        let l = commands[i].0.as_str().len();
        assert(l == utf8_len(commands@[i as int].0@));
        if l > width {
            width = l;
        }
        i = i + 1;
    }
    Ok(width)
}

// ---------------------------------------------------------------------------
// New projects
// ---------------------------------------------------------------------------

fn new_environment(env: &str, port: u16, swagger_enabled: bool) -> (e: NewEnvironment)
    ensures
        e.env@ == env@,
        e.host@ == "127.0.0.1"@,
        e.port == port,
        e.swagger_enabled == swagger_enabled,
{
    NewEnvironment {
        env: string_from_chars(&chars_of(env)),
        host: string_from_chars(&chars_of("127.0.0.1")),
        port,
        swagger_enabled,
    }
}

/// The development environment of a new project: port 8080, API docs on.
pub fn dev() -> (e: NewEnvironment)
    ensures
        e.env@ == "dev"@,
        e.host@ == "127.0.0.1"@,
        e.port == 8080,
        e.swagger_enabled,
{
    new_environment("dev", 8080, true)
}

/// The production environment of a new project: port 9090, API docs off.
pub fn prod() -> (e: NewEnvironment)
    ensures
        e.env@ == "prod"@,
        e.host@ == "127.0.0.1"@,
        e.port == 9090,
        !e.swagger_enabled,
{
    new_environment("prod", 9090, false)
}

/// The staging environment of a new project: port 1010, API docs off.
pub fn stage() -> (e: NewEnvironment)
    ensures
        e.env@ == "stage"@,
        e.host@ == "127.0.0.1"@,
        e.port == 1010,
        !e.swagger_enabled,
{
    new_environment("stage", 1010, false)
}

// ---------------------------------------------------------------------------
// Environment files of a new project
// ---------------------------------------------------------------------------

/// The digit character of `d < 10`.
pub open spec fn spec_digit(d: nat) -> char {
    ((48 + d) as u8) as char
}

/// `n` written in decimal.
pub open spec fn spec_decimal(n: nat) -> Seq<char>
    decreases n,
{
    if n < 10 {
        seq![spec_digit(n)]
    } else {
        spec_decimal(n / 10).push(spec_digit(n % 10))
    }
}

fn digit(d: u64) -> (c: char)
    requires
        d < 10,
    ensures
        c == spec_digit(d as nat),
{
    ((48 + d) as u8) as char
}

/// `n` written in decimal.
pub fn decimal(n: u64) -> (s: String)
    ensures
        s@ == spec_decimal(n as nat),
    decreases n,
{
    let mut v: Vec<char> = if n < 10 {
        Vec::new()
    } else {
        chars_of(decimal(n / 10).as_str())
    };
    v.push(digit(n % 10));
    proof {
        if n < 10 {
            assert(v@ =~= seq![spec_digit(n as nat)]);
        }
    }
    string_from_chars(&v)
}

/// `s` as the inside of a JSON string: backslashes and quotes escaped.
pub open spec fn spec_json_escape(s: Seq<char>) -> Seq<char> {
    replace_char(replace_char(s, '\\', "\\\\"@), '"', "\\\""@)
}

fn json_escape(s: &str) -> (r: Vec<char>)
    ensures
        r@ == spec_json_escape(s@),
{
    let backslashes = replace_char_exec(&chars_of(s), '\\', "\\\\");
    replace_char_exec(&backslashes, '"', "\\\"")
}

/// A fixed piece of a new project's environment file.
pub const ENV_FILE_HEAD: &'static str = r#"{
  "env": ""#;

/// A fixed piece of a new project's environment file.
pub const ENV_FILE_AFTER_ENV: &'static str = r#"",
  "config": {
    "host": ""#;

/// A fixed piece of a new project's environment file.
pub const ENV_FILE_AFTER_HOST: &'static str = r#"",
    "port": "#;

/// A fixed piece of a new project's environment file.
pub const ENV_FILE_AFTER_PORT: &'static str = r#",
    "swagger": {
      "enabled": "#;

/// A fixed piece of a new project's environment file: the rest of the
/// `swagger` block, and no commands.
pub const ENV_FILE_TAIL: &'static str = r#",
      "path": "/swagger",
      "title": "Fusion API Docs",
      "info": {
        "title": "Fusion API",
        "version": "1.0.0",
        "description": "API documentation generated by fusion-framework"
      },
      "servers": [
        {
          "url": "/",
          "description": "Current host"
        }
      ],
      "auth": {
        "persistAuthorization": true,
        "schemes": {
          "BearerAuth": {
            "type": "http",
            "scheme": "bearer",
            "bearerFormat": "JWT"
          },
          "ApiKeyAuth": {
            "type": "apiKey",
            "in": "header",
            "name": "X-API-Key"
          }
        },
        "global": [],
        "oauth": {
          "clientId": "",
          "appName": "Fusion API",
          "usePkceWithAuthorizationCodeGrant": true
        }
      },
      "navbar": {
        "enabled": true,
        "showUrlInput": true
      },
      "ui": {
        "deepLinking": true,
        "docExpansion": "list",
        "filter": true,
        "tryItOutEnabled": true
      }
    }
  },
  "commands": {}
}
"#;

/// The environment file `fusion.<env>.json` of a new project: its name,
/// and a `config` block with host, port and the Swagger settings (enabled
/// or not), followed by an empty `commands` block.
pub open spec fn spec_environment_file(e: NewEnvironment) -> Seq<char> {
    ENV_FILE_HEAD@ + spec_json_escape(e.env@) + ENV_FILE_AFTER_ENV@ + spec_json_escape(e.host@)
        + ENV_FILE_AFTER_HOST@ + spec_decimal(e.port as nat) + ENV_FILE_AFTER_PORT@ + (if e.swagger_enabled {
        "true"@
    } else {
        "false"@
    }) + ENV_FILE_TAIL@
}

/// The text of a new project's environment file (see
/// [`spec_environment_file`]).
pub fn environment_file(e: &NewEnvironment) -> (text: String)
    ensures
        text@ == spec_environment_file(*e),
{
    let mut v = chars_of(ENV_FILE_HEAD);
    push_all(&mut v, &json_escape(e.env.as_str()));
    push_str(&mut v, ENV_FILE_AFTER_ENV);
    push_all(&mut v, &json_escape(e.host.as_str()));
    push_str(&mut v, ENV_FILE_AFTER_HOST);
    push_str(&mut v, decimal(e.port as u64).as_str());
    push_str(&mut v, ENV_FILE_AFTER_PORT);
    push_str(&mut v, if e.swagger_enabled { "true" } else { "false" });
    push_str(&mut v, ENV_FILE_TAIL);
    string_from_chars(&v)
}

/// `.gitignore` of a new Python project.
pub const PYTHON_GITIGNORE: &'static str = r#"
        
# Byte-compiled / optimized / DLL files
__pycache__/
*.py[codz]
*$py.class


# C extensions
*.so

# Distribution / packaging
.Python
build/
develop-eggs/
dist/
downloads/
eggs/
.eggs/
lib/
lib64/
parts/
sdist/
var/
wheels/
share/python-wheels/
*.egg-info/
.installed.cfg
*.egg
MANIFEST

# Environments
.env
.envrc
.venv
env/
venv/
ENV/
env.bak/
venv.bak/

# mypy
.mypy_cache/
.dmypy.json
dmypy.json"#;

/// `.gitignore` of a new TypeScript project.
pub const TYPESCRIPT_GITIGNORE: &'static str = r#"
node_modules/
.node_modules/
built/*
tests/cases/rwc/*
tests/cases/perf/*
!tests/cases/webharness/compilerToString.js
test-args.txt
~*.docx
\#*\#
.\#*
tests/baselines/local/*
tests/baselines/local.old/*
tests/services/baselines/local/*
tests/baselines/prototyping/local/*
tests/baselines/rwc/*
tests/baselines/reference/projectOutput/*
tests/baselines/local/projectOutput/*
tests/baselines/reference/testresults.tap
tests/baselines/symlinks/*
tests/services/baselines/prototyping/local/*
tests/services/browser/typescriptServices.js
src/harness/*.js
src/compiler/diagnosticInformationMap.generated.ts
src/compiler/diagnosticMessages.generated.json
src/parser/diagnosticInformationMap.generated.ts
src/parser/diagnosticMessages.generated.json
rwc-report.html
*.swp
build.json
*.actual
tests/webTestServer.js
tests/webTestServer.js.map
tests/webhost/*.d.ts
tests/webhost/webtsc.js
tests/cases/**/*.js
tests/cases/**/*.js.map
*.config
scripts/eslint/built/
scripts/debug.bat
scripts/run.bat
scripts/**/*.js
scripts/**/*.js.map
coverage/
internal/
**/.DS_Store
.settings
**/.vs
**/.vscode/*
!**/.vscode/tasks.json
!**/.vscode/settings.template.json
!**/.vscode/launch.template.json
!**/.vscode/extensions.json
!tests/cases/projects/projectOption/**/node_modules
!tests/cases/projects/NodeModulesSearch/**/*
!tests/baselines/reference/project/nodeModules*/**/*
.idea
yarn.lock
yarn-error.log
.parallelperf.*
tests/baselines/reference/dt
.failed-tests
TEST-results.xml
package-lock.json
.eslintcache
*v8.log
/lib/"#;

/// The `.gitignore` a new project of `language` starts with; ASP.NET Core
/// projects start with an empty one.
pub fn git(language: Language) -> (content: &'static str)
    ensures
        language == Language::Python ==> content@ == PYTHON_GITIGNORE@,
        language == Language::TypeScript ==> content@ == TYPESCRIPT_GITIGNORE@,
        language == Language::AspNetCore ==> content@ == ""@,
{
    match language {
        Language::Python => PYTHON_GITIGNORE,
        Language::TypeScript => TYPESCRIPT_GITIGNORE,
        Language::AspNetCore => "",
    }
}

} // verus!
