//! The plan of a new project.
//!
//! A project is generated in two parts. This module decides, from the
//! configuration and the template store, which directories are made and which
//! files are written with which content, in which order: the plan. Carrying the
//! plan out on a file system is left to the caller. Paths in a plan are
//! relative to the root of the new project and use `/`.

use crate::config::types::{ConfigView, FrontendType, Module, PersistenceType, ProjectConfig, ProjectType};
use crate::error::{BootsError, ErrorView};
use crate::template::embedded::Templates;
use crate::template::engine::{render_spec, TemplateEngine};
use crate::text::{concat2, concat3, from_chars, push_all, push_str, to_chars};
use vstd::prelude::*;

verus! {

/// One step of a plan.
#[derive(Debug)]
pub enum FileOp {
    /// Make the directory at `path`, with the directories above it.
    CreateDir { path: String },
    /// Write `content` to the file at `path`, in place of what may be there.
    WriteFile { path: String, content: String },
}

/// A [`FileOp`] with its strings as sequences of characters.
pub enum OpView {
    CreateDir { path: Seq<char> },
    WriteFile { path: Seq<char>, content: Seq<char> },
}

impl View for FileOp {
    type V = OpView;

    open spec fn view(&self) -> OpView {
        match self {
            FileOp::CreateDir { path } => OpView::CreateDir { path: path@ },
            FileOp::WriteFile { path, content } => OpView::WriteFile {
                path: path@,
                content: content@,
            },
        }
    }
}

/// The steps of `plan` with their strings as sequences of characters.
pub open spec fn plan_view(plan: Seq<FileOp>) -> Seq<OpView> {
    Seq::new(plan.len(), |i: int| plan[i]@)
}

/// Writing the file `target` with the text that rendering the template at
/// `template` gives; nothing where the store has no such template.
pub open spec fn rendered(
    store: Map<Seq<char>, Seq<char>>,
    vars: Map<Seq<char>, Seq<char>>,
    template: Seq<char>,
    target: Seq<char>,
) -> Seq<OpView> {
    if store.contains_key(template) {
        seq![OpView::WriteFile { path: target, content: render_spec(vars, store[template]) }]
    } else {
        seq![]
    }
}

/// Writing the file `target` with the text of the template at `template` as it
/// stands; nothing where the store has no such template.
pub open spec fn copied(
    store: Map<Seq<char>, Seq<char>>,
    template: Seq<char>,
    target: Seq<char>,
) -> Seq<OpView> {
    if store.contains_key(template) {
        seq![OpView::WriteFile { path: target, content: store[template] }]
    } else {
        seq![]
    }
}

/// Appending in two steps is appending the two pieces together.
proof fn lemma_append_twice(a: Seq<OpView>, b: Seq<OpView>, c: Seq<OpView>)
    ensures
        a + b + c == a + (b + c),
{
    assert(a + b + c =~= a + (b + c));
}

/// Appending nothing changes nothing.
proof fn lemma_append_nothing(a: Seq<OpView>)
    ensures
        a + Seq::<OpView>::empty() == a,
{
    assert(a + Seq::<OpView>::empty() =~= a);
}

/// Adds the making of the directory `path` to `plan`.
fn add_dir(plan: &mut Vec<FileOp>, path: &str)
    ensures
        plan_view(final(plan)@) == plan_view(old(plan)@) + seq![OpView::CreateDir { path: path@ }],
{
    plan.push(FileOp::CreateDir { path: String::from_str(path) });
    assert(plan_view(plan@) =~= plan_view(old(plan)@) + seq![OpView::CreateDir { path: path@ }]);
}

/// Adds the writing of `content` to the file `path` to `plan`.
fn add_file(plan: &mut Vec<FileOp>, path: &str, content: &Vec<char>)
    ensures
        plan_view(final(plan)@) == plan_view(old(plan)@) + seq![
            OpView::WriteFile { path: path@, content: content@ },
        ],
{
    plan.push(FileOp::WriteFile { path: String::from_str(path), content: from_chars(content) });
    assert(plan_view(plan@) =~= plan_view(old(plan)@) + seq![
        OpView::WriteFile { path: path@, content: content@ },
    ]);
}

/// Adds to `plan` what [`rendered`] says.
fn add_rendered(
    plan: &mut Vec<FileOp>,
    store: &Templates,
    engine: &TemplateEngine,
    template: &str,
    target: &str,
)
    ensures
        plan_view(final(plan)@) == plan_view(old(plan)@) + rendered(
            store@,
            engine@,
            template@,
            target@,
        ),
{
    match store.get_chars(template) {
        Some(text) => {
            let content = engine.render_chars(text);
            add_file(plan, target, &content);
        },
        None => {
            assert(plan_view(plan@) + Seq::<OpView>::empty() =~= plan_view(plan@));
        },
    }
}

/// Adds to `plan` what [`copied`] says.
fn add_copied(plan: &mut Vec<FileOp>, store: &Templates, template: &str, target: &str)
    ensures
        plan_view(final(plan)@) == plan_view(old(plan)@) + copied(store@, template@, target@),
{
    match store.get_chars(template) {
        Some(text) => {
            add_file(plan, target, text);
        },
        None => {
            assert(plan_view(plan@) + Seq::<OpView>::empty() =~= plan_view(plan@));
        },
    }
}

/// The name of a module's directory.
pub open spec fn module_name_of(module: Module) -> Seq<char> {
    match module {
        Module::Core => "core"@,
        Module::Api => "api"@,
        Module::Runtime => "runtime"@,
        Module::Cli => "cli"@,
        Module::Client => "client"@,
        Module::Persistence => "persistence"@,
    }
}

/// The name of a module's directory.
pub fn module_name(module: &Module) -> (r: String)
    ensures
        r@ == module_name_of(*module),
{
    match module {
        Module::Core => String::from_str("core"),
        Module::Api => String::from_str("api"),
        Module::Runtime => String::from_str("runtime"),
        Module::Cli => String::from_str("cli"),
        Module::Client => String::from_str("client"),
        Module::Persistence => String::from_str("persistence"),
    }
}

/// `s` with `_` in place of every `-`.
pub open spec fn snake_of(s: Seq<char>) -> Seq<char> {
    s.map_values(|c: char| if c == '-' { '_' } else { c })
}

/// `s` with `_` in place of every `-`.
pub fn to_snake_case(s: &str) -> (r: String)
    ensures
        r@ == snake_of(s@),
{
    let chars = to_chars(s);
    let mut out: Vec<char> = Vec::new();
    let mut i: usize = 0;
    while i < chars.len()
        invariant
            i <= chars.len(),
            out@ == snake_of(chars@.take(i as int)),
        decreases chars.len() - i,
    {
        let c = chars[i];
        out.push(if c == '-' { '_' } else { c });
        assert(out@ =~= snake_of(chars@.take(i + 1)));
        i = i + 1;
    }
    assert(chars@.take(i as int) == chars@);
    from_chars(&out)
}

/// What upper-casing the character `c` gives. One character can become
/// several.
pub uninterp spec fn uppercase_of(c: char) -> Seq<char>;

/// `char::to_uppercase` of std: the upper-case form of `c`, which is the same
/// on every call.
#[verifier::external_body]
fn to_uppercase(c: char) -> (r: Vec<char>)
    ensures
        r@ == uppercase_of(c),
{
    c.to_uppercase().collect()
}

/// `s` read as words separated by `-` or `_`, with the first character of each
/// word in upper case and the separators left out; `at_start` says whether `s`
/// begins a word.
pub open spec fn pascal_from(s: Seq<char>, at_start: bool) -> Seq<char>
    decreases s.len(),
{
    if s.len() == 0 {
        Seq::empty()
    } else if s[0] == '-' || s[0] == '_' {
        pascal_from(s.skip(1), true)
    } else if at_start {
        uppercase_of(s[0]) + pascal_from(s.skip(1), false)
    } else {
        seq![s[0]] + pascal_from(s.skip(1), false)
    }
}

/// `s` in Pascal case: see [`pascal_from`].
pub open spec fn pascal_of(s: Seq<char>) -> Seq<char> {
    pascal_from(s, true)
}

/// `s` in Pascal case: `my-api_v2` becomes `MyApiV2`.
pub fn to_pascal_case(s: &str) -> (r: String)
    ensures
        r@ == pascal_of(s@),
{
    let chars = to_chars(s);
    let mut out: Vec<char> = Vec::new();
    let mut at_start = true;
    let mut i: usize = 0;
    assert(chars@.skip(0) == chars@);
    while i < chars.len()
        invariant
            i <= chars.len(),
            out@ + pascal_from(chars@.skip(i as int), at_start) == pascal_of(chars@),
        decreases chars.len() - i,
    {
        let c = chars[i];
        assert(chars@.skip(i as int).skip(1) == chars@.skip(i + 1));
        assert(chars@.skip(i as int)[0] == c);
        if c == '-' || c == '_' {
            at_start = true;
        } else if at_start {
            let upper = to_uppercase(c);
            push_all(&mut out, &upper);
            at_start = false;
        } else {
            out.push(c);
        }
        i = i + 1;
    }
    assert(out@ + Seq::<char>::empty() == out@);
    from_chars(&out)
}

/// The variables that every template of a project can use: its name, and its
/// name in snake case.
pub open spec fn base_vars(name: Seq<char>) -> Map<Seq<char>, Seq<char>> {
    Map::<Seq<char>, Seq<char>>::empty().insert("project_name"@, name).insert(
        "project_name_snake"@,
        snake_of(name),
    )
}

/// The maker of a project's plan: a configuration, with the renderer for the
/// templates that use the project's variables alone.
pub struct ProjectGenerator {
    config: ProjectConfig,
    engine: TemplateEngine,
}

impl View for ProjectGenerator {
    type V = ConfigView;

    closed spec fn view(&self) -> ConfigView {
        self.config@
    }
}

impl ProjectGenerator {
    #[verifier::type_invariant]
    spec fn well_formed(&self) -> bool {
        self.engine@ == base_vars(self.config@.name)
    }

    /// A generator for the project that `config` describes.
    pub fn new(config: ProjectConfig) -> (r: Self)
        ensures
            r@ == config@,
    {
        let mut engine = TemplateEngine::new();
        engine.set("project_name", config.name.as_str());
        let snake = to_snake_case(config.name.as_str());
        engine.set("project_name_snake", snake.as_str());
        ProjectGenerator { config, engine }
    }

    /// The configuration that this generator works from.
    pub fn config(&self) -> (r: &ProjectConfig)
        ensures
            r@ == self@,
    {
        &self.config
    }
}


/// The entry of a module in the list of workspace members.
pub open spec fn member_of(module: Module) -> Seq<char> {
    "\"crates/"@ + module_name_of(module) + "\""@
}

/// The list of workspace members: the entries of the modules, separated by a
/// comma and a space.
pub open spec fn members_of(modules: Seq<Module>) -> Seq<char>
    decreases modules.len(),
{
    if modules.len() == 0 {
        Seq::empty()
    } else if modules.len() == 1 {
        member_of(modules[0])
    } else {
        members_of(modules.drop_last()) + ", "@ + member_of(modules.last())
    }
}

/// The author entry of the workspace manifest: `"Name <address>"` in quotes
/// where both are known, the name alone or the address in angle brackets where
/// one is, and nothing where neither is.
pub open spec fn authors_of(name: Seq<char>, email: Seq<char>) -> Seq<char> {
    if name.len() > 0 && email.len() > 0 {
        "\""@ + name + " <"@ + email + ">"@ + "\""@
    } else if name.len() > 0 {
        "\""@ + name + "\""@
    } else if email.len() > 0 {
        "\""@ + "<"@ + email + ">"@ + "\""@
    } else {
        Seq::empty()
    }
}

/// The repository entry of the workspace manifest: empty where the author's
/// name is not known.
pub open spec fn repository_of(project: Seq<char>, author_name: Seq<char>) -> Seq<char> {
    if author_name.len() > 0 {
        "https://github.com/"@ + project
    } else {
        Seq::empty()
    }
}

/// The variables of the workspace manifest.
pub open spec fn workspace_vars(cfg: ConfigView) -> Map<Seq<char>, Seq<char>> {
    Map::<Seq<char>, Seq<char>>::empty().insert("project_name"@, cfg.name).insert(
        "modules"@,
        members_of(cfg.modules()),
    ).insert("authors"@, authors_of(cfg.author_name, cfg.author_email)).insert(
        "repository"@,
        repository_of(cfg.name, cfg.author_name),
    )
}

/// The workspace manifest. The store must hold its template.
pub open spec fn workspace_plan(store: Map<Seq<char>, Seq<char>>, cfg: ConfigView) -> Seq<OpView> {
    seq![
        OpView::WriteFile {
            path: "Cargo.toml"@,
            content: render_spec(workspace_vars(cfg), store["base/Cargo.workspace.toml"@]),
        },
    ]
}

/// The workflow files of the continuous integration.
pub open spec fn workflows_plan(
    store: Map<Seq<char>, Seq<char>>,
    vars: Map<Seq<char>, Seq<char>>,
) -> Seq<OpView> {
    seq![OpView::CreateDir { path: ".github/workflows"@ }] + rendered(
        store,
        vars,
        "github/build.yml"@,
        ".github/workflows/build.yml"@,
    ) + rendered(store, vars, "github/test.yml"@, ".github/workflows/test.yml"@) + rendered(
        store,
        vars,
        "github/release.yml"@,
        ".github/workflows/release.yml"@,
    )
}

/// The container build files.
pub open spec fn docker_plan(
    store: Map<Seq<char>, Seq<char>>,
    vars: Map<Seq<char>, Seq<char>>,
) -> Seq<OpView> {
    rendered(store, vars, "docker/Dockerfile"@, "Dockerfile"@) + rendered(
        store,
        vars,
        "docker/dockerignore"@,
        ".dockerignore"@,
    )
}

/// The template of a top-level file that the sample project has in a form of
/// its own.
pub open spec fn top_template(project_type: ProjectType, sample: Seq<char>, base: Seq<char>) -> Seq<
    char,
> {
    if project_type == ProjectType::Sample {
        sample
    } else {
        base
    }
}

/// The automation file.
pub open spec fn makefile_plan(store: Map<Seq<char>, Seq<char>>, cfg: ConfigView) -> Seq<OpView> {
    rendered(
        store,
        base_vars(cfg.name),
        top_template(cfg.project_type, "samples/Makefile"@, "base/Makefile"@),
        "Makefile"@,
    )
}

/// The readme.
pub open spec fn readme_plan(store: Map<Seq<char>, Seq<char>>, cfg: ConfigView) -> Seq<OpView> {
    rendered(
        store,
        base_vars(cfg.name),
        top_template(cfg.project_type, "samples/README.md"@, "base/README.md"@),
        "README.md"@,
    )
}

/// The variables of the protocol definition.
pub open spec fn proto_vars(name: Seq<char>) -> Map<Seq<char>, Seq<char>> {
    Map::<Seq<char>, Seq<char>>::empty().insert("project_name"@, name).insert(
        "project_name_snake"@,
        snake_of(name),
    ).insert("project_name_pascal"@, pascal_of(name))
}

/// The protocol definitions.
pub open spec fn proto_plan(store: Map<Seq<char>, Seq<char>>, cfg: ConfigView) -> Seq<OpView> {
    seq![OpView::CreateDir { path: "proto"@ }] + rendered(
        store,
        proto_vars(cfg.name),
        "proto/service.proto"@,
        "proto/service.proto"@,
    )
}

/// The name of a kind of frontend in template paths.
pub open spec fn frontend_name_of(frontend: FrontendType) -> Seq<char> {
    match frontend {
        FrontendType::Spa => "spa"@,
        FrontendType::Ssr => "ssr"@,
    }
}

/// The files of a single-page frontend.
pub open spec fn spa_plan(
    store: Map<Seq<char>, Seq<char>>,
    vars: Map<Seq<char>, Seq<char>>,
) -> Seq<OpView> {
    copied(store, "frontend/spa/vite.config.ts"@, "frontend/vite.config.ts"@) + rendered(
        store,
        vars,
        "frontend/spa/index.html"@,
        "frontend/index.html"@,
    ) + copied(store, "frontend/spa/nginx.conf"@, "frontend/nginx.conf"@) + seq![
        OpView::CreateDir { path: "frontend/src"@ },
    ] + copied(store, "frontend/spa/src/main.tsx"@, "frontend/src/main.tsx"@) + rendered(
        store,
        vars,
        "frontend/spa/src/App.tsx"@,
        "frontend/src/App.tsx"@,
    ) + copied(store, "frontend/spa/src/vite-env.d.ts"@, "frontend/src/vite-env.d.ts"@)
}

/// The files of a server-side rendered frontend.
pub open spec fn ssr_plan(
    store: Map<Seq<char>, Seq<char>>,
    vars: Map<Seq<char>, Seq<char>>,
) -> Seq<OpView> {
    copied(store, "frontend/ssr/next.config.ts"@, "frontend/next.config.ts"@) + seq![
        OpView::CreateDir { path: "frontend/app"@ },
    ] + rendered(store, vars, "frontend/ssr/app/layout.tsx"@, "frontend/app/layout.tsx"@)
        + rendered(store, vars, "frontend/ssr/app/page.tsx"@, "frontend/app/page.tsx"@) + copied(
        store,
        "frontend/ssr/app/globals.css"@,
        "frontend/app/globals.css"@,
    )
}

/// The frontend tree of a project with the frontend `frontend`.
pub open spec fn frontend_plan(
    store: Map<Seq<char>, Seq<char>>,
    vars: Map<Seq<char>, Seq<char>>,
    frontend: FrontendType,
) -> Seq<OpView> {
    let prefix = "frontend/"@ + frontend_name_of(frontend) + "/"@;
    seq![OpView::CreateDir { path: "frontend"@ }] + rendered(
        store,
        vars,
        prefix + "package.json"@,
        "frontend/package.json"@,
    ) + copied(store, prefix + "tsconfig.json"@, "frontend/tsconfig.json"@) + copied(
        store,
        prefix + "Dockerfile"@,
        "frontend/Dockerfile"@,
    ) + copied(store, prefix + "dockerignore"@, "frontend/.dockerignore"@) + (match frontend {
        FrontendType::Spa => spa_plan(store, vars),
        FrontendType::Ssr => ssr_plan(store, vars),
    })
}

/// The text stored under `path`; the empty text where there is none.
pub open spec fn text_or_empty(store: Map<Seq<char>, Seq<char>>, path: Seq<char>) -> Seq<char> {
    if store.contains_key(path) {
        store[path]
    } else {
        Seq::empty()
    }
}

/// The variables of the compose file: the piece that describes the frontend
/// service.
pub open spec fn compose_vars(
    store: Map<Seq<char>, Seq<char>>,
    frontend: FrontendType,
) -> Map<Seq<char>, Seq<char>> {
    Map::<Seq<char>, Seq<char>>::empty().insert(
        "frontend_service"@,
        text_or_empty(
            store,
            "frontend/"@ + frontend_name_of(frontend) + "/docker-compose.service.yml"@,
        ),
    )
}

/// The compose file of a project with the frontend `frontend`.
pub open spec fn compose_plan(
    store: Map<Seq<char>, Seq<char>>,
    frontend: FrontendType,
) -> Seq<OpView> {
    rendered(
        store,
        compose_vars(store, frontend),
        "base/docker-compose.yml"@,
        "docker-compose.yml"@,
    )
}

/// The directory of a module.
pub open spec fn module_dir_of(module: Module) -> Seq<char> {
    "crates/"@ + module_name_of(module)
}

/// The template of a module's manifest. The command-line module of a service
/// and that of a sample have templates of their own.
pub open spec fn manifest_template_of(project_type: ProjectType, module: Module) -> Seq<char> {
    if module == Module::Cli && project_type == ProjectType::Sample {
        "samples/cli/Cargo.toml"@
    } else if module == Module::Cli && project_type == ProjectType::Service {
        "modules/cli/Cargo_service.toml"@
    } else {
        "modules/"@ + module_name_of(module) + "/Cargo.toml"@
    }
}

/// What the manifest of the persistence module depends on.
pub open spec fn persistence_deps_of(persistence: Option<PersistenceType>) -> Seq<char> {
    match persistence {
        Some(PersistenceType::Postgres) =>
            "sqlx = { version = \"0.7\", features = [\"runtime-tokio\", \"postgres\"] }"@,
        Some(PersistenceType::Sqlite) =>
            "sqlx = { version = \"0.7\", features = [\"runtime-tokio\", \"sqlite\"] }"@,
        _ => Seq::empty(),
    }
}

/// The variables of a module's manifest.
pub open spec fn manifest_vars(cfg: ConfigView, module: Module) -> Map<Seq<char>, Seq<char>> {
    let named = Map::<Seq<char>, Seq<char>>::empty().insert("project_name"@, cfg.name).insert(
        "module_name"@,
        module_name_of(module),
    );
    let stored = if module == Module::Persistence {
        named.insert("persistence_deps"@, persistence_deps_of(cfg.persistence))
    } else {
        named
    };
    if module == Module::Api && cfg.has_grpc {
        stored.insert("grpc_deps"@, "tonic = \"0.11\"\nprost = \"0.12\""@).insert(
            "build_deps"@,
            "\n[build-dependencies]\ntonic-build = \"0.11\""@,
        )
    } else {
        stored.insert("grpc_deps"@, Seq::empty()).insert("build_deps"@, Seq::empty())
    }
}

/// The manifest of a module.
pub open spec fn manifest_plan(
    store: Map<Seq<char>, Seq<char>>,
    cfg: ConfigView,
    module: Module,
) -> Seq<OpView> {
    rendered(
        store,
        manifest_vars(cfg, module),
        manifest_template_of(cfg.project_type, module),
        module_dir_of(module) + "/Cargo.toml"@,
    )
}

/// The name of a module's entry file.
pub open spec fn entry_file_of(module: Module) -> Seq<char> {
    if module == Module::Cli {
        "main.rs"@
    } else {
        "lib.rs"@
    }
}

/// The template of a module's entry file.
pub open spec fn entry_template_of(project_type: ProjectType, module: Module) -> Seq<char> {
    if module == Module::Cli && project_type == ProjectType::Sample {
        "samples/cli/main.rs"@
    } else if module == Module::Cli && project_type == ProjectType::Service {
        "modules/cli/main_service.rs"@
    } else {
        "modules/"@ + module_name_of(module) + "/"@ + entry_file_of(module)
    }
}

/// The routes and handlers of the `api` module, and its build script where
/// the project speaks gRPC. The build script stands beside `src`, not in it.
pub open spec fn api_files_plan(store: Map<Seq<char>, Seq<char>>, cfg: ConfigView) -> Seq<OpView> {
    let vars = base_vars(cfg.name);
    rendered(
        store,
        vars,
        top_template(cfg.project_type, "samples/api/routes.rs"@, "modules/api/routes.rs"@),
        "crates/api/src/routes.rs"@,
    ) + seq![OpView::CreateDir { path: "crates/api/src/handlers"@ }] + rendered(
        store,
        vars,
        top_template(
            cfg.project_type,
            "samples/api/handlers/mod.rs"@,
            "modules/api/handlers/mod.rs"@,
        ),
        "crates/api/src/handlers/mod.rs"@,
    ) + (if cfg.has_grpc {
        rendered(store, vars, "modules/api/build.rs"@, "crates/api/build.rs"@)
    } else {
        seq![]
    })
}

/// The files that a module has in `src` beside its entry file.
pub open spec fn extra_src_plan(
    store: Map<Seq<char>, Seq<char>>,
    cfg: ConfigView,
    module: Module,
) -> Seq<OpView> {
    let vars = base_vars(cfg.name);
    match module {
        Module::Core => rendered(store, vars, "modules/core/error.rs"@, "crates/core/src/error.rs"@),
        Module::Api => api_files_plan(store, cfg),
        Module::Runtime => rendered(
            store,
            vars,
            "modules/runtime/server.rs"@,
            "crates/runtime/src/server.rs"@,
        ),
        Module::Client => rendered(
            store,
            vars,
            "modules/client/http.rs"@,
            "crates/client/src/http.rs"@,
        ),
        _ => seq![],
    }
}

/// The `src` directory of a module.
pub open spec fn module_src_plan(
    store: Map<Seq<char>, Seq<char>>,
    cfg: ConfigView,
    module: Module,
) -> Seq<OpView> {
    seq![OpView::CreateDir { path: module_dir_of(module) + "/src"@ }] + rendered(
        store,
        base_vars(cfg.name),
        entry_template_of(cfg.project_type, module),
        module_dir_of(module) + "/src/"@ + entry_file_of(module),
    ) + extra_src_plan(store, cfg, module)
}

/// What a module has beside its manifest and `src`: examples for `core`,
/// migrations for `persistence` where the project keeps data.
pub open spec fn module_extras_plan(
    store: Map<Seq<char>, Seq<char>>,
    cfg: ConfigView,
    module: Module,
) -> Seq<OpView> {
    if module == Module::Core {
        seq![OpView::CreateDir { path: "crates/core/examples"@ }] + rendered(
            store,
            base_vars(cfg.name),
            "modules/core/examples/basic.rs"@,
            "crates/core/examples/basic.rs"@,
        )
    } else if module == Module::Persistence && cfg.persistence is Some {
        seq![
            OpView::CreateDir { path: "crates/persistence/migrations"@ },
            OpView::WriteFile {
                path: "crates/persistence/migrations/.gitkeep"@,
                content: Seq::empty(),
            },
        ]
    } else {
        seq![]
    }
}

/// Everything of one module.
pub open spec fn module_plan(
    store: Map<Seq<char>, Seq<char>>,
    cfg: ConfigView,
    module: Module,
) -> Seq<OpView> {
    seq![OpView::CreateDir { path: module_dir_of(module) }] + manifest_plan(store, cfg, module)
        + module_src_plan(store, cfg, module) + module_extras_plan(store, cfg, module)
}

/// Everything of the modules `modules`, one after the other.
pub open spec fn modules_plan(
    store: Map<Seq<char>, Seq<char>>,
    cfg: ConfigView,
    modules: Seq<Module>,
) -> Seq<OpView>
    decreases modules.len(),
{
    if modules.len() == 0 {
        seq![]
    } else {
        modules_plan(store, cfg, modules.drop_last()) + module_plan(store, cfg, modules.last())
    }
}

/// The board module of the sample project.
pub open spec fn board_plan(
    store: Map<Seq<char>, Seq<char>>,
    vars: Map<Seq<char>, Seq<char>>,
) -> Seq<OpView> {
    seq![OpView::CreateDir { path: "crates/core/src/board"@ }] + rendered(
        store,
        vars,
        "samples/board/mod.rs"@,
        "crates/core/src/board/mod.rs"@,
    ) + rendered(store, vars, "samples/board/models.rs"@, "crates/core/src/board/models.rs"@)
        + rendered(
        store,
        vars,
        "samples/board/permission.rs"@,
        "crates/core/src/board/permission.rs"@,
    )
}

/// The end-to-end tests of the sample project.
pub open spec fn e2e_plan(
    store: Map<Seq<char>, Seq<char>>,
    vars: Map<Seq<char>, Seq<char>>,
) -> Seq<OpView> {
    seq![OpView::CreateDir { path: "e2e"@ }] + rendered(
        store,
        vars,
        "samples/e2e/playwright.config.ts"@,
        "e2e/playwright.config.ts"@,
    ) + rendered(store, vars, "samples/e2e/package.json"@, "e2e/package.json"@) + seq![
        OpView::CreateDir { path: "e2e/helpers"@ },
    ] + copied(store, "samples/e2e/helpers/auth.ts"@, "e2e/helpers/auth.ts"@) + seq![
        OpView::CreateDir { path: "e2e/tests"@ },
    ] + copied(store, "samples/e2e/tests/posts.spec.ts"@, "e2e/tests/posts.spec.ts"@) + seq![
        OpView::CreateDir { path: "e2e/fixtures"@ },
        OpView::WriteFile { path: "e2e/fixtures/.gitkeep"@, content: Seq::empty() },
    ]
}

/// The documents of the sample project.
pub open spec fn docs_plan(
    store: Map<Seq<char>, Seq<char>>,
    vars: Map<Seq<char>, Seq<char>>,
) -> Seq<OpView> {
    seq![OpView::CreateDir { path: "docs"@ }] + rendered(
        store,
        vars,
        "samples/docs/api.md"@,
        "docs/api.md"@,
    ) + rendered(store, vars, "samples/docs/architecture.md"@, "docs/architecture.md"@)
        + rendered(store, vars, "samples/docs/e2e-testing.md"@, "docs/e2e-testing.md"@)
}

/// What only the sample project has. Its compose file comes last and takes
/// the place of the one written for the frontend.
pub open spec fn sample_plan(
    store: Map<Seq<char>, Seq<char>>,
    vars: Map<Seq<char>, Seq<char>>,
) -> Seq<OpView> {
    board_plan(store, vars) + e2e_plan(store, vars) + docs_plan(store, vars) + rendered(
        store,
        vars,
        "samples/docker-compose.yml"@,
        "docker-compose.yml"@,
    )
}

/// What every project has at its top: the workspace manifest, the workflow
/// files, the container build files, the automation file, the readme, and the
/// ignore and toolchain files. The store must hold the template of the
/// workspace manifest.
pub open spec fn common_plan(store: Map<Seq<char>, Seq<char>>, cfg: ConfigView) -> Seq<OpView> {
    let vars = base_vars(cfg.name);
    workspace_plan(store, cfg) + workflows_plan(store, vars) + docker_plan(store, vars)
        + makefile_plan(store, cfg) + readme_plan(store, cfg) + rendered(
        store,
        vars,
        "base/gitignore"@,
        ".gitignore"@,
    ) + rendered(store, vars, "base/rust-toolchain.toml"@, "rust-toolchain.toml"@)
}

/// What the choices of a project add at its top: protocol definitions for
/// gRPC, an example environment for persistence, and for a frontend its tree
/// and the compose file.
pub open spec fn optional_plan(store: Map<Seq<char>, Seq<char>>, cfg: ConfigView) -> Seq<OpView> {
    let vars = base_vars(cfg.name);
    (if cfg.has_grpc {
        proto_plan(store, cfg)
    } else {
        seq![]
    }) + (if cfg.persistence is Some {
        rendered(store, vars, "base/env.example"@, ".env.example"@)
    } else {
        seq![]
    }) + (match cfg.frontend {
        Some(frontend) => frontend_plan(store, vars, frontend) + compose_plan(store, frontend),
        None => seq![],
    })
}

/// The plan of the project that `cfg` describes, with the templates of
/// `store`. The store must hold the template of the workspace manifest. The
/// first step makes the root itself, whose path is empty; the modules follow
/// in the order of [`ConfigView::modules`].
pub open spec fn project_plan(store: Map<Seq<char>, Seq<char>>, cfg: ConfigView) -> Seq<OpView> {
    seq![OpView::CreateDir { path: Seq::empty() }] + common_plan(store, cfg) + optional_plan(
        store,
        cfg,
    ) + modules_plan(store, cfg, cfg.modules()) + (if cfg.project_type == ProjectType::Sample {
        sample_plan(store, base_vars(cfg.name))
    } else {
        seq![]
    })
}

/// A step of the first or of the second of two pieces is a step of the two
/// together.
proof fn lemma_step_of_either(a: Seq<OpView>, b: Seq<OpView>, step: OpView)
    requires
        a.contains(step) || b.contains(step),
    ensures
        (a + b).contains(step),
{
    if a.contains(step) {
        let i = choose|i: int| 0 <= i < a.len() && a[i] == step;
        assert((a + b)[i] == step);
    } else {
        let i = choose|i: int| 0 <= i < b.len() && b[i] == step;
        assert((a + b)[a.len() + i] == step);
    }
}

/// The plan of some modules makes the directory of each of them.
pub proof fn lemma_modules_plan_makes_dirs(
    store: Map<Seq<char>, Seq<char>>,
    cfg: ConfigView,
    modules: Seq<Module>,
    module: Module,
)
    requires
        modules.contains(module),
    ensures
        modules_plan(store, cfg, modules).contains(
            OpView::CreateDir { path: module_dir_of(module) },
        ),
    decreases modules.len(),
{
    let step = OpView::CreateDir { path: module_dir_of(module) };
    let before = modules_plan(store, cfg, modules.drop_last());
    let last = module_plan(store, cfg, modules.last());
    if modules.last() == module {
        assert(last[0] == step);
    } else {
        let i = choose|i: int| 0 <= i < modules.len() && modules[i] == module;
        assert(modules.drop_last()[i] == module);
        lemma_modules_plan_makes_dirs(store, cfg, modules.drop_last(), module);
    }
    lemma_step_of_either(before, last, step);
}

/// The plan of a project makes the directory of every module of its
/// configuration: `crates/core` always, and the others as
/// [`crate::config::types::lemma_module_set`] says.
pub proof fn lemma_plan_makes_module_dirs(
    store: Map<Seq<char>, Seq<char>>,
    cfg: ConfigView,
    module: Module,
)
    requires
        cfg.modules().contains(module),
    ensures
        project_plan(store, cfg).contains(OpView::CreateDir { path: module_dir_of(module) }),
{
    let step = OpView::CreateDir { path: module_dir_of(module) };
    let head = seq![OpView::CreateDir { path: Seq::empty() }] + common_plan(store, cfg)
        + optional_plan(store, cfg);
    let tail = if cfg.project_type == ProjectType::Sample {
        sample_plan(store, base_vars(cfg.name))
    } else {
        seq![]
    };
    lemma_modules_plan_makes_dirs(store, cfg, cfg.modules(), module);
    lemma_step_of_either(head, modules_plan(store, cfg, cfg.modules()), step);
    lemma_step_of_either(head + modules_plan(store, cfg, cfg.modules()), tail, step);
}

/// A plan that ended early: the steps that were planned before the failure,
/// which are still to be carried out, and what failed.
#[derive(Debug)]
pub struct Stopped {
    pub planned: Vec<FileOp>,
    pub error: BootsError,
}

/// What generating gives. Where the root of the project is already there,
/// nothing is planned and the error names the project. Where the store lacks
/// the template of the workspace manifest, the making of the root is all that
/// is planned: what was done before a failure stays.
pub open spec fn generate_spec(
    store: Map<Seq<char>, Seq<char>>,
    cfg: ConfigView,
    root_exists: bool,
) -> Result<Seq<OpView>, (Seq<OpView>, ErrorView)> {
    if root_exists {
        Err((Seq::empty(), ErrorView::DirectoryExists(cfg.name)))
    } else if !store.contains_key("base/Cargo.workspace.toml"@) {
        Err(
            (
                seq![OpView::CreateDir { path: Seq::empty() }],
                ErrorView::TemplateError("Cargo.workspace.toml not found"@),
            ),
        )
    } else {
        Ok(project_plan(store, cfg))
    }
}

/// The outcome of generating with its strings as sequences of characters.
pub open spec fn generated_view(r: Result<Vec<FileOp>, Stopped>) -> Result<
    Seq<OpView>,
    (Seq<OpView>, ErrorView),
> {
    match r {
        Ok(plan) => Ok(plan_view(plan@)),
        Err(stopped) => Err((plan_view(stopped.planned@), stopped.error@)),
    }
}

/// The list of workspace members for `modules`.
fn members(modules: &Vec<Module>) -> (r: Vec<char>)
    ensures
        r@ == members_of(modules@),
{
    let mut out: Vec<char> = Vec::new();
    let mut i: usize = 0;
    assert(modules@.take(0) == Seq::<Module>::empty());
    while i < modules.len()
        invariant
            i <= modules.len(),
            out@ == members_of(modules@.take(i as int)),
        decreases modules.len() - i,
    {
        let ghost upto = modules@.take(i + 1);
        assert(upto.drop_last() == modules@.take(i as int));
        assert(upto.last() == modules@[i as int]);
        if i > 0 {
            push_str(&mut out, ", ");
        }
        let name = module_name(&modules[i]);
        push_str(&mut out, "\"crates/");
        push_str(&mut out, name.as_str());
        push_str(&mut out, "\"");
        assert(out@ =~= members_of(upto));
        i = i + 1;
    }
    assert(modules@.take(i as int) == modules@);
    out
}

/// The author entry of the workspace manifest.
fn authors(name: &str, email: &str) -> (r: Vec<char>)
    ensures
        r@ == authors_of(name@, email@),
{
    let mut out: Vec<char> = Vec::new();
    if !name.is_empty() && !email.is_empty() {
        push_str(&mut out, "\"");
        push_str(&mut out, name);
        push_str(&mut out, " <");
        push_str(&mut out, email);
        push_str(&mut out, ">");
        push_str(&mut out, "\"");
    } else if !name.is_empty() {
        push_str(&mut out, "\"");
        push_str(&mut out, name);
        push_str(&mut out, "\"");
    } else if !email.is_empty() {
        push_str(&mut out, "\"");
        push_str(&mut out, "<");
        push_str(&mut out, email);
        push_str(&mut out, ">");
        push_str(&mut out, "\"");
    }
    assert(out@ =~= authors_of(name@, email@));
    out
}

/// The repository entry of the workspace manifest.
fn repository(project: &str, author_name: &str) -> (r: Vec<char>)
    ensures
        r@ == repository_of(project@, author_name@),
{
    let mut out: Vec<char> = Vec::new();
    if !author_name.is_empty() {
        push_str(&mut out, "https://github.com/");
        push_str(&mut out, project);
    }
    assert(out@ =~= repository_of(project@, author_name@));
    out
}

/// The name of a kind of frontend in template paths.
fn frontend_name(frontend: FrontendType) -> (r: &'static str)
    ensures
        r@ == frontend_name_of(frontend),
{
    match frontend {
        FrontendType::Spa => "spa",
        FrontendType::Ssr => "ssr",
    }
}

/// What the manifest of the persistence module depends on.
fn persistence_deps(persistence: Option<PersistenceType>) -> (r: Vec<char>)
    ensures
        r@ == persistence_deps_of(persistence),
{
    match persistence {
        Some(PersistenceType::Postgres) => to_chars(
            "sqlx = { version = \"0.7\", features = [\"runtime-tokio\", \"postgres\"] }",
        ),
        Some(PersistenceType::Sqlite) => to_chars(
            "sqlx = { version = \"0.7\", features = [\"runtime-tokio\", \"sqlite\"] }",
        ),
        _ => Vec::new(),
    }
}

impl ProjectGenerator {
    fn create_workspace(&self, store: &Templates, plan: &mut Vec<FileOp>) -> (r: Result<
        (),
        BootsError,
    >)
        ensures
            store@.contains_key("base/Cargo.workspace.toml"@) ==> r is Ok && plan_view(
                final(plan)@,
            ) == plan_view(old(plan)@) + workspace_plan(store@, self@),
            !store@.contains_key("base/Cargo.workspace.toml"@) ==> r is Err && r->Err_0@
                == ErrorView::TemplateError("Cargo.workspace.toml not found"@) && final(plan)@
                == old(plan)@,
    {
        let template = match store.get_chars("base/Cargo.workspace.toml") {
            Some(text) => text,
            None => {
                return Err(
                    BootsError::TemplateError(String::from_str("Cargo.workspace.toml not found")),
                );
            },
        };
        let modules = self.config.modules();
        let mut engine = TemplateEngine::new();
        engine.set("project_name", self.config.name.as_str());
        engine.set_chars("modules", members(&modules));
        engine.set_chars(
            "authors",
            authors(self.config.author_name.as_str(), self.config.author_email.as_str()),
        );
        engine.set_chars(
            "repository",
            repository(self.config.name.as_str(), self.config.author_name.as_str()),
        );
        let content = engine.render_chars(template);
        add_file(plan, "Cargo.toml", &content);
        Ok(())
    }

    fn create_github_workflows(&self, store: &Templates, plan: &mut Vec<FileOp>)
        ensures
            plan_view(final(plan)@) == plan_view(old(plan)@) + workflows_plan(
                store@,
                base_vars(self@.name),
            ),
    {
        proof {
            use_type_invariant(self);
        }
        add_dir(plan, ".github/workflows");
        add_rendered(plan, store, &self.engine, "github/build.yml", ".github/workflows/build.yml");
        add_rendered(plan, store, &self.engine, "github/test.yml", ".github/workflows/test.yml");
        add_rendered(
            plan,
            store,
            &self.engine,
            "github/release.yml",
            ".github/workflows/release.yml",
        );
    }

    fn create_docker(&self, store: &Templates, plan: &mut Vec<FileOp>)
        ensures
            plan_view(final(plan)@) == plan_view(old(plan)@) + docker_plan(
                store@,
                base_vars(self@.name),
            ),
    {
        proof {
            use_type_invariant(self);
        }
        add_rendered(plan, store, &self.engine, "docker/Dockerfile", "Dockerfile");
        add_rendered(plan, store, &self.engine, "docker/dockerignore", ".dockerignore");
    }

    fn create_makefile(&self, store: &Templates, plan: &mut Vec<FileOp>)
        ensures
            plan_view(final(plan)@) == plan_view(old(plan)@) + makefile_plan(store@, self@),
    {
        proof {
            use_type_invariant(self);
        }
        let template = match self.config.project_type {
            ProjectType::Sample => "samples/Makefile",
            _ => "base/Makefile",
        };
        add_rendered(plan, store, &self.engine, template, "Makefile");
    }

    fn create_readme(&self, store: &Templates, plan: &mut Vec<FileOp>)
        ensures
            plan_view(final(plan)@) == plan_view(old(plan)@) + readme_plan(store@, self@),
    {
        proof {
            use_type_invariant(self);
        }
        let template = match self.config.project_type {
            ProjectType::Sample => "samples/README.md",
            _ => "base/README.md",
        };
        add_rendered(plan, store, &self.engine, template, "README.md");
    }

    fn create_gitignore(&self, store: &Templates, plan: &mut Vec<FileOp>)
        ensures
            plan_view(final(plan)@) == plan_view(old(plan)@) + rendered(
                store@,
                base_vars(self@.name),
                "base/gitignore"@,
                ".gitignore"@,
            ),
    {
        proof {
            use_type_invariant(self);
        }
        add_rendered(plan, store, &self.engine, "base/gitignore", ".gitignore");
    }

    fn create_rust_toolchain(&self, store: &Templates, plan: &mut Vec<FileOp>)
        ensures
            plan_view(final(plan)@) == plan_view(old(plan)@) + rendered(
                store@,
                base_vars(self@.name),
                "base/rust-toolchain.toml"@,
                "rust-toolchain.toml"@,
            ),
    {
        proof {
            use_type_invariant(self);
        }
        add_rendered(plan, store, &self.engine, "base/rust-toolchain.toml", "rust-toolchain.toml");
    }

    fn create_proto(&self, store: &Templates, plan: &mut Vec<FileOp>)
        ensures
            plan_view(final(plan)@) == plan_view(old(plan)@) + proto_plan(store@, self@),
    {
        add_dir(plan, "proto");
        let mut engine = TemplateEngine::new();
        engine.set("project_name", self.config.name.as_str());
        let snake = to_snake_case(self.config.name.as_str());
        engine.set("project_name_snake", snake.as_str());
        let pascal = to_pascal_case(self.config.name.as_str());
        engine.set("project_name_pascal", pascal.as_str());
        add_rendered(plan, store, &engine, "proto/service.proto", "proto/service.proto");
    }

    fn create_env_example(&self, store: &Templates, plan: &mut Vec<FileOp>)
        ensures
            plan_view(final(plan)@) == plan_view(old(plan)@) + rendered(
                store@,
                base_vars(self@.name),
                "base/env.example"@,
                ".env.example"@,
            ),
    {
        proof {
            use_type_invariant(self);
        }
        add_rendered(plan, store, &self.engine, "base/env.example", ".env.example");
    }

    fn create_spa_files(&self, store: &Templates, plan: &mut Vec<FileOp>)
        ensures
            plan_view(final(plan)@) == plan_view(old(plan)@) + spa_plan(
                store@,
                base_vars(self@.name),
            ),
    {
        proof {
            use_type_invariant(self);
        }
        add_copied(plan, store, "frontend/spa/vite.config.ts", "frontend/vite.config.ts");
        add_rendered(plan, store, &self.engine, "frontend/spa/index.html", "frontend/index.html");
        add_copied(plan, store, "frontend/spa/nginx.conf", "frontend/nginx.conf");
        add_dir(plan, "frontend/src");
        add_copied(plan, store, "frontend/spa/src/main.tsx", "frontend/src/main.tsx");
        add_rendered(
            plan,
            store,
            &self.engine,
            "frontend/spa/src/App.tsx",
            "frontend/src/App.tsx",
        );
        add_copied(plan, store, "frontend/spa/src/vite-env.d.ts", "frontend/src/vite-env.d.ts");
    }

    fn create_ssr_files(&self, store: &Templates, plan: &mut Vec<FileOp>)
        ensures
            plan_view(final(plan)@) == plan_view(old(plan)@) + ssr_plan(
                store@,
                base_vars(self@.name),
            ),
    {
        proof {
            use_type_invariant(self);
        }
        add_copied(plan, store, "frontend/ssr/next.config.ts", "frontend/next.config.ts");
        add_dir(plan, "frontend/app");
        add_rendered(
            plan,
            store,
            &self.engine,
            "frontend/ssr/app/layout.tsx",
            "frontend/app/layout.tsx",
        );
        add_rendered(
            plan,
            store,
            &self.engine,
            "frontend/ssr/app/page.tsx",
            "frontend/app/page.tsx",
        );
        add_copied(plan, store, "frontend/ssr/app/globals.css", "frontend/app/globals.css");
    }

    fn create_frontend(&self, store: &Templates, frontend: FrontendType, plan: &mut Vec<FileOp>)
        ensures
            plan_view(final(plan)@) == plan_view(old(plan)@) + frontend_plan(
                store@,
                base_vars(self@.name),
                frontend,
            ),
    {
        proof {
            use_type_invariant(self);
        }
        let kind = frontend_name(frontend);
        let prefix = concat3("frontend/", kind, "/");
        add_dir(plan, "frontend");
        let package = concat2(prefix.as_str(), "package.json");
        add_rendered(plan, store, &self.engine, package.as_str(), "frontend/package.json");
        let tsconfig = concat2(prefix.as_str(), "tsconfig.json");
        add_copied(plan, store, tsconfig.as_str(), "frontend/tsconfig.json");
        let dockerfile = concat2(prefix.as_str(), "Dockerfile");
        add_copied(plan, store, dockerfile.as_str(), "frontend/Dockerfile");
        let dockerignore = concat2(prefix.as_str(), "dockerignore");
        add_copied(plan, store, dockerignore.as_str(), "frontend/.dockerignore");
        match frontend {
            FrontendType::Spa => self.create_spa_files(store, plan),
            FrontendType::Ssr => self.create_ssr_files(store, plan),
        }
    }

    fn create_docker_compose(
        &self,
        store: &Templates,
        frontend: FrontendType,
        plan: &mut Vec<FileOp>,
    )
        ensures
            plan_view(final(plan)@) == plan_view(old(plan)@) + compose_plan(store@, frontend),
    {
        let kind = frontend_name(frontend);
        let path = concat3("frontend/", kind, "/docker-compose.service.yml");
        let service = match store.get_chars(path.as_str()) {
            Some(text) => text.clone(),
            None => Vec::new(),
        };
        let mut engine = TemplateEngine::new();
        engine.set_chars("frontend_service", service);
        add_rendered(plan, store, &engine, "base/docker-compose.yml", "docker-compose.yml");
    }
}


impl ProjectGenerator {
    fn create_module_cargo(&self, store: &Templates, module: &Module, plan: &mut Vec<FileOp>)
        ensures
            plan_view(final(plan)@) == plan_view(old(plan)@) + manifest_plan(
                store@,
                self@,
                *module,
            ),
    {
        let name = module_name(module);
        let template = match (module, self.config.project_type) {
            (Module::Cli, ProjectType::Sample) => String::from_str("samples/cli/Cargo.toml"),
            (Module::Cli, ProjectType::Service) => String::from_str(
                "modules/cli/Cargo_service.toml",
            ),
            _ => concat3("modules/", name.as_str(), "/Cargo.toml"),
        };
        let mut engine = TemplateEngine::new();
        engine.set("project_name", self.config.name.as_str());
        engine.set("module_name", name.as_str());
        match module {
            Module::Persistence => {
                engine.set_chars("persistence_deps", persistence_deps(self.config.persistence));
            },
            _ => {},
        }
        let with_grpc = match module {
            Module::Api => self.config.has_grpc,
            _ => false,
        };
        if with_grpc {
            engine.set("grpc_deps", "tonic = \"0.11\"\nprost = \"0.12\"");
            engine.set("build_deps", "\n[build-dependencies]\ntonic-build = \"0.11\"");
        } else {
            engine.set_chars("grpc_deps", Vec::new());
            engine.set_chars("build_deps", Vec::new());
        }
        let target = concat3("crates/", name.as_str(), "/Cargo.toml");
        assert(target@ =~= module_dir_of(*module) + "/Cargo.toml"@);
        add_rendered(plan, store, &engine, template.as_str(), target.as_str());
    }

    fn create_core_files(&self, store: &Templates, plan: &mut Vec<FileOp>)
        ensures
            plan_view(final(plan)@) == plan_view(old(plan)@) + extra_src_plan(
                store@,
                self@,
                Module::Core,
            ),
    {
        proof {
            use_type_invariant(self);
        }
        add_rendered(
            plan,
            store,
            &self.engine,
            "modules/core/error.rs",
            "crates/core/src/error.rs",
        );
    }

    fn create_api_files(&self, store: &Templates, plan: &mut Vec<FileOp>)
        ensures
            plan_view(final(plan)@) == plan_view(old(plan)@) + api_files_plan(store@, self@),
    {
        proof {
            use_type_invariant(self);
        }
        let (routes, handlers) = match self.config.project_type {
            ProjectType::Sample => ("samples/api/routes.rs", "samples/api/handlers/mod.rs"),
            _ => ("modules/api/routes.rs", "modules/api/handlers/mod.rs"),
        };
        add_rendered(plan, store, &self.engine, routes, "crates/api/src/routes.rs");
        add_dir(plan, "crates/api/src/handlers");
        add_rendered(plan, store, &self.engine, handlers, "crates/api/src/handlers/mod.rs");
        if self.config.has_grpc {
            add_rendered(plan, store, &self.engine, "modules/api/build.rs", "crates/api/build.rs");
        }
        assert(plan_view(plan@) =~= plan_view(old(plan)@) + api_files_plan(store@, self@));
    }

    fn create_runtime_files(&self, store: &Templates, plan: &mut Vec<FileOp>)
        ensures
            plan_view(final(plan)@) == plan_view(old(plan)@) + extra_src_plan(
                store@,
                self@,
                Module::Runtime,
            ),
    {
        proof {
            use_type_invariant(self);
        }
        add_rendered(
            plan,
            store,
            &self.engine,
            "modules/runtime/server.rs",
            "crates/runtime/src/server.rs",
        );
    }

    fn create_client_files(&self, store: &Templates, plan: &mut Vec<FileOp>)
        ensures
            plan_view(final(plan)@) == plan_view(old(plan)@) + extra_src_plan(
                store@,
                self@,
                Module::Client,
            ),
    {
        proof {
            use_type_invariant(self);
        }
        add_rendered(
            plan,
            store,
            &self.engine,
            "modules/client/http.rs",
            "crates/client/src/http.rs",
        );
    }

    fn create_module_src(&self, store: &Templates, module: &Module, plan: &mut Vec<FileOp>)
        ensures
            plan_view(final(plan)@) == plan_view(old(plan)@) + module_src_plan(
                store@,
                self@,
                *module,
            ),
    {
        proof {
            use_type_invariant(self);
        }
        let name = module_name(module);
        let src = concat3("crates/", name.as_str(), "/src");
        assert(src@ =~= module_dir_of(*module) + "/src"@);
        add_dir(plan, src.as_str());
        let entry = match module {
            Module::Cli => "main.rs",
            _ => "lib.rs",
        };
        let template = match (module, self.config.project_type) {
            (Module::Cli, ProjectType::Sample) => String::from_str("samples/cli/main.rs"),
            (Module::Cli, ProjectType::Service) => String::from_str("modules/cli/main_service.rs"),
            _ => {
                let dir = concat3("modules/", name.as_str(), "/");
                concat2(dir.as_str(), entry)
            },
        };
        let src_dir = concat3("crates/", name.as_str(), "/src/");
        let target = concat2(src_dir.as_str(), entry);
        assert(target@ =~= module_dir_of(*module) + "/src/"@ + entry_file_of(*module));
        add_rendered(plan, store, &self.engine, template.as_str(), target.as_str());
        let ghost before = plan_view(plan@);
        match module {
            Module::Core => self.create_core_files(store, plan),
            Module::Api => self.create_api_files(store, plan),
            Module::Runtime => self.create_runtime_files(store, plan),
            Module::Client => self.create_client_files(store, plan),
            _ => {},
        }
        assert(plan_view(plan@) =~= before + extra_src_plan(store@, self@, *module));
    }

    fn create_examples(&self, store: &Templates, plan: &mut Vec<FileOp>)
        ensures
            plan_view(final(plan)@) == plan_view(old(plan)@) + module_extras_plan(
                store@,
                self@,
                Module::Core,
            ),
    {
        proof {
            use_type_invariant(self);
        }
        add_dir(plan, "crates/core/examples");
        add_rendered(
            plan,
            store,
            &self.engine,
            "modules/core/examples/basic.rs",
            "crates/core/examples/basic.rs",
        );
    }

    fn create_migrations(&self, plan: &mut Vec<FileOp>)
        ensures
            plan_view(final(plan)@) == plan_view(old(plan)@) + seq![
                OpView::CreateDir { path: "crates/persistence/migrations"@ },
                OpView::WriteFile {
                    path: "crates/persistence/migrations/.gitkeep"@,
                    content: Seq::empty(),
                },
            ],
    {
        add_dir(plan, "crates/persistence/migrations");
        let empty: Vec<char> = Vec::new();
        add_file(plan, "crates/persistence/migrations/.gitkeep", &empty);
    }

    fn create_module(&self, store: &Templates, module: &Module, plan: &mut Vec<FileOp>)
        ensures
            plan_view(final(plan)@) == plan_view(old(plan)@) + module_plan(store@, self@, *module),
    {
        let name = module_name(module);
        let dir = concat2("crates/", name.as_str());
        add_dir(plan, dir.as_str());
        self.create_module_cargo(store, module, plan);
        self.create_module_src(store, module, plan);
        let ghost before = plan_view(plan@);
        match module {
            Module::Core => self.create_examples(store, plan),
            Module::Persistence => {
                if self.config.persistence.is_some() {
                    self.create_migrations(plan);
                }
            },
            _ => {},
        }
        assert(plan_view(plan@) =~= before + module_extras_plan(store@, self@, *module));
    }

    fn create_board_module(&self, store: &Templates, plan: &mut Vec<FileOp>)
        ensures
            plan_view(final(plan)@) == plan_view(old(plan)@) + board_plan(
                store@,
                base_vars(self@.name),
            ),
    {
        proof {
            use_type_invariant(self);
        }
        add_dir(plan, "crates/core/src/board");
        add_rendered(
            plan,
            store,
            &self.engine,
            "samples/board/mod.rs",
            "crates/core/src/board/mod.rs",
        );
        add_rendered(
            plan,
            store,
            &self.engine,
            "samples/board/models.rs",
            "crates/core/src/board/models.rs",
        );
        add_rendered(
            plan,
            store,
            &self.engine,
            "samples/board/permission.rs",
            "crates/core/src/board/permission.rs",
        );
    }

    fn create_e2e_tests(&self, store: &Templates, plan: &mut Vec<FileOp>)
        ensures
            plan_view(final(plan)@) == plan_view(old(plan)@) + e2e_plan(
                store@,
                base_vars(self@.name),
            ),
    {
        proof {
            use_type_invariant(self);
        }
        add_dir(plan, "e2e");
        add_rendered(
            plan,
            store,
            &self.engine,
            "samples/e2e/playwright.config.ts",
            "e2e/playwright.config.ts",
        );
        add_rendered(plan, store, &self.engine, "samples/e2e/package.json", "e2e/package.json");
        add_dir(plan, "e2e/helpers");
        add_copied(plan, store, "samples/e2e/helpers/auth.ts", "e2e/helpers/auth.ts");
        add_dir(plan, "e2e/tests");
        add_copied(plan, store, "samples/e2e/tests/posts.spec.ts", "e2e/tests/posts.spec.ts");
        add_dir(plan, "e2e/fixtures");
        let empty: Vec<char> = Vec::new();
        add_file(plan, "e2e/fixtures/.gitkeep", &empty);
    }

    fn create_sample_docs(&self, store: &Templates, plan: &mut Vec<FileOp>)
        ensures
            plan_view(final(plan)@) == plan_view(old(plan)@) + docs_plan(
                store@,
                base_vars(self@.name),
            ),
    {
        proof {
            use_type_invariant(self);
        }
        add_dir(plan, "docs");
        add_rendered(plan, store, &self.engine, "samples/docs/api.md", "docs/api.md");
        add_rendered(
            plan,
            store,
            &self.engine,
            "samples/docs/architecture.md",
            "docs/architecture.md",
        );
        add_rendered(
            plan,
            store,
            &self.engine,
            "samples/docs/e2e-testing.md",
            "docs/e2e-testing.md",
        );
    }

    fn create_sample_docker_compose(&self, store: &Templates, plan: &mut Vec<FileOp>)
        ensures
            plan_view(final(plan)@) == plan_view(old(plan)@) + rendered(
                store@,
                base_vars(self@.name),
                "samples/docker-compose.yml"@,
                "docker-compose.yml"@,
            ),
    {
        proof {
            use_type_invariant(self);
        }
        add_rendered(
            plan,
            store,
            &self.engine,
            "samples/docker-compose.yml",
            "docker-compose.yml",
        );
    }

    fn create_sample_files(&self, store: &Templates, plan: &mut Vec<FileOp>)
        ensures
            plan_view(final(plan)@) == plan_view(old(plan)@) + sample_plan(
                store@,
                base_vars(self@.name),
            ),
    {
        self.create_board_module(store, plan);
        self.create_e2e_tests(store, plan);
        self.create_sample_docs(store, plan);
        self.create_sample_docker_compose(store, plan);
    }

    fn create_common(&self, store: &Templates, plan: &mut Vec<FileOp>) -> (r: Result<
        (),
        BootsError,
    >)
        ensures
            store@.contains_key("base/Cargo.workspace.toml"@) ==> r is Ok && plan_view(
                final(plan)@,
            ) == plan_view(old(plan)@) + common_plan(store@, self@),
            !store@.contains_key("base/Cargo.workspace.toml"@) ==> r is Err && r->Err_0@
                == ErrorView::TemplateError("Cargo.workspace.toml not found"@) && final(plan)@
                == old(plan)@,
    {
        match self.create_workspace(store, plan) {
            Ok(()) => {},
            Err(e) => {
                return Err(e);
            },
        }
        self.create_github_workflows(store, plan);
        self.create_docker(store, plan);
        self.create_makefile(store, plan);
        self.create_readme(store, plan);
        self.create_gitignore(store, plan);
        self.create_rust_toolchain(store, plan);
        assert(plan_view(plan@) =~= plan_view(old(plan)@) + common_plan(store@, self@));
        Ok(())
    }

    fn create_optional(&self, store: &Templates, plan: &mut Vec<FileOp>)
        ensures
            plan_view(final(plan)@) == plan_view(old(plan)@) + optional_plan(store@, self@),
    {
        let ghost start = plan_view(plan@);
        let ghost for_grpc = if self@.has_grpc {
            proto_plan(store@, self@)
        } else {
            Seq::<OpView>::empty()
        };
        let ghost for_data = if self@.persistence is Some {
            rendered(store@, base_vars(self@.name), "base/env.example"@, ".env.example"@)
        } else {
            Seq::<OpView>::empty()
        };
        let ghost for_frontend = match self@.frontend {
            Some(frontend) => frontend_plan(store@, base_vars(self@.name), frontend)
                + compose_plan(store@, frontend),
            None => Seq::<OpView>::empty(),
        };
        if self.config.has_grpc {
            self.create_proto(store, plan);
        } else {
            proof {
                lemma_append_nothing(start);
            }
        }
        assert(plan_view(plan@) == start + for_grpc);
        if self.config.persistence.is_some() {
            self.create_env_example(store, plan);
        } else {
            proof {
                lemma_append_nothing(start + for_grpc);
            }
        }
        assert(plan_view(plan@) == start + for_grpc + for_data);
        match self.config.frontend {
            Some(frontend) => {
                self.create_frontend(store, frontend, plan);
                self.create_docker_compose(store, frontend, plan);
                proof {
                    lemma_append_twice(
                        start + for_grpc + for_data,
                        frontend_plan(store@, base_vars(self@.name), frontend),
                        compose_plan(store@, frontend),
                    );
                }
            },
            None => {
                proof {
                    lemma_append_nothing(start + for_grpc + for_data);
                }
            },
        }
        assert(plan_view(plan@) == start + for_grpc + for_data + for_frontend);
        proof {
            lemma_append_twice(start, for_grpc, for_data);
            lemma_append_twice(start, for_grpc + for_data, for_frontend);
            assert(optional_plan(store@, self@) == for_grpc + for_data + for_frontend);
        }
    }

    fn create_modules(&self, store: &Templates, plan: &mut Vec<FileOp>)
        ensures
            plan_view(final(plan)@) == plan_view(old(plan)@) + modules_plan(
                store@,
                self@,
                self@.modules(),
            ),
    {
        let modules = self.config.modules();
        let mut i: usize = 0;
        assert(modules@.take(0) == Seq::<Module>::empty());
        assert(plan_view(plan@) + Seq::<OpView>::empty() =~= plan_view(plan@));
        while i < modules.len()
            invariant
                i <= modules.len(),
                plan_view(plan@) == plan_view(old(plan)@) + modules_plan(
                    store@,
                    self@,
                    modules@.take(i as int),
                ),
            decreases modules.len() - i,
        {
            let ghost upto = modules@.take(i + 1);
            assert(upto.drop_last() == modules@.take(i as int));
            assert(upto.last() == modules@[i as int]);
            self.create_module(store, &modules[i], plan);
            i = i + 1;
        }
        assert(modules@.take(i as int) == modules@);
    }

    /// The plan of the project, made with the templates of `store`.
    /// `root_exists` says whether the directory of the project is already
    /// there: a project is only ever made anew, so nothing is planned then.
    /// Where the plan cannot be completed, the steps before the failure are
    /// handed back with the error.
    pub fn generate(&self, root_exists: bool, store: &Templates) -> (r: Result<
        Vec<FileOp>,
        Stopped,
    >)
        ensures
            generated_view(r) == generate_spec(store@, self@, root_exists),
            root_exists ==> r is Err && r->Err_0.planned@.len() == 0 && r->Err_0.error@
                == ErrorView::DirectoryExists(self@.name),
    {
        if root_exists {
            let stopped = Stopped {
                planned: Vec::new(),
                error: BootsError::DirectoryExists(self.config.name.clone()),
            };
            assert(plan_view(stopped.planned@) =~= Seq::<OpView>::empty());
            return Err(stopped);
        }
        let mut plan: Vec<FileOp> = Vec::new();
        plan.push(FileOp::CreateDir { path: String::new() });
        assert(plan_view(plan@) =~= seq![OpView::CreateDir { path: Seq::empty() }]);
        match self.create_common(store, &mut plan) {
            Ok(()) => {},
            Err(error) => {
                return Err(Stopped { planned: plan, error });
            },
        }
        self.create_optional(store, &mut plan);
        self.create_modules(store, &mut plan);
        let ghost built = plan_view(plan@);
        match self.config.project_type {
            ProjectType::Sample => self.create_sample_files(store, &mut plan),
            _ => {
                proof {
                    lemma_append_nothing(built);
                }
            },
        }
        Ok(plan)
    }
}

} // verus!
