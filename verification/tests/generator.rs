use boots_core::config::{parse_options, Module, ProjectConfig, ProjectType};
use boots_core::generator::project::{module_name, to_pascal_case, to_snake_case};
use boots_core::generator::{template_defines, FileOp, ProjectGenerator};
use boots_core::template::Templates;
use boots_core::BootsError;

fn store() -> Templates {
    let mut t = Templates::new();
    let files: Vec<(&str, &str)> = vec![
        (
            "base/Cargo.workspace.toml",
            "[workspace]\nmembers = [{{modules}}]\n# {{project_name}}\nauthors = [{{authors}}]\nrepository = \"{{repository}}\"\n",
        ),
        ("github/build.yml", "name: build {{project_name}}\n"),
        ("github/test.yml", "name: test\nenv: ${{ secrets.TOKEN }}\n"),
        ("github/release.yml", "name: release\n"),
        ("docker/Dockerfile", "FROM rust\n# {{project_name_snake}}\n"),
        ("docker/dockerignore", "target\n"),
        ("base/Makefile", "build:\n\tcargo build # {{project_name}}\n"),
        ("samples/Makefile", "up:\n\tdocker compose up # {{project_name}}\n"),
        ("base/README.md", "# {{project_name}}\n"),
        ("samples/README.md", "# {{project_name}} board\n"),
        ("base/gitignore", "/target\n"),
        ("base/rust-toolchain.toml", "[toolchain]\nchannel = \"stable\"\n"),
        ("base/env.example", "DATABASE_URL=postgres://localhost/{{project_name_snake}}\n"),
        (
            "base/docker-compose.yml",
            "services:\n  postgres:\n    image: postgres\n{{frontend_service}}",
        ),
        (
            "samples/docker-compose.yml",
            "services:\n  postgres:\n    image: postgres\n  minio:\n    image: minio/minio\n  app:\n    image: {{project_name}}\n",
        ),
        (
            "proto/service.proto",
            "package {{project_name_snake}};\nservice {{project_name_pascal}}Service {}\n// {{project_name}}\n",
        ),
        ("frontend/spa/package.json", "{\"name\": \"{{project_name}}-web\"}\n"),
        ("frontend/spa/tsconfig.json", "{ \"note\": \"{{project_name}}\" }\n"),
        ("frontend/spa/Dockerfile", "FROM node\n"),
        ("frontend/spa/dockerignore", "node_modules\n"),
        ("frontend/spa/docker-compose.service.yml", "  frontend:\n    build: ./frontend\n"),
        ("frontend/spa/vite.config.ts", "export default {}\n"),
        ("frontend/spa/index.html", "<title>{{project_name}}</title>\n"),
        ("frontend/spa/nginx.conf", "server {}\n"),
        ("frontend/spa/src/main.tsx", "render()\n"),
        ("frontend/spa/src/App.tsx", "export const name = \"{{project_name}}\"\n"),
        ("frontend/spa/src/vite-env.d.ts", "/// types\n"),
        ("frontend/ssr/package.json", "{\"name\": \"{{project_name}}-ssr\"}\n"),
        ("frontend/ssr/tsconfig.json", "{}\n"),
        ("frontend/ssr/Dockerfile", "FROM node\n"),
        ("frontend/ssr/dockerignore", ".next\n"),
        ("frontend/ssr/docker-compose.service.yml", "  frontend:\n    build: ./frontend # ssr\n"),
        ("frontend/ssr/next.config.ts", "export default {}\n"),
        ("frontend/ssr/app/layout.tsx", "// {{project_name}} layout\n"),
        ("frontend/ssr/app/page.tsx", "// {{project_name}} page\n"),
        ("frontend/ssr/app/globals.css", "body {}\n"),
        (
            "modules/core/Cargo.toml",
            "[package]\nname = \"{{project_name}}-{{module_name}}\"\n[dependencies]\n{{grpc_deps}}{{build_deps}}\n",
        ),
        ("modules/core/lib.rs", "pub mod error;\n// {{project_name_snake}}\n"),
        ("modules/core/error.rs", "pub struct Error;\n"),
        ("modules/core/examples/basic.rs", "fn main() {}\n"),
        (
            "modules/api/Cargo.toml",
            "[package]\nname = \"{{project_name}}-{{module_name}}\"\n[dependencies]\n{{grpc_deps}}\n{{build_deps}}\n",
        ),
        ("modules/api/lib.rs", "pub mod routes;\n"),
        ("modules/api/routes.rs", "// routes of {{project_name}}\n"),
        ("modules/api/handlers/mod.rs", "// handlers\n"),
        ("modules/api/build.rs", "fn main() { /* {{project_name_snake}} */ }\n"),
        ("samples/api/routes.rs", "// board routes\n"),
        ("samples/api/handlers/mod.rs", "// board handlers\n"),
        ("modules/runtime/Cargo.toml", "[package]\nname = \"{{project_name}}-{{module_name}}\"\n"),
        ("modules/runtime/lib.rs", "pub mod server;\n"),
        ("modules/runtime/server.rs", "use {{project_name_snake}}_api::create_router;\n"),
        ("modules/cli/Cargo.toml", "[package]\nname = \"{{project_name}}-cli\"\n# plain\n"),
        ("modules/cli/Cargo_service.toml", "[package]\nname = \"{{project_name}}-cli\"\n# service\n"),
        ("samples/cli/Cargo.toml", "[package]\nname = \"{{project_name}}-cli\"\n# sample\n"),
        ("modules/cli/main.rs", "fn main() { /* plain */ }\n"),
        ("modules/cli/main_service.rs", "fn main() { {{project_name_snake}}_runtime::run(); }\n"),
        ("samples/cli/main.rs", "fn main() { /* sample */ }\n"),
        ("modules/client/Cargo.toml", "[package]\nname = \"{{project_name}}-{{module_name}}\"\n"),
        ("modules/client/lib.rs", "pub mod http;\n"),
        ("modules/client/http.rs", "pub struct Client;\n"),
        (
            "modules/persistence/Cargo.toml",
            "[package]\nname = \"{{project_name}}-{{module_name}}\"\n[dependencies]\n{{persistence_deps}}\n",
        ),
        ("modules/persistence/lib.rs", "// store\n"),
        ("samples/board/mod.rs", "pub mod models;\npub mod permission;\n"),
        ("samples/board/models.rs", "pub struct Post;\n"),
        ("samples/board/permission.rs", "pub fn can() -> bool { true }\n"),
        ("samples/e2e/playwright.config.ts", "export default { name: '{{project_name}}' }\n"),
        ("samples/e2e/package.json", "{\"name\": \"{{project_name}}-e2e\"}\n"),
        ("samples/e2e/helpers/auth.ts", "// {{project_name}} stays as it is\n"),
        ("samples/e2e/tests/posts.spec.ts", "test('posts', () => {})\n"),
        ("samples/docs/api.md", "# API of {{project_name}}\n"),
        ("samples/docs/architecture.md", "# Architecture\n"),
        ("samples/docs/e2e-testing.md", "# E2E\n"),
    ];
    for (path, text) in files {
        t.insert(path, text);
    }
    t
}

fn plan(project_type: ProjectType, name: &str, options: Option<&str>) -> Vec<FileOp> {
    let config = parse_options(project_type, name, options, "", "").unwrap();
    ProjectGenerator::new(config).generate(false, &store()).unwrap()
}

fn has_dir(plan: &[FileOp], wanted: &str) -> bool {
    plan.iter().any(|op| matches!(op, FileOp::CreateDir { path } if path == wanted))
}

fn file<'a>(plan: &'a [FileOp], wanted: &str) -> Option<&'a str> {
    let mut found = None;
    for op in plan {
        if let FileOp::WriteFile { path, content } = op {
            if path == wanted {
                found = Some(content.as_str());
            }
        }
    }
    found
}

fn paths(plan: &[FileOp]) -> Vec<String> {
    plan.iter()
        .map(|op| match op {
            FileOp::CreateDir { path } => format!("{}/", path),
            FileOp::WriteFile { path, .. } => path.clone(),
        })
        .collect()
}

#[test]
fn test_service_generation() {
    let plan = plan(ProjectType::Service, "test-service", None);
    assert!(has_dir(&plan, "crates/api"), "api module missing");
    assert!(has_dir(&plan, "crates/runtime"), "runtime module missing");
    assert!(has_dir(&plan, "crates/cli"), "cli module missing");
    assert!(has_dir(&plan, "crates/core"), "core module missing");
    assert!(file(&plan, "Dockerfile").is_some(), "Dockerfile missing");
    assert!(file(&plan, "Makefile").is_some(), "Makefile missing");
}

#[test]
fn test_service_with_postgres() {
    let plan = plan(ProjectType::Service, "test-pg", Some("postgres"));
    assert!(has_dir(&plan, "crates/persistence"), "persistence module missing");
    let cargo_content = file(&plan, "crates/persistence/Cargo.toml").unwrap();
    assert!(cargo_content.contains("sqlx"), "sqlx dependency missing in persistence");
}

#[test]
fn test_cli_generation() {
    let plan = plan(ProjectType::Cli, "test-cli", None);
    assert!(has_dir(&plan, "crates/core"), "core module missing");
    assert!(has_dir(&plan, "crates/cli"), "cli module missing");
    assert!(!has_dir(&plan, "crates/api"), "api module should not exist");
    assert!(!has_dir(&plan, "crates/runtime"), "runtime module should not exist");
}

#[test]
fn test_cli_with_client() {
    let plan = plan(ProjectType::Cli, "test-cli-client", Some("client"));
    assert!(has_dir(&plan, "crates/client"), "client module missing");
    assert_eq!(file(&plan, "crates/client/src/http.rs"), Some("pub struct Client;\n"));
}

#[test]
fn test_lib_generation() {
    let plan = plan(ProjectType::Lib, "test-lib", None);
    assert!(has_dir(&plan, "crates/core"), "core module missing");
    assert!(has_dir(&plan, "crates/core/examples"), "examples directory missing");
    assert!(!has_dir(&plan, "crates/cli"), "cli module should not exist");
}

#[test]
fn test_service_with_grpc() {
    let plan = plan(ProjectType::Service, "test-grpc", Some("grpc"));
    assert!(has_dir(&plan, "proto"), "proto directory missing");
    assert!(file(&plan, "proto/service.proto").is_some(), "service.proto missing");
    assert!(file(&plan, "crates/api/build.rs").is_some(), "build.rs missing in api module");
    let cargo_content = file(&plan, "crates/api/Cargo.toml").unwrap();
    assert!(cargo_content.contains("tonic"), "tonic dependency missing in api");
    assert!(cargo_content.contains("tonic-build"), "tonic-build dependency missing in api");
}

#[test]
fn test_service_with_postgres_env() {
    let plan = plan(ProjectType::Service, "test-pg-env", Some("postgres"));
    let env_content = file(&plan, ".env.example").expect(".env.example missing");
    assert!(env_content.contains("DATABASE_URL"), "DATABASE_URL missing in .env.example");
}

#[test]
fn test_sample_generation() {
    let plan = plan(ProjectType::Sample, "test-board", Some("sample"));
    assert!(has_dir(&plan, "crates/core"), "core module missing");
    assert!(has_dir(&plan, "crates/api"), "api module missing");
    assert!(has_dir(&plan, "crates/runtime"), "runtime module missing");
    assert!(has_dir(&plan, "crates/cli"), "cli module missing");
    assert!(has_dir(&plan, "crates/persistence"), "persistence module missing");
    assert!(has_dir(&plan, "crates/core/src/board"), "board module missing");
    assert!(file(&plan, "crates/core/src/board/mod.rs").is_some(), "board/mod.rs missing");
    assert!(file(&plan, "crates/core/src/board/models.rs").is_some(), "board/models.rs missing");
    assert!(
        file(&plan, "crates/core/src/board/permission.rs").is_some(),
        "board/permission.rs missing"
    );
    assert!(has_dir(&plan, "e2e"), "e2e directory missing");
    assert!(file(&plan, "e2e/playwright.config.ts").is_some(), "playwright.config.ts missing");
    assert!(file(&plan, "e2e/package.json").is_some(), "e2e/package.json missing");
    assert!(has_dir(&plan, "docs"), "docs directory missing");
    assert!(file(&plan, "docs/api.md").is_some(), "docs/api.md missing");
    assert!(file(&plan, "docs/architecture.md").is_some(), "docs/architecture.md missing");
    assert!(has_dir(&plan, "frontend"), "frontend directory missing");
    let compose_content = file(&plan, "docker-compose.yml").unwrap();
    assert!(compose_content.contains("minio"), "minio service missing in docker-compose");
}

#[test]
fn test_sample_default_options() {
    let plan = plan(ProjectType::Sample, "test-board-default", Some("sample"));
    assert!(has_dir(&plan, "crates/core"), "core module missing");
}

#[test]
fn test_sample_ignores_other_options() {
    let plan = plan(ProjectType::Sample, "test-board-ignore", Some("sample,sqlite"));
    let compose_content = file(&plan, "docker-compose.yml").unwrap();
    assert!(compose_content.contains("postgres"), "postgres service missing");
    let manifest = file(&plan, "crates/persistence/Cargo.toml").unwrap();
    assert!(manifest.contains("\"postgres\""));
    assert!(!manifest.contains("sqlite"));
}

#[test]
fn existing_root_always_fails_without_a_plan() {
    for project_type in [ProjectType::Service, ProjectType::Cli, ProjectType::Lib, ProjectType::Sample] {
        let config = parse_options(project_type, "taken", Some("grpc"), "", "").unwrap();
        let stopped = ProjectGenerator::new(config).generate(true, &store()).unwrap_err();
        assert!(stopped.planned.is_empty());
        match stopped.error {
            BootsError::DirectoryExists(name) => assert_eq!(name, "taken"),
            _ => panic!("an existing root was accepted"),
        }
        let config = parse_options(project_type, "taken", None, "", "").unwrap();
        let empty = ProjectGenerator::new(config).generate(true, &Templates::new()).unwrap_err();
        assert!(empty.planned.is_empty());
        let message = empty.error.message();
        assert!(message.contains("already exists"));
        assert_eq!(message, "Directory already exists: taken");
    }
}

#[test]
fn missing_workspace_template_is_fatal() {
    let config = parse_options(ProjectType::Lib, "x", None, "", "").unwrap();
    let stopped = ProjectGenerator::new(config).generate(false, &Templates::new()).unwrap_err();
    match stopped.error {
        BootsError::TemplateError(what) => assert_eq!(what, "Cargo.workspace.toml not found"),
        _ => panic!("a plan without a workspace manifest"),
    }
    assert_eq!(paths(&stopped.planned), vec!["/"]);
}

#[test]
fn missing_workspace_template_leaves_the_root_behind() {
    let mut without = Templates::new();
    without.insert("base/Makefile", "all:\n");
    without.insert("docker/Dockerfile", "FROM rust\n");
    let config = parse_options(ProjectType::Service, "x", Some("postgres,grpc"), "", "").unwrap();
    let stopped = ProjectGenerator::new(config).generate(false, &without).unwrap_err();
    assert_eq!(stopped.planned.len(), 1);
    assert!(matches!(&stopped.planned[0], FileOp::CreateDir { path } if path.is_empty()));
    assert_eq!(stopped.error.message(), "Template error: Cargo.workspace.toml not found");
}

#[test]
fn other_missing_templates_are_skipped() {
    let mut only = Templates::new();
    only.insert("base/Cargo.workspace.toml", "[workspace]\nmembers = [{{modules}}]\n");
    let config = parse_options(ProjectType::Lib, "x", None, "", "").unwrap();
    let plan = ProjectGenerator::new(config).generate(false, &only).unwrap();
    assert_eq!(
        paths(&plan),
        vec![
            "/",
            "Cargo.toml",
            ".github/workflows/",
            "crates/core/",
            "crates/core/src/",
            "crates/core/examples/",
        ]
    );
    assert_eq!(file(&plan, "Cargo.toml"), Some("[workspace]\nmembers = [\"crates/core\"]\n"));
}

#[test]
fn scenario_service_with_postgres_and_grpc() {
    let plan = plan(ProjectType::Service, "my-api", Some("postgres,grpc"));
    for module in ["core", "api", "runtime", "cli", "persistence"] {
        assert!(has_dir(&plan, &format!("crates/{}", module)));
    }
    assert!(!has_dir(&plan, "crates/client"));
    assert_eq!(
        file(&plan, "proto/service.proto"),
        Some("package my_api;\nservice MyApiService {}\n// my-api\n")
    );
    assert_eq!(file(&plan, ".env.example"), Some("DATABASE_URL=postgres://localhost/my_api\n"));
    assert_eq!(
        file(&plan, "crates/persistence/Cargo.toml"),
        Some("[package]\nname = \"my-api-persistence\"\n[dependencies]\nsqlx = { version = \"0.7\", features = [\"runtime-tokio\", \"postgres\"] }\n")
    );
    assert_eq!(
        file(&plan, "crates/api/Cargo.toml"),
        Some("[package]\nname = \"my-api-api\"\n[dependencies]\ntonic = \"0.11\"\nprost = \"0.12\"\n\n[build-dependencies]\ntonic-build = \"0.11\"\n")
    );
    assert_eq!(
        file(&plan, "crates/core/Cargo.toml"),
        Some("[package]\nname = \"my-api-core\"\n[dependencies]\n\n")
    );
    assert_eq!(file(&plan, "crates/api/build.rs"), Some("fn main() { /* my_api */ }\n"));
    assert!(has_dir(&plan, "crates/persistence/migrations"));
    assert_eq!(file(&plan, "crates/persistence/migrations/.gitkeep"), Some(""));
    assert_eq!(
        file(&plan, "crates/cli/Cargo.toml"),
        Some("[package]\nname = \"my-api-cli\"\n# service\n")
    );
    assert_eq!(
        file(&plan, "crates/cli/src/main.rs"),
        Some("fn main() { my_api_runtime::run(); }\n")
    );
    assert!(file(&plan, "crates/cli/src/lib.rs").is_none());
    assert!(file(&plan, "docker-compose.yml").is_none());
    assert!(!has_dir(&plan, "frontend"));
    assert_eq!(
        file(&plan, "Cargo.toml"),
        Some("[workspace]\nmembers = [\"crates/core\", \"crates/api\", \"crates/runtime\", \"crates/cli\", \"crates/persistence\"]\n# my-api\nauthors = []\nrepository = \"\"\n")
    );
    assert_eq!(
        file(&plan, ".github/workflows/test.yml"),
        Some("name: test\nenv: ${{ secrets.TOKEN }}\n")
    );
}

#[test]
fn scenario_lib_without_options() {
    let plan = plan(ProjectType::Lib, "utils", None);
    assert_eq!(
        paths(&plan),
        vec![
            "/",
            "Cargo.toml",
            ".github/workflows/",
            ".github/workflows/build.yml",
            ".github/workflows/test.yml",
            ".github/workflows/release.yml",
            "Dockerfile",
            ".dockerignore",
            "Makefile",
            "README.md",
            ".gitignore",
            "rust-toolchain.toml",
            "crates/core/",
            "crates/core/Cargo.toml",
            "crates/core/src/",
            "crates/core/src/lib.rs",
            "crates/core/src/error.rs",
            "crates/core/examples/",
            "crates/core/examples/basic.rs",
        ]
    );
    assert_eq!(file(&plan, "README.md"), Some("# utils\n"));
    assert_eq!(file(&plan, "Makefile"), Some("build:\n\tcargo build # utils\n"));
}

#[test]
fn scenario_sample_with_defaulted_options() {
    let plan = plan(ProjectType::Sample, "board", Some("sample"));
    for path in [
        "crates/core/src/board/mod.rs",
        "crates/core/src/board/models.rs",
        "crates/core/src/board/permission.rs",
        "e2e/playwright.config.ts",
        "e2e/package.json",
        "e2e/helpers/auth.ts",
        "e2e/tests/posts.spec.ts",
        "e2e/fixtures/.gitkeep",
        "docs/api.md",
        "docs/architecture.md",
        "docs/e2e-testing.md",
    ] {
        assert!(file(&plan, path).is_some(), "{} missing", path);
    }
    let compose = file(&plan, "docker-compose.yml").unwrap();
    assert!(compose.contains("minio"));
    assert!(compose.contains("postgres"));
    assert!(!compose.contains("sqlite"));
    let writes: Vec<&FileOp> = plan
        .iter()
        .filter(|op| matches!(op, FileOp::WriteFile { path, .. } if path == "docker-compose.yml"))
        .collect();
    assert_eq!(writes.len(), 2);
    assert!(matches!(plan.last(), Some(FileOp::WriteFile { path, .. }) if path == "docker-compose.yml"));
    assert_eq!(file(&plan, "e2e/helpers/auth.ts"), Some("// {{project_name}} stays as it is\n"));
    assert_eq!(file(&plan, "README.md"), Some("# board board\n"));
    assert_eq!(file(&plan, "crates/api/src/routes.rs"), Some("// board routes\n"));
    assert_eq!(
        file(&plan, "crates/cli/Cargo.toml"),
        Some("[package]\nname = \"board-cli\"\n# sample\n")
    );
    assert_eq!(file(&plan, "crates/cli/src/main.rs"), Some("fn main() { /* sample */ }\n"));
    assert!(file(&plan, "frontend/src/App.tsx").is_some());
}

#[test]
fn library_with_persistence() {
    let plan = plan(ProjectType::Lib, "kept", Some("postgres"));
    assert!(has_dir(&plan, "crates/core"));
    assert!(has_dir(&plan, "crates/persistence"));
    assert!(has_dir(&plan, "crates/persistence/migrations"));
    assert!(!has_dir(&plan, "crates/cli"));
    assert!(!has_dir(&plan, "crates/api"));
    assert!(file(&plan, "crates/persistence/Cargo.toml").unwrap().contains("\"postgres\""));
    assert!(file(&plan, "Cargo.toml")
        .unwrap()
        .contains("members = [\"crates/core\", \"crates/persistence\"]"));
}

#[test]
fn frontend_trees() {
    let spa = plan(ProjectType::Service, "web", Some("fe:spa"));
    assert_eq!(file(&spa, "frontend/package.json"), Some("{\"name\": \"web-web\"}\n"));
    assert_eq!(file(&spa, "frontend/tsconfig.json"), Some("{ \"note\": \"{{project_name}}\" }\n"));
    assert_eq!(file(&spa, "frontend/.dockerignore"), Some("node_modules\n"));
    assert_eq!(file(&spa, "frontend/index.html"), Some("<title>web</title>\n"));
    assert!(has_dir(&spa, "frontend/src"));
    assert!(!has_dir(&spa, "frontend/app"));
    assert_eq!(
        file(&spa, "docker-compose.yml"),
        Some("services:\n  postgres:\n    image: postgres\n  frontend:\n    build: ./frontend\n")
    );
    let ssr = plan(ProjectType::Service, "web", Some("ssr"));
    assert_eq!(file(&ssr, "frontend/package.json"), Some("{\"name\": \"web-ssr\"}\n"));
    assert_eq!(file(&ssr, "frontend/app/layout.tsx"), Some("// web layout\n"));
    assert_eq!(file(&ssr, "frontend/app/globals.css"), Some("body {}\n"));
    assert!(has_dir(&ssr, "frontend/app"));
    assert!(file(&ssr, "frontend/vite.config.ts").is_none());
    assert!(file(&ssr, "docker-compose.yml").unwrap().ends_with("# ssr\n"));
}

#[test]
fn authors_and_repository() {
    let texts = store();
    let manifest = |name: &str, email: &str| -> String {
        let config = parse_options(ProjectType::Lib, "p", None, name, email).unwrap();
        let plan = ProjectGenerator::new(config).generate(false, &texts).unwrap();
        file(&plan, "Cargo.toml").unwrap().to_string()
    };
    assert!(manifest("Ada", "ada@example.com")
        .ends_with("authors = [\"Ada <ada@example.com>\"]\nrepository = \"https://github.com/p\"\n"));
    assert!(manifest("Ada", "").ends_with("authors = [\"Ada\"]\nrepository = \"https://github.com/p\"\n"));
    assert!(manifest("", "ada@example.com")
        .ends_with("authors = [\"<ada@example.com>\"]\nrepository = \"\"\n"));
    assert!(manifest("", "").ends_with("authors = []\nrepository = \"\"\n"));
}

#[test]
fn sqlite_and_file_persistence() {
    let sqlite = plan(ProjectType::Cli, "tool", Some("sqlite"));
    assert_eq!(
        file(&sqlite, "crates/persistence/Cargo.toml"),
        Some("[package]\nname = \"tool-persistence\"\n[dependencies]\nsqlx = { version = \"0.7\", features = [\"runtime-tokio\", \"sqlite\"] }\n")
    );
    assert_eq!(file(&sqlite, "crates/cli/Cargo.toml"), Some("[package]\nname = \"tool-cli\"\n# plain\n"));
    assert_eq!(file(&sqlite, "crates/cli/src/main.rs"), Some("fn main() { /* plain */ }\n"));
    let files = plan(ProjectType::Cli, "tool", Some("file"));
    assert_eq!(
        file(&files, "crates/persistence/Cargo.toml"),
        Some("[package]\nname = \"tool-persistence\"\n[dependencies]\n\n")
    );
    assert!(has_dir(&files, "crates/persistence/migrations"));
}

#[test]
fn generator_keeps_its_configuration() {
    let config = ProjectConfig {
        name: "kept".to_string(),
        project_type: ProjectType::Cli,
        persistence: None,
        frontend: None,
        has_grpc: false,
        has_http: true,
        has_client: true,
        author_name: String::new(),
        author_email: String::new(),
    };
    let generator = ProjectGenerator::new(config);
    assert_eq!(generator.config().name, "kept");
    assert!(generator.config().has_client);
}

#[test]
fn names_in_other_cases() {
    assert_eq!(to_snake_case("my-api"), "my_api");
    assert_eq!(to_snake_case("a-b_c-"), "a_b_c_");
    assert_eq!(to_pascal_case("my-api"), "MyApi");
    assert_eq!(to_pascal_case("my_api-v2"), "MyApiV2");
    assert_eq!(to_pascal_case("--x__y-"), "XY");
    assert_eq!(to_pascal_case(""), "");
    assert_eq!(to_pascal_case("\u{df}eta-\u{e9}t\u{e9}"), "SSeta\u{c9}t\u{e9}");
    assert_eq!(to_pascal_case("already-Pascal"), "AlreadyPascal");
}

#[test]
fn module_names() {
    assert_eq!(module_name(&Module::Core), "core");
    assert_eq!(module_name(&Module::Api), "api");
    assert_eq!(module_name(&Module::Runtime), "runtime");
    assert_eq!(module_name(&Module::Cli), "cli");
    assert_eq!(module_name(&Module::Client), "client");
    assert_eq!(module_name(&Module::Persistence), "persistence");
}

#[test]
fn defines_for_a_remote_template() {
    assert_eq!(template_defines(&Some("demo".to_string())), vec!["project_name=demo"]);
    assert!(template_defines(&None).is_empty());
}
