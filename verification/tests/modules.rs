use boots_core::config::{
    FrontendType, Module, PersistenceType, ProjectConfig, ProjectType,
};

fn config(
    project_type: ProjectType,
    persistence: Option<PersistenceType>,
    has_client: bool,
) -> ProjectConfig {
    ProjectConfig {
        name: "demo".to_string(),
        project_type,
        persistence,
        frontend: None,
        has_grpc: false,
        has_http: true,
        has_client,
        author_name: String::new(),
        author_email: String::new(),
    }
}

#[test]
fn modules_of_a_service() {
    assert_eq!(
        config(ProjectType::Service, None, false).modules(),
        vec![Module::Core, Module::Api, Module::Runtime, Module::Cli]
    );
    assert_eq!(
        config(ProjectType::Service, Some(PersistenceType::Sqlite), true).modules(),
        vec![Module::Core, Module::Api, Module::Runtime, Module::Cli, Module::Persistence]
    );
}

#[test]
fn modules_of_a_cli() {
    assert_eq!(config(ProjectType::Cli, None, false).modules(), vec![Module::Core, Module::Cli]);
    assert_eq!(
        config(ProjectType::Cli, None, true).modules(),
        vec![Module::Core, Module::Cli, Module::Client]
    );
    assert_eq!(
        config(ProjectType::Cli, Some(PersistenceType::File), true).modules(),
        vec![Module::Core, Module::Cli, Module::Client, Module::Persistence]
    );
    assert_eq!(
        config(ProjectType::Cli, Some(PersistenceType::Postgres), false).modules(),
        vec![Module::Core, Module::Cli, Module::Persistence]
    );
}

#[test]
fn modules_of_a_lib_and_a_sample() {
    assert_eq!(config(ProjectType::Lib, None, false).modules(), vec![Module::Core]);
    assert_eq!(
        config(ProjectType::Lib, Some(PersistenceType::Postgres), true).modules(),
        vec![Module::Core, Module::Persistence]
    );
    let all = vec![Module::Core, Module::Api, Module::Runtime, Module::Cli, Module::Persistence];
    assert_eq!(config(ProjectType::Sample, None, false).modules(), all);
    assert_eq!(config(ProjectType::Sample, Some(PersistenceType::Postgres), true).modules(), all);
}

#[test]
fn module_set_holds_for_every_configuration() {
    let types = [ProjectType::Service, ProjectType::Cli, ProjectType::Lib, ProjectType::Sample];
    let stores = [
        None,
        Some(PersistenceType::Postgres),
        Some(PersistenceType::Sqlite),
        Some(PersistenceType::File),
    ];
    for project_type in types {
        for persistence in stores {
            for has_client in [false, true] {
                let mut cfg = config(project_type, persistence, has_client);
                cfg.frontend = Some(FrontendType::Ssr);
                cfg.has_grpc = true;
                let modules = cfg.modules();
                let served =
                    project_type == ProjectType::Service || project_type == ProjectType::Sample;
                assert!(modules.contains(&Module::Core));
                assert_eq!(modules.contains(&Module::Api), served);
                assert_eq!(modules.contains(&Module::Runtime), served);
                assert_eq!(modules.contains(&Module::Cli), project_type != ProjectType::Lib);
                assert_eq!(
                    modules.contains(&Module::Client),
                    project_type == ProjectType::Cli && has_client
                );
                assert_eq!(
                    modules.contains(&Module::Persistence),
                    persistence.is_some() || project_type == ProjectType::Sample
                );
                assert_eq!(modules, cfg.modules());
            }
        }
    }
}
