use boots_core::config::parser::{apply_option, ignored_options, select, tokens};
use boots_core::config::{parse_options, FrontendType, PersistenceType, ProjectType};
use boots_core::BootsError;

#[test]
fn test_parse_service_default() {
    let config = parse_options(ProjectType::Service, "test-svc", None, "", "").unwrap();
    assert_eq!(config.project_type, ProjectType::Service);
    assert!(config.persistence.is_none());
    assert!(!config.has_grpc);
    assert!(config.has_http);
}

#[test]
fn test_parse_service_with_postgres() {
    let config = parse_options(ProjectType::Service, "test-svc", Some("postgres"), "", "").unwrap();
    assert_eq!(config.persistence, Some(PersistenceType::Postgres));
}

#[test]
fn test_parse_service_with_multiple_options() {
    let config =
        parse_options(ProjectType::Service, "test-svc", Some("postgres,grpc"), "", "").unwrap();
    assert_eq!(config.persistence, Some(PersistenceType::Postgres));
    assert!(config.has_grpc);
}

#[test]
fn test_parse_cli_with_client() {
    let config = parse_options(ProjectType::Cli, "test-cli", Some("client"), "", "").unwrap();
    assert!(config.has_client);
}

#[test]
fn test_invalid_option() {
    let result = parse_options(ProjectType::Service, "test", Some("invalid_option"), "", "");
    assert!(result.is_err());
}

#[test]
fn test_parse_service_with_spa() {
    let config = parse_options(ProjectType::Service, "test-svc", Some("fe:spa"), "", "").unwrap();
    assert_eq!(config.frontend, Some(FrontendType::Spa));
}

#[test]
fn test_parse_service_with_ssr() {
    let config = parse_options(ProjectType::Service, "test-svc", Some("fe:ssr"), "", "").unwrap();
    assert_eq!(config.frontend, Some(FrontendType::Ssr));
}

#[test]
fn test_parse_service_with_postgres_and_spa() {
    let config =
        parse_options(ProjectType::Service, "test-svc", Some("postgres,fe:spa"), "", "").unwrap();
    assert_eq!(config.persistence, Some(PersistenceType::Postgres));
    assert_eq!(config.frontend, Some(FrontendType::Spa));
}

#[test]
fn test_parse_sample_default() {
    let config = parse_options(ProjectType::Sample, "test-board", Some("sample"), "", "").unwrap();
    assert_eq!(config.project_type, ProjectType::Sample);
    assert_eq!(config.persistence, Some(PersistenceType::Postgres));
    assert_eq!(config.frontend, Some(FrontendType::Spa));
}

#[test]
fn test_parse_sample_ignores_other_options() {
    let config = parse_options(
        ProjectType::Sample,
        "test-board",
        Some("sample,grpc,sqlite"),
        "",
        "",
    )
    .unwrap();
    assert_eq!(config.persistence, Some(PersistenceType::Postgres));
    assert!(!config.has_grpc);
    assert_eq!(config.frontend, Some(FrontendType::Spa));
}

#[test]
fn parse_keeps_name_and_author() {
    let config =
        parse_options(ProjectType::Lib, "utils", None, "Ada", "ada@example.com").unwrap();
    assert_eq!(config.name, "utils");
    assert_eq!(config.project_type, ProjectType::Lib);
    assert_eq!(config.author_name, "Ada");
    assert_eq!(config.author_email, "ada@example.com");
    assert!(config.frontend.is_none());
    assert!(!config.has_client);
}

#[test]
fn last_explicit_persistence_wins() {
    let a = parse_options(ProjectType::Service, "x", Some("sqlite,postgres"), "", "").unwrap();
    assert_eq!(a.persistence, Some(PersistenceType::Postgres));
    let b = parse_options(ProjectType::Service, "x", Some("postgres,sqlite"), "", "").unwrap();
    assert_eq!(b.persistence, Some(PersistenceType::Sqlite));
    let c = parse_options(ProjectType::Service, "x", Some("postgres,file"), "", "").unwrap();
    assert_eq!(c.persistence, Some(PersistenceType::File));
}

#[test]
fn generic_persistence_only_fills_an_empty_slot() {
    let a = parse_options(ProjectType::Service, "x", Some("postgres,persistence"), "", "").unwrap();
    assert_eq!(a.persistence, Some(PersistenceType::Postgres));
    let b = parse_options(ProjectType::Service, "x", Some("persistence"), "", "").unwrap();
    assert_eq!(b.persistence, Some(PersistenceType::File));
    let c = parse_options(ProjectType::Service, "x", Some("persistence,postgres"), "", "").unwrap();
    assert_eq!(c.persistence, Some(PersistenceType::Postgres));
    let d = parse_options(ProjectType::Service, "x", Some("persistence,sqlite,persistence"), "", "")
        .unwrap();
    assert_eq!(d.persistence, Some(PersistenceType::Sqlite));
}

#[test]
fn last_frontend_wins_in_every_spelling() {
    for (text, expected) in [
        ("fe:spa", FrontendType::Spa),
        ("fe-spa", FrontendType::Spa),
        ("spa", FrontendType::Spa),
        ("fe:ssr", FrontendType::Ssr),
        ("fe-ssr", FrontendType::Ssr),
        ("ssr", FrontendType::Ssr),
        ("spa,ssr", FrontendType::Ssr),
        ("ssr,fe-spa", FrontendType::Spa),
    ] {
        let config = parse_options(ProjectType::Service, "x", Some(text), "", "").unwrap();
        assert_eq!(config.frontend, Some(expected));
    }
}

#[test]
fn unknown_option_is_named() {
    for project_type in [ProjectType::Service, ProjectType::Cli, ProjectType::Lib, ProjectType::Sample] {
        match parse_options(project_type, "x", Some("bogus"), "", "") {
            Err(BootsError::InvalidOption(token)) => assert_eq!(token, "bogus"),
            _ => panic!("bogus was accepted"),
        }
    }
    match parse_options(ProjectType::Service, "x", Some("grpc, bogus ,other"), "", "") {
        Err(BootsError::InvalidOption(token)) => assert_eq!(token, "bogus"),
        _ => panic!("bogus was accepted"),
    }
    match parse_options(ProjectType::Service, "x", Some("Postgres"), "", "") {
        Err(BootsError::InvalidOption(token)) => assert_eq!(token, "Postgres"),
        _ => panic!("keywords are case-sensitive"),
    }
}

#[test]
fn sample_anywhere_overrides_everything() {
    let config =
        parse_options(ProjectType::Service, "x", Some("bogus,ssr, sample ,client"), "", "").unwrap();
    assert_eq!(config.persistence, Some(PersistenceType::Postgres));
    assert_eq!(config.frontend, Some(FrontendType::Spa));
    assert!(!config.has_grpc);
    assert!(config.has_http);
    assert!(!config.has_client);
}

#[test]
fn empty_pieces_and_white_space_are_ignored() {
    let config =
        parse_options(ProjectType::Cli, "x", Some(" grpc ,, client\t,\n,  "), "", "").unwrap();
    assert!(config.has_grpc);
    assert!(config.has_client);
    assert!(config.has_http);
    assert!(config.persistence.is_none());
    let empty = parse_options(ProjectType::Cli, "x", Some(""), "", "").unwrap();
    assert!(!empty.has_grpc);
    assert!(empty.has_http);
}

#[test]
fn http_is_on_by_default_and_stays_on() {
    let config = parse_options(ProjectType::Service, "x", Some("http"), "", "").unwrap();
    assert!(config.has_http);
}

#[test]
fn tokens_are_the_trimmed_pieces() {
    let toks = tokens(" a , b,,c\u{a0}");
    let texts: Vec<String> = toks.iter().map(|t| t.iter().collect()).collect();
    assert_eq!(texts, vec!["a", "b", "", "c"]);
    assert_eq!(tokens("").len(), 1);
    assert_eq!(tokens(",").len(), 2);
}

#[test]
fn select_reports_the_first_unknown_keyword() {
    let err = select(Some("grpc,nope,also")).unwrap_err();
    let text: String = err.iter().collect();
    assert_eq!(text, "nope");
    let sel = select(None).unwrap();
    assert!(sel.has_http && !sel.has_grpc && !sel.has_client);
    assert!(sel.persistence.is_none() && sel.frontend.is_none());
}

#[test]
fn apply_option_on_one_keyword() {
    let start = select(None).unwrap();
    let word: Vec<char> = "client".chars().collect();
    let next = apply_option(start, &word).unwrap();
    assert!(next.has_client);
    let bad: Vec<char> = "clients".chars().collect();
    assert!(apply_option(start, &bad).is_none());
}

#[test]
fn sample_ignores_the_other_pieces() {
    assert_eq!(ignored_options("sample,grpc,sqlite"), vec!["grpc", "sqlite"]);
    assert_eq!(ignored_options(" bogus , sample,,sample"), vec!["bogus", ""]);
    assert!(ignored_options("sample").is_empty());
    assert!(ignored_options("grpc,sqlite").is_empty());
    assert!(ignored_options("samples").is_empty());
}
