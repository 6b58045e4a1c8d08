use diesel_repository::{Clause, Declaration, Facet, Options, RepoError};

fn words(name: &str, keys: &[&str]) -> Facet {
    Facet::new(name, keys.iter().map(|k| Clause::word(k)).collect())
}

#[test]
fn test() {
    let input = Declaration::new(
        "Account",
        vec![
            Facet::new(
                "repository",
                vec![Clause::path("pool", "db::DbPool"), Clause::path("table_ref", "crate::accounts")],
            ),
            Facet::new("repo_type", vec![Clause::path("id_type", "String")]),
            words("crud_repo", &["find_one", "find_one_query", "find_all"]),
            words("paging_repo", &["find_all"]),
        ],
    );

    let Options { repo, repo_type, crud_repo, paging_repo, .. } =
        Options::from_derive_input(&input).unwrap();

    assert_eq!(repo.ident, "Account");
    match repo.repository.pool {
        None => panic!("pool should not be empty"),
        Some(v) => assert_eq!(v, "db::DbPool"),
    }
    match repo.repository.table_ref {
        None => panic!("table should not be empty"),
        Some(v) => assert_eq!(v, "crate::accounts"),
    }
    match repo_type.id_type {
        None => panic!("id_type should not be empty"),
        Some(v) => assert_eq!(v, "String"),
    }

    assert_eq!(crud_repo.find_one, true);
    assert_eq!(crud_repo.find_one_query, true);
    assert_eq!(crud_repo.find_all, true);

    assert_eq!(paging_repo.find_all, true);
}

#[test]
fn absent_facets_leave_everything_off() {
    let o = Options::from_derive_input(&Declaration::new("Account", vec![])).unwrap();
    assert_eq!(o.repo.repository.pool, None);
    assert_eq!(o.repo.repository.table_ref, None);
    assert_eq!(o.repo_type.id_type, None);
    assert_eq!(o.crud_repo, Default::default());
    assert_eq!(o.paging_repo, Default::default());
    assert_eq!(o.batch_repo, Default::default());
}

#[test]
fn flag_false_leaves_capability_off() {
    let d = Declaration::new(
        "Account",
        vec![Facet::new("crud_repo", vec![Clause::boolean("save", false), Clause::word("count")])],
    );
    let o = Options::from_derive_input(&d).unwrap();
    assert!(!o.crud_repo.save);
    assert!(o.crud_repo.count);
}

#[test]
fn clauses_of_repeated_facets_are_merged() {
    let d = Declaration::new(
        "Account",
        vec![words("batch_repo", &["find"]), words("diesel", &["whatever"]), words("batch_repo", &["delete"])],
    );
    let o = Options::from_derive_input(&d).unwrap();
    assert!(o.batch_repo.find);
    assert!(o.batch_repo.delete);
    assert!(!o.batch_repo.save);
}

#[test]
fn string_literal_names_a_type() {
    let d = Declaration::new(
        "Account",
        vec![Facet::new(
            "repository",
            vec![Clause::Assign("pool".to_string(), diesel_repository::Value::Text("db::DbPool".to_string()))],
        )],
    );
    let o = Options::from_derive_input(&d).unwrap();
    assert_eq!(o.repo.repository.pool.as_deref(), Some("db::DbPool"));
}

#[test]
fn malformed_flag_value_is_refused() {
    let d = Declaration::new("Account", vec![Facet::new("crud_repo", vec![Clause::path("find_all", "yes")])]);
    assert_eq!(
        Options::from_derive_input(&d),
        Err(RepoError::ConfigurationError("invalid value for find_all".to_string()))
    );
}

#[test]
fn word_for_a_type_option_is_refused() {
    let d = Declaration::new("Account", vec![words("repository", &["pool"])]);
    assert_eq!(
        Options::from_derive_input(&d),
        Err(RepoError::ConfigurationError("invalid value for pool".to_string()))
    );
}

#[test]
fn duplicate_flag_is_refused() {
    let d = Declaration::new(
        "Account",
        vec![Facet::new("paging_repo", vec![Clause::word("find_all"), Clause::boolean("find_all", true)])],
    );
    assert_eq!(
        Options::from_derive_input(&d),
        Err(RepoError::ConfigurationError("duplicate option find_all".to_string()))
    );
}

#[test]
fn unknown_option_is_refused() {
    let d = Declaration::new(
        "Account",
        vec![Facet::new("repository", vec![Clause::path("table_name", "accounts")])],
    );
    assert_eq!(
        Options::from_derive_input(&d),
        Err(RepoError::ConfigurationError("unknown option table_name".to_string()))
    );
}

#[test]
fn token_of_another_group_is_unknown() {
    let d = Declaration::new("Account", vec![words("paging_repo", &["save"])]);
    assert_eq!(
        Options::from_derive_input(&d),
        Err(RepoError::UnknownCapabilityError(vec!["save".to_string()]))
    );
}

#[test]
fn every_unknown_token_is_named() {
    let d = Declaration::new(
        "Account",
        vec![words("crud_repo", &["find_all", "bogus", "fetch_everything"]), words("batch_repo", &["purge"])],
    );
    assert_eq!(
        Options::from_derive_input(&d),
        Err(RepoError::UnknownCapabilityError(vec![
            "bogus".to_string(),
            "fetch_everything".to_string(),
            "purge".to_string(),
        ]))
    );
}

#[test]
fn unknown_tokens_win_over_other_faults() {
    let d = Declaration::new(
        "Account",
        vec![
            Facet::new("repository", vec![Clause::path("pool", "A"), Clause::path("pool", "B")]),
            Facet::new("crud_repo", vec![Clause::path("find_all", "x"), Clause::word("fetch_everything")]),
        ],
    );
    assert_eq!(
        Options::from_derive_input(&d),
        Err(RepoError::UnknownCapabilityError(vec!["fetch_everything".to_string()]))
    );
}

#[test]
fn first_offending_clause_decides() {
    let d = Declaration::new(
        "Account",
        vec![Facet::new("crud_repo", vec![Clause::word("save"), Clause::path("count", "x"), Clause::word("save")])],
    );
    assert_eq!(
        Options::from_derive_input(&d),
        Err(RepoError::ConfigurationError("invalid value for count".to_string()))
    );
}

#[test]
fn error_messages() {
    assert_eq!(RepoError::ConfigurationError("missing pool".to_string()).message(), "missing pool");
    assert_eq!(
        RepoError::UnknownCapabilityError(vec!["fetch_everything".to_string()]).message(),
        "unknown capability fetch_everything"
    );
    assert_eq!(
        RepoError::UnknownCapabilityError(vec!["bogus".to_string(), "fetch_everything".to_string()])
            .message(),
        "unknown capability bogus, fetch_everything"
    );
}

#[test]
fn facet_names_are_recognised() {
    for name in ["repository", "repo_type", "crud_repo", "paging_repo", "batch_repo"] {
        assert!(diesel_repository::is_facet(name));
    }
    assert!(!diesel_repository::is_facet("diesel"));
    assert!(!diesel_repository::is_facet("derive"));
}
