use diesel_repository::{
    generate, generate_source, Capability, Clause, Declaration, Diagnostic, Facet, Options,
    Profile, RepoError, RepositoryDescriptor, ReturnShape,
};

fn words(name: &str, keys: &[&str]) -> Facet {
    Facet::new(name, keys.iter().map(|k| Clause::word(k)).collect())
}

fn flags(name: &str, keys: &[&str]) -> Facet {
    Facet::new(name, keys.iter().map(|k| Clause::boolean(k, true)).collect())
}

fn repository(pool: &str, table: &str) -> Facet {
    Facet::new("repository", vec![Clause::path("pool", pool), Clause::path("table_ref", table)])
}

fn id_type(t: &str) -> Facet {
    Facet::new("repo_type", vec![Clause::path("id_type", t)])
}

fn account(facets: Vec<Facet>) -> Declaration {
    Declaration::new("Account", facets)
}

fn resolve(d: &Declaration) -> Result<RepositoryDescriptor, RepoError> {
    RepositoryDescriptor::resolve(&Options::from_derive_input(d)?, Profile::Blocking)
}

fn method_names(d: &Declaration) -> Vec<String> {
    generate(d, Profile::Blocking).unwrap().methods.into_iter().map(|m| m.name).collect()
}

#[test]
fn flat_and_list_forms_resolve_identically() {
    let list = account(vec![
        repository("DbPool", "accounts"),
        id_type("String"),
        words("crud_repo", &["find_one", "save", "count"]),
        words("paging_repo", &["find_query"]),
        words("batch_repo", &["update", "delete"]),
    ]);
    let flat = account(vec![
        repository("DbPool", "accounts"),
        id_type("String"),
        flags("crud_repo", &["find_one", "save", "count"]),
        flags("paging_repo", &["find_query"]),
        flags("batch_repo", &["update", "delete"]),
    ]);
    assert_eq!(resolve(&list).unwrap(), resolve(&flat).unwrap());
    assert_eq!(generate(&list, Profile::Blocking), generate(&flat, Profile::Blocking));
}

#[test]
fn missing_pool_is_reported() {
    let d = account(vec![
        Facet::new("repository", vec![Clause::path("table_ref", "accounts")]),
        id_type("String"),
        words("crud_repo", &["find_one"]),
    ]);
    assert_eq!(
        generate(&d, Profile::Blocking),
        Err(Diagnostic {
            entity: "Account".to_string(),
            error: RepoError::ConfigurationError("missing pool".to_string()),
        })
    );
    let bare = account(vec![]);
    assert_eq!(
        resolve(&bare),
        Err(RepoError::ConfigurationError("missing pool".to_string()))
    );
}

#[test]
fn missing_table_is_reported() {
    let d = account(vec![Facet::new("repository", vec![Clause::path("pool", "DbPool")])]);
    assert_eq!(
        resolve(&d),
        Err(RepoError::ConfigurationError("missing table reference".to_string()))
    );
}

#[test]
fn find_all_without_repo_type_succeeds() {
    let d = account(vec![repository("DbPool", "accounts"), words("crud_repo", &["find_all"])]);
    let desc = resolve(&d).unwrap();
    assert_eq!(desc.id_type, None);
    assert_eq!(method_names(&d), vec!["find_all".to_string()]);
}

#[test]
fn delete_without_id_type_fails() {
    let d = account(vec![repository("DbPool", "accounts"), words("crud_repo", &["delete"])]);
    assert_eq!(resolve(&d), Err(RepoError::ConfigurationError("missing id_type".to_string())));
    let batch = account(vec![repository("DbPool", "accounts"), words("batch_repo", &["find"])]);
    assert_eq!(resolve(&batch), Err(RepoError::ConfigurationError("missing id_type".to_string())));
}

#[test]
fn pool_is_checked_before_table_and_id() {
    let d = account(vec![words("crud_repo", &["delete"])]);
    assert_eq!(resolve(&d), Err(RepoError::ConfigurationError("missing pool".to_string())));
}

#[test]
fn n_capabilities_give_n_bindings() {
    let d = account(vec![
        repository("DbPool", "accounts"),
        id_type("i32"),
        words(
            "crud_repo",
            &["find_one", "find_one_query", "find_query", "find_all", "save", "update", "replace", "delete", "count"],
        ),
        words("paging_repo", &["find_query", "find_all"]),
        words("batch_repo", &["find", "save", "update", "delete"]),
    ]);
    let names = method_names(&d);
    assert_eq!(
        names,
        vec![
            "find_by_id", "find_one_by_query", "find_by_query", "find_all", "save", "update",
            "replace", "delete", "count", "find_by_query_paged", "find_all_paged",
            "find_by_id_batch", "save_batch", "update_batch", "delete_batch",
        ]
    );
    let mut unique = names.clone();
    unique.sort();
    unique.dedup();
    assert_eq!(unique.len(), 15);

    let three = account(vec![
        repository("DbPool", "accounts"),
        id_type("i32"),
        words("crud_repo", &["count"]),
        words("batch_repo", &["delete", "save"]),
    ]);
    assert_eq!(method_names(&three), vec!["count", "save_batch", "delete_batch"]);
}

#[test]
fn unknown_token_is_named() {
    let d = account(vec![repository("DbPool", "accounts"), words("crud_repo", &["fetch_everything"])]);
    assert_eq!(
        generate(&d, Profile::Blocking),
        Err(Diagnostic {
            entity: "Account".to_string(),
            error: RepoError::UnknownCapabilityError(vec!["fetch_everything".to_string()]),
        })
    );
}

fn scenario() -> Declaration {
    account(vec![
        repository("DbPool", "accounts"),
        id_type("String"),
        words("crud_repo", &["find_all", "save"]),
        words("paging_repo", &["find_all"]),
    ])
}

#[test]
fn account_scenario() {
    let def = generate(&scenario(), Profile::Blocking).unwrap();
    assert_eq!(def.name, "AccountRepo");
    assert_eq!(def.pool, "DbPool");
    assert_eq!(def.methods.len(), 3);

    let find_all = &def.methods[0];
    assert_eq!(find_all.capability, Capability::FindAll);
    assert_eq!(find_all.name, "find_all");
    assert!(find_all.params.is_empty());
    assert_eq!(find_all.returns, ReturnShape::Records);
    assert_eq!(find_all.return_type, "Vec<Account>");

    let save = &def.methods[1];
    assert_eq!(save.capability, Capability::Save);
    assert_eq!(save.name, "save");
    assert_eq!(save.params.len(), 1);
    assert_eq!(save.params[0].name, "new_record");
    assert_eq!(save.params[0].ty, "Account");
    assert_eq!(save.return_type, "Account");

    let paged = &def.methods[2];
    assert_eq!(paged.capability, Capability::PagedFindAll);
    assert_eq!(paged.name, "find_all_paged");
    let params: Vec<(&str, &str)> =
        paged.params.iter().map(|p| (p.name.as_str(), p.ty.as_str())).collect();
    assert_eq!(params, vec![("page", "i64"), ("per_page", "i64")]);
    assert_eq!(paged.returns, ReturnShape::Paged);
    assert_eq!(paged.return_type, "diesel_repository::Paged<Account>");
}

#[test]
fn account_scenario_source() {
    let src = generate_source(&scenario(), Profile::Blocking).unwrap();
    let expected = "pub struct AccountRepo {
    pool: std::sync::Arc<DbPool>,
}

impl AccountRepo {
    pub fn new(pool: std::sync::Arc<DbPool>) -> Self {
        Self { pool }
    }
}

impl diesel_repository::FindAll<Account> for AccountRepo {
    fn find_all(&self) -> Result<Vec<Account>, diesel::result::Error> {
        use diesel::prelude::*;
        use accounts::dsl::*;
        unimplemented!(\"[find_all] is not implemented yet\")
    }
}

impl diesel_repository::Save<Account, Account> for AccountRepo {
    fn save(&self, new_record: Account) -> Result<Account, diesel::result::Error> {
        use diesel::prelude::*;
        use accounts::dsl::*;
        unimplemented!(\"[save] is not implemented yet\")
    }
}

impl diesel_repository::FindAllPaged<Account> for AccountRepo {
    fn find_all_paged(&self, page: i64, per_page: i64) -> Result<diesel_repository::Paged<Account>, diesel::result::Error> {
        use diesel::prelude::*;
        use accounts::dsl::*;
        unimplemented!(\"[find_all_paged] is not implemented yet\")
    }
}
";
    assert_eq!(src, expected);
}

#[test]
fn suspending_profile_names_async_repo() {
    let def = generate(&scenario(), Profile::Suspending).unwrap();
    assert_eq!(def.name, "AccountAsyncRepo");
    let src = generate_source(&scenario(), Profile::Suspending).unwrap();
    assert!(src.contains("#[async_trait::async_trait]\nimpl diesel_repository::FindAll<Account> for AccountAsyncRepo {\n    async fn find_all(&self)"));
}

#[test]
fn given_types_replace_entity_defaults() {
    let d = account(vec![
        repository("DbPool", "accounts"),
        Facet::new(
            "repo_type",
            vec![
                Clause::path("id_type", "i64"),
                Clause::path("new_type", "NewAccount"),
                Clause::path("update_type", "AccountChanges"),
            ],
        ),
        words("crud_repo", &["save", "update", "replace", "find_one_query"]),
        words("batch_repo", &["find", "update"]),
        words("paging_repo", &["find_query"]),
    ]);
    let desc = resolve(&d).unwrap();
    assert_eq!(desc.new_type, "NewAccount");
    assert_eq!(desc.update_type, "AccountChanges");
    let def = generate(&d, Profile::Blocking).unwrap();
    let sigs: Vec<(String, Vec<String>)> = def
        .methods
        .iter()
        .map(|m| (m.name.clone(), m.params.iter().map(|p| format!("{}: {}", p.name, p.ty)).collect()))
        .collect();
    assert_eq!(
        sigs,
        vec![
            ("find_one_by_query".to_string(), vec!["query: Q".to_string()]),
            ("save".to_string(), vec!["new_record: NewAccount".to_string()]),
            ("update".to_string(), vec!["update_record: AccountChanges".to_string()]),
            ("replace".to_string(), vec!["record: Account".to_string()]),
            (
                "find_by_query_paged".to_string(),
                vec!["query: Q".to_string(), "page: i64".to_string(), "per_page: i64".to_string()]
            ),
            ("find_by_id_batch".to_string(), vec!["ids: &[i64]".to_string()]),
            ("update_batch".to_string(), vec!["update_records: &[AccountChanges]".to_string()]),
        ]
    );
    let src = generate_source(&d, Profile::Blocking).unwrap();
    assert!(src.contains("impl<Q> diesel_repository::FindOneByQuery<Account, Q> for AccountRepo {\n    fn find_one_by_query(&self, query: Q) -> Result<Account, diesel::result::Error> {"));
    assert!(src.contains("impl diesel_repository::FindByQueryPaged<Account> for AccountRepo {\n    fn find_by_query_paged<Q: diesel::QueryDsl>(&self, query: Q, page: i64, per_page: i64)"));
    assert!(src.contains("impl diesel_repository::FindByIdBatch<Account, i64> for AccountRepo {\n    fn find_by_id_batch(&self, ids: &[i64]) -> Result<Vec<Account>, diesel::result::Error> {"));
}

#[test]
fn generation_is_deterministic() {
    assert_eq!(generate(&scenario(), Profile::Blocking), generate(&scenario(), Profile::Blocking));
    assert_eq!(
        generate_source(&scenario(), Profile::Suspending),
        generate_source(&scenario(), Profile::Suspending)
    );
}

#[test]
fn derive_renders_parsed_options() {
    let opts = Options::from_derive_input(&scenario()).unwrap();
    assert_eq!(
        diesel_repository::render::derive(&opts, Profile::Blocking),
        generate_source(&scenario(), Profile::Blocking)
    );
    let no_pool = Options::from_derive_input(&account(vec![words("crud_repo", &["find_all"])])).unwrap();
    assert_eq!(
        diesel_repository::render::derive(&no_pool, Profile::Suspending),
        Err(Diagnostic {
            entity: "Account".to_string(),
            error: RepoError::ConfigurationError("missing pool".to_string()),
        })
    );
}
