//! A compiler from repository declarations to repository definitions.
//!
//! A declaration names an entity and carries facets (`repository`,
//! `repo_type`, `crud_repo`, `paging_repo`, `batch_repo`). The facets are
//! parsed into option records, resolved into one validated descriptor, and
//! the descriptor is emitted as a repository type with exactly one method
//! binding per enabled capability, or rendered as Rust source.
pub mod capability;
pub mod declaration;
pub mod descriptor;
pub mod emit;
pub mod error;
pub mod laws;
pub mod model;
pub mod options;
pub mod render;
pub mod repo;
pub mod sample;

pub use capability::{Capability, Group, ParamKind, ReturnShape};
pub use declaration::{Clause, Declaration, Facet, Value};
pub use descriptor::{Profile, RepositoryDescriptor};
pub use emit::{generate, MethodBinding, Param, RepositoryDefinition};
pub use error::{Diagnostic, RepoError};
pub use model::{Paged, ViewCount};
pub use options::{
    is_facet, BatchRepoOpts, CrudRepoOpts, Options, PagingRepoOpts, RepoOpts, RepoTypeOpts,
    RepositoryOpts,
};
pub use render::generate_source;
pub use repo::{
    Count, Delete, DeleteBatch, FindAll, FindAllPaged, FindAllPagingRepo, FindAllRepo, FindById,
    FindByIdBatch, FindByQuery, FindByQueryPaged, FindOneByQuery, FindOneRepo, Replace, Save,
    SaveBatch, Update, UpdateBatch,
};
pub use sample::{dummy_pool, Account, DummyPool};
