//! The resolved intermediate representation of one declaration, and the
//! resolver that validates parsed options and fills in defaults.
use vstd::prelude::*;
use crate::capability::{all_capabilities, needs_id, Capability};
use crate::error::{missing_id_message, missing_pool_message, missing_table_message, ErrorModel, RepoError};
use crate::options::{BatchRepoOpts, CrudRepoOpts, Options, OptionsModel, PagingRepoOpts};

verus! {

/// Whether the generated repository has blocking or suspending methods.
#[derive(Clone, Copy, Debug, PartialEq, Eq, Structural)]
pub enum Profile {
    Blocking,
    Suspending,
}

/// The validated description of one repository. Immutable once resolved.
#[derive(Clone, Debug, PartialEq, Eq)]
pub struct RepositoryDescriptor {
    pub entity: String,
    pub repo_name: String,
    pub pool: String,
    pub table_ref: String,
    pub id_type: Option<String>,
    pub new_type: String,
    pub update_type: String,
    pub crud: CrudRepoOpts,
    pub paging: PagingRepoOpts,
    pub batch: BatchRepoOpts,
    pub profile: Profile,
}

/// The mathematical content of a [`RepositoryDescriptor`].
pub struct DescriptorModel {
    pub entity: Seq<char>,
    pub repo_name: Seq<char>,
    pub pool: Seq<char>,
    pub table_ref: Seq<char>,
    pub id_type: Option<Seq<char>>,
    pub new_type: Seq<char>,
    pub update_type: Seq<char>,
    pub crud: CrudRepoOpts,
    pub paging: PagingRepoOpts,
    pub batch: BatchRepoOpts,
    pub profile: Profile,
}

impl View for RepositoryDescriptor {
    type V = DescriptorModel;

    open spec fn view(&self) -> DescriptorModel {
        DescriptorModel {
            entity: self.entity@,
            repo_name: self.repo_name@,
            pool: self.pool@,
            table_ref: self.table_ref@,
            id_type: self.id_type.deep_view(),
            new_type: self.new_type@,
            update_type: self.update_type@,
            crud: self.crud,
            paging: self.paging,
            batch: self.batch,
            profile: self.profile,
        }
    }
}

/// The suffix that turns an entity name into its repository's name.
pub open spec fn repo_suffix(p: Profile) -> Seq<char> {
    match p {
        Profile::Blocking => "Repo"@,
        Profile::Suspending => "AsyncRepo"@,
    }
}

/// Whether the flags of the three groups enable `c`.
pub open spec fn is_enabled(
    crud: CrudRepoOpts,
    paging: PagingRepoOpts,
    batch: BatchRepoOpts,
    c: Capability,
) -> bool {
    match c {
        Capability::FindOne => crud.find_one,
        Capability::FindOneQuery => crud.find_one_query,
        Capability::FindQuery => crud.find_query,
        Capability::FindAll => crud.find_all,
        Capability::Save => crud.save,
        Capability::Update => crud.update,
        Capability::Replace => crud.replace,
        Capability::Delete => crud.delete,
        Capability::Count => crud.count,
        Capability::PagedFindQuery => paging.find_query,
        Capability::PagedFindAll => paging.find_all,
        Capability::BatchFind => batch.find,
        Capability::BatchSave => batch.save,
        Capability::BatchUpdate => batch.update,
        Capability::BatchDelete => batch.delete,
    }
}

/// Whether some enabled capability needs the identifier type.
pub open spec fn id_required(crud: CrudRepoOpts, paging: PagingRepoOpts, batch: BatchRepoOpts) -> bool {
    exists|i: int|
        0 <= i < all_capabilities().len() && is_enabled(crud, paging, batch, all_capabilities()[i])
            && needs_id(all_capabilities()[i])
}

/// A type given in `repo_type`, or the entity itself when it is absent.
pub open spec fn or_entity(t: Option<Seq<char>>, entity: Seq<char>) -> Seq<char> {
    match t {
        Some(t) => t,
        None => entity,
    }
}

/// What parsed options resolve to, checked in a fixed order: the pool, then
/// the table reference, then the identifier type when an enabled capability
/// needs it.
pub open spec fn resolve_options(o: OptionsModel, p: Profile) -> Result<DescriptorModel, ErrorModel> {
    if o.pool is None {
        Err(ErrorModel::Configuration(missing_pool_message()))
    } else if o.table_ref is None {
        Err(ErrorModel::Configuration(missing_table_message()))
    } else if id_required(o.crud, o.paging, o.batch) && o.id_type is None {
        Err(ErrorModel::Configuration(missing_id_message()))
    } else {
        Ok(
            DescriptorModel {
                entity: o.ident,
                repo_name: o.ident + repo_suffix(p),
                pool: o.pool->Some_0,
                table_ref: o.table_ref->Some_0,
                id_type: o.id_type,
                new_type: or_entity(o.new_type, o.ident),
                update_type: or_entity(o.update_type, o.ident),
                crud: o.crud,
                paging: o.paging,
                batch: o.batch,
                profile: p,
            },
        )
    }
}

impl Capability {
    /// Every capability, in registry order.
    pub fn all() -> (r: Vec<Capability>)
        ensures
            r@ == all_capabilities(),
    {
        let r = vec![
            Capability::FindOne,
            Capability::FindOneQuery,
            Capability::FindQuery,
            Capability::FindAll,
            Capability::Save,
            Capability::Update,
            Capability::Replace,
            Capability::Delete,
            Capability::Count,
            Capability::PagedFindQuery,
            Capability::PagedFindAll,
            Capability::BatchFind,
            Capability::BatchSave,
            Capability::BatchUpdate,
            Capability::BatchDelete,
        ];
        assert(r@ =~= all_capabilities());
        r
    }

    /// Whether the flags of the three groups enable this capability.
    pub fn is_enabled(
        self,
        crud: &CrudRepoOpts,
        paging: &PagingRepoOpts,
        batch: &BatchRepoOpts,
    ) -> (r: bool)
        ensures
            r == is_enabled(*crud, *paging, *batch, self),
    {
        match self {
            Capability::FindOne => crud.find_one,
            Capability::FindOneQuery => crud.find_one_query,
            Capability::FindQuery => crud.find_query,
            Capability::FindAll => crud.find_all,
            Capability::Save => crud.save,
            Capability::Update => crud.update,
            Capability::Replace => crud.replace,
            Capability::Delete => crud.delete,
            Capability::Count => crud.count,
            Capability::PagedFindQuery => paging.find_query,
            Capability::PagedFindAll => paging.find_all,
            Capability::BatchFind => batch.find,
            Capability::BatchSave => batch.save,
            Capability::BatchUpdate => batch.update,
            Capability::BatchDelete => batch.delete,
        }
    }
}

/// Whether some enabled capability needs the identifier type.
pub fn needs_id_type(crud: &CrudRepoOpts, paging: &PagingRepoOpts, batch: &BatchRepoOpts) -> (r: bool)
    ensures
        r == id_required(*crud, *paging, *batch),
{
    let all = Capability::all();
    let mut i: usize = 0;
    while i < all.len()
        invariant
            0 <= i <= all@.len(),
            all@ == all_capabilities(),
            forall|j: int|
                0 <= j < i ==> !(is_enabled(*crud, *paging, *batch, all@[j]) && needs_id(all@[j])),
        decreases all@.len() - i,
    {
        if all[i].is_enabled(crud, paging, batch) && all[i].needs_id() {
            return true;
        }
        i += 1;
    }
    false
}

/// A copy of a type text given in `repo_type`, or of the entity name.
fn type_or_entity(t: &Option<String>, entity: &String) -> (r: String)
    ensures
        r@ == or_entity(t.deep_view(), entity@),
{
    match t {
        Some(t) => t.clone(),
        None => entity.clone(),
    }
}

impl RepositoryDescriptor {
    /// Validates parsed options and fills in their defaults.
    pub fn resolve(opts: &Options, profile: Profile) -> (r: Result<RepositoryDescriptor, RepoError>)
        ensures
            match r {
                Ok(d) => resolve_options(opts@, profile) == Ok::<_, ErrorModel>(d@),
                Err(e) => resolve_options(opts@, profile) == Err::<DescriptorModel, _>(e@),
            },
    {
        let entity = &opts.repo.ident;
        let pool = match &opts.repo.repository.pool {
            Some(p) => p,
            None => return Err(RepoError::missing_pool()),
        };
        let table_ref = match &opts.repo.repository.table_ref {
            Some(t) => t,
            None => return Err(RepoError::missing_table()),
        };
        if needs_id_type(&opts.crud_repo, &opts.paging_repo, &opts.batch_repo)
            && opts.repo_type.id_type.is_none() {
            return Err(RepoError::missing_id());
        }
        let suffix = match profile {
            Profile::Blocking => "Repo",
            Profile::Suspending => "AsyncRepo",
        };
        let id_type = match &opts.repo_type.id_type {
            Some(t) => Some(t.clone()),
            None => None,
        };
        let d = RepositoryDescriptor {
            entity: entity.clone(),
            repo_name: entity.clone().concat(suffix),
            pool: pool.clone(),
            table_ref: table_ref.clone(),
            id_type,
            new_type: type_or_entity(&opts.repo_type.new_type, entity),
            update_type: type_or_entity(&opts.repo_type.update_type, entity),
            crud: opts.crud_repo,
            paging: opts.paging_repo,
            batch: opts.batch_repo,
            profile,
        };
        assert(d@ == resolve_options(opts@, profile)->Ok_0);
        Ok(d)
    }
}

} // verus!
