//! The capability registry: one row per operation a generated repository can
//! expose, giving its declarative token, its method name, its parameters, its
//! result shape and whether it needs the entity's identifier type.
use vstd::prelude::*;

verus! {

/// The facet a capability is declared in.
#[derive(Clone, Copy, Debug, PartialEq, Eq, Structural)]
pub enum Group {
    Crud,
    Paging,
    Batch,
}

/// One data-access operation of a generated repository.
#[derive(Clone, Copy, Debug, PartialEq, Eq, Structural)]
pub enum Capability {
    FindOne,
    FindOneQuery,
    FindQuery,
    FindAll,
    Save,
    Update,
    Replace,
    Delete,
    Count,
    PagedFindQuery,
    PagedFindAll,
    BatchFind,
    BatchSave,
    BatchUpdate,
    BatchDelete,
}

/// What a parameter of a generated method stands for.
#[derive(Clone, Copy, Debug, PartialEq, Eq, Structural)]
pub enum ParamKind {
    Id,
    Ids,
    Query,
    NewRecord,
    NewRecords,
    UpdateRecord,
    UpdateRecords,
    Record,
    Page,
    PerPage,
}

/// The shape of what a generated method returns.
#[derive(Clone, Copy, Debug, PartialEq, Eq, Structural)]
pub enum ReturnShape {
    /// One record of the entity.
    Record,
    /// A list of records.
    Records,
    /// One page of records with its paging metadata.
    Paged,
    /// A count of records.
    Count,
    /// Nothing.
    Unit,
}

/// Every capability, in registry order: the crud group, then paging, then batch,
/// each in declaration order.
pub open spec fn all_capabilities() -> Seq<Capability> {
    seq![
        Capability::FindOne,
        Capability::FindOneQuery,
        Capability::FindQuery,
        Capability::FindAll,
        Capability::Save,
        Capability::Update,
        Capability::Replace,
        Capability::Delete,
        Capability::Count,
        Capability::PagedFindQuery,
        Capability::PagedFindAll,
        Capability::BatchFind,
        Capability::BatchSave,
        Capability::BatchUpdate,
        Capability::BatchDelete,
    ]
}

/// The members of a group, in declaration order.
pub open spec fn group_members(g: Group) -> Seq<Capability> {
    match g {
        Group::Crud => all_capabilities().subrange(0, 9),
        Group::Paging => all_capabilities().subrange(9, 11),
        Group::Batch => all_capabilities().subrange(11, 15),
    }
}

pub open spec fn group_of(c: Capability) -> Group {
    match c {
        Capability::PagedFindQuery | Capability::PagedFindAll => Group::Paging,
        Capability::BatchFind | Capability::BatchSave | Capability::BatchUpdate
        | Capability::BatchDelete => Group::Batch,
        _ => Group::Crud,
    }
}

/// The name of a group's facet in a declaration.
pub open spec fn facet_name(g: Group) -> Seq<char> {
    match g {
        Group::Crud => "crud_repo"@,
        Group::Paging => "paging_repo"@,
        Group::Batch => "batch_repo"@,
    }
}

/// The token that enables a capability inside its group's facet.
pub open spec fn token(c: Capability) -> Seq<char> {
    match c {
        Capability::FindOne => "find_one"@,
        Capability::FindOneQuery => "find_one_query"@,
        Capability::FindQuery => "find_query"@,
        Capability::FindAll => "find_all"@,
        Capability::Save => "save"@,
        Capability::Update => "update"@,
        Capability::Replace => "replace"@,
        Capability::Delete => "delete"@,
        Capability::Count => "count"@,
        Capability::PagedFindQuery => "find_query"@,
        Capability::PagedFindAll => "find_all"@,
        Capability::BatchFind => "find"@,
        Capability::BatchSave => "save"@,
        Capability::BatchUpdate => "update"@,
        Capability::BatchDelete => "delete"@,
    }
}

/// The tokens a group's facet accepts, in declaration order.
pub open spec fn vocabulary(g: Group) -> Seq<Seq<char>> {
    group_members(g).map_values(|c: Capability| token(c))
}

/// The name of the generated method.
pub open spec fn method_name(c: Capability) -> Seq<char> {
    match c {
        Capability::FindOne => "find_by_id"@,
        Capability::FindOneQuery => "find_one_by_query"@,
        Capability::FindQuery => "find_by_query"@,
        Capability::FindAll => "find_all"@,
        Capability::Save => "save"@,
        Capability::Update => "update"@,
        Capability::Replace => "replace"@,
        Capability::Delete => "delete"@,
        Capability::Count => "count"@,
        Capability::PagedFindQuery => "find_by_query_paged"@,
        Capability::PagedFindAll => "find_all_paged"@,
        Capability::BatchFind => "find_by_id_batch"@,
        Capability::BatchSave => "save_batch"@,
        Capability::BatchUpdate => "update_batch"@,
        Capability::BatchDelete => "delete_batch"@,
    }
}

/// The parameters of the generated method, after `self`.
pub open spec fn params_of(c: Capability) -> Seq<ParamKind> {
    match c {
        Capability::FindOne => seq![ParamKind::Id],
        Capability::FindOneQuery => seq![ParamKind::Query],
        Capability::FindQuery => seq![ParamKind::Query],
        Capability::FindAll => seq![],
        Capability::Save => seq![ParamKind::NewRecord],
        Capability::Update => seq![ParamKind::UpdateRecord],
        Capability::Replace => seq![ParamKind::Record],
        Capability::Delete => seq![ParamKind::Id],
        Capability::Count => seq![ParamKind::Query],
        Capability::PagedFindQuery => seq![ParamKind::Query, ParamKind::Page, ParamKind::PerPage],
        Capability::PagedFindAll => seq![ParamKind::Page, ParamKind::PerPage],
        Capability::BatchFind => seq![ParamKind::Ids],
        Capability::BatchSave => seq![ParamKind::NewRecords],
        Capability::BatchUpdate => seq![ParamKind::UpdateRecords],
        Capability::BatchDelete => seq![ParamKind::Ids],
    }
}

pub open spec fn returns_of(c: Capability) -> ReturnShape {
    match c {
        Capability::FindOne | Capability::FindOneQuery | Capability::Save | Capability::Update
        | Capability::Replace => ReturnShape::Record,
        Capability::FindQuery | Capability::FindAll | Capability::BatchFind
        | Capability::BatchSave | Capability::BatchUpdate => ReturnShape::Records,
        Capability::PagedFindQuery | Capability::PagedFindAll => ReturnShape::Paged,
        Capability::Count => ReturnShape::Count,
        Capability::Delete | Capability::BatchDelete => ReturnShape::Unit,
    }
}

/// A capability needs the identifier type exactly when one of its parameters
/// is an identifier or a list of them.
pub open spec fn needs_id(c: Capability) -> bool {
    params_of(c).contains(ParamKind::Id) || params_of(c).contains(ParamKind::Ids)
}

/// The name of the repository trait that a binding implements.
pub open spec fn trait_name(c: Capability) -> Seq<char> {
    match c {
        Capability::FindOne => "FindById"@,
        Capability::FindOneQuery => "FindOneByQuery"@,
        Capability::FindQuery => "FindByQuery"@,
        Capability::FindAll => "FindAll"@,
        Capability::Save => "Save"@,
        Capability::Update => "Update"@,
        Capability::Replace => "Replace"@,
        Capability::Delete => "Delete"@,
        Capability::Count => "Count"@,
        Capability::PagedFindQuery => "FindByQueryPaged"@,
        Capability::PagedFindAll => "FindAllPaged"@,
        Capability::BatchFind => "FindByIdBatch"@,
        Capability::BatchSave => "SaveBatch"@,
        Capability::BatchUpdate => "UpdateBatch"@,
        Capability::BatchDelete => "DeleteBatch"@,
    }
}

/// The name of a parameter of a generated method.
pub open spec fn param_name(k: ParamKind) -> Seq<char> {
    match k {
        ParamKind::Id => "id"@,
        ParamKind::Ids => "ids"@,
        ParamKind::Query => "query"@,
        ParamKind::NewRecord => "new_record"@,
        ParamKind::NewRecords => "new_records"@,
        ParamKind::UpdateRecord => "update_record"@,
        ParamKind::UpdateRecords => "update_records"@,
        ParamKind::Record => "record"@,
        ParamKind::Page => "page"@,
        ParamKind::PerPage => "per_page"@,
    }
}

impl Capability {
    pub fn group(self) -> (r: Group)
        ensures
            r == group_of(self),
    {
        match self {
            Capability::PagedFindQuery | Capability::PagedFindAll => Group::Paging,
            Capability::BatchFind | Capability::BatchSave | Capability::BatchUpdate
            | Capability::BatchDelete => Group::Batch,
            _ => Group::Crud,
        }
    }

    /// The token that enables this capability in its facet.
    pub fn token(self) -> (r: &'static str)
        ensures
            r@ == token(self),
    {
        match self {
            Capability::FindOne => "find_one",
            Capability::FindOneQuery => "find_one_query",
            Capability::FindQuery => "find_query",
            Capability::FindAll => "find_all",
            Capability::Save => "save",
            Capability::Update => "update",
            Capability::Replace => "replace",
            Capability::Delete => "delete",
            Capability::Count => "count",
            Capability::PagedFindQuery => "find_query",
            Capability::PagedFindAll => "find_all",
            Capability::BatchFind => "find",
            Capability::BatchSave => "save",
            Capability::BatchUpdate => "update",
            Capability::BatchDelete => "delete",
        }
    }

    pub fn method_name(self) -> (r: &'static str)
        ensures
            r@ == method_name(self),
    {
        match self {
            Capability::FindOne => "find_by_id",
            Capability::FindOneQuery => "find_one_by_query",
            Capability::FindQuery => "find_by_query",
            Capability::FindAll => "find_all",
            Capability::Save => "save",
            Capability::Update => "update",
            Capability::Replace => "replace",
            Capability::Delete => "delete",
            Capability::Count => "count",
            Capability::PagedFindQuery => "find_by_query_paged",
            Capability::PagedFindAll => "find_all_paged",
            Capability::BatchFind => "find_by_id_batch",
            Capability::BatchSave => "save_batch",
            Capability::BatchUpdate => "update_batch",
            Capability::BatchDelete => "delete_batch",
        }
    }

    pub fn trait_name(self) -> (r: &'static str)
        ensures
            r@ == trait_name(self),
    {
        match self {
            Capability::FindOne => "FindById",
            Capability::FindOneQuery => "FindOneByQuery",
            Capability::FindQuery => "FindByQuery",
            Capability::FindAll => "FindAll",
            Capability::Save => "Save",
            Capability::Update => "Update",
            Capability::Replace => "Replace",
            Capability::Delete => "Delete",
            Capability::Count => "Count",
            Capability::PagedFindQuery => "FindByQueryPaged",
            Capability::PagedFindAll => "FindAllPaged",
            Capability::BatchFind => "FindByIdBatch",
            Capability::BatchSave => "SaveBatch",
            Capability::BatchUpdate => "UpdateBatch",
            Capability::BatchDelete => "DeleteBatch",
        }
    }

    pub fn params(self) -> (r: Vec<ParamKind>)
        ensures
            r@ == params_of(self),
    {
        let r = match self {
            Capability::FindOne => vec![ParamKind::Id],
            Capability::FindOneQuery => vec![ParamKind::Query],
            Capability::FindQuery => vec![ParamKind::Query],
            Capability::FindAll => Vec::new(),
            Capability::Save => vec![ParamKind::NewRecord],
            Capability::Update => vec![ParamKind::UpdateRecord],
            Capability::Replace => vec![ParamKind::Record],
            Capability::Delete => vec![ParamKind::Id],
            Capability::Count => vec![ParamKind::Query],
            Capability::PagedFindQuery => vec![ParamKind::Query, ParamKind::Page, ParamKind::PerPage],
            Capability::PagedFindAll => vec![ParamKind::Page, ParamKind::PerPage],
            Capability::BatchFind => vec![ParamKind::Ids],
            Capability::BatchSave => vec![ParamKind::NewRecords],
            Capability::BatchUpdate => vec![ParamKind::UpdateRecords],
            Capability::BatchDelete => vec![ParamKind::Ids],
        };
        proof {
            assert(r@ =~= params_of(self));
        }
        r
    }

    pub fn return_shape(self) -> (r: ReturnShape)
        ensures
            r == returns_of(self),
    {
        match self {
            Capability::FindOne | Capability::FindOneQuery | Capability::Save
            | Capability::Update | Capability::Replace => ReturnShape::Record,
            Capability::FindQuery | Capability::FindAll | Capability::BatchFind
            | Capability::BatchSave | Capability::BatchUpdate => ReturnShape::Records,
            Capability::PagedFindQuery | Capability::PagedFindAll => ReturnShape::Paged,
            Capability::Count => ReturnShape::Count,
            Capability::Delete | Capability::BatchDelete => ReturnShape::Unit,
        }
    }

    pub fn needs_id(self) -> (r: bool)
        ensures
            r == needs_id(self),
    {
        let r = match self {
            Capability::FindOne | Capability::Delete | Capability::BatchFind
            | Capability::BatchDelete => true,
            _ => false,
        };
        proof {
            let ps = params_of(self);
            if r {
                assert(ps[0] == ParamKind::Id || ps[0] == ParamKind::Ids);
            } else {
                assert forall|i: int| 0 <= i < ps.len() implies ps[i] != ParamKind::Id
                    && ps[i] != ParamKind::Ids by {}
            }
        }
        r
    }
}

impl ParamKind {
    pub fn name(self) -> (r: &'static str)
        ensures
            r@ == param_name(self),
    {
        match self {
            ParamKind::Id => "id",
            ParamKind::Ids => "ids",
            ParamKind::Query => "query",
            ParamKind::NewRecord => "new_record",
            ParamKind::NewRecords => "new_records",
            ParamKind::UpdateRecord => "update_record",
            ParamKind::UpdateRecords => "update_records",
            ParamKind::Record => "record",
            ParamKind::Page => "page",
            ParamKind::PerPage => "per_page",
        }
    }
}

/// The members of a group, in declaration order.
pub fn members_of(g: Group) -> (r: Vec<Capability>)
    ensures
        r@ == group_members(g),
{
    let r = match g {
        Group::Crud => vec![
            Capability::FindOne,
            Capability::FindOneQuery,
            Capability::FindQuery,
            Capability::FindAll,
            Capability::Save,
            Capability::Update,
            Capability::Replace,
            Capability::Delete,
            Capability::Count,
        ],
        Group::Paging => vec![Capability::PagedFindQuery, Capability::PagedFindAll],
        Group::Batch => vec![
            Capability::BatchFind,
            Capability::BatchSave,
            Capability::BatchUpdate,
            Capability::BatchDelete,
        ],
    };
    proof {
        assert(r@ =~= group_members(g));
    }
    r
}

} // verus!
