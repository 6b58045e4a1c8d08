//! Per-facet option records and the parser that reads them from a
//! declaration. Both clause forms, `name` and `name = true`, set the same flag;
//! a key outside the facet's vocabulary, a value of the wrong form, or a key
//! given twice refuses the declaration. The first offending clause, in source
//! order, decides the error.
use vstd::prelude::*;
use crate::capability::{group_members, members_of, token, vocabulary, Capability, Group};
use crate::declaration::{clause_flag, clause_key, clause_text, derefs, facet_clauses, gather, Clause, Declaration};
use crate::error::{duplicate_message, invalid_value_message, texts, unknown_option_message, ErrorModel, RepoError};

verus! {

/// The `crud_repo` facet.
#[derive(Clone, Copy, Debug, PartialEq, Eq, Structural, Default)]
pub struct CrudRepoOpts {
    pub find_one: bool,
    pub find_one_query: bool,
    pub find_query: bool,
    pub find_all: bool,
    pub save: bool,
    pub update: bool,
    pub replace: bool,
    pub delete: bool,
    pub count: bool,
}

/// The `paging_repo` facet.
#[derive(Clone, Copy, Debug, PartialEq, Eq, Structural, Default)]
pub struct PagingRepoOpts {
    pub find_query: bool,
    pub find_all: bool,
}

/// The `batch_repo` facet.
#[derive(Clone, Copy, Debug, PartialEq, Eq, Structural, Default)]
pub struct BatchRepoOpts {
    pub find: bool,
    pub save: bool,
    pub update: bool,
    pub delete: bool,
}

/// The `repository` facet: the pool type and the table reference.
#[derive(Clone, Debug, PartialEq, Eq, Default)]
pub struct RepositoryOpts {
    pub pool: Option<String>,
    pub table_ref: Option<String>,
}

/// The `repo_type` facet: the identifier type and the types taken by `save`
/// and `update`.
#[derive(Clone, Debug, PartialEq, Eq, Default)]
pub struct RepoTypeOpts {
    pub id_type: Option<String>,
    pub new_type: Option<String>,
    pub update_type: Option<String>,
}

/// The entity and its `repository` facet.
#[derive(Clone, Debug, PartialEq, Eq)]
pub struct RepoOpts {
    pub ident: String,
    pub repository: RepositoryOpts,
}

/// Every facet of a declaration, parsed.
#[derive(Clone, Debug, PartialEq, Eq)]
pub struct Options {
    pub repo: RepoOpts,
    pub repo_type: RepoTypeOpts,
    pub crud_repo: CrudRepoOpts,
    pub paging_repo: PagingRepoOpts,
    pub batch_repo: BatchRepoOpts,
}

/// The mathematical content of [`Options`].
pub struct OptionsModel {
    pub ident: Seq<char>,
    pub pool: Option<Seq<char>>,
    pub table_ref: Option<Seq<char>>,
    pub id_type: Option<Seq<char>>,
    pub new_type: Option<Seq<char>>,
    pub update_type: Option<Seq<char>>,
    pub crud: CrudRepoOpts,
    pub paging: PagingRepoOpts,
    pub batch: BatchRepoOpts,
}

impl View for Options {
    type V = OptionsModel;

    open spec fn view(&self) -> OptionsModel {
        OptionsModel {
            ident: self.repo.ident@,
            pool: self.repo.repository.pool.deep_view(),
            table_ref: self.repo.repository.table_ref.deep_view(),
            id_type: self.repo_type.id_type.deep_view(),
            new_type: self.repo_type.new_type.deep_view(),
            update_type: self.repo_type.update_type.deep_view(),
            crud: self.crud_repo,
            paging: self.paging_repo,
            batch: self.batch_repo,
        }
    }
}

/// The keys of the `repository` facet.
pub open spec fn repository_keys() -> Seq<Seq<char>> {
    seq!["pool"@, "table_ref"@]
}

/// The keys of the `repo_type` facet.
pub open spec fn repo_type_keys() -> Seq<Seq<char>> {
    seq!["id_type"@, "new_type"@, "update_type"@]
}

/// The error for a key outside a facet's vocabulary: capability facets name
/// the token, option facets report an unknown option.
pub open spec fn unknown_key_error(capabilities: bool, key: Seq<char>) -> ErrorModel {
    if capabilities {
        ErrorModel::UnknownCapability(seq![key])
    } else {
        ErrorModel::Configuration(unknown_option_message(key))
    }
}

/// Whether some key of `vocab` equal to `key` already has a value in `st`.
pub open spec fn already_set<A>(st: Seq<Option<A>>, vocab: Seq<Seq<char>>, key: Seq<char>) -> bool {
    exists|k: int| 0 <= k < st.len() && k < vocab.len() && vocab[k] == key && st[k] is Some
}

/// One clause applied to the values read so far (`st`, one slot per key of
/// `vocab`); `value` is what the clause gives its key in this facet.
pub open spec fn scan_step<A>(
    st: Seq<Option<A>>,
    c: Clause,
    vocab: Seq<Seq<char>>,
    value: Option<A>,
    capabilities: bool,
) -> Result<Seq<Option<A>>, ErrorModel> {
    let key = clause_key(c);
    if !vocab.contains(key) {
        Err(unknown_key_error(capabilities, key))
    } else if value is None {
        Err(ErrorModel::Configuration(invalid_value_message(key)))
    } else if already_set(st, vocab, key) {
        Err(ErrorModel::Configuration(duplicate_message(key)))
    } else {
        Ok(Seq::new(st.len(), |k: int| if vocab[k] == key { value } else { st[k] }))
    }
}

/// The flags set by the clauses of a capability facet.
pub open spec fn flag_scan(cs: Seq<Clause>, vocab: Seq<Seq<char>>) -> Result<
    Seq<Option<bool>>,
    ErrorModel,
>
    decreases cs.len(),
{
    if cs.len() == 0 {
        Ok(Seq::new(vocab.len(), |k: int| None))
    } else {
        match flag_scan(cs.drop_last(), vocab) {
            Ok(st) => scan_step(st, cs.last(), vocab, clause_flag(cs.last()), true),
            Err(e) => Err(e),
        }
    }
}

/// The types named by the clauses of an option facet.
pub open spec fn text_scan(cs: Seq<Clause>, vocab: Seq<Seq<char>>) -> Result<
    Seq<Option<Seq<char>>>,
    ErrorModel,
>
    decreases cs.len(),
{
    if cs.len() == 0 {
        Ok(Seq::new(vocab.len(), |k: int| None))
    } else {
        match text_scan(cs.drop_last(), vocab) {
            Ok(st) => scan_step(st, cs.last(), vocab, clause_text(cs.last()), false),
            Err(e) => Err(e),
        }
    }
}

/// A flag is on when a clause set it to `true`.
pub open spec fn is_on(st: Seq<Option<bool>>, k: int) -> bool {
    st[k] == Some(true)
}

pub open spec fn crud_from(st: Seq<Option<bool>>) -> CrudRepoOpts {
    CrudRepoOpts {
        find_one: is_on(st, 0),
        find_one_query: is_on(st, 1),
        find_query: is_on(st, 2),
        find_all: is_on(st, 3),
        save: is_on(st, 4),
        update: is_on(st, 5),
        replace: is_on(st, 6),
        delete: is_on(st, 7),
        count: is_on(st, 8),
    }
}

pub open spec fn paging_from(st: Seq<Option<bool>>) -> PagingRepoOpts {
    PagingRepoOpts { find_query: is_on(st, 0), find_all: is_on(st, 1) }
}

pub open spec fn batch_from(st: Seq<Option<bool>>) -> BatchRepoOpts {
    BatchRepoOpts {
        find: is_on(st, 0),
        save: is_on(st, 1),
        update: is_on(st, 2),
        delete: is_on(st, 3),
    }
}

/// The keys of `cs` outside `vocab`, in order.
pub open spec fn unknown_in(cs: Seq<Clause>, vocab: Seq<Seq<char>>) -> Seq<Seq<char>>
    decreases cs.len(),
{
    if cs.len() == 0 {
        Seq::empty()
    } else if vocab.contains(clause_key(cs.last())) {
        unknown_in(cs.drop_last(), vocab)
    } else {
        unknown_in(cs.drop_last(), vocab).push(clause_key(cs.last()))
    }
}

/// Every token of a capability facet outside that facet's vocabulary: those
/// of `crud_repo`, then `paging_repo`, then `batch_repo`, each in source
/// order.
pub open spec fn unknown_tokens(d: Declaration) -> Seq<Seq<char>> {
    let fs = d.facets@;
    unknown_in(facet_clauses(fs, "crud_repo"@), vocabulary(Group::Crud)) + unknown_in(
        facet_clauses(fs, "paging_repo"@),
        vocabulary(Group::Paging),
    ) + unknown_in(facet_clauses(fs, "batch_repo"@), vocabulary(Group::Batch))
}

/// What a declaration parses to. Unknown capability tokens come first: if
/// there are any, the error names every one of them, whatever else is wrong.
/// Otherwise the facets are read in the order `repository`, `repo_type`,
/// `crud_repo`, `paging_repo`, `batch_repo`, and the first clause that fails
/// decides the error. Absent facets leave every option unset and every flag
/// off.
pub open spec fn parse_options(d: Declaration) -> Result<OptionsModel, ErrorModel> {
    if unknown_tokens(d).len() > 0 {
        Err(ErrorModel::UnknownCapability(unknown_tokens(d)))
    } else {
        read_options(d)
    }
}

/// The facets of a declaration read in order, the first failing clause
/// deciding the error.
pub open spec fn read_options(d: Declaration) -> Result<OptionsModel, ErrorModel> {
    let fs = d.facets@;
    match text_scan(facet_clauses(fs, "repository"@), repository_keys()) {
        Err(e) => Err(e),
        Ok(repo) => match text_scan(facet_clauses(fs, "repo_type"@), repo_type_keys()) {
            Err(e) => Err(e),
            Ok(types) => match flag_scan(
                facet_clauses(fs, "crud_repo"@),
                vocabulary(Group::Crud),
            ) {
                Err(e) => Err(e),
                Ok(crud) => match flag_scan(
                    facet_clauses(fs, "paging_repo"@),
                    vocabulary(Group::Paging),
                ) {
                    Err(e) => Err(e),
                    Ok(paging) => match flag_scan(
                        facet_clauses(fs, "batch_repo"@),
                        vocabulary(Group::Batch),
                    ) {
                        Err(e) => Err(e),
                        Ok(batch) => Ok(
                            OptionsModel {
                                ident: d.ident@,
                                pool: repo[0],
                                table_ref: repo[1],
                                id_type: types[0],
                                new_type: types[1],
                                update_type: types[2],
                                crud: crud_from(crud),
                                paging: paging_from(paging),
                                batch: batch_from(batch),
                            },
                        ),
                    },
                },
            },
        },
    }
}

/// Once a scan has failed, further clauses leave its error unchanged.
pub proof fn lemma_flag_scan_error_sticks(cs: Seq<Clause>, vocab: Seq<Seq<char>>, n: int)
    requires
        0 <= n <= cs.len(),
        flag_scan(cs.take(n), vocab) is Err,
    ensures
        flag_scan(cs, vocab) == flag_scan(cs.take(n), vocab),
    decreases cs.len() - n,
{
    if n < cs.len() {
        assert(cs.take(n + 1).drop_last() =~= cs.take(n));
        lemma_flag_scan_error_sticks(cs, vocab, n + 1);
    } else {
        assert(cs.take(n) =~= cs);
    }
}

/// Once a scan has failed, further clauses leave its error unchanged.
pub proof fn lemma_text_scan_error_sticks(cs: Seq<Clause>, vocab: Seq<Seq<char>>, n: int)
    requires
        0 <= n <= cs.len(),
        text_scan(cs.take(n), vocab) is Err,
    ensures
        text_scan(cs, vocab) == text_scan(cs.take(n), vocab),
    decreases cs.len() - n,
{
    if n < cs.len() {
        assert(cs.take(n + 1).drop_last() =~= cs.take(n));
        lemma_text_scan_error_sticks(cs, vocab, n + 1);
    } else {
        assert(cs.take(n) =~= cs);
    }
}

/// Whether `key` is a key of `vocab`, and whether one of its slots in `st`
/// already holds a value.
fn lookup<A>(st: &Vec<Option<A>>, vocab: &Vec<String>, key: &String) -> (r: (bool, bool))
    requires
        st@.len() == vocab@.len(),
    ensures
        r.0 == texts(vocab@).contains(key@),
        r.1 == already_set(st@, texts(vocab@), key@),
{
    let ghost v = texts(vocab@);
    let mut known = false;
    let mut set = false;
    let mut k: usize = 0;
    while k < vocab.len()
        invariant
            0 <= k <= vocab@.len(),
            st@.len() == vocab@.len(),
            v == texts(vocab@),
            known == (exists|j: int| 0 <= j < k && v[j] == key@),
            set == (exists|j: int| 0 <= j < k && v[j] == key@ && st@[j] is Some),
        decreases vocab@.len() - k,
    {
        assert(v[k as int] == vocab@[k as int]@);
        if vocab[k] == *key {
            known = true;
            if st[k].is_some() {
                set = true;
            }
        }
        k += 1;
    }
    proof {
        if known {
            let j = choose|j: int| 0 <= j < k && v[j] == key@;
            assert(v[j] == key@);
        }
    }
    (known, set)
}

/// The flags set by `cs` in a capability facet with keys `vocab`.
fn scan_flags(cs: &Vec<&Clause>, vocab: &Vec<String>) -> (r: Result<Vec<Option<bool>>, RepoError>)
    ensures
        r matches Ok(st) ==> st@.len() == vocab@.len(),
        match r {
            Ok(st) => flag_scan(derefs(cs@), texts(vocab@)) == Ok::<_, ErrorModel>(st@),
            Err(e) => flag_scan(derefs(cs@), texts(vocab@)) == Err::<Seq<Option<bool>>, _>(e@),
        },
{
    let ghost v = texts(vocab@);
    let ghost all = derefs(cs@);
    let mut st: Vec<Option<bool>> = Vec::new();
    let mut k: usize = 0;
    while k < vocab.len()
        invariant
            0 <= k <= vocab@.len(),
            st@ == Seq::new(k as nat, |j: int| None::<bool>),
        decreases vocab@.len() - k,
    {
        st.push(None);
        assert(st@ =~= Seq::new((k + 1) as nat, |j: int| None::<bool>));
        k += 1;
    }
    assert(all.take(0) =~= Seq::<Clause>::empty());
    let mut i: usize = 0;
    while i < cs.len()
        invariant
            0 <= i <= cs@.len(),
            v == texts(vocab@),
            all == derefs(cs@),
            st@.len() == vocab@.len(),
            flag_scan(all.take(i as int), v) == Ok::<_, ErrorModel>(st@),
        decreases cs@.len() - i,
    {
        let c: &Clause = cs[i];
        assert(all.take(i + 1).drop_last() =~= all.take(i as int));
        assert(all.take(i + 1).last() == *c);
        let key = c.key();
        let (known, set) = lookup(&st, vocab, key);
        if !known {
            proof {
                lemma_flag_scan_error_sticks(all, v, i + 1);
            }
            let tokens = vec![key.clone()];
            assert(texts(tokens@) =~= seq![key@]);
            return Err(RepoError::unknown_capabilities(tokens));
        }
        let value = match c.flag() {
            Some(b) => b,
            None => {
                proof {
                    lemma_flag_scan_error_sticks(all, v, i + 1);
                }
                return Err(RepoError::invalid_value(key));
            },
        };
        if set {
            proof {
                lemma_flag_scan_error_sticks(all, v, i + 1);
            }
            return Err(RepoError::duplicate(key));
        }
        let ghost before = st@;
        let mut k: usize = 0;
        while k < vocab.len()
            invariant
                0 <= k <= vocab@.len(),
                v == texts(vocab@),
                st@.len() == before.len(),
                before.len() == vocab@.len(),
                forall|j: int|
                    0 <= j < k ==> st@[j] == if v[j] == key@ {
                        Some(value)
                    } else {
                        before[j]
                    },
                forall|j: int| k <= j < st@.len() ==> st@[j] == before[j],
            decreases vocab@.len() - k,
        {
            assert(v[k as int] == vocab@[k as int]@);
            if vocab[k] == *key {
                st[k] = Some(value);
            }
            k += 1;
        }
        proof {
            let stepped = scan_step(before, *c, v, clause_flag(*c), true);
            assert(stepped is Ok);
            assert(stepped->Ok_0 =~= st@);
        }
        i += 1;
    }
    assert(all.take(i as int) =~= all);
    Ok(st)
}

/// The types named by `cs` in an option facet with keys `vocab`.
fn scan_texts(cs: &Vec<&Clause>, vocab: &Vec<String>) -> (r: Result<
    Vec<Option<String>>,
    RepoError,
>)
    ensures
        r matches Ok(st) ==> st@.len() == vocab@.len(),
        match r {
            Ok(st) => text_scan(derefs(cs@), texts(vocab@)) == Ok::<_, ErrorModel>(st.deep_view()),
            Err(e) => text_scan(derefs(cs@), texts(vocab@)) == Err::<Seq<Option<Seq<char>>>, _>(
                e@,
            ),
        },
{
    let ghost v = texts(vocab@);
    let ghost all = derefs(cs@);
    let mut st: Vec<Option<String>> = Vec::new();
    let mut k: usize = 0;
    while k < vocab.len()
        invariant
            0 <= k <= vocab@.len(),
            st@.len() == k,
            st.deep_view() == Seq::new(k as nat, |j: int| None::<Seq<char>>),
        decreases vocab@.len() - k,
    {
        let ghost prev = st@;
        let ghost prev_deep = st.deep_view();
        st.push(None);
        assert(st@ == prev.push(None));
        assert(st.deep_view() =~= Seq::new((k + 1) as nat, |j: int| None::<Seq<char>>)) by {
            assert forall|j: int| 0 <= j < k + 1 implies st.deep_view()[j] == None::<Seq<char>> by {
                if j < k {
                    assert(st@[j] == prev[j]);
                    assert(prev_deep[j] == prev[j].deep_view());
                } else {
                    assert(st@[j] == None::<String>);
                }
            }
        }
        k += 1;
    }
    assert(all.take(0) =~= Seq::<Clause>::empty());
    let mut i: usize = 0;
    while i < cs.len()
        invariant
            0 <= i <= cs@.len(),
            v == texts(vocab@),
            all == derefs(cs@),
            st@.len() == vocab@.len(),
            text_scan(all.take(i as int), v) == Ok::<_, ErrorModel>(st.deep_view()),
        decreases cs@.len() - i,
    {
        let c: &Clause = cs[i];
        assert(all.take(i + 1).drop_last() =~= all.take(i as int));
        assert(all.take(i + 1).last() == *c);
        let key = c.key();
        let (known, set) = lookup(&st, vocab, key);
        proof {
            assert(already_set(st@, v, key@) == already_set(st.deep_view(), v, key@)) by {
                if already_set(st@, v, key@) {
                    let j = choose|j: int|
                        0 <= j < st@.len() && j < v.len() && v[j] == key@ && st@[j] is Some;
                    assert(st.deep_view()[j] is Some);
                }
                if already_set(st.deep_view(), v, key@) {
                    let j = choose|j: int|
                        0 <= j < st.deep_view().len() && j < v.len() && v[j] == key@
                            && st.deep_view()[j] is Some;
                    assert(st@[j] is Some);
                }
            }
        }
        if !known {
            proof {
                lemma_text_scan_error_sticks(all, v, i + 1);
            }
            return Err(RepoError::unknown_option(key));
        }
        let value = match c.text() {
            Some(t) => t,
            None => {
                proof {
                    lemma_text_scan_error_sticks(all, v, i + 1);
                }
                return Err(RepoError::invalid_value(key));
            },
        };
        if set {
            proof {
                lemma_text_scan_error_sticks(all, v, i + 1);
            }
            return Err(RepoError::duplicate(key));
        }
        let ghost before = st.deep_view();
        let mut k: usize = 0;
        while k < vocab.len()
            invariant
                0 <= k <= vocab@.len(),
                v == texts(vocab@),
                st@.len() == before.len(),
                before.len() == vocab@.len(),
                forall|j: int|
                    0 <= j < k ==> st.deep_view()[j] == if v[j] == key@ {
                        Some(value@)
                    } else {
                        before[j]
                    },
                forall|j: int| k <= j < st@.len() ==> st.deep_view()[j] == before[j],
            decreases vocab@.len() - k,
        {
            assert(v[k as int] == vocab@[k as int]@);
            if vocab[k] == *key {
                st[k] = Some(value.clone());
            }
            k += 1;
        }
        proof {
            let stepped = scan_step(before, *c, v, clause_text(*c), false);
            assert(stepped is Ok);
            assert(stepped->Ok_0 =~= st.deep_view());
        }
        i += 1;
    }
    assert(all.take(i as int) =~= all);
    Ok(st)
}

/// The tokens of a capability group, as strings.
fn group_keys(g: Group) -> (r: Vec<String>)
    ensures
        texts(r@) == vocabulary(g),
{
    let members = members_of(g);
    let mut r: Vec<String> = Vec::new();
    let mut i: usize = 0;
    while i < members.len()
        invariant
            0 <= i <= members@.len(),
            members@ == group_members(g),
            texts(r@) == group_members(g).take(i as int).map_values(|c: Capability| token(c)),
        decreases members@.len() - i,
    {
        let ghost prev = r@;
        r.push(String::from_str(members[i].token()));
        assert(texts(r@) =~= texts(prev).push(token(members@[i as int])));
        assert(group_members(g).take(i + 1).map_values(|c: Capability| token(c))
            =~= group_members(g).take(i as int).map_values(|c: Capability| token(c)).push(
            token(members@[i as int]),
        ));
        i += 1;
    }
    assert(group_members(g).take(i as int) =~= group_members(g));
    r
}

fn repository_key_list() -> (r: Vec<String>)
    ensures
        texts(r@) == repository_keys(),
{
    let r = vec![String::from_str("pool"), String::from_str("table_ref")];
    assert(texts(r@) =~= repository_keys());
    r
}

fn repo_type_key_list() -> (r: Vec<String>)
    ensures
        texts(r@) == repo_type_keys(),
{
    let r = vec![
        String::from_str("id_type"),
        String::from_str("new_type"),
        String::from_str("update_type"),
    ];
    assert(texts(r@) =~= repo_type_keys());
    r
}

/// A copy of an optional type text.
fn copy_text(o: &Option<String>) -> (r: Option<String>)
    ensures
        r.deep_view() == o.deep_view(),
{
    match o {
        Some(t) => Some(t.clone()),
        None => None,
    }
}

/// Whether slot `k` holds a flag set to `true`.
fn flag_on(st: &Vec<Option<bool>>, k: usize) -> (r: bool)
    requires
        k < st@.len(),
    ensures
        r == is_on(st@, k as int),
{
    match st[k] {
        Some(b) => b,
        None => false,
    }
}

impl CrudRepoOpts {
    fn from_flags(st: &Vec<Option<bool>>) -> (r: CrudRepoOpts)
        requires
            st@.len() == 9,
        ensures
            r == crud_from(st@),
    {
        CrudRepoOpts {
            find_one: flag_on(st, 0),
            find_one_query: flag_on(st, 1),
            find_query: flag_on(st, 2),
            find_all: flag_on(st, 3),
            save: flag_on(st, 4),
            update: flag_on(st, 5),
            replace: flag_on(st, 6),
            delete: flag_on(st, 7),
            count: flag_on(st, 8),
        }
    }
}

impl PagingRepoOpts {
    fn from_flags(st: &Vec<Option<bool>>) -> (r: PagingRepoOpts)
        requires
            st@.len() == 2,
        ensures
            r == paging_from(st@),
    {
        PagingRepoOpts { find_query: flag_on(st, 0), find_all: flag_on(st, 1) }
    }
}

impl BatchRepoOpts {
    fn from_flags(st: &Vec<Option<bool>>) -> (r: BatchRepoOpts)
        requires
            st@.len() == 4,
        ensures
            r == batch_from(st@),
    {
        BatchRepoOpts {
            find: flag_on(st, 0),
            save: flag_on(st, 1),
            update: flag_on(st, 2),
            delete: flag_on(st, 3),
        }
    }
}

/// Whether `key` is one of the keys of `vocab`.
fn knows(vocab: &Vec<String>, key: &String) -> (r: bool)
    ensures
        r == texts(vocab@).contains(key@),
{
    let ghost v = texts(vocab@);
    let mut k: usize = 0;
    while k < vocab.len()
        invariant
            0 <= k <= vocab@.len(),
            v == texts(vocab@),
            forall|j: int| 0 <= j < k ==> v[j] != key@,
        decreases vocab@.len() - k,
    {
        assert(v[k as int] == vocab@[k as int]@);
        if vocab[k] == *key {
            return true;
        }
        k += 1;
    }
    false
}

/// Appends to `out` the keys of `cs` outside `vocab`, in order.
fn collect_unknown(cs: &Vec<&Clause>, vocab: &Vec<String>, out: &mut Vec<String>)
    ensures
        texts(final(out)@) == texts(old(out)@) + unknown_in(derefs(cs@), texts(vocab@)),
{
    let ghost start = texts(out@);
    let ghost all = derefs(cs@);
    let mut i: usize = 0;
    assert(all.take(0) =~= Seq::<Clause>::empty());
    assert(start + Seq::<Seq<char>>::empty() =~= start);
    while i < cs.len()
        invariant
            0 <= i <= cs@.len(),
            all == derefs(cs@),
            texts(out@) == start + unknown_in(all.take(i as int), texts(vocab@)),
        decreases cs@.len() - i,
    {
        let c: &Clause = cs[i];
        assert(all.take(i + 1).drop_last() =~= all.take(i as int));
        assert(all.take(i + 1).last() == *c);
        let key = c.key();
        if !knows(vocab, key) {
            let ghost prev = out@;
            out.push(key.clone());
            assert(texts(out@) =~= texts(prev).push(key@));
            assert(start + unknown_in(all.take(i as int), texts(vocab@)).push(key@) =~= (start
                + unknown_in(all.take(i as int), texts(vocab@))).push(key@));
        }
        i += 1;
    }
    assert(all.take(i as int) =~= all);
}

impl Options {
    /// Reads every facet of a declaration into its option record.
    pub fn from_derive_input(d: &Declaration) -> (r: Result<Options, RepoError>)
        ensures
            match r {
                Ok(o) => parse_options(*d) == Ok::<_, ErrorModel>(o@),
                Err(e) => parse_options(*d) == Err::<OptionsModel, _>(e@),
            },
    {
        let fs = &d.facets;
        let crud_clauses = gather(fs, "crud_repo");
        let paging_clauses = gather(fs, "paging_repo");
        let batch_clauses = gather(fs, "batch_repo");
        let crud_keys = group_keys(Group::Crud);
        let paging_keys = group_keys(Group::Paging);
        let batch_keys = group_keys(Group::Batch);
        let mut unknown: Vec<String> = Vec::new();
        collect_unknown(&crud_clauses, &crud_keys, &mut unknown);
        collect_unknown(&paging_clauses, &paging_keys, &mut unknown);
        collect_unknown(&batch_clauses, &batch_keys, &mut unknown);
        assert(texts(unknown@) =~= unknown_tokens(*d));
        if unknown.len() > 0 {
            return Err(RepoError::unknown_capabilities(unknown));
        }
        let repo = match scan_texts(&gather(fs, "repository"), &repository_key_list()) {
            Ok(v) => v,
            Err(e) => return Err(e),
        };
        let types = match scan_texts(&gather(fs, "repo_type"), &repo_type_key_list()) {
            Ok(v) => v,
            Err(e) => return Err(e),
        };
        let crud = match scan_flags(&crud_clauses, &crud_keys) {
            Ok(v) => v,
            Err(e) => return Err(e),
        };
        let paging = match scan_flags(&paging_clauses, &paging_keys) {
            Ok(v) => v,
            Err(e) => return Err(e),
        };
        let batch = match scan_flags(&batch_clauses, &batch_keys) {
            Ok(v) => v,
            Err(e) => return Err(e),
        };
        let o = Options {
            repo: RepoOpts {
                ident: d.ident.clone(),
                repository: RepositoryOpts { pool: copy_text(&repo[0]), table_ref: copy_text(&repo[1]) },
            },
            repo_type: RepoTypeOpts {
                id_type: copy_text(&types[0]),
                new_type: copy_text(&types[1]),
                update_type: copy_text(&types[2]),
            },
            crud_repo: CrudRepoOpts::from_flags(&crud),
            paging_repo: PagingRepoOpts::from_flags(&paging),
            batch_repo: BatchRepoOpts::from_flags(&batch),
        };
        assert(o@ == parse_options(*d)->Ok_0);
        Ok(o)
    }
}

/// The names of the facets a declaration may carry.
pub open spec fn facet_names() -> Seq<Seq<char>> {
    seq!["repository"@, "repo_type"@, "crud_repo"@, "paging_repo"@, "batch_repo"@]
}

/// Whether `name` is one of the facets a declaration may carry; other
/// attributes on an entity are not this library's to read.
pub fn is_facet(name: &str) -> (r: bool)
    ensures
        r == facet_names().contains(name@),
{
    let n = String::from_str(name);
    let names = vec![
        String::from_str("repository"),
        String::from_str("repo_type"),
        String::from_str("crud_repo"),
        String::from_str("paging_repo"),
        String::from_str("batch_repo"),
    ];
    assert(texts(names@) =~= facet_names());
    let mut i: usize = 0;
    while i < names.len()
        invariant
            0 <= i <= names@.len(),
            texts(names@) == facet_names(),
            n@ == name@,
            forall|j: int| 0 <= j < i ==> facet_names()[j] != n@,
        decreases names@.len() - i,
    {
        assert(texts(names@)[i as int] == names@[i as int]@);
        if names[i] == n {
            assert(facet_names()[i as int] == name@);
            return true;
        }
        i += 1;
    }
    false
}

} // verus!
