//! Properties of the compiler as a whole, proved over the specifications that
//! the parser, the resolver and the emitter are verified against.
use vstd::prelude::*;
use crate::capability::{all_capabilities, facet_name, method_name, vocabulary, Capability, Group};
use crate::declaration::{clause_flag, clause_key, clauses_agree, facet_clauses, Clause, Declaration, Facet};
use crate::descriptor::{id_required, is_enabled, resolve_options, DescriptorModel, Profile};
use crate::emit::{binding_of, bindings_of, compile, enabled_capabilities, enabled_in};
use crate::error::{missing_id_message, missing_pool_message, missing_table_message, ErrorModel};
use crate::options::{
    flag_scan, parse_options, repo_type_keys, repository_keys, text_scan, unknown_in,
    unknown_tokens, BatchRepoOpts, CrudRepoOpts, OptionsModel, PagingRepoOpts,
};

verus! {

/// Two clause lists of the same length that agree position by position.
pub open spec fn clause_seqs_agree(a: Seq<Clause>, b: Seq<Clause>) -> bool {
    &&& a.len() == b.len()
    &&& forall|i: int| 0 <= i < a.len() ==> clauses_agree(#[trigger] a[i], b[i])
}

/// Two facet lists with the same names whose clauses agree position by
/// position.
pub open spec fn facets_agree(a: Seq<Facet>, b: Seq<Facet>) -> bool {
    &&& a.len() == b.len()
    &&& forall|i: int|
        0 <= i < a.len() ==> (#[trigger] a[i]).name@ == b[i].name@ && clause_seqs_agree(
            a[i].clauses@,
            b[i].clauses@,
        )
}

/// Two declarations of the same entity that differ at most in how their
/// clauses are written: `find_all` where the other has `find_all = true`, or a
/// path where the other has the same text as a string literal.
pub open spec fn declarations_agree(a: Declaration, b: Declaration) -> bool {
    a.ident@ == b.ident@ && facets_agree(a.facets@, b.facets@)
}

proof fn lemma_facet_clauses_agree(a: Seq<Facet>, b: Seq<Facet>, name: Seq<char>)
    requires
        facets_agree(a, b),
    ensures
        clause_seqs_agree(facet_clauses(a, name), facet_clauses(b, name)),
    decreases a.len(),
{
    if a.len() > 0 {
        let (a0, b0) = (a.drop_last(), b.drop_last());
        assert forall|i: int| 0 <= i < a0.len() implies (#[trigger] a0[i]).name@ == b0[i].name@
            && clause_seqs_agree(a0[i].clauses@, b0[i].clauses@) by {
            assert(a0[i] == a[i] && b0[i] == b[i]);
        }
        lemma_facet_clauses_agree(a0, b0, name);
        let (x, y) = (facet_clauses(a0, name), facet_clauses(b0, name));
        let (ca, cb) = (a.last().clauses@, b.last().clauses@);
        assert(a.last() == a[a.len() - 1] && b.last() == b[b.len() - 1]);
        if a.last().name@ == name {
            assert forall|i: int| 0 <= i < (x + ca).len() implies clauses_agree(
                #[trigger] (x + ca)[i],
                (y + cb)[i],
            ) by {
                if i < x.len() {
                    assert(clauses_agree(x[i], y[i]));
                } else {
                    assert(clauses_agree(ca[i - x.len()], cb[i - x.len()]));
                }
            }
        }
    }
}

proof fn lemma_flag_scan_agree(a: Seq<Clause>, b: Seq<Clause>, vocab: Seq<Seq<char>>)
    requires
        clause_seqs_agree(a, b),
    ensures
        flag_scan(a, vocab) == flag_scan(b, vocab),
    decreases a.len(),
{
    if a.len() > 0 {
        assert(clauses_agree(a[a.len() - 1], b[b.len() - 1]));
        lemma_flag_scan_agree(a.drop_last(), b.drop_last(), vocab);
    }
}

proof fn lemma_text_scan_agree(a: Seq<Clause>, b: Seq<Clause>, vocab: Seq<Seq<char>>)
    requires
        clause_seqs_agree(a, b),
    ensures
        text_scan(a, vocab) == text_scan(b, vocab),
    decreases a.len(),
{
    if a.len() > 0 {
        assert(clauses_agree(a[a.len() - 1], b[b.len() - 1]));
        lemma_text_scan_agree(a.drop_last(), b.drop_last(), vocab);
    }
}

/// The two clause forms are interchangeable: declarations that agree clause
/// by clause, up to writing `name` or `name = true`, parse to the same
/// options, resolve to the same descriptor and compile to the same
/// repository, or fail with the same error.
pub proof fn lemma_clause_forms_agree(a: Declaration, b: Declaration, p: Profile)
    requires
        declarations_agree(a, b),
    ensures
        parse_options(a) == parse_options(b),
        compile(a, p) == compile(b, p),
        parse_options(a) matches Ok(o) ==> resolve_options(o, p) == resolve_options(
            parse_options(b)->Ok_0,
            p,
        ),
{
    let (fa, fb) = (a.facets@, b.facets@);
    lemma_facet_clauses_agree(fa, fb, "repository"@);
    lemma_facet_clauses_agree(fa, fb, "repo_type"@);
    lemma_facet_clauses_agree(fa, fb, "crud_repo"@);
    lemma_facet_clauses_agree(fa, fb, "paging_repo"@);
    lemma_facet_clauses_agree(fa, fb, "batch_repo"@);
    lemma_text_scan_agree(
        facet_clauses(fa, "repository"@),
        facet_clauses(fb, "repository"@),
        repository_keys(),
    );
    lemma_text_scan_agree(
        facet_clauses(fa, "repo_type"@),
        facet_clauses(fb, "repo_type"@),
        repo_type_keys(),
    );
    lemma_unknown_in_agree(
        facet_clauses(fa, "crud_repo"@),
        facet_clauses(fb, "crud_repo"@),
        vocabulary(Group::Crud),
    );
    lemma_unknown_in_agree(
        facet_clauses(fa, "paging_repo"@),
        facet_clauses(fb, "paging_repo"@),
        vocabulary(Group::Paging),
    );
    lemma_unknown_in_agree(
        facet_clauses(fa, "batch_repo"@),
        facet_clauses(fb, "batch_repo"@),
        vocabulary(Group::Batch),
    );
    lemma_flag_scan_agree(
        facet_clauses(fa, "crud_repo"@),
        facet_clauses(fb, "crud_repo"@),
        vocabulary(Group::Crud),
    );
    lemma_flag_scan_agree(
        facet_clauses(fa, "paging_repo"@),
        facet_clauses(fb, "paging_repo"@),
        vocabulary(Group::Paging),
    );
    lemma_flag_scan_agree(
        facet_clauses(fa, "batch_repo"@),
        facet_clauses(fb, "batch_repo"@),
        vocabulary(Group::Batch),
    );
}

/// Capability clauses that name known tokens with boolean values, no token
/// twice.
pub open spec fn well_formed_flags(cs: Seq<Clause>, vocab: Seq<Seq<char>>) -> bool {
    &&& forall|i: int|
        0 <= i < cs.len() ==> vocab.contains(clause_key(#[trigger] cs[i])) && clause_flag(
            cs[i],
        ) is Some
    &&& forall|i: int, j: int|
        0 <= i < j < cs.len() ==> clause_key(#[trigger] cs[i]) != clause_key(#[trigger] cs[j])
}

proof fn lemma_well_formed_flags_scan(cs: Seq<Clause>, vocab: Seq<Seq<char>>)
    requires
        well_formed_flags(cs, vocab),
    ensures
        flag_scan(cs, vocab) is Ok,
        flag_scan(cs, vocab)->Ok_0.len() == vocab.len(),
        forall|k: int|
            0 <= k < vocab.len() && (#[trigger] flag_scan(cs, vocab)->Ok_0[k]) is Some ==> exists|
                i: int,
            |
                0 <= i < cs.len() && clause_key(#[trigger] cs[i]) == vocab[k],
        unknown_in(cs, vocab).len() == 0,
    decreases cs.len(),
{
    if cs.len() > 0 {
        let rest = cs.drop_last();
        let n = cs.len() - 1;
        assert(cs.last() == cs[n]);
        assert forall|i: int| 0 <= i < rest.len() implies #[trigger] rest[i] == cs[i] by {}
        assert(well_formed_flags(rest, vocab)) by {
            assert forall|i: int, j: int| 0 <= i < j < rest.len() implies clause_key(
                #[trigger] rest[i],
            ) != clause_key(#[trigger] rest[j]) by {
                assert(rest[i] == cs[i] && rest[j] == cs[j]);
            }
            assert forall|i: int| 0 <= i < rest.len() implies vocab.contains(
                clause_key(#[trigger] rest[i]),
            ) && clause_flag(rest[i]) is Some by {
                assert(rest[i] == cs[i]);
            }
        }
        lemma_well_formed_flags_scan(rest, vocab);
        let st = flag_scan(rest, vocab)->Ok_0;
        let key = clause_key(cs[n]);
        assert(vocab.contains(clause_key(cs[n])));
        assert(!crate::options::already_set(st, vocab, key)) by {
            if crate::options::already_set(st, vocab, key) {
                let k = choose|k: int|
                    0 <= k < st.len() && k < vocab.len() && vocab[k] == key && st[k] is Some;
                assert(st[k] is Some);
                let i = choose|i: int| 0 <= i < rest.len() && clause_key(#[trigger] rest[i]) == vocab[k];
                assert(rest[i] == cs[i]);
                assert(clause_key(cs[i]) != clause_key(cs[n]));
            }
        }
        let next = flag_scan(cs, vocab)->Ok_0;
        assert forall|k: int| 0 <= k < vocab.len() && (#[trigger] next[k]) is Some implies exists|
            i: int,
        | 0 <= i < cs.len() && clause_key(#[trigger] cs[i]) == vocab[k] by {
            if vocab[k] == key {
                assert(clause_key(cs[n]) == vocab[k]);
            } else {
                assert(next[k] == st[k]);
                assert(st[k] is Some);
                let i = choose|i: int| 0 <= i < rest.len() && clause_key(#[trigger] rest[i]) == vocab[k];
                assert(rest[i] == cs[i]);
                assert(clause_key(cs[i]) == vocab[k]);
            }
        }
    }
}

/// Declarations whose option facets read cleanly and whose capability facets
/// are well formed parse; one written with bare words and one written with
/// `= true` that agree clause by clause both parse, to the same options.
pub proof fn lemma_clause_forms_both_parse(a: Declaration, b: Declaration, p: Profile)
    requires
        declarations_agree(a, b),
        text_scan(facet_clauses(a.facets@, "repository"@), repository_keys()) is Ok,
        text_scan(facet_clauses(a.facets@, "repo_type"@), repo_type_keys()) is Ok,
        well_formed_flags(facet_clauses(a.facets@, "crud_repo"@), vocabulary(Group::Crud)),
        well_formed_flags(facet_clauses(a.facets@, "paging_repo"@), vocabulary(Group::Paging)),
        well_formed_flags(facet_clauses(a.facets@, "batch_repo"@), vocabulary(Group::Batch)),
    ensures
        parse_options(a) is Ok,
        parse_options(b) is Ok,
        parse_options(a) == parse_options(b),
        compile(a, p) == compile(b, p),
{
    let fs = a.facets@;
    lemma_well_formed_flags_scan(facet_clauses(fs, "crud_repo"@), vocabulary(Group::Crud));
    lemma_well_formed_flags_scan(facet_clauses(fs, "paging_repo"@), vocabulary(Group::Paging));
    lemma_well_formed_flags_scan(facet_clauses(fs, "batch_repo"@), vocabulary(Group::Batch));
    assert(unknown_tokens(a).len() == 0);
    lemma_clause_forms_agree(a, b, p);
}

/// A key that no clause sets stays unset.
proof fn lemma_text_scan_unset(cs: Seq<Clause>, vocab: Seq<Seq<char>>, k: int)
    requires
        text_scan(cs, vocab) is Ok,
        0 <= k < vocab.len(),
        forall|i: int| 0 <= i < cs.len() ==> clause_key(#[trigger] cs[i]) != vocab[k],
    ensures
        text_scan(cs, vocab)->Ok_0.len() == vocab.len(),
        text_scan(cs, vocab)->Ok_0[k] is None,
    decreases cs.len(),
{
    if cs.len() > 0 {
        let rest = cs.drop_last();
        assert forall|i: int| 0 <= i < rest.len() implies clause_key(#[trigger] rest[i])
            != vocab[k] by {
            assert(rest[i] == cs[i]);
        }
        assert(cs.last() == cs[cs.len() - 1]);
        lemma_text_scan_unset(rest, vocab, k);
    }
}

/// A declaration that parses but gives no `pool` is refused with
/// "missing pool", whatever else it declares.
pub proof fn lemma_missing_pool(d: Declaration, p: Profile)
    requires
        parse_options(d) is Ok,
        forall|i: int|
            0 <= i < facet_clauses(d.facets@, "repository"@).len() ==> clause_key(
                #[trigger] facet_clauses(d.facets@, "repository"@)[i],
            ) != "pool"@,
    ensures
        compile(d, p) == Err::<crate::emit::DefinitionModel, _>(
            ErrorModel::Configuration(missing_pool_message()),
        ),
{
    lemma_text_scan_unset(facet_clauses(d.facets@, "repository"@), repository_keys(), 0);
}

/// A declaration that parses and gives a pool but no `table_ref` is refused
/// with "missing table reference", whatever else it declares.
pub proof fn lemma_missing_table(d: Declaration, p: Profile)
    requires
        parse_options(d) is Ok,
        parse_options(d)->Ok_0.pool is Some,
        forall|i: int|
            0 <= i < facet_clauses(d.facets@, "repository"@).len() ==> clause_key(
                #[trigger] facet_clauses(d.facets@, "repository"@)[i],
            ) != "table_ref"@,
    ensures
        compile(d, p) == Err::<crate::emit::DefinitionModel, _>(
            ErrorModel::Configuration(missing_table_message()),
        ),
{
    lemma_text_scan_unset(facet_clauses(d.facets@, "repository"@), repository_keys(), 1);
}

/// Listing only `find_all` needs no identifier type: with a pool and a table
/// reference the options resolve, whether or not `id_type` is given.
pub proof fn lemma_find_all_needs_no_id(o: OptionsModel, p: Profile)
    requires
        o.pool is Some,
        o.table_ref is Some,
        o.crud == (CrudRepoOpts {
            find_one: false,
            find_one_query: false,
            find_query: false,
            find_all: true,
            save: false,
            update: false,
            replace: false,
            delete: false,
            count: false,
        }),
        o.paging == (PagingRepoOpts { find_query: false, find_all: false }),
        o.batch == (BatchRepoOpts { find: false, save: false, update: false, delete: false }),
    ensures
        resolve_options(o, p) is Ok,
{
    assert(!id_required(o.crud, o.paging, o.batch)) by {
        assert forall|i: int| 0 <= i < all_capabilities().len() implies !(is_enabled(
            o.crud,
            o.paging,
            o.batch,
            #[trigger] all_capabilities()[i],
        ) && crate::capability::needs_id(all_capabilities()[i])) by {
            if is_enabled(o.crud, o.paging, o.batch, all_capabilities()[i]) {
                assert(all_capabilities()[i] == Capability::FindAll);
            }
        }
    }
}

/// Enabling `delete` without an identifier type is refused with
/// "missing id_type" once the pool and table reference are given.
pub proof fn lemma_delete_needs_id(o: OptionsModel, p: Profile)
    requires
        o.pool is Some,
        o.table_ref is Some,
        o.crud.delete,
        o.id_type is None,
    ensures
        resolve_options(o, p) == Err::<DescriptorModel, _>(
            ErrorModel::Configuration(missing_id_message()),
        ),
{
    assert(all_capabilities()[7] == Capability::Delete);
    assert(crate::capability::params_of(Capability::Delete)[0] == crate::capability::ParamKind::Id);
    assert(id_required(o.crud, o.paging, o.batch));
}

/// A key outside `vocab` is among the unknown keys of the list it occurs in.
proof fn lemma_unknown_in_contains(cs: Seq<Clause>, vocab: Seq<Seq<char>>, i: int)
    requires
        0 <= i < cs.len(),
        !vocab.contains(clause_key(cs[i])),
    ensures
        unknown_in(cs, vocab).contains(clause_key(cs[i])),
    decreases cs.len(),
{
    let rest = cs.drop_last();
    let u = unknown_in(rest, vocab);
    assert(cs.last() == cs[cs.len() - 1]);
    if i == cs.len() - 1 {
        assert(u.push(clause_key(cs[i]))[u.len() as int] == clause_key(cs[i]));
    } else {
        assert(rest[i] == cs[i]);
        lemma_unknown_in_contains(rest, vocab, i);
        let j = choose|j: int| 0 <= j < u.len() && u[j] == clause_key(cs[i]);
        if !vocab.contains(clause_key(cs.last())) {
            assert(u.push(clause_key(cs.last()))[j] == clause_key(cs[i]));
        }
    }
}

proof fn lemma_unknown_in_agree(a: Seq<Clause>, b: Seq<Clause>, vocab: Seq<Seq<char>>)
    requires
        clause_seqs_agree(a, b),
    ensures
        unknown_in(a, vocab) == unknown_in(b, vocab),
    decreases a.len(),
{
    if a.len() > 0 {
        assert(clauses_agree(a[a.len() - 1], b[b.len() - 1]));
        lemma_unknown_in_agree(a.drop_last(), b.drop_last(), vocab);
    }
}

/// A token outside its capability facet's vocabulary always refuses the
/// declaration, and the error names it, together with every other unknown
/// token, whatever else is wrong with the declaration.
pub proof fn lemma_unknown_token_named(d: Declaration, p: Profile, g: Group, i: int)
    requires
        0 <= i < facet_clauses(d.facets@, facet_name(g)).len(),
        !vocabulary(g).contains(clause_key(facet_clauses(d.facets@, facet_name(g))[i])),
    ensures
        unknown_tokens(d).contains(clause_key(facet_clauses(d.facets@, facet_name(g))[i])),
        parse_options(d) == Err::<OptionsModel, _>(ErrorModel::UnknownCapability(unknown_tokens(d))),
        compile(d, p) == Err::<crate::emit::DefinitionModel, _>(
            ErrorModel::UnknownCapability(unknown_tokens(d)),
        ),
{
    let fs = d.facets@;
    let key = clause_key(facet_clauses(fs, facet_name(g))[i]);
    lemma_unknown_in_contains(facet_clauses(fs, facet_name(g)), vocabulary(g), i);
    let a = unknown_in(facet_clauses(fs, "crud_repo"@), vocabulary(Group::Crud));
    let b = unknown_in(facet_clauses(fs, "paging_repo"@), vocabulary(Group::Paging));
    let c = unknown_in(facet_clauses(fs, "batch_repo"@), vocabulary(Group::Batch));
    assert(unknown_tokens(d) == a + b + c);
    match g {
        Group::Crud => {
            let j = choose|j: int| 0 <= j < a.len() && a[j] == key;
            assert((a + b + c)[j] == key);
        },
        Group::Paging => {
            let j = choose|j: int| 0 <= j < b.len() && b[j] == key;
            assert((a + b + c)[a.len() + j] == key);
        },
        Group::Batch => {
            let j = choose|j: int| 0 <= j < c.len() && c[j] == key;
            assert((a + b + c)[a.len() + b.len() + j] == key);
        },
    }
}

pub open spec fn count(b: bool) -> nat {
    if b {
        1
    } else {
        0
    }
}

/// The number of capabilities the flags enable, summed over the three groups.
pub open spec fn enabled_count(crud: CrudRepoOpts, paging: PagingRepoOpts, batch: BatchRepoOpts) -> nat {
    count(crud.find_one) + count(crud.find_one_query) + count(crud.find_query) + count(
        crud.find_all,
    ) + count(crud.save) + count(crud.update) + count(crud.replace) + count(crud.delete) + count(
        crud.count,
    ) + count(paging.find_query) + count(paging.find_all) + count(batch.find) + count(batch.save)
        + count(batch.update) + count(batch.delete)
}

proof fn lemma_enabled_in_push(
    s: Seq<Capability>,
    c: Capability,
    crud: CrudRepoOpts,
    paging: PagingRepoOpts,
    batch: BatchRepoOpts,
)
    ensures
        enabled_in(s.push(c), crud, paging, batch).len() == enabled_in(s, crud, paging, batch).len()
            + count(is_enabled(crud, paging, batch, c)),
{
    assert(s.push(c).drop_last() =~= s);
}

proof fn lemma_enabled_in_members(
    s: Seq<Capability>,
    crud: CrudRepoOpts,
    paging: PagingRepoOpts,
    batch: BatchRepoOpts,
)
    ensures
        forall|i: int|
            0 <= i < enabled_in(s, crud, paging, batch).len() ==> s.contains(
                #[trigger] enabled_in(s, crud, paging, batch)[i],
            ) && is_enabled(crud, paging, batch, enabled_in(s, crud, paging, batch)[i]),
        forall|c: Capability|
            s.contains(c) && is_enabled(crud, paging, batch, c) ==> #[trigger] enabled_in(
                s,
                crud,
                paging,
                batch,
            ).contains(c),
        s.no_duplicates() ==> enabled_in(s, crud, paging, batch).no_duplicates(),
    decreases s.len(),
{
    if s.len() > 0 {
        let rest = s.drop_last();
        lemma_enabled_in_members(rest, crud, paging, batch);
        let e = enabled_in(rest, crud, paging, batch);
        assert forall|i: int| 0 <= i < rest.len() implies s.contains(#[trigger] rest[i]) by {
            assert(s[i] == rest[i]);
        }
        assert forall|c: Capability|
            s.contains(c) && is_enabled(crud, paging, batch, c) implies #[trigger] enabled_in(
            s,
            crud,
            paging,
            batch,
        ).contains(c) by {
            let j = choose|j: int| 0 <= j < s.len() && s[j] == c;
            if j < s.len() - 1 {
                assert(rest[j] == c);
                assert(rest.contains(c));
                assert(e.contains(c));
                let k = choose|k: int| 0 <= k < e.len() && e[k] == c;
                if is_enabled(crud, paging, batch, s.last()) {
                    assert(e.push(s.last())[k] == c);
                }
            } else {
                assert(e.push(s.last())[e.len() as int] == c);
            }
        }
        if s.no_duplicates() && is_enabled(crud, paging, batch, s.last()) {
            assert forall|i: int| 0 <= i < e.len() implies #[trigger] e[i] != s.last() by {
                let j = choose|j: int| 0 <= j < rest.len() && rest[j] == e[i];
                assert(s[j] == rest[j]);
            }
        }
    }
}

proof fn lemma_all_capabilities()
    ensures
        all_capabilities().no_duplicates(),
        forall|c: Capability| #[trigger] all_capabilities().contains(c),
{
    let a = all_capabilities();
    assert(a[0] == Capability::FindOne);
    assert(a[1] == Capability::FindOneQuery);
    assert(a[2] == Capability::FindQuery);
    assert(a[3] == Capability::FindAll);
    assert(a[4] == Capability::Save);
    assert(a[5] == Capability::Update);
    assert(a[6] == Capability::Replace);
    assert(a[7] == Capability::Delete);
    assert(a[8] == Capability::Count);
    assert(a[9] == Capability::PagedFindQuery);
    assert(a[10] == Capability::PagedFindAll);
    assert(a[11] == Capability::BatchFind);
    assert(a[12] == Capability::BatchSave);
    assert(a[13] == Capability::BatchUpdate);
    assert(a[14] == Capability::BatchDelete);
    assert forall|c: Capability| #[trigger] a.contains(c) by {
        match c {
            Capability::FindOne => assert(a[0] == c),
            Capability::FindOneQuery => assert(a[1] == c),
            Capability::FindQuery => assert(a[2] == c),
            Capability::FindAll => assert(a[3] == c),
            Capability::Save => assert(a[4] == c),
            Capability::Update => assert(a[5] == c),
            Capability::Replace => assert(a[6] == c),
            Capability::Delete => assert(a[7] == c),
            Capability::Count => assert(a[8] == c),
            Capability::PagedFindQuery => assert(a[9] == c),
            Capability::PagedFindAll => assert(a[10] == c),
            Capability::BatchFind => assert(a[11] == c),
            Capability::BatchSave => assert(a[12] == c),
            Capability::BatchUpdate => assert(a[13] == c),
            Capability::BatchDelete => assert(a[14] == c),
        }
    }
}

proof fn lemma_enabled_count(crud: CrudRepoOpts, paging: PagingRepoOpts, batch: BatchRepoOpts)
    ensures
        enabled_in(all_capabilities(), crud, paging, batch).len() == enabled_count(
            crud,
            paging,
            batch,
        ),
{
    let s0 = Seq::<Capability>::empty();
    let s1 = s0.push(Capability::FindOne);
    let s2 = s1.push(Capability::FindOneQuery);
    let s3 = s2.push(Capability::FindQuery);
    let s4 = s3.push(Capability::FindAll);
    let s5 = s4.push(Capability::Save);
    let s6 = s5.push(Capability::Update);
    let s7 = s6.push(Capability::Replace);
    let s8 = s7.push(Capability::Delete);
    let s9 = s8.push(Capability::Count);
    let s10 = s9.push(Capability::PagedFindQuery);
    let s11 = s10.push(Capability::PagedFindAll);
    let s12 = s11.push(Capability::BatchFind);
    let s13 = s12.push(Capability::BatchSave);
    let s14 = s13.push(Capability::BatchUpdate);
    let s15 = s14.push(Capability::BatchDelete);
    lemma_enabled_in_push(s0, Capability::FindOne, crud, paging, batch);
    lemma_enabled_in_push(s1, Capability::FindOneQuery, crud, paging, batch);
    lemma_enabled_in_push(s2, Capability::FindQuery, crud, paging, batch);
    lemma_enabled_in_push(s3, Capability::FindAll, crud, paging, batch);
    lemma_enabled_in_push(s4, Capability::Save, crud, paging, batch);
    lemma_enabled_in_push(s5, Capability::Update, crud, paging, batch);
    lemma_enabled_in_push(s6, Capability::Replace, crud, paging, batch);
    lemma_enabled_in_push(s7, Capability::Delete, crud, paging, batch);
    lemma_enabled_in_push(s8, Capability::Count, crud, paging, batch);
    lemma_enabled_in_push(s9, Capability::PagedFindQuery, crud, paging, batch);
    lemma_enabled_in_push(s10, Capability::PagedFindAll, crud, paging, batch);
    lemma_enabled_in_push(s11, Capability::BatchFind, crud, paging, batch);
    lemma_enabled_in_push(s12, Capability::BatchSave, crud, paging, batch);
    lemma_enabled_in_push(s13, Capability::BatchUpdate, crud, paging, batch);
    lemma_enabled_in_push(s14, Capability::BatchDelete, crud, paging, batch);
    assert(s15 =~= all_capabilities());
}

/// Distinct capabilities have distinct method names.
pub proof fn lemma_method_names_distinct(a: Capability, b: Capability)
    requires
        a != b,
    ensures
        method_name(a) != method_name(b),
{
    reveal_strlit("find_by_id");
    reveal_strlit("find_one_by_query");
    reveal_strlit("find_by_query");
    reveal_strlit("find_all");
    reveal_strlit("save");
    reveal_strlit("update");
    reveal_strlit("replace");
    reveal_strlit("delete");
    reveal_strlit("count");
    reveal_strlit("find_by_query_paged");
    reveal_strlit("find_all_paged");
    reveal_strlit("find_by_id_batch");
    reveal_strlit("save_batch");
    reveal_strlit("update_batch");
    reveal_strlit("delete_batch");
    assert(method_name(a).len() != method_name(b).len() || method_name(a)[0] != method_name(b)[0]);
}

/// Enabling N distinct capabilities, summed over the three groups, yields
/// exactly N bindings: one for each enabled capability and none for another,
/// each named as the registry names it, no capability and no name twice.
pub proof fn lemma_one_binding_per_capability(d: DescriptorModel)
    ensures
        bindings_of(d).len() == enabled_count(d.crud, d.paging, d.batch),
        forall|c: Capability|
            is_enabled(d.crud, d.paging, d.batch, c) <==> exists|i: int|
                0 <= i < bindings_of(d).len() && (#[trigger] bindings_of(d)[i]).capability == c,
        forall|i: int|
            0 <= i < bindings_of(d).len() ==> (#[trigger] bindings_of(d)[i]).name == method_name(
                bindings_of(d)[i].capability,
            ),
        forall|i: int, j: int|
            0 <= i < bindings_of(d).len() && 0 <= j < bindings_of(d).len() && i != j ==> (
            #[trigger] bindings_of(d)[i]).capability != (#[trigger] bindings_of(d)[j]).capability
                && bindings_of(d)[i].name != bindings_of(d)[j].name,
{
    let e = enabled_capabilities(d);
    let bs = bindings_of(d);
    lemma_all_capabilities();
    lemma_enabled_in_members(all_capabilities(), d.crud, d.paging, d.batch);
    lemma_enabled_count(d.crud, d.paging, d.batch);
    assert forall|i: int| 0 <= i < bs.len() implies (#[trigger] bs[i]).capability == e[i]
        && bs[i].name == method_name(bs[i].capability) by {
        assert(bs[i] == binding_of(d, e[i]));
    }
    assert forall|c: Capability|
        is_enabled(d.crud, d.paging, d.batch, c) <==> exists|i: int|
            0 <= i < bs.len() && (#[trigger] bs[i]).capability == c by {
        if is_enabled(d.crud, d.paging, d.batch, c) {
            assert(e.contains(c));
            let i = choose|i: int| 0 <= i < e.len() && e[i] == c;
            assert(bs[i].capability == c);
        }
        if exists|i: int| 0 <= i < bs.len() && (#[trigger] bs[i]).capability == c {
            let i = choose|i: int| 0 <= i < bs.len() && (#[trigger] bs[i]).capability == c;
            assert(e[i] == c);
        }
    }
    assert forall|i: int, j: int|
        0 <= i < bs.len() && 0 <= j < bs.len() && i != j implies (#[trigger] bs[i]).capability
        != (#[trigger] bs[j]).capability && bs[i].name != bs[j].name by {
        assert(e[i] != e[j]);
        lemma_method_names_distinct(e[i], e[j]);
    }
}

} // verus!
