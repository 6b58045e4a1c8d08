//! The raw declaration attached to an entity: an entity name and a list of
//! facets, each a named list of clauses. A clause is either a bare word
//! (`find_all`) or an assignment (`find_all = true`, `pool = db::DbPool`).
use vstd::prelude::*;

verus! {

/// The right-hand side of an assignment clause.
#[derive(Clone, Debug, PartialEq, Eq)]
pub enum Value {
    /// A boolean literal.
    Flag(bool),
    /// A path, written as source text (`db::DbPool`).
    Path(String),
    /// A string literal, without its quotes.
    Text(String),
}

/// One clause inside a facet.
#[derive(Clone, Debug, PartialEq, Eq)]
pub enum Clause {
    /// A bare word: `find_all`.
    Word(String),
    /// `key = value`.
    Assign(String, Value),
}

/// A named group of clauses: `crud_repo(find_all, save)`.
#[derive(Clone, Debug, PartialEq, Eq)]
pub struct Facet {
    pub name: String,
    pub clauses: Vec<Clause>,
}

/// An entity together with the facets declared on it, in source order.
#[derive(Clone, Debug, PartialEq, Eq)]
pub struct Declaration {
    pub ident: String,
    pub facets: Vec<Facet>,
}

/// The key a clause sets.
pub open spec fn clause_key(c: Clause) -> Seq<char> {
    match c {
        Clause::Word(k) => k@,
        Clause::Assign(k, _) => k@,
    }
}

/// The boolean a clause gives its key: a bare word means `true`.
pub open spec fn clause_flag(c: Clause) -> Option<bool> {
    match c {
        Clause::Word(_) => Some(true),
        Clause::Assign(_, Value::Flag(b)) => Some(b),
        _ => None,
    }
}

/// The type text a clause gives its key: a path or a string literal.
pub open spec fn clause_text(c: Clause) -> Option<Seq<char>> {
    match c {
        Clause::Assign(_, Value::Path(p)) => Some(p@),
        Clause::Assign(_, Value::Text(t)) => Some(t@),
        _ => None,
    }
}

/// Two clauses mean the same: same key, and the same value once read either
/// as a flag or as a type.
pub open spec fn clauses_agree(a: Clause, b: Clause) -> bool {
    &&& clause_key(a) == clause_key(b)
    &&& clause_flag(a) == clause_flag(b)
    &&& clause_text(a) == clause_text(b)
}

/// The clauses of every facet called `name`, in source order.
pub open spec fn facet_clauses(fs: Seq<Facet>, name: Seq<char>) -> Seq<Clause>
    decreases fs.len(),
{
    if fs.len() == 0 {
        Seq::empty()
    } else if fs.last().name@ == name {
        facet_clauses(fs.drop_last(), name) + fs.last().clauses@
    } else {
        facet_clauses(fs.drop_last(), name)
    }
}

/// The clauses behind a list of references to them.
pub open spec fn derefs(s: Seq<&Clause>) -> Seq<Clause> {
    s.map_values(|c: &Clause| *c)
}

impl Clause {
    pub fn key(&self) -> (r: &String)
        ensures
            r@ == clause_key(*self),
    {
        match self {
            Clause::Word(k) => k,
            Clause::Assign(k, _) => k,
        }
    }

    pub fn flag(&self) -> (r: Option<bool>)
        ensures
            r == clause_flag(*self),
    {
        match self {
            Clause::Word(_) => Some(true),
            Clause::Assign(_, Value::Flag(b)) => Some(*b),
            _ => None,
        }
    }

    pub fn text(&self) -> (r: Option<&String>)
        ensures
            match r {
                Some(t) => clause_text(*self) == Some(t@),
                None => clause_text(*self) is None,
            },
    {
        match self {
            Clause::Assign(_, Value::Path(p)) => Some(p),
            Clause::Assign(_, Value::Text(t)) => Some(t),
            _ => None,
        }
    }
}

impl Clause {
    /// The bare word `key`.
    pub fn word(key: &str) -> (r: Clause)
        ensures
            r matches Clause::Word(k) && k@ == key@,
    {
        Clause::Word(String::from_str(key))
    }

    /// `key = true` or `key = false`.
    pub fn boolean(key: &str, value: bool) -> (r: Clause)
        ensures
            r matches Clause::Assign(k, Value::Flag(b)) && k@ == key@ && b == value,
    {
        Clause::Assign(String::from_str(key), Value::Flag(value))
    }

    /// `key = path`, with the path as source text.
    pub fn path(key: &str, path: &str) -> (r: Clause)
        ensures
            r matches Clause::Assign(k, Value::Path(t)) && k@ == key@ && t@ == path@,
    {
        Clause::Assign(String::from_str(key), Value::Path(String::from_str(path)))
    }
}

impl Facet {
    pub fn new(name: &str, clauses: Vec<Clause>) -> (r: Facet)
        ensures
            r.name@ == name@,
            r.clauses@ == clauses@,
    {
        Facet { name: String::from_str(name), clauses }
    }
}

impl Declaration {
    pub fn new(ident: &str, facets: Vec<Facet>) -> (r: Declaration)
        ensures
            r.ident@ == ident@,
            r.facets@ == facets@,
    {
        Declaration { ident: String::from_str(ident), facets }
    }
}

/// The clauses of every facet called `name`, in source order.
pub fn gather<'a>(facets: &'a Vec<Facet>, name: &str) -> (r: Vec<&'a Clause>)
    ensures
        derefs(r@) == facet_clauses(facets@, name@),
{
    let name = String::from_str(name);
    let mut r: Vec<&'a Clause> = Vec::new();
    let mut i: usize = 0;
    while i < facets.len()
        invariant
            0 <= i <= facets@.len(),
            derefs(r@) == facet_clauses(facets@.take(i as int), name@),
        decreases facets@.len() - i,
    {
        let f = &facets[i];
        assert(facets@.take(i + 1).drop_last() =~= facets@.take(i as int));
        if f.name == name {
            let ghost before = derefs(r@);
            let mut j: usize = 0;
            while j < f.clauses.len()
                invariant
                    0 <= j <= f.clauses@.len(),
                    derefs(r@) == before + f.clauses@.take(j as int),
                decreases f.clauses@.len() - j,
            {
                let ghost prev = r@;
                r.push(&f.clauses[j]);
                assert(derefs(r@) =~= derefs(prev).push(f.clauses@[j as int]));
                assert(before + f.clauses@.take(j + 1) =~= (before + f.clauses@.take(
                    j as int,
                )).push(f.clauses@[j as int]));
                j += 1;
            }
            assert(f.clauses@.take(j as int) =~= f.clauses@);
        }
        i += 1;
    }
    assert(facets@.take(i as int) =~= facets@);
    r
}

} // verus!
