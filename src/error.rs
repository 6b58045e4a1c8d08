//! The two ways a declaration can be refused, and the diagnostic that carries
//! one of them with the entity it belongs to.
use vstd::prelude::*;

verus! {

/// Why a declaration was refused.
#[derive(Clone, Debug, PartialEq, Eq)]
pub enum RepoError {
    /// A mandatory option is missing or an option is malformed.
    ConfigurationError(String),
    /// Capability facets name tokens outside their vocabularies: every such
    /// token, in source order.
    UnknownCapabilityError(Vec<String>),
}

/// The mathematical content of a [`RepoError`].
pub enum ErrorModel {
    Configuration(Seq<char>),
    UnknownCapability(Seq<Seq<char>>),
}

/// The texts of a list of strings.
pub open spec fn texts(v: Seq<String>) -> Seq<Seq<char>> {
    v.map_values(|s: String| s@)
}

/// Tokens separated by `", "`.
pub open spec fn joined(ts: Seq<Seq<char>>) -> Seq<char>
    decreases ts.len(),
{
    if ts.len() == 0 {
        Seq::empty()
    } else if ts.len() == 1 {
        ts[0]
    } else {
        joined(ts.drop_last()) + ", "@ + ts.last()
    }
}

impl View for RepoError {
    type V = ErrorModel;

    open spec fn view(&self) -> ErrorModel {
        match self {
            RepoError::ConfigurationError(m) => ErrorModel::Configuration(m@),
            RepoError::UnknownCapabilityError(ts) => ErrorModel::UnknownCapability(texts(ts@)),
        }
    }
}

pub open spec fn missing_pool_message() -> Seq<char> {
    "missing pool"@
}

pub open spec fn missing_table_message() -> Seq<char> {
    "missing table reference"@
}

pub open spec fn missing_id_message() -> Seq<char> {
    "missing id_type"@
}

/// The message for an option whose value has the wrong form.
pub open spec fn invalid_value_message(key: Seq<char>) -> Seq<char> {
    "invalid value for "@ + key
}

/// The message for an option given twice.
pub open spec fn duplicate_message(key: Seq<char>) -> Seq<char> {
    "duplicate option "@ + key
}

/// The message for a key that an option facet does not know.
pub open spec fn unknown_option_message(key: Seq<char>) -> Seq<char> {
    "unknown option "@ + key
}

impl RepoError {
    pub fn missing_pool() -> (r: RepoError)
        ensures
            r@ == ErrorModel::Configuration(missing_pool_message()),
    {
        RepoError::ConfigurationError(String::from_str("missing pool"))
    }

    pub fn missing_table() -> (r: RepoError)
        ensures
            r@ == ErrorModel::Configuration(missing_table_message()),
    {
        RepoError::ConfigurationError(String::from_str("missing table reference"))
    }

    pub fn missing_id() -> (r: RepoError)
        ensures
            r@ == ErrorModel::Configuration(missing_id_message()),
    {
        RepoError::ConfigurationError(String::from_str("missing id_type"))
    }

    pub fn invalid_value(key: &String) -> (r: RepoError)
        ensures
            r@ == ErrorModel::Configuration(invalid_value_message(key@)),
    {
        RepoError::ConfigurationError(String::from_str("invalid value for ").concat(key.as_str()))
    }

    pub fn duplicate(key: &String) -> (r: RepoError)
        ensures
            r@ == ErrorModel::Configuration(duplicate_message(key@)),
    {
        RepoError::ConfigurationError(String::from_str("duplicate option ").concat(key.as_str()))
    }

    pub fn unknown_option(key: &String) -> (r: RepoError)
        ensures
            r@ == ErrorModel::Configuration(unknown_option_message(key@)),
    {
        RepoError::ConfigurationError(String::from_str("unknown option ").concat(key.as_str()))
    }

    pub fn unknown_capabilities(tokens: Vec<String>) -> (r: RepoError)
        ensures
            r@ == ErrorModel::UnknownCapability(texts(tokens@)),
    {
        RepoError::UnknownCapabilityError(tokens)
    }

    /// The text of the error, as a diagnostic shows it.
    pub fn message(&self) -> (r: String)
        ensures
            r@ == match self@ {
                ErrorModel::Configuration(m) => m,
                ErrorModel::UnknownCapability(ts) => "unknown capability "@ + joined(ts),
            },
    {
        match self {
            RepoError::ConfigurationError(m) => m.clone(),
            RepoError::UnknownCapabilityError(ts) => {
                let mut s = String::from_str("unknown capability ");
                let ghost head = s@;
                let mut i: usize = 0;
                while i < ts.len()
                    invariant
                        0 <= i <= ts@.len(),
                        head == "unknown capability "@,
                        s@ == head + joined(texts(ts@).take(i as int)),
                    decreases ts@.len() - i,
                {
                    let ghost t = texts(ts@);
                    assert(t.take(i + 1).drop_last() =~= t.take(i as int));
                    assert(t[i as int] == ts@[i as int]@);
                    if i > 0 {
                        s.append(", ");
                    } else {
                        assert(t.take(0) =~= Seq::<Seq<char>>::empty());
                    }
                    s.append(ts[i].as_str());
                    assert(s@ =~= head + joined(t.take(i + 1)));
                    i += 1;
                }
                assert(texts(ts@).take(i as int) =~= texts(ts@));
                s
            },
        }
    }
}

/// A fatal diagnostic: the entity whose declaration was refused, and why.
#[derive(Clone, Debug, PartialEq, Eq)]
pub struct Diagnostic {
    pub entity: String,
    pub error: RepoError,
}

} // verus!
