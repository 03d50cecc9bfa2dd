//! The rules for writing changes to the store, and how its failures are told
//! apart.
use vstd::prelude::*;
use crate::error::{Error, ErrorKind};

verus! {

/// Why a request to the store failed, as far as the service tells failures
/// apart.
#[derive(Debug, Clone, Copy, PartialEq, Eq, Structural)]
pub enum DbErrorKind {
    /// No record matched.
    NotFound,
    /// The query could not be built, as for a change that changes nothing.
    QueryBuilder,
    /// Any other failure.
    Other,
}

/// The answer of an update: `Ok(Some(value))` when it ran, `Ok(None)` when
/// the change was empty and no query was built, and the error otherwise.
pub fn may_update<T>(result: Result<T, DbErrorKind>) -> (res: Result<Option<T>, DbErrorKind>)
    ensures
        res == (match result {
            Ok(value) => Ok(Some(value)),
            Err(DbErrorKind::QueryBuilder) => Ok(None),
            Err(err) => Err(err),
        }),
{
    match result {
        Ok(value) => Ok(Some(value)),
        Err(err) => match err {
            DbErrorKind::QueryBuilder => Ok(None),
            err => Err(err),
        },
    }
}

/// Column values that can be told apart from the stored ones; `same_as` is
/// when two of them are the same value.
pub trait SameValue: Sized {
    /// Whether the two values are the same.
    spec fn same_as(&self, other: &Self) -> bool;

    /// Whether the two values are the same, as `==` tells.
    fn same(&self, other: &Self) -> (b: bool)
        ensures
            b == self.same_as(other),
    ;
}

/// Texts are the same when they hold the same characters.
impl SameValue for String {
    open spec fn same_as(&self, other: &Self) -> bool {
        self@ == other@
    }

    fn same(&self, other: &Self) -> (b: bool) {
        *self == *other
    }
}

/// Optional texts are the same when both are absent or both hold the same
/// characters.
impl SameValue for Option<String> {
    open spec fn same_as(&self, other: &Self) -> bool {
        match (*self, *other) {
            (Some(a), Some(b)) => a@ == b@,
            (None, None) => true,
            _ => false,
        }
    }

    fn same(&self, other: &Self) -> (b: bool) {
        match (self, other) {
            (Some(a), Some(b)) => *a == *b,
            (None, None) => true,
            _ => false,
        }
    }
}

/// Integers are the same when they are equal.
impl SameValue for i32 {
    open spec fn same_as(&self, other: &Self) -> bool {
        *self == *other
    }

    fn same(&self, other: &Self) -> (b: bool) {
        *self == *other
    }
}

/// `Some(new)` when a new value is given and differs from `old`, otherwise
/// `None`: a change holds only the columns that really change.
pub fn if_changed<T: SameValue>(new: Option<T>, old: &T) -> (res: Option<T>)
    ensures
        res == (match new {
            Some(n) => if n.same_as(old) { None } else { Some(n) },
            None => None,
        }),
{
    match new {
        Some(n) => if n.same(old) { None } else { Some(n) },
        None => None,
    }
}

/// The error kind a failed store request is reported as: a missing record is
/// `NotFound`, every other failure `Db`.
pub open spec fn db_error_kind(err: DbErrorKind) -> ErrorKind {
    match err {
        DbErrorKind::NotFound => ErrorKind::NotFound,
        _ => ErrorKind::Db,
    }
}

impl From<DbErrorKind> for Error {
    fn from(err: DbErrorKind) -> (e: Error) {
        match err {
            DbErrorKind::NotFound => Error { kind: ErrorKind::NotFound },
            _ => Error { kind: ErrorKind::Db },
        }
    }
}

impl vstd::std_specs::convert::FromSpecImpl<DbErrorKind> for Error {
    open spec fn obeys_from_spec() -> bool {
        true
    }

    open spec fn from_spec(err: DbErrorKind) -> Error {
        Error { kind: db_error_kind(err) }
    }
}

} // verus!
