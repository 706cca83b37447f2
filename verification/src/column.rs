//! The column types that an interval binds to.
//!
//! PostgreSQL knows its built-in types by fixed object identifiers.  An
//! interval travels as `INTERVAL`, and a list of intervals as `INTERVAL[]`.

use crate::interval::Interval;
use sqlx::postgres::types::PgInterval;
use sqlx::postgres::{PgHasArrayType, PgTypeInfo};
use sqlx::Type;
use vstd::prelude::*;

verus! {

/// The object identifier of `INTERVAL`.
pub const INTERVAL_OID: u32 = 1186;

/// The object identifier of `INTERVAL[]`.
pub const INTERVAL_ARRAY_OID: u32 = 1187;

/// The description `sqlx` keeps of a PostgreSQL type.
#[verifier::external_type_specification]
#[verifier::external_body]
pub struct ExPgTypeInfo(PgTypeInfo);

/// The object identifier that a type description reports through
/// `PgTypeInfo::oid`, if it has one.
pub uninterp spec fn type_oid(info: PgTypeInfo) -> Option<u32>;

/// `<PgInterval as Type<Postgres>>::type_info`.
/// Trusted: it describes the built-in type `INTERVAL`, whose object identifier
/// is 1186.
#[verifier::external_body]
fn pg_interval_type() -> (info: PgTypeInfo)
    ensures
        type_oid(info) == Some(INTERVAL_OID),
{
    PgInterval::type_info()
}

/// `<PgInterval as PgHasArrayType>::array_type_info`.
/// Trusted: it describes the built-in type `INTERVAL[]`, whose object
/// identifier is 1187.
#[verifier::external_body]
fn pg_interval_array_type() -> (info: PgTypeInfo)
    ensures
        type_oid(info) == Some(INTERVAL_ARRAY_OID),
{
    PgInterval::array_type_info()
}

/// `PgTypeInfo::oid`, with the number taken out of its `Oid`.
/// Trusted: the answer depends on the description alone; it is what
/// [`type_oid`] names.
#[verifier::external_body]
fn pg_type_oid(info: &PgTypeInfo) -> (oid: Option<u32>)
    ensures
        oid == type_oid(*info),
{
    info.oid().map(|oid| oid.0)
}

/// The object identifier of a column type, if the type has one: built-in
/// types do, and types known by name alone do not.
pub fn oid(info: &PgTypeInfo) -> (oid: Option<u32>)
    ensures
        oid == type_oid(*info),
{
    pg_type_oid(info)
}

impl Interval {
    /// The column type of one interval: `INTERVAL`.
    pub fn type_info() -> (info: PgTypeInfo)
        ensures
            type_oid(info) == Some(INTERVAL_OID),
    {
        pg_interval_type()
    }

    /// The column type of a list of intervals: `INTERVAL[]`.
    pub fn array_type_info() -> (info: PgTypeInfo)
        ensures
            type_oid(info) == Some(INTERVAL_ARRAY_OID),
    {
        pg_interval_array_type()
    }
}

} // verus!
