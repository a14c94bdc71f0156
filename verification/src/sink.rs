//! The persistence sink: what is handed to the store for one record.
//!
//! The write itself is the driver's work. This module fixes the statement
//! and the values bound to it. The statement ignores a row whose key is
//! already there, so a record delivered twice is stored once.

use crate::codec::{CanonicalRecord, RecordView};
use crate::error::PersistError;
use vstd::prelude::*;

verus! {

/// The values bound to the insert statement, in the order of its parameters.
#[derive(Clone, Debug, PartialEq, Eq)]
pub struct InsertParams {
    /// First parameter: the primary key.
    pub txn_hash: String,
    /// Second parameter: arrival time in seconds since the Unix epoch.
    pub unix_epoch: i64,
    /// Third parameter.
    pub signer: String,
    /// Fourth parameter: fee in lamports.
    pub fee: i64,
}

/// The mathematical content of [`InsertParams`].
pub struct ParamsView {
    pub txn_hash: Seq<char>,
    pub unix_epoch: i64,
    pub signer: Seq<char>,
    pub fee: i64,
}

impl View for InsertParams {
    type V = ParamsView;

    open spec fn view(&self) -> ParamsView {
        ParamsView {
            txn_hash: self.txn_hash@,
            unix_epoch: self.unix_epoch,
            signer: self.signer@,
            fee: self.fee,
        }
    }
}

/// The text of the insert statement.
pub open spec fn insert_sql() -> Seq<char> {
    "INSERT INTO txns (txn_hash, unix_epoch, signer, fee) VALUES ($1, $2, $3, $4) ON CONFLICT (txn_hash) DO NOTHING"@
}

/// The one statement that stores a record. Its values are bound, never
/// written into the text.
pub fn insert_statement() -> (sql: &'static str)
    ensures
        sql@ == insert_sql(),
{
    "INSERT INTO txns (txn_hash, unix_epoch, signer, fee) VALUES ($1, $2, $3, $4) ON CONFLICT (txn_hash) DO NOTHING"
}

/// The values to bind for a record, where its numbers fit the columns.
pub open spec fn params_of(record: RecordView) -> Result<ParamsView, PersistError> {
    if record.fee <= i64::MAX && record.observed_at <= i64::MAX {
        Ok(
            ParamsView {
                txn_hash: record.txn_hash,
                unix_epoch: record.observed_at as i64,
                signer: record.signer,
                fee: record.fee as i64,
            },
        )
    } else {
        Err(PersistError::ValueOutOfRange)
    }
}

/// Prepares the values to bind for a record.
///
/// Fails with `ValueOutOfRange` exactly where the fee or the arrival time
/// exceeds the largest signed 64-bit number.
pub fn insert_params(record: &CanonicalRecord) -> (result: Result<InsertParams, PersistError>)
    ensures
        match result {
            Ok(params) => params_of(record@) == Ok::<ParamsView, PersistError>(params@),
            Err(error) => params_of(record@) == Err::<ParamsView, PersistError>(error),
        },
        result is Ok <==> record@.fee <= i64::MAX && record@.observed_at <= i64::MAX,
{
    if record.fee <= i64::MAX as u64 && record.observed_at <= i64::MAX as u64 {
        Ok(
            InsertParams {
                txn_hash: record.txn_hash.clone(),
                unix_epoch: record.observed_at as i64,
                signer: record.signer.clone(),
                fee: record.fee as i64,
            },
        )
    } else {
        Err(PersistError::ValueOutOfRange)
    }
}

impl InsertParams {
    /// A copy of these values.
    pub fn duplicate(&self) -> (copy: InsertParams)
        ensures
            copy@ == self@,
    {
        InsertParams {
            txn_hash: self.txn_hash.clone(),
            unix_epoch: self.unix_epoch,
            signer: self.signer.clone(),
            fee: self.fee,
        }
    }
}

} // verus!
