//! The record codec: one transaction update in, one flat record out.
//!
//! Decoding reads nothing but its arguments. The signer is the first account
//! key; the transaction hash is the base58 text of the signature; the fee is
//! taken as it stands.

use crate::base58::{
    account_key_text, encode_account_key, encode_signature, parse_signature, signature_bytes,
    signature_text, ACCOUNT_KEY_LEN, SIGNATURE_LEN,
};
use crate::error::DecodeError;
use vstd::prelude::*;

verus! {

/// What the feed reports of a transaction's execution.
#[derive(Clone, Copy, Debug, PartialEq, Eq, Structural)]
pub struct TransactionMeta {
    /// Fee paid, in lamports.
    pub fee: u64,
}

/// One transaction as the feed delivers it.
#[derive(Clone, Debug, PartialEq, Eq)]
pub struct TransactionPayload {
    /// Account keys in message order; the first one signed and pays the fee.
    pub account_keys: Option<Vec<String>>,
    /// Execution metadata.
    pub meta: Option<TransactionMeta>,
    /// Raw signature bytes.
    pub signature: Vec<u8>,
}

/// The mathematical content of a [`TransactionPayload`].
pub struct PayloadView {
    pub account_keys: Option<Seq<Seq<char>>>,
    pub fee: Option<u64>,
    pub signature: Seq<u8>,
}

impl View for TransactionPayload {
    type V = PayloadView;

    open spec fn view(&self) -> PayloadView {
        PayloadView {
            account_keys: match self.account_keys {
                Some(keys) => Some(keys.deep_view()),
                None => None,
            },
            fee: match self.meta {
                Some(meta) => Some(meta.fee),
                None => None,
            },
            signature: self.signature@,
        }
    }
}

/// The flat record that is stored for one transaction.
#[derive(Clone, Debug, PartialEq, Eq)]
pub struct CanonicalRecord {
    /// Base58 text of the signature; the key under which the record is stored.
    pub txn_hash: String,
    /// The first account key of the transaction.
    pub signer: String,
    /// Fee paid, in lamports.
    pub fee: u64,
    /// Arrival time of the update, in seconds since the Unix epoch.
    pub observed_at: u64,
}

/// The mathematical content of a [`CanonicalRecord`].
pub struct RecordView {
    pub txn_hash: Seq<char>,
    pub signer: Seq<char>,
    pub fee: u64,
    pub observed_at: u64,
}

impl View for CanonicalRecord {
    type V = RecordView;

    open spec fn view(&self) -> RecordView {
        RecordView {
            txn_hash: self.txn_hash@,
            signer: self.signer@,
            fee: self.fee,
            observed_at: self.observed_at,
        }
    }
}

/// The first reason, if any, for which a payload cannot be decoded.
///
/// A missing signer is reported before missing metadata, and that before a
/// signature of the wrong length.
pub open spec fn decode_failure(payload: PayloadView) -> Option<DecodeError> {
    if payload.account_keys is None || payload.account_keys->0.len() == 0 {
        Some(DecodeError::MissingAccountKeys)
    } else if payload.fee is None {
        Some(DecodeError::MissingMetadata)
    } else if payload.signature.len() != SIGNATURE_LEN {
        Some(DecodeError::InvalidSignature)
    } else {
        None
    }
}

/// The record that a decodable payload yields, given the text of its signature.
pub open spec fn record_of(payload: PayloadView, txn_hash: Seq<char>, observed_at: u64) -> RecordView
    recommends
        decode_failure(payload) is None,
{
    RecordView {
        txn_hash,
        signer: payload.account_keys->0[0],
        fee: payload.fee->0,
        observed_at,
    }
}

/// What decoding a payload gives.
pub open spec fn decoded(payload: PayloadView, observed_at: u64) -> Result<RecordView, DecodeError> {
    match decode_failure(payload) {
        Some(error) => Err(error),
        None => Ok(record_of(payload, signature_text(payload.signature), observed_at)),
    }
}

/// The texts of a list of raw account keys, where each key is 32 bytes long.
pub open spec fn account_key_texts(raw: Seq<Seq<u8>>) -> Option<Seq<Seq<char>>> {
    if forall|i: int| 0 <= i < raw.len() ==> (#[trigger] raw[i]).len() == ACCOUNT_KEY_LEN {
        Some(Seq::new(raw.len(), |i: int| account_key_text(raw[i])))
    } else {
        None
    }
}

/// Tells whether a payload can be decoded, and if not, why.
pub fn check_payload(payload: &TransactionPayload) -> (failure: Option<DecodeError>)
    ensures
        failure == decode_failure(payload@),
{
    let has_signer = match &payload.account_keys {
        Some(keys) => keys.len() > 0,
        None => false,
    };
    if !has_signer {
        Some(DecodeError::MissingAccountKeys)
    } else if payload.meta.is_none() {
        Some(DecodeError::MissingMetadata)
    } else if payload.signature.len() != SIGNATURE_LEN {
        Some(DecodeError::InvalidSignature)
    } else {
        None
    }
}

impl CanonicalRecord {
    /// A copy of this record.
    pub fn duplicate(&self) -> (copy: CanonicalRecord)
        ensures
            copy@ == self@,
    {
        CanonicalRecord {
            txn_hash: self.txn_hash.clone(),
            signer: self.signer.clone(),
            fee: self.fee,
            observed_at: self.observed_at,
        }
    }

    /// Builds the record of a decodable payload from the text of its signature.
    pub fn assemble(payload: &TransactionPayload, txn_hash: String, observed_at: u64) -> (record:
        CanonicalRecord)
        requires
            decode_failure(payload@) is None,
        ensures
            record@ == record_of(payload@, txn_hash@, observed_at),
    {
        let keys = payload.account_keys.as_ref().unwrap();
        let signer = keys[0].clone();
        let fee = payload.meta.unwrap().fee;
        CanonicalRecord { txn_hash, signer, fee, observed_at }
    }
}

/// Copies 64 signature bytes into an array.
fn signature_array(bytes: &Vec<u8>) -> (array: [u8; 64])
    requires
        bytes@.len() == SIGNATURE_LEN,
    ensures
        array@ == bytes@,
{
    let mut array = [0u8; 64];
    let mut i: usize = 0;
    while i < 64
        invariant
            i <= 64,
            bytes@.len() == 64,
            forall|j: int| 0 <= j < i ==> array@[j] == bytes@[j],
        decreases 64 - i,
    {
        array[i] = bytes[i];
        i += 1;
    }
    assert(array@ =~= bytes@);
    array
}

/// Copies 32 key bytes into an array.
fn account_key_array(bytes: &Vec<u8>) -> (array: [u8; 32])
    requires
        bytes@.len() == ACCOUNT_KEY_LEN,
    ensures
        array@ == bytes@,
{
    let mut array = [0u8; 32];
    let mut i: usize = 0;
    while i < 32
        invariant
            i <= 32,
            bytes@.len() == 32,
            forall|j: int| 0 <= j < i ==> array@[j] == bytes@[j],
        decreases 32 - i,
    {
        array[i] = bytes[i];
        i += 1;
    }
    assert(array@ =~= bytes@);
    array
}

/// Decodes one transaction update into its record.
///
/// Fails with `MissingAccountKeys` where there is no signer, with
/// `MissingMetadata` where there is no fee, and with `InvalidSignature` where
/// the signature is not 64 bytes long, in that order of precedence. On
/// success the signer is the first account key, and the transaction hash
/// reads back to the signature bytes.
pub fn decode(payload: &TransactionPayload, observed_at: u64) -> (result: Result<
    CanonicalRecord,
    DecodeError,
>)
    ensures
        match result {
            Ok(record) => decoded(payload@, observed_at) == Ok::<RecordView, DecodeError>(record@),
            Err(error) => decoded(payload@, observed_at) == Err::<RecordView, DecodeError>(error),
        },
        result is Ok <==> decode_failure(payload@) is None,
        (payload@.account_keys is None || payload@.account_keys->0.len() == 0) ==> result == Err::<
            CanonicalRecord,
            DecodeError,
        >(DecodeError::MissingAccountKeys),
        result matches Ok(record) ==> {
            &&& record@.signer == payload@.account_keys->0[0]
            &&& record@.fee == payload@.fee->0
            &&& record@.observed_at == observed_at
            &&& signature_bytes(record@.txn_hash) == Some(payload@.signature)
        },
{
    match check_payload(payload) {
        Some(error) => Err(error),
        None => {
            let array = signature_array(&payload.signature);
            let txn_hash = encode_signature(&array);
            Ok(CanonicalRecord::assemble(payload, txn_hash, observed_at))
        },
    }
}

/// Reads the signature bytes back from a transaction hash.
///
/// `None` where the text is not the base58 text of 64 bytes.
pub fn signature_of_hash(txn_hash: &str) -> (bytes: Option<Vec<u8>>)
    ensures
        match bytes {
            Some(b) => signature_bytes(txn_hash@) == Some(b@) && b@.len() == SIGNATURE_LEN,
            None => signature_bytes(txn_hash@) is None,
        },
{
    parse_signature(txn_hash)
}

/// Turns raw account keys into their base58 texts.
///
/// `None` where some key is not 32 bytes long: such a list names no account.
pub fn account_keys_from_bytes(raw: &Vec<Vec<u8>>) -> (texts: Option<Vec<String>>)
    ensures
        match texts {
            Some(t) => account_key_texts(raw.deep_view()) == Some(t.deep_view()),
            None => account_key_texts(raw.deep_view()) is None,
        },
{
    let mut texts: Vec<String> = Vec::new();
    let mut i: usize = 0;
    while i < raw.len()
        invariant
            i <= raw.len(),
            texts.len() == i,
            forall|j: int| 0 <= j < i ==> (#[trigger] raw.deep_view()[j]).len() == ACCOUNT_KEY_LEN,
            forall|j: int|
                0 <= j < i ==> (#[trigger] texts.deep_view()[j]) == account_key_text(
                    raw.deep_view()[j],
                ),
        decreases raw.len() - i,
    {
        let key = &raw[i];
        assert(raw.deep_view()[i as int] == key@);
        if key.len() != ACCOUNT_KEY_LEN {
            return None;
        }
        let array = account_key_array(key);
        let text = encode_account_key(&array);
        let ghost before = texts.deep_view();
        texts.push(text);
        assert forall|j: int| 0 <= j < i + 1 implies (#[trigger] texts.deep_view()[j])
            == account_key_text(raw.deep_view()[j]) by {
            if j < i {
                assert(texts.deep_view()[j] == before[j]);
            }
        }
        i += 1;
    }
    assert(texts.deep_view() =~= Seq::new(
        raw.deep_view().len(),
        |i: int| account_key_text(raw.deep_view()[i]),
    ));
    Some(texts)
}

impl TransactionPayload {
    /// Builds a payload from the fields of a wire message.
    ///
    /// A key list with a malformed key counts as absent.
    pub fn from_wire(signature: Vec<u8>, raw_keys: Option<Vec<Vec<u8>>>, fee: Option<u64>) -> (payload:
        TransactionPayload)
        ensures
            payload@.signature == signature@,
            payload@.fee == fee,
            payload@.account_keys == match raw_keys {
                Some(raw) => account_key_texts(raw.deep_view()),
                None => None,
            },
    {
        let account_keys = match &raw_keys {
            Some(raw) => account_keys_from_bytes(raw),
            None => None,
        };
        let meta = match fee {
            Some(fee) => Some(TransactionMeta { fee }),
            None => None,
        };
        TransactionPayload { account_keys, meta, signature }
    }

    /// The payload of a transaction update that carries no transaction.
    pub fn absent() -> (payload: TransactionPayload)
        ensures
            payload@ == (PayloadView { account_keys: None, fee: None, signature: Seq::empty() }),
    {
        TransactionPayload { account_keys: None, meta: None, signature: Vec::new() }
    }
}

} // verus!
