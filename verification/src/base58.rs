//! Base58 text of signatures and account keys.
//!
//! The encoding itself is the work of `solana_signature` and `solana_pubkey`.
//! Nothing here is proved of it: the three functions at the end of this file
//! state what those crates do, and the rest of the library builds on that.

use solana_pubkey::Pubkey;
use solana_signature::Signature;
use std::str::FromStr;
use vstd::prelude::*;

verus! {

/// Number of bytes in a transaction signature.
pub const SIGNATURE_LEN: usize = 64;

/// Number of bytes in an account key.
pub const ACCOUNT_KEY_LEN: usize = 32;

/// The text that `solana_signature::Signature` displays for 64 signature bytes.
pub uninterp spec fn signature_text(bytes: Seq<u8>) -> Seq<char>;

/// The bytes that `solana_signature::Signature::from_str` reads from a text,
/// or `None` where it rejects the text.
pub uninterp spec fn signature_bytes(text: Seq<char>) -> Option<Seq<u8>>;

/// The text that `solana_pubkey::Pubkey` displays for 32 key bytes.
pub uninterp spec fn account_key_text(bytes: Seq<u8>) -> Seq<char>;

/// Calls `Signature::to_string` on the signature made of `bytes`.
///
/// Believed, not proved: the text is a function of the bytes alone, and
/// `Signature::from_str` reads the same bytes back from it.
#[verifier::external_body]
pub(crate) fn encode_signature(bytes: &[u8; 64]) -> (text: String)
    ensures
        text@ == signature_text(bytes@),
        signature_bytes(text@) == Some(bytes@),
{
    Signature::from(*bytes).to_string()
}

/// Calls `Signature::from_str`.
///
/// Believed, not proved: whether the text is accepted, and the bytes that
/// come out, are a function of the text alone; what comes out is 64 bytes.
#[verifier::external_body]
pub(crate) fn parse_signature(text: &str) -> (bytes: Option<Vec<u8>>)
    ensures
        match bytes {
            Some(b) => signature_bytes(text@) == Some(b@) && b@.len() == SIGNATURE_LEN,
            None => signature_bytes(text@) is None,
        },
{
    match Signature::from_str(text) {
        Ok(signature) => Some(<[u8; 64]>::from(signature).to_vec()),
        Err(_) => None,
    }
}

/// Calls `Pubkey::to_string` on the key made of `bytes`.
///
/// Believed, not proved: the text is a function of the bytes alone.
#[verifier::external_body]
pub(crate) fn encode_account_key(bytes: &[u8; 32]) -> (text: String)
    ensures
        text@ == account_key_text(bytes@),
{
    Pubkey::from(*bytes).to_string()
}

} // verus!
