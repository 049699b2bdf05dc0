//! The codec bridge: serializes a snapshot tree to bytes or text through an
//! external encoder, and deserializes bytes or text back into a snapshot tree.
//!
//! A tree is handed to the encoders as the flat list of the (description,
//! display) records of its chain, root first; rebuilding the tree from the
//! decoded records is verified logic in the snapshot module. The round-trip
//! law — decoding what `serialize_error_bytes` or `serialize_error_string`
//! produced yields a snapshot with the very chain that was encoded — is the
//! conjunction of the `ensures` of the four public functions here.

use vstd::prelude::*;

use crate::snapshot::LiveError;
use crate::snapshot::PseudoError;
use crate::snapshot::capture;
use crate::snapshot::chain_to_records;
use crate::snapshot::error_model;
use crate::snapshot::records_to_chain;

verus! {

/// The bytes that the binary encoder produces for a list of (description,
/// display) records; a function of the record values alone.
pub uninterp spec fn bin_enc(records: Seq<(Seq<char>, Seq<char>)>) -> Seq<u8>;

/// The text that the text encoder produces for a list of (description,
/// display) records; a function of the record values alone.
pub uninterp spec fn json_enc(records: Seq<(Seq<char>, Seq<char>)>) -> Seq<char>;

/// Why a byte or text payload could not be decoded into a snapshot tree.
#[derive(Debug)]
pub enum DecodeError {
    /// The external decoder rejected the payload as truncated or malformed;
    /// holds the decoder's own message.
    Malformed(String),
    /// The payload decoded to an empty record list, which no snapshot tree
    /// produces: a snapshot tree always has at least one node.
    EmptyChain,
}

/// Relies on bincode::serialize, with its default configuration: the bytes
/// are a function of the record values alone. Writing strings and sequences
/// to a growable buffer with no size limit cannot fail, so the result is
/// taken directly.
#[verifier::external_body]
fn bin_encode_records(records: &Vec<(String, String)>) -> (r: Vec<u8>)
    ensures
        r@ == bin_enc(records.deep_view()),
{
    bincode::serialize(records).unwrap()
}

/// Relies on bincode::deserialize, with its default configuration: it inverts
/// bincode::serialize on any byte string that serialize produced, and returns
/// an error, never panicking, on bytes it cannot decode.
#[verifier::external_body]
fn bin_decode_records(bytes: &[u8]) -> (r: Result<Vec<(String, String)>, String>)
    ensures
        forall|records: Seq<(Seq<char>, Seq<char>)>|
            bytes@ == bin_enc(records) ==> r is Ok && r->Ok_0.deep_view() == records,
{
    match bincode::deserialize(bytes) {
        Ok(v) => Ok(v),
        Err(e) => Err(format!("{}", e)),
    }
}

/// Relies on serde_json::to_string: the text is a function of the record
/// values alone. Strings and sequences always serialize to JSON, so the
/// result is taken directly.
#[verifier::external_body]
fn json_encode_records(records: &Vec<(String, String)>) -> (r: String)
    ensures
        r@ == json_enc(records.deep_view()),
{
    serde_json::to_string(records).unwrap()
}

/// Relies on serde_json::from_str: it inverts serde_json::to_string on any
/// text that to_string produced, and returns an error, never panicking, on
/// text it cannot decode.
#[verifier::external_body]
fn json_decode_records(text: &str) -> (r: Result<Vec<(String, String)>, String>)
    ensures
        forall|records: Seq<(Seq<char>, Seq<char>)>|
            text@ == json_enc(records) ==> r is Ok && r->Ok_0.deep_view() == records,
{
    match serde_json::from_str(text) {
        Ok(v) => Ok(v),
        Err(e) => Err(format!("{}", e)),
    }
}

/// Captures a live error and encodes the snapshot to bytes that
/// `deserialize_error_bytes` decodes back to an equal chain.
pub fn serialize_error_bytes<E: LiveError>(to_ser: &E) -> (r: Vec<u8>)
    ensures
        r@ == bin_enc(error_model(to_ser)),
{
    let snap = capture(to_ser);
    let records = chain_to_records(&snap);
    bin_encode_records(&records)
}

/// Captures a live error and encodes the snapshot to text that
/// `deserialize_error_string` decodes back to an equal chain.
pub fn serialize_error_string<E: LiveError>(to_ser: &E) -> (r: String)
    ensures
        r@ == json_enc(error_model(to_ser)),
{
    let snap = capture(to_ser);
    let records = chain_to_records(&snap);
    json_encode_records(&records)
}

/// Decodes bytes into a snapshot tree. Bytes that `serialize_error_bytes`
/// produced decode to a snapshot whose chain equals, field for field and
/// level for level, the model of the error that was encoded; other bytes
/// either decode to the record list they encode or fail with a
/// `DecodeError`, never panicking.
pub fn deserialize_error_bytes(to_de: &[u8]) -> (r: Result<PseudoError, DecodeError>)
    ensures
        forall|records: Seq<(Seq<char>, Seq<char>)>|
            to_de@ == bin_enc(records) && records.len() >= 1 ==> r is Ok && r->Ok_0.chain()
                == records,
        forall|records: Seq<(Seq<char>, Seq<char>)>|
            to_de@ == bin_enc(records) && records.len() == 0 ==> r is Err,
{
    match bin_decode_records(to_de) {
        Err(msg) => Err(DecodeError::Malformed(msg)),
        Ok(records) => match records_to_chain(&records) {
            Some(p) => Ok(p),
            None => Err(DecodeError::EmptyChain),
        },
    }
}

/// Decodes text into a snapshot tree. Text that `serialize_error_string`
/// produced decodes to a snapshot whose chain equals, field for field and
/// level for level, the model of the error that was encoded; other text
/// either decodes to the record list it encodes or fails with a
/// `DecodeError`, never panicking.
pub fn deserialize_error_string(to_de: &str) -> (r: Result<PseudoError, DecodeError>)
    ensures
        forall|records: Seq<(Seq<char>, Seq<char>)>|
            to_de@ == json_enc(records) && records.len() >= 1 ==> r is Ok && r->Ok_0.chain()
                == records,
        forall|records: Seq<(Seq<char>, Seq<char>)>|
            to_de@ == json_enc(records) && records.len() == 0 ==> r is Err,
{
    match json_decode_records(to_de) {
        Err(msg) => Err(DecodeError::Malformed(msg)),
        Ok(records) => match records_to_chain(&records) {
            Some(p) => Ok(p),
            None => Err(DecodeError::EmptyChain),
        },
    }
}

} // verus!
