//! The trusted boundary to the `bitcoin` crate.
//!
//! The transaction and script types stay opaque; what the verified code
//! reads of them is named by the spec functions below, and each call into
//! the crate stands behind one wrapper whose contract says what its source
//! shows.

use crate::model::txout_encoded_len;
use crate::model::varint_len;
use bitcoin::consensus::Encodable;
use vstd::prelude::*;

verus! {

#[verifier::external_type_specification]
#[verifier::external_body]
pub struct ExScript(bitcoin::Script);

#[verifier::external_type_specification]
#[verifier::external_body]
pub struct ExTransaction(bitcoin::Transaction);

/// The bytes a script consists of.
pub uninterp spec fn script_bytes(s: bitcoin::Script) -> Seq<u8>;

/// The outputs a transaction holds, in order, each as its script bytes and
/// its value.
pub uninterp spec fn tx_outputs(t: bitcoin::Transaction) -> Seq<(Seq<u8>, u64)>;

/// The consensus weight of a transaction as it stands, in weight units.
pub uninterp spec fn tx_weight(t: bitcoin::Transaction) -> nat;

/// Relies on bitcoin::Script::is_op_return: true exactly when the script is
/// non-empty and its first byte is the OP_RETURN opcode, 0x6a.
#[verifier::external_body]
pub(crate) fn script_is_op_return(s: &bitcoin::Script) -> (r: bool)
    ensures
        r == crate::model::is_null_data(script_bytes(*s)),
{
    s.is_op_return()
}

/// Relies on bitcoin::Script::is_witness_program: true exactly when the
/// script is 4 to 42 bytes, opens with a version byte of 0 or 0x51..=0x60,
/// and its second byte pushes 2 to 40 bytes, exactly the rest of the script.
#[verifier::external_body]
pub(crate) fn script_is_witness_program(s: &bitcoin::Script) -> (r: bool)
    ensures
        r == crate::model::is_witness_program(script_bytes(*s)),
{
    s.is_witness_program()
}

/// Relies on bitcoin::VarInt::len: 1 for values below 0xFD, 3 up to 0xFFFF,
/// 5 up to 0xFFFF_FFFF, and 9 beyond.
#[verifier::external_body]
pub(crate) fn varint_serialized_len(n: u64) -> (r: usize)
    ensures
        r == varint_len(n as nat),
{
    bitcoin::VarInt(n).len()
}

/// Relies on bitcoin::consensus::Encodable for TxOut: the encoding is the
/// fixed 8-byte value, the var-int script length, and the script bytes, so
/// its length does not depend on the value field; writing to io::sink
/// cannot fail. Hands the script back unchanged.
#[verifier::external_body]
pub(crate) fn txout_serialized_len(script: bitcoin::Script) -> (r: (bitcoin::Script, usize))
    ensures
        r.0 == script,
        r.1 == txout_encoded_len(script_bytes(script).len()),
{
    let out = bitcoin::TxOut { script_pubkey: script, value: 0 };
    let n = out.consensus_encode(&mut std::io::sink()).unwrap();
    (out.script_pubkey, n)
}

/// Relies on bitcoin::Transaction::get_weight for the weight of the
/// transaction as it stands.
#[verifier::external_body]
pub(crate) fn transaction_weight(t: &bitcoin::Transaction) -> (r: usize)
    ensures
        r == tx_weight(*t),
{
    t.get_weight()
}

/// Relies on the public bitcoin::Transaction::output field: hands out each
/// output's value, in order.
#[verifier::external_body]
pub(crate) fn transaction_output_values(t: &bitcoin::Transaction) -> (r: Vec<u64>)
    ensures
        r@.len() == tx_outputs(*t).len(),
        forall|i: int| 0 <= i < r@.len() ==> r@[i] == tx_outputs(*t)[i].1,
{
    t.output.iter().map(|o| o.value).collect()
}

/// Relies on Vec::push on the public bitcoin::Transaction::output field:
/// appends one output built from the given script and value and touches
/// nothing else in the output list.
#[verifier::external_body]
pub(crate) fn transaction_push_output(
    t: &mut bitcoin::Transaction,
    script: bitcoin::Script,
    value: u64,
)
    ensures
        tx_outputs(*final(t)) == tx_outputs(*old(t)).push((script_bytes(script), value)),
{
    t.output.push(bitcoin::TxOut { script_pubkey: script, value });
}

} // verus!
