//! Mathematical model of the change-output decision.
//!
//! Everything the executable code promises is stated over these spec
//! functions: script classification, dust thresholds, serialized sizes,
//! weight accounting, and the three-way outcome of a call.

use vstd::arithmetic::div_mod::lemma_div_is_ordered;
use vstd::arithmetic::mul::lemma_mul_inequality;
use vstd::arithmetic::mul::lemma_mul_is_commutative;
use vstd::prelude::*;

verus! {

/// The protocol-wide supply cap, in thousandths of the transaction value
/// unit.
pub const MAX_VALUE_MSAT: u64 = 21_000_000_0000_0000_000;

/// A null-data script: its first byte is the opcode (0x6a) that makes the
/// output provably unspendable.
pub open spec fn is_null_data(s: Seq<u8>) -> bool {
    s.len() > 0 && s[0] == 0x6a
}

/// A witness-program script: a version byte (0, or the opcodes 0x51..=0x60
/// standing for 1..=16) followed by a single push of the 2-to-40-byte
/// program, the push length agreeing with the script length.
pub open spec fn is_witness_program(s: Seq<u8>) -> bool {
    &&& 4 <= s.len() <= 42
    &&& (s[0] == 0 || (0x51 <= s[0] && s[0] <= 0x60))
    &&& 2 <= s[1] <= 40
    &&& s.len() - 2 == s[1]
}

/// Minimum value an output carrying the given script may hold while still
/// being economically spendable: null-data outputs carry no floor,
/// witness programs are cheaper to spend than legacy scripts.
pub open spec fn dust_threshold(s: Seq<u8>) -> u64 {
    if is_null_data(s) {
        0
    } else if is_witness_program(s) {
        294
    } else {
        546
    }
}

/// Serialized length in bytes of the variable-length integer encoding the
/// consensus format uses for counts and script lengths.
pub open spec fn varint_len(n: nat) -> nat {
    if n < 0xFD {
        1
    } else if n <= 0xFFFF {
        3
    } else if n <= 0xFFFF_FFFF {
        5
    } else {
        9
    }
}

/// Serialized length in bytes of an output holding a script of the given
/// length: the fixed-width 8-byte value, the var-int script length, and the
/// script itself. It does not depend on the value the output holds.
pub open spec fn txout_encoded_len(script_len: nat) -> nat {
    8 + varint_len(script_len) + script_len
}

/// Sum of the values of a sequence of (script bytes, value) outputs.
pub open spec fn sum_values(outs: Seq<(Seq<u8>, u64)>) -> int
    decreases outs.len(),
{
    if outs.len() == 0 {
        0
    } else {
        sum_values(outs.drop_last()) + outs.last().1
    }
}

/// Fee owed for the given weight at the given feerate, rounded down in the
/// payer's favor.
pub open spec fn fee_for_weight(weight: int, feerate: u32) -> int {
    weight * feerate / 1000
}

/// Weight of the transaction once a change output is appended: the present
/// weight, two units for the segwit marker and flag bytes, the witness data
/// still to be attached, four units per byte of the new output, and four
/// units per byte by which the output-count prefix grows.
pub open spec fn weight_with_change(
    base_weight: nat,
    witness_max_weight: nat,
    n_outputs: nat,
    script_len: nat,
) -> int {
    base_weight + 2 + witness_max_weight + txout_encoded_len(script_len) * 4 + (varint_len(
        n_outputs + 1,
    ) - varint_len(n_outputs)) * 4
}

/// Weight of the transaction if no change output is appended: the present
/// weight, the two marker and flag units, and the witness data still to
/// come.
pub open spec fn weight_without_change(base_weight: nat, witness_max_weight: nat) -> int {
    base_weight + 2 + witness_max_weight as int
}

/// Value left for a change output after the existing outputs and the fee
/// for the enlarged transaction are paid; negative when the feerate eats
/// more than the surplus.
pub open spec fn change_value(
    outs: Seq<(Seq<u8>, u64)>,
    base_weight: nat,
    input_value: u64,
    witness_max_weight: nat,
    feerate: u32,
    script: Seq<u8>,
) -> int {
    input_value - sum_values(outs) - fee_for_weight(
        weight_with_change(base_weight, witness_max_weight, outs.len(), script.len()),
        feerate,
    )
}

/// No prefix of a sequence of outputs sums to more than the whole: the
/// values are non-negative.
pub proof fn lemma_sum_prefix_le(outs: Seq<(Seq<u8>, u64)>, j: int)
    requires
        0 <= j <= outs.len(),
    ensures
        sum_values(outs.take(j)) <= sum_values(outs),
    decreases outs.len(),
{
    if j == outs.len() {
        assert(outs.take(j) =~= outs);
    } else {
        lemma_sum_prefix_le(outs.drop_last(), j);
        assert(outs.drop_last().take(j) =~= outs.take(j));
    }
}

/// What a call decides: append a change output of the given value, keep the
/// transaction as it is and let the surplus become fee, or report that the
/// requested feerate cannot be met.
pub enum ChangeOutcome {
    Change { value: int },
    NoChange,
    Infeasible,
}

/// The complete decision, as a function of the transaction's outputs and
/// weight and of the caller's parameters. A call is infeasible when the
/// input value is over the supply cap, when the existing outputs already
/// consume the whole input value, or when even the change-free transaction
/// cannot pay the requested feerate.
pub open spec fn change_outcome(
    outs: Seq<(Seq<u8>, u64)>,
    base_weight: nat,
    input_value: u64,
    witness_max_weight: nat,
    feerate: u32,
    script: Seq<u8>,
) -> ChangeOutcome {
    if input_value > MAX_VALUE_MSAT / 1000 {
        ChangeOutcome::Infeasible
    } else if sum_values(outs) >= input_value {
        ChangeOutcome::Infeasible
    } else {
        let cv = change_value(outs, base_weight, input_value, witness_max_weight, feerate, script);
        if cv >= dust_threshold(script) {
            ChangeOutcome::Change { value: cv }
        } else if input_value - sum_values(outs) - fee_for_weight(
            weight_without_change(base_weight, witness_max_weight),
            feerate,
        ) < 0 {
            ChangeOutcome::Infeasible
        } else {
            ChangeOutcome::NoChange
        }
    }
}

/// An input value above the supply cap is rejected, whatever the
/// transaction, the feerate and the script hold.
pub proof fn lemma_excess_input_infeasible(
    outs: Seq<(Seq<u8>, u64)>,
    base_weight: nat,
    input_value: u64,
    witness_max_weight: nat,
    feerate: u32,
    script: Seq<u8>,
)
    requires
        input_value > MAX_VALUE_MSAT / 1000,
    ensures
        change_outcome(
            outs,
            base_weight,
            input_value,
            witness_max_weight,
            feerate,
            script,
        ) is Infeasible,
{
}

/// Existing outputs that already consume the whole input value leave
/// nothing for fees or change: the call is rejected, whatever the feerate
/// and the script hold.
pub proof fn lemma_spent_input_infeasible(
    outs: Seq<(Seq<u8>, u64)>,
    base_weight: nat,
    input_value: u64,
    witness_max_weight: nat,
    feerate: u32,
    script: Seq<u8>,
)
    requires
        sum_values(outs) >= input_value,
    ensures
        change_outcome(
            outs,
            base_weight,
            input_value,
            witness_max_weight,
            feerate,
            script,
        ) is Infeasible,
{
}

/// The outcome is a function of the arguments alone: two calls that agree
/// on the transaction's outputs and weight and on every scalar argument
/// decide the same way, so repeating a failed call cannot succeed.
pub proof fn lemma_outcome_deterministic(
    t1: bitcoin::Transaction,
    t2: bitcoin::Transaction,
    input_value: u64,
    witness_max_weight: nat,
    feerate: u32,
    script: Seq<u8>,
)
    requires
        crate::btc::tx_outputs(t1) == crate::btc::tx_outputs(t2),
        crate::btc::tx_weight(t1) == crate::btc::tx_weight(t2),
    ensures
        change_outcome(
            crate::btc::tx_outputs(t1),
            crate::btc::tx_weight(t1),
            input_value,
            witness_max_weight,
            feerate,
            script,
        ) == change_outcome(
            crate::btc::tx_outputs(t2),
            crate::btc::tx_weight(t2),
            input_value,
            witness_max_weight,
            feerate,
            script,
        ),
{
}

/// When the call keeps the transaction as it is, the fee already committed
/// (the input value minus the existing outputs) still meets the target
/// feerate over the weight without a change output: the call never
/// silently under-pays.
pub proof fn lemma_no_change_pays_feerate(
    outs: Seq<(Seq<u8>, u64)>,
    base_weight: nat,
    input_value: u64,
    witness_max_weight: nat,
    feerate: u32,
    script: Seq<u8>,
)
    requires
        change_outcome(
            outs,
            base_weight,
            input_value,
            witness_max_weight,
            feerate,
            script,
        ) is NoChange,
    ensures
        input_value - sum_values(outs) - fee_for_weight(
            weight_without_change(base_weight, witness_max_weight),
            feerate,
        ) >= 0,
{
}

/// The fee owed for a given weight grows with the feerate.
proof fn lemma_fee_monotone_in_feerate(weight: int, low: u32, high: u32)
    requires
        0 <= weight,
        low <= high,
    ensures
        fee_for_weight(weight, low) <= fee_for_weight(weight, high),
{
    lemma_mul_inequality(low as int, high as int, weight);
    lemma_mul_is_commutative(low as int, weight);
    lemma_mul_is_commutative(high as int, weight);
    lemma_div_is_ordered(weight * low, weight * high, 1000);
}

/// Raising the feerate, all else fixed, never raises the change value, and
/// never turns an infeasible call feasible.
pub proof fn lemma_feerate_monotone(
    outs: Seq<(Seq<u8>, u64)>,
    base_weight: nat,
    input_value: u64,
    witness_max_weight: nat,
    low: u32,
    high: u32,
    script: Seq<u8>,
)
    requires
        low <= high,
    ensures
        change_value(outs, base_weight, input_value, witness_max_weight, high, script)
            <= change_value(outs, base_weight, input_value, witness_max_weight, low, script),
        change_outcome(outs, base_weight, input_value, witness_max_weight, low, script)
            is Infeasible ==> change_outcome(
            outs,
            base_weight,
            input_value,
            witness_max_weight,
            high,
            script,
        ) is Infeasible,
{
    lemma_fee_monotone_in_feerate(
        weight_with_change(base_weight, witness_max_weight, outs.len(), script.len()),
        low,
        high,
    );
    lemma_fee_monotone_in_feerate(weight_without_change(base_weight, witness_max_weight), low, high);
}

} // verus!

