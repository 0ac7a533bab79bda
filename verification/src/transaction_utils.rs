//! The change-output decision on real transactions.

use crate::btc::script_bytes;
use crate::btc::script_is_op_return;
use crate::btc::script_is_witness_program;
use crate::btc::transaction_output_values;
use crate::btc::transaction_push_output;
use crate::btc::transaction_weight;
use crate::btc::tx_outputs;
use crate::btc::tx_weight;
use crate::btc::txout_serialized_len;
use crate::btc::varint_serialized_len;
use crate::model::change_outcome;
use crate::model::change_value;
use crate::model::dust_threshold;
use crate::model::lemma_sum_prefix_le;
use crate::model::sum_values;
use crate::model::varint_len;
use crate::model::weight_with_change;
use crate::model::ChangeOutcome;
use crate::model::MAX_VALUE_MSAT;
use vstd::prelude::*;

verus! {

/// The requested feerate cannot be met with the given transaction, input
/// value and destination script.
#[derive(Clone, Copy, PartialEq, Eq, Debug)]
pub struct InfeasibleFeerate;

/// Minimum value an output carrying the given script may hold while still
/// being considered economically spendable.
pub fn get_dust_value(output_script: &bitcoin::Script) -> (r: u64)
    ensures
        r == dust_threshold(script_bytes(*output_script)),
{
    if script_is_op_return(output_script) {
        0
    } else if script_is_witness_program(output_script) {
        294
    } else {
        546
    }
}

/// Possibly appends a change output to the given transaction, always doing
/// so when excess funds remain beyond the requested feerate, and leaving
/// the transaction untouched otherwise. Assumes at least one input will
/// carry a witness. Fails when the feerate cannot be met.
#[verifier::loop_isolation(false)]
pub fn maybe_add_change_output(
    tx: &mut bitcoin::Transaction,
    input_value: u64,
    witness_max_weight: usize,
    feerate_sat_per_1000_weight: u32,
    change_destination_script: bitcoin::Script,
) -> (r: Result<(), InfeasibleFeerate>)
    requires
        tx_outputs(*old(tx)).len() < u64::MAX,
    ensures
        ({
            let outcome = change_outcome(
                tx_outputs(*old(tx)),
                tx_weight(*old(tx)),
                input_value,
                witness_max_weight as nat,
                feerate_sat_per_1000_weight,
                script_bytes(change_destination_script),
            );
            &&& r is Err <==> outcome is Infeasible
            &&& outcome is Infeasible ==> *final(tx) == *old(tx)
            &&& outcome is NoChange ==> *final(tx) == *old(tx)
            &&& (outcome matches ChangeOutcome::Change { value } ==> {
                &&& dust_threshold(script_bytes(change_destination_script)) <= value <= u64::MAX
                &&& tx_outputs(*final(tx)) == tx_outputs(*old(tx)).push(
                    (script_bytes(change_destination_script), value as u64),
                )
            })
        }),
{
    if input_value > MAX_VALUE_MSAT / 1000 {
        return Err(InfeasibleFeerate);
    }
    let ghost outs = tx_outputs(*old(tx));
    if input_value == 0 {
        proof {
            lemma_sum_prefix_le(outs, 0);
        }
        return Err(InfeasibleFeerate);
    }

    let vals = transaction_output_values(tx);
    let mut output_value: u64 = 0;
    let mut idx: usize = 0;
    while idx < vals.len()
        invariant
            0 <= idx <= vals@.len(),
            output_value == sum_values(outs.take(idx as int)),
            output_value < input_value,
        decreases vals@.len() - idx,
    {
        let v: u64 = vals[idx];
        proof {
            assert(outs.take(idx + 1).drop_last() =~= outs.take(idx as int));
            assert(outs.take(idx + 1).last() == outs[idx as int]);
        }
        if v >= input_value - output_value {
            proof {
                lemma_sum_prefix_le(outs, idx + 1);
            }
            return Err(InfeasibleFeerate);
        }
        output_value = output_value + v;
        idx = idx + 1;
    }
    proof {
        assert(outs.take(outs.len() as int) =~= outs);
    }

    let dust_value: u64 = get_dust_value(&change_destination_script);
    let (script, change_len) = txout_serialized_len(change_destination_script);
    let base_weight: usize = transaction_weight(tx);
    let n: usize = vals.len();
    let vi_new: usize = varint_serialized_len(n as u64 + 1);
    let vi_old: usize = varint_serialized_len(n as u64);
    assert(varint_len(n as nat + 1) >= varint_len(n as nat));
    let count_growth: usize = vi_new - vi_old;

    let with_change: u128 = base_weight as u128 + 2 + witness_max_weight as u128 + change_len
        as u128 * 4 + count_growth as u128 * 4;
    assert(with_change == weight_with_change(
        tx_weight(*old(tx)),
        witness_max_weight as nat,
        outs.len(),
        script_bytes(script).len(),
    ));
    assert(with_change * (feerate_sat_per_1000_weight as u128) <= u128::MAX)
        by (nonlinear_arith)
        requires
            with_change <= 11 * 0x1_0000_0000_0000_0000u128,
            feerate_sat_per_1000_weight <= u32::MAX,
    ;
    let fee: u128 = with_change * feerate_sat_per_1000_weight as u128 / 1000;
    let avail: u64 = input_value - output_value;

    if fee + dust_value as u128 <= avail as u128 {
        let change: u64 = (avail as u128 - fee) as u64;
        assert(change == change_value(
            outs,
            tx_weight(*old(tx)),
            input_value,
            witness_max_weight as nat,
            feerate_sat_per_1000_weight,
            script_bytes(script),
        ));
        transaction_push_output(tx, script, change);
        return Ok(());
    }

    let without_change: u128 = base_weight as u128 + 2 + witness_max_weight as u128;
    assert(without_change * (feerate_sat_per_1000_weight as u128) <= u128::MAX)
        by (nonlinear_arith)
        requires
            without_change <= 3 * 0x1_0000_0000_0000_0000u128,
            feerate_sat_per_1000_weight <= u32::MAX,
    ;
    let fee_without_change: u128 = without_change * feerate_sat_per_1000_weight as u128 / 1000;
    if (avail as u128) < fee_without_change {
        return Err(InfeasibleFeerate);
    }
    Ok(())
}

} // verus!
