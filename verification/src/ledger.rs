//! The ledger of one contract: the split it has on record, and the three things
//! that can be done with it.

use crate::host::{
    contract_running, instance_get, instance_others, instance_set, instance_vectors,
    is_short_symbol,
};
use crate::split::{
    amounts_fit, amounts_of, apportion, can_apportion, percentages_sum_to_whole, recorded_after,
    split_in_force, split_or_default, sums_to_whole,
};
use soroban_sdk::Env;
use vstd::prelude::*;

verus! {

/// The symbol under which the split is kept in the instance storage.
pub const SPLIT_KEY: &'static str = "SPLIT";

/// The split on record in the instance storage of the running contract, if there is
/// one.
pub open spec fn recorded_split(env: Env) -> Option<Seq<u32>> {
    if instance_vectors(env).contains_key(SPLIT_KEY@) {
        Some(instance_vectors(env)[SPLIT_KEY@])
    } else {
        None
    }
}

/// The record can be read: a contract is running, and what its instance storage
/// holds under the key, if anything, is a vector of `u32`.
pub open spec fn record_is_readable(env: Env) -> bool {
    &&& contract_running(env)
    &&& !instance_others(env).contains(SPLIT_KEY@)
}

/// The split that the running contract works with: the one on record, or the
/// default.
pub open spec fn current_split(env: Env) -> Seq<u32> {
    split_in_force(recorded_split(env))
}

/// The key is a short symbol, as the storage asks.
proof fn lemma_key_is_short_symbol()
    ensures
        is_short_symbol(SPLIT_KEY@),
{
    reveal_strlit("SPLIT");
}

/// The ledger of remittance splits. It holds nothing itself: the record lives in
/// the instance storage of the contract, and every operation reads it afresh.
pub struct RemittanceSplit;

impl RemittanceSplit {
    /// Puts a split on record. The four percentages are accepted exactly when they
    /// add up to one hundred; they then replace whatever was on record, which can be
    /// read from then on. Otherwise nothing is written, and the storage is not
    /// touched at all.
    pub fn initialize_split(
        env: &mut Env,
        spending_percent: u32,
        savings_percent: u32,
        bills_percent: u32,
        insurance_percent: u32,
    ) -> (accepted: bool)
        requires
            sums_to_whole(spending_percent, savings_percent, bills_percent, insurance_percent)
                ==> contract_running(*old(env)),
        ensures
            accepted == sums_to_whole(
                spending_percent,
                savings_percent,
                bills_percent,
                insurance_percent,
            ),
            recorded_split(*final(env)) == recorded_after(
                recorded_split(*old(env)),
                spending_percent,
                savings_percent,
                bills_percent,
                insurance_percent,
            ),
            accepted ==> instance_vectors(*final(env)) == instance_vectors(*old(env)).insert(
                SPLIT_KEY@,
                seq![spending_percent, savings_percent, bills_percent, insurance_percent],
            ),
            accepted ==> instance_others(*final(env)) == instance_others(*old(env)).remove(
                SPLIT_KEY@,
            ),
            accepted ==> record_is_readable(*final(env)),
            !accepted ==> *final(env) == *old(env),
            contract_running(*final(env)) == contract_running(*old(env)),
    {
        if !percentages_sum_to_whole(
            spending_percent,
            savings_percent,
            bills_percent,
            insurance_percent,
        ) {
            return false;
        }
        proof {
            lemma_key_is_short_symbol();
        }
        let split: [u32; 4] = [spending_percent, savings_percent, bills_percent, insurance_percent];
        assert(split@ =~= seq![
            spending_percent,
            savings_percent,
            bills_percent,
            insurance_percent,
        ]);
        instance_set(env, SPLIT_KEY, split);
        true
    }

    /// Reads the split that applies: the one on record, as it is, or 50/30/15/5
    /// where none is.
    pub fn get_split(env: &Env) -> (split: Vec<u32>)
        requires
            record_is_readable(*env),
        ensures
            split@ == current_split(*env),
    {
        proof {
            lemma_key_is_short_symbol();
        }
        split_or_default(instance_get(env, SPLIT_KEY))
    }

    /// Carves `total_amount` up by the split that applies.
    pub fn calculate_split(env: &Env, total_amount: i128) -> (amounts: Vec<i128>)
        requires
            record_is_readable(*env),
            current_split(*env).len() == 4,
            amounts_fit(current_split(*env), total_amount as int),
        ensures
            amounts@.len() == 4,
            forall|i: int|
                0 <= i < 4 ==> amounts@[i] == amounts_of(current_split(*env), total_amount as int)[i],
            amounts@[0] + amounts@[1] + amounts@[2] + amounts@[3] == total_amount,
    {
        let split = Self::get_split(env);
        apportion(&split, total_amount)
    }

    /// Carves `total_amount` up by the split that applies, where that can be done:
    /// where the split has four entries and the amounts can be computed in `i128`.
    /// Otherwise there is no answer.
    pub fn try_calculate_split(env: &Env, total_amount: i128) -> (amounts: Option<Vec<i128>>)
        requires
            record_is_readable(*env),
        ensures
            amounts is Some <==> current_split(*env).len() == 4 && amounts_fit(
                current_split(*env),
                total_amount as int,
            ),
            amounts matches Some(amounts) ==> {
                &&& amounts@.len() == 4
                &&& forall|i: int|
                    0 <= i < 4 ==> amounts@[i] == amounts_of(
                        current_split(*env),
                        total_amount as int,
                    )[i]
                &&& amounts@[0] + amounts@[1] + amounts@[2] + amounts@[3] == total_amount
            },
    {
        let split = Self::get_split(env);
        if can_apportion(&split, total_amount) {
            Some(Self::calculate_split(env, total_amount))
        } else {
            None
        }
    }
}

} // verus!
