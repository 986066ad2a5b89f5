//! The contract host as the ledger sees it: the instance storage of the running
//! contract, read and written through `soroban_sdk`.
//!
//! Nothing in this file is proved. Each item states what the SDK is taken to do;
//! the verified code in the rest of the crate rests on these statements.
//!
//! An `Env` is a shared handle: its clones reach the same host, and the host
//! decides which contract is running. What is said here of a value of `Env` holds
//! as long as one handle is used and the running contract stays the same. Nothing
//! in this crate holds two handles or switches contract.

use soroban_sdk::{Env, Symbol};
use vstd::prelude::*;

verus! {

/// `soroban_sdk::Env`, the handle to the host. Its inside is hidden: all that is
/// said of a value of it goes through [`contract_running`], [`instance_vectors`]
/// and [`instance_others`].
#[verifier::external_type_specification]
#[verifier::external_body]
pub struct ExEnv(Env);

/// A contract is running in the host behind `env`. The SDK reaches storage only
/// then; without one it panics.
pub uninterp spec fn contract_running(env: Env) -> bool;

/// What the instance storage of the running contract holds: for each short symbol
/// under which a vector of `u32` is stored, the text of the symbol mapped to the
/// items of that vector, in order.
pub uninterp spec fn instance_vectors(env: Env) -> Map<Seq<char>, Seq<u32>>;

/// The short symbols under which the instance storage of the running contract
/// holds something else: a value that is no vector, or a vector with an item that
/// is no `u32`. The SDK panics when such a value is read as a vector of `u32`.
pub uninterp spec fn instance_others(env: Env) -> Set<Seq<char>>;

/// A character that a symbol may hold: `_`, a digit or an ASCII letter.
pub open spec fn is_symbol_char(c: char) -> bool {
    c == '_' || ('0' <= c && c <= '9') || ('A' <= c && c <= 'Z') || ('a' <= c && c <= 'z')
}

/// A text that fits a short symbol: at most nine characters, each one a symbol
/// character.
pub open spec fn is_short_symbol(text: Seq<char>) -> bool {
    &&& text.len() <= 9
    &&& forall|i: int| 0 <= i < text.len() ==> is_symbol_char(#[trigger] text[i])
}

/// `soroban_sdk::storage::Instance::get`, with the key made by `Symbol::new` and each
/// item of the vector found handed out as a `u32`.
///
/// With a contract running, the SDK returns `None` exactly when the host holds
/// nothing under the key. Otherwise it converts what is held, and panics where that
/// is no vector; handing out the items panics on one that is no `u32`. Both are
/// left out by `requires`, and what is returned is then the vector held.
/// `Symbol::new` accepts every text that `is_short_symbol` admits.
#[verifier::external_body]
pub(crate) fn instance_get(env: &Env, key: &str) -> (found: Option<Vec<u32>>)
    requires
        is_short_symbol(key@),
        contract_running(*env),
        !instance_others(*env).contains(key@),
    ensures
        match found {
            Some(items) => instance_vectors(*env).contains_key(key@) && instance_vectors(*env)[key@]
                == items@,
            None => !instance_vectors(*env).contains_key(key@),
        },
{
    let held: Option<soroban_sdk::Vec<u32>> = env.storage().instance().get(&Symbol::new(env, key));
    match held {
        Some(items) => Some(items.iter().collect()),
        None => None,
    }
}

/// `soroban_sdk::storage::Instance::set`, with the key made by `Symbol::new` and the
/// value by `soroban_sdk::Vec::from_array`.
///
/// With a contract running, the SDK puts the vector under the key, replacing
/// whatever was there, and touches no other key; the contract goes on running.
#[verifier::external_body]
pub(crate) fn instance_set(env: &mut Env, key: &str, items: [u32; 4])
    requires
        is_short_symbol(key@),
        contract_running(*old(env)),
    ensures
        contract_running(*final(env)),
        instance_vectors(*final(env)) == instance_vectors(*old(env)).insert(key@, items@),
        instance_others(*final(env)) == instance_others(*old(env)).remove(key@),
{
    let held: soroban_sdk::Vec<u32> = soroban_sdk::Vec::from_array(env, items);
    env.storage().instance().set(&Symbol::new(env, key), &held);
}

} // verus!
