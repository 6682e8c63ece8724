use vstd::prelude::*;

verus! {

/// Relies on anchor_lang's `Clock::get` (the clock sysvar of solana_program):
/// the ledger's unix timestamp when the runtime supplies one, `None` when it
/// reports an error. The value depends on the runtime, so nothing is promised
/// of it.
#[verifier::external_body]
pub(crate) fn ledger_clock() -> (r: Option<i64>) {
    let clock = <anchor_lang::prelude::Clock as anchor_lang::solana_program::sysvar::Sysvar>::get();
    clock.ok().map(|c| c.unix_timestamp)
}

} // verus!
