//! A notarization ledger: a submitter records a 32-byte commitment together
//! with its identity and the ledger's clock, in a write-once slot, optionally
//! paying a fixed fee to a configured authority. A second program records
//! short text posts in the same account model.
mod clock;
mod identity;
mod notary;
mod tweets;

pub use identity::{Identity, Wallet};
pub use notary::{
    fee_payable, lemma_authority_submits_without_fee, lemma_distinct_addresses_independent,
    lemma_occupied_slot_rejected, lemma_other_submitter_pays_fee, lemma_short_balance_rejected,
    lemma_timestamp_from_clock, lemma_wrong_authority_rejected, record_holds, store_outcome,
    store_proof, store_proof_now, validate_commitment,
    CreateProof, Ledger, Proof, ProofError,
};


pub use tweets::{send_tweet, send_tweet_now, tweet_outcome, tweet_refusal, ErrorCode, Initialize, SendTweet, Tweet};
