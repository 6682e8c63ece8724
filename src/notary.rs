use crate::clock::ledger_clock;
use crate::identity::{Identity, Wallet};
use std::collections::HashMap;
use vstd::prelude::*;

verus! {

broadcast use vstd::std_specs::hash::group_hash_axioms;

pub const DISCRIMINATOR_LENGTH: usize = 8;
pub const UNIX_TIMESTAMP_LENGTH: usize = 8;
pub const PUBKEY_SIZE: usize = 32;
pub const MAX_PROOF_LENGTH: usize = 32;

/// A notarized record: a commitment, who submitted it, and when.
#[derive(Clone, Copy, Debug)]
pub struct Proof {
    pub proof: [u8; 32],
    pub submitter: Identity,
    pub timestamp: i64,
}

impl Proof {
    /// Stored size: type tag, timestamp, submitter, commitment.
    pub const LEN: usize = DISCRIMINATOR_LENGTH + UNIX_TIMESTAMP_LENGTH + PUBKEY_SIZE
        + MAX_PROOF_LENGTH;
}

/// Why a submission was refused. Every refusal leaves the ledger and the
/// accounts as they were.
#[derive(Clone, Copy, Debug, PartialEq, Eq, Structural)]
pub enum ProofError {
    SizeExceeded,
    InvalidAuthority,
    TransferRejected,
    AlreadyExists,
    ClockUnavailable,
}

/// The accounts of one submission: the submitter, who signs and pays; the
/// account named as the authority; and the address of the slot to fill.
#[derive(Clone, Copy, Debug)]
pub struct CreateProof {
    pub submitter: Wallet,
    pub authority: Wallet,
    pub proof_account: u64,
}

/// The configured authority and fee, and the write-once record slots by
/// address.
pub struct Ledger {
    authority: Identity,
    fee: u64,
    slots: HashMap<u64, Proof>,
}

/// Whether `r` holds exactly the given commitment, submitter and timestamp.
pub open spec fn record_holds(r: Proof, commitment: Seq<u8>, submitter: Seq<u8>, timestamp: i64) -> bool {
    &&& r.proof@ == commitment
    &&& r.submitter@ == submitter
    &&& r.timestamp == timestamp
}

/// Whether the fee can move from `submitter` to `authority`: always when they
/// are one identity (nothing moves), else when the submitter holds the fee and
/// the authority's balance can take it.
pub open spec fn fee_payable(submitter: Wallet, authority: Wallet, fee: u64) -> bool {
    submitter.key@ == authority.key@ || (submitter.lamports >= fee && authority.lamports + fee
        <= u64::MAX)
}

impl Ledger {
    /// The configured authority.
    pub closed spec fn spec_authority(&self) -> Identity {
        self.authority
    }

    /// The configured fee, in minor units.
    pub closed spec fn spec_fee(&self) -> u64 {
        self.fee
    }

    /// The records held, by slot address.
    pub closed spec fn records(&self) -> Map<u64, Proof> {
        self.slots@
    }

    /// The refusal that a submission meets, if any, in the order in which
    /// the checks are made.
    pub open spec fn refusal(&self, ctx: CreateProof, commitment: Seq<u8>, now: Option<i64>) -> Option<ProofError> {
        if commitment.len() != 32 {
            Some(ProofError::SizeExceeded)
        } else if ctx.authority.key@ != self.spec_authority()@ {
            Some(ProofError::InvalidAuthority)
        } else if !fee_payable(ctx.submitter, ctx.authority, self.spec_fee()) {
            Some(ProofError::TransferRejected)
        } else if self.records().contains_key(ctx.proof_account) {
            Some(ProofError::AlreadyExists)
        } else if now is None {
            Some(ProofError::ClockUnavailable)
        } else {
            None
        }
    }

    pub fn new(authority: Identity, fee: u64) -> (r: Ledger)
        ensures
            r.spec_authority() == authority,
            r.spec_fee() == fee,
            r.records() == Map::<u64, Proof>::empty(),
    {
        Ledger { authority, fee, slots: HashMap::new() }
    }

    pub fn authority(&self) -> (r: Identity)
        ensures
            r == self.spec_authority(),
    {
        self.authority
    }

    pub fn fee(&self) -> (r: u64)
        ensures
            r == self.spec_fee(),
    {
        self.fee
    }

    /// The record at `address`, if that slot has been filled.
    pub fn record(&self, address: u64) -> (r: Option<Proof>)
        ensures
            r == (if self.records().contains_key(address) {
                Some(self.records()[address])
            } else {
                None
            }),
    {
        match self.slots.get(&address) {
            Some(p) => Some(*p),
            None => None,
        }
    }
}

/// What a call of `store_proof` does: from `l`, `ctx` to `l2`, `ctx2`, with
/// result `r`.
pub open spec fn store_outcome(
    l: Ledger,
    l2: Ledger,
    ctx: CreateProof,
    ctx2: CreateProof,
    commitment: Seq<u8>,
    now: Option<i64>,
    r: Result<u64, ProofError>,
) -> bool {
    match r {
        Err(e) => {
            &&& l.refusal(ctx, commitment, now) == Some(e)
            &&& l2 == l
            &&& ctx2 == ctx
        },
        Ok(a) => {
            &&& l.refusal(ctx, commitment, now) is None
            &&& a == ctx.proof_account
            &&& l2.spec_authority() == l.spec_authority()
            &&& l2.spec_fee() == l.spec_fee()
            &&& l2.records() == l.records().insert(a, l2.records()[a])
            &&& record_holds(l2.records()[a], commitment, ctx.submitter.key@, now->Some_0)
            &&& ctx2.proof_account == ctx.proof_account
            &&& ctx2.submitter.key == ctx.submitter.key
            &&& ctx2.authority.key == ctx.authority.key
            &&& if ctx.submitter.key@ == ctx.authority.key@ {
                &&& ctx2.submitter.lamports == ctx.submitter.lamports
                &&& ctx2.authority.lamports == ctx.authority.lamports
            } else {
                &&& ctx2.submitter.lamports == ctx.submitter.lamports - l.spec_fee()
                &&& ctx2.authority.lamports == ctx.authority.lamports + l.spec_fee()
            }
        },
    }
}

/// Checks that a commitment is exactly 32 bytes and returns it as such.
pub fn validate_commitment(commitment: &[u8]) -> (r: Result<[u8; 32], ProofError>)
    ensures
        match r {
            Ok(c) => commitment@.len() == 32 && c@ == commitment@,
            Err(e) => commitment@.len() != 32 && e == ProofError::SizeExceeded,
        },
{
    if commitment.len() != 32 {
        return Err(ProofError::SizeExceeded);
    }
    let mut c: [u8; 32] = [0u8; 32];
    let mut i: usize = 0;
    while i < 32
        invariant
            i <= 32,
            commitment@.len() == 32,
            c@.len() == 32,
            forall|j: int| 0 <= j < i ==> c@[j] == commitment@[j],
        decreases 32 - i,
    {
        c[i] = commitment[i];
        i = i + 1;
    }
    assert(c@ =~= commitment@);
    Ok(c)
}

/// Records `commitment` at `ctx.proof_account`, timestamped `now` (the
/// ledger's clock), after checking its size, the claimed authority and the
/// fee, which moves from the submitter to the authority unless they are one
/// identity. Either every effect takes place or none does.
pub fn store_proof(
    ledger: &mut Ledger,
    ctx: &mut CreateProof,
    commitment: &[u8],
    now: Option<i64>,
) -> (r: Result<u64, ProofError>)
    ensures
        store_outcome(*old(ledger), *final(ledger), *old(ctx), *final(ctx), commitment@, now, r),
{
    let c = match validate_commitment(commitment) {
        Ok(c) => c,
        Err(e) => return Err(e),
    };
    if !ctx.authority.key.same_as(&ledger.authority) {
        return Err(ProofError::InvalidAuthority);
    }
    let self_paid = ctx.submitter.key.same_as(&ctx.authority.key);
    if !self_paid && (ctx.submitter.lamports < ledger.fee || ctx.authority.lamports > u64::MAX
        - ledger.fee) {
        return Err(ProofError::TransferRejected);
    }
    if ledger.slots.contains_key(&ctx.proof_account) {
        return Err(ProofError::AlreadyExists);
    }
    let timestamp = match now {
        Some(t) => t,
        None => return Err(ProofError::ClockUnavailable),
    };
    if !self_paid {
        ctx.submitter.lamports = ctx.submitter.lamports - ledger.fee;
        ctx.authority.lamports = ctx.authority.lamports + ledger.fee;
    }
    let record = Proof { proof: c, submitter: ctx.submitter.key, timestamp };
    ledger.slots.insert(ctx.proof_account, record);
    assert(ledger.records() =~= old(ledger).records().insert(ctx.proof_account, record));
    Ok(ctx.proof_account)
}

/// `store_proof` with the timestamp read from the ledger runtime's clock.
/// Whatever the clock gives, the call does what `store_proof` does with it.
pub fn store_proof_now(ledger: &mut Ledger, ctx: &mut CreateProof, commitment: &[u8]) -> (r: Result<
    u64,
    ProofError,
>)
    ensures
        exists|now: Option<i64>|
            #[trigger] store_outcome(
                *old(ledger),
                *final(ledger),
                *old(ctx),
                *final(ctx),
                commitment@,
                now,
                r,
            ),
{
    let now = ledger_clock();
    let r = store_proof(ledger, ctx, commitment, now);
    assert(store_outcome(*old(ledger), *ledger, *old(ctx), *ctx, commitment@, now, r));
    r
}

/// A submission by the authority itself, of a 32-byte commitment to a free
/// slot while the clock is available, succeeds and moves no funds.
pub proof fn lemma_authority_submits_without_fee(
    l: Ledger,
    l2: Ledger,
    ctx: CreateProof,
    ctx2: CreateProof,
    commitment: Seq<u8>,
    now: Option<i64>,
    r: Result<u64, ProofError>,
)
    requires
        store_outcome(l, l2, ctx, ctx2, commitment, now, r),
        commitment.len() == 32,
        ctx.submitter.key@ == l.spec_authority()@,
        ctx.authority.key@ == l.spec_authority()@,
        !l.records().contains_key(ctx.proof_account),
        now is Some,
    ensures
        r is Ok,
        ctx2.submitter.lamports == ctx.submitter.lamports,
        ctx2.authority.lamports == ctx.authority.lamports,
{
}

/// A submission by anyone else who holds the fee, of a 32-byte commitment to
/// a free slot while the clock is available, succeeds; the submitter's
/// balance falls by exactly the fee and the authority's rises by exactly it
/// (where the authority's balance can take it).
pub proof fn lemma_other_submitter_pays_fee(
    l: Ledger,
    l2: Ledger,
    ctx: CreateProof,
    ctx2: CreateProof,
    commitment: Seq<u8>,
    now: Option<i64>,
    r: Result<u64, ProofError>,
)
    requires
        store_outcome(l, l2, ctx, ctx2, commitment, now, r),
        commitment.len() == 32,
        ctx.authority.key@ == l.spec_authority()@,
        ctx.submitter.key@ != ctx.authority.key@,
        ctx.submitter.lamports >= l.spec_fee(),
        ctx.authority.lamports + l.spec_fee() <= u64::MAX,
        !l.records().contains_key(ctx.proof_account),
        now is Some,
    ensures
        r is Ok,
        ctx2.submitter.lamports == ctx.submitter.lamports - l.spec_fee(),
        ctx2.authority.lamports == ctx.authority.lamports + l.spec_fee(),
{
}

/// A submitter other than the authority whose balance is below the fee is
/// refused with `TransferRejected`, and the slot it named stays empty.
pub proof fn lemma_short_balance_rejected(
    l: Ledger,
    l2: Ledger,
    ctx: CreateProof,
    ctx2: CreateProof,
    commitment: Seq<u8>,
    now: Option<i64>,
    r: Result<u64, ProofError>,
)
    requires
        store_outcome(l, l2, ctx, ctx2, commitment, now, r),
        commitment.len() == 32,
        ctx.authority.key@ == l.spec_authority()@,
        ctx.submitter.key@ != ctx.authority.key@,
        ctx.submitter.lamports < l.spec_fee(),
        !l.records().contains_key(ctx.proof_account),
    ensures
        r == Err::<u64, ProofError>(ProofError::TransferRejected),
        !l2.records().contains_key(ctx.proof_account),
        ctx2 == ctx,
{
}

/// Naming an authority other than the configured one is refused with
/// `InvalidAuthority`, whatever the balances and the 32-byte commitment, and
/// changes nothing.
pub proof fn lemma_wrong_authority_rejected(
    l: Ledger,
    l2: Ledger,
    ctx: CreateProof,
    ctx2: CreateProof,
    commitment: Seq<u8>,
    now: Option<i64>,
    r: Result<u64, ProofError>,
)
    requires
        store_outcome(l, l2, ctx, ctx2, commitment, now, r),
        commitment.len() == 32,
        ctx.authority.key@ != l.spec_authority()@,
    ensures
        r == Err::<u64, ProofError>(ProofError::InvalidAuthority),
        l2 == l,
        ctx2 == ctx,
{
}

/// A stored record's timestamp is the ledger clock's value handed to the
/// call; no other timestamp enters it.
pub proof fn lemma_timestamp_from_clock(
    l: Ledger,
    l2: Ledger,
    ctx: CreateProof,
    ctx2: CreateProof,
    commitment: Seq<u8>,
    now: Option<i64>,
    r: Result<u64, ProofError>,
)
    requires
        store_outcome(l, l2, ctx, ctx2, commitment, now, r),
        r is Ok,
    ensures
        now is Some,
        l2.records()[r->Ok_0].timestamp == now->Some_0,
{
}

/// Submissions to distinct addresses are independent: whether a first one
/// succeeded or failed, a second one to another address meets the same
/// refusal (or none) as it would have without the first, and the first's
/// record is left as it was by the second.
pub proof fn lemma_distinct_addresses_independent(
    l0: Ledger,
    l1: Ledger,
    l2: Ledger,
    ctx1: CreateProof,
    ctx1b: CreateProof,
    ctx2: CreateProof,
    ctx2b: CreateProof,
    c1: Seq<u8>,
    c2: Seq<u8>,
    now1: Option<i64>,
    now2: Option<i64>,
    r1: Result<u64, ProofError>,
    r2: Result<u64, ProofError>,
)
    requires
        store_outcome(l0, l1, ctx1, ctx1b, c1, now1, r1),
        store_outcome(l1, l2, ctx2, ctx2b, c2, now2, r2),
        ctx1.proof_account != ctx2.proof_account,
    ensures
        l1.refusal(ctx2, c2, now2) == l0.refusal(ctx2, c2, now2),
        l2.records().contains_key(ctx1.proof_account) == l1.records().contains_key(
            ctx1.proof_account,
        ),
        l1.records().contains_key(ctx1.proof_account) ==> l2.records()[ctx1.proof_account]
            == l1.records()[ctx1.proof_account],
{
}

/// Submitting to an address that already holds a record is refused with
/// `AlreadyExists` (once the earlier checks pass) and leaves that record as
/// it was.
pub proof fn lemma_occupied_slot_rejected(
    l: Ledger,
    l2: Ledger,
    ctx: CreateProof,
    ctx2: CreateProof,
    commitment: Seq<u8>,
    now: Option<i64>,
    r: Result<u64, ProofError>,
)
    requires
        store_outcome(l, l2, ctx, ctx2, commitment, now, r),
        commitment.len() == 32,
        ctx.authority.key@ == l.spec_authority()@,
        fee_payable(ctx.submitter, ctx.authority, l.spec_fee()),
        l.records().contains_key(ctx.proof_account),
    ensures
        r == Err::<u64, ProofError>(ProofError::AlreadyExists),
        l2.records()[ctx.proof_account] == l.records()[ctx.proof_account],
        l2 == l,
{
}

} // verus!
