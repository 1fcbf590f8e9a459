//! The distribution engine: per-round registries, the claim-marker ledger,
//! and the claim state machine.
//!
//! The store substitutes the host ledger's keyed record storage: one
//! registry per (round, token) pair and one claim marker per (round, token,
//! claim key), with creation failing atomically if the key exists — the
//! sole replay guard. Token custody stays external: vault balances arrive
//! as freshly read inputs and successful claims return the transfer
//! instruction the custody collaborator must execute, authorized by the
//! registry's derived control identity (named here by its round and token).

use vstd::prelude::*;
use crate::bytes_util::bytes_eq;
use crate::errors::AirdropError;
use crate::errors::ErrorCode;
use crate::merkle::proof_data;
use crate::merkle::spec_proof_data;
use crate::merkle::spec_verify_merkle_proof;
use crate::merkle::verify_merkle_proof;
use crate::sig::spec_artifact_matches;
use crate::sig::spec_delegation_message;
use crate::sig::verify_signature;
use crate::sig::SigArtifact;
use crate::state::ClaimRecord;
use crate::state::MerkleRoot;

verus! {

/// One registry in the store, addressed by (round, token mint).
#[derive(Clone, Copy, Debug)]
pub struct RoundEntry {
    pub mint: [u8; 32],
    pub record: MerkleRoot,
}

/// One claim marker in the store, addressed by (round, claim key, token
/// mint). Its existence is the whole anti-replay state.
#[derive(Clone, Copy, Debug)]
pub struct ClaimEntry {
    pub phase: u8,
    pub owner: [u8; 32],
    pub mint: [u8; 32],
    pub record: ClaimRecord,
}

/// The instruction a successful claim or withdrawal hands to the custody
/// collaborator: move `amount` of the round's token to `to`, authorized by
/// the control identity derived from (`phase`, `mint`).
#[derive(Clone, Copy, Debug, PartialEq, Eq)]
pub struct Transfer {
    pub phase: u8,
    pub mint: [u8; 32],
    pub to: [u8; 32],
    pub amount: u64,
}

/// The registry entry answers to this (round, token) key.
pub open spec fn round_key_matches(e: RoundEntry, phase: u8, mint: Seq<u8>) -> bool {
    e.record.phase == phase && e.mint@ == mint
}

/// Index of the first registry entry for (round, token), or the sequence's
/// length if none exists.
pub open spec fn spec_round_index(rounds: Seq<RoundEntry>, phase: u8, mint: Seq<u8>) -> int
    decreases rounds.len(),
{
    if rounds.len() == 0 {
        0
    } else if round_key_matches(rounds[0], phase, mint) {
        0
    } else {
        1 + spec_round_index(rounds.skip(1), phase, mint)
    }
}

/// A registry exists for this (round, token) pair.
pub open spec fn spec_has_round(rounds: Seq<RoundEntry>, phase: u8, mint: Seq<u8>) -> bool {
    spec_round_index(rounds, phase, mint) < rounds.len()
}

/// The registry record for (round, token); meaningful when one exists.
pub open spec fn spec_round_at(rounds: Seq<RoundEntry>, phase: u8, mint: Seq<u8>) -> MerkleRoot {
    rounds[spec_round_index(rounds, phase, mint)].record
}

/// The claim marker answers to this (round, claim key, token) key.
pub open spec fn claim_key_matches(e: ClaimEntry, phase: u8, owner: Seq<u8>, mint: Seq<u8>) -> bool {
    e.phase == phase && e.owner@ == owner && e.mint@ == mint
}

/// A claim marker exists for this (round, claim key, token) key.
pub open spec fn spec_has_claim(
    claims: Seq<ClaimEntry>,
    phase: u8,
    owner: Seq<u8>,
    mint: Seq<u8>,
) -> bool {
    exists|i: int| 0 <= i < claims.len() && claim_key_matches(#[trigger] claims[i], phase, owner, mint)
}

/// Two registry entries occupy the same (round, token) storage address.
pub open spec fn same_round_key(a: RoundEntry, b: RoundEntry) -> bool {
    a.record.phase == b.record.phase && a.mint@ == b.mint@
}

/// Two claim markers occupy the same (round, claim key, token) address.
pub open spec fn same_claim_key(a: ClaimEntry, b: ClaimEntry) -> bool {
    a.phase == b.phase && a.owner@ == b.owner@ && a.mint@ == b.mint@
}

/// The first-match index is within bounds, lands on a matching entry when
/// one exists, and nothing before it matches.
pub proof fn lemma_round_index(rounds: Seq<RoundEntry>, phase: u8, mint: Seq<u8>)
    ensures
        0 <= spec_round_index(rounds, phase, mint) <= rounds.len(),
        spec_round_index(rounds, phase, mint) < rounds.len() ==> round_key_matches(
            rounds[spec_round_index(rounds, phase, mint)],
            phase,
            mint,
        ),
        forall|j: int|
            0 <= j < spec_round_index(rounds, phase, mint) ==> !round_key_matches(
                #[trigger] rounds[j],
                phase,
                mint,
            ),
    decreases rounds.len(),
{
    if rounds.len() > 0 && !round_key_matches(rounds[0], phase, mint) {
        lemma_round_index(rounds.skip(1), phase, mint);
        assert forall|j: int| 0 <= j < spec_round_index(rounds, phase, mint) implies !round_key_matches(
            #[trigger] rounds[j],
            phase,
            mint,
        ) by {
            if j >= 1 {
                assert(rounds[j] == rounds.skip(1)[j - 1]);
            }
        }
    }
}

/// The registry entry with its committed root replaced.
pub open spec fn with_root(e: RoundEntry, new_root: [u8; 32]) -> RoundEntry {
    RoundEntry { record: MerkleRoot { merkle_root: new_root, ..e.record }, ..e }
}

/// The registry entry with its pause flag replaced.
pub open spec fn with_paused(e: RoundEntry, paused: bool) -> RoundEntry {
    RoundEntry { record: MerkleRoot { paused, ..e.record }, ..e }
}

/// Outcome of the admin gate shared by the registry mutations: the round
/// must exist and the caller must be its stored admin.
pub open spec fn spec_admin_gate(
    rounds: Seq<RoundEntry>,
    phase: u8,
    mint: [u8; 32],
    caller: [u8; 32],
) -> Result<(), AirdropError> {
    if !spec_has_round(rounds, phase, mint@) {
        Err(AirdropError::RoundMissing)
    } else if spec_round_at(rounds, phase, mint@).admin@ != caller@ {
        Err(AirdropError::Code(ErrorCode::InvalidAdmin))
    } else {
        Ok(())
    }
}

/// Outcome of a direct claim, in the exact validation order: amount, round
/// lookup, pause flag, Merkle proof for the caller's leaf, vault balance,
/// then the atomic marker creation. The claim key is the caller (`signer`);
/// funds go to `receiver`.
pub open spec fn spec_direct_claim(
    rounds: Seq<RoundEntry>,
    claims: Seq<ClaimEntry>,
    phase: u8,
    mint: [u8; 32],
    signer: [u8; 32],
    receiver: [u8; 32],
    amount: u64,
    proof_bytes: Seq<u8>,
    vault_balance: u64,
) -> Result<Transfer, AirdropError> {
    if amount == 0 {
        Err(AirdropError::Code(ErrorCode::InvalidAmount))
    } else if !spec_has_round(rounds, phase, mint@) {
        Err(AirdropError::RoundMissing)
    } else if spec_round_at(rounds, phase, mint@).paused {
        Err(AirdropError::Code(ErrorCode::AirdropHasPaused))
    } else if !spec_verify_merkle_proof(
        spec_round_at(rounds, phase, mint@).merkle_root@,
        spec_proof_data(phase, signer@, amount),
        proof_bytes,
    ) {
        Err(AirdropError::Code(ErrorCode::InvalidMerkleProof))
    } else if vault_balance < amount {
        Err(AirdropError::Code(ErrorCode::InsufficientBalance))
    } else if spec_has_claim(claims, phase, signer@, mint@) {
        Err(AirdropError::AlreadyClaimed)
    } else {
        Ok(Transfer { phase, mint, to: receiver, amount })
    }
}

/// The owned artifact a borrowed one stands for.
pub open spec fn artifact_of(artifact: Option<&SigArtifact>) -> Option<SigArtifact> {
    match artifact {
        Some(a) => Some(*a),
        None => None,
    }
}

/// Outcome of a delegated claim, in the exact validation order: amount,
/// round lookup, pause flag, expiry, signature authentication, Merkle proof
/// for the delegation owner's leaf, vault balance, then the atomic marker
/// creation. The claim key is `proof_owner`; funds go to the relaying
/// `receiver`, which is also the identity bound into the signed message.
pub open spec fn spec_delegated_claim(
    rounds: Seq<RoundEntry>,
    claims: Seq<ClaimEntry>,
    phase: u8,
    mint: [u8; 32],
    proof_owner: [u8; 32],
    receiver: [u8; 32],
    amount: u64,
    proof_bytes: Seq<u8>,
    expire_at: i64,
    signature: [u8; 64],
    artifact: Option<SigArtifact>,
    now: i64,
    vault_balance: u64,
) -> Result<Transfer, AirdropError> {
    if amount == 0 {
        Err(AirdropError::Code(ErrorCode::InvalidAmount))
    } else if !spec_has_round(rounds, phase, mint@) {
        Err(AirdropError::RoundMissing)
    } else if spec_round_at(rounds, phase, mint@).paused {
        Err(AirdropError::Code(ErrorCode::AirdropHasPaused))
    } else if expire_at <= now {
        Err(AirdropError::Code(ErrorCode::SignatureExpire))
    } else if !(match artifact {
        Some(a) => spec_artifact_matches(
            a,
            proof_owner@,
            spec_delegation_message(proof_bytes, receiver@, expire_at),
            signature@,
        ),
        None => false,
    }) {
        Err(AirdropError::Code(ErrorCode::SigVerificationFailed))
    } else if !spec_verify_merkle_proof(
        spec_round_at(rounds, phase, mint@).merkle_root@,
        spec_proof_data(phase, proof_owner@, amount),
        proof_bytes,
    ) {
        Err(AirdropError::Code(ErrorCode::InvalidMerkleProof))
    } else if vault_balance < amount {
        Err(AirdropError::Code(ErrorCode::InsufficientBalance))
    } else if spec_has_claim(claims, phase, proof_owner@, mint@) {
        Err(AirdropError::AlreadyClaimed)
    } else {
        Ok(Transfer { phase, mint, to: receiver, amount })
    }
}

/// Outcome of sweeping a round's unclaimed funds: admin-gated, rejected on
/// an empty vault, otherwise the entire remaining balance goes to the
/// caller.
pub open spec fn spec_withdraw(
    rounds: Seq<RoundEntry>,
    phase: u8,
    mint: [u8; 32],
    caller: [u8; 32],
    vault_balance: u64,
) -> Result<Transfer, AirdropError> {
    match spec_admin_gate(rounds, phase, mint, caller) {
        Err(e) => Err(e),
        Ok(_) => if vault_balance == 0 {
            Err(AirdropError::Code(ErrorCode::InvalidAmount))
        } else {
            Ok(Transfer { phase, mint, to: caller, amount: vault_balance })
        },
    }
}

/// The record store of the distribution core: registries and claim
/// markers, each keyed as the host ledger would key them.
pub struct Airdrop {
    pub rounds: Vec<RoundEntry>,
    pub claims: Vec<ClaimEntry>,
}

impl Airdrop {
    /// Storage addresses are unique: at most one registry per (round,
    /// token) and at most one marker per (round, claim key, token).
    pub open spec fn wf(self) -> bool {
        (forall|i: int, j: int|
            0 <= i < j < self.rounds@.len() ==> !same_round_key(
                #[trigger] self.rounds@[i],
                #[trigger] self.rounds@[j],
            )) && (forall|i: int, j: int|
            0 <= i < j < self.claims@.len() ==> !same_claim_key(
                #[trigger] self.claims@[i],
                #[trigger] self.claims@[j],
            ))
    }

    /// An empty store: no rounds, no claims.
    pub fn new() -> (store: Airdrop)
        ensures
            store.wf(),
            store.rounds@.len() == 0,
            store.claims@.len() == 0,
    {
        Airdrop { rounds: Vec::new(), claims: Vec::new() }
    }

    /// First-match scan for the registry of (round, token); returns the
    /// store's length when none exists.
    fn find_round(&self, phase: u8, mint: &[u8; 32]) -> (idx: usize)
        ensures
            idx == spec_round_index(self.rounds@, phase, mint@),
            idx <= self.rounds@.len(),
    {
        let n = self.rounds.len();
        let mut i: usize = 0;
        proof {
            assert(self.rounds@.skip(0) =~= self.rounds@);
        }
        while i < n
            invariant
                i <= n,
                n == self.rounds@.len(),
                spec_round_index(self.rounds@, phase, mint@) == i + spec_round_index(
                    self.rounds@.skip(i as int),
                    phase,
                    mint@,
                ),
            decreases n - i,
        {
            let entry = self.rounds[i];
            proof {
                assert(self.rounds@.skip(i as int)[0] == self.rounds@[i as int]);
                assert(self.rounds@.skip(i as int).skip(1) =~= self.rounds@.skip(i as int + 1));
            }
            if entry.record.phase == phase && bytes_eq(entry.mint.as_slice(), mint.as_slice()) {
                return i;
            }
            i = i + 1;
        }
        proof {
            assert(self.rounds@.skip(n as int).len() == 0);
        }
        n
    }

    /// Whether the claim marker for (round, claim key, token) exists.
    pub fn has_claimed(&self, phase: u8, owner: [u8; 32], mint: [u8; 32]) -> (r: bool)
        ensures
            r == spec_has_claim(self.claims@, phase, owner@, mint@),
    {
        let n = self.claims.len();
        let mut i: usize = 0;
        while i < n
            invariant
                i <= n,
                n == self.claims@.len(),
                forall|j: int|
                    0 <= j < i ==> !claim_key_matches(#[trigger] self.claims@[j], phase, owner@, mint@),
            decreases n - i,
        {
            let entry = self.claims[i];
            if entry.phase == phase && bytes_eq(entry.owner.as_slice(), owner.as_slice())
                && bytes_eq(entry.mint.as_slice(), mint.as_slice()) {
                return true;
            }
            i = i + 1;
        }
        false
    }

    /// The registry record for (round, token), if one exists.
    pub fn round_record(&self, phase: u8, mint: [u8; 32]) -> (r: Option<MerkleRoot>)
        ensures
            spec_has_round(self.rounds@, phase, mint@) ==> r == Some(
                spec_round_at(self.rounds@, phase, mint@),
            ),
            !spec_has_round(self.rounds@, phase, mint@) ==> r == None::<MerkleRoot>,
    {
        let idx = self.find_round(phase, &mint);
        if idx < self.rounds.len() {
            Some(self.rounds[idx].record)
        } else {
            None
        }
    }

    /// Creates the registry for a new round: fails if one already exists
    /// for (round, token); otherwise the caller becomes admin and the round
    /// starts unpaused with the given committed root.
    pub fn init_merkle_root(
        &mut self,
        phase: u8,
        mint: [u8; 32],
        admin: [u8; 32],
        merkle_root: [u8; 32],
        bump: u8,
    ) -> (r: Result<(), AirdropError>)
        requires
            old(self).wf(),
        ensures
            final(self).wf(),
            spec_has_round(old(self).rounds@, phase, mint@) ==> r == Err::<(), AirdropError>(
                AirdropError::RoundExists,
            ) && *final(self) == *old(self),
            !spec_has_round(old(self).rounds@, phase, mint@) ==> r == Ok::<(), AirdropError>(())
                && final(self).claims@ == old(self).claims@
                && final(self).rounds@.len() == old(self).rounds@.len() + 1
                && final(self).rounds@.subrange(0, old(self).rounds@.len() as int)
                    == old(self).rounds@
                && final(self).rounds@.last().mint@ == mint@
                && final(self).rounds@.last().record.bump == bump
                && final(self).rounds@.last().record.admin@ == admin@
                && final(self).rounds@.last().record.phase == phase
                && final(self).rounds@.last().record.merkle_root@ == merkle_root@
                && final(self).rounds@.last().record.paused == false
                && (forall|k: int|
                    0 <= k < 32 ==> final(self).rounds@.last().record.padding@[k] == 0),
    {
        let idx = self.find_round(phase, &mint);
        if idx < self.rounds.len() {
            return Err(AirdropError::RoundExists);
        }
        proof {
            lemma_round_index(self.rounds@, phase, mint@);
        }
        let record = MerkleRoot {
            bump,
            admin,
            phase,
            merkle_root,
            paused: false,
            padding: [0u8; 32],
        };
        let ghost r0 = self.rounds@;
        self.rounds.push(RoundEntry { mint, record });
        proof {
            assert(self.rounds@.subrange(0, r0.len() as int) =~= r0);
            assert forall|i: int, j: int| 0 <= i < j < self.rounds@.len() implies !same_round_key(
                #[trigger] self.rounds@[i],
                #[trigger] self.rounds@[j],
            ) by {
                if j < r0.len() {
                    assert(self.rounds@[i] == r0[i]);
                    assert(self.rounds@[j] == r0[j]);
                } else {
                    assert(self.rounds@[i] == r0[i]);
                    assert(!round_key_matches(r0[i], phase, mint@));
                }
            }
        }
        Ok(())
    }

    /// Replaces the committed root for (round, token); only the stored
    /// admin may do so, and nothing else changes. A changed root has no
    /// retroactive effect on markers already created.
    pub fn update_merkle_root(
        &mut self,
        phase: u8,
        mint: [u8; 32],
        caller: [u8; 32],
        merkle_root: [u8; 32],
    ) -> (r: Result<(), AirdropError>)
        requires
            old(self).wf(),
        ensures
            final(self).wf(),
            spec_admin_gate(old(self).rounds@, phase, mint, caller) matches Err(e) ==> r == Err::<
                (),
                AirdropError,
            >(e) && *final(self) == *old(self),
            spec_admin_gate(old(self).rounds@, phase, mint, caller) is Ok ==> r == Ok::<
                (),
                AirdropError,
            >(()) && final(self).claims@ == old(self).claims@ && final(self).rounds@ == old(self).rounds@.update(
                spec_round_index(old(self).rounds@, phase, mint@),
                with_root(
                    old(self).rounds@[spec_round_index(old(self).rounds@, phase, mint@)],
                    merkle_root,
                ),
            ),
    {
        let idx = self.find_round(phase, &mint);
        if idx == self.rounds.len() {
            return Err(AirdropError::RoundMissing);
        }
        let entry = self.rounds[idx];
        if !bytes_eq(entry.record.admin.as_slice(), caller.as_slice()) {
            return Err(AirdropError::Code(ErrorCode::InvalidAdmin));
        }
        let mut updated = entry;
        updated.record.merkle_root = merkle_root;
        let ghost r0 = self.rounds@;
        self.rounds[idx] = updated;
        proof {
            assert forall|i: int, j: int| 0 <= i < j < self.rounds@.len() implies !same_round_key(
                #[trigger] self.rounds@[i],
                #[trigger] self.rounds@[j],
            ) by {
                assert(same_round_key(self.rounds@[i], r0[i]));
                assert(same_round_key(self.rounds@[j], r0[j]));
            }
        }
        Ok(())
    }

    /// Sets the pause flag for (round, token); only the stored admin may do
    /// so. While paused, every subsequent claim attempt fails.
    pub fn update_airdrop_pause(
        &mut self,
        phase: u8,
        mint: [u8; 32],
        caller: [u8; 32],
        paused: bool,
    ) -> (r: Result<(), AirdropError>)
        requires
            old(self).wf(),
        ensures
            final(self).wf(),
            spec_admin_gate(old(self).rounds@, phase, mint, caller) matches Err(e) ==> r == Err::<
                (),
                AirdropError,
            >(e) && *final(self) == *old(self),
            spec_admin_gate(old(self).rounds@, phase, mint, caller) is Ok ==> r == Ok::<
                (),
                AirdropError,
            >(()) && final(self).claims@ == old(self).claims@ && final(self).rounds@ == old(self).rounds@.update(
                spec_round_index(old(self).rounds@, phase, mint@),
                with_paused(
                    old(self).rounds@[spec_round_index(old(self).rounds@, phase, mint@)],
                    paused,
                ),
            ),
    {
        let idx = self.find_round(phase, &mint);
        if idx == self.rounds.len() {
            return Err(AirdropError::RoundMissing);
        }
        let entry = self.rounds[idx];
        if !bytes_eq(entry.record.admin.as_slice(), caller.as_slice()) {
            return Err(AirdropError::Code(ErrorCode::InvalidAdmin));
        }
        let mut updated = entry;
        updated.record.paused = paused;
        let ghost r0 = self.rounds@;
        self.rounds[idx] = updated;
        proof {
            assert forall|i: int, j: int| 0 <= i < j < self.rounds@.len() implies !same_round_key(
                #[trigger] self.rounds@[i],
                #[trigger] self.rounds@[j],
            ) by {
                assert(same_round_key(self.rounds@[i], r0[i]));
                assert(same_round_key(self.rounds@[j], r0[j]));
            }
        }
        Ok(())
    }

    /// Direct claim: the caller proves its own leaf and the marker is keyed
    /// by the caller; funds are directed to `receiver`. The vault balance
    /// must be read fresh by the host immediately before this call.
    pub fn claim_airdrop(
        &mut self,
        phase: u8,
        mint: [u8; 32],
        signer: [u8; 32],
        receiver: [u8; 32],
        amount: u64,
        proof_bytes: Vec<u8>,
        vault_balance: u64,
        record_bump: u8,
    ) -> (r: Result<Transfer, AirdropError>)
        requires
            old(self).wf(),
        ensures
            final(self).wf(),
            r == spec_direct_claim(
                old(self).rounds@,
                old(self).claims@,
                phase,
                mint,
                signer,
                receiver,
                amount,
                proof_bytes@,
                vault_balance,
            ),
            r matches Err(_) ==> *final(self) == *old(self),
            r matches Ok(_) ==> final(self).rounds@ == old(self).rounds@ && final(self).claims@.len() == old(self).claims@.len() + 1 && final(self).claims@.subrange(
                0,
                old(self).claims@.len() as int,
            ) == old(self).claims@ && claim_key_matches(
                final(self).claims@.last(),
                phase,
                signer@,
                mint@,
            ) && final(self).claims@.last().record.bump == record_bump,
    {
        if amount == 0 {
            return Err(AirdropError::Code(ErrorCode::InvalidAmount));
        }
        let idx = self.find_round(phase, &mint);
        if idx == self.rounds.len() {
            return Err(AirdropError::RoundMissing);
        }
        let rec = self.rounds[idx].record;
        if rec.paused {
            return Err(AirdropError::Code(ErrorCode::AirdropHasPaused));
        }
        let leaf = proof_data(phase, signer, amount);
        if !verify_merkle_proof(rec.merkle_root, leaf, proof_bytes) {
            return Err(AirdropError::Code(ErrorCode::InvalidMerkleProof));
        }
        if vault_balance < amount {
            return Err(AirdropError::Code(ErrorCode::InsufficientBalance));
        }
        if self.has_claimed(phase, signer, mint) {
            return Err(AirdropError::AlreadyClaimed);
        }
        let ghost c0 = self.claims@;
        self.claims.push(
            ClaimEntry { phase, owner: signer, mint, record: ClaimRecord { bump: record_bump } },
        );
        proof {
            assert(self.claims@.subrange(0, c0.len() as int) =~= c0);
            assert forall|i: int, j: int| 0 <= i < j < self.claims@.len() implies !same_claim_key(
                #[trigger] self.claims@[i],
                #[trigger] self.claims@[j],
            ) by {
                if j < c0.len() {
                    assert(self.claims@[i] == c0[i]);
                    assert(self.claims@[j] == c0[j]);
                } else {
                    assert(self.claims@[i] == c0[i]);
                    assert(!claim_key_matches(c0[i], phase, signer@, mint@));
                }
            }
        }
        Ok(Transfer { phase, mint, to: receiver, amount })
    }

    /// Delegated claim: a relayer redeems the delegation owner's leaf under
    /// an off-chain authorization that has not expired and was validated by
    /// the host's signature facility. The marker is keyed by the delegation
    /// owner; funds are directed to the relaying caller.
    pub fn claim_airdrop_with_receiver(
        &mut self,
        phase: u8,
        mint: [u8; 32],
        proof_owner: [u8; 32],
        receiver: [u8; 32],
        amount: u64,
        proof_bytes: Vec<u8>,
        expire_at: i64,
        signature: [u8; 64],
        artifact: Option<&SigArtifact>,
        now: i64,
        vault_balance: u64,
        record_bump: u8,
    ) -> (r: Result<Transfer, AirdropError>)
        requires
            old(self).wf(),
        ensures
            final(self).wf(),
            r == spec_delegated_claim(
                old(self).rounds@,
                old(self).claims@,
                phase,
                mint,
                proof_owner,
                receiver,
                amount,
                proof_bytes@,
                expire_at,
                signature,
                artifact_of(artifact),
                now,
                vault_balance,
            ),
            r matches Err(_) ==> *final(self) == *old(self),
            r matches Ok(_) ==> final(self).rounds@ == old(self).rounds@ && final(self).claims@.len() == old(self).claims@.len() + 1 && final(self).claims@.subrange(
                0,
                old(self).claims@.len() as int,
            ) == old(self).claims@ && claim_key_matches(
                final(self).claims@.last(),
                phase,
                proof_owner@,
                mint@,
            ) && final(self).claims@.last().record.bump == record_bump,
    {
        if amount == 0 {
            return Err(AirdropError::Code(ErrorCode::InvalidAmount));
        }
        let idx = self.find_round(phase, &mint);
        if idx == self.rounds.len() {
            return Err(AirdropError::RoundMissing);
        }
        let rec = self.rounds[idx].record;
        if rec.paused {
            return Err(AirdropError::Code(ErrorCode::AirdropHasPaused));
        }
        if expire_at <= now {
            return Err(AirdropError::Code(ErrorCode::SignatureExpire));
        }
        match artifact {
            None => {
                return Err(AirdropError::Code(ErrorCode::SigVerificationFailed));
            },
            Some(a) => {
                match verify_signature(proof_owner, &proof_bytes, receiver, expire_at, signature, a) {
                    Err(e) => {
                        return Err(AirdropError::Code(e));
                    },
                    Ok(_) => {},
                }
            },
        }
        let leaf = proof_data(phase, proof_owner, amount);
        if !verify_merkle_proof(rec.merkle_root, leaf, proof_bytes) {
            return Err(AirdropError::Code(ErrorCode::InvalidMerkleProof));
        }
        if vault_balance < amount {
            return Err(AirdropError::Code(ErrorCode::InsufficientBalance));
        }
        if self.has_claimed(phase, proof_owner, mint) {
            return Err(AirdropError::AlreadyClaimed);
        }
        let ghost c0 = self.claims@;
        self.claims.push(
            ClaimEntry { phase, owner: proof_owner, mint, record: ClaimRecord { bump: record_bump } },
        );
        proof {
            assert(self.claims@.subrange(0, c0.len() as int) =~= c0);
            assert forall|i: int, j: int| 0 <= i < j < self.claims@.len() implies !same_claim_key(
                #[trigger] self.claims@[i],
                #[trigger] self.claims@[j],
            ) by {
                if j < c0.len() {
                    assert(self.claims@[i] == c0[i]);
                    assert(self.claims@[j] == c0[j]);
                } else {
                    assert(self.claims@[i] == c0[i]);
                    assert(!claim_key_matches(c0[i], phase, proof_owner@, mint@));
                }
            }
        }
        Ok(Transfer { phase, mint, to: receiver, amount })
    }

    /// Sweeps the round's remaining vault balance to the admin: admin-only,
    /// fails on an empty vault, touches no Merkle or claim state.
    pub fn withdraw_unclaimed_tokens(
        &self,
        phase: u8,
        mint: [u8; 32],
        caller: [u8; 32],
        vault_balance: u64,
    ) -> (r: Result<Transfer, AirdropError>)
        ensures
            r == spec_withdraw(self.rounds@, phase, mint, caller, vault_balance),
    {
        let idx = self.find_round(phase, &mint);
        if idx == self.rounds.len() {
            return Err(AirdropError::RoundMissing);
        }
        let entry = self.rounds[idx];
        if !bytes_eq(entry.record.admin.as_slice(), caller.as_slice()) {
            return Err(AirdropError::Code(ErrorCode::InvalidAdmin));
        }
        if vault_balance == 0 {
            return Err(AirdropError::Code(ErrorCode::InvalidAmount));
        }
        Ok(Transfer { phase, mint, to: caller, amount: vault_balance })
    }
}

/// Replay protection: once a marker exists for (round, claim key, token),
/// a direct claim under that key never succeeds, and when every other
/// validation passes it fails precisely with the already-claimed rejection.
pub proof fn lemma_direct_claim_no_replay(
    rounds: Seq<RoundEntry>,
    claims: Seq<ClaimEntry>,
    phase: u8,
    mint: [u8; 32],
    signer: [u8; 32],
    receiver: [u8; 32],
    amount: u64,
    proof_bytes: Seq<u8>,
    vault_balance: u64,
)
    requires
        spec_has_claim(claims, phase, signer@, mint@),
    ensures
        spec_direct_claim(
            rounds,
            claims,
            phase,
            mint,
            signer,
            receiver,
            amount,
            proof_bytes,
            vault_balance,
        ) matches Err(_),
        amount > 0 && spec_has_round(rounds, phase, mint@) && !spec_round_at(
            rounds,
            phase,
            mint@,
        ).paused && spec_verify_merkle_proof(
            spec_round_at(rounds, phase, mint@).merkle_root@,
            spec_proof_data(phase, signer@, amount),
            proof_bytes,
        ) && vault_balance >= amount ==> spec_direct_claim(
            rounds,
            claims,
            phase,
            mint,
            signer,
            receiver,
            amount,
            proof_bytes,
            vault_balance,
        ) == Err::<Transfer, AirdropError>(AirdropError::AlreadyClaimed),
{
}

/// Replay protection for the delegated path, under the delegation owner's
/// key, regardless of who relays, what was signed, or when.
pub proof fn lemma_delegated_claim_no_replay(
    rounds: Seq<RoundEntry>,
    claims: Seq<ClaimEntry>,
    phase: u8,
    mint: [u8; 32],
    proof_owner: [u8; 32],
    receiver: [u8; 32],
    amount: u64,
    proof_bytes: Seq<u8>,
    expire_at: i64,
    signature: [u8; 64],
    artifact: Option<SigArtifact>,
    now: i64,
    vault_balance: u64,
)
    requires
        spec_has_claim(claims, phase, proof_owner@, mint@),
    ensures
        spec_delegated_claim(
            rounds,
            claims,
            phase,
            mint,
            proof_owner,
            receiver,
            amount,
            proof_bytes,
            expire_at,
            signature,
            artifact,
            now,
            vault_balance,
        ) matches Err(_),
{
}

/// An authorization whose expiry has passed is rejected with the expiry
/// error whatever the artifact and signature hold: the outcome never
/// depends on any signature check.
pub proof fn lemma_expired_authorization_rejected(
    rounds: Seq<RoundEntry>,
    claims: Seq<ClaimEntry>,
    phase: u8,
    mint: [u8; 32],
    proof_owner: [u8; 32],
    receiver: [u8; 32],
    amount: u64,
    proof_bytes: Seq<u8>,
    expire_at: i64,
    signature: [u8; 64],
    artifact: Option<SigArtifact>,
    now: i64,
    vault_balance: u64,
)
    requires
        amount > 0,
        spec_has_round(rounds, phase, mint@),
        !spec_round_at(rounds, phase, mint@).paused,
        expire_at <= now,
    ensures
        spec_delegated_claim(
            rounds,
            claims,
            phase,
            mint,
            proof_owner,
            receiver,
            amount,
            proof_bytes,
            expire_at,
            signature,
            artifact,
            now,
            vault_balance,
        ) == Err::<Transfer, AirdropError>(AirdropError::Code(ErrorCode::SignatureExpire)),
{
}

/// A paused round rejects every claim attempt, direct or delegated, with
/// the pause error. The admin gate of the registry mutations never reads
/// the pause flag, so admin operations are unaffected.
pub proof fn lemma_paused_round_rejects_claims(
    rounds: Seq<RoundEntry>,
    claims: Seq<ClaimEntry>,
    phase: u8,
    mint: [u8; 32],
    signer: [u8; 32],
    proof_owner: [u8; 32],
    receiver: [u8; 32],
    amount: u64,
    proof_bytes: Seq<u8>,
    expire_at: i64,
    signature: [u8; 64],
    artifact: Option<SigArtifact>,
    now: i64,
    vault_balance: u64,
)
    requires
        amount > 0,
        spec_has_round(rounds, phase, mint@),
        spec_round_at(rounds, phase, mint@).paused,
    ensures
        spec_direct_claim(
            rounds,
            claims,
            phase,
            mint,
            signer,
            receiver,
            amount,
            proof_bytes,
            vault_balance,
        ) == Err::<Transfer, AirdropError>(AirdropError::Code(ErrorCode::AirdropHasPaused)),
        spec_delegated_claim(
            rounds,
            claims,
            phase,
            mint,
            proof_owner,
            receiver,
            amount,
            proof_bytes,
            expire_at,
            signature,
            artifact,
            now,
            vault_balance,
        ) == Err::<Transfer, AirdropError>(AirdropError::Code(ErrorCode::AirdropHasPaused)),
{
}

/// Sweeping unclaimed funds fails on an empty vault; on a positive balance
/// the admin receives exactly the entire remaining balance.
pub proof fn lemma_withdraw_sweeps_entire_balance(
    rounds: Seq<RoundEntry>,
    phase: u8,
    mint: [u8; 32],
    caller: [u8; 32],
    vault_balance: u64,
)
    requires
        spec_has_round(rounds, phase, mint@),
        spec_round_at(rounds, phase, mint@).admin@ == caller@,
    ensures
        vault_balance == 0 ==> spec_withdraw(rounds, phase, mint, caller, vault_balance) == Err::<
            Transfer,
            AirdropError,
        >(AirdropError::Code(ErrorCode::InvalidAmount)),
        vault_balance > 0 ==> spec_withdraw(rounds, phase, mint, caller, vault_balance) == Ok::<
            Transfer,
            AirdropError,
        >((Transfer { phase, mint, to: caller, amount: vault_balance })),
{
}

} // verus!
