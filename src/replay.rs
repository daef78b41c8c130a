use vstd::prelude::*;

use crate::resolver::{same_key, Key};

verus! {

/// One account that a stored instruction refers to.
#[derive(Clone, Copy, Debug)]
pub struct AccountMeta {
    pub pubkey: Key,
    pub is_signer: bool,
    pub is_writable: bool,
}

/// A privileged operation kept in a proposal's bundle until it passes.
#[derive(Clone, Debug)]
pub struct StoredInstruction {
    pub program_id: Key,
    pub accounts: Vec<AccountMeta>,
    pub data: Vec<u8>,
}

/// The account, marked as a signer when it is the authority.
pub open spec fn authorized_meta(m: AccountMeta, authority: Key) -> AccountMeta {
    AccountMeta { is_signer: m.is_signer || m.pubkey == authority, ..m }
}

/// `r` is `ix` with every reference to `authority` marked as signed.
pub open spec fn is_authorized_copy(r: StoredInstruction, ix: StoredInstruction, authority: Key) -> bool {
    &&& r.program_id == ix.program_id
    &&& r.data@ == ix.data@
    &&& r.accounts@ == ix.accounts@.map_values(|m: AccountMeta| authorized_meta(m, authority))
}

/// Rewrites an instruction so that the authority's account references are
/// signed for by the authority.
pub fn authorize_instruction(ix: &StoredInstruction, authority: &Key) -> (r: StoredInstruction)
    ensures
        is_authorized_copy(r, *ix, *authority),
{
    let mut accounts: Vec<AccountMeta> = Vec::new();
    let mut i: usize = 0;
    while i < ix.accounts.len()
        invariant
            0 <= i <= ix.accounts@.len(),
            accounts@ == ix.accounts@.take(i as int).map_values(
                |m: AccountMeta| authorized_meta(m, *authority),
            ),
        decreases ix.accounts@.len() - i,
    {
        let m = ix.accounts[i];
        let signed = m.is_signer || same_key(&m.pubkey, authority);
        accounts.push(AccountMeta { pubkey: m.pubkey, is_signer: signed, is_writable: m.is_writable });
        i = i + 1;
        assert(accounts@ =~= ix.accounts@.take(i as int).map_values(
            |m: AccountMeta| authorized_meta(m, *authority),
        ));
    }
    assert(ix.accounts@.take(ix.accounts@.len() as int) =~= ix.accounts@);
    let mut data: Vec<u8> = Vec::new();
    let mut j: usize = 0;
    while j < ix.data.len()
        invariant
            0 <= j <= ix.data@.len(),
            data@ == ix.data@.take(j as int),
        decreases ix.data@.len() - j,
    {
        data.push(ix.data[j]);
        j = j + 1;
        assert(data@ =~= ix.data@.take(j as int));
    }
    assert(ix.data@.take(ix.data@.len() as int) =~= ix.data@);
    StoredInstruction { program_id: ix.program_id, accounts, data }
}

/// The bundle, in stored order, with every instruction authorized.
pub fn authorize_bundle(bundle: &Vec<StoredInstruction>, authority: &Key) -> (r: Vec<StoredInstruction>)
    ensures
        r@.len() == bundle@.len(),
        forall|i: int| 0 <= i < bundle@.len() ==> is_authorized_copy(#[trigger] r@[i], bundle@[i], *authority),
{
    let mut r: Vec<StoredInstruction> = Vec::new();
    let mut i: usize = 0;
    while i < bundle.len()
        invariant
            0 <= i <= bundle@.len(),
            r@.len() == i,
            forall|k: int| 0 <= k < i ==> is_authorized_copy(#[trigger] r@[k], bundle@[k], *authority),
        decreases bundle@.len() - i,
    {
        r.push(authorize_instruction(&bundle[i], authority));
        i = i + 1;
    }
    r
}

/// What to do next while a bundle is replayed.
#[derive(Clone, Copy, Debug, PartialEq, Eq, Structural)]
pub enum ReplayStep {
    /// Invoke the instruction at this position.
    Invoke(usize),
    /// Every instruction succeeded: keep the transition.
    Commit,
    /// An instruction failed: undo the whole finalization.
    Abort,
}

/// Decides the next step of a replay, given how many instructions of the
/// bundle have succeeded so far and whether the last one invoked failed.
/// Instructions run strictly in order; one failure aborts the whole replay.
pub fn next_replay_step(bundle_len: usize, succeeded: usize, last_failed: bool) -> (r: ReplayStep)
    requires
        succeeded <= bundle_len,
    ensures
        last_failed ==> r == ReplayStep::Abort,
        !last_failed && succeeded < bundle_len ==> r == ReplayStep::Invoke(succeeded),
        !last_failed && succeeded == bundle_len ==> r == ReplayStep::Commit,
{
    if last_failed {
        ReplayStep::Abort
    } else if succeeded < bundle_len {
        ReplayStep::Invoke(succeeded)
    } else {
        ReplayStep::Commit
    }
}

} // verus!
