use vstd::prelude::*;

use crate::bucket::{BucketSet, Category};
use crate::error::Error;
use crate::pool::{assert_solvent, solvency_outcome, ZakatPool};

verus! {

/// Where a contribution stands: which answer from the host it waits for, or
/// how it ended.
#[derive(Clone, Copy, Debug, PartialEq, Eq)]
pub enum ContributeStage {
    AwaitAuth,
    AwaitPaused,
    AwaitApproval,
    AwaitTransfer,
    AwaitCredit,
    AwaitPublish,
    AwaitAudit,
    /// The entry point returns this result.
    Finished(Result<(), Error>),
    /// The entry point traps with this error, rolling the call back.
    Aborted(Error),
}

/// What the host reports back after performing the pending action.
#[derive(Clone, Copy, Debug, PartialEq, Eq)]
pub enum HostEvent {
    /// The donor authorized this call.
    Authorized,
    /// The stored pause flag, if one is stored.
    PausedFlag(Option<bool>),
    /// Whether the asset is on the stored list of approved assets.
    AssetApproval(bool),
    /// The token contract moved the amount from the donor to the pool.
    Transferred,
    /// The asset's buckets were updated in storage.
    Credited,
    /// The contribution event was published.
    Published,
    /// The asset's stored buckets and the balance the pool now holds of it.
    Audited(Option<BucketSet>, i128),
}

/// What the entry point asks the host to do next.
#[derive(Clone, Copy, Debug, PartialEq, Eq)]
pub enum HostAction {
    /// Require the donor's authorization of this call.
    RequireAuth,
    /// Read the pause flag from instance storage.
    ReadPaused,
    /// Look the asset up in the stored list of approved assets.
    CheckApproval,
    /// Transfer this amount of the asset from the donor to the pool.
    Transfer(i128),
    /// Credit this amount to this category of the asset's stored buckets
    /// (through `ZakatPool::credit`, in one read-modify-write).
    CreditBucket(Category, i128),
    /// Publish the contribution event with this amount and split.
    Publish(i128, BucketSet),
    /// Read the asset's stored buckets and the pool's balance of it.
    Audit,
    /// Return this result from the entry point.
    Return(Result<(), Error>),
    /// Trap with this error.
    Trap(Error),
}

/// A contribution in progress: the amount offered and its stage.
#[derive(Clone, Copy, Debug, PartialEq, Eq)]
pub struct ContributeFlow {
    pub amount: i128,
    pub stage: ContributeStage,
}

/// The action that a flow in this state has asked the host for (or, once it
/// has ended, its final action).
pub open spec fn pending(f: ContributeFlow) -> HostAction {
    match f.stage {
        ContributeStage::AwaitAuth => HostAction::RequireAuth,
        ContributeStage::AwaitPaused => HostAction::ReadPaused,
        ContributeStage::AwaitApproval => HostAction::CheckApproval,
        ContributeStage::AwaitTransfer => HostAction::Transfer(f.amount),
        ContributeStage::AwaitCredit => HostAction::CreditBucket(Category::Fuqara, f.amount),
        ContributeStage::AwaitPublish => HostAction::Publish(f.amount, BucketSet::zero()),
        ContributeStage::AwaitAudit => HostAction::Audit,
        ContributeStage::Finished(r) => HostAction::Return(r),
        ContributeStage::Aborted(e) => HostAction::Trap(e),
    }
}

/// The action that ends a contribution once the audit has read `stored`
/// and `held`.
pub open spec fn audit_action(stored: Option<BucketSet>, held: i128) -> HostAction {
    match solvency_outcome(stored, held) {
        Ok(()) => HostAction::Return(Ok(())),
        Err(e) => HostAction::Trap(e),
    }
}

/// The stage that `ev` moves a flow to, or `None` when `ev` is not the
/// answer to the flow's pending action.
pub open spec fn next_stage(f: ContributeFlow, ev: HostEvent) -> Option<ContributeStage> {
    match (f.stage, ev) {
        (ContributeStage::AwaitAuth, HostEvent::Authorized) => Some(
            if f.amount <= 0 {
                ContributeStage::Finished(Err(Error::InvalidAmount))
            } else {
                ContributeStage::AwaitPaused
            },
        ),
        (ContributeStage::AwaitPaused, HostEvent::PausedFlag(p)) => Some(
            if p == Some(true) {
                ContributeStage::Finished(Err(Error::Paused))
            } else {
                ContributeStage::AwaitApproval
            },
        ),
        (ContributeStage::AwaitApproval, HostEvent::AssetApproval(ok)) => Some(
            if !ok {
                ContributeStage::Finished(Err(Error::AssetNotApproved))
            } else {
                ContributeStage::AwaitTransfer
            },
        ),
        (ContributeStage::AwaitTransfer, HostEvent::Transferred) => Some(
            ContributeStage::AwaitCredit,
        ),
        (ContributeStage::AwaitCredit, HostEvent::Credited) => Some(ContributeStage::AwaitPublish),
        (ContributeStage::AwaitPublish, HostEvent::Published) => Some(ContributeStage::AwaitAudit),
        (ContributeStage::AwaitAudit, HostEvent::Audited(stored, held)) => Some(
            match solvency_outcome(stored, held) {
                Ok(()) => ContributeStage::Finished(Ok(())),
                Err(e) => ContributeStage::Aborted(e),
            },
        ),
        _ => None,
    }
}

/// The actions that a flow yields when fed `evs` in order; events that do
/// not answer the pending action yield nothing.
pub open spec fn run(f: ContributeFlow, evs: Seq<HostEvent>) -> Seq<HostAction>
    decreases evs.len(),
{
    if evs.len() == 0 {
        Seq::empty()
    } else {
        match next_stage(f, evs[0]) {
            None => run(f, evs.drop_first()),
            Some(s) => {
                let g = ContributeFlow { amount: f.amount, stage: s };
                seq![pending(g)] + run(g, evs.drop_first())
            },
        }
    }
}

/// The host's answers to a contribution, in the order it asks for them.
pub open spec fn host_answers(
    paused: Option<bool>,
    approved: bool,
    stored: Option<BucketSet>,
    held: i128,
) -> Seq<HostEvent> {
    seq![
        HostEvent::Authorized,
        HostEvent::PausedFlag(paused),
        HostEvent::AssetApproval(approved),
        HostEvent::Transferred,
        HostEvent::Credited,
        HostEvent::Published,
        HostEvent::Audited(stored, held),
    ]
}

/// Everything a contribution of `amount` asks of the host, given the pause
/// flag, the asset's approval and what the final audit reads: the donor's
/// authorization first; then a refusal with `InvalidAmount` for a
/// non-positive amount, `Paused` while paused, `AssetNotApproved` for an
/// asset off the list; otherwise the transfer, the credit of the same amount
/// to the fuqara bucket, the event, and the solvency audit that decides the
/// end.
pub open spec fn contribution_trace(
    amount: i128,
    paused: Option<bool>,
    approved: bool,
    stored: Option<BucketSet>,
    held: i128,
) -> Seq<HostAction> {
    if amount <= 0 {
        seq![HostAction::RequireAuth, HostAction::Return(Err(Error::InvalidAmount))]
    } else if paused == Some(true) {
        seq![HostAction::RequireAuth, HostAction::ReadPaused, HostAction::Return(Err(Error::Paused))]
    } else if !approved {
        seq![
            HostAction::RequireAuth,
            HostAction::ReadPaused,
            HostAction::CheckApproval,
            HostAction::Return(Err(Error::AssetNotApproved)),
        ]
    } else {
        seq![
            HostAction::RequireAuth,
            HostAction::ReadPaused,
            HostAction::CheckApproval,
            HostAction::Transfer(amount),
            HostAction::CreditBucket(Category::Fuqara, amount),
            HostAction::Publish(amount, BucketSet::zero()),
            HostAction::Audit,
            audit_action(stored, held),
        ]
    }
}

/// A contribution fed the host's answers in order asks for exactly the
/// actions of `contribution_trace`: the checks come before any funds move,
/// a refused contribution moves nothing, and an accepted one books exactly
/// the amount transferred and ends as the solvency audit decides.
pub proof fn lemma_contribution_trace(
    amount: i128,
    paused: Option<bool>,
    approved: bool,
    stored: Option<BucketSet>,
    held: i128,
)
    ensures
        seq![HostAction::RequireAuth] + run(
            ContributeFlow { amount, stage: ContributeStage::AwaitAuth },
            host_answers(paused, approved, stored, held),
        ) == contribution_trace(amount, paused, approved, stored, held),
{
    reveal_with_fuel(run, 8);
    let evs = host_answers(paused, approved, stored, held);
    assert(evs.drop_first() =~= evs.subrange(1, 7));
    assert(evs.drop_first().drop_first() =~= evs.subrange(2, 7));
    assert(evs.subrange(2, 7).drop_first() =~= evs.subrange(3, 7));
    assert(evs.subrange(3, 7).drop_first() =~= evs.subrange(4, 7));
    assert(evs.subrange(4, 7).drop_first() =~= evs.subrange(5, 7));
    assert(evs.subrange(5, 7).drop_first() =~= evs.subrange(6, 7));
    assert(evs.subrange(6, 7).drop_first() =~= Seq::<HostEvent>::empty());
    assert(seq![HostAction::RequireAuth] + run(
        ContributeFlow { amount, stage: ContributeStage::AwaitAuth },
        evs,
    ) =~= contribution_trace(amount, paused, approved, stored, held));
}

/// Whether `a` asks for a token transfer.
pub open spec fn is_transfer(a: HostAction) -> bool {
    a is Transfer
}

/// Stages from which no transfer can be asked for any more.
pub open spec fn past_transfer(st: ContributeStage) -> bool {
    match st {
        ContributeStage::AwaitAuth | ContributeStage::AwaitPaused | ContributeStage::AwaitApproval => false,
        _ => true,
    }
}

/// Once a flow is past its transfer stage, it never asks for a transfer.
proof fn lemma_no_transfer_after(f: ContributeFlow, evs: Seq<HostEvent>)
    requires
        past_transfer(f.stage),
    ensures
        forall|i: int| 0 <= i < run(f, evs).len() ==> !is_transfer(#[trigger] run(f, evs)[i]),
    decreases evs.len(),
{
    if evs.len() > 0 {
        match next_stage(f, evs[0]) {
            None => {
                lemma_no_transfer_after(f, evs.drop_first());
                assert(run(f, evs) == run(f, evs.drop_first()));
            },
            Some(s) => {
                let g = ContributeFlow { amount: f.amount, stage: s };
                lemma_no_transfer_after(g, evs.drop_first());
                assert(run(f, evs) == seq![pending(g)] + run(g, evs.drop_first()));
                assert(!is_transfer(pending(g)));
                assert forall|i: int| 0 <= i < run(f, evs).len() implies !is_transfer(
                    #[trigger] run(f, evs)[i],
                ) by {
                    if i > 0 {
                        assert(run(f, evs)[i] == run(g, evs.drop_first())[i - 1]);
                    }
                }
            },
        }
    }
}

/// Generalisation of `lemma_transfer_gated` to the stages before the
/// transfer.
proof fn lemma_transfer_gated_from(f: ContributeFlow, evs: Seq<HostEvent>)
    requires
        !past_transfer(f.stage),
        f.stage is AwaitPaused || f.stage is AwaitApproval ==> f.amount > 0,
    ensures
        forall|i: int|
            0 <= i < run(f, evs).len() && is_transfer(#[trigger] run(f, evs)[i]) ==> {
                &&& run(f, evs)[i] == HostAction::Transfer(f.amount)
                &&& f.amount > 0
                &&& evs.contains(HostEvent::AssetApproval(true))
                &&& (f.stage is AwaitApproval || exists|p: Option<bool>|
                    p != Some(true) && evs.contains(HostEvent::PausedFlag(p)))
                &&& forall|j: int|
                    0 <= j < run(f, evs).len() && is_transfer(#[trigger] run(f, evs)[j]) ==> j == i
            },
    decreases evs.len(),
{
    if evs.len() > 0 {
        let rest = evs.drop_first();
        assert forall|x: HostEvent| rest.contains(x) implies evs.contains(x) by {
            let k = choose|k: int| 0 <= k < rest.len() && rest[k] == x;
            assert(evs[k + 1] == x);
        }
        match next_stage(f, evs[0]) {
            None => {
                lemma_transfer_gated_from(f, rest);
            },
            Some(s) => {
                let g = ContributeFlow { amount: f.amount, stage: s };
                let r = run(f, evs);
                assert(r == seq![pending(g)] + run(g, rest));
                if past_transfer(s) {
                    lemma_no_transfer_after(g, rest);
                    assert forall|i: int|
                        0 <= i < r.len() && is_transfer(#[trigger] r[i]) implies {
                        &&& r[i] == HostAction::Transfer(f.amount)
                        &&& f.amount > 0
                        &&& evs.contains(HostEvent::AssetApproval(true))
                        &&& (f.stage is AwaitApproval || exists|p: Option<bool>|
                            p != Some(true) && evs.contains(HostEvent::PausedFlag(p)))
                        &&& forall|j: int|
                            0 <= j < r.len() && is_transfer(#[trigger] r[j]) ==> j == i
                    } by {
                        if i > 0 {
                            assert(r[i] == run(g, rest)[i - 1]);
                        }
                        assert(s is AwaitTransfer);
                        assert(evs[0] == HostEvent::AssetApproval(true));
                        assert forall|j: int| 0 <= j < r.len() && is_transfer(#[trigger] r[j]) implies j == i by {
                            if j > 0 {
                                assert(r[j] == run(g, rest)[j - 1]);
                            }
                        }
                    }
                } else {
                    lemma_transfer_gated_from(g, rest);
                    assert forall|i: int|
                        0 <= i < r.len() && is_transfer(#[trigger] r[i]) implies {
                        &&& r[i] == HostAction::Transfer(f.amount)
                        &&& f.amount > 0
                        &&& evs.contains(HostEvent::AssetApproval(true))
                        &&& (f.stage is AwaitApproval || exists|p: Option<bool>|
                            p != Some(true) && evs.contains(HostEvent::PausedFlag(p)))
                        &&& forall|j: int|
                            0 <= j < r.len() && is_transfer(#[trigger] r[j]) ==> j == i
                    } by {
                        assert(i > 0);
                        assert(r[i] == run(g, rest)[i - 1]);
                        if g.stage is AwaitApproval && !(f.stage is AwaitApproval) {
                            let p = choose|p: Option<bool>| evs[0] == HostEvent::PausedFlag(p);
                            assert(evs[0] == HostEvent::PausedFlag(p));
                            assert(p != Some(true));
                            assert(evs.contains(HostEvent::PausedFlag(p)));
                        }
                        assert forall|j: int| 0 <= j < r.len() && is_transfer(#[trigger] r[j]) implies j == i by {
                            if j > 0 {
                                assert(r[j] == run(g, rest)[j - 1]);
                            }
                        }
                    }
                }
            },
        }
    }
}

/// Whatever the host answers, and in whatever order, a contribution asks
/// for at most one transfer; that transfer is of the contributed amount,
/// which is positive, and it comes only after the asset was reported
/// approved and the pool reported not paused.
pub proof fn lemma_transfer_gated(amount: i128, evs: Seq<HostEvent>, i: int)
    requires
        0 <= i < run(ContributeFlow { amount, stage: ContributeStage::AwaitAuth }, evs).len(),
        is_transfer(run(ContributeFlow { amount, stage: ContributeStage::AwaitAuth }, evs)[i]),
    ensures
        run(ContributeFlow { amount, stage: ContributeStage::AwaitAuth }, evs)[i]
            == HostAction::Transfer(amount),
        amount > 0,
        evs.contains(HostEvent::AssetApproval(true)),
        exists|p: Option<bool>| p != Some(true) && evs.contains(HostEvent::PausedFlag(p)),
        forall|j: int|
            0 <= j < run(ContributeFlow { amount, stage: ContributeStage::AwaitAuth }, evs).len()
                && is_transfer(
                #[trigger] run(ContributeFlow { amount, stage: ContributeStage::AwaitAuth }, evs)[j],
            ) ==> j == i,
{
    lemma_transfer_gated_from(ContributeFlow { amount, stage: ContributeStage::AwaitAuth }, evs);
}

impl ZakatPool {
    /// Begins a contribution of `amount`: the first thing asked of the host is
    /// the donor's authorization, before any check or any movement of funds.
    pub fn contribute(amount: i128) -> (r: (ContributeFlow, HostAction))
        ensures
            r.0.amount == amount,
            r.0.stage == ContributeStage::AwaitAuth,
            r.1 == HostAction::RequireAuth,
            r.1 == pending(r.0),
    {
        (ContributeFlow { amount, stage: ContributeStage::AwaitAuth }, HostAction::RequireAuth)
    }
}

impl ContributeFlow {
    /// Feeds the host's answer to the pending action. An event that does not
    /// answer it changes nothing and yields `None`; otherwise the flow moves
    /// to its next stage and yields the action that stage asks for.
    pub fn step(&mut self, ev: HostEvent) -> (a: Option<HostAction>)
        ensures
            match next_stage(*old(self), ev) {
                None => a == None::<HostAction> && *final(self) == *old(self),
                Some(s) => {
                    &&& *final(self) == ContributeFlow { amount: old(self).amount, stage: s }
                    &&& a == Some(pending(*final(self)))
                },
            },
    {
        let next: ContributeStage = match (self.stage, ev) {
            (ContributeStage::AwaitAuth, HostEvent::Authorized) => {
                if self.amount <= 0 {
                    ContributeStage::Finished(Err(Error::InvalidAmount))
                } else {
                    ContributeStage::AwaitPaused
                }
            },
            (ContributeStage::AwaitPaused, HostEvent::PausedFlag(p)) => {
                let paused = match p {
                    Some(b) => b,
                    None => false,
                };
                if paused {
                    ContributeStage::Finished(Err(Error::Paused))
                } else {
                    ContributeStage::AwaitApproval
                }
            },
            (ContributeStage::AwaitApproval, HostEvent::AssetApproval(ok)) => {
                if !ok {
                    ContributeStage::Finished(Err(Error::AssetNotApproved))
                } else {
                    ContributeStage::AwaitTransfer
                }
            },
            (ContributeStage::AwaitTransfer, HostEvent::Transferred) => ContributeStage::AwaitCredit,
            (ContributeStage::AwaitCredit, HostEvent::Credited) => ContributeStage::AwaitPublish,
            (ContributeStage::AwaitPublish, HostEvent::Published) => ContributeStage::AwaitAudit,
            (ContributeStage::AwaitAudit, HostEvent::Audited(stored, held)) => {
                match assert_solvent(&stored, held) {
                    Ok(()) => ContributeStage::Finished(Ok(())),
                    Err(e) => ContributeStage::Aborted(e),
                }
            },
            _ => {
                return None;
            },
        };
        self.stage = next;
        Some(self.action())
    }

    /// The action this flow has asked the host for.
    pub fn action(&self) -> (a: HostAction)
        ensures
            a == pending(*self),
    {
        match self.stage {
            ContributeStage::AwaitAuth => HostAction::RequireAuth,
            ContributeStage::AwaitPaused => HostAction::ReadPaused,
            ContributeStage::AwaitApproval => HostAction::CheckApproval,
            ContributeStage::AwaitTransfer => HostAction::Transfer(self.amount),
            ContributeStage::AwaitCredit => HostAction::CreditBucket(Category::Fuqara, self.amount),
            ContributeStage::AwaitPublish => HostAction::Publish(self.amount, BucketSet::default()),
            ContributeStage::AwaitAudit => HostAction::Audit,
            ContributeStage::Finished(r) => HostAction::Return(r),
            ContributeStage::Aborted(e) => HostAction::Trap(e),
        }
    }
}

} // verus!
