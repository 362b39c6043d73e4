//! What a scenario comes to over several boots.

use crate::flash::FlashState;
use crate::harness::{BootReport, Images, Resume, StepModel, INTERRUPTED};
use vstd::prelude::*;

verus! {

/// What the harness sees of one boot: the device as the boot left it, and
/// the report.
pub ghost struct Seen {
    pub flash: FlashState,
    pub report: BootReport,
}

/// A boot that was interrupted and left the device as `flash`.
pub open spec fn interrupted(flash: FlashState) -> Seen {
    Seen { flash, report: BootReport { result: INTERRUPTED, asserts: 0, counter: 0 } }
}

/// A boot that ran to the end and left the device as `flash`.
pub open spec fn completed(flash: FlashState) -> Seen {
    Seen { flash, report: BootReport { result: 0, asserts: 0, counter: 0 } }
}

/// Some device of `ends` is not in the state that a permanent upgrade
/// leaves.
pub open spec fn some_not_upgraded(images: &Images, ends: Seq<FlashState>) -> bool {
    exists|i: int| 0 <= i < ends.len() && !images.upgraded(#[trigger] ends[i])
}

/// The boots of upgrades that are each interrupted once and then completed:
/// attempt `i` is left as `mids[i]` by the interrupted boot and as `ends[i]`
/// by the boot that completes it.
pub open spec fn interrupted_upgrades(mids: Seq<FlashState>, ends: Seq<FlashState>) -> Seq<Seen>
    decreases ends.len(),
{
    if ends.len() == 0 {
        Seq::empty()
    } else {
        seq![interrupted(mids[0]), completed(ends[0])] + interrupted_upgrades(
            mids.drop_first(),
            ends.drop_first(),
        )
    }
}

impl Images {
    /// The step that a scenario has reached from `step` once the boots of
    /// `seen` have been made, for a scenario that draws nothing at random.
    /// Boots that are left over when the scenario is done are not looked at.
    pub open spec fn after(&self, step: StepModel, seen: Seq<Seen>) -> StepModel
        decreases seen.len(),
    {
        if seen.len() == 0 {
            step
        } else {
            match step {
                StepModel::Boot { resume, .. } => self.after(
                    self.resumed(resume, seen[0].flash, seen[0].report, 0),
                    seen.drop_first(),
                ),
                _ => step,
            }
        }
    }
}

/// The rest of `run_perm_with_fails` from the attempt that stops at `stop`:
/// where every attempt is interrupted and then completed, the scenario ends
/// when the attempts are used up, and it fails if it had failed before or if
/// some attempt left the device in another state than a permanent upgrade
/// does.
pub proof fn lemma_perm_with_fails_from(
    images: &Images,
    stop: i32,
    failed: bool,
    mids: Seq<FlashState>,
    ends: Seq<FlashState>,
)
    requires
        images.total_count is Some,
        stop <= images.total_count->0,
        ends.len() == images.total_count->0 - stop,
        mids.len() == ends.len(),
    ensures
        images.after(images.perm_attempt(stop, failed), interrupted_upgrades(mids, ends)) == (
        StepModel::Done { failed: failed || some_not_upgraded(images, ends) }),
    decreases ends.len(),
{
    let trace = interrupted_upgrades(mids, ends);
    if ends.len() == 0 {
        assert(!some_not_upgraded(images, ends));
    } else {
        let rest = interrupted_upgrades(mids.drop_first(), ends.drop_first());
        let first = Resume::PermWithFails { stop, resumed: false, failed };
        let second = Resume::PermWithFails { stop, resumed: true, failed };
        let carried = failed || !images.upgraded(ends[0]);
        assert(trace[0] == interrupted(mids[0]));
        assert(trace.drop_first() =~= seq![completed(ends[0])] + rest);
        assert(trace.drop_first()[0] == completed(ends[0]));
        assert(trace.drop_first().drop_first() =~= rest);
        let step1 = images.resumed(first, mids[0], interrupted(mids[0]).report, 0);
        assert(step1 == (StepModel::Boot {
            flash: mids[0],
            counter: Some(0i32),
            catch_asserts: false,
            resume: second,
        }));
        let step2 = images.resumed(second, ends[0], completed(ends[0]).report, 0);
        assert(step2 == images.perm_attempt((stop + 1) as i32, carried));
        assert(images.after(images.perm_attempt(stop, failed), trace) == images.after(
            step1,
            trace.drop_first(),
        ));
        assert(images.after(step1, trace.drop_first()) == images.after(step2, rest));
        lemma_perm_with_fails_from(
            images,
            (stop + 1) as i32,
            carried,
            mids.drop_first(),
            ends.drop_first(),
        );
        let tail = ends.drop_first();
        if some_not_upgraded(images, tail) {
            let i = choose|i: int| 0 <= i < tail.len() && !images.upgraded(#[trigger] tail[i]);
            assert(ends[i + 1] == tail[i]);
        }
        if some_not_upgraded(images, ends) {
            let i = choose|i: int| 0 <= i < ends.len() && !images.upgraded(#[trigger] ends[i]);
            if i > 0 {
                assert(tail[i - 1] == ends[i]);
            }
        }
    }
}

/// `run_perm_with_fails`, with a bootloader that is interrupted in every
/// attempt and completes the upgrade when it is booted again, passes if and
/// only if every attempt leaves the device as a permanent upgrade does: with
/// the upgrade in slot 0.
pub proof fn law_perm_with_fails_verdict(
    images: &Images,
    mids: Seq<FlashState>,
    ends: Seq<FlashState>,
)
    requires
        images.total_count is Some,
        images.total_count->0 >= 1,
        ends.len() == images.total_count->0 - 1,
        mids.len() == ends.len(),
    ensures
        images.after(images.perm_attempt(1, false), interrupted_upgrades(mids, ends)) == (
        StepModel::Done { failed: some_not_upgraded(images, ends) }),
        !some_not_upgraded(images, ends) ==> forall|i: int|
            0 <= i < ends.len() ==> crate::harness::image_at(
                #[trigger] ends[i],
                images.slot0.base_off,
                images.upgrade@,
            ),
{
    lemma_perm_with_fails_from(images, 1, false, mids, ends);
    if !some_not_upgraded(images, ends) {
        assert forall|i: int| 0 <= i < ends.len() implies crate::harness::image_at(
            #[trigger] ends[i],
            images.slot0.base_off,
            images.upgrade@,
        ) by {
            assert(images.upgraded(ends[i]));
        }
    }
}

} // verus!
