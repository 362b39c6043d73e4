//! Every scenario behind one pair of functions: `start` gives the first step
//! of a scenario, `resume` the step after a boot.

use crate::flash::{Flash, FlashState, SimFlash};
use crate::harness::{BootReport, Images, Resume, Step, StepModel, INTERRUPTED};
use crate::trailer::{can_take_write, takes_write, BOOT_MAGIC_SZ, BOOT_MAX_ALIGN};
use vstd::prelude::*;

verus! {

/// The scenarios of the harness.
#[derive(Debug, Clone, Copy)]
pub enum Scenario {
    /// `run_basic_upgrade`.
    BasicUpgrade,
    /// `run_basic_revert`.
    BasicRevert,
    /// `run_revert_with_fails`.
    RevertWithFails,
    /// `run_perm_with_fails`.
    PermWithFails,
    /// `run_perm_with_random_fails` with this many interruptions.
    PermWithRandomFails(usize),
    /// `run_norevert`.
    NoRevert,
    /// `run_norevert_newimage`.
    NoRevertNewImage,
    /// `run_signfail_upgrade`.
    SignFailUpgrade,
    /// `run_with_status_fails_complete`.
    StatusFailsComplete,
    /// `run_with_status_fails_with_reset`.
    StatusFailsWithReset,
}

/// The fixtures that a run builds.
#[derive(Debug, Clone, Copy, PartialEq, Eq, Structural)]
pub enum Fixture {
    /// An image in each slot, the one in slot 1 with a wrong signature.
    BadSlot1,
    /// An image in each slot, no slot marked.
    NoUpgrade,
    /// An image in each slot, slot 1 marked for upgrade, and the flash
    /// operations of an upgrade counted.
    Upgrade,
}

/// The scenarios of one run, each with the fixture that it is started on, in
/// the order in which they are run.
pub open spec fn plan() -> Seq<(Fixture, Scenario)> {
    seq![
        (Fixture::BadSlot1, Scenario::SignFailUpgrade),
        (Fixture::NoUpgrade, Scenario::NoRevertNewImage),
        (Fixture::Upgrade, Scenario::BasicRevert),
        (Fixture::Upgrade, Scenario::RevertWithFails),
        (Fixture::Upgrade, Scenario::PermWithFails),
        (Fixture::Upgrade, Scenario::PermWithRandomFails(5)),
        (Fixture::Upgrade, Scenario::NoRevert),
        (Fixture::Upgrade, Scenario::StatusFailsComplete),
        (Fixture::Upgrade, Scenario::StatusFailsWithReset),
    ]
}

/// The scenarios of one run, each with the fixture that it is started on, in
/// the order in which they are run.
pub fn run_plan() -> (scenarios: Vec<(Fixture, Scenario)>)
    ensures
        scenarios@ == plan(),
{
    let mut scenarios: Vec<(Fixture, Scenario)> = Vec::new();
    scenarios.push((Fixture::BadSlot1, Scenario::SignFailUpgrade));
    scenarios.push((Fixture::NoUpgrade, Scenario::NoRevertNewImage));
    scenarios.push((Fixture::Upgrade, Scenario::BasicRevert));
    scenarios.push((Fixture::Upgrade, Scenario::RevertWithFails));
    scenarios.push((Fixture::Upgrade, Scenario::PermWithFails));
    scenarios.push((Fixture::Upgrade, Scenario::PermWithRandomFails(5)));
    scenarios.push((Fixture::Upgrade, Scenario::NoRevert));
    scenarios.push((Fixture::Upgrade, Scenario::StatusFailsComplete));
    scenarios.push((Fixture::Upgrade, Scenario::StatusFailsWithReset));
    assert(scenarios@ =~= plan());
    scenarios
}

impl Images {
    /// The fixture is one on which the scenario can be started.
    pub open spec fn ready(&self, scenario: Scenario) -> bool {
        match scenario {
            Scenario::BasicUpgrade => self.can_confirm_upgrade(),
            Scenario::BasicRevert => true,
            Scenario::RevertWithFails => self.can_revert() ==> self.total_count is Some
                && self.total_count->0 > i32::MIN,
            Scenario::PermWithFails => self.can_confirm_upgrade() && self.total_count is Some,
            Scenario::PermWithRandomFails(total_fails) => {
                &&& self.can_confirm_upgrade()
                &&& self.total_count is Some
                &&& total_fails > 0 ==> self.total_count->0 / 2 > 1
            },
            Scenario::NoRevert => true,
            Scenario::NoRevertNewImage => takes_write(
                self.flash@,
                self.slot0.trailer_off + 2 * BOOT_MAX_ALIGN,
                BOOT_MAGIC_SZ as int,
            ),
            Scenario::SignFailUpgrade => self.can_mark_both_slots(),
            Scenario::StatusFailsComplete => self.caps.validate_slot0 && !self.caps.overwrite_only
                ==> self.can_fail_status(),
            Scenario::StatusFailsWithReset => {
                &&& !self.caps.overwrite_only ==> self.can_fail_status()
                &&& !self.caps.overwrite_only && self.caps.validate_slot0
                    ==> self.total_count is Some
            },
        }
    }

    /// The first step of a scenario. `stop` is the first stop of a scenario
    /// that draws its stops at random.
    pub open spec fn begun(&self, scenario: Scenario, stop: i32) -> StepModel {
        match scenario {
            Scenario::BasicUpgrade => self.basic_upgrade_begun(),
            Scenario::BasicRevert => self.basic_revert_begun(),
            Scenario::RevertWithFails => self.revert_with_fails_begun(),
            Scenario::PermWithFails => self.perm_attempt(1, false),
            Scenario::PermWithRandomFails(total_fails) => Self::random_fails_next(
                self.upgrade_start(),
                total_fails,
                self.total_count->0,
                stop,
            ),
            Scenario::NoRevert => self.norevert_begun(),
            Scenario::NoRevertNewImage => self.norevert_newimage_begun(),
            Scenario::SignFailUpgrade => self.signfail_upgrade_begun(),
            Scenario::StatusFailsComplete => self.status_fails_complete_begun(),
            Scenario::StatusFailsWithReset => self.status_fails_with_reset_begun(),
        }
    }

    /// The scenario draws its first stop at random.
    pub open spec fn draws_at_start(scenario: Scenario) -> bool {
        scenario matches Scenario::PermWithRandomFails(total_fails) && total_fails > 0
    }

    /// The report of a boot is one with which the scenario goes on: the
    /// device is still the fixture's, and the result is none at which the
    /// scenario gives up.
    pub open spec fn accepts(&self, resume: Resume, flash: FlashState, report: BootReport) -> bool {
        &&& self.same_device(flash)
        &&& match resume {
            Resume::BasicUpgrade => report.result == 0 && report.counter > i32::MIN,
            Resume::PermWithFails { stop, resumed, failed } => {
                &&& self.can_confirm_upgrade()
                &&& self.total_count is Some
                &&& stop < self.total_count->0
                &&& report.result == 0 || (!resumed && report.result == INTERRUPTED)
            },
            Resume::RandomFails { left, remaining } => {
                &&& report.result == 0 || report.result == INTERRUPTED
                &&& left > 0 ==> remaining / 2 > 1
            },
            Resume::RandomFailsEnd => report.result == 0,
            Resume::BasicRevert { count, boots, failed } => {
                &&& boots < count < 5
                &&& report.result == 0
                &&& report.asserts == 0
            },
            Resume::RevertWithFails { stop, stage, attempt_failed, failed } => {
                &&& self.total_count is Some
                &&& self.total_count->0 > i32::MIN
                &&& stop < self.total_count->0 - 1
            },
            Resume::NoRevert { second, failed } => !second ==> takes_write(
                flash,
                self.slot0.trailer_off + BOOT_MAX_ALIGN,
                self.align as int,
            ),
            _ => true,
        }
    }

    /// The step after a boot. `stop` is the next stop of a scenario that
    /// draws its stops at random.
    pub open spec fn resumed(
        &self,
        resume: Resume,
        flash: FlashState,
        report: BootReport,
        stop: i32,
    ) -> StepModel {
        match resume {
            Resume::BasicUpgrade => self.basic_upgrade_resumed(flash, report),
            Resume::PermWithFails { stop, resumed, failed } => self.perm_with_fails_resumed(
                stop,
                resumed,
                failed,
                flash,
                report,
            ),
            Resume::RandomFails { left, remaining } => Self::random_fails_next(
                flash,
                left,
                remaining,
                stop,
            ),
            Resume::RandomFailsEnd => StepModel::Done { failed: !self.upgraded(flash) },
            Resume::BasicRevert { count, boots, failed } => self.basic_revert_resumed(
                count,
                boots,
                failed,
                flash,
            ),
            Resume::RevertWithFails {
                stop,
                stage,
                attempt_failed,
                failed,
            } => self.revert_with_fails_resumed(stop, stage, attempt_failed, failed, flash, report),
            Resume::NoRevert { second, failed } => self.norevert_resumed(
                second,
                failed,
                flash,
                report,
            ),
            Resume::NoRevertNewImage { failed } => StepModel::Done {
                failed: failed || report.result != 0 || !self.new_image_kept(flash),
            },
            Resume::SignFailUpgrade { failed } => StepModel::Done {
                failed: failed || report.result != 0 || !self.upgrade_refused(flash),
            },
            Resume::StatusFailsComplete { second, failed } => self.status_fails_complete_resumed(
                second,
                failed,
                flash,
                report,
            ),
            Resume::StatusFailsWithReset {
                second,
                failed,
            } => Self::status_fails_with_reset_resumed(second, failed, flash, report),
            Resume::StatusFailsAssert => StepModel::Done { failed: report.asserts == 0 },
        }
    }

    /// The scenario draws its next stop at random.
    pub open spec fn draws(resume: Resume) -> bool {
        resume matches Resume::RandomFails { left, .. } && left > 0
    }

    /// Whether the fixture is one on which the scenario can be started.
    pub fn is_ready(&self, scenario: Scenario) -> (b: bool)
        requires
            self.wf(),
        ensures
            b == self.ready(scenario),
    {
        let confirm = can_take_write(
            &self.flash,
            self.slot1.trailer_off + BOOT_MAX_ALIGN,
            self.align as usize,
        );
        let status_area = self.caps.trailer_sz >= 40 && self.slot1.base_off
            >= self.caps.trailer_sz;
        let total = self.total_count;
        match scenario {
            Scenario::BasicUpgrade => confirm,
            Scenario::BasicRevert => true,
            Scenario::RevertWithFails => {
                if !self.caps.overwrite_only && self.caps.swap_upgrade {
                    match total {
                        Some(t) => t > i32::MIN,
                        None => false,
                    }
                } else {
                    true
                }
            },
            Scenario::PermWithFails => confirm && total.is_some(),
            Scenario::PermWithRandomFails(total_fails) => {
                match total {
                    Some(t) => confirm && (total_fails == 0 || t >= 4),
                    None => false,
                }
            },
            Scenario::NoRevert => true,
            Scenario::NoRevertNewImage => can_take_write(
                &self.flash,
                self.slot0.trailer_off + BOOT_MAX_ALIGN * 2,
                BOOT_MAGIC_SZ,
            ),
            Scenario::SignFailUpgrade => {
                can_take_write(
                    &self.flash,
                    self.slot0.trailer_off + BOOT_MAX_ALIGN * 2,
                    BOOT_MAGIC_SZ,
                ) && can_take_write(
                    &self.flash,
                    self.slot0.trailer_off + BOOT_MAX_ALIGN,
                    self.align as usize,
                ) && can_take_write(
                    &self.flash,
                    self.slot1.trailer_off + BOOT_MAX_ALIGN * 2,
                    BOOT_MAGIC_SZ,
                )
            },
            Scenario::StatusFailsComplete => {
                if self.caps.validate_slot0 && !self.caps.overwrite_only {
                    confirm && status_area
                } else {
                    true
                }
            },
            Scenario::StatusFailsWithReset => {
                if self.caps.overwrite_only {
                    true
                } else if self.caps.validate_slot0 {
                    confirm && status_area && total.is_some()
                } else {
                    confirm && status_area
                }
            },
        }
    }

    /// The first step of a scenario.
    pub fn start(&self, scenario: Scenario) -> (step: Step)
        requires
            self.wf(),
            self.ready(scenario),
        ensures
            !Self::draws_at_start(scenario) ==> step@ == self.begun(scenario, 0),
            Self::draws_at_start(scenario) ==> exists|stop: i32|
                1 <= stop < self.total_count->0 / 2 && step@ == #[trigger] self.begun(
                    scenario,
                    stop,
                ),
    {
        match scenario {
            Scenario::BasicUpgrade => self.run_basic_upgrade(),
            Scenario::BasicRevert => self.run_basic_revert(),
            Scenario::RevertWithFails => self.run_revert_with_fails(),
            Scenario::PermWithFails => self.run_perm_with_fails(),
            Scenario::PermWithRandomFails(total_fails) => {
                let step = self.run_perm_with_random_fails(total_fails);
                proof {
                    if total_fails > 0 {
                        let stop = choose|stop: i32|
                            1 <= stop < self.total_count->0 / 2 && step@
                                == #[trigger] Self::random_fails_next(
                                self.upgrade_start(),
                                total_fails,
                                self.total_count->0,
                                stop,
                            );
                        assert(step@ == self.begun(scenario, stop));
                    }
                }
                step
            },
            Scenario::NoRevert => self.run_norevert(),
            Scenario::NoRevertNewImage => self.run_norevert_newimage(),
            Scenario::SignFailUpgrade => self.run_signfail_upgrade(),
            Scenario::StatusFailsComplete => self.run_with_status_fails_complete(),
            Scenario::StatusFailsWithReset => self.run_with_status_fails_with_reset(),
        }
    }

    /// Whether the report of a boot is one with which the scenario goes on.
    /// Where it is not, the scenario has met something that it has no answer
    /// to, and the run is to be given up.
    pub fn accepts_report(
        &self,
        resume: &Resume,
        flash: &SimFlash,
        report: &BootReport,
    ) -> (b: bool)
        requires
            self.wf(),
            flash@.wf(),
        ensures
            b == self.accepts(*resume, flash@, *report),
    {
        if flash.device_size() != self.flash.device_size() || flash.align() != self.flash.align() {
            return false;
        }
        match *resume {
            Resume::BasicUpgrade => report.result == 0 && report.counter > i32::MIN,
            Resume::PermWithFails { stop, resumed, failed } => {
                let confirm = can_take_write(
                    &self.flash,
                    self.slot1.trailer_off + BOOT_MAX_ALIGN,
                    self.align as usize,
                );
                match self.total_count {
                    Some(total) => confirm && stop < total && (report.result == 0 || (!resumed
                        && report.result == INTERRUPTED)),
                    None => false,
                }
            },
            Resume::RandomFails { left, remaining } => {
                (report.result == 0 || report.result == INTERRUPTED) && (left == 0 || remaining
                    >= 4)
            },
            Resume::RandomFailsEnd => report.result == 0,
            Resume::BasicRevert { count, boots, failed } => {
                boots < count && count < 5 && report.result == 0 && report.asserts == 0
            },
            Resume::RevertWithFails { stop, stage, attempt_failed, failed } => {
                match self.total_count {
                    Some(total) => total > i32::MIN && stop < total - 1,
                    None => false,
                }
            },
            Resume::NoRevert { second, failed } => {
                second || can_take_write(
                    flash,
                    self.slot0.trailer_off + BOOT_MAX_ALIGN,
                    self.align as usize,
                )
            },
            _ => true,
        }
    }

    /// The step after a boot: the scenario is taken up where `resume` says,
    /// with the device as the boot left it and with what the bootloader
    /// reported.
    pub fn resume(&self, resume: Resume, flash: SimFlash, report: BootReport) -> (step: Step)
        requires
            self.wf(),
            self.accepts(resume, flash@, report),
        ensures
            !Self::draws(resume) ==> step@ == self.resumed(resume, flash@, report, 0),
            Self::draws(resume) ==> exists|stop: i32|
                1 <= stop < resume->RandomFails_remaining / 2 && step@ == #[trigger] self.resumed(
                    resume,
                    flash@,
                    report,
                    stop,
                ),
    {
        match resume {
            Resume::BasicUpgrade => self.resume_basic_upgrade(flash, report),
            Resume::PermWithFails { stop, resumed, failed } => self.resume_perm_with_fails(
                stop,
                resumed,
                failed,
                flash,
                report,
            ),
            Resume::RandomFails { left, remaining } => {
                let ghost before = flash@;
                let step = Self::try_random_fails(flash, left, remaining);
                proof {
                    if left > 0 {
                        let stop = choose|stop: i32|
                            1 <= stop < remaining / 2 && step@
                                == #[trigger] Self::random_fails_next(
                                before,
                                left,
                                remaining,
                                stop,
                            );
                        assert(step@ == self.resumed(resume, before, report, stop));
                    }
                }
                step
            },
            Resume::RandomFailsEnd => self.resume_random_fails_end(flash, report),
            Resume::BasicRevert { count, boots, failed } => self.resume_basic_revert(
                count,
                boots,
                failed,
                flash,
                report,
            ),
            Resume::RevertWithFails {
                stop,
                stage,
                attempt_failed,
                failed,
            } => self.resume_revert_with_fails(stop, stage, attempt_failed, failed, flash, report),
            Resume::NoRevert { second, failed } => self.resume_norevert(
                second,
                failed,
                flash,
                report,
            ),
            Resume::NoRevertNewImage { failed } => self.resume_norevert_newimage(
                failed,
                flash,
                report,
            ),
            Resume::SignFailUpgrade { failed } => self.resume_signfail_upgrade(
                failed,
                flash,
                report,
            ),
            Resume::StatusFailsComplete { second, failed } => self.resume_status_fails_complete(
                second,
                failed,
                flash,
                report,
            ),
            Resume::StatusFailsWithReset { second, failed } => Self::resume_status_fails_with_reset(
                second,
                failed,
                flash,
                report,
            ),
            Resume::StatusFailsAssert => Self::resume_status_fails_assert(report),
        }
    }
}

/// A scenario never forgets a failure: once it has found one, every later
/// step carries it, and the verdict is a failure.
pub proof fn law_failure_is_kept(
    images: &Images,
    resume: Resume,
    flash: FlashState,
    report: BootReport,
    stop: i32,
)
    requires
        resume.has_failed(),
    ensures
        match images.resumed(resume, flash, report, stop) {
            StepModel::Boot { resume: next, .. } => next.has_failed(),
            StepModel::Done { failed } => failed,
            StepModel::Counted { .. } => false,
        },
{
}

/// Every boot that a scenario asks for after a boot is a boot on the
/// fixture's device: valid, of the same size and with the same alignment.
pub proof fn law_boots_keep_the_device(
    images: &Images,
    resume: Resume,
    flash: FlashState,
    report: BootReport,
    stop: i32,
)
    requires
        images.wf(),
        images.accepts(resume, flash, report),
    ensures
        images.resumed(resume, flash, report, stop) matches StepModel::Boot { flash: next, .. }
            ==> images.same_device(next),
{
    lemma_written_keeps_device(
        images,
        images.flash@,
        images.slot1.trailer_off + BOOT_MAX_ALIGN,
        crate::trailer::image_ok_bytes(images.align),
    );
    lemma_written_keeps_device(
        images,
        flash,
        images.slot0.trailer_off + BOOT_MAX_ALIGN,
        crate::trailer::image_ok_bytes(images.align),
    );
    let healed = Images::healed(flash);
    assert(healed.wf()) by {
        assert(healed.bad_regions.len() == 0);
    }
}

/// The first boot of a scenario is a boot on the fixture's device.
pub proof fn law_first_boot_keeps_the_device(images: &Images, scenario: Scenario, stop: i32)
    requires
        images.wf(),
        images.ready(scenario),
    ensures
        images.begun(scenario, stop) matches StepModel::Boot { flash: next, .. }
            ==> images.same_device(next),
{
    let confirm = crate::trailer::image_ok_bytes(images.align);
    let magic0 = images.slot0.trailer_off + 2 * BOOT_MAX_ALIGN;
    let ok0 = images.slot0.trailer_off + BOOT_MAX_ALIGN;
    let magic1 = images.slot1.trailer_off + 2 * BOOT_MAX_ALIGN;
    let ok1 = images.slot1.trailer_off + BOOT_MAX_ALIGN;
    lemma_written_keeps_device(images, images.flash@, ok1, confirm);
    lemma_written_keeps_device(images, images.flash@, magic0, crate::trailer::MAGIC_VALID@);
    let first = images.flash@.written(magic0, crate::trailer::MAGIC_VALID@);
    lemma_written_keeps_device(images, first, ok0, confirm);
    lemma_written_keeps_device(
        images,
        first.written(ok0, confirm),
        magic1,
        crate::trailer::MAGIC_VALID@,
    );
    let started = images.upgrade_start();
    assert forall|rate: i32| 0 <= rate <= crate::flash::RATE_ONE implies (
    #[trigger] images.status_fails_start(rate)).wf() by {
        let bad = images.status_fails_start(rate);
        assert forall|k: int| 0 <= k < bad.bad_regions.len() implies (
        #[trigger] bad.bad_regions[k]).valid() by {
            if k < started.bad_regions.len() {
                assert(started.bad_regions[k].valid());
            }
        }
    }
    assert(images.same_device(images.status_fails_start(crate::flash::RATE_ONE)));
    assert(images.same_device(images.status_fails_start(crate::flash::RATE_HALF)));
}

/// A write leaves the device the fixture's device.
proof fn lemma_written_keeps_device(
    images: &Images,
    flash: FlashState,
    offset: int,
    payload: Seq<u8>,
)
    requires
        images.same_device(flash),
    ensures
        images.same_device(flash.written(offset, payload)),
{
    let after = flash.written(offset, payload);
    assert(after.bad_regions == flash.bad_regions);
}

} // verus!
