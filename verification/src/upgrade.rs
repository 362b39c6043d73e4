//! The scenarios of a permanent upgrade: straight through, interrupted at
//! every step in turn, and interrupted at random.

use crate::flash::{FlashState, SimFlash};
use crate::harness::{image_at, BootReport, Images, Resume, Step, StepModel, INTERRUPTED};
use crate::image::verify_image;
use crate::random::uniform;
use crate::trailer::mark_permanent_upgrade;
use vstd::prelude::*;

verus! {

impl Images {
    /// The first step of the basic upgrade: a boot that counts its flash
    /// operations down from zero.
    pub open spec fn basic_upgrade_begun(&self) -> StepModel {
        StepModel::Boot {
            flash: self.upgrade_start(),
            counter: Some(0),
            catch_asserts: false,
            resume: Resume::BasicUpgrade,
        }
    }

    /// The end of the basic upgrade: the number of flash operations, where
    /// slot 0 holds the upgrade.
    pub open spec fn basic_upgrade_resumed(&self, flash: FlashState, report: BootReport) -> StepModel {
        if image_at(flash, self.slot0.base_off, self.upgrade@) {
            StepModel::Counted { flash_ops: (-report.counter) as i32 }
        } else {
            StepModel::Done { failed: true }
        }
    }

    /// The attempt of `run_perm_with_fails` that is interrupted at `stop`,
    /// or the verdict where `stop` has reached the number of flash
    /// operations.
    pub open spec fn perm_attempt(&self, stop: i32, failed: bool) -> StepModel {
        if stop < self.total_count->0 {
            StepModel::Boot {
                flash: self.upgrade_start(),
                counter: Some(stop),
                catch_asserts: false,
                resume: Resume::PermWithFails { stop, resumed: false, failed },
            }
        } else {
            StepModel::Done { failed }
        }
    }

    /// What follows a boot of `run_perm_with_fails`: after an interrupted
    /// boot, a boot that completes the upgrade; after a completed upgrade,
    /// the checks and the next attempt.
    pub open spec fn perm_with_fails_resumed(
        &self,
        stop: i32,
        resumed: bool,
        failed: bool,
        flash: FlashState,
        report: BootReport,
    ) -> StepModel {
        if !resumed && report.result == INTERRUPTED {
            StepModel::Boot {
                flash,
                counter: Some(0),
                catch_asserts: false,
                resume: Resume::PermWithFails { stop, resumed: true, failed },
            }
        } else {
            self.perm_attempt((stop + 1) as i32, failed || !self.upgraded(flash))
        }
    }

    /// The number of flash operations of an upgrade attempt whose last boot
    /// ran to the end with `report`: what the counter went below zero, and,
    /// for an attempt that was interrupted at `stop` first, `stop` more.
    pub open spec fn attempt_ops(stop: i32, resumed: bool, report: BootReport) -> int {
        if resumed {
            stop - report.counter
        } else {
            -report.counter
        }
    }

    /// The next boot of an upgrade that is interrupted at random: one that
    /// stops after `stop` flash operations while interruptions are left,
    /// then one that runs to the end.
    pub open spec fn random_fails_next(
        flash: FlashState,
        left: usize,
        remaining: i32,
        stop: i32,
    ) -> StepModel {
        if left == 0 {
            StepModel::Boot {
                flash,
                counter: None,
                catch_asserts: false,
                resume: Resume::RandomFailsEnd,
            }
        } else {
            StepModel::Boot {
                flash,
                counter: Some(stop),
                catch_asserts: false,
                resume: Resume::RandomFails {
                    left: (left - 1) as usize,
                    remaining: (remaining - stop) as i32,
                },
            }
        }
    }

    /// A copy of the fixture's device with the image in slot 1 confirmed.
    pub fn start_upgrade(&self) -> (flash: SimFlash)
        requires
            self.wf(),
            self.can_confirm_upgrade(),
        ensures
            flash@ == self.upgrade_start(),
            self.same_device(flash@),
    {
        let mut flash = self.flash.clone();
        mark_permanent_upgrade(&mut flash, &self.slot1, self.align);
        flash
    }

    /// A simple upgrade without forced failures. It ends with the number of
    /// flash operations that it took, which the other scenarios need to
    /// interrupt an upgrade at chosen steps.
    pub fn run_basic_upgrade(&self) -> (step: Step)
        requires
            self.wf(),
            self.can_confirm_upgrade(),
        ensures
            step@ == self.basic_upgrade_begun(),
    {
        Step::Boot {
            flash: self.start_upgrade(),
            counter: Some(0),
            catch_asserts: false,
            resume: Resume::BasicUpgrade,
        }
    }

    /// Ends the basic upgrade after its boot, which must have run to the
    /// end.
    pub fn resume_basic_upgrade(&self, flash: SimFlash, report: BootReport) -> (step: Step)
        requires
            self.wf(),
            self.same_device(flash@),
            report.result == 0,
            report.counter > i32::MIN,
        ensures
            step@ == self.basic_upgrade_resumed(flash@, report),
    {
        let total_count = -report.counter;
        if !verify_image(&flash, self.slot0.base_off, self.upgrade.as_slice()) {
            Step::Done { failed: true }
        } else {
            Step::Counted { flash_ops: total_count }
        }
    }

    /// Starts the upgrade that is interrupted at `stop`, on a fresh copy of
    /// the fixture's device; where `stop` has reached the number of flash
    /// operations, ends the scenario with what it has found.
    pub fn try_upgrade(&self, stop: i32, failed: bool) -> (step: Step)
        requires
            self.wf(),
            self.can_confirm_upgrade(),
            self.total_count is Some,
        ensures
            step@ == self.perm_attempt(stop, failed),
    {
        let total_flash_ops = match self.total_count {
            Some(total) => total,
            None => 0,
        };
        if stop < total_flash_ops {
            Step::Boot {
                flash: self.start_upgrade(),
                counter: Some(stop),
                catch_asserts: false,
                resume: Resume::PermWithFails { stop, resumed: false, failed },
            }
        } else {
            Step::Done { failed }
        }
    }

    /// Upgrades once for every flash operation of an upgrade: interrupted at
    /// that operation, then resumed. After each upgrade both slots and both
    /// trailers must be as a permanent upgrade leaves them.
    pub fn run_perm_with_fails(&self) -> (step: Step)
        requires
            self.wf(),
            self.can_confirm_upgrade(),
            self.total_count is Some,
        ensures
            step@ == self.perm_attempt(1, false),
    {
        self.try_upgrade(1, false)
    }

    /// Goes on with `run_perm_with_fails` after a boot. The first boot of an
    /// attempt must have been interrupted or have run to the end, the second
    /// must have run to the end.
    pub fn resume_perm_with_fails(
        &self,
        stop: i32,
        resumed: bool,
        failed: bool,
        flash: SimFlash,
        report: BootReport,
    ) -> (step: Step)
        requires
            self.wf(),
            self.can_confirm_upgrade(),
            self.same_device(flash@),
            self.total_count is Some,
            stop < self.total_count->0,
            report.result == 0 || (!resumed && report.result == INTERRUPTED),
        ensures
            step@ == self.perm_with_fails_resumed(stop, resumed, failed, flash@, report),
    {
        if !resumed && report.result == INTERRUPTED {
            Step::Boot {
                flash,
                counter: Some(0),
                catch_asserts: false,
                resume: Resume::PermWithFails { stop, resumed: true, failed },
            }
        } else {
            let ok = self.check_upgraded(&flash);
            self.try_upgrade(stop + 1, failed || !ok)
        }
    }

    /// The number of flash operations that an upgrade attempt took, once its
    /// last boot has run to the end: for an attempt that was interrupted at
    /// `stop` and then resumed with the counter at zero, `stop` and what the
    /// second boot counted; for one that was not interrupted, what its boot
    /// counted. `None` where the number is no `i32`.
    pub fn attempt_count(stop: i32, resumed: bool, report: &BootReport) -> (count: Option<i32>)
        ensures
            match count {
                Some(n) => n == Self::attempt_ops(stop, resumed, *report),
                None => Self::attempt_ops(stop, resumed, *report) > i32::MAX || Self::attempt_ops(
                    stop,
                    resumed,
                    *report,
                ) < i32::MIN,
            },
    {
        let first: i32 = if resumed {
            stop
        } else {
            0
        };
        first.checked_sub(report.counter)
    }

    /// The next boot of an upgrade that is interrupted at random, for the
    /// stop that was drawn.
    pub fn next_random_fail(flash: SimFlash, left: usize, remaining: i32, stop: i32) -> (step: Step)
        requires
            left > 0 ==> 1 <= stop < remaining / 2,
        ensures
            step@ == Self::random_fails_next(flash@, left, remaining, stop),
    {
        if left == 0 {
            Step::Boot { flash, counter: None, catch_asserts: false, resume: Resume::RandomFailsEnd }
        } else {
            Step::Boot {
                flash,
                counter: Some(stop),
                catch_asserts: false,
                resume: Resume::RandomFails { left: left - 1, remaining: remaining - stop },
            }
        }
    }

    /// The next boot of an upgrade that is interrupted at random. While
    /// interruptions are left, the stop is drawn from 1 up to, not
    /// including, half of the operations that remain.
    pub fn try_random_fails(flash: SimFlash, left: usize, remaining: i32) -> (step: Step)
        requires
            left > 0 ==> remaining / 2 > 1,
        ensures
            left == 0 ==> step@ == Self::random_fails_next(flash@, left, remaining, 0),
            left > 0 ==> exists|stop: i32|
                1 <= stop < remaining / 2 && step@ == #[trigger] Self::random_fails_next(
                    flash@,
                    left,
                    remaining,
                    stop,
                ),
    {
        if left == 0 {
            Self::next_random_fail(flash, left, remaining, 0)
        } else {
            let stop = uniform(1, remaining / 2);
            Self::next_random_fail(flash, left, remaining, stop)
        }
    }

    /// Upgrades with `total_fails` interruptions at random steps, then lets
    /// the upgrade run to its end. Both slots and both trailers must then be
    /// as a permanent upgrade leaves them.
    pub fn run_perm_with_random_fails(&self, total_fails: usize) -> (step: Step)
        requires
            self.wf(),
            self.can_confirm_upgrade(),
            self.total_count is Some,
            total_fails > 0 ==> self.total_count->0 / 2 > 1,
        ensures
            total_fails == 0 ==> step@ == Self::random_fails_next(
                self.upgrade_start(),
                total_fails,
                self.total_count->0,
                0,
            ),
            total_fails > 0 ==> exists|stop: i32|
                1 <= stop < self.total_count->0 / 2 && step@ == #[trigger] Self::random_fails_next(
                    self.upgrade_start(),
                    total_fails,
                    self.total_count->0,
                    stop,
                ),
    {
        let total_flash_ops = match self.total_count {
            Some(total) => total,
            None => 0,
        };
        Self::try_random_fails(self.start_upgrade(), total_fails, total_flash_ops)
    }

    /// `run_perm_with_random_fails` with five interruptions.
    pub fn run_perm_with_random_fails_5(&self) -> (step: Step)
        requires
            self.wf(),
            self.can_confirm_upgrade(),
            self.total_count is Some,
            self.total_count->0 / 2 > 1,
        ensures
            exists|stop: i32|
                1 <= stop < self.total_count->0 / 2 && step@ == #[trigger] Self::random_fails_next(
                    self.upgrade_start(),
                    5,
                    self.total_count->0,
                    stop,
                ),
    {
        self.run_perm_with_random_fails(5)
    }

    /// Ends an upgrade that was interrupted at random, after the boot that
    /// ran to the end.
    pub fn resume_random_fails_end(&self, flash: SimFlash, report: BootReport) -> (step: Step)
        requires
            self.wf(),
            self.same_device(flash@),
            report.result == 0,
        ensures
            step@ == (StepModel::Done { failed: !self.upgraded(flash@) }),
    {
        let ok = self.check_upgraded(&flash);
        Step::Done { failed: !ok }
    }
}

} // verus!
