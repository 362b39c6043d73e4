//! The scenarios in which something is wrong on purpose: an upgrade with a
//! bad signature, and writes to the status area that fail.

use crate::flash::{BadRegion, Flash, FlashState, SimFlash, RATE_HALF, RATE_ONE};
use crate::harness::{image_at, BootReport, Images, Resume, Step, StepModel};
use crate::image::verify_image;
use crate::trailer::{
    image_ok_bytes, lemma_write_elsewhere, mark_permanent_upgrade, mark_upgrade, takes_write,
    BOOT_MAGIC_SZ, BOOT_MAX_ALIGN, COPY_DONE, IMAGE_OK, MAGIC_VALID, UNSET,
};
use vstd::prelude::*;

verus! {

/// The size of the part of a slot's whole trailer that is not status area:
/// the magic and three flags.
pub const TRAILER_FIXED_SZ: usize = 40;

impl Images {
    /// The fixture's device with slot 0 marked for upgrade and confirmed,
    /// and slot 1 marked for upgrade.
    pub open spec fn signfail_start(&self) -> FlashState {
        self.flash@.written(self.slot0.trailer_off + 2 * BOOT_MAX_ALIGN, MAGIC_VALID@).written(
            self.slot0.trailer_off + BOOT_MAX_ALIGN,
            image_ok_bytes(self.align),
        ).written(self.slot1.trailer_off + 2 * BOOT_MAX_ALIGN, MAGIC_VALID@)
    }

    /// The fixture's device takes the three writes with which
    /// `run_signfail_upgrade` starts.
    pub open spec fn can_mark_both_slots(&self) -> bool {
        &&& takes_write(
            self.flash@,
            self.slot0.trailer_off + 2 * BOOT_MAX_ALIGN,
            BOOT_MAGIC_SZ as int,
        )
        &&& takes_write(self.flash@, self.slot0.trailer_off + BOOT_MAX_ALIGN, self.align as int)
        &&& takes_write(
            self.flash@,
            self.slot1.trailer_off + 2 * BOOT_MAX_ALIGN,
            BOOT_MAGIC_SZ as int,
        )
    }

    /// The first step of `run_signfail_upgrade`.
    pub open spec fn signfail_upgrade_begun(&self) -> StepModel {
        StepModel::Boot {
            flash: self.signfail_start(),
            counter: None,
            catch_asserts: false,
            resume: Resume::SignFailUpgrade {
                failed: !self.trailer_ok(
                    self.signfail_start(),
                    self.slot0,
                    Some(MAGIC_VALID@),
                    Some(IMAGE_OK),
                    Some(UNSET),
                ),
            },
        }
    }

    /// The state of a device on which a badly signed upgrade was refused:
    /// the primary image in slot 0, confirmed, and no swap recorded.
    pub open spec fn upgrade_refused(&self, flash: FlashState) -> bool {
        &&& image_at(flash, self.slot0.base_off, self.primary@)
        &&& self.trailer_ok(flash, self.slot0, Some(MAGIC_VALID@), Some(IMAGE_OK), Some(UNSET))
    }

    /// The fixture has a status area: the part of the whole trailer that
    /// ends where slot 1 begins in which the bootloader records the progress
    /// of a swap.
    pub open spec fn has_status_area(&self) -> bool {
        self.caps.trailer_sz >= TRAILER_FIXED_SZ && self.slot1.base_off >= self.caps.trailer_sz
    }

    /// Where the status area starts: the size of a whole trailer before the
    /// base of slot 1.
    pub open spec fn status_off(&self) -> usize {
        (self.slot1.base_off - self.caps.trailer_sz) as usize
    }

    /// The size of the status area: the whole trailer less the magic and
    /// the flags.
    pub open spec fn status_len(&self) -> usize {
        (self.caps.trailer_sz - TRAILER_FIXED_SZ) as usize
    }

    /// The device as an upgrade with failing status writes starts from it:
    /// the image in slot 1 confirmed, the status area a bad region.
    pub open spec fn status_fails_start(&self, rate: i32) -> FlashState {
        self.upgrade_start().with_bad_region(
            BadRegion { offset: self.status_off(), len: self.status_len(), rate },
        )
    }

    /// The scenarios with failing status writes can be started.
    pub open spec fn can_fail_status(&self) -> bool {
        self.can_confirm_upgrade() && self.has_status_area()
    }

    /// The first step of `run_with_status_fails_complete`.
    pub open spec fn status_fails_complete_begun(&self) -> StepModel {
        if self.caps.validate_slot0 && !self.caps.overwrite_only {
            StepModel::Boot {
                flash: self.status_fails_start(RATE_ONE),
                counter: None,
                catch_asserts: true,
                resume: Resume::StatusFailsComplete { second: false, failed: false },
            }
        } else {
            StepModel::Done { failed: false }
        }
    }

    /// What follows a boot of `run_with_status_fails_complete`. The first
    /// boot must complete the upgrade without an assertion; the second must
    /// run to the end.
    pub open spec fn status_fails_complete_resumed(
        &self,
        second: bool,
        failed: bool,
        flash: FlashState,
        report: BootReport,
    ) -> StepModel {
        if !second {
            StepModel::Boot {
                flash,
                counter: None,
                catch_asserts: false,
                resume: Resume::StatusFailsComplete {
                    second: true,
                    failed: failed || report.result != 0 || report.asserts != 0
                        || !self.trailer_ok(
                        flash,
                        self.slot0,
                        Some(MAGIC_VALID@),
                        Some(IMAGE_OK),
                        Some(COPY_DONE),
                    ) || !image_at(flash, self.slot0.base_off, self.upgrade@),
                },
            }
        } else {
            StepModel::Done { failed: failed || report.result != 0 }
        }
    }

    /// Half of the flash operations of an upgrade, rounded towards zero.
    pub open spec fn half_way(&self) -> i32 {
        let total = self.total_count->0;
        if total >= 0 {
            (total / 2) as i32
        } else {
            (-((-total) / 2)) as i32
        }
    }

    /// The first step of `run_with_status_fails_with_reset`.
    pub open spec fn status_fails_with_reset_begun(&self) -> StepModel {
        if self.caps.overwrite_only {
            StepModel::Done { failed: false }
        } else if self.caps.validate_slot0 {
            StepModel::Boot {
                flash: self.status_fails_start(RATE_HALF),
                counter: Some(self.half_way()),
                catch_asserts: true,
                resume: Resume::StatusFailsWithReset { second: false, failed: false },
            }
        } else {
            StepModel::Boot {
                flash: self.status_fails_start(RATE_ONE),
                counter: None,
                catch_asserts: true,
                resume: Resume::StatusFailsAssert,
            }
        }
    }

    /// The device without bad regions and with writes no longer verified.
    pub open spec fn healed(flash: FlashState) -> FlashState {
        FlashState { bad_regions: Seq::empty(), verify_writes: false, ..flash }
    }

    /// What follows a boot of `run_with_status_fails_with_reset`, with a
    /// bootloader that validates slot 0. The interrupted boot must not hit
    /// an assertion; then the bad region goes and the upgrade is resumed,
    /// with at most one assertion allowed.
    pub open spec fn status_fails_with_reset_resumed(
        second: bool,
        failed: bool,
        flash: FlashState,
        report: BootReport,
    ) -> StepModel {
        if !second {
            StepModel::Boot {
                flash: Self::healed(flash),
                counter: None,
                catch_asserts: true,
                resume: Resume::StatusFailsWithReset {
                    second: true,
                    failed: failed || report.asserts != 0,
                },
            }
        } else {
            StepModel::Done { failed: failed || report.asserts > 1 }
        }
    }

    /// Tries an upgrade whose signature is wrong: the bootloader must refuse
    /// it and leave the primary image where it is.
    pub fn run_signfail_upgrade(&self) -> (step: Step)
        requires
            self.wf(),
            self.can_mark_both_slots(),
        ensures
            step@ == self.signfail_upgrade_begun(),
    {
        let valid = MAGIC_VALID;
        let mut fl = self.flash.clone();
        proof {
            let magic0 = self.slot0.trailer_off + 2 * BOOT_MAX_ALIGN;
            let ok0 = self.slot0.trailer_off + BOOT_MAX_ALIGN;
            let magic1 = self.slot1.trailer_off + 2 * BOOT_MAX_ALIGN;
            lemma_write_elsewhere(self.flash@, magic0, MAGIC_VALID@, ok0, self.align as int);
            lemma_write_elsewhere(self.flash@, magic0, MAGIC_VALID@, magic1, BOOT_MAGIC_SZ as int);
            lemma_write_elsewhere(
                self.flash@.written(magic0, MAGIC_VALID@),
                ok0,
                image_ok_bytes(self.align),
                magic1,
                BOOT_MAGIC_SZ as int,
            );
        }
        mark_upgrade(&mut fl, &self.slot0);
        mark_permanent_upgrade(&mut fl, &self.slot0, self.align);
        mark_upgrade(&mut fl, &self.slot1);
        let marked = self.check_trailer(
            &fl,
            &self.slot0,
            Some(valid.as_slice()),
            Some(IMAGE_OK),
            Some(UNSET),
        );
        Step::Boot {
            flash: fl,
            counter: None,
            catch_asserts: false,
            resume: Resume::SignFailUpgrade { failed: !marked },
        }
    }

    /// Ends `run_signfail_upgrade` after its boot.
    pub fn resume_signfail_upgrade(
        &self,
        failed: bool,
        flash: SimFlash,
        report: BootReport,
    ) -> (step: Step)
        requires
            self.wf(),
            self.same_device(flash@),
        ensures
            step@ == (StepModel::Done {
                failed: failed || report.result != 0 || !self.upgrade_refused(flash@),
            }),
    {
        let valid = MAGIC_VALID;
        let image_ok = verify_image(&flash, self.slot0.base_off, self.primary.as_slice());
        let trailer0 = self.check_trailer(
            &flash,
            &self.slot0,
            Some(valid.as_slice()),
            Some(IMAGE_OK),
            Some(UNSET),
        );
        Step::Done { failed: failed || report.result != 0 || !image_ok || !trailer0 }
    }

    /// The size of the whole trailer of a slot.
    pub fn trailer_sz(&self) -> (size: usize)
        ensures
            size == self.caps.trailer_sz,
    {
        self.caps.trailer_sz
    }

    /// The size of the status area.
    pub fn status_sz(&self) -> (size: usize)
        requires
            self.caps.trailer_sz >= TRAILER_FIXED_SZ,
        ensures
            size == self.status_len(),
    {
        self.trailer_sz() - (16 + 24)
    }

    /// A copy of the fixture's device with the image in slot 1 confirmed and
    /// the status area made a bad region with the given rate.
    fn start_status_fails(&self, rate: i32) -> (flash: SimFlash)
        requires
            self.wf(),
            self.can_fail_status(),
            0 <= rate <= RATE_ONE,
        ensures
            flash@ == self.status_fails_start(rate),
            self.same_device(flash@),
    {
        let mut fl = self.start_upgrade();
        let status_off = self.slot1.base_off - self.trailer_sz();
        let _ = fl.add_bad_region(status_off, self.status_sz(), rate);
        fl
    }

    /// Upgrades while every write to the status area fails. A bootloader
    /// that validates slot 0 must complete the upgrade all the same, without
    /// an assertion, and must boot once more after it. Nothing is run with
    /// another bootloader.
    pub fn run_with_status_fails_complete(&self) -> (step: Step)
        requires
            self.wf(),
            self.caps.validate_slot0 && !self.caps.overwrite_only ==> self.can_fail_status(),
        ensures
            step@ == self.status_fails_complete_begun(),
    {
        if self.caps.validate_slot0 && !self.caps.overwrite_only {
            Step::Boot {
                flash: self.start_status_fails(RATE_ONE),
                counter: None,
                catch_asserts: true,
                resume: Resume::StatusFailsComplete { second: false, failed: false },
            }
        } else {
            Step::Done { failed: false }
        }
    }

    /// Goes on with `run_with_status_fails_complete` after a boot.
    pub fn resume_status_fails_complete(
        &self,
        second: bool,
        failed: bool,
        flash: SimFlash,
        report: BootReport,
    ) -> (step: Step)
        requires
            self.wf(),
            self.same_device(flash@),
        ensures
            step@ == self.status_fails_complete_resumed(second, failed, flash@, report),
    {
        if !second {
            let valid = MAGIC_VALID;
            let trailer0 = self.check_trailer(
                &flash,
                &self.slot0,
                Some(valid.as_slice()),
                Some(IMAGE_OK),
                Some(COPY_DONE),
            );
            let image_ok = verify_image(&flash, self.slot0.base_off, self.upgrade.as_slice());
            Step::Boot {
                flash,
                counter: None,
                catch_asserts: false,
                resume: Resume::StatusFailsComplete {
                    second: true,
                    failed: failed || report.result != 0 || report.asserts != 0 || !trailer0
                        || !image_ok,
                },
            }
        } else {
            Step::Done { failed: failed || report.result != 0 }
        }
    }

    /// Upgrades while writes to the status area fail. With a bootloader that
    /// validates slot 0, half of the writes fail and the upgrade is
    /// interrupted half way; it is then resumed on a device without bad
    /// regions and without the check for writes to unerased bytes, and may
    /// hit one assertion at most. With another bootloader every status write
    /// fails, and the bootloader is expected to hit an assertion. Nothing is
    /// run with a bootloader that only overwrites.
    pub fn run_with_status_fails_with_reset(&self) -> (step: Step)
        requires
            self.wf(),
            !self.caps.overwrite_only ==> self.can_fail_status(),
            !self.caps.overwrite_only && self.caps.validate_slot0 ==> self.total_count is Some,
        ensures
            step@ == self.status_fails_with_reset_begun(),
    {
        if self.caps.overwrite_only {
            Step::Done { failed: false }
        } else if self.caps.validate_slot0 {
            let total = match self.total_count {
                Some(total) => total,
                None => 0,
            };
            let count = total / 2;
            Step::Boot {
                flash: self.start_status_fails(RATE_HALF),
                counter: Some(count),
                catch_asserts: true,
                resume: Resume::StatusFailsWithReset { second: false, failed: false },
            }
        } else {
            Step::Boot {
                flash: self.start_status_fails(RATE_ONE),
                counter: None,
                catch_asserts: true,
                resume: Resume::StatusFailsAssert,
            }
        }
    }

    /// Goes on with `run_with_status_fails_with_reset` after a boot, with a
    /// bootloader that validates slot 0.
    pub fn resume_status_fails_with_reset(
        second: bool,
        failed: bool,
        flash: SimFlash,
        report: BootReport,
    ) -> (step: Step)
        requires
            flash@.wf(),
        ensures
            step@ == Self::status_fails_with_reset_resumed(second, failed, flash@, report),
    {
        if !second {
            let mut fl = flash;
            fl.reset_bad_regions();
            fl.set_verify_writes(false);
            Step::Boot {
                flash: fl,
                counter: None,
                catch_asserts: true,
                resume: Resume::StatusFailsWithReset {
                    second: true,
                    failed: failed || report.asserts != 0,
                },
            }
        } else {
            Step::Done { failed: failed || report.asserts > 1 }
        }
    }

    /// Ends `run_with_status_fails_with_reset` after its boot, with a
    /// bootloader that does not validate slot 0: it must have hit an
    /// assertion.
    pub fn resume_status_fails_assert(report: BootReport) -> (step: Step)
        ensures
            step@ == (StepModel::Done { failed: report.asserts == 0 }),
    {
        Step::Done { failed: report.asserts == 0 }
    }
}

} // verus!
