//! The scenarios in which an upgrade is, or is not, taken back: a test
//! upgrade that the bootloader reverts, an upgrade that is confirmed, and a
//! new image that leaves nothing to revert to.

use crate::flash::{FlashState, SimFlash};
use crate::harness::{image_at, BootReport, Images, Resume, Step, StepModel, INTERRUPTED};
use crate::image::verify_image;
use crate::trailer::{
    image_ok_bytes, mark_permanent_upgrade, mark_upgrade, takes_write, BOOT_MAGIC_SZ,
    BOOT_MAX_ALIGN, COPY_DONE, IMAGE_OK, MAGIC_UNSET, MAGIC_VALID, UNSET,
};
use vstd::prelude::*;

verus! {

impl Images {
    /// The bootloader under test can revert an upgrade.
    pub open spec fn can_revert(&self) -> bool {
        !self.caps.overwrite_only && self.caps.swap_upgrade
    }

    /// The run of `count` successive boots in `run_basic_revert`, or the
    /// verdict where `count` has reached 5.
    pub open spec fn basic_revert_attempt(&self, count: usize, failed: bool) -> StepModel {
        if count < 5 {
            StepModel::Boot {
                flash: self.flash@,
                counter: None,
                catch_asserts: false,
                resume: Resume::BasicRevert { count, boots: 0, failed },
            }
        } else {
            StepModel::Done { failed }
        }
    }

    /// The first step of `run_basic_revert`.
    pub open spec fn basic_revert_begun(&self) -> StepModel {
        if self.can_revert() {
            self.basic_revert_attempt(2, false)
        } else {
            StepModel::Done { failed: false }
        }
    }

    /// What follows a boot of `run_basic_revert`: the next boot of the run
    /// or, after the last, the check that slot 0 holds the primary image
    /// again, and the next run.
    pub open spec fn basic_revert_resumed(
        &self,
        count: usize,
        boots: usize,
        failed: bool,
        flash: FlashState,
    ) -> StepModel {
        if boots + 1 < count {
            StepModel::Boot {
                flash,
                counter: None,
                catch_asserts: false,
                resume: Resume::BasicRevert { count, boots: (boots + 1) as usize, failed },
            }
        } else {
            self.basic_revert_attempt(
                (count + 1) as usize,
                failed || !image_at(flash, self.slot0.base_off, self.primary@),
            )
        }
    }

    /// The state of a device after a test upgrade: the images swapped, the
    /// swap recorded in the trailer of slot 0 and not yet confirmed.
    pub open spec fn swapped(&self, flash: FlashState) -> bool {
        &&& image_at(flash, self.slot0.base_off, self.upgrade@)
        &&& image_at(flash, self.slot1.base_off, self.primary@)
        &&& self.trailer_ok(flash, self.slot0, Some(MAGIC_VALID@), Some(UNSET), Some(COPY_DONE))
        &&& self.trailer_ok(flash, self.slot1, Some(MAGIC_UNSET@), Some(UNSET), Some(UNSET))
    }

    /// The state of a device after a revert: the images back in their slots,
    /// the image in slot 0 confirmed.
    pub open spec fn reverted(&self, flash: FlashState) -> bool {
        &&& image_at(flash, self.slot0.base_off, self.primary@)
        &&& image_at(flash, self.slot1.base_off, self.upgrade@)
        &&& self.trailer_ok(
            flash,
            self.slot0,
            Some(MAGIC_VALID@),
            Some(IMAGE_OK),
            Some(COPY_DONE),
        )
        &&& self.trailer_ok(flash, self.slot1, Some(MAGIC_UNSET@), Some(UNSET), Some(UNSET))
    }

    /// The attempt of `run_revert_with_fails` that is interrupted at `stop`,
    /// or the verdict where `stop` has reached the last flash operation but
    /// one.
    pub open spec fn revert_attempt(&self, stop: i32, failed: bool) -> StepModel {
        if stop < self.total_count->0 - 1 {
            StepModel::Boot {
                flash: self.flash@,
                counter: Some(stop),
                catch_asserts: false,
                resume: Resume::RevertWithFails { stop, stage: 0, attempt_failed: false, failed },
            }
        } else {
            StepModel::Done { failed }
        }
    }

    /// The first step of `run_revert_with_fails`.
    pub open spec fn revert_with_fails_begun(&self) -> StepModel {
        if self.can_revert() {
            self.revert_attempt(1, false)
        } else {
            StepModel::Done { failed: false }
        }
    }

    /// What follows a boot of `run_revert_with_fails`. Stage 0 is the boot
    /// that must be interrupted, with `copy_done` still unset; stage 1 the
    /// boot that completes the upgrade, after which the images must be
    /// swapped; stage 2 the boot that must revert it.
    pub open spec fn revert_with_fails_resumed(
        &self,
        stop: i32,
        stage: u8,
        attempt_failed: bool,
        failed: bool,
        flash: FlashState,
        report: BootReport,
    ) -> StepModel {
        if stage == 0 {
            StepModel::Boot {
                flash,
                counter: None,
                catch_asserts: false,
                resume: Resume::RevertWithFails {
                    stop,
                    stage: 1,
                    attempt_failed: attempt_failed || report.result != INTERRUPTED
                        || !self.trailer_ok(flash, self.slot0, None, None, Some(UNSET)),
                    failed,
                },
            }
        } else if stage == 1 {
            StepModel::Boot {
                flash,
                counter: None,
                catch_asserts: false,
                resume: Resume::RevertWithFails {
                    stop,
                    stage: 2,
                    attempt_failed: attempt_failed || report.result != 0 || !self.swapped(flash),
                    failed,
                },
            }
        } else {
            self.revert_attempt(
                (stop + 1) as i32,
                failed || attempt_failed || report.result != 0 || !self.reverted(flash),
            )
        }
    }

    /// The device after the image in slot 0 has been confirmed.
    pub open spec fn confirmed(&self, flash: FlashState) -> FlashState {
        flash.written(self.slot0.trailer_off + BOOT_MAX_ALIGN, image_ok_bytes(self.align))
    }

    /// What follows a boot of `run_norevert`. After the first boot the
    /// upgrade must be in slot 0, recorded and not confirmed; then slot 0 is
    /// confirmed. After the second boot the upgrade must still be there.
    pub open spec fn norevert_resumed(
        &self,
        second: bool,
        failed: bool,
        flash: FlashState,
        report: BootReport,
    ) -> StepModel {
        if !second {
            StepModel::Boot {
                flash: self.confirmed(flash),
                counter: None,
                catch_asserts: false,
                resume: Resume::NoRevert {
                    second: true,
                    failed: failed || report.result != 0 || !image_at(
                        flash,
                        self.slot0.base_off,
                        self.upgrade@,
                    ) || !self.trailer_ok(
                        flash,
                        self.slot0,
                        Some(MAGIC_VALID@),
                        Some(UNSET),
                        Some(COPY_DONE),
                    ) || !self.trailer_ok(
                        flash,
                        self.slot1,
                        Some(MAGIC_UNSET@),
                        Some(UNSET),
                        Some(UNSET),
                    ) || !self.trailer_ok(
                        self.confirmed(flash),
                        self.slot0,
                        Some(MAGIC_VALID@),
                        Some(IMAGE_OK),
                        Some(COPY_DONE),
                    ),
                },
            }
        } else {
            StepModel::Done {
                failed: failed || report.result != 0 || !self.trailer_ok(
                    flash,
                    self.slot0,
                    Some(MAGIC_VALID@),
                    Some(IMAGE_OK),
                    Some(COPY_DONE),
                ) || !image_at(flash, self.slot0.base_off, self.upgrade@),
            }
        }
    }

    /// The first step of `run_norevert`.
    pub open spec fn norevert_begun(&self) -> StepModel {
        if self.caps.overwrite_only {
            StepModel::Done { failed: false }
        } else {
            StepModel::Boot {
                flash: self.flash@,
                counter: None,
                catch_asserts: false,
                resume: Resume::NoRevert { second: false, failed: false },
            }
        }
    }

    /// The fixture's device with slot 0 marked for upgrade.
    pub open spec fn new_image_start(&self) -> FlashState {
        self.flash@.written(self.slot0.trailer_off + 2 * BOOT_MAX_ALIGN, MAGIC_VALID@)
    }

    /// The first step of `run_norevert_newimage`.
    pub open spec fn norevert_newimage_begun(&self) -> StepModel {
        StepModel::Boot {
            flash: self.new_image_start(),
            counter: None,
            catch_asserts: false,
            resume: Resume::NoRevertNewImage {
                failed: !self.trailer_ok(
                    self.new_image_start(),
                    self.slot0,
                    Some(MAGIC_VALID@),
                    Some(UNSET),
                    Some(UNSET),
                ),
            },
        }
    }

    /// The state of a device on which a new image in slot 0 was left alone.
    pub open spec fn new_image_kept(&self, flash: FlashState) -> bool {
        &&& image_at(flash, self.slot0.base_off, self.primary@)
        &&& self.trailer_ok(flash, self.slot0, Some(MAGIC_VALID@), Some(UNSET), Some(UNSET))
        &&& self.trailer_ok(flash, self.slot1, Some(MAGIC_UNSET@), Some(UNSET), Some(UNSET))
    }

    /// Starts the run of `count` successive boots, on a fresh copy of the
    /// fixture's device; where `count` has reached 5, ends the scenario with
    /// what it has found.
    pub fn try_revert(&self, count: usize, failed: bool) -> (step: Step)
        requires
            self.wf(),
        ensures
            step@ == self.basic_revert_attempt(count, failed),
    {
        if count < 5 {
            Step::Boot {
                flash: self.flash.clone(),
                counter: None,
                catch_asserts: false,
                resume: Resume::BasicRevert { count, boots: 0, failed },
            }
        } else {
            Step::Done { failed }
        }
    }

    /// Boots a test upgrade two, three and four times in a row. Each time
    /// slot 0 must end with the primary image, since the upgrade was never
    /// confirmed. Nothing is run with a bootloader that cannot revert.
    pub fn run_basic_revert(&self) -> (step: Step)
        requires
            self.wf(),
        ensures
            step@ == self.basic_revert_begun(),
    {
        if !self.caps.overwrite_only && self.caps.swap_upgrade {
            self.try_revert(2, false)
        } else {
            Step::Done { failed: false }
        }
    }

    /// Goes on with `run_basic_revert` after a boot, which must have run to
    /// the end without an assertion.
    pub fn resume_basic_revert(
        &self,
        count: usize,
        boots: usize,
        failed: bool,
        flash: SimFlash,
        report: BootReport,
    ) -> (step: Step)
        requires
            self.wf(),
            self.same_device(flash@),
            boots < count < 5,
            report.result == 0,
            report.asserts == 0,
        ensures
            step@ == self.basic_revert_resumed(count, boots, failed, flash@),
    {
        if boots + 1 < count {
            Step::Boot {
                flash,
                counter: None,
                catch_asserts: false,
                resume: Resume::BasicRevert { count, boots: boots + 1, failed },
            }
        } else {
            let ok = verify_image(&flash, self.slot0.base_off, self.primary.as_slice());
            self.try_revert(count + 1, failed || !ok)
        }
    }

    /// Starts the test upgrade that is interrupted at `stop`, on a fresh copy
    /// of the fixture's device; where `stop` has reached the last flash
    /// operation but one, ends the scenario with what it has found.
    pub fn try_revert_with_fail_at(&self, stop: i32, failed: bool) -> (step: Step)
        requires
            self.wf(),
            self.total_count is Some,
            self.total_count->0 > i32::MIN,
        ensures
            step@ == self.revert_attempt(stop, failed),
    {
        let total_flash_ops = match self.total_count {
            Some(total) => total,
            None => 0,
        };
        if stop < total_flash_ops - 1 {
            Step::Boot {
                flash: self.flash.clone(),
                counter: Some(stop),
                catch_asserts: false,
                resume: Resume::RevertWithFails { stop, stage: 0, attempt_failed: false, failed },
            }
        } else {
            Step::Done { failed }
        }
    }

    /// Runs a test upgrade once for every flash operation but the last:
    /// interrupted at that operation, completed, and then reverted by one
    /// more boot. Nothing is run with a bootloader that cannot revert.
    pub fn run_revert_with_fails(&self) -> (step: Step)
        requires
            self.wf(),
            self.can_revert() ==> self.total_count is Some && self.total_count->0 > i32::MIN,
        ensures
            step@ == self.revert_with_fails_begun(),
    {
        if !self.caps.overwrite_only && self.caps.swap_upgrade {
            self.try_revert_with_fail_at(1, false)
        } else {
            Step::Done { failed: false }
        }
    }

    /// Whether `flash` holds a test upgrade that has been swapped in.
    pub fn check_swapped(&self, flash: &SimFlash) -> (ok: bool)
        requires
            self.wf(),
            self.same_device(flash@),
        ensures
            ok == self.swapped(flash@),
    {
        let valid = MAGIC_VALID;
        let unset = MAGIC_UNSET;
        let slot0_ok = verify_image(flash, self.slot0.base_off, self.upgrade.as_slice());
        let slot1_ok = verify_image(flash, self.slot1.base_off, self.primary.as_slice());
        let trailer0 = self.check_trailer(
            flash,
            &self.slot0,
            Some(valid.as_slice()),
            Some(UNSET),
            Some(COPY_DONE),
        );
        let trailer1 = self.check_trailer(
            flash,
            &self.slot1,
            Some(unset.as_slice()),
            Some(UNSET),
            Some(UNSET),
        );
        slot0_ok && slot1_ok && trailer0 && trailer1
    }

    /// Whether `flash` holds an upgrade that has been reverted.
    pub fn check_reverted(&self, flash: &SimFlash) -> (ok: bool)
        requires
            self.wf(),
            self.same_device(flash@),
        ensures
            ok == self.reverted(flash@),
    {
        let valid = MAGIC_VALID;
        let unset = MAGIC_UNSET;
        let slot0_ok = verify_image(flash, self.slot0.base_off, self.primary.as_slice());
        let slot1_ok = verify_image(flash, self.slot1.base_off, self.upgrade.as_slice());
        let trailer0 = self.check_trailer(
            flash,
            &self.slot0,
            Some(valid.as_slice()),
            Some(IMAGE_OK),
            Some(COPY_DONE),
        );
        let trailer1 = self.check_trailer(
            flash,
            &self.slot1,
            Some(unset.as_slice()),
            Some(UNSET),
            Some(UNSET),
        );
        slot0_ok && slot1_ok && trailer0 && trailer1
    }

    /// Goes on with `run_revert_with_fails` after a boot. No result of a
    /// boot stops the scenario: one that is not the expected one makes the
    /// attempt fail.
    pub fn resume_revert_with_fails(
        &self,
        stop: i32,
        stage: u8,
        attempt_failed: bool,
        failed: bool,
        flash: SimFlash,
        report: BootReport,
    ) -> (step: Step)
        requires
            self.wf(),
            self.same_device(flash@),
            self.total_count is Some,
            self.total_count->0 > i32::MIN,
            stop < self.total_count->0 - 1,
        ensures
            step@ == self.revert_with_fails_resumed(
                stop,
                stage,
                attempt_failed,
                failed,
                flash@,
                report,
            ),
    {
        if stage == 0 {
            let copy_done_unset = self.check_trailer(&flash, &self.slot0, None, None, Some(UNSET));
            Step::Boot {
                flash,
                counter: None,
                catch_asserts: false,
                resume: Resume::RevertWithFails {
                    stop,
                    stage: 1,
                    attempt_failed: attempt_failed || report.result != INTERRUPTED
                        || !copy_done_unset,
                    failed,
                },
            }
        } else if stage == 1 {
            let swapped = self.check_swapped(&flash);
            Step::Boot {
                flash,
                counter: None,
                catch_asserts: false,
                resume: Resume::RevertWithFails {
                    stop,
                    stage: 2,
                    attempt_failed: attempt_failed || report.result != 0 || !swapped,
                    failed,
                },
            }
        } else {
            let reverted = self.check_reverted(&flash);
            self.try_revert_with_fail_at(
                stop + 1,
                failed || attempt_failed || report.result != 0 || !reverted,
            )
        }
    }

    /// Upgrades, confirms the upgrade in slot 0, and boots again: the
    /// upgrade must stay. Nothing is run with a bootloader that only
    /// overwrites.
    pub fn run_norevert(&self) -> (step: Step)
        requires
            self.wf(),
        ensures
            step@ == self.norevert_begun(),
    {
        if self.caps.overwrite_only {
            Step::Done { failed: false }
        } else {
            Step::Boot {
                flash: self.flash.clone(),
                counter: None,
                catch_asserts: false,
                resume: Resume::NoRevert { second: false, failed: false },
            }
        }
    }

    /// Goes on with `run_norevert` after a boot. After the first boot the
    /// `image_ok` flag of slot 0 is written, so the device must take that
    /// write.
    pub fn resume_norevert(
        &self,
        second: bool,
        failed: bool,
        flash: SimFlash,
        report: BootReport,
    ) -> (step: Step)
        requires
            self.wf(),
            self.same_device(flash@),
            !second ==> takes_write(
                flash@,
                self.slot0.trailer_off + BOOT_MAX_ALIGN,
                self.align as int,
            ),
        ensures
            step@ == self.norevert_resumed(second, failed, flash@, report),
    {
        let valid = MAGIC_VALID;
        let unset = MAGIC_UNSET;
        let mut fl = flash;
        if !second {
            let mut bad = failed || report.result != 0;
            if !verify_image(&fl, self.slot0.base_off, self.upgrade.as_slice()) {
                bad = true;
            }
            if !self.check_trailer(
                &fl,
                &self.slot0,
                Some(valid.as_slice()),
                Some(UNSET),
                Some(COPY_DONE),
            ) {
                bad = true;
            }
            if !self.check_trailer(
                &fl,
                &self.slot1,
                Some(unset.as_slice()),
                Some(UNSET),
                Some(UNSET),
            ) {
                bad = true;
            }
            mark_permanent_upgrade(&mut fl, &self.slot0, self.align);
            if !self.check_trailer(
                &fl,
                &self.slot0,
                Some(valid.as_slice()),
                Some(IMAGE_OK),
                Some(COPY_DONE),
            ) {
                bad = true;
            }
            Step::Boot {
                flash: fl,
                counter: None,
                catch_asserts: false,
                resume: Resume::NoRevert { second: true, failed: bad },
            }
        } else {
            let mut bad = failed || report.result != 0;
            if !self.check_trailer(
                &fl,
                &self.slot0,
                Some(valid.as_slice()),
                Some(IMAGE_OK),
                Some(COPY_DONE),
            ) {
                bad = true;
            }
            if !verify_image(&fl, self.slot0.base_off, self.upgrade.as_slice()) {
                bad = true;
            }
            Step::Done { failed: bad }
        }
    }

    /// Boots a new image in slot 0 that is marked for upgrade while slot 1
    /// has no upgrade to offer: nothing may change.
    pub fn run_norevert_newimage(&self) -> (step: Step)
        requires
            self.wf(),
            takes_write(
                self.flash@,
                self.slot0.trailer_off + 2 * BOOT_MAX_ALIGN,
                BOOT_MAGIC_SZ as int,
            ),
        ensures
            step@ == self.norevert_newimage_begun(),
    {
        let valid = MAGIC_VALID;
        let mut fl = self.flash.clone();
        mark_upgrade(&mut fl, &self.slot0);
        let marked = self.check_trailer(
            &fl,
            &self.slot0,
            Some(valid.as_slice()),
            Some(UNSET),
            Some(UNSET),
        );
        Step::Boot {
            flash: fl,
            counter: None,
            catch_asserts: false,
            resume: Resume::NoRevertNewImage { failed: !marked },
        }
    }

    /// Ends `run_norevert_newimage` after its boot.
    pub fn resume_norevert_newimage(
        &self,
        failed: bool,
        flash: SimFlash,
        report: BootReport,
    ) -> (step: Step)
        requires
            self.wf(),
            self.same_device(flash@),
        ensures
            step@ == (StepModel::Done {
                failed: failed || report.result != 0 || !self.new_image_kept(flash@),
            }),
    {
        let valid = MAGIC_VALID;
        let unset = MAGIC_UNSET;
        let image_ok = verify_image(&flash, self.slot0.base_off, self.primary.as_slice());
        let trailer0 = self.check_trailer(
            &flash,
            &self.slot0,
            Some(valid.as_slice()),
            Some(UNSET),
            Some(UNSET),
        );
        let trailer1 = self.check_trailer(
            &flash,
            &self.slot1,
            Some(unset.as_slice()),
            Some(UNSET),
            Some(UNSET),
        );
        Step::Done { failed: failed || report.result != 0 || !image_ok || !trailer0 || !trailer1 }
    }
}

} // verus!
