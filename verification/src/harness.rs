//! The fixture of the upgrade tests and the protocol between a scenario and
//! whoever runs the bootloader for it.
//!
//! A scenario never calls the bootloader. It returns a `Step`: either a
//! request to boot, which hands out the flash, or its verdict. After a boot
//! the scenario is resumed with the flash and a `BootReport`.

use crate::area::AreaDesc;
use crate::device::is_valid_align;
use crate::flash::{FlashState, SimFlash};
use crate::trailer::{
    image_ok_bytes, magic_view, takes_write, trailer_matches, verify_trailer, SlotInfo,
    BOOT_MAX_ALIGN, COPY_DONE, IMAGE_OK, MAGIC_UNSET, MAGIC_VALID, TRAILER_SZ, UNSET,
};
use vstd::prelude::*;

verus! {

/// The result of a boot that stopped because its interrupt counter reached
/// zero.
pub const INTERRUPTED: i32 = -0x13579;

/// What the bootloader under test was built with.
#[derive(Debug, Clone, Copy)]
pub struct Caps {
    /// The bootloader swaps the two slots, and so can revert.
    pub swap_upgrade: bool,
    /// The bootloader copies the upgrade over the primary image and keeps no
    /// trailer.
    pub overwrite_only: bool,
    /// The bootloader validates the image in slot 0 on every boot.
    pub validate_slot0: bool,
    /// The size of a slot's whole trailer, status area included, at the
    /// alignment of the run.
    pub trailer_sz: usize,
}

/// What the bootloader reported of one boot.
#[derive(Debug, Clone, Copy)]
pub struct BootReport {
    /// 0 for a boot that ran to its end, `INTERRUPTED` for one that was
    /// stopped, anything else for a failure.
    pub result: i32,
    /// The number of assertions that the bootloader hit, where they were
    /// caught.
    pub asserts: u8,
    /// The interrupt counter after the boot: what it was set to, less the
    /// number of flash operations. Without a counter, 0.
    pub counter: i32,
}

/// Where a scenario goes on after a boot.
#[derive(Debug, Clone, Copy)]
pub enum Resume {
    /// The one boot of the basic upgrade.
    BasicUpgrade,
    /// An upgrade that is interrupted at `stop` and then resumed.
    PermWithFails { stop: i32, resumed: bool, failed: bool },
    /// An upgrade that is interrupted at random: `left` interruptions are
    /// still to come, and `remaining` flash operations are thought to be
    /// left.
    RandomFails { left: usize, remaining: i32 },
    /// The boot that completes an upgrade interrupted at random.
    RandomFailsEnd,
    /// Boot number `boots` (from 0) of `count` successive boots.
    BasicRevert { count: usize, boots: usize, failed: bool },
    /// An upgrade that is interrupted at `stop`, completed (stage 1) and
    /// reverted (stage 2).
    RevertWithFails { stop: i32, stage: u8, attempt_failed: bool, failed: bool },
    /// An upgrade, and a second boot after the image has been confirmed.
    NoRevert { second: bool, failed: bool },
    /// The boot of a new image in slot 0, with nothing in slot 1 to run.
    NoRevertNewImage { failed: bool },
    /// The boot with a badly signed upgrade.
    SignFailUpgrade { failed: bool },
    /// An upgrade while every write to the status area fails, and a second
    /// boot after it.
    StatusFailsComplete { second: bool, failed: bool },
    /// An upgrade that is interrupted while half of the writes to the status
    /// area fail, and its completion.
    StatusFailsWithReset { second: bool, failed: bool },
    /// An upgrade while every write to the status area fails, with a
    /// bootloader that is expected to hit an assertion.
    StatusFailsAssert,
}

impl Resume {
    /// The scenario has found a failure before the boot that it waits for.
    pub open spec fn has_failed(self) -> bool {
        match self {
            Resume::PermWithFails { failed, .. } => failed,
            Resume::BasicRevert { failed, .. } => failed,
            Resume::RevertWithFails { attempt_failed, failed, .. } => attempt_failed || failed,
            Resume::NoRevert { failed, .. } => failed,
            Resume::NoRevertNewImage { failed } => failed,
            Resume::SignFailUpgrade { failed } => failed,
            Resume::StatusFailsComplete { failed, .. } => failed,
            Resume::StatusFailsWithReset { failed, .. } => failed,
            _ => false,
        }
    }
}

/// What a scenario asks for next.
pub enum Step {
    /// Boot on `flash`: with the interrupt counter set to `counter`, where
    /// there is one, and with assertions caught or not. Then resume.
    Boot { flash: SimFlash, counter: Option<i32>, catch_asserts: bool, resume: Resume },
    /// The scenario is over.
    Done { failed: bool },
    /// The basic upgrade is over and went through with this many flash
    /// operations.
    Counted { flash_ops: i32 },
}

/// A step as a value.
pub ghost enum StepModel {
    Boot { flash: FlashState, counter: Option<i32>, catch_asserts: bool, resume: Resume },
    Done { failed: bool },
    Counted { flash_ops: i32 },
}

impl View for Step {
    type V = StepModel;

    open spec fn view(&self) -> StepModel {
        match *self {
            Step::Boot { flash, counter, catch_asserts, resume } => StepModel::Boot {
                flash: flash@,
                counter,
                catch_asserts,
                resume,
            },
            Step::Done { failed } => StepModel::Done { failed },
            Step::Counted { flash_ops } => StepModel::Counted { flash_ops },
        }
    }
}

/// The fixture of the upgrade tests: a device with an image in each slot, and
/// what the two images are.
pub struct Images {
    /// The device as it is before any boot.
    pub flash: SimFlash,
    /// The areas of the device.
    pub areadesc: AreaDesc,
    /// The slot that the device boots from.
    pub slot0: SlotInfo,
    /// The slot that holds the upgrade.
    pub slot1: SlotInfo,
    /// The image that was installed in slot 0.
    pub primary: Vec<u8>,
    /// The image that was installed in slot 1.
    pub upgrade: Vec<u8>,
    /// The number of flash operations of an upgrade that is not interrupted,
    /// once it has been measured.
    pub total_count: Option<i32>,
    /// The write alignment of the device.
    pub align: u8,
    /// What the bootloader was built with.
    pub caps: Caps,
}

/// The device holds `image` at `offset`.
pub open spec fn image_at(flash: FlashState, offset: usize, image: Seq<u8>) -> bool {
    flash.bytes(offset as int, image.len() as int) == image
}

/// The two slots lie inside a device of `size` bytes, slot 0 before slot 1,
/// each with its trailer at a multiple of the largest alignment.
pub open spec fn slots_fit(size: nat, slot0: SlotInfo, slot1: SlotInfo) -> bool {
    &&& slot0.base_off <= slot0.trailer_off
    &&& slot0.trailer_off + TRAILER_SZ <= slot1.base_off
    &&& slot1.base_off <= slot1.trailer_off
    &&& slot1.trailer_off + TRAILER_SZ <= size
    &&& slot0.trailer_off as int % BOOT_MAX_ALIGN as int == 0
    &&& slot1.trailer_off as int % BOOT_MAX_ALIGN as int == 0
}

impl Images {
    /// The invariant of the fixture.
    pub open spec fn wf(&self) -> bool {
        &&& self.flash@.wf()
        &&& is_valid_align(self.align)
        &&& self.flash@.align == self.align
        &&& slots_fit(self.flash@.data.len(), self.slot0, self.slot1)
        &&& self.slot0.base_off + self.primary@.len() <= self.slot0.trailer_off
        &&& self.slot0.base_off + self.upgrade@.len() <= self.slot0.trailer_off
        &&& self.slot1.base_off + self.primary@.len() <= self.slot1.trailer_off
        &&& self.slot1.base_off + self.upgrade@.len() <= self.slot1.trailer_off
    }

    /// `flash` is the fixture's device after some boots: valid, of the same
    /// size and with the same alignment.
    pub open spec fn same_device(&self, flash: FlashState) -> bool {
        &&& flash.wf()
        &&& flash.data.len() == self.flash@.data.len()
        &&& flash.align == self.flash@.align
    }

    /// The trailer of `slot` holds the given values. With a bootloader that
    /// only overwrites there is no trailer to look at, and every trailer
    /// passes.
    pub open spec fn trailer_ok(
        &self,
        flash: FlashState,
        slot: SlotInfo,
        magic: Option<Seq<u8>>,
        image_ok: Option<u8>,
        copy_done: Option<u8>,
    ) -> bool {
        self.caps.overwrite_only || trailer_matches(
            flash,
            slot.trailer_off as int,
            magic,
            image_ok,
            copy_done,
        )
    }

    /// The device as every upgrade starts from it: the fixture's device with
    /// the image in slot 1 confirmed.
    pub open spec fn upgrade_start(&self) -> FlashState {
        self.flash@.written(self.slot1.trailer_off + BOOT_MAX_ALIGN, image_ok_bytes(self.align))
    }

    /// The upgrade can be started: the `image_ok` flag of slot 1 can be
    /// written on the fixture's device.
    pub open spec fn can_confirm_upgrade(&self) -> bool {
        takes_write(
            self.flash@,
            self.slot1.trailer_off + BOOT_MAX_ALIGN,
            self.align as int,
        )
    }

    /// The state of a device after a permanent upgrade: the upgrade in slot
    /// 0 with a trailer that says so, a blank trailer in slot 1, and, after a
    /// swap, the primary image in slot 1.
    pub open spec fn upgraded(&self, flash: FlashState) -> bool {
        &&& image_at(flash, self.slot0.base_off, self.upgrade@)
        &&& self.caps.swap_upgrade ==> image_at(flash, self.slot1.base_off, self.primary@)
        &&& self.trailer_ok(
            flash,
            self.slot0,
            Some(MAGIC_VALID@),
            Some(IMAGE_OK),
            Some(COPY_DONE),
        )
        &&& self.trailer_ok(flash, self.slot1, Some(MAGIC_UNSET@), Some(UNSET), Some(UNSET))
    }

    /// Whether the trailer of `slot` holds the given values; always true with
    /// a bootloader that only overwrites.
    pub fn check_trailer(
        &self,
        flash: &SimFlash,
        slot: &SlotInfo,
        magic: Option<&[u8]>,
        image_ok: Option<u8>,
        copy_done: Option<u8>,
    ) -> (ok: bool)
        requires
            flash@.wf(),
            flash@.readable(slot.trailer_off as int, TRAILER_SZ as int),
        ensures
            ok == self.trailer_ok(flash@, *slot, magic_view(magic), image_ok, copy_done),
    {
        if self.caps.overwrite_only {
            true
        } else {
            verify_trailer(flash, slot.trailer_off, magic, image_ok, copy_done)
        }
    }

    /// Whether `flash` is in the state that a permanent upgrade leaves.
    pub fn check_upgraded(&self, flash: &SimFlash) -> (ok: bool)
        requires
            self.wf(),
            self.same_device(flash@),
        ensures
            ok == self.upgraded(flash@),
    {
        let valid = MAGIC_VALID;
        let unset = MAGIC_UNSET;
        let slot0_ok = crate::image::verify_image(
            flash,
            self.slot0.base_off,
            self.upgrade.as_slice(),
        );
        let slot1_ok = if self.caps.swap_upgrade {
            crate::image::verify_image(flash, self.slot1.base_off, self.primary.as_slice())
        } else {
            true
        };
        let trailer0 = self.check_trailer(
            flash,
            &self.slot0,
            Some(valid.as_slice()),
            Some(IMAGE_OK),
            Some(COPY_DONE),
        );
        let trailer1 = self.check_trailer(
            flash,
            &self.slot1,
            Some(unset.as_slice()),
            Some(UNSET),
            Some(UNSET),
        );
        slot0_ok && slot1_ok && trailer0 && trailer1
    }

    /// Records the number of flash operations that the basic upgrade took.
    pub fn record_total_count(&mut self, flash_ops: i32)
        ensures
            final(self).total_count == Some(flash_ops),
            final(self).flash == old(self).flash,
            final(self).areadesc == old(self).areadesc,
            final(self).slot0 == old(self).slot0,
            final(self).slot1 == old(self).slot1,
            final(self).primary == old(self).primary,
            final(self).upgrade == old(self).upgrade,
            final(self).align == old(self).align,
            final(self).caps == old(self).caps,
    {
        self.total_count = Some(flash_ops);
    }
}

} // verus!
