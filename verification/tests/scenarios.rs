use bootsim::device::DeviceName;
use bootsim::flash::{Flash, SimFlash};
use bootsim::harness::{BootReport, Caps, Images, Resume, Step, INTERRUPTED};
use bootsim::image::verify_image;
use bootsim::machine::{run_plan, Fixture, Scenario};
use bootsim::run::{Run, Tails};
use bootsim::trailer::{
    verify_trailer, SlotInfo, COPY_DONE, IMAGE_OK, MAGIC_UNSET, MAGIC_VALID, UNSET,
};

const TLV_SIZE: u16 = 36;
const TLV_FLAGS: u32 = 0x10;
const CHUNK: usize = 4096;

/// A stand-in for a TLV generator: a record header and 32 bytes that depend
/// on every signed byte.
fn tlv_for(signed: &[u8]) -> Vec<u8> {
    let mut sums = [0u8; 32];
    for (i, b) in signed.iter().enumerate() {
        sums[i % 32] = sums[i % 32].wrapping_mul(31).wrapping_add(*b).wrapping_add(1);
    }
    let mut tlv = vec![0x10, 0, 32, 0];
    tlv.extend_from_slice(&sums);
    tlv
}

fn read(flash: &SimFlash, offset: usize, len: usize) -> Vec<u8> {
    let mut buf = vec![0u8; len];
    flash.read(offset, &mut buf).unwrap();
    buf
}

/// A stand-in for the bootloader. It swaps the two slots in one go, on the
/// boot that is allowed enough flash operations, and keeps count of the
/// operations that interrupted boots have used up.
struct Loader {
    slot0: SlotInfo,
    slot1: SlotInfo,
    align: usize,
    caps: Caps,
    progress: i32,
}

#[derive(PartialEq, Debug)]
enum Action {
    Nothing,
    Upgrade { permanent: bool },
    Revert,
}

impl Loader {
    fn new(images: &Images) -> Loader {
        Loader {
            slot0: images.slot0,
            slot1: images.slot1,
            align: images.align as usize,
            caps: images.caps,
            progress: 0,
        }
    }

    /// The part of a slot that holds the image: what lies in front of the
    /// whole trailer.
    fn room(&self) -> usize {
        let whole_trailer = usize::max(self.caps.trailer_sz, 32);
        self.slot0.trailer_off + 32 - whole_trailer - self.slot0.base_off
    }

    fn signature_ok(&self, flash: &SimFlash) -> bool {
        let header = read(flash, self.slot1.base_off, 32);
        if header[..4] != [0x3d, 0xb8, 0xf3, 0x96] {
            return false;
        }
        let tlv_size = u16::from_le_bytes([header[4], header[5]]) as usize;
        let img_size = u32::from_le_bytes([header[12], header[13], header[14], header[15]]) as usize;
        if 32 + img_size + tlv_size > self.room() {
            return false;
        }
        let signed = read(flash, self.slot1.base_off, 32 + img_size);
        let tail = read(flash, self.slot1.base_off + 32 + img_size, tlv_size);
        tail == tlv_for(&signed)
    }

    fn action(&self, flash: &SimFlash) -> Action {
        let t0 = read(flash, self.slot0.trailer_off, 32);
        let t1 = read(flash, self.slot1.trailer_off, 32);
        if t1[16..] == MAGIC_VALID && self.signature_ok(flash) {
            Action::Upgrade { permanent: t1[8] == IMAGE_OK }
        } else if t0[16..] == MAGIC_VALID && t0[0] == COPY_DONE && t0[8] == UNSET {
            Action::Revert
        } else {
            Action::Nothing
        }
    }

    fn chunks(&self) -> i32 {
        ((self.room() + CHUNK - 1) / CHUNK) as i32
    }

    fn ops(&self, action: &Action) -> i32 {
        match action {
            Action::Nothing => 0,
            Action::Upgrade { permanent: false } => 3 + 2 * self.chunks() + 2,
            _ => 3 + 2 * self.chunks() + 3,
        }
    }

    fn write(&self, flash: &mut SimFlash, offset: usize, bytes: &[u8]) -> bool {
        match flash.checked_write(offset, bytes) {
            Ok(result) => result.is_ok(),
            Err(fault) => panic!("faulty write at {:#x}: {:?}", offset, fault),
        }
    }

    fn write_flag(&self, flash: &mut SimFlash, offset: usize, value: u8) {
        let mut bytes = vec![0xffu8; self.align];
        bytes[0] = value;
        assert!(self.write(flash, offset, &bytes));
    }

    fn write_content(&self, flash: &mut SimFlash, base: usize, content: &[u8]) {
        let mut at = 0;
        while at < content.len() {
            let end = usize::min(at + CHUNK, content.len());
            assert!(self.write(flash, base + at, &content[at..end]));
            at = end;
        }
    }

    fn swap(&self, flash: &mut SimFlash, image_ok: bool, asserts: &mut u8, catch_asserts: bool) {
        let room = self.room();
        let slot_len = self.slot0.trailer_off + 32 - self.slot0.base_off;
        let first = read(flash, self.slot0.base_off, room);
        let second = read(flash, self.slot1.base_off, room);
        flash.erase(self.slot0.base_off, slot_len).unwrap();
        flash.erase(self.slot1.base_off, slot_len).unwrap();
        // A record in the status area, which lies in front of the trailer of slot 0.
        if self.caps.trailer_sz >= 40 + self.align {
            let status_off = self.slot1.base_off - self.caps.trailer_sz;
            let record = vec![0x01u8; self.align];
            if !self.write(flash, status_off, &record) && !self.caps.validate_slot0 {
                assert!(catch_asserts);
                *asserts += 1;
            }
        }
        self.write_content(flash, self.slot0.base_off, &second);
        self.write_content(flash, self.slot1.base_off, &first);
        assert!(self.write(flash, self.slot0.trailer_off + 16, &MAGIC_VALID));
        self.write_flag(flash, self.slot0.trailer_off, COPY_DONE);
        if image_ok {
            self.write_flag(flash, self.slot0.trailer_off + 8, IMAGE_OK);
        }
    }

    fn boot(&mut self, flash: &mut SimFlash, counter: Option<i32>, catch_asserts: bool) -> BootReport {
        let action = self.action(flash);
        let remaining = self.ops(&action) - self.progress;
        let mut counter_after = counter.unwrap_or(0);
        if let Some(stop) = counter {
            if stop > 0 && stop <= remaining {
                // The operation number `stop` is the one that is not made.
                self.progress += stop - 1;
                return BootReport { result: INTERRUPTED, asserts: 0, counter: 0 };
            }
            counter_after = stop - remaining;
        }
        let mut asserts = 0u8;
        match action {
            Action::Nothing => (),
            Action::Upgrade { permanent } => self.swap(flash, permanent, &mut asserts, catch_asserts),
            Action::Revert => self.swap(flash, true, &mut asserts, catch_asserts),
        }
        self.progress = 0;
        BootReport { result: 0, asserts, counter: counter_after }
    }
}

fn caps() -> Caps {
    Caps { swap_upgrade: true, overwrite_only: false, validate_slot0: false, trailer_sz: 40 + 384 }
}

fn tails_for(run: &Run) -> Tails {
    let (primary, upgrade) = run.signed_parts(TLV_SIZE, TLV_FLAGS);
    let tails = Tails {
        size: TLV_SIZE,
        flags: TLV_FLAGS,
        primary: tlv_for(&primary),
        upgrade: tlv_for(&upgrade),
    };
    assert!(run.has_room(&tails));
    tails
}

#[derive(Debug, PartialEq)]
enum End {
    Done(bool),
    Counted(i32),
}

/// Runs a scenario to its end; also gives every boot request that was made.
fn drive(images: &Images, first: Step) -> (End, Vec<(Option<i32>, bool)>) {
    let mut loader = Loader::new(images);
    let mut boots = Vec::new();
    let mut step = first;
    loop {
        match step {
            Step::Boot { mut flash, counter, catch_asserts, resume } => {
                boots.push((counter, catch_asserts));
                let report = loader.boot(&mut flash, counter, catch_asserts);
                assert!(images.accepts_report(&resume, &flash, &report));
                step = images.resume(resume, flash, report);
            }
            Step::Done { failed } => return (End::Done(failed), boots),
            Step::Counted { flash_ops } => return (End::Counted(flash_ops), boots),
        }
    }
}

fn run_scenario(images: &Images, scenario: Scenario) -> (End, Vec<(Option<i32>, bool)>) {
    assert!(images.is_ready(scenario));
    drive(images, images.start(scenario))
}

fn upgrade_fixture(device: DeviceName, align: u8, caps: Caps) -> Images {
    let run = Run::new(device, align, caps);
    let mut images = run.make_image(&tails_for(&run));
    assert!(images.is_ready(Scenario::BasicUpgrade));
    match drive(&images, images.run_basic_upgrade()).0 {
        End::Counted(total) => images.record_total_count(total),
        end => panic!("Unable to perform basic upgrade: {:?}", end),
    }
    images
}

#[test]
fn fixtures_hold_both_images() {
    let run = Run::new(DeviceName::K64f, 1, caps());
    let tails = tails_for(&run);
    let images = run.make_no_upgrade_image(&tails);
    assert_eq!(images.primary.len(), 32 + 32784 + 36 + 4);
    assert_eq!(images.upgrade.len(), 32 + 41928 + 36 + 4);
    assert!(images.total_count.is_none());
    assert!(verify_image(&images.flash, images.slot0.base_off, &images.primary));
    assert!(verify_image(&images.flash, images.slot1.base_off, &images.upgrade));
    assert!(verify_trailer(
        &images.flash,
        images.slot1.trailer_off,
        Some(&MAGIC_UNSET),
        Some(UNSET),
        Some(UNSET)
    ));
    assert_eq!(&images.primary[32 + 32784..32 + 32784 + 36], &tails.primary[..]);
    // The run's own device stays blank.
    assert_eq!(read(&run.flash, run.slot0.base_off, 64), [0xff; 64]);

    let marked = run.make_image(&tails);
    assert_eq!(marked.primary, images.primary);
    assert_eq!(marked.upgrade, images.upgrade);
    assert!(verify_trailer(
        &marked.flash,
        marked.slot1.trailer_off,
        Some(&MAGIC_VALID),
        Some(UNSET),
        Some(UNSET)
    ));

    let bad = run.make_bad_slot1_image(&tails);
    assert_eq!(bad.primary, images.primary);
    assert_eq!(bad.upgrade.len(), images.upgrade.len());
    assert_eq!(&bad.upgrade[..32 + 41928], &images.upgrade[..32 + 41928]);
    assert_eq!(&bad.upgrade[32 + 41928..32 + 41928 + 36], &[0u8; 36]);
    assert!(verify_image(&bad.flash, bad.slot1.base_off, &bad.upgrade));
}

#[test]
fn tails_that_are_too_long_do_not_fit() {
    let run = Run::new(DeviceName::K64f, 1, caps());
    let room = 0x20000 - 32;
    let fits = Tails { size: 0, flags: 0, primary: vec![0; room - 32 - 32784], upgrade: vec![] };
    assert!(run.has_room(&fits));
    let too_long =
        Tails { size: 0, flags: 0, primary: vec![0; room - 32 - 32784 + 1], upgrade: vec![] };
    assert!(!run.has_room(&too_long));
    let too_long = Tails { size: 0, flags: 0, primary: vec![], upgrade: vec![0; room - 41928 - 31] };
    assert!(!run.has_room(&too_long));
}

#[test]
fn permanent_upgrade_k64f() {
    let run = Run::new(DeviceName::K64f, 1, caps());
    let images = run.make_image(&tails_for(&run));
    let step = images.run_basic_upgrade();
    let (flash, counter, resume) = match step {
        Step::Boot { flash, counter, catch_asserts, resume } => {
            assert!(!catch_asserts);
            (flash, counter, resume)
        }
        _ => panic!("the basic upgrade starts with a boot"),
    };
    assert_eq!(counter, Some(0));
    assert!(matches!(resume, Resume::BasicUpgrade));
    // The upgrade in slot 1 was confirmed before the boot.
    assert!(verify_trailer(
        &flash,
        images.slot1.trailer_off,
        Some(&MAGIC_VALID),
        Some(IMAGE_OK),
        Some(UNSET)
    ));
    let mut flash = flash;
    let mut loader = Loader::new(&images);
    let report = loader.boot(&mut flash, counter, false);
    assert_eq!(report.result, 0);
    assert!(report.counter < 0);
    assert_eq!(read(&flash, images.slot0.base_off, images.upgrade.len()), images.upgrade);
    assert!(verify_trailer(
        &flash,
        images.slot0.trailer_off,
        Some(&MAGIC_VALID),
        Some(0x01),
        Some(0x01)
    ));
    assert!(images.accepts_report(&resume, &flash, &report));
    match images.resume(resume, flash, report) {
        Step::Counted { flash_ops } => {
            assert_eq!(flash_ops, -report.counter);
            assert!(flash_ops > 0);
        }
        _ => panic!("the basic upgrade ends with its count"),
    }
}

#[test]
fn basic_upgrade_counts_flash_operations_on_every_device() {
    for device in [DeviceName::Stm32f4, DeviceName::K64f, DeviceName::K64fBig, DeviceName::Nrf52840]
    {
        for align in [1u8, 2, 4, 8] {
            let images = upgrade_fixture(device, align, caps());
            assert!(images.total_count.unwrap() > 0);
        }
    }
}

#[test]
fn basic_upgrade_fails_when_slot0_is_not_the_upgrade() {
    let run = Run::new(DeviceName::K64f, 1, caps());
    let images = run.make_image(&tails_for(&run));
    let flash = images.start_upgrade();
    // A bootloader that did nothing at all.
    let report = BootReport { result: 0, asserts: 0, counter: 0 };
    assert!(images.accepts_report(&Resume::BasicUpgrade, &flash, &report));
    assert!(matches!(images.resume(Resume::BasicUpgrade, flash, report), Step::Done { failed: true }));
    // Results that end the run.
    let flash = images.start_upgrade();
    let report = BootReport { result: INTERRUPTED, asserts: 0, counter: 0 };
    assert!(!images.accepts_report(&Resume::BasicUpgrade, &flash, &report));
    let report = BootReport { result: -1, asserts: 0, counter: 0 };
    assert!(!images.accepts_report(&Resume::BasicUpgrade, &flash, &report));
    let report = BootReport { result: 0, asserts: 0, counter: i32::MIN };
    assert!(!images.accepts_report(&Resume::BasicUpgrade, &flash, &report));
    // A device of another size is not the fixture's.
    let other = SimFlash::new(vec![4096usize; 4], 1);
    let report = BootReport { result: 0, asserts: 0, counter: -3 };
    assert!(!images.accepts_report(&Resume::BasicUpgrade, &other, &report));
}

#[test]
fn interrupt_at_step_1() {
    let images = upgrade_fixture(DeviceName::K64f, 1, caps());
    let mut loader = Loader::new(&images);
    let mut flash = images.start_upgrade();
    let report = loader.boot(&mut flash, Some(1), false);
    assert_eq!(report.result, -0x13579);
    let report = loader.boot(&mut flash, None, false);
    assert_eq!(report.result, 0);
    assert!(verify_image(&flash, images.slot0.base_off, &images.upgrade));

    // The same through the scenario: the first attempt stops at 1.
    let step = images.run_perm_with_fails();
    let (mut flash, resume) = match step {
        Step::Boot { flash, counter, resume, .. } => {
            assert_eq!(counter, Some(1));
            (flash, resume)
        }
        _ => panic!("expected a boot"),
    };
    let mut loader = Loader::new(&images);
    let report = loader.boot(&mut flash, Some(1), false);
    assert!(images.accepts_report(&resume, &flash, &report));
    match images.resume(resume, flash, report) {
        Step::Boot { counter, resume, .. } => {
            assert_eq!(counter, Some(0));
            assert!(matches!(resume, Resume::PermWithFails { stop: 1, resumed: true, failed: false }));
        }
        _ => panic!("an interrupted upgrade is resumed"),
    }
}

#[test]
fn perm_with_fails_interrupts_at_every_step() {
    let images = upgrade_fixture(DeviceName::K64f, 4, caps());
    let total = images.total_count.unwrap();
    let (end, boots) = run_scenario(&images, Scenario::PermWithFails);
    assert_eq!(end, End::Done(false));
    // For each stop: the interrupted boot and the boot that resumes.
    assert_eq!(boots.len() as i32, 2 * (total - 1));
    for i in 1..total {
        assert_eq!(boots[2 * (i as usize - 1)], (Some(i), false));
        assert_eq!(boots[2 * (i as usize - 1) + 1], (Some(0), false));
    }
}

#[test]
fn perm_with_fails_without_steps_runs_nothing() {
    let run = Run::new(DeviceName::K64f, 1, caps());
    let mut images = run.make_image(&tails_for(&run));
    images.record_total_count(1);
    assert!(matches!(images.run_perm_with_fails(), Step::Done { failed: false }));
    images.record_total_count(0);
    assert!(matches!(images.run_perm_with_fails(), Step::Done { failed: false }));
    images.record_total_count(2);
    assert!(matches!(images.run_perm_with_fails(), Step::Boot { counter: Some(1), .. }));
}

#[test]
fn perm_with_fails_reports_a_bootloader_that_loses_the_upgrade() {
    let images = upgrade_fixture(DeviceName::K64f, 1, caps());
    let total = images.total_count.unwrap();
    // The last attempt: a bootloader that claims success and did nothing.
    let flash = images.start_upgrade();
    let resume = Resume::PermWithFails { stop: total - 1, resumed: false, failed: false };
    let report = BootReport { result: 0, asserts: 0, counter: 0 };
    assert!(images.accepts_report(&resume, &flash, &report));
    assert!(matches!(images.resume(resume, flash, report), Step::Done { failed: true }));
    // An earlier failure is kept, whatever comes later.
    let mut loader = Loader::new(&images);
    let mut flash = images.start_upgrade();
    let report = loader.boot(&mut flash, None, false);
    let resume = Resume::PermWithFails { stop: total - 1, resumed: true, failed: true };
    assert!(matches!(images.resume(resume, flash, report), Step::Done { failed: true }));
    // A second interruption, and an unknown result, end the run.
    let flash = images.start_upgrade();
    let resumed = Resume::PermWithFails { stop: 1, resumed: true, failed: false };
    let report = BootReport { result: INTERRUPTED, asserts: 0, counter: 0 };
    assert!(!images.accepts_report(&resumed, &flash, &report));
    let first = Resume::PermWithFails { stop: 1, resumed: false, failed: false };
    assert!(images.accepts_report(&first, &flash, &report));
    let report = BootReport { result: 7, asserts: 0, counter: 0 };
    assert!(!images.accepts_report(&first, &flash, &report));
}

#[test]
fn perm_with_random_fails_draws_stops_below_half_of_what_remains() {
    let images = upgrade_fixture(DeviceName::Nrf52840, 2, caps());
    let total = images.total_count.unwrap();
    for _ in 0..20 {
        let (end, boots) = drive(&images, images.run_perm_with_random_fails_5());
        assert_eq!(end, End::Done(false));
        assert_eq!(boots.len(), 6);
        let mut remaining = total;
        for boot in &boots[..5] {
            let stop = boot.0.unwrap();
            assert!(1 <= stop && stop < remaining / 2);
            remaining -= stop;
        }
        assert_eq!(boots[5], (None, false));
    }
    let (end, boots) = run_scenario(&images, Scenario::PermWithRandomFails(0));
    assert_eq!(end, End::Done(false));
    assert_eq!(boots, [(None, false)]);
}

#[test]
fn random_fail_steps_follow_the_stop() {
    let flash = SimFlash::new(vec![4096usize; 4], 1);
    match Images::next_random_fail(flash, 3, 100, 17) {
        Step::Boot { counter, catch_asserts, resume, .. } => {
            assert_eq!(counter, Some(17));
            assert!(!catch_asserts);
            assert!(matches!(resume, Resume::RandomFails { left: 2, remaining: 83 }));
        }
        _ => panic!("expected a boot"),
    }
    let flash = SimFlash::new(vec![4096usize; 4], 1);
    match Images::next_random_fail(flash, 0, 100, 17) {
        Step::Boot { counter, resume, .. } => {
            assert_eq!(counter, None);
            assert!(matches!(resume, Resume::RandomFailsEnd));
        }
        _ => panic!("expected a boot"),
    }
    let flash = SimFlash::new(vec![4096usize; 4], 1);
    match Images::try_random_fails(flash, 1, 4) {
        Step::Boot { counter, resume, .. } => {
            assert_eq!(counter, Some(1));
            assert!(matches!(resume, Resume::RandomFails { left: 0, remaining: 3 }));
        }
        _ => panic!("expected a boot"),
    }
}

#[test]
fn random_fails_need_operations_to_draw_from() {
    let run = Run::new(DeviceName::K64f, 1, caps());
    let mut images = run.make_image(&tails_for(&run));
    images.record_total_count(3);
    assert!(!images.is_ready(Scenario::PermWithRandomFails(5)));
    assert!(images.is_ready(Scenario::PermWithRandomFails(0)));
    images.record_total_count(4);
    assert!(images.is_ready(Scenario::PermWithRandomFails(5)));
    let flash = images.start_upgrade();
    let report = BootReport { result: INTERRUPTED, asserts: 0, counter: 0 };
    assert!(images.accepts_report(&Resume::RandomFails { left: 1, remaining: 4 }, &flash, &report));
    assert!(!images.accepts_report(&Resume::RandomFails { left: 1, remaining: 3 }, &flash, &report));
    assert!(images.accepts_report(&Resume::RandomFails { left: 0, remaining: 3 }, &flash, &report));
    assert!(!images.accepts_report(&Resume::RandomFailsEnd, &flash, &report));
}

#[test]
fn basic_revert_boots_two_three_and_four_times() {
    let images = upgrade_fixture(DeviceName::Stm32f4, 8, caps());
    let (end, boots) = run_scenario(&images, Scenario::BasicRevert);
    assert_eq!(end, End::Done(false));
    assert_eq!(boots.len(), 2 + 3 + 4);
    assert!(boots.iter().all(|boot| *boot == (None, false)));
}

#[test]
fn basic_revert_reports_a_bootloader_that_does_not_revert() {
    let images = upgrade_fixture(DeviceName::K64f, 1, caps());
    // After the first of two boots the upgrade is in slot 0; a bootloader
    // that stops there has not reverted.
    let mut loader = Loader::new(&images);
    let mut flash = images.flash.clone();
    let report = loader.boot(&mut flash, None, false);
    let resume = Resume::BasicRevert { count: 4, boots: 3, failed: false };
    assert!(images.accepts_report(&resume, &flash, &report));
    assert!(matches!(images.resume(resume, flash, report), Step::Done { failed: true }));
    // A boot with an assertion, or with another result, ends the run.
    let flash = images.flash.clone();
    let resume = Resume::BasicRevert { count: 2, boots: 0, failed: false };
    assert!(!images.accepts_report(&resume, &flash, &BootReport { result: 0, asserts: 1, counter: 0 }));
    assert!(!images.accepts_report(&resume, &flash, &BootReport { result: 1, asserts: 0, counter: 0 }));
    assert!(images.accepts_report(&resume, &flash, &BootReport { result: 0, asserts: 0, counter: 0 }));
}

#[test]
fn scenarios_that_need_a_revert_are_skipped_without_swap() {
    let no_swap =
        Caps { swap_upgrade: false, overwrite_only: false, validate_slot0: false, trailer_sz: 424 };
    let run = Run::new(DeviceName::K64f, 1, no_swap);
    let images = run.make_image(&tails_for(&run));
    assert!(matches!(images.run_basic_revert(), Step::Done { failed: false }));
    assert!(matches!(images.run_revert_with_fails(), Step::Done { failed: false }));
    assert!(matches!(images.run_norevert(), Step::Boot { .. }));

    let overwrite =
        Caps { swap_upgrade: true, overwrite_only: true, validate_slot0: true, trailer_sz: 424 };
    let run = Run::new(DeviceName::K64f, 1, overwrite);
    let images = run.make_image(&tails_for(&run));
    assert!(matches!(images.run_basic_revert(), Step::Done { failed: false }));
    assert!(matches!(images.run_revert_with_fails(), Step::Done { failed: false }));
    assert!(matches!(images.run_norevert(), Step::Done { failed: false }));
    assert!(matches!(images.run_with_status_fails_complete(), Step::Done { failed: false }));
    assert!(matches!(images.run_with_status_fails_with_reset(), Step::Done { failed: false }));
    // Without trailers every trailer passes.
    assert!(images.check_trailer(
        &images.flash,
        &images.slot0,
        Some(&MAGIC_VALID),
        Some(IMAGE_OK),
        Some(COPY_DONE)
    ));
}

#[test]
fn revert_with_fails_interrupts_completes_and_reverts() {
    let images = upgrade_fixture(DeviceName::K64fBig, 2, caps());
    let total = images.total_count.unwrap();
    let (end, boots) = run_scenario(&images, Scenario::RevertWithFails);
    assert_eq!(end, End::Done(false));
    assert_eq!(boots.len() as i32, 3 * (total - 2));
    for i in 1..total - 1 {
        let at = 3 * (i as usize - 1);
        assert_eq!(boots[at], (Some(i), false));
        assert_eq!(boots[at + 1], (None, false));
        assert_eq!(boots[at + 2], (None, false));
    }
}

#[test]
fn revert_with_fails_reports_what_is_not_as_expected() {
    let images = upgrade_fixture(DeviceName::K64f, 1, caps());
    let total = images.total_count.unwrap();
    let last = total - 2;
    // A boot that was not interrupted fails the attempt.
    let flash = images.flash.clone();
    let stage0 = Resume::RevertWithFails { stop: last, stage: 0, attempt_failed: false, failed: false };
    let report = BootReport { result: 0, asserts: 0, counter: 0 };
    assert!(images.accepts_report(&stage0, &flash, &report));
    match images.resume(stage0, flash, report) {
        Step::Boot { counter: None, resume, .. } => assert!(matches!(
            resume,
            Resume::RevertWithFails { stage: 1, attempt_failed: true, failed: false, .. }
        )),
        _ => panic!("expected a boot"),
    }
    // Interrupted, with copy_done still unset: the attempt goes on well.
    let flash = images.flash.clone();
    let report = BootReport { result: INTERRUPTED, asserts: 0, counter: 0 };
    match images.resume(stage0, flash, report) {
        Step::Boot { resume, .. } => assert!(matches!(
            resume,
            Resume::RevertWithFails { stage: 1, attempt_failed: false, .. }
        )),
        _ => panic!("expected a boot"),
    }
    // Stage 1 on a device that was not upgraded.
    let flash = images.flash.clone();
    let stage1 = Resume::RevertWithFails { stop: last, stage: 1, attempt_failed: false, failed: false };
    let report = BootReport { result: 0, asserts: 0, counter: 0 };
    match images.resume(stage1, flash, report) {
        Step::Boot { resume, .. } => assert!(matches!(
            resume,
            Resume::RevertWithFails { stage: 2, attempt_failed: true, .. }
        )),
        _ => panic!("expected a boot"),
    }
    // Stage 2 on a device that was swapped and not reverted.
    let mut loader = Loader::new(&images);
    let mut flash = images.flash.clone();
    let report = loader.boot(&mut flash, None, false);
    assert!(images.check_swapped(&flash));
    assert!(!images.check_reverted(&flash));
    let stage2 = Resume::RevertWithFails { stop: last, stage: 2, attempt_failed: false, failed: false };
    assert!(matches!(images.resume(stage2, flash, report), Step::Done { failed: true }));
    // Stage 2 after a revert, last attempt: a pass.
    let mut flash = images.flash.clone();
    loader.boot(&mut flash, None, false);
    let report = loader.boot(&mut flash, None, false);
    assert!(images.check_reverted(&flash));
    assert!(matches!(images.resume(stage2, flash, report), Step::Done { failed: false }));
}

#[test]
fn norevert_keeps_a_confirmed_upgrade() {
    for align in [1u8, 2, 4, 8] {
        let images = upgrade_fixture(DeviceName::K64f, align, caps());
        let (end, boots) = run_scenario(&images, Scenario::NoRevert);
        assert_eq!(end, End::Done(false));
        assert_eq!(boots, [(None, false), (None, false)]);
    }
}

#[test]
fn norevert_confirms_slot0_between_the_boots() {
    let images = upgrade_fixture(DeviceName::K64f, 2, caps());
    let mut loader = Loader::new(&images);
    let mut flash = images.flash.clone();
    let report = loader.boot(&mut flash, None, false);
    let resume = Resume::NoRevert { second: false, failed: false };
    assert!(images.accepts_report(&resume, &flash, &report));
    match images.resume(resume, flash, report) {
        Step::Boot { flash, counter: None, catch_asserts: false, resume } => {
            assert!(matches!(resume, Resume::NoRevert { second: true, failed: false }));
            assert!(verify_trailer(
                &flash,
                images.slot0.trailer_off,
                Some(&MAGIC_VALID),
                Some(IMAGE_OK),
                Some(COPY_DONE)
            ));
        }
        _ => panic!("expected the second boot"),
    }
    // A bootloader that had confirmed the image itself leaves the flag
    // unwritable: the scenario cannot go on.
    let mut flash = images.start_upgrade();
    let report = Loader::new(&images).boot(&mut flash, None, false);
    assert!(!images.accepts_report(&resume, &flash, &report));
    // A failed first boot is carried to the verdict.
    let mut flash = images.flash.clone();
    Loader::new(&images).boot(&mut flash, None, false);
    let report = BootReport { result: 3, asserts: 0, counter: 0 };
    match images.resume(resume, flash, report) {
        Step::Boot { resume, .. } => {
            assert!(matches!(resume, Resume::NoRevert { second: true, failed: true }))
        }
        _ => panic!("expected the second boot"),
    }
}

#[test]
fn norevert_newimage_leaves_slot0_alone() {
    let run = Run::new(DeviceName::Nrf52840, 1, caps());
    let images = run.make_no_upgrade_image(&tails_for(&run));
    let (end, boots) = run_scenario(&images, Scenario::NoRevertNewImage);
    assert_eq!(end, End::Done(false));
    assert_eq!(boots, [(None, false)]);

    // A bootloader that swapped all the same is reported.
    let marked = run.make_image(&tails_for(&run));
    let mut flash = marked.flash.clone();
    let report = Loader::new(&marked).boot(&mut flash, None, false);
    let resume = Resume::NoRevertNewImage { failed: false };
    assert!(matches!(images.resume(resume, flash, report), Step::Done { failed: true }));
}

#[test]
fn bad_signature_rejection() {
    let run = Run::new(DeviceName::K64f, 1, caps());
    let images = run.make_bad_slot1_image(&tails_for(&run));
    assert!(images.is_ready(Scenario::SignFailUpgrade));
    let step = images.run_signfail_upgrade();
    let (mut flash, resume) = match step {
        Step::Boot { flash, counter: None, catch_asserts: false, resume } => (flash, resume),
        _ => panic!("expected a boot"),
    };
    assert!(matches!(resume, Resume::SignFailUpgrade { failed: false }));
    assert!(verify_trailer(
        &flash,
        images.slot1.trailer_off,
        Some(&MAGIC_VALID),
        Some(UNSET),
        Some(UNSET)
    ));
    let report = Loader::new(&images).boot(&mut flash, None, false);
    assert_eq!(report.result, 0);
    assert!(verify_image(&flash, images.slot0.base_off, &images.primary));
    assert!(verify_trailer(
        &flash,
        images.slot0.trailer_off,
        Some(&MAGIC_VALID),
        Some(IMAGE_OK),
        Some(UNSET)
    ));
    assert!(matches!(images.resume(resume, flash, report), Step::Done { failed: false }));

    // With a good signature the bootloader upgrades, which this scenario
    // reports as a failure.
    let good = run.make_no_upgrade_image(&tails_for(&run));
    let (end, _) = run_scenario(&good, Scenario::SignFailUpgrade);
    assert_eq!(end, End::Done(true));
}

#[test]
fn status_fails_complete_with_validate_slot0() {
    let validating =
        Caps { swap_upgrade: true, overwrite_only: false, validate_slot0: true, trailer_sz: 424 };
    let images = upgrade_fixture(DeviceName::K64f, 8, validating);
    let step = images.start(Scenario::StatusFailsComplete);
    match &step {
        Step::Boot { flash, counter: None, catch_asserts: true, .. } => {
            let status_off = images.slot1.base_off - 424;
            assert!(flash.always_fails(status_off, 384));
            assert!(flash.always_fails(status_off + 376, 8));
            assert!(!flash.always_fails(status_off - 8, 8));
            assert!(!flash.always_fails(status_off + 384, 8));
        }
        _ => panic!("expected a boot that catches assertions"),
    }
    let (end, boots) = drive(&images, step);
    assert_eq!(end, End::Done(false));
    assert_eq!(boots, [(None, true), (None, false)]);

    // An assertion in the first boot is a failure.
    let mut flash = images.start_upgrade();
    let mut report = Loader::new(&images).boot(&mut flash, None, true);
    report.asserts = 1;
    let resume = Resume::StatusFailsComplete { second: false, failed: false };
    match images.resume(resume, flash, report) {
        Step::Boot { resume, .. } => {
            assert!(matches!(resume, Resume::StatusFailsComplete { second: true, failed: true }))
        }
        _ => panic!("expected the second boot"),
    }

    // Without validation of slot 0 nothing is run.
    let images = upgrade_fixture(DeviceName::K64f, 8, caps());
    assert!(matches!(images.run_with_status_fails_complete(), Step::Done { failed: false }));
}

#[test]
fn status_fails_with_reset_with_validate_slot0() {
    let validating =
        Caps { swap_upgrade: true, overwrite_only: false, validate_slot0: true, trailer_sz: 424 };
    let images = upgrade_fixture(DeviceName::K64f, 4, validating);
    let total = images.total_count.unwrap();
    let (end, boots) = run_scenario(&images, Scenario::StatusFailsWithReset);
    assert_eq!(end, End::Done(false));
    assert_eq!(boots, [(Some(total / 2), true), (None, true)]);

    // After the first boot the bad region is gone and writes are not verified.
    let mut flash = images.start_upgrade();
    flash.add_bad_region(0, 16, 1).unwrap();
    flash.write(64, &[0, 0, 0, 0]).unwrap();
    let report = BootReport { result: INTERRUPTED, asserts: 0, counter: 0 };
    match Images::resume_status_fails_with_reset(false, false, flash, report) {
        Step::Boot { flash, counter: None, catch_asserts: true, resume } => {
            assert!(matches!(resume, Resume::StatusFailsWithReset { second: true, failed: false }));
            assert!(!flash.can_fail(0, 16));
            assert!(flash.write_fault(64, 4).is_none());
        }
        _ => panic!("expected the second boot"),
    }
    // One assertion in the second boot is allowed, two are not.
    let flash = images.flash.clone();
    let report = BootReport { result: 0, asserts: 1, counter: 0 };
    assert!(matches!(
        Images::resume_status_fails_with_reset(true, false, flash, report),
        Step::Done { failed: false }
    ));
    let flash = images.flash.clone();
    let report = BootReport { result: 0, asserts: 2, counter: 0 };
    assert!(matches!(
        Images::resume_status_fails_with_reset(true, false, flash, report),
        Step::Done { failed: true }
    ));
    // An assertion in the first boot is a failure.
    let flash = images.flash.clone();
    let report = BootReport { result: INTERRUPTED, asserts: 1, counter: 0 };
    match Images::resume_status_fails_with_reset(false, false, flash, report) {
        Step::Boot { resume, .. } => {
            assert!(matches!(resume, Resume::StatusFailsWithReset { second: true, failed: true }))
        }
        _ => panic!("expected the second boot"),
    }
}

#[test]
fn status_fails_without_validate_slot0_expects_an_assertion() {
    let images = upgrade_fixture(DeviceName::K64f, 1, caps());
    let (end, boots) = run_scenario(&images, Scenario::StatusFailsWithReset);
    assert_eq!(end, End::Done(false));
    assert_eq!(boots, [(None, true)]);
    assert!(matches!(
        Images::resume_status_fails_assert(BootReport { result: 0, asserts: 0, counter: 0 }),
        Step::Done { failed: true }
    ));
    assert!(matches!(
        Images::resume_status_fails_assert(BootReport { result: 0, asserts: 3, counter: 0 }),
        Step::Done { failed: false }
    ));
}

#[test]
fn status_area_lies_in_front_of_slot1() {
    let caps = Caps { swap_upgrade: true, overwrite_only: false, validate_slot0: true, trailer_sz: 100 };
    let run = Run::new(DeviceName::K64f, 1, caps);
    let images = run.make_image(&tails_for(&run));
    assert_eq!(images.trailer_sz(), 100);
    assert_eq!(images.status_sz(), 60);
    assert!(images.is_ready(Scenario::StatusFailsComplete));
    // A trailer without room for the magic and the flags has no status area.
    let caps = Caps { swap_upgrade: true, overwrite_only: false, validate_slot0: true, trailer_sz: 39 };
    let run = Run::new(DeviceName::K64f, 1, caps);
    let images = run.make_image(&tails_for(&run));
    assert!(!images.is_ready(Scenario::StatusFailsComplete));
    assert!(!images.is_ready(Scenario::StatusFailsWithReset));
    assert!(images.is_ready(Scenario::NoRevert));
}

#[test]
fn whole_run_on_one_device() {
    let run = Run::new(DeviceName::Stm32f4, 1, caps());
    let tails = tails_for(&run);
    let mut verdicts = Vec::new();
    let bad = run.make_bad_slot1_image(&tails);
    verdicts.push(run_scenario(&bad, Scenario::SignFailUpgrade).0);
    let plain = run.make_no_upgrade_image(&tails);
    verdicts.push(run_scenario(&plain, Scenario::NoRevertNewImage).0);
    let images = upgrade_fixture(DeviceName::Stm32f4, 1, caps());
    let plan = run_plan();
    assert!(matches!(plan[0], (Fixture::BadSlot1, Scenario::SignFailUpgrade)));
    assert!(matches!(plan[1], (Fixture::NoUpgrade, Scenario::NoRevertNewImage)));
    assert!(matches!(plan[5], (Fixture::Upgrade, Scenario::PermWithRandomFails(5))));
    for (fixture, scenario) in &plan[2..] {
        assert_eq!(*fixture, Fixture::Upgrade);
        verdicts.push(run_scenario(&images, *scenario).0);
    }
    assert_eq!(verdicts.len(), 9);
    assert!(verdicts.iter().all(|end| *end == End::Done(false)));
    let failed: Vec<bool> = verdicts.iter().map(|end| *end != End::Done(false)).collect();
    let mut status = bootsim::status::RunStatus::new();
    status.run_single(&failed);
    assert_eq!(status.failures(), 0);
    assert_eq!(status.passes(), 1);
}

#[test]
fn attempt_count_adds_the_stop_to_what_the_second_boot_counted() {
    let done = |counter| BootReport { result: 0, asserts: 0, counter };
    assert_eq!(Images::attempt_count(5, true, &done(-12)), Some(17));
    assert_eq!(Images::attempt_count(5, false, &done(-12)), Some(12));
    assert_eq!(Images::attempt_count(1, true, &done(0)), Some(1));
    assert_eq!(Images::attempt_count(0, false, &done(i32::MIN)), None);
    assert_eq!(Images::attempt_count(1, true, &done(-i32::MAX)), None);
    assert_eq!(Images::attempt_count(0, true, &done(-i32::MAX)), Some(i32::MAX));

    // With the stand-in: interrupted at 3, the whole upgrade still takes
    // two operations fewer than the count of the basic upgrade plus the stop.
    let images = upgrade_fixture(DeviceName::K64f, 1, caps());
    let total = images.total_count.unwrap();
    let mut loader = Loader::new(&images);
    let mut flash = images.start_upgrade();
    assert_eq!(loader.boot(&mut flash, Some(3), false).result, INTERRUPTED);
    let report = loader.boot(&mut flash, Some(0), false);
    assert_eq!(report.result, 0);
    assert_eq!(Images::attempt_count(3, true, &report), Some(3 + total - 2));
}
