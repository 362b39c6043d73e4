//! A run of the harness on one device: the blank device, where its slots
//! are, and the fixtures that are built from it.

use crate::area::{AreaDesc, AreaState, FlashId};
use crate::device::{
    all_aligns, all_devices, device_area, device_areas, device_sectors, is_valid_align,
    lemma_device_size, make_device, DeviceName,
};
use crate::flash::{is_power_of_two, FlashState, SimFlash};
use crate::harness::{slots_fit, Caps, Images};
use crate::image::{
    image_bytes, image_len, install_image, installable, installed, pad_len, signed_bytes,
    signed_part, HEADER_SIZE,
};
use crate::machine::Scenario;
use crate::trailer::{
    lemma_write_elsewhere, mark_upgrade, takes_write, SlotInfo, BOOT_MAGIC_SZ, BOOT_MAX_ALIGN,
    MAGIC_VALID, TRAILER_SZ,
};
use vstd::prelude::*;

verus! {

/// The length of the body of the image that goes to slot 0.
pub const PRIMARY_LEN: usize = 32784;

/// The length of the body of the image that goes to slot 1.
pub const UPGRADE_LEN: usize = 41928;

/// What the TLV generator made for the two test images of a run.
pub struct Tails {
    /// The size of a tail, as the generator reports it before it has seen
    /// an image.
    pub size: u16,
    /// The header flags that the generator reports.
    pub flags: u32,
    /// The tail for the header and the body of the image in slot 0.
    pub primary: Vec<u8>,
    /// The tail for the header and the body of the image in slot 1.
    pub upgrade: Vec<u8>,
}

/// A run of the harness on one device.
pub struct Run {
    /// The blank device.
    pub flash: SimFlash,
    /// The areas of the device.
    pub areadesc: AreaDesc,
    /// The slot that the device boots from.
    pub slot0: SlotInfo,
    /// The slot that holds the upgrade.
    pub slot1: SlotInfo,
    /// The write alignment of the device.
    pub align: u8,
    /// What the bootloader was built with.
    pub caps: Caps,
}

/// The alignments of the harness are powers of two.
pub proof fn lemma_valid_align_is_power_of_two(align: u8)
    requires
        is_valid_align(align),
    ensures
        is_power_of_two(align as usize),
{
    assert(1usize & 0usize == 0) by (bit_vector);
    assert(2usize & 1usize == 0) by (bit_vector);
    assert(4usize & 3usize == 0) by (bit_vector);
    assert(8usize & 7usize == 0) by (bit_vector);
}

/// A multiple of 8 is a multiple of every alignment of the harness.
pub proof fn lemma_multiple_of_align(x: int, align: u8)
    requires
        x % 8 == 0,
        is_valid_align(align),
    ensures
        x % (align as int) == 0,
{
    if align == 1 {
        assert(x % 1 == 0);
    } else if align == 2 {
        assert(x % 2 == 0);
    } else if align == 4 {
        assert(x % 4 == 0);
    } else {
        assert(x % 8 == 0);
    }
}

/// A blank device takes every aligned write that lies inside it.
pub proof fn lemma_blank_takes_write(flash: FlashState, offset: int, len: int, align: u8)
    requires
        flash.wf(),
        flash == FlashState::blank(flash.sectors, align as usize),
        is_valid_align(align),
        0 <= offset,
        0 <= len,
        offset + len <= flash.data.len(),
        offset % 8 == 0,
        len % 8 == 0 || len == align,
    ensures
        takes_write(flash, offset, len),
{
    lemma_multiple_of_align(offset, align);
    if len % 8 == 0 {
        lemma_multiple_of_align(len, align);
    }
}

impl Run {
    /// The invariant of a run: a blank device and two slots that fit it.
    pub open spec fn wf(&self) -> bool {
        &&& self.flash@.wf()
        &&& self.flash@ == FlashState::blank(self.flash@.sectors, self.align as usize)
        &&& is_valid_align(self.align)
        &&& slots_fit(self.flash@.data.len(), self.slot0, self.slot1)
        &&& self.slot0.base_off as int % 8 == 0
        &&& self.slot1.base_off as int % 8 == 0
    }

    /// The room of the smaller of the two slots, trailer not counted.
    pub open spec fn room(&self) -> int {
        if self.slot0.trailer_off - self.slot0.base_off <= self.slot1.trailer_off
            - self.slot1.base_off {
            self.slot0.trailer_off - self.slot0.base_off
        } else {
            self.slot1.trailer_off - self.slot1.base_off
        }
    }

    /// Both test images, with these tails, fit either slot.
    pub open spec fn fits(&self, tails: &Tails) -> bool {
        &&& image_len(PRIMARY_LEN as int, tails.primary@.len() as int) <= self.room()
        &&& image_len(UPGRADE_LEN as int, tails.upgrade@.len() as int) <= self.room()
    }

    /// The device with both test images installed; the one in slot 1 with a
    /// wrong signature for `bad_sig`.
    pub open spec fn loaded(&self, tails: &Tails, bad_sig: bool) -> FlashState {
        installed(
            installed(
                self.flash@,
                self.slot0.base_off,
                PRIMARY_LEN,
                false,
                tails.size,
                tails.flags,
                tails.primary@,
            ),
            self.slot1.base_off,
            UPGRADE_LEN,
            bad_sig,
            tails.size,
            tails.flags,
            tails.upgrade@,
        )
    }

    /// `images` is the fixture of this run whose device is `flash`.
    pub open spec fn fixture(
        &self,
        images: &Images,
        tails: &Tails,
        bad_sig: bool,
        flash: FlashState,
    ) -> bool {
        &&& images.wf()
        &&& images.flash@ == flash
        &&& images.areadesc@ == self.areadesc@
        &&& images.slot0 == self.slot0
        &&& images.slot1 == self.slot1
        &&& images.primary@ == image_bytes(
            self.slot0.base_off,
            PRIMARY_LEN,
            false,
            tails.size,
            tails.flags,
            tails.primary@,
        )
        &&& images.upgrade@ == image_bytes(
            self.slot1.base_off,
            UPGRADE_LEN,
            bad_sig,
            tails.size,
            tails.flags,
            tails.upgrade@,
        )
        &&& images.total_count is None
        &&& images.align == self.align
        &&& images.caps == self.caps
    }

    /// The run is the one on `device` with the alignment `align`: a blank
    /// device with the sectors and the areas of `device`, and the two slots
    /// with their trailers at their ends.
    pub open spec fn is_for(&self, device: DeviceName, align: u8, caps: Caps) -> bool {
        &&& self.flash@ == FlashState::blank(device_sectors(device), align as usize)
        &&& self.areadesc@ == device_areas(device)
        &&& self.areadesc.wf()
        &&& self.slot0 == (SlotInfo {
            base_off: device_area(device, FlashId::Image0).0,
            trailer_off: (device_area(device, FlashId::Image1).0 - TRAILER_SZ) as usize,
        })
        &&& self.slot1 == (SlotInfo {
            base_off: device_area(device, FlashId::Image1).0,
            trailer_off: (device_area(device, FlashId::ImageScratch).0 - TRAILER_SZ) as usize,
        })
        &&& self.align == align
        &&& self.caps == caps
    }

    /// The run on a device of the catalog. The slots are those of the
    /// device; each trailer lies at the end of its slot.
    pub fn new(device: DeviceName, align: u8, caps: Caps) -> (run: Run)
        requires
            is_valid_align(align),
        ensures
            run.wf(),
            run.is_for(device, align, caps),
    {
        proof {
            lemma_valid_align_is_power_of_two(align);
            lemma_device_size(device);
        }
        let (flash, areadesc) = make_device(device, align);
        proof {
            reveal_with_fuel(AreaState::position, 4);
            let areas = areadesc@.areas;
            assert(areas[0].whole.flash_id == FlashId::Image0);
            assert(areas[1].whole.flash_id == FlashId::Image1);
            assert(areas[2].whole.flash_id == FlashId::ImageScratch);
        }
        let (slot0_base, _slot0_len) = areadesc.find(FlashId::Image0);
        let (slot1_base, _slot1_len) = areadesc.find(FlashId::Image1);
        let (scratch_base, _) = areadesc.find(FlashId::ImageScratch);

        let offset_from_end = BOOT_MAGIC_SZ + BOOT_MAX_ALIGN * 2;

        let slot0 = SlotInfo { base_off: slot0_base, trailer_off: slot1_base - offset_from_end };
        let slot1 = SlotInfo { base_off: slot1_base, trailer_off: scratch_base - offset_from_end };

        Run { flash, areadesc, slot0, slot1, align, caps }
    }

    /// The devices of the catalog, in order.
    pub open spec fn devices() -> Seq<DeviceName> {
        seq![DeviceName::Stm32f4, DeviceName::K64f, DeviceName::K64fBig, DeviceName::Nrf52840]
    }

    /// The alignments of the harness, in order.
    pub open spec fn aligns() -> Seq<u8> {
        seq![1u8, 2u8, 4u8, 8u8]
    }

    /// A run for every device of the catalog with every alignment: the four
    /// alignments of the first device, then those of the second, and so on.
    /// `caps` says, for each of the four alignments in turn, what the
    /// bootloader was built with.
    pub fn each_device(caps: &[Caps]) -> (runs: Vec<Run>)
        requires
            caps@.len() == 4,
        ensures
            runs@.len() == 16,
            forall|d: int, a: int|
                #![trigger runs@[4 * d + a]]
                0 <= d < 4 && 0 <= a < 4 ==> runs@[4 * d + a].wf() && runs@[4 * d + a].is_for(
                    Self::devices()[d],
                    Self::aligns()[a],
                    caps@[a],
                ),
    {
        let devices = all_devices();
        let aligns = all_aligns();
        let mut runs: Vec<Run> = Vec::new();
        let mut d: usize = 0;
        while d < 4
            invariant
                d <= 4,
                caps@.len() == 4,
                devices@ == Self::devices(),
                aligns@ == Self::aligns(),
                runs@.len() == 4 * d,
                forall|i: int, j: int|
                    #![trigger runs@[4 * i + j]]
                    0 <= i < d && 0 <= j < 4 ==> runs@[4 * i + j].wf() && runs@[4 * i + j].is_for(
                        Self::devices()[i],
                        Self::aligns()[j],
                        caps@[j],
                    ),
            decreases 4 - d,
        {
            let mut a: usize = 0;
            while a < 4
                invariant
                    a <= 4,
                    d < 4,
                    caps@.len() == 4,
                    devices@ == Self::devices(),
                    aligns@ == Self::aligns(),
                    runs@.len() == 4 * d + a,
                    forall|i: int, j: int|
                        #![trigger runs@[4 * i + j]]
                        (0 <= i < d && 0 <= j < 4) || (i == d && 0 <= j < a) ==> runs@[4 * i
                            + j].wf() && runs@[4 * i + j].is_for(
                            Self::devices()[i],
                            Self::aligns()[j],
                            caps@[j],
                        ),
                decreases 4 - a,
            {
                let run = Run::new(devices[d], aligns[a], caps[a]);
                let ghost before = runs@;
                runs.push(run);
                assert forall|i: int, j: int|
                    #![trigger runs@[4 * i + j]]
                    (0 <= i < d && 0 <= j < 4) || (i == d && 0 <= j < a + 1) implies runs@[4 * i
                    + j].wf() && runs@[4 * i + j].is_for(
                    Self::devices()[i],
                    Self::aligns()[j],
                    caps@[j],
                ) by {
                    if 4 * i + j < before.len() {
                        assert(runs@[4 * i + j] == before[4 * i + j]);
                    }
                }
                a = a + 1;
            }
            d = d + 1;
        }
        runs
    }

    /// What the TLV generator has to sign for the two test images of this
    /// run: the header and the body of the image for slot 0, and those of
    /// the image for slot 1.
    pub fn signed_parts(&self, tlv_size: u16, flags: u32) -> (parts: (Vec<u8>, Vec<u8>))
        requires
            self.wf(),
        ensures
            parts.0@ == signed_bytes(self.slot0.base_off, PRIMARY_LEN, tlv_size, flags),
            parts.1@ == signed_bytes(self.slot1.base_off, UPGRADE_LEN, tlv_size, flags),
    {
        let primary = signed_part(self.slot0.base_off, PRIMARY_LEN, tlv_size, flags);
        let upgrade = signed_part(self.slot1.base_off, UPGRADE_LEN, tlv_size, flags);
        (primary, upgrade)
    }

    /// Whether both test images, with these tails, fit either slot.
    pub fn has_room(&self, tails: &Tails) -> (b: bool)
        requires
            self.wf(),
        ensures
            b == self.fits(tails),
    {
        let room0 = self.slot0.trailer_off - self.slot0.base_off;
        let room1 = self.slot1.trailer_off - self.slot1.base_off;
        let room = if room0 <= room1 {
            room0
        } else {
            room1
        };
        Self::image_fits(PRIMARY_LEN, tails.primary.len(), room) && Self::image_fits(
            UPGRADE_LEN,
            tails.upgrade.len(),
            room,
        )
    }

    fn image_fits(len: usize, tlv_len: usize, room: usize) -> (b: bool)
        ensures
            b == (image_len(len as int, tlv_len as int) <= room),
    {
        if room < HEADER_SIZE || len > room - HEADER_SIZE || tlv_len > room - HEADER_SIZE - len {
            return false;
        }
        let raw = len + tlv_len;
        let rem = raw % 8;
        let pad: usize = if rem == 0 {
            0
        } else {
            8 - rem
        };
        assert(pad == pad_len(raw as int));
        pad <= room - HEADER_SIZE - raw
    }

    fn make_images(&self, tails: &Tails, bad_sig: bool) -> (images: Images)
        requires
            self.wf(),
            self.fits(tails),
        ensures
            self.fixture(&images, tails, bad_sig, self.loaded(tails, bad_sig)),
            images.can_confirm_upgrade(),
            images.can_mark_both_slots(),
    {
        let mut flash = self.flash.clone();
        let ghost blank = flash@;
        let ghost len0 = image_len(PRIMARY_LEN as int, tails.primary@.len() as int);
        let ghost len1 = image_len(UPGRADE_LEN as int, tails.upgrade@.len() as int);
        proof {
            lemma_blank_takes_write(blank, self.slot0.base_off as int, 32, self.align);
            lemma_blank_takes_write(
                blank,
                self.slot0.base_off + HEADER_SIZE,
                len0 - HEADER_SIZE,
                self.align,
            );
        }
        let primary = install_image(
            &mut flash,
            self.slot0.base_off,
            PRIMARY_LEN,
            false,
            tails.size,
            tails.flags,
            tails.primary.as_slice(),
        );
        proof {
            lemma_blank_takes_write(blank, self.slot1.base_off as int, 32, self.align);
            lemma_blank_takes_write(
                blank,
                self.slot1.base_off + HEADER_SIZE,
                len1 - HEADER_SIZE,
                self.align,
            );
            self.lemma_install_elsewhere(
                blank,
                self.slot0.base_off,
                PRIMARY_LEN,
                false,
                tails.size,
                tails.flags,
                tails.primary@,
                self.slot1.base_off as int,
                32,
            );
            self.lemma_install_elsewhere(
                blank,
                self.slot0.base_off,
                PRIMARY_LEN,
                false,
                tails.size,
                tails.flags,
                tails.primary@,
                self.slot1.base_off + HEADER_SIZE,
                len1 - HEADER_SIZE,
            );
        }
        let upgrade = install_image(
            &mut flash,
            self.slot1.base_off,
            UPGRADE_LEN,
            bad_sig,
            tails.size,
            tails.flags,
            tails.upgrade.as_slice(),
        );
        proof {
            let magic0 = self.slot0.trailer_off + 2 * BOOT_MAX_ALIGN;
            let ok0 = self.slot0.trailer_off + BOOT_MAX_ALIGN;
            let magic1 = self.slot1.trailer_off + 2 * BOOT_MAX_ALIGN;
            let ok1 = self.slot1.trailer_off + BOOT_MAX_ALIGN;
            self.lemma_loaded_takes_write(tails, bad_sig, magic0, BOOT_MAGIC_SZ as int);
            self.lemma_loaded_takes_write(tails, bad_sig, ok0, self.align as int);
            self.lemma_loaded_takes_write(tails, bad_sig, magic1, BOOT_MAGIC_SZ as int);
            self.lemma_loaded_takes_write(tails, bad_sig, ok1, self.align as int);
        }
        Images {
            flash,
            areadesc: self.areadesc.clone(),
            slot0: self.slot0,
            slot1: self.slot1,
            primary,
            upgrade,
            total_count: None,
            align: self.align,
            caps: self.caps,
        }
    }

    /// An installation leaves the device able to take any write outside the
    /// image that it could take before.
    proof fn lemma_install_elsewhere(
        &self,
        flash: FlashState,
        offset: usize,
        len: usize,
        bad_sig: bool,
        tlv_size: u16,
        flags: u32,
        tlv: Seq<u8>,
        other: int,
        other_len: int,
    )
        requires
            flash.wf(),
            installable(flash, offset, len, tlv.len()),
            0 <= other,
            takes_write(flash, other, other_len),
            other + other_len <= offset || offset + image_len(len as int, tlv.len() as int)
                <= other,
        ensures
            takes_write(
                installed(flash, offset, len, bad_sig, tlv_size, flags, tlv),
                other,
                other_len,
            ),
    {
        let header = crate::image::ImageHeader::for_image(offset, len, tlv_size, flags).wire();
        let payload = crate::image::image_payload(
            crate::image::image_body(offset, len),
            tlv,
            bad_sig,
        );
        crate::image::lemma_wire_len(crate::image::ImageHeader::for_image(
            offset,
            len,
            tlv_size,
            flags,
        ));
        lemma_write_elsewhere(flash, offset as int, header, other, other_len);
        let mid = flash.written(offset as int, header);
        assert(mid.wf()) by {
            assert(mid.bad_regions == flash.bad_regions);
        }
        lemma_write_elsewhere(mid, offset + HEADER_SIZE, payload, other, other_len);
    }

    /// The device with both images installed takes every write to the
    /// trailers that the blank device takes.
    proof fn lemma_loaded_takes_write(&self, tails: &Tails, bad_sig: bool, offset: int, len: int)
        requires
            self.wf(),
            self.fits(tails),
            0 <= len,
            len % 8 == 0 || len == self.align,
            offset % 8 == 0,
            (self.slot0.trailer_off <= offset && offset + len <= self.slot0.trailer_off
                + TRAILER_SZ) || (self.slot1.trailer_off <= offset && offset + len
                <= self.slot1.trailer_off + TRAILER_SZ),
        ensures
            takes_write(self.loaded(tails, bad_sig), offset, len),
    {
        let blank = self.flash@;
        let len0 = image_len(PRIMARY_LEN as int, tails.primary@.len() as int);
        let len1 = image_len(UPGRADE_LEN as int, tails.upgrade@.len() as int);
        lemma_blank_takes_write(blank, offset, len, self.align);
        lemma_blank_takes_write(blank, self.slot0.base_off as int, 32, self.align);
        lemma_blank_takes_write(
            blank,
            self.slot0.base_off + HEADER_SIZE,
            len0 - HEADER_SIZE,
            self.align,
        );
        lemma_blank_takes_write(blank, self.slot1.base_off as int, 32, self.align);
        lemma_blank_takes_write(
            blank,
            self.slot1.base_off + HEADER_SIZE,
            len1 - HEADER_SIZE,
            self.align,
        );
        self.lemma_install_elsewhere(
            blank,
            self.slot0.base_off,
            PRIMARY_LEN,
            false,
            tails.size,
            tails.flags,
            tails.primary@,
            offset,
            len,
        );
        let first = installed(
            blank,
            self.slot0.base_off,
            PRIMARY_LEN,
            false,
            tails.size,
            tails.flags,
            tails.primary@,
        );
        self.lemma_install_elsewhere(
            blank,
            self.slot0.base_off,
            PRIMARY_LEN,
            false,
            tails.size,
            tails.flags,
            tails.primary@,
            self.slot1.base_off as int,
            32,
        );
        self.lemma_install_elsewhere(
            blank,
            self.slot0.base_off,
            PRIMARY_LEN,
            false,
            tails.size,
            tails.flags,
            tails.primary@,
            self.slot1.base_off + HEADER_SIZE,
            len1 - HEADER_SIZE,
        );
        assert(first.wf()) by {
            assert(first.bad_regions == blank.bad_regions);
        }
        self.lemma_install_elsewhere(
            first,
            self.slot1.base_off,
            UPGRADE_LEN,
            bad_sig,
            tails.size,
            tails.flags,
            tails.upgrade@,
            offset,
            len,
        );
    }

    /// The fixture for tests that expect no upgrade: an image in each slot
    /// and no slot marked.
    pub fn make_no_upgrade_image(&self, tails: &Tails) -> (images: Images)
        requires
            self.wf(),
            self.fits(tails),
        ensures
            self.fixture(&images, tails, false, self.loaded(tails, false)),
            images.ready(Scenario::NoRevertNewImage),
    {
        self.make_images(tails, false)
    }

    /// The fixture for the upgrade tests: an image in each slot, and slot 1
    /// marked for upgrade. The number of flash operations of an upgrade is
    /// still to be measured, by the basic upgrade.
    pub fn make_image(&self, tails: &Tails) -> (images: Images)
        requires
            self.wf(),
            self.fits(tails),
        ensures
            self.fixture(
                &images,
                tails,
                false,
                self.loaded(tails, false).written(
                    self.slot1.trailer_off + 2 * BOOT_MAX_ALIGN,
                    MAGIC_VALID@,
                ),
            ),
            images.ready(Scenario::BasicUpgrade),
    {
        let mut images = self.make_images(tails, false);
        proof {
            lemma_write_elsewhere(
                images.flash@,
                self.slot1.trailer_off + 2 * BOOT_MAX_ALIGN,
                MAGIC_VALID@,
                self.slot1.trailer_off + BOOT_MAX_ALIGN,
                self.align as int,
            );
        }
        mark_upgrade(&mut images.flash, &images.slot1);
        images
    }

    /// The fixture for the test of a bad signature: as
    /// `make_no_upgrade_image`, but the image in slot 1 has zeros where its
    /// tail should be.
    pub fn make_bad_slot1_image(&self, tails: &Tails) -> (images: Images)
        requires
            self.wf(),
            self.fits(tails),
        ensures
            self.fixture(&images, tails, true, self.loaded(tails, true)),
            images.ready(Scenario::SignFailUpgrade),
    {
        self.make_images(tails, true)
    }
}

} // verus!
