//! The trailer of an image slot: the bytes at its high end that carry the
//! state of an upgrade.
//!
//! Seen from the trailer's offset, byte 0 holds `copy_done`, byte
//! `BOOT_MAX_ALIGN` holds `image_ok`, and the magic takes the
//! `BOOT_MAGIC_SZ` bytes from `2 * BOOT_MAX_ALIGN` on.

use crate::flash::{Flash, FlashState, SimFlash};
use vstd::prelude::*;

verus! {

/// The size of the magic in bytes.
pub const BOOT_MAGIC_SZ: usize = 16;

/// The largest write alignment that the bootloader supports: each flag of the
/// trailer has this many bytes to itself.
pub const BOOT_MAX_ALIGN: usize = 8;

/// The size of the part of the trailer that holds the flags and the magic.
pub const TRAILER_SZ: usize = 32;

/// The magic of a slot that asks for an upgrade.
pub const MAGIC_VALID: [u8; 16] = [
    0x77,
    0xc2,
    0x95,
    0xf3,
    0x60,
    0xd2,
    0xef,
    0x7f,
    0x35,
    0x52,
    0x50,
    0x0f,
    0x2c,
    0xb6,
    0x79,
    0x80,
];

/// The magic of a slot in which nothing is pending.
pub const MAGIC_UNSET: [u8; 16] = [
    0xff,
    0xff,
    0xff,
    0xff,
    0xff,
    0xff,
    0xff,
    0xff,
    0xff,
    0xff,
    0xff,
    0xff,
    0xff,
    0xff,
    0xff,
    0xff,
];

/// The value of `copy_done` once a swap has been completed.
pub const COPY_DONE: u8 = 1;

/// The value of `image_ok` once an image has been confirmed.
pub const IMAGE_OK: u8 = 1;

/// The value of a flag that has not been written.
pub const UNSET: u8 = 0xff;

/// Where a slot and its trailer are.
#[derive(Debug, Clone, Copy)]
pub struct SlotInfo {
    /// The offset of the slot.
    pub base_off: usize,
    /// The offset of the slot's trailer: the end of the slot less
    /// `TRAILER_SZ`.
    pub trailer_off: usize,
}

/// The `copy_done` flag of the trailer at `offset`.
pub open spec fn trailer_copy_done(flash: FlashState, offset: int) -> u8 {
    flash.data[offset]
}

/// The `image_ok` flag of the trailer at `offset`.
pub open spec fn trailer_image_ok(flash: FlashState, offset: int) -> u8 {
    flash.data[offset + BOOT_MAX_ALIGN]
}

/// The magic of the trailer at `offset`.
pub open spec fn trailer_magic(flash: FlashState, offset: int) -> Seq<u8> {
    flash.bytes(offset + 2 * BOOT_MAX_ALIGN, BOOT_MAGIC_SZ as int)
}

/// The trailer at `offset` holds each of the values that are given.
pub open spec fn trailer_matches(
    flash: FlashState,
    offset: int,
    magic: Option<Seq<u8>>,
    image_ok: Option<u8>,
    copy_done: Option<u8>,
) -> bool {
    &&& magic matches Some(m) ==> trailer_magic(flash, offset) == m
    &&& image_ok matches Some(v) ==> trailer_image_ok(flash, offset) == v
    &&& copy_done matches Some(v) ==> trailer_copy_done(flash, offset) == v
}

/// What is written to confirm an image: `IMAGE_OK`, then padding that leaves
/// the bytes after it erased, `align` bytes in all.
pub open spec fn image_ok_bytes(align: u8) -> Seq<u8> {
    Seq::new(align as nat, |i: int| if i == 0 { IMAGE_OK } else { UNSET })
}

/// The view of a magic that may be absent.
pub open spec fn magic_view(magic: Option<&[u8]>) -> Option<Seq<u8>> {
    match magic {
        Some(m) => Some(m@),
        None => None,
    }
}

/// The device takes a write of `len` bytes at `offset`, and no bad region can
/// fail it.
pub open spec fn takes_write(flash: FlashState, offset: int, len: int) -> bool {
    flash.writable(offset, len) && !flash.may_fail(offset, len)
}

/// Whether the device takes a write of `len` bytes at `offset` and no bad
/// region can fail it.
pub fn can_take_write(flash: &SimFlash, offset: usize, len: usize) -> (b: bool)
    requires
        flash@.wf(),
    ensures
        b == takes_write(flash@, offset as int, len as int),
{
    flash.write_fault(offset, len).is_none() && !flash.can_fail(offset, len)
}

/// A write leaves the device able to take any write to other bytes that it
/// could take before.
pub proof fn lemma_write_elsewhere(
    flash: FlashState,
    offset: int,
    payload: Seq<u8>,
    other: int,
    len: int,
)
    requires
        flash.wf(),
        0 <= other,
        takes_write(flash, other, len),
        other + len <= offset || offset + payload.len() <= other,
    ensures
        takes_write(flash.written(offset, payload), other, len),
{
    let after = flash.written(offset, payload);
    if flash.verify_writes {
        assert forall|i: int| other <= i < other + len implies #[trigger] after.write_safe[i] by {
            assert(flash.write_safe[i]);
        }
    }
    assert(after.bad_regions == flash.bad_regions);
}

/// Writes the magic into the trailer of `slot`, so that the bootloader tries
/// an upgrade.
pub fn mark_upgrade<F: Flash>(flash: &mut F, slot: &SlotInfo)
    requires
        old(flash).state().wf(),
        takes_write(
            old(flash).state(),
            slot.trailer_off + 2 * BOOT_MAX_ALIGN,
            BOOT_MAGIC_SZ as int,
        ),
    ensures
        final(flash).state().wf(),
        final(flash).state() == old(flash).state().written(
            slot.trailer_off + 2 * BOOT_MAX_ALIGN,
            MAGIC_VALID@,
        ),
{
    let offset = slot.trailer_off + BOOT_MAX_ALIGN * 2;
    let magic = MAGIC_VALID;
    let wrote = flash.write(offset, magic.as_slice());
    assert(wrote is Ok);
}

/// Writes the `image_ok` flag into the trailer of `slot`, which tells the
/// bootloader that the image is confirmed and is not to be reverted. The
/// write has `align` bytes.
pub fn mark_permanent_upgrade<F: Flash>(flash: &mut F, slot: &SlotInfo, align: u8)
    requires
        old(flash).state().wf(),
        align <= BOOT_MAX_ALIGN,
        takes_write(old(flash).state(), slot.trailer_off + BOOT_MAX_ALIGN, align as int),
    ensures
        final(flash).state().wf(),
        final(flash).state() == old(flash).state().written(
            slot.trailer_off + BOOT_MAX_ALIGN,
            image_ok_bytes(align),
        ),
{
    let mut ok: Vec<u8> = Vec::new();
    let mut i: u8 = 0;
    while i < align
        invariant
            i <= align,
            ok@ == image_ok_bytes(i),
        decreases align - i,
    {
        if i == 0 {
            ok.push(IMAGE_OK);
        } else {
            ok.push(UNSET);
        }
        i = i + 1;
        assert(ok@ =~= image_ok_bytes(i));
    }
    let off = slot.trailer_off + BOOT_MAX_ALIGN;
    let wrote = flash.write(off, ok.as_slice());
    assert(wrote is Ok);
}

/// Whether the trailer at `offset` holds each of the values that are given;
/// a value that is `None` is not looked at.
pub fn verify_trailer<F: Flash>(
    flash: &F,
    offset: usize,
    magic: Option<&[u8]>,
    image_ok: Option<u8>,
    copy_done: Option<u8>,
) -> (ok: bool)
    requires
        flash.state().wf(),
        flash.state().readable(offset as int, TRAILER_SZ as int),
    ensures
        ok == trailer_matches(
            flash.state(),
            offset as int,
            magic_view(magic),
            image_ok,
            copy_done,
        ),
{
    let mut copy: Vec<u8> = vec![0u8; BOOT_MAGIC_SZ + BOOT_MAX_ALIGN * 2];
    let mut failed = false;
    let got = flash.read(offset, &mut copy);
    assert(got is Ok);
    assert(copy@[0] == trailer_copy_done(flash.state(), offset as int));
    assert(copy@[8] == trailer_image_ok(flash.state(), offset as int));
    assert(copy@.subrange(16, 32) =~= trailer_magic(flash.state(), offset as int));

    match magic {
        Some(v) => {
            if v.len() != BOOT_MAGIC_SZ {
                failed = true;
            } else {
                let mut i: usize = 0;
                let mut same = true;
                while i < BOOT_MAGIC_SZ
                    invariant
                        i <= BOOT_MAGIC_SZ,
                        v@.len() == BOOT_MAGIC_SZ,
                        copy@.len() == 32,
                        same == forall|j: int| 0 <= j < i ==> copy@[16 + j] == v@[j],
                    decreases BOOT_MAGIC_SZ - i,
                {
                    if copy[16 + i] != v[i] {
                        same = false;
                    }
                    i = i + 1;
                }
                proof {
                    if same {
                        assert(copy@.subrange(16, 32) =~= v@);
                    } else {
                        let j = choose|j: int| 0 <= j < 16 && copy@[16 + j] != v@[j];
                        assert(copy@.subrange(16, 32)[j] != v@[j]);
                    }
                }
                if !same {
                    failed = true;
                }
            }
        },
        None => {},
    }

    match image_ok {
        Some(v) => {
            if copy[8] != v {
                failed = true;
            }
        },
        None => {},
    }

    match copy_done {
        Some(v) => {
            if copy[0] != v {
                failed = true;
            }
        },
        None => {},
    }

    !failed
}

/// The layout of the trailer: `copy_done` is its first byte, `image_ok` the
/// byte at `BOOT_MAX_ALIGN`, and the magic the 16 bytes from
/// `2 * BOOT_MAX_ALIGN` on.
pub proof fn law_trailer_layout(
    flash: FlashState,
    offset: usize,
    magic: Seq<u8>,
    image_ok: u8,
    copy_done: u8,
)
    requires
        flash.readable(offset as int, TRAILER_SZ as int),
    ensures
        trailer_matches(flash, offset as int, Some(magic), Some(image_ok), Some(copy_done)) <==> {
            &&& flash.data[offset as int] == copy_done
            &&& flash.data[offset + BOOT_MAX_ALIGN] == image_ok
            &&& magic.len() == BOOT_MAGIC_SZ
            &&& forall|i: int|
                0 <= i < BOOT_MAGIC_SZ ==> flash.data[offset + 2 * BOOT_MAX_ALIGN + i] == magic[i]
        },
{
    let stored = trailer_magic(flash, offset as int);
    if stored == magic {
        assert forall|i: int| 0 <= i < BOOT_MAGIC_SZ implies flash.data[offset + 2
            * BOOT_MAX_ALIGN + i] == magic[i] by {
            assert(stored[i] == magic[i]);
        }
    }
    if magic.len() == BOOT_MAGIC_SZ && (forall|i: int|
        0 <= i < BOOT_MAGIC_SZ ==> flash.data[offset + 2 * BOOT_MAX_ALIGN + i] == magic[i]) {
        assert(stored =~= magic);
    }
}

/// Marking a slot for upgrade sets its magic and leaves both flags as they
/// were.
pub proof fn law_mark_upgrade_sets_magic(flash: FlashState, slot: SlotInfo)
    requires
        flash.readable(slot.trailer_off as int, TRAILER_SZ as int),
    ensures
        ({
            let after = flash.written(slot.trailer_off + 2 * BOOT_MAX_ALIGN, MAGIC_VALID@);
            &&& trailer_magic(after, slot.trailer_off as int) == MAGIC_VALID@
            &&& trailer_image_ok(after, slot.trailer_off as int) == trailer_image_ok(
                flash,
                slot.trailer_off as int,
            )
            &&& trailer_copy_done(after, slot.trailer_off as int) == trailer_copy_done(
                flash,
                slot.trailer_off as int,
            )
        }),
{
    let after = flash.written(slot.trailer_off + 2 * BOOT_MAX_ALIGN, MAGIC_VALID@);
    assert(trailer_magic(after, slot.trailer_off as int) =~= MAGIC_VALID@);
}

/// Confirming a slot sets its `image_ok` flag and leaves the magic and
/// `copy_done` as they were.
pub proof fn law_mark_permanent_sets_image_ok(flash: FlashState, slot: SlotInfo, align: u8)
    requires
        flash.readable(slot.trailer_off as int, TRAILER_SZ as int),
        0 < align <= BOOT_MAX_ALIGN,
    ensures
        ({
            let after = flash.written(slot.trailer_off + BOOT_MAX_ALIGN, image_ok_bytes(align));
            &&& trailer_image_ok(after, slot.trailer_off as int) == IMAGE_OK
            &&& trailer_magic(after, slot.trailer_off as int) == trailer_magic(
                flash,
                slot.trailer_off as int,
            )
            &&& trailer_copy_done(after, slot.trailer_off as int) == trailer_copy_done(
                flash,
                slot.trailer_off as int,
            )
        }),
{
    let after = flash.written(slot.trailer_off + BOOT_MAX_ALIGN, image_ok_bytes(align));
    assert(trailer_magic(after, slot.trailer_off as int) =~= trailer_magic(
        flash,
        slot.trailer_off as int,
    ));
}

} // verus!
