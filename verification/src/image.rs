//! Firmware images for the tests: a header, a body of pseudorandom bytes and
//! the tail that a TLV generator made for the two.

use crate::flash::{Flash, FlashState, SimFlash};
use crate::random::{xorshift_bytes, xorshift_fill};
use crate::trailer::can_take_write;
use vstd::prelude::*;

verus! {

/// The first word of every image header.
pub const IMAGE_MAGIC: u32 = 0x96f3b83d;

/// The size of an image header in bytes.
pub const HEADER_SIZE: usize = 32;

/// The version of an image.
#[derive(Debug, Clone, Copy)]
pub struct ImageVersion {
    /// The major version.
    pub major: u8,
    /// The minor version.
    pub minor: u8,
    /// The revision.
    pub revision: u16,
    /// The number of the build.
    pub build_num: u32,
}

/// The image header.
#[derive(Debug, Clone, Copy)]
pub struct ImageHeader {
    /// `IMAGE_MAGIC`.
    pub magic: u32,
    /// The size of the tail that follows the body.
    pub tlv_size: u16,
    /// The number of the key that signed the image.
    pub key_id: u8,
    /// Padding.
    pub _pad1: u8,
    /// The size of the header.
    pub hdr_size: u16,
    /// Padding.
    pub _pad2: u16,
    /// The size of the body; the header does not count.
    pub img_size: u32,
    /// What the tail holds.
    pub flags: u32,
    /// The version of the image.
    pub ver: ImageVersion,
    /// Padding.
    pub _pad3: u32,
}

/// The two bytes of `x`, low byte first.
pub open spec fn le16(x: u16) -> Seq<u8> {
    seq![(x & 0xff) as u8, (x >> 8) as u8]
}

/// The four bytes of `x`, low byte first.
pub open spec fn le32(x: u32) -> Seq<u8> {
    seq![
        (x & 0xff) as u8,
        ((x >> 8) & 0xff) as u8,
        ((x >> 16) & 0xff) as u8,
        (x >> 24) as u8,
    ]
}

fn push_le16(out: &mut Vec<u8>, x: u16)
    ensures
        final(out)@ == old(out)@ + le16(x),
{
    out.push((x & 0xff) as u8);
    out.push((x >> 8) as u8);
    assert(out@ =~= old(out)@ + le16(x));
}

fn push_le32(out: &mut Vec<u8>, x: u32)
    ensures
        final(out)@ == old(out)@ + le32(x),
{
    out.push((x & 0xff) as u8);
    out.push(((x >> 8) & 0xff) as u8);
    out.push(((x >> 16) & 0xff) as u8);
    out.push((x >> 24) as u8);
    assert(out@ =~= old(out)@ + le32(x));
}

impl ImageHeader {
    /// The header of the test image of `len` bytes that goes to `offset`: the
    /// image's size does not count the header, and the version is made up
    /// from the offset.
    pub open spec fn for_image(offset: usize, len: usize, tlv_size: u16, flags: u32) -> ImageHeader {
        ImageHeader {
            magic: IMAGE_MAGIC,
            tlv_size,
            key_id: 0,
            _pad1: 0,
            hdr_size: 32,
            _pad2: 0,
            img_size: len as u32,
            flags,
            ver: ImageVersion {
                major: (offset / 0x2_0000) as u8,
                minor: 0,
                revision: 1,
                build_num: offset as u32,
            },
            _pad3: 0,
        }
    }

    /// The header as it stands in flash: the fields in order, each with its
    /// low byte first, 32 bytes in all.
    pub open spec fn wire(self) -> Seq<u8> {
        le32(self.magic) + le16(self.tlv_size) + seq![self.key_id, self._pad1] + le16(
            self.hdr_size,
        ) + le16(self._pad2) + le32(self.img_size) + le32(self.flags) + seq![
            self.ver.major,
            self.ver.minor,
        ] + le16(self.ver.revision) + le32(self.ver.build_num) + le32(self._pad3)
    }

    /// Makes the header of the test image of `len` bytes that goes to
    /// `offset`, with what the TLV generator reports as its size and flags.
    pub fn new(offset: usize, len: usize, tlv_size: u16, flags: u32) -> (header: ImageHeader)
        ensures
            header == ImageHeader::for_image(offset, len, tlv_size, flags),
    {
        ImageHeader {
            magic: IMAGE_MAGIC,
            tlv_size,
            key_id: 0,
            _pad1: 0,
            hdr_size: 32,
            _pad2: 0,
            img_size: len as u32,
            flags,
            ver: ImageVersion {
                major: (offset / 0x2_0000) as u8,
                minor: 0,
                revision: 1,
                build_num: offset as u32,
            },
            _pad3: 0,
        }
    }

    /// The bytes of the header as they stand in flash.
    pub fn as_raw(&self) -> (raw: Vec<u8>)
        ensures
            raw@ == self.wire(),
            raw@.len() == HEADER_SIZE,
    {
        let mut raw: Vec<u8> = Vec::new();
        push_le32(&mut raw, self.magic);
        push_le16(&mut raw, self.tlv_size);
        raw.push(self.key_id);
        raw.push(self._pad1);
        assert(raw@ =~= le32(self.magic) + le16(self.tlv_size) + seq![self.key_id, self._pad1]);
        push_le16(&mut raw, self.hdr_size);
        push_le16(&mut raw, self._pad2);
        push_le32(&mut raw, self.img_size);
        push_le32(&mut raw, self.flags);
        let ghost so_far = raw@;
        raw.push(self.ver.major);
        raw.push(self.ver.minor);
        assert(raw@ =~= so_far + seq![self.ver.major, self.ver.minor]);
        push_le16(&mut raw, self.ver.revision);
        push_le32(&mut raw, self.ver.build_num);
        push_le32(&mut raw, self._pad3);
        raw
    }
}

/// The seed of the generator that makes a body of `len` bytes for the seed
/// number `seed`: two fixed words, then the length and the seed number, each
/// cut to 32 bits.
pub open spec fn body_seed(len: usize, seed: usize) -> Seq<u32> {
    seq![0x135782eau32, 0x92184728u32, len as u32, seed as u32]
}

/// Overwrites `data` with pseudorandom bytes that depend on its length and
/// on `seed` alone.
pub fn splat(data: &mut Vec<u8>, seed: usize)
    ensures
        final(data)@ == xorshift_bytes(body_seed(old(data)@.len() as usize, seed), old(data)@.len()),
        final(data)@.len() == old(data)@.len(),
{
    let len = data.len();
    let seed_block: [u32; 4] = [0x135782ea, 0x92184728, len as u32, seed as u32];
    assert(seed_block@ =~= body_seed(len, seed));
    *data = xorshift_fill(seed_block, len);
}

/// The body of the test image of `len` bytes that is installed at `offset`:
/// the `len` bytes that the generator hands out. Its seed number is the
/// offset of the image, where its header stands.
pub open spec fn image_body(offset: usize, len: usize) -> Seq<u8> {
    let stream = xorshift_bytes(body_seed(len, offset), len as nat);
    Seq::new(len as nat, |i: int| stream[i])
}

/// How many bytes bring a length of `n` up to a multiple of 8.
pub open spec fn pad_len(n: int) -> int {
    (8 - n % 8) % 8
}

/// What follows the body: the tail of the TLV generator, or, for an image
/// whose signature is to be wrong, as many zero bytes.
pub open spec fn image_tail(tlv: Seq<u8>, bad_sig: bool) -> Seq<u8> {
    if bad_sig {
        Seq::new(tlv.len(), |i: int| 0u8)
    } else {
        tlv
    }
}

/// What is written behind the header: body and tail, padded with `0xff` to a
/// multiple of 8 bytes.
pub open spec fn image_payload(body: Seq<u8>, tlv: Seq<u8>, bad_sig: bool) -> Seq<u8> {
    let raw = body + image_tail(tlv, bad_sig);
    raw + Seq::new(pad_len(raw.len() as int) as nat, |i: int| 0xffu8)
}

/// The bytes that the TLV generator is given to sign: header, then body.
pub open spec fn signed_bytes(offset: usize, len: usize, tlv_size: u16, flags: u32) -> Seq<u8> {
    ImageHeader::for_image(offset, len, tlv_size, flags).wire() + image_body(offset, len)
}

/// The image with the given body as it stands in flash: the header, then
/// the payload.
pub open spec fn image_around(
    offset: usize,
    body: Seq<u8>,
    bad_sig: bool,
    tlv_size: u16,
    flags: u32,
    tlv: Seq<u8>,
) -> Seq<u8> {
    ImageHeader::for_image(offset, body.len() as usize, tlv_size, flags).wire() + image_payload(
        body,
        tlv,
        bad_sig,
    )
}

/// The whole test image as it stands in flash.
pub open spec fn image_bytes(
    offset: usize,
    len: usize,
    bad_sig: bool,
    tlv_size: u16,
    flags: u32,
    tlv: Seq<u8>,
) -> Seq<u8> {
    image_around(offset, image_body(offset, len), bad_sig, tlv_size, flags, tlv)
}

/// The number of bytes of a test image with a body of `len` bytes and a tail
/// of `tlv_len` bytes.
pub open spec fn image_len(len: int, tlv_len: int) -> int {
    HEADER_SIZE + len + tlv_len + pad_len(len + tlv_len)
}

/// The device takes the test image at `offset`: both writes, that of the
/// header and that of the rest, are ones that it takes, and no bad region can
/// fail them.
pub open spec fn installable(flash: FlashState, offset: usize, len: usize, tlv_len: nat) -> bool {
    let rest = image_len(len as int, tlv_len as int) - HEADER_SIZE;
    &&& flash.writable(offset as int, HEADER_SIZE as int)
    &&& flash.writable(offset + HEADER_SIZE, rest)
    &&& !flash.may_fail(offset as int, HEADER_SIZE as int)
    &&& !flash.may_fail(offset + HEADER_SIZE, rest)
}

/// The device after the image with the given body has been installed at
/// `offset`: first the header is written, then the payload.
pub open spec fn installed_around(
    flash: FlashState,
    offset: usize,
    body: Seq<u8>,
    bad_sig: bool,
    tlv_size: u16,
    flags: u32,
    tlv: Seq<u8>,
) -> FlashState {
    flash.written(
        offset as int,
        ImageHeader::for_image(offset, body.len() as usize, tlv_size, flags).wire(),
    ).written(offset + HEADER_SIZE, image_payload(body, tlv, bad_sig))
}

/// The device after the test image has been installed at `offset`.
pub open spec fn installed(
    flash: FlashState,
    offset: usize,
    len: usize,
    bad_sig: bool,
    tlv_size: u16,
    flags: u32,
    tlv: Seq<u8>,
) -> FlashState {
    installed_around(flash, offset, image_body(offset, len), bad_sig, tlv_size, flags, tlv)
}

/// Whether the device takes the test image with a body of `len` bytes and a
/// tail of `tlv_len` bytes at `offset`.
pub fn can_install(flash: &SimFlash, offset: usize, len: usize, tlv_len: usize) -> (b: bool)
    requires
        flash@.wf(),
    ensures
        b == installable(flash@, offset, len, tlv_len as nat),
{
    if len > usize::MAX - tlv_len || offset > usize::MAX - HEADER_SIZE {
        return false;
    }
    let raw = len + tlv_len;
    let rem = raw % 8;
    let pad: usize = if rem == 0 {
        0
    } else {
        8 - rem
    };
    assert(pad == pad_len(raw as int));
    if pad > usize::MAX - raw || raw + pad > usize::MAX - HEADER_SIZE - offset {
        return false;
    }
    can_take_write(flash, offset, HEADER_SIZE) && can_take_write(
        flash,
        offset + HEADER_SIZE,
        raw + pad,
    )
}

/// The bytes that a TLV generator has to be given for the test image of
/// `len` bytes at `offset`: the header, which holds the size and the flags
/// that the generator reports, and the body.
pub fn signed_part(offset: usize, len: usize, tlv_size: u16, flags: u32) -> (bytes: Vec<u8>)
    ensures
        bytes@ == signed_bytes(offset, len, tlv_size, flags),
{
    let header = ImageHeader::new(offset, len, tlv_size, flags);
    let mut bytes = header.as_raw();
    let mut body: Vec<u8> = vec![0u8; len];
    splat(&mut body, offset);
    assert(body@ =~= image_body(offset, len));
    bytes.append(&mut body);
    bytes
}

/// Installs a test image at `offset`: a header, `len` pseudorandom bytes, and
/// the tail `tlv` that the TLV generator made for the two (for `bad_sig`,
/// zeros in its place), padded to a multiple of 8 bytes. Returns what the
/// device then holds in the range of the image.
pub fn install_image<F: Flash>(
    flash: &mut F,
    offset: usize,
    len: usize,
    bad_sig: bool,
    tlv_size: u16,
    flags: u32,
    tlv: &[u8],
) -> (image: Vec<u8>)
    requires
        old(flash).state().wf(),
        installable(old(flash).state(), offset, len, tlv@.len()),
    ensures
        final(flash).state().wf(),
        final(flash).state() == installed(
            old(flash).state(),
            offset,
            len,
            bad_sig,
            tlv_size,
            flags,
            tlv@,
        ),
        image@ == image_bytes(offset, len, bad_sig, tlv_size, flags, tlv@),
        image@ == final(flash).state().bytes(
            offset as int,
            image_len(len as int, tlv@.len() as int),
        ),
{
    // The core of the image itself is just pseudorandom data.
    let mut buf: Vec<u8> = vec![0u8; len];
    splat(&mut buf, offset);
    assert(buf@ =~= image_body(offset, len));
    install_image_around(flash, offset, buf, bad_sig, tlv_size, flags, tlv)
}

/// Installs the image with the given body at `offset`: writes the header,
/// then the body with the tail `tlv` behind it (for `bad_sig`, zeros in its
/// place) and `0xff` up to a multiple of 8 bytes. Returns what the device
/// then holds in the range of the image.
pub fn install_image_around<F: Flash>(
    flash: &mut F,
    offset: usize,
    body: Vec<u8>,
    bad_sig: bool,
    tlv_size: u16,
    flags: u32,
    tlv: &[u8],
) -> (image: Vec<u8>)
    requires
        old(flash).state().wf(),
        installable(old(flash).state(), offset, body@.len() as usize, tlv@.len()),
    ensures
        final(flash).state().wf(),
        final(flash).state() == installed_around(
            old(flash).state(),
            offset,
            body@,
            bad_sig,
            tlv_size,
            flags,
            tlv@,
        ),
        image@ == image_around(offset, body@, bad_sig, tlv_size, flags, tlv@),
        image@ == final(flash).state().bytes(
            offset as int,
            image_len(body@.len() as int, tlv@.len() as int),
        ),
{
    let ghost before = flash.state();
    let ghost body_bytes = body@;
    let len = body.len();
    let header = ImageHeader::new(offset, len, tlv_size, flags);
    let b_header = header.as_raw();
    let wrote = flash.write(offset, b_header.as_slice());
    let ghost with_header = flash.state();
    assert(wrote is Ok);
    let body_offset = offset + HEADER_SIZE;

    // Append the tail.
    let mut buf = body;
    let mut i: usize = 0;
    while i < tlv.len()
        invariant
            i <= tlv@.len(),
            len + tlv@.len() <= usize::MAX,
            buf@ == body_bytes + image_tail(tlv@, bad_sig).subrange(0, i as int),
            body_bytes.len() == len,
        decreases tlv@.len() - i,
    {
        if bad_sig {
            buf.push(0);
        } else {
            buf.push(tlv[i]);
        }
        i = i + 1;
        assert(buf@ =~= body_bytes + image_tail(tlv@, bad_sig).subrange(0, i as int));
    }
    assert(image_tail(tlv@, bad_sig).subrange(0, tlv@.len() as int) =~= image_tail(tlv@, bad_sig));

    // Pad the block to a flash alignment (8 bytes).
    let ghost raw = buf@;
    let rem = buf.len() % 8;
    let pad: usize = if rem == 0 {
        0
    } else {
        8 - rem
    };
    assert(pad == pad_len(raw.len() as int));
    let mut k: usize = 0;
    while k < pad
        invariant
            k <= pad,
            raw.len() + pad <= usize::MAX,
            buf@ == raw + Seq::new(k as nat, |i: int| 0xffu8),
        decreases pad - k,
    {
        buf.push(0xFF);
        k = k + 1;
        assert(buf@ =~= raw + Seq::new(k as nat, |i: int| 0xffu8));
    }
    assert(buf@ == image_payload(body_bytes, tlv@, bad_sig));
    assert(with_header.writable(body_offset as int, buf@.len() as int)) by {
        if before.verify_writes {
            assert forall|j: int|
                body_offset <= j < body_offset + buf@.len() implies #[trigger] with_header.write_safe[j] by {
                assert(before.write_safe[j]);
            }
        }
    }
    let wrote = flash.write(body_offset, buf.as_slice());
    assert(wrote is Ok);
    let total = HEADER_SIZE + buf.len();

    // Copy out the image so that it can be looked for later.
    let mut copy: Vec<u8> = vec![0u8; total];
    let got = flash.read(offset, &mut copy);
    assert(got is Ok);
    assert(copy@ =~= b_header@ + buf@);
    copy
}

/// Whether the device holds exactly the bytes of `buf` at `offset`.
pub fn verify_image<F: Flash>(flash: &F, offset: usize, buf: &[u8]) -> (same: bool)
    requires
        flash.state().wf(),
        flash.state().readable(offset as int, buf@.len() as int),
    ensures
        same == (flash.state().bytes(offset as int, buf@.len() as int) == buf@),
{
    let mut copy: Vec<u8> = vec![0u8; buf.len()];
    let got = flash.read(offset, &mut copy);
    assert(got is Ok);
    let mut i: usize = 0;
    while i < buf.len()
        invariant
            i <= buf@.len(),
            copy@.len() == buf@.len(),
            copy@ == flash.state().bytes(offset as int, buf@.len() as int),
            forall|j: int| 0 <= j < i ==> copy@[j] == buf@[j],
        decreases buf@.len() - i,
    {
        if copy[i] != buf[i] {
            assert(copy@[i as int] != buf@[i as int]);
            return false;
        }
        i = i + 1;
    }
    assert(copy@ =~= buf@);
    true
}

/// What an installed image looks like depends on where it goes, how long it
/// is, whether its signature is to be wrong, and on the tail alone: whatever
/// two devices held before, after the same installation they hold the same
/// bytes in the range of the image.
pub proof fn law_install_is_deterministic(
    a: FlashState,
    b: FlashState,
    offset: usize,
    len: usize,
    bad_sig: bool,
    tlv_size: u16,
    flags: u32,
    tlv: Seq<u8>,
)
    requires
        a.wf(),
        b.wf(),
        installable(a, offset, len, tlv.len()),
        installable(b, offset, len, tlv.len()),
    ensures
        installed(a, offset, len, bad_sig, tlv_size, flags, tlv).bytes(
            offset as int,
            image_len(len as int, tlv.len() as int),
        ) == installed(b, offset, len, bad_sig, tlv_size, flags, tlv).bytes(
            offset as int,
            image_len(len as int, tlv.len() as int),
        ),
        a == b ==> installed(a, offset, len, bad_sig, tlv_size, flags, tlv) == installed(
            b,
            offset,
            len,
            bad_sig,
            tlv_size,
            flags,
            tlv,
        ),
{
    lemma_installed_bytes(a, offset, len, bad_sig, tlv_size, flags, tlv);
    lemma_installed_bytes(b, offset, len, bad_sig, tlv_size, flags, tlv);
}

/// After an installation the range of the image holds the image.
pub proof fn lemma_installed_bytes(
    flash: FlashState,
    offset: usize,
    len: usize,
    bad_sig: bool,
    tlv_size: u16,
    flags: u32,
    tlv: Seq<u8>,
)
    requires
        flash.wf(),
        installable(flash, offset, len, tlv.len()),
    ensures
        installed(flash, offset, len, bad_sig, tlv_size, flags, tlv).bytes(
            offset as int,
            image_len(len as int, tlv.len() as int),
        ) == image_bytes(offset, len, bad_sig, tlv_size, flags, tlv),
{
    let header = ImageHeader::for_image(offset, len, tlv_size, flags).wire();
    let payload = image_payload(image_body(offset, len), tlv, bad_sig);
    lemma_wire_len(ImageHeader::for_image(offset, len, tlv_size, flags));
    assert(image_body(offset, len).len() == len);
    assert(installed(flash, offset, len, bad_sig, tlv_size, flags, tlv).bytes(
        offset as int,
        image_len(len as int, tlv.len() as int),
    ) =~= header + payload);
}

/// A header on the wire has 32 bytes.
pub proof fn lemma_wire_len(header: ImageHeader)
    ensures
        header.wire().len() == HEADER_SIZE,
{
}

} // verus!
