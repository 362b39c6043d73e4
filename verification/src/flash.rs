//! The flash device: bytes that can be written once after each erase, erased
//! only by whole sectors, with regions in which writes fail by chance.

use crate::error::{ebounds, esimulatedwrite, ErrorKind};
use crate::random::uniform;
use crate::sector::{
    device_size, lemma_inside_sector, lemma_sector_base_monotonic, lemma_sector_base_strict,
    sector_base, spans_sectors, SectorIter,
};
use vstd::prelude::*;

verus! {

/// The failure rate at which every write fails. A rate counts the outcomes,
/// out of this many equally likely ones, on which a write to the region fails.
pub const RATE_ONE: i32 = 0x80_0000;

/// The failure rate at which half of the writes fail.
pub const RATE_HALF: i32 = 0x40_0000;

/// A range of the device in which writes fail by chance.
#[derive(Debug, Clone, Copy)]
pub struct BadRegion {
    /// The first byte of the region.
    pub offset: usize,
    /// The length of the region in bytes.
    pub len: usize,
    /// The failure rate, from 0 (never) to `RATE_ONE` (always).
    pub rate: i32,
}

impl BadRegion {
    /// The rate is one that the device accepts.
    pub open spec fn valid(self) -> bool {
        0 <= self.rate <= RATE_ONE
    }

    /// The range `offset .. offset + len` lies entirely inside the region.
    pub open spec fn covers(self, offset: int, len: int) -> bool {
        self.offset <= offset && offset + len <= self.offset + self.len
    }

    /// A write that the region covers fails on this sample.
    pub open spec fn fires(self, sample: int) -> bool {
        sample < self.rate
    }

    /// Whether the range `offset .. offset + len` lies entirely inside the
    /// region. A range that only overlaps it is not contained.
    pub fn contains(&self, offset: usize, len: usize) -> (b: bool)
        ensures
            b == self.covers(offset as int, len as int),
    {
        offset >= self.offset && len <= self.len && offset - self.offset <= self.len - len
    }

    /// Whether a write that the region covers fails, given a sample drawn
    /// uniformly from `0 .. RATE_ONE`.
    pub fn fails_on(&self, sample: i32) -> (b: bool)
        ensures
            b == self.fires(sample as int),
    {
        sample < self.rate
    }
}

/// `n` is a positive power of two.
pub open spec fn is_power_of_two(n: usize) -> bool {
    n > 0 && n & ((n - 1) as usize) == 0
}

/// The state of a flash device.
#[verifier::ext_equal]
pub ghost struct FlashState {
    /// The stored bytes.
    pub data: Seq<u8>,
    /// For each byte, whether it has not been written since its last erase.
    pub write_safe: Seq<bool>,
    /// The sector sizes, in order.
    pub sectors: Seq<usize>,
    /// The regions in which writes fail by chance.
    pub bad_regions: Seq<BadRegion>,
    /// The alignment that every write must have.
    pub align: usize,
    /// Whether a write to a byte that is not write-safe is a fatal error.
    pub verify_writes: bool,
}

impl FlashState {
    /// The invariant of a device.
    pub open spec fn wf(self) -> bool {
        &&& self.data.len() == device_size(self.sectors)
        &&& self.write_safe.len() == self.data.len()
        &&& self.data.len() <= usize::MAX
        &&& is_power_of_two(self.align)
        &&& forall|k: int| 0 <= k < self.sectors.len() ==> self.sectors[k] > 0
        &&& forall|k: int| 0 <= k < self.bad_regions.len() ==> (#[trigger] self.bad_regions[k]).valid()
    }

    /// A new device: erased, write-safe, without bad regions, verifying writes.
    pub open spec fn blank(sectors: Seq<usize>, align: usize) -> FlashState {
        FlashState {
            data: Seq::new(device_size(sectors) as nat, |i: int| 0xffu8),
            write_safe: Seq::new(device_size(sectors) as nat, |i: int| true),
            sectors,
            bad_regions: Seq::empty(),
            align,
            verify_writes: true,
        }
    }

    /// The range can be erased: it spans whole sectors.
    pub open spec fn erasable(self, offset: int, len: int) -> bool {
        spans_sectors(self.sectors, offset, len)
    }

    /// The range lies inside the device.
    pub open spec fn readable(self, offset: int, len: int) -> bool {
        0 <= offset && 0 <= len && offset + len <= self.data.len()
    }

    /// The bytes of the range.
    pub open spec fn bytes(self, offset: int, len: int) -> Seq<u8> {
        self.data.subrange(offset, offset + len)
    }

    /// The device after the range has been erased.
    pub open spec fn erased(self, offset: int, len: int) -> FlashState {
        FlashState {
            data: Seq::new(
                self.data.len(),
                |i: int| if offset <= i < offset + len { 0xffu8 } else { self.data[i] },
            ),
            write_safe: Seq::new(
                self.write_safe.len(),
                |i: int| if offset <= i < offset + len { true } else { self.write_safe[i] },
            ),
            ..self
        }
    }

    /// Every byte of the range is write-safe.
    pub open spec fn all_write_safe(self, offset: int, len: int) -> bool {
        forall|i: int| offset <= i < offset + len ==> #[trigger] self.write_safe[i]
    }

    /// A write of `len` bytes at `offset` is one that the device takes: inside
    /// the device, aligned, and, where writes are verified, to bytes that have
    /// not been written since their last erase.
    pub open spec fn writable(self, offset: int, len: int) -> bool {
        &&& offset + len <= self.data.len()
        &&& offset % (self.align as int) == 0
        &&& len % (self.align as int) == 0
        &&& self.verify_writes ==> self.all_write_safe(offset, len)
    }

    /// `fault` is what makes a write of `len` bytes at `offset` one that the
    /// device does not take: the first of range, offset, length and bytes
    /// that is wrong; of the bytes, the first that is not write-safe.
    pub open spec fn is_fault(self, offset: int, len: int, fault: WriteFault) -> bool {
        match fault {
            WriteFault::OutsideDevice => offset + len > self.data.len(),
            WriteFault::MisalignedAddress => {
                &&& offset + len <= self.data.len()
                &&& offset % (self.align as int) != 0
            },
            WriteFault::MisalignedLength => {
                &&& offset + len <= self.data.len()
                &&& offset % (self.align as int) == 0
                &&& len % (self.align as int) != 0
            },
            WriteFault::Unerased(at) => {
                &&& offset + len <= self.data.len()
                &&& offset % (self.align as int) == 0
                &&& len % (self.align as int) == 0
                &&& self.verify_writes
                &&& offset <= at < offset + len
                &&& !self.write_safe[at as int]
                &&& self.all_write_safe(offset, at - offset)
            },
        }
    }

    /// The device after `payload` has been written at `offset`.
    pub open spec fn written(self, offset: int, payload: Seq<u8>) -> FlashState {
        FlashState {
            data: Seq::new(
                self.data.len(),
                |i: int|
                    if offset <= i < offset + payload.len() {
                        payload[i - offset]
                    } else {
                        self.data[i]
                    },
            ),
            write_safe: Seq::new(
                self.write_safe.len(),
                |i: int|
                    if offset <= i < offset + payload.len() {
                        false
                    } else {
                        self.write_safe[i]
                    },
            ),
            ..self
        }
    }

    /// Some bad region covers the range and has a rate above zero: a write to
    /// the range can fail.
    pub open spec fn may_fail(self, offset: int, len: int) -> bool {
        exists|k: int|
            0 <= k < self.bad_regions.len() && (#[trigger] self.bad_regions[k]).covers(offset, len)
                && self.bad_regions[k].rate > 0
    }

    /// Some bad region covers the range and has the rate `RATE_ONE`: a write
    /// to the range fails.
    pub open spec fn must_fail(self, offset: int, len: int) -> bool {
        exists|k: int|
            0 <= k < self.bad_regions.len() && (#[trigger] self.bad_regions[k]).covers(offset, len)
                && self.bad_regions[k].rate >= RATE_ONE
    }

    /// `samples` holds a draw for each bad region, in order: each from 0 up
    /// to, not including, `RATE_ONE`.
    pub open spec fn are_samples(self, samples: Seq<i32>) -> bool {
        &&& samples.len() == self.bad_regions.len()
        &&& forall|k: int| 0 <= k < samples.len() ==> 0 <= #[trigger] samples[k] < RATE_ONE
    }

    /// A write to the range fails by chance where the draws are `samples`:
    /// some bad region covers the range and its draw is below its rate.
    pub open spec fn fails_with(self, offset: int, len: int, samples: Seq<i32>) -> bool {
        exists|k: int|
            0 <= k < self.bad_regions.len() && (#[trigger] self.bad_regions[k]).covers(offset, len)
                && self.bad_regions[k].fires(samples[k] as int)
    }

    /// The device with one more bad region.
    pub open spec fn with_bad_region(self, region: BadRegion) -> FlashState {
        FlashState { bad_regions: self.bad_regions.push(region), ..self }
    }
}

/// Why a write would be a fatal error of the caller.
#[derive(Debug, Clone, Copy)]
pub enum WriteFault {
    /// The range runs past the end of the device.
    OutsideDevice,
    /// The offset is not a multiple of the alignment.
    MisalignedAddress,
    /// The length is not a multiple of the alignment.
    MisalignedLength,
    /// The byte at this offset has been written since its last erase.
    Unerased(usize),
}

/// An emulated flash device: a block of bytes and the sizes of its sectors.
pub struct SimFlash {
    data: Vec<u8>,
    write_safe: Vec<bool>,
    sectors: Vec<usize>,
    bad_region: Vec<BadRegion>,
    align: usize,
    verify_writes: bool,
}

impl View for SimFlash {
    type V = FlashState;

    closed spec fn view(&self) -> FlashState {
        FlashState {
            data: self.data@,
            write_safe: self.write_safe@,
            sectors: self.sectors@,
            bad_regions: self.bad_region@,
            align: self.align,
            verify_writes: self.verify_writes,
        }
    }
}

/// What a flash device offers: erase, write and read, bad regions, and a
/// pass over its sectors.
pub trait Flash {
    /// The state of the device.
    spec fn state(&self) -> FlashState;

    /// Erases the range, which must span whole sectors: each byte becomes
    /// `0xff` and can be written again. Any other range is refused and the
    /// device stays as it was.
    fn erase(&mut self, offset: usize, len: usize) -> (r: Result<(), ErrorKind>)
        requires
            old(self).state().wf(),
        ensures
            final(self).state().wf(),
            r is Ok <==> old(self).state().erasable(offset as int, len as int),
            r is Ok ==> final(self).state() == old(self).state().erased(
                offset as int,
                len as int,
            ),
            r matches Err(e) ==> e is OutOfBounds && final(self).state() == old(self).state(),
    ;

    /// Writes `payload` at `offset`. Each bad region that covers the whole
    /// range fails the write with the chance of its rate, before anything else
    /// is looked at and with no byte changed. A write that gets past the bad
    /// regions must be one that the device takes; its bytes are stored and
    /// cannot be written again before an erase.
    fn write(&mut self, offset: usize, payload: &[u8]) -> (r: Result<(), ErrorKind>)
        requires
            old(self).state().wf(),
            old(self).state().writable(offset as int, payload@.len() as int)
                || old(self).state().must_fail(offset as int, payload@.len() as int),
        ensures
            final(self).state().wf(),
            exists|samples: Seq<i32>|
                old(self).state().are_samples(samples) && (r is Err <==> #[trigger] old(
                    self,
                ).state().fails_with(offset as int, payload@.len() as int, samples)),
            old(self).state().must_fail(offset as int, payload@.len() as int) ==> r is Err,
            !old(self).state().may_fail(offset as int, payload@.len() as int) ==> r is Ok,
            r is Ok ==> final(self).state() == old(self).state().written(
                offset as int,
                payload@,
            ),
            r matches Err(e) ==> e is SimulatedFail && old(self).state().may_fail(
                offset as int,
                payload@.len() as int,
            ) && final(self).state() == old(self).state(),
    ;

    /// Reads as many bytes as `data` holds, from `offset` on, into `data`. A
    /// range that leaves the device is refused and `data` stays as it was.
    fn read(&self, offset: usize, data: &mut Vec<u8>) -> (r: Result<(), ErrorKind>)
        requires
            self.state().wf(),
        ensures
            r is Ok <==> self.state().readable(offset as int, old(data)@.len() as int),
            r is Ok ==> final(data)@ == self.state().bytes(
                offset as int,
                old(data)@.len() as int,
            ),
            r matches Err(e) ==> e is OutOfBounds && final(data)@ == old(data)@,
    ;

    /// Adds a bad region: writes that lie entirely inside it fail with the
    /// chance `rate / RATE_ONE`. A rate below 0 or above `RATE_ONE` is refused.
    fn add_bad_region(&mut self, offset: usize, len: usize, rate: i32) -> (r: Result<
        (),
        ErrorKind,
    >)
        requires
            old(self).state().wf(),
        ensures
            final(self).state().wf(),
            r is Ok <==> 0 <= rate <= RATE_ONE,
            r is Ok ==> final(self).state() == old(self).state().with_bad_region(
                BadRegion { offset, len, rate },
            ),
            r matches Err(e) ==> e is OutOfBounds && final(self).state() == old(self).state(),
    ;

    /// Forgets every bad region.
    fn reset_bad_regions(&mut self)
        requires
            old(self).state().wf(),
        ensures
            final(self).state().wf(),
            final(self).state() == (FlashState {
                bad_regions: Seq::empty(),
                ..old(self).state()
            }),
    ;

    /// Turns the check for writes to unerased bytes on or off.
    fn set_verify_writes(&mut self, enable: bool)
        requires
            old(self).state().wf(),
        ensures
            final(self).state().wf(),
            final(self).state() == (FlashState {
                verify_writes: enable,
                ..old(self).state()
            }),
    ;

    /// A pass over the sectors of the device.
    fn sector_iter(&self) -> (it: SectorIter<'_>)
        requires
            self.state().wf(),
        ensures
            it.wf(),
            it.sectors() == self.state().sectors,
            it.position() == 0,
    ;

    /// The number of bytes of the device.
    fn device_size(&self) -> (size: usize)
        requires
            self.state().wf(),
        ensures
            size == self.state().data.len(),
            size == device_size(self.state().sectors),
    ;
}

impl SimFlash {
    /// A new, erased device with the given sector sizes and write alignment.
    pub fn new(sectors: Vec<usize>, align: usize) -> (flash: SimFlash)
        requires
            is_power_of_two(align),
            forall|k: int| 0 <= k < sectors@.len() ==> sectors@[k] > 0,
            device_size(sectors@) <= usize::MAX,
        ensures
            flash@ == FlashState::blank(sectors@, align),
            flash@.wf(),
    {
        let mut total: usize = 0;
        let mut i: usize = 0;
        while i < sectors.len()
            invariant
                i <= sectors@.len(),
                total == sector_base(sectors@, i as int),
                device_size(sectors@) <= usize::MAX,
            decreases sectors@.len() - i,
        {
            proof {
                lemma_sector_base_monotonic(sectors@, i as int + 1, sectors@.len() as int);
            }
            total = total + sectors[i];
            i = i + 1;
        }
        let flash = SimFlash {
            data: vec![0xffu8; total],
            write_safe: vec![true; total],
            sectors,
            bad_region: Vec::new(),
            align,
            verify_writes: true,
        };
        assert(flash@ =~= FlashState::blank(sectors@, align));
        flash
    }

    /// The sector that holds the byte at `offset` and the offset of the byte
    /// within that sector, or `None` where the byte is outside the device.
    pub fn get_sector(&self, offset: usize) -> (r: Option<(usize, usize)>)
        requires
            self@.wf(),
        ensures
            match r {
                Some((sector, within)) => {
                    &&& sector < self@.sectors.len()
                    &&& within < self@.sectors[sector as int]
                    &&& sector_base(self@.sectors, sector as int) + within == offset
                },
                None => offset >= self@.data.len(),
            },
    {
        let mut rest = offset;
        let mut i: usize = 0;
        while i < self.sectors.len()
            invariant
                i <= self.sectors@.len(),
                rest + sector_base(self.sectors@, i as int) == offset,
            decreases self.sectors@.len() - i,
        {
            let size = self.sectors[i];
            if rest < size {
                return Some((i, rest));
            }
            rest = rest - size;
            i = i + 1;
        }
        None
    }

    /// Whether a write of `len` bytes at `offset` fails by chance, given a
    /// draw for each bad region, in order: it fails if some region that
    /// covers the whole range has drawn a sample below its rate. The draw of
    /// a region that does not cover the range is not looked at.
    pub fn fails_with(&self, offset: usize, len: usize, samples: &[i32]) -> (failed: bool)
        requires
            self@.wf(),
            samples@.len() == self@.bad_regions.len(),
        ensures
            failed <==> self@.fails_with(offset as int, len as int, samples@),
    {
        let mut i: usize = 0;
        while i < self.bad_region.len()
            invariant
                i <= self.bad_region@.len(),
                samples@.len() == self.bad_region@.len(),
                forall|k: int|
                    0 <= k < i && (#[trigger] self.bad_region@[k]).covers(offset as int, len as int)
                        ==> !self.bad_region@[k].fires(samples@[k] as int),
            decreases self.bad_region@.len() - i,
        {
            let region = self.bad_region[i];
            if region.contains(offset, len) && region.fails_on(samples[i]) {
                assert(self@.bad_regions[i as int].covers(offset as int, len as int));
                return true;
            }
            i = i + 1;
        }
        false
    }

    /// Draws a sample for each bad region that covers the whole range. A
    /// region that does not cover it draws nothing and gets 0, which
    /// `fails_with` does not look at.
    fn draw_samples(&self, offset: usize, len: usize) -> (samples: Vec<i32>)
        requires
            self@.wf(),
        ensures
            self@.are_samples(samples@),
    {
        let mut samples: Vec<i32> = Vec::new();
        let mut i: usize = 0;
        while i < self.bad_region.len()
            invariant
                i <= self.bad_region@.len(),
                samples@.len() == i,
                forall|k: int| 0 <= k < i ==> 0 <= #[trigger] samples@[k] < RATE_ONE,
            decreases self.bad_region@.len() - i,
        {
            let region = self.bad_region[i];
            if region.contains(offset, len) {
                samples.push(uniform(0, RATE_ONE));
            } else {
                samples.push(0);
            }
            i = i + 1;
        }
        samples
    }

    /// Writes `payload` at `offset`, given a draw for each bad region, in
    /// order. The write fails, with no byte changed, if some region that
    /// covers the whole range has drawn a sample below its rate. Otherwise
    /// it must be one that the device takes; its bytes are stored and cannot
    /// be written again before an erase.
    pub fn write_with(&mut self, offset: usize, payload: &[u8], samples: &[i32]) -> (r: Result<
        (),
        ErrorKind,
    >)
        requires
            old(self)@.wf(),
            samples@.len() == old(self)@.bad_regions.len(),
            old(self)@.writable(offset as int, payload@.len() as int) || old(self)@.fails_with(
                offset as int,
                payload@.len() as int,
                samples@,
            ),
        ensures
            final(self)@.wf(),
            r is Err <==> old(self)@.fails_with(offset as int, payload@.len() as int, samples@),
            r is Ok ==> final(self)@ == old(self)@.written(offset as int, payload@),
            r matches Err(e) ==> e is SimulatedFail && final(self)@ == old(self)@,
    {
        if self.fails_with(offset, payload.len(), samples) {
            return Err(esimulatedwrite("Ignoring write to bad region"));
        }
        self.commit(offset, payload);
        Ok(())
    }

    /// The fault that makes a write of `len` bytes at `offset` a fatal error
    /// of the caller, or `None` for a write that the device takes. The faults
    /// are looked for in this order: range, offset, length, bytes.
    pub fn write_fault(&self, offset: usize, len: usize) -> (r: Option<WriteFault>)
        requires
            self@.wf(),
        ensures
            r is None <==> self@.writable(offset as int, len as int),
            r matches Some(fault) ==> self@.is_fault(offset as int, len as int, fault),
    {
        if len > self.data.len() || offset > self.data.len() - len {
            return Some(WriteFault::OutsideDevice);
        }
        if offset % self.align != 0 {
            return Some(WriteFault::MisalignedAddress);
        }
        if len % self.align != 0 {
            return Some(WriteFault::MisalignedLength);
        }
        if self.verify_writes {
            let stop = offset + len;
            let mut i = offset;
            while i < stop
                invariant
                    offset <= i <= stop,
                    stop == offset + len,
                    stop <= self@.data.len(),
                    self@.wf(),
                    self.verify_writes,
                    offset as int % self@.align as int == 0,
                    len as int % self@.align as int == 0,
                    self@.all_write_safe(offset as int, i - offset),
                decreases stop - i,
            {
                if !self.write_safe[i] {
                    assert(!self@.write_safe[i as int]);
                    return Some(WriteFault::Unerased(i));
                }
                i = i + 1;
            }
        }
        None
    }

    /// Stores `payload` at `offset` and marks its bytes as written.
    fn commit(&mut self, offset: usize, payload: &[u8])
        requires
            old(self)@.wf(),
            old(self)@.writable(offset as int, payload@.len() as int),
        ensures
            final(self)@.wf(),
            final(self)@ == old(self)@.written(offset as int, payload@),
    {
        let ghost before = self@;
        let len = payload.len();
        let mut i: usize = 0;
        while i < len
            invariant
                i <= len,
                len == payload@.len(),
                offset + len <= before.data.len(),
                before.wf(),
                self@ == before.written(offset as int, payload@.subrange(0, i as int)),
            decreases len - i,
        {
            self.write_safe.set(offset + i, false);
            self.data.set(offset + i, payload[i]);
            i = i + 1;
            assert(self@ =~= before.written(offset as int, payload@.subrange(0, i as int)));
        }
        assert(payload@.subrange(0, len as int) =~= payload@);
    }

    /// Writes `payload` at `offset` as `write` does, for any write. First
    /// each bad region that covers the whole range fails the write with the
    /// chance of its rate. A write that gets past the bad regions and that
    /// the device does not take is handed back as a fault, and changes
    /// nothing.
    pub fn checked_write(&mut self, offset: usize, payload: &[u8]) -> (r: Result<
        Result<(), ErrorKind>,
        WriteFault,
    >)
        requires
            old(self)@.wf(),
        ensures
            final(self)@.wf(),
            exists|samples: Seq<i32>|
                old(self)@.are_samples(samples) && (r matches Ok(Err(_)) <==> #[trigger] old(
                    self,
                )@.fails_with(offset as int, payload@.len() as int, samples)),
            old(self)@.must_fail(offset as int, payload@.len() as int) ==> r matches Ok(Err(_)),
            !old(self)@.may_fail(offset as int, payload@.len() as int) && old(self)@.writable(
                offset as int,
                payload@.len() as int,
            ) ==> r matches Ok(Ok(_)),
            !old(self)@.may_fail(offset as int, payload@.len() as int) && !old(self)@.writable(
                offset as int,
                payload@.len() as int,
            ) ==> r is Err,
            match r {
                Ok(Ok(())) => {
                    &&& old(self)@.writable(offset as int, payload@.len() as int)
                    &&& final(self)@ == old(self)@.written(offset as int, payload@)
                },
                Ok(Err(e)) => {
                    &&& e is SimulatedFail
                    &&& old(self)@.may_fail(offset as int, payload@.len() as int)
                    &&& final(self)@ == old(self)@
                },
                Err(fault) => {
                    &&& old(self)@.is_fault(offset as int, payload@.len() as int, fault)
                    &&& !old(self)@.writable(offset as int, payload@.len() as int)
                    &&& !old(self)@.must_fail(offset as int, payload@.len() as int)
                    &&& final(self)@ == old(self)@
                },
            },
    {
        let samples = self.draw_samples(offset, payload.len());
        proof {
            lemma_samples_decide(self@, offset as int, payload@.len() as int, samples@);
        }
        if self.fails_with(offset, payload.len(), samples.as_slice()) {
            return Ok(Err(esimulatedwrite("Ignoring write to bad region")));
        }
        match self.write_fault(offset, payload.len()) {
            Some(fault) => Err(fault),
            None => {
                self.commit(offset, payload);
                Ok(Ok(()))
            },
        }
    }

    /// Whether some bad region covers the range with the rate `RATE_ONE`, so
    /// that a write to the range fails whatever else holds of it.
    pub fn always_fails(&self, offset: usize, len: usize) -> (b: bool)
        requires
            self@.wf(),
        ensures
            b == self@.must_fail(offset as int, len as int),
    {
        let mut i: usize = 0;
        while i < self.bad_region.len()
            invariant
                i <= self.bad_region@.len(),
                forall|k: int|
                    0 <= k < i && (#[trigger] self.bad_region@[k]).covers(offset as int, len as int)
                        ==> self.bad_region@[k].rate < RATE_ONE,
            decreases self.bad_region@.len() - i,
        {
            let region = self.bad_region[i];
            if region.contains(offset, len) && region.rate >= RATE_ONE {
                assert(self@.bad_regions[i as int].covers(offset as int, len as int));
                return true;
            }
            i = i + 1;
        }
        false
    }

    /// Whether some bad region covers the range with a rate above zero, so
    /// that a write to the range can fail.
    pub fn can_fail(&self, offset: usize, len: usize) -> (b: bool)
        requires
            self@.wf(),
        ensures
            b == self@.may_fail(offset as int, len as int),
    {
        let mut i: usize = 0;
        while i < self.bad_region.len()
            invariant
                i <= self.bad_region@.len(),
                forall|k: int|
                    0 <= k < i && (#[trigger] self.bad_region@[k]).covers(offset as int, len as int)
                        ==> self.bad_region@[k].rate <= 0,
            decreases self.bad_region@.len() - i,
        {
            let region = self.bad_region[i];
            if region.contains(offset, len) && region.rate > 0 {
                assert(self@.bad_regions[i as int].covers(offset as int, len as int));
                return true;
            }
            i = i + 1;
        }
        false
    }

    /// The alignment that writes must have.
    pub fn align(&self) -> (align: usize)
        ensures
            align == self@.align,
    {
        self.align
    }
}

impl Flash for SimFlash {
    open spec fn state(&self) -> FlashState {
        self@
    }

    fn erase(&mut self, offset: usize, len: usize) -> (r: Result<(), ErrorKind>)
    {
        let ghost before = self@;
        let ghost sectors = self@.sectors;
        let (start, slen) = match self.get_sector(offset) {
            Some(found) => found,
            None => {
                proof {
                    assert forall|k: int| 0 <= k < sectors.len() implies #[trigger] sector_base(
                        sectors,
                        k,
                    ) != offset by {
                        lemma_sector_base_strict(sectors, k, sectors.len() as int);
                    }
                }
                return Err(ebounds("start"));
            },
        };
        proof {
            assert forall|k: int| 0 <= k < sectors.len() implies 0 < #[trigger] sector_base(
                sectors,
                k + 1,
            ) <= before.data.len() by {
                lemma_sector_base_monotonic(sectors, 0, k);
                lemma_sector_base_monotonic(sectors, k + 1, sectors.len() as int);
            }
        }
        if len > usize::MAX - offset || offset + len == 0 {
            return Err(ebounds("end"));
        }
        let last = offset + len - 1;
        let (end, elen) = match self.get_sector(last) {
            Some(found) => found,
            None => {
                return Err(ebounds("end"));
            },
        };
        if slen != 0 {
            proof {
                lemma_inside_sector(sectors, start as int, offset as int);
            }
            return Err(ebounds("offset not at start of sector"));
        }
        if elen != self.sectors[end] - 1 {
            proof {
                lemma_inside_sector(sectors, end as int, offset + len);
            }
            return Err(ebounds("end not at start of sector"));
        }
        assert(sector_base(sectors, start as int) == offset);
        assert(sector_base(sectors, end as int + 1) == offset + len);
        assert(offset + len <= before.data.len()) by {
            lemma_sector_base_monotonic(sectors, end as int + 1, sectors.len() as int);
        }
        let stop = offset + len;
        let mut i = offset;
        while i < stop
            invariant
                offset <= i <= stop,
                stop == offset + len,
                stop <= before.data.len(),
                self@ == before.erased(offset as int, i - offset),
                before.wf(),
            decreases stop - i,
        {
            self.data.set(i, 0xff);
            self.write_safe.set(i, true);
            i = i + 1;
            assert(self@ =~= before.erased(offset as int, i - offset));
        }
        Ok(())
    }

    fn write(&mut self, offset: usize, payload: &[u8]) -> (r: Result<(), ErrorKind>)
    {
        let samples = self.draw_samples(offset, payload.len());
        proof {
            lemma_samples_decide(self@, offset as int, payload@.len() as int, samples@);
        }
        self.write_with(offset, payload, samples.as_slice())
    }

    fn read(&self, offset: usize, data: &mut Vec<u8>) -> (r: Result<(), ErrorKind>)
    {
        let len = data.len();
        if len > self.data.len() || offset > self.data.len() - len {
            return Err(ebounds("Read outside of device"));
        }
        let mut i: usize = 0;
        while i < len
            invariant
                i <= len,
                data@.len() == len,
                offset + len <= self.data.len(),
                forall|j: int| 0 <= j < i ==> data@[j] == self.data@[offset + j],
            decreases len - i,
        {
            data.set(i, self.data[offset + i]);
            i = i + 1;
        }
        assert(data@ =~= self@.bytes(offset as int, len as int));
        Ok(())
    }

    fn add_bad_region(&mut self, offset: usize, len: usize, rate: i32) -> (r: Result<
        (),
        ErrorKind,
    >)
    {
        if rate < 0 || rate > RATE_ONE {
            return Err(ebounds("Invalid rate"));
        }
        let ghost before = self@;
        self.bad_region.push(BadRegion { offset, len, rate });
        proof {
            assert forall|k: int| 0 <= k < self@.bad_regions.len() implies (
            #[trigger] self@.bad_regions[k]).valid() by {
                if k < before.bad_regions.len() {
                    assert(before.bad_regions[k].valid());
                }
            }
            assert(self@ =~= before.with_bad_region(BadRegion { offset, len, rate }));
        }
        Ok(())
    }

    fn reset_bad_regions(&mut self)
    {
        self.bad_region.clear();
    }

    fn set_verify_writes(&mut self, enable: bool)
    {
        self.verify_writes = enable;
    }

    fn sector_iter(&self) -> (it: SectorIter<'_>)
    {
        SectorIter::new(&self.sectors)
    }

    fn device_size(&self) -> (size: usize)
    {
        self.data.len()
    }
}

/// What the draws can decide: a write fails by chance only where it can fail,
/// and it does fail where it must.
pub proof fn lemma_samples_decide(flash: FlashState, offset: int, len: int, samples: Seq<i32>)
    requires
        flash.wf(),
        flash.are_samples(samples),
    ensures
        flash.fails_with(offset, len, samples) ==> flash.may_fail(offset, len),
        flash.must_fail(offset, len) ==> flash.fails_with(offset, len, samples),
{
    if flash.fails_with(offset, len, samples) {
        let k = choose|k: int|
            0 <= k < flash.bad_regions.len() && (#[trigger] flash.bad_regions[k]).covers(
                offset,
                len,
            ) && flash.bad_regions[k].fires(samples[k] as int);
        assert(flash.bad_regions[k].rate > 0);
    }
    if flash.must_fail(offset, len) {
        let k = choose|k: int|
            0 <= k < flash.bad_regions.len() && (#[trigger] flash.bad_regions[k]).covers(
                offset,
                len,
            ) && flash.bad_regions[k].rate >= RATE_ONE;
        assert(flash.bad_regions[k].fires(samples[k] as int));
    }
}

/// After a range has been erased, it can be read and every byte of it reads
/// `0xff`.
pub proof fn law_erased_reads_blank(flash: FlashState, offset: usize, len: usize)
    requires
        flash.wf(),
        flash.erasable(offset as int, len as int),
    ensures
        flash.erased(offset as int, len as int).readable(offset as int, len as int),
        flash.erased(offset as int, len as int).bytes(offset as int, len as int) == Seq::new(
            len as nat,
            |i: int| 0xffu8,
        ),
{
    let k = choose|k: int|
        0 <= k < flash.sectors.len() && #[trigger] sector_base(flash.sectors, k + 1) == offset
            + len;
    lemma_sector_base_monotonic(flash.sectors, k + 1, flash.sectors.len() as int);
    assert(flash.erased(offset as int, len as int).bytes(offset as int, len as int) =~= Seq::new(
        len as nat,
        |i: int| 0xffu8,
    ));
}

/// A write that the device took cannot be repeated: while writes are
/// verified, a second write of the same bytes to the same place is a fault,
/// and no bad region stands in for it. (An empty write changes nothing and
/// can be repeated.)
pub proof fn law_no_second_write(flash: FlashState, offset: usize, payload: Seq<u8>)
    requires
        flash.wf(),
        flash.verify_writes,
        flash.writable(offset as int, payload.len() as int),
        !flash.must_fail(offset as int, payload.len() as int),
        payload.len() > 0,
    ensures
        !flash.written(offset as int, payload).writable(offset as int, payload.len() as int),
        !flash.written(offset as int, payload).must_fail(offset as int, payload.len() as int),
{
    let after = flash.written(offset as int, payload);
    assert(!after.write_safe[offset as int]);
}

/// A bad region with the rate `RATE_ONE` fails every write that lies inside
/// it, whatever the device held before, and keeps the device valid.
pub proof fn law_certain_failure(
    flash: FlashState,
    region_offset: usize,
    region_len: usize,
    offset: usize,
    len: usize,
)
    requires
        flash.wf(),
        region_offset <= offset,
        offset + len <= region_offset + region_len,
    ensures
        flash.with_bad_region(
            BadRegion { offset: region_offset, len: region_len, rate: RATE_ONE },
        ).must_fail(offset as int, len as int),
        flash.with_bad_region(
            BadRegion { offset: region_offset, len: region_len, rate: RATE_ONE },
        ).wf(),
{
    let region = BadRegion { offset: region_offset, len: region_len, rate: RATE_ONE };
    let after = flash.with_bad_region(region);
    let last = flash.bad_regions.len() as int;
    assert(after.bad_regions[last] == region);
    assert(after.bad_regions[last].covers(offset as int, len as int));
    assert forall|k: int| 0 <= k < after.bad_regions.len() implies (
    #[trigger] after.bad_regions[k]).valid() by {
        if k < last {
            assert(flash.bad_regions[k].valid());
        }
    }
}

impl Clone for SimFlash {
    /// An independent copy of the device.
    fn clone(&self) -> (copy: SimFlash)
        ensures
            copy@ == self@,
    {
        let copy = SimFlash {
            data: self.data.clone(),
            write_safe: self.write_safe.clone(),
            sectors: self.sectors.clone(),
            bad_region: self.bad_region.clone(),
            align: self.align,
            verify_writes: self.verify_writes,
        };
        assert(copy@ =~= self@);
        copy
    }
}

} // verus!
