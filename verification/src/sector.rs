//! The sector geometry of a flash device: sizes in order, boundaries by
//! prefix sum.

use vstd::prelude::*;

verus! {

/// The offset at which sector `k` starts: the sum of the sizes of the sectors
/// before it. For `k` equal to the number of sectors this is the size of the
/// device.
pub open spec fn sector_base(sectors: Seq<usize>, k: int) -> int
    decreases k,
{
    if k <= 0 {
        0
    } else {
        sector_base(sectors, k - 1) + sectors[k - 1]
    }
}

/// The size of a device with these sectors.
pub open spec fn device_size(sectors: Seq<usize>) -> int {
    sector_base(sectors, sectors.len() as int)
}

/// Sector bases never decrease.
pub proof fn lemma_sector_base_monotonic(sectors: Seq<usize>, i: int, j: int)
    requires
        0 <= i <= j <= sectors.len(),
    ensures
        sector_base(sectors, i) <= sector_base(sectors, j),
    decreases j - i,
{
    if i < j {
        lemma_sector_base_monotonic(sectors, i, j - 1);
    }
}

/// Where no sector is empty, a later sector starts at or after the end of an
/// earlier one.
pub proof fn lemma_sector_base_strict(sectors: Seq<usize>, i: int, j: int)
    requires
        0 <= i < j <= sectors.len(),
        forall|k: int| 0 <= k < sectors.len() ==> sectors[k] > 0,
    ensures
        sector_base(sectors, i) + sectors[i] <= sector_base(sectors, j),
        sector_base(sectors, i) < sector_base(sectors, j),
{
    lemma_sector_base_monotonic(sectors, i + 1, j);
}

/// In a device whose first `k` sectors all have the size `size`, sector `k`
/// starts at `k * size`.
pub proof fn lemma_uniform_sector_base(sectors: Seq<usize>, size: usize, k: int)
    requires
        0 <= k <= sectors.len(),
        forall|i: int| 0 <= i < k ==> sectors[i] == size,
    ensures
        sector_base(sectors, k) == k * size,
    decreases k,
{
    if k > 0 {
        lemma_uniform_sector_base(sectors, size, k - 1);
        assert(sectors[k - 1] == size);
        assert((k - 1) * size + size == k * size) by (nonlinear_arith);
    } else {
        assert(k * size == 0) by (nonlinear_arith)
            requires
                k == 0,
        ;
    }
}

/// A sector starts at `offset`.
pub open spec fn is_sector_start(sectors: Seq<usize>, offset: int) -> bool {
    exists|k: int| 0 <= k < sectors.len() && #[trigger] sector_base(sectors, k) == offset
}

/// A sector ends just before `offset`.
pub open spec fn is_sector_end(sectors: Seq<usize>, offset: int) -> bool {
    exists|k: int| 0 <= k < sectors.len() && #[trigger] sector_base(sectors, k + 1) == offset
}

/// The range spans whole sectors: it starts where a sector starts and ends
/// where a sector ends.
pub open spec fn spans_sectors(sectors: Seq<usize>, offset: int, len: int) -> bool {
    is_sector_start(sectors, offset) && is_sector_end(sectors, offset + len)
}

/// A value strictly between the start and the end of one sector is the base
/// of no sector.
pub proof fn lemma_inside_sector(sectors: Seq<usize>, s: int, x: int)
    requires
        0 <= s < sectors.len(),
        sector_base(sectors, s) < x < sector_base(sectors, s + 1),
    ensures
        forall|j: int| 0 <= j <= sectors.len() ==> #[trigger] sector_base(sectors, j) != x,
{
    assert forall|j: int| 0 <= j <= sectors.len() implies #[trigger] sector_base(sectors, j)
        != x by {
        if j <= s {
            lemma_sector_base_monotonic(sectors, j, s);
        } else {
            lemma_sector_base_monotonic(sectors, s + 1, j);
        }
    }
}

/// One erasable unit of the device.
#[derive(Debug, Clone, Copy)]
pub struct Sector {
    /// Which sector this is, starting from 0.
    pub num: usize,
    /// The offset, in bytes, of the start of this sector.
    pub base: usize,
    /// The length, in bytes, of this sector.
    pub size: usize,
}

/// Sector `k` of a device with the given sector sizes.
pub open spec fn sector_at(sectors: Seq<usize>, k: int) -> Sector {
    Sector { num: k as usize, base: sector_base(sectors, k) as usize, size: sectors[k] }
}

/// A single pass over the sectors of a device, in order.
pub struct SectorIter<'a> {
    sectors: &'a Vec<usize>,
    index: usize,
    base: usize,
}

impl<'a> SectorIter<'a> {
    /// The sector sizes that the pass runs over.
    pub closed spec fn sectors(&self) -> Seq<usize> {
        self.sectors@
    }

    /// How many sectors have been handed out.
    pub closed spec fn position(&self) -> int {
        self.index as int
    }

    /// The pass is inside its device and the device's size is a `usize`.
    pub closed spec fn wf(&self) -> bool {
        &&& self.index <= self.sectors@.len()
        &&& self.base == sector_base(self.sectors@, self.index as int)
        &&& device_size(self.sectors@) <= usize::MAX
    }

    /// A pass that starts at the first sector.
    pub fn new(sectors: &'a Vec<usize>) -> (it: SectorIter<'a>)
        requires
            device_size(sectors@) <= usize::MAX,
        ensures
            it.wf(),
            it.sectors() == sectors@,
            it.position() == 0,
    {
        SectorIter { sectors, index: 0, base: 0 }
    }

    /// The next sector, or `None` after the last one.
    pub fn next(&mut self) -> (r: Option<Sector>)
        requires
            old(self).wf(),
        ensures
            final(self).wf(),
            final(self).sectors() == old(self).sectors(),
            old(self).position() < old(self).sectors().len() ==> {
                &&& r == Some(sector_at(old(self).sectors(), old(self).position()))
                &&& final(self).position() == old(self).position() + 1
            },
            old(self).position() >= old(self).sectors().len() ==> {
                &&& r is None
                &&& final(self).position() == old(self).position()
            },
    {
        if self.index < self.sectors.len() {
            let size = self.sectors[self.index];
            let base = self.base;
            proof {
                lemma_sector_base_monotonic(
                    self.sectors@,
                    self.index as int + 1,
                    self.sectors@.len() as int,
                );
            }
            let sector = Sector { num: self.index, base, size };
            self.base = base + size;
            self.index = self.index + 1;
            Some(sector)
        } else {
            None
        }
    }
}

} // verus!
