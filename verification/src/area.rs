//! The areas of a device that the bootloader works with: two image slots and
//! a scratch area, each given by its base and its length.

use crate::flash::{Flash, SimFlash};
use crate::sector::{
    device_size, lemma_sector_base_monotonic, lemma_sector_base_strict, sector_base,
    spans_sectors,
};
use vstd::prelude::*;

verus! {

/// The name of an area.
#[derive(Debug, Clone, Copy, PartialEq, Eq, Structural)]
pub enum FlashId {
    /// The slot that the device boots from.
    Image0,
    /// The slot that holds an upgrade.
    Image1,
    /// The area that a swap uses as temporary storage.
    ImageScratch,
}

/// A range of the device that belongs to an area: the whole area, or one of
/// the units in which it is erased.
#[derive(Debug, Clone, Copy)]
pub struct FlashArea {
    /// The area that the range belongs to.
    pub flash_id: FlashId,
    /// The first byte of the range.
    pub off: usize,
    /// The length of the range in bytes.
    pub size: usize,
}

/// One registered area: its whole range and the units in which it is erased.
pub struct Area {
    /// The whole range of the area.
    pub whole: FlashArea,
    /// The erase units of the area, in order.
    pub units: Vec<FlashArea>,
}

/// An area as a value.
#[verifier::ext_equal]
pub ghost struct AreaModel {
    /// The whole range of the area.
    pub whole: FlashArea,
    /// The erase units of the area, in order.
    pub units: Seq<FlashArea>,
}

impl View for Area {
    type V = AreaModel;

    open spec fn view(&self) -> AreaModel {
        AreaModel { whole: self.whole, units: self.units@ }
    }
}

impl Clone for Area {
    fn clone(&self) -> (copy: Area)
        ensures
            copy@ == self@,
    {
        let copy = Area { whole: self.whole, units: self.units.clone() };
        assert(copy.units@ =~= self.units@);
        copy
    }
}

/// The index of the sector that starts at `offset`, where one does.
pub open spec fn sector_starting_at(sectors: Seq<usize>, offset: int) -> int {
    choose|k: int| 0 <= k < sectors.len() && #[trigger] sector_base(sectors, k) == offset
}

/// The index of the sector that ends just before `offset`, where one does.
pub open spec fn sector_ending_at(sectors: Seq<usize>, offset: int) -> int {
    choose|k: int| 0 <= k < sectors.len() && #[trigger] sector_base(sectors, k + 1) == offset
}

/// Sector `k` as an erase unit of the area `id`.
pub open spec fn sector_unit(sectors: Seq<usize>, id: FlashId, k: int) -> FlashArea {
    FlashArea { flash_id: id, off: sector_base(sectors, k) as usize, size: sectors[k] }
}

/// The sectors that make up the range `base .. base + len`, as erase units of
/// the area `id`. The range spans whole sectors.
pub open spec fn sector_units(sectors: Seq<usize>, id: FlashId, base: int, len: int) -> Seq<
    FlashArea,
> {
    let first = sector_starting_at(sectors, base);
    let last = sector_ending_at(sectors, base + len);
    Seq::new((last + 1 - first) as nat, |j: int| sector_unit(sectors, id, first + j))
}

/// The areas registered so far, and the sectors that they are laid over.
#[verifier::ext_equal]
pub ghost struct AreaState {
    /// The areas in the order in which they were added.
    pub areas: Seq<AreaModel>,
    /// The sector sizes of the device.
    pub sectors: Seq<usize>,
}

impl AreaState {
    /// Some area has the name `id`.
    pub open spec fn has(self, id: FlashId) -> bool {
        exists|i: int| 0 <= i < self.areas.len() && (#[trigger] self.areas[i]).whole.flash_id == id
    }

    /// The position of the first area named `id` at or after `from`, or the
    /// number of areas where there is none.
    pub open spec fn position(self, id: FlashId, from: int) -> int
        decreases self.areas.len() - from,
    {
        if from < 0 || from >= self.areas.len() {
            self.areas.len() as int
        } else if self.areas[from].whole.flash_id == id {
            from
        } else {
            self.position(id, from + 1)
        }
    }

    /// Base and length of the first area named `id`.
    pub open spec fn lookup(self, id: FlashId) -> (usize, usize) {
        let area = self.areas[self.position(id, 0)].whole;
        (area.off, area.size)
    }

    /// The state with one more area.
    pub open spec fn with_area(self, whole: FlashArea, units: Seq<FlashArea>) -> AreaState {
        AreaState { areas: self.areas.push(AreaModel { whole, units }), ..self }
    }

    /// The state with one more area whose erase units are the sectors that
    /// it spans.
    pub open spec fn with_image(self, base: usize, len: usize, id: FlashId) -> AreaState {
        self.with_area(
            FlashArea { flash_id: id, off: base, size: len },
            sector_units(self.sectors, id, base as int, len as int),
        )
    }

    /// The state with one more area that is a single erase unit.
    pub open spec fn with_simple_image(self, base: usize, len: usize, id: FlashId) -> AreaState {
        self.with_area(
            FlashArea { flash_id: id, off: base, size: len },
            seq![FlashArea { flash_id: id, off: base, size: len }],
        )
    }
}

/// The description of the areas of one device.
pub struct AreaDesc {
    areas: Vec<Area>,
    sectors: Vec<usize>,
}

impl View for AreaDesc {
    type V = AreaState;

    closed spec fn view(&self) -> AreaState {
        AreaState {
            areas: Seq::new(self.areas@.len(), |i: int| self.areas@[i]@),
            sectors: self.sectors@,
        }
    }
}

impl AreaDesc {
    /// The invariant: no sector is empty and the device's size is a `usize`.
    pub closed spec fn wf(&self) -> bool {
        &&& device_size(self.sectors@) <= usize::MAX
        &&& forall|k: int| 0 <= k < self.sectors@.len() ==> self.sectors@[k] > 0
    }

    /// A description without areas for the given device.
    pub fn new(flash: &SimFlash) -> (desc: AreaDesc)
        requires
            flash@.wf(),
        ensures
            desc.wf(),
            desc@ == (AreaState { areas: Seq::empty(), sectors: flash@.sectors }),
    {
        let mut sectors: Vec<usize> = Vec::new();
        let mut iter = flash.sector_iter();
        loop
            invariant
                iter.wf(),
                iter.sectors() == flash@.sectors,
                iter.position() == sectors@.len(),
                sectors@.len() <= flash@.sectors.len(),
                sectors@ == flash@.sectors.subrange(0, sectors@.len() as int),
            ensures
                sectors@.len() == flash@.sectors.len(),
            decreases flash@.sectors.len() - sectors@.len(),
        {
            match iter.next() {
                Some(sector) => {
                    sectors.push(sector.size);
                    assert(sectors@ =~= flash@.sectors.subrange(0, sectors@.len() as int));
                },
                None => {
                    break ;
                },
            }
        }
        assert(sectors@ =~= flash@.sectors);
        let desc = AreaDesc { areas: Vec::new(), sectors };
        assert(desc@ =~~= (AreaState { areas: Seq::empty(), sectors: flash@.sectors }));
        desc
    }

    /// Whether the range spans whole sectors of the device, so that it can be
    /// added with `add_image`.
    pub fn spans_sectors(&self, base: usize, len: usize) -> (b: bool)
        requires
            self.wf(),
        ensures
            b == spans_sectors(self@.sectors, base as int, len as int),
    {
        let ghost sectors = self.sectors@;
        if len > usize::MAX - base {
            proof {
                assert forall|k: int| 0 <= k < sectors.len() implies #[trigger] sector_base(
                    sectors,
                    k + 1,
                ) != base + len by {
                    lemma_sector_base_monotonic(sectors, k + 1, sectors.len() as int);
                }
            }
            return false;
        }
        let end = base + len;
        let mut start_found = false;
        let mut end_found = false;
        let mut cursor: usize = 0;
        let mut k: usize = 0;
        while k < self.sectors.len()
            invariant
                k <= sectors.len(),
                sectors == self.sectors@,
                self.wf(),
                end == base + len,
                cursor == sector_base(sectors, k as int),
                start_found == exists|j: int|
                    0 <= j < k && #[trigger] sector_base(sectors, j) == base,
                end_found == exists|j: int|
                    0 <= j < k && #[trigger] sector_base(sectors, j + 1) == end,
            decreases sectors.len() - k,
        {
            proof {
                lemma_sector_base_monotonic(sectors, k as int + 1, sectors.len() as int);
            }
            if cursor == base {
                start_found = true;
            }
            cursor = cursor + self.sectors[k];
            if cursor == end {
                end_found = true;
            }
            k = k + 1;
        }
        start_found && end_found
    }

    /// Adds an area that coincides with whole sectors of the device. Each of
    /// its sectors becomes one erase unit.
    pub fn add_image(&mut self, base: usize, len: usize, id: FlashId)
        requires
            old(self).wf(),
            spans_sectors(old(self)@.sectors, base as int, len as int),
        ensures
            final(self).wf(),
            final(self)@ == old(self)@.with_image(base, len, id),
    {
        let ghost before = self@;
        let ghost sectors = self.sectors@;
        let ghost first = sector_starting_at(sectors, base as int);
        let ghost last = sector_ending_at(sectors, base + len);
        proof {
            lemma_sector_base_monotonic(sectors, last + 1, sectors.len() as int);
            if last + 1 < first {
                lemma_sector_base_strict(sectors, last + 1, first);
            }
        }
        let mut units: Vec<FlashArea> = Vec::new();
        let mut cursor: usize = 0;
        let mut k: usize = 0;
        while k < self.sectors.len() && cursor < base
            invariant
                k <= sectors.len(),
                k <= first,
                0 <= first < sectors.len(),
                sectors == self.sectors@,
                self.wf(),
                self@ == before,
                sector_base(sectors, first) == base,
                cursor == sector_base(sectors, k as int),
            decreases sectors.len() - k,
        {
            proof {
                lemma_sector_base_monotonic(sectors, k as int + 1, sectors.len() as int);
                if k as int == first {
                    assert(false);
                }
                lemma_sector_base_strict(sectors, k as int, first);
            }
            cursor = cursor + self.sectors[k];
            k = k + 1;
        }
        proof {
            if (k as int) < first {
                lemma_sector_base_strict(sectors, k as int, first);
            }
        }
        assert(k as int == first);
        let end = base + len;
        let count = self.sectors.len();
        while cursor < end
            invariant
                first <= k <= last + 1,
                count == sectors.len(),
                0 <= first < sectors.len(),
                0 <= last < sectors.len(),
                first <= last + 1,
                sectors == self.sectors@,
                self.wf(),
                self@ == before,
                end == base + len,
                sector_base(sectors, last + 1) == end,
                cursor == sector_base(sectors, k as int),
                units@ == Seq::new(
                    (k - first) as nat,
                    |j: int| sector_unit(sectors, id, first + j),
                ),
            decreases end - cursor,
        {
            proof {
                if k as int == last + 1 {
                    assert(false);
                }
                lemma_sector_base_monotonic(sectors, k as int + 1, last + 1);
            }
            let size = self.sectors[k];
            units.push(FlashArea { flash_id: id, off: cursor, size });
            cursor = cursor + size;
            k = k + 1;
            assert(units@ =~= Seq::new(
                (k - first) as nat,
                |j: int| sector_unit(sectors, id, first + j),
            ));
        }
        proof {
            if (k as int) < last + 1 {
                lemma_sector_base_strict(sectors, k as int, last + 1);
            }
        }
        assert(k as int == last + 1);
        let whole = FlashArea { flash_id: id, off: base, size: len };
        self.areas.push(Area { whole, units });
        assert(self@ =~~= before.with_area(
            whole,
            sector_units(sectors, id, base as int, len as int),
        ));
    }

    /// Adds an area as a single erase unit, whatever sectors lie under it.
    pub fn add_simple_image(&mut self, base: usize, len: usize, id: FlashId)
        requires
            old(self).wf(),
        ensures
            final(self).wf(),
            final(self)@ == old(self)@.with_simple_image(base, len, id),
    {
        let ghost before = self@;
        let whole = FlashArea { flash_id: id, off: base, size: len };
        let mut units: Vec<FlashArea> = Vec::new();
        units.push(whole);
        self.areas.push(Area { whole, units });
        assert(units@ =~= seq![whole]);
        assert(self@ =~~= before.with_area(whole, seq![whole]));
    }

    /// Whether an area named `id` has been added.
    pub fn has(&self, id: FlashId) -> (b: bool)
        ensures
            b == self@.has(id),
            b == (self@.position(id, 0) < self@.areas.len()),
    {
        let mut i: usize = 0;
        while i < self.areas.len()
            invariant
                i <= self.areas@.len(),
                self@.position(id, 0) == self@.position(id, i as int),
                forall|j: int| 0 <= j < i ==> (#[trigger] self@.areas[j]).whole.flash_id != id,
            decreases self.areas@.len() - i,
        {
            if self.areas[i].whole.flash_id == id {
                assert(self@.areas[i as int].whole.flash_id == id);
                return true;
            }
            i = i + 1;
        }
        false
    }

    /// Base and length of the area named `id`: of the first one, where
    /// several have the name.
    pub fn find(&self, id: FlashId) -> (r: (usize, usize))
        requires
            self@.has(id),
        ensures
            r == self@.lookup(id),
    {
        let mut i: usize = 0;
        while i < self.areas.len()
            invariant
                i <= self.areas@.len(),
                self@.has(id),
                self@.position(id, 0) == self@.position(id, i as int),
                forall|j: int| 0 <= j < i ==> (#[trigger] self@.areas[j]).whole.flash_id != id,
            decreases self.areas@.len() - i,
        {
            if self.areas[i].whole.flash_id == id {
                return (self.areas[i].whole.off, self.areas[i].whole.size);
            }
            i = i + 1;
        }
        (0, 0)
    }

    /// The number of areas.
    pub fn len(&self) -> (n: usize)
        ensures
            n == self@.areas.len(),
    {
        self.areas.len()
    }

    /// The `i`-th area in the order in which the areas were added.
    pub fn area(&self, i: usize) -> (area: &Area)
        requires
            i < self@.areas.len(),
        ensures
            area@ == self@.areas[i as int],
    {
        &self.areas[i]
    }
}

impl Clone for AreaDesc {
    fn clone(&self) -> (copy: AreaDesc)
        ensures
            copy@ == self@,
            copy.wf() == self.wf(),
    {
        let mut areas: Vec<Area> = Vec::new();
        let mut i: usize = 0;
        while i < self.areas.len()
            invariant
                i <= self.areas@.len(),
                areas@.len() == i,
                forall|j: int| 0 <= j < i ==> (#[trigger] areas@[j])@ == self.areas@[j]@,
            decreases self.areas@.len() - i,
        {
            areas.push(self.areas[i].clone());
            i = i + 1;
        }
        let sectors = self.sectors.clone();
        assert(sectors@ =~= self.sectors@);
        let copy = AreaDesc { areas, sectors };
        assert(copy@ =~~= self@);
        copy
    }
}

} // verus!
