//! The devices that the harness knows: for each, the sizes of its sectors and
//! where the two image slots and the scratch area lie.

use crate::area::{AreaDesc, AreaState, FlashId};
use crate::flash::{is_power_of_two, FlashState, SimFlash};
use crate::sector::{device_size, lemma_uniform_sector_base, sector_base};
use vstd::prelude::*;

verus! {

/// A device of the catalog.
#[derive(Copy, Clone, Debug, PartialEq, Eq, Structural)]
pub enum DeviceName {
    /// Large sectors of several sizes, with a large scratch area.
    Stm32f4,
    /// Small sectors, one of them for scratch.
    K64f,
    /// The small sectors of `K64f`, described to the bootloader as the large
    /// areas of `Stm32f4`.
    K64fBig,
    /// Small sectors, with a scratch area whose size does not divide that of
    /// an image slot.
    Nrf52840,
}

impl DeviceName {
    /// The name of the device in lower case.
    pub fn name(&self) -> (s: &'static str)
        ensures
            s@ == match *self {
                DeviceName::Stm32f4 => "stm32f4"@,
                DeviceName::K64f => "k64f"@,
                DeviceName::K64fBig => "k64fbig"@,
                DeviceName::Nrf52840 => "nrf52840"@,
            },
    {
        match self {
            DeviceName::Stm32f4 => "stm32f4",
            DeviceName::K64f => "k64f",
            DeviceName::K64fBig => "k64fbig",
            DeviceName::Nrf52840 => "nrf52840",
        }
    }
}

/// Every device of the catalog.
pub fn all_devices() -> (devices: Vec<DeviceName>)
    ensures
        devices@ == seq![
            DeviceName::Stm32f4,
            DeviceName::K64f,
            DeviceName::K64fBig,
            DeviceName::Nrf52840,
        ],
{
    let mut devices: Vec<DeviceName> = Vec::new();
    devices.push(DeviceName::Stm32f4);
    devices.push(DeviceName::K64f);
    devices.push(DeviceName::K64fBig);
    devices.push(DeviceName::Nrf52840);
    assert(devices@ =~= seq![
        DeviceName::Stm32f4,
        DeviceName::K64f,
        DeviceName::K64fBig,
        DeviceName::Nrf52840,
    ]);
    devices
}

/// The write alignments that the harness runs with.
pub open spec fn is_valid_align(align: u8) -> bool {
    align == 1 || align == 2 || align == 4 || align == 8
}

/// Whether `align` is one of the write alignments that the harness runs
/// with: 1, 2, 4 or 8.
pub fn valid_align(align: u8) -> (b: bool)
    ensures
        b == is_valid_align(align),
{
    align == 1 || align == 2 || align == 4 || align == 8
}

/// Every write alignment that the harness runs with.
pub fn all_aligns() -> (aligns: Vec<u8>)
    ensures
        aligns@ == seq![1u8, 2u8, 4u8, 8u8],
{
    let mut aligns: Vec<u8> = Vec::new();
    aligns.push(1);
    aligns.push(2);
    aligns.push(4);
    aligns.push(8);
    assert(aligns@ =~= seq![1u8, 2u8, 4u8, 8u8]);
    aligns
}

/// The sector sizes of a device.
pub open spec fn device_sectors(device: DeviceName) -> Seq<usize> {
    match device {
        DeviceName::Stm32f4 => seq![
            0x4000usize,
            0x4000usize,
            0x4000usize,
            0x4000usize,
            0x1_0000usize,
            0x2_0000usize,
            0x2_0000usize,
            0x2_0000usize,
        ],
        _ => Seq::new(128, |i: int| 4096usize),
    }
}

/// Base and length of an area of a device.
pub open spec fn device_area(device: DeviceName, id: FlashId) -> (usize, usize) {
    match device {
        DeviceName::Stm32f4 | DeviceName::K64fBig => match id {
            FlashId::Image0 => (0x02_0000, 0x02_0000),
            FlashId::Image1 => (0x04_0000, 0x02_0000),
            FlashId::ImageScratch => (0x06_0000, 0x02_0000),
        },
        DeviceName::K64f => match id {
            FlashId::Image0 => (0x02_0000, 0x02_0000),
            FlashId::Image1 => (0x04_0000, 0x02_0000),
            FlashId::ImageScratch => (0x06_0000, 0x00_1000),
        },
        DeviceName::Nrf52840 => match id {
            FlashId::Image0 => (0x00_8000, 0x03_4000),
            FlashId::Image1 => (0x03_c000, 0x03_4000),
            FlashId::ImageScratch => (0x07_0000, 0x00_d000),
        },
    }
}

/// The state with the area `id` of `device` added: as one erase unit for
/// `K64fBig`, by its sectors for the others.
pub open spec fn with_device_area(state: AreaState, device: DeviceName, id: FlashId) -> AreaState {
    let (base, len) = device_area(device, id);
    if device == DeviceName::K64fBig {
        state.with_simple_image(base, len, id)
    } else {
        state.with_image(base, len, id)
    }
}

/// The areas of a device: the two image slots, then the scratch area.
pub open spec fn device_areas(device: DeviceName) -> AreaState {
    let none = AreaState { areas: Seq::empty(), sectors: device_sectors(device) };
    with_device_area(
        with_device_area(with_device_area(none, device, FlashId::Image0), device, FlashId::Image1),
        device,
        FlashId::ImageScratch,
    )
}

/// Every device of the catalog has 512 KiB.
pub proof fn lemma_device_size(device: DeviceName)
    ensures
        device_size(device_sectors(device)) == 0x8_0000,
{
    let sectors = device_sectors(device);
    if device == DeviceName::Stm32f4 {
        reveal_with_fuel(sector_base, 9);
    } else {
        lemma_uniform_sector_base(sectors, 4096, 128);
    }
}

/// The flash and the area description of a device, with the write alignment
/// `align`.
pub fn make_device(device: DeviceName, align: u8) -> (made: (SimFlash, AreaDesc))
    requires
        is_power_of_two(align as usize),
    ensures
        made.0@ == FlashState::blank(device_sectors(device), align as usize),
        made.0@.wf(),
        made.1.wf(),
        made.1@ == device_areas(device),
{
    proof {
        lemma_device_size(device);
    }
    match device {
        DeviceName::Stm32f4 => {
            let sectors: Vec<usize> = vec![
                16 * 1024,
                16 * 1024,
                16 * 1024,
                16 * 1024,
                64 * 1024,
                128 * 1024,
                128 * 1024,
                128 * 1024,
            ];
            assert(sectors@ =~= device_sectors(device));
            let flash = SimFlash::new(sectors, align as usize);
            let mut areadesc = AreaDesc::new(&flash);
            proof {
                reveal_with_fuel(sector_base, 9);
                let s = device_sectors(device);
                assert(sector_base(s, 5) == 0x02_0000);
                assert(sector_base(s, 6) == 0x04_0000);
                assert(sector_base(s, 7) == 0x06_0000);
                assert(sector_base(s, 7int + 1) == 0x08_0000);
                assert(sector_base(s, 5int + 1) == 0x04_0000);
                assert(sector_base(s, 6int + 1) == 0x06_0000);
            }
            areadesc.add_image(0x020000, 0x020000, FlashId::Image0);
            areadesc.add_image(0x040000, 0x020000, FlashId::Image1);
            areadesc.add_image(0x060000, 0x020000, FlashId::ImageScratch);
            (flash, areadesc)
        },
        DeviceName::K64f => {
            let sectors: Vec<usize> = vec![4096; 128];
            assert(sectors@ =~= device_sectors(device));
            let flash = SimFlash::new(sectors, align as usize);
            let mut areadesc = AreaDesc::new(&flash);
            proof {
                let s = device_sectors(device);
                lemma_uniform_sector_base(s, 4096, 32);
                lemma_uniform_sector_base(s, 4096, 64);
                lemma_uniform_sector_base(s, 4096, 96);
                lemma_uniform_sector_base(s, 4096, 97);
                assert(sector_base(s, 63int + 1) == 0x04_0000);
                assert(sector_base(s, 95int + 1) == 0x06_0000);
                assert(sector_base(s, 96int + 1) == 0x06_1000);
            }
            areadesc.add_image(0x020000, 0x020000, FlashId::Image0);
            areadesc.add_image(0x040000, 0x020000, FlashId::Image1);
            areadesc.add_image(0x060000, 0x001000, FlashId::ImageScratch);
            (flash, areadesc)
        },
        DeviceName::K64fBig => {
            let sectors: Vec<usize> = vec![4096; 128];
            assert(sectors@ =~= device_sectors(device));
            let flash = SimFlash::new(sectors, align as usize);
            let mut areadesc = AreaDesc::new(&flash);
            areadesc.add_simple_image(0x020000, 0x020000, FlashId::Image0);
            areadesc.add_simple_image(0x040000, 0x020000, FlashId::Image1);
            areadesc.add_simple_image(0x060000, 0x020000, FlashId::ImageScratch);
            (flash, areadesc)
        },
        DeviceName::Nrf52840 => {
            let sectors: Vec<usize> = vec![4096; 128];
            assert(sectors@ =~= device_sectors(device));
            let flash = SimFlash::new(sectors, align as usize);
            let mut areadesc = AreaDesc::new(&flash);
            proof {
                let s = device_sectors(device);
                lemma_uniform_sector_base(s, 4096, 8);
                lemma_uniform_sector_base(s, 4096, 60);
                lemma_uniform_sector_base(s, 4096, 112);
                lemma_uniform_sector_base(s, 4096, 125);
                assert(sector_base(s, 59int + 1) == 0x03_c000);
                assert(sector_base(s, 111int + 1) == 0x07_0000);
                assert(sector_base(s, 124int + 1) == 0x07_d000);
            }
            areadesc.add_image(0x008000, 0x034000, FlashId::Image0);
            areadesc.add_image(0x03c000, 0x034000, FlashId::Image1);
            areadesc.add_image(0x070000, 0x00d000, FlashId::ImageScratch);
            (flash, areadesc)
        },
    }
}

} // verus!
