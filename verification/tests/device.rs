use bootsim::flash::Flash;
use bootsim::area::FlashId;
use bootsim::device::{all_aligns, all_devices, make_device, valid_align, DeviceName};
use bootsim::harness::Caps;
use bootsim::run::Run;

fn caps() -> Caps {
    Caps { swap_upgrade: true, overwrite_only: false, validate_slot0: false, trailer_sz: 40 + 384 }
}

#[test]
fn device_names() {
    assert_eq!(DeviceName::Stm32f4.name(), "stm32f4");
    assert_eq!(DeviceName::K64f.name(), "k64f");
    assert_eq!(DeviceName::K64fBig.name(), "k64fbig");
    assert_eq!(DeviceName::Nrf52840.name(), "nrf52840");
    assert_eq!(
        all_devices(),
        [DeviceName::Stm32f4, DeviceName::K64f, DeviceName::K64fBig, DeviceName::Nrf52840]
    );
}

#[test]
fn aligns() {
    assert_eq!(all_aligns(), [1, 2, 4, 8]);
    for n in 0..=255u8 {
        assert_eq!(valid_align(n), n == 1 || n == 2 || n == 4 || n == 8);
    }
}

#[test]
fn stm32f4_layout() {
    let (flash, desc) = make_device(DeviceName::Stm32f4, 4);
    assert_eq!(flash.device_size(), 0x80000);
    assert_eq!(flash.align(), 4);
    let mut sizes = Vec::new();
    let mut iter = flash.sector_iter();
    while let Some(sector) = iter.next() {
        sizes.push(sector.size);
    }
    assert_eq!(
        sizes,
        [16 * 1024, 16 * 1024, 16 * 1024, 16 * 1024, 64 * 1024, 128 * 1024, 128 * 1024, 128 * 1024]
    );
    assert_eq!(desc.find(FlashId::Image0), (0x020000, 0x020000));
    assert_eq!(desc.find(FlashId::Image1), (0x040000, 0x020000));
    assert_eq!(desc.find(FlashId::ImageScratch), (0x060000, 0x020000));
    assert_eq!(desc.area(0).units.len(), 1);
    assert_eq!(desc.area(1).units.len(), 1);
    assert_eq!(desc.area(2).units.len(), 1);
}

#[test]
fn k64f_layout() {
    let (flash, desc) = make_device(DeviceName::K64f, 1);
    assert_eq!(flash.device_size(), 128 * 4096);
    assert_eq!(desc.find(FlashId::Image0), (0x020000, 0x020000));
    assert_eq!(desc.find(FlashId::Image1), (0x040000, 0x020000));
    assert_eq!(desc.find(FlashId::ImageScratch), (0x060000, 0x001000));
    assert_eq!(desc.area(0).units.len(), 32);
    assert_eq!(desc.area(1).units.len(), 32);
    assert_eq!(desc.area(2).units.len(), 1);
    assert_eq!((desc.area(1).units[31].off, desc.area(1).units[31].size), (0x5f000, 0x1000));
}

#[test]
fn k64fbig_layout() {
    let (flash, desc) = make_device(DeviceName::K64fBig, 8);
    assert_eq!(flash.device_size(), 128 * 4096);
    assert_eq!(desc.find(FlashId::Image0), (0x020000, 0x020000));
    assert_eq!(desc.find(FlashId::Image1), (0x040000, 0x020000));
    assert_eq!(desc.find(FlashId::ImageScratch), (0x060000, 0x020000));
    for i in 0..3 {
        assert_eq!(desc.area(i).units.len(), 1);
    }
}

#[test]
fn nrf52840_layout() {
    let (flash, desc) = make_device(DeviceName::Nrf52840, 2);
    assert_eq!(flash.device_size(), 128 * 4096);
    assert_eq!(desc.find(FlashId::Image0), (0x008000, 0x034000));
    assert_eq!(desc.find(FlashId::Image1), (0x03c000, 0x034000));
    assert_eq!(desc.find(FlashId::ImageScratch), (0x070000, 0x00d000));
    assert_eq!(desc.area(0).units.len(), 52);
    assert_eq!(desc.area(2).units.len(), 13);
}

#[test]
fn run_slots_end_with_their_trailers() {
    let run = Run::new(DeviceName::K64f, 1, caps());
    assert_eq!(run.slot0.base_off, 0x20000);
    assert_eq!(run.slot0.trailer_off, 0x40000 - 32);
    assert_eq!(run.slot1.base_off, 0x40000);
    assert_eq!(run.slot1.trailer_off, 0x60000 - 32);
    assert_eq!(run.align, 1);

    let run = Run::new(DeviceName::Nrf52840, 8, caps());
    assert_eq!(run.slot0.base_off, 0x8000);
    assert_eq!(run.slot0.trailer_off, 0x3c000 - 32);
    assert_eq!(run.slot1.base_off, 0x3c000);
    assert_eq!(run.slot1.trailer_off, 0x70000 - 32);
    assert_eq!(run.flash.align(), 8);
}

#[test]
fn each_device_gives_sixteen_runs() {
    let mut by_align = Vec::new();
    for align in all_aligns() {
        let mut caps = caps();
        caps.trailer_sz = 40 + 384 * align as usize;
        by_align.push(caps);
    }
    let runs = Run::each_device(&by_align);
    assert_eq!(runs.len(), 16);
    for (i, run) in runs.iter().enumerate() {
        assert_eq!(run.caps.trailer_sz, 40 + 384 * [1, 2, 4, 8][i % 4]);
    }
    let mut seen = Vec::new();
    for run in &runs {
        assert_eq!(run.flash.device_size(), 0x80000);
        assert_eq!(run.flash.align(), run.align as usize);
        seen.push((run.slot0.base_off, run.areadesc.find(FlashId::ImageScratch).1, run.align));
    }
    assert_eq!(seen[0], (0x20000, 0x20000, 1));
    assert_eq!(seen[3], (0x20000, 0x20000, 8));
    assert_eq!(seen[4], (0x20000, 0x1000, 1));
    assert_eq!(seen[9], (0x20000, 0x20000, 2));
    assert_eq!(seen[15], (0x8000, 0xd000, 8));
}
