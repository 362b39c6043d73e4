use bootsim::flash::{Flash, SimFlash};
use bootsim::image::{
    can_install, install_image, install_image_around, signed_part, splat, verify_image, ImageHeader, HEADER_SIZE,
};

fn read(flash: &SimFlash, offset: usize, len: usize) -> Vec<u8> {
    let mut buf = vec![0u8; len];
    flash.read(offset, &mut buf).unwrap();
    buf
}

#[test]
fn header_wire_layout() {
    let header = ImageHeader::new(0x20000, 32784, 36, 0x10);
    assert_eq!(header.magic, 0x96f3b83d);
    assert_eq!(header.hdr_size, 32);
    assert_eq!(header.img_size, 32784);
    assert_eq!(header.key_id, 0);
    assert_eq!(header.ver.major, 1);
    assert_eq!(header.ver.minor, 0);
    assert_eq!(header.ver.revision, 1);
    assert_eq!(header.ver.build_num, 0x20000);
    let raw = header.as_raw();
    assert_eq!(raw.len(), HEADER_SIZE);
    assert_eq!(
        raw,
        [
            0x3d, 0xb8, 0xf3, 0x96, // magic
            0x24, 0x00, // tlv_size
            0x00, // key_id
            0x00, // pad
            0x20, 0x00, // hdr_size
            0x00, 0x00, // pad
            0x10, 0x80, 0x00, 0x00, // img_size
            0x10, 0x00, 0x00, 0x00, // flags
            0x01, // major
            0x00, // minor
            0x01, 0x00, // revision
            0x00, 0x00, 0x02, 0x00, // build_num
            0x00, 0x00, 0x00, 0x00, // pad
        ]
    );
}

#[test]
fn header_fields_are_cut_to_their_width() {
    let header = ImageHeader::new(0x40000, 41928, 0xabcd, 0x1234_5678);
    assert_eq!(header.ver.major, 2);
    assert_eq!(header.tlv_size, 0xabcd);
    assert_eq!(header.flags, 0x1234_5678);
    let raw = header.as_raw();
    assert_eq!(&raw[4..6], &[0xcd, 0xab]);
    assert_eq!(&raw[16..20], &[0x78, 0x56, 0x34, 0x12]);
    assert_eq!(&raw[12..16], &[0xc8, 0xa3, 0x00, 0x00]);
    // 512 sectors of 128K: the major version wraps.
    let header = ImageHeader::new(0x200_0000 + 0x2_0000, 8, 0, 0);
    assert_eq!(header.ver.major, 1);
}

#[test]
fn deterministic_body() {
    let mut first = vec![0u8; 32784];
    splat(&mut first, 0x20000);
    let mut second = vec![0x55u8; 32784];
    splat(&mut second, 0x20000);
    assert_eq!(first, second);
    assert_eq!(first.len(), 32784);
    assert_eq!(first[0], 0xea);
    assert_eq!(
        &first[..16],
        &[
            0xea, 0xa1, 0x9c, 0xff, 0x38, 0x92, 0xed, 0xaf, 0x7a, 0xa3, 0x8a, 0xeb, 0x09, 0xbe,
            0x98, 0xfb
        ]
    );
}

#[test]
fn body_depends_on_seed_and_length() {
    let mut a = vec![0u8; 32784];
    splat(&mut a, 0x20020);
    assert_eq!(&a[..8], &[0xca, 0xa1, 0x9c, 0xff, 0x18, 0x92, 0xed, 0xaf]);
    let mut b = vec![0u8; 4];
    splat(&mut b, 7);
    assert_eq!(b, [0xed, 0xa1, 0x9e, 0xff]);
    let mut empty: Vec<u8> = Vec::new();
    splat(&mut empty, 7);
    assert!(empty.is_empty());
}

#[test]
fn signed_part_is_header_then_body() {
    let bytes = signed_part(0x20000, 100, 36, 0x10);
    assert_eq!(bytes.len(), 132);
    assert_eq!(&bytes[..32], &ImageHeader::new(0x20000, 100, 36, 0x10).as_raw()[..]);
    let mut body = vec![0u8; 100];
    splat(&mut body, 0x20000);
    assert_eq!(&bytes[32..], &body[..]);
}

#[test]
fn install_image_writes_header_body_tail_and_padding() {
    let mut flash = SimFlash::new(vec![4096usize; 128], 8);
    let tlv: Vec<u8> = (0..36u8).map(|i| i + 1).collect();
    let image = install_image(&mut flash, 0x20000, 100, false, 36, 0x10, &tlv);
    // 32 + 100 + 36 = 168, which is a multiple of 8.
    assert_eq!(image.len(), 168);
    assert_eq!(&image[..32], &ImageHeader::new(0x20000, 100, 36, 0x10).as_raw()[..]);
    let mut body = vec![0u8; 100];
    splat(&mut body, 0x20000);
    assert_eq!(&image[32..132], &body[..]);
    assert_eq!(&image[132..168], &tlv[..]);
    assert_eq!(read(&flash, 0x20000, 168), image);
    assert_eq!(read(&flash, 0x20000 + 168, 8), [0xff; 8]);
    assert_eq!(read(&flash, 0x20000 - 8, 8), [0xff; 8]);
    assert!(verify_image(&flash, 0x20000, &image));
}

#[test]
fn install_image_pads_to_eight_bytes() {
    let mut flash = SimFlash::new(vec![4096usize; 128], 1);
    let tlv = vec![0xabu8; 36];
    let image = install_image(&mut flash, 0x1000, 32784, false, 36, 0x10, &tlv);
    // 32784 + 36 = 32820 = 8 * 4102 + 4: four bytes of padding.
    assert_eq!(image.len(), 32 + 32784 + 36 + 4);
    assert_eq!(&image[32 + 32784..32 + 32784 + 36], &tlv[..]);
    assert_eq!(&image[32 + 32784 + 36..], &[0xff; 4]);
    assert_eq!(read(&flash, 0x1000, image.len()), image);
}

#[test]
fn install_image_with_bad_signature_zeroes_the_tail() {
    let mut good_flash = SimFlash::new(vec![4096usize; 128], 4);
    let mut bad_flash = SimFlash::new(vec![4096usize; 128], 4);
    let tlv = vec![0xabu8; 37];
    let good = install_image(&mut good_flash, 0x8000, 64, false, 37, 0x10, &tlv);
    let bad = install_image(&mut bad_flash, 0x8000, 64, true, 37, 0x10, &tlv);
    // 64 + 37 = 101: three bytes of padding.
    assert_eq!(good.len(), 32 + 64 + 37 + 3);
    assert_eq!(bad.len(), good.len());
    assert_eq!(&bad[..96], &good[..96]);
    assert_eq!(&bad[96..133], &[0u8; 37]);
    assert_eq!(&good[96..133], &tlv[..]);
    assert_eq!(&bad[133..], &[0xff; 3]);
    assert!(verify_image(&bad_flash, 0x8000, &bad));
    assert!(!verify_image(&bad_flash, 0x8000, &good));
}

#[test]
fn install_image_is_deterministic() {
    let tlv = vec![7u8; 36];
    let mut a = SimFlash::new(vec![4096usize; 128], 2);
    let mut b = SimFlash::new(vec![4096usize; 128], 2);
    let first = install_image(&mut a, 0x40000, 41928, false, 36, 0x10, &tlv);
    let second = install_image(&mut b, 0x40000, 41928, false, 36, 0x10, &tlv);
    assert_eq!(first, second);
    assert_eq!(read(&a, 0, 0x80000), read(&b, 0, 0x80000));
    // Another offset gives another body.
    let mut c = SimFlash::new(vec![4096usize; 128], 2);
    let third = install_image(&mut c, 0x20000, 41928, false, 36, 0x10, &tlv);
    assert_ne!(&third[32..64], &first[32..64]);
}

#[test]
fn installed_bytes_cannot_be_written_again() {
    let mut flash = SimFlash::new(vec![4096usize; 128], 1);
    let image = install_image(&mut flash, 0x1000, 8, false, 0, 0, &[]);
    assert_eq!(image.len(), 40);
    assert!(flash.write_fault(0x1000, 1).is_some());
    assert!(flash.write_fault(0x1000 + 39, 1).is_some());
    assert!(flash.write_fault(0x1000 + 40, 1).is_none());
}

#[test]
fn verify_image_compares_every_byte() {
    let mut flash = SimFlash::new(vec![16, 16], 1);
    flash.write(4, &[1, 2, 3, 4]).unwrap();
    assert!(verify_image(&flash, 4, &[1, 2, 3, 4]));
    assert!(verify_image(&flash, 4, &[1, 2, 3, 4, 0xff]));
    assert!(!verify_image(&flash, 4, &[1, 2, 3, 5]));
    assert!(!verify_image(&flash, 4, &[0, 2, 3, 4]));
    assert!(verify_image(&flash, 4, &[]));
    assert!(verify_image(&flash, 3, &[0xff, 1]));
}

#[test]
fn install_image_around_a_given_body() {
    let mut flash = SimFlash::new(vec![4096usize; 4], 1);
    let image = install_image_around(&mut flash, 0x1000, vec![1, 2, 3], false, 4, 0x10, &[9, 8, 7, 6]);
    assert_eq!(image.len(), 40);
    assert_eq!(&image[..32], &ImageHeader::new(0x1000, 3, 4, 0x10).as_raw()[..]);
    assert_eq!(&image[32..], &[1, 2, 3, 9, 8, 7, 6, 0xff]);
    assert_eq!(read(&flash, 0x1000, 40), image);

    let mut flash = SimFlash::new(vec![4096usize; 4], 8);
    let image = install_image_around(&mut flash, 0x2000, vec![1, 2, 3], true, 4, 0, &[9, 8, 7, 6]);
    assert_eq!(&image[32..], &[1, 2, 3, 0, 0, 0, 0, 0xff]);

    let mut flash = SimFlash::new(vec![4096usize; 4], 8);
    let image = install_image_around(&mut flash, 0, vec![], false, 0, 0, &[]);
    assert_eq!(image, ImageHeader::new(0, 0, 0, 0).as_raw());
    let mut flash = SimFlash::new(vec![4096usize; 4], 8);
    let image = install_image_around(&mut flash, 0, vec![5; 8], false, 0, 0, &[]);
    assert_eq!(&image[32..], &[5; 8]);
}

#[test]
fn can_install_tells_when_an_image_goes_in() {
    let mut flash = SimFlash::new(vec![4096usize; 4], 8);
    assert!(can_install(&flash, 0, 100, 36));
    assert!(can_install(&flash, 0x3000, 4096 - 32 - 36, 36));
    assert!(!can_install(&flash, 0x3000, 4096 - 32 - 36 + 1, 36));
    assert!(!can_install(&flash, 4, 100, 36));
    assert!(!can_install(&flash, 0, usize::MAX, 36));
    assert!(!can_install(&flash, usize::MAX - 8, 0, 0));
    install_image(&mut flash, 0, 100, false, 36, 0, &[0u8; 36]);
    assert!(!can_install(&flash, 0, 100, 36));
    assert!(!can_install(&flash, 160, 100, 36));
    assert!(can_install(&flash, 168, 100, 36));
    flash.add_bad_region(168, 32, 1).unwrap();
    assert!(!can_install(&flash, 168, 100, 36));
    assert!(can_install(&flash, 176, 100, 36));
}

#[test]
fn installed_body_is_seeded_by_the_offset_of_the_image() {
    let mut flash = SimFlash::new(vec![4096usize; 128], 1);
    let image = install_image(&mut flash, 0x20000, 32784, false, 36, 0x10, &[0u8; 36]);
    assert_eq!(image[32], 0xea);
    assert_eq!(
        &image[32..48],
        &[
            0xea, 0xa1, 0x9c, 0xff, 0x38, 0x92, 0xed, 0xaf, 0x7a, 0xa3, 0x8a, 0xeb, 0x09, 0xbe,
            0x98, 0xfb
        ]
    );
    let mut body = vec![0u8; 32784];
    splat(&mut body, 0x20000);
    assert_eq!(&image[32..32 + 32784], &body[..]);
    assert_eq!(&signed_part(0x20000, 32784, 36, 0x10)[32..], &body[..]);
}
