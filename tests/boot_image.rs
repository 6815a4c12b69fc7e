use maskrom_loader::boot::{
    build_header, build_image, parse_image, BootHeader, ClockConfig, FlashConfig, Segment,
    SegmentHeader, BOOT_CONFIG_WORD, BOOT_HEADER_SIZE, CLOCK_CONFIG_SIZE, D0_LOAD_ADDR,
    FLASH_CONFIG_SIZE, IMAGE_PAYLOAD_OFFSET, LP_LOAD_ADDR, M0_FLASH_ADDR,
    M0_LOAD_ADDR,
};
use sha2::Digest;

fn crc32(bytes: &[u8]) -> u32 {
    crc::Crc::<u32>::new(&crc::CRC_32_ISO_HDLC).checksum(bytes)
}

fn word(bytes: &[u8], at: usize) -> u32 {
    u32::from_le_bytes([bytes[at], bytes[at + 1], bytes[at + 2], bytes[at + 3]])
}

fn pick<'a>(present: bool, addr: u32, data: &'a [u8]) -> Option<Segment<'a>> {
    if present {
        Some(Segment::new(addr, data))
    } else {
        None
    }
}

#[test]
fn header_has_fixed_length_and_trailing_crc_for_every_core_set() {
    let m0 = vec![0x11u8; 5000];
    let d0 = vec![0x22u8; 300];
    let lp = vec![0x33u8; 4096];
    for mask in 0..8u8 {
        let h = build_header(
            pick(mask & 1 != 0, M0_LOAD_ADDR, &m0),
            pick(mask & 2 != 0, D0_LOAD_ADDR, &d0),
            pick(mask & 4 != 0, LP_LOAD_ADDR, &lp),
        );
        assert_eq!(h.len(), BOOT_HEADER_SIZE);
        assert_eq!(h.len(), 352);
        assert_eq!(crc32(&h[..348]), word(&h, 348));
        assert_eq!(&h[0..4], b"BFNP");
        assert_eq!(word(&h, 4), 1);
    }
}

#[test]
fn header_digest_covers_present_segments_in_order() {
    let m0 = vec![1u8, 2, 3, 4, 5];
    let lp = vec![9u8; 17];
    let s0 = Segment::new(M0_LOAD_ADDR, &m0);
    let s2 = Segment::new(LP_LOAD_ADDR, &lp);
    let h = build_header(Some(s0), None, Some(s2));
    let mut hasher = sha2::Sha256::new();
    hasher.update(s0.header.to_bytes());
    hasher.update(&m0);
    hasher.update(s2.header.to_bytes());
    hasher.update(&lp);
    let digest = hasher.finalize();
    assert_eq!(&h[144..176], digest.as_slice());
    assert_eq!(word(&h, 140), 2);
    assert_eq!(word(&h, 128), BOOT_CONFIG_WORD);
    assert_eq!(word(&h, 128), 0x654c_0100);
}

#[test]
fn reordering_cores_changes_digest() {
    let a = vec![0xaau8; 64];
    let b = vec![0xbbu8; 64];
    let h1 = build_header(Some(Segment::new(M0_LOAD_ADDR, &a)), Some(Segment::new(D0_LOAD_ADDR, &b)), None);
    let h2 = build_header(Some(Segment::new(M0_LOAD_ADDR, &b)), Some(Segment::new(D0_LOAD_ADDR, &a)), None);
    assert_ne!(&h1[144..176], &h2[144..176]);
}

#[test]
fn empty_header_digest_is_digest_of_nothing() {
    let h = build_header(None, None, None);
    let digest = sha2::Sha256::digest(b"");
    assert_eq!(&h[144..176], digest.as_slice());
    assert_eq!(word(&h, 140), 0);
    // no core is enabled
    assert!(h[176..248].iter().all(|b| *b == 0));
}

#[test]
fn present_core_is_enabled_at_its_load_address() {
    let d0 = vec![7u8; 10];
    let h = build_header(None, Some(Segment::new(D0_LOAD_ADDR, &d0)), None);
    assert!(h[176..200].iter().all(|b| *b == 0));
    assert_eq!(word(&h, 200), 1);
    assert_eq!(word(&h, 200 + 16), D0_LOAD_ADDR);
    assert!(h[224..248].iter().all(|b| *b == 0));
}

#[test]
fn flash_config_template_crc_matches_zero_block() {
    let zeros = vec![0u8; FLASH_CONFIG_SIZE - 4];
    let f = FlashConfig::new();
    assert_eq!(f.crc32, crc32(&zeros));
    assert_eq!(f.crc32, 0xfb42_584d);
    assert_eq!(f.magic, 0);
    assert_eq!(f.params, vec![0u8; FLASH_CONFIG_SIZE - 8]);
}

#[test]
fn clock_config_template_crc_matches_zero_block() {
    let zeros = vec![0u8; CLOCK_CONFIG_SIZE - 4];
    let c = ClockConfig::new();
    assert_eq!(c.crc32, crc32(&zeros));
}

#[test]
fn header_carries_parameter_templates() {
    let h = build_header(None, None, None);
    assert_eq!(word(&h, 96), crc32(&[0u8; 88]));
    assert_eq!(word(&h, 124), crc32(&[0u8; 24]));
}

#[test]
fn segment_header_crc_covers_first_three_words() {
    let h = SegmentHeader::new(0x2202_0000, 1234);
    let b = h.to_bytes();
    assert_eq!(b.len(), 16);
    assert_eq!(word(&b, 0), 0x2202_0000);
    assert_eq!(word(&b, 4), 1234);
    assert_eq!(word(&b, 8), 0);
    assert_eq!(word(&b, 12), crc32(&b[..12]));
    assert_ne!(h.crc32, 0);
}

#[test]
fn segment_records_payload_size() {
    let data = vec![5u8; 77];
    let s = Segment::new(LP_LOAD_ADDR, &data);
    assert_eq!(s.header.size, 77);
    assert_eq!(s.header.address, LP_LOAD_ADDR);
    assert_eq!(s.data, &data[..]);
}

#[test]
fn flash_image_embeds_primary_core_after_padding() {
    let m0 = vec![0x42u8; 1000];
    let d0 = vec![0x43u8; 10];
    let img = build_image(Some(m0.clone()), Some(d0.clone()), None);
    assert_eq!(img.len(), IMAGE_PAYLOAD_OFFSET + m0.len());
    let header = build_header(
        Some(Segment::new(M0_FLASH_ADDR, &m0)),
        Some(Segment::new(D0_LOAD_ADDR, &d0)),
        None,
    );
    assert_eq!(&img[..352], &header[..]);
    assert!(img[352..0x2000].iter().all(|b| *b == 0xff));
    assert_eq!(&img[0x2000..], &m0[..]);
    assert_eq!(word(&img, 176 + 16), 0x5800_2000);
}

#[test]
fn flash_image_tail_ignores_other_cores() {
    let m0 = vec![0x42u8; 100];
    let a = build_image(Some(m0.clone()), Some(vec![1u8; 50]), None);
    let b = build_image(Some(m0.clone()), None, Some(vec![2u8; 70]));
    assert_eq!(a.len(), b.len());
    assert_eq!(&a[352..], &b[352..]);
}

#[test]
fn flash_image_without_primary_core_is_header_and_padding() {
    let img = build_image(None, None, Some(vec![1, 2, 3]));
    assert_eq!(img.len(), 0x2000);
}

#[test]
fn parse_image_recovers_header() {
    let m0 = vec![0x10u8; 300];
    let img = build_image(Some(m0), None, None);
    let h: BootHeader = parse_image(&img).expect("header");
    assert_eq!(h.to_bytes(), img[..352].to_vec());
    assert_eq!(h.revision, 1);
    assert_eq!(h.m0_config.boot_entry, M0_FLASH_ADDR);
    assert_eq!(h.boot_config.image_length_or_segment_count, 1);
}

#[test]
fn parse_image_rejects_short_input() {
    let img = build_image(None, None, None);
    assert!(parse_image(&img[..351]).is_none());
    assert!(BootHeader::from_bytes(&img[..351]).is_none());
}

#[test]
fn parse_image_rejects_wrong_magic() {
    let mut img = build_image(None, None, None);
    img[0] = b'X';
    assert!(parse_image(&img).is_none());
}
