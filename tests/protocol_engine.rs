use maskrom_loader::boot::{build_header, Segment, M0_LOAD_ADDR};
use maskrom_loader::efuses::{EfuseBlock0, EfuseBlock1, FlashPinCfg, Psram};
use maskrom_loader::error::LoaderError;
use maskrom_loader::protocol::{
    boot_info_request, code_to_msg, dump_flash, efuse_dump, encode_frame, flash_image, get_efuses,
    get_flash_id, get_info, init_flash, read_log, reenable_log, reset, run, send_segment,
    set_efuse, set_efuses, sync_sequence, wake_sequence, write_fuse_block, BootInfo, Command,
    CommandPacket, Exchange, FlashId, Handshake, HandshakeStep, Request, Step, RETRIES,
};

/// Plays the device's side of one exchange from a fixed byte stream.
fn exchange(command: Command, stream: &[u8]) -> Result<Vec<u8>, LoaderError> {
    let mut ex = Exchange::new(command);
    let mut pos = 0usize;
    let mut want = ex.wanted();
    loop {
        let bytes = &stream[pos..pos + want];
        pos += want;
        match ex.on_bytes(bytes) {
            Step::Read(n) => want = n,
            Step::Done(p) => return Ok(p),
            Step::Failed(e) => return Err(e),
        }
    }
}

fn ok_reply(payload: &[u8]) -> Vec<u8> {
    let mut s = b"OK".to_vec();
    s.extend_from_slice(&(payload.len() as u16).to_le_bytes());
    s.extend_from_slice(payload);
    s
}

fn le32(v: u32) -> Vec<u8> {
    v.to_le_bytes().to_vec()
}

fn cat(a: &[u8], b: &[u8]) -> Vec<u8> {
    let mut v = a.to_vec();
    v.extend_from_slice(b);
    v
}

fn boot_info_with_pins(pins: u32) -> BootInfo {
    let mut rec = vec![0u8; 24];
    rec[0..4].copy_from_slice(&0x0102_0304u32.to_le_bytes());
    rec[8..12].copy_from_slice(&(pins << 14).to_le_bytes());
    rec[12..20].copy_from_slice(&0x1234_b40e_cf01_0203u64.to_le_bytes());
    BootInfo::from_bytes(&rec).expect("boot info")
}

#[test]
fn send_returns_payload_unchanged() {
    for len in [0usize, 1, 2, 255, 4096, 65535] {
        let payload: Vec<u8> = (0..len).map(|i| (i * 7 + 3) as u8).collect();
        let mut stream = ok_reply(&payload);
        stream.extend_from_slice(b"more");
        assert_eq!(exchange(Command::FlashRead, &stream), Ok(payload));
    }
}

#[test]
fn send_fails_with_decoded_known_code() {
    let stream = [b'F', b'L', 0x05, 0x04];
    let err = exchange(Command::EfuseRead, &stream).unwrap_err();
    assert_eq!(err, LoaderError::CommandFailed { code: 0x0405 });
    assert_eq!(err.code_text(), Some("eFuse read addr error"));
    assert!(code_to_msg(0x0405).contains("eFuse read addr error"));
}

#[test]
fn send_fails_with_raw_unknown_code() {
    let stream = [b'F', b'L', 0x34, 0x12];
    let err = exchange(Command::GetBootInfo, &stream).unwrap_err();
    assert_eq!(err, LoaderError::CommandFailed { code: 0x1234 });
    assert_eq!(err.code_text(), Some("unknown error"));
    assert_eq!(code_to_msg(0x0217), "image hash error");
    assert_eq!(code_to_msg(0x0102), "command length error");
}

#[test]
fn send_rejects_unexpected_status() {
    let stream = [b'X', b'Y'];
    assert_eq!(
        exchange(Command::GetBootInfo, &stream),
        Err(LoaderError::UnexpectedStatus { first: b'X', second: b'Y' })
    );
}

#[test]
fn commands_without_response_stop_at_status() {
    for c in [Command::Reset, Command::FlashSetParam, Command::EfuseWrite, Command::CheckImage, Command::RunImage] {
        assert!(!c.has_response());
        assert_eq!(exchange(c, b"OK"), Ok(vec![]));
    }
    assert!(Command::LoadSegHeader.has_response());
}

#[test]
fn opcodes_match_the_table() {
    assert_eq!(Command::GetChipId.opcode(), 0x05);
    assert_eq!(Command::GetBootInfo.opcode(), 0x10);
    assert_eq!(Command::LoadBootHeader.opcode(), 0x11);
    assert_eq!(Command::LoadSegHeader.opcode(), 0x17);
    assert_eq!(Command::LoadSegData.opcode(), 0x18);
    assert_eq!(Command::RunImage.opcode(), 0x1a);
    assert_eq!(Command::FlashRead.opcode(), 0x32);
    assert_eq!(Command::FlashSetParam.opcode(), 0x3b);
    assert_eq!(Command::EfuseRead.opcode(), 0x41);
    assert_eq!(Command::LogRead.opcode(), 0x71);
}

#[test]
fn frame_has_opcode_reserved_byte_and_length() {
    let f = encode_frame(Command::FlashRead, &[1, 2, 3]).unwrap();
    assert_eq!(f, vec![0x32, 0, 3, 0, 1, 2, 3]);
    let p = CommandPacket { command: 0x11, size: 0x0160 }.to_slice();
    assert_eq!(p, [0x11, 0, 0x60, 0x01]);
    let big = vec![0u8; 65536];
    assert_eq!(encode_frame(Command::FlashWrite, &big), Err(LoaderError::PayloadTooLong { len: 65536 }));
    assert_eq!(encode_frame(Command::FlashWrite, &big[..65535]).unwrap().len(), 65539);
}

#[test]
fn dump_flash_reads_two_chunks() {
    let bi = boot_info_with_pins(0x02);
    let plan = dump_flash(&bi, 0x1000, 0x1200).unwrap();
    assert_eq!(plan.len(), 3);
    assert_eq!(plan[0].command, Command::FlashSetParam);
    let reads: Vec<&Request> = plan.iter().filter(|r| r.command == Command::FlashRead).collect();
    assert_eq!(reads.len(), 2);
    assert_eq!(reads[0].payload, cat(&le32(0x1000), &le32(4096)));
    assert_eq!(reads[1].payload, cat(&le32(0x2000), &le32(0x200)));
    // A device whose flash byte at address a is a % 251.
    let mut out = Vec::new();
    for r in &reads {
        let a = u32::from_le_bytes([r.payload[0], r.payload[1], r.payload[2], r.payload[3]]);
        let n = u32::from_le_bytes([r.payload[4], r.payload[5], r.payload[6], r.payload[7]]);
        let content: Vec<u8> = (a..a + n).map(|x| (x % 251) as u8).collect();
        out.extend(exchange(r.command, &ok_reply(&content)).unwrap());
    }
    assert_eq!(out.len(), 0x1200);
    let expected: Vec<u8> = (0x1000u32..0x2200).map(|x| (x % 251) as u8).collect();
    assert_eq!(out, expected);
}

#[test]
fn dump_flash_of_nothing_only_sets_parameters() {
    let bi = boot_info_with_pins(0);
    let plan = dump_flash(&bi, 0x100, 0).unwrap();
    assert_eq!(plan.len(), 1);
}

#[test]
fn dump_flash_rejects_range_past_address_space() {
    let bi = boot_info_with_pins(0);
    assert_eq!(
        dump_flash(&bi, 0xffff_f000, 0x2000).unwrap_err(),
        LoaderError::RangeOverflow { offset: 0xffff_f000, size: 0x2000 }
    );
    let plan = dump_flash(&bi, 0xffff_f000, 0x1000).unwrap();
    assert_eq!(plan[1].payload, cat(&le32(0xffff_f000), &le32(0x1000)));
}

#[test]
fn handshake_succeeds_after_three_failures() {
    let mut h = Handshake::new();
    assert_eq!(h.on_status(b"XX"), HandshakeStep::Retry { delay_ms: 0 });
    assert_eq!(h.on_status(b""), HandshakeStep::Retry { delay_ms: 200 });
    assert_eq!(h.on_status(b"FL"), HandshakeStep::Retry { delay_ms: 400 });
    assert_eq!(h.on_status(b"OK"), HandshakeStep::Connected);
    assert_eq!(h.attempts, 4);
    assert!(h.attempts <= RETRIES);
}

#[test]
fn handshake_gives_up_after_configured_attempts() {
    let mut h = Handshake::new();
    let mut steps = Vec::new();
    loop {
        let s = h.on_status(b"\0\0");
        steps.push(s);
        if s == HandshakeStep::GiveUp {
            break;
        }
    }
    assert_eq!(steps.len() as u64, RETRIES);
    assert_eq!(h.attempts, 5);
    assert_eq!(h.failure(), LoaderError::HandshakeFailed { attempts: 5 });
}

#[test]
fn handshake_sends_wake_and_sync_bytes() {
    assert_eq!(wake_sequence(), vec![0x55u8; 32]);
    assert_eq!(
        sync_sequence(),
        vec![0x50, 0x00, 0x08, 0x00, 0x38, 0xF0, 0x00, 0x20, 0x00, 0x00, 0x00, 0x18]
    );
}

#[test]
fn boot_info_decodes_and_sets_flash_pins() {
    let bi = boot_info_with_pins(0x16);
    assert_eq!(bi.rom_driver_version, 0x0102_0304);
    assert_eq!(bi.sw_config0.spi_flash_pin_cfg(), FlashPinCfg::EmbeddedSwapNoneAndExternalSF2);
    assert_eq!(bi.wifi_mac_x.mac_addr(), 0xb40e_cf01_0203);
    let r = init_flash(&bi);
    assert_eq!(r.command, Command::FlashSetParam);
    assert_eq!(r.payload, vec![0x16, 1, 0x41, 0]);
    let unknown = boot_info_with_pins(0x05);
    assert_eq!(init_flash(&unknown).payload, vec![0x1f, 1, 0x41, 0]);
}

#[test]
fn boot_info_rejects_wrong_length() {
    assert_eq!(
        BootInfo::from_bytes(&[0u8; 23]).unwrap_err(),
        LoaderError::RecordSize { expected: 24, actual: 23 }
    );
    assert_eq!(boot_info_request().command, Command::GetBootInfo);
}

#[test]
fn flash_image_erases_then_writes_chunks() {
    let bi = boot_info_with_pins(0);
    let data: Vec<u8> = (0..5000u32).map(|i| i as u8).collect();
    let plan = flash_image(&bi, &data).unwrap();
    assert_eq!(plan.len(), 4);
    assert_eq!(plan[1].command, Command::FlashErase);
    assert_eq!(plan[1].payload, cat(&le32(0), &le32(5000)));
    assert_eq!(plan[2].command, Command::FlashWrite);
    assert_eq!(plan[2].payload, cat(&le32(0), &data[..4096]));
    assert_eq!(plan[3].payload, cat(&le32(4096), &data[4096..]));
}

#[test]
fn run_sends_header_segments_check_and_run() {
    let m0: Vec<u8> = vec![0x5a; 4097];
    let plan = run(Some(m0.clone()), None, None).unwrap();
    let cmds: Vec<Command> = plan.iter().map(|r| r.command).collect();
    assert_eq!(
        cmds,
        vec![
            Command::LoadBootHeader,
            Command::LoadSegHeader,
            Command::LoadSegData,
            Command::LoadSegData,
            Command::CheckImage,
            Command::RunImage
        ]
    );
    let header = build_header(Some(Segment::new(M0_LOAD_ADDR, &m0)), None, None);
    assert_eq!(plan[0].payload, header);
    assert_eq!(plan[2].payload.len(), 4096);
    assert_eq!(plan[3].payload, vec![0x5a]);
    assert!(plan[5].payload.is_empty());
}

#[test]
fn send_segment_splits_payload() {
    let data = vec![1u8; 8192];
    let s = Segment::new(M0_LOAD_ADDR, &data);
    let plan = send_segment(&s);
    assert_eq!(plan.len(), 3);
    assert_eq!(plan[0].payload, s.header.to_bytes());
    assert_eq!(plan[1].payload.len(), 4096);
    assert_eq!(plan[2].payload.len(), 4096);
}

#[test]
fn reenable_log_burns_one_bit() {
    let r = reenable_log();
    assert_eq!(r.command, Command::EfuseWrite);
    assert_eq!(r.payload, vec![0x5c, 0, 0, 0, 0x80, 0, 0, 0]);
}

#[test]
fn fuse_writes_carry_address_and_data() {
    let r = set_efuse(0x10, 0xdead_beef);
    assert_eq!(r.payload, vec![0x10, 0, 0, 0, 0xef, 0xbe, 0xad, 0xde]);
    let r = set_efuses(0x80, &[1, 2]).unwrap();
    assert_eq!(r.payload, vec![0x80, 0, 0, 0, 1, 2]);
    assert!(set_efuses(0, &vec![0u8; 65532]).is_err());
}

#[test]
fn fuse_file_must_be_one_block() {
    assert_eq!(
        write_fuse_block(&[0u8; 100]).unwrap_err(),
        LoaderError::RecordSize { expected: 128, actual: 100 }
    );
    let r = write_fuse_block(&[7u8; 128]).unwrap();
    assert_eq!(r.payload.len(), 132);
    assert_eq!(&r.payload[..4], &[0, 0, 0, 0]);
}

#[test]
fn fuse_reads_cover_two_blocks() {
    let plan = get_efuses();
    assert_eq!(plan.len(), 2);
    let replies: Vec<Vec<u8>> = plan
        .iter()
        .enumerate()
        .map(|(i, r)| exchange(r.command, &ok_reply(&[i as u8 + 1; 128])).unwrap())
        .collect();
    let dump = efuse_dump(&replies[0], &replies[1]);
    assert_eq!(dump.len(), 256);
    assert!(dump[..128].iter().all(|b| *b == 1));
    assert!(dump[128..].iter().all(|b| *b == 2));
    assert_eq!(plan[0].payload, cat(&le32(0), &le32(0x80)));
    assert_eq!(plan[1].payload, cat(&le32(0x80), &le32(0x80)));
    let info = get_info(&boot_info_with_pins(0));
    assert_eq!(info.len(), 4);
    assert_eq!(info[1].command, Command::FlashReadSha);
    assert_eq!(info[1].payload, cat(&le32(0), &le32(0x10)));
}

#[test]
fn fuse_blocks_decode() {
    let mut b0 = vec![0u8; 128];
    b0[0..4].copy_from_slice(&(1u32 << 20).to_le_bytes());
    // psram_low = 1 in the chip information word
    let info: u64 = 1 << 9;
    b0[20..28].copy_from_slice(&(info << 48).to_le_bytes());
    b0[92..96].copy_from_slice(&(0x80u32).to_le_bytes());
    let e = EfuseBlock0::from_bytes(&b0).unwrap();
    assert!(e.config.cpu1_dis());
    assert_eq!(e.psram(), Psram::WB_16MB);
    assert!(e.sw_config.sw_config0.uart_log_reopen());
    assert!(EfuseBlock0::from_bytes(&b0[..127]).is_err());
    let mut b1 = vec![0u8; 128];
    b1[124..128].copy_from_slice(&0x55aa_u32.to_le_bytes());
    let e1 = EfuseBlock1::from_bytes(&b1).unwrap();
    assert_eq!(e1.lock.0, 0x55aa);
    assert_eq!(e1.key4, vec![0u8; 16]);
}

#[test]
fn flash_id_decodes_manufacturer_and_device() {
    let id = FlashId::from_response(&[0xef, 0x18, 0x40]).unwrap();
    assert_eq!(id.manufacturer_name(), "Winbond");
    assert_eq!(id.device, 0x4018);
    assert_eq!(FlashId::from_response(&[0xc8, 0, 0]).unwrap().manufacturer_name(), "GigaDevice");
    assert_eq!(FlashId::from_response(&[0x01, 0, 0]).unwrap().manufacturer_name(), "unknown");
    assert!(FlashId::from_response(&[0xef]).is_none());
    let plan = get_flash_id(&boot_info_with_pins(0));
    assert_eq!(plan[1].command, Command::FlashReadJedecId);
}

#[test]
fn simple_requests() {
    assert_eq!(reset().command, Command::Reset);
    assert!(reset().payload.is_empty());
    assert_eq!(read_log().command, Command::LogRead);
}
