use vstd::prelude::*;

use crate::boot::{
    build_header, core_of, header_image, placed, segment_header_bytes, CoreImage,
    Segment, D0_LOAD_ADDR, LP_LOAD_ADDR, M0_LOAD_ADDR,
};
use crate::bytes::{
    le32, le64, push_all, push_le32, read_bytes, read_le16, read_le32, read_le64, set_field,
    word16_at,
};
use crate::efuses::{
    FlashPinCfg, SwConfig0, SwConfig1, WifiMacAndInfo, EFUSE_BLOCK_SIZE, UART_LOG_REOPEN_BIT,
};
use crate::error::LoaderError;
use crate::protocol::command::{Command, MAX_PAYLOAD};

verus! {

/// The record the device returns for `GetBootInfo`.
#[derive(Clone, Copy, Debug)]
pub struct BootInfo {
    pub rom_driver_version: u32,
    pub x0: u32,
    pub sw_config0: SwConfig0,
    pub wifi_mac_x: WifiMacAndInfo,
    pub sw_config1: SwConfig1,
}

pub const BOOT_INFO_SIZE: usize = 24;

impl BootInfo {
    pub open spec fn spec_bytes(&self) -> Seq<u8> {
        le32(self.rom_driver_version) + le32(self.x0) + le32(self.sw_config0.0) + le64(
            self.wifi_mac_x.0,
        ) + le32(self.sw_config1.0)
    }

    /// Decodes the record; fails unless it is exactly `BOOT_INFO_SIZE` bytes
    /// long.
    pub fn from_bytes(b: &[u8]) -> (r: Result<Self, LoaderError>)
        ensures
            r is Ok <==> b@.len() == BOOT_INFO_SIZE,
            r matches Ok(bi) ==> bi.spec_bytes() == b@,
            r matches Err(e) ==> e == (LoaderError::RecordSize {
                expected: BOOT_INFO_SIZE,
                actual: b@.len() as usize,
            }),
    {
        if b.len() != BOOT_INFO_SIZE {
            return Err(LoaderError::RecordSize { expected: BOOT_INFO_SIZE, actual: b.len() });
        }
        let bi = BootInfo {
            rom_driver_version: read_le32(b, 0),
            x0: read_le32(b, 4),
            sw_config0: SwConfig0(read_le32(b, 8)),
            wifi_mac_x: WifiMacAndInfo(read_le64(b, 12)),
            sw_config1: SwConfig1(read_le32(b, 20)),
        };
        assert(bi.spec_bytes() =~= b@);
        Ok(bi)
    }
}

/// One command to send, with its payload.
#[derive(Clone, Debug)]
pub struct Request {
    pub command: Command,
    pub payload: Vec<u8>,
}

/// A sequence of requests, as commands and payloads.
pub type Plan = Seq<(Command, Seq<u8>)>;

pub open spec fn plan_of(v: Seq<Request>) -> Plan {
    v.map_values(|r: Request| (r.command, r.payload@))
}

fn push_request(out: &mut Vec<Request>, command: Command, payload: Vec<u8>)
    ensures
        plan_of(final(out)@) == plan_of(old(out)@).push((command, payload@)),
{
    let ghost p = payload@;
    out.push(Request { command, payload });
    assert(plan_of(final(out)@) =~= plan_of(old(out)@).push((command, p)));
}

/// Size of the pieces in which data is read, written and loaded.
pub const CHUNK_SIZE: usize = 4096;

/// `command` once for each piece of `data`, in order: every piece
/// `CHUNK_SIZE` bytes long but the last, which holds the rest.
pub open spec fn data_chunks(command: Command, data: Seq<u8>) -> Plan
    decreases data.len(),
{
    if data.len() == 0 {
        Seq::empty()
    } else if data.len() <= CHUNK_SIZE {
        seq![(command, data)]
    } else {
        seq![(command, data.take(CHUNK_SIZE as int))] + data_chunks(
            command,
            data.skip(CHUNK_SIZE as int),
        )
    }
}

/// A flash write for each piece of `data`, in order, each with the flash
/// offset of its piece when `data` starts at offset `base`.
pub open spec fn write_chunks(data: Seq<u8>, base: nat) -> Plan
    decreases data.len(),
{
    if data.len() == 0 {
        Seq::empty()
    } else if data.len() <= CHUNK_SIZE {
        seq![(Command::FlashWrite, le32(base as u32) + data)]
    } else {
        seq![(Command::FlashWrite, le32(base as u32) + data.take(CHUNK_SIZE as int))]
            + write_chunks(data.skip(CHUNK_SIZE as int), (base + CHUNK_SIZE) as nat)
    }
}

/// The payloads of a plan, one after the other.
pub open spec fn payloads(p: Plan) -> Seq<u8>
    decreases p.len(),
{
    if p.len() == 0 {
        Seq::empty()
    } else {
        p[0].1 + payloads(p.skip(1))
    }
}

/// Splitting data into pieces keeps every byte, in order, and makes no piece
/// empty or longer than `CHUNK_SIZE`.
pub proof fn lemma_data_chunks_cover(command: Command, data: Seq<u8>)
    ensures
        payloads(data_chunks(command, data)) == data,
        forall|i: int|
            0 <= i < data_chunks(command, data).len() ==> (#[trigger] data_chunks(command, data)[i]).0
                == command && 0 < data_chunks(command, data)[i].1.len() <= CHUNK_SIZE,
    decreases data.len(),
{
    let p = data_chunks(command, data);
    if data.len() == 0 {
    } else if data.len() <= CHUNK_SIZE {
        assert(p.skip(1) =~= Seq::<(Command, Seq<u8>)>::empty());
        assert(payloads(p.skip(1)) =~= Seq::<u8>::empty());
        assert(payloads(p) =~= data);
    } else {
        let rest = data.skip(CHUNK_SIZE as int);
        lemma_data_chunks_cover(command, rest);
        assert(p.skip(1) =~= data_chunks(command, rest));
        assert(p[0].1 == data.take(CHUNK_SIZE as int));
        assert(payloads(p) == data.take(CHUNK_SIZE as int) + rest);
        assert(payloads(p) =~= data);
        assert forall|i: int| 0 <= i < p.len() implies (#[trigger] p[i]).0 == command && 0
            < p[i].1.len() <= CHUNK_SIZE by {
            if i > 0 {
                assert(p[i] == data_chunks(command, rest)[i - 1]);
            }
        }
    }
}

/// Each flash write carries the piece of the data at its index, prefixed with
/// the offset of that piece: writes go in ascending offset order, one piece
/// after the other.
pub proof fn lemma_write_chunks_offsets(data: Seq<u8>, base: nat)
    ensures
        write_chunks(data, base).len() == data_chunks(Command::FlashWrite, data).len(),
        forall|i: int|
            0 <= i < write_chunks(data, base).len() ==> #[trigger] write_chunks(data, base)[i] == (
                Command::FlashWrite,
                le32((base + i * CHUNK_SIZE) as u32) + data_chunks(Command::FlashWrite, data)[i].1,
            ),
    decreases data.len(),
{
    if data.len() > CHUNK_SIZE {
        let rest = data.skip(CHUNK_SIZE as int);
        lemma_write_chunks_offsets(rest, (base + CHUNK_SIZE) as nat);
        let w = write_chunks(data, base);
        let d = data_chunks(Command::FlashWrite, data);
        assert forall|i: int| 0 <= i < w.len() implies #[trigger] w[i] == (
            Command::FlashWrite,
            le32((base + i * CHUNK_SIZE) as u32) + d[i].1,
        ) by {
            if i > 0 {
                assert(w[i] == write_chunks(rest, (base + CHUNK_SIZE) as nat)[i - 1]);
                assert(d[i] == data_chunks(Command::FlashWrite, rest)[i - 1]);
                assert(base + CHUNK_SIZE + (i - 1) * CHUNK_SIZE == base + i * CHUNK_SIZE);
            }
        }
    }
}

/// The flash ranges, as start and length, that cover `size` bytes from
/// `offset` in pieces of `CHUNK_SIZE` bytes.
pub open spec fn read_ranges(offset: nat, size: nat) -> Seq<(nat, nat)>
    decreases size,
{
    if size == 0 {
        Seq::empty()
    } else if size <= CHUNK_SIZE {
        seq![(offset, size)]
    } else {
        seq![(offset, CHUNK_SIZE as nat)] + read_ranges((offset + CHUNK_SIZE) as nat, (size - CHUNK_SIZE) as nat)
    }
}

/// A flash read for each range.
pub open spec fn read_plan(ranges: Seq<(nat, nat)>) -> Plan {
    ranges.map_values(|r: (nat, nat)| (Command::FlashRead, le32(r.0 as u32) + le32(r.1 as u32)))
}

/// The addresses the ranges cover, in order.
pub open spec fn span(ranges: Seq<(nat, nat)>) -> Seq<int>
    decreases ranges.len(),
{
    if ranges.len() == 0 {
        Seq::empty()
    } else {
        Seq::new(ranges[0].1, |j: int| ranges[0].0 + j) + span(ranges.skip(1))
    }
}

/// The reads of a flash dump cover every address of the requested range
/// once, in ascending order, each at most `CHUNK_SIZE` bytes long.
pub proof fn lemma_read_ranges_cover(offset: nat, size: nat)
    ensures
        span(read_ranges(offset, size)) == Seq::new(size, |j: int| offset + j),
        forall|i: int|
            0 <= i < read_ranges(offset, size).len() ==> 0 < #[trigger] read_ranges(
                offset,
                size,
            )[i].1 <= CHUNK_SIZE,
    decreases size,
{
    let rs = read_ranges(offset, size);
    if size == 0 {
        assert(span(rs) =~= Seq::new(size, |j: int| offset + j));
    } else if size <= CHUNK_SIZE {
        assert(rs.skip(1) =~= Seq::<(nat, nat)>::empty());
        assert(span(rs.skip(1)) =~= Seq::<int>::empty());
        assert(span(rs) =~= Seq::new(size, |j: int| offset + j));
    } else {
        let rest = read_ranges((offset + CHUNK_SIZE) as nat, (size - CHUNK_SIZE) as nat);
        lemma_read_ranges_cover((offset + CHUNK_SIZE) as nat, (size - CHUNK_SIZE) as nat);
        assert(rs.skip(1) =~= rest);
        assert(span(rs) =~= Seq::new(size, |j: int| offset + j));
        assert forall|i: int| 0 <= i < rs.len() implies 0 < #[trigger] rs[i].1 <= CHUNK_SIZE by {
            if i > 0 {
                assert(rs[i] == rest[i - 1]);
            }
        }
    }
}

/// Appends a request for each piece of `data`.
fn push_data_chunks(out: &mut Vec<Request>, command: Command, data: &[u8])
    ensures
        plan_of(final(out)@) == plan_of(old(out)@) + data_chunks(command, data@),
{
    let len = data.len();
    let mut o: usize = 0;
    assert(data@.skip(0) =~= data@);
    while o < len
        invariant
            o <= len,
            len == data@.len(),
            plan_of(out@) + data_chunks(command, data@.skip(o as int)) == plan_of(old(out)@)
                + data_chunks(command, data@),
        decreases len - o,
    {
        let rest = Ghost(data@.skip(o as int));
        let n = if len - o > CHUNK_SIZE {
            CHUNK_SIZE
        } else {
            len - o
        };
        let piece = read_bytes(data, o, n);
        let ghost before = plan_of(out@);
        push_request(out, command, piece);
        assert(data@.skip(o as int).skip(n as int) =~= data@.skip(o + n));
        if n == CHUNK_SIZE && len - o > CHUNK_SIZE {
            assert(rest@.take(CHUNK_SIZE as int) =~= piece@);
        } else {
            assert(rest@ =~= piece@);
            assert(data@.skip(o + n) =~= Seq::<u8>::empty());
        }
        assert(plan_of(out@) + data_chunks(command, data@.skip(o + n)) =~= before
            + data_chunks(command, rest@));
        o = o + n;
    }
    assert(data@.skip(o as int) =~= Seq::<u8>::empty());
    assert(plan_of(out@) + data_chunks(command, data@.skip(o as int)) =~= plan_of(out@));
}

/// Appends a flash write for each piece of `data`, which starts at flash
/// offset zero.
fn push_write_chunks(out: &mut Vec<Request>, data: &[u8])
    requires
        data@.len() <= u32::MAX,
    ensures
        plan_of(final(out)@) == plan_of(old(out)@) + write_chunks(data@, 0),
{
    let len = data.len();
    let mut o: usize = 0;
    assert(data@.skip(0) =~= data@);
    while o < len
        invariant
            o <= len,
            len == data@.len(),
            len <= u32::MAX,
            plan_of(out@) + write_chunks(data@.skip(o as int), o as nat) == plan_of(old(out)@)
                + write_chunks(data@, 0),
        decreases len - o,
    {
        let rest = Ghost(data@.skip(o as int));
        let n = if len - o > CHUNK_SIZE {
            CHUNK_SIZE
        } else {
            len - o
        };
        let mut payload: Vec<u8> = Vec::new();
        push_le32(&mut payload, o as u32);
        let piece = read_bytes(data, o, n);
        push_all(&mut payload, piece.as_slice());
        let ghost before = plan_of(out@);
        push_request(out, Command::FlashWrite, payload);
        assert(data@.skip(o as int).skip(n as int) =~= data@.skip(o + n));
        if n == CHUNK_SIZE && len - o > CHUNK_SIZE {
            assert(rest@.take(CHUNK_SIZE as int) =~= piece@);
        } else {
            assert(rest@ =~= piece@);
            assert(data@.skip(o + n) =~= Seq::<u8>::empty());
        }
        assert(plan_of(out@) + write_chunks(data@.skip(o + n), (o + n) as nat) =~= before
            + write_chunks(rest@, o as nat));
        o = o + n;
    }
    assert(data@.skip(o as int) =~= Seq::<u8>::empty());
    assert(plan_of(out@) + write_chunks(data@.skip(o as int), o as nat) =~= plan_of(out@));
}

/// Appends a flash read for each range that covers `size` bytes from
/// `offset`.
fn push_read_chunks(out: &mut Vec<Request>, offset: u32, size: u32)
    requires
        offset + size <= u32::MAX + 1,
    ensures
        plan_of(final(out)@) == plan_of(old(out)@) + read_plan(read_ranges(offset as nat, size as nat)),
{
    let mut a: u64 = offset as u64;
    let mut left: u32 = size;
    while left > 0
        invariant
            a + left == offset + size,
            offset + size <= u32::MAX + 1,
            plan_of(out@) + read_plan(read_ranges(a as nat, left as nat)) == plan_of(old(out)@)
                + read_plan(read_ranges(offset as nat, size as nat)),
        decreases left,
    {
        let n: u32 = if left > CHUNK_SIZE as u32 {
            CHUNK_SIZE as u32
        } else {
            left
        };
        let mut payload: Vec<u8> = Vec::new();
        push_le32(&mut payload, a as u32);
        push_le32(&mut payload, n);
        let ghost before = plan_of(out@);
        let ghost rs = read_ranges(a as nat, left as nat);
        push_request(out, Command::FlashRead, payload);
        left = left - n;
        a = a + n as u64;
        if left > 0 {
            assert(rs =~= seq![((a - n) as nat, n as nat)] + read_ranges(a as nat, left as nat));
        }
        assert(plan_of(out@) + read_plan(read_ranges(a as nat, left as nat)) =~= before
            + read_plan(rs));
    }
    assert(plan_of(out@) + read_plan(read_ranges(a as nat, left as nat)) =~= plan_of(out@));
}

/// Flash IO mode: dual output.
pub const FLASH_IO_MODE: u8 = 1;

/// Flash clock: 80 MHz Wi-Fi PLL in the high nibble, divider one in the low.
pub const FLASH_CLOCK_CFG: u8 = 0x41;

/// Flash clock delay: half a cycle.
pub const FLASH_CLOCK_DELAY: u8 = 0;

/// The payload of the flash parameter command for a device: its flash pin
/// configuration, then the IO mode, clock configuration and clock delay.
pub open spec fn flash_param_payload(bi: BootInfo) -> Seq<u8> {
    seq![
        FlashPinCfg::spec_from_bits(bi.sw_config0.spec_flash_pin_bits() as u64).spec_bits() as u8,
        FLASH_IO_MODE,
        FLASH_CLOCK_CFG,
        FLASH_CLOCK_DELAY,
    ]
}

/// Asks for the boot information record.
pub fn boot_info_request() -> (r: Request)
    ensures
        r.command == Command::GetBootInfo,
        r.payload@ == Seq::<u8>::empty(),
{
    let payload: Vec<u8> = Vec::new();
    Request { command: Command::GetBootInfo, payload }
}

/// Sets the flash parameters; must come before any other flash command.
pub fn init_flash(bi: &BootInfo) -> (r: Request)
    ensures
        r.command == Command::FlashSetParam,
        r.payload@ == flash_param_payload(*bi),
{
    let pin = bi.sw_config0.spi_flash_pin_cfg().into_bits() as u8;
    let payload = vec![pin, FLASH_IO_MODE, FLASH_CLOCK_CFG, FLASH_CLOCK_DELAY];
    assert(payload@ =~= flash_param_payload(*bi));
    Request { command: Command::FlashSetParam, payload }
}

/// Sets the flash parameters, then reads the flash chip's JEDEC identifier.
pub fn get_flash_id(bi: &BootInfo) -> (r: Vec<Request>)
    ensures
        plan_of(r@) == seq![
            (Command::FlashSetParam, flash_param_payload(*bi)),
            (Command::FlashReadJedecId, Seq::<u8>::empty()),
        ],
{
    let mut r: Vec<Request> = Vec::new();
    let init = init_flash(bi);
    push_request(&mut r, init.command, init.payload);
    push_request(&mut r, Command::FlashReadJedecId, Vec::new());
    assert(plan_of(r@) =~= seq![
        (Command::FlashSetParam, flash_param_payload(*bi)),
        (Command::FlashReadJedecId, Seq::<u8>::empty()),
    ]);
    r
}

/// Manufacturer and device of a flash chip.
#[derive(Clone, Copy, Debug, PartialEq, Eq, Structural)]
pub struct FlashId {
    pub manufacturer: u8,
    pub device: u16,
}

impl FlashId {
    /// Decodes the answer to `FlashReadJedecId`: the manufacturer byte, then
    /// the little-endian device word; `None` where it is shorter.
    pub fn from_response(res: &[u8]) -> (r: Option<Self>)
        ensures
            r is Some <==> res@.len() >= 3,
            r matches Some(id) ==> id.manufacturer == res@[0] && id.device == word16_at(res@, 1),
    {
        if res.len() < 3 {
            return None;
        }
        Some(FlashId { manufacturer: res[0], device: read_le16(res, 1) })
    }

    pub fn manufacturer_name(&self) -> (r: &'static str)
        ensures
            r@ == (if self.manufacturer == 0xef {
                "Winbond"@
            } else if self.manufacturer == 0xc8 {
                "GigaDevice"@
            } else {
                "unknown"@
            }),
    {
        match self.manufacturer {
            0xef => "Winbond",
            0xc8 => "GigaDevice",
            _ => "unknown",
        }
    }
}

/// Size of a fuse window read or written at once.
pub const EFUSE_SLOT_SIZE: u32 = 0x80;

/// Address of the first software configuration word in the fuse array.
pub const SW_CONFIG0_ADDR: u32 = 0x5c;

/// Reads the two fuse blocks, one after the other.
pub fn get_efuses() -> (r: Vec<Request>)
    ensures
        plan_of(r@) == seq![
            (Command::EfuseRead, le32(0) + le32(EFUSE_SLOT_SIZE)),
            (Command::EfuseRead, le32(EFUSE_SLOT_SIZE) + le32(EFUSE_SLOT_SIZE)),
        ],
{
    let mut r: Vec<Request> = Vec::new();
    let mut block0: Vec<u8> = Vec::new();
    push_le32(&mut block0, 0);
    push_le32(&mut block0, EFUSE_SLOT_SIZE);
    push_request(&mut r, Command::EfuseRead, block0);
    let mut block1: Vec<u8> = Vec::new();
    push_le32(&mut block1, EFUSE_SLOT_SIZE);
    push_le32(&mut block1, EFUSE_SLOT_SIZE);
    push_request(&mut r, Command::EfuseRead, block1);
    assert(plan_of(r@) =~= seq![
        (Command::EfuseRead, le32(0) + le32(EFUSE_SLOT_SIZE)),
        (Command::EfuseRead, le32(EFUSE_SLOT_SIZE) + le32(EFUSE_SLOT_SIZE)),
    ]);
    r
}

/// The fuse dump that `get_efuses` yields: the reply to its first read
/// (block 0) followed by the reply to its second (block 1).
pub fn efuse_dump(block0: &[u8], block1: &[u8]) -> (r: Vec<u8>)
    ensures
        r@ == block0@ + block1@,
{
    let mut r: Vec<u8> = Vec::new();
    push_all(&mut r, block0);
    push_all(&mut r, block1);
    assert(r@ =~= block0@ + block1@);
    r
}

/// Sets the flash parameters, reads the digest of the first 16 bytes of
/// flash, then reads the two fuse blocks.
pub fn get_info(bi: &BootInfo) -> (r: Vec<Request>)
    ensures
        plan_of(r@) == seq![
            (Command::FlashSetParam, flash_param_payload(*bi)),
            (Command::FlashReadSha, le32(0) + le32(0x10)),
            (Command::EfuseRead, le32(0) + le32(EFUSE_SLOT_SIZE)),
            (Command::EfuseRead, le32(EFUSE_SLOT_SIZE) + le32(EFUSE_SLOT_SIZE)),
        ],
{
    let mut r: Vec<Request> = Vec::new();
    let init = init_flash(bi);
    push_request(&mut r, init.command, init.payload);
    let mut sha: Vec<u8> = Vec::new();
    push_le32(&mut sha, 0);
    push_le32(&mut sha, 0x10);
    push_request(&mut r, Command::FlashReadSha, sha);
    let fuses = get_efuses();
    let ghost head = plan_of(r@);
    let mut i: usize = 0;
    while i < fuses.len()
        invariant
            i <= fuses@.len(),
            plan_of(r@) == head + plan_of(fuses@).take(i as int),
        decreases fuses@.len() - i,
    {
        push_request(&mut r, fuses[i].command, copy_bytes(&fuses[i].payload));
        i = i + 1;
        assert(plan_of(r@) =~= head + plan_of(fuses@).take(i as int));
    }
    assert(plan_of(fuses@).take(i as int) =~= plan_of(fuses@));
    assert(plan_of(r@) =~= seq![
        (Command::FlashSetParam, flash_param_payload(*bi)),
        (Command::FlashReadSha, le32(0) + le32(0x10)),
        (Command::EfuseRead, le32(0) + le32(EFUSE_SLOT_SIZE)),
        (Command::EfuseRead, le32(EFUSE_SLOT_SIZE) + le32(EFUSE_SLOT_SIZE)),
    ]);
    r
}

fn copy_bytes(v: &Vec<u8>) -> (r: Vec<u8>)
    ensures
        r@ == v@,
{
    let mut r: Vec<u8> = Vec::new();
    push_all(&mut r, v.as_slice());
    r
}

/// Resets the device.
pub fn reset() -> (r: Request)
    ensures
        r.command == Command::Reset,
        r.payload@ == Seq::<u8>::empty(),
{
    Request { command: Command::Reset, payload: Vec::new() }
}

/// Writes `data` to the fuse array at byte `address`; fails where the
/// payload does not fit a frame.
pub fn set_efuses(address: u32, data: &[u8]) -> (r: Result<Request, LoaderError>)
    ensures
        r is Ok <==> 4 + data@.len() <= MAX_PAYLOAD,
        r matches Ok(q) ==> q.command == Command::EfuseWrite && q.payload@ == le32(address)
            + data@,
        r matches Err(e) ==> e == (LoaderError::PayloadTooLong { len: data@.len() as usize }),
{
    if data.len() > MAX_PAYLOAD - 4 {
        return Err(LoaderError::PayloadTooLong { len: data.len() });
    }
    let mut payload: Vec<u8> = Vec::new();
    push_le32(&mut payload, address);
    push_all(&mut payload, data);
    Ok(Request { command: Command::EfuseWrite, payload })
}

/// Writes one 32-bit word to the fuse array at byte `address`.
pub fn set_efuse(address: u32, value: u32) -> (r: Request)
    ensures
        r.command == Command::EfuseWrite,
        r.payload@ == le32(address) + le32(value),
{
    let mut payload: Vec<u8> = Vec::new();
    push_le32(&mut payload, address);
    push_le32(&mut payload, value);
    Request { command: Command::EfuseWrite, payload }
}

/// Burns the one fuse bit that turns the mask ROM's log on again.
pub fn reenable_log() -> (r: Request)
    ensures
        r.command == Command::EfuseWrite,
        r.payload@ == le32(SW_CONFIG0_ADDR) + le32(1u32 << UART_LOG_REOPEN_BIT),
{
    let cfg = SwConfig0::new().with_uart_log_reopen(true);
    assert(set_field(0, 7, 1, 1) == 1u32 << 7u32) by (bit_vector);
    set_efuse(SW_CONFIG0_ADDR, cfg.into_bits())
}

/// Writes a whole fuse block from a file's contents; fails, before anything
/// is sent, unless they are exactly one block long.
pub fn write_fuse_block(data: &[u8]) -> (r: Result<Request, LoaderError>)
    ensures
        r is Ok <==> data@.len() == EFUSE_BLOCK_SIZE,
        r matches Ok(q) ==> q.command == Command::EfuseWrite && q.payload@ == le32(0) + data@,
        r matches Err(e) ==> e == (LoaderError::RecordSize {
            expected: EFUSE_BLOCK_SIZE,
            actual: data@.len() as usize,
        }),
{
    if data.len() != EFUSE_BLOCK_SIZE {
        return Err(LoaderError::RecordSize { expected: EFUSE_BLOCK_SIZE, actual: data.len() });
    }
    set_efuses(0, data)
}

/// Reads the mask ROM's log.
pub fn read_log() -> (r: Request)
    ensures
        r.command == Command::LogRead,
        r.payload@ == Seq::<u8>::empty(),
{
    Request { command: Command::LogRead, payload: Vec::new() }
}

/// Sets the flash parameters, then reads `size` bytes of flash from
/// `offset` in pieces of at most `CHUNK_SIZE` bytes, in ascending order;
/// fails where the range passes the end of the 32-bit address space.
pub fn dump_flash(bi: &BootInfo, offset: u32, size: u32) -> (r: Result<Vec<Request>, LoaderError>)
    ensures
        r is Ok <==> offset + size <= u32::MAX + 1,
        r matches Ok(v) ==> plan_of(v@) == seq![(Command::FlashSetParam, flash_param_payload(*bi))]
            + read_plan(read_ranges(offset as nat, size as nat)),
        r matches Err(e) ==> e == (LoaderError::RangeOverflow { offset, size }),
{
    if size > 0 && size - 1 > u32::MAX - offset {
        return Err(LoaderError::RangeOverflow { offset, size });
    }
    let mut r: Vec<Request> = Vec::new();
    let init = init_flash(bi);
    push_request(&mut r, init.command, init.payload);
    assert(plan_of(r@) =~= seq![(Command::FlashSetParam, flash_param_payload(*bi))]);
    push_read_chunks(&mut r, offset, size);
    Ok(r)
}

/// Sets the flash parameters, erases `[0, len)`, then writes the image in
/// pieces of at most `CHUNK_SIZE` bytes at ascending offsets; fails where
/// the image does not fit the 32-bit length of the erase command.
pub fn flash_image(bi: &BootInfo, data: &[u8]) -> (r: Result<Vec<Request>, LoaderError>)
    ensures
        r is Ok <==> data@.len() <= u32::MAX,
        r matches Ok(v) ==> plan_of(v@) == seq![
            (Command::FlashSetParam, flash_param_payload(*bi)),
            (Command::FlashErase, le32(0) + le32(data@.len() as u32)),
        ] + write_chunks(data@, 0),
        r matches Err(e) ==> e == (LoaderError::TooLarge { len: data@.len() as usize }),
{
    if data.len() > u32::MAX as usize {
        return Err(LoaderError::TooLarge { len: data.len() });
    }
    let mut r: Vec<Request> = Vec::new();
    let init = init_flash(bi);
    push_request(&mut r, init.command, init.payload);
    let mut erase: Vec<u8> = Vec::new();
    push_le32(&mut erase, 0);
    push_le32(&mut erase, data.len() as u32);
    push_request(&mut r, Command::FlashErase, erase);
    assert(plan_of(r@) =~= seq![
        (Command::FlashSetParam, flash_param_payload(*bi)),
        (Command::FlashErase, le32(0) + le32(data@.len() as u32)),
    ]);
    push_write_chunks(&mut r, data);
    Ok(r)
}

/// The requests that load one core's segment: its header, then its payload
/// in pieces of at most `CHUNK_SIZE` bytes.
pub open spec fn segment_plan(c: CoreImage) -> Plan {
    match c {
        Some((a, d)) => seq![(Command::LoadSegHeader, segment_header_bytes(a, d.len() as u32))]
            + data_chunks(Command::LoadSegData, d),
        None => Seq::empty(),
    }
}

fn push_segment(out: &mut Vec<Request>, s: &Segment)
    requires
        s.wf(),
    ensures
        plan_of(final(out)@) == plan_of(old(out)@) + segment_plan(core_of(Some(*s))),
{
    let ghost before = plan_of(out@);
    push_request(out, Command::LoadSegHeader, s.header.to_bytes());
    push_data_chunks(out, Command::LoadSegData, s.data);
    assert(plan_of(out@) =~= before + segment_plan(core_of(Some(*s))));
}

/// Loads one segment: its header, then its payload in pieces.
pub fn send_segment(s: &Segment) -> (r: Vec<Request>)
    requires
        s.wf(),
    ensures
        plan_of(r@) == segment_plan(core_of(Some(*s))),
{
    let mut r: Vec<Request> = Vec::new();
    push_segment(&mut r, s);
    assert(plan_of(r@) =~= segment_plan(core_of(Some(*s))));
    r
}

/// The requests that boot the given cores from RAM: the boot header, each
/// present core's segment in the order primary, companion, low-power, then
/// image check and run.
pub open spec fn run_plan(m0: CoreImage, d0: CoreImage, lp: CoreImage) -> Plan {
    seq![(Command::LoadBootHeader, header_image(m0, d0, lp))] + segment_plan(m0) + segment_plan(d0)
        + segment_plan(lp) + seq![
        (Command::CheckImage, Seq::<u8>::empty()),
        (Command::RunImage, Seq::<u8>::empty()),
    ]
}

fn segment_of(address: u32, bin: &Option<Vec<u8>>) -> (r: Option<Segment>)
    requires
        bin matches Some(d) ==> d@.len() <= u32::MAX,
    ensures
        r matches Some(s) ==> s.wf(),
        core_of(r) == placed(address, *bin),
{
    match bin {
        Some(d) => Some(Segment::new(address, d.as_slice())),
        None => None,
    }
}

fn check_fits(bin: &Option<Vec<u8>>) -> (r: Result<(), LoaderError>)
    ensures
        r is Ok <==> (bin matches Some(d) ==> d@.len() <= u32::MAX),
        r matches Err(e) ==> bin matches Some(d) && e == (LoaderError::TooLarge {
            len: d@.len() as usize,
        }),
{
    match bin {
        Some(d) => if d.len() > u32::MAX as usize {
            Err(LoaderError::TooLarge { len: d.len() })
        } else {
            Ok(())
        },
        None => Ok(()),
    }
}

pub open spec fn fits(bin: Option<Vec<u8>>) -> bool {
    bin matches Some(d) ==> d@.len() <= u32::MAX
}

/// Loads the given core binaries at their load addresses and runs them;
/// fails, before anything is sent, where a binary does not fit a segment's
/// 32-bit size.
pub fn run(m0_bin: Option<Vec<u8>>, d0_bin: Option<Vec<u8>>, lp_bin: Option<Vec<u8>>) -> (r: Result<
    Vec<Request>,
    LoaderError,
>)
    ensures
        r is Ok <==> fits(m0_bin) && fits(d0_bin) && fits(lp_bin),
        r matches Ok(v) ==> plan_of(v@) == run_plan(
            placed(M0_LOAD_ADDR, m0_bin),
            placed(D0_LOAD_ADDR, d0_bin),
            placed(LP_LOAD_ADDR, lp_bin),
        ),
        r matches Err(e) ==> (!fits(m0_bin) && e == LoaderError::TooLarge {
            len: m0_bin->Some_0@.len() as usize,
        }) || (fits(m0_bin) && !fits(d0_bin) && e == LoaderError::TooLarge {
            len: d0_bin->Some_0@.len() as usize,
        }) || (fits(m0_bin) && fits(d0_bin) && !fits(lp_bin) && e == LoaderError::TooLarge {
            len: lp_bin->Some_0@.len() as usize,
        }),
{
    check_fits(&m0_bin)?;
    check_fits(&d0_bin)?;
    check_fits(&lp_bin)?;
    let s1 = segment_of(M0_LOAD_ADDR, &m0_bin);
    let s2 = segment_of(D0_LOAD_ADDR, &d0_bin);
    let s3 = segment_of(LP_LOAD_ADDR, &lp_bin);
    let header = build_header(s1, s2, s3);
    let mut r: Vec<Request> = Vec::new();
    push_request(&mut r, Command::LoadBootHeader, header);
    if let Some(s) = &s1 {
        push_segment(&mut r, s);
    }
    if let Some(s) = &s2 {
        push_segment(&mut r, s);
    }
    if let Some(s) = &s3 {
        push_segment(&mut r, s);
    }
    push_request(&mut r, Command::CheckImage, Vec::new());
    push_request(&mut r, Command::RunImage, Vec::new());
    assert(plan_of(r@) =~= run_plan(core_of(s1), core_of(s2), core_of(s3)));
    Ok(r)
}

} // verus!
