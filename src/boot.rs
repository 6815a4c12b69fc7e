use vstd::prelude::*;

use crate::bytes::{
    field, get_field, le32, le32_words, lemma_le32_injective, lemma_le32_words_len, push_all,
    push_fill, push_le32, read_bytes, read_le32, set_field, with_field, zeros,
};
use crate::checksum::{crc32, crc32_of, sha256, sha256_of};
use crate::mem_map::{D0_RAM_BASE, OCRAM_BASE};

verus! {

/// Load address of the primary core's image.
pub const M0_LOAD_ADDR: u32 = OCRAM_BASE;

/// Load address of the companion core's image.
pub const D0_LOAD_ADDR: u32 = D0_RAM_BASE + 0x7_0000;

/// Load address of the low-power core's image.
pub const LP_LOAD_ADDR: u32 = OCRAM_BASE + 0x8000;

/// Address from which the primary core runs an image stored in flash.
pub const M0_FLASH_ADDR: u32 = 0x5800_2000;

/// `"BFNP"` read as a little-endian word.
pub const BOOT_MAGIC: u32 = 0x504E_4642;

/// Number of command and timing bytes in a flash parameter block.
pub const FLASH_PARAMS_LEN: usize = 84;

/// Number of clock setting bytes in a clock parameter block.
pub const CLOCK_PARAMS_LEN: usize = 20;

pub const FLASH_CONFIG_SIZE: usize = 92;

pub const CLOCK_CONFIG_SIZE: usize = 28;

pub const BOOT_CONFIG_SIZE: usize = 48;

pub const CPU_CONFIG_SIZE: usize = 24;

pub const SEGMENT_HEADER_SIZE: usize = 16;

pub const BOOT_HEADER_SIZE: usize = 352;

/// Offset at which the primary core's binary starts in a flash image.
pub const IMAGE_PAYLOAD_OFFSET: usize = 0x2000;

/// Byte value of erased flash, used to pad a flash image.
pub const ERASED_BYTE: u8 = 0xff;

/// Bits of the boot configuration word that every image sets: no segment
/// table, multimedia core powered on, command wrapping enabled, and both
/// caches invalidated.
pub const BOOT_CONFIG_WORD: u32 = 0x654C_0100;

/// Flash parameter block: a magic word, the flash chip's command and timing
/// bytes, and a CRC-32 over everything before it.
pub struct FlashConfig {
    pub magic: u32,
    pub params: Vec<u8>,
    pub crc32: u32,
}

impl FlashConfig {
    pub open spec fn spec_bytes(&self) -> Seq<u8> {
        le32(self.magic) + self.params@ + le32(self.crc32)
    }

    pub open spec fn wf(&self) -> bool {
        self.params@.len() == FLASH_PARAMS_LEN
    }

    /// The block that the tool always sends: all fields zero, with the
    /// checksum of everything before the checksum field.
    pub open spec fn is_template(&self) -> bool {
        &&& self.magic == 0
        &&& self.params@ == zeros(FLASH_PARAMS_LEN as nat)
        &&& self.crc32 == crc32_of(le32(0) + zeros(FLASH_PARAMS_LEN as nat))
    }

    /// An empty configuration, with its checksum.
    pub fn new() -> (r: Self)
        ensures
            r.is_template(),
            r.wf(),
    {
        let params = vec![0u8; FLASH_PARAMS_LEN];
        assert(params@ =~= zeros(FLASH_PARAMS_LEN as nat));
        let mut c = FlashConfig { magic: 0, params, crc32: 0 };
        let mut body: Vec<u8> = Vec::new();
        push_le32(&mut body, c.magic);
        push_all(&mut body, c.params.as_slice());
        assert(body@ =~= le32(0) + zeros(FLASH_PARAMS_LEN as nat));
        c.crc32 = crc32(body.as_slice());
        c
    }

    pub fn push_bytes(&self, out: &mut Vec<u8>)
        ensures
            final(out)@ == old(out)@ + self.spec_bytes(),
    {
        push_le32(out, self.magic);
        push_all(out, self.params.as_slice());
        push_le32(out, self.crc32);
        assert(final(out)@ =~= old(out)@ + self.spec_bytes());
    }

    pub fn read(b: &[u8], at: usize) -> (r: Self)
        requires
            at + FLASH_CONFIG_SIZE <= b@.len(),
        ensures
            r.wf(),
            r.spec_bytes() == b@.subrange(at as int, at + FLASH_CONFIG_SIZE),
    {
        let _len: usize = b.len();
        let magic = read_le32(b, at);
        let params = read_bytes(b, at + 4, FLASH_PARAMS_LEN);
        let crc32 = read_le32(b, at + 88);
        let r = FlashConfig { magic, params, crc32 };
        assert(r.spec_bytes() =~= b@.subrange(at as int, at + FLASH_CONFIG_SIZE));
        r
    }
}

/// Clock parameter block: a magic word, the clock tree settings, and a CRC-32
/// over everything before it.
pub struct ClockConfig {
    pub magic: u32,
    pub params: Vec<u8>,
    pub crc32: u32,
}

impl ClockConfig {
    pub open spec fn spec_body(&self) -> Seq<u8> {
        le32(self.magic) + self.params@
    }

    pub open spec fn spec_bytes(&self) -> Seq<u8> {
        self.spec_body() + le32(self.crc32)
    }

    pub open spec fn wf(&self) -> bool {
        self.params@.len() == CLOCK_PARAMS_LEN
    }

    /// The block that the tool always sends: all fields zero, with the
    /// checksum of that payload.
    pub open spec fn is_template(&self) -> bool {
        &&& self.magic == 0
        &&& self.params@ == zeros(CLOCK_PARAMS_LEN as nat)
        &&& self.crc32 == crc32_of(le32(0) + zeros(CLOCK_PARAMS_LEN as nat))
    }

    /// An empty configuration, with its checksum.
    pub fn new() -> (r: Self)
        ensures
            r.is_template(),
            r.wf(),
    {
        let params = vec![0u8; CLOCK_PARAMS_LEN];
        assert(params@ =~= zeros(CLOCK_PARAMS_LEN as nat));
        let mut c = ClockConfig { magic: 0, params, crc32: 0 };
        let mut body: Vec<u8> = Vec::new();
        push_le32(&mut body, c.magic);
        push_all(&mut body, c.params.as_slice());
        assert(body@ =~= le32(0) + zeros(CLOCK_PARAMS_LEN as nat));
        c.crc32 = crc32(body.as_slice());
        c
    }

    pub fn push_bytes(&self, out: &mut Vec<u8>)
        ensures
            final(out)@ == old(out)@ + self.spec_bytes(),
    {
        push_le32(out, self.magic);
        push_all(out, self.params.as_slice());
        push_le32(out, self.crc32);
        assert(final(out)@ =~= old(out)@ + self.spec_bytes());
    }

    pub fn read(b: &[u8], at: usize) -> (r: Self)
        requires
            at + CLOCK_CONFIG_SIZE <= b@.len(),
        ensures
            r.wf(),
            r.spec_bytes() == b@.subrange(at as int, at + CLOCK_CONFIG_SIZE),
    {
        let _len: usize = b.len();
        let magic = read_le32(b, at);
        let params = read_bytes(b, at + 4, CLOCK_PARAMS_LEN);
        let crc32 = read_le32(b, at + 24);
        let r = ClockConfig { magic, params, crc32 };
        assert(r.spec_bytes() =~= b@.subrange(at as int, at + CLOCK_CONFIG_SIZE));
        r
    }
}

/// Boot configuration word: signature, encryption and key selection, core
/// enables, debug and cache flags, and command wrapping parameters.
#[derive(Clone, Copy)]
pub struct BootConfigBits(pub u32);

impl BootConfigBits {
    pub fn new() -> (r: Self)
        ensures
            r.0 == 0,
    {
        BootConfigBits(0)
    }

    pub fn from_bits(bits: u32) -> (r: Self)
        ensures
            r.0 == bits,
    {
        BootConfigBits(bits)
    }

    pub fn into_bits(self) -> (r: u32)
        ensures
            r == self.0,
    {
        self.0
    }

    pub fn with_no_segment(self, v: bool) -> (r: Self)
        ensures
            r.0 == set_field(self.0, 8, 1, v as u32),
    {
        BootConfigBits(with_field(self.0, 8, 1, v as u32))
    }

    pub fn with_power_on_mm(self, v: bool) -> (r: Self)
        ensures
            r.0 == set_field(self.0, 18, 1, v as u32),
    {
        BootConfigBits(with_field(self.0, 18, 1, v as u32))
    }

    pub fn with_em_sel(self, v: u8) -> (r: Self)
        ensures
            r.0 == set_field(self.0, 19, 0x7, v as u32),
    {
        BootConfigBits(with_field(self.0, 19, 0x7, v as u32))
    }

    pub fn with_commands_en(self, v: bool) -> (r: Self)
        ensures
            r.0 == set_field(self.0, 22, 1, v as u32),
    {
        BootConfigBits(with_field(self.0, 22, 1, v as u32))
    }

    pub fn with_commands_wrap_mode(self, v: u8) -> (r: Self)
        ensures
            r.0 == set_field(self.0, 23, 0x3, v as u32),
    {
        BootConfigBits(with_field(self.0, 23, 0x3, v as u32))
    }

    pub fn with_commands_wrap_len(self, v: u8) -> (r: Self)
        ensures
            r.0 == set_field(self.0, 25, 0xf, v as u32),
    {
        BootConfigBits(with_field(self.0, 25, 0xf, v as u32))
    }

    pub fn with_icache_invalid(self, v: bool) -> (r: Self)
        ensures
            r.0 == set_field(self.0, 29, 1, v as u32),
    {
        BootConfigBits(with_field(self.0, 29, 1, v as u32))
    }

    pub fn with_dcache_invalid(self, v: bool) -> (r: Self)
        ensures
            r.0 == set_field(self.0, 30, 1, v as u32),
    {
        BootConfigBits(with_field(self.0, 30, 1, v as u32))
    }
}

/// Segment header: load address, payload size, a reserved word, and a CRC-32
/// over the first three words.
#[derive(Clone, Copy)]
pub struct SegmentHeader {
    pub address: u32,
    pub size: u32,
    pub reserved: u32,
    pub crc32: u32,
}

/// The 16 bytes of the header of a segment of `size` bytes loaded at `address`.
pub open spec fn segment_header_bytes(address: u32, size: u32) -> Seq<u8> {
    le32(address) + le32(size) + le32(0) + le32(crc32_of(le32(address) + le32(size) + le32(0)))
}

impl SegmentHeader {
    pub open spec fn spec_body(&self) -> Seq<u8> {
        le32(self.address) + le32(self.size) + le32(self.reserved)
    }

    pub open spec fn spec_bytes(&self) -> Seq<u8> {
        self.spec_body() + le32(self.crc32)
    }

    pub fn new(address: u32, size: u32) -> (r: Self)
        ensures
            r.address == address,
            r.size == size,
            r.reserved == 0,
            r.crc32 == crc32_of(r.spec_body()),
            r.spec_bytes() == segment_header_bytes(address, size),
    {
        let mut h = SegmentHeader { address, size, reserved: 0, crc32: 0 };
        let mut body: Vec<u8> = Vec::new();
        push_le32(&mut body, h.address);
        push_le32(&mut body, h.size);
        push_le32(&mut body, h.reserved);
        h.crc32 = crc32(body.as_slice());
        h
    }

    pub fn push_bytes(&self, out: &mut Vec<u8>)
        ensures
            final(out)@ == old(out)@ + self.spec_bytes(),
    {
        push_le32(out, self.address);
        push_le32(out, self.size);
        push_le32(out, self.reserved);
        push_le32(out, self.crc32);
        assert(final(out)@ =~= old(out)@ + self.spec_bytes());
    }

    pub fn to_bytes(&self) -> (r: Vec<u8>)
        ensures
            r@ == self.spec_bytes(),
    {
        let mut r: Vec<u8> = Vec::new();
        self.push_bytes(&mut r);
        assert(r@ =~= self.spec_bytes());
        r
    }
}

/// A segment header together with the payload it describes.
#[derive(Clone, Copy)]
pub struct Segment<'a> {
    pub header: SegmentHeader,
    pub data: &'a [u8],
}

/// A core's image: its load address and its bytes.
pub type CoreImage = Option<(u32, Seq<u8>)>;

impl<'a> Segment<'a> {
    /// The header describes the payload.
    pub open spec fn wf(&self) -> bool {
        &&& self.data@.len() <= u32::MAX
        &&& self.header.size == self.data@.len()
        &&& self.header.spec_bytes() == segment_header_bytes(
            self.header.address,
            self.data@.len() as u32,
        )
    }

    /// The header's bytes followed by the payload.
    pub open spec fn record(&self) -> Seq<u8> {
        self.header.spec_bytes() + self.data@
    }

    pub fn new(address: u32, data: &'a [u8]) -> (r: Self)
        requires
            data@.len() <= u32::MAX,
        ensures
            r.wf(),
            r.header.address == address,
            r.data@ == data@,
    {
        let size = data.len() as u32;
        Segment { header: SegmentHeader::new(address, size), data }
    }
}

/// The image described by an optional segment.
pub open spec fn core_of(s: Option<Segment>) -> CoreImage {
    match s {
        Some(s) => Some((s.header.address, s.data@)),
        None => None,
    }
}

/// What a core contributes to the digest: its segment header and payload.
pub open spec fn core_record(c: CoreImage) -> Seq<u8> {
    match c {
        Some((a, d)) => segment_header_bytes(a, d.len() as u32) + d,
        None => Seq::empty(),
    }
}

pub open spec fn core_count(c: CoreImage) -> u32 {
    if c is Some {
        1
    } else {
        0
    }
}

/// Header records and payloads of the given segments, in order.
pub open spec fn records_concat(segs: Seq<Segment>) -> Seq<u8>
    decreases segs.len(),
{
    if segs.len() == 0 {
        Seq::empty()
    } else {
        records_concat(segs.drop_last()) + segs.last().record()
    }
}

pub proof fn lemma_records_concat_append(s: Seq<Segment>, t: Seq<Segment>)
    ensures
        records_concat(s + t) == records_concat(s) + records_concat(t),
    decreases t.len(),
{
    if t.len() == 0 {
        assert(s + t =~= s);
        assert(records_concat(s) + records_concat(t) =~= records_concat(s));
    } else {
        assert((s + t).drop_last() =~= s + t.drop_last());
        lemma_records_concat_append(s, t.drop_last());
        assert(records_concat(s + t) =~= records_concat(s) + records_concat(t));
    }
}

/// The present segments among three optional ones, in the order given.
pub open spec fn present<'a>(
    m0: Option<Segment<'a>>,
    d0: Option<Segment<'a>>,
    lp: Option<Segment<'a>>,
) -> Seq<Segment<'a>> {
    opt_seq(m0) + opt_seq(d0) + opt_seq(lp)
}

pub open spec fn opt_seq<'a>(s: Option<Segment<'a>>) -> Seq<Segment<'a>> {
    match s {
        Some(s) => seq![s],
        None => Seq::empty(),
    }
}

pub open spec fn seg_ok(s: Option<Segment>) -> bool {
    s matches Some(x) ==> x.wf()
}

proof fn lemma_records_opt(s: Option<Segment>)
    requires
        seg_ok(s),
    ensures
        records_concat(opt_seq(s)) == core_record(core_of(s)),
        opt_seq(s).len() == core_count(core_of(s)),
{
    if let Some(x) = s {
        assert(opt_seq(s).drop_last() =~= Seq::<Segment>::empty());
        assert(opt_seq(s).last() == x);
        assert(records_concat(opt_seq(s).drop_last()) =~= Seq::<u8>::empty());
        assert(records_concat(opt_seq(s)) =~= x.record());
    } else {
        assert(records_concat(opt_seq(s)) =~= Seq::<u8>::empty());
    }
}

proof fn lemma_records_present<'a>(
    m0: Option<Segment<'a>>,
    d0: Option<Segment<'a>>,
    lp: Option<Segment<'a>>,
)
    requires
        seg_ok(m0),
        seg_ok(d0),
        seg_ok(lp),
    ensures
        records_concat(present(m0, d0, lp)) == core_record(core_of(m0)) + core_record(
            core_of(d0),
        ) + core_record(core_of(lp)),
        present(m0, d0, lp).len() == core_count(core_of(m0)) + core_count(core_of(d0))
            + core_count(core_of(lp)),
{
    lemma_records_opt(m0);
    lemma_records_opt(d0);
    lemma_records_opt(lp);
    lemma_records_concat_append(opt_seq(m0), opt_seq(d0));
    lemma_records_concat_append(opt_seq(m0) + opt_seq(d0), opt_seq(lp));
}

/// Enable and halt bytes of a core, and its cache control bits.
#[derive(Clone, Copy)]
pub struct CpuEnableAndCache(pub u32);

impl CpuEnableAndCache {
    pub fn new() -> (r: Self)
        ensures
            r.0 == 0,
    {
        CpuEnableAndCache(0)
    }

    pub fn from_bits(bits: u32) -> (r: Self)
        ensures
            r.0 == bits,
    {
        CpuEnableAndCache(bits)
    }

    pub fn into_bits(self) -> (r: u32)
        ensures
            r == self.0,
    {
        self.0
    }

    pub fn with_config_enable(self, v: u8) -> (r: Self)
        ensures
            r.0 == set_field(self.0, 0, 0xff, v as u32),
    {
        CpuEnableAndCache(with_field(self.0, 0, 0xff, v as u32))
    }

    pub fn config_enable(self) -> (r: u8)
        ensures
            r == get_field(self.0, 0, 0xff),
    {
        proof {
            let w = self.0;
            assert(get_field(w, 0, 0xff) <= 0xff) by (bit_vector);
        }
        field(self.0, 0, 0xff) as u8
    }
}

/// Cache address range of a core; the end address comes first.
#[derive(Clone, Copy)]
pub struct CacheRange {
    pub end: u32,
    pub start: u32,
}

/// Boot configuration of one core.
#[derive(Clone, Copy)]
pub struct CpuConfig {
    pub cpu_enable_and_cache: CpuEnableAndCache,
    pub cache_range: CacheRange,
    pub image_offset: u32,
    pub boot_entry: u32,
    pub msp_val: u32,
}

/// The 24 bytes that configure a core: all zero for an absent core; for a
/// present one the enable byte set and the boot entry at its load address.
pub open spec fn cpu_config_bytes(entry: Option<u32>) -> Seq<u8> {
    match entry {
        Some(a) => le32(1) + le32(0) + le32(0) + le32(0) + le32(a) + le32(0),
        None => le32(0) + le32(0) + le32(0) + le32(0) + le32(0) + le32(0),
    }
}

/// The load address of a core's image, if there is one.
pub open spec fn entry_of(c: CoreImage) -> Option<u32> {
    match c {
        Some((a, _)) => Some(a),
        None => None,
    }
}

impl CpuConfig {
    pub open spec fn spec_bytes(&self) -> Seq<u8> {
        le32(self.cpu_enable_and_cache.0) + le32(self.cache_range.end) + le32(
            self.cache_range.start,
        ) + le32(self.image_offset) + le32(self.boot_entry) + le32(self.msp_val)
    }

    /// A disabled core.
    pub fn new() -> (r: Self)
        ensures
            r.spec_bytes() == cpu_config_bytes(None),
    {
        CpuConfig {
            cpu_enable_and_cache: CpuEnableAndCache::new(),
            cache_range: CacheRange { start: 0, end: 0 },
            image_offset: 0,
            boot_entry: 0,
            msp_val: 0,
        }
    }

    /// An enabled core that starts at `boot_entry`.
    pub fn with_entry(boot_entry: u32) -> (r: Self)
        ensures
            r.boot_entry == boot_entry,
            r.spec_bytes() == cpu_config_bytes(Some(boot_entry)),
    {
        let cpu_enable_and_cache = CpuEnableAndCache::new().with_config_enable(1);
        assert(set_field(0, 0, 0xff, 1) == 1) by (bit_vector);
        CpuConfig {
            cpu_enable_and_cache,
            cache_range: CacheRange { start: 0, end: 0 },
            image_offset: 0,
            boot_entry,
            msp_val: 0,
        }
    }

    pub fn push_bytes(&self, out: &mut Vec<u8>)
        ensures
            final(out)@ == old(out)@ + self.spec_bytes(),
    {
        push_le32(out, self.cpu_enable_and_cache.0);
        push_le32(out, self.cache_range.end);
        push_le32(out, self.cache_range.start);
        push_le32(out, self.image_offset);
        push_le32(out, self.boot_entry);
        push_le32(out, self.msp_val);
        assert(final(out)@ =~= old(out)@ + self.spec_bytes());
    }

    pub fn read(b: &[u8], at: usize) -> (r: Self)
        requires
            at + CPU_CONFIG_SIZE <= b@.len(),
        ensures
            r.spec_bytes() == b@.subrange(at as int, at + CPU_CONFIG_SIZE),
    {
        let _len: usize = b.len();
        let r = CpuConfig {
            cpu_enable_and_cache: CpuEnableAndCache(read_le32(b, at)),
            cache_range: CacheRange { end: read_le32(b, at + 4), start: read_le32(b, at + 8) },
            image_offset: read_le32(b, at + 12),
            boot_entry: read_le32(b, at + 16),
            msp_val: read_le32(b, at + 20),
        };
        assert(r.spec_bytes() =~= b@.subrange(at as int, at + CPU_CONFIG_SIZE));
        r
    }
}

/// The configuration of a core: enabled at its load address if present.
pub fn cpu_config_for(s: Option<Segment>) -> (r: CpuConfig)
    ensures
        r.spec_bytes() == cpu_config_bytes(entry_of(core_of(s))),
{
    match s {
        Some(s) => CpuConfig::with_entry(s.header.address),
        None => CpuConfig::new(),
    }
}

/// Boot configuration block: the configuration word, the group image offset,
/// the AES region length, the number of segments, and the SHA-256 digest of
/// the segments.
pub struct BootConfig {
    pub config: BootConfigBits,
    pub group_image_offset: u32,
    pub aes_region_length: u32,
    pub image_length_or_segment_count: u32,
    pub sha256: Vec<u8>,
}

/// The boot configuration block for the given cores: the fixed configuration
/// word, the number of present cores, and the digest of their header records
/// and payloads in the order primary, companion, low-power.
pub open spec fn boot_config_bytes(m0: CoreImage, d0: CoreImage, lp: CoreImage) -> Seq<u8> {
    le32(BOOT_CONFIG_WORD) + le32(0) + le32(0) + le32(
        (core_count(m0) + core_count(d0) + core_count(lp)) as u32,
    ) + sha256_of(core_record(m0) + core_record(d0) + core_record(lp))
}

impl BootConfig {
    pub open spec fn spec_bytes(&self) -> Seq<u8> {
        le32(self.config.0) + le32(self.group_image_offset) + le32(self.aes_region_length) + le32(
            self.image_length_or_segment_count,
        ) + self.sha256@
    }

    pub open spec fn wf(&self) -> bool {
        self.sha256@.len() == 32
    }

    pub fn new(segments: &[Segment]) -> (r: Self)
        requires
            segments@.len() <= u32::MAX,
        ensures
            r.wf(),
            r.config.0 == BOOT_CONFIG_WORD,
            r.group_image_offset == 0,
            r.aes_region_length == 0,
            r.image_length_or_segment_count == segments@.len(),
            r.sha256@ == sha256_of(records_concat(segments@)),
    {
        let image_length_or_segment_count = segments.len() as u32;
        let mut data: Vec<u8> = Vec::new();
        let mut i: usize = 0;
        while i < segments.len()
            invariant
                i <= segments@.len(),
                data@ == records_concat(segments@.take(i as int)),
            decreases segments@.len() - i,
        {
            let s = segments[i];
            s.header.push_bytes(&mut data);
            push_all(&mut data, s.data);
            proof {
                let t = segments@.take(i + 1);
                assert(t.drop_last() =~= segments@.take(i as int));
                assert(t.last() == s);
            }
            i = i + 1;
            assert(data@ =~= records_concat(segments@.take(i as int)));
        }
        assert(segments@.take(i as int) =~= segments@);
        let sha256 = sha256(data.as_slice());
        let config = BootConfigBits::new().with_no_segment(true).with_power_on_mm(
            true,
        ).with_em_sel(1).with_commands_en(true).with_commands_wrap_mode(2).with_commands_wrap_len(
            2,
        ).with_icache_invalid(true).with_dcache_invalid(true);
        assert(set_field(
            set_field(
                set_field(
                    set_field(
                        set_field(
                            set_field(set_field(set_field(0, 8, 1, 1), 18, 1, 1), 19, 0x7, 1),
                            22,
                            1,
                            1,
                        ),
                        23,
                        0x3,
                        2,
                    ),
                    25,
                    0xf,
                    2,
                ),
                29,
                1,
                1,
            ),
            30,
            1,
            1,
        ) == BOOT_CONFIG_WORD) by (bit_vector);
        BootConfig {
            config,
            group_image_offset: 0,
            aes_region_length: 0,
            image_length_or_segment_count,
            sha256,
        }
    }

    pub fn push_bytes(&self, out: &mut Vec<u8>)
        ensures
            final(out)@ == old(out)@ + self.spec_bytes(),
    {
        push_le32(out, self.config.0);
        push_le32(out, self.group_image_offset);
        push_le32(out, self.aes_region_length);
        push_le32(out, self.image_length_or_segment_count);
        push_all(out, self.sha256.as_slice());
        assert(final(out)@ =~= old(out)@ + self.spec_bytes());
    }

    pub fn read(b: &[u8], at: usize) -> (r: Self)
        requires
            at + BOOT_CONFIG_SIZE <= b@.len(),
        ensures
            r.wf(),
            r.spec_bytes() == b@.subrange(at as int, at + BOOT_CONFIG_SIZE),
    {
        let _len: usize = b.len();
        let r = BootConfig {
            config: BootConfigBits(read_le32(b, at)),
            group_image_offset: read_le32(b, at + 4),
            aes_region_length: read_le32(b, at + 8),
            image_length_or_segment_count: read_le32(b, at + 12),
            sha256: read_bytes(b, at + 16, 32),
        };
        assert(r.spec_bytes() =~= b@.subrange(at as int, at + BOOT_CONFIG_SIZE));
        r
    }
}

/// The flash parameter block that every header carries.
pub open spec fn flash_template_bytes() -> Seq<u8> {
    le32(0) + zeros(FLASH_PARAMS_LEN as nat) + le32(
        crc32_of(le32(0) + zeros(FLASH_PARAMS_LEN as nat)),
    )
}

/// The clock parameter block that every header carries.
pub open spec fn clock_template_bytes() -> Seq<u8> {
    le32(0) + zeros(CLOCK_PARAMS_LEN as nat) + le32(
        crc32_of(le32(0) + zeros(CLOCK_PARAMS_LEN as nat)),
    )
}

/// Eight zero words.
pub open spec fn zero_table() -> Seq<u32> {
    Seq::new(8, |i: int| 0u32)
}

/// The magic word, the revision, and the flash and clock parameter blocks.
pub open spec fn header_head() -> Seq<u8> {
    le32(BOOT_MAGIC) + le32(1) + flash_template_bytes() + clock_template_bytes()
}

/// The three core configurations, and the partition and patch tables, which
/// are all zero.
pub open spec fn header_tail(m0: CoreImage, d0: CoreImage, lp: CoreImage) -> Seq<u8> {
    cpu_config_bytes(entry_of(m0)) + cpu_config_bytes(entry_of(d0)) + cpu_config_bytes(
        entry_of(lp),
    ) + le32(0) + le32(0)
        + le32(0) + le32(0) + le32_words(zero_table()) + le32_words(zero_table()) + zeros(20)
}

/// Every byte of the boot header for the given cores but its trailing CRC-32.
pub open spec fn header_body(m0: CoreImage, d0: CoreImage, lp: CoreImage) -> Seq<u8> {
    header_head() + boot_config_bytes(m0, d0, lp) + header_tail(m0, d0, lp)
}

/// The boot header for the given cores: its body followed by the CRC-32 of
/// the body.
pub open spec fn header_image(m0: CoreImage, d0: CoreImage, lp: CoreImage) -> Seq<u8> {
    header_body(m0, d0, lp) + le32(crc32_of(header_body(m0, d0, lp)))
}

/// Appends each word of `words`, little-endian.
pub fn push_le32_words(out: &mut Vec<u8>, words: &[u32])
    ensures
        final(out)@ == old(out)@ + le32_words(words@),
{
    let mut i: usize = 0;
    while i < words.len()
        invariant
            i <= words@.len(),
            out@ == old(out)@ + le32_words(words@.take(i as int)),
        decreases words@.len() - i,
    {
        push_le32(out, words[i]);
        proof {
            let t = words@.take(i + 1);
            assert(t.drop_last() =~= words@.take(i as int));
        }
        i = i + 1;
        assert(out@ =~= old(out)@ + le32_words(words@.take(i as int)));
    }
    assert(words@.take(i as int) =~= words@);
}

/// Reads `n` little-endian words starting at `at`.
pub fn read_le32_words(b: &[u8], at: usize, n: usize) -> (r: Vec<u32>)
    requires
        at + 4 * n <= b@.len(),
    ensures
        r@.len() == n,
        le32_words(r@) == b@.subrange(at as int, at + 4 * n),
{
    let _len: usize = b.len();
    let mut r: Vec<u32> = Vec::new();
    let mut i: usize = 0;
    while i < n
        invariant
            i <= n,
            at + 4 * n <= b@.len(),
            _len == b@.len(),
            r@.len() == i,
            le32_words(r@) == b@.subrange(at as int, at + 4 * i),
        decreases n - i,
    {
        let w = read_le32(b, at + 4 * i);
        let ghost before = r@;
        r.push(w);
        assert(r@.drop_last() =~= before);
        i = i + 1;
        assert(le32_words(r@) =~= b@.subrange(at as int, at + 4 * i));
    }
    r
}

/// The fixed-layout preamble that the mask ROM reads before it boots: flash
/// and clock parameters, the boot configuration, one configuration per core,
/// partition and patch tables, and a CRC-32 over all of it.
pub struct BootHeader {
    pub magic: u32,
    pub revision: u32,
    pub flash_config: FlashConfig,
    pub clock_config: ClockConfig,
    pub boot_config: BootConfig,
    /// Primary core.
    pub m0_config: CpuConfig,
    /// Companion (multimedia) core.
    pub d0_config: CpuConfig,
    /// Low-power core.
    pub lp_config: CpuConfig,
    pub boot2_partition_table_0: u32,
    pub boot2_partition_table_1: u32,
    pub flash_config_table_addr: u32,
    pub flash_config_table_size: u32,
    pub patch_config: Vec<u32>,
    pub patch_jump: Vec<u32>,
    pub reserved: Vec<u8>,
    pub crc32: u32,
}

impl BootHeader {
    pub open spec fn wf(&self) -> bool {
        &&& self.flash_config.wf()
        &&& self.clock_config.wf()
        &&& self.boot_config.wf()
        &&& self.patch_config@.len() == 8
        &&& self.patch_jump@.len() == 8
        &&& self.reserved@.len() == 20
    }
    pub open spec fn spec_head(&self) -> Seq<u8> {
        le32(self.magic) + le32(self.revision) + self.flash_config.spec_bytes()
            + self.clock_config.spec_bytes()
    }

    pub open spec fn spec_tail(&self) -> Seq<u8> {
        self.m0_config.spec_bytes() + self.d0_config.spec_bytes() + self.lp_config.spec_bytes()
            + le32(self.boot2_partition_table_0) + le32(self.boot2_partition_table_1) + le32(
            self.flash_config_table_addr,
        ) + le32(self.flash_config_table_size) + le32_words(self.patch_config@) + le32_words(
            self.patch_jump@,
        ) + self.reserved@
    }

    pub open spec fn spec_body(&self) -> Seq<u8> {
        self.spec_head() + self.boot_config.spec_bytes() + self.spec_tail()
    }

    pub open spec fn spec_bytes(&self) -> Seq<u8> {
        self.spec_body() + le32(self.crc32)
    }

    pub proof fn lemma_len(&self)
        requires
            self.wf(),
        ensures
            self.spec_body().len() == BOOT_HEADER_SIZE - 4,
            self.spec_bytes().len() == BOOT_HEADER_SIZE,
    {
        lemma_le32_words_len(self.patch_config@);
        lemma_le32_words_len(self.patch_jump@);
    }

    /// The header that boots the given segments: primary, companion and
    /// low-power core, each optional.
    #[verifier::rlimit(40)]
    pub fn new(m0_seg: Option<Segment>, d0_seg: Option<Segment>, lp_seg: Option<Segment>) -> (r:
        Self)
        requires
            seg_ok(m0_seg),
            seg_ok(d0_seg),
            seg_ok(lp_seg),
        ensures
            r.wf(),
            r.spec_bytes() == header_image(core_of(m0_seg), core_of(d0_seg), core_of(lp_seg)),
    {
        let mut segments: Vec<Segment> = Vec::new();
        if let Some(s) = m0_seg {
            segments.push(s);
        }
        if let Some(s) = d0_seg {
            segments.push(s);
        }
        if let Some(s) = lp_seg {
            segments.push(s);
        }
        assert(segments@ =~= present(m0_seg, d0_seg, lp_seg));
        proof {
            lemma_records_present(m0_seg, d0_seg, lp_seg);
        }
        let patch_config = vec![0u32; 8];
        let patch_jump = vec![0u32; 8];
        let reserved = vec![0u8; 20];
        assert(patch_config@ =~= zero_table());
        assert(patch_jump@ =~= zero_table());
        assert(reserved@ =~= zeros(20));
        let mut h = BootHeader {
            magic: BOOT_MAGIC,
            revision: 1,
            flash_config: FlashConfig::new(),
            clock_config: ClockConfig::new(),
            boot_config: BootConfig::new(segments.as_slice()),
            m0_config: cpu_config_for(m0_seg),
            d0_config: cpu_config_for(d0_seg),
            lp_config: cpu_config_for(lp_seg),
            boot2_partition_table_0: 0,
            boot2_partition_table_1: 0,
            flash_config_table_addr: 0,
            flash_config_table_size: 0,
            patch_config,
            patch_jump,
            reserved,
            crc32: 0,
        };
        let m0 = Ghost(core_of(m0_seg));
        let d0 = Ghost(core_of(d0_seg));
        let lp = Ghost(core_of(lp_seg));
        assert(h.flash_config.spec_bytes() =~= flash_template_bytes());
        assert(h.clock_config.spec_bytes() =~= clock_template_bytes());
        assert(h.boot_config.spec_bytes() =~= boot_config_bytes(m0@, d0@, lp@));
        assert(h.spec_head() =~= header_head());
        assert(h.spec_tail() =~= header_tail(m0@, d0@, lp@));
        let body = h.body_bytes();
        h.crc32 = crc32(body.as_slice());
        h
    }

    fn push_head(&self, out: &mut Vec<u8>)
        ensures
            final(out)@ == old(out)@ + self.spec_head(),
    {
        push_le32(out, self.magic);
        push_le32(out, self.revision);
        self.flash_config.push_bytes(out);
        self.clock_config.push_bytes(out);
        assert(final(out)@ =~= old(out)@ + self.spec_head());
    }

    fn push_tail(&self, out: &mut Vec<u8>)
        ensures
            final(out)@ == old(out)@ + self.spec_tail(),
    {
        self.m0_config.push_bytes(out);
        self.d0_config.push_bytes(out);
        self.lp_config.push_bytes(out);
        push_le32(out, self.boot2_partition_table_0);
        push_le32(out, self.boot2_partition_table_1);
        push_le32(out, self.flash_config_table_addr);
        push_le32(out, self.flash_config_table_size);
        push_le32_words(out, self.patch_config.as_slice());
        push_le32_words(out, self.patch_jump.as_slice());
        push_all(out, self.reserved.as_slice());
        assert(final(out)@ =~= old(out)@ + self.spec_tail());
    }

    /// Every byte of the header but the trailing CRC-32.
    pub fn body_bytes(&self) -> (r: Vec<u8>)
        ensures
            r@ == self.spec_body(),
    {
        let mut r: Vec<u8> = Vec::new();
        self.push_head(&mut r);
        self.boot_config.push_bytes(&mut r);
        self.push_tail(&mut r);
        assert(r@ =~= self.spec_body());
        r
    }

    /// The header as the mask ROM reads it.
    pub fn to_bytes(&self) -> (r: Vec<u8>)
        ensures
            r@ == self.spec_bytes(),
    {
        let mut r = self.body_bytes();
        push_le32(&mut r, self.crc32);
        r
    }
}

impl BootHeader {
    /// Decodes a header of exactly `BOOT_HEADER_SIZE` bytes; `None` where the
    /// length or the magic word is wrong.
    #[verifier::rlimit(40)]
    pub fn from_bytes(b: &[u8]) -> (r: Option<Self>)
        ensures
            r is Some <==> (b@.len() == BOOT_HEADER_SIZE && b@.subrange(0, 4) == le32(BOOT_MAGIC)),
            r matches Some(h) ==> h.wf() && h.spec_bytes() == b@,
    {
        if b.len() != BOOT_HEADER_SIZE {
            return None;
        }
        let magic = read_le32(b, 0);
        if magic != BOOT_MAGIC {
            proof {
                if b@.subrange(0, 4) == le32(BOOT_MAGIC) {
                    lemma_le32_injective(magic, BOOT_MAGIC);
                }
            }
            return None;
        }
        let h = BootHeader {
            magic,
            revision: read_le32(b, 4),
            flash_config: FlashConfig::read(b, 8),
            clock_config: ClockConfig::read(b, 100),
            boot_config: BootConfig::read(b, 128),
            m0_config: CpuConfig::read(b, 176),
            d0_config: CpuConfig::read(b, 200),
            lp_config: CpuConfig::read(b, 224),
            boot2_partition_table_0: read_le32(b, 248),
            boot2_partition_table_1: read_le32(b, 252),
            flash_config_table_addr: read_le32(b, 256),
            flash_config_table_size: read_le32(b, 260),
            patch_config: read_le32_words(b, 264, 8),
            patch_jump: read_le32_words(b, 296, 8),
            reserved: read_bytes(b, 328, 20),
            crc32: read_le32(b, 348),
        };
        assert(h.spec_bytes() =~= b@);
        Some(h)
    }
}

/// The boot header, as bytes, that boots the given segments.
pub fn build_header(m0_seg: Option<Segment>, d0_seg: Option<Segment>, lp_seg: Option<Segment>) -> (r:
    Vec<u8>)
    requires
        seg_ok(m0_seg),
        seg_ok(d0_seg),
        seg_ok(lp_seg),
    ensures
        r@ == header_image(core_of(m0_seg), core_of(d0_seg), core_of(lp_seg)),
        r@.len() == BOOT_HEADER_SIZE,
{
    let h = BootHeader::new(m0_seg, d0_seg, lp_seg);
    proof {
        h.lemma_len();
    }
    h.to_bytes()
}

/// A core image at `address`, if there is one.
pub open spec fn placed(address: u32, bin: Option<Vec<u8>>) -> CoreImage {
    match bin {
        Some(d) => Some((address, d@)),
        None => None,
    }
}

pub open spec fn bin_fits(bin: Option<Vec<u8>>) -> bool {
    bin matches Some(d) ==> d@.len() <= u32::MAX
}

/// A flashable image: the boot header for the three cores (the primary core
/// running from flash), erased-flash padding up to `IMAGE_PAYLOAD_OFFSET`,
/// then the primary core's binary. The other cores' binaries are described
/// in the header but not stored in the image.
pub open spec fn flash_image_bytes(
    m0_bin: Option<Vec<u8>>,
    d0_bin: Option<Vec<u8>>,
    lp_bin: Option<Vec<u8>>,
) -> Seq<u8> {
    header_image(
        placed(M0_FLASH_ADDR, m0_bin),
        placed(D0_LOAD_ADDR, d0_bin),
        placed(LP_LOAD_ADDR, lp_bin),
    ) + erased_padding() + primary_bytes(m0_bin)
}

/// The erased-flash bytes between the header and the primary core's binary.
pub open spec fn erased_padding() -> Seq<u8> {
    Seq::new((IMAGE_PAYLOAD_OFFSET - BOOT_HEADER_SIZE) as nat, |i: int| ERASED_BYTE)
}

/// The primary core's binary, or nothing.
pub open spec fn primary_bytes(m0_bin: Option<Vec<u8>>) -> Seq<u8> {
    match m0_bin {
        Some(d) => d@,
        None => Seq::empty(),
    }
}

fn segment_at(address: u32, bin: &Option<Vec<u8>>) -> (r: Option<Segment>)
    requires
        bin_fits(*bin),
    ensures
        seg_ok(r),
        core_of(r) == placed(address, *bin),
{
    match bin {
        Some(d) => Some(Segment::new(address, d.as_slice())),
        None => None,
    }
}

/// Builds a flashable image from the given core binaries.
pub fn build_image(m0_bin: Option<Vec<u8>>, d0_bin: Option<Vec<u8>>, lp_bin: Option<Vec<u8>>) -> (r:
    Vec<u8>)
    requires
        bin_fits(m0_bin),
        bin_fits(d0_bin),
        bin_fits(lp_bin),
    ensures
        r@ == flash_image_bytes(m0_bin, d0_bin, lp_bin),
        r@.len() == IMAGE_PAYLOAD_OFFSET + primary_bytes(m0_bin).len(),
        r@.subrange(0, BOOT_HEADER_SIZE as int) == header_image(
            placed(M0_FLASH_ADDR, m0_bin),
            placed(D0_LOAD_ADDR, d0_bin),
            placed(LP_LOAD_ADDR, lp_bin),
        ),
        r@.subrange(BOOT_HEADER_SIZE as int, IMAGE_PAYLOAD_OFFSET as int) == erased_padding(),
        r@.subrange(IMAGE_PAYLOAD_OFFSET as int, r@.len() as int) == primary_bytes(m0_bin),
{
    let m0s = segment_at(M0_FLASH_ADDR, &m0_bin);
    let d0s = segment_at(D0_LOAD_ADDR, &d0_bin);
    let lps = segment_at(LP_LOAD_ADDR, &lp_bin);
    let mut r = build_header(m0s, d0s, lps);
    let ghost header = r@;
    push_fill(&mut r, ERASED_BYTE, IMAGE_PAYLOAD_OFFSET - BOOT_HEADER_SIZE);
    if let Some(d) = &m0_bin {
        push_all(&mut r, d.as_slice());
    }
    assert(r@ =~= flash_image_bytes(m0_bin, d0_bin, lp_bin));
    assert(r@.subrange(0, BOOT_HEADER_SIZE as int) =~= header);
    assert(r@.subrange(BOOT_HEADER_SIZE as int, IMAGE_PAYLOAD_OFFSET as int) =~= erased_padding());
    assert(r@.subrange(IMAGE_PAYLOAD_OFFSET as int, r@.len() as int) =~= primary_bytes(m0_bin));
    r
}

/// Decodes the boot header at the start of an image; `None` where the image
/// is too short or does not start with the header's magic word.
pub fn parse_image(image: &[u8]) -> (r: Option<BootHeader>)
    ensures
        r is Some <==> (image@.len() >= BOOT_HEADER_SIZE && image@.subrange(0, 4) == le32(
            BOOT_MAGIC,
        )),
        r matches Some(h) ==> h.wf() && h.spec_bytes() == image@.subrange(0, BOOT_HEADER_SIZE as int),
{
    if image.len() < BOOT_HEADER_SIZE {
        return None;
    }
    let prefix = &image[0..BOOT_HEADER_SIZE];
    assert(prefix@.subrange(0, 4) =~= image@.subrange(0, 4));
    BootHeader::from_bytes(prefix)
}

/// Whatever cores are present, a boot header is `BOOT_HEADER_SIZE` bytes long
/// and ends with the CRC-32 of all the bytes before it.
pub proof fn lemma_header_length_and_crc(
    m0: Option<Segment>,
    d0: Option<Segment>,
    lp: Option<Segment>,
    h: BootHeader,
)
    requires
        h.wf(),
        h.spec_bytes() == header_image(core_of(m0), core_of(d0), core_of(lp)),
    ensures
        h.spec_bytes().len() == BOOT_HEADER_SIZE,
        h.spec_bytes().subrange(BOOT_HEADER_SIZE - 4, BOOT_HEADER_SIZE as int) == le32(
            crc32_of(h.spec_bytes().subrange(0, BOOT_HEADER_SIZE - 4)),
        ),
{
    h.lemma_len();
    let body = header_body(core_of(m0), core_of(d0), core_of(lp));
    let bytes = h.spec_bytes();
    assert(bytes.subrange(0, BOOT_HEADER_SIZE - 4) =~= body);
    assert(bytes.subrange(BOOT_HEADER_SIZE - 4, BOOT_HEADER_SIZE as int) =~= le32(
        crc32_of(body),
    ));
}

/// The digest field of a boot header is the SHA-256 of the present cores'
/// segment headers and payloads, in the order primary, companion,
/// low-power; the count field before it is the number of present cores.
#[verifier::rlimit(40)]
pub proof fn lemma_header_digest(
    m0: Option<Segment>,
    d0: Option<Segment>,
    lp: Option<Segment>,
    h: BootHeader,
)
    requires
        h.wf(),
        h.spec_bytes() == header_image(core_of(m0), core_of(d0), core_of(lp)),
    ensures
        h.spec_bytes().subrange(144, 176) == sha256_of(
            core_record(core_of(m0)) + core_record(core_of(d0)) + core_record(core_of(lp)),
        ),
        h.spec_bytes().subrange(140, 144) == le32(
            (core_count(core_of(m0)) + core_count(core_of(d0)) + core_count(core_of(lp))) as u32,
        ),
{
    h.lemma_len();
    lemma_le32_words_len(zero_table());
    let digest = sha256_of(
        core_record(core_of(m0)) + core_record(core_of(d0)) + core_record(core_of(lp)),
    );
    let (c0, c1, c2) = (core_of(m0), core_of(d0), core_of(lp));
    let bytes = h.spec_bytes();
    let bc = boot_config_bytes(c0, c1, c2);
    assert(header_head().len() == 128);
    assert(header_tail(c0, c1, c2).len() == 172);
    assert(bc.len() == 16 + digest.len());
    assert(digest.len() == 32);
    assert(bytes.subrange(128, 176) =~= bc);
    assert(bc.subrange(16, 48) =~= digest);
    assert(bc.subrange(12, 16) =~= le32((core_count(c0) + core_count(c1) + core_count(c2)) as u32));
    assert(bytes.subrange(144, 176) =~= bc.subrange(16, 48));
    assert(bytes.subrange(140, 144) =~= bc.subrange(12, 16));
}

} // verus!
