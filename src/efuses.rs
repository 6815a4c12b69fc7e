use vstd::prelude::*;

use crate::bytes::{
    field, get_field, le32, le64, read_bytes, read_le32, read_le64, set_field, with_field,
};
use crate::error::LoaderError;

verus! {

/// Secure boot mode.
#[derive(Clone, Copy, Debug, PartialEq, Eq, Structural)]
pub enum SecureBootEnable {
    No,
    X1,
    X2,
    X3,
}

impl SecureBootEnable {
    pub open spec fn spec_bits(self) -> u64 {
        match self {
            SecureBootEnable::No => 0,
            SecureBootEnable::X1 => 1,
            SecureBootEnable::X2 => 2,
            SecureBootEnable::X3 => 3,
        }
    }

    pub fn into_bits(self) -> (r: u64)
        ensures
            r == self.spec_bits(),
    {
        match self {
            SecureBootEnable::No => 0,
            SecureBootEnable::X1 => 1,
            SecureBootEnable::X2 => 2,
            SecureBootEnable::X3 => 3,
        }
    }

    /// Decodes the two-bit field.
    pub fn from_bits(value: u64) -> (r: Self)
        requires
            value < 4,
        ensures
            r.spec_bits() == value,
    {
        match value {
            0 => SecureBootEnable::No,
            1 => SecureBootEnable::X1,
            2 => SecureBootEnable::X2,
            _ => SecureBootEnable::X3,
        }
    }
}

/// Flash encryption mode.
#[derive(Clone, Copy, Debug, PartialEq, Eq, Structural)]
pub enum AesMode {
    No,
    Aes128,
    Aes192,
    Aes256,
}

impl AesMode {
    pub open spec fn spec_bits(self) -> u64 {
        match self {
            AesMode::No => 0,
            AesMode::Aes128 => 1,
            AesMode::Aes192 => 2,
            AesMode::Aes256 => 3,
        }
    }

    pub fn into_bits(self) -> (r: u64)
        ensures
            r == self.spec_bits(),
    {
        match self {
            AesMode::No => 0,
            AesMode::Aes128 => 1,
            AesMode::Aes192 => 2,
            AesMode::Aes256 => 3,
        }
    }

    /// Decodes the two-bit field.
    pub fn from_bits(value: u64) -> (r: Self)
        requires
            value < 4,
        ensures
            r.spec_bits() == value,
    {
        match value {
            0 => AesMode::No,
            1 => AesMode::Aes128,
            2 => AesMode::Aes192,
            _ => AesMode::Aes256,
        }
    }
}

/// Embedded flash size.
#[allow(non_camel_case_types)]
#[derive(Clone, Copy, Debug, PartialEq, Eq, Structural)]
pub enum Flash {
    No,
    X_8MB,
    Error,
}

impl Flash {
    pub open spec fn spec_bits(self) -> u64 {
        match self {
            Flash::No => 0,
            Flash::X_8MB => 1,
            Flash::Error => 3,
        }
    }

    pub open spec fn spec_from_bits(value: u64) -> Self {
        if value == 0 {
            Flash::No
        } else if value == 1 {
            Flash::X_8MB
        } else {
            Flash::Error
        }
    }

    pub fn into_bits(self) -> (r: u64)
        ensures
            r == self.spec_bits(),
    {
        match self {
            Flash::No => 0,
            Flash::X_8MB => 1,
            Flash::Error => 3,
        }
    }

    /// Decodes the field; every unknown value is an error.
    pub fn from_bits(value: u64) -> (r: Self)
        ensures
            r == Self::spec_from_bits(value),
    {
        match value {
            0 => Flash::No,
            1 => Flash::X_8MB,
            _ => Flash::Error,
        }
    }
}

/// Embedded PSRAM kind and size.
#[allow(non_camel_case_types)]
#[derive(Clone, Copy, Debug, PartialEq, Eq, Structural)]
pub enum Psram {
    No,
    WB_4MB,
    UHS_32MB,
    UHS_64MB,
    WB_32MB,
    WB_16MB,
    Error,
}

impl Psram {
    pub open spec fn spec_bits(self) -> u64 {
        match self {
            Psram::No => 0,
            Psram::WB_4MB => 1,
            Psram::UHS_32MB => 2,
            Psram::UHS_64MB => 3,
            Psram::WB_32MB => 4,
            Psram::WB_16MB => 5,
            Psram::Error => 6,
        }
    }

    pub open spec fn spec_from_bits(value: u64) -> Self {
        if value == 0 {
            Psram::No
        } else if value == 1 {
            Psram::WB_4MB
        } else if value == 2 {
            Psram::UHS_32MB
        } else if value == 3 {
            Psram::UHS_64MB
        } else if value == 4 {
            Psram::WB_32MB
        } else if value == 5 {
            Psram::WB_16MB
        } else {
            Psram::Error
        }
    }

    pub fn into_bits(self) -> (r: u64)
        ensures
            r == self.spec_bits(),
    {
        match self {
            Psram::No => 0,
            Psram::WB_4MB => 1,
            Psram::UHS_32MB => 2,
            Psram::UHS_64MB => 3,
            Psram::WB_32MB => 4,
            Psram::WB_16MB => 5,
            Psram::Error => 6,
        }
    }

    /// Decodes the three-bit value; every unknown value is an error.
    pub fn from_bits(value: u64) -> (r: Self)
        ensures
            r == Self::spec_from_bits(value),
    {
        match value {
            0 => Psram::No,
            1 => Psram::WB_4MB,
            2 => Psram::UHS_32MB,
            3 => Psram::UHS_64MB,
            4 => Psram::WB_32MB,
            5 => Psram::WB_16MB,
            _ => Psram::Error,
        }
    }

    pub fn from_u64(value: u64) -> (r: Self)
        ensures
            r == Self::spec_from_bits(value),
    {
        Self::from_bits(value)
    }
}

/// Chip package.
#[allow(non_camel_case_types)]
#[derive(Clone, Copy, Debug, PartialEq, Eq, Structural)]
pub enum Package {
    QFN68,
    QFN88_808C,
    QFN88_808D,
    QFN88_608P,
    Error,
}

impl Package {
    pub open spec fn spec_bits(self) -> u64 {
        match self {
            Package::QFN68 => 0,
            Package::QFN88_808C => 1,
            Package::QFN88_808D => 2,
            Package::QFN88_608P => 3,
            Package::Error => 4,
        }
    }

    pub open spec fn spec_from_bits(value: u64) -> Self {
        if value == 0 {
            Package::QFN68
        } else if value == 1 {
            Package::QFN88_808C
        } else if value == 2 {
            Package::QFN88_808D
        } else if value == 3 {
            Package::QFN88_608P
        } else {
            Package::Error
        }
    }

    pub fn into_bits(self) -> (r: u64)
        ensures
            r == self.spec_bits(),
    {
        match self {
            Package::QFN68 => 0,
            Package::QFN88_808C => 1,
            Package::QFN88_808D => 2,
            Package::QFN88_608P => 3,
            Package::Error => 4,
        }
    }

    /// Decodes the field; every unknown value is an error.
    pub fn from_bits(value: u64) -> (r: Self)
        ensures
            r == Self::spec_from_bits(value),
    {
        match value {
            0 => Package::QFN68,
            1 => Package::QFN88_808C,
            2 => Package::QFN88_808D,
            3 => Package::QFN88_608P,
            _ => Package::Error,
        }
    }
}

/// How the SPI flash pins are wired.
#[derive(Clone, Copy, Debug, PartialEq, Eq, Structural)]
pub enum FlashPinCfg {
    /// Embedded flash, io0 swapped with io3.
    EmbeddedSwapIO0IO3,
    /// Embedded flash, dual io0 swapped with io3.
    EmbeddedSwapDualIO0IO3,
    /// Embedded flash, no swap.
    EmbeddedSwapNone,
    /// Embedded flash, no swap, dual io0.
    EmbeddedSwapNoneDualIO0,
    /// External flash on SF2, gpio34-39.
    ExternalSF2,
    /// Embedded flash with io0 swapped with io3, and external SF2.
    EmbeddedSwapIO0IO3AndExternalSF2,
    /// Embedded flash with dual io0 swapped with io3, and external SF2.
    EmbeddedSwapDualIO0IO3AndExternalSF2,
    /// Embedded flash without swap, and external SF2.
    EmbeddedSwapNoneAndExternalSF2,
    /// Embedded flash without swap using dual io0, and external SF2.
    EmbeddedSwapNoneDualIO0AndExternalSF2,
    Invalid,
}

impl FlashPinCfg {
    pub open spec fn spec_bits(self) -> u64 {
        match self {
            FlashPinCfg::EmbeddedSwapIO0IO3 => 0x00,
            FlashPinCfg::EmbeddedSwapDualIO0IO3 => 0x01,
            FlashPinCfg::EmbeddedSwapNone => 0x02,
            FlashPinCfg::EmbeddedSwapNoneDualIO0 => 0x03,
            FlashPinCfg::ExternalSF2 => 0x04,
            FlashPinCfg::EmbeddedSwapIO0IO3AndExternalSF2 => 0x14,
            FlashPinCfg::EmbeddedSwapDualIO0IO3AndExternalSF2 => 0x15,
            FlashPinCfg::EmbeddedSwapNoneAndExternalSF2 => 0x16,
            FlashPinCfg::EmbeddedSwapNoneDualIO0AndExternalSF2 => 0x17,
            FlashPinCfg::Invalid => 0x1f,
        }
    }

    /// The known codes decode to their configuration, any other to `Invalid`.
    pub open spec fn spec_from_bits(value: u64) -> Self {
        if value == 0x00 {
            FlashPinCfg::EmbeddedSwapIO0IO3
        } else if value == 0x01 {
            FlashPinCfg::EmbeddedSwapDualIO0IO3
        } else if value == 0x02 {
            FlashPinCfg::EmbeddedSwapNone
        } else if value == 0x03 {
            FlashPinCfg::EmbeddedSwapNoneDualIO0
        } else if value == 0x04 {
            FlashPinCfg::ExternalSF2
        } else if value == 0x14 {
            FlashPinCfg::EmbeddedSwapIO0IO3AndExternalSF2
        } else if value == 0x15 {
            FlashPinCfg::EmbeddedSwapDualIO0IO3AndExternalSF2
        } else if value == 0x16 {
            FlashPinCfg::EmbeddedSwapNoneAndExternalSF2
        } else if value == 0x17 {
            FlashPinCfg::EmbeddedSwapNoneDualIO0AndExternalSF2
        } else {
            FlashPinCfg::Invalid
        }
    }

    pub fn into_bits(self) -> (r: u64)
        ensures
            r == self.spec_bits(),
    {
        match self {
            FlashPinCfg::EmbeddedSwapIO0IO3 => 0x00,
            FlashPinCfg::EmbeddedSwapDualIO0IO3 => 0x01,
            FlashPinCfg::EmbeddedSwapNone => 0x02,
            FlashPinCfg::EmbeddedSwapNoneDualIO0 => 0x03,
            FlashPinCfg::ExternalSF2 => 0x04,
            FlashPinCfg::EmbeddedSwapIO0IO3AndExternalSF2 => 0x14,
            FlashPinCfg::EmbeddedSwapDualIO0IO3AndExternalSF2 => 0x15,
            FlashPinCfg::EmbeddedSwapNoneAndExternalSF2 => 0x16,
            FlashPinCfg::EmbeddedSwapNoneDualIO0AndExternalSF2 => 0x17,
            FlashPinCfg::Invalid => 0x1f,
        }
    }

    pub fn from_bits(value: u64) -> (r: Self)
        ensures
            r == Self::spec_from_bits(value),
    {
        match value {
            0x00 => FlashPinCfg::EmbeddedSwapIO0IO3,
            0x01 => FlashPinCfg::EmbeddedSwapDualIO0IO3,
            0x02 => FlashPinCfg::EmbeddedSwapNone,
            0x03 => FlashPinCfg::EmbeddedSwapNoneDualIO0,
            0x04 => FlashPinCfg::ExternalSF2,
            0x14 => FlashPinCfg::EmbeddedSwapIO0IO3AndExternalSF2,
            0x15 => FlashPinCfg::EmbeddedSwapDualIO0IO3AndExternalSF2,
            0x16 => FlashPinCfg::EmbeddedSwapNoneAndExternalSF2,
            0x17 => FlashPinCfg::EmbeddedSwapNoneDualIO0AndExternalSF2,
            _ => FlashPinCfg::Invalid,
        }
    }
}

/// Time to wait between configuring and sampling the bootloader entry pin.
#[derive(Clone, Copy, Debug, PartialEq, Eq, Structural)]
pub enum BootPinDelay {
    Delay5us,
    Delay10us,
    Delay100us,
    Delay500us,
}

impl BootPinDelay {
    pub open spec fn spec_bits(self) -> u64 {
        match self {
            BootPinDelay::Delay5us => 0,
            BootPinDelay::Delay10us => 1,
            BootPinDelay::Delay100us => 2,
            BootPinDelay::Delay500us => 3,
        }
    }

    pub fn into_bits(self) -> (r: u64)
        ensures
            r == self.spec_bits(),
    {
        match self {
            BootPinDelay::Delay5us => 0,
            BootPinDelay::Delay10us => 1,
            BootPinDelay::Delay100us => 2,
            BootPinDelay::Delay500us => 3,
        }
    }

    /// Decodes the two-bit field.
    pub fn from_bits(value: u64) -> (r: Self)
        requires
            value < 4,
        ensures
            r.spec_bits() == value,
    {
        match value {
            0 => BootPinDelay::Delay5us,
            1 => BootPinDelay::Delay10us,
            2 => BootPinDelay::Delay100us,
            _ => BootPinDelay::Delay500us,
        }
    }

    /// The delay in microseconds.
    pub fn micros(self) -> (r: u32)
        ensures
            r == match self {
                BootPinDelay::Delay5us => 5u32,
                BootPinDelay::Delay10us => 10u32,
                BootPinDelay::Delay100us => 100u32,
                BootPinDelay::Delay500us => 500u32,
            },
    {
        match self {
            BootPinDelay::Delay5us => 5,
            BootPinDelay::Delay10us => 10,
            BootPinDelay::Delay100us => 100,
            BootPinDelay::Delay500us => 500,
        }
    }
}

/// Main configuration word of fuse block 0.
#[derive(Clone, Copy, Debug)]
pub struct Config(pub u32);

impl Config {
    pub fn from_bits(bits: u32) -> (r: Self)
        ensures
            r.0 == bits,
    {
        Config(bits)
    }

    pub fn into_bits(self) -> (r: u32)
        ensures
            r == self.0,
    {
        self.0
    }

    pub fn spi_flash_aes_mode(self) -> (r: AesMode)
        ensures
            r.spec_bits() == get_field(self.0, 0, 0x3),
    {
        AesMode::from_bits(field(self.0, 0, 0x3) as u64)
    }

    pub fn secure_boot_enable(self) -> (r: SecureBootEnable)
        ensures
            r.spec_bits() == get_field(self.0, 4, 0x3),
    {
        SecureBootEnable::from_bits(field(self.0, 4, 0x3) as u64)
    }

    /// Also the highest bit of the PSRAM kind.
    pub fn cpu1_dis(self) -> (r: bool)
        ensures
            r == (get_field(self.0, 20, 1) == 1),
    {
        field(self.0, 20, 1) == 1
    }
}

/// Chip information: package, the low bits of the PSRAM kind, flash size and
/// silicon version.
#[derive(Clone, Copy, Debug)]
pub struct Info(pub u16);

impl Info {
    pub fn from_bits(bits: u16) -> (r: Self)
        ensures
            r.0 == bits,
    {
        Info(bits)
    }

    pub fn into_bits(self) -> (r: u16)
        ensures
            r == self.0,
    {
        self.0
    }

    pub fn package(self) -> (r: Package)
        ensures
            r == Package::spec_from_bits(get_field(self.0 as u32, 6, 0x7) as u64),
    {
        Package::from_bits(field(self.0 as u32, 6, 0x7) as u64)
    }

    pub fn psram_low(self) -> (r: u8)
        ensures
            r == get_field(self.0 as u32, 9, 0x3),
    {
        field(self.0 as u32, 9, 0x3) as u8
    }

    pub fn flash(self) -> (r: Flash)
        ensures
            r == Flash::spec_from_bits(get_field(self.0 as u32, 11, 0x3) as u64),
    {
        Flash::from_bits(field(self.0 as u32, 11, 0x3) as u64)
    }

    pub fn version(self) -> (r: u8)
        ensures
            r == get_field(self.0 as u32, 13, 0x7),
    {
        field(self.0 as u32, 13, 0x7) as u8
    }
}

/// Wi-Fi MAC address in the low 48 bits, chip information in the high 16.
#[derive(Clone, Copy, Debug)]
pub struct WifiMacAndInfo(pub u64);

impl WifiMacAndInfo {
    pub fn from_bits(bits: u64) -> (r: Self)
        ensures
            r.0 == bits,
    {
        WifiMacAndInfo(bits)
    }

    pub fn into_bits(self) -> (r: u64)
        ensures
            r == self.0,
    {
        self.0
    }

    pub fn mac_addr(self) -> (r: u64)
        ensures
            r == self.0 & 0xffff_ffff_ffff,
    {
        self.0 & 0xffff_ffff_ffff
    }

    pub fn info(self) -> (r: Info)
        ensures
            r.0 == (self.0 >> 48u64) as u16,
    {
        Info((self.0 >> 48u64) as u16)
    }
}

/// First software configuration word: boot ROM, boot pin, UART and flash
/// pin settings.
#[derive(Clone, Copy, Debug)]
pub struct SwConfig0(pub u32);

/// Bit of the software configuration word that turns the mask ROM's log on
/// again.
pub const UART_LOG_REOPEN_BIT: u32 = 7;

impl SwConfig0 {
    pub fn new() -> (r: Self)
        ensures
            r.0 == 0,
    {
        SwConfig0(0)
    }

    pub fn from_bits(bits: u32) -> (r: Self)
        ensures
            r.0 == bits,
    {
        SwConfig0(bits)
    }

    pub fn into_bits(self) -> (r: u32)
        ensures
            r == self.0,
    {
        self.0
    }

    pub fn uart_log_reopen(self) -> (r: bool)
        ensures
            r == (get_field(self.0, UART_LOG_REOPEN_BIT, 1) == 1),
    {
        field(self.0, UART_LOG_REOPEN_BIT, 1) == 1
    }

    pub fn with_uart_log_reopen(self, v: bool) -> (r: Self)
        ensures
            r.0 == set_field(self.0, UART_LOG_REOPEN_BIT, 1, v as u32),
    {
        SwConfig0(with_field(self.0, UART_LOG_REOPEN_BIT, 1, v as u32))
    }

    /// The five-bit flash pin code, as stored.
    pub open spec fn spec_flash_pin_bits(self) -> u32 {
        get_field(self.0, 14, 0x1f)
    }

    pub fn spi_flash_pin_cfg(self) -> (r: FlashPinCfg)
        ensures
            r == FlashPinCfg::spec_from_bits(self.spec_flash_pin_bits() as u64),
    {
        FlashPinCfg::from_bits(field(self.0, 14, 0x1f) as u64)
    }

    pub fn boot_pin_delay(self) -> (r: BootPinDelay)
        ensures
            r.spec_bits() == get_field(self.0, 20, 0x3),
    {
        BootPinDelay::from_bits(field(self.0, 20, 0x3) as u64)
    }
}

/// Second software configuration word: crystal, PLL and clock settings.
#[derive(Clone, Copy, Debug)]
pub struct SwConfig1(pub u32);

impl SwConfig1 {
    pub fn from_bits(bits: u32) -> (r: Self)
        ensures
            r.0 == bits,
    {
        SwConfig1(bits)
    }

    pub fn into_bits(self) -> (r: u32)
        ensures
            r == self.0,
    {
        self.0
    }
}

/// The four software configuration words.
#[derive(Clone, Copy, Debug)]
pub struct SwConfig {
    pub sw_config0: SwConfig0,
    pub sw_config1: SwConfig1,
    pub sw_config2: u32,
    pub sw_config3: u32,
}

impl SwConfig {
    pub open spec fn spec_bytes(&self) -> Seq<u8> {
        le32(self.sw_config0.0) + le32(self.sw_config1.0) + le32(self.sw_config2) + le32(
            self.sw_config3,
        )
    }
}

/// Read and write locks of fuse block 0.
#[derive(Clone, Copy, Debug)]
pub struct Data0Lock(pub u32);

/// Read and write locks of fuse block 1.
#[derive(Clone, Copy, Debug)]
pub struct Data1Lock(pub u32);

/// Size of a fuse block.
pub const EFUSE_BLOCK_SIZE: usize = 128;

/// Fuse block 0: configuration, debug passwords, MAC and chip information,
/// keys, software configuration and locks.
#[derive(Clone, Debug)]
pub struct EfuseBlock0 {
    pub config: Config,
    pub debug_password1: u64,
    pub debug_password2: u64,
    pub wifi_mac_x: WifiMacAndInfo,
    pub key0: Vec<u8>,
    pub key1: Vec<u8>,
    pub key2: Vec<u8>,
    pub key3: Vec<u8>,
    pub sw_config: SwConfig,
    pub key11: Vec<u8>,
    pub lock: Data0Lock,
}

impl EfuseBlock0 {
    pub open spec fn spec_bytes(&self) -> Seq<u8> {
        le32(self.config.0) + le64(self.debug_password1) + le64(self.debug_password2) + le64(
            self.wifi_mac_x.0,
        ) + self.key0@ + self.key1@ + self.key2@ + self.key3@ + self.sw_config.spec_bytes()
            + self.key11@ + le32(self.lock.0)
    }

    /// Decodes a fuse block; fails unless it is exactly `EFUSE_BLOCK_SIZE`
    /// bytes long.
    #[verifier::rlimit(40)]
    pub fn from_bytes(b: &[u8]) -> (r: Result<Self, LoaderError>)
        ensures
            r is Ok <==> b@.len() == EFUSE_BLOCK_SIZE,
            r matches Ok(e) ==> e.spec_bytes() == b@,
            r matches Err(e) ==> e == (LoaderError::RecordSize {
                expected: EFUSE_BLOCK_SIZE,
                actual: b@.len() as usize,
            }),
    {
        if b.len() != EFUSE_BLOCK_SIZE {
            return Err(LoaderError::RecordSize { expected: EFUSE_BLOCK_SIZE, actual: b.len() });
        }
        let e = EfuseBlock0 {
            config: Config(read_le32(b, 0)),
            debug_password1: read_le64(b, 4),
            debug_password2: read_le64(b, 12),
            wifi_mac_x: WifiMacAndInfo(read_le64(b, 20)),
            key0: read_bytes(b, 28, 16),
            key1: read_bytes(b, 44, 16),
            key2: read_bytes(b, 60, 16),
            key3: read_bytes(b, 76, 16),
            sw_config: SwConfig {
                sw_config0: SwConfig0(read_le32(b, 92)),
                sw_config1: SwConfig1(read_le32(b, 96)),
                sw_config2: read_le32(b, 100),
                sw_config3: read_le32(b, 104),
            },
            key11: read_bytes(b, 108, 16),
            lock: Data0Lock(read_le32(b, 124)),
        };
        assert(e.sw_config.spec_bytes() =~= b@.subrange(92, 108));
        assert(e.spec_bytes() =~= b@);
        Ok(e)
    }

    /// PSRAM kind: the three-bit value whose high bit is `cpu1_dis` of the
    /// configuration word and whose low bits are `psram_low` of the chip
    /// information.
    pub fn psram(&self) -> (r: Psram)
        ensures
            r == Psram::spec_from_bits(
                ((if get_field(self.config.0, 20, 1) == 1 {
                    4u64
                } else {
                    0u64
                }) + get_field(((self.wifi_mac_x.0 >> 48u64) as u16) as u32, 9, 0x3)) as u64,
            ),
    {
        let high: u64 = if self.config.cpu1_dis() {
            4
        } else {
            0
        };
        let low = self.wifi_mac_x.info().psram_low();
        Psram::from_u64(high + low as u64)
    }
}

/// Fuse block 1: keys, reserved words and locks.
#[derive(Clone, Debug)]
pub struct EfuseBlock1 {
    pub key4: Vec<u8>,
    pub key5: Vec<u8>,
    pub key6: Vec<u8>,
    pub key7: Vec<u8>,
    pub key8: Vec<u8>,
    pub key9: Vec<u8>,
    pub key10: Vec<u8>,
    pub reserved0: u32,
    pub reserved1: u32,
    pub reserved2: u32,
    pub lock: Data1Lock,
}

impl EfuseBlock1 {
    pub open spec fn spec_bytes(&self) -> Seq<u8> {
        self.key4@ + self.key5@ + self.key6@ + self.key7@ + self.key8@ + self.key9@ + self.key10@
            + le32(self.reserved0) + le32(self.reserved1) + le32(self.reserved2) + le32(
            self.lock.0,
        )
    }

    /// Decodes a fuse block; fails unless it is exactly `EFUSE_BLOCK_SIZE`
    /// bytes long.
    #[verifier::rlimit(40)]
    pub fn from_bytes(b: &[u8]) -> (r: Result<Self, LoaderError>)
        ensures
            r is Ok <==> b@.len() == EFUSE_BLOCK_SIZE,
            r matches Ok(e) ==> e.spec_bytes() == b@,
            r matches Err(e) ==> e == (LoaderError::RecordSize {
                expected: EFUSE_BLOCK_SIZE,
                actual: b@.len() as usize,
            }),
    {
        if b.len() != EFUSE_BLOCK_SIZE {
            return Err(LoaderError::RecordSize { expected: EFUSE_BLOCK_SIZE, actual: b.len() });
        }
        let e = EfuseBlock1 {
            key4: read_bytes(b, 0, 16),
            key5: read_bytes(b, 16, 16),
            key6: read_bytes(b, 32, 16),
            key7: read_bytes(b, 48, 16),
            key8: read_bytes(b, 64, 16),
            key9: read_bytes(b, 80, 16),
            key10: read_bytes(b, 96, 16),
            reserved0: read_le32(b, 112),
            reserved1: read_le32(b, 116),
            reserved2: read_le32(b, 120),
            lock: Data1Lock(read_le32(b, 124)),
        };
        assert(e.spec_bytes() =~= b@);
        Ok(e)
    }
}

} // verus!
