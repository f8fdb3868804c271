//! SD card protocol model: a per-card state machine that accepts 6-bit
//! commands with a 32-bit argument and produces a typed response, mutating
//! the card status register according to the SD physical-layer command set.
//!
//! The backing image is held as plain bytes; the embedding program reads the
//! image file and hands its contents to `mount`.
use vstd::prelude::*;

use crate::RuntimeError;
use crate::peripherals::aic::nth_bit32;

verus! {

/// The card state machine's 16 states (4-bit encoding inside the status
/// register; encodings 10 through 15 are reserved).
#[derive(Debug, Clone, Copy, PartialEq, Eq, Structural)]
pub enum CurrentState {
    /// Card is partially powered on and waiting for power mode selection.
    Idle,
    /// Card is fully powered on and waiting for address configuration.
    Ready,
    /// Card has identified itself and waits for further address configuration.
    Identification,
    /// Card is configured but unselected.
    StandBy,
    /// Card is configured and selected.
    Transfer,
    /// Card is sending data to the host.
    SendingData,
    /// Card is receiving data from the host.
    ReceivingData,
    /// Card is selected and writing data to the storage backend.
    Programming,
    /// Card is unselected and writing data to the storage backend.
    Disconnect,
    /// Card is powered off by the host.
    Inactive,
    Reserved10,
    Reserved11,
    Reserved12,
    Reserved13,
    Reserved14,
    Reserved15,
}

impl CurrentState {
    /// The 4-bit encoding of this state in the status register.
    pub open spec fn spec_encoding(self) -> u32 {
        match self {
            CurrentState::Idle => 0,
            CurrentState::Ready => 1,
            CurrentState::Identification => 2,
            CurrentState::StandBy => 3,
            CurrentState::Transfer => 4,
            CurrentState::SendingData => 5,
            CurrentState::ReceivingData => 6,
            CurrentState::Programming => 7,
            CurrentState::Disconnect => 8,
            CurrentState::Inactive => 9,
            CurrentState::Reserved10 => 10,
            CurrentState::Reserved11 => 11,
            CurrentState::Reserved12 => 12,
            CurrentState::Reserved13 => 13,
            CurrentState::Reserved14 => 14,
            CurrentState::Reserved15 => 15,
        }
    }

    /// The state a 4-bit encoding denotes; reserved encodings map to the
    /// explicit reserved variants.
    pub open spec fn spec_from_encoding(v: u32) -> CurrentState {
        if v == 0 {
            CurrentState::Idle
        } else if v == 1 {
            CurrentState::Ready
        } else if v == 2 {
            CurrentState::Identification
        } else if v == 3 {
            CurrentState::StandBy
        } else if v == 4 {
            CurrentState::Transfer
        } else if v == 5 {
            CurrentState::SendingData
        } else if v == 6 {
            CurrentState::ReceivingData
        } else if v == 7 {
            CurrentState::Programming
        } else if v == 8 {
            CurrentState::Disconnect
        } else if v == 9 {
            CurrentState::Inactive
        } else if v == 10 {
            CurrentState::Reserved10
        } else if v == 11 {
            CurrentState::Reserved11
        } else if v == 12 {
            CurrentState::Reserved12
        } else if v == 13 {
            CurrentState::Reserved13
        } else if v == 14 {
            CurrentState::Reserved14
        } else {
            CurrentState::Reserved15
        }
    }

    /// Executable form of `spec_encoding`.
    pub fn encoding(self) -> (r: u32)
        ensures
            r == self.spec_encoding(),
            r < 16,
    {
        match self {
            CurrentState::Idle => 0,
            CurrentState::Ready => 1,
            CurrentState::Identification => 2,
            CurrentState::StandBy => 3,
            CurrentState::Transfer => 4,
            CurrentState::SendingData => 5,
            CurrentState::ReceivingData => 6,
            CurrentState::Programming => 7,
            CurrentState::Disconnect => 8,
            CurrentState::Inactive => 9,
            CurrentState::Reserved10 => 10,
            CurrentState::Reserved11 => 11,
            CurrentState::Reserved12 => 12,
            CurrentState::Reserved13 => 13,
            CurrentState::Reserved14 => 14,
            CurrentState::Reserved15 => 15,
        }
    }

    /// Executable form of `spec_from_encoding`.
    pub fn from_encoding(v: u32) -> (r: CurrentState)
        ensures
            r == CurrentState::spec_from_encoding(v),
    {
        if v == 0 {
            CurrentState::Idle
        } else if v == 1 {
            CurrentState::Ready
        } else if v == 2 {
            CurrentState::Identification
        } else if v == 3 {
            CurrentState::StandBy
        } else if v == 4 {
            CurrentState::Transfer
        } else if v == 5 {
            CurrentState::SendingData
        } else if v == 6 {
            CurrentState::ReceivingData
        } else if v == 7 {
            CurrentState::Programming
        } else if v == 8 {
            CurrentState::Disconnect
        } else if v == 9 {
            CurrentState::Inactive
        } else if v == 10 {
            CurrentState::Reserved10
        } else if v == 11 {
            CurrentState::Reserved11
        } else if v == 12 {
            CurrentState::Reserved12
        } else if v == 13 {
            CurrentState::Reserved13
        } else if v == 14 {
            CurrentState::Reserved14
        } else {
            CurrentState::Reserved15
        }
    }
}

/// Law: the state/encoding mapping is a bijection in both directions over
/// the 4-bit range.
pub proof fn lemma_state_encoding_round_trip()
    ensures
        forall|s: CurrentState| CurrentState::spec_from_encoding(#[trigger] s.spec_encoding()) == s,
        forall|v: u32|
            v < 16 ==> (#[trigger] CurrentState::spec_from_encoding(v)).spec_encoding() == v,
{
}

/// Status bits that self-clear when the status register has been read:
/// out-of-range/address/block-length/erase errors (bits 26 through 31),
/// lock failure (24), general/controller/ecc errors (19 through 21),
/// write-protect and CSD-overwrite (15 and 16), erase-reset (13),
/// application-command latch (5) and authentication-sequence error (3).
pub const STATUS_CLEAR_ON_READ: u32 = 0xfd39a028;

/// Position of the application-command latch bit.
pub const STATUS_APP_COMMAND_BIT: u32 = 5;

/// Position of the illegal-command error bit.
pub const STATUS_ILLEGAL_COMMAND_BIT: u32 = 22;

/// Position of the block-length error bit.
pub const STATUS_BLOCK_LEN_ERROR_BIT: u32 = 29;

/// Lowest of the four bits holding the current state.
pub const STATUS_STATE_SHIFT: u32 = 9;

/// The 32-bit card status register (the R1 response payload): 20+
/// independently named flag bits plus the 4-bit current state in bits 9
/// through 12.
#[derive(Debug, Clone, Copy, PartialEq, Eq, Structural)]
pub struct CardStatus {
    pub bits: u32,
}

/// `bits` with bit `n` forced to `v`.
pub open spec fn spec_with_bit(bits: u32, n: u32, v: bool) -> u32
    recommends
        n < 32,
{
    if v {
        bits | (1u32 << n)
    } else {
        bits & !(1u32 << n)
    }
}

/// `bits` with the 4-bit current-state field replaced by the encoding of `s`.
pub open spec fn spec_with_state(bits: u32, s: CurrentState) -> u32 {
    (bits & !(0xfu32 << STATUS_STATE_SHIFT)) | (s.spec_encoding() << STATUS_STATE_SHIFT)
}

/// The status bits after a status read: the clear-on-read subset drops.
pub open spec fn spec_after_read(bits: u32) -> u32 {
    bits & !STATUS_CLEAR_ON_READ
}

impl Default for CardStatus {
    /// A fresh card: all flags clear, state Idle.
    fn default() -> (r: Self)
        ensures
            r.bits == 0,
    {
        CardStatus { bits: 0 }
    }
}

impl CardStatus {
    /// The current card state held in bits 9 through 12.
    pub open spec fn spec_current_state(&self) -> CurrentState {
        CurrentState::spec_from_encoding((self.bits >> STATUS_STATE_SHIFT) & 0xf)
    }

    /// Whether the application-command latch (bit 5) is set.
    pub open spec fn spec_app_command(&self) -> bool {
        nth_bit32(self.bits, STATUS_APP_COMMAND_BIT)
    }

    /// Whether the illegal-command error bit (22) is set.
    pub open spec fn spec_illegal_command(&self) -> bool {
        nth_bit32(self.bits, STATUS_ILLEGAL_COMMAND_BIT)
    }

    /// Whether the block-length error bit (29) is set.
    pub open spec fn spec_block_len_error(&self) -> bool {
        nth_bit32(self.bits, STATUS_BLOCK_LEN_ERROR_BIT)
    }

    pub fn get_current_state(&self) -> (r: CurrentState)
        ensures
            r == self.spec_current_state(),
    {
        CurrentState::from_encoding((self.bits >> STATUS_STATE_SHIFT) & 0xf)
    }

    pub fn set_current_state(&mut self, s: CurrentState)
        ensures
            final(self).bits == spec_with_state(old(self).bits, s),
    {
        self.bits = (self.bits & !(0xfu32 << STATUS_STATE_SHIFT)) | (s.encoding()
            << STATUS_STATE_SHIFT);
    }

    pub fn get_app_command(&self) -> (r: bool)
        ensures
            r == self.spec_app_command(),
    {
        (self.bits >> STATUS_APP_COMMAND_BIT) & 1 == 1
    }

    pub fn set_app_command(&mut self, v: bool)
        ensures
            final(self).bits == spec_with_bit(old(self).bits, STATUS_APP_COMMAND_BIT, v),
    {
        if v {
            self.bits = self.bits | (1u32 << STATUS_APP_COMMAND_BIT);
        } else {
            self.bits = self.bits & !(1u32 << STATUS_APP_COMMAND_BIT);
        }
    }

    pub fn set_illegal_command(&mut self, v: bool)
        ensures
            final(self).bits == spec_with_bit(old(self).bits, STATUS_ILLEGAL_COMMAND_BIT, v),
    {
        if v {
            self.bits = self.bits | (1u32 << STATUS_ILLEGAL_COMMAND_BIT);
        } else {
            self.bits = self.bits & !(1u32 << STATUS_ILLEGAL_COMMAND_BIT);
        }
    }

    pub fn get_illegal_command(&self) -> (r: bool)
        ensures
            r == self.spec_illegal_command(),
    {
        (self.bits >> STATUS_ILLEGAL_COMMAND_BIT) & 1 == 1
    }

    pub fn set_block_len_error(&mut self, v: bool)
        ensures
            final(self).bits == spec_with_bit(old(self).bits, STATUS_BLOCK_LEN_ERROR_BIT, v),
    {
        if v {
            self.bits = self.bits | (1u32 << STATUS_BLOCK_LEN_ERROR_BIT);
        } else {
            self.bits = self.bits & !(1u32 << STATUS_BLOCK_LEN_ERROR_BIT);
        }
    }

    pub fn get_block_len_error(&self) -> (r: bool)
        ensures
            r == self.spec_block_len_error(),
    {
        (self.bits >> STATUS_BLOCK_LEN_ERROR_BIT) & 1 == 1
    }

    /// Perform the clear-on-read step: return the status as it stood before
    /// the read, then drop the self-clearing subset of bits. The current
    /// state field is not part of that subset and survives.
    pub fn after_read(&mut self) -> (r: CardStatus)
        ensures
            r == *old(self),
            final(self).bits == spec_after_read(old(self).bits),
    {
        let before_clear = CardStatus { bits: self.bits };
        self.bits = self.bits & !STATUS_CLEAR_ON_READ;
        before_clear
    }
}

/// Clearing on read keeps the current state: the state field does not
/// intersect the self-clearing subset.
pub proof fn lemma_after_read_keeps_state(bits: u32)
    ensures
        (spec_after_read(bits) >> STATUS_STATE_SHIFT) & 0xf == (bits >> STATUS_STATE_SHIFT) & 0xf,
{
    assert(((bits & !0xfd39a028u32) >> 9) & 0xf == (bits >> 9) & 0xf) by (bit_vector);
}

} // verus!

verus! {

/// A mask of `width` low bits (width between 1 and 127).
pub open spec fn csd_mask(width: u32) -> u128
    recommends
        0 < width < 128,
{
    ((1u128 << width) - 1) as u128
}

/// `bits` with the `width`-bit field at offset `lo` replaced by `v`.
pub open spec fn spec_csd_with(bits: u128, lo: u32, width: u32, v: u128) -> u128
    recommends
        lo < 128,
        0 < width,
        lo + width <= 128,
{
    (bits & !(csd_mask(width) << lo)) | ((v & csd_mask(width)) << lo)
}

fn csd_with(bits: u128, lo: u32, width: u32, v: u128) -> (r: u128)
    requires
        lo < 128,
        0 < width < 128,
        lo + width <= 128,
    ensures
        r == spec_csd_with(bits, lo, width, v),
{
    proof {
        assert(1u128 << width >= 1) by (bit_vector)
            requires
                width < 128,
        ;
    }
    let mask = (1u128 << width) - 1;
    (bits & !(mask << lo)) | ((v & mask) << lo)
}

/// Byte `i` (big-endian order) of a 128-bit register value.
pub open spec fn spec_be_byte(bits: u128, i: int) -> u8
    recommends
        0 <= i < 16,
{
    ((bits >> ((120 - 8 * i) as u128)) & 0xff) as u8
}

/// The 16 bytes of a 128-bit register value, most significant first.
pub open spec fn spec_be_bytes(bits: u128) -> Seq<u8> {
    Seq::new(16, |i: int| spec_be_byte(bits, i))
}

/// Card-specific data for a standard-capacity card, as the packed 128-bit
/// register. Field offsets follow the CSD version 1.0 layout; the device
/// size sits in bits 62 through 73.
#[derive(Debug, Clone, Copy, PartialEq, Eq, Structural)]
pub struct CardSpecificSC {
    pub bits: u128,
}

/// Card-specific data for a high-capacity card (CSD version 2.0); the
/// device size sits in bits 48 through 69.
#[derive(Debug, Clone, Copy, PartialEq, Eq, Structural)]
pub struct CardSpecificHC {
    pub bits: u128,
}

/// The standard-capacity CSD before the size field is filled in:
/// 25 MHz transfer speed, command classes 0x5b5, 1024-byte partial-capable
/// block length, 512x size multiplier, 4x read-to-write factor, 64 KiB
/// erase sectors, mid-range supply currents.
pub open spec fn spec_csd_sc_default() -> u128 {
    let b = 0u128;
    let b = spec_csd_with(b, 126, 2, 0);  // csd_structure: version 1.0
    let b = spec_csd_with(b, 0, 1, 1);  // tail bit
    let b = spec_csd_with(b, 96, 8, 0x032);  // tran_speed: 25 MHz
    let b = spec_csd_with(b, 84, 12, 0x5b5);  // ccc
    let b = spec_csd_with(b, 79, 1, 1);  // read_bl_partial
    let b = spec_csd_with(b, 21, 1, 1);  // write_bl_partial
    let b = spec_csd_with(b, 80, 4, 0xa);  // read_bl_len: 1024 bytes
    let b = spec_csd_with(b, 22, 4, 0xa);  // write_bl_len: 1024 bytes
    let b = spec_csd_with(b, 47, 3, 0x7);  // c_size_mult: 512x
    let b = spec_csd_with(b, 26, 3, 0x2);  // r2w_factor: 4x
    let b = spec_csd_with(b, 46, 1, 1);  // erase_blk_en
    let b = spec_csd_with(b, 39, 7, 0x7f);  // sector_size: 64 KiB
    let b = spec_csd_with(b, 59, 3, 0x7);  // vdd_r_curr_min
    let b = spec_csd_with(b, 56, 3, 0x7);  // vdd_r_curr_max
    let b = spec_csd_with(b, 53, 3, 0x7);  // vdd_w_curr_min
    let b = spec_csd_with(b, 50, 3, 0x7);  // vdd_w_curr_max
    b
}

/// The high-capacity CSD before the size field is filled in: version 2.0
/// structure, 1 ms access time, 25 MHz transfer speed, command classes
/// 0x5b5, 512-byte block length, 64 KiB erase sectors.
pub open spec fn spec_csd_hc_default() -> u128 {
    let b = 0u128;
    let b = spec_csd_with(b, 126, 2, 1);  // csd_structure: version 2.0
    let b = spec_csd_with(b, 0, 1, 1);  // tail bit
    let b = spec_csd_with(b, 112, 8, 0xe);  // taac: 1 ms
    let b = spec_csd_with(b, 96, 8, 0x032);  // tran_speed: 25 MHz
    let b = spec_csd_with(b, 84, 12, 0x5b5);  // ccc
    let b = spec_csd_with(b, 80, 4, 0x9);  // read_bl_len: 512 bytes
    let b = spec_csd_with(b, 22, 4, 0x9);  // write_bl_len: 512 bytes
    let b = spec_csd_with(b, 26, 3, 0x2);  // r2w_factor: 4x
    let b = spec_csd_with(b, 46, 1, 1);  // erase_blk_en
    let b = spec_csd_with(b, 39, 7, 0x7f);  // sector_size: 64 KiB
    b
}

impl CardSpecificSC {
    fn default_reg() -> (r: Self)
        ensures
            r.bits == spec_csd_sc_default(),
    {
        let b = 0u128;
        let b = csd_with(b, 126, 2, 0);
        let b = csd_with(b, 0, 1, 1);
        let b = csd_with(b, 96, 8, 0x032);
        let b = csd_with(b, 84, 12, 0x5b5);
        let b = csd_with(b, 79, 1, 1);
        let b = csd_with(b, 21, 1, 1);
        let b = csd_with(b, 80, 4, 0xa);
        let b = csd_with(b, 22, 4, 0xa);
        let b = csd_with(b, 47, 3, 0x7);
        let b = csd_with(b, 26, 3, 0x2);
        let b = csd_with(b, 46, 1, 1);
        let b = csd_with(b, 39, 7, 0x7f);
        let b = csd_with(b, 59, 3, 0x7);
        let b = csd_with(b, 56, 3, 0x7);
        let b = csd_with(b, 53, 3, 0x7);
        let b = csd_with(b, 50, 3, 0x7);
        CardSpecificSC { bits: b }
    }
}

impl CardSpecificHC {
    fn default_reg() -> (r: Self)
        ensures
            r.bits == spec_csd_hc_default(),
    {
        let b = 0u128;
        let b = csd_with(b, 126, 2, 1);
        let b = csd_with(b, 0, 1, 1);
        let b = csd_with(b, 112, 8, 0xe);
        let b = csd_with(b, 96, 8, 0x032);
        let b = csd_with(b, 84, 12, 0x5b5);
        let b = csd_with(b, 80, 4, 0x9);
        let b = csd_with(b, 22, 4, 0x9);
        let b = csd_with(b, 26, 3, 0x2);
        let b = csd_with(b, 46, 1, 1);
        let b = csd_with(b, 39, 7, 0x7f);
        CardSpecificHC { bits: b }
    }
}

/// Capacity-dependent card-specific data: standard-capacity or
/// high-capacity layout, selected once at mount time from the image size.
#[derive(Debug, Clone, Copy, PartialEq, Eq, Structural)]
pub enum CardSpecific {
    SC(CardSpecificSC),
    HC(CardSpecificHC),
}

/// Largest image size (bytes) served by the standard-capacity layout.
pub const SDSC_MAX_CAPACITY: u64 = 0x80000000;

/// Smallest mountable image: one 512 KiB capacity unit.
pub const SD_MIN_CAPACITY: u64 = 0x80000;

/// Largest mountable image: the high-capacity size field holds 22 bits of
/// 512 KiB units.
pub const SD_MAX_CAPACITY: u64 = 0x20000000000;

/// The CSD register chosen for an image of `size` bytes: high-capacity
/// above `SDSC_MAX_CAPACITY`, standard-capacity otherwise, with the size
/// field holding the count of 512 KiB units minus one.
pub open spec fn spec_csd_for_size(size: u64) -> CardSpecific
    recommends
        SD_MIN_CAPACITY <= size <= SD_MAX_CAPACITY,
{
    if size > SDSC_MAX_CAPACITY {
        CardSpecific::HC(
            CardSpecificHC {
                bits: spec_csd_with(spec_csd_hc_default(), 48, 22, (size / 1024 / 512 - 1) as u128),
            },
        )
    } else {
        CardSpecific::SC(
            CardSpecificSC {
                bits: spec_csd_with(spec_csd_sc_default(), 62, 12, (size / 1024 / 512 - 1) as u128),
            },
        )
    }
}

impl CardSpecific {
    /// Whether this is the high-capacity layout.
    pub fn is_sdhc(&self) -> (r: bool)
        ensures
            r == (self is HC),
    {
        match self {
            CardSpecific::SC(_) => false,
            CardSpecific::HC(_) => true,
        }
    }

    /// The packed 128-bit register, whichever layout is in use.
    pub open spec fn spec_bits(self) -> u128 {
        match self {
            CardSpecific::SC(c) => c.bits,
            CardSpecific::HC(c) => c.bits,
        }
    }

    /// Build the CSD for a backing image of `size` bytes.
    pub fn init_with_size(size: u64) -> (r: Self)
        requires
            SD_MIN_CAPACITY <= size <= SD_MAX_CAPACITY,
        ensures
            r == spec_csd_for_size(size),
    {
        if size > SDSC_MAX_CAPACITY {
            let units = size / 1024 / 512;
            let mut reg = CardSpecificHC::default_reg();
            reg.bits = csd_with(reg.bits, 48, 22, (units - 1) as u128);
            CardSpecific::HC(reg)
        } else {
            let units = size / 1024 / 512;
            let mut reg = CardSpecificSC::default_reg();
            reg.bits = csd_with(reg.bits, 62, 12, (units - 1) as u128);
            CardSpecific::SC(reg)
        }
    }

    /// The register as 16 bytes, most significant first.
    pub fn as_bytes(&self) -> (r: [u8; 16])
        ensures
            r@ == spec_be_bytes(self.spec_bits()),
    {
        let b = match self {
            CardSpecific::SC(c) => c.bits,
            CardSpecific::HC(c) => c.bits,
        };
        let out: [u8; 16] = [
            ((b >> 120) & 0xff) as u8,
            ((b >> 112) & 0xff) as u8,
            ((b >> 104) & 0xff) as u8,
            ((b >> 96) & 0xff) as u8,
            ((b >> 88) & 0xff) as u8,
            ((b >> 80) & 0xff) as u8,
            ((b >> 72) & 0xff) as u8,
            ((b >> 64) & 0xff) as u8,
            ((b >> 56) & 0xff) as u8,
            ((b >> 48) & 0xff) as u8,
            ((b >> 40) & 0xff) as u8,
            ((b >> 32) & 0xff) as u8,
            ((b >> 24) & 0xff) as u8,
            ((b >> 16) & 0xff) as u8,
            ((b >> 8) & 0xff) as u8,
            ((b >> 0) & 0xff) as u8,
        ];
        proof {
            assert(out@.len() == 16);
            assert(out@[0] == spec_be_byte(b, 0));
            assert(out@[1] == spec_be_byte(b, 1));
            assert(out@[2] == spec_be_byte(b, 2));
            assert(out@[3] == spec_be_byte(b, 3));
            assert(out@[4] == spec_be_byte(b, 4));
            assert(out@[5] == spec_be_byte(b, 5));
            assert(out@[6] == spec_be_byte(b, 6));
            assert(out@[7] == spec_be_byte(b, 7));
            assert(out@[8] == spec_be_byte(b, 8));
            assert(out@[9] == spec_be_byte(b, 9));
            assert(out@[10] == spec_be_byte(b, 10));
            assert(out@[11] == spec_be_byte(b, 11));
            assert(out@[12] == spec_be_byte(b, 12));
            assert(out@[13] == spec_be_byte(b, 13));
            assert(out@[14] == spec_be_byte(b, 14));
            assert(out@[15] == spec_be_byte(b, 15));
            assert(out@ =~= spec_be_bytes(self.spec_bits()));
        }
        out
    }
}

} // verus!

verus! {

/// What the next host-to-card data phase will consume.
#[derive(Debug, Clone, Copy, PartialEq, Eq, Structural)]
pub enum SendAction {
    NoAction,
    FTLWrite { sector_index: u64 },
}

/// What the next card-to-host data phase will deliver: a bulk sector read,
/// the function-status block, or the 8-byte configuration register.
#[derive(Debug, Clone, Copy, PartialEq, Eq, Structural)]
pub enum RecvAction {
    NoAction,
    FTLRead { sector_index: u64 },
    SCRRead,
    FunctionStatus { arg: u32 },
}

/// Typed command response, one of five fixed-shape variants or no response.
#[must_use]
pub enum Response {
    RNone,
    R1(ResponseType1),
    R2(ResponseType2),
    R3(ResponseType3),
    R6(ResponseType6),
    R7(ResponseType7),
}

/// Short status response: echoed command, status register, busy signal.
pub struct ResponseType1 {
    pub cmd: u8,
    pub status: CardStatus,
    pub busy: bool,
}

/// Long response carrying a 16-byte CID or CSD register.
pub struct ResponseType2 {
    pub cid_csd: [u8; 16],
}

/// Operating-condition response: OCR voltage window, capacity class,
/// power-up progress.
pub struct ResponseType3 {
    pub ocr: u32,
    pub is_sdhc: bool,
    pub power_up: bool,
}

/// Published-address response: the new relative card address plus a short
/// form of the status register.
pub struct ResponseType6 {
    pub rca: u16,
    pub status: CardStatus,
}

/// Interface-condition response: accepted voltage range and echoed check
/// pattern.
pub struct ResponseType7 {
    pub voltage_accepted: u8,
    pub check: u8,
}

/// The mathematical shape of a response, used by contracts.
pub enum ResponseModel {
    MNone,
    M1 { cmd: u8, status: u32, busy: bool },
    M2 { payload: Seq<u8> },
    M3 { ocr: u32, is_sdhc: bool, power_up: bool },
    M6 { rca: u16, status: u32 },
    M7 { voltage_accepted: u8, check: u8 },
}

impl View for Response {
    type V = ResponseModel;

    open spec fn view(&self) -> ResponseModel {
        match self {
            Response::RNone => ResponseModel::MNone,
            Response::R1(x) => ResponseModel::M1 { cmd: x.cmd, status: x.status.bits, busy: x.busy },
            Response::R2(x) => ResponseModel::M2 { payload: x.cid_csd@ },
            Response::R3(x) => ResponseModel::M3 {
                ocr: x.ocr,
                is_sdhc: x.is_sdhc,
                power_up: x.power_up,
            },
            Response::R6(x) => ResponseModel::M6 { rca: x.rca, status: x.status.bits },
            Response::R7(x) => ResponseModel::M7 {
                voltage_accepted: x.voltage_accepted,
                check: x.check,
            },
        }
    }
}

/// The card-identification register of the emulated embedded card.
pub open spec fn cid_esd() -> Seq<u8> {
    seq![
        0x00u8,
        0x45u8,
        0x6du8,
        0x49u8,
        0x6eu8,
        0x74u8,
        0x53u8,
        0x44u8,
        0x10u8,
        0xdeu8,
        0xadu8,
        0xbeu8,
        0xefu8,
        0x00u8,
        0xe1u8,
        0x6fu8,
    ]
}

fn make_cid_esd() -> (r: [u8; 16])
    ensures
        r@ == cid_esd(),
{
    let out: [u8; 16] = [
        0x00u8,
        0x45,
        0x6d,
        0x49,
        0x6e,
        0x74,
        0x53,
        0x44,
        0x10,
        0xde,
        0xad,
        0xbe,
        0xef,
        0x00,
        0xe1,
        0x6f,
    ];
    proof {
        assert(out@ =~= cid_esd());
    }
    out
}

/// One emulated SD card: protocol state, status register, relative address,
/// capacity descriptor, staged data-phase actions, and the backing image.
pub struct SD {
    pub csd: Option<CardSpecific>,
    pub card_status: CardStatus,
    pub rca: u16,
    pub selected_functions: u32,
    pub io_size: u32,
    pub mounted: bool,
    pub image: Vec<u8>,
    pub send_action: SendAction,
    pub recv_action: RecvAction,
}

impl Default for SD {
    /// An unmounted card shell: Idle state, clear status, no backing image.
    fn default() -> (r: Self)
        ensures
            r.csd is None,
            r.card_status.bits == 0,
            r.rca == 0,
            r.selected_functions == 0,
            r.io_size == 0,
            !r.mounted,
            r.image@.len() == 0,
            r.send_action == SendAction::NoAction,
            r.recv_action == RecvAction::NoAction,
    {
        SD {
            csd: None,
            card_status: CardStatus { bits: 0 },
            rca: 0,
            selected_functions: 0,
            io_size: 0,
            mounted: false,
            image: Vec::new(),
            send_action: SendAction::NoAction,
            recv_action: RecvAction::NoAction,
        }
    }
}

/// Whether a capacity descriptor marks a high-capacity card; an absent
/// descriptor counts as standard capacity.
pub open spec fn spec_is_sdhc(csd: Option<CardSpecific>) -> bool {
    match csd {
        Some(c) => c is HC,
        None => false,
    }
}

/// Reject a command that is illegal in the current state: set the
/// illegal-command status bit, change nothing else, and give no response.
pub open spec fn sd_illegal(pre: SD) -> (SD, ResponseModel) {
    (
        SD {
            card_status: CardStatus {
                bits: spec_with_bit(pre.card_status.bits, STATUS_ILLEGAL_COMMAND_BIT, true),
            },
            ..pre
        },
        ResponseModel::MNone,
    )
}

/// Reject an application command: as `sd_illegal`, and the
/// application-command latch is consumed.
pub open spec fn sd_illegal_app(pre: SD) -> (SD, ResponseModel) {
    (
        SD {
            card_status: CardStatus {
                bits: spec_with_bit(
                    spec_with_bit(pre.card_status.bits, STATUS_ILLEGAL_COMMAND_BIT, true),
                    STATUS_APP_COMMAND_BIT,
                    false,
                ),
            },
            ..pre
        },
        ResponseModel::MNone,
    )
}

/// The transition taken by an application command (the latch was set by the
/// previous CMD55 and is consumed here).
pub open spec fn spec_app_request(pre: SD, cmd: u8, arg: u32) -> (SD, ResponseModel) {
    let bits = pre.card_status.bits;
    let state = pre.card_status.spec_current_state();
    if cmd == 6 {
        // ACMD6 (set bus width): legal only from Transfer; the status reply
        // is read out, which consumes the latch.
        if state == CurrentState::Transfer {
            (
                SD { card_status: CardStatus { bits: spec_after_read(bits) }, ..pre },
                ResponseModel::M1 { cmd: 6, status: bits, busy: false },
            )
        } else {
            sd_illegal_app(pre)
        }
    } else if cmd == 41 {
        // ACMD41 (operating condition): legal only from Idle. A zero voltage
        // window is a capability probe; a nonzero window powers the card up.
        if state == CurrentState::Idle {
            let is_sdhc = spec_is_sdhc(pre.csd);
            if arg & 0xffffff == 0 {
                (
                    SD { card_status: CardStatus { bits: spec_after_read(bits) }, ..pre },
                    ResponseModel::M3 { ocr: 0x00ffff00, is_sdhc, power_up: false },
                )
            } else {
                let set = spec_with_state(bits, CurrentState::Ready);
                (
                    SD { card_status: CardStatus { bits: spec_after_read(set) }, ..pre },
                    ResponseModel::M3 { ocr: arg & 0xffffff, is_sdhc, power_up: true },
                )
            }
        } else {
            sd_illegal_app(pre)
        }
    } else if cmd == 51 {
        // ACMD51 (send configuration register): legal only from Transfer;
        // stages the 8-byte register as the next data-phase read.
        if state == CurrentState::Transfer {
            let set = spec_with_state(bits, CurrentState::SendingData);
            (
                SD {
                    card_status: CardStatus { bits: spec_after_read(set) },
                    recv_action: RecvAction::SCRRead,
                    ..pre
                },
                ResponseModel::M1 { cmd: 51, status: set, busy: false },
            )
        } else {
            sd_illegal_app(pre)
        }
    } else {
        sd_illegal_app(pre)
    }
}

/// The transition taken by a plain (non-application) command.
pub open spec fn spec_plain_request(pre: SD, cmd: u8, arg: u32) -> (SD, ResponseModel) {
    let bits = pre.card_status.bits;
    let state = pre.card_status.spec_current_state();
    if cmd == 0 {
        // CMD0 (reset): from any state, clear the status register and the
        // relative address and return to Idle.
        (
            SD { card_status: CardStatus { bits: 0 }, rca: 0, ..pre },
            ResponseModel::M1 { cmd: 0, status: 0, busy: false },
        )
    } else if cmd == 2 {
        // CMD2 (send identification): legal only from Ready.
        if state == CurrentState::Ready {
            (
                SD {
                    card_status: CardStatus {
                        bits: spec_with_state(bits, CurrentState::Identification),
                    },
                    ..pre
                },
                ResponseModel::M2 { payload: cid_esd() },
            )
        } else {
            sd_illegal(pre)
        }
    } else if cmd == 3 {
        // CMD3 (publish relative address): single-card emulation assigns
        // address 1 and moves to StandBy.
        if state == CurrentState::Identification || state == CurrentState::StandBy {
            let set = spec_with_state(bits, CurrentState::StandBy);
            (
                SD { card_status: CardStatus { bits: spec_after_read(set) }, rca: 1, ..pre },
                ResponseModel::M6 { rca: 1, status: set },
            )
        } else {
            sd_illegal(pre)
        }
    } else if cmd == 6 {
        // CMD6 (switch function): legal only from Transfer; stages the
        // function-status block as the next data-phase read.
        if state == CurrentState::Transfer {
            let set = spec_with_state(bits, CurrentState::SendingData);
            (
                SD {
                    card_status: CardStatus { bits: spec_after_read(set) },
                    recv_action: RecvAction::FunctionStatus { arg },
                    ..pre
                },
                ResponseModel::M1 { cmd: 6, status: set, busy: false },
            )
        } else {
            sd_illegal(pre)
        }
    } else if cmd == 7 {
        // CMD7 (select/deselect card): addressed by the upper argument half.
        let rca = (arg >> 16) as u16;
        if state == CurrentState::StandBy {
            // A matching address selects the card; a non-matching address
            // leaves it in StandBy. Both get a status reply.
            let set = if rca == pre.rca {
                spec_with_state(bits, CurrentState::Transfer)
            } else {
                bits
            };
            (
                SD { card_status: CardStatus { bits: spec_after_read(set) }, ..pre },
                ResponseModel::M1 { cmd: 7, status: set, busy: false },
            )
        } else if state == CurrentState::Transfer || state == CurrentState::SendingData {
            if rca != pre.rca {
                // Deselect: back to StandBy.
                let set = spec_with_state(bits, CurrentState::StandBy);
                (
                    SD { card_status: CardStatus { bits: spec_after_read(set) }, ..pre },
                    ResponseModel::M1 { cmd: 7, status: set, busy: false },
                )
            } else {
                // Re-selecting the already selected card is illegal.
                sd_illegal(pre)
            }
        } else {
            sd_illegal(pre)
        }
    } else if cmd == 8 {
        // CMD8 (interface condition): legal only from Idle; echoes the
        // proposed voltage and the check pattern.
        if state == CurrentState::Idle {
            (
                pre,
                ResponseModel::M7 {
                    voltage_accepted: ((arg >> 8) & 0xf) as u8,
                    check: (arg & 0xff) as u8,
                },
            )
        } else {
            sd_illegal(pre)
        }
    } else if cmd == 9 {
        // CMD9 (send card-specific data): legal from StandBy with matching
        // address.
        let rca = (arg >> 16) as u16;
        if state == CurrentState::StandBy && pre.rca == rca {
            match pre.csd {
                None => sd_illegal(pre),
                Some(c) => (pre, ResponseModel::M2 { payload: spec_be_bytes(c.spec_bits()) }),
            }
        } else {
            sd_illegal(pre)
        }
    } else if cmd == 10 {
        // CMD10 (send identification to an addressed card): a non-matching
        // address is simply ignored.
        if pre.rca == ((arg >> 16) & 0xffff) as u16 {
            if state == CurrentState::StandBy {
                (pre, ResponseModel::M2 { payload: cid_esd() })
            } else {
                sd_illegal(pre)
            }
        } else {
            (pre, ResponseModel::MNone)
        }
    } else if cmd == 12 {
        // CMD12 (stop transmission): clears any staged data-phase action and
        // returns to Transfer.
        if state == CurrentState::SendingData || state == CurrentState::ReceivingData {
            let set = spec_with_state(bits, CurrentState::Transfer);
            (
                SD {
                    card_status: CardStatus { bits: spec_after_read(set) },
                    recv_action: RecvAction::NoAction,
                    send_action: SendAction::NoAction,
                    ..pre
                },
                ResponseModel::M1 { cmd: 12, status: set, busy: false },
            )
        } else {
            sd_illegal(pre)
        }
    } else if cmd == 16 {
        // CMD16 (set block length): legal from Transfer; lengths outside
        // 1..=512 set the block-length error bit and change nothing else.
        if state == CurrentState::Transfer {
            let read = spec_after_read(bits);
            if arg == 0 || arg > 512 {
                let set = spec_with_bit(read, STATUS_BLOCK_LEN_ERROR_BIT, true);
                (
                    SD { card_status: CardStatus { bits: set }, ..pre },
                    ResponseModel::M1 { cmd: 16, status: set, busy: false },
                )
            } else {
                let set = spec_with_bit(read, STATUS_BLOCK_LEN_ERROR_BIT, false);
                (
                    SD { card_status: CardStatus { bits: set }, io_size: arg, ..pre },
                    ResponseModel::M1 { cmd: 16, status: set, busy: false },
                )
            }
        } else {
            sd_illegal(pre)
        }
    } else if cmd == 18 {
        // CMD18 (read multiple sectors): legal from Transfer; stages a bulk
        // read starting at the argument sector.
        if state == CurrentState::Transfer {
            let set = spec_with_state(bits, CurrentState::SendingData);
            (
                SD {
                    card_status: CardStatus { bits: spec_after_read(set) },
                    recv_action: RecvAction::FTLRead { sector_index: arg as u64 },
                    ..pre
                },
                ResponseModel::M1 { cmd: 18, status: set, busy: false },
            )
        } else {
            sd_illegal(pre)
        }
    } else if cmd == 55 {
        // CMD55 (application-command prefix): always legal; sets the latch
        // consumed by the next command.
        let set = spec_with_bit(spec_after_read(bits), STATUS_APP_COMMAND_BIT, true);
        (
            SD { card_status: CardStatus { bits: set }, ..pre },
            ResponseModel::M1 { cmd: 55, status: set, busy: false },
        )
    } else {
        sd_illegal(pre)
    }
}

/// The card's full command-dispatch relation: an unmounted card ignores all
/// commands, the application-command latch routes the code to the
/// application command set, everything else to the plain set.
pub open spec fn spec_request(pre: SD, cmd: u8, arg: u32) -> (SD, ResponseModel) {
    if !pre.mounted {
        (pre, ResponseModel::MNone)
    } else if pre.card_status.spec_app_command() {
        spec_app_request(pre, cmd, arg)
    } else {
        spec_plain_request(pre, cmd, arg)
    }
}

} // verus!

verus! {

impl SD {
    /// Whether a backing image is mounted.
    pub fn is_mounted(&self) -> (r: bool)
        ensures
            r == self.mounted,
    {
        self.mounted
    }

    /// Mount a backing image: select the capacity-dependent CSD from the
    /// image size and clear any staged data-phase actions. Fails if a card
    /// is already mounted. The size bounds come from the CSD size fields:
    /// at least one 512 KiB capacity unit, at most 2^22 of them.
    pub fn mount(&mut self, image: Vec<u8>) -> (r: Result<(), RuntimeError>)
        requires
            SD_MIN_CAPACITY as int <= image@.len() <= SD_MAX_CAPACITY as int,
        ensures
            old(self).mounted ==> r == Result::<(), RuntimeError>::Err(
                RuntimeError::SDAlreadyMounted,
            ) && *final(self) == *old(self),
            !old(self).mounted ==> r is Ok && *final(self) == (SD {
                mounted: true,
                image: image,
                csd: Some(spec_csd_for_size(image@.len() as u64)),
                send_action: SendAction::NoAction,
                recv_action: RecvAction::NoAction,
                ..*old(self)
            }),
    {
        if self.mounted {
            return Err(RuntimeError::SDAlreadyMounted);
        }
        let size = image.len() as u64;
        self.csd = Some(CardSpecific::init_with_size(size));
        self.image = image;
        self.mounted = true;
        self.send_action = SendAction::NoAction;
        self.recv_action = RecvAction::NoAction;
        Ok(())
    }

    /// Unmount: back to an empty card shell. The protocol state and status
    /// register are left as they are (a reset comes from CMD0), but the
    /// image, the capacity descriptor and any staged actions are dropped.
    pub fn unmount(&mut self)
        ensures
            final(self).mounted == false,
            final(self).image@.len() == 0,
            final(self).csd is None,
            final(self).send_action == SendAction::NoAction,
            final(self).recv_action == RecvAction::NoAction,
            final(self).card_status == old(self).card_status,
            final(self).rca == old(self).rca,
            final(self).selected_functions == old(self).selected_functions,
            final(self).io_size == old(self).io_size,
    {
        self.mounted = false;
        self.image = Vec::new();
        self.csd = None;
        self.send_action = SendAction::NoAction;
        self.recv_action = RecvAction::NoAction;
    }

    /// Set the illegal-command status bit and give no response.
    fn term_illegal(&mut self) -> (r: Response)
        ensures
            (*final(self), r@) == sd_illegal(*old(self)),
    {
        self.card_status.set_illegal_command(true);
        Response::RNone
    }

    /// As `term_illegal`, and consume the application-command latch.
    fn term_illegal_app(&mut self) -> (r: Response)
        ensures
            (*final(self), r@) == sd_illegal_app(*old(self)),
    {
        self.card_status.set_illegal_command(true);
        self.card_status.set_app_command(false);
        Response::RNone
    }

    /// Dispatch one command on the CMD channel: decide legality from the
    /// current state (and the application-command latch), mutate the card
    /// accordingly and produce the typed response, exactly as
    /// `spec_request` relates them.
    pub fn make_request(&mut self, cmd: u8, arg: u32) -> (r: Response)
        ensures
            (*final(self), r@) == spec_request(*old(self), cmd, arg),
    {
        if !self.is_mounted() {
            return Response::RNone;
        }
        if self.card_status.get_app_command() {
            return match cmd {
                6 => {
                    if self.card_status.get_current_state() == CurrentState::Transfer {
                        let status = self.card_status.after_read();
                        Response::R1(ResponseType1 { cmd, status, busy: false })
                    } else {
                        self.term_illegal_app()
                    }
                },
                41 => {
                    if self.card_status.get_current_state() == CurrentState::Idle {
                        let is_sdhc = match &self.csd {
                            Some(csdd) => csdd.is_sdhc(),
                            None => false,
                        };
                        if arg & 0x00ffffff == 0 {
                            let _ = self.card_status.after_read();
                            Response::R3(ResponseType3 { ocr: 0x00ffff00, is_sdhc, power_up: false })
                        } else {
                            self.card_status.set_current_state(CurrentState::Ready);
                            let _ = self.card_status.after_read();
                            Response::R3(
                                ResponseType3 { ocr: arg & 0x00ffffff, is_sdhc, power_up: true },
                            )
                        }
                    } else {
                        self.term_illegal_app()
                    }
                },
                51 => {
                    if self.card_status.get_current_state() == CurrentState::Transfer {
                        self.recv_action = RecvAction::SCRRead;
                        self.card_status.set_current_state(CurrentState::SendingData);
                        let status = self.card_status.after_read();
                        Response::R1(ResponseType1 { cmd, status, busy: false })
                    } else {
                        self.term_illegal_app()
                    }
                },
                _ => self.term_illegal_app(),
            };
        }
        match cmd {
            0 => {
                self.card_status = CardStatus { bits: 0 };
                self.rca = 0;
                Response::R1(ResponseType1 { cmd, status: self.card_status, busy: false })
            },
            2 => {
                if self.card_status.get_current_state() == CurrentState::Ready {
                    self.card_status.set_current_state(CurrentState::Identification);
                    Response::R2(ResponseType2 { cid_csd: make_cid_esd() })
                } else {
                    self.term_illegal()
                }
            },
            3 => {
                match self.card_status.get_current_state() {
                    CurrentState::Identification | CurrentState::StandBy => {
                        self.card_status.set_current_state(CurrentState::StandBy);
                        let status = self.card_status.after_read();
                        self.rca = 1;
                        Response::R6(ResponseType6 { rca: self.rca, status })
                    },
                    _ => self.term_illegal(),
                }
            },
            6 => {
                if self.card_status.get_current_state() == CurrentState::Transfer {
                    self.recv_action = RecvAction::FunctionStatus { arg };
                    self.card_status.set_current_state(CurrentState::SendingData);
                    let status = self.card_status.after_read();
                    Response::R1(ResponseType1 { cmd, status, busy: false })
                } else {
                    self.term_illegal()
                }
            },
            7 => {
                let rca = (arg >> 16) as u16;
                proof {
                    assert(arg >> 16 < 0x10000) by (bit_vector);
                }
                match self.card_status.get_current_state() {
                    CurrentState::StandBy => {
                        if rca == self.rca {
                            self.card_status.set_current_state(CurrentState::Transfer);
                        }
                        let status = self.card_status.after_read();
                        Response::R1(ResponseType1 { cmd, status, busy: false })
                    },
                    CurrentState::Transfer | CurrentState::SendingData => {
                        if rca != self.rca {
                            self.card_status.set_current_state(CurrentState::StandBy);
                            let status = self.card_status.after_read();
                            Response::R1(ResponseType1 { cmd, status, busy: false })
                        } else {
                            self.term_illegal()
                        }
                    },
                    _ => self.term_illegal(),
                }
            },
            8 => {
                if self.card_status.get_current_state() == CurrentState::Idle {
                    Response::R7(
                        ResponseType7 {
                            voltage_accepted: ((arg >> 8) & 0xf) as u8,
                            check: (arg & 0xff) as u8,
                        },
                    )
                } else {
                    self.term_illegal()
                }
            },
            9 => {
                let rca = (arg >> 16) as u16;
                if self.card_status.get_current_state() == CurrentState::StandBy && self.rca
                    == rca {
                    match &self.csd {
                        None => self.term_illegal(),
                        Some(csdd) => Response::R2(ResponseType2 { cid_csd: csdd.as_bytes() }),
                    }
                } else {
                    self.term_illegal()
                }
            },
            10 => {
                if self.rca == ((arg >> 16) & 0xffff) as u16 {
                    if self.card_status.get_current_state() == CurrentState::StandBy {
                        Response::R2(ResponseType2 { cid_csd: make_cid_esd() })
                    } else {
                        self.term_illegal()
                    }
                } else {
                    Response::RNone
                }
            },
            12 => {
                match self.card_status.get_current_state() {
                    CurrentState::SendingData | CurrentState::ReceivingData => {
                        self.recv_action = RecvAction::NoAction;
                        self.send_action = SendAction::NoAction;
                        self.card_status.set_current_state(CurrentState::Transfer);
                        let status = self.card_status.after_read();
                        Response::R1(ResponseType1 { cmd, status, busy: false })
                    },
                    _ => self.term_illegal(),
                }
            },
            16 => {
                if self.card_status.get_current_state() == CurrentState::Transfer {
                    let _ = self.card_status.after_read();
                    if arg == 0 || arg > 512 {
                        self.card_status.set_block_len_error(true);
                        Response::R1(ResponseType1 { cmd, status: self.card_status, busy: false })
                    } else {
                        self.io_size = arg;
                        self.card_status.set_block_len_error(false);
                        Response::R1(ResponseType1 { cmd, status: self.card_status, busy: false })
                    }
                } else {
                    self.term_illegal()
                }
            },
            18 => {
                if self.card_status.get_current_state() == CurrentState::Transfer {
                    self.recv_action = RecvAction::FTLRead { sector_index: arg as u64 };
                    self.card_status.set_current_state(CurrentState::SendingData);
                    let status = self.card_status.after_read();
                    Response::R1(ResponseType1 { cmd, status, busy: false })
                } else {
                    self.term_illegal()
                }
            },
            55 => {
                let _ = self.card_status.after_read();
                self.card_status.set_app_command(true);
                Response::R1(ResponseType1 { cmd, status: self.card_status, busy: false })
            },
            _ => self.term_illegal(),
        }
    }
}

} // verus!

verus! {

/// The function-capability table entry listed for table slot `g` (slot 0
/// describes function group 6, slot 5 describes group 1): every group
/// supports only its default function, and group 1 additionally the
/// high-speed access mode.
pub open spec fn spec_card_func(g: int) -> u16 {
    if g == 5 {
        0x8003
    } else {
        0x8001
    }
}

fn card_func(g: usize) -> (r: u16)
    requires
        g < 6,
    ensures
        r == spec_card_func(g as int),
{
    if g == 5 {
        0x8003
    } else {
        0x8001
    }
}

/// The answer for one function group in the switch response: keep (0xf)
/// echoes the currently selected function, a supported proposal echoes the
/// proposal, an unsupported one answers 0xf for the group and raises the
/// error bit (bit 31).
pub open spec fn spec_group_status(selected: u32, arg: u32, g: u32) -> u32
    recommends
        g < 6,
{
    let shifts = 4 * g;
    let new_func = (arg >> shifts) & 0xf;
    if new_func == 0xf {
        selected & (0xfu32 << shifts)
    } else if (1u32 << new_func) & (spec_card_func(5 - g as int) as u32) != 0 {
        new_func << shifts
    } else {
        (0xfu32 << shifts) | 0x80000000
    }
}

/// The combined switch answer across the six function groups.
pub open spec fn spec_ret_status(selected: u32, arg: u32) -> u32 {
    spec_group_status(selected, arg, 0) | spec_group_status(selected, arg, 1) | spec_group_status(
        selected,
        arg,
        2,
    ) | spec_group_status(selected, arg, 3) | spec_group_status(selected, arg, 4)
        | spec_group_status(selected, arg, 5)
}

/// Byte `i` of the 512-bit function-status block: maximum current (200 mA),
/// the per-group capability tables, the per-group switch answers, the
/// version byte, and zeros (busy flags and reserved space).
pub open spec fn spec_fs_byte(selected: u32, arg: u32, i: int) -> u8 {
    let rs = spec_ret_status(selected, arg);
    if i == 0 {
        0x00
    } else if i == 1 {
        0xc8
    } else if 2 <= i && i < 14 {
        if (i - 2) % 2 == 0 {
            0x80u8
        } else if i == 13 {
            0x03u8
        } else {
            0x01u8
        }
    } else if i == 14 {
        ((rs >> 16) & 0xff) as u8
    } else if i == 15 {
        ((rs >> 8) & 0xff) as u8
    } else if i == 16 {
        ((rs >> 0) & 0xff) as u8
    } else if i == 17 {
        0x01
    } else {
        0x00
    }
}

/// Byte `i` of the 8-byte configuration register: SD specification
/// version 2.00, erases to zero, no security, 1- and 4-bit bus widths.
pub open spec fn spec_scr_byte(i: int) -> u8 {
    if i == 0 {
        0x02
    } else if i == 1 {
        0x05
    } else {
        0x00
    }
}

/// What a bulk sector read delivers: `len` bytes of the image starting at
/// byte `512 * sector` when that range lies inside the image, and zeros
/// when it does not (a failed backing read leaves the buffer cleared).
pub open spec fn spec_ftl_bytes(img: Seq<u8>, sector: u64, len: nat) -> Seq<u8> {
    if 512 * (sector as int) + len <= img.len() {
        img.subrange(512 * (sector as int), 512 * (sector as int) + len)
    } else {
        Seq::new(len, |i: int| 0u8)
    }
}

impl SD {
    /// Fulfill the staged card-to-host data phase, delivering `len` bytes.
    ///
    /// A bulk sector read hands out image bytes and advances the staged
    /// sector by `len / 512`; the function-status and configuration reads
    /// synthesize their fixed-format blocks and return the card to
    /// Transfer. Calling with no staged action is a protocol error of the
    /// caller and is answered with an error, never with silent zeros. A
    /// buffer too small for a synthesized block stays zeroed and the action
    /// stays staged.
    pub fn recv_data(&mut self, len: usize) -> (r: Result<Vec<u8>, RuntimeError>)
        ensures
            old(self).recv_action == RecvAction::NoAction ==> r == Result::<
                Vec<u8>,
                RuntimeError,
            >::Err(RuntimeError::SDNoStagedAction) && *final(self) == *old(self),
            old(self).recv_action matches RecvAction::FTLRead { sector_index } ==> {
                &&& (r matches Ok(v) && v@ == spec_ftl_bytes(old(self).image@, sector_index, len as nat))
                &&& *final(self) == (SD {
                    recv_action: RecvAction::FTLRead {
                        sector_index: vstd::wrapping::u64_specs::wrapping_add(
                            sector_index,
                            (len as u64) / 512,
                        ),
                    },
                    ..*old(self)
                })
            },
            old(self).recv_action == RecvAction::SCRRead && len >= 8 ==> {
                &&& (r matches Ok(v) && v@ == Seq::new(len as nat, |i: int| spec_scr_byte(i)))
                &&& *final(self) == (SD {
                    recv_action: RecvAction::NoAction,
                    card_status: CardStatus {
                        bits: spec_with_state(old(self).card_status.bits, CurrentState::Transfer),
                    },
                    ..*old(self)
                })
            },
            old(self).recv_action == RecvAction::SCRRead && len < 8 ==> (r matches Ok(v) && v@
                == Seq::new(len as nat, |i: int| 0u8)) && *final(self) == *old(self),
            old(self).recv_action matches RecvAction::FunctionStatus { arg } ==> len >= 64 ==> {
                &&& (r matches Ok(v) && v@ == Seq::new(
                    len as nat,
                    |i: int| spec_fs_byte(old(self).selected_functions, arg, i),
                ))
                &&& *final(self) == (SD {
                    recv_action: RecvAction::NoAction,
                    card_status: CardStatus {
                        bits: spec_with_state(old(self).card_status.bits, CurrentState::Transfer),
                    },
                    selected_functions: (if arg & 0x80000000 != 0 && spec_ret_status(
                        old(self).selected_functions,
                        arg,
                    ) & 0x80000000 == 0 {
                        spec_ret_status(old(self).selected_functions, arg) & 0xffffff
                    } else {
                        old(self).selected_functions
                    }),
                    ..*old(self)
                })
            },
            old(self).recv_action is FunctionStatus && len < 64 ==> (r matches Ok(v) && v@
                == Seq::new(len as nat, |i: int| 0u8)) && *final(self) == *old(self),
    {
        match self.recv_action {
            RecvAction::NoAction => Err(RuntimeError::SDNoStagedAction),
            RecvAction::FTLRead { sector_index } => {
                let sector = sector_index;
                let fits = sector < 0x80000000000000u64;
                proof {
                    if !fits {
                        assert(512 * (sector as int) >= 512 * 0x80000000000000)
                            by (nonlinear_arith)
                            requires
                                sector >= 0x80000000000000u64,
                        ;
                    } else {
                        assert(512 * (sector as int) <= 512 * 0x7fffffffffffff)
                            by (nonlinear_arith)
                            requires
                                sector <= 0x7fffffffffffffu64,
                        ;
                    }
                }
                let img_len = self.image.len() as u64;
                let mut out: Vec<u8> = Vec::new();
                if fits {
                    let start = 512u64 * sector;
                    if start <= img_len && (len as u64) <= img_len - start {
                        let s = start as usize;
                        let mut i: usize = 0;
                        while i < len
                            invariant
                                out@.len() == i,
                                i <= len,
                                s + len <= self.image@.len(),
                                s + len <= usize::MAX,
                                s == 512 * (sector as int),
                                forall|k: int| 0 <= k < i ==> out@[k] == self.image@[s + k],
                            decreases len - i,
                        {
                            out.push(self.image[s + i]);
                            i = i + 1;
                        }
                        proof {
                            let ss = 512 * (sector as int);
                            assert(ss + len <= self.image@.len());
                            assert(out@.len() == len);
                            assert forall|k: int|
                                0 <= k < len implies out@[k] == self.image@.subrange(
                                ss,
                                ss + len,
                            )[k] by {
                                assert(out@[k] == self.image@[ss + k]);
                            };
                            assert(out@ =~= self.image@.subrange(ss, ss + len));
                            assert(spec_ftl_bytes(self.image@, sector, len as nat)
                                == self.image@.subrange(ss, ss + len));
                        }
                    } else {
                        out = zero_vec(len);
                        proof {
                            assert(out@ =~= spec_ftl_bytes(self.image@, sector, len as nat));
                        }
                    }
                } else {
                    out = zero_vec(len);
                    proof {
                        assert(out@ =~= spec_ftl_bytes(self.image@, sector, len as nat));
                    }
                }
                let step = (len as u64) / 512;
                self.recv_action = RecvAction::FTLRead { sector_index: sector.wrapping_add(step) };
                Ok(out)
            },
            RecvAction::SCRRead => {
                if len < 8 {
                    return Ok(zero_vec(len));
                }
                let mut out: Vec<u8> = Vec::new();
                out.push(0x02);
                out.push(0x05);
                while out.len() < len
                    invariant
                        2 <= out@.len() <= len,
                        out@[0] == 0x02u8,
                        out@[1] == 0x05u8,
                        forall|k: int| 2 <= k < out@.len() ==> out@[k] == 0u8,
                    decreases len - out@.len(),
                {
                    out.push(0x00);
                }
                proof {
                    assert(out@ =~= Seq::new(len as nat, |i: int| spec_scr_byte(i)));
                }
                self.card_status.set_current_state(CurrentState::Transfer);
                self.recv_action = RecvAction::NoAction;
                Ok(out)
            },
            RecvAction::FunctionStatus { arg } => {
                if len < 64 {
                    return Ok(zero_vec(len));
                }
                let commit = arg & 0x80000000 != 0;
                let mut ret_status: u32 = 0;
                let mut out: Vec<u8> = Vec::new();
                // Maximum current: 200 mA, big-endian.
                out.push(0x00);
                out.push(0xc8);
                let mut g: usize = 0;
                while g < 6
                    invariant
                        g <= 6,
                        out@.len() == 2 + 2 * g,
                        out@[0] == 0x00u8,
                        out@[1] == 0xc8u8,
                        forall|k: int|
                            2 <= k < 2 + 2 * g ==> out@[k] == spec_fs_byte(
                                old(self).selected_functions,
                                arg,
                                k,
                            ),
                        ret_status == spec_partial_ret_status(
                            old(self).selected_functions,
                            arg,
                            g as int,
                        ),
                        *self == *old(self),
                    decreases 6 - g,
                {
                    out.push(0x80);
                    if g == 5 {
                        out.push(0x03);
                    } else {
                        out.push(0x01);
                    }
                    let grp_shifts: u32 = 4 * (g as u32);
                    let new_func = (arg >> grp_shifts) & 0xf;
                    proof {
                        assert((arg >> grp_shifts) & 0xf < 16) by (bit_vector);
                    }
                    if new_func == 0xf {
                        ret_status = ret_status | (self.selected_functions & (0xfu32
                            << grp_shifts));
                    } else if (1u32 << new_func) & (card_func(5 - g) as u32) != 0 {
                        ret_status = ret_status | (new_func << grp_shifts);
                    } else {
                        ret_status = ret_status | ((0xfu32 << grp_shifts) | 0x80000000);
                    }
                    g = g + 1;
                }
                proof {
                    lemma_ret_status_fold(old(self).selected_functions, arg);
                }
                let rs = ret_status;
                out.push(((rs >> 16) & 0xff) as u8);
                out.push(((rs >> 8) & 0xff) as u8);
                out.push(((rs >> 0) & 0xff) as u8);
                // Function-status format version 2: has busy flags.
                out.push(0x01);
                while out.len() < len
                    invariant
                        18 <= out@.len() <= len,
                        forall|k: int|
                            0 <= k < 18 ==> out@[k] == spec_fs_byte(
                                old(self).selected_functions,
                                arg,
                                k,
                            ),
                        forall|k: int| 18 <= k < out@.len() ==> out@[k] == 0u8,
                        rs == spec_ret_status(old(self).selected_functions, arg),
                        *self == *old(self),
                    decreases len - out@.len(),
                {
                    out.push(0x00);
                }
                proof {
                    assert(out@ =~= Seq::new(
                        len as nat,
                        |i: int| spec_fs_byte(old(self).selected_functions, arg, i),
                    ));
                }
                if commit && rs & 0x80000000 == 0 {
                    self.selected_functions = rs & 0xffffff;
                }
                self.card_status.set_current_state(CurrentState::Transfer);
                self.recv_action = RecvAction::NoAction;
                Ok(out)
            },
        }
    }
}

/// The partial switch answer over table slots below `g`.
pub open spec fn spec_partial_ret_status(selected: u32, arg: u32, g: int) -> u32
    decreases g,
{
    if g <= 0 {
        0u32
    } else {
        spec_partial_ret_status(selected, arg, g - 1) | spec_group_status(
            selected,
            arg,
            (g - 1) as u32,
        )
    }
}

proof fn lemma_or_zero()
    by (bit_vector)
    ensures
        forall|x: u32| #[trigger] (0u32 | x) == x,
{
}

proof fn lemma_ret_status_fold(sel: u32, arg: u32)
    ensures
        spec_partial_ret_status(sel, arg, 6) == spec_ret_status(sel, arg),
{
    lemma_or_zero();
    assert(spec_partial_ret_status(sel, arg, 0) == 0);
    assert(spec_partial_ret_status(sel, arg, 1) == spec_group_status(sel, arg, 0));
    assert(spec_partial_ret_status(sel, arg, 2) == spec_partial_ret_status(sel, arg, 1)
        | spec_group_status(sel, arg, 1));
    assert(spec_partial_ret_status(sel, arg, 3) == spec_partial_ret_status(sel, arg, 2)
        | spec_group_status(sel, arg, 2));
    assert(spec_partial_ret_status(sel, arg, 4) == spec_partial_ret_status(sel, arg, 3)
        | spec_group_status(sel, arg, 3));
    assert(spec_partial_ret_status(sel, arg, 5) == spec_partial_ret_status(sel, arg, 4)
        | spec_group_status(sel, arg, 4));
    assert(spec_partial_ret_status(sel, arg, 6) == spec_partial_ret_status(sel, arg, 5)
        | spec_group_status(sel, arg, 5));
}

/// A vector of `len` zero bytes.
pub(crate) fn zero_vec(len: usize) -> (r: Vec<u8>)
    ensures
        r@ == Seq::new(len as nat, |i: int| 0u8),
{
    let mut out: Vec<u8> = Vec::new();
    while out.len() < len
        invariant
            out@.len() <= len,
            forall|k: int| 0 <= k < out@.len() ==> out@[k] == 0u8,
        decreases len - out@.len(),
    {
        out.push(0x00);
    }
    proof {
        assert(out@ =~= Seq::new(len as nat, |i: int| 0u8));
    }
    out
}

} // verus!

verus! {

proof fn lemma_state_field_set(b: u32, e: u32)
    by (bit_vector)
    requires
        e < 16,
    ensures
        (((b & !(0xfu32 << 9)) | (e << 9)) >> 9) & 0xf == e,
{
}

proof fn lemma_flag_keeps_state(b: u32)
    by (bit_vector)
    ensures
        ((b | (1u32 << 22)) >> 9) & 0xf == (b >> 9) & 0xf,
        ((b | (1u32 << 22)) >> 22) & 1 == 1,
{
}

/// Writing a state into the status register is read back exactly, both
/// before and after the clear-on-read step.
pub proof fn lemma_state_write_read(b: u32, s: CurrentState)
    ensures
        (CardStatus { bits: spec_with_state(b, s) }).spec_current_state() == s,
        (CardStatus { bits: spec_after_read(spec_with_state(b, s)) }).spec_current_state() == s,
{
    let e = s.spec_encoding();
    assert(e < 16);
    lemma_state_field_set(b, e);
    lemma_after_read_keeps_state(spec_with_state(b, s));
    lemma_state_encoding_round_trip();
}

/// Law (card reset): CMD0, sent to a mounted card with no pending
/// application-command latch, returns the card to Idle from any state, with
/// a fully cleared status register and relative address 0, answered by a
/// short status response.
pub proof fn lemma_cmd0_resets(pre: SD, arg: u32)
    requires
        pre.mounted,
        !pre.card_status.spec_app_command(),
    ensures
        ({
            let (post, resp) = spec_request(pre, 0, arg);
            &&& post.card_status.bits == 0
            &&& post.card_status.spec_current_state() == CurrentState::Idle
            &&& post.rca == 0
            &&& resp == (ResponseModel::M1 { cmd: 0, status: 0, busy: false })
        }),
{
    assert((0u32 >> 9) & 0xf == 0) by (bit_vector);
}

/// Law (deselect): CMD7 with a non-matching address, sent while the card is
/// selected (Transfer state), reverts the card to StandBy and answers with
/// a short status response.
pub proof fn lemma_cmd7_deselect(pre: SD, arg: u32)
    requires
        pre.mounted,
        !pre.card_status.spec_app_command(),
        pre.card_status.spec_current_state() == CurrentState::Transfer,
        (arg >> 16) as u16 != pre.rca,
    ensures
        ({
            let (post, resp) = spec_request(pre, 7, arg);
            &&& post.card_status.spec_current_state() == CurrentState::StandBy
            &&& post.rca == pre.rca
            &&& resp matches ResponseModel::M1 { cmd: 7, busy: false, .. }
        }),
{
    lemma_state_write_read(pre.card_status.bits, CurrentState::StandBy);
}

/// Law (illegal reselect): CMD7 with the matching, already-selected address
/// from Transfer is illegal: the status register gains the illegal-command
/// bit, the state stays Transfer, and there is no response.
pub proof fn lemma_cmd7_reselect_illegal(pre: SD, arg: u32)
    requires
        pre.mounted,
        !pre.card_status.spec_app_command(),
        pre.card_status.spec_current_state() == CurrentState::Transfer,
        (arg >> 16) as u16 == pre.rca,
    ensures
        ({
            let (post, resp) = spec_request(pre, 7, arg);
            &&& post.card_status.spec_illegal_command()
            &&& post.card_status.spec_current_state() == CurrentState::Transfer
            &&& post.rca == pre.rca
            &&& resp == ResponseModel::MNone
        }),
{
    lemma_flag_keeps_state(pre.card_status.bits);
}

} // verus!
