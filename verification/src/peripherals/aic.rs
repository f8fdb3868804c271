//! Interrupt (arbitration) controller: per-source priority/trigger table,
//! per-priority pending bitmaps with a derived priority-occupied summary,
//! and the enable mask (bit set = source masked, matching the hardware
//! register polarity).
use vstd::prelude::*;

verus! {

broadcast use vstd::array::group_array_axioms;

/// Bit `n` of a 32-bit word.
pub open spec fn nth_bit32(x: u32, n: u32) -> bool {
    (x >> n) & 1 == 1
}

/// Bit `n` of an 8-bit word.
pub open spec fn nth_bit8(x: u8, n: u8) -> bool {
    (x >> n) & 1 == 1
}

proof fn lemma_low_masks(x: u32)
    by (bit_vector)
    ensures
        x & 7 < 8,
        x & 0xff < 256,
        x & 0x30 == 0 || x & 0x30 == 0x10 || x & 0x30 == 0x20 || x & 0x30 == 0x30,
{
}

proof fn lemma_or_bit_u32(x: u32, n: u32)
    by (bit_vector)
    requires
        n < 32,
    ensures
        x | (1u32 << n) != 0,
        nth_bit32(x | (1u32 << n), n),
        forall|j: u32| j < 32 && j != n ==> nth_bit32(x | (1u32 << n), j) == nth_bit32(x, j),
{
}

proof fn lemma_clear_bit_u32(x: u32, n: u32)
    by (bit_vector)
    requires
        n < 32,
    ensures
        !nth_bit32(x & !(1u32 << n), n),
        forall|j: u32| j < 32 && j != n ==> nth_bit32(x & !(1u32 << n), j) == nth_bit32(x, j),
{
}

proof fn lemma_or_bit_u8(x: u8, n: u8)
    by (bit_vector)
    requires
        n < 8,
    ensures
        x | (1u8 << n) != 0,
        nth_bit8(x | (1u8 << n), n),
        forall|j: u8| j < 8 && j != n ==> nth_bit8(x | (1u8 << n), j) == nth_bit8(x, j),
{
}

proof fn lemma_clear_bit_u8(x: u8, n: u8)
    by (bit_vector)
    requires
        n < 8,
    ensures
        !nth_bit8(x & !(1u8 << n), n),
        forall|j: u8| j < 8 && j != n ==> nth_bit8(x & !(1u8 << n), j) == nth_bit8(x, j),
{
}

proof fn lemma_u8_bits_zero(x: u8)
    requires
        forall|q: u8| q < 8 ==> !nth_bit8(x, q),
    ensures
        x == 0,
{
    assert(!nth_bit8(x, 0) && !nth_bit8(x, 1) && !nth_bit8(x, 2) && !nth_bit8(x, 3)
        && !nth_bit8(x, 4) && !nth_bit8(x, 5) && !nth_bit8(x, 6) && !nth_bit8(x, 7));
    assert(x == 0) by (bit_vector)
        requires
            !nth_bit8(x, 0) && !nth_bit8(x, 1) && !nth_bit8(x, 2) && !nth_bit8(x, 3)
                && !nth_bit8(x, 4) && !nth_bit8(x, 5) && !nth_bit8(x, 6) && !nth_bit8(x, 7),
    ;
}

proof fn lemma_u8_eq_by_bits(x: u8, y: u8)
    requires
        forall|q: u8| q < 8 ==> nth_bit8(x, q) == nth_bit8(y, q),
    ensures
        x == y,
{
    assert(nth_bit8(x, 0) == nth_bit8(y, 0) && nth_bit8(x, 1) == nth_bit8(y, 1)
        && nth_bit8(x, 2) == nth_bit8(y, 2) && nth_bit8(x, 3) == nth_bit8(y, 3)
        && nth_bit8(x, 4) == nth_bit8(y, 4) && nth_bit8(x, 5) == nth_bit8(y, 5)
        && nth_bit8(x, 6) == nth_bit8(y, 6) && nth_bit8(x, 7) == nth_bit8(y, 7));
    assert(x == y) by (bit_vector)
        requires
            nth_bit8(x, 0) == nth_bit8(y, 0) && nth_bit8(x, 1) == nth_bit8(y, 1)
                && nth_bit8(x, 2) == nth_bit8(y, 2) && nth_bit8(x, 3) == nth_bit8(y, 3)
                && nth_bit8(x, 4) == nth_bit8(y, 4) && nth_bit8(x, 5) == nth_bit8(y, 5)
                && nth_bit8(x, 6) == nth_bit8(y, 6) && nth_bit8(x, 7) == nth_bit8(y, 7),
    ;
}

proof fn lemma_u32_bits_zero(x: u32)
    requires
        forall|j: u32| j < 32 ==> !nth_bit32(x, j),
    ensures
        x == 0,
{
    assert(!nth_bit32(x, 0));
    assert(!nth_bit32(x, 1));
    assert(!nth_bit32(x, 2));
    assert(!nth_bit32(x, 3));
    assert(!nth_bit32(x, 4));
    assert(!nth_bit32(x, 5));
    assert(!nth_bit32(x, 6));
    assert(!nth_bit32(x, 7));
    assert(!nth_bit32(x, 8));
    assert(!nth_bit32(x, 9));
    assert(!nth_bit32(x, 10));
    assert(!nth_bit32(x, 11));
    assert(!nth_bit32(x, 12));
    assert(!nth_bit32(x, 13));
    assert(!nth_bit32(x, 14));
    assert(!nth_bit32(x, 15));
    assert(!nth_bit32(x, 16));
    assert(!nth_bit32(x, 17));
    assert(!nth_bit32(x, 18));
    assert(!nth_bit32(x, 19));
    assert(!nth_bit32(x, 20));
    assert(!nth_bit32(x, 21));
    assert(!nth_bit32(x, 22));
    assert(!nth_bit32(x, 23));
    assert(!nth_bit32(x, 24));
    assert(!nth_bit32(x, 25));
    assert(!nth_bit32(x, 26));
    assert(!nth_bit32(x, 27));
    assert(!nth_bit32(x, 28));
    assert(!nth_bit32(x, 29));
    assert(!nth_bit32(x, 30));
    assert(!nth_bit32(x, 31));
    assert(x == 0) by (bit_vector)
        requires
            !nth_bit32(x, 0) && !nth_bit32(x, 1) && !nth_bit32(x, 2) && !nth_bit32(x, 3) && !nth_bit32(x, 4) && !nth_bit32(x, 5) && !nth_bit32(x, 6) && !nth_bit32(x, 7) && !nth_bit32(x, 8) && !nth_bit32(x, 9) && !nth_bit32(x, 10) && !nth_bit32(x, 11) && !nth_bit32(x, 12) && !nth_bit32(x, 13) && !nth_bit32(x, 14) && !nth_bit32(x, 15) && !nth_bit32(x, 16) && !nth_bit32(x, 17) && !nth_bit32(x, 18) && !nth_bit32(x, 19) && !nth_bit32(x, 20) && !nth_bit32(x, 21) && !nth_bit32(x, 22) && !nth_bit32(x, 23) && !nth_bit32(x, 24) && !nth_bit32(x, 25) && !nth_bit32(x, 26) && !nth_bit32(x, 27) && !nth_bit32(x, 28) && !nth_bit32(x, 29) && !nth_bit32(x, 30) && !nth_bit32(x, 31),
    ;
}

proof fn lemma_u32_eq_by_bits(x: u32, y: u32)
    requires
        forall|j: u32| j < 32 ==> nth_bit32(x, j) == nth_bit32(y, j),
    ensures
        x == y,
{
    assert(nth_bit32(x, 0) == nth_bit32(y, 0));
    assert(nth_bit32(x, 1) == nth_bit32(y, 1));
    assert(nth_bit32(x, 2) == nth_bit32(y, 2));
    assert(nth_bit32(x, 3) == nth_bit32(y, 3));
    assert(nth_bit32(x, 4) == nth_bit32(y, 4));
    assert(nth_bit32(x, 5) == nth_bit32(y, 5));
    assert(nth_bit32(x, 6) == nth_bit32(y, 6));
    assert(nth_bit32(x, 7) == nth_bit32(y, 7));
    assert(nth_bit32(x, 8) == nth_bit32(y, 8));
    assert(nth_bit32(x, 9) == nth_bit32(y, 9));
    assert(nth_bit32(x, 10) == nth_bit32(y, 10));
    assert(nth_bit32(x, 11) == nth_bit32(y, 11));
    assert(nth_bit32(x, 12) == nth_bit32(y, 12));
    assert(nth_bit32(x, 13) == nth_bit32(y, 13));
    assert(nth_bit32(x, 14) == nth_bit32(y, 14));
    assert(nth_bit32(x, 15) == nth_bit32(y, 15));
    assert(nth_bit32(x, 16) == nth_bit32(y, 16));
    assert(nth_bit32(x, 17) == nth_bit32(y, 17));
    assert(nth_bit32(x, 18) == nth_bit32(y, 18));
    assert(nth_bit32(x, 19) == nth_bit32(y, 19));
    assert(nth_bit32(x, 20) == nth_bit32(y, 20));
    assert(nth_bit32(x, 21) == nth_bit32(y, 21));
    assert(nth_bit32(x, 22) == nth_bit32(y, 22));
    assert(nth_bit32(x, 23) == nth_bit32(y, 23));
    assert(nth_bit32(x, 24) == nth_bit32(y, 24));
    assert(nth_bit32(x, 25) == nth_bit32(y, 25));
    assert(nth_bit32(x, 26) == nth_bit32(y, 26));
    assert(nth_bit32(x, 27) == nth_bit32(y, 27));
    assert(nth_bit32(x, 28) == nth_bit32(y, 28));
    assert(nth_bit32(x, 29) == nth_bit32(y, 29));
    assert(nth_bit32(x, 30) == nth_bit32(y, 30));
    assert(nth_bit32(x, 31) == nth_bit32(y, 31));
    assert(x == y) by (bit_vector)
        requires
            nth_bit32(x, 0) == nth_bit32(y, 0) && nth_bit32(x, 1) == nth_bit32(y, 1) && nth_bit32(x, 2) == nth_bit32(y, 2) && nth_bit32(x, 3) == nth_bit32(y, 3) && nth_bit32(x, 4) == nth_bit32(y, 4) && nth_bit32(x, 5) == nth_bit32(y, 5) && nth_bit32(x, 6) == nth_bit32(y, 6) && nth_bit32(x, 7) == nth_bit32(y, 7) && nth_bit32(x, 8) == nth_bit32(y, 8) && nth_bit32(x, 9) == nth_bit32(y, 9) && nth_bit32(x, 10) == nth_bit32(y, 10) && nth_bit32(x, 11) == nth_bit32(y, 11) && nth_bit32(x, 12) == nth_bit32(y, 12) && nth_bit32(x, 13) == nth_bit32(y, 13) && nth_bit32(x, 14) == nth_bit32(y, 14) && nth_bit32(x, 15) == nth_bit32(y, 15) && nth_bit32(x, 16) == nth_bit32(y, 16) && nth_bit32(x, 17) == nth_bit32(y, 17) && nth_bit32(x, 18) == nth_bit32(y, 18) && nth_bit32(x, 19) == nth_bit32(y, 19) && nth_bit32(x, 20) == nth_bit32(y, 20) && nth_bit32(x, 21) == nth_bit32(y, 21) && nth_bit32(x, 22) == nth_bit32(y, 22) && nth_bit32(x, 23) == nth_bit32(y, 23) && nth_bit32(x, 24) == nth_bit32(y, 24) && nth_bit32(x, 25) == nth_bit32(y, 25) && nth_bit32(x, 26) == nth_bit32(y, 26) && nth_bit32(x, 27) == nth_bit32(y, 27) && nth_bit32(x, 28) == nth_bit32(y, 28) && nth_bit32(x, 29) == nth_bit32(y, 29) && nth_bit32(x, 30) == nth_bit32(y, 30) && nth_bit32(x, 31) == nth_bit32(y, 31),
    ;
}

/// Hardware interrupt lines of the chip; source numbers 1 through 31.
#[derive(Debug, Clone, Copy)]
pub enum InterruptNumber {
    WDT,
    EXTINT0,
    EXTINT1,
    EXTINT2,
    EXTINT3,
    SPU,
    I2S,
    VPOST,
    VIDEOIN,
    GPU,
    BLT,
    FSC,
    HUART,
    TMR0,
    TMR1,
    UDC,
    SIC,
    UHC,
    EDMA,
    SPIMS0,
    SPIMS1,
    ADC,
    RTC,
    UART,
    PWM,
    JPG,
    PWM2,
    KPI,
    DES,
    I2C,
    PWR,
}

impl InterruptNumber {
    /// The source number of this interrupt line.
    pub open spec fn spec_number(self) -> u8 {
        match self {
            InterruptNumber::WDT => 1,
            InterruptNumber::EXTINT0 => 2,
            InterruptNumber::EXTINT1 => 3,
            InterruptNumber::EXTINT2 => 4,
            InterruptNumber::EXTINT3 => 5,
            InterruptNumber::SPU => 6,
            InterruptNumber::I2S => 7,
            InterruptNumber::VPOST => 8,
            InterruptNumber::VIDEOIN => 9,
            InterruptNumber::GPU => 10,
            InterruptNumber::BLT => 11,
            InterruptNumber::FSC => 12,
            InterruptNumber::HUART => 13,
            InterruptNumber::TMR0 => 14,
            InterruptNumber::TMR1 => 15,
            InterruptNumber::UDC => 16,
            InterruptNumber::SIC => 17,
            InterruptNumber::UHC => 18,
            InterruptNumber::EDMA => 19,
            InterruptNumber::SPIMS0 => 20,
            InterruptNumber::SPIMS1 => 21,
            InterruptNumber::ADC => 22,
            InterruptNumber::RTC => 23,
            InterruptNumber::UART => 24,
            InterruptNumber::PWM => 25,
            InterruptNumber::JPG => 26,
            InterruptNumber::PWM2 => 27,
            InterruptNumber::KPI => 28,
            InterruptNumber::DES => 29,
            InterruptNumber::I2C => 30,
            InterruptNumber::PWR => 31,
        }
    }

    /// The source number, as an executable value.
    pub fn number(self) -> (r: u8)
        ensures
            r == self.spec_number(),
            1 <= r <= 31,
    {
        match self {
            InterruptNumber::WDT => 1,
            InterruptNumber::EXTINT0 => 2,
            InterruptNumber::EXTINT1 => 3,
            InterruptNumber::EXTINT2 => 4,
            InterruptNumber::EXTINT3 => 5,
            InterruptNumber::SPU => 6,
            InterruptNumber::I2S => 7,
            InterruptNumber::VPOST => 8,
            InterruptNumber::VIDEOIN => 9,
            InterruptNumber::GPU => 10,
            InterruptNumber::BLT => 11,
            InterruptNumber::FSC => 12,
            InterruptNumber::HUART => 13,
            InterruptNumber::TMR0 => 14,
            InterruptNumber::TMR1 => 15,
            InterruptNumber::UDC => 16,
            InterruptNumber::SIC => 17,
            InterruptNumber::UHC => 18,
            InterruptNumber::EDMA => 19,
            InterruptNumber::SPIMS0 => 20,
            InterruptNumber::SPIMS1 => 21,
            InterruptNumber::ADC => 22,
            InterruptNumber::RTC => 23,
            InterruptNumber::UART => 24,
            InterruptNumber::PWM => 25,
            InterruptNumber::JPG => 26,
            InterruptNumber::PWM2 => 27,
            InterruptNumber::KPI => 28,
            InterruptNumber::DES => 29,
            InterruptNumber::I2C => 30,
            InterruptNumber::PWR => 31,
        }
    }

    /// Word index and bit shift of this source's entry in the priority table
    /// (four 8-bit entries per 32-bit word).
    pub fn as_offset_shift(self) -> (r: (usize, u8))
        ensures
            r.0 == self.spec_number() / 4,
            r.1 == (self.spec_number() % 4) * 8,
            r.0 < 8,
            r.1 <= 24,
    {
        let n = self.number();
        ((n / 4) as usize, (n % 4) * 8)
    }

    /// The source's bit in the 32-bit pending/mask bitmaps.
    pub fn as_mask(self) -> (r: u32)
        ensures
            r == 1u32 << (self.spec_number() as u32),
    {
        1u32 << (self.number() as u32)
    }
}

/// Whether a trigger-mode byte (bits 4 and 5 of the table entry) fires for
/// the given incoming level and previously latched level.
pub open spec fn trigger_fires(mode: u8, incoming: bool, latched: bool) -> bool {
    if mode == 0x00 {
        !incoming
    } else if mode == 0x10 {
        incoming
    } else if mode == 0x20 {
        incoming != latched && !incoming
    } else {
        incoming != latched && incoming
    }
}

/// Flag storage and arbitration state for the interrupt controller.
pub struct AICConfig {
    /// Raw priority/trigger table: four 8-bit entries per word.
    pub levels: [u32; 8],
    /// Priority-occupied summary: bit `p` set iff a priority-`p` interrupt is pending.
    pub status_map: u8,
    /// Interrupt state has changed since the last dispatch.
    pub step: bool,
    /// Pending bitmap for each priority.
    pub status: [u32; 8],
    /// Interrupt mask bitmap (bit set = source masked).
    pub enabled: u32,
    /// The interrupt currently in service, as (priority, source number).
    pub current_interrupt: (u8, u8),
}

impl Default for AICConfig {
    /// All sources at priority 7, high-level trigger, unmasked; nothing pending.
    fn default() -> (r: Self)
        ensures
            forall|i: int| 0 <= i < 8 ==> r.levels[i] == 0x47474747u32,
            forall|i: int| 0 <= i < 8 ==> r.status[i] == 0u32,
            r.status_map == 0,
            r.step == false,
            r.enabled == 0,
            r.current_interrupt == (0u8, 0u8),
            r.summary_consistent(),
    {
        let r = AICConfig {
            levels: [0x47474747u32; 8],
            status_map: 0,
            step: false,
            status: [0u32; 8],
            enabled: 0,
            current_interrupt: (0, 0),
        };
        proof {
            assert forall|p: u8| p < 8 implies !nth_bit8(0u8, p) by {
                assert((0u8 >> p) & 1 != 1) by (bit_vector);
            };
        }
        r
    }
}

impl AICConfig {
    /// The 8-bit priority/trigger table entry of source `n`.
    pub open spec fn spec_level(&self, n: u8) -> u8
        recommends
            n < 32,
    {
        ((self.levels[(n / 4) as int] >> (((n % 4) * 8) as u32)) & 0xff) as u8
    }

    /// The 3-bit priority of source `n` (0 = most urgent).
    pub open spec fn spec_priority(&self, n: u8) -> u8
        recommends
            n < 32,
    {
        (self.spec_level(n) & 7) as u8
    }

    /// The 2-bit trigger mode of source `n`, still in bits 4 and 5.
    pub open spec fn spec_mode(&self, n: u8) -> u8
        recommends
            n < 32,
    {
        (self.spec_level(n) & 0x30) as u8
    }

    /// Whether source `n` is masked (disabled) by the enable-mask register.
    pub open spec fn source_masked(&self, n: u8) -> bool
        recommends
            n < 32,
    {
        self.enabled & (1u32 << (n as u32)) != 0
    }

    /// The summary bitmap agrees with the pending bitmaps: bit `p` of the
    /// summary is set iff the pending bitmap for priority `p` is nonzero.
    pub open spec fn summary_consistent(&self) -> bool {
        forall|p: u8| p < 8 ==> (#[trigger] nth_bit8(self.status_map, p) <==> self.status[p as int] != 0)
    }

    /// Every pending bit sits in the priority class that the current table
    /// assigns to its source.
    pub open spec fn consistent_with_table(&self) -> bool {
        forall|p: int, j: u8|
            0 <= p < 8 && j < 32 && #[trigger] nth_bit32(self.status[p], j as u32)
                ==> self.spec_priority(j) as int == p
    }

    #[inline]
    fn get_level(&self, intno: InterruptNumber) -> (r: u8)
        ensures
            r == self.spec_level(intno.spec_number()),
    {
        let (offset, shift) = intno.as_offset_shift();
        proof {
            lemma_low_masks(self.levels[offset as int] >> (shift as u32));
        }
        ((self.levels[offset] >> (shift as u32)) & 0xff) as u8
    }

    /// Decide, for an incoming level transition on `intno`, whether a pending
    /// interrupt is latched; if so record it in the pending bitmap of the
    /// source's priority and in the occupied-priority summary.
    ///
    /// A masked source never latches, regardless of trigger mode or levels,
    /// and the controller state is then left unchanged.
    pub fn check_interrupt(&mut self, intno: InterruptNumber, incoming: bool, latched: bool) -> (r: bool)
        ensures
            ({
                let n = intno.spec_number();
                let prio = old(self).spec_priority(n);
                &&& r == (!old(self).source_masked(n) && trigger_fires(
                    old(self).spec_mode(n),
                    incoming,
                    latched,
                ))
                &&& !r ==> *final(self) == *old(self)
                &&& r ==> final(self).status[prio as int] == old(self).status[prio as int] | (
                1u32 << (n as u32))
                &&& r ==> forall|p: int|
                    0 <= p < 8 && p != prio as int ==> final(self).status[p] == old(self).status[p]
                &&& r ==> final(self).status_map == old(self).status_map | (1u8 << prio)
                &&& r ==> *final(self) == spec_latch(*old(self), n)
                &&& final(self).levels == old(self).levels
                &&& final(self).enabled == old(self).enabled
                &&& final(self).step == old(self).step
                &&& final(self).current_interrupt == old(self).current_interrupt
                &&& old(self).summary_consistent() ==> final(self).summary_consistent()
            }),
    {
        let n = intno.number();
        let mask: u32 = 1u32 << (n as u32);
        if self.enabled & mask != 0 {
            return false;
        }
        let level = self.get_level(intno);
        let mode = level & 0x30;
        proof {
            lemma_low_masks(level as u32);
        }
        let trigger = if mode == 0x00 {
            !incoming
        } else if mode == 0x10 {
            incoming
        } else if mode == 0x20 {
            incoming != latched && !incoming
        } else {
            incoming != latched && incoming
        };
        if trigger {
            let prio = level & 0x7;
            assert(level & 0x7 < 8) by (bit_vector);
            let ghost pre = *self;
            self.status[prio as usize] = self.status[prio as usize] | mask;
            self.status_map = self.status_map | (1u8 << prio);
            proof {
                lemma_or_bit_u32(pre.status[prio as int], n as u32);
                lemma_or_bit_u8(pre.status_map, prio);
                assert(self.status =~= vstd::array::spec_array_update(
                    pre.status,
                    prio as int,
                    pre.status[prio as int] | (1u32 << (n as u32)),
                ));
                if pre.summary_consistent() {
                    assert forall|p: u8| p < 8 implies (#[trigger] nth_bit8(self.status_map, p)
                        <==> self.status[p as int] != 0) by {
                        if p != prio {
                            assert(nth_bit8(self.status_map, p) == nth_bit8(pre.status_map, p));
                        }
                    };
                }
            }
            true
        } else {
            false
        }
    }

    /// Set mask bits: a bit set in `mask` disables that source.
    pub fn apply_enable_mask(&mut self, mask: u32)
        ensures
            *final(self) == (AICConfig { enabled: old(self).enabled | mask, ..*old(self) }),
    {
        self.enabled = self.enabled | mask;
    }

    /// Clear mask bits: a bit set in `mask` re-enables that source.
    pub fn apply_disable_mask(&mut self, mask: u32)
        ensures
            *final(self) == (AICConfig { enabled: old(self).enabled & !mask, ..*old(self) }),
    {
        self.enabled = self.enabled & !mask;
    }

    /// Flatten the per-priority pending bitmaps into one 32-bit status word.
    pub fn get_joint_status(&self) -> (r: u32)
        ensures
            r == spec_joint_status(*self),
    {
        self.status[0] | self.status[1] | self.status[2] | self.status[3] | self.status[4]
            | self.status[5] | self.status[6] | self.status[7]
    }

    /// Unflatten a joint status word: rebuild every per-priority pending
    /// bitmap and the occupied-priority summary from scratch, placing each
    /// set bit in the priority class the current table assigns to its source.
    pub fn set_joint_status(&mut self, status: u32)
        ensures
            unflatten_post(*old(self), status, *final(self)),
    {
        let mut new_status: [u32; 8] = [0u32; 8];
        let mut new_map: u8 = 0;
        proof {
            assert forall|p: int, j: u8| 0 <= p < 8 && j < 32 implies !(#[trigger] nth_bit32(
                new_status[p],
                j as u32,
            )) by {
                assert((0u32 >> (j as u32)) & 1 != 1) by (bit_vector);
            };
            assert forall|p: u8| p < 8 implies !nth_bit8(new_map, p) by {
                assert((0u8 >> p) & 1 != 1) by (bit_vector);
            };
        }
        let mut i: u8 = 0;
        while i < 32
            invariant
                i <= 32,
                forall|p: int, j: u8|
                    0 <= p < 8 && j < i ==> (#[trigger] nth_bit32(new_status[p], j as u32) <==> (
                    nth_bit32(status, j as u32) && self.spec_priority(j) as int == p)),
                forall|p: int, j: u8|
                    0 <= p < 8 && i <= j < 32 ==> !#[trigger] nth_bit32(new_status[p], j as u32),
                forall|p: u8| p < 8 ==> (#[trigger] nth_bit8(new_map, p) <==> new_status[p as int] != 0),
            decreases 32 - i,
        {
            if (status >> (i as u32)) & 1 == 1 {
                let level = ((self.levels[(i / 4) as usize] >> (((i % 4) * 8) as u32)) & 0xff) as u8;
                let prio = level & 0x7;
                assert(level & 0x7 < 8) by (bit_vector);
                assert(level == self.spec_level(i));
                assert(prio == self.spec_priority(i));
                let ghost old_status = new_status;
                let ghost old_map = new_map;
                new_status[prio as usize] = new_status[prio as usize] | (1u32 << (i as u32));
                new_map = new_map | (1u8 << prio);
                proof {
                    lemma_or_bit_u32(old_status[prio as int], i as u32);
                    lemma_or_bit_u8(old_map, prio);
                    assert(new_status[prio as int] == old_status[prio as int] | (1u32 << (
                    i as u32)));
                    assert forall|p: int, j: u8|
                        0 <= p < 8 && j < i + 1 implies (#[trigger] nth_bit32(
                        new_status[p],
                        j as u32,
                    ) <==> (nth_bit32(status, j as u32) && self.spec_priority(j) as int == p)) by {
                        if p == prio as int {
                            if j < i {
                                assert(((j as u32) != (i as u32)) && ((j as u32) < 32));
                                assert(nth_bit32(new_status[p], j as u32) == nth_bit32(
                                    old_status[p],
                                    j as u32,
                                ));
                            } else {
                                assert(nth_bit32(new_status[p], i as u32));
                            }
                        } else {
                            assert(new_status[p] == old_status[p]);
                        }
                    };
                    assert forall|p: int, j: u8|
                        0 <= p < 8 && i + 1 <= j < 32 implies !(#[trigger] nth_bit32(
                        new_status[p],
                        j as u32,
                    )) by {
                        if p == prio as int {
                            assert(((j as u32) != (i as u32)) && ((j as u32) < 32));
                            assert(nth_bit32(new_status[p], j as u32) == nth_bit32(
                                old_status[p],
                                j as u32,
                            ));
                        } else {
                            assert(new_status[p] == old_status[p]);
                        }
                    };
                    assert forall|p: u8| p < 8 implies (#[trigger] nth_bit8(new_map, p)
                        <==> new_status[p as int] != 0) by {
                        if p != prio {
                            assert(nth_bit8(new_map, p) == nth_bit8(old_map, p));
                            assert(new_status[p as int] == old_status[p as int]);
                        }
                    };
                }
            } else {
                assert(!nth_bit32(status, i as u32));
            }
            i = i + 1;
        }
        self.status = new_status;
        self.status_map = new_map;
    }

    /// Set bits in the flattened joint status, re-deriving the per-priority
    /// view from scratch.
    pub fn apply_status_set_mask(&mut self, mask: u32)
        ensures
            unflatten_post(*old(self), spec_joint_status(*old(self)) | mask, *final(self)),
    {
        let js = self.get_joint_status();
        self.set_joint_status(js | mask);
    }

    /// Clear bits in the flattened joint status, re-deriving the per-priority
    /// view from scratch.
    pub fn apply_status_clear_mask(&mut self, mask: u32)
        ensures
            unflatten_post(*old(self), spec_joint_status(*old(self)) & !mask, *final(self)),
    {
        let js = self.get_joint_status();
        self.set_joint_status(js & !mask);
    }

    /// Select, without popping, the most urgent pending interrupt: the
    /// lowest-numbered occupied priority, then the lowest-numbered pending
    /// source within it. Arbitrating on an empty pending set is a caller
    /// bug, excluded by the precondition.
    pub fn next_interrupt(&self) -> (r: (u8, u8))
        requires
            self.summary_consistent(),
            self.status_map != 0,
        ensures
            r.0 < 8,
            nth_bit8(self.status_map, r.0),
            forall|q: u8| q < r.0 ==> !(#[trigger] nth_bit8(self.status_map, q)),
            r.1 < 32,
            nth_bit32(self.status[r.0 as int], r.1 as u32),
            forall|j: u8| j < r.1 ==> !(#[trigger] nth_bit32(self.status[r.0 as int], j as u32)),
            r == spec_selection(*self),
    {
        let mut prio: u8 = 0;
        while (self.status_map >> prio) & 1 != 1
            invariant
                prio < 8,
                self.summary_consistent(),
                self.status_map != 0,
                forall|q: u8| q < prio ==> !(#[trigger] nth_bit8(self.status_map, q)),
            decreases 8 - prio,
        {
            prio = prio + 1;
            proof {
                if prio == 8 {
                    lemma_u8_bits_zero(self.status_map);
                    assert(false);
                }
            }
        }
        let pending = self.status[prio as usize];
        proof {
            assert(nth_bit8(self.status_map, prio));
            assert(pending != 0);
        }
        let mut num: u8 = 0;
        while (pending >> (num as u32)) & 1 != 1
            invariant
                num < 32,
                pending != 0,
                forall|j: u8| j < num ==> !(#[trigger] nth_bit32(pending, j as u32)),
            decreases 32 - num,
        {
            num = num + 1;
            proof {
                if num == 32 {
                    assert forall|j: u32| j < 32 implies !nth_bit32(pending, j) by {
                        assert(!nth_bit32(pending, (j as u8) as u32));
                    };
                    lemma_u32_bits_zero(pending);
                    assert(false);
                }
            }
        }
        proof {
            lemma_lowest8_char(self.status_map, prio, 0);
            lemma_lowest32_char(pending, num, 0);
        }
        (prio, num)
    }

    /// Select as `next_interrupt` does, then clear that single pending bit,
    /// record the interrupt as currently in service, and keep the summary
    /// bitmap in lock-step (the priority's summary bit is cleared when its
    /// pending bitmap becomes empty).
    pub fn pop_next_interrupt(&mut self) -> (r: (u8, u8))
        requires
            old(self).summary_consistent(),
            old(self).status_map != 0,
        ensures
            r.0 < 8,
            nth_bit8(old(self).status_map, r.0),
            forall|q: u8| q < r.0 ==> !(#[trigger] nth_bit8(old(self).status_map, q)),
            r.1 < 32,
            nth_bit32(old(self).status[r.0 as int], r.1 as u32),
            forall|j: u8|
                j < r.1 ==> !(#[trigger] nth_bit32(old(self).status[r.0 as int], j as u32)),
            final(self).current_interrupt == r,
            final(self).status[r.0 as int] == old(self).status[r.0 as int] & !(1u32 << (
            r.1 as u32)),
            forall|p: int|
                0 <= p < 8 && p != r.0 as int ==> final(self).status[p] == old(self).status[p],
            final(self).status_map == (if final(self).status[r.0 as int] == 0 {
                old(self).status_map & !(1u8 << r.0)
            } else {
                old(self).status_map
            }),
            final(self).summary_consistent(),
            final(self).levels == old(self).levels,
            final(self).enabled == old(self).enabled,
            final(self).step == old(self).step,
            r == spec_selection(*old(self)),
            *final(self) == spec_pop(*old(self)),
    {
        let (prio, num) = self.next_interrupt();
        self.current_interrupt = (prio, num);
        let ghost pre = *self;
        let status = self.status[prio as usize];
        self.status[prio as usize] = status & !(1u32 << (num as u32));
        proof {
            lemma_clear_bit_u32(status, num as u32);
        }
        if self.status[prio as usize] == 0 {
            self.status_map = self.status_map & !(1u8 << prio);
            proof {
                lemma_clear_bit_u8(pre.status_map, prio);
                assert forall|p: u8| p < 8 implies (#[trigger] nth_bit8(self.status_map, p)
                    <==> self.status[p as int] != 0) by {
                    if p != prio {
                        assert(nth_bit8(self.status_map, p) == nth_bit8(pre.status_map, p));
                    }
                };
            }
        } else {
            proof {
                assert forall|p: u8| p < 8 implies (#[trigger] nth_bit8(self.status_map, p)
                    <==> self.status[p as int] != 0) by {};
            }
        }
        proof {
            assert(self.status =~= vstd::array::spec_array_update(
                pre.status,
                prio as int,
                pre.status[prio as int] & !(1u32 << (num as u32)),
            ));
        }
        (prio, num)
    }
}

/// The flattened 32-bit view of the per-priority pending bitmaps.
pub open spec fn spec_joint_status(c: AICConfig) -> u32 {
    c.status[0] | c.status[1] | c.status[2] | c.status[3] | c.status[4] | c.status[5] | c.status[6]
        | c.status[7]
}

/// What unflattening a joint status word leaves behind: each pending bit
/// placed in the priority class the table of `pre` assigns to it, the
/// summary re-derived, and everything else untouched.
pub open spec fn unflatten_post(pre: AICConfig, joint: u32, post: AICConfig) -> bool {
    &&& forall|p: int, j: u8|
        0 <= p < 8 && j < 32 ==> (#[trigger] nth_bit32(post.status[p], j as u32) <==> (nth_bit32(
            joint,
            j as u32,
        ) && pre.spec_priority(j) as int == p))
    &&& post.summary_consistent()
    &&& post.levels == pre.levels
    &&& post.enabled == pre.enabled
    &&& post.step == pre.step
    &&& post.current_interrupt == pre.current_interrupt
}

/// As `unflatten_post`, but leaving the dispatch step flag unconstrained
/// (the register write path manages it separately).
pub open spec fn unflatten_wrote(pre: AICConfig, joint: u32, post: AICConfig) -> bool {
    &&& forall|p: int, j: u8|
        0 <= p < 8 && j < 32 ==> (#[trigger] nth_bit32(post.status[p], j as u32) <==> (nth_bit32(
            joint,
            j as u32,
        ) && pre.spec_priority(j) as int == p))
    &&& post.summary_consistent()
    &&& post.levels == pre.levels
    &&& post.enabled == pre.enabled
    &&& post.current_interrupt == pre.current_interrupt
}

proof fn lemma_joint_bits(c: AICConfig)
    ensures
        forall|j: u8|
            j < 32 ==> (#[trigger] nth_bit32(spec_joint_status(c), j as u32) <==> (nth_bit32(
                c.status[0],
                j as u32,
            ) || nth_bit32(c.status[1], j as u32) || nth_bit32(c.status[2], j as u32) || nth_bit32(
                c.status[3],
                j as u32,
            ) || nth_bit32(c.status[4], j as u32) || nth_bit32(c.status[5], j as u32) || nth_bit32(
                c.status[6],
                j as u32,
            ) || nth_bit32(c.status[7], j as u32))),
{
    let s0 = c.status[0];
    let s1 = c.status[1];
    let s2 = c.status[2];
    let s3 = c.status[3];
    let s4 = c.status[4];
    let s5 = c.status[5];
    let s6 = c.status[6];
    let s7 = c.status[7];
    assert forall|j: u8| j < 32 implies (#[trigger] nth_bit32(
        s0 | s1 | s2 | s3 | s4 | s5 | s6 | s7,
        j as u32,
    ) <==> (nth_bit32(s0, j as u32) || nth_bit32(s1, j as u32) || nth_bit32(s2, j as u32)
        || nth_bit32(s3, j as u32) || nth_bit32(s4, j as u32) || nth_bit32(s5, j as u32)
        || nth_bit32(s6, j as u32) || nth_bit32(s7, j as u32))) by {
        let jj = j as u32;
        assert(jj < 32 ==> (nth_bit32(s0 | s1 | s2 | s3 | s4 | s5 | s6 | s7, jj) <==> (nth_bit32(
            s0,
            jj,
        ) || nth_bit32(s1, jj) || nth_bit32(s2, jj) || nth_bit32(s3, jj) || nth_bit32(s4, jj)
            || nth_bit32(s5, jj) || nth_bit32(s6, jj) || nth_bit32(s7, jj)))) by (bit_vector);
    };
}

/// Law: flattening the per-priority pending state to the joint bitmap and
/// unflattening that bitmap through the same priority table reproduces the
/// identical per-priority pending state and summary, for any pending
/// configuration consistent with the table.
pub proof fn lemma_joint_status_round_trip(pre: AICConfig, post: AICConfig)
    requires
        pre.summary_consistent(),
        pre.consistent_with_table(),
        unflatten_post(pre, spec_joint_status(pre), post),
    ensures
        forall|p: int| 0 <= p < 8 ==> post.status[p] == pre.status[p],
        post.status_map == pre.status_map,
{
    lemma_joint_bits(pre);
    assert forall|p: int| 0 <= p < 8 implies post.status[p] == pre.status[p] by {
        assert forall|j: u32| j < 32 implies nth_bit32(post.status[p], j) == nth_bit32(
            pre.status[p],
            j,
        ) by {
            let j8 = j as u8;
            assert(j8 as u32 == j);
            if nth_bit32(pre.status[p], j) {
                assert(nth_bit32(pre.status[p], j8 as u32));
                assert(pre.spec_priority(j8) as int == p);
                assert(nth_bit32(spec_joint_status(pre), j8 as u32));
                assert(nth_bit32(post.status[p], j8 as u32));
            }
            if nth_bit32(post.status[p], j) {
                assert(nth_bit32(post.status[p], j8 as u32));
                assert(nth_bit32(spec_joint_status(pre), j8 as u32) && pre.spec_priority(j8) as int
                    == p);
                assert(nth_bit32(pre.status[0], j8 as u32) || nth_bit32(pre.status[1], j8 as u32)
                    || nth_bit32(pre.status[2], j8 as u32) || nth_bit32(pre.status[3], j8 as u32)
                    || nth_bit32(pre.status[4], j8 as u32) || nth_bit32(pre.status[5], j8 as u32)
                    || nth_bit32(pre.status[6], j8 as u32) || nth_bit32(pre.status[7], j8 as u32));
                assert(nth_bit32(pre.status[p], j8 as u32));
            }
        };
        lemma_u32_eq_by_bits(post.status[p], pre.status[p]);
    };
    assert forall|q: u8| q < 8 implies nth_bit8(post.status_map, q) == nth_bit8(
        pre.status_map,
        q,
    ) by {
        assert(nth_bit8(post.status_map, q) <==> post.status[q as int] != 0);
        assert(nth_bit8(pre.status_map, q) <==> pre.status[q as int] != 0);
    };
    lemma_u8_eq_by_bits(post.status_map, pre.status_map);
}

} // verus!

verus! {

/// The lowest set bit of `m` at position `i` or above (8 when none).
pub open spec fn spec_lowest8_from(m: u8, i: u8) -> u8
    decreases 8 - i,
{
    if i >= 8 {
        8
    } else if (m >> i) & 1 == 1 {
        i
    } else {
        spec_lowest8_from(m, (i + 1) as u8)
    }
}

/// The lowest set bit of the summary bitmap.
pub open spec fn spec_lowest8(m: u8) -> u8 {
    spec_lowest8_from(m, 0)
}

/// The lowest set bit of `x` at position `i` or above (32 when none).
pub open spec fn spec_lowest32_from(x: u32, i: u8) -> u8
    decreases 32 - i,
{
    if i >= 32 {
        32
    } else if (x >> (i as u32)) & 1 == 1 {
        i
    } else {
        spec_lowest32_from(x, (i + 1) as u8)
    }
}

/// The lowest set bit of a pending bitmap.
pub open spec fn spec_lowest32(x: u32) -> u8 {
    spec_lowest32_from(x, 0)
}

proof fn lemma_lowest8_char(m: u8, k: u8, i: u8)
    requires
        i <= k < 8,
        nth_bit8(m, k),
        forall|q: u8| i <= q < k ==> !(#[trigger] nth_bit8(m, q)),
    ensures
        spec_lowest8_from(m, i) == k,
    decreases 8 - i,
{
    if i < k {
        assert(!nth_bit8(m, i));
        lemma_lowest8_char(m, k, (i + 1) as u8);
    }
}

proof fn lemma_lowest32_char(x: u32, k: u8, i: u8)
    requires
        i <= k < 32,
        nth_bit32(x, k as u32),
        forall|q: u8| i <= q < k ==> !(#[trigger] nth_bit32(x, q as u32)),
    ensures
        spec_lowest32_from(x, i) == k,
    decreases 32 - i,
{
    if i < k {
        assert(!nth_bit32(x, i as u32));
        lemma_lowest32_char(x, k, (i + 1) as u8);
    }
}

/// Whether an edge on source `n` latches an interrupt: the source must be
/// unmasked and its trigger mode must fire for the level transition.
pub open spec fn spec_fires(aic: AICConfig, n: u8, incoming: bool, latched: bool) -> bool
    recommends
        n < 32,
{
    !aic.source_masked(n) && trigger_fires(aic.spec_mode(n), incoming, latched)
}

/// The controller after latching source `n`: its bit appears in the pending
/// bitmap of its priority and in the occupied-priority summary.
pub open spec fn spec_latch(aic: AICConfig, n: u8) -> AICConfig
    recommends
        n < 32,
{
    let prio = aic.spec_priority(n);
    AICConfig {
        status: vstd::array::spec_array_update(
            aic.status,
            prio as int,
            aic.status[prio as int] | (1u32 << (n as u32)),
        ),
        status_map: aic.status_map | (1u8 << prio),
        ..aic
    }
}

/// The controller after an edge on source `n`: latched when it fires,
/// untouched otherwise.
pub open spec fn spec_checked(aic: AICConfig, n: u8, incoming: bool, latched: bool) -> AICConfig
    recommends
        n < 32,
{
    if spec_fires(aic, n, incoming, latched) {
        spec_latch(aic, n)
    } else {
        aic
    }
}

/// The arbitration choice: the lowest-numbered occupied priority and the
/// lowest-numbered pending source within it.
pub open spec fn spec_selection(aic: AICConfig) -> (u8, u8)
    recommends
        aic.status_map != 0,
{
    let prio = spec_lowest8(aic.status_map);
    (prio, spec_lowest32(aic.status[prio as int]))
}

/// The controller after popping the selected interrupt: its pending bit is
/// cleared, the summary follows when the priority empties, and the
/// interrupt is recorded as in service.
pub open spec fn spec_pop(aic: AICConfig) -> AICConfig
    recommends
        aic.status_map != 0,
{
    let sel = spec_selection(aic);
    let cleared = aic.status[sel.0 as int] & !(1u32 << (sel.1 as u32));
    AICConfig {
        status: vstd::array::spec_array_update(aic.status, sel.0 as int, cleared),
        status_map: (if cleared == 0 {
            aic.status_map & !(1u8 << sel.0)
        } else {
            aic.status_map
        }),
        current_interrupt: sel,
        ..aic
    }
}

} // verus!

verus! {

use crate::device::{ExtraState, StopReasonKind};
use crate::exception::ExceptionType;

/// The controller after an edge posted from a peripheral: as
/// `spec_checked`, and a firing edge also marks the controller stepped so
/// the next dispatch pass arbitrates.
pub open spec fn spec_post(aic: AICConfig, n: u8, incoming: bool, latched: bool) -> AICConfig
    recommends
        n < 32,
{
    if spec_fires(aic, n, incoming, latched) {
        AICConfig { step: true, ..spec_latch(aic, n) }
    } else {
        aic
    }
}

/// The only sanctioned way for a peripheral to signal a hardware event:
/// run the trigger check for the source and, if it latches, request a Tick
/// stop so the controller's own dispatch runs before the next guest
/// instruction.
pub fn post_interrupt(state: &mut ExtraState, intno: InterruptNumber, incoming: bool, latched: bool)
    ensures
        final(state).aic == spec_post(old(state).aic, intno.spec_number(), incoming, latched),
        final(state).stop_reason == (if spec_fires(
            old(state).aic,
            intno.spec_number(),
            incoming,
            latched,
        ) {
            old(state).stop_reason.spec_insert(StopReasonKind::Tick)
        } else {
            old(state).stop_reason
        }),
        final(state).steps == old(state).steps,
        final(state).clk == old(state).clk,
        final(state).sic == old(state).sic,
        final(state).tmr == old(state).tmr,
{
    if state.aic.check_interrupt(intno, incoming, latched) {
        state.aic.step = true;
        crate::device::request_stop(state, StopReasonKind::Tick);
    }
}

/// The controller's dispatch step: when the interrupt state has changed
/// and something is pending, pop the most urgent interrupt and name the
/// CPU exception that delivers it - the fast interrupt for priority 0,
/// the normal interrupt for every other priority.
pub fn tick(state: &mut ExtraState) -> (r: Option<ExceptionType>)
    requires
        old(state).aic.summary_consistent(),
    ensures
        old(state).aic.step && old(state).aic.status_map != 0 ==> {
            &&& r == Some(
                if spec_selection(old(state).aic).0 == 0 {
                    ExceptionType::FIQ
                } else {
                    ExceptionType::IRQ
                },
            )
            &&& *final(state) == (ExtraState { aic: spec_pop(old(state).aic), ..*old(state) })
        },
        !(old(state).aic.step && old(state).aic.status_map != 0) ==> r is None && *final(state)
            == *old(state),
        final(state).aic.summary_consistent(),
{
    if state.aic.step && state.aic.status_map != 0 {
        let (prio, _num) = state.aic.pop_next_interrupt();
        if prio == 0 {
            Some(ExceptionType::FIQ)
        } else {
            Some(ExceptionType::IRQ)
        }
    } else {
        None
    }
}

} // verus!

verus! {

/// Latching an unmasked source keeps the summary bitmap in lock-step with
/// the pending bitmaps.
pub proof fn lemma_post_preserves_consistency(aic: AICConfig, n: u8, incoming: bool, latched: bool)
    requires
        aic.summary_consistent(),
        n < 32,
    ensures
        spec_post(aic, n, incoming, latched).summary_consistent(),
        spec_checked(aic, n, incoming, latched).summary_consistent(),
{
    if spec_fires(aic, n, incoming, latched) {
        let l = aic.spec_level(n);
        assert(l & 7 < 8) by (bit_vector);
        let prio = aic.spec_priority(n);
        lemma_or_bit_u32(aic.status[prio as int], n as u32);
        lemma_or_bit_u8(aic.status_map, prio);
        let post = spec_latch(aic, n);
        assert forall|p: u8| p < 8 implies (#[trigger] nth_bit8(post.status_map, p)
            <==> post.status[p as int] != 0) by {
            if p != prio {
                assert(nth_bit8(post.status_map, p) == nth_bit8(aic.status_map, p));
                assert(post.status[p as int] == aic.status[p as int]);
            }
        };
    }
}

impl AICConfig {
    /// Executable check of the summary invariant, for embedding programs
    /// that assemble a controller state by hand.
    pub fn summary_ok(&self) -> (r: bool)
        ensures
            r == self.summary_consistent(),
    {
        let mut p: u8 = 0;
        while p < 8
            invariant
                p <= 8,
                forall|q: u8|
                    q < p ==> (#[trigger] nth_bit8(self.status_map, q) <==> self.status[q as int]
                        != 0),
            decreases 8 - p,
        {
            let bit = (self.status_map >> p) & 1 == 1;
            let nonzero = self.status[p as usize] != 0;
            if bit != nonzero {
                proof {
                    assert(nth_bit8(self.status_map, p) == bit);
                    assert(!(nth_bit8(self.status_map, p) <==> self.status[p as int] != 0));
                }
                return false;
            }
            p = p + 1;
        }
        true
    }
}

} // verus!

verus! {

/// First word of the priority/trigger table.
pub const REG_AIC_SCR_START: u64 = 0x0;

/// End (exclusive) of the priority/trigger table window.
pub const REG_AIC_SCR_END: u64 = 0x20;

/// Joint pending-status register (read flattens, write unflattens).
pub const REG_AIC_ISR: u64 = 0x108;

/// Interrupt-pending port register (in-service source, shifted).
pub const REG_AIC_IPER: u64 = 0x10c;

/// In-service source number register.
pub const REG_AIC_ISNR: u64 = 0x110;

/// Interrupt mask register (bit set = source masked).
pub const REG_AIC_IMR: u64 = 0x114;

/// Mask-enable command register (write sets mask bits, disabling sources).
pub const REG_AIC_MECR: u64 = 0x120;

/// Mask-disable command register (write clears mask bits, enabling sources).
pub const REG_AIC_MDCR: u64 = 0x124;

/// Joint-status write-1-to-set command register.
pub const REG_AIC_SSCR: u64 = 0x128;

/// Joint-status write-1-to-clear command register.
pub const REG_AIC_SCCR: u64 = 0x12c;

/// End-of-service command register (write re-arbitrates).
pub const REG_AIC_EOSCR: u64 = 0x130;

/// Controller register read. Only 4-byte naturally aligned accesses reach
/// the registers; anything else reads as zero. Reading the joint status
/// register also acknowledges the dispatch step flag.
pub fn read(state: &mut ExtraState, addr: u64, size: usize) -> (r: u64)
    ensures
        final(state).aic == (if size == 4 && addr == REG_AIC_ISR {
            AICConfig { step: false, ..old(state).aic }
        } else {
            old(state).aic
        }),
        *final(state) == (ExtraState { aic: final(state).aic, ..*old(state) }),
        size != 4 ==> r == 0,
        size == 4 ==> ({
            let aic = old(state).aic;
            &&& (REG_AIC_SCR_START <= addr < REG_AIC_SCR_END && addr % 4 == 0 ==> r
                == aic.levels[addr as int / 4] as u64)
            &&& (REG_AIC_SCR_START <= addr < REG_AIC_SCR_END && addr % 4 != 0 ==> r == 0)
            &&& (addr == REG_AIC_IPER ==> r == (aic.current_interrupt.1 as u64) << 2u64)
            &&& (addr == REG_AIC_ISNR ==> r == aic.current_interrupt.1 as u64)
            &&& (addr == REG_AIC_IMR ==> r == aic.enabled as u64)
            &&& (addr == REG_AIC_ISR ==> r == spec_joint_status(aic) as u64)
            &&& (!(REG_AIC_SCR_START <= addr < REG_AIC_SCR_END) && addr != REG_AIC_IPER && addr
                != REG_AIC_ISNR && addr != REG_AIC_IMR && addr != REG_AIC_ISR ==> r == 0)
        }),
{
    if size != 4 {
        return 0;
    }
    if addr < REG_AIC_SCR_END {
        if addr % 4 != 0 {
            return 0;
        }
        return state.aic.levels[(addr / 4) as usize] as u64;
    }
    if addr == REG_AIC_IPER {
        return (state.aic.current_interrupt.1 as u64) << 2u64;
    }
    if addr == REG_AIC_ISNR {
        return state.aic.current_interrupt.1 as u64;
    }
    if addr == REG_AIC_IMR {
        return state.aic.enabled as u64;
    }
    if addr == REG_AIC_ISR {
        state.aic.step = false;
        let js = state.aic.get_joint_status();
        return js as u64;
    }
    0
}

/// Controller register write, taking the low 32 bits of the value: table
/// entries and the mask register are stored, the mask-enable and
/// mask-disable commands set and clear mask bits, the joint-status
/// register and its write-1-to-set command unflatten through the table
/// (requesting a dispatch when anything is pending), the write-1-to-clear
/// command unflattens without requesting one, and the end-of-service
/// command requests re-arbitration while interrupts are pending.
pub fn write(state: &mut ExtraState, addr: u64, size: usize, value: u64)
    ensures
        ({
            let aic = old(state).aic;
            let v32 = (value & 0xffffffff) as u32;
            let sr_tick = old(state).stop_reason.spec_insert(StopReasonKind::Tick);
            let sr_old = old(state).stop_reason;
            &&& final(state).steps == old(state).steps
            &&& final(state).clk == old(state).clk
            &&& final(state).sic == old(state).sic
            &&& final(state).tmr == old(state).tmr
            &&& (REG_AIC_SCR_START <= addr < REG_AIC_SCR_END ==> final(state).aic == (AICConfig {
                levels: vstd::array::spec_array_update(aic.levels, addr as int / 4, v32),
                ..aic
            }) && final(state).stop_reason == old(state).stop_reason)
            &&& (addr == REG_AIC_IMR ==> final(state).aic == (AICConfig { enabled: v32, ..aic })
                && final(state).stop_reason == old(state).stop_reason)
            &&& (addr == REG_AIC_MECR ==> final(state).aic == (AICConfig {
                enabled: aic.enabled | v32,
                ..aic
            }) && final(state).stop_reason == old(state).stop_reason)
            &&& (addr == REG_AIC_MDCR ==> final(state).aic == (AICConfig {
                enabled: aic.enabled & !v32,
                ..aic
            }) && final(state).stop_reason == old(state).stop_reason)
            &&& (addr == REG_AIC_ISR ==> {
                &&& unflatten_wrote(aic, v32, final(state).aic)
                &&& (v32 != 0 ==> final(state).aic.step == true && final(state).stop_reason
                    == sr_tick)
                &&& (v32 == 0 ==> final(state).aic.step == aic.step && final(state).stop_reason
                    == sr_old)
            })
            &&& (addr == REG_AIC_SSCR ==> {
                &&& unflatten_wrote(aic, spec_joint_status(aic) | v32, final(state).aic)
                &&& (v32 != 0 ==> final(state).aic.step == true && final(state).stop_reason
                    == sr_tick)
                &&& (v32 == 0 ==> final(state).aic.step == aic.step && final(state).stop_reason
                    == sr_old)
            })
            &&& (addr == REG_AIC_SCCR ==> {
                &&& unflatten_wrote(aic, spec_joint_status(aic) & !v32, final(state).aic)
                &&& final(state).aic.step == aic.step
                &&& final(state).stop_reason == sr_old
            })
            &&& (addr == REG_AIC_EOSCR ==> (if spec_joint_status(aic) != 0 {
                final(state).aic == (AICConfig { step: true, ..aic }) && final(state).stop_reason
                    == sr_tick
            } else {
                final(state).aic == aic && final(state).stop_reason == sr_old
            }))
            &&& (!(REG_AIC_SCR_START <= addr < REG_AIC_SCR_END) && addr != REG_AIC_IMR && addr
                != REG_AIC_MECR && addr != REG_AIC_MDCR && addr != REG_AIC_ISR && addr
                != REG_AIC_SSCR && addr != REG_AIC_SCCR && addr != REG_AIC_EOSCR ==> *final(state)
                == *old(state))
        }),
{
    let v32 = (value & 0xffffffff) as u32;
    if addr < REG_AIC_SCR_END {
        let ghost pre = state.aic.levels;
        state.aic.levels[(addr / 4) as usize] = v32;
        proof {
            assert(state.aic.levels =~= vstd::array::spec_array_update(
                pre,
                addr as int / 4,
                v32,
            ));
        }
        return ;
    }
    if addr == REG_AIC_IMR {
        state.aic.enabled = v32;
        return ;
    }
    if addr == REG_AIC_MECR {
        state.aic.apply_enable_mask(v32);
        return ;
    }
    if addr == REG_AIC_MDCR {
        state.aic.apply_disable_mask(v32);
        return ;
    }
    if addr == REG_AIC_ISR {
        state.aic.set_joint_status(v32);
        if v32 != 0 {
            state.aic.step = true;
            crate::device::request_stop(state, StopReasonKind::Tick);
        }
        return ;
    }
    if addr == REG_AIC_SSCR {
        state.aic.apply_status_set_mask(v32);
        if v32 != 0 {
            state.aic.step = true;
            crate::device::request_stop(state, StopReasonKind::Tick);
        }
        return ;
    }
    if addr == REG_AIC_SCCR {
        state.aic.apply_status_clear_mask(v32);
        return ;
    }
    if addr == REG_AIC_EOSCR {
        let js = state.aic.get_joint_status();
        if js != 0 {
            state.aic.step = true;
            crate::device::request_stop(state, StopReasonKind::Tick);
        }
        return ;
    }
}

} // verus!
