//! Timer peripheral: two countdown channels whose compare matches raise
//! interrupts, plus the watchdog register. The scheduler's pre-instruction
//! hook drives the channels from the instruction-step counter.
use vstd::prelude::*;

use crate::device::ExtraState;
use crate::peripherals::aic::{nth_bit32, spec_fires, spec_post, InterruptNumber};

verus! {

/// Watchdog control register, kept as its raw byte.
#[derive(Debug, Clone, Copy, PartialEq, Eq, Structural, Default)]
pub struct WatchdogControl {
    pub bits: u32,
}

/// The four timer channel modes held in bits 27 and 28 of the control
/// register.
#[derive(Debug, Clone, Copy, PartialEq, Eq, Structural)]
pub enum TimerMode {
    OneShot,
    Periodic,
    Toggle,
    Uninterrupted,
}

impl TimerMode {
    pub open spec fn spec_from_encoding(v: u32) -> TimerMode {
        if v == 0 {
            TimerMode::OneShot
        } else if v == 1 {
            TimerMode::Periodic
        } else if v == 2 {
            TimerMode::Toggle
        } else {
            TimerMode::Uninterrupted
        }
    }

    pub fn from_encoding(v: u32) -> (r: TimerMode)
        ensures
            r == TimerMode::spec_from_encoding(v),
    {
        if v == 0 {
            TimerMode::OneShot
        } else if v == 1 {
            TimerMode::Periodic
        } else if v == 2 {
            TimerMode::Toggle
        } else {
            TimerMode::Uninterrupted
        }
    }
}

/// Timer channel control register: the prescaler in the low byte, the mode
/// in bits 27 and 28, reset in bit 26, interrupt enable in bit 29, channel
/// enable in bit 30.
#[derive(Debug, Clone, Copy, PartialEq, Eq, Structural, Default)]
pub struct TimerControl {
    pub bits: u32,
}

impl TimerControl {
    pub open spec fn spec_prescale(&self) -> u32 {
        self.bits & 0xff
    }

    pub open spec fn spec_reset(&self) -> bool {
        nth_bit32(self.bits, 26)
    }

    pub open spec fn spec_mode(&self) -> TimerMode {
        TimerMode::spec_from_encoding((self.bits >> 27) & 0x3)
    }

    pub open spec fn spec_irq_enable(&self) -> bool {
        nth_bit32(self.bits, 29)
    }

    pub open spec fn spec_enable(&self) -> bool {
        nth_bit32(self.bits, 30)
    }

    /// The control bits with the channel enable forced off.
    pub open spec fn spec_disabled(&self) -> TimerControl {
        TimerControl { bits: self.bits & !(1u32 << 30) }
    }

    pub fn get_prescale(&self) -> (r: u32)
        ensures
            r == self.spec_prescale(),
            r < 256,
    {
        proof {
            let b = self.bits;
            assert(b & 0xff < 256) by (bit_vector);
        }
        self.bits & 0xff
    }

    pub fn get_reset(&self) -> (r: bool)
        ensures
            r == self.spec_reset(),
    {
        (self.bits >> 26) & 1 == 1
    }

    pub fn get_mode(&self) -> (r: TimerMode)
        ensures
            r == self.spec_mode(),
    {
        TimerMode::from_encoding((self.bits >> 27) & 0x3)
    }

    pub fn get_irq_enable(&self) -> (r: bool)
        ensures
            r == self.spec_irq_enable(),
    {
        (self.bits >> 29) & 1 == 1
    }

    pub fn get_enable(&self) -> (r: bool)
        ensures
            r == self.spec_enable(),
    {
        (self.bits >> 30) & 1 == 1
    }

    pub fn set_enable(&mut self, v: bool)
        ensures
            final(self).bits == (if v {
                old(self).bits | (1u32 << 30)
            } else {
                old(self).bits & !(1u32 << 30)
            }),
    {
        if v {
            self.bits = self.bits | (1u32 << 30);
        } else {
            self.bits = self.bits & !(1u32 << 30);
        }
    }

    pub fn set_reset(&mut self, v: bool)
        ensures
            final(self).bits == (if v {
                old(self).bits | (1u32 << 26)
            } else {
                old(self).bits & !(1u32 << 26)
            }),
    {
        if v {
            self.bits = self.bits | (1u32 << 26);
        } else {
            self.bits = self.bits & !(1u32 << 26);
        }
    }
}

/// One timer channel: counter, compare value, control register and the
/// toggle-mode output level.
#[derive(Debug, Clone, Copy, PartialEq, Eq, Structural, Default)]
pub struct TimerChannel {
    pub count: u32,
    pub compare: u32,
    pub control: TimerControl,
    /// Toggle-mode output level.
    pub level: bool,
}

/// The channel state and interrupt decision after a compare check: a
/// disabled channel or one short of its compare value does nothing; at the
/// compare point the mode decides whether the counter restarts, the
/// channel disarms, or the toggle output flips without an interrupt.
pub open spec fn spec_check_irq(ch: TimerChannel) -> (TimerChannel, bool) {
    if !ch.control.spec_enable() {
        (ch, false)
    } else if ch.count != ch.compare {
        (ch, false)
    } else {
        match ch.control.spec_mode() {
            TimerMode::OneShot => (TimerChannel { control: ch.control.spec_disabled(), ..ch }, true),
            TimerMode::Periodic => (TimerChannel { count: 0, ..ch }, true),
            TimerMode::Toggle => {
                if ch.level {
                    (TimerChannel { count: 0, level: false, ..ch }, false)
                } else {
                    (TimerChannel { count: 0, ..ch }, true)
                }
            },
            TimerMode::Uninterrupted => (ch, true),
        }
    }
}

impl TimerChannel {
    /// Check whether the channel has reached its compare point and decide,
    /// from the mode, whether an interrupt fires.
    pub fn check_irq_condition(&mut self) -> (r: bool)
        ensures
            (*final(self), r) == spec_check_irq(*old(self)),
    {
        if !self.control.get_enable() {
            return false;
        }
        if self.count == self.compare {
            let mut rv = true;
            match self.control.get_mode() {
                TimerMode::OneShot => self.control.set_enable(false),
                TimerMode::Periodic => self.count = 0,
                TimerMode::Toggle => {
                    self.count = 0;
                    if self.level {
                        rv = false;
                        self.level = !self.level;
                    }
                },
                TimerMode::Uninterrupted => {},
            }
            rv
        } else {
            false
        }
    }

    /// Acknowledge a software reset request: clear the reset and enable
    /// bits and restart the counter.
    pub fn reset(&mut self)
        ensures
            final(self).control.bits == (old(self).control.bits & !(1u32 << 26)) & !(1u32 << 30),
            final(self).count == 0,
            final(self).level == false,
            final(self).compare == old(self).compare,
    {
        self.control.set_reset(false);
        self.control.set_enable(false);
        self.reset_counter();
    }

    /// Restart the counter and drop the toggle output.
    pub fn reset_counter(&mut self)
        ensures
            *final(self) == (TimerChannel { count: 0, level: false, ..*old(self) }),
    {
        self.count = 0;
        self.level = false;
    }
}

/// The timer block: the interrupt status byte, the two channels, and the
/// watchdog register.
#[derive(Debug, Clone, Copy, Default)]
pub struct TimerConfig {
    pub status: u8,
    pub channels: [TimerChannel; 2],
    pub watchdog: WatchdogControl,
}

/// A channel advanced by one peripheral-bus boundary: an enabled channel
/// counts up (wrapping) whenever the step count divides its prescaled
/// rate.
pub open spec fn spec_advanced(ch: TimerChannel, steps: u64, div_apb: u64) -> TimerChannel
    recommends
        div_apb > 0,
{
    let rate = (div_apb * (ch.control.spec_prescale() + 1)) as int;
    if ch.control.spec_enable() && (steps as int) % rate == 0 {
        TimerChannel { count: vstd::wrapping::u32_specs::wrapping_add(ch.count, 1), ..ch }
    } else {
        ch
    }
}

/// How one peripheral-bus boundary relates the states: off-boundary steps
/// change nothing; on a boundary both channels advance, the channels that
/// reached their compare point raise their status bits and post their
/// interrupt lines to the controller, one after the other.
pub open spec fn timers_serviced(pre: ExtraState, post: ExtraState, steps: u64) -> bool {
    let apb = pre.clk.tick_config.apb;
    if (steps as int) % (apb as int) != 0 {
        post == pre
    } else {
        let a0 = spec_advanced(pre.tmr.channels[0], steps, apb);
        let a1 = spec_advanced(pre.tmr.channels[1], steps, apb);
        let c0 = spec_check_irq(a0);
        let c1 = spec_check_irq(a1);
        let aic0 = pre.aic;
        let aic1 = (if c0.1 {
            spec_post(aic0, 14, true, false)
        } else {
            aic0
        });
        let aic2 = (if c1.1 {
            spec_post(aic1, 15, true, false)
        } else {
            aic1
        });
        let sr0 = pre.stop_reason;
        let sr1 = (if c0.1 && spec_fires(aic0, 14, true, false) {
            sr0.spec_insert(crate::device::StopReasonKind::Tick)
        } else {
            sr0
        });
        let sr2 = (if c1.1 && spec_fires(aic1, 15, true, false) {
            sr1.spec_insert(crate::device::StopReasonKind::Tick)
        } else {
            sr1
        });
        &&& post.tmr.channels[0] == c0.0
        &&& post.tmr.channels[1] == c1.0
        &&& post.tmr.status == (if c0.1 {
            if c1.1 {
                (pre.tmr.status | 1u8) | 2u8
            } else {
                pre.tmr.status | 1u8
            }
        } else {
            if c1.1 {
                pre.tmr.status | 2u8
            } else {
                pre.tmr.status
            }
        })
        &&& post.tmr.watchdog == pre.tmr.watchdog
        &&& post.aic == aic2
        &&& post.stop_reason == sr2
        &&& post.steps == pre.steps
        &&& post.clk == pre.clk
        &&& post.sic == pre.sic
    }
}

/// Advance the timer channels at a peripheral-bus boundary and raise the
/// interrupts of channels that reached their compare point; off-boundary
/// steps change nothing.
pub fn generate_stop_condition(state: &mut ExtraState, steps: u64)
    requires
        old(state).clk.tick_config.apb > 0,
        old(state).clk.tick_config.apb <= 0xffffffff,
    ensures
        timers_serviced(*old(state), *final(state), steps),
{
    let div_apb = state.clk.tick_config.apb;
    if steps % div_apb != 0 {
        return ;
    }
    let mut i: usize = 0;
    while i < 2
        invariant
            i <= 2,
            div_apb == old(state).clk.tick_config.apb,
            div_apb > 0,
            div_apb <= 0xffffffff,
            forall|k: int|
                0 <= k < i ==> state.tmr.channels[k] == spec_advanced(
                    old(state).tmr.channels[k],
                    steps,
                    div_apb,
                ),
            forall|k: int| i <= k < 2 ==> state.tmr.channels[k] == old(state).tmr.channels[k],
            state.tmr.status == old(state).tmr.status,
            state.tmr.watchdog == old(state).tmr.watchdog,
            state.aic == old(state).aic,
            state.stop_reason == old(state).stop_reason,
            state.steps == old(state).steps,
            state.clk == old(state).clk,
            state.sic == old(state).sic,
        decreases 2 - i,
    {
        let mut ch = state.tmr.channels[i];
        if ch.control.get_enable() {
            let prescale = ch.control.get_prescale();
            proof {
                assert(1 <= div_apb * ((prescale + 1) as u64) <= 0x100000000 * 256)
                    by (nonlinear_arith)
                    requires
                        1 <= div_apb <= 0xffffffffu64,
                        prescale < 256,
                ;
            }
            let rate = div_apb * ((prescale + 1) as u64);
            if steps % rate == 0 {
                ch.count = ch.count.wrapping_add(1);
            }
        }
        state.tmr.channels[i] = ch;
        proof {
            assert(state.tmr.channels[i as int] == spec_advanced(
                old(state).tmr.channels[i as int],
                steps,
                div_apb,
            ));
        }
        i = i + 1;
    }
    let mut ch0 = state.tmr.channels[0];
    let fire0 = ch0.check_irq_condition();
    state.tmr.channels[0] = ch0;
    if fire0 {
        state.tmr.status = state.tmr.status | 0x1;
        crate::peripherals::aic::post_interrupt(state, InterruptNumber::TMR0, true, false);
    }
    let mut ch1 = state.tmr.channels[1];
    let fire1 = ch1.check_irq_condition();
    state.tmr.channels[1] = ch1;
    if fire1 {
        state.tmr.status = state.tmr.status | 0x2;
        crate::peripherals::aic::post_interrupt(state, InterruptNumber::TMR1, true, false);
    }
}

} // verus!
