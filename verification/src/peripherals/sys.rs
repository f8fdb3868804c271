//! System controller: clock-tree registers, PLL output computation, and the
//! derived per-peripheral tick rates that the scheduler's pre-instruction
//! predicates consume.
use vstd::prelude::*;

use crate::peripherals::aic::nth_bit32;

verus! {

/// Crystal frequency feeding the clock tree.
pub const F_BASE: u64 = 12_000_000;

/// Frequency of the real-time-clock crystal.
pub const F_BASE_RTC: u64 = 32_000;

/// AHB clock-gate register; bit 0 gates the CPU, bit 21 the storage
/// controller.
#[derive(Debug, Clone, Copy, PartialEq, Eq, Structural, Default)]
pub struct AHBCLKRegister {
    pub bits: u32,
}

impl AHBCLKRegister {
    /// Whether the CPU clock is running.
    pub open spec fn spec_cpu_on(&self) -> bool {
        nth_bit32(self.bits, 0)
    }

    /// Whether the storage controller's clock is running.
    pub open spec fn spec_sic_on(&self) -> bool {
        nth_bit32(self.bits, 21)
    }

    pub fn get_cpu(&self) -> (r: bool)
        ensures
            r == self.spec_cpu_on(),
    {
        (self.bits >> 0) & 1 == 1
    }

    pub fn get_sic(&self) -> (r: bool)
        ensures
            r == self.spec_sic_on(),
    {
        (self.bits >> 21) & 1 == 1
    }
}

/// APB clock-gate register; bit 0 gates the touch controller.
#[derive(Debug, Clone, Copy, PartialEq, Eq, Structural, Default)]
pub struct APBCLKRegister {
    pub bits: u32,
}

impl APBCLKRegister {
    /// Whether the touch controller's clock is running.
    pub open spec fn spec_adc_on(&self) -> bool {
        nth_bit32(self.bits, 0)
    }

    pub fn get_adc(&self) -> (r: bool)
        ensures
            r == self.spec_adc_on(),
    {
        (self.bits >> 0) & 1 == 1
    }
}

/// A 2-bit clock-source selector.
#[derive(Debug, Clone, Copy, PartialEq, Eq, Structural)]
pub enum ClockSource {
    XIN,
    X32K,
    APLL,
    UPLL,
}

impl ClockSource {
    /// The source a 2-bit field encodes.
    pub open spec fn spec_from_encoding(v: u32) -> ClockSource {
        if v == 0 {
            ClockSource::XIN
        } else if v == 1 {
            ClockSource::X32K
        } else if v == 2 {
            ClockSource::APLL
        } else {
            ClockSource::UPLL
        }
    }

    pub fn from_encoding(v: u32) -> (r: ClockSource)
        ensures
            r == ClockSource::spec_from_encoding(v),
    {
        if v == 0 {
            ClockSource::XIN
        } else if v == 1 {
            ClockSource::X32K
        } else if v == 2 {
            ClockSource::APLL
        } else {
            ClockSource::UPLL
        }
    }
}

/// A 1-bit clock-source selector (crystal or RTC crystal).
#[derive(Debug, Clone, Copy, PartialEq, Eq, Structural)]
pub enum ClockSource1B {
    XIN,
    X32K,
}

impl ClockSource1B {
    pub open spec fn spec_from_encoding(v: u32) -> ClockSource1B {
        if v == 0 {
            ClockSource1B::XIN
        } else {
            ClockSource1B::X32K
        }
    }

    pub fn from_encoding(v: u32) -> (r: ClockSource1B)
        ensures
            r == ClockSource1B::spec_from_encoding(v),
    {
        if v == 0 {
            ClockSource1B::XIN
        } else {
            ClockSource1B::X32K
        }
    }
}

/// System clock divider register: predivider in bits 0 through 2, source
/// selector in bits 3 and 4, divider in bits 8 through 11.
#[derive(Debug, Clone, Copy, PartialEq, Eq, Structural, Default)]
pub struct ClockDivider0 {
    pub bits: u32,
}

impl ClockDivider0 {
    pub open spec fn spec_sys_prediv(&self) -> u32 {
        self.bits & 0x7
    }

    pub open spec fn spec_sys_source(&self) -> ClockSource {
        ClockSource::spec_from_encoding((self.bits >> 3) & 0x3)
    }

    pub open spec fn spec_sys_div(&self) -> u32 {
        (self.bits >> 8) & 0xf
    }

    pub fn get_sys_prediv(&self) -> (r: u32)
        ensures
            r == self.spec_sys_prediv(),
            r < 8,
    {
        proof {
            let b = self.bits;
            assert(b & 0x7 < 8) by (bit_vector);
        }
        self.bits & 0x7
    }

    pub fn get_sys_source(&self) -> (r: ClockSource)
        ensures
            r == self.spec_sys_source(),
    {
        ClockSource::from_encoding((self.bits >> 3) & 0x3)
    }

    pub fn get_sys_div(&self) -> (r: u32)
        ensures
            r == self.spec_sys_div(),
            r < 16,
    {
        proof {
            let b = self.bits;
            assert((b >> 8) & 0xf < 16) by (bit_vector);
        }
        (self.bits >> 8) & 0xf
    }
}

/// CPU/bus divider register: CPU divider in bits 0 through 3, APB divider
/// in bits 8 through 11.
#[derive(Debug, Clone, Copy, PartialEq, Eq, Structural, Default)]
pub struct ClockDivider4 {
    pub bits: u32,
}

impl ClockDivider4 {
    pub open spec fn spec_cpu_div(&self) -> u32 {
        self.bits & 0xf
    }

    pub open spec fn spec_apb_div(&self) -> u32 {
        (self.bits >> 8) & 0xf
    }

    pub fn get_cpu_div(&self) -> (r: u32)
        ensures
            r == self.spec_cpu_div(),
            r < 16,
    {
        proof {
            let b = self.bits;
            assert(b & 0xf < 16) by (bit_vector);
        }
        self.bits & 0xf
    }

    pub fn get_apb_div(&self) -> (r: u32)
        ensures
            r == self.spec_apb_div(),
            r < 16,
    {
        proof {
            let b = self.bits;
            assert((b >> 8) & 0xf < 16) by (bit_vector);
        }
        (self.bits >> 8) & 0xf
    }
}

/// The tick rates the scheduler's pre-instruction predicates use, derived
/// from the clock tree by `update_tick_config`.
#[derive(Debug, Clone, Copy, PartialEq, Eq, Structural, Default)]
pub struct TickConfig {
    /// CPU instruction rate.
    pub f_cpu: u64,
    /// CPU ticks per high-speed bus tick.
    pub hclk1: u64,
    /// CPU ticks per peripheral-bus tick.
    pub apb: u64,
    /// CPU ticks per display refresh.
    pub vsync: u64,
}

/// A phase-locked loop: its configuration register and the output frequency
/// that register selects.
#[derive(Debug, Clone, Copy, PartialEq, Eq, Structural, Default)]
pub struct PLLConfig {
    pub reg: u64,
    pub fout: u64,
}

/// The output frequency a PLL register value selects: feedback scaling in
/// the low 9 bits, input divider in bits 9 through 13, output divider code
/// in bits 14 and 15, computed at kHz resolution.
pub open spec fn spec_pll_fout(pll: u64) -> u64 {
    let fb = pll & 0x1ff;
    let in_dv = (pll >> 9) & 0x1f;
    let out_dv = (pll >> 14) & 0x3;
    let out_dv_val: u64 = if out_dv == 0 {
        1
    } else if out_dv == 3 {
        4
    } else {
        2
    };
    (((F_BASE as int) / 1000) * (2 * (fb + 2)) / (2 * (in_dv + 2)) / (out_dv_val as int)
        * 1000) as u64
}

/// Executable form of `spec_pll_fout`.
pub fn calculate_pll_fout(pll: u64) -> (r: u64)
    ensures
        r == spec_pll_fout(pll),
{
    proof {
        assert(pll & 0x1ff < 512 && (pll >> 9) & 0x1f < 32 && (pll >> 14) & 0x3 < 4)
            by (bit_vector);
    }
    let fb = pll & 0x1ff;
    let in_dv = (pll >> 9) & 0x1f;
    let out_dv = (pll >> 14) & 0x3;
    let out_dv_val: u64 = if out_dv == 0 {
        1
    } else if out_dv == 3 {
        4
    } else {
        2
    };
    proof {
        assert((F_BASE / 1000) * (2 * (fb + 2)) <= 12336000) by (nonlinear_arith)
            requires
                fb < 512,
        ;
    }
    let scaled = (F_BASE / 1000) * (2 * (fb + 2));
    let divided = scaled / (2 * (in_dv + 2)) / out_dv_val;
    proof {
        assert(divided <= scaled) by (nonlinear_arith)
            requires
                divided == scaled / ((2 * (in_dv + 2)) as u64) / out_dv_val,
                in_dv < 32,
                out_dv_val >= 1,
        ;
    }
    divided * 1000
}

impl PLLConfig {
    /// The raw register value.
    pub fn get_reg(&self) -> (r: u64)
        ensures
            r == self.reg,
    {
        self.reg
    }

    /// The output frequency the register selects.
    pub fn get_fout(&self) -> (r: u64)
        ensures
            r == self.fout,
    {
        self.fout
    }

    /// Store a register value and recompute the output frequency from it.
    pub fn set_reg(&mut self, value: u64)
        ensures
            final(self).reg == value,
            final(self).fout == spec_pll_fout(value),
    {
        self.reg = value;
        self.fout = calculate_pll_fout(value);
    }
}

/// The whole clock tree: gates, the two PLLs, the divider registers and
/// the derived tick rates.
#[derive(Debug, Clone, Copy, PartialEq, Eq, Structural, Default)]
pub struct ClockConfig {
    pub ahbclk: AHBCLKRegister,
    pub apbclk: APBCLKRegister,
    pub apll: PLLConfig,
    pub upll: PLLConfig,
    pub clkdiv0: ClockDivider0,
    pub clkdiv4: ClockDivider4,
    pub tick_config: TickConfig,
}

impl ClockConfig {
    /// Output frequency of the selected clock source.
    pub open spec fn spec_source_fout(&self, source: ClockSource) -> u64 {
        match source {
            ClockSource::XIN => F_BASE,
            ClockSource::X32K => F_BASE_RTC,
            ClockSource::APLL => self.apll.fout,
            ClockSource::UPLL => self.upll.fout,
        }
    }

    fn source_fout(&self, source: ClockSource) -> (r: u64)
        ensures
            r == self.spec_source_fout(source),
    {
        match source {
            ClockSource::XIN => F_BASE,
            ClockSource::X32K => F_BASE_RTC,
            ClockSource::APLL => self.apll.fout,
            ClockSource::UPLL => self.upll.fout,
        }
    }

    /// The CPU rate the dividers select from the system clock source.
    pub open spec fn spec_f_cpu(&self) -> u64 {
        let sys_div = (self.clkdiv0.spec_sys_prediv() + 1) * (self.clkdiv0.spec_sys_div() + 1);
        let f_sys = self.spec_source_fout(self.clkdiv0.spec_sys_source()) as int / sys_div;
        (f_sys / (self.clkdiv4.spec_cpu_div() + 1)) as u64
    }

    /// Re-derive the tick rates from the current register values: the CPU
    /// rate from the system source and dividers, one high-speed bus tick
    /// per two CPU ticks when the CPU divider is 1, the peripheral-bus rate
    /// from the APB divider, and a display refresh every sixtieth of the
    /// CPU rate.
    pub fn update_tick_config(&mut self)
        ensures
            final(self).tick_config.f_cpu == old(self).spec_f_cpu(),
            final(self).tick_config.hclk1 == (if old(self).clkdiv4.spec_cpu_div() == 0 {
                2u64
            } else {
                1u64
            }),
            final(self).tick_config.apb == final(self).tick_config.hclk1 * (old(
                self,
            ).clkdiv4.spec_apb_div() + 1),
            final(self).tick_config.vsync == old(self).spec_f_cpu() / 60,
            final(self).ahbclk == old(self).ahbclk,
            final(self).apbclk == old(self).apbclk,
            final(self).apll == old(self).apll,
            final(self).upll == old(self).upll,
            final(self).clkdiv0 == old(self).clkdiv0,
            final(self).clkdiv4 == old(self).clkdiv4,
    {
        let prediv = self.clkdiv0.get_sys_prediv();
        let div = self.clkdiv0.get_sys_div();
        proof {
            assert(1 <= ((prediv + 1) as u64) * ((div + 1) as u64) <= 128) by (nonlinear_arith)
                requires
                    prediv < 8,
                    div < 16,
            ;
        }
        let sys_div: u64 = ((prediv + 1) as u64) * ((div + 1) as u64);
        let f_sys = self.source_fout(self.clkdiv0.get_sys_source()) / sys_div;
        let cpu_div = self.clkdiv4.get_cpu_div();
        self.tick_config.f_cpu = f_sys / ((cpu_div + 1) as u64);
        self.tick_config.hclk1 = if cpu_div == 0 {
            2
        } else {
            1
        };
        let apb_div = self.clkdiv4.get_apb_div();
        proof {
            assert(self.tick_config.hclk1 * ((apb_div + 1) as u64) <= 32) by (nonlinear_arith)
                requires
                    self.tick_config.hclk1 <= 2,
                    apb_div < 16,
            ;
        }
        self.tick_config.apb = self.tick_config.hclk1 * ((apb_div + 1) as u64);
        self.tick_config.vsync = self.tick_config.f_cpu / 60;
    }
}

} // verus!
