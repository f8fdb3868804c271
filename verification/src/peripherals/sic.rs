//! SD host controller / DMA bridge: issues commands to a selected card
//! model, packs the typed response into the two hardware response
//! registers (or the FIFO for long responses), and stages bulk sector
//! transfers into guest memory through the DMA destination.
use vstd::prelude::*;

use crate::device::{Device, ExtraState, StopReasonKind};
use crate::extdev::sd::{
    spec_with_bit, CardStatus, RecvAction, Response, ResponseType1, ResponseType3, ResponseType6,
    ResponseType7, SD,
};
use crate::peripherals::aic::{nth_bit32, spec_fires, InterruptNumber};

verus! {

/// DMA engine control: enable in bit 0, software reset in bit 1.
#[derive(Debug, Clone, Copy, PartialEq, Eq, Structural, Default)]
pub struct DMAControl {
    pub bits: u32,
}

impl DMAControl {
    pub open spec fn spec_reset(&self) -> bool {
        nth_bit32(self.bits, 1)
    }

    pub fn get_reset(&self) -> (r: bool)
        ensures
            r == self.spec_reset(),
    {
        (self.bits >> 1) & 1 == 1
    }

    pub fn clear_reset(&mut self)
        ensures
            final(self).bits == spec_with_bit(old(self).bits, 1, false),
    {
        self.bits = self.bits & !(1u32 << 1);
    }
}

/// Flash-interface control: software reset in bit 0, SD mode in bit 1.
#[derive(Debug, Clone, Copy, PartialEq, Eq, Structural, Default)]
pub struct FMIControl {
    pub bits: u32,
}

impl FMIControl {
    pub open spec fn spec_reset(&self) -> bool {
        nth_bit32(self.bits, 0)
    }

    pub fn get_reset(&self) -> (r: bool)
        ensures
            r == self.spec_reset(),
    {
        (self.bits >> 0) & 1 == 1
    }

    pub fn clear_reset(&mut self)
        ensures
            final(self).bits == spec_with_bit(old(self).bits, 0, false),
    {
        self.bits = self.bits & !(1u32 << 0);
    }
}

/// Command register: one-shot enables for command out (bit 0), response in
/// (1), data in (2), data out (3) and long response (4); clock bursts in
/// bits 5 and 6; the 6-bit command code in bits 8 through 13; software
/// reset in bit 14; the block count in bits 16 through 23; the port select
/// in bits 29 and 30.
#[derive(Debug, Clone, Copy, PartialEq, Eq, Structural, Default)]
pub struct SDCR {
    pub bits: u32,
}

impl SDCR {
    pub open spec fn spec_co_en(&self) -> bool {
        nth_bit32(self.bits, 0)
    }

    pub open spec fn spec_di_en(&self) -> bool {
        nth_bit32(self.bits, 2)
    }

    pub open spec fn spec_do_en(&self) -> bool {
        nth_bit32(self.bits, 3)
    }

    pub open spec fn spec_clk74_oe(&self) -> bool {
        nth_bit32(self.bits, 5)
    }

    pub open spec fn spec_clk8_oe(&self) -> bool {
        nth_bit32(self.bits, 6)
    }

    pub open spec fn spec_cmd_code(&self) -> u32 {
        (self.bits >> 8) & 0x3f
    }

    pub open spec fn spec_swrst(&self) -> bool {
        nth_bit32(self.bits, 14)
    }

    pub open spec fn spec_blkcnt(&self) -> u32 {
        (self.bits >> 16) & 0xff
    }

    pub open spec fn spec_sdport(&self) -> u32 {
        (self.bits >> 29) & 0x3
    }

    pub fn get_co_en(&self) -> (r: bool)
        ensures
            r == self.spec_co_en(),
    {
        (self.bits >> 0) & 1 == 1
    }

    pub fn get_di_en(&self) -> (r: bool)
        ensures
            r == self.spec_di_en(),
    {
        (self.bits >> 2) & 1 == 1
    }

    pub fn get_do_en(&self) -> (r: bool)
        ensures
            r == self.spec_do_en(),
    {
        (self.bits >> 3) & 1 == 1
    }

    pub fn get_clk74_oe(&self) -> (r: bool)
        ensures
            r == self.spec_clk74_oe(),
    {
        (self.bits >> 5) & 1 == 1
    }

    pub fn get_clk8_oe(&self) -> (r: bool)
        ensures
            r == self.spec_clk8_oe(),
    {
        (self.bits >> 6) & 1 == 1
    }

    pub fn get_cmd_code(&self) -> (r: u32)
        ensures
            r == self.spec_cmd_code(),
            r < 64,
    {
        proof {
            let b = self.bits;
            assert((b >> 8) & 0x3f < 64) by (bit_vector);
        }
        (self.bits >> 8) & 0x3f
    }

    pub fn get_swrst(&self) -> (r: bool)
        ensures
            r == self.spec_swrst(),
    {
        (self.bits >> 14) & 1 == 1
    }

    pub fn get_blkcnt(&self) -> (r: u32)
        ensures
            r == self.spec_blkcnt(),
            r < 256,
    {
        proof {
            let b = self.bits;
            assert((b >> 16) & 0xff < 256) by (bit_vector);
        }
        (self.bits >> 16) & 0xff
    }

    pub fn get_sdport(&self) -> (r: u32)
        ensures
            r == self.spec_sdport(),
            r < 4,
    {
        proof {
            let b = self.bits;
            assert((b >> 29) & 0x3 < 4) by (bit_vector);
        }
        (self.bits >> 29) & 0x3
    }

    pub fn set_bit(&mut self, n: u32, v: bool)
        requires
            n < 32,
        ensures
            final(self).bits == spec_with_bit(old(self).bits, n, v),
    {
        if v {
            self.bits = self.bits | (1u32 << n);
        } else {
            self.bits = self.bits & !(1u32 << n);
        }
    }

    pub fn clear_blkcnt(&mut self)
        ensures
            final(self).bits == (old(self).bits & !0xff0000u32),
    {
        self.bits = self.bits & !0xff0000u32;
    }
}

/// Card-side interrupt enables: block-transfer done in bit 0, command
/// timeout in bit 12, data timeout in bit 13.
#[derive(Debug, Clone, Copy, PartialEq, Eq, Structural, Default)]
pub struct SDIRQEnable {
    pub bits: u32,
}

impl SDIRQEnable {
    pub open spec fn spec_block_xfer_done(&self) -> bool {
        nth_bit32(self.bits, 0)
    }

    pub open spec fn spec_timeout_cmd(&self) -> bool {
        nth_bit32(self.bits, 12)
    }

    pub open spec fn spec_timeout_dat(&self) -> bool {
        nth_bit32(self.bits, 13)
    }

    pub fn get_block_xfer_done(&self) -> (r: bool)
        ensures
            r == self.spec_block_xfer_done(),
    {
        (self.bits >> 0) & 1 == 1
    }

    pub fn get_timeout_cmd(&self) -> (r: bool)
        ensures
            r == self.spec_timeout_cmd(),
    {
        (self.bits >> 12) & 1 == 1
    }

    pub fn get_timeout_dat(&self) -> (r: bool)
        ensures
            r == self.spec_timeout_dat(),
    {
        (self.bits >> 13) & 1 == 1
    }
}

/// Card-side interrupt status: block-transfer done in bit 0, command CRC ok
/// in bit 2, data CRC ok in bit 3, card available in bit 7, command timeout
/// in bit 12, data timeout in bit 13.
#[derive(Debug, Clone, Copy, PartialEq, Eq, Structural, Default)]
pub struct SDIRQStatus {
    pub bits: u32,
}

impl SDIRQStatus {
    pub fn set_bit(&mut self, n: u32, v: bool)
        requires
            n < 32,
        ensures
            final(self).bits == spec_with_bit(old(self).bits, n, v),
    {
        if v {
            self.bits = self.bits | (1u32 << n);
        } else {
            self.bits = self.bits & !(1u32 << n);
        }
    }
}

/// DMA engine interrupt flags: target abort in bit 0.
#[derive(Debug, Clone, Copy, PartialEq, Eq, Structural, Default)]
pub struct DMAIRQFlags {
    pub bits: u32,
}

impl DMAIRQFlags {
    pub open spec fn spec_target_abort(&self) -> bool {
        nth_bit32(self.bits, 0)
    }

    pub fn get_target_abort(&self) -> (r: bool)
        ensures
            r == self.spec_target_abort(),
    {
        (self.bits >> 0) & 1 == 1
    }

    pub fn set_target_abort(&mut self)
        ensures
            final(self).bits == spec_with_bit(old(self).bits, 0, true),
    {
        self.bits = self.bits | (1u32 << 0);
    }
}

/// The host controller's register state: DMA engine, flash-interface
/// control, SD command/argument/response registers, and the FIFO used for
/// long responses and short data payloads.
pub struct SICConfig {
    pub dma_control: DMAControl,
    pub dma_dest_addr: u64,
    pub dma_irq_enable: DMAIRQFlags,
    pub dma_irq_status: DMAIRQFlags,
    pub dma_count: u64,
    pub fmi_control: FMIControl,
    pub sd_arg: u32,
    pub sd_response: (u32, u32),
    pub sd_control: SDCR,
    pub sd_irq_enable: SDIRQEnable,
    pub sd_irq: SDIRQStatus,
    pub sd_io_size: u64,
    pub fifo: Vec<u8>,
    pub fmi_irq_enable: bool,
    pub fmi_irq_status: bool,
}

/// Size of the response/data FIFO window.
pub const SIC_FIFO_SIZE: usize = 0x400;

impl SICConfig {
    /// The FIFO always spans the full hardware window.
    pub open spec fn wf(&self) -> bool {
        self.fifo@.len() == SIC_FIFO_SIZE
    }
}

impl Default for SICConfig {
    /// Registers cleared, one-byte transfer unit, zeroed FIFO.
    fn default() -> (r: Self)
        ensures
            r.dma_control.bits == 0,
            r.dma_dest_addr == 0,
            r.dma_irq_enable.bits == 0,
            r.dma_irq_status.bits == 0,
            r.dma_count == 0,
            r.fmi_control.bits == 0,
            r.sd_arg == 0,
            r.sd_response == (0u32, 0u32),
            r.sd_control.bits == 0,
            r.sd_irq_enable.bits == 0,
            r.sd_irq.bits == 0,
            r.sd_io_size == 1,
            r.fifo@ == Seq::new(SIC_FIFO_SIZE as nat, |i: int| 0u8),
            r.fmi_irq_enable == false,
            r.fmi_irq_status == false,
            r.wf(),
    {
        let mut fifo: Vec<u8> = Vec::new();
        while fifo.len() < SIC_FIFO_SIZE
            invariant
                fifo@.len() <= SIC_FIFO_SIZE,
                forall|k: int| 0 <= k < fifo@.len() ==> fifo@[k] == 0u8,
            decreases SIC_FIFO_SIZE - fifo@.len(),
        {
            fifo.push(0);
        }
        proof {
            assert(fifo@ =~= Seq::new(SIC_FIFO_SIZE as nat, |i: int| 0u8));
        }
        SICConfig {
            dma_control: DMAControl { bits: 0 },
            dma_dest_addr: 0,
            dma_irq_enable: DMAIRQFlags { bits: 0 },
            dma_irq_status: DMAIRQFlags { bits: 0 },
            dma_count: 0,
            fmi_control: FMIControl { bits: 0 },
            sd_arg: 0,
            sd_response: (0, 0),
            sd_control: SDCR { bits: 0 },
            sd_irq_enable: SDIRQEnable { bits: 0 },
            sd_irq: SDIRQStatus { bits: 0 },
            sd_io_size: 1,
            fifo,
            fmi_irq_enable: false,
            fmi_irq_status: false,
        }
    }
}

/// Packing law for a short status response: the echoed command number and
/// the upper 24 status bits in the first response register, the low status
/// byte in the second.
pub open spec fn spec_pack_r1(cmd: u8, status: u32) -> (u32, u32) {
    (((cmd as u32) << 24) | (status >> 8), status & 0xff)
}

/// Packing law for the operating-condition response: the reserved command
/// field 0x3f, then the 32-bit OCR word (busy in bit 31, capacity class in
/// bit 30, the voltage window below), split the same way.
pub open spec fn spec_pack_r3(ocr: u32, is_sdhc: bool, power_up: bool) -> (u32, u32) {
    let word = ocr | (if is_sdhc {
        0x40000000u32
    } else {
        0u32
    }) | (if power_up {
        0x80000000u32
    } else {
        0u32
    });
    ((0x3fu32 << 24) | (word >> 8), word & 0xff)
}

/// The 16-bit condensed status carried in the published-address response:
/// the three top-level error bits followed by the low 13 status bits.
pub open spec fn spec_r6_status(status: u32) -> u32 {
    (if nth_bit32(status, 23) {
        0x8000u32
    } else {
        0u32
    }) | (if nth_bit32(status, 22) {
        0x4000u32
    } else {
        0u32
    }) | (if nth_bit32(status, 19) {
        0x2000u32
    } else {
        0u32
    }) | (status & 0x1fff)
}

/// Packing law for the published-address response: command number 3, the
/// new address, and the condensed status split across the two registers.
pub open spec fn spec_pack_r6(rca: u16, status: u32) -> (u32, u32) {
    let packed = spec_r6_status(status);
    ((3u32 << 24) | ((rca as u32) << 8) | (packed >> 8), packed & 0xff)
}

/// Packing law for the interface-condition response: command number 8, the
/// accepted voltage range, and the echoed check pattern.
pub open spec fn spec_pack_r7(voltage_accepted: u8, check: u8) -> (u32, u32) {
    ((8u32 << 24) | (voltage_accepted as u32), check as u32)
}

fn pack_r1(x: &ResponseType1) -> (r: (u32, u32))
    ensures
        r == spec_pack_r1(x.cmd, x.status.bits),
{
    (((x.cmd as u32) << 24) | (x.status.bits >> 8), x.status.bits & 0xff)
}

fn pack_r3(x: &ResponseType3) -> (r: (u32, u32))
    ensures
        r == spec_pack_r3(x.ocr, x.is_sdhc, x.power_up),
{
    let word = x.ocr | (if x.is_sdhc {
        0x40000000u32
    } else {
        0u32
    }) | (if x.power_up {
        0x80000000u32
    } else {
        0u32
    });
    ((0x3fu32 << 24) | (word >> 8), word & 0xff)
}

fn pack_r6(x: &ResponseType6) -> (r: (u32, u32))
    ensures
        r == spec_pack_r6(x.rca, x.status.bits),
{
    let status = x.status.bits;
    let packed = (if (status >> 23) & 1 == 1 {
        0x8000u32
    } else {
        0u32
    }) | (if (status >> 22) & 1 == 1 {
        0x4000u32
    } else {
        0u32
    }) | (if (status >> 19) & 1 == 1 {
        0x2000u32
    } else {
        0u32
    }) | (status & 0x1fff);
    ((3u32 << 24) | ((x.rca as u32) << 8) | (packed >> 8), packed & 0xff)
}

fn pack_r7(x: &ResponseType7) -> (r: (u32, u32))
    ensures
        r == spec_pack_r7(x.voltage_accepted, x.check),
{
    ((8u32 << 24) | (x.voltage_accepted as u32), x.check as u32)
}

} // verus!

verus! {

/// A staged bulk transfer into guest memory: the embedding program writes
/// `bytes` at guest address `dest` and reports the outcome through
/// `dma_complete`.
pub struct DmaRequest {
    pub dest: u64,
    pub bytes: Vec<u8>,
}

/// Service pending reset requests: each of the DMA engine, flash-interface
/// and SD software resets clears its own request bit, and the SD reset
/// additionally reports the card as available. Returns whether any reset
/// was serviced; a serviced reset suppresses command and data processing
/// for the tick.
/// How servicing the reset requests relates the states: each of the DMA
/// engine, flash-interface and SD software resets clears its own request
/// bit, the SD reset additionally reports the card as available, and
/// nothing else changes.
pub open spec fn reset_serviced(pre: ExtraState, post: ExtraState) -> bool {
    let d = pre.sic.dma_control.spec_reset();
    let f = pre.sic.fmi_control.spec_reset();
    let s = pre.sic.sd_control.spec_swrst();
    &&& post.sic == (SICConfig {
        dma_control: DMAControl {
            bits: (if d {
                spec_with_bit(pre.sic.dma_control.bits, 1, false)
            } else {
                pre.sic.dma_control.bits
            }),
        },
        fmi_control: FMIControl {
            bits: (if f {
                spec_with_bit(pre.sic.fmi_control.bits, 0, false)
            } else {
                pre.sic.fmi_control.bits
            }),
        },
        sd_irq: SDIRQStatus {
            bits: (if s {
                spec_with_bit(pre.sic.sd_irq.bits, 7, true)
            } else {
                pre.sic.sd_irq.bits
            }),
        },
        sd_control: SDCR {
            bits: (if s {
                spec_with_bit(pre.sic.sd_control.bits, 14, false)
            } else {
                pre.sic.sd_control.bits
            }),
        },
        ..pre.sic
    })
    &&& post == (ExtraState { sic: post.sic, ..pre })
}

pub fn check_reset(state: &mut ExtraState) -> (r: bool)
    ensures
        r == spec_reset_pending(old(state).sic),
        reset_serviced(*old(state), *final(state)),
{
    let mut has_reset = false;
    if state.sic.dma_control.get_reset() {
        state.sic.dma_control.clear_reset();
        has_reset = true;
    }
    if state.sic.fmi_control.get_reset() {
        state.sic.fmi_control.clear_reset();
        has_reset = true;
    }
    if state.sic.sd_control.get_swrst() {
        state.sic.sd_irq.set_bit(7, true);
        state.sic.sd_control.set_bit(14, false);
        has_reset = true;
    }
    has_reset
}

/// Service the card-initialization clock bursts: the 74-clock burst clears
/// its request; the 8-clock burst clears its request and reports the card
/// available (data line high). Either suppresses further processing for
/// the tick.
/// How servicing a clock burst relates the states: the 74-clock burst
/// clears its request; otherwise the 8-clock burst clears its request and
/// reports the card available; nothing else changes.
pub open spec fn delay_serviced(pre: ExtraState, post: ExtraState) -> bool {
    let c74 = pre.sic.sd_control.spec_clk74_oe();
    let c8 = pre.sic.sd_control.spec_clk8_oe();
    &&& post.sic == (SICConfig {
        sd_control: SDCR {
            bits: (if c74 {
                spec_with_bit(pre.sic.sd_control.bits, 5, false)
            } else if c8 {
                spec_with_bit(pre.sic.sd_control.bits, 6, false)
            } else {
                pre.sic.sd_control.bits
            }),
        },
        sd_irq: SDIRQStatus {
            bits: (if !c74 && c8 {
                spec_with_bit(pre.sic.sd_irq.bits, 7, true)
            } else {
                pre.sic.sd_irq.bits
            }),
        },
        ..pre.sic
    })
    &&& post == (ExtraState { sic: post.sic, ..pre })
}

fn check_delay_condition(state: &mut ExtraState) -> (r: bool)
    ensures
        r == spec_delay_pending(old(state).sic),
        delay_serviced(*old(state), *final(state)),
{
    if state.sic.sd_control.get_clk74_oe() {
        state.sic.sd_control.set_bit(5, false);
        true
    } else if state.sic.sd_control.get_clk8_oe() {
        state.sic.sd_control.set_bit(6, false);
        state.sic.sd_irq.set_bit(7, true);
        true
    } else {
        false
    }
}

/// What the response-register pair holds after a typed response, by the
/// per-type packing law; a long or missing response leaves it unchanged.
pub open spec fn spec_response_regs(pre: (u32, u32), resp: crate::extdev::sd::ResponseModel) -> (
    u32,
    u32,
) {
    match resp {
        crate::extdev::sd::ResponseModel::M1 { cmd, status, busy } => spec_pack_r1(cmd, status),
        crate::extdev::sd::ResponseModel::M3 { ocr, is_sdhc, power_up } => spec_pack_r3(
            ocr,
            is_sdhc,
            power_up,
        ),
        crate::extdev::sd::ResponseModel::M6 { rca, status } => spec_pack_r6(rca, status),
        crate::extdev::sd::ResponseModel::M7 { voltage_accepted, check } => spec_pack_r7(
            voltage_accepted,
            check,
        ),
        _ => pre,
    }
}

/// Translate a typed card response into the hardware-visible outcome:
/// short responses land in the two response registers, long responses in
/// the FIFO behind a header byte, and either clears its one-shot enable
/// and reports a good command checksum. No response is a command timeout:
/// it cancels a requested data phase, flags the timeouts, and posts the
/// controller's interrupt when a corresponding enable bit is set.
fn handle_response(state: &mut ExtraState, resp: Response, has_data_in: bool, has_data_out: bool)
    -> (skip_data: bool)
    requires
        old(state).sic.wf(),
    ensures
        final(state).sic.wf(),
        final(state).steps == old(state).steps,
        final(state).clk == old(state).clk,
        final(state).tmr == old(state).tmr,
        final(state).sic.dma_control == old(state).sic.dma_control,
        final(state).sic.dma_dest_addr == old(state).sic.dma_dest_addr,
        final(state).sic.dma_irq_enable == old(state).sic.dma_irq_enable,
        final(state).sic.dma_irq_status == old(state).sic.dma_irq_status,
        final(state).sic.dma_count == old(state).sic.dma_count,
        final(state).sic.fmi_control == old(state).sic.fmi_control,
        final(state).sic.sd_arg == old(state).sic.sd_arg,
        final(state).sic.sd_irq_enable == old(state).sic.sd_irq_enable,
        final(state).sic.sd_io_size == old(state).sic.sd_io_size,
        final(state).sic.fmi_irq_enable == old(state).sic.fmi_irq_enable,
        final(state).sic.fmi_irq_status == old(state).sic.fmi_irq_status,
        !(resp@ is MNone) ==> {
            &&& skip_data == false
            &&& final(state).sic.sd_response == spec_response_regs(old(state).sic.sd_response, resp@)
            &&& final(state).sic.sd_irq.bits == spec_with_bit(old(state).sic.sd_irq.bits, 2, true)
            &&& final(state).sic.sd_control.bits == (if resp@ is M2 {
                spec_with_bit(old(state).sic.sd_control.bits, 4, false)
            } else {
                spec_with_bit(old(state).sic.sd_control.bits, 1, false)
            })
            &&& (resp@ matches crate::extdev::sd::ResponseModel::M2 { payload } ==> {
                &&& final(state).sic.fifo@.len() == old(state).sic.fifo@.len()
                &&& final(state).sic.fifo@[0] == 0x3fu8
                &&& forall|i: int| 0 <= i < 16 ==> final(state).sic.fifo@[1 + i] == payload[i]
                &&& forall|k: int|
                    17 <= k < old(state).sic.fifo@.len() ==> final(state).sic.fifo@[k] == old(
                        state,
                    ).sic.fifo@[k]
            })
            &&& (!(resp@ is M2) ==> final(state).sic.fifo == old(state).sic.fifo)
            &&& final(state).aic == old(state).aic
            &&& final(state).stop_reason == old(state).stop_reason
        },
        resp@ is MNone ==> ({
            let has_data = has_data_in || has_data_out;
            let irq = old(state).sic.sd_irq_enable.spec_timeout_cmd() || (has_data && old(
                state,
            ).sic.sd_irq_enable.spec_timeout_dat());
            &&& skip_data == true
            &&& final(state).sic.sd_response == old(state).sic.sd_response
            &&& final(state).sic.fifo == old(state).sic.fifo
            &&& final(state).sic.sd_irq.bits == (if has_data {
                spec_with_bit(spec_with_bit(old(state).sic.sd_irq.bits, 12, true), 13, true)
            } else {
                spec_with_bit(old(state).sic.sd_irq.bits, 12, true)
            })
            &&& final(state).sic.sd_control.bits == (if has_data {
                spec_with_bit(
                    spec_with_bit(old(state).sic.sd_control.bits, 2, false),
                    3,
                    false,
                )
            } else {
                old(state).sic.sd_control.bits
            })
            &&& final(state).aic == (if irq {
                crate::peripherals::aic::spec_post(old(state).aic, 17, true, false)
            } else {
                old(state).aic
            })
            &&& final(state).stop_reason == (if irq && spec_fires(old(state).aic, 17, true, false) {
                old(state).stop_reason.spec_insert(StopReasonKind::Tick)
            } else {
                old(state).stop_reason
            })
        }),
{
    match resp {
        Response::R1(x) => {
            state.sic.sd_response = pack_r1(&x);
            state.sic.sd_control.set_bit(1, false);
            state.sic.sd_irq.set_bit(2, true);
            false
        },
        Response::R2(x) => {
            state.sic.fifo[0] = 0b00111111;
            let mut i: usize = 0;
            while i < 16
                invariant
                    i <= 16,
                    state.sic.fifo@.len() == old(state).sic.fifo@.len(),
                    state.sic.fifo@.len() == 0x400,
                    state.sic.fifo@[0] == 0x3fu8,
                    forall|k: int| 0 <= k < i ==> state.sic.fifo@[1 + k] == x.cid_csd@[k],
                    forall|k: int|
                        i + 1 <= k < state.sic.fifo@.len() ==> state.sic.fifo@[k] == old(
                            state,
                        ).sic.fifo@[k],
                    state.sic == (SICConfig { fifo: state.sic.fifo, ..old(state).sic }),
                    *state == (ExtraState { sic: state.sic, ..*old(state) }),
                decreases 16 - i,
            {
                state.sic.fifo[1 + i] = x.cid_csd[i];
                i = i + 1;
            }
            state.sic.sd_control.set_bit(4, false);
            state.sic.sd_irq.set_bit(2, true);
            false
        },
        Response::R3(x) => {
            state.sic.sd_response = pack_r3(&x);
            state.sic.sd_control.set_bit(1, false);
            state.sic.sd_irq.set_bit(2, true);
            false
        },
        Response::R6(x) => {
            state.sic.sd_response = pack_r6(&x);
            state.sic.sd_control.set_bit(1, false);
            state.sic.sd_irq.set_bit(2, true);
            false
        },
        Response::R7(x) => {
            state.sic.sd_response = pack_r7(&x);
            state.sic.sd_control.set_bit(1, false);
            state.sic.sd_irq.set_bit(2, true);
            false
        },
        Response::RNone => {
            state.sic.sd_irq.set_bit(12, true);
            let has_data = has_data_in || has_data_out;
            if has_data {
                state.sic.sd_control.set_bit(2, false);
                state.sic.sd_control.set_bit(3, false);
                state.sic.sd_irq.set_bit(13, true);
            }
            let want_irq = state.sic.sd_irq_enable.get_timeout_cmd() || (has_data
                && state.sic.sd_irq_enable.get_timeout_dat());
            if want_irq {
                crate::peripherals::aic::post_interrupt(
                    state,
                    InterruptNumber::SIC,
                    true,
                    false,
                );
            }
            true
        },
    }
}

} // verus!

verus! {

use crate::extdev::sd::{spec_request, ResponseModel};
use crate::peripherals::aic::spec_post;

/// The register groups the command phase never touches.
pub open spec fn command_untouched(pre: ExtraState, post: ExtraState) -> bool {
    &&& post.steps == pre.steps
    &&& post.clk == pre.clk
    &&& post.tmr == pre.tmr
    &&& post.sic.dma_control == pre.sic.dma_control
    &&& post.sic.dma_dest_addr == pre.sic.dma_dest_addr
    &&& post.sic.dma_irq_enable == pre.sic.dma_irq_enable
    &&& post.sic.dma_irq_status == pre.sic.dma_irq_status
    &&& post.sic.dma_count == pre.sic.dma_count
    &&& post.sic.fmi_control == pre.sic.fmi_control
    &&& post.sic.sd_arg == pre.sic.sd_arg
    &&& post.sic.sd_irq_enable == pre.sic.sd_irq_enable
    &&& post.sic.sd_io_size == pre.sic.sd_io_size
    &&& post.sic.fmi_irq_enable == pre.sic.fmi_irq_enable
    &&& post.sic.fmi_irq_status == pre.sic.fmi_irq_status
}

/// How servicing the staged command relates the states: the addressed card
/// takes the dispatch of `spec_request`; a typed response is packed into
/// the response registers (or the FIFO for a long response), the one-shot
/// enables drop, and a good command checksum is flagged; a missing
/// response flags the timeouts, cancels a requested data phase, and posts
/// the controller interrupt when enabled.
pub open spec fn command_serviced(
    pre: ExtraState,
    post: ExtraState,
    card: SD,
    card_post: SD,
    skip: bool,
) -> bool {
    let cmd = pre.sic.sd_control.spec_cmd_code() as u8;
    let arg = pre.sic.sd_arg;
    let has_data = pre.sic.sd_control.spec_di_en() || pre.sic.sd_control.spec_do_en();
    let rr = spec_request(card, cmd, arg);
    let resp = rr.1;
    &&& card_post == rr.0
    &&& command_untouched(pre, post)
    &&& if !(resp is MNone) {
        &&& skip == false
        &&& post.sic.sd_response == spec_response_regs(pre.sic.sd_response, resp)
        &&& post.sic.sd_irq.bits == spec_with_bit(pre.sic.sd_irq.bits, 2, true)
        &&& post.sic.sd_control.bits == spec_with_bit(
            (if resp is M2 {
                spec_with_bit(pre.sic.sd_control.bits, 4, false)
            } else {
                spec_with_bit(pre.sic.sd_control.bits, 1, false)
            }),
            0,
            false,
        )
        &&& (resp matches ResponseModel::M2 { payload } ==> {
            &&& post.sic.fifo@.len() == pre.sic.fifo@.len()
            &&& post.sic.fifo@[0] == 0x3fu8
            &&& forall|i: int| 0 <= i < 16 ==> post.sic.fifo@[1 + i] == payload[i]
            &&& forall|k: int|
                17 <= k < pre.sic.fifo@.len() ==> post.sic.fifo@[k] == pre.sic.fifo@[k]
        })
        &&& (!(resp is M2) ==> post.sic.fifo == pre.sic.fifo)
        &&& post.aic == pre.aic
        &&& post.stop_reason == pre.stop_reason
    } else {
        let irq = pre.sic.sd_irq_enable.spec_timeout_cmd() || (has_data
            && pre.sic.sd_irq_enable.spec_timeout_dat());
        &&& skip == true
        &&& post.sic.sd_response == pre.sic.sd_response
        &&& post.sic.fifo == pre.sic.fifo
        &&& post.sic.sd_irq.bits == (if has_data {
            spec_with_bit(spec_with_bit(pre.sic.sd_irq.bits, 12, true), 13, true)
        } else {
            spec_with_bit(pre.sic.sd_irq.bits, 12, true)
        })
        &&& post.sic.sd_control.bits == spec_with_bit(
            (if has_data {
                spec_with_bit(spec_with_bit(pre.sic.sd_control.bits, 2, false), 3, false)
            } else {
                pre.sic.sd_control.bits
            }),
            0,
            false,
        )
        &&& post.aic == (if irq {
            spec_post(pre.aic, 17, true, false)
        } else {
            pre.aic
        })
        &&& post.stop_reason == (if irq && spec_fires(pre.aic, 17, true, false) {
            pre.stop_reason.spec_insert(StopReasonKind::Tick)
        } else {
            pre.stop_reason
        })
    }
}

/// The command phase of one controller tick: when the command enable bit
/// is set and the selected port maps to a card, dispatch the staged
/// command to it and translate the response; an unmapped port is ignored.
/// Returns whether a command timeout cancelled the data phase.
pub fn tick_command(state: &mut ExtraState, device: &mut Device) -> (skip_data: bool)
    requires
        old(state).sic.wf(),
    ensures
        final(state).sic.wf(),
        !old(state).sic.sd_control.spec_co_en() ==> *final(state) == *old(state) && *final(device)
            == *old(device) && !skip_data,
        old(state).sic.sd_control.spec_co_en() ==> ({
            let port = old(state).sic.sd_control.spec_sdport();
            &&& port == 0 ==> command_serviced(
                *old(state),
                *final(state),
                old(device).internal_sd,
                final(device).internal_sd,
                skip_data,
            ) && final(device).external_sd == old(device).external_sd
            &&& port == 2 ==> command_serviced(
                *old(state),
                *final(state),
                old(device).external_sd,
                final(device).external_sd,
                skip_data,
            ) && final(device).internal_sd == old(device).internal_sd
            &&& (port != 0 && port != 2) ==> *final(state) == *old(state) && *final(device) == *old(
                device,
            ) && !skip_data
            &&& final(device).input == old(device).input
        }),
{
    if !state.sic.sd_control.get_co_en() {
        return false;
    }
    let port = state.sic.sd_control.get_sdport();
    let cmd = state.sic.sd_control.get_cmd_code() as u8;
    let arg = state.sic.sd_arg;
    let has_data_in = state.sic.sd_control.get_di_en();
    let has_data_out = state.sic.sd_control.get_do_en();
    if port == 0 {
        let resp = device.internal_sd.make_request(cmd, arg);
        let skip = handle_response(state, resp, has_data_in, has_data_out);
        state.sic.sd_control.set_bit(0, false);
        skip
    } else if port == 2 {
        let resp = device.external_sd.make_request(cmd, arg);
        let skip = handle_response(state, resp, has_data_in, has_data_out);
        state.sic.sd_control.set_bit(0, false);
        skip
    } else {
        false
    }
}

/// What the staged data-phase read of `len` bytes delivers from a card, as
/// `recv_data` describes it; an unstaged data phase delivers zeros.
pub open spec fn spec_recv_bytes(card: SD, len: nat) -> Seq<u8> {
    match card.recv_action {
        RecvAction::NoAction => Seq::new(len, |i: int| 0u8),
        RecvAction::FTLRead { sector_index } => crate::extdev::sd::spec_ftl_bytes(
            card.image@,
            sector_index,
            len,
        ),
        RecvAction::SCRRead => (if len >= 8 {
            Seq::new(len, |i: int| crate::extdev::sd::spec_scr_byte(i))
        } else {
            Seq::new(len, |i: int| 0u8)
        }),
        RecvAction::FunctionStatus { arg } => (if len >= 64 {
            Seq::new(len, |i: int| crate::extdev::sd::spec_fs_byte(card.selected_functions, arg, i))
        } else {
            Seq::new(len, |i: int| 0u8)
        }),
    }
}

/// The card after fulfilling the staged data-phase read of `len` bytes, as
/// `recv_data` describes it.
pub open spec fn spec_recv_post(card: SD, len: nat) -> SD {
    match card.recv_action {
        RecvAction::NoAction => card,
        RecvAction::FTLRead { sector_index } => SD {
            recv_action: RecvAction::FTLRead {
                sector_index: vstd::wrapping::u64_specs::wrapping_add(
                    sector_index,
                    ((len as u64) / 512) as u64,
                ),
            },
            ..card
        },
        RecvAction::SCRRead => (if len >= 8 {
            SD {
                recv_action: RecvAction::NoAction,
                card_status: CardStatus {
                    bits: crate::extdev::sd::spec_with_state(
                        card.card_status.bits,
                        crate::extdev::sd::CurrentState::Transfer,
                    ),
                },
                ..card
            }
        } else {
            card
        }),
        RecvAction::FunctionStatus { arg } => (if len >= 64 {
            SD {
                recv_action: RecvAction::NoAction,
                card_status: CardStatus {
                    bits: crate::extdev::sd::spec_with_state(
                        card.card_status.bits,
                        crate::extdev::sd::CurrentState::Transfer,
                    ),
                },
                selected_functions: (if arg & 0x80000000 != 0
                    && crate::extdev::sd::spec_ret_status(card.selected_functions, arg)
                    & 0x80000000 == 0 {
                    crate::extdev::sd::spec_ret_status(card.selected_functions, arg) & 0xffffff
                } else {
                    card.selected_functions
                }),
                ..card
            }
        } else {
            card
        }),
    }
}

/// The byte count of one data-in transfer: the configured block length
/// times the block count, where a count of zero means exactly one block.
pub open spec fn spec_transfer_size(sic: SICConfig) -> int {
    let mult = sic.sd_control.spec_blkcnt();
    if mult == 0 {
        sic.sd_io_size as int
    } else {
        sic.sd_io_size * mult
    }
}

/// The data-in phase of one controller tick: ask the addressed card to
/// fill the transfer, stage the bytes for the embedding program to write
/// at the DMA destination, and clear the data-in enable. Transfer-done
/// flags, counters and the interrupt wait for `dma_complete`, after the
/// guest-memory write has succeeded or failed.
pub fn tick_data(state: &mut ExtraState, device: &mut Device, skip_data: bool) -> (r: Option<
    DmaRequest,
>)
    requires
        old(state).sic.sd_io_size <= 0x100000000,
    ensures
        (skip_data || !old(state).sic.sd_control.spec_di_en()) ==> *final(state) == *old(state)
            && *final(device) == *old(device) && r is None,
        !skip_data && old(state).sic.sd_control.spec_di_en() ==> ({
            let port = old(state).sic.sd_control.spec_sdport();
            let size = spec_transfer_size(old(state).sic);
            &&& *final(state) == (ExtraState {
                sic: SICConfig {
                    sd_control: SDCR {
                        bits: spec_with_bit(old(state).sic.sd_control.bits, 2, false),
                    },
                    ..old(state).sic
                },
                ..*old(state)
            })
            &&& (port == 0 && size <= usize::MAX as int) ==> {
                &&& (r matches Some(req) && req.dest == old(state).sic.dma_dest_addr
                    && req.bytes@ == spec_recv_bytes(old(device).internal_sd, size as nat))
                &&& final(device).internal_sd == spec_recv_post(
                    old(device).internal_sd,
                    size as nat,
                )
                &&& final(device).external_sd == old(device).external_sd
            }
            &&& (port == 2 && size <= usize::MAX as int) ==> {
                &&& (r matches Some(req) && req.dest == old(state).sic.dma_dest_addr
                    && req.bytes@ == spec_recv_bytes(old(device).external_sd, size as nat))
                &&& final(device).external_sd == spec_recv_post(
                    old(device).external_sd,
                    size as nat,
                )
                &&& final(device).internal_sd == old(device).internal_sd
            }
            &&& (port != 0 && port != 2) ==> r is None && *final(device) == *old(device)
            &&& (size > usize::MAX as int) ==> r is None && *final(device) == *old(device)
            &&& (port == 0 ==> final(device).external_sd == old(device).external_sd)
            &&& (port == 2 ==> final(device).internal_sd == old(device).internal_sd)
            &&& final(device).input == old(device).input
        }),
{
    if skip_data || !state.sic.sd_control.get_di_en() {
        return None;
    }
    let port = state.sic.sd_control.get_sdport();
    let size = state.sic.sd_io_size;
    let mult = state.sic.sd_control.get_blkcnt();
    proof {
        assert(size * (mult as u64) <= 0x100000000 * 255) by (nonlinear_arith)
            requires
                size <= 0x100000000u64,
                mult < 256,
        ;
    }
    let size_final: u64 = if mult == 0 {
        size
    } else {
        size * (mult as u64)
    };
    let dest = state.sic.dma_dest_addr;
    let result = if port == 0 || port == 2 {
        if size_final <= usize::MAX as u64 {
            let len = size_final as usize;
            let filled = if port == 0 {
                device.internal_sd.recv_data(len)
            } else {
                device.external_sd.recv_data(len)
            };
            match filled {
                Ok(bytes) => Some(DmaRequest { dest, bytes }),
                Err(_) => {
                    // No transfer was staged: a protocol error of the guest
                    // program; the hardware would clock out zeros.
                    Some(DmaRequest { dest, bytes: crate::extdev::sd::zero_vec(len) })
                },
            }
        } else {
            None
        }
    } else {
        None
    };
    state.sic.sd_control.set_bit(2, false);
    result
}

} // verus!

verus! {

/// Whether any controller reset request is pending.
pub open spec fn spec_reset_pending(sic: SICConfig) -> bool {
    sic.dma_control.spec_reset() || sic.fmi_control.spec_reset() || sic.sd_control.spec_swrst()
}

/// Whether a card-initialization clock burst is pending.
pub open spec fn spec_delay_pending(sic: SICConfig) -> bool {
    sic.sd_control.spec_clk74_oe() || sic.sd_control.spec_clk8_oe()
}

/// Whether the controller has nothing at all to do this tick.
pub open spec fn spec_sic_quiet(sic: SICConfig) -> bool {
    &&& !spec_reset_pending(sic)
    &&& !spec_delay_pending(sic)
    &&& !sic.sd_control.spec_co_en()
    &&& !sic.sd_control.spec_di_en()
}

/// How one full command-plus-data tick relates the states when the command
/// enable is set and the selected port maps to `card_pre`: the card takes
/// the dispatch of `spec_request`; a typed response lands in the response
/// registers (or the FIFO behind a header byte) with its one-shot enable
/// dropped and a good command checksum flagged; a missing response flags
/// the command timeout (and the data timeout, with both data enables
/// cleared, when a data phase was requested) and posts the controller
/// interrupt exactly when a matching enable bit is set; a data-in phase
/// that survives the command stages the card's bytes as `r` and drops the
/// data-in enable. The command enable always ends cleared.
pub open spec fn command_data_serviced(
    pre: ExtraState,
    post: ExtraState,
    card_pre: SD,
    card_post: SD,
    r: Option<DmaRequest>,
) -> bool {
    let cmd = pre.sic.sd_control.spec_cmd_code() as u8;
    let arg = pre.sic.sd_arg;
    let di = pre.sic.sd_control.spec_di_en();
    let has_data = di || pre.sic.sd_control.spec_do_en();
    let size = spec_transfer_size(pre.sic);
    let rr = spec_request(card_pre, cmd, arg);
    let resp = rr.1;
    let timeout_irq = pre.sic.sd_irq_enable.spec_timeout_cmd() || (has_data
        && pre.sic.sd_irq_enable.spec_timeout_dat());
    let data_runs = !(resp is MNone) && di;
    let ctrl_after_cmd = (if resp is MNone {
        spec_with_bit(
            (if has_data {
                spec_with_bit(spec_with_bit(pre.sic.sd_control.bits, 2, false), 3, false)
            } else {
                pre.sic.sd_control.bits
            }),
            0,
            false,
        )
    } else if resp is M2 {
        spec_with_bit(spec_with_bit(pre.sic.sd_control.bits, 4, false), 0, false)
    } else {
        spec_with_bit(spec_with_bit(pre.sic.sd_control.bits, 1, false), 0, false)
    });
    &&& command_untouched(pre, post)
    &&& post.sic.sd_response == spec_response_regs(pre.sic.sd_response, resp)
    &&& post.sic.sd_irq.bits == (if !(resp is MNone) {
        spec_with_bit(pre.sic.sd_irq.bits, 2, true)
    } else if has_data {
        spec_with_bit(spec_with_bit(pre.sic.sd_irq.bits, 12, true), 13, true)
    } else {
        spec_with_bit(pre.sic.sd_irq.bits, 12, true)
    })
    &&& post.sic.sd_control.bits == (if data_runs {
        spec_with_bit(ctrl_after_cmd, 2, false)
    } else {
        ctrl_after_cmd
    })
    &&& (resp matches ResponseModel::M2 { payload } ==> {
        &&& post.sic.fifo@.len() == pre.sic.fifo@.len()
        &&& post.sic.fifo@[0] == 0x3fu8
        &&& forall|i: int| 0 <= i < 16 ==> post.sic.fifo@[1 + i] == payload[i]
        &&& forall|k: int| 17 <= k < pre.sic.fifo@.len() ==> post.sic.fifo@[k] == pre.sic.fifo@[k]
    })
    &&& (!(resp is M2) ==> post.sic.fifo == pre.sic.fifo)
    &&& post.aic == (if resp is MNone && timeout_irq {
        spec_post(pre.aic, 17, true, false)
    } else {
        pre.aic
    })
    &&& post.stop_reason == (if resp is MNone && timeout_irq && spec_fires(
        pre.aic,
        17,
        true,
        false,
    ) {
        pre.stop_reason.spec_insert(StopReasonKind::Tick)
    } else {
        pre.stop_reason
    })
    &&& card_post == (if data_runs && size <= usize::MAX as int {
        spec_recv_post(rr.0, size as nat)
    } else {
        rr.0
    })
    &&& (data_runs && (size <= usize::MAX as int) ==> (r matches Some(req) && req.dest
        == pre.sic.dma_dest_addr && req.bytes@ == spec_recv_bytes(rr.0, size as nat)))
    &&& (!(data_runs && size <= usize::MAX as int) ==> r is None)
}

/// The whole relation of one controller tick, across every path: nothing
/// under a gated clock; resets, then clock bursts, each alone; then the
/// command and data phases on the addressed card; a data phase without a
/// command serves the already staged transfer. An unmapped port leaves the
/// command staged and delivers nothing.
pub open spec fn sic_tick_relation(
    pre: ExtraState,
    post: ExtraState,
    dev_pre: Device,
    dev_post: Device,
    r: Option<DmaRequest>,
) -> bool {
    let port = pre.sic.sd_control.spec_sdport();
    let di = pre.sic.sd_control.spec_di_en();
    let size = spec_transfer_size(pre.sic);
    let ctrl_di_clear = SICConfig {
        sd_control: SDCR { bits: spec_with_bit(pre.sic.sd_control.bits, 2, false) },
        ..pre.sic
    };
    if !pre.clk.ahbclk.spec_sic_on() {
        post == pre && dev_post == dev_pre && r is None
    } else if spec_reset_pending(pre.sic) {
        reset_serviced(pre, post) && dev_post == dev_pre && r is None
    } else if spec_delay_pending(pre.sic) {
        delay_serviced(pre, post) && dev_post == dev_pre && r is None
    } else if pre.sic.sd_control.spec_co_en() {
        if port == 0 {
            &&& command_data_serviced(pre, post, dev_pre.internal_sd, dev_post.internal_sd, r)
            &&& dev_post.external_sd == dev_pre.external_sd
            &&& dev_post.input == dev_pre.input
        } else if port == 2 {
            &&& command_data_serviced(pre, post, dev_pre.external_sd, dev_post.external_sd, r)
            &&& dev_post.internal_sd == dev_pre.internal_sd
            &&& dev_post.input == dev_pre.input
        } else {
            &&& post == (if di {
                ExtraState { sic: ctrl_di_clear, ..pre }
            } else {
                pre
            })
            &&& dev_post == dev_pre
            &&& r is None
        }
    } else if di {
        &&& post == (ExtraState { sic: ctrl_di_clear, ..pre })
        &&& (port == 0 && size <= usize::MAX as int ==> {
            &&& (r matches Some(req) && req.dest == pre.sic.dma_dest_addr && req.bytes@
                == spec_recv_bytes(dev_pre.internal_sd, size as nat))
            &&& dev_post.internal_sd == spec_recv_post(dev_pre.internal_sd, size as nat)
            &&& dev_post.external_sd == dev_pre.external_sd
        })
        &&& (port == 2 && size <= usize::MAX as int ==> {
            &&& (r matches Some(req) && req.dest == pre.sic.dma_dest_addr && req.bytes@
                == spec_recv_bytes(dev_pre.external_sd, size as nat))
            &&& dev_post.external_sd == spec_recv_post(dev_pre.external_sd, size as nat)
            &&& dev_post.internal_sd == dev_pre.internal_sd
        })
        &&& ((port != 0 && port != 2) || size > usize::MAX as int ==> dev_post == dev_pre && r
            is None)
        &&& dev_post.input == dev_pre.input
    } else {
        post == pre && dev_post == dev_pre && r is None
    }
}

proof fn lemma_ctrl_clear_keeps(b: u32, n: u32)
    by (bit_vector)
    requires
        n == 0 || n == 1 || n == 4,
    ensures
        ((b & !(1u32 << n)) >> 16) & 0xff == (b >> 16) & 0xff,
        ((b & !(1u32 << n)) >> 29) & 0x3 == (b >> 29) & 0x3,
        ((b & !(1u32 << n)) >> 2) & 1 == (b >> 2) & 1,
{
}

/// One controller tick: nothing happens while the controller's clock is
/// gated; then pending resets are serviced, then pending clock bursts, and
/// only a tick free of both proceeds to command and data processing - a
/// reset and a command cannot both complete in one tick. `sic_tick_relation`
/// states the whole effect, every path included: the command-timeout and
/// data-timeout flags, the one-shot enable clears, the posted interrupt,
/// the card's evolution and the staged transfer, which the embedding
/// program writes into guest memory and acknowledges via `dma_complete`.
pub fn tick(state: &mut ExtraState, device: &mut Device) -> (r: Option<DmaRequest>)
    requires
        old(state).sic.wf(),
        old(state).sic.sd_io_size <= 0x100000000,
    ensures
        final(state).sic.wf(),
        final(state).steps == old(state).steps,
        final(state).clk == old(state).clk,
        final(state).tmr == old(state).tmr,
        sic_tick_relation(*old(state), *final(state), *old(device), *final(device), r),
        !old(state).clk.ahbclk.spec_sic_on() ==> *final(state) == *old(state) && *final(device)
            == *old(device) && r is None,
        old(state).clk.ahbclk.spec_sic_on() && spec_reset_pending(old(state).sic) ==> r is None
            && *final(device) == *old(device),
        old(state).clk.ahbclk.spec_sic_on() && spec_sic_quiet(old(state).sic) ==> *final(state)
            == *old(state) && *final(device) == *old(device) && r is None,
        final(device).input == old(device).input,
        old(state).aic.summary_consistent() ==> final(state).aic.summary_consistent(),
        old(state).aic.summary_consistent() ==> (final(state).stop_reason == old(
            state,
        ).stop_reason || final(state).stop_reason == old(state).stop_reason.spec_insert(
            StopReasonKind::Tick,
        )),
{
    proof {
        if old(state).aic.summary_consistent() {
            crate::peripherals::aic::lemma_post_preserves_consistency(
                old(state).aic,
                17,
                true,
                false,
            );
        }
    }
    if !state.clk.ahbclk.get_sic() {
        return None;
    }
    if check_reset(state) {
        return None;
    }
    if check_delay_condition(state) {
        return None;
    }
    let ghost pre = *state;
    let ghost pre_ctrl = state.sic.sd_control.bits;
    let skip_data = tick_command(state, device);
    proof {
        lemma_ctrl_clear_keeps(pre_ctrl, 0);
        lemma_ctrl_clear_keeps(spec_with_bit(pre_ctrl, 1, false), 0);
        lemma_ctrl_clear_keeps(spec_with_bit(pre_ctrl, 4, false), 0);
        lemma_ctrl_clear_keeps(pre_ctrl, 1);
        lemma_ctrl_clear_keeps(pre_ctrl, 4);
        if !skip_data && pre.sic.sd_control.spec_co_en() && (pre.sic.sd_control.spec_sdport()
            == 0 || pre.sic.sd_control.spec_sdport() == 2) {
            assert(state.sic.sd_control.spec_blkcnt() == pre.sic.sd_control.spec_blkcnt());
            assert(state.sic.sd_control.spec_sdport() == pre.sic.sd_control.spec_sdport());
            assert(state.sic.sd_io_size == pre.sic.sd_io_size);
            assert(spec_transfer_size(state.sic) == spec_transfer_size(pre.sic));
            assert(state.sic.sd_control.spec_di_en() == pre.sic.sd_control.spec_di_en());
        }
    }
    tick_data(state, device, skip_data)
}

/// Acknowledge a completed (or failed) guest-memory write of a staged
/// transfer of `size` bytes: success advances the running byte count and
/// the DMA destination, flags the block transfer done with a good data
/// checksum, and posts the controller interrupt when enabled; failure
/// flags a DMA target abort (with the data checksum cleared) and posts its
/// own interrupt when enabled. Either way the block-count register is
/// cleared so a stale count cannot apply twice.
pub fn dma_complete(state: &mut ExtraState, size: usize, ok: bool)
    ensures
        old(state).aic.summary_consistent() ==> final(state).aic.summary_consistent(),
        final(state).steps == old(state).steps,
        final(state).clk == old(state).clk,
        final(state).tmr == old(state).tmr,
        final(state).sic.dma_irq_enable == old(state).sic.dma_irq_enable,
        final(state).sic.sd_irq_enable == old(state).sic.sd_irq_enable,
        final(state).sic.sd_response == old(state).sic.sd_response,
        final(state).sic.sd_arg == old(state).sic.sd_arg,
        final(state).sic.sd_io_size == old(state).sic.sd_io_size,
        final(state).sic.fifo == old(state).sic.fifo,
        final(state).sic.fmi_control == old(state).sic.fmi_control,
        final(state).sic.fmi_irq_enable == old(state).sic.fmi_irq_enable,
        final(state).sic.fmi_irq_status == old(state).sic.fmi_irq_status,
        final(state).sic.dma_control == old(state).sic.dma_control,
        final(state).sic.sd_control.bits == (old(state).sic.sd_control.bits & !0xff0000u32),
        ok ==> ({
            let irq = old(state).sic.sd_irq_enable.spec_block_xfer_done();
            &&& final(state).sic.dma_count == vstd::wrapping::u64_specs::wrapping_add(
                old(state).sic.dma_count,
                size as u64,
            )
            &&& final(state).sic.dma_dest_addr == vstd::wrapping::u64_specs::wrapping_add(
                old(state).sic.dma_dest_addr,
                size as u64,
            )
            &&& final(state).sic.sd_irq.bits == spec_with_bit(
                spec_with_bit(old(state).sic.sd_irq.bits, 3, true),
                0,
                true,
            )
            &&& final(state).sic.dma_irq_status == old(state).sic.dma_irq_status
            &&& final(state).aic == (if irq {
                spec_post(old(state).aic, 17, true, false)
            } else {
                old(state).aic
            })
            &&& final(state).stop_reason == (if irq && spec_fires(old(state).aic, 17, true, false) {
                old(state).stop_reason.spec_insert(StopReasonKind::Tick)
            } else {
                old(state).stop_reason
            })
        }),
        !ok ==> ({
            let irq = old(state).sic.dma_irq_enable.spec_target_abort();
            &&& final(state).sic.dma_count == old(state).sic.dma_count
            &&& final(state).sic.dma_dest_addr == old(state).sic.dma_dest_addr
            &&& final(state).sic.sd_irq.bits == spec_with_bit(old(state).sic.sd_irq.bits, 3, false)
            &&& final(state).sic.dma_irq_status.bits == spec_with_bit(
                old(state).sic.dma_irq_status.bits,
                0,
                true,
            )
            &&& final(state).aic == (if irq {
                spec_post(old(state).aic, 17, true, false)
            } else {
                old(state).aic
            })
            &&& final(state).stop_reason == (if irq && spec_fires(old(state).aic, 17, true, false) {
                old(state).stop_reason.spec_insert(StopReasonKind::Tick)
            } else {
                old(state).stop_reason
            })
        }),
{
    proof {
        if old(state).aic.summary_consistent() {
            crate::peripherals::aic::lemma_post_preserves_consistency(
                old(state).aic,
                17,
                true,
                false,
            );
        }
    }
    if ok {
        state.sic.dma_count = state.sic.dma_count.wrapping_add(size as u64);
        state.sic.sd_irq.set_bit(3, true);
        state.sic.sd_irq.set_bit(0, true);
        state.sic.dma_dest_addr = state.sic.dma_dest_addr.wrapping_add(size as u64);
        if state.sic.sd_irq_enable.get_block_xfer_done() {
            crate::peripherals::aic::post_interrupt(state, InterruptNumber::SIC, true, false);
        }
    } else {
        state.sic.dma_irq_status.set_target_abort();
        state.sic.sd_irq.set_bit(3, false);
        if state.sic.dma_irq_enable.get_target_abort() {
            crate::peripherals::aic::post_interrupt(state, InterruptNumber::SIC, true, false);
        }
    }
    state.sic.sd_control.clear_blkcnt();
}

} // verus!

verus! {

/// Start of the response/data FIFO window.
pub const REG_FB_START: u64 = 0x0;

/// End (exclusive) of the FIFO window.
pub const REG_FB_END: u64 = 0x400;

/// DMA engine control/status register.
pub const REG_DMACCSR: u64 = 0x400;

/// DMA destination (start) address register.
pub const REG_DMACSAR: u64 = 0x408;

/// DMA transferred-byte-count register.
pub const REG_DMACBCR: u64 = 0x40c;

/// DMA interrupt-enable register.
pub const REG_DMACIER: u64 = 0x410;

/// DMA interrupt-status register.
pub const REG_DMACISR: u64 = 0x414;

/// Flash-interface control register.
pub const REG_FMICR: u64 = 0x800;

/// Flash-interface interrupt-enable register.
pub const REG_FMIIER: u64 = 0x804;

/// Flash-interface interrupt-status register.
pub const REG_FMIISR: u64 = 0x808;

/// SD command register.
pub const REG_SDCR: u64 = 0x820;

/// SD command-argument register.
pub const REG_SDARG: u64 = 0x824;

/// SD interrupt-enable register.
pub const REG_SDIER: u64 = 0x828;

/// SD interrupt-status register (write 1 to clear).
pub const REG_SDISR: u64 = 0x82c;

/// First response register (upper response bits).
pub const REG_SDRSP0: u64 = 0x830;

/// Second response register (low response byte).
pub const REG_SDRSP1: u64 = 0x834;

/// Block-length register (stores length minus one).
pub const REG_SDBLEN: u64 = 0x838;

/// Controller register read. The FIFO window supports aligned 1-, 2- and
/// 4-byte little-endian reads; the registers support only 4-byte reads;
/// anything else reads as zero.
pub fn read(state: &ExtraState, addr: u64, size: usize) -> (r: u64)
    requires
        state.sic.wf(),
    ensures
        ({
            let sic = state.sic;
            let fa = (addr & 0x3ff) as int;
            &&& (addr < REG_FB_END && size == 1 ==> r == sic.fifo@[fa] as u64)
            &&& (addr < REG_FB_END && size == 2 && addr & 1 == 0 ==> r == sic.fifo@[fa] as u64 | (
            (sic.fifo@[fa + 1] as u64) << 8u64))
            &&& (addr < REG_FB_END && size == 2 && addr & 1 != 0 ==> r == 0)
            &&& (addr < REG_FB_END && size == 4 && addr & 3 == 0 ==> r == sic.fifo@[fa] as u64 | (
            (sic.fifo@[fa + 1] as u64) << 8u64) | ((sic.fifo@[fa + 2] as u64) << 16u64) | ((
            sic.fifo@[fa + 3] as u64) << 24u64))
            &&& (addr < REG_FB_END && size == 4 && addr & 3 != 0 ==> r == 0)
            &&& (addr >= REG_FB_END && size != 4 ==> r == 0)
            &&& (size == 4 ==> {
                &&& (addr == REG_DMACCSR ==> r == (sic.dma_control.bits & 0xffff) as u64)
                &&& (addr == REG_DMACSAR ==> r == sic.dma_dest_addr)
                &&& (addr == REG_DMACBCR ==> r == sic.dma_count & 0xffffffff)
                &&& (addr == REG_DMACIER ==> r == (sic.dma_irq_enable.bits & 0xff) as u64)
                &&& (addr == REG_DMACISR ==> r == (sic.dma_irq_status.bits & 0xff) as u64)
                &&& (addr == REG_FMICR ==> r == (sic.fmi_control.bits & 0xff) as u64)
                &&& (addr == REG_FMIIER ==> r == (if sic.fmi_irq_enable {
                    1u64
                } else {
                    0u64
                }))
                &&& (addr == REG_FMIISR ==> r == (if sic.fmi_irq_status {
                    1u64
                } else {
                    0u64
                }))
                &&& (addr == REG_SDCR ==> r == sic.sd_control.bits as u64)
                &&& (addr == REG_SDIER ==> r == sic.sd_irq_enable.bits as u64)
                &&& (addr == REG_SDISR ==> r == sic.sd_irq.bits as u64)
                &&& (addr == REG_SDRSP0 ==> r == sic.sd_response.0 as u64)
                &&& (addr == REG_SDRSP1 ==> r == sic.sd_response.1 as u64)
                &&& (addr == REG_SDBLEN ==> r == vstd::wrapping::u64_specs::wrapping_sub(
                    sic.sd_io_size,
                    1,
                ) & 0xffffffff)
            })
        }),
{
    if addr < REG_FB_END {
        let fa = (addr & 0x3ff) as usize;
        proof {
            assert(addr & 0x3ff < 0x400) by (bit_vector);
            assert(addr < 0x400 ==> ((addr & 1) == 0 ==> (addr & 0x3ff) + 2 <= 0x400))
                by (bit_vector);
            assert(addr < 0x400 ==> ((addr & 3) == 0 ==> (addr & 0x3ff) + 4 <= 0x400))
                by (bit_vector);
        }
        if size == 1 {
            return state.sic.fifo[fa] as u64;
        }
        if size == 2 {
            if addr & 1 != 0 {
                return 0;
            }
            return state.sic.fifo[fa] as u64 | ((state.sic.fifo[fa + 1] as u64) << 8u64);
        }
        if size == 4 {
            if addr & 3 != 0 {
                return 0;
            }
            return state.sic.fifo[fa] as u64 | ((state.sic.fifo[fa + 1] as u64) << 8u64) | ((
            state.sic.fifo[fa + 2] as u64) << 16u64) | ((state.sic.fifo[fa + 3] as u64) << 24u64);
        }
        return 0;
    }
    if size != 4 {
        return 0;
    }
    if addr == REG_DMACCSR {
        (state.sic.dma_control.bits & 0xffff) as u64
    } else if addr == REG_DMACSAR {
        state.sic.dma_dest_addr
    } else if addr == REG_DMACBCR {
        state.sic.dma_count & 0xffffffff
    } else if addr == REG_DMACIER {
        (state.sic.dma_irq_enable.bits & 0xff) as u64
    } else if addr == REG_DMACISR {
        (state.sic.dma_irq_status.bits & 0xff) as u64
    } else if addr == REG_FMICR {
        (state.sic.fmi_control.bits & 0xff) as u64
    } else if addr == REG_FMIIER {
        if state.sic.fmi_irq_enable {
            1
        } else {
            0
        }
    } else if addr == REG_FMIISR {
        if state.sic.fmi_irq_status {
            1
        } else {
            0
        }
    } else if addr == REG_SDCR {
        state.sic.sd_control.bits as u64
    } else if addr == REG_SDIER {
        state.sic.sd_irq_enable.bits as u64
    } else if addr == REG_SDISR {
        state.sic.sd_irq.bits as u64
    } else if addr == REG_SDRSP0 {
        state.sic.sd_response.0 as u64
    } else if addr == REG_SDRSP1 {
        state.sic.sd_response.1 as u64
    } else if addr == REG_SDBLEN {
        state.sic.sd_io_size.wrapping_sub(1) & 0xffffffff
    } else {
        0
    }
}

/// Controller register write. FIFO bytes take aligned 1-, 2- and 4-byte
/// little-endian writes; the registers take the low 32 bits of 4-byte
/// writes; the block-length register stores the written length plus one.
pub fn write(state: &mut ExtraState, addr: u64, size: usize, value: u64)
    requires
        old(state).sic.wf(),
    ensures
        final(state).sic.wf(),
        *final(state) == (ExtraState { sic: final(state).sic, ..*old(state) }),
        ({
            let sic = old(state).sic;
            let post = final(state).sic;
            let fa = (addr & 0x3ff) as int;
            let v32 = (value & 0xffffffff) as u32;
            &&& (addr < REG_FB_END ==> post == (SICConfig { fifo: post.fifo, ..sic }))
            &&& (addr < REG_FB_END && size == 1 ==> post.fifo@ == sic.fifo@.update(
                fa,
                (value & 0xff) as u8,
            ))
            &&& (addr < REG_FB_END && size == 2 && addr & 1 == 0 ==> post.fifo@
                == sic.fifo@.update(fa, (value & 0xff) as u8).update(
                fa + 1,
                ((value >> 8u64) & 0xff) as u8,
            ))
            &&& (addr < REG_FB_END && size == 4 && addr & 3 == 0 ==> post.fifo@
                == sic.fifo@.update(fa, (value & 0xff) as u8).update(
                fa + 1,
                ((value >> 8u64) & 0xff) as u8,
            ).update(fa + 2, ((value >> 16u64) & 0xff) as u8).update(
                fa + 3,
                ((value >> 24u64) & 0xff) as u8,
            ))
            &&& (addr < REG_FB_END && ((size == 2 && addr & 1 != 0) || (size == 4 && addr & 3 != 0)
                || (size != 1 && size != 2 && size != 4)) ==> post == sic)
            &&& (addr >= REG_FB_END && size != 4 ==> post == sic)
            &&& (addr >= REG_FB_END && size == 4 ==> {
                &&& (addr == REG_DMACCSR ==> post == (SICConfig {
                    dma_control: DMAControl { bits: (value & 0xffff) as u32 },
                    ..sic
                }))
                &&& (addr == REG_DMACSAR ==> post == (SICConfig { dma_dest_addr: value, ..sic }))
                &&& (addr == REG_DMACBCR ==> post == (SICConfig {
                    dma_count: value & 0xffffffff,
                    ..sic
                }))
                &&& (addr == REG_DMACIER ==> post == (SICConfig {
                    dma_irq_enable: DMAIRQFlags { bits: (value & 0xff) as u32 },
                    ..sic
                }))
                &&& (addr == REG_DMACISR ==> post == (SICConfig {
                    dma_irq_status: DMAIRQFlags { bits: (value & 0xff) as u32 },
                    ..sic
                }))
                &&& (addr == REG_FMICR ==> post == (SICConfig {
                    fmi_control: FMIControl { bits: (value & 0xff) as u32 },
                    ..sic
                }))
                &&& (addr == REG_FMIIER ==> post == (SICConfig {
                    fmi_irq_enable: value & 1 == 1,
                    ..sic
                }))
                &&& (addr == REG_FMIISR ==> post == (SICConfig {
                    fmi_irq_status: value & 1 == 1,
                    ..sic
                }))
                &&& (addr == REG_SDARG ==> post == (SICConfig { sd_arg: v32, ..sic }))
                &&& (addr == REG_SDCR ==> post == (SICConfig {
                    sd_control: SDCR { bits: v32 },
                    ..sic
                }))
                &&& (addr == REG_SDIER ==> post == (SICConfig {
                    sd_irq_enable: SDIRQEnable { bits: v32 },
                    ..sic
                }))
                &&& (addr == REG_SDISR ==> post == (SICConfig {
                    sd_irq: SDIRQStatus { bits: sic.sd_irq.bits & !v32 },
                    ..sic
                }))
                &&& (addr == REG_SDBLEN ==> post == (SICConfig {
                    sd_io_size: vstd::wrapping::u64_specs::wrapping_add(value, 1) & 0xffffffff,
                    ..sic
                }))
                &&& (addr != REG_DMACCSR && addr != REG_DMACSAR && addr != REG_DMACBCR && addr
                    != REG_DMACIER && addr != REG_DMACISR && addr != REG_FMICR && addr
                    != REG_FMIIER && addr != REG_FMIISR && addr != REG_SDARG && addr != REG_SDCR
                    && addr != REG_SDIER && addr != REG_SDISR && addr != REG_SDBLEN ==> post
                    == sic)
            })
        }),
{
    if addr < REG_FB_END {
        let fa = (addr & 0x3ff) as usize;
        proof {
            assert(addr & 0x3ff < 0x400) by (bit_vector);
            assert(addr < 0x400 ==> ((addr & 1) == 0 ==> (addr & 0x3ff) + 2 <= 0x400))
                by (bit_vector);
            assert(addr < 0x400 ==> ((addr & 3) == 0 ==> (addr & 0x3ff) + 4 <= 0x400))
                by (bit_vector);
        }
        if size == 1 {
            state.sic.fifo[fa] = (value & 0xff) as u8;
        } else if size == 2 {
            if addr & 1 != 0 {
                return ;
            }
            state.sic.fifo[fa] = (value & 0xff) as u8;
            state.sic.fifo[fa + 1] = ((value >> 8u64) & 0xff) as u8;
        } else if size == 4 {
            if addr & 3 != 0 {
                return ;
            }
            state.sic.fifo[fa] = (value & 0xff) as u8;
            state.sic.fifo[fa + 1] = ((value >> 8u64) & 0xff) as u8;
            state.sic.fifo[fa + 2] = ((value >> 16u64) & 0xff) as u8;
            state.sic.fifo[fa + 3] = ((value >> 24u64) & 0xff) as u8;
        }
        return ;
    }
    if size != 4 {
        return ;
    }
    let v32 = (value & 0xffffffff) as u32;
    if addr == REG_DMACCSR {
        state.sic.dma_control = DMAControl { bits: (value & 0xffff) as u32 };
    } else if addr == REG_DMACSAR {
        state.sic.dma_dest_addr = value;
    } else if addr == REG_DMACBCR {
        state.sic.dma_count = value & 0xffffffff;
    } else if addr == REG_DMACIER {
        state.sic.dma_irq_enable = DMAIRQFlags { bits: (value & 0xff) as u32 };
    } else if addr == REG_DMACISR {
        state.sic.dma_irq_status = DMAIRQFlags { bits: (value & 0xff) as u32 };
    } else if addr == REG_FMICR {
        state.sic.fmi_control = FMIControl { bits: (value & 0xff) as u32 };
    } else if addr == REG_FMIIER {
        state.sic.fmi_irq_enable = value & 1 == 1;
    } else if addr == REG_FMIISR {
        state.sic.fmi_irq_status = value & 1 == 1;
    } else if addr == REG_SDARG {
        state.sic.sd_arg = v32;
    } else if addr == REG_SDCR {
        state.sic.sd_control = SDCR { bits: v32 };
    } else if addr == REG_SDIER {
        state.sic.sd_irq_enable = SDIRQEnable { bits: v32 };
    } else if addr == REG_SDISR {
        state.sic.sd_irq = SDIRQStatus { bits: state.sic.sd_irq.bits & !v32 };
    } else if addr == REG_SDBLEN {
        state.sic.sd_io_size = value.wrapping_add(1) & 0xffffffff;
    }
}

} // verus!
