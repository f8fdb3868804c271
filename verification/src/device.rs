//! Shared emulation state and the cooperative scheduler: the stop-request
//! set that peripherals accumulate, the pre-instruction stop predicates,
//! and the dispatch pass that services the requested work in a fixed order
//! between guest instructions.
use vstd::prelude::*;

use crate::exception::ExceptionType;
use crate::extdev::input::Input;
use crate::extdev::sd::SD;
use crate::peripherals::aic::AICConfig;
use crate::peripherals::sic::SICConfig;
use crate::peripherals::sys::ClockConfig;
use crate::peripherals::tmr::TimerConfig;

verus! {

/// Why the session is asked to end.
#[derive(Debug, Clone, Copy, PartialEq, Eq, Structural)]
pub enum QuitDetail {
    UserSpecified,
    CPUException,
    CPUHalt,
    HLECallbackFailure,
}

impl QuitDetail {
    /// The shutdown reason, as a sentence for the session log.
    pub fn message(&self) -> String {
        match self {
            QuitDetail::UserSpecified => "Stopping emulator...".to_string(),
            QuitDetail::CPUException => "CPU exception occurred and the session quits on this type of exception.".to_string(),
            QuitDetail::CPUHalt => "CPU halted.".to_string(),
            QuitDetail::HLECallbackFailure => "High-level emulation callback failed to execute.".to_string(),
        }
    }
}

/// One reason a device may request scheduler attention.
#[derive(Debug, Clone, Copy, PartialEq, Eq, Structural)]
pub enum StopReasonKind {
    /// Generic peripheral update due.
    Tick,
    /// Display-refresh boundary reached.
    FrameStep,
    /// The guest executed a supervisor call.
    Svc,
}

/// The set of reasons accumulated since the last dispatch pass: any mix of
/// the three ordinary reasons plus an optional terminal reason. The
/// terminal reason takes precedence and, once set, is never replaced
/// within the same instruction boundary.
#[derive(Debug, Clone, Copy, PartialEq, Eq, Structural)]
pub struct StopReason {
    pub tick: bool,
    pub frame_step: bool,
    pub svc: bool,
    pub quit: Option<QuitDetail>,
}

impl StopReason {
    /// The empty set.
    pub open spec fn spec_empty() -> StopReason {
        StopReason { tick: false, frame_step: false, svc: false, quit: None }
    }

    /// Whether no reason at all is pending.
    pub open spec fn spec_is_empty(self) -> bool {
        self === StopReason::spec_empty()
    }

    /// The set with one ordinary reason added.
    pub open spec fn spec_insert(self, kind: StopReasonKind) -> StopReason {
        match kind {
            StopReasonKind::Tick => StopReason { tick: true, ..self },
            StopReasonKind::FrameStep => StopReason { frame_step: true, ..self },
            StopReasonKind::Svc => StopReason { svc: true, ..self },
        }
    }

    /// The set with the terminal reason added; an earlier terminal reason
    /// is kept.
    pub open spec fn spec_insert_quit(self, detail: QuitDetail) -> StopReason {
        if self.quit is None {
            StopReason { quit: Some(detail), ..self }
        } else {
            self
        }
    }

    pub fn empty() -> (r: StopReason)
        ensures
            r == StopReason::spec_empty(),
    {
        StopReason { tick: false, frame_step: false, svc: false, quit: None }
    }

    pub fn is_empty(&self) -> (r: bool)
        ensures
            r == self.spec_is_empty(),
    {
        !self.tick && !self.frame_step && !self.svc && self.quit.is_none()
    }

    pub fn insert(&mut self, kind: StopReasonKind)
        ensures
            *final(self) == old(self).spec_insert(kind),
    {
        match kind {
            StopReasonKind::Tick => self.tick = true,
            StopReasonKind::FrameStep => self.frame_step = true,
            StopReasonKind::Svc => self.svc = true,
        }
    }

    pub fn insert_quit(&mut self, detail: QuitDetail)
        ensures
            *final(self) == old(self).spec_insert_quit(detail),
    {
        if self.quit.is_none() {
            self.quit = Some(detail);
        }
    }

    /// Consume the whole set, leaving it empty.
    pub fn take(&mut self) -> (r: StopReason)
        ensures
            r == *old(self),
            *final(self) == StopReason::spec_empty(),
    {
        let taken = StopReason { tick: self.tick, frame_step: self.frame_step, svc: self.svc, quit: self.quit };
        self.tick = false;
        self.frame_step = false;
        self.svc = false;
        self.quit = None;
        taken
    }
}

impl Default for StopReason {
    /// The empty set.
    fn default() -> (r: Self)
        ensures
            r == StopReason::spec_empty(),
    {
        StopReason { tick: false, frame_step: false, svc: false, quit: None }
    }
}

/// The shared emulation state every device handler works on: the pending
/// stop requests, the instruction-step counter the stop predicates divide,
/// and the register state of the modeled peripherals.
#[derive(Default)]
pub struct ExtraState {
    pub stop_reason: StopReason,
    pub steps: u64,
    pub clk: ClockConfig,
    pub aic: AICConfig,
    pub sic: SICConfig,
    pub tmr: TimerConfig,
}

/// Defer a stop to right before the next instruction executes, stating the
/// given reason.
pub fn request_stop(state: &mut ExtraState, reason: StopReasonKind)
    ensures
        *final(state) == (ExtraState {
            stop_reason: old(state).stop_reason.spec_insert(reason),
            ..*old(state)
        }),
{
    state.stop_reason.insert(reason);
}

/// Ask the session to end, stating why; an earlier quit reason wins.
pub fn request_quit(state: &mut ExtraState, detail: QuitDetail)
    ensures
        *final(state) == (ExtraState {
            stop_reason: old(state).stop_reason.spec_insert_quit(detail),
            ..*old(state)
        }),
{
    state.stop_reason.insert_quit(detail);
}

/// The device models that live outside the register file: the two card
/// slots and the input queues.
pub struct Device {
    pub internal_sd: SD,
    pub external_sd: SD,
    pub input: Input,
}

impl Default for Device {
    /// Unmounted cards and empty input queues.
    fn default() -> (r: Self)
        ensures
            !r.internal_sd.mounted,
            !r.external_sd.mounted,
            r.input.touch@.len() == 0,
            r.input.keys@.len() == 0,
    {
        Device { internal_sd: SD::default(), external_sd: SD::default(), input: Input::default() }
    }
}

} // verus!

verus! {

use crate::peripherals::aic::{spec_pop, spec_post, spec_selection};
use crate::peripherals::sic::{sic_tick_relation, spec_sic_quiet, DmaRequest};
use crate::peripherals::tmr::timers_serviced;

/// Pre-instruction hook: advance the step counter, evaluate the display
/// and timer stop predicates, and report whether any stop request is
/// pending, in which case CPU execution must halt at the next instruction
/// boundary.
pub fn check_stop_condition(state: &mut ExtraState) -> (halt: bool)
    requires
        old(state).clk.tick_config.vsync > 0,
        old(state).clk.tick_config.apb > 0,
        old(state).clk.tick_config.apb <= 0xffffffff,
    ensures
        ({
            let steps2 = vstd::wrapping::u64_specs::wrapping_add(old(state).steps, 1);
            let sr1 = (if (steps2 as int) % (old(state).clk.tick_config.vsync as int) == 0 {
                old(state).stop_reason.spec_insert(StopReasonKind::FrameStep)
            } else {
                old(state).stop_reason
            });
            &&& timers_serviced(
                (ExtraState { steps: steps2, stop_reason: sr1, ..*old(state) }),
                *final(state),
                steps2,
            )
            &&& final(state).steps == steps2
            &&& halt == !final(state).stop_reason.spec_is_empty()
        }),
        old(state).aic.summary_consistent() ==> final(state).aic.summary_consistent(),
{
    proof {
        if old(state).aic.summary_consistent() {
            crate::peripherals::aic::lemma_post_preserves_consistency(
                old(state).aic,
                14,
                true,
                false,
            );
            crate::peripherals::aic::lemma_post_preserves_consistency(
                spec_post(old(state).aic, 14, true, false),
                15,
                true,
                false,
            );
            crate::peripherals::aic::lemma_post_preserves_consistency(
                old(state).aic,
                15,
                true,
                false,
            );
        }
    }
    state.steps = state.steps.wrapping_add(1);
    let steps = state.steps;
    crate::peripherals::vpost::generate_stop_condition(state, steps);
    crate::peripherals::tmr::generate_stop_condition(state, steps);
    !state.stop_reason.is_empty()
}

/// Host-side work a dispatch pass asks the embedding program to perform,
/// in order: present the frame, or deliver a CPU exception (computing the
/// register effects with `exception_effects`).
#[derive(Debug, Clone, Copy, PartialEq, Eq, Structural)]
pub enum HostAction {
    RenderFrame,
    RaiseException(ExceptionType),
}

/// The result of one dispatch pass: whether the session continues, the
/// terminal reason when it does not (surfaced as the shutdown reason), the
/// host-side actions to perform in order, and an optional staged DMA
/// transfer to write into guest memory (acknowledged via `dma_complete`).
pub struct TickOutcome {
    pub proceed: bool,
    pub quit: Option<QuitDetail>,
    pub actions: Vec<HostAction>,
    pub dma: Option<DmaRequest>,
}

impl Device {
    /// One dispatch pass, run after the CPU core has stopped at an
    /// instruction boundary. The accumulated stop-request set is consumed
    /// atomically at the top, so reasons generated during the pass become
    /// visible only at the next boundary. A pending terminal reason ends
    /// the session before anything is serviced. Otherwise the reasons are
    /// serviced in the fixed order: frame presentation, supervisor call,
    /// then the device ticks - interrupt controller first, then the
    /// clock gate check, then the storage controller (whose interrupts
    /// therefore become visible at the next boundary).
    pub fn tick(&mut self, state: &mut ExtraState) -> (r: TickOutcome)
        requires
            old(state).aic.summary_consistent(),
            old(state).sic.wf(),
            old(state).sic.sd_io_size <= 0x100000000,
        ensures
            final(state).aic.summary_consistent(),
            final(state).sic.wf(),
            r.proceed == (old(state).stop_reason.quit is None
                && final(state).stop_reason.quit is None),
            r.quit == (if old(state).stop_reason.quit is Some {
                old(state).stop_reason.quit
            } else {
                final(state).stop_reason.quit
            }),
            r.proceed == (r.quit is None),
            old(state).stop_reason.quit is Some ==> *final(self) == *old(self) && r.actions@.len()
                == 0 && r.dma is None && *final(state) == (ExtraState {
                stop_reason: StopReason::spec_empty(),
                ..*old(state)
            }),
            old(state).stop_reason.quit is None ==> ({
                let fs = old(state).stop_reason.frame_step;
                let sv = old(state).stop_reason.svc;
                let tk = old(state).stop_reason.tick;
                let head: int = (if fs {
                    1int
                } else {
                    0int
                }) + (if sv {
                    1int
                } else {
                    0int
                });
                let popping = tk && old(state).aic.step && old(state).aic.status_map != 0;
                &&& (fs ==> r.actions@[0] == HostAction::RenderFrame)
                &&& (sv ==> r.actions@[if fs {
                    1int
                } else {
                    0int
                }] == HostAction::RaiseException(ExceptionType::SupervisorCall))
                &&& (popping ==> r.actions@[head] == HostAction::RaiseException(
                    if spec_selection(old(state).aic).0 == 0 {
                        ExceptionType::FIQ
                    } else {
                        ExceptionType::IRQ
                    },
                ))
                &&& r.actions@.len() == head + (if popping {
                    1int
                } else {
                    0int
                })
                &&& (!tk ==> *final(state) == (ExtraState {
                    stop_reason: StopReason::spec_empty(),
                    ..*old(state)
                }) && *final(self) == *old(self) && r.dma is None)
                &&& (tk ==> ({
                    let mid_aic = (if popping {
                        spec_pop(old(state).aic)
                    } else {
                        old(state).aic
                    });
                    let mid_stop = (if old(state).clk.ahbclk.spec_cpu_on() {
                        StopReason::spec_empty()
                    } else {
                        StopReason::spec_empty().spec_insert_quit(QuitDetail::CPUHalt)
                    });
                    let mid = (ExtraState {
                        aic: mid_aic,
                        stop_reason: mid_stop,
                        ..*old(state)
                    });
                    &&& sic_tick_relation(mid, *final(state), *old(self), *final(self), r.dma)
                    &&& final(state).steps == old(state).steps
                    &&& final(state).clk == old(state).clk
                    &&& final(state).tmr == old(state).tmr
                    &&& !final(state).stop_reason.frame_step
                    &&& !final(state).stop_reason.svc
                    &&& (!old(state).clk.ahbclk.spec_cpu_on()
                        ==> final(state).stop_reason.quit == Some(QuitDetail::CPUHalt))
                    &&& (old(state).clk.ahbclk.spec_cpu_on()
                        ==> final(state).stop_reason.quit is None)
                    &&& (old(state).clk.ahbclk.spec_cpu_on() && (!old(
                        state,
                    ).clk.ahbclk.spec_sic_on() || spec_sic_quiet(old(state).sic))
                        ==> final(state).stop_reason == StopReason::spec_empty() && *final(self)
                        == *old(self) && r.dma is None && final(state).aic == mid_aic
                        && final(state).sic == old(state).sic)
                }))
            }),
    {
        let taken = state.stop_reason.take();
        if taken.quit.is_some() {
            return TickOutcome { proceed: false, quit: taken.quit, actions: Vec::new(), dma: None };
        }
        let mut actions: Vec<HostAction> = Vec::new();
        if taken.frame_step {
            actions.push(HostAction::RenderFrame);
        }
        if taken.svc {
            actions.push(HostAction::RaiseException(ExceptionType::SupervisorCall));
        }
        let mut dma: Option<DmaRequest> = None;
        if taken.tick {
            match crate::peripherals::aic::tick(state) {
                Some(exc) => actions.push(HostAction::RaiseException(exc)),
                None => {},
            }
            if !state.clk.ahbclk.get_cpu() {
                request_quit(state, QuitDetail::CPUHalt);
            }
            dma = crate::peripherals::sic::tick(state, self);
        }
        let quit = state.stop_reason.quit;
        let proceed = quit.is_none();
        TickOutcome { proceed, quit, actions, dma }
    }
}

} // verus!
