//! The decisions of the exception-handling interface (`_Unwind_*`) on top of
//! the frame iterator.
//!
//! Only the cleanup phase is run. The caller owns the exception object, calls
//! the personality routines and transfers control; this module says, frame by
//! frame, what is to be done next.

use crate::error::UnwindError;
use crate::frames::{StackFrame, StackFrames};
use crate::registers::{Arch, Registers, REGISTER_COUNT};
use vstd::prelude::*;

verus! {

/// What a personality routine, or the unwinder, reports.
#[derive(Debug, Clone, Copy, PartialEq, Eq, Structural)]
pub enum ReasonCode {
    NoReason,
    ForeignExceptionCaught,
    FatalPhase2Error,
    FatalPhase1Error,
    NormalStop,
    EndOfStack,
    HandlerFound,
    InstallContext,
    ContinueUnwind,
    Failure,
}

impl ReasonCode {
    /// The number that stands for the code in the interface.
    pub open spec fn spec_code(self) -> i32 {
        match self {
            ReasonCode::NoReason => 0,
            ReasonCode::ForeignExceptionCaught => 1,
            ReasonCode::FatalPhase2Error => 2,
            ReasonCode::FatalPhase1Error => 3,
            ReasonCode::NormalStop => 4,
            ReasonCode::EndOfStack => 5,
            ReasonCode::HandlerFound => 6,
            ReasonCode::InstallContext => 7,
            ReasonCode::ContinueUnwind => 8,
            ReasonCode::Failure => 9,
        }
    }

    pub fn code(self) -> (r: i32)
        ensures
            r == self.spec_code(),
    {
        match self {
            ReasonCode::NoReason => 0,
            ReasonCode::ForeignExceptionCaught => 1,
            ReasonCode::FatalPhase2Error => 2,
            ReasonCode::FatalPhase1Error => 3,
            ReasonCode::NormalStop => 4,
            ReasonCode::EndOfStack => 5,
            ReasonCode::HandlerFound => 6,
            ReasonCode::InstallContext => 7,
            ReasonCode::ContinueUnwind => 8,
            ReasonCode::Failure => 9,
        }
    }

    /// The code that a number stands for, if it stands for one.
    pub fn from_code(code: i32) -> (r: Option<ReasonCode>)
        ensures
            match r {
                Some(reason) => reason.spec_code() == code,
                None => forall|reason: ReasonCode| reason.spec_code() != code,
            },
    {
        match code {
            0 => Some(ReasonCode::NoReason),
            1 => Some(ReasonCode::ForeignExceptionCaught),
            2 => Some(ReasonCode::FatalPhase2Error),
            3 => Some(ReasonCode::FatalPhase1Error),
            4 => Some(ReasonCode::NormalStop),
            5 => Some(ReasonCode::EndOfStack),
            6 => Some(ReasonCode::HandlerFound),
            7 => Some(ReasonCode::InstallContext),
            8 => Some(ReasonCode::ContinueUnwind),
            9 => Some(ReasonCode::Failure),
            _ => None,
        }
    }
}

/// The flags that tell a personality routine what it is called for.
#[derive(Debug, Clone, Copy, PartialEq, Eq, Structural)]
pub enum UnwindAction {
    SearchPhase,
    CleanupPhase,
    HandlerFrame,
    ForceUnwind,
    EndOfStack,
}

impl UnwindAction {
    /// The bit that stands for the flag in the interface.
    pub open spec fn spec_bits(self) -> i32 {
        match self {
            UnwindAction::SearchPhase => 1,
            UnwindAction::CleanupPhase => 2,
            UnwindAction::HandlerFrame => 4,
            UnwindAction::ForceUnwind => 8,
            UnwindAction::EndOfStack => 16,
        }
    }

    pub fn bits(self) -> (r: i32)
        ensures
            r == self.spec_bits(),
    {
        match self {
            UnwindAction::SearchPhase => 1,
            UnwindAction::CleanupPhase => 2,
            UnwindAction::HandlerFrame => 4,
            UnwindAction::ForceUnwind => 8,
            UnwindAction::EndOfStack => 16,
        }
    }
}

/// What a personality routine or a trace callback may ask about a frame.
#[derive(Debug, Clone, Copy, PartialEq, Eq, Structural)]
pub struct UnwindContext {
    pub lsda: u64,
    pub ip: u64,
    pub initial_address: u64,
}

impl UnwindContext {
    /// The first address of the frame's function.
    pub fn region_start(&self) -> (r: u64)
        ensures
            r == self.initial_address,
    {
        self.initial_address
    }

    /// The address of the language-specific data of the frame's function.
    pub fn language_specific_data(&self) -> (r: u64)
        ensures
            r == self.lsda,
    {
        self.lsda
    }

    /// The instruction pointer of the frame, and whether it points before the
    /// instruction that is executing: it never does, so the flag is zero.
    pub fn ip_info(&self) -> (r: (u64, i32))
        ensures
            r == (self.ip, 0i32),
    {
        (self.ip, 0)
    }
}

/// The function that encloses `pc`, by approximation: `pc` itself.
pub fn find_enclosing_function(pc: u64) -> (r: u64)
    ensures
        r == pc,
{
    pc
}

/// Writes `value` into the register with number `index`. A number that the
/// register file has no slot for changes nothing, and `false` is returned.
pub fn set_gr(registers: &mut Registers, index: i32, value: u64) -> (r: bool)
    ensures
        r == (0 <= index < REGISTER_COUNT),
        final(registers)@ == (if 0 <= index < REGISTER_COUNT {
            old(registers)@.update(index as int, Some(value))
        } else {
            old(registers)@
        }),
{
    if 0 <= index && index < REGISTER_COUNT as i32 {
        registers.set(index as u8, Some(value));
        true
    } else {
        false
    }
}

/// Writes `value` into the register that holds the return address: the
/// address at which the frame continues.
pub fn set_ip(registers: &mut Registers, arch: Arch, value: u64)
    ensures
        final(registers)@ == old(registers)@.update(
            arch.spec_return_address() as int,
            Some(value),
        ),
{
    registers.set(arch.return_address(), Some(value));
}

/// The context of a frame for a trace callback: the frame's attributes, with
/// zero for language-specific data that it does not have, and the return
/// address as instruction pointer. There is none where the return address is
/// not known.
pub open spec fn spec_backtrace_context(
    frame: StackFrame,
    registers: Seq<Option<u64>>,
    arch: Arch,
) -> Option<UnwindContext> {
    match registers[arch.spec_return_address() as int] {
        Some(ip) => Some(
            UnwindContext {
                lsda: match frame.spec_lsda() {
                    Some(lsda) => lsda,
                    None => 0,
                },
                ip,
                initial_address: frame.spec_initial_address(),
            },
        ),
        None => None,
    }
}

/// Builds the context of a frame for a trace callback.
pub fn backtrace_context(frame: &StackFrame, registers: &Registers, arch: Arch) -> (r: Option<
    UnwindContext,
>)
    ensures
        r == spec_backtrace_context(*frame, registers@, arch),
{
    match registers.get(arch.return_address()) {
        Some(ip) => Some(
            UnwindContext {
                lsda: match frame.lsda() {
                    Some(lsda) => lsda,
                    None => 0,
                },
                ip,
                initial_address: frame.initial_address(),
            },
        ),
        None => None,
    }
}

/// Where the driver stands.
#[derive(Debug, Clone, Copy, PartialEq, Eq, Structural)]
pub enum DriverState {
    /// A landing pad has resumed unwinding. Frames are passed over up to and
    /// with the one whose stack pointer is `contptr`, the frame of that
    /// landing pad.
    Seeking { contptr: u64 },
    /// Personality routines are called.
    Unwinding,
}

/// What is to be done for a frame.
#[derive(Debug, Clone, Copy, PartialEq, Eq, Structural)]
pub enum Step {
    /// Nothing: the frame is passed over.
    Skip,
    /// The personality routine at `routine` is to be called for the cleanup
    /// phase with `context`, after `contptr` was stored in the exception
    /// object as the place to resume from.
    CallPersonality { routine: u64, context: UnwindContext, contptr: Option<u64> },
    /// No frame is left.
    EndOfStack,
    /// The walk failed.
    Failed(UnwindError),
}

/// What is to be done after a personality routine returned.
#[derive(Debug, Clone, Copy, PartialEq, Eq, Structural)]
pub enum Verdict {
    /// The walk goes on with the next frame.
    ContinueUnwind,
    /// Control is transferred to the landing pad, with the registers of the
    /// frame as the routine left them.
    InstallContext,
    /// The routine returned a code that it must not return here.
    Fatal,
}

/// The state in which a walk starts: one that raises an exception calls
/// personality routines from the first frame on; one that resumes first
/// seeks the frame that it resumes from.
pub open spec fn spec_start(private_contptr: Option<u64>) -> DriverState {
    match private_contptr {
        Some(contptr) => DriverState::Seeking { contptr },
        None => DriverState::Unwinding,
    }
}

/// The state in which a walk starts, given where the exception object says
/// to resume from.
pub fn start(private_contptr: Option<u64>) -> (r: DriverState)
    ensures
        r == spec_start(private_contptr),
{
    match private_contptr {
        Some(contptr) => DriverState::Seeking { contptr },
        None => DriverState::Unwinding,
    }
}

/// The decision for the answer `result` of a step of the frame iterator that
/// left `registers` behind.
pub open spec fn spec_decide(
    state: DriverState,
    result: Result<Option<StackFrame>, UnwindError>,
    registers: Seq<Option<u64>>,
    arch: Arch,
) -> (DriverState, Step) {
    match result {
        Ok(Some(frame)) => match state {
            DriverState::Seeking { contptr } => if registers[arch.spec_stack_pointer() as int]
                == Some(contptr) {
                (DriverState::Unwinding, Step::Skip)
            } else {
                (state, Step::Skip)
            },
            DriverState::Unwinding => match frame.spec_personality() {
                Some(routine) => match spec_backtrace_context(frame, registers, arch) {
                    Some(context) => (
                        state,
                        Step::CallPersonality {
                            routine,
                            context,
                            contptr: registers[arch.spec_stack_pointer() as int],
                        },
                    ),
                    None => (state, Step::Failed(UnwindError::MissingRegister)),
                },
                None => (state, Step::Skip),
            },
        },
        Ok(None) => (state, Step::EndOfStack),
        Err(e) => (state, Step::Failed(e)),
    }
}

/// Decides what is to be done for the answer of one step of the walk.
pub fn decide(
    state: DriverState,
    result: Result<Option<StackFrame>, UnwindError>,
    registers: &Registers,
    arch: Arch,
) -> (r: (DriverState, Step))
    ensures
        r == spec_decide(state, result, registers@, arch),
{
    match result {
        Ok(Some(frame)) => match state {
            DriverState::Seeking { contptr } => match registers.get(arch.stack_pointer()) {
                Some(sp) => if sp == contptr {
                    (DriverState::Unwinding, Step::Skip)
                } else {
                    (state, Step::Skip)
                },
                None => (state, Step::Skip),
            },
            DriverState::Unwinding => match frame.personality() {
                Some(routine) => match backtrace_context(&frame, registers, arch) {
                    Some(context) => (
                        state,
                        Step::CallPersonality {
                            routine,
                            context,
                            contptr: registers.get(arch.stack_pointer()),
                        },
                    ),
                    None => (state, Step::Failed(UnwindError::MissingRegister)),
                },
                None => (state, Step::Skip),
            },
        },
        Ok(None) => (state, Step::EndOfStack),
        Err(e) => (state, Step::Failed(e)),
    }
}

/// Steps the frame iterator once and decides what is to be done for the
/// frame that it yields.
pub fn step(state: DriverState, frames: &mut StackFrames) -> (r: (DriverState, Step))
    ensures
        final(frames).unwinder == old(frames).unwinder,
        final(frames).memory == old(frames).memory,
        final(frames).registers@ == old(frames).outcome().registers,
        final(frames).pending() == old(frames).outcome().pending,
        r == spec_decide(
            state,
            old(frames).outcome().result,
            old(frames).outcome().registers,
            old(frames).unwinder.arch,
        ),
{
    let result = frames.next();
    decide(state, result, &frames.registers, frames.unwinder.arch)
}

/// The verdict on the code that a personality routine returned in the
/// cleanup phase.
pub open spec fn spec_after_personality(code: i32) -> Verdict {
    if code == ReasonCode::ContinueUnwind.spec_code() {
        Verdict::ContinueUnwind
    } else if code == ReasonCode::InstallContext.spec_code() {
        Verdict::InstallContext
    } else {
        Verdict::Fatal
    }
}

/// Judges the code that a personality routine returned.
pub fn after_personality(code: i32) -> (r: Verdict)
    ensures
        r == spec_after_personality(code),
{
    if code == ReasonCode::ContinueUnwind.code() {
        Verdict::ContinueUnwind
    } else if code == ReasonCode::InstallContext.code() {
        Verdict::InstallContext
    } else {
        Verdict::Fatal
    }
}

/// A walk that resumes passes over the frame that it resumes from: once a
/// frame with the stack pointer `contptr` was yielded, personality routines
/// are called from the next frame on, and none is called for this one.
pub proof fn lemma_resume_skips_catching_frame(
    contptr: u64,
    frame: StackFrame,
    registers: Seq<Option<u64>>,
    arch: Arch,
)
    requires
        registers[arch.spec_stack_pointer() as int] == Some(contptr),
    ensures
        spec_decide(
            DriverState::Seeking { contptr },
            Ok(Some(frame)),
            registers,
            arch,
        ) == (DriverState::Unwinding, Step::Skip),
{
}

} // verus!
