//! The decisions of the interactive debugger: which state a key selects and
//! what each round of the debugger loop does; the terminal work is the host's.
use vstd::prelude::*;
use crate::opcodes::Opcode;

verus! {

/// The mode the debugger is in.
#[derive(Clone, Copy, PartialEq, Eq, Structural, Debug)]
pub enum DebugState {
    Executing,
    Pause,
    Step,
    Continue,
    Reset,
    Abort,
}

/// A debugger session on a program file.
pub struct Debugger {
    pub file: String,
}

/// What one round of the debugger loop does.
#[derive(Clone, Copy, PartialEq, Eq, Structural, Debug)]
pub enum DebugAction {
    /// Execute one instruction.
    Cycle,
    /// Start over with a fresh machine and the program reloaded.
    Reset,
    /// Leave the loop.
    Abort,
    /// Execute nothing this round.
    Wait,
}

/// The state the key `key` selects (`control` when Ctrl is held): keys 1 to 5
/// select executing, pause, step, continue and reset; Ctrl+C aborts; other
/// keys select nothing.
pub open spec fn key_selection(key: char, control: bool) -> Option<DebugState> {
    if key == '1' {
        Some(DebugState::Executing)
    } else if key == '2' {
        Some(DebugState::Pause)
    } else if key == '3' {
        Some(DebugState::Step)
    } else if key == '4' {
        Some(DebugState::Continue)
    } else if key == '5' {
        Some(DebugState::Reset)
    } else if key == 'c' && control {
        Some(DebugState::Abort)
    } else {
        None
    }
}

/// The state for the next round and the action of this round, in `state`:
/// a step executes one instruction and pauses; a reset starts over paused;
/// executing and continuing execute; a pause waits; an abort leaves.
pub open spec fn round(state: DebugState) -> (DebugState, DebugAction) {
    match state {
        DebugState::Step => (DebugState::Pause, DebugAction::Cycle),
        DebugState::Reset => (DebugState::Pause, DebugAction::Reset),
        DebugState::Abort => (DebugState::Abort, DebugAction::Abort),
        DebugState::Continue => (DebugState::Continue, DebugAction::Cycle),
        DebugState::Executing => (DebugState::Executing, DebugAction::Cycle),
        DebugState::Pause => (DebugState::Pause, DebugAction::Wait),
    }
}

impl Debugger {
    /// The state the key `key` selects (`control` when Ctrl is held).
    pub fn key_to_state(key: char, control: bool) -> (selected: Option<DebugState>)
        ensures
            selected == key_selection(key, control),
    {
        match key {
            '1' => Some(DebugState::Executing),
            '2' => Some(DebugState::Pause),
            '3' => Some(DebugState::Step),
            '4' => Some(DebugState::Continue),
            '5' => Some(DebugState::Reset),
            'c' if control => Some(DebugState::Abort),
            _ => None,
        }
    }

    /// The instruction the debugger names for the byte `b` at the instruction
    /// pointer: the opcode it encodes when it lies below the byte of `Nop`;
    /// `None` (an invalid opcode) otherwise.
    pub fn next_instruction(b: u8) -> (op: Option<Opcode>)
        ensures
            op == (if b < Opcode::Nop.encoding() {
                Opcode::decoding(b)
            } else {
                None
            }),
    {
        if b < Opcode::Nop.to_byte() {
            Opcode::from_byte(b)
        } else {
            None
        }
    }

    /// The state for the next round and the action of this round.
    pub fn next_round(state: DebugState) -> (next: (DebugState, DebugAction))
        ensures
            next == round(state),
    {
        match state {
            DebugState::Step => (DebugState::Pause, DebugAction::Cycle),
            DebugState::Reset => (DebugState::Pause, DebugAction::Reset),
            DebugState::Abort => (DebugState::Abort, DebugAction::Abort),
            DebugState::Continue => (DebugState::Continue, DebugAction::Cycle),
            DebugState::Executing => (DebugState::Executing, DebugAction::Cycle),
            DebugState::Pause => (DebugState::Pause, DebugAction::Wait),
        }
    }
}

} // verus!
