//! The clipboard writer's decisions: which transport to try, in which order,
//! and when to give up. The transports themselves are the caller's business;
//! it tries what it is asked to and reports how that went.

use vstd::prelude::*;

verus! {

/// A way to put text on the system clipboard.
#[derive(Debug, Clone, Copy, PartialEq, Eq, Structural)]
pub enum Transport {
    /// The clipboard of the display server.
    Primary,
    /// An escape sequence written to the terminal.
    Fallback,
}

/// Why a text could not be written.
#[derive(Debug, Clone, Copy, PartialEq, Eq, Structural)]
pub enum ClipboardError {
    /// Both transports failed.
    ClipboardUnavailable,
}

/// How far a write has come.
#[derive(Debug, Clone, Copy, PartialEq, Eq, Structural)]
pub enum WriteState {
    /// Nothing has been tried.
    Start,
    /// The primary transport failed; the fallback has not been tried.
    PrimaryFailed,
    /// The text was written through the transport.
    Written(Transport),
    /// Both transports failed.
    Unavailable,
}

/// What the writer asks for next.
#[derive(Debug, Clone, Copy, PartialEq, Eq)]
pub enum WriteAction {
    /// Try to write through the transport, and report whether that worked.
    Attempt(Transport),
    /// Stop: the write has ended, in this way.
    Finish(Result<Transport, ClipboardError>),
}

/// What a write in state `state` asks for next.
pub open spec fn action_of(state: WriteState) -> WriteAction {
    match state {
        WriteState::Start => WriteAction::Attempt(Transport::Primary),
        WriteState::PrimaryFailed => WriteAction::Attempt(Transport::Fallback),
        WriteState::Written(transport) => WriteAction::Finish(Ok(transport)),
        WriteState::Unavailable => WriteAction::Finish(Err(ClipboardError::ClipboardUnavailable)),
    }
}

/// The state after the attempt that `state` asked for `succeeded` or failed.
/// A write that has ended stays as it is.
pub open spec fn advanced(state: WriteState, succeeded: bool) -> WriteState {
    match state {
        WriteState::Start => if succeeded {
            WriteState::Written(Transport::Primary)
        } else {
            WriteState::PrimaryFailed
        },
        WriteState::PrimaryFailed => if succeeded {
            WriteState::Written(Transport::Fallback)
        } else {
            WriteState::Unavailable
        },
        WriteState::Written(_) => state,
        WriteState::Unavailable => state,
    }
}

/// How a write ends when the primary transport works or not, as `primary`
/// says, and the fallback as `fallback` says.
pub open spec fn write_result(primary: bool, fallback: bool) -> Result<Transport, ClipboardError> {
    if primary {
        Ok(Transport::Primary)
    } else if fallback {
        Ok(Transport::Fallback)
    } else {
        Err(ClipboardError::ClipboardUnavailable)
    }
}

/// A write tries the primary transport first and the fallback only after the
/// primary failed, ends after two attempts at most, and fails only if both
/// transports failed.
pub proof fn lemma_write_fails_only_if_both_fail(primary: bool, fallback: bool)
    ensures
        action_of(WriteState::Start) == WriteAction::Attempt(Transport::Primary),
        primary ==> action_of(advanced(WriteState::Start, primary)) == WriteAction::Finish(
            write_result(primary, fallback),
        ),
        !primary ==> action_of(advanced(WriteState::Start, primary)) == WriteAction::Attempt(
            Transport::Fallback,
        ),
        !primary ==> action_of(advanced(advanced(WriteState::Start, primary), fallback))
            == WriteAction::Finish(write_result(primary, fallback)),
        write_result(primary, fallback) is Err <==> !primary && !fallback,
{
}

/// One write of a text to the clipboard.
pub struct ClipboardWriter {
    state: WriteState,
}

impl View for ClipboardWriter {
    type V = WriteState;

    closed spec fn view(&self) -> WriteState {
        self.state
    }
}

impl ClipboardWriter {
    /// A write of which nothing has been tried yet.
    pub fn new() -> (writer: ClipboardWriter)
        ensures
            writer@ == WriteState::Start,
    {
        ClipboardWriter { state: WriteState::Start }
    }

    /// What to do next.
    pub fn next(&self) -> (action: WriteAction)
        ensures
            action == action_of(self@),
    {
        match self.state {
            WriteState::Start => WriteAction::Attempt(Transport::Primary),
            WriteState::PrimaryFailed => WriteAction::Attempt(Transport::Fallback),
            WriteState::Written(transport) => WriteAction::Finish(Ok(transport)),
            WriteState::Unavailable => WriteAction::Finish(
                Err(ClipboardError::ClipboardUnavailable),
            ),
        }
    }

    /// Takes note of how the attempt that [`ClipboardWriter::next`] asked for
    /// went.
    pub fn record(&mut self, succeeded: bool)
        ensures
            final(self)@ == advanced(old(self)@, succeeded),
    {
        let state = match self.state {
            WriteState::Start => if succeeded {
                WriteState::Written(Transport::Primary)
            } else {
                WriteState::PrimaryFailed
            },
            WriteState::PrimaryFailed => if succeeded {
                WriteState::Written(Transport::Fallback)
            } else {
                WriteState::Unavailable
            },
            WriteState::Written(transport) => WriteState::Written(transport),
            WriteState::Unavailable => WriteState::Unavailable,
        };
        self.state = state;
    }
}

} // verus!
