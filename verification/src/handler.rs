//! The command handlers: pure transitions that apply one decoded message
//! to the shared [`AudioState`] and report the observable log event.
//!
//! The caller holds exclusive access to the state for the duration of the
//! call; the handlers themselves do no I/O, so the transition is atomic
//! from any other connection's point of view.

use vstd::prelude::*;

use crate::message::{CommandData, ParameterData};
use crate::state::AudioState;

verus! {

/// The observable side effect of applying one message, for the transport
/// layer to log.
#[derive(Debug)]
pub enum LogEvent {
    StartRecording,
    StopRecording,
    SetAmplitude(String),
}

impl LogEvent {
    /// The log line's text.
    pub fn message(&self) -> (r: String)
        ensures
            match self {
                LogEvent::StartRecording => r@ == "Start recording"@,
                LogEvent::StopRecording => r@ == "Stop recording"@,
                LogEvent::SetAmplitude(t) => r@ == "Set amplitude to "@ + t@,
            },
    {
        match self {
            LogEvent::StartRecording => "Start recording".to_owned(),
            LogEvent::StopRecording => "Stop recording".to_owned(),
            LogEvent::SetAmplitude(t) => {
                let mut out = String::from_str("Set amplitude to ");
                out.append(t.as_str());
                out
            },
        }
    }
}

/// Applies a recording command: the state's `rec` becomes the command's,
/// the amplitude is untouched, and the matching start/stop event is
/// reported. No error path: the codec has already validated the input.
pub fn handle_command(cmd: CommandData, state: &mut AudioState) -> (log: LogEvent)
    ensures
        final(state)@.rec == cmd.rec,
        final(state)@.amplitude == old(state)@.amplitude,
        log == (if cmd.rec {
            LogEvent::StartRecording
        } else {
            LogEvent::StopRecording
        }),
{
    state.rec = cmd.rec;
    if cmd.rec {
        LogEvent::StartRecording
    } else {
        LogEvent::StopRecording
    }
}

/// Applies a parameter update: a present amplitude replaces the state's
/// and is reported; an absent one leaves the state untouched and reports
/// nothing. No bounds validation, by design.
pub fn handle_parameter(param: ParameterData, state: &mut AudioState) -> (log: Option<LogEvent>)
    ensures
        final(state)@.rec == old(state)@.rec,
        match param.amplitude {
            Option::Some(t) => final(state)@.amplitude == t@ && (log matches Option::Some(ev)
                && ev == LogEvent::SetAmplitude(t)),
            Option::None => final(state)@ == old(state)@ && log is None,
        },
{
    match param.amplitude {
        Option::Some(t) => {
            let ev = LogEvent::SetAmplitude(t.clone());
            state.amplitude = t;
            Option::Some(ev)
        },
        Option::None => Option::None,
    }
}

} // verus!
