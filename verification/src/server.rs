//! The per-connection decision step and the serial model of state
//! mutation.
//!
//! A connection is a loop: wait for the next transport event, call
//! [`connection_step`] while holding the shared state exclusively, send
//! the reply if there is one, and stop when the step says so. Everything
//! the loop decides is here and verified; the transport layer only moves
//! frames and log lines.

use vstd::prelude::*;

use crate::codec::{decode, encode, lemma_decode_wf, msg_wf, spec_decode, spec_encode};
use crate::handler::{handle_command, handle_parameter, LogEvent};
use crate::message::{AckData, ClientMessage, ClientMessageView, ErrorData, ServerMessage,
    ServerMessageView};
use crate::state::{AudioState, AudioStateView};

verus! {

/// One transport event on a connection, as the transport layer reports it:
/// a text frame, a non-text frame, graceful closure, or any other failure.
pub enum ConnEvent {
    Text(String),
    NonText,
    Closed,
    TransportFailed,
}

/// What one step of the connection loop decided: the reply to send, if
/// any; whether the connection is finished; and the log event of the
/// handler that ran, if one did.
pub struct StepOutcome {
    pub reply: Option<String>,
    pub done: bool,
    pub log: Option<LogEvent>,
}

/// The exact text of the one acknowledgment the protocol sends.
pub open spec fn spec_ack_text() -> Seq<char> {
    spec_encode(ServerMessageView::Ack { status: "Received"@ })
}

/// The exact text of the one error reply the protocol sends.
pub open spec fn spec_error_text() -> Seq<char> {
    spec_encode(ServerMessageView::Error { message: "Invalid message format"@ })
}

/// The effect of one decoded message on the shared state.
pub open spec fn spec_apply(st: AudioStateView, m: ClientMessageView) -> AudioStateView {
    match m {
        ClientMessageView::Command { rec } => AudioStateView { rec, amplitude: st.amplitude },
        ClientMessageView::Parameter { amplitude: Option::Some(t) } => AudioStateView {
            rec: st.rec,
            amplitude: t,
        },
        ClientMessageView::Parameter { amplitude: Option::None } => st,
    }
}

/// The effect of a serial run of messages, applied one at a time.
pub open spec fn spec_apply_all(st: AudioStateView, ms: Seq<ClientMessageView>) -> AudioStateView
    decreases ms.len(),
{
    if ms.len() == 0 {
        st
    } else {
        spec_apply_all(spec_apply(st, ms[0]), ms.drop_first())
    }
}

/// Runs one step of the connection loop.
///
/// A closure or transport failure ends the loop and touches nothing. A
/// non-text frame is ignored: no reply, no state change. A text frame that
/// decodes is applied to the state and acknowledged; one that does not
/// leaves the state alone and is answered with the error reply, and the
/// connection stays open either way.
pub fn connection_step(event: ConnEvent, state: &mut AudioState) -> (out: StepOutcome)
    ensures
        old(state)@.wf() ==> final(state)@.wf(),
        match event {
            ConnEvent::Text(t) => {
                &&& !out.done
                &&& match spec_decode(t@) {
                    Option::Some(m) => {
                        &&& final(state)@ == spec_apply(old(state)@, m)
                        &&& (out.reply matches Option::Some(r) && r@ == spec_ack_text())
                        &&& match m {
                            ClientMessageView::Command { rec } => out.log == Option::Some(
                                if rec {
                                    LogEvent::StartRecording
                                } else {
                                    LogEvent::StopRecording
                                },
                            ),
                            ClientMessageView::Parameter { amplitude: Option::Some(tok) } => (
                            out.log matches Option::Some(ev) && (ev matches LogEvent::SetAmplitude(
                                a,
                            ) && a@ == tok) && final(state)@.amplitude == tok),
                            ClientMessageView::Parameter { amplitude: Option::None } => out.log
                                is None,
                        }
                    },
                    Option::None => {
                        &&& final(state)@ == old(state)@
                        &&& (out.reply matches Option::Some(r) && r@ == spec_error_text())
                        &&& out.log is None
                    },
                }
            },
            ConnEvent::NonText => !out.done && final(state)@ == old(state)@ && out.reply is None
                && out.log is None,
            ConnEvent::Closed => out.done && final(state)@ == old(state)@ && out.reply is None
                && out.log is None,
            ConnEvent::TransportFailed => out.done && final(state)@ == old(state)@ && out.reply
                is None && out.log is None,
        },
{
    match event {
        ConnEvent::Text(t) => {
            match decode(t.as_str()) {
                Result::Ok(msg) => {
                    proof {
                        lemma_decode_wf(t@);
                    }
                    let log = match msg {
                        ClientMessage::Command(cmd) => Option::Some(handle_command(cmd, state)),
                        ClientMessage::Parameter(param) => handle_parameter(param, state),
                    };
                    let ack = ServerMessage::Ack(AckData { status: "Received".to_owned() });
                    StepOutcome { reply: Option::Some(encode(&ack)), done: false, log }
                },
                Result::Err(err) => {
                    let reply = ServerMessage::Error(ErrorData { message: err.message() });
                    StepOutcome {
                        reply: Option::Some(encode(&reply)),
                        done: false,
                        log: Option::None,
                    }
                },
            }
        },
        ConnEvent::NonText => StepOutcome { reply: Option::None, done: false, log: Option::None },
        ConnEvent::Closed => StepOutcome { reply: Option::None, done: true, log: Option::None },
        ConnEvent::TransportFailed => StepOutcome {
            reply: Option::None,
            done: true,
            log: Option::None,
        },
    }
}

/// Mutations linearize: the state is only ever changed by one
/// [`connection_step`] at a time, each holding exclusive access, so a run
/// of the server leaves `spec_apply_all(init, ms)` where `ms` is the
/// serial order in which the shared cell granted the mutations. Splitting
/// that order at any point composes: the whole run equals the second part
/// applied after the first.
pub proof fn lemma_apply_all_concat(
    st: AudioStateView,
    ms1: Seq<ClientMessageView>,
    ms2: Seq<ClientMessageView>,
)
    ensures
        spec_apply_all(st, ms1 + ms2) == spec_apply_all(spec_apply_all(st, ms1), ms2),
    decreases ms1.len(),
{
    if ms1.len() == 0 {
        assert(ms1 + ms2 =~= ms2);
    } else {
        assert((ms1 + ms2).drop_first() =~= ms1.drop_first() + ms2);
        assert((ms1 + ms2)[0] == ms1[0]);
        lemma_apply_all_concat(spec_apply(st, ms1[0]), ms1.drop_first(), ms2);
    }
}

/// A serial run from a well-formed state through well-formed messages
/// never corrupts the state: whatever the interleaving the shared cell
/// serialized, the resulting state is well formed again.
pub proof fn lemma_apply_all_wf(st: AudioStateView, ms: Seq<ClientMessageView>)
    requires
        st.wf(),
        forall|k: int| 0 <= k < ms.len() ==> msg_wf(#[trigger] ms[k]),
    ensures
        spec_apply_all(st, ms).wf(),
    decreases ms.len(),
{
    if ms.len() > 0 {
        assert(msg_wf(ms[0]));
        assert forall|k: int| 0 <= k < ms.drop_first().len() implies msg_wf(
            #[trigger] ms.drop_first()[k],
        ) by {
            assert(ms.drop_first()[k] == ms[k + 1]);
        };
        lemma_apply_all_wf(spec_apply(st, ms[0]), ms.drop_first());
    }
}

/// One more message at the end of a serial run acts on the run's result:
/// exactly the state change that [`connection_step`] makes for it.
pub proof fn lemma_apply_all_step(st: AudioStateView, ms: Seq<ClientMessageView>, m: ClientMessageView)
    ensures
        spec_apply_all(st, ms.push(m)) == spec_apply(spec_apply_all(st, ms), m),
{
    assert(ms.push(m) =~= ms + seq![m]);
    lemma_apply_all_concat(st, ms, seq![m]);
    let st1 = spec_apply_all(st, ms);
    assert(spec_apply_all(st1, seq![m]) == spec_apply(st1, m)) by {
        assert(seq![m][0] == m);
        assert(seq![m].drop_first() =~= Seq::<ClientMessageView>::empty());
        assert(spec_apply_all(spec_apply(st1, m), Seq::<ClientMessageView>::empty())
            == spec_apply(st1, m));
    };
}

} // verus!
