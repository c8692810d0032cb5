use audio_websocket::codec::{decode, encode};
use audio_websocket::handler::{handle_command, handle_parameter, LogEvent};
use audio_websocket::message::{AckData, ClientMessage, CommandData, ErrorData, ParameterData,
    ServerMessage};
use audio_websocket::server::{connection_step, ConnEvent, StepOutcome};
use audio_websocket::state::AudioState;
use std::sync::Arc;
use tokio::sync::Mutex;

const ACK_TEXT: &str = "{\"type\":\"Ack\",\"data\":{\"status\":\"Received\"}}";
const ERROR_TEXT: &str = "{\"type\":\"Error\",\"data\":{\"message\":\"Invalid message format\"}}";

fn text_event(s: &str) -> ConnEvent {
    ConnEvent::Text(s.to_owned())
}

#[test]
fn state_defaults() {
    let st = AudioState::new();
    assert!(!st.rec);
    assert_eq!(st.amplitude, "1.0");
}

#[test]
fn command_scenario_ack_and_recording_on() {
    // Client sends a start-recording command and gets the acknowledgment.
    let mut st = AudioState::new();
    let out: StepOutcome = connection_step(
        text_event("{\"type\":\"Command\",\"data\":{\"rec\":true}}"),
        &mut st,
    );
    assert_eq!(out.reply.as_deref(), Some(ACK_TEXT));
    assert!(!out.done);
    assert!(st.rec);
    assert_eq!(st.amplitude, "1.0");
    assert!(matches!(out.log, Some(LogEvent::StartRecording)));
}

#[test]
fn command_scenario_recording_off() {
    let mut st = AudioState::new();
    st.rec = true;
    let out = connection_step(
        text_event("{\"type\":\"Command\",\"data\":{\"rec\":false}}"),
        &mut st,
    );
    assert_eq!(out.reply.as_deref(), Some(ACK_TEXT));
    assert!(!st.rec);
    assert!(matches!(out.log, Some(LogEvent::StopRecording)));
}

#[test]
fn parameter_scenario_sets_amplitude() {
    // Client sends an amplitude of 2.5 and gets the acknowledgment.
    let mut st = AudioState::new();
    let out = connection_step(
        text_event("{\"type\":\"Parameter\",\"data\":{\"amplitude\":2.5}}"),
        &mut st,
    );
    assert_eq!(out.reply.as_deref(), Some(ACK_TEXT));
    assert!(!out.done);
    assert_eq!(st.amplitude, "2.5");
    assert_eq!(st.amplitude.parse::<f32>().unwrap(), 2.5f32);
    assert!(!st.rec);
    match out.log {
        Some(LogEvent::SetAmplitude(t)) => assert_eq!(t, "2.5"),
        other => panic!("unexpected log event: {:?}", other.is_some()),
    }
}

#[test]
fn parameter_absent_amplitude_is_noop() {
    let mut st = AudioState::new();
    let out = connection_step(text_event("{\"type\":\"Parameter\",\"data\":{}}"), &mut st);
    assert_eq!(out.reply.as_deref(), Some(ACK_TEXT));
    assert_eq!(st.amplitude, "1.0");
    assert!(out.log.is_none());
}

#[test]
fn parameter_null_amplitude_is_noop() {
    let mut st = AudioState::new();
    let out = connection_step(
        text_event("{\"type\":\"Parameter\",\"data\":{\"amplitude\":null}}"),
        &mut st,
    );
    assert_eq!(out.reply.as_deref(), Some(ACK_TEXT));
    assert_eq!(st.amplitude, "1.0");
    assert!(out.log.is_none());
}

#[test]
fn bogus_tag_scenario_error_and_connection_open() {
    // Client sends an unknown tag and gets the error reply; the
    // connection stays open and the state is untouched.
    let mut st = AudioState::new();
    let out = connection_step(text_event("{\"type\":\"Bogus\"}"), &mut st);
    assert_eq!(out.reply.as_deref(), Some(ERROR_TEXT));
    assert!(!out.done);
    assert!(!st.rec);
    assert_eq!(st.amplitude, "1.0");
    assert!(out.log.is_none());
}

#[test]
fn malformed_inputs_each_get_one_error_reply() {
    let malformed = [
        "",
        "hello",
        "{",
        "{}",
        "[1,2]",
        "{\"type\":\"Command\"}",
        "{\"type\":\"Command\",\"data\":{}}",
        "{\"type\":\"Command\",\"data\":{\"rec\":1}}",
        "{\"type\":\"Command\",\"data\":{\"rec\":\"true\"}}",
        "{\"type\":\"Command\",\"data\":{\"rec\":true}} trailing",
        "{\"type\":\"Command\",\"data\":{\"rec\":true},\"x\":1}",
        "{\"data\":{\"rec\":true},\"type\":\"Command\"}",
        "{\"type\":\"Parameter\",\"data\":{\"amplitude\":\"2.5\"}}",
        "{\"type\":\"Parameter\",\"data\":{\"amplitude\":}}",
        "{\"type\":\"parameter\",\"data\":{}}",
    ];
    for input in malformed {
        let mut st = AudioState::new();
        st.rec = true;
        let out = connection_step(text_event(input), &mut st);
        assert_eq!(out.reply.as_deref(), Some(ERROR_TEXT), "input: {input}");
        assert!(!out.done, "input: {input}");
        assert!(st.rec, "input: {input}");
        assert_eq!(st.amplitude, "1.0", "input: {input}");
    }
}

#[test]
fn whitespace_between_tokens_is_accepted() {
    let mut st = AudioState::new();
    let out = connection_step(
        text_event(" {\n\t\"type\" : \"Command\" ,\r\n \"data\" : { \"rec\" : true } } "),
        &mut st,
    );
    assert_eq!(out.reply.as_deref(), Some(ACK_TEXT));
    assert!(st.rec);
}

#[test]
fn non_text_frame_no_reply_no_change() {
    let mut st = AudioState::new();
    st.rec = true;
    let out = connection_step(ConnEvent::NonText, &mut st);
    assert!(out.reply.is_none());
    assert!(!out.done);
    assert!(st.rec);
    assert_eq!(st.amplitude, "1.0");
}

#[test]
fn closure_ends_loop_and_leaves_state() {
    let mut st = AudioState::new();
    st.rec = true;
    let out = connection_step(ConnEvent::Closed, &mut st);
    assert!(out.reply.is_none());
    assert!(out.done);
    assert!(st.rec);

    let out = connection_step(ConnEvent::TransportFailed, &mut st);
    assert!(out.reply.is_none());
    assert!(out.done);
    assert!(st.rec);

    // One connection going away does not affect the shared state or the
    // service: a later step for another connection still works on it.
    let out = connection_step(
        text_event("{\"type\":\"Parameter\",\"data\":{\"amplitude\":9}}"),
        &mut st,
    );
    assert_eq!(out.reply.as_deref(), Some(ACK_TEXT));
    assert!(st.rec);
    assert_eq!(st.amplitude, "9");
}

#[test]
fn serial_run_of_mutations_gives_last_writes() {
    // One serial ordering of mutations from several clients: the final
    // state is the fold of the run, here the last writes.
    let mut st = AudioState::new();
    let frames = [
        "{\"type\":\"Command\",\"data\":{\"rec\":true}}",
        "{\"type\":\"Parameter\",\"data\":{\"amplitude\":0.25}}",
        "{\"type\":\"Parameter\",\"data\":{}}",
        "{\"type\":\"Command\",\"data\":{\"rec\":false}}",
        "{\"type\":\"Parameter\",\"data\":{\"amplitude\":3e2}}",
    ];
    for f in frames {
        let out = connection_step(text_event(f), &mut st);
        assert_eq!(out.reply.as_deref(), Some(ACK_TEXT));
    }
    assert!(!st.rec);
    assert_eq!(st.amplitude, "3e2");
}

#[test]
fn concurrent_connections_never_corrupt_state() {
    // N connection tasks hammer one shared state cell, as the server
    // runs them. Every mutation is applied atomically under the cell's
    // lock, so the final state must equal the effect of some serial
    // ordering of the mutations actually issued: its amplitude is one of
    // the issued tokens and still a well-formed number.
    let rt = tokio::runtime::Builder::new_multi_thread().worker_threads(4).build().unwrap();
    let state: Arc<Mutex<AudioState>> = Arc::new(Mutex::new(AudioState::new()));
    let amplitudes: Vec<String> = (0..8).map(|k| format!("{k}.5")).collect();
    rt.block_on(async {
        let mut handles = Vec::new();
        for (k, amp) in amplitudes.iter().enumerate() {
            let st = state.clone();
            let amp = amp.clone();
            handles.push(tokio::spawn(async move {
                for _ in 0..25 {
                    let cmd = format!(
                        "{{\"type\":\"Command\",\"data\":{{\"rec\":{}}}}}",
                        k % 2 == 0
                    );
                    let out = {
                        let mut s = st.lock().await;
                        connection_step(ConnEvent::Text(cmd), &mut s)
                    };
                    assert_eq!(out.reply.as_deref(), Some(ACK_TEXT));
                    let par = format!(
                        "{{\"type\":\"Parameter\",\"data\":{{\"amplitude\":{amp}}}}}"
                    );
                    let out = {
                        let mut s = st.lock().await;
                        connection_step(ConnEvent::Text(par), &mut s)
                    };
                    assert_eq!(out.reply.as_deref(), Some(ACK_TEXT));
                }
            }));
        }
        for h in handles {
            h.await.unwrap();
        }
    });
    let (rec, amplitude) = rt.block_on(async {
        let s = state.lock().await;
        (s.rec, s.amplitude.clone())
    });
    assert!(amplitudes.contains(&amplitude));
    amplitude.parse::<f32>().unwrap();
    let _ = rec;
}

#[test]
fn decode_returns_the_tagged_variant() {
    match decode("{\"type\":\"Command\",\"data\":{\"rec\":true}}") {
        Ok(ClientMessage::Command(CommandData { rec })) => assert!(rec),
        _ => panic!("expected a command"),
    }
    match decode("{\"type\":\"Parameter\",\"data\":{\"amplitude\":-0.5e-3}}") {
        Ok(ClientMessage::Parameter(ParameterData { amplitude })) => {
            assert_eq!(amplitude.as_deref(), Some("-0.5e-3"));
        },
        _ => panic!("expected a parameter"),
    }
    assert!(decode("{\"type\":\"Ack\",\"data\":{}}").is_err());
}

#[test]
fn decode_error_carries_its_message() {
    let err = decode("nonsense").unwrap_err();
    assert_eq!(err.message(), "Invalid message format");
}

#[test]
fn number_grammar_edges() {
    let valid = ["0", "-0", "7", "2.5", "-0.5", "10e3", "1E-2", "0.0001", "1e+9"];
    for v in valid {
        let text = format!("{{\"type\":\"Parameter\",\"data\":{{\"amplitude\":{v}}}}}");
        match decode(&text) {
            Ok(ClientMessage::Parameter(ParameterData { amplitude })) => {
                assert_eq!(amplitude.as_deref(), Some(v), "number: {v}");
            },
            _ => panic!("expected a parameter for {v}"),
        }
    }
    let invalid = ["01", "2.", ".5", "+1", "1e", "1e+", "--1", "0x1", "NaN", "1.2.3"];
    for v in invalid {
        let text = format!("{{\"type\":\"Parameter\",\"data\":{{\"amplitude\":{v}}}}}");
        assert!(decode(&text).is_err(), "number: {v}");
    }
}

#[test]
fn handlers_apply_their_message() {
    let mut st = AudioState::new();
    let log = handle_command(CommandData { rec: true }, &mut st);
    assert!(st.rec);
    assert!(matches!(log, LogEvent::StartRecording));
    assert_eq!(log.message(), "Start recording");

    let log = handle_command(CommandData { rec: false }, &mut st);
    assert!(!st.rec);
    assert_eq!(log.message(), "Stop recording");

    let log = handle_parameter(
        ParameterData { amplitude: Some("0.125".to_owned()) },
        &mut st,
    );
    assert_eq!(st.amplitude, "0.125");
    assert_eq!(log.unwrap().message(), "Set amplitude to 0.125");

    let log = handle_parameter(ParameterData { amplitude: None }, &mut st);
    assert_eq!(st.amplitude, "0.125");
    assert!(log.is_none());
}

#[test]
fn encode_exact_text() {
    let ack = ServerMessage::Ack(AckData { status: "Received".to_owned() });
    assert_eq!(encode(&ack), ACK_TEXT);
    let err = ServerMessage::Error(ErrorData { message: "Invalid message format".to_owned() });
    assert_eq!(encode(&err), ERROR_TEXT);
}
