use tibber_subscribe::v1::dispatch::{DispatchError, SinkPoint};
use tibber_subscribe::v1::message::{InboundMessage, Reading};
use tibber_subscribe::v1::session::{
    on_frame, on_message, Outbound, Session, SessionAction, SessionError, SessionEvent,
    SessionState, Skipped, ACKNOWLEDGEMENT, READ_TIMEOUT_SECONDS,
};

fn new_session() -> Session {
    Session::new("connect me".to_string(), "subscribe me".to_string())
}

fn streaming_session() -> Session {
    let mut session = new_session();
    session.step(SessionEvent::ConnectSucceeded);
    session.step(SessionEvent::Sent);
    session.step(SessionEvent::Sent);
    assert_eq!(session.state(), SessionState::Streaming);
    session
}

fn frame(text: &str) -> SessionEvent {
    SessionEvent::FrameReceived(text.to_string())
}

fn all_events() -> Vec<SessionEvent> {
    vec![
        SessionEvent::ConnectSucceeded,
        SessionEvent::ConnectFailed,
        SessionEvent::Sent,
        SessionEvent::SendFailed,
        frame("{\"payload\":{\"data\":{\"liveMeasurement\":{\"power\":1.0}}}}"),
        SessionEvent::ReadTimedOut,
        SessionEvent::ReadFailed,
    ]
}

#[test]
fn a_new_session_is_connecting() {
    assert_eq!(new_session().state(), SessionState::Connecting);
}

#[test]
fn the_read_timeout_is_ten_seconds() {
    assert_eq!(READ_TIMEOUT_SECONDS, 10);
    assert_eq!(ACKNOWLEDGEMENT, "connection_ack");
}

#[test]
fn handshake_sends_connection_then_subscription_then_reads() {
    let mut session = new_session();
    assert_eq!(
        session.step(SessionEvent::ConnectSucceeded),
        Some(SessionAction::Send("connect me".to_string()))
    );
    assert_eq!(session.state(), SessionState::Handshaking(Outbound::Connection));
    assert_eq!(
        session.step(SessionEvent::Sent),
        Some(SessionAction::Send("subscribe me".to_string()))
    );
    assert_eq!(session.state(), SessionState::Handshaking(Outbound::Subscription));
    assert_eq!(session.step(SessionEvent::Sent), Some(SessionAction::Read));
    assert_eq!(session.state(), SessionState::Streaming);
}

#[test]
fn a_failed_send_does_not_end_the_session() {
    let mut session = new_session();
    session.step(SessionEvent::ConnectSucceeded);
    assert_eq!(
        session.step(SessionEvent::SendFailed),
        Some(SessionAction::Send("subscribe me".to_string()))
    );
    assert_eq!(session.step(SessionEvent::SendFailed), Some(SessionAction::Read));
    assert_eq!(session.state(), SessionState::Streaming);
}

#[test]
fn a_failed_connect_closes_the_session() {
    let mut session = new_session();
    assert_eq!(
        session.step(SessionEvent::ConnectFailed),
        Some(SessionAction::Close(SessionError::ConnectFailed))
    );
    assert_eq!(session.state(), SessionState::Closed(SessionError::ConnectFailed));
}

#[test]
fn nothing_is_dispatched_after_a_failed_connect() {
    let mut session = new_session();
    session.step(SessionEvent::ConnectFailed);
    for event in all_events() {
        assert_eq!(session.step(event), None);
        assert_eq!(session.state(), SessionState::Closed(SessionError::ConnectFailed));
    }
}

#[test]
fn a_data_frame_is_forwarded_as_two_points() {
    let mut session = streaming_session();
    let action = session
        .step(frame("{\"payload\":{\"data\":{\"liveMeasurement\":{\"power\":1234.5,\"minPower\":100.0}}}}"));
    assert_eq!(session.state(), SessionState::Streaming);
    match action {
        Some(SessionAction::Forward(points)) => {
            assert_eq!(points.len(), 2);
            let power = points.iter().find(|p| p.field_name == "power").unwrap();
            let min_power = points.iter().find(|p| p.field_name == "minPower").unwrap();
            assert_eq!(f64::from_bits(power.value_bits), 1234.5);
            assert_eq!(f64::from_bits(min_power.value_bits), 100.0);
            assert_eq!(power.category, "liveMeasurement");
            assert_eq!(min_power.category, "liveMeasurement");
        }
        other => panic!("nothing forwarded: {:?}", other),
    }
}

#[test]
fn an_acknowledgement_is_skipped() {
    let mut session = streaming_session();
    assert_eq!(
        session.step(frame("{\"type\":\"connection_ack\"}")),
        Some(SessionAction::Skip(Skipped::Acknowledged))
    );
    assert_eq!(session.state(), SessionState::Streaming);
}

#[test]
fn another_type_is_an_anomaly() {
    let mut session = streaming_session();
    assert_eq!(
        session.step(frame("{\"type\":\"complete\"}")),
        Some(SessionAction::Skip(Skipped::Anomalous("complete".to_string())))
    );
    assert_eq!(
        session.step(frame("{\"type\":\"Connection_ack\"}")),
        Some(SessionAction::Skip(Skipped::Anomalous("Connection_ack".to_string())))
    );
    assert_eq!(session.state(), SessionState::Streaming);
}

#[test]
fn a_frame_that_is_no_json_is_skipped() {
    let mut session = streaming_session();
    assert_eq!(
        session.step(frame("<html>")),
        Some(SessionAction::Skip(Skipped::Unparseable))
    );
    assert_eq!(session.state(), SessionState::Streaming);
}

#[test]
fn a_frame_of_neither_shape_is_skipped() {
    let mut session = streaming_session();
    assert_eq!(session.step(frame("{}")), Some(SessionAction::Skip(Skipped::Unrecognized)));
    assert_eq!(session.step(frame("null")), Some(SessionAction::Skip(Skipped::Unrecognized)));
    assert_eq!(session.state(), SessionState::Streaming);
}

#[test]
fn a_measurement_with_a_text_value_is_a_fault() {
    let mut session = streaming_session();
    let action =
        session.step(frame("{\"payload\":{\"data\":{\"liveMeasurement\":{\"currency\":\"NOK\"}}}}"));
    assert_eq!(
        action,
        Some(SessionAction::Fault(DispatchError::NonNumericField {
            field_name: "currency".to_string(),
            preceding: vec![],
        }))
    );
    assert_eq!(session.state(), SessionState::Streaming);
}

#[test]
fn a_timeout_closes_the_session() {
    let mut session = streaming_session();
    assert_eq!(
        session.step(SessionEvent::ReadTimedOut),
        Some(SessionAction::Close(SessionError::Timeout))
    );
    assert_eq!(session.state(), SessionState::Closed(SessionError::Timeout));
}

#[test]
fn nothing_is_written_after_a_timeout() {
    let mut session = streaming_session();
    session.step(SessionEvent::ReadTimedOut);
    for event in all_events() {
        assert_eq!(session.step(event), None);
        assert_eq!(session.state(), SessionState::Closed(SessionError::Timeout));
    }
}

#[test]
fn a_failed_read_closes_the_session() {
    let mut session = streaming_session();
    assert_eq!(
        session.step(SessionEvent::ReadFailed),
        Some(SessionAction::Close(SessionError::ReadFailed))
    );
    assert_eq!(session.state(), SessionState::Closed(SessionError::ReadFailed));
    assert_eq!(session.step(frame("{\"type\":\"connection_ack\"}")), None);
}

#[test]
fn events_that_are_not_waited_for_change_nothing() {
    let mut session = new_session();
    assert_eq!(session.step(SessionEvent::Sent), None);
    assert_eq!(session.step(frame("{}")), None);
    assert_eq!(session.step(SessionEvent::ReadTimedOut), None);
    assert_eq!(session.state(), SessionState::Connecting);
    session.step(SessionEvent::ConnectSucceeded);
    assert_eq!(session.step(SessionEvent::ConnectFailed), None);
    assert_eq!(session.step(SessionEvent::ReadFailed), None);
    assert_eq!(session.state(), SessionState::Handshaking(Outbound::Connection));
    let mut session = streaming_session();
    assert_eq!(session.step(SessionEvent::Sent), None);
    assert_eq!(session.step(SessionEvent::ConnectFailed), None);
    assert_eq!(session.state(), SessionState::Streaming);
}

#[test]
fn streaming_goes_on_frame_after_frame() {
    let mut session = streaming_session();
    for _ in 0..5 {
        session.step(frame("{\"type\":\"connection_ack\"}"));
        session.step(frame("garbage"));
        let action =
            session.step(frame("{\"payload\":{\"data\":{\"liveMeasurement\":{\"power\":2}}}}"));
        assert_eq!(
            action,
            Some(SessionAction::Forward(vec![SinkPoint {
                field_name: "power".to_string(),
                value_bits: 2.0f64.to_bits(),
                category: "liveMeasurement".to_string(),
            }]))
        );
        assert_eq!(session.state(), SessionState::Streaming);
    }
}

#[test]
fn on_message_decides_by_shape() {
    assert_eq!(
        on_message(InboundMessage::Typed("connection_ack".to_string())),
        SessionAction::Skip(Skipped::Acknowledged)
    );
    assert_eq!(
        on_message(InboundMessage::Typed("pong".to_string())),
        SessionAction::Skip(Skipped::Anomalous("pong".to_string()))
    );
    assert_eq!(
        on_message(InboundMessage::Typed(String::new())),
        SessionAction::Skip(Skipped::Anomalous(String::new()))
    );
    assert_eq!(on_message(InboundMessage::Unrecognized), SessionAction::Skip(Skipped::Unrecognized));
    assert_eq!(on_message(InboundMessage::Data(vec![])), SessionAction::Forward(vec![]));
    assert_eq!(
        on_message(InboundMessage::Data(vec![
            Reading { name: "power".to_string(), value: Some(3.5f64.to_bits()) },
            Reading { name: "currency".to_string(), value: None },
        ])),
        SessionAction::Fault(DispatchError::NonNumericField {
            field_name: "currency".to_string(),
            preceding: vec![SinkPoint {
                field_name: "power".to_string(),
                value_bits: 3.5f64.to_bits(),
                category: "liveMeasurement".to_string(),
            }],
        })
    );
}

#[test]
fn on_frame_decides_by_text() {
    assert_eq!(on_frame("{\"type\":\"connection_ack\"}"), SessionAction::Skip(Skipped::Acknowledged));
    assert_eq!(on_frame("{"), SessionAction::Skip(Skipped::Unparseable));
    assert_eq!(on_frame("[]"), SessionAction::Skip(Skipped::Unrecognized));
}
