use webrtc_signal::codec::{
    classify, encode, frame_candidate, frame_description, hello_message, session_message, Inbound,
    NegotiationMessage, SdpKind,
};
use webrtc_signal::session::{Action, Attempt, Fault, Session, ID_HIGH, ID_LOW};
use webrtc_signal::state::{error_state, transition, CallState, Trigger};

fn session_in(target: CallState) -> Session {
    let mut s = Session::new("peer-7".to_string());
    let path = [
        CallState::ServerRegistering,
        CallState::PeerConnecting,
        CallState::PeerConnected,
        CallState::PeerCallNegotiating,
        CallState::PeerCallStarted,
    ];
    if target == CallState::ServerConnecting {
        return s;
    }
    for phase in path {
        let step = match phase {
            CallState::ServerRegistering => s.on_open_with_id(42),
            CallState::PeerConnecting => s.on_registration_ack(),
            CallState::PeerConnected => s.on_session_ack(),
            CallState::PeerCallNegotiating => s.on_negotiation_needed(),
            _ => s.on_remote_message(Some(NegotiationMessage::SessionDescription {
                kind: SdpKind::Answer,
                sdp: "v=0".to_string(),
            })),
        };
        assert_eq!(step.fault, None);
        assert_eq!(s.state(), phase);
        if phase == target {
            return s;
        }
    }
    panic!("phase not on the happy path");
}

fn answer(sdp: &str) -> Option<NegotiationMessage> {
    Some(NegotiationMessage::SessionDescription { kind: SdpKind::Answer, sdp: sdp.to_string() })
}

#[test]
fn channel_open_registers_with_random_id() {
    let mut s = Session::new("peer-7".to_string());
    let step = s.on_open();
    assert_eq!(s.state(), CallState::ServerRegistering);
    assert_eq!(step.fault, None);
    assert_eq!(step.actions.len(), 1);
    match &step.actions[0] {
        Action::Send(text) => {
            let id: u32 = text.strip_prefix("HELLO ").unwrap().parse().unwrap();
            assert!(ID_LOW <= id && id < ID_HIGH);
            assert!(10 <= id && id < 10000);
        }
        other => panic!("unexpected action {:?}", other),
    }
}

#[test]
fn channel_open_with_given_id() {
    let mut s = Session::new("peer-7".to_string());
    let step = s.on_open_with_id(4321);
    assert_eq!(step.actions, vec![Action::Send("HELLO 4321".to_string())]);
    assert_eq!(s.state(), CallState::ServerRegistering);
}

#[test]
fn channel_open_twice_is_a_fault() {
    let mut s = session_in(CallState::ServerRegistering);
    let step = s.on_open_with_id(11);
    assert!(step.actions.is_empty());
    assert_eq!(
        step.fault,
        Some(Fault::Protocol { state: CallState::ServerRegistering, attempt: Attempt::OpenChannel })
    );
    assert_eq!(s.state(), CallState::ServerRegistering);
}

#[test]
fn hello_requests_session_with_peer() {
    let mut s = session_in(CallState::ServerRegistering);
    let step = s.on_registration_ack();
    assert_eq!(step.actions, vec![Action::Send("SESSION peer-7".to_string())]);
    assert_eq!(step.fault, None);
    assert_eq!(s.state(), CallState::PeerConnecting);
    assert_eq!(s.peer_id(), "peer-7");
}

#[test]
fn hello_when_not_registering_is_a_fault() {
    let mut s = session_in(CallState::PeerConnecting);
    let step = s.on_registration_ack();
    assert!(step.actions.is_empty());
    assert_eq!(
        step.fault,
        Some(Fault::Protocol { state: CallState::PeerConnecting, attempt: Attempt::AcceptRegistration })
    );
}

#[test]
fn session_ok_starts_media_once() {
    let mut s = session_in(CallState::PeerConnecting);
    let step = s.on_session_ack();
    assert_eq!(step.actions, vec![Action::StartMedia]);
    assert_eq!(step.fault, None);
    assert_eq!(s.state(), CallState::PeerConnected);
}

#[test]
fn session_ok_when_not_calling_is_a_fault() {
    let mut s = session_in(CallState::ServerRegistering);
    let step = s.on_session_ack();
    assert!(step.actions.is_empty());
    assert_eq!(
        step.fault,
        Some(Fault::Protocol { state: CallState::ServerRegistering, attempt: Attempt::AcceptSession })
    );
}

#[test]
fn negotiation_needed_creates_offer_once() {
    let mut s = session_in(CallState::PeerConnected);
    let step = s.on_negotiation_needed();
    assert_eq!(step.actions, vec![Action::CreateOffer]);
    assert_eq!(step.fault, None);
    assert_eq!(s.state(), CallState::PeerCallNegotiating);
    let again = s.on_negotiation_needed();
    assert!(again.actions.is_empty());
    assert_eq!(
        again.fault,
        Some(Fault::Protocol { state: CallState::PeerCallNegotiating, attempt: Attempt::StartNegotiation })
    );
}

#[test]
fn offer_created_is_installed_and_sent() {
    let mut s = session_in(CallState::PeerCallNegotiating);
    let step = s.on_offer_created("v=0...".to_string());
    assert_eq!(step.fault, None);
    assert_eq!(
        step.actions,
        vec![
            Action::SetLocalOffer("v=0...".to_string()),
            Action::Send("{\"sdp\":{\"type\":\"offer\",\"sdp\":\"v=0...\"}}".to_string()),
        ]
    );
    assert_eq!(s.state(), CallState::PeerCallNegotiating);
}

#[test]
fn offer_created_outside_negotiation_is_a_fault() {
    let mut s = session_in(CallState::PeerConnected);
    let step = s.on_offer_created("v=0".to_string());
    assert!(step.actions.is_empty());
    assert_eq!(
        step.fault,
        Some(Fault::Protocol { state: CallState::PeerConnected, attempt: Attempt::InstallOffer })
    );
}

#[test]
fn answer_applied_starts_call() {
    let mut s = session_in(CallState::PeerCallNegotiating);
    let step = s.on_remote_message(answer("v=0..."));
    assert_eq!(step.actions, vec![Action::SetRemoteAnswer("v=0...".to_string())]);
    assert_eq!(step.fault, None);
    assert_eq!(s.state(), CallState::PeerCallStarted);
}

#[test]
fn answer_accepted_only_while_negotiating() {
    for phase in [
        CallState::ServerConnecting,
        CallState::ServerRegistering,
        CallState::PeerConnecting,
        CallState::PeerConnected,
        CallState::PeerCallStarted,
    ] {
        let mut s = session_in(phase);
        let step = s.on_remote_message(answer("v=0"));
        assert!(step.actions.is_empty());
        assert_eq!(
            step.fault,
            Some(Fault::Protocol { state: phase, attempt: Attempt::ApplyRemoteDescription })
        );
        assert_eq!(s.state(), phase);
    }
}

#[test]
fn remote_offer_is_a_fault() {
    let mut s = session_in(CallState::PeerCallNegotiating);
    let step = s.on_remote_message(Some(NegotiationMessage::SessionDescription {
        kind: SdpKind::Offer,
        sdp: "v=0".to_string(),
    }));
    assert_eq!(
        step.fault,
        Some(Fault::Protocol {
            state: CallState::PeerCallNegotiating,
            attempt: Attempt::ApplyRemoteDescription
        })
    );
    assert_eq!(s.state(), CallState::PeerCallNegotiating);
}

#[test]
fn malformed_payload_is_a_fault() {
    let mut s = session_in(CallState::PeerCallNegotiating);
    let step = s.on_remote_message(None);
    assert!(step.actions.is_empty());
    assert_eq!(step.fault, Some(Fault::MalformedPayload));
    assert_eq!(s.state(), CallState::PeerCallNegotiating);
}

#[test]
fn remote_candidate_is_forwarded_in_any_phase() {
    for phase in [CallState::PeerConnected, CallState::PeerCallNegotiating, CallState::PeerCallStarted] {
        let mut s = session_in(phase);
        let step = s.on_remote_message(Some(NegotiationMessage::Candidate {
            sdp_mline_index: 1,
            candidate: "candidate:1 1 UDP 2122 192.168.1.2 5000 typ host".to_string(),
        }));
        assert_eq!(
            step.actions,
            vec![Action::AddRemoteCandidate {
                sdp_mline_index: 1,
                candidate: "candidate:1 1 UDP 2122 192.168.1.2 5000 typ host".to_string(),
            }]
        );
        assert_eq!(step.fault, None);
        assert_eq!(s.state(), phase);
    }
}

#[test]
fn local_candidate_sent_only_once_negotiating() {
    let s = session_in(CallState::PeerConnected);
    let step = s.on_local_candidate(0, "candidate:a");
    assert!(step.actions.is_empty());
    assert_eq!(
        step.fault,
        Some(Fault::Protocol { state: CallState::PeerConnected, attempt: Attempt::SendCandidate })
    );
    for phase in [CallState::PeerCallNegotiating, CallState::PeerCallStarted] {
        let s = session_in(phase);
        let step = s.on_local_candidate(3, "candidate:a");
        assert_eq!(
            step.actions,
            vec![Action::Send("{\"ice\":{\"candidate\":\"candidate:a\",\"sdpMLineIndex\":3}}".to_string())]
        );
        assert_eq!(step.fault, None);
    }
}

#[test]
fn send_offer_permitted_from_negotiation_on() {
    assert_eq!(
        session_in(CallState::PeerConnected).send_offer("v=0"),
        Err(Fault::Protocol { state: CallState::PeerConnected, attempt: Attempt::SendOffer })
    );
    assert_eq!(
        session_in(CallState::ServerConnecting).send_candidate(0, "c"),
        Err(Fault::Protocol { state: CallState::ServerConnecting, attempt: Attempt::SendCandidate })
    );
    assert_eq!(
        session_in(CallState::PeerCallStarted).send_offer("v=0"),
        Ok("{\"sdp\":{\"type\":\"offer\",\"sdp\":\"v=0\"}}".to_string())
    );
    assert_eq!(
        session_in(CallState::PeerCallNegotiating).send_candidate(7, "c"),
        Ok("{\"ice\":{\"candidate\":\"c\",\"sdpMLineIndex\":7}}".to_string())
    );
}

#[test]
fn server_error_while_peer_connecting() {
    let mut s = session_in(CallState::PeerConnecting);
    let step = s.on_server_error();
    assert_eq!(s.state(), CallState::PeerConnectionError);
    assert_eq!(step.actions, vec![Action::CloseChannel]);
    assert_eq!(step.fault, Some(Fault::ServerReported { prior: CallState::PeerConnecting }));
}

#[test]
fn server_error_maps_each_phase() {
    assert_eq!(error_state(CallState::ServerConnecting), CallState::ServerConnectionError);
    assert_eq!(error_state(CallState::ServerRegistering), CallState::ServerRegisteringError);
    assert_eq!(error_state(CallState::PeerConnecting), CallState::PeerConnectionError);
    assert_eq!(error_state(CallState::PeerConnected), CallState::PeerCallError);
    assert_eq!(error_state(CallState::PeerCallNegotiating), CallState::PeerCallError);
    assert_eq!(error_state(CallState::PeerCallError), CallState::PeerCallError);
    assert_eq!(error_state(CallState::ServerConnected), CallState::AppError);
    assert_eq!(error_state(CallState::PeerCallStarted), CallState::AppError);
    assert_eq!(error_state(CallState::ServerClosed), CallState::AppError);
}

#[test]
fn close_from_any_phase() {
    for phase in [CallState::ServerConnecting, CallState::PeerConnected, CallState::PeerCallStarted] {
        let mut s = session_in(phase);
        s.on_close();
        assert_eq!(s.state(), CallState::ServerClosed);
    }
}

#[test]
fn happy_path_visits_each_phase_in_order() {
    let mut s = Session::new("p".to_string());
    let mut seen = vec![s.state()];
    s.on_open_with_id(10);
    seen.push(s.state());
    s.on_registration_ack();
    seen.push(s.state());
    s.on_session_ack();
    seen.push(s.state());
    s.on_negotiation_needed();
    seen.push(s.state());
    s.on_remote_message(answer("v=0"));
    seen.push(s.state());
    assert_eq!(
        seen,
        vec![
            CallState::ServerConnecting,
            CallState::ServerRegistering,
            CallState::PeerConnecting,
            CallState::PeerConnected,
            CallState::PeerCallNegotiating,
            CallState::PeerCallStarted,
        ]
    );
    for w in seen.windows(2) {
        assert!(w[0].position() < w[1].position());
    }
}

#[test]
fn transition_table() {
    assert_eq!(transition(CallState::ServerConnecting, Trigger::ChannelOpened), Some(CallState::ServerConnected));
    assert_eq!(transition(CallState::ServerConnected, Trigger::RegistrationSent), Some(CallState::ServerRegistering));
    assert_eq!(transition(CallState::ServerRegistered, Trigger::SessionRequested), Some(CallState::PeerConnecting));
    assert_eq!(transition(CallState::PeerCallNegotiating, Trigger::AnswerApplied), Some(CallState::PeerCallStarted));
    assert_eq!(transition(CallState::PeerConnected, Trigger::AnswerApplied), None);
    assert_eq!(transition(CallState::PeerCallError, Trigger::ChannelClosed), Some(CallState::ServerClosed));
    assert_eq!(transition(CallState::PeerCallError, Trigger::SessionAck), None);
}

#[test]
fn phase_order() {
    assert!(CallState::PeerCallStarted.at_least(&CallState::PeerCallNegotiating));
    assert!(CallState::PeerCallError.negotiation_started());
    assert!(!CallState::PeerConnected.negotiation_started());
    assert!(!CallState::ServerClosed.at_least(&CallState::PeerConnecting));
    assert_eq!(CallState::AppError.position(), 0);
    assert_eq!(CallState::PeerCallError.position(), 13);
}

#[test]
fn classify_literals_then_payload() {
    assert_eq!(classify("HELLO"), Inbound::RegistrationAck);
    assert_eq!(classify("SESSION_OK"), Inbound::SessionAck);
    assert_eq!(classify("ERROR peer 'x' not found"), Inbound::ServerError);
    assert_eq!(classify("ERROR"), Inbound::ServerError);
    assert_eq!(classify("HELLO 12"), Inbound::Payload);
    assert_eq!(classify("ERRO"), Inbound::Payload);
    assert_eq!(classify(""), Inbound::Payload);
    assert_eq!(classify("{\"sdp\":{\"type\":\"answer\",\"sdp\":\"v=0\"}}"), Inbound::Payload);
}

#[test]
fn control_messages() {
    assert_eq!(hello_message(0), "HELLO 0");
    assert_eq!(hello_message(9999), "HELLO 9999");
    assert_eq!(hello_message(4294967295), "HELLO 4294967295");
    assert_eq!(session_message("bob"), "SESSION bob");
}

#[test]
fn encode_escapes_sdp_text() {
    let m = NegotiationMessage::SessionDescription {
        kind: SdpKind::Answer,
        sdp: "v=0\r\no=- 1 \"q\"\\".to_string(),
    };
    assert_eq!(encode(&m), "{\"sdp\":{\"type\":\"answer\",\"sdp\":\"v=0\\r\\no=- 1 \\\"q\\\"\\\\\"}}");
}

fn decode_with_serde(text: &str) -> NegotiationMessage {
    let v: serde_json::Value = serde_json::from_str(text).unwrap();
    if let Some(ice) = v.get("ice") {
        NegotiationMessage::Candidate {
            sdp_mline_index: ice["sdpMLineIndex"].as_u64().unwrap() as u32,
            candidate: ice["candidate"].as_str().unwrap().to_string(),
        }
    } else {
        let sdp = &v["sdp"];
        let kind = match sdp["type"].as_str().unwrap() {
            "offer" => SdpKind::Offer,
            _ => SdpKind::Answer,
        };
        NegotiationMessage::SessionDescription { kind, sdp: sdp["sdp"].as_str().unwrap().to_string() }
    }
}

#[test]
fn encoded_messages_decode_back() {
    let cases = vec![
        NegotiationMessage::SessionDescription {
            kind: SdpKind::Offer,
            sdp: "v=0\r\no=- 4611731400430051336 2 IN IP4 127.0.0.1\r\ns=-\r\n".to_string(),
        },
        NegotiationMessage::SessionDescription { kind: SdpKind::Answer, sdp: String::new() },
        NegotiationMessage::Candidate {
            sdp_mline_index: 0,
            candidate: "candidate:842163049 1 udp 1677729535 stun://host:19302/x typ srflx".to_string(),
        },
        NegotiationMessage::Candidate { sdp_mline_index: u32::MAX, candidate: "é\u{1}\t".to_string() },
    ];
    for m in cases {
        let text = encode(&m);
        assert_eq!(classify(&text), Inbound::Payload);
        assert_eq!(decode_with_serde(&text), m);
    }
}

#[test]
fn framing_around_quoted_text() {
    assert_eq!(
        frame_description(SdpKind::Answer, "\"v=0\""),
        "{\"sdp\":{\"type\":\"answer\",\"sdp\":\"v=0\"}}"
    );
    assert_eq!(
        frame_candidate(12, "\"c:1/2\""),
        "{\"ice\":{\"candidate\":\"c:1/2\",\"sdpMLineIndex\":12}}"
    );
}

#[test]
fn messages_dispatch_by_literal_first() {
    let mut s = session_in(CallState::ServerRegistering);
    let step = s.on_message("HELLO", None);
    assert_eq!(step.actions, vec![Action::Send("SESSION peer-7".to_string())]);
    assert_eq!(s.state(), CallState::PeerConnecting);

    let step = s.on_message("SESSION_OK", answer("ignored"));
    assert_eq!(step.actions, vec![Action::StartMedia]);
    assert_eq!(s.state(), CallState::PeerConnected);

    s.on_negotiation_needed();
    let step = s.on_message("{\"sdp\":{\"type\":\"answer\",\"sdp\":\"v=0...\"}}", answer("v=0..."));
    assert_eq!(step.actions, vec![Action::SetRemoteAnswer("v=0...".to_string())]);
    assert_eq!(s.state(), CallState::PeerCallStarted);
}

#[test]
fn error_message_closes_channel_once() {
    let mut s = session_in(CallState::PeerConnecting);
    let step = s.on_message("ERROR peer 'bob' not found", None);
    assert_eq!(step.actions, vec![Action::CloseChannel]);
    assert_eq!(step.fault, Some(Fault::ServerReported { prior: CallState::PeerConnecting }));
    assert_eq!(s.state(), CallState::PeerConnectionError);
}

#[test]
fn undecodable_message_is_malformed() {
    let mut s = session_in(CallState::PeerCallNegotiating);
    let step = s.on_message("{\"bye\":1}", None);
    assert!(step.actions.is_empty());
    assert_eq!(step.fault, Some(Fault::MalformedPayload));
}

#[test]
fn second_error_does_not_close_again() {
    let mut s = session_in(CallState::PeerConnecting);
    let first = s.on_message("ERROR peer 'bob' not found", None);
    assert_eq!(first.actions, vec![Action::CloseChannel]);
    assert_eq!(s.state(), CallState::PeerConnectionError);
    let second = s.on_message("ERROR again", None);
    assert!(second.actions.is_empty());
    assert_eq!(second.fault, Some(Fault::ServerReported { prior: CallState::PeerConnectionError }));
    assert_eq!(s.state(), CallState::PeerConnectionError);
}

#[test]
fn registration_and_session_request_need_their_phases() {
    let mut s = Session::new("peer-7".to_string());
    let step = s.register_with_server(50);
    assert!(step.actions.is_empty());
    assert_eq!(
        step.fault,
        Some(Fault::Protocol { state: CallState::ServerConnecting, attempt: Attempt::Register })
    );
    let step = s.setup_call();
    assert_eq!(
        step.fault,
        Some(Fault::Protocol { state: CallState::ServerConnecting, attempt: Attempt::RequestSession })
    );
    assert_eq!(s.state(), CallState::ServerConnecting);
}

#[test]
fn encode_escapes_control_characters() {
    let m = NegotiationMessage::Candidate { sdp_mline_index: 5, candidate: "a\u{1}\u{1f}\u{8}\u{c}\tb".to_string() };
    assert_eq!(
        encode(&m),
        "{\"ice\":{\"candidate\":\"a\\u0001\\u001f\\b\\f\\tb\",\"sdpMLineIndex\":5}}"
    );
}
