use pac_man_ball::bridge::{InputsBridge, OutputsBridge};
use pac_man_ball::http::{supervise, ServerAction, ServerEvent};
use pac_man_ball::json::JsonError;
use pac_man_ball::json_enc::encode_inputs_json;
use pac_man_ball::records::Inputs;
use pac_man_ball::ws::{
    classify_frame, handle_frame, is_allowed_origin, pending_update_frame, route_request,
    update_frame, FrameDecision, FrameKind, Method, ProtocolError, RequestAction, StreamStep,
};

#[test]
fn origin_allow_list() {
    assert!(is_allowed_origin("https://chrisprice.dev"));
    assert!(is_allowed_origin("http://chrisprice.dev"));
    assert!(is_allowed_origin("https://chrisprice.dev:8443"));
    assert!(is_allowed_origin("http://localhost"));
    assert!(is_allowed_origin("http://localhost:8881"));
    assert!(!is_allowed_origin("https://evil.example"));
    assert!(!is_allowed_origin("chrisprice.dev"));
    assert!(!is_allowed_origin(""));
    assert!(!is_allowed_origin("https://chrisprice.dev.evil.example"));
    assert!(!is_allowed_origin("https://"));
    assert!(!is_allowed_origin("http://[::1]:80"));
    assert!(is_allowed_origin("ftp://localhost"));
}

#[test]
fn preflight_from_allowed_origin_echoes_cors_headers() {
    let action = route_request(
        Method::Options,
        "/",
        Some("https://chrisprice.dev"),
        false,
        "content-type",
    );
    match action {
        RequestAction::Respond(plan) => {
            assert_eq!(plan.status, 204);
            assert_eq!(plan.reason, None);
            assert_eq!(plan.body, None);
            assert_eq!(plan.headers.len(), 4);
            assert_eq!(plan.headers[0].name, "Access-Control-Allow-Origin");
            assert_eq!(plan.headers[0].value, "https://chrisprice.dev");
            assert_eq!(plan.headers[1].name, "Access-Control-Allow-Methods");
            assert_eq!(plan.headers[1].value, "GET, OPTIONS");
            assert_eq!(plan.headers[2].name, "Access-Control-Allow-Headers");
            assert_eq!(plan.headers[2].value, "content-type");
            assert_eq!(plan.headers[3].name, "Access-Control-Max-Age");
            assert_eq!(plan.headers[3].value, "86400");
        }
        RequestAction::Upgrade => panic!("expected a response"),
    }
}

#[test]
fn preflight_from_disallowed_origin_gets_bare_204() {
    let action = route_request(Method::Options, "/", Some("https://evil.example"), false, "");
    match action {
        RequestAction::Respond(plan) => {
            assert_eq!(plan.status, 204);
            assert_eq!(plan.headers.len(), 0);
            assert_eq!(plan.body, None);
        }
        RequestAction::Upgrade => panic!("expected a response"),
    }
}

#[test]
fn non_get_non_options_is_405() {
    let action = route_request(Method::Other, "/", None, false, "");
    match action {
        RequestAction::Respond(plan) => {
            assert_eq!(plan.status, 405);
            assert_eq!(plan.reason.as_deref(), Some("Method Not Allowed"));
            assert_eq!(plan.headers.len(), 0);
        }
        RequestAction::Upgrade => panic!("expected a response"),
    }
}

#[test]
fn get_of_other_path_is_404() {
    let action = route_request(Method::Get, "/other", None, false, "");
    match action {
        RequestAction::Respond(plan) => {
            assert_eq!(plan.status, 404);
            assert_eq!(plan.reason.as_deref(), Some("Not Found"));
            assert_eq!(plan.headers.len(), 0);
        }
        RequestAction::Upgrade => panic!("expected a response"),
    }
}

#[test]
fn get_of_other_path_keeps_cors_header_for_allowed_origin() {
    let action = route_request(Method::Get, "/other", Some("http://localhost"), false, "");
    match action {
        RequestAction::Respond(plan) => {
            assert_eq!(plan.status, 404);
            assert_eq!(plan.headers.len(), 1);
            assert_eq!(plan.headers[0].name, "Access-Control-Allow-Origin");
            assert_eq!(plan.headers[0].value, "http://localhost");
        }
        RequestAction::Upgrade => panic!("expected a response"),
    }
}

#[test]
fn plain_get_of_root_serves_informational_body() {
    let action = route_request(Method::Get, "/", None, false, "");
    match action {
        RequestAction::Respond(plan) => {
            assert_eq!(plan.status, 200);
            assert_eq!(plan.reason.as_deref(), Some("OK"));
            assert_eq!(plan.headers.len(), 1);
            assert_eq!(plan.headers[0].name, "Content-Type");
            assert_eq!(plan.headers[0].value, "text/plain");
            assert_eq!(
                plan.body.as_deref(),
                Some("Initiate WS Upgrade request to switch this connection to WS")
            );
        }
        RequestAction::Upgrade => panic!("expected a response"),
    }
}

#[test]
fn upgrade_request_proceeds_to_handshake() {
    let action = route_request(Method::Get, "/", Some("https://chrisprice.dev"), true, "");
    assert_eq!(action, RequestAction::Upgrade);
}

#[test]
fn fragmented_text_frame_closes_without_publishing() {
    let mut ingress = OutputsBridge::new();
    let result = handle_frame(
        &mut ingress,
        FrameKind::Text { fragmented: true },
        b"{\"ray_lamp\":true}",
    );
    assert_eq!(result, Err(ProtocolError::FragmentedFrame));
    assert_eq!(ingress.try_take(), None);
}

#[test]
fn malformed_payload_closes_without_publishing() {
    let mut ingress = OutputsBridge::new();
    let result = handle_frame(&mut ingress, FrameKind::Text { fragmented: false }, b"{nope}");
    assert_eq!(result, Err(ProtocolError::Json(JsonError::Syntax)));
    assert_eq!(ingress.try_take(), None);
}

#[test]
fn partial_parse_closes_without_publishing() {
    let mut ingress = OutputsBridge::new();
    let payload = "{\"checker_0_led\":false,\"checker_1_led\":false,\"checker_2_led\":false,\"checker_3_led\":false,\"checker_4_led\":false,\"checker_5_led\":false,\"checker_6_led\":false,\"table_motor\":false,\"left_hopper\":false,\"right_hopper\":false,\"lockout_solenoid_left\":false,\"lockout_solenoid_right\":false,\"out_hopper\":false,\"payout_solenoid\":false,\"divider_solenoid_left\":false,\"divider_solenoid_right\":false,\"ray_lamp\":true}extra";
    let result = handle_frame(&mut ingress, FrameKind::Text { fragmented: false }, payload.as_bytes());
    assert_eq!(result, Err(ProtocolError::TrailingData));
    assert_eq!(ingress.try_take(), None);
}

#[test]
fn valid_text_frame_publishes_the_command() {
    let mut ingress = OutputsBridge::new();
    let payload = "{\"checker_0_led\":true,\"checker_1_led\":false,\"checker_2_led\":false,\"checker_3_led\":false,\"checker_4_led\":false,\"checker_5_led\":false,\"checker_6_led\":false,\"table_motor\":true,\"left_hopper\":false,\"right_hopper\":false,\"lockout_solenoid_left\":false,\"lockout_solenoid_right\":false,\"out_hopper\":false,\"payout_solenoid\":false,\"divider_solenoid_left\":false,\"divider_solenoid_right\":false,\"ray_lamp\":true}";
    let result = handle_frame(&mut ingress, FrameKind::Text { fragmented: false }, payload.as_bytes());
    assert_eq!(result, Ok(StreamStep::Continue));
    let published = ingress.try_take().unwrap();
    assert!(published.checker_0_led);
    assert!(published.table_motor);
    assert!(published.ray_lamp);
    assert!(!published.left_hopper);
}

#[test]
fn close_and_unexpected_frames_leave_the_loop() {
    let mut ingress = OutputsBridge::new();
    assert_eq!(handle_frame(&mut ingress, FrameKind::Close, b""), Ok(StreamStep::CloseClean));
    assert_eq!(
        handle_frame(&mut ingress, FrameKind::Other, b""),
        Ok(StreamStep::CloseUnexpected)
    );
    assert_eq!(ingress.try_take(), None);
}

#[test]
fn classify_frame_matches_handle_frame() {
    let payload = b"{\"ray_lamp\":true}";
    assert_eq!(
        classify_frame(FrameKind::Text { fragmented: true }, payload),
        Err(ProtocolError::FragmentedFrame)
    );
    assert_eq!(
        classify_frame(FrameKind::Text { fragmented: false }, payload),
        Err(ProtocolError::Json(JsonError::MissingField))
    );
    assert_eq!(classify_frame(FrameKind::Close, b""), Ok(FrameDecision::CloseClean));
    assert_eq!(classify_frame(FrameKind::Other, b""), Ok(FrameDecision::CloseUnexpected));
}

#[test]
fn update_frame_carries_the_json_encoding_unmasked() {
    let mut inputs = Inputs::default();
    inputs.checker_4_sensor = true;
    inputs.table_sensor = true;
    let frame = update_frame(&inputs);
    assert_eq!(frame.payload, encode_inputs_json(&inputs));
    assert_eq!(frame.mask_key, None);
    assert!(!frame.fragmented);
    let text = String::from_utf8(frame.payload).unwrap();
    assert!(text.contains("\"checker_4_sensor\":true"));
    assert!(text.contains("\"table_sensor\":true"));
}

#[test]
fn each_publish_yields_exactly_one_update_frame() {
    let mut egress = InputsBridge::new();
    let mut inputs = Inputs::default();
    inputs.hopper_out_sensor = true;

    egress.publish(Inputs::default());
    egress.publish(inputs);

    // Only the freshest snapshot is framed, exactly once.
    let frame = pending_update_frame(&mut egress).unwrap();
    assert_eq!(frame.payload, encode_inputs_json(&inputs));
    assert_eq!(frame.mask_key, None);
    assert!(!frame.fragmented);
    assert_eq!(pending_update_frame(&mut egress), None);

    // The next publish yields the next frame.
    egress.publish(Inputs::default());
    assert!(pending_update_frame(&mut egress).is_some());
    assert_eq!(pending_update_frame(&mut egress), None);
}

#[test]
fn supervisor_backs_off_and_retries() {
    assert_eq!(supervise(ServerEvent::BindFailed), ServerAction::RetryAfterSecs(1));
    assert_eq!(supervise(ServerEvent::ServerError), ServerAction::RetryAfterSecs(1));
    assert_eq!(supervise(ServerEvent::Bound), ServerAction::Serve);
}
