use podlog_alerts::slack::{DeliveryError, Slack};

#[test]
fn webhook_is_kept() {
    let s = Slack::new("https://hooks.example/x".to_string());
    assert_eq!(s.webhook(), "https://hooks.example/x");
}

#[test]
fn ok_reply_is_accepted() {
    assert!(Slack::check_reply(200, "ok".to_string()).is_ok());
    assert!(Slack::check_reply(302, "ok".to_string()).is_ok());
}

#[test]
fn error_status_is_refused() {
    match Slack::check_reply(404, "no_service".to_string()) {
        Err(DeliveryError::Status { code, body }) => {
            assert_eq!(code, 404);
            assert_eq!(body, "no_service");
        }
        _ => panic!("expected a status error"),
    }
    assert!(matches!(Slack::check_reply(500, "ok".to_string()), Err(DeliveryError::Status { code: 500, .. })));
    assert!(matches!(Slack::check_reply(599, "".to_string()), Err(DeliveryError::Status { .. })));
    assert!(Slack::check_reply(600, "ok".to_string()).is_ok());
}

#[test]
fn other_body_is_rejected() {
    match Slack::check_reply(200, "invalid_blocks".to_string()) {
        Err(DeliveryError::Rejected { body }) => assert_eq!(body, "invalid_blocks"),
        _ => panic!("expected a rejection"),
    }
    assert!(matches!(Slack::check_reply(200, "OK".to_string()), Err(DeliveryError::Rejected { .. })));
}
