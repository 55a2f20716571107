use podlog_alerts::model::Log;
use podlog_alerts::tailer::ErrorEnvelope;
use tokio::sync::mpsc;

fn envelope(message: &str, container: &str) -> ErrorEnvelope {
    ErrorEnvelope {
        log: Log {
            level: "ERROR".to_string(),
            timestamp: None,
            logger_name: None,
            message: message.to_string(),
            trace_id: None,
            span_id: None,
            hostname: None,
        },
        container: container.to_string(),
        pod: "p1".to_string(),
    }
}

#[test]
fn full_channel_holds_back_a_second_sender_until_drained() {
    let runtime = tokio::runtime::Builder::new_current_thread().enable_all().build().unwrap();
    runtime.block_on(async {
        let (tx, mut rx) = mpsc::channel::<ErrorEnvelope>(1);
        let other = tx.clone();
        assert!(tx.send(envelope("first", "app")).await.is_ok());
        let waiting = tokio::spawn(async move { other.send(envelope("second", "db")).await.is_ok() });
        tokio::task::yield_now().await;
        assert!(!waiting.is_finished());

        let first = rx.recv().await.unwrap();
        assert_eq!(first.log.message, "first");
        assert_eq!(first.container, "app");
        assert!(waiting.await.unwrap());
        let second = rx.recv().await.unwrap();
        assert_eq!(second.log.message, "second");
        assert_eq!(second.container, "db");
    });
}
