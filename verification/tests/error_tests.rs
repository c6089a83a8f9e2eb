use rtsp_to_webrtc::errors::{RelayError, SinkWriteKind};

#[test]
fn client_errors_are_surfaced_others_contained() {
    assert!(RelayError::LocatorParse.is_client_error());
    assert!(RelayError::OfferParse.is_client_error());
    assert!(RelayError::Negotiation.is_client_error());
    assert!(!RelayError::UpstreamConnect.is_client_error());
    assert!(!RelayError::UpstreamRead.is_client_error());
    assert!(!RelayError::SinkWrite(SinkWriteKind::NoActiveConsumer).is_client_error());
    assert!(!RelayError::SinkWrite(SinkWriteKind::Other).is_client_error());
}

#[test]
fn only_read_failures_end_an_attempt() {
    assert!(RelayError::UpstreamRead.ends_attempt());
    assert!(!RelayError::SinkWrite(SinkWriteKind::NoActiveConsumer).ends_attempt());
    assert!(!RelayError::SinkWrite(SinkWriteKind::Other).ends_attempt());
    assert!(!RelayError::UpstreamConnect.ends_attempt());
}

#[test]
fn messages_name_each_failure() {
    assert_eq!(RelayError::LocatorParse.message(), "error parsing camera locator");
    assert_eq!(RelayError::OfferParse.message(), "error parsing SDP offer");
    assert_eq!(RelayError::UpstreamConnect.message(), "failed to connect to upstream camera");
    assert_eq!(RelayError::UpstreamRead.message(), "upstream stream ended or failed");
    assert_eq!(
        RelayError::SinkWrite(SinkWriteKind::NoActiveConsumer).message(),
        "no active consumer for sink"
    );
    assert_eq!(RelayError::SinkWrite(SinkWriteKind::Other).message(), "sink write failed");
    assert_eq!(RelayError::Negotiation.message(), "error creating SDP answer");
}
