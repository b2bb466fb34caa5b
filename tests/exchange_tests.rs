use key_x_protocol_agent::error::AgentError;
use key_x_protocol_agent::exchange::{advance, Exchange, Stage};

fn bundle_text() -> String {
    let mut b = vec![3u8, 0, 0, 0, 7, 0, 0, 0, 1, 5];
    b.extend([0x11u8; 32]);
    b.extend([0u8, 0, 0, 9, 5]);
    b.extend([0x22u8; 32]);
    b.extend([0x33u8; 64]);
    b.push(0);
    base64::encode(b)
}

#[test]
fn full_call_reaches_done() {
    let mut x = Exchange::new();
    assert_eq!(x.stage(), Stage::Start);
    let k = x.accept_bundle(&bundle_text()).expect("bundle");
    assert_eq!(k.registration_id, 7);
    assert_eq!(x.stage(), Stage::Parsed);
    x.record(Ok(()));
    assert_eq!(x.stage(), Stage::SessionEstablished);
    x.record(Ok(()));
    assert_eq!(x.stage(), Stage::Encrypted);
    let text = x.finish(b"hello");
    assert_eq!(text, "aGVsbG8=");
    assert_eq!(x.stage(), Stage::Done);
}

#[test]
fn malformed_bundle_fails_the_call() {
    let mut x = Exchange::new();
    assert!(matches!(x.accept_bundle("%%%"), Err(AgentError::MalformedBundle)));
    assert_eq!(x.stage(), Stage::Failed(AgentError::MalformedBundle));
}

#[test]
fn untrusted_bundle_is_terminal() {
    let mut x = Exchange::new();
    x.accept_bundle(&bundle_text()).expect("bundle");
    x.record(Err(AgentError::UntrustedBundle));
    assert_eq!(x.stage(), Stage::Failed(AgentError::UntrustedBundle));
    x.record(Ok(()));
    x.record(Ok(()));
    assert_eq!(x.stage(), Stage::Failed(AgentError::UntrustedBundle));
}

#[test]
fn each_failure_kind_is_kept() {
    for k in [
        AgentError::MalformedBundle,
        AgentError::UntrustedBundle,
        AgentError::AgreementFailure,
        AgentError::EncryptionFailure,
    ] {
        assert_eq!(advance(Stage::SessionEstablished, Err(k)), Stage::Failed(k));
        assert_eq!(advance(Stage::Failed(k), Ok(())), Stage::Failed(k));
    }
}

#[test]
fn advance_moves_one_stage_per_success() {
    assert_eq!(advance(Stage::Start, Ok(())), Stage::Parsed);
    assert_eq!(advance(Stage::Parsed, Ok(())), Stage::SessionEstablished);
    assert_eq!(advance(Stage::SessionEstablished, Ok(())), Stage::Encrypted);
    assert_eq!(advance(Stage::Encrypted, Ok(())), Stage::Done);
    assert_eq!(advance(Stage::Done, Err(AgentError::EncryptionFailure)), Stage::Done);
}

#[test]
fn two_calls_do_not_share_state() {
    let mut a = Exchange::new();
    let mut b = Exchange::new();
    a.accept_bundle(&bundle_text()).expect("bundle");
    b.accept_bundle(&bundle_text()).expect("bundle");
    a.record(Err(AgentError::AgreementFailure));
    b.record(Ok(()));
    assert_eq!(a.stage(), Stage::Failed(AgentError::AgreementFailure));
    assert_eq!(b.stage(), Stage::SessionEstablished);
    b.record(Ok(()));
    assert_eq!(b.finish(&[1, 2, 3]), "AQID");
    assert_eq!(a.stage(), Stage::Failed(AgentError::AgreementFailure));
}
