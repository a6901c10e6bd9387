use sftp_core::error::{OpError, Step};

fn message_of(step: Step, cause: &str) -> String {
    OpError { step, cause: cause.to_string() }.message()
}

#[test]
fn every_step_has_its_label() {
    let cases = vec![
        (Step::Connect, "TCP connect failed: x"),
        (Step::SessionInit, "Session error: x"),
        (Step::Handshake, "SSH handshake failed: x"),
        (Step::Auth, "Auth failed: x"),
        (Step::Channel, "SFTP failed: x"),
        (Step::OpenDir, "Open dir failed: x"),
        (Step::ReadDir, "Read dir failed: x"),
        (Step::RemoteOpen, "Open remote file failed: x"),
        (Step::LocalCreate, "Create local file failed: x"),
        (Step::RemoteRead, "Read remote file failed: x"),
        (Step::LocalWrite, "Write local file failed: x"),
        (Step::LocalOpen, "Open local file failed: x"),
        (Step::RemoteCreate, "Create remote file failed: x"),
        (Step::LocalRead, "Read local file failed: x"),
        (Step::RemoteWrite, "Write remote file failed: x"),
    ];
    for (step, expected) in cases {
        assert_eq!(message_of(step, "x"), expected);
    }
}

#[test]
fn the_cause_is_appended_verbatim() {
    assert_eq!(
        message_of(Step::Connect, "connection refused (os error 111)"),
        "TCP connect failed: connection refused (os error 111)"
    );
    assert_eq!(message_of(Step::Auth, ""), "Auth failed: ");
}
