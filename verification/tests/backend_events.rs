use beamish::backend::{join, reset_applies, Backend, Cmd, LibMessage, TransferState};

fn msg(state: TransferState) -> LibMessage {
    LibMessage {
        id: "t1".to_string(),
        to_front: true,
        state: Some(state),
        source_name: Some("Pixel 8".to_string()),
        pin_code: Some("1234".to_string()),
        files: Some(vec!["a.txt".to_string(), "b.png".to_string()]),
    }
}

#[test]
fn joins_file_names() {
    assert_eq!(join(&vec![], ", "), "");
    assert_eq!(join(&vec!["a".to_string()], ", "), "a");
    assert_eq!(join(&vec!["a".to_string(), "b".to_string(), "c".to_string()], ", "), "a, b, c");
}

#[test]
fn consent_request_shows_the_card() {
    let mut b = Backend::new();
    let r = b.on_message(&msg(TransferState::WaitingForUserConsent));
    assert!(r.show_receive);
    assert!(r.reply.is_none());
    assert_eq!(r.status.as_deref(), Some("Incoming from Pixel 8"));
    let card = r.incoming.unwrap().unwrap();
    assert_eq!(card.id, "t1");
    assert_eq!(card.name, "Pixel 8");
    assert_eq!(card.files, "a.txt, b.png");
    assert_eq!(card.pin, "1234");
    assert_eq!(b.generation, 1);
    // Not sending: the PIN is not shown on the Send view.
    assert!(r.send_pin.is_none());
}

#[test]
fn auto_accept_replies_at_once() {
    let mut b = Backend::new();
    b.on_command(Cmd::SetAutoAccept(true));
    assert!(b.auto_accept);
    let m = LibMessage { source_name: None, ..msg(TransferState::WaitingForUserConsent) };
    let r = b.on_message(&m);
    let reply = r.reply.unwrap();
    assert_eq!(reply.id, "t1");
    assert!(reply.accept);
    assert!(r.incoming.is_none());
    assert_eq!(r.status.as_deref(), Some("Auto-accepting from Unknown…"));
}

#[test]
fn receiving_and_sending_states() {
    let mut b = Backend::new();
    let r = b.on_message(&msg(TransferState::ReceivingFiles));
    assert!(r.show_receive);
    assert!(matches!(r.incoming, Some(None)));
    assert_eq!(r.status.as_deref(), Some("Receiving from Pixel 8…"));
    let r = b.on_message(&msg(TransferState::SendingFiles));
    assert!(!r.show_receive);
    assert_eq!(r.status.as_deref(), Some("Sending to Pixel 8…"));
    assert_eq!(b.generation, 2);
}

#[test]
fn foreign_and_other_messages() {
    let mut b = Backend::new();
    let before = b;
    let r = b.on_message(&LibMessage { to_front: false, ..msg(TransferState::Finished) });
    assert_eq!(b, before);
    assert!(r.status.is_none() && r.reset_token.is_none() && r.send_pin.is_none());
    let r = b.on_message(&msg(TransferState::Other));
    assert_eq!(b, before);
    assert!(r.status.is_none());
    let r = b.on_message(&LibMessage { state: None, ..msg(TransferState::Other) });
    assert!(r.status.is_none());
}

#[test]
fn send_pauses_discovery_and_end_resumes_it() {
    let mut b = Backend::new();
    let r = b.on_command(Cmd::StartDiscovery);
    assert_eq!(r.discovery, Some(true));
    assert_eq!(r.status.as_deref(), Some("Searching for nearby devices…"));
    // Starting again does nothing.
    let r = b.on_command(Cmd::StartDiscovery);
    assert_eq!(r.discovery, None);
    assert!(r.status.is_none());

    let r = b.on_command(Cmd::Send {
        id: "d".to_string(),
        name: "Phone".to_string(),
        addr: "1.2.3.4:5".to_string(),
        path: "/tmp/f".to_string(),
    });
    assert_eq!(r.discovery, Some(false));
    let s = r.send.unwrap();
    assert_eq!((s.id.as_str(), s.addr.as_str(), s.path.as_str()), ("d", "1.2.3.4:5", "/tmp/f"));
    assert!(b.is_sending && !b.discovery_active);

    // The PIN rides an intermediate state while sending.
    let r = b.on_message(&msg(TransferState::Other));
    assert_eq!(r.send_pin, Some(Some("1234".to_string())));

    let r = b.on_message(&msg(TransferState::Finished));
    assert_eq!(r.status.as_deref(), Some("✓ Transfer complete"));
    assert_eq!(r.send_pin, Some(None));
    assert!(r.clear_sending);
    assert_eq!(r.discovery, Some(true));
    assert!(b.discovery_active && !b.is_sending);
    assert_eq!(r.reset_token, Some(b.generation));
}

#[test]
fn end_of_transfer_off_the_send_tab_keeps_discovery_off() {
    let mut b = Backend::new();
    let r = b.on_message(&msg(TransferState::Rejected));
    assert_eq!(r.status.as_deref(), Some("Rejected"));
    assert_eq!(r.discovery, None);
    assert!(!b.discovery_active);
    let r = b.on_message(&msg(TransferState::Cancelled));
    assert_eq!(r.status.as_deref(), Some("Cancelled"));
    let g = b.generation;
    let r = b.on_message(&msg(TransferState::Disconnected));
    assert_eq!(r.status.as_deref(), Some("Ready"));
    assert_eq!(r.reset_token, None);
    assert_eq!(b.generation, g);
}

#[test]
fn stale_ready_reset_is_cancelled_by_new_activity() {
    let mut b = Backend::new();
    let token = b.on_message(&msg(TransferState::Finished)).reset_token.unwrap();
    assert!(reset_applies(b.generation, token));
    b.on_message(&msg(TransferState::WaitingForUserConsent));
    assert!(!reset_applies(b.generation, token));
}

#[test]
fn generation_wraps_like_an_atomic() {
    let mut b = Backend { generation: u64::MAX, ..Backend::new() };
    b.on_message(&msg(TransferState::SendingFiles));
    assert_eq!(b.generation, 0);
}

#[test]
fn commands_pass_through() {
    let mut b = Backend::new();
    let r = b.on_command(Cmd::Accept("t9".to_string()));
    assert!(r.reply.as_ref().map(|x| x.id == "t9" && x.accept).unwrap());
    let r = b.on_command(Cmd::Reject("t9".to_string()));
    assert!(r.reply.as_ref().map(|x| x.id == "t9" && !x.accept).unwrap());
    let r = b.on_command(Cmd::SetDownload("/home/u/In".to_string()));
    assert_eq!(r.download_path.as_deref(), Some("/home/u/In"));
    b.on_command(Cmd::StartDiscovery);
    let r = b.on_command(Cmd::StopDiscovery);
    assert_eq!(r.discovery, Some(false));
    assert!(!b.on_send_tab && !b.discovery_active);
    let r = b.on_command(Cmd::StopDiscovery);
    assert_eq!(r.discovery, None);
}
