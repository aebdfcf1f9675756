use beamish::backend::{Cmd, Incoming};
use beamish::devices::Device;
use beamish::text::{last_index_of, same_text, starts_with, suffix_after_last, trim};
use beamish::ui::{
    chip_click, consent_command, device_line, download_label, file_label, host_label, pin_label, status_hint,
    status_title, tab_command, toggle_auto_accept, ChipClick, Tab,
};

fn dev(id: &str, name: &str, bt: Option<&str>) -> Device {
    Device {
        id: id.to_string(),
        name: name.to_string(),
        addr: if bt.is_none() { "10.0.0.9:4000".to_string() } else { String::new() },
        bt_address: bt.map(|s| s.to_string()),
        psm: None,
    }
}

#[test]
fn text_primitives() {
    assert!(starts_with("Receiving from X", "Receiving"));
    assert!(!starts_with("Rec", "Receiving"));
    assert!(same_text("abc", "abc"));
    assert!(!same_text("abc", "abd"));
    assert_eq!(last_index_of("a/b/c", '/'), Some(3));
    assert_eq!(last_index_of("abc", '/'), None);
    assert_eq!(suffix_after_last("/home/u/pic.jpg", '/'), "pic.jpg");
    assert_eq!(suffix_after_last("dir/", '/'), "");
    assert_eq!(trim("\t host \n"), "host");
    assert_eq!(trim("\u{3000}名前\u{a0}"), "名前");
    assert_eq!(trim("   "), "");
}

#[test]
fn titles_follow_the_status() {
    assert_eq!(status_title("Receiving from Pixel…"), "Receiving files…");
    assert_eq!(status_title("Sending to Pixel…"), "Sending…");
    assert_eq!(status_title("✓ Transfer complete"), "Transfer complete");
    assert_eq!(status_title("Ready"), "Ready to receive");
    assert_eq!(status_title(""), "Ready to receive");
}

#[test]
fn hints_follow_the_status() {
    let idle = "Files shared from your phone land here.";
    assert_eq!(status_hint(""), idle);
    assert_eq!(status_hint("Ready — discoverable to nearby phones"), idle);
    assert_eq!(status_hint("Starting…"), idle);
    assert_eq!(status_hint("Incoming from Pixel"), "Incoming from Pixel");
}

#[test]
fn labels() {
    assert_eq!(file_label(Some("/home/u/Documents/report.pdf")), "report.pdf");
    assert_eq!(file_label(Some("notes.txt")), "notes.txt");
    assert_eq!(file_label(None), "no file chosen");
    assert_eq!(download_label(""), "~/Downloads");
    assert_eq!(download_label("/data/in"), "/data/in");
    assert_eq!(device_line("desk"), "desk · discoverable over Wi-Fi & Bluetooth");
    assert_eq!(host_label(Some("workstation\n")), "workstation");
    assert_eq!(host_label(Some(" \n")), "This computer");
    assert_eq!(host_label(None), "This computer");
}

#[test]
fn pin_labels_name_the_target() {
    let list = vec![dev("a", "Alpha", None), dev("b", "Beta", None), dev("b", "Beta2", None)];
    assert_eq!(pin_label(&list, Some("b"), true), "Confirm this code matches Beta");
    assert_eq!(pin_label(&list, Some("b"), false), "Connecting to Beta…");
    assert_eq!(pin_label(&list, Some("zz"), false), "Connecting to device…");
    assert_eq!(pin_label(&list, None, true), "Confirm this code matches device");
}

#[test]
fn clicking_a_device() {
    let wifi = dev("w1", "Pixel", None);
    let ble = dev("b1", "Galaxy", Some("AA:BB"));
    assert!(matches!(chip_click(None, &wifi), ChipClick::NoFile));
    match chip_click(Some("/tmp/x.png"), &ble) {
        ChipClick::BluetoothOnly { status } => assert_eq!(
            status,
            "Galaxy is visible over Bluetooth — direct send is coming soon. For now, open its Quick Share receive screen."
        ),
        _ => panic!("expected bluetooth-only"),
    }
    match chip_click(Some("/tmp/x.png"), &wifi) {
        ChipClick::Send { target, cmd: Cmd::Send { id, name, addr, path }, status } => {
            assert_eq!(target, "w1");
            assert_eq!((id.as_str(), name.as_str(), addr.as_str(), path.as_str()), ("w1", "Pixel", "10.0.0.9:4000", "/tmp/x.png"));
            assert_eq!(status, "Sending to Pixel…");
        }
        _ => panic!("expected a send"),
    }
}

#[test]
fn controls_send_commands() {
    assert!(matches!(tab_command(Tab::Send), Cmd::StartDiscovery));
    assert!(matches!(tab_command(Tab::Receive), Cmd::StopDiscovery));
    assert!(matches!(tab_command(Tab::Options), Cmd::StopDiscovery));
    let (v, c) = toggle_auto_accept(false);
    assert!(v);
    assert!(matches!(c, Cmd::SetAutoAccept(true)));
    let inc = Incoming { id: "t7".to_string(), name: "P".to_string(), files: String::new(), pin: "0000".to_string() };
    assert!(matches!(consent_command(Some(&inc), true), Some(Cmd::Accept(ref i)) if i == "t7"));
    assert!(matches!(consent_command(Some(&inc), false), Some(Cmd::Reject(ref i)) if i == "t7"));
    assert!(consent_command(None, true).is_none());
}
