use beamish::vif::{arg, parse_request, valid_ap, valid_sta, HelperRequest, HelperRun, HelperStep, Stage};

fn args(v: &[&str]) -> Vec<String> {
    v.iter().map(|s| s.to_string()).collect()
}

fn run_cmd(step: &HelperStep) -> Option<(String, Vec<String>)> {
    match step {
        HelperStep::Run(c) => Some((c.program.clone(), c.args.clone())),
        _ => None,
    }
}

#[test]
fn ap_names_are_ap_and_one_or_two_digits() {
    assert!(valid_ap("ap0"));
    assert!(valid_ap("ap7"));
    assert!(valid_ap("ap42"));
    assert!(!valid_ap("ap"));
    assert!(!valid_ap("ap123"));
    assert!(!valid_ap("apx"));
    assert!(!valid_ap("ap1x"));
    assert!(!valid_ap("Ap1"));
    assert!(!valid_ap("wlan0"));
    assert!(!valid_ap(""));
    assert!(!valid_ap("ap\u{0661}"));
}

#[test]
fn sta_names_are_short_alphanumeric_and_not_ap() {
    assert!(valid_sta("wlan0"));
    assert!(valid_sta("wlp2s0"));
    assert!(valid_sta("abcdefghijklmno"));
    assert!(!valid_sta("abcdefghijklmnop"));
    assert!(!valid_sta(""));
    assert!(!valid_sta("ap1"));
    assert!(!valid_sta("ap12"));
    assert!(valid_sta("ap123"));
    assert!(!valid_sta("wlan-0"));
    assert!(!valid_sta("wl an0"));
    assert!(!valid_sta("wlän0"));
}

#[test]
fn missing_argument_gives_usage() {
    let a = args(&["beamish-vif-helper", "del"]);
    assert_eq!(arg(&a, 1, "del <ap>"), Ok("del"));
    assert_eq!(arg(&a, 2, "del <ap>"), Err("usage: beamish-vif-helper del <ap>".to_string()));
}

#[test]
fn parses_add_and_del() {
    match parse_request(&args(&["h", "add", "wlan0", "ap1"])) {
        Ok(HelperRequest::Add { sta, ap }) => {
            assert_eq!(sta, "wlan0");
            assert_eq!(ap, "ap1");
        }
        _ => panic!("expected add"),
    }
    match parse_request(&args(&["h", "del", "ap3"])) {
        Ok(HelperRequest::Del { ap }) => assert_eq!(ap, "ap3"),
        _ => panic!("expected del"),
    }
}

fn refusal(a: &[&str]) -> String {
    match parse_request(&args(a)) {
        Err(m) => m,
        Ok(_) => panic!("expected a refusal"),
    }
}

#[test]
fn refuses_bad_command_lines() {
    assert_eq!(refusal(&["h"]), "usage: beamish-vif-helper add <sta> <ap> | del <ap>");
    assert_eq!(refusal(&["h", "up", "ap1"]), "usage: beamish-vif-helper add <sta> <ap> | del <ap>");
    assert_eq!(refusal(&["h", "add", "wlan0"]), "usage: beamish-vif-helper add <sta> <ap>");
    assert_eq!(refusal(&["h", "del"]), "usage: beamish-vif-helper del <ap>");
    assert_eq!(
        refusal(&["h", "add", "ap2", "ap1"]),
        "refusing: 'ap2' is not a valid STA interface name"
    );
    assert_eq!(refusal(&["h", "add", "wlan0", "wlan1"]), "refusing: 'wlan1' is not an apN interface name");
    assert_eq!(refusal(&["h", "del", "wlan0"]), "refusing: 'wlan0' is not an apN interface name");
    // The station is checked before the vif.
    assert_eq!(
        refusal(&["h", "add", "bad-sta", "bad-ap"]),
        "refusing: 'bad-sta' is not a valid STA interface name"
    );
}

fn add_run() -> HelperRun {
    HelperRun::new(HelperRequest::Add { sta: "wlan0".to_string(), ap: "ap0".to_string() })
}

fn cmd(p: &str, a: &[&str]) -> Option<(String, Vec<String>)> {
    Some((p.to_string(), args(a)))
}

#[test]
fn add_runs_stale_delete_add_and_up() {
    let mut r = add_run();
    assert_eq!(run_cmd(&r.advance(true)), cmd("iw", &["dev", "ap0", "del"]));
    // The stale delete's result is ignored.
    assert_eq!(
        run_cmd(&r.advance(false)),
        cmd("iw", &["dev", "wlan0", "interface", "add", "ap0", "type", "__ap"])
    );
    assert_eq!(run_cmd(&r.advance(true)), cmd("ip", &["link", "set", "ap0", "up"]));
    assert!(matches!(r.advance(true), HelperStep::Done));
    assert_eq!(r.stage, Stage::Finished);
    assert!(matches!(r.advance(true), HelperStep::Done));
}

#[test]
fn add_fails_when_interface_add_fails() {
    let mut r = add_run();
    r.advance(true);
    r.advance(true);
    match r.advance(false) {
        HelperStep::Fail(m) => assert_eq!(m, "iw interface add failed"),
        _ => panic!("expected failure"),
    }
}

#[test]
fn failed_link_up_is_rolled_back() {
    let mut r = add_run();
    r.advance(true);
    r.advance(true);
    r.advance(true);
    assert_eq!(run_cmd(&r.advance(false)), cmd("iw", &["dev", "ap0", "del"]));
    match r.advance(true) {
        HelperStep::Fail(m) => assert_eq!(m, "ip link set up failed"),
        _ => panic!("expected failure"),
    }
}

#[test]
fn del_runs_one_delete() {
    let mut r = HelperRun::new(HelperRequest::Del { ap: "ap5".to_string() });
    assert_eq!(run_cmd(&r.advance(true)), cmd("iw", &["dev", "ap5", "del"]));
    assert!(matches!(r.advance(true), HelperStep::Done));

    let mut r = HelperRun::new(HelperRequest::Del { ap: "ap5".to_string() });
    r.advance(true);
    match r.advance(false) {
        HelperStep::Fail(m) => assert_eq!(m, "iw dev del failed"),
        _ => panic!("expected failure"),
    }
}

#[test]
fn every_command_targets_only_the_vif() {
    for outcomes in 0u32..16 {
        let mut r = add_run();
        let mut ok = true;
        let mut n = 0;
        loop {
            match r.advance(ok) {
                HelperStep::Run(c) => {
                    n += 1;
                    let a: Vec<&str> = c.args.iter().map(|s| s.as_str()).collect();
                    let allowed = a == ["dev", "ap0", "del"]
                        || a == ["link", "set", "ap0", "up"]
                        || a == ["dev", "wlan0", "interface", "add", "ap0", "type", "__ap"];
                    assert!(allowed, "unexpected command {:?}", a);
                }
                _ => break,
            }
            ok = outcomes & (1 << n) != 0;
        }
        assert!(n <= 4);
    }
}
