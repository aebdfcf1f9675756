//! What the window shows and which command each control sends.
use vstd::prelude::*;

use crate::backend::{Cmd, CmdView, Incoming};
use crate::devices::Device;
use crate::text::{after_last, is_trim_of, same_text, starts_with, suffix_after_last, trim};

verus! {

/// The tabs of the bottom navigation.
#[derive(PartialEq, Eq, Structural, Clone, Copy, Debug)]
pub enum Tab {
    Receive,
    Send,
    Options,
}

/// The headline of the Receive view for a status line.
pub open spec fn spec_status_title(status: Seq<char>) -> Seq<char> {
    if "Receiving"@.is_prefix_of(status) {
        "Receiving files…"@
    } else if "Sending"@.is_prefix_of(status) {
        "Sending…"@
    } else if "✓"@.is_prefix_of(status) {
        "Transfer complete"@
    } else {
        "Ready to receive"@
    }
}

/// The hint under the headline: the status line itself, unless it is empty or
/// just says the app is ready or starting.
pub open spec fn spec_status_hint(status: Seq<char>) -> Seq<char> {
    if status.len() == 0 || "Ready"@.is_prefix_of(status) || "Starting"@.is_prefix_of(status) {
        "Files shared from your phone land here."@
    } else {
        status
    }
}

/// The label next to "Choose file…": the chosen file's last path component.
pub open spec fn spec_file_label(selected: Option<Seq<char>>) -> Seq<char> {
    match selected {
        Some(p) => after_last(p, '/'),
        None => "no file chosen"@,
    }
}

/// The download folder line of the Options view.
pub open spec fn spec_download_label(path: Seq<char>) -> Seq<char> {
    if path.len() == 0 {
        "~/Downloads"@
    } else {
        path
    }
}

/// The Options view's line about this device.
pub open spec fn spec_device_line(name: Seq<char>) -> Seq<char> {
    name + " · discoverable over Wi-Fi & Bluetooth"@
}

/// The computer's display name, from the contents of its hostname file: the
/// trimmed contents unless they are missing or blank.
pub open spec fn spec_host_label_ok(contents: Option<Seq<char>>, label: Seq<char>) -> bool {
    match contents {
        Some(c) => if exists|t: Seq<char>| is_trim_of(t, c) && t.len() > 0 {
            is_trim_of(label, c) && label.len() > 0
        } else {
            label == "This computer"@
        },
        None => label == "This computer"@,
    }
}

/// The name of the device a send goes to: the first listed device with that id,
/// or "device" when none is listed.
pub open spec fn spec_target_name(devices: Seq<Device>, id: Seq<char>) -> Seq<char> {
    if exists|i: int| 0 <= i < devices.len() && devices[i].id@ == id {
        let i = choose|i: int|
            0 <= i < devices.len() && devices[i].id@ == id && forall|j: int| 0 <= j < i ==> devices[j].id@ != id;
        devices[i].name@
    } else {
        "device"@
    }
}

/// The label above the outbound PIN.
pub open spec fn spec_pin_label(name: Seq<char>, has_pin: bool) -> Seq<char> {
    if has_pin {
        "Confirm this code matches "@ + name
    } else {
        "Connecting to "@ + name + "…"@
    }
}

/// The status shown when a Bluetooth-only device is picked.
pub open spec fn bluetooth_only_status(name: Seq<char>) -> Seq<char> {
    name
        + " is visible over Bluetooth — direct send is coming soon. For now, open its Quick Share receive screen."@
}

/// The command a bottom-navigation tab sends: only the Send view runs discovery.
pub open spec fn spec_tab_command(v: Tab) -> CmdView {
    match v {
        Tab::Send => CmdView::StartDiscovery,
        _ => CmdView::StopDiscovery,
    }
}

fn concat2(a: &str, b: &str) -> (s: String)
    ensures
        s@ == a@ + b@,
{
    let mut s = String::from_str(a);
    s.append(b);
    s
}

/// The Receive view's headline for a status line.
pub fn status_title(status: &str) -> (t: String)
    ensures
        t@ == spec_status_title(status@),
{
    if starts_with(status, "Receiving") {
        String::from_str("Receiving files…")
    } else if starts_with(status, "Sending") {
        String::from_str("Sending…")
    } else if starts_with(status, "✓") {
        String::from_str("Transfer complete")
    } else {
        String::from_str("Ready to receive")
    }
}

/// The Receive view's hint for a status line.
pub fn status_hint(status: &str) -> (h: String)
    ensures
        h@ == spec_status_hint(status@),
{
    if status.unicode_len() == 0 || starts_with(status, "Ready") || starts_with(status, "Starting") {
        String::from_str("Files shared from your phone land here.")
    } else {
        String::from_str(status)
    }
}

/// The label for the chosen file.
pub fn file_label(selected: Option<&str>) -> (l: String)
    ensures
        l@ == spec_file_label(
            match selected {
                Some(p) => Some(p@),
                None => None,
            },
        ),
{
    match selected {
        Some(p) => String::from_str(suffix_after_last(p, '/')),
        None => String::from_str("no file chosen"),
    }
}

/// The download folder label.
pub fn download_label(path: &str) -> (l: String)
    ensures
        l@ == spec_download_label(path@),
{
    if path.unicode_len() == 0 {
        String::from_str("~/Downloads")
    } else {
        String::from_str(path)
    }
}

/// The Options view's line about this device.
pub fn device_line(name: &str) -> (l: String)
    ensures
        l@ == spec_device_line(name@),
{
    concat2(name, " · discoverable over Wi-Fi & Bluetooth")
}

/// This computer's display name from the contents of its hostname file, if it
/// could be read.
pub fn host_label(contents: Option<&str>) -> (l: String)
    ensures
        spec_host_label_ok(
            match contents {
                Some(c) => Some(c@),
                None => None,
            },
            l@,
        ),
{
    match contents {
        Some(c) => {
            let t = trim(c);
            if t.unicode_len() > 0 {
                String::from_str(t)
            } else {
                assert forall|u: Seq<char>| is_trim_of(u, c@) implies u.len() == 0 by {
                    lemma_trim_unique(u, t@, c@);
                }
                String::from_str("This computer")
            }
        },
        None => String::from_str("This computer"),
    }
}

/// A string has only one trimmed form.
pub proof fn lemma_trim_unique(a: Seq<char>, b: Seq<char>, s: Seq<char>)
    requires
        is_trim_of(a, s),
        is_trim_of(b, s),
    ensures
        a == b,
{
    let (lo1, hi1) = choose|lo: int, hi: int|
        {
            &&& 0 <= lo <= hi <= s.len()
            &&& a == s.subrange(lo, hi)
            &&& forall|k: int| 0 <= k < lo ==> crate::text::is_white_space(#[trigger] s[k])
            &&& forall|k: int| hi <= k < s.len() ==> crate::text::is_white_space(#[trigger] s[k])
            &&& lo < hi ==> !crate::text::is_white_space(s[lo]) && !crate::text::is_white_space(s[hi - 1])
        };
    let (lo2, hi2) = choose|lo: int, hi: int|
        {
            &&& 0 <= lo <= hi <= s.len()
            &&& b == s.subrange(lo, hi)
            &&& forall|k: int| 0 <= k < lo ==> crate::text::is_white_space(#[trigger] s[k])
            &&& forall|k: int| hi <= k < s.len() ==> crate::text::is_white_space(#[trigger] s[k])
            &&& lo < hi ==> !crate::text::is_white_space(s[lo]) && !crate::text::is_white_space(s[hi - 1])
        };
    if lo1 < hi1 && lo2 < hi2 {
        if lo1 < lo2 {
            assert(crate::text::is_white_space(s[lo1]));
        }
        if lo2 < lo1 {
            assert(crate::text::is_white_space(s[lo2]));
        }
        if hi1 < hi2 {
            assert(crate::text::is_white_space(s[hi2 - 1]));
        }
        if hi2 < hi1 {
            assert(crate::text::is_white_space(s[hi1 - 1]));
        }
        assert(a =~= b);
    } else if lo1 < hi1 {
        assert(lo2 == hi2);
        if lo1 < lo2 {
            assert(crate::text::is_white_space(s[lo1]));
        } else {
            assert(crate::text::is_white_space(s[lo1]));
        }
    } else if lo2 < hi2 {
        if lo2 < lo1 {
            assert(crate::text::is_white_space(s[lo2]));
        } else {
            assert(crate::text::is_white_space(s[lo2]));
        }
    } else {
        assert(a =~= b);
    }
}

/// The position of the first device whose id is `id`.
fn find_device(devices: &Vec<Device>, id: &str) -> (r: Option<usize>)
    ensures
        match r {
            Some(k) => k < devices@.len() && devices@[k as int].id@ == id@ && forall|j: int|
                0 <= j < k ==> devices@[j].id@ != id@,
            None => forall|j: int| 0 <= j < devices@.len() ==> devices@[j].id@ != id@,
        },
{
    let n = devices.len();
    let mut i: usize = 0;
    while i < n
        invariant
            n == devices@.len(),
            i <= n,
            forall|j: int| 0 <= j < i ==> devices@[j].id@ != id@,
        decreases n - i,
    {
        if same_text(devices[i].id.as_str(), id) {
            return Some(i);
        }
        i = i + 1;
    }
    None
}

/// The label above the outbound PIN while a send to `sending_id` is under way
/// (an unset id is looked up as the empty id).
pub fn pin_label(devices: &Vec<Device>, sending_id: Option<&str>, has_pin: bool) -> (l: String)
    ensures
        l@ == spec_pin_label(
            spec_target_name(
                devices@,
                match sending_id {
                    Some(s) => s@,
                    None => Seq::empty(),
                },
            ),
            has_pin,
        ),
{
    let sid: &str = match sending_id {
        Some(s) => s,
        None => {
            proof {
                reveal_strlit("");
            }
            ""
        },
    };
    assert(sid@ == (match sending_id {
        Some(s) => s@,
        None => Seq::<char>::empty(),
    }));
    let found = find_device(devices, sid);
    let name: String = match found {
        Some(k) => {
            let ghost d = devices@;
            let ghost w = choose|w: int|
                0 <= w < d.len() && d[w].id@ == sid@ && forall|j: int| 0 <= j < w ==> d[j].id@ != sid@;
            assert(w == k as int) by {
                if w < k as int {
                    assert(d[w].id@ != sid@);
                }
                if w > k as int {
                    assert(d[k as int].id@ != sid@);
                }
            }
            devices[k].name.clone()
        },
        None => {
            assert(!exists|i: int| 0 <= i < devices@.len() && devices@[i].id@ == sid@);
            String::from_str("device")
        },
    };
    assert(name@ == spec_target_name(devices@, sid@));
    if has_pin {
        concat2("Confirm this code matches ", name.as_str())
    } else {
        let mut s = concat2("Connecting to ", name.as_str());
        s.append("…");
        s
    }
}

/// What clicking a nearby device does.
pub enum ChipClick {
    /// No file is chosen: nothing happens.
    NoFile,
    /// The device was only found over Bluetooth, which cannot be sent to yet.
    BluetoothOnly { status: String },
    /// Send the chosen file: remember the target, clear the PIN, send the command
    /// and show the status.
    Send { target: String, cmd: Cmd, status: String },
}

/// What clicking the device `d` does when `selected_file` is the chosen file.
pub fn chip_click(selected_file: Option<&str>, d: &Device) -> (c: ChipClick)
    ensures
        match c {
            ChipClick::NoFile => selected_file is None,
            ChipClick::BluetoothOnly { status } => selected_file is Some && d.bt_address is Some
                && status@ == bluetooth_only_status(d.name@),
            ChipClick::Send { target, cmd, status } => {
                &&& d.bt_address is None
                &&& target@ == d.id@
                &&& status@ == "Sending to "@ + d.name@ + "…"@
                &&& match selected_file {
                    Some(f) => cmd@ == (CmdView::Send { id: d.id@, name: d.name@, addr: d.addr@, path: f@ }),
                    None => false,
                }
            },
        },
{
    match selected_file {
        None => ChipClick::NoFile,
        Some(f) => {
            if d.bt_address.is_some() {
                ChipClick::BluetoothOnly {
                    status: concat2(
                        d.name.as_str(),
                        " is visible over Bluetooth — direct send is coming soon. For now, open its Quick Share receive screen.",
                    ),
                }
            } else {
                let mut status = concat2("Sending to ", d.name.as_str());
                status.append("…");
                ChipClick::Send {
                    target: d.id.clone(),
                    cmd: Cmd::Send {
                        id: d.id.clone(),
                        name: d.name.clone(),
                        addr: d.addr.clone(),
                        path: String::from_str(f),
                    },
                    status,
                }
            }
        },
    }
}

/// The command a bottom-navigation tab sends when clicked.
pub fn tab_command(v: Tab) -> (c: Cmd)
    ensures
        c@ == spec_tab_command(v),
{
    match v {
        Tab::Send => Cmd::StartDiscovery,
        _ => Cmd::StopDiscovery,
    }
}

/// Flipping the auto-accept checkbox: its new value, and the command telling
/// the backend.
pub fn toggle_auto_accept(current: bool) -> (r: (bool, Cmd))
    ensures
        r.0 == !current,
        r.1@ == CmdView::SetAutoAccept(!current),
{
    let nv = !current;
    (nv, Cmd::SetAutoAccept(nv))
}

/// The command the consent card's Accept (`accept`) or Decline button sends:
/// none when no transfer is waiting.
pub fn consent_command(incoming: Option<&Incoming>, accept: bool) -> (c: Option<Cmd>)
    ensures
        match incoming {
            Some(i) => c matches Some(cmd) && cmd@ == (if accept {
                CmdView::Accept(i.id@)
            } else {
                CmdView::Reject(i.id@)
            }),
            None => c is None,
        },
{
    match incoming {
        Some(i) => if accept {
            Some(Cmd::Accept(i.id.clone()))
        } else {
            Some(Cmd::Reject(i.id.clone()))
        },
        None => None,
    }
}

} // verus!

verus! {

/// The Receive view's headline follows the status line's beginning: "Receiving…"
/// for a status beginning with "Receiving", "Sending…" for one beginning with
/// "Sending", "Transfer complete" for one beginning with "✓", and "Ready to
/// receive" for every other status.
pub proof fn law_status_title(s: Seq<char>)
    ensures
        "Receiving"@.is_prefix_of(s) ==> spec_status_title(s) == "Receiving files…"@,
        "Sending"@.is_prefix_of(s) ==> spec_status_title(s) == "Sending…"@,
        "✓"@.is_prefix_of(s) ==> spec_status_title(s) == "Transfer complete"@,
        !"Receiving"@.is_prefix_of(s) && !"Sending"@.is_prefix_of(s) && !"✓"@.is_prefix_of(s)
            ==> spec_status_title(s) == "Ready to receive"@,
{
    reveal_strlit("Receiving");
    reveal_strlit("Sending");
    reveal_strlit("✓");
    if "Sending"@.is_prefix_of(s) {
        assert(s[0] == "Sending"@[0]);
        assert(!"Receiving"@.is_prefix_of(s)) by {
            if "Receiving"@.is_prefix_of(s) {
                assert(s[0] == "Receiving"@[0]);
            }
        }
    }
    if "✓"@.is_prefix_of(s) {
        assert(s[0] == "✓"@[0]);
        assert(!"Receiving"@.is_prefix_of(s)) by {
            if "Receiving"@.is_prefix_of(s) {
                assert(s[0] == "Receiving"@[0]);
            }
        }
        assert(!"Sending"@.is_prefix_of(s)) by {
            if "Sending"@.is_prefix_of(s) {
                assert(s[0] == "Sending"@[0]);
            }
        }
    }
}

/// The PIN label names the first listed device with the sending id, wherever it
/// stands in the list, and says "device" only when no listed device has that id.
pub proof fn law_target_name(devices: Seq<Device>, id: Seq<char>, i: int)
    ensures
        (0 <= i < devices.len() && devices[i].id@ == id && forall|j: int| 0 <= j < i ==> devices[j].id@ != id)
            ==> spec_target_name(devices, id) == devices[i].name@,
        (forall|j: int| 0 <= j < devices.len() ==> devices[j].id@ != id) ==> spec_target_name(devices, id)
            == "device"@,
{
    if 0 <= i < devices.len() && devices[i].id@ == id && forall|j: int| 0 <= j < i ==> devices[j].id@ != id {
        let k = choose|k: int|
            0 <= k < devices.len() && devices[k].id@ == id && forall|j: int| 0 <= j < k ==> devices[j].id@ != id;
        if k < i {
            assert(devices[k].id@ != id);
        }
        if i < k {
            assert(devices[i].id@ != id);
        }
    }
}

} // verus!
