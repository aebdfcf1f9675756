//! The privileged virtual-interface helper: which names it accepts, how it reads
//! its arguments, and the exact sequence of `iw`/`ip` commands it runs.
//!
//! The helper runs as root, so it only ever creates or deletes an `apN` vif
//! (`ap` followed by one or two ASCII digits) and never touches the station
//! interface except as the parent of `interface add`.
use vstd::prelude::*;

use crate::text::{ascii_alphanumeric, ascii_digit, is_ascii_alphanumeric, is_ascii_digit, same_text};

verus! {

/// The name is `ap` followed by one or two ASCII digits.
pub open spec fn spec_valid_ap(s: Seq<char>) -> bool {
    &&& 3 <= s.len() <= 4
    &&& s[0] == 'a'
    &&& s[1] == 'p'
    &&& forall|i: int| 2 <= i < s.len() ==> is_ascii_digit(#[trigger] s[i])
}

/// The name is a plausible Wi-Fi station interface: 1 to 15 ASCII letters and
/// digits, and not itself an `apN` name.
pub open spec fn spec_valid_sta(s: Seq<char>) -> bool {
    &&& 0 < s.len() <= 15
    &&& forall|i: int| 0 <= i < s.len() ==> is_ascii_alphanumeric(#[trigger] s[i])
    &&& !spec_valid_ap(s)
}

/// Whether `name` is an `apN` vif name the helper may manage.
pub fn valid_ap(name: &str) -> (ok: bool)
    ensures
        ok == spec_valid_ap(name@),
{
    let n = name.unicode_len();
    if n < 3 || n > 4 {
        return false;
    }
    if name.get_char(0) != 'a' || name.get_char(1) != 'p' {
        return false;
    }
    let mut i: usize = 2;
    while i < n
        invariant
            n == name@.len(),
            2 <= i <= n,
            forall|j: int| 2 <= j < i ==> is_ascii_digit(#[trigger] name@[j]),
        decreases n - i,
    {
        if !ascii_digit(name.get_char(i)) {
            return false;
        }
        i = i + 1;
    }
    true
}

/// Whether `name` is a station interface the helper may add a vif onto.
pub fn valid_sta(name: &str) -> (ok: bool)
    ensures
        ok == spec_valid_sta(name@),
{
    let n = name.unicode_len();
    if n == 0 || n > 15 {
        return false;
    }
    let mut i: usize = 0;
    while i < n
        invariant
            n == name@.len(),
            i <= n,
            forall|j: int| 0 <= j < i ==> is_ascii_alphanumeric(#[trigger] name@[j]),
        decreases n - i,
    {
        if !ascii_alphanumeric(name.get_char(i)) {
            return false;
        }
        i = i + 1;
    }
    !valid_ap(name)
}

/// The message for a missing positional argument.
pub open spec fn usage_message(usage: Seq<char>) -> Seq<char> {
    "usage: beamish-vif-helper "@ + usage
}

/// Positional argument `i`, or the usage message built from `usage` when there
/// are not enough arguments.
pub fn arg<'a>(args: &'a [String], i: usize, usage: &str) -> (r: Result<&'a str, String>)
    ensures
        match r {
            Ok(a) => i < args@.len() && a@ == args@[i as int]@,
            Err(m) => i >= args@.len() && m@ == usage_message(usage@),
        },
{
    if i < args.len() {
        Ok(args[i].as_str())
    } else {
        let mut m = String::from_str("usage: beamish-vif-helper ");
        m.append(usage);
        Err(m)
    }
}

/// What the helper was asked to do, with both names already validated.
pub enum HelperRequest {
    /// Create `ap` on the station `sta` and bring it up.
    Add { sta: String, ap: String },
    /// Delete `ap`.
    Del { ap: String },
}

impl HelperRequest {
    /// The vif this request creates or deletes.
    pub open spec fn ap(&self) -> Seq<char> {
        match self {
            HelperRequest::Add { ap, .. } => ap@,
            HelperRequest::Del { ap } => ap@,
        }
    }

    /// Both names satisfy the helper's validation rules.
    pub open spec fn wf(&self) -> bool {
        match self {
            HelperRequest::Add { sta, ap } => spec_valid_sta(sta@) && spec_valid_ap(ap@),
            HelperRequest::Del { ap } => spec_valid_ap(ap@),
        }
    }
}

/// The overall usage line, printed for an unknown or missing subcommand.
pub open spec fn helper_usage() -> Seq<char> {
    "usage: beamish-vif-helper add <sta> <ap> | del <ap>"@
}

/// The refusal for a station name that fails `valid_sta`.
pub open spec fn bad_sta_message(sta: Seq<char>) -> Seq<char> {
    "refusing: '"@ + sta + "' is not a valid STA interface name"@
}

/// The refusal for a vif name that fails `valid_ap`.
pub open spec fn bad_ap_message(ap: Seq<char>) -> Seq<char> {
    "refusing: '"@ + ap + "' is not an apN interface name"@
}

/// What the helper's command line asks for, or the message it dies with.
pub open spec fn spec_parse_request(args: Seq<Seq<char>>) -> Result<(Seq<char>, Seq<char>, bool), Seq<char>> {
    if args.len() >= 2 && args[1] == "add"@ {
        if args.len() < 4 {
            Err(usage_message("add <sta> <ap>"@))
        } else if !spec_valid_sta(args[2]) {
            Err(bad_sta_message(args[2]))
        } else if !spec_valid_ap(args[3]) {
            Err(bad_ap_message(args[3]))
        } else {
            Ok((args[2], args[3], true))
        }
    } else if args.len() >= 2 && args[1] == "del"@ {
        if args.len() < 3 {
            Err(usage_message("del <ap>"@))
        } else if !spec_valid_ap(args[2]) {
            Err(bad_ap_message(args[2]))
        } else {
            Ok((Seq::empty(), args[2], false))
        }
    } else {
        Err(helper_usage())
    }
}

/// The views of a list of command-line arguments.
pub open spec fn arg_views(args: Seq<String>) -> Seq<Seq<char>> {
    args.map_values(|a: String| a@)
}

/// The abstract form of a request: (station, vif, whether it is an `add`).
pub open spec fn request_view(r: HelperRequest) -> (Seq<char>, Seq<char>, bool) {
    match r {
        HelperRequest::Add { sta, ap } => (sta@, ap@, true),
        HelperRequest::Del { ap } => (Seq::empty(), ap@, false),
    }
}

fn refusal(prefix: &str, name: &str, suffix: &str) -> (m: String)
    ensures
        m@ == prefix@ + name@ + suffix@,
{
    let mut m = String::from_str(prefix);
    m.append(name);
    m.append(suffix);
    m
}

/// Reads the helper's command line (`args[0]` is the program name): the
/// validated request, or the message the helper dies with.
pub fn parse_request(args: &[String]) -> (r: Result<HelperRequest, String>)
    ensures
        match (r, spec_parse_request(arg_views(args@))) {
            (Ok(req), Ok(v)) => req.wf() && request_view(req) == v,
            (Err(m), Err(v)) => m@ == v,
            _ => false,
        },
{
    if args.len() >= 2 && same_text(args[1].as_str(), "add") {
        let sta = match arg(args, 2, "add <sta> <ap>") {
            Ok(a) => a,
            Err(m) => return Err(m),
        };
        let ap = match arg(args, 3, "add <sta> <ap>") {
            Ok(a) => a,
            Err(m) => return Err(m),
        };
        if !valid_sta(sta) {
            return Err(refusal("refusing: '", sta, "' is not a valid STA interface name"));
        }
        if !valid_ap(ap) {
            return Err(refusal("refusing: '", ap, "' is not an apN interface name"));
        }
        Ok(HelperRequest::Add { sta: String::from_str(sta), ap: String::from_str(ap) })
    } else if args.len() >= 2 && same_text(args[1].as_str(), "del") {
        let ap = match arg(args, 2, "del <ap>") {
            Ok(a) => a,
            Err(m) => return Err(m),
        };
        if !valid_ap(ap) {
            return Err(refusal("refusing: '", ap, "' is not an apN interface name"));
        }
        Ok(HelperRequest::Del { ap: String::from_str(ap) })
    } else {
        Err(String::from_str("usage: beamish-vif-helper add <sta> <ap> | del <ap>"))
    }
}

} // verus!

verus! {

/// One command the helper runs directly (never through a shell).
pub struct Command {
    pub program: String,
    pub args: Vec<String>,
}

/// How far the helper has got: which command it issued last.
#[derive(PartialEq, Eq, Structural, Clone, Copy, Debug)]
pub enum Stage {
    Start,
    StaleDeleteSent,
    VifAddSent,
    LinkUpSent,
    RollbackSent,
    VifDeleteSent,
    Finished,
}

/// What the helper does next.
pub enum HelperStep {
    /// Run this command and report whether it exited with status 0.
    Run(Command),
    /// Stop with this message and a failure exit status.
    Fail(String),
    /// Stop successfully.
    Done,
}

/// `iw dev <ap> del`
pub open spec fn delete_vif(ap: Seq<char>) -> (Seq<char>, Seq<Seq<char>>) {
    ("iw"@, seq!["dev"@, ap, "del"@])
}

/// `iw dev <sta> interface add <ap> type __ap`
pub open spec fn add_vif(sta: Seq<char>, ap: Seq<char>) -> (Seq<char>, Seq<Seq<char>>) {
    ("iw"@, seq!["dev"@, sta, "interface"@, "add"@, ap, "type"@, "__ap"@])
}

/// `ip link set <ap> up`
pub open spec fn raise_vif(ap: Seq<char>) -> (Seq<char>, Seq<Seq<char>>) {
    ("ip"@, seq!["link"@, "set"@, ap, "up"@])
}

/// The stage after the command issued at `stage` reported `ok`.
pub open spec fn next_stage(is_add: bool, stage: Stage, ok: bool) -> Stage {
    match stage {
        Stage::Start => if is_add { Stage::StaleDeleteSent } else { Stage::VifDeleteSent },
        Stage::StaleDeleteSent => Stage::VifAddSent,
        Stage::VifAddSent => if ok { Stage::LinkUpSent } else { Stage::Finished },
        Stage::LinkUpSent => if ok { Stage::Finished } else { Stage::RollbackSent },
        Stage::RollbackSent => Stage::Finished,
        Stage::VifDeleteSent => Stage::Finished,
        Stage::Finished => Stage::Finished,
    }
}

/// The command issued on entering `stage`, if it issues one.
pub open spec fn command_of(stage: Stage, sta: Seq<char>, ap: Seq<char>) -> Option<(Seq<char>, Seq<Seq<char>>)> {
    match stage {
        Stage::StaleDeleteSent => Some(delete_vif(ap)),
        Stage::VifAddSent => Some(add_vif(sta, ap)),
        Stage::LinkUpSent => Some(raise_vif(ap)),
        Stage::RollbackSent => Some(delete_vif(ap)),
        Stage::VifDeleteSent => Some(delete_vif(ap)),
        _ => None,
    }
}

/// The message the helper fails with when it stops after `stage` reported `ok`.
pub open spec fn failure_of(stage: Stage, ok: bool) -> Option<Seq<char>> {
    match stage {
        Stage::VifAddSent => if ok { None } else { Some("iw interface add failed"@) },
        Stage::RollbackSent => Some("ip link set up failed"@),
        Stage::VifDeleteSent => if ok { None } else { Some("iw dev del failed"@) },
        _ => None,
    }
}

/// An upper bound on the advances left before the run is finished.
pub open spec fn steps_left(is_add: bool, stage: Stage) -> nat {
    match stage {
        Stage::Start => if is_add { 5 } else { 2 },
        Stage::StaleDeleteSent => 4,
        Stage::VifAddSent => 3,
        Stage::LinkUpSent => 2,
        Stage::RollbackSent => 1,
        Stage::VifDeleteSent => 1,
        Stage::Finished => 0,
    }
}

/// The stages a run of an `add` (or of a `del`) can be in.
pub open spec fn reachable(is_add: bool, stage: Stage) -> bool {
    if is_add {
        stage != Stage::VifDeleteSent
    } else {
        stage == Stage::Start || stage == Stage::VifDeleteSent || stage == Stage::Finished
    }
}

/// A run of the helper for one validated request.
pub struct HelperRun {
    pub request: HelperRequest,
    pub stage: Stage,
}

impl HelperRun {
    /// The request is validated and the stage is one its run can reach.
    pub open spec fn wf(&self) -> bool {
        self.request.wf() && reachable(request_view(self.request).2, self.stage)
    }

    /// A run that has not issued anything yet.
    pub fn new(request: HelperRequest) -> (r: HelperRun)
        ensures
            r.request == request,
            r.stage == Stage::Start,
            request.wf() ==> r.wf(),
    {
        HelperRun { request, stage: Stage::Start }
    }

    /// The next step, given whether the command issued last exited with status 0
    /// (ignored on the first call, and for the stale-vif delete and the rollback).
    pub fn advance(&mut self, last_ok: bool) -> (step: HelperStep)
        ensures
            final(self).request == old(self).request,
            old(self).wf() ==> final(self).wf(),
            final(self).stage == next_stage(request_view(old(self).request).2, old(self).stage, last_ok),
            ({
                let (sta, ap, is_add) = request_view(old(self).request);
                let next = next_stage(is_add, old(self).stage, last_ok);
                match step {
                    HelperStep::Run(c) => command_of(next, sta, ap) == Some((c.program@, arg_views(c.args@))),
                    HelperStep::Fail(m) => command_of(next, sta, ap) is None
                        && failure_of(old(self).stage, last_ok) == Some(m@),
                    HelperStep::Done => command_of(next, sta, ap) is None
                        && failure_of(old(self).stage, last_ok) is None,
                }
            }),
    {
        let is_add = match &self.request {
            HelperRequest::Add { .. } => true,
            HelperRequest::Del { .. } => false,
        };
        let prev = self.stage;
        let next = match prev {
            Stage::Start => if is_add { Stage::StaleDeleteSent } else { Stage::VifDeleteSent },
            Stage::StaleDeleteSent => Stage::VifAddSent,
            Stage::VifAddSent => if last_ok { Stage::LinkUpSent } else { Stage::Finished },
            Stage::LinkUpSent => if last_ok { Stage::Finished } else { Stage::RollbackSent },
            Stage::RollbackSent => Stage::Finished,
            Stage::VifDeleteSent => Stage::Finished,
            Stage::Finished => Stage::Finished,
        };
        self.stage = next;
        let step = match next {
            Stage::StaleDeleteSent | Stage::RollbackSent | Stage::VifDeleteSent => {
                HelperStep::Run(delete_command(self.ap_str()))
            },
            Stage::VifAddSent => HelperStep::Run(add_command(self.sta_str(), self.ap_str())),
            Stage::LinkUpSent => HelperStep::Run(raise_command(self.ap_str())),
            _ => match prev {
                Stage::VifAddSent => if last_ok {
                    HelperStep::Done
                } else {
                    HelperStep::Fail(String::from_str("iw interface add failed"))
                },
                Stage::RollbackSent => HelperStep::Fail(String::from_str("ip link set up failed")),
                Stage::VifDeleteSent => if last_ok {
                    HelperStep::Done
                } else {
                    HelperStep::Fail(String::from_str("iw dev del failed"))
                },
                _ => HelperStep::Done,
            },
        };
        step
    }

    fn ap_str(&self) -> (s: &str)
        ensures
            s@ == request_view(self.request).1,
    {
        match &self.request {
            HelperRequest::Add { ap, .. } => ap.as_str(),
            HelperRequest::Del { ap } => ap.as_str(),
        }
    }

    fn sta_str(&self) -> (s: &str)
        ensures
            s@ == request_view(self.request).0,
    {
        match &self.request {
            HelperRequest::Add { sta, .. } => sta.as_str(),
            HelperRequest::Del { .. } => {
                proof {
                    reveal_strlit("");
                }
                ""
            },
        }
    }
}

fn delete_command(ap: &str) -> (c: Command)
    ensures
        (c.program@, arg_views(c.args@)) == delete_vif(ap@),
{
    let args = vec![String::from_str("dev"), String::from_str(ap), String::from_str("del")];
    let c = Command { program: String::from_str("iw"), args };
    assert(arg_views(c.args@) =~= seq!["dev"@, ap@, "del"@]);
    c
}

fn add_command(sta: &str, ap: &str) -> (c: Command)
    ensures
        (c.program@, arg_views(c.args@)) == add_vif(sta@, ap@),
{
    let args = vec![
        String::from_str("dev"),
        String::from_str(sta),
        String::from_str("interface"),
        String::from_str("add"),
        String::from_str(ap),
        String::from_str("type"),
        String::from_str("__ap"),
    ];
    let c = Command { program: String::from_str("iw"), args };
    assert(arg_views(c.args@) =~= seq!["dev"@, sta@, "interface"@, "add"@, ap@, "type"@, "__ap"@]);
    c
}

fn raise_command(ap: &str) -> (c: Command)
    ensures
        (c.program@, arg_views(c.args@)) == raise_vif(ap@),
{
    let args = vec![String::from_str("link"), String::from_str("set"), String::from_str(ap), String::from_str("up")];
    let c = Command { program: String::from_str("ip"), args };
    assert(arg_views(c.args@) =~= seq!["link"@, "set"@, ap@, "up"@]);
    c
}

} // verus!

verus! {

/// Every stage a run reaches from a reachable stage is reachable again.
pub proof fn law_runs_stay_reachable(is_add: bool, stage: Stage, ok: bool)
    requires
        reachable(is_add, stage),
    ensures
        reachable(is_add, next_stage(is_add, stage, ok)),
{
}

/// The helper only ever creates, deletes or raises the requested `apN` vif: each
/// command of a run of a validated request is `iw dev <ap> del`,
/// `ip link set <ap> up`, or (for `add` only) `iw dev <sta> interface add <ap> type __ap`,
/// where `<ap>` is an `apN` name and the station `<sta>`, named only as the parent
/// of the new vif, is not one and so is never the vif itself.
pub proof fn law_only_the_vif_is_touched(req: HelperRequest, stage: Stage, ok: bool)
    requires
        req.wf(),
        reachable(request_view(req).2, stage),
    ensures
        ({
            let (sta, ap, is_add) = request_view(req);
            match command_of(next_stage(is_add, stage, ok), sta, ap) {
                Some(c) => {
                    &&& spec_valid_ap(ap)
                    &&& (c == delete_vif(ap) || c == raise_vif(ap) || (is_add && c == add_vif(sta, ap)
                        && spec_valid_sta(sta) && !spec_valid_ap(sta) && sta != ap))
                },
                None => true,
            }
        }),
{
}

/// A vif whose bring-up fails is deleted again before the helper fails, so a
/// half-created vif never outlives the run.
pub proof fn law_failed_raise_is_rolled_back(sta: Seq<char>, ap: Seq<char>, rollback_ok: bool)
    ensures
        next_stage(true, Stage::LinkUpSent, false) == Stage::RollbackSent,
        command_of(Stage::RollbackSent, sta, ap) == Some(delete_vif(ap)),
        next_stage(true, Stage::RollbackSent, rollback_ok) == Stage::Finished,
        failure_of(Stage::RollbackSent, rollback_ok) == Some("ip link set up failed"@),
{
}

/// Every run finishes: each advance from an unfinished stage strictly lowers
/// `steps_left` (at most five advances for `add`, two for `del`), and a finished
/// run stays finished without issuing anything.
pub proof fn law_runs_finish(is_add: bool, stage: Stage, ok: bool, sta: Seq<char>, ap: Seq<char>)
    ensures
        stage != Stage::Finished ==> steps_left(is_add, next_stage(is_add, stage, ok)) < steps_left(is_add, stage),
        stage == Stage::Finished ==> next_stage(is_add, stage, ok) == Stage::Finished
            && command_of(Stage::Finished, sta, ap) is None,
{
}

} // verus!
