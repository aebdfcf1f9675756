//! The decisions of the transfer backend: how it reacts to what the Quick Share
//! library reports and to commands from the UI.
//!
//! The backend keeps four flags and a generation counter. Each event (a library
//! message or a UI command) yields the next state and a [`Reaction`]: what the
//! caller must do, in field order: update the outbound PIN, show the Receive view,
//! reply to the library, set the status line, set or clear the consent card, clear
//! the send target, start or stop discovery, hand a file to the sender, set the
//! download folder, and schedule the "Ready" reset.
use vstd::prelude::*;

verus! {

/// The transfer states the backend reacts to; every other state is `Other`.
#[derive(PartialEq, Eq, Structural, Clone, Copy, Debug)]
pub enum TransferState {
    WaitingForUserConsent,
    ReceivingFiles,
    SendingFiles,
    Finished,
    Rejected,
    Cancelled,
    Disconnected,
    Other,
}

/// A message from the library about one transfer.
pub struct LibMessage {
    /// The transfer's id.
    pub id: String,
    /// Whether the message travels from the library to the front end.
    pub to_front: bool,
    pub state: Option<TransferState>,
    /// The remote device's name, when the message carries one.
    pub source_name: Option<String>,
    pub pin_code: Option<String>,
    /// The names of the files offered.
    pub files: Option<Vec<String>>,
}

/// The abstract value of a [`LibMessage`].
pub struct LibMessageView {
    pub id: Seq<char>,
    pub to_front: bool,
    pub state: Option<TransferState>,
    pub source_name: Option<Seq<char>>,
    pub pin_code: Option<Seq<char>>,
    pub files: Option<Seq<Seq<char>>>,
}

impl View for LibMessage {
    type V = LibMessageView;

    open spec fn view(&self) -> LibMessageView {
        LibMessageView {
            id: self.id@,
            to_front: self.to_front,
            state: self.state,
            source_name: self.source_name.deep_view(),
            pin_code: self.pin_code.deep_view(),
            files: self.files.deep_view(),
        }
    }
}

/// A transfer waiting for the user's consent, as the consent card shows it.
#[derive(Clone, PartialEq, Eq, Debug)]
pub struct Incoming {
    pub id: String,
    pub name: String,
    pub files: String,
    pub pin: String,
}

/// The abstract value of an [`Incoming`].
pub struct IncomingView {
    pub id: Seq<char>,
    pub name: Seq<char>,
    pub files: Seq<char>,
    pub pin: Seq<char>,
}

impl View for Incoming {
    type V = IncomingView;

    open spec fn view(&self) -> IncomingView {
        IncomingView { id: self.id@, name: self.name@, files: self.files@, pin: self.pin@ }
    }
}

/// A command from the UI to the backend.
#[derive(Debug)]
pub enum Cmd {
    Accept(String),
    Reject(String),
    Send { id: String, name: String, addr: String, path: String },
    SetDownload(String),
    SetAutoAccept(bool),
    StartDiscovery,
    StopDiscovery,
}

/// The abstract value of a [`Cmd`].
pub enum CmdView {
    Accept(Seq<char>),
    Reject(Seq<char>),
    Send { id: Seq<char>, name: Seq<char>, addr: Seq<char>, path: Seq<char> },
    SetDownload(Seq<char>),
    SetAutoAccept(bool),
    StartDiscovery,
    StopDiscovery,
}

impl View for Cmd {
    type V = CmdView;

    open spec fn view(&self) -> CmdView {
        match self {
            Cmd::Accept(id) => CmdView::Accept(id@),
            Cmd::Reject(id) => CmdView::Reject(id@),
            Cmd::Send { id, name, addr, path } => CmdView::Send { id: id@, name: name@, addr: addr@, path: path@ },
            Cmd::SetDownload(p) => CmdView::SetDownload(p@),
            Cmd::SetAutoAccept(v) => CmdView::SetAutoAccept(*v),
            Cmd::StartDiscovery => CmdView::StartDiscovery,
            Cmd::StopDiscovery => CmdView::StopDiscovery,
        }
    }
}

/// A reply to the library: accept or reject the transfer `id`.
pub struct Reply {
    pub id: String,
    pub accept: bool,
}

/// A file to hand to the sender, for the device `id` reachable at `addr`.
pub struct SendRequest {
    pub id: String,
    pub name: String,
    pub addr: String,
    pub path: String,
}

/// The abstract value of a [`SendRequest`].
pub struct SendRequestView {
    pub id: Seq<char>,
    pub name: Seq<char>,
    pub addr: Seq<char>,
    pub path: Seq<char>,
}

/// What the caller must do after an event; `None` or `false` means "leave as is".
pub struct Reaction {
    /// New value of the outbound PIN shown on the Send view.
    pub send_pin: Option<Option<String>>,
    /// Switch to the Receive view.
    pub show_receive: bool,
    pub reply: Option<Reply>,
    pub status: Option<String>,
    /// New value of the consent card.
    pub incoming: Option<Option<Incoming>>,
    /// Forget which device a send is going to.
    pub clear_sending: bool,
    /// `Some(true)`: start discovery; `Some(false)`: stop it.
    pub discovery: Option<bool>,
    pub send: Option<SendRequest>,
    pub download_path: Option<String>,
    /// Reset the status to "Ready" a few seconds later if the generation is still this.
    pub reset_token: Option<u64>,
}

/// The abstract value of a [`Reaction`].
pub struct ReactionView {
    pub send_pin: Option<Option<Seq<char>>>,
    pub show_receive: bool,
    pub reply: Option<(Seq<char>, bool)>,
    pub status: Option<Seq<char>>,
    pub incoming: Option<Option<IncomingView>>,
    pub clear_sending: bool,
    pub discovery: Option<bool>,
    pub send: Option<SendRequestView>,
    pub download_path: Option<Seq<char>>,
    pub reset_token: Option<u64>,
}

impl View for Reaction {
    type V = ReactionView;

    open spec fn view(&self) -> ReactionView {
        ReactionView {
            send_pin: match self.send_pin {
                Some(p) => Some(p.deep_view()),
                None => None,
            },
            show_receive: self.show_receive,
            reply: match self.reply {
                Some(r) => Some((r.id@, r.accept)),
                None => None,
            },
            status: self.status.deep_view(),
            incoming: match self.incoming {
                Some(Some(i)) => Some(Some(i@)),
                Some(None) => Some(None),
                None => None,
            },
            clear_sending: self.clear_sending,
            discovery: self.discovery,
            send: match self.send {
                Some(s) => Some(SendRequestView { id: s.id@, name: s.name@, addr: s.addr@, path: s.path@ }),
                None => None,
            },
            download_path: self.download_path.deep_view(),
            reset_token: self.reset_token,
        }
    }
}

/// The reaction that changes nothing.
pub open spec fn no_reaction() -> ReactionView {
    ReactionView {
        send_pin: None,
        show_receive: false,
        reply: None,
        status: None,
        incoming: None,
        clear_sending: false,
        discovery: None,
        send: None,
        download_path: None,
        reset_token: None,
    }
}

/// The backend's state.
#[derive(PartialEq, Eq, Structural, Clone, Copy, Debug)]
pub struct Backend {
    /// Discovery (and its "I'm sending" beacon) is running.
    pub discovery_active: bool,
    /// The user is on the Send view.
    pub on_send_tab: bool,
    /// Mirror of the UI's auto-accept toggle.
    pub auto_accept: bool,
    /// A send is in progress (between `Cmd::Send` and its terminal state).
    pub is_sending: bool,
    /// Bumped by every transfer-activity state; a scheduled reset only applies if
    /// the generation is still the one it was scheduled with.
    pub generation: u64,
}

/// The generation after one bump (wrapping, as an atomic `fetch_add` does).
pub open spec fn next_gen(g: u64) -> u64 {
    if g == u64::MAX {
        0
    } else {
        (g + 1) as u64
    }
}

/// The name a status line uses for the remote device.
pub open spec fn sender_name(m: LibMessageView) -> Seq<char> {
    match m.source_name {
        Some(n) => n,
        None => "Unknown"@,
    }
}

/// The items joined with `sep` between them.
pub open spec fn spec_join(items: Seq<Seq<char>>, sep: Seq<char>) -> Seq<char>
    decreases items.len(),
{
    if items.len() == 0 {
        Seq::empty()
    } else if items.len() == 1 {
        items[0]
    } else {
        spec_join(items.drop_last(), sep) + sep + items.last()
    }
}

/// A state that ends a transfer.
pub open spec fn is_terminal(s: Option<TransferState>) -> bool {
    s == Some(TransferState::Finished) || s == Some(TransferState::Rejected) || s == Some(
        TransferState::Cancelled,
    ) || s == Some(TransferState::Disconnected)
}

/// The consent card for a transfer waiting for consent.
pub open spec fn incoming_of(m: LibMessageView) -> IncomingView {
    IncomingView {
        id: m.id,
        name: sender_name(m),
        files: match m.files {
            Some(f) => spec_join(f, ", "@),
            None => Seq::empty(),
        },
        pin: match m.pin_code {
            Some(p) => p,
            None => Seq::empty(),
        },
    }
}

/// The state part of reacting to a message addressed to the front end (before
/// discovery is resumed).
pub open spec fn message_core(b: Backend, m: LibMessageView) -> (Backend, ReactionView) {
    let name = sender_name(m);
    let pin = if b.is_sending && m.pin_code is Some {
        Some(m.pin_code)
    } else {
        None
    };
    let base = ReactionView { send_pin: pin, ..no_reaction() };
    let bumped = Backend { generation: next_gen(b.generation), ..b };
    let ended = Backend { generation: next_gen(b.generation), is_sending: false, ..b };
    match m.state {
        Some(TransferState::WaitingForUserConsent) => if b.auto_accept {
            (
                bumped,
                ReactionView {
                    show_receive: true,
                    reply: Some((m.id, true)),
                    status: Some("Auto-accepting from "@ + name + "…"@),
                    ..base
                },
            )
        } else {
            (
                bumped,
                ReactionView {
                    show_receive: true,
                    status: Some("Incoming from "@ + name),
                    incoming: Some(Some(incoming_of(m))),
                    ..base
                },
            )
        },
        Some(TransferState::ReceivingFiles) => (
            bumped,
            ReactionView {
                show_receive: true,
                incoming: Some(None),
                status: Some("Receiving from "@ + name + "…"@),
                ..base
            },
        ),
        Some(TransferState::SendingFiles) => (
            bumped,
            ReactionView { status: Some("Sending to "@ + name + "…"@), ..base },
        ),
        Some(TransferState::Finished) => (ended, ended_reaction("✓ Transfer complete"@, Some(ended.generation))),
        Some(TransferState::Rejected) => (ended, ended_reaction("Rejected"@, Some(ended.generation))),
        Some(TransferState::Cancelled) => (ended, ended_reaction("Cancelled"@, Some(ended.generation))),
        Some(TransferState::Disconnected) => (
            Backend { is_sending: false, ..b },
            ended_reaction("Ready"@, None),
        ),
        _ => (b, base),
    }
}

/// What the end of a transfer does: set the status, close the consent card and
/// forget the outbound PIN and send target.
pub open spec fn ended_reaction(status: Seq<char>, reset: Option<u64>) -> ReactionView {
    ReactionView {
        send_pin: Some(None),
        status: Some(status),
        incoming: Some(None),
        clear_sending: true,
        reset_token: reset,
        ..no_reaction()
    }
}

/// The backend's reaction to a library message: messages not addressed to the
/// front end are ignored; a transfer that ends while the user is on the Send view
/// resumes discovery if it is paused.
pub open spec fn spec_on_message(b: Backend, m: LibMessageView) -> (Backend, ReactionView) {
    if !m.to_front {
        (b, no_reaction())
    } else {
        let (b1, r1) = message_core(b, m);
        if is_terminal(m.state) && b.on_send_tab && !b.discovery_active {
            (Backend { discovery_active: true, ..b1 }, ReactionView { discovery: Some(true), ..r1 })
        } else {
            (b1, r1)
        }
    }
}

/// The backend's reaction to a UI command.
pub open spec fn spec_on_command(b: Backend, c: CmdView) -> (Backend, ReactionView) {
    match c {
        CmdView::Accept(id) => (b, ReactionView { reply: Some((id, true)), ..no_reaction() }),
        CmdView::Reject(id) => (b, ReactionView { reply: Some((id, false)), ..no_reaction() }),
        CmdView::Send { id, name, addr, path } => (
            Backend { is_sending: true, discovery_active: false, ..b },
            ReactionView {
                discovery: if b.discovery_active {
                    Some(false)
                } else {
                    None
                },
                send: Some(SendRequestView { id, name, addr, path }),
                ..no_reaction()
            },
        ),
        CmdView::SetDownload(p) => (b, ReactionView { download_path: Some(p), ..no_reaction() }),
        CmdView::SetAutoAccept(v) => (Backend { auto_accept: v, ..b }, no_reaction()),
        CmdView::StartDiscovery => if b.discovery_active {
            (Backend { on_send_tab: true, ..b }, no_reaction())
        } else {
            (
                Backend { on_send_tab: true, discovery_active: true, ..b },
                ReactionView {
                    discovery: Some(true),
                    status: Some("Searching for nearby devices…"@),
                    ..no_reaction()
                },
            )
        },
        CmdView::StopDiscovery => (
            Backend { on_send_tab: false, discovery_active: false, ..b },
            ReactionView {
                discovery: if b.discovery_active {
                    Some(false)
                } else {
                    None
                },
                ..no_reaction()
            },
        ),
    }
}

/// Discovery only runs while the user is on the Send view.
pub open spec fn backend_wf(b: Backend) -> bool {
    b.discovery_active ==> b.on_send_tab
}

impl Reaction {
    /// The reaction that changes nothing.
    pub fn none() -> (r: Reaction)
        ensures
            r@ == no_reaction(),
    {
        Reaction {
            send_pin: None,
            show_receive: false,
            reply: None,
            status: None,
            incoming: None,
            clear_sending: false,
            discovery: None,
            send: None,
            download_path: None,
            reset_token: None,
        }
    }
}

fn text2(a: &str, b: &str) -> (s: String)
    ensures
        s@ == a@ + b@,
{
    let mut s = String::from_str(a);
    s.append(b);
    s
}

fn text3(a: &str, b: &str, c: &str) -> (s: String)
    ensures
        s@ == a@ + b@ + c@,
{
    let mut s = String::from_str(a);
    s.append(b);
    s.append(c);
    s
}

fn copy_opt(s: &Option<String>) -> (r: Option<String>)
    ensures
        r.deep_view() == s.deep_view(),
{
    match s {
        Some(x) => Some(x.clone()),
        None => None,
    }
}

/// The items joined with `sep` between them.
pub fn join(items: &Vec<String>, sep: &str) -> (r: String)
    ensures
        r@ == spec_join(items.deep_view(), sep@),
{
    let ghost v = items.deep_view();
    let mut r = String::new();
    let n = items.len();
    let mut i: usize = 0;
    while i < n
        invariant
            n == items@.len(),
            v == items.deep_view(),
            v.len() == n,
            i <= n,
            r@ == spec_join(v.take(i as int), sep@),
        decreases n - i,
    {
        assert(v.take(i + 1).drop_last() =~= v.take(i as int));
        assert(v.take(i + 1).last() == items@[i as int]@);
        if i != 0 {
            r.append(sep);
        } else {
            assert(v.take(0) =~= Seq::<Seq<char>>::empty());
            assert(r@ =~= Seq::<char>::empty());
        }
        r.append(items[i].as_str());
        proof {
            if i == 0 {
                assert(v.take(1).len() == 1);
                assert(r@ =~= v.take(1)[0]);
            }
        }
        i = i + 1;
    }
    assert(v.take(n as int) =~= v);
    r
}

impl Backend {
    /// The state at start-up: receiving only, nothing sending, auto-accept off.
    pub fn new() -> (b: Backend)
        ensures
            b == (Backend {
                discovery_active: false,
                on_send_tab: false,
                auto_accept: false,
                is_sending: false,
                generation: 0,
            }),
            backend_wf(b),
    {
        Backend {
            discovery_active: false,
            on_send_tab: false,
            auto_accept: false,
            is_sending: false,
            generation: 0,
        }
    }

    fn bump(&mut self)
        ensures
            *final(self) == (Backend { generation: next_gen(old(self).generation), ..*old(self) }),
    {
        if self.generation == u64::MAX {
            self.generation = 0;
        } else {
            self.generation = self.generation + 1;
        }
    }

    fn end_transfer(&mut self, status: &str, reset: bool) -> (r: Reaction)
        ensures
            reset ==> *final(self) == (Backend {
                generation: next_gen(old(self).generation),
                is_sending: false,
                ..*old(self)
            }) && r@ == ended_reaction(status@, Some(final(self).generation)),
            !reset ==> *final(self) == (Backend { is_sending: false, ..*old(self) })
                && r@ == ended_reaction(status@, None),
    {
        self.is_sending = false;
        let mut r = Reaction::none();
        r.send_pin = Some(None);
        r.status = Some(String::from_str(status));
        r.incoming = Some(None);
        r.clear_sending = true;
        if reset {
            self.bump();
            r.reset_token = Some(self.generation);
        }
        r
    }

    /// Reacts to a message from the library.
    pub fn on_message(&mut self, m: &LibMessage) -> (r: Reaction)
        ensures
            *final(self) == spec_on_message(*old(self), m@).0,
            r@ == spec_on_message(*old(self), m@).1,
    {
        if !m.to_front {
            return Reaction::none();
        }
        let ghost b = *self;
        let name: String = match &m.source_name {
            Some(n) => n.clone(),
            None => String::from_str("Unknown"),
        };
        assert(name@ == sender_name(m@));
        let pin: Option<Option<String>> = if self.is_sending {
            match &m.pin_code {
                Some(p) => Some(Some(p.clone())),
                None => None,
            }
        } else {
            None
        };
        let mut r = match m.state {
            Some(TransferState::WaitingForUserConsent) => {
                self.bump();
                let mut r = Reaction::none();
                r.show_receive = true;
                if self.auto_accept {
                    r.reply = Some(Reply { id: m.id.clone(), accept: true });
                    r.status = Some(text3("Auto-accepting from ", name.as_str(), "…"));
                } else {
                    let files = match &m.files {
                        Some(f) => join(f, ", "),
                        None => String::new(),
                    };
                    let pin_code = match &m.pin_code {
                        Some(p) => p.clone(),
                        None => String::new(),
                    };
                    r.incoming = Some(Some(Incoming { id: m.id.clone(), name: name.clone(), files, pin: pin_code }));
                    r.status = Some(text2("Incoming from ", name.as_str()));
                }
                r
            },
            Some(TransferState::ReceivingFiles) => {
                self.bump();
                let mut r = Reaction::none();
                r.show_receive = true;
                r.incoming = Some(None);
                r.status = Some(text3("Receiving from ", name.as_str(), "…"));
                r
            },
            Some(TransferState::SendingFiles) => {
                self.bump();
                let mut r = Reaction::none();
                r.status = Some(text3("Sending to ", name.as_str(), "…"));
                r
            },
            Some(TransferState::Finished) => self.end_transfer("✓ Transfer complete", true),
            Some(TransferState::Rejected) => self.end_transfer("Rejected", true),
            Some(TransferState::Cancelled) => self.end_transfer("Cancelled", true),
            Some(TransferState::Disconnected) => self.end_transfer("Ready", false),
            _ => Reaction::none(),
        };
        let ended = match m.state {
            Some(TransferState::Finished) | Some(TransferState::Rejected) | Some(TransferState::Cancelled)
            | Some(TransferState::Disconnected) => true,
            _ => false,
        };
        if !ended {
            r.send_pin = pin;
        }
        if ended && self.on_send_tab && !self.discovery_active {
            self.discovery_active = true;
            r.discovery = Some(true);
        }
        r
    }

    /// Reacts to a command from the UI.
    pub fn on_command(&mut self, c: Cmd) -> (r: Reaction)
        ensures
            *final(self) == spec_on_command(*old(self), c@).0,
            r@ == spec_on_command(*old(self), c@).1,
    {
        let mut r = Reaction::none();
        match c {
            Cmd::Accept(id) => {
                r.reply = Some(Reply { id, accept: true });
            },
            Cmd::Reject(id) => {
                r.reply = Some(Reply { id, accept: false });
            },
            Cmd::Send { id, name, addr, path } => {
                self.is_sending = true;
                if self.discovery_active {
                    self.discovery_active = false;
                    r.discovery = Some(false);
                }
                r.send = Some(SendRequest { id, name, addr, path });
            },
            Cmd::SetDownload(p) => {
                r.download_path = Some(p);
            },
            Cmd::SetAutoAccept(v) => {
                self.auto_accept = v;
            },
            Cmd::StartDiscovery => {
                self.on_send_tab = true;
                if !self.discovery_active {
                    self.discovery_active = true;
                    r.discovery = Some(true);
                    r.status = Some(String::from_str("Searching for nearby devices…"));
                }
            },
            Cmd::StopDiscovery => {
                self.on_send_tab = false;
                if self.discovery_active {
                    self.discovery_active = false;
                    r.discovery = Some(false);
                }
            },
        }
        r
    }
}

/// Whether a "Ready" reset scheduled with `token` still applies when the
/// generation is `current`: only if no transfer activity happened since.
pub fn reset_applies(current: u64, token: u64) -> (b: bool)
    ensures
        b == (current == token),
{
    current == token
}

} // verus!

verus! {

/// Whether a library message is transfer activity (it bumps the generation).
pub open spec fn bumps_generation(m: LibMessageView) -> bool {
    &&& m.to_front
    &&& m.state is Some
    &&& m.state != Some(TransferState::Disconnected)
    &&& m.state != Some(TransferState::Other)
}

/// The generation after `k` bumps from `g`.
pub open spec fn gen_after(g: u64, k: nat) -> u64
    decreases k,
{
    if k == 0 {
        g
    } else {
        next_gen(gen_after(g, (k - 1) as nat))
    }
}

/// Discovery only ever runs while the user is on the Send view: every message
/// and every command keeps `backend_wf`.
pub proof fn law_discovery_only_on_send_tab(b: Backend, m: LibMessageView, c: CmdView)
    requires
        backend_wf(b),
    ensures
        backend_wf(spec_on_message(b, m).0),
        backend_wf(spec_on_command(b, c).0),
{
}

/// A send pauses discovery to free the radio: after `Cmd::Send` discovery is off
/// and a send is in progress, and if discovery was running the reaction stops it
/// (before the file is handed to the sender).
pub proof fn law_send_pauses_discovery(
    b: Backend,
    id: Seq<char>,
    name: Seq<char>,
    addr: Seq<char>,
    path: Seq<char>,
)
    ensures
        ({
            let (b2, r) = spec_on_command(b, CmdView::Send { id, name, addr, path });
            &&& !b2.discovery_active
            &&& b2.is_sending
            &&& r.send == Some(SendRequestView { id, name, addr, path })
            &&& r.discovery == (if b.discovery_active { Some(false) } else { None })
        }),
{
}

/// The end of a transfer (finished, rejected, cancelled or disconnected) ends any
/// send, forgets the outbound PIN and the send target, closes the consent card,
/// and leaves discovery running exactly when the user is on the Send view.
pub proof fn law_transfer_end(b: Backend, m: LibMessageView)
    requires
        backend_wf(b),
        m.to_front,
        is_terminal(m.state),
    ensures
        ({
            let (b2, r) = spec_on_message(b, m);
            &&& !b2.is_sending
            &&& b2.discovery_active == b.on_send_tab
            &&& r.send_pin == Some(None::<Seq<char>>)
            &&& r.clear_sending
            &&& r.incoming == Some(None::<IncomingView>)
        }),
{
}

/// Messages that are not addressed to the front end change nothing.
pub proof fn law_foreign_messages_ignored(b: Backend, m: LibMessageView)
    requires
        !m.to_front,
    ensures
        spec_on_message(b, m) == (b, no_reaction()),
{
}

/// A consent request always brings up the Receive view. With auto-accept on it
/// is accepted at once (a reply for that transfer, no consent card); with it off
/// the card shows the transfer and nothing is replied until the user decides.
pub proof fn law_consent(b: Backend, m: LibMessageView)
    requires
        m.to_front,
        m.state == Some(TransferState::WaitingForUserConsent),
    ensures
        ({
            let r = spec_on_message(b, m).1;
            &&& r.show_receive
            &&& b.auto_accept ==> r.reply == Some((m.id, true)) && r.incoming is None
            &&& !b.auto_accept ==> r.reply is None && r.incoming == Some(Some(incoming_of(m)))
        }),
{
}

/// The outbound PIN is only ever shown while a send is in progress, and it is
/// the PIN the library reported.
pub proof fn law_pin_only_while_sending(b: Backend, m: LibMessageView)
    ensures
        ({
            let r = spec_on_message(b, m).1;
            forall|p: Seq<char>| r.send_pin == Some(Some(p)) ==> b.is_sending && m.pin_code == Some(p)
        }),
{
}

/// Starting discovery twice starts it once: the second command changes nothing.
pub proof fn law_start_discovery_once(b: Backend)
    ensures
        ({
            let b1 = spec_on_command(b, CmdView::StartDiscovery).0;
            spec_on_command(b1, CmdView::StartDiscovery) == (b1, no_reaction())
        }),
{
}

/// Every transfer-activity message bumps the generation exactly once and no
/// other event changes it; a scheduled reset carries the new generation.
pub proof fn law_generation_counts_activity(b: Backend, m: LibMessageView, c: CmdView)
    ensures
        spec_on_message(b, m).0.generation == (if bumps_generation(m) {
            next_gen(b.generation)
        } else {
            b.generation
        }),
        spec_on_message(b, m).1.reset_token matches Some(t) ==> t == spec_on_message(b, m).0.generation,
        spec_on_command(b, c).0.generation == b.generation,
        spec_on_command(b, c).1.reset_token is None,
{
}

proof fn lemma_gen_after(g: u64, k: nat)
    requires
        k <= 0x1_0000_0000_0000_0000,
    ensures
        gen_after(g, k) == (if g + k < 0x1_0000_0000_0000_0000 {
            g + k
        } else {
            g + k - 0x1_0000_0000_0000_0000
        }),
    decreases k,
{
    if k > 0 {
        lemma_gen_after(g, (k - 1) as nat);
    }
}

/// A "Ready" reset is cancelled by any later transfer activity: after between one
/// and 2^64 - 1 further bumps, the generation differs from the reset's token.
pub proof fn law_stale_reset_never_applies(token: u64, k: nat)
    requires
        0 < k < 0x1_0000_0000_0000_0000,
    ensures
        gen_after(token, k) != token,
{
    lemma_gen_after(token, k);
}

} // verus!

verus! {

/// Discovery is started exactly when an event turns it from off to on, and
/// stopped exactly when an event turns it from on to off: for every state and
/// every message or command, the reaction's discovery request matches the change
/// of `discovery_active`. A message never stops discovery, and a message that ends
/// a transfer while the user is on the Send tab with discovery paused restarts it.
pub proof fn law_discovery_requests_match_state(b: Backend, m: LibMessageView, c: CmdView)
    ensures
        ({
            let (b2, r) = spec_on_message(b, m);
            &&& r.discovery == Some(true) <==> (!b.discovery_active && b2.discovery_active)
            &&& r.discovery != Some(false)
            &&& b.discovery_active ==> b2.discovery_active
            &&& (m.to_front && is_terminal(m.state) && b.on_send_tab && !b.discovery_active)
                ==> (b2.discovery_active && r.discovery == Some(true))
        }),
        ({
            let (b2, r) = spec_on_command(b, c);
            &&& r.discovery == Some(true) <==> (!b.discovery_active && b2.discovery_active)
            &&& r.discovery == Some(false) <==> (b.discovery_active && !b2.discovery_active)
        }),
{
}

/// The auto-accept toggle takes the value it is given, whatever it was, and the
/// next consent request is answered without asking exactly when that value is on.
pub proof fn law_auto_accept_follows_toggle(b: Backend, v: bool, m: LibMessageView)
    requires
        m.to_front,
        m.state == Some(TransferState::WaitingForUserConsent),
    ensures
        spec_on_command(b, CmdView::SetAutoAccept(v)).0.auto_accept == v,
        ({
            let b1 = spec_on_command(b, CmdView::SetAutoAccept(v)).0;
            let r = spec_on_message(b1, m).1;
            &&& (r.reply is Some <==> v)
            &&& (r.incoming is Some <==> !v)
        }),
{
}

} // verus!
