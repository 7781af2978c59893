//! The session controller: a state machine over the multiplexer's answers.
//!
//! A [`Request`] names one of the three user operations.  [`Controller::start`]
//! yields the first command to run; the caller executes each command, feeds
//! the answer back through [`Controller::step`], and repeats until `step`
//! returns `None`.  The controller holds no multiplexer state of its own:
//! every decision is taken from the answer just received.
//!
//! An attach run checks existence first (creating the session if need be),
//! then reads the attached-session name; when that name already matches,
//! the run ends at once — in particular, the pane directory is never
//! queried on that fast path.  Only on the not-attached path is the
//! directory resolved (when asked for, and trimmed of the newline the
//! multiplexer prints) and the popup launched.
//!
//! The commands issued over a whole run form a trace, recorded in ghost
//! state; on completion the trace is proved equal to the trace functions
//! ([`toggle_trace`], [`attach_trace`], [`detach_trace`]) that the laws in
//! this module and in [`crate::model`] speak about.

use vstd::prelude::*;
use vstd::string::StringExecFns;
use crate::cmd::{Cmd, CmdView, StatusVar, is_query, mutations};
use crate::text::{trim, trim_str, trimmed_matches};

verus! {

/// One user operation, as plain data.
pub enum Request {
    /// Detach the session if it is the attached one, else attach it.
    Toggle { session: String, use_cwd: bool },
    /// Attach the session, creating it first if need be; no-op when it is
    /// already the attached one.
    Attach { session: String, use_cwd: bool },
    /// Ask the multiplexer to detach the session.
    Detach { session: String },
}

/// The mathematical value of a [`Request`].
pub ghost enum RequestView {
    Toggle { session: Seq<char>, use_cwd: bool },
    Attach { session: Seq<char>, use_cwd: bool },
    Detach { session: Seq<char> },
}

impl View for Request {
    type V = RequestView;

    open spec fn view(&self) -> RequestView {
        match self {
            Request::Toggle { session, use_cwd } => RequestView::Toggle {
                session: session@,
                use_cwd: *use_cwd,
            },
            Request::Attach { session, use_cwd } => RequestView::Attach {
                session: session@,
                use_cwd: *use_cwd,
            },
            Request::Detach { session } => RequestView::Detach { session: session@ },
        }
    }
}

/// The answer to an issued command.
pub enum Event {
    /// The captured, decoded output of a `Read` query.
    Text(String),
    /// The exit status of a `CheckSession` query: true means success.
    Flag(bool),
    /// A fire-and-forget command was launched.
    Launched,
}

/// The mathematical value of an [`Event`].
pub ghost enum EventView {
    Text(Seq<char>),
    Flag(bool),
    Launched,
}

impl View for Event {
    type V = EventView;

    open spec fn view(&self) -> EventView {
        match self {
            Event::Text(s) => EventView::Text(s@),
            Event::Flag(b) => EventView::Flag(*b),
            Event::Launched => EventView::Launched,
        }
    }
}

/// What answer the controller is waiting for.
#[derive(Clone, Copy)]
pub enum Phase {
    /// Toggle: awaiting the attached-session name.
    ToggleStatus,
    /// Attach: awaiting the session-existence flag.
    AttachHas,
    /// Attach: awaiting the launch of `new-session`.
    AttachCreated,
    /// Attach: awaiting the attached-session name for the no-op check.
    AttachStatus,
    /// Attach, not attached: awaiting the active pane's working directory.
    AttachDir,
    /// Attach: awaiting the launch of the popup.
    AttachPopup,
    /// Awaiting the launch of `detach`.
    DetachPending,
    /// The run is complete.
    Idle,
}

/// The mathematical value of a [`Controller`].
#[verifier::ext_equal]
pub ghost struct ControllerView {
    /// The multiplexer binary the popup's attach command names.
    pub bin: Seq<char>,
    /// The session the request names.
    pub session: Seq<char>,
    /// Whether the attach command carries a `-c` clause.
    pub use_cwd: bool,
    /// The trimmed pane directory once read; empty until then.
    pub dir: Seq<char>,
    /// What answer is awaited.
    pub phase: Phase,
    /// The request being served.
    pub req: RequestView,
    /// Every command issued so far, in order.
    pub emitted: Seq<CmdView>,
    /// The status value the toggle decision read.
    pub toggle_status: Seq<char>,
    /// The answer of the session-existence query.
    pub has_ans: bool,
    /// The status value the attach no-op check read.
    pub status_ans: Seq<char>,
}

/// Drives one request to completion, one multiplexer answer at a time.
pub struct Controller {
    bin: String,
    session: String,
    use_cwd: bool,
    dir: String,
    phase: Phase,
    req: Ghost<RequestView>,
    emitted: Ghost<Seq<CmdView>>,
    toggle_status: Ghost<Seq<char>>,
    has_ans: Ghost<bool>,
    status_ans: Ghost<Seq<char>>,
}

impl View for Controller {
    type V = ControllerView;

    closed spec fn view(&self) -> ControllerView {
        ControllerView {
            bin: self.bin@,
            session: self.session@,
            use_cwd: self.use_cwd,
            dir: self.dir@,
            phase: self.phase,
            req: self.req@,
            emitted: self.emitted@,
            toggle_status: self.toggle_status@,
            has_ans: self.has_ans@,
            status_ans: self.status_ans@,
        }
    }
}

/// The pane-directory query, present exactly when `use_cwd` is set.
pub open spec fn cwd_part(use_cwd: bool) -> Seq<CmdView> {
    if use_cwd {
        seq![CmdView::Read(StatusVar::PaneCurrentPath)]
    } else {
        Seq::<CmdView>::empty()
    }
}

/// The create command, present exactly when the session did not exist.
pub open spec fn create_part(session: Seq<char>, has: bool) -> Seq<CmdView> {
    if has {
        Seq::<CmdView>::empty()
    } else {
        seq![CmdView::NewSession(session)]
    }
}

/// The tail of an attach: empty when the status named the session (the
/// no-op fast path — in particular no pane query), and otherwise the pane
/// query (when `use_cwd`) followed by the popup launch.
pub open spec fn popup_part(
    bin: Seq<char>,
    session: Seq<char>,
    use_cwd: bool,
    dir: Seq<char>,
    status: Seq<char>,
) -> Seq<CmdView> {
    if trim(status) == session {
        Seq::<CmdView>::empty()
    } else {
        cwd_part(use_cwd) + seq![CmdView::Popup { bin, session, use_cwd, dir }]
    }
}

/// The commands a detach request issues.
pub open spec fn detach_trace(session: Seq<char>) -> Seq<CmdView> {
    seq![CmdView::DetachClient(session)]
}

/// The commands an attach request issues, given the answers it received:
/// `has` for session existence, `status` for the attached-session name,
/// and `dir` for the trimmed pane directory (when `use_cwd` and not
/// already attached).
pub open spec fn attach_trace(
    bin: Seq<char>,
    session: Seq<char>,
    use_cwd: bool,
    dir: Seq<char>,
    has: bool,
    status: Seq<char>,
) -> Seq<CmdView> {
    seq![CmdView::CheckSession(session)] + create_part(session, has) + seq![
        CmdView::Read(StatusVar::SessionName),
    ] + popup_part(bin, session, use_cwd, dir, status)
}

/// The commands a toggle request issues: one status read, then either the
/// detach commands or the attach commands.
pub open spec fn toggle_trace(
    bin: Seq<char>,
    session: Seq<char>,
    use_cwd: bool,
    status0: Seq<char>,
    dir: Seq<char>,
    has: bool,
    status1: Seq<char>,
) -> Seq<CmdView> {
    seq![CmdView::Read(StatusVar::SessionName)] + (if trim(status0) == session {
        detach_trace(session)
    } else {
        attach_trace(bin, session, use_cwd, dir, has, status1)
    })
}

/// The full trace of the request `c` serves, under the answers it recorded.
pub open spec fn full_trace(c: ControllerView) -> Seq<CmdView> {
    match c.req {
        RequestView::Toggle { session, use_cwd } => toggle_trace(
            c.bin,
            session,
            use_cwd,
            c.toggle_status,
            c.dir,
            c.has_ans,
            c.status_ans,
        ),
        RequestView::Attach { session, use_cwd } => attach_trace(
            c.bin,
            session,
            use_cwd,
            c.dir,
            c.has_ans,
            c.status_ans,
        ),
        RequestView::Detach { session } => detach_trace(session),
    }
}

/// The toggle status read that precedes the attach commands when the
/// request was a toggle.
pub open spec fn toggle_prefix(c: ControllerView) -> Seq<CmdView> {
    match c.req {
        RequestView::Toggle { .. } => seq![CmdView::Read(StatusVar::SessionName)],
        _ => Seq::<CmdView>::empty(),
    }
}

/// The request's fields agree with the controller's own copies.
pub open spec fn req_fields_ok(c: ControllerView) -> bool {
    match c.req {
        RequestView::Toggle { session, use_cwd } => c.session == session && c.use_cwd == use_cwd,
        RequestView::Attach { session, use_cwd } => c.session == session && c.use_cwd == use_cwd,
        RequestView::Detach { session } => c.session == session,
    }
}

/// In the attach phases the request is an attach, or a toggle whose status
/// read did not name the session.
pub open spec fn attach_ctx(c: ControllerView) -> bool {
    match c.req {
        RequestView::Attach { .. } => true,
        RequestView::Toggle { .. } => trim(c.toggle_status) != c.session,
        RequestView::Detach { .. } => false,
    }
}

/// The controller's invariant: in every phase, the commands issued so far
/// are exactly the prefix of the request's trace that the answers received
/// so far determine.
pub open spec fn inv_view(c: ControllerView) -> bool {
    req_fields_ok(c) && match c.phase {
        Phase::ToggleStatus => c.req is Toggle && c.emitted == seq![
            CmdView::Read(StatusVar::SessionName),
        ],
        Phase::AttachHas => attach_ctx(c) && c.emitted == toggle_prefix(c) + seq![
            CmdView::CheckSession(c.session),
        ],
        Phase::AttachCreated => attach_ctx(c) && !c.has_ans && c.emitted == toggle_prefix(c)
            + seq![CmdView::CheckSession(c.session)] + create_part(c.session, c.has_ans),
        Phase::AttachStatus => attach_ctx(c) && c.emitted == toggle_prefix(c) + seq![
            CmdView::CheckSession(c.session),
        ] + create_part(c.session, c.has_ans) + seq![CmdView::Read(StatusVar::SessionName)],
        Phase::AttachDir => attach_ctx(c) && c.use_cwd && trim(c.status_ans) != c.session
            && c.emitted == toggle_prefix(c) + seq![CmdView::CheckSession(c.session)] + create_part(
            c.session,
            c.has_ans,
        ) + seq![CmdView::Read(StatusVar::SessionName)] + cwd_part(c.use_cwd),
        Phase::AttachPopup => attach_ctx(c) && trim(c.status_ans) != c.session && c.emitted
            == full_trace(c),
        Phase::DetachPending => (c.req is Detach || (c.req is Toggle && trim(c.toggle_status)
            == c.session)) && c.emitted == full_trace(c),
        Phase::Idle => c.emitted == full_trace(c),
    }
}

/// The first command each request issues.
pub open spec fn first_cmd(r: RequestView) -> CmdView {
    match r {
        RequestView::Toggle { .. } => CmdView::Read(StatusVar::SessionName),
        RequestView::Attach { session, .. } => CmdView::CheckSession(session),
        RequestView::Detach { session } => CmdView::DetachClient(session),
    }
}

/// Which event kind the controller awaits.
pub open spec fn wants(c: ControllerView, e: EventView) -> bool {
    match c.phase {
        Phase::ToggleStatus => e is Text,
        Phase::AttachHas => e is Flag,
        Phase::AttachCreated => e is Launched,
        Phase::AttachStatus => e is Text,
        Phase::AttachDir => e is Text,
        Phase::AttachPopup => e is Launched,
        Phase::DetachPending => e is Launched,
        Phase::Idle => false,
    }
}

/// The view of an optional command.
pub open spec fn opt_view(r: Option<Cmd>) -> Option<CmdView> {
    match r {
        Option::Some(c) => Option::Some(c@),
        Option::None => Option::None,
    }
}

/// The transition the controller takes on event `e`: the new controller
/// value, and the command it issues, if any.
pub open spec fn next(c: ControllerView, e: EventView) -> (ControllerView, Option<CmdView>) {
    match (c.phase, e) {
        (Phase::ToggleStatus, EventView::Text(s)) => if trim(s) == c.session {
            let cmd = CmdView::DetachClient(c.session);
            (
                ControllerView {
                    phase: Phase::DetachPending,
                    toggle_status: s,
                    emitted: c.emitted.push(cmd),
                    ..c
                },
                Option::Some(cmd),
            )
        } else {
            let cmd = CmdView::CheckSession(c.session);
            (
                ControllerView {
                    phase: Phase::AttachHas,
                    toggle_status: s,
                    emitted: c.emitted.push(cmd),
                    ..c
                },
                Option::Some(cmd),
            )
        },
        (Phase::AttachHas, EventView::Flag(b)) => if b {
            let cmd = CmdView::Read(StatusVar::SessionName);
            (
                ControllerView {
                    phase: Phase::AttachStatus,
                    has_ans: b,
                    emitted: c.emitted.push(cmd),
                    ..c
                },
                Option::Some(cmd),
            )
        } else {
            let cmd = CmdView::NewSession(c.session);
            (
                ControllerView {
                    phase: Phase::AttachCreated,
                    has_ans: b,
                    emitted: c.emitted.push(cmd),
                    ..c
                },
                Option::Some(cmd),
            )
        },
        (Phase::AttachCreated, EventView::Launched) => {
            let cmd = CmdView::Read(StatusVar::SessionName);
            (
                ControllerView { phase: Phase::AttachStatus, emitted: c.emitted.push(cmd), ..c },
                Option::Some(cmd),
            )
        },
        (Phase::AttachStatus, EventView::Text(s)) => if trim(s) == c.session {
            (ControllerView { phase: Phase::Idle, status_ans: s, ..c }, Option::None)
        } else if c.use_cwd {
            let cmd = CmdView::Read(StatusVar::PaneCurrentPath);
            (
                ControllerView {
                    phase: Phase::AttachDir,
                    status_ans: s,
                    emitted: c.emitted.push(cmd),
                    ..c
                },
                Option::Some(cmd),
            )
        } else {
            let cmd = CmdView::Popup {
                bin: c.bin,
                session: c.session,
                use_cwd: c.use_cwd,
                dir: c.dir,
            };
            (
                ControllerView {
                    phase: Phase::AttachPopup,
                    status_ans: s,
                    emitted: c.emitted.push(cmd),
                    ..c
                },
                Option::Some(cmd),
            )
        },
        (Phase::AttachDir, EventView::Text(s)) => {
            let cmd = CmdView::Popup {
                bin: c.bin,
                session: c.session,
                use_cwd: c.use_cwd,
                dir: trim(s),
            };
            (
                ControllerView {
                    phase: Phase::AttachPopup,
                    dir: trim(s),
                    emitted: c.emitted.push(cmd),
                    ..c
                },
                Option::Some(cmd),
            )
        },
        (Phase::AttachPopup, EventView::Launched) => (
            ControllerView { phase: Phase::Idle, ..c },
            Option::None,
        ),
        (Phase::DetachPending, EventView::Launched) => (
            ControllerView { phase: Phase::Idle, ..c },
            Option::None,
        ),
        _ => (c, Option::None),
    }
}

impl Controller {
    /// The controller's invariant; established by `start`, kept by `step`.
    pub open spec fn inv(&self) -> bool {
        inv_view(self@)
    }

    /// Begins serving `req` against the bound multiplexer binary
    /// `multiplexer`; returns the controller and the first command.
    pub fn start(multiplexer: String, req: Request) -> (r: (Controller, Cmd))
        ensures
            r.0.inv(),
            r.0@.req == req@,
            r.0@.bin == multiplexer@,
            !(r.0@.phase is Idle),
            r.1@ == first_cmd(req@),
            r.0@.emitted == seq![first_cmd(req@)],
    {
        match req {
            Request::Toggle { session, use_cwd } => {
                let cmd = Cmd::Read(StatusVar::SessionName);
                let ghost rv = RequestView::Toggle { session: session@, use_cwd };
                let ghost em: Seq<CmdView> = seq![CmdView::Read(StatusVar::SessionName)];
                let c = Controller {
                    bin: multiplexer,
                    session,
                    use_cwd,
                    dir: String::new(),
                    phase: Phase::ToggleStatus,
                    req: Ghost(rv),
                    emitted: Ghost(em),
                    toggle_status: Ghost(Seq::empty()),
                    has_ans: Ghost(false),
                    status_ans: Ghost(Seq::empty()),
                };
                (c, cmd)
            },
            Request::Attach { session, use_cwd } => {
                let cmd = Cmd::CheckSession(session.clone());
                let ghost rv = RequestView::Attach { session: session@, use_cwd };
                let ghost em: Seq<CmdView> = seq![CmdView::CheckSession(rv->Attach_session)];
                let c = Controller {
                    bin: multiplexer,
                    session,
                    use_cwd,
                    dir: String::new(),
                    phase: Phase::AttachHas,
                    req: Ghost(rv),
                    emitted: Ghost(em),
                    toggle_status: Ghost(Seq::empty()),
                    has_ans: Ghost(false),
                    status_ans: Ghost(Seq::empty()),
                };
                proof {
                    assert(c@.emitted =~= toggle_prefix(c@) + seq![
                        CmdView::CheckSession(c@.session),
                    ]);
                }
                (c, cmd)
            },
            Request::Detach { session } => {
                let cmd = Cmd::DetachClient(session.clone());
                let ghost rv = RequestView::Detach { session: session@ };
                let ghost em: Seq<CmdView> = seq![CmdView::DetachClient(rv->Detach_session)];
                let c = Controller {
                    bin: multiplexer,
                    session,
                    use_cwd: false,
                    dir: String::new(),
                    phase: Phase::DetachPending,
                    req: Ghost(rv),
                    emitted: Ghost(em),
                    toggle_status: Ghost(Seq::empty()),
                    has_ans: Ghost(false),
                    status_ans: Ghost(Seq::empty()),
                };
                (c, cmd)
            },
        }
    }

    /// Whether the run is complete.
    pub fn done(&self) -> (r: bool)
        ensures
            r == (self@.phase is Idle),
    {
        matches!(self.phase, Phase::Idle)
    }

    /// Whether `e` is the kind of answer the controller awaits.
    pub fn accepts(&self, e: &Event) -> (r: bool)
        ensures
            r == wants(self@, e@),
    {
        match self.phase {
            Phase::ToggleStatus | Phase::AttachStatus | Phase::AttachDir => matches!(
                e,
                Event::Text(_),
            ),
            Phase::AttachHas => matches!(e, Event::Flag(_)),
            Phase::AttachCreated | Phase::AttachPopup | Phase::DetachPending => matches!(
                e,
                Event::Launched,
            ),
            Phase::Idle => false,
        }
    }

    /// Consumes the answer to the last command and returns the next
    /// command, or `None` when the run is complete.  On completion the
    /// commands issued over the whole run are exactly the request's trace.
    pub fn step(&mut self, e: Event) -> (r: Option<Cmd>)
        requires
            old(self).inv(),
            wants(old(self)@, e@),
        ensures
            final(self).inv(),
            final(self)@ == next(old(self)@, e@).0,
            opt_view(r) == next(old(self)@, e@).1,
            final(self)@.req == old(self)@.req,
            (r is None) <==> (final(self)@.phase is Idle),
            (final(self)@.phase is Idle) ==> final(self)@.emitted == full_trace(final(self)@),
    {
        match self.phase {
            Phase::ToggleStatus => match e {
                Event::Text(s) => {
                    self.toggle_status = Ghost(s@);
                    if trimmed_matches(s.as_str(), self.session.as_str()) {
                        self.phase = Phase::DetachPending;
                        let cmd = Cmd::DetachClient(self.session.clone());
                        self.emitted = Ghost(self.emitted@.push(cmd@));
                        proof {
                            assert(self@.emitted =~= full_trace(self@));
                            assert(self@ =~= next(old(self)@, EventView::Text(s@)).0);
                        }
                        Some(cmd)
                    } else {
                        self.phase = Phase::AttachHas;
                        let cmd = Cmd::CheckSession(self.session.clone());
                        self.emitted = Ghost(self.emitted@.push(cmd@));
                        proof {
                            assert(self@.emitted =~= toggle_prefix(self@) + seq![
                                CmdView::CheckSession(self@.session),
                            ]);
                            assert(self@ =~= next(old(self)@, EventView::Text(s@)).0);
                        }
                        Some(cmd)
                    }
                },
                _ => vstd::pervasive::unreached(),
            },
            Phase::AttachHas => match e {
                Event::Flag(b) => {
                    self.has_ans = Ghost(b);
                    if b {
                        self.phase = Phase::AttachStatus;
                        let cmd = Cmd::Read(StatusVar::SessionName);
                        self.emitted = Ghost(self.emitted@.push(cmd@));
                        proof {
                            assert(self@.emitted =~= toggle_prefix(self@) + seq![
                                CmdView::CheckSession(self@.session),
                            ] + create_part(self@.session, true) + seq![
                                CmdView::Read(StatusVar::SessionName),
                            ]);
                            assert(self@ =~= next(old(self)@, e@).0);
                        }
                        Some(cmd)
                    } else {
                        self.phase = Phase::AttachCreated;
                        let cmd = Cmd::NewSession(self.session.clone());
                        self.emitted = Ghost(self.emitted@.push(cmd@));
                        proof {
                            assert(self@.emitted =~= toggle_prefix(self@) + seq![
                                CmdView::CheckSession(self@.session),
                            ] + create_part(self@.session, false));
                            assert(self@ =~= next(old(self)@, e@).0);
                        }
                        Some(cmd)
                    }
                },
                _ => vstd::pervasive::unreached(),
            },
            Phase::AttachCreated => match e {
                Event::Launched => {
                    self.phase = Phase::AttachStatus;
                    let cmd = Cmd::Read(StatusVar::SessionName);
                    self.emitted = Ghost(self.emitted@.push(cmd@));
                    proof {
                        assert(self@.emitted =~= toggle_prefix(self@) + seq![
                            CmdView::CheckSession(self@.session),
                        ] + create_part(self@.session, self@.has_ans) + seq![
                            CmdView::Read(StatusVar::SessionName),
                        ]);
                        assert(self@ =~= next(old(self)@, e@).0);
                    }
                    Some(cmd)
                },
                _ => vstd::pervasive::unreached(),
            },
            Phase::AttachStatus => match e {
                Event::Text(s) => {
                    self.status_ans = Ghost(s@);
                    if trimmed_matches(s.as_str(), self.session.as_str()) {
                        self.phase = Phase::Idle;
                        proof {
                            assert(self@.emitted =~= full_trace(self@));
                            assert(self@ =~= next(old(self)@, EventView::Text(s@)).0);
                        }
                        None
                    } else if self.use_cwd {
                        self.phase = Phase::AttachDir;
                        let cmd = Cmd::Read(StatusVar::PaneCurrentPath);
                        self.emitted = Ghost(self.emitted@.push(cmd@));
                        proof {
                            assert(self@.emitted =~= toggle_prefix(self@) + seq![
                                CmdView::CheckSession(self@.session),
                            ] + create_part(self@.session, self@.has_ans) + seq![
                                CmdView::Read(StatusVar::SessionName),
                            ] + cwd_part(self@.use_cwd));
                            assert(self@ =~= next(old(self)@, EventView::Text(s@)).0);
                        }
                        Some(cmd)
                    } else {
                        self.phase = Phase::AttachPopup;
                        let cmd = Cmd::Popup {
                            bin: self.bin.clone(),
                            session: self.session.clone(),
                            use_cwd: self.use_cwd,
                            dir: self.dir.clone(),
                        };
                        self.emitted = Ghost(self.emitted@.push(cmd@));
                        proof {
                            assert(popup_part(
                                self@.bin,
                                self@.session,
                                self@.use_cwd,
                                self@.dir,
                                self@.status_ans,
                            ) =~= seq![cmd@]);
                            assert(self@.emitted =~= full_trace(self@));
                            assert(self@ =~= next(old(self)@, EventView::Text(s@)).0);
                        }
                        Some(cmd)
                    }
                },
                _ => vstd::pervasive::unreached(),
            },
            Phase::AttachDir => match e {
                Event::Text(s) => {
                    self.dir = trim_str(s.as_str());
                    self.phase = Phase::AttachPopup;
                    let cmd = Cmd::Popup {
                        bin: self.bin.clone(),
                        session: self.session.clone(),
                        use_cwd: self.use_cwd,
                        dir: self.dir.clone(),
                    };
                    self.emitted = Ghost(self.emitted@.push(cmd@));
                    proof {
                        assert(popup_part(
                            self@.bin,
                            self@.session,
                            self@.use_cwd,
                            self@.dir,
                            self@.status_ans,
                        ) =~= cwd_part(self@.use_cwd) + seq![cmd@]);
                        assert(self@.emitted =~= full_trace(self@));
                        assert(self@ =~= next(old(self)@, EventView::Text(s@)).0);
                    }
                    Some(cmd)
                },
                _ => vstd::pervasive::unreached(),
            },
            Phase::AttachPopup => match e {
                Event::Launched => {
                    self.phase = Phase::Idle;
                    proof {
                        assert(self@ =~= next(old(self)@, e@).0);
                    }
                    None
                },
                _ => vstd::pervasive::unreached(),
            },
            Phase::DetachPending => match e {
                Event::Launched => {
                    self.phase = Phase::Idle;
                    proof {
                        assert(self@ =~= next(old(self)@, e@).0);
                    }
                    None
                },
                _ => vstd::pervasive::unreached(),
            },
            Phase::Idle => vstd::pervasive::unreached(),
        }
    }
}

/// Law: a toggle issues exactly the status read followed by the detach
/// commands when the status names the session, and exactly the status read
/// followed by the attach commands when it does not; in either case its
/// mutating commands are exactly those of the operation it chose.
pub proof fn lemma_toggle_matches_chosen_operation(
    bin: Seq<char>,
    session: Seq<char>,
    use_cwd: bool,
    status0: Seq<char>,
    dir: Seq<char>,
    has: bool,
    status1: Seq<char>,
)
    ensures
        trim(status0) == session ==> toggle_trace(bin, session, use_cwd, status0, dir, has, status1)
            == seq![CmdView::Read(StatusVar::SessionName)] + detach_trace(session),
        trim(status0) != session ==> toggle_trace(bin, session, use_cwd, status0, dir, has, status1)
            == seq![CmdView::Read(StatusVar::SessionName)] + attach_trace(
            bin,
            session,
            use_cwd,
            dir,
            has,
            status1,
        ),
        trim(status0) == session ==> mutations(
            toggle_trace(bin, session, use_cwd, status0, dir, has, status1),
        ) == mutations(detach_trace(session)),
        trim(status0) != session ==> mutations(
            toggle_trace(bin, session, use_cwd, status0, dir, has, status1),
        ) == mutations(attach_trace(bin, session, use_cwd, dir, has, status1)),
{
    broadcast use vstd::seq_lib::group_seq_lib_default;

    let read = seq![CmdView::Read(StatusVar::SessionName)];
    let t = toggle_trace(bin, session, use_cwd, status0, dir, has, status1);
    reveal_with_fuel(Seq::filter, 2);
    assert(read.drop_last() =~= Seq::<CmdView>::empty());
    assert(mutations(read) =~= Seq::<CmdView>::empty());
    if trim(status0) == session {
        Seq::filter_distributes_over_add(read, detach_trace(session), |c: CmdView| !is_query(c));
        assert(mutations(t) =~= mutations(detach_trace(session)));
    } else {
        let a = attach_trace(bin, session, use_cwd, dir, has, status1);
        Seq::filter_distributes_over_add(read, a, |c: CmdView| !is_query(c));
        assert(mutations(t) =~= mutations(a));
    }
}

/// Law: an attach that finds the session already attached launches no
/// popup and reads no pane directory: its trace ends at the status read.
pub proof fn lemma_attach_no_popup_when_attached(
    bin: Seq<char>,
    session: Seq<char>,
    use_cwd: bool,
    dir: Seq<char>,
    has: bool,
    status: Seq<char>,
)
    requires
        trim(status) == session,
    ensures
        forall|i: int|
            0 <= i < attach_trace(bin, session, use_cwd, dir, has, status).len() ==> !(attach_trace(
                bin,
                session,
                use_cwd,
                dir,
                has,
                status,
            )[i] is Popup),
        forall|i: int|
            0 <= i < attach_trace(bin, session, use_cwd, dir, has, status).len()
                ==> attach_trace(bin, session, use_cwd, dir, has, status)[i] != CmdView::Read(
                StatusVar::PaneCurrentPath,
            ),
{
    let t = attach_trace(bin, session, use_cwd, dir, has, status);
    if has {
        assert(t =~= seq![
            CmdView::CheckSession(session),
            CmdView::Read(StatusVar::SessionName),
        ]);
    } else {
        assert(t =~= seq![
            CmdView::CheckSession(session),
            CmdView::NewSession(session),
            CmdView::Read(StatusVar::SessionName),
        ]);
    }
}

} // verus!
