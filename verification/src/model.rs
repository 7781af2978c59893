//! A model of the external multiplexer, and the laws the controller's
//! traces obey against it.
//!
//! The multiplexer's session table and attachment point live outside this
//! process; the controller never caches them.  This module models them as
//! a ghost state, says how each issued command changes that state, and
//! proves what a whole toggle run does to it.

use vstd::prelude::*;
use crate::cmd::{CmdView, StatusVar};
use crate::controller::{detach_trace, attach_trace, toggle_trace, cwd_part, create_part,
    popup_part};
use crate::text::trim;

verus! {

/// The multiplexer's externally held state: which sessions exist, and
/// which session the invoking client is attached to, if any.  (The
/// attachment is that of the invoking client's focused session — the
/// status read the controller makes cannot tell a session attached
/// elsewhere from one not attached at all.)
#[verifier::ext_equal]
pub ghost struct MuxView {
    /// The names of the sessions that exist.
    pub sessions: Set<Seq<char>>,
    /// The session the invoking client is attached to.
    pub attached: Option<Seq<char>>,
}

/// How the multiplexer answers the session-existence query.
pub open spec fn has_session_answer(m: MuxView, session: Seq<char>) -> bool {
    m.sessions.contains(session)
}

/// Whether a status answer is truthful for `m` with respect to `session`:
/// it trims to the session's name exactly when that session is the
/// attached one.
pub open spec fn status_truthful(m: MuxView, session: Seq<char>, status: Seq<char>) -> bool {
    (trim(status) == session) <==> (m.attached == Option::Some(session))
}

/// The state after the multiplexer performs one command.  Queries change
/// nothing; `new-session` adds the session; `detach` clears the attachment
/// when it names the attached session; the popup attaches the session it
/// names, provided that session exists.
pub open spec fn apply_cmd(m: MuxView, c: CmdView) -> MuxView {
    match c {
        CmdView::Read(_) => m,
        CmdView::CheckSession(_) => m,
        CmdView::NewSession(n) => MuxView { sessions: m.sessions.insert(n), ..m },
        CmdView::DetachClient(n) => if m.attached == Option::Some(n) {
            MuxView { attached: Option::None, ..m }
        } else {
            m
        },
        CmdView::Popup { session, .. } => if m.sessions.contains(session) {
            MuxView { attached: Option::Some(session), ..m }
        } else {
            m
        },
    }
}

/// The state after the multiplexer performs every command of `t` in order.
pub open spec fn apply_trace(m: MuxView, t: Seq<CmdView>) -> MuxView
    decreases t.len(),
{
    if t.len() == 0 {
        m
    } else {
        apply_trace(apply_cmd(m, t[0]), t.drop_first())
    }
}

proof fn lemma_apply_trace_add(m: MuxView, a: Seq<CmdView>, b: Seq<CmdView>)
    ensures
        apply_trace(m, a + b) == apply_trace(apply_trace(m, a), b),
    decreases a.len(),
{
    if a.len() == 0 {
        assert(a + b =~= b);
    } else {
        assert((a + b)[0] == a[0]);
        assert((a + b).drop_first() =~= a.drop_first() + b);
        lemma_apply_trace_add(apply_cmd(m, a[0]), a.drop_first(), b);
    }
}

proof fn lemma_apply_singleton(m: MuxView, c: CmdView)
    ensures
        apply_trace(m, seq![c]) == apply_cmd(m, c),
{
    let t = seq![c];
    assert(t[0] == c);
    assert(t.drop_first() =~= Seq::<CmdView>::empty());
    assert(apply_trace(m, t) == apply_trace(apply_cmd(m, c), Seq::<CmdView>::empty()));
    assert(apply_trace(apply_cmd(m, c), Seq::<CmdView>::empty()) == apply_cmd(m, c));
}

/// Law: the existence query answers false for a session no create call
/// has targeted, and answers true once a create call for it has reached
/// the multiplexer.
pub proof fn lemma_has_session_create(m: MuxView, session: Seq<char>)
    ensures
        !m.sessions.contains(session) ==> !has_session_answer(m, session),
        has_session_answer(apply_cmd(m, CmdView::NewSession(session)), session),
{
}

/// What one toggle does to the multiplexer: detaches the session when it
/// was the attached one, and otherwise makes it exist and attaches it.
pub open spec fn toggle_effect(m: MuxView, session: Seq<char>) -> MuxView {
    if m.attached == Option::Some(session) {
        MuxView { attached: Option::None, ..m }
    } else {
        MuxView { sessions: m.sessions.insert(session), attached: Option::Some(session) }
    }
}

proof fn lemma_attach_head(m: MuxView, session: Seq<char>, has: bool)
    requires
        has == has_session_answer(m, session),
    ensures
        apply_trace(
            m,
            seq![CmdView::CheckSession(session)] + create_part(session, has) + seq![
                CmdView::Read(StatusVar::SessionName),
            ],
        ) == (MuxView { sessions: m.sessions.insert(session), attached: m.attached }),
{
    let check = seq![CmdView::CheckSession(session)];
    let read = seq![CmdView::Read(StatusVar::SessionName)];
    lemma_apply_trace_add(m, check + create_part(session, has), read);
    lemma_apply_trace_add(m, check, create_part(session, has));
    lemma_apply_singleton(m, CmdView::CheckSession(session));
    let m1 = apply_trace(m, check);
    assert(m1 == m);
    let m2 = apply_trace(m1, create_part(session, has));
    if has {
        assert(m2 == m);
        assert(m.sessions.insert(session) =~= m.sessions);
    } else {
        lemma_apply_singleton(m1, CmdView::NewSession(session));
        assert(m2 == MuxView { sessions: m.sessions.insert(session), ..m });
    }
    lemma_apply_singleton(m2, CmdView::Read(StatusVar::SessionName));
    assert(apply_trace(m, check + create_part(session, has) + read) =~= MuxView {
        sessions: m.sessions.insert(session),
        attached: m.attached,
    });
}

/// Law: a whole attach run, driven by truthful answers and not already
/// attached, makes the session exist and attaches it.
pub proof fn lemma_attach_trace_effect(
    m: MuxView,
    bin: Seq<char>,
    session: Seq<char>,
    use_cwd: bool,
    dir: Seq<char>,
    status: Seq<char>,
)
    requires
        status_truthful(m, session, status),
        m.attached != Option::Some(session),
    ensures
        apply_trace(
            m,
            attach_trace(bin, session, use_cwd, dir, has_session_answer(m, session), status),
        ) == (MuxView { sessions: m.sessions.insert(session), attached: Option::Some(session) }),
{
    let has = has_session_answer(m, session);
    let t = attach_trace(bin, session, use_cwd, dir, has, status);
    let head = seq![CmdView::CheckSession(session)] + create_part(session, has) + seq![
        CmdView::Read(StatusVar::SessionName),
    ];
    let tail = popup_part(bin, session, use_cwd, dir, status);
    assert(t == head + tail);
    lemma_apply_trace_add(m, head, tail);
    lemma_attach_head(m, session, has);
    let m3 = apply_trace(m, head);
    assert(m3 == MuxView { sessions: m.sessions.insert(session), attached: m.attached });
    assert(trim(status) != session);
    let popup = CmdView::Popup { bin, session, use_cwd, dir };
    assert(tail == cwd_part(use_cwd) + seq![popup]);
    lemma_apply_trace_add(m3, cwd_part(use_cwd), seq![popup]);
    lemma_apply_singleton(m3, CmdView::Read(StatusVar::PaneCurrentPath));
    assert(apply_trace(m3, cwd_part(use_cwd)) == m3);
    lemma_apply_singleton(m3, popup);
    assert(m3.sessions.contains(session));
    assert(apply_trace(m, t) =~= MuxView {
        sessions: m.sessions.insert(session),
        attached: Option::Some(session),
    });
}

/// Law: a whole attach run that finds the session already attached
/// changes no attachment: it at most makes the session exist.
pub proof fn lemma_attach_trace_noop_when_attached(
    m: MuxView,
    bin: Seq<char>,
    session: Seq<char>,
    use_cwd: bool,
    dir: Seq<char>,
    status: Seq<char>,
)
    requires
        status_truthful(m, session, status),
        m.attached == Option::Some(session),
    ensures
        apply_trace(
            m,
            attach_trace(bin, session, use_cwd, dir, has_session_answer(m, session), status),
        ) == (MuxView { sessions: m.sessions.insert(session), attached: m.attached }),
{
    let has = has_session_answer(m, session);
    let t = attach_trace(bin, session, use_cwd, dir, has, status);
    let head = seq![CmdView::CheckSession(session)] + create_part(session, has) + seq![
        CmdView::Read(StatusVar::SessionName),
    ];
    let tail = popup_part(bin, session, use_cwd, dir, status);
    assert(t == head + tail);
    lemma_apply_trace_add(m, head, tail);
    lemma_attach_head(m, session, has);
    assert(trim(status) == session);
    assert(tail =~= Seq::<CmdView>::empty());
    assert(apply_trace(m, t) =~= MuxView {
        sessions: m.sessions.insert(session),
        attached: m.attached,
    });
}

/// Law: a whole toggle run, driven by truthful and interference-free
/// answers, performs `toggle_effect`: it detaches the session when it was
/// attached, and otherwise creates (if needed) and attaches it.
pub proof fn lemma_toggle_trace_effect(
    m: MuxView,
    bin: Seq<char>,
    session: Seq<char>,
    use_cwd: bool,
    dir: Seq<char>,
    status0: Seq<char>,
    status1: Seq<char>,
)
    requires
        status_truthful(m, session, status0),
        status_truthful(m, session, status1),
    ensures
        apply_trace(
            m,
            toggle_trace(
                bin,
                session,
                use_cwd,
                status0,
                dir,
                has_session_answer(m, session),
                status1,
            ),
        ) == toggle_effect(m, session),
{
    let has = has_session_answer(m, session);
    let read = seq![CmdView::Read(StatusVar::SessionName)];
    let t = toggle_trace(bin, session, use_cwd, status0, dir, has, status1);
    if trim(status0) == session {
        assert(t == read + detach_trace(session));
        lemma_apply_trace_add(m, read, detach_trace(session));
        lemma_apply_singleton(m, CmdView::Read(StatusVar::SessionName));
        lemma_apply_singleton(m, CmdView::DetachClient(session));
        assert(apply_trace(m, t) =~= toggle_effect(m, session));
    } else {
        assert(t == read + attach_trace(bin, session, use_cwd, dir, has, status1));
        lemma_apply_trace_add(m, read, attach_trace(bin, session, use_cwd, dir, has, status1));
        lemma_apply_singleton(m, CmdView::Read(StatusVar::SessionName));
        lemma_attach_trace_effect(m, bin, session, use_cwd, dir, status1);
        assert(apply_trace(m, t) =~= toggle_effect(m, session));
    }
}

/// Law: toggling twice restores whether the session is the attached one.
pub proof fn lemma_toggle_effect_round_trip(m: MuxView, session: Seq<char>)
    ensures
        (toggle_effect(toggle_effect(m, session), session).attached == Option::Some(session))
            <==> (m.attached == Option::Some(session)),
{
}

/// Law: two whole toggle runs, each driven by answers truthful for the
/// state it finds and free of outside interference, leave the session
/// attached exactly when it was attached at the start.
pub proof fn lemma_toggle_twice_round_trip(
    m: MuxView,
    bin: Seq<char>,
    session: Seq<char>,
    use_cwd: bool,
    dir0: Seq<char>,
    dir1: Seq<char>,
    status0: Seq<char>,
    status0b: Seq<char>,
    status1: Seq<char>,
    status1b: Seq<char>,
)
    requires
        status_truthful(m, session, status0),
        status_truthful(m, session, status0b),
        status_truthful(toggle_effect(m, session), session, status1),
        status_truthful(toggle_effect(m, session), session, status1b),
    ensures
        ({
            let m1 = apply_trace(
                m,
                toggle_trace(
                    bin,
                    session,
                    use_cwd,
                    status0,
                    dir0,
                    has_session_answer(m, session),
                    status0b,
                ),
            );
            let m2 = apply_trace(
                m1,
                toggle_trace(
                    bin,
                    session,
                    use_cwd,
                    status1,
                    dir1,
                    has_session_answer(m1, session),
                    status1b,
                ),
            );
            (m2.attached == Option::Some(session)) <==> (m.attached == Option::Some(session))
        }),
{
    lemma_toggle_trace_effect(m, bin, session, use_cwd, dir0, status0, status0b);
    let m1 = toggle_effect(m, session);
    lemma_toggle_trace_effect(m1, bin, session, use_cwd, dir1, status1, status1b);
    lemma_toggle_effect_round_trip(m, session);
}

} // verus!
