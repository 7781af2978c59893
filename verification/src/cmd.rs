//! The multiplexer commands the controller can issue.
//!
//! A [`Cmd`] is pure data: the argument vector handed to the multiplexer
//! binary is computed by [`Cmd::argv`], and the string executed inside the
//! popup window by [`attach_command`].  Queries (`Read`, `CheckSession`)
//! block on the subprocess and yield an answer; the remaining commands are
//! fire-and-forget launches.

use vstd::prelude::*;
use vstd::string::StringExecFns;

verus! {

/// The status variables the controller reads through `display-message`.
#[derive(Clone, Copy, PartialEq, Eq, Structural)]
pub enum StatusVar {
    /// `#{pane_current_path}`: the working directory of the active pane.
    PaneCurrentPath,
    /// `#{session_name}`: the session the invoking client is attached to.
    SessionName,
}

/// The mathematical value of a [`Cmd`].
#[verifier::ext_equal]
pub ghost enum CmdView {
    Read(StatusVar),
    CheckSession(Seq<char>),
    NewSession(Seq<char>),
    DetachClient(Seq<char>),
    Popup { bin: Seq<char>, session: Seq<char>, use_cwd: bool, dir: Seq<char> },
}

/// A single multiplexer command.
pub enum Cmd {
    /// Blocking query: print the given status variable and capture it.
    Read(StatusVar),
    /// Blocking query: `has-session -t <name>`; the answer is the exit status.
    CheckSession(String),
    /// Fire-and-forget: `new-session -d -s <name>`.
    NewSession(String),
    /// Fire-and-forget: `detach -s <name>`.
    DetachClient(String),
    /// Fire-and-forget: open a centered popup running the attach command,
    /// built over the bound multiplexer binary `bin`.
    Popup { bin: String, session: String, use_cwd: bool, dir: String },
}

impl View for Cmd {
    type V = CmdView;

    open spec fn view(&self) -> CmdView {
        match self {
            Cmd::Read(v) => CmdView::Read(*v),
            Cmd::CheckSession(n) => CmdView::CheckSession(n@),
            Cmd::NewSession(n) => CmdView::NewSession(n@),
            Cmd::DetachClient(n) => CmdView::DetachClient(n@),
            Cmd::Popup { bin, session, use_cwd, dir } => CmdView::Popup {
                bin: bin@,
                session: session@,
                use_cwd: *use_cwd,
                dir: dir@,
            },
        }
    }
}

/// Whether a command only observes the multiplexer.
pub open spec fn is_query(c: CmdView) -> bool {
    c is Read || c is CheckSession
}

/// The commands of `t` that mutate multiplexer state, in order.
pub open spec fn mutations(t: Seq<CmdView>) -> Seq<CmdView> {
    t.filter(|c: CmdView| !is_query(c))
}

/// The format string that `display-message` resolves for `v`.
pub open spec fn var_format(v: StatusVar) -> Seq<char> {
    match v {
        StatusVar::PaneCurrentPath => "#{pane_current_path}"@,
        StatusVar::SessionName => "#{session_name}"@,
    }
}

/// The command string executed inside the popup: the bound multiplexer
/// binary re-attaching the session, with a `-c <dir>` clause exactly when
/// `use_cwd` is set.
pub open spec fn attach_command_view(
    bin: Seq<char>,
    session: Seq<char>,
    use_cwd: bool,
    dir: Seq<char>,
) -> Seq<char> {
    bin + " attach-session -t "@ + session + (if use_cwd {
        " -c "@ + dir
    } else {
        Seq::<char>::empty()
    })
}

/// Builds the string executed inside the popup window.
pub fn attach_command(bin: &str, session: &str, use_cwd: bool, dir: &str) -> (r: String)
    ensures
        r@ == attach_command_view(bin@, session@, use_cwd, dir@),
{
    let mut r = bin.to_owned();
    r.append(" attach-session -t ");
    r.append(session);
    if use_cwd {
        r.append(" -c ");
        r.append(dir);
    }
    proof {
        assert(r@ =~= attach_command_view(bin@, session@, use_cwd, dir@));
    }
    r
}

/// The argument vector handed to the multiplexer binary for `c`.
pub open spec fn argv_of(c: CmdView) -> Seq<Seq<char>> {
    match c {
        CmdView::Read(v) => seq!["display-message"@, "-p"@, "-F"@, var_format(v)],
        CmdView::CheckSession(n) => seq!["has-session"@, "-t"@, n],
        CmdView::NewSession(n) => seq!["new-session"@, "-d"@, "-s"@, n],
        CmdView::DetachClient(n) => seq!["detach"@, "-s"@, n],
        CmdView::Popup { bin, session, use_cwd, dir } => seq![
            "popup"@,
            "-d"@,
            "'#{pane_current_path}'"@,
            "-xC"@,
            "-yC"@,
            "-w95%"@,
            "-h95%"@,
            "-E"@,
            attach_command_view(bin, session, use_cwd, dir),
        ],
    }
}

impl Cmd {
    /// Computes the exact argument vector for this command.
    pub fn argv(&self) -> (r: Vec<String>)
        ensures
            r.deep_view() == argv_of(self@),
    {
        let mut r: Vec<String> = Vec::new();
        match self {
            Cmd::Read(v) => {
                r.push(String::from_str("display-message"));
                r.push(String::from_str("-p"));
                r.push(String::from_str("-F"));
                match v {
                    StatusVar::PaneCurrentPath => r.push(
                        String::from_str("#{pane_current_path}"),
                    ),
                    StatusVar::SessionName => r.push(String::from_str("#{session_name}")),
                }
            },
            Cmd::CheckSession(n) => {
                r.push(String::from_str("has-session"));
                r.push(String::from_str("-t"));
                r.push(n.clone());
            },
            Cmd::NewSession(n) => {
                r.push(String::from_str("new-session"));
                r.push(String::from_str("-d"));
                r.push(String::from_str("-s"));
                r.push(n.clone());
            },
            Cmd::DetachClient(n) => {
                r.push(String::from_str("detach"));
                r.push(String::from_str("-s"));
                r.push(n.clone());
            },
            Cmd::Popup { bin, session, use_cwd, dir } => {
                r.push(String::from_str("popup"));
                r.push(String::from_str("-d"));
                r.push(String::from_str("'#{pane_current_path}'"));
                r.push(String::from_str("-xC"));
                r.push(String::from_str("-yC"));
                r.push(String::from_str("-w95%"));
                r.push(String::from_str("-h95%"));
                r.push(String::from_str("-E"));
                r.push(attach_command(bin.as_str(), session.as_str(), *use_cwd, dir.as_str()));
            },
        }
        proof {
            assert(r.deep_view() =~= argv_of(self@));
        }
        r
    }
}

} // verus!
