use tmux_scratch::controller::{Controller, Event, Request};

/// Drives a controller with the given scripted answers and returns every
/// argument vector it issued, in order.
fn drive(req: Request, answers: Vec<Event>) -> Vec<Vec<String>> {
    let (mut ctrl, first) = Controller::start(String::from("tmux"), req);
    let mut issued = vec![first.argv()];
    let mut answers = answers.into_iter();
    loop {
        if ctrl.done() {
            break;
        }
        let e = answers.next().expect("the scenario script ran out of answers");
        assert!(ctrl.accepts(&e), "the scenario script answered out of turn");
        match ctrl.step(e) {
            Some(cmd) => issued.push(cmd.argv()),
            None => break,
        }
    }
    assert!(ctrl.done());
    issued
}

#[test]
fn attach_creates_then_popups_with_cwd() {
    let issued = drive(
        Request::Attach { session: String::from("scratch"), use_cwd: true },
        vec![
            Event::Flag(false),
            Event::Launched,
            Event::Text(String::from("other\n")),
            Event::Text(String::from("/home/me/project\n")),
            Event::Launched,
        ],
    );
    assert_eq!(issued.len(), 5);
    assert_eq!(issued[0], vec!["has-session", "-t", "scratch"]);
    assert_eq!(issued[1], vec!["new-session", "-d", "-s", "scratch"]);
    assert_eq!(issued[2], vec!["display-message", "-p", "-F", "#{session_name}"]);
    assert_eq!(issued[3], vec!["display-message", "-p", "-F", "#{pane_current_path}"]);
    assert_eq!(issued[4][0], "popup");
    assert_eq!(issued[4][7], "-E");
    assert_eq!(issued[4][8], "tmux attach-session -t scratch -c /home/me/project");
}

#[test]
fn attach_skips_create_when_session_exists() {
    let issued = drive(
        Request::Attach { session: String::from("scratch"), use_cwd: true },
        vec![
            Event::Flag(true),
            Event::Text(String::from("other\n")),
            Event::Text(String::from("/home/me\n")),
            Event::Launched,
        ],
    );
    assert_eq!(issued.len(), 4);
    assert_eq!(issued[0], vec!["has-session", "-t", "scratch"]);
    assert_eq!(issued[1], vec!["display-message", "-p", "-F", "#{session_name}"]);
    assert_eq!(issued[2], vec!["display-message", "-p", "-F", "#{pane_current_path}"]);
    assert_eq!(issued[3][0], "popup");
}

#[test]
fn attach_is_noop_when_already_attached() {
    let issued = drive(
        Request::Attach { session: String::from("scratch"), use_cwd: true },
        vec![Event::Flag(true), Event::Text(String::from("scratch\n"))],
    );
    for argv in &issued {
        assert_ne!(argv[0], "popup");
        assert_ne!(argv.last().unwrap(), "#{pane_current_path}");
    }
    assert_eq!(issued.len(), 2);
}

#[test]
fn attach_without_cwd_skips_pane_query_and_c_clause() {
    let issued = drive(
        Request::Attach { session: String::from("work"), use_cwd: false },
        vec![
            Event::Flag(true),
            Event::Text(String::from("other\n")),
            Event::Launched,
        ],
    );
    assert_eq!(issued.len(), 3);
    assert_eq!(issued[0], vec!["has-session", "-t", "work"]);
    for argv in &issued {
        assert_ne!(argv.last().unwrap(), "#{pane_current_path}");
    }
    assert_eq!(issued[2][8], "tmux attach-session -t work");
    assert!(!issued[2][8].contains(" -c "));
}

#[test]
fn popup_directory_is_trimmed() {
    let issued = drive(
        Request::Attach { session: String::from("scratch"), use_cwd: true },
        vec![
            Event::Flag(true),
            Event::Text(String::from("other\n")),
            Event::Text(String::from("/tmp/dir\n")),
            Event::Launched,
        ],
    );
    assert_eq!(issued[3][8], "tmux attach-session -t scratch -c /tmp/dir");
    assert!(!issued[3][8].contains('\n'));
}

#[test]
fn toggle_detaches_when_attached() {
    let issued = drive(
        Request::Toggle { session: String::from("work"), use_cwd: true },
        vec![Event::Text(String::from("work\n")), Event::Launched],
    );
    assert_eq!(issued.len(), 2);
    assert_eq!(issued[0], vec!["display-message", "-p", "-F", "#{session_name}"]);
    assert_eq!(issued[1], vec!["detach", "-s", "work"]);
}

#[test]
fn toggle_when_not_attached_matches_attach() {
    let answers = || {
        vec![
            Event::Flag(false),
            Event::Launched,
            Event::Text(String::from("other\n")),
            Event::Text(String::from("/home/me\n")),
            Event::Launched,
        ]
    };
    let toggled = drive(
        Request::Toggle { session: String::from("scratch"), use_cwd: true },
        {
            let mut a = vec![Event::Text(String::from("other\n"))];
            a.extend(answers());
            a
        },
    );
    let attached = drive(
        Request::Attach { session: String::from("scratch"), use_cwd: true },
        answers(),
    );
    assert_eq!(toggled[0], vec!["display-message", "-p", "-F", "#{session_name}"]);
    assert_eq!(toggled[1..].to_vec(), attached);
}

#[test]
fn detach_issues_single_command() {
    let issued = drive(
        Request::Detach { session: String::from("scratch") },
        vec![Event::Launched],
    );
    assert_eq!(issued, vec![vec!["detach", "-s", "scratch"]]);
}

#[test]
fn controller_reports_done_and_rejects_further_events() {
    let (mut ctrl, _first) = Controller::start(
        String::from("tmux"),
        Request::Detach { session: String::from("scratch") },
    );
    assert!(!ctrl.done());
    assert!(ctrl.accepts(&Event::Launched));
    assert!(!ctrl.accepts(&Event::Flag(true)));
    assert!(ctrl.step(Event::Launched).is_none());
    assert!(ctrl.done());
    assert!(!ctrl.accepts(&Event::Launched));
}
