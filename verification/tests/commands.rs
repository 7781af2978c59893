use tmux_scratch::cmd::{attach_command, Cmd, StatusVar};

#[test]
fn attach_command_with_cwd_has_c_clause() {
    let c = attach_command("tmux", "scratch", true, "/home/me/project");
    assert_eq!(c, "tmux attach-session -t scratch -c /home/me/project");
}

#[test]
fn attach_command_without_cwd_omits_c_clause() {
    let c = attach_command("tmux", "work", false, "/home/me/project");
    assert_eq!(c, "tmux attach-session -t work");
    assert!(!c.contains(" -c "));
}

#[test]
fn attach_command_names_the_bound_binary() {
    let c = attach_command("/usr/local/bin/tmux", "scratch", false, "");
    assert_eq!(c, "/usr/local/bin/tmux attach-session -t scratch");
}

#[test]
fn check_session_argv() {
    let argv = Cmd::CheckSession(String::from("scratch")).argv();
    assert_eq!(argv, vec!["has-session", "-t", "scratch"]);
}

#[test]
fn new_session_argv() {
    let argv = Cmd::NewSession(String::from("scratch")).argv();
    assert_eq!(argv, vec!["new-session", "-d", "-s", "scratch"]);
}

#[test]
fn detach_argv() {
    let argv = Cmd::DetachClient(String::from("work")).argv();
    assert_eq!(argv, vec!["detach", "-s", "work"]);
}

#[test]
fn read_pane_path_argv() {
    let argv = Cmd::Read(StatusVar::PaneCurrentPath).argv();
    assert_eq!(argv, vec!["display-message", "-p", "-F", "#{pane_current_path}"]);
}

#[test]
fn read_session_name_argv() {
    let argv = Cmd::Read(StatusVar::SessionName).argv();
    assert_eq!(argv, vec!["display-message", "-p", "-F", "#{session_name}"]);
}

#[test]
fn popup_argv() {
    let argv = Cmd::Popup {
        bin: String::from("tmux"),
        session: String::from("scratch"),
        use_cwd: true,
        dir: String::from("/tmp/here"),
    }
    .argv();
    assert_eq!(
        argv,
        vec![
            "popup",
            "-d",
            "'#{pane_current_path}'",
            "-xC",
            "-yC",
            "-w95%",
            "-h95%",
            "-E",
            "tmux attach-session -t scratch -c /tmp/here",
        ]
    );
}
