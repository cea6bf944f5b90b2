use dkdc_sh::job::{Action, Invocation, Job, Reply, Streams};
use dkdc_sh::tmux::{
    attach, capture_pane, has_session, kill_session, new_session, send_keys, session_exists,
};
use dkdc_sh::Error;

/// A stand-in for a tmux server: its sessions and what their panes show.
struct Server {
    sessions: Vec<(String, String)>,
    launched: Vec<Vec<String>>,
}

fn status(success: bool) -> Reply {
    Reply::Exited { success, stdout: Vec::new(), stderr: Vec::new() }
}

impl Server {
    fn new() -> Self {
        Server { sessions: Vec::new(), launched: Vec::new() }
    }

    fn find(&self, name: &str) -> Option<usize> {
        self.sessions.iter().position(|(n, _)| n == name)
    }

    fn launch(&mut self, call: &Invocation) -> Reply {
        assert_eq!(call.program, "tmux");
        let args: Vec<&str> = call.args.iter().map(|a| a.as_str()).collect();
        self.launched.push(call.args.clone());
        match args.as_slice() {
            ["has-session", "-t", name] => status(self.find(name).is_some()),
            ["new-session", "-d", "-s", name] => {
                if self.find(name).is_some() {
                    status(false)
                } else {
                    self.sessions.push((name.to_string(), String::new()));
                    status(true)
                }
            }
            ["set-option", "-t", name, "remain-on-exit", "on"] => status(self.find(name).is_some()),
            ["send-keys", "-t", name, keys, "Enter"] => match self.find(name) {
                Some(i) => {
                    let shown = match keys.strip_prefix("echo ") {
                        Some(text) => format!("$ {keys}\n{text}\n"),
                        None => format!("$ {keys}\n"),
                    };
                    self.sessions[i].1.push_str(&shown);
                    status(true)
                }
                None => status(false),
            },
            ["kill-session", "-t", name] => match self.find(name) {
                Some(i) => {
                    self.sessions.remove(i);
                    status(true)
                }
                None => status(false),
            },
            ["attach", "-t", name] => status(self.find(name).is_some()),
            ["capture-pane", "-t", name, "-p", ..] => match self.find(name) {
                Some(i) => Reply::Exited {
                    success: true,
                    stdout: self.sessions[i].1.clone().into_bytes(),
                    stderr: Vec::new(),
                },
                None => status(false),
            },
            _ => status(false),
        }
    }

    fn drive(&mut self, job: Job) -> Result<String, Error> {
        let mut job = job;
        let mut action = job.start();
        loop {
            action = match action {
                Action::Done(result) => return result,
                Action::Locate(program) => job.resume(Reply::Found(program == "tmux")),
                Action::Launch(call) => {
                    let reply = self.launch(&call);
                    job.resume(reply)
                }
            };
        }
    }

    fn has(&mut self, name: &str) -> bool {
        let reply = self.launch(&has_session(name));
        session_exists(&reply)
    }
}

#[test]
fn test_has_session_nonexistent() {
    let mut s = Server::new();
    assert!(!s.has("dkdc_sh_nonexistent_99999"));
}

#[test]
fn test_new_kill_session() {
    let mut s = Server::new();
    let name = "dkdc_sh_test_0";

    s.drive(new_session(name, "echo hello")).unwrap();
    assert!(s.has(name));

    s.drive(kill_session(name)).unwrap();
    assert!(!s.has(name));
}

#[test]
fn test_new_session_duplicate() {
    let mut s = Server::new();
    let name = "dkdc_sh_test_1";

    s.drive(new_session(name, "echo hello")).unwrap();
    let result = s.drive(new_session(name, "echo again"));
    assert!(result.is_err());

    let _ = s.drive(kill_session(name));
}

#[test]
fn test_kill_session_idempotent() {
    let mut s = Server::new();
    s.drive(kill_session("dkdc_sh_nonexistent_99999")).unwrap();
}

#[test]
fn test_send_keys_nonexistent() {
    let mut s = Server::new();
    let result = s.drive(send_keys("dkdc_sh_nonexistent_99999", "echo hi"));
    assert!(result.is_err());
}

#[test]
fn test_capture_pane_nonexistent() {
    let mut s = Server::new();
    let result = s.drive(capture_pane("dkdc_sh_nonexistent_99999", None));
    assert!(result.is_err());
}

#[test]
fn test_attach_nonexistent() {
    let mut s = Server::new();
    let result = s.drive(attach("dkdc_sh_nonexistent_99999"));
    assert!(result.is_err());
}

#[test]
fn test_send_keys_and_capture() {
    let mut s = Server::new();
    let name = "dkdc_sh_test_2";

    s.drive(new_session(name, "echo started")).unwrap();

    let output = s.drive(capture_pane(name, Some(50))).unwrap();
    assert!(!output.is_empty());

    let output_all = s.drive(capture_pane(name, None)).unwrap();
    assert!(!output_all.is_empty());

    let _ = s.drive(kill_session(name));
}

#[test]
fn duplicate_session_message_and_nothing_created() {
    let mut s = Server::new();
    s.drive(new_session("w", "true")).unwrap();
    s.launched.clear();
    match s.drive(new_session("w", "true")) {
        Err(Error::Tmux(msg)) => assert_eq!(msg, "session 'w' already exists"),
        _ => panic!("expected a tmux error"),
    }
    assert_eq!(s.launched, vec![vec!["has-session", "-t", "w"]]);
}

#[test]
fn new_session_keeps_the_session_and_sends_the_command() {
    let mut s = Server::new();
    s.drive(new_session("w", "make run")).unwrap();
    let expected: Vec<Vec<&str>> = vec![
        vec!["has-session", "-t", "w"],
        vec!["new-session", "-d", "-s", "w"],
        vec!["set-option", "-t", "w", "remain-on-exit", "on"],
        vec!["has-session", "-t", "w"],
        vec!["send-keys", "-t", "w", "make run", "Enter"],
    ];
    assert_eq!(s.launched, expected);
}

#[test]
fn missing_session_message() {
    let mut s = Server::new();
    match s.drive(send_keys("nope", "ls")) {
        Err(Error::Tmux(msg)) => assert_eq!(msg, "session 'nope' does not exist"),
        _ => panic!("expected a tmux error"),
    }
    match s.drive(attach("nope")) {
        Err(Error::Tmux(msg)) => assert_eq!(msg, "session 'nope' does not exist"),
        _ => panic!("expected a tmux error"),
    }
}

#[test]
fn kill_of_missing_session_launches_no_kill() {
    let mut s = Server::new();
    s.drive(kill_session("gone")).unwrap();
    assert_eq!(s.launched, vec![vec!["has-session", "-t", "gone"]]);
}

#[test]
fn capture_arguments_with_and_without_lines() {
    let mut job = capture_pane("w", Some(50));
    let _ = job.start();
    let _ = job.resume(Reply::Found(true));
    match job.resume(status(true)) {
        Action::Launch(call) => {
            assert_eq!(call.args, vec!["capture-pane", "-t", "w", "-p", "-S", "-50"]);
            assert!(matches!(call.streams, Streams::Capture));
        }
        _ => panic!("expected capture-pane"),
    }
    let mut job = capture_pane("w", None);
    let _ = job.start();
    let _ = job.resume(Reply::Found(true));
    match job.resume(status(true)) {
        Action::Launch(call) => assert_eq!(call.args, vec!["capture-pane", "-t", "w", "-p"]),
        _ => panic!("expected capture-pane"),
    }
}

#[test]
fn probe_is_silent_and_a_failed_probe_means_absent() {
    let call = has_session("x");
    assert_eq!(call.args, vec!["has-session", "-t", "x"]);
    assert!(matches!(call.streams, Streams::Discard));
    assert!(!session_exists(&Reply::Failed("no tmux".to_string())));
    assert!(session_exists(&status(true)));
    assert!(!session_exists(&status(false)));
}

#[test]
fn failed_steps_report_their_messages() {
    let mut job = new_session("w", "x");
    let _ = job.start();
    let _ = job.resume(Reply::Found(true));
    let _ = job.resume(status(false));
    match job.resume(status(false)) {
        Action::Done(Err(Error::Tmux(msg))) => assert_eq!(msg, "failed to create session 'w'"),
        _ => panic!("expected a tmux error"),
    }
    let mut job = new_session("w", "x");
    let _ = job.start();
    let _ = job.resume(Reply::Found(true));
    let _ = job.resume(status(false));
    let _ = job.resume(status(true));
    match job.resume(status(false)) {
        Action::Done(Err(Error::Tmux(msg))) => {
            assert_eq!(msg, "failed to set remain-on-exit option")
        }
        _ => panic!("expected a tmux error"),
    }
}

#[test]
fn missing_tmux_is_reported() {
    let mut job = kill_session("w");
    let _ = job.start();
    match job.resume(Reply::Found(false)) {
        Action::Done(Err(Error::CommandNotFound(p))) => assert_eq!(p, "tmux"),
        _ => panic!("expected CommandNotFound"),
    }
}

#[test]
fn capture_with_lines_keeps_only_the_last_lines() {
    let mut job = capture_pane("w", Some(2));
    let _ = job.start();
    let _ = job.resume(Reply::Found(true));
    let _ = job.resume(status(true));
    let done = job.resume(Reply::Exited {
        success: true,
        stdout: b"old 1\nold 2\n$ make\nbuilt\n".to_vec(),
        stderr: Vec::new(),
    });
    match done {
        Action::Done(Ok(text)) => assert_eq!(text, "$ make\nbuilt\n"),
        _ => panic!("expected the captured text"),
    }
}

#[test]
fn capture_without_lines_keeps_everything() {
    let mut job = capture_pane("w", None);
    let _ = job.start();
    let _ = job.resume(Reply::Found(true));
    let _ = job.resume(status(true));
    let done = job.resume(Reply::Exited {
        success: true,
        stdout: b"a\nb\nc\n".to_vec(),
        stderr: Vec::new(),
    });
    match done {
        Action::Done(Ok(text)) => assert_eq!(text, "a\nb\nc\n"),
        _ => panic!("expected the captured text"),
    }
}
