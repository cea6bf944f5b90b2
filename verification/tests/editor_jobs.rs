use dkdc_sh::editor::open;
use dkdc_sh::job::{Action, Reply, Streams};
use dkdc_sh::Error;

#[test]
fn editor_defaults_to_vim() {
    let job = open(None, "/tmp/notes.md");
    match job.start() {
        Action::Locate(p) => assert_eq!(p, "vim"),
        _ => panic!("expected a look-up"),
    }
}

#[test]
fn editor_runs_in_the_terminal_and_reports_failure() {
    let mut job = open(Some("nano"), "/tmp/notes.md");
    let _ = job.start();
    match job.resume(Reply::Found(true)) {
        Action::Launch(call) => {
            assert_eq!(call.program, "nano");
            assert_eq!(call.args, vec!["/tmp/notes.md"]);
            assert!(matches!(call.streams, Streams::Inherit));
        }
        _ => panic!("expected a launch"),
    }
    match job.resume(Reply::Exited { success: false, stdout: Vec::new(), stderr: Vec::new() }) {
        Action::Done(Err(Error::CommandFailed { cmd, detail })) => {
            assert_eq!(cmd, "nano");
            assert_eq!(detail, "failed to open /tmp/notes.md");
        }
        _ => panic!("expected CommandFailed"),
    }
}

#[test]
fn editor_success_is_ok() {
    let mut job = open(Some("nano"), "f");
    let _ = job.start();
    let _ = job.resume(Reply::Found(true));
    let done = job.resume(Reply::Exited { success: true, stdout: Vec::new(), stderr: Vec::new() });
    assert!(matches!(done, Action::Done(Ok(_))));
}
