use std::collections::HashMap;

use dkdc_sh::git::{
    checkout_new_branch, clone_local, clone_shallow, clone_shallow_with_env, cmd, cmd_with_env,
    config_set,
};
use dkdc_sh::job::{Action, Invocation, Job, Reply};
use dkdc_sh::Error;

/// A stand-in for git and the file system: repositories by directory.
struct Repo {
    branch: String,
    config: HashMap<String, String>,
}

struct Machine {
    repos: HashMap<String, Repo>,
}

fn ok(stdout: &str) -> Reply {
    Reply::Exited { success: true, stdout: stdout.as_bytes().to_vec(), stderr: Vec::new() }
}

fn fail(stderr: &str) -> Reply {
    Reply::Exited { success: false, stdout: Vec::new(), stderr: stderr.as_bytes().to_vec() }
}

impl Machine {
    fn with_repo(dir: &str) -> Self {
        let mut repos = HashMap::new();
        repos.insert(dir.to_string(), Repo { branch: "main".to_string(), config: HashMap::new() });
        Machine { repos }
    }

    fn git(&mut self, call: &Invocation) -> Reply {
        let mut args: Vec<&str> = call.args.iter().map(|a| a.as_str()).collect();
        if args.len() >= 2 && args[0] == "-c" {
            args.drain(0..2);
        }
        if args.first() == Some(&"clone") {
            let dest = args[args.len() - 1].to_string();
            let branch = args.iter().position(|a| *a == "--branch").map(|i| args[i + 1]);
            self.repos.insert(
                dest,
                Repo { branch: branch.unwrap_or("main").to_string(), config: HashMap::new() },
            );
            return ok("");
        }
        let dir = match &call.dir {
            Some(d) => d.clone(),
            None => return fail("fatal: not a git repository\n"),
        };
        let repo = match self.repos.get_mut(&dir) {
            Some(r) => r,
            None => return Reply::Failed("No such file or directory (os error 2)".to_string()),
        };
        match args.as_slice() {
            ["status", "--short"] | ["status"] => ok(""),
            ["config", key] => match repo.config.get(*key) {
                Some(v) => ok(&format!("{v}\n")),
                None => fail(""),
            },
            ["config", key, value] => {
                repo.config.insert(key.to_string(), value.to_string());
                ok("")
            }
            ["checkout", "-b", branch] => {
                repo.branch = branch.to_string();
                ok("")
            }
            ["branch", "--show-current"] => ok(&format!("{}\n", repo.branch)),
            [sub, ..] => fail(&format!("git: '{sub}' is not a git command. See 'git --help'.\n")),
            [] => fail("usage: git\n"),
        }
    }

    fn drive(&mut self, job: Job) -> Result<String, Error> {
        let mut job = job;
        let mut action = job.start();
        loop {
            action = match action {
                Action::Done(result) => return result,
                Action::Locate(program) => job.resume(Reply::Found(program == "git")),
                Action::Launch(call) => {
                    let reply = self.git(&call);
                    job.resume(reply)
                }
            };
        }
    }
}

const REPO: &str = "/tmp/repo";

#[test]
fn test_cmd_status() {
    let mut m = Machine::with_repo(REPO);
    let output = m.drive(cmd(REPO, &["status", "--short"])).unwrap();
    assert!(output.is_empty());
}

#[test]
fn test_cmd_invalid_dir() {
    let mut m = Machine::with_repo(REPO);
    let result = m.drive(cmd("/nonexistent_dir_12345", &["status"]));
    assert!(result.is_err());
}

#[test]
fn test_cmd_invalid_subcommand() {
    let mut m = Machine::with_repo(REPO);
    let result = m.drive(cmd(REPO, &["not-a-real-subcommand"]));
    assert!(result.is_err());
}

#[test]
fn test_config_set_and_read() {
    let mut m = Machine::with_repo(REPO);
    m.drive(config_set(REPO, "user.name", "TestUser")).unwrap();
    let output = m.drive(cmd(REPO, &["config", "user.name"])).unwrap();
    assert_eq!(output.trim(), "TestUser");
}

#[test]
fn test_checkout_new_branch() {
    let mut m = Machine::with_repo(REPO);
    m.drive(checkout_new_branch(REPO, "feature-test")).unwrap();
    let output = m.drive(cmd(REPO, &["branch", "--show-current"])).unwrap();
    assert_eq!(output.trim(), "feature-test");
}

#[test]
fn test_clone_local() {
    let mut m = Machine::with_repo(REPO);
    let dest_path = "/tmp/dest/cloned";
    let branch = m.drive(cmd(REPO, &["branch", "--show-current"])).unwrap().trim().to_string();
    m.drive(clone_local(REPO, dest_path, &branch)).unwrap();
    assert!(m.repos.contains_key(dest_path));
}

#[test]
fn test_cmd_with_env() {
    let mut m = Machine::with_repo(REPO);
    let output = m
        .drive(cmd_with_env(REPO, &["status", "--short"], &[("GIT_AUTHOR_NAME", "X")]))
        .unwrap();
    assert!(output.is_empty());
}

fn launched(job: Job) -> Invocation {
    let mut job = job;
    let _ = job.start();
    match job.resume(Reply::Found(true)) {
        Action::Launch(call) => call,
        _ => panic!("expected a launch"),
    }
}

#[test]
fn askpass_switches_off_credential_helpers() {
    let call = launched(cmd_with_env(REPO, &["fetch"], &[("GIT_ASKPASS", "/bin/pass")]));
    assert_eq!(call.args, vec!["-c", "credential.helper=", "fetch"]);
    assert_eq!(call.env, vec![("GIT_ASKPASS".to_string(), "/bin/pass".to_string())]);
    assert_eq!(call.dir.as_deref(), Some(REPO));
}

#[test]
fn without_askpass_arguments_are_unchanged() {
    let call = launched(cmd_with_env(REPO, &["fetch"], &[("GIT_ASKPASSX", "1")]));
    assert_eq!(call.args, vec!["fetch"]);
}

#[test]
fn shallow_clone_arguments() {
    let call = launched(clone_shallow("https://h/r.git", "/d", "main"));
    assert_eq!(call.args, vec!["clone", "--depth", "1", "--branch", "main", "https://h/r.git", "/d"]);
    assert!(call.dir.is_none());
    let call = launched(clone_shallow_with_env("u", "/d", "b", &[("GIT_ASKPASS", "p")]));
    assert_eq!(
        call.args,
        vec!["-c", "credential.helper=", "clone", "--depth", "1", "--branch", "b", "u", "/d"]
    );
}

#[test]
fn local_clone_arguments_and_error_label() {
    let call = launched(clone_local("/src", "/dst", "dev"));
    assert_eq!(call.args, vec!["clone", "--branch", "dev", "--single-branch", "/src", "/dst"]);
    let mut job = clone_local("/src", "/dst", "dev");
    let _ = job.start();
    let _ = job.resume(Reply::Found(true));
    match job.resume(fail("fatal: no such branch\n")) {
        Action::Done(Err(Error::CommandFailed { cmd, detail })) => {
            assert_eq!(cmd, "git clone (local)");
            assert_eq!(detail, "fatal: no such branch\n");
        }
        _ => panic!("expected CommandFailed"),
    }
}

#[test]
fn failed_git_command_is_labelled_with_subcommand() {
    let mut m = Machine::with_repo(REPO);
    match m.drive(cmd(REPO, &["frobnicate", "--all"])) {
        Err(Error::CommandFailed { cmd, detail }) => {
            assert_eq!(cmd, "git frobnicate");
            assert!(detail.contains("not a git command"));
        }
        _ => panic!("expected CommandFailed"),
    }
}

#[test]
fn missing_git_is_reported() {
    let mut job = config_set(REPO, "a", "b");
    match job.start() {
        Action::Locate(p) => assert_eq!(p, "git"),
        _ => panic!("expected a look-up"),
    }
    match job.resume(Reply::Found(false)) {
        Action::Done(Err(Error::CommandNotFound(p))) => assert_eq!(p, "git"),
        _ => panic!("expected CommandNotFound"),
    }
}
