# dkdc-sh

Shell library: command look-up, running commands, git and tmux helpers.

- `src/` is the verified library. Each operation (`run`, `git::cmd`,
  `tmux::new_session`, `editor::open`, ...) returns a `job::Job`, the exact plan of
  look-ups and process launches the operation makes. The job decides, reply by reply,
  whether to go on and which result or error to give; its contracts and the laws
  (`job::outcome`) are proved with Verus.
- `app/` performs the plans: it looks programs up, launches processes with
  `std::process`, and offers the familiar blocking API (`run`, `git::cmd`, ...) and
  the Python bindings.
- `tests/` drive the jobs against stand-ins for the machine, git and a tmux server.
