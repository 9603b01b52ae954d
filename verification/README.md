# gitatlas

Multi-repository Git management from the command line and in a terminal
interface: find repositories under some roots, see how they are doing, and
fetch, pull, push, commit, branch and stash in one or many of them.

The rules are a library in `src/`, written in Verus: every function states in
its contract what it gives, and Verus proves it. The exceptions are five small
functions around calls into other crates and std, marked `external_body`, and
one `assume_specification`: Verus believes what they state of those calls. What
the program does outside (git itself, files, the network, the terminal) is in
`app/`.

## How it is laid out

- `src/text.rs`, `src/paths.rs`, `src/order.rs`, `src/style.rs`: texts, paths,
  stable sorting, and styled text.
- `src/models.rs`, `src/error.rs`, `src/cli.rs`: repositories, commits, files
  and branches; errors; the commands.
- `src/git/`: the health of a repository (`status`), its commits, files and
  branches (`detail`), addresses of remotes (`remote_url`), the ssh
  configuration (`ssh_config`), the credentials that are offered
  (`credentials`), and fetching, pulling and pushing (`operations`).
- `src/cache.rs`, `src/scanner.rs`, `src/resolver.rs`: what is known between
  runs, the order of a scan, and which repository the user means.
- `src/handlers.rs`, `src/report.rs`, `src/output.rs`: what each command does,
  what it says, and how that reads.
- `src/tui/`: the state of the terminal interface (`app`), its keys (`keys`),
  what is drawn of it (`view`), and durations and sizes (`format`).
- `app/`: the program around the library.
- `tests/`: the library on concrete values.

## How library and program talk

Where rules and outside work alternate, the library holds a task. A task asks
for one piece of outside work at a time; the program does it and hands back
what came of it; the task says what to report and what to do next. Commands
(`handlers::Task`), searches (`resolver::Resolving`), squashes
(`git::detail::SquashTask`), operations on remotes
(`git::operations::RemoteTask`) and the terminal interface (`tui::app::App`)
all work this way.
