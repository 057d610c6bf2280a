//! What a session's shell is started with: the size of its terminal, and the
//! program, arguments and environment that tell the sessions apart.

use crate::text::{decimal, decimal_text};
use vstd::prelude::*;

verus! {

/// The size of every session's terminal. It is fixed: nothing resizes it
/// while the shell runs.
#[derive(Clone, Copy, Debug, PartialEq, Eq, Structural)]
pub struct PtyGeometry {
    pub rows: u16,
    pub cols: u16,
    pub pixel_width: u16,
    pub pixel_height: u16,
}

/// The size of every session's terminal: 24 rows of 80 columns.
pub open spec fn standard_geometry() -> PtyGeometry {
    PtyGeometry { rows: 24, cols: 80, pixel_width: 0, pixel_height: 0 }
}

/// The size of every session's terminal.
pub fn geometry() -> (size: PtyGeometry)
    ensures
        size == standard_geometry(),
{
    PtyGeometry { rows: 24, cols: 80, pixel_width: 0, pixel_height: 0 }
}

/// One variable set in the environment of a session's shell.
#[derive(Clone, Debug)]
pub struct EnvVar {
    pub name: String,
    pub value: String,
}

impl EnvVar {
    /// The name and the value as sequences of characters.
    pub open spec fn view(&self) -> (Seq<char>, Seq<char>) {
        (self.name@, self.value@)
    }
}

/// The program a session runs, with its arguments and the variables added
/// to its environment.
#[derive(Clone, Debug)]
pub struct CommandSpec {
    pub program: String,
    pub args: Vec<String>,
    pub env: Vec<EnvVar>,
}

/// The directory that holds one startup directory for each session, given
/// the directory the dashboard was built in.
pub open spec fn terminals_root(base: Seq<char>) -> Seq<char> {
    base + "/../.terminals"@
}

/// The startup script of session `id` under `root`.
pub open spec fn startup_script(root: Seq<char>, id: u8) -> Seq<char> {
    root + "/"@ + decimal(id as nat) + "/.bashrc"@
}

/// The arguments of the shell of session `id`: no login profile, the
/// session's own startup script, and an interactive shell.
pub open spec fn shell_args(root: Seq<char>, id: u8) -> Seq<Seq<char>> {
    seq!["--noprofile"@, "--rcfile"@, startup_script(root, id), "-i"@]
}

/// The variables set for the shell of session `id`: its identity, and the
/// kind of terminal it talks to.
pub open spec fn shell_env(id: u8) -> Seq<(Seq<char>, Seq<char>)> {
    seq![("TERMINAL_ID"@, decimal(id as nat)), ("TERM"@, "xterm-256color"@)]
}

/// The views of a run of variables.
pub open spec fn env_views(env: Seq<EnvVar>) -> Seq<(Seq<char>, Seq<char>)> {
    Seq::new(env.len(), |i: int| env[i]@)
}

/// The directory that holds one startup directory for each session.
pub fn make_terminals_root(base: &str) -> (root: String)
    ensures
        root@ == terminals_root(base@),
{
    let mut root = String::from_str(base);
    root.append("/../.terminals");
    root
}

/// The startup script of session `id` under `root`.
pub fn make_startup_script(root: &str, id: u8) -> (path: String)
    ensures
        path@ == startup_script(root@, id),
{
    let mut path = String::from_str(root);
    path.append("/");
    let number = decimal_text(id as usize);
    path.append(number.as_str());
    path.append("/.bashrc");
    path
}

/// The command that starts the shell of session `id`, whose startup script
/// lies under `root`.
pub fn shell_command(id: u8, root: &str) -> (command: CommandSpec)
    ensures
        command.program@ == "bash"@,
        command.args.deep_view() == shell_args(root@, id),
        env_views(command.env@) == shell_env(id),
{
    let mut args: Vec<String> = Vec::new();
    args.push(String::from_str("--noprofile"));
    args.push(String::from_str("--rcfile"));
    args.push(make_startup_script(root, id));
    args.push(String::from_str("-i"));
    assert(args.deep_view() =~= shell_args(root@, id));
    let mut env: Vec<EnvVar> = Vec::new();
    env.push(
        EnvVar { name: String::from_str("TERMINAL_ID"), value: decimal_text(id as usize) },
    );
    env.push(EnvVar { name: String::from_str("TERM"), value: String::from_str("xterm-256color") });
    assert(env_views(env@) =~= shell_env(id));
    CommandSpec { program: String::from_str("bash"), args, env }
}

} // verus!
