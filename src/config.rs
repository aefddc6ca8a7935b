//! The session configuration and the execution mode it runs in.
use vstd::prelude::*;

verus! {

/// The execution environment of a session: exactly one of the two.
pub enum Mode<'a> {
    /// Commands run inside a sandbox, reached through one gateway command
    /// (`sandbox` if it is on the PATH, else `<path>/sandbox`).
    Sandbox { command: &'a str },
    /// Private (not sandboxed) network: the tools are called directly.
    Private {
        /// `goal` if it is on the PATH, else `<path>/goal`.
        goal_command: &'a str,
        /// `tealdbg` if it is on the PATH, else `<path>/tealdbg`.
        tealdbg_command: &'a str,
        /// The node directory, when not using the one in ALGORAND_DATA.
        node_dir: Option<&'a str>,
    },
}

/// How one session runs.
pub struct Config<'a> {
    pub mode: Mode<'a>,
    /// Directory of the staged transaction file and, in private mode, of the
    /// dry-run dump.
    pub output_files_dir: &'a str,
    /// Whether the generated files are removed once the session is over.
    pub delete_output_files: bool,
}

impl<'a> Mode<'a> {
    /// The sandbox reached through the `sandbox` command.
    pub fn default_sandbox() -> (m: Mode<'a>)
        ensures
            m matches Mode::Sandbox { command } && command@ == "sandbox"@,
    {
        Mode::Sandbox { command: "sandbox" }
    }

    /// A private network driven by `goal` and `tealdbg`, with the node
    /// directory taken from the environment.
    pub fn default_private() -> (m: Mode<'a>)
        ensures
            m matches Mode::Private { goal_command, tealdbg_command, node_dir } && goal_command@
                == "goal"@ && tealdbg_command@ == "tealdbg"@ && node_dir is None,
    {
        Mode::Private { goal_command: "goal", tealdbg_command: "tealdbg", node_dir: None }
    }
}

impl<'a> Default for Config<'a> {
    /// The sandbox mode, output files in the current directory, removed
    /// after the session.
    fn default() -> (c: Self)
        ensures
            c.mode matches Mode::Sandbox { command } && command@ == "sandbox"@,
            c.output_files_dir@ == "."@,
            c.delete_output_files,
    {
        Config { output_files_dir: ".", delete_output_files: true, mode: Mode::default_sandbox() }
    }
}

/// `name` placed in directory `dir`, as joining a relative path onto a
/// directory does: nothing is added to an empty directory, and a separator
/// only where `dir` does not already end in one.
pub open spec fn joined(dir: Seq<char>, name: Seq<char>) -> Seq<char> {
    if dir.len() == 0 {
        name
    } else if dir.last() == '/' {
        dir + name
    } else {
        dir + seq!['/'] + name
    }
}

/// Joins the relative path `name` onto the directory `dir`.
pub fn join_path(dir: &str, name: &str) -> (r: String)
    ensures
        r@ == joined(dir@, name@),
{
    let n = dir.unicode_len();
    if n == 0 {
        return name.to_owned();
    }
    let last = dir.get_char(n - 1);
    let mut s = String::from_str(dir);
    if last != '/' {
        s.append("/");
        proof {
            reveal_strlit("/");
        }
    }
    s.append(name);
    assert(s@ =~= joined(dir@, name@));
    s
}

} // verus!
