//! Resolution of the external commands that a session runs.
use vstd::prelude::*;

use crate::config::{joined, join_path, Config, Mode};
use crate::error::LaunchError;

verus! {

/// One external command: the program to start and its arguments.
pub struct CommandLine {
    pub program: String,
    pub args: Vec<String>,
}

/// The text of each argument.
pub open spec fn arg_views(args: Seq<String>) -> Seq<Seq<char>> {
    args.map_values(|s: String| s@)
}

impl View for CommandLine {
    type V = (Seq<char>, Seq<Seq<char>>);

    open spec fn view(&self) -> (Seq<char>, Seq<Seq<char>>) {
        (self.program@, arg_views(self.args@))
    }
}

fn push_arg(args: &mut Vec<String>, a: &str)
    ensures
        arg_views(final(args)@) == arg_views(old(args)@).push(a@),
{
    args.push(String::from_str(a));
    assert(arg_views(args@) =~= arg_views(old(args)@).push(a@));
}

/// Name of the staged transaction file.
pub open spec fn tx_file() -> Seq<char> {
    "output.tx"@
}

/// Name of the dry-run dump file.
pub open spec fn dump_file() -> Seq<char> {
    "dr.msgp"@
}

/// The command that runs the dry-run step.
pub open spec fn dry_run_program(mode: Mode) -> Seq<char> {
    match mode {
        Mode::Sandbox { command } => command@,
        Mode::Private { goal_command, .. } => goal_command@,
    }
}

/// The command that runs the debugger.
pub open spec fn debug_program(mode: Mode) -> Seq<char> {
    match mode {
        Mode::Sandbox { command } => command@,
        Mode::Private { tealdbg_command, .. } => tealdbg_command@,
    }
}

/// The arguments put before those of the dry-run step.
pub open spec fn dry_run_prefix(mode: Mode) -> Seq<Seq<char>> {
    if mode is Sandbox {
        seq!["goal"@]
    } else {
        seq![]
    }
}

/// The arguments put before those of the debugger.
pub open spec fn debug_prefix(mode: Mode) -> Seq<Seq<char>> {
    if mode is Sandbox {
        seq!["tealdbg"@]
    } else {
        seq![]
    }
}

/// Where the staged transaction file lies on the local disk.
pub open spec fn staged_path(config: Config) -> Seq<char> {
    joined(config.output_files_dir@, tx_file())
}

/// Where a private network's dry-run writes its dump on the local disk.
pub open spec fn dump_path(config: Config) -> Seq<char> {
    joined(config.output_files_dir@, dump_file())
}

/// The staged file as the tools see it: the sandbox holds its copy under
/// the bare name.
pub open spec fn staged_arg(config: Config) -> Seq<char> {
    if config.mode is Sandbox {
        tx_file()
    } else {
        staged_path(config)
    }
}

/// The dump file as the tools see it: inside the sandbox under the bare name.
pub open spec fn dump_arg(config: Config) -> Seq<char> {
    if config.mode is Sandbox {
        dump_file()
    } else {
        dump_path(config)
    }
}

/// The node-directory flag of the dry-run step, if any.
pub open spec fn node_dir_args(mode: Mode) -> Seq<Seq<char>> {
    match mode {
        Mode::Private { node_dir: Some(d), .. } => seq!["-d"@, d@],
        _ => seq![],
    }
}

/// All arguments of the dry-run step.
pub open spec fn dry_run_args(config: Config) -> Seq<Seq<char>> {
    dry_run_prefix(config.mode) + seq![
        "clerk"@,
        "dryrun"@,
        "-t"@,
        staged_arg(config),
        "--dryrun-dump"@,
        "-o"@,
        dump_arg(config),
    ] + node_dir_args(config.mode)
}

/// All arguments of the debugger, given the program as it is to be named.
pub open spec fn debug_args(config: Config, program: Seq<char>) -> Seq<Seq<char>> {
    debug_prefix(config.mode) + seq!["debug"@, program, "-d"@, dump_arg(config)]
}

/// The program as the debugger is to see it, given its local path's
/// file-name component: in the sandbox its copy carries that name alone.
pub open spec fn program_arg(mode: Mode, path: Seq<char>, name: Seq<char>) -> Seq<char> {
    if mode is Sandbox {
        name
    } else {
        path
    }
}

/// The file-name component of a path, if it has one.
pub uninterp spec fn file_name_of(path: Seq<char>) -> Option<Seq<char>>;

/// Relies on `std::path::Path::file_name`: the last component of the path,
/// none for the root and for the empty path, which has no component.
#[verifier::external_body]
fn file_name(path: &str) -> (r: Option<String>)
    ensures
        r is Some == file_name_of(path@) is Some,
        r matches Some(n) ==> n@ == file_name_of(path@)->Some_0,
        path@ == "/"@ ==> r is None,
        path@.len() == 0 ==> r is None,
{
    match std::path::Path::new(path).file_name() {
        Some(n) => Some(n.to_string_lossy().into_owned()),
        None => None,
    }
}

impl<'a> Mode<'a> {
    /// The command of the dry-run step and the arguments that go first.
    pub fn resolve_dry_run(&self) -> (c: CommandLine)
        ensures
            c@ == (dry_run_program(*self), dry_run_prefix(*self)),
    {
        let mut args: Vec<String> = Vec::new();
        match self {
            Mode::Sandbox { command } => {
                push_arg(&mut args, "goal");
                assert(arg_views(args@) =~= dry_run_prefix(*self));
                CommandLine { program: String::from_str(command), args }
            },
            Mode::Private { goal_command, .. } => {
                assert(arg_views(args@) =~= dry_run_prefix(*self));
                CommandLine { program: String::from_str(goal_command), args }
            },
        }
    }

    /// The command of the debugger and the arguments that go first.
    pub fn resolve_debug(&self) -> (c: CommandLine)
        ensures
            c@ == (debug_program(*self), debug_prefix(*self)),
    {
        let mut args: Vec<String> = Vec::new();
        match self {
            Mode::Sandbox { command } => {
                push_arg(&mut args, "tealdbg");
                assert(arg_views(args@) =~= debug_prefix(*self));
                CommandLine { program: String::from_str(command), args }
            },
            Mode::Private { tealdbg_command, .. } => {
                assert(arg_views(args@) =~= debug_prefix(*self));
                CommandLine { program: String::from_str(tealdbg_command), args }
            },
        }
    }
}

impl<'a> Config<'a> {
    /// The local path of the staged transaction file.
    pub fn staged_path(&self) -> (r: String)
        ensures
            r@ == staged_path(*self),
    {
        join_path(self.output_files_dir, "output.tx")
    }

    /// The local path of the dump file of a private network's dry-run.
    pub fn dump_path(&self) -> (r: String)
        ensures
            r@ == dump_path(*self),
    {
        join_path(self.output_files_dir, "dr.msgp")
    }

    fn staged_arg(&self) -> (r: String)
        ensures
            r@ == staged_arg(*self),
    {
        if let Mode::Sandbox { .. } = self.mode {
            String::from_str("output.tx")
        } else {
            self.staged_path()
        }
    }

    fn dump_arg(&self) -> (r: String)
        ensures
            r@ == dump_arg(*self),
    {
        if let Mode::Sandbox { .. } = self.mode {
            String::from_str("dr.msgp")
        } else {
            self.dump_path()
        }
    }

    /// The dry-run step: `clerk dryrun -t <staged> --dryrun-dump -o <dump>`
    /// after the mode's prefix, and `-d <node_dir>` where a private network
    /// names its node directory.
    pub fn dry_run_command(&self) -> (c: CommandLine)
        ensures
            c@ == (dry_run_program(self.mode), dry_run_args(*self)),
    {
        let mut c = self.mode.resolve_dry_run();
        push_arg(&mut c.args, "clerk");
        push_arg(&mut c.args, "dryrun");
        push_arg(&mut c.args, "-t");
        let staged = self.staged_arg();
        push_arg(&mut c.args, staged.as_str());
        push_arg(&mut c.args, "--dryrun-dump");
        push_arg(&mut c.args, "-o");
        let dump = self.dump_arg();
        push_arg(&mut c.args, dump.as_str());
        if let Mode::Private { node_dir: Some(d), .. } = self.mode {
            push_arg(&mut c.args, "-d");
            push_arg(&mut c.args, d);
        }
        assert(arg_views(c.args@) =~= dry_run_args(*self));
        c
    }

    /// The debugger: `debug <program> -d <dump>` after the mode's prefix.
    /// The program is named by its file name in the sandbox, where its copy
    /// lies, and by its path on a private network; a path without a
    /// file-name component, such as the empty path or the root, is refused
    /// in either mode.
    pub fn debug_command(&self, program_path: &str) -> (r: Result<CommandLine, LaunchError>)
        ensures
            file_name_of(program_path@) is None <==> r == Err::<CommandLine, LaunchError>(
                LaunchError::Argument,
            ),
            file_name_of(program_path@) is Some ==> r is Ok,
            program_path@ == "/"@ || program_path@.len() == 0 ==> r == Err::<
                CommandLine,
                LaunchError,
            >(LaunchError::Argument),
            r matches Ok(c) ==> c@ == (debug_program(self.mode), debug_args(
                *self,
                program_arg(self.mode, program_path@, file_name_of(program_path@)->Some_0),
            )),
    {
        let name = match file_name(program_path) {
            Some(n) => n,
            None => return Err(LaunchError::Argument),
        };
        let mut c = self.mode.resolve_debug();
        push_arg(&mut c.args, "debug");
        if let Mode::Sandbox { .. } = self.mode {
            push_arg(&mut c.args, name.as_str());
        } else {
            push_arg(&mut c.args, program_path);
        }
        push_arg(&mut c.args, "-d");
        let dump = self.dump_arg();
        push_arg(&mut c.args, dump.as_str());
        assert(arg_views(c.args@) =~= debug_args(
            *self,
            program_arg(self.mode, program_path@, file_name_of(program_path@)->Some_0),
        ));
        Ok(c)
    }

    /// In the sandbox, the commands that copy the staged file and then the
    /// program into it (`<sandbox> copyTo <path>`); none on a private network.
    pub fn copy_commands(&self, program_path: &str) -> (r: Vec<CommandLine>)
        ensures
            r@.map_values(|c: CommandLine| c@) == copy_views(*self, program_path@),
    {
        let mut r: Vec<CommandLine> = Vec::new();
        if let Mode::Sandbox { command } = self.mode {
            let mut a: Vec<String> = Vec::new();
            push_arg(&mut a, "copyTo");
            let staged = self.staged_path();
            push_arg(&mut a, staged.as_str());
            assert(arg_views(a@) =~= seq!["copyTo"@, staged_path(*self)]);
            r.push(CommandLine { program: String::from_str(command), args: a });
            let mut b: Vec<String> = Vec::new();
            push_arg(&mut b, "copyTo");
            push_arg(&mut b, program_path);
            assert(arg_views(b@) =~= seq!["copyTo"@, program_path@]);
            r.push(CommandLine { program: String::from_str(command), args: b });
        }
        assert(r@.map_values(|c: CommandLine| c@) =~= copy_views(*self, program_path@));
        r
    }
}

/// The sandbox's copy steps, as (program, arguments).
pub open spec fn copy_views(config: Config, program_path: Seq<char>) -> Seq<
    (Seq<char>, Seq<Seq<char>>),
> {
    match config.mode {
        Mode::Sandbox { command } => seq![
            (command@, seq!["copyTo"@, staged_path(config)]),
            (command@, seq!["copyTo"@, program_path]),
        ],
        Mode::Private { .. } => seq![],
    }
}

} // verus!
