//! A whole session: what it stages, which commands it runs in which order,
//! what it removes afterwards, and how the outcome of each step decides the
//! next one.
use vstd::prelude::*;

use algonaut::transaction::SignedTransaction;

use crate::command::{
    arg_views, copy_views, debug_args, debug_program, dry_run_args, dry_run_program, dump_path,
    file_name_of, program_arg, staged_path, CommandLine,
};
use crate::config::{Config, Mode};
use crate::error::LaunchError;
use crate::stage::{all_encodable, encodings, stage_bytes};

verus! {

/// Everything one session does, in the order it does it: write
/// `staged_bytes` to `staged_path`, run each of `copies`, run `dry_run` to
/// its exit, run `debug` relaying its error stream until it closes, then
/// remove each of `removals`.
pub struct SessionPlan {
    pub staged_path: String,
    pub staged_bytes: Vec<u8>,
    pub copies: Vec<CommandLine>,
    pub dry_run: CommandLine,
    pub debug: CommandLine,
    pub removals: Vec<String>,
}

/// The files removed once the session is over: none unless the
/// configuration asks for it; then the staged file, and on a private network
/// the dump file too (the sandbox's dump is not on the local disk).
pub open spec fn removal_paths(config: Config) -> Seq<Seq<char>> {
    if !config.delete_output_files {
        seq![]
    } else if config.mode is Sandbox {
        seq![staged_path(config)]
    } else {
        seq![staged_path(config), dump_path(config)]
    }
}

/// `plan` is the session for `config`, the transactions `txns` and the
/// program at `program_path`.
pub open spec fn planned(
    plan: SessionPlan,
    config: Config,
    txns: Seq<SignedTransaction>,
    program_path: Seq<char>,
) -> bool {
    &&& plan.staged_path@ == staged_path(config)
    &&& plan.staged_bytes@ == encodings(txns)
    &&& plan.copies@.map_values(|c: CommandLine| c@) == copy_views(config, program_path)
    &&& plan.dry_run@ == (dry_run_program(config.mode), dry_run_args(config))
    &&& plan.debug@ == (debug_program(config.mode), debug_args(
        config,
        program_arg(config.mode, program_path, file_name_of(program_path)->Some_0),
    ))
    &&& arg_views(plan.removals@) == removal_paths(config)
}

fn removal_list(config: &Config) -> (r: Vec<String>)
    ensures
        arg_views(r@) == removal_paths(*config),
{
    let mut r: Vec<String> = Vec::new();
    if config.delete_output_files {
        r.push(config.staged_path());
        if let Mode::Private { .. } = config.mode {
            r.push(config.dump_path());
        }
    }
    assert(arg_views(r@) =~= removal_paths(*config));
    r
}

/// Works out the whole session before anything is written or run. A
/// transaction that cannot be encoded gives `Encoding`; otherwise a program
/// path without a file-name component (such as the empty path or the root)
/// gives `Argument`; otherwise the plan.
pub fn plan_session(config: &Config, txns: &[SignedTransaction], program_path: &str) -> (r: Result<
    SessionPlan,
    LaunchError,
>)
    ensures
        !all_encodable(txns@) ==> r == Err::<SessionPlan, LaunchError>(LaunchError::Encoding),
        all_encodable(txns@) && file_name_of(program_path@) is None ==> r == Err::<
            SessionPlan,
            LaunchError,
        >(LaunchError::Argument),
        all_encodable(txns@) && (program_path@ == "/"@ || program_path@.len() == 0) ==> r == Err::<
            SessionPlan,
            LaunchError,
        >(LaunchError::Argument),
        r is Ok <==> file_name_of(program_path@) is Some && all_encodable(txns@),
        r matches Ok(plan) ==> planned(plan, *config, txns@, program_path@),
{
    let staged_bytes = match stage_bytes(txns) {
        Ok(b) => b,
        Err(e) => return Err(e),
    };
    let debug = match config.debug_command(program_path) {
        Ok(c) => c,
        Err(e) => return Err(e),
    };
    Ok(
        SessionPlan {
            staged_path: config.staged_path(),
            staged_bytes,
            copies: config.copy_commands(program_path),
            dry_run: config.dry_run_command(),
            debug,
            removals: removal_list(config),
        },
    )
}

/// A step of a session.
#[derive(Debug, Clone, Copy, PartialEq, Eq, Structural)]
pub enum Step {
    /// Write the staged transaction file.
    Stage,
    /// Run the copy command of this index.
    Copy { index: usize },
    /// Run the dry-run step to its exit.
    DryRun,
    /// Run the debugger, relaying its error stream until it closes.
    Debug,
    /// Remove the file of this index.
    Remove { index: usize },
    /// Nothing is left to do.
    Finished,
}

/// How a step went.
#[derive(Debug, Clone, Copy, PartialEq, Eq, Structural)]
pub enum Outcome {
    /// It did its work.
    Succeeded,
    /// Its process ran and exited with a failure status.
    ExitedWithFailure,
    /// It could not be done: the file could not be written or removed, or
    /// the process could not be started or its stream captured.
    Failed,
}

/// The error that ends a session when `step` fails.
pub open spec fn step_error(step: Step) -> LaunchError {
    match step {
        Step::Stage | Step::Remove { .. } => LaunchError::Io,
        _ => LaunchError::Process,
    }
}

/// The step after `step` when it did not fail, in a session with `copies`
/// copy steps and `removals` removals.
pub open spec fn next_step(copies: nat, removals: nat, step: Step) -> Step {
    match step {
        Step::Stage => if copies > 0 {
            Step::Copy { index: 0 }
        } else {
            Step::DryRun
        },
        Step::Copy { index } => if index + 1 < copies {
            Step::Copy { index: (index + 1) as usize }
        } else {
            Step::DryRun
        },
        Step::DryRun => Step::Debug,
        Step::Debug => if removals > 0 {
            Step::Remove { index: 0 }
        } else {
            Step::Finished
        },
        Step::Remove { index } => if index + 1 < removals {
            Step::Remove { index: (index + 1) as usize }
        } else {
            Step::Finished
        },
        Step::Finished => Step::Finished,
    }
}

impl SessionPlan {
    /// Decides what follows `step` given how it went. A step that could not
    /// be done ends the session with its error. Anything else moves on; a
    /// dry-run that exits with a failure status is reported by the caller
    /// but does not stop the session, since its dump may still serve.
    pub fn advance(&self, step: Step, outcome: Outcome) -> (r: Result<Step, LaunchError>)
        ensures
            outcome == Outcome::Failed && step != Step::Finished ==> r == Err::<
                Step,
                LaunchError,
            >(step_error(step)),
            outcome != Outcome::Failed || step == Step::Finished ==> r == Ok::<Step, LaunchError>(
                next_step(self.copies@.len(), self.removals@.len(), step),
            ),
    {
        let copies = self.copies.len();
        let removals = self.removals.len();
        match step {
            Step::Finished => Ok(Step::Finished),
            _ if outcome == Outcome::Failed => match step {
                Step::Stage | Step::Remove { .. } => Err(LaunchError::Io),
                _ => Err(LaunchError::Process),
            },
            Step::Stage => if copies > 0 {
                Ok(Step::Copy { index: 0 })
            } else {
                Ok(Step::DryRun)
            },
            Step::Copy { index } => if copies > 0 && index < copies - 1 {
                Ok(Step::Copy { index: index + 1 })
            } else {
                Ok(Step::DryRun)
            },
            Step::DryRun => Ok(Step::Debug),
            Step::Debug => if removals > 0 {
                Ok(Step::Remove { index: 0 })
            } else {
                Ok(Step::Finished)
            },
            Step::Remove { index } => if removals > 0 && index < removals - 1 {
                Ok(Step::Remove { index: index + 1 })
            } else {
                Ok(Step::Finished)
            },
        }
    }
}

} // verus!
