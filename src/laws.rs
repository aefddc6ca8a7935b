//! What holds of every session.
use vstd::prelude::*;

use algonaut::transaction::SignedTransaction;

use crate::command::{arg_views, dump_path, staged_path};
use crate::config::Config;
use crate::command::CommandLine;
use crate::session::{next_step, planned, SessionPlan, Step};
use crate::stage::{all_encodable, encodings, msgpack_of};

verus! {

/// The content staged for `a` followed by `b` is the content staged for
/// `a` followed by that staged for `b`: each transaction's encoding stands
/// where the transaction stands in the input.
pub proof fn staged_content_keeps_order(a: Seq<SignedTransaction>, b: Seq<SignedTransaction>)
    ensures
        encodings(a + b) == encodings(a) + encodings(b),
    decreases b.len(),
{
    if b.len() == 0 {
        assert(a + b =~= a);
        assert(encodings(b) =~= seq![]);
        assert(encodings(a) + encodings(b) =~= encodings(a));
    } else {
        staged_content_keeps_order(a, b.drop_last());
        assert((a + b).drop_last() =~= a + b.drop_last());
        assert((a + b).last() == b.last());
        assert(encodings(a + b) =~= encodings(a) + encodings(b));
    }
}

/// An empty list of transactions is no error: every transaction of it is
/// encodable and its staged content is empty, so a session on it is planned
/// whenever the program path has a file name.
pub proof fn empty_list_is_staged_empty()
    ensures
        all_encodable(Seq::<SignedTransaction>::empty()),
        encodings(Seq::<SignedTransaction>::empty()) == Seq::<u8>::empty(),
{
}

/// One encodable transaction is staged as exactly its encoding, so a
/// session on it is planned whenever the program path has a file name.
pub proof fn one_transaction_is_staged(t: SignedTransaction)
    requires
        msgpack_of(t) is Some,
    ensures
        all_encodable(seq![t]),
        encodings(seq![t]) == msgpack_of(t)->Some_0,
{
    let one = seq![t];
    assert(one.drop_last() =~= Seq::<SignedTransaction>::empty());
    assert(one.last() == t);
    assert(encodings(one.drop_last()) =~= Seq::<u8>::empty());
    assert(encodings(one) == encodings(one.drop_last()) + msgpack_of(t)->Some_0);
    assert(encodings(one) =~= msgpack_of(t)->Some_0);
}

/// A private-network session on one transaction that removes its output
/// files copies nothing, and when no step fails it stages, runs the dry-run
/// and the debugger, removes the staged file and the dump, and is finished,
/// leaving neither file on the disk.
pub proof fn one_transaction_private_session_cleans_up(
    plan: SessionPlan,
    config: Config,
    t: SignedTransaction,
    program_path: Seq<char>,
)
    requires
        planned(plan, config, seq![t], program_path),
        config.mode is Private,
        config.delete_output_files,
    ensures
        plan.copies@.len() == 0,
        arg_views(plan.removals@) == seq![staged_path(config), dump_path(config)],
        steps_after(0, 2, Step::Stage, 1) == Step::DryRun,
        steps_after(0, 2, Step::Stage, 2) == Step::Debug,
        steps_after(0, 2, Step::Stage, 3) == (Step::Remove { index: 0 }),
        steps_after(0, 2, Step::Stage, 4) == (Step::Remove { index: 1 }),
        steps_after(0, 2, Step::Stage, 5) == Step::Finished,
        files_left(config, plan) == Set::<Seq<char>>::empty(),
{
    assert(plan.copies@.map_values(|c: CommandLine| c@).len() == 0);
    deleted_files_gone(plan, config, seq![t], program_path);
    successful_session_order(0, 2);
    assert(steps_after(0, 2, Step::Stage, 0 + 3 + 0) == (Step::Remove { index: 0 as usize }));
    assert(steps_after(0, 2, Step::Stage, 0 + 3 + 1) == (Step::Remove { index: 1 as usize }));
}

/// The files a session writes on the local disk: the staged file and, on a
/// private network, the dump that the dry-run writes where its argument
/// after `-o` says (the sandbox writes its dump inside the sandbox).
pub open spec fn written_locally(config: Config, plan: SessionPlan) -> Set<Seq<char>> {
    if config.mode is Sandbox {
        set![plan.staged_path@]
    } else {
        set![plan.staged_path@, plan.dry_run@.1[6]]
    }
}

/// The files of the session left on the local disk once every step has
/// been done: those it wrote, less those it removed.
pub open spec fn files_left(config: Config, plan: SessionPlan) -> Set<Seq<char>> {
    written_locally(config, plan).difference(arg_views(plan.removals@).to_set())
}

/// Where the configuration keeps the output files, a session leaves the
/// staged file and, on a private network, the dump file on the disk.
pub proof fn kept_files_stay(
    plan: SessionPlan,
    config: Config,
    txns: Seq<SignedTransaction>,
    program_path: Seq<char>,
)
    requires
        planned(plan, config, txns, program_path),
        !config.delete_output_files,
    ensures
        files_left(config, plan) == written_locally(config, plan),
        files_left(config, plan).contains(staged_path(config)),
        config.mode is Private ==> plan.dry_run@.1[5] == "-o"@ && files_left(
            config,
            plan,
        ).contains(dump_path(config)),
{
    assert(arg_views(plan.removals@).to_set() =~= Set::empty());
    assert(files_left(config, plan) =~= written_locally(config, plan));
}

/// Where the configuration removes the output files, a session that does
/// every step leaves neither the staged file nor, on a private network, the
/// dump file on the disk.
pub proof fn deleted_files_gone(
    plan: SessionPlan,
    config: Config,
    txns: Seq<SignedTransaction>,
    program_path: Seq<char>,
)
    requires
        planned(plan, config, txns, program_path),
        config.delete_output_files,
    ensures
        files_left(config, plan) == Set::<Seq<char>>::empty(),
        config.mode is Private ==> plan.dry_run@.1[5] == "-o"@ && plan.dry_run@.1[6]
            == dump_path(config),
{
    let removed = arg_views(plan.removals@);
    if config.mode is Sandbox {
        assert(removed[0] == staged_path(config));
        assert(removed.to_set().contains(removed[0]));
    } else {
        assert(removed[0] == staged_path(config));
        assert(removed[1] == dump_path(config));
        assert(removed.to_set().contains(removed[0]));
        assert(removed.to_set().contains(removed[1]));
    }
    assert(files_left(config, plan) =~= Set::empty());
}

/// The step a session is at after `k` steps that did not fail, from `step`.
pub open spec fn steps_after(copies: nat, removals: nat, step: Step, k: nat) -> Step
    decreases k,
{
    if k == 0 {
        step
    } else {
        next_step(copies, removals, steps_after(copies, removals, step, (k - 1) as nat))
    }
}

/// A session in which no step fails stages first, then makes each copy in
/// turn, runs the dry-run, then the debugger, then removes each file in
/// turn, and is then finished.
pub proof fn successful_session_order(copies: nat, removals: nat)
    requires
        copies <= usize::MAX,
        removals <= usize::MAX,
    ensures
        forall|j: nat|
            j < copies ==> #[trigger] steps_after(copies, removals, Step::Stage, 1 + j) == (Step::Copy {
                index: j as usize,
            }),
        steps_after(copies, removals, Step::Stage, copies + 1) == Step::DryRun,
        steps_after(copies, removals, Step::Stage, copies + 2) == Step::Debug,
        forall|i: nat|
            i < removals ==> #[trigger] steps_after(copies, removals, Step::Stage, copies + 3 + i)
                == (Step::Remove { index: i as usize }),
        steps_after(copies, removals, Step::Stage, copies + 3 + removals) == Step::Finished,
{
    assert forall|j: nat| j < copies implies #[trigger] steps_after(
        copies,
        removals,
        Step::Stage,
        1 + j,
    ) == (Step::Copy { index: j as usize }) by {
        copy_steps(copies, removals, j);
    }
    middle_steps(copies, removals);
    assert forall|i: nat| i < removals implies #[trigger] steps_after(
        copies,
        removals,
        Step::Stage,
        copies + 3 + i,
    ) == (Step::Remove { index: i as usize }) by {
        removal_steps(copies, removals, i);
    }
    if removals > 0 {
        removal_steps(copies, removals, (removals - 1) as nat);
    }
    assert(steps_after(copies, removals, Step::Stage, copies + 3 + removals) == Step::Finished);
}

proof fn copy_steps(copies: nat, removals: nat, j: nat)
    requires
        j < copies,
        copies <= usize::MAX,
    ensures
        steps_after(copies, removals, Step::Stage, 1 + j) == (Step::Copy { index: j as usize }),
    decreases j,
{
    if j > 0 {
        copy_steps(copies, removals, (j - 1) as nat);
        assert(steps_after(copies, removals, Step::Stage, 1 + j) == next_step(
            copies,
            removals,
            steps_after(copies, removals, Step::Stage, j),
        ));
    }
}

proof fn middle_steps(copies: nat, removals: nat)
    requires
        copies <= usize::MAX,
    ensures
        steps_after(copies, removals, Step::Stage, copies + 1) == Step::DryRun,
        steps_after(copies, removals, Step::Stage, copies + 2) == Step::Debug,
{
    if copies > 0 {
        copy_steps(copies, removals, (copies - 1) as nat);
        assert(steps_after(copies, removals, Step::Stage, copies + 1) == next_step(
            copies,
            removals,
            steps_after(copies, removals, Step::Stage, copies),
        ));
    } else {
        assert(steps_after(copies, removals, Step::Stage, 1) == next_step(
            copies,
            removals,
            steps_after(copies, removals, Step::Stage, 0),
        ));
    }
    assert(steps_after(copies, removals, Step::Stage, copies + 2) == next_step(
        copies,
        removals,
        steps_after(copies, removals, Step::Stage, copies + 1),
    ));
}

proof fn removal_steps(copies: nat, removals: nat, i: nat)
    requires
        i < removals,
        copies <= usize::MAX,
        removals <= usize::MAX,
    ensures
        steps_after(copies, removals, Step::Stage, copies + 3 + i) == (Step::Remove {
            index: i as usize,
        }),
    decreases i,
{
    middle_steps(copies, removals);
    if i > 0 {
        removal_steps(copies, removals, (i - 1) as nat);
        assert(steps_after(copies, removals, Step::Stage, copies + 3 + i) == next_step(
            copies,
            removals,
            steps_after(copies, removals, Step::Stage, copies + 2 + i),
        ));
    }
}

} // verus!
