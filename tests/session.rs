use algonaut_core::MicroAlgos;
use algonaut_core::ToMsgPack;
use algonaut::crypto::HashDigest;
use algonaut::transaction::account::Account;
use algonaut::transaction::builder::TransactionParams;
use algonaut::transaction::{Pay, SignedTransaction};
use tealdbg_launch::{plan_session, CommandLine, Config, LaunchError, Mode, Outcome, Step};

struct Params {
    genesis_id: String,
}

impl TransactionParams for Params {
    fn last_round(&self) -> u64 {
        1
    }
    fn min_fee(&self) -> u64 {
        1_000
    }
    fn genesis_hash(&self) -> HashDigest {
        HashDigest([0; 32])
    }
    fn genesis_id(&self) -> &String {
        &self.genesis_id
    }
}

fn signed(amount: u64) -> SignedTransaction {
    let params = Params { genesis_id: "testnet-v1.0".to_owned() };
    let sender = Account::from_seed([7; 32]);
    let receiver = Account::from_seed([9; 32]);
    let tx = Pay::new(sender.address(), receiver.address(), MicroAlgos(amount))
        .build(&params)
        .unwrap();
    sender.sign(tx).unwrap()
}

fn private<'a>(node_dir: Option<&'a str>) -> Mode<'a> {
    Mode::Private { goal_command: "goal", tealdbg_command: "tealdbg", node_dir }
}

fn args(c: &CommandLine) -> Vec<&str> {
    c.args.iter().map(|a| a.as_str()).collect()
}

#[test]
fn default_modes_and_config() {
    match Mode::default_sandbox() {
        Mode::Sandbox { command } => assert_eq!(command, "sandbox"),
        _ => panic!("expected the sandbox"),
    }
    match Mode::default_private() {
        Mode::Private { goal_command, tealdbg_command, node_dir } => {
            assert_eq!(goal_command, "goal");
            assert_eq!(tealdbg_command, "tealdbg");
            assert_eq!(node_dir, None);
        }
        _ => panic!("expected a private network"),
    }
    let c = Config::default();
    assert_eq!(c.output_files_dir, ".");
    assert!(c.delete_output_files);
    assert!(matches!(c.mode, Mode::Sandbox { command: "sandbox" }));
}

#[test]
fn staged_and_dump_paths_join_the_directory() {
    let mut c = Config::default();
    assert_eq!(c.staged_path(), "./output.tx");
    assert_eq!(c.dump_path(), "./dr.msgp");
    c.output_files_dir = "out/";
    assert_eq!(c.staged_path(), "out/output.tx");
    c.output_files_dir = "";
    assert_eq!(c.dump_path(), "dr.msgp");
    c.output_files_dir = "/tmp/x";
    assert_eq!(c.staged_path(), "/tmp/x/output.tx");
}

#[test]
fn sandbox_dry_run_goes_through_goal() {
    let c = Config::default();
    let d = c.dry_run_command();
    assert_eq!(d.program, "sandbox");
    assert_eq!(
        args(&d),
        vec!["goal", "clerk", "dryrun", "-t", "output.tx", "--dryrun-dump", "-o", "dr.msgp"]
    );
}

#[test]
fn private_dry_run_with_node_dir() {
    let c = Config { mode: private(Some("/node")), output_files_dir: "/tmp/x", delete_output_files: true };
    let d = c.dry_run_command();
    assert_eq!(d.program, "goal");
    assert_eq!(
        args(&d),
        vec![
            "clerk", "dryrun", "-t", "/tmp/x/output.tx", "--dryrun-dump", "-o", "/tmp/x/dr.msgp",
            "-d", "/node"
        ]
    );
    let c = Config { mode: private(None), output_files_dir: ".", delete_output_files: true };
    assert_eq!(
        args(&c.dry_run_command()),
        vec!["clerk", "dryrun", "-t", "./output.tx", "--dryrun-dump", "-o", "./dr.msgp"]
    );
}

#[test]
fn sandbox_debug_names_the_program_by_file_name() {
    let c = Config::default();
    let d = c.debug_command("dir/prog.teal").unwrap();
    assert_eq!(d.program, "sandbox");
    assert_eq!(args(&d), vec!["tealdbg", "debug", "prog.teal", "-d", "dr.msgp"]);
}

#[test]
fn private_debug_runs_tealdbg_on_the_path() {
    let c = Config { mode: private(Some("/node")), output_files_dir: ".", delete_output_files: true };
    let d = c.debug_command("dir/prog.teal").unwrap();
    assert_eq!(d.program, "tealdbg");
    assert_eq!(args(&d), vec!["debug", "dir/prog.teal", "-d", "./dr.msgp"]);
}

#[test]
fn path_without_file_name_is_refused() {
    let c = Config::default();
    assert!(matches!(c.debug_command(""), Err(LaunchError::Argument)));
    assert!(matches!(c.debug_command("/"), Err(LaunchError::Argument)));
    assert!(matches!(c.debug_command("prog/.."), Err(LaunchError::Argument)));
    let p = Config { mode: private(None), output_files_dir: ".", delete_output_files: false };
    assert!(matches!(p.debug_command("/"), Err(LaunchError::Argument)));
    assert!(matches!(plan_session(&c, &[signed(1)], "/"), Err(LaunchError::Argument)));
    assert!(matches!(plan_session(&p, &[], ""), Err(LaunchError::Argument)));
}

#[test]
fn sandbox_copies_staged_file_then_program() {
    let c = Config { mode: Mode::Sandbox { command: "/opt/sandbox" }, output_files_dir: "out", delete_output_files: true };
    let copies = c.copy_commands("p.teal");
    assert_eq!(copies.len(), 2);
    assert_eq!(copies[0].program, "/opt/sandbox");
    assert_eq!(args(&copies[0]), vec!["copyTo", "out/output.tx"]);
    assert_eq!(copies[1].program, "/opt/sandbox");
    assert_eq!(args(&copies[1]), vec!["copyTo", "p.teal"]);
    let p = Config { mode: private(None), output_files_dir: "out", delete_output_files: true };
    assert!(p.copy_commands("p.teal").is_empty());
}

#[test]
fn one_transaction_private_session_removes_both_files() {
    let t = signed(1_000);
    let c = Config { mode: private(None), output_files_dir: ".", delete_output_files: true };
    let plan = plan_session(&c, &[t.clone()], "prog.teal").unwrap();
    assert_eq!(plan.staged_path, "./output.tx");
    assert_eq!(plan.staged_bytes, t.to_msg_pack().unwrap());
    assert!(!plan.staged_bytes.is_empty());
    assert!(plan.copies.is_empty());
    assert_eq!(plan.dry_run.program, "goal");
    assert_eq!(plan.debug.program, "tealdbg");
    assert_eq!(plan.removals, vec!["./output.tx".to_string(), "./dr.msgp".to_string()]);
}

#[test]
fn zero_transactions_stage_an_empty_file() {
    let c = Config::default();
    let plan = plan_session(&c, &[], "prog.teal").unwrap();
    assert!(plan.staged_bytes.is_empty());
    assert_eq!(plan.dry_run.program, "sandbox");
    assert_eq!(args(&plan.dry_run)[0], "goal");
    assert_eq!(plan.copies.len(), 2);
}

#[test]
fn staged_bytes_concatenate_in_input_order() {
    let (a, b, c) = (signed(1), signed(2), signed(3));
    let mut expected = a.to_msg_pack().unwrap();
    expected.extend(b.to_msg_pack().unwrap());
    expected.extend(c.to_msg_pack().unwrap());
    let plan = plan_session(&Config::default(), &[a.clone(), b.clone(), c.clone()], "p.teal").unwrap();
    assert_eq!(plan.staged_bytes, expected);
    let reversed = plan_session(&Config::default(), &[c, b, a], "p.teal").unwrap();
    assert_ne!(reversed.staged_bytes, plan.staged_bytes);
    assert_eq!(reversed.staged_bytes.len(), plan.staged_bytes.len());
}

#[test]
fn kept_files_are_not_removed() {
    let c = Config { mode: private(None), output_files_dir: "out", delete_output_files: false };
    let plan = plan_session(&c, &[signed(5)], "p.teal").unwrap();
    assert!(plan.removals.is_empty());
    assert_eq!(plan.staged_path, "out/output.tx");
    assert_eq!(args(&plan.dry_run)[6], "out/dr.msgp");
    let s = Config { mode: Mode::default_sandbox(), output_files_dir: "out", delete_output_files: false };
    assert!(plan_session(&s, &[], "p.teal").unwrap().removals.is_empty());
}

#[test]
fn sandbox_removes_only_the_staged_file() {
    let plan = plan_session(&Config::default(), &[signed(5)], "p.teal").unwrap();
    assert_eq!(plan.removals, vec!["./output.tx".to_string()]);
}

#[test]
fn successful_sandbox_session_runs_every_step_in_order() {
    let plan = plan_session(&Config::default(), &[signed(5)], "p.teal").unwrap();
    let mut step = Step::Stage;
    let mut seen = vec![step];
    while step != Step::Finished {
        step = plan.advance(step, Outcome::Succeeded).unwrap();
        seen.push(step);
    }
    assert_eq!(
        seen,
        vec![
            Step::Stage,
            Step::Copy { index: 0 },
            Step::Copy { index: 1 },
            Step::DryRun,
            Step::Debug,
            Step::Remove { index: 0 },
            Step::Finished
        ]
    );
}

#[test]
fn private_session_without_cleanup_ends_after_debug() {
    let c = Config { mode: private(None), output_files_dir: ".", delete_output_files: false };
    let plan = plan_session(&c, &[], "p.teal").unwrap();
    assert_eq!(plan.advance(Step::Stage, Outcome::Succeeded), Ok(Step::DryRun));
    assert_eq!(plan.advance(Step::DryRun, Outcome::Succeeded), Ok(Step::Debug));
    assert_eq!(plan.advance(Step::Debug, Outcome::Succeeded), Ok(Step::Finished));
    assert_eq!(plan.advance(Step::Finished, Outcome::Failed), Ok(Step::Finished));
}

#[test]
fn failed_dry_run_status_does_not_stop_the_session() {
    let plan = plan_session(&Config::default(), &[], "p.teal").unwrap();
    assert_eq!(plan.advance(Step::DryRun, Outcome::ExitedWithFailure), Ok(Step::Debug));
}

#[test]
fn failed_steps_end_the_session_with_their_error() {
    let c = Config { mode: private(None), output_files_dir: ".", delete_output_files: true };
    let plan = plan_session(&c, &[], "p.teal").unwrap();
    assert_eq!(plan.advance(Step::Stage, Outcome::Failed), Err(LaunchError::Io));
    assert_eq!(plan.advance(Step::DryRun, Outcome::Failed), Err(LaunchError::Process));
    assert_eq!(plan.advance(Step::Debug, Outcome::Failed), Err(LaunchError::Process));
    assert_eq!(plan.advance(Step::Remove { index: 1 }, Outcome::Failed), Err(LaunchError::Io));
    assert_eq!(plan.advance(Step::Remove { index: 0 }, Outcome::Succeeded), Ok(Step::Remove { index: 1 }));
    assert_eq!(plan.advance(Step::Remove { index: 1 }, Outcome::Succeeded), Ok(Step::Finished));
    let s = plan_session(&Config::default(), &[], "p.teal").unwrap();
    assert_eq!(s.advance(Step::Copy { index: 1 }, Outcome::Failed), Err(LaunchError::Process));
}
