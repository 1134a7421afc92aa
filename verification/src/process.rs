//! The process that runs in a pane.

use vstd::prelude::*;
use vstd::string::*;

use crate::protocol::{Target, TargetView};
use crate::seqs::{find, position};
use crate::text::{concat3, same_text, texts};

verus! {

/// A process to be started in a pane: its words, and its environment as `NAME=value`.
#[derive(Debug, PartialEq, Eq)]
pub struct ProcessPlan {
    pub argv: Vec<String>,
    pub environment: Vec<String>,
}

/// What a process plan holds.
#[verifier::ext_equal]
pub struct ProcessView {
    pub argv: Seq<Seq<char>>,
    pub environment: Seq<Seq<char>>,
}

impl View for ProcessPlan {
    type V = ProcessView;

    open spec fn view(&self) -> ProcessView {
        ProcessView { argv: texts(self.argv@), environment: texts(self.environment@) }
    }
}

/// The variables that a pane gets from the client's own environment.
pub open spec fn inherited_names() -> Seq<Seq<char>> {
    seq![
        "SSH_CONNECTION"@,
        "SSH_CLIENT"@,
        "MOSH_CONNECTION"@,
        "NETA_FAKE_PI_INPUT_LOG"@,
        "NETA_FAKE_PI_CWD_LOG"@,
        "NETA_FAKE_PI_START_LOG"@,
        "NETA_FAKE_PI_SESSION_INPUT_LOG"@,
        "NETA_FAKE_PI_SIZE_LOG"@,
        "NETA_PI_GATE_FILE"@,
        "NETA_PI_GATE_STARTED_FILE"@,
        "NETA_REAL_PI_CLI"@,
    ]
}

/// A variable as it is handed on.
pub open spec fn assignment(name: Seq<char>, value: Seq<char>) -> Seq<char> {
    name + "="@ + value
}

/// The variable with a name.
pub open spec fn named(name: Seq<char>) -> spec_fn((String, String)) -> bool {
    |variable: (String, String)| variable.0@ == name
}

/// The assignments for those names that are set, in the order of the names.
pub open spec fn inherited(names: Seq<Seq<char>>, variables: Seq<(String, String)>) -> Seq<
    Seq<char>,
>
    decreases names.len(),
{
    if names.len() == 0 {
        seq![]
    } else {
        let before = inherited(names.drop_last(), variables);
        match find(variables, named(names.last())) {
            Some(variable) => before.push(assignment(names.last(), variable.1@)),
            None => before,
        }
    }
}

/// What the words of the pane's process are made of.
pub open spec fn pi_argv(
    target: TargetView,
    executable: Seq<char>,
    pi_cli: Seq<char>,
    acp_extension: Seq<char>,
    session_root: Seq<char>,
    force_acp: bool,
) -> Seq<Seq<char>> {
    let base = seq![
        executable,
        pi_cli,
        "--session-dir"@,
        session_root,
        "--session-id"@,
        target.session_id,
        "--tui-mode"@,
        "fullscreen"@,
        "--extension"@,
        acp_extension,
    ];
    if target.provider != "pi"@ || force_acp {
        base + seq!["--provider"@, "neta-acp"@, "--model"@, target.model]
    } else {
        base
    }
}

/// What the environment of the pane's process starts with.
pub open spec fn pi_environment(
    target: TargetView,
    editor_ready_path: Seq<char>,
    descriptor: Seq<char>,
    force_acp: bool,
) -> Seq<Seq<char>> {
    seq![
        assignment("NETA_TARGET_SESSION_ID"@, target.session_id),
        assignment("NETA_TARGET_PROVIDER"@, target.provider),
        assignment("NETA_TARGET_MODEL"@, target.model),
        assignment("NETA_WORKSPACE_ROOT"@, target.cwd),
        assignment("NETA_DESCRIPTOR"@, descriptor),
        assignment("NETA_FORCE_ACP"@, if force_acp {
            "1"@
        } else {
            "0"@
        }),
        assignment("NETA_PI_EDITOR_READY_PATH"@, editor_ready_path),
        assignment("NETA_PROXY_TOOLS"@, "disabled"@),
    ]
}

fn find_variable(variables: &Vec<(String, String)>, name: &str) -> (found: Option<usize>)
    ensures
        match found {
            Some(at) => at < variables@.len() && position(variables@, named(name@), 0) == at,
            None => position(variables@, named(name@), 0) == variables@.len(),
        },
{
    let mut at: usize = 0;
    while at < variables.len()
        invariant
            at <= variables@.len(),
            position(variables@, named(name@), at as int) == position(
                variables@,
                named(name@),
                0,
            ),
        decreases variables@.len() - at,
    {
        if same_text(&variables[at].0, name) {
            return Some(at);
        }
        at = at + 1;
    }
    None
}

fn inherit(environment: &mut Vec<String>, variables: &Vec<(String, String)>, name: &str, Ghost(
    before,
): Ghost<Seq<Seq<char>>>, Ghost(names): Ghost<Seq<Seq<char>>>)
    requires
        texts(old(environment)@) == before + inherited(names, variables@),
    ensures
        texts(final(environment)@) == before + inherited(names.push(name@), variables@),
{
    let ghost start = environment@;
    assert(names.push(name@).drop_last() =~= names);
    assert(names.push(name@).last() == name@);
    if let Some(at) = find_variable(variables, name) {
        let line = concat3(name, "=", &variables[at].1);
        environment.push(line);
        assert(texts(environment@) =~= texts(start).push(line@));
        assert(texts(environment@) =~= before + inherited(names.push(name@), variables@));
    }
}

/// The process that shows a target in a pane on this machine. `variables` is the client's own
/// environment.
pub fn local_pi_process(
    target: &Target,
    executable: &str,
    pi_cli: &str,
    acp_extension: &str,
    session_root: &str,
    editor_ready_path: &str,
    descriptor: &str,
    force_acp: bool,
    variables: &Vec<(String, String)>,
) -> (process: ProcessPlan)
    ensures
        process@ == (ProcessView {
            argv: pi_argv(
                target@,
                executable@,
                pi_cli@,
                acp_extension@,
                session_root@,
                force_acp,
            ),
            environment: pi_environment(target@, editor_ready_path@, descriptor@, force_acp)
                + inherited(inherited_names(), variables@),
        }),
{
    let mut argv: Vec<String> = Vec::new();
    argv.push(executable.to_owned());
    argv.push(pi_cli.to_owned());
    argv.push("--session-dir".to_owned());
    argv.push(session_root.to_owned());
    argv.push("--session-id".to_owned());
    argv.push(target.session_id.clone());
    argv.push("--tui-mode".to_owned());
    argv.push("fullscreen".to_owned());
    argv.push("--extension".to_owned());
    argv.push(acp_extension.to_owned());
    if !same_text(&target.provider, "pi") || force_acp {
        argv.push("--provider".to_owned());
        argv.push("neta-acp".to_owned());
        argv.push("--model".to_owned());
        argv.push(target.model.clone());
    }
    assert(texts(argv@) =~= pi_argv(
        target@,
        executable@,
        pi_cli@,
        acp_extension@,
        session_root@,
        force_acp,
    ));
    let mut environment: Vec<String> = Vec::new();
    environment.push(concat3("NETA_TARGET_SESSION_ID", "=", &target.session_id));
    environment.push(concat3("NETA_TARGET_PROVIDER", "=", &target.provider));
    environment.push(concat3("NETA_TARGET_MODEL", "=", &target.model));
    environment.push(concat3("NETA_WORKSPACE_ROOT", "=", &target.cwd));
    environment.push(concat3("NETA_DESCRIPTOR", "=", descriptor));
    environment.push(concat3("NETA_FORCE_ACP", "=", if force_acp { "1" } else { "0" }));
    environment.push(concat3("NETA_PI_EDITOR_READY_PATH", "=", editor_ready_path));
    environment.push(concat3("NETA_PROXY_TOOLS", "=", "disabled"));
    let ghost base = pi_environment(target@, editor_ready_path@, descriptor@, force_acp);
    assert(texts(environment@) =~= base);
    let ghost n0 = Seq::<Seq<char>>::empty();
    assert(base + inherited(n0, variables@) =~= base);
    inherit(&mut environment, variables, "SSH_CONNECTION", Ghost(base), Ghost(n0));
    let ghost n1 = n0.push("SSH_CONNECTION"@);
    inherit(&mut environment, variables, "SSH_CLIENT", Ghost(base), Ghost(n1));
    let ghost n2 = n1.push("SSH_CLIENT"@);
    inherit(&mut environment, variables, "MOSH_CONNECTION", Ghost(base), Ghost(n2));
    let ghost n3 = n2.push("MOSH_CONNECTION"@);
    inherit(&mut environment, variables, "NETA_FAKE_PI_INPUT_LOG", Ghost(base), Ghost(n3));
    let ghost n4 = n3.push("NETA_FAKE_PI_INPUT_LOG"@);
    inherit(&mut environment, variables, "NETA_FAKE_PI_CWD_LOG", Ghost(base), Ghost(n4));
    let ghost n5 = n4.push("NETA_FAKE_PI_CWD_LOG"@);
    inherit(&mut environment, variables, "NETA_FAKE_PI_START_LOG", Ghost(base), Ghost(n5));
    let ghost n6 = n5.push("NETA_FAKE_PI_START_LOG"@);
    inherit(&mut environment, variables, "NETA_FAKE_PI_SESSION_INPUT_LOG", Ghost(base), Ghost(n6));
    let ghost n7 = n6.push("NETA_FAKE_PI_SESSION_INPUT_LOG"@);
    inherit(&mut environment, variables, "NETA_FAKE_PI_SIZE_LOG", Ghost(base), Ghost(n7));
    let ghost n8 = n7.push("NETA_FAKE_PI_SIZE_LOG"@);
    inherit(&mut environment, variables, "NETA_PI_GATE_FILE", Ghost(base), Ghost(n8));
    let ghost n9 = n8.push("NETA_PI_GATE_FILE"@);
    inherit(&mut environment, variables, "NETA_PI_GATE_STARTED_FILE", Ghost(base), Ghost(n9));
    let ghost n10 = n9.push("NETA_PI_GATE_STARTED_FILE"@);
    inherit(&mut environment, variables, "NETA_REAL_PI_CLI", Ghost(base), Ghost(n10));
    assert(n10.push("NETA_REAL_PI_CLI"@) =~= inherited_names());
    ProcessPlan { argv, environment }
}

} // verus!
