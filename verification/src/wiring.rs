//! What goes over the wire and to other programs: the frames of a Node, the commands for another machine,
//! the process of a pane, and what the environment asks for.

use vstd::prelude::*;
use vstd::string::*;

use crate::error::{shown, Failure};
use crate::frames::{drained, line_end, MAX_LINE_BYTES, PROTOCOL_VERSION};
use crate::hosts::ScopedView;
use crate::json::{json_read, member_of, text_member_of, Json};
use crate::options::Environment;
use crate::paths::joined;
use crate::process::{inherited, named, pi_argv, pi_environment};
use crate::protocol::TargetView;
use crate::remote::{
    config_words, descriptor_command, discovered, forward_words, home_of, launcher_words,
    marked_line, quoted, quoted_words, shell_reads, ssh_words, start_command, status_command,
    LauncherView, Quoting,
};
use crate::requests::{request_json, routed, Routed};
use crate::seqs::{position, position_is_first};
use crate::sessions::{header_end, is_planned, LegacyEntry, LegacyRoot, RootPlan, MAX_HEADER_BYTES};
use crate::text::{lines_of, lossy_text, trimmed};

verus! {

/// The protocol, and how long a line may be.
pub proof fn the_limits_of_the_protocol()
    ensures
        PROTOCOL_VERSION == 3,
        MAX_LINE_BYTES == 8 * 1024 * 1024,
{
}

/// Each complete line of what a Node sends is one frame, in their order. Empty lines are passed over; a
/// line that is no JSON, or too long, ends the reading with an error; what comes behind the last line feed
/// is kept.
pub proof fn each_line_is_a_frame(line: Seq<u8>, rest: Seq<u8>)
    requires
        forall|i: int| 0 <= i < line.len() ==> #[trigger] line[i] != 10,
    ensures
        ({
            let all = drained(line + seq![10u8] + rest);
            &&& 0 < line.len() <= MAX_LINE_BYTES && json_read(line) is Some ==> {
                &&& all.frames == seq![json_read(line)->0] + drained(rest).frames
                &&& all.rest == drained(rest).rest
                &&& all.failure == drained(rest).failure
            }
            &&& line.len() == 0 ==> all == drained(rest)
            &&& 0 < line.len() <= MAX_LINE_BYTES && json_read(line) is None ==> all.failure is Some
                && all.frames.len() == 0
            &&& line.len() > MAX_LINE_BYTES ==> all.failure is Some && all.frames.len() == 0
        }),
        line.len() <= MAX_LINE_BYTES ==> drained(line).frames.len() == 0 && drained(line).rest == line
            && drained(line).failure is None,
        line.len() > MAX_LINE_BYTES ==> drained(line).failure is Some,
{
    let whole = line + seq![10u8] + rest;
    lemma_first_line(whole, line.len() as int, 0);
    lemma_no_line(line, 0);
    assert(whole.take(line.len() as int) =~= line);
    assert(whole.skip((line.len() + 1) as int) =~= rest);
}

proof fn lemma_first_line(buffer: Seq<u8>, end: int, from: int)
    requires
        0 <= from <= end < buffer.len(),
        buffer[end] == 10,
        forall|i: int| 0 <= i < end ==> #[trigger] buffer[i] != 10,
    ensures
        line_end(buffer, from) == end,
    decreases end - from,
{
    if from < end {
        lemma_first_line(buffer, end, from + 1);
    }
}

proof fn lemma_no_line(buffer: Seq<u8>, from: int)
    requires
        0 <= from <= buffer.len(),
        forall|i: int| 0 <= i < buffer.len() ==> #[trigger] buffer[i] != 10,
    ensures
        line_end(buffer, from) == buffer.len(),
    decreases buffer.len() - from,
{
    if from < buffer.len() {
        lemma_no_line(buffer, from + 1);
    }
}

/// A request carries the id, the method and the parameters that it is made of.
pub proof fn a_request_says_what_is_asked(id: Seq<char>, method: Seq<char>, params: Json)
    ensures
        text_member_of(request_json(id, method, params), "id"@) == Some(id),
        text_member_of(request_json(id, method, params), "method"@) == Some(method),
        member_of(request_json(id, method, params), "params"@) == Some(params),
        text_member_of(request_json(id, method, params), "jsonrpc"@) == Some("2.0"@),
{
    reveal_strlit("jsonrpc");
    reveal_strlit("id");
    reveal_strlit("method");
    reveal_strlit("params");
    assert("jsonrpc"@.len() == 7 && "id"@.len() == 2 && "method"@.len() == 6 && "params"@.len() == 6);
    assert("method"@[0] == 'm' && "params"@[0] == 'p');
}

/// A frame with the id of a request is its reply: with what stands under `result`, or, where something
/// stands under `error`, with that error, its code, its message and its symbol.
pub proof fn a_reply_is_told_by_its_id(frame: Json, id: Seq<char>)
    requires
        member_of(frame, "id"@) == Some(Json::Text(id)),
    ensures
        match routed(frame) {
            Routed::Reply { id: own, outcome } => {
                &&& own == id
                &&& member_of(frame, "error"@) is None && member_of(frame, "result"@) is Some ==> outcome
                    == Ok::<Json, Failure>(member_of(frame, "result"@)->0)
                &&& member_of(frame, "error"@) is None && member_of(frame, "result"@) is None ==> outcome
                    == Ok::<Json, Failure>(Json::Null)
                &&& member_of(frame, "error"@) matches Some(error) ==> {
                    &&& outcome matches Err(Failure::Rpc { message, symbol, .. }) && (text_member_of(
                        error,
                        "message"@,
                    ) is Some ==> Some(message) == text_member_of(error, "message"@)) && (member_of(
                        error,
                        "data"@,
                    ) is Some ==> symbol == text_member_of(
                        member_of(error, "data"@)->0,
                        "code"@,
                    ))
                }
            },
            _ => false,
        },
{
}

/// A frame without an id is a notification where it names a method, with what stands under `params`; else
/// it is of no use.
pub proof fn a_notification_has_no_id(frame: Json)
    requires
        member_of(frame, "id"@) is None,
    ensures
        match text_member_of(frame, "method"@) {
            Some(name) => routed(frame) matches Routed::Notification { method, params } && method == name
                && (member_of(frame, "params"@) is Some ==> params
                == member_of(frame, "params"@)->0),
            None => routed(frame) is Nothing,
        },
{
}

/// What an error is shown with holds what it says.
pub proof fn an_error_is_shown_with_its_words(message: Seq<char>, code: i64, symbol: Seq<char>)
    ensures
        shown(Failure::Configuration(message)) == message,
        shown(Failure::Unavailable(message)) == message,
        shown(Failure::Protocol(message)) == message,
        message.is_prefix_of(
            shown(Failure::Rpc { code, symbol: Some(symbol), message }),
        ),
        (seq!['('] + symbol + seq![')']).is_suffix_of(
            shown(Failure::Rpc { code, symbol: Some(symbol), message }),
        ),
{
    reveal_strlit(" (");
    reveal_strlit(")");
    let words = shown(Failure::Rpc { code, symbol: Some(symbol), message });
    assert(words.take(message.len() as int) =~= message);
    let end = seq!['('] + symbol + seq![')'];
    assert(words.skip(words.len() - end.len()) =~= end);
}

/// The descriptor of a Node is read from `node.json` in its directory, whatever that is called, and no
/// more than the longest that is taken.
pub proof fn the_descriptor_is_read_from_its_directory(dir: Seq<char>)
    ensures
        ({
            let path = joined(dir, "node.json"@);
            &&& quoted(path).is_suffix_of(descriptor_command(dir))
            &&& shell_reads(quoted(path)) == Some((Quoting::Bare, path))
            &&& descriptor_command(dir).len() == quoted(path).len() + "head -c 8192 -- "@.len()
            &&& "head -c 8192 -- "@.is_prefix_of(descriptor_command(dir))
        }),
{
    let path = joined(dir, "node.json"@);
    let command = descriptor_command(dir);
    crate::remote::shell_reads_back_what_was_quoted(path);
    assert(command.skip(command.len() - quoted(path).len()) =~= quoted(path));
    assert(command.take("head -c 8192 -- "@.len() as int) =~= "head -c 8192 -- "@);
}

/// A launcher is run for the directory of its Node: the environment names the directory, then come the
/// program, its own arguments, and what is asked of it.
pub proof fn a_launcher_is_run_for_its_directory(
    dir: Seq<char>,
    launcher: LauncherView,
    asked: Seq<Seq<char>>,
)
    ensures
        ({
            let words = launcher_words(dir, launcher, asked);
            let count = launcher.args.len() as int;
            &&& words.len() == 3 + count + asked.len()
            &&& words[0] == "env"@
            &&& words[1] == "NETA_DIR="@ + dir
            &&& words[2] == launcher.executable
            &&& words.subrange(3, 3 + count) == launcher.args
            &&& words.skip(3 + count) == asked
        }),
{
    let words = launcher_words(dir, launcher, asked);
    let count = launcher.args.len() as int;
    assert(words.subrange(3, 3 + count) =~= launcher.args);
    assert(words.skip(3 + count) =~= asked);
}

/// Whether a text stands within another.
pub open spec fn lies_in(part: Seq<char>, whole: Seq<char>) -> bool {
    crate::text::holds(whole, part)
}

proof fn lemma_lies_in(whole: Seq<char>, before: Seq<char>, part: Seq<char>, behind: Seq<char>)
    requires
        whole == before + part + behind,
    ensures
        lies_in(part, whole),
{
    let at = before.len() as int;
    assert(whole.subrange(at, at + part.len()) =~= part);
    assert(crate::text::stands_at(whole, part, at));
}

/// A Node is started with `node start` and left running without a terminal; it is asked how it is with
/// `node status --json`.
pub proof fn a_node_is_started_and_asked(dir: Seq<char>, launcher: LauncherView)
    ensures
        lies_in(
            quoted_words(launcher_words(dir, launcher, seq!["node"@, "start"@])),
            start_command(dir, launcher),
        ),
        lies_in("nohup "@, start_command(dir, launcher)),
        start_command(dir, launcher).last() == '&',
        quoted_words(
            launcher_words(dir, launcher, seq!["node"@, "status"@, "--json"@]),
        ).is_suffix_of(status_command(dir, launcher)),
{
    let words = quoted_words(launcher_words(dir, launcher, seq!["node"@, "start"@]));
    let start = start_command(dir, launcher);
    let path = crate::remote::search_path();
    let end = " >/dev/null 2>&1 </dev/null &"@;
    reveal_strlit(" >/dev/null 2>&1 </dev/null &");
    reveal_strlit("nohup ");
    assert(start =~= (path + "nohup "@) + words + end);
    lemma_lies_in(start, path + "nohup "@, words, end);
    assert(start =~= path + "nohup "@ + (words + end));
    lemma_lies_in(start, path, "nohup "@, words + end);
    let asked = quoted_words(launcher_words(dir, launcher, seq!["node"@, "status"@, "--json"@]));
    let status = status_command(dir, launcher);
    assert(status.skip(status.len() - asked.len()) =~= asked);
}

/// The words of a command line are each quoted for themselves, in their order, with a blank between them.
pub proof fn words_are_quoted_one_by_one(words: Seq<Seq<char>>, more: Seq<char>)
    ensures
        quoted_words(seq![more]) == quoted(more),
        words.len() > 0 ==> quoted_words(words.push(more)) == quoted_words(words) + seq![' '] + quoted(
            more,
        ),
{
    reveal_strlit(" ");
    assert(" "@ =~= seq![' ']);
    assert(words.push(more).drop_last() =~= words);
}

/// An `ssh` runs the command on the destination that is named, with the configuration that is named, and
/// without handing on an agent.
pub proof fn ssh_runs_the_command_at_its_destination(
    config: Seq<char>,
    destination: Seq<char>,
    command: Seq<char>,
)
    ensures
        ({
            let plain = ssh_words(None, destination, command);
            let named = ssh_words(Some(config), destination, command);
            &&& plain.last() == command
            &&& plain[plain.len() - 2] == destination
            &&& plain.contains("ForwardAgent=no"@)
            &&& named == seq!["-F"@, config] + plain
        }),
{
    let plain = ssh_words(None, destination, command);
    assert(plain[1] == "ForwardAgent=no"@);
    assert(ssh_words(Some(config), destination, command) =~= seq!["-F"@, config] + plain);
}

/// A forward leads from the local socket to the remote one, runs no command, and fails where it cannot be
/// made.
pub proof fn a_forward_leads_to_the_remote_socket(
    config: Option<Seq<char>>,
    destination: Seq<char>,
    local: Seq<char>,
    remote: Seq<char>,
) -> (at: int)
    ensures
        ({
            let words = forward_words(config, destination, local, remote);
            &&& 0 < at < words.len()
            &&& words[at - 1] == "-L"@
            &&& words[at] == local + seq![':'] + remote
            &&& words.last() == destination
            &&& words.contains("-N"@)
            &&& words.contains("ExitOnForwardFailure=yes"@)
            &&& words.contains("ForwardAgent=no"@)
        }),
{
    reveal_strlit(":");
    assert(":"@ =~= seq![':']);
    let words = forward_words(config, destination, local, remote);
    let from = config_words(config).len() as int;
    assert(words[from + 1] == "ForwardAgent=no"@);
    assert(words[from + 3] == "ExitOnForwardFailure=yes"@);
    assert(words[from + 4] == "-N"@);
    from + 6
}

proof fn lemma_marked(list: Seq<Seq<char>>, marker: Seq<char>, at: int)
    requires
        0 <= at < list.len(),
        marker.is_prefix_of(list[at]),
        forall|k: int| 0 <= k < at ==> !marker.is_prefix_of(#[trigger] list[k]),
    ensures
        marked_line(list, marker) == Some(list[at].skip(marker.len() as int)),
    decreases list.len(),
{
    if at > 0 {
        assert(!marker.is_prefix_of(list[0]));
        let rest = list.drop_first();
        assert forall|k: int| 0 <= k < at - 1 implies !marker.is_prefix_of(#[trigger] rest[k]) by {
            assert(rest[k] == list[k + 1]);
        }
        lemma_marked(rest, marker, at - 1);
    }
}

proof fn lemma_unmarked(list: Seq<Seq<char>>, marker: Seq<char>)
    requires
        forall|k: int| 0 <= k < list.len() ==> !marker.is_prefix_of(#[trigger] list[k]),
    ensures
        marked_line(list, marker) is None,
    decreases list.len(),
{
    if list.len() > 0 {
        let rest = list.drop_first();
        assert(!marker.is_prefix_of(list[0]));
        assert forall|k: int| 0 <= k < rest.len() implies !marker.is_prefix_of(#[trigger] rest[k]) by {
            assert(rest[k] == list[k + 1]);
        }
        lemma_unmarked(rest, marker);
    }
}

/// The launcher of another machine is what the first marked line of the answer names, where the question
/// was answered and the path is absolute; whatever else the machine prints is passed over.
pub proof fn the_launcher_is_read_from_its_line(success: bool, stdout: Seq<u8>, at: int)
    ensures
        ({
            let lines = lines_of(lossy_text(stdout));
            let marker = "__NETA_CLI__"@;
            let first = 0 <= at < lines.len() && marker.is_prefix_of(lines[at]) && forall|k: int|
                0 <= k < at ==> !marker.is_prefix_of(#[trigger] lines[k]);
            let path = lines[at].skip(marker.len() as int);
            &&& !success ==> discovered(success, stdout) is None
            &&& success && first && path.len() > 0 && path[0] == '/' ==> discovered(success, stdout)
                == Some(path)
            &&& first && !(path.len() > 0 && path[0] == '/') ==> discovered(success, stdout) is None
            &&& (forall|k: int| 0 <= k < lines.len() ==> !marker.is_prefix_of(#[trigger] lines[k]))
                ==> discovered(success, stdout) is None
        }),
{
    let lines = lines_of(lossy_text(stdout));
    let marker = "__NETA_CLI__"@;
    if 0 <= at < lines.len() && marker.is_prefix_of(lines[at]) && (forall|k: int|
        0 <= k < at ==> !marker.is_prefix_of(#[trigger] lines[k])) {
        lemma_marked(lines, marker, at);
    }
    if forall|k: int| 0 <= k < lines.len() ==> !marker.is_prefix_of(#[trigger] lines[k]) {
        lemma_unmarked(lines, marker);
    }
}

/// The home directory of another machine is what the first marked line of the answer names, without the
/// space around it, where it is absolute; where the question failed, the error is what was said.
pub proof fn the_home_directory_is_read_from_its_line(
    success: bool,
    stdout: Seq<u8>,
    stderr: Seq<u8>,
    at: int,
)
    ensures
        ({
            let lines = lines_of(lossy_text(stdout));
            let marker = "__NETA_HOME__"@;
            let first = 0 <= at < lines.len() && marker.is_prefix_of(lines[at]) && forall|k: int|
                0 <= k < at ==> !marker.is_prefix_of(#[trigger] lines[k]);
            let path = trimmed(lines[at].skip(marker.len() as int));
            &&& !success ==> home_of(success, stdout, stderr) == Err::<Seq<char>, Seq<char>>(
                trimmed(lossy_text(stderr)),
            )
            &&& success && first && path.len() > 0 && path[0] == '/' ==> home_of(
                success,
                stdout,
                stderr,
            ) == Ok::<Seq<char>, Seq<char>>(path)
            &&& first && !(path.len() > 0 && path[0] == '/') ==> home_of(success, stdout, stderr) is Err
            &&& (forall|k: int| 0 <= k < lines.len() ==> !marker.is_prefix_of(#[trigger] lines[k]))
                ==> home_of(success, stdout, stderr) is Err
        }),
{
    let lines = lines_of(lossy_text(stdout));
    let marker = "__NETA_HOME__"@;
    if 0 <= at < lines.len() && marker.is_prefix_of(lines[at]) && (forall|k: int|
        0 <= k < at ==> !marker.is_prefix_of(#[trigger] lines[k])) {
        lemma_marked(lines, marker, at);
    }
    if forall|k: int| 0 <= k < lines.len() ==> !marker.is_prefix_of(#[trigger] lines[k]) {
        lemma_unmarked(lines, marker);
    }
}

/// The process of a pane is given its own session and the directory of its history, fills the pane, and is
/// given a provider and a model where the session does not run on Pi itself, or may not.
pub proof fn a_pane_runs_its_own_session(
    target: TargetView,
    executable: Seq<char>,
    pi_cli: Seq<char>,
    extension: Seq<char>,
    root: Seq<char>,
    force_acp: bool,
)
    ensures
        ({
            let words = pi_argv(target, executable, pi_cli, extension, root, force_acp);
            let bridged = target.provider != "pi"@ || force_acp;
            &&& words.len() == if bridged {
                14int
            } else {
                10
            }
            &&& words[0] == executable
            &&& words[1] == pi_cli
            &&& words[2] == "--session-dir"@ && words[3] == root
            &&& words[4] == "--session-id"@ && words[5] == target.session_id
            &&& words[6] == "--tui-mode"@ && words[7] == "fullscreen"@
            &&& words[8] == "--extension"@ && words[9] == extension
            &&& bridged ==> words[10] == "--provider"@ && words[11] == "neta-acp"@ && words[12]
                == "--model"@ && words[13] == target.model
        }),
{
}

/// The process of a pane is told its session, its provider, its model, its directory, the descriptor of
/// its Node, and where to say that its editor is ready.
pub proof fn a_pane_is_told_its_session(
    target: TargetView,
    ready_path: Seq<char>,
    descriptor: Seq<char>,
    force_acp: bool,
)
    ensures
        ({
            let words = pi_environment(target, ready_path, descriptor, force_acp);
            &&& words.contains("NETA_TARGET_SESSION_ID"@ + seq!['='] + target.session_id)
            &&& words.contains("NETA_TARGET_PROVIDER"@ + seq!['='] + target.provider)
            &&& words.contains("NETA_TARGET_MODEL"@ + seq!['='] + target.model)
            &&& words.contains("NETA_WORKSPACE_ROOT"@ + seq!['='] + target.cwd)
            &&& words.contains("NETA_DESCRIPTOR"@ + seq!['='] + descriptor)
            &&& words.contains("NETA_PI_EDITOR_READY_PATH"@ + seq!['='] + ready_path)
            &&& words.contains("NETA_PROXY_TOOLS"@ + seq!['='] + "disabled"@)
            &&& words.contains("NETA_FORCE_ACP"@ + seq!['='] + if force_acp {
                seq!['1']
            } else {
                seq!['0']
            })
        }),
{
    reveal_strlit("=");
    reveal_strlit("1");
    reveal_strlit("0");
    assert("="@ =~= seq!['=']);
    assert("1"@ =~= seq!['1']);
    assert("0"@ =~= seq!['0']);
    let words = pi_environment(target, ready_path, descriptor, force_acp);
    assert(words[0] == "NETA_TARGET_SESSION_ID"@ + seq!['='] + target.session_id);
    assert(words[1] == "NETA_TARGET_PROVIDER"@ + seq!['='] + target.provider);
    assert(words[2] == "NETA_TARGET_MODEL"@ + seq!['='] + target.model);
    assert(words[3] == "NETA_WORKSPACE_ROOT"@ + seq!['='] + target.cwd);
    assert(words[4] == "NETA_DESCRIPTOR"@ + seq!['='] + descriptor);
    assert(words[5] == "NETA_FORCE_ACP"@ + seq!['='] + if force_acp {
        seq!['1']
    } else {
        seq!['0']
    });
    assert(words[6] == "NETA_PI_EDITOR_READY_PATH"@ + seq!['='] + ready_path);
    assert(words[7] == "NETA_PROXY_TOOLS"@ + seq!['='] + "disabled"@);
}

/// Of the environment of the client a pane gets the variables that are listed for it, with the values that
/// they have, and no other.
pub proof fn a_pane_inherits_only_what_is_listed(
    names: Seq<Seq<char>>,
    variables: Seq<(String, String)>,
    at: int,
)
    ensures
        forall|i: int|
            0 <= i < inherited(names, variables).len() ==> #[trigger] is_handed_on(
                inherited(names, variables)[i],
                names,
                variables,
            ),
        0 <= at < variables.len() && names.contains(variables[at].0@) && (forall|k: int|
            0 <= k < at ==> (#[trigger] variables[k]).0@ != variables[at].0@) ==> inherited(
            names,
            variables,
        ).contains(variables[at].0@ + seq!['='] + variables[at].1@),
    decreases names.len(),
{
    reveal_strlit("=");
    assert("="@ =~= seq!['=']);
    let all = inherited(names, variables);
    if names.len() > 0 {
        let before = names.drop_last();
        let last = names.last();
        a_pane_inherits_only_what_is_listed(before, variables, at);
        let earlier = inherited(before, variables);
        position_is_first(variables, named(last), 0);
        let p = position(variables, named(last), 0);
        assert forall|i: int| 0 <= i < all.len() implies #[trigger] is_handed_on(
            all[i],
            names,
            variables,
        ) by {
            if i < earlier.len() {
                assert(is_handed_on(earlier[i], before, variables));
                let (n, v) = choose|n: int, v: int|
                    #![trigger before[n], variables[v]]
                    0 <= n < before.len() && 0 <= v < variables.len() && variables[v].0@ == before[n]
                        && earlier[i] == before[n] + seq!['='] + variables[v].1@;
                assert(names[n] == before[n]);
                assert(variables[v].0@ == names[n]);
            } else {
                assert(names[names.len() - 1] == last);
                assert(variables[p].0@ == last);
            }
        }
        if 0 <= at < variables.len() && names.contains(variables[at].0@) && (forall|k: int|
            0 <= k < at ==> (#[trigger] variables[k]).0@ != variables[at].0@) {
            let wanted = variables[at].0@ + seq!['='] + variables[at].1@;
            if variables[at].0@ == last {
                assert forall|i: int| 0 <= i < at implies !#[trigger] named(last)(variables[i]) by {
                    assert(variables[i].0@ != variables[at].0@);
                }
                crate::seqs::first_is_position(variables, named(last), 0, at);
                assert(all[all.len() - 1] == wanted);
            } else {
                let n = choose|n: int| 0 <= n < names.len() && names[n] == variables[at].0@;
                assert(before[n] == variables[at].0@);
                assert(before.contains(variables[at].0@));
                let i = choose|i: int| 0 <= i < earlier.len() && earlier[i] == wanted;
                assert(all[i] == wanted);
            }
        }
    }
}

/// Whether a word hands on a listed variable with its value.
pub open spec fn is_handed_on(
    word: Seq<char>,
    names: Seq<Seq<char>>,
    variables: Seq<(String, String)>,
) -> bool {
    exists|n: int, v: int|
        #![trigger names[n], variables[v]]
        0 <= n < names.len() && 0 <= v < variables.len() && variables[v].0@ == names[n] && word
            == names[n] + seq!['='] + variables[v].1@
}

/// A history that is there is used. An old directory takes its place only where nothing but files of that
/// very session, in that very directory, stands in it, and on this machine; where it holds anything else
/// it is left alone and nothing is opened; where it holds nothing, a new one is made.
pub proof fn old_histories_are_never_mixed_up(
    plan: RootPlan,
    target: ScopedView,
    parent: Seq<char>,
    remote: bool,
    scoped_exists: bool,
    entries: Vec<LegacyEntry>,
    at: int,
)
    requires
        is_planned(plan, target, parent, remote, scoped_exists, LegacyRoot::Directory(entries)),
    ensures
        scoped_exists <==> plan is Use,
        plan is Migrate ==> !remote && target.key.host == "local"@ && entries@.len() > 0,
        plan is Migrate && 0 <= at < entries@.len() ==> match entries@[at] {
            LegacyEntry::NotFile => false,
            LegacyEntry::File => true,
            LegacyEntry::History(header) => header is Some && header->0.id@ == target.target.session_id
                && header->0.cwd@ == target.target.cwd && header->0.entry_type@ == "session"@,
        },
        plan is Migrate ==> exists|i: int|
            0 <= i < entries@.len() && (#[trigger] entries@[i]) is History,
        plan is Create <==> !scoped_exists && entries@.len() == 0,
        !scoped_exists && entries@.len() > 0 && (remote || target.key.host != "local"@)
            ==> plan is Refuse,
{
    if plan is Migrate && 0 <= at < entries@.len() {
        assert(crate::sessions::entry_fits(entries@[at], target));
    }
}

/// The first line of a history ends at its first line feed, where that comes soon enough.
pub proof fn a_header_ends_at_the_first_line_feed(bytes: Seq<u8>, end: int)
    requires
        0 <= end < bytes.len(),
        bytes[end] == 10,
        forall|i: int| 0 <= i < end ==> #[trigger] bytes[i] != 10,
    ensures
        header_end(bytes, 0) == if end <= 65536 {
            Some(end)
        } else {
            None::<int>
        },
{
    lemma_header_end(bytes, end, 0);
}

proof fn lemma_header_end(bytes: Seq<u8>, end: int, from: int)
    requires
        0 <= from <= end < bytes.len(),
        bytes[end] == 10,
        forall|i: int| 0 <= i < end ==> #[trigger] bytes[i] != 10,
    ensures
        header_end(bytes, from) == if end <= 65536 {
            Some(end)
        } else {
            None::<int>
        },
    decreases end - from,
{
    if from < end && from <= MAX_HEADER_BYTES {
        lemma_header_end(bytes, end, from + 1);
    }
}

/// The directory of the Node is the one that is named, else `.neta` in the home directory; without either
/// nothing can be reached.
pub proof fn the_directory_is_the_one_that_is_named(environment: Environment)
    ensures
        environment.neta_dir matches Some(dir) ==> dir@.len() > 0 ==> environment.directory() == Some(
            dir@,
        ),
        (environment.neta_dir is None || environment.neta_dir->0@.len() == 0) && environment.home is Some
            && environment.home->0@.len() > 0 ==> environment.directory() == Some(
            joined(environment.home->0@, ".neta"@),
        ),
        (environment.neta_dir is None || environment.neta_dir->0@.len() == 0) && (
        environment.home is None || environment.home->0@.len() == 0) ==> environment.options() is Err,
{
}

/// Where a destination is named the Node there is reached, with all that is named for it; a destination
/// that could be an option is refused, and one without a directory is.
pub proof fn a_named_destination_is_reached(environment: Environment)
    requires
        environment.remote_destination is Some,
        environment.remote_destination->0@.len() > 0,
        environment.options() is Ok,
    ensures
        ({
            let options = environment.options()->Ok_0;
            &&& options.remote is Some
            &&& options.remote->0.ssh_destination == environment.remote_destination->0@
            &&& options.remote->0.ssh_destination[0] != '-'
            &&& environment.remote_neta_dir is Some
            &&& options.remote->0.remote_neta_dir == environment.remote_neta_dir->0@
            &&& environment.remote_ssh_config matches Some(config) ==> config@.len() > 0
                ==> options.remote->0.ssh_config == Some(config@)
            &&& environment.remote_ssh_config is None ==> options.remote->0.ssh_config is None
            &&& environment.remote_ssh_executable matches Some(program) ==> program@.len() > 0
                ==> options.remote->0.ssh_executable == program@
            &&& environment.remote_ssh_executable is None ==> options.remote->0.ssh_executable == "ssh"@
            &&& environment.remote_executable matches Some(program) ==> program@.len() > 0 ==> (
            options.remote->0.remote_launcher is Some
                && options.remote->0.remote_launcher->0.executable == program@)
            &&& environment.remote_executable is None ==> options.remote->0.remote_launcher is None
            &&& options.timeout == 5_000
        }),
{
}

/// Where no destination is named the Node of this machine is started, by the program and the script that
/// are named, which have to be there.
pub proof fn the_local_node_is_started_by_its_script(environment: Environment)
    requires
        environment.remote_destination is None,
        environment.options() is Ok,
    ensures
        ({
            let options = environment.options()->Ok_0;
            &&& options.remote is None
            &&& options.launcher.args.len() == 3
            &&& options.launcher.args[0] == environment.script()
            &&& options.launcher.args[1] == "node"@
            &&& options.launcher.args[2] == "start"@
            &&& environment.node_executable matches Some(program) ==> options.launcher.executable
                == program@
            &&& environment.is_file(options.launcher.executable)
            &&& environment.is_file(options.launcher.args[0])
            &&& environment.node_script matches Some(script) ==> options.launcher.args[0] == script@
        }),
{
}

/// A path is put below another with one separator between them; an absolute path stands for itself.
pub proof fn a_path_is_put_below_another(base: Seq<char>, rest: Seq<char>)
    ensures
        rest.len() > 0 && rest[0] == '/' ==> joined(base, rest) == rest,
        !(rest.len() > 0 && rest[0] == '/') ==> {
            &&& base.is_prefix_of(joined(base, rest))
            &&& rest.is_suffix_of(joined(base, rest))
            &&& base.len() > 0 && base.last() != '/' ==> joined(base, rest) == base + seq!['/'] + rest
            &&& base.len() > 0 && base.last() == '/' ==> joined(base, rest) == base + rest
        },
{
    reveal_strlit("/");
    assert("/"@ =~= seq!['/']);
    let path = joined(base, rest);
    if !(rest.len() > 0 && rest[0] == '/') {
        assert(path.take(base.len() as int) =~= base);
        assert(path.skip(path.len() - rest.len()) =~= rest);
    }
}

} // verus!
