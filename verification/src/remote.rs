//! Nodes on other machines, which are reached over SSH.

use vstd::prelude::*;
use vstd::string::*;

use crate::error::{ClientError, Failure};
use crate::paths::{absolute, is_absolute, join, joined};
use crate::text::{
    chars_of, clone_texts, concat2, concat3, control, has_control, is_blank, blank, lines,
    lines_of, lossy, lossy_text, optional, strip_prefix, texts, trim, trimmed, without_prefix,
};

verus! {

/// A program to start, with its arguments.
#[derive(Debug)]
pub struct Launcher {
    pub executable: String,
    pub args: Vec<String>,
}

/// What a launcher holds.
#[verifier::ext_equal]
pub struct LauncherView {
    pub executable: Seq<char>,
    pub args: Seq<Seq<char>>,
}

impl View for Launcher {
    type V = LauncherView;

    open spec fn view(&self) -> LauncherView {
        LauncherView { executable: self.executable@, args: texts(self.args@) }
    }
}

impl Clone for Launcher {
    fn clone(&self) -> (copy: Self)
        ensures
            copy@ == self@,
    {
        Launcher { executable: self.executable.clone(), args: clone_texts(&self.args) }
    }
}

/// What an optional launcher holds.
pub open spec fn optional_launcher(launcher: Option<Launcher>) -> Option<LauncherView> {
    match launcher {
        Some(launcher) => Some(launcher@),
        None => None,
    }
}

/// A Node on another machine, and how to get there.
#[derive(Clone, Debug)]
pub struct RemoteNode {
    pub ssh_destination: String,
    pub ssh_executable: String,
    pub ssh_config: Option<String>,
    pub remote_neta_dir: String,
    pub remote_launcher: Option<Launcher>,
    pub local_working_directory: String,
}

/// What a remote Node holds.
#[verifier::ext_equal]
pub struct RemoteView {
    pub ssh_destination: Seq<char>,
    pub ssh_executable: Seq<char>,
    pub ssh_config: Option<Seq<char>>,
    pub remote_neta_dir: Seq<char>,
    pub remote_launcher: Option<LauncherView>,
    pub local_working_directory: Seq<char>,
}

impl View for RemoteNode {
    type V = RemoteView;

    open spec fn view(&self) -> RemoteView {
        RemoteView {
            ssh_destination: self.ssh_destination@,
            ssh_executable: self.ssh_executable@,
            ssh_config: optional(self.ssh_config),
            remote_neta_dir: self.remote_neta_dir@,
            remote_launcher: optional_launcher(self.remote_launcher),
            local_working_directory: self.local_working_directory@,
        }
    }
}

/// The most that is read of a descriptor, in bytes.
pub const MAX_DESCRIPTOR_BYTES: u64 = 8_192;

/// A destination that `ssh` cannot take for an option.
pub open spec fn ssh_destination(destination: Seq<char>) -> bool {
    &&& destination.len() > 0
    &&& destination[0] != '-'
    &&& forall|i: int| 0 <= i < destination.len() ==> !control(#[trigger] destination[i])
}

/// Whether a destination is one that `ssh` cannot take for an option.
pub fn is_ssh_destination(destination: &str) -> (yes: bool)
    ensures
        yes == ssh_destination(destination@),
{
    destination.unicode_len() > 0 && destination.get_char(0) != '-' && !has_control(destination)
}

/// Accepts a destination that `ssh` cannot take for an option.
pub fn validate_ssh_destination(destination: &str) -> (valid: Result<(), ClientError>)
    ensures
        match valid {
            Ok(()) => ssh_destination(destination@),
            Err(error) => !ssh_destination(destination@) && error@ == Failure::Configuration(
                "NETA_REMOTE_SSH_DESTINATION must be a non-option SSH destination"@,
            ),
        },
{
    if is_ssh_destination(destination) {
        Ok(())
    } else {
        Err(
            ClientError::Configuration(
                "NETA_REMOTE_SSH_DESTINATION must be a non-option SSH destination".to_owned(),
            ),
        )
    }
}

/// A text between single quotes, in which each single quote is closed off, put between double
/// quotes, and followed by a new single quote.
pub open spec fn quoted_body(value: Seq<char>) -> Seq<char>
    decreases value.len(),
{
    if value.len() == 0 {
        seq![]
    } else if value.last() == '\'' {
        quoted_body(value.drop_last()) + seq!['\'', '"', '\'', '"', '\'']
    } else {
        quoted_body(value.drop_last()).push(value.last())
    }
}

/// A text as one word of a POSIX shell.
pub open spec fn quoted(value: Seq<char>) -> Seq<char> {
    seq!['\''] + quoted_body(value) + seq!['\'']
}

/// A text as one word of a POSIX shell.
pub fn posix_quote(value: &str) -> (word: String)
    ensures
        word@ == quoted(value@),
{
    let chars = chars_of(value);
    let mut word = String::new();
    word.push('\'');
    let mut at: usize = 0;
    while at < chars.len()
        invariant
            at <= chars@.len(),
            chars@ == value@,
            word@ == seq!['\''] + quoted_body(value@.take(at as int)),
        decreases chars@.len() - at,
    {
        let c: char = chars[at];
        let ghost now = value@.take(at + 1);
        assert(now.drop_last() =~= value@.take(at as int));
        assert(now.last() == c);
        if c == '\'' {
            word.push('\'');
            word.push('"');
            word.push('\'');
            word.push('"');
            word.push('\'');
        } else {
            word.push(c);
        }
        assert(word@ =~= seq!['\''] + quoted_body(now));
        at = at + 1;
    }
    assert(value@.take(at as int) =~= value@);
    word.push('\'');
    assert(word@ =~= quoted(value@));
    word
}

/// Where a POSIX shell stands while it reads a word.
pub enum Quoting {
    Bare,
    Single,
    Double,
}

/// What a POSIX shell has read of a word that is made of quoted parts only: where it stands and
/// the text so far. Anything that it would not take literally is no such word.
pub open spec fn shell_reads(word: Seq<char>) -> Option<(Quoting, Seq<char>)>
    decreases word.len(),
{
    if word.len() == 0 {
        Some((Quoting::Bare, seq![]))
    } else {
        let c = word.last();
        match shell_reads(word.drop_last()) {
            Some((Quoting::Bare, text)) => if c == '\'' {
                Some((Quoting::Single, text))
            } else if c == '"' {
                Some((Quoting::Double, text))
            } else {
                None
            },
            Some((Quoting::Single, text)) => if c == '\'' {
                Some((Quoting::Bare, text))
            } else {
                Some((Quoting::Single, text.push(c)))
            },
            Some((Quoting::Double, text)) => if c == '"' {
                Some((Quoting::Bare, text))
            } else if c == '$' || c == '`' || c == '\\' {
                None
            } else {
                Some((Quoting::Double, text.push(c)))
            },
            None => None,
        }
    }
}

proof fn lemma_shell_step(word: Seq<char>, c: char)
    ensures
        word.push(c).drop_last() == word,
        word.push(c).last() == c,
{
    assert(word.push(c).drop_last() =~= word);
}

proof fn lemma_shell_reads_body(value: Seq<char>)
    ensures
        shell_reads(seq!['\''] + quoted_body(value)) == Some((Quoting::Single, value)),
    decreases value.len(),
{
    if value.len() == 0 {
        let open = seq!['\''];
        assert(open + quoted_body(value) =~= open);
        assert(open.drop_last() =~= seq![]);
        assert(shell_reads(open.drop_last()) == Some((Quoting::Bare, Seq::<char>::empty())));
        assert(value =~= seq![]);
    } else {
        let before = value.drop_last();
        lemma_shell_reads_body(before);
        let start = seq!['\''] + quoted_body(before);
        assert(before.push(value.last()) =~= value);
        if value.last() == '\'' {
            let w1 = start.push('\'');
            let w2 = w1.push('"');
            let w3 = w2.push('\'');
            let w4 = w3.push('"');
            let w5 = w4.push('\'');
            assert(seq!['\''] + quoted_body(value) =~= w5);
            lemma_shell_step(start, '\'');
            lemma_shell_step(w1, '"');
            lemma_shell_step(w2, '\'');
            lemma_shell_step(w3, '"');
            lemma_shell_step(w4, '\'');
            assert(shell_reads(w1) == Some((Quoting::Bare, before)));
            assert(shell_reads(w2) == Some((Quoting::Double, before)));
            assert(shell_reads(w3) == Some((Quoting::Double, value)));
            assert(shell_reads(w4) == Some((Quoting::Bare, value)));
            assert(shell_reads(w5) == Some((Quoting::Single, value)));
        } else {
            let w = start.push(value.last());
            assert(seq!['\''] + quoted_body(value) =~= w);
            lemma_shell_step(start, value.last());
        }
    }
}

/// A shell reads a quoted text back as the text itself, whatever it holds.
pub proof fn shell_reads_back_what_was_quoted(value: Seq<char>)
    ensures
        shell_reads(quoted(value)) == Some((Quoting::Bare, value)),
{
    lemma_shell_reads_body(value);
    let body = seq!['\''] + quoted_body(value);
    assert(quoted(value) =~= body.push('\''));
    lemma_shell_step(body, '\'');
}

/// Quoted words with a blank between them.
pub open spec fn quoted_words(words: Seq<Seq<char>>) -> Seq<char>
    decreases words.len(),
{
    if words.len() == 0 {
        seq![]
    } else if words.len() == 1 {
        quoted(words[0])
    } else {
        quoted_words(words.drop_last()) + " "@ + quoted(words.last())
    }
}

fn quote_words(words: &Vec<String>) -> (line: String)
    ensures
        line@ == quoted_words(texts(words@)),
{
    let mut line = String::new();
    let mut at: usize = 0;
    let ghost all = texts(words@);
    while at < words.len()
        invariant
            at <= words@.len(),
            all == texts(words@),
            line@ == quoted_words(all.take(at as int)),
        decreases words@.len() - at,
    {
        let ghost now = all.take(at + 1);
        assert(now.drop_last() =~= all.take(at as int));
        assert(now.last() == words@[at as int]@);
        if at > 0 {
            line.append(" ");
        }
        line.append(&posix_quote(&words[at]));
        assert(line@ =~= quoted_words(now));
        at = at + 1;
    }
    assert(all.take(at as int) =~= all);
    line
}

/// The command that prints the descriptor of a remote Node.
pub open spec fn descriptor_command(remote_neta_dir: Seq<char>) -> Seq<char> {
    "head -c 8192 -- "@ + quoted(joined(remote_neta_dir, "node.json"@))
}

/// The command that prints the descriptor of a remote Node.
pub fn remote_descriptor_command(remote: &RemoteNode) -> (command: String)
    ensures
        command@ == descriptor_command(remote.remote_neta_dir@),
{
    concat2("head -c 8192 -- ", &posix_quote(&join(&remote.remote_neta_dir, "node.json")))
}

/// The words that run a launcher for a Node directory, followed by a subcommand.
pub open spec fn launcher_words(
    remote_neta_dir: Seq<char>,
    launcher: LauncherView,
    subcommand: Seq<Seq<char>>,
) -> Seq<Seq<char>> {
    seq!["env"@, "NETA_DIR="@ + remote_neta_dir, launcher.executable] + launcher.args + subcommand
}

fn launcher_line(remote: &RemoteNode, launcher: &Launcher, subcommand: Vec<String>) -> (line: String)
    ensures
        line@ == quoted_words(
            launcher_words(remote.remote_neta_dir@, launcher@, texts(subcommand@)),
        ),
{
    let mut words: Vec<String> = Vec::new();
    words.push("env".to_owned());
    words.push(concat2("NETA_DIR=", &remote.remote_neta_dir));
    words.push(launcher.executable.clone());
    let mut args = clone_texts(&launcher.args);
    let mut tail = subcommand;
    let ghost head = words@;
    words.append(&mut args);
    words.append(&mut tail);
    assert(texts(words@) =~= launcher_words(
        remote.remote_neta_dir@,
        launcher@,
        texts(subcommand@),
    )) by {
        assert(words@ =~= head + launcher.args@ + subcommand@);
        assert(texts(head) =~= seq![
            "env"@,
            "NETA_DIR="@ + remote.remote_neta_dir@,
            launcher.executable@,
        ]);
    }
    quote_words(&words)
}

/// What puts the usual places of programs on the search path of the remote shell.
pub open spec fn search_path() -> Seq<char> {
    "PATH=\"$HOME/.local/bin:$HOME/.bun/bin:/usr/local/bin:/opt/homebrew/bin:$PATH\"; export PATH; "@
}

/// The command that starts a remote Node and leaves it running.
pub open spec fn start_command(remote_neta_dir: Seq<char>, launcher: LauncherView) -> Seq<char> {
    search_path() + "nohup "@ + quoted_words(
        launcher_words(remote_neta_dir, launcher, seq!["node"@, "start"@]),
    ) + " >/dev/null 2>&1 </dev/null &"@
}

/// The command that starts a remote Node and leaves it running.
pub fn start_remote_command(remote: &RemoteNode, launcher: &Launcher) -> (command: String)
    ensures
        command@ == start_command(remote.remote_neta_dir@, launcher@),
{
    let mut subcommand: Vec<String> = Vec::new();
    subcommand.push("node".to_owned());
    subcommand.push("start".to_owned());
    assert(texts(subcommand@) =~= seq!["node"@, "start"@]);
    let mut command =
        "PATH=\"$HOME/.local/bin:$HOME/.bun/bin:/usr/local/bin:/opt/homebrew/bin:$PATH\"; export PATH; ".to_owned();
    command.append("nohup ");
    command.append(&launcher_line(remote, launcher, subcommand));
    command.append(" >/dev/null 2>&1 </dev/null &");
    command
}

/// The command that asks whether a remote Node runs.
pub open spec fn status_command(remote_neta_dir: Seq<char>, launcher: LauncherView) -> Seq<char> {
    search_path() + quoted_words(
        launcher_words(remote_neta_dir, launcher, seq!["node"@, "status"@, "--json"@]),
    )
}

/// The command that asks whether a remote Node runs.
pub fn remote_status_command(remote: &RemoteNode, launcher: &Launcher) -> (command: String)
    ensures
        command@ == status_command(remote.remote_neta_dir@, launcher@),
{
    let mut subcommand: Vec<String> = Vec::new();
    subcommand.push("node".to_owned());
    subcommand.push("status".to_owned());
    subcommand.push("--json".to_owned());
    assert(texts(subcommand@) =~= seq!["node"@, "status"@, "--json"@]);
    let mut command =
        "PATH=\"$HOME/.local/bin:$HOME/.bun/bin:/usr/local/bin:/opt/homebrew/bin:$PATH\"; export PATH; ".to_owned();
    command.append(&launcher_line(remote, launcher, subcommand));
    command
}

/// The command that looks for Neta on a remote machine and prints where it is, behind a marker.
pub open spec fn discovery_command() -> Seq<char> {
    "for neta in \"$HOME/.local/bin/neta\" \"$HOME/.bun/bin/neta\" /usr/local/bin/neta /opt/homebrew/bin/neta; do [ -f \"$neta\" ] && [ -x \"$neta\" ] && { printf '%s%s\\n' '__NETA_CLI__' \"$neta\"; exit 0; }; done; neta=$(command -v neta); [ -n \"$neta\" ] && [ -f \"$neta\" ] && [ -x \"$neta\" ] && printf '%s%s\\n' '__NETA_CLI__' \"$neta\""@
}

/// The command that looks for Neta on a remote machine.
pub fn discover_remote_command() -> (command: String)
    ensures
        command@ == discovery_command(),
{
    "for neta in \"$HOME/.local/bin/neta\" \"$HOME/.bun/bin/neta\" /usr/local/bin/neta /opt/homebrew/bin/neta; do [ -f \"$neta\" ] && [ -x \"$neta\" ] && { printf '%s%s\\n' '__NETA_CLI__' \"$neta\"; exit 0; }; done; neta=$(command -v neta); [ -n \"$neta\" ] && [ -f \"$neta\" ] && [ -x \"$neta\" ] && printf '%s%s\\n' '__NETA_CLI__' \"$neta\"".to_owned()
}

/// The rest of the first line that starts with a marker.
pub open spec fn marked_line(list: Seq<Seq<char>>, marker: Seq<char>) -> Option<Seq<char>>
    decreases list.len(),
{
    if list.len() == 0 {
        None
    } else {
        match without_prefix(list[0], marker) {
            Some(rest) => Some(rest),
            None => marked_line(list.drop_first(), marker),
        }
    }
}

fn find_marked(text: &str, marker: &str) -> (rest: Option<String>)
    ensures
        optional(rest) == marked_line(lines_of(text@), marker@),
{
    let list = lines(text);
    let ghost all = lines_of(text@);
    let mut at: usize = 0;
    assert(all.skip(0) =~= all);
    while at < list.len()
        invariant
            at <= list@.len(),
            all == texts(list@),
            all == lines_of(text@),
            marked_line(all.skip(at as int), marker@) == marked_line(all, marker@),
        decreases list@.len() - at,
    {
        let ghost rest = all.skip(at as int);
        assert(rest[0] == list@[at as int]@);
        assert(rest.drop_first() =~= all.skip(at + 1));
        if let Some(found) = strip_prefix(&list[at], marker) {
            return Some(found);
        }
        at = at + 1;
    }
    assert(all.skip(at as int) =~= seq![]);
    None
}

/// The path that the discovery printed, where it succeeded and printed an absolute one.
pub open spec fn discovered(success: bool, stdout: Seq<u8>) -> Option<Seq<char>> {
    if success {
        match marked_line(lines_of(lossy_text(stdout)), "__NETA_CLI__"@) {
            Some(path) => if absolute(path) {
                Some(path)
            } else {
                None
            },
            None => None,
        }
    } else {
        None
    }
}

/// Reads the answer of the discovery.
pub fn discovered_launcher(success: bool, stdout: &[u8]) -> (launcher: Result<
    Launcher,
    ClientError,
>)
    ensures
        match (discovered(success, stdout@), launcher) {
            (Some(path), Ok(launcher)) => launcher@ == (LauncherView {
                executable: path,
                args: seq![],
            }),
            (None, Err(error)) => error@ == Failure::Unavailable(
                "Neta is not installed on the remote machine"@,
            ),
            _ => false,
        },
{
    if success {
        let text = lossy(stdout);
        if let Some(path) = find_marked(&text, "__NETA_CLI__") {
            if is_absolute(&path) {
                let launcher = Launcher { executable: path, args: Vec::new() };
                assert(texts(launcher.args@) =~= seq![]);
                return Ok(launcher);
            }
        }
    }
    Err(ClientError::Unavailable("Neta is not installed on the remote machine".to_owned()))
}

/// What a descriptor command that has ended means.
#[derive(Debug, PartialEq, Eq, Structural)]
pub enum DescriptorReply {
    /// It printed a descriptor.
    Printed,
    /// There is none.
    Absent,
    /// The machine could not be asked.
    Failed,
}

/// What a descriptor command means that ended well, or with a code, or without one.
pub open spec fn reply_of(success: bool, code: Option<i32>) -> DescriptorReply {
    if success {
        DescriptorReply::Printed
    } else if code == Some(1i32) {
        DescriptorReply::Absent
    } else {
        DescriptorReply::Failed
    }
}

/// Tells an absent descriptor from a machine that could not be asked.
pub fn descriptor_reply(success: bool, code: Option<i32>) -> (reply: DescriptorReply)
    ensures
        reply == reply_of(success, code),
{
    if success {
        DescriptorReply::Printed
    } else {
        match code {
            Some(code) => if code == 1 {
                DescriptorReply::Absent
            } else {
                DescriptorReply::Failed
            },
            None => DescriptorReply::Failed,
        }
    }
}

/// The option that names a configuration file for `ssh`.
pub open spec fn config_words(config: Option<Seq<char>>) -> Seq<Seq<char>> {
    match config {
        Some(config) => seq!["-F"@, config],
        None => seq![],
    }
}

/// The arguments of an `ssh` that runs one command.
pub open spec fn ssh_words(config: Option<Seq<char>>, destination: Seq<char>, command: Seq<char>) -> Seq<
    Seq<char>,
> {
    config_words(config) + seq!["-o"@, "ForwardAgent=no"@, "--"@, destination, command]
}

fn config_arguments(config: &Option<String>) -> (arguments: Vec<String>)
    ensures
        texts(arguments@) == config_words(optional(*config)),
{
    let mut arguments: Vec<String> = Vec::new();
    if let Some(config) = config {
        arguments.push("-F".to_owned());
        arguments.push(config.clone());
    }
    assert(texts(arguments@) =~= config_words(optional(*config)));
    arguments
}

/// The arguments of an `ssh` that runs one command.
pub fn ssh_arguments(remote: &RemoteNode, command: &str) -> (arguments: Vec<String>)
    ensures
        texts(arguments@) == ssh_words(
            optional(remote.ssh_config),
            remote.ssh_destination@,
            command@,
        ),
{
    let mut arguments = config_arguments(&remote.ssh_config);
    arguments.push("-o".to_owned());
    arguments.push("ForwardAgent=no".to_owned());
    arguments.push("--".to_owned());
    arguments.push(remote.ssh_destination.clone());
    arguments.push(command.to_owned());
    assert(texts(arguments@) =~= ssh_words(
        optional(remote.ssh_config),
        remote.ssh_destination@,
        command@,
    ));
    arguments
}

/// The arguments of an `ssh` that forwards a local socket to one on the remote machine.
pub open spec fn forward_words(
    config: Option<Seq<char>>,
    destination: Seq<char>,
    local_socket: Seq<char>,
    remote_socket: Seq<char>,
) -> Seq<Seq<char>> {
    config_words(config) + seq![
        "-o"@,
        "ForwardAgent=no"@,
        "-o"@,
        "ExitOnForwardFailure=yes"@,
        "-N"@,
        "-L"@,
        local_socket + ":"@ + remote_socket,
        "--"@,
        destination,
    ]
}

/// The arguments of an `ssh` that forwards a local socket to one on the remote machine.
pub fn forward_arguments(remote: &RemoteNode, local_socket: &str, remote_socket: &str) -> (arguments:
    Vec<String>)
    ensures
        texts(arguments@) == forward_words(
            optional(remote.ssh_config),
            remote.ssh_destination@,
            local_socket@,
            remote_socket@,
        ),
{
    let mut arguments = config_arguments(&remote.ssh_config);
    arguments.push("-o".to_owned());
    arguments.push("ForwardAgent=no".to_owned());
    arguments.push("-o".to_owned());
    arguments.push("ExitOnForwardFailure=yes".to_owned());
    arguments.push("-N".to_owned());
    arguments.push("-L".to_owned());
    arguments.push(concat3(local_socket, ":", remote_socket));
    arguments.push("--".to_owned());
    arguments.push(remote.ssh_destination.clone());
    assert(texts(arguments@) =~= forward_words(
        optional(remote.ssh_config),
        remote.ssh_destination@,
        local_socket@,
        remote_socket@,
    ));
    arguments
}

/// A configuration file that was named.
pub open spec fn named_config(config: Option<Seq<char>>) -> Option<Seq<char>> {
    match config {
        Some(config) => if blank(config) {
            None
        } else {
            Some(config)
        },
        None => None,
    }
}

/// The arguments of an `ssh` that prints the home directory behind a marker.
pub open spec fn home_words(config: Option<Seq<char>>, destination: Seq<char>) -> Seq<Seq<char>> {
    config_words(named_config(config)) + seq![
        "-o"@,
        "ForwardAgent=no"@,
        "-o"@,
        "ConnectTimeout=5"@,
        "--"@,
        destination,
        "printf '%s%s\\n' __NETA_HOME__ \"$HOME\""@,
    ]
}

/// The arguments of an `ssh` that asks for the home directory, for a destination that it cannot
/// take for an option.
pub fn home_arguments(destination: &str, ssh_config: Option<&str>) -> (arguments: Result<
    Vec<String>,
    String,
>)
    ensures
        match arguments {
            Ok(arguments) => {
                &&& ssh_destination(destination@)
                &&& texts(arguments@) == home_words(
                    match ssh_config {
                        Some(config) => Some(config@),
                        None => None,
                    },
                    destination@,
                )
            },
            Err(error) => !ssh_destination(destination@) && error@
                == "SSH destination is invalid"@,
        },
{
    if !is_ssh_destination(destination) {
        return Err("SSH destination is invalid".to_owned());
    }
    let config: Option<String> = match ssh_config {
        Some(config) => if is_blank(config) {
            None
        } else {
            Some(config.to_owned())
        },
        None => None,
    };
    let mut arguments = config_arguments(&config);
    arguments.push("-o".to_owned());
    arguments.push("ForwardAgent=no".to_owned());
    arguments.push("-o".to_owned());
    arguments.push("ConnectTimeout=5".to_owned());
    arguments.push("--".to_owned());
    arguments.push(destination.to_owned());
    arguments.push("printf '%s%s\\n' __NETA_HOME__ \"$HOME\"".to_owned());
    assert(texts(arguments@) =~= home_words(
        match ssh_config {
            Some(config) => Some(config@),
            None => None,
        },
        destination@,
    ));
    Ok(arguments)
}

/// The home directory that was printed, or why there is none.
pub open spec fn home_of(success: bool, stdout: Seq<u8>, stderr: Seq<u8>) -> Result<
    Seq<char>,
    Seq<char>,
> {
    if !success {
        Err(trimmed(lossy_text(stderr)))
    } else {
        match marked_line(lines_of(lossy_text(stdout)), "__NETA_HOME__"@) {
            Some(rest) => if trimmed(rest).len() == 0 {
                Err("SSH returned no home directory"@)
            } else if absolute(trimmed(rest)) {
                Ok(trimmed(rest))
            } else {
                Err("SSH returned a non-absolute home directory"@)
            },
            None => Err("SSH returned no home directory"@),
        }
    }
}

/// Reads the answer to the question for the home directory.
pub fn discovered_home(success: bool, stdout: &[u8], stderr: &[u8]) -> (home: Result<
    String,
    String,
>)
    ensures
        match (home_of(success, stdout@, stderr@), home) {
            (Ok(path), Ok(home)) => home@ == path,
            (Err(words), Err(error)) => error@ == words,
            _ => false,
        },
{
    if !success {
        return Err(trim(&lossy(stderr)));
    }
    let text = lossy(stdout);
    match find_marked(&text, "__NETA_HOME__") {
        Some(rest) => {
            let home = trim(&rest);
            if home.as_str().is_empty() {
                Err("SSH returned no home directory".to_owned())
            } else if is_absolute(&home) {
                Ok(home)
            } else {
                Err("SSH returned a non-absolute home directory".to_owned())
            }
        },
        None => Err("SSH returned no home directory".to_owned()),
    }
}

/// In the arguments of every `ssh`, two dashes stand before the destination, so that nothing in it
/// can be an option.
pub proof fn destinations_follow_the_dashes(
    config: Option<Seq<char>>,
    destination: Seq<char>,
    command: Seq<char>,
    local_socket: Seq<char>,
    remote_socket: Seq<char>,
)
    ensures
        ({
            let run = ssh_words(config, destination, command);
            let forward = forward_words(config, destination, local_socket, remote_socket);
            let home = home_words(config, destination);
            &&& run[run.len() - 3] == "--"@
            &&& run[run.len() - 2] == destination
            &&& forward[forward.len() - 2] == "--"@
            &&& forward.last() == destination
            &&& home[home.len() - 3] == "--"@
            &&& home[home.len() - 2] == destination
        }),
{
}

/// How a client finds a Node and proves that it may talk to it.
#[derive(Debug)]
pub struct Descriptor {
    pub socket: String,
    pub token: String,
    pub protocol_version: u64,
    pub pid: u32,
    pub started_at: String,
}

impl Descriptor {
    /// The descriptor of a Node whose socket is reached through another.
    pub fn forwarded(&self, socket: &str) -> (descriptor: Descriptor)
        ensures
            descriptor.socket@ == socket@,
            descriptor == (Descriptor { socket: descriptor.socket, ..*self }),
    {
        Descriptor {
            socket: socket.to_owned(),
            token: self.token.clone(),
            protocol_version: self.protocol_version,
            pid: self.pid,
            started_at: self.started_at.clone(),
        }
    }
}

} // verus!
