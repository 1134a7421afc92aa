//! How to reach the Node, as the environment says it.

use vstd::prelude::*;
use vstd::string::*;

use crate::error::{ClientError, Failure};
use crate::paths::{join, joined};
use crate::remote::{
    optional_launcher, ssh_destination, validate_ssh_destination, Launcher, LauncherView, RemoteNode,
    RemoteView,
};
use crate::text::{concat2, optional, same_text, texts};

verus! {

/// What the environment says. Absent variables are `None`.
pub struct Environment {
    pub neta_dir: Option<String>,
    pub home: Option<String>,
    pub node_executable: Option<String>,
    pub node_script: Option<String>,
    /// The script that is used where none is named.
    pub default_script: String,
    pub remote_destination: Option<String>,
    pub remote_neta_dir: Option<String>,
    pub remote_executable: Option<String>,
    pub remote_arguments: Option<String>,
    pub remote_ssh_executable: Option<String>,
    pub remote_ssh_config: Option<String>,
    pub remote_local_directory: Option<String>,
    /// The working directory, or why it cannot be read.
    pub current_directory: Result<String, String>,
    /// The paths among `candidate_files` at which files stand.
    pub files: Vec<String>,
}

/// How to reach the Node.
#[derive(Clone, Debug)]
pub struct ConnectOptions {
    pub neta_dir: String,
    pub launcher: Launcher,
    /// How long to try, in milliseconds.
    pub timeout: u64,
    pub remote: Option<RemoteNode>,
}

/// What connection options hold.
#[verifier::ext_equal]
pub struct OptionsView {
    pub neta_dir: Seq<char>,
    pub launcher: LauncherView,
    pub timeout: u64,
    pub remote: Option<RemoteView>,
}

impl View for ConnectOptions {
    type V = OptionsView;

    open spec fn view(&self) -> OptionsView {
        OptionsView {
            neta_dir: self.neta_dir@,
            launcher: self.launcher@,
            timeout: self.timeout,
            remote: match self.remote {
                Some(remote) => Some(remote@),
                None => None,
            },
        }
    }
}

/// The list of strings that a JSON text holds, or the words of the error.
pub uninterp spec fn json_arguments(raw: Seq<char>) -> Result<Seq<Seq<char>>, Seq<char>>;

/// `serde_json::from_str` into a list of strings: its result is a function of the text.
#[verifier::external_body]
fn read_arguments(raw: &str) -> (arguments: Result<Vec<String>, String>)
    ensures
        match (json_arguments(raw@), arguments) {
            (Ok(list), Ok(arguments)) => texts(arguments@) == list,
            (Err(words), Err(error)) => error@ == words,
            _ => false,
        },
{
    serde_json::from_str::<Vec<String>>(raw).map_err(|error| error.to_string())
}

/// A variable that is set to something.
pub open spec fn filled(variable: Option<String>) -> Option<Seq<char>> {
    match variable {
        Some(value) => if value@.len() > 0 {
            Some(value@)
        } else {
            None
        },
        None => None,
    }
}

fn fill(variable: &Option<String>) -> (value: Option<String>)
    ensures
        optional(value) == filled(*variable),
{
    match variable {
        Some(value) => if value.as_str().is_empty() {
            None
        } else {
            Some(value.clone())
        },
        None => None,
    }
}

/// The failure of a configuration.
pub open spec fn misconfigured<T>(words: Seq<char>) -> Result<T, Failure> {
    Err(Failure::Configuration(words))
}

impl Environment {
    /// The directory of the Node: the one that is named, else `.neta` in the home directory.
    pub open spec fn directory(self) -> Option<Seq<char>> {
        match (filled(self.neta_dir), filled(self.home)) {
            (Some(directory), _) => Some(directory),
            (None, Some(home)) => Some(joined(home, ".neta"@)),
            (None, None) => None,
        }
    }

    /// Whether a file stands at a path.
    pub open spec fn is_file(self, path: Seq<char>) -> bool {
        texts(self.files@).contains(path)
    }

    /// The program that runs the Node: the one that is named, else the Bun of the home directory.
    pub open spec fn executable(self) -> Option<Seq<char>> {
        match self.node_executable {
            Some(executable) => Some(executable@),
            None => match filled(self.home) {
                Some(home) => if self.is_file(joined(home, ".bun/bin/bun"@)) {
                    Some(joined(home, ".bun/bin/bun"@))
                } else {
                    None
                },
                None => None,
            },
        }
    }

    /// The script that the program runs.
    pub open spec fn script(self) -> Seq<char> {
        match self.node_script {
            Some(script) => script@,
            None => self.default_script@,
        }
    }

    /// The launcher on the remote machine, where one is named.
    pub open spec fn remote_launcher(self) -> Result<Option<LauncherView>, Failure> {
        match filled(self.remote_executable) {
            Some(executable) => match self.remote_arguments {
                Some(raw) => match json_arguments(raw@) {
                    Ok(args) => Ok(Some(LauncherView { executable, args })),
                    Err(words) => misconfigured("invalid NETA_REMOTE_NODE_ARGS_JSON: "@ + words),
                },
                None => Ok(Some(LauncherView { executable, args: seq![] })),
            },
            None => Ok(None),
        }
    }

    /// The remote Node, where a destination is named.
    pub open spec fn remote(self) -> Result<Option<RemoteView>, Failure> {
        match filled(self.remote_destination) {
            None => Ok(None),
            Some(destination) => if !ssh_destination(destination) {
                misconfigured(
                    "NETA_REMOTE_SSH_DESTINATION must be a non-option SSH destination"@,
                )
            } else {
                match (filled(self.remote_neta_dir), self.remote_launcher(), self.current_directory) {
                    (None, _, _) => misconfigured(
                        "NETA_REMOTE_NETA_DIR is required with NETA_REMOTE_SSH_DESTINATION"@,
                    ),
                    (Some(_), Err(failure), _) => Err(failure),
                    (Some(_), Ok(_), Err(error)) => misconfigured(
                        "read local working directory: "@ + error@,
                    ),
                    (Some(remote_neta_dir), Ok(remote_launcher), Ok(current)) => Ok(
                        Some(
                            RemoteView {
                                ssh_destination: destination,
                                ssh_executable: match filled(self.remote_ssh_executable) {
                                    Some(executable) => executable,
                                    None => "ssh"@,
                                },
                                ssh_config: filled(self.remote_ssh_config),
                                remote_neta_dir,
                                remote_launcher,
                                local_working_directory: match filled(self.remote_local_directory) {
                                    Some(directory) => directory,
                                    None => current@,
                                },
                            },
                        ),
                    ),
                }
            },
        }
    }

    /// The launcher on this machine. With a remote Node it is never used, so nothing is asked of
    /// it.
    pub open spec fn launcher(self, remote: bool) -> Result<LauncherView, Failure> {
        if remote {
            Ok(
                LauncherView {
                    executable: match self.executable() {
                        Some(executable) => executable,
                        None => "remote-only"@,
                    },
                    args: seq![],
                },
            )
        } else {
            match self.executable() {
                None => misconfigured(
                    "cannot locate Bun; set NETA_NODE_EXECUTABLE to the exact executable path"@,
                ),
                Some(executable) => if !self.is_file(executable) {
                    misconfigured("Node launcher executable does not exist: "@ + executable)
                } else if !self.is_file(self.script()) {
                    misconfigured("Neta service launcher does not exist: "@ + self.script())
                } else {
                    Ok(
                        LauncherView {
                            executable,
                            args: seq![self.script(), "node"@, "start"@],
                        },
                    )
                },
            }
        }
    }

    /// The options that the environment asks for, or what is wrong with it.
    pub open spec fn options(self) -> Result<OptionsView, Failure> {
        match (self.directory(), self.remote()) {
            (None, _) => misconfigured("HOME is unset and NETA_DIR was not provided"@),
            (Some(_), Err(failure)) => Err(failure),
            (Some(neta_dir), Ok(remote)) => match self.launcher(remote is Some) {
                Ok(launcher) => Ok(OptionsView { neta_dir, launcher, timeout: 5_000, remote }),
                Err(failure) => Err(failure),
            },
        }
    }

    /// The paths at which it matters whether files stand: the script, the program that is named,
    /// and the Bun of the home directory.
    pub open spec fn candidates(self) -> Seq<Seq<char>> {
        let named = match self.node_executable {
            Some(executable) => seq![executable@],
            None => seq![],
        };
        let bun = match filled(self.home) {
            Some(home) => seq![joined(home, ".bun/bin/bun"@)],
            None => seq![],
        };
        seq![self.script()] + named + bun
    }

    /// The paths at which it matters whether files stand.
    pub fn candidate_files(&self) -> (paths: Vec<String>)
        ensures
            texts(paths@) == self.candidates(),
    {
        let mut paths: Vec<String> = Vec::new();
        paths.push(self.script_path());
        if let Some(executable) = &self.node_executable {
            paths.push(executable.clone());
        }
        if let Some(home) = fill(&self.home) {
            paths.push(join(&home, ".bun/bin/bun"));
        }
        assert(texts(paths@) =~= self.candidates());
        paths
    }

    fn stands(&self, path: &str) -> (found: bool)
        ensures
            found == self.is_file(path@),
    {
        let mut at: usize = 0;
        while at < self.files.len()
            invariant
                at <= self.files@.len(),
                forall|i: int| 0 <= i < at ==> texts(self.files@)[i] != path@,
            decreases self.files@.len() - at,
        {
            if same_text(&self.files[at], path) {
                assert(texts(self.files@)[at as int] == path@);
                return true;
            }
            at = at + 1;
        }
        false
    }

    fn script_path(&self) -> (script: String)
        ensures
            script@ == self.script(),
    {
        match &self.node_script {
            Some(script) => script.clone(),
            None => self.default_script.clone(),
        }
    }

    fn executable_path(&self) -> (executable: Option<String>)
        ensures
            optional(executable) == self.executable(),
    {
        match &self.node_executable {
            Some(executable) => Some(executable.clone()),
            None => match fill(&self.home) {
                Some(home) => {
                    let candidate = join(&home, ".bun/bin/bun");
                    if self.stands(&candidate) {
                        Some(candidate)
                    } else {
                        None
                    }
                },
                None => None,
            },
        }
    }

    fn read_remote_launcher(&self) -> (launcher: Result<Option<Launcher>, ClientError>)
        ensures
            match (self.remote_launcher(), launcher) {
                (Ok(view), Ok(launcher)) => optional_launcher(launcher) == view,
                (Err(failure), Err(error)) => error@ == failure,
                _ => false,
            },
    {
        match fill(&self.remote_executable) {
            Some(executable) => {
                let args: Vec<String> = match &self.remote_arguments {
                    Some(raw) => match read_arguments(raw) {
                        Ok(args) => args,
                        Err(error) => return Err(
                            ClientError::Configuration(
                                concat2("invalid NETA_REMOTE_NODE_ARGS_JSON: ", &error),
                            ),
                        ),
                    },
                    None => {
                        let none: Vec<String> = Vec::new();
                        assert(texts(none@) =~= seq![]);
                        none
                    },
                };
                Ok(Some(Launcher { executable, args }))
            },
            None => Ok(None),
        }
    }

    fn read_remote(&self) -> (remote: Result<Option<RemoteNode>, ClientError>)
        ensures
            match (self.remote(), remote) {
                (Ok(None), Ok(remote)) => remote is None,
                (Ok(Some(view)), Ok(Some(remote))) => remote@ == view,
                (Err(failure), Err(error)) => error@ == failure,
                _ => false,
            },
    {
        let destination = match fill(&self.remote_destination) {
            Some(destination) => destination,
            None => return Ok(None),
        };
        if let Err(error) = validate_ssh_destination(&destination) {
            return Err(error);
        }
        let remote_neta_dir = match fill(&self.remote_neta_dir) {
            Some(directory) => directory,
            None => return Err(
                ClientError::Configuration(
                    "NETA_REMOTE_NETA_DIR is required with NETA_REMOTE_SSH_DESTINATION".to_owned(),
                ),
            ),
        };
        let remote_launcher = match self.read_remote_launcher() {
            Ok(launcher) => launcher,
            Err(error) => return Err(error),
        };
        let current = match &self.current_directory {
            Ok(directory) => directory.clone(),
            Err(error) => return Err(
                ClientError::Configuration(concat2("read local working directory: ", error)),
            ),
        };
        Ok(
            Some(
                RemoteNode {
                    ssh_destination: destination,
                    ssh_executable: match fill(&self.remote_ssh_executable) {
                        Some(executable) => executable,
                        None => "ssh".to_owned(),
                    },
                    ssh_config: fill(&self.remote_ssh_config),
                    remote_neta_dir,
                    remote_launcher,
                    local_working_directory: match fill(&self.remote_local_directory) {
                        Some(directory) => directory,
                        None => current,
                    },
                },
            ),
        )
    }
}

impl ConnectOptions {
    /// The options that the environment asks for.
    pub fn from_environment(environment: &Environment) -> (options: Result<
        ConnectOptions,
        ClientError,
    >)
        ensures
            match (environment.options(), options) {
                (Ok(view), Ok(options)) => options@ == view,
                (Err(failure), Err(error)) => error@ == failure,
                _ => false,
            },
    {
        let neta_dir = match fill(&environment.neta_dir) {
            Some(directory) => directory,
            None => match fill(&environment.home) {
                Some(home) => join(&home, ".neta"),
                None => return Err(
                    ClientError::Configuration(
                        "HOME is unset and NETA_DIR was not provided".to_owned(),
                    ),
                ),
            },
        };
        let executable = environment.executable_path();
        let remote = match environment.read_remote() {
            Ok(remote) => remote,
            Err(error) => return Err(error),
        };
        let mut args: Vec<String> = Vec::new();
        let executable = if remote.is_some() {
            match executable {
                Some(executable) => executable,
                None => "remote-only".to_owned(),
            }
        } else {
            let executable = match executable {
                Some(executable) => executable,
                None => return Err(
                    ClientError::Configuration(
                        "cannot locate Bun; set NETA_NODE_EXECUTABLE to the exact executable path".to_owned(),
                    ),
                ),
            };
            if !environment.stands(&executable) {
                return Err(
                    ClientError::Configuration(
                        concat2("Node launcher executable does not exist: ", &executable),
                    ),
                );
            }
            let script = environment.script_path();
            if !environment.stands(&script) {
                return Err(
                    ClientError::Configuration(
                        concat2("Neta service launcher does not exist: ", &script),
                    ),
                );
            }
            args.push(script);
            args.push("node".to_owned());
            args.push("start".to_owned());
            executable
        };
        assert(texts(args@) =~= if remote is Some {
            seq![]
        } else {
            seq![environment.script(), "node"@, "start"@]
        });
        Ok(
            ConnectOptions {
                neta_dir,
                launcher: Launcher { executable, args },
                timeout: 5_000,
                remote,
            },
        )
    }
}

} // verus!
