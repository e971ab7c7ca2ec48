use vstd::prelude::*;

use crate::pattern::{all_valid, any_matches, first_invalid, glob_valid, matches_any};
use crate::process::Process;

verus! {

/// A named command under supervision, with the glob patterns whose matching
/// file changes restart it, and the process group it runs in, if any.
#[derive(Debug)]
pub struct Service {
    pub name: String,
    pub cmd: String,
    pub proc: Option<Process>,
    pub watched_paths: Vec<String>,
}

/// Why a service cannot do what was asked.
#[derive(Clone, Debug, PartialEq, Eq)]
pub enum ServiceError {
    /// The named service already has a running process.
    AlreadyRunning(String),
}

/// Why a service's configuration is refused.
#[derive(Clone, Debug, PartialEq, Eq)]
pub enum ConfigError {
    /// A watch pattern of the named service is not a well-formed glob.
    InvalidPattern { service: String, pattern: String },
}

/// The command line that runs `cmd` under the shell: `sh -c <cmd>`.
pub open spec fn shell_argv(cmd: Seq<char>) -> Seq<Seq<char>> {
    seq!["/bin/sh"@, "-c"@, cmd]
}

impl Service {
    /// Whether a change of `path` (relative to the watch root) concerns the
    /// service.
    pub open spec fn watches(&self, path: Seq<char>) -> bool {
        matches_any(self.watched_paths@, path)
    }

    /// Whether a process group is attached.
    pub open spec fn running(&self) -> bool {
        self.proc is Some
    }

    /// A service that is not running.
    pub fn new(name: String, cmd: String, watched_paths: Vec<String>) -> (r: Service)
        ensures
            r.name == name,
            r.cmd == cmd,
            r.watched_paths == watched_paths,
            r.proc is None,
    {
        Service { name, cmd, proc: None, watched_paths }
    }

    /// A service from its configuration entry: refused when one of the watch
    /// patterns is not a well-formed glob (the first such pattern is named);
    /// no patterns at all means that file changes never concern it.
    pub fn from_config(name: String, cmd: String, watch: Option<Vec<String>>) -> (r: Result<
        Service,
        ConfigError,
    >)
        ensures
            match r {
                Ok(s) => {
                    &&& s.name == name
                    &&& s.cmd == cmd
                    &&& s.proc is None
                    &&& s.watched_paths@ == (match watch {
                        Some(w) => w@,
                        None => Seq::<String>::empty(),
                    })
                    &&& all_valid(s.watched_paths@)
                },
                Err(ConfigError::InvalidPattern { service, pattern }) => {
                    &&& service == name
                    &&& watch matches Some(w) && exists|k: int|
                        0 <= k < w@.len() && w@[k] == pattern && !glob_valid(pattern@) && all_valid(
                            w@.take(k),
                        )
                },
            },
            r is Err <==> (watch matches Some(w) && !all_valid(w@)),
    {
        let patterns = match watch {
            Some(w) => w,
            None => Vec::new(),
        };
        match first_invalid(&patterns) {
            Some(k) => {
                let pattern = patterns[k].clone();
                Err(ConfigError::InvalidPattern { service: name, pattern })
            },
            None => {
                proof {
                    assert(all_valid(Seq::<String>::empty()));
                }
                Ok(Service::new(name, cmd, patterns))
            },
        }
    }

    /// Whether the service is up, given what the liveness probe of its
    /// leader answered: never when nothing is attached.
    pub fn is_up(&self, leader_alive: bool) -> (r: bool)
        ensures
            r == (self.proc is Some && leader_alive),
    {
        match self.proc {
            None => false,
            Some(_) => leader_alive,
        }
    }

    /// Whether a change of `path` (relative to the watch root) concerns the
    /// service: it matches one of the watch patterns.
    pub fn matches_path(&self, path: &str) -> (r: bool)
        ensures
            r == self.watches(path@),
    {
        any_matches(&self.watched_paths, path)
    }

    /// The command line to launch for starting the service, `sh -c <cmd>`;
    /// refused while a process is attached.
    pub fn start(&self) -> (r: Result<Vec<String>, ServiceError>)
        ensures
            self.proc is Some <==> r is Err,
            r matches Err(e) ==> e == ServiceError::AlreadyRunning(self.name),
            r matches Ok(argv) ==> argv@.map_values(|a: String| a@) == shell_argv(self.cmd@),
    {
        if self.proc.is_some() {
            return Err(ServiceError::AlreadyRunning(self.name.clone()));
        }
        let mut argv: Vec<String> = Vec::new();
        argv.push("/bin/sh".to_owned());
        argv.push("-c".to_owned());
        argv.push(self.cmd.clone());
        assert(argv@.map_values(|a: String| a@) =~= shell_argv(self.cmd@));
        Ok(argv)
    }

    /// Attaches the process group that was launched for the service.
    pub fn started(&mut self, process: Process)
        requires
            old(self).proc is None,
        ensures
            final(self).proc == Some(process),
            final(self).name == old(self).name,
            final(self).cmd == old(self).cmd,
            final(self).watched_paths == old(self).watched_paths,
    {
        self.proc = Some(process);
    }

    /// The process group that stopping the service has to terminate; nothing
    /// when the service is not running.
    pub fn stop(&self) -> (r: Option<Process>)
        ensures
            r == self.proc,
    {
        self.proc
    }

    /// Detaches the process group once it has been stopped.
    pub fn stopped(&mut self)
        ensures
            final(self).proc is None,
            final(self).name == old(self).name,
            final(self).cmd == old(self).cmd,
            final(self).watched_paths == old(self).watched_paths,
    {
        self.proc = None;
    }
}

} // verus!
