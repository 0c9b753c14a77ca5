use vstd::prelude::*;
use crate::command::{parse_command, Command};
use crate::error::LaunchError;
use crate::mount::MountPoint;

verus! {

/// Where the isolation sequence stands: the step whose outcome it awaits.
#[derive(Debug, Clone, Copy, PartialEq, Eq, Structural)]
pub enum Stage {
    ResolveRoot,
    PrivateMounts,
    ApplyLimit,
    SetHostname,
    ChangeRoot,
    ChangeDir,
    MountProc,
    RunCommand,
    Unmounting,
    Ended,
}

/// How the isolated process ends once `/proc` has been released.
#[derive(Debug, Clone, Copy, PartialEq, Eq, Structural)]
pub enum Ending {
    Exit(i32),
    Abort(LaunchError),
}

/// The control state of the sequence: its stage, whether `/proc` is mounted
/// under the new root, and how the process ends after the unmount.
#[derive(Debug, Clone, Copy, PartialEq, Eq, Structural)]
pub struct Phase {
    pub stage: Stage,
    pub proc_mounted: bool,
    pub ending: Ending,
}

/// What the caller reports after carrying out an action.
pub enum Event {
    /// The action was carried out.
    Succeeded,
    /// The action failed.
    Failed,
    /// The container image path was resolved.
    RootResolved(String),
    /// The command ran and ended, with its exit code when it has one.
    CommandEnded(Option<i32>),
}

/// What the caller is to do next.
pub enum Action {
    /// Resolve the container image path of the invoking user.
    ResolveRoot,
    /// Detach the mount table into a private mount namespace.
    PrivateMounts,
    /// Place this process in the process-count-limited control group.
    ApplyLimit,
    SetHostname(String),
    ChangeRoot(String),
    ChangeDir(String),
    Mount(MountPoint),
    /// Run the command with an empty environment in `/` and wait for it.
    Run(Command),
    /// Unmount the target.
    Unmount(String),
    /// End this process with the exit code.
    Exit(i32),
    /// End this process abnormally, after a diagnostic.
    Abort(LaunchError),
}

/// The shape of an action, without its data.
#[derive(Debug, Clone, Copy, PartialEq, Eq, Structural)]
pub enum Directive {
    ResolveRoot,
    PrivateMounts,
    ApplyLimit,
    SetHostname,
    ChangeRoot,
    ChangeDir,
    Mount,
    Run,
    Unmount,
    Finish(Ending),
}

pub open spec fn directive(a: Action) -> Directive {
    match a {
        Action::ResolveRoot => Directive::ResolveRoot,
        Action::PrivateMounts => Directive::PrivateMounts,
        Action::ApplyLimit => Directive::ApplyLimit,
        Action::SetHostname(_) => Directive::SetHostname,
        Action::ChangeRoot(_) => Directive::ChangeRoot,
        Action::ChangeDir(_) => Directive::ChangeDir,
        Action::Mount(_) => Directive::Mount,
        Action::Run(_) => Directive::Run,
        Action::Unmount(_) => Directive::Unmount,
        Action::Exit(c) => Directive::Finish(Ending::Exit(c)),
        Action::Abort(e) => Directive::Finish(Ending::Abort(e)),
    }
}

/// The step before the `/proc` mount is in scope (steps one to six).
pub open spec fn before_mount(s: Stage) -> bool {
    match s {
        Stage::ResolveRoot | Stage::PrivateMounts | Stage::ApplyLimit | Stage::SetHostname
        | Stage::ChangeRoot | Stage::ChangeDir | Stage::MountProc => true,
        _ => false,
    }
}

/// The event reports that the awaited step succeeded.
pub open spec fn succeeded(s: Stage, e: Event) -> bool {
    match s {
        Stage::ResolveRoot => e is RootResolved,
        Stage::RunCommand => e is CommandEnded,
        _ => e is Succeeded,
    }
}

/// The error with which a failed step before the mount ends the process.
pub open spec fn step_error(s: Stage) -> LaunchError {
    match s {
        Stage::ResolveRoot => LaunchError::Identity,
        Stage::ApplyLimit => LaunchError::ResourceSetup,
        Stage::MountProc => LaunchError::Mount,
        _ => LaunchError::Isolation,
    }
}

/// The exit code that a finished command hands on: its own, or -1 when it
/// has none.
pub open spec fn exit_code_of(code: Option<i32>) -> i32 {
    match code {
        Some(c) => c,
        None => -1i32,
    }
}

pub open spec fn at(stage: Stage, p: Phase) -> Phase {
    Phase { stage, ..p }
}

/// One transition of the sequence: from the awaited step and the reported
/// event to the next phase and what to do. `runnable` says whether the
/// command line names a program.
pub open spec fn next(p: Phase, e: Event, runnable: bool) -> (Phase, Directive) {
    if p.stage is Ended {
        (p, Directive::Finish(p.ending))
    } else if p.stage is Unmounting {
        if e is Succeeded {
            (Phase { stage: Stage::Ended, proc_mounted: false, ..p }, Directive::Finish(p.ending))
        } else {
            let ending = Ending::Abort(LaunchError::Mount);
            (Phase { stage: Stage::Ended, proc_mounted: true, ending }, Directive::Finish(ending))
        }
    } else if p.stage is RunCommand {
        let ending = match e {
            Event::CommandEnded(code) => Ending::Exit(exit_code_of(code)),
            _ => Ending::Abort(LaunchError::Exec),
        };
        (Phase { stage: Stage::Unmounting, proc_mounted: true, ending }, Directive::Unmount)
    } else if !succeeded(p.stage, e) {
        let ending = Ending::Abort(step_error(p.stage));
        (Phase { stage: Stage::Ended, proc_mounted: false, ending }, Directive::Finish(ending))
    } else {
        match p.stage {
            Stage::ResolveRoot => (at(Stage::PrivateMounts, p), Directive::PrivateMounts),
            Stage::PrivateMounts => (at(Stage::ApplyLimit, p), Directive::ApplyLimit),
            Stage::ApplyLimit => (at(Stage::SetHostname, p), Directive::SetHostname),
            Stage::SetHostname => (at(Stage::ChangeRoot, p), Directive::ChangeRoot),
            Stage::ChangeRoot => (at(Stage::ChangeDir, p), Directive::ChangeDir),
            Stage::ChangeDir => (at(Stage::MountProc, p), Directive::Mount),
            _ => if runnable {
                (Phase { stage: Stage::RunCommand, proc_mounted: true, ..p }, Directive::Run)
            } else {
                let ending = Ending::Abort(LaunchError::Exec);
                (Phase { stage: Stage::Unmounting, proc_mounted: true, ending }, Directive::Unmount)
            },
        }
    }
}

/// The isolation sequence of the container's first process: resolve the
/// image, detach the mount table, apply the process limit, set the hostname,
/// change root and directory, mount `/proc`, run the command, release `/proc`.
pub struct Launcher {
    pub phase: Phase,
    pub hostname: String,
    pub proc_fs: MountPoint,
    pub rootfs: String,
    pub command_line: Vec<String>,
}

impl Launcher {
    /// The sequence is consistent: `/proc` is mounted exactly while the
    /// command runs or is being released, and never before the mount step.
    pub open spec fn wf(self) -> bool {
        &&& before_mount(self.phase.stage) ==> !self.phase.proc_mounted
        &&& (self.phase.stage is RunCommand || self.phase.stage is Unmounting) ==> self.phase.proc_mounted
        &&& self.proc_fs.target@ == "/proc"@
    }

    pub open spec fn runnable(self) -> bool {
        self.command_line@.len() >= 2
    }

    /// The data of `a` is this launcher's: its hostname, root, `/proc`
    /// mount and command.
    pub open spec fn carries(self, a: Action) -> bool {
        match a {
            Action::SetHostname(h) => h@ == self.hostname@,
            Action::ChangeRoot(r) => r@ == self.rootfs@,
            Action::ChangeDir(d) => d@ == "/"@,
            Action::Mount(m) => m.source@ == self.proc_fs.source@ && m.target@ == self.proc_fs.target@
                && m.fstype@ == self.proc_fs.fstype@ && m.flags == self.proc_fs.flags,
            Action::Run(c) => c.program == self.command_line@[1]
                && c.args@ == self.command_line@.subrange(2, self.command_line@.len() as int),
            Action::Unmount(t) => t@ == self.proc_fs.target@,
            _ => true,
        }
    }

    /// Starts the sequence for a command line (the launcher's name, the
    /// program, its arguments) in a container named `hostname`.
    pub fn new(command_line: Vec<String>, hostname: &str) -> (r: (Launcher, Action))
        ensures
            r.0.wf(),
            r.0.phase == (Phase { stage: Stage::ResolveRoot, proc_mounted: false, ending: Ending::Exit(0) }),
            r.0.hostname@ == hostname@,
            r.0.command_line == command_line,
            r.0.proc_fs.source@ == "/proc"@ && r.0.proc_fs.fstype@ == "proc"@ && r.0.proc_fs.flags == 0,
            r.1 is ResolveRoot,
    {
        let launcher = Launcher {
            phase: Phase { stage: Stage::ResolveRoot, proc_mounted: false, ending: Ending::Exit(0) },
            hostname: hostname.to_owned(),
            proc_fs: MountPoint::new("/proc", "/proc", "proc", 0),
            rootfs: String::new(),
            command_line,
        };
        (launcher, Action::ResolveRoot)
    }

    fn mount_action(&self) -> (a: Action)
        ensures
            a is Mount,
            self.carries(a),
    {
        Action::Mount(MountPoint {
            source: self.proc_fs.source.clone(),
            target: self.proc_fs.target.clone(),
            fstype: self.proc_fs.fstype.clone(),
            flags: self.proc_fs.flags,
        })
    }

    fn finish(ending: Ending) -> (a: Action)
        ensures
            directive(a) == Directive::Finish(ending),
    {
        match ending {
            Ending::Exit(c) => Action::Exit(c),
            Ending::Abort(e) => Action::Abort(e),
        }
    }

    /// Advances the sequence by the outcome of the last action.
    pub fn step(self, e: Event) -> (r: (Launcher, Action))
        requires
            self.wf(),
        ensures
            r.0.wf(),
            (r.0.phase, directive(r.1)) == next(self.phase, e, self.runnable()),
            self.carries(r.1),
            r.0.hostname == self.hostname,
            r.0.proc_fs == self.proc_fs,
            r.0.rootfs@ == (match (self.phase.stage, e) {
                (Stage::ResolveRoot, Event::RootResolved(p)) => p@,
                _ => self.rootfs@,
            }),
            !(r.1 is Run) ==> r.0.command_line == self.command_line,
    {
        let runnable = self.command_line.len() >= 2;
        let p = self.phase;
        let Launcher { phase: _, hostname, proc_fs, rootfs, command_line } = self;
        match p.stage {
            Stage::Ended => {
                let a = Launcher::finish(p.ending);
                (Launcher { phase: p, hostname, proc_fs, rootfs, command_line }, a)
            },
            Stage::Unmounting => {
                let phase = match e {
                    Event::Succeeded => Phase { stage: Stage::Ended, proc_mounted: false, ending: p.ending },
                    _ => Phase { stage: Stage::Ended, proc_mounted: true, ending: Ending::Abort(LaunchError::Mount) },
                };
                let a = Launcher::finish(phase.ending);
                (Launcher { phase, hostname, proc_fs, rootfs, command_line }, a)
            },
            Stage::RunCommand => {
                let ending = match e {
                    Event::CommandEnded(code) => Ending::Exit(match code {
                        Some(c) => c,
                        None => -1,
                    }),
                    _ => Ending::Abort(LaunchError::Exec),
                };
                let a = Action::Unmount(proc_fs.target.clone());
                let phase = Phase { stage: Stage::Unmounting, proc_mounted: true, ending };
                (Launcher { phase, hostname, proc_fs, rootfs, command_line }, a)
            },
            Stage::ResolveRoot => match e {
                Event::RootResolved(root) => {
                    let phase = Phase { stage: Stage::PrivateMounts, ..p };
                    (Launcher { phase, hostname, proc_fs, rootfs: root, command_line }, Action::PrivateMounts)
                },
                _ => {
                    let phase = Phase { stage: Stage::Ended, proc_mounted: false, ending: Ending::Abort(LaunchError::Identity) };
                    (Launcher { phase, hostname, proc_fs, rootfs, command_line }, Action::Abort(LaunchError::Identity))
                },
            },
            _ => {
                let ok = match e {
                    Event::Succeeded => true,
                    _ => false,
                };
                let me = Launcher { phase: p, hostname, proc_fs, rootfs, command_line };
                if !ok {
                    let err = match p.stage {
                        Stage::ApplyLimit => LaunchError::ResourceSetup,
                        Stage::MountProc => LaunchError::Mount,
                        _ => LaunchError::Isolation,
                    };
                    let phase = Phase { stage: Stage::Ended, proc_mounted: false, ending: Ending::Abort(err) };
                    (Launcher { phase, ..me }, Action::Abort(err))
                } else {
                    match p.stage {
                        Stage::PrivateMounts => (Launcher { phase: Phase { stage: Stage::ApplyLimit, ..p }, ..me }, Action::ApplyLimit),
                        Stage::ApplyLimit => {
                            let h = me.hostname.clone();
                            (Launcher { phase: Phase { stage: Stage::SetHostname, ..p }, ..me }, Action::SetHostname(h))
                        },
                        Stage::SetHostname => {
                            let r = me.rootfs.clone();
                            (Launcher { phase: Phase { stage: Stage::ChangeRoot, ..p }, ..me }, Action::ChangeRoot(r))
                        },
                        Stage::ChangeRoot => {
                            let d = "/".to_owned();
                            (Launcher { phase: Phase { stage: Stage::ChangeDir, ..p }, ..me }, Action::ChangeDir(d))
                        },
                        Stage::ChangeDir => {
                            let a = me.mount_action();
                            (Launcher { phase: Phase { stage: Stage::MountProc, ..p }, ..me }, a)
                        },
                        _ => {
                            let Launcher { phase: _, hostname, proc_fs, rootfs, command_line } = me;
                            if runnable {
                                let cmd = parse_command(command_line);
                                let phase = Phase { stage: Stage::RunCommand, proc_mounted: true, ending: p.ending };
                                (Launcher { phase, hostname, proc_fs, rootfs, command_line: Vec::new() }, Action::Run(cmd.unwrap()))
                            } else {
                                let a = Action::Unmount(proc_fs.target.clone());
                                let phase = Phase { stage: Stage::Unmounting, proc_mounted: true, ending: Ending::Abort(LaunchError::Exec) };
                                (Launcher { phase, hostname, proc_fs, rootfs, command_line }, a)
                            }
                        },
                    }
                }
            },
        }
    }
}

} // verus!
