//! A minimal container launcher: the decisions that isolate one command in
//! fresh UTS, PID and mount namespaces, limit it with a control group, move
//! it into its own root filesystem and report how it ended.
//!
//! Every operating-system effect (clone, mount, chroot, file writes, waiting)
//! is carried out by the caller; this library decides what to do next and
//! proves that the decisions keep the isolation boundary consistent.

pub mod command;
pub mod error;
pub mod identity;
pub mod launch;
pub mod laws;
pub mod limits;
pub mod mount;
pub mod orchestrate;
pub mod settings;
pub mod stack;
mod text;

pub use command::{parse_command, Command};
pub use error::LaunchError;
pub use identity::{choose_identity, parse_uid, rootfs_for_home, rootfs_path, ROOTFS_DIR};
pub use launch::{Action, Directive, Ending, Event, Launcher, Phase, Stage};
pub use limits::{decimal_bytes, limit_records, LimitRecord, OWNER_ONLY_MODE};
pub use mount::MountPoint;
pub use orchestrate::{exit_status, isolation_namespaces, launch_result, Namespaces, WaitReport};
pub use settings::Settings;
pub use stack::{stack_size, DEFAULT_STACK_SIZE};
