//! The specification record: the validated description of the sandbox that
//! every stage consumes read-only. It is constructed once from external input
//! at process start and never mutated afterwards; the library performs no
//! further validation of it.

use vstd::prelude::*;
use crate::paths::absolute_path;

verus! {

/// The numeric identity the target command runs as inside the sandbox.
#[derive(Clone, Copy, Debug, PartialEq, Eq, Structural)]
pub struct User {
    pub uid: u32,
    pub gid: u32,
}

/// One extra bind mount: the host path `source` appears at the
/// rootfs-relative absolute path `destination`.
#[derive(Clone, Debug, PartialEq, Eq)]
pub struct BindMount {
    pub destination: String,
    pub source: String,
}

/// The command line to run; element 0 is the executable, resolved via the
/// sandbox's `PATH`.
#[derive(Clone, Debug, PartialEq, Eq)]
pub struct Process {
    pub args: Vec<String>,
}

/// The specification record: rootfs path, target identity, command line and
/// extra bind mounts.
#[derive(Clone, Debug, PartialEq, Eq)]
pub struct Config {
    pub rootfs: String,
    pub user: User,
    pub process: Process,
    pub bind_mounts: Vec<BindMount>,
}

/// Well-formedness of the record, as the external validator hands it over:
/// the rootfs and every bind-mount path are absolute, and the command line is
/// non-empty.
pub open spec fn config_wf(cfg: &Config) -> bool {
    &&& absolute_path(cfg.rootfs@)
    &&& cfg.process.args.len() > 0
    &&& forall|k: int|
        0 <= k < cfg.bind_mounts@.len() ==> absolute_path(
            #[trigger] cfg.bind_mounts@[k].source@,
        )
    &&& forall|k: int|
        0 <= k < cfg.bind_mounts@.len() ==> absolute_path(
            #[trigger] cfg.bind_mounts@[k].destination@,
        )
}

} // verus!
