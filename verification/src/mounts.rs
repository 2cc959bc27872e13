//! The sandbox initializer's plan: the ordered mount and chroot steps that
//! turn `rootfs` into the read-only, mount-isolated view the target command
//! runs in. The order is load-bearing: the mount namespace is unshared before
//! any mount; the rootfs is bind-mounted onto itself and then remounted
//! read-only (a single bind mount ignores the read-only flag; only the
//! subsequent remount honors it); the fixed device, DNS and scratch mounts
//! come next; the caller's bind mounts follow in record order; and the chroot
//! with its working-directory change comes last of all.

use vstd::prelude::*;
use crate::config::{BindMount, Config, config_wf};
use crate::paths::{concat_absolute, join_absolute};

verus! {

/// One mount operation, in the vocabulary of the kernel's mount call:
/// an optional source path, a target path, an optional filesystem type for
/// fresh instances, and the bind / remount / read-only / recursive flags.
#[derive(Clone, Debug, PartialEq, Eq)]
pub struct MountOp {
    pub source: Option<String>,
    pub target: String,
    pub fstype: Option<String>,
    pub bind: bool,
    pub remount: bool,
    pub rdonly: bool,
    pub rec: bool,
}

/// The view of one mount operation.
pub struct MountOpV {
    pub source: Option<Seq<char>>,
    pub target: Seq<char>,
    pub fstype: Option<Seq<char>>,
    pub bind: bool,
    pub remount: bool,
    pub rdonly: bool,
    pub rec: bool,
}

impl View for MountOp {
    type V = MountOpV;

    open spec fn view(&self) -> MountOpV {
        MountOpV {
            source: match self.source {
                Some(s) => Some(s@),
                None => None,
            },
            target: self.target@,
            fstype: match self.fstype {
                Some(t) => Some(t@),
                None => None,
            },
            bind: self.bind,
            remount: self.remount,
            rdonly: self.rdonly,
            rec: self.rec,
        }
    }
}

/// A plain bind mount of `source` at `target`.
pub open spec fn bind_mount_op(source: Seq<char>, target: Seq<char>) -> MountOpV {
    MountOpV {
        source: Some(source),
        target,
        fstype: None,
        bind: true,
        remount: false,
        rdonly: false,
        rec: false,
    }
}

/// The read-only remount of an existing bind mount of `path` onto itself.
pub open spec fn remount_rdonly_op(path: Seq<char>) -> MountOpV {
    MountOpV {
        source: Some(path),
        target: path,
        fstype: None,
        bind: true,
        remount: true,
        rdonly: true,
        rec: false,
    }
}

/// A recursive bind mount of `source` at `target`, preserving nested mounts.
pub open spec fn rec_bind_mount_op(source: Seq<char>, target: Seq<char>) -> MountOpV {
    MountOpV {
        source: Some(source),
        target,
        fstype: None,
        bind: true,
        remount: false,
        rdonly: false,
        rec: true,
    }
}

/// A fresh, empty instance of the filesystem `fstype` mounted at `target` —
/// genuinely new, not a bind of the host's, so no host state leaks in.
pub open spec fn fresh_fs_op(target: Seq<char>, fstype: Seq<char>) -> MountOpV {
    MountOpV {
        source: None,
        target,
        fstype: Some(fstype),
        bind: false,
        remount: false,
        rdonly: false,
        rec: false,
    }
}

/// How many host device nodes the fixed allow-list holds.
pub open spec fn device_node_count() -> int {
    6
}

/// The fixed allow-list of host device nodes bound into the sandbox's `/dev`:
/// the character devices backing the terminal, null, zero, full and both
/// random sources — host device semantics without the full host `/dev`.
pub open spec fn device_node(j: int) -> Seq<char> {
    if j == 0 {
        "/dev/tty"@
    } else if j == 1 {
        "/dev/null"@
    } else if j == 2 {
        "/dev/zero"@
    } else if j == 3 {
        "/dev/full"@
    } else if j == 4 {
        "/dev/random"@
    } else {
        "/dev/urandom"@
    }
}

/// One step of the sandbox initializer, performed as PID 1 of the new PID
/// namespace, in plan order.
#[derive(Clone, Debug, PartialEq, Eq)]
pub enum InitAction {
    /// Unshare into a new mount namespace, isolating every following mount
    /// from the host and from any sibling run.
    UnshareMountNamespace,
    /// Perform this mount.
    Mount(MountOp),
    /// chroot into this path.
    Chroot(String),
    /// Change the working directory to `/`; the chroot alone does not, and a
    /// working directory left outside the new root is an escape vector.
    ChdirRoot,
}

/// The view of one initializer step.
pub enum InitActionV {
    UnshareMountNamespace,
    Mount(MountOpV),
    Chroot(Seq<char>),
    ChdirRoot,
}

impl View for InitAction {
    type V = InitActionV;

    open spec fn view(&self) -> InitActionV {
        match self {
            InitAction::UnshareMountNamespace => InitActionV::UnshareMountNamespace,
            InitAction::Mount(op) => InitActionV::Mount(op@),
            InitAction::Chroot(path) => InitActionV::Chroot(path@),
            InitAction::ChdirRoot => InitActionV::ChdirRoot,
        }
    }
}

/// How many mount operations the plan holds: the rootfs self-bind and its
/// read-only remount, the six device binds, the DNS configuration bind, the
/// four fresh filesystem instances, and one per requested bind mount.
pub open spec fn mount_count(binds: Seq<BindMount>) -> int {
    13 + binds.len() as int
}

/// The total length of the initializer plan: the unshare, every mount, the
/// chroot and the working-directory change.
pub open spec fn init_plan_len(binds: Seq<BindMount>) -> int {
    3 + mount_count(binds)
}

/// The mount operation at position `m` of the plan's mount phase, for a
/// sandbox rooted at `rootfs` whose resolved host DNS configuration file is
/// `resolv`: first the two-step read-only rootfs, then the device allow-list,
/// the DNS bind, the fresh `devpts` and tmpfs instances, and finally the
/// record's bind mounts in record order.
pub open spec fn mount_op_at(
    rootfs: Seq<char>,
    resolv: Seq<char>,
    binds: Seq<BindMount>,
    m: int,
) -> MountOpV {
    if m == 0 {
        bind_mount_op(rootfs, rootfs)
    } else if m == 1 {
        remount_rdonly_op(rootfs)
    } else if m < 8 {
        bind_mount_op(device_node(m - 2), join_absolute(rootfs, device_node(m - 2)))
    } else if m == 8 {
        bind_mount_op(resolv, join_absolute(rootfs, "/etc/resolv.conf"@))
    } else if m == 9 {
        fresh_fs_op(join_absolute(rootfs, "/dev/pts"@), "devpts"@)
    } else if m == 10 {
        fresh_fs_op(join_absolute(rootfs, "/dev/shm"@), "tmpfs"@)
    } else if m == 11 {
        fresh_fs_op(join_absolute(rootfs, "/run"@), "tmpfs"@)
    } else if m == 12 {
        fresh_fs_op(join_absolute(rootfs, "/tmp"@), "tmpfs"@)
    } else {
        rec_bind_mount_op(binds[m - 13].source@, join_absolute(rootfs, binds[m - 13].destination@))
    }
}

/// The initializer step at position `i` of the full plan: the unshare first,
/// the mounts next, the chroot into `rootfs` and the working-directory change
/// last.
pub open spec fn init_action_at(
    rootfs: Seq<char>,
    resolv: Seq<char>,
    binds: Seq<BindMount>,
    i: int,
) -> InitActionV {
    if i == 0 {
        InitActionV::UnshareMountNamespace
    } else if i <= mount_count(binds) {
        InitActionV::Mount(mount_op_at(rootfs, resolv, binds, i - 1))
    } else if i == 1 + mount_count(binds) {
        InitActionV::Chroot(rootfs)
    } else {
        InitActionV::ChdirRoot
    }
}

/// A plain bind mount step.
fn mk_bind(source: &str, target: String) -> (r: InitAction)
    ensures
        r@ == InitActionV::Mount(bind_mount_op(source@, target@)),
{
    InitAction::Mount(
        MountOp {
            source: Some(String::from_str(source)),
            target,
            fstype: None,
            bind: true,
            remount: false,
            rdonly: false,
            rec: false,
        },
    )
}

/// A recursive bind mount step.
fn mk_rec_bind(source: &str, target: String) -> (r: InitAction)
    ensures
        r@ == InitActionV::Mount(rec_bind_mount_op(source@, target@)),
{
    InitAction::Mount(
        MountOp {
            source: Some(String::from_str(source)),
            target,
            fstype: None,
            bind: true,
            remount: false,
            rdonly: false,
            rec: true,
        },
    )
}

/// A fresh-filesystem mount step.
fn mk_fresh(target: String, fstype: &str) -> (r: InitAction)
    ensures
        r@ == InitActionV::Mount(fresh_fs_op(target@, fstype@)),
{
    InitAction::Mount(
        MountOp {
            source: None,
            target,
            fstype: Some(String::from_str(fstype)),
            bind: false,
            remount: false,
            rdonly: false,
            rec: false,
        },
    )
}

/// Computes the sandbox initializer's ordered plan for the record `cfg`,
/// with `resolv` the host's DNS configuration file after resolving symlinks.
/// Every step's failure is fatal to the run; no rollback is needed because
/// the mount namespace and its contents are discarded when its last process
/// exits.
pub fn init_plan(cfg: &Config, resolv: &str) -> (r: Vec<InitAction>)
    requires
        config_wf(cfg),
    ensures
        r@.len() == init_plan_len(cfg.bind_mounts@),
        forall|i: int|
            0 <= i < r@.len() ==> r@[i]@ == init_action_at(
                cfg.rootfs@,
                resolv@,
                cfg.bind_mounts@,
                i,
            ),
{
    proof {
        reveal_strlit("/dev/tty");
        reveal_strlit("/dev/null");
        reveal_strlit("/dev/zero");
        reveal_strlit("/dev/full");
        reveal_strlit("/dev/random");
        reveal_strlit("/dev/urandom");
        reveal_strlit("/etc/resolv.conf");
        reveal_strlit("/dev/pts");
        reveal_strlit("/dev/shm");
        reveal_strlit("/run");
        reveal_strlit("/tmp");
    }
    let rootfs = cfg.rootfs.as_str();
    let mut r: Vec<InitAction> = Vec::new();
    r.push(InitAction::UnshareMountNamespace);
    r.push(
        InitAction::Mount(
            MountOp {
                source: Some(cfg.rootfs.clone()),
                target: cfg.rootfs.clone(),
                fstype: None,
                bind: true,
                remount: false,
                rdonly: false,
                rec: false,
            },
        ),
    );
    r.push(
        InitAction::Mount(
            MountOp {
                source: Some(cfg.rootfs.clone()),
                target: cfg.rootfs.clone(),
                fstype: None,
                bind: true,
                remount: true,
                rdonly: true,
                rec: false,
            },
        ),
    );
    r.push(mk_bind("/dev/tty", concat_absolute(rootfs, "/dev/tty")));
    r.push(mk_bind("/dev/null", concat_absolute(rootfs, "/dev/null")));
    r.push(mk_bind("/dev/zero", concat_absolute(rootfs, "/dev/zero")));
    r.push(mk_bind("/dev/full", concat_absolute(rootfs, "/dev/full")));
    r.push(mk_bind("/dev/random", concat_absolute(rootfs, "/dev/random")));
    r.push(mk_bind("/dev/urandom", concat_absolute(rootfs, "/dev/urandom")));
    r.push(mk_bind(resolv, concat_absolute(rootfs, "/etc/resolv.conf")));
    r.push(mk_fresh(concat_absolute(rootfs, "/dev/pts"), "devpts"));
    r.push(mk_fresh(concat_absolute(rootfs, "/dev/shm"), "tmpfs"));
    r.push(mk_fresh(concat_absolute(rootfs, "/run"), "tmpfs"));
    r.push(mk_fresh(concat_absolute(rootfs, "/tmp"), "tmpfs"));
    let mut k: usize = 0;
    while k < cfg.bind_mounts.len()
        invariant
            config_wf(cfg),
            rootfs@ == cfg.rootfs@,
            k <= cfg.bind_mounts.len(),
            r@.len() == 14 + k,
            forall|i: int|
                0 <= i < r@.len() ==> r@[i]@ == init_action_at(
                    cfg.rootfs@,
                    resolv@,
                    cfg.bind_mounts@,
                    i,
                ),
        decreases cfg.bind_mounts.len() - k,
    {
        let bm = &cfg.bind_mounts[k];
        r.push(mk_rec_bind(bm.source.as_str(), concat_absolute(rootfs, bm.destination.as_str())));
        proof {
            let ghost n = r@.len() - 1;
            assert(mount_op_at(cfg.rootfs@, resolv@, cfg.bind_mounts@, n - 1)
                == rec_bind_mount_op(
                cfg.bind_mounts@[k as int].source@,
                join_absolute(cfg.rootfs@, cfg.bind_mounts@[k as int].destination@),
            ));
        }
        k += 1;
    }
    r.push(InitAction::Chroot(cfg.rootfs.clone()));
    r.push(InitAction::ChdirRoot);
    r
}

/// The sandboxed root is made read-only before anything can run in it: right
/// after the unshare, the plan's first mount binds `rootfs` onto itself and
/// its second remounts that same bind read-only — the two-step the kernel
/// requires, since a single bind mount ignores the read-only flag.
pub proof fn lemma_root_made_read_only(rootfs: Seq<char>, resolv: Seq<char>, binds: Seq<BindMount>)
    ensures
        init_action_at(rootfs, resolv, binds, 0) == InitActionV::UnshareMountNamespace,
        init_action_at(rootfs, resolv, binds, 1) == InitActionV::Mount(
            bind_mount_op(rootfs, rootfs),
        ),
        init_action_at(rootfs, resolv, binds, 2) == InitActionV::Mount(remount_rdonly_op(rootfs)),
{
}

/// The chroot into `rootfs` is the plan's only chroot; every mount precedes
/// it, and the working-directory change to `/` follows it immediately as the
/// plan's final step.
pub proof fn lemma_chroot_follows_all_mounts(
    rootfs: Seq<char>,
    resolv: Seq<char>,
    binds: Seq<BindMount>,
)
    ensures
        init_action_at(rootfs, resolv, binds, 1 + mount_count(binds)) == InitActionV::Chroot(
            rootfs,
        ),
        init_action_at(rootfs, resolv, binds, 2 + mount_count(binds)) == InitActionV::ChdirRoot,
        forall|i: int|
            0 <= i < init_plan_len(binds) && (#[trigger] init_action_at(
                rootfs,
                resolv,
                binds,
                i,
            )) is Chroot ==> i == 1 + mount_count(binds),
{
}

/// Each entry of the record's bind-mount list stands in the plan at its
/// record position: after the thirteen fixed mounts, entry `k` recursively
/// binds its host source at the rootfs-relative destination, before the
/// chroot; the record's order is preserved, never reordered.
pub proof fn lemma_requested_bind_mounts_in_plan(
    rootfs: Seq<char>,
    resolv: Seq<char>,
    binds: Seq<BindMount>,
    k: int,
)
    requires
        0 <= k < binds.len(),
    ensures
        init_action_at(rootfs, resolv, binds, 14 + k) == InitActionV::Mount(
            rec_bind_mount_op(binds[k].source@, join_absolute(rootfs, binds[k].destination@)),
        ),
        14 + k < 1 + mount_count(binds),
{
}

} // verus!
