//! The identity bootstrapper's plan: the ordered, privilege-sensitive steps
//! the outer process performs before forking the sandbox initializer. The
//! order is load-bearing: the user and PID namespaces are created together
//! before any descendant exists; the kernel rejects identity-map writes from
//! an unprivileged creator unless changing supplementary groups is disabled
//! first; and the identity switch is meaningful only once the maps are
//! written.

use vstd::prelude::*;
use crate::config::User;
use crate::digits::{format_map_line, map_line};

verus! {

/// One step of the identity bootstrap, performed by the outer process in
/// plan order.
#[derive(Clone, Debug, PartialEq, Eq)]
pub enum BootstrapAction {
    /// Unshare into a new user namespace and a new PID namespace together;
    /// descendants forked afterwards land in the new PID namespace.
    UnshareUserAndPidNamespaces,
    /// Write `deny` to the namespace's setgroups file, a precondition for
    /// writing the identity maps as an unprivileged creator.
    DenySetgroups,
    /// Write this line to the namespace's uid map file.
    WriteUidMap(String),
    /// Write this line to the namespace's gid map file.
    WriteGidMap(String),
    /// Switch the process's effective uid to this value (now meaningful
    /// because of the mapping just written).
    SetUid(u32),
    /// Switch the process's effective gid to this value.
    SetGid(u32),
}

/// The view of one bootstrap step.
pub enum BootstrapActionV {
    UnshareUserAndPidNamespaces,
    DenySetgroups,
    WriteUidMap(Seq<char>),
    WriteGidMap(Seq<char>),
    SetUid(u32),
    SetGid(u32),
}

impl View for BootstrapAction {
    type V = BootstrapActionV;

    open spec fn view(&self) -> BootstrapActionV {
        match self {
            BootstrapAction::UnshareUserAndPidNamespaces => BootstrapActionV::UnshareUserAndPidNamespaces,
            BootstrapAction::DenySetgroups => BootstrapActionV::DenySetgroups,
            BootstrapAction::WriteUidMap(line) => BootstrapActionV::WriteUidMap(line@),
            BootstrapAction::WriteGidMap(line) => BootstrapActionV::WriteGidMap(line@),
            BootstrapAction::SetUid(uid) => BootstrapActionV::SetUid(*uid),
            BootstrapAction::SetGid(gid) => BootstrapActionV::SetGid(*gid),
        }
    }
}

/// How many steps the bootstrap plan has.
pub open spec fn bootstrap_plan_len() -> int {
    6
}

/// The bootstrap step at position `i`: namespaces first, then the setgroups
/// denial, then the two one-entry identity maps — each mapping the identity
/// the namespace observes (the record's) onto the outer process's real
/// effective identity, width 1 — and the identity switch last.
pub open spec fn bootstrap_action_at(user: User, host_euid: u32, host_egid: u32, i: int) -> BootstrapActionV {
    if i == 0 {
        BootstrapActionV::UnshareUserAndPidNamespaces
    } else if i == 1 {
        BootstrapActionV::DenySetgroups
    } else if i == 2 {
        BootstrapActionV::WriteUidMap(map_line(user.uid as nat, host_euid as nat))
    } else if i == 3 {
        BootstrapActionV::WriteGidMap(map_line(user.gid as nat, host_egid as nat))
    } else if i == 4 {
        BootstrapActionV::SetUid(user.uid)
    } else {
        BootstrapActionV::SetGid(user.gid)
    }
}

/// Computes the identity bootstrapper's ordered plan for the record's target
/// identity, given the outer process's real effective identity. After the
/// plan runs, the outer process forks; the child proceeds to the sandbox
/// initializer and the parent becomes the top-level waiter.
pub fn bootstrap_plan(user: &User, host_euid: u32, host_egid: u32) -> (r: Vec<BootstrapAction>)
    ensures
        r@.len() == bootstrap_plan_len(),
        forall|i: int|
            0 <= i < r@.len() ==> r@[i]@ == bootstrap_action_at(*user, host_euid, host_egid, i),
{
    let mut r: Vec<BootstrapAction> = Vec::new();
    r.push(BootstrapAction::UnshareUserAndPidNamespaces);
    r.push(BootstrapAction::DenySetgroups);
    r.push(BootstrapAction::WriteUidMap(format_map_line(user.uid, host_euid)));
    r.push(BootstrapAction::WriteGidMap(format_map_line(user.gid, host_egid)));
    r.push(BootstrapAction::SetUid(user.uid));
    r.push(BootstrapAction::SetGid(user.gid));
    r
}

/// The identity the target observes comes from the specification record
/// alone: the namespaces are created before anything else, the setgroups
/// denial precedes both map writes, each map is the one-entry line mapping
/// the record's identity onto the outer process's real one, both writes
/// precede the identity switch, and the switch is exactly to the record's
/// uid and gid.
pub proof fn lemma_identity_from_record(user: User, host_euid: u32, host_egid: u32)
    ensures
        bootstrap_action_at(user, host_euid, host_egid, 0)
            == BootstrapActionV::UnshareUserAndPidNamespaces,
        bootstrap_action_at(user, host_euid, host_egid, 1) == BootstrapActionV::DenySetgroups,
        bootstrap_action_at(user, host_euid, host_egid, 2) == BootstrapActionV::WriteUidMap(
            map_line(user.uid as nat, host_euid as nat),
        ),
        bootstrap_action_at(user, host_euid, host_egid, 3) == BootstrapActionV::WriteGidMap(
            map_line(user.gid as nat, host_egid as nat),
        ),
        bootstrap_action_at(user, host_euid, host_egid, 4) == BootstrapActionV::SetUid(user.uid),
        bootstrap_action_at(user, host_euid, host_egid, 5) == BootstrapActionV::SetGid(user.gid),
{
}

} // verus!
