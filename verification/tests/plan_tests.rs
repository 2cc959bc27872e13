use cbuildrt::bootstrap::{bootstrap_plan, BootstrapAction};
use cbuildrt::config::{BindMount, Config, Process, User};
use cbuildrt::mounts::{init_plan, InitAction, MountOp};
use cbuildrt::supervisor::{outer_wait_step, reap_step, OuterDecision, ReapDecision, WaitEvent};

fn sandbox_config(args: Vec<&str>, bind_mounts: Vec<BindMount>) -> Config {
    Config {
        rootfs: String::from("/sandbox"),
        user: User {
            uid: 1000,
            gid: 1000,
        },
        process: Process {
            args: args.into_iter().map(String::from).collect(),
        },
        bind_mounts,
    }
}

fn bind(source: &str, target: &str) -> MountOp {
    MountOp {
        source: Some(String::from(source)),
        target: String::from(target),
        fstype: None,
        bind: true,
        remount: false,
        rdonly: false,
        rec: false,
    }
}

#[test]
fn bootstrap_plan_orders_identity_steps() {
    let user = User {
        uid: 1000,
        gid: 1000,
    };
    let plan = bootstrap_plan(&user, 501, 20);
    assert_eq!(
        plan,
        vec![
            BootstrapAction::UnshareUserAndPidNamespaces,
            BootstrapAction::DenySetgroups,
            BootstrapAction::WriteUidMap(String::from("1000 501 1")),
            BootstrapAction::WriteGidMap(String::from("1000 20 1")),
            BootstrapAction::SetUid(1000),
            BootstrapAction::SetGid(1000),
        ]
    );
}

#[test]
fn bootstrap_plan_for_root_target() {
    let user = User { uid: 0, gid: 0 };
    let plan = bootstrap_plan(&user, 1000, 1000);
    assert_eq!(
        plan[2],
        BootstrapAction::WriteUidMap(String::from("0 1000 1"))
    );
    assert_eq!(
        plan[3],
        BootstrapAction::WriteGidMap(String::from("0 1000 1"))
    );
    assert_eq!(plan[4], BootstrapAction::SetUid(0));
    assert_eq!(plan[5], BootstrapAction::SetGid(0));
}

#[test]
fn init_plan_without_bind_mounts() {
    let cfg = sandbox_config(vec!["/bin/true"], vec![]);
    let plan = init_plan(&cfg, "/etc/resolv.conf");
    assert_eq!(plan.len(), 16);
    assert_eq!(plan[0], InitAction::UnshareMountNamespace);
    assert_eq!(plan[1], InitAction::Mount(bind("/sandbox", "/sandbox")));
    assert_eq!(
        plan[2],
        InitAction::Mount(MountOp {
            source: Some(String::from("/sandbox")),
            target: String::from("/sandbox"),
            fstype: None,
            bind: true,
            remount: true,
            rdonly: true,
            rec: false,
        })
    );
    assert_eq!(
        plan[3],
        InitAction::Mount(bind("/dev/tty", "/sandbox/dev/tty"))
    );
    assert_eq!(
        plan[8],
        InitAction::Mount(bind("/dev/urandom", "/sandbox/dev/urandom"))
    );
    assert_eq!(
        plan[9],
        InitAction::Mount(bind("/etc/resolv.conf", "/sandbox/etc/resolv.conf"))
    );
    assert_eq!(
        plan[10],
        InitAction::Mount(MountOp {
            source: None,
            target: String::from("/sandbox/dev/pts"),
            fstype: Some(String::from("devpts")),
            bind: false,
            remount: false,
            rdonly: false,
            rec: false,
        })
    );
    assert_eq!(
        plan[13],
        InitAction::Mount(MountOp {
            source: None,
            target: String::from("/sandbox/tmp"),
            fstype: Some(String::from("tmpfs")),
            bind: false,
            remount: false,
            rdonly: false,
            rec: false,
        })
    );
    assert_eq!(plan[14], InitAction::Chroot(String::from("/sandbox")));
    assert_eq!(plan[15], InitAction::ChdirRoot);
}

#[test]
fn init_plan_scratch_mounts_are_fresh_instances() {
    let cfg = sandbox_config(vec!["/bin/true"], vec![]);
    let plan = init_plan(&cfg, "/etc/resolv.conf");
    for (i, target) in [
        (11, "/sandbox/dev/shm"),
        (12, "/sandbox/run"),
        (13, "/sandbox/tmp"),
    ] {
        assert_eq!(
            plan[i],
            InitAction::Mount(MountOp {
                source: None,
                target: String::from(target),
                fstype: Some(String::from("tmpfs")),
                bind: false,
                remount: false,
                rdonly: false,
                rec: false,
            })
        );
    }
}

#[test]
fn init_plan_places_requested_bind_mounts_before_chroot() {
    let cfg = sandbox_config(
        vec!["/bin/true"],
        vec![BindMount {
            destination: String::from("/data"),
            source: String::from("/host/data"),
        }],
    );
    let plan = init_plan(&cfg, "/etc/resolv.conf");
    assert_eq!(plan.len(), 17);
    assert_eq!(
        plan[14],
        InitAction::Mount(MountOp {
            source: Some(String::from("/host/data")),
            target: String::from("/sandbox/data"),
            fstype: None,
            bind: true,
            remount: false,
            rdonly: false,
            rec: true,
        })
    );
    assert_eq!(plan[15], InitAction::Chroot(String::from("/sandbox")));
    assert_eq!(plan[16], InitAction::ChdirRoot);
}

#[test]
fn init_plan_keeps_bind_mount_record_order() {
    let cfg = sandbox_config(
        vec!["/bin/sh"],
        vec![
            BindMount {
                destination: String::from("/data"),
                source: String::from("/host/data"),
            },
            BindMount {
                destination: String::from("/data/inner"),
                source: String::from("/host/inner"),
            },
        ],
    );
    let plan = init_plan(&cfg, "/etc/resolv.conf");
    let InitAction::Mount(first) = &plan[14] else {
        panic!("expected a mount");
    };
    let InitAction::Mount(second) = &plan[15] else {
        panic!("expected a mount");
    };
    assert_eq!(first.target, "/sandbox/data");
    assert_eq!(second.target, "/sandbox/data/inner");
    assert!(first.rec && second.rec);
}

#[test]
fn scenario_true_exits_zero_overall() {
    // rootfs /sandbox, uid/gid 1000, args ["/bin/true"], no bind mounts:
    // the target exits 0, the supervisor adopts 0 without a warning, and the
    // outer waiter propagates 0.
    let cfg = sandbox_config(vec!["/bin/true"], vec![]);
    let plan = init_plan(&cfg, "/etc/resolv.conf");
    assert_eq!(plan.len(), 16);
    let supervisor = reap_step(2, WaitEvent::Exited { pid: 2, code: 0 });
    assert_eq!(
        supervisor,
        ReapDecision::ExitWith {
            code: 0,
            warn: false
        }
    );
    let outer = outer_wait_step(WaitEvent::Exited { pid: 31, code: 0 });
    assert_eq!(outer, OuterDecision::Propagate { code: 0 });
}

#[test]
fn scenario_false_exits_one_with_diagnostic() {
    // Same sandbox, args ["/bin/false"]: the non-zero code is propagated and
    // the supervisor's decision carries the diagnostic.
    let cfg = sandbox_config(vec!["/bin/false"], vec![]);
    assert_eq!(cfg.process.args[0], "/bin/false");
    let supervisor = reap_step(2, WaitEvent::Exited { pid: 2, code: 1 });
    assert_eq!(
        supervisor,
        ReapDecision::ExitWith {
            code: 1,
            warn: true
        }
    );
    let outer = outer_wait_step(WaitEvent::Exited { pid: 31, code: 1 });
    assert_eq!(outer, OuterDecision::Propagate { code: 1 });
}
