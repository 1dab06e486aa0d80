use procsched::FileDescriptorVec;
use procsched::FileType;
use procsched::KernelStack;
use procsched::Pid;
use procsched::ProcessControlBlock;
use procsched::ProcessFlag;
use procsched::ProcessGroupManager;
use procsched::ProcessState;
use procsched::SocketHandle;
use procsched::SystemError;
use procsched::VirtAddr;
use procsched::process_init;
use procsched::sched_cfs_init;
use procsched::switch_finish_hook;

#[test]
fn find_after_add_returns_the_block() {
    let mut pm = process_init(1);
    let ks = KernelStack::new().unwrap();
    let p1 = ProcessControlBlock::new(&mut pm, 0, String::from("init"), ks);
    assert_eq!(p1.pid(), Pid(1));
    pm.add_pcb(p1);
    let found = pm.find(Pid(1));
    assert!(found.is_some());
    assert_eq!(found.unwrap().pid, Pid(1));
    assert!(pm.find(Pid(7)).is_none());
}

#[test]
fn find_after_last_reference_dropped_returns_none() {
    let mut pm = process_init(1);
    let ks = KernelStack::new().unwrap();
    let p1 = ProcessControlBlock::new(&mut pm, 0, String::from("init"), ks);
    pm.add_pcb(p1);
    pm.set_current(0, Pid(1));
    let ks2 = KernelStack::new().unwrap();
    let p2 = ProcessControlBlock::new(&mut pm, 0, String::from("worker"), ks2);
    assert_eq!(p2.pid(), Pid(2));
    pm.add_pcb(p2);
    pm.add_reference(Pid(2));
    assert!(pm.find(Pid(2)).is_some());
    pm.drop_reference(Pid(2));
    assert!(pm.find(Pid(2)).is_none());
    // destruction also removed it from the parent's child list
    assert!(!pm.find(Pid(1)).unwrap().children.contains(&Pid(2)));
}

#[test]
fn exited_is_absorbing_for_wakeup_and_mark_sleep() {
    let mut pm = process_init(1);
    let mut sched = sched_cfs_init(1);
    let ks = KernelStack::new().unwrap();
    let p1 = ProcessControlBlock::new(&mut pm, 0, String::from("init"), ks);
    pm.add_pcb(p1);
    pm.set_current(0, Pid(1));
    let ks2 = KernelStack::new().unwrap();
    let mut p2 = ProcessControlBlock::new(&mut pm, 0, String::from("worker"), ks2);
    p2.sched_info.on_cpu = Some(0);
    pm.add_pcb(p2);
    pm.set_current(0, Pid(2));
    pm.set_irq_enabled(0, false);
    pm.exit(&mut sched, 0, 9);
    assert!(matches!(
        pm.find(Pid(2)).unwrap().sched_info.state,
        ProcessState::Exited(9)
    ));
    assert_eq!(pm.wakeup(&mut sched, Pid(2)), Err(SystemError::EINVAL));
    assert_eq!(pm.mark_sleep(0, true), Err(SystemError::EINTR));
    // still exited, and every further call fails the same way
    assert!(pm.find(Pid(2)).unwrap().sched_info.state.is_exited());
    assert_eq!(pm.wakeup(&mut sched, Pid(2)), Err(SystemError::EINVAL));
    assert_eq!(pm.mark_sleep(0, false), Err(SystemError::EINTR));
}

#[test]
fn wakeup_is_idempotent_on_runnable() {
    let mut pm = process_init(1);
    let mut sched = sched_cfs_init(1);
    let ks = KernelStack::new().unwrap();
    let p1 = ProcessControlBlock::new(&mut pm, 0, String::from("init"), ks);
    pm.add_pcb(p1);
    pm.set_current(0, Pid(1));
    let ks2 = KernelStack::new().unwrap();
    let mut p2 = ProcessControlBlock::new(&mut pm, 0, String::from("worker"), ks2);
    p2.sched_info.on_cpu = Some(0);
    pm.add_pcb(p2);
    assert_eq!(pm.wakeup(&mut sched, Pid(2)), Ok(()));
    assert!(pm.find(Pid(2)).unwrap().sched_info.state.is_runnable());
    assert_eq!(sched.get_cfs_queue_len(0), 1);
    // a second wakeup reports success and enqueues nothing
    assert_eq!(pm.wakeup(&mut sched, Pid(2)), Ok(()));
    assert_eq!(sched.get_cfs_queue_len(0), 1);
}

#[test]
fn two_wakeups_one_enqueue() {
    // Two CPUs race to wake the same interruptibly blocked process; the
    // scheduling-info lock and interrupt disabling serialize them, so the
    // model runs them back to back: exactly one entity enters a run queue.
    let mut pm = process_init(2);
    let mut sched = sched_cfs_init(2);
    let ks = KernelStack::new().unwrap();
    let p1 = ProcessControlBlock::new(&mut pm, 0, String::from("init"), ks);
    pm.add_pcb(p1);
    pm.set_current(0, Pid(1));
    let ks2 = KernelStack::new().unwrap();
    let mut p2 = ProcessControlBlock::new(&mut pm, 0, String::from("sleeper"), ks2);
    p2.sched_info.on_cpu = Some(1);
    p2.sched_info.state = ProcessState::Blocked(true);
    pm.add_pcb(p2);
    pm.set_irq_enabled(0, false);
    pm.set_irq_enabled(1, false);
    assert_eq!(pm.wakeup(&mut sched, Pid(2)), Ok(()));
    assert_eq!(pm.wakeup(&mut sched, Pid(2)), Ok(()));
    assert_eq!(sched.get_cfs_queue_len(1), 1);
    assert_eq!(sched.get_cfs_queue_len(0), 0);
}

#[test]
fn exit_reassigns_children_to_init() {
    let mut pm = process_init(1);
    let mut sched = sched_cfs_init(1);
    let ks = KernelStack::new().unwrap();
    let p1 = ProcessControlBlock::new(&mut pm, 0, String::from("init"), ks);
    pm.add_pcb(p1);
    pm.set_current(0, Pid(1));
    let ks2 = KernelStack::new().unwrap();
    let p2 = ProcessControlBlock::new(&mut pm, 0, String::from("parent"), ks2);
    pm.add_pcb(p2);
    pm.set_current(0, Pid(2));
    let ks3 = KernelStack::new().unwrap();
    let p3 = ProcessControlBlock::new(&mut pm, 0, String::from("child-a"), ks3);
    pm.add_pcb(p3);
    let ks4 = KernelStack::new().unwrap();
    let p4 = ProcessControlBlock::new(&mut pm, 0, String::from("child-b"), ks4);
    pm.add_pcb(p4);
    assert!(pm.find(Pid(2)).unwrap().children.contains(&Pid(3)));
    assert!(pm.find(Pid(2)).unwrap().children.contains(&Pid(4)));
    pm.set_irq_enabled(0, false);
    pm.exit(&mut sched, 0, 0);
    let exited = pm.find(Pid(2)).unwrap();
    assert!(exited.children.is_empty());
    let init = pm.find(Pid(1)).unwrap();
    assert!(init.children.contains(&Pid(3)));
    assert!(init.children.contains(&Pid(4)));
}

#[test]
fn exit_wakes_interruptibly_blocked_waiters() {
    let mut pm = process_init(1);
    let mut sched = sched_cfs_init(1);
    let ks = KernelStack::new().unwrap();
    let p1 = ProcessControlBlock::new(&mut pm, 0, String::from("init"), ks);
    pm.add_pcb(p1);
    pm.set_current(0, Pid(1));
    let ks2 = KernelStack::new().unwrap();
    let p2 = ProcessControlBlock::new(&mut pm, 0, String::from("target"), ks2);
    pm.add_pcb(p2);
    let ks3 = KernelStack::new().unwrap();
    let mut p3 = ProcessControlBlock::new(&mut pm, 0, String::from("waiter"), ks3);
    p3.sched_info.on_cpu = Some(0);
    p3.sched_info.state = ProcessState::Blocked(true);
    pm.add_pcb(p3);
    pm.register_waiter(Pid(2), Pid(3));
    pm.set_current(0, Pid(2));
    pm.set_irq_enabled(0, false);
    pm.exit(&mut sched, 0, 0);
    assert!(pm.find(Pid(3)).unwrap().sched_info.state.is_runnable());
    assert_eq!(sched.get_cfs_queue_len(0), 1);
    assert!(pm.find(Pid(2)).unwrap().wait_queue.is_empty());
}

#[test]
fn release_fails_while_still_referenced() {
    let mut pm = process_init(1);
    let ks = KernelStack::new().unwrap();
    let p1 = ProcessControlBlock::new(&mut pm, 0, String::from("init"), ks);
    pm.add_pcb(p1);
    pm.set_current(0, Pid(1));
    let ks2 = KernelStack::new().unwrap();
    let p2 = ProcessControlBlock::new(&mut pm, 0, String::from("held"), ks2);
    pm.add_pcb(p2);
    pm.add_reference(Pid(2));
    // an outstanding strong reference makes release a detectable fatal
    // condition, never a silent removal
    assert_eq!(pm.release(Pid(2)), Err(SystemError::EPERM));
    assert!(pm.find(Pid(2)).is_some());
    pm.drop_reference(Pid(2));
    assert!(pm.find(Pid(2)).is_none());
    // releasing an absent pid is a silent success
    assert_eq!(pm.release(Pid(2)), Ok(()));
}

#[test]
fn mark_sleep_blocks_and_flags_reschedule() {
    let mut pm = process_init(1);
    let ks = KernelStack::new().unwrap();
    let mut p1 = ProcessControlBlock::new(&mut pm, 0, String::from("init"), ks);
    p1.sched_info.state = ProcessState::Runnable;
    pm.add_pcb(p1);
    pm.set_current(0, Pid(1));
    pm.set_irq_enabled(0, false);
    assert_eq!(pm.mark_sleep(0, true), Ok(()));
    let p = pm.find(Pid(1)).unwrap();
    assert!(matches!(p.sched_info.state, ProcessState::Blocked(true)));
    assert!(p.flags.contains(ProcessFlag::NeedSchedule));
}

#[test]
fn switch_lock_protocol_releases_on_the_other_side() {
    let mut pm = process_init(1);
    let ks = KernelStack::new().unwrap();
    let p1 = ProcessControlBlock::new(&mut pm, 0, String::from("init"), ks);
    pm.add_pcb(p1);
    pm.prepare_switch(0, Pid(0), Pid(1));
    assert!(pm.find(Pid(1)).unwrap().arch_info_locked);
    assert!(pm.idles[0].arch_info_locked);
    assert_eq!(pm.switch_results[0].prev_pcb, Some(Pid(0)));
    assert_eq!(pm.switch_results[0].next_pcb, Some(Pid(1)));
    switch_finish_hook(&mut pm, 0);
    assert!(!pm.find(Pid(1)).unwrap().arch_info_locked);
    assert!(!pm.idles[0].arch_info_locked);
    assert!(pm.switch_results[0].prev_pcb.is_none());
    assert!(pm.switch_results[0].next_pcb.is_none());
}

#[test]
fn kick_targets_the_cpu_running_the_process() {
    let mut pm = process_init(2);
    let ks = KernelStack::new().unwrap();
    let p1 = ProcessControlBlock::new(&mut pm, 0, String::from("init"), ks);
    pm.add_pcb(p1);
    pm.set_current(0, Pid(1));
    let ks2 = KernelStack::new().unwrap();
    let mut p2 = ProcessControlBlock::new(&mut pm, 0, String::from("runner"), ks2);
    p2.sched_info.on_cpu = Some(1);
    pm.add_pcb(p2);
    pm.set_current(1, Pid(2));
    assert_eq!(pm.kick(0, Pid(2)), Some(1));
    pm.set_current(1, Pid(0));
    assert_eq!(pm.kick(0, Pid(2)), None);
}

#[test]
fn boot_builds_one_idle_process_per_cpu() {
    let pm = process_init(2);
    assert_eq!(pm.idles[0].pid, Pid(0));
    assert_eq!(pm.idles[1].pid, Pid(0));
    assert_eq!(pm.idles[0].basic.name, "idle-0");
    assert_eq!(pm.idles[1].basic.name, "idle-1");
    assert_eq!(pm.idles[0].basic.cwd, "/");
    assert!(pm.idles[1].sched_info.state.is_runnable());
    assert_eq!(pm.idles[1].sched_info.on_cpu, Some(1));
    assert_eq!(pm.current_pcb(0).pid, Pid(0));
}

#[test]
fn pid_renders_in_decimal() {
    assert_eq!(Pid(0).to_string(), "0");
    assert_eq!(Pid(7).to_string(), "7");
    assert_eq!(Pid(42).to_string(), "42");
    assert_eq!(Pid(90210).to_string(), "90210");
}

#[test]
fn generate_name_joins_arguments() {
    let args = vec![String::from("cat"), String::from("-n"), String::from("f")];
    assert_eq!(
        ProcessControlBlock::generate_name("/bin/cat", &args),
        "cat -n f "
    );
    let none: Vec<String> = Vec::new();
    assert_eq!(ProcessControlBlock::generate_name("", &none), "");
}

#[test]
fn kernel_stack_validates_base_addresses() {
    assert_eq!(
        KernelStack::from_existed(VirtAddr(0)).err(),
        Some(SystemError::EFAULT)
    );
    assert_eq!(
        KernelStack::from_existed(VirtAddr(0x4001)).err(),
        Some(SystemError::EFAULT)
    );
    let s = KernelStack::from_existed(VirtAddr(0x8000)).unwrap();
    assert_eq!(s.start_address(), VirtAddr(0x8000));
    assert_eq!(s.stack_max_address(), VirtAddr(0xC000));
}

#[test]
fn kernel_stack_owner_slot_claimed_once() {
    let mut s = KernelStack::new().unwrap();
    assert_eq!(s.pcb(), None);
    assert_eq!(s.set_pcb(Pid(5)), Ok(()));
    assert_eq!(s.pcb(), Some(Pid(5)));
    assert_eq!(s.set_pcb(Pid(6)), Err(SystemError::EPERM));
    assert_eq!(s.pcb(), Some(Pid(5)));
}

#[test]
fn get_socket_resolves_only_sockets() {
    let mut pm = process_init(1);
    let ks = KernelStack::new().unwrap();
    let mut p1 = ProcessControlBlock::new(&mut pm, 0, String::from("init"), ks);
    p1.basic.fd_table = Some(FileDescriptorVec {
        files: vec![None, Some(FileType::Socket), Some(FileType::Other)],
    });
    assert_eq!(p1.get_socket(1), Some(SocketHandle(1)));
    assert_eq!(p1.get_socket(2), None);
    assert_eq!(p1.get_socket(0), None);
    assert_eq!(p1.get_socket(9), None);
    assert_eq!(p1.get_socket(-1), None);
}

#[test]
fn process_states_classify() {
    assert!(ProcessState::Runnable.is_runnable());
    assert!(!ProcessState::Runnable.is_blocked());
    assert!(ProcessState::Blocked(true).is_blocked());
    assert!(ProcessState::Blocked(false).is_blocked());
    assert!(ProcessState::Exited(3).is_exited());
    assert!(!ProcessState::Exited(3).is_runnable());
}

#[test]
fn group_membership_tracks_moves() {
    let mut gm = ProcessGroupManager::new();
    gm.add_group(Pid(5));
    assert_eq!(gm.get_group_by_pgid(Pid(5)), vec![Pid(5)]);
    gm.add_group(Pid(0));
    assert_eq!(gm.get_group_by_pgid(Pid(0)), Vec::<Pid>::new());
    gm.add_process(Pid(5), Pid(9));
    assert_eq!(gm.get_group_by_pgid(Pid(5)), vec![Pid(5), Pid(9)]);
    // moving to a fresh group creates its list holding the moved pid
    assert!(gm.set_pgid_by_pid(Pid(9), Pid(6), Pid(5)));
    assert_eq!(gm.get_group_by_pgid(Pid(5)), vec![Pid(5)]);
    assert_eq!(gm.get_group_by_pgid(Pid(6)), vec![Pid(9)]);
    // moving to an existing group appends
    assert!(!gm.set_pgid_by_pid(Pid(5), Pid(6), Pid(5)));
    assert_eq!(gm.get_group_by_pgid(Pid(5)), Vec::<Pid>::new());
    assert_eq!(gm.get_group_by_pgid(Pid(6)), vec![Pid(9), Pid(5)]);
    // a leader moving into its own fresh group seeds it with itself
    let mut gm2 = ProcessGroupManager::new();
    gm2.add_group(Pid(3));
    gm2.add_process(Pid(3), Pid(8));
    assert!(gm2.set_pgid_by_pid(Pid(8), Pid(8), Pid(3)));
    assert_eq!(gm2.get_group_by_pgid(Pid(8)), vec![Pid(8)]);
}
