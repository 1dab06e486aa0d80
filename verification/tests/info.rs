use procsched::AddressSpaceHandle;
use procsched::KernelStack;
use procsched::Pid;
use procsched::ProcessBasicInfo;
use procsched::ProcessControlBlock;
use procsched::ProcessSchedulerInfo;
use procsched::SchedPolicy;
use procsched::SchedPriority;
use procsched::process_init;

#[test]
fn pid_decimal_handles_the_largest_value() {
    assert_eq!(Pid(usize::MAX).to_string(), "18446744073709551615");
    assert_eq!(Pid(1000000).to_string(), "1000000");
}

#[test]
fn scheduler_info_defaults_and_setters() {
    let mut si = ProcessSchedulerInfo::new(None);
    assert_eq!(si.on_cpu(), None);
    assert_eq!(si.migrate_to(), None);
    assert!(si.state().is_blocked());
    assert_eq!(si.policy(), SchedPolicy::CFS);
    assert_eq!(si.virtual_runtime(), 0);
    assert_eq!(si.rt_time_slice(), 0);
    assert_eq!(si.priority().data, 100);
    si.set_on_cpu(Some(3));
    assert_eq!(si.on_cpu(), Some(3));
    si.set_migrate_to(Some(1));
    assert_eq!(si.migrate_to(), Some(1));
    si.set_virtual_runtime(40);
    si.increase_virtual_runtime(2);
    assert_eq!(si.virtual_runtime(), 42);
    si.set_rt_time_slice(5);
    si.increase_rt_time_slice(-3);
    assert_eq!(si.rt_time_slice(), 2);
}

#[test]
fn sched_priority_rejects_out_of_range_values() {
    assert_eq!(SchedPriority::new(0).map(|p| p.data), Some(0));
    assert_eq!(SchedPriority::new(139).map(|p| p.data), Some(139));
    assert!(SchedPriority::new(140).is_none());
}

#[test]
fn basic_info_carries_identity_and_links() {
    let mut b = ProcessBasicInfo::new(
        Pid(5),
        Pid(1),
        String::from("shell"),
        String::from("/home"),
        None,
        Some(Pid(5)),
    );
    assert_eq!(b.pgid(), Pid(5));
    assert_eq!(b.ppid(), Pid(1));
    assert_eq!(b.name(), "shell");
    assert_eq!(b.cwd(), "/home");
    assert!(b.fd_table().is_some());
    assert_eq!(b.tg(), Some(Pid(5)));
    b.set_pgid(Pid(6));
    assert_eq!(b.pgid(), Pid(6));
    b.set_name(String::from("sh"));
    assert_eq!(b.name(), "sh");
    b.set_cwd(String::from("/"));
    assert_eq!(b.cwd(), "/");
    b.set_user_vm(Some(AddressSpaceHandle(77)));
    assert_eq!(b.user_vm(), Some(AddressSpaceHandle(77)));
    b.set_tg(None);
    assert_eq!(b.tg(), None);
}

#[test]
fn pcb_preempt_counter_nests() {
    let mut pm = process_init(1);
    let ks = KernelStack::new().unwrap();
    let mut p = ProcessControlBlock::new(&mut pm, 0, String::from("init"), ks);
    assert_eq!(p.preempt_count(), 0);
    p.preempt_disable();
    p.preempt_disable();
    assert_eq!(p.preempt_count(), 2);
    p.preempt_enable();
    assert_eq!(p.preempt_count(), 1);
    p.set_preempt_count(0);
    assert_eq!(p.preempt_count(), 0);
}

#[test]
fn manager_preempt_brackets_the_current_context() {
    let mut pm = process_init(1);
    let ks = KernelStack::new().unwrap();
    let p1 = ProcessControlBlock::new(&mut pm, 0, String::from("init"), ks);
    pm.add_pcb(p1);
    pm.set_current(0, Pid(1));
    pm.preempt_disable(0);
    assert_eq!(pm.find(Pid(1)).unwrap().preempt_count, 1);
    pm.preempt_enable(0);
    assert_eq!(pm.find(Pid(1)).unwrap().preempt_count, 0);
}

#[test]
fn inherited_fields_flow_from_the_creating_context() {
    let mut pm = process_init(1);
    let ks = KernelStack::new().unwrap();
    let mut p1 = ProcessControlBlock::new(&mut pm, 0, String::from("init"), ks);
    assert_eq!(p1.basic.ppid, Pid(0));
    assert_eq!(p1.basic.cwd, "/");
    p1.basic.set_cwd(String::from("/srv"));
    p1.basic.set_pgid(Pid(4));
    pm.add_pcb(p1);
    pm.set_current(0, Pid(1));
    let ks2 = KernelStack::new().unwrap();
    let p2 = ProcessControlBlock::new(&mut pm, 0, String::from("child"), ks2);
    assert_eq!(p2.pid(), Pid(2));
    assert_eq!(p2.basic.ppid, Pid(1));
    assert_eq!(p2.basic.pgid, Pid(4));
    assert_eq!(p2.basic.cwd, "/srv");
    assert_eq!(p2.kernel_stack().pcb(), Some(Pid(2)));
    // the new pid is already on the parent's child list
    assert!(pm.find(Pid(1)).unwrap().children.contains(&Pid(2)));
}
