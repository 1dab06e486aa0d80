use procsched::CFSQueue;
use procsched::KernelStack;
use procsched::Pid;
use procsched::ProcessControlBlock;
use procsched::ProcessFlag;
use procsched::ProcessGroupManager;
use procsched::ProcessState;
use procsched::SchedEntity;
use procsched::TaskGroup;
use procsched::process_init;
use procsched::sched_cfs_init;

#[test]
fn dequeue_order_follows_virtual_runtime() {
    let mut q = CFSQueue::new(Pid(0));
    let mut a = SchedEntity::new(Pid(10));
    a.set_virtual_runtime(5);
    let mut b = SchedEntity::new(Pid(11));
    b.set_virtual_runtime(1);
    let mut c = SchedEntity::new(Pid(12));
    c.set_virtual_runtime(3);
    q.enqueue_se(a);
    q.enqueue_se(b);
    q.enqueue_se(c);
    assert_eq!(q.dequeue(), Pid(11));
    assert_eq!(q.dequeue(), Pid(12));
    assert_eq!(q.dequeue(), Pid(10));
}

#[test]
fn empty_queue_dequeues_the_idle_process() {
    let mut q = CFSQueue::new(Pid(0));
    assert_eq!(q.dequeue(), Pid(0));
    // still empty, still answers with idle, never nothing
    assert_eq!(q.dequeue(), Pid(0));
    let mut q2 = CFSQueue::new(Pid(99));
    assert_eq!(q2.dequeue(), Pid(99));
}

#[test]
fn min_vruntime_reports_the_queue_head() {
    let mut q = CFSQueue::new(Pid(0));
    assert_eq!(q.min_vruntime(), None);
    let mut a = SchedEntity::new(Pid(10));
    a.set_virtual_runtime(8);
    q.enqueue_se(a);
    let mut b = SchedEntity::new(Pid(11));
    b.set_virtual_runtime(2);
    q.enqueue_se(b);
    assert_eq!(q.min_vruntime(), Some(2));
    assert_eq!(q.get_cfs_queue_size(), 2);
}

#[test]
fn enqueue_filters_the_idle_process() {
    let pm = process_init(1);
    let mut q = CFSQueue::new(Pid(0));
    let idle = pm.current_pcb(0);
    q.enqueue(idle);
    assert_eq!(q.get_cfs_queue_size(), 0);
}

#[test]
fn enqueue_reset_vruntime_adopts_the_queue_minimum() {
    let mut pm = process_init(1);
    let mut sched = sched_cfs_init(1);
    let ks = KernelStack::new().unwrap();
    let mut seed = ProcessControlBlock::new(&mut pm, 0, String::from("seed"), ks);
    seed.sched_info.on_cpu = Some(0);
    seed.sched_info.virtual_runtime = 7;
    sched.enqueue_pcb(&seed);
    let seed_pid = seed.pid();
    pm.add_pcb(seed);
    pm.set_current(0, seed_pid);
    for prior in [0i64, 100, 7] {
        let ks2 = KernelStack::new().unwrap();
        let mut p = ProcessControlBlock::new(&mut pm, 0, String::from("joiner"), ks2);
        p.sched_info.on_cpu = Some(0);
        p.sched_info.virtual_runtime = prior;
        sched.enqueue_reset_vruntime(&mut p);
        assert_eq!(p.sched_info.virtual_runtime, 7);
    }
    // on an empty queue the process keeps its own value
    let mut sched2 = sched_cfs_init(1);
    let ks3 = KernelStack::new().unwrap();
    let mut p = ProcessControlBlock::new(&mut pm, 0, String::from("alone"), ks3);
    p.sched_info.on_cpu = Some(0);
    p.sched_info.virtual_runtime = 55;
    sched2.enqueue_reset_vruntime(&mut p);
    assert_eq!(p.sched_info.virtual_runtime, 55);
}

#[test]
fn sched_tie_break_favors_the_current_process() {
    let mut pm = process_init(1);
    let mut sched = sched_cfs_init(1);
    let ks = KernelStack::new().unwrap();
    let mut p1 = ProcessControlBlock::new(&mut pm, 0, String::from("init"), ks);
    p1.sched_info.state = ProcessState::Runnable;
    p1.sched_info.virtual_runtime = 10;
    p1.sched_info.on_cpu = Some(0);
    pm.add_pcb(p1);
    pm.set_current(0, Pid(1));
    let ks2 = KernelStack::new().unwrap();
    let mut p2 = ProcessControlBlock::new(&mut pm, 0, String::from("peer"), ks2);
    p2.sched_info.on_cpu = Some(0);
    p2.sched_info.virtual_runtime = 10;
    sched.enqueue_pcb(&p2);
    pm.add_pcb(p2);
    pm.set_irq_enabled(0, false);
    // equal virtual runtime: no switch, candidate back on the queue
    assert_eq!(sched.sched(&mut pm, 0), None);
    assert_eq!(sched.get_cfs_queue_len(0), 1);
}

#[test]
fn sched_switches_to_a_strictly_fairer_candidate() {
    let mut pm = process_init(1);
    let mut sched = sched_cfs_init(1);
    let ks = KernelStack::new().unwrap();
    let mut p1 = ProcessControlBlock::new(&mut pm, 0, String::from("init"), ks);
    p1.sched_info.state = ProcessState::Runnable;
    p1.sched_info.virtual_runtime = 10;
    p1.sched_info.on_cpu = Some(0);
    pm.add_pcb(p1);
    pm.set_current(0, Pid(1));
    let ks2 = KernelStack::new().unwrap();
    let mut p2 = ProcessControlBlock::new(&mut pm, 0, String::from("ahead"), ks2);
    p2.sched_info.on_cpu = Some(0);
    p2.sched_info.virtual_runtime = 9;
    sched.enqueue_pcb(&p2);
    pm.add_pcb(p2);
    pm.set_irq_enabled(0, false);
    // strictly smaller virtual runtime: switch, current re-enqueued
    assert_eq!(sched.sched(&mut pm, 0), Some(Pid(2)));
    assert_eq!(sched.get_cfs_queue_len(0), 1);
    let mut q = CFSQueue::new(Pid(0));
    std::mem::swap(&mut q, &mut sched.cpu_queue[0]);
    assert_eq!(q.dequeue(), Pid(1));
}

#[test]
fn sched_clears_the_reschedule_flag() {
    let mut pm = process_init(1);
    let mut sched = sched_cfs_init(1);
    let ks = KernelStack::new().unwrap();
    let mut p1 = ProcessControlBlock::new(&mut pm, 0, String::from("init"), ks);
    p1.sched_info.state = ProcessState::Runnable;
    p1.sched_info.on_cpu = Some(0);
    p1.flags.insert(ProcessFlag::NeedSchedule);
    pm.add_pcb(p1);
    pm.set_current(0, Pid(1));
    pm.set_irq_enabled(0, false);
    let _ = sched.sched(&mut pm, 0);
    assert!(!pm.find(Pid(1)).unwrap().flags.contains(ProcessFlag::NeedSchedule));
}

#[test]
fn timer_tick_accounts_jiffies_and_vruntime() {
    let mut pm = process_init(1);
    let mut sched = sched_cfs_init(1);
    let ks = KernelStack::new().unwrap();
    let mut p1 = ProcessControlBlock::new(&mut pm, 0, String::from("init"), ks);
    p1.sched_info.virtual_runtime = 4;
    sched.cpu_queue[0].cpu_exec_proc_jiffies = 2;
    sched.timer_update_jiffies(0, &mut p1);
    assert_eq!(sched.cpu_queue[0].cpu_exec_proc_jiffies, 1);
    assert!(!p1.flags.contains(ProcessFlag::NeedSchedule));
    assert_eq!(p1.sched_info.virtual_runtime, 5);
    sched.timer_update_jiffies(0, &mut p1);
    // slice exhausted: flagged for reschedule, not preempted here
    assert_eq!(sched.cpu_queue[0].cpu_exec_proc_jiffies, 0);
    assert!(p1.flags.contains(ProcessFlag::NeedSchedule));
    assert_eq!(p1.sched_info.virtual_runtime, 6);
}

#[test]
fn wakeup_enqueues_with_reset_vruntime() {
    let mut pm = process_init(1);
    let mut sched = sched_cfs_init(1);
    let ks = KernelStack::new().unwrap();
    let p1 = ProcessControlBlock::new(&mut pm, 0, String::from("init"), ks);
    pm.add_pcb(p1);
    pm.set_current(0, Pid(1));
    let ks2 = KernelStack::new().unwrap();
    let mut seed = ProcessControlBlock::new(&mut pm, 0, String::from("seed"), ks2);
    seed.sched_info.on_cpu = Some(0);
    seed.sched_info.virtual_runtime = 7;
    sched.enqueue_pcb(&seed);
    let ks3 = KernelStack::new().unwrap();
    let mut p3 = ProcessControlBlock::new(&mut pm, 0, String::from("sleeper"), ks3);
    p3.sched_info.on_cpu = Some(0);
    p3.sched_info.state = ProcessState::Blocked(false);
    p3.sched_info.virtual_runtime = 100;
    let pid3 = p3.pid();
    pm.add_pcb(p3);
    assert_eq!(pm.wakeup(&mut sched, pid3), Ok(()));
    let woken = pm.find(pid3).unwrap();
    assert!(woken.sched_info.state.is_runnable());
    assert_eq!(woken.sched_info.virtual_runtime, 7);
    assert_eq!(sched.get_cfs_queue_len(0), 2);
}

#[test]
fn descent_unwraps_group_entities() {
    let mut inner = CFSQueue::new(Pid(0));
    let mut member = SchedEntity::new(Pid(20));
    member.set_virtual_runtime(4);
    inner.enqueue_se(member);
    let mut group = SchedEntity::new_group(inner);
    group.set_virtual_runtime(2);
    let mut outer = CFSQueue::new(Pid(0));
    outer.enqueue_se(group);
    let mut peer = SchedEntity::new(Pid(21));
    peer.set_virtual_runtime(3);
    outer.enqueue_se(peer);
    // the group entity is ahead; the concrete process it nests is chosen
    assert_eq!(outer.dequeue(), Pid(20));
    // its queue is exhausted, so the group is gone and the peer follows
    assert_eq!(outer.dequeue(), Pid(21));
    assert_eq!(outer.dequeue(), Pid(0));
}

#[test]
fn entities_tell_processes_from_groups() {
    let e = SchedEntity::new(Pid(3));
    assert_eq!(e.pcb(), Some(Pid(3)));
    assert!(e.group_cfs_rq().is_none());
    assert_eq!(e.priority().data, 100);
    let g = SchedEntity::new_group(CFSQueue::new(Pid(0)));
    assert_eq!(g.pcb(), None);
    assert!(g.group_cfs_rq().is_some());
}

#[test]
fn task_group_links_into_the_parent_queues() {
    let mut tg = TaskGroup::new(2, Some(Pid(1)));
    assert!(tg.cfs(0).is_some());
    assert!(tg.cfs(1).is_some());
    let mut parent_sched = sched_cfs_init(2);
    tg.init_group_se(&mut parent_sched);
    assert_eq!(parent_sched.get_cfs_queue_len(0), 1);
    assert_eq!(parent_sched.get_cfs_queue_len(1), 1);
    assert!(tg.se.is_empty());
}

#[test]
fn task_groups_register_under_their_group_id() {
    let mut gm = ProcessGroupManager::new();
    assert!(gm.find(Pid(7)).is_none());
    let tg = TaskGroup::new(1, None);
    TaskGroup::add_tg(&mut gm, Pid(7), tg);
    let found = gm.find(Pid(7));
    assert!(found.is_some());
    assert_eq!(found.unwrap().se.len(), 1);
}

#[test]
fn scheduler_tracks_per_cpu_queues() {
    let mut sched = sched_cfs_init(3);
    assert_eq!(sched.get_cfs_queue_len(0), 0);
    assert_eq!(sched.get_cfs_queue_len(2), 0);
    sched.set_cpu_idle(2, Pid(0));
    assert_eq!(sched.get_cpu_queue(2).get_cfs_queue_size(), 0);
    let mut pm = process_init(3);
    let ks = KernelStack::new().unwrap();
    let mut p1 = ProcessControlBlock::new(&mut pm, 0, String::from("init"), ks);
    p1.sched_info.on_cpu = Some(2);
    p1.sched_info.virtual_runtime = 6;
    sched.enqueue_se(&p1);
    assert_eq!(sched.get_cfs_queue_len(2), 1);
    assert_eq!(sched.get_cfs_queue_len(0), 0);
    assert_eq!(sched.cpu_queue[2].min_vruntime(), Some(6));
}
