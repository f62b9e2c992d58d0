use sos::sched::{
    init, ret_to_userspace, sched, switch_to, timer_handler, CpuRegs, Kernel, SchedOutcome, IF_FLAG,
};
use sos::syscall::{syscall_dispatch, syscall_entry, syscall_return, sys_write, Syscall, SyscallRegs};
use sos::task::{
    Context, Platform, Stack, TaskList, TaskState, INITIAL_RFLAGS, KERN_STACK_SIZE, MAX_TASK,
    NO_EXECUTE, USER, WRITABLE,
};

fn platform() -> Platform {
    Platform {
        kernel_cr3: 0x1000,
        kern_cs_sel: 0x08,
        kern_ds_sel: 0x10,
        user_cs_sel: 0x23,
        user_ds_sel: 0x1b,
        start_task: 0x0010_2000,
        user_stack_start: 0x0040_0000,
        user_stack_end: 0x0040_ffff,
        user_code_start: 0x0060_0000,
    }
}

fn stack(n: usize) -> Stack {
    let bottom = 0x0100_0000 + n * 0x10000;
    Stack::new(bottom + KERN_STACK_SIZE, bottom)
}

fn regs(seed: usize) -> CpuRegs {
    CpuRegs {
        rflags: 0x2,
        rbp: seed + 1,
        rbx: seed + 2,
        rsp: seed + 3,
        r12: seed + 4,
        r13: seed + 5,
        r14: seed + 6,
        r15: seed + 7,
    }
}

fn booted() -> Kernel {
    let mut k = Kernel::new(0x1000, regs(0));
    let stacks = vec![stack(0), stack(1), stack(2), stack(3)];
    init(&mut k, &platform(), 0xa000, 0xb000, 0xc000, 0xd000, 0x9000, &stacks);
    k
}

/// The interrupt gate clears IF before the handler runs.
fn tick(k: &mut Kernel, next_free: bool) -> SchedOutcome {
    k.cpu.rflags &= !IF_FLAG;
    timer_handler(k, next_free).sched
}

#[test]
fn boot_to_user() {
    let mut k = Kernel::new(0x1000, regs(0));
    let stacks = vec![stack(0), stack(1), stack(2), stack(3)];
    let img = init(&mut k, &platform(), 0xa000, 0xb000, 0xc000, 0xd000, 0x9000, &stacks);
    assert_eq!(k.current_id, 4);
    assert_eq!(k.tasks.next_id, 5);
    let names: Vec<&str> = k.tasks.tasks.values().map(|t| t.name.as_deref().unwrap()).collect();
    assert_eq!(names, vec!["idle", "kthread1", "kthread2", "init"]);
    let user = &k.tasks.tasks[&4];
    assert_eq!(user.ppid, 1);
    assert_eq!(user.state, TaskState::Created);
    assert_eq!(img.entry.rip, 0x0060_0000);
    assert_eq!(img.entry.rsp, 0x0041_0000);
    assert_eq!(img.entry.cs, 0x23);
    assert_eq!(img.entry.ss, 0x1b);
    assert_eq!(img.entry.gs_base, stack(3).top - 16);
    assert_eq!(img.entry.tss_rsp0, stack(3).top - 16);
    assert_eq!(user.user_stack.unwrap().start, 0x0040_0000);
    assert_eq!(img.kernel_tasks[0].frame, vec![0x10, stack(0).top - 16, 0x0202, 0x08, 0xa000, 0x0010_2000]);
    assert_eq!(img.entry.rflags, INITIAL_RFLAGS);
    assert_eq!(img.entry.cr3, 0x9000);
    assert_eq!(k.cr3, 0x9000);
    assert_eq!(k.gs_base, stack(3).top - 16);
    assert_eq!(img.kernel_tasks.len(), 3);
    assert_eq!(img.kernel_tasks[1].frame[4], 0xb000);
}

#[test]
fn current_id_names_init_after_boot() {
    let k = booted();
    assert_ne!(k.current_id, 0);
    let cur = k.tasks.current(k.current_id).unwrap();
    assert_eq!(cur.name.as_deref(), Some("init"));
    assert!(cur.code.is_some());
}

#[test]
fn tss_rsp0_matches_saved_rsp_at_user_entry() {
    let mut k = booted();
    let rsp = k.tasks.tasks[&4].ctx.rsp;
    assert_eq!(k.tss_rsp0, rsp);
    assert_eq!(rsp, stack(3).top - 16);
    k.tss_rsp0 = 0;
    let entry = ret_to_userspace(&mut k, &platform());
    assert_eq!(k.tss_rsp0, rsp);
    assert_eq!(entry.tss_rsp0, rsp);
}

#[test]
fn three_kernel_threads_rotate() {
    let mut k = booted();
    let mut counts = [0usize; 5];
    for _ in 0..400 {
        tick(&mut k, true);
        counts[k.current_id as usize] += 1;
    }
    for id in 2..=3 {
        assert!(counts[id] >= 80, "thread {} ran {} times", id, counts[id]);
    }
    for id in 1..=4 {
        assert_eq!(counts[id], 100);
    }
}

#[test]
fn round_robin_order_wraps_at_counter() {
    let mut k = booted();
    let mut seen = Vec::new();
    for _ in 0..6 {
        match tick(&mut k, true) {
            SchedOutcome::Switched { to, .. } => seen.push(to),
            other => panic!("unexpected {:?}", other),
        }
    }
    assert_eq!(seen, vec![1, 2, 3, 4, 1, 2]);
}

#[test]
fn fairness_over_uneven_ticks() {
    let mut k = booted();
    let mut counts = [0usize; 5];
    let n = 10;
    for _ in 0..n {
        tick(&mut k, true);
        counts[k.current_id as usize] += 1;
    }
    for id in 1..=4 {
        assert!(counts[id] + 1 >= n / 4);
    }
}

#[test]
fn ticks_count_every_interrupt() {
    let mut k = booted();
    let before = k.timer_ticks;
    tick(&mut k, true);
    assert_eq!(k.timer_ticks, before + 1);
    tick(&mut k, false);
    assert_eq!(k.timer_ticks, before + 2);
}

#[test]
fn tick_counter_wraps() {
    let mut k = booted();
    k.timer_ticks = usize::MAX;
    tick(&mut k, true);
    assert_eq!(k.timer_ticks, 0);
}

#[test]
fn timer_acknowledges_irq0() {
    let mut k = booted();
    k.cpu.rflags &= !IF_FLAG;
    let out = timer_handler(&mut k, true);
    assert_eq!(out.eoi_irq, 0);
}

#[test]
fn sched_before_multitasking_does_nothing() {
    let mut k = Kernel::new(0x1000, regs(0));
    let r = sched(&mut k, true);
    assert_eq!(r, SchedOutcome::NotStarted);
    assert_eq!(k.current_id, 0);
    assert_eq!(k.cpu, regs(0));
}

#[test]
fn locked_next_task_skips_switch() {
    let mut k = booted();
    k.cpu = regs(500);
    let r = tick(&mut k, false);
    assert_eq!(r, SchedOutcome::Skipped { next: 1 });
    assert_eq!(k.current_id, 4);
    assert_eq!(k.cpu, regs(500));
    assert_eq!(k.cpu.rflags & IF_FLAG, 0);
}

#[test]
fn context_switch_round_trip() {
    let mut k = booted();
    k.cpu = regs(0x100);
    let at_save = k.cpu;
    tick(&mut k, true);
    assert_eq!(k.current_id, 1);
    let saved = k.tasks.tasks[&4].ctx;
    assert_eq!(saved.rbx, at_save.rbx);
    assert_eq!(saved.rsp, at_save.rsp);
    k.cpu = regs(0x900);
    tick(&mut k, true);
    k.cpu = regs(0xa00);
    tick(&mut k, true);
    k.cpu = regs(0xb00);
    tick(&mut k, true);
    assert_eq!(k.current_id, 4);
    assert_eq!(k.cpu, at_save);
}

#[test]
fn switch_to_saves_and_loads() {
    let mut cur = Context::new();
    cur.cr3 = 0x5000;
    let next = Context {
        rflags: 0x202,
        cr3: 0x6000,
        rbp: 11,
        rbx: 12,
        rsp: 13,
        r12: 14,
        r13: 15,
        r14: 16,
        r15: 17,
    };
    let mut cpu = regs(40);
    switch_to(&mut cur, &next, &mut cpu);
    assert_eq!(cur.rbp, 41);
    assert_eq!(cur.r15, 47);
    assert_eq!(cur.rflags, 0x2);
    assert_eq!(cur.cr3, 0x5000);
    assert_eq!(cpu.rbp, 11);
    assert_eq!(cpu.rsp, 13);
    assert_eq!(cpu.rflags, 0x202);
}

#[test]
fn address_space_switch_between_user_tasks() {
    let p = platform();
    let mut k = Kernel::new(0x1000, regs(0));
    k.tasks.alloc_kernel_task("idle", 0xa000, stack(0), &p);
    let a = k.tasks.alloc_task("a", 1, 0x7000, 0x20000, stack(1), &p);
    let b = k.tasks.alloc_task("b", 1, 0x8000, 0x30000, stack(2), &p);
    assert_ne!(k.tasks.tasks[&2].ctx.cr3, k.tasks.tasks[&3].ctx.cr3);
    k.current_id = a.pid;
    ret_to_userspace(&mut k, &p);
    assert_eq!(k.cr3, 0x20000);
    let r = tick(&mut k, true);
    assert_eq!(r, SchedOutcome::Switched { from: 2, to: 3, cr3_loaded: true });
    assert_eq!(k.cr3, k.tasks.tasks[&3].ctx.cr3);
    assert_eq!(k.cr3, 0x30000);
    assert_eq!(k.tss_rsp0, k.tasks.tasks[&3].ctx.rsp);
    assert_eq!(b.code_src, 0x8000);
    assert_eq!(b.code_dst, 0x0060_0000);
    assert_eq!(b.code_len, 0x1000);
    assert_eq!(b.cr3, 0x30000);
}

#[test]
fn kernel_tasks_share_address_space() {
    let mut k = booted();
    let r = tick(&mut k, true);
    assert_eq!(r, SchedOutcome::Switched { from: 4, to: 1, cr3_loaded: true });
    let r = tick(&mut k, true);
    assert_eq!(r, SchedOutcome::Switched { from: 1, to: 2, cr3_loaded: false });
    assert_eq!(k.cr3, 0x1000);
}

#[test]
fn syscall_write_logs_and_returns() {
    let mut k = booted();
    let regs = SyscallRegs {
        rax: 16,
        rdi: 1,
        rsi: 2,
        rdx: 3,
        r8: 4,
        r9: 5,
        r10: 6,
        rcx: 0x0060_0040,
        r11: 0x246,
        rbp: 0x0040_ff00,
    };
    let out = syscall_entry(&mut k, regs);
    let log = out.log.unwrap();
    assert_eq!(String::from_utf8(log.text).unwrap(), "sys_write: thread 4: rax 16");
    assert_eq!(log.row, 19);
    assert_eq!(log.col, 0);
    assert_eq!(out.kern_rsp, stack(3).top);
    assert_eq!(out.ret.rax, 16);
    assert_eq!(out.ret.rdi, 1);
    assert_eq!(out.ret.r10, 6);
    assert_eq!(out.ret.rcx, 0x0060_0040);
    assert_eq!(out.ret.r11, 0x246);
    assert_eq!(out.ret.rbx, 0x0040_ff08);
    // the user loop moves on to the next argument values
    let next = SyscallRegs { rdi: out.ret.rdi + 1, ..regs };
    let out = syscall_entry(&mut k, next);
    assert_eq!(out.ret.rdi, 2);
}

#[test]
fn syscall_round_trip_keeps_arguments() {
    let mut k = booted();
    let regs = SyscallRegs {
        rax: 99,
        rdi: 10,
        rsi: 20,
        rdx: 30,
        r8: 40,
        r9: 50,
        r10: 60,
        rcx: 0x1234,
        r11: 0x202,
        rbp: 0x8000,
    };
    let out = syscall_entry(&mut k, regs);
    assert!(out.log.is_none());
    let back = syscall_return(&k);
    assert_eq!(back, out.ret);
    assert_eq!(
        (back.rax, back.rdi, back.rsi, back.rdx, back.r8, back.r9, back.r10),
        (99, 10, 20, 30, 40, 50, 60)
    );
    assert_eq!(k.tasks.tasks[&4].sysctx.rsp, 0x8008);
}

#[test]
fn syscall_user_rsp_wraps() {
    let mut k = booted();
    let regs = SyscallRegs {
        rax: 0,
        rdi: 0,
        rsi: 0,
        rdx: 0,
        r8: 0,
        r9: 0,
        r10: 0,
        rcx: 0,
        r11: 0,
        rbp: usize::MAX - 3,
    };
    let out = syscall_entry(&mut k, regs);
    assert_eq!(out.ret.rbx, 4);
}

#[test]
fn dispatch_serves_write_only() {
    assert_eq!(syscall_dispatch(16), Some(Syscall::Write));
    assert_eq!(syscall_dispatch(0), None);
    assert_eq!(syscall_dispatch(17), None);
}

#[test]
fn sys_write_formats_large_values() {
    let mut k = booted();
    k.tasks.tasks.get_mut(&4).unwrap().sysctx.rax = usize::MAX;
    let line = sys_write(&k);
    assert_eq!(
        String::from_utf8(line.text).unwrap(),
        format!("sys_write: thread 4: rax {}", usize::MAX)
    );
    k.tasks.tasks.get_mut(&4).unwrap().sysctx.rax = 0;
    let line = sys_write(&k);
    assert_eq!(String::from_utf8(line.text).unwrap(), "sys_write: thread 4: rax 0");
}

#[test]
fn kernel_task_stack_is_primed() {
    let p = platform();
    let mut tl = TaskList::new();
    let img = tl.alloc_kernel_task("idle", 0xa000, stack(0), &p);
    let top = stack(0).top;
    assert_eq!(img.pid, 1);
    assert_eq!(img.tls_base, top - 16);
    assert_eq!(img.tls.kern_rsp, top - 16);
    assert_eq!(img.tls.user_rsp, 0);
    assert_eq!(img.frame, vec![0x10, top - 16, 0x0202, 0x08, 0xa000, 0x0010_2000]);
    let t = tl.get_task(1).unwrap();
    assert_eq!(t.ctx.rsp, top - 64);
    assert_eq!(t.ctx.rsp, img.tls_base - 6 * 8);
    assert_eq!(t.ctx.rflags, 0x0202);
    assert_eq!(t.ctx.cr3, 0x1000);
    assert_eq!(t.cr3, Some(0x1000));
    assert!(t.user_stack.is_none());
}

#[test]
fn user_task_areas() {
    let p = platform();
    let mut tl = TaskList::new();
    let img = tl.alloc_task("init", 1, 0x9000, 0x7000, stack(0), &p);
    assert_eq!(img.user_stack.start, 0x0040_0000);
    assert_eq!(img.user_stack.size, 0x10000);
    assert_eq!(img.user_stack.flags.bits, USER | WRITABLE | NO_EXECUTE);
    assert!(img.user_stack.mapped);
    assert_eq!(img.code.size, 0x1000);
    assert_eq!(img.code.flags.bits, USER | WRITABLE);
    assert_eq!(img.tls.user_rsp, 0x0041_0000);
    assert_eq!(img.tls.kern_rsp, stack(0).top - 16);
    let t = tl.get_task(1).unwrap();
    assert_eq!(t.ctx.rsp, stack(0).top - 16);
    assert_eq!(t.ctx.cr3, 0x7000);
    assert_eq!(t.ppid, 1);
}

#[test]
fn ids_increase_within_bound() {
    let p = platform();
    let mut tl = TaskList::new();
    let mut last = 0;
    for i in 0..(MAX_TASK - 1) as usize {
        let id = if i % 2 == 0 {
            tl.alloc_kernel_task("k", 0x1, stack(i), &p).pid
        } else {
            tl.alloc_task("u", 1, 0x1, 0x2000, stack(i), &p).pid
        };
        assert!(id > last);
        assert!(1 <= id && id < MAX_TASK);
        last = id;
    }
    assert_eq!(last, MAX_TASK - 1);
    assert_eq!(tl.next_id, MAX_TASK);
}

#[test]
fn lookups_outside_table_are_none() {
    let k = booted();
    assert!(k.tasks.get_task(0).is_none());
    assert!(k.tasks.get_task(5).is_none());
    assert!(k.tasks.get_task(-1).is_none());
    assert_eq!(k.tasks.get_task(2).unwrap().pid, 2);
    assert!(k.tasks.current(0).is_none());
}

#[test]
fn tss_rsp0_follows_switched_in_task() {
    let p = platform();
    let mut k = Kernel::new(0x1000, regs(0));
    let a = k.tasks.alloc_task("a", 0, 0x7000, 0x20000, stack(0), &p);
    k.tasks.alloc_task("b", 0, 0x8000, 0x30000, stack(1), &p);
    k.current_id = a.pid;
    ret_to_userspace(&mut k, &p);
    k.cpu.rsp = stack(0).top - 0x100;
    tick(&mut k, true);
    assert_eq!(k.current_id, 2);
    assert_eq!(k.tss_rsp0, stack(1).top - 16);
    k.cpu.rsp = stack(1).top - 0x80;
    tick(&mut k, true);
    assert_eq!(k.current_id, 1);
    assert_eq!(k.tasks.tasks[&1].ctx.rsp, stack(0).top - 0x100);
    assert_eq!(k.tss_rsp0, stack(0).top - 0x100);
}

#[test]
fn syscall_leaves_other_state_alone() {
    let mut k = booted();
    let (cr3, tss, gs, ticks) = (k.cr3, k.tss_rsp0, k.gs_base, k.timer_ticks);
    let ctx = k.tasks.tasks[&4].ctx;
    let regs = SyscallRegs { rax: 16, rdi: 1, rsi: 0, rdx: 0, r8: 0, r9: 0, r10: 0, rcx: 0, r11: 0, rbp: 0 };
    syscall_entry(&mut k, regs);
    assert_eq!((k.cr3, k.tss_rsp0, k.gs_base, k.timer_ticks), (cr3, tss, gs, ticks));
    assert_eq!(k.tasks.tasks[&4].ctx, ctx);
    assert_eq!(k.tasks.tasks[&1].sysctx.rax, 0);
}
