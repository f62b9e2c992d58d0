use vstd::prelude::*;
use vstd::arithmetic::div_mod::lemma_small_mod;
use crate::task::{
    Context, Platform, ProcId, Task, TaskList, KernelStackImage, UserTaskImage, Stack, MAX_TASK,
    TLS_SEGMENT_SIZE, kernel_task_made, kernel_image_made, user_task_made, user_image_made,
};

verus! {

/// The interrupt-enable bit of RFLAGS.
pub const IF_FLAG: usize = 0x200;

/// The CPU state that a context switch saves and restores.
#[derive(Debug, Clone, Copy, PartialEq, Eq, Structural)]
pub struct CpuRegs {
    pub rflags: usize,
    pub rbp: usize,
    pub rbx: usize,
    pub rsp: usize,
    pub r12: usize,
    pub r13: usize,
    pub r14: usize,
    pub r15: usize,
}

/// `ctx` after the registers `regs` were saved into it; the address space stays.
pub open spec fn saved_context(ctx: Context, regs: CpuRegs) -> Context {
    Context {
        rflags: regs.rflags,
        cr3: ctx.cr3,
        rbp: regs.rbp,
        rbx: regs.rbx,
        rsp: regs.rsp,
        r12: regs.r12,
        r13: regs.r13,
        r14: regs.r14,
        r15: regs.r15,
    }
}

/// The registers after `ctx` was loaded.
pub open spec fn loaded_regs(ctx: Context) -> CpuRegs {
    CpuRegs {
        rflags: ctx.rflags,
        rbp: ctx.rbp,
        rbx: ctx.rbx,
        rsp: ctx.rsp,
        r12: ctx.r12,
        r13: ctx.r13,
        r14: ctx.r14,
        r15: ctx.r15,
    }
}

/// Saves the callee-saved registers, flags and stack pointer of the CPU into `current`
/// and loads those of `next`.
pub fn switch_to(current: &mut Context, next: &Context, cpu: &mut CpuRegs)
    ensures
        *final(current) == saved_context(*old(current), *old(cpu)),
        *final(cpu) == loaded_regs(*next),
{
    current.rflags = cpu.rflags;
    current.rbp = cpu.rbp;
    current.rbx = cpu.rbx;
    current.r12 = cpu.r12;
    current.r13 = cpu.r13;
    current.r14 = cpu.r14;
    current.r15 = cpu.r15;
    current.rsp = cpu.rsp;

    cpu.rbx = next.rbx;
    cpu.r12 = next.r12;
    cpu.r13 = next.r13;
    cpu.r14 = next.r14;
    cpu.r15 = next.r15;
    cpu.rsp = next.rsp;
    cpu.rflags = next.rflags;
    cpu.rbp = next.rbp;
}

/// The task that follows `id` in round-robin order over the ids `1 .. next_id`.
pub open spec fn next_in_turn(id: int, next_id: int) -> int {
    if id + 1 >= next_id {
        1
    } else {
        id + 1
    }
}

/// The round-robin successor of `id`, wrapping to `1` at the allocation counter.
pub fn next_task_id(id: ProcId, next_id: ProcId) -> (r: ProcId)
    requires
        1 <= id < next_id <= MAX_TASK,
    ensures
        r == next_in_turn(id as int, next_id as int),
        1 <= r < next_id,
{
    if id + 1 >= next_id {
        1
    } else {
        id + 1
    }
}

/// What one call of the scheduler did.
#[derive(Debug, Clone, Copy, PartialEq, Eq, Structural)]
pub enum SchedOutcome {
    /// No task runs yet: multitasking has not started.
    NotStarted,
    /// The next task was locked elsewhere: no switch this tick (logged at Critical).
    Skipped { next: ProcId },
    /// The CPU now runs `to`; `cr3_loaded` tells whether CR3 was written first.
    Switched { from: ProcId, to: ProcId, cr3_loaded: bool },
}

/// What one timer interrupt did.
#[derive(Debug, Clone, Copy, PartialEq, Eq, Structural)]
pub struct TickOutcome {
    /// the IRQ line acknowledged to the interrupt controller
    pub eoi_irq: u8,
    pub sched: SchedOutcome,
}

/// Whether the handling of a tick wrote to the console.
pub open spec fn console_used(r: TickOutcome) -> bool {
    r.sched is Skipped
}

/// What one scheduler step does to the kernel `pre`, giving `post` and outcome `r`;
/// the tick counter is not part of it.
pub open spec fn sched_step(pre: &Kernel, post: &Kernel, next_free: bool, r: SchedOutcome) -> bool {
    if pre.current_id == 0 {
        r == SchedOutcome::NotStarted && post.same_but_ticks(pre)
    } else {
        let id = pre.current_id as int;
        let nid = next_in_turn(id, pre.tasks.next_id as int);
        let (cur, next) = (pre.tasks.task(id), pre.tasks.task(nid));
        if !next_free {
            r == (SchedOutcome::Skipped { next: nid as ProcId }) && post.same_but_ticks(pre)
        } else {
            &&& r == (SchedOutcome::Switched {
                from: id as ProcId,
                to: nid as ProcId,
                cr3_loaded: cur.ctx.cr3 != next.ctx.cr3,
            })
            &&& post.current_id == nid
            &&& post.only_context_changed(pre, id)
            &&& post.tasks.task(id).ctx == saved_context(cur.ctx, pre.cpu)
            &&& post.cpu == loaded_regs(next.ctx)
            &&& post.cr3 == (if cur.ctx.cr3 != next.ctx.cr3 { next.ctx.cr3 } else { pre.cr3 })
            &&& post.tss_rsp0 == next.ctx.rsp
            &&& post.gs_base == pre.gs_base
        }
    }
}

/// The first entry of a user task into ring 3: the frame that `sysretq` consumes
/// (`rip` in RCX, `rflags` in R11, `rsp` through RBX), the selectors, and the address space.
#[derive(Debug, Clone, Copy, PartialEq, Eq, Structural)]
pub struct UserEntry {
    pub rip: usize,
    pub cs: u16,
    pub rflags: usize,
    pub rsp: usize,
    pub ss: u16,
    pub cr3: usize,
    pub gs_base: usize,
    pub tss_rsp0: usize,
}

/// The first entry into ring 3 of the user task `t`.
pub open spec fn user_entry_of(t: &Task, platform: &Platform) -> UserEntry {
    UserEntry {
        rip: platform.user_code_start,
        cs: platform.user_cs_sel,
        rflags: t.ctx.rflags,
        rsp: (platform.user_stack_end + 1) as usize,
        ss: platform.user_ds_sel,
        cr3: t.ctx.cr3,
        gs_base: t.tls_base() as usize,
        tss_rsp0: t.ctx.rsp,
    }
}

/// The registers that a first switch into a task with context `ctx` loads.
pub fn regs_of(ctx: &Context) -> (r: CpuRegs)
    ensures
        r == loaded_regs(*ctx),
{
    CpuRegs {
        rflags: ctx.rflags,
        rbp: ctx.rbp,
        rbx: ctx.rbx,
        rsp: ctx.rsp,
        r12: ctx.r12,
        r13: ctx.r13,
        r14: ctx.r14,
        r15: ctx.r15,
    }
}

/// What `init` leaves for the caller to write: the stacks of the three kernel threads,
/// the setup of the user task, and its entry into ring 3.
pub struct InitImage {
    pub kernel_tasks: Vec<KernelStackImage>,
    pub user_task: UserTaskImage,
    pub entry: UserEntry,
}

/// What one timer interrupt does to the kernel `pre`, giving `post` and outcome `r`.
pub open spec fn tick_step(pre: &Kernel, post: &Kernel, next_free: bool, r: TickOutcome) -> bool {
    &&& r.eoi_irq == 0
    &&& post.timer_ticks == (pre.timer_ticks + 1) % (usize::MAX + 1)
    &&& sched_step(pre, post, next_free, r.sched)
}

/// Over a run of timer interrupts that does not wrap the counter, every later state has
/// seen at least one more tick than every earlier one.
pub proof fn lemma_ticks_advance(ks: Seq<Kernel>, frees: Seq<bool>, rs: Seq<TickOutcome>, a: int, b: int)
    requires
        ks.len() == rs.len() + 1,
        frees.len() == rs.len(),
        forall|k: int| 0 <= k < rs.len() ==> tick_step(&ks[k], &ks[k + 1], frees[k], #[trigger] rs[k]),
        ks[0].timer_ticks + rs.len() <= usize::MAX,
        0 <= a < b <= rs.len(),
    ensures
        ks[b].timer_ticks >= ks[a].timer_ticks + 1,
    decreases b,
{
    lemma_ticks_count(ks, frees, rs, a);
    lemma_ticks_count(ks, frees, rs, b);
}

proof fn lemma_ticks_count(ks: Seq<Kernel>, frees: Seq<bool>, rs: Seq<TickOutcome>, n: int)
    requires
        ks.len() == rs.len() + 1,
        frees.len() == rs.len(),
        forall|k: int| 0 <= k < rs.len() ==> tick_step(&ks[k], &ks[k + 1], frees[k], #[trigger] rs[k]),
        ks[0].timer_ticks + rs.len() <= usize::MAX,
        0 <= n <= rs.len(),
    ensures
        ks[n].timer_ticks == ks[0].timer_ticks + n,
    decreases n,
{
    if n > 0 {
        lemma_ticks_count(ks, frees, rs, n - 1);
        assert(tick_step(&ks[n - 1], &ks[n], frees[n - 1], rs[n - 1]));
        lemma_small_mod((ks[n - 1].timer_ticks + 1) as nat, (usize::MAX + 1) as nat);
    }
}

/// The process-wide state of the kernel core: the task table, the current task, the
/// tick counter, and the CPU state that scheduling and user entry touch.
pub struct Kernel {
    pub tasks: TaskList,
    /// id of the task that runs on the CPU; `0` before multitasking starts
    pub current_id: ProcId,
    pub timer_ticks: usize,
    pub cpu: CpuRegs,
    /// the CR3 register
    pub cr3: usize,
    /// `privilege_stack_table[0]` of the TSS
    pub tss_rsp0: usize,
    /// the `IA32_GS_BASE` register
    pub gs_base: usize,
}

impl Kernel {
    /// A well-formed table and a current id that is `0` or names a task.
    pub open spec fn tables_wf(&self) -> bool {
        &&& self.tasks.wf()
        &&& (self.current_id == 0 || self.tasks.has(self.current_id as int))
    }

    /// `tables_wf`, and once a task runs, `privilege_stack_table[0]` holds that task's
    /// saved kernel stack pointer, so that it is in place whenever the task goes back
    /// to ring 3 through `sysretq`.
    pub open spec fn wf(&self) -> bool {
        &&& self.tables_wf()
        &&& (self.current_id != 0 ==> self.tss_rsp0 == self.tasks.task(self.current_id as int).ctx.rsp)
    }

    /// Whether the CPU runs with interrupts disabled.
    pub open spec fn interrupts_off(&self) -> bool {
        self.cpu.rflags & IF_FLAG == 0
    }

    /// The kernel before any task exists, running on the kernel's page tables.
    pub fn new(kernel_cr3: usize, cpu: CpuRegs) -> (r: Kernel)
        ensures
            r.wf(),
            r.tasks.next_id == 1,
            r.current_id == 0,
            r.timer_ticks == 0,
            r.cpu == cpu,
            r.cr3 == kernel_cr3,
            r.tss_rsp0 == 0,
            r.gs_base == 0,
    {
        Kernel {
            tasks: TaskList::new(),
            current_id: 0,
            timer_ticks: 0,
            cpu,
            cr3: kernel_cr3,
            tss_rsp0: 0,
            gs_base: 0,
        }
    }

    /// Whether `self` equals `old` but perhaps for the tick counter.
    pub open spec fn same_but_ticks(&self, old: &Kernel) -> bool {
        &&& self.tasks == old.tasks
        &&& self.current_id == old.current_id
        &&& self.cpu == old.cpu
        &&& self.cr3 == old.cr3
        &&& self.tss_rsp0 == old.tss_rsp0
        &&& self.gs_base == old.gs_base
    }

    /// Whether the task table differs from `old` only in the saved context of `id`.
    pub open spec fn only_context_changed(&self, old: &Kernel, id: int) -> bool {
        &&& self.tasks.next_id == old.tasks.next_id
        &&& forall|i: int| #![auto] old.tasks.has(i) && i != id ==> self.tasks.task(i) == old.tasks.task(i)
        &&& {
            let (t, o) = (self.tasks.task(id), old.tasks.task(id));
            &&& t.pid == o.pid && t.ppid == o.ppid && t.name == o.name && t.cr3 == o.cr3
            &&& t.kern_stack == o.kern_stack && t.user_stack == o.user_stack && t.code == o.code
            &&& t.sysctx == o.sysctx && t.state == o.state
        }
    }
}

/// One round-robin step, run from the timer interrupt with interrupts disabled.
/// `next_free` tells whether the next task's lock could be taken; when it could not,
/// nothing changes this tick. A switch writes CR3 only when the two address spaces
/// differ, points `privilege_stack_table[0]` at the next task's saved stack pointer, and
/// stores the new id in `current_id`.
pub fn sched(kernel: &mut Kernel, next_free: bool) -> (r: SchedOutcome)
    requires
        old(kernel).wf(),
        old(kernel).interrupts_off(),
        old(kernel).current_id == 0 || old(kernel).tasks.next_id >= 3,
    ensures
        final(kernel).wf(),
        final(kernel).timer_ticks == old(kernel).timer_ticks,
        sched_step(old(kernel), final(kernel), next_free, r),
{
    let id = kernel.current_id;
    if id == 0 {
        return SchedOutcome::NotStarted;
    }
    let nid = next_task_id(id, kernel.tasks.next_id);
    if !next_free {
        return SchedOutcome::Skipped { next: nid };
    }
    let next_ctx = kernel.tasks.task_ref(nid).ctx;
    let cur_cr3 = kernel.tasks.task_ref(id).ctx.cr3;
    let cr3_loaded = cur_cr3 != next_ctx.cr3;
    kernel.current_id = nid;
    kernel.tss_rsp0 = next_ctx.rsp;
    if cr3_loaded {
        kernel.cr3 = next_ctx.cr3;
    }
    let mut cur = kernel.tasks.task_ref(id).ctx;
    switch_to(&mut cur, &next_ctx, &mut kernel.cpu);
    kernel.tasks.set_context(id, cur);
    SchedOutcome::Switched { from: id, to: nid, cr3_loaded }
}

/// The timer interrupt: acknowledges IRQ 0, counts the tick (wrapping like the atomic
/// counter it models), then runs one scheduler step. It writes to the console only on
/// a skipped switch, and then with interrupts still disabled.
pub fn timer_handler(kernel: &mut Kernel, next_free: bool) -> (r: TickOutcome)
    requires
        old(kernel).wf(),
        old(kernel).interrupts_off(),
        old(kernel).current_id == 0 || old(kernel).tasks.next_id >= 3,
    ensures
        final(kernel).wf(),
        tick_step(old(kernel), final(kernel), next_free, r),
        console_used(r) ==> old(kernel).interrupts_off() && final(kernel).interrupts_off(),
{
    let eoi_irq: u8 = 0;
    kernel.timer_ticks = kernel.timer_ticks.wrapping_add(1);
    let ghost mid = *kernel;
    assert(mid.same_but_ticks(old(kernel)));
    let sched = sched(kernel, next_free);
    assert(sched_step(&mid, final(kernel), next_free, sched));
    assert(sched_step(old(kernel), final(kernel), next_free, sched));
    TickOutcome { eoi_irq, sched }
}

/// Prepares the first entry of the current task, a user task, into ring 3 at the
/// start of its code area with the stack pointer just above the user stack: points
/// `privilege_stack_table[0]` at the task's saved kernel stack pointer, GS at its
/// `TLSSegment`, and CR3 at its address space.
pub fn ret_to_userspace(kernel: &mut Kernel, platform: &Platform) -> (r: UserEntry)
    requires
        old(kernel).tables_wf(),
        old(kernel).current_id != 0,
        platform.wf(),
    ensures
        final(kernel).wf(),
        r == user_entry_of(old(kernel).tasks.task(old(kernel).current_id as int), platform),
        final(kernel).tss_rsp0 == r.tss_rsp0,
        final(kernel).gs_base == r.gs_base,
        final(kernel).cr3 == r.cr3,
        final(kernel).tasks == old(kernel).tasks,
        final(kernel).current_id == old(kernel).current_id,
        final(kernel).timer_ticks == old(kernel).timer_ticks,
        final(kernel).cpu == old(kernel).cpu,
{
    let t = kernel.tasks.task_ref(kernel.current_id);
    let ctx = t.ctx;
    let tls_base = t.kern_stack.unwrap().top() - TLS_SEGMENT_SIZE;
    kernel.tss_rsp0 = ctx.rsp;
    kernel.gs_base = tls_base;
    kernel.cr3 = ctx.cr3;
    UserEntry {
        rip: platform.user_code_start,
        cs: platform.user_cs_sel,
        rflags: ctx.rflags,
        rsp: platform.user_stack_end + 1,
        ss: platform.user_ds_sel,
        cr3: ctx.cr3,
        gs_base: tls_base,
        tss_rsp0: ctx.rsp,
    }
}

/// Starts multitasking: allocates the kernel threads `idle`, `kthread1` and `kthread2`
/// (ids 1 to 3, entered at `idle_rip`, `thread1_rip`, `thread2_rip`) and the user task
/// `init` (id 4, child of 1, code from `user_rip`, address space `user_cr3`), each on the
/// kernel stack of the same index in `stacks`; makes `init` current and prepares its
/// entry into ring 3.
pub fn init(
    kernel: &mut Kernel,
    platform: &Platform,
    idle_rip: usize,
    thread1_rip: usize,
    thread2_rip: usize,
    user_rip: usize,
    user_cr3: usize,
    stacks: &Vec<Stack>,
) -> (r: InitImage)
    requires
        old(kernel).wf(),
        old(kernel).tasks.next_id == 1,
        platform.wf(),
        stacks.len() == 4,
        forall|i: int| 0 <= i < 4 ==> #[trigger] stacks[i].is_task_stack(),
    ensures
        final(kernel).wf(),
        final(kernel).tasks.next_id == 5,
        final(kernel).current_id == 4,
        kernel_task_made(final(kernel).tasks.task(1), 1, "idle"@, stacks[0], platform),
        kernel_task_made(final(kernel).tasks.task(2), 2, "kthread1"@, stacks[1], platform),
        kernel_task_made(final(kernel).tasks.task(3), 3, "kthread2"@, stacks[2], platform),
        user_task_made(final(kernel).tasks.task(4), 4, "init"@, 1, user_cr3, stacks[3], platform),
        r.kernel_tasks@.len() == 3,
        kernel_image_made(&r.kernel_tasks@[0], 1, idle_rip, stacks[0], platform),
        kernel_image_made(&r.kernel_tasks@[1], 2, thread1_rip, stacks[1], platform),
        kernel_image_made(&r.kernel_tasks@[2], 3, thread2_rip, stacks[2], platform),
        user_image_made(&r.user_task, 4, user_rip, user_cr3, stacks[3], platform),
        r.entry == user_entry_of(final(kernel).tasks.task(4), platform),
        final(kernel).tss_rsp0 == r.entry.tss_rsp0,
        final(kernel).gs_base == r.entry.gs_base,
        final(kernel).cr3 == user_cr3,
        final(kernel).timer_ticks == old(kernel).timer_ticks,
        final(kernel).cpu == old(kernel).cpu,
{
    let mut kernel_tasks: Vec<KernelStackImage> = Vec::new();
    let img = kernel.tasks.alloc_kernel_task("idle", idle_rip, stacks[0], platform);
    kernel_tasks.push(img);
    let img = kernel.tasks.alloc_kernel_task("kthread1", thread1_rip, stacks[1], platform);
    kernel_tasks.push(img);
    let img = kernel.tasks.alloc_kernel_task("kthread2", thread2_rip, stacks[2], platform);
    kernel_tasks.push(img);
    let user_task = kernel.tasks.alloc_task("init", 1, user_rip, user_cr3, stacks[3], platform);
    kernel.current_id = user_task.pid;
    let entry = ret_to_userspace(kernel, platform);
    InitImage { kernel_tasks, user_task, entry }
}

} // verus!
