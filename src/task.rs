use vstd::prelude::*;
use std::collections::BTreeMap;

verus! {

broadcast use vstd::laws_cmp::group_laws_cmp;

/// Identifier of a task; `0` stands for "no current task".
pub type ProcId = isize;

/// Task ids are allocated from `1` up to, but excluding, this bound.
pub const MAX_TASK: isize = 64;

/// Size in bytes of the kernel stack given to every task.
pub const KERN_STACK_SIZE: usize = 8192;

/// Size in bytes of a machine word.
pub const WORD_SIZE: usize = 8;

/// Size in bytes of a `TLSSegment` record (two packed words).
pub const TLS_SEGMENT_SIZE: usize = 16;

/// Size in bytes of the interrupt frame that `iretq` pops (five words).
pub const EXCEPTION_FRAME_SIZE: usize = 40;

/// Flags a task starts with: interrupts enabled (IF) plus the reserved bit 1.
pub const INITIAL_RFLAGS: usize = 0x0202;

/// Size in bytes of the code area of a user task.
pub const USER_CODE_SIZE: usize = 0x1000;

#[derive(Debug, Clone, Copy, PartialEq, Eq, Structural)]
pub enum TaskState {
    Unused,
    Created,
    Ready,
    Running,
    Sleep,
    Zombie,
}

/// Registers saved by a context switch.
#[derive(Debug, Clone, Copy, PartialEq, Eq, Structural)]
pub struct Context {
    pub rflags: usize,
    /// physical address of the task's top-level page table
    pub cr3: usize,
    pub rbp: usize,
    pub rbx: usize,
    pub rsp: usize,
    pub r12: usize,
    pub r13: usize,
    pub r14: usize,
    pub r15: usize,
}

impl Context {
    /// The all-zero context.
    pub open spec fn zeroed() -> Context {
        Context { rflags: 0, cr3: 0, rbp: 0, rbx: 0, rsp: 0, r12: 0, r13: 0, r14: 0, r15: 0 }
    }

    pub fn new() -> (r: Context)
        ensures
            r == Context::zeroed(),
    {
        Context { rflags: 0, cr3: 0, rbp: 0, rbx: 0, rsp: 0, r12: 0, r13: 0, r14: 0, r15: 0 }
    }
}

/// User registers captured on `syscall` and restored by `sysretq`.
#[derive(Debug, Clone, Copy, PartialEq, Eq, Structural)]
pub struct SyscallContext {
    pub rip: usize,
    pub rsp: usize,
    pub rflags: usize,
    pub rax: usize,
    pub rdi: usize,
    pub rsi: usize,
    pub rdx: usize,
    pub r8: usize,
    pub r9: usize,
    pub r10: usize,
}

impl SyscallContext {
    /// The all-zero register record.
    pub open spec fn zeroed() -> SyscallContext {
        SyscallContext { rip: 0, rsp: 0, rflags: 0, rax: 0, rdi: 0, rsi: 0, rdx: 0, r8: 0, r9: 0, r10: 0 }
    }

    pub fn empty() -> (r: SyscallContext)
        ensures
            r == SyscallContext::zeroed(),
    {
        SyscallContext { rip: 0, rsp: 0, rflags: 0, rax: 0, rdi: 0, rsi: 0, rdx: 0, r8: 0, r9: 0, r10: 0 }
    }
}

/// Page-table entry flags, as the bits of an x86_64 entry.
#[derive(Debug, Clone, Copy, PartialEq, Eq, Structural)]
pub struct EntryFlags {
    pub bits: u64,
}

pub const PRESENT: u64 = 1;
pub const WRITABLE: u64 = 2;
pub const USER: u64 = 4;
pub const NO_EXECUTE: u64 = 0x8000_0000_0000_0000;

impl EntryFlags {
    /// Whether every bit of `bits` is set in `self`.
    pub fn contains(&self, bits: u64) -> (r: bool)
        ensures
            r == (self.bits & bits == bits),
    {
        self.bits & bits == bits
    }
}

/// Half-open range of virtual addresses `[start, end)` whose pages are mapped together.
#[derive(Debug, Clone, Copy, PartialEq, Eq, Structural)]
pub struct PageRange {
    pub start: usize,
    pub end: usize,
}

/// A contiguous range to be mapped into a task's address space with the given flags.
/// `mapped` is set once every page of `[start, start + size)` has been mapped.
#[derive(Debug, Clone, Copy, PartialEq, Eq, Structural)]
pub struct VirtualMemoryArea {
    pub start: usize,
    pub size: usize,
    pub mapped: bool,
    pub flags: EntryFlags,
}

impl VirtualMemoryArea {
    pub open spec fn wf(&self) -> bool {
        self.start + self.size <= usize::MAX
    }

    /// A not yet mapped area; the mapper sets PRESENT itself, so `flags` must not hold it.
    pub fn new(start: usize, size: usize, flags: EntryFlags) -> (r: VirtualMemoryArea)
        requires
            flags.bits & PRESENT != PRESENT,
        ensures
            r == (VirtualMemoryArea { start, size, mapped: false, flags }),
    {
        VirtualMemoryArea { start, size, mapped: false, flags }
    }

    /// The address range that mapping this area covers.
    pub fn get_pages(&self) -> (r: PageRange)
        requires
            self.wf(),
        ensures
            r.start == self.start,
            r.end == self.start + self.size,
    {
        PageRange { start: self.start, end: self.start + self.size }
    }
}

/// A request to the mapper: map every page of `pages` with `flags`.
#[derive(Debug, Clone, Copy, PartialEq, Eq, Structural)]
pub struct MapRequest {
    pub pages: PageRange,
    pub flags: EntryFlags,
}

impl VirtualMemoryArea {
    /// What mapping this area into an address space asks of the mapper.
    pub fn map(&self) -> (r: MapRequest)
        requires
            self.wf(),
        ensures
            r == (MapRequest { pages: PageRange { start: self.start, end: (self.start + self.size) as usize }, flags: self.flags }),
    {
        MapRequest { pages: self.get_pages(), flags: self.flags }
    }
}

/// Record at the top of every kernel stack, reached through GS by the syscall entry.
#[derive(Debug, Clone, Copy, PartialEq, Eq, Structural)]
pub struct TLSSegment {
    pub user_rsp: usize,
    pub kern_rsp: usize,
}

impl TLSSegment {
    pub fn empty() -> (r: TLSSegment)
        ensures
            r == (TLSSegment { user_rsp: 0, kern_rsp: 0 }),
    {
        TLSSegment { user_rsp: 0, kern_rsp: 0 }
    }

    pub fn new(kern_rsp: usize, user_rsp: usize) -> (r: TLSSegment)
        ensures
            r == (TLSSegment { user_rsp, kern_rsp }),
    {
        TLSSegment { user_rsp, kern_rsp }
    }
}

/// A kernel stack: the addresses `[bottom, top)`.
#[derive(Debug, Clone, Copy, PartialEq, Eq, Structural)]
pub struct Stack {
    pub top: usize,
    pub bottom: usize,
}

impl Stack {
    pub fn new(top: usize, bottom: usize) -> (r: Stack)
        ensures
            r == (Stack { top, bottom }),
    {
        Stack { top, bottom }
    }

    pub fn top(&self) -> (r: usize)
        ensures
            r == self.top,
    {
        self.top
    }

    /// A stack as task creation allocates it.
    pub open spec fn is_task_stack(&self) -> bool {
        self.top == self.bottom + KERN_STACK_SIZE
    }
}


/// Facts about the machine that task creation relies on: the kernel's address space, the
/// segment selectors recorded when the descriptor tables were built, the address of the
/// first-dispatch trampoline, and the user half of the address-space map.
#[derive(Debug, Clone, Copy, PartialEq, Eq, Structural)]
pub struct Platform {
    /// physical address of the kernel's top-level page table
    pub kernel_cr3: usize,
    pub kern_cs_sel: u16,
    pub kern_ds_sel: u16,
    pub user_cs_sel: u16,
    pub user_ds_sel: u16,
    /// address of the trampoline that ends in `iretq` on a kernel task's first dispatch
    pub start_task: usize,
    /// first address of the user stack
    pub user_stack_start: usize,
    /// last address of the user stack (inclusive)
    pub user_stack_end: usize,
    /// first address of the user code area
    pub user_code_start: usize,
}

impl Platform {
    pub open spec fn wf(&self) -> bool {
        &&& self.user_stack_start <= self.user_stack_end < usize::MAX
        &&& self.user_code_start + USER_CODE_SIZE <= usize::MAX
    }
}

#[derive(Debug)]
pub struct Task {
    pub pid: ProcId,
    pub ppid: ProcId,
    pub name: Option<String>,
    /// physical address of the root of the task's address space
    pub cr3: Option<usize>,
    pub kern_stack: Option<Stack>,
    pub user_stack: Option<VirtualMemoryArea>,
    pub code: Option<VirtualMemoryArea>,
    pub ctx: Context,
    pub sysctx: SyscallContext,
    pub state: TaskState,
}

impl Task {
    pub fn empty() -> (r: Task)
        ensures
            r.pid == 0,
            r.ppid == 0,
            r.name.is_none(),
            r.cr3.is_none(),
            r.kern_stack.is_none(),
            r.user_stack.is_none(),
            r.code.is_none(),
            r.ctx == Context::zeroed(),
            r.sysctx == SyscallContext::zeroed(),
            r.state == TaskState::Unused,
    {
        Task {
            pid: 0,
            ppid: 0,
            name: None,
            cr3: None,
            kern_stack: None,
            user_stack: None,
            code: None,
            ctx: Context::new(),
            sysctx: SyscallContext::empty(),
            state: TaskState::Unused,
        }
    }

    /// Address of the `TLSSegment` at the top of the task's kernel stack.
    pub open spec fn tls_base(&self) -> int {
        self.kern_stack.unwrap().top - TLS_SEGMENT_SIZE
    }

    /// What every task in the table satisfies: an address space whose root `ctx.cr3`
    /// names, and an 8 KiB kernel stack.
    pub open spec fn wf(&self) -> bool {
        &&& self.cr3 == Some(self.ctx.cr3)
        &&& self.kern_stack.is_some()
        &&& self.kern_stack.unwrap().is_task_stack()
    }

    /// A kernel thread: no user areas, shares the kernel's page tables.
    pub open spec fn is_kernel_task(&self) -> bool {
        self.user_stack.is_none() && self.code.is_none()
    }
}

/// What the caller writes at the top of a new kernel task's kernel stack: the
/// `TLSSegment` at `tls_base`, and below it the bootstrap frame, `frame[k - 1]`
/// going to the word at `tls_base - 8 * k`.
#[derive(Debug)]
pub struct KernelStackImage {
    pub pid: ProcId,
    pub tls_base: usize,
    pub tls: TLSSegment,
    pub frame: Vec<usize>,
}

/// What the caller does to finish a new user task: map `user_stack` and `code` into the
/// address space `cr3`, copy `code_len` bytes from `code_src` to `code_dst` inside it,
/// and write `tls` at `tls_base` on the kernel stack.
#[derive(Debug)]
pub struct UserTaskImage {
    pub pid: ProcId,
    pub cr3: usize,
    pub user_stack: VirtualMemoryArea,
    pub code: VirtualMemoryArea,
    pub code_src: usize,
    pub code_dst: usize,
    pub code_len: usize,
    pub tls_base: usize,
    pub tls: TLSSegment,
}

/// The kernel thread that `alloc_kernel_task` builds with id `pid` on `stack`.
pub open spec fn kernel_task_made(t: &Task, pid: ProcId, name: Seq<char>, stack: Stack, platform: &Platform) -> bool {
    &&& t.pid == pid
    &&& t.ppid == 0
    &&& t.name.is_some() && t.name.unwrap()@ == name
    &&& t.state == TaskState::Created
    &&& t.kern_stack == Some(stack)
    &&& t.is_kernel_task()
    &&& t.cr3 == Some(platform.kernel_cr3)
    &&& t.ctx == (Context {
        rflags: INITIAL_RFLAGS,
        cr3: platform.kernel_cr3,
        rsp: (stack.top - TLS_SEGMENT_SIZE - 6 * WORD_SIZE) as usize,
        ..Context::zeroed()
    })
    &&& t.sysctx == SyscallContext::zeroed()
}

/// The stack contents that `alloc_kernel_task` hands back for a thread entered at `rip`.
pub open spec fn kernel_image_made(img: &KernelStackImage, pid: ProcId, rip: usize, stack: Stack, platform: &Platform) -> bool {
    &&& img.pid == pid
    &&& img.tls_base == stack.top - TLS_SEGMENT_SIZE
    &&& img.tls == (TLSSegment { user_rsp: 0, kern_rsp: img.tls_base })
    &&& img.frame@ == seq![
        platform.kern_ds_sel as usize,
        img.tls_base,
        INITIAL_RFLAGS,
        platform.kern_cs_sel as usize,
        rip,
        platform.start_task,
    ]
}

/// The user stack area of every user task.
pub open spec fn user_stack_area(platform: &Platform) -> VirtualMemoryArea {
    VirtualMemoryArea {
        start: platform.user_stack_start,
        size: (platform.user_stack_end - platform.user_stack_start + 1) as usize,
        mapped: true,
        flags: EntryFlags { bits: USER | WRITABLE | NO_EXECUTE },
    }
}

/// The code area of every user task.
pub open spec fn user_code_area(platform: &Platform) -> VirtualMemoryArea {
    VirtualMemoryArea {
        start: platform.user_code_start,
        size: USER_CODE_SIZE,
        mapped: true,
        flags: EntryFlags { bits: USER | WRITABLE },
    }
}

/// The user task that `alloc_task` builds with id `pid` in address space `cr3` on `stack`.
pub open spec fn user_task_made(
    t: &Task,
    pid: ProcId,
    name: Seq<char>,
    parent: ProcId,
    cr3: usize,
    stack: Stack,
    platform: &Platform,
) -> bool {
    &&& t.pid == pid
    &&& t.ppid == parent
    &&& t.name.is_some() && t.name.unwrap()@ == name
    &&& t.state == TaskState::Created
    &&& t.kern_stack == Some(stack)
    &&& t.user_stack == Some(user_stack_area(platform))
    &&& t.code == Some(user_code_area(platform))
    &&& t.cr3 == Some(cr3)
    &&& t.ctx == (Context {
        rflags: INITIAL_RFLAGS,
        cr3,
        rsp: (stack.top - TLS_SEGMENT_SIZE) as usize,
        ..Context::zeroed()
    })
    &&& t.sysctx == SyscallContext::zeroed()
}

/// The setup that `alloc_task` hands back for a user task whose code comes from `rip`.
pub open spec fn user_image_made(
    img: &UserTaskImage,
    pid: ProcId,
    rip: usize,
    cr3: usize,
    stack: Stack,
    platform: &Platform,
) -> bool {
    &&& img.pid == pid
    &&& img.cr3 == cr3
    &&& img.user_stack == user_stack_area(platform)
    &&& img.code == user_code_area(platform)
    &&& img.code_src == rip
    &&& img.code_dst == platform.user_code_start
    &&& img.code_len == USER_CODE_SIZE
    &&& img.tls_base == stack.top - TLS_SEGMENT_SIZE
    &&& img.tls == (TLSSegment { user_rsp: (platform.user_stack_end + 1) as usize, kern_rsp: img.tls_base })
}

/// What an allocation does to the table `pre`, giving `post` and the new id `pid`: the
/// next id is handed out, the counter moves on, and the tasks already there stay.
pub open spec fn alloc_step(pre: &TaskList, post: &TaskList, pid: ProcId) -> bool {
    &&& post.wf()
    &&& pid == pre.next_id
    &&& 1 <= pid < MAX_TASK
    &&& post.next_id == pre.next_id + 1
    &&& forall|i: int| pre.has(i) ==> post.task(i) == pre.task(i)
}

/// Ids handed out by a chain of allocations lie in `[1, MAX_TASK)` and strictly increase.
pub proof fn lemma_ids_increase(ls: Seq<TaskList>, ids: Seq<ProcId>, a: int, b: int)
    requires
        ls.len() == ids.len() + 1,
        forall|k: int| 0 <= k < ids.len() ==> alloc_step(&ls[k], &ls[k + 1], #[trigger] ids[k]),
        0 <= a < b < ids.len(),
    ensures
        1 <= ids[a] < ids[b] < MAX_TASK,
    decreases b - a,
{
    assert(alloc_step(&ls[a], &ls[a + 1], ids[a]));
    assert(alloc_step(&ls[b], &ls[b + 1], ids[b]));
    if b > a + 1 {
        lemma_ids_increase(ls, ids, a, b - 1);
        assert(alloc_step(&ls[b - 1], &ls[b], ids[b - 1]));
    }
}

/// The task table: an ordered map from id to task, holding exactly the ids `1 .. next_id`.
pub struct TaskList {
    pub tasks: BTreeMap<ProcId, Task>,
    pub next_id: ProcId,
}

impl TaskList {
    pub open spec fn wf(&self) -> bool {
        &&& 1 <= self.next_id <= MAX_TASK
        &&& forall|id: ProcId| #[trigger] self.tasks@.contains_key(id) <==> self.has(id as int)
        &&& forall|id: ProcId| self.tasks@.contains_key(id) ==> #[trigger] self.tasks@[id].pid == id
        &&& forall|id: ProcId| self.tasks@.contains_key(id) ==> #[trigger] self.tasks@[id].wf()
    }

    /// Whether `id` names an allocated task.
    pub open spec fn has(&self, id: int) -> bool {
        1 <= id < self.next_id
    }

    /// The task with id `id`.
    pub open spec fn task(&self, id: int) -> &Task {
        &self.tasks@[id as ProcId]
    }

    pub fn new() -> (r: TaskList)
        ensures
            r.wf(),
            r.next_id == 1,
    {
        TaskList { tasks: BTreeMap::new(), next_id: 1 }
    }

    pub fn get_task(&self, id: ProcId) -> (r: Option<&Task>)
        requires
            self.wf(),
        ensures
            r == (if self.has(id as int) { Some(self.task(id as int)) } else { None::<&Task> }),
    {
        self.tasks.get(&id)
    }

    /// The task with id `id`, which must be allocated.
    pub fn task_ref(&self, id: ProcId) -> (r: &Task)
        requires
            self.wf(),
            self.has(id as int),
        ensures
            *r == *self.task(id as int),
            r.wf(),
    {
        assert(self.tasks@.contains_key(id));
        self.tasks.get(&id).unwrap()
    }

    /// The task that `current_id` names, if it is allocated.
    pub fn current(&self, current_id: ProcId) -> (r: Option<&Task>)
        requires
            self.wf(),
        ensures
            r == (if self.has(current_id as int) { Some(self.task(current_id as int)) } else { None::<&Task> }),
    {
        self.get_task(current_id)
    }

    /// Allocates a kernel thread that starts at `rip`, on the kernel stack `kern_stack`.
    /// Its first dispatch returns into the trampoline, whose `iretq` enters `rip` in ring 0.
    pub fn alloc_kernel_task(
        &mut self,
        name: &str,
        rip: usize,
        kern_stack: Stack,
        platform: &Platform,
    ) -> (r: KernelStackImage)
        requires
            old(self).wf(),
            old(self).next_id < MAX_TASK,
            kern_stack.is_task_stack(),
        ensures
            alloc_step(old(self), final(self), r.pid),
            kernel_task_made(final(self).task(r.pid as int), r.pid, name@, kern_stack, platform),
            kernel_image_made(&r, r.pid, rip, kern_stack, platform),
    {
        let pid = self.next_id;
        let kern_rsp = kern_stack.top();
        let tls_base = kern_rsp - TLS_SEGMENT_SIZE;
        let mut task = Task::empty();
        task.pid = pid;
        task.ppid = 0;
        task.name = Some(name.to_owned());
        task.state = TaskState::Created;
        task.kern_stack = Some(kern_stack);
        task.cr3 = Some(platform.kernel_cr3);
        task.ctx.rflags = INITIAL_RFLAGS;
        task.ctx.rsp = kern_rsp - TLS_SEGMENT_SIZE - EXCEPTION_FRAME_SIZE - WORD_SIZE;
        task.ctx.cr3 = platform.kernel_cr3;

        let tls = TLSSegment::new(tls_base, 0);
        let mut frame: Vec<usize> = Vec::new();
        frame.push(platform.kern_ds_sel as usize);
        frame.push(tls_base);
        frame.push(task.ctx.rflags);
        frame.push(platform.kern_cs_sel as usize);
        frame.push(rip);
        frame.push(platform.start_task);

        let ghost pre = self.tasks@;
        assert(!pre.contains_key(pid));
        self.tasks.insert(pid, task);
        self.next_id = self.next_id + 1;
        assert(forall|id: ProcId| #[trigger] self.tasks@.contains_key(id) <==> self.has(id as int));
        assert(frame@ =~= seq![
            platform.kern_ds_sel as usize,
            tls_base,
            INITIAL_RFLAGS,
            platform.kern_cs_sel as usize,
            rip,
            platform.start_task,
        ]);
        KernelStackImage { pid, tls_base, tls, frame }
    }

    /// Allocates the user task `name`, child of `parent`, in the fresh address space whose
    /// root is `cr3`, with the kernel stack `kern_stack`. Its code area is filled from
    /// `rip`; it enters user mode through `ret_to_userspace` with the stack pointer just
    /// above the user stack.
    pub fn alloc_task(
        &mut self,
        name: &str,
        parent: ProcId,
        rip: usize,
        cr3: usize,
        kern_stack: Stack,
        platform: &Platform,
    ) -> (r: UserTaskImage)
        requires
            old(self).wf(),
            old(self).next_id < MAX_TASK,
            kern_stack.is_task_stack(),
            platform.wf(),
        ensures
            alloc_step(old(self), final(self), r.pid),
            user_task_made(final(self).task(r.pid as int), r.pid, name@, parent, cr3, kern_stack, platform),
            user_image_made(&r, r.pid, rip, cr3, kern_stack, platform),
    {
        let pid = self.next_id;
        let mut task = Task::empty();
        task.pid = pid;
        task.ppid = parent;
        task.name = Some(name.to_owned());
        task.state = TaskState::Created;
        task.cr3 = Some(cr3);

        assert((USER | WRITABLE | NO_EXECUTE) & PRESENT != PRESENT) by (bit_vector);
        assert((USER | WRITABLE) & PRESENT != PRESENT) by (bit_vector);
        let mut user_stack = VirtualMemoryArea::new(
            platform.user_stack_start,
            platform.user_stack_end - platform.user_stack_start + 1,
            EntryFlags { bits: USER | WRITABLE | NO_EXECUTE },
        );
        user_stack.mapped = true;
        task.user_stack = Some(user_stack);

        let mut code = VirtualMemoryArea::new(
            platform.user_code_start,
            USER_CODE_SIZE,
            EntryFlags { bits: USER | WRITABLE },
        );
        code.mapped = true;
        task.code = Some(code);

        task.kern_stack = Some(kern_stack);
        let kern_rsp = kern_stack.top();
        let tls_base = kern_rsp - TLS_SEGMENT_SIZE;
        task.ctx.rflags = INITIAL_RFLAGS;
        task.ctx.rsp = tls_base;
        task.ctx.cr3 = cr3;
        let tls = TLSSegment::new(tls_base, platform.user_stack_end + 1);

        let ghost pre = self.tasks@;
        assert(!pre.contains_key(pid));
        self.tasks.insert(pid, task);
        self.next_id = self.next_id + 1;
        assert(forall|id: ProcId| #[trigger] self.tasks@.contains_key(id) <==> self.has(id as int));
        UserTaskImage {
            pid,
            cr3,
            user_stack,
            code,
            code_src: rip,
            code_dst: code.start,
            code_len: USER_CODE_SIZE,
            tls_base,
            tls,
        }
    }

    /// Replaces the saved context of task `id`, which keeps its address space.
    pub fn set_context(&mut self, id: ProcId, ctx: Context)
        requires
            old(self).wf(),
            old(self).has(id as int),
            ctx.cr3 == old(self).task(id as int).ctx.cr3,
        ensures
            final(self).wf(),
            final(self).next_id == old(self).next_id,
            forall|i: int| #![auto] old(self).has(i) && i != id ==> final(self).task(i) == old(self).task(i),
            ({
                let (t, o) = (final(self).task(id as int), old(self).task(id as int));
                &&& t.ctx == ctx
                &&& t.pid == o.pid && t.ppid == o.ppid && t.name == o.name && t.cr3 == o.cr3
                &&& t.kern_stack == o.kern_stack && t.user_stack == o.user_stack && t.code == o.code
                &&& t.sysctx == o.sysctx && t.state == o.state
            }),
    {
        assert(self.tasks@.contains_key(id));
        assert(self.tasks@[id].wf());
        let mut t = self.tasks.remove(&id).unwrap();
        assert(t == old(self).tasks@[id]);
        t.ctx = ctx;
        self.tasks.insert(id, t);
        assert(self.tasks@ =~= old(self).tasks@.insert(id, t));
        assert(forall|j: ProcId| #[trigger] self.tasks@.contains_key(j) <==> old(self).tasks@.contains_key(j));
        assert(forall|j: ProcId| self.tasks@.contains_key(j) && j != id ==> self.tasks@[j] == old(self).tasks@[j]);
    }

    /// Replaces the saved syscall registers of task `id`.
    pub fn set_sysctx(&mut self, id: ProcId, sysctx: SyscallContext)
        requires
            old(self).wf(),
            old(self).has(id as int),
        ensures
            final(self).wf(),
            final(self).next_id == old(self).next_id,
            forall|i: int| #![auto] old(self).has(i) && i != id ==> final(self).task(i) == old(self).task(i),
            ({
                let (t, o) = (final(self).task(id as int), old(self).task(id as int));
                &&& t.sysctx == sysctx
                &&& t.pid == o.pid && t.ppid == o.ppid && t.name == o.name && t.cr3 == o.cr3
                &&& t.kern_stack == o.kern_stack && t.user_stack == o.user_stack && t.code == o.code
                &&& t.ctx == o.ctx && t.state == o.state
            }),
    {
        assert(self.tasks@.contains_key(id));
        assert(self.tasks@[id].wf());
        let mut t = self.tasks.remove(&id).unwrap();
        assert(t == old(self).tasks@[id]);
        t.sysctx = sysctx;
        self.tasks.insert(id, t);
        assert(self.tasks@ =~= old(self).tasks@.insert(id, t));
        assert(forall|j: ProcId| #[trigger] self.tasks@.contains_key(j) <==> old(self).tasks@.contains_key(j));
        assert(forall|j: ProcId| self.tasks@.contains_key(j) && j != id ==> self.tasks@[j] == old(self).tasks@[j]);
    }
}

} // verus!
