use vstd::prelude::*;
use vstd::string::StringSliceAdditionalSpecFns;
use crate::task::{ProcId, SyscallContext};
use crate::sched::Kernel;

verus! {

/// Number of the `write` system call.
pub const SYS_WRITE: usize = 16;

/// Console row that `write` logs to.
pub const SYS_WRITE_ROW: usize = 19;

/// The registers as the `syscall` instruction leaves them: the number in RAX, the
/// arguments in RDI, RSI, RDX, R8, R9, R10, the user RIP in RCX and RFLAGS in R11. The
/// entry runs after a standard prologue, so RBP holds the user RSP minus 8.
#[derive(Debug, Clone, Copy, PartialEq, Eq, Structural)]
pub struct SyscallRegs {
    pub rax: usize,
    pub rdi: usize,
    pub rsi: usize,
    pub rdx: usize,
    pub r8: usize,
    pub r9: usize,
    pub r10: usize,
    pub rcx: usize,
    pub r11: usize,
    pub rbp: usize,
}

/// The registers that `sysretq` runs with: the user RIP in RCX, RFLAGS in R11, and the
/// user stack pointer, loaded into RBP and RSP through RBX.
#[derive(Debug, Clone, Copy, PartialEq, Eq, Structural)]
pub struct SysretRegs {
    pub rax: usize,
    pub rdi: usize,
    pub rsi: usize,
    pub rdx: usize,
    pub r8: usize,
    pub r9: usize,
    pub r10: usize,
    pub rcx: usize,
    pub r11: usize,
    pub rbx: usize,
}

/// The system calls that the kernel serves.
#[derive(Debug, Clone, Copy, PartialEq, Eq, Structural)]
pub enum Syscall {
    Write,
}

/// The record that the entry stores for the current task.
pub open spec fn captured(regs: SyscallRegs) -> SyscallContext {
    SyscallContext {
        rip: regs.rcx,
        rsp: regs.rbp.wrapping_add(8),
        rflags: regs.r11,
        rax: regs.rax,
        rdi: regs.rdi,
        rsi: regs.rsi,
        rdx: regs.rdx,
        r8: regs.r8,
        r9: regs.r9,
        r10: regs.r10,
    }
}

/// The registers that the return stub loads from a saved record.
pub open spec fn restored(ctx: SyscallContext) -> SysretRegs {
    SysretRegs {
        rax: ctx.rax,
        rdi: ctx.rdi,
        rsi: ctx.rsi,
        rdx: ctx.rdx,
        r8: ctx.r8,
        r9: ctx.r9,
        r10: ctx.r10,
        rcx: ctx.rip,
        r11: ctx.rflags,
        rbx: ctx.rsp,
    }
}

/// Syscall round trip: the registers that `sysretq` gets back from a saved snapshot
/// hold the number and arguments as they were at `syscall`, RCX the user RIP and R11 the
/// user RFLAGS that the instruction had put there, and the user stack pointer.
pub proof fn lemma_syscall_round_trip(regs: SyscallRegs)
    ensures
        ({
            let r = restored(captured(regs));
            &&& r.rax == regs.rax
            &&& r.rdi == regs.rdi && r.rsi == regs.rsi && r.rdx == regs.rdx
            &&& r.r8 == regs.r8 && r.r9 == regs.r9 && r.r10 == regs.r10
            &&& r.rcx == regs.rcx
            &&& r.r11 == regs.r11
            &&& r.rbx == regs.rbp.wrapping_add(8)
        }),
{
}

/// Snapshot of the user registers at a `syscall`, with the user RSP recovered from RBP.
pub fn capture(regs: SyscallRegs) -> (r: SyscallContext)
    ensures
        r == captured(regs),
{
    SyscallContext {
        rip: regs.rcx,
        rsp: regs.rbp.wrapping_add(8),
        rflags: regs.r11,
        rax: regs.rax,
        rdi: regs.rdi,
        rsi: regs.rsi,
        rdx: regs.rdx,
        r8: regs.r8,
        r9: regs.r9,
        r10: regs.r10,
    }
}

/// The system call that number `num` selects, if any.
pub fn syscall_dispatch(num: usize) -> (r: Option<Syscall>)
    ensures
        r == (if num == SYS_WRITE { Some(Syscall::Write) } else { None::<Syscall> }),
{
    if num == SYS_WRITE {
        Some(Syscall::Write)
    } else {
        None
    }
}

/// Decimal digits of `n`, most significant first, as ASCII bytes.
pub open spec fn decimal(n: nat) -> Seq<u8>
    decreases n,
{
    if n < 10 {
        seq![(48 + n) as u8]
    } else {
        decimal(n / 10).push((48 + n % 10) as u8)
    }
}

/// Appends the decimal digits of `n` to `out`.
pub fn push_decimal(out: &mut Vec<u8>, n: u64)
    ensures
        final(out)@ == old(out)@ + decimal(n as nat),
    decreases n,
{
    if n >= 10 {
        push_decimal(out, n / 10);
    }
    let d: u8 = (n % 10) as u8;
    out.push(48 + d);
    assert(final(out)@ =~= old(out)@ + decimal(n as nat));
}

/// Appends the bytes of `s` to `out`.
pub fn push_str(out: &mut Vec<u8>, s: &str)
    ensures
        final(out)@ == old(out)@ + s.spec_bytes(),
{
    let b = s.as_bytes();
    let mut i: usize = 0;
    while i < b.len()
        invariant
            i <= b@.len(),
            b@ == s.spec_bytes(),
            out@ == old(out)@ + b@.subrange(0, i as int),
        decreases b@.len() - i,
    {
        out.push(b[i]);
        i = i + 1;
        assert(out@ =~= old(out)@ + b@.subrange(0, i as int));
    }
    assert(b@.subrange(0, b@.len() as int) =~= b@);
}

/// The line that `write` logs for thread `id` whose RAX held `rax`.
pub open spec fn sys_write_text(id: nat, rax: nat) -> Seq<u8> {
    "sys_write: thread ".spec_bytes() + decimal(id) + ": rax ".spec_bytes() + decimal(rax)
}

/// A line of text for the console, at row `row`, column `col`.
#[derive(Debug)]
pub struct ConsoleLine {
    pub row: usize,
    pub col: usize,
    pub text: Vec<u8>,
}

/// The log line of the `write` system call: the current thread's id and the RAX value
/// saved at its entry, at the start of its console row.
pub fn sys_write(kernel: &Kernel) -> (r: ConsoleLine)
    requires
        kernel.wf(),
        kernel.current_id != 0,
    ensures
        r.row == SYS_WRITE_ROW,
        r.col == 0,
        r.text@ == sys_write_text(
            kernel.current_id as nat,
            kernel.tasks.task(kernel.current_id as int).sysctx.rax as nat,
        ),
{
    let id: ProcId = kernel.current_id;
    let rax = kernel.tasks.task_ref(id).sysctx.rax;
    let mut text: Vec<u8> = Vec::new();
    push_str(&mut text, "sys_write: thread ");
    push_decimal(&mut text, id as u64);
    push_str(&mut text, ": rax ");
    push_decimal(&mut text, rax as u64);
    ConsoleLine { row: SYS_WRITE_ROW, col: 0, text }
}

/// What one system call did: the kernel stack it ran on, the line it logged, and the
/// registers it returned to user mode with.
#[derive(Debug)]
pub struct SyscallOutcome {
    pub kern_rsp: usize,
    pub log: Option<ConsoleLine>,
    pub ret: SysretRegs,
}

/// Reads back the saved user registers of the current task for `sysretq`.
pub fn syscall_return(kernel: &Kernel) -> (r: SysretRegs)
    requires
        kernel.wf(),
        kernel.current_id != 0,
    ensures
        r == restored(kernel.tasks.task(kernel.current_id as int).sysctx),
{
    let ctx = kernel.tasks.task_ref(kernel.current_id).sysctx;
    SysretRegs {
        rax: ctx.rax,
        rdi: ctx.rdi,
        rsi: ctx.rsi,
        rdx: ctx.rdx,
        r8: ctx.r8,
        r9: ctx.r9,
        r10: ctx.r10,
        rcx: ctx.rip,
        r11: ctx.rflags,
        rbx: ctx.rsp,
    }
}

/// A system call of the current task with registers `regs`: stores them in the task,
/// runs on the top of its kernel stack, dispatches on RAX (only `write` is served;
/// it logs and leaves the registers as they were), and returns to user mode with the
/// saved registers.
pub fn syscall_entry(kernel: &mut Kernel, regs: SyscallRegs) -> (r: SyscallOutcome)
    requires
        old(kernel).wf(),
        old(kernel).current_id != 0,
    ensures
        final(kernel).wf(),
        final(kernel).current_id == old(kernel).current_id,
        final(kernel).tasks.next_id == old(kernel).tasks.next_id,
        final(kernel).cpu == old(kernel).cpu,
        final(kernel).timer_ticks == old(kernel).timer_ticks,
        final(kernel).cr3 == old(kernel).cr3,
        final(kernel).tss_rsp0 == old(kernel).tss_rsp0,
        final(kernel).gs_base == old(kernel).gs_base,
        forall|i: int| #![auto] old(kernel).tasks.has(i) && i != old(kernel).current_id
            ==> final(kernel).tasks.task(i) == old(kernel).tasks.task(i),
        ({
            let (t, o) = (
                final(kernel).tasks.task(old(kernel).current_id as int),
                old(kernel).tasks.task(old(kernel).current_id as int),
            );
            &&& t.sysctx == captured(regs)
            &&& t.pid == o.pid && t.ppid == o.ppid && t.name == o.name && t.cr3 == o.cr3
            &&& t.kern_stack == o.kern_stack && t.user_stack == o.user_stack && t.code == o.code
            &&& t.ctx == o.ctx && t.state == o.state
        }),
        r.kern_rsp == old(kernel).tasks.task(old(kernel).current_id as int).kern_stack.unwrap().top,
        regs.rax == SYS_WRITE ==> r.log.is_some() && r.log.unwrap().text@ == sys_write_text(
            old(kernel).current_id as nat,
            regs.rax as nat,
        ),
        regs.rax != SYS_WRITE ==> r.log.is_none(),
        r.ret == restored(captured(regs)),
{
    let id = kernel.current_id;
    let kern_rsp = kernel.tasks.task_ref(id).kern_stack.unwrap().top();
    kernel.tasks.set_sysctx(id, capture(regs));
    let log = match syscall_dispatch(kernel.tasks.task_ref(id).sysctx.rax) {
        Some(Syscall::Write) => Some(sys_write(kernel)),
        None => None,
    };
    let ret = syscall_return(kernel);
    SyscallOutcome { kern_rsp, log, ret }
}

} // verus!
