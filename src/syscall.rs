//! Pseudo user/kernel boundary for chips that only have machine mode.
//!
//! An application runs from a stored-state record that holds its register
//! file; when it traps back into the kernel, the record is refreshed from the
//! registers it held at the trap, and the reason it stopped is classified as a
//! system call, an interrupt or a fault.

use vstd::prelude::*;

verus! {

/// Number of registers kept in the stored-state record.
pub const NUM_REGS: usize = 19;

/// Slot of the return address `ra` in the register file.
pub const REG_RA: usize = 0;

/// Slot of the stack pointer `sp` in the register file.
pub const REG_SP: usize = 1;

/// Slot of `a0`, the first argument and return-value register.
pub const REG_A0: usize = 2;

/// Exception code of an environment call from user mode.
pub const ECALL_FROM_USER: usize = 8;

/// Mask of the exception code within `mcause`; the upper bits carry other
/// flags on this core.
pub const CAUSE_MASK: usize = 0x1ff;

/// A system call decoded from the argument registers.
#[derive(PartialEq, Eq, Structural, Clone, Copy, Debug)]
pub enum Syscall {
    Yield,
    Subscribe { driver_number: usize, subdriver_number: usize, callback_ptr: usize, appdata: usize },
    Command { driver_number: usize, subdriver_number: usize, arg0: usize, arg1: usize },
    Allow {
        driver_number: usize,
        subdriver_number: usize,
        allow_address: usize,
        allow_size: usize,
    },
    Memop { operand: usize, arg0: usize },
}

/// Why an application stopped running and control came back to the kernel.
#[derive(PartialEq, Eq, Structural, Clone, Copy, Debug)]
pub enum ContextSwitchReason {
    SyscallFired { syscall: Syscall },
    Interrupted,
    Fault,
}

/// A function for a process to run: its entry point and four arguments.
#[derive(PartialEq, Eq, Structural, Clone, Copy, Debug)]
pub struct FunctionCall {
    pub pc: usize,
    pub argument0: usize,
    pub argument1: usize,
    pub argument2: usize,
    pub argument3: usize,
}

/// The state the kernel keeps for a process while it is not executing.
///
/// Register slots: 0 `ra`, 1 `sp`, 2 to 6 `a0` to `a4`, 7 to 18 `s0` to
/// `s11`.
#[derive(Clone, Copy, Debug)]
pub struct RiscvimacStoredState {
    pub regs: [usize; 19],
    pub pc: usize,
    pub mcause: usize,
}

impl Default for RiscvimacStoredState {
    fn default() -> (r: RiscvimacStoredState)
        ensures
            r.regs@ == Seq::new(NUM_REGS as nat, |i: int| 0usize),
            r.pc == 0,
            r.mcause == 0,
    {
        let r = RiscvimacStoredState { regs: [0usize; 19], pc: 0, mcause: 0 };
        assert(r.regs@ =~= Seq::new(NUM_REGS as nat, |i: int| 0usize));
        r
    }
}

/// What the hardware holds when an application traps: its register file,
/// the address of the instruction that trapped, and the cause.
#[derive(Clone, Copy, Debug)]
pub struct AppTrap {
    pub regs: [usize; 19],
    pub mepc: usize,
    pub mcause: usize,
}

/// The system call named by `number` with the register values `r0` to `r3`,
/// or `None` for an unknown number.
pub open spec fn syscall_of(number: u8, r0: usize, r1: usize, r2: usize, r3: usize) -> Option<
    Syscall,
> {
    if number == 0 {
        Some(Syscall::Yield)
    } else if number == 1 {
        Some(
            Syscall::Subscribe {
                driver_number: r0,
                subdriver_number: r1,
                callback_ptr: r2,
                appdata: r3,
            },
        )
    } else if number == 2 {
        Some(Syscall::Command { driver_number: r0, subdriver_number: r1, arg0: r2, arg1: r3 })
    } else if number == 3 {
        Some(
            Syscall::Allow {
                driver_number: r0,
                subdriver_number: r1,
                allow_address: r2,
                allow_size: r3,
            },
        )
    } else if number == 4 {
        Some(Syscall::Memop { operand: r0, arg0: r1 })
    } else {
        None
    }
}

/// Decode a system call from its number and four argument registers.
pub fn arguments_to_syscall(number: u8, r0: usize, r1: usize, r2: usize, r3: usize) -> (r: Option<
    Syscall,
>)
    ensures
        r == syscall_of(number, r0, r1, r2, r3),
{
    match number {
        0 => Some(Syscall::Yield),
        1 => Some(
            Syscall::Subscribe {
                driver_number: r0,
                subdriver_number: r1,
                callback_ptr: r2,
                appdata: r3,
            },
        ),
        2 => Some(Syscall::Command { driver_number: r0, subdriver_number: r1, arg0: r2, arg1: r3 }),
        3 => Some(
            Syscall::Allow {
                driver_number: r0,
                subdriver_number: r1,
                allow_address: r2,
                allow_size: r3,
            },
        ),
        4 => Some(Syscall::Memop { operand: r0, arg0: r1 }),
        _ => None,
    }
}

/// The top bit of `mcause` is set: the trap was an interrupt.
pub open spec fn is_interrupt_cause(mcause: usize) -> bool {
    mcause > isize::MAX
}

/// The trap was an environment call from the application.
pub open spec fn is_ecall_cause(mcause: usize) -> bool {
    !is_interrupt_cause(mcause) && mcause & CAUSE_MASK == ECALL_FROM_USER
}

/// The address of the instruction after the four-byte one at `pc`, wrapping
/// at the top of the address space.
pub open spec fn advance_pc(pc: usize) -> usize {
    if pc <= usize::MAX - 4 {
        (pc + 4) as usize
    } else {
        (pc - (usize::MAX - 3)) as usize
    }
}

/// The system call held by a register file: the number in the low byte of
/// `a0` and its arguments in `a1` to `a4`.
pub open spec fn syscall_in(regs: Seq<usize>) -> Option<Syscall> {
    syscall_of(regs[2] as u8, regs[3], regs[4], regs[5], regs[6])
}

/// How a trap with cause `mcause` and register file `regs` is classified.
/// An environment call whose registers hold no known system call is a
/// fault.
pub open spec fn reason_for(regs: Seq<usize>, mcause: usize) -> ContextSwitchReason {
    if is_interrupt_cause(mcause) {
        ContextSwitchReason::Interrupted
    } else if is_ecall_cause(mcause) {
        match syscall_in(regs) {
            Some(s) => ContextSwitchReason::SyscallFired { syscall: s },
            None => ContextSwitchReason::Fault,
        }
    } else {
        ContextSwitchReason::Fault
    }
}

/// The program counter at which the application resumes after a trap: past
/// the environment call for a system call, where it stopped otherwise.
pub open spec fn resume_pc(mepc: usize, mcause: usize) -> usize {
    if is_ecall_cause(mcause) {
        advance_pc(mepc)
    } else {
        mepc
    }
}

/// The argument registers after a function is set up: `a0` to `a3` hold the
/// arguments; `ra` holds the old program counter, unless this is the first
/// function, in which case `sp` holds the stack pointer.
pub open spec fn primed_regs(
    regs: Seq<usize>,
    pc: usize,
    stack_pointer: usize,
    callback: FunctionCall,
    first_function: bool,
) -> Seq<usize> {
    let args = regs.update(2, callback.argument0).update(3, callback.argument1).update(
        4,
        callback.argument2,
    ).update(5, callback.argument3);
    if first_function {
        args.update(1, stack_pointer)
    } else {
        args.update(0, pc)
    }
}

/// The trap an application raises when the first instruction it runs is an
/// environment call: its registers are those it was started with.
pub open spec fn ecall_on_entry(state: RiscvimacStoredState) -> AppTrap {
    AppTrap { regs: state.regs, mepc: state.pc, mcause: ECALL_FROM_USER }
}

/// The boundary between the kernel and applications.
pub struct SysCall {}

impl SysCall {
    pub fn new() -> (r: SysCall) {
        SysCall {  }
    }

    /// Put `return_value` in `a0`, where the process finds it when it
    /// resumes.
    pub fn set_syscall_return_value(
        &self,
        _stack_pointer: usize,
        state: &mut RiscvimacStoredState,
        return_value: isize,
    )
        ensures
            final(state).regs@ == old(state).regs@.update(REG_A0 as int, return_value as usize),
            final(state).pc == old(state).pc,
            final(state).mcause == old(state).mcause,
    {
        state.regs[REG_A0] = #[verifier::truncate] (return_value as usize);
    }

    /// Prepare `state` so that the process next runs `callback`: the four
    /// arguments go in `a0` to `a3` and the program counter becomes the
    /// entry point. Where this is not the process's first function, `ra`
    /// receives the old program counter so that the function returns there;
    /// where it is, `sp` receives `stack_pointer`. Answers the stack pointer
    /// unchanged.
    pub fn set_process_function(
        &self,
        stack_pointer: usize,
        _remaining_stack_memory: usize,
        state: &mut RiscvimacStoredState,
        callback: FunctionCall,
        first_function: bool,
    ) -> (r: Result<usize, usize>)
        ensures
            r == Ok::<usize, usize>(stack_pointer),
            final(state).regs@ == primed_regs(
                old(state).regs@,
                old(state).pc,
                stack_pointer,
                callback,
                first_function,
            ),
            final(state).pc == callback.pc,
            final(state).mcause == old(state).mcause,
    {
        state.regs[2] = callback.argument0;
        state.regs[3] = callback.argument1;
        state.regs[4] = callback.argument2;
        state.regs[5] = callback.argument3;
        if !first_function {
            state.regs[REG_RA] = state.pc;
        } else {
            state.regs[REG_SP] = stack_pointer;
        }
        state.pc = callback.pc;
        assert(state.regs@ =~= primed_regs(
            old(state).regs@,
            old(state).pc,
            stack_pointer,
            callback,
            first_function,
        ));
        Ok(stack_pointer)
    }

    /// Take the process back into the kernel after it ran from `state` and
    /// raised `trap`. The record is refreshed from the trap: every register,
    /// the cause, and the program counter, which moves past the environment
    /// call of a system call since hardware does not. Answers the process's
    /// stack pointer and why it stopped.
    pub fn switch_to_process(
        &self,
        _stack_pointer: usize,
        state: &mut RiscvimacStoredState,
        trap: &AppTrap,
    ) -> (r: (usize, ContextSwitchReason))
        ensures
            final(state).regs@ == trap.regs@,
            final(state).pc == resume_pc(trap.mepc, trap.mcause),
            final(state).mcause == trap.mcause,
            r.0 == trap.regs@[REG_SP as int],
            r.1 == reason_for(trap.regs@, trap.mcause),
    {
        state.regs = trap.regs;
        state.mcause = trap.mcause;
        state.pc = trap.mepc;
        let reason = if trap.mcause > isize::MAX as usize {
            ContextSwitchReason::Interrupted
        } else if trap.mcause & CAUSE_MASK == ECALL_FROM_USER {
            state.pc = next_instruction(state.pc);
            let number = #[verifier::truncate] (state.regs[2] as u8);
            match arguments_to_syscall(
                number,
                state.regs[3],
                state.regs[4],
                state.regs[5],
                state.regs[6],
            ) {
                Some(s) => ContextSwitchReason::SyscallFired { syscall: s },
                None => ContextSwitchReason::Fault,
            }
        } else {
            ContextSwitchReason::Fault
        };
        (state.regs[REG_SP], reason)
    }
}

/// The address of the instruction after the four-byte one at `pc`.
fn next_instruction(pc: usize) -> (r: usize)
    ensures
        r == advance_pc(pc),
{
    if pc <= usize::MAX - 4 {
        pc + 4
    } else {
        pc - (usize::MAX - 3)
    }
}


/// Starting a process on a function and having it trap at once with an
/// environment call hands the kernel the system call held in the four
/// arguments the function was set up with (and `a4`), and the process will
/// resume at the instruction after its entry point.
pub proof fn lemma_function_call_round_trip(
    state: RiscvimacStoredState,
    stack_pointer: usize,
    callback: FunctionCall,
    first_function: bool,
    primed: RiscvimacStoredState,
)
    requires
        primed.regs@ == primed_regs(
            state.regs@,
            state.pc,
            stack_pointer,
            callback,
            first_function,
        ),
        primed.pc == callback.pc,
    ensures
        ecall_on_entry(primed).regs@[2] == callback.argument0,
        ecall_on_entry(primed).regs@[3] == callback.argument1,
        ecall_on_entry(primed).regs@[4] == callback.argument2,
        ecall_on_entry(primed).regs@[5] == callback.argument3,
        resume_pc(ecall_on_entry(primed).mepc, ecall_on_entry(primed).mcause) == advance_pc(
            callback.pc,
        ),
        syscall_of(
            callback.argument0 as u8,
            callback.argument1,
            callback.argument2,
            callback.argument3,
            state.regs@[6],
        ) is Some ==> reason_for(ecall_on_entry(primed).regs@, ecall_on_entry(primed).mcause)
            == (ContextSwitchReason::SyscallFired {
            syscall: syscall_of(
                callback.argument0 as u8,
                callback.argument1,
                callback.argument2,
                callback.argument3,
                state.regs@[6],
            )->0,
        }),
{
    assert(8usize & 0x1ffusize == 8usize) by (bit_vector);
    assert(is_ecall_cause(ECALL_FROM_USER));
}

} // verus!
