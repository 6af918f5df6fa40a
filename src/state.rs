//! Register snapshots that mark where a segment of execution starts and ends.

use vstd::prelude::*;

use crate::word::Word;

verus! {

/// The context of the kernel.
pub const KERNEL_CONTEXT: usize = 0;

/// The kernel program's entry points, as resolved from its labels.
#[derive(Clone, Copy, Debug, PartialEq, Eq, Structural)]
pub struct KernelLabels {
    /// The address of label `main`.
    pub main: usize,
    /// The address of label `main_contd`, where a continued segment resumes.
    pub main_contd: usize,
    /// The address of label `halt`.
    pub halt: usize,
}

/// The registers of the machine at one instant.
#[derive(Clone, Copy, Debug, PartialEq, Eq, Structural)]
pub struct RegistersState {
    pub program_counter: usize,
    pub is_kernel: bool,
    pub stack_len: usize,
    pub stack_top: Word,
    /// Whether the new stack top was read from memory, which sets the channel accordingly.
    pub is_stack_top_read: bool,
    /// Whether the previous operation may have overflowed the stack, so that
    /// the next one must check it.
    pub check_overflow: bool,
    pub context: usize,
    pub gas_used: u64,
}

/// Kernel mode on, at `pc`, with an empty stack, in context zero, having used `gas_used`.
pub open spec fn kernel_registers_at(pc: usize, gas_used: u64) -> RegistersState {
    RegistersState {
        program_counter: pc,
        is_kernel: true,
        stack_len: 0,
        stack_top: Word::spec_zero(),
        is_stack_top_read: false,
        check_overflow: false,
        context: KERNEL_CONTEXT,
        gas_used,
    }
}

impl RegistersState {
    /// The context in which code is read: the kernel's in kernel mode, else the current one.
    pub fn code_context(&self) -> (r: usize)
        ensures
            r == if self.is_kernel {
                KERNEL_CONTEXT
            } else {
                self.context
            },
    {
        if self.is_kernel {
            KERNEL_CONTEXT
        } else {
            self.context
        }
    }

    /// The registers at the start of a continued segment, at label `main_contd`.
    pub fn new_with_main_label(labels: &KernelLabels) -> (r: RegistersState)
        ensures
            r == kernel_registers_at(labels.main_contd, 0),
    {
        RegistersState {
            program_counter: labels.main_contd,
            is_kernel: true,
            stack_len: 0,
            stack_top: Word::zero(),
            is_stack_top_read: false,
            check_overflow: false,
            context: KERNEL_CONTEXT,
            gas_used: 0,
        }
    }

    /// The registers of a halted execution that used `gas_used`, at label `halt`.
    pub fn new_last_registers_with_gas(labels: &KernelLabels, gas_used: u64) -> (r: RegistersState)
        ensures
            r == kernel_registers_at(labels.halt, gas_used),
    {
        RegistersState {
            program_counter: labels.halt,
            is_kernel: true,
            stack_len: 0,
            stack_top: Word::zero(),
            is_stack_top_read: false,
            check_overflow: false,
            context: KERNEL_CONTEXT,
            gas_used,
        }
    }

    /// The registers at the start of an execution, at label `main`.
    pub fn default_with_labels(labels: &KernelLabels) -> (r: RegistersState)
        ensures
            r == kernel_registers_at(labels.main, 0),
    {
        RegistersState {
            program_counter: labels.main,
            is_kernel: true,
            stack_len: 0,
            stack_top: Word::zero(),
            is_stack_top_read: false,
            check_overflow: false,
            context: KERNEL_CONTEXT,
            gas_used: 0,
        }
    }
}

} // verus!
