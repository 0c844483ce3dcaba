//! An interpreter for a small fixed-instruction-set virtual machine: fixed
//! memory, sixteen byte registers, one address register, two 60 Hz timers, a
//! bounded call stack, a monochrome 64x32 frame buffer and a 16-key input pad.
//! The library loads a binary program image into virtual memory and executes
//! two-byte instructions against that state, one fetch-decode-execute step at
//! a time, under contracts that pin down the semantics of every instruction.

use vstd::prelude::*;

pub mod cpu;
pub mod keyboard;
pub mod opcode;

verus! {

/// Builds a vector of `n` copies of `val`; used to set up the fixed-size
/// pieces of the machine state (memory, registers, stack, frame buffer, pad).
pub(crate) fn filled_vec<T: Copy>(n: usize, val: T) -> (v: Vec<T>)
    ensures
        v@ == Seq::new(n as nat, |i: int| val),
{
    let mut v: Vec<T> = Vec::new();
    while v.len() < n
        invariant
            v@.len() <= n,
            forall|j: int| 0 <= j < v@.len() ==> v@[j] == val,
        decreases n - v@.len(),
    {
        v.push(val);
    }
    proof {
        assert(v@ =~= Seq::new(n as nat, |i: int| val));
    }
    v
}

} // verus!
