use vstd::prelude::*;

verus! {

/// Relies on core::hint::spin_loop: issues the processor's spin-wait hint, one real
/// instruction per call that the compiler does not remove. It returns nothing.
#[verifier::external_body]
fn pause() {
    core::hint::spin_loop()
}

/// Busy-waits for `cycles` iterations of the spin-wait hint and returns the number
/// of iterations run. Not calibrated to wall-clock time: use a hardware timer where
/// timing matters.
pub fn spin(cycles: u32) -> (done: u32)
    ensures
        done == cycles,
{
    let mut done: u32 = 0;
    while done < cycles
        invariant
            done <= cycles,
        decreases cycles - done,
    {
        pause();
        done = done + 1;
    }
    done
}

} // verus!
