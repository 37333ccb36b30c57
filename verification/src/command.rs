use vstd::prelude::*;

verus! {

/// One instruction for the accumulator.
#[derive(Clone, Copy, Debug, PartialEq, Eq, Structural)]
pub enum Command {
    /// Sets the accumulator to the value and starts the trace anew.
    Initialize(i64),
    /// Adds the value to the accumulator.
    Add(i64),
    /// Subtracts the value from the accumulator.
    Subtract(i64),
    /// Reports the trace and the accumulator, then starts the trace anew
    /// from the accumulator's value.
    PrintResult,
}

} // verus!
