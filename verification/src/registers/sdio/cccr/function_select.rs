//! The function numbers of an I/O card.

use vstd::prelude::*;

verus! {

/// One of the eight functions of an I/O card. Function 0 is the common I/O
/// area.
#[derive(Clone, Copy, Debug, PartialEq, Eq, Structural)]
pub enum FunctionSelection {
    FunctionCia0,
    Function1,
    Function2,
    Function3,
    Function4,
    Function5,
    Function6,
    Function7,
}

impl FunctionSelection {
    /// The number of the function, 0 to 7.
    pub open spec fn spec_number(self) -> u8 {
        match self {
            FunctionSelection::FunctionCia0 => 0,
            FunctionSelection::Function1 => 1,
            FunctionSelection::Function2 => 2,
            FunctionSelection::Function3 => 3,
            FunctionSelection::Function4 => 4,
            FunctionSelection::Function5 => 5,
            FunctionSelection::Function6 => 6,
            FunctionSelection::Function7 => 7,
        }
    }

    /// The number of the function, 0 to 7.
    pub fn number(self) -> (r: u8)
        ensures
            r == self.spec_number(),
            r <= 7,
    {
        match self {
            FunctionSelection::FunctionCia0 => 0,
            FunctionSelection::Function1 => 1,
            FunctionSelection::Function2 => 2,
            FunctionSelection::Function3 => 3,
            FunctionSelection::Function4 => 4,
            FunctionSelection::Function5 => 5,
            FunctionSelection::Function6 => 6,
            FunctionSelection::Function7 => 7,
        }
    }
}

} // verus!
