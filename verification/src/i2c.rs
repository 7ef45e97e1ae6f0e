//! I2C ports.

use vstd::prelude::*;

verus! {

/// The I2C ports of the controller.
#[derive(Clone, Copy, Debug, PartialEq, Eq, Hash, Structural)]
pub enum I2cPort {
    OnBoard,
    MXP,
}

impl I2cPort {
    /// The wire value of the port.
    pub fn as_i32(&self) -> (r: i32)
        ensures
            *self is OnBoard ==> r == 0,
            *self is MXP ==> r == 1,
    {
        match *self {
            I2cPort::OnBoard => 0,
            I2cPort::MXP => 1,
        }
    }
}

} // verus!
