//! The power distribution panel.
//!
//! The module number is validated locally before the native initialize call;
//! the electrical readings themselves are floating point and live at the
//! native edge. Reading one channel's current validates the channel number
//! the same way first.

use vstd::prelude::*;

use crate::error::HalError;
use crate::registry::{check_channel, check_module};

verus! {

/// One power distribution panel, by its module number.
#[derive(Clone, Copy, Debug, PartialEq, Eq, Hash, Structural)]
pub struct PowerDistributionPanel {
    module: i32,
}

impl PowerDistributionPanel {
    /// The module number of the panel.
    pub closed spec fn module_spec(&self) -> i32 {
        self.module
    }

    /// Claim a panel by module number, validated against the domain's
    /// module count before any native call.
    pub fn new(module: i32, module_count: i32) -> (r: Result<PowerDistributionPanel, HalError>)
        ensures
            0 <= module < module_count ==> (r matches Ok(p) && p.module_spec() == module),
            !(0 <= module < module_count) ==> r == Err::<PowerDistributionPanel, HalError>(
                HalError::InvalidModule(module),
            ),
    {
        if let Err(e) = check_module(module, module_count) {
            return Err(e);
        }
        Ok(PowerDistributionPanel { module })
    }

    /// The module number of the panel.
    pub fn module(&self) -> (r: i32)
        ensures
            r == self.module_spec(),
    {
        self.module
    }

    /// Validate a channel number before its current is read natively:
    /// exactly the channels under the panel's channel count pass.
    pub fn check_current_channel(&self, channel: i32, channel_count: i32) -> (r: Result<
        (),
        HalError,
    >)
        ensures
            r is Ok <==> 0 <= channel < channel_count,
            !(0 <= channel < channel_count) ==> r == Err::<(), HalError>(
                HalError::InvalidChannel(channel),
            ),
    {
        check_channel(channel, channel_count)
    }
}

} // verus!
