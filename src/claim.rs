//! The peripherals are one owned resource, handed out once at start-up and
//! held for the life of the program.
use vstd::prelude::*;
use crate::error::PeriphError;

verus! {

/// Records whether the peripherals were handed out.
pub struct PeripheralClaim {
    pub taken: bool,
}

impl PeripheralClaim {
    /// Nothing handed out yet.
    pub fn new() -> (r: PeripheralClaim)
        ensures
            !r.taken,
    {
        PeripheralClaim { taken: false }
    }

    /// Hands the peripherals out. The first call succeeds; every later one
    /// fails with a configuration error.
    pub fn take(&mut self) -> (r: Result<(), PeriphError>)
        ensures
            final(self).taken,
            r == if old(self).taken {
                Err::<(), PeriphError>(PeriphError::ConfigurationError)
            } else {
                Ok::<(), PeriphError>(())
            },
    {
        if self.taken {
            return Err(PeriphError::ConfigurationError);
        }
        self.taken = true;
        Ok(())
    }
}

} // verus!
