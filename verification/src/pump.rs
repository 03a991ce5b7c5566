//! The circulation pump of the heating loop.

use vstd::prelude::*;

verus! {

/// A pump that can be started and stopped.
pub trait Pump {
    type Error;

    fn start(&mut self) -> Result<(), Self::Error>;

    fn stop(&mut self) -> Result<(), Self::Error>;
}

/// A pump that can tell whether it runs.
pub trait StatefulPump: Pump {
    fn started(&self) -> Result<bool, Self::Error>;

    /// Whether the pump stands still: the opposite of what
    /// [`StatefulPump::started`] says.
    fn stopped(&self) -> (stopped: Result<bool, Self::Error>)
        ensures
            match stopped {
                Ok(still) => call_ensures(Self::started, (self,), Ok::<bool, Self::Error>(!still)),
                Err(e) => call_ensures(Self::started, (self,), Err::<bool, Self::Error>(e)),
            },
    {
        match self.started() {
            Ok(started) => Ok(!started),
            Err(e) => Err(e),
        }
    }
}

} // verus!
