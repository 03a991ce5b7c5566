//! The valve that lets the heating water into the loop.

use vstd::prelude::*;

verus! {

/// A valve that can be opened and closed.
pub trait Valve {
    type Error;

    fn open(&mut self) -> Result<(), Self::Error>;

    fn close(&mut self) -> Result<(), Self::Error>;
}

/// A valve that can tell whether it is open.
pub trait StatefulValve: Valve {
    fn opened(&self) -> Result<bool, Self::Error>;

    /// Whether the valve is closed: the opposite of what
    /// [`StatefulValve::opened`] says.
    fn closed(&self) -> (closed: Result<bool, Self::Error>)
        ensures
            match closed {
                Ok(shut) => call_ensures(Self::opened, (self,), Ok::<bool, Self::Error>(!shut)),
                Err(e) => call_ensures(Self::opened, (self,), Err::<bool, Self::Error>(e)),
            },
    {
        match self.opened() {
            Ok(opened) => Ok(!opened),
            Err(e) => Err(e),
        }
    }
}

} // verus!
