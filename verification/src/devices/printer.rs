use vstd::prelude::*;
use super::device::ServiceRequest;

verus! {

pub struct GenericPrinter {}

impl GenericPrinter {
    pub fn new() -> (printer: Self) {
        Self {}
    }

    fn save_byte(&mut self, _byte: u8) {
        // TODO: Save to file or some memory buffer
    }

    /// Takes a byte from the bus. The printer never asks for service.
    pub fn process_byte(&mut self, byte: u8, _eoi: bool) -> (sr: ServiceRequest)
        ensures
            sr == ServiceRequest::NotRequired,
    {
        self.save_byte(byte);
        ServiceRequest::NotRequired
    }
}

} // verus!
