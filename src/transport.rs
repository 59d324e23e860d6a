//! Failures that the bulk transport reports, in the library's own terms.
use embassy_usb::driver::EndpointError;
use vstd::prelude::*;

verus! {

/// The endpoint error of embassy-usb's driver interface: `BufferOverflow`
/// when a packet does not fit the endpoint, `Disabled` when the host has
/// gone away. Its variants are visible to the verifier.
#[verifier::external_type_specification]
pub struct ExEndpointError(EndpointError);

/// Why a transfer on the bulk endpoints failed.
#[derive(Clone, Copy, Debug, PartialEq, Eq, Structural)]
pub enum TransportError {
    /// More bytes were handed over than one packet holds.
    BufferOverflow,
    /// The host disconnected; the connection epoch is over.
    Disabled,
}

/// The library error that an endpoint error stands for.
pub open spec fn transport_error_of(e: EndpointError) -> TransportError {
    match e {
        EndpointError::BufferOverflow => TransportError::BufferOverflow,
        EndpointError::Disabled => TransportError::Disabled,
    }
}

impl From<EndpointError> for TransportError {
    fn from(e: EndpointError) -> (r: TransportError)
        ensures
            r == transport_error_of(e),
    {
        match e {
            EndpointError::BufferOverflow => TransportError::BufferOverflow,
            EndpointError::Disabled => TransportError::Disabled,
        }
    }
}

impl vstd::std_specs::convert::FromSpecImpl<EndpointError> for TransportError {
    open spec fn obeys_from_spec() -> bool {
        true
    }

    open spec fn from_spec(e: EndpointError) -> TransportError {
        transport_error_of(e)
    }
}

impl TransportError {
    /// Whether the error ends the connection epoch. An overflow is a fault
    /// in packet sizing; a disabled endpoint is a disconnect.
    pub fn is_disconnect(&self) -> (r: bool)
        ensures
            r == (*self == TransportError::Disabled),
    {
        match self {
            TransportError::Disabled => true,
            TransportError::BufferOverflow => false,
        }
    }
}

} // verus!
