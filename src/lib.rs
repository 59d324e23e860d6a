//! Streaming of calibrated converter samples over a bulk transport.
//!
//! The library holds the parts of the pipeline that decide and compute:
//! calibration of raw codes, packet assembly, the circular sample buffer
//! that sits between the converter and its reader, and the state machine
//! that ties the converter's lifecycle to the transport's connection.
use vstd::prelude::*;

pub mod calibration;

pub use calibration::{to_physical, CalibrationReference, KNOWN_REFERENCE_VALUE};
pub mod packet;
pub mod transport;

pub use packet::{assemble_packet, calibrate_samples, samples_per_packet, MAX_PACKET_SIZE, SAMPLE_WIDTH};
pub use transport::TransportError;
pub mod ring;

pub use ring::{CircularBuffer, OverrunError};
pub mod coordinator;

pub use coordinator::{Command, ConnectionState, Coordinator, Event, StreamFailure};
