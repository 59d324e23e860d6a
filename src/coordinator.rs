//! The state machine that ties the converter's lifecycle to the transport's
//! connection state.
//!
//! The coordinator decides; its driver performs. Each call of
//! [`Coordinator::handle`] takes the outcome of the command performed last
//! and gives the next command. The driver waits for the connection, starts,
//! reads, stops and clears the converter, and writes the packets that the
//! coordinator assembled.
use crate::calibration::CalibrationReference;
use crate::packet::{assemble_packet, is_packet_of, samples_in, samples_per_packet, SAMPLE_WIDTH};
use crate::ring::OverrunError;
use crate::transport::TransportError;
use vstd::prelude::*;

verus! {

/// Where the coordinator stands in one connection cycle.
#[derive(Clone, Copy, Debug, PartialEq, Eq, Structural)]
pub enum ConnectionState {
    /// Between cycles: at power-on and after a drain.
    Idle,
    /// Waiting for the host to configure the endpoints.
    WaitConnection,
    /// Converting and forwarding batches of samples.
    Streaming,
    /// Stopping and then clearing the converter after a failure.
    Draining,
}

/// Why streaming ended.
#[derive(Clone, Copy, Debug, PartialEq, Eq, Structural)]
pub enum StreamFailure {
    /// The converter's buffer overran.
    Overrun,
    /// The transport failed.
    Transport(TransportError),
}

impl From<OverrunError> for StreamFailure {
    fn from(_e: OverrunError) -> (r: StreamFailure)
        ensures
            r == StreamFailure::Overrun,
    {
        StreamFailure::Overrun
    }
}

impl vstd::std_specs::convert::FromSpecImpl<OverrunError> for StreamFailure {
    open spec fn obeys_from_spec() -> bool {
        true
    }

    open spec fn from_spec(e: OverrunError) -> StreamFailure {
        StreamFailure::Overrun
    }
}

impl From<TransportError> for StreamFailure {
    fn from(e: TransportError) -> (r: StreamFailure)
        ensures
            r == StreamFailure::Transport(e),
    {
        StreamFailure::Transport(e)
    }
}

impl vstd::std_specs::convert::FromSpecImpl<TransportError> for StreamFailure {
    open spec fn obeys_from_spec() -> bool {
        true
    }

    open spec fn from_spec(e: TransportError) -> StreamFailure {
        StreamFailure::Transport(e)
    }
}

/// The outcome of the command performed last.
pub enum Event {
    /// The command completed and returned nothing: the connection came up,
    /// the converter started, stopped or was cleared, or the packet went out.
    /// It is also how the coordinator is first set going.
    Done,
    /// A read of the converter returned these samples.
    Samples(Vec<u16>),
    /// A read or a write failed.
    Failed(StreamFailure),
}

/// What the driver is to do next.
#[derive(Clone, Copy, Debug, PartialEq, Eq, Structural)]
pub enum Command {
    /// Nothing to perform: report `Done` at once.
    Proceed,
    /// Wait until the host has configured the endpoints.
    WaitConnection,
    /// Arm the converter on its clear buffer.
    StartConverter,
    /// Read exactly this many new samples from the converter.
    ReadSamples(usize),
    /// Write the coordinator's packet, as one transfer.
    WritePacket,
    /// Halt the converter and wait until it is quiet.
    StopConverter,
    /// Reset the converter's buffer to empty.
    ClearConverter,
}

/// The coordinator's position: its state, and within a drain whether the
/// converter has stopped.
pub struct Phase {
    pub state: ConnectionState,
    pub stopped: bool,
}

/// Whether an event ends streaming: a failure, or a batch of the wrong size.
pub open spec fn ends_stream(e: Event, batch: nat) -> bool {
    match e {
        Event::Done => false,
        Event::Samples(v) => v@.len() != batch,
        Event::Failed(_) => true,
    }
}

/// The position after `e` at `p`, with batches of `batch` samples.
pub open spec fn next_phase(p: Phase, e: Event, batch: nat) -> Phase {
    match p.state {
        ConnectionState::Idle => Phase { state: ConnectionState::WaitConnection, stopped: false },
        ConnectionState::WaitConnection => if e is Done {
            Phase { state: ConnectionState::Streaming, stopped: false }
        } else {
            p
        },
        ConnectionState::Streaming => if ends_stream(e, batch) {
            Phase { state: ConnectionState::Draining, stopped: false }
        } else {
            p
        },
        ConnectionState::Draining => if e is Done {
            if p.stopped {
                Phase { state: ConnectionState::Idle, stopped: false }
            } else {
                Phase { state: ConnectionState::Draining, stopped: true }
            }
        } else {
            p
        },
    }
}

/// The command given at `p` on `e`, with batches of `batch` samples.
pub open spec fn next_command(p: Phase, e: Event, batch: nat) -> Command {
    match p.state {
        ConnectionState::Idle => Command::WaitConnection,
        ConnectionState::WaitConnection => if e is Done {
            Command::StartConverter
        } else {
            Command::WaitConnection
        },
        ConnectionState::Streaming => if ends_stream(e, batch) {
            Command::StopConverter
        } else if e is Samples {
            Command::WritePacket
        } else {
            Command::ReadSamples(batch as usize)
        },
        ConnectionState::Draining => if e is Done {
            if p.stopped {
                Command::Proceed
            } else {
                Command::ClearConverter
            }
        } else if p.stopped {
            Command::ClearConverter
        } else {
            Command::StopConverter
        },
    }
}

/// The position after the first `k` events of `es`, from `p`.
pub open spec fn phase_after(p: Phase, es: Seq<Event>, k: nat, batch: nat) -> Phase
    decreases k,
{
    if k == 0 {
        p
    } else {
        next_phase(phase_after(p, es, (k - 1) as nat, batch), es[k - 1], batch)
    }
}

proof fn lemma_drains_to_idle(p: Phase, es: Seq<Event>, k: nat, batch: nat)
    requires
        p.state == ConnectionState::Streaming,
        es.len() > 0,
        ends_stream(es[0], batch),
        1 <= k <= es.len(),
    ensures
        phase_after(p, es, k, batch).state == ConnectionState::Draining || exists|i: nat|
            1 <= i <= k && (#[trigger] phase_after(p, es, i, batch)).state == ConnectionState::Idle,
    decreases k,
{
    assert(phase_after(p, es, 0, batch) == p);
    if k > 1 {
        lemma_drains_to_idle(p, es, (k - 1) as nat, batch);
        let prev = phase_after(p, es, (k - 1) as nat, batch);
        if prev.state != ConnectionState::Draining {
            let i = choose|i: nat|
                1 <= i <= k - 1 && (#[trigger] phase_after(p, es, i, batch)).state
                    == ConnectionState::Idle;
            assert(1 <= i <= k && phase_after(p, es, i, batch).state == ConnectionState::Idle);
        } else if phase_after(p, es, k, batch).state != ConnectionState::Draining {
            assert(phase_after(p, es, k, batch).state == ConnectionState::Idle);
        }
    }
}

/// Once streaming ends on a failure, the coordinator passes through `Idle`
/// before it waits for a connection again, whatever events follow: there is
/// no way from streaming back to waiting or streaming that skips the drain.
pub proof fn lemma_failure_drains_before_reconnect(p: Phase, es: Seq<Event>, k: nat, batch: nat)
    requires
        p.state == ConnectionState::Streaming,
        es.len() > 0,
        ends_stream(es[0], batch),
        1 <= k <= es.len(),
        phase_after(p, es, k, batch).state == ConnectionState::WaitConnection
            || phase_after(p, es, k, batch).state == ConnectionState::Streaming,
    ensures
        exists|i: nat|
            1 <= i < k && (#[trigger] phase_after(p, es, i, batch)).state == ConnectionState::Idle,
{
    assert(phase_after(p, es, 0, batch) == p);
    assert(phase_after(p, es, 1, batch).state == ConnectionState::Draining);
    lemma_drains_to_idle(p, es, k, batch);
    let i = choose|i: nat|
        1 <= i <= k && (#[trigger] phase_after(p, es, i, batch)).state == ConnectionState::Idle;
    assert(i != k);
}

/// The first event after a failure starts the drain: the converter is
/// stopped before anything else, and cleared after it stopped.
pub proof fn lemma_failure_stops_then_clears(p: Phase, e: Event, batch: nat)
    requires
        p.state == ConnectionState::Streaming,
        ends_stream(e, batch),
    ensures
        next_command(p, e, batch) == Command::StopConverter,
        next_phase(p, e, batch).state == ConnectionState::Draining,
        next_command(next_phase(p, e, batch), Event::Done, batch) == Command::ClearConverter,
        next_phase(next_phase(next_phase(p, e, batch), Event::Done, batch), Event::Done, batch).state
            == ConnectionState::Idle,
{
}

pub struct Coordinator {
    state: ConnectionState,
    stopped: bool,
    max_packet_size: u16,
    batch: usize,
    reference: CalibrationReference,
    packet: Vec<u8>,
}

impl Coordinator {
    pub closed spec fn phase(&self) -> Phase {
        Phase { state: self.state, stopped: self.stopped }
    }

    /// Samples per packet.
    pub closed spec fn batch(&self) -> nat {
        self.batch as nat
    }

    pub closed spec fn max_packet_size(&self) -> u16 {
        self.max_packet_size
    }

    pub closed spec fn reference(&self) -> CalibrationReference {
        self.reference
    }

    /// The packet to be written on `WritePacket`.
    pub closed spec fn packet_view(&self) -> Seq<u8> {
        self.packet@
    }

    pub closed spec fn wf(&self) -> bool {
        &&& self.reference.wf()
        &&& self.batch as int == samples_in(self.max_packet_size as int)
    }

    /// An idle coordinator for endpoints of `max_packet_size` bytes, scaling
    /// with `reference`.
    pub fn new(max_packet_size: u16, reference: CalibrationReference) -> (r: Coordinator)
        requires
            reference.wf(),
        ensures
            r.wf(),
            r.phase() == (Phase { state: ConnectionState::Idle, stopped: false }),
            r.max_packet_size() == max_packet_size,
            r.batch() == samples_in(max_packet_size as int),
            r.reference() == reference,
            r.packet_view().len() == 0,
    {
        Coordinator {
            state: ConnectionState::Idle,
            stopped: false,
            max_packet_size,
            batch: samples_per_packet(max_packet_size),
            reference,
            packet: Vec::new(),
        }
    }

    /// Takes the outcome of the command performed last and gives the next
    /// one. On a batch of samples the packet that carries them is assembled.
    pub fn handle(&mut self, event: Event) -> (r: Command)
        requires
            old(self).wf(),
        ensures
            final(self).wf(),
            final(self).max_packet_size() == old(self).max_packet_size(),
            final(self).batch() == old(self).batch(),
            final(self).reference() == old(self).reference(),
            final(self).phase() == next_phase(old(self).phase(), event, old(self).batch()),
            r == next_command(old(self).phase(), event, old(self).batch()),
            r == Command::WritePacket ==> {
                &&& event matches Event::Samples(v)
                &&& is_packet_of(
                    final(self).packet_view(),
                    v@,
                    old(self).reference().view_reading(),
                )
            },
            r == Command::WritePacket ==> final(self).packet_view().len() == SAMPLE_WIDTH
                * old(self).batch(),
            r == Command::WritePacket && old(self).max_packet_size() % 2 == 0
                ==> final(self).packet_view().len() == old(self).max_packet_size(),
            r != Command::WritePacket ==> final(self).packet_view() == old(self).packet_view(),
    {
        match self.state {
            ConnectionState::Idle => {
                self.state = ConnectionState::WaitConnection;
                self.stopped = false;
                Command::WaitConnection
            },
            ConnectionState::WaitConnection => match event {
                Event::Done => {
                    self.state = ConnectionState::Streaming;
                    self.stopped = false;
                    Command::StartConverter
                },
                _ => Command::WaitConnection,
            },
            ConnectionState::Streaming => match event {
                Event::Done => Command::ReadSamples(self.batch),
                Event::Samples(v) => {
                    if v.len() == self.batch {
                        self.packet = assemble_packet(v.as_slice(), &self.reference);
                        Command::WritePacket
                    } else {
                        self.state = ConnectionState::Draining;
                        self.stopped = false;
                        Command::StopConverter
                    }
                },
                Event::Failed(_) => {
                    self.state = ConnectionState::Draining;
                    self.stopped = false;
                    Command::StopConverter
                },
            },
            ConnectionState::Draining => match event {
                Event::Done => {
                    if self.stopped {
                        self.state = ConnectionState::Idle;
                        self.stopped = false;
                        Command::Proceed
                    } else {
                        self.stopped = true;
                        Command::ClearConverter
                    }
                },
                _ => {
                    if self.stopped {
                        Command::ClearConverter
                    } else {
                        Command::StopConverter
                    }
                },
            },
        }
    }

    /// Where the coordinator stands.
    pub fn state(&self) -> (r: ConnectionState)
        ensures
            r == self.phase().state,
    {
        self.state
    }

    /// Samples per packet.
    pub fn samples_per_packet(&self) -> (r: usize)
        ensures
            r == self.batch(),
    {
        self.batch
    }

    /// The packet that the last `WritePacket` command is to send.
    pub fn packet(&self) -> (r: &Vec<u8>)
        ensures
            r@ == self.packet_view(),
    {
        &self.packet
    }
}

} // verus!
