use adc_stream::{
    CalibrationReference, CircularBuffer, Command, ConnectionState, Coordinator, Event,
    StreamFailure, TransportError,
};

/// A software stand-in for the converter and the transport, driven by the
/// coordinator's commands.
struct Bench {
    coordinator: Coordinator,
    converter: CircularBuffer,
    connected: bool,
    sent: Vec<Vec<u16>>,
    commands: Vec<Command>,
    next_sample: u16,
}

impl Bench {
    fn new(max_packet_size: u16, capacity: usize) -> Bench {
        let reference = CalibrationReference::from_reading(1200).unwrap();
        Bench {
            coordinator: Coordinator::new(max_packet_size, reference),
            converter: CircularBuffer::new(capacity),
            connected: true,
            sent: Vec::new(),
            commands: Vec::new(),
            next_sample: 0,
        }
    }

    fn produce(&mut self, n: usize) {
        for _ in 0..n {
            self.converter.push_sample(self.next_sample);
            self.next_sample += 1;
        }
    }

    /// Runs one command; returns `None` where the command would suspend.
    fn perform(&mut self, c: Command) -> Option<Event> {
        match c {
            Command::Proceed => Some(Event::Done),
            Command::WaitConnection => {
                if self.connected {
                    Some(Event::Done)
                } else {
                    None
                }
            }
            Command::StartConverter => {
                self.converter.start();
                Some(Event::Done)
            }
            Command::ReadSamples(n) => match self.converter.read_exact(n) {
                Err(e) => Some(Event::Failed(StreamFailure::from(e))),
                Ok(Some(v)) => Some(Event::Samples(v)),
                Ok(None) => None,
            },
            Command::WritePacket => {
                if !self.connected {
                    return Some(Event::Failed(StreamFailure::from(TransportError::Disabled)));
                }
                let p = self.coordinator.packet();
                self.sent.push(p.chunks(2).map(|c| u16::from_ne_bytes([c[0], c[1]])).collect());
                Some(Event::Done)
            }
            Command::StopConverter => {
                self.converter.stop();
                Some(Event::Done)
            }
            Command::ClearConverter => {
                self.converter.clear();
                Some(Event::Done)
            }
        }
    }

    /// Feeds `event` and keeps going until a command would suspend; gives
    /// back that command.
    fn run(&mut self, mut event: Event) -> Command {
        loop {
            let c = self.coordinator.handle(event);
            self.commands.push(c);
            match self.perform(c) {
                Some(e) => event = e,
                None => return c,
            }
        }
    }
}

#[test]
fn starts_idle_and_waits_for_the_host() {
    let mut b = Bench::new(64, 64);
    assert_eq!(b.coordinator.state(), ConnectionState::Idle);
    assert_eq!(b.coordinator.samples_per_packet(), 32);
    b.connected = false;
    assert_eq!(b.run(Event::Done), Command::WaitConnection);
    assert_eq!(b.coordinator.state(), ConnectionState::WaitConnection);
}

#[test]
fn full_batch_is_sent_as_one_packet() {
    let mut b = Bench::new(64, 64);
    assert_eq!(b.run(Event::Done), Command::ReadSamples(32));
    assert_eq!(b.coordinator.state(), ConnectionState::Streaming);
    b.produce(31);
    assert_eq!(b.run(Event::Done), Command::ReadSamples(32));
    assert!(b.sent.is_empty());
    b.produce(1);
    assert_eq!(b.run(Event::Done), Command::ReadSamples(32));
    assert_eq!(b.sent.len(), 1);
    assert_eq!(b.coordinator.packet().len(), 64);
    // the reference reads 1200 mV, so codes pass unchanged
    assert_eq!(b.sent[0], (0..32).collect::<Vec<u16>>());
}

#[test]
fn overrun_drains_before_waiting_again() {
    let mut b = Bench::new(8, 8);
    b.run(Event::Done);
    b.produce(4);
    b.run(Event::Done);
    assert_eq!(b.sent, vec![vec![0, 1, 2, 3]]);
    // the mover outruns the reader: 9 unread samples in 8 slots
    b.produce(9);
    b.commands.clear();
    b.connected = false;
    assert_eq!(b.run(Event::Done), Command::WaitConnection);
    assert_eq!(
        b.commands,
        vec![
            Command::ReadSamples(4),
            Command::StopConverter,
            Command::ClearConverter,
            Command::Proceed,
            Command::WaitConnection,
        ]
    );
    assert_eq!(b.sent.len(), 1);
    b.connected = true;
    b.run(Event::Done);
    b.produce(4);
    b.run(Event::Done);
    // nothing produced before the overrun comes through
    assert_eq!(b.sent[1], vec![13, 14, 15, 16]);
}

#[test]
fn reconnect_streams_from_a_clear_buffer() {
    let mut b = Bench::new(8, 16);
    b.run(Event::Done);
    b.produce(4);
    b.run(Event::Done);
    assert_eq!(b.sent.len(), 1);
    // the host leaves with a batch in flight and more samples buffered
    b.produce(6);
    b.connected = false;
    b.commands.clear();
    assert_eq!(b.run(Event::Done), Command::WaitConnection);
    assert!(b.commands.contains(&Command::StopConverter));
    assert!(b.commands.contains(&Command::ClearConverter));
    assert_eq!(b.sent.len(), 1);
    assert_eq!(b.coordinator.state(), ConnectionState::WaitConnection);
    b.connected = true;
    b.commands.clear();
    assert_eq!(b.run(Event::Done), Command::ReadSamples(4));
    assert_eq!(b.commands[0], Command::StartConverter);
    b.produce(4);
    b.run(Event::Done);
    assert_eq!(b.sent.len(), 2);
    assert_eq!(b.sent[1], vec![10, 11, 12, 13]);
}

#[test]
fn short_batch_ends_the_stream() {
    let reference = CalibrationReference::from_reading(1200).unwrap();
    let mut c = Coordinator::new(8, reference);
    assert_eq!(c.handle(Event::Done), Command::WaitConnection);
    assert_eq!(c.handle(Event::Done), Command::StartConverter);
    assert_eq!(c.handle(Event::Done), Command::ReadSamples(4));
    assert_eq!(c.handle(Event::Samples(vec![1, 2])), Command::StopConverter);
    assert_eq!(c.state(), ConnectionState::Draining);
}

#[test]
fn buffer_overflow_also_drains() {
    let reference = CalibrationReference::from_reading(1200).unwrap();
    let mut c = Coordinator::new(8, reference);
    c.handle(Event::Done);
    c.handle(Event::Done);
    c.handle(Event::Done);
    let f = StreamFailure::Transport(TransportError::BufferOverflow);
    assert_eq!(c.handle(Event::Failed(f)), Command::StopConverter);
    // a repeated failure while draining asks for the stop again
    assert_eq!(c.handle(Event::Failed(f)), Command::StopConverter);
    assert_eq!(c.handle(Event::Done), Command::ClearConverter);
    assert_eq!(c.handle(Event::Done), Command::Proceed);
    assert_eq!(c.state(), ConnectionState::Idle);
    assert_eq!(c.handle(Event::Done), Command::WaitConnection);
}

#[test]
fn waiting_ignores_stray_events() {
    let reference = CalibrationReference::from_reading(1200).unwrap();
    let mut c = Coordinator::new(64, reference);
    c.handle(Event::Done);
    assert_eq!(c.handle(Event::Samples(vec![1])), Command::WaitConnection);
    assert_eq!(c.handle(Event::Failed(StreamFailure::Overrun)), Command::WaitConnection);
    assert_eq!(c.state(), ConnectionState::WaitConnection);
}
