use std::collections::VecDeque;

use wifi_watchdog::esp::{Action, EspError, EspWiFi, Event};

const JOIN: &str = "AT+CWJAP=\"home\",\"swordfish\"\r\n";

/// A simulated co-processor on the other side of the bus.
struct CoProcessor {
    /// Messages waiting to be read; the readiness signal is high while any is.
    pending: VecDeque<Vec<u8>>,
    /// Forces the tag byte of every reply header when set.
    reply_tag: u8,
    /// Every write on the bus, in order.
    writes: Vec<Vec<u8>>,
    /// Zero bytes written to drain a message.
    drained: usize,
    /// Time spent in polling slices.
    polled_ms: u64,
    /// Time spent in settle delays.
    settled_ms: u64,
    /// Readings of the readiness signal.
    level_reads: usize,
    /// Commands received, with the replies each one queues.
    replies: fn(&[u8]) -> Vec<Vec<u8>>,
    /// Next write is the payload of a send.
    expecting_payload: bool,
    /// Next write is the length header of a send.
    expecting_length: bool,
}

fn no_reply(_: &[u8]) -> Vec<Vec<u8>> {
    Vec::new()
}

fn ok_reply(_: &[u8]) -> Vec<Vec<u8>> {
    vec![b"\r\nOK\r\n".to_vec()]
}

fn echo_reply(c: &[u8]) -> Vec<Vec<u8>> {
    vec![c.to_vec()]
}

impl CoProcessor {
    fn new(pending: Vec<&[u8]>, replies: fn(&[u8]) -> Vec<Vec<u8>>) -> CoProcessor {
        CoProcessor {
            pending: pending.into_iter().map(|m| m.to_vec()).collect(),
            reply_tag: 0x42,
            writes: Vec::new(),
            drained: 0,
            polled_ms: 0,
            settled_ms: 0,
            level_reads: 0,
            replies,
            expecting_payload: false,
            expecting_length: false,
        }
    }

    fn commands(&self) -> Vec<String> {
        let mut out = Vec::new();
        for i in 0..self.writes.len() {
            if i >= 2 && self.writes[i - 2] == vec![0x02, 0, 0, 0] {
                out.push(String::from_utf8(self.writes[i].clone()).unwrap());
            }
        }
        out
    }

    /// Runs the driver from `first` until it ends an operation.
    fn run(&mut self, driver: &mut EspWiFi, first: Action) -> Action {
        let mut action = first;
        loop {
            let event = match action {
                Action::Write { bytes, settle_ms } => {
                    self.settled_ms += settle_ms as u64;
                    if self.expecting_payload {
                        self.expecting_payload = false;
                        let queued = (self.replies)(&bytes);
                        self.pending.extend(queued);
                    } else if self.expecting_length {
                        self.expecting_length = false;
                        self.expecting_payload = true;
                    } else if bytes == vec![0x02, 0, 0, 0] {
                        self.expecting_length = true;
                    }
                    self.writes.push(bytes);
                    Event::Done
                }
                Action::Transfer { len, settle_ms } => {
                    self.settled_ms += settle_ms as u64;
                    let front = self.pending.front().cloned().unwrap_or_default();
                    if len == 4 && self.writes.last() == Some(&vec![0x01, 0, 0, 0]) {
                        let n = front.len();
                        self.writes.push(vec![0, 0, 0, 0]);
                        Event::Received {
                            bytes: vec![(n & 0x7F) as u8, (n >> 7) as u8, 0, self.reply_tag],
                        }
                    } else {
                        self.pending.pop_front();
                        assert_eq!(front.len(), len);
                        Event::Received { bytes: front }
                    }
                }
                Action::Drain { len } => {
                    self.drained += len;
                    self.pending.pop_front();
                    Event::Done
                }
                Action::Sleep { ms } => {
                    self.polled_ms += ms as u64;
                    Event::Done
                }
                Action::ReadLevel => {
                    self.level_reads += 1;
                    Event::Level { high: !self.pending.is_empty() }
                }
                other => return other,
            };
            assert!(driver.accepts(&event));
            action = driver.step(event);
        }
    }
}

#[test]
fn send_writes_three_frames() {
    let mut d = EspWiFi::new(JOIN);
    let mut esp = CoProcessor::new(vec![], no_reply);
    let first = d.send("AT\r\n");
    assert_eq!(esp.run(&mut d, first), Action::Success);
    assert_eq!(
        esp.writes,
        vec![vec![0x02, 0, 0, 0], vec![4, 0, 0, 0x41], b"AT\r\n".to_vec()]
    );
    assert_eq!(esp.settled_ms, 5 + 5 + 15);
    assert!(d.is_idle());
}

#[test]
fn echo_round_trip() {
    let message = "the quick brown fox jumps over the lazy dog";
    let mut d = EspWiFi::new(JOIN);
    let mut esp = CoProcessor::new(vec![], echo_reply);
    let first = d.send(message);
    assert_eq!(esp.run(&mut d, first), Action::Success);
    let first = d.recv(256);
    assert_eq!(
        esp.run(&mut d, first),
        Action::Message { bytes: message.as_bytes().to_vec() }
    );
}

#[test]
fn echo_round_trip_longest_message() {
    let message = "x".repeat(127);
    let mut d = EspWiFi::new(JOIN);
    let mut esp = CoProcessor::new(vec![], echo_reply);
    let first = d.send(&message);
    assert_eq!(esp.run(&mut d, first), Action::Success);
    assert_eq!(esp.writes[1], vec![127, 0, 0, 0x41]);
    let first = d.recv(127);
    assert_eq!(
        esp.run(&mut d, first),
        Action::Message { bytes: message.into_bytes() }
    );
}

#[test]
fn echo_round_trip_empty_message() {
    let mut d = EspWiFi::new(JOIN);
    let mut esp = CoProcessor::new(vec![], echo_reply);
    let first = d.send("");
    assert_eq!(esp.run(&mut d, first), Action::Success);
    assert_eq!(esp.writes[1], vec![0, 0, 0, 0x41]);
    let first = d.recv(0);
    assert_eq!(esp.run(&mut d, first), Action::Message { bytes: vec![] });
}

#[test]
fn recv_low_signal_would_block() {
    let mut d = EspWiFi::new(JOIN);
    let mut esp = CoProcessor::new(vec![], no_reply);
    let first = d.recv(256);
    assert_eq!(
        esp.run(&mut d, first),
        Action::Failure { error: EspError::WouldBlock }
    );
    assert!(esp.writes.is_empty());
    assert_eq!(esp.level_reads, 1);
    assert!(d.is_idle());
}

#[test]
fn recv_bad_tag_protocol_error() {
    for tag in [0x00u8, 0x41, 0x43, 0xFF] {
        let mut d = EspWiFi::new(JOIN);
        let mut esp = CoProcessor::new(vec![b"\r\nOK\r\n"], no_reply);
        esp.reply_tag = tag;
        let first = d.recv(256);
        assert_eq!(
            esp.run(&mut d, first),
            Action::Failure { error: EspError::ProtocolError }
        );
        // Only the request header was written, and the payload stays unread.
        assert_eq!(esp.writes, vec![vec![0x01, 0, 0, 0], vec![0, 0, 0, 0]]);
        assert_eq!(esp.pending.len(), 1);
    }
}

#[test]
fn recv_reply_header_steps() {
    let mut d = EspWiFi::new(JOIN);
    assert_eq!(d.recv(256), Action::ReadLevel);
    assert_eq!(
        d.step(Event::Level { high: true }),
        Action::Write { bytes: vec![0x01, 0, 0, 0], settle_ms: 5 }
    );
    assert_eq!(d.step(Event::Done), Action::Transfer { len: 4, settle_ms: 5 });
    // Byte 0 keeps its low 7 bits only; byte 1 counts in units of 128.
    let header = vec![0x83, 0x01, 0x77, 0x42];
    assert_eq!(
        d.step(Event::Received { bytes: header }),
        Action::Transfer { len: 131, settle_ms: 15 }
    );
    assert!(!d.accepts(&Event::Received { bytes: vec![0; 130] }));
    assert!(!d.accepts(&Event::Done));
    assert_eq!(
        d.step(Event::Received { bytes: vec![b'a'; 131] }),
        Action::Message { bytes: vec![b'a'; 131] }
    );
}

#[test]
fn recv_overflow_drains_message() {
    let long = vec![b'z'; 300];
    let mut d = EspWiFi::new(JOIN);
    let mut esp = CoProcessor::new(vec![&long[..]], no_reply);
    let first = d.recv(256);
    assert_eq!(
        esp.run(&mut d, first),
        Action::Failure { error: EspError::BufferOverflow }
    );
    assert_eq!(esp.drained, 300);
}

#[test]
fn recv_overflow_by_one() {
    let mut d = EspWiFi::new(JOIN);
    assert_eq!(d.recv(5), Action::ReadLevel);
    d.step(Event::Level { high: true });
    d.step(Event::Done);
    assert_eq!(
        d.step(Event::Received { bytes: vec![6, 0, 0, 0x42] }),
        Action::Drain { len: 6 }
    );
    assert_eq!(
        d.step(Event::Done),
        Action::Failure { error: EspError::BufferOverflow }
    );
}

#[test]
fn recv_blocking_times_out() {
    for (timeout, slept) in [(0u32, 0u64), (1, 100), (100, 100), (250, 300), (1000, 1000)] {
        let mut d = EspWiFi::new(JOIN);
        let mut esp = CoProcessor::new(vec![], no_reply);
        let first = d.recv_blocking(256, timeout);
        assert_eq!(
            esp.run(&mut d, first),
            Action::Failure { error: EspError::MessageTimeout }
        );
        assert_eq!(esp.polled_ms, slept);
        assert!(esp.polled_ms >= timeout as u64);
        assert!(esp.polled_ms < timeout as u64 + 100);
        assert!(esp.writes.is_empty());
    }
}

#[test]
fn recv_blocking_ready_message() {
    let mut d = EspWiFi::new(JOIN);
    let mut esp = CoProcessor::new(vec![b"ready"], no_reply);
    let first = d.recv_blocking(16, 1000);
    assert_eq!(
        esp.run(&mut d, first),
        Action::Message { bytes: b"ready".to_vec() }
    );
    assert_eq!(esp.polled_ms, 0);
}

#[test]
fn expect_message_skips_others() {
    let mut d = EspWiFi::new(JOIN);
    let mut esp = CoProcessor::new(vec![b"busy", b"OK ", b"OK"], no_reply);
    let first = d.expect_message("OK", 500);
    assert_eq!(esp.run(&mut d, first), Action::Success);
    assert!(esp.pending.is_empty());
}

#[test]
fn expect_message_times_out() {
    let mut d = EspWiFi::new(JOIN);
    let mut esp = CoProcessor::new(vec![b"busy"], no_reply);
    let first = d.expect_message("OK", 300);
    assert_eq!(
        esp.run(&mut d, first),
        Action::Failure { error: EspError::MessageTimeout }
    );
    assert_eq!(esp.polled_ms, 300);
}

#[test]
fn expect_message_overflow_propagates() {
    let long = vec![b'q'; 257];
    let mut d = EspWiFi::new(JOIN);
    let mut esp = CoProcessor::new(vec![&long[..], b"OK"], no_reply);
    let first = d.expect_message("OK", 300);
    assert_eq!(
        esp.run(&mut d, first),
        Action::Failure { error: EspError::BufferOverflow }
    );
    assert_eq!(esp.drained, 257);
}

#[test]
fn session_succeeds() {
    let mut d = EspWiFi::new(JOIN);
    let mut esp = CoProcessor::new(vec![b"stale", b"ready"], ok_reply);
    let first = d.is_internet_ok();
    assert_eq!(esp.run(&mut d, first), Action::Success);
    assert_eq!(
        esp.commands(),
        vec![
            "AT+CWMODE=0\r\n".to_string(),
            "AT+CWMODE=1\r\n".to_string(),
            JOIN.to_string(),
            "AT+PING=\"8.8.8.8\"\r\n".to_string(),
            "AT+CWMODE=0\r\n".to_string(),
        ]
    );
    assert!(d.is_idle());
}

fn fail_ping(c: &[u8]) -> Vec<Vec<u8>> {
    if c.starts_with(b"AT+PING") {
        vec![b"\r\nERROR\r\n".to_vec()]
    } else {
        vec![b"\r\nOK\r\n".to_vec()]
    }
}

#[test]
fn session_stops_at_first_failure() {
    let mut d = EspWiFi::new(JOIN);
    let mut esp = CoProcessor::new(vec![], fail_ping);
    let first = d.is_internet_ok();
    assert_eq!(
        esp.run(&mut d, first),
        Action::Failure { error: EspError::MessageTimeout }
    );
    assert_eq!(esp.commands().len(), 4);
    // The reachability step has a 30 s budget.
    assert_eq!(esp.polled_ms, 30_000);
}

#[test]
fn session_silent_radio_times_out_first_step() {
    let mut d = EspWiFi::new(JOIN);
    let mut esp = CoProcessor::new(vec![], no_reply);
    let first = d.is_internet_ok();
    assert_eq!(
        esp.run(&mut d, first),
        Action::Failure { error: EspError::MessageTimeout }
    );
    assert_eq!(esp.commands(), vec!["AT+CWMODE=0\r\n".to_string()]);
    assert_eq!(esp.polled_ms, 10_000);
}
