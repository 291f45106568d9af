//! Driver for the co-processor radio, written as a state machine.
//!
//! The driver never touches the bus, the readiness line or the clock itself.
//! Each call returns the next [`Action`] to perform; the caller performs it
//! and hands the outcome back to [`EspWiFi::step`] as an [`Event`], until a
//! terminal action (`Message`, `Success` or `Failure`) comes out.
use vstd::prelude::*;
use vstd::string::*;
use crate::frame::{
    decode_reply, length_header, length_header_spec, receive_header, receive_header_spec,
    lemma_echoed_length, reply_length, reply_well_formed, send_header, send_header_spec,
    MAX_SEND_LEN, REPLY_TAG,
};

verus! {

/// Length of one slice of the readiness-polling loop.
pub const TIMEOUT_SLICE_MS: u32 = 100;

/// Settle delay after a header write or a header exchange.
pub const HEADER_SETTLE_MS: u32 = 5;

/// Settle delay after a payload transfer.
pub const PAYLOAD_SETTLE_MS: u32 = 15;

/// Receive capacity used by the probe session and by `expect_message`.
pub const SESSION_BUFFER_LEN: usize = 256;

/// Budget of the mode and configuration steps of the probe session.
pub const CONFIG_TIMEOUT_MS: u32 = 10_000;

/// Budget of the network join and reachability steps of the probe session.
pub const NETWORK_TIMEOUT_MS: u32 = 30_000;

/// Number of AT commands in the probe session.
pub const SESSION_STEPS: usize = 5;

#[derive(Debug, Clone, Copy, PartialEq, Eq, Structural)]
pub enum EspError {
    ProtocolError,
    BufferOverflow,
    WouldBlock,
    MessageTimeout,
}

/// The next thing the caller must do for the driver.
#[derive(Debug, PartialEq, Eq)]
pub enum Action {
    /// Write `bytes` on the bus, then wait `settle_ms`; answer `Event::Done`.
    Write { bytes: Vec<u8>, settle_ms: u32 },
    /// Exchange `len` bytes full duplex (sending zeros), then wait
    /// `settle_ms`; answer `Event::Received` with the `len` bytes read.
    Transfer { len: usize, settle_ms: u32 },
    /// Write `len` zero bytes on the bus; answer `Event::Done`.
    Drain { len: usize },
    /// Wait `ms`; answer `Event::Done`.
    Sleep { ms: u32 },
    /// Read the readiness signal; answer `Event::Level`.
    ReadLevel,
    /// A receive finished with this payload.
    Message { bytes: Vec<u8> },
    /// A send, an expectation or a probe session finished successfully.
    Success,
    /// The operation failed.
    Failure { error: EspError },
}

/// What the caller observed while performing the last action.
#[derive(Debug, PartialEq, Eq)]
pub enum Event {
    Done,
    Level { high: bool },
    Received { bytes: Vec<u8> },
}

/// An [`Action`] with its bytes as sequences.
pub enum ActionView {
    Write { bytes: Seq<u8>, settle_ms: u32 },
    Transfer { len: nat, settle_ms: u32 },
    Drain { len: nat },
    Sleep { ms: u32 },
    ReadLevel,
    Message { bytes: Seq<u8> },
    Success,
    Failure { error: EspError },
}

/// An [`Event`] with its bytes as sequences.
pub enum EventView {
    Done,
    Level { high: bool },
    Received { bytes: Seq<u8> },
}

impl View for Action {
    type V = ActionView;

    open spec fn view(&self) -> ActionView {
        match self {
            Action::Write { bytes, settle_ms } => ActionView::Write {
                bytes: bytes@,
                settle_ms: *settle_ms,
            },
            Action::Transfer { len, settle_ms } => ActionView::Transfer {
                len: *len as nat,
                settle_ms: *settle_ms,
            },
            Action::Drain { len } => ActionView::Drain { len: *len as nat },
            Action::Sleep { ms } => ActionView::Sleep { ms: *ms },
            Action::ReadLevel => ActionView::ReadLevel,
            Action::Message { bytes } => ActionView::Message { bytes: bytes@ },
            Action::Success => ActionView::Success,
            Action::Failure { error } => ActionView::Failure { error: *error },
        }
    }
}

impl View for Event {
    type V = EventView;

    open spec fn view(&self) -> EventView {
        match self {
            Event::Done => EventView::Done,
            Event::Level { high } => EventView::Level { high: *high },
            Event::Received { bytes } => EventView::Received { bytes: bytes@ },
        }
    }
}

/// The operation in progress.
#[derive(Debug, Clone, Copy, PartialEq, Eq, Structural)]
pub enum Task {
    Idle,
    Send,
    Recv,
    RecvBlocking,
    Expect,
    Session,
}

/// Where the operation in progress stands: which answer the driver awaits.
#[derive(Debug, Clone, Copy, PartialEq, Eq, Structural)]
pub enum Phase {
    Idle,
    SentHeader,
    SentLength,
    SentPayload,
    Polling { remaining: u32 },
    Sleeping { remaining: u32 },
    Checking,
    Requested,
    AwaitReply,
    Draining,
    AwaitPayload { len: usize },
}

/// The driver's state.
pub struct DriverView {
    pub task: Task,
    pub phase: Phase,
    /// Receive capacity of the receive in progress.
    pub cap: nat,
    /// Budget of the blocking wait in progress.
    pub timeout: u32,
    /// Payload of the send in progress.
    pub outgoing: Seq<u8>,
    /// Message awaited by an expectation.
    pub expected: Seq<u8>,
    /// Probe session progress: 0 while clearing stale messages, then the
    /// number of the AT command in flight.
    pub step: nat,
    /// The network-join command of the probe session.
    pub join: Seq<u8>,
}

/// Co-processor driver.
pub struct EspWiFi {
    task: Task,
    phase: Phase,
    cap: usize,
    timeout: u32,
    outgoing: Vec<u8>,
    expected: Vec<u8>,
    step: usize,
    join: Vec<u8>,
}

impl View for EspWiFi {
    type V = DriverView;

    closed spec fn view(&self) -> DriverView {
        DriverView {
            task: self.task,
            phase: self.phase,
            cap: self.cap as nat,
            timeout: self.timeout,
            outgoing: self.outgoing@,
            expected: self.expected@,
            step: self.step as nat,
            join: self.join@,
        }
    }
}

impl DriverView {
    /// The texts to send fit the 7-bit length field and the session step
    /// stays in range.
    pub open spec fn wf(self) -> bool {
        &&& self.join.len() <= MAX_SEND_LEN
        &&& self.outgoing.len() <= MAX_SEND_LEN
        &&& self.step <= SESSION_STEPS
        &&& self.cap <= usize::MAX
    }

    /// No operation is in progress.
    pub open spec fn idle(self) -> bool {
        self.task == Task::Idle && self.phase == Phase::Idle
    }
}

/// The reply that every step of the probe session awaits.
pub open spec fn ok_reply() -> Seq<u8> {
    "\r\nOK\r\n".spec_bytes()
}

/// The AT command of step `k` (1 to 5) of the probe session.
pub open spec fn command(join: Seq<u8>, k: nat) -> Seq<u8> {
    if k == 1 || k == 5 {
        "AT+CWMODE=0\r\n".spec_bytes()
    } else if k == 2 {
        "AT+CWMODE=1\r\n".spec_bytes()
    } else if k == 3 {
        join
    } else {
        "AT+PING=\"8.8.8.8\"\r\n".spec_bytes()
    }
}

/// The budget of step `k` of the probe session.
pub open spec fn step_timeout(k: nat) -> u32 {
    if k == 3 || k == 4 {
        NETWORK_TIMEOUT_MS
    } else {
        CONFIG_TIMEOUT_MS
    }
}

/// Ends the operation in progress with the terminal action `a`.
pub open spec fn finish(v: DriverView, a: ActionView) -> (DriverView, ActionView) {
    (DriverView { task: Task::Idle, phase: Phase::Idle, ..v }, a)
}

/// Starts sending `msg`: the send header goes out first.
pub open spec fn start_send(v: DriverView, msg: Seq<u8>) -> (DriverView, ActionView) {
    (
        DriverView { phase: Phase::SentHeader, outgoing: msg, ..v },
        ActionView::Write { bytes: send_header_spec(), settle_ms: HEADER_SETTLE_MS },
    )
}

/// Starts a blocking wait with the whole budget: the readiness signal is read first.
pub open spec fn start_wait(v: DriverView) -> (DriverView, ActionView) {
    (DriverView { phase: Phase::Polling { remaining: v.timeout }, ..v }, ActionView::ReadLevel)
}

/// Starts a non-blocking receive: the readiness signal is read first.
pub open spec fn start_recv(v: DriverView) -> (DriverView, ActionView) {
    (DriverView { phase: Phase::Checking, ..v }, ActionView::ReadLevel)
}

/// What follows a completed send.
pub open spec fn after_send(v: DriverView) -> (DriverView, ActionView) {
    if v.task == Task::Session {
        start_wait(
            DriverView { timeout: step_timeout(v.step), expected: ok_reply(), ..v },
        )
    } else {
        finish(v, ActionView::Success)
    }
}

/// What follows the step of the probe session whose reply matched.
pub open spec fn next_command(v: DriverView) -> (DriverView, ActionView) {
    if v.step >= SESSION_STEPS {
        finish(v, ActionView::Success)
    } else {
        start_send(DriverView { step: v.step + 1, ..v }, command(v.join, v.step + 1))
    }
}

/// What follows a completed receive with outcome `r`.
pub open spec fn after_recv(v: DriverView, r: Result<Seq<u8>, EspError>) -> (
    DriverView,
    ActionView,
) {
    if v.task == Task::Session && v.step == 0 {
        // Clearing stale messages: go on until nothing is pending.
        if r == Err::<Seq<u8>, EspError>(EspError::WouldBlock) {
            next_command(v)
        } else {
            start_recv(v)
        }
    } else if v.task == Task::Session || v.task == Task::Expect {
        match r {
            Ok(p) => if p == v.expected {
                if v.task == Task::Session {
                    next_command(v)
                } else {
                    finish(v, ActionView::Success)
                }
            } else {
                start_wait(v)
            },
            Err(e) => finish(v, ActionView::Failure { error: e }),
        }
    } else {
        match r {
            Ok(p) => finish(v, ActionView::Message { bytes: p }),
            Err(e) => finish(v, ActionView::Failure { error: e }),
        }
    }
}

/// The event that the driver awaits in its current phase.
pub open spec fn accepts(v: DriverView, e: EventView) -> bool {
    match v.phase {
        Phase::Idle => false,
        Phase::Polling { .. } | Phase::Checking => e is Level,
        Phase::AwaitReply => e matches EventView::Received { bytes } && bytes.len() == 4,
        Phase::AwaitPayload { len } => e matches EventView::Received { bytes } && bytes.len()
            == len,
        _ => e is Done,
    }
}

/// The transition of the driver on an accepted event: its next state and the
/// next action.
pub open spec fn next(v: DriverView, e: EventView) -> (DriverView, ActionView) {
    match v.phase {
        Phase::SentHeader => (
            DriverView { phase: Phase::SentLength, ..v },
            ActionView::Write {
                bytes: length_header_spec(v.outgoing.len()),
                settle_ms: HEADER_SETTLE_MS,
            },
        ),
        Phase::SentLength => (
            DriverView { phase: Phase::SentPayload, ..v },
            ActionView::Write { bytes: v.outgoing, settle_ms: PAYLOAD_SETTLE_MS },
        ),
        Phase::SentPayload => after_send(v),
        Phase::Polling { remaining } => if e == (EventView::Level { high: true }) {
            start_recv(v)
        } else if remaining == 0 {
            finish(v, ActionView::Failure { error: EspError::MessageTimeout })
        } else {
            (
                DriverView {
                    phase: Phase::Sleeping {
                        remaining: if remaining > TIMEOUT_SLICE_MS {
                            (remaining - TIMEOUT_SLICE_MS) as u32
                        } else {
                            0
                        },
                    },
                    ..v
                },
                ActionView::Sleep { ms: TIMEOUT_SLICE_MS },
            )
        },
        Phase::Sleeping { remaining } => (
            DriverView { phase: Phase::Polling { remaining }, ..v },
            ActionView::ReadLevel,
        ),
        Phase::Checking => if e == (EventView::Level { high: true }) {
            (
                DriverView { phase: Phase::Requested, ..v },
                ActionView::Write { bytes: receive_header_spec(), settle_ms: HEADER_SETTLE_MS },
            )
        } else {
            after_recv(v, Err(EspError::WouldBlock))
        },
        Phase::Requested => (
            DriverView { phase: Phase::AwaitReply, ..v },
            ActionView::Transfer { len: 4, settle_ms: HEADER_SETTLE_MS },
        ),
        Phase::AwaitReply => {
            let h = e->Received_bytes;
            if !reply_well_formed(h) {
                after_recv(v, Err(EspError::ProtocolError))
            } else if reply_length(h) > v.cap {
                (
                    DriverView { phase: Phase::Draining, ..v },
                    ActionView::Drain { len: reply_length(h) },
                )
            } else {
                (
                    DriverView { phase: Phase::AwaitPayload { len: reply_length(h) as usize }, ..v },
                    ActionView::Transfer { len: reply_length(h), settle_ms: PAYLOAD_SETTLE_MS },
                )
            }
        },
        Phase::Draining => after_recv(v, Err(EspError::BufferOverflow)),
        Phase::AwaitPayload { .. } => after_recv(v, Ok(e->Received_bytes)),
        // No operation is in progress: no event is accepted.
        Phase::Idle => (v, ActionView::Success),
    }
}

/// The driver state after `n` rounds of finding the readiness signal low and
/// sleeping one slice.
pub open spec fn low_rounds(v: DriverView, n: nat) -> DriverView
    decreases n,
{
    if n == 0 {
        v
    } else {
        let slept = next(v, EventView::Level { high: false }).0;
        low_rounds(next(slept, EventView::Done).0, (n - 1) as nat)
    }
}

/// Number of slices a blocking wait with budget `t` sleeps before it gives up.
pub open spec fn slices_for(t: nat) -> nat {
    (t + TIMEOUT_SLICE_MS - 1) as nat / (TIMEOUT_SLICE_MS as nat)
}

proof fn lemma_low_rounds(v: DriverView, t: u32, j: nat)
    requires
        v.phase == (Phase::Polling { remaining: t }),
        j == 0 || (j - 1) * 100 < t,
    ensures
        low_rounds(v, j) == (DriverView {
            phase: Phase::Polling {
                remaining: if t > j * 100 {
                    (t - j * 100) as u32
                } else {
                    0
                },
            },
            ..v
        }),
    decreases j,
{
    if j > 0 {
        let rest: u32 = if t > 100 {
            (t - 100) as u32
        } else {
            0
        };
        let w = DriverView { phase: Phase::Polling { remaining: rest }, ..v };
        assert(next(next(v, EventView::Level { high: false }).0, EventView::Done).0 == w);
        lemma_low_rounds(w, rest, (j - 1) as nat);
    }
}

/// A blocking wait whose readiness signal never asserts sleeps one slice
/// after each low reading until its budget `t` is spent, then fails with
/// `MessageTimeout`; the time slept is at least `t` and less than `t` plus
/// one slice.
pub proof fn lemma_wait_times_out(v: DriverView, t: u32)
    requires
        v.phase == (Phase::Polling { remaining: t }),
    ensures
        forall|j: nat|
            j < slices_for(t as nat) ==> #[trigger] next(
                low_rounds(v, j),
                EventView::Level { high: false },
            ).1 == (ActionView::Sleep { ms: TIMEOUT_SLICE_MS }),
        next(low_rounds(v, slices_for(t as nat)), EventView::Level { high: false }) == finish(
            v,
            ActionView::Failure { error: EspError::MessageTimeout },
        ),
        t <= slices_for(t as nat) * TIMEOUT_SLICE_MS,
        slices_for(t as nat) * TIMEOUT_SLICE_MS < t + TIMEOUT_SLICE_MS,
{
    let k = slices_for(t as nat);
    assert(t <= k * 100 && k * 100 < t + 100) by (nonlinear_arith)
        requires
            k == (t + 99) as nat / 100,
    ;
    assert forall|j: nat| j < k implies #[trigger] next(
        low_rounds(v, j),
        EventView::Level { high: false },
    ).1 == (ActionView::Sleep { ms: TIMEOUT_SLICE_MS }) by {
        lemma_low_rounds(v, t, j);
    }
    lemma_low_rounds(v, t, k);
}

/// A message of at most 127 bytes goes out as the send header, the length
/// header and the payload; a co-processor that echoes it back (its length
/// header with the reply tag, then the payload) has a cooperating receive
/// with room for it return exactly that message.
pub proof fn lemma_echo_round_trip(v: DriverView, m: Seq<u8>, cap: nat)
    requires
        m.len() <= MAX_SEND_LEN,
        m.len() <= cap,
    ensures
        ({
            let (s1, a1) = start_send(DriverView { task: Task::Send, ..v }, m);
            let (s2, a2) = next(s1, EventView::Done);
            let (s3, a3) = next(s2, EventView::Done);
            let (s4, a4) = next(s3, EventView::Done);
            &&& a1 == ActionView::Write { bytes: send_header_spec(), settle_ms: HEADER_SETTLE_MS }
            &&& a2 == ActionView::Write {
                bytes: length_header_spec(m.len()),
                settle_ms: HEADER_SETTLE_MS,
            }
            &&& a3 == ActionView::Write { bytes: m, settle_ms: PAYLOAD_SETTLE_MS }
            &&& a4 == ActionView::Success
            &&& s4.idle()
        }),
        ({
            let echo = length_header_spec(m.len()).update(3, REPLY_TAG);
            let (r1, b1) = start_recv(DriverView { task: Task::Recv, cap, ..v });
            let (r2, b2) = next(r1, EventView::Level { high: true });
            let (r3, b3) = next(r2, EventView::Done);
            let (r4, b4) = next(r3, EventView::Received { bytes: echo });
            let (r5, b5) = next(r4, EventView::Received { bytes: m });
            &&& b1 == ActionView::ReadLevel
            &&& b2 == ActionView::Write {
                bytes: receive_header_spec(),
                settle_ms: HEADER_SETTLE_MS,
            }
            &&& b3 == ActionView::Transfer { len: 4, settle_ms: HEADER_SETTLE_MS }
            &&& b4 == ActionView::Transfer { len: m.len(), settle_ms: PAYLOAD_SETTLE_MS }
            &&& accepts(r4, EventView::Received { bytes: m })
            &&& b5 == ActionView::Message { bytes: m }
            &&& r5.idle()
        }),
{
    lemma_echoed_length(m.len());
}

/// A non-blocking receive that finds the readiness signal low fails with
/// `WouldBlock`, and its only action was reading the signal: nothing was
/// written on the bus.
pub proof fn lemma_low_signal_would_block(v: DriverView, cap: nat)
    ensures
        start_recv(DriverView { task: Task::Recv, cap, ..v }).1 == ActionView::ReadLevel,
        next(
            start_recv(DriverView { task: Task::Recv, cap, ..v }).0,
            EventView::Level { high: false },
        ).1 == (ActionView::Failure { error: EspError::WouldBlock }),
        next(
            start_recv(DriverView { task: Task::Recv, cap, ..v }).0,
            EventView::Level { high: false },
        ).0.idle(),
{
}

/// A receive whose reply header does not carry the reply tag fails with
/// `ProtocolError`, whatever the other header bytes are, and reads nothing more.
pub proof fn lemma_bad_tag_protocol_error(v: DriverView, h: Seq<u8>)
    requires
        v.phase == Phase::AwaitReply,
        v.task == Task::Recv || v.task == Task::RecvBlocking,
        h.len() == 4,
        h[3] != REPLY_TAG,
    ensures
        next(v, EventView::Received { bytes: h }) == finish(
            v,
            ActionView::Failure { error: EspError::ProtocolError },
        ),
{
}

/// A receive whose reply announces more bytes than its buffer holds drains
/// exactly that many bytes from the bus, then fails with `BufferOverflow`.
pub proof fn lemma_overflow_drains(v: DriverView, h: Seq<u8>)
    requires
        v.phase == Phase::AwaitReply,
        v.task == Task::Recv || v.task == Task::RecvBlocking,
        reply_well_formed(h),
        reply_length(h) > v.cap,
    ensures
        next(v, EventView::Received { bytes: h }).1 == (ActionView::Drain {
            len: reply_length(h),
        }),
        next(next(v, EventView::Received { bytes: h }).0, EventView::Done) == finish(
            v,
            ActionView::Failure { error: EspError::BufferOverflow },
        ),
{
}

/// The reply header that announces the message `m`.
pub open spec fn reply_header(m: Seq<u8>) -> Seq<u8> {
    seq![(m.len() % 128) as u8, (m.len() / 128) as u8, 0u8, REPLY_TAG]
}

/// From a send just announced: the send completes, the readiness signal is
/// high at once, and the co-processor delivers `reply`.
pub open spec fn exchange(v: DriverView, reply: Seq<u8>) -> (DriverView, ActionView) {
    let s1 = next(v, EventView::Done).0;
    let s2 = next(s1, EventView::Done).0;
    let s3 = next(s2, EventView::Done).0;
    let s4 = next(s3, EventView::Level { high: true }).0;
    let s5 = next(s4, EventView::Level { high: true }).0;
    let s6 = next(s5, EventView::Done).0;
    let s7 = next(s6, EventView::Received { bytes: reply_header(reply) }).0;
    next(s7, EventView::Received { bytes: reply })
}

/// A probe session that finds nothing stale pending starts by announcing
/// its first command.
pub proof fn lemma_session_starts(v: DriverView)
    ensures
        ({
            let s = start_recv(
                DriverView { task: Task::Session, cap: SESSION_BUFFER_LEN as nat, step: 0, ..v },
            ).0;
            next(s, EventView::Level { high: false }) == start_send(
                DriverView { step: 1, ..s },
                command(v.join, 1),
            )
        }),
{
}

/// In a probe session, a command answered at once with `OK` leads to the
/// next command, and after the fifth to success.
pub proof fn lemma_ok_exchange(v: DriverView)
    requires
        v.phase == Phase::SentHeader,
        v.task == Task::Session,
        1 <= v.step <= SESSION_STEPS,
        v.cap == SESSION_BUFFER_LEN,
    ensures
        next(next(v, EventView::Done).0, EventView::Done).1 == (ActionView::Write {
            bytes: v.outgoing,
            settle_ms: PAYLOAD_SETTLE_MS,
        }),
        ({
            let w = DriverView { timeout: step_timeout(v.step), expected: ok_reply(), ..v };
            if v.step < SESSION_STEPS {
                exchange(v, ok_reply()) == start_send(
                    DriverView { step: v.step + 1, ..w },
                    command(v.join, v.step + 1),
                )
            } else {
                exchange(v, ok_reply()) == finish(w, ActionView::Success)
            }
        }),
{
    lemma_fixed_texts();
}

/// Whether `a` and `b` hold the same bytes.
fn same_bytes(a: &Vec<u8>, b: &Vec<u8>) -> (r: bool)
    ensures
        r == (a@ == b@),
{
    if a.len() != b.len() {
        return false;
    }
    let mut i: usize = 0;
    while i < a.len()
        invariant
            a@.len() == b@.len(),
            i <= a@.len(),
            a@.subrange(0, i as int) == b@.subrange(0, i as int),
        decreases a@.len() - i,
    {
        if a[i] != b[i] {
            assert(a@.subrange(0, i as int + 1)[i as int] != b@.subrange(0, i as int + 1)[i as int]);
            return false;
        }
        assert(a@.subrange(0, i as int + 1) =~= a@.subrange(0, i as int).push(a@[i as int]));
        assert(b@.subrange(0, i as int + 1) =~= b@.subrange(0, i as int).push(b@[i as int]));
        i = i + 1;
    }
    assert(a@ =~= a@.subrange(0, i as int));
    assert(b@ =~= b@.subrange(0, i as int));
    true
}

/// The bytes of a text held in a fresh vector.
fn bytes_of(s: &str) -> (r: Vec<u8>)
    ensures
        r@ == s.spec_bytes(),
{
    vstd::slice::slice_to_vec(s.as_bytes())
}

/// A fresh copy of `v`.
fn copy_bytes(v: &Vec<u8>) -> (r: Vec<u8>)
    ensures
        r@ == v@,
{
    vstd::slice::slice_to_vec(v.as_slice())
}

/// The fixed texts of the probe session fit the 7-bit length field.
proof fn lemma_fixed_texts()
    ensures
        "AT+CWMODE=0\r\n".spec_bytes().len() <= MAX_SEND_LEN,
        "AT+CWMODE=1\r\n".spec_bytes().len() <= MAX_SEND_LEN,
        "AT+PING=\"8.8.8.8\"\r\n".spec_bytes().len() <= MAX_SEND_LEN,
        ok_reply().len() == 6,
{
    broadcast use is_ascii_spec_bytes;

    reveal_strlit("AT+CWMODE=0\r\n");
    reveal_strlit("AT+CWMODE=1\r\n");
    reveal_strlit("AT+PING=\"8.8.8.8\"\r\n");
    reveal_strlit("\r\nOK\r\n");
    assert(is_ascii("\r\nOK\r\n"));
    assert(is_ascii("AT+CWMODE=0\r\n"));
    assert(is_ascii("AT+CWMODE=1\r\n"));
    assert(is_ascii("AT+PING=\"8.8.8.8\"\r\n"));
}

impl EspWiFi {
    /// A driver with no operation in progress; `join` is the network-join
    /// command that the probe session sends.
    pub fn new(join: &str) -> (r: EspWiFi)
        requires
            join.spec_bytes().len() <= MAX_SEND_LEN,
        ensures
            r@.wf(),
            r@.idle(),
            r@.join == join.spec_bytes(),
    {
        EspWiFi {
            task: Task::Idle,
            phase: Phase::Idle,
            cap: 0,
            timeout: 0,
            outgoing: Vec::new(),
            expected: Vec::new(),
            step: 0,
            join: bytes_of(join),
        }
    }

    /// No operation is in progress.
    pub fn is_idle(&self) -> (r: bool)
        ensures
            r == self@.idle(),
    {
        self.task == Task::Idle && self.phase == Phase::Idle
    }

    /// Whether `event` is the answer that the driver awaits.
    pub fn accepts(&self, event: &Event) -> (r: bool)
        ensures
            r == accepts(self@, event@),
    {
        match self.phase {
            Phase::Idle => false,
            Phase::Polling { .. } | Phase::Checking => matches!(event, Event::Level { .. }),
            Phase::AwaitReply => match event {
                Event::Received { bytes } => bytes.len() == 4,
                _ => false,
            },
            Phase::AwaitPayload { len } => match event {
                Event::Received { bytes } => bytes.len() == len,
                _ => false,
            },
            _ => matches!(event, Event::Done),
        }
    }

    fn finish(&mut self, a: Action) -> (r: Action)
        requires
            old(self)@.wf(),
        ensures
            (final(self)@, r@) == finish(old(self)@, a@),
            final(self)@.wf(),
    {
        self.task = Task::Idle;
        self.phase = Phase::Idle;
        a
    }

    fn start_send(&mut self, msg: Vec<u8>) -> (r: Action)
        requires
            old(self)@.wf(),
            msg@.len() <= MAX_SEND_LEN,
        ensures
            (final(self)@, r@) == start_send(old(self)@, msg@),
            final(self)@.wf(),
    {
        self.phase = Phase::SentHeader;
        self.outgoing = msg;
        Action::Write { bytes: send_header(), settle_ms: HEADER_SETTLE_MS }
    }

    fn start_wait(&mut self) -> (r: Action)
        requires
            old(self)@.wf(),
        ensures
            (final(self)@, r@) == start_wait(old(self)@),
            final(self)@.wf(),
    {
        self.phase = Phase::Polling { remaining: self.timeout };
        Action::ReadLevel
    }

    fn start_recv(&mut self) -> (r: Action)
        requires
            old(self)@.wf(),
        ensures
            (final(self)@, r@) == start_recv(old(self)@),
            final(self)@.wf(),
    {
        self.phase = Phase::Checking;
        Action::ReadLevel
    }

    fn command(&self, k: usize) -> (r: Vec<u8>)
        requires
            self@.wf(),
        ensures
            r@ == command(self@.join, k as nat),
            r@.len() <= MAX_SEND_LEN,
    {
        proof {
            lemma_fixed_texts();
        }
        if k == 1 || k == 5 {
            bytes_of("AT+CWMODE=0\r\n")
        } else if k == 2 {
            bytes_of("AT+CWMODE=1\r\n")
        } else if k == 3 {
            copy_bytes(&self.join)
        } else {
            bytes_of("AT+PING=\"8.8.8.8\"\r\n")
        }
    }

    fn next_command(&mut self) -> (r: Action)
        requires
            old(self)@.wf(),
        ensures
            (final(self)@, r@) == next_command(old(self)@),
            final(self)@.wf(),
    {
        if self.step >= SESSION_STEPS {
            self.finish(Action::Success)
        } else {
            self.step = self.step + 1;
            let c = self.command(self.step);
            self.start_send(c)
        }
    }

    fn after_send(&mut self) -> (r: Action)
        requires
            old(self)@.wf(),
        ensures
            (final(self)@, r@) == after_send(old(self)@),
            final(self)@.wf(),
    {
        if self.task == Task::Session {
            self.timeout = if self.step == 3 || self.step == 4 {
                NETWORK_TIMEOUT_MS
            } else {
                CONFIG_TIMEOUT_MS
            };
            self.expected = bytes_of("\r\nOK\r\n");
            self.start_wait()
        } else {
            self.finish(Action::Success)
        }
    }

    fn after_recv(&mut self, r: Result<Vec<u8>, EspError>) -> (a: Action)
        requires
            old(self)@.wf(),
        ensures
            (final(self)@, a@) == after_recv(
                old(self)@,
                match r {
                    Ok(p) => Ok(p@),
                    Err(e) => Err(e),
                },
            ),
            final(self)@.wf(),
    {
        if self.task == Task::Session && self.step == 0 {
            match r {
                Err(EspError::WouldBlock) => self.next_command(),
                _ => self.start_recv(),
            }
        } else if self.task == Task::Session || self.task == Task::Expect {
            match r {
                Ok(p) => {
                    if same_bytes(&p, &self.expected) {
                        if self.task == Task::Session {
                            self.next_command()
                        } else {
                            self.finish(Action::Success)
                        }
                    } else {
                        self.start_wait()
                    }
                },
                Err(e) => self.finish(Action::Failure { error: e }),
            }
        } else {
            match r {
                Ok(p) => self.finish(Action::Message { bytes: p }),
                Err(e) => self.finish(Action::Failure { error: e }),
            }
        }
    }

    /// Starts sending `s`: announces it, gives its length, then writes it.
    pub fn send(&mut self, s: &str) -> (r: Action)
        requires
            old(self)@.wf(),
            s.spec_bytes().len() <= MAX_SEND_LEN,
        ensures
            (final(self)@, r@) == start_send(
                DriverView { task: Task::Send, ..old(self)@ },
                s.spec_bytes(),
            ),
            final(self)@.wf(),
    {
        self.task = Task::Send;
        self.start_send(bytes_of(s))
    }

    /// Starts a non-blocking receive into a buffer of `cap` bytes.
    pub fn recv(&mut self, cap: usize) -> (r: Action)
        requires
            old(self)@.wf(),
        ensures
            (final(self)@, r@) == start_recv(
                DriverView { task: Task::Recv, cap: cap as nat, ..old(self)@ },
            ),
            final(self)@.wf(),
    {
        self.task = Task::Recv;
        self.cap = cap;
        self.start_recv()
    }

    /// Starts a receive into a buffer of `cap` bytes that first waits up to
    /// `timeout` ms for the readiness signal.
    pub fn recv_blocking(&mut self, cap: usize, timeout: u32) -> (r: Action)
        requires
            old(self)@.wf(),
        ensures
            (final(self)@, r@) == start_wait(
                DriverView { task: Task::RecvBlocking, cap: cap as nat, timeout, ..old(self)@ },
            ),
            final(self)@.wf(),
    {
        self.task = Task::RecvBlocking;
        self.cap = cap;
        self.timeout = timeout;
        self.start_wait()
    }

    /// Starts waiting for `message`, discarding every other message, each
    /// blocking receive with a budget of `timeout` ms.
    pub fn expect_message(&mut self, message: &str, timeout: u32) -> (r: Action)
        requires
            old(self)@.wf(),
        ensures
            (final(self)@, r@) == start_wait(
                DriverView {
                    task: Task::Expect,
                    cap: SESSION_BUFFER_LEN as nat,
                    timeout,
                    expected: message.spec_bytes(),
                    ..old(self)@
                },
            ),
            final(self)@.wf(),
    {
        self.task = Task::Expect;
        self.cap = SESSION_BUFFER_LEN;
        self.timeout = timeout;
        self.expected = bytes_of(message);
        self.start_wait()
    }

    /// Starts the connectivity probe session: drains stale messages, then
    /// runs the five AT commands, each awaiting `OK`.
    pub fn is_internet_ok(&mut self) -> (r: Action)
        requires
            old(self)@.wf(),
        ensures
            (final(self)@, r@) == start_recv(
                DriverView {
                    task: Task::Session,
                    cap: SESSION_BUFFER_LEN as nat,
                    step: 0,
                    ..old(self)@
                },
            ),
            final(self)@.wf(),
    {
        self.task = Task::Session;
        self.cap = SESSION_BUFFER_LEN;
        self.step = 0;
        self.start_recv()
    }

    /// Advances the operation in progress with the outcome of the last action.
    pub fn step(&mut self, event: Event) -> (r: Action)
        requires
            old(self)@.wf(),
            accepts(old(self)@, event@),
        ensures
            (final(self)@, r@) == next(old(self)@, event@),
            final(self)@.wf(),
    {
        match self.phase {
            Phase::SentHeader => {
                self.phase = Phase::SentLength;
                Action::Write {
                    bytes: length_header(self.outgoing.len()),
                    settle_ms: HEADER_SETTLE_MS,
                }
            },
            Phase::SentLength => {
                self.phase = Phase::SentPayload;
                Action::Write { bytes: copy_bytes(&self.outgoing), settle_ms: PAYLOAD_SETTLE_MS }
            },
            Phase::SentPayload => self.after_send(),
            Phase::Polling { remaining } => {
                if matches!(event, Event::Level { high: true }) {
                    self.start_recv()
                } else if remaining == 0 {
                    self.finish(Action::Failure { error: EspError::MessageTimeout })
                } else {
                    let rest: u32 = if remaining > TIMEOUT_SLICE_MS {
                        remaining - TIMEOUT_SLICE_MS
                    } else {
                        0
                    };
                    self.phase = Phase::Sleeping { remaining: rest };
                    Action::Sleep { ms: TIMEOUT_SLICE_MS }
                }
            },
            Phase::Sleeping { remaining } => {
                self.phase = Phase::Polling { remaining };
                Action::ReadLevel
            },
            Phase::Checking => {
                if matches!(event, Event::Level { high: true }) {
                    self.phase = Phase::Requested;
                    Action::Write { bytes: receive_header(), settle_ms: HEADER_SETTLE_MS }
                } else {
                    self.after_recv(Err(EspError::WouldBlock))
                }
            },
            Phase::Requested => {
                self.phase = Phase::AwaitReply;
                Action::Transfer { len: 4, settle_ms: HEADER_SETTLE_MS }
            },
            Phase::AwaitReply => {
                let h = match event {
                    Event::Received { bytes } => bytes,
                    _ => Vec::new(),
                };
                match decode_reply(h.as_slice()) {
                    None => self.after_recv(Err(EspError::ProtocolError)),
                    Some(n) => {
                        if n > self.cap {
                            self.phase = Phase::Draining;
                            Action::Drain { len: n }
                        } else {
                            self.phase = Phase::AwaitPayload { len: n };
                            Action::Transfer { len: n, settle_ms: PAYLOAD_SETTLE_MS }
                        }
                    },
                }
            },
            Phase::Draining => self.after_recv(Err(EspError::BufferOverflow)),
            Phase::AwaitPayload { .. } => {
                let p = match event {
                    Event::Received { bytes } => bytes,
                    _ => Vec::new(),
                };
                self.after_recv(Ok(p))
            },
            // No operation is in progress: no event is accepted.
            Phase::Idle => Action::Success,
        }
    }
}

} // verus!
