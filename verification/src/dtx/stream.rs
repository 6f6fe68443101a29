//! Events and the stream that delivers them.
//!
//! The driver writes events as frames: a four-byte header that gives the
//! length of the payload and the event code, then the payload. An
//! [`EventStream`] is the reading side of that protocol without the reading:
//! it says how many bytes it wants next, takes the outcome of that read, and
//! hands out an event once a frame is complete. The caller performs the reads
//! and the two control operations that enable and disable notifications.

use vstd::prelude::*;
use vstd::slice::slice_to_vec;
use crate::dtx::event;
use crate::dtx::status::{low_byte, low_byte_of};
use crate::dtx::uapi;
use crate::dtx::uapi::{u16_from_le, u16_le, EventHeader, Operation};
use crate::dtx::DeviceType;
use crate::error::Error;

verus! {

/// An event of the detachment system.
#[derive(Debug, Clone, PartialEq, Eq)]
pub enum Event {
    /// The user asked for the base to be detached.
    Request,
    /// A detachment in progress was cancelled.
    Cancel { reason: event::CancelReason },
    /// A base was attached or detached.
    BaseConnection { state: event::BaseState, device_type: DeviceType, id: u8 },
    /// The latch changed its state.
    LatchStatus { status: event::LatchStatus },
    /// The device changed its form factor.
    DeviceMode { mode: event::DeviceMode },
    /// A frame with a code or a payload that this library does not know,
    /// kept as it came.
    Unknown { code: u16, data: Vec<u8> },
}

/// What an [`Event`] holds, as a mathematical value.
pub enum EventView {
    Request,
    Cancel { reason: event::CancelReason },
    BaseConnection { state: event::BaseState, device_type: DeviceType, id: u8 },
    LatchStatus { status: event::LatchStatus },
    DeviceMode { mode: event::DeviceMode },
    Unknown { code: u16, data: Seq<u8> },
}

impl View for Event {
    type V = EventView;

    open spec fn view(&self) -> EventView {
        match self {
            Event::Request => EventView::Request,
            Event::Cancel { reason } => EventView::Cancel { reason: *reason },
            Event::BaseConnection { state, device_type, id } => EventView::BaseConnection {
                state: *state,
                device_type: *device_type,
                id: *id,
            },
            Event::LatchStatus { status } => EventView::LatchStatus { status: *status },
            Event::DeviceMode { mode } => EventView::DeviceMode { mode: *mode },
            Event::Unknown { code, data } => EventView::Unknown { code: *code, data: data@ },
        }
    }
}

/// The payload length that an event code calls for, where the code is known.
pub open spec fn payload_len_of(code: u16) -> Option<nat> {
    if code == uapi::SDTX_EVENT_REQUEST {
        Some(0)
    } else if code == uapi::SDTX_EVENT_CANCEL {
        Some(2)
    } else if code == uapi::SDTX_EVENT_BASE_CONNECTION {
        Some(4)
    } else if code == uapi::SDTX_EVENT_LATCH_STATUS {
        Some(2)
    } else if code == uapi::SDTX_EVENT_DEVICE_MODE {
        Some(2)
    } else {
        None
    }
}

/// The event that a frame with the given code and payload stands for.
///
/// A known code with a payload of its length decodes to its variant, the
/// 16-bit fields of the payload read in little-endian order and decoded
/// leniently. Every other frame is kept as `Unknown` with its code and its
/// payload.
pub open spec fn event_of(code: u16, data: Seq<u8>) -> EventView {
    if payload_len_of(code) != Some(data.len()) {
        EventView::Unknown { code, data }
    } else if code == uapi::SDTX_EVENT_REQUEST {
        EventView::Request
    } else if code == uapi::SDTX_EVENT_CANCEL {
        EventView::Cancel { reason: event::CancelReason::of_code(u16_le(data[0], data[1])) }
    } else if code == uapi::SDTX_EVENT_BASE_CONNECTION {
        EventView::BaseConnection {
            state: event::BaseState::of_code(u16_le(data[0], data[1])),
            device_type: DeviceType::of_base_id(u16_le(data[2], data[3])),
            id: low_byte_of(u16_le(data[2], data[3])),
        }
    } else if code == uapi::SDTX_EVENT_LATCH_STATUS {
        EventView::LatchStatus { status: event::LatchStatus::of_code(u16_le(data[0], data[1])) }
    } else {
        EventView::DeviceMode { mode: event::DeviceMode::of_code(u16_le(data[0], data[1])) }
    }
}

/// The wire bytes of a frame: the header, then the payload.
pub open spec fn frame_of(code: u16, data: Seq<u8>) -> Seq<u8>
    recommends
        data.len() <= u16::MAX,
{
    EventHeader { length: data.len() as u16, code }.wire() + data
}

/// A frame with a code that is none of the five known ones is kept as
/// `Unknown`, with its code and its payload, whatever the payload's length.
pub proof fn lemma_unknown_code_is_kept(code: u16, data: Seq<u8>)
    requires
        code < uapi::SDTX_EVENT_REQUEST || code > uapi::SDTX_EVENT_DEVICE_MODE,
    ensures
        event_of(code, data) == (EventView::Unknown { code, data }),
{
}

/// A frame with a known code is kept as `Unknown` exactly where its payload
/// has not the length that the code calls for; otherwise it decodes to the
/// variant of its code.
pub proof fn lemma_known_code_by_length(code: u16, data: Seq<u8>)
    requires
        uapi::SDTX_EVENT_REQUEST <= code <= uapi::SDTX_EVENT_DEVICE_MODE,
    ensures
        payload_len_of(code) is Some,
        event_of(code, data) is Unknown <==> payload_len_of(code) != Some(data.len()),
        payload_len_of(code) == Some(data.len()) ==> {
            &&& code == uapi::SDTX_EVENT_REQUEST ==> event_of(code, data) is Request
            &&& code == uapi::SDTX_EVENT_CANCEL ==> event_of(code, data) is Cancel
            &&& code == uapi::SDTX_EVENT_BASE_CONNECTION ==> event_of(code, data) is BaseConnection
            &&& code == uapi::SDTX_EVENT_LATCH_STATUS ==> event_of(code, data) is LatchStatus
            &&& code == uapi::SDTX_EVENT_DEVICE_MODE ==> event_of(code, data) is DeviceMode
        },
{
}

/// Where the stream stands within the sequence of frames.
#[derive(Debug, Clone, Copy, PartialEq, Eq, Structural)]
pub enum Phase {
    /// The header of the next frame is to be read.
    Header,
    /// The header was read; the payload it announces is to be read.
    Payload(EventHeader),
    /// A read failed. The stream hands out nothing more.
    Ended,
}

/// The state of an event stream.
#[derive(Debug, Clone, Copy, PartialEq, Eq, Structural)]
pub enum StreamState {
    /// Notifications are off: before the stream was enabled, and after it
    /// was torn down.
    Disabled,
    /// Notifications are on.
    Enabled(Phase),
}

/// What happens to a stream: a read that it asked for comes back, with the
/// bytes read or without where it failed, or the stream is torn down.
pub enum Input {
    Delivery(Option<Seq<u8>>),
    Teardown,
}

impl StreamState {
    /// Whether notifications are on.
    pub open spec fn is_enabled(self) -> bool {
        self is Enabled
    }

    /// Number of bytes that the stream wants read next, if it wants any.
    pub open spec fn wanted(self) -> Option<usize> {
        match self {
            StreamState::Enabled(Phase::Header) => Some(uapi::EVENT_HEADER_LEN),
            StreamState::Enabled(Phase::Payload(header)) => Some(header.length as usize),
            _ => None,
        }
    }

    /// The state after the outcome of a read was delivered: `None` stands
    /// for a failed read. A stream that wanted nothing stays as it is.
    pub open spec fn after_delivery(self, outcome: Option<Seq<u8>>) -> StreamState {
        match (self, outcome) {
            (StreamState::Enabled(Phase::Header), Some(bytes)) => StreamState::Enabled(
                Phase::Payload(EventHeader::parse(bytes)),
            ),
            (StreamState::Enabled(Phase::Payload(_)), Some(_)) => StreamState::Enabled(
                Phase::Header,
            ),
            (StreamState::Enabled(_), None) => StreamState::Enabled(Phase::Ended),
            _ => self,
        }
    }

    /// The event that a delivery of `bytes` completes, if it completes one.
    pub open spec fn completed(self, bytes: Seq<u8>) -> Option<EventView> {
        match self {
            StreamState::Enabled(Phase::Payload(header)) => Some(event_of(header.code, bytes)),
            _ => None,
        }
    }

    /// The control operation that tearing down issues: the one that
    /// disables notifications, where they are on.
    pub open spec fn teardown_operation(self) -> Option<Operation> {
        if self.is_enabled() {
            Some(Operation::EventsDisable)
        } else {
            None
        }
    }

    /// The state after one input.
    pub open spec fn step(self, input: Input) -> StreamState {
        match input {
            Input::Delivery(outcome) => self.after_delivery(outcome),
            Input::Teardown => StreamState::Disabled,
        }
    }

    /// The control operation that one input makes the stream issue.
    pub open spec fn issues(self, input: Input) -> Seq<Operation> {
        match input {
            Input::Delivery(_) => Seq::empty(),
            Input::Teardown => match self.teardown_operation() {
                Some(operation) => seq![operation],
                None => Seq::empty(),
            },
        }
    }

    /// The state after a sequence of inputs.
    pub open spec fn run(self, inputs: Seq<Input>) -> StreamState
        decreases inputs.len(),
    {
        if inputs.len() == 0 {
            self
        } else {
            self.step(inputs.first()).run(inputs.drop_first())
        }
    }

    /// The control operations that a sequence of inputs makes the stream
    /// issue, in order.
    pub open spec fn issued(self, inputs: Seq<Input>) -> Seq<Operation>
        decreases inputs.len(),
    {
        if inputs.len() == 0 {
            Seq::empty()
        } else {
            self.issues(inputs.first()) + self.step(inputs.first()).issued(inputs.drop_first())
        }
    }
}

/// Whether a sequence of inputs holds a teardown.
pub open spec fn has_teardown(inputs: Seq<Input>) -> bool {
    exists|i: int| 0 <= i < inputs.len() && inputs[i] is Teardown
}

/// No delivery turns notifications on or off: however many reads come back,
/// and whether they failed or not, a stream stays enabled or disabled as it
/// was.
pub proof fn lemma_deliveries_keep_enabled(state: StreamState, inputs: Seq<Input>)
    requires
        !has_teardown(inputs),
    ensures
        state.run(inputs).is_enabled() == state.is_enabled(),
        state.issued(inputs) == Seq::<Operation>::empty(),
    decreases inputs.len(),
{
    if inputs.len() > 0 {
        assert(!(inputs[0] is Teardown));
        let rest = inputs.drop_first();
        assert forall|i: int| 0 <= i < rest.len() implies !(rest[i] is Teardown) by {
            assert(rest[i] == inputs[i + 1]);
        }
        lemma_deliveries_keep_enabled(state.step(inputs.first()), rest);
    }
}

/// A disabled stream issues nothing, whatever happens to it.
pub proof fn lemma_disabled_issues_nothing(inputs: Seq<Input>)
    ensures
        StreamState::Disabled.run(inputs) == StreamState::Disabled,
        StreamState::Disabled.issued(inputs) == Seq::<Operation>::empty(),
    decreases inputs.len(),
{
    if inputs.len() > 0 {
        lemma_disabled_issues_nothing(inputs.drop_first());
    }
}

/// An enabled stream that is torn down disables notifications exactly once:
/// whatever was delivered before and whatever happens after the first
/// teardown, a further teardown included, the operations issued are the one
/// that disables notifications and nothing else, and the stream ends
/// disabled.
pub proof fn lemma_teardown_disables_exactly_once(state: StreamState, inputs: Seq<Input>)
    requires
        state.is_enabled(),
        has_teardown(inputs),
    ensures
        state.issued(inputs) == seq![Operation::EventsDisable],
        state.run(inputs) == StreamState::Disabled,
    decreases inputs.len(),
{
    let rest = inputs.drop_first();
    match inputs.first() {
        Input::Teardown => {
            lemma_disabled_issues_nothing(rest);
            assert(state.issued(inputs) =~= seq![Operation::EventsDisable]);
        },
        Input::Delivery(outcome) => {
            let i = choose|i: int| 0 <= i < inputs.len() && inputs[i] is Teardown;
            assert(rest[i - 1] == inputs[i]);
            lemma_teardown_disables_exactly_once(state.step(inputs.first()), rest);
            assert(state.issued(inputs) =~= seq![Operation::EventsDisable]);
        },
    }
}

/// Reading the wire bytes of a frame gives its event back: a stream that
/// stands before a header and is handed the header of the frame wants as
/// many bytes as the payload has, and handed the payload it yields the event
/// of the frame and stands before the next header.
pub proof fn lemma_frame_round_trip(code: u16, data: Seq<u8>)
    requires
        data.len() <= u16::MAX,
    ensures
        ({
            let frame = frame_of(code, data);
            let start = StreamState::Enabled(Phase::Header);
            let header = frame.subrange(0, 4);
            let payload = frame.subrange(4, frame.len() as int);
            let middle = start.after_delivery(Some(header));
            &&& frame.len() == 4 + data.len()
            &&& payload == data
            &&& start.wanted() == Some(4usize)
            &&& start.completed(header) is None
            &&& middle.wanted() == Some(data.len() as usize)
            &&& middle.completed(payload) == Some(event_of(code, data))
            &&& middle.after_delivery(Some(payload)) == start
        }),
{
    let frame = frame_of(code, data);
    let header = EventHeader { length: data.len() as u16, code };
    assert(frame.subrange(0, 4) =~= header.wire());
    assert(frame.subrange(4, frame.len() as int) =~= data);
    uapi::lemma_header_round_trip(header);
}

/// The reading side of the event protocol.
#[derive(Debug)]
pub struct EventStream {
    state: StreamState,
}

impl View for EventStream {
    type V = StreamState;

    closed spec fn view(&self) -> StreamState {
        self.state
    }
}

impl EventStream {
    /// A stream with notifications off.
    pub fn new() -> (stream: EventStream)
        ensures
            stream@ == StreamState::Disabled,
    {
        EventStream { state: StreamState::Disabled }
    }

    /// The state of the stream.
    pub fn state(&self) -> (state: StreamState)
        ensures
            state == self@,
    {
        self.state
    }

    /// Takes the reply to the control operation that enables notifications.
    ///
    /// Where the operation succeeded, a disabled stream becomes enabled and
    /// stands before the first header. Where it failed, the stream stays as
    /// it was and the failure is returned as an I/O error.
    pub fn enable<E>(&mut self, reply: Result<(), E>) -> (result: Result<(), Error<E>>)
        ensures
            match reply {
                Ok(_) => result is Ok && final(self)@ == (if old(self)@.is_enabled() {
                    old(self)@
                } else {
                    StreamState::Enabled(Phase::Header)
                }),
                Err(source) => result == Err::<(), Error<E>>(Error::Io { source }) && final(self)@
                    == old(self)@,
            },
    {
        match reply {
            Ok(_) => {
                match self.state {
                    StreamState::Disabled => {
                        self.state = StreamState::Enabled(Phase::Header);
                    },
                    StreamState::Enabled(_) => {},
                }
                Ok(())
            },
            Err(source) => Err(Error::Io { source }),
        }
    }

    /// Number of bytes that are to be read next, exactly: four for a header,
    /// the announced length for a payload. `None` where nothing is to be
    /// read, because notifications are off or a read has failed.
    pub fn wanted(&self) -> (count: Option<usize>)
        ensures
            count == self@.wanted(),
    {
        match self.state {
            StreamState::Enabled(Phase::Header) => Some(uapi::EVENT_HEADER_LEN),
            StreamState::Enabled(Phase::Payload(header)) => Some(header.length as usize),
            _ => None,
        }
    }

    /// Takes the outcome of the read that [`wanted`](Self::wanted) asked
    /// for.
    ///
    /// A header moves the stream on to the payload and yields nothing. A
    /// payload completes the frame: the event is yielded and the stream
    /// stands before the next header. A failed read is yielded as the last
    /// item: afterwards the stream wants nothing more.
    pub fn deliver<E>(&mut self, outcome: Result<&[u8], E>) -> (item: Option<Result<Event, E>>)
        requires
            old(self)@.wanted() is Some,
            outcome matches Ok(bytes) ==> old(self)@.wanted() == Some(bytes@.len() as usize),
        ensures
            match outcome {
                Ok(bytes) => {
                    &&& final(self)@ == old(self)@.after_delivery(Some(bytes@))
                    &&& match old(self)@.completed(bytes@) {
                        Some(event) => item matches Some(Ok(yielded)) && yielded@ == event,
                        None => item is None,
                    }
                },
                Err(error) => {
                    &&& final(self)@ == old(self)@.after_delivery(None)
                    &&& final(self)@.wanted() is None
                    &&& item == Some(Err::<Event, E>(error))
                },
            },
    {
        match outcome {
            Ok(bytes) => {
                match self.state {
                    StreamState::Enabled(Phase::Header) => {
                        let header = EventHeader::from_bytes(
                            &[bytes[0], bytes[1], bytes[2], bytes[3]],
                        );
                        self.state = StreamState::Enabled(Phase::Payload(header));
                        None
                    },
                    StreamState::Enabled(Phase::Payload(header)) => {
                        self.state = StreamState::Enabled(Phase::Header);
                        Some(Ok(Self::translate(header.code, bytes)))
                    },
                    _ => None,
                }
            },
            Err(error) => {
                self.state = StreamState::Enabled(Phase::Ended);
                Some(Err(error))
            },
        }
    }

    /// Tears the stream down. Returns the control operation that is to be
    /// issued: the one that disables notifications where they were on,
    /// nothing where they were off already.
    pub fn teardown(&mut self) -> (operation: Option<Operation>)
        ensures
            operation == old(self)@.teardown_operation(),
            final(self)@ == StreamState::Disabled,
    {
        match self.state {
            StreamState::Enabled(_) => {
                self.state = StreamState::Disabled;
                Some(Operation::EventsDisable)
            },
            StreamState::Disabled => None,
        }
    }

    /// Decodes the frame with the given code and payload.
    pub fn translate(code: u16, data: &[u8]) -> (event: Event)
        ensures
            event@ == event_of(code, data@),
    {
        if code == uapi::SDTX_EVENT_REQUEST {
            if data.len() != 0 {
                return Event::Unknown { code, data: slice_to_vec(data) };
            }
            Event::Request
        } else if code == uapi::SDTX_EVENT_CANCEL {
            if data.len() != 2 {
                return Event::Unknown { code, data: slice_to_vec(data) };
            }
            let reason = u16_from_le(data[0], data[1]);
            let reason = event::CancelReason::from(reason);

            Event::Cancel { reason }
        } else if code == uapi::SDTX_EVENT_BASE_CONNECTION {
            if data.len() != 4 {
                return Event::Unknown { code, data: slice_to_vec(data) };
            }
            let state = u16_from_le(data[0], data[1]);
            let state = event::BaseState::from(state);

            let base = u16_from_le(data[2], data[3]);

            let device_type = DeviceType::from(base);
            let id = low_byte(base);

            Event::BaseConnection { state, device_type, id }
        } else if code == uapi::SDTX_EVENT_LATCH_STATUS {
            if data.len() != 2 {
                return Event::Unknown { code, data: slice_to_vec(data) };
            }
            let status = u16_from_le(data[0], data[1]);
            let status = event::LatchStatus::from(status);

            Event::LatchStatus { status }
        } else if code == uapi::SDTX_EVENT_DEVICE_MODE {
            if data.len() != 2 {
                return Event::Unknown { code, data: slice_to_vec(data) };
            }
            let mode = u16_from_le(data[0], data[1]);
            let mode = event::DeviceMode::from(mode);

            Event::DeviceMode { mode }
        } else {
            Event::Unknown { code, data: slice_to_vec(data) }
        }
    }
}

} // verus!
