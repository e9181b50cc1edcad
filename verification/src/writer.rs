//! One write to the display: connect, discover, find the characteristic,
//! write with acknowledgement, disconnect. The writer decides the next step
//! from what the last one came to; the caller makes the radio calls.
//!
//! Every step up to the write must go through. Closing the link afterwards
//! is best effort: the display has the payload by then, so a link that will
//! not close does not turn the session into a failure.

use uuid::Uuid;
use vstd::prelude::*;

verus! {

/// The characteristic of the display that takes the status.
pub const TARGET_CHAR_UUID_STR: &'static str = "9ecadc24-0ee5-a9e0-93f3-a3b50200406e";

/// How long a connection attempt may take before it counts as failed.
pub const CONNECT_TIMEOUT_SEC: u64 = 5;

/// The 128-bit value of the UUID that `text` writes, as the `uuid` crate
/// reads it; `None` where it reads none.
pub uninterp spec fn uuid_value(text: Seq<char>) -> Option<u128>;

/// Reads a UUID with `Uuid::parse_str` and packs it with `Uuid::as_u128`.
///
/// Trusted: the result is the one that [`uuid_value`] names, that is, it
/// depends on the characters of `text` alone.
#[verifier::external_body]
fn parse_uuid(text: &str) -> (id: Option<u128>)
    ensures
        id == uuid_value(text@),
{
    match Uuid::parse_str(text) {
        Ok(id) => Some(id.as_u128()),
        Err(_) => None,
    }
}

/// The identifier of the characteristic to write to, or `None` if the
/// built-in text for it is no UUID, which no session can recover from.
pub fn target_characteristic() -> (id: Option<u128>)
    ensures
        id == uuid_value(TARGET_CHAR_UUID_STR@),
{
    parse_uuid(TARGET_CHAR_UUID_STR)
}

/// Why a write did not go through.
#[derive(Clone, Copy, Debug, PartialEq, Eq, Structural)]
pub enum WriteError {
    /// The display did not answer the connection attempt in time.
    ConnectTimeout,
    ConnectFailed,
    DiscoveryFailed,
    /// The display offers no characteristic with the wanted identifier.
    CharacteristicNotFound,
    WriteFailed,
}

/// Where a write session stands.
#[derive(Clone, Copy, Debug, PartialEq, Eq)]
pub enum WriterState {
    Connecting,
    Discovering,
    /// Writing to the characteristic found at this position.
    Writing(usize),
    Disconnecting,
    Finished(Result<(), WriteError>),
}

/// What the radio reported of the step last asked for.
#[derive(Clone, Debug, PartialEq, Eq)]
pub enum WriterEvent {
    Connected,
    ConnectFailed,
    ConnectTimedOut,
    /// Discovery succeeded; these are the identifiers of the characteristics
    /// found, in the order in which the radio lists them.
    Discovered(Vec<u128>),
    DiscoveryFailed,
    Written,
    WriteFailed,
    Disconnected,
    /// The link could not be closed. Worth a line in the log, and no more.
    DisconnectFailed,
}

/// What to ask of the radio next.
#[derive(Clone, Copy, Debug, PartialEq, Eq)]
pub enum WriterAction {
    /// Connect, giving up after this many seconds.
    Connect(u64),
    DiscoverServices,
    /// Write the payload, with acknowledgement, to the characteristic at this
    /// position of the discovered list.
    Write(usize),
    Disconnect,
    /// Nothing more: the session is over and this is its outcome.
    Report(Result<(), WriteError>),
}

/// A session of a single write. It is used once: when it has finished, every
/// further event leaves it finished.
#[derive(Clone, Copy, Debug, PartialEq, Eq)]
pub struct DeviceWriter {
    pub state: WriterState,
    /// The identifier of the characteristic to write to.
    pub characteristic: u128,
}

/// The first position of `wanted` in `ids`, or `None` if it is not there.
pub fn position_of(ids: &Vec<u128>, wanted: u128) -> (at: Option<usize>)
    ensures
        at is Some == ids@.index_of_first(wanted) is Some,
        at matches Some(i) ==> ids@.index_of_first(wanted) == Some(i as int),
        at matches Some(i) ==> i < ids.len() && ids[i as int] == wanted,
        at is None ==> !ids@.contains(wanted),
{
    proof {
        ids@.index_of_first_ensures(wanted);
    }
    let mut i: usize = 0;
    while i < ids.len()
        invariant
            i <= ids.len(),
            forall|j: int| 0 <= j < i ==> ids[j] != wanted,
        decreases ids.len() - i,
    {
        if ids[i] == wanted {
            proof {
                assert(ids@.contains(wanted));
                ids@.index_of_first_ensures(wanted);
            }
            return Some(i);
        }
        i = i + 1;
    }
    None
}

impl WriterState {
    /// What a session in this state is waiting to have done.
    pub open spec fn pending(self) -> WriterAction {
        match self {
            WriterState::Connecting => WriterAction::Connect(CONNECT_TIMEOUT_SEC),
            WriterState::Discovering => WriterAction::DiscoverServices,
            WriterState::Writing(at) => WriterAction::Write(at),
            WriterState::Disconnecting => WriterAction::Disconnect,
            WriterState::Finished(outcome) => WriterAction::Report(outcome),
        }
    }
}

impl DeviceWriter {
    /// The state that `event` leads to. A step that fails before the payload
    /// is acknowledged ends the session with its error; after that the
    /// session ends in success, whether the link closes or not. An event
    /// that the state does not wait for changes nothing.
    pub open spec fn after(self, event: WriterEvent) -> WriterState {
        match (self.state, event) {
            (WriterState::Connecting, WriterEvent::Connected) => WriterState::Discovering,
            (WriterState::Connecting, WriterEvent::ConnectTimedOut) => WriterState::Finished(
                Err(WriteError::ConnectTimeout),
            ),
            (WriterState::Connecting, WriterEvent::ConnectFailed) => WriterState::Finished(
                Err(WriteError::ConnectFailed),
            ),
            (WriterState::Discovering, WriterEvent::Discovered(ids)) => match ids@.index_of_first(
                self.characteristic,
            ) {
                Some(at) => WriterState::Writing(at as usize),
                None => WriterState::Finished(
                    Err(WriteError::CharacteristicNotFound),
                ),
            },
            (WriterState::Discovering, WriterEvent::DiscoveryFailed) => WriterState::Finished(
                Err(WriteError::DiscoveryFailed),
            ),
            (WriterState::Writing(_), WriterEvent::Written) => WriterState::Disconnecting,
            (WriterState::Writing(_), WriterEvent::WriteFailed) => WriterState::Finished(
                Err(WriteError::WriteFailed),
            ),
            (WriterState::Disconnecting, WriterEvent::Disconnected) => WriterState::Finished(
                Ok(()),
            ),
            (WriterState::Disconnecting, WriterEvent::DisconnectFailed) => WriterState::Finished(
                Ok(()),
            ),
            _ => self.state,
        }
    }

    /// Opens a session for a write to `characteristic`. The first thing to
    /// ask of the radio is a connection, to be given up after
    /// [`CONNECT_TIMEOUT_SEC`].
    pub fn start(characteristic: u128) -> (session: (DeviceWriter, WriterAction))
        ensures
            session.0.state == WriterState::Connecting,
            session.0.characteristic == characteristic,
            session.1 == WriterAction::Connect(CONNECT_TIMEOUT_SEC),
    {
        (
            DeviceWriter { state: WriterState::Connecting, characteristic },
            WriterAction::Connect(CONNECT_TIMEOUT_SEC),
        )
    }

    /// Takes in what the radio reported and says what to ask of it next.
    pub fn step(&mut self, event: WriterEvent) -> (action: WriterAction)
        ensures
            final(self).state == old(self).after(event),
            final(self).characteristic == old(self).characteristic,
            action == final(self).state.pending(),
    {
        let next = match (self.state, event) {
            (WriterState::Connecting, WriterEvent::Connected) => WriterState::Discovering,
            (WriterState::Connecting, WriterEvent::ConnectTimedOut) => WriterState::Finished(
                Err(WriteError::ConnectTimeout),
            ),
            (WriterState::Connecting, WriterEvent::ConnectFailed) => WriterState::Finished(
                Err(WriteError::ConnectFailed),
            ),
            (WriterState::Discovering, WriterEvent::Discovered(ids)) => match position_of(
                &ids,
                self.characteristic,
            ) {
                Some(at) => WriterState::Writing(at),
                None => WriterState::Finished(
                    Err(WriteError::CharacteristicNotFound),
                ),
            },
            (WriterState::Discovering, WriterEvent::DiscoveryFailed) => WriterState::Finished(
                Err(WriteError::DiscoveryFailed),
            ),
            (WriterState::Writing(_), WriterEvent::Written) => WriterState::Disconnecting,
            (WriterState::Writing(_), WriterEvent::WriteFailed) => WriterState::Finished(
                Err(WriteError::WriteFailed),
            ),
            (WriterState::Disconnecting, WriterEvent::Disconnected) => WriterState::Finished(
                Ok(()),
            ),
            (WriterState::Disconnecting, WriterEvent::DisconnectFailed) => WriterState::Finished(
                Ok(()),
            ),
            (state, _) => state,
        };
        self.state = next;
        match next {
            WriterState::Connecting => WriterAction::Connect(CONNECT_TIMEOUT_SEC),
            WriterState::Discovering => WriterAction::DiscoverServices,
            WriterState::Writing(at) => WriterAction::Write(at),
            WriterState::Disconnecting => WriterAction::Disconnect,
            WriterState::Finished(outcome) => WriterAction::Report(outcome),
        }
    }

    /// The outcome, once the session is over.
    pub fn outcome(&self) -> (outcome: Option<Result<(), WriteError>>)
        ensures
            outcome == match self.state {
                WriterState::Finished(outcome) => Some(outcome),
                _ => None,
            },
    {
        match self.state {
            WriterState::Finished(outcome) => Some(outcome),
            _ => None,
        }
    }
}

impl WriterEvent {
    /// The error that this event ends a session with, if it does. A link
    /// that could not be closed is no such error: by then the payload has
    /// been acknowledged.
    pub open spec fn failure(self) -> Option<WriteError> {
        match self {
            WriterEvent::ConnectFailed => Some(WriteError::ConnectFailed),
            WriterEvent::ConnectTimedOut => Some(WriteError::ConnectTimeout),
            WriterEvent::DiscoveryFailed => Some(WriteError::DiscoveryFailed),
            WriterEvent::WriteFailed => Some(WriteError::WriteFailed),
            _ => None,
        }
    }
}

/// A session is used once: when it has finished, no event moves it.
pub proof fn lemma_finished_stays(writer: DeviceWriter, event: WriterEvent)
    requires
        writer.state is Finished,
    ensures
        writer.after(event) == writer.state,
{
}

/// A session ends in success only when the link is closed, or found not to
/// close, after the write, so only after every earlier step went through.
pub proof fn lemma_success_comes_last(writer: DeviceWriter, event: WriterEvent)
    requires
        !(writer.state is Finished),
        writer.after(event) == WriterState::Finished(Ok::<(), WriteError>(())),
    ensures
        writer.state == WriterState::Disconnecting,
        event is Disconnected || event is DisconnectFailed,
{
}

/// Closing the link is best effort: once the write has been acknowledged the
/// session ends in success, whether or not the link could be closed, and in
/// no other way.
pub proof fn lemma_disconnect_is_best_effort(writer: DeviceWriter, event: WriterEvent)
    requires
        writer.state == WriterState::Disconnecting,
    ensures
        event is Disconnected || event is DisconnectFailed ==> writer.after(event)
            == WriterState::Finished(Ok::<(), WriteError>(())),
        !(event is Disconnected || event is DisconnectFailed) ==> writer.after(event)
            == WriterState::Disconnecting,
{
}

/// A session ends in failure only by a step that failed, and then with that
/// step's error, or by a display that lacks the characteristic.
pub proof fn lemma_failure_is_typed(writer: DeviceWriter, event: WriterEvent, error: WriteError)
    requires
        !(writer.state is Finished),
        writer.after(event) == WriterState::Finished(Err::<(), WriteError>(error)),
    ensures
        event.failure() == Some(error) || (event matches WriterEvent::Discovered(ids)
            && !ids@.contains(writer.characteristic) && error
            == WriteError::CharacteristicNotFound),
{
    if let WriterEvent::Discovered(ids) = event {
        ids@.index_of_first_ensures(writer.characteristic);
    }
}

/// Where every step up to the write goes through and the display offers the
/// characteristic, the payload is written to the first characteristic that
/// has the wanted identifier, and the session ends in success however the
/// closing of the link goes.
pub proof fn lemma_clean_run_delivers(characteristic: u128, ids: Vec<u128>)
    requires
        ids@.contains(characteristic),
    ensures
        ({
            let connecting = DeviceWriter { state: WriterState::Connecting, characteristic };
            let discovering = DeviceWriter {
                state: connecting.after(WriterEvent::Connected),
                characteristic,
            };
            let writing = DeviceWriter {
                state: discovering.after(WriterEvent::Discovered(ids)),
                characteristic,
            };
            let closing = DeviceWriter {
                state: writing.after(WriterEvent::Written),
                characteristic,
            };
            &&& writing.state matches WriterState::Writing(at)
            &&& at < ids@.len()
            &&& ids@[at as int] == characteristic
            &&& forall|j: int| 0 <= j < at ==> ids@[j] != characteristic
            &&& closing.after(WriterEvent::Disconnected) == WriterState::Finished(
                Ok::<(), WriteError>(()),
            )
            &&& closing.after(WriterEvent::DisconnectFailed) == WriterState::Finished(
                Ok::<(), WriteError>(()),
            )
        }),
{
    ids@.index_of_first_ensures(characteristic);
    assert(ids@.len() == ids.len());
}

} // verus!
