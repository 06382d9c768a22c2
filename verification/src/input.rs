//! Input coalescing and input frames, built on the protocol engine's input
//! database and fast-path encoder.

use ironrdp::input::{Database, Operation};
use ironrdp::pdu::input::fast_path::{FastPathInput, FastPathInputEvent};
use smallvec::SmallVec;
use vstd::prelude::*;

verus! {

/// `ironrdp::pdu::input::fast_path::FastPathInputEvent`: one input event in the
/// protocol's low-overhead encoding. Carried through untouched.
#[verifier::external_type_specification]
#[verifier::external_body]
pub struct ExFastPathInputEvent(FastPathInputEvent);

/// `ironrdp::input::Database`: tracks which keys and buttons are currently held,
/// so that releases can be synthesized.
#[verifier::external_type_specification]
#[verifier::external_body]
pub struct ExDatabase(Database);

/// `ironrdp::input::Operation`: one user input operation.
#[verifier::external_type_specification]
#[verifier::external_body]
pub struct ExOperation(Operation);

/// A batch of fast-path input events, held in the small vector that the input
/// database hands them out in (`smallvec::SmallVec`). The verifier does not look
/// inside: it refuses a declaration of the vector's own type, whose parameter is
/// bound by a trait of that crate. What a batch holds is named by
/// [`batch_events`].
#[verifier::external_body]
#[derive(Debug, PartialEq, Eq)]
pub struct FastPathInputEvents(pub SmallVec<[FastPathInputEvent; 2]>);

/// The events that a batch holds, in order.
pub uninterp spec fn batch_events(batch: FastPathInputEvents) -> Seq<FastPathInputEvent>;

impl View for FastPathInputEvents {
    type V = Seq<FastPathInputEvent>;

    open spec fn view(&self) -> Seq<FastPathInputEvent> {
        batch_events(*self)
    }
}

/// Whether a batch holds no event, by `SmallVec::is_empty`.
///
/// Trusted: the answer is whether the events named by [`batch_events`] are none.
#[verifier::external_body]
pub(crate) fn batch_is_empty(batch: &FastPathInputEvents) -> (empty: bool)
    ensures
        empty == (batch_events(*batch).len() == 0),
{
    batch.0.is_empty()
}

/// The input events that `Database::apply` returns when a transaction is
/// applied to a database in the given state.
pub uninterp spec fn applied_events(database: Database, transaction: Seq<Operation>) -> Seq<
    FastPathInputEvent,
>;

/// The release events that `Database::release_all` returns for a database in the
/// given state: one or two for each key and button that it holds as pressed.
pub uninterp spec fn released_events(database: Database) -> Seq<FastPathInputEvent>;

/// Creates an empty input database with `Database::new`.
///
/// Trusted: a new database holds nothing as pressed, so releasing everything
/// yields no event.
#[verifier::external_body]
pub(crate) fn database_new() -> (database: Database)
    ensures
        released_events(database).len() == 0,
{
    Database::new()
}

/// Applies a transaction with `Database::apply` and hands out the batch of
/// input events it produced.
///
/// Trusted: the events of the batch are those named by [`applied_events`] for
/// the database as it was and the transaction; an empty transaction yields no
/// event and leaves the database as it was.
#[verifier::external_body]
pub(crate) fn database_apply(database: &mut Database, transaction: Vec<Operation>) -> (events:
    FastPathInputEvents)
    ensures
        batch_events(events) == applied_events(*old(database), transaction@),
        transaction@.len() == 0 ==> batch_events(events).len() == 0 && *final(database) == *old(
            database,
        ),
{
    FastPathInputEvents(database.apply(transaction))
}

/// Releases every held key and button with `Database::release_all` and hands out
/// the batch of release events.
///
/// Trusted: the events of the batch are those named by [`released_events`] for
/// the database as it was; afterwards the database holds nothing as pressed, so
/// releasing everything again yields no event.
#[verifier::external_body]
pub(crate) fn database_release_all(database: &mut Database) -> (events: FastPathInputEvents)
    ensures
        batch_events(events) == released_events(*old(database)),
        released_events(*final(database)).len() == 0,
{
    FastPathInputEvents(database.release_all())
}

/// Flag bits of a lock-key synchronization event.
pub open spec fn lock_flags(scroll_lock: bool, num_lock: bool, caps_lock: bool, kana_lock: bool) -> int {
    (if scroll_lock {
        1int
    } else {
        0int
    }) + (if num_lock {
        2int
    } else {
        0int
    }) + (if caps_lock {
        4int
    } else {
        0int
    }) + (if kana_lock {
        8int
    } else {
        0int
    })
}

/// The fast-path input frame that synchronizes the lock keys: a header for one
/// event, the total length of three bytes, and the synchronize event with its
/// flag bits.
pub open spec fn synchronize_frame(
    scroll_lock: bool,
    num_lock: bool,
    caps_lock: bool,
    kana_lock: bool,
) -> Seq<u8> {
    seq![4u8, 3u8, (0x60 + lock_flags(scroll_lock, num_lock, caps_lock, kana_lock)) as u8]
}

/// Encodes the lock-key synchronization event of `ironrdp::input::synchronize_event`
/// as a single-event fast-path input frame with `ironrdp::core::encode_vec`.
///
/// Trusted: the encoder, which sizes its buffer from the value it encodes,
/// succeeds, and the frame is the three bytes of [`synchronize_frame`].
#[verifier::external_body]
pub(crate) fn encode_synchronize(
    scroll_lock: bool,
    num_lock: bool,
    caps_lock: bool,
    kana_lock: bool,
) -> (r: Result<Vec<u8>, String>)
    ensures
        r is Ok,
        r->Ok_0@ == synchronize_frame(scroll_lock, num_lock, caps_lock, kana_lock),
{
    let event = ironrdp::input::synchronize_event(scroll_lock, num_lock, caps_lock, kana_lock);
    match ironrdp::core::encode_vec(&FastPathInput::single(event)) {
        Ok(frame) => Ok(frame),
        Err(error) => Err(error.to_string()),
    }
}

} // verus!
