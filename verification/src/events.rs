//! The collision-event channel: an append-only log that every registered
//! reader drains at its own pace.

use vstd::prelude::*;
use shrev::{EventChannel, ReaderId};
use crate::resources::CollisionEvent;

verus! {

/// `shrev::EventChannel`, a ring buffer of events that grows as needed.
/// Nothing inside it is seen here; what it holds goes by `channel_log`.
#[verifier::external_type_specification]
#[verifier::external_body]
#[verifier::reject_recursive_types(E)]
pub struct ExEventChannel<E>(EventChannel<E>);

/// `shrev::ReaderId`, the token of one subscription to a channel. Nothing
/// inside it is seen here; where it stands goes by `reader_cursor`.
#[verifier::external_type_specification]
#[verifier::external_body]
#[verifier::reject_recursive_types(T)]
pub struct ExReaderId<T: 'static>(ReaderId<T>);

/// The channel that carries collision events from the physics step to the
/// systems that react to them.
pub type CollisionEvents = EventChannel<CollisionEvent>;

/// A subscription to the collision events.
pub type CollisionReader = ReaderId<CollisionEvent>;

/// Every event written to the channel since it was made, oldest first.
pub uninterp spec fn channel_log(channel: CollisionEvents) -> Seq<CollisionEvent>;

/// Which channel this is: a reader can only be used with the channel that
/// made it. A channel keeps its key for life.
pub uninterp spec fn channel_key(channel: CollisionEvents) -> int;

/// How many events of the channel's log lie behind the reader: those
/// written before it was registered and those it has been handed.
pub uninterp spec fn reader_cursor(reader: CollisionReader) -> nat;

/// The key of the channel that the reader was registered with.
pub uninterp spec fn reader_key(reader: CollisionReader) -> int;

/// The reader belongs to the channel and has not run ahead of its log.
pub open spec fn reader_follows(reader: CollisionReader, channel: CollisionEvents) -> bool {
    reader_key(reader) == channel_key(channel) && reader_cursor(reader) <= channel_log(
        channel,
    ).len()
}

/// `shrev::EventChannel::new`: a channel to which nothing has been written.
#[verifier::external_body]
pub(crate) fn channel_new() -> (channel: CollisionEvents)
    ensures
        channel_log(channel) == Seq::<CollisionEvent>::empty(),
{
    EventChannel::new()
}

/// `shrev::EventChannel::register_reader`: the new reader belongs to this
/// channel and starts after everything written so far. The channel keeps its
/// log and its key.
#[verifier::external_body]
pub(crate) fn channel_register_reader(channel: &mut CollisionEvents) -> (reader: CollisionReader)
    ensures
        channel_log(*final(channel)) == channel_log(*old(channel)),
        channel_key(*final(channel)) == channel_key(*old(channel)),
        reader_key(reader) == channel_key(*old(channel)),
        reader_cursor(reader) == channel_log(*old(channel)).len(),
{
    channel.register_reader()
}

/// `shrev::EventChannel::single_write`: the event is appended to the log;
/// the buffer grows rather than drop an event that a reader has not seen.
#[verifier::external_body]
pub(crate) fn channel_single_write(channel: &mut CollisionEvents, event: CollisionEvent)
    ensures
        channel_log(*final(channel)) == channel_log(*old(channel)).push(event),
        channel_key(*final(channel)) == channel_key(*old(channel)),
{
    channel.single_write(event)
}

/// `shrev::EventChannel::read`: hands out, oldest first, the events written
/// since this reader last read or was registered, and moves the reader to
/// the end of the log. It panics for a reader of another channel, which
/// `requires` leaves out.
#[verifier::external_body]
pub(crate) fn channel_read(channel: &CollisionEvents, reader: &mut CollisionReader) -> (events: Vec<
    CollisionEvent,
>)
    requires
        reader_follows(*old(reader), *channel),
    ensures
        events@ == channel_log(*channel).subrange(
            reader_cursor(*old(reader)) as int,
            channel_log(*channel).len() as int,
        ),
        reader_cursor(*final(reader)) == channel_log(*channel).len(),
        reader_key(*final(reader)) == reader_key(*old(reader)),
{
    channel.read(reader).cloned().collect()
}

/// A collision-event channel to which nothing has been written.
pub fn new_collision_events() -> (channel: CollisionEvents)
    ensures
        channel_log(channel) == Seq::<CollisionEvent>::empty(),
{
    channel_new()
}

} // verus!
