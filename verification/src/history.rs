//! What a run of events leaves on display.
//!
//! Outcomes are applied in the order in which they arrive, not in the order
//! in which their requests were started. These lemmas say what follows: a
//! run without a successful refresh changes nothing, and after any other run
//! the last successful refresh to arrive is the one on display.

use vstd::prelude::*;
use crate::controller::{image_after, EventView};
use crate::image::ImageReferenceView;
use crate::service::{picture_of, FetchOutcomeView};

verus! {

/// The end of a request with the given outcome, as an event.
pub open spec fn settled(outcome: FetchOutcomeView) -> EventView {
    EventView::FetchSettled { outcome }
}

/// Whether `event` puts a picture on display: it is the end of a request
/// whose answer held at least one record, the first with an address.
pub open spec fn selects_image(event: EventView) -> bool {
    event is FetchSettled && picture_of(event->outcome) is Some
}

/// The picture on display after `events` have been applied to `start`, one
/// after the other, first to last.
pub open spec fn replay(start: ImageReferenceView, events: Seq<EventView>) -> ImageReferenceView
    decreases events.len(),
{
    if events.len() == 0 {
        start
    } else {
        image_after(replay(start, events.drop_last()), events.last())
    }
}

/// An event that selects no picture leaves the one on display as it is:
/// a click on either button, the arrival of an answer, a request that
/// failed on the wire or in decoding, an answer without records or with a
/// first record that has no address.
pub proof fn lemma_unchanged_without_selection(current: ImageReferenceView, event: EventView)
    requires
        !selects_image(event),
    ensures
        image_after(current, event) == current,
{
}

/// An event that selects a picture puts the first record's address on
/// display, whatever was there and whatever records follow the first.
pub proof fn lemma_selection_shows_first_record(current: ImageReferenceView, event: EventView)
    requires
        selects_image(event),
    ensures
        event->outcome is Decoded,
        event->outcome->records.len() > 0,
        image_after(current, event).url == event->outcome->records[0].url,
        image_after(current, event).is_displayable(),
{
}

/// Last writer wins. Of two requests whose outcomes both arrive, the one
/// that arrives later decides what is on display if its first record
/// carries an address, whichever of the two was started first and whatever
/// the earlier outcome was.
pub proof fn lemma_last_writer_wins(
    start: ImageReferenceView,
    earlier: FetchOutcomeView,
    later: FetchOutcomeView,
)
    requires
        later is Decoded,
        later->records.len() > 0,
        later->records[0].url.len() > 0,
    ensures
        image_after(image_after(start, settled(earlier)), settled(later)).url
            == later->records[0].url,
        replay(start, seq![settled(earlier), settled(later)]).url == later->records[0].url,
{
    let events = seq![settled(earlier), settled(later)];
    assert(events.last() == settled(later));
}

/// A run of events none of which selects a picture leaves `start` on
/// display.
pub proof fn lemma_replay_without_selection(start: ImageReferenceView, events: Seq<EventView>)
    requires
        forall|i: int| 0 <= i < events.len() ==> !selects_image(#[trigger] events[i]),
    ensures
        replay(start, events) == start,
    decreases events.len(),
{
    if events.len() > 0 {
        lemma_replay_without_selection(start, events.drop_last());
    }
}

/// After a run of events, the picture on display is the one selected by the
/// last event of the run that selects any.
pub proof fn lemma_replay_shows_last_selection(
    start: ImageReferenceView,
    events: Seq<EventView>,
    last: int,
)
    requires
        0 <= last < events.len(),
        selects_image(events[last]),
        forall|i: int| last < i < events.len() ==> !selects_image(#[trigger] events[i]),
    ensures
        replay(start, events).url == events[last]->outcome->records[0].url,
    decreases events.len(),
{
    if last < events.len() - 1 {
        lemma_replay_shows_last_selection(start, events.drop_last(), last);
    }
}

/// A picture that can be displayed stays so through every event.
pub proof fn lemma_stays_displayable(current: ImageReferenceView, event: EventView)
    requires
        current.is_displayable(),
    ensures
        image_after(current, event).is_displayable(),
{
}

/// A picture that can be displayed stays so through any run of events,
/// whatever the requests in it came to.
pub proof fn lemma_replay_stays_displayable(start: ImageReferenceView, events: Seq<EventView>)
    requires
        start.is_displayable(),
    ensures
        replay(start, events).is_displayable(),
    decreases events.len(),
{
    if events.len() > 0 {
        lemma_replay_stays_displayable(start, events.drop_last());
    }
}

} // verus!
