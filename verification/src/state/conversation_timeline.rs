//! The ordered event timeline of one durable conversation.

use vstd::prelude::*;

use crate::contract::control::{
    durable_range, state_failure, ConversationEvent, ConversationEventPayload,
    ConversationEventPayloadView, ConversationEventView, OperatorError, OperatorErrorView,
};
use crate::contract::identity::ConversationId;
use crate::state::decision::answer;
use crate::text::views;

verus! {

/// The number of the first event of a timeline.
pub const FIRST_EVENT_SEQUENCE: u64 = 1;

/// The highest sequence number of a timeline, or zero.
pub open spec fn highest_sequence(events: Seq<ConversationEventView>) -> u64
    decreases events.len(),
{
    if events.len() == 0 {
        0
    } else {
        let rest = highest_sequence(events.drop_last());
        let last = events.last().sequence;
        if last > rest {
            last
        } else {
            rest
        }
    }
}

/// The event that follows a timeline whose highest number is given: its number is the next one,
/// and must stay within the durable range.
pub open spec fn event_after(
    highest: u64,
    conversation_id: ConversationId,
    payload: ConversationEventPayloadView,
) -> Result<ConversationEventView, OperatorErrorView> {
    if highest == u64::MAX {
        Err(state_failure("conversation event sequence is exhausted"@))
    } else if highest + 1 > i64::MAX {
        Err(
            state_failure(
                "event sequence does not fit SQLite: out of range integral type conversion attempted"@,
            ),
        )
    } else {
        Ok(ConversationEventView { conversation_id, sequence: (highest + 1) as u64, payload })
    }
}

/// The events after a cursor.
pub open spec fn events_after(events: Seq<ConversationEventView>, cursor: u64) -> Seq<
    ConversationEventView,
> {
    events.filter(|event: ConversationEventView| event.sequence > cursor)
}

/// What reading the events after a cursor yields.
pub open spec fn events_read(events: Seq<ConversationEventView>, cursor: u64) -> Result<
    Seq<ConversationEventView>,
    OperatorErrorView,
> {
    if durable_range(cursor) {
        Ok(events_after(events, cursor))
    } else {
        Err(
            state_failure(
                "conversation event sequence does not fit SQLite: out of range integral type conversion attempted"@,
            ),
        )
    }
}

/// The highest sequence number of a timeline, or zero.
pub(crate) fn highest(events: &Vec<ConversationEvent>) -> (highest: u64)
    ensures
        highest == highest_sequence(views(events@)),
{
    let ghost all = views(events@);
    let mut highest: u64 = 0;
    let mut index: usize = 0;
    while index < events.len()
        invariant
            index <= events@.len(),
            all == views(events@),
            highest == highest_sequence(all.take(index as int)),
        decreases events@.len() - index,
    {
        if events[index].sequence > highest {
            highest = events[index].sequence;
        }
        index = index + 1;
        proof {
            assert(all.take(index as int).drop_last() =~= all.take(index - 1));
        }
    }
    proof {
        assert(all.take(index as int) =~= all);
    }
    highest
}

/// The event that follows a timeline whose highest number is given.
pub fn append(highest: u64, conversation_id: ConversationId, payload: ConversationEventPayload) -> (
appended: Result<ConversationEvent, OperatorError>)
    ensures
        answer(appended) == event_after(highest, conversation_id, payload@),
{
    if highest == u64::MAX {
        return Err(OperatorError::State("conversation event sequence is exhausted".to_owned()));
    }
    let sequence: u64 = if highest == 0 {
        FIRST_EVENT_SEQUENCE
    } else {
        highest + 1
    };
    if sequence > i64::MAX as u64 {
        return Err(
            OperatorError::State(
                "event sequence does not fit SQLite: out of range integral type conversion attempted".to_owned(),
            ),
        );
    }
    Ok(ConversationEvent { conversation_id, sequence, payload })
}

/// The events after a cursor.
pub fn list_after(events: &Vec<ConversationEvent>, cursor: u64) -> (later: Result<
    Vec<ConversationEvent>,
    OperatorError,
>)
    ensures
        match later {
            Ok(later) => events_read(views(events@), cursor) == Ok::<_, OperatorErrorView>(
                views(later@),
            ),
            Err(error) => events_read(views(events@), cursor) == Err::<
                Seq<ConversationEventView>,
                _,
            >(error@),
        },
{
    if cursor > i64::MAX as u64 {
        return Err(
            OperatorError::State(
                "conversation event sequence does not fit SQLite: out of range integral type conversion attempted".to_owned(),
            ),
        );
    }
    let ghost all = views(events@);
    let ghost wanted = |event: ConversationEventView| event.sequence > cursor;
    let mut later: Vec<ConversationEvent> = Vec::new();
    let mut index: usize = 0;
    proof {
        reveal(Seq::filter);
        assert(views(later@) =~= all.take(0).filter(wanted));
    }
    while index < events.len()
        invariant
            index <= events@.len(),
            all == views(events@),
            wanted == (|event: ConversationEventView| event.sequence > cursor),
            views(later@) == all.take(index as int).filter(wanted),
        decreases events@.len() - index,
    {
        let ghost before = views(later@);
        proof {
            reveal(Seq::filter);
            assert(all.take(index + 1).drop_last() =~= all.take(index as int));
        }
        if events[index].sequence > cursor {
            later.push(events[index].clone());
            proof {
                assert(views(later@) =~= before.push(all[index as int]));
            }
        }
        index = index + 1;
    }
    proof {
        assert(all.take(index as int) =~= all);
    }
    Ok(later)
}

} // verus!
