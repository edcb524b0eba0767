//! What the deterministic target remembers of a session.

use vstd::prelude::*;
use vstd::string::*;

use crate::json::{json_parsed, parse_json, Json, JsonView};
use crate::text::{joined, same_text, views};

verus! {

/// Whether a recorded invocation names a session.
pub open spec fn names_session(record: JsonView, session: Seq<char>) -> bool {
    match record.items_of("argv"@) {
        None => false,
        Some(items) => exists|i: int|
            0 <= i < items.len() && (#[trigger] items[i]) == JsonView::Text(session),
    }
}

/// Whether a recorded invocation names a session.
fn record_names(record: &Json, session: &str) -> (names: bool)
    ensures
        names == names_session(record@, session@),
{
    match record.items_of("argv") {
        None => false,
        Some(items) => {
            let ghost all = views(items@);
            let mut index: usize = 0;
            while index < items.len()
                invariant
                    index <= items@.len(),
                    all == views(items@),
                    record@.items_of("argv"@) == Some(all),
                    forall|i: int|
                        0 <= i < index ==> (#[trigger] all[i]) != JsonView::Text(session@),
                decreases items@.len() - index,
            {
                let same = match &items[index] {
                    Json::Text(text) => same_text(text.as_str(), session),
                    _ => false,
                };
                proof {
                    assert(all[index as int] == items@[index as int]@);
                }
                if same {
                    proof {
                        assert(all[index as int] == JsonView::Text(session@));
                    }
                    return true;
                }
                index = index + 1;
            }
            false
        },
    }
}

/// What one recorded invocation tells of a session: nothing, or what the session was asked before.
pub open spec fn remembered(record: JsonView, session: Seq<char>, prompt: Seq<char>) -> Result<
    Option<Seq<char>>,
    Seq<char>,
> {
    match record.text_of("prompt"@) {
        None => Err("invocation evidence omitted prompt"@),
        Some(prior) => Ok(
            if names_session(record, session) && prior != prompt {
                Some("resume follows prior content: "@ + prior + "; "@ + prompt)
            } else {
                None
            },
        ),
    }
}

/// Tells what one recorded invocation tells of a session.
pub fn remember(record: &Json, session: &str, prompt: &str) -> (told: Result<Option<String>, String>)
    ensures
        match told {
            Ok(told) => remembered(record@, session@, prompt@) == Ok::<_, Seq<char>>(
                crate::text::optional(told),
            ),
            Err(message) => remembered(record@, session@, prompt@) == Err::<Option<Seq<char>>, _>(
                message@,
            ),
        },
{
    let same_session = record_names(record, session);
    let prior = match record.text_of("prompt") {
        Some(prior) => prior,
        None => {
            return Err("invocation evidence omitted prompt".to_owned());
        },
    };
    if same_session && !same_text(prior.as_str(), prompt) {
        let mut text = joined("resume follows prior content: ", prior.as_str());
        text.append("; ");
        text.append(prompt);
        Ok(Some(text))
    } else {
        Ok(None)
    }
}

/// The result of a resumed review: the first recorded invocation of the session with another
/// prompt decides.
pub open spec fn resumed(records: Seq<Seq<char>>, session: Seq<char>, prompt: Seq<char>) -> Result<
    Seq<char>,
    Seq<char>,
>
    decreases records.len(),
{
    if records.len() == 0 {
        Ok("resume has no prior content for session: "@ + prompt)
    } else {
        match json_parsed(records[0]) {
            Err(message) => Err("invocation evidence was invalid JSON: "@ + message),
            Ok(record) => match remembered(record, session, prompt) {
                Err(message) => Err(message),
                Ok(Some(text)) => Ok(text),
                Ok(None) => resumed(records.drop_first(), session, prompt),
            },
        }
    }
}

/// Finds the result of a resumed review in the recorded invocations.
pub fn resumed_result(records: &Vec<String>, session: &str, prompt: &str) -> (result: Result<
    String,
    String,
>)
    ensures
        crate::text::told(result) == resumed(views(records@), session@, prompt@),
{
    let ghost all = views(records@);
    let mut index: usize = 0;
    proof {
        assert(all.skip(0) =~= all);
    }
    while index < records.len()
        invariant
            index <= records@.len(),
            all == views(records@),
            resumed(all, session@, prompt@) == resumed(
                all.skip(index as int),
                session@,
                prompt@,
            ),
        decreases records@.len() - index,
    {
        proof {
            assert(all.skip(index as int)[0] == records@[index as int]@);
            assert(all.skip(index as int).drop_first() =~= all.skip(index + 1));
        }
        let record = match parse_json(records[index].as_str()) {
            Ok(record) => record,
            Err(message) => {
                return Err(joined("invocation evidence was invalid JSON: ", message.as_str()));
            },
        };
        match remember(&record, session, prompt) {
            Err(message) => {
                return Err(message);
            },
            Ok(Some(text)) => {
                return Ok(text);
            },
            Ok(None) => {},
        }
        index = index + 1;
    }
    proof {
        assert(all.skip(index as int).len() == 0);
    }
    Ok(joined("resume has no prior content for session: ", prompt))
}

} // verus!
