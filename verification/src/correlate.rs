//! The event correlator: a handler blocks for the next inbound event that
//! matches a filter, or gives up at a wall-clock deadline. Only one wait may
//! be outstanding at a time process-wide, because the inbound stream has a
//! single logical consumer.
//!
//! The surrounding binary pulls real updates and converts them to [`Update`]
//! values; `await_next_matching` here states and checks the selection logic
//! over a recorded timeline of arrivals.

use vstd::prelude::*;

verus! {

/// One inbound event, reduced to what the correlator reads.
pub enum Update {
    /// An incoming or outgoing chat message.
    NewMessage { chat_id: i64, outgoing: bool, text: String },
    /// A control activation carrying an opaque byte payload; the first byte
    /// is reserved as the cancellation token.
    ControlActivation { chat_id: i64, payload: Vec<u8> },
    /// Anything else; the correlator ignores it.
    Other,
}

/// What a waiter is listening for.
pub enum EventFilter {
    /// The next control activation from this chat.
    ControlFrom(i64),
    /// The next incoming (not outgoing) message from this chat.
    MessageFrom(i64),
}

/// Whether one event satisfies a filter.
pub open spec fn spec_matches(filter: EventFilter, u: Update) -> bool {
    match filter {
        EventFilter::ControlFrom(chat) => match u {
            Update::ControlActivation { chat_id, .. } => chat_id == chat,
            _ => false,
        },
        EventFilter::MessageFrom(chat) => match u {
            Update::NewMessage { chat_id, outgoing, .. } => chat_id == chat && !outgoing,
            _ => false,
        },
    }
}

/// The filter, decided for one event.
pub fn update_matches(filter: &EventFilter, u: &Update) -> (r: bool)
    ensures
        r == spec_matches(*filter, *u),
{
    match filter {
        EventFilter::ControlFrom(chat) => match u {
            Update::ControlActivation { chat_id, .. } => *chat_id == *chat,
            _ => false,
        },
        EventFilter::MessageFrom(chat) => match u {
            Update::NewMessage { chat_id, outgoing, .. } => *chat_id == *chat && !*outgoing,
            _ => false,
        },
    }
}

/// Block for the first matching event or until the deadline, over a recorded
/// timeline of arrivals (times nondecreasing, none earlier than the wait's
/// start). Returns the index of the winning event and the time the wait
/// finished: the first qualifying event strictly before the deadline wins;
/// otherwise the wait ends empty-handed exactly at the deadline.
pub fn await_next_matching(
    filter: &EventFilter,
    start: u64,
    timeout: u64,
    events: &Vec<(u64, Update)>,
) -> (r: (Option<usize>, u64))
    requires
        start + timeout <= u64::MAX,
        forall|i: int| 0 <= i < events@.len() ==> start <= #[trigger] events@[i].0,
        forall|i: int, j: int| 0 <= i < j < events@.len() ==> events@[i].0 <= events@[j].0,
    ensures
        match r.0 {
            Some(i) => {
                &&& 0 <= i < events@.len()
                &&& spec_matches(*filter, events@[i as int].1)
                &&& events@[i as int].0 < start + timeout
                &&& r.1 == events@[i as int].0
                &&& forall|j: int| 0 <= j < i ==> !spec_matches(*filter, events@[j].1)
            },
            None => {
                &&& r.1 == start + timeout
                &&& forall|j: int|
                    0 <= j < events@.len() && events@[j].0 < start + timeout ==> !spec_matches(
                        *filter,
                        events@[j].1,
                    )
            },
        },
{
    let deadline = start + timeout;
    let n = events.len();
    let mut i: usize = 0;
    while i < n
        invariant
            i <= n,
            n == events@.len(),
            deadline == start + timeout,
            forall|i0: int, j0: int| 0 <= i0 < j0 < n ==> events@[i0].0 <= events@[j0].0,
            forall|j: int| 0 <= j < i ==> #[trigger] events@[j].0 < deadline,
            forall|j: int| 0 <= j < i ==> !spec_matches(*filter, events@[j].1),
        decreases n - i,
    {
        let arrival = events[i].0;
        if arrival >= deadline {
            proof {
                assert forall|j: int|
                    0 <= j < events@.len() && events@[j].0 < deadline implies !spec_matches(
                    *filter,
                    events@[j].1,
                ) by {
                    if j >= i {
                        assert(events@[i as int].0 <= events@[j].0);
                    }
                }
            }
            return (None, deadline);
        }
        if update_matches(filter, &events[i].1) {
            return (Some(i), arrival);
        }
        i = i + 1;
    }
    (None, deadline)
}

/// The option a control activation selects: the first payload byte, as the
/// prompt's inline controls are laid out one option per byte. An empty
/// payload selects nothing.
pub fn selected_option(payload: &[u8]) -> (r: Option<u8>)
    ensures
        payload@.len() == 0 ==> r is None,
        payload@.len() > 0 ==> r == Some(payload@[0]),
{
    if payload.len() == 0 {
        None
    } else {
        Some(payload[0])
    }
}

/// The inline controls for a choice prompt: one per option, each carrying its
/// own index as a one-byte payload.
pub fn build_choice_buttons(options: &Vec<String>) -> (r: Vec<(String, Vec<u8>)>)
    requires
        options@.len() <= 256,
    ensures
        r@.len() == options@.len(),
        forall|i: int|
            0 <= i < r@.len() ==> (#[trigger] r@[i]).0@ == options@[i]@ && r@[i].1@ == seq![
                i as u8,
            ],
{
    let mut r: Vec<(String, Vec<u8>)> = Vec::new();
    let n = options.len();
    let mut i: usize = 0;
    while i < n
        invariant
            i <= n,
            n == options@.len(),
            n <= 256,
            r@.len() == i,
            forall|k: int|
                0 <= k < i ==> (#[trigger] r@[k]).0@ == options@[k]@ && r@[k].1@ == seq![k as u8],
        decreases n - i,
    {
        let text = options[i].clone();
        let mut payload: Vec<u8> = Vec::new();
        payload.push(i as u8);
        r.push((text, payload));
        i = i + 1;
    }
    r
}

/// The two options of the keep-the-default-filename question.
pub fn yes_no_options() -> (r: Vec<String>)
    ensures
        r@.len() == 2,
        r@[0]@ == "Yes"@,
        r@[1]@ == "No"@,
{
    proof {
        reveal_strlit("Yes");
        reveal_strlit("No");
    }
    let mut r: Vec<String> = Vec::new();
    r.push("Yes".to_owned());
    r.push("No".to_owned());
    r
}

/// The default filename is kept exactly when the first option was chosen; a
/// timeout or any other answer falls back to asking for a custom name.
pub fn default_name_accepted(answer: Option<u8>) -> (r: bool)
    ensures
        r == (answer == Some(0u8)),
{
    match answer {
        Some(choice) => choice == 0,
        None => false,
    }
}

/// Resolve the directory a transfer stores into: a sole configured directory
/// is taken without asking (`chosen` is ignored then); otherwise the answer
/// picks by index, and an out-of-range index resolves to nothing.
pub fn resolve_directory(directories: &Vec<String>, chosen: Option<u8>) -> (r: Option<String>)
    ensures
        directories@.len() == 1 ==> (r matches Some(d) && d@ == directories@[0]@),
        directories@.len() != 1 ==> match chosen {
            Some(i) => {
                &&& (i as int) < directories@.len() ==> (r matches Some(d) && d@ == directories@[
                    i as int]@)
                &&& (i as int) >= directories@.len() ==> r is None
            },
            None => r is None,
        },
{
    if directories.len() == 1 {
        return Some(directories[0].clone());
    }
    match chosen {
        Some(i) => {
            if (i as usize) < directories.len() {
                Some(directories[i as usize].clone())
            } else {
                None
            }
        },
        None => None,
    }
}

/// Whether the directory question must be asked at all: exactly one
/// configured directory answers itself.
pub fn directory_query_needed(directories: &Vec<String>) -> (r: bool)
    ensures
        r == (directories@.len() != 1),
{
    directories.len() != 1
}

/// The name the file is stored under: the user's reply, or the document's
/// own name when the reply timed out.
pub fn chosen_file_name(reply: Option<String>, default_name: String) -> (r: String)
    ensures
        match reply {
            Some(name) => r == name,
            None => r == default_name,
        },
{
    match reply {
        Some(name) => name,
        None => default_name,
    }
}

} // verus!
