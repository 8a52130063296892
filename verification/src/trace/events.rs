//! Formatted events: what the formatter kept must be the stored logs, each exactly once.
use crate::block::{all_logs, receipt_views, Log, Receipt};
use crate::block::LogView;
use crate::commitments::borrowed_log_views;
use crate::error::{mismatch, mismatch_error, RpcError};
use crate::fixed::{bytes_eq, Address, B256};
use crate::text::{decimal, decimal_text, hex_string, hex_text, texts};
use crate::trace::consensus::stored_logs;
use vstd::prelude::*;
use vstd::set_lib::{lemma_int_range, lemma_subset_equality, set_int_range};

verus! {

/// An event of a block file.
#[derive(Debug)]
pub struct DebankEvent {
    /// Index of the log in the block.
    pub idx: usize,
    /// Address that emitted the log.
    pub contract_id: Address,
    /// First topic, or nothing.
    pub selector: String,
    /// Topics after the first, if there is a first.
    pub topics: Option<Vec<String>>,
    pub data: Vec<u8>,
}

/// What a [`DebankEvent`] says.
#[verifier::ext_equal]
pub struct EventView {
    pub idx: nat,
    pub contract_id: Address,
    pub selector: Seq<char>,
    pub topics: Option<Seq<Seq<char>>>,
    pub data: Seq<u8>,
}

impl View for DebankEvent {
    type V = EventView;

    open spec fn view(&self) -> EventView {
        EventView {
            idx: self.idx as nat,
            contract_id: self.contract_id,
            selector: self.selector@,
            topics: optional_texts(self.topics),
            data: self.data@,
        }
    }
}

/// What a list of events says.
pub open spec fn event_views(events: Seq<DebankEvent>) -> Seq<EventView> {
    Seq::new(events.len(), |i: int| events[i]@)
}

/// The selector of an event: its log's first topic, or nothing.
pub open spec fn selector_of(topics: Seq<B256>) -> Seq<char> {
    if topics.len() == 0 {
        seq![]
    } else {
        hex_text(topics[0].0@)
    }
}

/// The topics of an event: its log's topics after the first, if there is a first.
pub open spec fn topics_of(topics: Seq<B256>) -> Option<Seq<Seq<char>>> {
    if topics.len() == 0 {
        None
    } else {
        Some(Seq::new((topics.len() - 1) as nat, |i: int| hex_text(topics[i + 1].0@)))
    }
}

/// What an optional list of topics holds.
pub open spec fn optional_texts(topics: Option<Vec<String>>) -> Option<Seq<Seq<char>>> {
    match topics {
        Some(topics) => Some(texts(topics@)),
        None => None,
    }
}

/// The event that a log is formatted as.
pub open spec fn event_of(idx: nat, log: LogView) -> EventView {
    EventView {
        idx,
        contract_id: log.address,
        selector: selector_of(log.topics),
        topics: topics_of(log.topics),
        data: log.data,
    }
}

/// What is wrong with the event at position `i`, if nothing is wrong with those before it.
pub open spec fn event_fault(events: Seq<EventView>, logs: Seq<LogView>, i: int) -> Option<
    Seq<char>,
> {
    let event = events[i];
    let name = "formatted event idx "@ + decimal(event.idx);
    if event.idx >= logs.len() {
        Some(name + " is outside stored receipt logs"@)
    } else if exists|j: int| 0 <= j < i && (#[trigger] events[j]).idx == event.idx {
        Some(name + " is duplicated"@)
    } else if event != event_of(event.idx, logs[event.idx as int]) {
        Some(name + " differs from stored receipt log"@)
    } else {
        None
    }
}

/// What is wrong with the first `n` events: the first fault.
pub open spec fn first_event_fault(events: Seq<EventView>, logs: Seq<LogView>, n: int) -> Option<
    Seq<char>,
>
    decreases n,
{
    if n <= 0 {
        None
    } else {
        match first_event_fault(events, logs, n - 1) {
            Some(fault) => Some(fault),
            None => event_fault(events, logs, n - 1),
        }
    }
}

/// What is wrong with a list of events as a projection of stored logs.
pub open spec fn events_fault(events: Seq<EventView>, logs: Seq<LogView>) -> Option<Seq<char>> {
    if events.len() != logs.len() {
        Some(
            "formatted event count "@ + decimal(events.len()) + " != stored log count "@ + decimal(
                logs.len(),
            ),
        )
    } else {
        first_event_fault(events, logs, events.len() as int)
    }
}

/// Whether an event's selector and topics are those of a log.
fn topics_match(selector: &String, event_topics: &Option<Vec<String>>, topics: &Vec<B256>) -> (r:
    bool)
    ensures
        r <==> selector@ == selector_of(topics@) && optional_texts(*event_topics) == topics_of(
            topics@,
        ),
{
    if topics.len() == 0 {
        return *selector == String::new() && event_topics.is_none();
    }
    let first = hex_string(&topics[0].0);
    if *selector != first {
        return false;
    }
    match event_topics {
        None => false,
        Some(list) => {
            let ghost rest = topics_of(topics@)->0;
            if list.len() != topics.len() - 1 {
                assert(texts(list@).len() != rest.len());
                return false;
            }
            let mut i: usize = 0;
            while i < list.len()
                invariant
                    i <= list.len(),
                    list.len() == topics.len() - 1,
                    optional_texts(*event_topics) == Some(texts(list@)),
                    topics_of(topics@) == Some(rest),
                    forall|k: int| 0 <= k < i ==> (#[trigger] list@[k])@ == rest[k],
                decreases list.len() - i,
            {
                let text = hex_string(&topics[i + 1].0);
                if list[i] != text {
                    assert(texts(list@)[i as int] != rest[i as int]);
                    return false;
                }
                i = i + 1;
            }
            assert(texts(list@) =~= rest);
            true
        },
    }
}

/// Whether an event is the one that a log is formatted as, apart from its index.
pub fn event_matches_log(event: &DebankEvent, log: &Log) -> (r: bool)
    ensures
        r == (event@ == event_of(event@.idx, log@)),
        r == tells(event@, log@),
{
    proof {
        formatted_events_tell_their_log(event@, log@);
    }
    event.contract_id == log.address && topics_match(&event.selector, &event.topics, &log.topics)
        && bytes_eq(&event.data, &log.data)
}

/// Verifies the formatter's surviving log projection against stored receipt logs.
pub fn validate_formatted_events(events: &Vec<DebankEvent>, receipts: &Vec<Receipt>) -> (r: Result<
    (),
    RpcError,
>)
    ensures
        match events_fault(event_views(events@), all_logs(receipt_views(receipts@))) {
            Some(fault) => r matches Err(error) && error@ == mismatch(fault),
            None => r is Ok,
        },
{
    let logs = stored_logs(receipts);
    let ghost views = event_views(events@);
    let ghost stored = borrowed_log_views(logs@);
    if events.len() != logs.len() {
        return Err(
            mismatch_error(
                String::from_str("formatted event count ").concat(
                    decimal_text(events.len() as u64).as_str(),
                ).concat(" != stored log count ").concat(decimal_text(logs.len() as u64).as_str()),
            ),
        );
    }
    let mut seen: Vec<bool> = Vec::new();
    let mut i: usize = 0;
    while i < logs.len()
        invariant
            i <= logs.len(),
            seen.len() == i,
            forall|k: int| 0 <= k < i ==> !(#[trigger] seen@[k]),
        decreases logs.len() - i,
    {
        seen.push(false);
        i = i + 1;
    }
    i = 0;
    while i < events.len()
        invariant
            i <= events.len(),
            events.len() == logs.len(),
            seen.len() == logs.len(),
            views == event_views(events@),
            stored == borrowed_log_views(logs@),
            stored == all_logs(receipt_views(receipts@)),
            first_event_fault(views, stored, i as int) is None,
            forall|k: int|
                0 <= k < seen.len() ==> (#[trigger] seen@[k] <==> exists|j: int|
                    0 <= j < i && (#[trigger] views[j]).idx == k),
        decreases events.len() - i,
    {
        let event = &events[i];
        let index: usize = event.idx;
        assert(views[i as int] == event@);
        let ghost fault = event_fault(views, stored, i as int);
        proof {
            if fault is Some {
                later_events_do_not_matter(views, stored, i + 1);
            }
        }
        if index >= logs.len() {
            return Err(
                mismatch_error(
                    String::from_str("formatted event idx ").concat(
                        decimal_text(index as u64).as_str(),
                    ).concat(" is outside stored receipt logs"),
                ),
            );
        }
        let log = logs[index];
        assert(stored[index as int] == log@);
        if seen[index] {
            return Err(
                mismatch_error(
                    String::from_str("formatted event idx ").concat(
                        decimal_text(index as u64).as_str(),
                    ).concat(" is duplicated"),
                ),
            );
        }
        let ghost before = seen@;
        seen.set(index, true);
        if !event_matches_log(event, log) {
            return Err(
                mismatch_error(
                    String::from_str("formatted event idx ").concat(
                        decimal_text(index as u64).as_str(),
                    ).concat(" differs from stored receipt log"),
                ),
            );
        }
        assert forall|k: int| 0 <= k < seen.len() implies (#[trigger] seen@[k] <==> exists|j: int|
            0 <= j < i + 1 && (#[trigger] views[j]).idx == k) by {
            if k == index {
                assert(views[i as int].idx == k);
            } else {
                assert(seen@[k] == before[k]);
            }
        }
        i = i + 1;
    }
    Ok(())
}

/// Once the first `n` events hold a fault, the events after them do not change it.
proof fn later_events_do_not_matter(events: Seq<EventView>, logs: Seq<LogView>, n: int)
    requires
        0 <= n <= events.len(),
        first_event_fault(events, logs, n) is Some,
    ensures
        first_event_fault(events, logs, events.len() as int) == first_event_fault(events, logs, n),
    decreases events.len() - n,
{
    if n < events.len() {
        later_events_do_not_matter(events, logs, n + 1);
    }
}

/// Whether event `i` stands for log `j`.
pub open spec fn stands_for(events: Seq<EventView>, logs: Seq<LogView>, i: int, j: int) -> bool {
    0 <= i < events.len() && 0 <= j < logs.len() && events[i] == event_of(j as nat, logs[j])
}

/// Whether some event stands for log `j`.
pub open spec fn has_event(events: Seq<EventView>, logs: Seq<LogView>, j: int) -> bool {
    exists|i: int| #[trigger] stands_for(events, logs, i, j)
}

/// The first `n` events of a faultless list are formatted logs with different indexes.
proof fn faultless_events(events: Seq<EventView>, logs: Seq<LogView>, n: int)
    requires
        0 <= n <= events.len(),
        first_event_fault(events, logs, n) is None,
    ensures
        forall|i: int|
            0 <= i < n ==> stands_for(events, logs, i, (#[trigger] events[i]).idx as int),
        forall|i: int, j: int|
            0 <= i < j < n ==> (#[trigger] events[i]).idx != (#[trigger] events[j]).idx,
    decreases n,
{
    if n > 0 {
        faultless_events(events, logs, n - 1);
        assert(event_fault(events, logs, n - 1) is None);
    }
}

/// Accepted events are the stored logs, each exactly once: every event stands for one log, every
/// log has one event, and no log has two.
pub proof fn accepted_events_are_the_stored_logs(events: Seq<EventView>, logs: Seq<LogView>)
    requires
        events_fault(events, logs) is None,
    ensures
        forall|i: int|
            0 <= i < events.len() ==> stands_for(
                events,
                logs,
                i,
                (#[trigger] events[i]).idx as int,
            ),
        forall|j: int|
            0 <= j < logs.len() ==> #[trigger] has_event(events, logs, j),
        forall|i: int, k: int, j: int|
            #[trigger] stands_for(events, logs, i, j) && #[trigger] stands_for(events, logs, k, j)
                ==> i == k,
{
    let n = events.len() as int;
    faultless_events(events, logs, n);
    let indexes = Seq::new(events.len(), |i: int| events[i].idx as int);
    let range = set_int_range(0, n);
    assert(indexes.no_duplicates()) by {
        assert forall|i: int, j: int| 0 <= i < n && 0 <= j < n && i != j implies indexes[i]
            != indexes[j] by {
            if i < j {
                assert(events[i].idx != events[j].idx);
            } else {
                assert(events[j].idx != events[i].idx);
            }
        }
    }
    indexes.unique_seq_to_set();
    lemma_int_range(0, n);
    assert(indexes.to_set().subset_of(range)) by {
        assert forall|x: int| indexes.to_set().contains(x) implies range.contains(x) by {
            let i = choose|i: int| 0 <= i < n && indexes[i] == x;
            assert(stands_for(events, logs, i, events[i].idx as int));
        }
    }
    lemma_subset_equality(indexes.to_set(), range);
    assert forall|j: int| 0 <= j < logs.len() implies #[trigger] has_event(events, logs, j) by {
        assert(range.contains(j));
        assert(indexes.to_set().contains(j));
        let i = choose|i: int| 0 <= i < n && indexes[i] == j;
        assert(stands_for(events, logs, i, events[i].idx as int));
        assert(stands_for(events, logs, i, j));
    }
    assert forall|i: int, k: int, j: int|
        #[trigger] stands_for(events, logs, i, j) && #[trigger] stands_for(
            events,
            logs,
            k,
            j,
        ) implies i == k by {
        if i < k {
            assert(events[i].idx != events[k].idx);
        } else if k < i {
            assert(events[k].idx != events[i].idx);
        }
    }
}

/// Formatting every log in block order gives events that are accepted.
pub proof fn formatted_logs_are_accepted(logs: Seq<LogView>)
    ensures
        events_fault(Seq::new(logs.len(), |i: int| event_of(i as nat, logs[i])), logs) is None,
{
    let events = Seq::new(logs.len(), |i: int| event_of(i as nat, logs[i]));
    formatted_logs_have_no_fault(events, logs, logs.len() as int);
}

/// The first `n` logs, formatted in block order, have no fault.
proof fn formatted_logs_have_no_fault(events: Seq<EventView>, logs: Seq<LogView>, n: int)
    requires
        0 <= n <= logs.len(),
        events == Seq::new(logs.len(), |i: int| event_of(i as nat, logs[i])),
    ensures
        first_event_fault(events, logs, n) is None,
    decreases n,
{
    if n > 0 {
        formatted_logs_have_no_fault(events, logs, n - 1);
    }
}

/// Whether an event tells everything that a log holds: the address, the data, the first topic as the
/// selector, and the topics after the first, in order, as hexadecimal texts.
pub open spec fn tells(event: EventView, log: LogView) -> bool {
    &&& event.contract_id == log.address
    &&& event.data == log.data
    &&& log.topics.len() == 0 ==> event.selector.len() == 0 && event.topics is None
    &&& log.topics.len() > 0 ==> {
        &&& event.selector == hex_text(log.topics[0].0@)
        &&& event.topics matches Some(topics)
        &&& topics.len() == log.topics.len() - 1
        &&& forall|k: int|
            1 <= k < log.topics.len() ==> topics[k - 1] == hex_text((#[trigger] log.topics[k]).0@)
    }
}

/// An event tells a log exactly if it is the one that the log is formatted as.
proof fn formatted_events_tell_their_log(event: EventView, log: LogView)
    ensures
        tells(event, log) <==> event == event_of(event.idx, log),
{
    let right = event_of(event.idx, log);
    if log.topics.len() > 0 {
        let rest = right.topics->0;
        assert forall|k: int| 1 <= k < log.topics.len() implies rest[k - 1] == hex_text(
            (#[trigger] log.topics[k]).0@,
        ) by {}
        if tells(event, log) {
            let topics = event.topics->0;
            assert forall|i: int| 0 <= i < rest.len() implies topics[i] == rest[i] by {
                assert(hex_text(log.topics[i + 1].0@) == topics[(i + 1) - 1]);
            }
            assert(topics =~= rest);
        }
    } else if tells(event, log) {
        assert(event.selector =~= right.selector);
    }
    if tells(event, log) {
        assert(event =~= right);
    }
}

/// Events are accepted for stored logs exactly if there are as many as logs, every index is that of
/// a log and occurs once, and every event tells what the log at its index holds. The order in which
/// the events come does not matter.
pub proof fn events_are_accepted_exactly(events: Seq<EventView>, logs: Seq<LogView>)
    ensures
        events_fault(events, logs) is None <==> {
            &&& events.len() == logs.len()
            &&& forall|i: int|
                0 <= i < events.len() ==> (#[trigger] events[i]).idx < logs.len() && tells(
                    events[i],
                    logs[events[i].idx as int],
                )
            &&& forall|i: int, j: int|
                0 <= i < j < events.len() ==> (#[trigger] events[i]).idx != (
                #[trigger] events[j]).idx
        },
{
    assert forall|i: int| 0 <= i < events.len() && (#[trigger] events[i]).idx < logs.len() implies (
    tells(events[i], logs[events[i].idx as int]) <==> events[i] == event_of(
        events[i].idx,
        logs[events[i].idx as int],
    )) by {
        formatted_events_tell_their_log(events[i], logs[events[i].idx as int]);
    }
    if events_fault(events, logs) is None {
        faultless_events(events, logs, events.len() as int);
        assert forall|i: int| 0 <= i < events.len() implies (#[trigger] events[i]).idx < logs.len()
            && tells(events[i], logs[events[i].idx as int]) by {
            assert(stands_for(events, logs, i, events[i].idx as int));
        }
    }
    if events.len() == logs.len() && (forall|i: int|
        0 <= i < events.len() ==> (#[trigger] events[i]).idx < logs.len() && tells(
            events[i],
            logs[events[i].idx as int],
        )) && (forall|i: int, j: int|
        0 <= i < j < events.len() ==> (#[trigger] events[i]).idx != (#[trigger] events[j]).idx) {
        telling_events_have_no_fault(events, logs, events.len() as int);
    }
}

/// The first `n` of events that tell the logs at their indexes, each once, have no fault.
proof fn telling_events_have_no_fault(events: Seq<EventView>, logs: Seq<LogView>, n: int)
    requires
        0 <= n <= events.len(),
        forall|i: int|
            0 <= i < events.len() ==> (#[trigger] events[i]).idx < logs.len() && events[i]
                == event_of(events[i].idx, logs[events[i].idx as int]),
        forall|i: int, j: int|
            0 <= i < j < events.len() ==> (#[trigger] events[i]).idx != (#[trigger] events[j]).idx,
    ensures
        first_event_fault(events, logs, n) is None,
    decreases n,
{
    if n > 0 {
        telling_events_have_no_fault(events, logs, n - 1);
        assert(events[n - 1].idx < logs.len());
    }
}

/// Rejected events are rejected for the first that is wrong, which the text names by its index: one
/// beyond the logs, one that an earlier event has, or one that does not tell its log. A wrong number
/// of events is named with the number of logs.
pub proof fn first_wrong_event_is_named(events: Seq<EventView>, logs: Seq<LogView>)
    requires
        events_fault(events, logs) is Some,
    ensures
        ({
            let text = events_fault(events, logs)->0;
            if events.len() != logs.len() {
                text == "formatted event count "@ + decimal(events.len()) + " != stored log count "@
                    + decimal(logs.len())
            } else {
                exists|i: int| 0 <= i < events.len() && #[trigger] first_wrong(events, logs, i, text)
            }
        }),
{
    if events.len() == logs.len() {
        wrong_events_are_found(events, logs, events.len() as int);
    }
}

/// Whether the event at position `i` is the first wrong one, and the text says why.
pub open spec fn first_wrong(
    events: Seq<EventView>,
    logs: Seq<LogView>,
    i: int,
    text: Seq<char>,
) -> bool {
    let idx = events[i].idx;
    let name = "formatted event idx "@ + decimal(idx);
    let repeated = exists|j: int| 0 <= j < i && (#[trigger] events[j]).idx == idx;
    &&& forall|k: int|
        0 <= k < i ==> (#[trigger] events[k]).idx < logs.len() && tells(
            events[k],
            logs[events[k].idx as int],
        )
    &&& idx >= logs.len() ==> text == name + " is outside stored receipt logs"@
    &&& idx < logs.len() && repeated ==> text == name + " is duplicated"@
    &&& idx < logs.len() && !repeated ==> !tells(events[i], logs[idx as int]) && text == name
        + " differs from stored receipt log"@
}

/// Among the first `n` events with a fault there is a first wrong one.
proof fn wrong_events_are_found(events: Seq<EventView>, logs: Seq<LogView>, n: int)
    requires
        0 <= n <= events.len(),
        first_event_fault(events, logs, n) is Some,
    ensures
        exists|i: int|
            0 <= i < events.len() && #[trigger] first_wrong(
                events,
                logs,
                i,
                first_event_fault(events, logs, n)->0,
            ),
    decreases n,
{
    if n > 0 {
        if first_event_fault(events, logs, n - 1) is Some {
            wrong_events_are_found(events, logs, n - 1);
        } else {
            faultless_events(events, logs, n - 1);
            let i = n - 1;
            assert forall|k: int| 0 <= k < i implies (#[trigger] events[k]).idx < logs.len()
                && tells(events[k], logs[events[k].idx as int]) by {
                assert(stands_for(events, logs, k, events[k].idx as int));
                formatted_events_tell_their_log(events[k], logs[events[k].idx as int]);
            }
            if events[i].idx < logs.len() {
                formatted_events_tell_their_log(events[i], logs[events[i].idx as int]);
            }
            assert(first_wrong(events, logs, i, first_event_fault(events, logs, n)->0));
        }
    }
}

} // verus!
