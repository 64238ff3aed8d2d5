//! What holds of every answer that the three protocol steps may be given.

use vstd::prelude::*;
use crate::connectors::caldav::caldav::{
    CaldavCalendarEventsView, CaldavError, CaldavErrorView, CaldavEventView, EventEntryView,
    EventOutcome, MULTI_STATUS, ParsedEntryView, PrincipalData, all_parsed, calendar_entry,
    calendar_of, calendars_of, event_entries, event_entry, event_outcome, events_of,
    events_outcome, is_calendar_collection, principal_of, principal_outcome, principal_result,
};
use crate::connectors::caldav::ics::{
    IcsObjectView, IcsPropertyView, extracted, kept_events, object_outcomes, property_value,
};
use crate::connectors::caldav::multistatus::{
    CaldavReply, CalendarResponseData, CurrentPrincipleProp, EventResponse, MultiStatus,
    PropfindResponse, status_ok,
};
use crate::text::{
    lemma_first_segment, lemma_last_segment, lemma_segments_of_trimmed, trimmed,
};

verus! {

/// What one more response adds to the calendars of those before it.
pub proof fn lemma_calendars_step(responses: Seq<PropfindResponse<CalendarResponseData>>, n: int)
    requires
        0 <= n < responses.len(),
    ensures
        calendars_of(responses.take(n + 1)) == calendars_of(responses.take(n))
            + match calendar_entry(responses[n]) {
            Some(calendar) => seq![calendar],
            None => Seq::empty(),
        },
{
    assert(responses.take(n + 1).drop_last() == responses.take(n));
    assert(responses.take(n + 1).last() == responses[n]);
}

/// The calendars of the first `n` responses stand at the start of the
/// calendars of all of them.
pub proof fn lemma_calendars_prefix(responses: Seq<PropfindResponse<CalendarResponseData>>, n: int)
    requires
        0 <= n <= responses.len(),
    ensures
        calendars_of(responses.take(n)).len() <= calendars_of(responses).len(),
        calendars_of(responses).take(calendars_of(responses.take(n)).len() as int) == calendars_of(
            responses.take(n),
        ),
    decreases responses.len() - n,
{
    if n == responses.len() {
        assert(responses.take(n) == responses);
        assert(calendars_of(responses).take(calendars_of(responses).len() as int)
            == calendars_of(responses));
    } else {
        lemma_calendars_step(responses, n);
        lemma_calendars_prefix(responses, n + 1);
        let shorter = calendars_of(responses.take(n));
        let longer = calendars_of(responses.take(n + 1));
        assert(longer.take(shorter.len() as int) == shorter);
        assert(calendars_of(responses).take(longer.len() as int).take(shorter.len() as int)
            == calendars_of(responses).take(shorter.len() as int));
    }
}

/// A calendar discovery keeps every response that stands for a calendar,
/// and keeps them in the order of the document: the calendar of such a
/// response stands behind the calendars of the responses before it, and
/// before those of the responses behind it.
pub proof fn lemma_calendars_in_source_order(
    responses: Seq<PropfindResponse<CalendarResponseData>>,
    i: int,
)
    requires
        0 <= i < responses.len(),
        calendar_entry(responses[i]) is Some,
    ensures
        calendars_of(responses.take(i)).len() < calendars_of(responses).len(),
        calendars_of(responses)[calendars_of(responses.take(i)).len() as int] == calendar_entry(
            responses[i],
        )->0,
        forall|j: int|
            i < j <= responses.len() ==> calendars_of(responses.take(i)).len() < (
            #[trigger] calendars_of(responses.take(j))).len(),
{
    lemma_calendars_step(responses, i);
    lemma_calendars_prefix(responses, i + 1);
    let k = calendars_of(responses.take(i)).len() as int;
    let upto = calendars_of(responses.take(i + 1));
    assert(upto[k] == calendar_entry(responses[i])->0);
    assert(calendars_of(responses).take(upto.len() as int)[k] == calendars_of(responses)[k]);
    assert forall|j: int| i < j <= responses.len() implies k < (#[trigger] calendars_of(
        responses.take(j),
    )).len() by {
        let head = responses.take(j);
        assert(head.take(i + 1) == responses.take(i + 1));
        lemma_calendars_prefix(head, i + 1);
    }
}

/// A calendar discovery returns nothing but the calendars of responses
/// that stand for one: each calendar of the result is that of a response
/// of the document, at the place that the order of the document gives it.
pub proof fn lemma_calendars_only_from_responses(
    responses: Seq<PropfindResponse<CalendarResponseData>>,
    k: int,
) -> (i: int)
    requires
        0 <= k < calendars_of(responses).len(),
    ensures
        0 <= i < responses.len(),
        calendar_entry(responses[i]) == Some(calendars_of(responses)[k]),
        calendars_of(responses.take(i)).len() == k,
    decreases responses.len(),
{
    let n = responses.len() - 1;
    assert(responses.take(n + 1) == responses);
    lemma_calendars_step(responses, n);
    let before = calendars_of(responses.take(n));
    if k < before.len() {
        let i = lemma_calendars_only_from_responses(responses.take(n), k);
        assert(responses.take(n).take(i) == responses.take(i));
        i
    } else {
        n
    }
}

/// Responses of which none can be used leave an event query no entry.
pub proof fn lemma_no_entries(responses: Seq<PropfindResponse<EventResponse>>)
    requires
        forall|i: int| 0 <= i < responses.len() ==> event_entry(#[trigger] responses[i]) is None,
    ensures
        event_entries(responses) == Seq::<EventEntryView>::empty(),
    decreases responses.len(),
{
    if responses.len() > 0 {
        lemma_no_entries(responses.drop_last());
    }
}

/// An answer to an event query of which every first `propstat` reports
/// something other than success is an `EmptyResultSet`, not an empty list.
pub proof fn lemma_all_failed_is_empty_result_set(multistatus: MultiStatus<EventResponse>)
    requires
        forall|i: int|
            0 <= i < multistatus.response@.len() ==> !status_ok(
                #[trigger] multistatus.response@[i],
            ),
    ensures
        events_outcome(CaldavReply::Answered { status: MULTI_STATUS, document: Ok(multistatus) })
            == Err::<Seq<CaldavCalendarEventsView>, CaldavErrorView>(
            CaldavErrorView::EmptyResultSet,
        ),
{
    lemma_no_entries(multistatus.response@);
    assert(all_parsed(Seq::<EventEntryView>::empty()).len() == 0);
}

/// An event query that succeeds returns the responses that were retained,
/// in document order: as many, each under the ETag of its response, and
/// each with the events of its calendar data that could be read. Whether an
/// entry is returned does not depend on what its events lack.
pub proof fn lemma_events_follow_the_entries(entries: Seq<ParsedEntryView>, k: int)
    requires
        0 <= k < entries.len(),
    ensures
        events_of(entries) is Ok,
        events_of(entries)->Ok_0.len() == entries.len(),
        events_of(entries)->Ok_0[k].etag == entries[k].etag,
        events_of(entries)->Ok_0[k].events == kept_events(extracted(entries[k].objects)),
{
}

/// What one more outcome adds to the events of those before it.
pub proof fn lemma_kept_events_step(outcomes: Seq<EventOutcome>, n: int)
    requires
        0 <= n < outcomes.len(),
    ensures
        kept_events(outcomes.take(n + 1)) == kept_events(outcomes.take(n)) + match outcomes[n] {
            Ok(event) => seq![event],
            Err(_) => Seq::empty(),
        },
{
    assert(outcomes.take(n + 1).drop_last() == outcomes.take(n));
    assert(outcomes.take(n + 1).last() == outcomes[n]);
}

/// The events of the first `n` outcomes stand at the start of the events
/// of all of them.
pub proof fn lemma_kept_events_prefix(outcomes: Seq<EventOutcome>, n: int)
    requires
        0 <= n <= outcomes.len(),
    ensures
        kept_events(outcomes.take(n)).len() <= kept_events(outcomes).len(),
        kept_events(outcomes).take(kept_events(outcomes.take(n)).len() as int) == kept_events(
            outcomes.take(n),
        ),
    decreases outcomes.len() - n,
{
    if n == outcomes.len() {
        assert(outcomes.take(n) == outcomes);
        assert(kept_events(outcomes).take(kept_events(outcomes).len() as int) == kept_events(
            outcomes,
        ));
    } else {
        lemma_kept_events_step(outcomes, n);
        lemma_kept_events_prefix(outcomes, n + 1);
        let shorter = kept_events(outcomes.take(n));
        let longer = kept_events(outcomes.take(n + 1));
        assert(longer.take(shorter.len() as int) == shorter);
        assert(kept_events(outcomes).take(longer.len() as int).take(shorter.len() as int)
            == kept_events(outcomes).take(shorter.len() as int));
    }
}

/// An event that could be read is kept, whatever the events beside it
/// lack: it stands behind the events that were kept of those before it.
pub proof fn lemma_well_formed_event_is_kept(outcomes: Seq<EventOutcome>, i: int)
    requires
        0 <= i < outcomes.len(),
        outcomes[i] is Ok,
    ensures
        kept_events(outcomes.take(i)).len() < kept_events(outcomes).len(),
        kept_events(outcomes)[kept_events(outcomes.take(i)).len() as int] == outcomes[i]->Ok_0,
{
    lemma_kept_events_step(outcomes, i);
    lemma_kept_events_prefix(outcomes, i + 1);
    let k = kept_events(outcomes.take(i)).len() as int;
    let upto = kept_events(outcomes.take(i + 1));
    assert(upto[k] == outcomes[i]->Ok_0);
    assert(kept_events(outcomes).take(upto.len() as int)[k] == kept_events(outcomes)[k]);
}

/// Nothing is kept but events that could be read: each event that is kept
/// is that of an outcome, at the place that the order of the outcomes
/// gives it, and an outcome that is an error gives none.
pub proof fn lemma_kept_events_only_from_outcomes(outcomes: Seq<EventOutcome>, k: int) -> (i:
    int)
    requires
        0 <= k < kept_events(outcomes).len(),
    ensures
        0 <= i < outcomes.len(),
        outcomes[i] == Ok::<CaldavEventView, CaldavErrorView>(kept_events(outcomes)[k]),
        kept_events(outcomes.take(i)).len() == k,
    decreases outcomes.len(),
{
    let n = outcomes.len() - 1;
    assert(outcomes.take(n + 1) == outcomes);
    lemma_kept_events_step(outcomes, n);
    let before = kept_events(outcomes.take(n));
    if k < before.len() {
        let i = lemma_kept_events_only_from_outcomes(outcomes.take(n), k);
        assert(outcomes.take(n).take(i) == outcomes.take(i));
        i
    } else {
        n
    }
}

/// An event query never succeeds with an empty list, and never fails for
/// what an event lacks: a missing required property fails the event, not
/// the query.
pub proof fn lemma_events_never_empty(reply: CaldavReply<EventResponse>)
    ensures
        events_outcome(reply) matches Ok(list) ==> list.len() > 0,
        events_outcome(reply) matches Err(error) ==> !(error
            is MissingRequiredProperty),
{
}

/// An event that could be read is returned under the ETag of its entry,
/// whatever the other events of the entry lack.
pub proof fn lemma_query_keeps_well_formed_events(
    entries: Seq<ParsedEntryView>,
    k: int,
    o: int,
    events: Seq<Seq<IcsPropertyView>>,
    e: int,
)
    requires
        0 <= k < entries.len(),
        0 <= o < entries[k].objects.len(),
        entries[k].objects[o] == IcsObjectView::Calendar(events),
        0 <= e < events.len(),
        event_outcome(events[e]) is Ok,
    ensures
        events_of(entries) matches Ok(list) && list[k].etag == entries[k].etag
            && list[k].events.contains(event_outcome(events[e])->Ok_0),
{
    let outcomes = extracted(entries[k].objects);
    lemma_each_event_has_its_outcome(entries[k].objects, o, events, e);
    let i = extracted(entries[k].objects.take(o)).len() + e;
    lemma_well_formed_event_is_kept(outcomes, i);
    let j = kept_events(outcomes.take(i)).len() as int;
    assert(kept_events(outcomes)[j] == event_outcome(events[e])->Ok_0);
}

/// Of several properties of one name the last decides: a property that is
/// added behind the others gives its name its own value.
pub proof fn lemma_last_property_wins(props: Seq<IcsPropertyView>, last: IcsPropertyView)
    ensures
        property_value(props.push(last), last.name) == last.value,
        forall|name: Seq<char>|
            name != last.name ==> #[trigger] property_value(props.push(last), name)
                == property_value(props, name),
{
    assert(props.push(last).drop_last() == props);
}

/// The outcome of an event is an error exactly where one of the required
/// properties has no value, and the error then names one of them.
pub proof fn lemma_missing_required_property(props: Seq<IcsPropertyView>)
    ensures
        event_outcome(props) is Err <==> (property_value(props, "UID"@) is None || property_value(
            props,
            "CREATED"@,
        ) is None || property_value(props, "SUMMARY"@) is None || property_value(
            props,
            "DTSTART"@,
        ) is None || property_value(props, "DTEND"@) is None),
        event_outcome(props) matches Err(error) ==> error
            matches CaldavErrorView::MissingRequiredProperty(name) && (name == "UID"@ || name
            == "CREATED"@ || name == "SUMMARY"@ || name == "DTSTART"@ || name == "DTEND"@)
            && property_value(props, name) is None,
{
}

/// What one more calendar object adds to the outcomes of those before it.
pub proof fn lemma_extracted_step(objects: Seq<IcsObjectView>, n: int)
    requires
        0 <= n < objects.len(),
    ensures
        extracted(objects.take(n + 1)) == extracted(objects.take(n)) + object_outcomes(objects[n]),
{
    assert(objects.take(n + 1).drop_last() == objects.take(n));
    assert(objects.take(n + 1).last() == objects[n]);
}

/// The outcomes of the first `n` objects stand at the start of the
/// outcomes of all of them.
pub proof fn lemma_extracted_prefix(objects: Seq<IcsObjectView>, n: int)
    requires
        0 <= n <= objects.len(),
    ensures
        extracted(objects.take(n)).len() <= extracted(objects).len(),
        extracted(objects).take(extracted(objects.take(n)).len() as int) == extracted(
            objects.take(n),
        ),
    decreases objects.len() - n,
{
    if n == objects.len() {
        assert(objects.take(n) == objects);
        assert(extracted(objects).take(extracted(objects).len() as int) == extracted(objects));
    } else {
        lemma_extracted_step(objects, n);
        lemma_extracted_prefix(objects, n + 1);
        let shorter = extracted(objects.take(n));
        let longer = extracted(objects.take(n + 1));
        assert(longer.take(shorter.len() as int) == shorter);
        assert(extracted(objects).take(longer.len() as int).take(shorter.len() as int)
            == extracted(objects).take(shorter.len() as int));
    }
}

/// Every event of every calendar object that could be read has an outcome
/// of its own, which its own properties decide: an event that lacks a
/// required property changes nothing for the events beside it.
pub proof fn lemma_each_event_has_its_outcome(
    objects: Seq<IcsObjectView>,
    o: int,
    events: Seq<Seq<IcsPropertyView>>,
    e: int,
)
    requires
        0 <= o < objects.len(),
        objects[o] == IcsObjectView::Calendar(events),
        0 <= e < events.len(),
    ensures
        extracted(objects.take(o)).len() + e < extracted(objects).len(),
        extracted(objects)[extracted(objects.take(o)).len() + e] == event_outcome(events[e]),
{
    lemma_extracted_step(objects, o);
    lemma_extracted_prefix(objects, o + 1);
    let k = extracted(objects.take(o)).len() + e;
    let upto = extracted(objects.take(o + 1));
    assert(upto[k] == object_outcomes(objects[o])[e]);
    assert(extracted(objects).take(upto.len() as int)[k] == extracted(objects)[k]);
}

/// A response that carries the href of a principal names a principal
/// unless the href holds nothing but slashes; the user of the principal is
/// then not empty and holds no slash.
pub proof fn lemma_principal_user_is_a_segment(response: PropfindResponse<CurrentPrincipleProp>)
    requires
        response.propstat@.len() > 0,
        response.propstat@[0].prop is Some,
    ensures
        principal_of(response) is Err <==> trimmed(
            response.propstat@[0].prop->0.current_user_principal.href@,
            '/',
        ).len() == 0,
        principal_of(response) matches Ok(principal) ==> principal.user_id.len() > 0
            && !principal.user_id.contains('/') && principal.path
            == response.propstat@[0].prop->0.current_user_principal.href@,
{
    let inner = trimmed(response.propstat@[0].prop->0.current_user_principal.href@, '/');
    lemma_first_segment(inner, '/');
    if inner.len() > 0 {
        lemma_segments_of_trimmed(response.propstat@[0].prop->0.current_user_principal.href@, '/');
    }
}

/// The id of a calendar holds no slash, and is empty only where the path
/// of the calendar holds nothing but slashes.
pub proof fn lemma_calendar_id_is_a_segment(data: CalendarResponseData, path: Seq<char>)
    ensures
        !calendar_of(data, path).id.contains('/'),
        calendar_of(data, path).id.len() == 0 <==> trimmed(path, '/').len() == 0,
{
    lemma_last_segment(trimmed(path, '/'), '/');
    if trimmed(path, '/').len() > 0 {
        lemma_segments_of_trimmed(path, '/');
    }
}

/// Every calendar of a discovery carries both the `collection` and the
/// `calendar` marker.
pub proof fn lemma_calendars_carry_both_markers(
    responses: Seq<PropfindResponse<CalendarResponseData>>,
    k: int,
)
    requires
        0 <= k < calendars_of(responses).len(),
    ensures
        is_calendar_collection(calendars_of(responses)[k].resourcetype),
{
    lemma_calendars_only_from_responses(responses, k);
}

/// A principal discovery is decided by the status and, in the first
/// response, the text of the principal's href: two exchanges that agree on
/// these yield the same principal.
pub proof fn lemma_principal_is_determined(
    first: MultiStatus<CurrentPrincipleProp>,
    second: MultiStatus<CurrentPrincipleProp>,
)
    requires
        first.response@.len() > 0,
        second.response@.len() > 0,
        first.response@[0].propstat@.len() > 0,
        second.response@[0].propstat@.len() > 0,
        first.response@[0].propstat@[0].prop matches Some(a)
            && second.response@[0].propstat@[0].prop matches Some(b)
            && a.current_user_principal.href@ == b.current_user_principal.href@,
    ensures
        principal_outcome(CaldavReply::Answered { status: MULTI_STATUS, document: Ok(first) })
            == principal_outcome(
            CaldavReply::Answered { status: MULTI_STATUS, document: Ok(second) },
        ),
{
}

/// A principal discovery is a function of how the exchange ended: the same
/// answer yields the same principal, however often it is read.
pub proof fn lemma_principal_idempotent(
    reply: CaldavReply<CurrentPrincipleProp>,
    once: Result<PrincipalData, CaldavError>,
    twice: Result<PrincipalData, CaldavError>,
)
    requires
        principal_result(once) == principal_outcome(reply),
        principal_result(twice) == principal_outcome(reply),
    ensures
        principal_result(once) == principal_result(twice),
{
}

} // verus!
