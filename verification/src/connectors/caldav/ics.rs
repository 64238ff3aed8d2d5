//! The event extractor: calendar objects as it reads them (content lines
//! grouped into events, events grouped into calendar objects) and the events
//! that it makes of them.

use vstd::prelude::*;
use crate::connectors::caldav::caldav::{
    CaldavError, CaldavEvent, CaldavEventView, EventOutcome, event_outcome, outcome_of,
};

verus! {

/// One content line of an event: its name and what stands behind the colon.
#[derive(Debug)]
pub struct IcsProperty {
    pub name: String,
    pub value: Option<String>,
}

/// What a `IcsProperty` holds, with its texts as characters.
pub struct IcsPropertyView {
    pub name: Seq<char>,
    pub value: Option<Seq<char>>,
}

impl View for IcsProperty {
    type V = IcsPropertyView;

    open spec fn view(&self) -> IcsPropertyView {
        IcsPropertyView {
            name: self.name@,
            value: match self.value {
                Some(v) => Some(v@),
                None => None,
            },
        }
    }
}

/// One VEVENT: its content lines in the order of the text.
#[derive(Debug)]
pub struct IcsEvent {
    pub properties: Vec<IcsProperty>,
}

impl View for IcsEvent {
    type V = Seq<IcsPropertyView>;

    open spec fn view(&self) -> Seq<IcsPropertyView> {
        self.properties@.map_values(|p: IcsProperty| p@)
    }
}

/// One calendar object of a blob: the events of a well-formed object, or
/// the mark of one that could not be read.
#[derive(Debug)]
pub enum IcsObject {
    Calendar(Vec<IcsEvent>),
    Malformed,
}

/// What a `IcsObject` holds, with its texts as characters.
pub enum IcsObjectView {
    Calendar(Seq<Seq<IcsPropertyView>>),
    Malformed,
}

impl View for IcsObject {
    type V = IcsObjectView;

    open spec fn view(&self) -> IcsObjectView {
        match self {
            IcsObject::Calendar(events) => IcsObjectView::Calendar(
                events@.map_values(|e: IcsEvent| e@),
            ),
            IcsObject::Malformed => IcsObjectView::Malformed,
        }
    }
}

/// The views of a run of calendar objects.
pub open spec fn object_views(objects: Seq<IcsObject>) -> Seq<IcsObjectView> {
    objects.map_values(|o: IcsObject| o@)
}

/// The calendar objects that the `ical` parser reads from a text, one entry
/// for each object it yields, in the order of the text.
pub uninterp spec fn ical_objects(text: Seq<char>) -> Seq<IcsObjectView>;

/// Runs `ical::IcalParser` over the text until it yields no more. Each
/// object that it parses becomes a `Calendar` holding, per VEVENT, the name
/// and value of every property; each object that it rejects becomes
/// `Malformed`. The parser is a function of the text alone, which is all
/// that the contract claims: the outcome is `ical_objects` of the text.
#[verifier::external_body]
pub(crate) fn parse_objects(text: &str) -> (out: Vec<IcsObject>)
    ensures
        object_views(out@) == ical_objects(text@),
{
    ical::IcalParser::new(text.as_bytes())
        .map(|parsed| match parsed {
            Ok(calendar) => IcsObject::Calendar(
                calendar.events.into_iter().map(|e| IcsEvent {
                    properties: e.properties.into_iter().map(|p| IcsProperty {
                        name: p.name,
                        value: p.value,
                    }).collect(),
                }).collect(),
            ),
            Err(_) => IcsObject::Malformed,
        })
        .collect()
}

/// The value that a list of properties gives a name: that of the last
/// property of that name, if there is one and it has a value.
pub open spec fn property_value(props: Seq<IcsPropertyView>, name: Seq<char>) -> Option<Seq<char>>
    decreases props.len(),
{
    if props.len() == 0 {
        None
    } else if props.last().name == name {
        props.last().value
    } else {
        property_value(props.drop_last(), name)
    }
}

/// The outcomes that the results of an extraction stand for.
pub open spec fn outcomes_of(results: Seq<Result<CaldavEvent, CaldavError>>) -> Seq<EventOutcome> {
    results.map_values(|r: Result<CaldavEvent, CaldavError>| outcome_of(r))
}

/// The outcomes of the events of one calendar object, in the order of the
/// text: none for an object that could not be read.
pub open spec fn object_outcomes(object: IcsObjectView) -> Seq<EventOutcome> {
    match object {
        IcsObjectView::Calendar(events) => events.map_values(
            |props: Seq<IcsPropertyView>| event_outcome(props),
        ),
        IcsObjectView::Malformed => Seq::empty(),
    }
}

/// The outcomes of the events of a run of calendar objects, object by
/// object.
pub open spec fn extracted(objects: Seq<IcsObjectView>) -> Seq<EventOutcome>
    decreases objects.len(),
{
    if objects.len() == 0 {
        Seq::empty()
    } else {
        extracted(objects.drop_last()) + object_outcomes(objects.last())
    }
}

/// Extracts every event of every calendar object that could be read. An
/// event that lacks a required property gives an error in its place and
/// leaves the others as they are.
pub fn events_from_objects(objects: &Vec<IcsObject>) -> (out: Vec<Result<CaldavEvent, CaldavError>>)
    ensures
        outcomes_of(out@) == extracted(object_views(objects@)),
{
    let ghost views = object_views(objects@);
    let mut out: Vec<Result<CaldavEvent, CaldavError>> = Vec::new();
    let mut i: usize = 0;
    assert(views.take(0) == Seq::<IcsObjectView>::empty());
    while i < objects.len()
        invariant
            i <= objects.len(),
            views == object_views(objects@),
            outcomes_of(out@) == extracted(views.take(i as int)),
        decreases objects.len() - i,
    {
        assert(views.take(i + 1).drop_last() == views.take(i as int));
        assert(views.take(i + 1).last() == objects@[i as int]@);
        match &objects[i] {
            IcsObject::Calendar(events) => {
                let ghost before = outcomes_of(out@);
                let ghost props = events@.map_values(|e: IcsEvent| e@);
                let mut j: usize = 0;
                while j < events.len()
                    invariant
                        j <= events.len(),
                        props == events@.map_values(|e: IcsEvent| e@),
                        outcomes_of(out@) == before + props.take(j as int).map_values(
                            |p: Seq<IcsPropertyView>| event_outcome(p),
                        ),
                    decreases events.len() - j,
                {
                    let ghost old_out = out@;
                    let result = CaldavEvent::from_ical_evel(&events[j]);
                    out.push(result);
                    assert(outcomes_of(out@) == outcomes_of(old_out).push(outcome_of(result)));
                    assert(props.take(j + 1) == props.take(j as int).push(props[j as int]));
                    j = j + 1;
                }
                assert(props.take(events.len() as int) == props);
            },
            IcsObject::Malformed => {},
        }
        i = i + 1;
    }
    assert(views.take(objects.len() as int) == views);
    out
}

/// The events of a text blob of calendar objects, as `events_from_objects`
/// extracts them from what the parser reads.
pub fn extract_events(blob: &str) -> (out: Vec<Result<CaldavEvent, CaldavError>>)
    ensures
        outcomes_of(out@) == extracted(ical_objects(blob@)),
{
    let objects = parse_objects(blob);
    events_from_objects(&objects)
}

/// The events among the outcomes, in their order: an outcome that is an
/// error gives none.
pub open spec fn kept_events(outcomes: Seq<EventOutcome>) -> Seq<CaldavEventView> {
    outcomes.filter_map(
        |o: EventOutcome|
            match o {
                Ok(event) => Some(event),
                Err(_) => None,
            },
    )
}

/// The views of a run of events.
pub open spec fn event_views(events: Seq<CaldavEvent>) -> Seq<CaldavEventView> {
    events.map_values(|e: CaldavEvent| e@)
}

/// Gathers the events of an extraction: those that could be read, in their
/// order. An event that lacks a required property is passed over and leaves
/// the others as they are.
pub fn collect_events(results: Vec<Result<CaldavEvent, CaldavError>>) -> (out: Vec<CaldavEvent>)
    ensures
        event_views(out@) == kept_events(outcomes_of(results@)),
{
    let ghost outcomes = outcomes_of(results@);
    let mut events: Vec<CaldavEvent> = Vec::new();
    assert(outcomes.take(0) == Seq::<EventOutcome>::empty());
    assert(event_views(events@) == Seq::<CaldavEventView>::empty());
    for result in it: results
        invariant
            outcomes == outcomes_of(it.seq()),
            event_views(events@) == kept_events(outcomes.take(it.index() as int)),
    {
        assert(outcomes.take(it.index() + 1).drop_last() == outcomes.take(it.index() as int));
        assert(outcomes.take(it.index() + 1).last() == outcome_of(result));
        match result {
            Ok(event) => {
                let ghost before = events@;
                events.push(event);
                assert(event_views(events@) == event_views(before).push(event@));
            },
            Err(_) => {},
        }
    }
    assert(outcomes.take(outcomes.len() as int) == outcomes);
    events
}

} // verus!
