use vstd::prelude::*;
use crate::filter::{Component, EventFilter, body_of, kept_bodies, reversed};
use crate::locale::locale_code;
use crate::response::{CalendarResponse, attachment_disposition, calendar_response};
use crate::source::{ConfigError, TissConfig, resolved_locale};

verus! {

/// `icalendar::Calendar`, carried through unread.
#[verifier::external_type_specification]
#[verifier::external_body]
pub struct ExCalendar(icalendar::Calendar);

/// `icalendar::CalendarComponent`, carried through unread.
#[verifier::external_type_specification]
#[verifier::external_body]
pub struct ExCalendarComponent(icalendar::CalendarComponent);

/// Why a request for the calendar could not be served.
#[derive(Debug, Clone, Copy, PartialEq, Eq, Structural)]
pub enum ServeError {
    /// The configured source does not give a locale.
    Config(ConfigError),
    /// The upstream text is no calendar.
    DocumentParse,
}

/// Whether `icalendar::Calendar`'s `FromStr` accepts a text.
pub uninterp spec fn ical_parses(text: Seq<char>) -> bool;

/// Relies on `icalendar::Calendar`'s `FromStr`: parses a calendar text; whether
/// it succeeds depends on the text alone.
#[verifier::external_body]
fn parse_calendar(text: &str) -> (r: Option<icalendar::Calendar>)
    ensures
        r is Some <==> ical_parses(text@),
{
    text.parse::<icalendar::Calendar>().ok()
}

/// Relies on `icalendar::Calendar`'s `Display`: writes a calendar as text.
#[verifier::external_body]
fn render_calendar(cal: &icalendar::Calendar) -> (r: String) {
    cal.to_string()
}

/// Relies on the public `components` field of `icalendar::Calendar`: takes the
/// top-level components out of a calendar.
#[verifier::external_body]
fn take_components(cal: &mut icalendar::Calendar) -> (r: Vec<icalendar::CalendarComponent>) {
    std::mem::take(&mut cal.components)
}

/// Relies on the public `components` field of `icalendar::Calendar`: sets the
/// top-level components.
#[verifier::external_body]
fn set_components(cal: &mut icalendar::Calendar, components: Vec<icalendar::CalendarComponent>) {
    cal.components = components;
}

/// Relies on `CalendarComponent::as_event` and `Component::get_description`:
/// `None` for a component that is no event, else the event's description.
#[verifier::external_body]
fn event_description(c: &icalendar::CalendarComponent) -> (r: Option<Option<String>>) {
    c.as_event().map(|e| icalendar::Component::get_description(e).map(String::from))
}

/// Pairs each component with what the filter reads of it, keeping the order.
fn classify(components: Vec<icalendar::CalendarComponent>) -> (r: Vec<Component<icalendar::CalendarComponent>>)
    ensures
        r.len() == components.len(),
        forall|i: int| 0 <= i < r.len() ==> body_of(#[trigger] r@[i]) == components@[i],
{
    let ghost orig = components@;
    let n = components.len();
    let mut rev = reversed(components);
    let mut out: Vec<Component<icalendar::CalendarComponent>> = Vec::new();
    while rev.len() > 0
        invariant
            rev.len() + out.len() == n,
            n == orig.len(),
            forall|j: int| 0 <= j < rev.len() ==> rev@[j] == orig[n - 1 - j],
            forall|i: int| 0 <= i < out.len() ==> body_of(#[trigger] out@[i]) == orig[i],
        decreases rev.len(),
    {
        match rev.pop() {
            Some(c) => {
                let item = match event_description(&c) {
                    Some(description) => Component::Event { body: c, description },
                    None => Component::Other(c),
                };
                out.push(item);
            },
            None => {},
        }
    }
    out
}

/// The components themselves, in their order.
fn bodies<T>(items: Vec<Component<T>>) -> (r: Vec<T>)
    ensures
        r.len() == items.len(),
        forall|i: int| 0 <= i < r.len() ==> r@[i] == body_of(items@[i]),
{
    let ghost orig = items@;
    let n = items.len();
    let mut rev = reversed(items);
    let mut out: Vec<T> = Vec::new();
    while rev.len() > 0
        invariant
            rev.len() + out.len() == n,
            n == orig.len(),
            forall|j: int| 0 <= j < rev.len() ==> rev@[j] == orig[n - 1 - j],
            forall|i: int| 0 <= i < out.len() ==> out@[i] == body_of(orig[i]),
        decreases rev.len(),
    {
        match rev.pop() {
            Some(c) => {
                let body = match c {
                    Component::Event { body, .. } => body,
                    Component::Other(body) => body,
                };
                out.push(body);
            },
            None => {},
        }
    }
    out
}

/// Removes the events that the filter excludes from a calendar's top-level
/// components, keeping the rest in their order.
pub fn filter_components(components: Vec<icalendar::CalendarComponent>, filter: &EventFilter) -> (r: Vec<
    icalendar::CalendarComponent,
>)
    ensures
        exists|items: Seq<Component<icalendar::CalendarComponent>>|
            {
                &&& items.len() == components.len()
                &&& forall|i: int| 0 <= i < items.len() ==> body_of(#[trigger] items[i]) == components@[i]
                &&& r@ == kept_bodies(items)
            },
{
    let items = classify(components);
    let ghost classified = items@;
    let kept = filter.apply(items);
    let r = bodies(kept);
    assert(r@ =~= kept_bodies(classified));
    r
}

/// Parses a calendar text, removes the events that the filter excludes, and
/// writes the calendar back; `None` exactly where the text is no calendar.
pub fn filter_calendar_text(text: &str, filter: &EventFilter) -> (r: Option<String>)
    ensures
        r is Some <==> ical_parses(text@),
{
    match parse_calendar(text) {
        Some(mut cal) => {
            let kept = filter_components(take_components(&mut cal), filter);
            set_components(&mut cal, kept);
            Some(render_calendar(&cal))
        },
        None => None,
    }
}

/// Answers one request, given the text that the upstream feed returned for the
/// source's link: the locale is resolved first, then the calendar is filtered
/// and served in that locale.
pub fn serve_calendar(config: &TissConfig, upstream: &str, filter: &EventFilter) -> (r: Result<
    CalendarResponse,
    ServeError,
>)
    ensures
        resolved_locale(config@) matches Err(e) ==> r == Err::<CalendarResponse, ServeError>(
            ServeError::Config(e),
        ),
        r matches Err(ServeError::Config(e)) ==> resolved_locale(config@) == Err::<
            crate::locale::Locale,
            ConfigError,
        >(e),
        resolved_locale(config@) is Ok ==> (r is Ok <==> ical_parses(upstream@)),
        r matches Err(ServeError::DocumentParse) ==> resolved_locale(config@) is Ok && !ical_parses(
            upstream@,
        ),
        r matches Ok(resp) ==> {
            &&& resolved_locale(config@) is Ok
            &&& resp.status == 200
            &&& resp.content_type@ == "text/calendar"@
            &&& resp.content_disposition@ == attachment_disposition()
            &&& resp.content_language@ == locale_code(resolved_locale(config@)->Ok_0)
        },
{
    let locale = match config.locale() {
        Ok(l) => l,
        Err(e) => return Err(ServeError::Config(e)),
    };
    match filter_calendar_text(upstream, filter) {
        Some(body) => Ok(calendar_response(body, locale)),
        None => Err(ServeError::DocumentParse),
    }
}

} // verus!
