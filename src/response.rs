use vstd::prelude::*;
use crate::locale::{Locale, locale_code};

verus! {


/// Everything the HTTP layer sends back for a served calendar.
#[derive(Debug, Clone, PartialEq, Eq)]
pub struct CalendarResponse {
    pub status: u16,
    pub content_type: String,
    pub content_disposition: String,
    /// The language code, sent as the one value of `Content-Language`.
    pub content_language: String,
    pub body: String,
}

/// The `Content-Disposition` value of a served calendar.
pub open spec fn attachment_disposition() -> Seq<char> {
    "attachment; filename=\"personal.ics\""@
}

/// Builds the response that serves a calendar text in a locale: status 200,
/// type `text/calendar`, offered as the attachment `personal.ics`, in the
/// locale's language, with the text as its body unchanged.
pub fn calendar_response(body: String, locale: Locale) -> (r: CalendarResponse)
    ensures
        r.status == 200,
        r.content_type@ == "text/calendar"@,
        r.content_disposition@ == attachment_disposition(),
        r.content_language@ == locale_code(locale),
        r.body@ == body@,
{
    CalendarResponse {
        status: 200,
        content_type: "text/calendar".to_owned(),
        content_disposition: "attachment; filename=\"personal.ics\"".to_owned(),
        content_language: locale.to_string(),
        body,
    }
}

} // verus!
