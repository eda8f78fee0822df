//! The request handler: validation first, then the provider lookup.

use vstd::prelude::*;
use lambda_http::aws_lambda_events::query_map::QueryMap;
use crate::holiday::{reduced, Holiday};
use crate::params::{find_missing, first_missing, first_value, query_values, text, Param};
use crate::provider::{
    carries_out, concluded, fetching, get_holiday, lookup, provider_url, Fault, Step, StepView,
    NO_HOLIDAYS, NO_KEY,
};
use crate::reply::{text_member, Reply, ReplyView};

verus! {

/// The step for a request, from the first value of each of its four
/// parameters and the provider key that is configured: the report of the
/// first missing parameter, or else what [`lookup`] decides. `None` stands
/// for a fault.
pub open spec fn planned(
    iso: Option<Seq<char>>,
    year: Option<Seq<char>>,
    month: Option<Seq<char>>,
    day: Option<Seq<char>>,
    key: Option<Seq<char>>,
) -> Option<StepView> {
    match first_missing(iso, year, month, day) {
        Some(param) => Some(StepView::Respond(ReplyView::Error { message: param.missing_text() })),
        None => lookup(key, day->0),
    }
}

/// The step for a request with the query parameters `values`.
pub open spec fn planned_for(
    values: Map<Seq<char>, Seq<Seq<char>>>,
    key: Option<Seq<char>>,
) -> Option<StepView> {
    planned(
        first_value(values, Param::Iso.name_text()),
        first_value(values, Param::Year.name_text()),
        first_value(values, Param::Month.name_text()),
        first_value(values, Param::Day.name_text()),
        key,
    )
}

/// The reply that a request ends in when the provider, if it is asked,
/// answers with `holidays`. `None` stands for a fault.
pub open spec fn answer(
    iso: Option<Seq<char>>,
    year: Option<Seq<char>>,
    month: Option<Seq<char>>,
    day: Option<Seq<char>>,
    key: Option<Seq<char>>,
    holidays: Seq<Holiday>,
) -> Option<ReplyView> {
    match planned(iso, year, month, day, key) {
        Some(StepView::Respond(reply)) => Some(reply),
        Some(StepView::Fetch { .. }) => Some(concluded(holidays)),
        None => None,
    }
}

/// Decides what to do with a request, given the value of each of the four
/// parameters and the provider key.
///
/// A missing parameter is reported, the first in the order `iso`, `year`,
/// `month`, `day`; the provider key is not looked at before all four are
/// there.
pub fn decide(
    iso: Option<&str>,
    year: Option<&str>,
    month: Option<&str>,
    day: Option<&str>,
    key: Option<&str>,
) -> (outcome: Result<Step, Fault>)
    ensures
        carries_out(outcome, planned(text(iso), text(year), text(month), text(day), text(key))),
{
    match find_missing(iso, year, month, day) {
        Some(param) => Ok(Step::Respond(Reply::error(param.missing_message()))),
        None => get_holiday(iso.unwrap(), year.unwrap(), month.unwrap(), day.unwrap(), key),
    }
}

/// Decides what to do with a request, given its query parameters and the
/// provider key: reads the first value of `iso`, `year`, `month` and `day`
/// and lets [`decide`] do the rest.
pub fn handler(params: &QueryMap, key: Option<&str>) -> (outcome: Result<Step, Fault>)
    ensures
        carries_out(outcome, planned_for(query_values(*params), text(key))),
{
    decide(
        Param::Iso.value(params),
        Param::Year.value(params),
        Param::Month.value(params),
        Param::Day.value(params),
        key,
    )
}

/// Leaving out one parameter, or several, is answered by the message for the
/// first one left out in the order `iso`, `year`, `month`, `day`, whatever
/// the provider key and whatever stands after it. The provider is not asked.
pub proof fn missing_parameter_is_reported(
    iso: Option<Seq<char>>,
    year: Option<Seq<char>>,
    month: Option<Seq<char>>,
    day: Option<Seq<char>>,
    key: Option<Seq<char>>,
    holidays: Seq<Holiday>,
)
    requires
        iso is None || year is None || month is None || day is None,
    ensures
        planned(iso, year, month, day, key) matches Some(StepView::Respond(reply)) && answer(
            iso,
            year,
            month,
            day,
            key,
            holidays,
        ) == Some(reply),
        answer(iso, year, month, day, key, holidays) == Some(
            ReplyView::Error {
                message: if iso is None {
                    "The query 'iso' was not present."@
                } else if year is None {
                    "The query 'year' was not present."@
                } else if month is None {
                    "The query 'month' was not present."@
                } else {
                    "The query 'day' was not present."@
                },
            },
        ),
{
}

/// With all four parameters and no provider key the reply is the error
/// [`NO_KEY`], and the step is to respond: the provider is not asked.
pub proof fn missing_key_is_reported(
    iso: Option<Seq<char>>,
    year: Option<Seq<char>>,
    month: Option<Seq<char>>,
    day: Option<Seq<char>>,
    holidays: Seq<Holiday>,
)
    requires
        iso is Some,
        year is Some,
        month is Some,
        day is Some,
    ensures
        planned(iso, year, month, day, None) == Some(
            StepView::Respond(ReplyView::Error { message: NO_KEY@ }),
        ),
        answer(iso, year, month, day, None, holidays) == Some(
            ReplyView::Error { message: NO_KEY@ },
        ),
{
}

/// With all four parameters and a provider key the provider is asked, at
/// [`provider_url`] for the day, unless that URL cannot be built, which is a
/// fault. Neither the key nor the country, the year or the month changes
/// what is asked.
pub proof fn complete_request_asks_provider(
    iso: Option<Seq<char>>,
    year: Option<Seq<char>>,
    month: Option<Seq<char>>,
    day: Option<Seq<char>>,
    key: Option<Seq<char>>,
)
    requires
        iso is Some,
        year is Some,
        month is Some,
        day is Some,
        key is Some,
    ensures
        planned(iso, year, month, day, key) == fetching(provider_url(day->0)),
{
}

/// With all four parameters and a provider key, a provider that knows no
/// holiday is answered by the error [`NO_HOLIDAYS`]. There is no reply only
/// where the provider could not be asked, for want of a URL.
pub proof fn no_record_is_reported(
    iso: Option<Seq<char>>,
    year: Option<Seq<char>>,
    month: Option<Seq<char>>,
    day: Option<Seq<char>>,
    key: Option<Seq<char>>,
    holidays: Seq<Holiday>,
)
    requires
        iso is Some,
        year is Some,
        month is Some,
        day is Some,
        key is Some,
        holidays.len() == 0,
    ensures
        match answer(iso, year, month, day, key, holidays) {
            Some(reply) => reply == (ReplyView::Error { message: NO_HOLIDAYS@ }),
            None => provider_url(day->0) is None,
        },
{
}

/// With all four parameters and a provider key, the reply to one or more
/// records is the reduction of the first: its name, its description as
/// `desc` and its date, and no other member. The records after the first
/// have no part in it. There is no reply only where the provider could not
/// be asked, for want of a URL.
pub proof fn first_record_is_returned(
    iso: Option<Seq<char>>,
    year: Option<Seq<char>>,
    month: Option<Seq<char>>,
    day: Option<Seq<char>>,
    key: Option<Seq<char>>,
    holidays: Seq<Holiday>,
)
    requires
        iso is Some,
        year is Some,
        month is Some,
        day is Some,
        key is Some,
        holidays.len() > 0,
    ensures
        match answer(iso, year, month, day, key, holidays) {
            Some(reply) => {
                &&& reply == ReplyView::Found(reduced(holidays[0]))
                &&& reply.members() == seq![
                    text_member("name"@, holidays[0].name@),
                    text_member("desc"@, holidays[0].description@),
                    text_member("date"@, holidays[0].date@),
                ]
            },
            None => provider_url(day->0) is None,
        },
        answer(iso, year, month, day, key, holidays) == answer(
            iso,
            year,
            month,
            day,
            key,
            seq![holidays[0]],
        ),
{
}

} // verus!
