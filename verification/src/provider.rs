//! The one request to the holiday provider: whether it is made, the URL it
//! goes to, and what the provider's records become.

use vstd::prelude::*;
use vstd::string::*;
use crate::holiday::{reduced, Holiday, HolidayReduced, Holidays};
use crate::params::text;
use crate::reply::{Reply, ReplyView};

verus! {

/// The provider's holiday endpoint.
pub const PROVIDER_URL: &'static str = "https://holidays.abstractapi.com/v1/";

/// The reply where no provider key is configured.
pub const NO_KEY: &'static str = "Key for AbstractAPI doesn't exist.";

/// The reply where the provider knows no holiday on the day.
pub const NO_HOLIDAYS: &'static str = "No holidays";

/// The longest base, in characters, that [`with_query`] takes.
const MAX_BASE: usize = 0xffff;

/// The provider's endpoint can serve as a base: it is short and has no
/// fragment.
proof fn provider_url_fits()
    ensures
        PROVIDER_URL@.len() <= MAX_BASE,
        !PROVIDER_URL@.contains('#'),
{
    reveal_strlit("https://holidays.abstractapi.com/v1/");
}

/// `url::ParseError`: why a text is not an absolute URL.
#[verifier::external_type_specification]
#[verifier::external_body]
pub struct ExParseError(url::ParseError);

/// The URL that results from parsing `base` as an absolute URL and then
/// replacing its query string by `query`, written out as text; `None` where
/// `base` does not parse.
pub uninterp spec fn url_with_query(base: Seq<char>, query: Seq<char>) -> Option<Seq<char>>;

/// Calls `Url::parse` on `base` and `Url::set_query` on the URL it gives,
/// and returns that URL's serialization (`Url` is the one of the `url`
/// crate, under the name by which `reqwest` hands it on).
///
/// Trusted: the outcome is the same for the same two texts, and it is an
/// error exactly where `parse` gives one. `set_query` panics where the URL
/// up to its query, or up to its fragment, is longer than `u32::MAX` bytes:
/// a short base keeps the first far from there, and a base without `#` has
/// no fragment.
#[verifier::external_body]
fn with_query(base: &str, query: &str) -> (built: Result<String, url::ParseError>)
    requires
        base@.len() <= MAX_BASE,
        !base@.contains('#'),
    ensures
        match built {
            Ok(url) => url_with_query(base@, query@) == Some(url@),
            Err(_) => url_with_query(base@, query@) is None,
        },
{
    let mut url = reqwest::Url::parse(base)?;
    url.set_query(Some(query));
    Ok(url.into())
}

/// A failure that ends the request without a reply.
#[derive(Clone, Copy, Debug, PartialEq, Eq)]
pub enum Fault {
    /// The provider's URL could not be built.
    InvalidUrl(url::ParseError),
}

/// What the front end does next.
#[derive(Clone, Debug, PartialEq, Eq)]
pub enum Step {
    /// Answer at once. Nothing is sent to the provider.
    Respond(Reply),
    /// Send one GET request to `url` and hand the records in the provider's
    /// answer to [`conclude`].
    Fetch { url: String },
}

/// The text of a [`Step`].
pub enum StepView {
    Respond(ReplyView),
    Fetch { url: Seq<char> },
}

impl View for Step {
    type V = StepView;

    open spec fn view(&self) -> StepView {
        match *self {
            Step::Respond(reply) => StepView::Respond(reply@),
            Step::Fetch { url } => StepView::Fetch { url: url@ },
        }
    }
}

/// Whether `outcome` is what `plan` asks for: the planned step, or a fault
/// where no step is planned.
pub open spec fn carries_out(outcome: Result<Step, Fault>, plan: Option<StepView>) -> bool {
    match plan {
        Some(step) => outcome matches Ok(taken) && taken@ == step,
        None => outcome is Err,
    }
}

/// The query string of the provider request.
///
/// A URL has one query string, and an assignment to it replaces the whole of
/// it. The one that stands in the request is the assignment of the day: the
/// provider key, the country, the year and the month are demanded of the
/// caller but are not part of what is sent.
pub open spec fn provider_query(day: Seq<char>) -> Seq<char> {
    "day="@ + day
}

/// The URL of the provider request for `day`; `None` where it cannot be
/// built.
pub open spec fn provider_url(day: Seq<char>) -> Option<Seq<char>> {
    url_with_query(PROVIDER_URL@, provider_query(day))
}

/// The step that follows an attempt to build the provider's URL.
pub open spec fn fetching(built: Option<Seq<char>>) -> Option<StepView> {
    match built {
        Some(url) => Some(StepView::Fetch { url }),
        None => None,
    }
}

/// The step for a request that carries all four parameters: without a
/// provider key an error reply and no request to the provider; with one, the
/// request to [`provider_url`]. `None` stands for a fault.
pub open spec fn lookup(key: Option<Seq<char>>, day: Seq<char>) -> Option<StepView> {
    match key {
        None => Some(StepView::Respond(ReplyView::Error { message: NO_KEY@ })),
        Some(_) => fetching(provider_url(day)),
    }
}

/// The reply to the provider's records: the reduction of the first one, or
/// an error where there is none.
pub open spec fn concluded(holidays: Seq<Holiday>) -> ReplyView {
    if holidays.len() == 0 {
        ReplyView::Error { message: NO_HOLIDAYS@ }
    } else {
        ReplyView::Found(reduced(holidays[0]))
    }
}

/// Turns the built URL into the request for it, and a URL that could not be
/// built into the fault that carries the reason.
pub fn fetch_step(built: Result<String, url::ParseError>) -> (outcome: Result<Step, Fault>)
    ensures
        match built {
            Ok(url) => outcome matches Ok(step) && step@ == (StepView::Fetch { url: url@ }),
            Err(reason) => outcome == Err::<Step, Fault>(Fault::InvalidUrl(reason)),
        },
{
    match built {
        Ok(url) => Ok(Step::Fetch { url }),
        Err(reason) => Err(Fault::InvalidUrl(reason)),
    }
}

/// Decides the step for a request that carries all four parameters.
///
/// Without a provider key the step is the reply [`NO_KEY`]. With one it is
/// the request to [`provider_url`], whose query string is `day=` followed by
/// the day; the key and the other three parameters do not enter the URL.
#[allow(unused_variables)]
pub fn get_holiday(
    country: &str,
    year: &str,
    month: &str,
    day: &str,
    key: Option<&str>,
) -> (outcome: Result<Step, Fault>)
    ensures
        carries_out(outcome, lookup(text(key), day@)),
{
    match key {
        Some(_) => {
            let query = String::from_str("day=").concat(day);
            proof {
                provider_url_fits();
            }
            fetch_step(with_query(PROVIDER_URL, query.as_str()))
        },
        None => Ok(Step::Respond(Reply::error(NO_KEY))),
    }
}

/// Turns the provider's records into the reply: the first record, reduced,
/// or the error [`NO_HOLIDAYS`] where the provider sent none.
pub fn conclude(holidays: Holidays) -> (reply: Reply)
    ensures
        reply@ == concluded(holidays@),
{
    let mut holidays = holidays;
    if holidays.is_empty() {
        Reply::error(NO_HOLIDAYS)
    } else {
        Reply::Found(HolidayReduced::from(holidays.swap_remove(0)))
    }
}

} // verus!
