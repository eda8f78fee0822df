//! The query parameters of a request, and the four that it must carry.

use vstd::prelude::*;
use lambda_http::aws_lambda_events::query_map::QueryMap;

verus! {

/// `query_map::QueryMap`: the query parameters of a request, each name with
/// the values given for it.
#[verifier::external_type_specification]
#[verifier::external_body]
pub struct ExQueryMap(lambda_http::aws_lambda_events::query_map::QueryMap);

/// What a `QueryMap` holds: for each name that occurs, its values in the
/// order in which the map keeps them.
pub uninterp spec fn query_values(params: QueryMap) -> Map<Seq<char>, Seq<Seq<char>>>;

/// The first value that `values` holds for `name`, if it holds one.
pub open spec fn first_value(
    values: Map<Seq<char>, Seq<Seq<char>>>,
    name: Seq<char>,
) -> Option<Seq<char>> {
    if values.dom().contains(name) && values[name].len() > 0 {
        Some(values[name][0])
    } else {
        None
    }
}

/// The text of a value that may be absent.
pub open spec fn text(value: Option<&str>) -> Option<Seq<char>> {
    match value {
        Some(present) => Some(present@),
        None => None,
    }
}

/// Calls `QueryMap::first`, which looks `name` up and hands out the first of
/// its values; it gives `None` for a name that does not occur and for one
/// that occurs without a value.
#[verifier::external_body]
fn first<'a>(params: &'a QueryMap, name: &str) -> (value: Option<&'a str>)
    ensures
        text(value) == first_value(query_values(*params), name@),
{
    params.first(name)
}

/// A required query parameter. The order of the variants is the order in
/// which the parameters are looked for.
#[derive(Clone, Copy, Debug, PartialEq, Eq)]
pub enum Param {
    Iso,
    Year,
    Month,
    Day,
}

impl Param {
    /// The name under which the parameter stands in the query.
    pub open spec fn name_text(self) -> Seq<char> {
        match self {
            Param::Iso => "iso"@,
            Param::Year => "year"@,
            Param::Month => "month"@,
            Param::Day => "day"@,
        }
    }

    /// The name under which the parameter stands in the query.
    pub fn name(self) -> (name: &'static str)
        ensures
            name@ == self.name_text(),
    {
        match self {
            Param::Iso => "iso",
            Param::Year => "year",
            Param::Month => "month",
            Param::Day => "day",
        }
    }

    /// The message that reports this parameter as missing.
    pub open spec fn missing_text(self) -> Seq<char> {
        match self {
            Param::Iso => "The query 'iso' was not present."@,
            Param::Year => "The query 'year' was not present."@,
            Param::Month => "The query 'month' was not present."@,
            Param::Day => "The query 'day' was not present."@,
        }
    }

    /// The message that reports this parameter as missing.
    pub fn missing_message(self) -> (message: &'static str)
        ensures
            message@ == self.missing_text(),
    {
        match self {
            Param::Iso => "The query 'iso' was not present.",
            Param::Year => "The query 'year' was not present.",
            Param::Month => "The query 'month' was not present.",
            Param::Day => "The query 'day' was not present.",
        }
    }

    /// Reads the parameter from the query: the first value given for it.
    pub fn value<'a>(self, params: &'a QueryMap) -> (value: Option<&'a str>)
        ensures
            text(value) == first_value(query_values(*params), self.name_text()),
    {
        first(params, self.name())
    }
}

/// The first parameter that is absent, looking at `iso`, `year`, `month` and
/// `day` in this order; `None` where all four are present.
pub open spec fn first_missing(
    iso: Option<Seq<char>>,
    year: Option<Seq<char>>,
    month: Option<Seq<char>>,
    day: Option<Seq<char>>,
) -> Option<Param> {
    if iso is None {
        Some(Param::Iso)
    } else if year is None {
        Some(Param::Year)
    } else if month is None {
        Some(Param::Month)
    } else if day is None {
        Some(Param::Day)
    } else {
        None
    }
}

/// Finds the first required parameter that is absent.
pub fn find_missing(
    iso: Option<&str>,
    year: Option<&str>,
    month: Option<&str>,
    day: Option<&str>,
) -> (missing: Option<Param>)
    ensures
        missing == first_missing(text(iso), text(year), text(month), text(day)),
{
    if iso.is_none() {
        Some(Param::Iso)
    } else if year.is_none() {
        Some(Param::Year)
    } else if month.is_none() {
        Some(Param::Month)
    } else if day.is_none() {
        Some(Param::Day)
    } else {
        None
    }
}

/// A parameter is the one reported exactly when it is absent and every
/// parameter before it is present; nothing is reported exactly when all four
/// are present. What stands after the reported parameter does not matter.
pub proof fn first_missing_precedence(
    iso: Option<Seq<char>>,
    year: Option<Seq<char>>,
    month: Option<Seq<char>>,
    day: Option<Seq<char>>,
)
    ensures
        first_missing(iso, year, month, day) == Some(Param::Iso) <==> iso is None,
        first_missing(iso, year, month, day) == Some(Param::Year) <==> iso is Some && year is None,
        first_missing(iso, year, month, day) == Some(Param::Month) <==> iso is Some && year is Some
            && month is None,
        first_missing(iso, year, month, day) == Some(Param::Day) <==> iso is Some && year is Some
            && month is Some && day is None,
        first_missing(iso, year, month, day) is None <==> iso is Some && year is Some
            && month is Some && day is Some,
{
}

/// Each message names its parameter: it is the parameter's name between
/// `The query '` and `' was not present.`
pub proof fn missing_text_names_param(param: Param)
    ensures
        param.missing_text() == "The query '"@ + param.name_text() + "' was not present."@,
{
    reveal_strlit("The query '");
    reveal_strlit("' was not present.");
    reveal_strlit("iso");
    reveal_strlit("year");
    reveal_strlit("month");
    reveal_strlit("day");
    reveal_strlit("The query 'iso' was not present.");
    reveal_strlit("The query 'year' was not present.");
    reveal_strlit("The query 'month' was not present.");
    reveal_strlit("The query 'day' was not present.");
}

/// The four messages are four different texts.
pub proof fn missing_texts_differ(a: Param, b: Param)
    requires
        a != b,
    ensures
        a.missing_text() != b.missing_text(),
{
    reveal_strlit("The query 'iso' was not present.");
    reveal_strlit("The query 'year' was not present.");
    reveal_strlit("The query 'month' was not present.");
    reveal_strlit("The query 'day' was not present.");
    assert("The query 'iso' was not present."@[11] == 'i');
    assert("The query 'year' was not present."@[11] == 'y');
    assert("The query 'month' was not present."@[11] == 'm');
    assert("The query 'day' was not present."@[11] == 'd');
}

} // verus!
