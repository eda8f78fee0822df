//! The provider's holiday record and the compact record handed to callers.

use vstd::prelude::*;
use vstd::std_specs::convert::FromSpecImpl;

verus! {

/// One holiday as the provider describes it. Every field is text, in the
/// provider's own format; the service reads three of them and passes the
/// rest over.
#[derive(Clone, Debug, PartialEq, Eq)]
pub struct Holiday {
    pub name: String,
    pub name_local: String,
    pub language: String,
    pub description: String,
    pub country: String,
    pub location: String,
    pub type_field: String,
    pub date: String,
    pub date_year: String,
    pub date_month: String,
    pub date_day: String,
    pub week_day: String,
}

/// The provider's answer to one request: the holidays on the day asked for,
/// in the provider's order.
pub type Holidays = Vec<Holiday>;

/// The compact record a caller receives: the holiday's name, its
/// description under the shorter label `desc`, and its date as the provider
/// wrote it.
#[derive(Clone, Debug, PartialEq, Eq)]
pub struct HolidayReduced {
    name: String,
    desc: String,
    date: String,
}

/// The text of a [`HolidayReduced`].
pub struct ReducedView {
    pub name: Seq<char>,
    pub desc: Seq<char>,
    pub date: Seq<char>,
}

/// The reduction of a provider record: `name` and `date` are kept,
/// `description` becomes `desc`, and nothing else survives.
pub open spec fn reduced(hol: Holiday) -> ReducedView {
    ReducedView { name: hol.name@, desc: hol.description@, date: hol.date@ }
}

impl View for HolidayReduced {
    type V = ReducedView;

    closed spec fn view(&self) -> ReducedView {
        ReducedView { name: self.name@, desc: self.desc@, date: self.date@ }
    }
}

impl FromSpecImpl<Holiday> for HolidayReduced {
    open spec fn obeys_from_spec() -> bool {
        true
    }

    closed spec fn from_spec(hol: Holiday) -> HolidayReduced {
        HolidayReduced { name: hol.name, desc: hol.description, date: hol.date }
    }
}

impl From<Holiday> for HolidayReduced {
    /// Reduces a provider record.
    fn from(hol: Holiday) -> (out: HolidayReduced)
        ensures
            out@ == reduced(hol),
    {
        HolidayReduced { name: hol.name, desc: hol.description, date: hol.date }
    }
}

impl HolidayReduced {
    /// The holiday's name.
    pub fn name(&self) -> (text: &str)
        ensures
            text@ == self@.name,
    {
        self.name.as_str()
    }

    /// The holiday's description.
    pub fn desc(&self) -> (text: &str)
        ensures
            text@ == self@.desc,
    {
        self.desc.as_str()
    }

    /// The holiday's date, in the provider's format.
    pub fn date(&self) -> (text: &str)
        ensures
            text@ == self@.date,
    {
        self.date.as_str()
    }
}

/// Reduction is a function of the record: any two reductions of one record
/// read the same.
pub proof fn reduction_is_repeatable(hol: Holiday, first: HolidayReduced, second: HolidayReduced)
    requires
        first@ == reduced(hol),
        second@ == reduced(hol),
    ensures
        first@ == second@,
{
}

/// Reduction reads the name, the description and the date of a record and
/// nothing else: records that agree on these three reduce alike, whatever
/// their other fields hold.
pub proof fn reduction_reads_three_fields(a: Holiday, b: Holiday)
    requires
        a.name@ == b.name@,
        a.description@ == b.description@,
        a.date@ == b.date@,
    ensures
        reduced(a) == reduced(b),
{
}

} // verus!
