//! The conversions for value types of outside crates.
use vstd::prelude::*;
use crate::convert::{IntoBoundedStatic, ToBoundedStatic};

verus! {

#[verifier::external_type_specification]
#[verifier::external_body]
pub struct ExFixedOffset(chrono::FixedOffset);

#[verifier::external_type_specification]
#[verifier::external_body]
pub struct ExMonths(chrono::Months);

#[verifier::external_type_specification]
#[verifier::external_body]
pub struct ExTimeDelta(chrono::TimeDelta);

#[verifier::external_type_specification]
#[verifier::external_body]
pub struct ExUtc(chrono::Utc);

#[verifier::external_type_specification]
#[verifier::external_body]
pub struct ExMonth(chrono::Month);

#[verifier::external_type_specification]
#[verifier::external_body]
pub struct ExWeekday(chrono::Weekday);

#[verifier::external_type_specification]
#[verifier::external_body]
pub struct ExDays(chrono::naive::Days);

#[verifier::external_type_specification]
#[verifier::external_body]
pub struct ExIsoWeek(chrono::naive::IsoWeek);

#[verifier::external_type_specification]
#[verifier::external_body]
pub struct ExNaiveDate(chrono::NaiveDate);

#[verifier::external_type_specification]
#[verifier::external_body]
pub struct ExNaiveDateTime(chrono::NaiveDateTime);

#[verifier::external_type_specification]
#[verifier::external_body]
pub struct ExNaiveTime(chrono::NaiveTime);

#[verifier::external_type_specification]
#[verifier::external_body]
pub struct ExSmolStr(smol_str::SmolStr);

#[verifier::external_type_specification]
#[verifier::external_body]
pub struct ExAHashRandomState(ahash::RandomState);

/// Relies on `<SmolStr as Clone>::clone`: a string with the same content; it
/// shares the heap buffer, if any, by reference count.
pub assume_specification[ <smol_str::SmolStr as Clone>::clone ](s: &smol_str::SmolStr) -> smol_str::SmolStr;

/// Relies on `<ahash::RandomState as Clone>::clone`: a builder with the same keys.
pub assume_specification[ <ahash::RandomState as Clone>::clone ](s: &ahash::RandomState) -> ahash::RandomState;

impl ToBoundedStatic for smol_str::SmolStr {
    type Static = smol_str::SmolStr;

    fn to_static(&self) -> (r: smol_str::SmolStr) {
        self.clone()
    }
}

impl IntoBoundedStatic for smol_str::SmolStr {
    type Static = smol_str::SmolStr;

    fn into_static(self) -> (r: smol_str::SmolStr)
        ensures
            r == self,
    {
        self
    }
}

impl ToBoundedStatic for ahash::RandomState {
    type Static = ahash::RandomState;

    fn to_static(&self) -> (r: ahash::RandomState) {
        self.clone()
    }
}

impl ToBoundedStatic for chrono::FixedOffset {
    type Static = chrono::FixedOffset;

    fn to_static(&self) -> (r: chrono::FixedOffset)
        ensures
            r == *self,
    {
        *self
    }
}

impl IntoBoundedStatic for chrono::FixedOffset {
    type Static = chrono::FixedOffset;

    fn into_static(self) -> (r: chrono::FixedOffset)
        ensures
            r == self,
    {
        self
    }
}

impl ToBoundedStatic for chrono::Months {
    type Static = chrono::Months;

    fn to_static(&self) -> (r: chrono::Months)
        ensures
            r == *self,
    {
        *self
    }
}

impl IntoBoundedStatic for chrono::Months {
    type Static = chrono::Months;

    fn into_static(self) -> (r: chrono::Months)
        ensures
            r == self,
    {
        self
    }
}

impl ToBoundedStatic for chrono::TimeDelta {
    type Static = chrono::TimeDelta;

    fn to_static(&self) -> (r: chrono::TimeDelta)
        ensures
            r == *self,
    {
        *self
    }
}

impl IntoBoundedStatic for chrono::TimeDelta {
    type Static = chrono::TimeDelta;

    fn into_static(self) -> (r: chrono::TimeDelta)
        ensures
            r == self,
    {
        self
    }
}

impl ToBoundedStatic for chrono::Utc {
    type Static = chrono::Utc;

    fn to_static(&self) -> (r: chrono::Utc)
        ensures
            r == *self,
    {
        *self
    }
}

impl IntoBoundedStatic for chrono::Utc {
    type Static = chrono::Utc;

    fn into_static(self) -> (r: chrono::Utc)
        ensures
            r == self,
    {
        self
    }
}

impl ToBoundedStatic for chrono::Month {
    type Static = chrono::Month;

    fn to_static(&self) -> (r: chrono::Month)
        ensures
            r == *self,
    {
        *self
    }
}

impl IntoBoundedStatic for chrono::Month {
    type Static = chrono::Month;

    fn into_static(self) -> (r: chrono::Month)
        ensures
            r == self,
    {
        self
    }
}

impl ToBoundedStatic for chrono::Weekday {
    type Static = chrono::Weekday;

    fn to_static(&self) -> (r: chrono::Weekday)
        ensures
            r == *self,
    {
        *self
    }
}

impl IntoBoundedStatic for chrono::Weekday {
    type Static = chrono::Weekday;

    fn into_static(self) -> (r: chrono::Weekday)
        ensures
            r == self,
    {
        self
    }
}

impl ToBoundedStatic for chrono::naive::Days {
    type Static = chrono::naive::Days;

    fn to_static(&self) -> (r: chrono::naive::Days)
        ensures
            r == *self,
    {
        *self
    }
}

impl IntoBoundedStatic for chrono::naive::Days {
    type Static = chrono::naive::Days;

    fn into_static(self) -> (r: chrono::naive::Days)
        ensures
            r == self,
    {
        self
    }
}

impl ToBoundedStatic for chrono::naive::IsoWeek {
    type Static = chrono::naive::IsoWeek;

    fn to_static(&self) -> (r: chrono::naive::IsoWeek)
        ensures
            r == *self,
    {
        *self
    }
}

impl IntoBoundedStatic for chrono::naive::IsoWeek {
    type Static = chrono::naive::IsoWeek;

    fn into_static(self) -> (r: chrono::naive::IsoWeek)
        ensures
            r == self,
    {
        self
    }
}

impl ToBoundedStatic for chrono::NaiveDate {
    type Static = chrono::NaiveDate;

    fn to_static(&self) -> (r: chrono::NaiveDate)
        ensures
            r == *self,
    {
        *self
    }
}

impl IntoBoundedStatic for chrono::NaiveDate {
    type Static = chrono::NaiveDate;

    fn into_static(self) -> (r: chrono::NaiveDate)
        ensures
            r == self,
    {
        self
    }
}

impl ToBoundedStatic for chrono::NaiveDateTime {
    type Static = chrono::NaiveDateTime;

    fn to_static(&self) -> (r: chrono::NaiveDateTime)
        ensures
            r == *self,
    {
        *self
    }
}

impl IntoBoundedStatic for chrono::NaiveDateTime {
    type Static = chrono::NaiveDateTime;

    fn into_static(self) -> (r: chrono::NaiveDateTime)
        ensures
            r == self,
    {
        self
    }
}

impl ToBoundedStatic for chrono::NaiveTime {
    type Static = chrono::NaiveTime;

    fn to_static(&self) -> (r: chrono::NaiveTime)
        ensures
            r == *self,
    {
        *self
    }
}

impl IntoBoundedStatic for chrono::NaiveTime {
    type Static = chrono::NaiveTime;

    fn into_static(self) -> (r: chrono::NaiveTime)
        ensures
            r == self,
    {
        self
    }
}

} // verus!
