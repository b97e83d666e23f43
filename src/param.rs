use vstd::prelude::*;
use chrono::NaiveDateTime;

verus! {

#[verifier::external_type_specification]
#[verifier::external_body]
pub struct ExNaiveDateTime(NaiveDateTime);

/// A value bound to a `?` placeholder of a statement: exactly one tag is active.
#[derive(Debug)]
pub enum Param {
    I32(i32),
    I64(i64),
    String(String),
    Bool(bool),
    DateTime(NaiveDateTime),
    Null,
}

impl From<i32> for Param {
    fn from(v: i32) -> (r: Param)
        ensures
            r == Param::I32(v),
    {
        Param::I32(v)
    }
}

impl vstd::std_specs::convert::FromSpecImpl<i32> for Param {
    open spec fn obeys_from_spec() -> bool {
        true
    }

    open spec fn from_spec(v: i32) -> Param {
        Param::I32(v)
    }
}

impl From<i64> for Param {
    fn from(v: i64) -> (r: Param)
        ensures
            r == Param::I64(v),
    {
        Param::I64(v)
    }
}

impl vstd::std_specs::convert::FromSpecImpl<i64> for Param {
    open spec fn obeys_from_spec() -> bool {
        true
    }

    open spec fn from_spec(v: i64) -> Param {
        Param::I64(v)
    }
}

impl From<String> for Param {
    fn from(v: String) -> (r: Param)
        ensures
            r == Param::String(v),
    {
        Param::String(v)
    }
}

impl vstd::std_specs::convert::FromSpecImpl<String> for Param {
    open spec fn obeys_from_spec() -> bool {
        true
    }

    open spec fn from_spec(v: String) -> Param {
        Param::String(v)
    }
}

impl From<bool> for Param {
    fn from(v: bool) -> (r: Param)
        ensures
            r == Param::Bool(v),
    {
        Param::Bool(v)
    }
}

impl vstd::std_specs::convert::FromSpecImpl<bool> for Param {
    open spec fn obeys_from_spec() -> bool {
        true
    }

    open spec fn from_spec(v: bool) -> Param {
        Param::Bool(v)
    }
}

impl From<NaiveDateTime> for Param {
    fn from(v: NaiveDateTime) -> (r: Param)
        ensures
            r == Param::DateTime(v),
    {
        Param::DateTime(v)
    }
}

impl vstd::std_specs::convert::FromSpecImpl<NaiveDateTime> for Param {
    open spec fn obeys_from_spec() -> bool {
        true
    }

    open spec fn from_spec(v: NaiveDateTime) -> Param {
        Param::DateTime(v)
    }
}

/// What converting an optional value gives: null when absent, and the
/// conversion of the contained value when present.
pub open spec fn option_param<T>(o: Option<T>) -> Param where Param: From<T> {
    match o {
        Some(v) => <Param as vstd::std_specs::convert::FromSpec<T>>::from_spec(v),
        None => Param::Null,
    }
}

/// Converts a value through its own conversion into a parameter.
fn convert<T>(v: T) -> (r: Param) where Param: From<T>
    ensures
        <Param as vstd::std_specs::convert::FromSpec<T>>::obeys_from_spec() ==> r
            == <Param as vstd::std_specs::convert::FromSpec<T>>::from_spec(v),
{
    Param::from(v)
}

impl<T> From<Option<T>> for Param where Param: From<T> {
    fn from(o: Option<T>) -> (r: Param) {
        match o {
            Some(v) => convert(v),
            None => Param::Null,
        }
    }
}

impl<T> vstd::std_specs::convert::FromSpecImpl<Option<T>> for Param where Param: From<T> {
    open spec fn obeys_from_spec() -> bool {
        <Param as vstd::std_specs::convert::FromSpec<T>>::obeys_from_spec()
    }

    open spec fn from_spec(o: Option<T>) -> Param {
        option_param(o)
    }
}

/// A present optional value converts as the value itself does, and an absent
/// one converts to the null tag, whatever the value's type.
pub proof fn lemma_option_conversion<T>(v: T) where Param: From<T>
    ensures
        <Param as vstd::std_specs::convert::FromSpec<Option<T>>>::from_spec(Some(v))
            == <Param as vstd::std_specs::convert::FromSpec<T>>::from_spec(v),
        <Param as vstd::std_specs::convert::FromSpec<Option<T>>>::from_spec(None::<T>)
            == Param::Null,
        <Param as vstd::std_specs::convert::FromSpec<Option<T>>>::obeys_from_spec()
            == <Param as vstd::std_specs::convert::FromSpec<T>>::obeys_from_spec(),
{
}

/// A value in the form the engine binds it. A timestamp is bound as its text
/// and a null as an integer-typed null.
#[derive(Debug)]
pub enum BindValue {
    I32(i32),
    I64(i64),
    Text(String),
    Bool(bool),
    NullInt,
}

/// Relies on chrono's `Display` for `NaiveDateTime` (through `to_string`):
/// the timestamp as text, date and time separated by a space.
#[verifier::external_body]
fn datetime_text(d: &NaiveDateTime) -> (r: String)
{
    d.to_string()
}

/// How a parameter is handed to the engine: scalars as they are, a timestamp
/// as text, a null as an integer-typed null.
pub open spec fn bind_of(p: Param, b: BindValue) -> bool {
    match p {
        Param::I32(v) => b == BindValue::I32(v),
        Param::I64(v) => b == BindValue::I64(v),
        Param::String(s) => b matches BindValue::Text(t) && t@ == s@,
        Param::Bool(v) => b == BindValue::Bool(v),
        Param::DateTime(_) => b is Text,
        Param::Null => b == BindValue::NullInt,
    }
}

impl Param {
    /// The form in which the engine binds this value.
    pub fn to_bind(&self) -> (r: BindValue)
        ensures
            bind_of(*self, r),
    {
        match self {
            Param::I32(v) => BindValue::I32(*v),
            Param::I64(v) => BindValue::I64(*v),
            Param::String(s) => BindValue::Text(s.clone()),
            Param::Bool(v) => BindValue::Bool(*v),
            Param::DateTime(d) => BindValue::Text(datetime_text(d)),
            Param::Null => BindValue::NullInt,
        }
    }
}

} // verus!
