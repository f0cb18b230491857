//! Reading the members of a command's payload.
//!
//! A member that must be there and is not is a missing field; a member that is
//! there with a value of another type, or with a number outside the range of
//! its type, has the wrong type. An optional member may be left out or be
//! `null`; a member with a default may only be left out.

use crate::error::{PayloadProblem, PayloadProblemView};
use crate::json::{Json, JsonView};
use vstd::prelude::*;

verus! {

/// The view of an optional text.
pub open spec fn text_view(t: Option<String>) -> Option<Seq<char>> {
    match t {
        Some(s) => Some(s@),
        None => None,
    }
}

/// The member `key` is left out of the object, or is `null`.
pub open spec fn is_absent(obj: JsonView, key: Seq<char>) -> bool {
    obj.field(key) is None || obj.field(key) == Some(JsonView::Null)
}

/// A text member that must be present.
pub open spec fn spec_required_text(obj: JsonView, key: Seq<char>) -> Result<
    Seq<char>,
    PayloadProblemView,
> {
    match obj.field(key) {
        None => Err(PayloadProblemView::MissingField(key)),
        Some(JsonView::Text(s)) => Ok(s),
        Some(_) => Err(PayloadProblemView::WrongType(key)),
    }
}

/// A text member that may be absent or `null`.
pub open spec fn spec_optional_text(obj: JsonView, key: Seq<char>) -> Result<
    Option<Seq<char>>,
    PayloadProblemView,
> {
    match obj.field(key) {
        None => Ok(None),
        Some(JsonView::Null) => Ok(None),
        Some(JsonView::Text(s)) => Ok(Some(s)),
        Some(_) => Err(PayloadProblemView::WrongType(key)),
    }
}

/// A boolean member that stands for `default` when it is absent.
pub open spec fn spec_bool_or(obj: JsonView, key: Seq<char>, default: bool) -> Result<
    bool,
    PayloadProblemView,
> {
    match obj.field(key) {
        None => Ok(default),
        Some(JsonView::Bool(b)) => Ok(b),
        Some(_) => Err(PayloadProblemView::WrongType(key)),
    }
}

/// A boolean member that may be absent or `null`.
pub open spec fn spec_optional_bool(obj: JsonView, key: Seq<char>) -> Result<
    Option<bool>,
    PayloadProblemView,
> {
    match obj.field(key) {
        None => Ok(None),
        Some(JsonView::Null) => Ok(None),
        Some(JsonView::Bool(b)) => Ok(Some(b)),
        Some(_) => Err(PayloadProblemView::WrongType(key)),
    }
}

/// A whole-number member between `lo` and `hi` that must be present.
pub open spec fn spec_required_int(obj: JsonView, key: Seq<char>, lo: int, hi: int) -> Result<
    int,
    PayloadProblemView,
> {
    match obj.field(key) {
        None => Err(PayloadProblemView::MissingField(key)),
        Some(JsonView::Int(n)) => if lo <= n <= hi {
            Ok(n)
        } else {
            Err(PayloadProblemView::WrongType(key))
        },
        Some(_) => Err(PayloadProblemView::WrongType(key)),
    }
}

/// A whole-number member between `lo` and `hi` that may be absent or `null`.
pub open spec fn spec_optional_int(obj: JsonView, key: Seq<char>, lo: int, hi: int) -> Result<
    Option<int>,
    PayloadProblemView,
> {
    match obj.field(key) {
        None => Ok(None),
        Some(JsonView::Null) => Ok(None),
        Some(JsonView::Int(n)) => if lo <= n <= hi {
            Ok(Some(n))
        } else {
            Err(PayloadProblemView::WrongType(key))
        },
        Some(_) => Err(PayloadProblemView::WrongType(key)),
    }
}

/// A whole-number member between `lo` and `hi` that stands for `default` when
/// it is absent.
pub open spec fn spec_int_or(
    obj: JsonView,
    key: Seq<char>,
    lo: int,
    hi: int,
    default: int,
) -> Result<int, PayloadProblemView> {
    match obj.field(key) {
        None => Ok(default),
        Some(JsonView::Int(n)) => if lo <= n <= hi {
            Ok(n)
        } else {
            Err(PayloadProblemView::WrongType(key))
        },
        Some(_) => Err(PayloadProblemView::WrongType(key)),
    }
}

/// Reads a text member that must be present.
pub fn required_text(obj: &Json, key: &str) -> (r: Result<String, PayloadProblem>)
    ensures
        match r {
            Ok(s) => spec_required_text(obj@, key@) == Ok::<Seq<char>, PayloadProblemView>(s@),
            Err(e) => spec_required_text(obj@, key@) == Err::<Seq<char>, PayloadProblemView>(e@),
        },
{
    match obj.get(key) {
        None => Err(PayloadProblem::MissingField(key.to_owned())),
        Some(v) => match v.as_text() {
            Some(s) => Ok(s.clone()),
            None => Err(PayloadProblem::WrongType(key.to_owned())),
        },
    }
}

/// Reads a text member that may be absent or `null`.
pub fn optional_text(obj: &Json, key: &str) -> (r: Result<Option<String>, PayloadProblem>)
    ensures
        match r {
            Ok(s) => spec_optional_text(obj@, key@) == Ok::<Option<Seq<char>>, PayloadProblemView>(
                text_view(s),
            ),
            Err(e) => spec_optional_text(obj@, key@) == Err::<
                Option<Seq<char>>,
                PayloadProblemView,
            >(e@),
        },
{
    match obj.get(key) {
        None => Ok(None),
        Some(v) => {
            if v.is_null() {
                Ok(None)
            } else {
                match v.as_text() {
                    Some(s) => Ok(Some(s.clone())),
                    None => Err(PayloadProblem::WrongType(key.to_owned())),
                }
            }
        },
    }
}

/// Reads a boolean member that stands for `default` when it is absent.
pub fn bool_or(obj: &Json, key: &str, default: bool) -> (r: Result<bool, PayloadProblem>)
    ensures
        match r {
            Ok(b) => spec_bool_or(obj@, key@, default) == Ok::<bool, PayloadProblemView>(b),
            Err(e) => spec_bool_or(obj@, key@, default) == Err::<bool, PayloadProblemView>(e@),
        },
{
    match obj.get(key) {
        None => Ok(default),
        Some(v) => match v.as_bool() {
            Some(b) => Ok(b),
            None => Err(PayloadProblem::WrongType(key.to_owned())),
        },
    }
}

/// Reads a boolean member that may be absent or `null`.
pub fn optional_bool(obj: &Json, key: &str) -> (r: Result<Option<bool>, PayloadProblem>)
    ensures
        match r {
            Ok(b) => spec_optional_bool(obj@, key@) == Ok::<Option<bool>, PayloadProblemView>(b),
            Err(e) => spec_optional_bool(obj@, key@) == Err::<Option<bool>, PayloadProblemView>(
                e@,
            ),
        },
{
    match obj.get(key) {
        None => Ok(None),
        Some(v) => {
            if v.is_null() {
                Ok(None)
            } else {
                match v.as_bool() {
                    Some(b) => Ok(Some(b)),
                    None => Err(PayloadProblem::WrongType(key.to_owned())),
                }
            }
        },
    }
}

/// Reads a whole-number member between `lo` and `hi` that must be present.
pub fn required_int(obj: &Json, key: &str, lo: i128, hi: i128) -> (r: Result<i128, PayloadProblem>)
    ensures
        match r {
            Ok(n) => spec_required_int(obj@, key@, lo as int, hi as int) == Ok::<
                int,
                PayloadProblemView,
            >(n as int),
            Err(e) => spec_required_int(obj@, key@, lo as int, hi as int) == Err::<
                int,
                PayloadProblemView,
            >(e@),
        },
{
    match obj.get(key) {
        None => Err(PayloadProblem::MissingField(key.to_owned())),
        Some(v) => match v.as_int() {
            Some(n) => {
                if lo <= n && n <= hi {
                    Ok(n)
                } else {
                    Err(PayloadProblem::WrongType(key.to_owned()))
                }
            },
            None => Err(PayloadProblem::WrongType(key.to_owned())),
        },
    }
}

/// Reads a whole-number member between `lo` and `hi` that may be absent or
/// `null`.
pub fn optional_int(obj: &Json, key: &str, lo: i128, hi: i128) -> (r: Result<
    Option<i128>,
    PayloadProblem,
>)
    ensures
        match r {
            Ok(Some(n)) => spec_optional_int(obj@, key@, lo as int, hi as int) == Ok::<
                Option<int>,
                PayloadProblemView,
            >(Some(n as int)),
            Ok(None) => spec_optional_int(obj@, key@, lo as int, hi as int) == Ok::<
                Option<int>,
                PayloadProblemView,
            >(None),
            Err(e) => spec_optional_int(obj@, key@, lo as int, hi as int) == Err::<
                Option<int>,
                PayloadProblemView,
            >(e@),
        },
{
    match obj.get(key) {
        None => Ok(None),
        Some(v) => {
            if v.is_null() {
                Ok(None)
            } else {
                match v.as_int() {
                    Some(n) => {
                        if lo <= n && n <= hi {
                            Ok(Some(n))
                        } else {
                            Err(PayloadProblem::WrongType(key.to_owned()))
                        }
                    },
                    None => Err(PayloadProblem::WrongType(key.to_owned())),
                }
            }
        },
    }
}

/// Reads a whole-number member between `lo` and `hi` that stands for `default`
/// when it is absent.
pub fn int_or(obj: &Json, key: &str, lo: i128, hi: i128, default: i128) -> (r: Result<
    i128,
    PayloadProblem,
>)
    ensures
        match r {
            Ok(n) => spec_int_or(obj@, key@, lo as int, hi as int, default as int) == Ok::<
                int,
                PayloadProblemView,
            >(n as int),
            Err(e) => spec_int_or(obj@, key@, lo as int, hi as int, default as int) == Err::<
                int,
                PayloadProblemView,
            >(e@),
        },
{
    match obj.get(key) {
        None => Ok(default),
        Some(v) => match v.as_int() {
            Some(n) => {
                if lo <= n && n <= hi {
                    Ok(n)
                } else {
                    Err(PayloadProblem::WrongType(key.to_owned()))
                }
            },
            None => Err(PayloadProblem::WrongType(key.to_owned())),
        },
    }
}

} // verus!
