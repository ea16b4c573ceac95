//! The random outcome exercise: a number drawn uniformly from 0, 1 and 2
//! becomes one of the outcomes `One`, `Two`, `Three` or `Error`.

use rand::distributions::{Distribution, Uniform};
use vstd::prelude::*;

verus! {

/// The outcome of a draw.
#[derive(Debug, Clone, Copy, PartialEq, Eq, Structural)]
pub enum MyEnum {
    One,
    Two,
    Three,
    Error,
}

/// The outcome that a drawn number stands for.
pub open spec fn outcome_of(value: i32) -> MyEnum {
    if value == 1 {
        MyEnum::One
    } else if value == 2 {
        MyEnum::Two
    } else if value == 3 {
        MyEnum::Three
    } else {
        MyEnum::Error
    }
}

/// Each number stands for exactly one outcome: 1, 2 and 3 for `One`,
/// `Two` and `Three`, every other number for `Error`.
pub proof fn lemma_outcome_of_value(value: i32)
    ensures
        outcome_of(value) == MyEnum::One <==> value == 1,
        outcome_of(value) == MyEnum::Two <==> value == 2,
        outcome_of(value) == MyEnum::Three <==> value == 3,
        outcome_of(value) == MyEnum::Error <==> (value < 1 || value > 3),
{
}

/// Draws a number uniformly from `low` up to but not including `high`,
/// with `rand`'s `Uniform::new(low, high)` sampled from the thread-local
/// generator. What is stated is only the range that every draw lies in;
/// which number comes out is left to chance. `Uniform::new` panics when
/// `low >= high`, so that input is left out.
#[verifier::external_body]
fn sample_uniform(low: i32, high: i32) -> (r: i32)
    requires
        low < high,
    ensures
        low <= r < high,
{
    Uniform::new(low, high).sample(&mut rand::thread_rng())
}

/// The outcome for a number: 1, 2 and 3 give `One`, `Two` and `Three`,
/// anything else gives `Error`.
pub fn outcome_from_value(value: i32) -> (e: MyEnum)
    ensures
        e == outcome_of(value),
        e == MyEnum::One <==> value == 1,
        e == MyEnum::Two <==> value == 2,
        e == MyEnum::Three <==> value == 3,
        e == MyEnum::Error <==> (value < 1 || value > 3),
{
    match value {
        1 => MyEnum::One,
        2 => MyEnum::Two,
        3 => MyEnum::Three,
        _ => MyEnum::Error,
    }
}

/// Draws a number from 0, 1 and 2 and returns its outcome. Since 3 is
/// never drawn, `Three` never comes out; 0 gives `Error`.
pub fn draw_outcome() -> (e: MyEnum)
    ensures
        exists|v: i32| 0 <= v < 3 && e == outcome_of(v),
        e != MyEnum::Three,
{
    let value = sample_uniform(0, 3);
    outcome_from_value(value)
}

/// The line shown for an outcome other than `Error` (for which the
/// program stops instead).
pub fn outcome_message(e: MyEnum) -> (m: &'static str)
    requires
        e != MyEnum::Error,
    ensures
        e == MyEnum::One ==> m@ == "User got a one"@,
        e == MyEnum::Two ==> m@ == "User got a two"@,
        e == MyEnum::Three ==> m@ == "User got a three"@,
{
    match e {
        MyEnum::One => "User got a one",
        MyEnum::Two => "User got a two",
        _ => "User got a three",
    }
}

} // verus!
