//! The names under which records leave a run.

use vstd::prelude::*;

verus! {

/// The decimal digit of a number below ten.
pub open spec fn digit(d: nat) -> char
    recommends
        d < 10,
{
    seq!['0', '1', '2', '3', '4', '5', '6', '7', '8', '9'][d as int]
}

/// The decimal numeral of a number, without leading zeros.
pub open spec fn decimal(n: nat) -> Seq<char>
    decreases n,
{
    if n < 10 {
        seq![digit(n)]
    } else {
        decimal(n / 10).push(digit(n % 10))
    }
}

/// The name of the record of an entity: the name of the entity, an
/// underscore, and the index of the entity as a decimal numeral.
pub open spec fn record_name(name: Seq<char>, index: u32) -> Seq<char> {
    name + seq!['_'] + decimal(index as nat)
}

fn digit_text(d: u32) -> (text: &'static str)
    requires
        d < 10,
    ensures
        text@ == seq![digit(d as nat)],
{
    proof {
        reveal_strlit("0");
        reveal_strlit("1");
        reveal_strlit("2");
        reveal_strlit("3");
        reveal_strlit("4");
        reveal_strlit("5");
        reveal_strlit("6");
        reveal_strlit("7");
        reveal_strlit("8");
        reveal_strlit("9");
    }
    let text = if d == 0 {
        "0"
    } else if d == 1 {
        "1"
    } else if d == 2 {
        "2"
    } else if d == 3 {
        "3"
    } else if d == 4 {
        "4"
    } else if d == 5 {
        "5"
    } else if d == 6 {
        "6"
    } else if d == 7 {
        "7"
    } else if d == 8 {
        "8"
    } else {
        "9"
    };
    assert(text@ =~= seq![digit(d as nat)]);
    text
}

/// The decimal numeral of an index.
pub fn index_text(index: u32) -> (text: String)
    ensures
        text@ == decimal(index as nat),
    decreases index,
{
    if index < 10 {
        digit_text(index).to_owned()
    } else {
        let mut text = index_text(index / 10);
        text.append(digit_text(index % 10));
        assert(text@ =~= decimal(index as nat));
        text
    }
}

/// The name of the record of the entity `name` with the index `index`.
pub fn make_record_name(name: &String, index: u32) -> (text: String)
    ensures
        text@ == record_name(name@, index),
{
    proof {
        reveal_strlit("_");
    }
    let mut text = name.clone();
    text.append("_");
    text.append(index_text(index).as_str());
    assert(text@ =~= record_name(name@, index));
    text
}

} // verus!
