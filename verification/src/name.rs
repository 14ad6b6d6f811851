//! Resolving a monitor's human-readable name.
//!
//! The window server publishes a localized name per screen, keyed by the
//! display identifier. A monitor takes that name when the table has its
//! identifier, and otherwise a default built from the display's model
//! number, `Monitor #<model>` with the model written in decimal.

use std::collections::HashMap;
use vstd::prelude::*;
use vstd::string::StringExecFns;

verus! {

broadcast use vstd::std_specs::hash::group_hash_axioms;

/// The decimal digit character for `d`.
pub open spec fn digit_char(d: nat) -> char {
    if d == 0 {
        '0'
    } else if d == 1 {
        '1'
    } else if d == 2 {
        '2'
    } else if d == 3 {
        '3'
    } else if d == 4 {
        '4'
    } else if d == 5 {
        '5'
    } else if d == 6 {
        '6'
    } else if d == 7 {
        '7'
    } else if d == 8 {
        '8'
    } else {
        '9'
    }
}

/// The decimal digits of `n`, most significant first, with no leading
/// zero except for `n == 0` itself.
pub open spec fn decimal_digits(n: nat) -> Seq<char>
    decreases n,
{
    if n < 10 {
        seq![digit_char(n)]
    } else {
        decimal_digits(n / 10).push(digit_char(n % 10))
    }
}

/// The default name of a monitor whose model number is `model`.
pub open spec fn spec_default_name(model: nat) -> Seq<char> {
    "Monitor #"@ + decimal_digits(model)
}

fn digit_str(d: u32) -> (r: &'static str)
    requires
        d < 10,
    ensures
        r@ == seq![digit_char(d as nat)],
{
    proof {
        reveal_strlit("0");
        reveal_strlit("1");
        reveal_strlit("2");
        reveal_strlit("3");
        reveal_strlit("4");
        reveal_strlit("5");
        reveal_strlit("6");
        reveal_strlit("7");
        reveal_strlit("8");
        reveal_strlit("9");
    }
    let r: &'static str = if d == 0 {
        "0"
    } else if d == 1 {
        "1"
    } else if d == 2 {
        "2"
    } else if d == 3 {
        "3"
    } else if d == 4 {
        "4"
    } else if d == 5 {
        "5"
    } else if d == 6 {
        "6"
    } else if d == 7 {
        "7"
    } else if d == 8 {
        "8"
    } else {
        "9"
    };
    proof {
        assert(r@ =~= seq![digit_char(d as nat)]);
    }
    r
}

/// Write `n` in decimal.
pub fn u32_to_decimal(n: u32) -> (r: String)
    ensures
        r@ == decimal_digits(n as nat),
    decreases n,
{
    if n < 10 {
        String::from_str(digit_str(n))
    } else {
        let mut s = u32_to_decimal(n / 10);
        s.append(digit_str(n % 10));
        proof {
            assert(s@ =~= decimal_digits(n as nat));
        }
        s
    }
}

/// The default monitor name for model number `model`.
pub fn default_monitor_name(model: u32) -> (r: String)
    ensures
        r@ == spec_default_name(model as nat),
{
    let mut s = String::from_str("Monitor #");
    let digits = u32_to_decimal(model);
    s.append(digits.as_str());
    s
}

/// The name of the monitor with display identifier `id` and model number
/// `model`: the screen table's entry for `id` when there is one, and the
/// default name otherwise.
pub fn monitor_name(screen_names: &HashMap<u32, String>, id: u32, model: u32) -> (r: String)
    ensures
        screen_names@.contains_key(id) ==> r@ == screen_names@[id]@,
        !screen_names@.contains_key(id) ==> r@ == spec_default_name(model as nat),
{
    match screen_names.get(&id) {
        Some(name) => name.clone(),
        None => default_monitor_name(model),
    }
}

/// The table that a list of `(display identifier, localized name)` pairs
/// builds up: each identifier maps to the name of its last pair.
pub open spec fn screen_table_of(entries: Seq<(u32, String)>) -> Map<u32, String>
    decreases entries.len(),
{
    if entries.len() == 0 {
        Map::empty()
    } else {
        screen_table_of(entries.drop_last()).insert(entries.last().0, entries.last().1)
    }
}

/// Build the screen-name table from the pairs the window server reported,
/// one per screen, in the order it listed them. When two screens report
/// the same display identifier, the later entry wins.
pub fn build_screen_map(entries: Vec<(u32, String)>) -> (m: HashMap<u32, String>)
    ensures
        m@ == screen_table_of(entries@),
{
    let ghost all = entries@;
    let mut rest = entries;
    let mut m: HashMap<u32, String> = HashMap::new();
    let ghost mut taken: int = 0;
    while rest.len() > 0
        invariant
            0 <= taken <= all.len(),
            rest@ == all.skip(taken),
            m@ == screen_table_of(all.take(taken)),
        decreases rest@.len(),
    {
        let pair = rest.remove(0);
        proof {
            assert(all.take(taken + 1).drop_last() =~= all.take(taken));
            assert(all.take(taken + 1).last() == all[taken]);
            assert(rest@ =~= all.skip(taken + 1));
        }
        m.insert(pair.0, pair.1);
        proof {
            taken = taken + 1;
        }
    }
    proof {
        assert(all.take(taken) =~= all);
    }
    m
}

} // verus!
