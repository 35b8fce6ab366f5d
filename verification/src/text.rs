//! Presentation helpers for item records: a thousands-separated price and
//! the prefix a gear name carries for its enhancement level.

use vstd::prelude::*;
use vstd::arithmetic::div_mod::{
    lemma_div_decreases,
    lemma_div_denominator,
    lemma_div_is_ordered,
};
use vstd::string::StringExecFns;

verus! {

/// The character a single decimal digit prints as.
pub open spec fn digit_char(d: nat) -> char {
    if d == 0 {
        '0'
    } else if d == 1 {
        '1'
    } else if d == 2 {
        '2'
    } else if d == 3 {
        '3'
    } else if d == 4 {
        '4'
    } else if d == 5 {
        '5'
    } else if d == 6 {
        '6'
    } else if d == 7 {
        '7'
    } else if d == 8 {
        '8'
    } else {
        '9'
    }
}

/// The decimal digits of `n`, most significant first, without leading
/// zeroes (`0` prints as the single digit `0`).
pub open spec fn dec_digits(n: nat) -> Seq<char>
    decreases n,
{
    if n < 10 {
        seq![digit_char(n)]
    } else {
        dec_digits(n / 10).push(digit_char(n % 10))
    }
}

/// The digits with a comma before every group of three, counted from the
/// right.
pub open spec fn grouped(digits: Seq<char>) -> Seq<char>
    decreases digits.len(),
{
    if digits.len() <= 3 {
        digits
    } else {
        grouped(digits.take(digits.len() - 3)) + seq![','] + digits.skip(digits.len() - 3)
    }
}

/// The single-character string a digit prints as.
fn digit_str(d: u64) -> (s: &'static str)
    requires
        d < 10,
    ensures
        s@.len() == 1,
        s@[0] == digit_char(d as nat),
{
    proof {
        reveal_strlit("0");
        reveal_strlit("1");
        reveal_strlit("2");
        reveal_strlit("3");
        reveal_strlit("4");
        reveal_strlit("5");
        reveal_strlit("6");
        reveal_strlit("7");
        reveal_strlit("8");
        reveal_strlit("9");
    }
    match d {
        0 => "0",
        1 => "1",
        2 => "2",
        3 => "3",
        4 => "4",
        5 => "5",
        6 => "6",
        7 => "7",
        8 => "8",
        _ => "9",
    }
}

/// For a number of at least four digits, the digits split into those of
/// `n / 1000` followed by the three digits of the final group.
proof fn lemma_dec_digits_split(n: nat)
    requires
        n >= 1000,
    ensures
        dec_digits(n) =~= dec_digits(n / 1000) + seq![
            digit_char((n / 100) % 10),
            digit_char((n / 10) % 10),
            digit_char(n % 10),
        ],
{
    lemma_div_is_ordered(1000, n as int, 10);
    lemma_div_is_ordered(1000, n as int, 100);
    lemma_div_denominator(n as int, 10, 10);
    lemma_div_denominator(n as int, 100, 10);
    assert(dec_digits(n) == dec_digits(n / 10).push(digit_char(n % 10)));
    assert(dec_digits(n / 10) == dec_digits(n / 100).push(digit_char((n / 10) % 10)));
    assert(dec_digits(n / 100) == dec_digits(n / 1000).push(digit_char((n / 100) % 10)));
}

/// Appends the comma-grouped decimal digits of `n`.
fn push_grouped(n: u64, out: &mut String)
    ensures
        final(out)@ == old(out)@ + grouped(dec_digits(n as nat)),
    decreases n,
{
    if n < 10 {
        out.append(digit_str(n));
        assert(out@ =~= old(out)@ + grouped(dec_digits(n as nat)));
    } else if n < 100 {
        proof {
            lemma_div_is_ordered(n as int, 99, 10);
        }
        out.append(digit_str(n / 10));
        out.append(digit_str(n % 10));
        proof {
            assert(dec_digits(n as nat) == dec_digits(n as nat / 10).push(
                digit_char(n as nat % 10),
            ));
            assert(out@ =~= old(out)@ + grouped(dec_digits(n as nat)));
        }
    } else if n < 1000 {
        proof {
            lemma_div_is_ordered(100, n as int, 10);
            lemma_div_is_ordered(n as int, 999, 10);
            lemma_div_is_ordered(n as int, 999, 100);
            lemma_div_denominator(n as int, 10, 10);
        }
        out.append(digit_str(n / 100));
        out.append(digit_str((n / 10) % 10));
        out.append(digit_str(n % 10));
        proof {
            assert(dec_digits(n as nat) == dec_digits(n as nat / 10).push(
                digit_char(n as nat % 10),
            ));
            assert(dec_digits(n as nat / 10) == dec_digits(n as nat / 100).push(
                digit_char((n as nat / 10) % 10),
            ));
            assert(out@ =~= old(out)@ + grouped(dec_digits(n as nat)));
        }
    } else {
        proof {
            lemma_div_decreases(n as int, 1000);
        }
        push_grouped(n / 1000, out);
        out.append(",");
        out.append(digit_str((n / 100) % 10));
        out.append(digit_str((n / 10) % 10));
        out.append(digit_str(n % 10));
        proof {
            reveal_strlit(",");
            lemma_dec_digits_split(n as nat);
            let all = dec_digits(n as nat);
            let head = dec_digits(n as nat / 1000);
            assert(all.take(all.len() - 3) =~= head);
            assert(all.skip(all.len() - 3) =~= seq![
                digit_char((n as nat / 100) % 10),
                digit_char((n as nat / 10) % 10),
                digit_char(n as nat % 10),
            ]);
            assert(out@ =~= old(out)@ + grouped(all));
        }
    }
}

/// Prints `num` in decimal with a comma between every group of three
/// digits, counted from the right.
pub fn format_number(num: u64) -> (formatted: String)
    ensures
        formatted@ == grouped(dec_digits(num as nat)),
{
    let mut out = String::new();
    push_grouped(num, &mut out);
    proof {
        assert(out@ =~= grouped(dec_digits(num as nat)));
    }
    out
}

/// Whether an enhancement level names an accessory or a piece of gear:
/// the two families print their levels differently.
#[derive(Clone, Copy, PartialEq, Eq, Structural, Debug)]
pub enum GearType {
    Accessory,
    Gear,
}

/// The prefix an item name carries for its enhancement level.  Accessories
/// print the five named tiers; gear prints `+1` through `+15` and then the
/// same named tiers.  An unenhanced item carries no prefix.
pub open spec fn enhancement_prefix(level: u64, gear_type: GearType) -> Seq<char> {
    match gear_type {
        GearType::Accessory => {
            if level == 0 {
                ""@
            } else if level == 1 {
                "PRI (I): "@
            } else if level == 2 {
                "DUO (II): "@
            } else if level == 3 {
                "TRI (III): "@
            } else if level == 4 {
                "TET (IV): "@
            } else {
                "PEN (V): "@
            }
        },
        GearType::Gear => {
            if level == 0 {
                ""@
            } else if level == 1 {
                "+1: "@
            } else if level == 2 {
                "+2: "@
            } else if level == 3 {
                "+3: "@
            } else if level == 4 {
                "+4: "@
            } else if level == 5 {
                "+5: "@
            } else if level == 6 {
                "+6: "@
            } else if level == 7 {
                "+7: "@
            } else if level == 8 {
                "+8: "@
            } else if level == 9 {
                "+9: "@
            } else if level == 10 {
                "+10: "@
            } else if level == 11 {
                "+11: "@
            } else if level == 12 {
                "+12: "@
            } else if level == 13 {
                "+13: "@
            } else if level == 14 {
                "+14: "@
            } else if level == 15 {
                "+15: "@
            } else if level == 16 {
                "PRI (I): "@
            } else if level == 17 {
                "DUO (II): "@
            } else if level == 18 {
                "TRI (III): "@
            } else if level == 19 {
                "TET (IV): "@
            } else {
                "PEN (V): "@
            }
        },
    }
}

/// The prefix for an enhancement level, as the embed titles print it.
/// Levels beyond the last tier of the family do not name items and are
/// excluded.
pub fn get_enhancement_prefix(level: u64, gear_type: GearType) -> (prefix: String)
    requires
        gear_type == GearType::Accessory ==> level <= 5,
        gear_type == GearType::Gear ==> level <= 20,
    ensures
        prefix@ == enhancement_prefix(level, gear_type),
{
    match gear_type {
        GearType::Accessory => match level {
            0 => "".to_owned(),
            1 => "PRI (I): ".to_owned(),
            2 => "DUO (II): ".to_owned(),
            3 => "TRI (III): ".to_owned(),
            4 => "TET (IV): ".to_owned(),
            5 => "PEN (V): ".to_owned(),
            _ => unreached(),
        },
        GearType::Gear => match level {
            0 => "".to_owned(),
            1 => "+1: ".to_owned(),
            2 => "+2: ".to_owned(),
            3 => "+3: ".to_owned(),
            4 => "+4: ".to_owned(),
            5 => "+5: ".to_owned(),
            6 => "+6: ".to_owned(),
            7 => "+7: ".to_owned(),
            8 => "+8: ".to_owned(),
            9 => "+9: ".to_owned(),
            10 => "+10: ".to_owned(),
            11 => "+11: ".to_owned(),
            12 => "+12: ".to_owned(),
            13 => "+13: ".to_owned(),
            14 => "+14: ".to_owned(),
            15 => "+15: ".to_owned(),
            16 => "PRI (I): ".to_owned(),
            17 => "DUO (II): ".to_owned(),
            18 => "TRI (III): ".to_owned(),
            19 => "TET (IV): ".to_owned(),
            20 => "PEN (V): ".to_owned(),
            _ => unreached(),
        },
    }
}

} // verus!
