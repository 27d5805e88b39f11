//! Text projections used by the view bindings: the footer's remaining-item
//! label and the show/hide display style, both computed from plain values
//! pushed through the dataflow graph.

use vstd::prelude::*;

verus! {

/// The decimal digit character for `d` (meaningful for `0 <= d <= 9`).
pub open spec fn spec_digit(d: int) -> char {
    if d == 0 {
        '0'
    } else if d == 1 {
        '1'
    } else if d == 2 {
        '2'
    } else if d == 3 {
        '3'
    } else if d == 4 {
        '4'
    } else if d == 5 {
        '5'
    } else if d == 6 {
        '6'
    } else if d == 7 {
        '7'
    } else if d == 8 {
        '8'
    } else {
        '9'
    }
}

/// The decimal numeral of `n`, most significant digit first, without
/// leading zeros (except for `n == 0` itself).
pub open spec fn spec_decimal(n: int) -> Seq<char>
    decreases n,
{
    if n < 10 {
        seq![spec_digit(n)]
    } else {
        spec_decimal(n / 10).push(spec_digit(n % 10))
    }
}

/// The footer label for `n` remaining items: the decimal numeral followed
/// by `" item left"` when `n` is exactly one and `" items left"` otherwise.
pub open spec fn spec_items_left(n: int) -> Seq<char> {
    if n == 1 {
        spec_decimal(n) + " item left"@
    } else {
        spec_decimal(n) + " items left"@
    }
}

/// The CSS display value that shows an element when `b` holds and hides
/// it otherwise.
pub open spec fn spec_display_style(b: bool) -> Seq<char> {
    if b {
        "block"@
    } else {
        "none"@
    }
}

/// The single-character string for the decimal digit `d`.
fn digit_str(d: usize) -> (s: &'static str)
    requires
        d < 10,
    ensures
        s@ == seq![spec_digit(d as int)],
{
    proof {
        reveal_strlit("0");
        reveal_strlit("1");
        reveal_strlit("2");
        reveal_strlit("3");
        reveal_strlit("4");
        reveal_strlit("5");
        reveal_strlit("6");
        reveal_strlit("7");
        reveal_strlit("8");
        reveal_strlit("9");
    }
    let s = match d {
        0 => "0",
        1 => "1",
        2 => "2",
        3 => "3",
        4 => "4",
        5 => "5",
        6 => "6",
        7 => "7",
        8 => "8",
        _ => "9",
    };
    proof {
        assert(s@ =~= seq![spec_digit(d as int)]);
    }
    s
}

/// Renders `n` in decimal.
pub fn decimal_string(n: usize) -> (s: String)
    ensures
        s@ == spec_decimal(n as int),
    decreases n,
{
    if n < 10 {
        String::from_str(digit_str(n))
    } else {
        let mut s = decimal_string(n / 10);
        s.append(digit_str(n % 10));
        proof {
            assert(s@ =~= spec_decimal(n as int));
        }
        s
    }
}

/// Renders the footer's remaining-item label, `"1 item left"`,
/// `"2 items left"` and so on.
pub fn items_left_label(n: usize) -> (s: String)
    ensures
        s@ == spec_items_left(n as int),
{
    let mut s = decimal_string(n);
    if n == 1 {
        s.append(" item left");
    } else {
        s.append(" items left");
    }
    s
}

/// The show/hide style projection wired between the display channel and
/// the style bindings of the list section and the footer.
pub fn bool_to_display(should: bool) -> (s: String)
    ensures
        s@ == spec_display_style(should),
{
    if should {
        String::from_str("block")
    } else {
        String::from_str("none")
    }
}

} // verus!
