//! Counts of items written the way an inventory shows them: in boxes of 1728,
//! stacks of 64 and single items.

use crate::csv_text::{all_digits, count_of_field, digits_value};
use vstd::prelude::*;
use vstd::string::StringExecFns;

verus! {

/// Items in one stack.
pub const STACK: u32 = 64;

/// Items in one box: 27 stacks.
pub const BOX: u32 = 1728;

/// The character that stands for a single decimal digit.
pub open spec fn digit_char(d: nat) -> char
    recommends
        d < 10,
{
    if d == 0 {
        '0'
    } else if d == 1 {
        '1'
    } else if d == 2 {
        '2'
    } else if d == 3 {
        '3'
    } else if d == 4 {
        '4'
    } else if d == 5 {
        '5'
    } else if d == 6 {
        '6'
    } else if d == 7 {
        '7'
    } else if d == 8 {
        '8'
    } else {
        '9'
    }
}

/// The decimal numeral of `n`, without sign or leading zeros.
pub open spec fn decimal_text(n: nat) -> Seq<char>
    decreases n,
{
    if n < 10 {
        seq![digit_char(n)]
    } else {
        decimal_text(n / 10).push(digit_char(n % 10))
    }
}

/// How a count of `n` items reads: whole boxes, then whole stacks of what is
/// left, then the remaining items. The tiers above the count are left out.
pub open spec fn quantity_text(n: nat) -> Seq<char> {
    let per_stack = STACK as nat;
    let per_box = BOX as nat;
    if n >= per_box {
        decimal_text(n / per_box) + " boxes, "@ + decimal_text((n % per_box) / per_stack) + " stacks, "@
            + decimal_text((n % per_box) % per_stack) + " items"@
    } else if n >= per_stack {
        decimal_text(n / per_stack) + " stacks, "@ + decimal_text(n % per_stack) + " items"@
    } else {
        decimal_text(n) + " items"@
    }
}

/// The one-character string of a decimal digit.
fn digit_str(d: u32) -> (s: &'static str)
    requires
        d < 10,
    ensures
        s@ == seq![digit_char(d as nat)],
{
    proof {
        reveal_strlit("0");
        reveal_strlit("1");
        reveal_strlit("2");
        reveal_strlit("3");
        reveal_strlit("4");
        reveal_strlit("5");
        reveal_strlit("6");
        reveal_strlit("7");
        reveal_strlit("8");
        reveal_strlit("9");
    }
    let s = match d {
        0 => "0",
        1 => "1",
        2 => "2",
        3 => "3",
        4 => "4",
        5 => "5",
        6 => "6",
        7 => "7",
        8 => "8",
        _ => "9",
    };
    s
}

/// Writes the decimal numeral of `n` at the end of `text`.
pub fn append_decimal(text: &mut String, n: u32)
    ensures
        final(text)@ == old(text)@ + decimal_text(n as nat),
    decreases n,
{
    if n >= 10 {
        append_decimal(text, n / 10);
    }
    text.append(digit_str(n % 10));
}

/// Writes an item count in boxes, stacks and items.
///
/// A count of at least one box names all three tiers, a count of at least one
/// stack names stacks and items, and a smaller count names the items alone.
pub fn format_item_count(item_count: u32) -> (text: String)
    ensures
        text@ == quantity_text(item_count as nat),
{
    let mut text = String::new();
    if item_count >= BOX {
        let boxes: u32 = item_count / BOX;
        let stacks: u32 = (item_count - boxes * BOX) / STACK;
        let items: u32 = item_count - boxes * BOX - stacks * STACK;
        assert(item_count - boxes * BOX == item_count % BOX);
        assert(items == (item_count % BOX) % STACK);
        append_decimal(&mut text, boxes);
        text.append(" boxes, ");
        append_decimal(&mut text, stacks);
        text.append(" stacks, ");
        append_decimal(&mut text, items);
        text.append(" items");
    } else if item_count >= STACK {
        let stacks: u32 = item_count / STACK;
        let items: u32 = item_count % STACK;
        append_decimal(&mut text, stacks);
        text.append(" stacks, ");
        append_decimal(&mut text, items);
        text.append(" items");
    } else {
        append_decimal(&mut text, item_count);
        text.append(" items");
    }
    text
}

/// A numeral holds decimal digits only, at least one, and writes its number.
pub proof fn lemma_decimal_text_digits(n: nat)
    ensures
        decimal_text(n).len() > 0,
        all_digits(decimal_text(n), 10),
        digits_value(decimal_text(n), 10) == n,
    decreases n,
{
    let text = decimal_text(n);
    if n < 10 {
        assert(digits_value(text.drop_last(), 10) == 0);
    } else {
        lemma_decimal_text_digits(n / 10);
        let front = decimal_text(n / 10);
        assert(text.drop_last() == front);
    }
}

/// A count that is written in a material list the way it is shown here reads
/// back as the same count.
pub proof fn lemma_shown_count_reads_back(count: u32)
    ensures
        count_of_field(decimal_text(count as nat)) == Some(count),
{
    lemma_decimal_text_digits(count as nat);
}

} // verus!
