//! Window labels: the fixed ones, and the numbered ones that are written from
//! a count of open windows.

use vstd::prelude::*;
use vstd::string::StringExecFns;

verus! {

/// Label of the window that is either opened or brought to the front.
pub const FOCUS_LABEL: &'static str = "focus";

/// Label of the transparent window with visual effects.
pub const EFFECTS_LABEL: &'static str = "effects";

/// Label of the borderless window that floats above the others.
pub const FLOATING_LABEL: &'static str = "floating";

/// Label of the window that opens beside the tray icon.
pub const POSITION_LABEL: &'static str = "position";

/// What every numbered label starts with.
pub const NUMBERED_PREFIX: &'static str = "window-";

/// The character that writes a single decimal digit.
pub open spec fn digit(d: nat) -> char
    recommends
        d < 10,
{
    if d == 0 {
        '0'
    } else if d == 1 {
        '1'
    } else if d == 2 {
        '2'
    } else if d == 3 {
        '3'
    } else if d == 4 {
        '4'
    } else if d == 5 {
        '5'
    } else if d == 6 {
        '6'
    } else if d == 7 {
        '7'
    } else if d == 8 {
        '8'
    } else {
        '9'
    }
}

/// The decimal numeral of `n`: most significant digit first, no leading zero
/// except for zero itself.
pub open spec fn decimal(n: nat) -> Seq<char>
    decreases n,
{
    if n < 10 {
        seq![digit(n)]
    } else {
        decimal(n / 10).push(digit(n % 10))
    }
}

/// The label given to a window that is opened while `count` windows are open.
pub open spec fn numbered_label(count: nat) -> Seq<char> {
    NUMBERED_PREFIX@ + decimal(count)
}

/// The one-character text of a decimal digit.
fn digit_text(d: usize) -> (text: &'static str)
    requires
        d < 10,
    ensures
        text@ == seq![digit(d as nat)],
{
    proof {
        reveal_strlit("0");
        reveal_strlit("1");
        reveal_strlit("2");
        reveal_strlit("3");
        reveal_strlit("4");
        reveal_strlit("5");
        reveal_strlit("6");
        reveal_strlit("7");
        reveal_strlit("8");
        reveal_strlit("9");
    }
    let text = if d == 0 {
        "0"
    } else if d == 1 {
        "1"
    } else if d == 2 {
        "2"
    } else if d == 3 {
        "3"
    } else if d == 4 {
        "4"
    } else if d == 5 {
        "5"
    } else if d == 6 {
        "6"
    } else if d == 7 {
        "7"
    } else if d == 8 {
        "8"
    } else {
        "9"
    };
    assert(text@ =~= seq![digit(d as nat)]);
    text
}

/// Writes the decimal numeral of `n` at the end of `text`.
fn append_decimal(text: &mut String, n: usize)
    ensures
        final(text)@ == old(text)@ + decimal(n as nat),
    decreases n,
{
    if n >= 10 {
        append_decimal(text, n / 10);
    }
    text.append(digit_text(n % 10));
    assert(final(text)@ =~= old(text)@ + decimal(n as nat));
}

/// Writes the label for a window opened while `count` windows are open:
/// the word `window-` and then the count in decimal.
pub fn window_label(count: usize) -> (label: String)
    ensures
        label@ == numbered_label(count as nat),
{
    let mut label = String::from_str(NUMBERED_PREFIX);
    append_decimal(&mut label, count);
    label
}

/// Every numeral has at least one digit.
pub proof fn lemma_decimal_nonempty(n: nat)
    ensures
        decimal(n).len() >= 1,
    decreases n,
{
    if n >= 10 {
        lemma_decimal_nonempty(n / 10);
    }
}

/// Two numbers with the same numeral are the same number.
pub proof fn lemma_decimal_injective(a: nat, b: nat)
    requires
        decimal(a) == decimal(b),
    ensures
        a == b,
    decreases a,
{
    if a < 10 && b < 10 {
        assert(decimal(a)[0] == digit(a));
        assert(decimal(b)[0] == digit(b));
    } else if a < 10 {
        lemma_decimal_nonempty(b / 10);
        assert(decimal(b).len() >= 2);
    } else if b < 10 {
        lemma_decimal_nonempty(a / 10);
        assert(decimal(a).len() >= 2);
    } else {
        let high_a = decimal(a / 10);
        let high_b = decimal(b / 10);
        assert(high_a =~= decimal(a).drop_last());
        assert(high_b =~= decimal(b).drop_last());
        assert(decimal(a).last() == digit(a % 10));
        assert(decimal(b).last() == digit(b % 10));
        lemma_decimal_injective(a / 10, b / 10);
        assert(a % 10 == b % 10);
    }
}

/// Windows opened at different counts get different labels.
pub proof fn lemma_numbered_labels_distinct(a: nat, b: nat)
    requires
        a != b,
    ensures
        numbered_label(a) != numbered_label(b),
{
    if numbered_label(a) == numbered_label(b) {
        let skip = NUMBERED_PREFIX@.len() as int;
        assert(decimal(a) =~= numbered_label(a).subrange(skip, numbered_label(a).len() as int));
        assert(decimal(b) =~= numbered_label(b).subrange(skip, numbered_label(b).len() as int));
        lemma_decimal_injective(a, b);
    }
}

/// No numbered label is one of the four fixed labels.
pub proof fn lemma_numbered_label_not_fixed(count: nat)
    ensures
        numbered_label(count) != FOCUS_LABEL@,
        numbered_label(count) != EFFECTS_LABEL@,
        numbered_label(count) != FLOATING_LABEL@,
        numbered_label(count) != POSITION_LABEL@,
{
    reveal_strlit("window-");
    reveal_strlit("focus");
    reveal_strlit("effects");
    reveal_strlit("floating");
    reveal_strlit("position");
    assert(numbered_label(count)[0] == 'w');
}

/// The four fixed labels differ from one another.
pub proof fn lemma_fixed_labels_distinct()
    ensures
        FOCUS_LABEL@ != EFFECTS_LABEL@,
        FOCUS_LABEL@ != FLOATING_LABEL@,
        FOCUS_LABEL@ != POSITION_LABEL@,
        EFFECTS_LABEL@ != FLOATING_LABEL@,
        EFFECTS_LABEL@ != POSITION_LABEL@,
        FLOATING_LABEL@ != POSITION_LABEL@,
{
    reveal_strlit("focus");
    reveal_strlit("effects");
    reveal_strlit("floating");
    reveal_strlit("position");
    assert(FOCUS_LABEL@.len() == 5);
    assert(EFFECTS_LABEL@.len() == 7);
    assert(FLOATING_LABEL@.len() == 8);
    assert(POSITION_LABEL@.len() == 8);
    assert(FLOATING_LABEL@[0] == 'f');
    assert(POSITION_LABEL@[0] == 'p');
}

} // verus!
