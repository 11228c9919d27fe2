use vstd::prelude::*;

use crate::bright::{esc, plain, reset_sequence, StyledView};
use crate::codes::{background_codes, foreground_codes, is_named, named_index, Color, Style};
use crate::decimal::{decimal, digit_char, join_codes};

verus! {

/// A named color selects the foreground with one code between 30 and 37: 30 plus
/// its position in the order Black, Red, Green, Yellow, Blue, Magenta, Cyan, White.
pub proof fn lemma_foreground_named(c: Color)
    requires
        is_named(c),
    ensures
        foreground_codes(c).len() == 1,
        30 <= foreground_codes(c)[0] <= 37,
        foreground_codes(c)[0] == 30 + named_index(c),
{
}

/// Foreground codes of named colors strictly increase in the order of the colors.
pub proof fn lemma_foreground_named_increasing(a: Color, b: Color)
    requires
        is_named(a),
        is_named(b),
        named_index(a) < named_index(b),
    ensures
        foreground_codes(a)[0] < foreground_codes(b)[0],
{
    lemma_foreground_named(a);
    lemma_foreground_named(b);
}

/// A named color selects the background with one code between 40 and 47, ten
/// above the code that selects it as the foreground.
pub proof fn lemma_background_named(c: Color)
    requires
        is_named(c),
    ensures
        background_codes(c).len() == 1,
        40 <= background_codes(c)[0] <= 47,
        background_codes(c)[0] == foreground_codes(c)[0] + 10,
{
}

proof fn lemma_decimal_two_digits(n: nat)
    requires
        10 <= n < 100,
    ensures
        decimal(n) == seq![digit_char(n / 10), digit_char(n % 10)],
{
    assert(decimal(n / 10) == seq![digit_char(n / 10)]);
    assert(decimal(n) =~= seq![digit_char(n / 10), digit_char(n % 10)]);
}

proof fn lemma_join_five(a: nat, b: nat, c: nat, d: nat, e: nat)
    ensures
        join_codes(seq![a, b, c, d, e]) == decimal(a) + seq![';'] + decimal(b) + seq![';']
            + decimal(c) + seq![';'] + decimal(d) + seq![';'] + decimal(e),
{
    let s1 = seq![a];
    let s2 = s1.push(b);
    let s3 = s2.push(c);
    let s4 = s3.push(d);
    let s5 = s4.push(e);
    assert(s2.drop_last() =~= s1);
    assert(s3.drop_last() =~= s2);
    assert(s4.drop_last() =~= s3);
    assert(s5.drop_last() =~= s4);
    assert(join_codes(s1) == decimal(a));
    assert(join_codes(s2) == join_codes(s1) + seq![';'] + decimal(b));
    assert(join_codes(s3) == join_codes(s2) + seq![';'] + decimal(c));
    assert(join_codes(s4) == join_codes(s3) + seq![';'] + decimal(d));
    assert(join_codes(s5) == join_codes(s4) + seq![';'] + decimal(e));
    assert(s5 =~= seq![a, b, c, d, e]);
    assert(join_codes(s5) =~= decimal(a) + seq![';'] + decimal(b) + seq![';'] + decimal(c) + seq![
        ';',
    ] + decimal(d) + seq![';'] + decimal(e));
}

/// A true color `(r, g, b)` reads `38;2;r;g;b` as a foreground and `48;2;r;g;b`
/// as a background: only the leading code differs, and the channels are written
/// as they are.
pub proof fn lemma_true_color_parameters(r: u8, g: u8, b: u8)
    ensures
        join_codes(foreground_codes(Color::Rgb(r, g, b))) == seq!['3', '8', ';', '2', ';']
            + decimal(r as nat) + seq![';'] + decimal(g as nat) + seq![';'] + decimal(b as nat),
        join_codes(background_codes(Color::Rgb(r, g, b))) == seq!['4', '8', ';', '2', ';']
            + decimal(r as nat) + seq![';'] + decimal(g as nat) + seq![';'] + decimal(b as nat),
{
    lemma_join_five(38, 2, r as nat, g as nat, b as nat);
    lemma_join_five(48, 2, r as nat, g as nat, b as nat);
    lemma_decimal_two_digits(38);
    lemma_decimal_two_digits(48);
    assert(decimal(2) == seq!['2']);
    assert(join_codes(foreground_codes(Color::Rgb(r, g, b))) =~= seq!['3', '8', ';', '2', ';']
        + decimal(r as nat) + seq![';'] + decimal(g as nat) + seq![';'] + decimal(b as nat));
    assert(join_codes(background_codes(Color::Rgb(r, g, b))) =~= seq!['4', '8', ';', '2', ';']
        + decimal(r as nat) + seq![';'] + decimal(g as nat) + seq![';'] + decimal(b as nat));
}

/// Style, foreground and background are independent slots: setting one of each,
/// in any of the six orders, renders the same.
pub proof fn lemma_slot_order(v: StyledView, s: Style, f: Color, b: Color)
    ensures
        v.with_style(s).with_color(f).with_background(b).rendered() == v.with_style(
            s,
        ).with_background(b).with_color(f).rendered(),
        v.with_style(s).with_color(f).with_background(b).rendered() == v.with_color(
            f,
        ).with_style(s).with_background(b).rendered(),
        v.with_style(s).with_color(f).with_background(b).rendered() == v.with_color(
            f,
        ).with_background(b).with_style(s).rendered(),
        v.with_style(s).with_color(f).with_background(b).rendered() == v.with_background(
            b,
        ).with_style(s).with_color(f).rendered(),
        v.with_style(s).with_color(f).with_background(b).rendered() == v.with_background(
            b,
        ).with_color(f).with_style(s).rendered(),
{
    let w = v.with_style(s).with_color(f).with_background(b);
    assert(w == v.with_style(s).with_background(b).with_color(f));
    assert(w == v.with_color(f).with_style(s).with_background(b));
    assert(w == v.with_color(f).with_background(b).with_style(s));
    assert(w == v.with_background(b).with_style(s).with_color(f));
    assert(w == v.with_background(b).with_color(f).with_style(s));
}

/// Setting a slot twice keeps only the second value: the first leaves no trace.
pub proof fn lemma_last_write_wins(v: StyledView, s1: Style, s2: Style, c1: Color, c2: Color)
    ensures
        v.with_style(s1).with_style(s2) == v.with_style(s2),
        v.with_color(c1).with_color(c2) == v.with_color(c2),
        v.with_background(c1).with_background(c2) == v.with_background(c2),
        v.with_style(s1).with_style(s2).rendered() == v.with_style(s2).rendered(),
        v.with_color(c1).with_color(c2).rendered() == v.with_color(c2).rendered(),
        v.with_background(c1).with_background(c2).rendered() == v.with_background(
            c2,
        ).rendered(),
{
}

/// Text with no attribute renders as ESC `[m`, the text, ESC `[0m`.
pub proof fn lemma_plain_rendering(text: Seq<char>)
    ensures
        plain(text).rendered() == seq![esc(), '[', 'm'] + text + reset_sequence(),
{
    let v = plain(text);
    assert(v.parameters() =~= Seq::<nat>::empty());
    assert(v.rendered() =~= seq![esc(), '[', 'm'] + text + reset_sequence());
}

/// Rendering depends on the text and the three slots alone: two values that
/// hold the same render the same.
pub proof fn lemma_render_depends_on_slots(a: StyledView, b: StyledView)
    requires
        a.text == b.text,
        a.style == b.style,
        a.color == b.color,
        a.background == b.background,
    ensures
        a.rendered() == b.rendered(),
{
    assert(a == b);
}

} // verus!
