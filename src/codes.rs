use vstd::prelude::*;

use crate::decimal::{decimal, join_codes, push_decimal, push_separator};

verus! {

/// A text style attribute of the Select Graphic Rendition family.
#[derive(Debug, Clone, Copy)]
pub enum Style {
    Bold,
    Dim,
    Italic,
    Underline,
    SlowBlink,
    FastBlink,
    Invert,
    Hidden,
    CrossOut,
}

/// The parameter that selects a style.
pub open spec fn style_code(s: Style) -> nat {
    match s {
        Style::Bold => 1,
        Style::Dim => 2,
        Style::Italic => 3,
        Style::Underline => 4,
        Style::SlowBlink => 5,
        Style::FastBlink => 6,
        Style::Invert => 7,
        Style::Hidden => 8,
        Style::CrossOut => 9,
    }
}

/// A color, used either for the text (foreground) or behind it (background).
#[derive(Debug, Clone, Copy)]
pub enum Color {
    Black,
    Red,
    Green,
    Yellow,
    Blue,
    Magenta,
    Cyan,
    White,
    Rgb(u8, u8, u8),
}

/// Whether `c` is one of the eight named colors.
pub open spec fn is_named(c: Color) -> bool {
    !(c is Rgb)
}

/// The position of a named color in the order Black, Red, Green, Yellow,
/// Blue, Magenta, Cyan, White.
pub open spec fn named_index(c: Color) -> nat {
    match c {
        Color::Black => 0,
        Color::Red => 1,
        Color::Green => 2,
        Color::Yellow => 3,
        Color::Blue => 4,
        Color::Magenta => 5,
        Color::Cyan => 6,
        Color::White => 7,
        Color::Rgb(_, _, _) => 0,
    }
}

/// The parameters that select `c` as the foreground color.
pub open spec fn foreground_codes(c: Color) -> Seq<nat> {
    match c {
        Color::Black => seq![30],
        Color::Red => seq![31],
        Color::Green => seq![32],
        Color::Yellow => seq![33],
        Color::Blue => seq![34],
        Color::Magenta => seq![35],
        Color::Cyan => seq![36],
        Color::White => seq![37],
        Color::Rgb(r, g, b) => seq![38, 2, r as nat, g as nat, b as nat],
    }
}

/// The parameters that select `c` as the background color.
pub open spec fn background_codes(c: Color) -> Seq<nat> {
    match c {
        Color::Black => seq![40],
        Color::Red => seq![41],
        Color::Green => seq![42],
        Color::Yellow => seq![43],
        Color::Blue => seq![44],
        Color::Magenta => seq![45],
        Color::Cyan => seq![46],
        Color::White => seq![47],
        Color::Rgb(r, g, b) => seq![48, 2, r as nat, g as nat, b as nat],
    }
}

/// The parameters of one attribute: a single code, or a five-code true-color form.
#[derive(Debug, Clone, Copy)]
pub(crate) enum Value {
    Single(u8),
    Multiple(u8, u8, u8, u8, u8),
}

/// The codes that `v` holds, in order.
pub(crate) open spec fn value_codes(v: Value) -> Seq<nat> {
    match v {
        Value::Single(d) => seq![d as nat],
        Value::Multiple(a, b, c, d, e) => seq![a as nat, b as nat, c as nat, d as nat, e as nat],
    }
}

/// The decimal form of the style's parameter.
pub(crate) fn get_style_value(style: &Style) -> (r: String)
    ensures
        r@ == decimal(style_code(*style)),
{
    let code: u8 = match style {
        Style::Bold => 1,
        Style::Dim => 2,
        Style::Italic => 3,
        Style::Underline => 4,
        Style::SlowBlink => 5,
        Style::FastBlink => 6,
        Style::Invert => 7,
        Style::Hidden => 8,
        Style::CrossOut => 9,
    };
    let mut out = String::new();
    push_decimal(&mut out, code);
    proof {
        assert(out@ =~= decimal(style_code(*style)));
    }
    out
}

/// The parameters that select `color` as the foreground color.
pub(crate) fn get_color_value(color: &Color) -> (r: Value)
    ensures
        value_codes(r) == foreground_codes(*color),
{
    let v = match color {
        Color::Black => Value::Single(30),
        Color::Red => Value::Single(31),
        Color::Green => Value::Single(32),
        Color::Yellow => Value::Single(33),
        Color::Blue => Value::Single(34),
        Color::Magenta => Value::Single(35),
        Color::Cyan => Value::Single(36),
        Color::White => Value::Single(37),
        Color::Rgb(r, g, b) => Value::Multiple(38, 2, *r, *g, *b),
    };
    proof {
        assert(value_codes(v) =~= foreground_codes(*color));
    }
    v
}

/// The parameters that select `color` as the background color.
pub(crate) fn get_background_color_value(color: &Color) -> (r: Value)
    ensures
        value_codes(r) == background_codes(*color),
{
    let v = match color {
        Color::Black => Value::Single(40),
        Color::Red => Value::Single(41),
        Color::Green => Value::Single(42),
        Color::Yellow => Value::Single(43),
        Color::Blue => Value::Single(44),
        Color::Magenta => Value::Single(45),
        Color::Cyan => Value::Single(46),
        Color::White => Value::Single(47),
        Color::Rgb(r, g, b) => Value::Multiple(48, 2, *r, *g, *b),
    };
    proof {
        assert(value_codes(v) =~= background_codes(*color));
    }
    v
}

/// The parameters of `value` in decimal, separated by `;`.
pub(crate) fn merge_value(value: Value) -> (r: String)
    ensures
        r@ == join_codes(value_codes(value)),
{
    let mut out = String::new();
    match value {
        Value::Single(d) => {
            push_decimal(&mut out, d);
            proof {
                assert(out@ =~= decimal(d as nat));
            }
        },
        Value::Multiple(a, b, c, d, e) => {
            let ghost s1 = seq![a as nat];
            let ghost s2 = s1.push(b as nat);
            let ghost s3 = s2.push(c as nat);
            let ghost s4 = s3.push(d as nat);
            let ghost s5 = s4.push(e as nat);
            push_decimal(&mut out, a);
            assert(out@ =~= join_codes(s1));
            push_separator(&mut out);
            push_decimal(&mut out, b);
            assert(s2.drop_last() =~= s1);
            assert(out@ =~= join_codes(s2));
            push_separator(&mut out);
            push_decimal(&mut out, c);
            assert(s3.drop_last() =~= s2);
            assert(out@ =~= join_codes(s3));
            push_separator(&mut out);
            push_decimal(&mut out, d);
            assert(s4.drop_last() =~= s3);
            assert(out@ =~= join_codes(s4));
            push_separator(&mut out);
            push_decimal(&mut out, e);
            assert(s5.drop_last() =~= s4);
            assert(out@ =~= join_codes(s5));
            assert(s5 =~= value_codes(value));
        },
    }
    out
}

} // verus!
