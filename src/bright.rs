use vstd::prelude::*;

use crate::codes::{
    background_codes, foreground_codes, get_background_color_value, get_color_value,
    get_style_value, merge_value, style_code, value_codes, Color, Style,
};
use crate::decimal::{
    decimal, join_codes, lemma_join_concat, lemma_join_empty_iff, lemma_join_empty_left, push_separator,
};

verus! {

/// What a piece of styled text holds: its characters and, for each of the three
/// slots, the attribute last chosen, if any.
pub struct StyledView {
    pub text: Seq<char>,
    pub style: Option<Style>,
    pub color: Option<Color>,
    pub background: Option<Color>,
}

/// Text with no attribute chosen.
pub open spec fn plain(text: Seq<char>) -> StyledView {
    StyledView { text, style: None, color: None, background: None }
}

/// The escape character that opens a control sequence.
pub open spec fn esc() -> char {
    '\u{1b}'
}

/// The sequence that clears every attribute: ESC `[0m`.
pub open spec fn reset_sequence() -> Seq<char> {
    seq![esc(), '[', '0', 'm']
}

/// The sequence that selects the given parameters: ESC `[` params `m`.
pub open spec fn select_sequence(params: Seq<char>) -> Seq<char> {
    seq![esc(), '['] + params + seq!['m']
}

impl StyledView {
    /// The same value with the style slot set to `s`.
    pub open spec fn with_style(self, s: Style) -> StyledView {
        StyledView { style: Some(s), ..self }
    }

    /// The same value with the foreground slot set to `c`.
    pub open spec fn with_color(self, c: Color) -> StyledView {
        StyledView { color: Some(c), ..self }
    }

    /// The same value with the background slot set to `c`.
    pub open spec fn with_background(self, c: Color) -> StyledView {
        StyledView { background: Some(c), ..self }
    }

    /// The style's code, if a style is set.
    pub open spec fn style_part(self) -> Seq<nat> {
        match self.style {
            Some(s) => seq![style_code(s)],
            None => Seq::empty(),
        }
    }

    /// The foreground's codes, if a foreground is set.
    pub open spec fn color_part(self) -> Seq<nat> {
        match self.color {
            Some(c) => foreground_codes(c),
            None => Seq::empty(),
        }
    }

    /// The background's codes, if a background is set.
    pub open spec fn background_part(self) -> Seq<nat> {
        match self.background {
            Some(c) => background_codes(c),
            None => Seq::empty(),
        }
    }

    /// Every parameter, in the order style, foreground, background.
    pub open spec fn parameters(self) -> Seq<nat> {
        self.style_part() + self.color_part() + self.background_part()
    }

    /// The selecting sequence, then the text unchanged, then the reset sequence.
    pub open spec fn rendered(self) -> Seq<char> {
        select_sequence(join_codes(self.parameters())) + self.text + reset_sequence()
    }
}

/// Text together with an optional style, foreground color and background color.
#[derive(Debug)]
pub struct Bright {
    text: String,
    color: Option<Color>,
    background: Option<Color>,
    style: Option<Style>,
}

impl View for Bright {
    type V = StyledView;

    closed spec fn view(&self) -> StyledView {
        StyledView {
            text: self.text@,
            style: self.style,
            color: self.color,
            background: self.background,
        }
    }
}

/// Appends `part` to the parameters held in `params`, with a `;` before it where
/// `params` already holds some.
fn push_part(params: &mut String, part: String, Ghost(codes): Ghost<Seq<nat>>, Ghost(
    part_codes,
): Ghost<Seq<nat>>)
    requires
        old(params)@ == join_codes(codes),
        part@ == join_codes(part_codes),
        part_codes.len() > 0,
    ensures
        final(params)@ == join_codes(codes + part_codes),
{
    proof {
        lemma_join_empty_iff(codes);
    }
    if !params.as_str().is_empty() {
        push_separator(params);
        proof {
            lemma_join_concat(codes, part_codes);
        }
    } else {
        proof {
            lemma_join_empty_left(part_codes);
            assert(codes =~= Seq::<nat>::empty());
        }
    }
    params.append(part.as_str());
    proof {
        assert(params@ =~= join_codes(codes + part_codes));
    }
}

impl Bright {
    /// Plain text: the characters of `text` with no attribute.
    pub fn new(text: &str) -> (r: Bright)
        ensures
            r@ == plain(text@),
    {
        Bright { text: text.to_owned(), color: None, background: None, style: None }
    }

    /// The text wrapped in the sequence that selects its attributes and the
    /// sequence that resets them.
    pub fn render(&self) -> (r: String)
        ensures
            r@ == self@.rendered(),
    {
        let mut params = String::new();
        let ghost mut codes: Seq<nat> = Seq::empty();
        assert(params@ =~= join_codes(codes));
        if let Some(style) = &self.style {
            let part = get_style_value(style);
            proof {
                assert(join_codes(seq![style_code(*style)]) == decimal(style_code(*style)));
            }
            let ghost part_codes = seq![style_code(*style)];
            push_part(&mut params, part, Ghost(codes), Ghost(part_codes));
            proof {
                codes = codes + part_codes;
            }
        }
        assert(codes =~= self@.style_part());
        if let Some(color) = &self.color {
            let value = get_color_value(color);
            let part = merge_value(value);
            proof {
                assert(value_codes(value).len() > 0);
            }
            let ghost part_codes = value_codes(value);
            push_part(&mut params, part, Ghost(codes), Ghost(part_codes));
            proof {
                codes = codes + part_codes;
            }
        }
        assert(codes =~= self@.style_part() + self@.color_part());
        if let Some(color) = &self.background {
            let value = get_background_color_value(color);
            let part = merge_value(value);
            proof {
                assert(value_codes(value).len() > 0);
            }
            let ghost part_codes = value_codes(value);
            push_part(&mut params, part, Ghost(codes), Ghost(part_codes));
            proof {
                codes = codes + part_codes;
            }
        }
        assert(codes =~= self@.parameters());
        proof {
            reveal_strlit("\x1B[");
            reveal_strlit("m");
            reveal_strlit("\x1B[0m");
        }
        let mut out = String::new();
        out.append("\x1B[");
        out.append(params.as_str());
        out.append("m");
        out.append(self.text.as_str());
        out.append("\x1B[0m");
        proof {
            assert(out@ =~= self@.rendered());
        }
        out
    }

    /// Sets the style to bold, keeping the text and both colors.
    pub fn bold(self) -> (r: Bright)
        ensures
            r@ == self@.with_style(Style::Bold),
    {
        Bright { style: Some(Style::Bold), ..self }
    }

    /// Sets the style to dim, keeping the text and both colors.
    pub fn dim(self) -> (r: Bright)
        ensures
            r@ == self@.with_style(Style::Dim),
    {
        Bright { style: Some(Style::Dim), ..self }
    }

    /// Sets the style to italic, keeping the text and both colors.
    pub fn italic(self) -> (r: Bright)
        ensures
            r@ == self@.with_style(Style::Italic),
    {
        Bright { style: Some(Style::Italic), ..self }
    }

    /// Sets the style to underline, keeping the text and both colors.
    pub fn underline(self) -> (r: Bright)
        ensures
            r@ == self@.with_style(Style::Underline),
    {
        Bright { style: Some(Style::Underline), ..self }
    }

    /// Sets the style to slow blink, keeping the text and both colors.
    pub fn slow_blink(self) -> (r: Bright)
        ensures
            r@ == self@.with_style(Style::SlowBlink),
    {
        Bright { style: Some(Style::SlowBlink), ..self }
    }

    /// Sets the style to fast blink, keeping the text and both colors.
    pub fn fast_blink(self) -> (r: Bright)
        ensures
            r@ == self@.with_style(Style::FastBlink),
    {
        Bright { style: Some(Style::FastBlink), ..self }
    }

    /// Sets the style to invert, keeping the text and both colors.
    pub fn invert(self) -> (r: Bright)
        ensures
            r@ == self@.with_style(Style::Invert),
    {
        Bright { style: Some(Style::Invert), ..self }
    }

    /// Sets the style to hidden, keeping the text and both colors.
    pub fn hidden(self) -> (r: Bright)
        ensures
            r@ == self@.with_style(Style::Hidden),
    {
        Bright { style: Some(Style::Hidden), ..self }
    }

    /// Sets the style to cross out, keeping the text and both colors.
    pub fn cross_out(self) -> (r: Bright)
        ensures
            r@ == self@.with_style(Style::CrossOut),
    {
        Bright { style: Some(Style::CrossOut), ..self }
    }

    /// Sets the foreground color to black, keeping the text, the style and the background.
    pub fn black(self) -> (r: Bright)
        ensures
            r@ == self@.with_color(Color::Black),
    {
        Bright { color: Some(Color::Black), ..self }
    }

    /// Sets the foreground color to red, keeping the text, the style and the background.
    pub fn red(self) -> (r: Bright)
        ensures
            r@ == self@.with_color(Color::Red),
    {
        Bright { color: Some(Color::Red), ..self }
    }

    /// Sets the foreground color to green, keeping the text, the style and the background.
    pub fn green(self) -> (r: Bright)
        ensures
            r@ == self@.with_color(Color::Green),
    {
        Bright { color: Some(Color::Green), ..self }
    }

    /// Sets the foreground color to yellow, keeping the text, the style and the background.
    pub fn yellow(self) -> (r: Bright)
        ensures
            r@ == self@.with_color(Color::Yellow),
    {
        Bright { color: Some(Color::Yellow), ..self }
    }

    /// Sets the foreground color to blue, keeping the text, the style and the background.
    pub fn blue(self) -> (r: Bright)
        ensures
            r@ == self@.with_color(Color::Blue),
    {
        Bright { color: Some(Color::Blue), ..self }
    }

    /// Sets the foreground color to magenta, keeping the text, the style and the background.
    pub fn magenta(self) -> (r: Bright)
        ensures
            r@ == self@.with_color(Color::Magenta),
    {
        Bright { color: Some(Color::Magenta), ..self }
    }

    /// Sets the foreground color to cyan, keeping the text, the style and the background.
    pub fn cyan(self) -> (r: Bright)
        ensures
            r@ == self@.with_color(Color::Cyan),
    {
        Bright { color: Some(Color::Cyan), ..self }
    }

    /// Sets the foreground color to white, keeping the text, the style and the background.
    pub fn white(self) -> (r: Bright)
        ensures
            r@ == self@.with_color(Color::White),
    {
        Bright { color: Some(Color::White), ..self }
    }

    /// Sets the foreground color to the true color `(r, g, b)`, keeping the text,
    /// the style and the background.
    pub fn rgb(self, r: u8, g: u8, b: u8) -> (res: Bright)
        ensures
            res@ == self@.with_color(Color::Rgb(r, g, b)),
    {
        Bright { color: Some(Color::Rgb(r, g, b)), ..self }
    }

    /// Sets the background color to black, keeping the text, the style and the foreground.
    pub fn bg_black(self) -> (r: Bright)
        ensures
            r@ == self@.with_background(Color::Black),
    {
        Bright { background: Some(Color::Black), ..self }
    }

    /// Sets the background color to red, keeping the text, the style and the foreground.
    pub fn bg_red(self) -> (r: Bright)
        ensures
            r@ == self@.with_background(Color::Red),
    {
        Bright { background: Some(Color::Red), ..self }
    }

    /// Sets the background color to green, keeping the text, the style and the foreground.
    pub fn bg_green(self) -> (r: Bright)
        ensures
            r@ == self@.with_background(Color::Green),
    {
        Bright { background: Some(Color::Green), ..self }
    }

    /// Sets the background color to yellow, keeping the text, the style and the foreground.
    pub fn bg_yellow(self) -> (r: Bright)
        ensures
            r@ == self@.with_background(Color::Yellow),
    {
        Bright { background: Some(Color::Yellow), ..self }
    }

    /// Sets the background color to blue, keeping the text, the style and the foreground.
    pub fn bg_blue(self) -> (r: Bright)
        ensures
            r@ == self@.with_background(Color::Blue),
    {
        Bright { background: Some(Color::Blue), ..self }
    }

    /// Sets the background color to magenta, keeping the text, the style and the foreground.
    pub fn bg_magenta(self) -> (r: Bright)
        ensures
            r@ == self@.with_background(Color::Magenta),
    {
        Bright { background: Some(Color::Magenta), ..self }
    }

    /// Sets the background color to cyan, keeping the text, the style and the foreground.
    pub fn bg_cyan(self) -> (r: Bright)
        ensures
            r@ == self@.with_background(Color::Cyan),
    {
        Bright { background: Some(Color::Cyan), ..self }
    }

    /// Sets the background color to white, keeping the text, the style and the foreground.
    pub fn bg_white(self) -> (r: Bright)
        ensures
            r@ == self@.with_background(Color::White),
    {
        Bright { background: Some(Color::White), ..self }
    }

    /// Sets the background color to the true color `(r, g, b)`, keeping the text,
    /// the style and the foreground.
    pub fn bg_rgb(self, r: u8, g: u8, b: u8) -> (res: Bright)
        ensures
            res@ == self@.with_background(Color::Rgb(r, g, b)),
    {
        Bright { background: Some(Color::Rgb(r, g, b)), ..self }
    }
}

impl Default for Bright {
    /// Empty text with no attribute.
    fn default() -> (r: Bright)
        ensures
            r@ == plain(Seq::empty()),
    {
        Bright { text: String::new(), color: None, background: None, style: None }
    }
}

} // verus!
