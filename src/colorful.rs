use vstd::prelude::*;

use crate::bright::{plain, Bright};
use crate::codes::{Color, Style};

verus! {

/// Attaches one attribute to a plain text value, giving styled text with that
/// attribute alone.
pub trait Colorful {
    /// The characters of the text value.
    spec fn plain_text(&self) -> Seq<char>;

    fn bold(self) -> (r: Bright)
        ensures
            r@ == plain(self.plain_text()).with_style(Style::Bold),
    ;

    fn dim(self) -> (r: Bright)
        ensures
            r@ == plain(self.plain_text()).with_style(Style::Dim),
    ;

    fn italic(self) -> (r: Bright)
        ensures
            r@ == plain(self.plain_text()).with_style(Style::Italic),
    ;

    fn underline(self) -> (r: Bright)
        ensures
            r@ == plain(self.plain_text()).with_style(Style::Underline),
    ;

    fn slow_blink(self) -> (r: Bright)
        ensures
            r@ == plain(self.plain_text()).with_style(Style::SlowBlink),
    ;

    fn fast_blink(self) -> (r: Bright)
        ensures
            r@ == plain(self.plain_text()).with_style(Style::FastBlink),
    ;

    fn invert(self) -> (r: Bright)
        ensures
            r@ == plain(self.plain_text()).with_style(Style::Invert),
    ;

    fn hidden(self) -> (r: Bright)
        ensures
            r@ == plain(self.plain_text()).with_style(Style::Hidden),
    ;

    fn cross_out(self) -> (r: Bright)
        ensures
            r@ == plain(self.plain_text()).with_style(Style::CrossOut),
    ;

    fn black(self) -> (r: Bright)
        ensures
            r@ == plain(self.plain_text()).with_color(Color::Black),
    ;

    fn red(self) -> (r: Bright)
        ensures
            r@ == plain(self.plain_text()).with_color(Color::Red),
    ;

    fn green(self) -> (r: Bright)
        ensures
            r@ == plain(self.plain_text()).with_color(Color::Green),
    ;

    fn yellow(self) -> (r: Bright)
        ensures
            r@ == plain(self.plain_text()).with_color(Color::Yellow),
    ;

    fn blue(self) -> (r: Bright)
        ensures
            r@ == plain(self.plain_text()).with_color(Color::Blue),
    ;

    fn magenta(self) -> (r: Bright)
        ensures
            r@ == plain(self.plain_text()).with_color(Color::Magenta),
    ;

    fn cyan(self) -> (r: Bright)
        ensures
            r@ == plain(self.plain_text()).with_color(Color::Cyan),
    ;

    fn white(self) -> (r: Bright)
        ensures
            r@ == plain(self.plain_text()).with_color(Color::White),
    ;

    fn rgb(self, r: u8, g: u8, b: u8) -> (res: Bright)
        ensures
            res@ == plain(self.plain_text()).with_color(Color::Rgb(r, g, b)),
    ;

    fn bg_black(self) -> (r: Bright)
        ensures
            r@ == plain(self.plain_text()).with_background(Color::Black),
    ;

    fn bg_red(self) -> (r: Bright)
        ensures
            r@ == plain(self.plain_text()).with_background(Color::Red),
    ;

    fn bg_green(self) -> (r: Bright)
        ensures
            r@ == plain(self.plain_text()).with_background(Color::Green),
    ;

    fn bg_yellow(self) -> (r: Bright)
        ensures
            r@ == plain(self.plain_text()).with_background(Color::Yellow),
    ;

    fn bg_blue(self) -> (r: Bright)
        ensures
            r@ == plain(self.plain_text()).with_background(Color::Blue),
    ;

    fn bg_magenta(self) -> (r: Bright)
        ensures
            r@ == plain(self.plain_text()).with_background(Color::Magenta),
    ;

    fn bg_cyan(self) -> (r: Bright)
        ensures
            r@ == plain(self.plain_text()).with_background(Color::Cyan),
    ;

    fn bg_white(self) -> (r: Bright)
        ensures
            r@ == plain(self.plain_text()).with_background(Color::White),
    ;

    fn bg_rgb(self, r: u8, g: u8, b: u8) -> (res: Bright)
        ensures
            res@ == plain(self.plain_text()).with_background(Color::Rgb(r, g, b)),
    ;
}

impl<'a> Colorful for &'a str {
    open spec fn plain_text(&self) -> Seq<char> {
        (*self)@
    }

    fn bold(self) -> (r: Bright) {
        Bright::new(self).bold()
    }

    fn dim(self) -> (r: Bright) {
        Bright::new(self).dim()
    }

    fn italic(self) -> (r: Bright) {
        Bright::new(self).italic()
    }

    fn underline(self) -> (r: Bright) {
        Bright::new(self).underline()
    }

    fn slow_blink(self) -> (r: Bright) {
        Bright::new(self).slow_blink()
    }

    fn fast_blink(self) -> (r: Bright) {
        Bright::new(self).fast_blink()
    }

    fn invert(self) -> (r: Bright) {
        Bright::new(self).invert()
    }

    fn hidden(self) -> (r: Bright) {
        Bright::new(self).hidden()
    }

    fn cross_out(self) -> (r: Bright) {
        Bright::new(self).cross_out()
    }

    fn black(self) -> (r: Bright) {
        Bright::new(self).black()
    }

    fn red(self) -> (r: Bright) {
        Bright::new(self).red()
    }

    fn green(self) -> (r: Bright) {
        Bright::new(self).green()
    }

    fn yellow(self) -> (r: Bright) {
        Bright::new(self).yellow()
    }

    fn blue(self) -> (r: Bright) {
        Bright::new(self).blue()
    }

    fn magenta(self) -> (r: Bright) {
        Bright::new(self).magenta()
    }

    fn cyan(self) -> (r: Bright) {
        Bright::new(self).cyan()
    }

    fn white(self) -> (r: Bright) {
        Bright::new(self).white()
    }

    fn rgb(self, r: u8, g: u8, b: u8) -> (res: Bright) {
        Bright::new(self).rgb(r, g, b)
    }

    fn bg_black(self) -> (r: Bright) {
        Bright::new(self).bg_black()
    }

    fn bg_red(self) -> (r: Bright) {
        Bright::new(self).bg_red()
    }

    fn bg_green(self) -> (r: Bright) {
        Bright::new(self).bg_green()
    }

    fn bg_yellow(self) -> (r: Bright) {
        Bright::new(self).bg_yellow()
    }

    fn bg_blue(self) -> (r: Bright) {
        Bright::new(self).bg_blue()
    }

    fn bg_magenta(self) -> (r: Bright) {
        Bright::new(self).bg_magenta()
    }

    fn bg_cyan(self) -> (r: Bright) {
        Bright::new(self).bg_cyan()
    }

    fn bg_white(self) -> (r: Bright) {
        Bright::new(self).bg_white()
    }

    fn bg_rgb(self, r: u8, g: u8, b: u8) -> (res: Bright) {
        Bright::new(self).bg_rgb(r, g, b)
    }
}

impl Colorful for String {
    open spec fn plain_text(&self) -> Seq<char> {
        self@
    }

    fn bold(self) -> (r: Bright) {
        Bright::new(self.as_str()).bold()
    }

    fn dim(self) -> (r: Bright) {
        Bright::new(self.as_str()).dim()
    }

    fn italic(self) -> (r: Bright) {
        Bright::new(self.as_str()).italic()
    }

    fn underline(self) -> (r: Bright) {
        Bright::new(self.as_str()).underline()
    }

    fn slow_blink(self) -> (r: Bright) {
        Bright::new(self.as_str()).slow_blink()
    }

    fn fast_blink(self) -> (r: Bright) {
        Bright::new(self.as_str()).fast_blink()
    }

    fn invert(self) -> (r: Bright) {
        Bright::new(self.as_str()).invert()
    }

    fn hidden(self) -> (r: Bright) {
        Bright::new(self.as_str()).hidden()
    }

    fn cross_out(self) -> (r: Bright) {
        Bright::new(self.as_str()).cross_out()
    }

    fn black(self) -> (r: Bright) {
        Bright::new(self.as_str()).black()
    }

    fn red(self) -> (r: Bright) {
        Bright::new(self.as_str()).red()
    }

    fn green(self) -> (r: Bright) {
        Bright::new(self.as_str()).green()
    }

    fn yellow(self) -> (r: Bright) {
        Bright::new(self.as_str()).yellow()
    }

    fn blue(self) -> (r: Bright) {
        Bright::new(self.as_str()).blue()
    }

    fn magenta(self) -> (r: Bright) {
        Bright::new(self.as_str()).magenta()
    }

    fn cyan(self) -> (r: Bright) {
        Bright::new(self.as_str()).cyan()
    }

    fn white(self) -> (r: Bright) {
        Bright::new(self.as_str()).white()
    }

    fn rgb(self, r: u8, g: u8, b: u8) -> (res: Bright) {
        Bright::new(self.as_str()).rgb(r, g, b)
    }

    fn bg_black(self) -> (r: Bright) {
        Bright::new(self.as_str()).bg_black()
    }

    fn bg_red(self) -> (r: Bright) {
        Bright::new(self.as_str()).bg_red()
    }

    fn bg_green(self) -> (r: Bright) {
        Bright::new(self.as_str()).bg_green()
    }

    fn bg_yellow(self) -> (r: Bright) {
        Bright::new(self.as_str()).bg_yellow()
    }

    fn bg_blue(self) -> (r: Bright) {
        Bright::new(self.as_str()).bg_blue()
    }

    fn bg_magenta(self) -> (r: Bright) {
        Bright::new(self.as_str()).bg_magenta()
    }

    fn bg_cyan(self) -> (r: Bright) {
        Bright::new(self.as_str()).bg_cyan()
    }

    fn bg_white(self) -> (r: Bright) {
        Bright::new(self.as_str()).bg_white()
    }

    fn bg_rgb(self, r: u8, g: u8, b: u8) -> (res: Bright) {
        Bright::new(self.as_str()).bg_rgb(r, g, b)
    }
}

} // verus!
