use bright::{Bright, Colorful};

#[test]
fn bold_scenario() {
    assert_eq!("bold".bold().render(), "\x1B[1mbold\x1B[0m");
}

#[test]
fn red_scenario() {
    assert_eq!("red".red().render(), "\x1B[31mred\x1B[0m");
}

#[test]
fn combined_scenario() {
    assert_eq!(
        "combo".bold().red().bg_blue().render(),
        "\x1B[1;31;44mcombo\x1B[0m"
    );
}

#[test]
fn true_color_scenario() {
    assert_eq!(
        "RGB".rgb(40, 44, 52).bg_rgb(3, 169, 244).render(),
        "\x1B[38;2;40;44;52;48;2;3;169;244mRGB\x1B[0m"
    );
}

#[test]
fn plain_text_has_empty_parameters() {
    assert_eq!(Bright::new("plain").render(), "\x1B[mplain\x1B[0m");
    assert_eq!(Bright::new("").render(), "\x1B[m\x1B[0m");
    assert_eq!(Bright::default().render(), "\x1B[m\x1B[0m");
}

#[test]
fn rendering_twice_gives_the_same() {
    let b = "twice".italic().cyan().bg_rgb(0, 255, 100);
    let first = b.render();
    let second = b.render();
    assert_eq!(first, second);
    assert_eq!(first, "\x1B[3;36;48;2;0;255;100mtwice\x1B[0m");
}

#[test]
fn styles_map_to_one_through_nine() {
    let cases = vec![
        (Bright::new("x").bold(), "1"),
        (Bright::new("x").dim(), "2"),
        (Bright::new("x").italic(), "3"),
        (Bright::new("x").underline(), "4"),
        (Bright::new("x").slow_blink(), "5"),
        (Bright::new("x").fast_blink(), "6"),
        (Bright::new("x").invert(), "7"),
        (Bright::new("x").hidden(), "8"),
        (Bright::new("x").cross_out(), "9"),
    ];
    for (b, code) in cases {
        assert_eq!(b.render(), format!("\x1B[{}mx\x1B[0m", code));
    }
}

#[test]
fn named_foregrounds_are_thirty_to_thirty_seven() {
    let cases = vec![
        (Bright::new("x").black(), 30),
        (Bright::new("x").red(), 31),
        (Bright::new("x").green(), 32),
        (Bright::new("x").yellow(), 33),
        (Bright::new("x").blue(), 34),
        (Bright::new("x").magenta(), 35),
        (Bright::new("x").cyan(), 36),
        (Bright::new("x").white(), 37),
    ];
    for (b, code) in cases {
        assert_eq!(b.render(), format!("\x1B[{}mx\x1B[0m", code));
    }
}

#[test]
fn named_backgrounds_are_ten_above_foregrounds() {
    let cases = vec![
        (Bright::new("x").bg_black(), "x".black(), 40),
        (Bright::new("x").bg_red(), "x".red(), 41),
        (Bright::new("x").bg_green(), "x".green(), 42),
        (Bright::new("x").bg_yellow(), "x".yellow(), 43),
        (Bright::new("x").bg_blue(), "x".blue(), 44),
        (Bright::new("x").bg_magenta(), "x".magenta(), 45),
        (Bright::new("x").bg_cyan(), "x".cyan(), 46),
        (Bright::new("x").bg_white(), "x".white(), 47),
    ];
    for (bg, fg, code) in cases {
        assert_eq!(bg.render(), format!("\x1B[{}mx\x1B[0m", code));
        assert_eq!(fg.render(), format!("\x1B[{}mx\x1B[0m", code - 10));
    }
}

#[test]
fn true_color_is_not_shifted_by_ten() {
    assert_eq!(
        "t".rgb(0, 9, 255).render(),
        "\x1B[38;2;0;9;255mt\x1B[0m"
    );
    assert_eq!(
        "t".bg_rgb(0, 9, 255).render(),
        "\x1B[48;2;0;9;255mt\x1B[0m"
    );
    assert_eq!(
        "t".bg_rgb(10, 99, 100).render(),
        "\x1B[48;2;10;99;100mt\x1B[0m"
    );
}

#[test]
fn slot_order_does_not_matter() {
    let expected = "\x1B[4;32;45mo\x1B[0m";
    assert_eq!("o".underline().green().bg_magenta().render(), expected);
    assert_eq!("o".underline().bg_magenta().green().render(), expected);
    assert_eq!("o".green().underline().bg_magenta().render(), expected);
    assert_eq!("o".green().bg_magenta().underline().render(), expected);
    assert_eq!("o".bg_magenta().underline().green().render(), expected);
    assert_eq!("o".bg_magenta().green().underline().render(), expected);
}

#[test]
fn last_write_wins() {
    assert_eq!("w".red().blue().render(), "\x1B[34mw\x1B[0m");
    assert_eq!("w".bold().dim().render(), "\x1B[2mw\x1B[0m");
    assert_eq!("w".bg_red().bg_rgb(1, 2, 3).render(), "\x1B[48;2;1;2;3mw\x1B[0m");
    assert_eq!("w".rgb(1, 2, 3).white().render(), "\x1B[37mw\x1B[0m");
}

#[test]
fn owned_strings_style_the_same() {
    let text = String::from("own");
    assert_eq!(text.clone().bold().render(), "own".bold().render());
    assert_eq!(text.clone().bg_cyan().render(), "\x1B[46mown\x1B[0m");
    assert_eq!(
        text.rgb(255, 255, 255).render(),
        "\x1B[38;2;255;255;255mown\x1B[0m"
    );
}

#[test]
fn text_is_kept_unmodified() {
    let text = "a;b\x1B[0m ü";
    assert_eq!(
        text.hidden().render(),
        format!("\x1B[8m{}\x1B[0m", text)
    );
}
