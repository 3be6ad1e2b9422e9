use cli_example_utils::colors::blue;
use cli_example_utils::colors::bold;
use cli_example_utils::colors::green;
use cli_example_utils::colors::red;
use cli_example_utils::colors::reset;
use cli_example_utils::colors::Color;
use cli_example_utils::colors::ColorString;

#[test]
fn red_wraps_in_code_31() {
    assert_eq!(red("This is a red string!"), "\x1b[31mThis is a red string!\x1b[0m");
}

#[test]
fn green_wraps_in_code_32() {
    assert_eq!(green("This is a green string!"), "\x1b[32mThis is a green string!\x1b[0m");
}

#[test]
fn blue_wraps_in_code_34() {
    assert_eq!(blue("This is a blue string!"), "\x1b[34mThis is a blue string!\x1b[0m");
}

#[test]
fn bold_wraps_in_code_1() {
    assert_eq!(bold("This is a bold string!"), "\x1b[1mThis is a bold string!\x1b[0m");
}

#[test]
fn reset_puts_code_0_on_both_sides() {
    assert_eq!(reset("plain"), "\x1b[0mplain\x1b[0m");
    assert_eq!(reset(""), "\x1b[0m\x1b[0m");
}

#[test]
fn escape_is_the_control_character_1b() {
    let out = red("x");
    let bytes = out.as_bytes();
    assert_eq!(bytes[0], 0x1b);
    assert_eq!(bytes[bytes.len() - 4], 0x1b);
    assert_eq!(out.chars().count(), 10);
}

#[test]
fn styled_text_has_entry_then_text_then_reset() {
    let text = "T with spaces, \u{00e9}\u{4e16} and a tab\t";
    let cases = [
        (red(text), "\x1b[31m"),
        (green(text), "\x1b[32m"),
        (blue(text), "\x1b[34m"),
        (bold(text), "\x1b[1m"),
    ];
    for (out, entry) in cases {
        assert!(out.starts_with(entry));
        assert!(out.ends_with("\x1b[0m"));
        assert_eq!(&out[entry.len()..entry.len() + text.len()], text);
        assert_eq!(out.len(), entry.len() + text.len() + 4);
    }
}

#[test]
fn empty_text_gives_entry_and_reset_alone() {
    assert_eq!(red(""), "\x1b[31m\x1b[0m");
    assert_eq!(green(""), "\x1b[32m\x1b[0m");
    assert_eq!(blue(""), "\x1b[34m\x1b[0m");
    assert_eq!(bold(""), "\x1b[1m\x1b[0m");
}

#[test]
fn styling_twice_nests_and_differs_from_once() {
    let once = red("T");
    let twice = red(&once);
    assert_eq!(twice, "\x1b[31m\x1b[31mT\x1b[0m\x1b[0m");
    assert_ne!(twice, once);
    assert_eq!(green(&green("T")), "\x1b[32m\x1b[32mT\x1b[0m\x1b[0m");
    assert_eq!(blue(&blue("T")), "\x1b[34m\x1b[34mT\x1b[0m\x1b[0m");
    assert_eq!(bold(&bold("T")), "\x1b[1m\x1b[1mT\x1b[0m\x1b[0m");
    assert_eq!(reset(&reset("T")), "\x1b[0m\x1b[0mT\x1b[0m\x1b[0m");
    assert_ne!(reset(&reset("T")), reset("T"));
}

#[test]
fn different_styles_compose_by_nesting() {
    assert_eq!(bold(&red("T")), "\x1b[1m\x1b[31mT\x1b[0m\x1b[0m");
    assert_eq!(red(&bold("T")), "\x1b[31m\x1b[1mT\x1b[0m\x1b[0m");
}

#[test]
fn text_holding_escape_sequences_is_wrapped_unchanged() {
    assert_eq!(blue("a\x1b[0mb"), "\x1b[34ma\x1b[0mb\x1b[0m");
}

#[test]
fn paint_then_reset() {
    let mut color_string = ColorString {
        color: Color::Red,
        string: "Hello, world!".to_string(),
        colorized: String::new(),
    };
    color_string.paint();
    assert_eq!(color_string.colorized, red("Hello, world!"));
    assert_eq!(color_string.colorized, "\x1b[31mHello, world!\x1b[0m");
    assert_eq!(color_string.string, "Hello, world!");
    assert!(matches!(color_string.color, Color::Red));
    color_string.reset();
    assert_eq!(color_string.colorized, "\x1b[0mHello, world!\x1b[0m");
    assert_eq!(color_string.string, "Hello, world!");
    assert!(matches!(color_string.color, Color::Red));
}

#[test]
fn paint_follows_the_stored_color() {
    let mut color_string = ColorString {
        color: Color::Green,
        string: "go".to_string(),
        colorized: "stale".to_string(),
    };
    color_string.paint();
    assert_eq!(color_string.colorized, "\x1b[32mgo\x1b[0m");
    color_string.color = Color::Blue;
    color_string.paint();
    assert_eq!(color_string.colorized, "\x1b[34mgo\x1b[0m");
    color_string.color = Color::Bold;
    color_string.paint();
    assert_eq!(color_string.colorized, "\x1b[1mgo\x1b[0m");
}

#[test]
fn rendering_does_not_follow_the_source_text() {
    let mut color_string = ColorString {
        color: Color::Red,
        string: "before".to_string(),
        colorized: String::new(),
    };
    color_string.paint();
    color_string.string = "after".to_string();
    assert_eq!(color_string.colorized, "\x1b[31mbefore\x1b[0m");
    color_string.paint();
    assert_eq!(color_string.colorized, "\x1b[31mafter\x1b[0m");
}

#[test]
fn reset_ignores_what_was_rendered() {
    let mut painted = ColorString {
        color: Color::Bold,
        string: "same".to_string(),
        colorized: String::new(),
    };
    painted.paint();
    painted.reset();
    let mut fresh = ColorString {
        color: Color::Bold,
        string: "same".to_string(),
        colorized: "anything".to_string(),
    };
    fresh.reset();
    assert_eq!(painted.colorized, fresh.colorized);
    assert_eq!(fresh.colorized, "\x1b[0msame\x1b[0m");
}
