use tulisp_ratatui::lisp::{LispError, LispValue};
use tulisp_ratatui::style::{
    apply_style_field, effective_highlight, named_color, parse_color, parse_flat_style,
    parse_hex_color, parse_modifier, parse_styles, Color, Modifier, ModifierFlag, Style, Styles,
};

fn sym(s: &str) -> LispValue {
    LispValue::Symbol(s.to_string())
}

fn text(s: &str) -> LispValue {
    LispValue::Str(s.to_string())
}

fn cons(a: LispValue, d: LispValue) -> LispValue {
    LispValue::Cons(Box::new(a), Box::new(d))
}

fn list(items: Vec<LispValue>) -> LispValue {
    let mut out = LispValue::Nil;
    for item in items.into_iter().rev() {
        out = cons(item, out);
    }
    out
}

fn only(flag: ModifierFlag) -> Modifier {
    Modifier::single(flag)
}

fn is_unknown_color(r: Result<Color, LispError>, name: &str) -> bool {
    matches!(r, Err(LispError::UnknownColor(n)) if n == name)
}

#[test]
fn hex_colors_read_in_either_case() {
    assert_eq!(parse_hex_color("#ff6d7e"), Some(Color::Rgb(0xff, 0x6d, 0x7e)));
    assert_eq!(parse_hex_color("#FF6D7E"), Some(Color::Rgb(0xff, 0x6d, 0x7e)));
    assert_eq!(parse_hex_color("#000000"), Some(Color::Rgb(0, 0, 0)));
    assert_eq!(parse_hex_color("#a0B1c2"), Some(Color::Rgb(0xa0, 0xb1, 0xc2)));
}

#[test]
fn hex_colors_need_six_digits_after_a_hash() {
    assert_eq!(parse_hex_color("ff6d7e"), None);
    assert_eq!(parse_hex_color("#ff6d7"), None);
    assert_eq!(parse_hex_color("#ff6d7e0"), None);
    assert_eq!(parse_hex_color("#ff6g7e"), None);
    assert_eq!(parse_hex_color("#"), None);
    assert_eq!(parse_hex_color(""), None);
    assert_eq!(parse_hex_color("#ff6d7é"), None);
}

#[test]
fn hex_color_round_trip_on_every_byte() {
    for v in 0..=255u8 {
        let s = format!("#{:02x}{:02X}{:02x}", v, v, 255 - v);
        assert_eq!(parse_hex_color(&s), Some(Color::Rgb(v, v, 255 - v)));
    }
}

#[test]
fn color_names() {
    assert_eq!(named_color("black"), Some(Color::Black));
    assert_eq!(named_color("grey"), Some(Color::Gray));
    assert_eq!(named_color("gray"), Some(Color::Gray));
    assert_eq!(named_color("dark-grey"), Some(Color::DarkGray));
    assert_eq!(named_color("light-cyan"), Some(Color::LightCyan));
    assert_eq!(named_color("reset"), Some(Color::Reset));
    assert_eq!(named_color("Red"), None);
    assert_eq!(named_color("purple"), None);
}

#[test]
fn colors_from_symbols_and_strings() {
    assert_eq!(parse_color(&sym("red")).ok(), Some(Color::Red));
    assert_eq!(parse_color(&text("red")).ok(), Some(Color::Red));
    assert_eq!(parse_color(&text("#7cd5f1")).ok(), Some(Color::Rgb(0x7c, 0xd5, 0xf1)));
    assert!(is_unknown_color(parse_color(&sym("purple")), "purple"));
}

#[test]
fn colors_must_be_symbols_or_strings() {
    assert!(matches!(parse_color(&LispValue::Int(3)), Err(LispError::NotAString(LispValue::Int(3)))));
    assert!(matches!(parse_color(&LispValue::Nil), Err(LispError::NotAString(LispValue::Nil))));
    assert!(matches!(parse_color(&LispValue::T), Err(LispError::NotAString(LispValue::T))));
}

#[test]
fn modifier_lists_join() {
    let m = parse_modifier(&list(vec![sym("bold"), text("italic"), sym("slow-blink")])).ok().unwrap();
    let expected = only(ModifierFlag::Bold)
        .union(only(ModifierFlag::Italic))
        .union(only(ModifierFlag::SlowBlink));
    assert_eq!(m, expected);
}

#[test]
fn modifier_synonyms() {
    assert_eq!(parse_modifier(&sym("underline")).ok(), Some(only(ModifierFlag::Underlined)));
    assert_eq!(parse_modifier(&sym("underlined")).ok(), Some(only(ModifierFlag::Underlined)));
    assert_eq!(parse_modifier(&sym("reverse")).ok(), Some(only(ModifierFlag::Reversed)));
    assert_eq!(parse_modifier(&sym("strikethrough")).ok(), Some(only(ModifierFlag::CrossedOut)));
    assert_eq!(parse_modifier(&text("crossed-out")).ok(), Some(only(ModifierFlag::CrossedOut)));
}

#[test]
fn bare_modifier_reads_as_one_element_list() {
    for name in ["bold", "dim", "italic", "hidden", "reversed", "slow-blink", "rapid-blink", "wobbly"] {
        assert_eq!(
            parse_modifier(&sym(name)).ok(),
            parse_modifier(&list(vec![sym(name)])).ok()
        );
    }
}

#[test]
fn blinking_as_bare_names_and_in_lists() {
    assert_eq!(parse_modifier(&list(vec![sym("rapid-blink")])).ok(), Some(only(ModifierFlag::RapidBlink)));
    assert_eq!(parse_modifier(&sym("rapid-blink")).ok(), Some(only(ModifierFlag::RapidBlink)));
    assert_eq!(parse_modifier(&sym("slow-blink")).ok(), Some(only(ModifierFlag::SlowBlink)));
    assert_eq!(parse_modifier(&text("slow-blink")).ok(), Some(only(ModifierFlag::SlowBlink)));
}

#[test]
fn modifier_errors() {
    assert!(matches!(parse_modifier(&list(vec![sym("bold"), sym("wobbly")])), Err(LispError::UnknownModifier(n)) if n == "wobbly"));
    assert!(matches!(parse_modifier(&list(vec![LispValue::Int(1)])), Err(LispError::NotAString(LispValue::Int(1)))));
    assert!(matches!(parse_modifier(&LispValue::T), Err(LispError::NotAString(LispValue::T))));
    assert_eq!(parse_modifier(&LispValue::Nil).ok(), Some(Modifier::empty()));
}

#[test]
fn style_fields() {
    let mut s = Style::default();
    assert!(apply_style_field(&mut s, "fg", &sym("red")).is_ok());
    assert!(apply_style_field(&mut s, "bg", &text("#010203")).is_ok());
    assert!(apply_style_field(&mut s, "modifiers", &list(vec![sym("bold")])).is_ok());
    assert!(apply_style_field(&mut s, "colour", &LispValue::Int(7)).is_ok());
    assert_eq!(s.fg, Some(Color::Red));
    assert_eq!(s.bg, Some(Color::Rgb(1, 2, 3)));
    assert_eq!(s.add_modifier, only(ModifierFlag::Bold));
    assert_eq!(s.sub_modifier, Modifier::empty());
}

#[test]
fn style_field_error_keeps_style() {
    let mut s = Style::default().fg(Color::Blue);
    let before = s;
    assert!(is_unknown_color(
        apply_style_field(&mut s, "fg", &sym("nocolor")).map(|_| Color::Reset),
        "nocolor"
    ));
    assert_eq!(s, before);
}

#[test]
fn flat_style_alists() {
    let alist = list(vec![
        cons(sym("fg"), text("#baa0f8")),
        cons(sym("modifier"), sym("bold")),
    ]);
    let s = parse_flat_style(&alist).ok().unwrap();
    assert_eq!(s, Style::default().fg(Color::Rgb(0xba, 0xa0, 0xf8)).add_modifier(only(ModifierFlag::Bold)));
    assert_eq!(parse_flat_style(&LispValue::Nil).ok(), Some(Style::default()));
}

#[test]
fn flat_style_errors() {
    // An entry that is not a cell.
    assert!(matches!(parse_flat_style(&list(vec![LispValue::Int(4)])), Err(LispError::NotAList(LispValue::Int(4)))));
    // A key that is not a symbol.
    assert!(matches!(parse_flat_style(&list(vec![cons(text("fg"), sym("red"))])), Err(LispError::NotASymbol(LispValue::Str(s))) if s == "fg"));
    // `nil` as an entry: its car, nil, is no symbol.
    assert!(matches!(parse_flat_style(&list(vec![LispValue::Nil])), Err(LispError::NotASymbol(LispValue::Nil))));
}

#[test]
fn styles_route_by_prefix() {
    let alist = list(vec![
        cons(sym("border-fg"), text("#7cd5f1")),
        cons(sym("title-fg"), text("#7cd5f1")),
        cons(sym("title-modifier"), sym("bold")),
        cons(sym("highlight-bg"), text("#3a4449")),
        cons(sym("fg"), sym("white")),
    ]);
    let st = parse_styles(Some(alist)).ok().unwrap();
    let c = Color::Rgb(0x7c, 0xd5, 0xf1);
    assert_eq!(st.border, Style::default().fg(c));
    assert_eq!(st.title, Style::default().fg(c).add_modifier(only(ModifierFlag::Bold)));
    assert_eq!(st.highlight, Style::default().bg(Color::Rgb(0x3a, 0x44, 0x49)));
    assert_eq!(st.text, Style::default().fg(Color::White));
}

#[test]
fn styles_absent_or_nil_are_plain() {
    assert_eq!(parse_styles(None).ok(), Some(Styles::default()));
    assert_eq!(parse_styles(Some(LispValue::Nil)).ok(), Some(Styles::default()));
}

#[test]
fn styles_errors() {
    let bad = list(vec![cons(sym("title-bg"), sym("nocolor"))]);
    assert!(matches!(parse_styles(Some(bad)), Err(LispError::UnknownColor(n)) if n == "nocolor"));
    let bad = list(vec![cons(sym("border-modifier"), sym("blinky"))]);
    assert!(matches!(parse_styles(Some(bad)), Err(LispError::UnknownModifier(n)) if n == "blinky"));
}

#[test]
fn selected_row_falls_back_to_reversed() {
    let st = parse_styles(Some(list(vec![cons(sym("fg"), sym("red"))]))).ok().unwrap();
    assert_eq!(effective_highlight(&st), Style::default().add_modifier(only(ModifierFlag::Reversed)));
    let st = parse_styles(Some(list(vec![cons(sym("highlight-fg"), sym("red"))]))).ok().unwrap();
    assert_eq!(effective_highlight(&st), Style::default().fg(Color::Red));
}

#[test]
fn add_modifier_stops_removing() {
    let mut s = Style::default();
    s.sub_modifier = only(ModifierFlag::Bold).union(only(ModifierFlag::Dim));
    let t = s.add_modifier(only(ModifierFlag::Bold));
    assert_eq!(t.sub_modifier, only(ModifierFlag::Dim));
    assert_eq!(t.add_modifier, only(ModifierFlag::Bold));
}

#[test]
fn modifier_list_order_does_not_matter() {
    let names = ["bold", "dim", "slow-blink", "reverse", "strikethrough"];
    for a in names {
        for b in names {
            assert_eq!(
                parse_modifier(&list(vec![sym(a), sym(b)])).ok(),
                parse_modifier(&list(vec![sym(b), sym(a)])).ok()
            );
        }
    }
}
