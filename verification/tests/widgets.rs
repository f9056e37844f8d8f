use tulisp_ratatui::content::{parse_list_item, parse_paragraph_text, parse_rows};
use tulisp_ratatui::lisp::{LispError, LispValue};
use tulisp_ratatui::style::{Color, Modifier, ModifierFlag, Style, Styles};
use tulisp_ratatui::widget::{opt_string, rect_from, selected_index, Area, Widget, WidgetKind};

fn sym(s: &str) -> LispValue {
    LispValue::Symbol(s.to_string())
}

fn text(s: &str) -> LispValue {
    LispValue::Str(s.to_string())
}

fn cons(a: LispValue, d: LispValue) -> LispValue {
    LispValue::Cons(Box::new(a), Box::new(d))
}

fn list(items: Vec<LispValue>) -> LispValue {
    let mut out = LispValue::Nil;
    for item in items.into_iter().rev() {
        out = cons(item, out);
    }
    out
}

fn plain(s: &str) -> (String, Style) {
    (s.to_string(), Style::default())
}

#[test]
fn opt_string_drops_empty_text() {
    assert_eq!(opt_string(String::new()), None);
    assert_eq!(opt_string("items".to_string()), Some("items".to_string()));
}

#[test]
fn rect_clamps_negative_coordinates() {
    assert_eq!(rect_from(-5, -1, 10, -3), Area { x: 0, y: 0, width: 10, height: 0 });
    assert_eq!(rect_from(1, 2, 3, 4), Area { x: 1, y: 2, width: 3, height: 4 });
}

#[test]
fn rect_keeps_edges_addressable() {
    // Rect::new cuts the width so that x + width stays within u16.
    assert_eq!(rect_from(65000, 65530, 1000, 5), Area { x: 65000, y: 65530, width: 535, height: 5 });
    assert_eq!(rect_from(65535, 0, 1, 1), Area { x: 65535, y: 0, width: 0, height: 1 });
}

#[test]
fn rect_keeps_low_sixteen_bits() {
    assert_eq!(rect_from(65536 + 7, 0, 65536 * 2 + 3, 1), Area { x: 7, y: 0, width: 3, height: 1 });
}

#[test]
fn selected_row() {
    assert_eq!(selected_index(Some(0)), Some(0));
    assert_eq!(selected_index(Some(3)), Some(3));
    assert_eq!(selected_index(Some(-1)), None);
    assert_eq!(selected_index(None), None);
}

#[test]
fn list_item_from_string() {
    assert_eq!(parse_list_item(&text("plain string row")).ok(), Some(vec![plain("plain string row")]));
}

#[test]
fn list_item_with_styled_spans() {
    let item = list(vec![
        cons(text("first"), list(vec![cons(sym("fg"), text("#baa0f8"))])),
        text(" - "),
        cons(text("styled"), list(vec![cons(sym("modifier"), sym("bold"))])),
    ]);
    let spans = parse_list_item(&item).ok().unwrap();
    assert_eq!(spans.len(), 3);
    assert_eq!(spans[0], ("first".to_string(), Style::default().fg(Color::Rgb(0xba, 0xa0, 0xf8))));
    assert_eq!(spans[1], plain(" - "));
    assert_eq!(
        spans[2],
        ("styled".to_string(), Style::default().add_modifier(Modifier::single(ModifierFlag::Bold)))
    );
}

#[test]
fn list_item_errors() {
    assert!(matches!(parse_list_item(&list(vec![LispValue::Int(1)])), Err(LispError::NotAList(LispValue::Int(1)))));
    assert!(matches!(parse_list_item(&list(vec![cons(sym("x"), LispValue::Nil)])), Err(LispError::NotAString(LispValue::Symbol(s))) if s == "x"));
    assert_eq!(parse_list_item(&LispValue::Int(5)).ok(), Some(vec![]));
}

#[test]
fn paragraph_plain_text_splits_lines() {
    let lines = parse_paragraph_text(&text("one\ntwo\n\nfour")).ok().unwrap();
    assert_eq!(lines, vec![vec![plain("one")], vec![plain("two")], vec![plain("")], vec![plain("four")]]);
    let lines = parse_paragraph_text(&text("end\n")).ok().unwrap();
    assert_eq!(lines, vec![vec![plain("end")], vec![plain("")]]);
}

#[test]
fn paragraph_lines_join_back() {
    let s = "a\n\nbc\n déf\n";
    let lines = parse_paragraph_text(&text(s)).ok().unwrap();
    let joined: Vec<String> = lines.iter().map(|l| l[0].0.clone()).collect();
    assert_eq!(joined.join("\n"), s);
    assert!(lines.iter().all(|l| l.len() == 1 && l[0].1 == Style::default()));
}

#[test]
fn paragraph_empty_text_is_one_empty_line() {
    assert_eq!(parse_paragraph_text(&text("")).ok(), Some(vec![vec![]]));
}

#[test]
fn paragraph_list_of_lines() {
    let para = list(vec![
        text("plain"),
        list(vec![text("a"), cons(text("b"), list(vec![cons(sym("bg"), sym("blue"))]))]),
    ]);
    let lines = parse_paragraph_text(&para).ok().unwrap();
    assert_eq!(lines.len(), 2);
    assert_eq!(lines[0], vec![plain("plain")]);
    assert_eq!(lines[1], vec![plain("a"), ("b".to_string(), Style::default().bg(Color::Blue))]);
}

#[test]
fn rows_of_a_non_list_are_none() {
    assert_eq!(parse_rows(&text("not a list")).ok(), Some(vec![]));
    assert_eq!(parse_rows(&LispValue::Nil).ok(), Some(vec![]));
}

#[test]
fn paragraph_widget() {
    let w = Widget::paragraph(0, 0, 40, 10, "info".to_string(), &text("hi"), None).ok().unwrap();
    assert_eq!(w.area, Area { x: 0, y: 0, width: 40, height: 10 });
    assert_eq!(w.styles, Styles::default());
    match w.kind {
        WidgetKind::Paragraph { title, lines } => {
            assert_eq!(title, Some("info".to_string()));
            assert_eq!(lines, vec![vec![plain("hi")]]);
        }
        _ => panic!("not a paragraph"),
    }
}

#[test]
fn paragraph_widget_text_error_comes_first() {
    let bad_text = list(vec![list(vec![LispValue::Int(2)])]);
    let bad_style = list(vec![cons(sym("fg"), sym("nocolor"))]);
    let r = Widget::paragraph(0, 0, 1, 1, String::new(), &bad_text, Some(bad_style));
    assert!(matches!(r, Err(LispError::NotAList(LispValue::Int(2)))));
}

#[test]
fn list_widget() {
    let items = list(vec![text("one"), text("two")]);
    let style = list(vec![cons(sym("highlight-bg"), sym("red"))]);
    let w = Widget::list(2, 3, 20, 5, String::new(), &items, Some(-4), Some(style)).ok().unwrap();
    assert_eq!(w.area, Area { x: 2, y: 3, width: 20, height: 5 });
    assert_eq!(w.styles.highlight, Style::default().bg(Color::Red));
    match w.kind {
        WidgetKind::List { title, items, selected } => {
            assert_eq!(title, None);
            assert_eq!(items, vec![vec![plain("one")], vec![plain("two")]]);
            assert_eq!(selected, None);
        }
        _ => panic!("not a list"),
    }
}

#[test]
fn list_widget_style_error() {
    let items = list(vec![text("one")]);
    let style = list(vec![cons(sym("title-modifier"), sym("shiny"))]);
    let r = Widget::list(0, 0, 1, 1, String::new(), &items, Some(0), Some(style));
    assert!(matches!(r, Err(LispError::UnknownModifier(n)) if n == "shiny"));
}

#[test]
fn gauge_widget() {
    let bits = 0.25f64.to_bits();
    let w = Widget::gauge(0, 0, 30, 3, "load".to_string(), bits, Some(String::new()), None).ok().unwrap();
    match w.kind {
        WidgetKind::Gauge { title, ratio_bits, label } => {
            assert_eq!(title, Some("load".to_string()));
            assert_eq!(f64::from_bits(ratio_bits), 0.25);
            assert_eq!(label, None);
        }
        _ => panic!("not a gauge"),
    }
    let w = Widget::gauge(0, 0, 30, 3, String::new(), bits, Some("25%".to_string()), None).ok().unwrap();
    assert!(matches!(w.kind, WidgetKind::Gauge { label: Some(l), .. } if l == "25%"));
}
