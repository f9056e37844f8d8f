//! Properties of the readers and of the key names that hold for every
//! input, proved from their specifications.
use vstd::prelude::*;
use crate::content::{
    SpanView, line_step, spec_list_item, spec_rows, spec_span, span_step, split_lines,
};
use crate::event::{
    KeyCode, KeyModifiers, MouseEventKind, char_is_uppercase, is_upper_case_key, spec_key_base,
    spec_key_symbol_name, spec_mouse_symbol_name,
};
use crate::text::{decimal, digit_char};
use crate::lisp::{LispValue, LispError, list_items, try_fold};
use crate::style::{
    Color, Modifier, ModifierFlag, Style, Styles, hex_byte, is_hex_digit, hex_value,
    spec_apply_style_field, spec_apply_styles_entry, spec_entry, spec_effective_highlight,
    spec_hex_color, spec_named_color, spec_named_modifier, spec_parse_color, spec_parse_flat_style, spec_parse_modifier, spec_parse_styles,
    spec_route, styles_step,
};
use crate::widget::spec_rect_from;

verus! {

// ---------------------------------------------------------------------------
// Colours
// ---------------------------------------------------------------------------

/// The lower-case hexadecimal digit for a value below sixteen.
pub open spec fn hex_digit_char(d: int) -> char {
    if d == 0 {
        '0'
    } else if d == 1 {
        '1'
    } else if d == 2 {
        '2'
    } else if d == 3 {
        '3'
    } else if d == 4 {
        '4'
    } else if d == 5 {
        '5'
    } else if d == 6 {
        '6'
    } else if d == 7 {
        '7'
    } else if d == 8 {
        '8'
    } else if d == 9 {
        '9'
    } else if d == 10 {
        'a'
    } else if d == 11 {
        'b'
    } else if d == 12 {
        'c'
    } else if d == 13 {
        'd'
    } else if d == 14 {
        'e'
    } else {
        'f'
    }
}

/// `#rrggbb` for a colour, in lower-case digits.
pub open spec fn hex_text(r: u8, g: u8, b: u8) -> Seq<char> {
    seq![
        '#',
        hex_digit_char(r as int / 16),
        hex_digit_char(r as int % 16),
        hex_digit_char(g as int / 16),
        hex_digit_char(g as int % 16),
        hex_digit_char(b as int / 16),
        hex_digit_char(b as int % 16),
    ]
}

proof fn lemma_hex_digit_char(d: int)
    requires
        0 <= d < 16,
    ensures
        is_hex_digit(hex_digit_char(d)),
        hex_value(hex_digit_char(d)) == d,
{
}

proof fn lemma_hex_byte(v: u8)
    ensures
        hex_byte(hex_digit_char(v as int / 16), hex_digit_char(v as int % 16)) == v,
{
    lemma_hex_digit_char(v as int / 16);
    lemma_hex_digit_char(v as int % 16);
}

/// Every colour can be written as `#rrggbb`, and reading that text gives
/// the colour back.
pub proof fn law_hex_color_round_trip(r: u8, g: u8, b: u8)
    ensures
        spec_hex_color(hex_text(r, g, b)) == Some(Color::Rgb(r, g, b)),
{
    let s = hex_text(r, g, b);
    lemma_hex_byte(r);
    lemma_hex_byte(g);
    lemma_hex_byte(b);
    lemma_hex_digit_char(r as int / 16);
    lemma_hex_digit_char(r as int % 16);
    lemma_hex_digit_char(g as int / 16);
    lemma_hex_digit_char(g as int % 16);
    lemma_hex_digit_char(b as int / 16);
    lemma_hex_digit_char(b as int % 16);
    assert(forall|i: int| 1 <= i < 7 ==> is_hex_digit(#[trigger] s[i]));
}

/// The name of each named colour: the one spelling of each colour that the
/// documentation gives (`gray` and `dark-gray` are also read as `grey`
/// and `dark-grey`). A colour given by red, green and blue has none.
pub open spec fn color_name(c: Color) -> Option<Seq<char>> {
    match c {
        Color::Reset => Some("reset"@),
        Color::Black => Some("black"@),
        Color::Red => Some("red"@),
        Color::Green => Some("green"@),
        Color::Yellow => Some("yellow"@),
        Color::Blue => Some("blue"@),
        Color::Magenta => Some("magenta"@),
        Color::Cyan => Some("cyan"@),
        Color::Gray => Some("gray"@),
        Color::DarkGray => Some("dark-gray"@),
        Color::LightRed => Some("light-red"@),
        Color::LightGreen => Some("light-green"@),
        Color::LightYellow => Some("light-yellow"@),
        Color::LightBlue => Some("light-blue"@),
        Color::LightMagenta => Some("light-magenta"@),
        Color::LightCyan => Some("light-cyan"@),
        Color::White => Some("white"@),
        Color::Rgb(_, _, _) => None,
    }
}

/// Each named colour's name reads as that colour, as a symbol or as a
/// string.
pub proof fn law_color_names_read_as_their_color(c: Color, name: String)
    requires
        color_name(c) == Some(name@),
    ensures
        spec_named_color(name@) == Some(c),
        spec_parse_color(LispValue::Symbol(name)) == Ok::<Color, LispError>(c),
        spec_parse_color(LispValue::Str(name)) == Ok::<Color, LispError>(c),
{
    reveal_strlit("reset");
    reveal_strlit("black");
    reveal_strlit("red");
    reveal_strlit("green");
    reveal_strlit("yellow");
    reveal_strlit("blue");
    reveal_strlit("magenta");
    reveal_strlit("cyan");
    reveal_strlit("gray");
    reveal_strlit("grey");
    reveal_strlit("dark-gray");
    reveal_strlit("dark-grey");
    reveal_strlit("light-red");
    reveal_strlit("light-green");
    reveal_strlit("light-yellow");
    reveal_strlit("light-blue");
    reveal_strlit("light-magenta");
    reveal_strlit("light-cyan");
    reveal_strlit("white");
    match c {
        Color::Black => {
        },
        Color::Red => {
        },
        Color::Green => {
            assert("green"@[0] != "black"@[0]);
        },
        Color::Yellow => {
        },
        Color::Blue => {
        },
        Color::Magenta => {
            assert("magenta"@[0] != '#');
        },
        Color::Cyan => {
            assert("cyan"@[0] != "blue"@[0]);
        },
        Color::Gray => {
            assert("gray"@[0] != "blue"@[0]);
            assert("gray"@[0] != "cyan"@[0]);
        },
        Color::DarkGray => {
        },
        Color::LightRed => {
            assert("light-red"@[0] != "dark-gray"@[0]);
            assert("light-red"@[0] != "dark-grey"@[0]);
        },
        Color::LightGreen => {
        },
        Color::LightYellow => {
        },
        Color::LightBlue => {
        },
        Color::LightMagenta => {
        },
        Color::LightCyan => {
            assert("light-cyan"@[6] != "light-blue"@[6]);
        },
        Color::White => {
            assert("white"@[0] != "black"@[0]);
            assert("white"@[0] != "green"@[0]);
        },
        Color::Reset => {
            assert("reset"@[0] != "black"@[0]);
            assert("reset"@[0] != "green"@[0]);
            assert("reset"@[0] != "white"@[0]);
        },
        Color::Rgb(_, _, _) => {},
    }
}

/// Whether two names spell one colour: they are equal, or both spell gray,
/// or both spell dark gray.
pub open spec fn same_color_spelling(a: Seq<char>, b: Seq<char>) -> bool {
    ||| a == b
    ||| (a == "gray"@ || a == "grey"@) && (b == "gray"@ || b == "grey"@)
    ||| (a == "dark-gray"@ || a == "dark-grey"@) && (b == "dark-gray"@ || b == "dark-grey"@)
}

/// Two colour names that read as one colour are spellings of one name:
/// no two colours share a name, and no name reads as another's colour.
pub proof fn law_color_names_are_distinct(a: Seq<char>, b: Seq<char>)
    ensures
        spec_named_color(a) is Some && spec_named_color(a) == spec_named_color(b)
            ==> same_color_spelling(a, b),
{
}

/// A colour may be named by a symbol or by a string alike.
pub proof fn law_color_symbol_or_string(name: String)
    ensures
        spec_parse_color(LispValue::Symbol(name)) == spec_parse_color(LispValue::Str(name)),
{
}

// ---------------------------------------------------------------------------
// Modifiers
// ---------------------------------------------------------------------------

/// The name of each modifier, as the documentation gives it; `underline`,
/// `reverse` and `strikethrough` are read as other spellings of three of
/// them.
pub open spec fn flag_name(f: ModifierFlag) -> Seq<char> {
    match f {
        ModifierFlag::Bold => "bold"@,
        ModifierFlag::Dim => "dim"@,
        ModifierFlag::Italic => "italic"@,
        ModifierFlag::Underlined => "underlined"@,
        ModifierFlag::SlowBlink => "slow-blink"@,
        ModifierFlag::RapidBlink => "rapid-blink"@,
        ModifierFlag::Reversed => "reversed"@,
        ModifierFlag::Hidden => "hidden"@,
        ModifierFlag::CrossedOut => "crossed-out"@,
    }
}

/// Each modifier's name reads as that modifier alone, bare or in a list.
pub proof fn law_modifier_names_read_as_their_modifier(f: ModifierFlag, name: String)
    requires
        name@ == flag_name(f),
    ensures
        spec_named_modifier(name@) == Some(f),
        spec_parse_modifier(LispValue::Symbol(name)) == Ok::<Modifier, LispError>(Modifier::just(f)),
{
    reveal_strlit("bold");
    reveal_strlit("dim");
    reveal_strlit("italic");
    reveal_strlit("underline");
    reveal_strlit("underlined");
    reveal_strlit("slow-blink");
    reveal_strlit("rapid-blink");
    reveal_strlit("reversed");
    reveal_strlit("reverse");
    reveal_strlit("hidden");
    reveal_strlit("crossed-out");
    reveal_strlit("strikethrough");
    match f {
        ModifierFlag::Bold => {
        },
        ModifierFlag::Dim => {
            assert("dim"@.len() != "bold"@.len());
        },
        ModifierFlag::Italic => {
            assert("italic"@.len() != "bold"@.len());
            assert("italic"@.len() != "dim"@.len());
        },
        ModifierFlag::Underlined => {
            assert("underlined"@.len() != "bold"@.len());
            assert("underlined"@.len() != "dim"@.len());
            assert("underlined"@.len() != "italic"@.len());
            assert("underlined"@.len() != "underline"@.len());
        },
        ModifierFlag::SlowBlink => {
            assert("slow-blink"@.len() != "bold"@.len());
            assert("slow-blink"@.len() != "dim"@.len());
            assert("slow-blink"@.len() != "italic"@.len());
            assert("slow-blink"@.len() != "underline"@.len());
            assert("slow-blink"@[0] != "underlined"@[0]);
        },
        ModifierFlag::RapidBlink => {
            assert("rapid-blink"@.len() != "bold"@.len());
            assert("rapid-blink"@.len() != "dim"@.len());
            assert("rapid-blink"@.len() != "italic"@.len());
            assert("rapid-blink"@.len() != "underline"@.len());
            assert("rapid-blink"@.len() != "underlined"@.len());
            assert("rapid-blink"@.len() != "slow-blink"@.len());
        },
        ModifierFlag::Reversed => {
            assert("reversed"@.len() != "bold"@.len());
            assert("reversed"@.len() != "dim"@.len());
            assert("reversed"@.len() != "italic"@.len());
            assert("reversed"@.len() != "underline"@.len());
            assert("reversed"@.len() != "underlined"@.len());
            assert("reversed"@.len() != "slow-blink"@.len());
            assert("reversed"@.len() != "rapid-blink"@.len());
        },
        ModifierFlag::Hidden => {
            assert("hidden"@.len() != "bold"@.len());
            assert("hidden"@.len() != "dim"@.len());
            assert("hidden"@[0] != "italic"@[0]);
            assert("hidden"@.len() != "underline"@.len());
            assert("hidden"@.len() != "underlined"@.len());
            assert("hidden"@.len() != "slow-blink"@.len());
            assert("hidden"@.len() != "rapid-blink"@.len());
            assert("hidden"@.len() != "reversed"@.len());
            assert("hidden"@.len() != "reverse"@.len());
        },
        ModifierFlag::CrossedOut => {
            assert("crossed-out"@.len() != "bold"@.len());
            assert("crossed-out"@.len() != "dim"@.len());
            assert("crossed-out"@.len() != "italic"@.len());
            assert("crossed-out"@.len() != "underline"@.len());
            assert("crossed-out"@.len() != "underlined"@.len());
            assert("crossed-out"@.len() != "slow-blink"@.len());
            assert("crossed-out"@[0] != "rapid-blink"@[0]);
            assert("crossed-out"@.len() != "reversed"@.len());
            assert("crossed-out"@.len() != "reverse"@.len());
            assert("crossed-out"@.len() != "hidden"@.len());
        },
    }
    assert(list_items(LispValue::Symbol(name)) =~= Seq::<LispValue>::empty());
}

/// Whether two names spell one modifier: they are equal, or spellings of
/// underlined, reversed or crossed out.
pub open spec fn same_modifier_spelling(a: Seq<char>, b: Seq<char>) -> bool {
    ||| a == b
    ||| (a == "underline"@ || a == "underlined"@) && (b == "underline"@ || b == "underlined"@)
    ||| (a == "reversed"@ || a == "reverse"@) && (b == "reversed"@ || b == "reverse"@)
    ||| (a == "crossed-out"@ || a == "strikethrough"@) && (b == "crossed-out"@ || b
        == "strikethrough"@)
}

/// Two modifier names that read as one modifier are spellings of one
/// name: no name reads as another's modifier.
pub proof fn law_modifier_names_are_distinct(a: Seq<char>, b: Seq<char>)
    ensures
        spec_named_modifier(a) is Some && spec_named_modifier(a) == spec_named_modifier(b)
            ==> same_modifier_spelling(a, b),
{
}

/// A modifier given as a bare name reads as the list holding just that
/// name.
pub proof fn law_bare_modifier_is_one_element_list(name: String)
    ensures
        spec_parse_modifier(LispValue::Symbol(name)) == spec_parse_modifier(
            LispValue::Cons(Box::new(LispValue::Symbol(name)), Box::new(LispValue::Nil)),
        ),
{
    let list = LispValue::Cons(Box::new(LispValue::Symbol(name)), Box::new(LispValue::Nil));
    assert(list_items(LispValue::Nil) =~= Seq::<LispValue>::empty());
    assert(list_items(list) =~= seq![LispValue::Symbol(name)]);
    assert(list_items(LispValue::Symbol(name)) =~= Seq::<LispValue>::empty());
    assert(list_items(list).drop_last() =~= Seq::<LispValue>::empty());
    match spec_named_modifier(name@) {
        Some(f) => {
            assert(Modifier::none().spec_union(Modifier::just(f)) == Modifier::just(f));
        },
        None => {},
    }
}

/// In a list of two known modifier names, the order does not matter.
pub proof fn law_modifier_list_order(a: String, b: String)
    requires
        spec_named_modifier(a@) is Some,
        spec_named_modifier(b@) is Some,
    ensures
        spec_parse_modifier(
            LispValue::Cons(
                Box::new(LispValue::Symbol(a)),
                Box::new(LispValue::Cons(Box::new(LispValue::Symbol(b)), Box::new(LispValue::Nil))),
            ),
        ) == spec_parse_modifier(
            LispValue::Cons(
                Box::new(LispValue::Symbol(b)),
                Box::new(LispValue::Cons(Box::new(LispValue::Symbol(a)), Box::new(LispValue::Nil))),
            ),
        ),
{
    let ab = LispValue::Cons(
        Box::new(LispValue::Symbol(a)),
        Box::new(LispValue::Cons(Box::new(LispValue::Symbol(b)), Box::new(LispValue::Nil))),
    );
    let ba = LispValue::Cons(
        Box::new(LispValue::Symbol(b)),
        Box::new(LispValue::Cons(Box::new(LispValue::Symbol(a)), Box::new(LispValue::Nil))),
    );
    assert(list_items(LispValue::Nil) =~= Seq::<LispValue>::empty());
    let tb = LispValue::Cons(Box::new(LispValue::Symbol(b)), Box::new(LispValue::Nil));
    let ta = LispValue::Cons(Box::new(LispValue::Symbol(a)), Box::new(LispValue::Nil));
    assert(list_items(tb) =~= seq![LispValue::Symbol(b)]);
    assert(list_items(ta) =~= seq![LispValue::Symbol(a)]);
    assert(list_items(ab) =~= seq![LispValue::Symbol(a), LispValue::Symbol(b)]);
    assert(list_items(ba) =~= seq![LispValue::Symbol(b), LispValue::Symbol(a)]);
    assert(list_items(ab).drop_last() =~= seq![LispValue::Symbol(a)]);
    assert(list_items(ba).drop_last() =~= seq![LispValue::Symbol(b)]);
    assert(seq![LispValue::Symbol(a)].drop_last() =~= Seq::<LispValue>::empty());
    assert(seq![LispValue::Symbol(b)].drop_last() =~= Seq::<LispValue>::empty());
    let fa = Modifier::just(spec_named_modifier(a@)->Some_0);
    let fb = Modifier::just(spec_named_modifier(b@)->Some_0);
    let step = crate::style::modifier_step();
    let none = Modifier::none();
    let xs = list_items(ab);
    let ys = list_items(ba);
    assert(try_fold(xs.drop_last().drop_last(), none, step) == Ok::<Modifier, LispError>(none));
    assert(try_fold(xs.drop_last(), none, step) == Ok::<Modifier, LispError>(none.spec_union(fa)));
    assert(try_fold(xs, none, step) == Ok::<Modifier, LispError>(
        none.spec_union(fa).spec_union(fb),
    ));
    assert(try_fold(ys.drop_last().drop_last(), none, step) == Ok::<Modifier, LispError>(none));
    assert(try_fold(ys.drop_last(), none, step) == Ok::<Modifier, LispError>(none.spec_union(fb)));
    assert(try_fold(ys, none, step) == Ok::<Modifier, LispError>(
        none.spec_union(fb).spec_union(fa),
    ));
    assert(none.spec_union(fa).spec_union(fb) == none.spec_union(fb).spec_union(fa));
    assert(!none.spec_union(fa).spec_union(fb).spec_is_empty());
}

// ---------------------------------------------------------------------------
// Style alists
// ---------------------------------------------------------------------------

/// A key other than `fg`, `bg`, `modifier` and `modifiers` changes
/// nothing, whatever its value.
pub proof fn law_other_keys_change_nothing(style: Style, key: Seq<char>, value: LispValue)
    requires
        key != "fg"@,
        key != "bg"@,
        key != "modifier"@,
        key != "modifiers"@,
    ensures
        spec_apply_style_field(style, key, value) == Ok::<Style, LispError>(style),
{
}

/// An `fg` entry sets the foreground to the colour it names and leaves
/// the rest of the style as it was; it fails exactly where the colour
/// cannot be read.
pub proof fn law_fg_sets_only_the_foreground(style: Style, value: LispValue)
    ensures
        spec_apply_style_field(style, "fg"@, value) is Ok <==> spec_parse_color(value) is Ok,
        spec_apply_style_field(style, "fg"@, value) matches Ok(t) ==> {
            &&& t.fg == Some(spec_parse_color(value)->Ok_0)
            &&& t.bg == style.bg
            &&& t.add_modifier == style.add_modifier
            &&& t.sub_modifier == style.sub_modifier
        },
{
}

/// A `bg` entry sets the background to the colour it names and leaves
/// the rest of the style as it was; it fails exactly where the colour
/// cannot be read.
pub proof fn law_bg_sets_only_the_background(style: Style, value: LispValue)
    ensures
        spec_apply_style_field(style, "bg"@, value) is Ok <==> spec_parse_color(value) is Ok,
        spec_apply_style_field(style, "bg"@, value) matches Ok(t) ==> {
            &&& t.bg == Some(spec_parse_color(value)->Ok_0)
            &&& t.fg == style.fg
            &&& t.add_modifier == style.add_modifier
            &&& t.sub_modifier == style.sub_modifier
        },
{
    reveal_strlit("fg");
    reveal_strlit("bg");
    assert("bg"@[0] != "fg"@[0]);
}

/// A `modifier` entry keeps both colours, keeps every modifier already
/// added, and adds every modifier it names.
pub proof fn law_modifier_entry_only_adds_modifiers(
    style: Style,
    value: LispValue,
    flag: ModifierFlag,
)
    ensures
        spec_apply_style_field(style, "modifier"@, value) matches Ok(t) ==> {
            &&& t.fg == style.fg
            &&& t.bg == style.bg
            &&& spec_parse_modifier(value) is Ok
            &&& t.add_modifier == style.add_modifier.spec_union(spec_parse_modifier(value)->Ok_0)
        },
{
    reveal_strlit("fg");
    reveal_strlit("bg");
    reveal_strlit("modifier");
    assert("modifier"@.len() != "fg"@.len());
    assert("modifier"@.len() != "bg"@.len());
}

/// An `fg` entry and a `bg` entry that both read give the same style in
/// either order.
pub proof fn law_fg_and_bg_commute(style: Style, fg: LispValue, bg: LispValue)
    ensures
        (spec_parse_color(fg) is Ok && spec_parse_color(bg) is Ok) ==> {
            let a = spec_apply_style_field(style, "fg"@, fg)->Ok_0;
            let b = spec_apply_style_field(style, "bg"@, bg)->Ok_0;
            spec_apply_style_field(a, "bg"@, bg) == spec_apply_style_field(b, "fg"@, fg)
        },
{
    reveal_strlit("fg");
    reveal_strlit("bg");
    assert("bg"@[0] != "fg"@[0]);
}

/// A `title-` key styles the title, and no other part, as the key
/// without its prefix would style it.
pub proof fn law_title_keys_style_the_title(st: Styles, rest: Seq<char>, value: LispValue)
    ensures
        spec_apply_styles_entry(st, "title-"@ + rest, value) == match spec_apply_style_field(
            st.title,
            rest,
            value,
        ) {
            Ok(s) => Ok::<Styles, LispError>(Styles { title: s, ..st }),
            Err(e) => Err(e),
        },
{
    reveal_strlit("title-");
    let key = "title-"@ + rest;
    assert(key.take(6) =~= "title-"@);
    assert(key.skip(6) =~= rest);
}

/// A `border-` key styles the border, and no other part, as the key
/// without its prefix would style it.
pub proof fn law_border_keys_style_the_border(st: Styles, rest: Seq<char>, value: LispValue)
    ensures
        spec_apply_styles_entry(st, "border-"@ + rest, value) == match spec_apply_style_field(
            st.border,
            rest,
            value,
        ) {
            Ok(s) => Ok::<Styles, LispError>(Styles { border: s, ..st }),
            Err(e) => Err(e),
        },
{
    reveal_strlit("title-");
    reveal_strlit("border-");
    let key = "border-"@ + rest;
    assert(key.take(6)[0] == 'b');
    assert(key.take(6) != "title-"@);
    assert(key.take(7) =~= "border-"@);
    assert(key.skip(7) =~= rest);
}

/// A `highlight-` key styles the selected row, and no other part, as the
/// key without its prefix would style it.
pub proof fn law_highlight_keys_style_the_selected_row(
    st: Styles,
    rest: Seq<char>,
    value: LispValue,
)
    ensures
        spec_apply_styles_entry(st, "highlight-"@ + rest, value) == match spec_apply_style_field(
            st.highlight,
            rest,
            value,
        ) {
            Ok(s) => Ok::<Styles, LispError>(Styles { highlight: s, ..st }),
            Err(e) => Err(e),
        },
{
    reveal_strlit("title-");
    reveal_strlit("border-");
    reveal_strlit("highlight-");
    let key = "highlight-"@ + rest;
    assert(key.take(6)[0] == 'h');
    assert(key.take(6) != "title-"@);
    assert(key.take(7)[0] == 'h');
    assert(key.take(7) != "border-"@);
    assert(key.take(10) =~= "highlight-"@);
    assert(key.skip(10) =~= rest);
}

/// Whether an alist entry has a `highlight-` key.
pub open spec fn styles_selected_row(pair: LispValue) -> bool {
    match spec_entry(pair) {
        Ok(kv) => spec_route(kv.0@).0 is Highlight,
        Err(_) => false,
    }
}

proof fn lemma_fold_keeps_highlight(xs: Seq<LispValue>)
    requires
        forall|i: int| 0 <= i < xs.len() ==> !styles_selected_row(#[trigger] xs[i]),
        try_fold(xs, Styles::plain(), styles_step()) is Ok,
    ensures
        try_fold(xs, Styles::plain(), styles_step())->Ok_0.highlight == Style::plain(),
    decreases xs.len(),
{
    if xs.len() > 0 {
        let prev = xs.drop_last();
        match try_fold(prev, Styles::plain(), styles_step()) {
            Ok(st) => {
                assert(forall|i: int| 0 <= i < prev.len() ==> prev[i] == xs[i]);
                lemma_fold_keeps_highlight(prev);
                assert(!styles_selected_row(xs[xs.len() - 1]));
            },
            Err(_) => {},
        }
    }
}

/// Where no entry of a widget's style alist has a `highlight-` key, the
/// selected row of a list is shown in reversed text.
pub proof fn law_selected_row_falls_back_to_reversed(alist: LispValue)
    requires
        spec_parse_styles(Some(alist)) is Ok,
        forall|i: int|
            0 <= i < list_items(alist).len() ==> !styles_selected_row(
                #[trigger] list_items(alist)[i],
            ),
    ensures
        spec_effective_highlight(spec_parse_styles(Some(alist))->Ok_0) == Style::plain().with_modifier(
            Modifier::just(ModifierFlag::Reversed),
        ),
{
    lemma_fold_keeps_highlight(list_items(alist));
}

// ---------------------------------------------------------------------------
// List rows
// ---------------------------------------------------------------------------

/// Whether `span` is what the element `e` of a row reads as: a string is
/// its text, unstyled; a `(TEXT . STYLE-ALIST)` cell is TEXT with the
/// style that STYLE-ALIST alone reads as.
pub open spec fn reads_as_span(e: LispValue, span: SpanView) -> bool {
    match e {
        LispValue::Str(t) => span == (t@, Style::plain()),
        LispValue::Cons(a, d) => match *a {
            LispValue::Str(t) => span.0 == t@ && spec_parse_flat_style(*d) == Ok::<
                Style,
                LispError,
            >(span.1),
            _ => false,
        },
        _ => false,
    }
}

proof fn lemma_row_fold(xs: Seq<LispValue>)
    ensures
        try_fold(xs, Seq::<SpanView>::empty(), span_step()) matches Ok(spans) ==> {
            &&& spans.len() == xs.len()
            &&& forall|i: int| 0 <= i < xs.len() ==> reads_as_span(xs[i], #[trigger] spans[i])
        },
    decreases xs.len(),
{
    if xs.len() > 0 {
        let prev = xs.drop_last();
        lemma_row_fold(prev);
        match try_fold(prev, Seq::<SpanView>::empty(), span_step()) {
            Ok(spans) => {
                let e = xs.last();
                match spec_span(e) {
                    Ok(sp) => {
                        assert(reads_as_span(e, sp));
                        let all = spans.push(sp);
                        assert forall|i: int| 0 <= i < xs.len() implies reads_as_span(
                            xs[i],
                            #[trigger] all[i],
                        ) by {
                            if i < prev.len() {
                                assert(xs[i] == prev[i]);
                                assert(all[i] == spans[i]);
                            }
                        }
                    },
                    Err(_) => {},
                }
            },
            Err(_) => {},
        }
    }
}

/// A list row is read span by span: a string row is one unstyled span;
/// any other row that reads has one span for each of its elements, and
/// each span is what its element reads as on its own.
pub proof fn law_row_reads_span_by_span(v: LispValue)
    ensures
        spec_list_item(v) matches Ok(spans) ==> match v {
            LispValue::Str(t) => spans == seq![(t@, Style::plain())],
            _ => {
                &&& spans.len() == list_items(v).len()
                &&& forall|i: int|
                    0 <= i < spans.len() ==> reads_as_span(list_items(v)[i], #[trigger] spans[i])
            },
        },
{
    lemma_row_fold(list_items(v));
}

// ---------------------------------------------------------------------------
// Paragraph text
// ---------------------------------------------------------------------------

/// Lines put back together, with a newline between each two.
pub open spec fn join_lines(pieces: Seq<Seq<char>>) -> Seq<char>
    decreases pieces.len(),
{
    if pieces.len() <= 1 {
        if pieces.len() == 1 {
            pieces[0]
        } else {
            Seq::empty()
        }
    } else {
        join_lines(pieces.drop_last()) + seq!['\n'] + pieces.last()
    }
}

/// Cutting text into lines loses nothing: the lines joined with newlines
/// are the text, and no line holds a newline.
pub proof fn law_lines_join_back(s: Seq<char>)
    ensures
        join_lines(split_lines(s)) == s,
        forall|i: int|
            0 <= i < split_lines(s).len() ==> !(#[trigger] split_lines(s)[i]).contains('\n'),
    decreases s.len(),
{
    if s.len() > 0 {
        let t = s.drop_last();
        law_lines_join_back(t);
        crate::content::lemma_split_lines_nonempty(t);
        let p = split_lines(t);
        let c = s.last();
        if c == '\n' {
            let q = p.push(Seq::empty());
            assert(q.drop_last() =~= p);
            assert(join_lines(q) =~= s);
            assert forall|i: int| 0 <= i < q.len() implies !(#[trigger] q[i]).contains('\n') by {
                if i < p.len() {
                    assert(q[i] == p[i]);
                } else {
                    assert(q[i] =~= Seq::<char>::empty());
                }
            }
        } else {
            let q = p.update(p.len() - 1, p.last().push(c));
            if p.len() == 1 {
                assert(join_lines(q) =~= s);
            } else {
                assert(q.drop_last() =~= p.drop_last());
                assert(q.last() =~= p.last().push(c));
                assert(join_lines(p) == join_lines(p.drop_last()) + seq!['\n'] + p.last());
                assert(join_lines(q) == join_lines(p.drop_last()) + seq!['\n'] + q.last());
                let a = join_lines(p.drop_last()) + seq!['\n'];
                assert(a + p.last().push(c) =~= (a + p.last()).push(c));
                assert(s =~= t.push(c));
                assert(join_lines(q) =~= s);
            }
            assert forall|i: int| 0 <= i < q.len() implies !(#[trigger] q[i]).contains('\n') by {
                if i < p.len() - 1 {
                    assert(q[i] == p[i]);
                } else {
                    assert(!p[i].contains('\n'));
                    if q[i].contains('\n') {
                        let k = choose|k: int| 0 <= k < q[i].len() && q[i][k] == '\n';
                        if k < p[i].len() {
                            assert(p[i][k] == '\n');
                        }
                    }
                }
            }
        }
    }
}

// ---------------------------------------------------------------------------
// Areas and key names
// ---------------------------------------------------------------------------

/// A widget's area never reaches past the last cell that `u16` can
/// address, on either axis.
pub proof fn law_area_stays_addressable(x: i64, y: i64, w: i64, h: i64)
    ensures
        spec_rect_from(x, y, w, h).x + spec_rect_from(x, y, w, h).width <= u16::MAX,
        spec_rect_from(x, y, w, h).y + spec_rect_from(x, y, w, h).height <= u16::MAX,
{
}

proof fn lemma_decimal_shape(n: nat)
    ensures
        decimal(n).len() >= 1,
        n >= 10 ==> decimal(n).len() >= 2,
        n < 10 ==> decimal(n).len() == 1,
    decreases n,
{
    if n >= 10 {
        lemma_decimal_shape(n / 10);
    }
}

proof fn lemma_digit_char_injective(a: nat, b: nat)
    requires
        a < 10,
        b < 10,
        digit_char(a) == digit_char(b),
    ensures
        a == b,
{
}

/// Different numbers have different numerals.
pub proof fn law_decimal_injective(n: nat, m: nat)
    ensures
        decimal(n) == decimal(m) ==> n == m,
    decreases n,
{
    if decimal(n) == decimal(m) {
        lemma_decimal_shape(n);
        lemma_decimal_shape(m);
        if n < 10 {
            if m >= 10 {
                assert(false);
            }
            assert(decimal(n)[0] == decimal(m)[0]);
            lemma_digit_char_injective(n, m);
        } else {
            if m < 10 {
                assert(false);
            }
            assert(decimal(n).last() == decimal(m).last());
            lemma_digit_char_injective(n % 10, m % 10);
            assert(decimal(n).drop_last() =~= decimal(n / 10));
            assert(decimal(m).drop_last() =~= decimal(m / 10));
            law_decimal_injective(n / 10, m / 10);
        }
    }
}

proof fn lemma_key_base_shape(code: KeyCode)
    ensures
        spec_key_base(code).len() >= 1,
        spec_key_base(code)[0] != 'S',
{
    reveal_strlit("char-");
    reveal_strlit("enter");
    reveal_strlit("escape");
    reveal_strlit("backspace");
    reveal_strlit("tab");
    reveal_strlit("back-tab");
    reveal_strlit("left");
    reveal_strlit("right");
    reveal_strlit("up");
    reveal_strlit("down");
    reveal_strlit("home");
    reveal_strlit("end");
    reveal_strlit("page-up");
    reveal_strlit("page-down");
    reveal_strlit("delete");
    reveal_strlit("insert");
    reveal_strlit("f");
    reveal_strlit("unknown");
    match code {
        KeyCode::F(n) => {
            lemma_decimal_shape(n as nat);
        },
        _ => {},
    }
}

/// Different keys have different names, without modifiers.
#[verifier::spinoff_prover]
pub proof fn law_key_base_names_distinct(a: KeyCode, b: KeyCode)
    ensures
        spec_key_base(a) == spec_key_base(b) ==> a == b,
{
    reveal_strlit("char-");
    reveal_strlit("enter");
    reveal_strlit("escape");
    reveal_strlit("backspace");
    reveal_strlit("tab");
    reveal_strlit("back-tab");
    reveal_strlit("left");
    reveal_strlit("right");
    reveal_strlit("up");
    reveal_strlit("down");
    reveal_strlit("home");
    reveal_strlit("end");
    reveal_strlit("page-up");
    reveal_strlit("page-down");
    reveal_strlit("delete");
    reveal_strlit("insert");
    reveal_strlit("f");
    reveal_strlit("unknown");
    let x = spec_key_base(a);
    let y = spec_key_base(b);
    if x == y {
        match a {
            KeyCode::F(n) => {
                lemma_decimal_shape(n as nat);
            },
            _ => {},
        }
        match b {
            KeyCode::F(n) => {
                lemma_decimal_shape(n as nat);
            },
            _ => {},
        }
        assert(x.len() == y.len());
        assert(x[0] == y[0]);
        match (a, b) {
            (KeyCode::Char(c), KeyCode::Char(d)) => {
                assert(x[5] == y[5]);
            },
            (KeyCode::F(n), KeyCode::F(m)) => {
                assert(x.skip(1) =~= decimal(n as nat));
                assert(y.skip(1) =~= decimal(m as nat));
                law_decimal_injective(n as nat, m as nat);
            },
            _ => {},
        }
    }
}

/// With the same modifier keys held, different keys have different key
/// symbols, so every key can be told from its name.
#[verifier::spinoff_prover]
pub proof fn law_key_names_distinct(a: KeyCode, b: KeyCode, mods: KeyModifiers)
    ensures
        spec_key_symbol_name(a, mods) == spec_key_symbol_name(b, mods) ==> a == b,
{
    reveal_strlit("C-");
    reveal_strlit("M-");
    reveal_strlit("S-");
    let x = spec_key_symbol_name(a, mods);
    let y = spec_key_symbol_name(b, mods);
    if x == y {
        let q = (if mods.control {
            "C-"@
        } else {
            Seq::<char>::empty()
        }) + (if mods.alt {
            "M-"@
        } else {
            Seq::<char>::empty()
        });
        let sa = if mods.shift && !is_upper_case_key(a) {
            "S-"@
        } else {
            Seq::<char>::empty()
        };
        let sb = if mods.shift && !is_upper_case_key(b) {
            "S-"@
        } else {
            Seq::<char>::empty()
        };
        let ba = spec_key_base(a);
        let bb = spec_key_base(b);
        lemma_key_base_shape(a);
        lemma_key_base_shape(b);
        assert(x =~= q + (sa + ba));
        assert(y =~= q + (sb + bb));
        assert((q + (sa + ba)).skip(q.len() as int) =~= sa + ba);
        assert((q + (sb + bb)).skip(q.len() as int) =~= sb + bb);
        assert(sa + ba == sb + bb);
        if sa.len() == sb.len() {
            assert((sa + ba).skip(sa.len() as int) =~= ba);
            assert((sb + bb).skip(sb.len() as int) =~= bb);
            law_key_base_names_distinct(a, b);
        } else if sa.len() == 2 {
            assert((sa + ba)[0] == 'S');
            assert((sb + bb)[0] == bb[0]);
        } else {
            assert((sb + bb)[0] == 'S');
            assert((sa + ba)[0] == ba[0]);
        }
    }
}

/// Different mouse events that have names have different names.
pub proof fn law_mouse_names_distinct(a: MouseEventKind, b: MouseEventKind)
    ensures
        spec_mouse_symbol_name(a) is Some && spec_mouse_symbol_name(a) == spec_mouse_symbol_name(b)
            ==> a == b,
{
    reveal_strlit("mouse-left");
    reveal_strlit("mouse-right");
    reveal_strlit("mouse-middle");
    reveal_strlit("mouse-scroll-up");
    reveal_strlit("mouse-scroll-down");
    reveal_strlit("mouse-scroll-left");
    reveal_strlit("mouse-scroll-right");
    assert("mouse-right"@.len() != "mouse-left"@.len());
    assert("mouse-middle"@.len() != "mouse-left"@.len());
    assert("mouse-middle"@.len() != "mouse-right"@.len());
    assert("mouse-scroll-up"@.len() != "mouse-left"@.len());
    assert("mouse-scroll-up"@.len() != "mouse-right"@.len());
    assert("mouse-scroll-up"@.len() != "mouse-middle"@.len());
    assert("mouse-scroll-down"@.len() != "mouse-left"@.len());
    assert("mouse-scroll-down"@.len() != "mouse-right"@.len());
    assert("mouse-scroll-down"@.len() != "mouse-middle"@.len());
    assert("mouse-scroll-down"@.len() != "mouse-scroll-up"@.len());
    assert("mouse-scroll-left"@.len() != "mouse-left"@.len());
    assert("mouse-scroll-left"@.len() != "mouse-right"@.len());
    assert("mouse-scroll-left"@.len() != "mouse-middle"@.len());
    assert("mouse-scroll-left"@.len() != "mouse-scroll-up"@.len());
    assert("mouse-scroll-left"@[13] != "mouse-scroll-down"@[13]);
    assert("mouse-scroll-right"@.len() != "mouse-left"@.len());
    assert("mouse-scroll-right"@.len() != "mouse-right"@.len());
    assert("mouse-scroll-right"@.len() != "mouse-middle"@.len());
    assert("mouse-scroll-right"@.len() != "mouse-scroll-up"@.len());
    assert("mouse-scroll-right"@.len() != "mouse-scroll-down"@.len());
    assert("mouse-scroll-right"@.len() != "mouse-scroll-left"@.len());
}

proof fn lemma_rows_fold(xs: Seq<LispValue>)
    ensures
        try_fold(xs, Seq::<Seq<SpanView>>::empty(), line_step()) matches Ok(rows) ==> {
            &&& rows.len() == xs.len()
            &&& forall|i: int|
                0 <= i < xs.len() ==> spec_list_item(xs[i]) == Ok::<Seq<SpanView>, LispError>(
                    #[trigger] rows[i],
                )
        },
    decreases xs.len(),
{
    if xs.len() > 0 {
        let prev = xs.drop_last();
        lemma_rows_fold(prev);
        match try_fold(prev, Seq::<Seq<SpanView>>::empty(), line_step()) {
            Ok(rows) => {
                match spec_list_item(xs.last()) {
                    Ok(row) => {
                        let all = rows.push(row);
                        assert forall|i: int| 0 <= i < xs.len() implies spec_list_item(xs[i])
                            == Ok::<Seq<SpanView>, LispError>(#[trigger] all[i]) by {
                            if i < prev.len() {
                                assert(xs[i] == prev[i]);
                                assert(all[i] == rows[i]);
                            }
                        }
                    },
                    Err(_) => {},
                }
            },
            Err(_) => {},
        }
    }
}

/// A list of rows is read row by row: one row for each element, each
/// what that element reads as on its own.
pub proof fn law_rows_read_one_by_one(v: LispValue)
    ensures
        spec_rows(v) matches Ok(rows) ==> {
            &&& rows.len() == list_items(v).len()
            &&& forall|i: int|
                0 <= i < rows.len() ==> spec_list_item(list_items(v)[i]) == Ok::<
                    Seq<SpanView>,
                    LispError,
                >(#[trigger] rows[i])
        },
{
    lemma_rows_fold(list_items(v));
}

/// The shift key does not show in the name of an upper-case letter.
pub proof fn law_upper_case_letters_hide_shift(c: char, mods: KeyModifiers)
    ensures
        char_is_uppercase(c) ==> spec_key_symbol_name(KeyCode::Char(c), mods)
            == spec_key_symbol_name(KeyCode::Char(c), KeyModifiers { shift: false, ..mods }),
{
}

} // verus!
