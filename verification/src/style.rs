//! Colours, text modifiers and styles, and the readers that build them
//! from Lisp values: colour names and `#rrggbb` strings, modifier names,
//! and the `(key . value)` style alists.
use vstd::prelude::*;
use crate::lisp::{
    LispError, LispValue, list_items, spec_as_symbol, spec_car, spec_cdr, spec_name_of, try_fold,
    lemma_try_fold_next, lemma_try_fold_stops, lemma_try_fold_all,
};
use crate::text::{same_text, strip_prefix, spec_strip_prefix};

verus! {

/// A terminal colour: one of the named colours, or red, green and blue.
#[derive(Clone, Copy, Debug, PartialEq, Eq, Structural)]
pub enum Color {
    Reset,
    Black,
    Red,
    Green,
    Yellow,
    Blue,
    Magenta,
    Cyan,
    Gray,
    DarkGray,
    LightRed,
    LightGreen,
    LightYellow,
    LightBlue,
    LightMagenta,
    LightCyan,
    White,
    Rgb(u8, u8, u8),
}

/// A set of text modifiers, one flag each.
#[derive(Clone, Copy, Debug, PartialEq, Eq, Structural)]
pub struct Modifier {
    pub bold: bool,
    pub dim: bool,
    pub italic: bool,
    pub underlined: bool,
    pub slow_blink: bool,
    pub rapid_blink: bool,
    pub reversed: bool,
    pub hidden: bool,
    pub crossed_out: bool,
}

/// The modifier names the readers know.
#[derive(Clone, Copy, Debug, PartialEq, Eq, Structural)]
pub enum ModifierFlag {
    Bold,
    Dim,
    Italic,
    Underlined,
    SlowBlink,
    RapidBlink,
    Reversed,
    Hidden,
    CrossedOut,
}

/// The style of a piece of text: colours that it sets, and modifiers
/// that it adds and removes.
#[derive(Clone, Copy, Debug, PartialEq, Eq, Structural)]
pub struct Style {
    pub fg: Option<Color>,
    pub bg: Option<Color>,
    pub add_modifier: Modifier,
    pub sub_modifier: Modifier,
}

/// The four styles of a widget: its body text, its title, its border,
/// and the selected row of a list.
#[derive(Clone, Copy, Debug, PartialEq, Eq, Structural)]
pub struct Styles {
    pub text: Style,
    pub title: Style,
    pub border: Style,
    pub highlight: Style,
}

// ---------------------------------------------------------------------------
// Modifiers and styles
// ---------------------------------------------------------------------------

impl Modifier {
    pub open spec fn none() -> Modifier {
        Modifier {
            bold: false,
            dim: false,
            italic: false,
            underlined: false,
            slow_blink: false,
            rapid_blink: false,
            reversed: false,
            hidden: false,
            crossed_out: false,
        }
    }

    /// The set that holds just `flag`.
    pub open spec fn just(flag: ModifierFlag) -> Modifier {
        Modifier {
            bold: flag is Bold,
            dim: flag is Dim,
            italic: flag is Italic,
            underlined: flag is Underlined,
            slow_blink: flag is SlowBlink,
            rapid_blink: flag is RapidBlink,
            reversed: flag is Reversed,
            hidden: flag is Hidden,
            crossed_out: flag is CrossedOut,
        }
    }

    pub open spec fn spec_union(self, o: Modifier) -> Modifier {
        Modifier {
            bold: self.bold || o.bold,
            dim: self.dim || o.dim,
            italic: self.italic || o.italic,
            underlined: self.underlined || o.underlined,
            slow_blink: self.slow_blink || o.slow_blink,
            rapid_blink: self.rapid_blink || o.rapid_blink,
            reversed: self.reversed || o.reversed,
            hidden: self.hidden || o.hidden,
            crossed_out: self.crossed_out || o.crossed_out,
        }
    }

    pub open spec fn spec_difference(self, o: Modifier) -> Modifier {
        Modifier {
            bold: self.bold && !o.bold,
            dim: self.dim && !o.dim,
            italic: self.italic && !o.italic,
            underlined: self.underlined && !o.underlined,
            slow_blink: self.slow_blink && !o.slow_blink,
            rapid_blink: self.rapid_blink && !o.rapid_blink,
            reversed: self.reversed && !o.reversed,
            hidden: self.hidden && !o.hidden,
            crossed_out: self.crossed_out && !o.crossed_out,
        }
    }

    pub open spec fn spec_is_empty(self) -> bool {
        self == Modifier::none()
    }

    /// The empty set.
    pub fn empty() -> (r: Modifier)
        ensures
            r == Modifier::none(),
    {
        Modifier {
            bold: false,
            dim: false,
            italic: false,
            underlined: false,
            slow_blink: false,
            rapid_blink: false,
            reversed: false,
            hidden: false,
            crossed_out: false,
        }
    }

    /// The set that holds just `flag`.
    pub fn single(flag: ModifierFlag) -> (r: Modifier)
        ensures
            r == Modifier::just(flag),
    {
        Modifier {
            bold: matches!(flag, ModifierFlag::Bold),
            dim: matches!(flag, ModifierFlag::Dim),
            italic: matches!(flag, ModifierFlag::Italic),
            underlined: matches!(flag, ModifierFlag::Underlined),
            slow_blink: matches!(flag, ModifierFlag::SlowBlink),
            rapid_blink: matches!(flag, ModifierFlag::RapidBlink),
            reversed: matches!(flag, ModifierFlag::Reversed),
            hidden: matches!(flag, ModifierFlag::Hidden),
            crossed_out: matches!(flag, ModifierFlag::CrossedOut),
        }
    }

    /// The flags in either set.
    pub fn union(self, o: Modifier) -> (r: Modifier)
        ensures
            r == self.spec_union(o),
    {
        Modifier {
            bold: self.bold || o.bold,
            dim: self.dim || o.dim,
            italic: self.italic || o.italic,
            underlined: self.underlined || o.underlined,
            slow_blink: self.slow_blink || o.slow_blink,
            rapid_blink: self.rapid_blink || o.rapid_blink,
            reversed: self.reversed || o.reversed,
            hidden: self.hidden || o.hidden,
            crossed_out: self.crossed_out || o.crossed_out,
        }
    }

    /// The flags of `self` that are not in `o`.
    pub fn difference(self, o: Modifier) -> (r: Modifier)
        ensures
            r == self.spec_difference(o),
    {
        Modifier {
            bold: self.bold && !o.bold,
            dim: self.dim && !o.dim,
            italic: self.italic && !o.italic,
            underlined: self.underlined && !o.underlined,
            slow_blink: self.slow_blink && !o.slow_blink,
            rapid_blink: self.rapid_blink && !o.rapid_blink,
            reversed: self.reversed && !o.reversed,
            hidden: self.hidden && !o.hidden,
            crossed_out: self.crossed_out && !o.crossed_out,
        }
    }

    /// Whether no flag is set.
    pub fn is_empty(&self) -> (r: bool)
        ensures
            r == self.spec_is_empty(),
    {
        !(self.bold || self.dim || self.italic || self.underlined || self.slow_blink
            || self.rapid_blink || self.reversed || self.hidden || self.crossed_out)
    }
}

impl Style {
    /// The style that changes nothing.
    pub open spec fn plain() -> Style {
        Style {
            fg: None,
            bg: None,
            add_modifier: Modifier::none(),
            sub_modifier: Modifier::none(),
        }
    }

    pub open spec fn with_fg(self, c: Color) -> Style {
        Style { fg: Some(c), ..self }
    }

    pub open spec fn with_bg(self, c: Color) -> Style {
        Style { bg: Some(c), ..self }
    }

    /// Adds the modifiers `m`, and stops removing them.
    pub open spec fn with_modifier(self, m: Modifier) -> Style {
        Style {
            sub_modifier: self.sub_modifier.spec_difference(m),
            add_modifier: self.add_modifier.spec_union(m),
            ..self
        }
    }

    /// This style with foreground colour `c`.
    pub fn fg(self, c: Color) -> (r: Style)
        ensures
            r == self.with_fg(c),
    {
        Style { fg: Some(c), ..self }
    }

    /// This style with background colour `c`.
    pub fn bg(self, c: Color) -> (r: Style)
        ensures
            r == self.with_bg(c),
    {
        Style { bg: Some(c), ..self }
    }

    /// This style with the modifiers `m` added.
    pub fn add_modifier(self, m: Modifier) -> (r: Style)
        ensures
            r == self.with_modifier(m),
    {
        let sub = self.sub_modifier.difference(m);
        let add = self.add_modifier.union(m);
        Style { sub_modifier: sub, add_modifier: add, ..self }
    }

    /// Whether this is the style that changes nothing.
    pub fn is_plain(&self) -> (r: bool)
        ensures
            r == (*self == Style::plain()),
    {
        self.fg.is_none() && self.bg.is_none() && self.add_modifier.is_empty()
            && self.sub_modifier.is_empty()
    }
}

impl Default for Style {
    fn default() -> (r: Style)
        ensures
            r == Style::plain(),
    {
        Style { fg: None, bg: None, add_modifier: Modifier::empty(), sub_modifier: Modifier::empty() }
    }
}

impl Styles {
    /// Four plain styles.
    pub open spec fn plain() -> Styles {
        Styles {
            text: Style::plain(),
            title: Style::plain(),
            border: Style::plain(),
            highlight: Style::plain(),
        }
    }
}

impl Default for Styles {
    fn default() -> (r: Styles)
        ensures
            r == Styles::plain(),
    {
        Styles {
            text: Style::default(),
            title: Style::default(),
            border: Style::default(),
            highlight: Style::default(),
        }
    }
}

/// The style of a list's selected row: the highlight style, or, where
/// none was given, the plain style with the text reversed.
pub open spec fn spec_effective_highlight(styles: Styles) -> Style {
    if styles.highlight == Style::plain() {
        Style::plain().with_modifier(Modifier::just(ModifierFlag::Reversed))
    } else {
        styles.highlight
    }
}

/// The style of a list's selected row; see `spec_effective_highlight`.
pub fn effective_highlight(styles: &Styles) -> (r: Style)
    ensures
        r == spec_effective_highlight(*styles),
{
    if styles.highlight.is_plain() {
        Style::default().add_modifier(Modifier::single(ModifierFlag::Reversed))
    } else {
        styles.highlight
    }
}


// ---------------------------------------------------------------------------
// Colours
// ---------------------------------------------------------------------------

/// A hexadecimal digit, in either case.
pub open spec fn is_hex_digit(c: char) -> bool {
    ('0' <= c && c <= '9') || ('a' <= c && c <= 'f') || ('A' <= c && c <= 'F')
}

/// The value of a hexadecimal digit.
pub open spec fn hex_value(c: char) -> int {
    if '0' <= c && c <= '9' {
        c as int - '0' as int
    } else if 'a' <= c && c <= 'f' {
        c as int - 'a' as int + 10
    } else {
        c as int - 'A' as int + 10
    }
}

/// The byte that two hexadecimal digits spell, high digit first.
pub open spec fn hex_byte(hi: char, lo: char) -> u8 {
    (16 * hex_value(hi) + hex_value(lo)) as u8
}

/// `#rrggbb`: a `#` and six hexadecimal digits, in either case.
pub open spec fn spec_hex_color(s: Seq<char>) -> Option<Color> {
    if s.len() == 7 && s[0] == '#' && (forall|i: int| 1 <= i < 7 ==> is_hex_digit(#[trigger] s[i])) {
        Some(Color::Rgb(hex_byte(s[1], s[2]), hex_byte(s[3], s[4]), hex_byte(s[5], s[6])))
    } else {
        None
    }
}

fn hex_digit_value(c: char) -> (r: Option<u8>)
    ensures
        match r {
            Some(v) => is_hex_digit(c) && v as int == hex_value(c),
            None => !is_hex_digit(c),
        },
{
    if '0' <= c && c <= '9' {
        Some(((c as u32) - ('0' as u32)) as u8)
    } else if 'a' <= c && c <= 'f' {
        Some(((c as u32) - ('a' as u32) + 10) as u8)
    } else if 'A' <= c && c <= 'F' {
        Some(((c as u32) - ('A' as u32) + 10) as u8)
    } else {
        None
    }
}

/// Reads `#rrggbb` as a colour; see `spec_hex_color`.
pub fn parse_hex_color(s: &str) -> (r: Option<Color>)
    ensures
        r == spec_hex_color(s@),
{
    if s.unicode_len() != 7 || s.get_char(0) != '#' {
        return None;
    }
    let mut vals: [u8; 6] = [0, 0, 0, 0, 0, 0];
    let mut i: usize = 1;
    while i < 7
        invariant
            s@.len() == 7,
            1 <= i <= 7,
            forall|j: int| 1 <= j < i ==> is_hex_digit(#[trigger] s@[j]),
            forall|j: int| 1 <= j < i ==> vals@[j - 1] as int == hex_value(#[trigger] s@[j]),
        decreases 7 - i,
    {
        match hex_digit_value(s.get_char(i)) {
            Some(v) => {
                vals[i - 1] = v;
            },
            None => {
                return None;
            },
        }
        i = i + 1;
    }
    let r = ((vals[0] as u16) * 16 + vals[1] as u16) as u8;
    let g = ((vals[2] as u16) * 16 + vals[3] as u16) as u8;
    let b = ((vals[4] as u16) * 16 + vals[5] as u16) as u8;
    proof {
        assert(vals@[0] as int == hex_value(s@[1]));
        assert(vals@[1] as int == hex_value(s@[2]));
        assert(vals@[2] as int == hex_value(s@[3]));
        assert(vals@[3] as int == hex_value(s@[4]));
        assert(vals@[4] as int == hex_value(s@[5]));
        assert(vals@[5] as int == hex_value(s@[6]));
    }
    Some(Color::Rgb(r, g, b))
}

/// The named colours. `gray` and `dark-gray` may also be spelled with
/// `grey`.
pub open spec fn spec_named_color(name: Seq<char>) -> Option<Color> {
    if name == "black"@ {
        Some(Color::Black)
    } else if name == "red"@ {
        Some(Color::Red)
    } else if name == "green"@ {
        Some(Color::Green)
    } else if name == "yellow"@ {
        Some(Color::Yellow)
    } else if name == "blue"@ {
        Some(Color::Blue)
    } else if name == "magenta"@ {
        Some(Color::Magenta)
    } else if name == "cyan"@ {
        Some(Color::Cyan)
    } else if name == "gray"@ || name == "grey"@ {
        Some(Color::Gray)
    } else if name == "dark-gray"@ || name == "dark-grey"@ {
        Some(Color::DarkGray)
    } else if name == "light-red"@ {
        Some(Color::LightRed)
    } else if name == "light-green"@ {
        Some(Color::LightGreen)
    } else if name == "light-yellow"@ {
        Some(Color::LightYellow)
    } else if name == "light-blue"@ {
        Some(Color::LightBlue)
    } else if name == "light-magenta"@ {
        Some(Color::LightMagenta)
    } else if name == "light-cyan"@ {
        Some(Color::LightCyan)
    } else if name == "white"@ {
        Some(Color::White)
    } else if name == "reset"@ {
        Some(Color::Reset)
    } else {
        None
    }
}

/// The colour with the name `name`; see `spec_named_color`.
pub fn named_color(name: &str) -> (r: Option<Color>)
    ensures
        r == spec_named_color(name@),
{
    if same_text(name, "black") {
        Some(Color::Black)
    } else if same_text(name, "red") {
        Some(Color::Red)
    } else if same_text(name, "green") {
        Some(Color::Green)
    } else if same_text(name, "yellow") {
        Some(Color::Yellow)
    } else if same_text(name, "blue") {
        Some(Color::Blue)
    } else if same_text(name, "magenta") {
        Some(Color::Magenta)
    } else if same_text(name, "cyan") {
        Some(Color::Cyan)
    } else if same_text(name, "gray") || same_text(name, "grey") {
        Some(Color::Gray)
    } else if same_text(name, "dark-gray") || same_text(name, "dark-grey") {
        Some(Color::DarkGray)
    } else if same_text(name, "light-red") {
        Some(Color::LightRed)
    } else if same_text(name, "light-green") {
        Some(Color::LightGreen)
    } else if same_text(name, "light-yellow") {
        Some(Color::LightYellow)
    } else if same_text(name, "light-blue") {
        Some(Color::LightBlue)
    } else if same_text(name, "light-magenta") {
        Some(Color::LightMagenta)
    } else if same_text(name, "light-cyan") {
        Some(Color::LightCyan)
    } else if same_text(name, "white") {
        Some(Color::White)
    } else if same_text(name, "reset") {
        Some(Color::Reset)
    } else {
        None
    }
}

/// A colour given as a symbol or a string: `#rrggbb` first, then a
/// colour name; any other name is an unknown colour.
pub open spec fn spec_parse_color(v: LispValue) -> Result<Color, LispError> {
    match spec_name_of(v) {
        Err(e) => Err(e),
        Ok(name) => match spec_hex_color(name@) {
            Some(c) => Ok(c),
            None => match spec_named_color(name@) {
                Some(c) => Ok(c),
                None => Err(LispError::UnknownColor(name)),
            },
        },
    }
}

/// Reads a colour; see `spec_parse_color`.
pub fn parse_color(v: &LispValue) -> (r: Result<Color, LispError>)
    ensures
        r == spec_parse_color(*v),
{
    let name = v.name_of()?;
    if let Some(c) = parse_hex_color(name.as_str()) {
        return Ok(c);
    }
    match named_color(name.as_str()) {
        Some(c) => Ok(c),
        None => Err(LispError::UnknownColor(name)),
    }
}


// ---------------------------------------------------------------------------
// Modifier names
// ---------------------------------------------------------------------------

/// The modifier with the name `name`.
pub open spec fn spec_named_modifier(name: Seq<char>) -> Option<ModifierFlag> {
    if name == "bold"@ {
        Some(ModifierFlag::Bold)
    } else if name == "dim"@ {
        Some(ModifierFlag::Dim)
    } else if name == "italic"@ {
        Some(ModifierFlag::Italic)
    } else if name == "underline"@ || name == "underlined"@ {
        Some(ModifierFlag::Underlined)
    } else if name == "slow-blink"@ {
        Some(ModifierFlag::SlowBlink)
    } else if name == "rapid-blink"@ {
        Some(ModifierFlag::RapidBlink)
    } else if name == "reversed"@ || name == "reverse"@ {
        Some(ModifierFlag::Reversed)
    } else if name == "hidden"@ {
        Some(ModifierFlag::Hidden)
    } else if name == "crossed-out"@ || name == "strikethrough"@ {
        Some(ModifierFlag::CrossedOut)
    } else {
        None
    }
}

/// The modifier with the name `name`; see `spec_named_modifier`.
pub fn named_modifier(name: &str) -> (r: Option<ModifierFlag>)
    ensures
        r == spec_named_modifier(name@),
{
    if same_text(name, "bold") {
        Some(ModifierFlag::Bold)
    } else if same_text(name, "dim") {
        Some(ModifierFlag::Dim)
    } else if same_text(name, "italic") {
        Some(ModifierFlag::Italic)
    } else if same_text(name, "underline") || same_text(name, "underlined") {
        Some(ModifierFlag::Underlined)
    } else if same_text(name, "slow-blink") {
        Some(ModifierFlag::SlowBlink)
    } else if same_text(name, "rapid-blink") {
        Some(ModifierFlag::RapidBlink)
    } else if same_text(name, "reversed") || same_text(name, "reverse") {
        Some(ModifierFlag::Reversed)
    } else if same_text(name, "hidden") {
        Some(ModifierFlag::Hidden)
    } else if same_text(name, "crossed-out") || same_text(name, "strikethrough") {
        Some(ModifierFlag::CrossedOut)
    } else {
        None
    }
}

/// One modifier, given as a symbol or a string.
pub open spec fn spec_modifier_item(v: LispValue) -> Result<Modifier, LispError> {
    match spec_name_of(v) {
        Err(e) => Err(e),
        Ok(name) => match spec_named_modifier(name@) {
            Some(f) => Ok(Modifier::just(f)),
            None => Err(LispError::UnknownModifier(name)),
        },
    }
}

/// One step over a list of modifiers: adds the next one.
pub open spec fn modifier_step() -> spec_fn(Modifier, LispValue) -> Result<Modifier, LispError> {
    |m: Modifier, item: LispValue|
        match spec_modifier_item(item) {
            Ok(b) => Ok(m.spec_union(b)),
            Err(e) => Err(e),
        }
}

/// Modifiers, given as a list of names or as one bare name.
///
/// The modifiers of the list's elements are joined, and the first
/// element that is no modifier name is the error. Where that leaves no
/// modifier and `v` is not `nil`, `v` is read as one bare name, which
/// may be any of the names a list may hold.
pub open spec fn spec_parse_modifier(v: LispValue) -> Result<Modifier, LispError> {
    match try_fold(list_items(v), Modifier::none(), modifier_step()) {
        Err(e) => Err(e),
        Ok(m) => if m.spec_is_empty() && !(v is Nil) {
            spec_modifier_item(v)
        } else {
            Ok(m)
        },
    }
}

fn modifier_item(v: &LispValue) -> (r: Result<Modifier, LispError>)
    ensures
        r == spec_modifier_item(*v),
{
    let name = v.name_of()?;
    match named_modifier(name.as_str()) {
        Some(f) => Ok(Modifier::single(f)),
        None => Err(LispError::UnknownModifier(name)),
    }
}

/// Reads modifiers; see `spec_parse_modifier`.
pub fn parse_modifier(v: &LispValue) -> (r: Result<Modifier, LispError>)
    ensures
        r == spec_parse_modifier(*v),
{
    let items = v.items();
    let ghost step = modifier_step();
    let mut m = Modifier::empty();
    let mut i: usize = 0;
    while i < items.len()
        invariant
            items@ == list_items(*v),
            i <= items.len(),
            step == modifier_step(),
            try_fold(items@.take(i as int), Modifier::none(), step) == Ok::<Modifier, LispError>(m),
        decreases items.len() - i,
    {
        proof {
            lemma_try_fold_next(items@, Modifier::none(), step, i as int);
        }
        match modifier_item(&items[i]) {
            Ok(b) => {
                m = m.union(b);
            },
            Err(e) => {
                proof {
                    lemma_try_fold_stops(items@, Modifier::none(), step, i + 1);
                }
                return Err(e);
            },
        }
        i = i + 1;
    }
    proof {
        lemma_try_fold_all(items@, Modifier::none(), step);
    }
    if m.is_empty() && !v.is_nil() {
        m = modifier_item(v)?;
    }
    Ok(m)
}


// ---------------------------------------------------------------------------
// Style alists
// ---------------------------------------------------------------------------

/// One `(key . value)` entry applied to `style`: `fg` and `bg` set a
/// colour, `modifier` and `modifiers` add modifiers, and any other key
/// leaves the style as it was.
pub open spec fn spec_apply_style_field(style: Style, key: Seq<char>, value: LispValue) -> Result<
    Style,
    LispError,
> {
    if key == "fg"@ {
        match spec_parse_color(value) {
            Ok(c) => Ok(style.with_fg(c)),
            Err(e) => Err(e),
        }
    } else if key == "bg"@ {
        match spec_parse_color(value) {
            Ok(c) => Ok(style.with_bg(c)),
            Err(e) => Err(e),
        }
    } else if key == "modifier"@ || key == "modifiers"@ {
        match spec_parse_modifier(value) {
            Ok(m) => Ok(style.with_modifier(m)),
            Err(e) => Err(e),
        }
    } else {
        Ok(style)
    }
}

/// Applies one entry to `style`; see `spec_apply_style_field`. On an
/// error `style` is left as it was.
pub fn apply_style_field(style: &mut Style, key: &str, value: &LispValue) -> (r: Result<
    (),
    LispError,
>)
    ensures
        match r {
            Ok(()) => spec_apply_style_field(*old(style), key@, *value) == Ok::<Style, LispError>(
                *final(style),
            ),
            Err(e) => spec_apply_style_field(*old(style), key@, *value) == Err::<Style, LispError>(
                e,
            ) && *final(style) == *old(style),
        },
{
    if same_text(key, "fg") {
        let c = parse_color(value)?;
        *style = style.fg(c);
    } else if same_text(key, "bg") {
        let c = parse_color(value)?;
        *style = style.bg(c);
    } else if same_text(key, "modifier") || same_text(key, "modifiers") {
        let m = parse_modifier(value)?;
        *style = style.add_modifier(m);
    }
    Ok(())
}

/// The key and the value of an alist entry: the car, which must be a
/// symbol, and the cdr.
pub open spec fn spec_entry(pair: LispValue) -> Result<(String, LispValue), LispError> {
    match spec_car(pair) {
        Err(e) => Err(e),
        Ok(k) => match spec_as_symbol(k) {
            Err(e) => Err(e),
            Ok(key) => match spec_cdr(pair) {
                Err(e) => Err(e),
                Ok(val) => Ok((key, val)),
            },
        },
    }
}

/// Reads an alist entry; see `spec_entry`.
pub fn entry(pair: &LispValue) -> (r: Result<(String, LispValue), LispError>)
    ensures
        r == spec_entry(*pair),
{
    let key = pair.car()?.as_symbol()?;
    let val = pair.cdr()?;
    Ok((key, val))
}

/// One step over a flat style alist: applies the next entry.
pub open spec fn flat_style_step() -> spec_fn(Style, LispValue) -> Result<Style, LispError> {
    |s: Style, pair: LispValue|
        match spec_entry(pair) {
            Err(e) => Err(e),
            Ok(kv) => spec_apply_style_field(s, kv.0@, kv.1),
        }
}

/// A style alist with no prefixed keys, applied entry by entry to the
/// plain style; `nil` is the plain style.
pub open spec fn spec_parse_flat_style(v: LispValue) -> Result<Style, LispError> {
    try_fold(list_items(v), Style::plain(), flat_style_step())
}

/// Reads a flat style alist; see `spec_parse_flat_style`.
pub fn parse_flat_style(v: &LispValue) -> (r: Result<Style, LispError>)
    ensures
        r == spec_parse_flat_style(*v),
{
    let mut s = Style::default();
    if v.is_nil() {
        return Ok(s);
    }
    let pairs = v.items();
    let ghost step = flat_style_step();
    let mut i: usize = 0;
    while i < pairs.len()
        invariant
            pairs@ == list_items(*v),
            i <= pairs.len(),
            step == flat_style_step(),
            try_fold(pairs@.take(i as int), Style::plain(), step) == Ok::<Style, LispError>(s),
        decreases pairs.len() - i,
    {
        proof {
            lemma_try_fold_next(pairs@, Style::plain(), step, i as int);
        }
        let kv = entry(&pairs[i]);
        match kv {
            Err(e) => {
                proof {
                    lemma_try_fold_stops(pairs@, Style::plain(), step, i + 1);
                }
                return Err(e);
            },
            Ok((key, val)) => {
                let applied = apply_style_field(&mut s, key.as_str(), &val);
                if let Err(e) = applied {
                    proof {
                        lemma_try_fold_stops(pairs@, Style::plain(), step, i + 1);
                    }
                    return Err(e);
                }
            },
        }
        i = i + 1;
    }
    proof {
        lemma_try_fold_all(pairs@, Style::plain(), step);
    }
    Ok(s)
}

/// The part of a widget that a key of its style alist styles.
pub enum StylePart {
    Text,
    Title,
    Border,
    Highlight,
}

/// The part of the widget that `key` styles: `title-`, `border-` and
/// `highlight-` keys style the title, the border and the selected row,
/// with the prefix taken off; any other key styles the body text.
pub open spec fn spec_route(key: Seq<char>) -> (StylePart, Seq<char>) {
    match spec_strip_prefix(key, "title-"@) {
        Some(rest) => (StylePart::Title, rest),
        None => match spec_strip_prefix(key, "border-"@) {
            Some(rest) => (StylePart::Border, rest),
            None => match spec_strip_prefix(key, "highlight-"@) {
                Some(rest) => (StylePart::Highlight, rest),
                None => (StylePart::Text, key),
            },
        },
    }
}

/// The style of `part` in `st`.
pub open spec fn part_of(st: Styles, part: StylePart) -> Style {
    match part {
        StylePart::Text => st.text,
        StylePart::Title => st.title,
        StylePart::Border => st.border,
        StylePart::Highlight => st.highlight,
    }
}

/// `st` with the style of `part` replaced by `s`.
pub open spec fn with_part(st: Styles, part: StylePart, s: Style) -> Styles {
    match part {
        StylePart::Text => Styles { text: s, ..st },
        StylePart::Title => Styles { title: s, ..st },
        StylePart::Border => Styles { border: s, ..st },
        StylePart::Highlight => Styles { highlight: s, ..st },
    }
}

/// One entry of a widget's style alist applied to the style of the part
/// that its key names.
pub open spec fn spec_apply_styles_entry(st: Styles, key: Seq<char>, val: LispValue) -> Result<
    Styles,
    LispError,
> {
    let (part, rest) = spec_route(key);
    match spec_apply_style_field(part_of(st, part), rest, val) {
        Ok(s) => Ok(with_part(st, part, s)),
        Err(e) => Err(e),
    }
}

/// One step over a widget's style alist.
pub open spec fn styles_step() -> spec_fn(Styles, LispValue) -> Result<Styles, LispError> {
    |st: Styles, pair: LispValue|
        match spec_entry(pair) {
            Err(e) => Err(e),
            Ok(kv) => spec_apply_styles_entry(st, kv.0@, kv.1),
        }
}

/// A widget's style alist, applied entry by entry to four plain styles;
/// no alist, and `nil`, give four plain styles.
pub open spec fn spec_parse_styles(v: Option<LispValue>) -> Result<Styles, LispError> {
    match v {
        None => Ok(Styles::plain()),
        Some(alist) => try_fold(list_items(alist), Styles::plain(), styles_step()),
    }
}

fn apply_styles_entry(st: &mut Styles, key: &str, val: &LispValue) -> (r: Result<(), LispError>)
    ensures
        match r {
            Ok(()) => spec_apply_styles_entry(*old(st), key@, *val) == Ok::<Styles, LispError>(
                *final(st),
            ),
            Err(e) => spec_apply_styles_entry(*old(st), key@, *val) == Err::<Styles, LispError>(e),
        },
{
    if let Some(rest) = strip_prefix(key, "title-") {
        apply_style_field(&mut st.title, rest, val)
    } else if let Some(rest) = strip_prefix(key, "border-") {
        apply_style_field(&mut st.border, rest, val)
    } else if let Some(rest) = strip_prefix(key, "highlight-") {
        apply_style_field(&mut st.highlight, rest, val)
    } else {
        apply_style_field(&mut st.text, key, val)
    }
}

/// Reads a widget's style alist; see `spec_parse_styles`.
pub fn parse_styles(v: Option<LispValue>) -> (r: Result<Styles, LispError>)
    ensures
        r == spec_parse_styles(v),
{
    let mut st = Styles::default();
    let alist = match v {
        None => {
            return Ok(st);
        },
        Some(a) => a,
    };
    if alist.is_nil() {
        return Ok(st);
    }
    let pairs = alist.items();
    let ghost step = styles_step();
    let mut i: usize = 0;
    while i < pairs.len()
        invariant
            pairs@ == list_items(alist),
            v == Some(alist),
            i <= pairs.len(),
            step == styles_step(),
            try_fold(pairs@.take(i as int), Styles::plain(), step) == Ok::<Styles, LispError>(st),
        decreases pairs.len() - i,
    {
        proof {
            lemma_try_fold_next(pairs@, Styles::plain(), step, i as int);
        }
        let kv = entry(&pairs[i]);
        match kv {
            Err(e) => {
                proof {
                    lemma_try_fold_stops(pairs@, Styles::plain(), step, i + 1);
                }
                return Err(e);
            },
            Ok((key, val)) => {
                let applied = apply_styles_entry(&mut st, key.as_str(), &val);
                if let Err(e) = applied {
                    proof {
                        lemma_try_fold_stops(pairs@, Styles::plain(), step, i + 1);
                    }
                    return Err(e);
                }
            },
        }
        i = i + 1;
    }
    proof {
        lemma_try_fold_all(pairs@, Styles::plain(), step);
    }
    Ok(st)
}

} // verus!
