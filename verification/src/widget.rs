//! Widgets: where they stand on the screen, what they show, and how they
//! are built from the arguments of the widget constructors.
use vstd::prelude::*;
use crate::content::{
    SpanView, lines_view, parse_paragraph_text, parse_rows, spec_paragraph_text, spec_rows,
};
use crate::lisp::{LispError, LispValue};
use crate::style::{Style, Styles, parse_styles, spec_parse_styles};

verus! {

/// A rectangle of terminal cells: its top left corner and its size.
#[derive(Clone, Copy, Debug, PartialEq, Eq, Structural)]
pub struct Area {
    pub x: u16,
    pub y: u16,
    pub width: u16,
    pub height: u16,
}

/// What a widget shows.
///
/// A gauge's ratio is a floating-point number, kept here by its bits
/// (`f64::to_bits`).
pub enum WidgetKind {
    Paragraph { title: Option<String>, lines: Vec<Vec<(String, Style)>> },
    List { title: Option<String>, items: Vec<Vec<(String, Style)>>, selected: Option<usize> },
    Gauge { title: Option<String>, ratio_bits: u64, label: Option<String> },
}

/// A widget: its area, what it shows, and its styles.
pub struct Widget {
    pub area: Area,
    pub kind: WidgetKind,
    pub styles: Styles,
}

/// The rectangle that `ratatui::layout::Rect::new` makes: the corner as
/// given, and the width and height cut down so that the right and the
/// bottom edge stay within `u16`.
pub open spec fn spec_rect(x: u16, y: u16, width: u16, height: u16) -> Area {
    Area {
        x,
        y,
        width: if width <= u16::MAX - x {
            width
        } else {
            (u16::MAX - x) as u16
        },
        height: if height <= u16::MAX - y {
            height
        } else {
            (u16::MAX - y) as u16
        },
    }
}

/// `ratatui::layout::Rect::new`: keeps `x` and `y`, and cuts the width
/// and the height so that `x + width` and `y + height` fit in `u16`.
#[verifier::external_body]
fn rect_new(x: u16, y: u16, width: u16, height: u16) -> (r: Area)
    ensures
        r == spec_rect(x, y, width, height),
{
    let r = ratatui::layout::Rect::new(x, y, width, height);
    Area { x: r.x, y: r.y, width: r.width, height: r.height }
}

/// A coordinate given as an integer: a negative one is 0, and the rest
/// keep their low 16 bits.
pub open spec fn spec_coord(v: i64) -> u16 {
    if v < 0 {
        0u16
    } else {
        (v % 65536) as u16
    }
}

fn coord(v: i64) -> (r: u16)
    ensures
        r == spec_coord(v),
{
    if v < 0 {
        0
    } else {
        (v % 65536) as u16
    }
}

/// The area of a widget whose constructor was given `x`, `y`, `w`, `h`.
pub open spec fn spec_rect_from(x: i64, y: i64, w: i64, h: i64) -> Area {
    spec_rect(spec_coord(x), spec_coord(y), spec_coord(w), spec_coord(h))
}

/// The area of a widget; see `spec_rect_from`.
pub fn rect_from(x: i64, y: i64, w: i64, h: i64) -> (r: Area)
    ensures
        r == spec_rect_from(x, y, w, h),
{
    rect_new(coord(x), coord(y), coord(w), coord(h))
}

/// An empty string stands for no text.
pub open spec fn spec_opt_string(s: String) -> Option<String> {
    if s@.len() == 0 {
        None
    } else {
        Some(s)
    }
}

/// `None` for an empty string, the string otherwise.
pub fn opt_string(s: String) -> (r: Option<String>)
    ensures
        r == spec_opt_string(s),
{
    if s.as_str().is_empty() {
        None
    } else {
        Some(s)
    }
}

/// The selected row of a list: a negative index selects none.
pub open spec fn spec_selected(s: Option<i64>) -> Option<usize> {
    match s {
        Some(i) => if i < 0 {
            None
        } else {
            Some(i as usize)
        },
        None => None,
    }
}

/// The selected row of a list; see `spec_selected`.
pub fn selected_index(s: Option<i64>) -> (r: Option<usize>)
    ensures
        r == spec_selected(s),
{
    match s {
        Some(i) => if i < 0 {
            None
        } else {
            Some(i as usize)
        },
        None => None,
    }
}

/// A gauge's label: none where there is none or it is empty.
pub open spec fn spec_label(label: Option<String>) -> Option<String> {
    match label {
        Some(l) => spec_opt_string(l),
        None => None,
    }
}

impl Widget {
    /// A paragraph with this area, title, lines and styles.
    pub open spec fn is_paragraph(
        self,
        area: Area,
        title: Option<String>,
        lines: Seq<Seq<SpanView>>,
        styles: Styles,
    ) -> bool {
        &&& self.area == area
        &&& self.styles == styles
        &&& match self.kind {
            WidgetKind::Paragraph { title: t, lines: ls } => t == title && lines_view(ls@) == lines,
            _ => false,
        }
    }

    /// A list with this area, title, rows, selected row and styles.
    pub open spec fn is_list(
        self,
        area: Area,
        title: Option<String>,
        rows: Seq<Seq<SpanView>>,
        selected: Option<usize>,
        styles: Styles,
    ) -> bool {
        &&& self.area == area
        &&& self.styles == styles
        &&& match self.kind {
            WidgetKind::List { title: t, items: its, selected: sel } => t == title && lines_view(its@)
                == rows && sel == selected,
            _ => false,
        }
    }

    /// A gauge with this area, title, ratio, label and styles.
    pub open spec fn is_gauge(
        self,
        area: Area,
        title: Option<String>,
        ratio_bits: u64,
        label: Option<String>,
        styles: Styles,
    ) -> bool {
        &&& self.area == area
        &&& self.styles == styles
        &&& match self.kind {
            WidgetKind::Gauge { title: t, ratio_bits: rb, label: l } => t == title && rb
                == ratio_bits && l == label,
            _ => false,
        }
    }

    /// A paragraph. The text is read first, then the styles; the first
    /// error found is the result.
    pub fn paragraph(
        x: i64,
        y: i64,
        w: i64,
        h: i64,
        title: String,
        text: &LispValue,
        style: Option<LispValue>,
    ) -> (r: Result<Widget, LispError>)
        ensures
            match spec_paragraph_text(*text) {
                Err(e) => r == Err::<Widget, LispError>(e),
                Ok(lines) => match spec_parse_styles(style) {
                    Err(e) => r == Err::<Widget, LispError>(e),
                    Ok(styles) => match r {
                        Ok(wd) => wd.is_paragraph(
                            spec_rect_from(x, y, w, h),
                            spec_opt_string(title),
                            lines,
                            styles,
                        ),
                        Err(_) => false,
                    },
                },
            },
    {
        let area = rect_from(x, y, w, h);
        let title = opt_string(title);
        let lines = parse_paragraph_text(text)?;
        let styles = parse_styles(style)?;
        Ok(Widget { area, kind: WidgetKind::Paragraph { title, lines }, styles })
    }

    /// A list. The rows are read first, then the styles; the first error
    /// found is the result.
    pub fn list(
        x: i64,
        y: i64,
        w: i64,
        h: i64,
        title: String,
        items: &LispValue,
        selected: Option<i64>,
        style: Option<LispValue>,
    ) -> (r: Result<Widget, LispError>)
        ensures
            match spec_rows(*items) {
                Err(e) => r == Err::<Widget, LispError>(e),
                Ok(rows) => match spec_parse_styles(style) {
                    Err(e) => r == Err::<Widget, LispError>(e),
                    Ok(styles) => match r {
                        Ok(wd) => wd.is_list(
                            spec_rect_from(x, y, w, h),
                            spec_opt_string(title),
                            rows,
                            spec_selected(selected),
                            styles,
                        ),
                        Err(_) => false,
                    },
                },
            },
    {
        let parsed = parse_rows(items)?;
        let area = rect_from(x, y, w, h);
        let title = opt_string(title);
        let selected = selected_index(selected);
        let styles = parse_styles(style)?;
        Ok(Widget { area, kind: WidgetKind::List { title, items: parsed, selected }, styles })
    }

    /// A gauge, its ratio given by its bits. Only the styles can be in
    /// error.
    pub fn gauge(
        x: i64,
        y: i64,
        w: i64,
        h: i64,
        title: String,
        ratio_bits: u64,
        label: Option<String>,
        style: Option<LispValue>,
    ) -> (r: Result<Widget, LispError>)
        ensures
            match spec_parse_styles(style) {
                Err(e) => r == Err::<Widget, LispError>(e),
                Ok(styles) => match r {
                    Ok(wd) => wd.is_gauge(
                        spec_rect_from(x, y, w, h),
                        spec_opt_string(title),
                        ratio_bits,
                        spec_label(label),
                        styles,
                    ),
                    Err(_) => false,
                },
            },
    {
        let area = rect_from(x, y, w, h);
        let title = opt_string(title);
        let label = match label {
            Some(l) => opt_string(l),
            None => None,
        };
        let styles = parse_styles(style)?;
        Ok(Widget { area, kind: WidgetKind::Gauge { title, ratio_bits, label }, styles })
    }
}

} // verus!
