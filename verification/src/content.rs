//! The text of paragraphs and list rows: lines made of styled spans.
use vstd::prelude::*;
use crate::lisp::{
    LispError, LispValue, list_items, spec_as_string, spec_car, spec_cdr, try_fold,
    lemma_try_fold_next, lemma_try_fold_stops, lemma_try_fold_all,
};
use crate::style::{Style, parse_flat_style, spec_parse_flat_style};
use crate::text::push_char;

verus! {

/// A piece of text with one style, as the readers describe it.
pub type SpanView = (Seq<char>, Style);

/// The text and style of each span.
pub open spec fn spans_view(spans: Seq<(String, Style)>) -> Seq<SpanView> {
    spans.map_values(|p: (String, Style)| (p.0@, p.1))
}

/// The spans of each line.
pub open spec fn lines_view(lines: Seq<Vec<(String, Style)>>) -> Seq<Seq<SpanView>> {
    lines.map_values(|l: Vec<(String, Style)>| spans_view(l@))
}

/// One span of a row: a string, unstyled, or a `(TEXT . STYLE-ALIST)`
/// cell.
pub open spec fn spec_span(v: LispValue) -> Result<SpanView, LispError> {
    match v {
        LispValue::Str(s) => Ok((s@, Style::plain())),
        _ => match spec_car(v) {
            Err(e) => Err(e),
            Ok(t) => match spec_as_string(t) {
                Err(e) => Err(e),
                Ok(text) => match spec_cdr(v) {
                    Err(e) => Err(e),
                    Ok(alist) => match spec_parse_flat_style(alist) {
                        Err(e) => Err(e),
                        Ok(style) => Ok((text@, style)),
                    },
                },
            },
        },
    }
}

/// One step over the spans of a row.
pub open spec fn span_step() -> spec_fn(Seq<SpanView>, LispValue) -> Result<
    Seq<SpanView>,
    LispError,
> {
    |acc: Seq<SpanView>, v: LispValue|
        match spec_span(v) {
            Ok(sp) => Ok(acc.push(sp)),
            Err(e) => Err(e),
        }
}

/// A list row: a string is one unstyled span; otherwise the row is a
/// list of spans, read in order.
pub open spec fn spec_list_item(v: LispValue) -> Result<Seq<SpanView>, LispError> {
    match v {
        LispValue::Str(s) => Ok(seq![(s@, Style::plain())]),
        _ => try_fold(list_items(v), Seq::empty(), span_step()),
    }
}

fn span(v: &LispValue) -> (r: Result<(String, Style), LispError>)
    ensures
        match r {
            Ok(p) => spec_span(*v) == Ok::<SpanView, LispError>((p.0@, p.1)),
            Err(e) => spec_span(*v) == Err::<SpanView, LispError>(e),
        },
{
    if let LispValue::Str(s) = v {
        return Ok((s.clone(), Style::default()));
    }
    let text = v.car()?.as_string()?;
    let style = parse_flat_style(&v.cdr()?)?;
    Ok((text, style))
}

/// Reads a list row; see `spec_list_item`.
pub fn parse_list_item(v: &LispValue) -> (r: Result<Vec<(String, Style)>, LispError>)
    ensures
        match r {
            Ok(spans) => spec_list_item(*v) == Ok::<Seq<SpanView>, LispError>(spans_view(spans@)),
            Err(e) => spec_list_item(*v) == Err::<Seq<SpanView>, LispError>(e),
        },
{
    if let LispValue::Str(s) = v {
        let mut one: Vec<(String, Style)> = Vec::new();
        one.push((s.clone(), Style::default()));
        assert(spans_view(one@) =~= seq![(s@, Style::plain())]);
        return Ok(one);
    }
    let items = v.items();
    let ghost step = span_step();
    let mut spans: Vec<(String, Style)> = Vec::new();
    let mut i: usize = 0;
    assert(spans_view(spans@) =~= Seq::<SpanView>::empty());
    while i < items.len()
        invariant
            items@ == list_items(*v),
            !(*v is Str),
            i <= items.len(),
            step == span_step(),
            try_fold(items@.take(i as int), Seq::<SpanView>::empty(), step) == Ok::<
                Seq<SpanView>,
                LispError,
            >(spans_view(spans@)),
        decreases items.len() - i,
    {
        proof {
            lemma_try_fold_next(items@, Seq::<SpanView>::empty(), step, i as int);
        }
        match span(&items[i]) {
            Ok(p) => {
                let ghost before = spans@;
                spans.push(p);
                assert(spans_view(spans@) =~= spans_view(before).push((p.0@, p.1)));
            },
            Err(e) => {
                proof {
                    lemma_try_fold_stops(items@, Seq::<SpanView>::empty(), step, i + 1);
                }
                return Err(e);
            },
        }
        i = i + 1;
    }
    proof {
        lemma_try_fold_all(items@, Seq::<SpanView>::empty(), step);
    }
    Ok(spans)
}

/// `s` cut at each newline, as `str::split` cuts it: one piece more than
/// there are newlines, and empty pieces where newlines meet or stand at
/// either end.
pub open spec fn split_lines(s: Seq<char>) -> Seq<Seq<char>>
    decreases s.len(),
{
    if s.len() == 0 {
        seq![Seq::empty()]
    } else {
        let pieces = split_lines(s.drop_last());
        if s.last() == '\n' {
            pieces.push(Seq::empty())
        } else {
            pieces.update(pieces.len() - 1, pieces.last().push(s.last()))
        }
    }
}

/// There is always at least one piece.
pub proof fn lemma_split_lines_nonempty(s: Seq<char>)
    ensures
        split_lines(s).len() >= 1,
    decreases s.len(),
{
    if s.len() > 0 {
        lemma_split_lines_nonempty(s.drop_last());
    }
}

/// One step over the lines of a paragraph.
pub open spec fn line_step() -> spec_fn(Seq<Seq<SpanView>>, LispValue) -> Result<
    Seq<Seq<SpanView>>,
    LispError,
> {
    |acc: Seq<Seq<SpanView>>, v: LispValue|
        match spec_list_item(v) {
            Ok(l) => Ok(acc.push(l)),
            Err(e) => Err(e),
        }
}

/// A plain line: one unstyled span.
pub open spec fn plain_line(text: Seq<char>) -> Seq<SpanView> {
    seq![(text, Style::plain())]
}

/// Paragraph text. The empty string is one empty line; any other string
/// is cut at its newlines into unstyled lines; otherwise the text is a
/// list of lines, each read as a list row.
pub open spec fn spec_paragraph_text(v: LispValue) -> Result<Seq<Seq<SpanView>>, LispError> {
    match v {
        LispValue::Str(s) => if s@.len() == 0 {
            Ok(seq![Seq::empty()])
        } else {
            Ok(split_lines(s@).map_values(|t: Seq<char>| plain_line(t)))
        },
        _ => spec_rows(v),
    }
}

/// A list of rows, each read as a list row; a value that is not a list
/// has no rows.
pub open spec fn spec_rows(v: LispValue) -> Result<Seq<Seq<SpanView>>, LispError> {
    try_fold(list_items(v), Seq::empty(), line_step())
}

fn plain_lines(s: &str) -> (r: Vec<Vec<(String, Style)>>)
    ensures
        lines_view(r@) == split_lines(s@).map_values(|t: Seq<char>| plain_line(t)),
{
    let n = s.unicode_len();
    let mut lines: Vec<Vec<(String, Style)>> = Vec::new();
    let mut current = String::new();
    let mut i: usize = 0;
    proof {
        assert(s@.take(0) =~= Seq::<char>::empty());
    }
    while i < n
        invariant
            n == s@.len(),
            i <= n,
            split_lines(s@.take(i as int)) == lines_view(lines@).map_values(
                |l: Seq<SpanView>| l[0].0,
            ).push(current@),
            forall|k: int|
                0 <= k < lines@.len() ==> #[trigger] lines_view(lines@)[k] == plain_line(
                    lines_view(lines@)[k][0].0,
                ),
        decreases n - i,
    {
        let c = s.get_char(i);
        let ghost prev_lines = lines@;
        let ghost prev_current = current@;
        proof {
            assert(s@.take(i + 1).drop_last() =~= s@.take(i as int));
        }
        if c == '\n' {
            let mut line: Vec<(String, Style)> = Vec::new();
            let done = current;
            line.push((done, Style::default()));
            lines.push(line);
            current = String::new();
            proof {
                assert(spans_view(line@) =~= plain_line(prev_current));
                assert(lines_view(lines@) =~= lines_view(prev_lines).push(plain_line(prev_current)));
                assert(lines_view(lines@).map_values(|l: Seq<SpanView>| l[0].0) =~= lines_view(
                    prev_lines,
                ).map_values(|l: Seq<SpanView>| l[0].0).push(prev_current));
            }
        } else {
            push_char(&mut current, c);
        }
        proof {
            assert(split_lines(s@.take(i + 1)) =~= lines_view(lines@).map_values(
                |l: Seq<SpanView>| l[0].0,
            ).push(current@));
        }
        i = i + 1;
    }
    let ghost prev_lines = lines@;
    let ghost prev_current = current@;
    let mut last: Vec<(String, Style)> = Vec::new();
    last.push((current, Style::default()));
    lines.push(last);
    proof {
        assert(s@.take(n as int) =~= s@);
        assert(spans_view(last@) =~= plain_line(prev_current));
        assert(lines_view(lines@) =~= lines_view(prev_lines).push(plain_line(prev_current)));
        let pieces = split_lines(s@);
        assert(lines_view(lines@) =~= pieces.map_values(|t: Seq<char>| plain_line(t)));
    }
    lines
}

/// Reads paragraph text; see `spec_paragraph_text`.
pub fn parse_paragraph_text(v: &LispValue) -> (r: Result<Vec<Vec<(String, Style)>>, LispError>)
    ensures
        match r {
            Ok(lines) => spec_paragraph_text(*v) == Ok::<Seq<Seq<SpanView>>, LispError>(
                lines_view(lines@),
            ),
            Err(e) => spec_paragraph_text(*v) == Err::<Seq<Seq<SpanView>>, LispError>(e),
        },
{
    if let LispValue::Str(s) = v {
        if s.as_str().unicode_len() == 0 {
            let mut one: Vec<Vec<(String, Style)>> = Vec::new();
            one.push(Vec::new());
            assert(lines_view(one@) =~= seq![Seq::<SpanView>::empty()]) by {
                assert(spans_view(one@[0]@) =~= Seq::<SpanView>::empty());
            }
            return Ok(one);
        }
        return Ok(plain_lines(s.as_str()));
    }
    parse_rows(v)
}

/// Reads a list of rows; see `spec_rows`.
pub fn parse_rows(v: &LispValue) -> (r: Result<Vec<Vec<(String, Style)>>, LispError>)
    ensures
        match r {
            Ok(lines) => spec_rows(*v) == Ok::<Seq<Seq<SpanView>>, LispError>(lines_view(lines@)),
            Err(e) => spec_rows(*v) == Err::<Seq<Seq<SpanView>>, LispError>(e),
        },
{
    let items = v.items();
    let ghost step = line_step();
    let mut lines: Vec<Vec<(String, Style)>> = Vec::new();
    let mut i: usize = 0;
    assert(lines_view(lines@) =~= Seq::<Seq<SpanView>>::empty());
    while i < items.len()
        invariant
            items@ == list_items(*v),
            i <= items.len(),
            step == line_step(),
            try_fold(items@.take(i as int), Seq::<Seq<SpanView>>::empty(), step) == Ok::<
                Seq<Seq<SpanView>>,
                LispError,
            >(lines_view(lines@)),
        decreases items.len() - i,
    {
        proof {
            lemma_try_fold_next(items@, Seq::<Seq<SpanView>>::empty(), step, i as int);
        }
        match parse_list_item(&items[i]) {
            Ok(l) => {
                let ghost before = lines@;
                lines.push(l);
                assert(lines_view(lines@) =~= lines_view(before).push(spans_view(l@)));
            },
            Err(e) => {
                proof {
                    lemma_try_fold_stops(items@, Seq::<Seq<SpanView>>::empty(), step, i + 1);
                }
                return Err(e);
            },
        }
        i = i + 1;
    }
    proof {
        lemma_try_fold_all(items@, Seq::<Seq<SpanView>>::empty(), step);
    }
    Ok(lines)
}

} // verus!
