//! Styled text: what is shown, before any terminal is involved.
use vstd::prelude::*;

use crate::text;

verus! {

#[derive(Debug, Clone, Copy, PartialEq, Eq, Structural)]
pub enum Color {
    Black,
    Blue,
    Cyan,
    DarkGray,
    Green,
    Magenta,
    Red,
    Yellow,
}

/// How a piece of text is drawn.
#[derive(Debug, Clone, Copy, PartialEq, Eq, Structural)]
pub struct Style {
    pub fg: Option<Color>,
    pub bg: Option<Color>,
    pub bold: bool,
    pub dim: bool,
    pub bright: bool,
    pub underlined: bool,
}

impl Style {
    /// No color and no emphasis.
    #[verifier::allow_in_spec]
    pub fn plain() -> Style
        returns
            (Style { fg: None, bg: None, bold: false, dim: false, bright: false, underlined: false }),
    {
        Style { fg: None, bg: None, bold: false, dim: false, bright: false, underlined: false }
    }

    #[verifier::allow_in_spec]
    pub fn fg(self, c: Color) -> Style
        returns
            (Style { fg: Some(c), ..self }),
    {
        Style { fg: Some(c), ..self }
    }

    #[verifier::allow_in_spec]
    pub fn bg(self, c: Color) -> Style
        returns
            (Style { bg: Some(c), ..self }),
    {
        Style { bg: Some(c), ..self }
    }

    #[verifier::allow_in_spec]
    pub fn bold(self) -> Style
        returns
            (Style { bold: true, ..self }),
    {
        Style { bold: true, ..self }
    }

    #[verifier::allow_in_spec]
    pub fn dim(self) -> Style
        returns
            (Style { dim: true, ..self }),
    {
        Style { dim: true, ..self }
    }

    #[verifier::allow_in_spec]
    pub fn bright(self) -> Style
        returns
            (Style { bright: true, ..self }),
    {
        Style { bright: true, ..self }
    }

    #[verifier::allow_in_spec]
    pub fn underlined(self) -> Style
        returns
            (Style { underlined: true, ..self }),
    {
        Style { underlined: true, ..self }
    }
}

/// A piece of text in one style.
#[derive(Debug)]
pub struct Span {
    pub text: String,
    pub style: Style,
}

/// What a span shows.
pub struct SpanView {
    pub text: Seq<char>,
    pub style: Style,
}

impl View for Span {
    type V = SpanView;

    open spec fn view(&self) -> SpanView {
        SpanView { text: self.text@, style: self.style }
    }
}

/// A span of the given text and style.
pub open spec fn shown(text: Seq<char>, style: Style) -> SpanView {
    SpanView { text, style }
}

/// A span in no particular style.
pub open spec fn bare(text: Seq<char>) -> SpanView {
    shown(text, Style::plain())
}

/// A span in one color.
pub open spec fn tinted(text: Seq<char>, color: Color) -> SpanView {
    shown(text, Style::plain().fg(color))
}

impl Span {
    pub fn new(s: &str, style: Style) -> (r: Span)
        ensures
            r@ == shown(s@, style),
    {
        Span { text: text::copy(s), style }
    }

    pub fn bare(s: &str) -> (r: Span)
        ensures
            r@ == bare(s@),
    {
        Span { text: text::copy(s), style: Style::plain() }
    }

    pub fn tinted(s: &str, color: Color) -> (r: Span)
        ensures
            r@ == tinted(s@, color),
    {
        Span { text: text::copy(s), style: Style::plain().fg(color) }
    }
}

/// What a line of spans shows.
pub open spec fn line_view(v: Seq<Span>) -> Seq<SpanView> {
    v.map_values(|s: Span| s@)
}

/// What several lines, or the rows of a table, show.
pub open spec fn lines_view(v: Seq<Vec<Span>>) -> Seq<Seq<SpanView>> {
    v.map_values(|l: Vec<Span>| line_view(l@))
}

/// One line for each value of a list.
pub(crate) fn each_line<T, F: Fn(&T) -> Vec<Span>>(
    v: &Vec<T>,
    draw: F,
    Ghost(shows): Ghost<spec_fn(T) -> Seq<SpanView>>,
) -> (r: Vec<Vec<Span>>)
    requires
        forall|x: T| call_requires(draw, (&x,)),
        forall|x: T, l: Vec<Span>| #[trigger]
            call_ensures(draw, (&x,), l) ==> line_view(l@) == shows(x),
    ensures
        lines_view(r@) == v@.map_values(shows),
{
    let mut out: Vec<Vec<Span>> = Vec::new();
    let mut i: usize = 0;
    assert(lines_view(out@) =~= v@.take(0).map_values(shows));
    while i < v.len()
        invariant
            forall|x: T| call_requires(draw, (&x,)),
            forall|x: T, l: Vec<Span>| #[trigger]
                call_ensures(draw, (&x,), l) ==> line_view(l@) == shows(x),
            i <= v@.len(),
            lines_view(out@) == v@.take(i as int).map_values(shows),
        decreases v@.len() - i,
    {
        let l = draw(&v[i]);
        let ghost before = lines_view(out@);
        out.push(l);
        assert(lines_view(out@) =~= before.push(line_view(l@)));
        assert(v@.take(i + 1).map_values(shows) =~= v@.take(i as int).map_values(shows).push(
            shows(v@[i as int]),
        ));
        i = i + 1;
    }
    assert(v@.take(i as int) =~= v@);
    out
}

/// A line of one span.
pub fn one(s: Span) -> (r: Vec<Span>)
    ensures
        line_view(r@) == seq![s@],
{
    let mut v: Vec<Span> = Vec::new();
    v.push(s);
    assert(line_view(v@) =~= seq![s@]);
    v
}

/// A line of plain text alone.
pub fn note(s: &str) -> (r: Vec<Vec<Span>>)
    ensures
        lines_view(r@) == seq![seq![bare(s@)]],
{
    let mut v: Vec<Vec<Span>> = Vec::new();
    v.push(one(Span::bare(s)));
    assert(lines_view(v@) =~= seq![seq![bare(s@)]]);
    v
}

/// The lines of both, one after the other.
pub fn followed_by(a: Vec<Vec<Span>>, b: Vec<Vec<Span>>) -> (r: Vec<Vec<Span>>)
    ensures
        lines_view(r@) == lines_view(a@) + lines_view(b@),
{
    let mut v = a;
    let mut w = b;
    v.append(&mut w);
    assert(lines_view(v@) =~= lines_view(a@) + lines_view(b@));
    v
}

} // verus!
