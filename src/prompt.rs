//! The two prompt segments, as styled text spans.
//!
//! A renderer hands in the values that it read from the shell and from the
//! plugins' state; a value that a plugin has not produced yet is `None` and
//! renders as an empty span.

use vstd::prelude::*;
use vstd::string::StringExecFns;

verus! {

/// The editing mode of the line editor.
#[derive(Clone, Copy, Debug, PartialEq, Eq)]
pub enum LineMode {
    Insert,
    Normal,
}

/// A foreground colour of a span.
#[derive(Clone, Copy, Debug, PartialEq, Eq)]
pub enum Color {
    Blue,
    White,
    Cyan,
    Yellow,
}

/// A piece of text with its style.
#[derive(Clone, Debug, PartialEq, Eq)]
pub struct Span {
    pub text: String,
    pub color: Option<Color>,
    pub bold: bool,
}

/// What a span stands for in contracts.
pub ghost struct SpanView {
    pub text: Seq<char>,
    pub color: Option<Color>,
    pub bold: bool,
}

impl View for Span {
    type V = SpanView;

    open spec fn view(&self) -> SpanView {
        SpanView { text: self.text@, color: self.color, bold: self.bold }
    }
}

pub open spec fn spans_view(v: Seq<Span>) -> Seq<SpanView> {
    v.map_values(|s: Span| s@)
}

pub open spec fn styled(text: Seq<char>, color: Option<Color>, bold: bool) -> SpanView {
    SpanView { text, color, bold }
}

pub open spec fn plain(text: Seq<char>) -> SpanView {
    styled(text, None, false)
}

/// The span of an optional value: its text in the given colour, or empty.
pub open spec fn optional(text: Option<Seq<char>>, color: Option<Color>) -> SpanView {
    match text {
        Some(t) => styled(t, color, false),
        None => plain(Seq::empty()),
    }
}

pub open spec fn opt_view(s: Option<String>) -> Option<Seq<char>> {
    match s {
        Some(t) => Some(t@),
        None => None,
    }
}

/// The mode indicator: `>` in cyan while inserting, `:` in yellow otherwise.
pub open spec fn indicator_spec(mode: LineMode) -> SpanView {
    match mode {
        LineMode::Insert => styled(">"@, Some(Color::Cyan), false),
        LineMode::Normal => styled(":"@, Some(Color::Yellow), false),
    }
}

/// The left segment: user name, the last component of the working
/// directory, and the mode indicator, separated by single spaces.
pub open spec fn left_spec(mode: LineMode, user: Option<Seq<char>>, top_pwd: Seq<char>) -> Seq<
    SpanView,
> {
    seq![
        plain(" "@),
        optional(user, Some(Color::Blue)),
        plain(" "@),
        styled(top_pwd, Some(Color::White), true),
        plain(" "@),
        indicator_spec(mode),
        plain(" "@),
    ]
}

/// The text shown for a git branch.
pub open spec fn branch_text(branch: Seq<char>) -> Seq<char> {
    "git:"@ + branch + " "@
}

/// The right segment, before the project indicator that the directory
/// plugin renders itself: the git branch in blue, the duration of the last
/// command, and the name of the active language.
pub open spec fn right_spec(
    branch: Option<Seq<char>>,
    command_time: Option<Seq<char>>,
    lang_name: Seq<char>,
) -> Seq<SpanView> {
    seq![
        optional(
            match branch {
                Some(b) => Some(branch_text(b)),
                None => None,
            },
            Some(Color::Blue),
        ),
        optional(command_time, None),
        plain(lang_name),
    ]
}

fn span(text: String, color: Option<Color>, bold: bool) -> (r: Span)
    ensures
        r@ == styled(text@, color, bold),
{
    Span { text, color, bold }
}

fn space() -> (r: Span)
    ensures
        r@ == plain(" "@),
{
    span(String::from_str(" "), None, false)
}

fn optional_span(text: Option<String>, color: Option<Color>) -> (r: Span)
    ensures
        r@ == optional(opt_view(text), color),
{
    match text {
        Some(t) => span(t, color, false),
        None => {
            let r = span(String::new(), None, false);
            assert(r@.text =~= Seq::<char>::empty());
            r
        },
    }
}

/// Renders the left segment.
pub fn prompt_left(mode: LineMode, user: Option<String>, top_pwd: String) -> (r: Vec<Span>)
    ensures
        spans_view(r@) =~= left_spec(mode, opt_view(user), top_pwd@),
        user.is_none() ==> r@[1].text@.len() == 0,
{
    let indicator = match mode {
        LineMode::Insert => span(String::from_str(">"), Some(Color::Cyan), false),
        LineMode::Normal => span(String::from_str(":"), Some(Color::Yellow), false),
    };
    let mut r: Vec<Span> = Vec::new();
    r.push(space());
    r.push(optional_span(user, Some(Color::Blue)));
    r.push(space());
    r.push(span(top_pwd, Some(Color::White), true));
    r.push(space());
    r.push(indicator);
    r.push(space());
    r
}

/// Renders the right segment, before the project indicator.
pub fn prompt_right(branch: Option<String>, command_time: Option<String>, lang_name: String) -> (r:
    Vec<Span>)
    ensures
        spans_view(r@) =~= right_spec(opt_view(branch), opt_view(command_time), lang_name@),
        branch.is_none() ==> r@[0].text@.len() == 0,
        command_time.is_none() ==> r@[1].text@.len() == 0,
{
    let shown = match branch {
        Some(b) => {
            let t = String::from_str("git:").concat(b.as_str()).concat(" ");
            Some(t)
        },
        None => None,
    };
    let mut r: Vec<Span> = Vec::new();
    r.push(optional_span(shown, Some(Color::Blue)));
    r.push(optional_span(command_time, None));
    r.push(span(lang_name, None, false));
    r
}

} // verus!
