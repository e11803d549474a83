use vstd::prelude::*;
use colored::Colorize;
use crate::project::News;

verus! {

/// The SGR sequence that resets all styling.
pub open spec fn sgr_reset() -> Seq<char> {
    seq!['\u{1b}', '[', '0', 'm']
}

/// The SGR sequence for a bold red title.
pub open spec fn title_style() -> Seq<char> {
    seq!['\u{1b}', '[', '1', ';', '3', '1', 'm']
}

/// The SGR sequence for an italic yellow description.
pub open spec fn description_style() -> Seq<char> {
    seq!['\u{1b}', '[', '3', ';', '3', '3', 'm']
}

/// The SGR sequence for an italic blue link.
pub open spec fn link_style() -> Seq<char> {
    seq!['\u{1b}', '[', '3', ';', '3', '4', 'm']
}

/// The SGR sequence for the confirmed menu choice: bold black on white.
pub open spec fn selection_style() -> Seq<char> {
    seq!['\u{1b}', '[', '1', ';', '4', '7', ';', '3', '0', 'm']
}

/// The text contains the reset sequence somewhere.
pub open spec fn contains_sgr_reset(s: Seq<char>) -> bool {
    exists|i: int| 0 <= i && i + 4 <= s.len() && #[trigger] s.subrange(i, i + 4) == sgr_reset()
}

/// Text styled with `style`: either the text itself, when styling is
/// disabled for the current terminal, or the text wrapped in the style's
/// SGR sequence and the reset sequence.
pub open spec fn styled_as(r: Seq<char>, s: Seq<char>, style: Seq<char>) -> bool {
    r == s || r == style + s + sgr_reset()
}

/// Relies on colored's Colorize::red and Colorize::bold: the displayed
/// text is the input itself when colors are disabled, else the input
/// wrapped in the bold-red SGR sequence and the reset sequence (exact for
/// input that holds no reset sequence of its own).
#[verifier::external_body]
fn style_title(s: &str) -> (r: String)
    ensures
        !contains_sgr_reset(s@) ==> styled_as(r@, s@, title_style()),
{
    format!("{}", s.red().bold())
}

/// Relies on colored's Colorize::italic and Colorize::yellow, as
/// `style_title` relies on bold red.
#[verifier::external_body]
fn style_description(s: &str) -> (r: String)
    ensures
        !contains_sgr_reset(s@) ==> styled_as(r@, s@, description_style()),
{
    format!("{}", s.italic().yellow())
}

/// Relies on colored's Colorize::blue and Colorize::italic, as
/// `style_title` relies on bold red.
#[verifier::external_body]
fn style_link(s: &str) -> (r: String)
    ensures
        !contains_sgr_reset(s@) ==> styled_as(r@, s@, link_style()),
{
    format!("{}", s.blue().italic())
}

/// Relies on colored's Colorize::on_white, Colorize::black and
/// Colorize::bold, as `style_title` relies on bold red.
#[verifier::external_body]
fn style_selection_inner(s: &str) -> (r: String)
    ensures
        !contains_sgr_reset(s@) ==> styled_as(r@, s@, selection_style()),
{
    format!("{}", s.on_white().black().bold())
}

/// The confirmed menu choice, rendered in its inverted highlight style.
pub fn styled_selection(name: &str) -> (r: String)
    ensures
        !contains_sgr_reset(name@) ==> styled_as(r@, name@, selection_style()),
{
    style_selection_inner(name)
}

/// The four output lines for one record, unstyled: title, description,
/// link, then a blank separator line, and nothing else.
pub fn render_lines(news: &News) -> (r: Vec<String>)
    ensures
        r@.len() == 4,
        r@[0]@ == news.title@,
        r@[1]@ == news.description@,
        r@[2]@ == news.link@,
        r@[3]@ == Seq::<char>::empty(),
{
    let mut out: Vec<String> = Vec::new();
    out.push(news.title.clone());
    out.push(news.description.clone());
    out.push(news.link.clone());
    out.push(String::new());
    out
}

/// The four output lines for one record as the renderer prints them:
/// bold red title, italic yellow description, italic blue link, then a
/// blank separator line.
pub fn styled_lines(news: &News) -> (r: Vec<String>)
    ensures
        r@.len() == 4,
        !contains_sgr_reset(news.title@) ==> styled_as(r@[0]@, news.title@, title_style()),
        !contains_sgr_reset(news.description@) ==> styled_as(
            r@[1]@,
            news.description@,
            description_style(),
        ),
        !contains_sgr_reset(news.link@) ==> styled_as(r@[2]@, news.link@, link_style()),
        r@[3]@ == Seq::<char>::empty(),
{
    let mut out: Vec<String> = Vec::new();
    out.push(style_title(news.title.as_str()));
    out.push(style_description(news.description.as_str()));
    out.push(style_link(news.link.as_str()));
    out.push(String::new());
    out
}

} // verus!
