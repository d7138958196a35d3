//! The README renderer: converts a repository's README source to display
//! markup, with an explicit not-found outcome for the normal absent case.

use crate::errors::ReadmeReadError;
use crate::text::append_str;
use vstd::prelude::*;

verus! {

/// The HTML that the markdown conversion yields for a source text: a name for
/// the result of `markdown::to_html`, a function of the source alone.
pub uninterp spec fn md_html_of(s: Seq<char>) -> Seq<char>;

/// Relies on `markdown::to_html` (the markdown crate): compiles CommonMark to
/// HTML, a pure function of the source text alone, and never fails with the
/// default options.
#[verifier::external_body]
fn md_to_html(s: &str) -> (r: String)
    ensures
        r@ == md_html_of(s@),
{
    markdown::to_html(s)
}

/// How the README file stood when the repository path was probed: no file,
/// a file that could not be read, or its text.
#[derive(Debug)]
pub enum ReadmeSource {
    Absent,
    Unreadable,
    Content(String),
}

/// The outcome of rendering: markup to embed, or the README was absent —
/// a normal state, not an error.
#[derive(Debug)]
pub enum ReadmeOutcome {
    Markup(String),
    NotFound,
}

/// The markup that embeds a converted README: the conversion wrapped in the
/// markdown root block. The conversion is embedded raw — it is the one
/// unescaped sink, and repository README content is trusted by design.
pub open spec fn readme_markup(src: Seq<char>) -> Seq<char> {
    "<div class=\"md-root\">"@ + md_html_of(src) + "</div>"@
}

/// Renders a repository's README.
///
/// An absent README is the not-found outcome, never an error; an unreadable
/// one fails with `ReadmeReadError`; a readable one converts to markup that
/// wraps exactly the markdown conversion of its text.
pub fn render_readme(source: &ReadmeSource) -> (r: Result<ReadmeOutcome, ReadmeReadError>)
    ensures
        match *source {
            ReadmeSource::Absent => r == Ok::<ReadmeOutcome, ReadmeReadError>(
                ReadmeOutcome::NotFound,
            ),
            ReadmeSource::Unreadable => r == Err::<ReadmeOutcome, ReadmeReadError>(
                ReadmeReadError::Unreadable,
            ),
            ReadmeSource::Content(s) => r matches Ok(ReadmeOutcome::Markup(m)) && m@
                == readme_markup(s@),
        },
{
    match source {
        ReadmeSource::Absent => Ok(ReadmeOutcome::NotFound),
        ReadmeSource::Unreadable => Err(ReadmeReadError::Unreadable),
        ReadmeSource::Content(s) => {
            let converted = md_to_html(s.as_str());
            let mut m = String::new();
            append_str(&mut m, "<div class=\"md-root\">");
            append_str(&mut m, converted.as_str());
            append_str(&mut m, "</div>");
            proof {
                assert(m@ =~= readme_markup(s@));
            }
            Ok(ReadmeOutcome::Markup(m))
        },
    }
}

} // verus!
