//! Display fragments: markdown rendered to markup and framed for the client.

use vstd::prelude::*;
use vstd::string::StringExecFns;

verus! {

/// The markup that comrak renders from a markdown text under its default
/// options.
pub uninterp spec fn markdown_html(markdown: Seq<char>) -> Seq<char>;

/// Renders markdown with `comrak::markdown_to_html` under
/// `comrak::Options::default()`.
///
/// Trusted: comrak parses the text and formats the tree into a fresh string,
/// reading nothing but its two arguments, so the result is the same for the
/// same text. The contract gives that result its name and claims no more.
#[verifier::external_body]
pub(crate) fn markdown_to_html(markdown: &str) -> (html: String)
    ensures
        html@ == markdown_html(markdown@),
{
    comrak::markdown_to_html(markdown, &comrak::Options::default())
}

/// How the client is to place a fragment.
#[derive(Debug, Clone, Copy, PartialEq, Eq, Structural)]
pub enum FragmentKind {
    /// An incremental fragment: the accumulated text so far.
    Append,
    /// The final fragment, which the client swaps in place.
    Replace,
    /// An indication that the generation failed.
    Failure,
}

/// One discrete text event for the outbound connection.
#[derive(Debug, Clone, PartialEq, Eq)]
pub struct Fragment {
    pub kind: FragmentKind,
    pub body: String,
}

/// A [`Fragment`] with its body as a sequence of characters.
pub struct FragmentView {
    pub kind: FragmentKind,
    pub body: Seq<char>,
}

impl View for Fragment {
    type V = FragmentView;

    open spec fn view(&self) -> FragmentView {
        FragmentView { kind: self.kind, body: self.body@ }
    }
}

/// Markup in the frame of an incremental fragment.
pub open spec fn append_frame(html: Seq<char>) -> Seq<char> {
    "<div>"@ + html + "<div>"@
}

/// Markup in the frame of the final fragment, which names the container that
/// the client replaces.
pub open spec fn replace_frame(html: Seq<char>) -> Seq<char> {
    "<div hx-swap-oob=\"outerHTML:#message-container\">"@ + html + "</div>"@
}

/// The incremental fragment for the text accumulated so far.
pub open spec fn append_fragment(text: Seq<char>) -> FragmentView {
    FragmentView { kind: FragmentKind::Append, body: append_frame(markdown_html(text)) }
}

/// The final fragment for the whole generated text.
pub open spec fn replace_fragment(text: Seq<char>) -> FragmentView {
    FragmentView { kind: FragmentKind::Replace, body: replace_frame(markdown_html(text)) }
}

/// The fragment that tells the client of a failure: the cause as it came.
pub open spec fn failure_fragment(cause: Seq<char>) -> FragmentView {
    FragmentView { kind: FragmentKind::Failure, body: cause }
}

/// Frames rendered markup as an incremental fragment.
pub fn frame_append(html: &str) -> (fragment: Fragment)
    ensures
        fragment@ == (FragmentView { kind: FragmentKind::Append, body: append_frame(html@) }),
{
    let mut body = String::from_str("<div>");
    body.append(html);
    body.append("<div>");
    Fragment { kind: FragmentKind::Append, body }
}

/// Frames rendered markup as the final fragment.
pub fn frame_replace(html: &str) -> (fragment: Fragment)
    ensures
        fragment@ == (FragmentView { kind: FragmentKind::Replace, body: replace_frame(html@) }),
{
    let mut body = String::from_str("<div hx-swap-oob=\"outerHTML:#message-container\">");
    body.append(html);
    body.append("</div>");
    Fragment { kind: FragmentKind::Replace, body }
}

/// Renders the accumulated text anew, whole, as an incremental fragment.
pub fn render_append(text: &str) -> (fragment: Fragment)
    ensures
        fragment@ == append_fragment(text@),
{
    let html = markdown_to_html(text);
    frame_append(html.as_str())
}

/// Renders the whole generated text as the final fragment.
pub fn render_replace(text: &str) -> (fragment: Fragment)
    ensures
        fragment@ == replace_fragment(text@),
{
    let html = markdown_to_html(text);
    frame_replace(html.as_str())
}

/// Wraps the cause of a failure as the fragment that reports it.
pub fn render_failure(cause: String) -> (fragment: Fragment)
    ensures
        fragment@ == failure_fragment(cause@),
{
    Fragment { kind: FragmentKind::Failure, body: cause }
}

} // verus!
