//! Markdown to HTML, and the page that frames a rendered fragment.

use vstd::prelude::*;
use vstd::string::*;

verus! {

/// The HTML that `pulldown_cmark` writes for the markdown text `source`,
/// parsed with no extension enabled.
pub uninterp spec fn markdown_html(source: Seq<char>) -> Seq<char>;

/// Calls `pulldown_cmark::Parser::new` on `source` and hands the parser to
/// `pulldown_cmark::html::push_html`, which appends to an empty string.
///
/// Trusted: the HTML is a function of `source` alone, named
/// [`markdown_html`].
#[verifier::external_body]
pub(crate) fn markdown_to_html(source: &str) -> (html: String)
    ensures
        html@ == markdown_html(source@),
{
    let mut html = String::new();
    pulldown_cmark::html::push_html(&mut html, pulldown_cmark::Parser::new(source));
    html
}

/// What a page holds before the rendered fragment.
pub const PAGE_HEAD: &'static str = r#"<!doctype html>
<html>
    <head>
        <meta name="viewport" content="width=device-width, initial-scale=1">
        <link rel="stylesheet" href="https://sindresorhus.com/github-markdown-css/github-markdown.css">
        <style>
	.markdown-body {
		box-sizing: border-box;
		min-width: 200px;
		max-width: 980px;
		margin: 0 auto;
		padding: 45px;
	}

	@media (max-width: 767px) {
		.markdown-body {
			padding: 15px;
                }
        }
        </style>
    </head>
    <body>
        <div class="markdown-body">
            "#;

/// What a page holds after the rendered fragment.
pub const PAGE_TAIL: &'static str = r#"
        </div>
    </body>
</html>
            "#;

/// A complete HTML page around the fragment `content`.
pub open spec fn page_of(content: Seq<char>) -> Seq<char> {
    PAGE_HEAD@ + content + PAGE_TAIL@
}

/// Frames a rendered fragment as a complete HTML page: the fragment stands
/// unchanged between a fixed head and a fixed tail.
pub fn md_html_wrapper(content: String) -> (page: String)
    ensures
        page@ == page_of(content@),
{
    let mut page = PAGE_HEAD.to_owned();
    page.append(content.as_str());
    page.append(PAGE_TAIL);
    page
}

} // verus!
