//! What the exporter's HTTP endpoints answer.
//!
//! The index page (`GET /`) names the exporter and links to the metrics;
//! the metrics endpoint (`GET /metrics`) answers with the encoded exposition
//! of a collection. The HTTP server itself runs in the binary.

use vstd::prelude::*;
use vstd::string::*;

verus! {

/// The HTML of the index page for the exporter `name`, version `version`, by
/// `authors`, with the home page `homepage`.
pub open spec fn index_page_spec(
    name: Seq<char>,
    version: Seq<char>,
    authors: Seq<char>,
    homepage: Seq<char>,
) -> Seq<char> {
    "\n<h1><pre>"@ + name + "</pre></h1>\n<p>v"@ + version + " by "@ + authors
        + ", <a href=\""@ + homepage
        + "\">homepage</a></p>\n<ul><li><a href=\"/metrics\">/metrics</a></li></ul>"@
}


/// The link list that closes every index page.
pub open spec fn metrics_link_list() -> Seq<char> {
    "\n<ul><li><a href=\"/metrics\">/metrics</a></li></ul>"@
}

/// Whatever the four inputs (empty ones too), the index page starts with
/// the exporter's name in a heading, ends with the link to `/metrics`, and
/// is exactly the four inputs plus fixed text of 109 characters.
pub proof fn lemma_index_page_shape(
    name: Seq<char>,
    version: Seq<char>,
    authors: Seq<char>,
    homepage: Seq<char>,
)
    ensures
        ({
            let page = index_page_spec(name, version, authors, homepage);
            &&& page.len() == name.len() + version.len() + authors.len() + homepage.len() + 109
            &&& page.subrange(0, 10 + name.len() as int) == "\n<h1><pre>"@ + name
            &&& page.subrange(page.len() - 50, page.len() as int) == metrics_link_list()
        }),
{
    reveal_strlit("\n<h1><pre>");
    reveal_strlit("</pre></h1>\n<p>v");
    reveal_strlit(" by ");
    reveal_strlit(", <a href=\"");
    reveal_strlit("\">homepage</a></p>\n<ul><li><a href=\"/metrics\">/metrics</a></li></ul>");
    reveal_strlit("\n<ul><li><a href=\"/metrics\">/metrics</a></li></ul>");
    let page = index_page_spec(name, version, authors, homepage);
    let tail = "\">homepage</a></p>\n<ul><li><a href=\"/metrics\">/metrics</a></li></ul>"@;
    let head = "\n<h1><pre>"@ + name;
    let rest = "</pre></h1>\n<p>v"@ + version + " by "@ + authors + ", <a href=\""@ + homepage;
    assert(page =~= head + rest + tail);
    assert(page.subrange(0, 10 + name.len() as int) =~= head);
    assert(tail.subrange(tail.len() - 50, tail.len() as int) =~= metrics_link_list());
    assert(page.subrange(page.len() - 50, page.len() as int) =~= tail.subrange(
        tail.len() - 50,
        tail.len() as int,
    ));
}

/// The HTML of the index page.
pub fn index_page(name: &str, version: &str, authors: &str, homepage: &str) -> (page: String)
    ensures
        page@ == index_page_spec(name@, version@, authors@, homepage@),
{
    let mut page = String::from_str("\n<h1><pre>");
    page.append(name);
    page.append("</pre></h1>\n<p>v");
    page.append(version);
    page.append(" by ");
    page.append(authors);
    page.append(", <a href=\"");
    page.append(homepage);
    page.append("\">homepage</a></p>\n<ul><li><a href=\"/metrics\">/metrics</a></li></ul>");
    page
}

/// The content type of the index page.
pub open spec fn index_content_type_spec() -> Seq<char> {
    "text/html; charset=utf-8"@
}

/// The content type of the index page.
pub fn index_content_type() -> (t: String)
    ensures
        t@ == index_content_type_spec(),
{
    String::from_str("text/html; charset=utf-8")
}

/// The content type of the metrics exposition.
pub open spec fn metrics_content_type_spec() -> Seq<char> {
    "application/openmetrics-text; version=1.0.0; charset=utf-8"@
}

/// The content type of the metrics exposition.
pub fn metrics_content_type() -> (t: String)
    ensures
        t@ == metrics_content_type_spec(),
{
    String::from_str("application/openmetrics-text; version=1.0.0; charset=utf-8")
}

} // verus!
