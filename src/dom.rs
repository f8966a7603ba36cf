//! A parsed results page, seen through the markup parser as a tree of
//! numbered nodes.
//!
//! The parser keeps every node of a document in one arena, numbered in the
//! order the nodes open in the source; a node's children are registered
//! after the node itself, so each child's number exceeds its parent's. The
//! spec functions below name what the parser reports for a given source
//! text; the wrappers are the only places where it is called.
use vstd::prelude::*;

use crate::parse::ParsingError;

verus! {

#[verifier::external_type_specification]
#[verifier::external_body]
pub struct ExVDom<'a>(tl::VDom<'a>);

#[verifier::external_type_specification]
#[verifier::external_body]
pub struct ExParseError(tl::ParseError);

/// The numbers of the nodes that `selector` picks out of the document parsed
/// from `html`, in document order; none when the selector cannot be parsed.
pub uninterp spec fn dom_select(html: Seq<char>, selector: Seq<char>) -> Option<Seq<u32>>;

/// The numbers of the direct children of node `n` (none for text or comments).
pub uninterp spec fn dom_children(html: Seq<char>, n: u32) -> Seq<u32>;

/// The value of attribute `name` on node `n`, when it is a tag carrying that
/// attribute with a value.
pub uninterp spec fn dom_attribute(html: Seq<char>, n: u32, name: Seq<char>) -> Option<Seq<char>>;

/// The text inside node `n`, markup left out.
pub uninterp spec fn dom_inner_text(html: Seq<char>, n: u32) -> Seq<char>;

/// A document parsed from its source text.
pub struct Document<'a> {
    source: &'a str,
    dom: tl::VDom<'a>,
}

impl<'a> Document<'a> {
    /// The source text the document was parsed from.
    pub closed spec fn source(&self) -> Seq<char> {
        self.source@
    }

    /// Parses a results page; a page the parser refuses is reported as
    /// `ParsingError::InvalidDocument`.
    pub fn from_html(html: &'a str) -> (r: Result<Document<'a>, ParsingError>)
        ensures
            r matches Ok(d) ==> d.source() == html@,
            r matches Err(e) ==> e == ParsingError::InvalidDocument,
            html@.len() <= 0x3FFF_FFFF ==> r is Ok,
    {
        match Document::parse(html) {
            Ok(d) => Ok(d),
            Err(_) => Err(ParsingError::InvalidDocument),
        }
    }

    /// Relies on `tl::parse`: parses `html`; it fails only on a source of
    /// more than `u32::MAX` bytes, and a character takes at most four bytes.
    #[verifier::external_body]
    pub(crate) fn parse(html: &'a str) -> (r: Result<Document<'a>, tl::ParseError>)
        ensures
            r matches Ok(d) ==> d.source() == html@,
            html@.len() <= 0x3FFF_FFFF ==> r is Ok,
    {
        tl::parse(html, tl::ParserOptions::default()).map(|dom| Document { source: html, dom })
    }

    /// Relies on `tl::VDom::query_selector` and `tl::NodeHandle::get_inner`:
    /// the nodes that `selector` matches, in document order (the iterator
    /// walks the node arena by increasing number), or nothing when the
    /// selector cannot be parsed.
    #[verifier::external_body]
    pub(crate) fn select(&self, selector: &str) -> (r: Option<Vec<u32>>)
        ensures
            r matches Some(v) ==> dom_select(self.source(), selector@) == Some(v@),
            r is None ==> dom_select(self.source(), selector@) is None,
            r matches Some(v) ==> forall|i: int, j: int| 0 <= i < j < v@.len() ==> v@[i] < v@[j],
    {
        self.dom.query_selector(selector).map(|found| found.map(|h| h.get_inner()).collect())
    }

    /// Relies on `tl::NodeHandle::get`, `tl::Node::children` and
    /// `tl::Children::top`: the direct children of node `n`, in document
    /// order, each numbered above `n` (a child is registered after its parent).
    #[verifier::external_body]
    pub(crate) fn children(&self, n: u32) -> (r: Vec<u32>)
        ensures
            r@ == dom_children(self.source(), n),
            forall|i: int| 0 <= i < r@.len() ==> n < #[trigger] r@[i],
    {
        let parser = self.dom.parser();
        match tl::NodeHandle::new(n).get(parser).and_then(|node| node.children()) {
            Some(children) => children.top().iter().map(|h| h.get_inner()).collect(),
            None => Vec::new(),
        }
    }

    /// Relies on `tl::NodeHandle::get`, `tl::Node::as_tag`,
    /// `tl::HTMLTag::attributes`, `tl::Attributes::get` and
    /// `tl::Bytes::as_utf8_str`: the value of attribute `name` on node `n`.
    #[verifier::external_body]
    pub(crate) fn attribute(&self, n: u32, name: &str) -> (r: Option<String>)
        ensures
            r matches Some(v) ==> dom_attribute(self.source(), n, name@) == Some(v@),
            r is None ==> dom_attribute(self.source(), n, name@) is None,
    {
        let parser = self.dom.parser();
        let node = tl::NodeHandle::new(n).get(parser)?;
        let value = node.as_tag()?.attributes().get(name)??;
        Some(value.as_utf8_str().to_string())
    }

    /// Relies on `tl::NodeHandle::get` and `tl::Node::inner_text`: the text
    /// inside node `n`.
    #[verifier::external_body]
    pub(crate) fn inner_text(&self, n: u32) -> (r: String)
        ensures
            r@ == dom_inner_text(self.source(), n),
    {
        let parser = self.dom.parser();
        match tl::NodeHandle::new(n).get(parser) {
            Some(node) => node.inner_text(parser).to_string(),
            None => String::new(),
        }
    }
}

} // verus!
