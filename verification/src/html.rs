//! A parsed HTML document, modelled as the flat sequence of its nodes.
//!
//! Parsing, attribute mutation and re-serialization are done by the `tl`
//! crate; the library sees each node as its tag name (for element nodes) and
//! its `src` attribute value, and drives the traversal itself.

use vstd::prelude::*;
use vstd::string::StringSliceAdditionalSpecFns;

verus! {

/// What the library reads of one node of a parsed document.
pub ghost struct NodeModel {
    /// The node's tag name, for an element node; `None` for text and
    /// comment nodes.
    pub tag: Option<Seq<char>>,
    /// The value of the node's `src` attribute, for an element node that
    /// carries one with a value.
    pub src: Option<Seq<char>>,
}

/// A parsed HTML document. It borrows the text it was parsed from and is
/// mutable in place; `nodes` below is its model.
#[verifier::external_body]
pub struct Doc<'a> {
    inner: tl::VDom<'a>,
}

/// The flat sequence of the document's nodes, in document order.
pub uninterp spec fn nodes(d: Doc) -> Seq<NodeModel>;

/// The markup that the document serializes back to in its current state.
pub uninterp spec fn serialized(d: Doc) -> Seq<char>;

/// What `tl`'s parser makes of `body`: the node models of the parsed
/// document, or `None` when the parser refuses the input (it does so exactly
/// when the input's byte length overflows a `u32`).
pub uninterp spec fn parsed_nodes(body: Seq<char>) -> Option<Seq<NodeModel>>;

/// Relies on `tl::parse`: parses markup into a document; per its source it
/// fails exactly when the input's byte length exceeds `u32::MAX`.
#[verifier::external_body]
pub(crate) fn parse_doc(body: &str) -> (r: Option<Doc<'_>>)
    ensures
        r matches Some(d) ==> parsed_nodes(body@) == Some(nodes(d)),
        r is None <==> parsed_nodes(body@) is None,
        body.spec_bytes().len() <= u32::MAX ==> r is Some,
{
    match tl::parse(body, tl::ParserOptions::default()) {
        Ok(inner) => Some(Doc { inner }),
        Err(_) => None,
    }
}

/// Relies on `tl`'s `VDom::nodes`: the number of nodes in the document.
#[verifier::external_body]
pub(crate) fn node_count(d: &Doc) -> (r: usize)
    ensures
        r == nodes(*d).len(),
{
    d.inner.nodes().len()
}

/// Relies on `tl`'s `Node::as_tag` and `HTMLTag::name`: the tag name of the
/// `i`-th node, or `None` when that node is not an element.
#[verifier::external_body]
pub(crate) fn node_tag(d: &Doc, i: usize) -> (r: Option<String>)
    requires
        i < nodes(*d).len(),
    ensures
        match r {
            Some(t) => nodes(*d)[i as int].tag == Some(t@),
            None => nodes(*d)[i as int].tag is None,
        },
{
    d.inner.nodes()[i].as_tag().map(|t| t.name().as_utf8_str().into_owned())
}

/// Relies on `tl`'s `Attributes::get`: the value of the `src` attribute of
/// the `i`-th node, or `None` when the node is not an element or carries no
/// `src` value.
#[verifier::external_body]
pub(crate) fn node_src(d: &Doc, i: usize) -> (r: Option<String>)
    requires
        i < nodes(*d).len(),
    ensures
        match r {
            Some(s) => nodes(*d)[i as int].src == Some(s@),
            None => nodes(*d)[i as int].src is None,
        },
{
    d.inner.nodes()[i]
        .as_tag()
        .and_then(|t| t.attributes().get("src").flatten())
        .map(|b| b.as_utf8_str().into_owned())
}

/// Relies on `tl`'s `Attributes::get_mut` and `Bytes::set`: overwrites the
/// value of the `src` attribute of the `i`-th node in place. Per its
/// source, `Bytes::set` succeeds exactly when the new value's byte length
/// fits in a `u32`, and leaves the attribute untouched otherwise.
#[verifier::external_body]
pub(crate) fn set_node_src(d: &mut Doc, i: usize, v: &str) -> (ok: bool)
    requires
        i < nodes(*old(d)).len(),
        nodes(*old(d))[i as int].src is Some,
    ensures
        ok <==> v.spec_bytes().len() <= u32::MAX,
        ok ==> nodes(*final(d)) == nodes(*old(d)).update(
            i as int,
            NodeModel { tag: nodes(*old(d))[i as int].tag, src: Some(v@) },
        ),
        !ok ==> nodes(*final(d)) == nodes(*old(d)),
{
    if let Some(t) = d.inner.nodes_mut()[i].as_tag_mut() {
        if let Some(b) = t.attributes_mut().get_mut("src").flatten() {
            return b.set(v).is_ok();
        }
    }
    false
}

/// Relies on `tl`'s `VDom::outer_html`: serializes the document, in its
/// current (possibly mutated) state, back to markup.
#[verifier::external_body]
pub(crate) fn doc_html(d: &Doc) -> (r: String)
    ensures
        r@ == serialized(*d),
{
    d.inner.outer_html()
}

} // verus!
