//! The content filter: per fetched response, decide whether to pass the
//! bytes through unmodified or to parse the markup, count tags, rewrite
//! image sources to local file names, and collect the referenced asset URLs
//! for follow-up fetching.

use vstd::prelude::*;
use vstd::string::StrSliceExecFns;
use vstd::utf8::{decode_utf8, decode_utf8_encode_utf8, encode_utf8, valid_utf8};

use crate::html;
use crate::html::{Doc, NodeModel};
use crate::naming::{derive_name, filename_for_url};
use crate::text::{decode_utf8_vec, has_prefix, is_prefix_of, str_eq};
use crate::urls::{resolved_url, AbsUrl, UrlModel};

verus! {

/// Why HTML-aware filtering of a response failed.
#[derive(Debug, PartialEq, Eq, Structural)]
pub enum FilterError {
    /// The response body is not valid UTF-8.
    Decode,
    /// The markup parser refused the body.
    Parse,
}

/// Tag counts reported for one filtered HTML page.
#[derive(Debug, Clone, Copy, PartialEq, Eq, Structural)]
pub struct PageStats {
    /// Number of `a` elements.
    pub links: usize,
    /// Number of `img` elements.
    pub images: usize,
}

/// What filtering one response produced: the bytes to persist, the asset
/// URLs discovered for follow-up fetching, and the tag counts when the
/// response was inspected as HTML.
#[derive(Debug)]
pub struct FetchOutcome {
    /// The bytes to write to the task's output file.
    pub bytes: Vec<u8>,
    /// The discovered asset URLs, in document order.
    pub assets: Vec<AbsUrl>,
    /// Tag counts, present exactly when the response was inspected as HTML.
    pub stats: Option<PageStats>,
}

/// True when a `content-type` header value marks a response as HTML.
pub open spec fn is_html_content_type(ct: Option<Seq<char>>) -> bool {
    ct matches Some(s) && is_prefix_of("text/html"@, s)
}

/// The view of an optional header value.
pub open spec fn ct_view(ct: Option<&str>) -> Option<Seq<char>> {
    match ct {
        Some(s) => Some(s@),
        None => None,
    }
}

/// How many of the nodes are elements named `name`.
pub open spec fn count_tag(ns: Seq<NodeModel>, name: Seq<char>) -> nat
    decreases ns.len(),
{
    if ns.len() == 0 {
        0
    } else {
        let rest = count_tag(ns.drop_last(), name);
        if ns.last().tag == Some(name) {
            rest + 1
        } else {
            rest
        }
    }
}

/// True when the node is an `img` element whose `src` attribute resolves
/// against the page URL written `base`, and the derived local name is short
/// enough to be stored back into the attribute.
pub open spec fn rewritable(n: NodeModel, base: Seq<char>) -> bool {
    &&& n.tag == Some("img"@)
    &&& n.src matches Some(s)
    &&& resolved_url(base, s) matches Some(u)
    &&& encode_utf8(derive_name(u.host, u.path)).len() <= u32::MAX
}

/// The resolved absolute URL of a rewritable node's `src` attribute.
pub open spec fn asset_of(n: NodeModel, base: Seq<char>) -> UrlModel {
    resolved_url(base, n.src.unwrap()).unwrap()
}

/// A node after the rewriting pass: a rewritable node carries the derived
/// local file name of its resolved asset URL as its new `src` value; every
/// other node is untouched.
pub open spec fn rewritten_node(n: NodeModel, base: Seq<char>) -> NodeModel {
    if rewritable(n, base) {
        NodeModel {
            tag: n.tag,
            src: Some(derive_name(asset_of(n, base).host, asset_of(n, base).path)),
        }
    } else {
        n
    }
}

/// The node sequence after the rewriting pass.
pub open spec fn rewritten(ns: Seq<NodeModel>, base: Seq<char>) -> Seq<NodeModel> {
    ns.map_values(|n: NodeModel| rewritten_node(n, base))
}

/// The asset URLs one node contributes: the resolved `src` of a rewritable
/// node, and nothing otherwise.
pub open spec fn discovered_one(n: NodeModel, base: Seq<char>) -> Seq<UrlModel> {
    if rewritable(n, base) {
        seq![asset_of(n, base)]
    } else {
        Seq::empty()
    }
}

/// The asset URLs discovered while rewriting, in document order: one per
/// rewritable node.
pub open spec fn discovered(ns: Seq<NodeModel>, base: Seq<char>) -> Seq<UrlModel>
    decreases ns.len(),
{
    if ns.len() == 0 {
        Seq::empty()
    } else {
        discovered(ns.drop_last(), base) + discovered_one(ns.last(), base)
    }
}

/// The models of a sequence of URLs.
pub open spec fn url_views(s: Seq<AbsUrl>) -> Seq<UrlModel> {
    s.map_values(|u: AbsUrl| u@)
}

/// The discovered-assets sequence holds exactly one entry per rewritable
/// `img` element, in document order: it is the sequence of resolved asset
/// URLs of exactly the rewritable nodes.
pub proof fn lemma_discovered_exact(ns: Seq<NodeModel>, base: Seq<char>)
    ensures
        discovered(ns, base) == ns.filter(|n: NodeModel| rewritable(n, base)).map_values(
            |n: NodeModel| asset_of(n, base),
        ),
    decreases ns.len(),
{
    reveal(Seq::filter);
    let pred = |n: NodeModel| rewritable(n, base);
    let f = |n: NodeModel| asset_of(n, base);
    if ns.len() == 0 {
        assert(discovered(ns, base) =~= ns.filter(pred).map_values(f));
    } else {
        lemma_discovered_exact(ns.drop_last(), base);
        let dl = ns.drop_last();
        if rewritable(ns.last(), base) {
            assert(pred(ns.last()));
            assert(ns.filter(pred) == dl.filter(pred).push(ns.last()));
            assert(dl.filter(pred).push(ns.last()).map_values(f) =~= dl.filter(pred).map_values(
                f,
            ).push(f(ns.last())));
            assert(discovered(ns, base) =~= ns.filter(pred).map_values(f));
        } else {
            assert(!pred(ns.last()));
            assert(ns.filter(pred) == dl.filter(pred));
            assert(discovered(ns, base) =~= ns.filter(pred).map_values(f));
        }
    }
}

/// After the rewriting pass every rewritable `img` element carries, as its
/// `src` value, the derived local file name of its resolved asset URL, and
/// every other node is untouched.
pub proof fn lemma_rewritten_pointwise(ns: Seq<NodeModel>, base: Seq<char>)
    ensures
        rewritten(ns, base).len() == ns.len(),
        forall|i: int|
            0 <= i < ns.len() && rewritable(#[trigger] ns[i], base) ==> rewritten(ns, base)[i].tag
                == ns[i].tag && rewritten(ns, base)[i].src == Some(
                derive_name(asset_of(ns[i], base).host, asset_of(ns[i], base).path),
            ),
        forall|i: int|
            0 <= i < ns.len() && !rewritable(#[trigger] ns[i], base) ==> rewritten(ns, base)[i]
                == ns[i],
{
}

/// Pass-through filtering: the output bytes are exactly the response bytes.
pub fn filter_noop(body: Vec<u8>) -> (r: Vec<u8>)
    ensures
        r@ == body@,
{
    body
}

/// HTML-aware filtering. A response whose `content-type` does not mark it
/// as HTML is passed through untouched. An HTML response is decoded as
/// UTF-8 and parsed; its `a` and `img` elements are counted; and, when
/// `rewrite_assets` is set, every `img` element's `src` attribute is
/// rewritten to the derived local name of its resolved URL, the document is
/// re-serialized, and the resolved URLs are handed back in document order.
/// With `rewrite_assets` unset the original bytes are returned unchanged.
pub fn filter_html(
    page: &AbsUrl,
    content_type: Option<&str>,
    body: Vec<u8>,
    rewrite_assets: bool,
) -> (r: Result<FetchOutcome, FilterError>)
    ensures
        !is_html_content_type(ct_view(content_type)) ==> {
            &&& r matches Ok(o)
            &&& o.bytes@ == body@
            &&& o.assets@.len() == 0
            &&& o.stats is None
        },
        is_html_content_type(ct_view(content_type)) ==> {
            &&& (r == Err::<FetchOutcome, FilterError>(FilterError::Decode) <==> !valid_utf8(
                body@,
            ))
            &&& (r == Err::<FetchOutcome, FilterError>(FilterError::Parse) <==> valid_utf8(body@)
                && html::parsed_nodes(decode_utf8(body@)) is None)
            &&& (valid_utf8(body@) && html::parsed_nodes(decode_utf8(body@)) is Some ==> {
                let ns = html::parsed_nodes(decode_utf8(body@)).unwrap();
                &&& r matches Ok(o)
                &&& filtered_html_outcome(o, ns, page@.text, body@, rewrite_assets)
            })
        },
{
    let is_html = match content_type {
        Some(ct) => has_prefix(ct, "text/html"),
        None => false,
    };
    if !is_html {
        return Ok(FetchOutcome { bytes: body, assets: Vec::new(), stats: None });
    }
    let ghost body0 = body@;
    let text = match decode_utf8_vec(body) {
        Some(s) => s,
        None => return Err(FilterError::Decode),
    };
    let mut doc = match html::parse_doc(text.as_str()) {
        Some(d) => d,
        None => return Err(FilterError::Parse),
    };
    let ghost ns = html::nodes(doc);
    let n = html::node_count(&doc);

    let mut links: usize = 0;
    let mut images: usize = 0;
    let mut i: usize = 0;
    while i < n
        invariant
            0 <= i <= n,
            n == ns.len(),
            html::nodes(doc) == ns,
            links <= i && images <= i,
            links as nat == count_tag(ns.take(i as int), "a"@),
            images as nat == count_tag(ns.take(i as int), "img"@),
        decreases n - i,
    {
        proof {
            reveal_strlit("a");
            reveal_strlit("img");
            assert("a"@.len() != "img"@.len());
            assert(ns.take(i + 1).drop_last() =~= ns.take(i as int));
            assert(ns.take(i + 1).last() == ns[i as int]);
        }
        match html::node_tag(&doc, i) {
            Some(t) => {
                if str_eq(t.as_str(), "a") {
                    links += 1;
                } else if str_eq(t.as_str(), "img") {
                    images += 1;
                }
            },
            None => {},
        }
        i += 1;
    }
    proof {
        assert(ns.take(n as int) =~= ns);
    }
    let stats = PageStats { links, images };

    if !rewrite_assets {
        let out = text.as_str().as_bytes_vec();
        proof {
            decode_utf8_encode_utf8(body0);
        }
        return Ok(FetchOutcome { bytes: out, assets: Vec::new(), stats: Some(stats) });
    }

    let mut assets: Vec<AbsUrl> = Vec::new();
    let mut i: usize = 0;
    while i < n
        invariant
            0 <= i <= n,
            n == ns.len(),
            html::nodes(doc) == rewritten(ns.take(i as int), page@.text) + ns.skip(i as int),
            url_views(assets@) == discovered(ns.take(i as int), page@.text),
        decreases n - i,
    {
        proof {
            assert(html::nodes(doc).len() == n);
            assert(html::nodes(doc)[i as int] == ns[i as int]);
            assert(ns.take(i + 1).drop_last() =~= ns.take(i as int));
            assert(ns.take(i + 1).last() == ns[i as int]);
        }
        let ghost doc_before = html::nodes(doc);
        let mut was_img = false;
        match html::node_tag(&doc, i) {
            Some(t) => {
                if str_eq(t.as_str(), "img") {
                    was_img = true;
                    rewrite_image(&mut doc, i, page, &mut assets);
                }
            },
            None => {},
        }
        proof {
            if was_img {
                assert(html::nodes(doc) =~= rewritten(ns.take(i + 1), page@.text) + ns.skip(
                    i + 1,
                ));
            } else {
                assert(!rewritable(ns[i as int], page@.text));
                assert(rewritten_node(ns[i as int], page@.text) == ns[i as int]);
                assert(html::nodes(doc) =~= rewritten(ns.take(i + 1), page@.text) + ns.skip(
                    i + 1,
                ));
                assert(url_views(assets@) =~= discovered(ns.take(i + 1), page@.text));
            }
        }
        i += 1;
    }
    proof {
        assert(ns.take(n as int) =~= ns);
        assert(ns.skip(n as int) =~= Seq::<NodeModel>::empty());
        assert(html::nodes(doc) =~= rewritten(ns, page@.text));
    }
    let out_s = html::doc_html(&doc);
    let out = out_s.as_str().as_bytes_vec();
    proof {
        assert(html::nodes(doc) == rewritten(ns, page@.text) && out@ == encode_utf8(
            html::serialized(doc),
        ));
    }
    Ok(FetchOutcome { bytes: out, assets, stats: Some(stats) })
}

/// What a successful HTML-aware filtering of a genuinely-HTML response
/// guarantees, given the parsed node models `ns` and the page URL written
/// `base`.
pub open spec fn filtered_html_outcome(
    o: FetchOutcome,
    ns: Seq<NodeModel>,
    base: Seq<char>,
    body: Seq<u8>,
    rewrite_assets: bool,
) -> bool {
    &&& o.stats matches Some(st) && st.links as nat == count_tag(ns, "a"@) && st.images as nat
        == count_tag(ns, "img"@)
    &&& !rewrite_assets ==> o.bytes@ == body && o.assets@.len() == 0
    &&& rewrite_assets ==> url_views(o.assets@) == discovered(ns, base) && (exists|d: Doc|
        html::nodes(d) == rewritten(ns, base) && o.bytes@ == encode_utf8(html::serialized(d)))
}

/// Rewrites the `src` attribute of the `img` element at node index `i` to
/// the derived local file name of its resolved URL, recording that URL; an
/// absent `src`, an unresolvable reference, or an oversized derived name
/// leaves the node untouched and records nothing.
pub fn rewrite_image(doc: &mut Doc, i: usize, page: &AbsUrl, assets: &mut Vec<AbsUrl>)
    requires
        i < html::nodes(*old(doc)).len(),
        html::nodes(*old(doc))[i as int].tag == Some("img"@),
    ensures
        html::nodes(*final(doc)) == html::nodes(*old(doc)).update(
            i as int,
            rewritten_node(html::nodes(*old(doc))[i as int], page@.text),
        ),
        url_views(final(assets)@) == url_views(old(assets)@) + discovered_one(
            html::nodes(*old(doc))[i as int],
            page@.text,
        ),
{
    let ghost n0 = html::nodes(*doc)[i as int];
    let src_opt = html::node_src(doc, i);
    match src_opt {
        None => {
            proof {
                assert(!rewritable(n0, page@.text));
                assert(html::nodes(*doc) =~= html::nodes(*doc).update(
                    i as int,
                    rewritten_node(n0, page@.text),
                ));
                assert(url_views(assets@) =~= url_views(assets@) + discovered_one(
                    n0,
                    page@.text,
                ));
            }
        },
        Some(src) => {
            match AbsUrl::resolve(page.text.as_str(), src.as_str()) {
                None => {
                    proof {
                        assert(!rewritable(n0, page@.text));
                        assert(html::nodes(*doc) =~= html::nodes(*doc).update(
                            i as int,
                            rewritten_node(n0, page@.text),
                        ));
                        assert(url_views(assets@) =~= url_views(assets@) + discovered_one(
                            n0,
                            page@.text,
                        ));
                    }
                },
                Some(asset) => {
                    let name = filename_for_url(&asset);
                    let ghost before = assets@;
                    let ok = html::set_node_src(doc, i, name.as_str());
                    if ok {
                        assets.push(asset);
                        proof {
                            assert(rewritable(n0, page@.text));
                            assert(rewritten_node(n0, page@.text) == NodeModel {
                                tag: n0.tag,
                                src: Some(name@),
                            });
                            assert(url_views(assets@) =~= url_views(before) + discovered_one(
                                n0,
                                page@.text,
                            ));
                        }
                    } else {
                        proof {
                            assert(!rewritable(n0, page@.text));
                            assert(html::nodes(*doc) =~= html::nodes(*doc).update(
                                i as int,
                                rewritten_node(n0, page@.text),
                            ));
                            assert(url_views(assets@) =~= url_views(assets@) + discovered_one(
                                n0,
                                page@.text,
                            ));
                        }
                    }
                },
            }
        },
    }
}

} // verus!
