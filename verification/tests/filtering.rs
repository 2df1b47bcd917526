use webgrab::filter::{filter_html, filter_noop, FilterError};
use webgrab::urls::AbsUrl;

fn page() -> AbsUrl {
    AbsUrl::parse("http://site.test/").unwrap()
}

#[test]
fn pass_through_is_byte_identical() {
    let body = vec![0u8, 159, 255, 72, 101];
    let out = filter_noop(body.clone());
    assert_eq!(out, body);
}

#[test]
fn non_html_content_type_passes_through() {
    let body = vec![0x89, b'P', b'N', b'G', 0x0d];
    let o = filter_html(&page(), Some("image/png"), body.clone(), true).unwrap();
    assert_eq!(o.bytes, body);
    assert!(o.assets.is_empty());
    assert!(o.stats.is_none());
}

#[test]
fn missing_content_type_passes_through() {
    let body = b"<img src=\"/pic.png\">".to_vec();
    let o = filter_html(&page(), None, body.clone(), true).unwrap();
    assert_eq!(o.bytes, body);
    assert!(o.assets.is_empty());
    assert!(o.stats.is_none());
}

#[test]
fn html_without_rewrite_returns_original_text() {
    // Markup the parser would not round-trip exactly: stray spacing, odd
    // casing, an unclosed element.
    let body = b"<P ><img   SRC='/pic.png'>\n<a href='/x'>x".to_vec();
    let o = filter_html(&page(), Some("text/html"), body.clone(), false).unwrap();
    assert_eq!(o.bytes, body);
    assert!(o.assets.is_empty());
    assert!(o.stats.is_some());
}

#[test]
fn html_counts_links_and_images() {
    let body = b"<a href='/1'>one</a><div><a href='/2'>two</a><img src='/p.png'></div>".to_vec();
    let o = filter_html(&page(), Some("text/html; charset=utf-8"), body, false).unwrap();
    let st = o.stats.unwrap();
    assert_eq!(st.links, 2);
    assert_eq!(st.images, 1);
}

#[test]
fn rewrite_rewrites_img_src_to_derived_name() {
    let body = b"<img src=\"/pic.png\">".to_vec();
    let o = filter_html(&page(), Some("text/html"), body, true).unwrap();
    let out = String::from_utf8(o.bytes).unwrap();
    assert!(out.contains("site.test_pic.png"), "output was: {out}");
    assert!(!out.contains("\"/pic.png\""), "output was: {out}");
    assert_eq!(o.assets.len(), 1);
    assert_eq!(o.assets[0].text, "http://site.test/pic.png");
}

#[test]
fn rewrite_collects_assets_in_document_order() {
    let body =
        b"<img src='/a.png'><p><img src='b/c.png'></p><img no-src><img src='/a.png'>".to_vec();
    let o = filter_html(&page(), Some("text/html"), body, true).unwrap();
    let texts: Vec<&str> = o.assets.iter().map(|u| u.text.as_str()).collect();
    assert_eq!(
        texts,
        vec![
            "http://site.test/a.png",
            "http://site.test/b/c.png",
            "http://site.test/a.png",
        ]
    );
}

#[test]
fn rewrite_skips_unresolvable_src() {
    let body = b"<img src='http://'><img src='/ok.png'>".to_vec();
    let o = filter_html(&page(), Some("text/html"), body, true).unwrap();
    assert_eq!(o.assets.len(), 1);
    assert_eq!(o.assets[0].text, "http://site.test/ok.png");
    let out = String::from_utf8(o.bytes).unwrap();
    assert!(out.contains("src='http://'") || out.contains("http://"), "output was: {out}");
}

#[test]
fn invalid_utf8_body_fails_decode_for_html() {
    let body = vec![0xff, 0xfe, 0x48];
    let e = filter_html(&page(), Some("text/html"), body, true).unwrap_err();
    assert_eq!(e, FilterError::Decode);
}

#[test]
fn invalid_utf8_body_passes_through_when_not_html() {
    let body = vec![0xff, 0xfe, 0x48];
    let o = filter_html(&page(), Some("application/octet-stream"), body.clone(), true).unwrap();
    assert_eq!(o.bytes, body);
}

#[test]
fn relative_src_resolves_against_page_directory() {
    let base = AbsUrl::parse("http://site.test/dir/page.html").unwrap();
    let body = b"<img src='../up.png'>".to_vec();
    let o = filter_html(&base, Some("text/html"), body, true).unwrap();
    assert_eq!(o.assets.len(), 1);
    assert_eq!(o.assets[0].text, "http://site.test/up.png");
    let out = String::from_utf8(o.bytes).unwrap();
    assert!(out.contains("site.test_up.png"), "output was: {out}");
}
