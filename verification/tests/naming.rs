use webgrab::naming::filename_for_url;
use webgrab::urls::AbsUrl;

#[test]
fn derives_underscored_name_for_file_path() {
    let u = AbsUrl::parse("http://ex.com/a/b.png").unwrap();
    assert_eq!(filename_for_url(&u), "ex.com_a_b.png");
}

#[test]
fn derives_html_name_for_root_path() {
    let u = AbsUrl::parse("http://ex.com/").unwrap();
    assert_eq!(filename_for_url(&u), "ex.com.html");
}

#[test]
fn derives_html_name_for_bare_host() {
    // Parsing normalizes a bare authority to the root path.
    let u = AbsUrl::parse("http://ex.com").unwrap();
    assert_eq!(u.path, "/");
    assert_eq!(filename_for_url(&u), "ex.com.html");
}

#[test]
fn derives_underscored_name_for_directory_path() {
    // A trailing slash after a named segment still has a file-name segment
    // in the sense of the original path semantics.
    let u = AbsUrl::parse("http://ex.com/a/").unwrap();
    assert_eq!(filename_for_url(&u), "ex.com_a_");
}

#[test]
fn parse_normalizes_host_and_dot_segments() {
    let u = AbsUrl::parse("HTTP://EX.com/a/../b.png").unwrap();
    assert_eq!(u.host, "ex.com");
    assert_eq!(u.path, "/b.png");
    assert_eq!(u.text, "http://ex.com/b.png");
}

#[test]
fn parse_rejects_relative_and_hostless() {
    assert!(AbsUrl::parse("no scheme here").is_none());
    assert!(AbsUrl::parse("/just/a/path").is_none());
    assert!(AbsUrl::parse("data:text/plain,hello").is_none());
}

#[test]
fn resolve_follows_relative_references() {
    let base = "http://site.test/dir/page.html";
    let u = AbsUrl::resolve(base, "../img/x.png").unwrap();
    assert_eq!(u.text, "http://site.test/img/x.png");
    let v = AbsUrl::resolve(base, "y.png").unwrap();
    assert_eq!(v.text, "http://site.test/dir/y.png");
    let w = AbsUrl::resolve(base, "//cdn.test/z.png").unwrap();
    assert_eq!(w.host, "cdn.test");
}

#[test]
fn resolve_keeps_absolute_references() {
    let u = AbsUrl::resolve("http://site.test/", "http://other.test/a.png").unwrap();
    assert_eq!(u.text, "http://other.test/a.png");
}

#[test]
fn resolve_rejects_unresolvable() {
    assert!(AbsUrl::resolve("http://site.test/", "http://").is_none());
    assert!(AbsUrl::resolve("not a base", "x.png").is_none());
}
