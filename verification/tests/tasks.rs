use webgrab::filter::PageStats;
use webgrab::report::{metadata_line, report_line, usize_to_string};
use webgrab::task::{is_success, seed_tasks, Task, TaskError};
use webgrab::urls::{parse_seed_urls, AbsUrl};

#[test]
fn status_success_range() {
    assert!(is_success(200));
    assert!(is_success(204));
    assert!(is_success(299));
    assert!(!is_success(199));
    assert!(!is_success(300));
    assert!(!is_success(404));
    assert!(!is_success(500));
}

#[test]
fn non_success_status_fails_task_without_output() {
    let t = Task::new(AbsUrl::parse("http://site.test/").unwrap(), false);
    let e = t
        .process_response(404, Some("text/html"), b"ignored".to_vec(), true, true)
        .unwrap_err();
    assert_eq!(e, TaskError::Status(404));
}

#[test]
fn page_task_fans_out_and_asset_task_stays_raw() {
    // First wave: the page, with metadata and rewriting on.
    let page = Task::new(AbsUrl::parse("http://site.test/").unwrap(), false);
    assert_eq!(page.out_name, "site.test.html");
    let o = page
        .process_response(
            200,
            Some("text/html"),
            b"<img src=\"/pic.png\">".to_vec(),
            true,
            true,
        )
        .unwrap();
    let out = String::from_utf8(o.bytes).unwrap();
    assert!(out.contains("site.test_pic.png"), "output was: {out}");
    assert_eq!(o.follow_ups.len(), 1);
    let asset = &o.follow_ups[0];
    assert!(asset.is_asset);
    assert_eq!(asset.url.text, "http://site.test/pic.png");
    assert_eq!(asset.out_name, "site.test_pic.png");

    // Second wave: the asset is fetched raw and never fans out, whatever
    // switches the caller passes.
    let raw = vec![0x89, b'P', b'N', b'G'];
    let o2 = asset
        .process_response(200, Some("image/png"), raw.clone(), true, true)
        .unwrap();
    assert_eq!(o2.bytes, raw);
    assert!(o2.follow_ups.is_empty());
    assert!(o2.stats.is_none());

    let html_like = b"<img src=\"/again.png\">".to_vec();
    let o3 = asset
        .process_response(200, Some("text/html"), html_like.clone(), true, true)
        .unwrap();
    assert_eq!(o3.bytes, html_like);
    assert!(o3.follow_ups.is_empty());
}

#[test]
fn page_task_without_metadata_passes_through() {
    let page = Task::new(AbsUrl::parse("http://site.test/x").unwrap(), false);
    let body = b"<img src=\"/pic.png\">".to_vec();
    let o = page
        .process_response(200, Some("text/html"), body.clone(), false, true)
        .unwrap();
    assert_eq!(o.bytes, body);
    assert!(o.follow_ups.is_empty());
    assert!(o.stats.is_none());
}

#[test]
fn html_task_reports_decode_failure() {
    let page = Task::new(AbsUrl::parse("http://site.test/").unwrap(), false);
    let e = page
        .process_response(200, Some("text/html"), vec![0xff, 0xfe], true, false)
        .unwrap_err();
    assert_eq!(e, TaskError::Decode);
}

#[test]
fn seed_tasks_bind_urls_to_names() {
    let urls = vec![
        AbsUrl::parse("http://ex.com/a/b.png").unwrap(),
        AbsUrl::parse("http://ex.com/").unwrap(),
    ];
    let tasks = seed_tasks(&urls);
    assert_eq!(tasks.len(), 2);
    assert_eq!(tasks[0].out_name, "ex.com_a_b.png");
    assert_eq!(tasks[1].out_name, "ex.com.html");
    assert!(!tasks[0].is_asset);
    assert!(!tasks[1].is_asset);
}

#[test]
fn decimal_formatting_is_exact() {
    assert_eq!(usize_to_string(0), "0");
    assert_eq!(usize_to_string(7), "7");
    assert_eq!(usize_to_string(10), "10");
    assert_eq!(usize_to_string(10907), "10907");
    assert_eq!(usize_to_string(4294967295), "4294967295");
}

#[test]
fn metadata_line_is_exact() {
    let line = metadata_line("site.test", 2, 1, "Thu, 01 Jan 1970 00:00:00 +0000");
    assert_eq!(
        line,
        "site: site.test\nnum_links: 2\nimages: 1\nlast_fetch: Thu, 01 Jan 1970 00:00:00 +0000"
    );
}

#[test]
fn report_line_carries_counts_and_timestamp() {
    let line = report_line("site.test", &PageStats { links: 2, images: 1 });
    assert!(line.starts_with("site: site.test\nnum_links: 2\nimages: 1\nlast_fetch: "));
    // RFC 2822 timestamps, e.g. "Wed, 18 Feb 2015 23:16:09 +0000", are
    // never shorter than 25 characters.
    let time = line.rsplit("last_fetch: ").next().unwrap();
    assert!(time.len() >= 25, "timestamp was: {time}");
}

#[test]
fn seed_parsing_is_all_or_nothing() {
    let good = vec![
        "http://ex.com/a".to_string(),
        "http://other.test/".to_string(),
    ];
    let parsed = parse_seed_urls(&good).unwrap();
    assert_eq!(parsed.len(), 2);
    assert_eq!(parsed[0].text, "http://ex.com/a");
    let bad = vec!["http://ex.com/a".to_string(), "not a url".to_string()];
    assert!(parse_seed_urls(&bad).is_none());
}
