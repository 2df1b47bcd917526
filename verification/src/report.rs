//! The metadata summary line reported for each inspected HTML page.

use vstd::prelude::*;
use vstd::string::StringExecFns;

use crate::filter::PageStats;
use crate::text::push_char;

verus! {

/// The character for one decimal digit.
pub open spec fn digit_char(d: nat) -> char {
    ((d + 48) as u8) as char
}

/// The decimal digits of `n`, most significant first.
pub open spec fn dec_str(n: nat) -> Seq<char>
    decreases n,
{
    if n < 10 {
        seq![digit_char(n)]
    } else {
        dec_str(n / 10).push(digit_char(n % 10))
    }
}

fn digit_char_of(d: usize) -> (c: char)
    requires
        d < 10,
    ensures
        c == digit_char(d as nat),
{
    ((d as u8) + 48) as char
}

/// Formats `n` in decimal.
pub fn usize_to_string(n: usize) -> (r: String)
    ensures
        r@ == dec_str(n as nat),
    decreases n,
{
    if n < 10 {
        let mut s = String::new();
        push_char(&mut s, digit_char_of(n));
        proof {
            assert(s@ =~= seq![digit_char(n as nat)]);
        }
        s
    } else {
        let mut s = usize_to_string(n / 10);
        push_char(&mut s, digit_char_of(n % 10));
        s
    }
}

/// The metadata summary line for one inspected HTML page: the page's host,
/// its link and image counts, and the time of the fetch.
pub open spec fn metadata_line_spec(
    host: Seq<char>,
    links: nat,
    images: nat,
    time: Seq<char>,
) -> Seq<char> {
    "site: "@ + host + "\nnum_links: "@ + dec_str(links) + "\nimages: "@ + dec_str(images)
        + "\nlast_fetch: "@ + time
}

/// Builds the metadata summary line.
pub fn metadata_line(host: &str, links: usize, images: usize, time: &str) -> (r: String)
    ensures
        r@ == metadata_line_spec(host@, links as nat, images as nat, time@),
{
    let mut s = String::from_str("site: ");
    s.append(host);
    s.append("\nnum_links: ");
    s.append(usize_to_string(links).as_str());
    s.append("\nimages: ");
    s.append(usize_to_string(images).as_str());
    s.append("\nlast_fetch: ");
    s.append(time);
    proof {
        assert(s@ =~= metadata_line_spec(host@, links as nat, images as nat, time@));
    }
    s
}

/// Relies on chrono's `Local::now` and `DateTime::to_rfc2822`: the current
/// local time, formatted per RFC 2822. The result depends on the clock, so
/// nothing is promised of it.
#[verifier::external_body]
pub(crate) fn now_rfc2822() -> (r: String) {
    chrono::Local::now().to_rfc2822()
}

/// The metadata summary line for one inspected HTML page, stamped with the
/// current local time: the line is exact for whatever timestamp the clock
/// gave.
pub fn report_line(host: &str, stats: &PageStats) -> (r: String)
    ensures
        (exists|t: Seq<char>|
            r@ == metadata_line_spec(host@, stats.links as nat, stats.images as nat, t)),
{
    let time = now_rfc2822();
    let line = metadata_line(host, stats.links, stats.images, time.as_str());
    proof {
        assert(line@ == metadata_line_spec(
            host@,
            stats.links as nat,
            stats.images as nat,
            time@,
        ));
    }
    line
}

} // verus!
