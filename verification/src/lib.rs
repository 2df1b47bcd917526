//! A small verified web-page fetcher core: derives local file names from
//! URLs, filters fetched response bodies (pass-through or HTML-aware with
//! image-source rewriting), and plans the one-level asset fan-out.

pub mod filter;
pub mod html;
pub mod naming;
pub mod report;
pub mod task;
pub mod text;
pub mod urls;
