//! The statistics dashboard page.
use vstd::prelude::*;
use crate::error::{Body, BodyView, Reply, ReplyView, header};
use crate::encoding::{escape_attr, escape_html, escaped_attr, escaped_text};
use crate::format::{format_url_host, url_host};
use crate::templates;
use crate::text::{dec, push_dec};

verus! {

/// The dashboard page: the template with the served directory, the bind address, the start
/// time (milliseconds after the Unix epoch) and the path of the data it polls filled in,
/// each escaped for where it stands.
pub open spec fn stats_html(
    root_dir: Seq<char>,
    host: Seq<char>,
    port: u16,
    started_at_ms: u64,
    dashboard_data_path: Seq<char>,
) -> Seq<char> {
    templates::stats_page_0()
        + escaped_text(root_dir)
        + templates::STATS_PAGE_1@
        + escaped_text(url_host(host))
        + templates::STATS_PAGE_2@
        + dec(port as nat)
        + templates::STATS_PAGE_3@
        + dec(started_at_ms as nat)
        + templates::stats_page_4()
        + escaped_attr(dashboard_data_path)
        + templates::STATS_PAGE_5@
}

/// Writes the dashboard page of a server serving `root_dir` on `host`:`port`, started at
/// `started_at_ms`, whose data is at `dashboard_data_path`.
pub fn render_stats_page(
    root_dir: &str,
    host: &str,
    port: u16,
    started_at_ms: u64,
    dashboard_data_path: &str,
) -> (r: String)
    ensures
        r@ == stats_html(root_dir@, host@, port, started_at_ms, dashboard_data_path@),
{
    let mut out = String::new();
    templates::push_stats_page_0(&mut out);
    let root = escape_html(root_dir);
    out.append(root.as_str());
    out.append(templates::STATS_PAGE_1);
    let url = format_url_host(host);
    let h = escape_html(url.as_str());
    out.append(h.as_str());
    out.append(templates::STATS_PAGE_2);
    push_dec(&mut out, port as u64);
    out.append(templates::STATS_PAGE_3);
    push_dec(&mut out, started_at_ms);
    templates::push_stats_page_4(&mut out);
    let data = escape_attr(dashboard_data_path);
    out.append(data.as_str());
    out.append(templates::STATS_PAGE_5);
    proof {
        assert(out@ =~= stats_html(root_dir@, host@, port, started_at_ms, dashboard_data_path@));
    }
    out
}

/// The reply that carries the dashboard page.
pub open spec fn stats_page_reply_view(html: Seq<char>) -> ReplyView {
    ReplyView {
        status: 200,
        headers: seq![("content-type"@, "text/html; charset=utf-8"@), ("cache-control"@, "no-cache"@)],
        body: BodyView::Text(html),
    }
}

/// The reply to a request for the dashboard page.
pub fn stats_page_reply(
    root_dir: &str,
    host: &str,
    port: u16,
    started_at_ms: u64,
    dashboard_data_path: &str,
) -> (r: Reply)
    ensures
        r@ == stats_page_reply_view(stats_html(root_dir@, host@, port, started_at_ms, dashboard_data_path@)),
{
    let html = render_stats_page(root_dir, host, port, started_at_ms, dashboard_data_path);
    let mut headers: Vec<(String, String)> = Vec::new();
    headers.push(header("content-type", "text/html; charset=utf-8"));
    headers.push(header("cache-control", "no-cache"));
    let r = Reply { status: 200, headers, body: Body::Text(html) };
    proof {
        assert(r@.headers =~= stats_page_reply_view(stats_html(root_dir@, host@, port, started_at_ms, dashboard_data_path@)).headers);
    }
    r
}

/// The dashboard page is the whole template, each of its parts in order, with the served
/// directory, the bind address, the port, the start time and the data path between them.
pub proof fn dashboard_page_is_the_whole_template(
    root_dir: Seq<char>,
    host: Seq<char>,
    port: u16,
    started_at_ms: u64,
    dashboard_data_path: Seq<char>,
)
    ensures
        stats_html(root_dir, host, port, started_at_ms, dashboard_data_path)
            == templates::STATS_PAGE_0_A@ + templates::STATS_PAGE_0_B@ + templates::STATS_PAGE_0_C@ + templates::STATS_PAGE_0_D@ + templates::STATS_PAGE_0_E@ + templates::STATS_PAGE_0_F@ + templates::STATS_PAGE_0_G@ + templates::STATS_PAGE_0_H@
            + escaped_text(root_dir) + templates::STATS_PAGE_1@ + escaped_text(url_host(host))
            + templates::STATS_PAGE_2@ + dec(port as nat) + templates::STATS_PAGE_3@ + dec(started_at_ms as nat)
            + templates::STATS_PAGE_4_A@ + templates::STATS_PAGE_4_B@ + templates::STATS_PAGE_4_C@ + templates::STATS_PAGE_4_D@ + templates::STATS_PAGE_4_E@ + templates::STATS_PAGE_4_F@ + templates::STATS_PAGE_4_G@ + templates::STATS_PAGE_4_H@ + templates::STATS_PAGE_4_I@ + templates::STATS_PAGE_4_J@ + templates::STATS_PAGE_4_K@ + templates::STATS_PAGE_4_L@
            + escaped_attr(dashboard_data_path) + templates::STATS_PAGE_5@,
{
    assert(stats_html(root_dir, host, port, started_at_ms, dashboard_data_path)
        =~= templates::STATS_PAGE_0_A@ + templates::STATS_PAGE_0_B@ + templates::STATS_PAGE_0_C@ + templates::STATS_PAGE_0_D@ + templates::STATS_PAGE_0_E@ + templates::STATS_PAGE_0_F@ + templates::STATS_PAGE_0_G@ + templates::STATS_PAGE_0_H@
            + escaped_text(root_dir) + templates::STATS_PAGE_1@ + escaped_text(url_host(host))
            + templates::STATS_PAGE_2@ + dec(port as nat) + templates::STATS_PAGE_3@ + dec(started_at_ms as nat)
            + templates::STATS_PAGE_4_A@ + templates::STATS_PAGE_4_B@ + templates::STATS_PAGE_4_C@ + templates::STATS_PAGE_4_D@ + templates::STATS_PAGE_4_E@ + templates::STATS_PAGE_4_F@ + templates::STATS_PAGE_4_G@ + templates::STATS_PAGE_4_H@ + templates::STATS_PAGE_4_I@ + templates::STATS_PAGE_4_J@ + templates::STATS_PAGE_4_K@ + templates::STATS_PAGE_4_L@
            + escaped_attr(dashboard_data_path) + templates::STATS_PAGE_5@);
}

} // verus!
