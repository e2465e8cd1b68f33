//! The directory listing page: the order of its entries, its rows, its breadcrumbs.
use vstd::prelude::*;
use vstd::seq_lib::*;
use crate::text::{
    chars_lt, chars_less, chars_of, dec, lemma_chars_lt_total, lemma_chars_lt_transitive, path_segments,
    push_dec, split_path, string_of_range, strings_view, trailing_ws, trim_end_bound,
};
use crate::encoding::{
    escape_attr, escape_html, escaped_attr, escaped_text, url_decode_inverts_url_encode, url_decoded,
    url_decoded_push_slash, url_encode, url_encoded,
};
use crate::format::{bytes_label, format_bytes, format_date, possible_date_label};
use crate::templates;

verus! {

broadcast use vstd::seq_lib::group_to_multiset_ensures;

/// One entry of a directory, as the listing shows it.
pub struct ListingEntry {
    pub name: String,
    pub is_dir: bool,
    /// The size in bytes, for regular files whose metadata could be read.
    pub size: Option<u64>,
    /// The modification time, in seconds after the Unix epoch, when known.
    pub modified: Option<i64>,
}

/// An entry as a mathematical value.
pub struct EntryView {
    pub name: Seq<char>,
    pub is_dir: bool,
    pub size: Option<u64>,
    pub modified: Option<i64>,
}

impl View for ListingEntry {
    type V = EntryView;

    open spec fn view(&self) -> EntryView {
        EntryView { name: self.name@, is_dir: self.is_dir, size: self.size, modified: self.modified }
    }
}

/// The entries of a vector, as values.
pub open spec fn entries_view(v: Seq<ListingEntry>) -> Seq<EntryView> {
    Seq::new(v.len(), |i: int| v[i]@)
}

/// The listing order: directories before files, then names in ascending order.
pub open spec fn entry_lt(x: EntryView, y: EntryView) -> bool {
    ||| (x.is_dir && !y.is_dir)
    ||| (x.is_dir == y.is_dir && chars_lt(x.name, y.name))
}

/// `x` may come before `y` in the listing.
pub open spec fn entry_le(x: EntryView, y: EntryView) -> bool {
    !entry_lt(y, x)
}

/// `s` is in listing order.
pub open spec fn in_listing_order(s: Seq<EntryView>) -> bool {
    forall|p: int, q: int| 0 <= p < q < s.len() ==> entry_le(#[trigger] s[p], #[trigger] s[q])
}

/// The listing order is transitive.
pub proof fn lemma_entry_le_transitive(x: EntryView, y: EntryView, z: EntryView)
    requires
        entry_le(x, y),
        entry_le(y, z),
    ensures
        entry_le(x, z),
{
    lemma_chars_lt_total(x.name, y.name);
    lemma_chars_lt_total(y.name, z.name);
    lemma_chars_lt_total(x.name, z.name);
    if x.is_dir == y.is_dir && y.is_dir == z.is_dir {
        if chars_lt(z.name, x.name) {
            if chars_lt(z.name, y.name) {
            } else if z.name == y.name {
            } else {
                lemma_chars_lt_transitive(y.name, z.name, x.name);
            }
        }
    }
}

proof fn lemma_entry_le_total(x: EntryView, y: EntryView)
    ensures
        entry_le(x, y) || entry_le(y, x),
{
    lemma_chars_lt_total(x.name, y.name);
}

fn copy_entry(e: &ListingEntry) -> (r: ListingEntry)
    ensures
        r@ == e@,
{
    ListingEntry { name: e.name.clone(), is_dir: e.is_dir, size: e.size, modified: e.modified }
}

/// Whether `x` comes strictly before `y` in the listing.
fn entry_less(x: &ListingEntry, y: &ListingEntry) -> (r: bool)
    ensures
        r == entry_lt(x@, y@),
{
    if x.is_dir && !y.is_dir {
        true
    } else if x.is_dir != y.is_dir {
        false
    } else {
        let a = chars_of(x.name.as_str());
        let b = chars_of(y.name.as_str());
        chars_less(&a, &b)
    }
}

fn merge(a: &Vec<ListingEntry>, b: &Vec<ListingEntry>) -> (r: Vec<ListingEntry>)
    requires
        in_listing_order(entries_view(a@)),
        in_listing_order(entries_view(b@)),
    ensures
        in_listing_order(entries_view(r@)),
        entries_view(r@).to_multiset() == entries_view(a@).to_multiset().add(entries_view(b@).to_multiset()),
{
    let ghost va = entries_view(a@);
    let ghost vb = entries_view(b@);
    let mut out: Vec<ListingEntry> = Vec::new();
    let mut i: usize = 0;
    let mut j: usize = 0;
    proof {
        assert(va.take(0) =~= Seq::<EntryView>::empty());
        assert(vb.take(0) =~= Seq::<EntryView>::empty());
        assert(entries_view(out@) =~= Seq::<EntryView>::empty());
    }
    while i < a.len() || j < b.len()
        invariant
            i <= a.len(),
            j <= b.len(),
            va == entries_view(a@),
            vb == entries_view(b@),
            in_listing_order(va),
            in_listing_order(vb),
            in_listing_order(entries_view(out@)),
            entries_view(out@).to_multiset() == va.take(i as int).to_multiset().add(vb.take(j as int).to_multiset()),
            forall|k: int| 0 <= k < out.len() ==> (i < a.len() ==> entry_le(#[trigger] entries_view(out@)[k], va[i as int])),
            forall|k: int| 0 <= k < out.len() ==> (j < b.len() ==> entry_le(#[trigger] entries_view(out@)[k], vb[j as int])),
        decreases a.len() + b.len() - i - j,
    {
        let ghost before = entries_view(out@);
        let take_a = if i < a.len() && j < b.len() {
            !entry_less(&b[j], &a[i])
        } else {
            i < a.len()
        };
        if take_a {
            let e = copy_entry(&a[i]);
            out.push(e);
            proof {
                let x = va[i as int];
                assert(entries_view(out@) =~= before.push(x));
                assert(va.take(i + 1) =~= va.take(i as int).push(x));
                assert forall|k: int| 0 <= k < out.len() && i + 1 < a.len() implies entry_le(#[trigger] entries_view(out@)[k], va[i + 1]) by {
                    assert(entry_le(va[i as int], va[i + 1]));
                    if k < before.len() {
                        lemma_entry_le_transitive(before[k], x, va[i + 1]);
                    }
                }
                assert forall|k: int| 0 <= k < out.len() && j < b.len() implies entry_le(#[trigger] entries_view(out@)[k], vb[j as int]) by {
                    if k == before.len() {
                    } else {
                    }
                }
                assert forall|p: int, q: int| 0 <= p < q < entries_view(out@).len() implies entry_le(#[trigger] entries_view(out@)[p], #[trigger] entries_view(out@)[q]) by {
                    if q == before.len() {
                    }
                }
            }
            i = i + 1;
        } else {
            let e = copy_entry(&b[j]);
            out.push(e);
            proof {
                let x = vb[j as int];
                if i < a.len() {
                    lemma_entry_le_total(x, va[i as int]);
                }
                assert(entries_view(out@) =~= before.push(x));
                assert(vb.take(j + 1) =~= vb.take(j as int).push(x));
                assert forall|k: int| 0 <= k < out.len() && j + 1 < b.len() implies entry_le(#[trigger] entries_view(out@)[k], vb[j + 1]) by {
                    assert(entry_le(vb[j as int], vb[j + 1]));
                    if k < before.len() {
                        lemma_entry_le_transitive(before[k], x, vb[j + 1]);
                    }
                }
                assert forall|k: int| 0 <= k < out.len() && i < a.len() implies entry_le(#[trigger] entries_view(out@)[k], va[i as int]) by {
                }
                assert forall|p: int, q: int| 0 <= p < q < entries_view(out@).len() implies entry_le(#[trigger] entries_view(out@)[p], #[trigger] entries_view(out@)[q]) by {
                    if q == before.len() {
                    }
                }
            }
            j = j + 1;
        }
    }
    proof {
        assert(va.take(a.len() as int) =~= va);
        assert(vb.take(b.len() as int) =~= vb);
    }
    out
}

/// Sorts entries into listing order (directories first, then by name).
pub fn sort_entries(v: Vec<ListingEntry>) -> (r: Vec<ListingEntry>)
    ensures
        in_listing_order(entries_view(r@)),
        entries_view(r@).to_multiset() == entries_view(v@).to_multiset(),
    decreases v.len(),
{
    if v.len() <= 1 {
        return v;
    }
    let mut left = v;
    let ghost whole = entries_view(left@);
    let mid = left.len() / 2;
    let right = left.split_off(mid);
    proof {
        assert(entries_view(left@) =~= whole.subrange(0, mid as int));
        assert(entries_view(right@) =~= whole.subrange(mid as int, whole.len() as int));
        assert(whole =~= whole.subrange(0, mid as int) + whole.subrange(mid as int, whole.len() as int));
        lemma_multiset_commutative(whole.subrange(0, mid as int), whole.subrange(mid as int, whole.len() as int));
    }
    let l = sort_entries(left);
    let r = sort_entries(right);
    merge(&l, &r)
}

} // verus!

verus! {

// ----------------------------------------------------------------------------
// Breadcrumbs
// ----------------------------------------------------------------------------

/// The percent-encoded segments joined by slashes.
pub open spec fn joined_encoded(segs: Seq<Seq<char>>) -> Seq<char>
    decreases segs.len(),
{
    if segs.len() == 0 {
        seq![]
    } else if segs.len() == 1 {
        url_encoded(segs[0])
    } else {
        joined_encoded(segs.drop_last()) + "/"@ + url_encoded(segs.last())
    }
}

/// The breadcrumb trail: the root, then one link per segment to the directory it ends.
pub open spec fn crumbs_text(segs: Seq<Seq<char>>) -> Seq<char>
    decreases segs.len(),
{
    if segs.len() == 0 {
        templates::ROOT_CRUMB@
    } else {
        crumbs_text(segs.drop_last()) + templates::CRUMB_0@ + "/"@ + joined_encoded(segs) + "/"@ + templates::CRUMB_1@
            + escaped_text(segs.last()) + templates::CRUMB_2@
    }
}

/// The breadcrumbs of a request path.
pub open spec fn breadcrumbs_text(request_path: Seq<char>) -> Seq<char> {
    crumbs_text(path_segments(request_path, false))
}

/// Writes the breadcrumb trail of `request_path`: a link to the root, then one link per
/// non-empty segment.
pub fn build_breadcrumbs(request_path: &str) -> (r: String)
    ensures
        r@ == breadcrumbs_text(request_path@),
{
    let cs = chars_of(request_path);
    let segs = split_path(&cs, false);
    let ghost sv = strings_view(segs@);
    let mut out = String::from_str(templates::ROOT_CRUMB);
    let mut prefix = String::new();
    let mut k: usize = 0;
    proof {
        assert(sv.take(0) =~= Seq::<Seq<char>>::empty());
    }
    while k < segs.len()
        invariant
            k <= segs.len(),
            sv == strings_view(segs@),
            sv == path_segments(request_path@, false),
            out@ == crumbs_text(sv.take(k as int)),
            k > 0 ==> prefix@ == "/"@ + joined_encoded(sv.take(k as int)),
        decreases segs.len() - k,
    {
        let seg = &segs[k];
        let enc = url_encode(seg.as_str());
        let ghost t = sv.take(k + 1);
        proof {
            assert(t.drop_last() =~= sv.take(k as int));
            assert(t.last() == seg@);
        }
        if k == 0 {
            prefix = String::from_str("/");
            prefix.append(enc.as_str());
            proof {
                assert(t.len() == 1);
                assert(joined_encoded(t) == url_encoded(t[0]));
            }
        } else {
            prefix.append("/");
            prefix.append(enc.as_str());
            proof {
                assert(prefix@ =~= "/"@ + joined_encoded(t));
            }
        }
        let esc = escape_html(seg.as_str());
        out.append(templates::CRUMB_0);
        out.append(prefix.as_str());
        out.append("/");
        out.append(templates::CRUMB_1);
        out.append(esc.as_str());
        out.append(templates::CRUMB_2);
        proof {
            assert(out@ =~= crumbs_text(t));
        }
        k = k + 1;
    }
    proof {
        assert(sv.take(segs.len() as int) =~= sv);
    }
    out
}

// ----------------------------------------------------------------------------
// Rows
// ----------------------------------------------------------------------------

/// The CSS class of an entry's kind.
pub open spec fn kind_class(is_dir: bool) -> Seq<char> {
    if is_dir { "directory"@ } else { "file"@ }
}

/// The translation key of an entry's kind.
pub open spec fn kind_key(is_dir: bool) -> Seq<char> {
    if is_dir { "kind_directory"@ } else { "kind_file"@ }
}

/// The English label of an entry's kind.
pub open spec fn kind_label(is_dir: bool) -> Seq<char> {
    if is_dir { "Directory"@ } else { "File"@ }
}

/// The translation key of the line under an entry's name.
pub open spec fn meta_key(is_dir: bool) -> Seq<char> {
    if is_dir { "entry_meta_directory"@ } else { "entry_meta_file"@ }
}

/// The English line under an entry's name.
pub open spec fn meta_label(is_dir: bool) -> Seq<char> {
    if is_dir { "Open folder"@ } else { "Download or preview file"@ }
}

/// The icon of an entry's kind.
pub open spec fn icon(is_dir: bool) -> Seq<char> {
    if is_dir { templates::ICON_DIRECTORY@ } else { templates::ICON_FILE@ }
}

/// A slash after the names of directories.
pub open spec fn trailing_slash(is_dir: bool) -> Seq<char> {
    if is_dir { "/"@ } else { ""@ }
}

/// The size column: `-` for directories, else the size of the file.
pub open spec fn size_text(e: EntryView) -> Seq<char> {
    if e.is_dir { "-"@ } else { bytes_label(e.size) }
}

/// The start of an entry's row: its name attribute, link and icon.
pub open spec fn row_link(e: EntryView) -> Seq<char> {
    templates::LISTING_ROW_0@ + escaped_attr(e.name) + templates::LISTING_ROW_1@ + kind_class(e.is_dir)
        + templates::LISTING_ROW_2@ + url_encoded(e.name) + trailing_slash(e.is_dir) + templates::LISTING_ROW_3@
        + kind_class(e.is_dir) + templates::LISTING_ROW_4@ + icon(e.is_dir)
}

/// The middle of an entry's row: its shown name and kind.
pub open spec fn row_name(e: EntryView) -> Seq<char> {
    templates::LISTING_ROW_5@ + escaped_text(e.name) + trailing_slash(e.is_dir) + templates::LISTING_ROW_6@
        + meta_key(e.is_dir) + templates::LISTING_ROW_7@ + meta_label(e.is_dir) + templates::LISTING_ROW_8@
        + kind_class(e.is_dir) + templates::LISTING_ROW_9@ + kind_key(e.is_dir) + templates::LISTING_ROW_10@
        + kind_label(e.is_dir)
}

/// The end of an entry's row: its size and modification date.
pub open spec fn row_meta(e: EntryView, date: Seq<char>) -> Seq<char> {
    templates::LISTING_ROW_11@ + size_text(e) + templates::LISTING_ROW_12@ + date + templates::LISTING_ROW_13@
}

/// The table row of an entry, with the text of its modification date.
pub open spec fn entry_row(e: EntryView, date: Seq<char>) -> Seq<char> {
    row_link(e) + row_name(e) + row_meta(e, date)
}

/// The rows of all entries, in order.
pub open spec fn rows_text(es: Seq<EntryView>, dates: Seq<Seq<char>>) -> Seq<char>
    decreases es.len(),
{
    if es.len() == 0 || dates.len() != es.len() {
        seq![]
    } else {
        rows_text(es.drop_last(), dates.drop_last()) + entry_row(es.last(), dates.last())
    }
}

fn push_row_link(out: &mut String, e: &ListingEntry)
    ensures
        final(out)@ == old(out)@ + row_link(e@),
{
    let d = e.is_dir;
    let class = if d { "directory" } else { "file" };
    out.append(templates::LISTING_ROW_0);
    out.append(escape_attr(e.name.as_str()).as_str());
    out.append(templates::LISTING_ROW_1);
    out.append(class);
    out.append(templates::LISTING_ROW_2);
    out.append(url_encode(e.name.as_str()).as_str());
    out.append(if d { "/" } else { "" });
    out.append(templates::LISTING_ROW_3);
    out.append(class);
    out.append(templates::LISTING_ROW_4);
    out.append(if d { templates::ICON_DIRECTORY } else { templates::ICON_FILE });
    proof {
        assert(final(out)@ =~= old(out)@ + row_link(e@));
    }
}

fn push_row_name(out: &mut String, e: &ListingEntry)
    ensures
        final(out)@ == old(out)@ + row_name(e@),
{
    let d = e.is_dir;
    out.append(templates::LISTING_ROW_5);
    out.append(escape_html(e.name.as_str()).as_str());
    out.append(if d { "/" } else { "" });
    out.append(templates::LISTING_ROW_6);
    out.append(if d { "entry_meta_directory" } else { "entry_meta_file" });
    out.append(templates::LISTING_ROW_7);
    out.append(if d { "Open folder" } else { "Download or preview file" });
    out.append(templates::LISTING_ROW_8);
    out.append(if d { "directory" } else { "file" });
    out.append(templates::LISTING_ROW_9);
    out.append(if d { "kind_directory" } else { "kind_file" });
    out.append(templates::LISTING_ROW_10);
    out.append(if d { "Directory" } else { "File" });
    proof {
        assert(final(out)@ =~= old(out)@ + row_name(e@));
    }
}

fn push_entry_row(out: &mut String, e: &ListingEntry, date: &str)
    ensures
        final(out)@ == old(out)@ + entry_row(e@, date@),
{
    push_row_link(out, e);
    push_row_name(out, e);
    out.append(templates::LISTING_ROW_11);
    if e.is_dir {
        out.append("-");
    } else {
        out.append(format_bytes(e.size).as_str());
    }
    out.append(templates::LISTING_ROW_12);
    out.append(date);
    out.append(templates::LISTING_ROW_13);
    proof {
        assert(final(out)@ =~= old(out)@ + entry_row(e@, date@));
    }
}

// ----------------------------------------------------------------------------
// Totals
// ----------------------------------------------------------------------------

/// Number of directories among the entries.
pub open spec fn directory_count(es: Seq<EntryView>) -> nat
    decreases es.len(),
{
    if es.len() == 0 { 0 } else { directory_count(es.drop_last()) + if es.last().is_dir { 1nat } else { 0nat } }
}

/// Number of files (non-directories) among the entries.
pub open spec fn file_count(es: Seq<EntryView>) -> nat
    decreases es.len(),
{
    if es.len() == 0 { 0 } else { file_count(es.drop_last()) + if es.last().is_dir { 0nat } else { 1nat } }
}

/// The sizes of the files added up, wrapping around at 2^64 as unsigned 64-bit addition does.
pub open spec fn total_file_size(es: Seq<EntryView>) -> u64
    decreases es.len(),
{
    if es.len() == 0 {
        0
    } else {
        let e = es.last();
        let add: u64 = if e.is_dir { 0 } else {
            match e.size { Some(s) => s, None => 0 }
        };
        total_file_size(es.drop_last()).wrapping_add(add)
    }
}

/// The latest of the known modification times.
pub open spec fn latest_modified(es: Seq<EntryView>) -> Option<i64>
    decreases es.len(),
{
    if es.len() == 0 {
        None
    } else {
        let prev = latest_modified(es.drop_last());
        match (prev, es.last().modified) {
            (None, Some(v)) => Some(v),
            (Some(c), Some(v)) => if v > c { Some(v) } else { Some(c) },
            (c, None) => c,
        }
    }
}

proof fn lemma_counts_bound(es: Seq<EntryView>)
    ensures
        directory_count(es) <= es.len(),
        file_count(es) <= es.len(),
    decreases es.len(),
{
    if es.len() > 0 {
        lemma_counts_bound(es.drop_last());
    }
}

// ----------------------------------------------------------------------------
// The page
// ----------------------------------------------------------------------------

/// `s` without its trailing whitespace, as `str::trim_end` gives it.
pub open spec fn trim_end(s: Seq<char>) -> Seq<char> {
    s.take(s.len() - trailing_ws(s))
}

/// The parent-directory row, shown below the root only.
pub open spec fn parent_row(request_path: Seq<char>) -> Seq<char> {
    if request_path != "/"@ { templates::PARENT_ROW@ } else { ""@ }
}

/// The placeholder row: an empty directory, or (hidden) a filter that matches nothing.
pub open spec fn empty_state(es: Seq<EntryView>) -> Seq<char> {
    if es.len() == 0 { templates::EMPTY_DIRECTORY_ROW@ } else { templates::NO_MATCH_ROW@ }
}

/// The top of the listing page: title, header, path, breadcrumbs.
pub open spec fn page_head(request_path: Seq<char>, dir_display: Seq<char>, dashboard_path: Seq<char>) -> Seq<char> {
    let rp_html = escaped_text(request_path);
    templates::LISTING_PAGE_0@ + rp_html + templates::listing_page_1() + escaped_attr(request_path)
        + templates::LISTING_PAGE_2@ + rp_html + templates::LISTING_PAGE_3@ + escaped_attr(dashboard_path)
        + templates::LISTING_PAGE_4@ + escaped_text(dir_display) + templates::LISTING_PAGE_5@ + rp_html
        + templates::LISTING_PAGE_6@ + breadcrumbs_text(request_path) + templates::LISTING_PAGE_7@
}

/// The summary cards of the listing page: counts, total size, latest change.
pub open spec fn page_summary(es: Seq<EntryView>, latest_date: Seq<char>) -> Seq<char> {
    dec(directory_count(es)) + templates::LISTING_PAGE_8@ + dec(file_count(es)) + templates::LISTING_PAGE_9@
        + bytes_label(Some(total_file_size(es))) + templates::LISTING_PAGE_10@ + latest_date
        + templates::LISTING_PAGE_11@
}

/// The table of the listing page and the rest of the page.
pub open spec fn page_table(request_path: Seq<char>, es: Seq<EntryView>, dates: Seq<Seq<char>>) -> Seq<char> {
    parent_row(request_path) + templates::LISTING_PAGE_12@ + trim_end(rows_text(es, dates))
        + templates::LISTING_PAGE_13@ + empty_state(es) + templates::listing_page_14()
}

/// The listing page of a directory whose entries are `es`, in the order given, with the
/// texts of their modification dates and of the latest one.
pub open spec fn listing_html(
    request_path: Seq<char>,
    dir_display: Seq<char>,
    dashboard_path: Seq<char>,
    es: Seq<EntryView>,
    dates: Seq<Seq<char>>,
    latest_date: Seq<char>,
) -> Seq<char> {
    page_head(request_path, dir_display, dashboard_path) + page_summary(es, latest_date)
        + page_table(request_path, es, dates)
}

fn push_page_head(out: &mut String, request_path: &str, dir_display: &str, dashboard_path: &str)
    ensures
        final(out)@ == old(out)@ + page_head(request_path@, dir_display@, dashboard_path@),
{
    let rp_html = escape_html(request_path);
    out.append(templates::LISTING_PAGE_0);
    out.append(rp_html.as_str());
    templates::push_listing_page_1(out);
    out.append(escape_attr(request_path).as_str());
    out.append(templates::LISTING_PAGE_2);
    out.append(rp_html.as_str());
    out.append(templates::LISTING_PAGE_3);
    out.append(escape_attr(dashboard_path).as_str());
    out.append(templates::LISTING_PAGE_4);
    out.append(escape_html(dir_display).as_str());
    out.append(templates::LISTING_PAGE_5);
    out.append(rp_html.as_str());
    out.append(templates::LISTING_PAGE_6);
    out.append(build_breadcrumbs(request_path).as_str());
    out.append(templates::LISTING_PAGE_7);
    proof {
        assert(final(out)@ =~= old(out)@ + page_head(request_path@, dir_display@, dashboard_path@));
    }
}

/// Counts, total size and latest modification time of the entries.
fn totals(entries: &Vec<ListingEntry>) -> (r: (u64, u64, u64, Option<i64>))
    ensures
        r.0 as nat == directory_count(entries_view(entries@)),
        r.1 as nat == file_count(entries_view(entries@)),
        r.2 == total_file_size(entries_view(entries@)),
        r.3 == latest_modified(entries_view(entries@)),
{
    let ghost ev = entries_view(entries@);
    let mut dirs: u64 = 0;
    let mut files: u64 = 0;
    let mut total: u64 = 0;
    let mut latest: Option<i64> = None;
    let mut i: usize = 0;
    proof {
        assert(ev.take(0) =~= Seq::<EntryView>::empty());
    }
    while i < entries.len()
        invariant
            i <= entries.len(),
            ev == entries_view(entries@),
            dirs as nat == directory_count(ev.take(i as int)),
            files as nat == file_count(ev.take(i as int)),
            total == total_file_size(ev.take(i as int)),
            latest == latest_modified(ev.take(i as int)),
        decreases entries.len() - i,
    {
        let e = &entries[i];
        proof {
            assert(ev.take(i + 1).drop_last() =~= ev.take(i as int));
            lemma_counts_bound(ev.take(i as int));
        }
        if e.is_dir {
            dirs = dirs + 1;
        } else {
            files = files + 1;
            let add: u64 = match e.size { Some(s) => s, None => 0 };
            total = total.wrapping_add(add);
        }
        latest = match (latest, e.modified) {
            (None, Some(v)) => Some(v),
            (Some(c), Some(v)) => if v > c { Some(v) } else { Some(c) },
            (c, None) => c,
        };
        i = i + 1;
    }
    proof {
        assert(ev.take(entries.len() as int) =~= ev);
    }
    (dirs, files, total, latest)
}

fn push_page_summary(out: &mut String, entries: &Vec<ListingEntry>, latest_date: &str)
    ensures
        final(out)@ == old(out)@ + page_summary(entries_view(entries@), latest_date@),
{
    let (dirs, files, total, _latest) = totals(entries);
    push_dec(out, dirs);
    out.append(templates::LISTING_PAGE_8);
    push_dec(out, files);
    out.append(templates::LISTING_PAGE_9);
    out.append(format_bytes(Some(total)).as_str());
    out.append(templates::LISTING_PAGE_10);
    out.append(latest_date);
    out.append(templates::LISTING_PAGE_11);
    proof {
        assert(final(out)@ =~= old(out)@ + page_summary(entries_view(entries@), latest_date@));
    }
}

/// The rows of the entries, without the trailing whitespace.
fn rows_trimmed(entries: &Vec<ListingEntry>, dates: &Vec<String>) -> (r: String)
    requires
        dates.len() == entries.len(),
    ensures
        r@ == trim_end(rows_text(entries_view(entries@), strings_view(dates@))),
{
    let ghost ev = entries_view(entries@);
    let ghost dv = strings_view(dates@);
    let mut rows = String::new();
    let mut i: usize = 0;
    while i < entries.len()
        invariant
            i <= entries.len(),
            dates.len() == entries.len(),
            ev == entries_view(entries@),
            dv == strings_view(dates@),
            rows@ == rows_text(ev.take(i as int), dv.take(i as int)),
        decreases entries.len() - i,
    {
        push_entry_row(&mut rows, &entries[i], dates[i].as_str());
        proof {
            assert(ev.take(i + 1).drop_last() =~= ev.take(i as int));
            assert(dv.take(i + 1).drop_last() =~= dv.take(i as int));
        }
        i = i + 1;
    }
    proof {
        assert(ev.take(entries.len() as int) =~= ev);
        assert(dv.take(entries.len() as int) =~= dv);
    }
    let cs = chars_of(rows.as_str());
    let end = trim_end_bound(&cs);
    string_of_range(&cs, 0, end)
}

fn push_page_table(out: &mut String, request_path: &str, entries: &Vec<ListingEntry>, dates: &Vec<String>)
    requires
        dates.len() == entries.len(),
    ensures
        final(out)@ == old(out)@ + page_table(request_path@, entries_view(entries@), strings_view(dates@)),
{
    let rp = chars_of(request_path);
    let is_root = rp.len() == 1 && rp[0] == '/';
    proof {
        reveal_strlit("/");
        if is_root {
            assert(request_path@ =~= "/"@);
        }
        if request_path@ == "/"@ {
            assert(rp@.len() == 1 && rp@[0] == '/');
        }
    }
    if !is_root {
        out.append(templates::PARENT_ROW);
    } else {
        out.append("");
    }
    out.append(templates::LISTING_PAGE_12);
    out.append(rows_trimmed(entries, dates).as_str());
    out.append(templates::LISTING_PAGE_13);
    if entries.len() == 0 {
        out.append(templates::EMPTY_DIRECTORY_ROW);
    } else {
        out.append(templates::NO_MATCH_ROW);
    }
    templates::push_listing_page_14(out);
    proof {
        assert(final(out)@ =~= old(out)@ + page_table(request_path@, entries_view(entries@), strings_view(dates@)));
    }
}

/// Writes the listing page of a directory whose entries are given in the order to show,
/// with the texts of their modification dates and of the latest one.
pub fn listing_page(
    request_path: &str,
    dir_display: &str,
    dashboard_path: &str,
    entries: &Vec<ListingEntry>,
    dates: &Vec<String>,
    latest_date: &str,
) -> (r: String)
    requires
        dates.len() == entries.len(),
    ensures
        r@ == listing_html(request_path@, dir_display@, dashboard_path@, entries_view(entries@), strings_view(dates@), latest_date@),
{
    let mut out = String::new();
    push_page_head(&mut out, request_path, dir_display, dashboard_path);
    push_page_summary(&mut out, entries, latest_date);
    push_page_table(&mut out, request_path, entries, dates);
    proof {
        assert(out@ =~= listing_html(request_path@, dir_display@, dashboard_path@, entries_view(entries@), strings_view(dates@), latest_date@));
    }
    out
}

/// The entries of a directory, with the name the directory is shown under.
pub struct DirectoryContents {
    pub display: String,
    pub entries: Vec<ListingEntry>,
}

/// `html` is a listing page of a directory with the given entries: the entries in listing
/// order (directories first, then by name), each with a possible label of its modification
/// date, and a possible label of the latest one.
pub open spec fn is_listing_of(
    request_path: Seq<char>,
    dir_display: Seq<char>,
    dashboard_path: Seq<char>,
    entries: Seq<EntryView>,
    html: Seq<char>,
) -> bool {
    exists|s: Seq<EntryView>, d: Seq<Seq<char>>, l: Seq<char>| {
        &&& in_listing_order(s)
        &&& s.to_multiset() == entries.to_multiset()
        &&& d.len() == s.len()
        &&& forall|i: int| 0 <= i < s.len() ==> possible_date_label(s[i].modified, #[trigger] d[i])
        &&& possible_date_label(latest_modified(s), l)
        &&& html == listing_html(request_path, dir_display, dashboard_path, s, d, l)
    }
}

/// Writes the listing page of a directory: its entries in listing order (directories first,
/// then by name), each with its size and local modification date, and the totals.
pub fn generate_listing_html(
    request_path: &str,
    dir_display: &str,
    dashboard_path: &str,
    entries: Vec<ListingEntry>,
) -> (r: String)
    ensures
        is_listing_of(request_path@, dir_display@, dashboard_path@, entries_view(entries@), r@),
{
    let sorted = sort_entries(entries);
    let mut dates: Vec<String> = Vec::new();
    let mut i: usize = 0;
    while i < sorted.len()
        invariant
            i <= sorted.len(),
            dates.len() == i,
            forall|k: int| 0 <= k < i ==> possible_date_label(sorted@[k].modified, #[trigger] strings_view(dates@)[k]),
        decreases sorted.len() - i,
    {
        let label = format_date(sorted[i].modified);
        let ghost before = dates@;
        dates.push(label);
        proof {
            assert forall|k: int| 0 <= k < i + 1 implies possible_date_label(sorted@[k].modified, #[trigger] strings_view(dates@)[k]) by {
                if k < i {
                    assert(strings_view(dates@)[k] == strings_view(before)[k]);
                }
            }
        }
        i = i + 1;
    }
    let (_dirs, _files, _total, latest) = totals(&sorted);
    let latest_date = format_date(latest);
    let html = listing_page(request_path, dir_display, dashboard_path, &sorted, &dates, latest_date.as_str());
    proof {
        let s = entries_view(sorted@);
        let d = strings_view(dates@);
        assert forall|i: int| 0 <= i < s.len() implies possible_date_label(s[i].modified, #[trigger] d[i]) by {
            assert(s[i].modified == sorted@[i].modified);
        }
    }
    html
}

/// The link of an entry in the listing names the entry: decoded as a request path is, it is
/// the entry's name (with `/` after a directory), whatever characters the name holds.
pub proof fn entry_link_names_the_entry(name: Seq<char>, is_dir: bool)
    ensures
        url_decoded(url_encoded(name) + trailing_slash(is_dir)) == Some(name + trailing_slash(is_dir)),
{
    reveal_strlit("");
    url_decode_inverts_url_encode(name);
    if is_dir {
        url_decoded_push_slash(url_encoded(name));
    } else {
        assert(url_encoded(name) + ""@ =~= url_encoded(name));
        assert(name + ""@ =~= name);
    }
}

/// Which entries are directories.
pub open spec fn is_directory_entry() -> spec_fn(EntryView) -> bool {
    |e: EntryView| e.is_dir
}

/// Which entries are files.
pub open spec fn is_file_entry() -> spec_fn(EntryView) -> bool {
    |e: EntryView| !e.is_dir
}

proof fn lemma_counts_are_filters(s: Seq<EntryView>)
    ensures
        directory_count(s) == s.filter(is_directory_entry()).len(),
        file_count(s) == s.filter(is_file_entry()).len(),
    decreases s.len(),
{
    reveal(Seq::filter);
    if s.len() > 0 {
        lemma_counts_are_filters(s.drop_last());
    }
}

proof fn lemma_counts_remove(t: Seq<EntryView>, i: int)
    requires
        0 <= i < t.len(),
    ensures
        directory_count(t) == directory_count(t.remove(i)) + if t[i].is_dir { 1int } else { 0int },
        file_count(t) == file_count(t.remove(i)) + if t[i].is_dir { 0int } else { 1int },
    decreases t.len(),
{
    if i == t.len() - 1 {
        assert(t.remove(i) =~= t.drop_last());
    } else {
        lemma_counts_remove(t.drop_last(), i);
        assert(t.remove(i).drop_last() =~= t.drop_last().remove(i));
        assert(t.remove(i).last() == t.last());
    }
}

proof fn lemma_counts_permutation(s: Seq<EntryView>, t: Seq<EntryView>)
    requires
        s.to_multiset() == t.to_multiset(),
    ensures
        directory_count(s) == directory_count(t),
        file_count(s) == file_count(t),
    decreases s.len(),
{
    if s.len() == 0 {
        assert(t.to_multiset().len() == 0);
    } else {
        let x = s.last();
        assert(s.drop_last().push(x) =~= s);
        assert(s.to_multiset().contains(x));
        assert(t.contains(x));
        let i = choose|i: int| 0 <= i < t.len() && t[i] == x;
        assert(t.remove(i).to_multiset() =~= t.to_multiset().remove(x));
        assert(s.drop_last().to_multiset() =~= s.to_multiset().remove(x));
        lemma_counts_permutation(s.drop_last(), t.remove(i));
        lemma_counts_remove(t, i);
    }
}

proof fn lemma_summary_in_page(
    request_path: Seq<char>,
    dir_display: Seq<char>,
    dashboard_path: Seq<char>,
    s: Seq<EntryView>,
    d: Seq<Seq<char>>,
    l: Seq<char>,
)
    ensures
        exists|pre: Seq<char>, post: Seq<char>| listing_html(request_path, dir_display, dashboard_path, s, d, l)
            == pre + templates::LISTING_PAGE_7@ + dec(directory_count(s)) + templates::LISTING_PAGE_8@
            + dec(file_count(s)) + templates::LISTING_PAGE_9@ + post,
{
    let rp_html = escaped_text(request_path);
    let pre = templates::LISTING_PAGE_0@ + rp_html + templates::listing_page_1() + escaped_attr(request_path)
        + templates::LISTING_PAGE_2@ + rp_html + templates::LISTING_PAGE_3@ + escaped_attr(dashboard_path)
        + templates::LISTING_PAGE_4@ + escaped_text(dir_display) + templates::LISTING_PAGE_5@ + rp_html
        + templates::LISTING_PAGE_6@ + breadcrumbs_text(request_path);
    let post = bytes_label(Some(total_file_size(s))) + templates::LISTING_PAGE_10@ + l
        + templates::LISTING_PAGE_11@ + page_table(request_path, s, d);
    assert(page_head(request_path, dir_display, dashboard_path) == pre + templates::LISTING_PAGE_7@);
    assert(listing_html(request_path, dir_display, dashboard_path, s, d, l) =~= pre + templates::LISTING_PAGE_7@
        + dec(directory_count(s)) + templates::LISTING_PAGE_8@ + dec(file_count(s)) + templates::LISTING_PAGE_9@ + post);
}

/// The summary of a listing page counts the entries it was given: after the `Folders` label
/// comes the number of directory entries, and after the `Files` label the number of the other
/// entries.
pub proof fn summary_counts_folders_and_files(
    request_path: Seq<char>,
    dir_display: Seq<char>,
    dashboard_path: Seq<char>,
    entries: Seq<EntryView>,
    html: Seq<char>,
)
    requires
        is_listing_of(request_path, dir_display, dashboard_path, entries, html),
    ensures
        exists|pre: Seq<char>, post: Seq<char>| html == pre + templates::LISTING_PAGE_7@
            + dec(entries.filter(is_directory_entry()).len()) + templates::LISTING_PAGE_8@
            + dec(entries.filter(is_file_entry()).len()) + templates::LISTING_PAGE_9@ + post,
{
    let (s, d, l) = choose|s: Seq<EntryView>, d: Seq<Seq<char>>, l: Seq<char>| {
        &&& in_listing_order(s)
        &&& s.to_multiset() == entries.to_multiset()
        &&& d.len() == s.len()
        &&& forall|i: int| 0 <= i < s.len() ==> possible_date_label(s[i].modified, #[trigger] d[i])
        &&& possible_date_label(latest_modified(s), l)
        &&& html == listing_html(request_path, dir_display, dashboard_path, s, d, l)
    };
    lemma_counts_permutation(s, entries);
    lemma_counts_are_filters(entries);
    lemma_summary_in_page(request_path, dir_display, dashboard_path, s, d, l);
}

/// The row of a directory links to its name with a trailing slash, shows the folder icon,
/// the folder labels, and `-` in place of a size.
pub proof fn directory_row_is_the_row_template(e: EntryView, date: Seq<char>)
    requires
        e.is_dir,
    ensures
        entry_row(e, date)
            == templates::LISTING_ROW_0@ + escaped_attr(e.name) + templates::LISTING_ROW_1@ + "directory"@
            + templates::LISTING_ROW_2@ + url_encoded(e.name) + "/"@ + templates::LISTING_ROW_3@ + "directory"@
            + templates::LISTING_ROW_4@ + templates::ICON_DIRECTORY@
            + templates::LISTING_ROW_5@ + escaped_text(e.name) + "/"@ + templates::LISTING_ROW_6@ + "entry_meta_directory"@
            + templates::LISTING_ROW_7@ + "Open folder"@ + templates::LISTING_ROW_8@ + "directory"@
            + templates::LISTING_ROW_9@ + "kind_directory"@ + templates::LISTING_ROW_10@ + "Directory"@
            + templates::LISTING_ROW_11@ + "-"@ + templates::LISTING_ROW_12@ + date + templates::LISTING_ROW_13@,
{
    assert(entry_row(e, date)
        =~= templates::LISTING_ROW_0@ + escaped_attr(e.name) + templates::LISTING_ROW_1@ + "directory"@
            + templates::LISTING_ROW_2@ + url_encoded(e.name) + "/"@ + templates::LISTING_ROW_3@ + "directory"@
            + templates::LISTING_ROW_4@ + templates::ICON_DIRECTORY@
            + templates::LISTING_ROW_5@ + escaped_text(e.name) + "/"@ + templates::LISTING_ROW_6@ + "entry_meta_directory"@
            + templates::LISTING_ROW_7@ + "Open folder"@ + templates::LISTING_ROW_8@ + "directory"@
            + templates::LISTING_ROW_9@ + "kind_directory"@ + templates::LISTING_ROW_10@ + "Directory"@
            + templates::LISTING_ROW_11@ + "-"@ + templates::LISTING_ROW_12@ + date + templates::LISTING_ROW_13@);
}

/// The row of a file links to its name, shows the file icon, the file labels and the
/// file's size.
pub proof fn file_row_is_the_row_template(e: EntryView, date: Seq<char>)
    requires
        !e.is_dir,
    ensures
        entry_row(e, date)
            == templates::LISTING_ROW_0@ + escaped_attr(e.name) + templates::LISTING_ROW_1@ + "file"@
            + templates::LISTING_ROW_2@ + url_encoded(e.name) + ""@ + templates::LISTING_ROW_3@ + "file"@
            + templates::LISTING_ROW_4@ + templates::ICON_FILE@
            + templates::LISTING_ROW_5@ + escaped_text(e.name) + ""@ + templates::LISTING_ROW_6@ + "entry_meta_file"@
            + templates::LISTING_ROW_7@ + "Download or preview file"@ + templates::LISTING_ROW_8@ + "file"@
            + templates::LISTING_ROW_9@ + "kind_file"@ + templates::LISTING_ROW_10@ + "File"@
            + templates::LISTING_ROW_11@ + bytes_label(e.size) + templates::LISTING_ROW_12@ + date + templates::LISTING_ROW_13@,
{
    assert(entry_row(e, date)
        =~= templates::LISTING_ROW_0@ + escaped_attr(e.name) + templates::LISTING_ROW_1@ + "file"@
            + templates::LISTING_ROW_2@ + url_encoded(e.name) + ""@ + templates::LISTING_ROW_3@ + "file"@
            + templates::LISTING_ROW_4@ + templates::ICON_FILE@
            + templates::LISTING_ROW_5@ + escaped_text(e.name) + ""@ + templates::LISTING_ROW_6@ + "entry_meta_file"@
            + templates::LISTING_ROW_7@ + "Download or preview file"@ + templates::LISTING_ROW_8@ + "file"@
            + templates::LISTING_ROW_9@ + "kind_file"@ + templates::LISTING_ROW_10@ + "File"@
            + templates::LISTING_ROW_11@ + bytes_label(e.size) + templates::LISTING_ROW_12@ + date + templates::LISTING_ROW_13@);
}

/// The listing page is the whole template, each of its parts in order, with the request
/// path, the directory shown, the dashboard path, the breadcrumbs, the number of folders and
/// of files, the total size, the latest change and the rows between them.
#[verifier::rlimit(80)]
pub proof fn listing_page_holds_the_whole_template(
    request_path: Seq<char>,
    dir_display: Seq<char>,
    dashboard_path: Seq<char>,
    es: Seq<EntryView>,
    dates: Seq<Seq<char>>,
    latest_date: Seq<char>,
)
    ensures
        listing_html(request_path, dir_display, dashboard_path, es, dates, latest_date)
            == templates::LISTING_PAGE_0@ + escaped_text(request_path) + templates::LISTING_PAGE_1_A@ + templates::LISTING_PAGE_1_B@ + templates::LISTING_PAGE_1_C@ + templates::LISTING_PAGE_1_D@ + templates::LISTING_PAGE_1_E@ + templates::LISTING_PAGE_1_F@ + templates::LISTING_PAGE_1_G@
            + escaped_attr(request_path) + templates::LISTING_PAGE_2@ + escaped_text(request_path) + templates::LISTING_PAGE_3@
            + escaped_attr(dashboard_path) + templates::LISTING_PAGE_4@ + escaped_text(dir_display) + templates::LISTING_PAGE_5@
            + escaped_text(request_path) + templates::LISTING_PAGE_6@ + breadcrumbs_text(request_path) + templates::LISTING_PAGE_7@
            + dec(es.filter(is_directory_entry()).len()) + templates::LISTING_PAGE_8@
            + dec(es.filter(is_file_entry()).len()) + templates::LISTING_PAGE_9@
            + bytes_label(Some(total_file_size(es))) + templates::LISTING_PAGE_10@ + latest_date + templates::LISTING_PAGE_11@
            + parent_row(request_path) + templates::LISTING_PAGE_12@ + trim_end(rows_text(es, dates)) + templates::LISTING_PAGE_13@
            + empty_state(es)
            + templates::LISTING_PAGE_14_A@ + templates::LISTING_PAGE_14_B@ + templates::LISTING_PAGE_14_C@ + templates::LISTING_PAGE_14_D@,
{
    let rp = request_path;
    let g1 = templates::LISTING_PAGE_0@ + escaped_text(rp) + templates::LISTING_PAGE_1_A@ + templates::LISTING_PAGE_1_B@ + templates::LISTING_PAGE_1_C@ + templates::LISTING_PAGE_1_D@ + templates::LISTING_PAGE_1_E@ + templates::LISTING_PAGE_1_F@ + templates::LISTING_PAGE_1_G@;
    let g2 = escaped_attr(rp) + templates::LISTING_PAGE_2@ + escaped_text(rp) + templates::LISTING_PAGE_3@
        + escaped_attr(dashboard_path) + templates::LISTING_PAGE_4@ + escaped_text(dir_display) + templates::LISTING_PAGE_5@
        + escaped_text(rp) + templates::LISTING_PAGE_6@ + breadcrumbs_text(rp) + templates::LISTING_PAGE_7@;
    let f2 = g1 + escaped_attr(rp) + templates::LISTING_PAGE_2@ + escaped_text(rp) + templates::LISTING_PAGE_3@
        + escaped_attr(dashboard_path) + templates::LISTING_PAGE_4@ + escaped_text(dir_display) + templates::LISTING_PAGE_5@
        + escaped_text(rp) + templates::LISTING_PAGE_6@ + breadcrumbs_text(rp) + templates::LISTING_PAGE_7@;
    assert(page_head(rp, dir_display, dashboard_path) =~= g1 + g2);
    assert(f2 =~= g1 + g2);
    lemma_counts_are_filters(es);
    let g3 = dec(es.filter(is_directory_entry()).len()) + templates::LISTING_PAGE_8@
        + dec(es.filter(is_file_entry()).len()) + templates::LISTING_PAGE_9@
        + bytes_label(Some(total_file_size(es))) + templates::LISTING_PAGE_10@ + latest_date + templates::LISTING_PAGE_11@;
    let f3 = f2 + dec(es.filter(is_directory_entry()).len()) + templates::LISTING_PAGE_8@
        + dec(es.filter(is_file_entry()).len()) + templates::LISTING_PAGE_9@
        + bytes_label(Some(total_file_size(es))) + templates::LISTING_PAGE_10@ + latest_date + templates::LISTING_PAGE_11@;
    assert(page_summary(es, latest_date) == g3);
    assert(f3 =~= f2 + g3);
    let g4 = parent_row(rp) + templates::LISTING_PAGE_12@ + trim_end(rows_text(es, dates)) + templates::LISTING_PAGE_13@
        + empty_state(es);
    let g5 = templates::LISTING_PAGE_14_A@ + templates::LISTING_PAGE_14_B@ + templates::LISTING_PAGE_14_C@ + templates::LISTING_PAGE_14_D@;
    let f4 = f3 + parent_row(rp) + templates::LISTING_PAGE_12@ + trim_end(rows_text(es, dates)) + templates::LISTING_PAGE_13@
        + empty_state(es);
    let f5 = f4 + templates::LISTING_PAGE_14_A@ + templates::LISTING_PAGE_14_B@ + templates::LISTING_PAGE_14_C@ + templates::LISTING_PAGE_14_D@;
    assert(page_table(rp, es, dates) =~= g4 + g5);
    assert(f4 =~= f3 + g4);
    assert(f5 =~= f4 + g5);
    lemma_concat_associative(f2 + g3, g4, g5);
}

} // verus!
