//! Request statistics: counts by route, client, method and status, and the latest requests.
use vstd::prelude::*;
use vstd::seq_lib::*;
use crate::text::{
    chars_less, chars_lt, chars_of, lemma_chars_lt_total, lemma_chars_lt_transitive, parse_unsigned,
    parse_unsigned_chars,
};

verus! {

broadcast use vstd::seq_lib::group_to_multiset_ensures;

/// How many of the latest requests are kept.
pub const MAX_RECENT_REQUESTS: usize = 1000;
/// How many distinct routes are counted one by one; the others are counted together.
pub const MAX_TRACKED_ROUTE_KEYS: usize = 2048;
/// How many distinct clients are counted one by one; the others are counted together.
pub const MAX_TRACKED_CLIENT_KEYS: usize = 1024;

/// A request that was answered, as the statistics see it.
pub struct RequestEvent {
    pub method: String,
    /// The path, with `?...` in place of a query.
    pub path: String,
    /// The path without the query.
    pub route: String,
    pub status: u16,
    pub duration_ms: u64,
    pub client_ip: Option<String>,
    pub user_agent: Option<String>,
    /// The size of the reply's body, when known.
    pub response_bytes: Option<u64>,
}

/// A request in the list of the latest ones.
pub struct RequestRecord {
    /// When it was recorded, in milliseconds after the Unix epoch.
    pub timestamp_ms: u64,
    pub method: String,
    pub path: String,
    pub route: String,
    pub status: u16,
    pub duration_ms: u64,
    pub client_ip: Option<String>,
    pub user_agent: Option<String>,
    pub response_bytes: Option<u64>,
}

/// A label and how many requests had it.
pub struct CountItem {
    pub label: String,
    pub count: u64,
}

/// A status code and how many replies had it.
#[derive(Clone, Copy)]
pub struct StatusCountItem {
    pub status: u16,
    pub count: u64,
}

/// Where the server runs.
pub struct ServerSnapshot {
    pub root_dir: String,
    pub host: String,
    pub port: u16,
    pub pid: u32,
}

/// Optional text as a value.
pub open spec fn opt_view(o: Option<String>) -> Option<Seq<char>> {
    match o {
        Some(s) => Some(s@),
        None => None,
    }
}

/// An event as a mathematical value.
pub struct EventView {
    pub method: Seq<char>,
    pub path: Seq<char>,
    pub route: Seq<char>,
    pub status: u16,
    pub duration_ms: u64,
    pub client_ip: Option<Seq<char>>,
    pub user_agent: Option<Seq<char>>,
    pub response_bytes: Option<u64>,
}

impl View for RequestEvent {
    type V = EventView;

    open spec fn view(&self) -> EventView {
        EventView {
            method: self.method@,
            path: self.path@,
            route: self.route@,
            status: self.status,
            duration_ms: self.duration_ms,
            client_ip: opt_view(self.client_ip),
            user_agent: opt_view(self.user_agent),
            response_bytes: self.response_bytes,
        }
    }
}

/// A record as a mathematical value.
pub struct RecordView {
    pub timestamp_ms: u64,
    pub method: Seq<char>,
    pub path: Seq<char>,
    pub route: Seq<char>,
    pub status: u16,
    pub duration_ms: u64,
    pub client_ip: Option<Seq<char>>,
    pub user_agent: Option<Seq<char>>,
    pub response_bytes: Option<u64>,
}

impl View for RequestRecord {
    type V = RecordView;

    open spec fn view(&self) -> RecordView {
        RecordView {
            timestamp_ms: self.timestamp_ms,
            method: self.method@,
            path: self.path@,
            route: self.route@,
            status: self.status,
            duration_ms: self.duration_ms,
            client_ip: opt_view(self.client_ip),
            user_agent: opt_view(self.user_agent),
            response_bytes: self.response_bytes,
        }
    }
}

/// The record of an event recorded at `now_ms`.
pub open spec fn record_of(e: EventView, now_ms: u64) -> RecordView {
    RecordView {
        timestamp_ms: now_ms,
        method: e.method,
        path: e.path,
        route: e.route,
        status: e.status,
        duration_ms: e.duration_ms,
        client_ip: e.client_ip,
        user_agent: e.user_agent,
        response_bytes: e.response_bytes,
    }
}

/// The size of the reply to an event, or zero when unknown.
pub open spec fn reply_size(e: EventView) -> u64 {
    match e.response_bytes {
        Some(b) => b,
        None => 0,
    }
}

/// Records as values.
pub open spec fn records_view(v: Seq<RequestRecord>) -> Seq<RecordView> {
    Seq::new(v.len(), |i: int| v[i]@)
}

/// A count as a mathematical value.
pub struct CountView {
    pub label: Seq<char>,
    pub count: u64,
}

impl View for CountItem {
    type V = CountView;

    open spec fn view(&self) -> CountView {
        CountView { label: self.label@, count: self.count }
    }
}

/// Counts as values.
pub open spec fn counts_view(v: Seq<CountItem>) -> Seq<CountView> {
    Seq::new(v.len(), |i: int| v[i]@)
}

// ----------------------------------------------------------------------------
// Tables of counts
// ----------------------------------------------------------------------------

/// The sum of the counts.
pub open spec fn count_total(s: Seq<CountView>) -> nat
    decreases s.len(),
{
    if s.len() == 0 { 0 } else { count_total(s.drop_last()) + s.last().count as nat }
}

/// The index of the item with label `l`, if any.
pub open spec fn find_label(s: Seq<CountView>, l: Seq<char>) -> Option<int>
    decreases s.len(),
{
    if s.len() == 0 {
        None
    } else if s.last().label == l {
        Some(s.len() - 1)
    } else {
        find_label(s.drop_last(), l)
    }
}

/// No label occurs twice, and every count is at least one.
pub open spec fn table_wf(s: Seq<CountView>) -> bool {
    &&& forall|i: int, j: int| 0 <= i < j < s.len() ==> #[trigger] s[i].label != #[trigger] s[j].label
    &&& forall|i: int| 0 <= i < s.len() ==> #[trigger] s[i].count >= 1
}

/// The table after one more request with label `l`: the label's count goes up by one; a new
/// label is added with a count of one while there are fewer than `cap` labels, and is not
/// counted otherwise.
pub open spec fn bumped(s: Seq<CountView>, l: Seq<char>, cap: nat) -> Seq<CountView> {
    match find_label(s, l) {
        Some(i) => s.update(i, CountView { label: l, count: (s[i].count + 1) as u64 }),
        None => if s.len() < cap { s.push(CountView { label: l, count: 1 }) } else { s },
    }
}

/// Whether one more request with label `l` is counted under its own label.
pub open spec fn is_counted(s: Seq<CountView>, l: Seq<char>, cap: nat) -> bool {
    find_label(s, l) is Some || s.len() < cap
}

proof fn lemma_find_label(s: Seq<CountView>, l: Seq<char>, k: int)
    requires
        0 <= k <= s.len(),
        forall|j: int| k <= j < s.len() ==> #[trigger] s[j].label != l,
    ensures
        k > 0 && s[k - 1].label == l ==> find_label(s, l) == Some(k - 1),
        k == 0 ==> find_label(s, l) is None,
    decreases s.len(),
{
    if s.len() > k {
        assert forall|j: int| k <= j < s.drop_last().len() implies #[trigger] s.drop_last()[j].label != l by {
            assert(s.drop_last()[j] == s[j]);
        }
        lemma_find_label(s.drop_last(), l, k);
    }
}

proof fn lemma_find_label_found(s: Seq<CountView>, l: Seq<char>)
    ensures
        find_label(s, l) matches Some(i) ==> 0 <= i < s.len() && s[i].label == l,
        find_label(s, l) is None ==> forall|j: int| 0 <= j < s.len() ==> #[trigger] s[j].label != l,
    decreases s.len(),
{
    if s.len() > 0 && s.last().label != l {
        lemma_find_label_found(s.drop_last(), l);
        if find_label(s, l) is None {
            assert forall|j: int| 0 <= j < s.len() implies #[trigger] s[j].label != l by {
                if j < s.len() - 1 {
                    assert(s.drop_last()[j] == s[j]);
                }
            }
        }
    }
}

proof fn lemma_count_total_update(s: Seq<CountView>, i: int, x: CountView)
    requires
        0 <= i < s.len(),
    ensures
        count_total(s.update(i, x)) == count_total(s) - s[i].count + x.count,
    decreases s.len(),
{
    if i < s.len() - 1 {
        lemma_count_total_update(s.drop_last(), i, x);
        assert(s.update(i, x).drop_last() =~= s.drop_last().update(i, x));
    } else {
        assert(s.update(i, x).drop_last() =~= s.drop_last());
    }
}

proof fn lemma_count_total_push(s: Seq<CountView>, x: CountView)
    ensures
        count_total(s.push(x)) == count_total(s) + x.count,
{
    assert(s.push(x).drop_last() =~= s);
}

proof fn lemma_len_le_total(s: Seq<CountView>)
    requires
        table_wf(s),
    ensures
        s.len() <= count_total(s),
    decreases s.len(),
{
    if s.len() > 0 {
        assert(table_wf(s.drop_last())) by {
            assert forall|i: int, j: int| 0 <= i < j < s.drop_last().len() implies
                #[trigger] s.drop_last()[i].label != #[trigger] s.drop_last()[j].label by {
                assert(s.drop_last()[i] == s[i] && s.drop_last()[j] == s[j]);
            }
            assert forall|i: int| 0 <= i < s.drop_last().len() implies #[trigger] s.drop_last()[i].count >= 1 by {
                assert(s.drop_last()[i] == s[i]);
            }
        }
        lemma_len_le_total(s.drop_last());
        assert(s[s.len() - 1].count >= 1);
    }
}

proof fn lemma_count_le_total(s: Seq<CountView>, i: int)
    requires
        0 <= i < s.len(),
    ensures
        s[i].count <= count_total(s),
    decreases s.len(),
{
    if i < s.len() - 1 {
        lemma_count_le_total(s.drop_last(), i);
    }
}

/// Counts of requests by a text label, each label once.
pub struct CountTable {
    pub items: Vec<CountItem>,
}

impl View for CountTable {
    type V = Seq<CountView>;

    open spec fn view(&self) -> Seq<CountView> {
        counts_view(self.items@)
    }
}

impl CountTable {
    /// An empty table.
    pub fn new() -> (t: CountTable)
        ensures
            t@ == Seq::<CountView>::empty(),
    {
        CountTable { items: Vec::new() }
    }

    /// The number of labels.
    pub fn len(&self) -> (n: usize)
        ensures
            n == self@.len(),
    {
        self.items.len()
    }

    /// The index of `label`, if it is in the table.
    fn find(&self, label: &String) -> (r: Option<usize>)
        ensures
            match r {
                Some(i) => find_label(self@, label@) == Some(i as int),
                None => find_label(self@, label@) is None,
            },
    {
        let mut k: usize = self.items.len();
        while k > 0 && self.items[k - 1].label != *label
            invariant
                k <= self.items.len(),
                forall|j: int| k <= j < self@.len() ==> #[trigger] self@[j].label != label@,
            decreases k,
        {
            k = k - 1;
        }
        proof {
            lemma_find_label(self@, label@, k as int);
        }
        if k > 0 { Some(k - 1) } else { None }
    }

    /// Counts one more request with `label`; a new label is only taken while the table has
    /// fewer than `cap` labels. Returns whether the request was counted.
    pub fn bump(&mut self, label: &String, cap: u64) -> (counted: bool)
        requires
            table_wf(old(self)@),
            count_total(old(self)@) < u64::MAX,
        ensures
            table_wf(final(self)@),
            final(self)@ == bumped(old(self)@, label@, cap as nat),
            counted == is_counted(old(self)@, label@, cap as nat),
            count_total(final(self)@) == count_total(old(self)@) + if counted { 1int } else { 0int },
            old(self)@.len() <= cap ==> final(self)@.len() <= cap,
    {
        let ghost s = self@;
        proof {
            lemma_find_label_found(s, label@);
        }
        match self.find(label) {
            Some(i) => {
                proof {
                    lemma_count_le_total(s, i as int);
                }
                let c = self.items[i].count + 1;
                let item = CountItem { label: label.clone(), count: c };
                self.items.set(i, item);
                proof {
                    let x = CountView { label: label@, count: c };
                    assert(self@ =~= s.update(i as int, x));
                    lemma_count_total_update(s, i as int, x);
                }
                true
            },
            None => {
                if (self.items.len() as u64) < cap {
                    self.items.push(CountItem { label: label.clone(), count: 1 });
                    proof {
                        let x = CountView { label: label@, count: 1 };
                        assert(self@ =~= s.push(x));
                        lemma_count_total_push(s, x);
                    }
                    true
                } else {
                    false
                }
            },
        }
    }
}

// ----------------------------------------------------------------------------
// Counts by status
// ----------------------------------------------------------------------------

/// The sum of the counts.
pub open spec fn status_total(s: Seq<StatusCountItem>) -> nat
    decreases s.len(),
{
    if s.len() == 0 { 0 } else { status_total(s.drop_last()) + s.last().count as nat }
}

/// The index of the item with status `st`, if any.
pub open spec fn find_status(s: Seq<StatusCountItem>, st: u16) -> Option<int>
    decreases s.len(),
{
    if s.len() == 0 {
        None
    } else if s.last().status == st {
        Some(s.len() - 1)
    } else {
        find_status(s.drop_last(), st)
    }
}

/// No status occurs twice, and every count is at least one.
pub open spec fn status_table_wf(s: Seq<StatusCountItem>) -> bool {
    &&& forall|i: int, j: int| 0 <= i < j < s.len() ==> #[trigger] s[i].status != #[trigger] s[j].status
    &&& forall|i: int| 0 <= i < s.len() ==> #[trigger] s[i].count >= 1
}

/// The table after one more reply with status `st`.
pub open spec fn status_bumped(s: Seq<StatusCountItem>, st: u16) -> Seq<StatusCountItem> {
    match find_status(s, st) {
        Some(i) => s.update(i, StatusCountItem { status: st, count: (s[i].count + 1) as u64 }),
        None => s.push(StatusCountItem { status: st, count: 1 }),
    }
}

proof fn lemma_find_status(s: Seq<StatusCountItem>, st: u16, k: int)
    requires
        0 <= k <= s.len(),
        forall|j: int| k <= j < s.len() ==> #[trigger] s[j].status != st,
    ensures
        k > 0 && s[k - 1].status == st ==> find_status(s, st) == Some(k - 1),
        k == 0 ==> find_status(s, st) is None,
    decreases s.len(),
{
    if s.len() > k {
        assert forall|j: int| k <= j < s.drop_last().len() implies #[trigger] s.drop_last()[j].status != st by {
            assert(s.drop_last()[j] == s[j]);
        }
        lemma_find_status(s.drop_last(), st, k);
    }
}

proof fn lemma_find_status_found(s: Seq<StatusCountItem>, st: u16)
    ensures
        find_status(s, st) matches Some(i) ==> 0 <= i < s.len() && s[i].status == st,
        find_status(s, st) is None ==> forall|j: int| 0 <= j < s.len() ==> #[trigger] s[j].status != st,
    decreases s.len(),
{
    if s.len() > 0 && s.last().status != st {
        lemma_find_status_found(s.drop_last(), st);
        if find_status(s, st) is None {
            assert forall|j: int| 0 <= j < s.len() implies #[trigger] s[j].status != st by {
                if j < s.len() - 1 {
                    assert(s.drop_last()[j] == s[j]);
                }
            }
        }
    }
}

proof fn lemma_status_total_update(s: Seq<StatusCountItem>, i: int, x: StatusCountItem)
    requires
        0 <= i < s.len(),
    ensures
        status_total(s.update(i, x)) == status_total(s) - s[i].count + x.count,
    decreases s.len(),
{
    if i < s.len() - 1 {
        lemma_status_total_update(s.drop_last(), i, x);
        assert(s.update(i, x).drop_last() =~= s.drop_last().update(i, x));
    } else {
        assert(s.update(i, x).drop_last() =~= s.drop_last());
    }
}

proof fn lemma_status_le_total(s: Seq<StatusCountItem>, i: int)
    requires
        0 <= i < s.len(),
    ensures
        s[i].count <= status_total(s),
    decreases s.len(),
{
    if i < s.len() - 1 {
        lemma_status_le_total(s.drop_last(), i);
    }
}

/// Counts of replies by status code, each status once.
pub struct StatusTable {
    pub items: Vec<StatusCountItem>,
}

impl View for StatusTable {
    type V = Seq<StatusCountItem>;

    open spec fn view(&self) -> Seq<StatusCountItem> {
        self.items@
    }
}

impl StatusTable {
    /// An empty table.
    pub fn new() -> (t: StatusTable)
        ensures
            t@ == Seq::<StatusCountItem>::empty(),
    {
        StatusTable { items: Vec::new() }
    }

    /// Counts one more reply with status `st`.
    pub fn bump(&mut self, st: u16)
        requires
            status_table_wf(old(self)@),
            status_total(old(self)@) < u64::MAX,
        ensures
            status_table_wf(final(self)@),
            final(self)@ == status_bumped(old(self)@, st),
            status_total(final(self)@) == status_total(old(self)@) + 1,
    {
        let ghost s = self@;
        proof {
            lemma_find_status_found(s, st);
        }
        let mut k: usize = self.items.len();
        while k > 0 && self.items[k - 1].status != st
            invariant
                k <= self.items.len(),
                self@ == s,
                forall|j: int| k <= j < s.len() ==> #[trigger] s[j].status != st,
            decreases k,
        {
            k = k - 1;
        }
        proof {
            lemma_find_status(s, st, k as int);
        }
        if k > 0 {
            let i = k - 1;
            proof {
                lemma_status_le_total(s, i as int);
            }
            let c = self.items[i].count + 1;
            self.items.set(i, StatusCountItem { status: st, count: c });
            proof {
                lemma_status_total_update(s, i as int, StatusCountItem { status: st, count: c });
            }
        } else {
            self.items.push(StatusCountItem { status: st, count: 1 });
            proof {
                assert(self@.drop_last() =~= s);
            }
        }
    }
}

// ----------------------------------------------------------------------------
// The statistics of a server
// ----------------------------------------------------------------------------

/// What is counted of the requests a server answered.
pub struct RequestMetrics {
    pub total_requests: u64,
    /// The sum of the known reply sizes, modulo 2^64.
    pub total_bytes_sent: u64,
    /// When the last request was recorded, in milliseconds after the Unix epoch.
    pub last_request_at_ms: Option<u64>,
    pub route_counts: CountTable,
    pub client_counts: CountTable,
    pub method_counts: CountTable,
    pub status_counts: StatusTable,
    /// The latest requests, newest first.
    pub recent_requests: Vec<RequestRecord>,
    /// Whether some route was not counted under its own name.
    pub route_count_overflowed: bool,
    /// Whether some client was not counted under its own address.
    pub client_count_overflowed: bool,
    /// The requests whose route was not counted under its own name.
    pub other_route_requests: u64,
    /// The requests whose client was not counted under its own address.
    pub other_client_requests: u64,
}

/// The first `n` items of `s`, or all of them when there are fewer.
pub open spec fn capped<T>(s: Seq<T>, n: nat) -> Seq<T> {
    if s.len() > n { s.take(n as int) } else { s }
}

impl RequestMetrics {
    /// The invariant of the statistics: every request is counted once by method, once by
    /// status and once by route (under its own name or among the others); clients are
    /// counted at most once per request; the tables and the list of latest requests stay
    /// within their bounds; and a flag of overflow is set exactly when something was counted
    /// among the others.
    pub open spec fn wf(&self) -> bool {
        &&& table_wf(self.route_counts@)
        &&& table_wf(self.client_counts@)
        &&& table_wf(self.method_counts@)
        &&& status_table_wf(self.status_counts@)
        &&& count_total(self.method_counts@) == self.total_requests
        &&& status_total(self.status_counts@) == self.total_requests
        &&& count_total(self.route_counts@) + self.other_route_requests == self.total_requests
        &&& count_total(self.client_counts@) + self.other_client_requests <= self.total_requests
        &&& self.route_counts@.len() <= MAX_TRACKED_ROUTE_KEYS
        &&& self.client_counts@.len() <= MAX_TRACKED_CLIENT_KEYS
        &&& self.recent_requests@.len() <= MAX_RECENT_REQUESTS
        &&& self.route_count_overflowed == (self.other_route_requests > 0)
        &&& self.client_count_overflowed == (self.other_client_requests > 0)
    }

    /// No request counted yet.
    pub fn new() -> (m: RequestMetrics)
        ensures
            m.wf(),
            m.total_requests == 0,
            m.total_bytes_sent == 0,
            m.last_request_at_ms is None,
            m.route_counts@.len() == 0,
            m.client_counts@.len() == 0,
            m.method_counts@.len() == 0,
            m.status_counts@.len() == 0,
            m.recent_requests@.len() == 0,
    {
        RequestMetrics {
            total_requests: 0,
            total_bytes_sent: 0,
            last_request_at_ms: None,
            route_counts: CountTable::new(),
            client_counts: CountTable::new(),
            method_counts: CountTable::new(),
            status_counts: StatusTable::new(),
            recent_requests: Vec::new(),
            route_count_overflowed: false,
            client_count_overflowed: false,
            other_route_requests: 0,
            other_client_requests: 0,
        }
    }

    /// Counts a request answered at `now_ms` (milliseconds after the Unix epoch), and puts it
    /// first among the latest requests, of which at most a thousand are kept.
    pub fn record_request(&mut self, event: RequestEvent, now_ms: u64)
        requires
            old(self).wf(),
            old(self).total_requests < u64::MAX,
        ensures
            final(self).wf(),
            final(self).total_requests == old(self).total_requests + 1,
            final(self).total_bytes_sent == old(self).total_bytes_sent.wrapping_add(reply_size(event@)),
            final(self).last_request_at_ms == Some(now_ms),
            final(self).method_counts@ == bumped(old(self).method_counts@, event.method@, u64::MAX as nat),
            final(self).status_counts@ == status_bumped(old(self).status_counts@, event.status),
            final(self).route_counts@ == bumped(old(self).route_counts@, event.route@, MAX_TRACKED_ROUTE_KEYS as nat),
            final(self).route_count_overflowed == (old(self).route_count_overflowed
                || !is_counted(old(self).route_counts@, event.route@, MAX_TRACKED_ROUTE_KEYS as nat)),
            final(self).client_count_overflowed == (old(self).client_count_overflowed || match event.client_ip {
                Some(ip) => !is_counted(old(self).client_counts@, ip@, MAX_TRACKED_CLIENT_KEYS as nat),
                None => false,
            }),
            final(self).other_route_requests == old(self).other_route_requests
                + if is_counted(old(self).route_counts@, event.route@, MAX_TRACKED_ROUTE_KEYS as nat) { 0int } else { 1int },
            match event.client_ip {
                Some(ip) => {
                    &&& final(self).client_counts@ == bumped(old(self).client_counts@, ip@, MAX_TRACKED_CLIENT_KEYS as nat)
                    &&& final(self).other_client_requests == old(self).other_client_requests
                        + if is_counted(old(self).client_counts@, ip@, MAX_TRACKED_CLIENT_KEYS as nat) { 0int } else { 1int }
                },
                None => {
                    &&& final(self).client_counts@ == old(self).client_counts@
                    &&& final(self).other_client_requests == old(self).other_client_requests
                },
            },
            records_view(final(self).recent_requests@) == capped(
                seq![record_of(event@, now_ms)] + records_view(old(self).recent_requests@),
                MAX_RECENT_REQUESTS as nat,
            ),
            final(self).recent_requests@.len() >= 1,
            final(self).recent_requests@[0].timestamp_ms == now_ms,
            final(self).recent_requests@[0].method@ == event.method@,
            final(self).recent_requests@[0].path@ == event.path@,
            final(self).recent_requests@[0].route@ == event.route@,
            final(self).recent_requests@[0].status == event.status,
            final(self).recent_requests@[0].duration_ms == event.duration_ms,
            opt_view(final(self).recent_requests@[0].client_ip) == opt_view(event.client_ip),
            opt_view(final(self).recent_requests@[0].user_agent) == opt_view(event.user_agent),
            final(self).recent_requests@[0].response_bytes == event.response_bytes,
    {
        let ghost old_recent = records_view(self.recent_requests@);
        let ghost ev = event@;
        self.total_requests = self.total_requests + 1;
        let bytes = match event.response_bytes {
            Some(b) => b,
            None => 0,
        };
        self.total_bytes_sent = self.total_bytes_sent.wrapping_add(bytes);
        self.last_request_at_ms = Some(now_ms);
        proof {
            lemma_len_le_total(self.method_counts@);
        }
        let _ = self.method_counts.bump(&event.method, u64::MAX);
        self.status_counts.bump(event.status);
        let counted_route = self.route_counts.bump(&event.route, MAX_TRACKED_ROUTE_KEYS as u64);
        if !counted_route {
            self.route_count_overflowed = true;
            self.other_route_requests = self.other_route_requests + 1;
        }
        if let Some(ip) = &event.client_ip {
            let counted_client = self.client_counts.bump(ip, MAX_TRACKED_CLIENT_KEYS as u64);
            if !counted_client {
                self.client_count_overflowed = true;
                self.other_client_requests = self.other_client_requests + 1;
            }
        }
        let record = RequestRecord {
            timestamp_ms: now_ms,
            method: event.method,
            path: event.path,
            route: event.route,
            status: event.status,
            duration_ms: event.duration_ms,
            client_ip: event.client_ip,
            user_agent: event.user_agent,
            response_bytes: event.response_bytes,
        };
        self.recent_requests.insert(0, record);
        if self.recent_requests.len() > MAX_RECENT_REQUESTS {
            self.recent_requests.truncate(MAX_RECENT_REQUESTS);
        }
        proof {
            let full = seq![record_of(ev, now_ms)] + old_recent;
            assert(records_view(self.recent_requests@) =~= capped(full, MAX_RECENT_REQUESTS as nat));
        }
    }
}

// ----------------------------------------------------------------------------
// Ordering counts
// ----------------------------------------------------------------------------

/// The order of a top list: larger counts first, then labels in ascending order.
pub open spec fn count_before(x: CountView, y: CountView) -> bool {
    ||| x.count > y.count
    ||| (x.count == y.count && chars_lt(x.label, y.label))
}

/// `x` may come before `y` in a top list.
pub open spec fn count_le(x: CountView, y: CountView) -> bool {
    !count_before(y, x)
}

/// `s` is in the order of a top list.
pub open spec fn in_count_order(s: Seq<CountView>) -> bool {
    forall|p: int, q: int| 0 <= p < q < s.len() ==> count_le(#[trigger] s[p], #[trigger] s[q])
}

/// The order of top lists is transitive.
pub proof fn lemma_count_le_transitive(x: CountView, y: CountView, z: CountView)
    requires
        count_le(x, y),
        count_le(y, z),
    ensures
        count_le(x, z),
{
    lemma_chars_lt_total(x.label, y.label);
    lemma_chars_lt_total(y.label, z.label);
    lemma_chars_lt_total(x.label, z.label);
    if x.count == y.count && y.count == z.count {
        if chars_lt(z.label, x.label) {
            if chars_lt(z.label, y.label) {
            } else if z.label == y.label {
            } else {
                lemma_chars_lt_transitive(y.label, z.label, x.label);
            }
        }
    }
}

proof fn lemma_count_le_either(x: CountView, y: CountView)
    ensures
        count_le(x, y) || count_le(y, x),
{
    lemma_chars_lt_total(x.label, y.label);
}

proof fn lemma_count_le_total_ordering()
    ensures
        vstd::relations::total_ordering(|x: CountView, y: CountView| count_le(x, y)),
{
    let leq = |x: CountView, y: CountView| count_le(x, y);
    assert forall|x: CountView| #[trigger] leq(x, x) by {
        crate::text::lemma_chars_lt_irreflexive(x.label);
    }
    assert forall|x: CountView, y: CountView| #[trigger] leq(x, y) && #[trigger] leq(y, x) implies x == y by {
        lemma_chars_lt_total(x.label, y.label);
    }
    assert forall|x: CountView, y: CountView, z: CountView| #[trigger] leq(x, y) && #[trigger] leq(y, z) implies leq(x, z) by {
        lemma_count_le_transitive(x, y, z);
    }
    assert forall|x: CountView, y: CountView| #[trigger] leq(x, y) || #[trigger] leq(y, x) by {
        lemma_count_le_either(x, y);
    }
}

/// A top list is determined by the counts it is made of: two top lists of the same items,
/// cut at the same length, are equal.
pub proof fn top_list_is_determined(
    items: Seq<CountView>,
    limit: nat,
    overflow_count: u64,
    overflow_label: Seq<char>,
    r1: Seq<CountView>,
    r2: Seq<CountView>,
)
    requires
        is_top_list(items, limit, overflow_count, overflow_label, r1),
        is_top_list(items, limit, overflow_count, overflow_label, r2),
    ensures
        r1 == r2,
{
    let all = with_overflow(items, overflow_count, overflow_label);
    let s1 = choose|s: Seq<CountView>| {
        &&& in_count_order(s)
        &&& s.to_multiset() == all.to_multiset()
        &&& r1 == capped(s, limit)
    };
    let s2 = choose|s: Seq<CountView>| {
        &&& in_count_order(s)
        &&& s.to_multiset() == all.to_multiset()
        &&& r2 == capped(s, limit)
    };
    let leq = |x: CountView, y: CountView| count_le(x, y);
    lemma_count_le_total_ordering();
    assert(vstd::relations::sorted_by(s1, leq));
    assert(vstd::relations::sorted_by(s2, leq));
    lemma_sorted_unique(s1, s2, leq);
}

fn copy_count(e: &CountItem) -> (r: CountItem)
    ensures
        r@ == e@,
{
    CountItem { label: e.label.clone(), count: e.count }
}

/// Whether `x` comes strictly before `y` in a top list.
fn count_less(x: &CountItem, y: &CountItem) -> (r: bool)
    ensures
        r == count_before(x@, y@),
{
    if x.count > y.count {
        true
    } else if x.count < y.count {
        false
    } else {
        let a = chars_of(x.label.as_str());
        let b = chars_of(y.label.as_str());
        chars_less(&a, &b)
    }
}

fn merge_counts(a: &Vec<CountItem>, b: &Vec<CountItem>) -> (r: Vec<CountItem>)
    requires
        in_count_order(counts_view(a@)),
        in_count_order(counts_view(b@)),
    ensures
        in_count_order(counts_view(r@)),
        counts_view(r@).to_multiset() == counts_view(a@).to_multiset().add(counts_view(b@).to_multiset()),
{
    let ghost va = counts_view(a@);
    let ghost vb = counts_view(b@);
    let mut out: Vec<CountItem> = Vec::new();
    let mut i: usize = 0;
    let mut j: usize = 0;
    proof {
        assert(va.take(0) =~= Seq::<CountView>::empty());
        assert(vb.take(0) =~= Seq::<CountView>::empty());
        assert(counts_view(out@) =~= Seq::<CountView>::empty());
    }
    while i < a.len() || j < b.len()
        invariant
            i <= a.len(),
            j <= b.len(),
            va == counts_view(a@),
            vb == counts_view(b@),
            in_count_order(va),
            in_count_order(vb),
            in_count_order(counts_view(out@)),
            counts_view(out@).to_multiset() == va.take(i as int).to_multiset().add(vb.take(j as int).to_multiset()),
            forall|k: int| 0 <= k < out.len() ==> (i < a.len() ==> count_le(#[trigger] counts_view(out@)[k], va[i as int])),
            forall|k: int| 0 <= k < out.len() ==> (j < b.len() ==> count_le(#[trigger] counts_view(out@)[k], vb[j as int])),
        decreases a.len() + b.len() - i - j,
    {
        let ghost before = counts_view(out@);
        let take_a = if i < a.len() && j < b.len() {
            !count_less(&b[j], &a[i])
        } else {
            i < a.len()
        };
        if take_a {
            let e = copy_count(&a[i]);
            out.push(e);
            proof {
                let x = va[i as int];
                assert(counts_view(out@) =~= before.push(x));
                assert(va.take(i + 1) =~= va.take(i as int).push(x));
                assert forall|k: int| 0 <= k < out.len() && i + 1 < a.len() implies count_le(#[trigger] counts_view(out@)[k], va[i + 1]) by {
                    assert(count_le(va[i as int], va[i + 1]));
                    if k < before.len() {
                        lemma_count_le_transitive(before[k], x, va[i + 1]);
                    }
                }
                assert forall|k: int| 0 <= k < out.len() && j < b.len() implies count_le(#[trigger] counts_view(out@)[k], vb[j as int]) by {
                    if k == before.len() {
                    } else {
                    }
                }
                assert forall|p: int, q: int| 0 <= p < q < counts_view(out@).len() implies count_le(#[trigger] counts_view(out@)[p], #[trigger] counts_view(out@)[q]) by {
                    if q == before.len() {
                    }
                }
            }
            i = i + 1;
        } else {
            let e = copy_count(&b[j]);
            out.push(e);
            proof {
                let x = vb[j as int];
                if i < a.len() {
                    lemma_count_le_either(x, va[i as int]);
                }
                assert(counts_view(out@) =~= before.push(x));
                assert(vb.take(j + 1) =~= vb.take(j as int).push(x));
                assert forall|k: int| 0 <= k < out.len() && j + 1 < b.len() implies count_le(#[trigger] counts_view(out@)[k], vb[j + 1]) by {
                    assert(count_le(vb[j as int], vb[j + 1]));
                    if k < before.len() {
                        lemma_count_le_transitive(before[k], x, vb[j + 1]);
                    }
                }
                assert forall|k: int| 0 <= k < out.len() && i < a.len() implies count_le(#[trigger] counts_view(out@)[k], va[i as int]) by {
                }
                assert forall|p: int, q: int| 0 <= p < q < counts_view(out@).len() implies count_le(#[trigger] counts_view(out@)[p], #[trigger] counts_view(out@)[q]) by {
                    if q == before.len() {
                    }
                }
            }
            j = j + 1;
        }
    }
    proof {
        assert(va.take(a.len() as int) =~= va);
        assert(vb.take(b.len() as int) =~= vb);
    }
    out
}

/// Sorts counts into the order of a top list.
fn sort_counts(v: Vec<CountItem>) -> (r: Vec<CountItem>)
    ensures
        in_count_order(counts_view(r@)),
        counts_view(r@).to_multiset() == counts_view(v@).to_multiset(),
    decreases v.len(),
{
    if v.len() <= 1 {
        return v;
    }
    let mut left = v;
    let ghost whole = counts_view(left@);
    let mid = left.len() / 2;
    let right = left.split_off(mid);
    proof {
        assert(counts_view(left@) =~= whole.subrange(0, mid as int));
        assert(counts_view(right@) =~= whole.subrange(mid as int, whole.len() as int));
        assert(whole =~= whole.subrange(0, mid as int) + whole.subrange(mid as int, whole.len() as int));
        lemma_multiset_commutative(whole.subrange(0, mid as int), whole.subrange(mid as int, whole.len() as int));
    }
    let l = sort_counts(left);
    let r = sort_counts(right);
    merge_counts(&l, &r)
}

/// The counted items, with the requests counted together under `overflow_label` as one more
/// item when there are any.
pub open spec fn with_overflow(s: Seq<CountView>, overflow_count: u64, overflow_label: Seq<char>) -> Seq<CountView> {
    if overflow_count > 0 {
        s.push(CountView { label: overflow_label, count: overflow_count })
    } else {
        s
    }
}

/// `r` is the top list of `items`: all of them (with the overflow item) in the order of a top
/// list, cut to the first `limit`.
pub open spec fn is_top_list(
    items: Seq<CountView>,
    limit: nat,
    overflow_count: u64,
    overflow_label: Seq<char>,
    r: Seq<CountView>,
) -> bool {
    exists|s: Seq<CountView>| {
        &&& in_count_order(s)
        &&& s.to_multiset() == with_overflow(items, overflow_count, overflow_label).to_multiset()
        &&& r == capped(s, limit)
    }
}

/// The `limit` items with the largest counts (ties by label), the requests counted together
/// under `overflow_label` taking part as one more item when there are any.
pub fn sorted_count_items(
    items: &Vec<CountItem>,
    limit: usize,
    overflow_count: u64,
    overflow_label: &str,
) -> (r: Vec<CountItem>)
    ensures
        is_top_list(counts_view(items@), limit as nat, overflow_count, overflow_label@, counts_view(r@)),
{
    let mut all: Vec<CountItem> = Vec::new();
    let mut i: usize = 0;
    while i < items.len()
        invariant
            i <= items.len(),
            counts_view(all@) == counts_view(items@).take(i as int),
        decreases items.len() - i,
    {
        let ghost before = counts_view(all@);
        all.push(copy_count(&items[i]));
        proof {
            assert(counts_view(all@) =~= before.push(items@[i as int]@));
            assert(counts_view(all@) =~= counts_view(items@).take(i + 1));
        }
        i = i + 1;
    }
    proof {
        assert(counts_view(items@).take(items.len() as int) =~= counts_view(items@));
    }
    if overflow_count > 0 {
        all.push(CountItem { label: String::from_str(overflow_label), count: overflow_count });
        proof {
            assert(counts_view(all@) =~= with_overflow(counts_view(items@), overflow_count, overflow_label@));
        }
    }
    let mut sorted = sort_counts(all);
    let ghost s = counts_view(sorted@);
    if sorted.len() > limit {
        sorted.truncate(limit);
    }
    proof {
        assert(counts_view(sorted@) =~= capped(s, limit as nat));
    }
    sorted
}

// ----------------------------------------------------------------------------
// Ordering statuses
// ----------------------------------------------------------------------------

/// `s` is in ascending order of status.
pub open spec fn in_status_order(s: Seq<StatusCountItem>) -> bool {
    forall|p: int, q: int| 0 <= p < q < s.len() ==> #[trigger] s[p].status <= #[trigger] s[q].status
}

fn insert_by_status(out: &mut Vec<StatusCountItem>, x: StatusCountItem)
    requires
        in_status_order(old(out)@),
    ensures
        in_status_order(final(out)@),
        final(out)@.to_multiset() == old(out)@.to_multiset().insert(x),
        in_strict_status_order(old(out)@) && (forall|j: int| 0 <= j < old(out)@.len() ==> #[trigger] old(out)@[j].status != x.status)
            ==> in_strict_status_order(final(out)@),
{
    let ghost s = out@;
    let mut k: usize = out.len();
    while k > 0 && out[k - 1].status > x.status
        invariant
            k <= out.len(),
            out@ == s,
            forall|j: int| k <= j < s.len() ==> #[trigger] s[j].status > x.status,
        decreases k,
    {
        k = k - 1;
    }
    out.insert(k, x);
    proof {
        let t = out@;
        assert(t =~= s.take(k as int).push(x) + s.skip(k as int));
        assert(s =~= s.take(k as int) + s.skip(k as int));
        lemma_multiset_commutative(s.take(k as int).push(x), s.skip(k as int));
        lemma_multiset_commutative(s.take(k as int), s.skip(k as int));
        assert forall|p: int, q: int| 0 <= p < q < t.len() implies #[trigger] t[p].status <= #[trigger] t[q].status by {
            if k > 0 {
                assert(s[k - 1].status <= x.status);
            }
            if p < k && q > k {
                assert(s[p].status <= s[k - 1].status || p == k - 1);
            }
        }
        if in_strict_status_order(s) && (forall|j: int| 0 <= j < s.len() ==> #[trigger] s[j].status != x.status) {
            assert forall|p: int, q: int| 0 <= p < q < t.len() implies #[trigger] t[p].status < #[trigger] t[q].status by {
                if k > 0 {
                    assert(s[k - 1].status != x.status);
                }
                if p < k && q > k {
                    assert(s[p].status < s[k - 1].status || p == k - 1);
                }
                if p == k && q > k {
                    assert(t[q] == s[q - 1]);
                    assert(s[q - 1].status != x.status);
                }
                if p < k && q == k {
                    assert(s[p].status != x.status);
                }
            }
        }
    }
}

/// No status occurs twice.
pub open spec fn distinct_statuses(s: Seq<StatusCountItem>) -> bool {
    forall|i: int, j: int| 0 <= i < j < s.len() ==> #[trigger] s[i].status != #[trigger] s[j].status
}

/// `s` is in strictly ascending order of status.
pub open spec fn in_strict_status_order(s: Seq<StatusCountItem>) -> bool {
    forall|p: int, q: int| 0 <= p < q < s.len() ==> #[trigger] s[p].status < #[trigger] s[q].status
}

/// The counts by status, in ascending order of status; strictly so when no status occurs
/// twice.
pub fn sorted_status_items(items: &Vec<StatusCountItem>) -> (r: Vec<StatusCountItem>)
    ensures
        in_status_order(r@),
        r@.to_multiset() == items@.to_multiset(),
        distinct_statuses(items@) ==> in_strict_status_order(r@),
{
    let mut out: Vec<StatusCountItem> = Vec::new();
    let mut i: usize = 0;
    while i < items.len()
        invariant
            i <= items.len(),
            in_status_order(out@),
            out@.to_multiset() == items@.take(i as int).to_multiset(),
            distinct_statuses(items@) ==> in_strict_status_order(out@),
        decreases items.len() - i,
    {
        proof {
            if distinct_statuses(items@) {
                assert forall|j: int| 0 <= j < out@.len() implies #[trigger] out@[j].status != items@[i as int].status by {
                    let y = out@[j];
                    assert(out@.to_multiset().count(y) > 0);
                    assert(items@.take(i as int).contains(y));
                    let k = choose|k: int| 0 <= k < i && items@.take(i as int)[k] == y;
                    assert(items@[k] == y);
                }
            }
        }
        insert_by_status(&mut out, items[i]);
        proof {
            assert(items@.take(i + 1) =~= items@.take(i as int).push(items@[i as int]));
        }
        i = i + 1;
    }
    proof {
        assert(items@.take(items.len() as int) =~= items@);
    }
    out
}

// ----------------------------------------------------------------------------
// Snapshots and events
// ----------------------------------------------------------------------------

/// What the statistics page shows of the counted requests.
pub struct CountsSnapshot {
    pub total_requests: u64,
    pub unique_routes: usize,
    pub unique_routes_capped: bool,
    pub unique_clients: usize,
    pub unique_clients_capped: bool,
    pub total_bytes_sent: u64,
    pub last_request_at_ms: Option<u64>,
    /// The ten busiest routes.
    pub top_routes: Vec<CountItem>,
    /// The eight busiest clients.
    pub top_clients: Vec<CountItem>,
    /// The eight most used methods.
    pub methods: Vec<CountItem>,
    /// The counts by status, in ascending order of status.
    pub statuses: Vec<StatusCountItem>,
    /// The latest requests, newest first.
    pub recent_requests: Vec<RequestRecord>,
}

/// `r` is a snapshot of `m`: its figures are those of `m`; its top lists are those of
/// `m`'s tables (the ten busiest routes and the eight busiest clients, with those not counted
/// by name together as one more item, and the eight most used methods); its statuses are
/// `m`'s in ascending order (strictly, in a well-formed `m`); its latest requests are `m`'s.
pub open spec fn is_counts_snapshot(m: RequestMetrics, r: CountsSnapshot) -> bool {
    &&& r.total_requests == m.total_requests
    &&& r.unique_routes == m.route_counts@.len()
    &&& r.unique_routes_capped == m.route_count_overflowed
    &&& r.unique_clients == m.client_counts@.len()
    &&& r.unique_clients_capped == m.client_count_overflowed
    &&& r.total_bytes_sent == m.total_bytes_sent
    &&& r.last_request_at_ms == m.last_request_at_ms
    &&& is_top_list(m.route_counts@, 10, m.other_route_requests, "[other routes]"@, counts_view(r.top_routes@))
    &&& is_top_list(m.client_counts@, 8, m.other_client_requests, "[other clients]"@, counts_view(r.top_clients@))
    &&& is_top_list(m.method_counts@, 8, 0, seq![], counts_view(r.methods@))
    &&& in_status_order(r.statuses@)
    &&& r.statuses@.to_multiset() == m.status_counts@.to_multiset()
    &&& (status_table_wf(m.status_counts@) ==> in_strict_status_order(r.statuses@))
    &&& records_view(r.recent_requests@) == records_view(m.recent_requests@)
}

fn copy_text(o: &Option<String>) -> (r: Option<String>)
    ensures
        opt_view(r) == opt_view(*o),
{
    match o {
        Some(s) => Some(s.clone()),
        None => None,
    }
}

fn copy_record(r: &RequestRecord) -> (c: RequestRecord)
    ensures
        c@ == r@,
{
    RequestRecord {
        timestamp_ms: r.timestamp_ms,
        method: r.method.clone(),
        path: r.path.clone(),
        route: r.route.clone(),
        status: r.status,
        duration_ms: r.duration_ms,
        client_ip: copy_text(&r.client_ip),
        user_agent: copy_text(&r.user_agent),
        response_bytes: r.response_bytes,
    }
}

fn copy_records(v: &Vec<RequestRecord>) -> (c: Vec<RequestRecord>)
    ensures
        records_view(c@) == records_view(v@),
{
    let mut out: Vec<RequestRecord> = Vec::new();
    let mut i: usize = 0;
    while i < v.len()
        invariant
            i <= v.len(),
            records_view(out@) == records_view(v@).take(i as int),
        decreases v.len() - i,
    {
        let ghost before = records_view(out@);
        out.push(copy_record(&v[i]));
        proof {
            assert(records_view(out@) =~= before.push(v@[i as int]@));
            assert(records_view(out@) =~= records_view(v@).take(i + 1));
        }
        i = i + 1;
    }
    proof {
        assert(records_view(v@).take(v.len() as int) =~= records_view(v@));
    }
    out
}

impl RequestMetrics {
    /// The figures and lists of the statistics page: the ten busiest routes and the eight
    /// busiest clients (with those not counted by name together as one more item), the eight
    /// most used methods, the statuses in ascending order, and the latest requests.
    pub fn counts_snapshot(&self) -> (r: CountsSnapshot)
        ensures
            is_counts_snapshot(*self, r),
    {
        let methods = sorted_count_items(&self.method_counts.items, 8, 0, "");
        proof {
            reveal_strlit("");
            assert(""@ =~= Seq::<char>::empty());
        }
        CountsSnapshot {
            total_requests: self.total_requests,
            unique_routes: self.route_counts.len(),
            unique_routes_capped: self.route_count_overflowed,
            unique_clients: self.client_counts.len(),
            unique_clients_capped: self.client_count_overflowed,
            total_bytes_sent: self.total_bytes_sent,
            last_request_at_ms: self.last_request_at_ms,
            top_routes: sorted_count_items(&self.route_counts.items, 10, self.other_route_requests, "[other routes]"),
            top_clients: sorted_count_items(&self.client_counts.items, 8, self.other_client_requests, "[other clients]"),
            methods,
            statuses: sorted_status_items(&self.status_counts.items),
            recent_requests: copy_records(&self.recent_requests),
        }
    }
}

/// The path shown for a request: its route, with `?...` when it had a query.
pub open spec fn shown_path(route: Seq<char>, has_query: bool) -> Seq<char> {
    if has_query { route + "?..."@ } else { route }
}

/// The size of a reply as the statistics count it: nothing for `HEAD`, else the value of
/// its `Content-Length` when that is a decimal `u64`.
pub open spec fn counted_size(method: Seq<char>, content_length: Option<Seq<char>>) -> Option<u64> {
    if method == "HEAD"@ {
        Some(0)
    } else {
        match content_length {
            Some(v) => match parse_unsigned(v, u64::MAX as nat) {
                Some(n) => Some(n as u64),
                None => None,
            },
            None => None,
        }
    }
}

/// Whether a request to `route` is counted: all are but those for the statistics data itself.
pub fn is_tracked(route: &str, dashboard_data_path: &str) -> (b: bool)
    ensures
        b == (route@ != dashboard_data_path@),
{
    String::from_str(route) != String::from_str(dashboard_data_path)
}

/// The event of a request to `route` (with a query or not) answered with `status`, whose
/// reply had the given `Content-Length`.
pub fn request_event(
    method: &str,
    route: &str,
    has_query: bool,
    status: u16,
    duration_ms: u64,
    client_ip: Option<String>,
    user_agent: Option<String>,
    content_length: Option<String>,
) -> (e: RequestEvent)
    ensures
        e@ == (EventView {
            method: method@,
            path: shown_path(route@, has_query),
            route: route@,
            status,
            duration_ms,
            client_ip: opt_view(client_ip),
            user_agent: opt_view(user_agent),
            response_bytes: counted_size(method@, opt_view(content_length)),
        }),
{
    let m = String::from_str(method);
    let mut path = String::from_str(route);
    if has_query {
        path.append("?...");
    }
    let response_bytes = if m == String::from_str("HEAD") {
        Some(0)
    } else {
        match &content_length {
            Some(v) => {
                let cs = chars_of(v.as_str());
                parse_unsigned_chars(&cs, u64::MAX)
            },
            None => None,
        }
    };
    RequestEvent {
        method: m,
        path,
        route: String::from_str(route),
        status,
        duration_ms,
        client_ip,
        user_agent,
        response_bytes,
    }
}

/// The last `n` items of `s`, or all of them when there are fewer.
pub open spec fn last_items<T>(s: Seq<T>, n: nat) -> Seq<T> {
    if s.len() > n { s.skip(s.len() - n) } else { s }
}

/// Appends `item` to a history that keeps only its `cap` newest items, oldest first.
pub fn push_history<T>(history: &mut Vec<T>, item: T, cap: usize)
    ensures
        final(history)@ == last_items(old(history)@.push(item), cap as nat),
{
    let ghost full = old(history)@.push(item);
    history.push(item);
    while history.len() > cap
        invariant
            full == old(history)@.push(item),
            history@.len() >= cap ==> history@ == full.skip(full.len() - history@.len()),
            history@.len() < cap ==> history@ == full,
            history@.len() <= full.len(),
        decreases history.len(),
    {
        let ghost before = history@;
        history.remove(0);
        proof {
            assert(before.remove(0) =~= before.skip(1));
            assert(full.skip(full.len() - before.len()).skip(1) =~= full.skip(full.len() - (before.len() - 1)));
        }
    }
    proof {
        if full.len() <= cap {
            assert(history@ == full);
        } else {
            assert(history@.len() == cap);
        }
    }
}

/// Milliseconds after the Unix epoch as the statistics keep them: zero for a time before the
/// epoch (`None`), and at most `u64::MAX`.
pub fn unix_ms(since_epoch_ms: Option<u128>) -> (r: u64)
    ensures
        r == match since_epoch_ms {
            Some(ms) => if ms > u64::MAX { u64::MAX as int } else { ms as int },
            None => 0int,
        },
{
    match since_epoch_ms {
        Some(ms) => if ms > u64::MAX as u128 { u64::MAX } else { ms as u64 },
        None => 0,
    }
}

proof fn lemma_status_lex_total_ordering()
    ensures
        vstd::relations::total_ordering(|x: StatusCountItem, y: StatusCountItem| x.status < y.status || (x.status == y.status && x.count <= y.count)),
{
}

/// A list of counts by status is determined by its items when no status occurs twice: two
/// lists of the same items, both in strictly ascending order of status, are equal.
pub proof fn status_list_is_determined(items: Seq<StatusCountItem>, r1: Seq<StatusCountItem>, r2: Seq<StatusCountItem>)
    requires
        in_strict_status_order(r1),
        in_strict_status_order(r2),
        r1.to_multiset() == items.to_multiset(),
        r2.to_multiset() == items.to_multiset(),
    ensures
        r1 == r2,
{
    let leq = |x: StatusCountItem, y: StatusCountItem| x.status < y.status || (x.status == y.status && x.count <= y.count);
    lemma_status_lex_total_ordering();
    assert(vstd::relations::sorted_by(r1, leq));
    assert(vstd::relations::sorted_by(r2, leq));
    lemma_sorted_unique(r1, r2, leq);
}

/// Two snapshots of the same statistics agree on every figure and every list.
pub proof fn counts_snapshots_agree(m: RequestMetrics, a: CountsSnapshot, b: CountsSnapshot)
    requires
        m.wf(),
        is_counts_snapshot(m, a),
        is_counts_snapshot(m, b),
    ensures
        a.total_requests == b.total_requests,
        a.unique_routes == b.unique_routes,
        a.unique_routes_capped == b.unique_routes_capped,
        a.unique_clients == b.unique_clients,
        a.unique_clients_capped == b.unique_clients_capped,
        a.total_bytes_sent == b.total_bytes_sent,
        a.last_request_at_ms == b.last_request_at_ms,
        counts_view(a.top_routes@) == counts_view(b.top_routes@),
        counts_view(a.top_clients@) == counts_view(b.top_clients@),
        counts_view(a.methods@) == counts_view(b.methods@),
        a.statuses@ == b.statuses@,
        records_view(a.recent_requests@) == records_view(b.recent_requests@),
{
    top_list_is_determined(m.route_counts@, 10, m.other_route_requests, "[other routes]"@,
        counts_view(a.top_routes@), counts_view(b.top_routes@));
    top_list_is_determined(m.client_counts@, 8, m.other_client_requests, "[other clients]"@,
        counts_view(a.top_clients@), counts_view(b.top_clients@));
    top_list_is_determined(m.method_counts@, 8, 0, seq![], counts_view(a.methods@), counts_view(b.methods@));
    status_list_is_determined(m.status_counts@, a.statuses@, b.statuses@);
}

} // verus!
