//! Serving a request for a file or a directory under the served root.
//!
//! The decisions are a state machine: [`ServeRequest::start`] looks at the request and asks
//! for the first piece of outside work, and [`ServeRequest::step`] takes what that work found
//! and says what to do next, until the request is answered. The caller performs the work on
//! the file system and hands back the events.
use vstd::prelude::*;
use vstd::utf8::encode_utf8;
use crate::encoding::{url_decode, url_decoded, url_decoded_push_slash};
use crate::error::{Body, BodyView, ErrorView, Reply, ReplyView, ServeError, header};
use crate::format::{content_type, content_type_for, http_date, http_date_text, utc_civil_time};
use crate::listing::{DirectoryContents, entries_view, generate_listing_html, is_listing_of};
use crate::text::{
    chars_of, dec, dec_string, has_suffix, is_digit, lemma_dec_digits, parse_unsigned, path_segments, split_path,
    strings_view,
};

verus! {

/// What the file system says of a regular file.
#[derive(Clone, Copy)]
pub struct FileInfo {
    /// Its length in bytes.
    pub len: u64,
    /// Its modification time, in whole seconds after the Unix epoch (rounded down); the
    /// epoch itself when the system does not tell.
    pub modified: i64,
}

/// What the file system says of a path.
pub enum PathKind {
    /// Nothing is there.
    Missing,
    /// It could not be read; the message of the error.
    Unreadable(String),
    Directory,
    File(FileInfo),
    /// Something else, such as a socket.
    Other,
}

/// The outcome of a piece of outside work.
pub enum ServeEvent {
    /// The canonical form of the requested path, as its components; `None` when it does
    /// not exist.
    Canonicalized(Option<Vec<Vec<u8>>>),
    /// What is at the resolved path.
    Stat(PathKind),
    /// The index file that was looked for, if it is a regular file.
    IndexStat(Option<FileInfo>),
    /// The directory's display name and entries, or the message of the error.
    Listed(Result<DirectoryContents, String>),
    /// Whether the file could be opened; the message of the error when not.
    Opened(Result<(), String>),
}

/// The next thing to do for a request. Every path is a list of components, each the bytes of
/// its name as the system holds them.
pub enum ServeAction {
    /// Answer with the reply of this error.
    Fail(ServeError),
    /// Answer with this reply (with a file body, send the opened file).
    Respond(Reply),
    /// Join these segments onto the root and canonicalize the result.
    Canonicalize(Vec<String>),
    /// Look at what is at this path.
    Stat(Vec<Vec<u8>>),
    /// Look for this index file.
    StatIndex(Vec<Vec<u8>>),
    /// Read the entries of this directory.
    ListDirectory(Vec<Vec<u8>>),
    /// Open this file for reading.
    Open(Vec<Vec<u8>>),
}

/// An action as a mathematical value.
pub enum ActionView {
    Fail(ErrorView),
    Respond(ReplyView),
    Canonicalize(Seq<Seq<char>>),
    Stat(Seq<Seq<u8>>),
    StatIndex(Seq<Seq<u8>>),
    ListDirectory(Seq<Seq<u8>>),
    Open(Seq<Seq<u8>>),
}

impl View for ServeAction {
    type V = ActionView;

    open spec fn view(&self) -> ActionView {
        match self {
            ServeAction::Fail(e) => ActionView::Fail(e@),
            ServeAction::Respond(r) => ActionView::Respond(r@),
            ServeAction::Canonicalize(p) => ActionView::Canonicalize(strings_view(p@)),
            ServeAction::Stat(p) => ActionView::Stat(paths_view(p@)),
            ServeAction::StatIndex(p) => ActionView::StatIndex(paths_view(p@)),
            ServeAction::ListDirectory(p) => ActionView::ListDirectory(paths_view(p@)),
            ServeAction::Open(p) => ActionView::Open(paths_view(p@)),
        }
    }
}

/// The file system path an action reads, if any.
pub open spec fn action_path(a: ActionView) -> Option<Seq<Seq<u8>>> {
    match a {
        ActionView::Stat(p) => Some(p),
        ActionView::StatIndex(p) => Some(p),
        ActionView::ListDirectory(p) => Some(p),
        ActionView::Open(p) => Some(p),
        _ => None,
    }
}

/// What a request waits for.
pub enum Stage {
    /// The canonical form of the requested path.
    Resolving,
    /// What is at the resolved path.
    Stating,
    /// Whether the directory's `index.html` is there.
    Index,
    /// The entries of the directory.
    Listing,
    /// Whether the file opened; the reply to send with it.
    Opening(Reply),
    /// Nothing: the request is answered.
    Done,
}

/// A request being served.
pub struct ServeRequest {
    /// The path of the request's URL, as it came.
    pub pathname: String,
    /// `?` and the query, or nothing when there is no query.
    pub search: String,
    /// The percent-decoded path.
    pub decoded: String,
    /// Whether the method is `HEAD`.
    pub is_head: bool,
    /// The components of the served root.
    pub root: Vec<Vec<u8>>,
    /// The path of the statistics page.
    pub dashboard_path: String,
    /// The components of the resolved path.
    pub resolved: Vec<Vec<u8>>,
    pub stage: Stage,
}

/// Path `p` lies under `root`: its first components are those of `root` (`Path::starts_with`).
pub open spec fn starts_with<A>(root: Seq<A>, p: Seq<A>) -> bool {
    root.len() <= p.len() && p.take(root.len() as int) == root
}

/// The index file served in place of a directory's listing, as the bytes of its name.
pub open spec fn index_name() -> Seq<u8> {
    encode_utf8("index.html"@)
}

/// Paths (lists of components, each the bytes of its name) as values.
pub open spec fn paths_view(v: Seq<Vec<u8>>) -> Seq<Seq<u8>> {
    Seq::new(v.len(), |i: int| v[i]@)
}

/// The last component of a path, or nothing.
pub open spec fn last_name(p: Seq<Seq<u8>>) -> Seq<u8> {
    if p.len() > 0 { p.last() } else { seq![] }
}

/// `?` and the query, or nothing.
pub open spec fn search_text(query: Option<Seq<char>>) -> Seq<char> {
    match query {
        Some(q) => "?"@ + q,
        None => seq![],
    }
}

/// The `Last-Modified` value of a modification time; empty when `chrono` cannot represent it.
pub open spec fn last_modified_text(secs: i64) -> Seq<char> {
    match utc_civil_time(secs) {
        Some(t) => http_date_text(t),
        None => seq![],
    }
}

/// The reply that sends a file (or, for `HEAD`, only its headers).
pub open spec fn file_reply(name: Seq<u8>, info: FileInfo, is_head: bool) -> ReplyView {
    ReplyView {
        status: 200,
        headers: seq![
            ("content-type"@, content_type(name)),
            ("content-length"@, dec(info.len as nat)),
            ("last-modified"@, last_modified_text(info.modified)),
            ("cache-control"@, "no-cache"@),
        ],
        body: if is_head { BodyView::Empty } else { BodyView::File },
    }
}

/// The reply that moves a directory requested without its trailing slash.
pub open spec fn redirect_reply(location: Seq<char>) -> ReplyView {
    ReplyView { status: 301, headers: seq![("location"@, location)], body: BodyView::Empty }
}

/// The number of bytes of the UTF-8 encoding of `s`.
pub open spec fn utf8_len(s: Seq<char>) -> nat {
    encode_utf8(s).len()
}

/// The reply that carries a listing page (or, for `HEAD`, only its headers).
pub open spec fn listing_reply(html: Seq<char>, is_head: bool) -> ReplyView {
    ReplyView {
        status: 200,
        headers: seq![
            ("content-type"@, "text/html; charset=utf-8"@),
            ("cache-control"@, "no-cache"@),
            ("content-length"@, dec(((utf8_len(html) as usize) as u64) as nat)),
        ],
        body: if is_head { BodyView::Empty } else { BodyView::Text(html) },
    }
}

/// Serving a regular file at `path` whose name (for its type) is `name`: a `HEAD` request is
/// answered at once; any other first opens the file.
pub open spec fn serve_file_spec(
    s: ServeRequest,
    path: Seq<Seq<u8>>,
    name: Seq<u8>,
    info: FileInfo,
    s2: ServeRequest,
    a: ActionView,
) -> bool {
    if s.is_head {
        a == ActionView::Respond(file_reply(name, info, true)) && s2.stage is Done
    } else {
        &&& a == ActionView::Open(path)
        &&& s2.stage matches Stage::Opening(r) && r@ == file_reply(name, info, false)
    }
}

/// The events each stage waits for.
pub open spec fn awaits(stage: Stage, e: ServeEvent) -> bool {
    match stage {
        Stage::Resolving => e is Canonicalized,
        Stage::Stating => e is Stat,
        Stage::Index => e is IndexStat,
        Stage::Listing => e is Listed,
        Stage::Opening(_) => e is Opened,
        Stage::Done => false,
    }
}

/// How a request answers an event: the action it takes and the stage it moves to.
pub open spec fn step_spec(s: ServeRequest, e: ServeEvent, s2: ServeRequest, a: ActionView) -> bool {
    let root = paths_view(s.root@);
    let resolved = paths_view(s.resolved@);
    &&& !(s.stage is Resolving) ==> paths_view(s2.resolved@) == resolved
    &&& match s.stage {
        Stage::Resolving => match e {
            ServeEvent::Canonicalized(None) => a == ActionView::Fail(ErrorView::NotFound) && s2.stage is Done,
            ServeEvent::Canonicalized(Some(p)) => if starts_with(root, paths_view(p@)) {
                &&& a == ActionView::Stat(paths_view(p@))
                &&& s2.stage is Stating
                &&& paths_view(s2.resolved@) == paths_view(p@)
            } else {
                a == ActionView::Fail(ErrorView::Forbidden) && s2.stage is Done
            },
            _ => false,
        },
        Stage::Stating => match e {
            ServeEvent::Stat(k) => match k {
                PathKind::Missing => a == ActionView::Fail(ErrorView::NotFound) && s2.stage is Done,
                PathKind::Unreadable(m) => {
                    &&& a == ActionView::Fail(ErrorView::InternalError("Error reading path: "@ + m@))
                    &&& s2.stage is Done
                },
                PathKind::Other => a == ActionView::Fail(ErrorView::Forbidden) && s2.stage is Done,
                PathKind::Directory => if s.pathname@.len() == 0 || s.pathname@.last() != '/' {
                    a == ActionView::Respond(redirect_reply(s.pathname@ + "/"@ + s.search@)) && s2.stage is Done
                } else {
                    a == ActionView::StatIndex(resolved.push(index_name())) && s2.stage is Index
                },
                PathKind::File(info) => serve_file_spec(s, resolved, last_name(resolved), info, s2, a),
            },
            _ => false,
        },
        Stage::Index => match e {
            ServeEvent::IndexStat(Some(info)) => serve_file_spec(
                s, resolved.push(index_name()), index_name(), info, s2, a),
            ServeEvent::IndexStat(None) => a == ActionView::ListDirectory(resolved) && s2.stage is Listing,
            _ => false,
        },
        Stage::Listing => match e {
            ServeEvent::Listed(Ok(c)) => {
                &&& a matches ActionView::Respond(r) && exists|html: Seq<char>| {
                    &&& is_listing_of(s.decoded@, c.display@, s.dashboard_path@, entries_view(c.entries@), html)
                    &&& r == listing_reply(html, s.is_head)
                }
                &&& s2.stage is Done
            },
            ServeEvent::Listed(Err(m)) => {
                &&& a == ActionView::Fail(ErrorView::InternalError("Error generating directory listing: "@ + m@))
                &&& s2.stage is Done
            },
            _ => false,
        },
        Stage::Opening(r) => match e {
            ServeEvent::Opened(Ok(_)) => a == ActionView::Respond(r@) && s2.stage is Done,
            ServeEvent::Opened(Err(m)) => {
                &&& a == ActionView::Fail(ErrorView::InternalError("Error opening file: "@ + m@))
                &&& s2.stage is Done
            },
            _ => false,
        },
        Stage::Done => false,
    }
}

/// How a request starts: the method and the path decide the first action.
pub open spec fn start_spec(
    method: Seq<char>,
    pathname: Seq<char>,
    root: Seq<Seq<u8>>,
    s: ServeRequest,
    a: ActionView,
) -> bool {
    if method != "GET"@ && method != "HEAD"@ {
        a == ActionView::Fail(ErrorView::MethodNotAllowed) && s.stage is Done
    } else {
        match url_decoded(pathname) {
            None => a == ActionView::Fail(ErrorView::BadRequest("Bad Request"@)) && s.stage is Done,
            Some(d) => {
                let segs = path_segments(d, true);
                &&& s.decoded@ == d
                &&& if segs.len() == 0 {
                    &&& a == ActionView::Stat(root)
                    &&& s.stage is Stating
                    &&& paths_view(s.resolved@) == root
                } else {
                    a == ActionView::Canonicalize(segs) && s.stage is Resolving
                }
            },
        }
    }
}

fn copy_bytes(b: &Vec<u8>) -> (r: Vec<u8>)
    ensures
        r@ == b@,
{
    let mut r: Vec<u8> = Vec::new();
    let mut i: usize = 0;
    while i < b.len()
        invariant
            i <= b.len(),
            r@ == b@.take(i as int),
        decreases b.len() - i,
    {
        r.push(b[i]);
        proof {
            assert(b@.take(i + 1) =~= b@.take(i as int).push(b@[i as int]));
        }
        i = i + 1;
    }
    proof {
        assert(b@.take(b.len() as int) =~= b@);
    }
    r
}

fn copy_path(v: &Vec<Vec<u8>>) -> (r: Vec<Vec<u8>>)
    ensures
        paths_view(r@) == paths_view(v@),
{
    let mut r: Vec<Vec<u8>> = Vec::new();
    let mut i: usize = 0;
    while i < v.len()
        invariant
            i <= v.len(),
            paths_view(r@) == paths_view(v@).take(i as int),
        decreases v.len() - i,
    {
        let ghost before = paths_view(r@);
        r.push(copy_bytes(&v[i]));
        proof {
            assert(paths_view(r@) =~= before.push(v@[i as int]@));
            assert(paths_view(v@).take(i + 1) =~= paths_view(v@).take(i as int).push(v@[i as int]@));
        }
        i = i + 1;
    }
    proof {
        assert(paths_view(v@).take(v.len() as int) =~= paths_view(v@));
    }
    r
}

fn bytes_equal(a: &Vec<u8>, b: &Vec<u8>) -> (r: bool)
    ensures
        r == (a@ == b@),
{
    if a.len() != b.len() {
        return false;
    }
    let mut i: usize = 0;
    while i < a.len()
        invariant
            i <= a.len() == b.len(),
            forall|k: int| 0 <= k < i ==> a@[k] == b@[k],
        decreases a.len() - i,
    {
        if a[i] != b[i] {
            return false;
        }
        i = i + 1;
    }
    assert(a@ =~= b@);
    true
}

proof fn lemma_starts_with_push(root: Seq<Seq<u8>>, p: Seq<Seq<u8>>, x: Seq<u8>)
    requires
        starts_with(root, p),
    ensures
        starts_with(root, p.push(x)),
{
    assert(p.push(x).take(root.len() as int) =~= p.take(root.len() as int));
}

fn path_starts_with(root: &Vec<Vec<u8>>, p: &Vec<Vec<u8>>) -> (b: bool)
    ensures
        b == starts_with(paths_view(root@), paths_view(p@)),
{
    let ghost rv = paths_view(root@);
    let ghost pv = paths_view(p@);
    if root.len() > p.len() {
        return false;
    }
    let mut i: usize = 0;
    while i < root.len()
        invariant
            i <= root.len() <= p.len(),
            rv == paths_view(root@),
            pv == paths_view(p@),
            forall|k: int| 0 <= k < i ==> pv[k] == rv[k],
        decreases root.len() - i,
    {
        if !bytes_equal(&root[i], &p[i]) {
            assert(pv.take(rv.len() as int)[i as int] != rv[i as int]);
            return false;
        }
        i = i + 1;
    }
    assert(pv.take(rv.len() as int) =~= rv);
    true
}

fn index_file() -> (r: Vec<u8>)
    ensures
        r@ == index_name(),
{
    let s = "index.html".as_bytes();
    let mut r: Vec<u8> = Vec::new();
    let mut i: usize = 0;
    while i < s.len()
        invariant
            i <= s@.len(),
            r@ == s@.take(i as int),
        decreases s@.len() - i,
    {
        r.push(s[i]);
        proof {
            assert(s@.take(i + 1) =~= s@.take(i as int).push(s@[i as int]));
        }
        i = i + 1;
    }
    proof {
        assert(s@.take(s@.len() as int) =~= s@);
    }
    r
}

fn with_component(p: &Vec<Vec<u8>>, name: &Vec<u8>) -> (r: Vec<Vec<u8>>)
    ensures
        paths_view(r@) == paths_view(p@).push(name@),
        forall|root: Seq<Seq<u8>>| starts_with(root, paths_view(p@)) ==> starts_with(root, #[trigger] paths_view(r@)),
{
    let mut r = copy_path(p);
    let ghost before = paths_view(r@);
    r.push(copy_bytes(name));
    proof {
        assert(paths_view(r@) =~= before.push(name@));
        assert forall|root: Seq<Seq<u8>>| starts_with(root, paths_view(p@)) implies starts_with(root, #[trigger] paths_view(r@)) by {
            lemma_starts_with_push(root, paths_view(p@), name@);
        }
    }
    r
}

fn file_reply_for(name: &Vec<u8>, info: FileInfo, is_head: bool) -> (r: Reply)
    ensures
        r@ == file_reply(name@, info, is_head),
{
    let last_modified = match http_date(info.modified) {
        Some(s) => s,
        None => String::new(),
    };
    let mut headers: Vec<(String, String)> = Vec::new();
    headers.push((String::from_str("content-type"), content_type_for(name)));
    headers.push((String::from_str("content-length"), dec_string(info.len)));
    headers.push((String::from_str("last-modified"), last_modified));
    headers.push(header("cache-control", "no-cache"));
    let body = if is_head { Body::Empty } else { Body::File };
    let r = Reply { status: 200, headers, body };
    proof {
        assert(r@.headers =~= file_reply(name@, info, is_head).headers);
    }
    r
}

fn listing_reply_for(html: String, is_head: bool) -> (r: Reply)
    ensures
        r@ == listing_reply(html@, is_head),
{
    let n = html.as_str().len();
    let mut headers: Vec<(String, String)> = Vec::new();
    headers.push(header("content-type", "text/html; charset=utf-8"));
    headers.push(header("cache-control", "no-cache"));
    headers.push((String::from_str("content-length"), dec_string(n as u64)));
    let body = if is_head { Body::Empty } else { Body::Text(html) };
    let r = Reply { status: 200, headers, body };
    proof {
        assert(r@.headers =~= listing_reply(html@, is_head).headers);
    }
    r
}

fn redirect_reply_for(pathname: &String, search: &String) -> (r: Reply)
    ensures
        r@ == redirect_reply(pathname@ + "/"@ + search@),
{
    let mut location = pathname.clone();
    location.append("/");
    location.append(search.as_str());
    let mut headers: Vec<(String, String)> = Vec::new();
    headers.push((String::from_str("location"), location));
    let r = Reply { status: 301, headers, body: Body::Empty };
    proof {
        assert(r@.headers =~= redirect_reply(pathname@ + "/"@ + search@).headers);
    }
    r
}

fn internal_error(prefix: &str, m: &String) -> (e: ServeError)
    ensures
        e@ == ErrorView::InternalError(prefix@ + m@),
{
    let mut msg = String::from_str(prefix);
    msg.append(m.as_str());
    ServeError::InternalError(msg)
}

impl ServeRequest {
    /// The invariant of a request: once resolved, its path lies under the root; a file is
    /// opened only to be sent whole; and
    /// while it is served, its path decodes to `decoded`.
    pub open spec fn wf(self) -> bool {
        &&& (self.stage is Stating || self.stage is Index || self.stage is Listing)
            ==> starts_with(paths_view(self.root@), paths_view(self.resolved@))
        &&& (self.stage matches Stage::Opening(r) ==> !self.is_head && r@.status == 200)
        &&& !(self.stage is Done) ==> url_decoded(self.pathname@) == Some(self.decoded@)
    }

    /// The parts of a request that no step changes.
    pub open spec fn same_request(self, other: ServeRequest) -> bool {
        &&& self.pathname == other.pathname
        &&& self.search == other.search
        &&& self.decoded == other.decoded
        &&& self.is_head == other.is_head
        &&& self.root == other.root
        &&& self.dashboard_path == other.dashboard_path
    }

    /// Starts serving a request for `pathname` (with the query, if any) under the root
    /// whose components are `root`: only `GET` and `HEAD` are served, the path must decode
    /// to UTF-8, and its segments other than empty ones and `.` are looked up under the root.
    pub fn start(
        method: &str,
        pathname: &str,
        query: Option<String>,
        root: Vec<Vec<u8>>,
        dashboard_path: &str,
    ) -> (res: (ServeRequest, ServeAction))
        ensures
            res.0.wf(),
            res.0.pathname@ == pathname@,
            res.0.search@ == search_text(match query { Some(q) => Some(q@), None => None }),
            res.0.is_head == (method@ == "HEAD"@),
            res.0.root@ == root@,
            res.0.dashboard_path@ == dashboard_path@,
            start_spec(method@, pathname@, paths_view(root@), res.0, res.1@),
            action_path(res.1@) matches Some(p) ==> starts_with(paths_view(root@), p),
    {
        let mut search = String::new();
        if let Some(q) = &query {
            search.append("?");
            search.append(q.as_str());
        }
        let m = String::from_str(method);
        let is_get = m == String::from_str("GET");
        let is_head = m == String::from_str("HEAD");
        let resolved = copy_path(&root);
        let mut req = ServeRequest {
            pathname: String::from_str(pathname),
            search,
            decoded: String::new(),
            is_head,
            root,
            dashboard_path: String::from_str(dashboard_path),
            resolved,
            stage: Stage::Done,
        };
        proof {
            assert(req.root@.take(req.root@.len() as int) =~= req.root@);
            assert(paths_view(req.root@).take(req.root@.len() as int) =~= paths_view(req.root@));
        }
        if !is_get && !is_head {
            return (req, ServeAction::Fail(ServeError::MethodNotAllowed));
        }
        match url_decode(pathname) {
            None => (req, ServeAction::Fail(ServeError::BadRequest(String::from_str("Bad Request")))),
            Some(d) => {
                let cs = chars_of(d.as_str());
                let segs = split_path(&cs, true);
                req.decoded = d;
                if segs.len() == 0 {
                    req.stage = Stage::Stating;
                    let p = copy_path(&req.root);
                    (req, ServeAction::Stat(p))
                } else {
                    req.stage = Stage::Resolving;
                    (req, ServeAction::Canonicalize(segs))
                }
            },
        }
    }

    /// Whether this request waits for `event`.
    pub fn accepts(&self, event: &ServeEvent) -> (b: bool)
        ensures
            b == awaits(self.stage, *event),
    {
        match (&self.stage, event) {
            (Stage::Resolving, ServeEvent::Canonicalized(_)) => true,
            (Stage::Stating, ServeEvent::Stat(_)) => true,
            (Stage::Index, ServeEvent::IndexStat(_)) => true,
            (Stage::Listing, ServeEvent::Listed(_)) => true,
            (Stage::Opening(_), ServeEvent::Opened(_)) => true,
            _ => false,
        }
    }

    /// Takes the outcome of the pending work and says what to do next. A path it asks to
    /// read always lies under the root, and a `HEAD` request is never answered with a body.
    pub fn step(&mut self, event: ServeEvent) -> (a: ServeAction)
        requires
            old(self).wf(),
            awaits(old(self).stage, event),
        ensures
            final(self).wf(),
            final(self).same_request(*old(self)),
            step_spec(*old(self), event, *final(self), a@),
            action_path(a@) matches Some(p) ==> starts_with(paths_view(old(self).root@), p),
            old(self).is_head && a@ is Respond ==> a@->Respond_0.body == BodyView::Empty,
    {
        let mut stage = Stage::Done;
        std::mem::swap(&mut stage, &mut self.stage);
        match stage {
            Stage::Resolving => match event {
                ServeEvent::Canonicalized(None) => ServeAction::Fail(ServeError::NotFound),
                ServeEvent::Canonicalized(Some(p)) => {
                    if path_starts_with(&self.root, &p) {
                        self.resolved = copy_path(&p);
                        self.stage = Stage::Stating;
                        ServeAction::Stat(p)
                    } else {
                        ServeAction::Fail(ServeError::Forbidden)
                    }
                },
                _ => ServeAction::Fail(ServeError::NotFound),
            },
            Stage::Stating => match event {
                ServeEvent::Stat(PathKind::Missing) => ServeAction::Fail(ServeError::NotFound),
                ServeEvent::Stat(PathKind::Unreadable(m)) => {
                    ServeAction::Fail(internal_error("Error reading path: ", &m))
                },
                ServeEvent::Stat(PathKind::Other) => ServeAction::Fail(ServeError::Forbidden),
                ServeEvent::Stat(PathKind::Directory) => {
                    let cs = chars_of(self.pathname.as_str());
                    if !has_suffix(&cs, "/") {
                        proof {
                            reveal_strlit("/");
                            if cs@.len() > 0 && cs@.last() == '/' {
                                assert(cs@.skip(cs@.len() - 1) =~= "/"@);
                            }
                        }
                        ServeAction::Respond(redirect_reply_for(&self.pathname, &self.search))
                    } else {
                        proof {
                            reveal_strlit("/");
                            assert(cs@.skip(cs@.len() - 1)[0] == cs@.last());
                        }
                        self.stage = Stage::Index;
                        let index = index_file();
                        ServeAction::StatIndex(with_component(&self.resolved, &index))
                    }
                },
                ServeEvent::Stat(PathKind::File(info)) => {
                    let n = self.resolved.len();
                    let name = if n > 0 { copy_bytes(&self.resolved[n - 1]) } else { Vec::new() };
                    let path = copy_path(&self.resolved);
                    self.serve_file(path, &name, info)
                },
                _ => ServeAction::Fail(ServeError::NotFound),
            },
            Stage::Index => match event {
                ServeEvent::IndexStat(Some(info)) => {
                    let name = index_file();
                    let path = with_component(&self.resolved, &name);
                    self.serve_file(path, &name, info)
                },
                ServeEvent::IndexStat(None) => {
                    self.stage = Stage::Listing;
                    ServeAction::ListDirectory(copy_path(&self.resolved))
                },
                _ => ServeAction::Fail(ServeError::NotFound),
            },
            Stage::Listing => match event {
                ServeEvent::Listed(Ok(c)) => {
                    let html = generate_listing_html(
                        self.decoded.as_str(),
                        c.display.as_str(),
                        self.dashboard_path.as_str(),
                        c.entries,
                    );
                    let ghost h = html@;
                    let r = listing_reply_for(html, self.is_head);
                    proof {
                        assert(r@ == listing_reply(h, self.is_head));
                        assert(self.is_head ==> r@.body == BodyView::Empty);
                    }
                    ServeAction::Respond(r)
                },
                ServeEvent::Listed(Err(m)) => {
                    ServeAction::Fail(internal_error("Error generating directory listing: ", &m))
                },
                _ => ServeAction::Fail(ServeError::NotFound),
            },
            Stage::Opening(r) => match event {
                ServeEvent::Opened(Ok(_)) => ServeAction::Respond(r),
                ServeEvent::Opened(Err(m)) => ServeAction::Fail(internal_error("Error opening file: ", &m)),
                _ => ServeAction::Fail(ServeError::NotFound),
            },
            Stage::Done => ServeAction::Fail(ServeError::NotFound),
        }
    }

    fn serve_file(&mut self, path: Vec<Vec<u8>>, name: &Vec<u8>, info: FileInfo) -> (a: ServeAction)
        requires
            old(self).stage is Done,
        ensures
            final(self).same_request(*old(self)),
            final(self).resolved == old(self).resolved,
            serve_file_spec(*old(self), paths_view(path@), name@, info, *final(self), a@),
            a@ matches ActionView::Open(p) ==> p == paths_view(path@),
            !(a@ is Open) ==> a@ is Respond,
    {
        if self.is_head {
            ServeAction::Respond(file_reply_for(name, info, true))
        } else {
            self.stage = Stage::Opening(file_reply_for(name, info, false));
            ServeAction::Open(path)
        }
    }
}

/// A directory requested without its trailing slash is moved to a path that names the same
/// directory: the target is the request's path as it came, with `/` and then the query; and,
/// decoded, it is the decoded path with `/`, so that names outside ASCII come through intact.
pub proof fn redirect_keeps_the_directory(s: ServeRequest, e: ServeEvent, s2: ServeRequest, a: ActionView)
    requires
        s.wf(),
        awaits(s.stage, e),
        step_spec(s, e, s2, a),
        a matches ActionView::Respond(r) && r.status == 301,
    ensures
        a->Respond_0.headers == seq![("location"@, s.pathname@ + "/"@ + s.search@)],
        url_decoded(s.pathname@ + "/"@) == Some(s.decoded@ + "/"@),
{
    url_decoded_push_slash(s.pathname@);
}

/// A directory is served from the very path its request resolved to: asked for with its
/// trailing slash, its `index.html` is looked for inside it, and without one it is that
/// directory whose entries are listed.
pub proof fn directory_is_served_from_itself(
    s0: ServeRequest,
    p: Vec<Vec<u8>>,
    s1: ServeRequest,
    a1: ActionView,
    s2: ServeRequest,
    a2: ActionView,
    s3: ServeRequest,
    a3: ActionView,
)
    requires
        s0.stage is Resolving,
        step_spec(s0, ServeEvent::Canonicalized(Some(p)), s1, a1),
        a1 is Stat,
        step_spec(s1, ServeEvent::Stat(PathKind::Directory), s2, a2),
        a2 is StatIndex,
        step_spec(s2, ServeEvent::IndexStat(None), s3, a3),
    ensures
        a1 == ActionView::Stat(paths_view(p@)),
        a2 == ActionView::StatIndex(paths_view(p@).push(index_name())),
        a3 == ActionView::ListDirectory(paths_view(p@)),
{
}

/// When the directory a request resolved to holds an `index.html`, the file opened is that
/// directory's own `index.html` (a `HEAD` request is answered at once instead).
pub proof fn directory_index_is_opened_from_itself(
    s0: ServeRequest,
    p: Vec<Vec<u8>>,
    s1: ServeRequest,
    a1: ActionView,
    s2: ServeRequest,
    a2: ActionView,
    info: FileInfo,
    s3: ServeRequest,
    a3: ActionView,
)
    requires
        s0.stage is Resolving,
        step_spec(s0, ServeEvent::Canonicalized(Some(p)), s1, a1),
        a1 is Stat,
        step_spec(s1, ServeEvent::Stat(PathKind::Directory), s2, a2),
        a2 is StatIndex,
        step_spec(s2, ServeEvent::IndexStat(Some(info)), s3, a3),
    ensures
        a3 is Open || a3 is Respond,
        a3 is Open ==> a3 == ActionView::Open(paths_view(p@).push(index_name())),
{
}

/// The `Content-Length` of a file reply reads back as the file's whole length, for every
/// length.
pub proof fn file_length_reads_back(name: Seq<u8>, info: FileInfo, is_head: bool)
    ensures
        file_reply(name, info, is_head).headers[1].0 == "content-length"@,
        parse_unsigned(file_reply(name, info, is_head).headers[1].1, u64::MAX as nat) == Some(info.len as nat),
{
    let d = dec(info.len as nat);
    lemma_dec_digits(info.len as nat);
    assert(is_digit(d[0]));
    assert(file_reply(name, info, is_head).headers[1].1 == d);
}

} // verus!
