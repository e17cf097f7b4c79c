//! Session types: listing parameters, status information and request bodies.

use vstd::prelude::*;
use crate::types::permission::Ruleset;
use crate::text::{
    bool_text, bool_to_text, decimal, i64_to_text, lemma_bool_round_trip, lemma_decimal_round_trip,
    lemma_signed_decimal_round_trip, opt_text, owned, read_bool, read_decimal, read_signed_decimal,
    signed_decimal, u64_to_text,
};

verus! {

/// A session in `OpenCode`.
#[derive(Debug, Clone)]
pub struct Session {
    /// Unique session identifier.
    pub id: String,
    /// URL-safe session slug (always present).
    pub slug: String,
    /// Project identifier (may not be present in all responses).
    pub project_id: Option<String>,
    /// Working directory for the session.
    pub directory: Option<String>,
    /// Project-relative path for the session when provided by the server.
    pub path: Option<String>,
    /// Parent session ID (for forked sessions).
    pub parent_id: Option<String>,
    /// Session summary.
    pub summary: Option<SessionSummary>,
    /// Share information.
    pub share: Option<ShareInfo>,
    /// Session title.
    pub title: String,
    /// Session version.
    pub version: String,
    /// Timestamps.
    pub time: Option<SessionTime>,
    /// Pending permission ruleset.
    pub permission: Option<Ruleset>,
    /// Revert information.
    pub revert: Option<RevertInfo>,
    /// Additional fields from server.
    pub extra: serde_json::Value,
}

/// Session summary with file changes.
#[derive(Debug, Clone)]
pub struct SessionSummary {
    /// Lines added.
    pub additions: u64,
    /// Lines deleted.
    pub deletions: u64,
    /// Number of files changed.
    pub files: u64,
    /// File diffs.
    pub diffs: Option<Vec<SnapshotFileDiff>>,
}

/// Share information.
#[derive(Debug, Clone)]
pub struct ShareInfo {
    /// Share secret (for editing).
    pub secret: Option<String>,
    /// Share URL.
    pub url: String,
}

/// Session timestamps.
#[derive(Debug, Clone)]
pub struct SessionTime {
    /// Creation timestamp.
    pub created: i64,
    /// Last update timestamp.
    pub updated: i64,
    /// Compaction timestamp.
    pub compacting: Option<i64>,
    /// Archive timestamp.
    pub archived: Option<i64>,
}

/// Revert information.
#[derive(Debug, Clone)]
pub struct RevertInfo {
    /// Message ID to revert to.
    pub message_id: String,
    /// Part ID to revert to.
    pub part_id: Option<String>,
    /// Snapshot ID.
    pub snapshot: Option<String>,
    /// Diff content.
    pub diff: Option<String>,
}

/// Request to create a new session.
#[derive(Debug, Clone)]
pub struct CreateSessionRequest {
    /// Parent session ID to fork from.
    pub parent_id: Option<String>,
    /// Optional title for the session.
    pub title: Option<String>,
    /// Initial permission ruleset.
    pub permission: Option<Ruleset>,
    /// Optional workspace ID for the session.
    pub workspace_id: Option<String>,
}

/// Request to update a session.
#[derive(Debug, Clone)]
pub struct UpdateSessionRequest {
    /// New title.
    pub title: Option<String>,
}

/// Request body for `POST /session/{sessionID}/init`.
#[derive(Debug, Clone)]
pub struct SessionInitRequest {
    /// Model identifier.
    pub model_id: String,
    /// Provider identifier.
    pub provider_id: String,
    /// Message identifier.
    pub message_id: String,
}

/// Request to summarize a session.
#[derive(Debug, Clone)]
pub struct SummarizeRequest {
    /// Provider ID.
    pub provider_id: String,
    /// Model ID.
    pub model_id: String,
    /// Whether this is automatic.
    pub auto: Option<bool>,
}

/// Request to revert a session.
#[derive(Debug, Clone)]
pub struct RevertRequest {
    /// Message ID to revert to.
    pub message_id: String,
    /// Part ID to revert to.
    pub part_id: Option<String>,
}

/// A file diff entry from the session diff endpoint.
///
/// The server returns an array of these objects representing changes to each file.
#[derive(Debug, Clone)]
pub struct SnapshotFileDiff {
    /// File path.
    pub file: String,
    /// Unified patch content.
    pub patch: String,
    /// Number of lines added.
    pub additions: u64,
    /// Number of lines deleted.
    pub deletions: u64,
    /// Diff status: "added", "deleted", or "modified".
    pub status: Option<SessionDiffStatus>,
    /// Additional fields from server.
    pub extra: serde_json::Value,
}

/// Status of a file in a session diff.
#[derive(Debug, Clone, Copy, PartialEq, Eq)]
pub enum SessionDiffStatus {
    /// File was added.
    Added,
    /// File was deleted.
    Deleted,
    /// File was modified.
    Modified,
}

/// Session diff response - a list of file diffs.
pub type SessionDiff = Vec<SnapshotFileDiff>;

/// Session todo item.
#[derive(Debug, Clone)]
pub struct TodoItem {
    /// Todo ID.
    pub id: String,
    /// Todo content.
    pub content: String,
    /// Todo status (e.g. `pending`, `completed`).
    pub status: String,
    /// Whether completed.
    pub completed: bool,
    /// Priority.
    pub priority: Option<String>,
}

/// Scope options for `GET /session` filtering.
#[derive(Clone, Copy, Debug, PartialEq, Eq, Structural)]
pub enum SessionListScope {
    /// List sessions across the current project.
    Project,
}

/// Typed query parameters for `GET /session`.
#[derive(Clone, Debug, PartialEq, Eq)]
pub struct SessionListParams {
    /// Optional scope override for whole-project listing.
    pub scope: Option<SessionListScope>,
    /// Optional project-relative path filter.
    pub path: Option<String>,
    /// Whether only root sessions should be returned.
    pub roots: Option<bool>,
    /// Only include sessions updated at or after this timestamp.
    pub start: Option<i64>,
    /// Optional case-insensitive title search term.
    pub search: Option<String>,
    /// Optional maximum number of sessions to return.
    pub limit: Option<u64>,
}

impl SessionListParams {
    /// True when no filter is set.
    pub open spec fn is_unfiltered(self) -> bool {
        &&& self.scope is None
        &&& self.path is None
        &&& self.roots is None
        &&& self.start is None
        &&& self.search is None
        &&& self.limit is None
    }
}

impl Default for SessionListParams {
    fn default() -> (r: Self)
        ensures
            r.is_unfiltered(),
    {
        SessionListParams {
            scope: None,
            path: None,
            roots: None,
            start: None,
            search: None,
            limit: None,
        }
    }
}

/// The query pair for the scope, when it is set.
pub open spec fn scope_pair(p: SessionListParams) -> Seq<(Seq<char>, Seq<char>)> {
    if p.scope is Some { seq![("scope"@, "project"@)] } else { Seq::empty() }
}

/// The query pair for the path, when it is set.
pub open spec fn path_pair(p: SessionListParams) -> Seq<(Seq<char>, Seq<char>)> {
    match p.path {
        Some(s) => seq![("path"@, s@)],
        None => Seq::empty(),
    }
}

/// The query pair for the roots flag, when it is set.
pub open spec fn roots_pair(p: SessionListParams) -> Seq<(Seq<char>, Seq<char>)> {
    match p.roots {
        Some(b) => seq![("roots"@, bool_text(b))],
        None => Seq::empty(),
    }
}

/// The query pair for the start timestamp, when it is set.
pub open spec fn start_pair(p: SessionListParams) -> Seq<(Seq<char>, Seq<char>)> {
    match p.start {
        Some(t) => seq![("start"@, signed_decimal(t as int))],
        None => Seq::empty(),
    }
}

/// The query pair for the search term, when it is set.
pub open spec fn search_pair(p: SessionListParams) -> Seq<(Seq<char>, Seq<char>)> {
    match p.search {
        Some(s) => seq![("search"@, s@)],
        None => Seq::empty(),
    }
}

/// The query pair for the limit, when it is set.
pub open spec fn limit_pair(p: SessionListParams) -> Seq<(Seq<char>, Seq<char>)> {
    match p.limit {
        Some(n) => seq![("limit"@, decimal(n as nat))],
        None => Seq::empty(),
    }
}

/// The query pairs, as text, that a set of listing parameters encodes to:
/// one pair per field that is set, in the order scope, path, roots, start,
/// search, limit.
pub open spec fn query_pairs(p: SessionListParams) -> Seq<(Seq<char>, Seq<char>)> {
    scope_pair(p) + path_pair(p) + roots_pair(p) + start_pair(p) + search_pair(p) + limit_pair(p)
}

/// Listing parameters encode to no query pair exactly when no filter is set,
/// so listing with default parameters sends a bare `GET /session`.
pub proof fn lemma_query_empty_iff_unfiltered(p: SessionListParams)
    ensures
        query_pairs(p).len() == 0 <==> p.is_unfiltered(),
{
}

/// The number of listing parameters that are set.
pub open spec fn set_field_count(p: SessionListParams) -> nat {
    (if p.scope is Some { 1nat } else { 0nat }) + (if p.path is Some { 1nat } else { 0nat })
        + (if p.roots is Some { 1nat } else { 0nat }) + (if p.start is Some { 1nat } else { 0nat })
        + (if p.search is Some { 1nat } else { 0nat }) + (if p.limit is Some { 1nat } else { 0nat })
}

/// Every listing parameter that is set is sent, whatever the others are: the
/// query holds its pair (key and encoded value), and it holds one pair per
/// parameter that is set and no more.
pub proof fn lemma_each_set_field_is_sent(p: SessionListParams)
    ensures
        query_pairs(p).len() == set_field_count(p),
        p.scope is Some ==> query_pairs(p).contains(("scope"@, "project"@)),
        p.path matches Some(s) ==> query_pairs(p).contains(("path"@, s@)),
        p.roots matches Some(b) ==> query_pairs(p).contains(("roots"@, bool_text(b))),
        p.start matches Some(t) ==> query_pairs(p).contains(("start"@, signed_decimal(t as int))),
        p.search matches Some(s) ==> query_pairs(p).contains(("search"@, s@)),
        p.limit matches Some(n) ==> query_pairs(p).contains(("limit"@, decimal(n as nat))),
{
    let q = query_pairs(p);
    let s0 = scope_pair(p);
    let s1 = path_pair(p);
    let s2 = roots_pair(p);
    let s3 = start_pair(p);
    let s4 = search_pair(p);
    let s5 = limit_pair(p);
    let i1 = s0.len() as int;
    let i2 = i1 + s1.len();
    let i3 = i2 + s2.len();
    let i4 = i3 + s3.len();
    let i5 = i4 + s4.len();
    if p.scope is Some {
        assert(q[0] == s0[0]);
    }
    if p.path is Some {
        assert(q[i1] == s1[0]);
    }
    if p.roots is Some {
        assert(q[i2] == s2[0]);
    }
    if p.start is Some {
        assert(q[i3] == s3[0]);
    }
    if p.search is Some {
        assert(q[i4] == s4[0]);
    }
    if p.limit is Some {
        assert(q[i5] == s5[0]);
    }
}

/// True when a query pair's value reads back as the listing parameter it
/// names.
pub open spec fn pair_reads_back(p: SessionListParams, pr: (Seq<char>, Seq<char>)) -> bool {
    let (k, v) = pr;
    &&& (k == "scope"@ ==> p.scope is Some && v == "project"@)
    &&& (k == "path"@ ==> opt_text(p.path) == Some(v))
    &&& (k == "roots"@ ==> p.roots is Some && read_bool(v) == p.roots)
    &&& (k == "start"@ ==> p.start is Some && read_signed_decimal(v) == Some(p.start->0 as int))
    &&& (k == "search"@ ==> opt_text(p.search) == Some(v))
    &&& (k == "limit"@ ==> p.limit is Some && read_decimal(v) == Some(p.limit->0 as nat))
}

proof fn lemma_all_read_back_concat(p: SessionListParams, a: Seq<(Seq<char>, Seq<char>)>, b: Seq<(Seq<char>, Seq<char>)>)
    requires
        forall|i: int| 0 <= i < a.len() ==> pair_reads_back(p, #[trigger] a[i]),
        forall|i: int| 0 <= i < b.len() ==> pair_reads_back(p, #[trigger] b[i]),
    ensures
        forall|i: int| 0 <= i < (a + b).len() ==> pair_reads_back(p, #[trigger] (a + b)[i]),
{
    assert forall|i: int| 0 <= i < (a + b).len() implies pair_reads_back(p, #[trigger] (a + b)[i]) by {
        if i < a.len() {
            assert((a + b)[i] == a[i]);
        } else {
            assert((a + b)[i] == b[i - a.len()]);
        }
    }
}

/// Every value among the query pairs reads back as the field it came from:
/// the scope as `project`, the roots flag as a boolean, the start as a signed
/// decimal, the limit as a decimal, and the path and search term as the text
/// itself, unescaped.
pub proof fn lemma_query_values_read_back(p: SessionListParams)
    ensures
        forall|i: int| 0 <= i < query_pairs(p).len() ==> pair_reads_back(p, #[trigger] query_pairs(p)[i]),
{
    reveal_strlit("scope");
    reveal_strlit("path");
    reveal_strlit("roots");
    reveal_strlit("start");
    reveal_strlit("search");
    reveal_strlit("limit");
    assert("scope"@ != "path"@) by { assert("scope"@.len() != "path"@.len()); }
    assert("scope"@ != "roots"@) by { assert("scope"@[0] != "roots"@[0]); }
    assert("scope"@ != "start"@) by { assert("scope"@[1] != "start"@[1]); }
    assert("scope"@ != "search"@) by { assert("scope"@.len() != "search"@.len()); }
    assert("scope"@ != "limit"@) by { assert("scope"@[0] != "limit"@[0]); }
    assert("path"@ != "roots"@) by { assert("path"@.len() != "roots"@.len()); }
    assert("path"@ != "start"@) by { assert("path"@.len() != "start"@.len()); }
    assert("path"@ != "search"@) by { assert("path"@.len() != "search"@.len()); }
    assert("path"@ != "limit"@) by { assert("path"@.len() != "limit"@.len()); }
    assert("roots"@ != "start"@) by { assert("roots"@[0] != "start"@[0]); }
    assert("roots"@ != "search"@) by { assert("roots"@.len() != "search"@.len()); }
    assert("roots"@ != "limit"@) by { assert("roots"@[0] != "limit"@[0]); }
    assert("start"@ != "search"@) by { assert("start"@.len() != "search"@.len()); }
    assert("start"@ != "limit"@) by { assert("start"@[0] != "limit"@[0]); }
    assert("search"@ != "limit"@) by { assert("search"@.len() != "limit"@.len()); }
    if let Some(b) = p.roots {
        lemma_bool_round_trip(b);
    }
    if let Some(t) = p.start {
        lemma_signed_decimal_round_trip(t as int);
    }
    if let Some(n) = p.limit {
        lemma_decimal_round_trip(n as nat);
    }
    let s0 = scope_pair(p);
    let s1 = path_pair(p);
    let s2 = roots_pair(p);
    let s3 = start_pair(p);
    let s4 = search_pair(p);
    let s5 = limit_pair(p);
    assert forall|i: int| 0 <= i < s0.len() implies pair_reads_back(p, #[trigger] s0[i]) by {}
    assert forall|i: int| 0 <= i < s1.len() implies pair_reads_back(p, #[trigger] s1[i]) by {}
    assert forall|i: int| 0 <= i < s2.len() implies pair_reads_back(p, #[trigger] s2[i]) by {}
    assert forall|i: int| 0 <= i < s3.len() implies pair_reads_back(p, #[trigger] s3[i]) by {}
    assert forall|i: int| 0 <= i < s4.len() implies pair_reads_back(p, #[trigger] s4[i]) by {}
    assert forall|i: int| 0 <= i < s5.len() implies pair_reads_back(p, #[trigger] s5[i]) by {}
    lemma_all_read_back_concat(p, s0, s1);
    lemma_all_read_back_concat(p, s0 + s1, s2);
    lemma_all_read_back_concat(p, s0 + s1 + s2, s3);
    lemma_all_read_back_concat(p, s0 + s1 + s2 + s3, s4);
    lemma_all_read_back_concat(p, s0 + s1 + s2 + s3 + s4, s5);
}

/// Text view of a list of query pairs.
pub open spec fn pairs_text(v: Seq<(&'static str, String)>) -> Seq<(Seq<char>, Seq<char>)> {
    v.map_values(|p: (&'static str, String)| (p.0@, p.1@))
}

impl SessionListParams {
    /// Construct params for whole-project listing.
    pub fn project() -> (r: Self)
        ensures
            r.scope == Some(SessionListScope::Project),
            r.path is None,
            r.roots is None,
            r.start is None,
            r.search is None,
            r.limit is None,
    {
        SessionListParams {
            scope: Some(SessionListScope::Project),
            path: None,
            roots: None,
            start: None,
            search: None,
            limit: None,
        }
    }

    /// Encode params into query pairs for `GET /session`.
    pub fn to_query_pairs(&self) -> (r: Vec<(&'static str, String)>)
        ensures
            pairs_text(r@) == query_pairs(*self),
    {
        let mut query: Vec<(&'static str, String)> = Vec::new();
        let ghost mut expect: Seq<(Seq<char>, Seq<char>)> = Seq::empty();
        assert(pairs_text(query@) =~= expect);

        if let Some(_scope) = self.scope {
            query.push(("scope", owned("project")));
        }
        proof {
            expect = scope_pair(*self);
        }
        assert(pairs_text(query@) =~= expect);

        if let Some(path) = &self.path {
            query.push(("path", path.clone()));
        }
        proof {
            expect = expect + path_pair(*self);
        }
        assert(pairs_text(query@) =~= expect);

        if let Some(roots) = self.roots {
            query.push(("roots", bool_to_text(roots)));
        }
        proof {
            expect = expect + roots_pair(*self);
        }
        assert(pairs_text(query@) =~= expect);

        if let Some(start) = self.start {
            query.push(("start", i64_to_text(start)));
        }
        proof {
            expect = expect + start_pair(*self);
        }
        assert(pairs_text(query@) =~= expect);

        if let Some(search) = &self.search {
            query.push(("search", search.clone()));
        }
        proof {
            expect = expect + search_pair(*self);
        }
        assert(pairs_text(query@) =~= expect);

        if let Some(limit) = self.limit {
            query.push(("limit", u64_to_text(limit)));
        }
        proof {
            expect = expect + limit_pair(*self);
        }
        assert(pairs_text(query@) =~= expect);
        assert(expect =~= query_pairs(*self));
        query
    }
}

/// Legacy-compatible session status summary.
#[derive(Clone, Debug)]
pub struct SessionStatus {
    /// Active session ID.
    pub active_session_id: Option<String>,
    /// Whether any session is busy.
    pub busy: bool,
}

/// Rich per-session status information returned by `/session/status`.
#[derive(Clone, Debug, PartialEq, Eq)]
pub enum SessionStatusInfo {
    /// Session is idle.
    Idle,
    /// Session is busy processing work.
    Busy,
    /// Session is retrying work.
    Retry {
        /// Retry attempt number.
        attempt: u64,
        /// Retry message/reason.
        message: String,
        /// Next retry timestamp.
        next: u64,
    },
}

impl SessionStatusInfo {
    /// A copy of this status.
    pub fn duplicate(&self) -> (r: Self)
        ensures
            r == *self,
    {
        match self {
            SessionStatusInfo::Idle => SessionStatusInfo::Idle,
            SessionStatusInfo::Busy => SessionStatusInfo::Busy,
            SessionStatusInfo::Retry { attempt, message, next } => SessionStatusInfo::Retry {
                attempt: *attempt,
                message: message.clone(),
                next: *next,
            },
        }
    }
}

/// A session counts as active when it is busy or retrying.
pub open spec fn is_active(s: SessionStatusInfo) -> bool {
    s is Busy || s is Retry
}

/// The ids of the active sessions of a status table, in table order.
pub open spec fn active_ids(entries: Seq<(String, SessionStatusInfo)>) -> Seq<Seq<char>>
    decreases entries.len(),
{
    if entries.len() == 0 {
        Seq::empty()
    } else {
        let rest = active_ids(entries.drop_last());
        if is_active(entries.last().1) {
            rest.push(entries.last().0@)
        } else {
            rest
        }
    }
}

/// The status a table records for a session: that of the first entry with
/// its id, or idle when there is none.
pub open spec fn status_lookup(entries: Seq<(String, SessionStatusInfo)>, id: Seq<char>) -> SessionStatusInfo
    decreases entries.len(),
{
    if entries.len() == 0 {
        SessionStatusInfo::Idle
    } else if entries[0].0@ == id {
        entries[0].1
    } else {
        status_lookup(entries.drop_first(), id)
    }
}

/// Session ids are unique in a status table, as in the map it is read from.
pub open spec fn keys_unique(entries: Seq<(String, SessionStatusInfo)>) -> bool {
    forall|i: int, j: int| 0 <= i < j < entries.len() ==> entries[i].0@ != entries[j].0@
}

proof fn lemma_active_ids_concat(a: Seq<(String, SessionStatusInfo)>, b: Seq<(String, SessionStatusInfo)>)
    ensures
        active_ids(a + b) == active_ids(a) + active_ids(b),
    decreases b.len(),
{
    if b.len() == 0 {
        assert(a + b =~= a);
        assert(active_ids(a) + active_ids(b) =~= active_ids(a));
    } else {
        assert((a + b).drop_last() =~= a + b.drop_last());
        lemma_active_ids_concat(a, b.drop_last());
        if is_active(b.last().1) {
            assert(active_ids(a) + active_ids(b) =~= (active_ids(a) + active_ids(b.drop_last())).push(b.last().0@));
        } else {
            assert(active_ids(a) + active_ids(b) =~= active_ids(a) + active_ids(b.drop_last()));
        }
    }
}

proof fn lemma_active_ids_member(e: Seq<(String, SessionStatusInfo)>, k: int)
    requires
        0 <= k < active_ids(e).len(),
    ensures
        exists|i: int| 0 <= i < e.len() && e[i].0@ == active_ids(e)[k] && is_active(#[trigger] e[i].1),
    decreases e.len(),
{
    let init = e.drop_last();
    if k < active_ids(init).len() {
        lemma_active_ids_member(init, k);
        let i = choose|i: int| 0 <= i < init.len() && init[i].0@ == active_ids(init)[k] && is_active(#[trigger] init[i].1);
        assert(e[i] == init[i]);
    } else {
        assert(e[e.len() - 1].0@ == active_ids(e)[k]);
    }
}

proof fn lemma_active_entry_counted(e: Seq<(String, SessionStatusInfo)>, i: int)
    requires
        0 <= i < e.len(),
        is_active(e[i].1),
    ensures
        active_ids(e).len() > 0,
    decreases e.len(),
{
    if i < e.len() - 1 {
        lemma_active_entry_counted(e.drop_last(), i);
    }
}

proof fn lemma_lookup_is_entry(e: Seq<(String, SessionStatusInfo)>, id: Seq<char>)
    ensures
        status_lookup(e, id) is Idle || exists|i: int| 0 <= i < e.len() && #[trigger] e[i].1 == status_lookup(e, id),
    decreases e.len(),
{
    if e.len() > 0 && e[0].0@ != id {
        lemma_lookup_is_entry(e.drop_first(), id);
        if !(status_lookup(e, id) is Idle) {
            let i = choose|i: int| 0 <= i < e.drop_first().len() && #[trigger] e.drop_first()[i].1 == status_lookup(e.drop_first(), id);
            assert(e[i + 1].1 == status_lookup(e, id));
        }
    }
}

proof fn lemma_lookup_index(e: Seq<(String, SessionStatusInfo)>, i: int)
    requires
        keys_unique(e),
        0 <= i < e.len(),
    ensures
        status_lookup(e, e[i].0@) == e[i].1,
    decreases e.len(),
{
    if i > 0 {
        assert(e[0].0@ != e[i].0@);
        let rest = e.drop_first();
        assert(keys_unique(rest)) by {
            assert forall|a: int, b: int| 0 <= a < b < rest.len() implies rest[a].0@ != rest[b].0@ by {
                assert(rest[a] == e[a + 1] && rest[b] == e[b + 1]);
            }
        }
        lemma_lookup_index(rest, i - 1);
        assert(rest[i - 1] == e[i]);
    }
}

/// The active sessions of a status table are exactly its busy and retrying
/// entries, in table order, each listed once per entry: the table filtered
/// to those statuses, taken by id.
pub proof fn lemma_active_ids_are_busy_or_retrying(e: Seq<(String, SessionStatusInfo)>)
    ensures
        active_ids(e) == e.filter(|p: (String, SessionStatusInfo)| p.1 is Busy || p.1 is Retry).map_values(
            |p: (String, SessionStatusInfo)| p.0@,
        ),
    decreases e.len(),
{
    reveal(Seq::filter);
    let pred = |p: (String, SessionStatusInfo)| p.1 is Busy || p.1 is Retry;
    let f = |p: (String, SessionStatusInfo)| p.0@;
    if e.len() == 0 {
        assert(e.filter(pred).map_values(f) =~= Seq::<Seq<char>>::empty());
    } else {
        let init = e.drop_last();
        lemma_active_ids_are_busy_or_retrying(init);
        let sub = init.filter(pred);
        assert(active_ids(init) == sub.map_values(f));
        if pred(e.last()) {
            assert(e.filter(pred) == sub.push(e.last()));
            assert(sub.push(e.last()).map_values(f) =~= sub.map_values(f).push(f(e.last())));
            assert(active_ids(e) == active_ids(init).push(e.last().0@));
        } else {
            assert(e.filter(pred) == sub);
            assert(active_ids(e) == active_ids(init));
        }
        assert(active_ids(e) =~= e.filter(pred).map_values(f));
    }
}

/// Looking up a session in a table with distinct ids gives the status of the
/// entry with that id, and idle when no entry has it.
pub proof fn lemma_lookup_finds_the_entry(e: Seq<(String, SessionStatusInfo)>, id: Seq<char>)
    ensures
        keys_unique(e) ==> forall|i: int| 0 <= i < e.len() && #[trigger] e[i].0@ == id ==> status_lookup(e, id) == e[i].1,
        (forall|i: int| 0 <= i < e.len() ==> #[trigger] e[i].0@ != id) ==> status_lookup(e, id) is Idle,
    decreases e.len(),
{
    if keys_unique(e) {
        assert forall|i: int| 0 <= i < e.len() && #[trigger] e[i].0@ == id implies status_lookup(e, id) == e[i].1 by {
            lemma_lookup_index(e, i);
        }
    }
    if e.len() > 0 {
        lemma_lookup_finds_the_entry(e.drop_first(), id);
        if forall|i: int| 0 <= i < e.len() ==> #[trigger] e[i].0@ != id {
            assert(e[0].0@ != id);
            assert forall|i: int| 0 <= i < e.drop_first().len() implies #[trigger] e.drop_first()[i].0@ != id by {
                assert(e.drop_first()[i] == e[i + 1]);
            }
        }
    }
}

/// The summary agrees with the per-session lookups of the same table: when
/// no session is active, looking up any session yields an inactive status,
/// and the session that a summary names as the active one is busy or
/// retrying when looked up.
pub proof fn lemma_summary_agrees_with_lookup(e: Seq<(String, SessionStatusInfo)>)
    requires
        keys_unique(e),
    ensures
        active_ids(e).len() == 0 ==> forall|id: Seq<char>| !is_active(#[trigger] status_lookup(e, id)),
        active_ids(e).len() == 1 ==> is_active(status_lookup(e, active_ids(e)[0])),
{
    if active_ids(e).len() == 0 {
        assert forall|id: Seq<char>| !is_active(#[trigger] status_lookup(e, id)) by {
            lemma_lookup_is_entry(e, id);
            if is_active(status_lookup(e, id)) {
                let i = choose|i: int| 0 <= i < e.len() && #[trigger] e[i].1 == status_lookup(e, id);
                lemma_active_entry_counted(e, i);
            }
        }
    }
    if active_ids(e).len() == 1 {
        lemma_active_ids_member(e, 0);
        let i = choose|i: int| 0 <= i < e.len() && e[i].0@ == active_ids(e)[0] && is_active(#[trigger] e[i].1);
        lemma_lookup_index(e, i);
    }
}

proof fn lemma_active_ids_permutation(e1: Seq<(String, SessionStatusInfo)>, e2: Seq<(String, SessionStatusInfo)>)
    requires
        e1.to_multiset() == e2.to_multiset(),
    ensures
        active_ids(e1).to_multiset() == active_ids(e2).to_multiset(),
    decreases e1.len(),
{
    broadcast use vstd::seq_lib::group_to_multiset_ensures, vstd::multiset::group_multiset_axioms;

    vstd::seq_lib::to_multiset_len(e1);
    vstd::seq_lib::to_multiset_len(e2);
    if e1.len() == 0 {
        assert(e2.len() == 0);
        assert(e2 =~= Seq::<(String, SessionStatusInfo)>::empty());
    } else {
        let x = e1.last();
        let init1 = e1.drop_last();
        assert(e1 =~= init1.push(x));
        assert(e2.to_multiset().contains(x));
        let j = choose|j: int| 0 <= j < e2.len() && e2[j] == x;
        let rest2 = e2.remove(j);
        vstd::seq_lib::to_multiset_remove(e2, j);
        assert(rest2.to_multiset() =~= init1.to_multiset());
        lemma_active_ids_permutation(init1, rest2);
        let a = e2.subrange(0, j);
        let b = e2.subrange(j + 1, e2.len() as int);
        assert(e2 =~= a + seq![x] + b);
        assert(rest2 =~= a + b);
        lemma_active_ids_concat(a, seq![x]);
        lemma_active_ids_concat(a + seq![x], b);
        lemma_active_ids_concat(a, b);
        let xs = active_ids(seq![x]);
        assert(seq![x].drop_last() =~= Seq::<(String, SessionStatusInfo)>::empty());
        assert(e1 =~= init1 + seq![x]);
        lemma_active_ids_concat(init1, seq![x]);
        vstd::seq_lib::lemma_multiset_commutative(active_ids(init1), xs);
        vstd::seq_lib::lemma_multiset_commutative(active_ids(a) + xs, active_ids(b));
        vstd::seq_lib::lemma_multiset_commutative(active_ids(a), xs);
        vstd::seq_lib::lemma_multiset_commutative(active_ids(a), active_ids(b));
        assert(active_ids(e1).to_multiset() =~= active_ids(e2).to_multiset());
    }
}

/// The summary of a status table does not depend on the order of its
/// entries: tables holding the same entries have the same number of active
/// sessions, and the same single active session when there is one.
pub proof fn lemma_summary_order_independent(e1: Seq<(String, SessionStatusInfo)>, e2: Seq<(String, SessionStatusInfo)>)
    requires
        e1.to_multiset() == e2.to_multiset(),
    ensures
        active_ids(e1).len() == active_ids(e2).len(),
        active_ids(e1).len() == 1 ==> active_ids(e1)[0] == active_ids(e2)[0],
{
    broadcast use vstd::seq_lib::group_to_multiset_ensures, vstd::multiset::group_multiset_axioms;

    lemma_active_ids_permutation(e1, e2);
    let a1 = active_ids(e1);
    let a2 = active_ids(e2);
    vstd::seq_lib::to_multiset_len(a1);
    vstd::seq_lib::to_multiset_len(a2);
    if a1.len() == 1 {
        assert(a1.to_multiset().contains(a1[0]));
        assert(a2.to_multiset().contains(a1[0]));
    }
}

/// Condenses a per-session status table into the legacy summary: busy when
/// any session is busy or retrying, and naming the active session when
/// there is exactly one.
pub fn summarize_status(entries: &[(String, SessionStatusInfo)]) -> (r: SessionStatus)
    ensures
        r.busy == (active_ids(entries@).len() > 0),
        r.active_session_id is Some <==> active_ids(entries@).len() == 1,
        r.active_session_id matches Some(id) ==> id@ == active_ids(entries@)[0],
{
    let mut count: usize = 0;
    let mut first: Option<String> = None;
    let mut i: usize = 0;
    assert(entries@.take(0) =~= Seq::<(String, SessionStatusInfo)>::empty());
    while i < entries.len()
        invariant
            i <= entries@.len(),
            count == active_ids(entries@.take(i as int)).len(),
            count <= i,
            first is Some <==> count > 0,
            first matches Some(f) ==> f@ == active_ids(entries@.take(i as int))[0],
        decreases entries@.len() - i,
    {
        assert(entries@.take(i + 1).drop_last() =~= entries@.take(i as int));
        let active = match &entries[i].1 {
            SessionStatusInfo::Busy => true,
            SessionStatusInfo::Retry { .. } => true,
            SessionStatusInfo::Idle => false,
        };
        if active {
            if count == 0 {
                first = Some(entries[i].0.clone());
            }
            count = count + 1;
        }
        i = i + 1;
    }
    assert(entries@.take(entries@.len() as int) =~= entries@);
    let busy = count > 0;
    let active_session_id = if count == 1 { first } else { None };
    SessionStatus { active_session_id, busy }
}

/// The status of one session in a per-session status table; idle when the
/// table has no entry for it.
pub fn status_for_session(entries: &[(String, SessionStatusInfo)], session_id: &str) -> (r: SessionStatusInfo)
    ensures
        r == status_lookup(entries@, session_id@),
{
    let mut i: usize = 0;
    assert(entries@.skip(0) =~= entries@);
    while i < entries.len()
        invariant
            i <= entries@.len(),
            status_lookup(entries@, session_id@) == status_lookup(entries@.skip(i as int), session_id@),
        decreases entries@.len() - i,
    {
        assert(entries@.skip(i as int)[0] == entries@[i as int]);
        assert(entries@.skip(i as int).drop_first() =~= entries@.skip(i + 1));
        if crate::text::str_equal(entries[i].0.as_str(), session_id) {
            return entries[i].1.duplicate();
        }
        i = i + 1;
    }
    SessionStatusInfo::Idle
}

} // verus!
