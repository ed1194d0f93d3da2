//! Events and ruleset versions: statuses, semantic-version checks, the draft-only
//! editing rules, event patches and the responses built from stored rows.
use vstd::prelude::*;

use crate::dates::{parse_rfc3339, rfc3339_instant, Instant};
use crate::errors::{fails_bad_request, is_bad_request, is_conflict, is_not_found, AppError, AppResult};
use crate::text::{
    chars_of, copy_opt, i64_text, int_text, is_empty_str, opt_chars, owned, parse_unsigned,
    parse_unsigned_chars, push_str, str_eq,
};

verus! {

// ── Event statuses ────────────────────────────────────────────────────────────

/// Where an event stands: created as a draft, then published with a ruleset.
#[derive(Debug, Clone, Copy, PartialEq, Eq, Structural)]
pub enum EventStatus {
    Draft,
    Published,
    InProgress,
    Completed,
    Cancelled,
}

pub open spec fn event_status_name(s: EventStatus) -> Seq<char> {
    match s {
        EventStatus::Draft => "draft"@,
        EventStatus::Published => "published"@,
        EventStatus::InProgress => "in_progress"@,
        EventStatus::Completed => "completed"@,
        EventStatus::Cancelled => "cancelled"@,
    }
}

pub open spec fn event_status_of(s: Seq<char>) -> Option<EventStatus> {
    if s == "draft"@ {
        Some(EventStatus::Draft)
    } else if s == "published"@ {
        Some(EventStatus::Published)
    } else if s == "in_progress"@ {
        Some(EventStatus::InProgress)
    } else if s == "completed"@ {
        Some(EventStatus::Completed)
    } else if s == "cancelled"@ {
        Some(EventStatus::Cancelled)
    } else {
        None
    }
}

/// The name of an event status.
pub fn status_str(s: &EventStatus) -> (r: &'static str)
    ensures
        r@ == event_status_name(*s),
{
    match s {
        EventStatus::Draft => "draft",
        EventStatus::Published => "published",
        EventStatus::InProgress => "in_progress",
        EventStatus::Completed => "completed",
        EventStatus::Cancelled => "cancelled",
    }
}

/// Parses an event status name.
pub fn parse_status(s: &str) -> (r: AppResult<EventStatus>)
    ensures
        r matches Ok(st) ==> event_status_of(s@) == Some(st),
        r matches Err(e) ==> is_bad_request(e, "Unknown event status '"@ + s@ + "'"@),
        r is Ok <==> event_status_of(s@) is Some,
{
    if str_eq(s, "draft") {
        Ok(EventStatus::Draft)
    } else if str_eq(s, "published") {
        Ok(EventStatus::Published)
    } else if str_eq(s, "in_progress") {
        Ok(EventStatus::InProgress)
    } else if str_eq(s, "completed") {
        Ok(EventStatus::Completed)
    } else if str_eq(s, "cancelled") {
        Ok(EventStatus::Cancelled)
    } else {
        let mut m = owned("Unknown event status '");
        push_str(&mut m, s);
        push_str(&mut m, "'");
        Err(AppError::BadRequest(m))
    }
}

/// Parsing the name of an event status gives that status back.
pub proof fn lemma_event_status_roundtrip(s: EventStatus)
    ensures
        event_status_of(event_status_name(s)) == Some(s),
{
    reveal_strlit("draft");
    reveal_strlit("published");
    reveal_strlit("in_progress");
    reveal_strlit("completed");
    reveal_strlit("cancelled");
    assert("draft"@.len() == 5);
    assert("published"@.len() == 9);
    assert("in_progress"@.len() == 11);
    assert("completed"@.len() == 9);
    assert("cancelled"@.len() == 9);
    assert("published"@[0] != "completed"@[0]);
    assert("published"@[0] != "cancelled"@[0]);
    assert("completed"@[1] != "cancelled"@[1]);
}

// ── Dates and versions ────────────────────────────────────────────────────────

/// Parses an RFC 3339 timestamp.
pub fn parse_datetime(s: &str) -> (r: AppResult<Instant>)
    ensures
        r matches Ok(t) ==> rfc3339_instant(s@) == Some((t.secs as int, t.nanos as int)),
        r matches Err(e) ==> is_bad_request(e, "Invalid datetime '"@ + s@ + "'; expected RFC 3339"@),
        r is Ok <==> rfc3339_instant(s@) is Some,
{
    match parse_rfc3339(s) {
        Some(t) => Ok(t),
        None => {
            let mut m = owned("Invalid datetime '");
            push_str(&mut m, s);
            push_str(&mut m, "'; expected RFC 3339");
            Err(AppError::BadRequest(m))
        },
    }
}

/// Whether `k` is where the text before the first `c` in `s` ends: at the first `c`,
/// or at the end of `s` when it holds none.
pub open spec fn first_stop(s: Seq<char>, c: char, k: int) -> bool {
    &&& 0 <= k <= s.len()
    &&& (k == s.len() || s[k] == c)
    &&& forall|j: int| 0 <= j < k ==> s[j] != c
}

/// The text before the first `c` in `s` (all of `s` when it holds none).
pub open spec fn before_first(s: Seq<char>, c: char) -> Seq<char> {
    s.take(choose|k: int| first_stop(s, c, k))
}

/// The numeric core of a version: what precedes a pre-release (`-…`) part, and then
/// what precedes a build (`+…`) part.
pub open spec fn semver_core(v: Seq<char>) -> Seq<char> {
    before_first(before_first(v, '-'), '+')
}

/// Whether `p` is a `u32` as `str::parse` reads one.
pub open spec fn is_u32_text(p: Seq<char>) -> bool {
    parse_unsigned(p, u32::MAX as nat) is Some
}

/// Whether `v` is accepted as a semantic version: its core is three dot-separated parts,
/// each a `u32`.
pub open spec fn valid_semver(v: Seq<char>) -> bool {
    let core = semver_core(v);
    exists|i: int, j: int|
        #![trigger core[i], core[j]]
        0 <= i < j < core.len() && core[i] == '.' && core[j] == '.' && is_u32_text(core.take(i))
            && is_u32_text(core.subrange(i + 1, j)) && is_u32_text(core.skip(j + 1))
}

proof fn lemma_first_stop_unique(s: Seq<char>, c: char, k: int)
    requires
        first_stop(s, c, k),
    ensures
        before_first(s, c) == s.take(k),
{
    let k2 = choose|k: int| first_stop(s, c, k);
    assert(first_stop(s, c, k2));
    if k2 < k {
        assert(s[k2] != c);
    } else if k < k2 {
        assert(s[k] != c);
    }
}

/// A `u32` text holds no dot.
proof fn lemma_u32_text_has_no_dot(p: Seq<char>, i: int)
    requires
        is_u32_text(p),
        0 <= i < p.len(),
    ensures
        p[i] != '.',
{
    let d = crate::text::unsigned_digits(p);
    if p.len() > 0 && p[0] == '+' {
        if i > 0 {
            assert(p[i] == d[i - 1]);
            assert(crate::text::is_digit(d[i - 1]));
        }
    } else {
        assert(p[i] == d[i]);
        assert(crate::text::is_digit(d[i]));
    }
}

fn first_index_of(v: &Vec<char>, end: usize, c: char) -> (k: usize)
    requires
        end <= v@.len(),
    ensures
        first_stop(v@.take(end as int), c, k as int),
{
    let mut k: usize = 0;
    while k < end
        invariant
            k <= end <= v@.len(),
            forall|j: int| 0 <= j < k ==> v@[j] != c,
        decreases end - k,
    {
        if v[k] == c {
            return k;
        }
        k = k + 1;
    }
    k
}

fn next_index_of(v: &Vec<char>, from: usize, end: usize, c: char) -> (k: usize)
    requires
        from <= end <= v@.len(),
    ensures
        from <= k <= end,
        k < end ==> v@[k as int] == c,
        forall|j: int| from <= j < k ==> v@[j] != c,
{
    let mut k: usize = from;
    while k < end
        invariant
            from <= k <= end <= v@.len(),
            forall|j: int| from <= j < k ==> v@[j] != c,
        decreases end - k,
    {
        if v[k] == c {
            return k;
        }
        k = k + 1;
    }
    k
}

/// Checks that `v` is a semantic version `X.Y.Z` of three `u32`s, after dropping a
/// pre-release (`-…`) and a build (`+…`) part.
pub fn validate_semver(v: &str) -> (r: AppResult<()>)
    ensures
        r is Ok <==> valid_semver(v@),
        r matches Err(e) ==> is_bad_request(
            e,
            "'"@ + v@ + "' is not a valid semantic version (expected X.Y.Z)"@,
        ),
{
    let cs = chars_of(v);
    let k1 = first_index_of(&cs, cs.len(), '-');
    let k2 = first_index_of(&cs, k1, '+');
    let ghost core = cs@.take(k2 as int);
    proof {
        assert(cs@.take(cs@.len() as int) =~= cs@);
        lemma_first_stop_unique(v@, '-', k1 as int);
        let pre = v@.take(k1 as int);
        assert(cs@.take(k1 as int) =~= pre);
        lemma_first_stop_unique(pre, '+', k2 as int);
        assert(pre.take(k2 as int) =~= core);
        assert(semver_core(v@) == core);
    }
    let i = first_index_of(&cs, k2, '.');
    let mut ok = false;
    if i < k2 {
        let j = next_index_of(&cs, i + 1, k2, '.');
        if j < k2 {
            let a = parse_unsigned_chars(&cs, 0, i, 4294967295);
            let b = parse_unsigned_chars(&cs, i + 1, j, 4294967295);
            let c = parse_unsigned_chars(&cs, j + 1, k2, 4294967295);
            ok = a.is_some() && b.is_some() && c.is_some();
            proof {
                assert(core.take(i as int) =~= cs@.subrange(0, i as int));
                assert(core.subrange(i + 1, j as int) =~= cs@.subrange(i + 1, j as int));
                assert(core.skip(j + 1) =~= cs@.subrange(j + 1, k2 as int));
                assert(core[i as int] == '.' && core[j as int] == '.');
                if !ok {
                    assert forall|x: int, y: int|
                        0 <= x < y < core.len() && core[x] == '.' && core[y] == '.' && is_u32_text(
                            core.take(x),
                        ) && is_u32_text(core.subrange(x + 1, y)) implies !is_u32_text(core.skip(y + 1)) by {
                        if x > i {
                            lemma_u32_text_has_no_dot(core.take(x), i as int);
                        }
                        if x < i {
                            assert(cs@.take(k2 as int)[x] == cs@[x]);
                        }
                        assert(x == i);
                        if y > j {
                            lemma_u32_text_has_no_dot(core.subrange(x + 1, y), j - x - 1);
                        }
                        if y < j {
                            assert(cs@[y] != '.');
                        }
                        assert(y == j);
                    }
                }
            }
        } else {
            proof {
                assert forall|x: int, y: int|
                    #![trigger core[x], core[y]]
                    0 <= x < y < core.len() && core[x] == '.' implies core[y] != '.' by {
                    if x < i {
                        assert(cs@[x] != '.');
                    }
                    if y < j {
                        assert(cs@[y] != '.');
                    }
                }
            }
        }
    } else {
        proof {
            assert forall|x: int| 0 <= x < core.len() implies core[x] != '.' by {
                assert(cs@[x] != '.');
            }
        }
    }
    if ok {
        Ok(())
    } else {
        let mut m = owned("'");
        push_str(&mut m, v);
        push_str(&mut m, "' is not a valid semantic version (expected X.Y.Z)");
        Err(AppError::BadRequest(m))
    }
}

/// An optional text field as stored: an empty string clears it.
pub open spec fn coerced_text(v: Option<Seq<char>>) -> Option<Seq<char>> {
    match v {
        Some(s) => if s.len() == 0 {
            None
        } else {
            Some(s)
        },
        None => None,
    }
}

/// Treats an empty string as a request to clear a nullable field.
pub fn coerce_optional_text(v: Option<String>) -> (r: Option<String>)
    ensures
        opt_chars(r) == coerced_text(opt_chars(v)),
{
    match v {
        Some(s) => if is_empty_str(s.as_str()) {
            None
        } else {
            Some(s)
        },
        None => None,
    }
}

} // verus!

verus! {

// ── Requests ──────────────────────────────────────────────────────────────────

/// A new event: it starts as a draft.
#[derive(Debug)]
pub struct CreateEventRequest {
    pub name: String,
    pub description: Option<String>,
    pub schedule_group: Option<String>,
    pub venue_identifier: Option<String>,
    /// Whether results need two referee reviews before they are approved.
    pub is_championship_class: bool,
    /// The equipment assets bound to the event.
    pub asset_ids: Vec<i64>,
}

/// A patch of a draft event: only the fields present are written; an empty text clears
/// a nullable field, and `asset_ids` when present replaces every binding.
#[derive(Debug)]
pub struct UpdateEventRequest {
    pub name: Option<String>,
    pub description: Option<String>,
    pub schedule_group: Option<String>,
    pub venue_identifier: Option<String>,
    pub is_championship_class: Option<bool>,
    pub asset_ids: Option<Vec<i64>>,
}

/// Publishes a draft event under a ruleset version.
#[derive(Debug)]
pub struct PublishEventRequest {
    pub ruleset_version_id: i64,
}

/// A new, immutable ruleset version.
#[derive(Debug)]
pub struct CreateRulesetRequest {
    /// A semantic version such as `2.1.0`.
    pub semantic_version: String,
    pub description: Option<String>,
    /// When the version takes effect, in RFC 3339.
    pub effective_at: String,
}

/// A rollback: a new version that supersedes an earlier one.
#[derive(Debug)]
pub struct RollbackRulesetRequest {
    pub new_semantic_version: String,
    pub description: Option<String>,
    pub effective_at: String,
}

/// Filters of an event listing.
#[derive(Debug)]
pub struct EventFilterQuery {
    pub status: Option<String>,
    pub schedule_group: Option<String>,
}

// ── Stored rows and responses ─────────────────────────────────────────────────

/// A stored event; its times are RFC 3339 texts.
#[derive(Debug)]
pub struct EventRecord {
    pub id: i64,
    pub name: String,
    pub description: Option<String>,
    pub schedule_group: Option<String>,
    pub venue_identifier: Option<String>,
    pub status: EventStatus,
    pub published_version_id: Option<i64>,
    pub is_championship_class: bool,
    pub created_by: i64,
    pub created_at: String,
    pub updated_at: String,
}

/// A stored ruleset version; its times are RFC 3339 texts.
#[derive(Debug)]
pub struct RulesetRecord {
    pub id: i64,
    pub semantic_version: String,
    pub description: Option<String>,
    pub effective_at: String,
    pub created_by: i64,
    /// The version that this one supersedes, for a rollback.
    pub rollback_of: Option<i64>,
    pub created_at: String,
}

/// An event as clients see it.
#[derive(Debug)]
pub struct EventResponse {
    pub id: i64,
    pub name: String,
    pub description: Option<String>,
    pub schedule_group: Option<String>,
    pub venue_identifier: Option<String>,
    pub status: String,
    pub is_championship_class: bool,
    pub published_version_id: Option<i64>,
    pub asset_ids: Vec<i64>,
    pub created_by: i64,
    pub created_at: String,
    pub updated_at: String,
}

/// A ruleset version as clients see it.
#[derive(Debug)]
pub struct RulesetVersionResponse {
    pub id: i64,
    pub semantic_version: String,
    pub description: Option<String>,
    pub effective_at: String,
    pub created_by: i64,
    pub rollback_of: Option<i64>,
    /// Whether the version supersedes another.
    pub is_rollback: bool,
    pub created_at: String,
}

/// The response for a stored event with its bound assets.
pub fn to_event_response(model: EventRecord, asset_ids: Vec<i64>) -> (r: EventResponse)
    ensures
        r.id == model.id,
        r.name@ == model.name@,
        opt_chars(r.description) == opt_chars(model.description),
        opt_chars(r.schedule_group) == opt_chars(model.schedule_group),
        opt_chars(r.venue_identifier) == opt_chars(model.venue_identifier),
        r.status@ == event_status_name(model.status),
        r.is_championship_class == model.is_championship_class,
        r.published_version_id == model.published_version_id,
        r.asset_ids@ == asset_ids@,
        r.created_by == model.created_by,
        r.created_at@ == model.created_at@,
        r.updated_at@ == model.updated_at@,
{
    EventResponse {
        id: model.id,
        name: model.name,
        description: model.description,
        schedule_group: model.schedule_group,
        venue_identifier: model.venue_identifier,
        status: owned(status_str(&model.status)),
        is_championship_class: model.is_championship_class,
        published_version_id: model.published_version_id,
        asset_ids,
        created_by: model.created_by,
        created_at: model.created_at,
        updated_at: model.updated_at,
    }
}

/// The response for a stored ruleset version: a rollback exactly when it supersedes
/// another version.
pub fn to_ruleset_response(model: RulesetRecord) -> (r: RulesetVersionResponse)
    ensures
        r.id == model.id,
        r.semantic_version@ == model.semantic_version@,
        opt_chars(r.description) == opt_chars(model.description),
        r.effective_at@ == model.effective_at@,
        r.created_by == model.created_by,
        r.rollback_of == model.rollback_of,
        r.is_rollback == model.rollback_of is Some,
        r.created_at@ == model.created_at@,
{
    let is_rollback = model.rollback_of.is_some();
    RulesetVersionResponse {
        id: model.id,
        semantic_version: model.semantic_version,
        description: model.description,
        effective_at: model.effective_at,
        created_by: model.created_by,
        rollback_of: model.rollback_of,
        is_rollback,
        created_at: model.created_at,
    }
}

// ── Draft-only rules ──────────────────────────────────────────────────────────

pub open spec fn not_editable_message(id: int, s: EventStatus) -> Seq<char> {
    "Event "@ + int_text(id) + " has status '"@ + event_status_name(s)
        + "' and cannot be modified; only draft events are editable"@
}

pub open spec fn not_publishable_message(id: int, s: EventStatus) -> Seq<char> {
    "Event "@ + int_text(id) + " is already '"@ + event_status_name(s)
        + "'; only draft events can be published"@
}

/// Whether an event in status `s` may be edited: only drafts may.
pub open spec fn may_edit(s: EventStatus) -> bool {
    s == EventStatus::Draft
}

/// Whether an event in status `s` may be published: only drafts may.
pub open spec fn may_publish(s: EventStatus) -> bool {
    s == EventStatus::Draft
}

/// Editing is for drafts alone: a draft may be edited, and an event in any other status
/// (published, in progress, completed or cancelled) may not; an event may be edited
/// exactly when it may still be published.
pub proof fn lemma_only_drafts_are_editable(s: EventStatus)
    ensures
        may_edit(EventStatus::Draft),
        s != EventStatus::Draft ==> !may_edit(s),
        may_edit(s) == may_publish(s),
        !may_edit(EventStatus::Published) && !may_edit(EventStatus::InProgress) && !may_edit(
            EventStatus::Completed,
        ) && !may_edit(EventStatus::Cancelled),
{
}

/// Checks that event `event_id`, in status `status`, may be edited.
pub fn ensure_editable(event_id: i64, status: EventStatus) -> (r: AppResult<()>)
    ensures
        r is Ok <==> may_edit(status),
        r is Ok <==> status == EventStatus::Draft,
        r matches Err(e) ==> is_conflict(e, not_editable_message(event_id as int, status)),
{
    if status != EventStatus::Draft {
        let mut m = owned("Event ");
        push_str(&mut m, &i64_text(event_id));
        push_str(&mut m, " has status '");
        push_str(&mut m, status_str(&status));
        push_str(&mut m, "' and cannot be modified; only draft events are editable");
        return Err(AppError::Conflict(m));
    }
    Ok(())
}

/// Checks that event `event_id`, in status `status`, may be published.
pub fn ensure_publishable(event_id: i64, status: EventStatus) -> (r: AppResult<()>)
    ensures
        r is Ok <==> may_publish(status),
        r matches Err(e) ==> is_conflict(e, not_publishable_message(event_id as int, status)),
{
    if status != EventStatus::Draft {
        let mut m = owned("Event ");
        push_str(&mut m, &i64_text(event_id));
        push_str(&mut m, " is already '");
        push_str(&mut m, status_str(&status));
        push_str(&mut m, "'; only draft events can be published");
        return Err(AppError::Conflict(m));
    }
    Ok(())
}

/// Whether `a` is event `e` with the patch `req` applied (the time of the change aside).
pub open spec fn event_patched(e: EventRecord, req: UpdateEventRequest, a: EventRecord) -> bool {
    &&& a.id == e.id
    &&& a.name@ == (match req.name {
        Some(n) => n@,
        None => e.name@,
    })
    &&& opt_chars(a.description) == (match req.description {
        Some(d) => coerced_text(Some(d@)),
        None => opt_chars(e.description),
    })
    &&& opt_chars(a.schedule_group) == (match req.schedule_group {
        Some(g) => coerced_text(Some(g@)),
        None => opt_chars(e.schedule_group),
    })
    &&& opt_chars(a.venue_identifier) == (match req.venue_identifier {
        Some(v) => coerced_text(Some(v@)),
        None => opt_chars(e.venue_identifier),
    })
    &&& a.is_championship_class == (match req.is_championship_class {
        Some(c) => c,
        None => e.is_championship_class,
    })
    &&& a.status == e.status
    &&& a.published_version_id == e.published_version_id
    &&& a.created_by == e.created_by
    &&& a.created_at@ == e.created_at@
    &&& a.updated_at@ == e.updated_at@
}

fn patch_coerced(old: Option<String>, new: Option<String>) -> (r: Option<String>)
    ensures
        opt_chars(r) == (match new {
            Some(d) => coerced_text(Some(d@)),
            None => opt_chars(old),
        }),
{
    match new {
        Some(d) => coerce_optional_text(Some(d)),
        None => old,
    }
}

/// Applies a patch to a draft event's fields; the asset bindings are the caller's.
pub fn apply_event_update(existing: EventRecord, req: UpdateEventRequest) -> (r: EventRecord)
    ensures
        event_patched(existing, req, r),
{
    let name = match req.name {
        Some(n) => n,
        None => existing.name,
    };
    let champ = match req.is_championship_class {
        Some(c) => c,
        None => existing.is_championship_class,
    };
    EventRecord {
        id: existing.id,
        name,
        description: patch_coerced(existing.description, req.description),
        schedule_group: patch_coerced(existing.schedule_group, req.schedule_group),
        venue_identifier: patch_coerced(existing.venue_identifier, req.venue_identifier),
        status: existing.status,
        published_version_id: existing.published_version_id,
        is_championship_class: champ,
        created_by: existing.created_by,
        created_at: existing.created_at,
        updated_at: existing.updated_at,
    }
}

/// A draft event published under ruleset version `ruleset_version_id`.
pub fn publish(existing: EventRecord, ruleset_version_id: i64) -> (r: EventRecord)
    ensures
        r.status == EventStatus::Published,
        r.published_version_id == Some(ruleset_version_id),
        r.id == existing.id,
        r.name@ == existing.name@,
        opt_chars(r.description) == opt_chars(existing.description),
        opt_chars(r.schedule_group) == opt_chars(existing.schedule_group),
        opt_chars(r.venue_identifier) == opt_chars(existing.venue_identifier),
        r.is_championship_class == existing.is_championship_class,
        r.created_by == existing.created_by,
        r.created_at@ == existing.created_at@,
        r.updated_at@ == existing.updated_at@,
{
    EventRecord {
        status: EventStatus::Published,
        published_version_id: Some(ruleset_version_id),
        ..existing
    }
}

/// Once published, an event can be neither edited nor published again.
pub proof fn lemma_published_event_is_frozen(s: EventStatus)
    requires
        s == EventStatus::Published,
    ensures
        !may_edit(s),
        !may_publish(s),
{
}

} // verus!

verus! {

// ── Ruleset versions ──────────────────────────────────────────────────────────

/// Checks a new ruleset version's text: the version is a semantic version, then the
/// effective time is RFC 3339, which is returned.
pub fn check_ruleset_input(semantic_version: &str, effective_at: &str) -> (r: AppResult<Instant>)
    ensures
        !valid_semver(semantic_version@) ==> fails_bad_request(
            r,
            "'"@ + semantic_version@ + "' is not a valid semantic version (expected X.Y.Z)"@,
        ),
        valid_semver(semantic_version@) && rfc3339_instant(effective_at@) is None ==> fails_bad_request(
            r,
            "Invalid datetime '"@ + effective_at@ + "'; expected RFC 3339"@,
        ),
        r is Ok <==> valid_semver(semantic_version@) && rfc3339_instant(effective_at@) is Some,
        r matches Ok(t) ==> rfc3339_instant(effective_at@) == Some((t.secs as int, t.nanos as int)),
{
    validate_semver(semantic_version)?;
    parse_datetime(effective_at)
}

/// The conflict for a ruleset version that already exists.
pub fn ruleset_exists_error(semantic_version: &str) -> (r: AppError)
    ensures
        is_conflict(r, "Ruleset version '"@ + semantic_version@ + "' already exists"@),
{
    let mut m = owned("Ruleset version '");
    push_str(&mut m, semantic_version);
    push_str(&mut m, "' already exists");
    AppError::Conflict(m)
}

/// The error for an event that does not exist.
pub fn event_not_found(event_id: i64) -> (r: AppError)
    ensures
        is_not_found(r, "Event "@ + int_text(event_id as int) + " not found"@),
{
    let mut m = owned("Event ");
    push_str(&mut m, &i64_text(event_id));
    push_str(&mut m, " not found");
    AppError::NotFound(m)
}

/// The error for a ruleset version that does not exist.
pub fn ruleset_not_found(version_id: i64) -> (r: AppError)
    ensures
        is_not_found(r, "Ruleset version "@ + int_text(version_id as int) + " not found"@),
{
    let mut m = owned("Ruleset version ");
    push_str(&mut m, &i64_text(version_id));
    push_str(&mut m, " not found");
    AppError::NotFound(m)
}

/// The error for a rollback of a ruleset version that does not exist.
pub fn rollback_target_not_found(version_id: i64) -> (r: AppError)
    ensures
        is_not_found(
            r,
            "Ruleset version "@ + int_text(version_id as int) + " not found \u{2014} cannot rollback"@,
        ),
{
    let mut m = owned("Ruleset version ");
    push_str(&mut m, &i64_text(version_id));
    push_str(&mut m, " not found \u{2014} cannot rollback");
    AppError::NotFound(m)
}

impl EventFilterQuery {
    /// The status filter, parsed.
    pub fn status_filter(&self) -> (r: AppResult<Option<EventStatus>>)
        ensures
            self.status is None ==> r == Ok::<Option<EventStatus>, AppError>(None),
            self.status is Some ==> (r is Ok <==> event_status_of(self.status->0@) is Some),
            r matches Ok(Some(s)) ==> self.status is Some && event_status_of(self.status->0@) == Some(s),
            r matches Err(e) ==> self.status is Some && is_bad_request(
                e,
                "Unknown event status '"@ + self.status->0@ + "'"@,
            ),
    {
        match &self.status {
            Some(s) => Ok(Some(parse_status(s.as_str())?)),
            None => Ok(None),
        }
    }
}

} // verus!
