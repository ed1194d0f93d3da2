//! The unified audit trail: the filters of a listing and the errors of the trail.
use vstd::prelude::*;

use crate::dates::{parse_rfc3339, rfc3339_instant, Instant};
use crate::errors::{is_bad_request, is_internal_with, is_not_found, AppError, AppResult};
use crate::text::{i64_text, int_text, opt_chars, owned, push_str};

verus! {

/// The filters of an audit-trail listing.
#[derive(Debug)]
pub struct AuditLogQuery {
    /// The acting user.
    pub actor_id: Option<i64>,
    /// The kind of entity, e.g. `invoice`.
    pub entity_type: Option<String>,
    pub entity_id: Option<i64>,
    /// The exact action, e.g. `invoice.issued`.
    pub action: Option<String>,
    /// The earliest time, RFC 3339.
    pub from: Option<String>,
    /// The latest time, RFC 3339.
    pub to: Option<String>,
    /// At most this many entries: 100 by default, never more than 500.
    pub limit: Option<u64>,
    /// Entries to skip.
    pub offset: Option<u64>,
}

/// A checked audit-trail listing.
#[derive(Debug)]
pub struct AuditFilter {
    pub actor_id: Option<i64>,
    pub entity_type: Option<String>,
    pub entity_id: Option<i64>,
    pub action: Option<String>,
    pub from: Option<Instant>,
    pub to: Option<Instant>,
    pub limit: u64,
    pub offset: u64,
}

/// Whether `t` is what the bound text `s` names (none for none).
pub open spec fn bound_of(s: Option<String>, t: Option<Instant>) -> bool {
    match s {
        Some(v) => t is Some && rfc3339_instant(v@) == Some((t->0.secs as int, t->0.nanos as int)),
        None => t is None,
    }
}

/// Whether the bound text `s`, when given, is RFC 3339.
pub open spec fn bound_ok(s: Option<String>) -> bool {
    s is None || rfc3339_instant(s->0@) is Some
}

fn parse_bound(s: &Option<String>, which: &str) -> (r: AppResult<Option<Instant>>)
    ensures
        r matches Ok(t) ==> bound_of(*s, t),
        r is Ok <==> bound_ok(*s),
        r matches Err(e) ==> s is Some && is_bad_request(
            e,
            "Invalid '"@ + which@ + "' timestamp: "@ + s->0@,
        ),
{
    match s {
        Some(v) => match parse_rfc3339(v.as_str()) {
            Some(t) => Ok(Some(t)),
            None => {
                let mut m = owned("Invalid '");
                push_str(&mut m, which);
                push_str(&mut m, "' timestamp: ");
                push_str(&mut m, v.as_str());
                Err(AppError::BadRequest(m))
            },
        },
        None => Ok(None),
    }
}

impl AuditLogQuery {
    /// Checks the listing: the limit (100 by default) is capped at 500, the offset is 0
    /// by default, and the `from` then the `to` bound must be RFC 3339.
    pub fn plan(self) -> (r: AppResult<AuditFilter>)
        ensures
            r is Ok <==> bound_ok(self.from) && bound_ok(self.to),
            !bound_ok(self.from) ==> (r matches Err(e) && is_bad_request(
                e,
                "Invalid 'from' timestamp: "@ + self.from->0@,
            )),
            bound_ok(self.from) && !bound_ok(self.to) ==> (r matches Err(e) && is_bad_request(
                e,
                "Invalid 'to' timestamp: "@ + self.to->0@,
            )),
            r matches Ok(f) ==> {
                &&& f.actor_id == self.actor_id
                &&& opt_chars(f.entity_type) == opt_chars(self.entity_type)
                &&& f.entity_id == self.entity_id
                &&& opt_chars(f.action) == opt_chars(self.action)
                &&& bound_of(self.from, f.from)
                &&& bound_of(self.to, f.to)
                &&& f.limit == (match self.limit {
                    Some(l) => if l < 500 {
                        l
                    } else {
                        500
                    },
                    None => 100,
                })
                &&& f.offset == (match self.offset {
                    Some(o) => o,
                    None => 0,
                })
            },
    {
        proof {
            reveal_strlit("Invalid '");
            reveal_strlit("from");
            reveal_strlit("to");
            reveal_strlit("' timestamp: ");
            reveal_strlit("Invalid 'from' timestamp: ");
            reveal_strlit("Invalid 'to' timestamp: ");
            assert("Invalid '"@ + "from"@ + "' timestamp: "@ =~= "Invalid 'from' timestamp: "@);
            assert("Invalid '"@ + "to"@ + "' timestamp: "@ =~= "Invalid 'to' timestamp: "@);
        }
        let l = match self.limit {
            Some(l) => l,
            None => 100,
        };
        let limit = if l < 500 {
            l
        } else {
            500
        };
        let offset = match self.offset {
            Some(o) => o,
            None => 0,
        };
        let from = parse_bound(&self.from, "from")?;
        let to = parse_bound(&self.to, "to")?;
        Ok(
            AuditFilter {
                actor_id: self.actor_id,
                entity_type: self.entity_type,
                entity_id: self.entity_id,
                action: self.action,
                from,
                to,
                limit,
                offset,
            },
        )
    }
}

/// The error for a failed write to the audit trail.
pub fn audit_write_error(db_message: &str) -> (r: AppError)
    ensures
        is_internal_with(r, "audit write failed: "@ + db_message@),
{
    let mut m = owned("audit write failed: ");
    push_str(&mut m, db_message);
    AppError::Internal(m)
}

/// The error for an audit entry that does not exist.
pub fn audit_entry_not_found(id: i64) -> (r: AppError)
    ensures
        is_not_found(r, "Audit log entry "@ + int_text(id as int) + " not found"@),
{
    let mut m = owned("Audit log entry ");
    push_str(&mut m, &i64_text(id));
    push_str(&mut m, " not found");
    AppError::NotFound(m)
}

} // verus!
