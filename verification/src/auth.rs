//! Authentication and authorisation: permissions and the roles that grant them,
//! bearer tokens, sliding sessions and password checks.
use vstd::prelude::*;
use vstd::utf8::encode_utf8;

use crate::crypto::is_hex_digit;
use crate::dates::Instant;
use crate::errors::{is_forbidden, is_internal_with, is_unauthorized, AppError, AppResult};
use crate::text::{chars_of, is_prefix, owned, push_str, starts_with, string_from_chars, trim, trimmed};

verus! {

// ── Permissions and roles ─────────────────────────────────────────────────────

/// What an action needs.
#[derive(Debug, Clone, Copy, PartialEq, Eq, Structural)]
pub enum Permission {
    AuditRead,
    EventsRead,
    EventsWrite,
    FinancialsRead,
    FinancialsWrite,
    SystemAdmin,
}

/// A role held by a user, with the permissions it grants.
#[derive(Debug)]
pub struct Role {
    pub name: String,
    pub permissions: Vec<Permission>,
}

/// The identity and roles of the user behind a request, once its session is checked.
#[derive(Debug)]
pub struct AuthenticatedUser {
    pub user_id: i64,
    pub username: String,
    /// The raw bearer token, which logout needs to find the session.
    pub session_token: String,
    /// The roles the user holds now.
    pub roles: Vec<Role>,
}

impl AuthenticatedUser {
    /// Whether some role of the user grants `perm`.
    pub open spec fn grants(&self, perm: Permission) -> bool {
        exists|i: int, j: int|
            0 <= i < self.roles@.len() && 0 <= j < self.roles@[i].permissions@.len()
                && #[trigger] self.roles@[i].permissions@[j] == perm
    }

    /// Whether any of the user's roles grants `perm`.
    pub fn has_permission(&self, perm: Permission) -> (r: bool)
        ensures
            r == self.grants(perm),
    {
        let mut i: usize = 0;
        while i < self.roles.len()
            invariant
                i <= self.roles@.len(),
                forall|a: int, b: int|
                    0 <= a < i && 0 <= b < self.roles@[a].permissions@.len()
                        ==> #[trigger] self.roles@[a].permissions@[b] != perm,
            decreases self.roles.len() - i,
        {
            let ps = &self.roles[i].permissions;
            let mut j: usize = 0;
            while j < ps.len()
                invariant
                    i < self.roles@.len(),
                    *ps == self.roles@[i as int].permissions,
                    j <= ps@.len(),
                    forall|b: int| 0 <= b < j ==> ps@[b] != perm,
                decreases ps.len() - j,
            {
                if ps[j] == perm {
                    assert(self.roles@[i as int].permissions@[j as int] == perm);
                    return true;
                }
                j = j + 1;
            }
            i = i + 1;
        }
        false
    }

    /// Checks that the user holds `perm`; refuses with 403 otherwise.
    pub fn require(&self, perm: Permission) -> (r: AppResult<()>)
        ensures
            r is Ok <==> self.grants(perm),
            r matches Err(e) ==> is_forbidden(e, "Insufficient permissions"@),
    {
        if self.has_permission(perm) {
            Ok(())
        } else {
            Err(AppError::Forbidden(owned("Insufficient permissions")))
        }
    }
}

// ── Bearer tokens ─────────────────────────────────────────────────────────────

/// The token an `Authorization` header carries: what follows `Bearer `, trimmed, when
/// that is not empty.
pub open spec fn bearer_of(header: Option<Seq<char>>) -> Option<Seq<char>> {
    match header {
        Some(h) => if is_prefix("Bearer "@, h) && trimmed(h.skip(7)).len() > 0 {
            Some(trimmed(h.skip(7)))
        } else {
            None
        },
        None => None,
    }
}

pub open spec fn opt_str(o: Option<&str>) -> Option<Seq<char>> {
    match o {
        Some(s) => Some(s@),
        None => None,
    }
}

/// Reads the bearer token of an `Authorization` header.
pub fn bearer_token(header: Option<&str>) -> (r: Option<String>)
    ensures
        match r {
            Some(t) => bearer_of(opt_str(header)) == Some(t@),
            None => bearer_of(opt_str(header)) is None,
        },
{
    proof {
        reveal_strlit("Bearer ");
        assert("Bearer "@.len() == 7);
    }
    match header {
        Some(h) => {
            if !starts_with(h, "Bearer ") {
                return None;
            }
            let v = chars_of(h);
            let mut rest: Vec<char> = Vec::new();
            let mut i: usize = 7;
            while i < v.len()
                invariant
                    7 <= i <= v@.len(),
                    v@ == h@,
                    rest@ == v@.subrange(7, i as int),
                decreases v.len() - i,
            {
                rest.push(v[i]);
                assert(rest@ =~= v@.subrange(7, i + 1));
                i = i + 1;
            }
            assert(rest@ =~= h@.skip(7));
            let s = string_from_chars(&rest);
            let t = trim(s.as_str());
            if crate::text::is_empty_str(t.as_str()) {
                None
            } else {
                Some(t)
            }
        },
        None => None,
    }
}

/// The permissions a role grants, by its stored name: an administrator holds them all;
/// an event director reads and writes events and reads the audit trail; a referee reads
/// events; a finance clerk reads and writes financials; an auditor reads the audit
/// trail, financials and events. Other names are no role.
pub open spec fn role_grants_spec(name: Seq<char>) -> Option<Seq<Permission>> {
    if name == "administrator"@ {
        Some(
            seq![
                Permission::AuditRead,
                Permission::EventsRead,
                Permission::EventsWrite,
                Permission::FinancialsRead,
                Permission::FinancialsWrite,
                Permission::SystemAdmin,
            ],
        )
    } else if name == "event_director"@ {
        Some(seq![Permission::EventsRead, Permission::EventsWrite, Permission::AuditRead])
    } else if name == "referee"@ {
        Some(seq![Permission::EventsRead])
    } else if name == "finance_clerk"@ {
        Some(seq![Permission::FinancialsRead, Permission::FinancialsWrite])
    } else if name == "auditor"@ {
        Some(seq![Permission::AuditRead, Permission::FinancialsRead, Permission::EventsRead])
    } else {
        None
    }
}

/// The role with stored name `name`, with the permissions it grants; `None` for an
/// unknown name.
pub fn role_from_name(name: &str) -> (r: Option<Role>)
    ensures
        role_grants_spec(name@) is None ==> r is None,
        role_grants_spec(name@) matches Some(ps) ==> (r matches Some(role) && role.name@ == name@
            && role.permissions@ == ps),
{
    let perms: Vec<Permission> = if crate::text::str_eq(name, "administrator") {
        vec![
            Permission::AuditRead,
            Permission::EventsRead,
            Permission::EventsWrite,
            Permission::FinancialsRead,
            Permission::FinancialsWrite,
            Permission::SystemAdmin,
        ]
    } else if crate::text::str_eq(name, "event_director") {
        vec![Permission::EventsRead, Permission::EventsWrite, Permission::AuditRead]
    } else if crate::text::str_eq(name, "referee") {
        vec![Permission::EventsRead]
    } else if crate::text::str_eq(name, "finance_clerk") {
        vec![Permission::FinancialsRead, Permission::FinancialsWrite]
    } else if crate::text::str_eq(name, "auditor") {
        vec![Permission::AuditRead, Permission::FinancialsRead, Permission::EventsRead]
    } else {
        return None;
    };
    proof {
        assert(perms@ =~= role_grants_spec(name@)->0);
    }
    Some(Role { name: owned(name), permissions: perms })
}

// ── Sessions ──────────────────────────────────────────────────────────────────

/// How long a session lasts without activity, in minutes.
pub const SESSION_MINUTES: i64 = 30;

/// Whether instant `a` is not after instant `b`.
pub open spec fn not_after(a: Instant, b: Instant) -> bool {
    a.secs < b.secs || (a.secs == b.secs && a.nanos <= b.nanos)
}

/// What happens to a session when a request presents it.
#[derive(Debug)]
pub enum SessionCheck {
    /// It has expired: the request is refused and the session removed.
    Expired,
    /// It is valid: its expiry slides to the instant given.
    Extended(Instant),
}

/// Checks a session that expires at `expires_at` at instant `now`: it has expired when
/// that instant is not after `now`; otherwise its expiry moves to 30 minutes after `now`.
pub fn check_session(expires_at: Instant, now: Instant) -> (r: SessionCheck)
    requires
        now.secs + SESSION_MINUTES * 60 <= i64::MAX,
    ensures
        r is Expired <==> not_after(expires_at, now),
        r matches SessionCheck::Extended(t) ==> t.secs == now.secs + SESSION_MINUTES * 60 && t.nanos
            == now.nanos,
{
    if expires_at.secs < now.secs || (expires_at.secs == now.secs && expires_at.nanos <= now.nanos) {
        SessionCheck::Expired
    } else {
        SessionCheck::Extended(Instant { secs: now.secs + SESSION_MINUTES * 60, nanos: now.nanos })
    }
}

/// The error for a token with no session.
pub fn session_not_found() -> (r: AppError)
    ensures
        is_unauthorized(r, "Session not found"@),
{
    AppError::Unauthorized(owned("Session not found"))
}

/// The error for an expired session.
pub fn session_expired() -> (r: AppError)
    ensures
        is_unauthorized(r, "Session expired"@),
{
    AppError::Unauthorized(owned("Session expired"))
}

/// `Uuid::new_v4()` in its simple form: 32 random lowercase hexadecimal digits, the
/// version digit (the thirteenth) being `4`.
#[verifier::external_body]
fn random_uuid_simple() -> (r: String)
    ensures
        r@.len() == 32,
        forall|i: int| 0 <= i < r@.len() ==> is_hex_digit(#[trigger] r@[i]),
        r@[12] == '4',
{
    uuid::Uuid::new_v4().as_simple().to_string()
}

/// A new session token: two random version-4 UUIDs in simple form, 64 lowercase
/// hexadecimal digits in all.
pub fn new_token() -> (r: String)
    ensures
        r@.len() == 64,
        forall|i: int| 0 <= i < r@.len() ==> is_hex_digit(#[trigger] r@[i]),
        r@[12] == '4' && r@[44] == '4',
{
    let a = random_uuid_simple();
    let b = random_uuid_simple();
    let mut t = owned(a.as_str());
    push_str(&mut t, b.as_str());
    assert forall|i: int| 0 <= i < t@.len() implies is_hex_digit(#[trigger] t@[i]) by {
        if i < 32 {
            assert(t@[i] == a@[i]);
        } else {
            assert(t@[i] == b@[i - 32]);
        }
    }
    t
}

// ── Passwords ─────────────────────────────────────────────────────────────────

/// The error `PasswordHash::new` reports for the PHC string `phc`, or none when it
/// parses.
pub uninterp spec fn phc_error(phc: Seq<char>) -> Option<Seq<char>>;

/// Whether `Argon2::default().verify_password` accepts `password` for the parsed PHC
/// string `phc`.
pub uninterp spec fn argon2_accepts(password: Seq<u8>, phc: Seq<char>) -> bool;

/// What checking a password against a stored hash gives.
#[derive(Debug)]
pub enum PasswordCheck {
    /// The stored hash does not parse; the text says why.
    Malformed(String),
    Mismatch,
    Match,
}

/// Parses the PHC string `phc` with `PasswordHash::new` and, when it parses, checks
/// `password` against it with `Argon2::default().verify_password`.
#[verifier::external_body]
fn argon2_verify(password: &[u8], phc: &str) -> (r: PasswordCheck)
    ensures
        r is Malformed ==> phc_error(phc@) == Some(r->Malformed_0@),
        (r is Malformed) == (phc_error(phc@) is Some),
        (r is Match) == (phc_error(phc@) is None && argon2_accepts(password@, phc@)),
{
    match argon2::PasswordHash::new(phc) {
        Err(e) => PasswordCheck::Malformed(e.to_string()),
        Ok(parsed) => match argon2::PasswordVerifier::verify_password(
            &argon2::Argon2::default(),
            password,
            &parsed,
        ) {
            Ok(()) => PasswordCheck::Match,
            Err(_) => PasswordCheck::Mismatch,
        },
    }
}

/// Hashes `password` with `Argon2::default().hash_password` and a fresh random salt
/// (`SaltString::generate`), as a PHC string; a hash it makes parses and accepts the
/// password it was made from. With the default parameters and a generated 16-byte
/// salt, it fails only for a password longer than `MAX_PWD_LEN` (2^32 - 1) bytes.
#[verifier::external_body]
fn argon2_hash(password: &[u8]) -> (r: Result<String, String>)
    ensures
        password@.len() <= 0xFFFF_FFFF ==> r is Ok,
        r is Ok ==> phc_error(r->Ok_0@) is None && argon2_accepts(password@, r->Ok_0@),
{
    let salt = argon2::password_hash::SaltString::generate(
        &mut argon2::password_hash::rand_core::OsRng,
    );
    match argon2::PasswordHasher::hash_password(&argon2::Argon2::default(), password, &salt) {
        Ok(h) => Ok(h.to_string()),
        Err(e) => Err(e.to_string()),
    }
}

/// Whether `password` is the one hashed in the PHC string `phc`.
pub open spec fn password_matches(password: Seq<char>, phc: Seq<char>) -> bool {
    phc_error(phc) is None && argon2_accepts(vstd::utf8::encode_utf8(password), phc)
}

/// Checks a password against a stored hash: a hash that does not parse is an internal
/// error; a wrong password is refused with `refusal`.
pub fn check_password(password: &str, stored_hash: &str, refusal: &str) -> (r: AppResult<()>)
    ensures
        r is Ok <==> password_matches(password@, stored_hash@),
        phc_error(stored_hash@) matches Some(m) ==> (r matches Err(e) && is_internal_with(
            e,
            "hash parse: "@ + m,
        )),
        phc_error(stored_hash@) is None && !password_matches(password@, stored_hash@) ==> (r matches Err(
            e,
        ) && is_unauthorized(e, refusal@)),
{
    match argon2_verify(password.as_bytes(), stored_hash) {
        PasswordCheck::Malformed(e) => {
            let mut m = owned("hash parse: ");
            push_str(&mut m, e.as_str());
            Err(AppError::Internal(m))
        },
        PasswordCheck::Mismatch => Err(AppError::Unauthorized(owned(refusal))),
        PasswordCheck::Match => Ok(()),
    }
}

/// Hashes a new password; the hash accepts it. Only a password longer than 2^32 - 1
/// bytes fails to hash. A failure of the hasher is an internal
/// error whose text starts with `hash error: `.
pub fn hash_new_password(password: &str) -> (r: AppResult<String>)
    ensures
        encode_utf8(password@).len() <= 0xFFFF_FFFF ==> r is Ok,
        r matches Ok(h) ==> password_matches(password@, h@),
        r matches Err(e) ==> (e matches AppError::Internal(m) && is_prefix("hash error: "@, m@)),
{
    match argon2_hash(password.as_bytes()) {
        Ok(h) => Ok(h),
        Err(e) => {
            let mut m = owned("hash error: ");
            let ghost head = m@;
            push_str(&mut m, e.as_str());
            assert(m@.subrange(0, head.len() as int) =~= head);
            Err(AppError::Internal(m))
        },
    }
}

/// A password hashed by `hash_new_password` is accepted by `check_password`: after a
/// rotation the new password logs in.
pub proof fn lemma_new_password_checks(password: Seq<char>, hash: Seq<char>)
    requires
        phc_error(hash) is None,
        argon2_accepts(vstd::utf8::encode_utf8(password), hash),
    ensures
        password_matches(password, hash),
{
}

} // verus!
