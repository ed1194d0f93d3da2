//! Backup files: naming, listing, rotation, restore staging checks and the nightly
//! schedule.
use vstd::prelude::*;
use vstd::utf8::is_ascii_chars;

use crate::dates::{push_year, year_text};
use crate::decimal::zero_pad;
use crate::errors::{fails_bad_request, AppError, AppResult};
use crate::text::{
    chars_of, contains_char, contains_str, ends_with, has_char, has_substr, is_prefix, is_suffix,
    lemma_lex_lt_irreflexive, lemma_lex_lt_total, lemma_lex_lt_transitive, lex_lt,
    owned, padded_digits, push_padded, push_str, starts_with, str_lt,
    string_from_chars, u64_text,
};

verus! {

/// Filename prefix of every backup file.
pub const BACKUP_PREFIX: &'static str = "backup_";

/// Extension of backup files.
pub const BACKUP_EXT: &'static str = "sqlite";

/// Marker file that stages a restore for the next start.
pub const RESTORE_MARKER: &'static str = ".restore_pending";

/// Metadata of one backup file.
#[derive(Debug)]
pub struct BackupEntry {
    /// Filename only, e.g. `backup_20260407_230000.sqlite`.
    pub filename: String,
    /// File size in bytes.
    pub size_bytes: u64,
    /// ISO 8601 timestamp taken from the filename.
    pub created_at: String,
}

/// Listing of the retained backups.
#[derive(Debug)]
pub struct BackupListResponse {
    pub backups: Vec<BackupEntry>,
    pub backup_dir: String,
    pub retain_days: u32,
}

/// Response to creating a backup or staging a restore.
#[derive(Debug)]
pub struct BackupActionResponse {
    pub status: String,
    pub message: String,
    pub backup: Option<BackupEntry>,
}

// ── Database URL ──────────────────────────────────────────────────────────────

/// The path in a SQLite URL: what follows `sqlite://`.
pub open spec fn db_path_spec(url: Seq<char>) -> Option<Seq<char>> {
    if is_prefix("sqlite://"@, url) {
        Some(url.skip(9))
    } else {
        None
    }
}

pub open spec fn opt_string_view(o: Option<String>) -> Option<Seq<char>> {
    match o {
        Some(s) => Some(s@),
        None => None,
    }
}

/// The filesystem path in a SQLite `DATABASE_URL`: `sqlite:///abs.db` gives `/abs.db`,
/// `sqlite://./rel.db` gives `./rel.db`, `sqlite://rel.db` gives `rel.db`; other
/// schemes give `None`.
pub fn db_path_from_url(url: &str) -> (r: Option<String>)
    ensures
        opt_string_view(r) == db_path_spec(url@),
{
    proof {
        reveal_strlit("sqlite://");
    }
    if !starts_with(url, "sqlite://") {
        return None;
    }
    let v = chars_of(url);
    let mut out: Vec<char> = Vec::new();
    let mut i: usize = 9;
    while i < v.len()
        invariant
            v@ == url@,
            9 <= i <= v.len(),
            out@ == v@.subrange(9, i as int),
        decreases v.len() - i,
    {
        out.push(v[i]);
        assert(v@.subrange(9, i as int).push(v@[i as int]) =~= v@.subrange(9, i + 1));
        i = i + 1;
    }
    assert(v@.subrange(9, v.len() as int) =~= url@.skip(9));
    Some(string_from_chars(&out))
}

// ── Backup filenames ──────────────────────────────────────────────────────────

/// A UTC date and time, to the microsecond.
#[derive(Debug, Clone, Copy)]
pub struct Timestamp {
    pub year: i32,
    pub month: u32,
    pub day: u32,
    pub hour: u32,
    pub minute: u32,
    pub second: u32,
    pub micros: u32,
}

/// `backup_YYYYMMDD_HHMMSS_UUUUUU.sqlite` for the time `t`.
pub open spec fn backup_filename_spec(t: Timestamp) -> Seq<char> {
    "backup_"@ + year_text(t.year as int) + padded_digits(t.month as nat, 2) + padded_digits(
        t.day as nat,
        2,
    ) + "_"@ + padded_digits(t.hour as nat, 2) + padded_digits(t.minute as nat, 2)
        + padded_digits(t.second as nat, 2) + "_"@ + padded_digits(t.micros as nat, 6)
        + ".sqlite"@
}

/// The name of a backup taken at time `t`; the microseconds keep backups taken within
/// the same second apart.
pub fn backup_filename(t: Timestamp) -> (r: String)
    ensures
        r@ == backup_filename_spec(t),
{
    let mut out = owned("backup_");
    push_year(&mut out, t.year);
    push_padded(&mut out, t.month as u64, 2);
    push_padded(&mut out, t.day as u64, 2);
    push_str(&mut out, "_");
    push_padded(&mut out, t.hour as u64, 2);
    push_padded(&mut out, t.minute as u64, 2);
    push_padded(&mut out, t.second as u64, 2);
    push_str(&mut out, "_");
    push_padded(&mut out, t.micros as u64, 6);
    push_str(&mut out, ".sqlite");
    out
}

/// The timestamp part of a backup filename: what lies between `backup_` and
/// `.sqlite`; `None` for names that do not match the scheme.
pub open spec fn ts_part(name: Seq<char>) -> Option<Seq<char>> {
    if is_prefix("backup_"@, name) && is_suffix("sqlite"@, name) && is_suffix(
        ".sqlite"@,
        name.skip(7),
    ) {
        Some(name.subrange(7, name.len() - 7))
    } else {
        None
    }
}

/// The ISO 8601 date and time of a compact timestamp `YYYYMMDD_HHMMSS...`:
/// `YYYY-MM-DDTHH:MM:SS`.
pub open spec fn iso_date_time(ts: Seq<char>) -> Seq<char> {
    ts.subrange(0, 4) + seq!['-'] + ts.subrange(4, 6) + seq!['-'] + ts.subrange(6, 8) + seq!['T']
        + ts.subrange(9, 11) + seq![':'] + ts.subrange(11, 13) + seq![':'] + ts.subrange(13, 15)
}

/// A compact timestamp as ISO 8601: `YYYYMMDD_HHMMSS` (15 ASCII characters) as
/// `YYYY-MM-DDTHH:MM:SSZ`, and `YYYYMMDD_HHMMSS_UUUUUU` (22 ASCII characters, as
/// `backup_filename` writes it) as `YYYY-MM-DDTHH:MM:SS.UUUUUUZ`; any other text as it is.
pub open spec fn created_at_spec(ts: Seq<char>) -> Seq<char> {
    if ts.len() == 15 && is_ascii_chars(ts) {
        iso_date_time(ts) + seq!['Z']
    } else if ts.len() == 22 && is_ascii_chars(ts) {
        iso_date_time(ts) + seq!['.'] + ts.subrange(16, 22) + seq!['Z']
    } else {
        ts
    }
}


/// The backup entry for a file named `name` of `size` bytes, if the name follows the
/// backup naming scheme.
pub open spec fn entry_spec(name: Seq<char>) -> Option<Seq<char>> {
    match ts_part(name) {
        Some(ts) => Some(created_at_spec(ts)),
        None => None,
    }
}

fn sub_chars(v: &Vec<char>, a: usize, b: usize) -> (r: Vec<char>)
    requires
        a <= b <= v.len(),
    ensures
        r@ == v@.subrange(a as int, b as int),
{
    let mut out: Vec<char> = Vec::new();
    let mut i = a;
    while i < b
        invariant
            a <= i <= b <= v.len(),
            out@ == v@.subrange(a as int, i as int),
        decreases b - i,
    {
        out.push(v[i]);
        assert(v@.subrange(a as int, i as int).push(v@[i as int]) =~= v@.subrange(a as int, i + 1));
        i = i + 1;
    }
    out
}

fn append_chars(out: &mut Vec<char>, w: &Vec<char>, a: usize, b: usize)
    requires
        a <= b <= w.len(),
    ensures
        final(out)@ == old(out)@ + w@.subrange(a as int, b as int),
{
    let mut i = a;
    while i < b
        invariant
            a <= i <= b <= w.len(),
            out@ == old(out)@ + w@.subrange(a as int, i as int),
        decreases b - i,
    {
        out.push(w[i]);
        assert(old(out)@ + w@.subrange(a as int, i as int).push(w@[i as int]) =~= old(out)@ + w@.subrange(
            a as int,
            i + 1,
        ));
        i = i + 1;
    }
}

fn all_ascii(v: &Vec<char>) -> (r: bool)
    ensures
        r == is_ascii_chars(v@),
{
    let mut i: usize = 0;
    while i < v.len()
        invariant
            i <= v.len(),
            forall|j: int| 0 <= j < i ==> '\0' <= #[trigger] v@[j] <= '\u{7f}',
        decreases v.len() - i,
    {
        let c = v[i];
        if c > '\u{7f}' {
            return false;
        }
        assert('\0' <= v@[i as int] <= '\u{7f}') by {
            vstd::utf8::char_u32_cast(c, c as u32);
        }
        i = i + 1;
    }
    true
}

/// Parses the metadata of a backup file from its name and size; `None` when the name
/// does not follow the naming scheme.
pub fn entry_from_name(name: &str, size_bytes: u64) -> (r: Option<BackupEntry>)
    ensures
        r is Some <==> ts_part(name@) is Some,
        r matches Some(e) ==> e.filename@ == name@ && e.size_bytes == size_bytes && Some(
            e.created_at@,
        ) == entry_spec(name@),
{
    proof {
        reveal_strlit("backup_");
        reveal_strlit("sqlite");
        reveal_strlit(".sqlite");
    }
    if !starts_with(name, "backup_") || !ends_with(name, "sqlite") {
        return None;
    }
    let v = chars_of(name);
    let rest = sub_chars(&v, 7, v.len());
    let rest_s = string_from_chars(&rest);
    if !ends_with(rest_s.as_str(), ".sqlite") {
        return None;
    }
    assert(rest@ == name@.skip(7));
    let ts = sub_chars(&v, 7, v.len() - 7);
    let mut created: Vec<char> = Vec::new();
    let ascii = all_ascii(&ts);
    if (ts.len() == 15 || ts.len() == 22) && ascii {
        append_chars(&mut created, &ts, 0, 4);
        created.push('-');
        append_chars(&mut created, &ts, 4, 6);
        created.push('-');
        append_chars(&mut created, &ts, 6, 8);
        created.push('T');
        append_chars(&mut created, &ts, 9, 11);
        created.push(':');
        append_chars(&mut created, &ts, 11, 13);
        created.push(':');
        append_chars(&mut created, &ts, 13, 15);
        if ts.len() == 22 {
            created.push('.');
            append_chars(&mut created, &ts, 16, 22);
        }
        created.push('Z');
        proof {
            let t = ts@;
            assert(created@ =~= created_at_spec(t));
        }
    } else {
        append_chars(&mut created, &ts, 0, ts.len());
        assert(created@ =~= ts@);
    }
    Some(BackupEntry { filename: string_from_chars(&v), size_bytes, created_at: string_from_chars(&created) })
}

} // verus!

verus! {

// ── Restore checks ────────────────────────────────────────────────────────────

/// Whether a requested restore filename could escape the backup directory.
pub open spec fn has_path_parts(name: Seq<char>) -> bool {
    has_char(name, '/') || has_char(name, '\\') || has_substr(name, ".."@)
}

/// Checks a filename requested for restore: no path separators or `..`, and the
/// backup naming scheme (`backup_` prefix, `sqlite` suffix).
pub fn validate_restore_filename(filename: &str) -> (r: AppResult<()>)
    ensures
        has_path_parts(filename@) ==> fails_bad_request(
            r,
            "filename must not contain path separators or '..'"@,
        ),
        !has_path_parts(filename@) && !(is_prefix("backup_"@, filename@) && is_suffix(
            "sqlite"@,
            filename@,
        )) ==> fails_bad_request(r, "filename must match backup_YYYYMMDD_HHMMSS.sqlite"@),
        r is Ok <==> !has_path_parts(filename@) && is_prefix("backup_"@, filename@) && is_suffix(
            "sqlite"@,
            filename@,
        ),
{
    if contains_char(filename, '/') || contains_char(filename, '\\') || contains_str(filename, "..") {
        return Err(AppError::BadRequest(owned("filename must not contain path separators or '..'")));
    }
    if !starts_with(filename, "backup_") || !ends_with(filename, "sqlite") {
        return Err(AppError::BadRequest(owned("filename must match backup_YYYYMMDD_HHMMSS.sqlite")));
    }
    Ok(())
}

/// The error for a requested backup that does not exist.
pub fn backup_not_found(filename: &str) -> (e: AppError)
    ensures
        e matches AppError::NotFound(m) && m@ == "Backup '"@ + filename@ + "' not found"@,
{
    let mut m = owned("Backup '");
    push_str(&mut m, filename);
    push_str(&mut m, "' not found");
    AppError::NotFound(m)
}

/// The first 16 bytes of every SQLite database file.
pub open spec fn sqlite_magic() -> Seq<u8> {
    seq![83u8, 81u8, 76u8, 105u8, 116u8, 101u8, 32u8, 102u8, 111u8, 114u8, 109u8, 97u8, 116u8, 32u8, 51u8, 0u8]
}

/// Checks the 16-byte header read from backup file `file_name`: it must be the SQLite
/// signature `SQLite format 3\0`.
pub fn check_sqlite_header(file_name: &str, header: &[u8]) -> (r: AppResult<()>)
    requires
        header@.len() == 16,
    ensures
        r is Ok <==> header@ == sqlite_magic(),
        r is Err ==> fails_bad_request(r, "'"@ + file_name@ + "' is not a valid SQLite database"@),
{
    let magic: [u8; 16] = [83, 81, 76, 105, 116, 101, 32, 102, 111, 114, 109, 97, 116, 32, 51, 0];
    let mut i: usize = 0;
    while i < 16
        invariant
            header@.len() == 16,
            magic@ == sqlite_magic(),
            i <= 16,
            forall|j: int| 0 <= j < i ==> header@[j] == sqlite_magic()[j],
        decreases 16 - i,
    {
        if header[i] != magic[i] {
            let mut m = owned("'");
            push_str(&mut m, file_name);
            push_str(&mut m, "' is not a valid SQLite database");
            return Err(AppError::BadRequest(m));
        }
        i = i + 1;
    }
    assert(header@ =~= sqlite_magic());
    Ok(())
}

// ── Listing and rotation ──────────────────────────────────────────────────────

/// Whether backup entries are ordered newest first (descending filename).
pub open spec fn newest_first(s: Seq<BackupEntry>) -> bool {
    forall|i: int, j: int| 0 <= i < j < s.len() ==> !lex_lt(s[i].filename@, s[j].filename@)
}

pub open spec fn entry_views(s: Seq<BackupEntry>) -> Seq<(Seq<char>, u64, Seq<char>)> {
    s.map_values(|e: BackupEntry| (e.filename@, e.size_bytes, e.created_at@))
}

/// Sorts entries newest first (by descending filename).
pub fn sort_newest_first(v: Vec<BackupEntry>) -> (r: Vec<BackupEntry>)
    ensures
        newest_first(r@),
        entry_views(r@).to_multiset() == entry_views(v@).to_multiset(),
        r@.len() == v@.len(),
{
    broadcast use vstd::seq_lib::group_to_multiset_ensures;
    broadcast use vstd::multiset::group_multiset_axioms;

    let mut rem = v;
    let mut out: Vec<BackupEntry> = Vec::new();
    let ghost orig = entry_views(rem@).to_multiset();
    while rem.len() > 0
        invariant
            newest_first(out@),
            entry_views(out@).to_multiset().add(entry_views(rem@).to_multiset()) == orig,
            forall|i: int, j: int|
                0 <= i < out@.len() && 0 <= j < rem@.len() ==> !lex_lt(
                    out@[i].filename@,
                    rem@[j].filename@,
                ),
            out@.len() + rem@.len() == v@.len(),
            orig == entry_views(v@).to_multiset(),
        decreases rem.len(),
    {
        let mut b: usize = 0;
        let mut j: usize = 1;
        proof {
            lemma_lex_lt_irreflexive(rem@[0].filename@);
        }
        while j < rem.len()
            invariant
                1 <= j <= rem.len(),
                b < rem.len(),
                forall|k: int| 0 <= k < j ==> !lex_lt(rem@[b as int].filename@, rem@[k].filename@),
            decreases rem.len() - j,
        {
            proof {
                lemma_lex_lt_irreflexive(rem@[b as int].filename@);
            }
            if str_lt(rem[b].filename.as_str(), rem[j].filename.as_str()) {
                proof {
                    assert forall|k: int| 0 <= k < j + 1 implies !lex_lt(
                        rem@[j as int].filename@,
                        rem@[k].filename@,
                    ) by {
                        if k < j && lex_lt(rem@[j as int].filename@, rem@[k].filename@) {
                            lemma_lex_lt_transitive(
                                rem@[b as int].filename@,
                                rem@[j as int].filename@,
                                rem@[k].filename@,
                            );
                        }
                        if k == j {
                            lemma_lex_lt_irreflexive(rem@[j as int].filename@);
                        }
                    }
                }
                b = j;
            }
            j = j + 1;
        }
        proof {
            lemma_lex_lt_irreflexive(rem@[b as int].filename@);
        }
        let ghost old_rem = rem@;
        let ghost old_out = out@;
        let x = rem.remove(b);
        proof {
            assert(entry_views(rem@) =~= entry_views(old_rem).remove(b as int));
            vstd::seq_lib::to_multiset_remove(entry_views(old_rem), b as int);
        }
        out.push(x);
        proof {
            assert(entry_views(out@) =~= entry_views(old_out).push(
                (x.filename@, x.size_bytes, x.created_at@),
            ));
            vstd::seq_lib::to_multiset_build(
                entry_views(old_out),
                (x.filename@, x.size_bytes, x.created_at@),
            );
            let xv = (x.filename@, x.size_bytes, x.created_at@);
            assert(entry_views(old_rem)[b as int] == xv);
            assert(entry_views(old_rem).contains(xv));
            vstd::seq_lib::to_multiset_contains(entry_views(old_rem), xv);
            assert(entry_views(old_rem).to_multiset().count(xv) > 0);
            assert(entry_views(out@).to_multiset().add(entry_views(rem@).to_multiset()) =~= entry_views(
                old_out,
            ).to_multiset().add(entry_views(old_rem).to_multiset()));
            assert forall|i: int, j: int|
                0 <= i < out@.len() && 0 <= j < rem@.len() implies !lex_lt(
                out@[i].filename@,
                rem@[j].filename@,
            ) by {
                let jj = if j < b { j } else { j + 1 };
                assert(rem@[j] == old_rem[jj]);
                if i < old_out.len() {
                    assert(out@[i] == old_out[i]);
                }
            }
            assert forall|i: int, j: int| 0 <= i < j < out@.len() implies !lex_lt(
                out@[i].filename@,
                out@[j].filename@,
            ) by {
                if j < old_out.len() {
                    assert(out@[i] == old_out[i]);
                    assert(out@[j] == old_out[j]);
                } else {
                    assert(out@[i] == old_out[i]);
                    assert(out@[j] == old_rem[b as int]);
                }
            }
        }
    }
    proof {
        assert(entry_views(rem@) =~= Seq::<(Seq<char>, u64, Seq<char>)>::empty());
        assert(entry_views(rem@).to_multiset() =~= vstd::multiset::Multiset::empty());
    }
    out
}

} // verus!

verus! {

pub open spec fn file_views(s: Seq<(String, u64)>) -> Seq<(Seq<char>, u64)> {
    s.map_values(|f: (String, u64)| (f.0@, f.1))
}

/// The backup entries among directory files `(name, size)`, in directory order:
/// files whose names follow the naming scheme, with their timestamps converted.
pub open spec fn file_entries(s: Seq<(Seq<char>, u64)>) -> Seq<(Seq<char>, u64, Seq<char>)>
    decreases s.len(),
{
    if s.len() == 0 {
        Seq::empty()
    } else {
        let rest = file_entries(s.drop_last());
        match entry_spec(s.last().0) {
            Some(c) => rest.push((s.last().0, s.last().1, c)),
            None => rest,
        }
    }
}

/// Every file of the directory whose name follows the naming scheme is a backup entry,
/// and every entry is such a file: the listing keeps exactly the backups, whatever the
/// retention setting that it echoes.
pub proof fn lemma_entries_are_the_backups(s: Seq<(Seq<char>, u64)>, e: (Seq<char>, u64, Seq<char>))
    ensures
        file_entries(s).contains(e) <==> exists|i: int|
            0 <= i < s.len() && #[trigger] s[i] == (e.0, e.1) && entry_spec(e.0) == Some(e.2),
    decreases s.len(),
{
    if s.len() > 0 {
        let p = s.drop_last();
        lemma_entries_are_the_backups(p, e);
        let x = s.last();
        let rest = file_entries(p);
        if file_entries(s).contains(e) {
            if rest.contains(e) {
                let i = choose|i: int| 0 <= i < p.len() && #[trigger] p[i] == (e.0, e.1) && entry_spec(e.0)
                    == Some(e.2);
                assert(s[i] == p[i]);
            } else {
                let k = choose|k: int| 0 <= k < file_entries(s).len() && file_entries(s)[k] == e;
                assert(entry_spec(x.0) is Some);
                assert(file_entries(s) == rest.push((x.0, x.1, entry_spec(x.0)->0)));
                if k < rest.len() {
                    assert(rest[k] == e);
                }
                assert(s[s.len() - 1] == (e.0, e.1));
            }
        }
        if exists|i: int| 0 <= i < s.len() && #[trigger] s[i] == (e.0, e.1) && entry_spec(e.0) == Some(e.2) {
            let i = choose|i: int| 0 <= i < s.len() && #[trigger] s[i] == (e.0, e.1) && entry_spec(e.0)
                == Some(e.2);
            if i < s.len() - 1 {
                assert(p[i] == s[i]);
                let k = choose|k: int| 0 <= k < rest.len() && rest[k] == e;
                if entry_spec(x.0) is Some {
                    assert(file_entries(s)[k] == e);
                }
            } else {
                assert(x == (e.0, e.1));
                assert(file_entries(s) == rest.push(e));
                assert(file_entries(s)[rest.len() as int] == e);
            }
        }
    }
}

/// The backup entries among the files of the backup directory, newest first.
pub fn backup_entries(files: Vec<(String, u64)>) -> (r: Vec<BackupEntry>)
    ensures
        newest_first(r@),
        entry_views(r@).to_multiset() == file_entries(file_views(files@)).to_multiset(),
{
    let mut found: Vec<BackupEntry> = Vec::new();
    let mut i: usize = 0;
    while i < files.len()
        invariant
            i <= files.len(),
            entry_views(found@) == file_entries(file_views(files@.take(i as int))),
        decreases files.len() - i,
    {
        proof {
            assert(file_views(files@.take(i + 1)).drop_last() =~= file_views(files@.take(i as int)));
            assert(file_views(files@.take(i + 1)).last() == (files@[i as int].0@, files@[i as int].1));
        }
        match entry_from_name(files[i].0.as_str(), files[i].1) {
            Some(e) => {
                let ghost before = found@;
                found.push(e);
                proof {
                    assert(entry_views(found@) =~= entry_views(before).push(
                        (e.filename@, e.size_bytes, e.created_at@),
                    ));
                }
            },
            None => {},
        }
        i = i + 1;
    }
    assert(files@.take(files.len() as int) =~= files@);
    sort_newest_first(found)
}

/// The listing of the backup directory: its backups newest first, the directory and
/// the retention setting.
pub fn list_backups(backup_dir: &str, retain_days: u32, files: Vec<(String, u64)>) -> (r:
    BackupListResponse)
    ensures
        newest_first(r.backups@),
        entry_views(r.backups@).to_multiset() == file_entries(file_views(files@)).to_multiset(),
        r.backup_dir@ == backup_dir@,
        r.retain_days == retain_days,
{
    BackupListResponse {
        backups: backup_entries(files),
        backup_dir: owned(backup_dir),
        retain_days,
    }
}

/// The number of backups that rotation deletes: all but the `retain` newest.
pub open spec fn rotation_count(n: nat, retain: nat) -> nat {
    if n > retain {
        (n - retain) as nat
    } else {
        0
    }
}

/// The backups that rotation deletes, oldest first: all but the `retain` newest of
/// the newest-first list `entries`.
pub fn rotation_victims(entries: &Vec<BackupEntry>, retain_days: u32) -> (r: Vec<String>)
    requires
        newest_first(entries@),
    ensures
        r@.len() == rotation_count(entries@.len(), retain_days as nat),
        forall|i: int|
            0 <= i < r@.len() ==> #[trigger] r@[i]@ == entries@[entries@.len() - 1 - i].filename@,
{
    let n = entries.len();
    let k = if n > retain_days as usize {
        n - retain_days as usize
    } else {
        0
    };
    let mut out: Vec<String> = Vec::new();
    let mut i: usize = 0;
    while i < k
        invariant
            k <= n == entries@.len(),
            i <= k,
            out@.len() == i,
            forall|t: int| 0 <= t < i ==> #[trigger] out@[t]@ == entries@[n - 1 - t].filename@,
        decreases k - i,
    {
        out.push(owned(entries[n - 1 - i].filename.as_str()));
        i = i + 1;
    }
    out
}

/// Rotation keeps exactly `min(n, retain)` backups, and deletes only backups older
/// than every backup it keeps.
pub proof fn lemma_rotation_keeps_newest(entries: Seq<BackupEntry>, retain: nat)
    requires
        newest_first(entries),
    ensures
        entries.len() - rotation_count(entries.len(), retain) == if entries.len() > retain {
            retain
        } else {
            entries.len()
        },
        forall|kept: int, gone: int|
            0 <= kept < entries.len() - rotation_count(entries.len(), retain) <= gone
                < entries.len() ==> !lex_lt(entries[kept].filename@, entries[gone].filename@),
{
}

// ── Schedule ──────────────────────────────────────────────────────────────────

/// Seconds from `hour:minute:second` UTC until the next midnight, at least 1.
pub open spec fn seconds_until_midnight_spec(hour: nat, minute: nat, second: nat) -> nat {
    let elapsed = hour * 3600 + minute * 60 + second;
    let remaining = if elapsed < 86400 {
        (86400 - elapsed) as nat
    } else {
        0
    };
    if remaining < 1 {
        1
    } else {
        remaining
    }
}

/// The number of seconds from the given time of day until the next UTC midnight,
/// never less than 1.
pub fn seconds_until_midnight(hour: u32, minute: u32, second: u32) -> (r: u64)
    ensures
        r == seconds_until_midnight_spec(hour as nat, minute as nat, second as nat),
        r >= 1,
{
    let elapsed: u64 = hour as u64 * 3600 + minute as u64 * 60 + second as u64;
    let remaining: u64 = if elapsed < 86400 {
        86400 - elapsed
    } else {
        0
    };
    if remaining < 1 {
        1
    } else {
        remaining
    }
}

// ── Responses ─────────────────────────────────────────────────────────────────

/// The response to a backup that was just taken.
pub fn backup_created_response(entry: BackupEntry) -> (r: BackupActionResponse)
    ensures
        r.status@ == "ok"@,
        r.message@ == "Backup '"@ + entry.filename@ + "' created successfully."@,
        r.backup == Some(entry),
{
    let mut m = owned("Backup '");
    push_str(&mut m, entry.filename.as_str());
    push_str(&mut m, "' created successfully.");
    BackupActionResponse { status: owned("ok"), message: m, backup: Some(entry) }
}

/// The response to a restore that was staged for the next start.
pub fn restore_staged_response(filename: &str, staged_path: &str) -> (r: BackupActionResponse)
    ensures
        r.status@ == "pending_restart"@,
        r.message@ == "Restore of '"@ + filename@ + "' staged at '"@ + staged_path@
            + "'. Restart the server to apply."@,
        r.backup is None,
{
    let mut m = owned("Restore of '");
    push_str(&mut m, filename);
    push_str(&mut m, "' staged at '");
    push_str(&mut m, staged_path);
    push_str(&mut m, "'. Restart the server to apply.");
    BackupActionResponse { status: owned("pending_restart"), message: m, backup: None }
}

} // verus!

verus! {

/// The statement that writes a backup to `path`: `VACUUM INTO '<path>'`. The path is
/// embedded as an SQL string literal, so a path holding a single quote is refused.
pub fn vacuum_into_sql(path: &str) -> (r: AppResult<String>)
    ensures
        has_char(path@, '\'') ==> (r matches Err(e) && e matches AppError::Internal(m) && m@
            == "Backup path must not contain single-quote characters"@),
        !has_char(path@, '\'') ==> (r matches Ok(s) && s@ == "VACUUM INTO '"@ + path@ + "'"@),
{
    if contains_char(path, '\'') {
        return Err(AppError::Internal(owned("Backup path must not contain single-quote characters")));
    }
    let mut s = owned("VACUUM INTO '");
    push_str(&mut s, path);
    push_str(&mut s, "'");
    Ok(s)
}

} // verus!
