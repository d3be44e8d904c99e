//! Session log store: append-only check-in records, replayed tolerantly.
//!
//! The log file is a newline-delimited sequence of independent JSON records.
//! Replay skips blank lines, lines that are not a well-formed record and
//! lines whose timestamp does not parse, keeps the records dated at or after
//! the requested start, sorts them ascending by timestamp text and decorates
//! each with a display label.

use vstd::multiset::Multiset;
use vstd::prelude::*;

use crate::json::{
    json_as_str, json_as_u64, json_get, json_is_null, json_model, json_of, json_parse, JsonModel,
};
use crate::text::{
    is_blank, lemma_lex_le_refl, lemma_lex_le_total, lemma_lex_le_trans, lex_le, spec_is_blank,
    str_eq, str_le,
};
use crate::time::{
    instant_le, parse_rfc3339, rfc3339_instant_of, rfc3339_parse_of, spec_instant_le,
};
use vstd::string::StringExecFns;

verus! {

broadcast use vstd::seq_lib::group_to_multiset_ensures;

/// One check-in as recorded on disk. The numeric settings are captured at
/// write time for information only and are not validated further.
pub struct LogEntry {
    pub timestamp: String,
    pub session_goal: Option<String>,
    pub reported_status: String,
    pub notes: Option<String>,
    pub session_duration_setting: Option<u32>,
    pub check_in_interval_setting: Option<u32>,
    pub write_time_setting: Option<u32>,
    pub check_in_number: Option<u32>,
}

/// Ghost image of a [`LogEntry`].
pub struct LogEntryV {
    pub timestamp: Seq<char>,
    pub session_goal: Option<Seq<char>>,
    pub reported_status: Seq<char>,
    pub notes: Option<Seq<char>>,
    pub session_duration_setting: Option<u32>,
    pub check_in_interval_setting: Option<u32>,
    pub write_time_setting: Option<u32>,
    pub check_in_number: Option<u32>,
}

/// The view of an optional owned string.
pub open spec fn view_opt_string(o: Option<String>) -> Option<Seq<char>> {
    match o {
        Some(s) => Some(s@),
        None => None,
    }
}

impl View for LogEntry {
    type V = LogEntryV;

    open spec fn view(&self) -> LogEntryV {
        LogEntryV {
            timestamp: self.timestamp@,
            session_goal: view_opt_string(self.session_goal),
            reported_status: self.reported_status@,
            notes: view_opt_string(self.notes),
            session_duration_setting: self.session_duration_setting,
            check_in_interval_setting: self.check_in_interval_setting,
            write_time_setting: self.write_time_setting,
            check_in_number: self.check_in_number,
        }
    }
}

/// One check-in as handed back to the caller: the raw status, its decorated
/// display label, and the note with absence flattened to the empty string.
pub struct SessionEntry {
    pub timestamp: String,
    pub status: String,
    pub status_label: String,
    pub note: String,
}

/// Ghost image of a [`SessionEntry`].
pub struct SessionEntryV {
    pub timestamp: Seq<char>,
    pub status: Seq<char>,
    pub status_label: Seq<char>,
    pub note: Seq<char>,
}

impl View for SessionEntry {
    type V = SessionEntryV;

    open spec fn view(&self) -> SessionEntryV {
        SessionEntryV {
            timestamp: self.timestamp@,
            status: self.status@,
            status_label: self.status_label@,
            note: self.note@,
        }
    }
}

/// The fixed display label for each of the five recognized status values;
/// any other status passes through unchanged as its own label.
pub open spec fn spec_status_label(status: Seq<char>) -> Seq<char> {
    if status == "On Task"@ {
        "\u{e2}\u{153}\u{2026} On Task"@
    } else if status == "Social Media"@ {
        "\u{f0}\u{178}\u{201c}\u{b1} Social Media"@
    } else if status == "Email/Chat"@ {
        "\u{f0}\u{178}\u{201c}\u{a7} Email/Chat"@
    } else if status == "Other Distraction"@ {
        "\u{f0}\u{178}\u{201d}\u{20ac} Other Distraction"@
    } else if status == "Taking a Break"@ {
        "\u{e2}\u{2dc}\u{2022}\u{ef}\u{b8} Taking a Break"@
    } else {
        status
    }
}

/// What a [`LogEntry`] becomes when handed back to the caller.
pub open spec fn spec_session_of(e: LogEntryV) -> SessionEntryV {
    SessionEntryV {
        timestamp: e.timestamp,
        status: e.reported_status,
        status_label: spec_status_label(e.reported_status),
        note: match e.notes {
            Some(n) => n,
            None => Seq::empty(),
        },
    }
}

impl SessionEntry {
    /// Decorate a reported status with its fixed display label; unknown
    /// statuses fall through unchanged.
    pub fn status_to_label(status: &str) -> (r: String)
        ensures
            r@ == spec_status_label(status@),
    {
        if str_eq(status, "On Task") {
            "\u{e2}\u{153}\u{2026} On Task".to_owned()
        } else if str_eq(status, "Social Media") {
            "\u{f0}\u{178}\u{201c}\u{b1} Social Media".to_owned()
        } else if str_eq(status, "Email/Chat") {
            "\u{f0}\u{178}\u{201c}\u{a7} Email/Chat".to_owned()
        } else if str_eq(status, "Other Distraction") {
            "\u{f0}\u{178}\u{201d}\u{20ac} Other Distraction".to_owned()
        } else if str_eq(status, "Taking a Break") {
            "\u{e2}\u{2dc}\u{2022}\u{ef}\u{b8} Taking a Break".to_owned()
        } else {
            status.to_owned()
        }
    }

    /// Derive the caller-facing entry from a stored record.
    pub fn from_log_entry(entry: LogEntry) -> (r: SessionEntry)
        ensures
            r@ == spec_session_of(entry@),
    {
        let status_label = Self::status_to_label(entry.reported_status.as_str());
        SessionEntry {
            timestamp: entry.timestamp,
            status: entry.reported_status.clone(),
            status_label,
            note: match entry.notes {
                Some(n) => n,
                None => String::new(),
            },
        }
    }
}

/// A required string field: the record is rejected (`None`) unless the key
/// is present and holds a string.
pub open spec fn spec_req_string(m: Map<Seq<char>, JsonModel>, key: Seq<char>) -> Option<
    Seq<char>,
> {
    if m.contains_key(key) {
        match m[key] {
            JsonModel::Str(s) => Some(s),
            _ => None,
        }
    } else {
        None
    }
}

/// An optional string field: absence and `null` mean no value (inner
/// `None`); a value of any other kind rejects the record (outer `None`).
pub open spec fn spec_opt_string(m: Map<Seq<char>, JsonModel>, key: Seq<char>) -> Option<
    Option<Seq<char>>,
> {
    if m.contains_key(key) {
        match m[key] {
            JsonModel::Null => Some(None),
            JsonModel::Str(s) => Some(Some(s)),
            _ => None,
        }
    } else {
        Some(None)
    }
}

/// An optional numeric field: absence and `null` mean no value; an unsigned
/// integer in `u32` range is kept; anything else rejects the record.
pub open spec fn spec_opt_u32(m: Map<Seq<char>, JsonModel>, key: Seq<char>) -> Option<
    Option<u32>,
> {
    if m.contains_key(key) {
        match m[key] {
            JsonModel::Null => Some(None),
            JsonModel::UInt(n) => if n <= u32::MAX {
                Some(Some(n as u32))
            } else {
                None
            },
            _ => None,
        }
    } else {
        Some(None)
    }
}

/// The reported status of a record: the field is named `reportedStatus`,
/// and the key `reported_status` is accepted in its stead when the former is
/// absent. Whichever key is read must hold a string, or the record is
/// rejected.
pub open spec fn spec_status_field(m: Map<Seq<char>, JsonModel>) -> Option<Seq<char>> {
    if m.contains_key("reportedStatus"@) {
        spec_req_string(m, "reportedStatus"@)
    } else {
        spec_req_string(m, "reported_status"@)
    }
}

/// The record a JSON document denotes, or `None` when the document is not an
/// object or any present field has the wrong shape — exactly the cases on
/// which a line is skipped.
pub open spec fn spec_entry_of_json(j: JsonModel) -> Option<LogEntryV> {
    match j {
        JsonModel::Obj(m) => {
            let fields = (
                spec_req_string(m, "timestamp"@),
                spec_opt_string(m, "session_goal"@),
                spec_status_field(m),
                spec_opt_string(m, "notes"@),
                spec_opt_u32(m, "session_duration_setting"@),
                spec_opt_u32(m, "check_in_interval_setting"@),
                spec_opt_u32(m, "write_time_setting"@),
                spec_opt_u32(m, "check_in_number"@),
            );
            match fields {
                (
                    Some(timestamp),
                    Some(session_goal),
                    Some(reported_status),
                    Some(notes),
                    Some(session_duration_setting),
                    Some(check_in_interval_setting),
                    Some(write_time_setting),
                    Some(check_in_number),
                ) => Some(
                    LogEntryV {
                        timestamp,
                        session_goal,
                        reported_status,
                        notes,
                        session_duration_setting,
                        check_in_interval_setting,
                        write_time_setting,
                        check_in_number,
                    },
                ),
                _ => None,
            }
        },
        _ => None,
    }
}

/// The record a line of the log file denotes, or `None` when the line is to
/// be skipped.
pub open spec fn spec_line_entry(line: Seq<char>) -> Option<LogEntryV> {
    match json_of(line) {
        Some(j) => spec_entry_of_json(j),
        None => None,
    }
}

/// Look up a field that must be a string.
fn get_req_string(v: &serde_json::Value, key: &str) -> (r: Option<String>)
    ensures
        match json_model(*v) {
            JsonModel::Obj(m) => match r {
                Some(s) => spec_req_string(m, key@) == Some(s@),
                None => spec_req_string(m, key@) is None,
            },
            _ => r is None,
        },
{
    match json_get(v, key) {
        Some(w) => match json_as_str(w) {
            Some(s) => Some(s.to_owned()),
            None => None,
        },
        None => None,
    }
}

/// Look up the reported status, under its own key first and the underscored
/// key as a fallback.
fn get_status_field(v: &serde_json::Value) -> (r: Option<String>)
    ensures
        match json_model(*v) {
            JsonModel::Obj(m) => match r {
                Some(s) => spec_status_field(m) == Some(s@),
                None => spec_status_field(m) is None,
            },
            _ => r is None,
        },
{
    match json_get(v, "reportedStatus") {
        Some(w) => match json_as_str(w) {
            Some(s) => Some(s.to_owned()),
            None => None,
        },
        None => get_req_string(v, "reported_status"),
    }
}

/// Look up a field that may be absent or `null`, and otherwise must be a
/// string.
fn get_opt_string(v: &serde_json::Value, key: &str) -> (r: Option<Option<String>>)
    ensures
        match json_model(*v) {
            JsonModel::Obj(m) => match r {
                Some(Some(s)) => spec_opt_string(m, key@) == Some(Some(s@)),
                Some(None) => spec_opt_string(m, key@) == Some(None::<Seq<char>>),
                None => spec_opt_string(m, key@) is None,
            },
            _ => r == Some(None::<String>),
        },
{
    match json_get(v, key) {
        None => Some(None),
        Some(w) => if json_is_null(w) {
            Some(None)
        } else {
            match json_as_str(w) {
                Some(s) => Some(Some(s.to_owned())),
                None => None,
            }
        },
    }
}

/// Look up a field that may be absent or `null`, and otherwise must be an
/// unsigned integer that fits `u32`.
fn get_opt_u32(v: &serde_json::Value, key: &str) -> (r: Option<Option<u32>>)
    ensures
        match json_model(*v) {
            JsonModel::Obj(m) => match r {
                Some(Some(n)) => spec_opt_u32(m, key@) == Some(Some(n)),
                Some(None) => spec_opt_u32(m, key@) == Some(None::<u32>),
                None => spec_opt_u32(m, key@) is None,
            },
            _ => r == Some(None::<u32>),
        },
{
    match json_get(v, key) {
        None => Some(None),
        Some(w) => if json_is_null(w) {
            Some(None)
        } else {
            match json_as_u64(w) {
                Some(n) => if n <= u32::MAX as u64 {
                    Some(Some(n as u32))
                } else {
                    None
                },
                None => None,
            }
        },
    }
}

/// Parse one line of the log file as a record, `None` when the line is to be
/// skipped: not JSON at all, not an object, or a present field of the wrong
/// shape.
pub fn parse_log_line(line: &str) -> (r: Option<LogEntry>)
    ensures
        match r {
            Some(e) => spec_line_entry(line@) == Some(e@),
            None => spec_line_entry(line@) is None,
        },
{
    let v = match json_parse(line) {
        Some(v) => v,
        None => {
            return None;
        },
    };
    let timestamp = match get_req_string(&v, "timestamp") {
        Some(s) => s,
        None => {
            return None;
        },
    };
    let session_goal = match get_opt_string(&v, "session_goal") {
        Some(g) => g,
        None => {
            return None;
        },
    };
    let reported_status = match get_status_field(&v) {
        Some(s) => s,
        None => {
            return None;
        },
    };
    let notes = match get_opt_string(&v, "notes") {
        Some(n) => n,
        None => {
            return None;
        },
    };
    let session_duration_setting = match get_opt_u32(&v, "session_duration_setting") {
        Some(n) => n,
        None => {
            return None;
        },
    };
    let check_in_interval_setting = match get_opt_u32(&v, "check_in_interval_setting") {
        Some(n) => n,
        None => {
            return None;
        },
    };
    let write_time_setting = match get_opt_u32(&v, "write_time_setting") {
        Some(n) => n,
        None => {
            return None;
        },
    };
    let check_in_number = match get_opt_u32(&v, "check_in_number") {
        Some(n) => n,
        None => {
            return None;
        },
    };
    Some(
        LogEntry {
            timestamp,
            session_goal,
            reported_status,
            notes,
            session_duration_setting,
            check_in_interval_setting,
            write_time_setting,
            check_in_number,
        },
    )
}

/// Whether a line of the log file contributes an entry to a replay from
/// `start`: not blank, a well-formed record, a timestamp chrono accepts, and
/// dated at or after `start` (inclusive lower bound).
pub open spec fn spec_keep_line(line: Seq<char>, start: (i64, u32)) -> bool {
    &&& !spec_is_blank(line)
    &&& spec_line_entry(line) matches Some(e)
    &&& rfc3339_instant_of(e.timestamp) matches Some(t)
    &&& spec_instant_le(start, t)
}

/// The entry a kept line contributes.
pub open spec fn spec_line_session(line: Seq<char>) -> SessionEntryV {
    spec_session_of(spec_line_entry(line)->Some_0)
}

/// The entries a replay from `start` keeps, in file order.
pub open spec fn spec_included(lines: Seq<Seq<char>>, start: (i64, u32)) -> Seq<SessionEntryV>
    decreases lines.len(),
{
    if lines.len() == 0 {
        Seq::empty()
    } else if spec_keep_line(lines.last(), start) {
        spec_included(lines.drop_last(), start).push(spec_line_session(lines.last()))
    } else {
        spec_included(lines.drop_last(), start)
    }
}

/// The ghost images of a sequence of entries.
pub open spec fn spec_views(s: Seq<SessionEntry>) -> Seq<SessionEntryV> {
    s.map_values(|e: SessionEntry| e@)
}

/// Ascending by timestamp text, duplicates adjacent in any order.
pub open spec fn spec_sorted_by_timestamp(s: Seq<SessionEntryV>) -> bool {
    forall|i: int, j: int| 0 <= i < j < s.len() ==> lex_le(s[i].timestamp, s[j].timestamp)
}

/// A line that contributes nothing — blank, not a record, a bad timestamp,
/// or dated before `start` — never disturbs its neighbors: dropping it from
/// the file leaves the replay exactly as it was.
pub proof fn lemma_skipped_line_preserves_replay(
    lines: Seq<Seq<char>>,
    i: int,
    start: (i64, u32),
)
    requires
        0 <= i < lines.len(),
        !spec_keep_line(lines[i], start),
    ensures
        spec_included(lines.remove(i), start) == spec_included(lines, start),
    decreases lines.len(),
{
    if i == lines.len() - 1 {
        assert(lines.remove(i) =~= lines.drop_last());
    } else {
        let shorter = lines.drop_last();
        assert(lines.remove(i).drop_last() =~= shorter.remove(i));
        assert(lines.remove(i).last() == lines.last());
        lemma_skipped_line_preserves_replay(shorter, i, start);
    }
}

/// Sort entries ascending by timestamp text; which of two equally dated
/// entries comes first is not specified.
fn sort_entries(src: Vec<SessionEntry>) -> (r: Vec<SessionEntry>)
    ensures
        spec_views(r@).to_multiset() == spec_views(src@).to_multiset(),
        spec_sorted_by_timestamp(spec_views(r@)),
{
    let mut rest = src;
    let ghost orig: Seq<SessionEntry> = rest@;
    let mut out: Vec<SessionEntry> = Vec::new();
    while rest.len() > 0
        invariant
            spec_views(out@).to_multiset().add(spec_views(rest@).to_multiset()) == spec_views(
                orig,
            ).to_multiset(),
            spec_sorted_by_timestamp(spec_views(out@)),
            forall|i: int, k: int|
                0 <= i < out@.len() && 0 <= k < rest@.len() ==> lex_le(
                    out@[i].timestamp@,
                    rest@[k].timestamp@,
                ),
        decreases rest.len(),
    {
        let mut m: usize = 0;
        let mut k: usize = 1;
        proof {
            lemma_lex_le_refl(rest@[0].timestamp@);
        }
        while k < rest.len()
            invariant
                0 < rest@.len(),
                m < k,
                1 <= k <= rest@.len(),
                forall|t: int|
                    0 <= t < k ==> lex_le(rest@[m as int].timestamp@, rest@[t].timestamp@),
            decreases rest.len() - k,
        {
            if !str_le(rest[m].timestamp.as_str(), rest[k].timestamp.as_str()) {
                proof {
                    lemma_lex_le_total(rest@[m as int].timestamp@, rest@[k as int].timestamp@);
                    assert forall|t: int| 0 <= t < k + 1 implies lex_le(
                        rest@[k as int].timestamp@,
                        rest@[t].timestamp@,
                    ) by {
                        if t == k {
                            lemma_lex_le_refl(rest@[k as int].timestamp@);
                        } else {
                            lemma_lex_le_trans(
                                rest@[k as int].timestamp@,
                                rest@[m as int].timestamp@,
                                rest@[t].timestamp@,
                            );
                        }
                    }
                }
                m = k;
            }
            k = k + 1;
        }
        let ghost rest_before: Seq<SessionEntry> = rest@;
        let picked = rest.remove(m);
        proof {
            assert(spec_views(rest_before.remove(m as int)) =~= spec_views(rest_before).remove(
                m as int,
            ));
            assert(spec_views(rest_before)[m as int] == picked@);
        }
        let ghost out_before: Seq<SessionEntry> = out@;
        out.push(picked);
        proof {
            assert(spec_views(out_before.push(picked)) =~= spec_views(out_before).push(picked@));
            assert(spec_views(out@).to_multiset().add(spec_views(rest@).to_multiset())
                =~= spec_views(orig).to_multiset());
            // Every entry still waiting is dated no earlier than anything
            // already emitted, the picked minimum included.
            assert forall|i: int, k2: int|
                0 <= i < out@.len() && 0 <= k2 < rest@.len() implies lex_le(
                out@[i].timestamp@,
                rest@[k2].timestamp@,
            ) by {
                let k3: int = if k2 < m as int {
                    k2
                } else {
                    k2 + 1
                };
                assert(rest@[k2] == rest_before[k3]);
                if i < out@.len() - 1 {
                    assert(lex_le(out@[i].timestamp@, rest_before[k3].timestamp@));
                } else {
                    assert(lex_le(picked@.timestamp, rest_before[k3].timestamp@));
                }
            }
        }
    }
    proof {
        assert(spec_views(rest@).to_multiset() =~= Multiset::<SessionEntryV>::empty());
        assert(spec_views(out@).to_multiset().add(Multiset::<SessionEntryV>::empty())
            =~= spec_views(out@).to_multiset());
    }
    out
}

/// Replay the log from `start`: `contents` is the file's lines, or `None`
/// when the file does not exist, which yields the empty history rather than
/// an error. Exactly the kept lines' entries come back, sorted ascending by
/// timestamp text; a malformed line is skipped without disturbing the rest.
pub fn read_since(contents: Option<&Vec<String>>, start: (i64, u32)) -> (r: Vec<SessionEntry>)
    ensures
        match contents {
            Some(lines) => {
                &&& spec_views(r@).to_multiset() == spec_included(
                    lines.deep_view(),
                    start,
                ).to_multiset()
                &&& spec_sorted_by_timestamp(spec_views(r@))
            },
            None => r@ == Seq::<SessionEntry>::empty(),
        },
{
    let lines = match contents {
        Some(lines) => lines,
        None => {
            return Vec::new();
        },
    };
    let n = lines.len();
    let mut out: Vec<SessionEntry> = Vec::new();
    let mut k: usize = 0;
    while k < n
        invariant
            k <= n,
            n == lines@.len(),
            spec_views(out@) == spec_included(lines.deep_view().take(k as int), start),
        decreases n - k,
    {
        let line: &String = &lines[k];
        proof {
            assert(lines.deep_view().take(k as int + 1).drop_last() =~= lines.deep_view().take(
                k as int,
            ));
            assert(lines.deep_view().take(k as int + 1).last() == line@);
        }
        if !is_blank(line.as_str()) {
            match parse_log_line(line.as_str()) {
                Some(entry) => {
                    match parse_rfc3339(entry.timestamp.as_str()) {
                        Ok(t) => {
                            if instant_le(start, t) {
                                let ghost out_before: Seq<SessionEntry> = out@;
                                let se = SessionEntry::from_log_entry(entry);
                                out.push(se);
                                proof {
                                    assert(spec_views(out_before.push(se)) =~= spec_views(
                                        out_before,
                                    ).push(se@));
                                }
                            }
                        },
                        Err(_) => {},
                    }
                },
                None => {},
            }
        }
        k = k + 1;
    }
    proof {
        assert(lines.deep_view().take(n as int) =~= lines.deep_view());
    }
    sort_entries(out)
}

/// List the session entries recorded at or after the given RFC 3339 start
/// timestamp; a start the parser rejects is the caller's error and is
/// surfaced at once, with the parser's reason, before any line is read.
pub fn list_session_entries(contents: Option<&Vec<String>>, start_time_iso: &str) -> (r: Result<
    Vec<SessionEntry>,
    String,
>)
    ensures
        match r {
            Ok(entries) => {
                &&& rfc3339_instant_of(start_time_iso@) matches Some(start)
                &&& (contents matches Some(lines) ==> spec_views(entries@).to_multiset()
                    == spec_included(lines.deep_view(), start).to_multiset()
                    && spec_sorted_by_timestamp(spec_views(entries@)))
                &&& (contents is None ==> entries@ == Seq::<SessionEntry>::empty())
            },
            Err(m) => {
                &&& rfc3339_parse_of(start_time_iso@) matches Err(cause)
                &&& m@ == "Invalid timestamp format: "@ + cause
            },
        },
{
    let start = match parse_rfc3339(start_time_iso) {
        Ok(t) => t,
        Err(cause) => {
            return Err("Invalid timestamp format: ".to_owned().concat(cause.as_str()));
        },
    };
    Ok(read_since(contents, start))
}

} // verus!
