use chrono::{DateTime, Days, SecondsFormat};
use sha2::{Digest, Sha256};
use vstd::prelude::*;
use vstd::string::*;

use crate::config::Config;
use crate::drill::{
    check_evidence_id, passed_drill_ran_every_check, CheckEvidence, DrillProgress, StageEvidence,
    Status,
};
use crate::text::{
    ascii_alphanumeric, ascii_lower, chars_of, decimal, decimal_injective, hex_lower, lemma_decimal_len, is_ascii_alphanumeric, owned,
    push_char, push_decimal, to_ascii_lower, to_hex_lower,
};

verus! {

/// The tool that wrote an attestation.
#[derive(Debug)]
pub struct Tool {
    pub name: &'static str,
    pub version: &'static str,
}

/// The evidence of one drill: durations and outcomes, no command or output.
#[derive(Debug)]
pub struct Attestation {
    pub schema_version: u8,
    pub attestation_id: String,
    pub tool: Tool,
    pub drill: String,
    pub target_id: String,
    pub config_sha256: String,
    pub started_at: String,
    pub completed_at: String,
    pub fresh_until: String,
    pub duration_ms: u128,
    pub status: Status,
    pub stages: Vec<StageEvidence>,
    pub checks: Vec<CheckEvidence>,
    pub privacy: &'static str,
}

/// The standard library's `PathBuf`, carried through as it is.
#[verifier::external_type_specification]
#[verifier::external_body]
pub struct ExPathBuf(std::path::PathBuf);

/// An attestation and the path of the file that holds it.
#[derive(Debug)]
pub struct RunResult {
    pub attestation: Attestation,
    pub path: std::path::PathBuf,
}

pub const TOOL_NAME: &'static str = "restore-drill-attestor";

pub const TOOL_VERSION: &'static str = "0.1.0";

pub const PRIVACY_NOTE: &'static str = "No commands, stdout, stderr, query results, schema values, or secrets recorded.";

// ---------------------------------------------------------------------------
// Slugs
// ---------------------------------------------------------------------------

/// The runs of ASCII letters and digits in `s`, in order, each in lower case.
pub open spec fn slug_words(s: Seq<char>) -> Seq<Seq<char>>
    decreases s.len(),
{
    if s.len() == 0 {
        Seq::empty()
    } else {
        let before = slug_words(s.drop_last());
        let c = s.last();
        if !is_ascii_alphanumeric(c) {
            before
        } else if s.len() > 1 && is_ascii_alphanumeric(s[s.len() - 2]) {
            before.update(before.len() - 1, before.last().push(ascii_lower(c)))
        } else {
            before.push(seq![ascii_lower(c)])
        }
    }
}

/// The words joined, with `sep` between each two.
pub open spec fn join_words(words: Seq<Seq<char>>, sep: char) -> Seq<char>
    decreases words.len(),
{
    if words.len() == 0 {
        Seq::empty()
    } else if words.len() == 1 {
        words[0]
    } else {
        join_words(words.drop_last(), sep).push(sep) + words.last()
    }
}

/// `s` as a slug: its ASCII letter-and-digit runs in lower case, joined by `-`.
pub open spec fn slug_text(s: Seq<char>) -> Seq<char> {
    join_words(slug_words(s), '-')
}

proof fn lemma_join_push(words: Seq<Seq<char>>, w: Seq<char>, sep: char)
    ensures
        join_words(words.push(w), sep) == if words.len() == 0 {
            w
        } else {
            join_words(words, sep).push(sep) + w
        },
{
    assert(words.push(w).drop_last() == words);
    if words.len() == 0 {
        assert(words.push(w)[0] == w);
    }
}

proof fn lemma_join_extend_last(words: Seq<Seq<char>>, c: char, sep: char)
    requires
        words.len() > 0,
    ensures
        join_words(words.update(words.len() - 1, words.last().push(c)), sep) == join_words(
            words,
            sep,
        ).push(c),
{
    let longer = words.update(words.len() - 1, words.last().push(c));
    if words.len() > 1 {
        assert(longer.drop_last() == words.drop_last());
        assert(join_words(longer, sep) == join_words(words.drop_last(), sep).push(sep)
            + words.last().push(c));
        assert(join_words(words.drop_last(), sep).push(sep) + words.last().push(c) == (
        join_words(words.drop_last(), sep).push(sep) + words.last()).push(c));
    }
}

/// Lower-case ASCII letters and digits, with one `-` between each two runs
/// of them: the drill's name as it appears in an attestation id.
pub fn slug(value: &str) -> (s: String)
    ensures
        s@ == slug_text(value@),
{
    let v = chars_of(value);
    let mut out = String::new();
    let mut prev_alnum = false;
    let mut has_word = false;
    for i in 0..v.len()
        invariant
            v@ == value@,
            out@ == slug_text(v@.take(i as int)),
            prev_alnum == (i > 0 && is_ascii_alphanumeric(v@[i - 1])),
            has_word == (slug_words(v@.take(i as int)).len() > 0),
            prev_alnum ==> has_word,
    {
        let c = v[i];
        let ghost before = slug_words(v@.take(i as int));
        assert(v@.take(i + 1).drop_last() == v@.take(i as int));
        assert(v@.take(i + 1).last() == c);
        if ascii_alphanumeric(c) {
            if prev_alnum {
                assert(v@.take(i + 1)[i - 1] == v@[i - 1]);
                proof {
                    lemma_join_extend_last(before, ascii_lower(c), '-');
                }
                push_char(&mut out, to_ascii_lower(c));
            } else {
                proof {
                    lemma_join_push(before, seq![ascii_lower(c)], '-');
                }
                if has_word {
                    push_char(&mut out, '-');
                }
                push_char(&mut out, to_ascii_lower(c));
                assert(out@ == slug_text(v@.take(i + 1)));
            }
            prev_alnum = true;
            has_word = true;
        } else {
            prev_alnum = false;
        }
    }
    assert(v@.take(v.len() as int) == v@);
    out
}


/// A character a slug keeps: a small ASCII letter or a digit.
pub open spec fn is_slug_char(c: char) -> bool {
    ('a' <= c && c <= 'z') || ('0' <= c && c <= '9')
}

/// A word of a slug: one or more small ASCII letters and digits.
pub open spec fn is_slug_word(w: Seq<char>) -> bool {
    w.len() > 0 && forall|i: int| 0 <= i < w.len() ==> is_slug_char(#[trigger] w[i])
}

proof fn lemma_slug_words_are_words(s: Seq<char>)
    ensures
        s.len() > 0 && is_ascii_alphanumeric(s.last()) ==> slug_words(s).len() > 0,
        forall|k: int|
            0 <= k < slug_words(s).len() ==> is_slug_word(#[trigger] slug_words(s)[k]),
    decreases s.len(),
{
    if s.len() > 0 {
        lemma_slug_words_are_words(s.drop_last());
        let before = slug_words(s.drop_last());
        let c = s.last();
        if is_ascii_alphanumeric(c) {
            assert(is_slug_char(ascii_lower(c)));
            if s.len() > 1 && is_ascii_alphanumeric(s[s.len() - 2]) {
                assert(s.drop_last().last() == s[s.len() - 2]);
                assert(before.len() > 0);
                assert(is_slug_word(before[before.len() - 1]));
                let w = before.last().push(ascii_lower(c));
                assert(is_slug_word(w)) by {
                    assert forall|i: int| 0 <= i < w.len() implies is_slug_char(#[trigger] w[i]) by {
                        if i < w.len() - 1 {
                            assert(w[i] == before.last()[i]);
                        }
                    }
                }
                let after = before.update(before.len() - 1, w);
                assert forall|k: int| 0 <= k < after.len() implies is_slug_word(#[trigger] after[k]) by {
                    if k < before.len() - 1 {
                        assert(after[k] == before[k]);
                    }
                }
            } else {
                assert(is_slug_word(seq![ascii_lower(c)]));
                let after = before.push(seq![ascii_lower(c)]);
                assert forall|k: int| 0 <= k < after.len() implies is_slug_word(#[trigger] after[k]) by {
                    if k < before.len() {
                        assert(after[k] == before[k]);
                    }
                }
            }
        }
    }
}

proof fn lemma_slug_words_append_word(p: Seq<char>, w: Seq<char>)
    requires
        is_slug_word(w),
        p.len() == 0 || !is_ascii_alphanumeric(p.last()),
    ensures
        slug_words(p + w) == slug_words(p).push(w),
    decreases w.len(),
{
    let s = p + w;
    let c = w.last();
    assert(is_slug_char(w[w.len() - 1]));
    assert(ascii_lower(c) == c);
    if w.len() == 1 {
        assert(s.drop_last() == p);
        assert(w == seq![c]);
    } else {
        let w0 = w.drop_last();
        assert(is_slug_word(w0)) by {
            assert forall|i: int| 0 <= i < w0.len() implies is_slug_char(#[trigger] w0[i]) by {
                assert(w0[i] == w[i]);
            }
        }
        lemma_slug_words_append_word(p, w0);
        assert(s.drop_last() == p + w0);
        assert(s[s.len() - 2] == w[w.len() - 2]);
        assert(is_slug_char(w[w.len() - 2]));
        assert(w0.push(c) == w);
        assert(slug_words(p).push(w0).update(slug_words(p).len() as int, w0.push(c))
            == slug_words(p).push(w));
    }
}

proof fn lemma_slug_words_of_joined(words: Seq<Seq<char>>)
    requires
        forall|k: int| 0 <= k < words.len() ==> is_slug_word(#[trigger] words[k]),
    ensures
        slug_words(join_words(words, '-')) == words,
    decreases words.len(),
{
    if words.len() == 0 {
    } else if words.len() == 1 {
        assert(is_slug_word(words[0]));
        lemma_slug_words_append_word(Seq::empty(), words[0]);
        assert(Seq::<char>::empty() + words[0] == words[0]);
        assert(Seq::<Seq<char>>::empty().push(words[0]) == words);
    } else {
        let front = words.drop_last();
        assert forall|k: int| 0 <= k < front.len() implies is_slug_word(#[trigger] front[k]) by {
            assert(front[k] == words[k]);
        }
        lemma_slug_words_of_joined(front);
        let p = join_words(front, '-').push('-');
        assert(p.drop_last() == join_words(front, '-'));
        assert(is_slug_word(words[words.len() - 1]));
        lemma_slug_words_append_word(p, words.last());
        assert(front.push(words.last()) == words);
    }
}

/// Making a slug of a slug changes nothing.
pub proof fn slug_idempotent(s: Seq<char>)
    ensures
        slug_text(slug_text(s)) == slug_text(s),
{
    lemma_slug_words_are_words(s);
    lemma_slug_words_of_joined(slug_words(s));
}

// ---------------------------------------------------------------------------
// Configuration fingerprints
// ---------------------------------------------------------------------------

/// The SHA-256 digest of `data`.
pub uninterp spec fn sha256(data: Seq<u8>) -> Seq<u8>;

/// `<Sha256 as Digest>::digest` of the sha2 crate. The contract names the
/// digest `sha256` of the bytes, and says that it is 32 bytes long (the
/// output size `U32` of `Sha256`); nothing more of it is stated.
#[verifier::external_body]
fn sha256_digest(data: &[u8]) -> (d: Vec<u8>)
    ensures
        d@ == sha256(data@),
        d@.len() == 32,
{
    Sha256::digest(data).to_vec()
}

/// The SHA-256 digest of the drill file's text, in lower-case hexadecimal.
pub fn config_fingerprint(source: &str) -> (s: String)
    ensures
        s@ == hex_lower(sha256(source.spec_bytes())),
        s@.len() == 64,
{
    let digest = sha256_digest(source.as_bytes());
    let s = to_hex_lower(&digest);
    proof {
        lemma_hex_len(digest@);
    }
    s
}

proof fn lemma_hex_len(b: Seq<u8>)
    ensures
        hex_lower(b).len() == 2 * b.len(),
    decreases b.len(),
{
    if b.len() > 0 {
        lemma_hex_len(b.drop_last());
    }
}

// ---------------------------------------------------------------------------
// Time stamps
// ---------------------------------------------------------------------------

/// The first second that chrono's `DateTime<Utc>` holds: January 1 of the year
/// -262143, that is 262144 BCE (`NaiveDate::MIN`), as seconds since the Unix epoch.
pub open spec fn earliest_second() -> int {
    -8334601315200
}

/// The last second that chrono's `DateTime<Utc>` holds: December 31, 262142 CE,
/// 23:59:59 (`NaiveDate::MAX`), as seconds since the Unix epoch.
pub open spec fn latest_second() -> int {
    8210266876799
}

/// A whole second since the Unix epoch that chrono's `DateTime<Utc>` can hold.
pub open spec fn representable(secs: int) -> bool {
    earliest_second() <= secs <= latest_second()
}

/// RFC 3339 text of a second, with `Z` for UTC and no fraction.
pub uninterp spec fn rfc3339_text(secs: i64) -> Seq<char>;

/// `%Y%m%dT%H%M%SZ` text of a second.
pub uninterp spec fn compact_text(secs: i64) -> Seq<char>;

/// `DateTime::<Utc>::to_rfc3339_opts(SecondsFormat::Secs, true)` of chrono on
/// the second `secs`. The contract names the text `rfc3339_text` of the
/// second; nothing more of it is stated.
#[verifier::external_body]
pub(crate) fn timestamp_string(secs: i64) -> (s: String)
    requires
        representable(secs as int),
    ensures
        s@ == rfc3339_text(secs),
{
    match DateTime::from_timestamp(secs, 0) {
        Some(t) => t.to_rfc3339_opts(SecondsFormat::Secs, true),
        None => String::new(),
    }
}

/// `DateTime::<Utc>::format("%Y%m%dT%H%M%SZ")` of chrono on the second `secs`,
/// written out. The contract names the text `compact_text` of the second;
/// nothing more of it is stated.
#[verifier::external_body]
fn compact_timestamp(secs: i64) -> (s: String)
    requires
        representable(secs as int),
    ensures
        s@ == compact_text(secs),
{
    match DateTime::from_timestamp(secs, 0) {
        Some(t) => t.format("%Y%m%dT%H%M%SZ").to_string(),
        None => String::new(),
    }
}

/// `DateTime::<Utc>::checked_add_days` of chrono on the second `secs`: the
/// same time of day `days` days later, when chrono can hold it (a day of UTC
/// is 86400 seconds).
#[verifier::external_body]
fn add_days(secs: i64, days: u64) -> (r: Option<i64>)
    requires
        representable(secs as int),
    ensures
        r == if secs + 86400 * days <= latest_second() {
            Some((secs + 86400 * days) as i64)
        } else {
            None::<i64>
        },
{
    match DateTime::from_timestamp(secs, 0) {
        Some(t) => match t.checked_add_days(Days::new(days)) {
            Some(later) => Some(later.timestamp()),
            None => None,
        },
        None => None,
    }
}

/// The second until which an attestation completed at `completed` stays
/// fresh: `ttl_days` days later, or `completed` itself when that is past what
/// chrono holds.
pub open spec fn fresh_until_second(completed: i64, ttl_days: u64) -> i64 {
    if completed + 86400 * ttl_days <= latest_second() {
        (completed + 86400 * ttl_days) as i64
    } else {
        completed
    }
}

/// An attestation stays fresh for its whole time to live: `ttl_days` days of
/// 86400 seconds after completion, whatever the number of days, as long as
/// chrono can hold that second; only past chrono's last second does it fall
/// back to the completion itself. Either way it is a second chrono can hold,
/// and never before completion.
pub proof fn fresh_until_adds_ttl(completed: i64, ttl_days: u64)
    requires
        representable(completed as int),
    ensures
        completed + 86400 * ttl_days <= latest_second() ==> fresh_until_second(completed, ttl_days)
            == completed + 86400 * ttl_days,
        completed + 86400 * ttl_days > latest_second() ==> fresh_until_second(completed, ttl_days)
            == completed,
        representable(fresh_until_second(completed, ttl_days) as int),
        fresh_until_second(completed, ttl_days) >= completed,
{
}

// ---------------------------------------------------------------------------
// Attestations
// ---------------------------------------------------------------------------

/// The neutral id that stands for the drill in every attestation; the
/// drill's own name is never recorded.
pub const DRILL_EVIDENCE_ID: &'static str = "drill";

/// The neutral id that stands for the target in every attestation; the
/// target's own id is never recorded.
pub const TARGET_EVIDENCE_ID: &'static str = "target";

/// The id of an attestation: `drill-` and the compact start time. It names
/// no label of the drill file, and neither does the file named after it.
pub open spec fn attestation_id_text(started: i64) -> Seq<char> {
    "drill-"@ + compact_text(started)
}

/// The attestation of a finished drill of `config`, read from `source`, that
/// started at the second `started`, completed at `completed`, and took
/// `duration_ms`. Labels of the drill file (the drill's name, the target's id,
/// the checks' names) stand nowhere in it: the drill and target are recorded
/// by the neutral ids `DRILL_EVIDENCE_ID` and `TARGET_EVIDENCE_ID`, each check
/// by `check_evidence_id` of its place, and the drill file itself only by its
/// digest. No field is computed from a label.
pub fn build_attestation(
    config: &Config,
    progress: DrillProgress,
    source: &str,
    started: i64,
    completed: i64,
    duration_ms: u128,
) -> (a: Attestation)
    requires
        progress.wf(*config),
        progress.phase is Complete,
        representable(started as int),
        representable(completed as int),
    ensures
        a.schema_version == 1,
        a.attestation_id@ == attestation_id_text(started),
        a.tool.name@ == TOOL_NAME@,
        a.tool.version@ == TOOL_VERSION@,
        a.drill@ == DRILL_EVIDENCE_ID@,
        a.target_id@ == TARGET_EVIDENCE_ID@,
        a.config_sha256@ == hex_lower(sha256(source.spec_bytes())),
        a.started_at@ == rfc3339_text(started),
        a.completed_at@ == rfc3339_text(completed),
        a.fresh_until@ == rfc3339_text(fresh_until_second(completed, config.attestation_ttl_days)),
        completed + 86400 * config.attestation_ttl_days <= latest_second() ==> a.fresh_until@
            == rfc3339_text((completed + 86400 * config.attestation_ttl_days) as i64),
        completed + 86400 * config.attestation_ttl_days > latest_second() ==> a.fresh_until@
            == a.completed_at@,
        a.duration_ms == duration_ms,
        a.status == (if !progress.cleanup_succeeded {
            Status::CleanupFailed
        } else if progress.failed {
            Status::Failed
        } else {
            Status::Passed
        }),
        a.status is Passed ==> {
            &&& a.checks@.len() == config.checks@.len()
            &&& forall|k: int|
                0 <= k < a.checks@.len() ==> (#[trigger] a.checks@[k]).status@ == "passed"@
        },
        a.stages@ == progress.stages@,
        a.checks@ == progress.checks@,
        forall|k: int|
            0 <= k < a.checks@.len() ==> (#[trigger] a.checks@[k]).name@ == check_evidence_id(k),
        a.privacy@ == PRIVACY_NOTE@,
{
    proof {
        if progress.cleanup_succeeded && !progress.failed {
            passed_drill_ran_every_check(*config, progress);
        }
    }
    let status = progress.status();
    let fresh = match add_days(completed, config.attestation_ttl_days) {
        Some(t) => t,
        None => completed,
    };
    let mut id = owned("drill-");
    let stamp = compact_timestamp(started);
    id.append(stamp.as_str());
    Attestation {
        schema_version: 1,
        attestation_id: id,
        tool: Tool { name: TOOL_NAME, version: TOOL_VERSION },
        drill: owned(DRILL_EVIDENCE_ID),
        target_id: owned(TARGET_EVIDENCE_ID),
        config_sha256: config_fingerprint(source),
        started_at: timestamp_string(started),
        completed_at: timestamp_string(completed),
        fresh_until: timestamp_string(fresh),
        duration_ms,
        status,
        stages: progress.stages,
        checks: progress.checks,
        privacy: PRIVACY_NOTE,
    }
}

/// The id tried for the `sequence`-th file of an attestation with id `base`.
pub open spec fn candidate_id_text(base: Seq<char>, sequence: u32) -> Seq<char> {
    if sequence == 1 {
        base
    } else {
        base + "-"@ + decimal(sequence as nat)
    }
}

/// Different tries give different ids: runs of one drill that start in the
/// same second, and so share an attestation id, each keep a file of their own.
pub proof fn candidate_ids_differ(base: Seq<char>, a: u32, b: u32)
    requires
        a != b,
    ensures
        candidate_id_text(base, a) != candidate_id_text(base, b),
{
    reveal_strlit("-");
    lemma_decimal_len(a as nat);
    lemma_decimal_len(b as nat);
    if a != 1 && b != 1 {
        let ta = candidate_id_text(base, a);
        let tb = candidate_id_text(base, b);
        if ta == tb {
            assert(ta.skip(base.len() + 1int) == decimal(a as nat));
            assert(tb.skip(base.len() + 1int) == decimal(b as nat));
            decimal_injective(a as nat, b as nat);
        }
    }
}

/// The id tried for the `sequence`-th file of one attestation: the id itself
/// first, then the id with `-2`, `-3`, and so on.
pub fn candidate_id(base: &str, sequence: u32) -> (id: String)
    ensures
        id@ == candidate_id_text(base@, sequence),
{
    let mut id = owned(base);
    if sequence != 1 {
        id.append("-");
        push_decimal(&mut id, sequence as u64);
    }
    id
}

/// How creating one candidate attestation file went.
#[derive(Debug, Clone, Copy, PartialEq, Eq, Structural)]
pub enum FileAttempt {
    Created,
    AlreadyExists,
    Failed,
}

/// What to do after trying a candidate attestation file.
#[derive(Debug, Clone, Copy, PartialEq, Eq, Structural)]
pub enum AttemptDecision {
    /// Write the attestation into the file just created, under its id.
    Write,
    /// The file is taken: try the candidate with this sequence number.
    TryNext(u32),
    /// Stop without an attestation file.
    GiveUp,
}

/// After the `sequence`-th candidate file: write into a file that was
/// created, move on past one that exists already (never reusing a sequence
/// number, so never another run's file), and give up on any other failure or
/// when the sequence numbers are exhausted.
pub fn after_attempt(sequence: u32, attempt: FileAttempt) -> (d: AttemptDecision)
    ensures
        match attempt {
            FileAttempt::Created => d is Write,
            FileAttempt::Failed => d is GiveUp,
            FileAttempt::AlreadyExists => if sequence < u32::MAX {
                d == AttemptDecision::TryNext((sequence + 1) as u32)
            } else {
                d is GiveUp
            },
        },
{
    match attempt {
        FileAttempt::Created => AttemptDecision::Write,
        FileAttempt::Failed => AttemptDecision::GiveUp,
        FileAttempt::AlreadyExists => {
            if sequence < u32::MAX {
                AttemptDecision::TryNext(sequence + 1)
            } else {
                AttemptDecision::GiveUp
            }
        },
    }
}

/// The name of the lock file that serializes drills of one target on this
/// host: named by the digest of the target's id, so the id itself does not
/// appear in it.
pub fn lock_file_name(target_id: &str) -> (name: String)
    ensures
        name@ == "restore-drill-"@ + hex_lower(sha256(target_id.spec_bytes())) + ".lock"@,
{
    let mut name = owned("restore-drill-");
    let digest = config_fingerprint(target_id);
    name.append(digest.as_str());
    name.append(".lock");
    name
}

/// The name of the file that holds the attestation with id `id`.
pub fn attestation_file_name(id: &str) -> (name: String)
    ensures
        name@ == id@ + ".json"@,
{
    let mut name = owned(id);
    name.append(".json");
    name
}

} // verus!
