use vstd::prelude::*;
use vstd::string::*;

use crate::text::{
    ascii_lower, ascii_lowercase, blank, chars_of, contains, contains_chars, debug_quoted, decimal, is_blank,
    is_white_space, owned, push_debug_quoted, push_decimal, to_ascii_lower,
};

verus! {

/// The time that a command gets when the drill file names none.
pub const DEFAULT_TIMEOUT_SECONDS: u64 = 900;

/// A restore-drill file: what to restore, where, and how to check it.
#[derive(Debug)]
pub struct Config {
    pub version: u8,
    pub drill: Drill,
    pub target: Target,
    pub commands: Commands,
    pub checks: Vec<Check>,
    pub attestation_ttl_days: u64,
}

#[derive(Debug)]
pub struct Drill {
    pub name: String,
}

#[derive(Debug)]
pub struct Target {
    pub id: String,
    pub isolated: bool,
}

#[derive(Debug)]
pub struct Commands {
    pub prepare: Option<String>,
    pub restore: String,
    pub cleanup: String,
    pub timeout_seconds: u64,
}

#[derive(Debug)]
pub struct Check {
    pub name: String,
    pub kind: CheckKind,
    pub command: String,
    pub min: Option<i64>,
    pub max: Option<i64>,
    pub contains: Option<String>,
    pub timeout_seconds: u64,
}

/// What a recovery check looks at in its command's outcome.
#[derive(Debug, Clone, Copy, PartialEq, Eq, Structural)]
pub enum CheckKind {
    RowCount,
    Schema,
    Application,
    Command,
}

/// Why the library refused: a configuration or safety rule, or the machine.
#[derive(Debug)]
pub enum Error {
    Config(String),
    Io(String),
}

impl Error {
    /// The text that the error reports.
    pub fn message(&self) -> (m: String)
        ensures
            m@ == match self {
                Error::Config(s) => s@,
                Error::Io(s) => s@,
            },
    {
        match self {
            Error::Config(s) => s.clone(),
            Error::Io(s) => s.clone(),
        }
    }
}

impl Error {
    /// The exit code of a refusal: 2 for a configuration or safety error, 3
    /// for one of the machine.
    pub fn exit_code(&self) -> (code: u8)
        ensures
            code == match self {
                Error::Config(_) => 2u8,
                Error::Io(_) => 3u8,
            },
    {
        match self {
            Error::Config(_) => 2,
            Error::Io(_) => 3,
        }
    }

    /// The kind of the error as machine-readable output names it.
    pub fn kind_label(&self) -> (text: &'static str)
        ensures
            text@ == match self {
                Error::Config(_) => "configuration"@,
                Error::Io(_) => "io"@,
            },
    {
        match self {
            Error::Config(_) => "configuration",
            Error::Io(_) => "io",
        }
    }
}

/// `attestation_ttl_days` when the drill file names none.
pub fn default_ttl() -> (d: u64)
    ensures
        d == 30,
{
    30
}

/// `timeout_seconds` when the drill file names none.
pub fn default_timeout() -> (d: u64)
    ensures
        d == DEFAULT_TIMEOUT_SECONDS,
{
    DEFAULT_TIMEOUT_SECONDS
}

// ---------------------------------------------------------------------------
// The rules
// ---------------------------------------------------------------------------

pub open spec fn empty_text_message(field: Seq<char>) -> Seq<char> {
    field + " must not be empty"@
}

/// The target's id names something production-like, in any letter case.
pub open spec fn looks_production_like(id: Seq<char>) -> bool {
    let lower = ascii_lowercase(id);
    ||| contains(lower, "prod"@)
    ||| contains(lower, "production"@)
    ||| contains(lower, "live"@)
}

/// An earlier check has the same name as check `i`.
pub open spec fn name_taken(checks: Seq<Check>, i: int) -> bool {
    exists|j: int| 0 <= j < i && (#[trigger] checks[j]).name@ == checks[i].name@
}

/// The refusal that check `i` earns on its own and against the names before it.
pub open spec fn check_refusal(checks: Seq<Check>, i: int) -> Option<Seq<char>> {
    let check = checks[i];
    let quoted = debug_quoted(check.name@);
    if is_blank(check.name@) {
        Some(empty_text_message("checks[].name"@))
    } else if is_blank(check.command@) {
        Some(empty_text_message("checks[].command"@))
    } else if name_taken(checks, i) {
        Some("check name "@ + quoted + " is duplicated"@)
    } else if check.timeout_seconds == 0 {
        Some("check "@ + quoted + " timeout_seconds must be greater than zero"@)
    } else {
        match check.kind {
            CheckKind::RowCount => {
                if check.min is None && check.max is None {
                    Some("row_count check "@ + quoted + " needs min, max, or both"@)
                } else if check.min is Some && check.max is Some && check.min->0
                    > check.max->0 {
                    Some("row_count check "@ + quoted + " has min greater than max"@)
                } else {
                    None
                }
            },
            CheckKind::Schema => {
                if check.contains is None || check.contains->0@.len() == 0 {
                    Some("schema check "@ + quoted + " needs a non-empty contains value"@)
                } else {
                    None
                }
            },
            _ => {
                if check.min is Some || check.max is Some || check.contains is Some {
                    Some("check "@ + quoted + " has fields that do not apply to its kind"@)
                } else {
                    None
                }
            },
        }
    }
}

/// The first refusal among checks `i..`, in order.
pub open spec fn checks_refusal(checks: Seq<Check>, i: int) -> Option<Seq<char>>
    decreases checks.len() - i,
{
    if i < 0 || i >= checks.len() {
        None
    } else {
        match check_refusal(checks, i) {
            Some(m) => Some(m),
            None => checks_refusal(checks, i + 1),
        }
    }
}

/// The message of the first rule that `c` breaks, in the order the rules are
/// checked; `None` when it breaks none.
pub open spec fn config_refusal(c: Config) -> Option<Seq<char>> {
    if c.version != 1 {
        Some("unsupported config version "@ + decimal(c.version as nat) + "; expected 1"@)
    } else if is_blank(c.drill.name@) {
        Some(empty_text_message("drill.name"@))
    } else if is_blank(c.target.id@) {
        Some(empty_text_message("target.id"@))
    } else if is_blank(c.commands.restore@) {
        Some(empty_text_message("commands.restore"@))
    } else if is_blank(c.commands.cleanup@) {
        Some(empty_text_message("commands.cleanup"@))
    } else if !c.target.isolated {
        Some("target.isolated must be true; production and shared targets are refused"@)
    } else if looks_production_like(c.target.id@) {
        Some("target.id looks production-like; use a clearly disposable drill target"@)
    } else if c.commands.timeout_seconds == 0 {
        Some("commands.timeout_seconds must be greater than zero"@)
    } else if c.checks@.len() == 0 {
        Some("at least one recovery check is required"@)
    } else if c.attestation_ttl_days == 0 {
        Some("attestation_ttl_days must be greater than zero"@)
    } else {
        checks_refusal(c.checks@, 0)
    }
}

/// `c` breaks none of the rules.
pub open spec fn config_valid(c: Config) -> bool {
    config_refusal(c) is None
}

// ---------------------------------------------------------------------------
// Checking the rules
// ---------------------------------------------------------------------------

/// Refuses a value that is empty or white space only, naming the field.
pub fn require_text(field: &str, value: &str) -> (r: Result<(), Error>)
    ensures
        r is Ok <==> !is_blank(value@),
        r matches Err(e) ==> e matches Error::Config(s) && s@ == empty_text_message(field@),
{
    if blank(value) {
        let mut s = owned(field);
        s.append(" must not be empty");
        Err(Error::Config(s))
    } else {
        Ok(())
    }
}

fn production_like(id: &str) -> (r: bool)
    ensures
        r == looks_production_like(id@),
{
    let raw = chars_of(id);
    let mut lower: Vec<char> = Vec::new();
    for i in 0..raw.len()
        invariant
            raw@ == id@,
            lower@ == ascii_lowercase(raw@).take(i as int),
    {
        lower.push(to_ascii_lower(raw[i]));
        assert(lower@ == ascii_lowercase(raw@).take(i + 1));
    }
    assert(lower@ == ascii_lowercase(id@));
    let prod = chars_of("prod");
    let production = chars_of("production");
    let live = chars_of("live");
    contains_chars(&lower, &prod) || contains_chars(&lower, &production) || contains_chars(
        &lower,
        &live,
    )
}

/// `"<lead>" + {:?} of name + "<tail>"`.
fn quoted_message(lead: &str, name: &String, tail: &str) -> (s: String)
    ensures
        s@ == lead@ + debug_quoted(name@) + tail@,
{
    let mut s = owned(lead);
    push_debug_quoted(&mut s, name.as_str());
    s.append(tail);
    s
}

fn name_used_before(checks: &Vec<Check>, i: usize) -> (r: bool)
    requires
        i < checks.len(),
    ensures
        r == name_taken(checks@, i as int),
{
    let mut j: usize = 0;
    while j < i
        invariant
            i < checks.len(),
            j <= i,
            forall|k: int| 0 <= k < j ==> (#[trigger] checks@[k]).name@ != checks@[i as int].name@,
        decreases i - j,
    {
        if checks[j].name == checks[i].name {
            assert(checks@[j as int].name@ == checks@[i as int].name@);
            return true;
        }
        j = j + 1;
    }
    false
}

fn check_problem(checks: &Vec<Check>, i: usize) -> (r: Option<String>)
    requires
        i < checks.len(),
    ensures
        match check_refusal(checks@, i as int) {
            None => r is None,
            Some(m) => r matches Some(s) && s@ == m,
        },
{
    let check = &checks[i];
    if blank(check.name.as_str()) {
        let mut s = owned("checks[].name");
        s.append(" must not be empty");
        return Some(s);
    }
    if blank(check.command.as_str()) {
        let mut s = owned("checks[].command");
        s.append(" must not be empty");
        return Some(s);
    }
    if name_used_before(checks, i) {
        return Some(quoted_message("check name ", &check.name, " is duplicated"));
    }
    if check.timeout_seconds == 0 {
        return Some(
            quoted_message("check ", &check.name, " timeout_seconds must be greater than zero"),
        );
    }
    match check.kind {
        CheckKind::RowCount => {
            if check.min.is_none() && check.max.is_none() {
                return Some(
                    quoted_message("row_count check ", &check.name, " needs min, max, or both"),
                );
            }
            if let (Some(min), Some(max)) = (check.min, check.max) {
                if min > max {
                    return Some(
                        quoted_message(
                            "row_count check ",
                            &check.name,
                            " has min greater than max",
                        ),
                    );
                }
            }
            None
        },
        CheckKind::Schema => {
            let empty = match &check.contains {
                None => true,
                Some(text) => text.as_str().is_empty(),
            };
            if empty {
                return Some(
                    quoted_message(
                        "schema check ",
                        &check.name,
                        " needs a non-empty contains value",
                    ),
                );
            }
            None
        },
        CheckKind::Application | CheckKind::Command => {
            if check.min.is_some() || check.max.is_some() || check.contains.is_some() {
                return Some(
                    quoted_message(
                        "check ",
                        &check.name,
                        " has fields that do not apply to its kind",
                    ),
                );
            }
            None
        },
    }
}

/// The message of the first rule that `config` breaks, or `None`.
pub fn first_refusal(config: &Config) -> (r: Option<String>)
    ensures
        match config_refusal(*config) {
            None => r is None,
            Some(m) => r matches Some(s) && s@ == m,
        },
{
    if config.version != 1 {
        let mut s = owned("unsupported config version ");
        push_decimal(&mut s, config.version as u64);
        s.append("; expected 1");
        return Some(s);
    }
    if blank(config.drill.name.as_str()) {
        let mut s = owned("drill.name");
        s.append(" must not be empty");
        return Some(s);
    }
    if blank(config.target.id.as_str()) {
        let mut s = owned("target.id");
        s.append(" must not be empty");
        return Some(s);
    }
    if blank(config.commands.restore.as_str()) {
        let mut s = owned("commands.restore");
        s.append(" must not be empty");
        return Some(s);
    }
    if blank(config.commands.cleanup.as_str()) {
        let mut s = owned("commands.cleanup");
        s.append(" must not be empty");
        return Some(s);
    }
    if !config.target.isolated {
        return Some(
            owned("target.isolated must be true; production and shared targets are refused"),
        );
    }
    if production_like(config.target.id.as_str()) {
        return Some(
            owned("target.id looks production-like; use a clearly disposable drill target"),
        );
    }
    if config.commands.timeout_seconds == 0 {
        return Some(owned("commands.timeout_seconds must be greater than zero"));
    }
    if config.checks.len() == 0 {
        return Some(owned("at least one recovery check is required"));
    }
    if config.attestation_ttl_days == 0 {
        return Some(owned("attestation_ttl_days must be greater than zero"));
    }
    let mut i: usize = 0;
    while i < config.checks.len()
        invariant
            i <= config.checks.len(),
            config_refusal(*config) == checks_refusal(config.checks@, i as int),
        decreases config.checks.len() - i,
    {
        let problem = check_problem(&config.checks, i);
        assert(checks_refusal(config.checks@, i as int) == match check_refusal(
            config.checks@,
            i as int,
        ) {
            Some(m) => Some(m),
            None => checks_refusal(config.checks@, i + 1),
        });
        if problem.is_some() {
            return problem;
        }
        i = i + 1;
    }
    None
}

/// Accepts `config` when it breaks none of the rules; otherwise refuses it
/// with the message of the first rule that it breaks.
pub fn validate_config(config: &Config) -> (r: Result<(), Error>)
    ensures
        r is Ok <==> config_valid(*config),
        match config_refusal(*config) {
            None => r is Ok,
            Some(m) => r matches Err(e) && e matches Error::Config(s) && s@ == m,
        },
{
    match first_refusal(config) {
        None => Ok(()),
        Some(s) => Err(Error::Config(s)),
    }
}

} // verus!

verus! {

proof fn lemma_no_check_refusal(checks: Seq<Check>, k: int, i: int)
    requires
        0 <= k <= i < checks.len(),
        checks_refusal(checks, k) is None,
    ensures
        check_refusal(checks, i) is None,
    decreases i - k,
{
    if k < i {
        lemma_no_check_refusal(checks, k + 1, i);
    }
}

/// The rules accept a check only when its name and command are not blank, its
/// time limit is above zero, and its fields fit its kind: a row-count check
/// has a lower or an upper bound, and no lower bound above its upper one; a
/// schema check has a non-empty `contains` text; the other kinds have none
/// of these fields.
pub open spec fn check_fits_rules(check: Check) -> bool {
    &&& !is_blank(check.name@)
    &&& !is_blank(check.command@)
    &&& check.timeout_seconds > 0
    &&& match check.kind {
        CheckKind::RowCount => {
            &&& (check.min is Some || check.max is Some)
            &&& (check.min is Some && check.max is Some ==> check.min->0 <= check.max->0)
        },
        CheckKind::Schema => check.contains is Some && check.contains->0@.len() > 0,
        _ => check.min is None && check.max is None && check.contains is None,
    }
}

/// A configuration that the rules accept is version 1, names its drill, its
/// target and its restore and cleanup commands, marks its target isolated,
/// gives a target id that does not look production-like, gives commands a
/// time limit above zero, has at least one check, a time to live above zero,
/// checks that each fit the rules, and no two checks with the same name.
pub proof fn accepted_config_is_safe(c: Config)
    requires
        config_valid(c),
    ensures
        c.version == 1,
        !is_blank(c.drill.name@),
        !is_blank(c.target.id@),
        !is_blank(c.commands.restore@),
        !is_blank(c.commands.cleanup@),
        c.target.isolated,
        !looks_production_like(c.target.id@),
        c.commands.timeout_seconds > 0,
        c.checks@.len() > 0,
        c.attestation_ttl_days > 0,
        forall|i: int| 0 <= i < c.checks@.len() ==> check_fits_rules(#[trigger] c.checks@[i]),
        forall|i: int, j: int|
            0 <= i < j < c.checks@.len() ==> (#[trigger] c.checks@[i]).name@
                != (#[trigger] c.checks@[j]).name@,
{
    assert forall|i: int| 0 <= i < c.checks@.len() implies check_fits_rules(
        #[trigger] c.checks@[i],
    ) by {
        lemma_no_check_refusal(c.checks@, 0, i);
    }
    assert forall|i: int, j: int| 0 <= i < j < c.checks@.len() implies (#[trigger] c.checks@[
        i
    ]).name@ != (#[trigger] c.checks@[j]).name@ by {
        lemma_no_check_refusal(c.checks@, 0, j);
        if c.checks@[i].name@ == c.checks@[j].name@ {
            assert(name_taken(c.checks@, j));
        }
    }
}

} // verus!

verus! {

proof fn lemma_blank_ignores_case(a: Seq<char>, b: Seq<char>)
    requires
        ascii_lowercase(a) == ascii_lowercase(b),
    ensures
        is_blank(a) == is_blank(b),
{
    assert(a.len() == ascii_lowercase(a).len());
    assert(b.len() == ascii_lowercase(b).len());
    assert forall|i: int| 0 <= i < a.len() implies is_white_space(a[i]) == is_white_space(b[i]) by {
        assert(ascii_lowercase(a)[i] == ascii_lower(a[i]));
        assert(ascii_lowercase(b)[i] == ascii_lower(b[i]));
    }
    if is_blank(a) {
        assert forall|i: int| 0 <= i < b.len() implies is_white_space(#[trigger] b[i]) by {
            assert(is_white_space(a[i]));
        }
    }
    if is_blank(b) {
        assert forall|i: int| 0 <= i < a.len() implies is_white_space(#[trigger] a[i]) by {
            assert(is_white_space(b[i]));
        }
    }
}

/// The letter case of the target's id does not matter to the rules: two drill
/// files that differ only in the ASCII letter case of the target's id are
/// refused alike, with the same message, or accepted alike.
pub proof fn refusal_ignores_target_id_case(c: Config, d: Config)
    requires
        d.version == c.version,
        d.drill == c.drill,
        d.commands == c.commands,
        d.checks == c.checks,
        d.target.isolated == c.target.isolated,
        d.attestation_ttl_days == c.attestation_ttl_days,
        ascii_lowercase(d.target.id@) == ascii_lowercase(c.target.id@),
    ensures
        config_refusal(d) == config_refusal(c),
{
    lemma_blank_ignores_case(d.target.id@, c.target.id@);
}

} // verus!

verus! {

/// Check `c` meets the rules for a check on its own: name and command not
/// blank, a time limit above zero, and fields that fit its kind, with a lower
/// bound that may equal the upper one.
pub open spec fn check_meets_rules(c: Check) -> bool {
    &&& !is_blank(c.name@)
    &&& !is_blank(c.command@)
    &&& c.timeout_seconds > 0
    &&& match c.kind {
        CheckKind::RowCount => {
            &&& (c.min is Some || c.max is Some)
            &&& forall|low: i64, high: i64|
                c.min == Some(low) && c.max == Some(high) ==> low <= high
        },
        CheckKind::Schema => exists|text: String| c.contains == Some(text) && text@.len() > 0,
        CheckKind::Application | CheckKind::Command => {
            &&& c.min is None
            &&& c.max is None
            &&& c.contains is None
        },
    }
}

proof fn lemma_checks_accepted(checks: Seq<Check>, i: int)
    requires
        0 <= i <= checks.len(),
        forall|k: int| 0 <= k < checks.len() ==> check_meets_rules(#[trigger] checks[k]),
        forall|j: int, k: int|
            0 <= j < k < checks.len() ==> (#[trigger] checks[j]).name@ != (#[trigger] checks[k]).name@,
    ensures
        checks_refusal(checks, i) is None,
    decreases checks.len() - i,
{
    if i < checks.len() {
        assert(check_meets_rules(checks[i]));
        if name_taken(checks, i) {
            let j = choose|j: int| 0 <= j < i && (#[trigger] checks[j]).name@ == checks[i].name@;
            assert(checks[j].name@ != checks[i].name@);
        }
        if checks[i].kind is RowCount && checks[i].min is Some && checks[i].max is Some {
            assert(checks[i].min == Some(checks[i].min->0));
            assert(checks[i].max == Some(checks[i].max->0));
        }
        assert(check_refusal(checks, i) is None);
        lemma_checks_accepted(checks, i + 1);
    }
}

/// The rules accept every drill file that meets them: version 1; drill name,
/// target id, restore and cleanup not blank; an isolated target whose id does
/// not look production-like; time limits and time to live above zero; at
/// least one check; no two checks with the same name; and every check meeting
/// the rules for its kind (a row-count check's `min` may equal its `max`).
pub proof fn rules_accept_conforming_config(c: Config)
    requires
        c.version == 1,
        !is_blank(c.drill.name@),
        !is_blank(c.target.id@),
        !is_blank(c.commands.restore@),
        !is_blank(c.commands.cleanup@),
        c.target.isolated,
        !looks_production_like(c.target.id@),
        c.commands.timeout_seconds > 0,
        c.checks@.len() > 0,
        c.attestation_ttl_days > 0,
        forall|k: int| 0 <= k < c.checks@.len() ==> check_meets_rules(#[trigger] c.checks@[k]),
        forall|j: int, k: int|
            0 <= j < k < c.checks@.len() ==> (#[trigger] c.checks@[j]).name@
                != (#[trigger] c.checks@[k]).name@,
    ensures
        config_valid(c),
{
    lemma_checks_accepted(c.checks@, 0);
}

} // verus!
