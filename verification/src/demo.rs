use vstd::prelude::*;
use vstd::string::*;

use crate::text::{contains, occurs_at, owned, push_char};

verus! {

/// The characters of `s` with each `'` written as `'\\''`, which closes a
/// single-quoted shell word, adds an escaped quote, and opens a new one.
pub open spec fn shell_escaped(s: Seq<char>) -> Seq<char>
    decreases s.len(),
{
    if s.len() == 0 {
        Seq::empty()
    } else {
        shell_escaped(s.drop_last()) + if s.last() == '\'' {
            seq!['\'', '\\', '\'', '\'']
        } else {
            seq![s.last()]
        }
    }
}

/// `path` as one single-quoted word of the POSIX shell.
pub open spec fn shell_quoted(path: Seq<char>) -> Seq<char> {
    seq!['\''] + shell_escaped(path) + seq!['\'']
}

/// `path` in double quotes, as `cmd.exe` takes a path.
pub open spec fn windows_quoted(path: Seq<char>) -> Seq<char> {
    seq!['"'] + path + seq!['"']
}

/// Quotes a path for the POSIX shell.
pub fn shell_quote(path: &str) -> (q: String)
    ensures
        q@ == shell_quoted(path@),
{
    let v = crate::text::chars_of(path);
    let mut q = String::new();
    push_char(&mut q, '\'');
    for i in 0..v.len()
        invariant
            v@ == path@,
            q@ == seq!['\''] + shell_escaped(v@.take(i as int)),
    {
        let c = v[i];
        assert(v@.take(i + 1).drop_last() == v@.take(i as int));
        if c == '\'' {
            push_char(&mut q, '\'');
            push_char(&mut q, '\\');
            push_char(&mut q, '\'');
            push_char(&mut q, '\'');
        } else {
            push_char(&mut q, c);
        }
    }
    assert(v@.take(v.len() as int) == v@);
    push_char(&mut q, '\'');
    q
}

/// Quotes a path for `cmd.exe`.
pub fn shell_quote_windows(path: &str) -> (q: String)
    ensures
        q@ == windows_quoted(path@),
{
    let mut q = String::new();
    push_char(&mut q, '"');
    q.append(path);
    push_char(&mut q, '"');
    q
}

/// The drill file of the bundled demo for the POSIX shell: prepare the
/// disposable target, copy the sample into it, check its rows, its header and
/// one record, and remove the target.
pub open spec fn demo_config_text(target_id: Seq<char>, sample: Seq<char>, target: Seq<char>) -> Seq<char> {
    "version = 1\nattestation_ttl_days = 30\n\n[drill]\nname = \"bundled customer database sample\"\n\n[target]\nid = \""@
        + target_id
        + "\"\nisolated = true\n\n[commands]\nprepare = \"mkdir -p "@
        + target
        + "\"\nrestore = \"cp "@
        + sample
        + " "@
        + target
        + "/restored.tsv\"\ncleanup = \"rm -rf "@
        + target
        + "\"\ntimeout_seconds = 10\n\n[[checks]]\nname = \"three customer records restored\"\nkind = \"row_count\"\ncommand = \"awk 'END { print NR - 1 }' "@
        + target
        + "/restored.tsv\"\nmin = 3\nmax = 3\ntimeout_seconds = 10\n\n[[checks]]\nname = \"expected customer schema exists\"\nkind = \"schema\"\ncommand = \"head -n 1 "@
        + target
        + "/restored.tsv\"\ncontains = \"account_id\"\ntimeout_seconds = 10\n\n[[checks]]\nname = \"restored application record is readable\"\nkind = \"application\"\ncommand = \"grep -q 'acme-garden' "@
        + target
        + "/restored.tsv\"\ntimeout_seconds = 10\n"@
}

/// The drill file of the bundled demo for `cmd.exe`, with the same three
/// checks as for the POSIX shell; commands are TOML literal strings, so the
/// paths' backslashes and double quotes stand as they are.
pub open spec fn demo_config_windows_text(
    target_id: Seq<char>,
    sample: Seq<char>,
    target: Seq<char>,
) -> Seq<char> {
    "version = 1\nattestation_ttl_days = 30\n[drill]\nname = \"bundled customer database sample\"\n[target]\nid = \""@
        + target_id
        + "\"\nisolated = true\n[commands]\nprepare = 'mkdir "@
        + target
        + "'\nrestore = 'copy "@
        + sample
        + " "@
        + target
        + "\\restored.tsv'\ncleanup = 'rmdir /s /q "@
        + target
        + "'\ntimeout_seconds = 10\n[[checks]]\nname = \"three customer records restored\"\nkind = \"row_count\"\ncommand = 'more +1 "@
        + target
        + "\\restored.tsv | find /c /v \"\"'\nmin = 3\nmax = 3\ntimeout_seconds = 10\n[[checks]]\nname = \"expected customer schema exists\"\nkind = \"schema\"\ncommand = 'findstr /n \"^\" "@
        + target
        + "\\restored.tsv | findstr /b \"1:\"'\ncontains = \"account_id\"\ntimeout_seconds = 10\n[[checks]]\nname = \"restored application record is readable\"\nkind = \"application\"\ncommand = 'findstr /c:acme-garden "@
        + target
        + "\\restored.tsv'\ntimeout_seconds = 10\n"@
}

/// The demo's drill file for the POSIX shell, with the sample and target
/// paths quoted.
pub fn demo_config(target_id: &str, sample_path: &str, target_path: &str) -> (text: String)
    ensures
        text@ == demo_config_text(target_id@, shell_quoted(sample_path@), shell_quoted(target_path@)),
{
    let sample = shell_quote(sample_path);
    let target = shell_quote(target_path);
    let mut text = owned("version = 1\nattestation_ttl_days = 30\n\n[drill]\nname = \"bundled customer database sample\"\n\n[target]\nid = \"");
    text.append(target_id);
    text.append("\"\nisolated = true\n\n[commands]\nprepare = \"mkdir -p ");
    text.append(target.as_str());
    text.append("\"\nrestore = \"cp ");
    text.append(sample.as_str());
    text.append(" ");
    text.append(target.as_str());
    text.append("/restored.tsv\"\ncleanup = \"rm -rf ");
    text.append(target.as_str());
    text.append("\"\ntimeout_seconds = 10\n\n[[checks]]\nname = \"three customer records restored\"\nkind = \"row_count\"\ncommand = \"awk 'END { print NR - 1 }' ");
    text.append(target.as_str());
    text.append("/restored.tsv\"\nmin = 3\nmax = 3\ntimeout_seconds = 10\n\n[[checks]]\nname = \"expected customer schema exists\"\nkind = \"schema\"\ncommand = \"head -n 1 ");
    text.append(target.as_str());
    text.append("/restored.tsv\"\ncontains = \"account_id\"\ntimeout_seconds = 10\n\n[[checks]]\nname = \"restored application record is readable\"\nkind = \"application\"\ncommand = \"grep -q 'acme-garden' ");
    text.append(target.as_str());
    text.append("/restored.tsv\"\ntimeout_seconds = 10\n");
    text
}

/// The demo's drill file for `cmd.exe`, with the sample and target paths quoted.
pub fn demo_config_windows(target_id: &str, sample_path: &str, target_path: &str) -> (text: String)
    ensures
        text@ == demo_config_windows_text(
            target_id@,
            windows_quoted(sample_path@),
            windows_quoted(target_path@),
        ),
{
    let sample = shell_quote_windows(sample_path);
    let target = shell_quote_windows(target_path);
    let mut text = owned("version = 1\nattestation_ttl_days = 30\n[drill]\nname = \"bundled customer database sample\"\n[target]\nid = \"");
    text.append(target_id);
    text.append("\"\nisolated = true\n[commands]\nprepare = 'mkdir ");
    text.append(target.as_str());
    text.append("'\nrestore = 'copy ");
    text.append(sample.as_str());
    text.append(" ");
    text.append(target.as_str());
    text.append("\\restored.tsv'\ncleanup = 'rmdir /s /q ");
    text.append(target.as_str());
    text.append("'\ntimeout_seconds = 10\n[[checks]]\nname = \"three customer records restored\"\nkind = \"row_count\"\ncommand = 'more +1 ");
    text.append(target.as_str());
    text.append("\\restored.tsv | find /c /v \"\"'\nmin = 3\nmax = 3\ntimeout_seconds = 10\n[[checks]]\nname = \"expected customer schema exists\"\nkind = \"schema\"\ncommand = 'findstr /n \"^\" ");
    text.append(target.as_str());
    text.append("\\restored.tsv | findstr /b \"1:\"'\ncontains = \"account_id\"\ntimeout_seconds = 10\n[[checks]]\nname = \"restored application record is readable\"\nkind = \"application\"\ncommand = 'findstr /c:acme-garden ");
    text.append(target.as_str());
    text.append("\\restored.tsv'\ntimeout_seconds = 10\n");
    text
}

proof fn lemma_occurs_across(
    x: Seq<char>,
    l: Seq<char>,
    t: Seq<char>,
    m: Seq<char>,
    a: Seq<char>,
    c: Seq<char>,
)
    requires
        a.len() <= l.len(),
        l.subrange(l.len() - a.len(), l.len() as int) == a,
        c.len() <= m.len(),
        m.subrange(0, c.len() as int) == c,
    ensures
        occurs_at(x + l + t + m, a + t + c, x.len() + l.len() - a.len()),
{
    let s = x + l + t + m;
    let n = a + t + c;
    let i = x.len() + l.len() - a.len();
    assert forall|k: int| 0 <= k < n.len() implies #[trigger] s.subrange(i, i + n.len())[k] == n[k] by {
        if k < a.len() {
            assert(l.subrange(l.len() - a.len(), l.len() as int)[k] == a[k]);
        } else if k < a.len() + t.len() {
        } else {
            assert(m.subrange(0, c.len() as int)[k - a.len() - t.len()] == c[k - a.len() - t.len()]);
        }
    }
    assert(s.subrange(i, i + n.len()) =~= n);
}

proof fn lemma_occurs_extend(s: Seq<char>, n: Seq<char>, i: int, z: Seq<char>)
    requires
        occurs_at(s, n, i),
    ensures
        occurs_at(s + z, n, i),
{
    assert((s + z).subrange(i, i + n.len()) =~= s.subrange(i, i + n.len()));
}

/// The demo's schema check reads the header line of the restored file: its
/// command is `head -n 1` of the restored file in the target, and it looks for
/// `account_id`, which the bundled sample's header holds.
pub proof fn demo_schema_check_reads_header(
    target_id: Seq<char>,
    sample: Seq<char>,
    target: Seq<char>,
)
    ensures
        contains(
            demo_config_text(target_id, sample, target),
            "kind = \"schema\"\ncommand = \""@ + "head -n 1 "@ + target
                + "/restored.tsv\"\ncontains = \"account_id\"\n"@,
        ),
{
    reveal_strlit("/restored.tsv\"\nmin = 3\nmax = 3\ntimeout_seconds = 10\n\n[[checks]]\nname = \"expected customer schema exists\"\nkind = \"schema\"\ncommand = \"head -n 1 ");
    reveal_strlit("/restored.tsv\"\ncontains = \"account_id\"\ntimeout_seconds = 10\n\n[[checks]]\nname = \"restored application record is readable\"\nkind = \"application\"\ncommand = \"grep -q 'acme-garden' ");
    reveal_strlit("kind = \"schema\"\ncommand = \"");
    reveal_strlit("head -n 1 ");
    reveal_strlit("/restored.tsv\"\ncontains = \"account_id\"\n");
    let l = "/restored.tsv\"\nmin = 3\nmax = 3\ntimeout_seconds = 10\n\n[[checks]]\nname = \"expected customer schema exists\"\nkind = \"schema\"\ncommand = \"head -n 1 "@;
    let m = "/restored.tsv\"\ncontains = \"account_id\"\ntimeout_seconds = 10\n\n[[checks]]\nname = \"restored application record is readable\"\nkind = \"application\"\ncommand = \"grep -q 'acme-garden' "@;
    let a = "kind = \"schema\"\ncommand = \""@ + "head -n 1 "@;
    let c = "/restored.tsv\"\ncontains = \"account_id\"\n"@;
    assert(l.subrange(l.len() - a.len(), l.len() as int) =~= a);
    assert(m.subrange(0, c.len() as int) =~= c);
    let x = "version = 1\nattestation_ttl_days = 30\n\n[drill]\nname = \"bundled customer database sample\"\n\n[target]\nid = \""@ + target_id + "\"\nisolated = true\n\n[commands]\nprepare = \"mkdir -p "@ + target + "\"\nrestore = \"cp "@ + sample + " "@ + target + "/restored.tsv\"\ncleanup = \"rm -rf "@ + target + "\"\ntimeout_seconds = 10\n\n[[checks]]\nname = \"three customer records restored\"\nkind = \"row_count\"\ncommand = \"awk 'END { print NR - 1 }' "@ + target;
    lemma_occurs_across(x, l, target, m, a, c);
    let i = x.len() + l.len() - a.len();
    lemma_occurs_extend(x + l + target + m, a + target + c, i, target);
    lemma_occurs_extend(x + l + target + m + target, a + target + c, i, "/restored.tsv\"\ntimeout_seconds = 10\n"@);
    assert(x + l + target + m + target + "/restored.tsv\"\ntimeout_seconds = 10\n"@ == demo_config_text(target_id, sample, target));
}

/// The demo's row-count check counts the records of the restored file below
/// its header line (`awk` prints the number of lines less one) and asks for
/// exactly three of them, the bundled sample's records.
pub proof fn demo_row_count_check_counts_records(
    target_id: Seq<char>,
    sample: Seq<char>,
    target: Seq<char>,
)
    ensures
        contains(
            demo_config_text(target_id, sample, target),
            "kind = \"row_count\"\ncommand = \"awk 'END { print NR - 1 }' "@ + target
                + "/restored.tsv\"\nmin = 3\nmax = 3\n"@,
        ),
{
    reveal_strlit("\"\ntimeout_seconds = 10\n\n[[checks]]\nname = \"three customer records restored\"\nkind = \"row_count\"\ncommand = \"awk 'END { print NR - 1 }' ");
    reveal_strlit("/restored.tsv\"\nmin = 3\nmax = 3\ntimeout_seconds = 10\n\n[[checks]]\nname = \"expected customer schema exists\"\nkind = \"schema\"\ncommand = \"head -n 1 ");
    reveal_strlit("kind = \"row_count\"\ncommand = \"awk 'END { print NR - 1 }' ");
    reveal_strlit("/restored.tsv\"\nmin = 3\nmax = 3\n");
    let l = "\"\ntimeout_seconds = 10\n\n[[checks]]\nname = \"three customer records restored\"\nkind = \"row_count\"\ncommand = \"awk 'END { print NR - 1 }' "@;
    let m = "/restored.tsv\"\nmin = 3\nmax = 3\ntimeout_seconds = 10\n\n[[checks]]\nname = \"expected customer schema exists\"\nkind = \"schema\"\ncommand = \"head -n 1 "@;
    let a = "kind = \"row_count\"\ncommand = \"awk 'END { print NR - 1 }' "@;
    let c = "/restored.tsv\"\nmin = 3\nmax = 3\n"@;
    assert(l.subrange(l.len() - a.len(), l.len() as int) =~= a);
    assert(m.subrange(0, c.len() as int) =~= c);
    let x = "version = 1\nattestation_ttl_days = 30\n\n[drill]\nname = \"bundled customer database sample\"\n\n[target]\nid = \""@ + target_id + "\"\nisolated = true\n\n[commands]\nprepare = \"mkdir -p "@ + target + "\"\nrestore = \"cp "@ + sample + " "@ + target + "/restored.tsv\"\ncleanup = \"rm -rf "@ + target;
    let m2 = "/restored.tsv\"\ncontains = \"account_id\"\ntimeout_seconds = 10\n\n[[checks]]\nname = \"restored application record is readable\"\nkind = \"application\"\ncommand = \"grep -q 'acme-garden' "@;
    let z = "/restored.tsv\"\ntimeout_seconds = 10\n"@;
    lemma_occurs_across(x, l, target, m, a, c);
    let i = x.len() + l.len() - a.len();
    let n = a + target + c;
    lemma_occurs_extend(x + l + target + m, n, i, target);
    lemma_occurs_extend(x + l + target + m + target, n, i, m2);
    lemma_occurs_extend(x + l + target + m + target + m2, n, i, target);
    lemma_occurs_extend(x + l + target + m + target + m2 + target, n, i, z);
    assert(x + l + target + m + target + m2 + target + z == demo_config_text(target_id, sample, target));
}

/// The Windows demo's schema check reads the header line of the restored
/// file too: `findstr` numbers the lines and keeps the first, and the check
/// looks for `account_id` in it.
pub proof fn demo_windows_schema_check_reads_header(
    target_id: Seq<char>,
    sample: Seq<char>,
    target: Seq<char>,
)
    ensures
        contains(
            demo_config_windows_text(target_id, sample, target),
            "kind = \"schema\"\ncommand = 'findstr /n \"^\" "@ + target
                + "\\restored.tsv | findstr /b \"1:\"'\ncontains = \"account_id\"\n"@,
        ),
{
    reveal_strlit("\\restored.tsv | find /c /v \"\"'\nmin = 3\nmax = 3\ntimeout_seconds = 10\n[[checks]]\nname = \"expected customer schema exists\"\nkind = \"schema\"\ncommand = 'findstr /n \"^\" ");
    reveal_strlit("\\restored.tsv | findstr /b \"1:\"'\ncontains = \"account_id\"\ntimeout_seconds = 10\n[[checks]]\nname = \"restored application record is readable\"\nkind = \"application\"\ncommand = 'findstr /c:acme-garden ");
    reveal_strlit("kind = \"schema\"\ncommand = 'findstr /n \"^\" ");
    reveal_strlit("\\restored.tsv | findstr /b \"1:\"'\ncontains = \"account_id\"\n");
    let l = "\\restored.tsv | find /c /v \"\"'\nmin = 3\nmax = 3\ntimeout_seconds = 10\n[[checks]]\nname = \"expected customer schema exists\"\nkind = \"schema\"\ncommand = 'findstr /n \"^\" "@;
    let m = "\\restored.tsv | findstr /b \"1:\"'\ncontains = \"account_id\"\ntimeout_seconds = 10\n[[checks]]\nname = \"restored application record is readable\"\nkind = \"application\"\ncommand = 'findstr /c:acme-garden "@;
    let a = "kind = \"schema\"\ncommand = 'findstr /n \"^\" "@;
    let c = "\\restored.tsv | findstr /b \"1:\"'\ncontains = \"account_id\"\n"@;
    assert(l.subrange(l.len() - a.len(), l.len() as int) =~= a);
    assert(m.subrange(0, c.len() as int) =~= c);
    let x = "version = 1\nattestation_ttl_days = 30\n[drill]\nname = \"bundled customer database sample\"\n[target]\nid = \""@ + target_id + "\"\nisolated = true\n[commands]\nprepare = 'mkdir "@ + target + "'\nrestore = 'copy "@ + sample + " "@ + target + "\\restored.tsv'\ncleanup = 'rmdir /s /q "@ + target + "'\ntimeout_seconds = 10\n[[checks]]\nname = \"three customer records restored\"\nkind = \"row_count\"\ncommand = 'more +1 "@ + target;
    lemma_occurs_across(x, l, target, m, a, c);
    let i = x.len() + l.len() - a.len();
    lemma_occurs_extend(x + l + target + m, a + target + c, i, target);
    lemma_occurs_extend(x + l + target + m + target, a + target + c, i, "\\restored.tsv'\ntimeout_seconds = 10\n"@);
    assert(x + l + target + m + target + "\\restored.tsv'\ntimeout_seconds = 10\n"@ == demo_config_windows_text(target_id, sample, target));
}

} // verus!
