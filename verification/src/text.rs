use vstd::prelude::*;
use vstd::string::*;

verus! {

// ---------------------------------------------------------------------------
// Characters
// ---------------------------------------------------------------------------

/// Unicode `White_Space`, the property that `char::is_whitespace` and
/// `str::trim` go by.
pub open spec fn is_white_space(c: char) -> bool {
    ||| '\t' <= c && c <= '\r'
    ||| c == ' '
    ||| c == '\u{85}'
    ||| c == '\u{a0}'
    ||| c == '\u{1680}'
    ||| '\u{2000}' <= c && c <= '\u{200a}'
    ||| c == '\u{2028}'
    ||| c == '\u{2029}'
    ||| c == '\u{202f}'
    ||| c == '\u{205f}'
    ||| c == '\u{3000}'
}

pub fn white_space(c: char) -> (r: bool)
    ensures
        r == is_white_space(c),
{
    ('\t' <= c && c <= '\r') || c == ' ' || c == '\u{85}' || c == '\u{a0}' || c == '\u{1680}'
        || ('\u{2000}' <= c && c <= '\u{200a}') || c == '\u{2028}' || c == '\u{2029}' || c
        == '\u{202f}' || c == '\u{205f}' || c == '\u{3000}'
}

pub open spec fn is_ascii_digit(c: char) -> bool {
    '0' <= c && c <= '9'
}

pub open spec fn is_ascii_alphanumeric(c: char) -> bool {
    ||| is_ascii_digit(c)
    ||| 'a' <= c && c <= 'z'
    ||| 'A' <= c && c <= 'Z'
}

pub fn ascii_alphanumeric(c: char) -> (r: bool)
    ensures
        r == is_ascii_alphanumeric(c),
{
    ('0' <= c && c <= '9') || ('a' <= c && c <= 'z') || ('A' <= c && c <= 'Z')
}

/// `char::to_ascii_lowercase`: ASCII capitals become small letters, every
/// other character stays.
pub open spec fn ascii_lower(c: char) -> char {
    if 'A' <= c && c <= 'Z' {
        ((c as u32) + 32) as char
    } else {
        c
    }
}

pub fn to_ascii_lower(c: char) -> (r: char)
    ensures
        r == ascii_lower(c),
{
    if 'A' <= c && c <= 'Z' {
        ((c as u8) + 32) as char
    } else {
        c
    }
}

/// `str::to_ascii_lowercase`, character by character.
pub open spec fn ascii_lowercase(s: Seq<char>) -> Seq<char> {
    s.map_values(|c: char| ascii_lower(c))
}

// ---------------------------------------------------------------------------
// Strings as character vectors
// ---------------------------------------------------------------------------

/// The characters of `s`, in order.
pub fn chars_of(s: &str) -> (v: Vec<char>)
    ensures
        v@ == s@,
{
    broadcast use vstd::string::group_string_axioms;

    let mut v: Vec<char> = Vec::new();
    for c in it: s.chars()
        invariant
            v@ == it.seq().take(it.index() as int),
            it.seq() == s@,
    {
        v.push(c);
    }
    v
}

/// `String::push`.
#[verifier::external_body]
pub(crate) fn push_char(s: &mut String, c: char)
    ensures
        final(s)@ == old(s)@.push(c),
{
    s.push(c);
}

/// A `String` holding the characters of `s`.
pub fn owned(s: &str) -> (r: String)
    ensures
        r@ == s@,
{
    String::from_str(s)
}

// ---------------------------------------------------------------------------
// Blank text and trimming
// ---------------------------------------------------------------------------

/// `s.trim().is_empty()`: nothing but white space.
pub open spec fn is_blank(s: Seq<char>) -> bool {
    forall|i: int| 0 <= i < s.len() ==> is_white_space(#[trigger] s[i])
}

pub fn blank(s: &str) -> (r: bool)
    ensures
        r == is_blank(s@),
{
    let v = chars_of(s);
    let mut i: usize = 0;
    while i < v.len()
        invariant
            v@ == s@,
            i <= v.len(),
            forall|k: int| 0 <= k < i ==> is_white_space(#[trigger] v@[k]),
        decreases v.len() - i,
    {
        if !white_space(v[i]) {
            return false;
        }
        i = i + 1;
    }
    true
}

/// `str::trim_start`.
pub open spec fn trim_start(s: Seq<char>) -> Seq<char>
    decreases s.len(),
{
    if s.len() > 0 && is_white_space(s[0]) {
        trim_start(s.drop_first())
    } else {
        s
    }
}

/// `str::trim_end`.
pub open spec fn trim_end(s: Seq<char>) -> Seq<char>
    decreases s.len(),
{
    if s.len() > 0 && is_white_space(s.last()) {
        trim_end(s.drop_last())
    } else {
        s
    }
}

/// `str::trim`: leading and trailing white space removed.
pub open spec fn trim(s: Seq<char>) -> Seq<char> {
    trim_end(trim_start(s))
}

proof fn lemma_trim_start_empty(s: Seq<char>)
    ensures
        trim_start(s).len() == 0 <==> is_blank(s),
        trim_start(s).len() > 0 ==> !is_white_space(trim_start(s)[0]),
    decreases s.len(),
{
    if s.len() > 0 && is_white_space(s[0]) {
        lemma_trim_start_empty(s.drop_first());
        if is_blank(s.drop_first()) {
            assert forall|i: int| 0 <= i < s.len() implies is_white_space(#[trigger] s[i]) by {
                if i > 0 {
                    assert(s[i] == s.drop_first()[i - 1]);
                }
            }
        } else {
            let k = choose|k: int| 0 <= k < s.drop_first().len() && !is_white_space(s.drop_first()[k]);
            assert(s[k + 1] == s.drop_first()[k]);
        }
    } else if s.len() > 0 {
        assert(!is_white_space(s[0]));
    }
}

proof fn lemma_trim_end_empty(s: Seq<char>)
    ensures
        trim_end(s).len() == 0 <==> is_blank(s),
    decreases s.len(),
{
    if s.len() > 0 && is_white_space(s.last()) {
        lemma_trim_end_empty(s.drop_last());
        if is_blank(s.drop_last()) {
            assert forall|i: int| 0 <= i < s.len() implies is_white_space(#[trigger] s[i]) by {
                if i < s.len() - 1 {
                    assert(s[i] == s.drop_last()[i]);
                }
            }
        } else {
            let k = choose|k: int| 0 <= k < s.drop_last().len() && !is_white_space(s.drop_last()[k]);
            assert(s[k] == s.drop_last()[k]);
        }
    } else if s.len() > 0 {
        assert(!is_white_space(s[s.len() - 1]));
    }
}

/// A text is blank exactly when trimming its white space leaves nothing, so
/// `is_blank` is what `s.trim().is_empty()` tests.
pub proof fn blank_iff_trimmed_empty(s: Seq<char>)
    ensures
        is_blank(s) <==> trim(s).len() == 0,
{
    lemma_trim_start_empty(s);
    lemma_trim_end_empty(trim_start(s));
    let t = trim_start(s);
    if t.len() > 0 {
        assert(!is_white_space(t[0]));
    }
}

proof fn lemma_trim_start_blank_prefix(a: Seq<char>, t: Seq<char>)
    requires
        is_blank(a),
        t.len() == 0 || !is_white_space(t[0]),
    ensures
        trim_start(a + t) == t,
    decreases a.len(),
{
    if a.len() == 0 {
        assert(a + t =~= t);
    } else {
        assert((a + t)[0] == a[0]);
        assert((a + t).drop_first() =~= a.drop_first() + t);
        lemma_trim_start_blank_prefix(a.drop_first(), t);
    }
}

proof fn lemma_trim_end_blank_suffix(t: Seq<char>, b: Seq<char>)
    requires
        is_blank(b),
        t.len() == 0 || !is_white_space(t.last()),
    ensures
        trim_end(t + b) == t,
    decreases b.len(),
{
    if b.len() == 0 {
        assert(t + b =~= t);
    } else {
        assert((t + b).last() == b.last());
        assert((t + b).drop_last() =~= t + b.drop_last());
        lemma_trim_end_blank_suffix(t, b.drop_last());
    }
}

/// Trimming takes away exactly the white space around a text: a text that
/// neither starts nor ends with white space comes back whole, whatever blank
/// runs stood before and after it.
pub proof fn trim_removes_surrounding_white_space(a: Seq<char>, t: Seq<char>, b: Seq<char>)
    requires
        is_blank(a),
        is_blank(b),
        t.len() > 0,
        !is_white_space(t[0]),
        !is_white_space(t.last()),
    ensures
        trim(a + t + b) == t,
{
    assert(a + t + b =~= a + (t + b));
    assert((t + b)[0] == t[0]);
    lemma_trim_start_blank_prefix(a, t + b);
    lemma_trim_end_blank_suffix(t, b);
}

/// The characters of `v` with leading and trailing white space removed.
pub fn trimmed(v: &Vec<char>) -> (r: Vec<char>)
    ensures
        r@ == trim(v@),
{
    let mut start: usize = 0;
    assert(v@.skip(0) == v@);
    while start < v.len() && white_space(v[start])
        invariant
            start <= v.len(),
            trim_start(v@) == trim_start(v@.skip(start as int)),
        decreases v.len() - start,
    {
        assert(v@.skip(start as int).drop_first() == v@.skip(start + 1));
        start = start + 1;
    }
    let ghost t = v@.skip(start as int);
    assert(trim_start(v@) == t);
    let mut end: usize = v.len();
    assert(t.take(end - start) == t);
    while end > start && white_space(v[end - 1])
        invariant
            start <= end <= v.len(),
            t == v@.skip(start as int),
            trim_end(t) == trim_end(t.take(end - start)),
        decreases end,
    {
        assert(t.take(end - start).drop_last() == t.take(end - 1 - start));
        end = end - 1;
    }
    assert(trim_end(t) == t.take(end - start));
    let mut r: Vec<char> = Vec::new();
    let mut i: usize = start;
    while i < end
        invariant
            start <= i <= end <= v.len(),
            r@ == v@.subrange(start as int, i as int),
        decreases end - i,
    {
        r.push(v[i]);
        i = i + 1;
    }
    assert(r@ == t.take(end - start));
    r
}

// ---------------------------------------------------------------------------
// Substrings
// ---------------------------------------------------------------------------

/// `needle` stands in `hay` from position `i` on.
pub open spec fn occurs_at(hay: Seq<char>, needle: Seq<char>, i: int) -> bool {
    &&& 0 <= i
    &&& i + needle.len() <= hay.len()
    &&& hay.subrange(i, i + needle.len()) == needle
}

/// `str::contains` with a string pattern.
pub open spec fn contains(hay: Seq<char>, needle: Seq<char>) -> bool {
    exists|i: int| occurs_at(hay, needle, i)
}

fn matches_at(hay: &Vec<char>, needle: &Vec<char>, i: usize) -> (r: bool)
    requires
        i + needle.len() <= hay.len(),
    ensures
        r == occurs_at(hay@, needle@, i as int),
{
    let mut j: usize = 0;
    while j < needle.len()
        invariant
            i + needle.len() <= hay.len(),
            j <= needle.len(),
            forall|k: int| 0 <= k < j ==> hay@[i + k] == needle@[k],
        decreases needle.len() - j,
    {
        if hay[i + j] != needle[j] {
            assert(hay@.subrange(i as int, i + needle.len())[j as int] != needle@[j as int]);
            return false;
        }
        j = j + 1;
    }
    assert(hay@.subrange(i as int, i + needle.len()) == needle@);
    true
}

pub fn contains_chars(hay: &Vec<char>, needle: &Vec<char>) -> (r: bool)
    ensures
        r == contains(hay@, needle@),
{
    if needle.len() > hay.len() {
        return false;
    }
    let last = hay.len() - needle.len();
    let mut i: usize = 0;
    while i <= last
        invariant
            last == hay.len() - needle.len(),
            i <= last + 1,
            forall|k: int| 0 <= k < i ==> !occurs_at(hay@, needle@, k),
        decreases last + 1 - i,
    {
        if matches_at(hay, needle, i) {
            return true;
        }
        if i == last {
            return false;
        }
        i = i + 1;
    }
    false
}

// ---------------------------------------------------------------------------
// Numbers as text
// ---------------------------------------------------------------------------

/// The digit of value `d` (below 16): `0`..`9`, then `a`..`f`.
pub open spec fn digit_char(d: nat) -> char {
    if d < 10 {
        (48 + d) as char
    } else {
        (87 + d) as char
    }
}

/// What `{}` prints of a non-negative integer: decimal digits, no leading zero.
pub open spec fn decimal(n: nat) -> Seq<char>
    decreases n,
{
    if n < 10 {
        seq![digit_char(n)]
    } else {
        decimal(n / 10).push(digit_char(n % 10))
    }
}

pub proof fn lemma_decimal_len(n: nat)
    ensures
        decimal(n).len() >= 1,
        decimal(n).len() == 1 <==> n < 10,
    decreases n,
{
    if n >= 10 {
        lemma_decimal_len(n / 10);
    }
}

/// Different numbers have different decimal texts.
pub proof fn decimal_injective(a: nat, b: nat)
    requires
        decimal(a) == decimal(b),
    ensures
        a == b,
    decreases a,
{
    lemma_decimal_len(a);
    lemma_decimal_len(b);
    if a < 10 {
        assert(b < 10);
        assert(decimal(a)[0] == digit_char(a));
        assert(decimal(b)[0] == digit_char(b));
        assert(digit_char(a) == digit_char(b));
    } else {
        assert(decimal(a).last() == decimal(b).last());
        assert(decimal(a).drop_last() == decimal(a / 10));
        assert(decimal(b).drop_last() == decimal(b / 10));
        assert(b >= 10);
        assert(decimal(a) == decimal(a / 10).push(digit_char(a % 10)));
        assert(decimal(b) == decimal(b / 10).push(digit_char(b % 10)));
        assert(decimal(a)[decimal(a).len() - 1] == digit_char(a % 10));
        assert(decimal(b)[decimal(b).len() - 1] == digit_char(b % 10));
        assert(digit_char(a % 10) == digit_char(b % 10));
        assert(a % 10 == b % 10);
        decimal_injective(a / 10, b / 10);
    }
}

fn digit(d: u64) -> (c: char)
    requires
        d < 16,
    ensures
        c == digit_char(d as nat),
{
    if d < 10 {
        ((d as u8) + 48) as char
    } else {
        ((d as u8) + 87) as char
    }
}

/// Appends the decimal text of `n` to `s`.
pub fn push_decimal(s: &mut String, n: u64)
    ensures
        final(s)@ == old(s)@ + decimal(n as nat),
    decreases n,
{
    if n >= 10 {
        push_decimal(s, n / 10);
    }
    push_char(s, digit(n % 10));
}

/// Two small hexadecimal digits for each byte, as `{:x}` prints a digest.
pub open spec fn hex_lower(bytes: Seq<u8>) -> Seq<char>
    decreases bytes.len(),
{
    if bytes.len() == 0 {
        Seq::empty()
    } else {
        hex_lower(bytes.drop_last()) + seq![
            digit_char((bytes.last() / 16) as nat),
            digit_char((bytes.last() % 16) as nat),
        ]
    }
}

pub fn to_hex_lower(bytes: &Vec<u8>) -> (s: String)
    ensures
        s@ == hex_lower(bytes@),
{
    let mut s = String::new();
    for i in 0..bytes.len()
        invariant
            s@ == hex_lower(bytes@.take(i as int)),
    {
        let b = bytes[i];
        assert(bytes@.take(i + 1).drop_last() == bytes@.take(i as int));
        push_char(&mut s, digit((b / 16) as u64));
        push_char(&mut s, digit((b % 16) as u64));
    }
    assert(bytes@.take(bytes.len() as int) == bytes@);
    s
}

// ---------------------------------------------------------------------------
// Debug quoting
// ---------------------------------------------------------------------------

/// What `{:?}` prints of a string: the text in double quotes, with the
/// characters that `str::escape_debug` escapes written as escapes.
pub uninterp spec fn debug_quoted(s: Seq<char>) -> Seq<char>;

/// Printable ASCII other than `"` and `\`: what `{:?}` of a string leaves
/// as it is.
pub open spec fn is_plain_ascii(s: Seq<char>) -> bool {
    forall|i: int|
        0 <= i < s.len() ==> {
            let c = #[trigger] s[i];
            ' ' <= c && c <= '~' && c != '"' && c != '\\'
        }
}

/// `<str as Debug>::fmt`. The contract names the result `debug_quoted` of the
/// text; of it, it says only that printable ASCII text without `"` or `\`
/// comes out unchanged between double quotes (`str::escape_debug` escapes no
/// such character). Other characters' escapes are left unsaid.
#[verifier::external_body]
pub(crate) fn push_debug_quoted(out: &mut String, s: &str)
    ensures
        final(out)@ == old(out)@ + debug_quoted(s@),
        is_plain_ascii(s@) ==> final(out)@ == old(out)@ + seq!['"'] + s@ + seq!['"'],
{
    out.push_str(&format!("{s:?}"));
}

} // verus!
