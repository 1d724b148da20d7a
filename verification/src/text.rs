use vstd::prelude::*;

verus! {

/// The decimal digit character for `d` (0..=9).
pub open spec fn digit_char(d: nat) -> char {
    ((d % 10) + 48) as char
}

/// Decimal representation of a natural number, without leading zeros.
pub open spec fn decimal(n: nat) -> Seq<char>
    decreases n,
{
    if n < 10 {
        seq![digit_char(n)]
    } else {
        decimal(n / 10).push(digit_char(n % 10))
    }
}

/// `c` has the Unicode `White_Space` property (what `char::is_whitespace`
/// tests).
pub open spec fn is_white_space(c: char) -> bool {
    let u = c as u32;
    ||| 0x9 <= u <= 0xD
    ||| u == 0x20
    ||| u == 0x85
    ||| u == 0xA0
    ||| u == 0x1680
    ||| 0x2000 <= u <= 0x200A
    ||| u == 0x2028
    ||| u == 0x2029
    ||| u == 0x202F
    ||| u == 0x205F
    ||| u == 0x3000
}

/// `s` is empty once leading and trailing white space is trimmed.
pub open spec fn is_blank_seq(s: Seq<char>) -> bool {
    forall|i: int| 0 <= i < s.len() ==> is_white_space(#[trigger] s[i])
}

/// ASCII lower-casing of a single character; other characters are kept.
pub open spec fn ascii_lower(c: char) -> char {
    if 'A' <= c <= 'Z' {
        ((c as u32) + 32) as char
    } else {
        c
    }
}

/// Equality of two strings up to ASCII case.
pub open spec fn eq_ignore_ascii_case_seq(a: Seq<char>, b: Seq<char>) -> bool {
    &&& a.len() == b.len()
    &&& forall|i: int| 0 <= i < a.len() ==> ascii_lower(#[trigger] a[i]) == ascii_lower(b[i])
}

/// `pat` occurs in `s` at position `i`.
pub open spec fn occurs_at(s: Seq<char>, pat: Seq<char>, i: int) -> bool {
    &&& 0 <= i
    &&& i + pat.len() <= s.len()
    &&& s.subrange(i, i + pat.len()) == pat
}

/// Left-to-right replacement of every non-overlapping occurrence of the
/// non-empty pattern `pat` in `s` by `rep` (what `str::replace` computes).
pub open spec fn replace_all(s: Seq<char>, pat: Seq<char>, rep: Seq<char>) -> Seq<char>
    decreases s.len(),
{
    if s.len() == 0 {
        seq![]
    } else if pat.len() > 0 && occurs_at(s, pat, 0) {
        rep + replace_all(s.skip(pat.len() as int), pat, rep)
    } else {
        seq![s[0]] + replace_all(s.skip(1), pat, rep)
    }
}

/// The characters of `s` before its first line break (all of `s` if it has
/// none).
pub open spec fn first_line(s: Seq<char>) -> Seq<char>
    decreases s.len(),
{
    if s.len() == 0 || s[0] == '\n' {
        seq![]
    } else {
        seq![s[0]] + first_line(s.skip(1))
    }
}

/// Characters that percent-encoding leaves as they are: ASCII alphanumerics
/// and `-`, `.`, `_`, `~`.
pub open spec fn is_url_unreserved(c: char) -> bool {
    ||| '0' <= c <= '9'
    ||| 'A' <= c <= 'Z'
    ||| 'a' <= c <= 'z'
    ||| c == '-'
    ||| c == '.'
    ||| c == '_'
    ||| c == '~'
}

/// Upper-case hexadecimal digit for `d` (0..=15).
pub open spec fn hex_upper(d: nat) -> char {
    if d < 10 {
        (d + 48) as char
    } else {
        (d + 55) as char
    }
}

/// The UTF-8 encoding of `c`, byte by byte.
pub open spec fn utf8_bytes(c: char) -> Seq<nat> {
    let u = c as u32 as nat;
    if u < 0x80 {
        seq![u]
    } else if u < 0x800 {
        seq![0xC0 + u / 64, 0x80 + u % 64]
    } else if u < 0x10000 {
        seq![0xE0 + u / 4096, 0x80 + (u / 64) % 64, 0x80 + u % 64]
    } else {
        seq![0xF0 + u / 262144, 0x80 + (u / 4096) % 64, 0x80 + (u / 64) % 64, 0x80 + u % 64]
    }
}

/// `%` and two upper-case hex digits for every byte of `b`.
pub open spec fn percent_bytes(b: Seq<nat>) -> Seq<char>
    decreases b.len(),
{
    if b.len() == 0 {
        seq![]
    } else {
        seq!['%', hex_upper(b[0] / 16), hex_upper(b[0] % 16)] + percent_bytes(b.skip(1))
    }
}

/// Percent-encoding of `s`: unreserved characters stay, every byte of the
/// UTF-8 encoding of any other character becomes `%` and two upper-case hex
/// digits.
pub open spec fn url_encoded(s: Seq<char>) -> Seq<char>
    decreases s.len(),
{
    if s.len() == 0 {
        seq![]
    } else {
        let c = s[0];
        (if is_url_unreserved(c) {
            seq![c]
        } else {
            percent_bytes(utf8_bytes(c))
        }) + url_encoded(s.skip(1))
    }
}

/// Calls `urlencoding::encode`, which percent-encodes every UTF-8 byte of
/// `s` except ASCII alphanumerics and `-`, `_`, `.`, `~`, with upper-case
/// hex digits (the bytes of a non-ASCII character are never kept, since
/// they all lie at or above 0x80).
#[verifier::external_body]
pub(crate) fn url_encode(s: &str) -> (r: String)
    ensures
        r@ == url_encoded(s@),
{
    urlencoding::encode(s).into_owned()
}

/// Appends `c` to `s`.
#[verifier::external_body]
pub(crate) fn push_char(s: &mut String, c: char)
    ensures
        final(s)@ == old(s)@.push(c),
{
    s.push(c);
}

/// Appends the decimal representation of `n` to `s`.
pub fn push_decimal(s: &mut String, n: u64)
    ensures
        final(s)@ == old(s)@ + decimal(n as nat),
    decreases n,
{
    if n >= 10 {
        push_decimal(s, n / 10);
    }
    let d: u8 = (n % 10) as u8;
    let c: char = (d + 48u8) as char;
    assert(c == digit_char(n as nat));
    push_char(s, c);
}

/// The characters of `s`, one per element.
pub fn chars_of(s: &str) -> (r: Vec<char>)
    ensures
        r@ == s@,
{
    let n = s.unicode_len();
    let mut r: Vec<char> = Vec::new();
    let mut i: usize = 0;
    while i < n
        invariant
            n == s@.len(),
            i <= n,
            r@ == s@.take(i as int),
        decreases n - i,
    {
        r.push(s.get_char(i));
        i = i + 1;
        assert(r@ =~= s@.take(i as int));
    }
    assert(r@ =~= s@);
    r
}

/// The string made of the characters of `v`.
pub fn string_of(v: &Vec<char>) -> (r: String)
    ensures
        r@ == v@,
{
    let mut r = String::new();
    let mut i: usize = 0;
    while i < v.len()
        invariant
            i <= v.len(),
            r@ == v@.take(i as int),
        decreases v.len() - i,
    {
        push_char(&mut r, v[i]);
        i = i + 1;
        assert(r@ =~= v@.take(i as int));
    }
    assert(r@ =~= v@);
    r
}

/// Whether `c` is white space in the sense of `char::is_whitespace`.
pub fn is_white_space_char(c: char) -> (r: bool)
    ensures
        r == is_white_space(c),
{
    let u = c as u32;
    (0x9 <= u && u <= 0xD) || u == 0x20 || u == 0x85 || u == 0xA0 || u == 0x1680 || (0x2000
        <= u && u <= 0x200A) || u == 0x2028 || u == 0x2029 || u == 0x202F || u == 0x205F || u
        == 0x3000
}

/// Whether `s.trim()` is empty.
pub fn is_blank(s: &str) -> (r: bool)
    ensures
        r == is_blank_seq(s@),
{
    let n = s.unicode_len();
    let mut i: usize = 0;
    while i < n
        invariant
            n == s@.len(),
            i <= n,
            forall|j: int| 0 <= j < i ==> is_white_space(#[trigger] s@[j]),
        decreases n - i,
    {
        if !is_white_space_char(s.get_char(i)) {
            return false;
        }
        i = i + 1;
    }
    true
}

/// ASCII lower-casing of one character.
pub fn ascii_lower_char(c: char) -> (r: char)
    ensures
        r == ascii_lower(c),
{
    if 'A' <= c && c <= 'Z' {
        let b: u8 = (c as u8) + 32;
        b as char
    } else {
        c
    }
}

/// Whether `a` and `b` are equal up to ASCII case (`str::eq_ignore_ascii_case`).
pub fn eq_ignore_ascii_case(a: &str, b: &str) -> (r: bool)
    ensures
        r == eq_ignore_ascii_case_seq(a@, b@),
{
    let n = a.unicode_len();
    if n != b.unicode_len() {
        return false;
    }
    let mut i: usize = 0;
    while i < n
        invariant
            n == a@.len(),
            n == b@.len(),
            i <= n,
            forall|j: int| 0 <= j < i ==> ascii_lower(#[trigger] a@[j]) == ascii_lower(b@[j]),
        decreases n - i,
    {
        if ascii_lower_char(a.get_char(i)) != ascii_lower_char(b.get_char(i)) {
            return false;
        }
        i = i + 1;
    }
    true
}

/// Whether `pat` occurs in `s` at position `i`.
fn occurs_at_exec(s: &Vec<char>, pat: &Vec<char>, i: usize) -> (r: bool)
    requires
        i <= s.len(),
    ensures
        r == occurs_at(s@, pat@, i as int),
{
    if pat.len() > s.len() - i {
        return false;
    }
    let mut j: usize = 0;
    while j < pat.len()
        invariant
            i + pat.len() <= s.len(),
            j <= pat.len(),
            forall|k: int| 0 <= k < j ==> s@[i + k] == #[trigger] pat@[k],
        decreases pat.len() - j,
    {
        if s[i + j] != pat[j] {
            assert(s@.subrange(i as int, i + pat.len())[j as int] != pat@[j as int]);
            return false;
        }
        j = j + 1;
    }
    assert(s@.subrange(i as int, i + pat.len()) =~= pat@);
    true
}

/// Unfolds `replace_all` at position `i` of `s`.
proof fn lemma_replace_all_step(s: Seq<char>, pat: Seq<char>, rep: Seq<char>, i: int)
    requires
        0 <= i < s.len(),
        pat.len() > 0,
    ensures
        occurs_at(s, pat, i) ==> replace_all(s.skip(i), pat, rep) == rep + replace_all(
            s.skip(i + pat.len()),
            pat,
            rep,
        ),
        !occurs_at(s, pat, i) ==> replace_all(s.skip(i), pat, rep) == seq![s[i]] + replace_all(
            s.skip(i + 1),
            pat,
            rep,
        ),
{
    let t = s.skip(i);
    assert(t.len() > 0);
    if occurs_at(s, pat, i) {
        assert(t.subrange(0, pat.len() as int) =~= s.subrange(i, i + pat.len()));
        assert(t.skip(pat.len() as int) =~= s.skip(i + pat.len()));
    } else {
        if occurs_at(t, pat, 0) {
            assert(t.subrange(0, pat.len() as int) =~= s.subrange(i, i + pat.len()));
        }
        assert(t.skip(1) =~= s.skip(i + 1));
    }
}

/// `s` with every occurrence of `pat` replaced by `rep`, scanning left to
/// right (`str::replace` for a non-empty pattern).
pub fn replace_all_str(s: &str, pat: &str, rep: &str) -> (r: String)
    requires
        pat@.len() > 0,
    ensures
        r@ == replace_all(s@, pat@, rep@),
{
    let sv = chars_of(s);
    let pv = chars_of(pat);
    let n = sv.len();
    let mut out = String::new();
    let mut i: usize = 0;
    assert(sv@.skip(0) =~= sv@);
    while i < n
        invariant
            n == sv@.len(),
            sv@ == s@,
            pv@ == pat@,
            pat@.len() > 0,
            i <= n,
            out@ + replace_all(sv@.skip(i as int), pv@, rep@) == replace_all(sv@, pv@, rep@),
        decreases n - i,
    {
        proof {
            lemma_replace_all_step(sv@, pv@, rep@, i as int);
        }
        if occurs_at_exec(&sv, &pv, i) {
            let ghost before = out@;
            out.append(rep);
            assert(out@ + replace_all(sv@.skip(i + pv@.len()), pv@, rep@) =~= before + (rep@
                + replace_all(sv@.skip(i + pv@.len()), pv@, rep@)));
            i = i + pv.len();
        } else {
            let ghost before = out@;
            push_char(&mut out, sv[i]);
            assert(out@ + replace_all(sv@.skip(i + 1), pv@, rep@) =~= before + (seq![sv@[i as int]]
                + replace_all(sv@.skip(i + 1), pv@, rep@)));
            i = i + 1;
        }
    }
    assert(sv@.skip(n as int) =~= Seq::<char>::empty());
    out
}

/// The decimal representation of `n` as a string.
pub fn decimal_string(n: u64) -> (r: String)
    ensures
        r@ == decimal(n as nat),
{
    let mut s = String::new();
    push_decimal(&mut s, n);
    assert(s@ =~= decimal(n as nat));
    s
}

} // verus!
