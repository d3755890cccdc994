//! Character-level text utilities used by the classifiers, gates and
//! command validation.  Everything here works on `Seq<char>` views.
use vstd::prelude::*;
use vstd::std_specs::iter::IteratorSpec;

verus! {

broadcast use vstd::string::group_string_axioms;

/// `p` occurs in `s` starting at index `i`.
pub open spec fn occurs_at(s: Seq<char>, p: Seq<char>, i: int) -> bool {
    0 <= i && i + p.len() <= s.len() && s.subrange(i, i + p.len()) == p
}

/// `p` occurs somewhere in `s` (the empty pattern occurs everywhere).
pub open spec fn contains_seq(s: Seq<char>, p: Seq<char>) -> bool {
    exists|i: int| occurs_at(s, p, i)
}

/// `s` begins with `p`.
pub open spec fn starts_with_seq(s: Seq<char>, p: Seq<char>) -> bool {
    p.len() <= s.len() && s.subrange(0, p.len() as int) == p
}

/// `s` ends with `p`.
pub open spec fn ends_with_seq(s: Seq<char>, p: Seq<char>) -> bool {
    p.len() <= s.len() && s.subrange(s.len() - p.len(), s.len() as int) == p
}

/// The characters of a string slice, collected into a vector.
pub fn chars_of(s: &str) -> (v: Vec<char>)
    ensures
        v@ == s@,
{
    let mut v: Vec<char> = Vec::new();
    for c in it: s.chars()
        invariant
            v@ == it.seq().take(it.index() as int),
    {
        v.push(c);
    }
    assert(v@ =~= s@);
    v
}

/// Name for the Unicode `Alphabetic` property of a character, as
/// `char::is_alphabetic` computes it.
pub uninterp spec fn unicode_alphabetic(c: char) -> bool;

/// Name for `char::is_alphanumeric` (Alphabetic or Numeric property).
pub uninterp spec fn unicode_alphanumeric(c: char) -> bool;

/// The Unicode `White_Space` property, which `char::is_whitespace`
/// computes: U+0009 to U+000D, space, U+0085, U+00A0, U+1680, U+2000 to
/// U+200A, U+2028, U+2029, U+202F, U+205F and U+3000.
pub open spec fn unicode_whitespace(c: char) -> bool {
    ||| ('\t' <= c && c <= '\r')
    ||| c == ' '
    ||| c == '\u{85}'
    ||| c == '\u{a0}'
    ||| c == '\u{1680}'
    ||| ('\u{2000}' <= c && c <= '\u{200a}')
    ||| c == '\u{2028}'
    ||| c == '\u{2029}'
    ||| c == '\u{202f}'
    ||| c == '\u{205f}'
    ||| c == '\u{3000}'
}

/// Name for the result of `str::to_lowercase` (full Unicode lowercase
/// mapping of every character).
pub uninterp spec fn lowercase_of(s: Seq<char>) -> Seq<char>;

pub open spec fn is_ascii_letter(c: char) -> bool {
    ('a' <= c && c <= 'z') || ('A' <= c && c <= 'Z')
}

pub open spec fn is_ascii_digit(c: char) -> bool {
    '0' <= c && c <= '9'
}

pub open spec fn ascii_lower(c: char) -> char {
    if 'A' <= c && c <= 'Z' {
        ((c as u32) + 32) as char
    } else {
        c
    }
}

pub open spec fn all_ascii(s: Seq<char>) -> bool {
    forall|i: int| 0 <= i < s.len() ==> (s[i] as u32) < 128
}

/// Wrapper for `char::is_alphabetic`.  Claims that the result is the
/// `Alphabetic` property of `c`, and that among ASCII characters exactly
/// the letters have it.
#[verifier::external_body]
pub fn char_is_alphabetic(c: char) -> (r: bool)
    ensures
        r == unicode_alphabetic(c),
        is_ascii_letter(c) ==> r,
        (c as u32) < 128 ==> (r <==> is_ascii_letter(c)),
{
    c.is_alphabetic()
}

/// Wrapper for `char::is_alphanumeric`.  Claims that the result is the
/// named property, and that among ASCII characters exactly the letters and
/// digits have it.
#[verifier::external_body]
pub fn char_is_alphanumeric(c: char) -> (r: bool)
    ensures
        r == unicode_alphanumeric(c),
        is_ascii_letter(c) || is_ascii_digit(c) ==> r,
        (c as u32) < 128 ==> (r <==> (is_ascii_letter(c) || is_ascii_digit(c))),
{
    c.is_alphanumeric()
}

/// Whether `c` has the `White_Space` property (what `char::is_whitespace`
/// answers).
pub fn char_is_whitespace(c: char) -> (r: bool)
    ensures
        r == unicode_whitespace(c),
        c == ' ' || c == '\t' || c == '\n' || c == '\r' ==> r,
        is_ascii_letter(c) || is_ascii_digit(c) ==> !r,
        (c as u32) < 128 ==> (r <==> (c == ' ' || ('\t' <= c && c <= '\r'))),
{
    ('\t' <= c && c <= '\r') || c == ' ' || c == '\u{85}' || c == '\u{a0}' || c == '\u{1680}'
        || ('\u{2000}' <= c && c <= '\u{200a}') || c == '\u{2028}' || c == '\u{2029}'
        || c == '\u{202f}' || c == '\u{205f}' || c == '\u{3000}'
}

/// Wrapper for `str::to_lowercase`.  Claims that the result is the named
/// lowercase mapping of the input; for ASCII input that mapping lowers
/// `A`..`Z` one for one and leaves every other character unchanged.
#[verifier::external_body]
pub fn to_lowercase(s: &str) -> (r: String)
    ensures
        r@ == lowercase_of(s@),
        all_ascii(s@) ==> r@ == s@.map_values(|c: char| ascii_lower(c)),
{
    s.to_lowercase()
}

/// Wrapper for `String::push`.
#[verifier::external_body]
pub fn push_char(out: &mut String, c: char)
    ensures
        final(out)@ == old(out)@.push(c),
{
    out.push(c)
}

/// Appends `s` to `out`.
pub fn push_str(out: &mut String, s: &str)
    ensures
        final(out)@ == old(out)@ + s@,
{
    out.append(s)
}

/// Wrapper for collecting characters into a `String` (`FromIterator<char>`).
#[verifier::external_body]
pub fn string_from_chars(v: &[char]) -> (r: String)
    ensures
        r@ == v@,
{
    v.iter().collect()
}

/// An owned copy of `s`.
pub fn to_owned_string(s: &str) -> (r: String)
    ensures
        r@ == s@,
{
    s.to_owned()
}

/// Whether two character sequences are equal.
pub fn chars_eq(a: &[char], b: &[char]) -> (r: bool)
    ensures
        r == (a@ == b@),
{
    if a.len() != b.len() {
        return false;
    }
    let mut i: usize = 0;
    while i < a.len()
        invariant
            a.len() == b.len(),
            i <= a.len(),
            forall|k: int| 0 <= k < i ==> a@[k] == b@[k],
        decreases a.len() - i,
    {
        if a[i] != b[i] {
            return false;
        }
        i = i + 1;
    }
    assert(a@ =~= b@);
    true
}

/// Whether two string slices hold the same characters.
pub fn str_eq(a: &str, b: &str) -> (r: bool)
    ensures
        r == (a@ == b@),
{
    let av = chars_of(a);
    let bv = chars_of(b);
    chars_eq(av.as_slice(), bv.as_slice())
}

/// Whether `p` occurs in `s` at position `i`.
pub fn chars_occur_at(s: &[char], p: &[char], i: usize) -> (r: bool)
    ensures
        r == occurs_at(s@, p@, i as int),
{
    if i > s.len() || p.len() > s.len() - i {
        return false;
    }
    let mut k: usize = 0;
    while k < p.len()
        invariant
            i + p.len() <= s.len(),
            k <= p.len(),
            forall|j: int| 0 <= j < k ==> s@[i + j] == p@[j],
        decreases p.len() - k,
    {
        if s[i + k] != p[k] {
            assert(s@.subrange(i as int, i + p.len())[k as int] != p@[k as int]);
            return false;
        }
        k = k + 1;
    }
    assert(s@.subrange(i as int, i + p.len()) =~= p@);
    true
}

/// Whether `p` occurs anywhere in `s`.
pub fn chars_contains(s: &[char], p: &[char]) -> (r: bool)
    ensures
        r == contains_seq(s@, p@),
{
    if p.len() > s.len() {
        assert forall|i: int| !occurs_at(s@, p@, i) by {}
        return false;
    }
    let last = s.len() - p.len();
    let mut i: usize = 0;
    while i <= last
        invariant
            last == s.len() - p.len(),
            i <= last + 1,
            forall|j: int| 0 <= j < i ==> !occurs_at(s@, p@, j),
        decreases last + 1 - i,
    {
        if chars_occur_at(s, p, i) {
            return true;
        }
        if i == last {
            assert forall|j: int| !occurs_at(s@, p@, j) by {
                if 0 <= j <= i {
                }
            }
            return false;
        }
        i = i + 1;
    }
    assert forall|j: int| !occurs_at(s@, p@, j) by {
        if 0 <= j < i {
        }
    }
    false
}

/// Whether `p` occurs in `s`.
pub fn str_contains(s: &str, p: &str) -> (r: bool)
    ensures
        r == contains_seq(s@, p@),
{
    let sv = chars_of(s);
    let pv = chars_of(p);
    chars_contains(sv.as_slice(), pv.as_slice())
}

/// Whether `s` begins with `p`.
pub fn chars_starts_with(s: &[char], p: &[char]) -> (r: bool)
    ensures
        r == starts_with_seq(s@, p@),
{
    chars_occur_at(s, p, 0)
}

/// Whether `s` ends with `p`.
pub fn chars_ends_with(s: &[char], p: &[char]) -> (r: bool)
    ensures
        r == ends_with_seq(s@, p@),
{
    if p.len() > s.len() {
        return false;
    }
    chars_occur_at(s, p, s.len() - p.len())
}

/// The maximal runs of non-whitespace characters of `s` from index `i` on,
/// where `cur` is the run collected so far.
pub open spec fn ws_tokens_from(s: Seq<char>, i: int, cur: Seq<char>) -> Seq<Seq<char>>
    decreases s.len() - i,
{
    if i >= s.len() {
        if cur.len() > 0 {
            seq![cur]
        } else {
            seq![]
        }
    } else if unicode_whitespace(s[i]) {
        (if cur.len() > 0 {
            seq![cur]
        } else {
            seq![]
        }) + ws_tokens_from(s, i + 1, seq![])
    } else {
        ws_tokens_from(s, i + 1, cur.push(s[i]))
    }
}

/// What `str::split_whitespace` yields: the maximal non-whitespace runs.
pub open spec fn ws_tokens(s: Seq<char>) -> Seq<Seq<char>> {
    ws_tokens_from(s, 0, seq![])
}

/// The non-whitespace runs of `s`, in order.
pub fn split_whitespace_chars(s: &[char]) -> (r: Vec<Vec<char>>)
    ensures
        r@.map_values(|t: Vec<char>| t@) == ws_tokens(s@),
{
    let mut acc: Vec<Vec<char>> = Vec::new();
    let mut cur: Vec<char> = Vec::new();
    let mut i: usize = 0;
    while i < s.len()
        invariant
            i <= s.len(),
            acc@.map_values(|t: Vec<char>| t@) + ws_tokens_from(s@, i as int, cur@) == ws_tokens(
                s@,
            ),
        decreases s.len() - i,
    {
        let ghost old_acc = acc@.map_values(|t: Vec<char>| t@);
        let c = s[i];
        if char_is_whitespace(c) {
            if cur.len() > 0 {
                let ghost cv = cur@;
                let done = cur;
                acc.push(done);
                cur = Vec::new();
                assert(acc@.map_values(|t: Vec<char>| t@) =~= old_acc.push(cv));
                assert(old_acc + (seq![cv] + ws_tokens_from(s@, i + 1, seq![])) =~= old_acc.push(
                    cv,
                ) + ws_tokens_from(s@, i + 1, seq![]));
            } else {
                assert(cur@ =~= seq![]);
                assert(seq![] + ws_tokens_from(s@, i + 1, seq![]) =~= ws_tokens_from(
                    s@,
                    i + 1,
                    seq![],
                ));
            }
        } else {
            cur.push(c);
        }
        i = i + 1;
    }
    if cur.len() > 0 {
        let ghost old_acc = acc@.map_values(|t: Vec<char>| t@);
        let ghost cv = cur@;
        acc.push(cur);
        assert(acc@.map_values(|t: Vec<char>| t@) =~= old_acc.push(cv));
    } else {
        assert(acc@.map_values(|t: Vec<char>| t@) + seq![] =~= acc@.map_values(
            |t: Vec<char>| t@,
        ));
    }
    acc
}

/// The lines of `s` from index `i` on, where `cur` is the line collected so
/// far: split at `\n`, a `\r` right before the `\n` dropped, and no final
/// empty line after a trailing `\n`.
pub open spec fn lines_from(s: Seq<char>, i: int, cur: Seq<char>) -> Seq<Seq<char>>
    decreases s.len() - i,
{
    if i >= s.len() {
        if cur.len() > 0 {
            seq![cur]
        } else {
            seq![]
        }
    } else if s[i] == '\n' {
        seq![strip_trailing_cr(cur)] + lines_from(s, i + 1, seq![])
    } else {
        lines_from(s, i + 1, cur.push(s[i]))
    }
}

pub open spec fn strip_trailing_cr(line: Seq<char>) -> Seq<char> {
    if line.len() > 0 && line.last() == '\r' {
        line.drop_last()
    } else {
        line
    }
}

/// What `str::lines` yields.
pub open spec fn text_lines(s: Seq<char>) -> Seq<Seq<char>> {
    lines_from(s, 0, seq![])
}

/// A text has no more lines than characters.
pub proof fn lemma_lines_from_len(s: Seq<char>, i: int, cur: Seq<char>)
    requires
        0 <= i <= s.len(),
    ensures
        lines_from(s, i, cur).len() <= s.len() - i + (if cur.len() > 0 { 1int } else { 0int }),
    decreases s.len() - i,
{
    if i < s.len() {
        if s[i] == '\n' {
            lemma_lines_from_len(s, i + 1, seq![]);
        } else {
            lemma_lines_from_len(s, i + 1, cur.push(s[i]));
        }
    }
}

/// The lines of `s`, as `str::lines` splits them.
pub fn lines_chars(s: &[char]) -> (r: Vec<Vec<char>>)
    ensures
        r@.map_values(|t: Vec<char>| t@) == text_lines(s@),
{
    let mut acc: Vec<Vec<char>> = Vec::new();
    let mut cur: Vec<char> = Vec::new();
    let mut i: usize = 0;
    while i < s.len()
        invariant
            i <= s.len(),
            acc@.map_values(|t: Vec<char>| t@) + lines_from(s@, i as int, cur@) == text_lines(
                s@,
            ),
        decreases s.len() - i,
    {
        let ghost old_acc = acc@.map_values(|t: Vec<char>| t@);
        let c = s[i];
        if c == '\n' {
            let ghost cv = cur@;
            let mut done = cur;
            let n = done.len();
            if n > 0 && done[n - 1] == '\r' {
                done.pop();
            }
            assert(done@ == strip_trailing_cr(cv));
            let ghost dv = done@;
            acc.push(done);
            cur = Vec::new();
            assert(acc@.map_values(|t: Vec<char>| t@) =~= old_acc.push(dv));
            assert(old_acc + (seq![dv] + lines_from(s@, i + 1, seq![])) =~= old_acc.push(dv)
                + lines_from(s@, i + 1, seq![]));
        } else {
            cur.push(c);
        }
        i = i + 1;
    }
    if cur.len() > 0 {
        let ghost old_acc = acc@.map_values(|t: Vec<char>| t@);
        let ghost cv = cur@;
        acc.push(cur);
        assert(acc@.map_values(|t: Vec<char>| t@) =~= old_acc.push(cv));
    } else {
        assert(acc@.map_values(|t: Vec<char>| t@) + seq![] =~= acc@.map_values(
            |t: Vec<char>| t@,
        ));
    }
    acc
}

/// `parts` joined with `sep` between neighbours.
pub open spec fn join_seqs(parts: Seq<Seq<char>>, sep: Seq<char>) -> Seq<char>
    decreases parts.len(),
{
    if parts.len() == 0 {
        seq![]
    } else if parts.len() == 1 {
        parts[0]
    } else {
        join_seqs(parts.drop_last(), sep) + sep + parts.last()
    }
}

/// Joins character vectors with a separator.
pub fn join_chars(parts: &[Vec<char>], sep: &[char]) -> (r: Vec<char>)
    ensures
        r@ == join_seqs(parts@.map_values(|t: Vec<char>| t@), sep@),
{
    let ghost all = parts@.map_values(|t: Vec<char>| t@);
    let mut out: Vec<char> = Vec::new();
    let mut i: usize = 0;
    while i < parts.len()
        invariant
            i <= parts.len(),
            all == parts@.map_values(|t: Vec<char>| t@),
            out@ == join_seqs(all.take(i as int), sep@),
        decreases parts.len() - i,
    {
        if i > 0 {
            let mut k: usize = 0;
            let ghost base = out@;
            while k < sep.len()
                invariant
                    k <= sep.len(),
                    out@ == base + sep@.take(k as int),
                decreases sep.len() - k,
            {
                out.push(sep[k]);
                k = k + 1;
                assert(out@ =~= base + sep@.take(k as int));
            }
        }
        let ghost base2 = out@;
        let part = &parts[i];
        let mut k: usize = 0;
        while k < part.len()
            invariant
                k <= part.len(),
                out@ == base2 + part@.take(k as int),
            decreases part.len() - k,
        {
            out.push(part[k]);
            k = k + 1;
            assert(out@ =~= base2 + part@.take(k as int));
        }
        assert(all.take(i + 1).drop_last() =~= all.take(i as int));
        assert(part@.take(part.len() as int) =~= part@);
        assert(sep@.take(sep.len() as int) =~= sep@);
        if i == 0 {
            assert(out@ =~= join_seqs(all.take(1), sep@));
        }
        i = i + 1;
    }
    assert(all.take(parts.len() as int) =~= all);
    out
}

/// The decimal digit character for `d < 10`.
pub open spec fn digit_char(d: nat) -> char {
    ((d + 48) as u8) as char
}

/// The decimal notation of `n`, without leading zeros.
pub open spec fn decimal(n: nat) -> Seq<char>
    decreases n,
{
    if n < 10 {
        seq![digit_char(n)]
    } else {
        decimal(n / 10).push(digit_char(n % 10))
    }
}

/// Appends the decimal notation of `n`.
pub fn push_decimal(out: &mut String, n: u64)
    ensures
        final(out)@ == old(out)@ + decimal(n as nat),
    decreases n,
{
    if n >= 10 {
        push_decimal(out, n / 10);
    }
    let d = (n % 10) as u8;
    let c = (d + 48u8) as char;
    push_char(out, c);
    assert(old(out)@ + decimal(n as nat) =~= final(out)@);
}

/// The decimal notation of `n` as a string.
pub fn decimal_string(n: u64) -> (r: String)
    ensures
        r@ == decimal(n as nat),
{
    let mut out = String::new();
    push_decimal(&mut out, n);
    assert(out@ =~= decimal(n as nat));
    out
}

/// Number of non-overlapping occurrences of a non-empty `p` in `s`, found
/// scanning left to right from `i`.
pub open spec fn match_count_from(s: Seq<char>, p: Seq<char>, i: int) -> nat
    recommends
        p.len() > 0,
    decreases s.len() - i,
    when p.len() > 0
{
    if i < 0 || i + p.len() > s.len() {
        0
    } else if occurs_at(s, p, i) {
        1 + match_count_from(s, p, i + p.len())
    } else {
        match_count_from(s, p, i + 1)
    }
}

/// What `str::matches(p).count()` gives: the non-overlapping occurrences
/// of `p`; the empty pattern matches at each of the `len + 1` boundaries.
pub open spec fn match_count(s: Seq<char>, p: Seq<char>) -> nat {
    if p.len() == 0 {
        s.len() + 1
    } else {
        match_count_from(s, p, 0)
    }
}

/// What `str::replace(p, r)` gives from position `i` on: each
/// non-overlapping occurrence of `p` (scanning left to right) replaced.
pub open spec fn replace_all_from(s: Seq<char>, p: Seq<char>, r: Seq<char>, i: int) -> Seq<char>
    decreases s.len() - i, 1int,
{
    if i < 0 || i > s.len() {
        seq![]
    } else if p.len() == 0 {
        if i == s.len() {
            r
        } else {
            r + seq![s[i]] + replace_all_from(s, p, r, i + 1)
        }
    } else if i + p.len() > s.len() {
        s.subrange(i, s.len() as int)
    } else if occurs_at(s, p, i) {
        r + replace_all_from(s, p, r, i + p.len())
    } else {
        seq![s[i]] + replace_all_from(s, p, r, i + 1)
    }
}

pub open spec fn replace_all(s: Seq<char>, p: Seq<char>, r: Seq<char>) -> Seq<char> {
    replace_all_from(s, p, r, 0)
}

/// The smallest index where `p` occurs in `s` (meaningful when it occurs).
pub open spec fn first_occurrence(s: Seq<char>, p: Seq<char>) -> int {
    choose|i: int| occurs_at(s, p, i) && forall|j: int| 0 <= j < i ==> !occurs_at(s, p, j)
}

/// What `str::replacen(p, r, 1)` gives when `p` occurs: the first
/// occurrence replaced.
pub open spec fn replace_first(s: Seq<char>, p: Seq<char>, r: Seq<char>) -> Seq<char> {
    let i = first_occurrence(s, p);
    s.subrange(0, i) + r + s.subrange(i + p.len(), s.len() as int)
}

/// Counts the non-overlapping occurrences of `p` in `s`.
pub fn count_matches(s: &[char], p: &[char]) -> (r: usize)
    requires
        s@.len() < usize::MAX,
    ensures
        r == match_count(s@, p@),
{
    if p.len() == 0 {
        return s.len() + 1;
    }
    let mut count: usize = 0;
    let mut i: usize = 0;
    while p.len() <= s.len() - i
        invariant
            p@.len() > 0,
            i <= s.len(),
            count <= i,
            count + match_count_from(s@, p@, i as int) == match_count_from(s@, p@, 0),
        decreases s.len() - i,
    {
        if chars_occur_at(s, p, i) {
            count = count + 1;
            i = i + p.len();
        } else {
            i = i + 1;
        }
    }
    count
}

/// Replaces every non-overlapping occurrence of `p` in `s` by `r`.
pub fn replace_all_chars(s: &[char], p: &[char], r: &[char]) -> (out: Vec<char>)
    ensures
        out@ == replace_all(s@, p@, r@),
{
    let mut out: Vec<char> = Vec::new();
    let mut i: usize = 0;
    while i <= s.len()
        invariant
            i <= s.len() + 1,
            i <= s.len() ==> out@ + replace_all_from(s@, p@, r@, i as int) == replace_all(
                s@,
                p@,
                r@,
            ),
            i > s.len() ==> out@ == replace_all(s@, p@, r@),
        decreases s.len() + 1 - i,
    {
        let ghost before = out@;
        if p.len() == 0 {
            append_chars(&mut out, r);
            if i == s.len() {
                assert(out@ == replace_all(s@, p@, r@));
                return out;
            }
            out.push(s[i]);
            assert(out@ =~= before + (r@ + seq![s@[i as int]]));
            assert(before + (r@ + seq![s@[i as int]] + replace_all_from(s@, p@, r@, i + 1))
                =~= out@ + replace_all_from(s@, p@, r@, i + 1));
            i = i + 1;
        } else if s.len() - i < p.len() {
            let mut k: usize = i;
            while k < s.len()
                invariant
                    i <= k <= s.len(),
                    out@ == before + s@.subrange(i as int, k as int),
                decreases s.len() - k,
            {
                out.push(s[k]);
                k = k + 1;
                assert(out@ =~= before + s@.subrange(i as int, k as int));
            }
            return out;
        } else if chars_occur_at(s, p, i) {
            append_chars(&mut out, r);
            assert(before + (r@ + replace_all_from(s@, p@, r@, i + p.len())) =~= out@
                + replace_all_from(s@, p@, r@, i + p.len()));
            i = i + p.len();
        } else {
            out.push(s[i]);
            assert(before + (seq![s@[i as int]] + replace_all_from(s@, p@, r@, i + 1)) =~= out@
                + replace_all_from(s@, p@, r@, i + 1));
            i = i + 1;
        }
    }
    out
}

/// Appends the characters of `r` to `out`.
pub fn append_chars(out: &mut Vec<char>, r: &[char])
    ensures
        final(out)@ == old(out)@ + r@,
{
    let mut k: usize = 0;
    while k < r.len()
        invariant
            k <= r.len(),
            out@ == old(out)@ + r@.take(k as int),
        decreases r.len() - k,
    {
        out.push(r[k]);
        k = k + 1;
        assert(out@ =~= old(out)@ + r@.take(k as int));
    }
    assert(r@.take(r.len() as int) =~= r@);
}

/// The index of the first occurrence of `p` in `s`, if any.
pub fn find_first(s: &[char], p: &[char]) -> (r: Option<usize>)
    ensures
        r matches Some(i) ==> i == first_occurrence(s@, p@) && occurs_at(s@, p@, i as int),
        r is None ==> !contains_seq(s@, p@),
{
    if p.len() > s.len() {
        assert forall|i: int| !occurs_at(s@, p@, i) by {}
        return None;
    }
    let last = s.len() - p.len();
    let mut i: usize = 0;
    while i <= last
        invariant
            last == s.len() - p.len(),
            i <= last + 1,
            forall|j: int| 0 <= j < i ==> !occurs_at(s@, p@, j),
        decreases last + 1 - i,
    {
        if chars_occur_at(s, p, i) {
            assert(occurs_at(s@, p@, i as int) && forall|j: int|
                0 <= j < i ==> !occurs_at(s@, p@, j));
            return Some(i);
        }
        if i == last {
            assert forall|j: int| !occurs_at(s@, p@, j) by {
                if 0 <= j <= i {
                }
            }
            return None;
        }
        i = i + 1;
    }
    assert forall|j: int| !occurs_at(s@, p@, j) by {
        if 0 <= j < i {
        }
    }
    None
}

/// The value of a run of decimal digits.
pub open spec fn digits_value(s: Seq<char>) -> nat
    decreases s.len(),
{
    if s.len() == 0 {
        0
    } else {
        digits_value(s.drop_last()) * 10 + ((s.last() as nat) - 48) as nat
    }
}

/// Every character of `s` is an ASCII digit.
pub open spec fn all_digits(s: Seq<char>) -> bool {
    forall|i: int| 0 <= i < s.len() ==> is_ascii_digit(#[trigger] s[i])
}

/// The digits part of a number as integer parsing reads it: one leading
/// `+` is allowed.
pub open spec fn unsigned_body(s: Seq<char>) -> Seq<char> {
    if s.len() > 0 && s[0] == '+' {
        s.drop_first()
    } else {
        s
    }
}

/// What parsing `s` as an unsigned integer no larger than `max` gives:
/// an optional `+`, then at least one ASCII digit and nothing else.
pub open spec fn parsed_unsigned(s: Seq<char>, max: nat) -> Option<nat> {
    let body = unsigned_body(s);
    if body.len() > 0 && all_digits(body) && digits_value(body) <= max {
        Some(digits_value(body))
    } else {
        None
    }
}

proof fn lemma_digits_value_grows(s: Seq<char>, i: int, j: int)
    requires
        0 <= i <= j <= s.len(),
        all_digits(s),
    ensures
        digits_value(s.take(i)) <= digits_value(s.take(j)),
    decreases j - i,
{
    if i < j {
        lemma_digits_value_grows(s, i, j - 1);
        assert(s.take(j).drop_last() =~= s.take(j - 1));
        assert(is_ascii_digit(s[j - 1]));
    }
}

/// Parses `s` as a `u64` the way `str::parse::<u64>` does.
pub fn parse_u64(s: &str) -> (r: Option<u64>)
    ensures
        r matches Some(v) ==> parsed_unsigned(s@, u64::MAX as nat) == Some(v as nat),
        r is None ==> parsed_unsigned(s@, u64::MAX as nat) is None,
{
    let chars = chars_of(s);
    let mut start: usize = 0;
    if chars.len() > 0 && chars[0] == '+' {
        start = 1;
    }
    let ghost body = unsigned_body(s@);
    assert(body =~= chars@.subrange(start as int, chars@.len() as int));
    if start >= chars.len() {
        return None;
    }
    let mut acc: u64 = 0;
    let mut i: usize = start;
    while i < chars.len()
        invariant
            start <= i <= chars.len(),
            chars@ == s@,
            body == unsigned_body(s@),
            body == chars@.subrange(start as int, chars@.len() as int),
            forall|k: int| 0 <= k < i - start ==> is_ascii_digit(#[trigger] body[k]),
            acc as nat == digits_value(body.take(i - start)),
        decreases chars.len() - i,
    {
        let c = chars[i];
        if !('0' <= c && c <= '9') {
            assert(!is_ascii_digit(body[i - start]));
            assert(!all_digits(body));
            return None;
        }
        let d = (c as u32 - 48) as u64;
        assert(body.take(i - start + 1).drop_last() =~= body.take(i - start));
        let next = match acc.checked_mul(10) {
            Some(m) => m.checked_add(d),
            None => None,
        };
        match next {
            Some(v) => {
                acc = v;
                i = i + 1;
            },
            None => {
                proof {
                    assert(digits_value(body.take(i - start + 1)) > u64::MAX);
                    if all_digits(body) {
                        lemma_digits_value_grows(body, i - start + 1, body.len() as int);
                        assert(body.take(body.len() as int) =~= body);
                        assert(digits_value(body) > u64::MAX);
                    }
                    assert(parsed_unsigned(s@, u64::MAX as nat) is None);
                }
                return None;
            },
        }
    }
    assert(body.take(i - start) =~= body);
    Some(acc)
}

/// Parses `s` as a `usize` the way `str::parse::<usize>` does.
pub fn parse_usize(s: &str) -> (r: Option<usize>)
    ensures
        r matches Some(v) ==> parsed_unsigned(s@, usize::MAX as nat) == Some(v as nat),
        r is None ==> parsed_unsigned(s@, usize::MAX as nat) is None,
{
    match parse_u64(s) {
        Some(v) => {
            if v as u128 <= usize::MAX as u128 {
                Some(v as usize)
            } else {
                None
            }
        },
        None => {
            assert(usize::MAX <= u64::MAX);
            None
        },
    }
}

/// What parsing `s` as a `bool` gives: exactly `true` or `false`.
pub open spec fn parsed_bool(s: Seq<char>) -> Option<bool> {
    if s == "true"@ {
        Some(true)
    } else if s == "false"@ {
        Some(false)
    } else {
        None
    }
}

/// Parses `s` as a `bool` the way `str::parse::<bool>` does.
pub fn parse_bool(s: &str) -> (r: Option<bool>)
    ensures
        r == parsed_bool(s@),
{
    if str_eq(s, "true") {
        Some(true)
    } else if str_eq(s, "false") {
        Some(false)
    } else {
        None
    }
}

/// A copy of a run of characters.
pub fn copy_chars(v: &[char]) -> (r: Vec<char>)
    ensures
        r@ == v@,
{
    let mut out: Vec<char> = Vec::new();
    let mut i: usize = 0;
    while i < v.len()
        invariant
            i <= v.len(),
            out@ == v@.take(i as int),
        decreases v.len() - i,
    {
        out.push(v[i]);
        i = i + 1;
        assert(out@ =~= v@.take(i as int));
    }
    assert(v@.take(v.len() as int) =~= v@);
    out
}

/// How many characters from index `i` on are whitespace before the first
/// that is not.
pub open spec fn leading_ws(s: Seq<char>, i: int) -> int
    decreases s.len() - i,
{
    if i >= s.len() || !unicode_whitespace(s[i]) {
        0
    } else {
        1 + leading_ws(s, i + 1)
    }
}

/// How many characters before index `j` are whitespace after the last that
/// is not.
pub open spec fn trailing_ws(s: Seq<char>, j: int) -> int
    decreases j,
{
    if j <= 0 || !unicode_whitespace(s[j - 1]) {
        0
    } else {
        1 + trailing_ws(s, j - 1)
    }
}

pub proof fn lemma_leading_ws_bound(s: Seq<char>, i: int)
    requires
        0 <= i <= s.len(),
    ensures
        0 <= leading_ws(s, i) <= s.len() - i,
    decreases s.len() - i,
{
    if i < s.len() && unicode_whitespace(s[i]) {
        lemma_leading_ws_bound(s, i + 1);
    }
}

pub proof fn lemma_trailing_ws_bound(s: Seq<char>, j: int)
    requires
        0 <= j <= s.len(),
    ensures
        0 <= trailing_ws(s, j) <= j,
    decreases j,
{
    if j > 0 && unicode_whitespace(s[j - 1]) {
        lemma_trailing_ws_bound(s, j - 1);
    }
}

/// What `str::trim` gives: the text without leading and trailing
/// whitespace.
pub open spec fn trimmed(s: Seq<char>) -> Seq<char> {
    let a = leading_ws(s, 0);
    if a == s.len() {
        Seq::empty()
    } else {
        s.subrange(a, s.len() - trailing_ws(s, s.len() as int))
    }
}

/// The text without leading and trailing whitespace.
pub fn trim_text(s: &str) -> (r: String)
    ensures
        r@ == trimmed(s@),
{
    let c = chars_of(s);
    let n = c.len();
    let mut a: usize = 0;
    proof {
        lemma_leading_ws_bound(c@, 0);
    }
    while a < n && char_is_whitespace(c[a])
        invariant
            a <= n,
            n == c@.len(),
            c@ == s@,
            leading_ws(c@, 0) == a + leading_ws(c@, a as int),
        decreases n - a,
    {
        a = a + 1;
    }
    if a == n {
        let empty: Vec<char> = Vec::new();
        return string_from_chars(&empty);
    }
    let mut b: usize = n;
    while b > a && char_is_whitespace(c[b - 1])
        invariant
            a < n,
            a < b,
            b <= n,
            n == c@.len(),
            !unicode_whitespace(c@[a as int]),
            trailing_ws(c@, n as int) == (n - b) + trailing_ws(c@, b as int),
        decreases b,
    {
        b = b - 1;
    }
    assert(trailing_ws(c@, b as int) == 0);
    assert(leading_ws(c@, a as int) == 0);
    let mut out: Vec<char> = Vec::new();
    let mut k: usize = a;
    while k < b
        invariant
            a <= k <= b <= n,
            n == c@.len(),
            out@ == c@.subrange(a as int, k as int),
        decreases b - k,
    {
        out.push(c[k]);
        k = k + 1;
        assert(out@ =~= c@.subrange(a as int, k as int));
    }
    string_from_chars(&out)
}

/// What `str::trim_start` gives.
pub open spec fn trim_start(s: Seq<char>) -> Seq<char> {
    s.subrange(leading_ws(s, 0), s.len() as int)
}

/// What `str::trim_end` gives.
pub open spec fn trim_end(s: Seq<char>) -> Seq<char> {
    s.subrange(0, s.len() - trailing_ws(s, s.len() as int))
}

/// The characters without their leading whitespace.
pub fn trim_start_chars(c: &[char]) -> (r: Vec<char>)
    ensures
        r@ == trim_start(c@),
        r@.len() + leading_ws(c@, 0) == c@.len(),
{
    let n = c.len();
    let mut a: usize = 0;
    proof {
        lemma_leading_ws_bound(c@, 0);
    }
    while a < n && char_is_whitespace(c[a])
        invariant
            a <= n,
            n == c@.len(),
            leading_ws(c@, 0) == a + leading_ws(c@, a as int),
        decreases n - a,
    {
        a = a + 1;
    }
    let mut out: Vec<char> = Vec::new();
    let mut k: usize = a;
    while k < n
        invariant
            a <= k <= n,
            n == c@.len(),
            out@ == c@.subrange(a as int, k as int),
        decreases n - k,
    {
        out.push(c[k]);
        k = k + 1;
        assert(out@ =~= c@.subrange(a as int, k as int));
    }
    out
}

/// The characters without their trailing whitespace.
pub fn trim_end_chars(c: &[char]) -> (r: Vec<char>)
    ensures
        r@ == trim_end(c@),
{
    let n = c.len();
    let mut b: usize = n;
    proof {
        lemma_trailing_ws_bound(c@, n as int);
    }
    while b > 0 && char_is_whitespace(c[b - 1])
        invariant
            b <= n,
            n == c@.len(),
            trailing_ws(c@, n as int) == (n - b) + trailing_ws(c@, b as int),
        decreases b,
    {
        b = b - 1;
    }
    let mut out: Vec<char> = Vec::new();
    let mut k: usize = 0;
    while k < b
        invariant
            k <= b <= n,
            n == c@.len(),
            out@ == c@.subrange(0, k as int),
        decreases b - k,
    {
        out.push(c[k]);
        k = k + 1;
        assert(out@ =~= c@.subrange(0, k as int));
    }
    out
}

/// The characters without leading and trailing whitespace.
pub fn trimmed_chars(c: &[char]) -> (r: Vec<char>)
    ensures
        r@ == trimmed(c@),
{
    let s = string_from_chars(c);
    let t = trim_text(s.as_str());
    chars_of(t.as_str())
}

/// The first index at or after `i` where `p` occurs in `s`, or -1.
pub open spec fn find_from(s: Seq<char>, p: Seq<char>, i: int) -> int
    decreases s.len() + 1 - i,
{
    if i < 0 || i + p.len() > s.len() {
        -1
    } else if occurs_at(s, p, i) {
        i
    } else {
        find_from(s, p, i + 1)
    }
}

pub proof fn lemma_find_from(s: Seq<char>, p: Seq<char>, i: int)
    requires
        0 <= i,
    ensures
        find_from(s, p, i) == -1 || (i <= find_from(s, p, i) && find_from(s, p, i) + p.len() <= s.len()
            && occurs_at(s, p, find_from(s, p, i))),
        find_from(s, p, i) == -1 ==> forall|k: int| i <= k ==> !occurs_at(s, p, k),
        find_from(s, p, i) >= 0 ==> forall|k: int| i <= k < find_from(s, p, i) ==> !occurs_at(s, p, k),
    decreases s.len() + 1 - i,
{
    if i + p.len() <= s.len() && !occurs_at(s, p, i) {
        lemma_find_from(s, p, i + 1);
    }
}

/// The first index at or after `from` where `p` occurs in `s`.
pub fn find_from_chars(s: &[char], p: &[char], from: usize) -> (r: Option<usize>)
    ensures
        match r {
            Some(i) => i == find_from(s@, p@, from as int) && i >= 0,
            None => find_from(s@, p@, from as int) == -1,
        },
{
    proof {
        lemma_find_from(s@, p@, from as int);
    }
    if p.len() > s.len() || from > s.len() - p.len() {
        return None;
    }
    let last = s.len() - p.len();
    let mut i: usize = from;
    while i <= last
        invariant
            last == s.len() - p.len(),
            from <= i <= last + 1,
            find_from(s@, p@, from as int) == find_from(s@, p@, i as int),
        decreases last + 1 - i,
    {
        if chars_occur_at(s, p, i) {
            return Some(i);
        }
        if i == last {
            assert(find_from(s@, p@, i + 1) == -1);
            return None;
        }
        i = i + 1;
    }
    None
}

/// How many times `c` occurs in `s`.
pub open spec fn char_count(s: Seq<char>, c: char) -> nat
    decreases s.len(),
{
    if s.len() == 0 {
        0
    } else {
        char_count(s.drop_last(), c) + (if s.last() == c { 1nat } else { 0nat })
    }
}

/// Counts the occurrences of `c` in `s`.
pub fn count_char(s: &[char], c: char) -> (r: usize)
    ensures
        r == char_count(s@, c),
{
    let mut n: usize = 0;
    let mut i: usize = 0;
    while i < s.len()
        invariant
            i <= s.len(),
            n <= i,
            n == char_count(s@.take(i as int), c),
        decreases s.len() - i,
    {
        assert(s@.take(i + 1).drop_last() =~= s@.take(i as int));
        if s[i] == c {
            n = n + 1;
        }
        i = i + 1;
    }
    assert(s@.take(s.len() as int) =~= s@);
    n
}

/// The text with the first occurrence of `p` replaced by `r`, as
/// `str::replacen(p, r, 1)` gives it; unchanged when `p` does not occur.
pub open spec fn replace_once(s: Seq<char>, p: Seq<char>, r: Seq<char>) -> Seq<char> {
    let i = find_from(s, p, 0);
    if i < 0 {
        s
    } else {
        s.subrange(0, i) + r + s.subrange(i + p.len(), s.len() as int)
    }
}

/// Replaces the first occurrence of `p` in `s` by `r`.
pub fn replace_once_chars(s: &[char], p: &[char], r: &[char]) -> (out: Vec<char>)
    ensures
        out@ == replace_once(s@, p@, r@),
{
    proof {
        lemma_find_from(s@, p@, 0);
    }
    match find_from_chars(s, p, 0) {
        None => copy_chars(s),
        Some(i) => {
            assert(i + p@.len() <= s@.len());
            let mut out: Vec<char> = Vec::new();
            let mut k: usize = 0;
            while k < i
                invariant
                    k <= i,
                    i + p@.len() <= s@.len(),
                    out@ == s@.subrange(0, k as int),
                decreases i - k,
            {
                out.push(s[k]);
                k = k + 1;
                assert(out@ =~= s@.subrange(0, k as int));
            }
            append_chars(&mut out, r);
            let n = s.len();
            assert(i + p@.len() <= n);
            let mut k: usize = i + p.len();
            let ghost base = out@;
            while k < s.len()
                invariant
                    i + p@.len() <= k <= s@.len(),
                    out@ == base + s@.subrange(i + p@.len(), k as int),
                decreases s.len() - k,
            {
                out.push(s[k]);
                k = k + 1;
                assert(out@ =~= base + s@.subrange(i + p@.len(), k as int));
            }
            out
        },
    }
}

/// When a newline ends at index `k`, the lines from `k` on are the last
/// lines of the text scanned from any earlier index.
pub proof fn lemma_lines_suffix(s: Seq<char>, i: int, cur: Seq<char>, k: int)
    requires
        0 <= i < k <= s.len(),
        s[k - 1] == '\n',
    ensures
        lines_from(s, i, cur).len() >= lines_from(s, k, seq![]).len(),
        lines_from(s, i, cur).subrange(
            lines_from(s, i, cur).len() - lines_from(s, k, seq![]).len(),
            lines_from(s, i, cur).len() as int,
        ) == lines_from(s, k, seq![]),
    decreases k - i,
{
    let b = lines_from(s, k, seq![]);
    if i == k - 1 {
        assert(lines_from(s, i, cur) == seq![strip_trailing_cr(cur)] + b);
        assert((seq![strip_trailing_cr(cur)] + b).subrange(1, b.len() + 1int) =~= b);
    } else if s[i] == '\n' {
        lemma_lines_suffix(s, i + 1, seq![], k);
        let a1 = lines_from(s, i + 1, seq![]);
        let a = seq![strip_trailing_cr(cur)] + a1;
        assert(lines_from(s, i, cur) == a);
        assert(a.subrange(a.len() - b.len(), a.len() as int) =~= a1.subrange(
            a1.len() - b.len(),
            a1.len() as int,
        ));
    } else {
        lemma_lines_suffix(s, i + 1, cur.push(s[i]), k);
    }
}

/// A text that ends, from index `k`, with one line `line` and a newline
/// yields that single line from `k` on.
pub proof fn lemma_last_line(s: Seq<char>, k: int, line: Seq<char>, j: int)
    requires
        0 <= k <= j <= k + line.len(),
        k <= s.len(),
        s.subrange(k, s.len() as int) == line.push('\n'),
        !line.contains('\n'),
        line.len() == 0 || line.last() != '\r',
    ensures
        lines_from(s, j, line.subrange(0, j - k)) == seq![line],
    decreases k + line.len() - j,
{
    assert(s.subrange(k, s.len() as int).len() == s.len() - k);
    assert(line.push('\n').len() == line.len() + 1);
    assert(s.len() == k + line.len() + 1);
    assert(s[k + line.len()] == s.subrange(k, s.len() as int)[line.len() as int]);
    if j == k + line.len() {
        assert(line.subrange(0, j - k) =~= line);
        assert(lines_from(s, j + 1, seq![]) == Seq::<Seq<char>>::empty());
        assert(lines_from(s, j, line) == seq![strip_trailing_cr(line)] + lines_from(s, j + 1, seq![]));
    } else {
        assert(s[j] == s.subrange(k, s.len() as int)[j - k]);
        assert(s[j] == line[j - k]);
        assert(s[j] != '\n') by {
            if s[j] == '\n' {
                assert(line.contains('\n'));
            }
        }
        lemma_last_line(s, k, line, j + 1);
        assert(line.subrange(0, j - k).push(s[j]) =~= line.subrange(0, j + 1 - k));
    }
}

} // verus!
