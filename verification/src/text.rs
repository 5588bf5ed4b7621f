//! Character-level helpers over strings.
//!
//! Strings are modelled by their view, a `Seq<char>`. Positions that come
//! from a parser are byte offsets into the UTF-8 encoding, so slicing is
//! stated through `encode_utf8` and `decode_utf8`.

use vstd::prelude::*;
use vstd::string::*;
use vstd::utf8::*;

verus! {

/// `String::push`: appends one character to the end of the string.
pub assume_specification[ String::push ](s: &mut String, c: char)
    ensures
        final(s)@ == old(s)@.push(c),
;

/// What `str::to_lowercase` returns for the characters `s`.
pub uninterp spec fn lowercase(s: Seq<char>) -> Seq<char>;

/// `str::to_lowercase`: the lowercase equivalent of the string, as a new
/// `String`. The result depends on the characters alone.
pub assume_specification[ str::to_lowercase ](s: &str) -> (r: String)
    ensures
        r@ == lowercase(s@),
;

/// Whether `char::is_whitespace` holds of `c`, that is whether `c` has the
/// Unicode property `White_Space`.
pub uninterp spec fn is_whitespace(c: char) -> bool;

/// `char::is_whitespace`: true exactly for the characters with the Unicode
/// property `White_Space`.
pub assume_specification[ char::is_whitespace ](c: char) -> (r: bool)
    ensures
        r == is_whitespace(c),
;

/// The views of a sequence of strings.
pub open spec fn views(v: Seq<String>) -> Seq<Seq<char>> {
    Seq::new(v.len(), |i: int| v[i]@)
}

/// The characters of `s`, in order.
pub fn chars_of(s: &str) -> (out: Vec<char>)
    ensures
        out@ == s@,
{
    let mut out: Vec<char> = Vec::new();
    for c in it: s.chars()
        invariant
            it.seq() == s@,
            out@ == s@.take(it.index()),
    {
        out.push(c);
    }
    assert(out@ == s@);
    out
}

/// The string made of the characters `v[from..to]`.
pub fn string_of(v: &Vec<char>, from: usize, to: usize) -> (out: String)
    requires
        from <= to <= v.len(),
    ensures
        out@ == v@.subrange(from as int, to as int),
{
    let mut out = String::new();
    let mut i: usize = from;
    while i < to
        invariant
            from <= i <= to <= v.len(),
            out@ == v@.subrange(from as int, i as int),
        decreases to - i,
    {
        out.push(v[i]);
        i += 1;
        assert(v@.subrange(from as int, i as int) == v@.subrange(from as int, i - 1).push(
            v@[i - 1],
        ));
    }
    out
}

/// Equal encodings mean equal characters.
pub proof fn lemma_encoding_injective(a: Seq<char>, b: Seq<char>)
    requires
        encode_utf8(a) == encode_utf8(b),
    ensures
        a == b,
{
    encode_utf8_decode_utf8(a);
    encode_utf8_decode_utf8(b);
}

/// Whether two strings hold the same characters.
pub fn str_eq(a: &str, b: &str) -> (r: bool)
    ensures
        r == (a@ == b@),
{
    let x = a.as_bytes();
    let y = b.as_bytes();
    if x.len() != y.len() {
        return false;
    }
    let mut i: usize = 0;
    while i < x.len()
        invariant
            i <= x.len(),
            x.len() == y.len(),
            x@ == encode_utf8(a@),
            y@ == encode_utf8(b@),
            forall|k: int| 0 <= k < i ==> x@[k] == y@[k],
        decreases x.len() - i,
    {
        if x[i] != y[i] {
            return false;
        }
        i += 1;
    }
    proof {
        assert(x@ =~= y@);
        lemma_encoding_injective(a@, b@);
    }
    true
}

/// Whether `p` occurs in `s` at position `at`.
pub open spec fn occurs_at(s: Seq<char>, p: Seq<char>, at: int) -> bool {
    0 <= at && at + p.len() <= s.len() && s.subrange(at, at + p.len()) == p
}

/// Whether `p` occurs in `s` at position `at`.
pub fn matches_at(s: &Vec<char>, p: &Vec<char>, at: usize) -> (r: bool)
    requires
        at <= s.len(),
    ensures
        r == occurs_at(s@, p@, at as int),
{
    if p.len() > s.len() - at {
        return false;
    }
    let mut i: usize = 0;
    while i < p.len()
        invariant
            i <= p.len(),
            at + p.len() <= s.len(),
            forall|k: int| 0 <= k < i ==> s@[at + k] == p@[k],
        decreases p.len() - i,
    {
        if s[at + i] != p[i] {
            assert(s@.subrange(at as int, at + p.len())[i as int] != p@[i as int]);
            return false;
        }
        i += 1;
    }
    assert(s@.subrange(at as int, at + p.len()) =~= p@);
    true
}

/// Whether `s` begins with `p`.
pub fn starts_with(s: &str, p: &str) -> (r: bool)
    ensures
        r == p@.is_prefix_of(s@),
{
    let sv = chars_of(s);
    let pv = chars_of(p);
    let r = matches_at(&sv, &pv, 0);
    proof {
        if p@.len() <= s@.len() {
            assert(s@.subrange(0, p@.len() as int) =~= s@.take(p@.len() as int));
        }
        if r {
            assert(p@.is_prefix_of(s@));
        }
        if p@.is_prefix_of(s@) {
            assert(s@.subrange(0, p@.len() as int) =~= p@);
        }
    }
    r
}

/// `s` without its first `n` characters.
pub fn skip_chars(s: &str, n: usize) -> (r: String)
    requires
        n <= s@.len(),
    ensures
        r@ == s@.skip(n as int),
{
    let sv = chars_of(s);
    string_of(&sv, n, sv.len())
}

/// `s` followed by `t`.
pub fn followed_by_text(s: &str, t: &str) -> (r: String)
    ensures
        r@ == s@ + t@,
{
    let mut r = s.to_owned();
    r.append(t);
    r
}

/// `w` before, between and after the characters of `s`.
pub open spec fn interleaved(s: Seq<char>, w: Seq<char>) -> Seq<char>
    decreases s.len(),
{
    if s.len() == 0 {
        w
    } else {
        w + seq![s[0]] + interleaved(s.skip(1), w)
    }
}

/// `s` with every occurrence of `pat` replaced by `with`, the occurrences
/// taken from the left and not overlapping. An empty `pat` occurs before
/// every character and at the end.
pub open spec fn replaced(s: Seq<char>, pat: Seq<char>, with: Seq<char>) -> Seq<char>
    decreases s.len(),
{
    if pat.len() == 0 {
        interleaved(s, with)
    } else if s.len() == 0 {
        s
    } else if pat.is_prefix_of(s) {
        with + replaced(s.skip(pat.len() as int), pat, with)
    } else {
        seq![s[0]] + replaced(s.skip(1), pat, with)
    }
}

/// Replaces every occurrence of `pat` in `s` by `with`.
pub fn replace_all(s: &str, pat: &str, with: &str) -> (r: String)
    ensures
        r@ == replaced(s@, pat@, with@),
{
    let sv = chars_of(s);
    let pv = chars_of(pat);
    let wv = chars_of(with);
    let mut out: Vec<char> = Vec::new();
    let mut i: usize = 0;
    assert(sv@.skip(0) =~= sv@);
    if pv.len() == 0 {
        assert(out@ + interleaved(sv@, wv@) =~= interleaved(sv@, wv@));
        while i < sv.len()
            invariant
                i <= sv.len(),
                out@ + interleaved(sv@.skip(i as int), wv@) == interleaved(sv@, wv@),
            decreases sv.len() - i,
        {
            let ghost before = out@;
            out.extend_from_slice(wv.as_slice());
            out.push(sv[i]);
            proof {
                let rest = sv@.skip(i as int);
                assert(rest.skip(1) =~= sv@.skip(i + 1));
                assert(out@ + interleaved(sv@.skip(i + 1), wv@) =~= before + interleaved(
                    rest,
                    wv@,
                ));
            }
            i += 1;
        }
        out.extend_from_slice(wv.as_slice());
    } else {
        assert(out@ + replaced(sv@, pv@, wv@) =~= replaced(sv@, pv@, wv@));
        while i < sv.len()
            invariant
                i <= sv.len(),
                pv.len() > 0,
                out@ + replaced(sv@.skip(i as int), pv@, wv@) == replaced(sv@, pv@, wv@),
            decreases sv.len() - i,
        {
            let ghost before = out@;
            let ghost rest = sv@.skip(i as int);
            let found = matches_at(&sv, &pv, i);
            proof {
                if found {
                    assert(rest.take(pv@.len() as int) =~= sv@.subrange(
                        i as int,
                        i + pv@.len(),
                    ));
                    assert(pv@.is_prefix_of(rest));
                } else if pv@.is_prefix_of(rest) {
                    assert(sv@.subrange(i as int, i + pv@.len()) =~= pv@);
                }
            }
            if found {
                out.extend_from_slice(wv.as_slice());
                proof {
                    assert(rest.skip(pv@.len() as int) =~= sv@.skip(i + pv@.len()));
                    assert(out@ + replaced(sv@.skip(i + pv@.len()), pv@, wv@) =~= before
                        + replaced(rest, pv@, wv@));
                }
                i += pv.len();
            } else {
                out.push(sv[i]);
                proof {
                    assert(rest.skip(1) =~= sv@.skip(i + 1));
                    assert(out@ + replaced(sv@.skip(i + 1), pv@, wv@) =~= before + replaced(
                        rest,
                        pv@,
                        wv@,
                    ));
                }
                i += 1;
            }
        }
    }
    let r = string_of(&out, 0, out.len());
    proof {
        assert(out@.subrange(0, out@.len() as int) =~= out@);
        assert(sv@.skip(sv@.len() as int) =~= Seq::<char>::empty());
    }
    r
}

/// The piece `cur`, if it holds anything.
pub open spec fn piece(cur: Seq<char>) -> Seq<Seq<char>> {
    if cur.len() > 0 {
        seq![cur]
    } else {
        seq![]
    }
}

/// Whether the character at `at` is one at which a text is split.
pub open spec fn breaks_at(breaks: Seq<bool>, at: int) -> bool {
    0 <= at < breaks.len() && breaks[at]
}

/// The runs still to come when `s` is read from `at` on and `cur` holds the
/// characters of the run being read.
pub open spec fn runs_from(s: Seq<char>, breaks: Seq<bool>, at: int, cur: Seq<char>) -> Seq<
    Seq<char>,
>
    decreases s.len() - at,
{
    if at < 0 || at >= s.len() {
        piece(cur)
    } else if breaks_at(breaks, at) {
        piece(cur) + runs_from(s, breaks, at + 1, seq![])
    } else {
        runs_from(s, breaks, at + 1, cur.push(s[at]))
    }
}

/// The maximal runs of characters of `s` at which `breaks` does not split
/// the text, in order. Where `breaks` is shorter than `s`, the text is not
/// split after its end.
pub open spec fn runs(s: Seq<char>, breaks: Seq<bool>) -> Seq<Seq<char>> {
    runs_from(s, breaks, 0, seq![])
}

/// For each character of `s`, whether it is whitespace.
pub open spec fn whitespace_of(s: Seq<char>) -> Seq<bool> {
    Seq::new(s.len(), |i: int| is_whitespace(s[i]))
}

/// The maximal runs of characters of `s` that are not whitespace, in order.
pub open spec fn words(s: Seq<char>) -> Seq<Seq<char>> {
    runs(s, whitespace_of(s))
}

/// Splits `chars` at the characters that `breaks` marks; no run is empty.
pub fn split_runs(chars: &Vec<char>, breaks: &Vec<bool>) -> (out: Vec<String>)
    ensures
        views(out@) == runs(chars@, breaks@),
{
    let mut out: Vec<String> = Vec::new();
    let mut start: usize = 0;
    let mut i: usize = 0;
    proof {
        assert(chars@.subrange(0, 0) =~= Seq::<char>::empty());
        assert(views(out@) + runs(chars@, breaks@) =~= runs(chars@, breaks@));
    }
    while i < chars.len()
        invariant
            start <= i <= chars.len(),
            views(out@) + runs_from(
                chars@,
                breaks@,
                i as int,
                chars@.subrange(start as int, i as int),
            ) == runs(chars@, breaks@),
        decreases chars.len() - i,
    {
        let ghost cur = chars@.subrange(start as int, i as int);
        let ghost before = views(out@);
        if i < breaks.len() && breaks[i] {
            if start < i {
                let run = string_of(chars, start, i);
                out.push(run);
                assert(views(out@) =~= before + piece(cur));
            }
            start = i + 1;
            assert(chars@.subrange(start as int, i + 1) =~= Seq::<char>::empty());
            assert(views(out@) + runs_from(chars@, breaks@, i + 1, seq![]) =~= before + runs_from(
                chars@,
                breaks@,
                i as int,
                cur,
            ));
        } else {
            assert(chars@.subrange(start as int, i + 1) =~= cur.push(chars@[i as int]));
        }
        i += 1;
    }
    let ghost before = views(out@);
    let ghost cur = chars@.subrange(start as int, i as int);
    if start < i {
        let run = string_of(chars, start, i);
        out.push(run);
        assert(views(out@) =~= before + piece(cur));
    }
    assert(views(out@) =~= before + piece(cur));
    out
}

/// For each of `chars`, whether it is whitespace.
pub fn whitespace_flags(chars: &Vec<char>) -> (flags: Vec<bool>)
    ensures
        flags@ == whitespace_of(chars@),
{
    let mut flags: Vec<bool> = Vec::new();
    let mut i: usize = 0;
    while i < chars.len()
        invariant
            i <= chars.len(),
            flags@.len() == i,
            forall|k: int| 0 <= k < i ==> flags@[k] == is_whitespace(chars@[k]),
        decreases chars.len() - i,
    {
        flags.push(chars[i].is_whitespace());
        i += 1;
    }
    assert(flags@ =~= whitespace_of(chars@));
    flags
}

/// Splits `s` at whitespace; no word is empty.
pub fn split_words(s: &str) -> (out: Vec<String>)
    ensures
        views(out@) == words(s@),
{
    let chars = chars_of(s);
    let flags = whitespace_flags(&chars);
    split_runs(&chars, &flags)
}

/// Whether every character of `s` is whitespace.
pub open spec fn blank(s: Seq<char>) -> bool {
    forall|i: int| 0 <= i < s.len() ==> is_whitespace(#[trigger] s[i])
}

/// Whether `s` holds nothing but whitespace.
pub fn is_blank(s: &str) -> (r: bool)
    ensures
        r == blank(s@),
{
    let sv = chars_of(s);
    let mut i: usize = 0;
    while i < sv.len()
        invariant
            i <= sv.len(),
            sv@ == s@,
            forall|k: int| 0 <= k < i ==> is_whitespace(#[trigger] sv@[k]),
        decreases sv.len() - i,
    {
        if !sv[i].is_whitespace() {
            return false;
        }
        i += 1;
    }
    true
}

/// A line without the carriage return that ended it, if one did.
pub open spec fn strip_cr(line: Seq<char>) -> Seq<char> {
    if line.len() > 0 && line.last() == '\r' {
        line.drop_last()
    } else {
        line
    }
}

/// The lines still to come when `s` is left to read and `cur` holds the
/// characters of the line being read.
pub open spec fn lines_from(s: Seq<char>, cur: Seq<char>) -> Seq<Seq<char>>
    decreases s.len(),
{
    if s.len() == 0 {
        piece(cur)
    } else if s[0] == '\n' {
        seq![strip_cr(cur)] + lines_from(s.skip(1), seq![])
    } else {
        lines_from(s.skip(1), cur.push(s[0]))
    }
}

/// The lines of `s`: a line ends at a line feed, or at a carriage return
/// directly followed by one, and the text after the last line feed is a
/// line if it is not empty.
pub open spec fn lines(s: Seq<char>) -> Seq<Seq<char>> {
    lines_from(s, seq![])
}

/// Splits `s` into its lines, without the line endings.
pub fn split_lines(s: &str) -> (out: Vec<String>)
    ensures
        views(out@) == lines(s@),
{
    let sv = chars_of(s);
    let mut out: Vec<String> = Vec::new();
    let mut start: usize = 0;
    let mut i: usize = 0;
    proof {
        assert(sv@.skip(0) =~= sv@);
        assert(sv@.subrange(0, 0) =~= Seq::<char>::empty());
        assert(views(out@) + lines(sv@) =~= lines(sv@));
    }
    while i < sv.len()
        invariant
            start <= i <= sv.len(),
            views(out@) + lines_from(sv@.skip(i as int), sv@.subrange(start as int, i as int))
                == lines(sv@),
        decreases sv.len() - i,
    {
        let ghost rest = sv@.skip(i as int);
        let ghost cur = sv@.subrange(start as int, i as int);
        let ghost before = views(out@);
        assert(rest.skip(1) =~= sv@.skip(i + 1));
        if sv[i] == '\n' {
            let end = if start < i && sv[i - 1] == '\r' {
                i - 1
            } else {
                i
            };
            let line = string_of(&sv, start, end);
            assert(sv@.subrange(start as int, end as int) =~= strip_cr(cur));
            out.push(line);
            assert(views(out@) =~= before + seq![strip_cr(cur)]);
            start = i + 1;
            assert(sv@.subrange(start as int, i + 1) =~= Seq::<char>::empty());
            assert(views(out@) + lines_from(sv@.skip(i + 1), seq![]) =~= before + lines_from(
                rest,
                cur,
            ));
        } else {
            assert(sv@.subrange(start as int, i + 1) =~= cur.push(sv@[i as int]));
        }
        i += 1;
    }
    let ghost before = views(out@);
    let ghost cur = sv@.subrange(start as int, i as int);
    assert(sv@.skip(i as int) =~= Seq::<char>::empty());
    if start < i {
        let line = string_of(&sv, start, i);
        out.push(line);
        assert(views(out@) =~= before + piece(cur));
    }
    assert(views(out@) =~= before + piece(cur));
    out
}

/// Each of `ls` with `sep` before it.
pub open spec fn prefixed(ls: Seq<Seq<char>>, sep: Seq<char>) -> Seq<char>
    decreases ls.len(),
{
    if ls.len() == 0 {
        seq![]
    } else {
        sep + ls[0] + prefixed(ls.skip(1), sep)
    }
}

/// The pieces `ls` with `sep` between each two neighbours.
pub open spec fn joined(ls: Seq<Seq<char>>, sep: Seq<char>) -> Seq<char> {
    if ls.len() == 0 {
        seq![]
    } else {
        ls[0] + prefixed(ls.skip(1), sep)
    }
}

/// Joins `ls` with `sep` between each two neighbours.
pub fn join(ls: &Vec<String>, sep: &str) -> (r: String)
    ensures
        r@ == joined(views(ls@), sep@),
{
    let mut r = String::new();
    if ls.len() == 0 {
        return r;
    }
    r.append(ls[0].as_str());
    let ghost all = views(ls@);
    let mut i: usize = 1;
    while i < ls.len()
        invariant
            1 <= i <= ls.len(),
            all == views(ls@),
            r@ + prefixed(all.skip(i as int), sep@) == joined(all, sep@),
        decreases ls.len() - i,
    {
        let ghost before = r@;
        r.append(sep);
        r.append(ls[i].as_str());
        proof {
            let rest = all.skip(i as int);
            assert(rest.skip(1) =~= all.skip(i + 1));
            assert(rest[0] == ls@[i as int]@);
            assert(r@ + prefixed(all.skip(i + 1), sep@) =~= before + prefixed(rest, sep@));
        }
        i += 1;
    }
    assert(all.skip(i as int) =~= Seq::<Seq<char>>::empty());
    r
}

/// Whether `c` is one of the ten decimal digits.
pub open spec fn is_digit(c: char) -> bool {
    '0' <= c && c <= '9'
}

/// The number that the decimal digits `s` write.
pub open spec fn decimal(s: Seq<char>) -> int
    decreases s.len(),
{
    if s.len() == 0 {
        0
    } else {
        10 * decimal(s.drop_last()) + (s.last() as int - '0' as int)
    }
}

/// Whether `s` is one decimal digit or more, and nothing else.
pub open spec fn all_digits(s: Seq<char>) -> bool {
    s.len() > 0 && forall|i: int| 0 <= i < s.len() ==> is_digit(#[trigger] s[i])
}

/// `s` without a leading plus sign.
pub open spec fn unsigned_part(s: Seq<char>) -> Seq<char> {
    if s.len() > 0 && s[0] == '+' {
        s.skip(1)
    } else {
        s
    }
}

/// The number below 256 that `s` writes in decimal, with or without a
/// leading plus sign; `None` where `s` writes no such number.
pub open spec fn parsed_u8(s: Seq<char>) -> Option<u8> {
    let d = unsigned_part(s);
    if all_digits(d) && decimal(d) <= 255 {
        Some(decimal(d) as u8)
    } else {
        None
    }
}

proof fn lemma_decimal_not_negative(s: Seq<char>)
    requires
        forall|i: int| 0 <= i < s.len() ==> is_digit(#[trigger] s[i]),
    ensures
        0 <= decimal(s),
    decreases s.len(),
{
    if s.len() > 0 {
        lemma_decimal_not_negative(s.drop_last());
        assert(is_digit(s[s.len() - 1]));
    }
}

proof fn lemma_decimal_prefix(s: Seq<char>, n: int)
    requires
        0 <= n <= s.len(),
        forall|i: int| 0 <= i < s.len() ==> is_digit(#[trigger] s[i]),
    ensures
        decimal(s.take(n)) <= decimal(s),
    decreases s.len() - n,
{
    if n == s.len() {
        assert(s.take(n) =~= s);
    } else {
        let t = s.drop_last();
        assert(t.take(n) =~= s.take(n));
        lemma_decimal_prefix(t, n);
        lemma_decimal_not_negative(t);
        assert(is_digit(s[s.len() - 1]));
    }
}

/// Reads a decimal number below 256.
pub fn parse_u8(s: &str) -> (r: Option<u8>)
    ensures
        r == parsed_u8(s@),
{
    let sv = chars_of(s);
    let first: usize = if sv.len() > 0 && sv[0] == '+' {
        1
    } else {
        0
    };
    if first == sv.len() {
        return None;
    }
    let ghost d = unsigned_part(sv@);
    assert(d =~= sv@.skip(first as int));
    let mut acc: u32 = 0;
    let mut i: usize = first;
    assert(d.take(0) =~= Seq::<char>::empty());
    while i < sv.len()
        invariant
            first <= i <= sv.len(),
            first < sv.len(),
            d == sv@.skip(first as int),
            d == unsigned_part(s@),
            acc == decimal(d.take(i - first)),
            acc <= 255,
            forall|k: int| 0 <= k < i - first ==> is_digit(#[trigger] d[k]),
        decreases sv.len() - i,
    {
        let c = sv[i];
        if c < '0' || c > '9' {
            assert(!is_digit(d[i - first]));
            return None;
        }
        let v: u32 = c as u32 - '0' as u32;
        assert(d.take(i + 1 - first).drop_last() =~= d.take(i - first));
        assert(d.take(i + 1 - first).last() == c);
        acc = acc * 10 + v;
        if acc > 255 {
            proof {
                if all_digits(d) {
                    lemma_decimal_prefix(d, i + 1 - first);
                }
            }
            return None;
        }
        i += 1;
    }
    assert(d.take(i - first) =~= d);
    Some(acc as u8)
}

/// The number of bytes that the UTF-8 encoding of `s` takes.
pub open spec fn byte_len(s: Seq<char>) -> int {
    encode_utf8(s).len() as int
}

/// Whether the byte offset `at` into the encoding of `s` lies between two
/// characters, or at either end.
pub open spec fn on_boundary(s: Seq<char>, at: int) -> bool {
    0 <= at <= byte_len(s) && is_char_boundary(encode_utf8(s), at)
}

/// The characters that the bytes `from..to` of the encoding of `s` hold.
pub open spec fn byte_slice(s: Seq<char>, from: int, to: int) -> Seq<char> {
    decode_utf8(encode_utf8(s).subrange(from, to))
}

/// A boundary of a text is a boundary of each of its prefixes that reach it.
pub proof fn lemma_boundary_in_prefix(bytes: Seq<u8>, from: int, to: int)
    requires
        valid_utf8(bytes),
        0 <= from <= to <= bytes.len(),
        is_char_boundary(bytes, from),
        is_char_boundary(bytes, to),
    ensures
        valid_utf8(bytes.subrange(0, to)),
        is_char_boundary(bytes.subrange(0, to), from),
{
    let head = bytes.subrange(0, to);
    valid_utf8_split(bytes, to);
    if from == to {
        is_char_boundary_start_end_of_seq(head);
    } else {
        is_char_boundary_iff_not_is_continuation_byte(bytes, from);
        is_char_boundary_iff_not_is_continuation_byte(head, from);
    }
}

/// The part of `s` between the byte offsets `from` and `to`.
pub fn slice<'a>(s: &'a str, from: usize, to: usize) -> (r: &'a str)
    requires
        from <= to,
        on_boundary(s@, from as int),
        on_boundary(s@, to as int),
    ensures
        r@ == byte_slice(s@, from as int, to as int),
{
    let ghost bytes = encode_utf8(s@);
    proof {
        encode_utf8_valid_utf8(s@);
        lemma_boundary_in_prefix(bytes, from as int, to as int);
    }
    let (head, _) = s.split_at(to);
    let (_, r) = head.split_at(from);
    proof {
        assert(r.spec_bytes() =~= bytes.subrange(from as int, to as int));
        encode_utf8_decode_utf8(r@);
    }
    r
}

/// Whether the byte offset `at` can end or begin a slice of `s`.
pub fn is_boundary(s: &str, at: usize) -> (r: bool)
    ensures
        r == on_boundary(s@, at as int),
{
    proof {
        encode_utf8_valid_utf8(s@);
    }
    s.is_char_boundary(at)
}

/// The part of `s` before the byte offset `to`.
pub fn head_to<'a>(s: &'a str, to: usize) -> (r: &'a str)
    requires
        on_boundary(s@, to as int),
    ensures
        r@ == byte_slice(s@, 0, to as int),
{
    let (r, _) = s.split_at(to);
    proof {
        assert(r.spec_bytes() =~= encode_utf8(s@).subrange(0, to as int));
        encode_utf8_decode_utf8(r@);
    }
    r
}

/// The part of `s` from the byte offset `from` on.
pub fn tail_from<'a>(s: &'a str, from: usize) -> (r: &'a str)
    requires
        on_boundary(s@, from as int),
    ensures
        r@ == byte_slice(s@, from as int, byte_len(s@)),
{
    let (_, r) = s.split_at(from);
    proof {
        assert(r.spec_bytes() =~= encode_utf8(s@).subrange(from as int, byte_len(s@)));
        encode_utf8_decode_utf8(r@);
    }
    r
}

/// A boundary of a text is a boundary of each of its suffixes that begin
/// at a boundary before it.
pub proof fn lemma_boundary_in_suffix(bytes: Seq<u8>, from: int, to: int)
    requires
        valid_utf8(bytes),
        0 <= from <= to <= bytes.len(),
        is_char_boundary(bytes, from),
        is_char_boundary(bytes, to),
    ensures
        valid_utf8(bytes.subrange(from, bytes.len() as int)),
        is_char_boundary(bytes.subrange(from, bytes.len() as int), to - from),
{
    let tail = bytes.subrange(from, bytes.len() as int);
    valid_utf8_split(bytes, from);
    if to == bytes.len() {
        is_char_boundary_start_end_of_seq(tail);
    } else if to > from {
        is_char_boundary_iff_not_is_continuation_byte(bytes, to);
        is_char_boundary_iff_not_is_continuation_byte(tail, to - from);
    }
}

/// A slice is its part before a boundary followed by its part after it.
pub proof fn lemma_slice_split(s: Seq<char>, from: int, mid: int, to: int)
    requires
        from <= mid <= to,
        on_boundary(s, from),
        on_boundary(s, mid),
        on_boundary(s, to),
    ensures
        byte_slice(s, from, to) == byte_slice(s, from, mid) + byte_slice(s, mid, to),
{
    let bytes = encode_utf8(s);
    encode_utf8_valid_utf8(s);
    lemma_boundary_in_prefix(bytes, from, to);
    lemma_boundary_in_prefix(bytes, mid, to);
    let head = bytes.subrange(0, to);
    lemma_boundary_in_suffix(head, from, mid);
    let part = head.subrange(from, to);
    assert(part =~= bytes.subrange(from, to));
    decode_utf8_split(part, mid - from);
    assert(part.subrange(0, mid - from) =~= bytes.subrange(from, mid));
    assert(part.subrange(mid - from, part.len() as int) =~= bytes.subrange(mid, to));
}

/// The whole of a text, cut out of it, is the text.
pub proof fn lemma_slice_whole(s: Seq<char>)
    ensures
        on_boundary(s, 0),
        on_boundary(s, byte_len(s)),
        byte_slice(s, 0, byte_len(s)) == s,
{
    let bytes = encode_utf8(s);
    encode_utf8_valid_utf8(s);
    is_char_boundary_start_end_of_seq(bytes);
    assert(bytes.subrange(0, bytes.len() as int) =~= bytes);
    encode_utf8_decode_utf8(s);
}

/// Joining a piece and more pieces puts the separator after the first.
pub proof fn lemma_joined_first(first: Seq<char>, rest: Seq<Seq<char>>, sep: Seq<char>)
    requires
        rest.len() > 0,
    ensures
        joined(seq![first] + rest, sep) == first + sep + joined(rest, sep),
{
    let all = seq![first] + rest;
    assert(all.skip(1) =~= rest);
    assert(all[0] == first);
    assert(joined(all, sep) =~= first + sep + joined(rest, sep));
}

/// Whether `w` holds no whitespace.
pub open spec fn spaceless(w: Seq<char>) -> bool {
    forall|j: int| 0 <= j < w.len() ==> !is_whitespace(#[trigger] w[j])
}

/// Whether `w` holds no line feed.
pub open spec fn on_one_line(w: Seq<char>) -> bool {
    forall|j: int| 0 <= j < w.len() ==> #[trigger] w[j] != '\n'
}

proof fn lemma_runs_between_whitespace(s: Seq<char>, at: int, cur: Seq<char>)
    requires
        0 <= at,
        spaceless(cur),
    ensures
        forall|i: int|
            0 <= i < runs_from(s, whitespace_of(s), at, cur).len() ==> (#[trigger] runs_from(
                s,
                whitespace_of(s),
                at,
                cur,
            )[i]).len() > 0 && spaceless(runs_from(s, whitespace_of(s), at, cur)[i]),
    decreases s.len() - at,
{
    let flags = whitespace_of(s);
    let ws = runs_from(s, flags, at, cur);
    if at >= s.len() {
        assert forall|i: int| 0 <= i < ws.len() implies (#[trigger] ws[i]).len() > 0 && spaceless(
            ws[i],
        ) by {
            assert(ws[i] == cur);
        }
    } else if breaks_at(flags, at) {
        lemma_runs_between_whitespace(s, at + 1, seq![]);
        let rest = runs_from(s, flags, at + 1, seq![]);
        assert forall|i: int| 0 <= i < ws.len() implies (#[trigger] ws[i]).len() > 0 && spaceless(
            ws[i],
        ) by {
            if i < piece(cur).len() {
                assert(ws[i] == cur);
            } else {
                assert(ws[i] == rest[i - piece(cur).len()]);
            }
        }
    } else {
        let next = cur.push(s[at]);
        assert(flags[at] == is_whitespace(s[at]));
        assert forall|j: int| 0 <= j < next.len() implies !is_whitespace(#[trigger] next[j]) by {
            if j < cur.len() {
                assert(next[j] == cur[j]);
            }
        }
        lemma_runs_between_whitespace(s, at + 1, next);
        assert(ws == runs_from(s, flags, at + 1, next));
    }
}

/// No word is empty, and no word holds whitespace.
pub proof fn lemma_words_hold_no_whitespace(s: Seq<char>)
    ensures
        forall|i: int|
            0 <= i < words(s).len() ==> (#[trigger] words(s)[i]).len() > 0 && spaceless(
                words(s)[i],
            ),
{
    lemma_runs_between_whitespace(s, 0, seq![]);
}

proof fn lemma_lines_from(s: Seq<char>, cur: Seq<char>)
    requires
        on_one_line(cur),
    ensures
        forall|i: int| 0 <= i < lines_from(s, cur).len() ==> on_one_line(#[trigger] lines_from(s, cur)[i]),
    decreases s.len(),
{
    let ls = lines_from(s, cur);
    if s.len() == 0 {
        assert forall|i: int| 0 <= i < ls.len() implies on_one_line(#[trigger] ls[i]) by {
            assert(ls[i] == cur);
        }
    } else if s[0] == '\n' {
        lemma_lines_from(s.skip(1), seq![]);
        let rest = lines_from(s.skip(1), seq![]);
        let first = strip_cr(cur);
        assert forall|j: int| 0 <= j < first.len() implies #[trigger] first[j] != '\n' by {
            assert(first[j] == cur[j]);
        }
        assert forall|i: int| 0 <= i < ls.len() implies on_one_line(#[trigger] ls[i]) by {
            if i == 0 {
                assert(ls[i] == first);
            } else {
                assert(ls[i] == rest[i - 1]);
            }
        }
    } else {
        let next = cur.push(s[0]);
        assert forall|j: int| 0 <= j < next.len() implies #[trigger] next[j] != '\n' by {
            if j < cur.len() {
                assert(next[j] == cur[j]);
            }
        }
        lemma_lines_from(s.skip(1), next);
        assert(ls == lines_from(s.skip(1), next));
    }
}

/// No line holds a line feed.
pub proof fn lemma_lines_hold_no_line_feed(s: Seq<char>)
    ensures
        forall|i: int| 0 <= i < lines(s).len() ==> on_one_line(#[trigger] lines(s)[i]),
{
    lemma_lines_from(s, seq![]);
}

/// Whether `a` and `b` hold the same texts in the same order.
pub fn same_lines(a: &Vec<String>, b: &Vec<String>) -> (r: bool)
    ensures
        r == (views(a@) == views(b@)),
{
    if a.len() != b.len() {
        assert(views(a@).len() != views(b@).len());
        return false;
    }
    let mut i: usize = 0;
    while i < a.len()
        invariant
            i <= a.len(),
            a.len() == b.len(),
            forall|k: int| 0 <= k < i ==> a@[k]@ == b@[k]@,
        decreases a.len() - i,
    {
        if !str_eq(a[i].as_str(), b[i].as_str()) {
            assert(views(a@)[i as int] != views(b@)[i as int]);
            return false;
        }
        i += 1;
    }
    assert(views(a@) =~= views(b@));
    true
}

} // verus!
