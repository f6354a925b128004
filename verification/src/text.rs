use vstd::prelude::*;
use vstd::std_specs::iter::IteratorSpec;

verus! {

broadcast use vstd::string::group_string_axioms;

/// Whether `c` has the Unicode White_Space property.
pub open spec fn spec_is_whitespace(c: char) -> bool {
    ||| ('\u{9}' <= c && c <= '\u{d}')
    ||| c == ' '
    ||| c == '\u{85}'
    ||| c == '\u{a0}'
    ||| c == '\u{1680}'
    ||| ('\u{2000}' <= c && c <= '\u{200a}')
    ||| c == '\u{2028}'
    ||| c == '\u{2029}'
    ||| c == '\u{202f}'
    ||| c == '\u{205f}'
    ||| c == '\u{3000}'
}

/// Whether `c` has the Unicode White_Space property, as `char::is_whitespace` decides it.
pub fn is_whitespace(c: char) -> (r: bool)
    ensures
        r == spec_is_whitespace(c),
{
    ('\u{9}' <= c && c <= '\u{d}') || c == ' ' || c == '\u{85}' || c == '\u{a0}' || c == '\u{1680}'
        || ('\u{2000}' <= c && c <= '\u{200a}') || c == '\u{2028}' || c == '\u{2029}' || c
        == '\u{202f}' || c == '\u{205f}' || c == '\u{3000}'
}

/// `s` without its leading whitespace.
pub open spec fn spec_trim_start(s: Seq<char>) -> Seq<char>
    decreases s.len(),
{
    if s.len() > 0 && spec_is_whitespace(s[0]) {
        spec_trim_start(s.drop_first())
    } else {
        s
    }
}

/// `s` without its trailing whitespace.
pub open spec fn spec_trim_end(s: Seq<char>) -> Seq<char>
    decreases s.len(),
{
    if s.len() > 0 && spec_is_whitespace(s.last()) {
        spec_trim_end(s.drop_last())
    } else {
        s
    }
}

/// `s` without leading and trailing whitespace.
pub open spec fn spec_trim(s: Seq<char>) -> Seq<char> {
    spec_trim_end(spec_trim_start(s))
}

/// The lowercase form of a string, as `str::to_lowercase` computes it.
pub uninterp spec fn spec_to_lowercase(s: Seq<char>) -> Seq<char>;

/// Calls `str::to_lowercase`. The contract claims that the result is a
/// function of the characters of `s` alone, named `spec_to_lowercase`.
#[verifier::external_body]
pub(crate) fn to_lowercase(s: &str) -> (r: String)
    ensures
        r@ == spec_to_lowercase(s@),
{
    s.to_lowercase()
}

/// Calls `String::push`. The contract claims that `c` is appended to `s`.
#[verifier::external_body]
pub(crate) fn push_char(s: &mut String, c: char)
    ensures
        final(s)@ == old(s)@.push(c),
{
    s.push(c)
}

/// The characters of a string slice, in order.
pub fn str_to_chars(s: &str) -> (r: Vec<char>)
    ensures
        r@ == s@,
{
    let mut out: Vec<char> = Vec::new();
    for c in it: s.chars()
        invariant
            it.seq() == s@,
            out@ == it.seq().take(it.index() as int),
    {
        out.push(c);
    }
    out
}

/// A string made of the characters `v[from..to]`.
pub fn chars_to_string(v: &[char], from: usize, to: usize) -> (r: String)
    requires
        from <= to <= v@.len(),
    ensures
        r@ == v@.subrange(from as int, to as int),
{
    let mut out = String::new();
    let mut i = from;
    while i < to
        invariant
            from <= i <= to <= v@.len(),
            out@ == v@.subrange(from as int, i as int),
        decreases to - i,
    {
        push_char(&mut out, v[i]);
        i = i + 1;
        assert(out@ =~= v@.subrange(from as int, i as int));
    }
    out
}

/// The characters `v[from..to]`.
pub fn sub_chars(v: &[char], from: usize, to: usize) -> (r: Vec<char>)
    requires
        from <= to <= v@.len(),
    ensures
        r@ == v@.subrange(from as int, to as int),
{
    let mut out: Vec<char> = Vec::new();
    let mut i = from;
    while i < to
        invariant
            from <= i <= to <= v@.len(),
            out@ == v@.subrange(from as int, i as int),
        decreases to - i,
    {
        out.push(v[i]);
        i = i + 1;
        assert(out@ =~= v@.subrange(from as int, i as int));
    }
    out
}

/// A string made of all the characters of `v`.
pub fn seq_to_string(v: &Vec<char>) -> (r: String)
    ensures
        r@ == v@,
{
    let r = chars_to_string(v.as_slice(), 0, v.len());
    assert(v@.subrange(0, v@.len() as int) =~= v@);
    r
}

/// `a` followed by `b`.
pub fn concat(a: &str, b: &str) -> (r: String)
    ensures
        r@ == a@ + b@,
{
    let mut out = String::from_str(a);
    out.append(b);
    out
}

/// Whether the characters of `v` are exactly those of `s`.
pub fn chars_eq(v: &[char], s: &str) -> (r: bool)
    ensures
        r == (v@ == s@),
{
    let n = s.unicode_len();
    if v.len() != n {
        return false;
    }
    let mut i: usize = 0;
    while i < n
        invariant
            n == s@.len() == v@.len(),
            i <= n,
            forall|j: int| 0 <= j < i ==> v@[j] == s@[j],
        decreases n - i,
    {
        if v[i] != s.get_char(i) {
            return false;
        }
        i = i + 1;
    }
    assert(v@ =~= s@);
    true
}

/// The position of the first `c` in `v`, if any.
pub open spec fn spec_find(s: Seq<char>, c: char) -> Option<int>
    decreases s.len(),
{
    if s.len() == 0 {
        None
    } else if s[0] == c {
        Some(0)
    } else {
        match spec_find(s.drop_first(), c) {
            Some(i) => Some(i + 1),
            None => None,
        }
    }
}

/// Facts about the first occurrence of a character.
pub proof fn lemma_find(s: Seq<char>, c: char)
    ensures
        match spec_find(s, c) {
            Some(i) => 0 <= i < s.len() && s[i] == c && forall|j: int| 0 <= j < i ==> s[j] != c,
            None => forall|j: int| 0 <= j < s.len() ==> s[j] != c,
        },
    decreases s.len(),
{
    if s.len() > 0 {
        lemma_find(s.drop_first(), c);
        if s[0] != c {
            match spec_find(s.drop_first(), c) {
                Some(i) => {
                    assert forall|j: int| 0 <= j < i + 1 implies s[j] != c by {
                        if j > 0 {
                            assert(s[j] == s.drop_first()[j - 1]);
                        }
                    }
                }
                None => {
                    assert forall|j: int| 0 <= j < s.len() implies s[j] != c by {
                        if j > 0 {
                            assert(s[j] == s.drop_first()[j - 1]);
                        }
                    }
                }
            }
        }
    }
}

/// The position of the first `c` in `v`, if any.
pub fn find_char(v: &[char], c: char) -> (r: Option<usize>)
    ensures
        match spec_find(v@, c) {
            Some(i) => r == Some(i as usize),
            None => r is None,
        },
{
    proof {
        lemma_find(v@, c);
    }
    let mut i: usize = 0;
    while i < v.len()
        invariant
            i <= v@.len(),
            forall|j: int| 0 <= j < i ==> v@[j] != c,
            match spec_find(v@, c) {
                Some(k) => 0 <= k < v@.len() && v@[k] == c && forall|j: int| 0 <= j < k ==> v@[j] != c,
                None => forall|j: int| 0 <= j < v@.len() ==> v@[j] != c,
            },
        decreases v.len() - i,
    {
        if v[i] == c {
            return Some(i);
        }
        i = i + 1;
    }
    None
}

/// The number of leading whitespace characters of `s`.
pub proof fn lemma_trim_start_is_suffix(s: Seq<char>)
    ensures
        exists|k: int|
            0 <= k <= s.len() && spec_trim_start(s) == s.subrange(k, s.len() as int) && (forall|
                j: int,
            | 0 <= j < k ==> spec_is_whitespace(#[trigger] s[j])) && (k < s.len()
                ==> !spec_is_whitespace(s[k])),
    decreases s.len(),
{
    if s.len() > 0 && spec_is_whitespace(s[0]) {
        lemma_trim_start_is_suffix(s.drop_first());
        let t = s.drop_first();
        let k = choose|k: int|
            0 <= k <= t.len() && spec_trim_start(t) == t.subrange(k, t.len() as int) && (forall|
                j: int,
            | 0 <= j < k ==> spec_is_whitespace(#[trigger] t[j])) && (k < t.len()
                ==> !spec_is_whitespace(t[k]));
        assert(t.subrange(k, t.len() as int) =~= s.subrange(k + 1, s.len() as int));
        assert forall|j: int| 0 <= j < k + 1 implies spec_is_whitespace(#[trigger] s[j]) by {
            if j > 0 {
                assert(s[j] == t[j - 1]);
            }
        }
        assert(k + 1 < s.len() ==> s[k + 1] == t[k]);
    } else {
        assert(s =~= s.subrange(0, s.len() as int));
    }
}

/// The position in `v[from..to]` where its leading whitespace ends.
pub fn skip_whitespace(v: &[char], from: usize, to: usize) -> (r: usize)
    requires
        from <= to <= v@.len(),
    ensures
        from <= r <= to,
        v@.subrange(r as int, to as int) == spec_trim_start(v@.subrange(from as int, to as int)),
    decreases to - from,
{
    if from < to && is_whitespace(v[from]) {
        let r = skip_whitespace(v, from + 1, to);
        assert(v@.subrange(from as int, to as int).drop_first() =~= v@.subrange(
            from + 1,
            to as int,
        ));
        r
    } else {
        proof {
            r_same(v@, from as int, to as int);
        }
        from
    }
}

proof fn r_same(s: Seq<char>, from: int, to: int)
    requires
        0 <= from <= to <= s.len(),
        !(from < to && spec_is_whitespace(s[from])),
    ensures
        spec_trim_start(s.subrange(from, to)) == s.subrange(from, to),
{
    let t = s.subrange(from, to);
    if t.len() > 0 {
        assert(t[0] == s[from]);
    }
}

/// The position in `v[from..to]` where its trailing whitespace starts.
pub fn trailing_whitespace_start(v: &[char], from: usize, to: usize) -> (r: usize)
    requires
        from <= to <= v@.len(),
    ensures
        from <= r <= to,
        v@.subrange(from as int, r as int) == spec_trim_end(v@.subrange(from as int, to as int)),
    decreases to - from,
{
    if from < to && is_whitespace(v[to - 1]) {
        let r = trailing_whitespace_start(v, from, to - 1);
        assert(v@.subrange(from as int, to as int).drop_last() =~= v@.subrange(
            from as int,
            to - 1,
        ));
        r
    } else {
        let ghost t = v@.subrange(from as int, to as int);
        proof {
            if t.len() > 0 {
                assert(t.last() == v@[to - 1]);
            }
        }
        to
    }
}

/// The decimal digits of `n`.
pub open spec fn spec_decimal(n: nat) -> Seq<char>
    decreases n,
{
    if n < 10 {
        seq![digit_char(n)]
    } else {
        spec_decimal(n / 10).push(digit_char(n % 10))
    }
}

/// The character of a decimal digit.
pub open spec fn digit_char(d: nat) -> char {
    if d == 0 {
        '0'
    } else if d == 1 {
        '1'
    } else if d == 2 {
        '2'
    } else if d == 3 {
        '3'
    } else if d == 4 {
        '4'
    } else if d == 5 {
        '5'
    } else if d == 6 {
        '6'
    } else if d == 7 {
        '7'
    } else if d == 8 {
        '8'
    } else {
        '9'
    }
}

fn digit_to_char(d: usize) -> (c: char)
    requires
        d < 10,
    ensures
        c == digit_char(d as nat),
{
    if d == 0 {
        '0'
    } else if d == 1 {
        '1'
    } else if d == 2 {
        '2'
    } else if d == 3 {
        '3'
    } else if d == 4 {
        '4'
    } else if d == 5 {
        '5'
    } else if d == 6 {
        '6'
    } else if d == 7 {
        '7'
    } else if d == 8 {
        '8'
    } else {
        '9'
    }
}

/// The decimal form of `n`, as `usize::to_string` writes it.
pub fn usize_to_string(n: usize) -> (r: String)
    ensures
        r@ == spec_decimal(n as nat),
    decreases n,
{
    if n < 10 {
        let mut s = String::new();
        push_char(&mut s, digit_to_char(n));
        s
    } else {
        let mut s = usize_to_string(n / 10);
        push_char(&mut s, digit_to_char(n % 10));
        s
    }
}

/// The decimal form of `n`, with a leading '-' when it is negative.
pub open spec fn spec_signed_decimal(n: int) -> Seq<char> {
    if n < 0 {
        seq!['-'] + spec_decimal((-n) as nat)
    } else {
        spec_decimal(n as nat)
    }
}

/// The decimal form of `n`, as `i32::to_string` writes it.
pub fn i32_to_string(n: i32) -> (r: String)
    ensures
        r@ == spec_signed_decimal(n as int),
{
    if n < 0 {
        let m: usize = if n == i32::MIN {
            2147483648usize
        } else {
            (-n) as usize
        };
        let digits = usize_to_string(m);
        let mut s = String::new();
        push_char(&mut s, '-');
        s.append(digits.as_str());
        s
    } else {
        usize_to_string(n as usize)
    }
}

/// "true" or "false".
pub open spec fn spec_bool_str(b: bool) -> Seq<char> {
    if b {
        "true"@
    } else {
        "false"@
    }
}

/// "true" or "false", as `bool::to_string` writes it.
pub fn bool_to_string(b: bool) -> (r: String)
    ensures
        r@ == spec_bool_str(b),
{
    if b {
        String::from_str("true")
    } else {
        String::from_str("false")
    }
}

} // verus!

verus! {

/// Whether `a` comes before or equals `b` in lexicographic order of code points,
/// which is also the byte order of their UTF-8 encodings.
pub open spec fn lex_le(a: Seq<char>, b: Seq<char>) -> bool
    decreases a.len(),
{
    if a.len() == 0 {
        true
    } else if b.len() == 0 {
        false
    } else if a[0] != b[0] {
        a[0] < b[0]
    } else {
        lex_le(a.drop_first(), b.drop_first())
    }
}

/// Lexicographic order is total: of two sequences, one comes before the other.
pub proof fn lemma_lex_le_total(a: Seq<char>, b: Seq<char>)
    ensures
        lex_le(a, b) || lex_le(b, a),
    decreases a.len(),
{
    if a.len() > 0 && b.len() > 0 && a[0] == b[0] {
        lemma_lex_le_total(a.drop_first(), b.drop_first());
    }
}

/// Lexicographic order is transitive.
pub proof fn lemma_lex_le_transitive(a: Seq<char>, b: Seq<char>, c: Seq<char>)
    requires
        lex_le(a, b),
        lex_le(b, c),
    ensures
        lex_le(a, c),
    decreases a.len(),
{
    if a.len() > 0 && b.len() > 0 && c.len() > 0 && a[0] == b[0] && b[0] == c[0] {
        lemma_lex_le_transitive(a.drop_first(), b.drop_first(), c.drop_first());
    }
}

/// Whether `a` comes before or equals `b` in lexicographic order.
pub fn chars_le(a: &[char], b: &[char]) -> (r: bool)
    ensures
        r == lex_le(a@, b@),
{
    let mut i: usize = 0;
    assert(a@.subrange(0, a@.len() as int) =~= a@);
    assert(b@.subrange(0, b@.len() as int) =~= b@);
    while i < a.len() && i < b.len() && a[i] == b[i]
        invariant
            i <= a@.len(),
            i <= b@.len(),
            forall|j: int| 0 <= j < i ==> a@[j] == b@[j],
            lex_le(a@, b@) == lex_le(a@.subrange(i as int, a@.len() as int), b@.subrange(i as int, b@.len() as int)),
        decreases a.len() - i,
    {
        proof {
            let sa = a@.subrange(i as int, a@.len() as int);
            let sb = b@.subrange(i as int, b@.len() as int);
            assert(sa.drop_first() =~= a@.subrange(i + 1, a@.len() as int));
            assert(sb.drop_first() =~= b@.subrange(i + 1, b@.len() as int));
        }
        i = i + 1;
    }
    if i == a.len() {
        true
    } else if i == b.len() {
        false
    } else {
        a[i] < b[i]
    }
}

/// Whether the string `a` comes before or equals `b`, as `<=` on strings decides it.
pub fn str_le(a: &str, b: &str) -> (r: bool)
    ensures
        r == lex_le(a@, b@),
{
    let va = str_to_chars(a);
    let vb = str_to_chars(b);
    chars_le(va.as_slice(), vb.as_slice())
}

} // verus!

verus! {

/// Whether `needle` occurs in `hay`.
pub open spec fn seq_contains(hay: Seq<char>, needle: Seq<char>) -> bool {
    exists|k: int| 0 <= k && k + needle.len() <= hay.len() && #[trigger] hay.subrange(k, k + needle.len()) == needle
}

/// Whether `needle` occurs in `hay`, as `str::contains` decides it.
pub fn chars_contains(hay: &[char], needle: &[char]) -> (r: bool)
    ensures
        r == seq_contains(hay@, needle@),
{
    let n = needle.len();
    if n > hay.len() {
        return false;
    }
    let hl = hay.len();
    let mut k: usize = 0;
    while k <= hl - n
        invariant
            hl == hay@.len(),
            n == needle@.len(),
            n <= hay@.len(),
            k <= hay@.len() - n + 1,
            forall|j: int| 0 <= j < k ==> #[trigger] hay@.subrange(j, j + n) != needle@,
        decreases hay.len() - k,
    {
        let mut i: usize = 0;
        let mut same = true;
        while i < n
            invariant
                i <= n,
                n == needle@.len(),
                hl == hay@.len(),
                k + n <= hay@.len(),
                same == (forall|j: int| 0 <= j < i ==> hay@[k + j] == needle@[j]),
            decreases n - i,
        {
            if hay[k + i] != needle[i] {
                same = false;
            }
            i = i + 1;
        }
        if same {
            assert(hay@.subrange(k as int, k + n) =~= needle@);
            return true;
        }
        assert(hay@.subrange(k as int, k + n) != needle@) by {
            let j = choose|j: int| 0 <= j < n && hay@[k + j] != needle@[j];
            assert(hay@.subrange(k as int, k + n)[j] == hay@[k + j]);
        }
        k = k + 1;
    }
    false
}

/// The pieces of `s` between the occurrences of `c`, as `str::split` cuts them.
pub open spec fn spec_split_char(s: Seq<char>, c: char) -> Seq<Seq<char>>
    decreases s.len(),
{
    match spec_find(s, c) {
        Some(i) => if 0 <= i < s.len() {
            seq![s.take(i)] + spec_split_char(s.skip(i + 1), c)
        } else {
            seq![s]
        },
        None => seq![s],
    }
}

/// Cutting a string at a character gives at least one piece.
pub proof fn lemma_split_char_nonempty(s: Seq<char>, c: char)
    ensures
        spec_split_char(s, c).len() >= 1,
{
}

/// The pieces of `s` between the occurrences of `c`; each piece is a slice of `s`.
pub fn split_char(s: &str, c: char) -> (r: Vec<&str>)
    ensures
        r@.map_values(|w: &str| w@) == spec_split_char(s@, c),
{
    let v = str_to_chars(s);
    let n = v.len();
    let mut out: Vec<&str> = Vec::new();
    let mut start: usize = 0;
    assert(v@.subrange(0, n as int) =~= v@);
    loop
        invariant_except_break
            v@ == s@,
            n == v@.len(),
            start <= n,
            out@.map_values(|w: &str| w@) + spec_split_char(v@.subrange(start as int, n as int), c)
                == spec_split_char(v@, c),
        ensures
            out@.map_values(|w: &str| w@) == spec_split_char(s@, c),
        decreases n - start,
    {
        let rest = sub_chars(v.as_slice(), start, n);
        let ghost before = out@.map_values(|w: &str| w@);
        proof {
            lemma_find(rest@, c);
        }
        match find_char(rest.as_slice(), c) {
            Some(i) => {
                let w = s.substring_char(start, start + i);
                out.push(w);
                proof {
                    assert(rest@.take(i as int) =~= v@.subrange(start as int, start + i));
                    assert(rest@.skip(i + 1) =~= v@.subrange(start + i + 1, n as int));
                    assert(out@.map_values(|w: &str| w@) =~= before.push(w@));
                    assert(before.push(w@) + spec_split_char(rest@.skip(i + 1), c) =~= before + (
                    seq![w@] + spec_split_char(rest@.skip(i + 1), c)));
                }
                start = start + i + 1;
            },
            None => {
                let w = s.substring_char(start, n);
                out.push(w);
                proof {
                    assert(out@.map_values(|w: &str| w@) =~= before.push(w@));
                    assert(before + seq![w@] =~= before.push(w@));
                }
                break;
            },
        }
    }
    out
}

/// The end of the word of `s` that starts at `i`: the first whitespace at
/// or after `i`, or the end of `s`.
pub open spec fn spec_word_end(s: Seq<char>, i: int) -> int
    decreases s.len() - i,
{
    if i < 0 || i >= s.len() || spec_is_whitespace(s[i]) {
        if i < 0 { 0 } else if i > s.len() { s.len() as int } else { i }
    } else {
        spec_word_end(s, i + 1)
    }
}

proof fn lemma_word_end(s: Seq<char>, i: int)
    requires
        0 <= i <= s.len(),
    ensures
        i <= spec_word_end(s, i) <= s.len(),
        spec_word_end(s, i) < s.len() ==> spec_is_whitespace(s[spec_word_end(s, i)]),
    decreases s.len() - i,
{
    if i < s.len() && !spec_is_whitespace(s[i]) {
        lemma_word_end(s, i + 1);
    }
}

/// The words of `s` from position `i` on, as `str::split_whitespace` finds
/// them: the maximal runs of characters that are not whitespace.
pub open spec fn spec_words_from(s: Seq<char>, i: int) -> Seq<Seq<char>>
    decreases s.len() - i,
{
    if i < 0 || i >= s.len() {
        Seq::empty()
    } else if spec_is_whitespace(s[i]) {
        spec_words_from(s, i + 1)
    } else {
        let j = spec_word_end(s, i);
        if i < j <= s.len() {
            seq![s.subrange(i, j)] + spec_words_from(s, j)
        } else {
            Seq::empty()
        }
    }
}

/// The words of `s`, as `str::split_whitespace` finds them.
pub open spec fn spec_words(s: Seq<char>) -> Seq<Seq<char>> {
    spec_words_from(s, 0)
}

/// The words of `v`, as `str::split_whitespace` finds them.
pub fn split_whitespace(v: &Vec<char>) -> (r: Vec<Vec<char>>)
    ensures
        r@.map_values(|w: Vec<char>| w@) == spec_words(v@),
{
    let n = v.len();
    let mut out: Vec<Vec<char>> = Vec::new();
    let mut i: usize = 0;
    while i < n
        invariant
            n == v@.len(),
            i <= n,
            out@.map_values(|w: Vec<char>| w@) + spec_words_from(v@, i as int) == spec_words_from(
                v@,
                0,
            ),
        decreases n - i,
    {
        let ghost before = out@.map_values(|w: Vec<char>| w@);
        if is_whitespace(v[i]) {
            i = i + 1;
        } else {
            proof {
                lemma_word_end(v@, i as int);
                lemma_word_end(v@, i + 1);
            }
            let mut j = i + 1;
            while j < n && !is_whitespace(v[j])
                invariant
                    n == v@.len(),
                    i < j <= n,
                    spec_word_end(v@, j as int) == spec_word_end(v@, i as int),
                decreases n - j,
            {
                j = j + 1;
            }
            let w = sub_chars(v.as_slice(), i, j);
            out.push(w);
            proof {
                assert(out@.map_values(|w: Vec<char>| w@) =~= before.push(w@));
                assert(before.push(w@) + spec_words_from(v@, j as int) =~= before + (seq![w@]
                    + spec_words_from(v@, j as int)));
            }
            i = j;
        }
    }
    proof {
        assert(out@.map_values(|w: Vec<char>| w@) + Seq::<Seq<char>>::empty() =~= out@.map_values(
            |w: Vec<char>| w@,
        ));
    }
    out
}

} // verus!
