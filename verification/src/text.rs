//! Text: whitespace, trimming, joining and decimal numbers.

use vstd::prelude::*;

verus! {

/// The characters with the Unicode property `White_Space`.
pub open spec fn white_space(c: char) -> bool {
    ||| '\u{9}' <= c <= '\u{d}'
    ||| c == '\u{20}'
    ||| c == '\u{85}'
    ||| c == '\u{a0}'
    ||| c == '\u{1680}'
    ||| '\u{2000}' <= c <= '\u{200a}'
    ||| c == '\u{2028}'
    ||| c == '\u{2029}'
    ||| c == '\u{202f}'
    ||| c == '\u{205f}'
    ||| c == '\u{3000}'
}

/// `s` without its leading whitespace.
pub open spec fn trimmed_start(s: Seq<char>) -> Seq<char>
    decreases s.len(),
{
    if s.len() > 0 && white_space(s.first()) {
        trimmed_start(s.drop_first())
    } else {
        s
    }
}

/// `s` without its trailing whitespace.
pub open spec fn trimmed_end(s: Seq<char>) -> Seq<char>
    decreases s.len(),
{
    if s.len() > 0 && white_space(s.last()) {
        trimmed_end(s.drop_last())
    } else {
        s
    }
}

/// `s` without its leading and trailing whitespace.
pub open spec fn trimmed(s: Seq<char>) -> Seq<char> {
    trimmed_end(trimmed_start(s))
}

/// Whether `s` holds nothing but whitespace.
pub open spec fn blank(s: Seq<char>) -> bool {
    forall|i: int| 0 <= i < s.len() ==> white_space(#[trigger] s[i])
}

/// Whether `s` neither starts nor ends with whitespace.
pub open spec fn tight(s: Seq<char>) -> bool {
    s.len() > 0 ==> !white_space(s.first()) && !white_space(s.last())
}

/// The decimal digits of `n`, without leading zeros.
pub open spec fn decimal(n: nat) -> Seq<char>
    decreases n,
{
    if n < 10 {
        seq![decimal_digit(n)]
    } else {
        decimal(n / 10).push(decimal_digit(n % 10))
    }
}

/// The character of one decimal digit.
pub open spec fn decimal_digit(d: nat) -> char {
    (d + '0' as nat) as char
}

/// The text that an optional string holds.
pub open spec fn text_of(text: Option<String>) -> Option<Seq<char>> {
    match text {
        Some(text) => Some(text@),
        None => None,
    }
}

proof fn lemma_trimmed_start_is_suffix(s: Seq<char>, i: int)
    requires
        0 <= i <= s.len(),
        forall|k: int| 0 <= k < i ==> white_space(#[trigger] s[k]),
        i < s.len() ==> !white_space(s[i]),
    ensures
        trimmed_start(s) == s.skip(i),
    decreases i,
{
    if i > 0 {
        let rest = s.drop_first();
        assert(forall|k: int| 0 <= k < i - 1 ==> rest[k] == #[trigger] s[k + 1]);
        assert(white_space(s[0]));
        lemma_trimmed_start_is_suffix(rest, i - 1);
        assert(rest.skip(i - 1) =~= s.skip(i));
    } else {
        assert(s.skip(0) =~= s);
    }
}

proof fn lemma_trimmed_end_is_prefix(s: Seq<char>, j: int)
    requires
        0 <= j <= s.len(),
        forall|k: int| j <= k < s.len() ==> white_space(#[trigger] s[k]),
        j > 0 ==> !white_space(s[j - 1]),
    ensures
        trimmed_end(s) == s.take(j),
    decreases s.len() - j,
{
    if j < s.len() {
        let rest = s.drop_last();
        assert(white_space(s[s.len() - 1]));
        lemma_trimmed_end_is_prefix(rest, j);
        assert(rest.take(j) =~= s.take(j));
    } else {
        assert(s.take(j) =~= s);
    }
}

/// Where the whitespace at both ends of a text stops: `trimmed` is what lies between.
proof fn lemma_trimmed_is_subrange(s: Seq<char>, i: int, j: int)
    requires
        0 <= i <= j <= s.len(),
        forall|k: int| 0 <= k < i ==> white_space(#[trigger] s[k]),
        forall|k: int| j <= k < s.len() ==> white_space(#[trigger] s[k]),
        i < j ==> !white_space(s[i]) && !white_space(s[j - 1]),
        i == j ==> i == s.len(),
    ensures
        trimmed(s) == s.subrange(i, j),
{
    lemma_trimmed_start_is_suffix(s, i);
    let rest = s.skip(i);
    assert(forall|k: int| 0 <= k < rest.len() ==> rest[k] == #[trigger] s[k + i]);
    assert forall|k: int| j - i <= k < rest.len() implies white_space(#[trigger] rest[k]) by {
        assert(white_space(s[k + i]));
    }
    lemma_trimmed_end_is_prefix(rest, j - i);
    assert(rest.take(j - i) =~= s.subrange(i, j));
}

proof fn lemma_trimmed_start_shape(s: Seq<char>) -> (i: int)
    ensures
        0 <= i <= s.len(),
        forall|k: int| 0 <= k < i ==> white_space(#[trigger] s[k]),
        i < s.len() ==> !white_space(s[i]),
    decreases s.len(),
{
    if s.len() > 0 && white_space(s.first()) {
        let rest = s.drop_first();
        let i = lemma_trimmed_start_shape(rest);
        assert forall|k: int| 0 <= k < i + 1 implies white_space(#[trigger] s[k]) by {
            if k > 0 {
                assert(white_space(rest[k - 1]));
            }
        }
        i + 1
    } else {
        0
    }
}

proof fn lemma_trimmed_end_shape(s: Seq<char>, i: int) -> (j: int)
    requires
        0 <= i <= s.len(),
        i < s.len() ==> !white_space(s[i]),
    ensures
        i <= j <= s.len(),
        forall|k: int| j <= k < s.len() ==> white_space(#[trigger] s[k]),
        i < j ==> !white_space(s[j - 1]),
        i == j ==> i == s.len(),
    decreases s.len(),
{
    if i < s.len() && white_space(s.last()) {
        let rest = s.drop_last();
        let j = lemma_trimmed_end_shape(rest, i);
        assert(i < s.len() - 1);
        assert forall|k: int| j <= k < s.len() implies white_space(#[trigger] s[k]) by {
            if k < s.len() - 1 {
                assert(white_space(rest[k]));
            }
        }
        j
    } else {
        s.len() as int
    }
}

/// Trimming leaves no whitespace at either end.
pub proof fn trimmed_is_tight(s: Seq<char>)
    ensures
        tight(trimmed(s)),
{
    let i = lemma_trimmed_start_shape(s);
    let j = lemma_trimmed_end_shape(s, i);
    lemma_trimmed_is_subrange(s, i, j);
}

/// A text without whitespace at either end is left as it is by trimming.
pub proof fn trimmed_keeps_tight(s: Seq<char>)
    requires
        tight(s),
    ensures
        trimmed(s) == s,
{
}

/// Trimming leaves nothing exactly when there was nothing but whitespace.
pub proof fn trimmed_is_empty_iff_blank(s: Seq<char>)
    ensures
        trimmed(s).len() == 0 <==> blank(s),
{
    let i = lemma_trimmed_start_shape(s);
    let j = lemma_trimmed_end_shape(s, i);
    lemma_trimmed_is_subrange(s, i, j);
    if i < j {
        assert(!white_space(s[i]));
    }
}

/// Whether `c` is whitespace.
pub fn is_white_space(c: char) -> (r: bool)
    ensures
        r == white_space(c),
{
    ('\u{9}' <= c && c <= '\u{d}') || c == '\u{20}' || c == '\u{85}' || c == '\u{a0}' || c
        == '\u{1680}' || ('\u{2000}' <= c && c <= '\u{200a}') || c == '\u{2028}' || c == '\u{2029}'
        || c == '\u{202f}' || c == '\u{205f}' || c == '\u{3000}'
}

/// The characters of `s`, in order.
pub fn characters(s: &str) -> (r: Vec<char>)
    ensures
        r@ == s@,
{
    let mut chars: Vec<char> = Vec::new();
    for c in it: s.chars()
        invariant
            chars@ == s@.take(it.index()),
            it.seq() == s@,
    {
        assert(s@.take(it.index() as int + 1) =~= s@.take(it.index() as int).push(c));
        chars.push(c);
    }
    assert(s@.take(s@.len() as int) =~= s@);
    chars
}

/// `s` without its leading and trailing whitespace.
pub fn trim(s: &str) -> (r: &str)
    ensures
        r@ == trimmed(s@),
{
    let chars = characters(s);
    let mut i: usize = 0;
    while i < chars.len() && is_white_space(chars[i])
        invariant
            i <= chars.len(),
            forall|k: int| 0 <= k < i ==> white_space(#[trigger] chars@[k]),
        decreases chars.len() - i,
    {
        i += 1;
    }
    let mut j: usize = chars.len();
    while j > i && is_white_space(chars[j - 1])
        invariant
            i <= j <= chars.len(),
            i < chars.len() ==> !white_space(chars@[i as int]),
            forall|k: int| j <= k < chars.len() ==> white_space(#[trigger] chars@[k]),
        decreases j,
    {
        j -= 1;
    }
    proof {
        lemma_trimmed_is_subrange(s@, i as int, j as int);
    }
    s.substring_char(i, j)
}

/// Whether the two texts hold the same characters.
pub fn same_text(a: &str, b: &str) -> (r: bool)
    ensures
        r == (a@ == b@),
{
    let a = a.to_owned();
    let b = b.to_owned();
    a == b
}

/// `head` followed by `tail`.
pub fn concat(head: &str, tail: &str) -> (r: String)
    ensures
        r@ == head@ + tail@,
{
    let mut text = head.to_owned();
    text.append(tail);
    text
}

/// `n` in decimal.
pub fn decimal_text(n: u64) -> (r: String)
    ensures
        r@ == decimal(n as nat),
    decreases n,
{
    let digit = digit_text(n % 10);
    if n < 10 {
        digit
    } else {
        let mut text = decimal_text(n / 10);
        text.append(digit.as_str());
        assert(text@ =~= decimal(n as nat));
        text
    }
}

fn digit_text(d: u64) -> (r: String)
    requires
        d < 10,
    ensures
        r@ == seq![decimal_digit(d as nat)],
{
    let digits = "0123456789";
    proof {
        reveal_strlit("0123456789");
    }
    let i: usize = d as usize;
    let digit = digits.substring_char(i, i + 1).to_owned();
    assert(digit@ =~= seq![decimal_digit(d as nat)]);
    digit
}

/// Whitespace, by its code points.
pub proof fn white_space_by_code_point(c: char)
    ensures
        white_space(c) <==> ({
            let code = c as int;
            ||| 9 <= code <= 13
            ||| code == 32
            ||| code == 133
            ||| code == 160
            ||| code == 5760
            ||| 8192 <= code <= 8202
            ||| code == 8232
            ||| code == 8233
            ||| code == 8239
            ||| code == 8287
            ||| code == 12288
        }),
{
}

/// Nothing is blank, one character is blank exactly when it is whitespace, and two texts are blank
/// together exactly when each is.
pub proof fn blank_texts_join(a: Seq<char>, b: Seq<char>, c: char)
    ensures
        blank(Seq::empty()),
        blank(seq![c]) <==> white_space(c),
        blank(a + b) <==> blank(a) && blank(b),
{
    assert(seq![c][0] == c);
    if blank(a + b) {
        assert forall|i: int| 0 <= i < a.len() implies white_space(#[trigger] a[i]) by {
            assert((a + b)[i] == a[i]);
        }
        assert forall|i: int| 0 <= i < b.len() implies white_space(#[trigger] b[i]) by {
            assert((a + b)[i + a.len()] == b[i]);
        }
    }
    if blank(a) && blank(b) {
        assert forall|i: int| 0 <= i < (a + b).len() implies white_space(#[trigger] (a + b)[i]) by {
            if i < a.len() {
                assert((a + b)[i] == a[i]);
            } else {
                assert((a + b)[i] == b[i - a.len()]);
            }
        }
    }
}

/// Trimming takes whitespace off the two ends, and nothing else: what is left is one piece of the
/// text, all before and after it is whitespace, and it neither starts nor ends with any.
pub proof fn trimming_takes_only_outer_whitespace(s: Seq<char>)
    ensures
        exists|i: int, j: int|
            #![trigger s.subrange(i, j)]
            0 <= i <= j <= s.len() && trimmed(s) == s.subrange(i, j) && (forall|k: int|
                0 <= k < i || j <= k < s.len() ==> white_space(#[trigger] s[k])),
        trimmed(s).len() > 0 ==> !white_space(trimmed(s)[0]) && !white_space(
            trimmed(s)[trimmed(s).len() - 1],
        ),
{
    let i = lemma_trimmed_start_shape(s);
    let j = lemma_trimmed_end_shape(s, i);
    lemma_trimmed_is_subrange(s, i, j);
    assert(trimmed(s) == s.subrange(i, j));
}

/// Numbers below ten are one digit, and a digit is added at the end of a number by ten times the
/// number and the digit.
pub proof fn decimals_grow_by_digits(n: nat, d: nat)
    requires
        d < 10,
    ensures
        decimal(d).len() == 1,
        decimal(d)[0] as int == 48 + d,
        n > 0 ==> decimal(10 * n + d) == decimal(n) + decimal(d),
{
    if n > 0 {
        assert((10 * n + d) / 10 == n && (10 * n + d) % 10 == d);
        assert(decimal(10 * n + d) =~= decimal(n) + decimal(d));
    }
}

/// An optional string holds a text exactly when it is there, and then its own.
pub proof fn optional_texts_are_their_own(text: String)
    ensures
        text_of(Some(text)) == Some(text@),
        text_of(None) is None,
{
}

} // verus!
