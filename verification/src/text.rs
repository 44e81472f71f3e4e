//! Text handling shared by the other modules: characters of a string,
//! whitespace, words, trimming, splitting on a separator, decimal numbers.

use vstd::prelude::*;
use vstd::std_specs::iter::IteratorSpec;
use vstd::string::StrSliceExecFns;
use vstd::string::StringExecFns;

verus! {

/// Whether `c` has the Unicode property `White_Space`: one of the twenty-five
/// code points U+0009 to U+000D, U+0020, U+0085, U+00A0, U+1680, U+2000 to
/// U+200A, U+2028, U+2029, U+202F, U+205F and U+3000.
pub open spec fn white_space(c: char) -> bool {
    let n = c as u32;
    ||| 0x09 <= n && n <= 0x0D
    ||| n == 0x20
    ||| n == 0x85
    ||| n == 0xA0
    ||| n == 0x1680
    ||| 0x2000 <= n && n <= 0x200A
    ||| n == 0x2028
    ||| n == 0x2029
    ||| n == 0x202F
    ||| n == 0x205F
    ||| n == 0x3000
}

/// The lower-case form of a text, as Unicode defines it.
pub uninterp spec fn lowercase(s: Seq<char>) -> Seq<char>;

/// Trusted: `char::is_whitespace` of std, which tells whether a character has
/// the Unicode property `White_Space`.
#[verifier::external_body]
pub(crate) fn is_whitespace(c: char) -> (b: bool)
    ensures
        b == white_space(c),
{
    c.is_whitespace()
}

/// Trusted: `str::to_lowercase` of std, which maps a text to its lower-case
/// form. The result depends on the text alone.
#[verifier::external_body]
pub(crate) fn to_lowercase(s: &str) -> (r: String)
    ensures
        r@ == lowercase(s@),
{
    s.to_lowercase()
}

/// The characters of `s`, in order.
pub fn chars_of(s: &str) -> (v: Vec<char>)
    ensures
        v@ == s@,
{
    broadcast use vstd::string::group_string_axioms;

    let mut v: Vec<char> = Vec::new();
    for c in it: s.chars()
        invariant
            it.seq() == s@,
            v@ == s@.take(it.index()),
    {
        v.push(c);
    }
    v
}

/// Whether two texts hold the same characters.
pub fn same_text(a: &str, b: &str) -> (r: bool)
    ensures
        r == (a@ == b@),
{
    let x = a.to_owned();
    let y = b.to_owned();
    x == y
}

/// The number of words in `s`: a word is a longest run of characters that are
/// not whitespace. Counted by the places where a word begins.
pub open spec fn word_count(s: Seq<char>) -> nat
    decreases s.len(),
{
    if s.len() == 0 {
        0
    } else {
        let before = word_count(s.drop_last());
        if starts_word(s, s.len() - 1) {
            before + 1
        } else {
            before
        }
    }
}

/// Whether a word begins at index `i` of `s`.
pub open spec fn starts_word(s: Seq<char>, i: int) -> bool {
    &&& 0 <= i < s.len()
    &&& !white_space(s[i])
    &&& (i == 0 || white_space(s[i - 1]))
}

/// Counts the words of `s`.
pub fn count_words(s: &str) -> (n: usize)
    ensures
        n == word_count(s@),
{
    let chars = chars_of(s);
    let mut n: usize = 0;
    let mut after_space = true;
    let mut i: usize = 0;
    while i < chars.len()
        invariant
            chars@ == s@,
            i <= chars.len(),
            n <= i,
            n == word_count(s@.take(i as int)),
            after_space == (i == 0 || white_space(s@[i - 1])),
        decreases chars.len() - i,
    {
        let space = is_whitespace(chars[i]);
        proof {
            let next = s@.take(i + 1);
            assert(next.drop_last() == s@.take(i as int));
            assert(starts_word(next, i as int) == (!space && after_space));
        }
        if !space && after_space {
            n = n + 1;
        }
        after_space = space;
        i = i + 1;
    }
    proof {
        assert(s@.take(i as int) == s@);
    }
    n
}

/// `s` without the whitespace at its two ends.
pub open spec fn trimmed(s: Seq<char>) -> Seq<char>
    decreases s.len(),
{
    if s.len() > 0 && white_space(s[0]) {
        trimmed(s.drop_first())
    } else if s.len() > 0 && white_space(s.last()) {
        trimmed(s.drop_last())
    } else {
        s
    }
}

/// Whitespace at the start of a text begins no word.
pub proof fn lemma_word_count_skips_leading_space(s: Seq<char>)
    requires
        s.len() > 0,
        white_space(s[0]),
    ensures
        word_count(s.drop_first()) == word_count(s),
    decreases s.len(),
{
    let n = s.len() as int;
    let rest = s.drop_first();
    assert(word_count(s) == word_count(s.drop_last()) + if starts_word(s, n - 1) {
        1nat
    } else {
        0nat
    });
    if n == 1 {
        assert(word_count(s.drop_last()) == 0);
        assert(word_count(rest) == 0);
    } else {
        lemma_word_count_skips_leading_space(s.drop_last());
        assert(s.drop_last().drop_first() == rest.drop_last());
        assert(rest[n - 2] == s[n - 1]);
        if n > 2 {
            assert(rest[n - 3] == s[n - 2]);
        }
        assert(starts_word(s, n - 1) == starts_word(rest, n - 2));
        assert(word_count(rest) == word_count(rest.drop_last()) + if starts_word(rest, n - 2) {
            1nat
        } else {
            0nat
        });
    }
}

/// Trimming a text neither adds a word nor takes one away.
pub proof fn lemma_trimmed_keeps_words(s: Seq<char>)
    ensures
        word_count(trimmed(s)) == word_count(s),
    decreases s.len(),
{
    if s.len() > 0 && white_space(s[0]) {
        lemma_word_count_skips_leading_space(s);
        lemma_trimmed_keeps_words(s.drop_first());
    } else if s.len() > 0 && white_space(s.last()) {
        lemma_trimmed_keeps_words(s.drop_last());
    }
}

/// The part of `s` between its leading and its trailing whitespace.
pub fn trim(s: &str) -> (r: &str)
    ensures
        r@ == trimmed(s@),
{
    let chars = chars_of(s);
    let n = chars.len();
    let mut a: usize = 0;
    proof {
        assert(s@.subrange(0, n as int) == s@);
    }
    while a < n && is_whitespace(chars[a])
        invariant
            chars@ == s@,
            n == chars.len(),
            a <= n,
            trimmed(s@) == trimmed(s@.subrange(a as int, n as int)),
        decreases n - a,
    {
        proof {
            assert(s@.subrange(a as int, n as int).drop_first() == s@.subrange(a + 1, n as int));
        }
        a = a + 1;
    }
    let mut b: usize = n;
    while b > a && is_whitespace(chars[b - 1])
        invariant
            chars@ == s@,
            n == chars.len(),
            a <= b <= n,
            a == n || !white_space(s@[a as int]),
            trimmed(s@) == trimmed(s@.subrange(a as int, b as int)),
        decreases b - a,
    {
        proof {
            assert(s@.subrange(a as int, b as int).drop_last() == s@.subrange(a as int, b - 1));
        }
        b = b - 1;
    }
    s.substring_char(a, b)
}

/// The pieces of `s` that lie between the occurrences of `sep`, in order. A
/// text without `sep` is one piece; two separators in a row enclose an empty
/// piece.
pub open spec fn split_on(s: Seq<char>, sep: char) -> Seq<Seq<char>>
    decreases s.len(),
{
    if s.len() == 0 {
        seq![Seq::<char>::empty()]
    } else {
        let before = split_on(s.drop_last(), sep);
        if s.last() == sep {
            before.push(Seq::<char>::empty())
        } else {
            before.drop_last().push(before.last().push(s.last()))
        }
    }
}

/// The pieces put together, with `sep` between one piece and the next.
pub open spec fn joined(pieces: Seq<Seq<char>>, sep: Seq<char>) -> Seq<char>
    decreases pieces.len(),
{
    if pieces.len() == 0 {
        Seq::<char>::empty()
    } else if pieces.len() == 1 {
        pieces[0]
    } else {
        joined(pieces.drop_last(), sep) + sep + pieces.last()
    }
}

/// What the pieces of a text are: there is at least one, none holds the
/// separator, and put together again with the separator between them they
/// give the text back.
pub proof fn lemma_split_on(s: Seq<char>, sep: char)
    ensures
        split_on(s, sep).len() >= 1,
        forall|i: int| 0 <= i < split_on(s, sep).len() ==> !(#[trigger] split_on(s, sep)[i]).contains(sep),
        joined(split_on(s, sep), seq![sep]) == s,
    decreases s.len(),
{
    if s.len() == 0 {
        assert(joined(split_on(s, sep), seq![sep]) == s);
    } else {
        let head = s.drop_last();
        let before = split_on(head, sep);
        lemma_split_on(head, sep);
        let now = split_on(s, sep);
        if s.last() == sep {
            assert(now.drop_last() == before);
            assert forall|i: int| 0 <= i < now.len() implies !(#[trigger] now[i]).contains(sep) by {
                if i < before.len() {
                    assert(now[i] == before[i]);
                }
            }
            assert(joined(now, seq![sep]) == head + seq![sep] + Seq::<char>::empty());
            assert(head + seq![sep] + Seq::<char>::empty() == s);
        } else {
            let grown = before.last().push(s.last());
            assert forall|i: int| 0 <= i < now.len() implies !(#[trigger] now[i]).contains(sep) by {
                if i < before.len() - 1 {
                    assert(now[i] == before[i]);
                } else {
                    assert(now[i] == grown);
                    assert(!before[before.len() - 1].contains(sep));
                    if grown.contains(sep) {
                        let k = choose|k: int| 0 <= k < grown.len() && grown[k] == sep;
                        if k < before.last().len() {
                            assert(before.last()[k] == sep);
                        }
                    }
                }
            }
            if before.len() == 1 {
                assert(before[0] == head);
                assert(joined(now, seq![sep]) == s);
            } else {
                assert(now.drop_last() == before.drop_last());
                assert(joined(before, seq![sep]) == joined(before.drop_last(), seq![sep]) + seq![sep]
                    + before.last());
                assert(joined(now, seq![sep]) == joined(before.drop_last(), seq![sep]) + seq![sep]
                    + grown);
                assert(joined(before.drop_last(), seq![sep]) + seq![sep] + grown == (joined(
                    before.drop_last(),
                    seq![sep],
                ) + seq![sep] + before.last()).push(s.last()));
                assert(head.push(s.last()) == s);
            }
        }
    }
}

/// Cuts `s` at every `sep` and trims each piece.
pub fn split_trimmed(s: &str, sep: char) -> (pieces: Vec<&str>)
    ensures
        pieces@.len() == split_on(s@, sep).len(),
        forall|i: int| 0 <= i < pieces@.len() ==> (#[trigger] pieces@[i])@ == trimmed(split_on(s@, sep)[i]),
{
    let chars = chars_of(s);
    let n = chars.len();
    let mut pieces: Vec<&str> = Vec::new();
    let mut start: usize = 0;
    let mut i: usize = 0;
    while i < n
        invariant
            chars@ == s@,
            n == chars.len(),
            start <= i <= n,
            pieces@.len() + 1 == split_on(s@.take(i as int), sep).len(),
            split_on(s@.take(i as int), sep).last() == s@.subrange(start as int, i as int),
            forall|k: int| 0 <= k < pieces@.len() ==> (#[trigger] pieces@[k])@ == trimmed(split_on(s@.take(i as int), sep)[k]),
        decreases n - i,
    {
        proof {
            assert(s@.take(i + 1).drop_last() == s@.take(i as int));
            assert(s@.subrange(start as int, i as int).push(s@[i as int]) == s@.subrange(
                start as int,
                i + 1,
            ));
        }
        if chars[i] == sep {
            let piece = s.substring_char(start, i);
            pieces.push(trim(piece));
            start = i + 1;
            proof {
                assert(s@.subrange(start as int, start as int) == Seq::<char>::empty());
            }
        }
        i = i + 1;
    }
    proof {
        assert(s@.take(n as int) == s@);
    }
    let piece = s.substring_char(start, n);
    pieces.push(trim(piece));
    pieces
}

/// `s` without the two characters `0x` at its start, where it has them.
pub open spec fn without_hex_prefix(s: Seq<char>) -> Seq<char> {
    if s.len() >= 2 && s[0] == '0' && s[1] == 'x' {
        s.skip(2)
    } else {
        s
    }
}

/// Removes a leading `0x`.
pub fn strip_hex_prefix(s: &str) -> (r: &str)
    ensures
        r@ == without_hex_prefix(s@),
{
    let n = s.unicode_len();
    if n >= 2 && s.get_char(0) == '0' && s.get_char(1) == 'x' {
        proof {
            assert(s@.subrange(2, n as int) == s@.skip(2));
        }
        s.substring_char(2, n)
    } else {
        s
    }
}

/// The character that stands for the digit `d`.
pub open spec fn digit_char(d: nat) -> char {
    if d == 0 {
        '0'
    } else if d == 1 {
        '1'
    } else if d == 2 {
        '2'
    } else if d == 3 {
        '3'
    } else if d == 4 {
        '4'
    } else if d == 5 {
        '5'
    } else if d == 6 {
        '6'
    } else if d == 7 {
        '7'
    } else if d == 8 {
        '8'
    } else {
        '9'
    }
}

/// `n` written in decimal, without leading zeros.
pub open spec fn decimal_text(n: nat) -> Seq<char>
    decreases n,
{
    if n < 10 {
        seq![digit_char(n)]
    } else {
        decimal_text(n / 10).push(digit_char(n % 10))
    }
}

fn digit_str(d: u64) -> (r: &'static str)
    requires
        d < 10,
    ensures
        r@ == seq![digit_char(d as nat)],
{
    proof {
        reveal_strlit("0");
        reveal_strlit("1");
        reveal_strlit("2");
        reveal_strlit("3");
        reveal_strlit("4");
        reveal_strlit("5");
        reveal_strlit("6");
        reveal_strlit("7");
        reveal_strlit("8");
        reveal_strlit("9");
    }
    let r = if d == 0 {
        "0"
    } else if d == 1 {
        "1"
    } else if d == 2 {
        "2"
    } else if d == 3 {
        "3"
    } else if d == 4 {
        "4"
    } else if d == 5 {
        "5"
    } else if d == 6 {
        "6"
    } else if d == 7 {
        "7"
    } else if d == 8 {
        "8"
    } else {
        "9"
    };
    assert(r@ =~= seq![digit_char(d as nat)]);
    r
}

/// Writes `n` in decimal.
pub fn decimal(n: u64) -> (r: String)
    ensures
        r@ == decimal_text(n as nat),
    decreases n,
{
    if n < 10 {
        String::from_str(digit_str(n))
    } else {
        let head = decimal(n / 10);
        let r = head.concat(digit_str(n % 10));
        assert(r@ =~= decimal_text(n as nat));
        r
    }
}

/// Whether `c` is a decimal digit.
pub open spec fn is_digit(c: char) -> bool {
    '0' <= c && c <= '9'
}

/// Whether every character of `s` is a decimal digit.
pub open spec fn is_decimal_text(s: Seq<char>) -> bool {
    forall|i: int| 0 <= i < s.len() ==> is_digit(#[trigger] s[i])
}

/// The number that the decimal digits `s` write; the empty text writes zero.
pub open spec fn decimal_value(s: Seq<char>) -> nat
    decreases s.len(),
{
    if s.len() == 0 {
        0
    } else {
        10 * decimal_value(s.drop_last()) + (s.last() as u32 - '0' as u32) as nat
    }
}

/// Whether `s` writes a number in decimal as [`decimal_text`] does: digits,
/// at least one, with no zero in front of another digit.
pub open spec fn is_canonical_decimal(s: Seq<char>) -> bool {
    &&& s.len() > 0
    &&& is_decimal_text(s)
    &&& s.len() > 1 ==> s[0] != '0'
}

/// A number written in decimal is canonical, and reads back as the number.
pub proof fn lemma_decimal_text_reads_back(n: nat)
    ensures
        is_canonical_decimal(decimal_text(n)),
        decimal_value(decimal_text(n)) == n,
    decreases n,
{
    let text = decimal_text(n);
    if n < 10 {
        assert(text.drop_last() =~= Seq::<char>::empty());
        assert(decimal_value(text.drop_last()) == 0);
    } else {
        let head = decimal_text(n / 10);
        lemma_decimal_text_reads_back(n / 10);
        assert(text.drop_last() =~= head);
        assert(text[0] == head[0]);
        if head.len() == 1 {
            assert(head.drop_last() =~= Seq::<char>::empty());
            assert(decimal_value(head.drop_last()) == 0);
        }
    }
}

/// The digits of a text write no smaller a number than the first of them do.
pub proof fn lemma_decimal_value_grows(s: Seq<char>, i: int)
    requires
        0 <= i <= s.len(),
    ensures
        decimal_value(s.take(i)) <= decimal_value(s),
    decreases s.len() - i,
{
    if i == s.len() {
        assert(s.take(i) =~= s);
    } else {
        lemma_decimal_value_grows(s.drop_last(), i);
        assert(s.drop_last().take(i) =~= s.take(i));
    }
}

/// A canonical text is how the number that it writes is written.
pub proof fn lemma_canonical_decimal_is_text(s: Seq<char>)
    requires
        is_canonical_decimal(s),
    ensures
        decimal_text(decimal_value(s)) == s,
    decreases s.len(),
{
    let head = s.drop_last();
    if s.len() == 1 {
        assert(head =~= Seq::<char>::empty());
        assert(decimal_value(head) == 0);
        assert(is_digit(s[0]));
        assert(decimal_text(decimal_value(s)) =~= s);
    } else {
        assert(head[0] == s[0]);
        assert(is_digit(s.last()));
        assert forall|i: int| 0 <= i < head.len() implies is_digit(#[trigger] head[i]) by {
            assert(head[i] == s[i]);
        }
        lemma_canonical_decimal_is_text(head);
        lemma_decimal_value_grows(head, 1);
        assert(head.take(1).drop_last() =~= Seq::<char>::empty());
        assert(decimal_value(head.take(1).drop_last()) == 0);
        assert(is_digit(head[0]));
        assert(decimal_value(head.take(1)) >= 1);
        let v = decimal_value(s);
        let d = (s.last() as u32 - '0' as u32) as nat;
        assert(v == 10 * decimal_value(head) + d);
        assert(v / 10 == decimal_value(head) && v % 10 == d);
        assert(decimal_text(v) =~= head.push(s.last()));
        assert(head.push(s.last()) =~= s);
    }
}

/// Reads a number written in decimal as [`decimal`] writes it: digits, at
/// least one, no zero in front of another digit, no more than 64 bits hold.
pub fn parse_decimal(s: &str) -> (r: Option<u64>)
    ensures
        match r {
            Some(n) => s@ == decimal_text(n as nat),
            None => forall|n: u64| s@ != decimal_text(n as nat),
        },
{
    let chars = chars_of(s);
    let len = chars.len();
    if len == 0 || (len > 1 && chars[0] == '0') {
        proof {
            assert forall|n: u64| s@ != decimal_text(n as nat) by {
                lemma_decimal_text_reads_back(n as nat);
            }
        }
        return None;
    }
    let mut value: u64 = 0;
    let mut i: usize = 0;
    proof {
        assert(s@.take(0) =~= Seq::<char>::empty());
    }
    while i < len
        invariant
            chars@ == s@,
            len == chars.len(),
            i <= len,
            value == decimal_value(s@.take(i as int)),
            forall|k: int| 0 <= k < i ==> is_digit(#[trigger] s@[k]),
        decreases len - i,
    {
        let c = chars[i];
        if !(c >= '0' && c <= '9') {
            proof {
                assert forall|n: u64| s@ != decimal_text(n as nat) by {
                    lemma_decimal_text_reads_back(n as nat);
                    if s@ == decimal_text(n as nat) {
                        assert(is_digit(s@[i as int]));
                    }
                }
            }
            return None;
        }
        let digit = (c as u32 - '0' as u32) as u64;
        proof {
            assert(s@.take(i + 1).drop_last() =~= s@.take(i as int));
            assert(decimal_value(s@.take(i + 1)) == 10 * value + digit);
        }
        let next = match value.checked_mul(10) {
            Some(tens) => tens.checked_add(digit),
            None => None,
        };
        match next {
            Some(next) => {
                value = next;
            },
            None => {
                proof {
                    lemma_decimal_value_grows(s@, i + 1);
                    assert forall|n: u64| s@ != decimal_text(n as nat) by {
                        lemma_decimal_text_reads_back(n as nat);
                    }
                }
                return None;
            },
        }
        i = i + 1;
    }
    proof {
        assert(s@.take(len as int) =~= s@);
        lemma_canonical_decimal_is_text(s@);
    }
    Some(value)
}

/// What is left of `s` behind `prefix`, where `s` begins with it.
pub open spec fn without_prefix(s: Seq<char>, prefix: Seq<char>) -> Option<Seq<char>> {
    if prefix.is_prefix_of(s) {
        Some(s.skip(prefix.len() as int))
    } else {
        None
    }
}

/// Removes `prefix` from the start of `s`, where `s` begins with it.
pub fn strip_prefix<'a>(s: &'a str, prefix: &str) -> (r: Option<&'a str>)
    ensures
        match without_prefix(s@, prefix@) {
            Some(rest) => r matches Some(t) && t@ == rest,
            None => r is None,
        },
{
    let whole = chars_of(s);
    let start = chars_of(prefix);
    if start.len() > whole.len() {
        return None;
    }
    let mut i: usize = 0;
    while i < start.len()
        invariant
            whole@ == s@,
            start@ == prefix@,
            start.len() <= whole.len(),
            i <= start.len(),
            forall|k: int| 0 <= k < i ==> s@[k] == prefix@[k],
        decreases start.len() - i,
    {
        if whole[i] != start[i] {
            proof {
                if prefix@.is_prefix_of(s@) {
                    assert(s@.subrange(0, prefix@.len() as int)[i as int] == prefix@[i as int]);
                }
            }
            return None;
        }
        i = i + 1;
    }
    proof {
        assert(prefix@ =~= s@.subrange(0, prefix@.len() as int));
        assert(s@.subrange(start.len() as int, whole.len() as int) =~= s@.skip(prefix@.len() as int));
    }
    Some(s.substring_char(start.len(), whole.len()))
}

/// Appends `tail` to `head`.
pub fn join_text(head: &str, tail: &str) -> (r: String)
    ensures
        r@ == head@ + tail@,
{
    String::from_str(head).concat(tail)
}

} // verus!
