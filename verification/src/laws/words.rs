//! Texts: white space, words, parts, lines and numerals.

use crate::number;
use crate::text;
use vstd::prelude::*;

verus! {

/// Blanks, tabs and line ends are white space; no other character of plain English text is.
pub proof fn law_white_space(c: char)
    ensures
        text::is_space(' '),
        text::is_space('\t'),
        text::is_space('\n'),
        text::is_space('\r'),
        '!' <= c <= '~' ==> !text::is_space(c),
{
}

proof fn lemma_trimmed_start(s: Seq<char>)
    ensures
        exists|i: int|
            0 <= i <= s.len() && text::trimmed_start(s) == #[trigger] s.skip(i) && (forall|k: int|
                0 <= k < i ==> text::is_space(#[trigger] s[k])) && (i < s.len()
                ==> !text::is_space(s[i])),
    decreases s.len(),
{
    if s.len() > 0 && text::is_space(s[0]) {
        let t = s.skip(1);
        lemma_trimmed_start(t);
        let i = choose|i: int|
            0 <= i <= t.len() && text::trimmed_start(t) == #[trigger] t.skip(i) && (forall|k: int|
                0 <= k < i ==> text::is_space(#[trigger] t[k])) && (i < t.len()
                ==> !text::is_space(t[i]));
        assert(t.skip(i) =~= s.skip(i + 1));
        assert forall|k: int| 0 <= k < i + 1 implies text::is_space(#[trigger] s[k]) by {
            if k > 0 {
                assert(t[k - 1] == s[k]);
            }
        }
    } else {
        assert(s.skip(0) =~= s);
    }
}

proof fn lemma_trimmed_end(s: Seq<char>)
    ensures
        exists|j: int|
            0 <= j <= s.len() && text::trimmed_end(s) == #[trigger] s.take(j) && (forall|k: int|
                j <= k < s.len() ==> text::is_space(#[trigger] s[k])) && (j > 0 ==> !text::is_space(
                s[j - 1],
            )),
    decreases s.len(),
{
    if s.len() > 0 && text::is_space(s.last()) {
        let t = s.drop_last();
        lemma_trimmed_end(t);
        let j = choose|j: int|
            0 <= j <= t.len() && text::trimmed_end(t) == #[trigger] t.take(j) && (forall|k: int|
                j <= k < t.len() ==> text::is_space(#[trigger] t[k])) && (j > 0 ==> !text::is_space(
                t[j - 1],
            ));
        assert(t.take(j) =~= s.take(j));
        assert forall|k: int| j <= k < s.len() implies text::is_space(#[trigger] s[k]) by {
            if k < t.len() {
                assert(t[k] == s[k]);
            }
        }
    } else {
        assert(s.take(s.len() as int) =~= s);
    }
}

/// Trimming takes away white space at both ends, all of it, and nothing else.
pub proof fn law_trim(s: Seq<char>)
    ensures
        ({
            let t = text::trimmed(s);
            &&& t.len() > 0 ==> !text::is_space(t[0]) && !text::is_space(t.last())
            &&& exists|i: int, j: int|
                0 <= i <= j <= s.len() && t == #[trigger] s.subrange(i, j) && (forall|k: int|
                    (0 <= k < i || j <= k < s.len()) ==> text::is_space(#[trigger] s[k]))
        }),
{
    lemma_trimmed_start(s);
    let i = choose|i: int|
        0 <= i <= s.len() && text::trimmed_start(s) == #[trigger] s.skip(i) && (forall|k: int|
            0 <= k < i ==> text::is_space(#[trigger] s[k])) && (i < s.len() ==> !text::is_space(
            s[i],
        ));
    let t = s.skip(i);
    lemma_trimmed_end(t);
    let j = choose|j: int|
        0 <= j <= t.len() && text::trimmed_end(t) == #[trigger] t.take(j) && (forall|k: int|
            j <= k < t.len() ==> text::is_space(#[trigger] t[k])) && (j > 0 ==> !text::is_space(
            t[j - 1],
        ));
    assert(t.take(j) =~= s.subrange(i, i + j));
    assert forall|k: int| (0 <= k < i || i + j <= k < s.len()) implies text::is_space(
        #[trigger] s[k],
    ) by {
        if k >= i {
            assert(t[k - i] == s[k]);
        }
    }
}

/// A text that neither starts nor ends with white space is left as it is, also behind a blank.
pub proof fn law_trim_keeps(s: Seq<char>)
    requires
        s.len() > 0 ==> !text::is_space(s[0]) && !text::is_space(s.last()),
    ensures
        text::trimmed(s) == s,
        text::trimmed(seq![' '] + s) == s,
{
    let b = seq![' '] + s;
    assert(b.skip(1) =~= s);
    assert(b[0] == ' ');
    assert(text::trimmed_start(b) == text::trimmed_start(s));
}

/// Whether a text can be a word.
pub open spec fn is_word(w: Seq<char>) -> bool {
    w.len() > 0 && forall|i: int| 0 <= i < w.len() ==> !text::is_space(#[trigger] w[i])
}

/// Words with a blank between them.
pub open spec fn spaced(words: Seq<Seq<char>>) -> Seq<char>
    decreases words.len(),
{
    if words.len() == 0 {
        seq![]
    } else if words.len() == 1 {
        words[0]
    } else {
        words[0] + seq![' '] + spaced(words.skip(1))
    }
}

proof fn lemma_word_len(w: Seq<char>, rest: Seq<char>)
    requires
        forall|i: int| 0 <= i < w.len() ==> !text::is_space(#[trigger] w[i]),
        rest.len() > 0 ==> text::is_space(rest[0]),
    ensures
        text::word_len(w + rest) == w.len(),
    decreases w.len(),
{
    if w.len() > 0 {
        let v = w.skip(1);
        assert forall|i: int| 0 <= i < v.len() implies !text::is_space(#[trigger] v[i]) by {
            assert(v[i] == w[i + 1]);
        }
        lemma_word_len(v, rest);
        assert((w + rest).skip(1) =~= v + rest);
        assert((w + rest)[0] == w[0]);
    } else {
        assert(w + rest =~= rest);
    }
}

/// The words of a line that was typed with blanks between them are the words that were typed.
pub proof fn law_typed_words(words: Seq<Seq<char>>)
    requires
        forall|i: int| 0 <= i < words.len() ==> is_word(#[trigger] words[i]),
    ensures
        text::words_of(spaced(words)) == words,
    decreases words.len(),
{
    reveal_with_fuel(text::words_of, 2);
    if words.len() == 0 {
        assert(text::words_of(spaced(words)) =~= words);
    } else {
        let w = words[0];
        let rest = words.skip(1);
        assert(is_word(w));
        assert forall|i: int| 0 <= i < rest.len() implies is_word(#[trigger] rest[i]) by {
            assert(rest[i] == words[i + 1]);
        }
        law_typed_words(rest);
        let line = spaced(words);
        let tail = if words.len() == 1 {
            Seq::<char>::empty()
        } else {
            seq![' '] + spaced(rest)
        };
        assert(line =~= w + tail);
        lemma_word_len(w, tail);
        assert(line[0] == w[0]);
        assert(text::trimmed_start(line) == line);
        assert(line.take(w.len() as int) =~= w);
        assert(line.skip(w.len() as int) =~= tail);
        if words.len() == 1 {
            assert(text::words_of(tail) =~= seq![]);
        } else {
            assert(tail.skip(1) =~= spaced(rest));
            assert(text::trimmed_start(tail) == text::trimmed_start(spaced(rest)));
            assert(text::words_of(tail) == text::words_of(spaced(rest)));
        }
        assert(words =~= seq![w] + rest);
    }
}

/// Every word is a word, whatever the line is.
pub proof fn law_words_are_words(s: Seq<char>)
    ensures
        forall|i: int| 0 <= i < text::words_of(s).len() ==> is_word(#[trigger] text::words_of(s)[i]),
    decreases s.len(),
{
    let t = text::trimmed_start(s);
    text::lemma_trimmed_start(s);
    lemma_trimmed_start(s);
    if t.len() > 0 {
        text::lemma_word_len(t);
        let n = text::word_len(t) as int;
        lemma_word_chars(t);
        law_words_are_words(t.skip(n));
        let all = text::words_of(s);
        assert(all == seq![t.take(n)] + text::words_of(t.skip(n)));
        assert forall|i: int| 0 <= i < all.len() implies is_word(#[trigger] all[i]) by {
            if i > 0 {
                assert(all[i] == text::words_of(t.skip(n))[i - 1]);
            }
        }
    }
}

proof fn lemma_word_chars(t: Seq<char>)
    ensures
        text::word_len(t) <= t.len(),
        forall|i: int| 0 <= i < text::word_len(t) ==> !text::is_space(#[trigger] t[i]),
        t.len() > 0 && !text::is_space(t[0]) ==> text::word_len(t) > 0,
    decreases t.len(),
{
    if t.len() > 0 && !text::is_space(t[0]) {
        let u = t.skip(1);
        lemma_word_chars(u);
        assert forall|i: int| 0 <= i < text::word_len(t) implies !text::is_space(#[trigger] t[i]) by {
            if i > 0 {
                assert(u[i - 1] == t[i]);
            }
        }
    }
}

/// Texts with a separator between them.
pub open spec fn rejoined(parts: Seq<Seq<char>>, sep: char) -> Seq<char>
    decreases parts.len(),
{
    if parts.len() == 0 {
        seq![]
    } else if parts.len() == 1 {
        parts[0]
    } else {
        parts[0] + seq![sep] + rejoined(parts.skip(1), sep)
    }
}

/// The parts of a text hold no separator, and with the separators between them they make the text.
pub proof fn law_parts_rejoin(s: Seq<char>, sep: char)
    ensures
        rejoined(text::parts_of(s, sep), sep) == s,
        text::parts_of(s, sep).len() > 0,
        forall|i: int|
            0 <= i < text::parts_of(s, sep).len() ==> !(#[trigger] text::parts_of(s, sep)[i]).contains(
                sep,
            ),
    decreases s.len(),
{
    text::lemma_find_char(s, sep);
    let n = text::find_char(s, sep) as int;
    let all = text::parts_of(s, sep);
    if n < s.len() {
        let rest = s.skip(n + 1);
        law_parts_rejoin(rest, sep);
        assert(all.skip(1) =~= text::parts_of(rest, sep));
        assert(s =~= s.take(n) + seq![sep] + rest);
        assert forall|i: int| 0 <= i < all.len() implies !(#[trigger] all[i]).contains(sep) by {
            if i > 0 {
                assert(all[i] == text::parts_of(rest, sep)[i - 1]);
            }
        }
    }
}

/// Where the first separator stands.
pub proof fn lemma_first_at(a: Seq<char>, sep: char, b: Seq<char>)
    requires
        !a.contains(sep),
    ensures
        text::find_char(a + seq![sep] + b, sep) == a.len(),
{
    let s = a + seq![sep] + b;
    text::lemma_find_char(s, sep);
    let n = text::find_char(s, sep) as int;
    assert(s[a.len() as int] == sep);
    if n < a.len() {
        assert(a[n] == s[n]);
        assert(a.contains(a[n]));
    }
}

/// A text without a separator is its own only part; one with a separator has the parts of both
/// sides.
pub proof fn lemma_parts(a: Seq<char>, sep: char, b: Seq<char>)
    requires
        !a.contains(sep),
    ensures
        text::parts_of(a, sep) == seq![a],
        text::parts_of(a + seq![sep] + b, sep) == seq![a] + text::parts_of(b, sep),
{
    lemma_first_at(a, sep, b);
    text::lemma_find_char(a, sep);
    if text::find_char(a, sep) < a.len() {
        assert(a.contains(a[text::find_char(a, sep) as int]));
    }
    let s = a + seq![sep] + b;
    assert(s.take(a.len() as int) =~= a);
    assert(s.skip(a.len() as int + 1) =~= b);
}

/// The line that ends at the first line feed, without the carriage return before it, comes first.
pub proof fn law_first_line(line: Seq<char>, rest: Seq<char>)
    requires
        !line.contains('\n'),
    ensures
        line.len() > 0 ==> text::lines_of(line) == seq![line],
        (line.len() > 0 ==> line.last() != '\r') ==> {
            &&& text::lines_of(line + seq!['\n'] + rest) == seq![line] + text::lines_of(rest)
            &&& text::lines_of(line + seq!['\r'] + seq!['\n'] + rest) == seq![line]
                + text::lines_of(rest)
        },
        text::lines_of(seq![]).len() == 0,
{
    lemma_first_at(line, '\n', rest);
    text::lemma_find_char(line, '\n');
    if text::find_char(line, '\n') < line.len() {
        assert(line.contains(line[text::find_char(line, '\n') as int]));
    }
    let s = line + seq!['\n'] + rest;
    assert(s.take(line.len() as int) =~= line);
    assert(s.skip(line.len() as int + 1) =~= rest);
    let longer = line + seq!['\r'];
    assert forall|i: int| 0 <= i < longer.len() implies longer[i] != '\n' by {
        if i < line.len() {
            assert(line.contains(line[i]));
        }
    }
    lemma_first_at(longer, '\n', rest);
    let t = longer + seq!['\n'] + rest;
    assert(t.take(longer.len() as int) =~= longer);
    assert(t.skip(longer.len() as int + 1) =~= rest);
    assert(longer.drop_last() =~= line);
}

/// Lower case changes the capital letters alone, and upper case the small ones.
pub proof fn law_letter_case(s: Seq<char>, i: int)
    requires
        0 <= i < s.len(),
    ensures
        text::lowered(s).len() == s.len(),
        text::uppered(s).len() == s.len(),
        'A' <= s[i] <= 'Z' ==> text::lowered(s)[i] as int == s[i] as int + 32,
        !('A' <= s[i] <= 'Z') ==> text::lowered(s)[i] == s[i],
        'a' <= s[i] <= 'z' ==> text::uppered(s)[i] as int == s[i] as int - 32,
        !('a' <= s[i] <= 'z') ==> text::uppered(s)[i] == s[i],
{
}

/// What is left without its leading occurrences of a character starts with another one.
pub proof fn law_without_leading(n: nat, c: char, rest: Seq<char>)
    requires
        rest.len() > 0 ==> rest[0] != c,
    ensures
        text::without_leading(Seq::new(n, |i: int| c) + rest, c) == rest,
    decreases n,
{
    let s = Seq::new(n, |i: int| c) + rest;
    if n > 0 {
        let m = (n - 1) as nat;
        law_without_leading(m, c, rest);
        assert(s.skip(1) =~= Seq::new(m, |i: int| c) + rest);
        assert(s[0] == c);
    } else {
        assert(s =~= rest);
    }
}

/// The same holds of the trailing ones.
pub proof fn law_without_trailing(n: nat, c: char, rest: Seq<char>)
    requires
        rest.len() > 0 ==> rest.last() != c,
    ensures
        text::without_trailing(rest + Seq::new(n, |i: int| c), c) == rest,
    decreases n,
{
    let s = rest + Seq::new(n, |i: int| c);
    if n > 0 {
        let m = (n - 1) as nat;
        law_without_trailing(m, c, rest);
        assert(s.drop_last() =~= rest + Seq::new(m, |i: int| c));
        assert(s.last() == c);
    } else {
        assert(s =~= rest);
    }
}

/// A numeral is written digit by digit, from `0` to `9`, without leading zeros.
pub proof fn law_numerals(n: nat)
    ensures
        number::dec(n).last() == "0123456789"@[(n % 10) as int],
        n < 10 ==> number::dec(n).len() == 1,
        n >= 10 ==> number::dec(n).drop_last() == number::dec(n / 10),
        n > 0 ==> number::dec(n)[0] != '0',
    decreases n,
{
    reveal_strlit("0123456789");
    if n >= 10 {
        law_numerals(n / 10);
        number::lemma_dec_digits(n / 10);
        assert(number::dec(n).drop_last() =~= number::dec(n / 10));
    }
}

/// A numeral is read digit by digit; a plus sign may lead it, and nothing else is a numeral.
pub proof fn law_numerals_are_read(s: Seq<char>, d: nat, n: nat, max: nat)
    ensures
        d < 10 && number::number_of(s, max) == Some(n) && n * 10 + d <= max ==> number::number_of(
            s.push("0123456789"@[d as int]),
            max,
        ) == Some(n * 10 + d),
        number::number_of(seq![], max) is None,
        n <= max ==> number::number_of(number::dec(n), max) == Some(n),
        n <= max ==> number::number_of(seq!['+'] + number::dec(n), max) == Some(n),
        n > max ==> number::number_of(number::dec(n), max) is None,
        (exists|i: int|
            0 < i < s.len() && !('0' <= #[trigger] s[i] <= '9')) ==> number::number_of(s, max) is None,
        s.len() > 0 && s[0] != '+' && !('0' <= s[0] <= '9') ==> number::number_of(s, max) is None,
{
    reveal_strlit("0123456789");
    if n <= max {
        number::law_numeral_round_trip(n, max);
    } else {
        number::law_numeral_round_trip(n, n);
    }
    number::lemma_dec_digits(n);
    assert(number::is_digit(number::dec(n)[0]));
    let plus = seq!['+'] + number::dec(n);
    assert(plus.skip(1) =~= number::dec(n));
    if d < 10 && number::number_of(s, max) == Some(n) {
        let t = s.push("0123456789"@[d as int]);
        let a = number::numeral_digits(s);
        let b = number::numeral_digits(t);
        assert(b =~= a.push("0123456789"@[d as int]));
        assert(b.drop_last() =~= a);
        assert forall|i: int| 0 <= i < b.len() implies number::is_digit(#[trigger] b[i]) by {
            if i < a.len() {
                assert(number::is_digit(a[i]));
            }
        }
    }
    if exists|i: int| 0 < i < s.len() && !('0' <= #[trigger] s[i] <= '9') {
        let i = choose|i: int| 0 < i < s.len() && !('0' <= #[trigger] s[i] <= '9');
        let a = number::numeral_digits(s);
        if s[0] == '+' {
            assert(a[i - 1] == s[i]);
        } else {
            assert(a[i] == s[i]);
        }
    }
}

} // verus!
