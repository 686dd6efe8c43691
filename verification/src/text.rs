//! Character-level text helpers shared by the metadata and listing code.

use vstd::prelude::*;
use vstd::string::*;

verus! {

/// Characters with the Unicode `White_Space` property.
pub open spec fn is_space(c: char) -> bool {
    ||| ('\u{9}' <= c && c <= '\u{d}')
    ||| c == ' '
    ||| c == '\u{85}'
    ||| c == '\u{a0}'
    ||| c == '\u{1680}'
    ||| ('\u{2000}' <= c && c <= '\u{200a}')
    ||| c == '\u{2028}'
    ||| c == '\u{2029}'
    ||| c == '\u{202f}'
    ||| c == '\u{205f}'
    ||| c == '\u{3000}'
}

/// Decides `is_space`.
pub fn is_space_char(c: char) -> (b: bool)
    ensures
        b == is_space(c),
{
    ('\u{9}' <= c && c <= '\u{d}') || c == ' ' || c == '\u{85}' || c == '\u{a0}' || c
        == '\u{1680}' || ('\u{2000}' <= c && c <= '\u{200a}') || c == '\u{2028}' || c
        == '\u{2029}' || c == '\u{202f}' || c == '\u{205f}' || c == '\u{3000}'
}

/// The characters of `s`, one per element.
pub fn chars_of(s: &str) -> (v: Vec<char>)
    ensures
        v@ == s@,
{
    let n = s.unicode_len();
    let mut v: Vec<char> = Vec::new();
    let mut i: usize = 0;
    while i < n
        invariant
            i <= n,
            n == s@.len(),
            v@ == s@.take(i as int),
        decreases n - i,
    {
        v.push(s.get_char(i));
        i += 1;
        assert(v@ =~= s@.take(i as int));
    }
    assert(v@ =~= s@);
    v
}

/// The character of a decimal digit.
pub open spec fn digit_char(d: nat) -> char {
    (('0' as nat) + d) as char
}

/// Decimal notation of a natural number, without leading zeros.
pub open spec fn decimal(n: nat) -> Seq<char>
    decreases n,
{
    if n < 10 {
        seq![digit_char(n)]
    } else {
        decimal(n / 10).push(digit_char(n % 10))
    }
}

fn digit_str(d: u64) -> (s: &'static str)
    requires
        d < 10,
    ensures
        s@ == seq![digit_char(d as nat)],
{
    proof {
        reveal_strlit("0");
        reveal_strlit("1");
        reveal_strlit("2");
        reveal_strlit("3");
        reveal_strlit("4");
        reveal_strlit("5");
        reveal_strlit("6");
        reveal_strlit("7");
        reveal_strlit("8");
        reveal_strlit("9");
    }
    match d {
        0 => "0",
        1 => "1",
        2 => "2",
        3 => "3",
        4 => "4",
        5 => "5",
        6 => "6",
        7 => "7",
        8 => "8",
        _ => "9",
    }
}

/// Appends the decimal notation of `n` to `out`.
pub fn push_decimal(out: &mut String, n: u64)
    ensures
        final(out)@ == old(out)@ + decimal(n as nat),
    decreases n,
{
    if n < 10 {
        out.append(digit_str(n));
    } else {
        push_decimal(out, n / 10);
        out.append(digit_str(n % 10));
        assert(final(out)@ =~= old(out)@ + decimal(n as nat));
    }
}


/// Index of the first line feed in `s`, or its length where there is none.
pub open spec fn newline_pos(s: Seq<char>) -> nat
    decreases s.len(),
{
    if s.len() == 0 {
        0
    } else if s[0] == '\n' {
        0
    } else {
        1 + newline_pos(s.drop_first())
    }
}

/// `l` without one trailing carriage return.
pub open spec fn strip_cr(l: Seq<char>) -> Seq<char> {
    if l.len() > 0 && l.last() == '\r' {
        l.drop_last()
    } else {
        l
    }
}

/// The lines of `s` as `str::lines` yields them: split after each line feed, a carriage
/// return before the line feed removed, and no empty line after a final line feed.
pub open spec fn lines(s: Seq<char>) -> Seq<Seq<char>>
    decreases s.len(),
{
    if s.len() == 0 {
        seq![]
    } else {
        let p = newline_pos(s);
        if p >= s.len() {
            seq![s]
        } else {
            seq![strip_cr(s.take(p as int))] + lines(s.skip((p + 1) as int))
        }
    }
}

/// `s` without its leading whitespace, as `str::trim_start` leaves it.
pub open spec fn trim_start(s: Seq<char>) -> Seq<char>
    decreases s.len(),
{
    if s.len() > 0 && is_space(s[0]) {
        trim_start(s.drop_first())
    } else {
        s
    }
}

/// Whether `s` begins with `prefix`.
pub open spec fn starts_with(s: Seq<char>, prefix: Seq<char>) -> bool {
    prefix.len() <= s.len() && s.take(prefix.len() as int) == prefix
}

/// The value of the first line that begins with `prefix`: the rest of that line without
/// its leading whitespace.
pub open spec fn prefixed_value(ls: Seq<Seq<char>>, prefix: Seq<char>) -> Option<Seq<char>>
    decreases ls.len(),
{
    if ls.len() == 0 {
        None
    } else if starts_with(ls[0], prefix) {
        Some(trim_start(ls[0].skip(prefix.len() as int)))
    } else {
        prefixed_value(ls.drop_first(), prefix)
    }
}

pub proof fn lemma_newline_pos(s: Seq<char>, q: int)
    requires
        0 <= q <= s.len(),
        forall|k: int| 0 <= k < q ==> s[k] != '\n',
        q == s.len() || s[q] == '\n',
    ensures
        newline_pos(s) == q,
    decreases q,
{
    if q > 0 {
        let t = s.drop_first();
        assert forall|k: int| 0 <= k < q - 1 implies t[k] != '\n' by {
            assert(t[k] == s[k + 1]);
        }
        if q < s.len() {
            assert(t[q - 1] == s[q]);
        }
        lemma_newline_pos(t, q - 1);
    }
}

pub proof fn lemma_trim_start(s: Seq<char>, k: int)
    requires
        0 <= k <= s.len(),
        forall|j: int| 0 <= j < k ==> is_space(s[j]),
        k == s.len() || !is_space(s[k]),
    ensures
        trim_start(s) == s.skip(k),
    decreases k,
{
    if k == 0 {
        assert(s.skip(0) =~= s);
    } else {
        let t = s.drop_first();
        assert forall|j: int| 0 <= j < k - 1 implies is_space(t[j]) by {
            assert(t[j] == s[j + 1]);
        }
        if k < s.len() {
            assert(t[k - 1] == s[k]);
        }
        lemma_trim_start(t, k - 1);
        assert(t.skip(k - 1) =~= s.skip(k));
    }
}

/// Finds the value that `prefixed_value` gives for the lines of `chars`, as a range of
/// indices into `chars`.
pub fn find_prefixed_value(chars: &Vec<char>, prefix: &Vec<char>) -> (r: Option<(usize, usize)>)
    ensures
        match prefixed_value(lines(chars@), prefix@) {
            None => r is None,
            Some(v) => r matches Some((a, b)) && a <= b <= chars@.len() && chars@.subrange(
                a as int,
                b as int,
            ) == v,
        },
{
    let n = chars.len();
    let plen = prefix.len();
    let mut pos: usize = 0;
    assert(chars@.skip(0) =~= chars@);
    while pos < n
        invariant
            pos <= n,
            n == chars@.len(),
            plen == prefix@.len(),
            prefixed_value(lines(chars@), prefix@) == prefixed_value(
                lines(chars@.skip(pos as int)),
                prefix@,
            ),
        decreases n - pos,
    {
        let ghost rest = chars@.skip(pos as int);
        let mut e = pos;
        while e < n && chars[e] != '\n'
            invariant
                pos <= e <= n,
                n == chars@.len(),
                forall|k: int| pos <= k < e ==> chars@[k] != '\n',
            decreases n - e,
        {
            e += 1;
        }
        proof {
            lemma_newline_pos(rest, e - pos);
        }
        let line_end = if e < n && e > pos && chars[e - 1] == '\r' {
            e - 1
        } else {
            e
        };
        let ghost line = chars@.subrange(pos as int, line_end as int);
        proof {
            if e < n {
                assert(rest.take(e - pos) =~= chars@.subrange(pos as int, e as int));
                assert(strip_cr(rest.take(e - pos)) =~= line);
                assert(rest.skip(e - pos + 1) =~= chars@.skip(e + 1));
                assert(lines(rest) == seq![line] + lines(chars@.skip(e + 1)));
            } else {
                assert(rest =~= line);
                assert(lines(rest) == seq![line]);
            }
        }
        let mut matched = plen <= line_end - pos;
        let mut i: usize = 0;
        while matched && i < plen
            invariant
                i <= plen,
                plen == prefix@.len(),
                pos <= line_end <= n,
                n == chars@.len(),
                line == chars@.subrange(pos as int, line_end as int),
                matched ==> plen <= line_end - pos,
                matched ==> forall|j: int| 0 <= j < i ==> line[j] == prefix@[j],
                !matched ==> !starts_with(line, prefix@),
            decreases plen - i,
        {
            if chars[pos + i] != prefix[i] {
                matched = false;
                assert(line.take(plen as int)[i as int] != prefix@[i as int]);
            }
            i += 1;
        }
        if matched {
            assert(line.take(plen as int) =~= prefix@);
            let mut v = pos + plen;
            while v < line_end && is_space_char(chars[v])
                invariant
                    pos + plen <= v <= line_end,
                    line_end <= n,
                    n == chars@.len(),
                    forall|j: int| pos + plen <= j < v ==> is_space(chars@[j]),
                decreases line_end - v,
            {
                v += 1;
            }
            proof {
                let tail = line.skip(plen as int);
                assert forall|j: int| 0 <= j < v - pos - plen implies is_space(tail[j]) by {
                    assert(tail[j] == chars@[pos + plen + j]);
                }
                if v < line_end {
                    assert(tail[v - pos - plen] == chars@[v as int]);
                }
                lemma_trim_start(tail, v - pos - plen);
                assert(tail.skip(v - pos - plen) =~= chars@.subrange(v as int, line_end as int));
                assert(lines(rest)[0] == line);
            }
            return Some((v, line_end));
        }
        proof {
            assert(lines(rest)[0] == line);
            assert(lines(rest).drop_first() =~= lines(chars@.skip(if e < n { e + 1 } else { n as int })))
                by {
                if e >= n {
                    assert(chars@.skip(n as int) =~= Seq::<char>::empty());
                }
            }
        }
        pos = if e < n {
            e + 1
        } else {
            n
        };
    }
    proof {
        assert(chars@.skip(pos as int) =~= Seq::<char>::empty());
    }
    None
}


/// Lines joined into one text, each followed by a line feed.
pub open spec fn join_lines(ls: Seq<Seq<char>>) -> Seq<char>
    decreases ls.len(),
{
    if ls.len() == 0 {
        Seq::<char>::empty()
    } else {
        ls[0] + seq!['\n'] + join_lines(ls.drop_first())
    }
}

/// Joining one more line appends it and its line feed.
pub proof fn lemma_join_push(ls: Seq<Seq<char>>, l: Seq<char>)
    ensures
        join_lines(ls.push(l)) == join_lines(ls) + l + seq!['\n'],
    decreases ls.len(),
{
    if ls.len() == 0 {
        assert(ls.push(l).drop_first() =~= Seq::<Seq<char>>::empty());
        assert(ls.push(l)[0] == l);
        assert(join_lines(Seq::<Seq<char>>::empty()) == Seq::<char>::empty());
        assert(join_lines(ls) == Seq::<char>::empty());
        assert(join_lines(ls.push(l)) =~= join_lines(ls) + l + seq!['\n']);
    } else {
        assert(ls.push(l).drop_first() =~= ls.drop_first().push(l));
        lemma_join_push(ls.drop_first(), l);
        assert(ls.push(l)[0] == ls[0]);
        let j = join_lines(ls.drop_first());
        assert(join_lines(ls.push(l)) == ls[0] + seq!['\n'] + (j + l + seq!['\n']));
        assert(join_lines(ls) == ls[0] + seq!['\n'] + j);
        assert(join_lines(ls.push(l)) =~= join_lines(ls) + l + seq!['\n']);
    }
}

/// A line that `lines` gives back unchanged: no line feed, no final carriage return.
pub open spec fn whole_line(l: Seq<char>) -> bool {
    &&& forall|i: int| 0 <= i < l.len() ==> #[trigger] l[i] != '\n'
    &&& strip_cr(l) == l
}

/// Splitting joined lines gives the lines back.
pub proof fn lemma_lines_of_joined(ls: Seq<Seq<char>>)
    requires
        forall|k: int| 0 <= k < ls.len() ==> whole_line(#[trigger] ls[k]),
    ensures
        lines(join_lines(ls)) == ls,
    decreases ls.len(),
{
    if ls.len() == 0 {
        assert(lines(join_lines(ls)) =~= ls);
    } else {
        let l = ls[0];
        let rest = ls.drop_first();
        let s = join_lines(ls);
        assert(whole_line(l));
        assert forall|k: int| 0 <= k < rest.len() implies whole_line(#[trigger] rest[k]) by {
            assert(rest[k] == ls[k + 1]);
        }
        lemma_lines_of_joined(rest);
        assert(s == l + seq!['\n'] + join_lines(rest));
        assert forall|k: int| 0 <= k < l.len() implies s[k] != '\n' by {
            assert(s[k] == l[k]);
        }
        assert(s[l.len() as int] == '\n');
        lemma_newline_pos(s, l.len() as int);
        assert(s.take(l.len() as int) =~= l);
        assert(s.skip((l.len() + 1) as int) =~= join_lines(rest));
        assert(lines(s) =~= seq![l] + rest);
        assert(seq![l] + rest =~= ls);
    }
}

/// `s` does not start with `prefix` where they differ at index `i`.
pub proof fn lemma_differs_at(s: Seq<char>, prefix: Seq<char>, i: int)
    requires
        0 <= i < prefix.len(),
        i < s.len() ==> s[i] != prefix[i],
    ensures
        !starts_with(s, prefix),
{
    if starts_with(s, prefix) {
        assert(s.take(prefix.len() as int)[i] == s[i]);
    }
}

/// The first line starting with `prefix` is line `j` where no earlier one does.
pub proof fn lemma_prefixed_value_at(ls: Seq<Seq<char>>, prefix: Seq<char>, j: int)
    requires
        0 <= j < ls.len(),
        forall|k: int| 0 <= k < j ==> !starts_with(#[trigger] ls[k], prefix),
        starts_with(ls[j], prefix),
    ensures
        prefixed_value(ls, prefix) == Some(trim_start(ls[j].skip(prefix.len() as int))),
    decreases j,
{
    if j > 0 {
        let rest = ls.drop_first();
        assert(!starts_with(ls[0], prefix));
        assert forall|k: int| 0 <= k < j - 1 implies !starts_with(#[trigger] rest[k], prefix) by {
            assert(rest[k] == ls[k + 1]);
        }
        lemma_prefixed_value_at(rest, prefix, j - 1);
    }
}

/// The text of a string slice as an owned string.
pub fn owned(s: &str) -> (r: String)
    ensures
        r@ == s@,
{
    s.to_owned()
}

/// Joins two texts.
pub fn concat2(a: &str, b: &str) -> (r: String)
    ensures
        r@ == a@ + b@,
{
    let mut r = owned(a);
    r.append(b);
    r
}

/// Joins three texts.
pub fn concat3(a: &str, b: &str, c: &str) -> (r: String)
    ensures
        r@ == a@ + b@ + c@,
{
    let mut r = concat2(a, b);
    r.append(c);
    r
}

/// Joins four texts.
pub fn concat4(a: &str, b: &str, c: &str, d: &str) -> (r: String)
    ensures
        r@ == a@ + b@ + c@ + d@,
{
    let mut r = concat3(a, b, c);
    r.append(d);
    r
}

/// Whether two strings hold the same characters.
pub fn str_eq(a: &str, b: &str) -> (r: bool)
    ensures
        r == (a@ == b@),
{
    let n = a.unicode_len();
    if n != b.unicode_len() {
        return false;
    }
    let mut i: usize = 0;
    while i < n
        invariant
            i <= n,
            n == a@.len(),
            n == b@.len(),
            forall|j: int| 0 <= j < i ==> a@[j] == b@[j],
        decreases n - i,
    {
        if a.get_char(i) != b.get_char(i) {
            return false;
        }
        i += 1;
    }
    assert(a@ =~= b@);
    true
}


/// Signed decimal notation of an integer.
pub open spec fn signed_decimal(n: int) -> Seq<char> {
    if n < 0 {
        seq!['-'] + decimal((-n) as nat)
    } else {
        decimal(n as nat)
    }
}

/// Appends the signed decimal notation of `n` to `out`.
pub fn push_signed_decimal(out: &mut String, n: i64)
    ensures
        final(out)@ == old(out)@ + signed_decimal(n as int),
{
    if n < 0 {
        out.append("-");
        let magnitude: u64 = ((-(n + 1)) as u64) + 1;
        push_decimal(out, magnitude);
        proof {
            reveal_strlit("-");
            assert(final(out)@ =~= old(out)@ + signed_decimal(n as int));
        }
    } else {
        push_decimal(out, n as u64);
    }
}

/// The first `n` characters of `s`, or all of them where it is shorter.
pub open spec fn first_chars(s: Seq<char>, n: nat) -> Seq<char> {
    if s.len() <= n {
        s
    } else {
        s.take(n as int)
    }
}

/// Builds `first_chars(s, n)`.
pub fn take_chars(s: &str, n: usize) -> (r: String)
    ensures
        r@ == first_chars(s@, n as nat),
{
    let len = s.unicode_len();
    let end = if len <= n {
        len
    } else {
        n
    };
    let r = owned(s.substring_char(0, end));
    proof {
        if len <= n {
            assert(s@.subrange(0, end as int) =~= s@);
        }
    }
    r
}

/// The rest of `s` with its runs of whitespace squeezed, as a scan from left to right does it:
/// a run between two words becomes one space, and runs before the first word or after the last
/// one are dropped. `started` says whether a word was seen already, `pending` whether a run
/// follows it.
pub open spec fn squeeze_spaces(s: Seq<char>, started: bool, pending: bool) -> Seq<char>
    decreases s.len(),
{
    if s.len() == 0 {
        Seq::empty()
    } else if is_space(s[0]) {
        squeeze_spaces(s.drop_first(), started, started)
    } else {
        (if pending {
            seq![' ']
        } else {
            Seq::empty()
        }) + seq![s[0]] + squeeze_spaces(s.drop_first(), true, false)
    }
}

/// Length of the run of non-whitespace characters that `s` starts with.
pub open spec fn word_len(s: Seq<char>) -> nat
    decreases s.len(),
{
    if s.len() == 0 || is_space(s[0]) {
        0
    } else {
        1 + word_len(s.drop_first())
    }
}

/// A word is no longer than the text it starts.
pub proof fn lemma_word_len_bound(s: Seq<char>)
    ensures
        word_len(s) <= s.len(),
    decreases s.len(),
{
    if s.len() > 0 && !is_space(s[0]) {
        lemma_word_len_bound(s.drop_first());
    }
}

/// The words of `s`: its maximal runs of non-whitespace characters, in order, as
/// `split_whitespace` yields them.
pub open spec fn words(s: Seq<char>) -> Seq<Seq<char>>
    decreases s.len(),
{
    if s.len() == 0 {
        seq![]
    } else if is_space(s[0]) {
        words(s.drop_first())
    } else {
        proof {
            lemma_word_len_bound(s);
        }
        seq![s.take(word_len(s) as int)] + words(s.skip(word_len(s) as int))
    }
}

/// Texts joined with one space between each two.
pub open spec fn join_spaced(ws: Seq<Seq<char>>) -> Seq<char>
    decreases ws.len(),
{
    if ws.len() == 0 {
        Seq::empty()
    } else if ws.len() == 1 {
        ws[0]
    } else {
        ws[0] + seq![' '] + join_spaced(ws.drop_first())
    }
}

/// The words of `s`, separated by one space each: what `split_whitespace` and `join(" ")` give.
pub open spec fn words_joined(s: Seq<char>) -> Seq<char> {
    join_spaced(words(s))
}

/// The space that squeezing emits before the words of `s`, in state `started`, `pending`.
pub open spec fn squeeze_separator(s: Seq<char>, started: bool, pending: bool) -> Seq<char> {
    if started && (pending || (s.len() > 0 && is_space(s[0]))) && words(s).len() > 0 {
        seq![' ']
    } else {
        Seq::empty()
    }
}

proof fn lemma_join_cons(w: Seq<char>, ws: Seq<Seq<char>>)
    ensures
        join_spaced(seq![w] + ws) == w + (if ws.len() > 0 {
            seq![' '] + join_spaced(ws)
        } else {
            Seq::empty()
        }),
{
    let all = seq![w] + ws;
    assert(all[0] == w);
    assert(all.drop_first() =~= ws);
    if ws.len() == 0 {
        assert(all.len() == 1);
        assert(w + Seq::<char>::empty() =~= w);
    } else {
        assert(join_spaced(all) == w + seq![' '] + join_spaced(ws));
        assert(w + seq![' '] + join_spaced(ws) =~= w + (seq![' '] + join_spaced(ws)));
    }
}

/// Squeezing whitespace gives the words joined by single spaces.
pub proof fn lemma_squeeze_is_words_joined(s: Seq<char>, started: bool, pending: bool)
    requires
        pending ==> started,
    ensures
        squeeze_spaces(s, started, pending) == squeeze_separator(s, started, pending) + words_joined(
            s,
        ),
    decreases s.len(),
{
    if s.len() == 0 {
        assert(squeeze_separator(s, started, pending) + words_joined(s) =~= Seq::<char>::empty());
    } else if is_space(s[0]) {
        let rest = s.drop_first();
        lemma_squeeze_is_words_joined(rest, started, started);
        assert(words(s) == words(rest));
        if started && words(rest).len() > 0 {
            assert(squeeze_separator(s, started, pending) == seq![' ']);
        }
    } else {
        let rest = s.drop_first();
        lemma_squeeze_is_words_joined(rest, true, false);
        lemma_word_len_bound(s);
        lemma_word_len_bound(rest);
        let n = word_len(s) as int;
        assert(n == 1 + word_len(rest));
        let tail = words(s.skip(n));
        assert(words(s) == seq![s.take(n)] + tail);
        lemma_join_cons(s.take(n), tail);
        let tail_text = if tail.len() > 0 {
            seq![' '] + join_spaced(tail)
        } else {
            Seq::<char>::empty()
        };
        assert(words_joined(s) == s.take(n) + tail_text);
        if rest.len() > 0 && !is_space(rest[0]) {
            let m = word_len(rest) as int;
            assert(rest.skip(m) =~= s.skip(n));
            assert(words(rest) == seq![rest.take(m)] + tail);
            lemma_join_cons(rest.take(m), tail);
            assert(words_joined(rest) == rest.take(m) + tail_text);
            assert(squeeze_separator(rest, true, false) =~= Seq::<char>::empty());
            assert(seq![s[0]] + (rest.take(m) + tail_text) =~= s.take(n) + tail_text);
        } else {
            assert(n == 1);
            assert(s.skip(1) =~= rest);
            if rest.len() == 0 {
                assert(words(rest) =~= Seq::<Seq<char>>::empty());
            }
            assert(squeeze_separator(rest, true, false) + words_joined(rest) =~= tail_text);
            assert(s.take(1) =~= seq![s[0]]);
        }
        assert(squeeze_spaces(s, started, pending) == (if pending {
            seq![' ']
        } else {
            Seq::empty()
        }) + seq![s[0]] + squeeze_spaces(rest, true, false));
        if pending && words(s).len() > 0 {
            assert(squeeze_separator(s, started, pending) == seq![' ']);
        }
        assert(words(s).len() > 0);
        assert(squeeze_spaces(s, started, pending) =~= squeeze_separator(s, started, pending)
            + words_joined(s));
    }
}

/// Builds `words_joined(s)`.
pub fn join_words(s: &str) -> (r: String)
    ensures
        r@ == words_joined(s@),
{
    let chars = chars_of(s);
    let n = chars.len();
    let mut out = String::new();
    let mut started = false;
    let mut pending = false;
    let mut i: usize = 0;
    assert(s@.skip(0) =~= s@);
    while i < n
        invariant
            i <= n,
            n == s@.len(),
            chars@ == s@,
            pending ==> started,
            out@ + squeeze_spaces(s@.skip(i as int), started, pending) == squeeze_spaces(
                s@,
                false,
                false,
            ),
        decreases n - i,
    {
        let ghost rest = s@.skip(i as int);
        let ghost out0 = out@;
        let ghost p0 = pending;
        assert(rest.drop_first() =~= s@.skip(i + 1));
        let c = chars[i];
        assert(rest[0] == c);
        if is_space_char(c) {
            pending = started;
        } else {
            if pending {
                out.append(" ");
            }
            out.append(s.substring_char(i, i + 1));
            proof {
                reveal_strlit(" ");
                assert(s@.subrange(i as int, i + 1) =~= seq![c]);
                let head = if p0 {
                    seq![' ']
                } else {
                    Seq::<char>::empty()
                };
                assert(out@ =~= out0 + head + seq![c]);
                assert(squeeze_spaces(rest, started, p0) == head + seq![c] + squeeze_spaces(
                    rest.drop_first(),
                    true,
                    false,
                ));
                assert(out@ + squeeze_spaces(rest.drop_first(), true, false) =~= out0
                    + squeeze_spaces(rest, started, p0));
            }
            started = true;
            pending = false;
        }
        i += 1;
    }
    proof {
        assert(s@.skip(n as int) =~= Seq::<char>::empty());
        assert(out@ + Seq::<char>::empty() =~= out@);
        lemma_squeeze_is_words_joined(s@, false, false);
        assert(squeeze_separator(s@, false, false) + words_joined(s@) =~= words_joined(s@));
    }
    out
}

} // verus!
