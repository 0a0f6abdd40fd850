//! Text helpers on strings taken as sequences of characters: equality,
//! Unicode whitespace, trimming, splitting into words, replacing a character
//! and decimal rendering of integers.

use vstd::prelude::*;
use vstd::string::*;
use vstd::utf8::*;

verus! {

/// Whether two strings hold the same characters.
pub fn same_text(a: &str, b: &str) -> (r: bool)
    ensures
        r == (a@ == b@),
{
    let x = a.to_owned();
    let y = b.to_owned();
    x == y
}

/// `a` followed by `b`.
pub fn concat2(a: &str, b: &str) -> (s: String)
    ensures
        s@ == a@ + b@,
{
    let mut s = a.to_owned();
    s.append(b);
    s
}

/// `a`, `b` and `c` in a row.
pub fn concat3(a: &str, b: &str, c: &str) -> (s: String)
    ensures
        s@ == a@ + b@ + c@,
{
    let mut s = a.to_owned();
    s.append(b);
    s.append(c);
    s
}

/// `a`, `b`, `c` and `d` in a row.
pub fn concat4(a: &str, b: &str, c: &str, d: &str) -> (s: String)
    ensures
        s@ == a@ + b@ + c@ + d@,
{
    let mut s = a.to_owned();
    s.append(b);
    s.append(c);
    s.append(d);
    s
}

/// The characters of the Unicode property White_Space.
pub open spec fn is_white_space(c: char) -> bool {
    let u = c as u32;
    ||| 0x9 <= u <= 0xd
    ||| u == 0x20
    ||| u == 0x85
    ||| u == 0xa0
    ||| u == 0x1680
    ||| 0x2000 <= u <= 0x200a
    ||| u == 0x2028
    ||| u == 0x2029
    ||| u == 0x202f
    ||| u == 0x205f
    ||| u == 0x3000
}

pub fn white_space(c: char) -> (r: bool)
    ensures
        r == is_white_space(c),
{
    let u = c as u32;
    (0x9 <= u && u <= 0xd) || u == 0x20 || u == 0x85 || u == 0xa0 || u == 0x1680 || (0x2000 <= u
        && u <= 0x200a) || u == 0x2028 || u == 0x2029 || u == 0x202f || u == 0x205f || u == 0x3000
}

/// `s` without its leading whitespace.
pub open spec fn trim_start(s: Seq<char>) -> Seq<char>
    decreases s.len(),
{
    if s.len() > 0 && is_white_space(s[0]) {
        trim_start(s.drop_first())
    } else {
        s
    }
}

/// `s` without its trailing whitespace.
pub open spec fn trim_end(s: Seq<char>) -> Seq<char>
    decreases s.len(),
{
    if s.len() > 0 && is_white_space(s.last()) {
        trim_end(s.drop_last())
    } else {
        s
    }
}

/// `s` without leading and trailing whitespace.
pub open spec fn trimmed(s: Seq<char>) -> Seq<char> {
    trim_end(trim_start(s))
}

/// Removes leading and trailing whitespace.
pub fn trim(s: &str) -> (r: &str)
    ensures
        r@ == trimmed(s@),
{
    let n = s.unicode_len();
    let mut i: usize = 0;
    assert(s@.subrange(0, n as int) =~= s@);
    while i < n && white_space(s.get_char(i))
        invariant
            n == s@.len(),
            i <= n,
            trim_start(s@) == trim_start(s@.subrange(i as int, n as int)),
        decreases n - i,
    {
        assert(s@.subrange(i as int, n as int).drop_first() =~= s@.subrange(i + 1, n as int));
        i = i + 1;
    }
    assert(trim_start(s@) == s@.subrange(i as int, n as int));
    let mut j: usize = n;
    while j > i && white_space(s.get_char(j - 1))
        invariant
            n == s@.len(),
            i <= j <= n,
            trimmed(s@) == trim_end(s@.subrange(i as int, j as int)),
        decreases j,
    {
        assert(s@.subrange(i as int, j as int).drop_last() =~= s@.subrange(i as int, j - 1));
        j = j - 1;
    }
    s.substring_char(i, j)
}


/// `s` with every occurrence of the character `c` replaced by `with`.
pub open spec fn replaced(s: Seq<char>, c: char, with: Seq<char>) -> Seq<char>
    decreases s.len(),
{
    if s.len() == 0 {
        Seq::empty()
    } else {
        replaced(s.drop_last(), c, with) + (if s.last() == c {
            with
        } else {
            seq![s.last()]
        })
    }
}

proof fn lemma_replaced_append(a: Seq<char>, b: Seq<char>, c: char, with: Seq<char>)
    ensures
        replaced(a + b, c, with) == replaced(a, c, with) + replaced(b, c, with),
    decreases b.len(),
{
    if b.len() == 0 {
        assert(a + b =~= a);
        assert(replaced(a, c, with) + replaced(b, c, with) =~= replaced(a, c, with));
    } else {
        lemma_replaced_append(a, b.drop_last(), c, with);
        assert((a + b).drop_last() =~= a + b.drop_last());
        assert((a + b).last() == b.last());
        let tail = if b.last() == c {
            with
        } else {
            seq![b.last()]
        };
        assert(replaced(a, c, with) + replaced(b.drop_last(), c, with) + tail =~= replaced(a, c, with)
            + (replaced(b.drop_last(), c, with) + tail));
    }
}

proof fn lemma_replaced_absent(s: Seq<char>, c: char, with: Seq<char>)
    requires
        forall|k: int| 0 <= k < s.len() ==> s[k] != c,
    ensures
        replaced(s, c, with) == s,
    decreases s.len(),
{
    if s.len() > 0 {
        lemma_replaced_absent(s.drop_last(), c, with);
        assert(s.drop_last().push(s.last()) =~= s);
    }
}

/// Replaces every occurrence of the character `c` in `s` by `with`.
pub fn replace_char(s: &str, c: char, with: &str) -> (r: String)
    ensures
        r@ == replaced(s@, c, with@),
{
    let n = s.unicode_len();
    let mut out = String::new();
    let mut start: usize = 0;
    let mut i: usize = 0;
    assert(s@.subrange(0, 0) =~= Seq::<char>::empty());
    while i < n
        invariant
            n == s@.len(),
            start <= i <= n,
            out@ == replaced(s@.subrange(0, start as int), c, with@),
            forall|k: int| start <= k < i ==> s@[k] != c,
        decreases n - i,
    {
        if s.get_char(i) == c {
            let part = s.substring_char(start, i);
            out.append(part);
            out.append(with);
            proof {
                lemma_replaced_absent(s@.subrange(start as int, i as int), c, with@);
                lemma_replaced_append(s@.subrange(0, start as int), s@.subrange(start as int, i as int), c, with@);
                assert(s@.subrange(0, start as int) + s@.subrange(start as int, i as int) =~= s@.subrange(0, i as int));
                assert(s@.subrange(0, i + 1).drop_last() =~= s@.subrange(0, i as int));
            }
            start = i + 1;
        }
        i = i + 1;
    }
    let part = s.substring_char(start, n);
    out.append(part);
    proof {
        lemma_replaced_absent(s@.subrange(start as int, n as int), c, with@);
        lemma_replaced_append(s@.subrange(0, start as int), s@.subrange(start as int, n as int), c, with@);
        assert(s@.subrange(0, start as int) + s@.subrange(start as int, n as int) =~= s@);
    }
    out
}

/// The decimal digit `d` as a character.
pub open spec fn digit_char(d: nat) -> char {
    ((d + 48) as u32) as char
}

/// The decimal digits of `n`, most significant first, without leading zeros.
pub open spec fn digits(n: nat) -> Seq<char>
    decreases n,
{
    if n < 10 {
        seq![digit_char(n)]
    } else {
        digits(n / 10).push(digit_char(n % 10))
    }
}

/// The decimal form of `n`, with a minus sign when it is negative.
pub open spec fn decimal(n: int) -> Seq<char> {
    if n < 0 {
        seq!['-'] + digits((-n) as nat)
    } else {
        digits(n as nat)
    }
}

fn push_digits(out: &mut String, n: u64)
    ensures
        final(out)@ == old(out)@ + digits(n as nat),
    decreases n,
{
    if n >= 10 {
        push_digits(out, n / 10);
    }
    let d = (n % 10) as usize;
    let table = "0123456789";
    proof {
        reveal_strlit("0123456789");
    }
    let ch = table.substring_char(d, d + 1);
    out.append(ch);
    proof {
        assert(ch@ =~= seq![digit_char((n % 10) as nat)]);
        if n >= 10 {
            assert(digits(n as nat) == digits((n / 10) as nat).push(digit_char((n % 10) as nat)));
        } else {
            assert(digits(n as nat) == seq![digit_char(n as nat)]);
        }
    }
    assert(out@ =~= old(out)@ + digits(n as nat));
}

/// Renders an integer in decimal, as `{}` formatting does.
pub fn decimal_string(n: i64) -> (r: String)
    ensures
        r@ == decimal(n as int),
{
    let mut out = String::new();
    if n < 0 {
        out.append("-");
        proof {
            reveal_strlit("-");
        }
        let m: u64 = (0i128 - (n as i128)) as u64;
        push_digits(&mut out, m);
        assert(out@ =~= seq!['-'] + digits((-n) as nat));
    } else {
        push_digits(&mut out, n as u64);
        assert(out@ =~= digits(n as nat));
    }
    out
}


/// `cur`, as a list of one word, or no word when it is empty.
pub open spec fn word_if_any(cur: Seq<char>) -> Seq<Seq<char>> {
    if cur.len() > 0 {
        seq![cur]
    } else {
        Seq::empty()
    }
}

/// The whitespace-separated words of `s`, given that the characters `cur`
/// directly precede `s` and belong to its first word.
pub open spec fn words_after(s: Seq<char>, cur: Seq<char>) -> Seq<Seq<char>>
    decreases s.len(),
{
    if s.len() == 0 {
        word_if_any(cur)
    } else if is_white_space(s[0]) {
        word_if_any(cur) + words_after(s.drop_first(), Seq::empty())
    } else {
        words_after(s.drop_first(), cur.push(s[0]))
    }
}

/// The non-empty runs of non-whitespace characters of `s`, in order.
pub open spec fn words(s: Seq<char>) -> Seq<Seq<char>> {
    words_after(s, Seq::empty())
}

/// Splits `s` at Unicode whitespace into its non-empty words.
pub fn split_words(s: &str) -> (r: Vec<String>)
    ensures
        r@.map_values(|w: String| w@) == words(s@),
{
    let n = s.unicode_len();
    let mut out: Vec<String> = Vec::new();
    let mut start: usize = 0;
    let mut i: usize = 0;
    assert(s@.subrange(0, n as int) =~= s@);
    assert(s@.subrange(0, 0) =~= Seq::<char>::empty());
    while i < n
        invariant
            n == s@.len(),
            start <= i <= n,
            words(s@) == out@.map_values(|w: String| w@) + words_after(
                s@.subrange(i as int, n as int),
                s@.subrange(start as int, i as int),
            ),
        decreases n - i,
    {
        let ghost rest = s@.subrange(i as int, n as int);
        let ghost cur = s@.subrange(start as int, i as int);
        assert(rest.drop_first() =~= s@.subrange(i + 1, n as int));
        assert(rest[0] == s@[i as int]);
        if white_space(s.get_char(i)) {
            if start < i {
                let w = s.substring_char(start, i);
                let ghost before = out@.map_values(|w: String| w@);
                out.push(w.to_owned());
                assert(out@.map_values(|w: String| w@) =~= before + seq![cur]);
            } else {
                assert(cur =~= Seq::<char>::empty());
            }
            assert(s@.subrange(i + 1, i + 1) =~= Seq::<char>::empty());
            start = i + 1;
        } else {
            assert(cur.push(s@[i as int]) =~= s@.subrange(start as int, i + 1));
        }
        i = i + 1;
    }
    if start < n {
        let w = s.substring_char(start, n);
        let ghost before = out@.map_values(|w: String| w@);
        out.push(w.to_owned());
        assert(out@.map_values(|w: String| w@) =~= before + seq![s@.subrange(start as int, n as int)]);
    } else {
        assert(s@.subrange(start as int, n as int) =~= Seq::<char>::empty());
        assert(out@.map_values(|w: String| w@) + Seq::<Seq<char>>::empty() =~= out@.map_values(|w: String| w@));
    }
    out
}


/// The text of the first `n` bytes of `s`, or all of `s` when it is no
/// longer.
pub open spec fn byte_prefix(s: Seq<char>, n: nat) -> Seq<char> {
    if encode_utf8(s).len() <= n {
        s
    } else {
        decode_utf8(encode_utf8(s).subrange(0, n as int))
    }
}

/// The first `n` bytes of `s`, as slicing `&s[..min(len, n)]` takes them;
/// byte `n` must start a character when `s` is longer.
pub fn prefix_bytes(s: &str, n: usize) -> (r: &str)
    requires
        encode_utf8(s@).len() <= n || is_char_boundary(encode_utf8(s@), n as int),
    ensures
        r@ == byte_prefix(s@, n as nat),
{
    if s.as_bytes().len() <= n {
        s
    } else {
        let (head, _tail) = s.split_at(n);
        proof {
            broadcast use encode_utf8_decode_utf8;
            assert(decode_utf8(head.spec_bytes()) == head@);
        }
        head
    }
}


/// Where the text left after dropping leading whitespace starts.
proof fn lemma_trim_start_at(s: Seq<char>) -> (i: int)
    ensures
        0 <= i <= s.len(),
        trim_start(s) == s.subrange(i, s.len() as int),
        forall|k: int| 0 <= k < i ==> is_white_space(#[trigger] s[k]),
        i < s.len() ==> !is_white_space(s[i]),
    decreases s.len(),
{
    if s.len() > 0 && is_white_space(s[0]) {
        let j = lemma_trim_start_at(s.drop_first());
        assert(s.drop_first().subrange(j, s.drop_first().len() as int) =~= s.subrange(j + 1, s.len() as int));
        assert forall|k: int| 0 <= k < j + 1 implies is_white_space(#[trigger] s[k]) by {
            if k > 0 {
                assert(s[k] == s.drop_first()[k - 1]);
            }
        }
        j + 1
    } else {
        assert(s.subrange(0, s.len() as int) =~= s);
        0
    }
}

/// Where the text left after dropping trailing whitespace ends.
proof fn lemma_trim_end_at(s: Seq<char>) -> (j: int)
    ensures
        0 <= j <= s.len(),
        trim_end(s) == s.subrange(0, j),
        forall|k: int| j <= k < s.len() ==> is_white_space(#[trigger] s[k]),
        j > 0 ==> !is_white_space(s[j - 1]),
    decreases s.len(),
{
    if s.len() > 0 && is_white_space(s.last()) {
        let j = lemma_trim_end_at(s.drop_last());
        assert(s.drop_last().subrange(0, j) =~= s.subrange(0, j));
        assert forall|k: int| j <= k < s.len() implies is_white_space(#[trigger] s[k]) by {
            if k < s.len() - 1 {
                assert(s[k] == s.drop_last()[k]);
            }
        }
        j
    } else {
        assert(s.subrange(0, s.len() as int) =~= s);
        s.len() as int
    }
}

/// Trimming keeps one contiguous run of the text: what it drops on either
/// side is whitespace, and what it keeps neither starts nor ends with
/// whitespace.
pub proof fn trim_keeps_the_text_between_whitespace(s: Seq<char>)
    ensures
        exists|i: int, j: int|
            0 <= i <= j <= s.len() && trimmed(s) == s.subrange(i, j) && (forall|k: int|
                0 <= k < i ==> is_white_space(#[trigger] s[k])) && (forall|k: int|
                j <= k < s.len() ==> is_white_space(#[trigger] s[k])),
        trimmed(s).len() > 0 ==> !is_white_space(trimmed(s)[0]) && !is_white_space(trimmed(s).last()),
{
    let i = lemma_trim_start_at(s);
    let u = s.subrange(i, s.len() as int);
    let j = lemma_trim_end_at(u);
    assert(trimmed(s) =~= s.subrange(i, i + j));
    assert forall|k: int| i + j <= k < s.len() implies is_white_space(#[trigger] s[k]) by {
        assert(s[k] == u[k - i]);
    }
    if trimmed(s).len() > 0 {
        assert(trimmed(s)[0] == u[0]);
        assert(trimmed(s).last() == u[j - 1]);
    }
    assert(0 <= i <= i + j <= s.len() && trimmed(s) == s.subrange(i, i + j));
}

/// The number that a run of decimal digits spells.
pub open spec fn digits_value(d: Seq<char>) -> int
    decreases d.len(),
{
    if d.len() == 0 {
        0
    } else {
        digits_value(d.drop_last()) * 10 + (d.last() as int - 48)
    }
}

/// The decimal form of a number is made of the digits 0 to 9, starts with
/// 0 only for zero itself, and spells the number back.
pub proof fn digits_spell_the_number(n: nat)
    ensures
        digits(n).len() > 0,
        forall|k: int| 0 <= k < digits(n).len() ==> 48 <= #[trigger] (digits(n)[k] as int) <= 57,
        digits(n)[0] as int == 48 ==> n == 0,
        digits_value(digits(n)) == n,
    decreases n,
{
    if n >= 10 {
        digits_spell_the_number(n / 10);
        let d = digits(n / 10);
        assert(digits(n).drop_last() =~= d);
        assert(digit_char(n % 10) as int == n % 10 + 48);
        assert forall|k: int| 0 <= k < digits(n).len() implies 48 <= #[trigger] (digits(n)[k] as int) <= 57 by {
            if k < d.len() {
                assert(digits(n)[k] == d[k]);
            }
        }
        assert(digits(n)[0] == d[0]);
        assert(n == (n / 10) * 10 + n % 10);
        assert(digits(n).last() == digit_char(n % 10));
        assert(digits_value(digits(n)) == digits_value(d) * 10 + (digits(n).last() as int - 48));
    } else {
        assert(digit_char(n) as int == n + 48);
        assert(digits(n).drop_last() =~= Seq::<char>::empty());
        assert(digits(n).last() == digit_char(n));
        assert(digits_value(digits(n)) == digits_value(Seq::<char>::empty()) * 10 + (digits(n).last() as int - 48));
    }
}

/// Replacing a character by text that does not hold it leaves none of it.
pub proof fn replacing_leaves_no_occurrence(s: Seq<char>, c: char, with: Seq<char>)
    requires
        forall|k: int| 0 <= k < with.len() ==> with[k] != c,
    ensures
        forall|k: int| 0 <= k < replaced(s, c, with).len() ==> #[trigger] replaced(s, c, with)[k] != c,
    decreases s.len(),
{
    if s.len() > 0 {
        replacing_leaves_no_occurrence(s.drop_last(), c, with);
        let head = replaced(s.drop_last(), c, with);
        let tail = if s.last() == c { with } else { seq![s.last()] };
        assert forall|k: int| 0 <= k < replaced(s, c, with).len() implies #[trigger] replaced(s, c, with)[k] != c by {
            if k < head.len() {
                assert(replaced(s, c, with)[k] == head[k]);
            } else {
                assert(replaced(s, c, with)[k] == tail[k - head.len()]);
            }
        }
    }
}

/// Text without the character is left as it is.
pub proof fn replacing_an_absent_character_changes_nothing(s: Seq<char>, c: char, with: Seq<char>)
    requires
        forall|k: int| 0 <= k < s.len() ==> s[k] != c,
    ensures
        replaced(s, c, with) == s,
{
    lemma_replaced_absent(s, c, with);
}

/// Whether every word of a list is non-empty and holds no whitespace.
pub open spec fn clean_words(ws: Seq<Seq<char>>) -> bool {
    forall|w: int|
        0 <= w < ws.len() ==> (#[trigger] ws[w]).len() > 0 && forall|k: int|
            0 <= k < ws[w].len() ==> !is_white_space(#[trigger] ws[w][k])
}

/// Every word found from `cur` on is non-empty and free of whitespace,
/// given that `cur` is free of whitespace.
proof fn lemma_words_after_clean(s: Seq<char>, cur: Seq<char>)
    requires
        forall|k: int| 0 <= k < cur.len() ==> !is_white_space(#[trigger] cur[k]),
    ensures
        clean_words(words_after(s, cur)),
    decreases s.len(),
{
    if s.len() == 0 {
        assert(words_after(s, cur) == word_if_any(cur));
    } else if is_white_space(s[0]) {
        lemma_words_after_clean(s.drop_first(), Seq::empty());
        let a = word_if_any(cur);
        let b = words_after(s.drop_first(), Seq::empty());
        assert(words_after(s, cur) == a + b);
        assert forall|w: int| 0 <= w < (a + b).len() implies (#[trigger] (a + b)[w]).len() > 0 && forall|k: int|
            0 <= k < (a + b)[w].len() ==> !is_white_space(#[trigger] (a + b)[w][k]) by {
            if w < a.len() {
                assert((a + b)[w] == cur);
            } else {
                assert((a + b)[w] == b[w - a.len()]);
            }
        }
    } else {
        let next = cur.push(s[0]);
        assert forall|k: int| 0 <= k < next.len() implies !is_white_space(#[trigger] next[k]) by {
            if k < cur.len() {
                assert(next[k] == cur[k]);
            }
        }
        lemma_words_after_clean(s.drop_first(), next);
        assert(words_after(s, cur) == words_after(s.drop_first(), next));
    }
}

/// The words of a text are non-empty and hold no whitespace.
pub proof fn words_are_nonempty_and_unbroken(s: Seq<char>)
    ensures
        clean_words(words(s)),
{
    lemma_words_after_clean(s, Seq::empty());
}

/// Replacing works character by character: on two texts put together it
/// gives the two results put together, and a single character becomes the
/// replacement exactly when it is the replaced character.
pub proof fn replacing_works_character_by_character(a: Seq<char>, b: Seq<char>, c: char, with: Seq<char>, x: char)
    ensures
        replaced(a + b, c, with) == replaced(a, c, with) + replaced(b, c, with),
        replaced(seq![x], c, with) == (if x == c { with } else { seq![x] }),
{
    lemma_replaced_append(a, b, c, with);
    assert(seq![x].drop_last() =~= Seq::<char>::empty());
    assert(replaced(Seq::<char>::empty(), c, with) + (if x == c { with } else { seq![x] }) =~= (if x == c {
        with
    } else {
        seq![x]
    }));
}

/// The words of a list, put one after the other.
pub open spec fn joined(ws: Seq<Seq<char>>) -> Seq<char>
    decreases ws.len(),
{
    if ws.len() == 0 {
        Seq::empty()
    } else {
        joined(ws.drop_last()) + ws.last()
    }
}

/// The characters of a text that are not whitespace, in order.
pub open spec fn non_white(s: Seq<char>) -> Seq<char>
    decreases s.len(),
{
    if s.len() == 0 {
        Seq::empty()
    } else if is_white_space(s[0]) {
        non_white(s.drop_first())
    } else {
        seq![s[0]] + non_white(s.drop_first())
    }
}

proof fn lemma_joined_append(a: Seq<Seq<char>>, b: Seq<Seq<char>>)
    ensures
        joined(a + b) == joined(a) + joined(b),
    decreases b.len(),
{
    if b.len() == 0 {
        assert(a + b =~= a);
        assert(joined(a) + joined(b) =~= joined(a));
    } else {
        lemma_joined_append(a, b.drop_last());
        assert((a + b).drop_last() =~= a + b.drop_last());
        assert(joined(a) + joined(b.drop_last()) + b.last() =~= joined(a) + (joined(b.drop_last()) + b.last()));
    }
}

proof fn lemma_words_after_keep_everything(s: Seq<char>, cur: Seq<char>)
    ensures
        joined(words_after(s, cur)) == cur + non_white(s),
    decreases s.len(),
{
    if s.len() == 0 {
        assert(words_after(s, cur) == word_if_any(cur));
        if cur.len() > 0 {
            assert(seq![cur].drop_last() =~= Seq::<Seq<char>>::empty());
            assert(joined(Seq::<Seq<char>>::empty()) == Seq::<char>::empty());
            assert(seq![cur].last() == cur);
            assert(Seq::<char>::empty() + cur =~= cur);
            assert(joined(seq![cur]) =~= cur);
        }
        assert(cur + non_white(s) =~= cur);
    } else if is_white_space(s[0]) {
        lemma_words_after_keep_everything(s.drop_first(), Seq::empty());
        let a = word_if_any(cur);
        let b = words_after(s.drop_first(), Seq::empty());
        assert(words_after(s, cur) == a + b);
        lemma_joined_append(a, b);
        if cur.len() > 0 {
            assert(seq![cur].drop_last() =~= Seq::<Seq<char>>::empty());
            assert(joined(Seq::<Seq<char>>::empty()) == Seq::<char>::empty());
            assert(seq![cur].last() == cur);
            assert(Seq::<char>::empty() + cur =~= cur);
            assert(joined(seq![cur]) =~= cur);
        }
        assert(joined(a) =~= cur);
        assert(Seq::<char>::empty() + non_white(s.drop_first()) =~= non_white(s.drop_first()));
    } else {
        let next = cur.push(s[0]);
        lemma_words_after_keep_everything(s.drop_first(), next);
        assert(words_after(s, cur) == words_after(s.drop_first(), next));
        assert(next + non_white(s.drop_first()) =~= cur + (seq![s[0]] + non_white(s.drop_first())));
    }
}

/// Splitting a text into words keeps every character that is not
/// whitespace, in order: the words put together are the text without its
/// whitespace.
pub proof fn words_keep_every_other_character(s: Seq<char>)
    ensures
        joined(words(s)) == non_white(s),
{
    lemma_words_after_keep_everything(s, Seq::empty());
    assert(Seq::<char>::empty() + non_white(s) =~= non_white(s));
}

/// The byte prefix of a text is where its encoding is cut: the prefix
/// encodes to the first `n` bytes of the text's encoding (all of them when
/// the text is shorter), and it is the text's first characters.
pub proof fn byte_prefix_is_the_first_bytes(s: Seq<char>, n: nat)
    requires
        encode_utf8(s).len() <= n || is_char_boundary(encode_utf8(s), n as int),
    ensures
        encode_utf8(byte_prefix(s, n)) == encode_utf8(s).subrange(
            0,
            if encode_utf8(s).len() <= n { encode_utf8(s).len() as int } else { n as int },
        ),
        byte_prefix(s, n).len() <= s.len(),
        s.subrange(0, byte_prefix(s, n).len() as int) == byte_prefix(s, n),
{
    let e = encode_utf8(s);
    if e.len() <= n {
        assert(e.subrange(0, e.len() as int) =~= e);
        assert(s.subrange(0, s.len() as int) =~= s);
    } else {
        broadcast use encode_utf8_valid_utf8, encode_utf8_decode_utf8, decode_utf8_encode_utf8, valid_utf8_split, decode_utf8_split;
        assert(valid_utf8(e));
        assert(valid_utf8(e.subrange(0, n as int)));
        assert(encode_utf8(decode_utf8(e.subrange(0, n as int))) == e.subrange(0, n as int));
        assert(decode_utf8(e) == s);
        let p = decode_utf8(e.subrange(0, n as int));
        let q = decode_utf8(e.subrange(n as int, e.len() as int));
        assert(s =~= p + q);
        assert(s.subrange(0, p.len() as int) =~= p);
    }
}

/// The decimal form of an integer spells it: its digits for a number that
/// is not negative, a minus sign and the digits of its magnitude otherwise.
pub proof fn decimal_spells_the_integer(n: int)
    ensures
        n >= 0 ==> digits_value(decimal(n)) == n && 48 <= decimal(n)[0] as int <= 57,
        n < 0 ==> decimal(n)[0] == '-' && digits_value(decimal(n).drop_first()) == -n,
        decimal(n).len() > 0,
{
    if n >= 0 {
        digits_spell_the_number(n as nat);
    } else {
        digits_spell_the_number((-n) as nat);
        assert(decimal(n).drop_first() =~= digits((-n) as nat));
    }
}

} // verus!
