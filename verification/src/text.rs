//! Text primitives for the line protocol.
//!
//! The protocol is plain text: lines are classified by prefix, values
//! are whitespace-delimited tokens, and outgoing commands are built by
//! concatenation.  Everything here is specified against sequences of
//! characters, so the protocol layer can state its behaviour exactly.

use vstd::prelude::*;

verus! {

/// The separator characters of the line protocol: the blank and the
/// control characters that can surround a token or terminate a line.
pub open spec fn is_space_char(c: char) -> bool {
    c == ' ' || c == '\t' || c == '\n' || c == '\r'
}

fn is_space(c: char) -> (r: bool)
    ensures
        r == is_space_char(c),
{
    c == ' ' || c == '\t' || c == '\n' || c == '\r'
}

/// `p` is a prefix of `s`.
pub open spec fn has_prefix(s: Seq<char>, p: Seq<char>) -> bool {
    p.len() <= s.len() && s.subrange(0, p.len() as int) == p
}

/// Whether the text begins with the given prefix.
pub fn starts_with_str(s: &str, p: &str) -> (r: bool)
    ensures
        r == has_prefix(s@, p@),
{
    let sn: usize = s.unicode_len();
    let pn: usize = p.unicode_len();
    if pn > sn {
        return false;
    }
    let mut i: usize = 0;
    while i < pn
        invariant
            i <= pn,
            pn <= sn,
            pn == p@.len(),
            sn == s@.len(),
            forall|j: int| 0 <= j < i ==> s@[j] == p@[j],
        decreases pn - i,
    {
        if s.get_char(i) != p.get_char(i) {
            assert(s@.subrange(0, p@.len() as int) == p@
                ==> s@.subrange(0, p@.len() as int)[i as int] == p@[i as int]);
            return false;
        }
        i += 1;
    }
    assert(s@.subrange(0, p@.len() as int) =~= p@);
    true
}

/// `n` occurs in `s` as a contiguous run.
pub open spec fn contains_seq(s: Seq<char>, n: Seq<char>) -> bool {
    exists|i: int|
        0 <= i && i + n.len() <= s.len() && #[trigger] s.subrange(i, i + n.len()) == n
}

/// Whether `n` occurs somewhere in `s`; used to classify free-form
/// engine output by the words it carries.
pub fn contains_str(s: &str, n: &str) -> (r: bool)
    ensures
        r == contains_seq(s@, n@),
{
    let sn: usize = s.unicode_len();
    let nn: usize = n.unicode_len();
    if nn > sn {
        return false;
    }
    if nn == 0 {
        assert(contains_seq(s@, n@)) by {
            assert(s@.subrange(0, 0 + n@.len() as int) =~= n@);
        }
        return true;
    }
    let mut i: usize = 0;
    while i <= sn - nn
        invariant
            1 <= nn <= sn,
            nn == n@.len(),
            sn == s@.len(),
            i <= sn - nn + 1,
            forall|k: int| 0 <= k < i ==> #[trigger] s@.subrange(k, k + n@.len()) != n@,
        decreases sn - nn - i + 1,
    {
        let mut j: usize = 0;
        let mut hit: bool = true;
        while j < nn
            invariant
                j <= nn,
                nn == n@.len(),
                sn == s@.len(),
                i + nn <= sn,
                hit ==> forall|k: int| 0 <= k < j ==> s@[i + k] == n@[k],
                !hit ==> s@.subrange(i as int, i + n@.len()) != n@,
            decreases nn - j,
        {
            if s.get_char(i + j) != n.get_char(j) {
                proof {
                    assert(s@.subrange(i as int, i + n@.len()) == n@
                        ==> s@.subrange(i as int, i + n@.len())[j as int] == n@[j as int]);
                }
                hit = false;
                j = nn;
            } else {
                j += 1;
            }
        }
        if hit {
            assert(s@.subrange(i as int, i + n@.len()) =~= n@);
            return true;
        }
        i += 1;
    }
    false
}

/// The sequence with the leading separator characters removed.
pub open spec fn trim_front(s: Seq<char>) -> Seq<char>
    decreases s.len(),
{
    if s.len() > 0 && is_space_char(s[0]) {
        trim_front(s.drop_first())
    } else {
        s
    }
}

/// The sequence with the trailing separator characters removed.
pub open spec fn trim_back(s: Seq<char>) -> Seq<char>
    decreases s.len(),
{
    if s.len() > 0 && is_space_char(s[s.len() - 1]) {
        trim_back(s.drop_last())
    } else {
        s
    }
}

/// The sequence with separator characters removed from both ends.
pub open spec fn trimmed(s: Seq<char>) -> Seq<char> {
    trim_back(trim_front(s))
}

/// The text with separator characters removed from both ends; response
/// lines are trimmed this way before they are compared or collected.
pub fn trim_str<'a>(s: &'a str) -> (r: &'a str)
    ensures
        r@ == trimmed(s@),
{
    let n: usize = s.unicode_len();
    let mut a: usize = 0;
    proof {
        assert(s@.skip(0) =~= s@);
    }
    loop
        invariant
            a <= n,
            n == s@.len(),
            trim_front(s@) == trim_front(s@.skip(a as int)),
        ensures
            a <= n,
            trim_front(s@) == s@.skip(a as int),
        decreases n - a,
    {
        if a >= n {
            proof {
                assert(s@.skip(a as int) =~= Seq::<char>::empty());
            }
            break;
        }
        let c = s.get_char(a);
        if !is_space(c) {
            break;
        }
        proof {
            assert(s@.skip(a as int).drop_first() =~= s@.skip(a + 1));
        }
        a += 1;
    }
    let mut b: usize = n;
    proof {
        assert(s@.subrange(a as int, n as int) =~= s@.skip(a as int));
    }
    loop
        invariant
            a <= b <= n,
            n == s@.len(),
            trim_front(s@) == s@.skip(a as int),
            trim_back(s@.skip(a as int)) == trim_back(s@.subrange(a as int, b as int)),
        ensures
            a <= b <= n,
            trimmed(s@) == s@.subrange(a as int, b as int),
        decreases b,
    {
        if b <= a {
            break;
        }
        let c = s.get_char(b - 1);
        if !is_space(c) {
            break;
        }
        proof {
            assert(s@.subrange(a as int, b as int).drop_last() =~= s@.subrange(
                a as int,
                b - 1,
            ));
        }
        b -= 1;
    }
    s.substring_char(a, b)
}

/// The length of the token at the head of `s`: the count of characters
/// before the first separator (zero if `s` opens with a separator).
pub open spec fn word_len(s: Seq<char>) -> nat
    decreases s.len(),
{
    if s.len() == 0 || is_space_char(s[0]) {
        0
    } else {
        1 + word_len(s.drop_first())
    }
}

pub proof fn lemma_word_len_bounds(s: Seq<char>)
    ensures
        word_len(s) <= s.len(),
    decreases s.len(),
{
    if s.len() > 0 && !is_space_char(s[0]) {
        lemma_word_len_bounds(s.drop_first());
    }
}

/// The head token runs exactly up to the first separator: if the first
/// `m` characters are not separators and the character at `m` (if any)
/// is one, the head token has length `m`.
pub proof fn lemma_word_len_at(s: Seq<char>, m: int)
    requires
        0 <= m <= s.len(),
        forall|k: int| 0 <= k < m ==> !is_space_char(s[k]),
        m < s.len() ==> is_space_char(s[m]),
    ensures
        word_len(s) == m,
    decreases m,
{
    if m == 0 {
    } else {
        assert(!is_space_char(s[0]));
        lemma_word_len_at(s.drop_first(), m - 1);
    }
}

/// The whitespace-delimited tokens of `s`, in order.
pub open spec fn tokens_of(s: Seq<char>) -> Seq<Seq<char>>
    decreases s.len(),
{
    if s.len() == 0 {
        Seq::empty()
    } else if is_space_char(s[0]) {
        tokens_of(s.drop_first())
    } else {
        proof {
            assert(word_len(s) >= 1);
            lemma_word_len_bounds(s);
        }
        seq![s.take(word_len(s) as int)] + tokens_of(s.skip(word_len(s) as int))
    }
}

/// The whitespace-delimited tokens of the text, in order, as the
/// protocol reads a response line.
pub fn split_tokens(s: &str) -> (v: Vec<String>)
    ensures
        v.deep_view() == tokens_of(s@),
{
    let n: usize = s.unicode_len();
    let mut v: Vec<String> = Vec::new();
    let mut i: usize = 0;
    proof {
        assert(s@.skip(0) =~= s@);
        assert(v.deep_view() + tokens_of(s@.skip(0)) =~= tokens_of(s@));
    }
    while i < n
        invariant
            i <= n,
            n == s@.len(),
            tokens_of(s@) == v.deep_view() + tokens_of(s@.skip(i as int)),
        decreases n - i,
    {
        let c = s.get_char(i);
        if is_space(c) {
            proof {
                assert(s@.skip(i as int).drop_first() =~= s@.skip(i + 1));
            }
            i += 1;
        } else {
            let mut j: usize = i + 1;
            loop
                invariant
                    i < j <= n,
                    n == s@.len(),
                    forall|k: int| i <= k < j ==> !is_space_char(s@[k]),
                ensures
                    i < j <= n,
                    forall|k: int| i <= k < j ==> !is_space_char(s@[k]),
                    j < n ==> is_space_char(s@[j as int]),
                decreases n - j,
            {
                if j >= n {
                    break;
                }
                let d = s.get_char(j);
                if is_space(d) {
                    break;
                }
                j += 1;
            }
            proof {
                let t = s@.skip(i as int);
                assert(forall|k: int| 0 <= k < j - i ==> t[k] == s@[k + i]);
                assert(j - i < t.len() ==> is_space_char(t[j - i]));
                lemma_word_len_at(t, j - i);
                assert(t.take(j - i) =~= s@.subrange(i as int, j as int));
                assert(t.skip(j - i) =~= s@.skip(j as int));
            }
            let w = s.substring_char(i, j);
            let token = String::from_str(w);
            let ghost old_dv = v.deep_view();
            v.push(token);
            proof {
                assert(v.deep_view() =~= old_dv.push(w@));
                assert(v.deep_view() + tokens_of(s@.skip(j as int)) =~= tokens_of(s@));
            }
            i = j;
        }
    }
    proof {
        assert(s@.skip(n as int) =~= Seq::<char>::empty());
        assert(v.deep_view() =~= tokens_of(s@));
    }
    v
}

/// The token at position `n` of `s`, or the empty sequence where `s`
/// has no such token.
pub open spec fn token_or_empty(s: Seq<char>, n: int) -> Seq<char> {
    if 0 <= n < tokens_of(s).len() {
        tokens_of(s)[n]
    } else {
        Seq::empty()
    }
}

/// The last token of `s`, or the empty sequence where `s` has none.
pub open spec fn last_token_or_empty(s: Seq<char>) -> Seq<char> {
    token_or_empty(s, tokens_of(s).len() - 1)
}

/// The token at the given position, or the empty string where the text
/// has fewer tokens.
pub fn token_at_or_empty(s: &str, n: usize) -> (r: String)
    ensures
        r@ == token_or_empty(s@, n as int),
{
    let v = split_tokens(s);
    if n < v.len() {
        let t = &v[n];
        t.clone()
    } else {
        String::new()
    }
}

/// The last token of the text, or the empty string where it has none.
pub fn last_token(s: &str) -> (r: String)
    ensures
        r@ == last_token_or_empty(s@),
{
    let v = split_tokens(s);
    if v.len() > 0 {
        let t = &v[v.len() - 1];
        t.clone()
    } else {
        String::new()
    }
}

/// The items laid end to end with `sep` between each neighbouring pair;
/// empty for no items, and a lone item stands unchanged.
pub open spec fn join_with(items: Seq<Seq<char>>, sep: Seq<char>) -> Seq<char>
    decreases items.len(),
{
    if items.len() == 0 {
        Seq::empty()
    } else if items.len() == 1 {
        items[0]
    } else {
        items[0] + sep + join_with(items.drop_first(), sep)
    }
}

/// Appending one more item to a non-empty join appends the separator
/// and the item.
pub proof fn lemma_join_push(items: Seq<Seq<char>>, sep: Seq<char>, x: Seq<char>)
    requires
        items.len() >= 1,
    ensures
        join_with(items.push(x), sep) == join_with(items, sep) + sep + x,
    decreases items.len(),
{
    if items.len() == 1 {
        assert(items.push(x)[0] == items[0]);
        assert(items.push(x).drop_first() =~= seq![x]);
        assert(join_with(seq![x], sep) == x);
        assert(join_with(items.push(x), sep) == items[0] + sep + x);
    } else {
        assert(items.push(x).drop_first() =~= items.drop_first().push(x));
        lemma_join_push(items.drop_first(), sep, x);
        assert(join_with(items, sep) + sep + x =~= items[0] + sep + (join_with(
            items.drop_first(),
            sep,
        ) + sep + x));
    }
}

/// The texts laid end to end with the separator between each
/// neighbouring pair, in order.
pub fn join_strings(items: &Vec<String>, sep: &str) -> (r: String)
    ensures
        r@ == join_with(items.deep_view(), sep@),
{
    let mut r = String::new();
    let n: usize = items.len();
    if n == 0 {
        return r;
    }
    r.append(items[0].as_str());
    let mut i: usize = 1;
    while i < n
        invariant
            1 <= i <= n,
            n == items.deep_view().len(),
            items.deep_view().len() == items@.len(),
            forall|k: int| 0 <= k < n ==> items.deep_view()[k] == items@[k]@,
            r@ == join_with(items.deep_view().take(i as int), sep@),
        decreases n - i,
    {
        r.append(sep);
        r.append(items[i].as_str());
        proof {
            assert(items.deep_view().take(i as int).push(items@[i as int]@)
                =~= items.deep_view().take(i + 1));
            lemma_join_push(items.deep_view().take(i as int), sep@, items@[i as int]@);
        }
        i += 1;
    }
    proof {
        assert(items.deep_view().take(n as int) =~= items.deep_view());
    }
    r
}

/// The decimal digit character for a value below ten.
pub open spec fn dec_digit(d: nat) -> char {
    if d == 0 {
        '0'
    } else if d == 1 {
        '1'
    } else if d == 2 {
        '2'
    } else if d == 3 {
        '3'
    } else if d == 4 {
        '4'
    } else if d == 5 {
        '5'
    } else if d == 6 {
        '6'
    } else if d == 7 {
        '7'
    } else if d == 8 {
        '8'
    } else {
        '9'
    }
}

/// The decimal rendering of `n`, most significant digit first, with no
/// sign and no leading zero except for `n == 0` itself.
pub open spec fn dec_str(n: nat) -> Seq<char>
    decreases n,
{
    if n < 10 {
        seq![dec_digit(n)]
    } else {
        dec_str(n / 10).push(dec_digit(n % 10))
    }
}

fn digit_str(d: u32) -> (r: &'static str)
    requires
        d < 10,
    ensures
        r@ == seq![dec_digit(d as nat)],
{
    proof {
        reveal_strlit("0");
        reveal_strlit("1");
        reveal_strlit("2");
        reveal_strlit("3");
        reveal_strlit("4");
        reveal_strlit("5");
        reveal_strlit("6");
        reveal_strlit("7");
        reveal_strlit("8");
        reveal_strlit("9");
    }
    let r: &'static str = match d {
        0 => "0",
        1 => "1",
        2 => "2",
        3 => "3",
        4 => "4",
        5 => "5",
        6 => "6",
        7 => "7",
        8 => "8",
        _ => "9",
    };
    proof {
        assert(r@ =~= seq![dec_digit(d as nat)]);
    }
    r
}

/// The number rendered in decimal, as it stands in a command line.
pub fn u32_string(n: u32) -> (r: String)
    ensures
        r@ == dec_str(n as nat),
    decreases n,
{
    if n < 10 {
        let d = digit_str(n);
        String::from_str(d)
    } else {
        proof {
            assert(n / 10 < n) by (nonlinear_arith)
                requires n >= 10;
        }
        let mut r = u32_string(n / 10);
        let d = digit_str(n % 10);
        r.append(d);
        proof {
            assert(dec_str((n / 10) as nat) + seq![dec_digit((n % 10) as nat)]
                =~= dec_str((n / 10) as nat).push(dec_digit((n % 10) as nat)));
        }
        r
    }
}

} // verus!
