//! Character-level text handling: whitespace words, comma-separated lists,
//! decimal numbers.
use vstd::prelude::*;

verus! {

/// Unicode `White_Space`, the property behind `char::is_whitespace`.
pub open spec fn is_space(c: char) -> bool {
    let n = c as u32;
    ||| 0x9 <= n <= 0xd
    ||| n == 0x20
    ||| n == 0x85
    ||| n == 0xa0
    ||| n == 0x1680
    ||| 0x2000 <= n <= 0x200a
    ||| n == 0x2028
    ||| n == 0x2029
    ||| n == 0x202f
    ||| n == 0x205f
    ||| n == 0x3000
}

/// Whether `c` is a Unicode whitespace character.
pub fn space_char(c: char) -> (b: bool)
    ensures
        b == is_space(c),
{
    let n: u32 = c as u32;
    (0x9 <= n && n <= 0xd) || n == 0x20 || n == 0x85 || n == 0xa0 || n == 0x1680 || (0x2000
        <= n && n <= 0x200a) || n == 0x2028 || n == 0x2029 || n == 0x202f || n == 0x205f || n
        == 0x3000
}

/// The characters of `s`, in order.
pub fn chars_of(s: &str) -> (v: Vec<char>)
    ensures
        v@ == s@,
{
    let n: usize = s.unicode_len();
    let mut v: Vec<char> = Vec::new();
    let mut i: usize = 0;
    while i < n
        invariant
            n == s@.len(),
            i <= n,
            v@ == s@.take(i as int),
        decreases n - i,
    {
        v.push(s.get_char(i));
        i = i + 1;
        assert(v@ =~= s@.take(i as int));
    }
    assert(s@.take(n as int) =~= s@);
    v
}

/// Whether two texts hold the same characters.
pub fn same_text(a: &str, b: &str) -> (r: bool)
    ensures
        r == (a@ == b@),
{
    let x: Vec<char> = chars_of(a);
    let y: Vec<char> = chars_of(b);
    if x.len() != y.len() {
        return false;
    }
    let mut i: usize = 0;
    while i < x.len()
        invariant
            x@ == a@,
            y@ == b@,
            x.len() == y.len(),
            i <= x.len(),
            forall|k: int| 0 <= k < i ==> x@[k] == y@[k],
        decreases x.len() - i,
    {
        if x[i] != y[i] {
            return false;
        }
        i = i + 1;
    }
    assert(x@ =~= y@);
    true
}


/// Length of the longest prefix of `s` that holds no whitespace.
pub open spec fn word_len(s: Seq<char>) -> nat
    decreases s.len(),
{
    if s.len() == 0 || is_space(s[0]) {
        0
    } else {
        1 + word_len(s.drop_first())
    }
}

/// The whitespace-separated words of `s`, in order, as `str::split_whitespace`
/// yields them.
pub open spec fn words(s: Seq<char>) -> Seq<Seq<char>>
    decreases s.len(),
{
    if s.len() == 0 {
        seq![]
    } else if is_space(s[0]) {
        words(s.drop_first())
    } else {
        let n = word_len(s);
        if n >= s.len() {
            seq![s]
        } else {
            seq![s.take(n as int)] + words(s.skip(n as int))
        }
    }
}

/// A word ends where whitespace or the text ends.
pub proof fn lemma_word_len(s: Seq<char>, k: int)
    requires
        0 <= k <= s.len(),
        forall|j: int| 0 <= j < k ==> !is_space(#[trigger] s[j]),
        k == s.len() || is_space(s[k]),
    ensures
        word_len(s) == k,
    decreases k,
{
    if k > 0 {
        assert forall|j: int| 0 <= j < k - 1 implies !is_space(#[trigger] s.drop_first()[j]) by {
            assert(s.drop_first()[j] == s[j + 1]);
        }
        lemma_word_len(s.drop_first(), k - 1);
    }
}

/// The words of `s`, each as its own `String`, in order.
pub fn split_words(s: &str) -> (out: Vec<String>)
    ensures
        out@.map_values(|w: String| w@) == words(s@),
{
    let c: Vec<char> = chars_of(s);
    let n: usize = c.len();
    let mut out: Vec<String> = Vec::new();
    let mut i: usize = 0;
    assert(s@.skip(0) =~= s@);
    while i < n
        invariant
            c@ == s@,
            n == s@.len(),
            i <= n,
            words(s@) == out@.map_values(|w: String| w@) + words(s@.skip(i as int)),
        decreases n - i,
    {
        let ghost rest = s@.skip(i as int);
        if space_char(c[i]) {
            assert(rest.drop_first() =~= s@.skip(i + 1));
            i = i + 1;
        } else {
            let mut j: usize = i + 1;
            while j < n && !space_char(c[j])
                invariant
                    c@ == s@,
                    n == s@.len(),
                    i < j <= n,
                    forall|k: int| i <= k < j ==> !is_space(#[trigger] s@[k]),
                decreases n - j,
            {
                j = j + 1;
            }
            proof {
                assert forall|k: int| 0 <= k < j - i implies !is_space(#[trigger] rest[k]) by {
                    assert(rest[k] == s@[i + k]);
                }
                lemma_word_len(rest, j - i);
            }
            let w: String = String::from_str(s.substring_char(i, j));
            proof {
                assert(rest.take(j - i) =~= s@.subrange(i as int, j as int));
                if j < n {
                    assert(rest.skip(j - i) =~= s@.skip(j as int));
                } else {
                    assert(rest.take(j - i) =~= rest);
                    assert(s@.skip(j as int) =~= Seq::<char>::empty());
                }
            }
            let ghost before = out@.map_values(|w: String| w@);
            out.push(w);
            assert(out@.map_values(|w: String| w@) =~= before.push(w@));
            i = j;
        }
    }
    assert(s@.skip(n as int) =~= Seq::<char>::empty());
    assert(out@.map_values(|w: String| w@) + words(s@.skip(n as int)) =~= out@.map_values(
        |w: String| w@,
    ));
    out
}


/// Position of the first `sep` in `s`, or the length of `s` when there is none.
pub open spec fn sep_pos(s: Seq<char>, sep: char) -> nat
    decreases s.len(),
{
    if s.len() == 0 || s[0] == sep {
        0
    } else {
        1 + sep_pos(s.drop_first(), sep)
    }
}

/// The pieces of `s` between occurrences of `sep`, as `str::split` with a
/// character yields them: `n` separators give `n + 1` pieces, empty ones included.
pub open spec fn pieces(s: Seq<char>, sep: char) -> Seq<Seq<char>>
    decreases s.len(),
{
    let k = sep_pos(s, sep);
    if k >= s.len() {
        seq![s]
    } else {
        seq![s.take(k as int)] + pieces(s.skip(k + 1 as int), sep)
    }
}

/// The items of `xs` written one after another with `sep` between two neighbours.
pub open spec fn joined(xs: Seq<Seq<char>>, sep: char) -> Seq<char>
    decreases xs.len(),
{
    if xs.len() == 0 {
        seq![]
    } else if xs.len() == 1 {
        xs[0]
    } else {
        xs[0] + seq![sep] + joined(xs.drop_first(), sep)
    }
}

/// Whether `c` occurs in `s`.
pub open spec fn holds(s: Seq<char>, c: char) -> bool {
    exists|i: int| 0 <= i < s.len() && s[i] == c
}

/// A piece ends where the separator or the text ends.
pub proof fn lemma_sep_pos(s: Seq<char>, sep: char, k: int)
    requires
        0 <= k <= s.len(),
        forall|j: int| 0 <= j < k ==> #[trigger] s[j] != sep,
        k == s.len() || s[k] == sep,
    ensures
        sep_pos(s, sep) == k,
    decreases k,
{
    if k > 0 {
        assert forall|j: int| 0 <= j < k - 1 implies #[trigger] s.drop_first()[j] != sep by {
            assert(s.drop_first()[j] == s[j + 1]);
        }
        lemma_sep_pos(s.drop_first(), sep, k - 1);
    }
}

/// Appending one more item to a joined list appends the separator and the item.
pub proof fn lemma_joined_push(xs: Seq<Seq<char>>, x: Seq<char>, sep: char)
    requires
        xs.len() > 0,
    ensures
        joined(xs.push(x), sep) == joined(xs, sep) + seq![sep] + x,
    decreases xs.len(),
{
    if xs.len() == 1 {
        assert(xs.push(x).drop_first() =~= seq![x]);
        assert(joined(seq![x], sep) == x);
    } else {
        lemma_joined_push(xs.drop_first(), x, sep);
        assert(xs.push(x).drop_first() =~= xs.drop_first().push(x));
        assert(joined(xs.push(x), sep) =~= xs[0] + seq![sep] + joined(xs.drop_first().push(x), sep));
    }
}

/// The pieces of `s` between commas, each as its own `String`, in order.
pub fn split_commas(s: &str) -> (out: Vec<String>)
    ensures
        out@.map_values(|w: String| w@) == pieces(s@, ','),
{
    let c: Vec<char> = chars_of(s);
    let n: usize = c.len();
    let mut out: Vec<String> = Vec::new();
    let mut start: usize = 0;
    let mut i: usize = 0;
    assert(s@.skip(0) =~= s@);
    while i < n
        invariant
            c@ == s@,
            n == s@.len(),
            start <= i <= n,
            forall|k: int| start <= k < i ==> #[trigger] s@[k] != ',',
            pieces(s@, ',') == out@.map_values(|w: String| w@) + pieces(s@.skip(start as int), ','),
        decreases n - i,
    {
        if c[i] == ',' {
            let ghost rest = s@.skip(start as int);
            proof {
                assert forall|k: int| 0 <= k < i - start implies #[trigger] rest[k] != ',' by {
                    assert(rest[k] == s@[start + k]);
                }
                lemma_sep_pos(rest, ',', i - start);
                assert(rest.take(i - start) =~= s@.subrange(start as int, i as int));
                assert(rest.skip(i - start + 1) =~= s@.skip(i + 1));
            }
            let w: String = String::from_str(s.substring_char(start, i));
            let ghost before = out@.map_values(|w: String| w@);
            out.push(w);
            assert(out@.map_values(|w: String| w@) =~= before.push(w@));
            i = i + 1;
            start = i;
        } else {
            i = i + 1;
        }
    }
    let ghost rest = s@.skip(start as int);
    proof {
        assert forall|k: int| 0 <= k < n - start implies #[trigger] rest[k] != ',' by {
            assert(rest[k] == s@[start + k]);
        }
        lemma_sep_pos(rest, ',', n - start);
        assert(rest =~= s@.subrange(start as int, n as int));
    }
    let w: String = String::from_str(s.substring_char(start, n));
    let ghost before = out@.map_values(|w: String| w@);
    out.push(w);
    assert(out@.map_values(|w: String| w@) =~= before.push(w@));
    out
}

/// The items of `xs` joined into one text with commas between them.
pub fn join_commas(xs: &Vec<String>) -> (r: String)
    ensures
        r@ == joined(xs@.map_values(|w: String| w@), ','),
{
    let ghost v = xs@.map_values(|w: String| w@);
    let mut r: String = String::new();
    if xs.len() == 0 {
        return r;
    }
    r.append(xs[0].as_str());
    assert(v.take(1) =~= seq![v[0]]);
    let mut i: usize = 1;
    while i < xs.len()
        invariant
            v == xs@.map_values(|w: String| w@),
            1 <= i <= xs.len(),
            r@ == joined(v.take(i as int), ','),
        decreases xs.len() - i,
    {
        r.append(",");
        r.append(xs[i].as_str());
        proof {
            reveal_strlit(",");
            lemma_joined_push(v.take(i as int), v[i as int], ',');
            assert(v.take(i as int).push(v[i as int]) =~= v.take(i + 1));
        }
        i = i + 1;
    }
    assert(v.take(xs.len() as int) =~= v);
    r
}


/// Splitting a joined list at the separator gives the list back, provided no
/// item holds the separator.
pub proof fn lemma_pieces_of_joined(xs: Seq<Seq<char>>, sep: char)
    requires
        xs.len() > 0,
        forall|i: int| 0 <= i < xs.len() ==> !holds(#[trigger] xs[i], sep),
    ensures
        pieces(joined(xs, sep), sep) == xs,
    decreases xs.len(),
{
    let x = xs[0];
    assert(!holds(x, sep));
    assert forall|j: int| 0 <= j < x.len() implies #[trigger] x[j] != sep by {
        if x[j] == sep {
            assert(holds(x, sep));
        }
    }
    if xs.len() == 1 {
        lemma_sep_pos(x, sep, x.len() as int);
        assert(pieces(x, sep) =~= seq![x]);
        assert(xs =~= seq![x]);
    } else {
        let rest = xs.drop_first();
        assert forall|i: int| 0 <= i < rest.len() implies !holds(#[trigger] rest[i], sep) by {
            assert(rest[i] == xs[i + 1]);
        }
        lemma_pieces_of_joined(rest, sep);
        let s = x + seq![sep] + joined(rest, sep);
        assert forall|j: int| 0 <= j < x.len() implies #[trigger] s[j] != sep by {
            assert(s[j] == x[j]);
        }
        assert(s[x.len() as int] == sep);
        lemma_sep_pos(s, sep, x.len() as int);
        assert(s.take(x.len() as int) =~= x);
        assert(s.skip(x.len() + 1 as int) =~= joined(rest, sep));
        assert(seq![x] + rest =~= xs);
    }
}

/// A word followed by whitespace, or by nothing, is the first word.
pub proof fn lemma_words_lead(a: Seq<char>, rest: Seq<char>)
    requires
        a.len() > 0,
        forall|j: int| 0 <= j < a.len() ==> !is_space(#[trigger] a[j]),
        rest.len() == 0 || is_space(rest[0]),
    ensures
        words(a + rest) == seq![a] + words(rest),
{
    let s = a + rest;
    assert forall|j: int| 0 <= j < a.len() implies !is_space(#[trigger] s[j]) by {
        assert(s[j] == a[j]);
    }
    lemma_word_len(s, a.len() as int);
    if rest.len() == 0 {
        assert(s =~= a);
        assert(words(rest) =~= Seq::<Seq<char>>::empty());
        assert(seq![a] + words(rest) =~= seq![a]);
    } else {
        assert(s.take(a.len() as int) =~= a);
        assert(s.skip(a.len() as int) =~= rest);
    }
}

/// Leading whitespace does not start a word.
pub proof fn lemma_words_skip_space(c: char, rest: Seq<char>)
    requires
        is_space(c),
    ensures
        words(seq![c] + rest) == words(rest),
{
    let s = seq![c] + rest;
    assert(s.drop_first() =~= rest);
}

/// The decimal digit `d` as a character.
pub open spec fn digit(d: nat) -> char {
    (48 + d) as char
}

/// The decimal notation of `n`, without leading zeros.
pub open spec fn decimal(n: nat) -> Seq<char>
    decreases n,
{
    if n < 10 {
        seq![digit(n)]
    } else {
        decimal(n / 10).push(digit(n % 10))
    }
}

/// Decimal notation holds digits only.
pub proof fn lemma_decimal_digits(n: nat)
    ensures
        decimal(n).len() > 0,
        forall|j: int| 0 <= j < decimal(n).len() ==> '0' <= #[trigger] decimal(n)[j] <= '9',
    decreases n,
{
    if n >= 10 {
        lemma_decimal_digits(n / 10);
    }
}

/// The one-character text of the decimal digit `d`.
fn digit_text(d: u64) -> (t: &'static str)
    requires
        d < 10,
    ensures
        t@ == seq![digit(d as nat)],
{
    proof {
        reveal_strlit("0");
        reveal_strlit("1");
        reveal_strlit("2");
        reveal_strlit("3");
        reveal_strlit("4");
        reveal_strlit("5");
        reveal_strlit("6");
        reveal_strlit("7");
        reveal_strlit("8");
        reveal_strlit("9");
    }
    let t: &'static str = if d == 0 {
        "0"
    } else if d == 1 {
        "1"
    } else if d == 2 {
        "2"
    } else if d == 3 {
        "3"
    } else if d == 4 {
        "4"
    } else if d == 5 {
        "5"
    } else if d == 6 {
        "6"
    } else if d == 7 {
        "7"
    } else if d == 8 {
        "8"
    } else {
        "9"
    };
    assert(t@ =~= seq![digit(d as nat)]);
    t
}

/// Appends the decimal notation of `n` to `out`.
pub fn push_decimal(out: &mut String, n: u64)
    ensures
        final(out)@ == old(out)@ + decimal(n as nat),
    decreases n,
{
    if n >= 10 {
        push_decimal(out, n / 10);
        out.append(digit_text(n % 10));
        assert(decimal(n as nat) == decimal((n / 10) as nat).push(digit((n % 10) as nat)));
        assert(final(out)@ =~= old(out)@ + decimal(n as nat));
    } else {
        out.append(digit_text(n));
    }
}


/// The number that a text of decimal digits denotes, as `str::parse` reads it.
pub open spec fn decimal_value(s: Seq<char>) -> int
    decreases s.len(),
{
    if s.len() == 0 {
        0
    } else {
        decimal_value(s.drop_last()) * 10 + (s.last() as int - 48)
    }
}

/// Reading a number's decimal notation gives the number back.
pub proof fn lemma_decimal_value(n: nat)
    ensures
        decimal_value(decimal(n)) == n,
    decreases n,
{
    if n < 10 {
        assert(decimal(n).drop_last() =~= Seq::<char>::empty());
        assert(decimal_value(Seq::<char>::empty()) == 0);
    } else {
        lemma_decimal_value(n / 10);
        assert(decimal(n).drop_last() =~= decimal(n / 10));
        assert(decimal(n).last() == digit(n % 10));
        assert((n / 10) * 10 + n % 10 == n) by (nonlinear_arith);
    }
}

} // verus!
