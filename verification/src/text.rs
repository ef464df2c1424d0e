//! Small verified text utilities used by the command rules.

use vstd::prelude::*;

verus! {

/// `p` is a prefix of `s`.
pub open spec fn is_prefix_of(p: Seq<char>, s: Seq<char>) -> bool {
    p.len() <= s.len() && s.subrange(0, p.len() as int) == p
}

/// Index of the first occurrence of `c` in `s`, if any.
pub open spec fn first_index_of(s: Seq<char>, c: char) -> Option<int>
    decreases s.len(),
{
    if s.len() == 0 {
        None
    } else if s[0] == c {
        Some(0)
    } else {
        match first_index_of(s.subrange(1, s.len() as int), c) {
            Some(i) => Some(i + 1),
            None => None,
        }
    }
}

/// `n` occurs as a contiguous run somewhere in `h`.
pub open spec fn has_substring(h: Seq<char>, n: Seq<char>) -> bool {
    exists|i: int|
        0 <= i && i + n.len() <= h.len() && #[trigger] h.subrange(i, i + n.len() as int) == n
}

/// Decimal digit characters of `n`, most significant first.
pub open spec fn decimal_chars(n: nat) -> Seq<char>
    decreases n,
{
    if n < 10 {
        seq![digit_char(n)]
    } else {
        decimal_chars(n / 10).push(digit_char(n % 10))
    }
}

/// The character for one decimal digit.
pub open spec fn digit_char(d: nat) -> char {
    ((48 + d) as u8) as char
}

/// A sequence without `c` up to an occurrence of `c` at `i` puts the
/// first occurrence exactly there; a sequence without `c` at all has
/// none.
proof fn lemma_first_index_of_found(s: Seq<char>, c: char, i: int)
    requires
        0 <= i < s.len(),
        s[i] == c,
        forall|j: int| 0 <= j < i ==> s[j] != c,
    ensures
        first_index_of(s, c) == Some(i),
    decreases s.len(),
{
    if i > 0 {
        let t = s.subrange(1, s.len() as int);
        assert(forall|j: int| 0 <= j < i - 1 ==> t[j] != c);
        lemma_first_index_of_found(t, c, i - 1);
    }
}

proof fn lemma_first_index_of_none(s: Seq<char>, c: char)
    requires
        forall|j: int| 0 <= j < s.len() ==> s[j] != c,
    ensures
        first_index_of(s, c) is None,
    decreases s.len(),
{
    if s.len() > 0 {
        let t = s.subrange(1, s.len() as int);
        lemma_first_index_of_none(t, c);
    }
}

/// Whether `prefix` is a prefix of `s`.
pub fn starts_with(s: &str, prefix: &str) -> (r: bool)
    ensures
        r == is_prefix_of(prefix@, s@),
{
    let n = s.unicode_len();
    let p = prefix.unicode_len();
    if p > n {
        return false;
    }
    let mut i: usize = 0;
    while i < p
        invariant
            i <= p,
            p <= n,
            p == prefix@.len(),
            n == s@.len(),
            forall|j: int| 0 <= j < i ==> s@[j] == prefix@[j],
        decreases p - i,
    {
        if s.get_char(i) != prefix.get_char(i) {
            assert(s@.subrange(0, p as int)[i as int] != prefix@[i as int]);
            return false;
        }
        i = i + 1;
    }
    proof {
        assert(s@.subrange(0, p as int) =~= prefix@);
    }
    true
}

/// Whether the two strings hold the same characters.
pub fn str_eq(a: &str, b: &str) -> (r: bool)
    ensures
        r == (a@ == b@),
{
    let n = a.unicode_len();
    if n != b.unicode_len() {
        return false;
    }
    let mut i: usize = 0;
    while i < n
        invariant
            i <= n,
            n == a@.len(),
            n == b@.len(),
            forall|j: int| 0 <= j < i ==> a@[j] == b@[j],
        decreases n - i,
    {
        if a.get_char(i) != b.get_char(i) {
            return false;
        }
        i = i + 1;
    }
    proof {
        assert(a@ =~= b@);
    }
    true
}

/// Index of the first occurrence of `c` in `s`, if any.
pub fn find_char(s: &str, c: char) -> (r: Option<usize>)
    ensures
        match r {
            Some(i) => Some(i as int) == first_index_of(s@, c) && i < s@.len()
                && s@[i as int] == c,
            None => first_index_of(s@, c) is None,
        },
{
    let n = s.unicode_len();
    let mut i: usize = 0;
    while i < n
        invariant
            i <= n,
            n == s@.len(),
            forall|j: int| 0 <= j < i ==> s@[j] != c,
        decreases n - i,
    {
        if s.get_char(i) == c {
            proof {
                lemma_first_index_of_found(s@, c, i as int);
            }
            return Some(i);
        }
        i = i + 1;
    }
    proof {
        lemma_first_index_of_none(s@, c);
    }
    None
}

/// Whether `needle` occurs as a contiguous run somewhere in `haystack`.
pub fn contains_str(haystack: &str, needle: &str) -> (r: bool)
    ensures
        r == has_substring(haystack@, needle@),
{
    let n = haystack.unicode_len();
    let m = needle.unicode_len();
    if m > n {
        assert(!has_substring(haystack@, needle@));
        return false;
    }
    let mut i: usize = 0;
    while i <= n - m
        invariant
            m <= n,
            n == haystack@.len(),
            m == needle@.len(),
            i <= n - m + 1,
            forall|k: int|
                0 <= k < i ==> #[trigger] haystack@.subrange(k, k + m as int) != needle@,
        decreases n + 1 - m - i,
    {
        let mut j: usize = 0;
        let mut matched = true;
        while j < m && matched
            invariant
                i + m <= n,
                n == haystack@.len(),
                m == needle@.len(),
                j <= m,
                matched ==> forall|l: int|
                    0 <= l < j ==> haystack@[i + l] == needle@[l],
                !matched ==> j < m && haystack@[i + j as int] != needle@[j as int],
            decreases m - j + (if matched { 1int } else { 0int }),
        {
            if haystack.get_char(i + j) == needle.get_char(j) {
                j = j + 1;
            } else {
                assert(haystack@[i + j as int] != needle@[j as int]);
                matched = false;
            }
        }
        if matched {
            proof {
                assert(haystack@.subrange(i as int, i + m as int) =~= needle@);
            }
            return true;
        } else {
            proof {
                let sub = haystack@.subrange(i as int, i + m as int);
                assert(sub[j as int] != needle@[j as int]);
            }
        }
        i = i + 1;
    }
    proof {
        assert forall|k: int| 0 <= k && k + m <= n implies
            #[trigger] haystack@.subrange(k, k + m as int) != needle@ by {
            assert(k < i);
        }
    }
    false
}

/// Unfold one step of the decimal representation of a value of two or
/// more digits.
proof fn lemma_decimal_chars_snoc(n: nat)
    requires
        n >= 10,
    ensures
        decimal_chars(n) == decimal_chars(n / 10).push(digit_char(n % 10)),
{
}

/// Prepending a digit prepends its character.
proof fn lemma_digits_as_chars_cons(d: u8, ds: Seq<u8>)
    ensures
        digits_as_chars(seq![d] + ds) == seq![digit_char(d as nat)] + digits_as_chars(ds),
{
    let whole = seq![d] + ds;
    assert(whole[0] == d);
    assert(whole.subrange(1, whole.len() as int) =~= ds);
}

/// Appending a digit appends its character.
proof fn lemma_digits_as_chars_snoc(ds: Seq<u8>, d: u8)
    ensures
        digits_as_chars(ds.push(d)) == digits_as_chars(ds) + seq![digit_char(d as nat)],
    decreases ds.len(),
{
    if ds.len() == 0 {
        assert(ds.push(d) =~= seq![d] + Seq::<u8>::empty());
        lemma_digits_as_chars_cons(d, Seq::<u8>::empty());
        assert(digits_as_chars(Seq::<u8>::empty()) == Seq::<char>::empty());
        assert(seq![digit_char(d as nat)] + Seq::<char>::empty()
            =~= seq![digit_char(d as nat)]);
        assert(Seq::<char>::empty() + seq![digit_char(d as nat)]
            =~= seq![digit_char(d as nat)]);
    } else {
        let tail = ds.subrange(1, ds.len() as int);
        lemma_digits_as_chars_snoc(tail, d);
        assert(ds.push(d).subrange(1, ds.push(d).len() as int) =~= tail.push(d));
        assert(digits_as_chars(ds.push(d)) == seq![digit_char(ds[0] as nat)]
            + digits_as_chars(tail.push(d)));
        assert(seq![digit_char(ds[0] as nat)]
            + (digits_as_chars(tail) + seq![digit_char(d as nat)])
            =~= (seq![digit_char(ds[0] as nat)] + digits_as_chars(tail))
                + seq![digit_char(d as nat)]);
    }
}

/// The decimal digits of `n`, as a string.
pub fn u32_to_decimal(n: u32) -> (r: String)
    ensures
        r@ == decimal_chars(n as nat),
{
    // Collect the digits above the lowest one, most significant first.
    let mut digits: Vec<u8> = Vec::new();
    let mut rest: u32 = n;
    proof {
        assert(digits_as_chars(Seq::<u8>::empty()) == Seq::<char>::empty());
        assert(decimal_chars(n as nat) + Seq::<char>::empty() =~= decimal_chars(n as nat));
    }
    while rest >= 10
        invariant
            rest <= n,
            decimal_chars(n as nat) == decimal_chars(rest as nat)
                + digits_as_chars(digits@),
            forall|j: int| 0 <= j < digits@.len() ==> digits@[j] < 10,
        decreases rest,
    {
        let d: u8 = (rest % 10) as u8;
        let next = rest / 10;
        proof {
            lemma_decimal_chars_snoc(rest as nat);
            lemma_digits_as_chars_cons(d, digits@);
            assert(seq![d] + digits@ =~= digits@.insert(0, d));
            assert(decimal_chars(next as nat).push(digit_char(d as nat))
                + digits_as_chars(digits@)
                =~= decimal_chars(next as nat)
                    + (seq![digit_char(d as nat)] + digits_as_chars(digits@)));
        }
        digits.insert(0, d);
        rest = next;
    }
    proof {
        lemma_digits_as_chars_cons(rest as u8, digits@);
        assert(seq![rest as u8] + digits@ =~= digits@.insert(0, rest as u8));
        assert(decimal_chars(rest as nat) == seq![digit_char(rest as nat)]);
    }
    digits.insert(0, rest as u8);
    assert(decimal_chars(n as nat) == digits_as_chars(digits@));
    // Render the collected digits.
    let mut out = String::new();
    let mut i: usize = 0;
    while i < digits.len()
        invariant
            i <= digits@.len(),
            out@ == digits_as_chars(digits@.subrange(0, i as int)),
            forall|j: int| 0 <= j < digits@.len() ==> digits@[j] < 10,
            decimal_chars(n as nat) == digits_as_chars(digits@),
        decreases digits@.len() - i,
    {
        let piece = digit_str(digits[i]);
        out.append(piece);
        proof {
            lemma_digits_as_chars_snoc(
                digits@.subrange(0, i as int),
                digits@[i as int],
            );
            assert(digits@.subrange(0, i + 1) =~= digits@.subrange(0, i as int).push(
                digits@[i as int],
            ));
        }
        i = i + 1;
    }
    proof {
        assert(digits@.subrange(0, digits@.len() as int) =~= digits@);
    }
    out
}

/// The digit characters of a digit vector, in the order the vector
/// holds them.
pub open spec fn digits_as_chars(ds: Seq<u8>) -> Seq<char>
    decreases ds.len(),
{
    if ds.len() == 0 {
        Seq::empty()
    } else {
        seq![digit_char(ds[0] as nat)] + digits_as_chars(ds.subrange(1, ds.len() as int))
    }
}

/// The one-character string for a decimal digit.
fn digit_str(d: u8) -> (r: &'static str)
    requires
        d < 10,
    ensures
        r@ == seq![digit_char(d as nat)],
{
    let r = match d {
        0 => "0",
        1 => "1",
        2 => "2",
        3 => "3",
        4 => "4",
        5 => "5",
        6 => "6",
        7 => "7",
        8 => "8",
        _ => "9",
    };
    proof {
        reveal_strlit("0");
        reveal_strlit("1");
        reveal_strlit("2");
        reveal_strlit("3");
        reveal_strlit("4");
        reveal_strlit("5");
        reveal_strlit("6");
        reveal_strlit("7");
        reveal_strlit("8");
        reveal_strlit("9");
        assert(r@ =~= seq![digit_char(d as nat)]);
    }
    r
}

} // verus!
