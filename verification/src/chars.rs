//! Character-sequence helpers shared by the topic grammar: decimal digit
//! strings, scanning, and comparisons over `Vec<char>`.

use vstd::prelude::*;

verus! {

/// True when `c` is a decimal digit.
pub open spec fn is_digit(c: char) -> bool {
    '0' <= c && c <= '9'
}

/// The decimal digit character for `d` (0 through 9).
pub open spec fn digit_char(d: int) -> char {
    if d == 0 {
        '0'
    } else if d == 1 {
        '1'
    } else if d == 2 {
        '2'
    } else if d == 3 {
        '3'
    } else if d == 4 {
        '4'
    } else if d == 5 {
        '5'
    } else if d == 6 {
        '6'
    } else if d == 7 {
        '7'
    } else if d == 8 {
        '8'
    } else {
        '9'
    }
}

/// The numeric value of a decimal digit character.
pub open spec fn digit_val(c: char) -> int {
    if c == '0' {
        0
    } else if c == '1' {
        1
    } else if c == '2' {
        2
    } else if c == '3' {
        3
    } else if c == '4' {
        4
    } else if c == '5' {
        5
    } else if c == '6' {
        6
    } else if c == '7' {
        7
    } else if c == '8' {
        8
    } else {
        9
    }
}

/// The canonical decimal rendering of `n`: most significant digit first,
/// no leading zeros.
pub open spec fn dec_digits(n: nat) -> Seq<char>
    decreases n,
{
    if n < 10 {
        seq![digit_char(n as int)]
    } else {
        dec_digits(n / 10).push(digit_char((n % 10) as int))
    }
}

/// The numeric value of a digit string (most significant digit first).
pub open spec fn dec_value(s: Seq<char>) -> int
    decreases s.len(),
{
    if s.len() == 0 {
        0
    } else {
        dec_value(s.drop_last()) * 10 + digit_val(s.last())
    }
}

/// The canonical rendering consists of digits, has no leading zero, and
/// evaluates back to the number it renders.
pub proof fn lemma_dec_digits(n: nat)
    ensures
        dec_digits(n).len() >= 1,
        forall|i: int| 0 <= i < dec_digits(n).len() ==> is_digit(#[trigger] dec_digits(n)[i]),
        n >= 1 ==> dec_digits(n)[0] != '0',
        n == 0 ==> dec_digits(n) == seq!['0'],
        dec_value(dec_digits(n)) == n,
    decreases n,
{
    if n < 10 {
        assert(digit_val(digit_char(n as int)) == n);
        assert(dec_digits(n) == seq![digit_char(n as int)]);
        assert(dec_digits(n).drop_last() =~= Seq::<char>::empty());
        assert(dec_value(dec_digits(n)) == dec_value(Seq::<char>::empty()) * 10 + digit_val(
            digit_char(n as int),
        ));
    } else {
        lemma_dec_digits(n / 10);
        let s = dec_digits(n / 10);
        let c = digit_char((n % 10) as int);
        assert(digit_val(c) == n % 10);
        assert(s.push(c).drop_last() =~= s);
        assert(s.push(c).last() == c);
        assert(dec_value(dec_digits(n)) == dec_value(s) * 10 + digit_val(c));
        assert(dec_digits(n)[0] == s[0]);
    }
}

/// `dec_value` of an all-digit string is non-negative.
pub proof fn lemma_dec_value_nonneg(s: Seq<char>)
    requires
        forall|i: int| 0 <= i < s.len() ==> is_digit(#[trigger] s[i]),
    ensures
        dec_value(s) >= 0,
    decreases s.len(),
{
    if s.len() > 0 {
        assert(forall|i: int| 0 <= i < s.drop_last().len() ==> is_digit(#[trigger] s.drop_last()[i]));
        lemma_dec_value_nonneg(s.drop_last());
    }
}

/// Extending a digit string on the right can only increase its value.
pub proof fn lemma_dec_value_extend_ge(s: Seq<char>, t: Seq<char>)
    requires
        forall|i: int| 0 <= i < t.len() ==> is_digit(#[trigger] t[i]),
        s.len() <= t.len(),
        s == t.subrange(0, s.len() as int),
    ensures
        dec_value(t) >= dec_value(s),
    decreases t.len() - s.len(),
{
    if s.len() < t.len() {
        let u = t.subrange(0, s.len() as int + 1);
        assert(u.drop_last() =~= s);
        assert(forall|i: int| 0 <= i < u.len() ==> is_digit(#[trigger] u[i]));
        lemma_dec_value_nonneg(u.drop_last());
        assert(dec_value(u) == dec_value(s) * 10 + digit_val(u.last()));
        assert(dec_value(u) >= dec_value(s));
        lemma_dec_value_extend_ge(u, t);
    } else {
        assert(s =~= t);
    }
}

/// The decimal digit character for `d`, executable form.
pub fn digit_char_exec(d: u64) -> (c: char)
    requires
        d < 10,
    ensures
        c == digit_char(d as int),
{
    if d == 0 {
        '0'
    } else if d == 1 {
        '1'
    } else if d == 2 {
        '2'
    } else if d == 3 {
        '3'
    } else if d == 4 {
        '4'
    } else if d == 5 {
        '5'
    } else if d == 6 {
        '6'
    } else if d == 7 {
        '7'
    } else if d == 8 {
        '8'
    } else {
        '9'
    }
}

/// Renders `n` as its canonical decimal digit string.
pub fn format_u64(n: u64) -> (r: Vec<char>)
    ensures
        r@ == dec_digits(n as nat),
    decreases n,
{
    if n < 10 {
        let mut v: Vec<char> = Vec::new();
        v.push(digit_char_exec(n));
        proof {
            assert(v@ =~= seq![digit_char(n as int)]);
        }
        v
    } else {
        let mut v = format_u64(n / 10);
        v.push(digit_char_exec(n % 10));
        proof {
            assert(v@ =~= dec_digits((n / 10) as nat).push(digit_char((n % 10) as int)));
        }
        v
    }
}

/// Compares two character vectors for content equality.
pub fn chars_eq(a: &Vec<char>, b: &Vec<char>) -> (r: bool)
    ensures
        r == (a@ == b@),
{
    if a.len() != b.len() {
        return false;
    }
    let mut i: usize = 0;
    while i < a.len()
        invariant
            i <= a@.len(),
            a@.len() == b@.len(),
            forall|j: int| 0 <= j < i ==> a@[j] == b@[j],
        decreases a@.len() - i,
    {
        if a[i] != b[i] {
            return false;
        }
        i += 1;
    }
    proof {
        assert(a@ =~= b@);
    }
    true
}

/// True when `p` is a prefix of `t`.
pub fn has_prefix(t: &Vec<char>, p: &Vec<char>) -> (r: bool)
    ensures
        r == (t@.len() >= p@.len() && t@.subrange(0, p@.len() as int) == p@),
{
    if t.len() < p.len() {
        return false;
    }
    let mut i: usize = 0;
    while i < p.len()
        invariant
            i <= p@.len(),
            p@.len() <= t@.len(),
            forall|j: int| 0 <= j < i ==> t@[j] == p@[j],
        decreases p@.len() - i,
    {
        if t[i] != p[i] {
            proof {
                assert(t@.subrange(0, p@.len() as int)[i as int] == t@[i as int]);
            }
            return false;
        }
        i += 1;
    }
    proof {
        assert(t@.subrange(0, p@.len() as int) =~= p@);
    }
    true
}

/// Copies the characters `t[from..to]` into a fresh vector.
pub fn copy_range(t: &Vec<char>, from: usize, to: usize) -> (r: Vec<char>)
    requires
        from <= to <= t@.len(),
    ensures
        r@ == t@.subrange(from as int, to as int),
{
    let mut r: Vec<char> = Vec::new();
    let mut i: usize = from;
    while i < to
        invariant
            from <= i <= to <= t@.len(),
            r@ == t@.subrange(from as int, i as int),
        decreases to - i,
    {
        r.push(t[i]);
        i += 1;
        proof {
            assert(r@ =~= t@.subrange(from as int, i as int));
        }
    }
    r
}

/// True when the characters of `p` occur in `t` starting at position `at`.
pub fn range_matches(t: &Vec<char>, at: usize, p: &Vec<char>) -> (r: bool)
    requires
        at <= t@.len(),
    ensures
        r == (at + p@.len() <= t@.len() && t@.subrange(at as int, at as int + p@.len() as int)
            == p@),
{
    if t.len() - at < p.len() {
        return false;
    }
    let mut i: usize = 0;
    while i < p.len()
        invariant
            i <= p@.len(),
            at + p@.len() <= t@.len(),
            t@.len() <= usize::MAX,
            forall|j: int| 0 <= j < i ==> t@[at + j] == p@[j],
        decreases p@.len() - i,
    {
        if t[at + i] != p[i] {
            proof {
                assert(t@.subrange(at as int, at as int + p@.len() as int)[i as int] == t@[at
                    + i as int]);
            }
            return false;
        }
        i += 1;
    }
    proof {
        assert(t@.subrange(at as int, at as int + p@.len() as int) =~= p@);
    }
    true
}

/// Copies a byte vector.
pub fn copy_bytes(v: &Vec<u8>) -> (r: Vec<u8>)
    ensures
        r@ == v@,
{
    let mut r: Vec<u8> = Vec::new();
    let mut i: usize = 0;
    while i < v.len()
        invariant
            i <= v@.len(),
            r@ == v@.subrange(0, i as int),
        decreases v@.len() - i,
    {
        r.push(v[i]);
        i += 1;
        proof {
            assert(r@ =~= v@.subrange(0, i as int));
        }
    }
    proof {
        assert(v@.subrange(0, i as int) =~= v@);
    }
    r
}

/// The position of the first occurrence of `c` in `s` at or after `i`.
pub open spec fn find_from(s: Seq<char>, i: int, c: char) -> Option<int>
    decreases s.len() - i,
{
    if i < 0 || i >= s.len() {
        None
    } else if s[i] == c {
        Some(i)
    } else {
        find_from(s, i + 1, c)
    }
}

/// What `find_from` returns: the first hit, or a guarantee of no hit.
pub proof fn lemma_find_from(s: Seq<char>, i: int, c: char)
    requires
        0 <= i <= s.len(),
    ensures
        match find_from(s, i, c) {
            Some(j) => i <= j < s.len() && s[j] == c && forall|k: int| i <= k < j ==> s[k] != c,
            None => forall|k: int| i <= k < s.len() ==> s[k] != c,
        },
    decreases s.len() - i,
{
    if i < s.len() && s[i] != c {
        lemma_find_from(s, i + 1, c);
    }
}

/// Scans for the first occurrence of `c` in `t` at or after `from`.
pub fn find_char(t: &Vec<char>, from: usize, c: char) -> (r: Option<usize>)
    requires
        from <= t@.len(),
    ensures
        match r {
            Some(j) => from <= j && find_from(t@, from as int, c) == Some(j as int),
            None => find_from(t@, from as int, c) is None,
        },
{
    let mut i: usize = from;
    while i < t.len()
        invariant
            from <= i <= t@.len(),
            find_from(t@, from as int, c) == find_from(t@, i as int, c),
        decreases t@.len() - i,
    {
        if t[i] == c {
            return Some(i);
        }
        i += 1;
    }
    None
}

/// `find_from` returns exactly the position that a first occurrence pins.
pub proof fn lemma_find_from_unique(s: Seq<char>, i: int, c: char, j: int)
    requires
        0 <= i <= j < s.len(),
        s[j] == c,
        forall|k: int| i <= k < j ==> s[k] != c,
    ensures
        find_from(s, i, c) == Some(j),
    decreases j - i,
{
    if i < j {
        lemma_find_from_unique(s, i + 1, c, j);
    }
}

/// The end of the run of digit characters that starts at `i`.
pub open spec fn digit_run_end(s: Seq<char>, i: int) -> int
    decreases s.len() - i,
{
    if i < 0 || i >= s.len() {
        i
    } else if !is_digit(s[i]) {
        i
    } else {
        digit_run_end(s, i + 1)
    }
}

/// What `digit_run_end` returns: a maximal run of digits.
pub proof fn lemma_digit_run_end(s: Seq<char>, i: int)
    requires
        0 <= i <= s.len(),
    ensures
        i <= digit_run_end(s, i) <= s.len(),
        forall|k: int| i <= k < digit_run_end(s, i) ==> is_digit(#[trigger] s[k]),
        digit_run_end(s, i) < s.len() ==> !is_digit(s[digit_run_end(s, i)]),
    decreases s.len() - i,
{
    if i < s.len() && is_digit(s[i]) {
        lemma_digit_run_end(s, i + 1);
    }
}

/// `digit_run_end` returns exactly the position that a maximal run pins.
pub proof fn lemma_digit_run_end_unique(s: Seq<char>, i: int, j: int)
    requires
        0 <= i <= j <= s.len(),
        forall|k: int| i <= k < j ==> is_digit(#[trigger] s[k]),
        j < s.len() ==> !is_digit(s[j]),
    ensures
        digit_run_end(s, i) == j,
    decreases j - i,
{
    if i < j {
        lemma_digit_run_end_unique(s, i + 1, j);
    }
}

/// Scans to the end of the digit run that starts at `from`.
pub fn scan_digits(t: &Vec<char>, from: usize) -> (j: usize)
    requires
        from <= t@.len(),
    ensures
        j as int == digit_run_end(t@, from as int),
        from <= j <= t@.len(),
{
    let mut i: usize = from;
    while i < t.len()
        invariant
            from <= i <= t@.len(),
            digit_run_end(t@, from as int) == digit_run_end(t@, i as int),
        decreases t@.len() - i,
    {
        let c = t[i];
        if !('0' <= c && c <= '9') {
            return i;
        }
        i += 1;
    }
    i
}

/// Computes the value of the digit run `t[from..to]`, detecting overflow.
pub fn digits_value(t: &Vec<char>, from: usize, to: usize) -> (r: Option<u64>)
    requires
        from <= to <= t@.len(),
        forall|k: int| from <= k < to ==> is_digit(#[trigger] t@[k]),
    ensures
        match r {
            Some(v) => v as int == dec_value(t@.subrange(from as int, to as int)),
            None => dec_value(t@.subrange(from as int, to as int)) > u64::MAX,
        },
{
    let mut v: u64 = 0;
    let mut i: usize = from;
    while i < to
        invariant
            from <= i <= to <= t@.len(),
            forall|k: int| from <= k < to ==> is_digit(#[trigger] t@[k]),
            v as int == dec_value(t@.subrange(from as int, i as int)),
        decreases to - i,
    {
        let c = t[i];
        let d: u64 = if c == '0' {
            0
        } else if c == '1' {
            1
        } else if c == '2' {
            2
        } else if c == '3' {
            3
        } else if c == '4' {
            4
        } else if c == '5' {
            5
        } else if c == '6' {
            6
        } else if c == '7' {
            7
        } else if c == '8' {
            8
        } else {
            9
        };
        proof {
            assert(is_digit(t@[i as int]));
            assert(d as int == digit_val(t@[i as int]));
        }
        if v > (u64::MAX - d) / 10 {
            proof {
                let grown = t@.subrange(from as int, i as int + 1);
                assert(grown.drop_last() =~= t@.subrange(from as int, i as int));
                assert(grown.last() == t@[i as int]);
                assert(dec_value(grown) == (v as int) * 10 + d as int);
                assert((v as int) * 10 + d as int > u64::MAX) by (nonlinear_arith)
                    requires
                        v as int > (u64::MAX as int - d as int) / 10,
                        0 <= d as int <= 9,
                {
                }
                assert(forall|k: int| 0 <= k < grown.len() ==> is_digit(#[trigger] grown[k]));
                assert(t@.subrange(from as int, to as int).subrange(0, grown.len() as int) =~= grown);
                lemma_dec_value_extend_ge(grown, t@.subrange(from as int, to as int));
            }
            return None;
        }
        proof {
            assert((v as int) * 10 + d as int <= u64::MAX) by (nonlinear_arith)
                requires
                    v as int <= (u64::MAX as int - d as int) / 10,
                    0 <= d as int <= 9,
                    0 <= v as int,
            {
            }
        }
        v = v * 10 + d;
        i += 1;
        proof {
            let grown = t@.subrange(from as int, i as int);
            assert(grown.drop_last() =~= t@.subrange(from as int, i as int - 1));
            assert(grown.last() == t@[i as int - 1]);
        }
    }
    proof {
        assert(t@.subrange(from as int, to as int) =~= t@.subrange(from as int, i as int));
    }
    Some(v)
}

} // verus!
