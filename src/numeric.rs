//! Recognition of the text of a floating-point literal, and whitespace trimming.
//!
//! Which texts a fact may hold is decided here on characters; turning an
//! accepted literal into a binary floating-point number happens at the edge of
//! the library.
use vstd::prelude::*;

verus! {

/// The characters that `char::is_whitespace` accepts (Unicode `White_Space`).
pub open spec fn is_white(c: char) -> bool {
    ||| ('\t' <= c && c <= '\r')
    ||| c == ' '
    ||| c == '\u{85}'
    ||| c == '\u{a0}'
    ||| c == '\u{1680}'
    ||| ('\u{2000}' <= c && c <= '\u{200a}')
    ||| c == '\u{2028}'
    ||| c == '\u{2029}'
    ||| c == '\u{202f}'
    ||| c == '\u{205f}'
    ||| c == '\u{3000}'
}

fn white(c: char) -> (r: bool)
    ensures
        r == is_white(c),
{
    ('\t' <= c && c <= '\r') || c == ' ' || c == '\u{85}' || c == '\u{a0}' || c == '\u{1680}'
        || ('\u{2000}' <= c && c <= '\u{200a}') || c == '\u{2028}' || c == '\u{2029}'
        || c == '\u{202f}' || c == '\u{205f}' || c == '\u{3000}'
}

/// `s` without its leading whitespace.
pub open spec fn trim_start(s: Seq<char>) -> Seq<char>
    decreases s.len(),
{
    if s.len() > 0 && is_white(s[0]) {
        trim_start(s.drop_first())
    } else {
        s
    }
}

/// `s` without its trailing whitespace.
pub open spec fn trim_end(s: Seq<char>) -> Seq<char>
    decreases s.len(),
{
    if s.len() > 0 && is_white(s.last()) {
        trim_end(s.drop_last())
    } else {
        s
    }
}

/// `s` without leading and trailing whitespace.
pub open spec fn trimmed(s: Seq<char>) -> Seq<char> {
    trim_end(trim_start(s))
}

/// Removes leading and trailing whitespace.
pub fn trim(s: &Vec<char>) -> (r: Vec<char>)
    ensures
        r@ == trimmed(s@),
{
    let n = s.len();
    let mut a: usize = 0;
    assert(s@.subrange(0, n as int) =~= s@);
    while a < n && white(s[a])
        invariant
            n == s.len(),
            a <= n,
            trim_start(s@) == trim_start(s@.subrange(a as int, n as int)),
        decreases n - a,
    {
        assert(s@.subrange(a as int, n as int).drop_first() =~= s@.subrange(a + 1, n as int));
        a = a + 1;
    }
    assert(trim_start(s@) == s@.subrange(a as int, n as int));
    let mut b: usize = n;
    while b > a && white(s[b - 1])
        invariant
            a <= b <= n == s.len(),
            trim_start(s@) == s@.subrange(a as int, n as int),
            trimmed(s@) == trim_end(s@.subrange(a as int, b as int)),
        decreases b - a,
    {
        assert(s@.subrange(a as int, b as int).drop_last() =~= s@.subrange(a as int, b - 1));
        b = b - 1;
    }
    let mut r: Vec<char> = Vec::new();
    let mut i: usize = a;
    while i < b
        invariant
            a <= i <= b <= n == s.len(),
            r@ == s@.subrange(a as int, i as int),
        decreases b - i,
    {
        r.push(s[i]);
        assert(r@ =~= s@.subrange(a as int, i + 1));
        i = i + 1;
    }
    r
}

pub open spec fn is_digit(c: char) -> bool {
    '0' <= c && c <= '9'
}

pub open spec fn all_digits(s: Seq<char>) -> bool {
    forall|i: int| 0 <= i < s.len() ==> is_digit(#[trigger] s[i])
}

pub open spec fn is_sign(c: char) -> bool {
    c == '+' || c == '-'
}

/// `s` without one leading sign.
pub open spec fn unsigned(s: Seq<char>) -> Seq<char> {
    if s.len() > 0 && is_sign(s[0]) {
        s.drop_first()
    } else {
        s
    }
}

/// `Digit+ | Digit+ '.' Digit* | Digit* '.' Digit+`
pub open spec fn is_mantissa(m: Seq<char>) -> bool {
    ||| (m.len() > 0 && all_digits(m))
    ||| exists|p: int|
        0 <= p < m.len() && m[p] == '.' && m.len() > 1 && all_digits(m.take(p)) && all_digits(
            m.skip(p + 1),
        )
}

/// `Sign? Digit+`
pub open spec fn is_exponent(e: Seq<char>) -> bool {
    e.len() > 0 && all_digits(unsigned(e)) && unsigned(e).len() > 0
}

/// `Mantissa ( ('e' | 'E') Exponent )?`
pub open spec fn is_number(s: Seq<char>) -> bool {
    ||| is_mantissa(s)
    ||| exists|k: int|
        0 <= k < s.len() && (s[k] == 'e' || s[k] == 'E') && is_mantissa(s.take(k)) && is_exponent(
            s.skip(k + 1),
        )
}

/// `s` spells the lower-case ASCII word `w`, in any case.
pub open spec fn spells(s: Seq<char>, w: Seq<char>) -> bool {
    s.len() == w.len() && forall|i: int|
        0 <= i < s.len() ==> (#[trigger] s[i] == w[i] || s[i] as u32 + 32 == w[i] as u32)
}

/// The texts that `f64::from_str` accepts, by the grammar its documentation
/// gives: `Sign? ( 'inf' | 'infinity' | 'nan' | Number )`, letters in any case,
/// no surrounding whitespace.
pub open spec fn is_float_literal(s: Seq<char>) -> bool {
    let u = unsigned(s);
    ||| is_number(u)
    ||| spells(u, seq!['i', 'n', 'f'])
    ||| spells(u, seq!['i', 'n', 'f', 'i', 'n', 'i', 't', 'y'])
    ||| spells(u, seq!['n', 'a', 'n'])
}

/// Number of leading digits of `s[from..to]`, as an end position.
fn digits_end(s: &Vec<char>, from: usize, to: usize) -> (r: usize)
    requires
        from <= to <= s.len(),
    ensures
        from <= r <= to,
        all_digits(s@.subrange(from as int, r as int)),
        r < to ==> !is_digit(s@[r as int]),
{
    let mut i = from;
    while i < to && '0' <= s[i] && s[i] <= '9'
        invariant
            from <= i <= to <= s.len(),
            all_digits(s@.subrange(from as int, i as int)),
        decreases to - i,
    {
        assert forall|k: int| 0 <= k < i + 1 - from implies is_digit(
            #[trigger] s@.subrange(from as int, i + 1)[k],
        ) by {
            if k < i - from {
                assert(s@.subrange(from as int, i + 1)[k] == s@.subrange(from as int, i as int)[k]);
            }
        }
        i = i + 1;
    }
    i
}

fn mantissa(s: &Vec<char>, from: usize, to: usize) -> (r: bool)
    requires
        from <= to <= s.len(),
    ensures
        r == is_mantissa(s@.subrange(from as int, to as int)),
{
    let ghost m = s@.subrange(from as int, to as int);
    let p = digits_end(s, from, to);
    assert(m.take(p - from) =~= s@.subrange(from as int, p as int));
    if p == to {
        assert(m =~= s@.subrange(from as int, p as int));
        if to > from {
            return true;
        }
        assert(m.len() == 0);
        return false;
    }
    let ghost q = p - from;
    assert(m[q] == s@[p as int]);
    if s[p] != '.' {
        assert forall|p2: int|
            0 <= p2 < m.len() && m[p2] == '.' && all_digits(m.take(p2)) implies false by {
            if p2 > q {
                assert(m.take(p2)[q] == m[q]);
            }
        }
        assert(!all_digits(m)) by {
            assert(!is_digit(m[q]));
        }
        return false;
    }
    let e = digits_end(s, p + 1, to);
    assert(m.skip(q + 1) =~= s@.subrange(p + 1, to as int));
    assert forall|p2: int|
        0 <= p2 < m.len() && m[p2] == '.' && all_digits(m.take(p2)) implies p2 == q by {
        if p2 > q {
            assert(m.take(p2)[q] == m[q]);
        }
        if p2 < q {
            assert(m[p2] == s@.subrange(from as int, p as int)[p2]);
        }
    }
    assert(!all_digits(m)) by {
        assert(!is_digit(m[q]));
    }
    if e == to && to - from > 1 {
        assert(s@.subrange(p + 1, to as int) =~= s@.subrange(p + 1, e as int));
        true
    } else {
        if e < to {
            assert(s@.subrange(p + 1, to as int)[e - p - 1] == s@[e as int]);
            assert(!all_digits(m.skip(q + 1)));
        }
        false
    }
}

fn exponent(s: &Vec<char>, from: usize, to: usize) -> (r: bool)
    requires
        from <= to <= s.len(),
    ensures
        r == is_exponent(s@.subrange(from as int, to as int)),
{
    let ghost e = s@.subrange(from as int, to as int);
    if from == to {
        return false;
    }
    let start = if s[from] == '+' || s[from] == '-' {
        from + 1
    } else {
        from
    };
    assert(unsigned(e) =~= s@.subrange(start as int, to as int));
    let d = digits_end(s, start, to);
    if d < to {
        assert(unsigned(e)[d - start] == s@[d as int]);
    } else {
        assert(s@.subrange(start as int, d as int) =~= unsigned(e));
    }
    d == to && to > start
}

fn number(s: &Vec<char>, from: usize) -> (r: bool)
    requires
        from <= s.len(),
    ensures
        r == is_number(s@.subrange(from as int, s@.len() as int)),
{
    let n = s.len();
    let ghost u = s@.subrange(from as int, n as int);
    let mut k = from;
    while k < n && s[k] != 'e' && s[k] != 'E'
        invariant
            from <= k <= n == s.len(),
            forall|j: int| from <= j < k ==> s@[j] != 'e' && s@[j] != 'E',
        decreases n - k,
    {
        k = k + 1;
    }
    if k == n {
        assert(u =~= s@.subrange(from as int, k as int));
        assert forall|k2: int|
            0 <= k2 < u.len() && (u[k2] == 'e' || u[k2] == 'E') implies false by {
            assert(u[k2] == s@[from + k2]);
        }
        return mantissa(s, from, n);
    }
    let ghost q = k - from;
    assert(u.take(q) =~= s@.subrange(from as int, k as int));
    assert(u.skip(q + 1) =~= s@.subrange(k + 1, n as int));
    let m = mantissa(s, from, k);
    let x = exponent(s, k + 1, n);
    assert(!is_mantissa(u)) by {
        assert(u[q] == 'e' || u[q] == 'E');
        assert(!is_digit(u[q]));
        assert forall|p: int|
            0 <= p < u.len() && u[p] == '.' && all_digits(u.take(p)) implies !all_digits(
                u.skip(p + 1),
            ) by {
            if p > q {
                assert(u.take(p)[q] == u[q]);
            } else {
                assert(u.skip(p + 1)[q - p - 1] == u[q]);
            }
        }
    }
    assert forall|k2: int|
        0 <= k2 < u.len() && (u[k2] == 'e' || u[k2] == 'E') && is_mantissa(u.take(k2)) implies k2
        == q by {
        if k2 < q {
            assert(u[k2] == s@[from + k2]);
        }
        if k2 > q {
            let t = u.take(k2);
            assert(t[q] == u[q]);
            assert(!is_digit(t[q]));
            assert(!all_digits(t));
            assert forall|p: int|
                0 <= p < t.len() && t[p] == '.' && all_digits(t.take(p)) implies !all_digits(
                    t.skip(p + 1),
                ) by {
                if p > q {
                    assert(t.take(p)[q] == t[q]);
                } else {
                    assert(t.skip(p + 1)[q - p - 1] == t[q]);
                }
            }
        }
    }
    if m && x {
        assert(u[q] == 'e' || u[q] == 'E');
        assert(is_mantissa(u.take(q)) && is_exponent(u.skip(q + 1)));
    }
    m && x
}

fn spelled(s: &Vec<char>, from: usize, w: &Vec<char>) -> (r: bool)
    requires
        from <= s.len(),
        forall|i: int| 0 <= i < w.len() ==> 'a' <= #[trigger] w@[i] && w@[i] <= 'z',
    ensures
        r == spells(s@.subrange(from as int, s@.len() as int), w@),
{
    let ghost u = s@.subrange(from as int, s@.len() as int);
    if s.len() - from != w.len() {
        return false;
    }
    let mut i: usize = 0;
    while i < w.len()
        invariant
            from + w.len() == s.len(),
            u == s@.subrange(from as int, s@.len() as int),
            i <= w.len(),
            forall|j: int| 0 <= j < w.len() ==> 'a' <= #[trigger] w@[j] && w@[j] <= 'z',
            forall|j: int|
                0 <= j < i ==> (#[trigger] u[j] == w@[j] || u[j] as u32 + 32 == w@[j] as u32),
        decreases w.len() - i,
    {
        let c = s[from + i];
        let l = w[i];
        assert(u[i as int] == c);
        if c != l && (c as u32) != (l as u32) - 32 {
            return false;
        }
        i = i + 1;
    }
    true
}

/// Whether `s` is the text of a floating-point literal, as `f64::from_str`
/// accepts it.
pub fn float_literal(s: &Vec<char>) -> (r: bool)
    ensures
        r == is_float_literal(s@),
{
    let from: usize = if s.len() > 0 && (s[0] == '+' || s[0] == '-') {
        1
    } else {
        0
    };
    assert(unsigned(s@) =~= s@.subrange(from as int, s@.len() as int));
    let inf = vec!['i', 'n', 'f'];
    let infinity = vec!['i', 'n', 'f', 'i', 'n', 'i', 't', 'y'];
    let nan = vec!['n', 'a', 'n'];
    assert(inf@ =~= seq!['i', 'n', 'f']);
    assert(infinity@ =~= seq!['i', 'n', 'f', 'i', 'n', 'i', 't', 'y']);
    assert(nan@ =~= seq!['n', 'a', 'n']);
    number(s, from) || spelled(s, from, &inf) || spelled(s, from, &infinity) || spelled(
        s,
        from,
        &nan,
    )
}

/// A literal that denotes zero: a number whose digits before any exponent are
/// all `0`.
pub open spec fn denotes_zero(s: Seq<char>) -> bool {
    let u = unsigned(s);
    &&& is_number(u)
    &&& forall|i: int|
        0 <= i < u.len() && (forall|j: int| 0 <= j <= i ==> u[j] != 'e' && u[j] != 'E') ==> (
        #[trigger] u[i] == '0' || u[i] == '.')
}

/// Whether a floating-point literal denotes zero.
pub fn zero_literal(s: &Vec<char>) -> (r: bool)
    ensures
        r == denotes_zero(s@),
{
    let from: usize = if s.len() > 0 && (s[0] == '+' || s[0] == '-') {
        1
    } else {
        0
    };
    let ghost u = s@.subrange(from as int, s@.len() as int);
    assert(unsigned(s@) =~= u);
    if !number(s, from) {
        return false;
    }
    let mut i = from;
    while i < s.len() && s[i] != 'e' && s[i] != 'E'
        invariant
            from <= i <= s.len(),
            u == s@.subrange(from as int, s@.len() as int),
            unsigned(s@) == u,
            is_number(u),
            forall|j: int| from <= j < i ==> s@[j] != 'e' && s@[j] != 'E',
            forall|j: int| from <= j < i ==> s@[j] == '0' || s@[j] == '.',
        decreases s.len() - i,
    {
        if s[i] != '0' && s[i] != '.' {
            let ghost q = i - from;
            assert(u[q] == s@[i as int]);
            assert forall|j: int| 0 <= j <= q implies u[j] != 'e' && u[j] != 'E' by {
                assert(u[j] == s@[from + j]);
            }
            assert(!(u[q] == '0' || u[q] == '.'));
            assert(!denotes_zero(s@)) by {
                if denotes_zero(s@) {
                    let uu = unsigned(s@);
                    assert(uu == u);
                    assert(forall|j: int| 0 <= j <= q ==> uu[j] != 'e' && uu[j] != 'E');
                    assert(uu[q] == '0' || uu[q] == '.');
                }
            }
            return false;
        }
        i = i + 1;
    }
    assert forall|k: int|
        0 <= k < u.len() && (forall|j: int| 0 <= j <= k ==> u[j] != 'e' && u[j] != 'E') implies (
        #[trigger] u[k] == '0' || u[k] == '.') by {
        assert(u[k] == s@[from + k]);
        if from + k >= i {
            assert(u[i - from] == s@[i as int]);
        }
    }
    true
}

} // verus!
