//! Repair of bare ampersands in raw XML text.
use vstd::prelude::*;
use crate::text::{starts_with, chars_of, push_char, word_at};

verus! {

/// The characters a reference is spelled with: ASCII letters and digits, and
/// `#`.
pub open spec fn is_reference_char(c: char) -> bool {
    ||| ('a' <= c && c <= 'z')
    ||| ('A' <= c && c <= 'Z')
    ||| ('0' <= c && c <= '9')
    ||| c == '#'
}

pub open spec fn is_decimal_digit(c: char) -> bool {
    '0' <= c && c <= '9'
}

pub open spec fn is_hex_digit(c: char) -> bool {
    ||| ('0' <= c && c <= '9')
    ||| ('a' <= c && c <= 'f')
    ||| ('A' <= c && c <= 'F')
}

/// What stands between `&` and `;` in a reference: one of the five named
/// entities, `#` and decimal digits, or `#x` and hexadecimal digits.
pub open spec fn is_reference_body(w: Seq<char>) -> bool {
    ||| w == seq!['a', 'm', 'p']
    ||| w == seq!['l', 't']
    ||| w == seq!['g', 't']
    ||| w == seq!['q', 'u', 'o', 't']
    ||| w == seq!['a', 'p', 'o', 's']
    ||| (w.len() >= 2 && w[0] == '#' && forall|i: int|
        1 <= i < w.len() ==> is_decimal_digit(#[trigger] w[i]))
    ||| (w.len() >= 3 && w[0] == '#' && w[1] == 'x' && forall|i: int|
        2 <= i < w.len() ==> is_hex_digit(#[trigger] w[i]))
}

/// The text after an `&` is a complete reference: a reference body closed by
/// `;`.
pub open spec fn opens_reference(rest: Seq<char>) -> bool {
    exists|k: int| 0 <= k < rest.len() && rest[k] == ';' && #[trigger] is_reference_body(rest.take(k))
}

/// A reference body is spelled with reference characters only.
proof fn lemma_body_chars(w: Seq<char>)
    requires
        is_reference_body(w),
    ensures
        forall|i: int| 0 <= i < w.len() ==> is_reference_char(#[trigger] w[i]),
{
    assert forall|i: int| 0 <= i < w.len() implies is_reference_char(#[trigger] w[i]) by {
        if w == seq!['a', 'm', 'p'] || w == seq!['l', 't'] || w == seq!['g', 't'] || w == seq![
            'q',
            'u',
            'o',
            't',
        ] || w == seq!['a', 'p', 'o', 's'] {
        } else if w.len() >= 3 && w[0] == '#' && w[1] == 'x' && forall|m: int|
            2 <= m < w.len() ==> is_hex_digit(#[trigger] w[m]) {
            if i >= 2 {
                assert(is_hex_digit(w[i]));
            }
        } else {
            if i >= 1 {
                assert(is_decimal_digit(w[i]));
            }
        }
    }
}

/// The escaped form written in place of a bare `&`.
pub open spec fn escaped_ampersand() -> Seq<char> {
    seq!['&', 'a', 'm', 'p', ';']
}

/// What the character at `i` of `s` becomes in the output.
pub open spec fn piece(s: Seq<char>, i: int) -> Seq<char> {
    if s[i] == '&' && !opens_reference(s.subrange(i + 1, s.len() as int)) {
        escaped_ampersand()
    } else {
        seq![s[i]]
    }
}

/// The output for the characters of `s` from position `i` on.
pub open spec fn sanitized_from(s: Seq<char>, i: int) -> Seq<char>
    decreases s.len() - i,
{
    if i < 0 || i >= s.len() {
        Seq::empty()
    } else {
        piece(s, i) + sanitized_from(s, i + 1)
    }
}

/// The sanitized form of a whole text.
pub open spec fn sanitized(s: Seq<char>) -> Seq<char> {
    sanitized_from(s, 0)
}

/// Every `&` of `s` opens a reference that is kept as it is.
pub open spec fn references_well_formed(s: Seq<char>) -> bool {
    forall|i: int|
        0 <= i < s.len() && s[i] == '&' ==> #[trigger] opens_reference(
            s.subrange(i + 1, s.len() as int),
        )
}

fn reference_char(c: char) -> (r: bool)
    ensures
        r == is_reference_char(c),
{
    ('a' <= c && c <= 'z') || ('A' <= c && c <= 'Z') || ('0' <= c && c <= '9') || c == '#'
}

/// Whether `cs[from..to]` is the word `w`.
fn span_is(cs: &Vec<char>, from: usize, to: usize, w: &Vec<char>) -> (r: bool)
    requires
        from <= to <= cs.len(),
    ensures
        r == (cs@.subrange(from as int, to as int) == w@),
{
    if to - from != w.len() {
        return false;
    }
    let r = word_at(cs, from, w);
    assert(cs@.subrange(from as int, cs@.len() as int).subrange(0, w@.len() as int)
        =~= cs@.subrange(from as int, to as int));
    r
}

/// Whether `cs[from..to]` is all digits of the given kind.
fn digits_only(cs: &Vec<char>, from: usize, to: usize, hex: bool) -> (r: bool)
    requires
        from <= to <= cs.len(),
    ensures
        r == forall|i: int|
            from <= i < to ==> if hex {
                is_hex_digit(#[trigger] cs@[i])
            } else {
                is_decimal_digit(cs@[i])
            },
{
    let mut i = from;
    while i < to
        invariant
            from <= i <= to <= cs.len(),
            forall|m: int|
                from <= m < i ==> if hex {
                    is_hex_digit(#[trigger] cs@[m])
                } else {
                    is_decimal_digit(cs@[m])
                },
        decreases to - i,
    {
        let c = cs[i];
        let ok = if hex {
            ('0' <= c && c <= '9') || ('a' <= c && c <= 'f') || ('A' <= c && c <= 'F')
        } else {
            '0' <= c && c <= '9'
        };
        if !ok {
            return false;
        }
        i = i + 1;
    }
    true
}

/// Whether `cs[from..to]` is a reference body.
fn reference_body(cs: &Vec<char>, from: usize, to: usize) -> (r: bool)
    requires
        from <= to <= cs.len(),
    ensures
        r == is_reference_body(cs@.subrange(from as int, to as int)),
{
    let ghost w = cs@.subrange(from as int, to as int);
    let amp_word = vec!['a', 'm', 'p'];
    let lt_word = vec!['l', 't'];
    let gt_word = vec!['g', 't'];
    let quot_word = vec!['q', 'u', 'o', 't'];
    let apos_word = vec!['a', 'p', 'o', 's'];
    assert(amp_word@ =~= seq!['a', 'm', 'p']);
    assert(lt_word@ =~= seq!['l', 't']);
    assert(gt_word@ =~= seq!['g', 't']);
    assert(quot_word@ =~= seq!['q', 'u', 'o', 't']);
    assert(apos_word@ =~= seq!['a', 'p', 'o', 's']);
    if span_is(cs, from, to, &amp_word) || span_is(cs, from, to, &lt_word) || span_is(
        cs,
        from,
        to,
        &gt_word,
    ) || span_is(cs, from, to, &quot_word) || span_is(cs, from, to, &apos_word) {
        return true;
    }
    if to - from < 2 || cs[from] != '#' {
        return false;
    }
    assert(w[0] == cs@[from as int]);
    assert(w[1] == cs@[from + 1]);
    let decimal = digits_only(cs, from + 1, to, false);
    assert(decimal == forall|i: int| 1 <= i < w.len() ==> is_decimal_digit(#[trigger] w[i])) by {
        if decimal {
            assert forall|i: int| 1 <= i < w.len() implies is_decimal_digit(#[trigger] w[i]) by {
                assert(w[i] == cs@[from + i]);
            }
        } else {
            let m = choose|m: int| from + 1 <= m < to && !is_decimal_digit(#[trigger] cs@[m]);
            assert(w[m - from] == cs@[m]);
        }
    }
    if decimal {
        return true;
    }
    if to - from < 3 || cs[from + 1] != 'x' {
        return false;
    }
    let hex = digits_only(cs, from + 2, to, true);
    assert(hex == forall|i: int| 2 <= i < w.len() ==> is_hex_digit(#[trigger] w[i])) by {
        if hex {
            assert forall|i: int| 2 <= i < w.len() implies is_hex_digit(#[trigger] w[i]) by {
                assert(w[i] == cs@[from + i]);
            }
        } else {
            let m = choose|m: int| from + 2 <= m < to && !is_hex_digit(#[trigger] cs@[m]);
            assert(w[m - from] == cs@[m]);
        }
    }
    hex
}

/// Whether the text after position `amp` is a complete reference. Reads the
/// run of reference characters that follows and the character after it.
fn reference_follows(cs: &Vec<char>, amp: usize) -> (r: bool)
    requires
        amp < cs.len(),
    ensures
        r == opens_reference(cs@.subrange(amp + 1, cs@.len() as int)),
{
    let at = amp + 1;
    let ghost rest = cs@.subrange(at as int, cs@.len() as int);
    let mut j = at;
    while j < cs.len() && reference_char(cs[j])
        invariant
            at <= j <= cs.len(),
            forall|m: int| at <= m < j ==> is_reference_char(#[trigger] cs@[m]),
        decreases cs.len() - j,
    {
        j = j + 1;
    }
    let ghost q = j - at;
    // A closing `;` can only stand right after the run.
    assert forall|k: int|
        0 <= k < rest.len() && rest[k] == ';' && #[trigger] is_reference_body(rest.take(k))
            implies k == q by {
        lemma_body_chars(rest.take(k));
        if k < q {
            assert(is_reference_char(cs@[at + k]));
        } else if k > q {
            assert(rest.take(k)[q] == cs@[j as int]);
        }
    }
    if j == cs.len() || cs[j] != ';' {
        return false;
    }
    assert(rest[q] == cs@[j as int]);
    assert(rest.take(q) =~= cs@.subrange(at as int, j as int));
    reference_body(cs, at, j)
}

/// Escapes every `&` that does not open a complete reference (`&amp;`,
/// `&lt;`, `&gt;`, `&quot;`, `&apos;`, `&#digits;` or `&#xhex;`), in one
/// left-to-right pass.
pub fn sanitize_xml(input: &str) -> (r: String)
    ensures
        r@ == sanitized(input@),
{
    let cs = chars_of(input);
    let mut out = String::new();
    let mut i: usize = 0;
    while i < cs.len()
        invariant
            cs@ == input@,
            i <= cs.len(),
            out@ + sanitized_from(cs@, i as int) == sanitized(cs@),
        decreases cs.len() - i,
    {
        let c = cs[i];
        let ghost before = out@;
        if c == '&' && !reference_follows(&cs, i) {
            push_char(&mut out, '&');
            push_char(&mut out, 'a');
            push_char(&mut out, 'm');
            push_char(&mut out, 'p');
            push_char(&mut out, ';');
        } else {
            push_char(&mut out, c);
        }
        assert(out@ =~= before + piece(cs@, i as int));
        assert(before + sanitized_from(cs@, i as int) =~= out@ + sanitized_from(
            cs@,
            i + 1,
        ));
        i = i + 1;
    }
    assert(out@ =~= out@ + sanitized_from(cs@, i as int));
    out
}

/// No `&` of `t` is bare: each one opens a named entity or a character
/// reference.
pub open spec fn no_bare_ampersand(t: Seq<char>) -> bool {
    forall|j: int|
        0 <= j < t.len() && t[j] == '&' ==> #[trigger] opens_reference(
            t.subrange(j + 1, t.len() as int),
        )
}

proof fn lemma_identity_from(s: Seq<char>, i: int)
    requires
        references_well_formed(s),
        0 <= i <= s.len(),
    ensures
        sanitized_from(s, i) == s.subrange(i, s.len() as int),
    decreases s.len() - i,
{
    if i < s.len() {
        lemma_identity_from(s, i + 1);
        if s[i] == '&' {
            assert(opens_reference(s.subrange(i + 1, s.len() as int)));
        }
        assert(piece(s, i) == seq![s[i]]);
        assert(sanitized_from(s, i) =~= s.subrange(i, s.len() as int));
    } else {
        assert(s.subrange(i, s.len() as int) =~= Seq::<char>::empty());
    }
}

/// Text whose every `&` already opens one of the five named entities or a
/// character reference comes out of sanitizing unchanged.
pub proof fn lemma_sanitize_keeps_valid_text(s: Seq<char>)
    requires
        references_well_formed(s),
    ensures
        sanitized(s) == s,
{
    lemma_identity_from(s, 0);
    assert(s.subrange(0, s.len() as int) =~= s);
}

/// A word without `&` that the input shows at `i` is also where the output for
/// position `i` begins.
proof fn lemma_word_kept(s: Seq<char>, i: int, w: Seq<char>)
    requires
        0 <= i <= s.len(),
        starts_with(s.subrange(i, s.len() as int), w),
        !w.contains('&'),
    ensures
        starts_with(sanitized_from(s, i), w),
    decreases w.len(),
{
    if w.len() > 0 {
        assert(s.subrange(i, s.len() as int)[0] == w[0]);
        assert(s[i] == w[0]);
        assert(w[0] != '&') by {
            if w[0] == '&' {
                assert(w.contains('&'));
            }
        }
        let rest = w.drop_first();
        assert(s.subrange(i + 1, s.len() as int).subrange(0, rest.len() as int) =~= rest) by {
            assert forall|k: int| 0 <= k < rest.len() implies s.subrange(
                i + 1,
                s.len() as int,
            )[k] == rest[k] by {
                assert(s.subrange(i, s.len() as int)[k + 1] == w[k + 1]);
            }
        }
        assert(!rest.contains('&')) by {
            if rest.contains('&') {
                let k = choose|k: int| 0 <= k < rest.len() && rest[k] == '&';
                assert(w[k + 1] == '&');
            }
        }
        lemma_word_kept(s, i + 1, rest);
        let t = sanitized_from(s, i + 1);
        assert(piece(s, i) == seq![w[0]]);
        assert(sanitized_from(s, i) == seq![w[0]] + t);
        assert((seq![w[0]] + t).subrange(0, w.len() as int) =~= w) by {
            assert forall|k: int| 0 <= k < w.len() implies (seq![w[0]] + t)[k] == w[k] by {
                if k > 0 {
                    assert(t.subrange(0, rest.len() as int)[k - 1] == rest[k - 1]);
                }
            }
        }
    } else {
        assert(sanitized_from(s, i).subrange(0, 0) =~= w);
    }
}

proof fn lemma_word_kept_literal(s: Seq<char>, i: int, w: Seq<char>)
    requires
        0 <= i <= s.len(),
        starts_with(s.subrange(i, s.len() as int), w),
        forall|k: int| 0 <= k < w.len() ==> w[k] != '&',
    ensures
        starts_with(sanitized_from(s, i), w),
{
    assert(!w.contains('&'));
    lemma_word_kept(s, i, w);
}

/// A reference that the input opens at `i` is opened by the output there too.
proof fn lemma_reference_kept(s: Seq<char>, i: int)
    requires
        0 <= i <= s.len(),
        opens_reference(s.subrange(i, s.len() as int)),
    ensures
        opens_reference(sanitized_from(s, i)),
{
    let rest = s.subrange(i, s.len() as int);
    let k = choose|k: int| 0 <= k < rest.len() && rest[k] == ';' && #[trigger] is_reference_body(rest.take(k));
    lemma_body_chars(rest.take(k));
    let w = rest.take(k + 1);
    assert forall|m: int| 0 <= m < w.len() implies w[m] != '&' by {
        if m < k {
            assert(w[m] == rest.take(k)[m]);
            assert(is_reference_char(rest.take(k)[m]));
        }
    }
    assert(starts_with(rest, w)) by {
        assert(rest.subrange(0, w.len() as int) =~= w);
    }
    lemma_word_kept_literal(s, i, w);
    let t = sanitized_from(s, i);
    assert(t.subrange(0, w.len() as int) == w);
    assert(t[k] == w[k]);
    assert(t.take(k) =~= rest.take(k)) by {
        assert forall|m: int| 0 <= m < k implies t.take(k)[m] == rest.take(k)[m] by {
            assert(t.subrange(0, w.len() as int)[m] == w[m]);
        }
    }
    assert(is_reference_body(t.take(k)));
}

proof fn lemma_no_bare_from(s: Seq<char>, i: int)
    requires
        0 <= i <= s.len(),
    ensures
        no_bare_ampersand(sanitized_from(s, i)),
    decreases s.len() - i,
{
    if i < s.len() {
        lemma_no_bare_from(s, i + 1);
        let p = piece(s, i);
        let tail = sanitized_from(s, i + 1);
        let t = sanitized_from(s, i);
        assert(t == p + tail);
        if s[i] == '&' && opens_reference(s.subrange(i + 1, s.len() as int)) {
            lemma_reference_kept(s, i + 1);
        }
        assert forall|j: int| 0 <= j < t.len() && t[j] == '&' implies #[trigger] opens_reference(
            t.subrange(j + 1, t.len() as int),
        ) by {
            if j < p.len() {
                if p == escaped_ampersand() {
                    assert(j == 0);
                    let after = t.subrange(1, t.len() as int);
                    assert(after.take(3) =~= seq!['a', 'm', 'p']);
                    assert(after[3] == ';');
                    assert(is_reference_body(after.take(3)));
                } else {
                    assert(t.subrange(j + 1, t.len() as int) =~= tail);
                }
            } else {
                let k = j - p.len();
                assert(tail[k] == '&');
                assert(t.subrange(j + 1, t.len() as int) =~= tail.subrange(
                    k + 1,
                    tail.len() as int,
                ));
            }
        }
    }
}

/// Whatever the input, every `&` of the sanitized text opens one of the five
/// named entities or a character reference.
pub proof fn lemma_sanitize_leaves_no_bare_ampersand(s: Seq<char>)
    ensures
        no_bare_ampersand(sanitized(s)),
{
    lemma_no_bare_from(s, 0);
}

} // verus!
