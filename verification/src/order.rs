//! Lexicographic orders on character sequences and on paths made of
//! components, with the proofs that they are total orders.
use vstd::prelude::*;
use vstd::relations::*;

verus! {

/// Lexicographic strict order on sequences, from a strict order on elements.
pub open spec fn lex_lt<T>(a: Seq<T>, b: Seq<T>, lt: spec_fn(T, T) -> bool) -> bool
    decreases a.len(),
{
    if a.len() == 0 {
        b.len() > 0
    } else if b.len() == 0 {
        false
    } else if lt(a[0], b[0]) {
        true
    } else if a[0] == b[0] {
        lex_lt(a.drop_first(), b.drop_first(), lt)
    } else {
        false
    }
}

/// Characters ordered by code point, which is also the order of their
/// UTF-8 encodings.
pub open spec fn char_lt() -> spec_fn(char, char) -> bool {
    |x: char, y: char| (x as u32) < (y as u32)
}

/// Lexicographic order on character sequences.
pub open spec fn chars_lt(a: Seq<char>, b: Seq<char>) -> bool {
    lex_lt(a, b, char_lt())
}

/// The order of `chars_lt` as a function value.
pub open spec fn chars_lt_fn() -> spec_fn(Seq<char>, Seq<char>) -> bool {
    |x: Seq<char>, y: Seq<char>| chars_lt(x, y)
}

/// Component-wise order on paths, as `Path` compares them.
pub open spec fn path_lt(a: Seq<Seq<char>>, b: Seq<Seq<char>>) -> bool {
    lex_lt(a, b, chars_lt_fn())
}

proof fn lemma_lex_irreflexive<T>(a: Seq<T>, lt: spec_fn(T, T) -> bool)
    requires
        irreflexive(lt),
    ensures
        !lex_lt(a, a, lt),
    decreases a.len(),
{
    if a.len() > 0 {
        assert(lt(a[0], a[0]) == false);
        lemma_lex_irreflexive(a.drop_first(), lt);
    }
}

proof fn lemma_lex_transitive<T>(a: Seq<T>, b: Seq<T>, c: Seq<T>, lt: spec_fn(T, T) -> bool)
    requires
        strict_total_ordering(lt),
        lex_lt(a, b, lt),
        lex_lt(b, c, lt),
    ensures
        lex_lt(a, c, lt),
    decreases a.len(),
{
    if a.len() > 0 {
        assert(b.len() > 0);
        assert(c.len() > 0);
        if lt(a[0], b[0]) {
            if lt(b[0], c[0]) {
                assert(lt(a[0], c[0]));
            }
        } else {
            if lt(b[0], c[0]) {
            } else {
                lemma_lex_transitive(a.drop_first(), b.drop_first(), c.drop_first(), lt);
            }
        }
    }
}

proof fn lemma_lex_connected<T>(a: Seq<T>, b: Seq<T>, lt: spec_fn(T, T) -> bool)
    requires
        strict_total_ordering(lt),
        a != b,
    ensures
        lex_lt(a, b, lt) || lex_lt(b, a, lt),
    decreases a.len(),
{
    if a.len() == 0 {
        assert(b.len() > 0) by {
            if b.len() == 0 {
                assert(a =~= b);
            }
        }
    } else if b.len() == 0 {
    } else if a[0] != b[0] {
        assert(lt(a[0], b[0]) || lt(b[0], a[0]));
    } else {
        if a.drop_first() == b.drop_first() {
            assert(a.drop_first().len() == b.drop_first().len());
            assert(a.len() == b.len());
            assert(a =~= b) by {
                assert forall|i: int| 0 <= i < a.len() implies a[i] == b[i] by {
                    if i > 0 {
                        assert(a[i] == a.drop_first()[i - 1]);
                        assert(b[i] == b.drop_first()[i - 1]);
                    }
                }
            }
        }
        lemma_lex_connected(a.drop_first(), b.drop_first(), lt);
    }
}

/// The lexicographic order built from a strict total order is a strict total order.
pub proof fn lemma_lex_strict_total<T>(lt: spec_fn(T, T) -> bool)
    requires
        strict_total_ordering(lt),
    ensures
        strict_total_ordering(|a: Seq<T>, b: Seq<T>| lex_lt(a, b, lt)),
{
    let l = |a: Seq<T>, b: Seq<T>| lex_lt(a, b, lt);
    assert forall|a: Seq<T>| #[trigger] l(a, a) == false by {
        lemma_lex_irreflexive(a, lt);
    }
    assert forall|a: Seq<T>, b: Seq<T>, c: Seq<T>| #[trigger] l(a, b) && #[trigger] l(b, c) implies l(
        a,
        c,
    ) by {
        lemma_lex_transitive(a, b, c, lt);
    }
    assert forall|a: Seq<T>, b: Seq<T>| #[trigger] l(a, b) && #[trigger] l(b, a) implies a == b by {
        lemma_lex_transitive(a, b, a, lt);
        lemma_lex_irreflexive(a, lt);
    }
    assert forall|a: Seq<T>, b: Seq<T>| a != b implies #[trigger] l(a, b) || #[trigger] l(b, a) by {
        lemma_lex_connected(a, b, lt);
    }
}

/// Code-point order on characters is a strict total order.
pub proof fn lemma_char_lt_strict_total()
    ensures
        strict_total_ordering(char_lt()),
{
    let l = char_lt();
    assert forall|x: char, y: char| x != y implies #[trigger] l(x, y) || #[trigger] l(y, x) by {
        if (x as u32) == (y as u32) {
            vstd::utf8::char_u32_cast(x, x as u32);
            vstd::utf8::char_u32_cast(y, y as u32);
        }
    }
}

/// `chars_lt` is a strict total order.
pub proof fn lemma_chars_lt_strict_total()
    ensures
        strict_total_ordering(chars_lt_fn()),
{
    lemma_char_lt_strict_total();
    lemma_lex_strict_total(char_lt());
    let a = |x: Seq<char>, y: Seq<char>| lex_lt(x, y, char_lt());
    assert(chars_lt_fn() == a);
}

/// `path_lt` is a strict total order.
pub proof fn lemma_path_lt_strict_total()
    ensures
        strict_total_ordering(|a: Seq<Seq<char>>, b: Seq<Seq<char>>| path_lt(a, b)),
{
    lemma_chars_lt_strict_total();
    lemma_lex_strict_total(chars_lt_fn());
    let a = |x: Seq<Seq<char>>, y: Seq<Seq<char>>| lex_lt(x, y, chars_lt_fn());
    let b = |x: Seq<Seq<char>>, y: Seq<Seq<char>>| path_lt(x, y);
    assert(a == b);
}

// ---------------------------------------------------------------------------
// Executable comparisons
// ---------------------------------------------------------------------------

proof fn lemma_lex_step<T>(a: Seq<T>, b: Seq<T>, i: int, lt: spec_fn(T, T) -> bool)
    requires
        0 <= i < a.len(),
        i < b.len(),
        a[i] == b[i],
        !lt(a[i], b[i]),
    ensures
        lex_lt(a.subrange(i, a.len() as int), b.subrange(i, b.len() as int), lt) == lex_lt(
            a.subrange(i + 1, a.len() as int),
            b.subrange(i + 1, b.len() as int),
            lt,
        ),
{
    let x = a.subrange(i, a.len() as int);
    let y = b.subrange(i, b.len() as int);
    assert(x[0] == a[i]);
    assert(y[0] == b[i]);
    assert(x.drop_first() == a.subrange(i + 1, a.len() as int));
    assert(y.drop_first() == b.subrange(i + 1, b.len() as int));
}

/// Lexicographic comparison of two character slices.
pub fn chars_less(a: &[char], b: &[char]) -> (r: bool)
    ensures
        r == chars_lt(a@, b@),
{
    let mut i: usize = 0;
    let alen = a.len();
    let blen = b.len();
    proof {
        assert(a@.subrange(0, a@.len() as int) == a@);
        assert(b@.subrange(0, b@.len() as int) == b@);
    }
    while i < alen && i < blen && a[i] == b[i]
        invariant
            alen == a@.len(),
            blen == b@.len(),
            i <= alen,
            i <= blen,
            chars_lt(a@, b@) == lex_lt(
                a@.subrange(i as int, a@.len() as int),
                b@.subrange(i as int, b@.len() as int),
                char_lt(),
            ),
        decreases alen - i,
    {
        proof {
            lemma_lex_step(a@, b@, i as int, char_lt());
        }
        i += 1;
    }
    let ghost x = a@.subrange(i as int, a@.len() as int);
    let ghost y = b@.subrange(i as int, b@.len() as int);
    if i == alen {
        i < blen
    } else if i == blen {
        false
    } else {
        assert(x[0] == a@[i as int]);
        assert(y[0] == b@[i as int]);
        (a[i] as u32) < (b[i] as u32)
    }
}

/// The view of a list of path components.
pub open spec fn components(v: Seq<String>) -> Seq<Seq<char>> {
    v.map_values(|s: String| s@)
}

/// Component-wise comparison of two paths.
pub fn path_less(a: &Vec<String>, b: &Vec<String>) -> (r: bool)
    ensures
        r == path_lt(components(a@), components(b@)),
{
    let ghost ca = components(a@);
    let ghost cb = components(b@);
    let mut i: usize = 0;
    let alen = a.len();
    let blen = b.len();
    proof {
        assert(ca.subrange(0, ca.len() as int) == ca);
        assert(cb.subrange(0, cb.len() as int) == cb);
    }
    loop
        invariant
            alen == a@.len() == ca.len(),
            blen == b@.len() == cb.len(),
            ca == components(a@),
            cb == components(b@),
            i <= alen,
            i <= blen,
            path_lt(ca, cb) == lex_lt(
                ca.subrange(i as int, ca.len() as int),
                cb.subrange(i as int, cb.len() as int),
                chars_lt_fn(),
            ),
        decreases alen - i,
    {
        let ghost x = ca.subrange(i as int, ca.len() as int);
        let ghost y = cb.subrange(i as int, cb.len() as int);
        if i == alen {
            return i < blen;
        }
        if i == blen {
            return false;
        }
        assert(x[0] == ca[i as int]);
        assert(y[0] == cb[i as int]);
        assert(ca[i as int] == a@[i as int]@);
        assert(cb[i as int] == b@[i as int]@);
        let x_chars = crate::text::chars_of(a[i].as_str());
        let y_chars = crate::text::chars_of(b[i].as_str());
        if chars_less(x_chars.as_slice(), y_chars.as_slice()) {
            return true;
        }
        if !crate::text::slice_eq(x_chars.as_slice(), y_chars.as_slice()) {
            return false;
        }
        proof {
            lemma_chars_lt_strict_total();
            assert(chars_lt_fn()(ca[i as int], cb[i as int]) == false);
            lemma_lex_step(ca, cb, i as int, chars_lt_fn());
        }
        i += 1;
    }
}

} // verus!
