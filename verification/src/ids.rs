//! Record identifiers.
//!
//! A persisted record is keyed internally by a compound key: the collection
//! name plus an opaque numeric suffix. Externally only the string form of
//! the compound key circulates: `collection ':' suffix`, with the suffix
//! rendered in decimal. This module renders suffixes, composes the string
//! form, and decomposes it again, and proves that distinct keys render to
//! distinct strings and that composition and decomposition round-trip.
use vstd::prelude::*;
use vstd::string::StrSliceExecFns;
use vstd::string::StringExecFns;

verus! {

/// The decimal digit character for `n` (meaningful for `n < 10`).
pub open spec fn dec_digit(n: nat) -> char {
    if n == 0 {
        '0'
    } else if n == 1 {
        '1'
    } else if n == 2 {
        '2'
    } else if n == 3 {
        '3'
    } else if n == 4 {
        '4'
    } else if n == 5 {
        '5'
    } else if n == 6 {
        '6'
    } else if n == 7 {
        '7'
    } else if n == 8 {
        '8'
    } else {
        '9'
    }
}

/// The decimal rendering of `n`, most significant digit first.
pub open spec fn dec_seq(n: nat) -> Seq<char>
    decreases n,
{
    if n < 10 {
        seq![dec_digit(n)]
    } else {
        dec_seq(n / 10) + seq![dec_digit(n % 10)]
    }
}

pub proof fn lemma_dec_seq_len(n: nat)
    ensures
        dec_seq(n).len() >= 1,
        n < 10 ==> dec_seq(n).len() == 1,
        n >= 10 ==> dec_seq(n).len() >= 2,
    decreases n,
{
    if n >= 10 {
        lemma_dec_seq_len(n / 10);
    }
}

/// Distinct numbers render to distinct decimal strings, so suffixes drawn
/// from a counter never collide.
pub proof fn lemma_dec_seq_injective(a: nat, b: nat)
    requires
        dec_seq(a) == dec_seq(b),
    ensures
        a == b,
    decreases a + b,
{
    lemma_dec_seq_len(a);
    lemma_dec_seq_len(b);
    if a < 10 && b < 10 {
        assert(seq![dec_digit(a)][0] == dec_digit(a));
        assert(seq![dec_digit(b)][0] == dec_digit(b));
        assert(dec_seq(a)[0] == dec_seq(b)[0]);
        assert(dec_digit(a) == dec_digit(b));
        assert(a == b);
    } else if a < 10 || b < 10 {
        assert(false);
    } else {
        let pa = dec_seq(a / 10);
        let pb = dec_seq(b / 10);
        assert(dec_seq(a) == pa + seq![dec_digit(a % 10)]);
        assert(dec_seq(b) == pb + seq![dec_digit(b % 10)]);
        assert(pa.len() == pb.len());
        assert(dec_seq(a)[pa.len() as int] == dec_digit(a % 10));
        assert(dec_seq(b)[pb.len() as int] == dec_digit(b % 10));
        assert(a % 10 == b % 10);
        assert(pa =~= pb) by {
            assert forall|i: int| 0 <= i < pa.len() implies pa[i] == pb[i] by {
                assert(pa[i] == dec_seq(a)[i]);
                assert(pb[i] == dec_seq(b)[i]);
            }
        }
        lemma_dec_seq_injective(a / 10, b / 10);
        assert(a / 10 == b / 10);
        vstd::arithmetic::div_mod::lemma_fundamental_div_mod(a as int, 10);
        vstd::arithmetic::div_mod::lemma_fundamental_div_mod(b as int, 10);
        assert(a == 10 * (a / 10) + a % 10);
        assert(b == 10 * (b / 10) + b % 10);
    }
}

fn dec_digit_char(d: u64) -> (r: &'static str)
    requires
        d < 10,
    ensures
        r@ == seq![dec_digit(d as nat)],
{
    let r: &'static str = if d == 0 {
        "0"
    } else if d == 1 {
        "1"
    } else if d == 2 {
        "2"
    } else if d == 3 {
        "3"
    } else if d == 4 {
        "4"
    } else if d == 5 {
        "5"
    } else if d == 6 {
        "6"
    } else if d == 7 {
        "7"
    } else if d == 8 {
        "8"
    } else {
        "9"
    };
    proof {
        reveal_strlit("0");
        reveal_strlit("1");
        reveal_strlit("2");
        reveal_strlit("3");
        reveal_strlit("4");
        reveal_strlit("5");
        reveal_strlit("6");
        reveal_strlit("7");
        reveal_strlit("8");
        reveal_strlit("9");
        assert(r@ =~= seq![dec_digit(d as nat)]);
    }
    r
}

/// Renders `n` in decimal; the suffix of a freshly assigned record id.
pub fn u64_to_dec(n: u64) -> (s: String)
    ensures
        s@ == dec_seq(n as nat),
        s@.len() >= 1,
    decreases n,
{
    proof {
        lemma_dec_seq_len(n as nat);
    }
    if n < 10 {
        dec_digit_char(n).to_owned()
    } else {
        let prefix = u64_to_dec(n / 10);
        prefix.concat(dec_digit_char(n % 10))
    }
}

/// True when `s` holds no collection/suffix separator.
pub open spec fn sep_free(s: Seq<char>) -> bool {
    forall|i: int| 0 <= i < s.len() ==> s[i] != ':'
}

/// The index of the first separator in `s`, or -1 when there is none.
pub open spec fn first_sep(s: Seq<char>) -> int
    decreases s.len(),
{
    if s.len() == 0 {
        -1
    } else if s[0] == ':' {
        0
    } else {
        let r = first_sep(s.skip(1));
        if r == -1 {
            -1
        } else {
            r + 1
        }
    }
}

/// The external string form of the compound key `(c, x)`.
pub open spec fn compose_spec(c: Seq<char>, x: Seq<char>) -> Seq<char> {
    c + seq![':'] + x
}

/// Splits an external id at its first separator into collection and suffix.
pub open spec fn decompose_spec(id: Seq<char>) -> Option<(Seq<char>, Seq<char>)> {
    let i = first_sep(id);
    if i < 0 {
        None
    } else {
        Some((id.take(i), id.skip(i + 1)))
    }
}

pub proof fn lemma_first_sep(s: Seq<char>)
    ensures
        first_sep(s) == -1 ==> sep_free(s),
        first_sep(s) != -1 ==> 0 <= first_sep(s) < s.len() && s[first_sep(s)] == ':' && sep_free(
            s.take(first_sep(s)),
        ),
    decreases s.len(),
{
    if s.len() == 0 {
    } else if s[0] == ':' {
    } else {
        lemma_first_sep(s.skip(1));
        let r = first_sep(s.skip(1));
        if r == -1 {
            assert forall|i: int| 0 <= i < s.len() implies s[i] != ':' by {
                if i > 0 {
                    assert(s[i] == s.skip(1)[i - 1]);
                }
            }
        } else {
            assert(s[r + 1] == s.skip(1)[r]);
            assert forall|i: int| 0 <= i < r + 1 implies #[trigger] s.take(r + 1)[i] != ':' by {
                if i > 0 {
                    assert(s.take(r + 1)[i] == s.skip(1).take(r)[i - 1]);
                }
            }
        }
    }
}

/// The first separator is exactly the separator-free prefix's end.
pub proof fn lemma_first_sep_at(s: Seq<char>, i: int)
    requires
        0 <= i < s.len(),
        s[i] == ':',
        sep_free(s.take(i)),
    ensures
        first_sep(s) == i,
    decreases s.len(),
{
    if i == 0 {
    } else {
        assert(s[0] != ':') by {
            assert(s.take(i)[0] == s[0]);
        }
        assert(s.skip(1)[i - 1] == s[i]);
        assert forall|j: int| 0 <= j < i - 1 implies #[trigger] s.skip(1).take(i - 1)[j] != ':' by {
            assert(s.skip(1).take(i - 1)[j] == s[j + 1]);
            assert(s.take(i)[j + 1] == s[j + 1]);
        }
        lemma_first_sep_at(s.skip(1), i - 1);
    }
}

/// Composition and decomposition round-trip: an id built from a
/// separator-free collection name decomposes back to that collection and
/// suffix.
pub proof fn lemma_compose_decompose(c: Seq<char>, x: Seq<char>)
    requires
        sep_free(c),
    ensures
        decompose_spec(compose_spec(c, x)) == Some((c, x)),
{
    let s = compose_spec(c, x);
    assert(s.take(c.len() as int) =~= c);
    assert(s[c.len() as int] == ':');
    lemma_first_sep_at(s, c.len() as int);
    assert(s.skip(c.len() as int + 1) =~= x);
}

/// Builds the external id string `collection ':' suffix`.
pub fn compose_id(collection: &str, suffix: &str) -> (r: String)
    ensures
        r@ == compose_spec(collection@, suffix@),
{
    let mut s: String = collection.to_owned();
    s.append(":");
    s.append(suffix);
    proof {
        reveal_strlit(":");
        assert(s@ =~= compose_spec(collection@, suffix@));
    }
    s
}

/// Splits an external id at its first separator; `None` when the id has
/// no separator at all.
pub fn decompose_id(id: &str) -> (r: Option<(String, String)>)
    ensures
        match r {
            Some(p) => decompose_spec(id@) == Some((p.0@, p.1@)),
            None => decompose_spec(id@) is None && sep_free(id@),
        },
{
    let n: usize = id.unicode_len();
    let mut i: usize = 0;
    while i < n
        invariant
            n == id@.len(),
            0 <= i <= n,
            sep_free(id@.take(i as int)),
        decreases n - i,
    {
        let c = id.get_char(i);
        if c == ':' {
            proof {
                lemma_first_sep_at(id@, i as int);
            }
            let coll = id.substring_char(0, i);
            let suf = id.substring_char(i + 1, n);
            proof {
                assert(coll@ =~= id@.take(i as int));
                assert(suf@ =~= id@.skip(i as int + 1));
            }
            return Some((coll.to_owned(), suf.to_owned()));
        }
        proof {
            assert forall|j: int| 0 <= j < i + 1 implies #[trigger] id@.take(i as int + 1)[j] != ':' by {
                if j < i {
                    assert(id@.take(i as int)[j] == id@[j]);
                }
            }
        }
        i = i + 1;
    }
    proof {
        assert(id@.take(n as int) =~= id@);
        lemma_first_sep(id@);
    }
    None
}

} // verus!
