//! Object paths at which sessions are published.
//!
//! Every session is published on the bus at `/de/ytvwld/Ele/<id>`, where
//! `<id>` is the session's registry id in decimal. Clients must treat the
//! whole path as opaque; the broker guarantees that distinct ids give
//! distinct paths.

use vstd::prelude::*;
use vstd::string::StringExecFns;

verus! {

/// The decimal digit character for `d`, for `d < 10`.
pub open spec fn digit_char(d: nat) -> char {
    if d == 0 {
        '0'
    } else if d == 1 {
        '1'
    } else if d == 2 {
        '2'
    } else if d == 3 {
        '3'
    } else if d == 4 {
        '4'
    } else if d == 5 {
        '5'
    } else if d == 6 {
        '6'
    } else if d == 7 {
        '7'
    } else if d == 8 {
        '8'
    } else {
        '9'
    }
}

/// The usual decimal rendering of `n`: most significant digit first, no
/// leading zeros (`0` renders as `"0"`).
pub open spec fn dec_digits(n: nat) -> Seq<char>
    decreases n,
{
    if n < 10 {
        seq![digit_char(n)]
    } else {
        dec_digits(n / 10) + seq![digit_char(n % 10)]
    }
}

/// The characters of the bus path at which the session with id `id` is
/// published.
pub open spec fn path_chars(id: nat) -> Seq<char> {
    "/de/ytvwld/Ele/"@ + dec_digits(id)
}

/// Renders one decimal digit as a string slice.
fn digit_str(d: u64) -> (s: &'static str)
    requires
        d < 10,
    ensures
        s@ =~= seq![digit_char(d as nat)],
{
    if d == 0 {
        proof {
            reveal_strlit("0");
        }
        "0"
    } else if d == 1 {
        proof {
            reveal_strlit("1");
        }
        "1"
    } else if d == 2 {
        proof {
            reveal_strlit("2");
        }
        "2"
    } else if d == 3 {
        proof {
            reveal_strlit("3");
        }
        "3"
    } else if d == 4 {
        proof {
            reveal_strlit("4");
        }
        "4"
    } else if d == 5 {
        proof {
            reveal_strlit("5");
        }
        "5"
    } else if d == 6 {
        proof {
            reveal_strlit("6");
        }
        "6"
    } else if d == 7 {
        proof {
            reveal_strlit("7");
        }
        "7"
    } else if d == 8 {
        proof {
            reveal_strlit("8");
        }
        "8"
    } else {
        proof {
            reveal_strlit("9");
        }
        "9"
    }
}

/// Appends the decimal rendering of `n` to `out`.
fn push_dec_digits(n: u64, out: &mut String)
    ensures
        final(out)@ == old(out)@ + dec_digits(n as nat),
    decreases n,
{
    if n >= 10 {
        push_dec_digits(n / 10, out);
    }
    let d = digit_str(n % 10);
    out.append(d);
    proof {
        assert(out@ =~= old(out)@ + dec_digits(n as nat));
    }
}

/// The bus path at which the session with id `id` is published.
pub fn session_path(id: u64) -> (p: String)
    ensures
        p@ == path_chars(id as nat),
{
    let mut out = String::from_str("/de/ytvwld/Ele/");
    push_dec_digits(id, &mut out);
    out
}

/// A decimal rendering has at least one digit.
pub proof fn lemma_dec_digits_len(n: nat)
    ensures
        dec_digits(n).len() >= 1,
    decreases n,
{
    if n >= 10 {
        lemma_dec_digits_len(n / 10);
    }
}

/// Distinct numbers have distinct decimal renderings.
pub proof fn lemma_dec_digits_injective(a: nat, b: nat)
    requires
        a != b,
    ensures
        dec_digits(a) != dec_digits(b),
    decreases a + b,
{
    if dec_digits(a) == dec_digits(b) {
        if a < 10 && b < 10 {
            assert(dec_digits(a)[0] == dec_digits(b)[0]);
            assert(false);
        } else if a < 10 {
            lemma_dec_digits_len(b / 10);
            assert(dec_digits(b).len() >= 2);
            assert(false);
        } else if b < 10 {
            lemma_dec_digits_len(a / 10);
            assert(dec_digits(a).len() >= 2);
            assert(false);
        } else {
            let pa = dec_digits(a / 10);
            let pb = dec_digits(b / 10);
            assert(dec_digits(a) == pa + seq![digit_char(a % 10)]);
            assert(dec_digits(b) == pb + seq![digit_char(b % 10)]);
            assert(pa.len() + 1 == dec_digits(a).len());
            assert(pa.len() == pb.len());
            assert(pa =~= dec_digits(a).subrange(0, pa.len() as int));
            assert(pb =~= dec_digits(b).subrange(0, pb.len() as int));
            assert(dec_digits(a).last() == digit_char(a % 10));
            assert(dec_digits(b).last() == digit_char(b % 10));
            assert(a % 10 == b % 10);
            vstd::arithmetic::div_mod::lemma_fundamental_div_mod(a as int, 10);
            vstd::arithmetic::div_mod::lemma_fundamental_div_mod(b as int, 10);
            if a / 10 == b / 10 {
                assert(false);
            } else {
                lemma_dec_digits_injective(a / 10, b / 10);
                assert(false);
            }
        }
    }
}

/// Distinct session ids are published at distinct paths.
pub proof fn lemma_session_paths_distinct(a: nat, b: nat)
    requires
        a != b,
    ensures
        path_chars(a) != path_chars(b),
{
    lemma_dec_digits_injective(a, b);
    if path_chars(a) == path_chars(b) {
        let p = "/de/ytvwld/Ele/"@;
        assert(dec_digits(a) =~= path_chars(a).subrange(
            p.len() as int,
            path_chars(a).len() as int,
        ));
        assert(dec_digits(b) =~= path_chars(b).subrange(
            p.len() as int,
            path_chars(b).len() as int,
        ));
        assert(false);
    }
}

} // verus!
