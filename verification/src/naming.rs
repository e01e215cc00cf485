//! Naming of the output file.
//!
//! Every session records into `recording_<unix-seconds>.wav`; the decimal
//! rendering of the timestamp is built here and specified character by
//! character, so the session manager's contract can speak of the exact name.

use vstd::prelude::*;
use vstd::string::StringExecFns;

verus! {

/// The decimal digit character for `d` (meaningful for `0 <= d <= 9`).
pub open spec fn digit_char(d: int) -> char {
    if d == 0 {
        '0'
    } else if d == 1 {
        '1'
    } else if d == 2 {
        '2'
    } else if d == 3 {
        '3'
    } else if d == 4 {
        '4'
    } else if d == 5 {
        '5'
    } else if d == 6 {
        '6'
    } else if d == 7 {
        '7'
    } else if d == 8 {
        '8'
    } else {
        '9'
    }
}

/// The usual decimal rendering of `n`: most significant digit first, no
/// leading zeros, a single `'0'` for zero.
pub open spec fn decimal_str(n: nat) -> Seq<char>
    decreases n,
{
    if n < 10 {
        seq![digit_char(n as int)]
    } else {
        decimal_str(n / 10) + seq![digit_char((n % 10) as int)]
    }
}

/// The one-character string for the decimal digit `d`.
fn digit_literal(d: u64) -> (r: &'static str)
    requires
        d < 10,
    ensures
        r@ == seq![digit_char(d as int)],
{
    let s: &'static str = match d {
        0 => "0",
        1 => "1",
        2 => "2",
        3 => "3",
        4 => "4",
        5 => "5",
        6 => "6",
        7 => "7",
        8 => "8",
        _ => "9",
    };
    proof {
        reveal_strlit("0");
        reveal_strlit("1");
        reveal_strlit("2");
        reveal_strlit("3");
        reveal_strlit("4");
        reveal_strlit("5");
        reveal_strlit("6");
        reveal_strlit("7");
        reveal_strlit("8");
        reveal_strlit("9");
        assert(s@ =~= seq![digit_char(d as int)]);
    }
    s
}

/// Append the decimal rendering of `n` to `out`.
pub fn push_decimal(out: &mut String, n: u64)
    ensures
        final(out)@ == old(out)@ + decimal_str(n as nat),
    decreases n,
{
    if n >= 10 {
        push_decimal(out, n / 10);
    }
    out.append(digit_literal(n % 10));
    proof {
        assert(out@ =~= old(out)@ + decimal_str(n as nat));
    }
}

/// The name of the file recorded by a session begun at Unix time `secs`.
pub open spec fn recording_file_name_spec(secs: nat) -> Seq<char> {
    "recording_"@ + decimal_str(secs) + ".wav"@
}

/// Build `recording_<secs>.wav` for a session begun at Unix time `secs`.
pub fn recording_file_name(secs: u64) -> (r: String)
    ensures
        r@ == recording_file_name_spec(secs as nat),
{
    let mut s = "recording_".to_owned();
    push_decimal(&mut s, secs);
    s.append(".wav");
    s
}

/// A decimal rendering always has at least one character.
pub proof fn lemma_decimal_str_len(n: nat)
    ensures
        decimal_str(n).len() >= 1,
    decreases n,
{
    if n >= 10 {
        lemma_decimal_str_len(n / 10);
    }
}

/// Two different numbers never share a decimal rendering.
pub proof fn lemma_decimal_str_injective(a: nat, b: nat)
    requires
        decimal_str(a) == decimal_str(b),
    ensures
        a == b,
    decreases a + b,
{
    lemma_decimal_str_len(a / 10);
    lemma_decimal_str_len(b / 10);
    if a < 10 && b < 10 {
        assert(decimal_str(a)[0] == digit_char(a as int));
        assert(decimal_str(b)[0] == digit_char(b as int));
    } else if a < 10 {
        assert(decimal_str(a).len() == 1);
        assert(decimal_str(b).len() == decimal_str(b / 10).len() + 1);
    } else if b < 10 {
        assert(decimal_str(b).len() == 1);
        assert(decimal_str(a).len() == decimal_str(a / 10).len() + 1);
    } else {
        let da = decimal_str(a / 10);
        let db = decimal_str(b / 10);
        assert(decimal_str(a) == da + seq![digit_char((a % 10) as int)]);
        assert(decimal_str(b) == db + seq![digit_char((b % 10) as int)]);
        assert(da.len() == db.len());
        assert(decimal_str(a)[da.len() as int] == digit_char((a % 10) as int));
        assert(decimal_str(b)[db.len() as int] == digit_char((b % 10) as int));
        assert(a % 10 == b % 10);
        assert(da =~= db) by {
            assert forall|i: int| 0 <= i < da.len() implies da[i] == db[i] by {
                assert(da[i] == decimal_str(a)[i]);
                assert(db[i] == decimal_str(b)[i]);
            }
        }
        lemma_decimal_str_injective(a / 10, b / 10);
        assert(a == (a / 10) * 10 + a % 10) by (nonlinear_arith);
        assert(b == (b / 10) * 10 + b % 10) by (nonlinear_arith);
    }
}

/// Sessions begun at different times never collide on a file name: the
/// name derived from the start timestamp is unique per timestamp.
pub proof fn lemma_recording_file_name_unique(a: nat, b: nat)
    requires
        recording_file_name_spec(a) == recording_file_name_spec(b),
    ensures
        a == b,
{
    let p = "recording_"@;
    let s = ".wav"@;
    let da = decimal_str(a);
    let db = decimal_str(b);
    assert((p + da + s).len() == p.len() + da.len() + s.len());
    assert((p + db + s).len() == p.len() + db.len() + s.len());
    assert(da.len() == db.len());
    assert(da =~= db) by {
        assert forall|i: int| 0 <= i < da.len() implies da[i] == db[i] by {
            assert((p + da + s)[p.len() + i] == da[i]);
            assert((p + db + s)[p.len() + i] == db[i]);
        }
    }
    lemma_decimal_str_injective(a, b);
}

} // verus!
