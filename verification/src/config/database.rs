//! Where the database lives, and which namespace and database to use.

use vstd::prelude::*;
use crate::config::env::{all_digits, digits_value, digit_value, parse_u16_spec, lemma_digits_value_step, EnvVar};

verus! {

/// The ASCII digit character for `d < 10`.
pub open spec fn digit_char(d: nat) -> char {
    ('0' as nat + d) as char
}

/// The decimal representation of `n`, without leading zeros.
pub open spec fn decimal(n: nat) -> Seq<char>
    decreases n,
{
    if n < 10 {
        seq![digit_char(n)]
    } else {
        decimal(n / 10).push(digit_char(n % 10))
    }
}

fn digit_str(d: u16) -> (r: &'static str)
    requires
        d < 10,
    ensures
        r@ == seq![digit_char(d as nat)],
{
    match d {
        0 => {
            proof { reveal_strlit("0"); }
            "0"
        },
        1 => {
            proof { reveal_strlit("1"); }
            "1"
        },
        2 => {
            proof { reveal_strlit("2"); }
            "2"
        },
        3 => {
            proof { reveal_strlit("3"); }
            "3"
        },
        4 => {
            proof { reveal_strlit("4"); }
            "4"
        },
        5 => {
            proof { reveal_strlit("5"); }
            "5"
        },
        6 => {
            proof { reveal_strlit("6"); }
            "6"
        },
        7 => {
            proof { reveal_strlit("7"); }
            "7"
        },
        8 => {
            proof { reveal_strlit("8"); }
            "8"
        },
        _ => {
            proof { reveal_strlit("9"); }
            "9"
        },
    }
}

fn push_decimal(out: &mut String, n: u16)
    ensures
        final(out)@ == old(out)@ + decimal(n as nat),
    decreases n,
{
    if n >= 10 {
        push_decimal(out, n / 10);
    }
    out.append(digit_str(n % 10));
}

/// The address of the database server: the host, a colon, and the port in
/// decimal.
pub fn surreal_address(env: &EnvVar) -> (r: String)
    ensures
        r@ == env.surreal_host@ + seq![':'] + decimal(env.surreal_port as nat),
{
    let mut out = env.surreal_host.clone();
    proof { reveal_strlit(":"); }
    out.append(":");
    push_decimal(&mut out, env.surreal_port);
    out
}

/// The database namespace that the service uses.
pub fn surreal_namespace() -> (r: &'static str)
    ensures
        r@ == seq!['s', 'h', 'o', 'r', 't', 'l', 'i', 'n', 'k'],
{
    proof { reveal_strlit("shortlink"); }
    "shortlink"
}

/// The database, within the namespace, that the service uses.
pub fn surreal_database() -> (r: &'static str)
    ensures
        r@ == seq!['s', 'h', 'o', 'r', 't', 'l', 'i', 'n', 'k', '_', 'd', 'b'],
{
    proof { reveal_strlit("shortlink_db"); }
    "shortlink_db"
}

proof fn lemma_decimal_digits(n: nat)
    ensures
        decimal(n).len() > 0,
        all_digits(decimal(n)),
        digits_value(decimal(n)) == n,
        decimal(n)[0] != '+',
    decreases n,
{
    if n >= 10 {
        lemma_decimal_digits(n / 10);
        lemma_digits_value_step(decimal(n / 10), digit_char(n % 10));
        assert(decimal(n).drop_last() =~= decimal(n / 10));
        assert(digit_value(digit_char(n % 10)) == n % 10);
        assert((n / 10) * 10 + n % 10 == n) by (nonlinear_arith);
    } else {
        assert(decimal(n).drop_last() =~= Seq::<char>::empty());
        assert(digit_value(digit_char(n)) == n);
        assert(digits_value(decimal(n)) == digits_value(Seq::<char>::empty()) * 10 + digit_value(digit_char(n)));
    }
}

/// A port written in decimal parses back to the same port.
pub proof fn law_port_decimal_round_trip(port: u16)
    ensures
        parse_u16_spec(decimal(port as nat)) == Some(port),
{
    lemma_decimal_digits(port as nat);
}

} // verus!
