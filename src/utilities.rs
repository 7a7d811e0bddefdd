use vstd::prelude::*;
use vstd::arithmetic::power::pow;
use vstd::string::StrSliceExecFns;

verus! {

/// `count` is the number of digits of `n` in `base`: the least `count >= 1`
/// with `n < base^count`.
pub open spec fn is_num_length(n: nat, base: nat, count: nat) -> bool {
    &&& count >= 1
    &&& n < pow(base as int, count)
    &&& (count == 1 || n >= pow(base as int, (count - 1) as nat))
}

proof fn lemma_pow_succ(b: int, e: nat)
    ensures
        pow(b, e + 1) == pow(b, e) * b,
{
    reveal(pow);
    assert(pow(b, e + 1) == b * pow(b, e));
    vstd::arithmetic::mul::lemma_mul_is_commutative(b, pow(b, e));
}

/// The number of digits of `n` written in `base` (`0` has one digit).
pub fn num_length(n: usize, base: usize) -> (count: usize)
    requires
        base >= 2 || n < base,
    ensures
        is_num_length(n as nat, base as nat, count as nat),
{
    if n < base {
        proof {
            lemma_pow_succ(base as int, 0);
            reveal(pow);
        }
        return 1;
    }
    let mut power: usize = base;
    let mut count: usize = 1;
    let ghost mut prev: nat = 1;
    proof {
        lemma_pow_succ(base as int, 0);
        reveal(pow);
    }
    loop
        invariant_except_break
            power == prev * base,
        invariant
            base >= 2,
            1 <= count <= prev <= usize::MAX,
            prev == pow(base as int, (count - 1) as nat),
            count == 1 || n >= prev,
        ensures
            is_num_length(n as nat, base as nat, count as nat),
        decreases usize::MAX - power,
    {
        proof {
            lemma_pow_succ(base as int, (count - 1) as nat);
        }
        if n < power {
            break;
        }
        assert(count + 1 <= power && power < power * base) by (nonlinear_arith)
            requires
                count <= prev,
                power == prev * base,
                base >= 2,
                count >= 1,
        ;
        count += 1;
        proof {
            prev = power as nat;
        }
        if let Some(new_power) = power.checked_mul(base) {
            power = new_power;
        } else {
            proof {
                lemma_pow_succ(base as int, (count - 1) as nat);
            }
            break;
        }
    }
    count
}

/// The text that byte-unit writes for a byte count.
pub uninterp spec fn byte_text(bytes: nat) -> Seq<char>;

/// A byte count as text in the binary unit that suits it (`"2.00 KiB"`).
///
/// Relies on byte-unit: `Byte::get_appropriate_unit(true)` picks the unit and
/// the `Display` of the adjusted value writes the text.
#[verifier::external_body]
pub fn format_bytes(bytes: u128) -> (r: String)
    ensures
        r@ == byte_text(bytes as nat),
{
    byte_unit::Byte::from_bytes(bytes).get_appropriate_unit(true).to_string()
}

/// The prefix that marks a verbatim Windows path: `\\?\`.
pub open spec fn verbatim_prefix() -> Seq<char> {
    seq!['\\', '\\', '?', '\\']
}

/// A displayed path without its verbatim prefix, if it has one.
pub open spec fn format_path_spec(p: Seq<char>) -> Seq<char> {
    if p.len() >= 4 && p.subrange(0, 4) == verbatim_prefix() {
        p.subrange(4, p.len() as int)
    } else {
        p
    }
}

/// A path, as its `Display` writes it, made ready to show: the verbatim
/// prefix `\\?\` that canonical Windows paths carry is dropped.
pub fn format_path(p: &str) -> (r: String)
    ensures
        r@ == format_path_spec(p@),
{
    let len = p.unicode_len();
    if len >= 4 && p.get_char(0) == '\\' && p.get_char(1) == '\\' && p.get_char(2) == '?'
        && p.get_char(3) == '\\' {
        assert(p@.subrange(0, 4) =~= verbatim_prefix());
        p.substring_char(4, len).to_owned()
    } else {
        proof {
            if p@.len() >= 4 && p@.subrange(0, 4) == verbatim_prefix() {
                assert(p@[0] == p@.subrange(0, 4)[0]);
                assert(p@[1] == p@.subrange(0, 4)[1]);
                assert(p@[2] == p@.subrange(0, 4)[2]);
                assert(p@[3] == p@.subrange(0, 4)[3]);
            }
        }
        p.to_owned()
    }
}

} // verus!
