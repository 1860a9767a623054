use vstd::prelude::*;
use vstd::string::{StrSliceExecFns, StringExecFns};
use crate::errors::{ForestError, ForestResult};
use crate::text::{has_prefix, push_char, starts_with, strip_prefix};

verus! {

/// The smaller of two integers.
pub fn min(a: u64, b: u64) -> (r: u64)
    ensures
        r == if a <= b {
            a
        } else {
            b
        },
{
    if a <= b {
        a
    } else {
        b
    }
}

pub open spec fn hex_marker() -> Seq<char> {
    seq!['0', 'x']
}

pub open spec fn is_hex_digit(c: char) -> bool {
    ('0' <= c && c <= '9') || ('a' <= c && c <= 'f') || ('A' <= c && c <= 'F')
}

/// `s` with every leading `0x` taken off.
pub open spec fn without_hex_markers(s: Seq<char>) -> Seq<char>
    decreases s.len(),
{
    if has_prefix(s, hex_marker()) {
        without_hex_markers(s.subrange(2, s.len() as int))
    } else {
        s
    }
}

/// `s` with a `0x` in front, unless it has one already.
pub fn format_hex_string(s: &str) -> (r: String)
    ensures
        r@ == if has_prefix(s@, hex_marker()) {
            s@
        } else {
            hex_marker() + s@
        },
{
    proof {
        reveal_strlit("0x");
        assert("0x"@ =~= hex_marker());
    }
    if starts_with(s, "0x") {
        s.to_owned()
    } else {
        let mut out = String::from_str("0x");
        out.append(s);
        out
    }
}

/// The hex digits of `s`, every leading `0x` taken off; fails when anything
/// else is left.
pub fn parse_hex_string(s: &str) -> (r: ForestResult<String>)
    ensures
        r is Ok <==> forall|i: int|
            0 <= i < without_hex_markers(s@).len() ==> is_hex_digit(
                #[trigger] without_hex_markers(s@)[i],
            ),
        r is Ok ==> r->Ok_0@ == without_hex_markers(s@),
        r is Err ==> r->Err_0 is ValidationError,
        r is Err ==> r->Err_0.reason() == "Invalid hex string"@,
{
    proof {
        reveal_strlit("0x");
        assert("0x"@ =~= hex_marker());
    }
    let mut rest = s;
    loop
        invariant
            "0x"@ == hex_marker(),
            without_hex_markers(rest@) == without_hex_markers(s@),
        ensures
            without_hex_markers(rest@) == rest@,
            rest@ == without_hex_markers(s@),
        decreases rest@.len(),
    {
        match strip_prefix(rest, "0x") {
            Some(tail) => {
                assert(without_hex_markers(rest@) == without_hex_markers(tail@));
                rest = tail;
            },
            None => {
                assert(without_hex_markers(rest@) == rest@);
                break ;
            },
        }
    }
    let n = rest.unicode_len();
    let mut i: usize = 0;
    while i < n
        invariant
            n == rest@.len(),
            rest@ == without_hex_markers(s@),
            i <= n,
            forall|j: int| 0 <= j < i ==> is_hex_digit(#[trigger] rest@[j]),
        decreases n - i,
    {
        let c = rest.get_char(i);
        if !(('0' <= c && c <= '9') || ('a' <= c && c <= 'f') || ('A' <= c && c <= 'F')) {
            return Err(ForestError::ValidationError("Invalid hex string".to_owned()));
        }
        i = i + 1;
    }
    Ok(rest.to_owned())
}

pub open spec fn is_digit(c: char) -> bool {
    '0' <= c && c <= '9'
}

pub open spec fn digit_value(c: char) -> nat {
    (c as u32 - '0' as u32) as nat
}

pub open spec fn digit_char(d: nat) -> char {
    if d == 0 { '0' }
    else if d == 1 { '1' }
    else if d == 2 { '2' }
    else if d == 3 { '3' }
    else if d == 4 { '4' }
    else if d == 5 { '5' }
    else if d == 6 { '6' }
    else if d == 7 { '7' }
    else if d == 8 { '8' }
    else { '9' }
}

pub open spec fn all_digits(s: Seq<char>) -> bool {
    forall|i: int| 0 <= i < s.len() ==> is_digit(#[trigger] s[i])
}

/// The number that the decimal digits `s` write.
pub open spec fn digits_value(s: Seq<char>) -> nat
    decreases s.len(),
{
    if s.len() == 0 {
        0
    } else {
        digits_value(s.drop_last()) * 10 + digit_value(s.last())
    }
}

/// The decimal digits of `n`, without leading zeros.
pub open spec fn decimal(n: nat) -> Seq<char>
    decreases n,
{
    if n < 10 {
        seq![digit_char(n)]
    } else {
        decimal(n / 10).push(digit_char(n % 10))
    }
}

/// The last `width` decimal digits of `n`, with leading zeros.
pub open spec fn padded_decimal(n: nat, width: nat) -> Seq<char>
    decreases width,
{
    if width == 0 {
        Seq::empty()
    } else {
        padded_decimal(n / 10, (width - 1) as nat).push(digit_char(n % 10))
    }
}

fn digit_to_char(d: u8) -> (c: char)
    requires
        d < 10,
    ensures
        c == digit_char(d as nat),
{
    if d == 0 { '0' }
    else if d == 1 { '1' }
    else if d == 2 { '2' }
    else if d == 3 { '3' }
    else if d == 4 { '4' }
    else if d == 5 { '5' }
    else if d == 6 { '6' }
    else if d == 7 { '7' }
    else if d == 8 { '8' }
    else { '9' }
}

pub(crate) fn push_decimal(out: &mut String, n: u128)
    ensures
        final(out)@ == old(out)@ + decimal(n as nat),
    decreases n,
{
    if n >= 10 {
        push_decimal(out, n / 10);
    }
    push_char(out, digit_to_char((n % 10) as u8));
    proof {
        if n >= 10 {
            assert(old(out)@ + decimal((n / 10) as nat) + seq![digit_char((n % 10) as nat)] =~= old(
                out,
            )@ + decimal((n / 10) as nat).push(digit_char((n % 10) as nat)));
        } else {
            assert(old(out)@.push(digit_char(n as nat)) =~= old(out)@ + seq![digit_char(n as nat)]);
        }
    }
}

fn push_padded_decimal(out: &mut String, n: u128, width: u32)
    ensures
        final(out)@ == old(out)@ + padded_decimal(n as nat, width as nat),
    decreases width,
{
    if width == 0 {
        assert(old(out)@ + Seq::<char>::empty() =~= old(out)@);
        return;
    }
    push_padded_decimal(out, n / 10, width - 1);
    push_char(out, digit_to_char((n % 10) as u8));
    assert(old(out)@ + padded_decimal((n / 10) as nat, (width - 1) as nat) + seq![
        digit_char((n % 10) as nat),
    ] =~= old(out)@ + padded_decimal((n / 10) as nat, (width - 1) as nat).push(
        digit_char((n % 10) as nat),
    ));
}


pub const WEI_PER_ETH: u128 = 1_000_000_000_000_000_000;

/// The digits of an unsigned decimal, after its optional leading `+`.
pub open spec fn unsigned_digits(s: Seq<char>) -> Seq<char> {
    if s.len() > 0 && s[0] == '+' {
        s.drop_first()
    } else {
        s
    }
}

/// `s` writes an unsigned decimal: an optional `+`, then one digit or more.
pub open spec fn is_unsigned_text(s: Seq<char>) -> bool {
    unsigned_digits(s).len() > 0 && all_digits(unsigned_digits(s))
}

/// An amount of wei written in ether: the whole ether, a point, and the
/// remainder in eighteen digits.
pub open spec fn eth_text(wei: nat) -> Seq<char> {
    decimal(wei / WEI_PER_ETH as nat) + seq!['.'] + padded_decimal(
        wei % WEI_PER_ETH as nat,
        18,
    )
}

fn digit_of(c: char) -> (r: u128)
    requires
        is_digit(c),
    ensures
        r == digit_value(c),
        r < 10,
{
    (c as u32 - '0' as u32) as u128
}

/// The number that the digits `s` write, when `s` holds digits alone (none
/// at all writes zero) and the number fits in 128 bits.
pub fn parse_digits(s: &str) -> (r: Option<u128>)
    ensures
        r is Some <==> all_digits(s@) && digits_value(s@) <= u128::MAX,
        r is Some ==> r->0 == digits_value(s@),
{
    let n = s.unicode_len();
    let mut value: u128 = 0;
    let mut overflow = false;
    let mut i: usize = 0;
    while i < n
        invariant
            n == s@.len(),
            i <= n,
            all_digits(s@.subrange(0, i as int)),
            !overflow ==> value == digits_value(s@.subrange(0, i as int)),
            overflow ==> digits_value(s@.subrange(0, i as int)) > u128::MAX,
        decreases n - i,
    {
        let c = s.get_char(i);
        if !('0' <= c && c <= '9') {
            assert(!is_digit(s@[i as int]));
            assert(!all_digits(s@));
            return None;
        }
        let ghost before = s@.subrange(0, i as int);
        let ghost after = s@.subrange(0, i + 1);
        assert(after.drop_last() =~= before);
        assert(after.last() == c);
        let d = digit_of(c);
        if !overflow {
            if value > (u128::MAX - d) / 10 {
                overflow = true;
            } else {
                value = value * 10 + d;
            }
        }
        i = i + 1;
    }
    assert(s@.subrange(0, n as int) =~= s@);
    if overflow {
        None
    } else {
        Some(value)
    }
}

/// The part of `s` after its optional leading `+`.
fn unsigned_body(s: &str) -> (r: &str)
    ensures
        r@ == unsigned_digits(s@),
{
    proof {
        reveal_strlit("+");
        assert("+"@ =~= seq!['+']);
        if s@.len() > 0 {
            assert(has_prefix(s@, seq!['+']) <==> s@[0] == '+') by {
                if s@[0] == '+' {
                    assert(s@.subrange(0, 1) =~= seq!['+']);
                }
                if has_prefix(s@, seq!['+']) {
                    assert(s@.subrange(0, 1)[0] == s@[0]);
                }
            }
        }
    }
    let body = match strip_prefix(s, "+") {
        Some(tail) => tail,
        None => s,
    };
    assert(body@ =~= unsigned_digits(s@));
    body
}

/// The number that `s` writes as an unsigned decimal, when it is one and
/// fits in 128 bits.
pub fn parse_unsigned(s: &str) -> (r: Option<u128>)
    ensures
        r is Some <==> is_unsigned_text(s@) && digits_value(unsigned_digits(s@)) <= u128::MAX,
        r is Some ==> r->0 == digits_value(unsigned_digits(s@)),
{
    let body = unsigned_body(s);
    if body.unicode_len() == 0 {
        return None;
    }
    parse_digits(body)
}

fn wei_to_eth_text(wei: u128) -> (r: String)
    ensures
        r@ == eth_text(wei as nat),
{
    let mut out = String::new();
    push_decimal(&mut out, wei / WEI_PER_ETH);
    push_char(&mut out, '.');
    push_padded_decimal(&mut out, wei % WEI_PER_ETH, 18);
    proof {
        assert(out@ =~= eth_text(wei as nat));
    }
    out
}

/// An amount of wei, written in decimal, rendered in ether with all eighteen
/// decimals.
pub fn format_wei_to_eth(wei: &str) -> (r: ForestResult<String>)
    ensures
        r is Ok <==> is_unsigned_text(wei@) && digits_value(unsigned_digits(wei@)) <= u128::MAX,
        r is Ok ==> r->Ok_0@ == eth_text(digits_value(unsigned_digits(wei@))),
        r is Err ==> r->Err_0 is ValidationError,
        r is Err ==> r->Err_0.reason() == "Invalid wei value"@,
{
    match parse_unsigned(wei) {
        Some(v) => Ok(wei_to_eth_text(v)),
        None => Err(ForestError::ValidationError("Invalid wei value".to_owned())),
    }
}

/// An integer in decimal, with a leading `-` when it is negative.
pub open spec fn signed_decimal(n: int) -> Seq<char> {
    if n < 0 {
        seq!['-'] + decimal((-n) as nat)
    } else {
        decimal(n as nat)
    }
}

/// `n` in decimal.
pub fn decimal_text(n: u128) -> (r: String)
    ensures
        r@ == decimal(n as nat),
{
    let mut out = String::new();
    push_decimal(&mut out, n);
    assert(out@ =~= decimal(n as nat));
    out
}

/// `n` in decimal, with a leading `-` when it is negative.
pub fn signed_decimal_text(n: i64) -> (r: String)
    ensures
        r@ == signed_decimal(n as int),
{
    let mut out = String::new();
    if n < 0 {
        push_char(&mut out, '-');
        push_decimal(&mut out, (-(n as i128)) as u128);
    } else {
        push_decimal(&mut out, n as u128);
    }
    assert(out@ =~= signed_decimal(n as int));
    out
}

} // verus!
