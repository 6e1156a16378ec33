//! Text forms of the values that appear in log lines.

use vstd::prelude::*;
use vstd::string::*;

verus! {

/// The character that writes the digit `d`, for `d` below ten.
pub open spec fn digit_char(d: nat) -> char {
    if d == 0 {
        '0'
    } else if d == 1 {
        '1'
    } else if d == 2 {
        '2'
    } else if d == 3 {
        '3'
    } else if d == 4 {
        '4'
    } else if d == 5 {
        '5'
    } else if d == 6 {
        '6'
    } else if d == 7 {
        '7'
    } else if d == 8 {
        '8'
    } else {
        '9'
    }
}

/// The decimal numeral of `n`: no sign, no leading zero, `"0"` for zero.
pub open spec fn decimal_text(n: nat) -> Seq<char>
    decreases n,
{
    if n < 10 {
        seq![digit_char(n)]
    } else {
        decimal_text(n / 10).push(digit_char(n % 10))
    }
}

/// The numerals of `bytes`, in order, with a comma and a space between
/// neighbours.
pub open spec fn byte_items_text(bytes: Seq<u8>) -> Seq<char>
    decreases bytes.len(),
{
    if bytes.len() == 0 {
        Seq::empty()
    } else if bytes.len() == 1 {
        decimal_text(bytes[0] as nat)
    } else {
        byte_items_text(bytes.drop_last()) + seq![',', ' '] + decimal_text(bytes.last() as nat)
    }
}

/// A list of bytes in square brackets: `[]`, `[7]`, `[1, 2, 3]`.
pub open spec fn byte_list_text(bytes: Seq<u8>) -> Seq<char> {
    seq!['['] + byte_items_text(bytes) + seq![']']
}

fn digit_str(d: u64) -> (s: &'static str)
    requires
        d < 10,
    ensures
        s@ == seq![digit_char(d as nat)],
{
    proof {
        reveal_strlit("0");
        reveal_strlit("1");
        reveal_strlit("2");
        reveal_strlit("3");
        reveal_strlit("4");
        reveal_strlit("5");
        reveal_strlit("6");
        reveal_strlit("7");
        reveal_strlit("8");
        reveal_strlit("9");
    }
    let s = if d == 0 {
        "0"
    } else if d == 1 {
        "1"
    } else if d == 2 {
        "2"
    } else if d == 3 {
        "3"
    } else if d == 4 {
        "4"
    } else if d == 5 {
        "5"
    } else if d == 6 {
        "6"
    } else if d == 7 {
        "7"
    } else if d == 8 {
        "8"
    } else {
        "9"
    };
    assert(s@ =~= seq![digit_char(d as nat)]);
    s
}

/// Appends the decimal numeral of `n` to `out`.
pub fn push_decimal(out: &mut String, n: u64)
    ensures
        final(out)@ == old(out)@ + decimal_text(n as nat),
    decreases n,
{
    if n >= 10 {
        push_decimal(out, n / 10);
    }
    out.append(digit_str(n % 10));
}

/// Appends `bytes` to `out` as a bracketed list of numerals.
pub fn push_byte_list(out: &mut String, bytes: &Vec<u8>)
    ensures
        final(out)@ == old(out)@ + byte_list_text(bytes@),
{
    proof {
        reveal_strlit("[");
        reveal_strlit("]");
        reveal_strlit(", ");
    }
    out.append("[");
    let mut i: usize = 0;
    while i < bytes.len()
        invariant
            i <= bytes.len(),
            out@ == old(out)@ + seq!['['] + byte_items_text(bytes@.take(i as int)),
            ", "@ =~= seq![',', ' '],
        decreases bytes.len() - i,
    {
        if i > 0 {
            out.append(", ");
        }
        push_decimal(out, bytes[i] as u64);
        proof {
            let next = bytes@.take(i + 1);
            assert(next.drop_last() =~= bytes@.take(i as int));
            assert(next.last() == bytes@[i as int]);
        }
        i += 1;
    }
    assert(bytes@.take(i as int) =~= bytes@);
    out.append("]");
}

/// The base-58 text of a 32-byte account address, as the Solana SDK writes it.
pub uninterp spec fn address_base58(key: Seq<u8>) -> Seq<char>;

/// The base-58 text of a 64-byte transaction signature, as the Solana SDK
/// writes it.
pub uninterp spec fn signature_base58(signature: Seq<u8>) -> Seq<char>;

/// The text that the standard library's debug formatting gives a time span of
/// `nanos` nanoseconds.
pub uninterp spec fn span_debug_text(nanos: u64) -> Seq<char>;

/// Trusted: `Display` of `solana_sdk::pubkey::Pubkey`. The SDK base-58
/// encodes the 32 bytes and nothing else, so the text depends on the bytes
/// alone; this contract only gives that text its name.
#[verifier::external_body]
pub(crate) fn address_string(key: &[u8; 32]) -> (text: String)
    ensures
        text@ == address_base58(key@),
{
    solana_sdk::pubkey::Pubkey::new_from_array(*key).to_string()
}

/// Trusted: `Debug` of `solana_sdk::signature::Signature`. The SDK base-58
/// encodes the 64 bytes and nothing else, so the text depends on the bytes
/// alone; this contract only gives that text its name.
#[verifier::external_body]
pub(crate) fn signature_string(signature: &[u8; 64]) -> (text: String)
    ensures
        text@ == signature_base58(signature@),
{
    format!("{:?}", solana_sdk::signature::Signature::from(*signature))
}

/// Trusted: `Debug` of `std::time::Duration`, on the span that
/// `Duration::from_nanos` makes of `nanos`. The text depends on the span
/// alone; this contract only gives that text its name.
#[verifier::external_body]
pub(crate) fn span_string(nanos: u64) -> (text: String)
    ensures
        text@ == span_debug_text(nanos),
{
    format!("{:?}", std::time::Duration::from_nanos(nanos))
}

} // verus!
