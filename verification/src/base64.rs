//! Base64, as credentials for an HTTP proxy are written in it.

use vstd::prelude::*;
use vstd::string::StrSliceExecFns;
use crate::text::push_char;

verus! {

/// The 64 digits of Base64, in their order.
pub const ALPHABET: &'static str =
    "ABCDEFGHIJKLMNOPQRSTUVWXYZabcdefghijklmnopqrstuvwxyz0123456789+/";

/// The character that fills up the last group of four.
pub const PAD: char = '=';

/// The digit that stands for a value below 64.
pub open spec fn digit(value: int) -> char {
    ALPHABET@[value]
}

/// The four characters that stand for a group of up to three bytes: the
/// bits of the bytes, six to a digit, and padding where bytes are missing.
pub open spec fn group(bytes: Seq<u8>) -> Seq<char> {
    let a = bytes[0] as int;
    let b = bytes[1] as int;
    let c = bytes[2] as int;
    if bytes.len() == 1 {
        seq![digit(a / 4), digit(a % 4 * 16), PAD, PAD]
    } else if bytes.len() == 2 {
        seq![digit(a / 4), digit(a % 4 * 16 + b / 16), digit(b % 16 * 4), PAD]
    } else {
        seq![digit(a / 4), digit(a % 4 * 16 + b / 16), digit(b % 16 * 4 + c / 64), digit(c % 64)]
    }
}

/// Bytes written in Base64: each group of three bytes as four digits, and a
/// last group of one or two bytes filled up with padding.
pub open spec fn base64(bytes: Seq<u8>) -> Seq<char>
    decreases bytes.len(),
{
    if bytes.len() == 0 {
        Seq::empty()
    } else if bytes.len() <= 3 {
        group(bytes)
    } else {
        group(bytes.take(3)) + base64(bytes.skip(3))
    }
}

/// Bytes written in Base64 are four characters for every three bytes, the
/// last three counted in full.
pub proof fn lemma_base64_len(bytes: Seq<u8>)
    ensures
        base64(bytes).len() == (bytes.len() + 2) / 3 * 4,
    decreases bytes.len(),
{
    if bytes.len() > 3 {
        lemma_base64_len(bytes.skip(3));
    }
}

fn push_digit(out: &mut String, value: u8)
    requires
        value < 64,
    ensures
        final(out)@ == old(out)@.push(digit(value as int)),
{
    proof {
        reveal_strlit("ABCDEFGHIJKLMNOPQRSTUVWXYZabcdefghijklmnopqrstuvwxyz0123456789+/");
    }
    push_char(out, ALPHABET.get_char(value as usize));
}

/// Writes bytes in Base64.
pub fn encode_into(bytes: &[u8], out: &mut String)
    ensures
        final(out)@ == old(out)@ + base64(bytes@),
{
    let ghost start = out@;
    let n = bytes.len();
    let mut i: usize = 0;
    assert(bytes@.skip(0) =~= bytes@);
    assert(start + Seq::<char>::empty() =~= start);
    let ghost mut done: Seq<char> = Seq::empty();
    while n - i > 3
        invariant
            i <= n,
            n == bytes@.len(),
            out@ == start + done,
            done + base64(bytes@.skip(i as int)) == base64(bytes@),
        decreases n - i,
    {
        let ghost rest = bytes@.skip(i as int);
        let a = bytes[i];
        let b = bytes[i + 1];
        let c = bytes[i + 2];
        assert(rest.take(3) =~= seq![a, b, c]);
        assert(rest.skip(3) =~= bytes@.skip(i + 3));
        push_digit(out, a / 4);
        push_digit(out, a % 4 * 16 + b / 16);
        push_digit(out, b % 16 * 4 + c / 64);
        push_digit(out, c % 64);
        proof {
            let added = group(seq![a, b, c]);
            assert(out@ =~= start + (done + added));
            assert((done + added) + base64(bytes@.skip(i + 3)) =~= done + (added + base64(
                bytes@.skip(i + 3),
            )));
            done = done + added;
        }
        i += 3;
    }
    let ghost rest = bytes@.skip(i as int);
    if n - i == 1 {
        let a = bytes[i];
        assert(rest =~= seq![a]);
        push_digit(out, a / 4);
        push_digit(out, a % 4 * 16);
        push_char(out, PAD);
        push_char(out, PAD);
        assert(out@ =~= start + (done + base64(rest)));
    } else if n - i == 2 {
        let a = bytes[i];
        let b = bytes[i + 1];
        assert(rest =~= seq![a, b]);
        push_digit(out, a / 4);
        push_digit(out, a % 4 * 16 + b / 16);
        push_digit(out, b % 16 * 4);
        push_char(out, PAD);
        assert(out@ =~= start + (done + base64(rest)));
    } else if n - i == 3 {
        let a = bytes[i];
        let b = bytes[i + 1];
        let c = bytes[i + 2];
        assert(rest =~= seq![a, b, c]);
        push_digit(out, a / 4);
        push_digit(out, a % 4 * 16 + b / 16);
        push_digit(out, b % 16 * 4 + c / 64);
        push_digit(out, c % 64);
        assert(out@ =~= start + (done + base64(rest)));
    } else {
        assert(rest =~= Seq::<u8>::empty());
        assert(out@ =~= start + (done + base64(rest)));
    }
    assert(start + (done + base64(rest)) =~= start + base64(bytes@));
}

} // verus!
