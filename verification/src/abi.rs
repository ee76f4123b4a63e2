//! Call-data encoding and reply decoding for the router's methods.
//!
//! The router speaks the contract ABI: a 4-byte method selector followed
//! by 32-byte big-endian words, with dynamic arrays passed as an offset,
//! a length word and the elements.  The three methods used here are the
//! two read-only quote queries ("get amounts in" / "get amounts out")
//! and the swap call that tolerates fee-on-transfer tokens.

use vstd::prelude::*;
use vstd::arithmetic::mul::lemma_mul_inequality;
use vstd::arithmetic::power::{lemma_pow0, lemma_pow1, lemma_pow_adds, lemma_pow_increases, lemma_pow_positive, pow};
use crate::addr::Address;
use crate::amounts::QuoteError;

verus! {

/// Byte `k` (most significant first) of the 16-byte big-endian form of
/// a 128-bit value.
pub open spec fn spec_be16_byte(v: u128, k: int) -> u8 {
    ((v >> (((15 - k) * 8) as u128)) & 0xff) as u8
}

/// The 32-byte ABI word holding a 128-bit value: 16 zero bytes, then
/// the value in big-endian order.
pub open spec fn spec_abi_word_u128(v: u128) -> Seq<u8> {
    Seq::new(32, |i: int| if i < 16 { 0u8 } else { spec_be16_byte(v, i - 16) })
}

/// The 32-byte ABI word holding a 20-byte address: 12 zero bytes, then
/// the address bytes.
pub open spec fn spec_abi_word_address(a: Seq<u8>) -> Seq<u8> {
    Seq::new(32, |i: int| if i < 12 { 0u8 } else { a[i - 12] })
}

/// The concatenated ABI words of a path's addresses.
pub open spec fn spec_path_words(path: Seq<Seq<u8>>) -> Seq<u8>
    decreases path.len(),
{
    if path.len() == 0 {
        Seq::empty()
    } else {
        spec_path_words(path.drop_last()) + spec_abi_word_address(path.last())
    }
}

/// The byte views of a path's addresses.
pub open spec fn spec_path_views(path: Seq<Address>) -> Seq<Seq<u8>> {
    path.map_values(|a: Address| a.bytes@)
}

/// Selector of the router's "get amounts in" query.
pub open spec fn spec_get_amounts_in_selector() -> Seq<u8> {
    seq![0x1fu8, 0x00u8, 0xcau8, 0x74u8]
}

/// Selector of the router's "get amounts out" query.
pub open spec fn spec_get_amounts_out_selector() -> Seq<u8> {
    seq![0xd0u8, 0x6cu8, 0xa6u8, 0x1fu8]
}

/// Selector of the router's swap-exact-native-for-tokens call in the
/// variant that supports fee-on-transfer tokens.
pub open spec fn spec_swap_selector() -> Seq<u8> {
    seq![0xb6u8, 0xf9u8, 0xdeu8, 0x95u8]
}

/// Call data of a quote query: selector, the amount, the offset of the
/// path array (64), the path length, and the path elements.
pub open spec fn spec_amounts_calldata(selector: Seq<u8>, amount: u128, path: Seq<Seq<u8>>) -> Seq<
    u8,
> {
    selector + spec_abi_word_u128(amount) + spec_abi_word_u128(64) + spec_abi_word_u128(
        path.len() as u128,
    ) + spec_path_words(path)
}

/// Call data of the swap call: selector, the minimum output, the offset
/// of the path array (128), the recipient, the deadline, the path length
/// and the path elements.
pub open spec fn spec_swap_calldata(
    min_out: u128,
    path: Seq<Seq<u8>>,
    to: Seq<u8>,
    deadline: u64,
) -> Seq<u8> {
    spec_swap_selector() + spec_abi_word_u128(min_out) + spec_abi_word_u128(128)
        + spec_abi_word_address(to) + spec_abi_word_u128(deadline as u128) + spec_abi_word_u128(
        path.len() as u128,
    ) + spec_path_words(path)
}

proof fn lemma_low_byte_fits(x: u128)
    ensures
        x & 0xff <= 0xff,
{
    assert(x & 0xff <= 0xff) by (bit_vector);
}

/// Appends the ABI word of a 128-bit value.
fn push_word_u128(out: &mut Vec<u8>, v: u128)
    ensures
        final(out)@ == old(out)@ + spec_abi_word_u128(v),
{
    let ghost base = out@;
    let ghost word = spec_abi_word_u128(v);
    let mut i: usize = 0;
    while i < 32
        invariant
            0 <= i <= 32,
            word == spec_abi_word_u128(v),
            out@ == base + word.subrange(0, i as int),
        decreases 32 - i,
    {
        let byte: u8 = if i < 16 {
            0u8
        } else {
            let k = i - 16;
            let shift = ((15 - k) * 8) as u128;
            proof {
                lemma_low_byte_fits(v >> shift);
            }
            ((v >> shift) & 0xff) as u8
        };
        assert(byte == word[i as int]);
        out.push(byte);
        proof {
            assert(out@ =~= base + word.subrange(0, i + 1));
        }
        i = i + 1;
    }
    proof {
        assert(out@ =~= base + word);
    }
}

/// Appends the ABI word of an address.
fn push_word_address(out: &mut Vec<u8>, a: &Address)
    requires
        a.wf(),
    ensures
        final(out)@ == old(out)@ + spec_abi_word_address(a.bytes@),
{
    let ghost base = out@;
    let ghost word = spec_abi_word_address(a.bytes@);
    let mut i: usize = 0;
    while i < 32
        invariant
            0 <= i <= 32,
            a.wf(),
            word == spec_abi_word_address(a.bytes@),
            out@ == base + word.subrange(0, i as int),
        decreases 32 - i,
    {
        let byte: u8 = if i < 12 {
            0u8
        } else {
            a.bytes[i - 12]
        };
        assert(byte == word[i as int]);
        out.push(byte);
        proof {
            assert(out@ =~= base + word.subrange(0, i + 1));
        }
        i = i + 1;
    }
    proof {
        assert(out@ =~= base + word);
    }
}

/// Appends the ABI words of a path's addresses.
fn push_path_words(out: &mut Vec<u8>, path: &Vec<Address>)
    requires
        forall|i: int| 0 <= i < path@.len() ==> (#[trigger] path@[i]).wf(),
    ensures
        final(out)@ == old(out)@ + spec_path_words(spec_path_views(path@)),
{
    let ghost base = out@;
    let ghost views = spec_path_views(path@);
    let mut i: usize = 0;
    while i < path.len()
        invariant
            0 <= i <= path@.len(),
            views == spec_path_views(path@),
            forall|j: int| 0 <= j < path@.len() ==> (#[trigger] path@[j]).wf(),
            out@ == base + spec_path_words(views.take(i as int)),
        decreases path@.len() - i,
    {
        push_word_address(out, &path[i]);
        proof {
            let t = views.take(i + 1);
            assert(t.drop_last() =~= views.take(i as int));
            assert(t.last() == path@[i as int].bytes@);
            assert(spec_path_words(t) == spec_path_words(views.take(i as int))
                + spec_abi_word_address(path@[i as int].bytes@));
        }
        i = i + 1;
    }
    proof {
        assert(views.take(path@.len() as int) =~= views);
    }
}

/// Encodes the call data of the "get amounts in" query: the input
/// amounts the router requires along the path to produce `amount_out`.
pub fn encode_get_amounts_in(amount_out: u128, path: &Vec<Address>) -> (r: Vec<u8>)
    requires
        forall|i: int| 0 <= i < path@.len() ==> (#[trigger] path@[i]).wf(),
    ensures
        r@ == spec_amounts_calldata(
            spec_get_amounts_in_selector(),
            amount_out,
            spec_path_views(path@),
        ),
{
    let mut out: Vec<u8> = Vec::new();
    out.push(0x1f);
    out.push(0x00);
    out.push(0xca);
    out.push(0x74);
    proof {
        assert(out@ =~= spec_get_amounts_in_selector());
    }
    push_word_u128(&mut out, amount_out);
    push_word_u128(&mut out, 64);
    push_word_u128(&mut out, path.len() as u128);
    push_path_words(&mut out, path);
    out
}

/// Encodes the call data of the "get amounts out" query: the output
/// amounts the router quotes along the path for `amount_in`.
pub fn encode_get_amounts_out(amount_in: u128, path: &Vec<Address>) -> (r: Vec<u8>)
    requires
        forall|i: int| 0 <= i < path@.len() ==> (#[trigger] path@[i]).wf(),
    ensures
        r@ == spec_amounts_calldata(
            spec_get_amounts_out_selector(),
            amount_in,
            spec_path_views(path@),
        ),
{
    let mut out: Vec<u8> = Vec::new();
    out.push(0xd0);
    out.push(0x6c);
    out.push(0xa6);
    out.push(0x1f);
    proof {
        assert(out@ =~= spec_get_amounts_out_selector());
    }
    push_word_u128(&mut out, amount_in);
    push_word_u128(&mut out, 64);
    push_word_u128(&mut out, path.len() as u128);
    push_path_words(&mut out, path);
    out
}

/// Encodes the call data of the swap call, parameterized by the
/// slippage-protected minimum output, the path, the recipient and the
/// deadline timestamp.
pub fn encode_swap_calldata(min_out: u128, path: &Vec<Address>, to: &Address, deadline: u64) -> (r:
    Vec<u8>)
    requires
        forall|i: int| 0 <= i < path@.len() ==> (#[trigger] path@[i]).wf(),
        to.wf(),
    ensures
        r@ == spec_swap_calldata(min_out, spec_path_views(path@), to.bytes@, deadline),
{
    let mut out: Vec<u8> = Vec::new();
    out.push(0xb6);
    out.push(0xf9);
    out.push(0xde);
    out.push(0x95);
    proof {
        assert(out@ =~= spec_swap_selector());
    }
    push_word_u128(&mut out, min_out);
    push_word_u128(&mut out, 128);
    push_word_address(&mut out, to);
    push_word_u128(&mut out, deadline as u128);
    push_word_u128(&mut out, path.len() as u128);
    push_path_words(&mut out, path);
    out
}

/// The numeric value of a big-endian byte string.
pub open spec fn spec_be_value(s: Seq<u8>) -> nat
    decreases s.len(),
{
    if s.len() == 0 {
        0
    } else {
        spec_be_value(s.drop_last()) * 256 + (s.last() as nat)
    }
}

/// The value of 32-byte word `w` of an ABI reply.
pub open spec fn spec_word_value(s: Seq<u8>, w: int) -> nat {
    spec_be_value(s.subrange(32 * w, 32 * w + 32))
}

/// A well-formed reply to a quote query: the offset word (32), the
/// length word, and exactly that many amount words.
pub open spec fn spec_amounts_reply_wf(s: Seq<u8>) -> bool {
    &&& s.len() >= 64
    &&& spec_word_value(s, 0) == 32
    &&& s.len() == 64 + 32 * spec_word_value(s, 1)
}

/// How many amounts a well-formed reply holds.
pub open spec fn spec_reply_count(s: Seq<u8>) -> nat {
    spec_word_value(s, 1)
}

/// Amount `k` of a well-formed reply.
pub open spec fn spec_reply_amount(s: Seq<u8>, k: int) -> nat {
    spec_word_value(s, 2 + k)
}

/// Whether every amount of the reply fits the 128-bit representation.
pub open spec fn spec_reply_in_range(s: Seq<u8>) -> bool {
    forall|k: int| 0 <= k < spec_reply_count(s) ==> spec_reply_amount(s, k) <= u128::MAX
}

proof fn lemma_pow256_unfold(e: nat)
    requires
        e >= 1,
    ensures
        pow(256, e) == 256 * pow(256, (e - 1) as nat),
{
    lemma_pow_adds(256, 1, (e - 1) as nat);
    lemma_pow1(256);
}

proof fn lemma_pow256_16()
    ensures
        pow(256, 16) == 0x100000000000000000000000000000000,
{
    reveal_with_fuel(pow, 17);
}

proof fn lemma_be_value_bound(s: Seq<u8>)
    ensures
        spec_be_value(s) < pow(256, s.len()),
    decreases s.len(),
{
    if s.len() == 0 {
        lemma_pow0(256);
    } else {
        lemma_be_value_bound(s.drop_last());
        let p = pow(256, (s.len() - 1) as nat);
        lemma_pow256_unfold(s.len());
        lemma_pow_positive(256, (s.len() - 1) as nat);
        lemma_mul_inequality(spec_be_value(s.drop_last()) as int, p - 1, 256);
    }
}

proof fn lemma_be_value_zero(s: Seq<u8>)
    requires
        forall|i: int| 0 <= i < s.len() ==> s[i] == 0,
    ensures
        spec_be_value(s) == 0,
    decreases s.len(),
{
    if s.len() > 0 {
        lemma_be_value_zero(s.drop_last());
    }
}

proof fn lemma_be_value_nonzero(s: Seq<u8>, j: int)
    requires
        0 <= j < s.len(),
        s[j] != 0,
    ensures
        spec_be_value(s) >= 1,
    decreases s.len(),
{
    if j == s.len() - 1 {
    } else {
        lemma_be_value_nonzero(s.drop_last(), j);
        assert(spec_be_value(s.drop_last()) * 256 >= 256) by (nonlinear_arith)
            requires
                spec_be_value(s.drop_last()) >= 1,
        ;
    }
}

proof fn lemma_be_value_split(s: Seq<u8>, k: int)
    requires
        0 <= k <= s.len(),
    ensures
        spec_be_value(s) == spec_be_value(s.take(k)) * pow(256, (s.len() - k) as nat)
            + spec_be_value(s.skip(k)),
    decreases s.len() - k,
{
    if k == s.len() {
        assert(s.take(k) =~= s);
        assert(s.skip(k) =~= Seq::<u8>::empty());
        lemma_pow0(256);
    } else {
        let dl = s.drop_last();
        lemma_be_value_split(dl, k);
        assert(dl.take(k) =~= s.take(k));
        assert(dl.skip(k) =~= s.skip(k).drop_last());
        let a = spec_be_value(s.take(k)) as int;
        let b = spec_be_value(s.skip(k).drop_last()) as int;
        let p = pow(256, (s.len() - 1 - k) as nat);
        let last = s.last() as int;
        assert(s.skip(k).last() == s.last());
        assert(s.skip(k).len() == s.len() - k);
        assert(spec_be_value(s) == (a * p + b) * 256 + last);
        assert(spec_be_value(s.skip(k)) == b * 256 + last);
        lemma_pow256_unfold((s.len() - k) as nat);
        assert((a * p + b) * 256 + last == a * (256 * p) + (b * 256 + last)) by (nonlinear_arith);
    }
}

/// Reads 32-byte word `w` of a reply as a 128-bit value; fails exactly
/// when the word's value does not fit 128 bits.
fn read_word_u128(bytes: &[u8], w: usize) -> (r: Option<u128>)
    requires
        32 * (w as int) + 32 <= bytes@.len(),
    ensures
        r matches Some(v) ==> spec_word_value(bytes@, w as int) == v,
        r is None ==> spec_word_value(bytes@, w as int) > u128::MAX,
{
    let ghost word = bytes@.subrange(32 * (w as int), 32 * (w as int) + 32);
    let n = bytes.len();
    let base = 32 * w;
    let mut i: usize = 0;
    while i < 16
        invariant
            0 <= i <= 16,
            base == 32 * (w as int),
            base + 32 <= bytes@.len(),
            word == bytes@.subrange(32 * (w as int), 32 * (w as int) + 32),
            forall|j: int| 0 <= j < i ==> word[j] == 0,
        decreases 16 - i,
    {
        if bytes[base + i] != 0 {
            proof {
                assert(word[i as int] != 0);
                lemma_be_value_split(word, 16);
                lemma_be_value_nonzero(word.take(16), i as int);
                lemma_pow_positive(256, 16);
                lemma_mul_inequality(1, spec_be_value(word.take(16)) as int, pow(256, 16));
                lemma_pow256_16();
            }
            return None;
        }
        i = i + 1;
    }
    let mut acc: u128 = 0;
    let mut i: usize = 16;
    proof {
        lemma_pow0(256);
        assert(word.subrange(16, 16) =~= Seq::<u8>::empty());
    }
    while i < 32
        invariant
            16 <= i <= 32,
            base == 32 * (w as int),
            base + 32 <= bytes@.len(),
            word == bytes@.subrange(32 * (w as int), 32 * (w as int) + 32),
            forall|j: int| 0 <= j < 16 ==> word[j] == 0,
            acc == spec_be_value(word.subrange(16, i as int)),
            acc < pow(256, (i - 16) as nat),
        decreases 32 - i,
    {
        let b = bytes[base + i];
        proof {
            let part = word.subrange(16, i as int);
            let next = word.subrange(16, i + 1);
            assert(next.drop_last() =~= part);
            assert(next.last() == word[i as int]);
            lemma_pow256_unfold((i - 15) as nat);
            lemma_pow_increases(256, (i - 15) as nat, 16);
            lemma_pow256_16();
            lemma_mul_inequality(acc as int, pow(256, (i - 16) as nat) - 1, 256);
        }
        acc = acc * 256 + (b as u128);
        i = i + 1;
    }
    proof {
        lemma_be_value_split(word, 16);
        lemma_be_value_zero(word.take(16));
        assert(word.skip(16) =~= word.subrange(16, 32));
    }
    Some(acc)
}

/// Decodes a quote reply: a dynamic array of 256-bit amounts.  Fails
/// with `MalformedResponse` exactly when the bytes are not a
/// well-formed reply, and with `ValueOutOfRange` exactly when the reply
/// is well formed but holds an amount beyond the 128-bit width.
pub fn decode_amounts(bytes: &[u8]) -> (r: Result<Vec<u128>, QuoteError>)
    ensures
        r is Ok <==> spec_amounts_reply_wf(bytes@) && spec_reply_in_range(bytes@),
        r matches Ok(v) ==> v@.len() == spec_reply_count(bytes@) && forall|k: int|
            0 <= k < v@.len() ==> v@[k] == spec_reply_amount(bytes@, k),
        r == Err::<Vec<u128>, QuoteError>(QuoteError::MalformedResponse) <==> !spec_amounts_reply_wf(
            bytes@,
        ),
        r == Err::<Vec<u128>, QuoteError>(QuoteError::ValueOutOfRange) <==> (spec_amounts_reply_wf(
            bytes@,
        ) && !spec_reply_in_range(bytes@)),
{
    let n_bytes = bytes.len();
    if n_bytes < 64 {
        return Err(QuoteError::MalformedResponse);
    }
    match read_word_u128(bytes, 0) {
        None => {
            return Err(QuoteError::MalformedResponse);
        },
        Some(o) => {
            if o != 32 {
                return Err(QuoteError::MalformedResponse);
            }
        },
    }
    if (n_bytes - 64) % 32 != 0 {
        proof {
            if spec_amounts_reply_wf(bytes@) {
                let c = spec_word_value(bytes@, 1) as int;
                assert((n_bytes - 64) % 32 == (32 * c) % 32);
                assert((32 * c) % 32 == 0) by (nonlinear_arith);
            }
        }
        return Err(QuoteError::MalformedResponse);
    }
    let slots = (n_bytes - 64) / 32;
    proof {
        assert(n_bytes == 64 + 32 * (slots as int));
    }
    match read_word_u128(bytes, 1) {
        None => {
            proof {
                assert(32 * spec_word_value(bytes@, 1) > 32 * (u128::MAX as nat)) by (nonlinear_arith)
                    requires
                        spec_word_value(bytes@, 1) > u128::MAX,
                ;
            }
            return Err(QuoteError::MalformedResponse);
        },
        Some(c) => {
            if c != slots as u128 {
                return Err(QuoteError::MalformedResponse);
            }
        },
    }
    let mut v: Vec<u128> = Vec::new();
    let mut k: usize = 0;
    while k < slots
        invariant
            0 <= k <= slots,
            n_bytes == bytes@.len(),
            n_bytes == 64 + 32 * (slots as int),
            spec_amounts_reply_wf(bytes@),
            spec_reply_count(bytes@) == slots,
            v@.len() == k,
            forall|j: int| 0 <= j < k ==> v@[j] == spec_reply_amount(bytes@, j),
        decreases slots - k,
    {
        match read_word_u128(bytes, 2 + k) {
            None => {
                proof {
                    assert(spec_reply_amount(bytes@, k as int) > u128::MAX);
                }
                return Err(QuoteError::ValueOutOfRange);
            },
            Some(x) => {
                v.push(x);
            },
        }
        k = k + 1;
    }
    Ok(v)
}

} // verus!
