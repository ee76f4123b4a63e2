//! Chain addresses: the 20-byte account/contract address, parsing from
//! the `0x`-prefixed 40-digit hex form, and the two fixed addresses the
//! swap path is built from (the router contract and the wrapped native
//! token).

use vstd::prelude::*;
use vstd::string::StringSliceAdditionalSpecFns;

verus! {

/// Whether a byte is an ASCII hexadecimal digit.
pub open spec fn spec_is_hex_digit(b: u8) -> bool {
    (0x30 <= b <= 0x39) || (0x41 <= b <= 0x46) || (0x61 <= b <= 0x66)
}

/// The numeric value of an ASCII hexadecimal digit.
pub open spec fn spec_hex_val(b: u8) -> u8
    recommends
        spec_is_hex_digit(b),
{
    if 0x30 <= b <= 0x39 {
        (b - 0x30) as u8
    } else if 0x41 <= b <= 0x46 {
        (b - 0x41 + 10) as u8
    } else {
        (b - 0x61 + 10) as u8
    }
}

/// A well-formed address string: `0x` followed by exactly 40 hex digits.
pub open spec fn spec_wf_address_hex(s: Seq<u8>) -> bool {
    &&& s.len() == 42
    &&& s[0] == 0x30u8
    &&& s[1] == 0x78u8
    &&& forall|i: int| 2 <= i < 42 ==> spec_is_hex_digit(#[trigger] s[i])
}

/// Byte `i` of the address denoted by a well-formed address string.
pub open spec fn spec_address_byte(s: Seq<u8>, i: int) -> u8 {
    (spec_hex_val(s[2 + 2 * i]) * 16 + spec_hex_val(s[3 + 2 * i])) as u8
}

/// The 20 bytes denoted by a well-formed address string.
pub open spec fn spec_address_bytes(s: Seq<u8>) -> Seq<u8> {
    Seq::new(20, |i: int| spec_address_byte(s, i))
}

/// A 20-byte chain address.
#[derive(Clone, Debug, PartialEq, Eq)]
pub struct Address {
    pub bytes: Vec<u8>,
}

impl Address {
    /// The address invariant: exactly 20 bytes.
    pub open spec fn wf(&self) -> bool {
        self.bytes@.len() == 20
    }
}

/// Whether a byte is an ASCII hexadecimal digit.
pub fn is_hex_digit(b: u8) -> (r: bool)
    ensures
        r == spec_is_hex_digit(b),
{
    (0x30 <= b && b <= 0x39) || (0x41 <= b && b <= 0x46) || (0x61 <= b && b <= 0x66)
}

/// The numeric value of an ASCII hexadecimal digit.
pub fn hex_val(b: u8) -> (r: u8)
    requires
        spec_is_hex_digit(b),
    ensures
        r == spec_hex_val(b),
        r <= 15,
{
    if b <= 0x39 {
        b - 0x30
    } else if b <= 0x46 {
        (b - 0x41) + 10
    } else {
        (b - 0x61) + 10
    }
}

/// Parses a `0x`-prefixed 40-digit hex string into an address.  Returns
/// `None` exactly when the string is not a well-formed address.
pub fn parse_address(s: &str) -> (r: Option<Address>)
    ensures
        r matches Some(a) ==> spec_wf_address_hex(s.spec_bytes()) && a.wf() && a.bytes@
            == spec_address_bytes(s.spec_bytes()),
        r is None ==> !spec_wf_address_hex(s.spec_bytes()),
{
    let b = s.as_bytes();
    if b.len() != 42 {
        return None;
    }
    if b[0] != 0x30 || b[1] != 0x78 {
        return None;
    }
    let mut out: Vec<u8> = Vec::new();
    let mut i: usize = 0;
    while i < 20
        invariant
            0 <= i <= 20,
            b@ == s.spec_bytes(),
            b@.len() == 42,
            out@.len() == i,
            forall|j: int|
                0 <= j < i ==> spec_is_hex_digit(#[trigger] b@[2 + 2 * j]) && spec_is_hex_digit(
                    b@[3 + 2 * j],
                ),
            forall|j: int| 0 <= j < i ==> #[trigger] out@[j] == spec_address_byte(b@, j),
        decreases 20 - i,
    {
        let hi = b[2 + 2 * i];
        let lo = b[3 + 2 * i];
        if !is_hex_digit(hi) || !is_hex_digit(lo) {
            return None;
        }
        out.push(hex_val(hi) * 16 + hex_val(lo));
        i = i + 1;
    }
    proof {
        assert forall|j: int| 2 <= j < 42 implies spec_is_hex_digit(#[trigger] s.spec_bytes()[j]) by {
            let k = (j - 2) / 2;
            assert(0 <= k < 20);
            assert(spec_is_hex_digit(b@[2 + 2 * k]));
            assert(spec_is_hex_digit(b@[3 + 2 * k]));
            assert(j == 2 + 2 * k || j == 3 + 2 * k) by {
                assert(j - 2 == 2 * k + (j - 2) % 2);
            }
        }
        assert(out@ =~= spec_address_bytes(s.spec_bytes()));
    }
    Some(Address { bytes: out })
}

/// Copies a byte vector.
pub fn copy_bytes(v: &Vec<u8>) -> (r: Vec<u8>)
    ensures
        r@ == v@,
{
    let mut out: Vec<u8> = Vec::new();
    let mut i: usize = 0;
    while i < v.len()
        invariant
            0 <= i <= v@.len(),
            out@ == v@.subrange(0, i as int),
        decreases v@.len() - i,
    {
        out.push(v[i]);
        proof {
            assert(out@ =~= v@.subrange(0, i + 1));
        }
        i = i + 1;
    }
    proof {
        assert(out@ =~= v@);
    }
    out
}

/// The bytes of the router contract's address.
pub open spec fn spec_router_address() -> Seq<u8> {
    seq![
        0x7au8, 0x25, 0x0d, 0x56, 0x30, 0xb4, 0xcf, 0x53, 0x97, 0x39, 0xdf, 0x2c, 0x5d, 0xac,
        0xb4, 0xc6, 0x59, 0xf2, 0x48, 0x8d,
    ]
}

/// The bytes of the wrapped native token's address (the first hop of
/// every swap path).
pub open spec fn spec_weth_address() -> Seq<u8> {
    seq![
        0xc0u8, 0x2a, 0xaa, 0x39, 0xb2, 0x23, 0xfe, 0x8d, 0x0a, 0x0e, 0x5c, 0x4f, 0x27, 0xea,
        0xd9, 0x08, 0x3c, 0x75, 0x6c, 0xc2,
    ]
}

/// The router contract's address.
pub fn uniswap_v2_router_address() -> (a: Address)
    ensures
        a.wf(),
        a.bytes@ == spec_router_address(),
{
    let bytes = vec![
        0x7au8, 0x25, 0x0d, 0x56, 0x30, 0xb4, 0xcf, 0x53, 0x97, 0x39, 0xdf, 0x2c, 0x5d, 0xac,
        0xb4, 0xc6, 0x59, 0xf2, 0x48, 0x8d,
    ];
    proof {
        assert(bytes@ =~= spec_router_address());
    }
    Address { bytes }
}

/// The wrapped native token's address.
pub fn weth_address() -> (a: Address)
    ensures
        a.wf(),
        a.bytes@ == spec_weth_address(),
{
    let bytes = vec![
        0xc0u8, 0x2a, 0xaa, 0x39, 0xb2, 0x23, 0xfe, 0x8d, 0x0a, 0x0e, 0x5c, 0x4f, 0x27, 0xea,
        0xd9, 0x08, 0x3c, 0x75, 0x6c, 0xc2,
    ];
    proof {
        assert(bytes@ =~= spec_weth_address());
    }
    Address { bytes }
}

} // verus!
