//! What a call into another program is made of: the program, the accounts
//! it is given, each with what the callee may do with it, and the data.

use vstd::prelude::*;
use crate::state::Pubkey;

verus! {

/// One account handed to a called program.
#[derive(Clone, Copy, Debug, PartialEq, Eq)]
pub struct AccountMeta {
    /// The account.
    pub pubkey: Pubkey,
    /// Whether the account signs the call.
    pub is_signer: bool,
    /// Whether the callee may write to the account.
    pub is_writable: bool,
}

impl AccountMeta {
    /// An account that the callee may write to.
    pub open spec fn writable(pubkey: Pubkey, is_signer: bool) -> AccountMeta {
        AccountMeta { pubkey, is_signer, is_writable: true }
    }

    /// An account that the callee may only read.
    pub open spec fn readonly(pubkey: Pubkey, is_signer: bool) -> AccountMeta {
        AccountMeta { pubkey, is_signer, is_writable: false }
    }

    /// An account that the callee may write to.
    pub fn new(pubkey: Pubkey, is_signer: bool) -> (meta: AccountMeta)
        ensures
            meta == Self::writable(pubkey, is_signer),
    {
        AccountMeta { pubkey, is_signer, is_writable: true }
    }

    /// An account that the callee may only read.
    pub fn new_readonly(pubkey: Pubkey, is_signer: bool) -> (meta: AccountMeta)
        ensures
            meta == Self::readonly(pubkey, is_signer),
    {
        AccountMeta { pubkey, is_signer, is_writable: false }
    }
}

/// A call into another program.
#[derive(Clone, Debug, PartialEq, Eq)]
pub struct Instruction {
    /// The program called.
    pub program_id: Pubkey,
    /// The accounts it is given, in the order it expects them.
    pub accounts: Vec<AccountMeta>,
    /// The data it is given.
    pub data: Vec<u8>,
}

/// The eight bytes of a 64-bit number, lowest first.
pub open spec fn le_bytes(x: u64) -> Seq<u8> {
    seq![
        (x % 0x100) as u8,
        ((x / 0x100) % 0x100) as u8,
        ((x / 0x1_0000) % 0x100) as u8,
        ((x / 0x100_0000) % 0x100) as u8,
        ((x / 0x1_0000_0000) % 0x100) as u8,
        ((x / 0x100_0000_0000) % 0x100) as u8,
        ((x / 0x1_0000_0000_0000) % 0x100) as u8,
        ((x / 0x100_0000_0000_0000) % 0x100) as u8,
    ]
}

/// Appends the eight bytes of `x`, lowest first, to `data`.
pub fn push_u64_le(data: &mut Vec<u8>, x: u64)
    ensures
        final(data)@ == old(data)@ + le_bytes(x),
{
    let mut bytes: Vec<u8> = vstd::bytes::u64_to_le_bytes(x);
    proof {
        vstd::bytes::spec_u64_to_le_bytes_to_open(x);
        assert(x & 0xff == x % 0x100) by (bit_vector);
        assert((x >> 8) & 0xff == (x / 0x100) % 0x100) by (bit_vector);
        assert((x >> 16) & 0xff == (x / 0x1_0000) % 0x100) by (bit_vector);
        assert((x >> 24) & 0xff == (x / 0x100_0000) % 0x100) by (bit_vector);
        assert((x >> 32) & 0xff == (x / 0x1_0000_0000) % 0x100) by (bit_vector);
        assert((x >> 40) & 0xff == (x / 0x100_0000_0000) % 0x100) by (bit_vector);
        assert((x >> 48) & 0xff == (x / 0x1_0000_0000_0000) % 0x100) by (bit_vector);
        assert((x >> 56) & 0xff == (x / 0x100_0000_0000_0000) % 0x100) by (bit_vector);
        assert(bytes@ =~= le_bytes(x));
    }
    data.append(&mut bytes);
}

/// Appends `bytes` to `data`.
pub fn push_bytes(data: &mut Vec<u8>, bytes: &[u8])
    ensures
        final(data)@ == old(data)@ + bytes@,
{
    data.extend_from_slice(bytes);
}

} // verus!

