use vstd::prelude::*;

verus! {

/// A 256-bit value: a hash, an account address or a key.
#[derive(Debug, Clone, Copy, PartialEq, Eq)]
pub struct Int256(pub [u8; 32]);

/// A block named by its position: workchain, shard and sequence number.
#[derive(Debug, Clone, Copy, PartialEq, Eq)]
pub struct BlockId {
    pub workchain: i32,
    pub shard: u64,
    pub seqno: u32,
}

/// A block named by its position and by its hashes.
#[derive(Debug, Clone, Copy, PartialEq, Eq)]
pub struct BlockIdExt {
    pub workchain: i32,
    pub shard: u64,
    pub seqno: u32,
    pub root_hash: Int256,
    pub file_hash: Int256,
}

/// The zero state of a workchain.
#[derive(Debug, Clone, Copy, PartialEq, Eq)]
pub struct ZeroStateIdExt {
    pub workchain: i32,
    pub root_hash: Int256,
    pub file_hash: Int256,
}

/// An account: its workchain and its address in that workchain.
#[derive(Debug, Clone, Copy, PartialEq, Eq)]
pub struct AccountId {
    pub workchain: i32,
    pub id: Int256,
}

/// A transaction named by its account and its logical time.
#[derive(Debug, Clone, Copy, PartialEq, Eq)]
pub struct TransactionId3 {
    pub account: Int256,
    pub lt: u64,
}

/// A transaction of a block as a server lists it; each part is present
/// when the listing asked for it.
#[derive(Debug, Clone, Copy, PartialEq, Eq)]
pub struct TransactionId {
    pub account: Option<Int256>,
    pub lt: Option<u64>,
    pub hash: Option<Int256>,
}

/// A flag that is either set or absent.
pub open spec fn flag_of(b: bool) -> Option<()> {
    if b { Some(()) } else { None }
}

/// Turns a boolean into a flag: `true` sets it, `false` leaves it out.
pub fn flag(b: bool) -> (r: Option<()>)
    ensures
        r == flag_of(b),
{
    if b {
        Some(())
    } else {
        None
    }
}

/// A flag is set exactly when its boolean is `true`, and a set flag holds
/// the unit value.
pub proof fn lemma_flag_set_iff_true(b: bool)
    ensures
        flag_of(b) is Some <==> b,
        flag_of(b) is Some ==> flag_of(b) == Some(()),
{
}

} // verus!
