//! SLIP132 version-byte prefixes and re-tagging of extended-key
//! serializations.
//!
//! An extended key serializes to 78 bytes: a 4-byte version prefix followed
//! by 74 bytes of key data.  Wallets that follow the SLIP132 convention
//! recognize a segwit multisig key by a non-standard prefix (the
//! `Zprv`/`Zpub` family on mainnet, `Vprv`/`Vpub` on testnet).  Re-tagging
//! swaps the leading 4 bytes and leaves the remaining 74 untouched.

use vstd::prelude::*;

verus! {

/// Serialized length of an extended key, in bytes.
pub const XKEY_LEN: usize = 78;

/// Length of a version prefix, in bytes.
pub const PREFIX_LEN: usize = 4;

/// Mainnet private prefix, base58-leading "Zprv".
pub open spec fn spec_zprv() -> Seq<u8> {
    seq![0x02u8, 0xAAu8, 0x7Au8, 0x99u8]
}

/// Mainnet public prefix, base58-leading "Zpub".
pub open spec fn spec_zpub() -> Seq<u8> {
    seq![0x02u8, 0xAAu8, 0x7Eu8, 0xD3u8]
}

/// Testnet private prefix, base58-leading "Vprv".
pub open spec fn spec_vprv() -> Seq<u8> {
    seq![0x02u8, 0x57u8, 0x50u8, 0x48u8]
}

/// Testnet public prefix, base58-leading "Vpub".
pub open spec fn spec_vpub() -> Seq<u8> {
    seq![0x02u8, 0x57u8, 0x54u8, 0x83u8]
}

/// The SLIP132 prefix selected by (network, key kind).
pub open spec fn spec_slip132_prefix(mainnet: bool, private: bool) -> Seq<u8> {
    if mainnet {
        if private {
            spec_zprv()
        } else {
            spec_zpub()
        }
    } else {
        if private {
            spec_vprv()
        } else {
            spec_vpub()
        }
    }
}

/// Returns the 4-byte SLIP132 version prefix for the given network and key
/// kind.
pub fn slip132_prefix(mainnet: bool, private: bool) -> (r: Vec<u8>)
    ensures
        r@ == spec_slip132_prefix(mainnet, private),
        r@.len() == PREFIX_LEN,
{
    let r: Vec<u8> = if mainnet {
        if private {
            vec![0x02u8, 0xAAu8, 0x7Au8, 0x99u8]
        } else {
            vec![0x02u8, 0xAAu8, 0x7Eu8, 0xD3u8]
        }
    } else {
        if private {
            vec![0x02u8, 0x57u8, 0x50u8, 0x48u8]
        } else {
            vec![0x02u8, 0x57u8, 0x54u8, 0x83u8]
        }
    };
    proof {
        assert(r@ =~= spec_slip132_prefix(mainnet, private));
    }
    r
}

/// What re-tagging yields: the new prefix followed by everything after the
/// old prefix.
pub open spec fn spec_reprefix(enc: Seq<u8>, prefix: Seq<u8>) -> Seq<u8> {
    prefix + enc.skip(PREFIX_LEN as int)
}

/// Replaces the leading 4 bytes of a 78-byte extended-key serialization
/// with `prefix`, leaving the other 74 bytes exactly as they were.
pub fn reprefix(enc: &Vec<u8>, prefix: &Vec<u8>) -> (r: Vec<u8>)
    requires
        enc@.len() == XKEY_LEN,
        prefix@.len() == PREFIX_LEN,
    ensures
        r@ == spec_reprefix(enc@, prefix@),
        r@.len() == XKEY_LEN,
        r@.subrange(0, PREFIX_LEN as int) == prefix@,
        forall|i: int| PREFIX_LEN <= i < XKEY_LEN ==> r@[i] == enc@[i],
{
    let mut r: Vec<u8> = Vec::new();
    let mut i: usize = 0;
    while i < PREFIX_LEN
        invariant
            i <= PREFIX_LEN,
            prefix@.len() == PREFIX_LEN,
            r@ == prefix@.take(i as int),
        decreases PREFIX_LEN - i,
    {
        r.push(prefix[i]);
        i = i + 1;
        proof {
            assert(r@ =~= prefix@.take(i as int));
        }
    }
    let mut j: usize = PREFIX_LEN;
    while j < XKEY_LEN
        invariant
            PREFIX_LEN <= j <= XKEY_LEN,
            enc@.len() == XKEY_LEN,
            prefix@.len() == PREFIX_LEN,
            r@ == prefix@ + enc@.subrange(PREFIX_LEN as int, j as int),
        decreases XKEY_LEN - j,
    {
        r.push(enc[j]);
        j = j + 1;
        proof {
            assert(r@ =~= prefix@ + enc@.subrange(PREFIX_LEN as int, j as int));
        }
    }
    proof {
        assert(r@ =~= spec_reprefix(enc@, prefix@));
        assert(r@.subrange(0, PREFIX_LEN as int) =~= prefix@);
    }
    r
}

} // verus!
