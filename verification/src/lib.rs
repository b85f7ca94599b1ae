//! Completing a partial BIP39 mnemonic and deriving a SLIP132-tagged
//! hierarchical deterministic wallet key from the completed phrase.
//!
//! A user who generated all but the last word of a mnemonic from their own
//! entropy source needs the valid checksum word(s) for the final position.
//! [`completer`] enumerates the whole 2048-word English dictionary and
//! returns, in wordlist order, every word that completes the phrase into a
//! structurally valid mnemonic.  [`deriver`] then stretches the chosen
//! mnemonic into a seed, derives the hardened multisig-segwit path
//! (`48'/0'/0'/2'` on mainnet, `48'/1'/0'/2'` on testnet), re-tags the
//! extended-key serializations with SLIP132 version prefixes, and formats a
//! wallet-import descriptor string.

use vstd::prelude::*;

pub mod completer;
pub mod deriver;
pub mod descriptor;
pub mod runner;
pub mod slip132;

verus! {

/// How a run can fail, as seen by the caller.
#[derive(Clone, Copy, Debug, PartialEq, Eq, Structural)]
pub enum RunError {
    /// The partial phrase has a word count that no supported mnemonic
    /// length (12, 15, 18, 21 or 24 words) can extend by exactly one word.
    MalformedPartialPhrase,
    /// The requested index lies beyond the sequence of valid completion
    /// words (including the case of an empty sequence).
    NoValidCompletion,
    /// Seed stretching or key derivation failed on the completed mnemonic;
    /// no key material is produced.
    DerivationInternalFailure,
}

} // verus!
