//! One full run: complete the partial phrase, pick a completion word,
//! derive the keys, and split the results into the public and the secret
//! tier.
//!
//! The two tiers are disjoint structures, so a caller that never renders
//! the secret one cannot leak key material by accident: the mnemonic, the
//! private-key encodings and the full completion list live only in
//! [`SecretReport`].

use vstd::prelude::*;
use vstd::string::StringExecFns;

use crate::RunError;
use crate::completer::complete;
use crate::completer::joined;
use crate::completer::lemma_completions_upto_valid;
use crate::completer::select_completion;
use crate::completer::spec_completions;
use crate::completer::spec_word_count;
use crate::completer::valid_partial_word_count;
use crate::completer::word_count;
use crate::completer::WORDLIST_LEN;
use crate::deriver::derivation_matches;
use crate::deriver::pipeline_ok;
use crate::deriver::Derivation;
use crate::deriver::Network;

verus! {

/// What is always shown: no key material beyond the extended public key.
#[derive(Debug)]
pub struct PublicReport {
    /// Child extended public key, SLIP132-tagged, base58check-encoded.
    pub slip132_xpub: String,
    /// Master key fingerprint, eight lowercase hex digits.
    pub fingerprint: String,
    /// Display name of the selected network.
    pub network: String,
    /// The fixed derivation path, `m/`-rooted.
    pub path: String,
    /// Wallet-import descriptor: `[<fingerprint>/<path>]<slip132-xpub>`.
    pub descriptor: String,
}

/// What is shown only on an explicit request: the completed mnemonic, the
/// private-key encodings, and the full set of valid checksum words.
#[derive(Debug)]
pub struct SecretReport {
    /// The completed mnemonic, checksum word included.
    pub mnemonic: String,
    /// Number of words in the completed mnemonic.
    pub mnemonic_word_count: usize,
    /// Child extended public key under its canonical version bytes.
    pub xpub: String,
    /// Child extended private key under its canonical version bytes.
    pub xprv: String,
    /// Child extended private key, SLIP132-tagged.
    pub slip132_xprv: String,
    /// Every valid checksum word, in wordlist order.
    pub completions: Vec<String>,
}

/// The two tiers of one run's results.
#[derive(Debug)]
pub struct RunReport {
    pub public: PublicReport,
    pub secret: SecretReport,
}

/// The completed phrase a run works on: the partial phrase joined with the
/// completion word at the chosen index.
pub open spec fn chosen_phrase(partial: Seq<char>, index: int) -> Seq<char> {
    joined(partial, spec_completions(partial)[index])
}

/// When a run succeeds: the partial phrase has a supported word count, the
/// index picks one of the valid completions, and the derivation pipeline
/// goes through on the completed phrase.
pub open spec fn run_ok(partial: Seq<char>, mainnet: bool, index: int) -> bool {
    &&& valid_partial_word_count(spec_word_count(partial))
    &&& 0 <= index < spec_completions(partial).len()
    &&& pipeline_ok(chosen_phrase(partial, index), mainnet)
}

/// What each field of a successful run holds.
pub open spec fn report_matches(
    partial: Seq<char>,
    mainnet: bool,
    index: int,
    rep: RunReport,
) -> bool {
    let phrase = chosen_phrase(partial, index);
    &&& rep.secret.mnemonic@ == phrase
    &&& rep.secret.mnemonic_word_count as int == spec_word_count(phrase)
    &&& rep.secret.completions.deep_view() == spec_completions(partial)
    &&& derivation_matches(
        phrase,
        mainnet,
        Derivation {
            slip132_xpub: rep.public.slip132_xpub,
            fingerprint_hex: rep.public.fingerprint,
            network_label: rep.public.network,
            path: rep.public.path,
            descriptor: rep.public.descriptor,
            xpub: rep.secret.xpub,
            xprv: rep.secret.xprv,
            slip132_xprv: rep.secret.slip132_xprv,
        },
    )
}

/// Runs the whole tool once: searches the dictionary for valid checksum
/// words, picks the one at the caller's zero-based index, derives the keys
/// on the selected network, and returns the public and the secret tier.
/// A partial phrase of unsupported word count is rejected before the
/// search; an index beyond the valid completions yields no key material;
/// a failure inside the derivation pipeline names no stage to the caller.
pub fn run(partial: &str, network: Network, index: usize) -> (r: Result<RunReport, RunError>)
    ensures
        (r is Ok) == run_ok(partial@, network.is_mainnet(), index as int),
        r matches Ok(rep) ==> report_matches(partial@, network.is_mainnet(), index as int, rep),
        !valid_partial_word_count(spec_word_count(partial@)) ==> r == Result::<
            RunReport,
            RunError,
        >::Err(RunError::MalformedPartialPhrase),
        valid_partial_word_count(spec_word_count(partial@)) && index >= spec_completions(
            partial@,
        ).len() ==> r == Result::<RunReport, RunError>::Err(RunError::NoValidCompletion),
        valid_partial_word_count(spec_word_count(partial@)) && index < spec_completions(
            partial@,
        ).len() && !pipeline_ok(chosen_phrase(partial@, index as int), network.is_mainnet())
            ==> r == Result::<RunReport, RunError>::Err(RunError::DerivationInternalFailure),
{
    let completions = match complete(partial) {
        Ok(words) => words,
        Err(e) => {
            return Err(e);
        },
    };
    let word = match select_completion(&completions, index) {
        Some(w) => w,
        None => {
            return Err(RunError::NoValidCompletion);
        },
    };
    let mnemonic = String::from_str(partial).concat(" ").concat(word.as_str());
    proof {
        reveal_strlit(" ");
        assert(mnemonic@ =~= chosen_phrase(partial@, index as int));
        lemma_completions_upto_valid(partial@, WORDLIST_LEN as int);
    }
    let derivation = match crate::deriver::derive(mnemonic.as_str(), network) {
        Ok(d) => d,
        Err(_) => {
            return Err(RunError::DerivationInternalFailure);
        },
    };
    let count = word_count(mnemonic.as_str());
    Ok(
        RunReport {
            public: PublicReport {
                slip132_xpub: derivation.slip132_xpub,
                fingerprint: derivation.fingerprint_hex,
                network: derivation.network_label,
                path: derivation.path,
                descriptor: derivation.descriptor,
            },
            secret: SecretReport {
                mnemonic,
                mnemonic_word_count: count,
                xpub: derivation.xpub,
                xprv: derivation.xprv,
                slip132_xprv: derivation.slip132_xprv,
                completions,
            },
        },
    )
}

} // verus!
