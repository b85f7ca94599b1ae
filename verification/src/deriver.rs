//! Deriving the SLIP132-tagged wallet key from a completed mnemonic.
//!
//! The pipeline stretches the mnemonic into a 512-bit seed, derives the
//! master extended private key in the selected network's domain, walks the
//! fixed hardened path (`48'/0'/0'/2'` on mainnet, `48'/1'/0'/2'` on
//! testnet), derives the matching extended public key, re-tags both
//! serializations with the SLIP132 prefixes, base58check-encodes them, and
//! formats the wallet-import descriptor.  Extended keys travel through the
//! pipeline as their canonical 78-byte serializations.

use vstd::prelude::*;
use vstd::string::StringExecFns;

use crate::completer::phrase_valid;
use crate::completer::seed_from_phrase;
use crate::completer::seed_of;
use crate::descriptor::descriptor_string;
use crate::descriptor::hex_string;
use crate::descriptor::network_name;
use crate::descriptor::path_string;
use crate::descriptor::spec_descriptor;
use crate::descriptor::spec_hex;
use crate::descriptor::spec_network_name;
use crate::descriptor::spec_path_chars;
use crate::descriptor::spec_specter;
use crate::descriptor::specter_form;
use crate::slip132::reprefix;
use crate::slip132::slip132_prefix;
use crate::slip132::spec_reprefix;
use crate::slip132::spec_slip132_prefix;

verus! {

/// The network a key is derived for.
#[derive(Clone, Copy, Debug, PartialEq, Eq, Structural)]
pub enum Network {
    Mainnet,
    Testnet,
}

impl Network {
    /// Whether this selector is the mainnet one.
    pub open spec fn is_mainnet(self) -> bool {
        self is Mainnet
    }

    /// Returns true on mainnet, false on testnet.
    pub fn mainnet(&self) -> (r: bool)
        ensures
            r == self.is_mainnet(),
    {
        match self {
            Network::Mainnet => true,
            Network::Testnet => false,
        }
    }
}

/// The stage of the derivation pipeline that failed.  Failure on a
/// well-formed mnemonic and the fixed path indicates a defect, not a
/// recoverable condition; no key material is produced.
#[derive(Clone, Copy, Debug, PartialEq, Eq, Structural)]
pub enum DerivationFailure {
    /// The master extended private key could not be built from the seed.
    MasterKey,
    /// Walking the derivation path from the master key failed.
    ChildKey,
    /// The extended public key could not be derived from the child key.
    PublicKey,
    /// The master key's fingerprint could not be computed.
    Fingerprint,
}

/// The 78-byte serialization of the master extended private key that BIP32
/// derives from a seed in the given network's domain, if the seed yields a
/// valid key.
pub uninterp spec fn master_xprv_of(mainnet: bool, seed: Seq<u8>) -> Option<Seq<u8>>;

/// The 78-byte serialization of the extended private key reached by
/// walking `path` from the key serialized in `parent`, if the walk
/// succeeds.
pub uninterp spec fn child_xprv_of(parent: Seq<u8>, path: Seq<char>) -> Option<Seq<u8>>;

/// The 78-byte serialization of the extended public key matching the
/// extended private key serialized in `xprv`, if that input decodes.
pub uninterp spec fn xpub_of(xprv: Seq<u8>) -> Option<Seq<u8>>;

/// The 4-byte fingerprint (the leading bytes of the public key's HASH160)
/// of the extended private key serialized in `xprv`, if that input
/// decodes.
pub uninterp spec fn fingerprint_of(xprv: Seq<u8>) -> Option<Seq<u8>>;

/// The base58check encoding of a byte string: base58 with a 4-byte
/// double-SHA256 checksum suffix.
pub uninterp spec fn base58check_of(data: Seq<u8>) -> Seq<char>;

/// Relies on `bitcoin::util::bip32::ExtendedPrivKey::new_master` and
/// `encode`: the master key is a deterministic function of the network and
/// the seed, and serializes to 78 bytes.
#[verifier::external_body]
fn master_xprv(mainnet: bool, seed: &Vec<u8>) -> (r: Option<Vec<u8>>)
    ensures
        (r is Some) == (master_xprv_of(mainnet, seed@) is Some),
        r matches Some(v) ==> Some(v@) == master_xprv_of(mainnet, seed@) && v@.len() == 78,
{
    let network = if mainnet {
        bitcoin::network::constants::Network::Bitcoin
    } else {
        bitcoin::network::constants::Network::Testnet
    };
    match bitcoin::util::bip32::ExtendedPrivKey::new_master(network, seed.as_slice()) {
        Ok(key) => Some(key.encode().to_vec()),
        Err(_) => None,
    }
}

/// Relies on `bitcoin::util::bip32::ExtendedPrivKey::decode`,
/// `DerivationPath::from_str` and `ExtendedPrivKey::derive_priv`: child
/// derivation is a deterministic function of the parent serialization and
/// the path string, and the child serializes to 78 bytes.
#[verifier::external_body]
fn child_xprv(parent: &Vec<u8>, path: &str) -> (r: Option<Vec<u8>>)
    ensures
        (r is Some) == (child_xprv_of(parent@, path@) is Some),
        r matches Some(v) ==> Some(v@) == child_xprv_of(parent@, path@) && v@.len() == 78,
{
    let key = bitcoin::util::bip32::ExtendedPrivKey::decode(parent.as_slice()).ok()?;
    let parsed =
        <bitcoin::util::bip32::DerivationPath as std::str::FromStr>::from_str(path).ok()?;
    let secp = bitcoin::secp256k1::Secp256k1::new();
    key.derive_priv(&secp, &parsed).ok().map(|child| child.encode().to_vec())
}

/// Relies on `bitcoin::util::bip32::ExtendedPrivKey::decode` and
/// `ExtendedPubKey::from_priv`: the extended public key is a deterministic
/// function of the private key's serialization, and serializes to 78
/// bytes.
#[verifier::external_body]
fn xpub_from_xprv(xprv: &Vec<u8>) -> (r: Option<Vec<u8>>)
    ensures
        (r is Some) == (xpub_of(xprv@) is Some),
        r matches Some(v) ==> Some(v@) == xpub_of(xprv@) && v@.len() == 78,
{
    let key = bitcoin::util::bip32::ExtendedPrivKey::decode(xprv.as_slice()).ok()?;
    let secp = bitcoin::secp256k1::Secp256k1::new();
    Some(bitcoin::util::bip32::ExtendedPubKey::from_priv(&secp, &key).encode().to_vec())
}

/// Relies on `bitcoin::util::bip32::ExtendedPrivKey::decode` and
/// `fingerprint`: the first four bytes of the HASH160 of the key's public
/// key, a deterministic function of the serialization.
#[verifier::external_body]
fn master_fingerprint(xprv: &Vec<u8>) -> (r: Option<Vec<u8>>)
    ensures
        (r is Some) == (fingerprint_of(xprv@) is Some),
        r matches Some(v) ==> Some(v@) == fingerprint_of(xprv@) && v@.len() == 4,
{
    let key = bitcoin::util::bip32::ExtendedPrivKey::decode(xprv.as_slice()).ok()?;
    let secp = bitcoin::secp256k1::Secp256k1::new();
    Some(key.fingerprint(&secp).as_bytes().to_vec())
}

/// Relies on `bitcoin::util::base58::check_encode_slice`: base58 encoding
/// of the data followed by the first four bytes of its double-SHA256, a
/// deterministic function of the data.
#[verifier::external_body]
fn base58_check(data: &Vec<u8>) -> (r: String)
    ensures
        r@ == base58check_of(data@),
{
    bitcoin::util::base58::check_encode_slice(data.as_slice())
}

/// The master extended private key's serialization for a phrase and
/// network.
pub open spec fn spec_master(phrase: Seq<char>, mainnet: bool) -> Option<Seq<u8>> {
    master_xprv_of(mainnet, seed_of(phrase))
}

/// The path-derived child extended private key's serialization.
pub open spec fn spec_child(phrase: Seq<char>, mainnet: bool) -> Option<Seq<u8>> {
    match spec_master(phrase, mainnet) {
        Some(master) => child_xprv_of(master, spec_path_chars(mainnet)),
        None => None,
    }
}

/// The child extended public key's serialization.
pub open spec fn spec_child_pub(phrase: Seq<char>, mainnet: bool) -> Option<Seq<u8>> {
    match spec_child(phrase, mainnet) {
        Some(child) => xpub_of(child),
        None => None,
    }
}

/// The master key's 4-byte fingerprint.
pub open spec fn spec_fingerprint(phrase: Seq<char>, mainnet: bool) -> Option<Seq<u8>> {
    match spec_master(phrase, mainnet) {
        Some(master) => fingerprint_of(master),
        None => None,
    }
}

/// Whether every stage of the pipeline succeeds for this phrase and
/// network.
pub open spec fn pipeline_ok(phrase: Seq<char>, mainnet: bool) -> bool {
    &&& spec_master(phrase, mainnet) is Some
    &&& spec_child(phrase, mainnet) is Some
    &&& spec_child_pub(phrase, mainnet) is Some
    &&& spec_fingerprint(phrase, mainnet) is Some
}

/// Everything the pipeline produces from one mnemonic.  The caller decides
/// which parts to show; the private-key encodings belong to the secret
/// tier.
pub struct Derivation {
    /// Child extended public key, SLIP132-tagged, base58check-encoded.
    pub slip132_xpub: String,
    /// Master key fingerprint, eight lowercase hex digits.
    pub fingerprint_hex: String,
    /// Display name of the network.
    pub network_label: String,
    /// The fixed derivation path, `m/`-rooted.
    pub path: String,
    /// Wallet-import descriptor: `[<fingerprint>/<path>]<slip132-xpub>`.
    pub descriptor: String,
    /// Child extended public key under its canonical version bytes.
    pub xpub: String,
    /// Child extended private key under its canonical version bytes.
    pub xprv: String,
    /// Child extended private key, SLIP132-tagged.
    pub slip132_xprv: String,
}

/// What each field of a successful derivation holds, as a function of the
/// phrase and the network alone.
pub open spec fn derivation_matches(phrase: Seq<char>, mainnet: bool, d: Derivation) -> bool {
    &&& pipeline_ok(phrase, mainnet)
    &&& d.slip132_xpub@ == base58check_of(
        spec_reprefix(
            spec_child_pub(phrase, mainnet).unwrap(),
            spec_slip132_prefix(mainnet, false),
        ),
    )
    &&& d.fingerprint_hex@ == spec_hex(spec_fingerprint(phrase, mainnet).unwrap())
    &&& d.network_label@ == spec_network_name(mainnet)
    &&& d.path@ == spec_path_chars(mainnet)
    &&& d.descriptor@ == spec_descriptor(
        spec_hex(spec_fingerprint(phrase, mainnet).unwrap()),
        spec_specter(spec_path_chars(mainnet)),
        base58check_of(
            spec_reprefix(
                spec_child_pub(phrase, mainnet).unwrap(),
                spec_slip132_prefix(mainnet, false),
            ),
        ),
    )
    &&& d.xpub@ == base58check_of(spec_child_pub(phrase, mainnet).unwrap())
    &&& d.xprv@ == base58check_of(spec_child(phrase, mainnet).unwrap())
    &&& d.slip132_xprv@ == base58check_of(
        spec_reprefix(spec_child(phrase, mainnet).unwrap(), spec_slip132_prefix(mainnet, true)),
    )
}

/// Runs the whole derivation pipeline on a valid mnemonic phrase: seed,
/// master key, fixed hardened path, child public key, SLIP132 re-tagging,
/// base58check, fingerprint and descriptor.  Every output is a function of
/// the phrase and the network alone; a stage that fails ends the run with
/// that stage named and no key material.
pub fn derive(phrase: &str, network: Network) -> (r: Result<Derivation, DerivationFailure>)
    requires
        phrase_valid(phrase@),
    ensures
        (r is Ok) == pipeline_ok(phrase@, network.is_mainnet()),
        r matches Ok(d) ==> derivation_matches(phrase@, network.is_mainnet(), d),
        spec_master(phrase@, network.is_mainnet()) is None ==> r == Result::<
            Derivation,
            DerivationFailure,
        >::Err(DerivationFailure::MasterKey),
        spec_master(phrase@, network.is_mainnet()) is Some && spec_child(
            phrase@,
            network.is_mainnet(),
        ) is None ==> r == Result::<Derivation, DerivationFailure>::Err(
            DerivationFailure::ChildKey,
        ),
        spec_child(phrase@, network.is_mainnet()) is Some && spec_child_pub(
            phrase@,
            network.is_mainnet(),
        ) is None ==> r == Result::<Derivation, DerivationFailure>::Err(
            DerivationFailure::PublicKey,
        ),
        spec_child_pub(phrase@, network.is_mainnet()) is Some && spec_fingerprint(
            phrase@,
            network.is_mainnet(),
        ) is None ==> r == Result::<Derivation, DerivationFailure>::Err(
            DerivationFailure::Fingerprint,
        ),
{
    let mainnet = network.mainnet();
    let seed = seed_from_phrase(phrase);
    let master = match master_xprv(mainnet, &seed) {
        Some(m) => m,
        None => {
            return Err(DerivationFailure::MasterKey);
        },
    };
    let path = path_string(mainnet);
    let child = match child_xprv(&master, path) {
        Some(c) => c,
        None => {
            return Err(DerivationFailure::ChildKey);
        },
    };
    let child_pub = match xpub_from_xprv(&child) {
        Some(p) => p,
        None => {
            return Err(DerivationFailure::PublicKey);
        },
    };
    let fp = match master_fingerprint(&master) {
        Some(f) => f,
        None => {
            return Err(DerivationFailure::Fingerprint);
        },
    };
    let pub_prefix = slip132_prefix(mainnet, false);
    let prv_prefix = slip132_prefix(mainnet, true);
    let slip_pub = reprefix(&child_pub, &pub_prefix);
    let slip_prv = reprefix(&child, &prv_prefix);
    let slip132_xpub = base58_check(&slip_pub);
    let slip132_xprv = base58_check(&slip_prv);
    let xpub = base58_check(&child_pub);
    let xprv = base58_check(&child);
    let fingerprint_hex = hex_string(&fp);
    let path_specter = specter_form(path);
    let descriptor = descriptor_string(
        fingerprint_hex.as_str(),
        path_specter.as_str(),
        slip132_xpub.as_str(),
    );
    Ok(
        Derivation {
            slip132_xpub,
            fingerprint_hex,
            network_label: String::from_str(network_name(mainnet)),
            path: String::from_str(path),
            descriptor,
            xpub,
            xprv,
            slip132_xprv,
        },
    )
}

/// Deriving from a given mnemonic twice yields byte-identical results:
/// every field of a derivation is a function of the phrase and the network
/// alone, so two derivations that both match the same phrase and network
/// agree on every output, the extended-key serializations included.
pub proof fn lemma_derivation_deterministic(
    phrase: Seq<char>,
    mainnet: bool,
    first: Derivation,
    second: Derivation,
)
    requires
        derivation_matches(phrase, mainnet, first),
        derivation_matches(phrase, mainnet, second),
    ensures
        first.slip132_xpub@ == second.slip132_xpub@,
        first.fingerprint_hex@ == second.fingerprint_hex@,
        first.network_label@ == second.network_label@,
        first.path@ == second.path@,
        first.descriptor@ == second.descriptor@,
        first.xpub@ == second.xpub@,
        first.xprv@ == second.xprv@,
        first.slip132_xprv@ == second.slip132_xprv@,
{
}

/// What the network selector changes in the pipeline's fixed inputs, and
/// what it leaves alone: the seed never depends on the network; the two
/// derivation paths agree everywhere but at the coin-type digit (`0` on
/// mainnet, `1` on testnet); and the four SLIP132 version prefixes are the
/// fixed constants for their (network, key kind) pair, pairwise distinct.
pub proof fn lemma_network_selection(phrase: Seq<char>)
    ensures
        spec_master(phrase, true) == master_xprv_of(true, seed_of(phrase)),
        spec_master(phrase, false) == master_xprv_of(false, seed_of(phrase)),
        spec_path_chars(true).len() == 14,
        spec_path_chars(false).len() == 14,
        forall|i: int|
            0 <= i < 14 && i != 6 ==> spec_path_chars(true)[i] == spec_path_chars(false)[i],
        spec_path_chars(true)[6] == '0',
        spec_path_chars(false)[6] == '1',
        spec_slip132_prefix(true, true) == crate::slip132::spec_zprv(),
        spec_slip132_prefix(true, false) == crate::slip132::spec_zpub(),
        spec_slip132_prefix(false, true) == crate::slip132::spec_vprv(),
        spec_slip132_prefix(false, false) == crate::slip132::spec_vpub(),
        spec_slip132_prefix(true, true) != spec_slip132_prefix(false, true),
        spec_slip132_prefix(true, false) != spec_slip132_prefix(false, false),
        spec_slip132_prefix(true, true) != spec_slip132_prefix(true, false),
        spec_slip132_prefix(false, true) != spec_slip132_prefix(false, false),
{
    broadcast use vstd::string::group_string_axioms;

    reveal_strlit("m/48'/0'/0'/2'");
    reveal_strlit("m/48'/1'/0'/2'");
    let main_chars = seq!['m', '/', '4', '8', '\'', '/', '0', '\'', '/', '0', '\'', '/', '2', '\''];
    let test_chars = seq!['m', '/', '4', '8', '\'', '/', '1', '\'', '/', '0', '\'', '/', '2', '\''];
    assert(spec_path_chars(true) =~= main_chars);
    assert(spec_path_chars(false) =~= test_chars);
    assert forall|i: int| 0 <= i < 14 && i != 6 implies spec_path_chars(true)[i]
        == spec_path_chars(false)[i] by {
        assert(spec_path_chars(true)[i] == main_chars[i]);
        assert(spec_path_chars(false)[i] == test_chars[i]);
        assert(main_chars[i] == test_chars[i]);
    }
    assert(spec_slip132_prefix(true, true)[2] != spec_slip132_prefix(true, false)[2]);
    assert(spec_slip132_prefix(false, true)[2] != spec_slip132_prefix(false, false)[2]);
    assert(spec_slip132_prefix(true, true)[1] != spec_slip132_prefix(false, true)[1]);
    assert(spec_slip132_prefix(true, false)[1] != spec_slip132_prefix(false, false)[1]);
}

} // verus!
