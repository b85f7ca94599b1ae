use humanrng::deriver::Network;
use humanrng::runner::run;
use humanrng::RunError;

fn abandon_partial() -> String {
    ["abandon"; 11].join(" ")
}

#[test]
fn mainnet_scenario_from_test_vector_prefix() {
    let report = run(&abandon_partial(), Network::Mainnet, 0).unwrap();
    assert_eq!(
        report.secret.mnemonic,
        "abandon abandon abandon abandon abandon abandon abandon abandon abandon abandon abandon about"
    );
    assert_eq!(report.secret.mnemonic_word_count, 12);
    assert_eq!(report.public.network, "Mainnet");
    assert_eq!(report.public.path, "m/48'/0'/0'/2'");
    assert_eq!(
        report.public.slip132_xpub,
        "Zpub74Jru6aftwwHxCUCWEvP6DgrfFsdA4U6ZRtQ5i8qJpMcC39yZGv3egBhQfV3MS9pZtH5z8iV5qWkJsK6ESs6mSzt4qvGhzJxPeeVS2e1zUG"
    );
    assert_eq!(report.public.fingerprint, "73c5da0a");
    assert_eq!(
        report.public.descriptor,
        format!(
            "[{}/48h/0h/0h/2h]{}",
            report.public.fingerprint, report.public.slip132_xpub
        )
    );
    assert!(report.public.slip132_xpub.starts_with("Zpub"));
    assert!(report.secret.xpub.starts_with("xpub"));
    assert!(report.secret.xprv.starts_with("xprv"));
    assert!(report.secret.slip132_xprv.starts_with("Zprv"));
    assert_eq!(report.secret.completions.len(), 128);
    assert_eq!(report.secret.completions[0], "about");
    assert_eq!(report.public.fingerprint.len(), 8);
    assert!(report
        .public
        .fingerprint
        .chars()
        .all(|c| c.is_ascii_hexdigit() && !c.is_ascii_uppercase()));
}

#[test]
fn testnet_scenario_changes_path_and_prefixes() {
    let report = run(&abandon_partial(), Network::Testnet, 0).unwrap();
    assert_eq!(report.public.network, "Testnet");
    assert_eq!(report.public.path, "m/48'/1'/0'/2'");
    assert!(report.public.slip132_xpub.starts_with("Vpub"));
    assert!(report.secret.slip132_xprv.starts_with("Vprv"));
    assert!(report.secret.xpub.starts_with("tpub"));
    assert!(report.secret.xprv.starts_with("tprv"));
    assert!(report.public.descriptor.contains("/48h/1h/0h/2h]"));
    // The completion search does not depend on the network.
    let mainnet = run(&abandon_partial(), Network::Mainnet, 0).unwrap();
    assert_eq!(report.secret.completions, mainnet.secret.completions);
    assert_eq!(report.secret.mnemonic, mainnet.secret.mnemonic);
}

#[test]
fn derivation_is_deterministic() {
    let first = run(&abandon_partial(), Network::Mainnet, 0).unwrap();
    let second = run(&abandon_partial(), Network::Mainnet, 0).unwrap();
    assert_eq!(first.public.slip132_xpub, second.public.slip132_xpub);
    assert_eq!(first.public.fingerprint, second.public.fingerprint);
    assert_eq!(first.public.descriptor, second.public.descriptor);
    assert_eq!(first.secret.xprv, second.secret.xprv);
    assert_eq!(first.secret.slip132_xprv, second.secret.slip132_xprv);
}

#[test]
fn out_of_range_index_yields_no_completion() {
    let err = run(&abandon_partial(), Network::Mainnet, 100000).unwrap_err();
    assert_eq!(err, RunError::NoValidCompletion);
}

#[test]
fn no_candidates_yields_no_valid_completion() {
    let mut words = vec!["abandon"; 10];
    words.push("zzzzzz");
    let partial = words.join(" ");
    let err = run(&partial, Network::Mainnet, 0).unwrap_err();
    assert_eq!(err, RunError::NoValidCompletion);
}

#[test]
fn malformed_partial_is_rejected_before_search() {
    let partial = ["abandon"; 13].join(" ");
    let err = run(&partial, Network::Mainnet, 0).unwrap_err();
    assert_eq!(err, RunError::MalformedPartialPhrase);
}

#[test]
fn different_completion_index_changes_keys() {
    let first = run(&abandon_partial(), Network::Mainnet, 0).unwrap();
    let second = run(&abandon_partial(), Network::Mainnet, 1).unwrap();
    assert_ne!(first.secret.mnemonic, second.secret.mnemonic);
    assert_ne!(first.public.slip132_xpub, second.public.slip132_xpub);
}
