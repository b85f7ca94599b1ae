use humanrng::descriptor::descriptor_string;
use humanrng::descriptor::hex_string;
use humanrng::descriptor::network_name;
use humanrng::descriptor::path_string;
use humanrng::descriptor::specter_form;
use humanrng::slip132::reprefix;
use humanrng::slip132::slip132_prefix;

#[test]
fn hex_encodes_lowercase() {
    assert_eq!(hex_string(&vec![0xaa, 0xbb, 0xcc, 0xdd]), "aabbccdd");
    assert_eq!(hex_string(&vec![0x00, 0x0f, 0xf0]), "000ff0");
    assert_eq!(hex_string(&vec![]), "");
}

#[test]
fn specter_form_rewrites_path() {
    assert_eq!(specter_form("m/48'/0'/0'/2'"), "48h/0h/0h/2h");
    assert_eq!(specter_form("m/48'/1'/0'/2'"), "48h/1h/0h/2h");
    assert_eq!(specter_form("m/44'/0'/0'"), "44h/0h/0h");
    assert_eq!(specter_form("48'/0'"), "48h/0h");
    assert_eq!(specter_form("m/0/1"), "0/1");
}

#[test]
fn fixed_paths_per_network() {
    assert_eq!(path_string(true), "m/48'/0'/0'/2'");
    assert_eq!(path_string(false), "m/48'/1'/0'/2'");
    assert_eq!(network_name(true), "Mainnet");
    assert_eq!(network_name(false), "Testnet");
}

#[test]
fn descriptor_assembles_parts() {
    assert_eq!(
        descriptor_string("aabbccdd", "48h/0h/0h/2h", "Zpubx"),
        "[aabbccdd/48h/0h/0h/2h]Zpubx"
    );
}

#[test]
fn slip132_prefix_constants() {
    assert_eq!(slip132_prefix(true, true), vec![0x02, 0xAA, 0x7A, 0x99]);
    assert_eq!(slip132_prefix(true, false), vec![0x02, 0xAA, 0x7E, 0xD3]);
    assert_eq!(slip132_prefix(false, true), vec![0x02, 0x57, 0x50, 0x48]);
    assert_eq!(slip132_prefix(false, false), vec![0x02, 0x57, 0x54, 0x83]);
}

#[test]
fn reprefix_swaps_only_leading_bytes() {
    let enc: Vec<u8> = (0u8..78).collect();
    let prefix = vec![0xde, 0xad, 0xbe, 0xef];
    let out = reprefix(&enc, &prefix);
    assert_eq!(out.len(), 78);
    assert_eq!(&out[0..4], &[0xde, 0xad, 0xbe, 0xef]);
    assert_eq!(&out[4..], &enc[4..]);
}
