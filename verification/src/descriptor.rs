//! Text forms of the derivation result: hex fingerprints, the
//! wallet-import path notation, and the descriptor string.
//!
//! The descriptor combines the master key's fingerprint, the derivation
//! path with `'` written as `h` and the leading `m/` stripped, and the
//! SLIP132-tagged extended public key:
//! `[<fingerprint>/<path>]<xpub>`.

use vstd::prelude::*;
use vstd::string::StrSliceExecFns;
use vstd::string::StringExecFns;

verus! {

/// The lowercase hex digit for a nibble.
pub open spec fn hex_char(n: int) -> char {
    if n == 0 {
        '0'
    } else if n == 1 {
        '1'
    } else if n == 2 {
        '2'
    } else if n == 3 {
        '3'
    } else if n == 4 {
        '4'
    } else if n == 5 {
        '5'
    } else if n == 6 {
        '6'
    } else if n == 7 {
        '7'
    } else if n == 8 {
        '8'
    } else if n == 9 {
        '9'
    } else if n == 10 {
        'a'
    } else if n == 11 {
        'b'
    } else if n == 12 {
        'c'
    } else if n == 13 {
        'd'
    } else if n == 14 {
        'e'
    } else {
        'f'
    }
}

/// Lowercase hex encoding of a byte string, two digits per byte.
pub open spec fn spec_hex(bytes: Seq<u8>) -> Seq<char>
    decreases bytes.len(),
{
    if bytes.len() == 0 {
        Seq::empty()
    } else {
        spec_hex(bytes.drop_last()) + seq![
            hex_char(bytes.last() as int / 16),
            hex_char(bytes.last() as int % 16),
        ]
    }
}

/// The lowercase hex digit for a nibble, as a one-character string.
fn hex_digit(n: u8) -> (r: &'static str)
    requires
        n < 16,
    ensures
        r@ == seq![hex_char(n as int)],
{
    if n == 0 {
        proof {
            reveal_strlit("0");
            assert("0"@ =~= seq![hex_char(0)]);
        }
        "0"
    } else if n == 1 {
        proof {
            reveal_strlit("1");
            assert("1"@ =~= seq![hex_char(1)]);
        }
        "1"
    } else if n == 2 {
        proof {
            reveal_strlit("2");
            assert("2"@ =~= seq![hex_char(2)]);
        }
        "2"
    } else if n == 3 {
        proof {
            reveal_strlit("3");
            assert("3"@ =~= seq![hex_char(3)]);
        }
        "3"
    } else if n == 4 {
        proof {
            reveal_strlit("4");
            assert("4"@ =~= seq![hex_char(4)]);
        }
        "4"
    } else if n == 5 {
        proof {
            reveal_strlit("5");
            assert("5"@ =~= seq![hex_char(5)]);
        }
        "5"
    } else if n == 6 {
        proof {
            reveal_strlit("6");
            assert("6"@ =~= seq![hex_char(6)]);
        }
        "6"
    } else if n == 7 {
        proof {
            reveal_strlit("7");
            assert("7"@ =~= seq![hex_char(7)]);
        }
        "7"
    } else if n == 8 {
        proof {
            reveal_strlit("8");
            assert("8"@ =~= seq![hex_char(8)]);
        }
        "8"
    } else if n == 9 {
        proof {
            reveal_strlit("9");
            assert("9"@ =~= seq![hex_char(9)]);
        }
        "9"
    } else if n == 10 {
        proof {
            reveal_strlit("a");
            assert("a"@ =~= seq![hex_char(10)]);
        }
        "a"
    } else if n == 11 {
        proof {
            reveal_strlit("b");
            assert("b"@ =~= seq![hex_char(11)]);
        }
        "b"
    } else if n == 12 {
        proof {
            reveal_strlit("c");
            assert("c"@ =~= seq![hex_char(12)]);
        }
        "c"
    } else if n == 13 {
        proof {
            reveal_strlit("d");
            assert("d"@ =~= seq![hex_char(13)]);
        }
        "d"
    } else if n == 14 {
        proof {
            reveal_strlit("e");
            assert("e"@ =~= seq![hex_char(14)]);
        }
        "e"
    } else {
        proof {
            reveal_strlit("f");
            assert("f"@ =~= seq![hex_char(15)]);
        }
        "f"
    }
}

/// Encodes a byte string as lowercase hex, two digits per byte.
pub fn hex_string(bytes: &Vec<u8>) -> (r: String)
    ensures
        r@ == spec_hex(bytes@),
{
    let mut out = String::new();
    let mut i: usize = 0;
    while i < bytes.len()
        invariant
            i <= bytes@.len(),
            out@ == spec_hex(bytes@.take(i as int)),
        decreases bytes@.len() - i,
    {
        let b = bytes[i];
        proof {
            assert(b >> 4 < 16) by (bit_vector);
            assert(b & 15 < 16) by (bit_vector);
            assert(b >> 4 == b / 16) by (bit_vector);
            assert(b & 15 == b % 16) by (bit_vector);
        }
        out.append(hex_digit(b >> 4));
        out.append(hex_digit(b & 15));
        i = i + 1;
        proof {
            let t = bytes@.take(i as int);
            assert(t.drop_last() =~= bytes@.take(i - 1));
            assert(t.last() == bytes@[i - 1]);
            assert(out@ =~= spec_hex(t));
        }
    }
    proof {
        assert(bytes@.take(bytes@.len() as int) =~= bytes@);
    }
    out
}

/// `'` written as `h`, every other character kept.
pub open spec fn specter_char(c: char) -> char {
    if c == '\'' {
        'h'
    } else {
        c
    }
}

/// The wallet-import form of a derivation path string: the leading `m/`
/// stripped, and every `'` written as `h`.
pub open spec fn spec_specter(s: Seq<char>) -> Seq<char> {
    let body = if s.len() >= 2 && s[0] == 'm' && s[1] == '/' {
        s.skip(2)
    } else {
        s
    };
    body.map_values(|c: char| specter_char(c))
}

/// Rewrites a derivation path string into the wallet-import form: strips a
/// leading `m/` and writes each hardening mark `'` as `h`.
pub fn specter_form(s: &str) -> (r: String)
    ensures
        r@ == spec_specter(s@),
{
    let len = s.unicode_len();
    let start: usize = if len >= 2 && s.get_char(0) == 'm' && s.get_char(1) == '/' {
        2
    } else {
        0
    };
    let ghost body = if start == 2 {
        s@.skip(2)
    } else {
        s@
    };
    let mut out = String::new();
    let mut i: usize = start;
    while i < len
        invariant
            start <= i <= len,
            len as int == s@.len(),
            body == s@.skip(start as int),
            out@ == s@.subrange(start as int, i as int).map_values(|c: char| specter_char(c)),
        decreases len - i,
    {
        let c = s.get_char(i);
        if c == '\'' {
            out.append("h");
            proof {
                reveal_strlit("h");
            }
        } else {
            out.append(s.substring_char(i, i + 1));
        }
        i = i + 1;
        proof {
            let t = s@.subrange(start as int, i as int);
            assert(out@ =~= t.map_values(|ch: char| specter_char(ch)));
        }
    }
    proof {
        assert(s@.subrange(start as int, len as int) =~= s@.skip(start as int));
        assert(body =~= (if s@.len() >= 2 && s@[0] == 'm' && s@[1] == '/' {
            s@.skip(2)
        } else {
            s@
        }));
    }
    out
}

/// The fixed derivation path for the network, in the `m/`-rooted notation
/// with `'` marking hardened steps.
pub open spec fn spec_path_chars(mainnet: bool) -> Seq<char> {
    if mainnet {
        "m/48'/0'/0'/2'"@
    } else {
        "m/48'/1'/0'/2'"@
    }
}

/// Returns the fixed derivation path string for the network:
/// `m/48'/0'/0'/2'` on mainnet, `m/48'/1'/0'/2'` on testnet.
pub fn path_string(mainnet: bool) -> (r: &'static str)
    ensures
        r@ == spec_path_chars(mainnet),
{
    if mainnet {
        "m/48'/0'/0'/2'"
    } else {
        "m/48'/1'/0'/2'"
    }
}

/// Display name of the network selector.
pub open spec fn spec_network_name(mainnet: bool) -> Seq<char> {
    if mainnet {
        "Mainnet"@
    } else {
        "Testnet"@
    }
}

/// Returns the display name of the network selector.
pub fn network_name(mainnet: bool) -> (r: &'static str)
    ensures
        r@ == spec_network_name(mainnet),
{
    if mainnet {
        "Mainnet"
    } else {
        "Testnet"
    }
}

/// The wallet-import descriptor: origin fingerprint and path in brackets,
/// then the extended public key.
pub open spec fn spec_descriptor(
    fp_hex: Seq<char>,
    path_specter: Seq<char>,
    xpub: Seq<char>,
) -> Seq<char> {
    seq!['['] + fp_hex + seq!['/'] + path_specter + seq![']'] + xpub
}

/// Formats the wallet-import descriptor string
/// `[<fingerprint>/<path>]<xpub>`.
pub fn descriptor_string(fp_hex: &str, path_specter: &str, xpub: &str) -> (r: String)
    ensures
        r@ == spec_descriptor(fp_hex@, path_specter@, xpub@),
{
    let r = String::from_str("[").concat(fp_hex).concat("/").concat(path_specter).concat(
        "]",
    ).concat(xpub);
    proof {
        reveal_strlit("[");
        reveal_strlit("/");
        reveal_strlit("]");
        assert(r@ =~= spec_descriptor(fp_hex@, path_specter@, xpub@));
    }
    r
}

/// The descriptor's path segment on mainnet is exactly `48h/0h/0h/2h`: the
/// hardening marks become `h` and the leading `m/` is gone.
pub proof fn lemma_mainnet_descriptor_path()
    ensures
        spec_specter(spec_path_chars(true)) == "48h/0h/0h/2h"@,
{
    reveal_strlit("m/48'/0'/0'/2'");
    reveal_strlit("48h/0h/0h/2h");
    assert(spec_specter(spec_path_chars(true)) =~= "48h/0h/0h/2h"@);
}

/// The descriptor's path segment on testnet is exactly `48h/1h/0h/2h`.
pub proof fn lemma_testnet_descriptor_path()
    ensures
        spec_specter(spec_path_chars(false)) == "48h/1h/0h/2h"@,
{
    reveal_strlit("m/48'/1'/0'/2'");
    reveal_strlit("48h/1h/0h/2h");
    assert(spec_specter(spec_path_chars(false)) =~= "48h/1h/0h/2h"@);
}

/// The fingerprint passes into the descriptor unchanged: it stands at
/// positions 1 through 8, directly after the opening bracket.
pub proof fn lemma_descriptor_keeps_fingerprint(
    fp_hex: Seq<char>,
    path_specter: Seq<char>,
    xpub: Seq<char>,
)
    ensures
        spec_descriptor(fp_hex, path_specter, xpub).subrange(1, 1 + fp_hex.len() as int)
            == fp_hex,
{
    assert(spec_descriptor(fp_hex, path_specter, xpub).subrange(1, 1 + fp_hex.len() as int)
        =~= fp_hex);
}

} // verus!

