//! Searching the BIP39 English dictionary for valid final checksum words.
//!
//! A mnemonic of `n` words packs `32 * n / 3` bits of entropy together with
//! `n / 3` checksum bits, so for a fixed prefix of `n - 1` words only a few
//! of the 2048 dictionary words make the whole phrase validate.  The search
//! tries every word, in wordlist order, and keeps the ones that do.

use vstd::prelude::*;
use vstd::string::StrSliceExecFns;
use vstd::string::StringExecFns;

use crate::RunError;

verus! {

/// Number of words in the BIP39 English dictionary.
pub const WORDLIST_LEN: usize = 2048;

/// The dictionary word at position `i` of the English wordlist, in wordlist
/// order.
pub uninterp spec fn word_of(i: int) -> Seq<char>;

/// Whether a space-joined phrase parses as a structurally valid BIP39
/// mnemonic: a supported word count, every word in the dictionary, and
/// checksum bits matching the SHA-256-derived checksum of the packed
/// entropy.
pub uninterp spec fn phrase_valid(s: Seq<char>) -> bool;

/// The 512-bit seed that the standard mnemonic-to-seed stretching function
/// (with an empty passphrase) produces from a valid phrase.
pub uninterp spec fn seed_of(s: Seq<char>) -> Seq<u8>;

/// Relies on `bip39::Language::word_list`: the English list holds exactly
/// 2048 words, in wordlist order.
#[verifier::external_body]
fn english_word(i: usize) -> (r: String)
    requires
        i < WORDLIST_LEN,
    ensures
        r@ == word_of(i as int),
{
    bip39::Language::English.word_list()[i].to_string()
}

/// Relies on `bip39::Mnemonic::parse`: it succeeds exactly on structurally
/// valid mnemonics (word count, dictionary membership, checksum), as a pure
/// function of the phrase.
#[verifier::external_body]
fn phrase_is_valid(s: &str) -> (r: bool)
    ensures
        r == phrase_valid(s@),
{
    bip39::Mnemonic::parse(s).is_ok()
}

/// Relies on `bip39::Mnemonic::parse` (which succeeds on a valid phrase)
/// and `bip39::Mnemonic::to_seed`: PBKDF2-HMAC-SHA512 stretching of the
/// mnemonic with an empty passphrase, a deterministic 64-byte result.
#[verifier::external_body]
pub(crate) fn seed_from_phrase(s: &str) -> (r: Vec<u8>)
    requires
        phrase_valid(s@),
    ensures
        r@ == seed_of(s@),
        r@.len() == 64,
{
    let mnemonic = bip39::Mnemonic::parse(s).unwrap();
    mnemonic.to_seed("").to_vec()
}

/// A partial phrase joined with one candidate word by a single space.
pub open spec fn joined(partial: Seq<char>, word: Seq<char>) -> Seq<char> {
    partial + seq![' '] + word
}

/// Whether `i` begins a word: a non-space character at the start of the
/// text or right after a space.
pub open spec fn is_word_start(s: Seq<char>, i: int) -> bool {
    s[i] != ' ' && (i == 0 || s[i - 1] == ' ')
}

/// Number of space-separated words among the first `n` characters.
pub open spec fn word_count_upto(s: Seq<char>, n: int) -> int
    decreases n,
{
    if n <= 0 {
        0
    } else {
        word_count_upto(s, n - 1) + if is_word_start(s, n - 1) {
            1int
        } else {
            0int
        }
    }
}

/// Number of space-separated words in the text.
pub open spec fn spec_word_count(s: Seq<char>) -> int {
    word_count_upto(s, s.len() as int)
}

/// A partial phrase must be one word short of a supported mnemonic length
/// (12, 15, 18, 21 or 24 words).
pub open spec fn valid_partial_word_count(n: int) -> bool {
    n == 11 || n == 14 || n == 17 || n == 20 || n == 23
}

/// Counts the space-separated words of `s`.
pub fn word_count(s: &str) -> (n: usize)
    ensures
        n as int == spec_word_count(s@),
{
    let len: usize = s.unicode_len();
    let mut n: usize = 0;
    let mut i: usize = 0;
    while i < len
        invariant
            i <= len,
            len as int == s@.len(),
            n as int == word_count_upto(s@, i as int),
            n <= i,
        decreases len - i,
    {
        let c = s.get_char(i);
        let starts = c != ' ' && (i == 0 || s.get_char(i - 1) == ' ');
        if starts {
            n = n + 1;
        }
        i = i + 1;
    }
    n
}

/// The valid completion words among the first `n` dictionary entries, in
/// wordlist order.
pub open spec fn completions_upto(partial: Seq<char>, n: int) -> Seq<Seq<char>>
    decreases n,
{
    if n <= 0 {
        Seq::empty()
    } else {
        completions_upto(partial, n - 1) + if phrase_valid(joined(partial, word_of(n - 1))) {
            seq![word_of(n - 1)]
        } else {
            Seq::empty()
        }
    }
}

/// All valid completion words for `partial`, in wordlist order.
pub open spec fn spec_completions(partial: Seq<char>) -> Seq<Seq<char>> {
    completions_upto(partial, WORDLIST_LEN as int)
}

/// Tries every word of the dictionary as the final word of the phrase and
/// returns, in wordlist order, each one under which the whole phrase
/// parses as a valid mnemonic.  The result is a pure function of the
/// partial phrase.  A partial phrase whose word count fits no supported
/// mnemonic length is rejected before the search.
pub fn complete(partial: &str) -> (r: Result<Vec<String>, RunError>)
    ensures
        !valid_partial_word_count(spec_word_count(partial@)) <==> r == Result::<
            Vec<String>,
            RunError,
        >::Err(RunError::MalformedPartialPhrase),
        valid_partial_word_count(spec_word_count(partial@)) ==> (r matches Ok(words)
            && words.deep_view() == spec_completions(partial@)),
{
    let wc = word_count(partial);
    if !(wc == 11 || wc == 14 || wc == 17 || wc == 20 || wc == 23) {
        return Err(RunError::MalformedPartialPhrase);
    }
    let mut words: Vec<String> = Vec::new();
    let mut i: usize = 0;
    while i < WORDLIST_LEN
        invariant
            i <= WORDLIST_LEN,
            words.deep_view() == completions_upto(partial@, i as int),
        decreases WORDLIST_LEN - i,
    {
        let w = english_word(i);
        let trial = String::from_str(partial).concat(" ").concat(w.as_str());
        proof {
            reveal_strlit(" ");
            assert(trial@ =~= joined(partial@, w@));
        }
        let ghost prev = words.deep_view();
        if phrase_is_valid(trial.as_str()) {
            words.push(w);
            proof {
                assert(words.deep_view() =~= prev + seq![word_of(i as int)]);
            }
        } else {
            proof {
                assert(completions_upto(partial@, i + 1) =~= prev);
            }
        }
        i = i + 1;
    }
    Ok(words)
}

/// Picks the completion at the caller-supplied zero-based index; an
/// out-of-range index yields no completion rather than an error.
pub fn select_completion(words: &Vec<String>, index: usize) -> (r: Option<String>)
    ensures
        index < words@.len() ==> (r matches Some(w) && w@ == words@[index as int]@),
        index >= words@.len() ==> r is None,
{
    if index < words.len() {
        Some(words[index].clone())
    } else {
        None
    }
}

/// The completion search is a pure function of the partial phrase:
/// two searches over identical input yield identical, identically ordered
/// word sequences, since `complete` pins its result to
/// `spec_completions(partial)`.
pub proof fn lemma_completion_search_pure(
    partial: Seq<char>,
    first: Seq<Seq<char>>,
    second: Seq<Seq<char>>,
)
    requires
        first == spec_completions(partial),
        second == spec_completions(partial),
    ensures
        first == second,
        forall|j: int| 0 <= j < first.len() ==> first[j] == second[j],
{
}

/// The search result never exceeds the dictionary: at most `n` of the
/// first `n` candidates are valid.
pub proof fn lemma_completions_upto_len(partial: Seq<char>, n: int)
    requires
        n >= 0,
    ensures
        completions_upto(partial, n).len() <= n,
    decreases n,
{
    if n > 0 {
        lemma_completions_upto_len(partial, n - 1);
    }
}

/// The sequence of valid completions holds at most 2048 words.
pub proof fn lemma_completions_bounded(partial: Seq<char>)
    ensures
        spec_completions(partial).len() <= WORDLIST_LEN,
{
    lemma_completions_upto_len(partial, WORDLIST_LEN as int);
}

/// Extending the searched prefix of the dictionary only appends: earlier
/// results keep their length bound and their positions.
pub proof fn lemma_completions_upto_prefix(partial: Seq<char>, n: int, m: int)
    requires
        0 <= n <= m,
    ensures
        completions_upto(partial, n).len() <= completions_upto(partial, m).len(),
        forall|j: int|
            0 <= j < completions_upto(partial, n).len() ==> completions_upto(partial, m)[j]
                == completions_upto(partial, n)[j],
    decreases m - n,
{
    if n < m {
        lemma_completions_upto_prefix(partial, n, m - 1);
    }
}

/// Every listed completion makes the joined phrase a valid mnemonic.
pub proof fn lemma_completions_upto_valid(partial: Seq<char>, n: int)
    requires
        n >= 0,
    ensures
        forall|j: int|
            0 <= j < completions_upto(partial, n).len() ==> phrase_valid(
                joined(partial, #[trigger] completions_upto(partial, n)[j]),
            ),
    decreases n,
{
    if n > 0 {
        lemma_completions_upto_valid(partial, n - 1);
        let prev = completions_upto(partial, n - 1);
        let cur = completions_upto(partial, n);
        assert forall|j: int| 0 <= j < cur.len() implies phrase_valid(
            joined(partial, cur[j]),
        ) by {
            if j < prev.len() {
                assert(cur[j] == prev[j]);
            } else {
                assert(cur[j] == word_of(n - 1));
            }
        }
    }
}

/// Splitting a valid mnemonic before its last word and completing the rest
/// finds that word again: if the phrase `partial + word_of(k)` is valid,
/// then `word_of(k)` stands in the completion sequence, at the position
/// given by its rank in wordlist order among the valid completions.
pub proof fn lemma_true_word_listed(partial: Seq<char>, k: int)
    requires
        0 <= k < WORDLIST_LEN,
        phrase_valid(joined(partial, word_of(k))),
    ensures
        completions_upto(partial, k).len() < spec_completions(partial).len(),
        spec_completions(partial)[completions_upto(partial, k).len() as int] == word_of(k),
{
    let rank = completions_upto(partial, k).len();
    assert(completions_upto(partial, k + 1) == completions_upto(partial, k) + seq![word_of(k)]);
    assert(completions_upto(partial, k + 1)[rank as int] == word_of(k));
    lemma_completions_upto_prefix(partial, k + 1, WORDLIST_LEN as int);
}

} // verus!
