use humanrng::completer::complete;
use humanrng::completer::select_completion;
use humanrng::completer::word_count;
use humanrng::RunError;

fn abandon_partial() -> String {
    ["abandon"; 11].join(" ")
}

#[test]
fn word_count_counts_space_separated_words() {
    assert_eq!(word_count("abandon"), 1);
    assert_eq!(word_count("abandon about"), 2);
    assert_eq!(word_count(""), 0);
    assert_eq!(word_count("   "), 0);
    assert_eq!(word_count("a  b"), 2);
    assert_eq!(word_count(&abandon_partial()), 11);
}

#[test]
fn thirteen_word_partial_is_malformed() {
    let partial = ["abandon"; 13].join(" ");
    assert_eq!(complete(&partial), Err(RunError::MalformedPartialPhrase));
}

#[test]
fn empty_partial_is_malformed() {
    assert_eq!(complete(""), Err(RunError::MalformedPartialPhrase));
}

#[test]
fn twelve_word_partial_is_malformed() {
    let partial = ["abandon"; 12].join(" ");
    assert_eq!(complete(&partial), Err(RunError::MalformedPartialPhrase));
}

#[test]
fn abandon_prefix_has_about_first() {
    // 11 words fix 121 bits; the last word holds 7 entropy bits and the
    // 4 checksum bits, so exactly one word out of each run of 16 validates:
    // 128 in all.  For the all-zero entropy the checksum nibble is 3, so the
    // word at index 3 of the wordlist, "about", is the first valid one.
    let words = complete(&abandon_partial()).unwrap();
    assert_eq!(words.len(), 128);
    assert_eq!(words[0], "about");
    assert!(words.iter().all(|w| !w.is_empty()));
}

#[test]
fn completion_counts_match_checksum_bits() {
    // An n-word mnemonic carries n/3 checksum bits, so the final word holds
    // 11 - n/3 free entropy bits and exactly 2^(11 - n/3) words validate:
    // one for each choice of the free bits.
    assert_eq!(complete(&["abandon"; 11].join(" ")).unwrap().len(), 128);
    assert_eq!(complete(&["abandon"; 14].join(" ")).unwrap().len(), 64);
    assert_eq!(complete(&["abandon"; 17].join(" ")).unwrap().len(), 32);
    assert_eq!(complete(&["abandon"; 20].join(" ")).unwrap().len(), 16);
    assert_eq!(complete(&["abandon"; 23].join(" ")).unwrap().len(), 8);
}

#[test]
fn completion_search_is_reproducible() {
    let first = complete(&abandon_partial()).unwrap();
    let second = complete(&abandon_partial()).unwrap();
    assert_eq!(first, second);
}

#[test]
fn gibberish_partial_of_valid_length_has_no_completions() {
    let mut words = vec!["abandon"; 10];
    words.push("zzzzzz");
    let partial = words.join(" ");
    let completions = complete(&partial).unwrap();
    assert!(completions.is_empty());
}

#[test]
fn twenty_three_word_abandon_prefix_completes_with_art() {
    let partial = ["abandon"; 23].join(" ");
    let words = complete(&partial).unwrap();
    assert_eq!(words[0], "art");
}

#[test]
fn selection_by_index() {
    let words = complete(&abandon_partial()).unwrap();
    assert_eq!(select_completion(&words, 0).as_deref(), Some("about"));
    assert_eq!(select_completion(&words, words.len()), None);
    assert_eq!(select_completion(&words, 100000), None);
}
