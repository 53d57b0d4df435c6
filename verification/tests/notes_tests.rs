use regex::Regex;
use wab2b_helper::notes::parse_sha256_hash;

const DIGEST_A: &str = "ba7816bf8f01cfea414140de5dae2223b00361a396177a9cb410ff61f20015ad";
const DIGEST_B: &str = "E3B0C44298FC1C149AFBF4C8996FB92427AE41E4649B934CA495991B7852B855";

fn by_patterns(release_notes: &str, asset_name: &str) -> Option<String> {
    let labelled =
        Regex::new(&format!(r"SHA256:\s*([a-fA-F0-9]{{64}})\s*{}", regex::escape(asset_name))).ok()?;
    if let Some(found) = labelled.captures(release_notes).and_then(|c| c.get(1)) {
        return Some(found.as_str().to_string());
    }
    let named =
        Regex::new(&format!(r"{}\s*:\s*([a-fA-F0-9]{{64}})", regex::escape(asset_name))).ok()?;
    named.captures(release_notes).and_then(|c| c.get(1)).map(|m| m.as_str().to_string())
}

#[test]
fn labelled_form_is_read() {
    let notes = format!("Changes\n\nSHA256: {} app.exe\n", DIGEST_A);
    assert_eq!(parse_sha256_hash(&notes, "app.exe"), Some(DIGEST_A.to_string()));
    let tight = format!("SHA256:{}app.exe", DIGEST_B);
    assert_eq!(parse_sha256_hash(&tight, "app.exe"), Some(DIGEST_B.to_string()));
    let spread = format!("SHA256: \t\n {} \u{A0}\n app.exe", DIGEST_A);
    assert_eq!(parse_sha256_hash(&spread, "app.exe"), Some(DIGEST_A.to_string()));
}

#[test]
fn named_form_is_read() {
    let notes = format!("app.exe: {}\n", DIGEST_A);
    assert_eq!(parse_sha256_hash(&notes, "app.exe"), Some(DIGEST_A.to_string()));
    let tight = format!("see app.exe:{}.", DIGEST_B);
    assert_eq!(parse_sha256_hash(&tight, "app.exe"), Some(DIGEST_B.to_string()));
    let spread = format!("app.exe \n:\t {}", DIGEST_A);
    assert_eq!(parse_sha256_hash(&spread, "app.exe"), Some(DIGEST_A.to_string()));
}

#[test]
fn labelled_form_comes_first() {
    let notes = format!("app.exe: {}\nSHA256: {} app.exe", DIGEST_A, DIGEST_B);
    assert_eq!(parse_sha256_hash(&notes, "app.exe"), Some(DIGEST_B.to_string()));
}

#[test]
fn the_first_occurrence_counts() {
    let notes = format!("SHA256: {} app.exe\nSHA256: {} app.exe", DIGEST_A, DIGEST_B);
    assert_eq!(parse_sha256_hash(&notes, "app.exe"), Some(DIGEST_A.to_string()));
    let named = format!("app.exe: {}\napp.exe: {}", DIGEST_B, DIGEST_A);
    assert_eq!(parse_sha256_hash(&named, "app.exe"), Some(DIGEST_B.to_string()));
    let other_first = format!("SHA256: {} other.exe\nSHA256: {} app.exe", DIGEST_A, DIGEST_B);
    assert_eq!(parse_sha256_hash(&other_first, "app.exe"), Some(DIGEST_B.to_string()));
}

#[test]
fn notes_without_a_digest_for_the_asset_give_nothing() {
    assert_eq!(parse_sha256_hash("", "app.exe"), None);
    assert_eq!(parse_sha256_hash("Just notes", "app.exe"), None);
    let short = format!("SHA256: {} app.exe", &DIGEST_A[..63]);
    assert_eq!(parse_sha256_hash(&short, "app.exe"), None);
    let other = format!("SHA256: {} other.exe", DIGEST_A);
    assert_eq!(parse_sha256_hash(&other, "app.exe"), None);
    let lower_label = format!("sha256: {} app.exe", DIGEST_A);
    assert_eq!(parse_sha256_hash(&lower_label, "app.exe"), None);
    let not_hex = format!("app.exe: {}g", &DIGEST_A[..63]);
    assert_eq!(parse_sha256_hash(&not_hex, "app.exe"), None);
    let words_between = format!("SHA256: {} for app.exe", DIGEST_A);
    assert_eq!(parse_sha256_hash(&words_between, "app.exe"), None);
}

#[test]
fn names_are_taken_letter_for_letter() {
    let notes = format!("SHA256: {} appXexe", DIGEST_A);
    assert_eq!(parse_sha256_hash(&notes, "app.exe"), None);
    let starred = format!("a+b (1).exe: {}", DIGEST_A);
    assert_eq!(parse_sha256_hash(&starred, "a+b (1).exe"), Some(DIGEST_A.to_string()));
    let spaced = format!("SHA256: {}   my app.exe", DIGEST_A);
    assert_eq!(parse_sha256_hash(&spaced, " my app.exe"), Some(DIGEST_A.to_string()));
}

#[test]
fn a_longer_run_of_hex_digits_gives_its_first_64() {
    let notes = format!("app.exe: {}abcdef", DIGEST_A);
    assert_eq!(parse_sha256_hash(&notes, "app.exe"), Some(DIGEST_A.to_string()));
    let labelled = format!("SHA256: {}ab", DIGEST_A);
    assert_eq!(parse_sha256_hash(&labelled, "ab"), Some(DIGEST_A.to_string()));
}

#[test]
fn an_empty_name_is_found_everywhere() {
    let notes = format!("x SHA256: {}", DIGEST_A);
    assert_eq!(parse_sha256_hash(&notes, ""), Some(DIGEST_A.to_string()));
    let named = format!("x  : {}", DIGEST_B);
    assert_eq!(parse_sha256_hash(&named, ""), Some(DIGEST_B.to_string()));
}

#[test]
fn results_are_those_of_the_two_patterns() {
    let names = ["app.exe", "", "a b", " x", "é.dmg", "SHA256:", ":", "a+b", "app"];
    let notes = [
        String::new(),
        format!("SHA256: {} app.exe", DIGEST_A),
        format!("SHA256:{}{}", DIGEST_A, "app.exe"),
        format!("SHA256: {}  a b\napp: {}", DIGEST_A, DIGEST_B),
        format!("app.exe : {} and é.dmg:{}", DIGEST_A, DIGEST_B),
        format!("app.exe:\n{}", DIGEST_B),
        format!("SHA256:SHA256: {} x", DIGEST_A),
        format!("SHA256: {}   x :{}", DIGEST_A, DIGEST_B),
        format!(": {}", DIGEST_A),
        format!("a+b:{} aab:{}", DIGEST_A, DIGEST_B),
        format!("SHA256: {} \u{2003}é.dmg", DIGEST_B),
        format!("app.exe: {}", &DIGEST_A[..60]),
        format!("SHA256: {}{} app", DIGEST_A, DIGEST_B),
        format!("xapp.exe:{}\napp.exe :{}", DIGEST_A, DIGEST_B),
    ];
    for text in &notes {
        for name in names {
            assert_eq!(parse_sha256_hash(text, name), by_patterns(text, name));
        }
    }
}
