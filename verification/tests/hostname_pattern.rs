use backend::models::models::{Hostname, HostnameError};
use regex::Regex;

const PATTERN: &str = r"(https?)?(?::[\/]{2})?([^\:]+):(([1-9][0-9]{0,3}|[1-5][0-9]{4}|6[0-4][0-9]{3}|65[0-4][0-9]{2}|655[0-2][0-9]|6553[0-5])$)";

/// The hostname rules as trimming, lowercasing and the pattern give them.
fn expected(raw: &str, re: &Regex) -> Result<String, HostnameError> {
    let value = raw.trim().to_string().to_lowercase();
    if value.is_empty() {
        return Err(HostnameError::Empty);
    }
    if !re.is_match(&value) {
        return Err(HostnameError::RegexMismatch);
    }
    Ok(value)
}

fn check(raw: &str, re: &Regex) {
    let got = Hostname::new(raw.to_string()).map(Hostname::into_inner);
    assert_eq!(got, expected(raw, re), "raw {raw:?}");
}

#[test]
fn hostname_agrees_with_pattern_on_samples() {
    let re = Regex::new(PATTERN).unwrap();
    for raw in [
        "localhost:8000", "LOCALHOST:8000", " host:1 ", "host:65535", "host:65536", "host:0",
        "host:00", "host:099", "host:99999", "host:", ":80", "a::80", "a:b:80", "http://h:80",
        "https://h:80", "h:8o", "h:80 ", "\th:80\n", "h :80", "h\n:80", "ħ:80", "Ω:1", "",
        " ", "h:6553", "h:65530", "h:65529", "h:64999", "h:59999", "h:1000", "::", "a:",
        "[::1]:8080", "a:1a", "a:+1",
    ] {
        check(raw, &re);
    }
}

#[test]
fn hostname_agrees_with_pattern_on_generated_texts() {
    let re = Regex::new(PATTERN).unwrap();
    let alphabet: Vec<char> = "a:0159/6 Ab".chars().collect();
    let mut state: u64 = 0x2545_F491_4F6C_DD1D;
    let mut next = move || {
        state ^= state << 13;
        state ^= state >> 7;
        state ^= state << 17;
        state
    };
    for _ in 0..100_000 {
        let len = (next() % 9) as usize;
        let raw: String = (0..len).map(|_| alphabet[(next() % alphabet.len() as u64) as usize]).collect();
        check(&raw, &re);
    }
}
