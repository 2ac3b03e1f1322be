//! Connection data of a BOB cluster: hostnames, credentials, timeouts.
use crate::text::{
    ascii_lowercase, is_ascii_text, chars_of, decimal_value, is_ascii_digit, last_index_of, lemma_last_index_of, lowercase_of,
    parse_decimal, string_of, to_lowercase, trim, trim_bounds,
};
use vstd::prelude::*;

verus! {

/// Time limit for waiting a responce, in milliseconds.
#[derive(Clone, Copy, Debug)]
pub struct Timeout(pub u64);

/// A port as the hostname pattern writes it: 1 to 5 decimal digits without a
/// leading zero, denoting 1 to 65535.
#[verifier::opaque]
pub open spec fn is_port_text(s: Seq<char>) -> bool {
    &&& 1 <= s.len() <= 5
    &&& forall|k: int| 0 <= k < s.len() ==> is_ascii_digit(#[trigger] s[k])
    &&& s[0] != '0'
    &&& decimal_value(s) <= 65535
}

/// No `:` in `s[i..j]`.
pub open spec fn no_colon_in(s: Seq<char>, i: int, j: int) -> bool {
    forall|k: int| i <= k < j ==> s[k] != ':'
}

/// Whether the hostname pattern
/// `(https?)?(?::[\/]{2})?([^\:]+):(PORT$)` finds a match somewhere in `s`:
/// a run of characters other than `:`, then `:`, then a port that ends `s`.
pub open spec fn matches_hostname_pattern(s: Seq<char>) -> bool {
    exists|i: int, j: int|
        #![trigger s[i], s[j]]
        0 <= i < j < s.len() && s[i] != ':' && no_colon_in(s, i, j) && s[j] == ':'
            && is_port_text(s.subrange(j + 1, s.len() as int))
}

/// Why a string is not a hostname.
#[derive(Clone, Copy, Debug, PartialEq, Eq, Structural)]
pub enum HostnameError {
    /// Nothing is left once white space is trimmed.
    Empty,
    /// The text does not end in `host:port`.
    RegexMismatch,
}

/// The text a raw hostname is turned into before it is checked: trimmed,
/// then lowercased as `str::to_lowercase` does it, which on ASCII text
/// lowercases the letters `A` to `Z` and keeps every other character, and
/// beyond ASCII is the Unicode mapping [`lowercase_of`].
pub open spec fn sanitize_hostname(raw: Seq<char>) -> Seq<char> {
    let t = trim(raw);
    if is_ascii_text(t) {
        ascii_lowercase(t)
    } else {
        lowercase_of(t)
    }
}

/// Whether `s` is the sanitized form of some text.
pub open spec fn is_sanitized(s: Seq<char>) -> bool {
    exists|raw: Seq<char>| s == sanitize_hostname(raw)
}

/// What checking a sanitized text gives: the text itself, or the first rule
/// it breaks.
pub open spec fn check_hostname(s: Seq<char>) -> Result<Seq<char>, HostnameError> {
    if s.len() == 0 {
        Err(HostnameError::Empty)
    } else if !matches_hostname_pattern(s) {
        Err(HostnameError::RegexMismatch)
    } else {
        Ok(s)
    }
}

/// The port of a valid hostname: the number after its last `:`.
pub open spec fn port_of(s: Seq<char>) -> nat {
    decimal_value(s.subrange(last_index_of(s, ':') + 1, s.len() as int))
}

/// A colon that a match of the hostname pattern ends on is the last colon.
proof fn lemma_match_colon_is_last(s: Seq<char>, i: int, jj: int)
    requires
        0 <= i < jj < s.len(),
        no_colon_in(s, i, jj),
        s[jj] == ':',
        is_port_text(s.subrange(jj + 1, s.len() as int)),
    ensures
        jj == last_index_of(s, ':'),
        s[jj - 1] != ':',
{
    lemma_last_index_of(s, ':');
    let j = last_index_of(s, ':');
    if jj < j {
        reveal(is_port_text);
        let suffix = s.subrange(jj + 1, s.len() as int);
        assert(suffix[j - jj - 1] == s[j]);
        assert(is_ascii_digit(suffix[j - jj - 1]));
        assert(false);
    }
    if jj > j {
        assert(s[jj] != ':');
    }
    assert(i <= jj - 1 < jj);
}

/// Where the text after the last colon is a port and the character before
/// that colon is not a colon, the pattern matches.
proof fn lemma_last_colon_matches(s: Seq<char>)
    requires
        last_index_of(s, ':') >= 1,
        s[last_index_of(s, ':') - 1] != ':',
        is_port_text(s.subrange(last_index_of(s, ':') + 1, s.len() as int)),
    ensures
        matches_hostname_pattern(s),
{
    lemma_last_index_of(s, ':');
    let j = last_index_of(s, ':');
    let i = j - 1;
    assert(no_colon_in(s, i, j));
    assert(0 <= i < j < s.len() && s[i] != ':' && s[j] == ':');
}

/// The pattern matches exactly where the text after the last `:` is a port
/// and the character before that `:` is not a `:` itself.
pub proof fn lemma_pattern_at_last_colon(s: Seq<char>)
    ensures
        matches_hostname_pattern(s) <==> {
            let j = last_index_of(s, ':');
            &&& j >= 1
            &&& s[j - 1] != ':'
            &&& is_port_text(s.subrange(j + 1, s.len() as int))
        },
{
    let j = last_index_of(s, ':');
    if j >= 1 && s[j - 1] != ':' && is_port_text(s.subrange(j + 1, s.len() as int)) {
        lemma_last_colon_matches(s);
    }
    if matches_hostname_pattern(s) {
        lemma_matching_colon(s);
    }
}

proof fn lemma_matching_colon(s: Seq<char>)
    requires
        matches_hostname_pattern(s),
    ensures
        last_index_of(s, ':') >= 1,
        s[last_index_of(s, ':') - 1] != ':',
        is_port_text(s.subrange(last_index_of(s, ':') + 1, s.len() as int)),
{
    let w = choose|i: int, jj: int|
        #![trigger s[i], s[jj]]
        0 <= i < jj < s.len() && s[i] != ':' && no_colon_in(s, i, jj) && s[jj] == ':'
            && is_port_text(s.subrange(jj + 1, s.len() as int));
    lemma_match_colon_is_last(s, w.0, w.1);
}

/// Whether `v[from..]` is a port text.
fn port_text_at(v: &Vec<char>, from: usize) -> (r: bool)
    requires
        from <= v.len(),
    ensures
        r == is_port_text(v@.subrange(from as int, v.len() as int)),
{
    proof {
        reveal(is_port_text);
    }
    let n = v.len();
    if n - from < 1 || n - from > 5 {
        return false;
    }
    let value = parse_decimal(v, from, n);
    let ghost t = v@.subrange(from as int, n as int);
    proof {
        reveal(is_port_text);
    }
    match value {
        None => {
            assert(!is_port_text(t));
            false
        },
        Some(x) => {
            assert(t[0] == v@[from as int]);
            v[from] != '0' && x <= 65535
        },
    }
}

/// Whether `v` holds a valid hostname: not empty, and matched by the pattern.
fn hostname_text_is_valid(v: &Vec<char>) -> (r: Result<(), HostnameError>)
    ensures
        match r {
            Ok(_) => check_hostname(v@) is Ok,
            Err(e) => check_hostname(v@) == Err::<Seq<char>, HostnameError>(e),
        },
{
    if v.len() == 0 {
        return Err(HostnameError::Empty);
    }
    proof {
        lemma_pattern_at_last_colon(v@);
        lemma_last_index_of(v@, ':');
    }
    let n = v.len();
    let mut j: usize = n;
    assert(v@.subrange(0, n as int) =~= v@);
    while j > 0 && v[j - 1] != ':'
        invariant
            j <= n == v.len(),
            last_index_of(v@, ':') == last_index_of(v@.subrange(0, j as int), ':'),
        decreases j,
    {
        assert(v@.subrange(0, j as int).drop_last() =~= v@.subrange(0, j - 1));
        j = j - 1;
    }
    // `j` is one past the last colon, or 0 where there is none.
    if j == 0 {
        assert(v@.subrange(0, 0) =~= Seq::<char>::empty());
        return Err(HostnameError::RegexMismatch);
    }
    assert(last_index_of(v@.subrange(0, j as int), ':') == j - 1);
    let colon = j - 1;
    if colon == 0 || v[colon - 1] == ':' {
        return Err(HostnameError::RegexMismatch);
    }
    if port_text_at(v, colon + 1) {
        Ok(())
    } else {
        Err(HostnameError::RegexMismatch)
    }
}

/// Address of a BOB node: `host:port`, trimmed and lowercased. The text is
/// always the sanitized form of some raw text and ends in a port from 1 to
/// 65535 after its last `:`.
#[derive(Debug, PartialEq, Eq, PartialOrd, Ord, Hash)]
pub struct Hostname {
    value: String,
}

impl View for Hostname {
    type V = Seq<char>;

    closed spec fn view(&self) -> Seq<char> {
        self.value@
    }
}

impl Clone for Hostname {
    fn clone(&self) -> (r: Self)
        ensures
            r@ == self@,
    {
        proof {
            use_type_invariant(self);
        }
        Hostname { value: self.value.clone() }
    }
}

impl Hostname {
    #[verifier::type_invariant]
    closed spec fn well_formed(self) -> bool {
        &&& check_hostname(self.value@) is Ok
        &&& is_sanitized(self.value@)
    }

    /// Makes a hostname of `value`, the sanitized form of `raw`: `Ok` with
    /// that text where it is not empty and matched by the hostname pattern,
    /// else the first rule it breaks.
    fn from_sanitized(value: String, Ghost(raw): Ghost<Seq<char>>) -> (r: Result<
        Hostname,
        HostnameError,
    >)
        requires
            value@ == sanitize_hostname(raw),
        ensures
            r is Ok <==> check_hostname(value@) is Ok,
            r matches Ok(h) ==> h@ == value@,
            r matches Err(e) ==> check_hostname(value@) == Err::<Seq<char>, HostnameError>(e),
    {
        let v = chars_of(value.as_str());
        match hostname_text_is_valid(&v) {
            Ok(_) => Ok(Hostname { value }),
            Err(e) => Err(e),
        }
    }

    /// Makes a hostname of raw text: trims white space, lowercases, then
    /// checks that the result is not empty and ends in `host:port`.
    pub fn new(raw: String) -> (r: Result<Hostname, HostnameError>)
        ensures
            r is Ok <==> check_hostname(sanitize_hostname(raw@)) is Ok,
            r matches Ok(h) ==> h@ == sanitize_hostname(raw@),
            r matches Err(e) ==> check_hostname(sanitize_hostname(raw@)) == Err::<
                Seq<char>,
                HostnameError,
            >(e),
            is_ascii_text(raw@) ==> (r matches Ok(h) ==> h@ == ascii_lowercase(trim(raw@))),
    {
        let v = chars_of(raw.as_str());
        let (from, to) = trim_bounds(&v);
        let trimmed = string_of(&v, from, to);
        assert(is_ascii_text(raw@) ==> is_ascii_text(trimmed@)) by {
            if is_ascii_text(raw@) {
                assert forall|i: int| 0 <= i < trimmed@.len() implies (#[trigger] trimmed@[i]
                    as u32) < 0x80 by {
                    assert(trimmed@[i] == v@[from + i]);
                }
            }
        }
        let lowered = to_lowercase(trimmed.as_str());
        Hostname::from_sanitized(lowered, Ghost(raw@))
    }

    /// The text of the hostname.
    pub fn into_inner(self) -> (r: String)
        ensures
            r@ == self@,
            check_hostname(r@) is Ok,
            is_sanitized(r@),
    {
        proof {
            use_type_invariant(&self);
        }
        self.value
    }

    /// The port of the hostname, the number after its last `:`.
    pub fn port(&self) -> (r: u16)
        ensures
            r as nat == port_of(self@),
            1 <= r,
    {
        proof {
            use_type_invariant(self);
            lemma_pattern_at_last_colon(self@);
            lemma_last_index_of(self@, ':');
        }
        let v = chars_of(self.value.as_str());
        let n = v.len();
        let mut j: usize = n;
        assert(v@.subrange(0, n as int) =~= v@);
        while j > 0 && v[j - 1] != ':'
            invariant
                j <= n == v.len(),
                v@ == self@,
                last_index_of(v@, ':') == last_index_of(v@.subrange(0, j as int), ':'),
            decreases j,
        {
            assert(v@.subrange(0, j as int).drop_last() =~= v@.subrange(0, j - 1));
            j = j - 1;
        }
        if j == 0 {
            assert(v@.subrange(0, 0) =~= Seq::<char>::empty());
        }
        assert(last_index_of(v@.subrange(0, j as int), ':') == j - 1);
        proof {
            reveal(is_port_text);
            let suffix = v@.subrange(j as int, n as int);
            crate::text::lemma_decimal_value_positive(suffix);
        }
        let parsed = parse_decimal(&v, j, n);
        match parsed {
            Some(x) => x as u16,
            None => {
                assert(false);
                0
            },
        }
    }
}

/// Time limit for a request to a BOB node.
#[derive(Clone, Debug, PartialEq, Eq, PartialOrd, Ord, Hash)]
pub struct RequestTimeout {
    millis: u64,
}

impl View for RequestTimeout {
    type V = u64;

    closed spec fn view(&self) -> u64 {
        self.millis
    }
}

/// `Duration::from_millis`: the duration of `ms` milliseconds; it depends on
/// `ms` alone.
pub uninterp spec fn duration_of_millis(ms: u64) -> core::time::Duration;

/// Calls `Duration::from_millis`. The contract claims only that the result is
/// the duration of `ms` milliseconds, a function of `ms` alone.
#[verifier::external_body]
fn duration_from_millis(ms: u64) -> (d: core::time::Duration)
    ensures
        d == duration_of_millis(ms),
{
    core::time::Duration::from_millis(ms)
}

impl RequestTimeout {
    /// A timeout of `millis` milliseconds.
    pub fn from_millis(millis: u64) -> (r: Self)
        ensures
            r@ == millis,
    {
        RequestTimeout { millis }
    }

    /// The timeout as a `Duration`.
    pub fn into_inner(self) -> (r: core::time::Duration)
        ensures
            r == duration_of_millis(self@),
    {
        duration_from_millis(self.millis)
    }
}

/// Data needed to connect to a BOB cluster
#[derive(Clone, Debug, PartialEq, Eq, PartialOrd, Ord, Hash)]
pub struct BobConnectionData {
    /// Address to connect to
    pub hostname: Hostname,
    /// [Optional] Credentials used for BOB authentication
    pub credentials: Option<Credentials>,
}

/// Optional auth credentials for a BOB cluster
#[derive(Clone, Debug, PartialEq, Eq, PartialOrd, Ord, Hash)]
pub struct Credentials {
    /// Login used during auth
    pub login: String,
    /// Password used during auth
    pub password: String,
}

impl Default for Credentials {
    fn default() -> (r: Self)
        ensures
            r.login@ == Seq::<char>::empty(),
            r.password@ == Seq::<char>::empty(),
    {
        Credentials { login: String::new(), password: String::new() }
    }
}

} // verus!
