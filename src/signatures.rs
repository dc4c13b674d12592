//! Pure request checks: static-asset paths, attack signatures in the
//! request target, and scanner tools named in the User-Agent.

use regex::Regex;
use vstd::prelude::*;

verus! {

#[verifier::external_type_specification]
#[verifier::external_body]
pub struct ExRegex(Regex);

#[verifier::external_type_specification]
#[verifier::external_body]
pub struct ExRegexError(regex::Error);

/// Paths of static files that are served without further screening.
pub const STATIC_ASSET_PATTERN: &'static str = r"\.(jpg|jpeg|png|gif|css|js|ico|woff|ttf|svg)$";

/// Phrases that mark an SQL-injection attempt, matched without regard to case.
pub const SIGNATURE_PATTERN: &'static str = r"(?i)(union\s+select|select\s+.*\s+from|drop\s+table)";

/// Whether the regular expression `pattern` matches somewhere in `text`.
pub uninterp spec fn regex_match(pattern: Seq<char>, text: Seq<char>) -> bool;

/// The lower-case form of a string as Unicode defines it (a final sigma is
/// lowered by its context).
pub uninterp spec fn lower_of(s: Seq<char>) -> Seq<char>;

/// Whether the regex engine accepts `pattern`: it is valid syntax and its
/// compiled form stays within the engine's size limit.
pub uninterp spec fn regex_compiles(pattern: Seq<char>) -> bool;

/// A lower-case hexadecimal digit, for `0 <= n < 16`.
pub open spec fn hex_digit(n: u32) -> char {
    "0123456789abcdef"@[n as int]
}

/// How one character is written inside a JSON string: quote and backslash
/// escaped, control characters by their short escape or as `\u00xx`.
pub open spec fn json_escape(c: char) -> Seq<char> {
    if c == '"' {
        seq!['\\', '"']
    } else if c == '\\' {
        seq!['\\', '\\']
    } else if c == '\u{08}' {
        seq!['\\', 'b']
    } else if c == '\t' {
        seq!['\\', 't']
    } else if c == '\n' {
        seq!['\\', 'n']
    } else if c == '\u{0C}' {
        seq!['\\', 'f']
    } else if c == '\r' {
        seq!['\\', 'r']
    } else if (c as u32) < 0x20 {
        seq!['\\', 'u', '0', '0', hex_digit((c as u32) / 16), hex_digit((c as u32) % 16)]
    } else {
        seq![c]
    }
}

/// The characters of `s`, each escaped for a JSON string.
pub open spec fn json_escaped(s: Seq<char>) -> Seq<char>
    decreases s.len(),
{
    if s.len() == 0 {
        Seq::empty()
    } else {
        json_escaped(s.drop_last()) + json_escape(s.last())
    }
}

/// The JSON string literal, quotes included, that encodes `s`.
pub open spec fn json_string_text(s: Seq<char>) -> Seq<char> {
    seq!['"'] + json_escaped(s) + seq!['"']
}

/// Relies on `regex::Regex::new`: compiles `pattern`, and fails exactly when the
/// pattern is invalid or too large, which depends on the pattern alone.
#[verifier::external_body]
fn compile_regex(pattern: &str) -> (r: Result<Regex, regex::Error>)
    ensures
        r is Ok == regex_compiles(pattern@),
{
    Regex::new(pattern)
}

/// Relies on `regex::Regex::is_match`: whether the compiled expression of `p`
/// matches somewhere in `text`.  `Pattern::compile`, the only way to build a
/// `Pattern`, compiles `p.source` into `p.regex`.
#[verifier::external_body]
fn regex_is_match(p: &Pattern, text: &str) -> (r: bool)
    ensures
        r == regex_match(p.source(), text@),
{
    p.regex.is_match(text)
}

/// Relies on `str::to_lowercase`: the result depends on the characters of `s` alone.
#[verifier::external_body]
fn to_lower(s: &str) -> (r: String)
    ensures
        r@ == lower_of(s@),
{
    s.to_lowercase()
}

/// Relies on serde_json's `Display` for `Value::String`: the string in quotes,
/// escaped as its serializer escapes strings.
#[verifier::external_body]
fn json_string(s: &str) -> (r: String)
    ensures
        r@ == json_string_text(s@),
{
    serde_json::Value::String(s.to_string()).to_string()
}

/// A pattern that failed to compile.
pub struct PatternError {
    pub pattern: String,
}

/// A compiled regular expression, kept together with its source text.
pub struct Pattern {
    source: String,
    regex: Regex,
}

impl Pattern {
    pub closed spec fn source(&self) -> Seq<char> {
        self.source@
    }

    /// Compiles `source`; on success the pattern remembers that text.
    pub fn compile(source: &str) -> (r: Result<Pattern, PatternError>)
        ensures
            r is Ok == regex_compiles(source@),
            r matches Ok(p) ==> p.source() == source@,
            r matches Err(e) ==> e.pattern@ == source@,
    {
        match compile_regex(source) {
            Ok(regex) => Ok(Pattern { source: source.to_string(), regex }),
            Err(_) => Err(PatternError { pattern: source.to_string() }),
        }
    }

    /// Whether the pattern matches somewhere in `text`.
    pub fn is_match(&self, text: &str) -> (r: bool)
        ensures
            r == regex_match(self.source(), text@),
    {
        regex_is_match(self, text)
    }
}

/// `needle` occurs in `hay` as a run of consecutive characters.
pub open spec fn contains_seq(hay: Seq<char>, needle: Seq<char>) -> bool {
    exists|i: int|
        0 <= i && i + needle.len() <= hay.len() && #[trigger] hay.subrange(i, i + needle.len())
            == needle
}

/// Whether `needle` occurs in `hay` starting at character `at`.
fn occurs_at(hay: &str, needle: &str, at: usize) -> (r: bool)
    requires
        at + needle@.len() <= hay@.len(),
    ensures
        r == (hay@.subrange(at as int, at + needle@.len()) == needle@),
{
    let h = hay.unicode_len();
    let n = needle.unicode_len();
    let mut k: usize = 0;
    while k < n
        invariant
            h == hay@.len(),
            n == needle@.len(),
            at + n <= hay@.len(),
            k <= n,
            forall|m: int| 0 <= m < k ==> hay@[at + m] == needle@[m],
        decreases n - k,
    {
        if hay.get_char(at + k) != needle.get_char(k) {
            assert(hay@.subrange(at as int, at + n)[k as int] != needle@[k as int]);
            return false;
        }
        k = k + 1;
    }
    assert(hay@.subrange(at as int, at + n) =~= needle@);
    true
}

/// Whether `needle` occurs in `hay` as a run of consecutive characters.
pub fn contains_text(hay: &str, needle: &str) -> (r: bool)
    ensures
        r == contains_seq(hay@, needle@),
{
    let h = hay.unicode_len();
    let n = needle.unicode_len();
    if n > h {
        return false;
    }
    let last = h - n;
    let mut i: usize = 0;
    loop
        invariant
            h == hay@.len(),
            n == needle@.len(),
            last == h - n,
            i <= last,
            forall|j: int| 0 <= j < i ==> #[trigger] hay@.subrange(j, j + n) != needle@,
        decreases last - i,
    {
        if occurs_at(hay, needle, i) {
            return true;
        }
        if i == last {
            return false;
        }
        i = i + 1;
    }
}

/// A lower-cased User-Agent names one of the blocked scanner tools.
pub open spec fn agent_flagged(agent_lower: Seq<char>) -> bool {
    contains_seq(agent_lower, "python-requests"@) || contains_seq(agent_lower, "nessus"@)
        || contains_seq(agent_lower, "nmap"@) || contains_seq(agent_lower, "nikto"@)
}

/// Whether an already lower-cased User-Agent names a blocked scanner tool.
pub fn is_flagged_agent_lowered(agent_lower: &str) -> (r: bool)
    ensures
        r == agent_flagged(agent_lower@),
{
    contains_text(agent_lower, "python-requests") || contains_text(agent_lower, "nessus")
        || contains_text(agent_lower, "nmap") || contains_text(agent_lower, "nikto")
}

/// The lower-case form of a User-Agent header value, as it is screened and reported.
pub fn normalize_agent(user_agent: &str) -> (r: String)
    ensures
        r@ == lower_of(user_agent@),
{
    to_lower(user_agent)
}

/// Whether a User-Agent names a blocked scanner tool, ignoring case.
pub fn is_suspicious_agent(user_agent: &str) -> (r: bool)
    ensures
        r == agent_flagged(lower_of(user_agent@)),
{
    let lowered = to_lower(user_agent);
    is_flagged_agent_lowered(lowered.as_str())
}

/// The serialized header set handed to the risk oracle: a JSON object whose
/// one member `user-agent` holds the lower-cased User-Agent.
pub open spec fn oracle_headers_text(agent_lower: Seq<char>) -> Seq<char> {
    "{\"user-agent\":"@ + json_string_text(agent_lower) + "}"@
}

/// Serializes the header set for the risk oracle from a lower-cased User-Agent.
pub fn oracle_headers(agent_lower: &str) -> (r: String)
    ensures
        r@ == oracle_headers_text(agent_lower@),
{
    let quoted = json_string(agent_lower);
    let mut out = String::from_str("{\"user-agent\":");
    out.append(quoted.as_str());
    out.append("}");
    out
}

/// The compiled static-asset and signature patterns, built once and shared
/// read-only by every request.
pub struct SignatureMatcher {
    static_assets: Pattern,
    signatures: Pattern,
}

impl SignatureMatcher {
    /// Both patterns hold the texts they are meant to hold.
    pub closed spec fn wf(&self) -> bool {
        &&& self.static_assets.source() == STATIC_ASSET_PATTERN@
        &&& self.signatures.source() == SIGNATURE_PATTERN@
    }

    /// Compiles the two patterns; fails only where the regex engine rejects one.
    pub fn new() -> (r: Result<SignatureMatcher, PatternError>)
        ensures
            r is Ok == (regex_compiles(STATIC_ASSET_PATTERN@) && regex_compiles(
                SIGNATURE_PATTERN@,
            )),
            r matches Ok(m) ==> m.wf(),
            r matches Err(e) ==> e.pattern@ == STATIC_ASSET_PATTERN@ || e.pattern@
                == SIGNATURE_PATTERN@,
    {
        let static_assets = match Pattern::compile(STATIC_ASSET_PATTERN) {
            Ok(p) => p,
            Err(e) => return Err(e),
        };
        let signatures = match Pattern::compile(SIGNATURE_PATTERN) {
            Ok(p) => p,
            Err(e) => return Err(e),
        };
        Ok(SignatureMatcher { static_assets, signatures })
    }

    /// Whether `path` (without query string) names a static asset.
    pub fn is_static_asset(&self, path: &str) -> (r: bool)
        requires
            self.wf(),
        ensures
            r == regex_match(STATIC_ASSET_PATTERN@, path@),
    {
        self.static_assets.is_match(path)
    }

    /// Whether the path and query `uri` hold an attack signature.
    pub fn matches_signature(&self, uri: &str) -> (r: bool)
        requires
            self.wf(),
        ensures
            r == regex_match(SIGNATURE_PATTERN@, uri@),
    {
        self.signatures.is_match(uri)
    }
}

} // verus!
