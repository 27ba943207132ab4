//! Character-level validation of the identifiers that end up inside ref names
//! and commit messages: ULIDs, event types, namespaces, actors and topics.
use vstd::prelude::*;

verus! {

/// Upper bound on the length of a namespace.
pub const MAX_NS_LEN: usize = 64;

/// Upper bound on the length of an actor.
pub const MAX_ACTOR_LEN: usize = 128;

/// Upper bound on the length of an event type.
pub const MAX_EVENT_TYPE_LEN: usize = 64;

/// Length of every ULID.
pub const ULID_LEN: usize = 26;

/// `0-9 A-H J-N P-T V-Z`: the uppercase Crockford base32 alphabet.
pub open spec fn is_crockford_char(c: char) -> bool {
    ('0' <= c && c <= '9') || ('A' <= c && c <= 'H') || ('J' <= c && c <= 'N') || ('P' <= c
        && c <= 'T') || ('V' <= c && c <= 'Z')
}

/// ASCII letters and digits.
pub open spec fn is_alnum_char(c: char) -> bool {
    ('0' <= c && c <= '9') || ('A' <= c && c <= 'Z') || ('a' <= c && c <= 'z')
}

/// Characters allowed in one ref-name segment: ASCII alphanumerics, `-` and `_`.
pub open spec fn is_segment_char(c: char) -> bool {
    is_alnum_char(c) || c == '-' || c == '_'
}

/// Characters allowed in an event type: ASCII alphanumerics, `.`, `-` and `_`.
pub open spec fn is_event_type_char(c: char) -> bool {
    is_alnum_char(c) || c == '.' || c == '-' || c == '_'
}

/// Characters allowed in a consumer group: segment characters and `/`.
pub open spec fn is_group_char(c: char) -> bool {
    is_segment_char(c) || c == '/'
}

/// Exactly 26 characters of the Crockford alphabet.
pub open spec fn is_ulid(s: Seq<char>) -> bool {
    s.len() == ULID_LEN && forall|i: int| 0 <= i < s.len() ==> is_crockford_char(#[trigger] s[i])
}

/// 1 to 64 characters, each alphanumeric or one of `.`, `-`, `_`.
pub open spec fn is_event_type(s: Seq<char>) -> bool {
    1 <= s.len() <= MAX_EVENT_TYPE_LEN && forall|i: int|
        0 <= i < s.len() ==> is_event_type_char(#[trigger] s[i])
}

/// Non-empty, at most `max` characters, each a segment character.
pub open spec fn is_ref_segment(s: Seq<char>, max: nat) -> bool {
    1 <= s.len() <= max && forall|i: int| 0 <= i < s.len() ==> is_segment_char(#[trigger] s[i])
}

/// A namespace: a ref segment of at most 64 characters.
pub open spec fn is_namespace(s: Seq<char>) -> bool {
    is_ref_segment(s, MAX_NS_LEN as nat)
}

/// An actor: a ref segment of at most 128 characters.
pub open spec fn is_actor(s: Seq<char>) -> bool {
    is_ref_segment(s, MAX_ACTOR_LEN as nat)
}

/// A topic name: one or more `/`-separated segments, each non-empty and made of
/// segment characters (so `.` and `..` never form a segment). Stated on
/// characters: no leading or trailing `/`, and no two `/` in a row.
pub open spec fn is_topic_name(s: Seq<char>) -> bool {
    &&& s.len() > 0
    &&& s[0] != '/'
    &&& s[s.len() - 1] != '/'
    &&& forall|i: int| 0 <= i < s.len() ==> is_group_char(#[trigger] s[i])
    &&& forall|i: int| 0 <= i < s.len() - 1 ==> !(#[trigger] s[i] == '/' && s[i + 1] == '/')
}

/// A consumer group: non-empty, made of segment characters and `/`.
pub open spec fn is_group_name(s: Seq<char>) -> bool {
    s.len() > 0 && forall|i: int| 0 <= i < s.len() ==> is_group_char(#[trigger] s[i])
}

enum CharClass {
    Crockford,
    Segment,
    EventType,
    Group,
}

spec fn class_allows(class: CharClass, c: char) -> bool {
    match class {
        CharClass::Crockford => is_crockford_char(c),
        CharClass::Segment => is_segment_char(c),
        CharClass::EventType => is_event_type_char(c),
        CharClass::Group => is_group_char(c),
    }
}

fn alnum(c: char) -> (r: bool)
    ensures
        r == is_alnum_char(c),
{
    ('0' <= c && c <= '9') || ('A' <= c && c <= 'Z') || ('a' <= c && c <= 'z')
}

fn allows(class: &CharClass, c: char) -> (r: bool)
    ensures
        r == class_allows(*class, c),
{
    match class {
        CharClass::Crockford => ('0' <= c && c <= '9') || ('A' <= c && c <= 'H') || ('J' <= c
            && c <= 'N') || ('P' <= c && c <= 'T') || ('V' <= c && c <= 'Z'),
        CharClass::Segment => alnum(c) || c == '-' || c == '_',
        CharClass::EventType => alnum(c) || c == '.' || c == '-' || c == '_',
        CharClass::Group => alnum(c) || c == '-' || c == '_' || c == '/',
    }
}

/// Whether every character of `s` belongs to `class`, and how many there are.
fn scan(s: &str, class: CharClass) -> (r: (bool, usize))
    ensures
        r.1 == s@.len(),
        r.0 == forall|i: int| 0 <= i < s@.len() ==> class_allows(class, #[trigger] s@[i]),
{
    let n = s.unicode_len();
    let mut i: usize = 0;
    while i < n
        invariant
            n == s@.len(),
            i <= n,
            forall|j: int| 0 <= j < i ==> class_allows(class, #[trigger] s@[j]),
        decreases n - i,
    {
        let c = s.get_char(i);
        if !allows(&class, c) {
            return (false, n);
        }
        i = i + 1;
    }
    (true, n)
}

/// Whether `s` is a valid ULID.
pub fn is_valid_ulid(s: &str) -> (r: bool)
    ensures
        r == is_ulid(s@),
{
    let (ok, n) = scan(s, CharClass::Crockford);
    n == ULID_LEN && ok
}

/// Whether `s` is a valid event type.
pub fn is_valid_event_type(s: &str) -> (r: bool)
    ensures
        r == is_event_type(s@),
{
    let (ok, n) = scan(s, CharClass::EventType);
    1 <= n && n <= MAX_EVENT_TYPE_LEN && ok
}

/// Whether `s` is a valid topic name.
pub fn is_valid_topic_name(s: &str) -> (r: bool)
    ensures
        r == is_topic_name(s@),
{
    let (ok, n) = scan(s, CharClass::Group);
    if n == 0 || !ok {
        return false;
    }
    if s.get_char(0) == '/' || s.get_char(n - 1) == '/' {
        return false;
    }
    let mut i: usize = 0;
    while i + 1 < n
        invariant
            n == s@.len(),
            n > 0,
            i < n,
            forall|j: int| 0 <= j < i && j < n - 1 ==> !(#[trigger] s@[j] == '/' && s@[j + 1] == '/'),
        decreases n - i,
    {
        if s.get_char(i) == '/' && s.get_char(i + 1) == '/' {
            return false;
        }
        i = i + 1;
    }
    true
}

/// Whether `s` is a valid consumer group name.
pub fn is_valid_group_name(s: &str) -> (r: bool)
    ensures
        r == is_group_name(s@),
{
    let (ok, n) = scan(s, CharClass::Group);
    n > 0 && ok
}

fn ref_segment_ok(s: &str, max: usize) -> (r: Result<(), u8>)
    ensures
        r is Ok <==> is_ref_segment(s@, max as nat),
{
    let (ok, n) = scan(s, CharClass::Segment);
    if n == 0 {
        Err(0)
    } else if n > max {
        Err(1)
    } else if !ok {
        Err(2)
    } else {
        Ok(())
    }
}

/// `prefix + middle + suffix` as a new string.
pub fn concat3(prefix: &str, middle: &str, suffix: &str) -> (r: String)
    ensures
        r@ == prefix@ + middle@ + suffix@,
{
    let mut r = String::from_str(prefix);
    r.append(middle);
    r.append(suffix);
    r
}

/// `s` begins with `prefix`.
pub open spec fn starts_with(s: Seq<char>, prefix: Seq<char>) -> bool {
    prefix.len() <= s.len() && s.subrange(0, prefix.len() as int) == prefix
}

fn lead(what: &str, rest: &str) -> (r: String)
    ensures
        r@ == what@ + rest@,
        starts_with(r@, what@),
{
    let mut r = String::from_str(what);
    r.append(rest);
    assert(r@.subrange(0, what@.len() as int) =~= what@);
    r
}

/// The error of an identifier `value` of kind `what`; it begins with `what`.
fn identifier_error(what: &str, value: &str, code: u8) -> (r: String)
    ensures
        starts_with(r@, what@),
{
    if code == 0 {
        lead(what, " cannot be empty")
    } else if code == 1 {
        lead(what, " exceeds max length")
    } else {
        let tail = concat3(" '", value, "': only alphanumeric, hyphen, underscore allowed");
        lead(what, tail.as_str())
    }
}

/// Checks a ULID: exactly 26 characters of the uppercase Crockford alphabet.
pub fn validate_ulid(ulid: &str) -> (r: Result<(), String>)
    ensures
        r is Ok <==> is_ulid(ulid@),
        r is Err ==> starts_with(r->Err_0@, "ulid"@),
{
    if is_valid_ulid(ulid) {
        Ok(())
    } else {
        let tail = concat3(" '", ulid, "': must be 26 uppercase Crockford base32 characters");
        Err(lead("ulid", tail.as_str()))
    }
}

/// Checks an event type: 1 to 64 characters, alphanumerics and `.`, `-`, `_`
/// (so no newline or control character can reach a commit message).
pub fn validate_event_type(event_type: &str) -> (r: Result<(), String>)
    ensures
        r is Ok <==> is_event_type(event_type@),
        r is Err ==> starts_with(r->Err_0@, "event_type"@),
{
    if is_valid_event_type(event_type) {
        Ok(())
    } else {
        let tail = concat3(" '", event_type, "': 1 to 64 characters of alphanumerics, '.', '-', '_'");
        Err(lead("event_type", tail.as_str()))
    }
}

/// Checks a journal namespace before it is placed in a ref name.
pub fn validate_namespace(ns: &str) -> (r: Result<(), String>)
    ensures
        r is Ok <==> is_namespace(ns@),
        r is Err ==> starts_with(r->Err_0@, "namespace"@),
{
    match ref_segment_ok(ns, MAX_NS_LEN) {
        Ok(()) => Ok(()),
        Err(code) => Err(identifier_error("namespace", ns, code)),
    }
}

/// Checks a journal actor before it is placed in a ref name.
pub fn validate_actor(actor: &str) -> (r: Result<(), String>)
    ensures
        r is Ok <==> is_actor(actor@),
        r is Err ==> starts_with(r->Err_0@, "actor"@),
{
    match ref_segment_ok(actor, MAX_ACTOR_LEN) {
        Ok(()) => Ok(()),
        Err(code) => Err(identifier_error("actor", actor, code)),
    }
}

} // verus!
