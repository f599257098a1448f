//! The shape of agent addresses.

use vstd::prelude::*;
use vstd::utf8::encode_utf8;

use crate::text::{
    before_first, before_last_segment, behind_last, count_char, ends_with, first_segment, has_char,
    last_segment, occurrences, same, segment_before_last, starts_with,
};

verus! {

/// RFC 5321 `atext` without the dot, which separates persona, profile and
/// system id in an address.
pub open spec fn atext_no_dot(b: u8) -> bool {
    let c = b as char;
    ||| 'A' <= c <= 'Z'
    ||| 'a' <= c <= 'z'
    ||| '0' <= c <= '9'
    ||| c == '!'
    ||| c == '#'
    ||| c == '$'
    ||| c == '%'
    ||| c == '&'
    ||| c == '\''
    ||| c == '*'
    ||| c == '+'
    ||| c == '-'
    ||| c == '/'
    ||| c == '='
    ||| c == '?'
    ||| c == '^'
    ||| c == '_'
    ||| c == '`'
    ||| c == '{'
    ||| c == '|'
    ||| c == '}'
    ||| c == '~'
}

/// Whether a byte is `atext` other than a dot.
pub fn is_atext_no_dot(b: u8) -> (yes: bool)
    ensures
        yes == atext_no_dot(b),
{
    matches!(b as char,
        'A'..='Z' | 'a'..='z' | '0'..='9'
        | '!' | '#' | '$' | '%' | '&' | '\''
        | '*' | '+' | '-' | '/' | '=' | '?'
        | '^' | '_' | '`' | '{' | '|' | '}' | '~'
    )
}

/// The first byte that is not `atext` other than a dot.
pub open spec fn first_illegal(bytes: Seq<u8>) -> Option<u8>
    decreases bytes.len(),
{
    if bytes.len() == 0 {
        None
    } else if !atext_no_dot(bytes[0]) {
        Some(bytes[0])
    } else {
        first_illegal(bytes.skip(1))
    }
}

fn find_illegal(s: &str) -> (bad: Option<u8>)
    ensures
        bad == first_illegal(encode_utf8(s@)),
{
    let bytes = s.as_bytes();
    let mut i: usize = 0;
    assert(bytes@.skip(0) == bytes@);
    while i < bytes.len()
        invariant
            i <= bytes@.len(),
            bytes@ == encode_utf8(s@),
            first_illegal(bytes@) == first_illegal(bytes@.skip(i as int)),
        decreases bytes@.len() - i,
    {
        if !is_atext_no_dot(bytes[i]) {
            return Some(bytes[i]);
        }
        assert(bytes@.skip(i as int).skip(1) == bytes@.skip(i + 1));
        i += 1;
    }
    None
}

/// An upper case hexadecimal digit.
pub open spec fn hex_digit(n: u8) -> char {
    (if n < 10 {
        48 + n
    } else {
        55 + n
    }) as char
}

/// The character with the number of a byte, as text.
pub open spec fn byte_char(b: u8) -> Seq<char> {
    seq![b as char]
}

/// A byte as two upper case hexadecimal digits.
pub open spec fn hex_byte(b: u8) -> Seq<char> {
    seq![hex_digit(b / 16), hex_digit(b % 16)]
}

fn push_hex_digit(text: &mut String, n: u8)
    requires
        n < 16,
    ensures
        final(text)@ == old(text)@.push(hex_digit(n)),
{
    let code: u8 = if n < 10 {
        48 + n
    } else {
        55 + n
    };
    text.push(code as char);
}

/// A detail that names a byte: its character and its hexadecimal value.
pub open spec fn byte_detail(
    head: Seq<char>,
    b: u8,
    middle: Seq<char>,
    tail: Seq<char>,
) -> Seq<char> {
    head + byte_char(b) + middle + hex_byte(b) + tail
}

fn name_byte(head: &str, b: u8, middle: &str, tail: &str) -> (detail: String)
    ensures
        detail@ == byte_detail(head@, b, middle@, tail@),
{
    let mut detail = head.to_owned();
    detail.push(b as char);
    assert(detail@ == head@ + byte_char(b));
    detail.append(middle);
    let ghost so_far = detail@;
    push_hex_digit(&mut detail, b / 16);
    push_hex_digit(&mut detail, b % 16);
    assert(detail@ == so_far + hex_byte(b));
    detail.append(tail);
    detail
}

/// Whether a system keeps its addresses on a shared domain.
pub open spec fn shared_system(system_id: Seq<char>) -> bool {
    "shared-"@.is_prefix_of(system_id)
}

/// Whether a system keeps its addresses on a shared domain.
pub fn is_shared_system(system_id: &str) -> (yes: bool)
    ensures
        yes == shared_system(system_id@),
{
    starts_with(system_id, "shared-")
}

/// A byte of a system id.
pub open spec fn system_id_byte(b: u8) -> bool {
    let c = b as char;
    'a' <= c <= 'z' || '0' <= c <= '9' || c == '-' || c == '_'
}

/// A system id: three to eight bytes of `[a-z0-9_-]`, the first a letter.
pub open spec fn system_id_shape(bytes: Seq<u8>) -> bool {
    &&& 3 <= bytes.len() <= 8
    &&& 'a' <= (bytes[0] as char) <= 'z'
    &&& forall|i: int| 0 <= i < bytes.len() ==> system_id_byte(#[trigger] bytes[i])
}

fn has_system_id_shape(s: &str) -> (yes: bool)
    ensures
        yes == system_id_shape(encode_utf8(s@)),
{
    let bytes = s.as_bytes();
    if bytes.len() < 3 || bytes.len() > 8 || !matches!(bytes[0] as char, 'a'..='z') {
        return false;
    }
    let mut i: usize = 0;
    while i < bytes.len()
        invariant
            i <= bytes@.len(),
            bytes@ == encode_utf8(s@),
            forall|j: int| 0 <= j < i ==> system_id_byte(#[trigger] bytes@[j]),
        decreases bytes@.len() - i,
    {
        if !matches!(bytes[i] as char, 'a'..='z' | '0'..='9' | '-' | '_') {
            assert(!system_id_byte(bytes@[i as int]));
            return false;
        }
        i += 1;
    }
    true
}

/// What is wrong with the local part of an address, if anything.
///
/// On a shared domain it is `profile.system_id`; elsewhere it is a profile
/// without dots. `a2a` is reserved for boards.
pub open spec fn local_part_fault(shared: bool, local: Seq<char>) -> Option<Seq<char>> {
    if !(1 <= encode_utf8(local).len() <= 64) {
        Some("local-part must be 1-64 characters"@)
    } else if shared {
        shared_local_fault(local)
    } else {
        own_local_fault(local)
    }
}

pub open spec fn shared_local_fault(local: Seq<char>) -> Option<Seq<char>> {
    let profile = first_segment(local, '.');
    let system_id = last_segment(local, '.');
    if count_char(local, '.') != 1 {
        Some("shared-domain address must use profile.system_id@domain format"@)
    } else if profile.len() == 0 {
        Some("profile segment must not be empty"@)
    } else if first_illegal(encode_utf8(profile)) is Some {
        Some(
            byte_detail(
                "illegal char in profile: '"@,
                first_illegal(encode_utf8(profile))->0,
                "' (0x"@,
                ")"@,
            ),
        )
    } else if !system_id_shape(encode_utf8(system_id)) {
        Some("system-id must be 3-8 chars, lowercase letter start, [a-z0-9_-] only"@)
    } else if system_id == "a2a"@ {
        Some("'a2a' is a reserved system-id"@)
    } else {
        None
    }
}

pub open spec fn own_local_fault(local: Seq<char>) -> Option<Seq<char>> {
    if ".a2a"@.is_suffix_of(local) {
        Some("'.a2a@' is reserved for board addresses"@)
    } else if count_char(local, '.') != 0 {
        Some("non-shared address must not contain dots"@)
    } else if first_illegal(encode_utf8(local)) is Some {
        Some(
            byte_detail(
                "illegal character '"@,
                first_illegal(encode_utf8(local))->0,
                "' in local-part (0x"@,
                ")"@,
            ),
        )
    } else {
        None
    }
}

fn check_shared_local(local: &str) -> (fault: Option<String>)
    ensures
        fault.deep_view() == shared_local_fault(local@),
{
    if occurrences(local, '.') != 1 {
        return Some(
            "shared-domain address must use profile.system_id@domain format".to_string(),
        );
    }
    let profile = before_first(local, '.');
    let system_id = behind_last(local, '.');
    if profile.is_empty() {
        return Some("profile segment must not be empty".to_string());
    }
    if let Some(bad) = find_illegal(profile) {
        return Some(name_byte("illegal char in profile: '", bad, "' (0x", ")"));
    }
    if !has_system_id_shape(system_id) {
        return Some(
            "system-id must be 3-8 chars, lowercase letter start, [a-z0-9_-] only".to_string(),
        );
    }
    if same(system_id, "a2a") {
        return Some("'a2a' is a reserved system-id".to_string());
    }
    None
}

fn check_own_local(local: &str) -> (fault: Option<String>)
    ensures
        fault.deep_view() == own_local_fault(local@),
{
    if ends_with(local, ".a2a") {
        return Some("'.a2a@' is reserved for board addresses".to_string());
    }
    if occurrences(local, '.') != 0 {
        return Some("non-shared address must not contain dots".to_string());
    }
    if let Some(bad) = find_illegal(local) {
        return Some(name_byte("illegal character '", bad, "' in local-part (0x", ")"));
    }
    None
}

/// What is wrong with the local part of an address, if anything.
pub fn check_local_part(shared: bool, local: &str) -> (fault: Option<String>)
    ensures
        fault.deep_view() == local_part_fault(shared, local@),
{
    let len: usize = local.as_bytes().len();
    if len == 0 || len > 64 {
        Some("local-part must be 1-64 characters".to_string())
    } else if shared {
        check_shared_local(local)
    } else {
        check_own_local(local)
    }
}

/// The bare domain of an address.
pub open spec fn bare_domain(email: Seq<char>) -> Seq<char> {
    last_segment(email, '@')
}

/// What is wrong with an address that a system is to register, if anything.
pub open spec fn address_fault(system_id: Seq<char>, email: Seq<char>) -> Option<Seq<char>> {
    if bare_domain(email).len() == 0 || !email.contains('@') {
        Some("email must be a valid agent@domain address"@)
    } else {
        local_part_fault(shared_system(system_id), segment_before_last(email, '@'))
    }
}

/// What is wrong with an address that a system is to register, if anything.
pub fn check_address(system_id: &str, email: &str) -> (fault: Option<String>)
    ensures
        fault.deep_view() == address_fault(system_id@, email@),
{
    if behind_last(email, '@').is_empty() || !has_char(email, '@') {
        Some("email must be a valid agent@domain address".to_string())
    } else {
        check_local_part(is_shared_system(system_id), before_last_segment(email, '@'))
    }
}

/// The domain record under which an address is registered: the bare domain, or
/// on a shared domain the anchor `system_id@domain`.
pub open spec fn anchor(system_id: Seq<char>, email: Seq<char>) -> Seq<char> {
    if shared_system(system_id) {
        last_segment(segment_before_last(email, '@'), '.') + "@"@ + bare_domain(email)
    } else {
        bare_domain(email)
    }
}

/// The domain record under which an address is registered.
pub fn anchor_of(system_id: &str, email: &str) -> (key: String)
    ensures
        key@ == anchor(system_id@, email@),
{
    if is_shared_system(system_id) {
        let mut key = behind_last(before_last_segment(email, '@'), '.').to_owned();
        key.append("@");
        key.append(behind_last(email, '@'));
        key
    } else {
        behind_last(email, '@').to_owned()
    }
}

} // verus!
