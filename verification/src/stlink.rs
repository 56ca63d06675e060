//! Classify an ST-Link open failure that means the debug interface was not claimed.
//! CMSIS-DAP v1 (HID) stays `unsupported`; this kind is only the interface walk.
use vstd::prelude::*;

verus! {

/// USB vendor id of the ST-Link probes.
pub const STLINK_VID: u16 = 0x0483;

/// `c` with the letters `A` to `Z` replaced by `a` to `z`.
pub open spec fn ascii_lower(c: char) -> char {
    if 'A' <= c <= 'Z' {
        (c as u32 + 32) as char
    } else {
        c
    }
}

/// `text` with every character in ASCII lower case.
pub open spec fn lowered(text: Seq<char>) -> Seq<char> {
    text.map_values(|c: char| ascii_lower(c))
}

/// `needle` stands in `haystack` from position `at` on.
pub open spec fn occurs_at(haystack: Seq<char>, needle: Seq<char>, at: int) -> bool {
    &&& 0 <= at
    &&& at + needle.len() <= haystack.len()
    &&& haystack.subrange(at, at + needle.len()) == needle
}

/// `needle` stands somewhere in `haystack`.
pub open spec fn occurs(haystack: Seq<char>, needle: Seq<char>) -> bool {
    exists|at: int| occurs_at(haystack, needle, at)
}

/// The message, read without regard to ASCII case, names a missing endpoint, a
/// missing interface or an interface that could not be claimed.
pub open spec fn names_interface_failure(message: Seq<char>) -> bool {
    ||| occurs(lowered(message), "endpoint not found"@)
    ||| occurs(lowered(message), "endpointnotfound"@)
    ||| occurs(lowered(message), "interface not found"@)
    ||| occurs(lowered(message), "claiminterface"@)
    ||| occurs(lowered(message), "could not be claimed"@)
}

/// The kind under which an open failure is reported.
pub open spec fn open_failure(vendor_id: u16, message: Seq<char>) -> Seq<char> {
    if vendor_id == STLINK_VID && names_interface_failure(message) {
        "stlink-interface"@
    } else {
        "open-failed"@
    }
}

fn lower_char(c: char) -> (lower: char)
    ensures
        lower == ascii_lower(c),
{
    if 'A' <= c && c <= 'Z' {
        (c as u8 + 32) as char
    } else {
        c
    }
}

/// The characters of `text`, in ASCII lower case.
fn lower_chars(text: &str) -> (chars: Vec<char>)
    ensures
        chars@ == lowered(text@),
{
    let mut chars: Vec<char> = Vec::new();
    for c in iter: text.chars()
        invariant
            iter.seq() == text@,
            chars@ == lowered(text@.take(iter.index())),
    {
        chars.push(lower_char(c));
        assert(text@.take(iter.index() + 1) == text@.take(iter.index()).push(c));
    }
    assert(text@.take(text@.len() as int) == text@);
    chars
}

/// The characters of `text`, as they stand.
fn plain_chars(text: &str) -> (chars: Vec<char>)
    ensures
        chars@ == text@,
{
    let mut chars: Vec<char> = Vec::new();
    for c in iter: text.chars()
        invariant
            iter.seq() == text@,
            chars@ == text@.take(iter.index()),
    {
        chars.push(c);
    }
    assert(text@.take(text@.len() as int) == text@);
    chars
}

/// Whether `needle` stands in `haystack` from position `at` on.
fn matches_at(haystack: &Vec<char>, needle: &Vec<char>, at: usize) -> (found: bool)
    requires
        at + needle.len() <= haystack.len(),
    ensures
        found == occurs_at(haystack@, needle@, at as int),
{
    let mut i: usize = 0;
    while i < needle.len()
        invariant
            i <= needle.len(),
            at + needle.len() <= haystack.len(),
            forall|j: int| 0 <= j < i ==> haystack@[at + j] == #[trigger] needle@[j],
        decreases needle.len() - i,
    {
        if haystack[at + i] != needle[i] {
            assert(haystack@.subrange(at as int, at + needle.len())[i as int] != needle@[i as int]);
            return false;
        }
        i += 1;
    }
    assert(haystack@.subrange(at as int, at + needle.len()) =~= needle@);
    true
}

/// Whether `needle` stands somewhere in `haystack`.
fn contains(haystack: &Vec<char>, needle: &str) -> (found: bool)
    ensures
        found == occurs(haystack@, needle@),
{
    let wanted: Vec<char> = plain_chars(needle);
    if wanted.len() > haystack.len() {
        return false;
    }
    let last: usize = haystack.len() - wanted.len();
    let mut at: usize = 0;
    loop
        invariant
            wanted@ == needle@,
            at <= last,
            last + wanted.len() == haystack.len(),
            forall|j: int| 0 <= j < at ==> !#[trigger] occurs_at(haystack@, needle@, j),
        decreases last - at,
    {
        if matches_at(haystack, &wanted, at) {
            return true;
        }
        if at == last {
            return false;
        }
        at += 1;
    }
}

/// Whether a failure message tells that the debug interface of an ST-Link was not
/// found or not claimed. ASCII case does not matter.
pub fn stlink_interface_failure(message: &str) -> (failure: bool)
    ensures
        failure == names_interface_failure(message@),
{
    let message: Vec<char> = lower_chars(message);
    contains(&message, "endpoint not found")
        || contains(&message, "endpointnotfound")
        || contains(&message, "interface not found")
        || contains(&message, "claiminterface")
        || contains(&message, "could not be claimed")
}

/// The kind of an open failure: `stlink-interface` for an ST-Link whose debug
/// interface was not claimed, `open-failed` for everything else.
pub fn open_failure_kind(vendor_id: u16, message: &str) -> (kind: &'static str)
    ensures
        kind@ == open_failure(vendor_id, message@),
{
    if vendor_id == STLINK_VID && stlink_interface_failure(message) {
        "stlink-interface"
    } else {
        "open-failed"
    }
}

/// A failure is retagged exactly when the probe is an ST-Link and the message
/// names its interface: the two kinds are never confused.
pub proof fn law_retagged_iff_stlink_interface(vendor_id: u16, message: Seq<char>)
    ensures
        open_failure(vendor_id, message) == "stlink-interface"@ <==> vendor_id == STLINK_VID
            && names_interface_failure(message),
        open_failure(vendor_id, message) == "open-failed"@ <==> !(vendor_id == STLINK_VID
            && names_interface_failure(message)),
{
    reveal_strlit("stlink-interface");
    reveal_strlit("open-failed");
    assert("stlink-interface"@.len() != "open-failed"@.len());
}

/// Whatever the message, no failure of another vendor's probe is retagged.
pub proof fn law_other_vendors_stay_open_failed(vendor_id: u16, message: Seq<char>)
    requires
        vendor_id != STLINK_VID,
    ensures
        open_failure(vendor_id, message) == "open-failed"@,
{
}

/// Two messages that differ in ASCII case alone are classified alike.
pub proof fn law_case_does_not_matter(vendor_id: u16, a: Seq<char>, b: Seq<char>)
    requires
        a.len() == b.len(),
        forall|i: int| 0 <= i < a.len() ==> ascii_lower(#[trigger] a[i]) == ascii_lower(b[i]),
    ensures
        names_interface_failure(a) == names_interface_failure(b),
        open_failure(vendor_id, a) == open_failure(vendor_id, b),
{
    assert(lowered(a) =~= lowered(b));
}

/// Lowering a message once is enough: a lowered message is classified like the
/// message itself.
pub proof fn law_lowering_is_idempotent(vendor_id: u16, message: Seq<char>)
    ensures
        lowered(lowered(message)) == lowered(message),
        open_failure(vendor_id, lowered(message)) == open_failure(vendor_id, message),
{
    assert(lowered(lowered(message)) =~= lowered(message));
}

/// An error that quotes the message of an interface failure, with any text around
/// it, is an interface failure too.
pub proof fn law_quoting_keeps_the_kind(
    vendor_id: u16,
    before: Seq<char>,
    message: Seq<char>,
    after: Seq<char>,
)
    requires
        names_interface_failure(message),
    ensures
        names_interface_failure(before + message + after),
        open_failure(vendor_id, before + message + after) == open_failure(vendor_id, message),
{
    let quoted = before + message + after;
    assert(lowered(quoted) =~= lowered(before) + lowered(message) + lowered(after));
    assert forall|needle: Seq<char>| occurs(lowered(message), needle) implies occurs(
        lowered(quoted),
        needle,
    ) by {
        let at = choose|at: int| occurs_at(lowered(message), needle, at);
        let moved = before.len() + at;
        assert(lowered(quoted).subrange(moved, moved + needle.len()) =~= lowered(
            message,
        ).subrange(at, at + needle.len()));
        assert(occurs_at(lowered(quoted), needle, moved));
    }
}

} // verus!
