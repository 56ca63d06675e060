//! How failures are told, and told apart.
use vstd::prelude::*;

use crate::rejection::{deliver, error, Rejection};
use crate::stlink::{
    ascii_lower, lowered, names_interface_failure, occurs, occurs_at, open_failure_kind,
    stlink_interface_failure,
};

verus! {

/// `text`, from position `at` on, reads `phrase`; a capital letter reads like its small one.
pub open spec fn reads_as(text: Seq<char>, phrase: Seq<char>, at: int) -> bool {
    &&& 0 <= at
    &&& at + phrase.len() <= text.len()
    &&& forall|j: int|
        #![trigger phrase[j]]
        #![trigger text[at + j]]
        0 <= j < phrase.len() ==> {
            ||| text[at + j] == phrase[j] && !('A' <= phrase[j] <= 'Z')
            ||| 'A' <= text[at + j] <= 'Z' && text[at + j] as int + 32 == phrase[j] as int
        }
}

/// `phrase` can be read somewhere in `text`.
pub open spec fn reads(text: Seq<char>, phrase: Seq<char>) -> bool {
    exists|at: int| reads_as(text, phrase, at)
}

proof fn lemma_occurs_at_iff_reads(message: Seq<char>, phrase: Seq<char>, at: int)
    ensures
        occurs_at(lowered(message), phrase, at) <==> reads_as(message, phrase, at),
{
    let text = lowered(message);
    if occurs_at(text, phrase, at) {
        assert forall|j: int| 0 <= j < phrase.len() implies {
            ||| message[at + j] == phrase[j] && !('A' <= phrase[j] <= 'Z')
            ||| 'A' <= message[at + j] <= 'Z' && message[at + j] as int + 32 == phrase[j] as int
        } by {
            assert(text.subrange(at, at + phrase.len())[j] == text[at + j]);
            assert(text[at + j] == ascii_lower(message[at + j]));
        }
    }
    if reads_as(message, phrase, at) {
        assert forall|j: int| 0 <= j < phrase.len() implies text.subrange(
            at,
            at + phrase.len(),
        )[j] == phrase[j] by {
            assert(text[at + j] == ascii_lower(message[at + j]));
        }
        assert(text.subrange(at, at + phrase.len()) =~= phrase);
    }
}

proof fn lemma_occurs_iff_reads(message: Seq<char>, phrase: Seq<char>)
    ensures
        occurs(lowered(message), phrase) <==> reads(message, phrase),
{
    if occurs(lowered(message), phrase) {
        let at = choose|at: int| occurs_at(lowered(message), phrase, at);
        lemma_occurs_at_iff_reads(message, phrase, at);
    }
    if reads(message, phrase) {
        let at = choose|at: int| reads_as(message, phrase, at);
        lemma_occurs_at_iff_reads(message, phrase, at);
    }
}

/// A message names an interface failure exactly where one of the phrases can be read in it.
pub(crate) proof fn lemma_named_iff_read(message: Seq<char>)
    ensures
        names_interface_failure(message) <==> {
            ||| reads(message, "endpoint not found"@)
            ||| reads(message, "endpointnotfound"@)
            ||| reads(message, "interface not found"@)
            ||| reads(message, "claiminterface"@)
            ||| reads(message, "could not be claimed"@)
        },
{
    lemma_occurs_iff_reads(message, "endpoint not found"@);
    lemma_occurs_iff_reads(message, "endpointnotfound"@);
    lemma_occurs_iff_reads(message, "interface not found"@);
    lemma_occurs_iff_reads(message, "claiminterface"@);
    lemma_occurs_iff_reads(message, "could not be claimed"@);
}

/// A message tells of an interface failure exactly where one of five phrases can be read in
/// it, in any letter case and with any text around it.
pub proof fn law_interface_failures(message: &str, failure: bool)
    requires
        call_ensures(stlink_interface_failure, (message,), failure),
    ensures
        failure <==> {
            ||| reads(message@, "endpoint not found"@)
            ||| reads(message@, "endpointnotfound"@)
            ||| reads(message@, "interface not found"@)
            ||| reads(message@, "claiminterface"@)
            ||| reads(message@, "could not be claimed"@)
        },
{
    lemma_named_iff_read(message@);
}

/// An open failure is told as one of the interface for an ST-Link and such a message, and as
/// a plain one for any other vendor or message.
pub proof fn law_open_failure_kinds(
    vendor_id: u16,
    message: &str,
    failure: bool,
    kind: &'static str,
)
    requires
        call_ensures(stlink_interface_failure, (message,), failure),
        call_ensures(open_failure_kind, (vendor_id, message), kind),
    ensures
        vendor_id == 0x0483 && failure ==> kind@ == "stlink-interface"@,
        vendor_id != 0x0483 || !failure ==> kind@ == "open-failed"@,
{
}

/// A rejection carries the kind and the message that it is made with, and says nothing of a
/// reset.
pub proof fn law_rejections(kind: &str, message: String, rejection: Rejection)
    requires
        call_ensures(error, (kind, message), rejection),
    ensures
        rejection.kind@ == kind@,
        rejection.message@ == message@,
        rejection.connect_under_reset is None,
{
}

/// A listener hears of every event that could be converted, as it is; nobody hears of one
/// that could not, or where no one listens.
pub proof fn law_delivery<V, E>(has_listener: bool, event: Result<V, E>, delivered: Option<V>)
    requires
        call_ensures(deliver::<V, E>, (has_listener, event), delivered),
    ensures
        delivered is Some <==> has_listener && event is Ok,
        delivered is Some ==> delivered->0 == event->Ok_0,
{
}

} // verus!
