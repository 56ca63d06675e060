//! What a running target says: RTT channels and semihosting.
use vstd::prelude::*;

verus! {

/// An event of a monitor or test run.
#[derive(Debug, PartialEq, Eq)]
pub enum MonitorEvent<W> {
    /// The RTT control block was found; its channels.
    RttDiscovered { up_channels: Vec<W>, down_channels: Vec<W> },
    /// Bytes from an up channel.
    RttOutput { channel: u32, bytes: Vec<u8> },
    /// Console output through semihosting.
    Semihosting { stream: String, data: String },
}

/// What an event is handed on as.
#[derive(Debug, PartialEq, Eq)]
pub enum MonitorOutput<W> {
    Discovered { up: Vec<W>, down: Vec<W> },
    /// Bytes for the RTT client's decoders, whose output is handed on.
    Decode { channel: u32, bytes: Vec<u8> },
    /// Bytes that nothing decodes.
    Bytes { channel: u32, bytes: Vec<u8> },
    Semihosting { stream: String, data: String },
}

/// What `event` is handed on as, in a session with or without an RTT client.
pub open spec fn rendered<W>(event: MonitorEvent<W>, has_rtt_client: bool) -> MonitorOutput<W> {
    match event {
        MonitorEvent::RttDiscovered { up_channels, down_channels } => MonitorOutput::Discovered {
            up: up_channels,
            down: down_channels,
        },
        MonitorEvent::RttOutput { channel, bytes } => if has_rtt_client {
            MonitorOutput::Decode { channel, bytes }
        } else {
            MonitorOutput::Bytes { channel, bytes }
        },
        MonitorEvent::Semihosting { stream, data } => MonitorOutput::Semihosting { stream, data },
    }
}

impl<W> MonitorOutput<W> {
    /// The `kind` under which the output is handed on; `None` where the decoders say it.
    pub open spec fn kind_spec(self) -> Option<Seq<char>> {
        match self {
            MonitorOutput::Discovered { .. } => Some("rtt-discovered"@),
            MonitorOutput::Decode { .. } => None,
            MonitorOutput::Bytes { .. } => Some("bytes"@),
            MonitorOutput::Semihosting { .. } => Some("semihosting"@),
        }
    }

    /// The `kind` under which the output is handed on; `None` where the decoders say it.
    pub fn kind(&self) -> (kind: Option<&'static str>)
        ensures
            match kind {
                Some(kind) => self.kind_spec() == Some(kind@),
                None => self.kind_spec() is None,
            },
    {
        match self {
            MonitorOutput::Discovered { .. } => Some("rtt-discovered"),
            MonitorOutput::Decode { .. } => None,
            MonitorOutput::Bytes { .. } => Some("bytes"),
            MonitorOutput::Semihosting { .. } => Some("semihosting"),
        }
    }
}

/// What reading one up channel gave.
#[derive(Debug, PartialEq, Eq)]
pub struct PollResult {
    pub channel: u32,
    /// The bytes, or the message of the failure.
    pub result: Result<Vec<u8>, String>,
}

/// What a poll hands on.
#[derive(Debug, PartialEq, Eq)]
pub enum PollOutput {
    /// Bytes for the RTT client's decoders, whose output is handed on.
    Decode { channel: u32, bytes: Vec<u8> },
    /// A failed read.
    Error { channel: u32, message: String },
}

impl PollOutput {
    /// The `kind` under which the output is handed on; `None` where the decoders say it.
    pub open spec fn kind_spec(self) -> Option<Seq<char>> {
        match self {
            PollOutput::Decode { .. } => None,
            PollOutput::Error { .. } => Some("error"@),
        }
    }

    /// The `kind` under which the output is handed on; `None` where the decoders say it.
    pub fn kind(&self) -> (kind: Option<&'static str>)
        ensures
            match kind {
                Some(kind) => self.kind_spec() == Some(kind@),
                None => self.kind_spec() is None,
            },
    {
        match self {
            PollOutput::Decode { .. } => None,
            PollOutput::Error { .. } => Some("error"),
        }
    }
}

/// What comes of one result; nothing where the channel had nothing new.
pub open spec fn poll_output(result: PollResult) -> Option<PollOutput> {
    match result.result {
        Ok(bytes) => if bytes@.len() == 0 {
            None
        } else {
            Some(PollOutput::Decode { channel: result.channel, bytes })
        },
        Err(message) => Some(PollOutput::Error { channel: result.channel, message }),
    }
}

/// What comes of the results of a poll, in their order.
pub open spec fn poll_outputs(results: Seq<PollResult>) -> Seq<PollOutput>
    decreases results.len(),
{
    if results.len() == 0 {
        Seq::empty()
    } else {
        let before = poll_outputs(results.drop_last());
        match poll_output(results.last()) {
            Some(output) => before.push(output),
            None => before,
        }
    }
}

/// The output `output` became `value`. Bytes go to the decoders, from `before` to `after`; a
/// failed read leaves the decoders alone.
pub open spec fn output_rendered<
    D,
    V,
    E,
    F: Fn(D, u32, Vec<u8>) -> (D, Result<V, E>),
    G: Fn(u32, String) -> Result<V, E>,
>(
    decode: F,
    report: G,
    before: D,
    output: PollOutput,
    after: D,
    value: Result<V, E>,
) -> bool {
    match output {
        PollOutput::Decode { channel, bytes } => call_ensures(
            decode,
            (before, channel, bytes),
            (after, value),
        ),
        PollOutput::Error { channel, message } => {
            &&& after == before
            &&& call_ensures(report, (channel, message), value)
        },
    }
}

/// The first outputs of a poll became `values`, one after the other: `states` are the
/// decoders before each of them, and after the last.
pub open spec fn rendered_in_turn<
    D,
    V,
    E,
    F: Fn(D, u32, Vec<u8>) -> (D, Result<V, E>),
    G: Fn(u32, String) -> Result<V, E>,
>(decode: F, report: G, states: Seq<D>, outputs: Seq<PollOutput>, values: Seq<V>) -> bool {
    &&& values.len() <= outputs.len()
    &&& states.len() == values.len() + 1
    &&& forall|i: int|
        #![trigger outputs[i]]
        #![trigger values[i]]
        0 <= i < values.len() ==> output_rendered(
            decode,
            report,
            states[i],
            outputs[i],
            states[i + 1],
            Ok::<V, E>(values[i]),
        )
}

/// All of `outputs` became `values`, which took the decoders from `before` to `after`.
pub open spec fn all_rendered<
    D,
    V,
    E,
    F: Fn(D, u32, Vec<u8>) -> (D, Result<V, E>),
    G: Fn(u32, String) -> Result<V, E>,
>(
    decode: F,
    report: G,
    before: D,
    outputs: Seq<PollOutput>,
    values: Seq<V>,
    after: D,
) -> bool {
    exists|states: Seq<D>|
        {
            &&& #[trigger] rendered_in_turn(decode, report, states, outputs, values)
            &&& values.len() == outputs.len()
            &&& states.first() == before
            &&& states.last() == after
        }
}

/// Some of `outputs` became values, and the next one failed with `error`, which left the
/// decoders at `after`.
pub open spec fn rendering_failed<
    D,
    V,
    E,
    F: Fn(D, u32, Vec<u8>) -> (D, Result<V, E>),
    G: Fn(u32, String) -> Result<V, E>,
>(
    decode: F,
    report: G,
    before: D,
    outputs: Seq<PollOutput>,
    error: E,
    after: D,
) -> bool {
    exists|states: Seq<D>, values: Seq<V>|
        {
            &&& #[trigger] rendered_in_turn(decode, report, states, outputs, values)
            &&& values.len() < outputs.len()
            &&& states.first() == before
            &&& output_rendered(
                decode,
                report,
                states.last(),
                outputs[values.len() as int],
                after,
                Err::<V, E>(error),
            )
        }
}

/// The decoders change only where something is decoded: a failed read leaves them as they
/// were, and so does a poll in which every read failed.
pub proof fn law_failed_reads_keep_the_decoders<
    D,
    V,
    E,
    F: Fn(D, u32, Vec<u8>) -> (D, Result<V, E>),
    G: Fn(u32, String) -> Result<V, E>,
>(decode: F, report: G, states: Seq<D>, outputs: Seq<PollOutput>, values: Seq<V>)
    requires
        rendered_in_turn(decode, report, states, outputs, values),
    ensures
        forall|i: int|
            0 <= i < values.len() && (#[trigger] outputs[i]) is Error ==> states[i + 1]
                == states[i],
        (forall|i: int| 0 <= i < values.len() ==> (#[trigger] outputs[i]) is Error)
            ==> states.last() == states.first(),
    decreases values.len(),
{
    if values.len() > 0 {
        law_failed_reads_keep_the_decoders(
            decode,
            report,
            states.drop_last(),
            outputs,
            values.drop_last(),
        );
        assert(outputs[values.len() - 1] is Error ==> states.last() == states[values.len() - 1]);
    }
}

/// A poll hands on what its parts would, one after the other: each result counts on its
/// own, and the order is kept.
pub proof fn law_poll_in_order(first: Seq<PollResult>, second: Seq<PollResult>)
    ensures
        poll_outputs(first + second) == poll_outputs(first) + poll_outputs(second),
    decreases second.len(),
{
    if second.len() == 0 {
        assert(first + second =~= first);
    } else {
        law_poll_in_order(first, second.drop_last());
        assert((first + second).drop_last() =~= first + second.drop_last());
    }
}

/// Every channel that had something to say is heard, and no other: a result leads to an
/// output of its own exactly where the read failed or gave bytes.
pub proof fn law_poll_omits_only_quiet_channels(results: Seq<PollResult>)
    ensures
        forall|i: int|
            0 <= i < results.len() && !((#[trigger] results[i]).result matches Ok(bytes)
                && bytes@.len() == 0) ==> poll_output(results[i]) is Some
                && poll_outputs(results).contains(poll_output(results[i])->0),
        forall|j: int|
            0 <= j < poll_outputs(results).len() ==> exists|i: int|
                0 <= i < results.len() && #[trigger] poll_output(results[i]) == Some(
                    #[trigger] poll_outputs(results)[j],
                ),
        poll_outputs(results).len() <= results.len(),
    decreases results.len(),
{
    if results.len() > 0 {
        let before = results.drop_last();
        law_poll_omits_only_quiet_channels(before);
        let outputs = poll_outputs(results);
        assert forall|i: int|
            0 <= i < results.len() && !((#[trigger] results[i]).result matches Ok(bytes)
                && bytes@.len() == 0) implies poll_output(results[i]) is Some
            && outputs.contains(poll_output(results[i])->0) by {
            if i < before.len() {
                assert(before[i] == results[i]);
                let j = choose|j: int|
                    0 <= j < poll_outputs(before).len() && poll_outputs(before)[j] == poll_output(
                        before[i],
                    )->0;
                assert(outputs[j] == poll_output(results[i])->0);
            } else {
                assert(outputs.last() == poll_output(results[i])->0);
            }
        }
        assert forall|j: int| 0 <= j < outputs.len() implies exists|i: int|
            0 <= i < results.len() && #[trigger] poll_output(results[i]) == Some(
                #[trigger] outputs[j],
            ) by {
            if j < poll_outputs(before).len() {
                let i = choose|i: int|
                    0 <= i < before.len() && #[trigger] poll_output(before[i]) == Some(
                        poll_outputs(before)[j],
                    );
                assert(poll_output(results[i]) == Some(outputs[j]));
            } else {
                assert(poll_output(results[results.len() - 1]) == Some(outputs[j]));
            }
        }
    }
}

/// A poll that finds nothing new on any channel hands on nothing.
pub proof fn law_quiet_poll_is_empty(results: Seq<PollResult>)
    requires
        forall|i: int|
            0 <= i < results.len() ==> ((#[trigger] results[i]).result matches Ok(bytes)
                && bytes@.len() == 0),
    ensures
        poll_outputs(results) == Seq::<PollOutput>::empty(),
    decreases results.len(),
{
    if results.len() > 0 {
        assert(results.last() == results[results.len() - 1]);
        law_quiet_poll_is_empty(results.drop_last());
    }
}

/// Only RTT output depends on the RTT client: other events are handed on alike with and
/// without one, and the bytes of RTT output are handed on either way.
pub proof fn law_only_rtt_output_is_decoded<W>(event: MonitorEvent<W>)
    ensures
        !(event is RttOutput) ==> rendered(event, true) == rendered(event, false),
        event matches MonitorEvent::RttOutput { channel, bytes } ==> {
            &&& rendered(event, true) == (MonitorOutput::<W>::Decode { channel, bytes })
            &&& rendered(event, false) == (MonitorOutput::<W>::Bytes { channel, bytes })
        },
{
}

} // verus!
