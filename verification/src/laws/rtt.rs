//! The RTT client of a session, and what a running target says.
use vstd::prelude::*;

use crate::monitor::{
    all_rendered, law_poll_in_order, output_rendered, poll_output, poll_outputs,
    rendered_in_turn, rendering_failed, MonitorEvent, MonitorOutput, PollOutput, PollResult,
};
use crate::ops::{RttClientRequest, SessionCall};
use crate::rejection::Rejection;
use crate::session::{defmt_outcome, elf_set, reports_defmt, MonitorFlags, ProbeWebSession};

verus! {

/// An RTT client is asked for in the session, with the scan region and the configurations
/// that the caller gave.
pub proof fn law_rtt_client_request<K: Copy, D, W>(
    session: ProbeWebSession<K, D>,
    scan_region: W,
    configs: Vec<W>,
    default_config: W,
    request: RttClientRequest<K, W>,
)
    requires
        call_ensures(
            ProbeWebSession::<K, D>::create_rtt_client::<W>,
            (&session, scan_region, configs, default_config),
            request,
        ),
    ensures
        request.session == session.key(),
        request.scan_region == scan_region,
        request.configs == configs,
        request.default_config == default_config,
{
}

/// Once the server created an RTT client, the session uses that one, whatever it had before,
/// with decoders built from the configurations that were sent. Where the server did not, the
/// failure is handed on and the session keeps the client it had.
pub proof fn law_rtt_client_created<K: Copy, D, W, F: FnOnce(Vec<W>, W) -> D>(
    session: &mut ProbeWebSession<K, D>,
    request: RttClientRequest<K, W>,
    reply: Result<(K, W), Rejection>,
    build: F,
    answer: Result<W, Rejection>,
)
    requires
        call_ensures(
            ProbeWebSession::<K, D>::rtt_client_created::<W, F>,
            (session, request, reply, build),
            answer,
        ),
    ensures
        final(session).key() == old(session).key(),
        answer is Ok <==> reply is Ok,
        reply is Ok ==> {
            &&& answer->Ok_0 == reply->Ok_0.1
            &&& final(session).rtt() is Some
            &&& final(session).rtt()->0.key == reply->Ok_0.0
            &&& call_ensures(
                build,
                (request.configs, request.default_config),
                final(session).rtt()->0.decoders,
            )
        },
        reply is Err ==> {
            &&& answer->Err_0 == reply->Err_0
            &&& final(session).rtt() == old(session).rtt()
        },
{
}

/// A session whose RTT client was cleared has none, and is otherwise the same.
pub proof fn law_rtt_client_cleared<K: Copy, D>(session: &mut ProbeWebSession<K, D>)
    requires
        call_ensures(ProbeWebSession::<K, D>::clear_rtt_client, (session,), ()),
    ensures
        final(session).key() == old(session).key(),
        final(session).rtt() is None,
{
}

/// The decoders that a session shows are those of its RTT client.
pub proof fn law_decoders_are_shown<K: Copy, D>(
    session: ProbeWebSession<K, D>,
    decoders: Option<&D>,
)
    requires
        call_ensures(ProbeWebSession::<K, D>::decoders, (&session,), decoders),
    ensures
        decoders is Some <==> session.rtt() is Some,
        decoders is Some ==> *decoders->0 == session.rtt()->0.decoders,
{
}

/// The decoders of the RTT client get the ELF that was given, and the caller is told what
/// they said: whether it has a defmt table, or, as a failure of the kind `defmt`, why not.
/// Without an RTT client the request is refused.
pub proof fn law_defmt_elf<K: Copy, D, F: FnOnce(D, Vec<u8>) -> (D, Result<bool, String>)>(
    session: &mut ProbeWebSession<K, D>,
    elf: Vec<u8>,
    set_elf: F,
    outcome: Result<bool, Rejection>,
)
    requires
        call_ensures(
            ProbeWebSession::<K, D>::set_defmt_elf::<F>,
            (session, elf, set_elf),
            outcome,
        ),
    ensures
        final(session).key() == old(session).key(),
        final(session).rtt() is Some <==> old(session).rtt() is Some,
        old(session).rtt() is Some ==> final(session).rtt()->0.key == old(session).rtt()->0.key,
        old(session).rtt() is Some && outcome is Ok ==> call_ensures(
            set_elf,
            (old(session).rtt()->0.decoders, elf),
            (final(session).rtt()->0.decoders, Ok::<bool, String>(outcome->Ok_0)),
        ),
        old(session).rtt() is Some && outcome is Err ==> {
            &&& outcome->Err_0.kind@ == "defmt"@
            &&& outcome->Err_0.connect_under_reset is None
            &&& exists|said: String|
                {
                    &&& #[trigger] said@ == outcome->Err_0.message@
                    &&& call_ensures(
                        set_elf,
                        (old(session).rtt()->0.decoders, elf),
                        (final(session).rtt()->0.decoders, Err::<bool, String>(said)),
                    )
                }
        },
        old(session).rtt() is None ==> {
            &&& outcome is Err
            &&& outcome->Err_0.kind@ == "state"@
            &&& outcome->Err_0.message@ == "call createRttClient first"@
            &&& outcome->Err_0.connect_under_reset is None
        },
{
    if old(session).rtt() is Some {
        let decoders = old(session).rtt()->0.decoders;
        let after = final(session).rtt()->0.decoders;
        assert(elf_set(set_elf, decoders, elf, after, outcome));
        let set = choose|set: Result<bool, String>|
            #[trigger] call_ensures(set_elf, (decoders, elf), (after, set)) && reports_defmt(
                set,
                outcome,
            );
        assert(call_ensures(set_elf, (decoders, elf), (after, set)));
        if set is Err {
            assert(set->Err_0@ == outcome->Err_0.message@);
        }
    }
}

/// What the decoders say to an ELF is told as it is, a failure under the kind `defmt`.
pub proof fn law_defmt_outcome(set: Result<bool, String>, outcome: Result<bool, Rejection>)
    requires
        call_ensures(defmt_outcome, (set,), outcome),
    ensures
        outcome is Ok <==> set is Ok,
        set is Ok ==> outcome->Ok_0 == set->Ok_0,
        set is Err ==> {
            &&& outcome->Err_0.kind@ == "defmt"@
            &&& outcome->Err_0.message@ == set->Err_0@
            &&& outcome->Err_0.connect_under_reset is None
        },
{
}

/// The monitor catches what the caller asked for: each of the four vector catches is on
/// exactly where its own flag is, whatever the other flags say. It polls the RTT client of
/// the session, and none where there is none.
pub proof fn law_monitor_request<K: Copy, D, W>(
    session: ProbeWebSession<K, D>,
    mode: W,
    flags: MonitorFlags,
    call: SessionCall<K, W>,
)
    requires
        call_ensures(ProbeWebSession::<K, D>::monitor::<W>, (&session, mode, flags), call),
    ensures
        call.session == session.key(),
        call.op is Monitor,
        call.op->Monitor_mode == mode,
        call.op->Monitor_options.catch_reset == flags.catch_reset,
        call.op->Monitor_options.catch_hardfault == flags.catch_hardfault,
        call.op->Monitor_options.catch_svc == flags.catch_svc,
        call.op->Monitor_options.catch_hlt == flags.catch_hlt,
        call.op->Monitor_options.rtt_client is Some <==> session.rtt() is Some,
        session.rtt() is Some ==> call.op->Monitor_options.rtt_client->0
            == session.rtt()->0.key,
        call.op->Monitor_options.semihosting_options is Default,
{
}

/// Every vector catch is off unless it is asked for.
pub proof fn law_flags_are_off_by_default(flags: MonitorFlags)
    requires
        call_ensures(MonitorFlags::default, (), flags),
    ensures
        !flags.catch_reset,
        !flags.catch_hardfault,
        !flags.catch_svc,
        !flags.catch_hlt,
{
}

/// Tests are listed for the boot information and run as the caller named them; both poll the
/// RTT client of the session, and none where there is none.
pub proof fn law_test_requests<K: Copy, D, W>(
    session: ProbeWebSession<K, D>,
    boot_info: W,
    test: W,
    call: SessionCall<K, W>,
)
    ensures
        call_ensures(ProbeWebSession::<K, D>::list_tests::<W>, (&session, boot_info), call) ==> {
            &&& call.session == session.key()
            &&& call.op is ListTests
            &&& call.op->ListTests_boot_info == boot_info
            &&& call.op->ListTests_rtt_client is Some <==> session.rtt() is Some
            &&& session.rtt() is Some ==> call.op->ListTests_rtt_client->0
                == session.rtt()->0.key
            &&& call.op->ListTests_semihosting_options is Default
        },
        call_ensures(ProbeWebSession::<K, D>::run_test::<W>, (&session, test), call) ==> {
            &&& call.session == session.key()
            &&& call.op is RunTest
            &&& call.op->RunTest_test == test
            &&& call.op->RunTest_rtt_client is Some <==> session.rtt() is Some
            &&& session.rtt() is Some ==> call.op->RunTest_rtt_client->0 == session.rtt()->0.key
            &&& call.op->RunTest_semihosting_options is Default
        },
{
}

/// Channels are polled, written and listed through the RTT client of the session, with what
/// the caller gave.
pub proof fn law_channel_requests<K: Copy, D, W>(
    session: ProbeWebSession<K, D>,
    channels: Vec<u32>,
    channel: u32,
    data: Vec<u8>,
    timeout_ms: u32,
    call: Result<SessionCall<K, W>, Rejection>,
)
    requires
        session.rtt() is Some,
    ensures
        call_ensures(ProbeWebSession::<K, D>::poll_rtt::<W>, (&session, channels), call) ==> {
            &&& call is Ok
            &&& call->Ok_0.session == session.key()
            &&& call->Ok_0.op is PollRttUp
            &&& call->Ok_0.op->PollRttUp_rtt_client == session.rtt()->0.key
            &&& call->Ok_0.op->PollRttUp_channels == channels
        },
        call_ensures(
            ProbeWebSession::<K, D>::rtt_write::<W>,
            (&session, channel, data, timeout_ms),
            call,
        ) ==> {
            &&& call is Ok
            &&& call->Ok_0.session == session.key()
            &&& call->Ok_0.op is SendToRtt
            &&& call->Ok_0.op->SendToRtt_rtt_client == session.rtt()->0.key
            &&& call->Ok_0.op->SendToRtt_channel == channel
            &&& call->Ok_0.op->SendToRtt_data == data
            &&& call->Ok_0.op->SendToRtt_timeout_ms == timeout_ms
        },
        call_ensures(ProbeWebSession::<K, D>::rtt_channels::<W>, (&session,), call) ==> {
            &&& call is Ok
            &&& call->Ok_0.session == session.key()
            &&& call->Ok_0.op is RttChannels
            &&& call->Ok_0.op->RttChannels_rtt_client == session.rtt()->0.key
        },
{
}

/// Without an RTT client, channels are neither polled, written nor listed: the caller is told
/// to create one.
pub proof fn law_channels_need_an_rtt_client<K: Copy, D, W>(
    session: ProbeWebSession<K, D>,
    channels: Vec<u32>,
    channel: u32,
    data: Vec<u8>,
    timeout_ms: u32,
    call: Result<SessionCall<K, W>, Rejection>,
)
    requires
        session.rtt() is None,
        call_ensures(ProbeWebSession::<K, D>::poll_rtt::<W>, (&session, channels), call)
            || call_ensures(
            ProbeWebSession::<K, D>::rtt_write::<W>,
            (&session, channel, data, timeout_ms),
            call,
        ) || call_ensures(ProbeWebSession::<K, D>::rtt_channels::<W>, (&session,), call),
    ensures
        call is Err,
        call->Err_0.kind@ == "state"@,
        call->Err_0.message@ == "call createRttClient first"@,
        call->Err_0.connect_under_reset is None,
{
}

/// Events keep what they carry: up and down channels are not mixed up, and bytes keep their
/// channel. Bytes are to be decoded exactly where there is an RTT client.
pub proof fn law_monitor_events<K: Copy, D, W>(
    session: ProbeWebSession<K, D>,
    event: MonitorEvent<W>,
    output: MonitorOutput<W>,
)
    requires
        call_ensures(ProbeWebSession::<K, D>::monitor_event::<W>, (&session, event), output),
    ensures
        event is RttDiscovered ==> {
            &&& output is Discovered
            &&& output->Discovered_up == event->RttDiscovered_up_channels
            &&& output->Discovered_down == event->RttDiscovered_down_channels
        },
        event is RttOutput && session.rtt() is Some ==> {
            &&& output is Decode
            &&& output->Decode_channel == event->RttOutput_channel
            &&& output->Decode_bytes == event->RttOutput_bytes
        },
        event is RttOutput && session.rtt() is None ==> {
            &&& output is Bytes
            &&& output->Bytes_channel == event->RttOutput_channel
            &&& output->Bytes_bytes == event->RttOutput_bytes
        },
        event is Semihosting ==> {
            &&& output is Semihosting
            &&& output->Semihosting_stream == event->Semihosting_stream
            &&& output->Semihosting_data == event->Semihosting_data
        },
{
}

/// RTT output goes once to the decoders of the RTT client, with its channel and all its
/// bytes; they keep what that left, and the caller gets what it gave. Every other event, and
/// RTT output without a client, is handed on as it is and leaves the session alone.
pub proof fn law_rendered_events<K: Copy, D, W, V, F: FnOnce(D, u32, Vec<u8>) -> (D, V)>(
    session: &mut ProbeWebSession<K, D>,
    event: MonitorEvent<W>,
    decode: F,
    output: Result<V, MonitorOutput<W>>,
)
    requires
        call_ensures(
            ProbeWebSession::<K, D>::render_event::<W, V, F>,
            (session, event, decode),
            output,
        ),
    ensures
        final(session).key() == old(session).key(),
        final(session).rtt() is Some <==> old(session).rtt() is Some,
        old(session).rtt() is Some ==> final(session).rtt()->0.key == old(session).rtt()->0.key,
        output is Ok <==> event is RttOutput && old(session).rtt() is Some,
        output is Ok ==> call_ensures(
            decode,
            (
                old(session).rtt()->0.decoders,
                event->RttOutput_channel,
                event->RttOutput_bytes,
            ),
            (final(session).rtt()->0.decoders, output->Ok_0),
        ),
        output is Err ==> {
            &&& final(session).rtt() == old(session).rtt()
            &&& event matches MonitorEvent::RttDiscovered { up_channels, down_channels }
                ==> output->Err_0 == (MonitorOutput::Discovered {
                up: up_channels,
                down: down_channels,
            })
            &&& event matches MonitorEvent::RttOutput { channel, bytes } ==> output->Err_0 == (
            MonitorOutput::<W>::Bytes { channel, bytes })
            &&& event matches MonitorEvent::Semihosting { stream, data } ==> output->Err_0 == (
            MonitorOutput::<W>::Semihosting { stream, data })
        },
{
}

/// The kinds under which output is handed on. Decoded output has none here: the decoders say
/// it.
pub proof fn law_output_kinds<W>(
    output: MonitorOutput<W>,
    polled: PollOutput,
    kind: Option<&'static str>,
)
    ensures
        call_ensures(MonitorOutput::<W>::kind, (&output,), kind) ==> {
            &&& kind is None <==> output is Decode
            &&& output is Discovered ==> kind->0@ == "rtt-discovered"@
            &&& output is Bytes ==> kind->0@ == "bytes"@
            &&& output is Semihosting ==> kind->0@ == "semihosting"@
        },
        call_ensures(PollOutput::kind, (&polled,), kind) ==> {
            &&& kind is None <==> polled is Decode
            &&& polled is Error ==> kind->0@ == "error"@
        },
{
}

/// The results that a poll hands on, by their positions.
proof fn lemma_poll_sources(results: Seq<PollResult>) -> (from: Seq<int>)
    ensures
        from.len() == poll_outputs(results).len(),
        forall|j: int|
            0 <= j < from.len() ==> 0 <= #[trigger] from[j] < results.len() && poll_output(
                results[from[j]],
            ) == Some(poll_outputs(results)[j]),
        forall|j: int, k: int| 0 <= j < k < from.len() ==> from[j] < from[k],
        forall|i: int|
            0 <= i < results.len() ==> (from.contains(i) <==> poll_output(
                #[trigger] results[i],
            ) is Some),
    decreases results.len(),
{
    if results.len() == 0 {
        Seq::empty()
    } else {
        let before = results.drop_last();
        let last = results.len() - 1;
        let earlier = lemma_poll_sources(before);
        let from = if poll_output(results.last()) is Some {
            earlier.push(last)
        } else {
            earlier
        };
        assert forall|i: int| 0 <= i < results.len() implies (from.contains(i) <==> poll_output(
            #[trigger] results[i],
        ) is Some) by {
            if i < last {
                assert(before[i] == results[i]);
                if earlier.contains(i) {
                    let j = choose|j: int| 0 <= j < earlier.len() && earlier[j] == i;
                    assert(from[j] == i);
                }
            } else if poll_output(results.last()) is Some {
                assert(from[earlier.len() as int] == i);
            }
        }
        from
    }
}

/// Every output of a poll comes from one result and carries its channel, with its bytes or
/// with the message of its failure; outputs keep the order of the results; and what is left
/// out are the results with nothing new, and no others. A poll whose RTT client was cleared
/// meanwhile is refused.
pub proof fn law_polled<K: Copy, D>(
    session: ProbeWebSession<K, D>,
    results: Vec<PollResult>,
    outputs: Result<Vec<PollOutput>, Rejection>,
)
    requires
        call_ensures(ProbeWebSession::<K, D>::polled, (&session, results), outputs),
    ensures
        outputs is Ok <==> session.rtt() is Some,
        outputs is Ok ==> exists|from: Seq<int>|
            {
                &&& #[trigger] from.len() == outputs->Ok_0@.len()
                &&& forall|j: int|
                    0 <= j < from.len() ==> 0 <= #[trigger] from[j] < results@.len() && {
                        let result = results@[from[j]];
                        match outputs->Ok_0@[j] {
                            PollOutput::Decode { channel, bytes } => {
                                &&& channel == result.channel
                                &&& result.result is Ok
                                &&& bytes == result.result->Ok_0
                            },
                            PollOutput::Error { channel, message } => {
                                &&& channel == result.channel
                                &&& result.result is Err
                                &&& message == result.result->Err_0
                            },
                        }
                    }
                &&& forall|j: int, k: int| 0 <= j < k < from.len() ==> from[j] < from[k]
                &&& forall|i: int|
                    0 <= i < results@.len() ==> (from.contains(i) <==> {
                        ||| (#[trigger] results@[i]).result is Err
                        ||| results@[i].result->Ok_0@.len() > 0
                    })
            },
        outputs is Err ==> {
            &&& outputs->Err_0.kind@ == "state"@
            &&& outputs->Err_0.message@ == "RTT client was cleared"@
            &&& outputs->Err_0.connect_under_reset is None
        },
{
    if outputs is Ok {
        let from = lemma_poll_sources(results@);
        assert(from.len() == outputs->Ok_0@.len());
    }
}

/// Polling in two parts hands on the same as polling once.
pub proof fn law_polled_in_parts<K: Copy, D>(
    session: ProbeWebSession<K, D>,
    first: Vec<PollResult>,
    second: Vec<PollResult>,
    both: Vec<PollResult>,
    of_first: Vec<PollOutput>,
    of_second: Vec<PollOutput>,
    of_both: Vec<PollOutput>,
)
    requires
        both@ == first@ + second@,
        call_ensures(ProbeWebSession::<K, D>::polled, (&session, first), Ok(of_first)),
        call_ensures(ProbeWebSession::<K, D>::polled, (&session, second), Ok(of_second)),
        call_ensures(ProbeWebSession::<K, D>::polled, (&session, both), Ok(of_both)),
    ensures
        of_both@ == of_first@ + of_second@,
{
    law_poll_in_order(first@, second@);
}

/// The outputs of a poll become values one after the other. Bytes go to the decoders as the
/// output before left them; a failed read is reported and leaves them alone. Where all
/// succeed there is one value for each output, and the decoders stay as the last one left
/// them. The first failure is the answer, and what follows it is not looked at.
pub proof fn law_rendered_poll<
    K: Copy,
    D,
    V,
    E,
    F: Fn(D, u32, Vec<u8>) -> (D, Result<V, E>),
    G: Fn(u32, String) -> Result<V, E>,
>(
    session: &mut ProbeWebSession<K, D>,
    outputs: Vec<PollOutput>,
    decode: F,
    report: G,
    answer: Result<Vec<V>, E>,
)
    requires
        old(session).rtt() is Some,
        call_ensures(
            ProbeWebSession::<K, D>::render_polled::<V, E, F, G>,
            (session, outputs, decode, report),
            answer,
        ),
    ensures
        final(session).key() == old(session).key(),
        final(session).rtt() is Some,
        final(session).rtt()->0.key == old(session).rtt()->0.key,
        exists|states: Seq<D>, values: Seq<V>|
            {
                &&& #[trigger] states.len() == #[trigger] values.len() + 1
                &&& values.len() <= outputs@.len()
                &&& states[0] == old(session).rtt()->0.decoders
                &&& forall|i: int|
                    0 <= i < values.len() ==> match outputs@[i] {
                        PollOutput::Decode { channel, bytes } => call_ensures(
                            decode,
                            (states[i], channel, bytes),
                            (states[i + 1], Ok::<V, E>(#[trigger] values[i])),
                        ),
                        PollOutput::Error { channel, message } => {
                            &&& states[i + 1] == states[i]
                            &&& call_ensures(report, (channel, message), Ok::<V, E>(values[i]))
                        },
                    }
                &&& match answer {
                    Ok(all) => {
                        &&& all@ == values
                        &&& values.len() == outputs@.len()
                        &&& final(session).rtt()->0.decoders == states[values.len() as int]
                    },
                    Err(error) => {
                        &&& values.len() < outputs@.len()
                        &&& match outputs@[values.len() as int] {
                            PollOutput::Decode { channel, bytes } => call_ensures(
                                decode,
                                (states[values.len() as int], channel, bytes),
                                (final(session).rtt()->0.decoders, Err::<V, E>(error)),
                            ),
                            PollOutput::Error { channel, message } => {
                                &&& final(session).rtt()->0.decoders
                                    == states[values.len() as int]
                                &&& call_ensures(report, (channel, message), Err::<V, E>(error))
                            },
                        }
                    },
                }
            },
{
    let before = old(session).rtt()->0.decoders;
    let after = final(session).rtt()->0.decoders;
    match answer {
        Ok(values) => {
            assert(all_rendered(decode, report, before, outputs@, values@, after));
            let states = choose|states: Seq<D>|
                {
                    &&& #[trigger] rendered_in_turn(decode, report, states, outputs@, values@)
                    &&& values@.len() == outputs@.len()
                    &&& states.first() == before
                    &&& states.last() == after
                };
            assert(states.len() == values@.len() + 1);
        },
        Err(error) => {
            assert(rendering_failed(decode, report, before, outputs@, error, after));
            let (states, values) = choose|states: Seq<D>, values: Seq<V>|
                {
                    &&& #[trigger] rendered_in_turn(decode, report, states, outputs@, values)
                    &&& values.len() < outputs@.len()
                    &&& states.first() == before
                    &&& output_rendered(
                        decode,
                        report,
                        states.last(),
                        outputs@[values.len() as int],
                        after,
                        Err::<V, E>(error),
                    )
                };
            assert(states.len() == values.len() + 1);
        },
    }
}

} // verus!
