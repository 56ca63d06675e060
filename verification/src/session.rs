//! An attached target.
use vstd::prelude::*;

use crate::core_handle::ProbeWebCore;
use crate::job::{Job, Phase};
use crate::monitor::{
    all_rendered, poll_outputs, rendered, rendered_in_turn, rendering_failed, MonitorEvent,
    MonitorOutput, PollOutput, PollResult,
};
use crate::ops::{MonitorOptions, RttClientRequest, SemihostingOptions, SessionCall, SessionOp};
use crate::rejection::{error, plain_rejection, Rejection, RejectionView};

verus! {

/// The RTT client of a session.
#[derive(Debug, PartialEq, Eq)]
pub struct RttState<K, D> {
    /// The server's handle of the RTT client.
    pub key: K,
    /// What decodes the bytes of its channels.
    pub decoders: D,
}

/// A session with an attached target.
pub struct ProbeWebSession<K, D> {
    key: K,
    rtt: Option<RttState<K, D>>,
}

/// The vector catches that a caller of [`ProbeWebSession::monitor`] can ask for.
#[derive(Debug, PartialEq, Eq)]
pub struct MonitorFlags {
    pub catch_reset: bool,
    pub catch_hardfault: bool,
    pub catch_svc: bool,
    pub catch_hlt: bool,
}

impl Default for MonitorFlags {
    /// No vector catch: what a flag that is not given stands for.
    fn default() -> (flags: Self)
        ensures
            !flags.catch_reset && !flags.catch_hardfault && !flags.catch_svc && !flags.catch_hlt,
    {
        MonitorFlags {
            catch_reset: false,
            catch_hardfault: false,
            catch_svc: false,
            catch_hlt: false,
        }
    }
}

/// The answer to a poll whose RTT client was dropped while it ran.
pub open spec fn rtt_client_was_cleared() -> RejectionView {
    plain_rejection("state"@, "RTT client was cleared"@)
}

impl<K: Copy, D> ProbeWebSession<K, D> {
    /// The server's handle of the session.
    pub closed spec fn key(self) -> K {
        self.key
    }

    /// The RTT client, where there is one.
    pub closed spec fn rtt(self) -> Option<RttState<K, D>> {
        self.rtt
    }

    /// The server's handle of the RTT client, where there is one.
    pub open spec fn rtt_client(self) -> Option<K> {
        match self.rtt() {
            Some(rtt) => Some(rtt.key),
            None => None,
        }
    }

    /// The handle for a request that needs an RTT client, or its rejection.
    pub open spec fn required_rtt_client(self) -> Result<K, RejectionView> {
        match self.rtt() {
            Some(rtt) => Ok(rtt.key),
            None => Err(plain_rejection("state"@, "call createRttClient first"@)),
        }
    }

    /// The request `op`, made in this session.
    pub open spec fn call<W>(self, op: SessionOp<K, W>) -> SessionCall<K, W> {
        SessionCall { session: self.key(), op }
    }

    /// What flashing starts with: the RTT client that exists now goes into the loader.
    pub open spec fn flash_phase<W>(self, format: W, options: W) -> Phase<K, W> {
        Phase::FlashUpload { format, options, rtt_client: self.rtt_client() }
    }

    /// How the monitor runs: with the vector catches asked for, polling the RTT client that
    /// exists now.
    pub open spec fn monitor_options(self, flags: MonitorFlags) -> MonitorOptions<K> {
        MonitorOptions {
            catch_reset: flags.catch_reset,
            catch_hardfault: flags.catch_hardfault,
            catch_svc: flags.catch_svc,
            catch_hlt: flags.catch_hlt,
            rtt_client: self.rtt_client(),
            semihosting_options: SemihostingOptions::Default,
        }
    }

    /// Listing the tests, polling the RTT client that exists now.
    pub open spec fn list_tests_op<W>(self, boot_info: W) -> SessionOp<K, W> {
        SessionOp::ListTests {
            boot_info,
            rtt_client: self.rtt_client(),
            semihosting_options: SemihostingOptions::Default,
        }
    }

    /// Running a test, polling the RTT client that exists now.
    pub open spec fn run_test_op<W>(self, test: W) -> SessionOp<K, W> {
        SessionOp::RunTest {
            test,
            rtt_client: self.rtt_client(),
            semihosting_options: SemihostingOptions::Default,
        }
    }

    /// The session `after` is this one with the RTT client `key`, for which `decoders`
    /// decode.
    pub open spec fn with_rtt_client(self, key: K, decoders: D, after: Self) -> bool {
        &&& after.key() == self.key()
        &&& after.rtt() == Some(RttState { key, decoders })
    }

    /// The session `after` is this one without an RTT client.
    pub open spec fn without_rtt_client(self, after: Self) -> bool {
        &&& after.key() == self.key()
        &&& after.rtt() is None
    }

    /// The session that the server calls `key`, with no RTT client.
    pub fn new(key: K) -> (session: Self)
        ensures
            session.key() == key,
            session.rtt() is None,
    {
        ProbeWebSession { key, rtt: None }
    }

    fn request<W>(&self, op: SessionOp<K, W>) -> (call: SessionCall<K, W>)
        ensures
            call == self.call(op),
            call.session == self.key(),
            call.op == op,
    {
        SessionCall { session: self.key, op }
    }

    fn rtt_handle(&self) -> (handle: Option<K>)
        ensures
            handle == self.rtt_client(),
    {
        match &self.rtt {
            Some(rtt) => Some(rtt.key),
            None => None,
        }
    }

    fn require_rtt(&self) -> (handle: Result<K, Rejection>)
        ensures
            match self.required_rtt_client() {
                Ok(rtt_client) => handle == Ok::<K, Rejection>(rtt_client),
                Err(refused) => handle is Err && handle->Err_0@ == refused,
            },
    {
        match self.rtt_handle() {
            Some(rtt_client) => Ok(rtt_client),
            None => Err(error("state", "call createRttClient first".to_owned())),
        }
    }

    /// Upload `image` (named `name` for caching and logging), build a flash loader for it
    /// and program it: the first request, and the job that waits for its reply. Resolves
    /// with the image's boot information. An RTT client that exists now goes into the
    /// flash loader.
    pub fn flash<W>(&self, image: Vec<u8>, name: String, format: W, options: W) -> (started: (
        Job<K, W>,
        SessionCall<K, W>,
    ))
        ensures
            started.0 == (Job {
                session: self.key(),
                phase: self.flash_phase(format, options),
            }),
            started.1 == self.call(SessionOp::<K, W>::Upload { name, bytes: image }),
    {
        let phase: Phase<K, W> = Phase::FlashUpload {
            format,
            options,
            rtt_client: self.rtt_handle(),
        };
        (
            Job { session: self.key, phase },
            self.request(SessionOp::Upload { name, bytes: image }),
        )
    }

    /// Compare `image` against flash without writing: the first request, and the job that
    /// waits for its reply. Resolves with the result of the comparison.
    pub fn verify<W>(&self, image: Vec<u8>, name: String, format: W) -> (started: (
        Job<K, W>,
        SessionCall<K, W>,
    ))
        ensures
            started.0 == (Job { session: self.key(), phase: Phase::VerifyUpload { format } }),
            started.1 == self.call(SessionOp::<K, W>::Upload { name, bytes: image }),
    {
        (
            Job { session: self.key, phase: Phase::VerifyUpload { format } },
            self.request(SessionOp::Upload { name, bytes: image }),
        )
    }

    /// Upload an ELF and load its DWARF for this session: the first request, and the job
    /// that waits for its reply.
    pub fn load_debug_info<W>(&self, elf: Vec<u8>, name: String) -> (started: (
        Job<K, W>,
        SessionCall<K, W>,
    ))
        ensures
            started.0 == (Job { session: self.key(), phase: Phase::<K, W>::DebugInfoUpload }),
            started.1 == self.call(SessionOp::<K, W>::Upload { name, bytes: elf }),
    {
        (
            Job { session: self.key, phase: Phase::DebugInfoUpload },
            self.request(SessionOp::Upload { name, bytes: elf }),
        )
    }

    /// Replace the SVD for `core`: the first request, which clears the former one, and the
    /// job that waits for its reply.
    pub fn load_svd<W>(&self, core: u32, svd: Vec<u8>, name: String) -> (started: (
        Job<K, W>,
        SessionCall<K, W>,
    ))
        ensures
            started.0 == (Job {
                session: self.key(),
                phase: Phase::<K, W>::SvdClear { core, svd, name },
            }),
            started.1 == self.call(SessionOp::<K, W>::ClearSvd { core }),
    {
        (
            Job { session: self.key, phase: Phase::SvdClear { core, svd, name } },
            self.request(SessionOp::ClearSvd { core }),
        )
    }

    /// Create the server-side RTT client: the request to make. It goes back to
    /// [`ProbeWebSession::rtt_client_created`] with the reply. Must precede `flash` when the
    /// image contains an RTT control block, and `monitor`.
    pub fn create_rtt_client<W>(
        &self,
        scan_region: W,
        configs: Vec<W>,
        default_config: W,
    ) -> (request: RttClientRequest<K, W>)
        ensures
            request == (RttClientRequest {
                session: self.key(),
                scan_region,
                configs,
                default_config,
            }),
    {
        RttClientRequest { session: self.key, scan_region, configs, default_config }
    }

    /// Take the reply to the request of [`ProbeWebSession::create_rtt_client`]: the handle
    /// of the new RTT client, and the data that the caller is answered with. The decoders
    /// of the client are what `build` makes of the configurations that were sent. A failure
    /// is handed on and leaves the session as it was.
    pub fn rtt_client_created<W, F: FnOnce(Vec<W>, W) -> D>(
        &mut self,
        request: RttClientRequest<K, W>,
        reply: Result<(K, W), Rejection>,
        build: F,
    ) -> (answer: Result<W, Rejection>)
        requires
            reply is Ok ==> call_requires(build, (request.configs, request.default_config)),
        ensures
            match reply {
                Ok((key, data)) => {
                    let decoders = final(self).rtt()->0.decoders;
                    &&& answer == Ok::<W, Rejection>(data)
                    &&& old(self).with_rtt_client(key, decoders, *final(self))
                    &&& call_ensures(build, (request.configs, request.default_config), decoders)
                },
                Err(error) => {
                    &&& answer == Err::<W, Rejection>(error)
                    &&& *final(self) == *old(self)
                },
            },
    {
        match reply {
            Ok((key, data)) => {
                let decoders: D = build(request.configs, request.default_config);
                self.rtt = Some(RttState { key, decoders });
                Ok(data)
            },
            Err(error) => Err(error),
        }
    }

    /// Forget the RTT client so that the next `monitor` runs without RTT polling (e.g.
    /// firmware that only uses semihosting).
    pub fn clear_rtt_client(&mut self)
        ensures
            old(self).without_rtt_client(*final(self)),
    {
        self.rtt = None;
    }

    /// The decoders of the RTT client, where there is one.
    pub fn decoders(&self) -> (decoders: Option<&D>)
        ensures
            match decoders {
                Some(decoders) => self.rtt() is Some && *decoders == self.rtt()->0.decoders,
                None => self.rtt() is None,
            },
    {
        match &self.rtt {
            Some(rtt) => Some(&rtt.decoders),
            None => None,
        }
    }

    /// Provide the ELF whose defmt table decodes defmt channels: `set_elf` gives it to the
    /// decoders, and says whether it contains a defmt table. A failure is answered as
    /// [`defmt_outcome`] says.
    pub fn set_defmt_elf<F: FnOnce(D, Vec<u8>) -> (D, Result<bool, String>)>(
        &mut self,
        elf: Vec<u8>,
        set_elf: F,
    ) -> (outcome: Result<bool, Rejection>)
        requires
            old(self).rtt() is Some ==> call_requires(set_elf, (old(self).rtt()->0.decoders, elf)),
        ensures
            final(self).key() == old(self).key(),
            match old(self).rtt() {
                Some(rtt) => {
                    &&& final(self).rtt_client() == Some(rtt.key)
                    &&& elf_set(
                        set_elf,
                        rtt.decoders,
                        elf,
                        final(self).rtt()->0.decoders,
                        outcome,
                    )
                },
                None => {
                    &&& final(self).rtt() is None
                    &&& outcome is Err
                    &&& old(self).required_rtt_client() == Err::<K, RejectionView>(
                        outcome->Err_0@,
                    )
                },
            },
    {
        match self.rtt.take() {
            Some(rtt) => {
                let (decoders, set): (D, Result<bool, String>) = set_elf(rtt.decoders, elf);
                self.rtt = Some(RttState { key: rtt.key, decoders });
                defmt_outcome(set)
            },
            None => Err(error("state", "call createRttClient first".to_owned())),
        }
    }

    /// Run the monitor loop: boot (or attach to a running target), stream RTT and
    /// semihosting output, resolve with the exit reason. The RTT client that exists now is
    /// polled.
    pub fn monitor<W>(&self, mode: W, flags: MonitorFlags) -> (call: SessionCall<K, W>)
        ensures
            call == self.call(
                SessionOp::Monitor { mode, options: self.monitor_options(flags) },
            ),
    {
        let options: MonitorOptions<K> = MonitorOptions {
            catch_reset: flags.catch_reset,
            catch_hardfault: flags.catch_hardfault,
            catch_svc: flags.catch_svc,
            catch_hlt: flags.catch_hlt,
            rtt_client: self.rtt_handle(),
            semihosting_options: SemihostingOptions::Default,
        };
        self.request(SessionOp::Monitor { mode, options })
    }

    /// The tests an `embedded-test` firmware declares. `boot_info` says how to get the
    /// firmware to its reset vector.
    pub fn list_tests<W>(&self, boot_info: W) -> (call: SessionCall<K, W>)
        ensures
            call == self.call(self.list_tests_op(boot_info)),
    {
        self.request(
            SessionOp::ListTests {
                boot_info,
                rtt_client: self.rtt_handle(),
                semihosting_options: SemihostingOptions::Default,
            },
        )
    }

    /// Run one test from `list_tests` and resolve with its result.
    pub fn run_test<W>(&self, test: W) -> (call: SessionCall<K, W>)
        ensures
            call == self.call(self.run_test_op(test)),
    {
        self.request(
            SessionOp::RunTest {
                test,
                rtt_client: self.rtt_handle(),
                semihosting_options: SemihostingOptions::Default,
            },
        )
    }

    /// Render an event of `monitor`, `list_tests` or `run_test`: all three stream the same
    /// RTT and semihosting traffic. RTT output goes to the decoders of the RTT client that
    /// exists now, and is handed on as bytes where there is none.
    pub fn monitor_event<W>(&self, event: MonitorEvent<W>) -> (output: MonitorOutput<W>)
        ensures
            output == rendered(event, self.rtt() is Some),
    {
        match event {
            MonitorEvent::RttDiscovered { up_channels, down_channels } =>
                MonitorOutput::Discovered { up: up_channels, down: down_channels },
            MonitorEvent::RttOutput { channel, bytes } => if self.rtt.is_some() {
                MonitorOutput::Decode { channel, bytes }
            } else {
                MonitorOutput::Bytes { channel, bytes }
            },
            MonitorEvent::Semihosting { stream, data } => MonitorOutput::Semihosting {
                stream,
                data,
            },
        }
    }

    /// What the caller hears of an event. RTT output goes to the decoders of the RTT client
    /// that exists now: once, with all its bytes, and they keep what that left. Anything
    /// else is handed on as [`ProbeWebSession::monitor_event`] says.
    pub fn render_event<W, V, F: FnOnce(D, u32, Vec<u8>) -> (D, V)>(
        &mut self,
        event: MonitorEvent<W>,
        decode: F,
    ) -> (output: Result<V, MonitorOutput<W>>)
        requires
            rendered(event, old(self).rtt() is Some) matches MonitorOutput::Decode {
                channel,
                bytes,
            } ==> call_requires(decode, (old(self).rtt()->0.decoders, channel, bytes)),
        ensures
            final(self).key() == old(self).key(),
            final(self).rtt_client() == old(self).rtt_client(),
            match rendered(event, old(self).rtt() is Some) {
                MonitorOutput::Decode { channel, bytes } => {
                    &&& output is Ok
                    &&& call_ensures(
                        decode,
                        (old(self).rtt()->0.decoders, channel, bytes),
                        (final(self).rtt()->0.decoders, output->Ok_0),
                    )
                },
                plain => {
                    &&& output == Err::<V, MonitorOutput<W>>(plain)
                    &&& *final(self) == *old(self)
                },
            },
    {
        match (self.monitor_event(event), self.rtt.take()) {
            (MonitorOutput::Decode { channel, bytes }, Some(rtt)) => {
                let (decoders, value): (D, V) = decode(rtt.decoders, channel, bytes);
                self.rtt = Some(RttState { key: rtt.key, decoders });
                Ok(value)
            },
            (plain, rtt) => {
                self.rtt = rtt;
                Err(plain)
            },
        }
    }

    /// Read the given up channels once, without the monitor loop. The results go to
    /// [`ProbeWebSession::polled`].
    pub fn poll_rtt<W>(&self, channels: Vec<u32>) -> (call: Result<SessionCall<K, W>, Rejection>)
        ensures
            match self.required_rtt_client() {
                Ok(rtt_client) => call == Ok::<SessionCall<K, W>, Rejection>(
                    self.call(SessionOp::PollRttUp { rtt_client, channels }),
                ),
                Err(refused) => call is Err && call->Err_0@ == refused,
            },
    {
        let rtt_client: K = match self.require_rtt() {
            Ok(rtt_client) => rtt_client,
            Err(error) => return Err(error),
        };
        Ok(self.request(SessionOp::PollRttUp { rtt_client, channels }))
    }

    /// What comes of the results of a poll, in their order: output to decode, and failed
    /// reads. Channels with nothing new are omitted. Rejected where the RTT client was
    /// cleared while the poll ran.
    pub fn polled(&self, results: Vec<PollResult>) -> (outputs: Result<Vec<PollOutput>, Rejection>)
        ensures
            match self.rtt() {
                Some(_) => outputs is Ok && outputs->Ok_0@ == poll_outputs(results@),
                None => outputs is Err && outputs->Err_0@ == rtt_client_was_cleared(),
            },
    {
        if self.rtt.is_none() {
            return Err(error("state", "RTT client was cleared".to_owned()));
        }
        let mut outputs: Vec<PollOutput> = Vec::new();
        let ghost all = results@;
        for result in iter: results.into_iter()
            invariant
                iter.seq() == all,
                outputs@ == poll_outputs(all.take(iter.index())),
        {
            proof {
                let seen = all.take(iter.index() + 1);
                assert(seen.drop_last() == all.take(iter.index()));
                assert(seen.last() == result);
            }
            match result.result {
                Ok(bytes) => if bytes.len() > 0 {
                    outputs.push(PollOutput::Decode { channel: result.channel, bytes });
                },
                Err(message) => {
                    outputs.push(PollOutput::Error { channel: result.channel, message });
                },
            }
        }
        assert(all.take(all.len() as int) == all);
        Ok(outputs)
    }

    /// What the caller of a poll is answered: every output of [`ProbeWebSession::polled`] as
    /// a value, in order. `decode` gives bytes to the decoders, which keep what that left;
    /// `report` says that a read failed. The first failure of either ends the poll and is
    /// its answer.
    pub fn render_polled<
        V,
        E,
        F: Fn(D, u32, Vec<u8>) -> (D, Result<V, E>),
        G: Fn(u32, String) -> Result<V, E>,
    >(&mut self, outputs: Vec<PollOutput>, decode: F, report: G) -> (answer: Result<Vec<V>, E>)
        requires
            old(self).rtt() is Some,
            forall|decoders: D, channel: u32, bytes: Vec<u8>| #[trigger]
                call_requires(decode, (decoders, channel, bytes)),
            forall|channel: u32, message: String| #[trigger]
                call_requires(report, (channel, message)),
        ensures
            final(self).key() == old(self).key(),
            final(self).rtt_client() == old(self).rtt_client(),
            ({
                let before = old(self).rtt()->0.decoders;
                let after = final(self).rtt()->0.decoders;
                match answer {
                    Ok(values) => all_rendered(decode, report, before, outputs@, values@, after),
                    Err(error) => rendering_failed(
                        decode,
                        report,
                        before,
                        outputs@,
                        error,
                        after,
                    ),
                }
            }),
    {
        let rtt: RttState<K, D> = match self.rtt.take() {
            Some(rtt) => rtt,
            None => return Ok(Vec::new()),
        };
        let key: K = rtt.key;
        let mut decoders: D = rtt.decoders;
        let mut values: Vec<V> = Vec::new();
        let ghost all = outputs@;
        let ghost mut states: Seq<D> = seq![decoders];
        for output in iter: outputs.into_iter()
            invariant
                iter.seq() == all,
                values@.len() == iter.index(),
                rendered_in_turn(decode, report, states, all, values@),
                states.first() == old(self).rtt()->0.decoders,
                states.last() == decoders,
                self.key == old(self).key,
                old(self).rtt() is Some,
                key == old(self).rtt()->0.key,
                forall|decoders: D, channel: u32, bytes: Vec<u8>| #[trigger]
                    call_requires(decode, (decoders, channel, bytes)),
                forall|channel: u32, message: String| #[trigger]
                    call_requires(report, (channel, message)),
        {
            let (after, value): (D, Result<V, E>) = match output {
                PollOutput::Decode { channel, bytes } => decode(decoders, channel, bytes),
                PollOutput::Error { channel, message } => (decoders, report(channel, message)),
            };
            match value {
                Ok(value) => {
                    decoders = after;
                    values.push(value);
                    proof {
                        states = states.push(decoders);
                    }
                },
                Err(error) => {
                    self.rtt = Some(RttState { key, decoders: after });
                    return Err(error);
                },
            }
        }
        self.rtt = Some(RttState { key, decoders });
        Ok(values)
    }

    /// Write to an RTT down channel; resolves with the number of bytes accepted.
    pub fn rtt_write<W>(&self, channel: u32, data: Vec<u8>, timeout_ms: u32) -> (call: Result<
        SessionCall<K, W>,
        Rejection,
    >)
        ensures
            match self.required_rtt_client() {
                Ok(rtt_client) => call == Ok::<SessionCall<K, W>, Rejection>(
                    self.call(SessionOp::SendToRtt { rtt_client, channel, data, timeout_ms }),
                ),
                Err(refused) => call is Err && call->Err_0@ == refused,
            },
    {
        match self.require_rtt() {
            Ok(rtt_client) => Ok(
                self.request(SessionOp::SendToRtt { rtt_client, channel, data, timeout_ms }),
            ),
            Err(error) => Err(error),
        }
    }

    /// RTT channels of the client from `create_rtt_client` (attaches if needed; fails until
    /// the firmware has set up its control block).
    pub fn rtt_channels<W>(&self) -> (call: Result<SessionCall<K, W>, Rejection>)
        ensures
            match self.required_rtt_client() {
                Ok(rtt_client) => call == Ok::<SessionCall<K, W>, Rejection>(
                    self.call(SessionOp::RttChannels { rtt_client }),
                ),
                Err(refused) => call is Err && call->Err_0@ == refused,
            },
    {
        match self.require_rtt() {
            Ok(rtt_client) => Ok(self.request(SessionOp::RttChannels { rtt_client })),
            Err(error) => Err(error),
        }
    }

    /// The core with number `index`.
    pub fn core_at(&self, index: u32) -> (core: ProbeWebCore<K>)
        ensures
            core.session() == self.key(),
            core.index() == index,
    {
        ProbeWebCore::new(self.key, index as usize)
    }

    pub fn target_metadata<W>(&self) -> (call: SessionCall<K, W>)
        ensures
            call == self.call(SessionOp::<K, W>::TargetMetadata),
    {
        self.request(SessionOp::TargetMetadata)
    }

    /// Erase the whole flash.
    pub fn erase_all<W>(&self) -> (call: SessionCall<K, W>)
        ensures
            call == self.call(SessionOp::<K, W>::EraseAll { read_flasher_rtt: false }),
    {
        self.request(SessionOp::EraseAll { read_flasher_rtt: false })
    }

    /// Reset or boot the target according to `boot_info` (from `flash`) on `core`.
    pub fn boot<W>(&self, boot_info: W, core: u32) -> (call: SessionCall<K, W>)
        ensures
            call == self.call(SessionOp::<K, W>::Boot { boot_info, core: core as usize }),
    {
        self.request(SessionOp::Boot { boot_info, core: core as usize })
    }

    /// Ask the server to stop the running monitor.
    pub fn cancel<W>(&self) -> (call: SessionCall<K, W>)
        ensures
            call == self.call(SessionOp::<K, W>::Cancel),
    {
        self.request(SessionOp::Cancel)
    }

    pub fn clear_svd<W>(&self, core: u32) -> (call: SessionCall<K, W>)
        ensures
            call == self.call(SessionOp::<K, W>::ClearSvd { core }),
    {
        self.request(SessionOp::ClearSvd { core })
    }

    /// The stack trace of one core (replaces the server's frame and variable caches).
    pub fn rich_stack_trace<W>(&self, core: u32, limit: u32) -> (call: SessionCall<K, W>)
        ensures
            call == self.call(SessionOp::<K, W>::RichStackTrace { core: Some(core), limit }),
    {
        self.request(SessionOp::RichStackTrace { core: Some(core), limit })
    }

    pub fn scopes<W>(&self, core: u32, frame_id: u32) -> (call: SessionCall<K, W>)
        ensures
            call == self.call(SessionOp::<K, W>::Scopes { core, frame_id }),
    {
        self.request(SessionOp::Scopes { core, frame_id })
    }

    pub fn variables<W>(
        &self,
        core: u32,
        reference: u32,
        filter: Option<String>,
    ) -> (call: SessionCall<K, W>)
        ensures
            call == self.call(SessionOp::<K, W>::Variables { core, reference, filter }),
    {
        self.request(SessionOp::Variables { core, reference, filter })
    }

    pub fn evaluate<W>(
        &self,
        core: u32,
        frame_id: Option<u32>,
        expression: String,
    ) -> (call: SessionCall<K, W>)
        ensures
            call == self.call(SessionOp::<K, W>::Evaluate { core, frame_id, expression }),
    {
        self.request(SessionOp::Evaluate { core, frame_id, expression })
    }

    pub fn set_variable<W>(
        &self,
        core: u32,
        parent_key: i64,
        name: String,
        value: String,
    ) -> (call: SessionCall<K, W>)
        ensures
            call == self.call(SessionOp::<K, W>::SetVariable { core, parent_key, name, value }),
    {
        self.request(SessionOp::SetVariable { core, parent_key, name, value })
    }

    pub fn clear_core_debug_state<W>(&self, core: u32) -> (call: SessionCall<K, W>)
        ensures
            call == self.call(SessionOp::<K, W>::ClearCoreDebugState { core }),
    {
        self.request(SessionOp::ClearCoreDebugState { core })
    }

    /// `mode`: step an instruction, or over, into or out of a statement.
    pub fn step<W>(&self, core: u32, mode: W) -> (call: SessionCall<K, W>)
        ensures
            call == self.call(SessionOp::<K, W>::Step { core, mode }),
    {
        self.request(SessionOp::Step { core, mode })
    }

    pub fn resolve_source_breakpoints<W>(&self, locations: Vec<W>) -> (call: SessionCall<K, W>)
        ensures
            call == self.call(SessionOp::<K, W>::ResolveSourceBreakpoints { locations }),
    {
        self.request(SessionOp::ResolveSourceBreakpoints { locations })
    }

    pub fn resolve_source_locations<W>(&self, addresses: Vec<u64>) -> (call: SessionCall<K, W>)
        ensures
            call == self.call(SessionOp::<K, W>::ResolveSourceLocations { addresses }),
    {
        self.request(SessionOp::ResolveSourceLocations { addresses })
    }

    pub fn disassemble<W>(
        &self,
        core: u32,
        memory_reference: u64,
        byte_offset: i64,
        instruction_offset: i64,
        instruction_count: i64,
    ) -> (call: SessionCall<K, W>)
        ensures
            call == self.call(
                SessionOp::<K, W>::Disassemble {
                    core,
                    memory_reference,
                    byte_offset,
                    instruction_offset,
                    instruction_count,
                },
            ),
    {
        self.request(
            SessionOp::Disassemble {
                core,
                memory_reference,
                byte_offset,
                instruction_offset,
                instruction_count,
            },
        )
    }

    /// `cores`: `None` for all cores.
    pub fn halt_cores<W>(
        &self,
        cores: Option<Vec<u32>>,
        timeout_ms: u32,
    ) -> (call: SessionCall<K, W>)
        ensures
            call == self.call(
                SessionOp::<K, W>::HaltCores {
                    cores,
                    timeout_millis: timeout_ms as u64,
                },
            ),
    {
        self.request(SessionOp::HaltCores { cores, timeout_millis: timeout_ms as u64 })
    }

    /// `cores`: `None` for all cores.
    pub fn resume_cores<W>(&self, cores: Option<Vec<u32>>) -> (call: SessionCall<K, W>)
        ensures
            call == self.call(SessionOp::<K, W>::ResumeCores { cores }),
    {
        self.request(SessionOp::ResumeCores { cores })
    }

    /// `cores`: `None` for all cores.
    pub fn cores_status<W>(&self, cores: Option<Vec<u32>>) -> (call: SessionCall<K, W>)
        ensures
            call == self.call(SessionOp::<K, W>::CoresStatus { cores }),
    {
        self.request(SessionOp::CoresStatus { cores })
    }
}

/// `outcome` reports what the decoders said to an ELF: whether it contains a defmt table, or
/// a rejection of kind `defmt` with their message.
pub open spec fn reports_defmt(
    set: Result<bool, String>,
    outcome: Result<bool, Rejection>,
) -> bool {
    match set {
        Ok(has_table) => outcome == Ok::<bool, Rejection>(has_table),
        Err(message) => outcome is Err && outcome->Err_0@ == plain_rejection("defmt"@, message@),
    }
}

/// Given `elf`, `set_elf` turned `decoders` into `after`, and `outcome` reports what it said.
pub open spec fn elf_set<D, F: FnOnce(D, Vec<u8>) -> (D, Result<bool, String>)>(
    set_elf: F,
    decoders: D,
    elf: Vec<u8>,
    after: D,
    outcome: Result<bool, Rejection>,
) -> bool {
    exists|set: Result<bool, String>|
        #[trigger] call_ensures(set_elf, (decoders, elf), (after, set)) && reports_defmt(
            set,
            outcome,
        )
}

/// Report what the decoders said to an ELF: whether it contains a defmt table, or a
/// rejection of kind `defmt`.
pub fn defmt_outcome(set: Result<bool, String>) -> (outcome: Result<bool, Rejection>)
    ensures
        reports_defmt(set, outcome),
{
    match set {
        Ok(has_table) => Ok(has_table),
        Err(message) => Err(error("defmt", message)),
    }
}

/// Once an RTT client was created, every request that can use one does: flashing,
/// monitoring, listing and running tests, and the requests that are refused without one.
pub proof fn law_created_rtt_client_is_used<K: Copy, D, W>(
    before: ProbeWebSession<K, D>,
    after: ProbeWebSession<K, D>,
    key: K,
    decoders: D,
    flags: MonitorFlags,
    format: W,
    options: W,
    boot_info: W,
    test: W,
)
    requires
        before.with_rtt_client(key, decoders, after),
    ensures
        after.required_rtt_client() == Ok::<K, RejectionView>(key),
        after.monitor_options(flags).rtt_client == Some(key),
        after.flash_phase(format, options) == (Phase::FlashUpload {
            format,
            options,
            rtt_client: Some(key),
        }),
        after.list_tests_op(boot_info) == (SessionOp::ListTests {
            boot_info,
            rtt_client: Some(key),
            semihosting_options: SemihostingOptions::Default,
        }),
        after.run_test_op(test) == (SessionOp::RunTest {
            test,
            rtt_client: Some(key),
            semihosting_options: SemihostingOptions::Default,
        }),
{
}

/// Once the RTT client was cleared, nothing polls RTT, RTT output is handed on undecoded,
/// and the requests that need an RTT client are refused.
pub proof fn law_cleared_rtt_client_is_not_used<K: Copy, D, W>(
    before: ProbeWebSession<K, D>,
    after: ProbeWebSession<K, D>,
    flags: MonitorFlags,
    format: W,
    options: W,
    boot_info: W,
    test: W,
    event: MonitorEvent<W>,
)
    requires
        before.without_rtt_client(after),
    ensures
        after.required_rtt_client() == Err::<K, RejectionView>(
            plain_rejection("state"@, "call createRttClient first"@),
        ),
        after.monitor_options(flags).rtt_client is None,
        after.flash_phase(format, options) == (Phase::<K, W>::FlashUpload {
            format,
            options,
            rtt_client: None,
        }),
        after.list_tests_op(boot_info) == (SessionOp::<K, W>::ListTests {
            boot_info,
            rtt_client: None,
            semihosting_options: SemihostingOptions::Default,
        }),
        after.run_test_op(test) == (SessionOp::<K, W>::RunTest {
            test,
            rtt_client: None,
            semihosting_options: SemihostingOptions::Default,
        }),
        !(rendered(event, after.rtt() is Some) is Decode),
{
}

/// Clearing undoes creating: a session that had no RTT client is back where it was.
pub proof fn law_clearing_undoes_creating<K: Copy, D>(
    before: ProbeWebSession<K, D>,
    between: ProbeWebSession<K, D>,
    after: ProbeWebSession<K, D>,
    key: K,
    decoders: D,
)
    requires
        before.rtt() is None,
        before.with_rtt_client(key, decoders, between),
        between.without_rtt_client(after),
    ensures
        after == before,
{
}

} // verus!
