//! The requests that go out over the RPC connection.
//!
//! `W` stands for a value that only the two ends of the wire look into (a decoded
//! request body, an upload, a flash loader); `K` for a handle that the server gave
//! out (a session, an RTT client). Both are carried through as they are.
use std::ops::Range;

use vstd::prelude::*;

verus! {

/// A request to open a probe and attach to a target.
#[derive(Debug, PartialEq, Eq)]
pub struct AttachRequest<W> {
    /// USB vendor id of the probe that is asked for.
    pub vendor_id: u16,
    /// The whole request, as it goes over the wire.
    pub body: W,
}

/// A request on the connection itself.
#[derive(Debug, PartialEq, Eq)]
pub enum ClientOp<W> {
    ListProbes,
    ListChipFamilies,
    ChipInfo { name: String },
    LoadChipFamily { yaml: String },
    /// Answered by a stream of events, then by a plain acknowledgement.
    Info { request: W },
    AttachProbe { request: W },
}

/// How semihosting is served while a target runs.
#[derive(Clone, Copy, Debug, PartialEq, Eq, Structural)]
pub enum SemihostingOptions {
    /// The server's defaults.
    Default,
}

/// Vector catches and RTT polling of a monitor run.
#[derive(Debug, PartialEq, Eq)]
pub struct MonitorOptions<K> {
    pub catch_reset: bool,
    pub catch_hardfault: bool,
    pub catch_svc: bool,
    pub catch_hlt: bool,
    /// The RTT client to poll; `None` runs without RTT polling.
    pub rtt_client: Option<K>,
    pub semihosting_options: SemihostingOptions,
}

/// A request within a session.
#[allow(inconsistent_fields)]
#[derive(Debug, PartialEq, Eq)]
pub enum SessionOp<K, W> {
    TargetMetadata,
    /// Put `bytes` on the server under `name`, unless it has them already.
    Upload { name: String, bytes: Vec<u8> },
    BuildFlashLoader {
        upload: W,
        format: W,
        image_target: Option<String>,
        read_flasher_rtt: bool,
        rtt_client: Option<K>,
    },
    /// Program the image of `loader`.
    Flash { options: W, loader: W },
    /// Compare the image of `loader` with what is in flash.
    Verify { loader: W },
    EraseAll { read_flasher_rtt: bool },
    Boot { boot_info: W, core: usize },
    ListTests { boot_info: W, rtt_client: Option<K>, semihosting_options: SemihostingOptions },
    RunTest { test: W, rtt_client: Option<K>, semihosting_options: SemihostingOptions },
    Monitor { mode: W, options: MonitorOptions<K> },
    SendToRtt { rtt_client: K, channel: u32, data: Vec<u8>, timeout_ms: u32 },
    /// Publish the cancel topic: stop the running monitor.
    Cancel,
    /// Load the debug information of an uploaded ELF.
    LoadDebugInfo { upload: W },
    ClearSvd { core: u32 },
    /// Load the SVD that lies at the server path of `upload`.
    LoadSvd { core: u32, upload: W },
    RichStackTrace { core: Option<u32>, limit: u32 },
    Scopes { core: u32, frame_id: u32 },
    Variables { core: u32, reference: u32, filter: Option<String> },
    Evaluate { core: u32, frame_id: Option<u32>, expression: String },
    SetVariable { core: u32, parent_key: i64, name: String, value: String },
    ClearCoreDebugState { core: u32 },
    Step { core: u32, mode: W },
    ResolveSourceBreakpoints { locations: Vec<W> },
    ResolveSourceLocations { addresses: Vec<u64> },
    Disassemble {
        core: u32,
        memory_reference: u64,
        byte_offset: i64,
        instruction_offset: i64,
        instruction_count: i64,
    },
    RttChannels { rtt_client: K },
    PollRttUp { rtt_client: K, channels: Vec<u32> },
    /// `None` stands for all cores, here and in the two requests below.
    HaltCores { cores: Option<Vec<u32>>, timeout_millis: u64 },
    ResumeCores { cores: Option<Vec<u32>> },
    CoresStatus { cores: Option<Vec<u32>> },
}

impl<K, W> SessionOp<K, W> {
    /// The request works on flash itself, and says how far it is while it runs.
    pub open spec fn streams_progress(self) -> bool {
        self is Flash || self is Verify || self is EraseAll
    }

    /// Whether a caller hears of the progress of the request: programming, comparing and
    /// erasing flash, and nothing that prepares it.
    pub fn reports_progress(&self) -> (reports: bool)
        ensures
            reports == self.streams_progress(),
    {
        match self {
            SessionOp::Flash { .. } | SessionOp::Verify { .. } | SessionOp::EraseAll { .. } => true,
            _ => false,
        }
    }
}

/// A request to create the RTT client of a session. It is sent by reference and kept until
/// the reply is in: what decodes the channels is then built from the same configurations.
#[derive(Debug, PartialEq, Eq)]
pub struct RttClientRequest<K, W> {
    pub session: K,
    pub scan_region: W,
    /// The configurations of single channels.
    pub configs: Vec<W>,
    /// The configuration of all other channels.
    pub default_config: W,
}

/// A request, and the session that it is made in.
#[derive(Debug, PartialEq, Eq)]
pub struct SessionCall<K, W> {
    pub session: K,
    pub op: SessionOp<K, W>,
}

/// The number of a core register.
#[derive(Clone, Copy, Debug, PartialEq, Eq, Structural)]
pub struct RegisterId(pub u16);

/// A request to one core.
#[allow(inconsistent_fields)]
#[derive(Debug, PartialEq, Eq)]
pub enum CoreOp<W> {
    Halt { timeout_millis: u64 },
    Run,
    Status,
    Reset,
    ResetAndHalt { timeout_millis: u64 },
    ReadMemory8 { address: u64, count: usize },
    ReadMemory16 { address: u64, count: usize },
    ReadMemory32 { address: u64, count: usize },
    ReadMemory64 { address: u64, count: usize },
    WriteMemory8 { address: u64, data: Vec<u8> },
    WriteMemory16 { address: u64, data: Vec<u16> },
    WriteMemory32 { address: u64, data: Vec<u32> },
    WriteMemory64 { address: u64, data: Vec<u64> },
    /// Read up to `count` bytes, stopping short at unreadable memory.
    ReadBytes { address: u64, count: usize },
    ReadRegisters { ids: Vec<RegisterId> },
    WriteRegister { id: RegisterId, value: W },
    SetHwBreakpoints { addresses: Vec<u64> },
    ClearHwBreakpoints { addresses: Vec<u64> },
    EnableVectorCatch { condition: W },
    Metadata,
    DumpCore { ranges: Vec<Range<u64>> },
    HandleSemihosting,
}

/// A request, and the core of the session that it is made to.
#[derive(Debug, PartialEq, Eq)]
pub struct CoreCall<K, W> {
    pub session: K,
    pub core: usize,
    pub op: CoreOp<W>,
}

} // verus!
