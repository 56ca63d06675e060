use probe_web_core::job::{Job, Phase};
use probe_web_core::monitor::{MonitorEvent, MonitorOutput, PollOutput, PollResult};
use probe_web_core::ops::{
    MonitorOptions, RttClientRequest, SemihostingOptions, SessionCall, SessionOp,
};
use probe_web_core::rejection::{error, Rejection};
use probe_web_core::session::{defmt_outcome, MonitorFlags, ProbeWebSession};

type Session = ProbeWebSession<u64, Vec<u8>>;
type Request = RttClientRequest<u64, &'static str>;
type Op = SessionOp<u64, &'static str>;

const KEY: u64 = 42;
const RTT: u64 = 9;

fn plain() -> Session {
    ProbeWebSession::new(KEY)
}

fn request(session: &Session) -> Request {
    session.create_rtt_client("ram", vec!["a", "bc"], "default")
}

/// Decoders that hold the lengths of what they were built from.
fn decoders(configs: Vec<&'static str>, default_config: &'static str) -> Vec<u8> {
    let mut lengths: Vec<u8> = configs.iter().map(|config| config.len() as u8).collect();
    lengths.push(default_config.len() as u8);
    lengths
}

fn with_rtt() -> Session {
    let mut session = plain();
    let request = request(&session);
    assert_eq!(
        session.rtt_client_created(request, Ok((RTT, "data")), decoders),
        Ok("data")
    );
    session
}

fn call(op: Op) -> SessionCall<u64, &'static str> {
    SessionCall { session: KEY, op }
}

fn no_client() -> Rejection {
    error("state", "call createRttClient first".to_string())
}

fn flags() -> MonitorFlags {
    MonitorFlags {
        catch_reset: true,
        catch_hardfault: false,
        catch_svc: true,
        catch_hlt: false,
    }
}

fn options(rtt_client: Option<u64>) -> MonitorOptions<u64> {
    MonitorOptions {
        catch_reset: true,
        catch_hardfault: false,
        catch_svc: true,
        catch_hlt: false,
        rtt_client,
        semihosting_options: SemihostingOptions::Default,
    }
}

fn bytes(channel: u32, bytes: &[u8]) -> PollResult {
    PollResult {
        channel,
        result: Ok(bytes.to_vec()),
    }
}

fn failure(channel: u32, message: &str) -> PollResult {
    PollResult {
        channel,
        result: Err(message.to_string()),
    }
}

#[test]
fn requests_that_need_an_rtt_client_are_refused_without_one() {
    let mut session = plain();
    assert_eq!(
        session.rtt_write::<&str>(0, vec![1], 100),
        Err(no_client())
    );
    assert_eq!(session.rtt_channels::<&str>(), Err(no_client()));
    assert_eq!(session.poll_rtt::<&str>(vec![0]), Err(no_client()));
    let set = session.set_defmt_elf(vec![1], |_, _| panic!("there are no decoders"));
    assert_eq!(set, Err(no_client()));
    assert!(session.decoders().is_none());
}

#[test]
fn created_rtt_client_is_used() {
    let session = with_rtt();
    assert_eq!(
        session.rtt_write(3, vec![1, 2], 100),
        Ok(call(Op::SendToRtt {
            rtt_client: RTT,
            channel: 3,
            data: vec![1, 2],
            timeout_ms: 100,
        }))
    );
    assert_eq!(
        session.rtt_channels(),
        Ok(call(Op::RttChannels { rtt_client: RTT }))
    );
    assert_eq!(
        session.poll_rtt(vec![2, 0]),
        Ok(call(Op::PollRttUp {
            rtt_client: RTT,
            channels: vec![2, 0],
        }))
    );
    assert_eq!(
        session.monitor("mode", flags()),
        call(Op::Monitor {
            mode: "mode",
            options: options(Some(RTT)),
        })
    );
    assert_eq!(
        session.list_tests("boot"),
        call(Op::ListTests {
            boot_info: "boot",
            rtt_client: Some(RTT),
            semihosting_options: SemihostingOptions::Default,
        })
    );
    assert_eq!(
        session.run_test("test"),
        call(Op::RunTest {
            test: "test",
            rtt_client: Some(RTT),
            semihosting_options: SemihostingOptions::Default,
        })
    );
}

#[test]
fn cleared_rtt_client_is_not_used() {
    let mut session = with_rtt();
    session.clear_rtt_client();
    assert_eq!(
        session.monitor("mode", flags()),
        call(Op::Monitor {
            mode: "mode",
            options: options(None),
        })
    );
    assert_eq!(
        session.list_tests("boot"),
        call(Op::ListTests {
            boot_info: "boot",
            rtt_client: None,
            semihosting_options: SemihostingOptions::Default,
        })
    );
    assert_eq!(
        session.run_test("test"),
        call(Op::RunTest {
            test: "test",
            rtt_client: None,
            semihosting_options: SemihostingOptions::Default,
        })
    );
    assert_eq!(session.rtt_channels::<&str>(), Err(no_client()));
}

#[test]
fn clearing_undoes_creating() {
    let mut session = with_rtt();
    session.clear_rtt_client();
    let cleared = session.monitor("m", flags());
    assert_eq!(cleared, plain().monitor("m", flags()));
    session.clear_rtt_client();
    assert_eq!(cleared, session.monitor("m", flags()));
}

#[test]
fn refused_creation_leaves_the_former_client() {
    let mut session = with_rtt();
    let failure = || error("rpc", "no control block".to_string());
    let request = request(&session);
    let build = |_, _| panic!("there is no client to decode for");
    assert_eq!(
        session.rtt_client_created(request, Err(failure()), build),
        Err(failure())
    );
    assert_eq!(
        session.rtt_channels(),
        Ok(call(Op::RttChannels { rtt_client: RTT }))
    );
    assert_eq!(session.decoders().cloned(), Some(vec![1, 2, 7]));
}

#[test]
fn new_client_replaces_the_former_one() {
    let mut session = with_rtt();
    let request = session.create_rtt_client("ram", vec![], "rest");
    assert_eq!(
        session.rtt_client_created(request, Ok((10, "new")), decoders),
        Ok("new")
    );
    assert_eq!(
        session.rtt_channels(),
        Ok(call(Op::RttChannels { rtt_client: 10 }))
    );
    assert_eq!(session.decoders().cloned(), Some(vec![4]));
}

#[test]
fn decoders_are_built_from_what_was_sent() {
    let mut session = plain();
    let request = session.create_rtt_client("ram", vec!["x", "y"], "z");
    let mut built = None;
    let answer = session.rtt_client_created(request, Ok((RTT, "data")), |configs, default| {
        built = Some((configs, default));
        vec![]
    });
    assert_eq!(answer, Ok("data"));
    assert_eq!(built, Some((vec!["x", "y"], "z")));
}

#[test]
fn decoders_get_the_elf_and_keep_it() {
    let mut session = with_rtt();
    let set = session.set_defmt_elf(vec![0x7f, 0x45], |mut decoders, elf| {
        decoders.extend(elf);
        (decoders, Ok(true))
    });
    assert_eq!(set, Ok(true));
    assert_eq!(
        session.decoders().cloned(),
        Some(vec![1, 2, 7, 0x7f, 0x45])
    );
    assert_eq!(
        session.rtt_channels(),
        Ok(call(Op::RttChannels { rtt_client: RTT }))
    );
}

#[test]
fn refused_elf_is_answered_with_the_reason() {
    let mut session = with_rtt();
    let set = session.set_defmt_elf(vec![1], |decoders, _| {
        (decoders, Err("no symbols".to_string()))
    });
    assert_eq!(set, Err(error("defmt", "no symbols".to_string())));
    let set = session.set_defmt_elf(vec![1], |decoders, _| (decoders, Ok(false)));
    assert_eq!(set, Ok(false));
    assert_eq!(session.decoders().cloned(), Some(vec![1, 2, 7]));
}

#[test]
fn defmt_failures_have_their_kind() {
    assert_eq!(defmt_outcome(Ok(true)), Ok(true));
    assert_eq!(defmt_outcome(Ok(false)), Ok(false));
    assert_eq!(
        defmt_outcome(Err("bad table".to_string())),
        Err(error("defmt", "bad table".to_string()))
    );
}

#[test]
fn flags_are_off_by_default() {
    assert_eq!(
        MonitorFlags::default(),
        MonitorFlags {
            catch_reset: false,
            catch_hardfault: false,
            catch_svc: false,
            catch_hlt: false,
        }
    );
}

#[test]
fn each_flag_is_passed_on_as_itself() {
    for i in 0..4 {
        let flags = MonitorFlags {
            catch_reset: i == 0,
            catch_hardfault: i == 1,
            catch_svc: i == 2,
            catch_hlt: i == 3,
        };
        match plain().monitor("m", flags).op {
            SessionOp::Monitor { options, .. } => {
                assert_eq!(options.catch_reset, i == 0);
                assert_eq!(options.catch_hardfault, i == 1);
                assert_eq!(options.catch_svc, i == 2);
                assert_eq!(options.catch_hlt, i == 3);
            }
            other => panic!("{:?}", other),
        }
    }
}

#[test]
fn rtt_output_is_decoded_only_with_an_rtt_client() {
    let event = || MonitorEvent::<&str>::RttOutput {
        channel: 1,
        bytes: vec![0x68, 0x69],
    };
    assert_eq!(
        with_rtt().monitor_event(event()),
        MonitorOutput::Decode {
            channel: 1,
            bytes: vec![0x68, 0x69],
        }
    );
    assert_eq!(
        plain().monitor_event(event()),
        MonitorOutput::Bytes {
            channel: 1,
            bytes: vec![0x68, 0x69],
        }
    );
}

#[test]
fn other_events_do_not_depend_on_rtt() {
    for session in [plain(), with_rtt()] {
        let discovered = session.monitor_event(MonitorEvent::RttDiscovered {
            up_channels: vec!["Terminal", "defmt"],
            down_channels: vec!["Input"],
        });
        assert_eq!(
            discovered,
            MonitorOutput::Discovered {
                up: vec!["Terminal", "defmt"],
                down: vec!["Input"],
            }
        );
        assert_eq!(discovered.kind(), Some("rtt-discovered"));
        let console = session.monitor_event(MonitorEvent::<&str>::Semihosting {
            stream: "stdout".to_string(),
            data: "hi".to_string(),
        });
        assert_eq!(
            console,
            MonitorOutput::Semihosting {
                stream: "stdout".to_string(),
                data: "hi".to_string(),
            }
        );
        assert_eq!(console.kind(), Some("semihosting"));
    }
}

#[test]
fn kinds_of_rtt_output() {
    let decode: MonitorOutput<()> = MonitorOutput::Decode {
        channel: 0,
        bytes: vec![],
    };
    let raw: MonitorOutput<()> = MonitorOutput::Bytes {
        channel: 0,
        bytes: vec![],
    };
    assert_eq!(decode.kind(), None);
    assert_eq!(raw.kind(), Some("bytes"));
}

#[test]
fn poll_keeps_order_and_omits_quiet_channels() {
    let outputs = with_rtt().polled(vec![
        bytes(0, b"a"),
        bytes(1, b""),
        failure(2, "overrun"),
        bytes(3, b"bc"),
    ]);
    let expected = vec![
        PollOutput::Decode {
            channel: 0,
            bytes: b"a".to_vec(),
        },
        PollOutput::Error {
            channel: 2,
            message: "overrun".to_string(),
        },
        PollOutput::Decode {
            channel: 3,
            bytes: b"bc".to_vec(),
        },
    ];
    assert_eq!(expected[0].kind(), None);
    assert_eq!(expected[1].kind(), Some("error"));
    assert_eq!(outputs, Ok(expected));
}

#[test]
fn poll_of_parts_is_the_poll_of_the_whole() {
    let session = with_rtt();
    let first = || vec![bytes(0, b"a"), bytes(1, b"")];
    let second = || vec![failure(2, "x"), bytes(0, b"b")];
    let mut whole = first();
    whole.extend(second());
    match (
        session.polled(first()),
        session.polled(second()),
        session.polled(whole),
    ) {
        (Ok(mut a), Ok(b), Ok(c)) => {
            a.extend(b);
            assert_eq!(a, c);
        }
        other => panic!("{:?}", other),
    }
}

#[test]
fn quiet_poll_is_empty() {
    let session = with_rtt();
    assert_eq!(session.polled(vec![]), Ok(vec![]));
    assert_eq!(
        session.polled(vec![bytes(0, b""), bytes(1, b"")]),
        Ok(vec![])
    );
}

#[test]
fn poll_is_refused_once_the_client_is_cleared() {
    let mut session = with_rtt();
    assert!(session.poll_rtt::<&str>(vec![0]).is_ok());
    session.clear_rtt_client();
    assert_eq!(
        session.polled(vec![bytes(0, b"late")]),
        Err(error("state", "RTT client was cleared".to_string()))
    );
}

fn outputs() -> Vec<PollOutput> {
    vec![
        PollOutput::Decode {
            channel: 3,
            bytes: vec![1],
        },
        PollOutput::Error {
            channel: 4,
            message: "overrun".to_string(),
        },
        PollOutput::Decode {
            channel: 5,
            bytes: vec![2, 3],
        },
    ]
}

/// Say how much the decoders hold, and add what is decoded to it.
fn decode(mut held: Vec<u8>, channel: u32, bytes: Vec<u8>) -> (Vec<u8>, Result<String, String>) {
    let value = format!("{} with {}", channel, held.len());
    held.extend(bytes);
    (held, Ok(value))
}

fn report(channel: u32, message: String) -> Result<String, String> {
    Ok(format!("{}: {}", channel, message))
}

#[test]
fn poll_is_rendered_in_order_with_the_decoders_it_left() {
    let mut session = with_rtt();
    assert_eq!(
        session.render_polled(outputs(), decode, report),
        Ok(vec![
            "3 with 3".to_string(),
            "4: overrun".to_string(),
            "5 with 4".to_string(),
        ])
    );
    assert_eq!(
        session.decoders().cloned(),
        Some(vec![1, 2, 7, 1, 2, 3])
    );
    assert_eq!(
        session.rtt_channels(),
        Ok(call(Op::RttChannels { rtt_client: RTT }))
    );
}

#[test]
fn first_failure_to_render_ends_a_poll() {
    let mut session = with_rtt();
    let answer = session.render_polled(outputs(), decode, |_, message| Err(message));
    assert_eq!(answer, Err("overrun".to_string()));
    assert_eq!(
        session.decoders().cloned(),
        Some(vec![1, 2, 7, 1])
    );
    let nothing = session.render_polled(vec![], decode, report);
    assert_eq!(nothing, Ok(vec![]));
}

#[test]
fn failure_to_decode_ends_a_poll_too() {
    let mut session = with_rtt();
    let answer: Result<Vec<String>, String> = session.render_polled(
        outputs(),
        |mut held, channel, bytes| {
            held.extend(bytes);
            (held, Err(format!("channel {}", channel)))
        },
        report,
    );
    assert_eq!(answer, Err("channel 3".to_string()));
    assert_eq!(session.decoders().cloned(), Some(vec![1, 2, 7, 1]));
}

#[test]
fn failed_reads_keep_the_decoders() {
    let mut session = with_rtt();
    let failures = vec![
        PollOutput::Error {
            channel: 0,
            message: "gone".to_string(),
        },
        PollOutput::Error {
            channel: 2,
            message: "overrun".to_string(),
        },
    ];
    assert_eq!(
        session.render_polled(failures, decode, report),
        Ok(vec!["0: gone".to_string(), "2: overrun".to_string()])
    );
    assert_eq!(session.decoders().cloned(), Some(vec![1, 2, 7]));
}

#[test]
fn rtt_output_goes_once_to_the_decoders() {
    let event = || MonitorEvent::<&str>::RttOutput {
        channel: 6,
        bytes: vec![8, 9],
    };
    let mut session = with_rtt();
    assert_eq!(
        session.render_event(event(), decode),
        Ok(Ok("6 with 3".to_string()))
    );
    assert_eq!(session.decoders().cloned(), Some(vec![1, 2, 7, 8, 9]));
    assert_eq!(
        session.render_event(event(), decode),
        Ok(Ok("6 with 5".to_string()))
    );
    assert_eq!(
        session.rtt_channels(),
        Ok(call(Op::RttChannels { rtt_client: RTT }))
    );
    session.clear_rtt_client();
    assert_eq!(
        session.render_event(event(), decode),
        Err(MonitorOutput::Bytes {
            channel: 6,
            bytes: vec![8, 9],
        })
    );
    assert!(session.decoders().is_none());
}

#[test]
fn other_events_leave_the_decoders_alone() {
    let mut session = with_rtt();
    let event = MonitorEvent::<&str>::Semihosting {
        stream: "stderr".to_string(),
        data: "oops".to_string(),
    };
    assert_eq!(
        session.render_event(event, decode),
        Err(MonitorOutput::Semihosting {
            stream: "stderr".to_string(),
            data: "oops".to_string(),
        })
    );
    let event = MonitorEvent::RttDiscovered {
        up_channels: vec!["up"],
        down_channels: vec!["down"],
    };
    assert_eq!(
        session.render_event(event, decode),
        Err(MonitorOutput::Discovered {
            up: vec!["up"],
            down: vec!["down"],
        })
    );
    assert_eq!(session.decoders().cloned(), Some(vec![1, 2, 7]));
}

#[test]
fn work_on_flash_reports_progress() {
    let loader = "loader";
    assert!(Op::Flash { options: "o", loader }.reports_progress());
    assert!(Op::Verify { loader }.reports_progress());
    assert!(plain().erase_all::<&str>().op.reports_progress());
    assert!(!plain().cancel::<&str>().op.reports_progress());
    assert!(!plain().boot("boot", 0).op.reports_progress());
}

#[test]
fn jobs_start_with_their_first_request() {
    let upload = |bytes: Vec<u8>| {
        call(Op::Upload {
            name: "fw.elf".to_string(),
            bytes,
        })
    };
    let name = || "fw.elf".to_string();
    assert_eq!(
        with_rtt().flash(vec![1], name(), "elf", "options"),
        (
            Job {
                session: KEY,
                phase: Phase::FlashUpload {
                    format: "elf",
                    options: "options",
                    rtt_client: Some(RTT),
                },
            },
            upload(vec![1]),
        )
    );
    assert_eq!(
        plain().flash(vec![1], name(), "elf", "options").0.phase,
        Phase::FlashUpload {
            format: "elf",
            options: "options",
            rtt_client: None,
        }
    );
    assert_eq!(
        with_rtt().verify(vec![2], name(), "bin"),
        (
            Job {
                session: KEY,
                phase: Phase::VerifyUpload { format: "bin" },
            },
            upload(vec![2]),
        )
    );
    assert_eq!(
        plain().load_debug_info(vec![3], name()),
        (
            Job {
                session: KEY,
                phase: Phase::DebugInfoUpload,
            },
            upload(vec![3]),
        )
    );
    assert_eq!(
        plain().load_svd(1, vec![4], "chip.svd".to_string()),
        (
            Job {
                session: KEY,
                phase: Phase::SvdClear {
                    core: 1,
                    svd: vec![4],
                    name: "chip.svd".to_string(),
                },
            },
            call(Op::ClearSvd { core: 1 }),
        )
    );
}

#[test]
fn session_requests() {
    let s = plain();
    assert_eq!(s.target_metadata(), call(Op::TargetMetadata));
    assert_eq!(
        s.erase_all(),
        call(Op::EraseAll {
            read_flasher_rtt: false
        })
    );
    assert_eq!(
        s.boot("info", u32::MAX),
        call(Op::Boot {
            boot_info: "info",
            core: u32::MAX as usize,
        })
    );
    assert_eq!(
        s.create_rtt_client("ram", vec!["a", "b"], "default"),
        RttClientRequest {
            session: KEY,
            scan_region: "ram",
            configs: vec!["a", "b"],
            default_config: "default",
        }
    );
    assert_eq!(s.cancel(), call(Op::Cancel));
    assert_eq!(s.clear_svd(2), call(Op::ClearSvd { core: 2 }));
    assert_eq!(
        s.rich_stack_trace(1, 50),
        call(Op::RichStackTrace {
            core: Some(1),
            limit: 50,
        })
    );
    assert_eq!(
        s.scopes(1, 7),
        call(Op::Scopes {
            core: 1,
            frame_id: 7,
        })
    );
    assert_eq!(
        s.variables(1, 2, Some("indexed".to_string())),
        call(Op::Variables {
            core: 1,
            reference: 2,
            filter: Some("indexed".to_string()),
        })
    );
    assert_eq!(
        s.evaluate(0, None, "x + 1".to_string()),
        call(Op::Evaluate {
            core: 0,
            frame_id: None,
            expression: "x + 1".to_string(),
        })
    );
    assert_eq!(
        s.set_variable(0, -3, "x".to_string(), "5".to_string()),
        call(Op::SetVariable {
            core: 0,
            parent_key: -3,
            name: "x".to_string(),
            value: "5".to_string(),
        })
    );
    assert_eq!(
        s.clear_core_debug_state(1),
        call(Op::ClearCoreDebugState { core: 1 })
    );
    assert_eq!(
        s.step(0, "OverStatement"),
        call(Op::Step {
            core: 0,
            mode: "OverStatement",
        })
    );
    assert_eq!(
        s.resolve_source_breakpoints(vec!["main.rs:3"]),
        call(Op::ResolveSourceBreakpoints {
            locations: vec!["main.rs:3"]
        })
    );
    assert_eq!(
        s.resolve_source_locations(vec![0x100, 0x200]),
        call(Op::ResolveSourceLocations {
            addresses: vec![0x100, 0x200]
        })
    );
    assert_eq!(
        s.disassemble(0, 0x0800_0000, -4, -2, 10),
        call(Op::Disassemble {
            core: 0,
            memory_reference: 0x0800_0000,
            byte_offset: -4,
            instruction_offset: -2,
            instruction_count: 10,
        })
    );
    assert_eq!(
        s.halt_cores(None, u32::MAX),
        call(Op::HaltCores {
            cores: None,
            timeout_millis: 4_294_967_295,
        })
    );
    assert_eq!(
        s.resume_cores(Some(vec![0, 1])),
        call(Op::ResumeCores {
            cores: Some(vec![0, 1])
        })
    );
    assert_eq!(s.cores_status(None), call(Op::CoresStatus { cores: None }));
}
