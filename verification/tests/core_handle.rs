use probe_web_core::core_handle::{coredump_outcome, ProbeWebCore};
use probe_web_core::ops::{CoreCall, CoreOp, RegisterId};
use probe_web_core::rejection::error;
use probe_web_core::session::ProbeWebSession;

type Op = CoreOp<&'static str>;

fn third() -> ProbeWebCore<u64> {
    let session: ProbeWebSession<u64, ()> = ProbeWebSession::new(42);
    session.core_at(3)
}

fn call(op: Op) -> CoreCall<u64, &'static str> {
    CoreCall {
        session: 42,
        core: 3,
        op,
    }
}

#[test]
fn run_control() {
    let c = third();
    assert_eq!(c.halt(250), call(Op::Halt { timeout_millis: 250 }));
    assert_eq!(
        c.halt(u32::MAX),
        call(Op::Halt {
            timeout_millis: 4_294_967_295
        })
    );
    assert_eq!(c.run(), call(Op::Run));
    assert_eq!(c.status(), call(Op::Status));
    assert_eq!(c.reset(), call(Op::Reset));
    assert_eq!(
        c.reset_and_halt(0),
        call(Op::ResetAndHalt { timeout_millis: 0 })
    );
    assert_eq!(c.metadata(), call(Op::Metadata));
    assert_eq!(c.handle_semihosting(), call(Op::HandleSemihosting));
}

#[test]
fn memory() {
    let c = third();
    let address = 0x2000_0000;
    assert_eq!(
        c.read_memory_8(address, u32::MAX),
        call(Op::ReadMemory8 {
            address,
            count: 4_294_967_295,
        })
    );
    assert_eq!(
        c.read_memory_16(address, 2),
        call(Op::ReadMemory16 { address, count: 2 })
    );
    assert_eq!(
        c.read_memory_32(address, 3),
        call(Op::ReadMemory32 { address, count: 3 })
    );
    assert_eq!(
        c.read_memory_64(address, 4),
        call(Op::ReadMemory64 { address, count: 4 })
    );
    assert_eq!(
        c.read_bytes(address, 5),
        call(Op::ReadBytes { address, count: 5 })
    );
    assert_eq!(
        c.write_memory_8(address, vec![1]),
        call(Op::WriteMemory8 {
            address,
            data: vec![1],
        })
    );
    assert_eq!(
        c.write_memory_16(address, vec![2]),
        call(Op::WriteMemory16 {
            address,
            data: vec![2],
        })
    );
    assert_eq!(
        c.write_memory_32(address, vec![3]),
        call(Op::WriteMemory32 {
            address,
            data: vec![3],
        })
    );
    assert_eq!(
        c.write_memory_64(address, vec![4]),
        call(Op::WriteMemory64 {
            address,
            data: vec![4],
        })
    );
}

#[test]
fn registers_and_breakpoints() {
    let c = third();
    assert_eq!(
        c.read_registers(vec![15, 0, 15]),
        call(Op::ReadRegisters {
            ids: vec![RegisterId(15), RegisterId(0), RegisterId(15)]
        })
    );
    assert_eq!(
        c.read_registers(vec![]),
        call(Op::ReadRegisters { ids: vec![] })
    );
    assert_eq!(
        c.write_register(13, "value"),
        call(Op::WriteRegister {
            id: RegisterId(13),
            value: "value",
        })
    );
    assert_eq!(
        c.set_hw_breakpoints(vec![0x100]),
        call(Op::SetHwBreakpoints {
            addresses: vec![0x100]
        })
    );
    assert_eq!(
        c.clear_hw_breakpoints(vec![0x100]),
        call(Op::ClearHwBreakpoints {
            addresses: vec![0x100]
        })
    );
    assert_eq!(
        c.enable_vector_catch("HardFault"),
        call(Op::EnableVectorCatch {
            condition: "HardFault"
        })
    );
}

#[test]
fn dumps_ask_for_each_range() {
    let c = third();
    let ranges = || vec![(0x2000_0000, 0x2000_1000), (8, 4), (0, u64::MAX)];
    let expected = || {
        call(Op::DumpCore {
            ranges: vec![
                0x2000_0000..0x2000_1000,
                std::ops::Range { start: 8, end: 4 },
                0..u64::MAX,
            ],
        })
    };
    assert_eq!(c.dump_core(ranges()), expected());
    assert_eq!(c.dump_core_file(ranges()), expected());
    assert_eq!(c.dump_core(vec![]), call(Op::DumpCore { ranges: vec![] }));
}

#[test]
fn coredump_failures_have_their_kind() {
    assert_eq!(coredump_outcome(Ok(vec![0x93])), Ok(vec![0x93]));
    assert_eq!(
        coredump_outcome(Err("too large".to_string())),
        Err(error("coredump", "too large".to_string()))
    );
}

#[test]
fn handles_of_other_cores_are_independent() {
    let session: ProbeWebSession<u64, ()> = ProbeWebSession::new(1);
    let calls: Vec<CoreCall<u64, ()>> =
        vec![session.core_at(0).run(), session.core_at(u32::MAX).run()];
    assert_eq!(calls[0].core, 0);
    assert_eq!(calls[1].core, 4_294_967_295);
    assert!(calls.iter().all(|call| call.session == 1));
}
