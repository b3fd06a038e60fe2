use generic_cong_avoid::extract::measurements_from_raw;
use generic_cong_avoid::programs::{
    datapath_programs, program_name, program_params, select_initial_program,
    select_steady_program, ProgramKind,
};
use generic_cong_avoid::GenericCongAvoidConfigReport as Report;
use generic_cong_avoid::GenericCongAvoidConfigSS as SS;

#[test]
fn selection_table_is_exact() {
    // datapath-driven startup always begins with the slow-start program
    assert_eq!(select_initial_program(SS::Datapath, Report::Ack), ProgramKind::SsUpdate);
    assert_eq!(select_initial_program(SS::Datapath, Report::Rtt), ProgramKind::SsUpdate);
    assert_eq!(
        select_initial_program(SS::Datapath, Report::Interval(5_000)),
        ProgramKind::SsUpdate
    );

    // controller-driven startup begins directly with the cadence's program
    assert_eq!(select_initial_program(SS::Ccp, Report::Ack), ProgramKind::AckUpdate);
    assert_eq!(select_initial_program(SS::Ccp, Report::Rtt), ProgramKind::DatapathIntervalRtt);
    assert_eq!(
        select_initial_program(SS::Ccp, Report::Interval(5_000)),
        ProgramKind::DatapathInterval { report_time_us: 5_000 }
    );

    // the steady-state program after the startup transition
    assert_eq!(select_steady_program(Report::Ack), ProgramKind::AckUpdate);
    assert_eq!(select_steady_program(Report::Rtt), ProgramKind::DatapathIntervalRtt);
    assert_eq!(
        select_steady_program(Report::Interval(42)),
        ProgramKind::DatapathInterval { report_time_us: 42 }
    );
}

#[test]
fn program_names_match_the_catalog() {
    assert_eq!(
        program_name(&ProgramKind::DatapathInterval { report_time_us: 1 }),
        "DatapathIntervalProg"
    );
    assert_eq!(program_name(&ProgramKind::DatapathIntervalRtt), "DatapathIntervalRTTProg");
    assert_eq!(program_name(&ProgramKind::AckUpdate), "AckUpdateProg");
    assert_eq!(program_name(&ProgramKind::SsUpdate), "SSUpdateProg");
}

#[test]
fn only_the_interval_program_takes_a_parameter() {
    assert_eq!(
        program_params(&ProgramKind::DatapathInterval { report_time_us: 5_000 }),
        Some(("reportTime", 5_000))
    );
    assert_eq!(program_params(&ProgramKind::DatapathIntervalRtt), None);
    assert_eq!(program_params(&ProgramKind::AckUpdate), None);
    assert_eq!(program_params(&ProgramKind::SsUpdate), None);
}

#[test]
fn catalog_programs_compile_on_the_datapath_compiler() {
    let progs = datapath_programs();
    assert_eq!(progs.len(), 4);
    for (name, body) in &progs {
        let compiled = portus::lang::compile(body.as_bytes(), &[]);
        assert!(compiled.is_ok(), "program {} does not compile", name);
        let (_, scope) = compiled.unwrap();
        // every program binds the six report fields and the window
        for field in [
            "Report.acked",
            "Report.sacked",
            "Report.loss",
            "Report.timeout",
            "Report.rtt",
            "Report.inflight",
            "Cwnd",
        ] {
            assert!(scope.get(field).is_some(), "{} lacks {}", name, field);
        }
    }
}

#[test]
fn interval_program_accepts_its_report_time() {
    let progs = datapath_programs();
    let (name, body) = progs[0];
    assert_eq!(name, "DatapathIntervalProg");
    let compiled = portus::lang::compile(body.as_bytes(), &[("reportTime", 5_000)]);
    assert!(compiled.is_ok());
    let (_, scope) = compiled.unwrap();
    assert!(scope.get("reportTime").is_some());
}

#[test]
fn raw_registers_become_a_measurement() {
    let m = measurements_from_raw(1_460, 2, 3, 1, 20_000, 10);
    assert_eq!(m.acked, 1_460);
    assert_eq!(m.sacked, 2);
    assert_eq!(m.loss, 3);
    assert!(m.was_timeout);
    assert_eq!(m.rtt, 20_000);
    assert_eq!(m.inflight, 10);

    // the timeout register is a flag: only the value one sets it
    let quiet = measurements_from_raw(0, 0, 0, 0, 0, 0);
    assert!(!quiet.was_timeout);
    let odd = measurements_from_raw(0, 0, 0, 2, 0, 0);
    assert!(!odd.was_timeout);

    // register values are truncated to 32 bits
    let wide = measurements_from_raw(0x1_0000_0001, 0, 0, 0, 0, 0);
    assert_eq!(wide.acked, 1);
}
