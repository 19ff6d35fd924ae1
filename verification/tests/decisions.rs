use dshw::cli::{Cli, CliCommand, Interval};
use dshw::query::{CpuQuery, MemoryQuery, OsQuery};
use dshw::refresh::{refresh_for, Reading, Refresh};
use dshw::schedule::{Schedule, Step};

fn cli(run_times: u32, interval: Option<Interval>) -> Cli {
    Cli {
        interval,
        run_times,
        delimiter: "\n".to_string(),
        cmd: CliCommand::ListCpus,
        fmt: None,
    }
}

const PAUSE: Interval = Interval { secs: 1, nanos: 500 };

#[test]
fn one_run_executes_once_without_a_pause() {
    let mut s = Schedule::new(&cli(1, Some(PAUSE)));
    assert_eq!(s.next(), Step::Execute);
    assert_eq!(s.next(), Step::Finish);
    assert_eq!(s.next(), Step::Finish);
}

#[test]
fn several_runs_pause_after_each_execution() {
    let mut s = Schedule::new(&cli(3, Some(PAUSE)));
    let mut steps = vec![];
    for _ in 0..8 {
        steps.push(s.next());
    }
    assert_eq!(
        steps,
        vec![
            Step::Execute,
            Step::Sleep(PAUSE),
            Step::Execute,
            Step::Sleep(PAUSE),
            Step::Execute,
            Step::Sleep(PAUSE),
            Step::Finish,
            Step::Finish,
        ]
    );
    assert_eq!(s.executed, 3);
}

#[test]
fn several_runs_without_interval_follow_at_once() {
    let mut s = Schedule::new(&cli(2, None));
    assert_eq!(s.next(), Step::Execute);
    assert_eq!(s.next(), Step::Execute);
    assert_eq!(s.next(), Step::Finish);
}

#[test]
fn zero_runs_never_finish() {
    let mut s = Schedule::new(&cli(0, Some(PAUSE)));
    for _ in 0..1000 {
        assert_eq!(s.next(), Step::Execute);
        assert_eq!(s.next(), Step::Sleep(PAUSE));
    }
    assert_eq!(s.executed, 0);
    let mut s = Schedule::new(&cli(0, None));
    for _ in 0..1000 {
        assert_eq!(s.next(), Step::Execute);
    }
}

#[test]
fn new_schedule_has_done_nothing() {
    let s = Schedule::new(&cli(7, Some(PAUSE)));
    assert_eq!(
        s,
        Schedule { run_times: 7, interval: Some(PAUSE), executed: 0, owes_pause: false }
    );
}

#[test]
fn refresh_follows_the_category() {
    let name = "x".to_string();
    assert_eq!(
        refresh_for(&CliCommand::Cpu { name: name.clone(), queries: vec![] }, None),
        Refresh::CpuUsage
    );
    assert_eq!(
        refresh_for(&CliCommand::Cpu { name: name.clone(), queries: vec![CpuQuery::Brand] }, None),
        Refresh::CpuUsage
    );
    assert_eq!(refresh_for(&CliCommand::Memory { queries: vec![] }, None), Refresh::Memory);
    assert_eq!(refresh_for(&CliCommand::Swap { queries: vec![] }, None), Refresh::Memory);
    assert_eq!(
        refresh_for(&CliCommand::Drive { name: name.clone(), queries: vec![] }, None),
        Refresh::Drives
    );
    assert_eq!(
        refresh_for(&CliCommand::Sensor { name: name.clone(), queries: vec![] }, None),
        Refresh::Sensors
    );
    assert_eq!(
        refresh_for(&CliCommand::Network { name, queries: vec![] }, None),
        Refresh::Networks
    );
    assert_eq!(refresh_for(&CliCommand::ListCpus, None), Refresh::CpuList);
    assert_eq!(refresh_for(&CliCommand::ListSensors, None), Refresh::Sensors);
    assert_eq!(refresh_for(&CliCommand::ListNetworks, None), Refresh::Networks);
    assert_eq!(
        refresh_for(&CliCommand::Memory { queries: vec![MemoryQuery::Total] }, Some("%total%")),
        Refresh::Memory
    );
}

#[test]
fn system_is_read_anew_for_the_cpu_usage_only() {
    let plain = CliCommand::Os { queries: vec![OsQuery::Name, OsQuery::BootTime] };
    assert_eq!(refresh_for(&plain, None), Refresh::Nothing);
    assert_eq!(refresh_for(&CliCommand::Os { queries: vec![] }, None), Refresh::Nothing);
    let usage = CliCommand::Os { queries: vec![OsQuery::Name, OsQuery::TotalCpuUsage] };
    assert_eq!(refresh_for(&usage, None), Refresh::CpuUsage);
    let twice = CliCommand::Os {
        queries: vec![OsQuery::TotalCpuUsage, OsQuery::TotalCpuUsage],
    };
    assert_eq!(refresh_for(&twice, None), Refresh::CpuUsage);
}

#[test]
fn template_decides_in_place_of_the_fields() {
    let usage = CliCommand::Os { queries: vec![OsQuery::TotalCpuUsage] };
    assert_eq!(refresh_for(&usage, Some("%name%")), Refresh::Nothing);
    assert_eq!(refresh_for(&usage, Some("text")), Refresh::Nothing);
    let plain = CliCommand::Os { queries: vec![] };
    assert_eq!(refresh_for(&plain, Some("%total-cpu-usage%")), Refresh::CpuUsage);
    assert_eq!(refresh_for(&plain, Some("%name% %Total-CPU-Usage%%%")), Refresh::CpuUsage);
    assert_eq!(
        refresh_for(&plain, Some("%total-cpu-usage% %total-cpu-usage% %total-cpu-usage%")),
        Refresh::CpuUsage
    );
    // a name between placeholders is text
    assert_eq!(refresh_for(&plain, Some("%name%total-cpu-usage%name%")), Refresh::Nothing);
    // a template that is not terminated asks for nothing
    assert_eq!(refresh_for(&plain, Some("%total-cpu-usage% %")), Refresh::Nothing);
    // an unknown placeholder does not hide a known one
    assert_eq!(refresh_for(&plain, Some("%bogus% %total-cpu-usage%")), Refresh::CpuUsage);
}

#[test]
fn cpu_usage_takes_two_readings_with_a_pause_between() {
    assert_eq!(Refresh::CpuUsage.steps(), vec![Reading::Cpus, Reading::Pause, Reading::Cpus]);
    assert_eq!(Refresh::CpuList.steps(), vec![Reading::Cpus]);
    assert_eq!(Refresh::Memory.steps(), vec![Reading::Memory]);
    assert_eq!(Refresh::Drives.steps(), vec![Reading::Drives]);
    assert_eq!(Refresh::Sensors.steps(), vec![Reading::Sensors]);
    assert_eq!(Refresh::Networks.steps(), vec![Reading::Networks]);
    assert!(Refresh::Nothing.steps().is_empty());
}
