use dshw::cli::CliCommand;
use dshw::failure::Failure;
use dshw::query::{
    parse, to_queries, Category, CpuQuery, DriveQuery, Field, MemoryQuery, NetworkQuery, OsQuery,
    Query, SensorQuery, SwapQuery,
};
use dshw::text::eq_ignore_case;

fn cpu_cmd() -> CliCommand {
    CliCommand::Cpu { name: "cpu0".to_string(), queries: vec![] }
}

#[test]
fn parsing_ignores_case() {
    let cmd = cpu_cmd();
    assert_eq!(Query::from_str(&cmd, "usage"), Ok(Query::Cpu(CpuQuery::Usage)));
    assert_eq!(Query::from_str(&cmd, "Usage"), Ok(Query::Cpu(CpuQuery::Usage)));
    assert_eq!(Query::from_str(&cmd, "USAGE"), Ok(Query::Cpu(CpuQuery::Usage)));
    assert_eq!(Query::from_str(&cmd, "uSaGe"), Ok(Query::Cpu(CpuQuery::Usage)));
    let net = CliCommand::Network { name: "eth0".to_string(), queries: vec![] };
    assert_eq!(Query::from_str(&net, "MAC-AddREss"), Ok(Query::Network(NetworkQuery::MacAddress)));
}

#[test]
fn tokens_are_kebab_case() {
    let os = CliCommand::Os { queries: vec![] };
    assert_eq!(Query::from_str(&os, "boot-time"), Ok(Query::Os(OsQuery::BootTime)));
    assert_eq!(Query::from_str(&os, "load-average1m"), Ok(Query::Os(OsQuery::LoadAverage1m)));
    assert_eq!(Query::from_str(&os, "load-average5m"), Ok(Query::Os(OsQuery::LoadAverage5m)));
    assert_eq!(Query::from_str(&os, "load-average15m"), Ok(Query::Os(OsQuery::LoadAverage15m)));
    assert_eq!(Query::from_str(&os, "total-cpu-usage"), Ok(Query::Os(OsQuery::TotalCpuUsage)));
    assert_eq!(Query::from_str(&cpu_cmd(), "vendor-id"), Ok(Query::Cpu(CpuQuery::VendorId)));
    let drive = CliCommand::Drive { name: "sda".to_string(), queries: vec![] };
    assert_eq!(Query::from_str(&drive, "is-removable"), Ok(Query::Drive(DriveQuery::IsRemovable)));
    assert_eq!(Query::from_str(&drive, "fs"), Ok(Query::Drive(DriveQuery::Fs)));
    let sensor = CliCommand::Sensor { name: "s".to_string(), queries: vec![] };
    assert_eq!(
        Query::from_str(&sensor, "critical-temp"),
        Ok(Query::Sensor(SensorQuery::CriticalTemp))
    );
}

#[test]
fn every_field_is_named_by_its_own_token() {
    for f in OsQuery::variants() {
        assert_eq!(parse::<OsQuery>(f.name()), Some(f));
        assert_eq!(parse::<OsQuery>(&f.name().to_uppercase()), Some(f));
    }
    for f in CpuQuery::variants() {
        assert_eq!(parse::<CpuQuery>(f.name()), Some(f));
    }
    for f in MemoryQuery::variants() {
        assert_eq!(parse::<MemoryQuery>(f.name()), Some(f));
    }
    for f in SwapQuery::variants() {
        assert_eq!(parse::<SwapQuery>(f.name()), Some(f));
    }
    for f in DriveQuery::variants() {
        assert_eq!(parse::<DriveQuery>(f.name()), Some(f));
    }
    for f in SensorQuery::variants() {
        assert_eq!(parse::<SensorQuery>(f.name()), Some(f));
    }
    for f in NetworkQuery::variants() {
        assert_eq!(parse::<NetworkQuery>(f.name()), Some(f));
        assert_eq!(parse::<NetworkQuery>(&f.name().to_uppercase()), Some(f));
    }
}

#[test]
fn number_of_fields_in_each_category() {
    assert_eq!(OsQuery::variants().len(), 13);
    assert_eq!(CpuQuery::variants().len(), 4);
    assert_eq!(MemoryQuery::variants().len(), 4);
    assert_eq!(SwapQuery::variants().len(), 3);
    assert_eq!(DriveQuery::variants().len(), 7);
    assert_eq!(SensorQuery::variants().len(), 3);
    assert_eq!(NetworkQuery::variants().len(), 7);
}

#[test]
fn tokens_of_one_category_differ() {
    let names: Vec<&str> = OsQuery::variants().iter().map(|f| f.name()).collect();
    for (i, a) in names.iter().enumerate() {
        for (j, b) in names.iter().enumerate() {
            assert_eq!(eq_ignore_case(a, b), i == j);
        }
    }
}

#[test]
fn unknown_token_is_unknown_field() {
    assert_eq!(
        Query::from_str(&cpu_cmd(), "bogus"),
        Err(Failure::UnknownField { category: Category::Cpu, token: "bogus".to_string() })
    );
    assert_eq!(
        Query::from_str(&cpu_cmd(), ""),
        Err(Failure::UnknownField { category: Category::Cpu, token: String::new() })
    );
    // a field of another category
    assert_eq!(
        Query::from_str(&cpu_cmd(), "total"),
        Err(Failure::UnknownField { category: Category::Cpu, token: "total".to_string() })
    );
    // no prefix and no longer text
    assert!(Query::from_str(&cpu_cmd(), "usag").is_err());
    assert!(Query::from_str(&cpu_cmd(), "usage ").is_err());
}

#[test]
fn case_of_other_letters_matters() {
    // only ASCII letters are folded
    assert!(Query::from_str(&cpu_cmd(), "u\u{17f}age").is_err());
    assert!(Query::from_str(&cpu_cmd(), "br\u{e4}nd").is_err());
    assert!(!eq_ignore_case("\u{e4}", "\u{c4}"));
    assert!(eq_ignore_case("a-Z", "A-z"));
    assert!(!eq_ignore_case("a", "ab"));
    assert!(eq_ignore_case("", ""));
    // '@' and '`' stand next to the letters and are not letters
    assert!(!eq_ignore_case("@", "`"));
    assert!(!eq_ignore_case("[", "{"));
}

#[test]
fn listing_commands_take_no_field() {
    for cmd in [CliCommand::ListCpus, CliCommand::ListSensors, CliCommand::ListNetworks] {
        let category = cmd.category();
        assert_eq!(
            Query::from_str(&cmd, "usage"),
            Err(Failure::UnsupportedForTemplate { category })
        );
    }
}

#[test]
fn fields_become_queries() {
    assert_eq!(MemoryQuery::Free.to_query(), Query::Memory(MemoryQuery::Free));
    assert_eq!(
        to_queries(&vec![SwapQuery::Total, SwapQuery::Usage]),
        vec![Query::Swap(SwapQuery::Total), Query::Swap(SwapQuery::Usage)]
    );
    let cmd = CliCommand::Drive {
        name: "sda".to_string(),
        queries: vec![DriveQuery::Kind, DriveQuery::Fs],
    };
    assert_eq!(cmd.queries(), vec![Query::Drive(DriveQuery::Kind), Query::Drive(DriveQuery::Fs)]);
    assert!(CliCommand::ListCpus.queries().is_empty());
}

#[test]
fn failures_say_what_went_wrong() {
    let e = Failure::UnknownField { category: Category::Os, token: "bogus".to_string() };
    assert_eq!(e.message(), "invalid os query `bogus`");
    let e = Failure::TargetNotFound { category: Category::Cpu, name: "cpu9".to_string() };
    assert_eq!(e.message(), "cpu `cpu9` not found");
    let e = Failure::TargetNotFound { category: Category::Drive, name: "sdx1".to_string() };
    assert_eq!(e.message(), "drive 'sdx1' not found");
    let e = Failure::TargetNotFound { category: Category::Sensor, name: "gpu".to_string() };
    assert_eq!(e.message(), "sensor 'gpu' not found");
    let e = Failure::TargetNotFound { category: Category::Network, name: "wlan0".to_string() };
    assert_eq!(e.message(), "network `wlan0` not found");
    let e = Failure::UnsupportedForTemplate { category: Category::ListCpus };
    assert_eq!(e.message(), "this command does not take any arguments");
    assert_eq!(Failure::UnterminatedPlaceholder.message(), "unterminated format specifier");
    assert_eq!(
        Failure::InvalidDelimiter.message(),
        "invalid delimiter; are there any invalid escape sequences?"
    );
}
