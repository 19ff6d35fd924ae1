use dshw::app::Application;
use dshw::cli::{Cli, CliCommand};
use dshw::escape::unescape_delimiter;
use dshw::failure::Failure;
use dshw::query::{Category, CpuQuery, MemoryQuery, OsQuery};
use dshw::snapshot::{CpuInfo, DriveInfo, MemoryInfo, SwapInfo, SystemInfo};
use dshw::template::{specifiers, split, substitute, unique, FmtContext};
use dshw::units::{DataUnit, Hundredths};

fn app() -> Application {
    let sys = SystemInfo {
        boot_time: 42,
        load_average: None,
        name: Some("Linux".to_string()),
        kernel_version: None,
        os_version: None,
        long_os_version: None,
        distribution_id: "debian".to_string(),
        host_name: Some("box".to_string()),
        physical_core_count: Some(4),
        global_cpu_usage: Hundredths(1234),
        cpu_arch: None,
        cpus: vec![CpuInfo {
            name: "cpu0".to_string(),
            usage: Hundredths(1234),
            frequency: 3600,
            brand: "Brand".to_string(),
            vendor_id: "Vendor".to_string(),
        }],
        memory: MemoryInfo {
            used: 4000000000,
            total: 16000000000,
            available: 12000000000,
            free: 11000000000,
        },
        swap: SwapInfo { used: 1, total: 2, free: 1 },
    };
    let drive = DriveInfo::new(
        "sda1".to_string(),
        "ext4".to_string(),
        true,
        "HDD".to_string(),
        "/home".to_string(),
        100,
        25,
    )
    .unwrap();
    Application::new(sys, vec![drive], vec![], vec![], DataUnit::Bytes)
}

fn memory() -> CliCommand {
    CliCommand::Memory { queries: vec![] }
}

fn cpu0() -> CliCommand {
    CliCommand::Cpu { name: "cpu0".to_string(), queries: vec![] }
}

fn strings(v: &[&str]) -> Vec<String> {
    v.iter().map(|s| s.to_string()).collect()
}

#[test]
fn placeholders_and_percent_sign_in_one_template() {
    let mut ctx = FmtContext::new();
    ctx.insert("usage".to_string(), "12.34".to_string());
    ctx.insert("total".to_string(), "16000000000".to_string());
    assert_eq!(
        substitute("CPU: %usage%%% Mem: %total%", &ctx),
        "CPU: 12.34% Mem: 16000000000"
    );
}

#[test]
fn the_same_through_a_snapshot() {
    assert_eq!(
        app().format_string(&memory(), "Used: %usage%%% of %total%"),
        Ok("Used: 4000000000% of 16000000000".to_string())
    );
}

#[test]
fn literal_text_comes_back_unchanged() {
    let a = app();
    assert_eq!(a.format_string(&memory(), "no placeholder"), Ok("no placeholder".to_string()));
    assert_eq!(a.format_string(&memory(), ""), Ok(String::new()));
    assert_eq!(a.format_string(&cpu0(), "a\nb\tc"), Ok("a\nb\tc".to_string()));
    assert_eq!(substitute("plain", &FmtContext::new()), "plain");
}

#[test]
fn formatting_twice_gives_the_same_text() {
    let a = app();
    let first = a.format_string(&cpu0(), "%usage% %brand% %usage%");
    let second = a.format_string(&cpu0(), "%usage% %brand% %usage%");
    assert_eq!(first, Ok("12.34 Brand 12.34".to_string()));
    assert_eq!(first, second);
}

#[test]
fn repeated_placeholder_is_resolved_once() {
    let specs = specifiers("%usage% %usage% %Usage% %usage%").unwrap();
    assert_eq!(specs, strings(&["usage", "usage", "Usage", "usage"]));
    assert_eq!(unique(&specs), strings(&["usage", "Usage"]));
    assert_eq!(
        app().format_string(&cpu0(), "%usage% %usage% %Usage% %usage%"),
        Ok("12.34 12.34 12.34 12.34".to_string())
    );
}

#[test]
fn unique_keeps_the_order_of_first_occurrence() {
    let specs = strings(&["b", "", "a", "b", "c", "", "a"]);
    assert_eq!(unique(&specs), strings(&["b", "a", "c"]));
    assert!(unique(&vec![]).is_empty());
    assert!(unique(&strings(&["", ""])).is_empty());
}

#[test]
fn double_percent_is_one_percent() {
    let a = app();
    assert_eq!(a.format_string(&memory(), "%%"), Ok("%".to_string()));
    assert_eq!(a.format_string(&memory(), "100%%"), Ok("100%".to_string()));
    assert_eq!(a.format_string(&memory(), "%%%%"), Ok("%%".to_string()));
    assert_eq!(a.format_string(&memory(), "a%%b%%c"), Ok("a%b%c".to_string()));
    assert_eq!(a.format_string(&memory(), "%total%%%"), Ok("16000000000%".to_string()));
    assert_eq!(a.format_string(&memory(), "%%%total%"), Ok("%16000000000".to_string()));
    assert_eq!(substitute("%%", &FmtContext::new()), "%");
}

#[test]
fn bogus_placeholder_is_unknown_field() {
    assert_eq!(
        app().format_string(&memory(), "%bogus%"),
        Err(Failure::UnknownField { category: Category::Memory, token: "bogus".to_string() })
    );
    // nothing of the template comes back, however much of it could be read
    assert_eq!(
        app().format_string(&memory(), "%total% %bogus% %free%"),
        Err(Failure::UnknownField { category: Category::Memory, token: "bogus".to_string() })
    );
}

#[test]
fn first_unknown_placeholder_is_reported() {
    assert_eq!(
        app().format_string(&memory(), "%total% %Zwei% %eins% %Zwei%"),
        Err(Failure::UnknownField { category: Category::Memory, token: "Zwei".to_string() })
    );
    // the token is reported as it was written
    assert_eq!(
        app().format_string(&cpu0(), "%TOTAL%"),
        Err(Failure::UnknownField { category: Category::Cpu, token: "TOTAL".to_string() })
    );
}

#[test]
fn unterminated_template_is_refused() {
    assert_eq!(app().format_string(&cpu0(), "%usage"), Err(Failure::UnterminatedPlaceholder));
    assert_eq!(app().format_string(&cpu0(), "%"), Err(Failure::UnterminatedPlaceholder));
    assert_eq!(app().format_string(&cpu0(), "usage%"), Err(Failure::UnterminatedPlaceholder));
    assert_eq!(
        app().format_string(&cpu0(), "%usage%%"),
        Err(Failure::UnterminatedPlaceholder)
    );
    assert_eq!(specifiers("%usage"), Err(Failure::UnterminatedPlaceholder));
}

#[test]
fn unterminated_comes_before_every_other_failure() {
    let missing = CliCommand::Cpu { name: "cpu9".to_string(), queries: vec![] };
    assert_eq!(app().format_string(&missing, "%bogus"), Err(Failure::UnterminatedPlaceholder));
    assert_eq!(
        app().format_string(&CliCommand::ListCpus, "%"),
        Err(Failure::UnterminatedPlaceholder)
    );
}

#[test]
fn missing_target_comes_before_unknown_field() {
    let missing = CliCommand::Drive { name: "sdx1".to_string(), queries: vec![] };
    let not_found =
        Err(Failure::TargetNotFound { category: Category::Drive, name: "sdx1".to_string() });
    assert_eq!(app().format_string(&missing, "%bogus%"), not_found);
    assert_eq!(app().format_string(&missing, "%total%"), not_found);
    // the command is bound even where the template has no placeholder
    assert_eq!(app().format_string(&missing, "text"), not_found);
}

#[test]
fn listing_commands_have_no_templates() {
    for cmd in [CliCommand::ListCpus, CliCommand::ListSensors, CliCommand::ListNetworks] {
        let category = cmd.category();
        assert_eq!(
            app().format_string(&cmd, "%name%"),
            Err(Failure::UnsupportedForTemplate { category })
        );
        assert_eq!(
            app().format_string(&cmd, "text"),
            Err(Failure::UnsupportedForTemplate { category })
        );
    }
}

#[test]
fn template_is_cut_at_every_percent() {
    assert_eq!(split(""), strings(&[""]));
    assert_eq!(split("abc"), strings(&["abc"]));
    assert_eq!(split("%"), strings(&["", ""]));
    assert_eq!(split("a%b%c"), strings(&["a", "b", "c"]));
    assert_eq!(split("%%"), strings(&["", "", ""]));
    assert_eq!(split("\u{e4}%\u{1f600}%"), strings(&["\u{e4}", "\u{1f600}", ""]));
}

#[test]
fn specifiers_are_every_second_piece() {
    assert_eq!(specifiers("a%b%c%d%e"), Ok(strings(&["b", "d"])));
    assert_eq!(specifiers("%%"), Ok(strings(&[""])));
    assert_eq!(specifiers("text"), Ok(vec![]));
    assert_eq!(specifiers("%a b%"), Ok(strings(&["a b"])));
    assert_eq!(specifiers("%a\nb%"), Ok(strings(&["a\nb"])));
}

#[test]
fn context_holds_each_placeholder_as_it_was_written() {
    let ctx = app()
        .create_fmt_ctx(&memory(), strings(&["total", "", "Total", "total", "free"]))
        .unwrap();
    assert_eq!(ctx.get(""), Some(&"%".to_string()));
    assert_eq!(ctx.get("total"), Some(&"16000000000".to_string()));
    assert_eq!(ctx.get("Total"), Some(&"16000000000".to_string()));
    assert_eq!(ctx.get("free"), Some(&"11000000000".to_string()));
    assert_eq!(ctx.get("TOTAL"), None);
    assert_eq!(ctx.get("usage"), None);
}

#[test]
fn context_without_placeholders_still_binds_the_command() {
    let ctx = app().create_fmt_ctx(&memory(), vec![]).unwrap();
    assert_eq!(ctx.get(""), Some(&"%".to_string()));
    let missing = CliCommand::Cpu { name: "cpu9".to_string(), queries: vec![] };
    assert!(app().create_fmt_ctx(&missing, vec![]).is_err());
    assert!(app().create_fmt_ctx(&CliCommand::ListCpus, vec![]).is_err());
}

#[test]
fn new_context_holds_the_percent_sign_only() {
    let mut ctx = FmtContext::new();
    assert_eq!(ctx.get(""), Some(&"%".to_string()));
    assert_eq!(ctx.get("a"), None);
    ctx.insert("a".to_string(), "1".to_string());
    ctx.insert("a".to_string(), "2".to_string());
    assert_eq!(ctx.get("a"), Some(&"2".to_string()));
}

#[test]
fn fields_of_the_system_in_a_template() {
    let os = CliCommand::Os { queries: vec![OsQuery::Name] };
    assert_eq!(
        app().format_string(&os, "%name%@%host-name% up since %BOOT-TIME% (%kernel-version%)"),
        Ok("Linux@box up since 42 ()".to_string())
    );
    let drive = CliCommand::Drive { name: "sda1".to_string(), queries: vec![] };
    assert_eq!(
        app().format_string(&drive, "%mount-point%: %usage%/%total% %is-removable%"),
        Ok("/home: 75/100 1".to_string())
    );
}

#[test]
fn compose_joins_fields_with_the_delimiter() {
    let cmd = CliCommand::Memory { queries: vec![MemoryQuery::Total, MemoryQuery::Free] };
    assert_eq!(app().compose(&cmd, None, ", "), Ok("16000000000, 11000000000\n".to_string()));
    assert_eq!(app().compose(&cmd, None, "\n"), Ok("16000000000\n11000000000\n".to_string()));
    let one = CliCommand::Cpu { name: "cpu0".to_string(), queries: vec![CpuQuery::Usage] };
    assert_eq!(app().compose(&one, None, ", "), Ok("12.34\n".to_string()));
}

#[test]
fn compose_prints_nothing_for_no_text() {
    assert_eq!(app().compose(&memory(), None, ", "), Ok(String::new()));
    assert_eq!(app().compose(&CliCommand::ListSensors, None, ", "), Ok(String::new()));
}

#[test]
fn compose_puts_a_template_on_a_line() {
    let cmd = CliCommand::Memory { queries: vec![MemoryQuery::Total] };
    assert_eq!(app().compose(&cmd, Some("%free%"), ", "), Ok("11000000000\n".to_string()));
    assert_eq!(app().compose(&cmd, Some(""), ", "), Ok("\n".to_string()));
    assert_eq!(app().compose(&cmd, Some("%free"), ", "), Err(Failure::UnterminatedPlaceholder));
}

#[test]
fn compose_fails_for_a_missing_target() {
    let missing = CliCommand::Drive { name: "sdx1".to_string(), queries: vec![] };
    assert_eq!(
        app().compose(&missing, None, ", "),
        Err(Failure::TargetNotFound { category: Category::Drive, name: "sdx1".to_string() })
    );
}

fn cli(cmd: CliCommand, delimiter: &str, fmt: Option<&str>) -> Cli {
    Cli {
        interval: None,
        run_times: 1,
        delimiter: delimiter.to_string(),
        cmd,
        fmt: fmt.map(|s| s.to_string()),
    }
}

#[test]
fn delimiter_is_unescaped() {
    let cmd = CliCommand::Memory { queries: vec![MemoryQuery::Total, MemoryQuery::Free] };
    assert_eq!(
        app().exec_cmd(&cli(cmd.clone(), "\\t", None)),
        Ok("16000000000\t11000000000\n".to_string())
    );
    assert_eq!(
        app().exec_cmd(&cli(cmd.clone(), "\\n", None)),
        Ok("16000000000\n11000000000\n".to_string())
    );
    assert_eq!(
        app().exec_cmd(&cli(cmd.clone(), " \\u{2192} ", None)),
        Ok("16000000000 \u{2192} 11000000000\n".to_string())
    );
    assert_eq!(
        app().exec_cmd(&cli(cmd, "\n", None)),
        Ok("16000000000\n11000000000\n".to_string())
    );
}

#[test]
fn delimiter_that_cannot_be_read_fails_first() {
    let cmd = CliCommand::Memory { queries: vec![MemoryQuery::Total] };
    assert_eq!(app().exec_cmd(&cli(cmd.clone(), "\\", None)), Err(Failure::InvalidDelimiter));
    assert_eq!(app().exec_cmd(&cli(cmd.clone(), "\\q", None)), Err(Failure::InvalidDelimiter));
    assert_eq!(
        app().exec_cmd(&cli(cmd, "\\", Some("%bogus"))),
        Err(Failure::InvalidDelimiter)
    );
}

#[test]
fn template_takes_the_place_of_the_fields() {
    let cmd = CliCommand::Memory { queries: vec![MemoryQuery::Total] };
    assert_eq!(
        app().exec_cmd(&cli(cmd, ", ", Some("free: %free%"))),
        Ok("free: 11000000000\n".to_string())
    );
}

#[test]
fn unescape_changes_what_is_escaped_only() {
    assert_eq!(unescape_delimiter(", "), Ok(", ".to_string()));
    assert_eq!(unescape_delimiter(""), Ok(String::new()));
    assert_eq!(unescape_delimiter("\\\\"), Ok("\\".to_string()));
    assert_eq!(unescape_delimiter("a\\tb"), Ok("a\tb".to_string()));
    assert_eq!(unescape_delimiter("\\x41"), Ok("A".to_string()));
    assert_eq!(unescape_delimiter("\\u00e4"), Ok("\u{e4}".to_string()));
    assert_eq!(unescape_delimiter("\\u12"), Err(Failure::InvalidDelimiter));
}
