use daylight_extender::cli::{Cli, LevelFilter};

fn cli(verbose: u8, silent: bool) -> Cli {
    Cli { host: "192.168.0.232".to_string(), total_day_length: 12, verbose, silent }
}

#[test]
fn log_level_by_verbosity() {
    assert_eq!(LevelFilter::Warn, cli(0, false).log_level());
    assert_eq!(LevelFilter::Info, cli(1, false).log_level());
    assert_eq!(LevelFilter::Debug, cli(2, false).log_level());
    assert_eq!(LevelFilter::Trace, cli(3, false).log_level());
    assert_eq!(LevelFilter::Trace, cli(255, false).log_level());
}

#[test]
fn log_level_silent_wins() {
    assert_eq!(LevelFilter::Off, cli(0, true).log_level());
    assert_eq!(LevelFilter::Off, cli(3, true).log_level());
}
