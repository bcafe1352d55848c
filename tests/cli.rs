use monzo_cli::cli::{
    seconds_before, CliError, CommandOptions, Parameters, SubCommands, TransactionWindow,
};

#[test]
fn subcommands_by_name() {
    assert_eq!(SubCommands::from_name("auth"), Some(SubCommands::Auth));
    assert_eq!(SubCommands::from_name("info"), Some(SubCommands::Info));
    assert_eq!(SubCommands::from_name("pots"), Some(SubCommands::Pots));
    assert_eq!(SubCommands::from_name("transactions"), Some(SubCommands::Transactions));
    assert_eq!(SubCommands::from_name("Auth"), None);
    assert_eq!(SubCommands::from_name(""), None);
}

#[test]
fn parameters_from_matches() {
    let p = Parameters::from_matches(None, 7, Some(0), false).unwrap();
    assert!(p.subcommand.is_none());
    assert!(p.options.is_none());
    let p = Parameters::from_matches(Some("pots"), 7, Some(0), false).unwrap();
    assert_eq!(p.subcommand, Some(SubCommands::Pots));
    assert!(p.options.is_none());
    let p = Parameters::from_matches(Some("transactions"), 3, Some(1), true).unwrap();
    assert_eq!(p.subcommand, Some(SubCommands::Transactions));
    assert_eq!(p.options, Some(CommandOptions { since: 3, before: Some(1), include_declined: true }));
    assert!(matches!(
        Parameters::from_matches(Some("nope"), 7, None, false),
        Err(CliError::UnknownSubcommand)
    ));
}

#[test]
fn transaction_window() {
    let now: i64 = 1_000_000;
    let o = CommandOptions { since: 7, before: Some(0), include_declined: false };
    assert_eq!(o.window(now), Ok(TransactionWindow { since: now - 7 * 86400, before: Some(now) }));
    let o = CommandOptions { since: 0, before: None, include_declined: false };
    assert_eq!(o.window(now), Ok(TransactionWindow { since: now, before: None }));
    let o = CommandOptions { since: 7, before: Some(7), include_declined: false };
    assert_eq!(o.window(now), Ok(TransactionWindow { since: now - 7 * 86400, before: Some(now - 7 * 86400) }));
    let o = CommandOptions { since: 3, before: Some(5), include_declined: false };
    assert_eq!(o.window(now), Err(CliError::BeforeEarlierThanSince));
    let o = CommandOptions { since: usize::MAX, before: None, include_declined: false };
    assert_eq!(o.window(now), Err(CliError::OutOfRange));
}

#[test]
fn seconds_before_bounds() {
    assert_eq!(seconds_before(86400, 1), Some(0));
    assert_eq!(seconds_before(0, 2), Some(-172800));
    assert_eq!(seconds_before(i64::MIN, 1), None);
    assert_eq!(seconds_before(i64::MIN, 0), Some(i64::MIN));
}
