use vstd::prelude::*;

verus! {

/// The parsed command line: which command to run, and its options.
pub struct Parameters {
    pub subcommand: Option<SubCommands>,
    pub options: Option<CommandOptions>,
}

/// The commands of the client; without one, a summary is shown.
#[derive(Debug, Clone, Copy, PartialEq, Eq, Structural)]
pub enum SubCommands {
    Auth,
    Info,
    Pots,
    Transactions,
}

/// The options of the `transactions` command, in days before today.
#[derive(Debug, Clone, Copy, PartialEq, Eq, Structural)]
pub struct CommandOptions {
    pub since: usize,
    pub before: Option<usize>,
    pub include_declined: bool,
}

/// Why a command line cannot be used.
#[derive(Debug, Clone, Copy, PartialEq, Eq, Structural)]
pub enum CliError {
    /// The command is not one of the client's.
    UnknownSubcommand,
    /// The end of the window lies before its start.
    BeforeEarlierThanSince,
    /// A bound lies too far back to be written as a timestamp.
    OutOfRange,
}

/// The command called `name`.
pub open spec fn subcommand_named(name: Seq<char>) -> Option<SubCommands> {
    if name == seq!['a', 'u', 't', 'h'] {
        Some(SubCommands::Auth)
    } else if name == seq!['i', 'n', 'f', 'o'] {
        Some(SubCommands::Info)
    } else if name == seq!['p', 'o', 't', 's'] {
        Some(SubCommands::Pots)
    } else if name == seq!['t', 'r', 'a', 'n', 's', 'a', 'c', 't', 'i', 'o', 'n', 's'] {
        Some(SubCommands::Transactions)
    } else {
        None
    }
}

impl SubCommands {
    /// The command called `name`, if there is one.
    pub fn from_name(name: &str) -> (r: Option<SubCommands>)
        ensures
            r == subcommand_named(name@),
    {
        let n = name.to_owned();
        proof {
            reveal_strlit("auth");
            reveal_strlit("info");
            reveal_strlit("pots");
            reveal_strlit("transactions");
        }
        if n == "auth".to_owned() {
            assert("auth"@ =~= seq!['a', 'u', 't', 'h']);
            Some(SubCommands::Auth)
        } else if n == "info".to_owned() {
            assert("info"@ =~= seq!['i', 'n', 'f', 'o']);
            Some(SubCommands::Info)
        } else if n == "pots".to_owned() {
            assert("pots"@ =~= seq!['p', 'o', 't', 's']);
            Some(SubCommands::Pots)
        } else if n == "transactions".to_owned() {
            assert("transactions"@ =~= seq!['t', 'r', 'a', 'n', 's', 'a', 'c', 't', 'i', 'o', 'n', 's']);
            Some(SubCommands::Transactions)
        } else {
            assert("auth"@ =~= seq!['a', 'u', 't', 'h']);
            assert("info"@ =~= seq!['i', 'n', 'f', 'o']);
            assert("pots"@ =~= seq!['p', 'o', 't', 's']);
            assert("transactions"@ =~= seq!['t', 'r', 'a', 'n', 's', 'a', 'c', 't', 'i', 'o', 'n', 's']);
            None
        }
    }
}

impl Parameters {
    /// The parameters for the command called `name` (none: the summary). Only
    /// the `transactions` command carries options.
    pub fn from_matches(
        name: Option<&str>,
        since: usize,
        before: Option<usize>,
        include_declined: bool,
    ) -> (r: Result<Parameters, CliError>)
        ensures
            name is None ==> (r matches Ok(p) && p.subcommand is None && p.options is None),
            name matches Some(n) ==> match subcommand_named(n@) {
                None => r == Err::<Parameters, CliError>(CliError::UnknownSubcommand),
                Some(c) => (r matches Ok(p) && p.subcommand == Some(c) && (if c
                    == SubCommands::Transactions {
                    p.options == Some(CommandOptions { since, before, include_declined })
                } else {
                    p.options is None
                })),
            },
    {
        match name {
            None => Ok(Parameters { subcommand: None, options: None }),
            Some(n) => match SubCommands::from_name(n) {
                None => Err(CliError::UnknownSubcommand),
                Some(SubCommands::Transactions) => Ok(
                    Parameters {
                        subcommand: Some(SubCommands::Transactions),
                        options: Some(CommandOptions { since, before, include_declined }),
                    },
                ),
                Some(c) => Ok(Parameters { subcommand: Some(c), options: None }),
            },
        }
    }
}

/// Seconds in a day.
pub const SECONDS_PER_DAY: i64 = 86400;

/// The moment `days` days before `now`, in seconds.
pub open spec fn days_before(now: int, days: int) -> int {
    now - days * SECONDS_PER_DAY
}

pub open spec fn fits_i64(x: int) -> bool {
    i64::MIN <= x <= i64::MAX
}

/// The window of transactions to list, as timestamps in seconds.
#[derive(Debug, Clone, Copy, PartialEq, Eq, Structural)]
pub struct TransactionWindow {
    pub since: i64,
    pub before: Option<i64>,
}

/// The moment `days` days before `now`, where it can be written.
pub fn seconds_before(now: i64, days: usize) -> (r: Option<i64>)
    ensures
        r matches Some(t) ==> t == days_before(now as int, days as int),
        r is None <==> !fits_i64(days_before(now as int, days as int)),
{
    let span: i128 = (days as i128) * (SECONDS_PER_DAY as i128);
    let t: i128 = (now as i128) - span;
    if t < i64::MIN as i128 || t > i64::MAX as i128 {
        None
    } else {
        Some(t as i64)
    }
}

impl CommandOptions {
    /// The window of transactions to list at the moment `now`: from `since`
    /// days ago, up to `before` days ago if that is given. A window whose end
    /// lies before its start is refused.
    pub fn window(&self, now: i64) -> (r: Result<TransactionWindow, CliError>)
        ensures
            match self.before {
                Some(b) => if b > self.since {
                    r == Err::<TransactionWindow, CliError>(CliError::BeforeEarlierThanSince)
                } else if fits_i64(days_before(now as int, self.since as int)) && fits_i64(
                    days_before(now as int, b as int),
                ) {
                    (r matches Ok(w) && w.since == days_before(now as int, self.since as int)
                        && w.before == Some(days_before(now as int, b as int) as i64))
                } else {
                    r == Err::<TransactionWindow, CliError>(CliError::OutOfRange)
                },
                None => if fits_i64(days_before(now as int, self.since as int)) {
                    (r matches Ok(w) && w.since == days_before(now as int, self.since as int)
                        && w.before is None)
                } else {
                    r == Err::<TransactionWindow, CliError>(CliError::OutOfRange)
                },
            },
    {
        if let Some(b) = self.before {
            if b > self.since {
                return Err(CliError::BeforeEarlierThanSince);
            }
        }
        let since = match seconds_before(now, self.since) {
            Some(t) => t,
            None => {
                return Err(CliError::OutOfRange);
            },
        };
        match self.before {
            Some(b) => match seconds_before(now, b) {
                Some(t) => Ok(TransactionWindow { since, before: Some(t) }),
                None => Err(CliError::OutOfRange),
            },
            None => Ok(TransactionWindow { since, before: None }),
        }
    }
}

} // verus!
