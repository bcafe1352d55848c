use monzo_cli::report::{
    account_rows, count_open_pots, format_sort_code, pot_rows, summary, transaction_rows,
    AccountRecord, BalanceRecord, PotRecord, ReportError, TransactionRecord,
};

fn pot(name: &str, balance: i64, currency: &str, deleted: bool) -> PotRecord {
    PotRecord { name: name.to_string(), balance, currency: currency.to_string(), deleted }
}

fn tx(description: &str, amount: i64) -> TransactionRecord {
    TransactionRecord {
        description: description.to_string(),
        category: "general".to_string(),
        created: "2021-01-01".to_string(),
        amount,
        currency: "GBP".to_string(),
        notes: String::new(),
    }
}

#[test]
fn sort_code_groups() {
    assert_eq!(format_sort_code("123456"), Some("12-34-56".to_string()));
    assert_eq!(format_sort_code("1234"), Some("12-34-".to_string()));
    assert_eq!(format_sort_code("123"), None);
}

#[test]
fn account_listing() {
    let accounts = vec![AccountRecord { account_number: "0001".to_string(), sort_code: "040004".to_string() }];
    let rows = account_rows(&accounts).unwrap();
    assert_eq!(rows, vec![("0001".to_string(), "04-00-04".to_string())]);
    assert!(matches!(account_rows(&Vec::new()), Err(ReportError::NoAccounts)));
    let bad = vec![AccountRecord { account_number: "1".to_string(), sort_code: "04".to_string() }];
    assert!(matches!(account_rows(&bad), Err(ReportError::MalformedSortCode)));
}

#[test]
fn pot_listing_skips_deleted_pots() {
    let pots = vec![pot("Holiday", 1234, "GBP", false), pot("Old", 5, "GBP", true), pot("Bills", 0, "GBP", false)];
    let rows = pot_rows(&pots).unwrap();
    assert_eq!(rows.len(), 2);
    assert_eq!(rows[0].0, "Holiday");
    assert_eq!(rows[0].1, "£12.34");
    assert_eq!(rows[1].0, "Bills");
    assert_eq!(rows[1].1, "£0.00");
    assert_eq!(count_open_pots(&pots), 2);
}

#[test]
fn pot_listing_errors() {
    assert!(matches!(pot_rows(&Vec::new()), Err(ReportError::NoPots)));
    assert!(matches!(pot_rows(&vec![pot("X", 1, "ZZZ", false)]), Err(ReportError::UnknownCurrency)));
    assert_eq!(pot_rows(&vec![pot("X", 1, "ZZZ", true)]).unwrap().len(), 0);
}

#[test]
fn summary_counts_open_pots() {
    let b = BalanceRecord { balance: 1050, total_balance: 2050, spend_today: -300, currency: "GBP".to_string() };
    let pots = vec![pot("A", 1, "GBP", false), pot("B", 1, "GBP", true)];
    let s = summary(&b, &pots).unwrap();
    assert_eq!(s.balance, "£10.50");
    assert_eq!(s.total_balance, "£20.50");
    assert_eq!(s.open_pots, 1);
    let bad = BalanceRecord { balance: 1, total_balance: 1, spend_today: 1, currency: "ZZZ".to_string() };
    assert!(matches!(summary(&bad, &pots), Err(ReportError::UnknownCurrency)));
}

#[test]
fn transactions_newest_first() {
    let txs = vec![tx("first", 100), tx("second", 250)];
    let rows = transaction_rows(&txs).unwrap();
    assert_eq!(rows.len(), 2);
    assert_eq!(rows[0].description, "second");
    assert_eq!(rows[0].amount, "£2.50");
    assert_eq!(rows[1].description, "first");
    assert_eq!(rows[1].amount, "£1.00");
    assert!(matches!(transaction_rows(&Vec::new()), Err(ReportError::NoTransactions)));
}
