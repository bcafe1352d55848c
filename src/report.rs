use vstd::prelude::*;
use crate::callback::pairs_view;

verus! {

/// The amount `minor`, in minor units of the ISO 4217 currency `code`, as
/// text with the currency's symbol and separators; `None` where `code` names
/// no ISO currency.
pub uninterp spec fn formatted_money(minor: int, code: Seq<char>) -> Option<Seq<char>>;

/// Relies on `rusty_money::iso::find` to look up the currency `code`, and on
/// the `Display` of `rusty_money::Money` built by `Money::from_minor`.
#[verifier::external_body]
fn money_text(minor: i64, code: &str) -> (r: Option<String>)
    ensures
        r is Some == formatted_money(minor as int, code@) is Some,
        r matches Some(t) ==> formatted_money(minor as int, code@) == Some(t@),
{
    rusty_money::iso::find(code).map(|c| rusty_money::Money::from_minor(minor, c).to_string())
}

/// Why a listing cannot be shown.
#[derive(Debug, Clone, Copy, PartialEq, Eq, Structural)]
pub enum ReportError {
    NoAccounts,
    NoPots,
    NoTransactions,
    /// A sort code is too short to be written in three groups.
    MalformedSortCode,
    /// An amount is in a currency that is not known.
    UnknownCurrency,
}

/// An account as the API lists it.
pub struct AccountRecord {
    pub account_number: String,
    pub sort_code: String,
}

/// A pot as the API lists it.
pub struct PotRecord {
    pub name: String,
    pub balance: i64,
    pub currency: String,
    pub deleted: bool,
}

/// A transaction as the API lists it; `created` is already written out.
pub struct TransactionRecord {
    pub description: String,
    pub category: String,
    pub created: String,
    pub amount: i64,
    pub currency: String,
    pub notes: String,
}

/// One line of the transaction listing.
pub struct TransactionRow {
    pub description: String,
    pub category: String,
    pub created: String,
    pub amount: String,
    pub notes: String,
}

/// The balances of an account, in minor units of `currency`.
pub struct BalanceRecord {
    pub balance: i64,
    pub total_balance: i64,
    pub spend_today: i64,
    pub currency: String,
}

/// The account summary, written out.
pub struct Summary {
    pub balance: String,
    pub total_balance: String,
    pub spend_today: String,
    pub open_pots: usize,
}

/// A sort code written in three groups: two digits, two digits, the rest.
pub open spec fn sort_code_text(s: Seq<char>) -> Option<Seq<char>> {
    if s.len() >= 4 {
        Some(
            s.subrange(0, 2) + seq!['-'] + s.subrange(2, 4) + seq!['-'] + s.subrange(
                4,
                s.len() as int,
            ),
        )
    } else {
        None
    }
}

/// `code` written in three groups separated by dashes, as `12-34-56`.
pub fn format_sort_code(code: &str) -> (r: Option<String>)
    ensures
        r matches Some(t) ==> sort_code_text(code@) == Some(t@),
        r is None ==> sort_code_text(code@) is None,
{
    let n = code.unicode_len();
    if n < 4 {
        return None;
    }
    proof {
        reveal_strlit("-");
    }
    let t = code.substring_char(0, 2).to_owned().concat("-").concat(code.substring_char(2, 4)).concat(
        "-",
    ).concat(code.substring_char(4, n));
    assert(t@ =~= code@.subrange(0, 2) + seq!['-'] + code@.subrange(2, 4) + seq!['-']
        + code@.subrange(4, n as int));
    Some(t)
}

/// The listing of the accounts: each account number with its sort code.
pub open spec fn account_rows_spec(accounts: Seq<AccountRecord>) -> Seq<(Seq<char>, Seq<char>)> {
    accounts.map_values(
        |a: AccountRecord| (a.account_number@, sort_code_text(a.sort_code@)->0),
    )
}

/// Whether every sort code can be written in groups.
pub open spec fn sort_codes_valid(accounts: Seq<AccountRecord>) -> bool {
    forall|i: int| 0 <= i < accounts.len() ==> sort_code_text(#[trigger] accounts[i].sort_code@) is Some
}

/// The rows of the account listing.
pub fn account_rows(accounts: &Vec<AccountRecord>) -> (r: Result<Vec<(String, String)>, ReportError>)
    ensures
        accounts@.len() == 0 ==> r == Err::<Vec<(String, String)>, ReportError>(ReportError::NoAccounts),
        accounts@.len() > 0 && !sort_codes_valid(accounts@) ==> r == Err::<
            Vec<(String, String)>,
            ReportError,
        >(ReportError::MalformedSortCode),
        accounts@.len() > 0 && sort_codes_valid(accounts@) ==> (r matches Ok(rows) && pairs_view(
            rows@,
        ) == account_rows_spec(accounts@)),
{
    if accounts.len() == 0 {
        return Err(ReportError::NoAccounts);
    }
    let mut rows: Vec<(String, String)> = Vec::new();
    let mut i: usize = 0;
    while i < accounts.len()
        invariant
            i <= accounts@.len(),
            forall|j: int| 0 <= j < i ==> sort_code_text(#[trigger] accounts@[j].sort_code@) is Some,
            pairs_view(rows@) == account_rows_spec(accounts@.take(i as int)),
        decreases accounts.len() - i,
    {
        let a = &accounts[i];
        match format_sort_code(a.sort_code.as_str()) {
            Some(code) => {
                let ghost before = rows@;
                let num = a.account_number.clone();
                rows.push((num, code));
                assert(accounts@.take(i + 1) =~= accounts@.take(i as int).push(accounts@[i as int]));
                assert(pairs_view(rows@) =~= pairs_view(before).push((num@, code@)));
                assert(account_rows_spec(accounts@.take(i + 1)) =~= account_rows_spec(
                    accounts@.take(i as int),
                ).push((accounts@[i as int].account_number@, code@)));
            },
            None => {
                return Err(ReportError::MalformedSortCode);
            },
        }
        i = i + 1;
    }
    assert(accounts@.take(i as int) =~= accounts@);
    Ok(rows)
}

/// The pots that have not been deleted, each with its balance written out.
pub open spec fn pot_rows_spec(pots: Seq<PotRecord>) -> Seq<(Seq<char>, Seq<char>)>
    decreases pots.len(),
{
    if pots.len() == 0 {
        Seq::empty()
    } else {
        let rest = pot_rows_spec(pots.drop_last());
        let p = pots.last();
        if p.deleted {
            rest
        } else {
            rest.push((p.name@, formatted_money(p.balance as int, p.currency@)->0))
        }
    }
}

/// Whether the currency of every pot that has not been deleted is known.
pub open spec fn pot_currencies_known(pots: Seq<PotRecord>) -> bool {
    forall|i: int|
        0 <= i < pots.len() && !pots[i].deleted ==> formatted_money(
            #[trigger] pots[i].balance as int,
            pots[i].currency@,
        ) is Some
}

/// The rows of the pot listing: the name and balance of each pot that has not
/// been deleted, in order.
pub fn pot_rows(pots: &Vec<PotRecord>) -> (r: Result<Vec<(String, String)>, ReportError>)
    ensures
        pots@.len() == 0 ==> r == Err::<Vec<(String, String)>, ReportError>(ReportError::NoPots),
        pots@.len() > 0 && !pot_currencies_known(pots@) ==> r == Err::<
            Vec<(String, String)>,
            ReportError,
        >(ReportError::UnknownCurrency),
        pots@.len() > 0 && pot_currencies_known(pots@) ==> (r matches Ok(rows) && pairs_view(
            rows@,
        ) == pot_rows_spec(pots@)),
{
    if pots.len() == 0 {
        return Err(ReportError::NoPots);
    }
    let mut rows: Vec<(String, String)> = Vec::new();
    let mut i: usize = 0;
    while i < pots.len()
        invariant
            i <= pots@.len(),
            pot_currencies_known(pots@.take(i as int)),
            pairs_view(rows@) == pot_rows_spec(pots@.take(i as int)),
        decreases pots.len() - i,
    {
        let p = &pots[i];
        assert(pots@.take(i + 1).drop_last() =~= pots@.take(i as int));
        if !p.deleted {
            match money_text(p.balance, p.currency.as_str()) {
                Some(t) => {
                    rows.push((p.name.clone(), t));
                },
                None => {
                    assert(!pot_currencies_known(pots@));
                    return Err(ReportError::UnknownCurrency);
                },
            }
        }
        assert(pairs_view(rows@) =~= pot_rows_spec(pots@.take(i + 1)));
        assert(pot_currencies_known(pots@.take(i + 1)));
        i = i + 1;
    }
    assert(pots@.take(i as int) =~= pots@);
    Ok(rows)
}

/// How many pots have not been deleted.
pub open spec fn open_pot_count(pots: Seq<PotRecord>) -> nat
    decreases pots.len(),
{
    if pots.len() == 0 {
        0
    } else {
        open_pot_count(pots.drop_last()) + if pots.last().deleted {
            0nat
        } else {
            1nat
        }
    }
}

proof fn lemma_open_pot_count_bound(pots: Seq<PotRecord>)
    ensures
        open_pot_count(pots) <= pots.len(),
    decreases pots.len(),
{
    if pots.len() > 0 {
        lemma_open_pot_count_bound(pots.drop_last());
    }
}

/// The number of pots that have not been deleted.
pub fn count_open_pots(pots: &Vec<PotRecord>) -> (r: usize)
    ensures
        r == open_pot_count(pots@),
{
    let mut n: usize = 0;
    let mut i: usize = 0;
    while i < pots.len()
        invariant
            i <= pots@.len(),
            n == open_pot_count(pots@.take(i as int)),
        decreases pots.len() - i,
    {
        assert(pots@.take(i + 1).drop_last() =~= pots@.take(i as int));
        proof {
            lemma_open_pot_count_bound(pots@.take(i as int));
        }
        if !pots[i].deleted {
            n = n + 1;
        }
        i = i + 1;
    }
    assert(pots@.take(i as int) =~= pots@);
    n
}

/// The summary of an account: its balances written out in its currency, and
/// the number of pots that have not been deleted.
pub fn summary(balance: &BalanceRecord, pots: &Vec<PotRecord>) -> (r: Result<Summary, ReportError>)
    ensures
        ({
            let code = balance.currency@;
            let b = formatted_money(balance.balance as int, code);
            let t = formatted_money(balance.total_balance as int, code);
            let s = formatted_money(balance.spend_today as int, code);
            if b is Some && t is Some && s is Some {
                r matches Ok(sm) && sm.balance@ == b->0 && sm.total_balance@ == t->0
                    && sm.spend_today@ == s->0 && sm.open_pots == open_pot_count(pots@)
            } else {
                r == Err::<Summary, ReportError>(ReportError::UnknownCurrency)
            }
        }),
{
    let code = balance.currency.as_str();
    let b = match money_text(balance.balance, code) {
        Some(t) => t,
        None => {
            return Err(ReportError::UnknownCurrency);
        },
    };
    let t = match money_text(balance.total_balance, code) {
        Some(t) => t,
        None => {
            return Err(ReportError::UnknownCurrency);
        },
    };
    let s = match money_text(balance.spend_today, code) {
        Some(t) => t,
        None => {
            return Err(ReportError::UnknownCurrency);
        },
    };
    Ok(Summary { balance: b, total_balance: t, spend_today: s, open_pots: count_open_pots(pots) })
}

/// The model of a transaction's row.
pub open spec fn transaction_row_spec(t: TransactionRecord) -> (
    Seq<char>,
    Seq<char>,
    Seq<char>,
    Seq<char>,
    Seq<char>,
) {
    (
        t.description@,
        t.category@,
        t.created@,
        formatted_money(t.amount as int, t.currency@)->0,
        t.notes@,
    )
}

/// The model of a row of the listing.
pub open spec fn row_view(r: TransactionRow) -> (Seq<char>, Seq<char>, Seq<char>, Seq<char>, Seq<char>) {
    (r.description@, r.category@, r.created@, r.amount@, r.notes@)
}

/// Whether the currency of every transaction is known.
pub open spec fn transaction_currencies_known(txs: Seq<TransactionRecord>) -> bool {
    forall|i: int|
        0 <= i < txs.len() ==> formatted_money(#[trigger] txs[i].amount as int, txs[i].currency@) is Some
}

/// The rows of the transaction listing, newest first: the API lists the oldest
/// first, so the rows come in reverse order.
pub fn transaction_rows(txs: &Vec<TransactionRecord>) -> (r: Result<Vec<TransactionRow>, ReportError>)
    ensures
        txs@.len() == 0 ==> r == Err::<Vec<TransactionRow>, ReportError>(ReportError::NoTransactions),
        txs@.len() > 0 && !transaction_currencies_known(txs@) ==> r == Err::<
            Vec<TransactionRow>,
            ReportError,
        >(ReportError::UnknownCurrency),
        txs@.len() > 0 && transaction_currencies_known(txs@) ==> (r matches Ok(rows) && rows@.len()
            == txs@.len() && forall|i: int|
            0 <= i < rows@.len() ==> row_view(#[trigger] rows@[i]) == transaction_row_spec(
                txs@[txs@.len() - 1 - i],
            )),
{
    let n = txs.len();
    if n == 0 {
        return Err(ReportError::NoTransactions);
    }
    let mut rows: Vec<TransactionRow> = Vec::new();
    let mut k: usize = 0;
    while k < n
        invariant
            n == txs@.len(),
            k <= n,
            rows@.len() == k,
            forall|j: int|
                n - k <= j < n ==> formatted_money(#[trigger] txs@[j].amount as int, txs@[j].currency@) is Some,
            forall|i: int|
                0 <= i < k ==> row_view(#[trigger] rows@[i]) == transaction_row_spec(txs@[n - 1 - i]),
        decreases n - k,
    {
        let t = &txs[n - 1 - k];
        let amount = match money_text(t.amount, t.currency.as_str()) {
            Some(a) => a,
            None => {
                return Err(ReportError::UnknownCurrency);
            },
        };
        rows.push(
            TransactionRow {
                description: t.description.clone(),
                category: t.category.clone(),
                created: t.created.clone(),
                amount,
                notes: t.notes.clone(),
            },
        );
        k = k + 1;
    }
    Ok(rows)
}

} // verus!
