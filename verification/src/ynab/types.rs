//! YNAB API types and the helpers that summarise them.

use vstd::prelude::*;
use super::money::money_text;
pub use super::money::format_milliunits;
use crate::text::{
    occurs_at,    compare_str, contains_chars, contains_seq, lowercase, seq_le, to_chars, to_lowercase, copy_opt,
    views, opt_view, own, str_eq,
};

verus! {

// ============================================================================
// Users, plans and accounts
// ============================================================================

pub struct User {
    pub id: String,
    pub email: String,
}

pub struct Plan {
    pub id: String,
    pub name: String,
}

pub struct PlanSettings {
    pub currency_code: String,
    pub date_format: String,
}

pub struct Account {
    pub id: String,
    pub name: String,
    pub account_type: String,
    pub on_budget: bool,
    pub closed: bool,
    pub note: Option<String>,
    pub balance: i64,
    pub cleared_balance: i64,
    pub uncleared_balance: i64,
    pub transfer_payee_id: String,
    pub deleted: bool,
}

/// Display-friendly account with formatted balances (for LLM).
pub struct DisplayAccount {
    pub id: String,
    pub name: String,
    pub account_type: String,
    pub on_budget: bool,
    pub balance: String,
    pub cleared_balance: String,
    pub uncleared_balance: String,
}

impl DisplayAccount {
    /// The account with its balances formatted as money.
    pub fn from_account(account: &Account) -> (r: Self)
        ensures
            r.id@ == account.id@,
            r.name@ == account.name@,
            r.account_type@ == account.account_type@,
            r.on_budget == account.on_budget,
            r.balance@ == money_text(account.balance as int),
            r.cleared_balance@ == money_text(account.cleared_balance as int),
            r.uncleared_balance@ == money_text(account.uncleared_balance as int),
    {
        DisplayAccount {
            id: account.id.clone(),
            name: account.name.clone(),
            account_type: account.account_type.clone(),
            on_budget: account.on_budget,
            balance: format_milliunits(account.balance),
            cleared_balance: format_milliunits(account.cleared_balance),
            uncleared_balance: format_milliunits(account.uncleared_balance),
        }
    }
}

// ============================================================================
// Categories, payees and months
// ============================================================================

pub struct CategoryGroup {
    pub id: String,
    pub name: String,
    pub hidden: bool,
    pub deleted: bool,
    pub categories: Vec<Category>,
}

pub struct Category {
    pub id: String,
    pub name: String,
    pub hidden: bool,
    pub deleted: bool,
    pub category_type: Option<String>,
}

pub struct MonthCategory {
    pub id: String,
    pub category_id: String,
    pub month: String,
    pub activity: i64,
    pub budgeted: i64,
}

pub struct Payee {
    pub id: String,
    pub name: String,
    pub deleted: bool,
}

pub struct Month {
    pub month: String,
    pub note: Option<String>,
    pub income: i64,
    pub budgeted: i64,
    pub activity: i64,
}

// ============================================================================
// Transactions
// ============================================================================

/// How far a transaction has been reconciled with the bank.
#[derive(Clone, Copy, Debug, PartialEq, Eq, Structural)]
pub enum ClearedStatus {
    Cleared,
    Uncleared,
    Reconciled,
}

impl ClearedStatus {
    /// The status that the API's wire name stands for: `"cleared"`,
    /// `"uncleared"` or `"reconciled"`; `None` for any other name.
    pub fn from_wire(name: &str) -> (r: Option<ClearedStatus>)
        ensures
            r == (if name@ == "cleared"@ {
                Some(ClearedStatus::Cleared)
            } else if name@ == "uncleared"@ {
                Some(ClearedStatus::Uncleared)
            } else if name@ == "reconciled"@ {
                Some(ClearedStatus::Reconciled)
            } else {
                None
            }),
    {
        if str_eq(name, "cleared") {
            Some(ClearedStatus::Cleared)
        } else if str_eq(name, "uncleared") {
            Some(ClearedStatus::Uncleared)
        } else if str_eq(name, "reconciled") {
            Some(ClearedStatus::Reconciled)
        } else {
            None
        }
    }

    /// The variant's name, as `{:?}` prints it.
    pub fn debug_name(&self) -> (r: String)
        ensures
            r@ == cleared_name(*self),
    {
        match self {
            ClearedStatus::Cleared => own("Cleared"),
            ClearedStatus::Uncleared => own("Uncleared"),
            ClearedStatus::Reconciled => own("Reconciled"),
        }
    }
}

/// The name of a cleared status, as `{:?}` writes it.
pub open spec fn cleared_name(c: ClearedStatus) -> Seq<char> {
    match c {
        ClearedStatus::Cleared => "Cleared"@,
        ClearedStatus::Uncleared => "Uncleared"@,
        ClearedStatus::Reconciled => "Reconciled"@,
    }
}

/// A transaction. `amount_currency` holds the bits (`f64::to_bits`) of the
/// API's floating-point amount, which the library only carries along.
#[derive(Clone)]
pub struct Transaction {
    pub id: String,
    pub date: String,
    pub amount: i64,
    pub amount_formatted: Option<String>,
    pub amount_currency: Option<u64>,
    pub memo: Option<String>,
    pub cleared: ClearedStatus,
    pub approved: bool,
    pub flag_color: Option<String>,
    pub flag_name: Option<String>,
    pub account_id: String,
    pub account_name: Option<String>,
    pub payee_id: Option<String>,
    pub payee_name: Option<String>,
    pub category_id: Option<String>,
    pub category_name: Option<String>,
    pub transfer_account_id: Option<String>,
    pub transfer_transaction_id: Option<String>,
    pub matched_transaction_id: Option<String>,
    pub import_id: Option<String>,
    pub import_payee_name: Option<String>,
    pub import_payee_name_original: Option<String>,
    pub debt_transaction_type: Option<String>,
    pub deleted: bool,
    pub subtransactions: Vec<SubTransaction>,
}

#[derive(Clone)]
pub struct SubTransaction {
    pub id: String,
    pub transaction_id: String,
    pub amount: i64,
    pub memo: Option<String>,
    pub payee_id: Option<String>,
    pub payee_name: Option<String>,
    pub category_id: Option<String>,
    pub category_name: Option<String>,
    pub transfer_account_id: Option<String>,
    pub transfer_transaction_id: Option<String>,
    pub deleted: bool,
}

/// A transaction as plain values.
pub struct TransactionView {
    pub id: Seq<char>,
    pub date: Seq<char>,
    pub amount: i64,
    pub amount_formatted: Option<Seq<char>>,
    pub amount_currency: Option<u64>,
    pub memo: Option<Seq<char>>,
    pub cleared: ClearedStatus,
    pub approved: bool,
    pub flag_color: Option<Seq<char>>,
    pub flag_name: Option<Seq<char>>,
    pub account_id: Seq<char>,
    pub account_name: Option<Seq<char>>,
    pub payee_id: Option<Seq<char>>,
    pub payee_name: Option<Seq<char>>,
    pub category_id: Option<Seq<char>>,
    pub category_name: Option<Seq<char>>,
    pub transfer_account_id: Option<Seq<char>>,
    pub transfer_transaction_id: Option<Seq<char>>,
    pub matched_transaction_id: Option<Seq<char>>,
    pub import_id: Option<Seq<char>>,
    pub import_payee_name: Option<Seq<char>>,
    pub import_payee_name_original: Option<Seq<char>>,
    pub debt_transaction_type: Option<Seq<char>>,
    pub deleted: bool,
    pub subtransactions: Seq<SubTransactionView>,
}

/// A subtransaction as plain values.
pub struct SubTransactionView {
    pub id: Seq<char>,
    pub transaction_id: Seq<char>,
    pub amount: i64,
    pub memo: Option<Seq<char>>,
    pub payee_id: Option<Seq<char>>,
    pub payee_name: Option<Seq<char>>,
    pub category_id: Option<Seq<char>>,
    pub category_name: Option<Seq<char>>,
    pub transfer_account_id: Option<Seq<char>>,
    pub transfer_transaction_id: Option<Seq<char>>,
    pub deleted: bool,
}

impl View for SubTransaction {
    type V = SubTransactionView;

    open spec fn view(&self) -> SubTransactionView {
        SubTransactionView {
            id: self.id@,
            transaction_id: self.transaction_id@,
            amount: self.amount,
            memo: opt_view(self.memo),
            payee_id: opt_view(self.payee_id),
            payee_name: opt_view(self.payee_name),
            category_id: opt_view(self.category_id),
            category_name: opt_view(self.category_name),
            transfer_account_id: opt_view(self.transfer_account_id),
            transfer_transaction_id: opt_view(self.transfer_transaction_id),
            deleted: self.deleted,
        }
    }
}

/// The subtransactions as plain values.
pub open spec fn sub_views(s: Seq<SubTransaction>) -> Seq<SubTransactionView> {
    s.map_values(|x: SubTransaction| x@)
}

impl View for Transaction {
    type V = TransactionView;

    open spec fn view(&self) -> TransactionView {
        TransactionView {
            id: self.id@,
            date: self.date@,
            amount: self.amount,
            amount_formatted: opt_view(self.amount_formatted),
            amount_currency: self.amount_currency,
            memo: opt_view(self.memo),
            cleared: self.cleared,
            approved: self.approved,
            flag_color: opt_view(self.flag_color),
            flag_name: opt_view(self.flag_name),
            account_id: self.account_id@,
            account_name: opt_view(self.account_name),
            payee_id: opt_view(self.payee_id),
            payee_name: opt_view(self.payee_name),
            category_id: opt_view(self.category_id),
            category_name: opt_view(self.category_name),
            transfer_account_id: opt_view(self.transfer_account_id),
            transfer_transaction_id: opt_view(self.transfer_transaction_id),
            matched_transaction_id: opt_view(self.matched_transaction_id),
            import_id: opt_view(self.import_id),
            import_payee_name: opt_view(self.import_payee_name),
            import_payee_name_original: opt_view(self.import_payee_name_original),
            debt_transaction_type: opt_view(self.debt_transaction_type),
            deleted: self.deleted,
            subtransactions: sub_views(self.subtransactions@),
        }
    }
}

/// The views of a list of transactions.
pub open spec fn tx_views(s: Seq<Transaction>) -> Seq<TransactionView> {
    s.map_values(|t: Transaction| t@)
}

impl SubTransaction {
    /// A copy with the same contents.
    pub fn copied(&self) -> (r: Self)
        ensures
            r@ == self@,
    {
        SubTransaction {
            id: self.id.clone(),
            transaction_id: self.transaction_id.clone(),
            amount: self.amount,
            memo: copy_opt(&self.memo),
            payee_id: copy_opt(&self.payee_id),
            payee_name: copy_opt(&self.payee_name),
            category_id: copy_opt(&self.category_id),
            category_name: copy_opt(&self.category_name),
            transfer_account_id: copy_opt(&self.transfer_account_id),
            transfer_transaction_id: copy_opt(&self.transfer_transaction_id),
            deleted: self.deleted,
        }
    }
}

impl Transaction {
    /// A copy with the same contents.
    pub fn copied(&self) -> (r: Self)
        ensures
            r@ == self@,
    {
        let mut subs: Vec<SubTransaction> = Vec::new();
        let n = self.subtransactions.len();
        for i in 0..n
            invariant
                n == self.subtransactions@.len(),
                sub_views(subs@) == sub_views(self.subtransactions@).take(i as int),
        {
            let ghost before = subs@;
            subs.push(self.subtransactions[i].copied());
            assert(sub_views(subs@) == sub_views(before).push(self.subtransactions@[i as int]@));
            assert(sub_views(self.subtransactions@).take(i + 1) == sub_views(
                self.subtransactions@,
            ).take(i as int).push(self.subtransactions@[i as int]@));
        }
        assert(sub_views(self.subtransactions@).take(n as int) == sub_views(
            self.subtransactions@,
        ));
        Transaction {
            id: self.id.clone(),
            date: self.date.clone(),
            amount: self.amount,
            amount_formatted: copy_opt(&self.amount_formatted),
            amount_currency: self.amount_currency,
            memo: copy_opt(&self.memo),
            cleared: self.cleared,
            approved: self.approved,
            flag_color: copy_opt(&self.flag_color),
            flag_name: copy_opt(&self.flag_name),
            account_id: self.account_id.clone(),
            account_name: copy_opt(&self.account_name),
            payee_id: copy_opt(&self.payee_id),
            payee_name: copy_opt(&self.payee_name),
            category_id: copy_opt(&self.category_id),
            category_name: copy_opt(&self.category_name),
            transfer_account_id: copy_opt(&self.transfer_account_id),
            transfer_transaction_id: copy_opt(&self.transfer_transaction_id),
            matched_transaction_id: copy_opt(&self.matched_transaction_id),
            import_id: copy_opt(&self.import_id),
            import_payee_name: copy_opt(&self.import_payee_name),
            import_payee_name_original: copy_opt(&self.import_payee_name_original),
            debt_transaction_type: copy_opt(&self.debt_transaction_type),
            deleted: self.deleted,
            subtransactions: subs,
        }
    }
}

/// Display-friendly transaction with formatted amount.
pub struct DisplayTransaction {
    pub id: String,
    pub date: String,
    pub amount: String,
    pub memo: Option<String>,
    pub cleared: String,
    pub account_name: Option<String>,
    pub payee_name: Option<String>,
    pub category_name: Option<String>,
}

impl DisplayTransaction {
    /// The transaction with its amount as text: the API's own formatting when
    /// it sent one, else the amount formatted as money.
    pub fn from_transaction(tx: &Transaction) -> (r: Self)
        ensures
            r.id@ == tx.id@,
            r.date@ == tx.date@,
            r.amount@ == (match tx.amount_formatted {
                Some(f) => f@,
                None => money_text(tx.amount as int),
            }),
            opt_view(r.memo) == opt_view(tx.memo),
            r.cleared@ == cleared_name(tx.cleared),
            opt_view(r.account_name) == opt_view(tx.account_name),
            opt_view(r.payee_name) == opt_view(tx.payee_name),
            opt_view(r.category_name) == opt_view(tx.category_name),
    {
        let amount = match &tx.amount_formatted {
            Some(f) => f.clone(),
            None => format_milliunits(tx.amount),
        };
        DisplayTransaction {
            id: tx.id.clone(),
            date: tx.date.clone(),
            amount,
            memo: copy_opt(&tx.memo),
            cleared: tx.cleared.debug_name(),
            account_name: copy_opt(&tx.account_name),
            payee_name: copy_opt(&tx.payee_name),
            category_name: copy_opt(&tx.category_name),
        }
    }
}

#[derive(Clone)]
pub struct ScheduledTransaction {
    pub id: String,
    pub date_first: Option<String>,
    pub date_next: Option<String>,
    pub frequency: String,
    pub amount: i64,
    pub amount_formatted: Option<String>,
    /// Bits (`f64::to_bits`) of the API's floating-point amount.
    pub amount_currency: Option<u64>,
    pub memo: Option<String>,
    pub flag_color: Option<String>,
    pub flag_name: Option<String>,
    pub account_id: String,
    pub account_name: Option<String>,
    pub payee_id: Option<String>,
    pub payee_name: Option<String>,
    pub category_id: Option<String>,
    pub category_name: Option<String>,
    pub transfer_account_id: Option<String>,
    pub deleted: bool,
    pub subtransactions: Vec<SubTransaction>,
}

pub struct MoneyMovement {
    pub id: String,
    pub month: String,
    pub moved_at: Option<String>,
    pub note: Option<String>,
    pub money_movement_group_id: Option<String>,
    pub performed_by_user_id: Option<String>,
    pub from_category_id: Option<String>,
    pub to_category_id: Option<String>,
    pub amount: i64,
    pub amount_formatted: Option<String>,
    /// Bits (`f64::to_bits`) of the API's floating-point amount.
    pub amount_currency: Option<u64>,
    pub deleted: bool,
}

// ============================================================================
// API response envelopes: the API wraps each answer in `data`
// ============================================================================

pub struct UserResponse {
    pub data: UserData,
}

pub struct UserData {
    pub user: User,
}

pub struct PlansResponse {
    pub data: PlansData,
}

pub struct PlansData {
    pub plans: Vec<Plan>,
}

pub struct PlanResponse {
    pub data: PlanData,
}

pub struct PlanData {
    pub plan: Plan,
}

pub struct PlanSettingsResponse {
    pub data: PlanSettingsData,
}

pub struct PlanSettingsData {
    pub settings: PlanSettings,
}

pub struct AccountsResponse {
    pub data: AccountsData,
}

pub struct AccountsData {
    pub accounts: Vec<Account>,
}

pub struct AccountResponse {
    pub data: AccountData,
}

pub struct AccountData {
    pub account: Account,
}

pub struct CategoryGroupsResponse {
    pub data: CategoryGroupsData,
}

pub struct CategoryGroupsData {
    pub category_groups: Vec<CategoryGroup>,
}

pub struct CategoryResponse {
    pub data: CategoryData,
}

pub struct CategoryData {
    pub category: Category,
}

pub struct MonthCategoryResponse {
    pub data: MonthCategoryData,
}

pub struct MonthCategoryData {
    pub month_category: MonthCategory,
}

pub struct PayeesResponse {
    pub data: PayeesData,
}

pub struct PayeesData {
    pub payees: Vec<Payee>,
}

pub struct PayeeResponse {
    pub data: PayeeData,
}

pub struct PayeeData {
    pub payee: Payee,
}

pub struct MonthsResponse {
    pub data: MonthsData,
}

pub struct MonthsData {
    pub months: Vec<Month>,
}

pub struct MonthResponse {
    pub data: MonthData,
}

pub struct MonthData {
    pub month: Month,
}

pub struct TransactionsResponse {
    pub data: TransactionsData,
}

pub struct TransactionsData {
    pub transactions: Vec<Transaction>,
}

pub struct TransactionResponse {
    pub data: TransactionData,
}

pub struct TransactionData {
    pub transaction: Transaction,
}

pub struct ScheduledTransactionsResponse {
    pub data: ScheduledTransactionsData,
}

pub struct ScheduledTransactionsData {
    pub scheduled_transactions: Vec<ScheduledTransaction>,
}

pub struct ScheduledTransactionResponse {
    pub data: ScheduledTransactionData,
}

pub struct ScheduledTransactionData {
    pub scheduled_transaction: ScheduledTransaction,
}

pub struct MoneyMovementsResponse {
    pub data: MoneyMovementsData,
}

pub struct MoneyMovementsData {
    pub money_movements: Vec<MoneyMovement>,
}

// ============================================================================
// Summaries of transactions
// ============================================================================

/// Whether a transaction counts toward category `cat`: not deleted, and
/// filed under that category.
pub open spec fn counts_for(t: Transaction, cat: Seq<char>) -> bool {
    !t.deleted && opt_view(t.category_id) == Some(cat)
}

/// The sum of the amounts of the transactions that count toward `cat`.
pub open spec fn category_total(txs: Seq<Transaction>, cat: Seq<char>) -> int
    decreases txs.len(),
{
    if txs.len() == 0 {
        0
    } else {
        category_total(txs.drop_last(), cat) + if counts_for(txs.last(), cat) {
            txs.last().amount as int
        } else {
            0
        }
    }
}

/// The payee a transaction is grouped under: its payee name, or `Unknown`.
pub open spec fn payee_key(t: Transaction) -> Seq<char> {
    match t.payee_name {
        Some(n) => n@,
        None => "Unknown"@,
    }
}

/// The sum of the amounts that count toward `cat` and are grouped under `key`.
pub open spec fn payee_total(txs: Seq<Transaction>, cat: Seq<char>, key: Seq<char>) -> int
    decreases txs.len(),
{
    if txs.len() == 0 {
        0
    } else {
        payee_total(txs.drop_last(), cat, key) + if counts_for(txs.last(), cat) && payee_key(
            txs.last(),
        ) == key {
            txs.last().amount as int
        } else {
            0
        }
    }
}

/// Whether some transaction that counts toward `cat` is grouped under `key`.
pub open spec fn has_payee(txs: Seq<Transaction>, cat: Seq<char>, key: Seq<char>) -> bool {
    exists|i: int| 0 <= i < txs.len() && counts_for(txs[i], cat) && #[trigger] payee_key(txs[i]) == key
}

/// Totals per payee name. No name occurs twice.
pub struct PayeeTotals {
    names: Vec<String>,
    totals: Vec<i64>,
}

impl PayeeTotals {
    /// The (name, total) pairs, in no particular order.
    pub closed spec fn pairs(&self) -> Seq<(Seq<char>, i64)> {
        Seq::new(self.names@.len(), |i: int| (self.names@[i]@, self.totals@[i]))
    }

    /// Well-formed: one total per name, and no name twice.
    pub closed spec fn wf(&self) -> bool {
        &&& self.names@.len() == self.totals@.len()
        &&& forall|i: int, j: int|
            0 <= i < j < self.names@.len() ==> self.names@[i]@ != self.names@[j]@
    }

/// No payee name has two totals.
    pub proof fn lemma_pairs(&self)
        requires
            self.wf(),
        ensures
            forall|i: int, j: int|
                0 <= i < j < self.pairs().len() ==> #[trigger] self.pairs()[i].0 != #[trigger] self.pairs()[j].0,
    {
    }

    /// The total for `name`, if `name` has one.
    pub fn get(&self, name: &str) -> (r: Option<&i64>)
        requires
            self.wf(),
        ensures
            match r {
                Some(v) => exists|i: int|
                    0 <= i < self.pairs().len() && self.pairs()[i] == (name@, *v),
                None => forall|i: int| 0 <= i < self.pairs().len() ==> self.pairs()[i].0 != name@,
            },
    {
        let n = self.names.len();
        for i in 0..n
            invariant
                self.wf(),
                n == self.names@.len(),
                forall|j: int| 0 <= j < i ==> self.names@[j]@ != name@,
        {
            if str_eq(self.names[i].as_str(), name) {
                assert(self.pairs()[i as int] == (name@, self.totals@[i as int]));
                return Some(&self.totals[i]);
            }
        }
        None
    }

    /// The number of names.
    pub fn len(&self) -> (r: usize)
        ensures
            r == self.pairs().len(),
    {
        self.names.len()
    }

/// Whether there are no totals.
    pub fn is_empty(&self) -> (r: bool)
        ensures
            r == (self.pairs().len() == 0),
    {
        self.names.len() == 0
    }
}

/// Aggregate transactions by payee name, returning (name, total_amount).
///
/// Only transactions that are not deleted and belong to `category_id` count;
/// one without a payee name counts under `Unknown`.
pub fn aggregate_by_payee(transactions: &[Transaction], category_id: &str) -> (r: PayeeTotals)
    requires
        forall|k: int, key: Seq<char>|
            0 <= k <= transactions@.len() ==> i64::MIN <= #[trigger] payee_total(
                transactions@.take(k),
                category_id@,
                key,
            ) <= i64::MAX,
    ensures
        r.wf(),
        forall|i: int|
            0 <= i < r.pairs().len() ==> {
                &&& has_payee(transactions@, category_id@, #[trigger] r.pairs()[i].0)
                &&& r.pairs()[i].1 == payee_total(transactions@, category_id@, r.pairs()[i].0)
            },
        forall|key: Seq<char>|
            #[trigger] has_payee(transactions@, category_id@, key) ==> exists|i: int|
                0 <= i < r.pairs().len() && r.pairs()[i].0 == key,
        int_sum(r.pairs().map_values(|p: (Seq<char>, i64)| p.1 as int)) == category_total(
            transactions@,
            category_id@,
        ),
{
    let ghost cat = category_id@;
    let ghost txs = transactions@;
    let mut names: Vec<String> = Vec::new();
    let mut totals: Vec<i64> = Vec::new();
    let n = transactions.len();
    let mut i: usize = 0;
    while i < n
        invariant
            i <= n,
            n == txs.len(),
            txs == transactions@,
            cat == category_id@,
            forall|k: int, key: Seq<char>|
                0 <= k <= txs.len() ==> i64::MIN <= #[trigger] payee_total(txs.take(k), cat, key)
                    <= i64::MAX,
            names@.len() == totals@.len(),
            forall|a: int, b: int| 0 <= a < b < names@.len() ==> names@[a]@ != names@[b]@,
            forall|j: int|
                0 <= j < names@.len() ==> {
                    &&& has_payee(txs.take(i as int), cat, #[trigger] names@[j]@)
                    &&& totals@[j] == payee_total(txs.take(i as int), cat, names@[j]@)
                },
            forall|key: Seq<char>|
                #[trigger] has_payee(txs.take(i as int), cat, key) ==> name_listed(names@, key),
            int_sum(totals@.map_values(|t: i64| t as int)) == category_total(txs.take(i as int), cat),
        decreases n - i,
    {
        let ghost pre = txs.take(i as int);
        let ghost post = txs.take(i + 1);
        assert(post.drop_last() == pre);
        assert(post.last() == txs[i as int]);
        let tx = &transactions[i];
        let counted = !tx.deleted && match &tx.category_id {
            Some(cid) => str_eq(cid.as_str(), category_id),
            None => false,
        };
        assert(counted == counts_for(txs[i as int], cat));
        let ghost sums = totals@.map_values(|t: i64| t as int);
        assert(category_total(post, cat) == category_total(pre, cat) + if counted {
            tx.amount as int
        } else {
            0
        });
        assert forall|key: Seq<char>| has_payee(pre, cat, key) implies #[trigger] has_payee(
            post,
            cat,
            key,
        ) by {
            let w = choose|w: int|
                0 <= w < pre.len() && counts_for(pre[w], cat) && #[trigger] payee_key(pre[w])
                    == key;
            assert(post[w] == pre[w]);
        }
        assert forall|k2: Seq<char>| #[trigger]
            has_payee(post, cat, k2) implies has_payee(pre, cat, k2) || (counted && k2
                == payee_key(txs[i as int])) by {
            let w = choose|w: int|
                0 <= w < post.len() && counts_for(post[w], cat) && #[trigger] payee_key(post[w])
                    == k2;
            if w < i {
                assert(pre[w] == post[w]);
            }
        }
        if !counted {
            assert forall|k2: Seq<char>| #[trigger]
                has_payee(post, cat, k2) implies name_listed(names@, k2) by {
                assert(has_payee(txs.take(i as int), cat, k2));
            }
        }
        if counted {
            let key = match &tx.payee_name {
                Some(p) => p.clone(),
                None => own("Unknown"),
            };
            assert(key@ == payee_key(txs[i as int]));
            assert(has_payee(post, cat, key@)) by {
                assert(payee_key(post[i as int]) == key@);
            }
            match find_name(&names, key.as_str()) {
                Some(found) => {
                    assert(payee_total(post, cat, key@) == payee_total(pre, cat, key@)
                        + tx.amount);
                    assert(i64::MIN <= payee_total(post, cat, key@) <= i64::MAX);
                    let v = totals[found] + tx.amount;
                    totals.set(found, v);
                    proof {
                        assert(totals@.map_values(|t: i64| t as int) =~= sums.update(
                            found as int,
                            v as int,
                        ));
                        lemma_int_sum_update(sums, found as int, v as int);
                    }
                    assert forall|k2: Seq<char>| #[trigger]
                        has_payee(post, cat, k2) implies name_listed(names@, k2) by {
                        if !has_payee(pre, cat, k2) {
                            assert(names@[found as int]@ == k2);
                        }
                    }
                },
                None => {
                    assert(!has_payee(pre, cat, key@));
                    assert(payee_total(post, cat, key@) == payee_total(pre, cat, key@)
                        + tx.amount);
                    proof {
                        lemma_absent_payee_total(pre, cat, key@);
                    }
                    let ghost old_names = names@;
                    names.push(key);
                    totals.push(tx.amount);
                    assert(totals@.map_values(|t: i64| t as int).drop_last() =~= sums);
                    assert forall|k2: Seq<char>| #[trigger]
                        has_payee(post, cat, k2) implies name_listed(names@, k2) by {
                        if !has_payee(pre, cat, k2) {
                            assert(names@[old_names.len() as int]@ == k2);
                        } else {
                            assert(has_payee(txs.take(i as int), cat, k2));
                            assert(name_listed(old_names, k2));
                            let j = choose|j: int|
                                0 <= j < old_names.len() && old_names[j]@ == k2;
                            assert(names@[j] == old_names[j]);
                        }
                    }
                },
            }
        }
        i = i + 1;
    }
    assert(txs.take(n as int) == txs);
    let r = PayeeTotals { names, totals };
    assert(r.pairs().map_values(|p: (Seq<char>, i64)| p.1 as int) =~= r.totals@.map_values(
        |t: i64| t as int,
    ));
    assert forall|key: Seq<char>| #[trigger]
        has_payee(transactions@, category_id@, key) implies exists|i: int|
        0 <= i < r.pairs().len() && r.pairs()[i].0 == key by {
        assert(has_payee(txs.take(n as int), cat, key));
        assert(name_listed(r.names@, key));
        let j = choose|j: int| 0 <= j < r.names@.len() && r.names@[j]@ == key;
        assert(r.pairs()[j].0 == key);
    }
    r
}

/// The sum of `s`.
pub open spec fn int_sum(s: Seq<int>) -> int
    decreases s.len(),
{
    if s.len() == 0 {
        0
    } else {
        int_sum(s.drop_last()) + s.last()
    }
}

proof fn lemma_int_sum_update(s: Seq<int>, j: int, y: int)
    requires
        0 <= j < s.len(),
    ensures
        int_sum(s.update(j, y)) == int_sum(s) - s[j] + y,
    decreases s.len(),
{
    let u = s.update(j, y);
    if j == s.len() - 1 {
        assert(u.drop_last() =~= s.drop_last());
    } else {
        assert(u.drop_last() =~= s.drop_last().update(j, y));
        lemma_int_sum_update(s.drop_last(), j, y);
    }
}

proof fn lemma_int_sum_zeros(s: Seq<int>)
    requires
        forall|i: int| 0 <= i < s.len() ==> s[i] == 0,
    ensures
        int_sum(s) == 0,
    decreases s.len(),
{
    if s.len() > 0 {
        lemma_int_sum_zeros(s.drop_last());
    }
}

/// The totals per payee add up to the category's spending: summing
/// `payee_total` over distinct payee names, among them every name under
/// which a counted transaction is grouped, gives `category_total`, the sum
/// that `calculate_category_spending` returns. (`aggregate_by_payee` returns
/// exactly such names with their totals.)
pub proof fn law_payee_totals_add_up(txs: Seq<Transaction>, cat: Seq<char>, keys: Seq<Seq<char>>)
    requires
        keys.no_duplicates(),
        forall|k: Seq<char>| has_payee(txs, cat, k) ==> keys.contains(k),
    ensures
        int_sum(keys.map_values(|k: Seq<char>| payee_total(txs, cat, k))) == category_total(
            txs,
            cat,
        ),
    decreases txs.len(),
{
    let b = keys.map_values(|k: Seq<char>| payee_total(txs, cat, k));
    if txs.len() == 0 {
        lemma_int_sum_zeros(b);
    } else {
        let p = txs.drop_last();
        let t = txs.last();
        assert forall|k: Seq<char>| has_payee(p, cat, k) implies keys.contains(k) by {
            let w = choose|w: int|
                0 <= w < p.len() && counts_for(p[w], cat) && #[trigger] payee_key(p[w]) == k;
            assert(txs[w] == p[w]);
            assert(has_payee(txs, cat, k));
        }
        law_payee_totals_add_up(p, cat, keys);
        let a = keys.map_values(|k: Seq<char>| payee_total(p, cat, k));
        if counts_for(t, cat) {
            let k0 = payee_key(t);
            assert(payee_key(txs[txs.len() - 1]) == k0);
            assert(has_payee(txs, cat, k0));
            assert(keys.contains(k0));
            let j = choose|j: int| 0 <= j < keys.len() && keys[j] == k0;
            assert forall|i: int| 0 <= i < keys.len() implies b[i] == a.update(j, a[j] + t.amount)[i] by {
                assert(b[i] == payee_total(txs, cat, keys[i]));
                assert(a[i] == payee_total(p, cat, keys[i]));
                if i != j {
                    assert(keys[i] != k0);
                }
            }
            assert(b =~= a.update(j, a[j] + t.amount));
            lemma_int_sum_update(a, j, a[j] + t.amount);
        } else {
            assert forall|i: int| 0 <= i < keys.len() implies b[i] == a[i] by {
                assert(b[i] == payee_total(txs, cat, keys[i]));
                assert(a[i] == payee_total(p, cat, keys[i]));
            }
            assert(b =~= a);
        }
    }
}

/// Whether `key` is one of `names`.
pub open spec fn name_listed(names: Seq<String>, key: Seq<char>) -> bool {
    exists|j: int| 0 <= j < names.len() && names[j]@ == key
}

/// The position of `key` in `names`, if it is there.
fn find_name(names: &Vec<String>, key: &str) -> (r: Option<usize>)
    ensures
        match r {
            Some(j) => j < names@.len() && names@[j as int]@ == key@,
            None => forall|a: int| 0 <= a < names@.len() ==> names@[a]@ != key@,
        },
{
    let m = names.len();
    for j in 0..m
        invariant
            m == names@.len(),
            forall|a: int| 0 <= a < j ==> names@[a]@ != key@,
    {
        if str_eq(names[j].as_str(), key) {
            return Some(j);
        }
    }
    None
}

/// A payee name with no counting transaction has a zero total.
pub proof fn lemma_absent_payee_total(txs: Seq<Transaction>, cat: Seq<char>, key: Seq<char>)
    requires
        !has_payee(txs, cat, key),
    ensures
        payee_total(txs, cat, key) == 0,
    decreases txs.len(),
{
    if txs.len() > 0 {
        let p = txs.drop_last();
        assert(!has_payee(p, cat, key)) by {
            if has_payee(p, cat, key) {
                let w = choose|w: int|
                    0 <= w < p.len() && counts_for(p[w], cat) && #[trigger] payee_key(p[w]) == key;
                assert(txs[w] == p[w]);
            }
        }
        lemma_absent_payee_total(p, cat, key);
        assert(!(counts_for(txs.last(), cat) && payee_key(txs.last()) == key)) by {
            if counts_for(txs.last(), cat) && payee_key(txs.last()) == key {
                assert(payee_key(txs[txs.len() - 1]) == key);
            }
        }
    }
}

/// Calculate total spending for a category: the sum of the amounts of the
/// transactions that are not deleted and belong to `category_id`.
pub fn calculate_category_spending(transactions: &[Transaction], category_id: &str) -> (r: i64)
    requires
        forall|k: int|
            0 <= k <= transactions@.len() ==> i64::MIN <= #[trigger] category_total(
                transactions@.take(k),
                category_id@,
            ) <= i64::MAX,
    ensures
        r == category_total(transactions@, category_id@),
{
    let n = transactions.len();
    let mut total: i64 = 0;
    let mut i: usize = 0;
    while i < n
        invariant
            i <= n,
            n == transactions@.len(),
            forall|k: int|
                0 <= k <= transactions@.len() ==> i64::MIN <= #[trigger] category_total(
                    transactions@.take(k),
                    category_id@,
                ) <= i64::MAX,
            total == category_total(transactions@.take(i as int), category_id@),
        decreases n - i,
    {
        let ghost post = transactions@.take(i + 1);
        assert(post.drop_last() == transactions@.take(i as int));
        let tx = &transactions[i];
        let counted = !tx.deleted && match &tx.category_id {
            Some(cid) => str_eq(cid.as_str(), category_id),
            None => false,
        };
        assert(counted == counts_for(transactions@[i as int], category_id@));
        if counted {
            assert(i64::MIN <= category_total(post, category_id@) <= i64::MAX);
            total = total + tx.amount;
        }
        i = i + 1;
    }
    assert(transactions@.take(n as int) == transactions@);
    total
}

/// Whether a transaction is kept by a date filter: not deleted, and dated
/// within `start..=end` by string order.
pub open spec fn dated_within(t: TransactionView, start: Seq<char>, end: Seq<char>) -> bool {
    !t.deleted && seq_le(start, t.date) && seq_le(t.date, end)
}

/// Filter transactions by date range, returning owned transactions: those not
/// deleted whose date lies within `start..=end`, in their order.
pub fn filter_transactions_by_date(transactions: &[Transaction], start: &str, end: &str) -> (r: Vec<
    Transaction,
>)
    ensures
        tx_views(r@) == tx_views(transactions@).filter(
            |t: TransactionView| dated_within(t, start@, end@),
        ),
{
    let ghost p = |t: TransactionView| dated_within(t, start@, end@);
    let n = transactions.len();
    let mut out: Vec<Transaction> = Vec::new();
    let mut i: usize = 0;
    while i < n
        invariant
            i <= n,
            n == transactions@.len(),
            p == (|t: TransactionView| dated_within(t, start@, end@)),
            tx_views(out@) == tx_views(transactions@.take(i as int)).filter(p),
        decreases n - i,
    {
        let ghost pre = tx_views(transactions@.take(i as int));
        assert(tx_views(transactions@.take(i + 1)) == pre.push(transactions@[i as int]@));
        proof {
            pre.lemma_filter_push(transactions@[i as int]@, p);
        }
        let tx = &transactions[i];
        let keep = !tx.deleted && compare_str(start, tx.date.as_str()) <= 0 && compare_str(
            tx.date.as_str(),
            end,
        ) <= 0;
        assert(keep == p(tx@));
        if keep {
            let ghost before = out@;
            out.push(tx.copied());
            assert(tx_views(out@) == tx_views(before).push(tx@));
        }
        i = i + 1;
    }
    assert(transactions@.take(n as int) == transactions@);
    out
}

// ============================================================================
// Searching by name
// ============================================================================

/// The categories of all groups, group by group, in order.
pub open spec fn all_categories(groups: Seq<CategoryGroup>) -> Seq<Category>
    decreases groups.len(),
{
    if groups.len() == 0 {
        seq![]
    } else {
        all_categories(groups.drop_last()) + groups.last().categories@
    }
}

/// Whether a category answers the lowercase query `q`: visible, not
/// deleted, and its lowercase name contains `q`.
pub open spec fn category_matches(c: Category, q: Seq<char>) -> bool {
    !c.hidden && !c.deleted && contains_seq(lowercase(c.name@), q)
}

/// Whether a payee answers the lowercase query `q`: not deleted, and its
/// lowercase name contains `q`.
pub open spec fn payee_matches(p: Payee, q: Seq<char>) -> bool {
    !p.deleted && contains_seq(lowercase(p.name@), q)
}

/// A search finds the query anywhere in a name, not only at its start: a
/// payee that is not deleted and whose lowercase name is `x`, then the
/// lowercase query, then `y` answers the query (so `find_payee` does not
/// return `None` and `matching_payee_ids` keeps its id); likewise a visible,
/// undeleted category for `find_category`.
pub proof fn law_search_finds_query_anywhere(
    p: Payee,
    c: Category,
    query: Seq<char>,
    x: Seq<char>,
    y: Seq<char>,
)
    ensures
        !p.deleted && lowercase(p.name@) == x + lowercase(query) + y ==> payee_matches(
            p,
            lowercase(query),
        ),
        !c.hidden && !c.deleted && lowercase(c.name@) == x + lowercase(query) + y
            ==> category_matches(c, lowercase(query)),
{
    let q = lowercase(query);
    if !p.deleted && lowercase(p.name@) == x + q + y {
        let s = lowercase(p.name@);
        assert(s.subrange(x.len() as int, (x.len() + q.len()) as int) =~= q);
        assert(occurs_at(s, q, x.len() as int));
    }
    if !c.hidden && !c.deleted && lowercase(c.name@) == x + q + y {
        let s = lowercase(c.name@);
        assert(s.subrange(x.len() as int, (x.len() + q.len()) as int) =~= q);
        assert(occurs_at(s, q, x.len() as int));
    }
}

/// And only such names answer: a payee that answers a query is not deleted
/// and its lowercase name holds the lowercase query somewhere.
pub proof fn law_search_finds_only_names_holding_query(p: Payee, query: Seq<char>)
    ensures
        payee_matches(p, lowercase(query)) ==> !p.deleted && exists|x: Seq<char>, y: Seq<char>|
            lowercase(p.name@) == x + lowercase(query) + y,
{
    let q = lowercase(query);
    if payee_matches(p, q) {
        let s = lowercase(p.name@);
        let i = choose|i: int| occurs_at(s, q, i);
        assert(s =~= s.take(i) + q + s.skip(i + q.len()));
    }
}

/// Find a category by name (case-insensitive): the first category, group by
/// group, that is visible, not deleted, and whose lowercase name contains the
/// lowercase `name`; its id and name.
pub fn find_category(groups: &[CategoryGroup], name: &str) -> (r: Option<(String, String)>)
    ensures
        match r {
            Some((id, nm)) => exists|k: int|
                0 <= k < all_categories(groups@).len() && category_matches(
                    #[trigger] all_categories(groups@)[k],
                    lowercase(name@),
                ) && (forall|j: int|
                    0 <= j < k ==> !category_matches(all_categories(groups@)[j], lowercase(name@)))
                    && id@ == all_categories(groups@)[k].id@ && nm@ == all_categories(
                    groups@,
                )[k].name@,
            None => forall|j: int|
                0 <= j < all_categories(groups@).len() ==> !category_matches(
                    #[trigger] all_categories(groups@)[j],
                    lowercase(name@),
                ),
        },
{
    let q_str = to_lowercase(name);
    let q = to_chars(q_str.as_str());
    let ghost qv = lowercase(name@);
    let ng = groups.len();
    let mut g: usize = 0;
    while g < ng
        invariant
            g <= ng,
            ng == groups@.len(),
            q@ == qv,
            qv == lowercase(name@),
            forall|j: int|
                0 <= j < all_categories(groups@.take(g as int)).len() ==> !category_matches(
                    #[trigger] all_categories(groups@.take(g as int))[j],
                    qv,
                ),
        decreases ng - g,
    {
        let ghost before = all_categories(groups@.take(g as int));
        assert(groups@.take(g + 1).drop_last() == groups@.take(g as int));
        let cats = &groups[g].categories;
        assert(all_categories(groups@.take(g + 1)) == before + cats@);
        let nc = cats.len();
        let mut c: usize = 0;
        while c < nc
            invariant
                c <= nc,
                nc == cats@.len(),
                g < ng,
                ng == groups@.len(),
                cats@ == groups@[g as int].categories@,
                before == all_categories(groups@.take(g as int)),
                q@ == qv,
                qv == lowercase(name@),
                forall|j: int| 0 <= j < before.len() ==> !category_matches(#[trigger] before[j], qv),
                forall|j: int| 0 <= j < c ==> !category_matches(#[trigger] cats@[j], qv),
            decreases nc - c,
        {
            let cat = &cats[c];
            if !cat.hidden && !cat.deleted {
                let lower = to_lowercase(cat.name.as_str());
                let lower_chars = to_chars(lower.as_str());
                if contains_chars(lower_chars.as_slice(), q.as_slice()) {
                    proof {
                        lemma_all_categories_prefix(groups@, g as int);
                        let k = before.len() + c;
                        let all = all_categories(groups@);
                        let pre = before + cats@;
                        assert(pre == all.subrange(0, pre.len() as int));
                        assert forall|j: int| 0 <= j < pre.len() implies all[j] == pre[j] by {
                            assert(all.subrange(0, pre.len() as int)[j] == all[j]);
                        }
                        assert(pre[k] == cats@[c as int]);
                        assert(all[k] == cats@[c as int]);
                        assert forall|j: int| 0 <= j < k implies !category_matches(all[j], qv) by {
                            if j < before.len() {
                                assert(pre[j] == before[j]);
                                assert(!category_matches(before[j], qv));
                            } else {
                                assert(pre[j] == cats@[j - before.len()]);
                                assert(!category_matches(cats@[j - before.len()], qv));
                            }
                        }
                        assert(category_matches(all[k], qv));
                        assert(cat.id@ == all[k].id@ && cat.name@ == all[k].name@);
                        assert(exists|k2: int|
                            0 <= k2 < all.len() && category_matches(#[trigger] all[k2], qv) && (
                            forall|j: int| 0 <= j < k2 ==> !category_matches(all[j], qv))
                                && cat.id@ == all[k2].id@ && cat.name@ == all[k2].name@);
                    }
                    return Some((cat.id.clone(), cat.name.clone()));
                }
            }
            c = c + 1;
        }
        proof {
            let after = before + cats@;
            assert forall|j: int| 0 <= j < after.len() implies !category_matches(
                #[trigger] after[j],
                qv,
            ) by {
                if j < before.len() {
                    assert(after[j] == before[j]);
                } else {
                    assert(after[j] == cats@[j - before.len()]);
                }
            }
        }
        g = g + 1;
    }
    assert(groups@.take(ng as int) == groups@);
    None
}

/// The categories of the first `g` groups come first among all categories.
pub proof fn lemma_all_categories_prefix(groups: Seq<CategoryGroup>, g: int)
    requires
        0 <= g < groups.len(),
    ensures
        (all_categories(groups.take(g)) + groups[g].categories@).is_prefix_of(
            all_categories(groups),
        ),
    decreases groups.len(),
{
    if g == groups.len() - 1 {
        assert(groups.take(g) == groups.drop_last());
    } else {
        lemma_all_categories_prefix(groups.drop_last(), g);
        assert(groups.drop_last().take(g) == groups.take(g));
    }
}

/// Find a payee by name (case-insensitive): the first payee that is not
/// deleted and whose lowercase name contains the lowercase `name`; its id and
/// name.
pub fn find_payee(payees: &[Payee], name: &str) -> (r: Option<(String, String)>)
    ensures
        match r {
            Some((id, nm)) => exists|k: int|
                0 <= k < payees@.len() && payee_matches(#[trigger] payees@[k], lowercase(name@))
                    && (forall|j: int| 0 <= j < k ==> !payee_matches(payees@[j], lowercase(name@)))
                    && id@ == payees@[k].id@ && nm@ == payees@[k].name@,
            None => forall|j: int|
                0 <= j < payees@.len() ==> !payee_matches(#[trigger] payees@[j], lowercase(name@)),
        },
{
    let q_str = to_lowercase(name);
    let q = to_chars(q_str.as_str());
    let n = payees.len();
    let mut i: usize = 0;
    while i < n
        invariant
            i <= n,
            n == payees@.len(),
            q@ == lowercase(name@),
            forall|j: int| 0 <= j < i ==> !payee_matches(#[trigger] payees@[j], lowercase(name@)),
        decreases n - i,
    {
        let p = &payees[i];
        if !p.deleted {
            let lower = to_lowercase(p.name.as_str());
            let lower_chars = to_chars(lower.as_str());
            if contains_chars(lower_chars.as_slice(), q.as_slice()) {
                return Some((p.id.clone(), p.name.clone()));
            }
        }
        i = i + 1;
    }
    None
}

/// The ids of the payees that are not deleted and whose lowercase name
/// contains the lowercase `search`, in order.
pub fn matching_payee_ids(payees: &[Payee], search: &str) -> (r: Vec<String>)
    ensures
        views(r@) == payees@.filter(|p: Payee| payee_matches(p, lowercase(search@))).map_values(
            |p: Payee| p.id@,
        ),
{
    let ghost pred = |p: Payee| payee_matches(p, lowercase(search@));
    let q_str = to_lowercase(search);
    let q = to_chars(q_str.as_str());
    let n = payees.len();
    let mut out: Vec<String> = Vec::new();
    let mut i: usize = 0;
    while i < n
        invariant
            i <= n,
            n == payees@.len(),
            q@ == lowercase(search@),
            pred == (|p: Payee| payee_matches(p, lowercase(search@))),
            views(out@) == payees@.take(i as int).filter(pred).map_values(|p: Payee| p.id@),
        decreases n - i,
    {
        let ghost pre = payees@.take(i as int);
        assert(payees@.take(i + 1) == pre.push(payees@[i as int]));
        proof {
            pre.lemma_filter_push(payees@[i as int], pred);
        }
        let p = &payees[i];
        let mut keep = false;
        if !p.deleted {
            let lower = to_lowercase(p.name.as_str());
            let lower_chars = to_chars(lower.as_str());
            keep = contains_chars(lower_chars.as_slice(), q.as_slice());
        }
        assert(keep == pred(payees@[i as int]));
        if keep {
            let ghost before = out@;
            out.push(p.id.clone());
            assert(views(out@) == views(before).push(p.id@));
            assert(pre.filter(pred).push(payees@[i as int]).map_values(|p: Payee| p.id@)
                == pre.filter(pred).map_values(|p: Payee| p.id@).push(p.id@));
        }
        i = i + 1;
    }
    assert(payees@.take(n as int) == payees@);
    out
}

} // verus!
