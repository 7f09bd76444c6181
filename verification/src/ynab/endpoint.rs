//! The YNAB API endpoints that the client reads, and their paths.

use vstd::prelude::*;
use vstd::string::StringExecFns;
use crate::text::{
    own, push_signed_decimal, seq_join, signed_decimal,
};

verus! {

/// An endpoint of the YNAB API, with the ids that its path holds.
pub enum Endpoint {
    User,
    Plans,
    Plan { plan_id: String },
    PlanSettings { plan_id: String },
    Accounts { plan_id: String },
    Account { plan_id: String, account_id: String },
    Categories { plan_id: String },
    Category { plan_id: String, category_id: String },
    MonthCategory { plan_id: String, month: String, category_id: String },
    Payees { plan_id: String },
    Payee { plan_id: String, payee_id: String },
    Months { plan_id: String },
    Month { plan_id: String, month: String },
    Transactions { plan_id: String },
    TransactionsPage { plan_id: String, limit: Option<i32>, since_date: Option<String> },
    Transaction { plan_id: String, transaction_id: String },
    MonthTransactions { plan_id: String, month: String },
    AccountTransactions { plan_id: String, account_id: String },
    CategoryTransactions { plan_id: String, category_id: String },
    PayeeTransactions { plan_id: String, payee_id: String },
    ScheduledTransactions { plan_id: String },
    ScheduledTransaction { plan_id: String, scheduled_transaction_id: String },
    MoneyMovements { plan_id: String },
    MonthMoneyMovements { plan_id: String, month: String },
}

/// `/plans/{plan}` followed by `rest`.
pub open spec fn under_plan(plan: Seq<char>, rest: Seq<char>) -> Seq<char> {
    "/plans/"@ + plan + rest
}

/// The query parameters of a page of transactions, in order.
pub open spec fn page_params(limit: Option<i32>, since_date: Option<Seq<char>>) -> Seq<Seq<char>> {
    (match limit {
        Some(l) => seq!["limit="@ + signed_decimal(l as int)],
        None => Seq::empty(),
    }) + (match since_date {
        Some(d) => seq!["since_date="@ + d],
        None => Seq::empty(),
    })
}

/// The path of an endpoint, relative to the API's base URL.
pub open spec fn endpoint_path(e: Endpoint) -> Seq<char> {
    match e {
        Endpoint::User => "/user"@,
        Endpoint::Plans => "/plans"@,
        Endpoint::Plan { plan_id } => under_plan(plan_id@, Seq::empty()),
        Endpoint::PlanSettings { plan_id } => under_plan(plan_id@, "/settings"@),
        Endpoint::Accounts { plan_id } => under_plan(plan_id@, "/accounts"@),
        Endpoint::Account { plan_id, account_id } => under_plan(
            plan_id@,
            "/accounts/"@ + account_id@,
        ),
        Endpoint::Categories { plan_id } => under_plan(plan_id@, "/categories"@),
        Endpoint::Category { plan_id, category_id } => under_plan(
            plan_id@,
            "/categories/"@ + category_id@,
        ),
        Endpoint::MonthCategory { plan_id, month, category_id } => under_plan(
            plan_id@,
            "/months/"@ + month@ + "/categories/"@ + category_id@,
        ),
        Endpoint::Payees { plan_id } => under_plan(plan_id@, "/payees"@),
        Endpoint::Payee { plan_id, payee_id } => under_plan(plan_id@, "/payees/"@ + payee_id@),
        Endpoint::Months { plan_id } => under_plan(plan_id@, "/months"@),
        Endpoint::Month { plan_id, month } => under_plan(plan_id@, "/months/"@ + month@),
        Endpoint::Transactions { plan_id } => under_plan(plan_id@, "/transactions"@),
        Endpoint::TransactionsPage { plan_id, limit, since_date } => {
            let base = under_plan(plan_id@, "/transactions"@);
            let params = page_params(
                limit,
                match since_date {
                    Some(d) => Some(d@),
                    None => None,
                },
            );
            if params.len() == 0 {
                base
            } else {
                base + "?"@ + seq_join(params, "&"@)
            }
        },
        Endpoint::Transaction { plan_id, transaction_id } => under_plan(
            plan_id@,
            "/transactions/"@ + transaction_id@,
        ),
        Endpoint::MonthTransactions { plan_id, month } => under_plan(
            plan_id@,
            "/months/"@ + month@ + "/transactions"@,
        ),
        Endpoint::AccountTransactions { plan_id, account_id } => under_plan(
            plan_id@,
            "/accounts/"@ + account_id@ + "/transactions"@,
        ),
        Endpoint::CategoryTransactions { plan_id, category_id } => under_plan(
            plan_id@,
            "/categories/"@ + category_id@ + "/transactions"@,
        ),
        Endpoint::PayeeTransactions { plan_id, payee_id } => under_plan(
            plan_id@,
            "/payees/"@ + payee_id@ + "/transactions"@,
        ),
        Endpoint::ScheduledTransactions { plan_id } => under_plan(
            plan_id@,
            "/scheduled_transactions"@,
        ),
        Endpoint::ScheduledTransaction { plan_id, scheduled_transaction_id } => under_plan(
            plan_id@,
            "/scheduled_transactions/"@ + scheduled_transaction_id@,
        ),
        Endpoint::MoneyMovements { plan_id } => under_plan(plan_id@, "/money_movements"@),
        Endpoint::MonthMoneyMovements { plan_id, month } => under_plan(
            plan_id@,
            "/months/"@ + month@ + "/money_movements"@,
        ),
    }
}

/// `/plans/{plan}` followed by the given pieces.
fn plan_path(plan: &String, a: &str, b: &str, c: &str, d: &str) -> (r: String)
    ensures
        r@ == under_plan(plan@, a@ + b@ + c@ + d@),
{
    let mut r = own("/plans/");
    r.append(plan.as_str());
    r.append(a);
    r.append(b);
    r.append(c);
    r.append(d);
    assert(r@ == under_plan(plan@, a@ + b@ + c@ + d@));
    r
}

proof fn lemma_empty_str()
    ensures
        ""@ == Seq::<char>::empty(),
{
    reveal_strlit("");
}

impl Endpoint {
    /// The path of this endpoint, relative to the API's base URL
    /// (such as `/plans/{plan_id}/accounts/{account_id}`).
    pub fn path(&self) -> (r: String)
        ensures
            r@ == endpoint_path(*self),
    {
        proof {
            lemma_empty_str();
        }
        match self {
            Endpoint::User => own("/user"),
            Endpoint::Plans => own("/plans"),
            Endpoint::Plan { plan_id } => plan_path(plan_id, "", "", "", ""),
            Endpoint::PlanSettings { plan_id } => plan_path(plan_id, "/settings", "", "", ""),
            Endpoint::Accounts { plan_id } => plan_path(plan_id, "/accounts", "", "", ""),
            Endpoint::Account { plan_id, account_id } => plan_path(
                plan_id,
                "/accounts/",
                account_id.as_str(),
                "",
                "",
            ),
            Endpoint::Categories { plan_id } => plan_path(plan_id, "/categories", "", "", ""),
            Endpoint::Category { plan_id, category_id } => plan_path(
                plan_id,
                "/categories/",
                category_id.as_str(),
                "",
                "",
            ),
            Endpoint::MonthCategory { plan_id, month, category_id } => plan_path(
                plan_id,
                "/months/",
                month.as_str(),
                "/categories/",
                category_id.as_str(),
            ),
            Endpoint::Payees { plan_id } => plan_path(plan_id, "/payees", "", "", ""),
            Endpoint::Payee { plan_id, payee_id } => plan_path(
                plan_id,
                "/payees/",
                payee_id.as_str(),
                "",
                "",
            ),
            Endpoint::Months { plan_id } => plan_path(plan_id, "/months", "", "", ""),
            Endpoint::Month { plan_id, month } => plan_path(
                plan_id,
                "/months/",
                month.as_str(),
                "",
                "",
            ),
            Endpoint::Transactions { plan_id } => plan_path(plan_id, "/transactions", "", "", ""),
            Endpoint::TransactionsPage { plan_id, limit, since_date } => transactions_page_path(
                plan_id,
                *limit,
                since_date,
            ),
            Endpoint::Transaction { plan_id, transaction_id } => plan_path(
                plan_id,
                "/transactions/",
                transaction_id.as_str(),
                "",
                "",
            ),
            Endpoint::MonthTransactions { plan_id, month } => plan_path(
                plan_id,
                "/months/",
                month.as_str(),
                "/transactions",
                "",
            ),
            Endpoint::AccountTransactions { plan_id, account_id } => plan_path(
                plan_id,
                "/accounts/",
                account_id.as_str(),
                "/transactions",
                "",
            ),
            Endpoint::CategoryTransactions { plan_id, category_id } => plan_path(
                plan_id,
                "/categories/",
                category_id.as_str(),
                "/transactions",
                "",
            ),
            Endpoint::PayeeTransactions { plan_id, payee_id } => plan_path(
                plan_id,
                "/payees/",
                payee_id.as_str(),
                "/transactions",
                "",
            ),
            Endpoint::ScheduledTransactions { plan_id } => plan_path(
                plan_id,
                "/scheduled_transactions",
                "",
                "",
                "",
            ),
            Endpoint::ScheduledTransaction { plan_id, scheduled_transaction_id } => plan_path(
                plan_id,
                "/scheduled_transactions/",
                scheduled_transaction_id.as_str(),
                "",
                "",
            ),
            Endpoint::MoneyMovements { plan_id } => plan_path(
                plan_id,
                "/money_movements",
                "",
                "",
                "",
            ),
            Endpoint::MonthMoneyMovements { plan_id, month } => plan_path(
                plan_id,
                "/months/",
                month.as_str(),
                "/money_movements",
                "",
            ),
        }
    }
}

/// The path of a page of transactions, with its query parameters.
fn transactions_page_path(plan_id: &String, limit: Option<i32>, since_date: &Option<String>) -> (r:
    String)
    ensures
        r@ == endpoint_path(
            Endpoint::TransactionsPage {
                plan_id: *plan_id,
                limit,
                since_date: *since_date,
            },
        ),
{
    proof {
        lemma_empty_str();
    }
    let mut r = plan_path(plan_id, "/transactions", "", "", "");
    let ghost base = r@;
    let ghost sd = match since_date {
        Some(d) => Some(d@),
        None => None::<Seq<char>>,
    };
    let ghost params = page_params(limit, sd);
    match limit {
        Some(l) => {
            r.append("?limit=");
            push_signed_decimal(&mut r, l as i64);
            match since_date {
                Some(d) => {
                    r.append("&since_date=");
                    r.append(d.as_str());
                    proof {
                        reveal_strlit("?limit=");
                        reveal_strlit("&since_date=");
                        reveal_strlit("limit=");
                        reveal_strlit("since_date=");
                        reveal_strlit("?");
                        reveal_strlit("&");
                        let p0 = "limit="@ + signed_decimal(l as int);
                        let p1 = "since_date="@ + d@;
                        assert(params =~= seq![p0, p1]);
                        assert(seq_join(params, "&"@) == seq_join(params.drop_last(), "&"@) + "&"@
                            + p1);
                        assert(params.drop_last() =~= seq![p0]);
                        assert(r@ =~= base + "?"@ + (p0 + "&"@ + p1));
                    }
                },
                None => {
                    proof {
                        reveal_strlit("?limit=");
                        reveal_strlit("limit=");
                        reveal_strlit("?");
                        let p0 = "limit="@ + signed_decimal(l as int);
                        assert(params =~= seq![p0]);
                        assert(r@ =~= base + "?"@ + p0);
                    }
                },
            }
        },
        None => {
            match since_date {
                Some(d) => {
                    r.append("?since_date=");
                    r.append(d.as_str());
                    proof {
                        reveal_strlit("?since_date=");
                        reveal_strlit("since_date=");
                        reveal_strlit("?");
                        let p1 = "since_date="@ + d@;
                        assert(params =~= seq![p1]);
                        assert(r@ =~= base + "?"@ + p1);
                    }
                },
                None => {
                    assert(params =~= Seq::<Seq<char>>::empty());
                },
            }
        },
    }
    r
}

} // verus!
