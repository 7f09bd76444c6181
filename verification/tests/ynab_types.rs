use budget_explorer::ynab::types::{
    aggregate_by_payee, calculate_category_spending, filter_transactions_by_date, find_category,
    find_payee, format_milliunits, matching_payee_ids, Account, Category, CategoryGroup,
    ClearedStatus, DisplayAccount, DisplayTransaction, Payee, Transaction,
};
use budget_explorer::ynab::order::{merge_newest_first, recent_transactions, sort_newest_first};
use budget_explorer::ynab::endpoint::Endpoint;

fn make_transaction(
    id: &str,
    amount: i64,
    date: &str,
    category_id: Option<String>,
    payee_name: Option<String>,
) -> Transaction {
    Transaction {
        id: id.to_string(),
        date: date.to_string(),
        amount,
        amount_formatted: None,
        amount_currency: None,
        memo: None,
        cleared: ClearedStatus::Cleared,
        approved: true,
        flag_color: None,
        flag_name: None,
        account_id: "account-1".to_string(),
        account_name: None,
        payee_id: None,
        payee_name,
        category_id,
        category_name: None,
        transfer_account_id: None,
        transfer_transaction_id: None,
        matched_transaction_id: None,
        import_id: None,
        import_payee_name: None,
        import_payee_name_original: None,
        debt_transaction_type: None,
        deleted: false,
        subtransactions: vec![],
    }
}

fn make_category(id: &str, name: &str) -> Category {
    Category {
        id: id.to_string(),
        name: name.to_string(),
        hidden: false,
        deleted: false,
        category_type: None,
    }
}

fn make_category_group(id: &str, name: &str, categories: Vec<Category>) -> CategoryGroup {
    CategoryGroup {
        id: id.to_string(),
        name: name.to_string(),
        hidden: false,
        deleted: false,
        categories,
    }
}

fn make_payee(id: &str, name: &str, deleted: bool) -> Payee {
    Payee { id: id.to_string(), name: name.to_string(), deleted }
}

// format_milliunits

#[test]
fn format_milliunits_positive_returns_dollar_format() {
    let milliunits = 12345i64;
    let result = format_milliunits(milliunits);
    assert_eq!(result, "$12.35");
}

#[test]
fn format_milliunits_negative_returns_negative_dollar_format() {
    let milliunits = -12345i64;
    let result = format_milliunits(milliunits);
    assert_eq!(result, "-$12.35");
}

#[test]
fn format_milliunits_zero_returns_zero_dollar_format() {
    let milliunits = 0i64;
    let result = format_milliunits(milliunits);
    assert_eq!(result, "$0.00");
}

#[test]
fn format_milliunits_single_dollar_returns_correct_format() {
    let milliunits = 1000i64;
    let result = format_milliunits(milliunits);
    assert_eq!(result, "$1.00");
}

#[test]
fn format_milliunits_large_value_formats_with_commas() {
    let milliunits = 1_234_567i64;
    let result = format_milliunits(milliunits);
    assert_eq!(result, "$1234.57");
}

#[test]
fn format_milliunits_extremes() {
    assert_eq!(format_milliunits(4), "$0.00");
    assert_eq!(format_milliunits(5), "$0.01");
    assert_eq!(format_milliunits(-1), "-$0.00");
    // 0.015 is a little below its decimal as a double.
    assert_eq!(format_milliunits(15), "$0.01");
    // 0.125 and 0.375 are exact doubles: a tie goes to the even cent.
    assert_eq!(format_milliunits(125), "$0.12");
    assert_eq!(format_milliunits(375), "$0.38");
    assert_eq!(format_milliunits(i64::MAX), "$9223372036854776.00");
    assert_eq!(format_milliunits(i64::MIN), "-$9223372036854776.00");
}

fn float_format(m: i64) -> String {
    let dollars = m as f64 / 1000.0;
    if dollars < 0.0 {
        format!("-${:.2}", dollars.abs())
    } else {
        format!("${:.2}", dollars)
    }
}

#[test]
fn format_milliunits_matches_two_decimal_dollars() {
    for m in -200_000i64..200_000 {
        assert_eq!(format_milliunits(m), float_format(m), "{}", m);
    }
    let mut m: i64 = 7;
    while m < i64::MAX / 3 {
        assert_eq!(format_milliunits(m), float_format(m), "{}", m);
        assert_eq!(format_milliunits(-m - 5), float_format(-m - 5), "{}", -m - 5);
        m = m * 3 + 1;
    }
    for m in [
        i64::MAX,
        i64::MIN,
        i64::MAX - 1000,
        9_007_199_254_740_993,
        9_007_199_254_740_995,
        123_456_789_012_345,
        -5_000_000_000_005,
        1_125_899_906_842_625,
    ] {
        assert_eq!(format_milliunits(m), float_format(m), "{}", m);
    }
}

#[test]
fn format_milliunits_negative_reads_as_signed_positive() {
    for m in [1i64, 9, 10, 12345, 1_000_000] {
        assert_eq!(format_milliunits(-m), format!("-{}", format_milliunits(m)));
    }
}

// aggregate_by_payee

#[test]
fn aggregate_by_payee_groups_transactions_by_payee() {
    let transactions = vec![
        make_transaction("tx1", -5000, "2026-04-01", Some("cat-1".to_string()), Some("Grocery Store".to_string())),
        make_transaction("tx2", -3000, "2026-04-02", Some("cat-1".to_string()), Some("Grocery Store".to_string())),
        make_transaction("tx3", -2000, "2026-04-03", Some("cat-1".to_string()), Some("Gas Station".to_string())),
    ];
    let result = aggregate_by_payee(&transactions, "cat-1");
    assert_eq!(result.len(), 2);
    assert_eq!(result.get("Grocery Store"), Some(&-8000));
    assert_eq!(result.get("Gas Station"), Some(&-2000));
}

#[test]
fn aggregate_by_payee_filters_deleted_transactions() {
    let mut tx1 = make_transaction("tx1", -5000, "2026-04-01", Some("cat-1".to_string()), Some("Grocery Store".to_string()));
    tx1.deleted = true;
    let tx2 = make_transaction("tx2", -3000, "2026-04-02", Some("cat-1".to_string()), Some("Grocery Store".to_string()));
    let transactions = vec![tx1, tx2];
    let result = aggregate_by_payee(&transactions, "cat-1");
    assert_eq!(result.len(), 1);
    assert_eq!(result.get("Grocery Store"), Some(&-3000));
}

#[test]
fn aggregate_by_payee_filters_by_category_id() {
    let transactions = vec![
        make_transaction("tx1", -5000, "2026-04-01", Some("cat-1".to_string()), Some("Store A".to_string())),
        make_transaction("tx2", -3000, "2026-04-02", Some("cat-2".to_string()), Some("Store B".to_string())),
    ];
    let result = aggregate_by_payee(&transactions, "cat-1");
    assert_eq!(result.len(), 1);
    assert_eq!(result.get("Store A"), Some(&-5000));
}

#[test]
fn aggregate_by_payee_handles_missing_payee_name() {
    let tx = make_transaction("tx1", -5000, "2026-04-01", Some("cat-1".to_string()), None);
    let transactions = vec![tx];
    let result = aggregate_by_payee(&transactions, "cat-1");
    assert_eq!(result.get("Unknown"), Some(&-5000));
}

#[test]
fn aggregate_by_payee_empty_transactions_returns_empty_map() {
    let transactions: Vec<Transaction> = vec![];
    let result = aggregate_by_payee(&transactions, "cat-1");
    assert!(result.is_empty());
}

#[test]
fn aggregate_by_payee_totals_add_up_to_category_spending() {
    let mut deleted = make_transaction("tx4", -900, "2026-04-04", Some("cat-1".to_string()), Some("Store A".to_string()));
    deleted.deleted = true;
    let transactions = vec![
        make_transaction("tx1", -5000, "2026-04-01", Some("cat-1".to_string()), Some("Store A".to_string())),
        make_transaction("tx2", 1200, "2026-04-02", Some("cat-1".to_string()), None),
        make_transaction("tx3", -3000, "2026-04-03", Some("cat-2".to_string()), Some("Store B".to_string())),
        deleted,
        make_transaction("tx5", -700, "2026-04-05", Some("cat-1".to_string()), Some("Store B".to_string())),
    ];
    let totals = aggregate_by_payee(&transactions, "cat-1");
    let sum: i64 = ["Store A", "Store B", "Unknown"].iter().map(|n| *totals.get(n).unwrap()).sum();
    assert_eq!(totals.len(), 3);
    assert_eq!(sum, calculate_category_spending(&transactions, "cat-1"));
    assert_eq!(sum, -4500);
    assert_eq!(totals.get("Store C"), None);
}

// calculate_category_spending

#[test]
fn calculate_category_spending_sums_all_matching_transactions() {
    let transactions = vec![
        make_transaction("tx1", -5000, "2026-04-01", Some("cat-1".to_string()), Some("Store".to_string())),
        make_transaction("tx2", -3000, "2026-04-02", Some("cat-1".to_string()), Some("Store".to_string())),
        make_transaction("tx3", -2000, "2026-04-03", Some("cat-2".to_string()), Some("Store".to_string())),
    ];
    let result = calculate_category_spending(&transactions, "cat-1");
    assert_eq!(result, -8000);
}

#[test]
fn calculate_category_spending_excludes_deleted_transactions() {
    let mut tx1 = make_transaction("tx1", -5000, "2026-04-01", Some("cat-1".to_string()), Some("Store".to_string()));
    tx1.deleted = true;
    let tx2 = make_transaction("tx2", -3000, "2026-04-02", Some("cat-1".to_string()), Some("Store".to_string()));
    let transactions = vec![tx1, tx2];
    let result = calculate_category_spending(&transactions, "cat-1");
    assert_eq!(result, -3000);
}

#[test]
fn calculate_category_spending_zero_for_no_matches() {
    let transactions = vec![make_transaction("tx1", -5000, "2026-04-01", Some("cat-1".to_string()), Some("Store".to_string()))];
    let result = calculate_category_spending(&transactions, "cat-nonexistent");
    assert_eq!(result, 0);
}

#[test]
fn calculate_category_spending_empty_transactions_returns_zero() {
    let transactions: Vec<Transaction> = vec![];
    let result = calculate_category_spending(&transactions, "cat-1");
    assert_eq!(result, 0);
}

#[test]
fn calculate_category_spending_ignores_uncategorized() {
    let transactions = vec![
        make_transaction("tx1", -5000, "2026-04-01", None, None),
        make_transaction("tx2", 250, "2026-04-02", Some("cat-1".to_string()), None),
    ];
    assert_eq!(calculate_category_spending(&transactions, "cat-1"), 250);
}

// filter_transactions_by_date

#[test]
fn filter_transactions_by_date_returns_matching_transactions() {
    let transactions = vec![
        make_transaction("tx1", -5000, "2026-04-01", Some("cat-1".to_string()), None),
        make_transaction("tx2", -3000, "2026-04-15", Some("cat-1".to_string()), None),
        make_transaction("tx3", -2000, "2026-05-01", Some("cat-1".to_string()), None),
    ];
    let result = filter_transactions_by_date(&transactions, "2026-04-01", "2026-04-30");
    assert_eq!(result.len(), 2);
}

#[test]
fn filter_transactions_by_date_excludes_deleted() {
    let mut tx1 = make_transaction("tx1", -5000, "2026-04-01", Some("cat-1".to_string()), None);
    tx1.deleted = true;
    let tx2 = make_transaction("tx2", -3000, "2026-04-15", Some("cat-1".to_string()), None);
    let transactions = vec![tx1, tx2];
    let result = filter_transactions_by_date(&transactions, "2026-04-01", "2026-04-30");
    assert_eq!(result.len(), 1);
}

#[test]
fn filter_transactions_by_date_includes_boundary_dates() {
    let tx1 = make_transaction("tx1", -5000, "2026-04-01", Some("cat-1".to_string()), None);
    let tx2 = make_transaction("tx2", -3000, "2026-04-30", Some("cat-1".to_string()), None);
    let transactions = vec![tx1, tx2];
    let result = filter_transactions_by_date(&transactions, "2026-04-01", "2026-04-30");
    assert_eq!(result.len(), 2);
}

#[test]
fn filter_transactions_by_date_returns_empty_for_no_matches() {
    let transactions = vec![make_transaction("tx1", -5000, "2026-06-01", Some("cat-1".to_string()), None)];
    let result = filter_transactions_by_date(&transactions, "2026-04-01", "2026-04-30");
    assert!(result.is_empty());
}

#[test]
fn filter_transactions_by_date_keeps_order_and_content() {
    let transactions = vec![
        make_transaction("tx1", -1, "2026-04-20", None, Some("B".to_string())),
        make_transaction("tx2", -2, "2026-03-31", None, None),
        make_transaction("tx3", -3, "2026-04-02", None, Some("A".to_string())),
    ];
    let result = filter_transactions_by_date(&transactions, "2026-04-01", "2026-04-30");
    let ids: Vec<&str> = result.iter().map(|t| t.id.as_str()).collect();
    assert_eq!(ids, vec!["tx1", "tx3"]);
    assert_eq!(result[1].payee_name.as_deref(), Some("A"));
    assert_eq!(result[0].amount, -1);
}

// find_category

#[test]
fn find_category_finds_exact_match() {
    let categories = vec![make_category("cat-1", "Groceries")];
    let group = make_category_group("group-1", "Monthly", categories);
    let groups = vec![group];
    let result = find_category(&groups, "Groceries");
    assert!(result.is_some());
    let (id, name) = result.unwrap();
    assert_eq!(id, "cat-1");
    assert_eq!(name, "Groceries");
}

#[test]
fn find_category_finds_case_insensitive() {
    let categories = vec![make_category("cat-1", "Groceries")];
    let group = make_category_group("group-1", "Monthly", categories);
    let groups = vec![group];
    let result = find_category(&groups, "groceries");
    assert!(result.is_some());
}

#[test]
fn find_category_returns_partial_match() {
    let categories = vec![make_category("cat-1", "Grocery Stores")];
    let group = make_category_group("group-1", "Shopping", categories);
    let groups = vec![group];
    let result = find_category(&groups, "grocery");
    assert!(result.is_some());
}

#[test]
fn find_category_excludes_hidden_categories() {
    let mut categories = vec![make_category("cat-1", "Hidden Category")];
    categories[0].hidden = true;
    let group = make_category_group("group-1", "Monthly", categories);
    let groups = vec![group];
    let result = find_category(&groups, "hidden");
    assert!(result.is_none());
}

#[test]
fn find_category_excludes_deleted_categories() {
    let mut categories = vec![make_category("cat-1", "Deleted Category")];
    categories[0].deleted = true;
    let group = make_category_group("group-1", "Monthly", categories);
    let groups = vec![group];
    let result = find_category(&groups, "deleted");
    assert!(result.is_none());
}

#[test]
fn find_category_returns_none_for_no_match() {
    let categories = vec![make_category("cat-1", "Groceries")];
    let group = make_category_group("group-1", "Monthly", categories);
    let groups = vec![group];
    let result = find_category(&groups, "NonExistent");
    assert!(result.is_none());
}

#[test]
fn find_category_returns_first_match_across_groups() {
    let groups = vec![
        make_category_group("g1", "Bills", vec![make_category("c1", "Rent")]),
        make_category_group("g2", "Food", vec![make_category("c2", "Dining Out"), make_category("c3", "Out and about")]),
    ];
    assert_eq!(find_category(&groups, "OUT"), Some(("c2".to_string(), "Dining Out".to_string())));
}

// find_payee

#[test]
fn find_payee_finds_exact_match() {
    let payees = vec![make_payee("payee-1", "Amazon", false)];
    let result = find_payee(&payees, "Amazon");
    assert!(result.is_some());
    let (id, name) = result.unwrap();
    assert_eq!(id, "payee-1");
    assert_eq!(name, "Amazon");
}

#[test]
fn find_payee_finds_case_insensitive() {
    let payees = vec![make_payee("payee-1", "Amazon", false)];
    let result = find_payee(&payees, "AMAZON");
    assert!(result.is_some());
}

#[test]
fn find_payee_returns_partial_match() {
    let payees = vec![make_payee("payee-1", "Whole Foods Market", false)];
    let result = find_payee(&payees, "whole");
    assert!(result.is_some());
}

#[test]
fn find_payee_excludes_deleted_payees() {
    let payees = vec![make_payee("payee-1", "Deleted Store", true)];
    let result = find_payee(&payees, "deleted");
    assert!(result.is_none());
}

#[test]
fn find_payee_returns_none_for_no_match() {
    let payees = vec![make_payee("payee-1", "Amazon", false)];
    let result = find_payee(&payees, "NonExistent");
    assert!(result.is_none());
}

#[test]
fn matching_payee_ids_keeps_order_and_skips_deleted() {
    let payees = vec![
        make_payee("p1", "Apple Store", false),
        make_payee("p2", "Pineapple Farm", true),
        make_payee("p3", "Banana", false),
        make_payee("p4", "APPLE.COM", false),
    ];
    assert_eq!(matching_payee_ids(&payees, "apple"), vec!["p1".to_string(), "p4".to_string()]);
    assert!(matching_payee_ids(&payees, "cherry").is_empty());
}

// Display forms

#[test]
fn display_account_formats_balances() {
    let account = Account {
        id: "a1".to_string(),
        name: "Checking".to_string(),
        account_type: "checking".to_string(),
        on_budget: true,
        closed: false,
        note: None,
        balance: 1_234_567,
        cleared_balance: -5,
        uncleared_balance: 0,
        transfer_payee_id: "tp1".to_string(),
        deleted: false,
    };
    let d = DisplayAccount::from_account(&account);
    assert_eq!(d.balance, "$1234.57");
    assert_eq!(d.cleared_balance, "-$0.01");
    assert_eq!(d.uncleared_balance, "$0.00");
    assert_eq!(d.name, "Checking");
}

#[test]
fn display_transaction_prefers_formatted_amount() {
    let mut tx = make_transaction("t1", -12345, "2026-04-01", None, Some("Shop".to_string()));
    tx.cleared = ClearedStatus::Reconciled;
    let d = DisplayTransaction::from_transaction(&tx);
    assert_eq!(d.amount, "-$12.35");
    assert_eq!(d.cleared, "Reconciled");
    assert_eq!(d.payee_name.as_deref(), Some("Shop"));
    tx.amount_formatted = Some("-12,35 EUR".to_string());
    let d = DisplayTransaction::from_transaction(&tx);
    assert_eq!(d.amount, "-12,35 EUR");
}

#[test]
fn cleared_status_reads_wire_names() {
    assert_eq!(ClearedStatus::from_wire("cleared"), Some(ClearedStatus::Cleared));
    assert_eq!(ClearedStatus::from_wire("uncleared"), Some(ClearedStatus::Uncleared));
    assert_eq!(ClearedStatus::from_wire("reconciled"), Some(ClearedStatus::Reconciled));
    assert_eq!(ClearedStatus::from_wire("Cleared"), None);
}

// Ordering

#[test]
fn sort_newest_first_is_stable() {
    let txs = vec![
        make_transaction("a", 1, "2026-01-02", None, None),
        make_transaction("b", 2, "2026-03-01", None, None),
        make_transaction("c", 3, "2026-01-02", None, None),
        make_transaction("d", 4, "2025-12-31", None, None),
    ];
    let ids: Vec<String> = sort_newest_first(txs).into_iter().map(|t| t.id).collect();
    assert_eq!(ids, vec!["b", "a", "c", "d"]);
}

#[test]
fn recent_transactions_limits_and_defaults() {
    let mut txs = Vec::new();
    for i in 0..150 {
        txs.push(make_transaction(&format!("t{}", i), i, &format!("2026-01-{:03}", i), None, None));
    }
    let r = recent_transactions(txs, None);
    assert_eq!(r.len(), 100);
    assert_eq!(r[0].id, "t149");
    let few = vec![
        make_transaction("x", 1, "2026-01-01", None, None),
        make_transaction("y", 2, "2026-02-01", None, None),
    ];
    let r = recent_transactions(few, Some(1));
    assert_eq!(r.len(), 1);
    assert_eq!(r[0].id, "y");
    let few = vec![make_transaction("x", 1, "2026-01-01", None, None)];
    assert_eq!(recent_transactions(few, Some(-3)).len(), 1);
    let few = vec![make_transaction("x", 1, "2026-01-01", None, None)];
    assert_eq!(recent_transactions(few, Some(0)).len(), 0);
}

#[test]
fn merge_newest_first_interleaves_lists() {
    let lists = vec![
        vec![make_transaction("a1", 1, "2026-01-05", None, None), make_transaction("a2", 1, "2026-01-01", None, None)],
        vec![make_transaction("b1", 1, "2026-01-03", None, None), make_transaction("b2", 1, "2026-01-05", None, None)],
    ];
    let ids: Vec<String> = merge_newest_first(lists).into_iter().map(|t| t.id).collect();
    assert_eq!(ids, vec!["a1", "b2", "b1", "a2"]);
}

// Endpoints

#[test]
fn endpoint_paths() {
    assert_eq!(Endpoint::Plans.path(), "/plans");
    assert_eq!(Endpoint::Accounts { plan_id: "p1".to_string() }.path(), "/plans/p1/accounts");
    assert_eq!(
        Endpoint::TransactionsPage { plan_id: "p".to_string(), limit: Some(100), since_date: Some("2026-01-01".to_string()) }.path(),
        "/plans/p/transactions?limit=100&since_date=2026-01-01"
    );
    assert_eq!(
        Endpoint::TransactionsPage { plan_id: "p".to_string(), limit: None, since_date: None }.path(),
        "/plans/p/transactions"
    );
    assert_eq!(
        Endpoint::TransactionsPage { plan_id: "p".to_string(), limit: Some(-5), since_date: None }.path(),
        "/plans/p/transactions?limit=-5"
    );
}
