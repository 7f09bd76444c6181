//! Tool registry for YNAB API tools.
//!
//! The registry holds the definitions of the tools offered to the language
//! model and decides, for a tool call, which API request it stands for. The
//! program performs the request and reports the outcome as a `ToolResult`.

use vstd::prelude::*;
use vstd::string::StringExecFns;
use crate::json::{get_i64, get_str, get_str_or_empty, member_i64, member_str, member_str_or_empty};
use crate::text::{opt_view, own, str_eq};
/// A tool call parsed from the AI's response: the call that the model makes.
pub use crate::ai::ToolCall;

verus! {

/// A tool that can be called by the AI. `parameters` is the JSON text of its
/// parameter schema.
#[derive(Debug, Clone)]
pub struct Tool {
    pub name: String,
    pub description: String,
    pub parameters: String,
}

/// A tool as plain values.
pub struct ToolView {
    pub name: Seq<char>,
    pub description: Seq<char>,
    pub parameters: Seq<char>,
}

impl View for Tool {
    type V = ToolView;

    open spec fn view(&self) -> ToolView {
        ToolView { name: self.name@, description: self.description@, parameters: self.parameters@ }
    }
}

/// The tools as plain values.
pub open spec fn tool_views(s: Seq<Tool>) -> Seq<ToolView> {
    s.map_values(|t: Tool| t@)
}

impl Tool {
    /// A copy with the same contents.
    pub fn copied(&self) -> (r: Self)
        ensures
            r@ == self@,
    {
        Tool {
            name: self.name.clone(),
            description: self.description.clone(),
            parameters: self.parameters.clone(),
        }
    }
}

/// The result of executing a tool.
#[derive(Debug, Clone)]
pub struct ToolResult {
    pub tool: String,
    pub success: bool,
    pub data: Option<String>,
    pub error: Option<String>,
}

impl ToolResult {
    /// A successful result; `data` is the JSON text of what the tool returned
    /// (`None` when it could not be serialised).
    pub fn success(tool: &str, data: Option<String>) -> (r: Self)
        ensures
            r.tool@ == tool@,
            r.success,
            opt_view(r.data) == opt_view(data),
            r.error is None,
    {
        ToolResult { tool: own(tool), success: true, data, error: None }
    }

    /// A failed result with the error's text.
    pub fn error(tool: &str, message: &str) -> (r: Self)
        ensures
            r.tool@ == tool@,
            !r.success,
            r.data is None,
            opt_view(r.error) == Some(message@),
    {
        ToolResult { tool: own(tool), success: false, data: None, error: Some(own(message)) }
    }
}

/// Which API call a tool makes.
#[derive(Clone, Copy, Debug, PartialEq, Eq, Structural)]
pub enum ToolKind {
    GetPlans,
    GetPlan,
    GetAccounts,
    GetCategories,
    GetPayees,
    SearchPayeeTransactions,
    GetTransactions,
    GetTransactionsByMonth,
    GetMonth,
    GetScheduledTransactions,
    GetMonths,
    GetPlanSettings,
    GetTransactionsByAccount,
    GetTransactionsByCategory,
    GetMoneyMovements,
}

/// The API request a tool call stands for, with the arguments it takes from
/// the call.
pub enum ToolRequest {
    GetPlans,
    GetPlan { plan_id: String },
    GetAccounts { plan_id: String },
    GetCategories { plan_id: String },
    GetPayees { plan_id: String },
    SearchPayeeTransactions { plan_id: String, payee_search: String },
    /// A page of at most 100 transactions since the date, sorted newest first
    /// and cut to `limit` (100 when absent) once fetched.
    GetTransactions { plan_id: String, since_date: Option<String>, limit: Option<i64> },
    GetTransactionsByMonth { plan_id: String, month: String },
    GetMonth { plan_id: String, month: String },
    GetScheduledTransactions { plan_id: String },
    GetMonths { plan_id: String },
    GetPlanSettings { plan_id: String },
    GetTransactionsByAccount { plan_id: String, account_id: String },
    GetTransactionsByCategory { plan_id: String, category_id: String },
    GetMoneyMovements { plan_id: String },
}

/// The string argument `key` of a call, or empty (`args[key].as_str().unwrap_or("")`).
pub open spec fn arg(args: Seq<char>, key: Seq<char>) -> Seq<char> {
    member_str_or_empty(args, key)
}

/// Whether `req` is the request that a tool of kind `kind` makes for the
/// arguments `args` (JSON text).
pub open spec fn request_for(req: ToolRequest, kind: ToolKind, args: Seq<char>) -> bool {
    match (kind, req) {
        (ToolKind::GetPlans, ToolRequest::GetPlans) => true,
        (ToolKind::GetPlan, ToolRequest::GetPlan { plan_id }) => plan_id@ == arg(args, "plan_id"@),
        (ToolKind::GetAccounts, ToolRequest::GetAccounts { plan_id }) => plan_id@ == arg(
            args,
            "plan_id"@,
        ),
        (ToolKind::GetCategories, ToolRequest::GetCategories { plan_id }) => plan_id@ == arg(
            args,
            "plan_id"@,
        ),
        (ToolKind::GetPayees, ToolRequest::GetPayees { plan_id }) => plan_id@ == arg(
            args,
            "plan_id"@,
        ),
        (
            ToolKind::SearchPayeeTransactions,
            ToolRequest::SearchPayeeTransactions { plan_id, payee_search },
        ) => plan_id@ == arg(args, "plan_id"@) && payee_search@ == arg(args, "payee_search"@),
        (ToolKind::GetTransactions, ToolRequest::GetTransactions { plan_id, since_date, limit }) => {
            &&& plan_id@ == arg(args, "plan_id"@)
            &&& opt_view(since_date) == member_str(args, "since_date"@)
            &&& limit == member_i64(args, "limit"@)
        },
        (
            ToolKind::GetTransactionsByMonth,
            ToolRequest::GetTransactionsByMonth { plan_id, month },
        ) => plan_id@ == arg(args, "plan_id"@) && month@ == arg(args, "month"@),
        (ToolKind::GetMonth, ToolRequest::GetMonth { plan_id, month }) => plan_id@ == arg(
            args,
            "plan_id"@,
        ) && month@ == arg(args, "month"@),
        (
            ToolKind::GetScheduledTransactions,
            ToolRequest::GetScheduledTransactions { plan_id },
        ) => plan_id@ == arg(args, "plan_id"@),
        (ToolKind::GetMonths, ToolRequest::GetMonths { plan_id }) => plan_id@ == arg(
            args,
            "plan_id"@,
        ),
        (ToolKind::GetPlanSettings, ToolRequest::GetPlanSettings { plan_id }) => plan_id@ == arg(
            args,
            "plan_id"@,
        ),
        (
            ToolKind::GetTransactionsByAccount,
            ToolRequest::GetTransactionsByAccount { plan_id, account_id },
        ) => plan_id@ == arg(args, "plan_id"@) && account_id@ == arg(args, "account_id"@),
        (
            ToolKind::GetTransactionsByCategory,
            ToolRequest::GetTransactionsByCategory { plan_id, category_id },
        ) => plan_id@ == arg(args, "plan_id"@) && category_id@ == arg(args, "category_id"@),
        (ToolKind::GetMoneyMovements, ToolRequest::GetMoneyMovements { plan_id }) => plan_id@
            == arg(args, "plan_id"@),
        _ => false,
    }
}

/// A request takes each of its fields from the call's argument of the same
/// name, whatever the tool: `plan_id` is the string member `plan_id` of the
/// arguments (empty when there is none), `month` the member `month`,
/// `account_id`, `category_id` and `payee_search` the members so named,
/// `since_date` and `limit` the members `since_date` and `limit`; and the
/// request is of the tool's own kind.
pub proof fn law_request_fields_come_from_same_named_arguments(
    req: ToolRequest,
    kind: ToolKind,
    args: Seq<char>,
)
    requires
        request_for(req, kind, args),
    ensures
        request_kind(req) == kind,
        req matches ToolRequest::GetPlan { plan_id } ==> plan_id@ == member_str_or_empty(args, "plan_id"@),
        req matches ToolRequest::GetAccounts { plan_id } ==> plan_id@ == member_str_or_empty(args, "plan_id"@),
        req matches ToolRequest::GetCategories { plan_id } ==> plan_id@ == member_str_or_empty(args, "plan_id"@),
        req matches ToolRequest::GetPayees { plan_id } ==> plan_id@ == member_str_or_empty(args, "plan_id"@),
        req matches ToolRequest::GetScheduledTransactions { plan_id } ==> plan_id@ == member_str_or_empty(args, "plan_id"@),
        req matches ToolRequest::GetMonths { plan_id } ==> plan_id@ == member_str_or_empty(args, "plan_id"@),
        req matches ToolRequest::GetPlanSettings { plan_id } ==> plan_id@ == member_str_or_empty(args, "plan_id"@),
        req matches ToolRequest::GetMoneyMovements { plan_id } ==> plan_id@ == member_str_or_empty(args, "plan_id"@),
        req matches ToolRequest::SearchPayeeTransactions { plan_id, payee_search } ==> plan_id@
            == member_str_or_empty(args, "plan_id"@) && payee_search@ == member_str_or_empty(args, "payee_search"@),
        req matches ToolRequest::GetTransactions { plan_id, since_date, limit } ==> plan_id@
            == member_str_or_empty(args, "plan_id"@) && opt_view(since_date) == member_str(args, "since_date"@)
            && limit == member_i64(args, "limit"@),
        req matches ToolRequest::GetTransactionsByMonth { plan_id, month } ==> plan_id@
            == member_str_or_empty(args, "plan_id"@) && month@ == member_str_or_empty(args, "month"@),
        req matches ToolRequest::GetMonth { plan_id, month } ==> plan_id@ == member_str_or_empty(
            args,
            "plan_id"@,
        ) && month@ == member_str_or_empty(args, "month"@),
        req matches ToolRequest::GetTransactionsByAccount { plan_id, account_id } ==> plan_id@
            == member_str_or_empty(args, "plan_id"@) && account_id@ == member_str_or_empty(args, "account_id"@),
        req matches ToolRequest::GetTransactionsByCategory { plan_id, category_id } ==> plan_id@
            == member_str_or_empty(args, "plan_id"@) && category_id@ == member_str_or_empty(args, "category_id"@),
{
}

/// The request a tool of kind `kind` makes for the arguments `args`.
pub fn request(kind: ToolKind, args: &str) -> (r: ToolRequest)
    ensures
        request_for(r, kind, args@),
{
    match kind {
        ToolKind::GetPlans => ToolRequest::GetPlans,
        ToolKind::GetPlan => ToolRequest::GetPlan { plan_id: get_str_or_empty(args, "plan_id") },
        ToolKind::GetAccounts => ToolRequest::GetAccounts {
            plan_id: get_str_or_empty(args, "plan_id"),
        },
        ToolKind::GetCategories => ToolRequest::GetCategories {
            plan_id: get_str_or_empty(args, "plan_id"),
        },
        ToolKind::GetPayees => ToolRequest::GetPayees {
            plan_id: get_str_or_empty(args, "plan_id"),
        },
        ToolKind::SearchPayeeTransactions => ToolRequest::SearchPayeeTransactions {
            plan_id: get_str_or_empty(args, "plan_id"),
            payee_search: get_str_or_empty(args, "payee_search"),
        },
        ToolKind::GetTransactions => ToolRequest::GetTransactions {
            plan_id: get_str_or_empty(args, "plan_id"),
            since_date: get_str(args, "since_date"),
            limit: get_i64(args, "limit"),
        },
        ToolKind::GetTransactionsByMonth => ToolRequest::GetTransactionsByMonth {
            plan_id: get_str_or_empty(args, "plan_id"),
            month: get_str_or_empty(args, "month"),
        },
        ToolKind::GetMonth => ToolRequest::GetMonth {
            plan_id: get_str_or_empty(args, "plan_id"),
            month: get_str_or_empty(args, "month"),
        },
        ToolKind::GetScheduledTransactions => ToolRequest::GetScheduledTransactions {
            plan_id: get_str_or_empty(args, "plan_id"),
        },
        ToolKind::GetMonths => ToolRequest::GetMonths { plan_id: get_str_or_empty(args, "plan_id") },
        ToolKind::GetPlanSettings => ToolRequest::GetPlanSettings {
            plan_id: get_str_or_empty(args, "plan_id"),
        },
        ToolKind::GetTransactionsByAccount => ToolRequest::GetTransactionsByAccount {
            plan_id: get_str_or_empty(args, "plan_id"),
            account_id: get_str_or_empty(args, "account_id"),
        },
        ToolKind::GetTransactionsByCategory => ToolRequest::GetTransactionsByCategory {
            plan_id: get_str_or_empty(args, "plan_id"),
            category_id: get_str_or_empty(args, "category_id"),
        },
        ToolKind::GetMoneyMovements => ToolRequest::GetMoneyMovements {
            plan_id: get_str_or_empty(args, "plan_id"),
        },
    }
}

impl ToolRequest {
    /// The name of the tool that makes this request.
    pub fn tool_name(&self) -> (r: &'static str)
        ensures
            r@ == kind_name(request_kind(*self)),
    {
        match self {
            ToolRequest::GetPlans => "get_plans",
            ToolRequest::GetPlan { .. } => "get_plan",
            ToolRequest::GetAccounts { .. } => "get_accounts",
            ToolRequest::GetCategories { .. } => "get_categories",
            ToolRequest::GetPayees { .. } => "get_payees",
            ToolRequest::SearchPayeeTransactions { .. } => "search_payee_transactions",
            ToolRequest::GetTransactions { .. } => "get_transactions",
            ToolRequest::GetTransactionsByMonth { .. } => "get_transactions_by_month",
            ToolRequest::GetMonth { .. } => "get_month",
            ToolRequest::GetScheduledTransactions { .. } => "get_scheduled_transactions",
            ToolRequest::GetMonths { .. } => "get_months",
            ToolRequest::GetPlanSettings { .. } => "get_plan_settings",
            ToolRequest::GetTransactionsByAccount { .. } => "get_transactions_by_account",
            ToolRequest::GetTransactionsByCategory { .. } => "get_transactions_by_category",
            ToolRequest::GetMoneyMovements { .. } => "get_money_movements",
        }
    }
}

/// The kind of a request.
pub open spec fn request_kind(r: ToolRequest) -> ToolKind {
    match r {
        ToolRequest::GetPlans => ToolKind::GetPlans,
        ToolRequest::GetPlan { .. } => ToolKind::GetPlan,
        ToolRequest::GetAccounts { .. } => ToolKind::GetAccounts,
        ToolRequest::GetCategories { .. } => ToolKind::GetCategories,
        ToolRequest::GetPayees { .. } => ToolKind::GetPayees,
        ToolRequest::SearchPayeeTransactions { .. } => ToolKind::SearchPayeeTransactions,
        ToolRequest::GetTransactions { .. } => ToolKind::GetTransactions,
        ToolRequest::GetTransactionsByMonth { .. } => ToolKind::GetTransactionsByMonth,
        ToolRequest::GetMonth { .. } => ToolKind::GetMonth,
        ToolRequest::GetScheduledTransactions { .. } => ToolKind::GetScheduledTransactions,
        ToolRequest::GetMonths { .. } => ToolKind::GetMonths,
        ToolRequest::GetPlanSettings { .. } => ToolKind::GetPlanSettings,
        ToolRequest::GetTransactionsByAccount { .. } => ToolKind::GetTransactionsByAccount,
        ToolRequest::GetTransactionsByCategory { .. } => ToolKind::GetTransactionsByCategory,
        ToolRequest::GetMoneyMovements { .. } => ToolKind::GetMoneyMovements,
    }
}

/// The registered name of the tool of each kind.
pub open spec fn kind_name(k: ToolKind) -> Seq<char> {
    match k {
        ToolKind::GetPlans => "get_plans"@,
        ToolKind::GetPlan => "get_plan"@,
        ToolKind::GetAccounts => "get_accounts"@,
        ToolKind::GetCategories => "get_categories"@,
        ToolKind::GetPayees => "get_payees"@,
        ToolKind::SearchPayeeTransactions => "search_payee_transactions"@,
        ToolKind::GetTransactions => "get_transactions"@,
        ToolKind::GetTransactionsByMonth => "get_transactions_by_month"@,
        ToolKind::GetMonth => "get_month"@,
        ToolKind::GetScheduledTransactions => "get_scheduled_transactions"@,
        ToolKind::GetMonths => "get_months"@,
        ToolKind::GetPlanSettings => "get_plan_settings"@,
        ToolKind::GetTransactionsByAccount => "get_transactions_by_account"@,
        ToolKind::GetTransactionsByCategory => "get_transactions_by_category"@,
        ToolKind::GetMoneyMovements => "get_money_movements"@,
    }
}

/// The parameter schema of the tools that take only a plan id.
pub const PLAN_ID_PARAMS: &'static str = "{\"type\":\"object\",\"properties\":{\"plan_id\":{\"type\":\"string\"}},\"required\":[\"plan_id\"]}";

/// The parameter schema of `search_payee_transactions`.
pub const SEARCH_PARAMS: &'static str = "{\"type\":\"object\",\"properties\":{\"plan_id\":{\"type\":\"string\"},\"payee_search\":{\"type\":\"string\",\"description\":\"Name of payee to search for (e.g., 'Apple', 'Amazon'). Case-insensitive partial match.\"}},\"required\":[\"plan_id\",\"payee_search\"]}";

/// The parameter schema of `get_transactions`.
pub const TRANSACTIONS_PARAMS: &'static str = "{\"type\":\"object\",\"properties\":{\"plan_id\":{\"type\":\"string\"},\"limit\":{\"type\":\"integer\",\"description\":\"Max transactions to return (default 100)\"},\"since_date\":{\"type\":\"string\",\"description\":\"Only return transactions on or after this date (YYYY-MM-DD)\"}},\"required\":[\"plan_id\"]}";

/// The parameter schema of `get_transactions_by_month`.
pub const MONTH_TRANSACTIONS_PARAMS: &'static str = "{\"type\":\"object\",\"properties\":{\"plan_id\":{\"type\":\"string\"},\"month\":{\"type\":\"string\",\"description\":\"Month in YYYY-MM-DD format (e.g., '2026-04-01')\"}},\"required\":[\"plan_id\",\"month\"]}";

/// The parameter schema of `get_month`.
pub const MONTH_PARAMS: &'static str = "{\"type\":\"object\",\"properties\":{\"plan_id\":{\"type\":\"string\"},\"month\":{\"type\":\"string\",\"description\":\"Month in YYYY-MM format (e.g., '2026-04')\"}},\"required\":[\"plan_id\",\"month\"]}";

/// The parameter schema of `get_transactions_by_account`.
pub const ACCOUNT_TRANSACTIONS_PARAMS: &'static str = "{\"type\":\"object\",\"properties\":{\"plan_id\":{\"type\":\"string\"},\"account_id\":{\"type\":\"string\"}},\"required\":[\"plan_id\",\"account_id\"]}";

/// The parameter schema of `get_transactions_by_category`.
pub const CATEGORY_TRANSACTIONS_PARAMS: &'static str = "{\"type\":\"object\",\"properties\":{\"plan_id\":{\"type\":\"string\"},\"category_id\":{\"type\":\"string\"}},\"required\":[\"plan_id\",\"category_id\"]}";

/// The parameter schema of `get_plans`: none (JSON `null`).
pub const NO_PARAMS: &'static str = "null";

/// The tools every registry offers, in registration order.
pub open spec fn standard_tools() -> Seq<(ToolView, ToolKind)> {
    seq![
        (ToolView { name: "get_plans"@, description: "Get all budget plans"@, parameters: NO_PARAMS@ }, ToolKind::GetPlans),
        (ToolView { name: "get_plan"@, description: "Get a specific plan by ID"@, parameters: PLAN_ID_PARAMS@ }, ToolKind::GetPlan),
        (ToolView { name: "get_accounts"@, description: "Get all accounts for a plan"@, parameters: PLAN_ID_PARAMS@ }, ToolKind::GetAccounts),
        (ToolView { name: "get_categories"@, description: "Get all categories for a plan"@, parameters: PLAN_ID_PARAMS@ }, ToolKind::GetCategories),
        (ToolView { name: "get_payees"@, description: "Get all payees for a plan. Returns list of payees with their IDs."@, parameters: PLAN_ID_PARAMS@ }, ToolKind::GetPayees),
        (ToolView { name: "search_payee_transactions"@, description: "Search for transactions at a specific payee/store. Pass the store name as payee_search (e.g., 'Apple', 'Amazon', 'Walmart'). Returns all matching transactions sorted by date."@, parameters: SEARCH_PARAMS@ }, ToolKind::SearchPayeeTransactions),
        (ToolView { name: "get_transactions"@, description: "Get recent transactions for a plan. Returns up to 100 transactions sorted by date (most recent first). Use since_date to filter by date."@, parameters: TRANSACTIONS_PARAMS@ }, ToolKind::GetTransactions),
        (ToolView { name: "get_transactions_by_month"@, description: "Get transactions for a specific month. Use YYYY-MM-DD format for the month parameter (e.g., '2026-04-01' for April 2026)."@, parameters: MONTH_TRANSACTIONS_PARAMS@ }, ToolKind::GetTransactionsByMonth),
        (ToolView { name: "get_month"@, description: "Get budget summary for a specific month"@, parameters: MONTH_PARAMS@ }, ToolKind::GetMonth),
        (ToolView { name: "get_scheduled_transactions"@, description: "Get scheduled transactions for a plan"@, parameters: PLAN_ID_PARAMS@ }, ToolKind::GetScheduledTransactions),
        (ToolView { name: "get_months"@, description: "Get the monthly summaries of a plan: income, budgeted and activity for each month"@, parameters: PLAN_ID_PARAMS@ }, ToolKind::GetMonths),
        (ToolView { name: "get_plan_settings"@, description: "Get the settings of a plan (currency and date format)"@, parameters: PLAN_ID_PARAMS@ }, ToolKind::GetPlanSettings),
        (ToolView { name: "get_transactions_by_account"@, description: "Get the transactions of one account of a plan"@, parameters: ACCOUNT_TRANSACTIONS_PARAMS@ }, ToolKind::GetTransactionsByAccount),
        (ToolView { name: "get_transactions_by_category"@, description: "Get the transactions of one category of a plan"@, parameters: CATEGORY_TRANSACTIONS_PARAMS@ }, ToolKind::GetTransactionsByCategory),
        (ToolView { name: "get_money_movements"@, description: "Get the money moved between categories of a plan"@, parameters: PLAN_ID_PARAMS@ }, ToolKind::GetMoneyMovements),
    ]
}

/// The entry for `name` among `entries`, if any.
pub open spec fn find_entry(entries: Seq<(ToolView, ToolKind)>, name: Seq<char>) -> Option<int> {
    if exists|i: int| 0 <= i < entries.len() && entries[i].0.name == name {
        Some(choose|i: int| 0 <= i < entries.len() && entries[i].0.name == name)
    } else {
        None
    }
}

/// No two entries share a name.
pub open spec fn distinct_names(entries: Seq<(ToolView, ToolKind)>) -> bool {
    forall|i: int, j: int|
        0 <= i < j < entries.len() ==> entries[i].0.name != entries[j].0.name
}

/// The entry for `name`, if a tool of that name is registered.
pub open spec fn lookup(entries: Seq<(ToolView, ToolKind)>, name: Seq<char>) -> Option<(ToolView, ToolKind)> {
    match find_entry(entries, name) {
        Some(i) => Some(entries[i]),
        None => None,
    }
}

/// The standard tools have distinct names: the `k`-th is not among those
/// before it.
proof fn lemma_standard_fresh(k: int)
    requires
        0 <= k < 15,
    ensures
        find_entry(standard_tools().take(k), standard_tools()[k].0.name) is None,
{
    reveal_strlit("get_plans");
    reveal_strlit("get_plan");
    reveal_strlit("get_accounts");
    reveal_strlit("get_categories");
    reveal_strlit("get_payees");
    reveal_strlit("search_payee_transactions");
    reveal_strlit("get_transactions");
    reveal_strlit("get_transactions_by_month");
    reveal_strlit("get_month");
    reveal_strlit("get_scheduled_transactions");
    reveal_strlit("get_months");
    reveal_strlit("get_plan_settings");
    reveal_strlit("get_transactions_by_account");
    reveal_strlit("get_transactions_by_category");
    reveal_strlit("get_money_movements");
    let st = standard_tools();
    let e = st.take(k);
    assert forall|i: int| 0 <= i < e.len() implies e[i].0.name != st[k].0.name by {
        assert(e[i] == st[i]);
        let a = st[i].0.name;
        let b = st[k].0.name;
        if a.len() == b.len() {
            if a[4] == b[4] {
                assert(a[0] != b[0]);
            }
        }
    }
}

/// The request that a registered tool makes answers to that tool's name:
/// for a call of a tool of the registry that `ToolRegistry::new` builds, the
/// name that the request reports (`ToolRequest::tool_name`) is the name the
/// call gave, so the result comes back under the tool that was called.
pub proof fn law_request_answers_to_its_name(name: Seq<char>, req: ToolRequest, args: Seq<char>)
    requires
        lookup(standard_tools(), name) matches Some(entry) && request_for(req, entry.1, args),
    ensures
        kind_name(request_kind(req)) == name,
{
    let st = standard_tools();
    let i = choose|i: int| 0 <= i < st.len() && st[i].0.name == name;
    assert(0 <= i < st.len() && st[i].0.name == name);
    assert(lookup(st, name) == Some(st[i]));
    assert(kind_name(st[i].1) == st[i].0.name);
}

/// Registry of available tools: each tool's definition and the API call it
/// makes. No two tools share a name.
pub struct ToolRegistry {
    tools: Vec<Tool>,
    kinds: Vec<ToolKind>,
}

impl ToolRegistry {
    /// The registered tools, in registration order.
    pub closed spec fn entries(&self) -> Seq<(ToolView, ToolKind)> {
        Seq::new(self.tools@.len(), |i: int| (self.tools@[i]@, self.kinds@[i]))
    }

    /// Well-formed: one kind per tool, and no name twice.
    pub closed spec fn wf(&self) -> bool {
        &&& self.tools@.len() == self.kinds@.len()
        &&& distinct_names(self.entries())
    }

    /// A registry with the 15 YNAB tools: `get_plans`, `get_plan`,
    /// `get_accounts`, `get_categories`, `get_payees`,
    /// `search_payee_transactions`, `get_transactions`,
    /// `get_transactions_by_month`, `get_month`,
    /// `get_scheduled_transactions`, `get_months`, `get_plan_settings`,
    /// `get_transactions_by_account`, `get_transactions_by_category` and
    /// `get_money_movements`.
    pub fn new() -> (r: Self)
        ensures
            r.wf(),
            r.entries() == standard_tools(),
    {
        let mut r = ToolRegistry { tools: Vec::new(), kinds: Vec::new() };
        assert(r.entries() =~= Seq::<(ToolView, ToolKind)>::empty());
        proof {
            lemma_standard_fresh(0);
        }
        r.register("get_plans", "Get all budget plans", NO_PARAMS, ToolKind::GetPlans);
        assert(r.entries() =~= standard_tools().take(1));
        proof {
            lemma_standard_fresh(1);
        }
        r.register("get_plan", "Get a specific plan by ID", PLAN_ID_PARAMS, ToolKind::GetPlan);
        assert(r.entries() =~= standard_tools().take(2));
        proof {
            lemma_standard_fresh(2);
        }
        r.register("get_accounts", "Get all accounts for a plan", PLAN_ID_PARAMS, ToolKind::GetAccounts);
        assert(r.entries() =~= standard_tools().take(3));
        proof {
            lemma_standard_fresh(3);
        }
        r.register("get_categories", "Get all categories for a plan", PLAN_ID_PARAMS, ToolKind::GetCategories);
        assert(r.entries() =~= standard_tools().take(4));
        proof {
            lemma_standard_fresh(4);
        }
        r.register("get_payees", "Get all payees for a plan. Returns list of payees with their IDs.", PLAN_ID_PARAMS, ToolKind::GetPayees);
        assert(r.entries() =~= standard_tools().take(5));
        proof {
            lemma_standard_fresh(5);
        }
        r.register("search_payee_transactions", "Search for transactions at a specific payee/store. Pass the store name as payee_search (e.g., 'Apple', 'Amazon', 'Walmart'). Returns all matching transactions sorted by date.", SEARCH_PARAMS, ToolKind::SearchPayeeTransactions);
        assert(r.entries() =~= standard_tools().take(6));
        proof {
            lemma_standard_fresh(6);
        }
        r.register("get_transactions", "Get recent transactions for a plan. Returns up to 100 transactions sorted by date (most recent first). Use since_date to filter by date.", TRANSACTIONS_PARAMS, ToolKind::GetTransactions);
        assert(r.entries() =~= standard_tools().take(7));
        proof {
            lemma_standard_fresh(7);
        }
        r.register("get_transactions_by_month", "Get transactions for a specific month. Use YYYY-MM-DD format for the month parameter (e.g., '2026-04-01' for April 2026).", MONTH_TRANSACTIONS_PARAMS, ToolKind::GetTransactionsByMonth);
        assert(r.entries() =~= standard_tools().take(8));
        proof {
            lemma_standard_fresh(8);
        }
        r.register("get_month", "Get budget summary for a specific month", MONTH_PARAMS, ToolKind::GetMonth);
        assert(r.entries() =~= standard_tools().take(9));
        proof {
            lemma_standard_fresh(9);
        }
        r.register("get_scheduled_transactions", "Get scheduled transactions for a plan", PLAN_ID_PARAMS, ToolKind::GetScheduledTransactions);
        assert(r.entries() =~= standard_tools().take(10));
        proof {
            lemma_standard_fresh(10);
        }
        r.register("get_months", "Get the monthly summaries of a plan: income, budgeted and activity for each month", PLAN_ID_PARAMS, ToolKind::GetMonths);
        assert(r.entries() =~= standard_tools().take(11));
        proof {
            lemma_standard_fresh(11);
        }
        r.register("get_plan_settings", "Get the settings of a plan (currency and date format)", PLAN_ID_PARAMS, ToolKind::GetPlanSettings);
        assert(r.entries() =~= standard_tools().take(12));
        proof {
            lemma_standard_fresh(12);
        }
        r.register("get_transactions_by_account", "Get the transactions of one account of a plan", ACCOUNT_TRANSACTIONS_PARAMS, ToolKind::GetTransactionsByAccount);
        assert(r.entries() =~= standard_tools().take(13));
        proof {
            lemma_standard_fresh(13);
        }
        r.register("get_transactions_by_category", "Get the transactions of one category of a plan", CATEGORY_TRANSACTIONS_PARAMS, ToolKind::GetTransactionsByCategory);
        assert(r.entries() =~= standard_tools().take(14));
        proof {
            lemma_standard_fresh(14);
        }
        r.register("get_money_movements", "Get the money moved between categories of a plan", PLAN_ID_PARAMS, ToolKind::GetMoneyMovements);
        assert(r.entries() =~= standard_tools().take(15));
        assert(r.entries() =~= standard_tools());
        r
    }

    /// Register a tool with the registry. A tool of the same name is
    /// replaced; otherwise the tool is added after the others.
    fn register(&mut self, name: &str, description: &str, parameters: &str, kind: ToolKind)
        requires
            old(self).wf(),
        ensures
            final(self).wf(),
            ({
                let t = ToolView { name: name@, description: description@, parameters: parameters@ };
                match find_entry(old(self).entries(), name@) {
                    Some(i) => final(self).entries() == old(self).entries().update(i, (t, kind)),
                    None => final(self).entries() == old(self).entries().push((t, kind)),
                }
            }),
    {
        let tool = Tool { name: own(name), description: own(description), parameters: own(parameters) };
        let ghost t = tool@;
        let ghost e = self.entries();
        match self.position(name) {
            Some(i) => {
                let ghost old_tools = self.tools@;
                let ghost old_kinds = self.kinds@;
                self.tools.set(i, tool);
                self.kinds.set(i, kind);
                proof {
                    assert(e[i as int].0.name == name@);
                    assert forall|j: int| 0 <= j < e.len() implies #[trigger] self.entries()[j]
                        == e.update(i as int, (t, kind))[j] by {
                        if j != i {
                            assert(self.tools@[j] == old_tools[j]);
                            assert(self.kinds@[j] == old_kinds[j]);
                        }
                    }
                    assert(self.entries() =~= e.update(i as int, (t, kind)));
                    assert forall|a: int, b: int| 0 <= a < b < self.entries().len() implies self.entries()[a].0.name
                        != self.entries()[b].0.name by {
                        assert(self.entries()[a].0.name == e[a].0.name);
                        assert(self.entries()[b].0.name == e[b].0.name);
                    }
                }
            },
            None => {
                proof {
                    assert forall|c: int| 0 <= c < e.len() implies e[c].0.name != name@ by {
                        if e[c].0.name == name@ {
                            assert(exists|i: int| 0 <= i < e.len() && e[i].0.name == name@);
                        }
                    }
                }
                self.tools.push(tool);
                self.kinds.push(kind);
                proof {
                    assert(self.entries() =~= e.push((t, kind)));
                }
            },
        }
    }

    /// The position of the tool named `name`, if there is one.
    fn position(&self, name: &str) -> (r: Option<usize>)
        requires
            self.wf(),
        ensures
            match r {
                Some(i) => find_entry(self.entries(), name@) == Some(i as int),
                None => find_entry(self.entries(), name@) is None,
            },
    {
        let n = self.tools.len();
        let mut i: usize = 0;
        while i < n
            invariant
                i <= n,
                n == self.tools@.len(),
                self.wf(),
                forall|j: int| 0 <= j < i ==> self.tools@[j].name@ != name@,
            decreases n - i,
        {
            if str_eq(self.tools[i].name.as_str(), name) {
                proof {
                    let e = self.entries();
                    assert(e[i as int].0.name == name@);
                    let c = choose|c: int| 0 <= c < e.len() && e[c].0.name == name@;
                    assert(c == i) by {
                        if c < i {
                            assert(self.tools@[c].name@ == e[c].0.name);
                        } else if c > i {
                            assert(distinct_names(e));
                        }
                    }
                }
                return Some(i);
            }
            i = i + 1;
        }
        proof {
            let e = self.entries();
            assert forall|c: int| 0 <= c < e.len() implies e[c].0.name != name@ by {
                assert(e[c].0.name == self.tools@[c].name@);
            }
        }
        None
    }

    /// Whether a tool named `name` is registered.
    pub fn contains(&self, name: &str) -> (r: bool)
        requires
            self.wf(),
        ensures
            r == (lookup(self.entries(), name@) is Some),
    {
        match self.position(name) {
            Some(_) => true,
            None => false,
        }
    }

    /// Decide what a tool call does: the request of the named tool for these
    /// arguments (JSON text), or, for a name no tool has, the error result
    /// `Unknown tool: {name}`.
    pub fn execute(&self, name: &str, arguments: &str) -> (r: Result<ToolRequest, ToolResult>)
        requires
            self.wf(),
        ensures
            match lookup(self.entries(), name@) {
                Some(entry) => r matches Ok(req) && request_for(req, entry.1, arguments@),
                None => r matches Err(res) && res.tool@ == name@ && !res.success && res.data is None
                    && opt_view(res.error) == Some("Unknown tool: "@ + name@),
            },
    {
        match self.position(name) {
            Some(i) => {
                assert(self.entries()[i as int].1 == self.kinds@[i as int]);
                Ok(request(self.kinds[i], arguments))
            },
            None => {
                let mut msg = own("Unknown tool: ");
                msg.append(name);
                Err(ToolResult::error(name, msg.as_str()))
            },
        }
    }

    /// Get all tool definitions for the AI, in registration order.
    pub fn get_definitions(&self) -> (r: Vec<Tool>)
        ensures
            tool_views(r@) == self.entries().map_values(|e: (ToolView, ToolKind)| e.0),
    {
        let mut r: Vec<Tool> = Vec::new();
        let n = self.tools.len();
        let mut i: usize = 0;
        while i < n
            invariant
                i <= n,
                n == self.tools@.len(),
                tool_views(r@) == tool_views(self.tools@).take(i as int),
            decreases n - i,
        {
            let ghost before = r@;
            r.push(self.tools[i].copied());
            assert(tool_views(r@) == tool_views(before).push(self.tools@[i as int]@));
            assert(tool_views(self.tools@).take(i + 1) == tool_views(self.tools@).take(i as int).push(self.tools@[i as int]@));
            i = i + 1;
        }
        assert(tool_views(self.tools@).take(n as int) == tool_views(self.tools@));
        assert(tool_views(r@) =~= self.entries().map_values(|e: (ToolView, ToolKind)| e.0));
        r
    }

    /// The names of the registered tools, in registration order.
    pub fn names(&self) -> (r: Vec<String>)
        ensures
            r@.map_values(|s: String| s@) == self.entries().map_values(|e: (ToolView, ToolKind)| e.0.name),
    {
        let mut r: Vec<String> = Vec::new();
        let n = self.tools.len();
        let mut i: usize = 0;
        while i < n
            invariant
                i <= n,
                n == self.tools@.len(),
                r@.map_values(|s: String| s@) == self.tools@.take(i as int).map_values(|t: Tool| t.name@),
            decreases n - i,
        {
            let ghost before = r@;
            r.push(self.tools[i].name.clone());
            assert(r@.map_values(|s: String| s@) == before.map_values(|s: String| s@).push(self.tools@[i as int].name@));
            assert(self.tools@.take(i + 1) == self.tools@.take(i as int).push(self.tools@[i as int]));
            i = i + 1;
        }
        assert(self.tools@.take(n as int) == self.tools@);
        assert(r@.map_values(|s: String| s@) =~= self.entries().map_values(|e: (ToolView, ToolKind)| e.0.name));
        r
    }
}

} // verus!
