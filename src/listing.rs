use vstd::prelude::*;

use crate::numeral::{int_of_text, parse_int};

verus! {

/// Page served when the caller names none, or one below it.
pub const FIRST_PAGE: i64 = 1;

/// Page size when the caller names none; also the smallest page size served.
pub const MIN_LIMIT: i64 = 20;

/// Largest page size served.
pub const MAX_LIMIT: i64 = 50;

/// Column that a listing is ordered by.
#[derive(Clone, Copy, Debug, PartialEq, Eq, Structural)]
pub enum SortField {
    Name,
    CreatedAt,
}

/// Direction of a listing's order.
#[derive(Clone, Copy, Debug, PartialEq, Eq, Structural)]
pub enum SortOrder {
    Asc,
    Desc,
}

/// Code of a character with ASCII lower-case letters taken to upper case.
pub open spec fn upper_code(c: char) -> u32 {
    if 'a' <= c && c <= 'z' {
        (c as u32 - 32) as u32
    } else {
        c as u32
    }
}

/// Two texts are equal when ASCII letters are compared without regard to case.
pub open spec fn same_ignoring_ascii_case(a: Seq<char>, b: Seq<char>) -> bool {
    a.len() == b.len() && forall|i: int| 0 <= i < a.len() ==> upper_code(#[trigger] a[i]) == upper_code(b[i])
}

/// The column a sort token selects: `created_at` names the creation time;
/// `name`, any other token and no token at all select the name.
pub open spec fn sort_field_of(token: Option<Seq<char>>) -> SortField {
    match token {
        Some(s) => if s == "created_at"@ {
            SortField::CreatedAt
        } else {
            SortField::Name
        },
        None => SortField::Name,
    }
}

/// The direction an order token selects, ignoring ASCII case: `DESC` is
/// descending; `ASC`, any other token and no token at all are ascending.
pub open spec fn sort_order_of(token: Option<Seq<char>>) -> SortOrder {
    match token {
        Some(s) => if same_ignoring_ascii_case(s, "DESC"@) {
            SortOrder::Desc
        } else {
            SortOrder::Asc
        },
        None => SortOrder::Asc,
    }
}

fn same_text_ignoring_ascii_case(a: &str, b: &str) -> (r: bool)
    ensures
        r == same_ignoring_ascii_case(a@, b@),
{
    let n = a.unicode_len();
    if n != b.unicode_len() {
        return false;
    }
    let mut i: usize = 0;
    while i < n
        invariant
            n == a@.len(),
            n == b@.len(),
            i <= n,
            forall|k: int| 0 <= k < i ==> upper_code(#[trigger] a@[k]) == upper_code(b@[k]),
        decreases n - i,
    {
        let x = a.get_char(i);
        let y = b.get_char(i);
        let ux: u32 = if 'a' <= x && x <= 'z' { x as u32 - 32 } else { x as u32 };
        let uy: u32 = if 'a' <= y && y <= 'z' { y as u32 - 32 } else { y as u32 };
        if ux != uy {
            return false;
        }
        i = i + 1;
    }
    true
}

impl SortField {
    /// Resolves a caller's sort token; never fails.
    pub fn parse(val: Option<String>) -> (r: Self)
        ensures
            r == sort_field_of(val.deep_view()),
    {
        match val {
            Some(s) => {
                if s == String::from_str("created_at") {
                    SortField::CreatedAt
                } else {
                    SortField::Name
                }
            },
            None => SortField::Name,
        }
    }

    pub open spec fn column(self) -> Seq<char> {
        match self {
            SortField::Name => "name"@,
            SortField::CreatedAt => "created_at"@,
        }
    }

    /// The column's name as it stands in a statement.
    pub fn as_str(&self) -> (r: &'static str)
        ensures
            r@ == self.column(),
    {
        match self {
            SortField::Name => "name",
            SortField::CreatedAt => "created_at",
        }
    }
}

impl SortOrder {
    /// Resolves a caller's order token, ignoring ASCII case; never fails.
    pub fn parse(val: Option<String>) -> (r: Self)
        ensures
            r == sort_order_of(val.deep_view()),
    {
        match val {
            Some(s) => {
                if same_text_ignoring_ascii_case(s.as_str(), "DESC") {
                    SortOrder::Desc
                } else {
                    SortOrder::Asc
                }
            },
            None => SortOrder::Asc,
        }
    }

    pub open spec fn keyword(self) -> Seq<char> {
        match self {
            SortOrder::Asc => "ASC"@,
            SortOrder::Desc => "DESC"@,
        }
    }

    /// The direction's keyword as it stands in a statement.
    pub fn as_str(&self) -> (r: &'static str)
        ensures
            r@ == self.keyword(),
    {
        match self {
            SortOrder::Asc => "ASC",
            SortOrder::Desc => "DESC",
        }
    }
}

/// Columns of a company record, in the order statements return them.
pub const COMPANY_COLUMNS: &'static str = "id, name, address_line1, address_line2, city, state, country, pin_code, business_type, gst_number, pan_number, logo_url, created_at, updated_at, created_by, modified_by, deleted_at";

/// The page a request is served: the requested one, or the first where it is
/// absent or below the first.
pub open spec fn effective_page(page: Option<i64>) -> i64 {
    match page {
        Some(p) => if p < FIRST_PAGE {
            FIRST_PAGE
        } else {
            p
        },
        None => FIRST_PAGE,
    }
}

/// The page size a request is served: the requested one held to
/// `MIN_LIMIT..=MAX_LIMIT`, or `MIN_LIMIT` where it is absent.
pub open spec fn effective_limit(limit: Option<i64>) -> i64 {
    match limit {
        Some(l) => if l < MIN_LIMIT {
            MIN_LIMIT
        } else if l > MAX_LIMIT {
            MAX_LIMIT
        } else {
            l
        },
        None => MIN_LIMIT,
    }
}

/// Rows skipped before a page: `(page - 1) * limit`, held at `i64::MAX`.
pub open spec fn offset_of(page: i64, limit: i64) -> i64 {
    let o = (page - 1) * limit;
    if o > i64::MAX {
        i64::MAX
    } else {
        o as i64
    }
}

/// Text of the statement that lists live records in the given order, one
/// page at a time; `$1` is bound to the page size and `$2` to the offset.
pub open spec fn list_statement(sort: SortField, order: SortOrder) -> Seq<char> {
    "SELECT "@ + COMPANY_COLUMNS@ + " FROM companies WHERE deleted_at IS NULL ORDER BY "@
        + sort.column() + " "@ + order.keyword() + " LIMIT $1 OFFSET $2"@
}

/// The parameters of one listing request, as the caller gave them.
pub struct CompanyQuery {
    pub page: Option<i64>,
    pub limit: Option<i64>,
    pub sort: Option<String>,
    pub order: Option<String>,
}

/// A listing request after the pagination and ordering rules were applied.
#[derive(Clone, Copy, Debug, PartialEq, Eq, Structural)]
pub struct ListPlan {
    pub page: i64,
    pub limit: i64,
    pub offset: i64,
    pub sort: SortField,
    pub order: SortOrder,
}

/// The integer a query parameter spells; an absent or non-numeric one gives `None`.
pub open spec fn param_int(text: Option<Seq<char>>) -> Option<i64> {
    match text {
        Some(t) => int_of_text(t),
        None => None,
    }
}

fn parse_param(text: &Option<String>) -> (r: Option<i64>)
    ensures
        r == param_int(text.deep_view()),
{
    match text {
        Some(t) => parse_int(t.as_str()),
        None => None,
    }
}

impl CompanyQuery {
    /// Builds a query from the raw texts of its parameters. A page or a limit
    /// that is not a decimal integer counts as absent.
    pub fn from_params(
        page: Option<String>,
        limit: Option<String>,
        sort: Option<String>,
        order: Option<String>,
    ) -> (r: Self)
        ensures
            r.page == param_int(page.deep_view()),
            r.limit == param_int(limit.deep_view()),
            r.sort == sort,
            r.order == order,
    {
        let page = parse_param(&page);
        let limit = parse_param(&limit);
        CompanyQuery { page, limit, sort, order }
    }

    /// Applies the pagination policy and resolves the ordering tokens.
    pub fn plan(self) -> (r: ListPlan)
        ensures
            r.page == effective_page(self.page),
            r.limit == effective_limit(self.limit),
            r.offset == offset_of(r.page, r.limit),
            r.sort == sort_field_of(self.sort.deep_view()),
            r.order == sort_order_of(self.order.deep_view()),
            r.wf(),
    {
        let page: i64 = match self.page {
            Some(p) => if p < FIRST_PAGE { FIRST_PAGE } else { p },
            None => FIRST_PAGE,
        };
        let limit: i64 = match self.limit {
            Some(l) => if l < MIN_LIMIT {
                MIN_LIMIT
            } else if l > MAX_LIMIT {
                MAX_LIMIT
            } else {
                l
            },
            None => MIN_LIMIT,
        };
        let offset: i64 = match (page - 1).checked_mul(limit) {
            Some(o) => o,
            None => {
                assert((page - 1) * limit >= 0) by (nonlinear_arith)
                    requires
                        page >= 1,
                        limit >= 0,
                ;
                i64::MAX
            },
        };
        let sort = SortField::parse(self.sort);
        let order = SortOrder::parse(self.order);
        ListPlan { page, limit, offset, sort, order }
    }
}

impl ListPlan {
    /// The page is at least the first, the page size within its bounds, and
    /// the offset follows from both.
    pub open spec fn wf(self) -> bool {
        &&& self.page >= FIRST_PAGE
        &&& MIN_LIMIT <= self.limit <= MAX_LIMIT
        &&& self.offset == offset_of(self.page, self.limit)
    }

    /// The statement that fetches this page. Only the resolved column and
    /// direction enter its text; page size and offset are bound to it.
    pub fn statement(&self) -> (r: String)
        ensures
            r@ == list_statement(self.sort, self.order),
    {
        let mut q = String::from_str("SELECT ");
        q.append(COMPANY_COLUMNS);
        q.append(" FROM companies WHERE deleted_at IS NULL ORDER BY ");
        q.append(self.sort.as_str());
        q.append(" ");
        q.append(self.order.as_str());
        q.append(" LIMIT $1 OFFSET $2");
        q
    }
}

} // verus!
