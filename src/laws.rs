use vstd::prelude::*;

use crate::company::{bound_values, Company, NewCompany};
use crate::listing::{
    effective_limit, effective_page, param_int, same_ignoring_ascii_case, sort_field_of,
    sort_order_of, SortField, SortOrder, MAX_LIMIT, MIN_LIMIT,
};
use crate::numeral::int_of_text;

verus! {

/// A page parameter that is absent, not a decimal integer, or below one
/// serves the first page; any other serves the page it names.
pub proof fn lemma_page_falls_back_to_first(text: Option<Seq<char>>)
    ensures
        effective_page(param_int(text)) >= 1,
        text is None ==> effective_page(param_int(text)) == 1,
        text matches Some(t) ==> (int_of_text(t) is None ==> effective_page(param_int(text)) == 1),
        param_int(text) matches Some(p) ==> (p < 1 ==> effective_page(param_int(text)) == 1),
        param_int(text) matches Some(p) ==> (p >= 1 ==> effective_page(param_int(text)) == p),
{
}

/// A page size below the minimum is raised to it, one above the maximum is
/// lowered to it, and one within the bounds is kept.
pub proof fn lemma_limit_is_clamped(limit: i64)
    ensures
        limit < 20 ==> effective_limit(Some(limit)) == 20,
        limit > 50 ==> effective_limit(Some(limit)) == 50,
        20 <= limit <= 50 ==> effective_limit(Some(limit)) == limit,
        MIN_LIMIT <= effective_limit(Some(limit)) <= MAX_LIMIT,
{
}

/// Tokens outside the vocabulary resolve to ordering by name, ascending.
pub proof fn lemma_unknown_tokens_fall_back(sort: Seq<char>, order: Seq<char>)
    requires
        sort != "name"@,
        sort != "created_at"@,
        !same_ignoring_ascii_case(order, "ASC"@),
        !same_ignoring_ascii_case(order, "DESC"@),
    ensures
        sort_field_of(Some(sort)) == SortField::Name,
        sort_order_of(Some(order)) == SortOrder::Asc,
{
}

/// Round trip of a name: the name is the first value bound to the insert,
/// so a record stored from the bound values carries the name it was created
/// with, and a lookup hands that record back unchanged.
pub proof fn lemma_created_name_reads_back(new: NewCompany, stored: Company)
    requires
        bound_values(new)[0] == Some(stored.name),
    ensures
        stored.name == new.name,
        stored.name@ == new.name@,
{
}

} // verus!
