use vstd::prelude::*;

use crate::error::{diagnostic, CompanyError, StoreError};

verus! {

/// HTTP status of a successful creation.
pub const CREATED: u16 = 201;

/// HTTP status of a successful read.
pub const OK: u16 = 200;

/// Statement that stores a new company; `$1` to `$11` are bound to
/// [`NewCompany::into_values`] in order, and the new identifier comes back.
pub const INSERT_COMPANY: &'static str = "INSERT INTO companies (name, address_line1, address_line2, city, state, country, pin_code, business_type, gst_number, pan_number, logo_url) VALUES ($1, $2, $3, $4, $5, $6, $7, $8, $9, $10, $11) RETURNING id";

/// Statement that reads one company; `$1` is bound to its identifier.
pub const SELECT_COMPANY: &'static str = "SELECT id, name, address_line1, address_line2, city, state, country, pin_code, business_type, gst_number, pan_number, logo_url, created_at, updated_at, created_by, modified_by, deleted_at FROM companies WHERE id = $1";

/// What is recorded when storing a new company fails.
pub const INSERT_CONTEXT: &'static str = "Failed to insert company in the database.";

/// What is recorded when reading companies fails.
pub const FETCH_CONTEXT: &'static str = "Failed to fetch company from database.";

/// A stored company. The identifier is the 128-bit value of its UUID; times
/// are microseconds since the Unix epoch, in UTC.
#[derive(Clone, Debug, PartialEq, Eq)]
pub struct Company {
    pub id: u128,
    pub name: String,
    pub address_line1: Option<String>,
    pub address_line2: Option<String>,
    pub city: Option<String>,
    pub state: Option<String>,
    pub country: Option<String>,
    pub pin_code: Option<String>,
    pub business_type: Option<String>,
    pub gst_number: Option<String>,
    pub pan_number: Option<String>,
    pub logo_url: Option<String>,
    pub created_at: i64,
    pub updated_at: i64,
    pub created_by: Option<u128>,
    pub modified_by: Option<u128>,
    pub deleted_at: Option<i64>,
}

/// The attributes a caller supplies to create a company.
#[derive(Clone, Debug, Default, PartialEq, Eq)]
pub struct NewCompany {
    pub name: String,
    pub address_line1: Option<String>,
    pub address_line2: Option<String>,
    pub city: Option<String>,
    pub state: Option<String>,
    pub country: Option<String>,
    pub pin_code: Option<String>,
    pub business_type: Option<String>,
    pub gst_number: Option<String>,
    pub pan_number: Option<String>,
    pub logo_url: Option<String>,
}

/// A record is live until it is soft-deleted.
pub open spec fn is_live(c: Company) -> bool {
    c.deleted_at is None
}

/// The live records of `rows`, in their order.
pub open spec fn live_rows(rows: Seq<Company>) -> Seq<Company> {
    rows.filter(|c: Company| is_live(c))
}

/// The values bound to [`INSERT_COMPANY`], in the order of its columns.
pub open spec fn bound_values(n: NewCompany) -> Seq<Option<String>> {
    seq![
        Some(n.name),
        n.address_line1,
        n.address_line2,
        n.city,
        n.state,
        n.country,
        n.pin_code,
        n.business_type,
        n.gst_number,
        n.pan_number,
        n.logo_url,
    ]
}

impl NewCompany {
    /// The values to bind to [`INSERT_COMPANY`], `$1` first.
    pub fn into_values(self) -> (r: Vec<Option<String>>)
        ensures
            r@ == bound_values(self),
    {
        let mut v: Vec<Option<String>> = Vec::new();
        v.push(Some(self.name));
        v.push(self.address_line1);
        v.push(self.address_line2);
        v.push(self.city);
        v.push(self.state);
        v.push(self.country);
        v.push(self.pin_code);
        v.push(self.business_type);
        v.push(self.gst_number);
        v.push(self.pan_number);
        v.push(self.logo_url);
        v
    }
}

/// The answer to a creation, given what the insert returned: the new
/// identifier with status 201, or an unexpected error for any store failure.
///
/// The name is not checked before the insert: that a company has one is left
/// to the store's constraint, whose refusal arrives here as a store failure.
pub fn create_company(inserted: Result<u128, StoreError>) -> (r: Result<(u16, u128), CompanyError>)
    ensures
        inserted is Ok ==> r == Ok::<(u16, u128), CompanyError>((CREATED, inserted->Ok_0)),
        inserted is Err ==> {
            &&& r is Err
            &&& r->Err_0 is UnexpectedError
            &&& r->Err_0->UnexpectedError_0@ == diagnostic(INSERT_CONTEXT@, inserted->Err_0)
        },
{
    match inserted {
        Ok(id) => Ok((CREATED, id)),
        Err(e) => Err(CompanyError::unexpected(INSERT_CONTEXT, &e)),
    }
}

/// The answer to a lookup by identifier, given what the store returned: the
/// record itself, `NotFound` where no row matched, or an unexpected error.
///
/// Unlike a listing, a lookup by identifier also answers a soft-deleted
/// record: [`SELECT_COMPANY`] does not filter on `deleted_at`.
pub fn get_company(fetched: Result<Company, StoreError>) -> (r: Result<Company, CompanyError>)
    ensures
        fetched is Ok ==> r == Ok::<Company, CompanyError>(fetched->Ok_0),
        fetched == Err::<Company, StoreError>(StoreError::RowNotFound) ==> r
            == Err::<Company, CompanyError>(CompanyError::NotFound),
        fetched matches Err(StoreError::Failure(_)) ==> {
            &&& r is Err
            &&& r->Err_0 is UnexpectedError
            &&& r->Err_0->UnexpectedError_0@ == diagnostic(FETCH_CONTEXT@, fetched->Err_0)
        },
{
    match fetched {
        Ok(c) => Ok(c),
        Err(StoreError::RowNotFound) => Err(CompanyError::NotFound),
        Err(e) => Err(CompanyError::unexpected(FETCH_CONTEXT, &e)),
    }
}

/// The answer to a listing, given the rows the store returned: those rows
/// that are live, in the store's order, or an unexpected error for any store
/// failure.
pub fn get_company_list(fetched: Result<Vec<Company>, StoreError>) -> (r: Result<
    Vec<Company>,
    CompanyError,
>)
    ensures
        fetched is Ok ==> r is Ok && r->Ok_0@ == live_rows(fetched->Ok_0@),
        r is Ok ==> forall|i: int| 0 <= i < r->Ok_0@.len() ==> is_live(#[trigger] r->Ok_0@[i]),
        fetched is Err ==> {
            &&& r is Err
            &&& r->Err_0 is UnexpectedError
            &&& r->Err_0->UnexpectedError_0@ == diagnostic(FETCH_CONTEXT@, fetched->Err_0)
        },
{
    match fetched {
        Ok(rows) => Ok(keep_live(rows)),
        Err(e) => Err(CompanyError::unexpected(FETCH_CONTEXT, &e)),
    }
}

fn keep_live(rows: Vec<Company>) -> (r: Vec<Company>)
    ensures
        r@ == live_rows(rows@),
        forall|i: int| 0 <= i < r@.len() ==> is_live(#[trigger] r@[i]),
{
    let ghost all = rows@;
    assert(all.len() == rows.len());
    let mut rest = rows;
    let mut kept: Vec<Company> = Vec::new();
    let mut i: usize = 0;
    while rest.len() > 0
        invariant
            i <= all.len(),
            all.len() <= usize::MAX,
            rest@ == all.skip(i as int),
            kept@ == live_rows(all.take(i as int)),
        decreases rest.len(),
    {
        let c = rest.remove(0);
        proof {
            assert(c == all[i as int]);
            assert(all.take(i + 1) =~= all.take(i as int).push(c));
            all.take(i as int).lemma_filter_push(c, |c: Company| is_live(c));
        }
        if c.deleted_at.is_none() {
            kept.push(c);
        }
        i = i + 1;
        assert(rest@ =~= all.skip(i as int));
    }
    assert(all.take(i as int) =~= all);
    proof {
        assert forall|k: int| 0 <= k < kept@.len() implies is_live(#[trigger] kept@[k]) by {
            all.lemma_filter_pred(|c: Company| is_live(c), k);
        }
    }
    kept
}

} // verus!
