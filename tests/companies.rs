use bale_backend::company::{
    create_company, get_company, get_company_list, Company, NewCompany, CREATED, FETCH_CONTEXT,
    INSERT_CONTEXT,
};
use bale_backend::error::{CompanyError, StoreError};
use bale_backend::health_check;
use bale_backend::listing::{CompanyQuery, ListPlan, SortField, SortOrder};

fn company(id: u128, name: &str) -> Company {
    Company {
        id,
        name: name.to_string(),
        address_line1: None,
        address_line2: None,
        city: None,
        state: None,
        country: None,
        pin_code: None,
        business_type: None,
        gst_number: None,
        pan_number: None,
        logo_url: None,
        created_at: 1_700_000_000_000_000 + id as i64,
        updated_at: 1_700_000_000_000_000 + id as i64,
        created_by: None,
        modified_by: None,
        deleted_at: None,
    }
}

fn numbered(n: u128) -> Vec<Company> {
    (1..=n).map(|i| company(i, &format!("Company {}", i))).collect()
}

/// What the store answers to the list statement: live rows, one page of them.
fn store_page(rows: &[Company], plan: &ListPlan) -> Vec<Company> {
    rows.iter()
        .filter(|c| c.deleted_at.is_none())
        .skip(plan.offset as usize)
        .take(plan.limit as usize)
        .cloned()
        .collect()
}

fn query(page: Option<&str>, limit: Option<&str>) -> CompanyQuery {
    CompanyQuery::from_params(
        page.map(|s| s.to_string()),
        limit.map(|s| s.to_string()),
        None,
        None,
    )
}

fn list(rows: &[Company], q: CompanyQuery) -> Vec<Company> {
    let plan = q.plan();
    get_company_list(Ok(store_page(rows, &plan))).unwrap()
}

#[test]
fn create_company_returns_200_for_valid_form() {
    let r = create_company(Ok(42));
    assert_eq!(r, Ok((CREATED, 42)));
    assert_eq!(CREATED, 201);
}

#[test]
fn create_company_persists_new_record_in_db() {
    let n = NewCompany {
        name: "Looms".to_string(),
        ..NewCompany::default()
    };
    let values = n.into_values();
    assert_eq!(values[0].as_deref(), Some("Looms"));
    assert!(values[1..].iter().all(|v| v.is_none()));
    let (status, id) = create_company(Ok(0x1234_5678_9abc_def0)).unwrap();
    assert_eq!(status, 201);
    assert_eq!(id, 0x1234_5678_9abc_def0);
}

#[test]
fn create_failure_is_unexpected() {
    let r = create_company(Err(StoreError::Failure("null value in column \"name\"".to_string())));
    let e = r.unwrap_err();
    assert_eq!(
        e,
        CompanyError::UnexpectedError(format!(
            "{}: null value in column \"name\"",
            INSERT_CONTEXT
        ))
    );
    assert_eq!(e.status_code(), 500);
}

#[test]
fn insert_binds_values_in_column_order() {
    let n = NewCompany {
        name: "Looms".to_string(),
        address_line1: Some("Shop 1, Building 2, Street 3".to_string()),
        address_line2: Some("50 street road".to_string()),
        city: Some("Mumbai".to_string()),
        state: Some("Maharashtra".to_string()),
        country: Some("India".to_string()),
        pin_code: Some("12345".to_string()),
        business_type: Some("Embroider".to_string()),
        gst_number: Some("1234567".to_string()),
        pan_number: Some("ABC123456".to_string()),
        logo_url: Some("https://www.logourl.com".to_string()),
    };
    let v = n.into_values();
    assert_eq!(v.len(), 11);
    assert_eq!(v[0].as_deref(), Some("Looms"));
    assert_eq!(v[3].as_deref(), Some("Mumbai"));
    assert_eq!(v[6].as_deref(), Some("12345"));
    assert_eq!(v[10].as_deref(), Some("https://www.logourl.com"));
}

#[test]
fn read_company_returns_inserted_record() {
    let n = NewCompany {
        name: "Looms".to_string(),
        city: Some("Mumbai".to_string()),
        ..NewCompany::default()
    };
    let values = n.into_values();
    let (status, id) = create_company(Ok(7)).unwrap();
    assert_eq!(status, 201);
    let mut stored = company(id, values[0].as_deref().unwrap());
    stored.city = values[3].clone();
    let got = get_company(Ok(stored.clone())).unwrap();
    assert_eq!(got, stored);
    assert_eq!(got.name, "Looms");
    assert_eq!(got.city.as_deref(), Some("Mumbai"));
    assert_eq!(got.address_line1, None);
    assert_eq!(got.logo_url, None);
}

#[test]
fn read_company_returns_not_found_if_record_doesnt_exist() {
    let e = get_company(Err(StoreError::RowNotFound)).unwrap_err();
    assert_eq!(e, CompanyError::NotFound);
    assert_eq!(e.status_code(), 404);
}

#[test]
fn read_failure_is_unexpected() {
    let e = get_company(Err(StoreError::Failure("pool timed out".to_string()))).unwrap_err();
    assert_eq!(
        e,
        CompanyError::UnexpectedError(format!("{}: pool timed out", FETCH_CONTEXT))
    );
    assert_eq!(e.status_code(), 500);
}

#[test]
fn validation_error_is_bad_request() {
    assert_eq!(CompanyError::ValidationError("name".to_string()).status_code(), 400);
}

#[test]
fn list_failure_is_unexpected() {
    let e = get_company_list(Err(StoreError::RowNotFound)).unwrap_err();
    assert!(matches!(e, CompanyError::UnexpectedError(_)));
    assert_eq!(e.status_code(), 500);
}

#[test]
fn read_company_list_returns_all_inserted_records() {
    let mut a = company(1, "Looms Ltd");
    a.city = Some("Mumbai".to_string());
    let mut b = company(2, "Textile Co");
    b.city = Some("Delhi".to_string());
    let got = list(&[a, b], query(None, None));
    assert_eq!(got.len(), 2);
    let names: Vec<&str> = got.iter().map(|c| c.name.as_str()).collect();
    assert!(names.contains(&"Looms Ltd"));
    assert!(names.contains(&"Textile Co"));
}

#[test]
fn list_drops_soft_deleted_rows() {
    let mut rows = numbered(4);
    rows[1].deleted_at = Some(1_700_000_100_000_000);
    rows[3].deleted_at = Some(1_700_000_200_000_000);
    let got = get_company_list(Ok(rows)).unwrap();
    let names: Vec<&str> = got.iter().map(|c| c.name.as_str()).collect();
    assert_eq!(names, vec!["Company 1", "Company 3"]);
}

#[test]
fn read_company_list_with_default_pagination() {
    let rows = numbered(25);
    let plan = query(None, None).plan();
    assert_eq!((plan.page, plan.limit, plan.offset), (1, 20, 0));
    assert_eq!(list(&rows, query(None, None)).len(), 20);
}

#[test]
fn read_company_list_with_custom_pagination() {
    let rows = numbered(30);
    assert_eq!(list(&rows, query(Some("1"), Some("25"))).len(), 25);
    let plan = query(Some("2"), Some("25")).plan();
    assert_eq!((plan.page, plan.limit, plan.offset), (2, 25, 25));
    let second = list(&rows, query(Some("2"), Some("25")));
    assert_eq!(second.len(), 5);
    assert_eq!(second[0].name, "Company 26");
}

#[test]
fn read_company_list_clamps_page_size() {
    let rows = numbered(60);
    assert_eq!(query(None, Some("5")).plan().limit, 20);
    assert_eq!(list(&rows, query(None, Some("5"))).len(), 20);
    assert_eq!(query(None, Some("100")).plan().limit, 50);
    assert_eq!(list(&rows, query(None, Some("100"))).len(), 50);
    assert_eq!(query(None, Some("30")).plan().limit, 30);
    assert_eq!(list(&rows, query(None, Some("30"))).len(), 30);
}

#[test]
fn limit_bounds_are_kept() {
    assert_eq!(query(None, Some("20")).plan().limit, 20);
    assert_eq!(query(None, Some("50")).plan().limit, 50);
    assert_eq!(query(None, Some("19")).plan().limit, 20);
    assert_eq!(query(None, Some("51")).plan().limit, 50);
    assert_eq!(query(None, Some("-3")).plan().limit, 20);
    assert_eq!(query(None, Some("many")).plan().limit, 20);
}

#[test]
fn read_company_list_handles_invalid_page_numbers() {
    let rows = vec![company(1, "Test Company")];
    for page in ["-1", "0", "abc", ""] {
        let q = query(Some(page), None);
        assert_eq!(q.plan().page, 1, "page {:?}", page);
        assert_eq!(list(&rows, query(Some(page), None)).len(), 1);
    }
}

#[test]
fn offset_follows_page_and_limit() {
    let plan = query(Some("4"), Some("30")).plan();
    assert_eq!(plan.offset, 90);
    let huge = query(Some("9223372036854775807"), Some("50")).plan();
    assert_eq!(huge.page, i64::MAX);
    assert_eq!(huge.offset, i64::MAX);
}

#[test]
fn sort_tokens_resolve_to_vocabulary() {
    assert_eq!(SortField::parse(None), SortField::Name);
    assert_eq!(SortField::parse(Some("name".to_string())), SortField::Name);
    assert_eq!(SortField::parse(Some("created_at".to_string())), SortField::CreatedAt);
    assert_eq!(SortField::parse(Some("CREATED_AT".to_string())), SortField::Name);
    assert_eq!(SortField::parse(Some("name; DROP TABLE companies".to_string())), SortField::Name);
    assert_eq!(SortField::CreatedAt.as_str(), "created_at");
}

#[test]
fn order_tokens_ignore_case() {
    assert_eq!(SortOrder::parse(None), SortOrder::Asc);
    assert_eq!(SortOrder::parse(Some("desc".to_string())), SortOrder::Desc);
    assert_eq!(SortOrder::parse(Some("DeSc".to_string())), SortOrder::Desc);
    assert_eq!(SortOrder::parse(Some("ASC".to_string())), SortOrder::Asc);
    assert_eq!(SortOrder::parse(Some("descending".to_string())), SortOrder::Asc);
    assert_eq!(SortOrder::parse(Some("".to_string())), SortOrder::Asc);
    assert_eq!(SortOrder::Desc.as_str(), "DESC");
}

#[test]
fn unknown_tokens_still_plan_a_listing() {
    let q = CompanyQuery::from_params(
        None,
        None,
        Some("salary".to_string()),
        Some("sideways".to_string()),
    );
    let plan = q.plan();
    assert_eq!(plan.sort, SortField::Name);
    assert_eq!(plan.order, SortOrder::Asc);
}

#[test]
fn statement_holds_only_resolved_identifiers() {
    let q = CompanyQuery::from_params(
        Some("3".to_string()),
        None,
        Some("created_at".to_string()),
        Some("desc".to_string()),
    );
    let plan = q.plan();
    assert_eq!(
        plan.statement(),
        "SELECT id, name, address_line1, address_line2, city, state, country, pin_code, \
         business_type, gst_number, pan_number, logo_url, created_at, updated_at, created_by, \
         modified_by, deleted_at FROM companies WHERE deleted_at IS NULL \
         ORDER BY created_at DESC LIMIT $1 OFFSET $2"
    );
    let default = query(None, None).plan().statement();
    assert!(default.ends_with("ORDER BY name ASC LIMIT $1 OFFSET $2"));
}

#[test]
fn health_check_works() {
    assert_eq!(health_check(), 200);
}
