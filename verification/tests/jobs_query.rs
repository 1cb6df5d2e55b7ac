use elerem::web::api::jobs::applications::{count_jobs_query, fetch_jobs_query, QueryPart};
use elerem::web::api::jobs::dtos::JobFilters;

fn no_filters() -> JobFilters {
    JobFilters {
        country: None,
        title: None,
        company: None,
        location: None,
        contract_type: None,
        days_since_posted: None,
        is_remote: None,
        skills: None,
    }
}

fn sql_of(parts: &[QueryPart]) -> String {
    let mut s = String::new();
    for p in parts {
        match p {
            QueryPart::Sql(t) => s.push_str(t),
            _ => s.push('?'),
        }
    }
    s
}

#[test]
fn count_query_without_filters() {
    let q = count_jobs_query(&no_filters());
    assert_eq!(sql_of(&q), "SELECT COUNT(pk) as count FROM jobs");
}

#[test]
fn every_filter_adds_its_clause_in_order() {
    let filters = JobFilters {
        country: Some("FR".to_string()),
        title: Some("rust".to_string()),
        company: Some("Acme".to_string()),
        location: Some("Paris".to_string()),
        contract_type: Some("full_time".to_string()),
        days_since_posted: Some(7),
        is_remote: Some(true),
        skills: Some(" rust , sql,go ".to_string()),
    };
    let q = count_jobs_query(&filters);
    assert_eq!(
        sql_of(&q),
        "SELECT COUNT(pk) as count FROM jobs WHERE country = ? AND title ILIKE ? AND company ILIKE ? AND location ILIKE ? AND contract_type = ? AND posted_date >= NOW() - INTERVAL '7 days' AND is_remote = ? AND skills && ?"
    );
    let binds: Vec<&QueryPart> = q.iter().filter(|p| !matches!(p, QueryPart::Sql(_))).collect();
    assert_eq!(binds.len(), 7);
    match binds[0] { QueryPart::Text(t) => assert_eq!(t, "FR"), _ => panic!("country") }
    match binds[1] { QueryPart::Text(t) => assert_eq!(t, "%rust%"), _ => panic!("title") }
    match binds[2] { QueryPart::Text(t) => assert_eq!(t, "%Acme%"), _ => panic!("company") }
    match binds[3] { QueryPart::Text(t) => assert_eq!(t, "%Paris%"), _ => panic!("location") }
    match binds[4] { QueryPart::Text(t) => assert_eq!(t, "full_time"), _ => panic!("contract") }
    match binds[5] { QueryPart::Bool(b) => assert!(*b), _ => panic!("remote") }
    match binds[6] {
        QueryPart::TextList(v) => assert_eq!(v, &vec!["rust", "sql", "go"]),
        _ => panic!("skills"),
    }
}

#[test]
fn title_without_country_and_negative_days() {
    let mut filters = no_filters();
    filters.title = Some("dev".to_string());
    filters.days_since_posted = Some(-3);
    let q = count_jobs_query(&filters);
    assert_eq!(
        sql_of(&q),
        "SELECT COUNT(pk) as count FROM jobs WHERE title ILIKE ? AND posted_date >= NOW() - INTERVAL '-3 days'"
    );
}

#[test]
fn fetch_query_orders_and_paginates() {
    let mut filters = no_filters();
    filters.is_remote = Some(false);
    let q = fetch_jobs_query(&filters, 20, 40);
    let text = sql_of(&q);
    assert!(text.starts_with("SELECT id, title, company, location, contract_type,"));
    assert!(text.ends_with("FROM jobs WHERE is_remote = ? ORDER BY posted_date DESC, created_at DESC LIMIT ? OFFSET ?"));
    let n = q.len();
    match &q[n - 3] { QueryPart::Int(i) => assert_eq!(*i, 20), _ => panic!("limit") }
    match &q[n - 1] { QueryPart::Int(i) => assert_eq!(*i, 40), _ => panic!("offset") }
    match &q[n - 6] { QueryPart::Bool(b) => assert!(!*b), _ => panic!("remote") }
}

#[test]
fn empty_skills_give_one_empty_skill() {
    let mut filters = no_filters();
    filters.skills = Some(String::new());
    let q = count_jobs_query(&filters);
    match q.last().unwrap() {
        QueryPart::TextList(v) => assert_eq!(v, &vec![String::new()]),
        _ => panic!("skills"),
    }
}

#[test]
fn title_only_search_is_well_formed() {
    let mut filters = no_filters();
    filters.title = Some("dev".to_string());
    let q = count_jobs_query(&filters);
    assert_eq!(sql_of(&q), "SELECT COUNT(pk) as count FROM jobs WHERE title ILIKE ?");
    match &q[3] { QueryPart::Text(t) => assert_eq!(t, "%dev%"), _ => panic!("title") }
}

#[test]
fn fetch_without_filters_has_no_where() {
    let q = fetch_jobs_query(&no_filters(), 10, 0);
    let text = sql_of(&q);
    assert!(!text.contains("WHERE"));
    assert!(text.ends_with("FROM jobs ORDER BY posted_date DESC, created_at DESC LIMIT ? OFFSET ?"));
}
