use vstd::prelude::*;

verus! {

/// The filters of a job search; the page to show is given apart.
#[derive(Debug)]
pub struct JobFilters {
    /// Filter by country code (e.g., "FR", "US")
    pub country: Option<String>,
    /// Filter by job title or keywords
    pub title: Option<String>,
    /// Filter by company name
    pub company: Option<String>,
    /// Filter by location/city
    pub location: Option<String>,
    /// Filter by contract type (e.g., "full_time", "part_time", "contract")
    pub contract_type: Option<String>,
    /// Filter by minimum number of days since posted
    pub days_since_posted: Option<i32>,
    /// Filter by remote work availability
    pub is_remote: Option<bool>,
    /// Filter by skills (comma-separated)
    pub skills: Option<String>,
}

/// A job as listed by a search.
#[derive(Debug)]
pub struct JobResponse {
    pub id: String,
    pub title: String,
    pub company: String,
    pub location: Option<String>,
    pub contract_type: Option<String>,
    pub description: Option<String>,
    pub url: String,
    pub posted_date: Option<String>,
    pub is_remote: Option<bool>,
    pub skills: Vec<String>,
    pub salary_range: Option<String>,
}

} // verus!
