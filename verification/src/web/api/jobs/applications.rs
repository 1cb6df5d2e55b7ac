use vstd::prelude::*;
use vstd::string::*;
use crate::text::{signed_decimal, push_signed_decimal, split, split_on, trim, trimmed, views};
use crate::web::api::jobs::dtos::JobFilters;

verus! {

/// One piece of a database query: SQL text, or a value bound to a parameter.
#[derive(Debug)]
pub enum QueryPart {
    Sql(String),
    Text(String),
    Bool(bool),
    TextList(Vec<String>),
    Int(i64),
}

/// The abstract form of a query piece.
pub enum Part {
    Sql(Seq<char>),
    Text(Seq<char>),
    Bool(bool),
    TextList(Seq<Seq<char>>),
    Int(int),
}

impl View for QueryPart {
    type V = Part;

    open spec fn view(&self) -> Part {
        match self {
            QueryPart::Sql(s) => Part::Sql(s@),
            QueryPart::Text(s) => Part::Text(s@),
            QueryPart::Bool(b) => Part::Bool(*b),
            QueryPart::TextList(v) => Part::TextList(views(v@)),
            QueryPart::Int(i) => Part::Int(*i as int),
        }
    }
}

/// The abstract form of a list of query pieces.
pub open spec fn parts(v: Seq<QueryPart>) -> Seq<Part> {
    v.map_values(|p: QueryPart| p@)
}

/// The pattern that matches any text containing `s`.
pub open spec fn like_pattern(s: Seq<char>) -> Seq<char> {
    "%"@ + s + "%"@
}

/// The skills listed in a comma-separated text, each without surrounding white space.
pub open spec fn skill_list(s: Seq<char>) -> Seq<Seq<char>> {
    split_on(s, ',').map_values(|p: Seq<char>| trimmed(p))
}

/// The condition of an optional text filter, when it is set: the comparison,
/// then the bound value (wrapped in wildcards for a pattern match).
pub open spec fn text_condition(f: Option<String>, test: Seq<char>, like: bool) -> Option<
    Seq<Part>,
> {
    match f {
        Some(v) => Some(
            seq![Part::Sql(test), Part::Text(if like { like_pattern(v@) } else { v@ })],
        ),
        None => None,
    }
}

/// The condition of a minimum age, when it is set: the interval test with the
/// number of days.
pub open spec fn days_condition(f: Option<i32>) -> Option<Seq<Part>> {
    match f {
        Some(d) => Some(
            seq![
                Part::Sql(" posted_date >= NOW() - INTERVAL '"@),
                Part::Sql(signed_decimal(d as int)),
                Part::Sql(" days'"@),
            ],
        ),
        None => None,
    }
}

/// The condition of a remote-work filter, when it is set.
pub open spec fn remote_condition(f: Option<bool>) -> Option<Seq<Part>> {
    match f {
        Some(b) => Some(seq![Part::Sql(" is_remote = "@), Part::Bool(b)]),
        None => None,
    }
}

/// The condition of a skills filter, when it is set: the overlap test with the
/// listed skills.
pub open spec fn skills_condition(f: Option<String>) -> Option<Seq<Part>> {
    match f {
        Some(s) => Some(seq![Part::Sql(" skills && "@), Part::TextList(skill_list(s@))]),
        None => None,
    }
}

/// The conditions so far, followed by `c` when it is set.
pub open spec fn with_condition(conds: Seq<Seq<Part>>, c: Option<Seq<Part>>) -> Seq<Seq<Part>> {
    match c {
        Some(x) => conds.push(x),
        None => conds,
    }
}

/// The conditions of the filters that are set, in order: country, title,
/// company, location, contract type, age, remote work, skills. Each filter is
/// independent of the others.
pub open spec fn conditions(f: JobFilters) -> Seq<Seq<Part>> {
    let c1 = with_condition(Seq::empty(), text_condition(f.country, " country = "@, false));
    let c2 = with_condition(c1, text_condition(f.title, " title ILIKE "@, true));
    let c3 = with_condition(c2, text_condition(f.company, " company ILIKE "@, true));
    let c4 = with_condition(c3, text_condition(f.location, " location ILIKE "@, true));
    let c5 = with_condition(c4, text_condition(f.contract_type, " contract_type = "@, false));
    let c6 = with_condition(c5, days_condition(f.days_since_posted));
    let c7 = with_condition(c6, remote_condition(f.is_remote));
    with_condition(c7, skills_condition(f.skills))
}

/// The word that introduces a condition: `WHERE` for the first, `AND` after.
pub open spec fn connector(first: bool) -> Seq<char> {
    if first {
        " WHERE"@
    } else {
        " AND"@
    }
}

/// Conditions joined into a clause: the first after `WHERE`, each further one
/// after `AND`; no conditions give no clause at all.
pub open spec fn joined(conds: Seq<Seq<Part>>) -> Seq<Part>
    decreases conds.len(),
{
    if conds.len() == 0 {
        Seq::empty()
    } else {
        joined(conds.drop_last()) + seq![Part::Sql(connector(conds.len() == 1))] + conds.last()
    }
}

/// The pieces that the filters of a job search add to a query: the `WHERE`
/// clause of the conditions of the filters that are set.
pub open spec fn filter_parts(f: JobFilters) -> Seq<Part> {
    joined(conditions(f))
}

/// The optional pieces, by their abstract form.
pub open spec fn optional_parts(c: Option<Vec<QueryPart>>) -> Option<Seq<Part>> {
    match c {
        Some(v) => Some(parts(v@)),
        None => None,
    }
}

fn sql(s: &str) -> (p: QueryPart)
    ensures
        p@ == Part::Sql(s@),
{
    QueryPart::Sql(s.to_owned())
}

fn like(s: &String) -> (p: QueryPart)
    ensures
        p@ == Part::Text(like_pattern(s@)),
{
    let mut t = String::new();
    t.append("%");
    t.append(s.as_str());
    t.append("%");
    assert(t@ =~= like_pattern(s@));
    QueryPart::Text(t)
}

fn skills_of(s: &String) -> (v: Vec<String>)
    ensures
        views(v@) == skill_list(s@),
{
    let pieces = split(s.as_str(), ',');
    let mut out: Vec<String> = Vec::new();
    let mut i: usize = 0;
    while i < pieces.len()
        invariant
            views(pieces@) == split_on(s@, ','),
            i <= pieces@.len(),
            views(out@) == views(pieces@).take(i as int).map_values(|p: Seq<char>| trimmed(p)),
        decreases pieces@.len() - i,
    {
        let t = trim(pieces[i].as_str());
        let ghost before = views(out@);
        out.push(t);
        proof {
            assert(views(pieces@)[i as int] == pieces@[i as int]@);
            assert(views(out@) =~= before.push(trimmed(pieces@[i as int]@)));
            assert(views(pieces@).take(i + 1) =~= views(pieces@).take(i as int).push(
                pieces@[i as int]@,
            ));
            assert(views(out@) =~= views(pieces@).take(i + 1).map_values(
                |p: Seq<char>| trimmed(p),
            ));
        }
        i = i + 1;
    }
    assert(views(pieces@).take(pieces@.len() as int) =~= views(pieces@));
    out
}

fn text_condition_parts(f: &Option<String>, test: &str, is_like: bool) -> (c: Option<
    Vec<QueryPart>,
>)
    ensures
        optional_parts(c) == text_condition(*f, test@, is_like),
{
    match f {
        Some(v) => {
            let mut c: Vec<QueryPart> = Vec::new();
            c.push(sql(test));
            if is_like {
                c.push(like(v));
            } else {
                c.push(QueryPart::Text(v.clone()));
            }
            assert(parts(c@) =~= seq![
                Part::Sql(test@),
                Part::Text(if is_like { like_pattern(v@) } else { v@ }),
            ]);
            Some(c)
        },
        None => None,
    }
}

fn days_condition_parts(f: Option<i32>) -> (c: Option<Vec<QueryPart>>)
    ensures
        optional_parts(c) == days_condition(f),
{
    match f {
        Some(days) => {
            let mut c: Vec<QueryPart> = Vec::new();
            c.push(sql(" posted_date >= NOW() - INTERVAL '"));
            let mut n = String::new();
            push_signed_decimal(&mut n, days as i64);
            assert(n@ =~= signed_decimal(days as int));
            c.push(QueryPart::Sql(n));
            c.push(sql(" days'"));
            assert(parts(c@) =~= seq![
                Part::Sql(" posted_date >= NOW() - INTERVAL '"@),
                Part::Sql(signed_decimal(days as int)),
                Part::Sql(" days'"@),
            ]);
            Some(c)
        },
        None => None,
    }
}

fn remote_condition_parts(f: Option<bool>) -> (c: Option<Vec<QueryPart>>)
    ensures
        optional_parts(c) == remote_condition(f),
{
    match f {
        Some(is_remote) => {
            let mut c: Vec<QueryPart> = Vec::new();
            c.push(sql(" is_remote = "));
            c.push(QueryPart::Bool(is_remote));
            assert(parts(c@) =~= seq![Part::Sql(" is_remote = "@), Part::Bool(is_remote)]);
            Some(c)
        },
        None => None,
    }
}

fn skills_condition_parts(f: &Option<String>) -> (c: Option<Vec<QueryPart>>)
    ensures
        optional_parts(c) == skills_condition(*f),
{
    match f {
        Some(skills) => {
            let list = skills_of(skills);
            let mut c: Vec<QueryPart> = Vec::new();
            c.push(sql(" skills && "));
            c.push(QueryPart::TextList(list));
            assert(parts(c@) =~= seq![
                Part::Sql(" skills && "@),
                Part::TextList(skill_list(skills@)),
            ]);
            Some(c)
        },
        None => None,
    }
}

/// Joins the condition `c`, when it is set, to the clause built so far.
fn add_condition(
    out: &mut Vec<QueryPart>,
    first: &mut bool,
    c: Option<Vec<QueryPart>>,
    Ghost(base): Ghost<Seq<Part>>,
    Ghost(done): Ghost<Seq<Seq<Part>>>,
)
    requires
        parts(old(out)@) == base + joined(done),
        *old(first) == (done.len() == 0),
    ensures
        parts(final(out)@) == base + joined(with_condition(done, optional_parts(c))),
        *final(first) == (with_condition(done, optional_parts(c)).len() == 0),
{
    match c {
        Some(v) => {
            let ghost before = parts(out@);
            let ghost x = parts(v@);
            let mut v = v;
            if *first {
                out.push(sql(" WHERE"));
            } else {
                out.push(sql(" AND"));
            }
            let ghost mid = out@;
            out.append(&mut v);
            *first = false;
            proof {
                assert(done.push(x).drop_last() =~= done);
                assert(parts(out@) =~= parts(mid) + x);
                assert(parts(out@) =~= before + seq![Part::Sql(connector(done.len() == 0))] + x);
                vstd::seq_lib::lemma_concat_associative(base, joined(done), seq![Part::Sql(connector(done.len() == 0))]);
                vstd::seq_lib::lemma_concat_associative(base, joined(done) + seq![Part::Sql(connector(done.len() == 0))], x);
            }
        },
        None => {},
    }
}

/// Appends to `out` the `WHERE` clause of the filters of a job search that are
/// set; nothing when none is set.
pub fn apply_filters(out: &mut Vec<QueryPart>, filters: &JobFilters)
    ensures
        parts(final(out)@) == parts(old(out)@) + filter_parts(*filters),
{
    let ghost base = parts(out@);
    let mut first = true;
    let ghost d0: Seq<Seq<Part>> = Seq::empty();
    assert(parts(out@) =~= base + joined(d0));
    let c = text_condition_parts(&filters.country, " country = ", false);
    let ghost d1 = with_condition(d0, optional_parts(c));
    add_condition(out, &mut first, c, Ghost(base), Ghost(d0));
    let c = text_condition_parts(&filters.title, " title ILIKE ", true);
    let ghost d2 = with_condition(d1, optional_parts(c));
    add_condition(out, &mut first, c, Ghost(base), Ghost(d1));
    let c = text_condition_parts(&filters.company, " company ILIKE ", true);
    let ghost d3 = with_condition(d2, optional_parts(c));
    add_condition(out, &mut first, c, Ghost(base), Ghost(d2));
    let c = text_condition_parts(&filters.location, " location ILIKE ", true);
    let ghost d4 = with_condition(d3, optional_parts(c));
    add_condition(out, &mut first, c, Ghost(base), Ghost(d3));
    let c = text_condition_parts(&filters.contract_type, " contract_type = ", false);
    let ghost d5 = with_condition(d4, optional_parts(c));
    add_condition(out, &mut first, c, Ghost(base), Ghost(d4));
    let c = days_condition_parts(filters.days_since_posted);
    let ghost d6 = with_condition(d5, optional_parts(c));
    add_condition(out, &mut first, c, Ghost(base), Ghost(d5));
    let c = remote_condition_parts(filters.is_remote);
    let ghost d7 = with_condition(d6, optional_parts(c));
    add_condition(out, &mut first, c, Ghost(base), Ghost(d6));
    let c = skills_condition_parts(&filters.skills);
    add_condition(out, &mut first, c, Ghost(base), Ghost(d7));
}

/// When any filter is set, the clause opens with `WHERE` and the condition of
/// the first filter that is set; `AND` appears only between conditions.
pub proof fn law_clause_opens_with_where(conds: Seq<Seq<Part>>)
    requires
        conds.len() > 0,
    ensures
        joined(conds).len() >= 1 + conds[0].len(),
        joined(conds)[0] == Part::Sql(" WHERE"@),
        joined(conds).subrange(1, 1 + conds[0].len() as int) == conds[0],
    decreases conds.len(),
{
    if conds.len() == 1 {
        assert(conds.drop_last() =~= Seq::<Seq<Part>>::empty());
        assert(joined(conds.drop_last()) == Seq::<Part>::empty());
        assert(joined(conds) =~= seq![Part::Sql(" WHERE"@)] + conds[0]);
        assert(joined(conds).subrange(1, 1 + conds[0].len() as int) =~= conds[0]);
    } else {
        law_clause_opens_with_where(conds.drop_last());
        let prev = joined(conds.drop_last());
        assert(conds.drop_last()[0] == conds[0]);
        assert(joined(conds) == prev + seq![Part::Sql(connector(false))] + conds.last());
        assert(joined(conds)[0] == prev[0]);
        assert(joined(conds).subrange(1, 1 + conds[0].len() as int) =~= prev.subrange(
            1,
            1 + conds[0].len() as int,
        ));
    }
}

/// A search without filters adds no clause at all.
pub proof fn law_no_filters_no_clauses(f: JobFilters)
    requires
        f.country is None,
        f.title is None,
        f.company is None,
        f.location is None,
        f.contract_type is None,
        f.days_since_posted is None,
        f.is_remote is None,
        f.skills is None,
    ensures
        filter_parts(f) == Seq::<Part>::empty(),
{
    assert(filter_parts(f) =~= Seq::<Part>::empty());
}

/// The opening of the query that counts the matching jobs.
pub open spec fn count_head() -> Seq<char> {
    "SELECT COUNT(pk) as count FROM jobs"@
}

/// The opening of the query that fetches the matching jobs.
pub open spec fn fetch_head() -> Seq<char> {
    "SELECT id, title, company, location, contract_type,
                description, url, posted_date, is_remote, skills, salary_range
         FROM jobs"@
}

/// The pieces of the query counting the jobs that match `filters`.
pub fn count_jobs_query(filters: &JobFilters) -> (q: Vec<QueryPart>)
    ensures
        parts(q@) == seq![Part::Sql(count_head())] + filter_parts(*filters),
{
    let mut q: Vec<QueryPart> = Vec::new();
    q.push(sql("SELECT COUNT(pk) as count FROM jobs"));
    apply_filters(&mut q, filters);
    q
}

/// The pieces of the query fetching one page of the jobs that match
/// `filters`: newest first, `per_page` rows after skipping `offset`.
pub fn fetch_jobs_query(filters: &JobFilters, per_page: i64, offset: i64) -> (q: Vec<QueryPart>)
    ensures
        parts(q@) == seq![Part::Sql(fetch_head())] + filter_parts(*filters) + seq![
            Part::Sql(" ORDER BY posted_date DESC, created_at DESC"@),
            Part::Sql(" LIMIT "@),
            Part::Int(per_page as int),
            Part::Sql(" OFFSET "@),
            Part::Int(offset as int),
        ],
{
    let mut q: Vec<QueryPart> = Vec::new();
    q.push(
        sql(
            "SELECT id, title, company, location, contract_type,
                description, url, posted_date, is_remote, skills, salary_range
         FROM jobs",
        ),
    );
    apply_filters(&mut q, filters);
    let ghost mid = parts(q@);
    q.push(sql(" ORDER BY posted_date DESC, created_at DESC"));
    q.push(sql(" LIMIT "));
    q.push(QueryPart::Int(per_page));
    q.push(sql(" OFFSET "));
    q.push(QueryPart::Int(offset));
    assert(parts(q@) =~= mid + seq![
        Part::Sql(" ORDER BY posted_date DESC, created_at DESC"@),
        Part::Sql(" LIMIT "@),
        Part::Int(per_page as int),
        Part::Sql(" OFFSET "@),
        Part::Int(offset as int),
    ]);
    q
}

} // verus!
