use vstd::prelude::*;
use vstd::string::*;
use vstd::relations::{sorted_by, total_ordering};
use crate::text::{decimal, push_decimal, has_substring, occurs_at, contains, lowercase, to_lowercase};

verus! {

broadcast use vstd::seq_lib::group_seq_properties;

/// The answer of the health check.
#[derive(Debug)]
pub struct HealthResponse {
    pub status: String,
    pub message: String,
}

/// Public information about the service.
#[derive(Debug)]
pub struct ServiceInfoResponse {
    pub service: String,
    pub version: String,
    pub description: String,
}

/// A user as the test API shows it.
#[derive(Debug)]
pub struct UserResponse {
    pub id: u64,
    pub username: String,
    pub email: String,
}

/// The abstract form of a user: identifier, username, email.
pub type UserView = (u64, Seq<char>, Seq<char>);

impl View for UserResponse {
    type V = UserView;

    open spec fn view(&self) -> UserView {
        (self.id, self.username@, self.email@)
    }
}

/// The body of a request creating or updating a user.
#[derive(Debug)]
pub struct CreateUserRequest {
    pub username: String,
    pub email: String,
}

/// The query of a user listing: an optional search text.
#[derive(Debug)]
pub struct UserQuery {
    pub search: Option<String>,
}

/// The answer of a performance test endpoint.
#[derive(Debug)]
pub struct PerformanceResponse {
    pub endpoint: String,
    pub processing_time_ms: u64,
    pub message: String,
}

/// The answer of a computation test endpoint.
#[derive(Debug)]
pub struct ComputeResponse {
    pub result: u64,
    pub iterations: u64,
    pub processing_time_ms: u64,
}

/// The query of a performance test endpoint: an optional delay in
/// milliseconds (overrides the endpoint's default).
#[derive(Debug)]
pub struct PerformanceQuery {
    pub delay_ms: Option<u64>,
}

/// The query of a computation test endpoint: an optional limit (overrides the
/// endpoint's default).
#[derive(Debug)]
pub struct ComputeQuery {
    pub limit: Option<u64>,
}

fn owned(s: &str) -> (r: String)
    ensures
        r@ == s@,
{
    s.to_owned()
}

/// The health check answer: status "ok", message "Service is running".
pub fn health() -> (r: HealthResponse)
    ensures
        r.status@ == "ok"@,
        r.message@ == "Service is running"@,
{
    HealthResponse { status: owned("ok"), message: owned("Service is running") }
}

/// The public information of the service.
pub fn public_info() -> (r: ServiceInfoResponse)
    ensures
        r.service@ == "Elerem API"@,
        r.version@ == "1.0.0"@,
        r.description@ == "Test API with protected and unprotected routes"@,
{
    ServiceInfoResponse {
        service: owned("Elerem API"),
        version: owned("1.0.0"),
        description: owned("Test API with protected and unprotected routes"),
    }
}

/// The current user, as the protected route shows it.
pub fn protected_user_info() -> (r: UserResponse)
    ensures
        r@ == (1u64, "current_user"@, "user@example.com"@),
{
    UserResponse { id: 1, username: owned("current_user"), email: owned("user@example.com") }
}

/// The users the listing starts from.
pub open spec fn known_users() -> Seq<UserView> {
    seq![
        (1u64, "alice"@, "alice@example.com"@),
        (2u64, "bob"@, "bob@example.com"@),
        (3u64, "charlie"@, "charlie@example.com"@),
    ]
}

/// A user matches a search when the search text occurs, ignoring case, in the
/// username or in the email address.
pub open spec fn user_matches(u: UserView, search: Seq<char>) -> bool {
    has_substring(lowercase(u.1), lowercase(search)) || has_substring(
        lowercase(u.2),
        lowercase(search),
    )
}

/// The users a listing shows: all of them without a search, else those that
/// match it, in their order.
pub open spec fn listed_users(search: Option<Seq<char>>) -> Seq<UserView> {
    match search {
        None => known_users(),
        Some(s) => known_users().filter(|u: UserView| user_matches(u, s)),
    }
}

/// A search lists exactly the known users in whose username or email the
/// search text occurs, ignoring case, at some position: every such user is
/// listed, and every listed user is a known one in which it occurs.
pub proof fn law_search_by_substring(search: Seq<char>, i: int, p: int)
    requires
        0 <= i < known_users().len(),
    ensures
        occurs_at(lowercase(known_users()[i].1), lowercase(search), p) ==> listed_users(
            Some(search),
        ).contains(known_users()[i]),
        occurs_at(lowercase(known_users()[i].2), lowercase(search), p) ==> listed_users(
            Some(search),
        ).contains(known_users()[i]),
        forall|j: int|
            0 <= j < listed_users(Some(search)).len() ==> known_users().contains(
                #[trigger] listed_users(Some(search))[j],
            ) && (has_substring(lowercase(listed_users(Some(search))[j].1), lowercase(search))
                || has_substring(lowercase(listed_users(Some(search))[j].2), lowercase(search))),
{
    let pred = |u: UserView| user_matches(u, search);
    let listed = known_users().filter(pred);
    assert(listed_users(Some(search)) == listed);
    known_users().filter_lemma(pred);
    if occurs_at(lowercase(known_users()[i].1), lowercase(search), p) || occurs_at(
        lowercase(known_users()[i].2),
        lowercase(search),
        p,
    ) {
        assert(pred(known_users()[i]));
        known_users().lemma_filter_contains(pred, i);
    }
    assert forall|j: int| 0 <= j < listed.len() implies known_users().contains(
        #[trigger] listed[j],
    ) && (has_substring(lowercase(listed[j].1), lowercase(search)) || has_substring(
        lowercase(listed[j].2),
        lowercase(search),
    )) by {
        assert(listed.contains(listed[j]));
        known_users().lemma_filter_contains_rev(pred, listed[j]);
        assert(pred(listed[j]));
    }
}

/// The views of a list of users.
pub open spec fn user_views(v: Seq<UserResponse>) -> Seq<UserView> {
    v.map_values(|u: UserResponse| u@)
}

fn known_user_list() -> (v: Vec<UserResponse>)
    ensures
        user_views(v@) == known_users(),
{
    let mut v: Vec<UserResponse> = Vec::new();
    v.push(UserResponse { id: 1, username: owned("alice"), email: owned("alice@example.com") });
    v.push(UserResponse { id: 2, username: owned("bob"), email: owned("bob@example.com") });
    v.push(
        UserResponse { id: 3, username: owned("charlie"), email: owned("charlie@example.com") },
    );
    assert(user_views(v@) =~= known_users());
    v
}

fn matches_search(u: &UserResponse, search: &String) -> (b: bool)
    ensures
        b == user_matches(u@, search@),
{
    let needle = to_lowercase(search.as_str());
    let name = to_lowercase(u.username.as_str());
    if contains(name.as_str(), needle.as_str()) {
        return true;
    }
    let email = to_lowercase(u.email.as_str());
    contains(email.as_str(), needle.as_str())
}

/// Lists the users, keeping only those that match the search if there is one.
pub fn get_users(query: UserQuery) -> (r: Vec<UserResponse>)
    ensures
        user_views(r@) == listed_users(
            match query.search {
                Some(s) => Some(s@),
                None => None,
            },
        ),
{
    let users = known_user_list();
    match query.search {
        None => users,
        Some(search) => {
            let ghost pred = |u: UserView| user_matches(u, search@);
            let mut kept: Vec<UserResponse> = Vec::new();
            let mut i: usize = 0;
            while i < users.len()
                invariant
                    user_views(users@) == known_users(),
                    i <= users@.len(),
                    pred == (|u: UserView| user_matches(u, search@)),
                    user_views(kept@) == user_views(users@).take(i as int).filter(pred),
                decreases users@.len() - i,
            {
                let u = &users[i];
                let ghost before = user_views(kept@);
                proof {
                    assert(user_views(users@).take(i + 1) =~= user_views(users@).take(
                        i as int,
                    ).push(u@));
                    user_views(users@).take(i as int).lemma_filter_push(u@, pred);
                }
                if matches_search(u, &search) {
                    kept.push(
                        UserResponse {
                            id: u.id,
                            username: u.username.clone(),
                            email: u.email.clone(),
                        },
                    );
                    assert(user_views(kept@) =~= before.push(u@));
                }
                i = i + 1;
            }
            assert(user_views(users@).take(users@.len() as int) =~= user_views(users@));
            kept
        },
    }
}


/// The username shown for the user with identifier `id`.
pub open spec fn generated_username(id: u64) -> Seq<char> {
    "user"@ + decimal(id as nat)
}

/// The email address shown for the user with identifier `id`.
pub open spec fn generated_email(id: u64) -> Seq<char> {
    "user"@ + decimal(id as nat) + "@example.com"@
}

/// The user with identifier `id`, named after it.
pub fn get_user_by_id(id: u64) -> (r: UserResponse)
    ensures
        r@ == (id, generated_username(id), generated_email(id)),
{
    let mut username = String::new();
    username.append("user");
    push_decimal(&mut username, id);
    let mut email = String::new();
    email.append("user");
    push_decimal(&mut email, id);
    email.append("@example.com");
    assert(username@ =~= generated_username(id));
    assert(email@ =~= generated_email(id));
    UserResponse { id, username, email }
}

/// The user created from a request: identifier 999, with the given name and email.
pub fn create_user(payload: CreateUserRequest) -> (r: UserResponse)
    ensures
        r.id == 999,
        r.username == payload.username,
        r.email == payload.email,
{
    UserResponse { id: 999, username: payload.username, email: payload.email }
}

/// The user `id` as updated by a request.
pub fn update_user(id: u64, payload: CreateUserRequest) -> (r: UserResponse)
    ensures
        r.id == id,
        r.username == payload.username,
        r.email == payload.email,
{
    UserResponse { id, username: payload.username, email: payload.email }
}

/// HTTP status 204 No Content, the answer to a deletion.
pub const STATUS_NO_CONTENT: u16 = 204;

/// The performance test endpoints.
#[derive(Debug, Clone, Copy, PartialEq, Eq, Structural)]
pub enum PerfEndpoint {
    Fast,
    Medium,
    Slow,
    VerySlow,
}

impl PerfEndpoint {
    /// The delay an endpoint waits when the query gives none: 10, 100, 500
    /// and 2000 milliseconds.
    pub open spec fn default_delay(self) -> u64 {
        match self {
            PerfEndpoint::Fast => 10,
            PerfEndpoint::Medium => 100,
            PerfEndpoint::Slow => 500,
            PerfEndpoint::VerySlow => 2000,
        }
    }

    /// The name an endpoint reports.
    pub open spec fn label(self) -> Seq<char> {
        match self {
            PerfEndpoint::Fast => "fast"@,
            PerfEndpoint::Medium => "medium"@,
            PerfEndpoint::Slow => "slow"@,
            PerfEndpoint::VerySlow => "very_slow"@,
        }
    }

    /// The delay to wait for a request: the query's, else the endpoint's default.
    pub fn delay_for(self, query: &PerformanceQuery) -> (d: u64)
        ensures
            d == match query.delay_ms {
                Some(ms) => ms,
                None => self.default_delay(),
            },
    {
        match query.delay_ms {
            Some(ms) => ms,
            None => match self {
                PerfEndpoint::Fast => 10,
                PerfEndpoint::Medium => 100,
                PerfEndpoint::Slow => 500,
                PerfEndpoint::VerySlow => 2000,
            },
        }
    }

    /// The name an endpoint reports.
    pub fn name(self) -> (s: &'static str)
        ensures
            s@ == self.label(),
    {
        match self {
            PerfEndpoint::Fast => "fast",
            PerfEndpoint::Medium => "medium",
            PerfEndpoint::Slow => "slow",
            PerfEndpoint::VerySlow => "very_slow",
        }
    }
}

/// The message of a performance endpoint that waited `delay` milliseconds.
pub open spec fn delay_message(delay: u64) -> Seq<char> {
    "This endpoint responds in ~"@ + decimal(delay as nat) + "ms"@
}

/// The answer of a performance endpoint that waited `delay` milliseconds and
/// measured `elapsed_ms`.
pub fn performance_response(endpoint: PerfEndpoint, delay: u64, elapsed_ms: u64) -> (r:
    PerformanceResponse)
    ensures
        r.endpoint@ == endpoint.label(),
        r.processing_time_ms == elapsed_ms,
        r.message@ == delay_message(delay),
{
    let mut message = String::new();
    message.append("This endpoint responds in ~");
    push_decimal(&mut message, delay);
    message.append("ms");
    assert(message@ =~= delay_message(delay));
    PerformanceResponse {
        endpoint: owned(endpoint.name()),
        processing_time_ms: elapsed_ms,
        message,
    }
}

/// `n` is a prime number.
pub open spec fn is_prime(n: nat) -> bool {
    n >= 2 && forall|d: nat| 2 <= d < n ==> #[trigger] (n % d) != 0
}

/// The number of primes up to and including `n`.
pub open spec fn prime_count(n: nat) -> nat
    decreases n,
{
    if n == 0 {
        0
    } else {
        prime_count((n - 1) as nat) + if is_prime(n) {
            1nat
        } else {
            0nat
        }
    }
}

proof fn lemma_prime_count_bounded(n: nat)
    ensures
        prime_count(n) <= n,
    decreases n,
{
    if n > 0 {
        lemma_prime_count_bounded((n - 1) as nat);
    }
}

proof fn lemma_small_divisor(n: nat, d: nat, i: nat)
    requires
        2 <= d < n,
        n % d == 0,
        i * i > n,
        d >= i,
        i >= 2,
    ensures
        2 <= n / d < i,
        n % (n / d) == 0,
{
    let e = n / d;
    assert(n == d * e) by (nonlinear_arith)
        requires
            n % d == 0,
            d > 0,
            e == n / d,
    ;
    assert(e >= 2) by (nonlinear_arith)
        requires
            n == d * e,
            d < n,
            d > 0,
    ;
    assert(e < i) by (nonlinear_arith)
        requires
            n == d * e,
            d >= i,
            i * i > n,
            i >= 2,
            e >= 0,
    ;
    assert(n % e == 0) by (nonlinear_arith)
        requires
            n == d * e,
            e > 0,
    ;
}

/// Trial division up to the square root.
fn is_prime_trial(num: u64) -> (b: bool)
    requires
        num >= 2,
    ensures
        b == is_prime(num as nat),
{
    let mut i: u64 = 2;
    while i <= num / i
        invariant
            2 <= i,
            num >= 2,
            forall|d: nat| 2 <= d < i ==> #[trigger] ((num as nat) % d) != 0,
            i <= num,
        decreases num - i,
    {
        if num % i == 0 {
            assert(i < num) by (nonlinear_arith)
                requires
                    i <= num / i,
                    i >= 2,
                    num >= 2,
            ;
            assert(!is_prime(num as nat)) by {
                assert((num as nat) % (i as nat) == 0);
            }
            return false;
        }
        assert(i + 1 <= num) by (nonlinear_arith)
            requires
                i <= num / i,
                i >= 2,
                num >= 2,
        ;
        i = i + 1;
    }
    assert(i * i > num) by (nonlinear_arith)
        requires
            i > num / i,
            i >= 2,
    ;
    assert forall|d: nat| 2 <= d < num implies #[trigger] ((num as nat) % d) != 0 by {
        if d >= i && (num as nat) % d == 0 {
            lemma_small_divisor(num as nat, d, i as nat);
            let e = (num as nat) / d;
            assert((num as nat) % e != 0);
        }
    }
    true
}

/// The number of primes up to and including `limit`, counted by trial division.
pub fn count_primes_up_to(limit: u64) -> (count: u64)
    ensures
        count == prime_count(limit as nat),
{
    let mut count: u64 = 0;
    if limit < 2 {
        assert(prime_count(0) == 0);
        assert(prime_count(1) == 0);
        return 0;
    }
    let mut num: u64 = 2;
    assert(prime_count(0) == 0);
    assert(prime_count(1) == 0);
    while num <= limit
        invariant
            2 <= num,
            num <= limit + 1,
            count == prime_count((num - 1) as nat),
        decreases limit + 1 - num,
    {
        proof {
            lemma_prime_count_bounded(num as nat);
        }
        if is_prime_trial(num) {
            count = count + 1;
        }
        if num == limit {
            return count;
        }
        num = num + 1;
    }
    count
}

/// The limit a computation uses: the query's, else `default`.
pub fn compute_limit(query: &ComputeQuery, default: u64) -> (l: u64)
    ensures
        l == match query.limit {
            Some(x) => x,
            None => default,
        },
{
    match query.limit {
        Some(x) => x,
        None => default,
    }
}

/// The limit of the prime computation when the query gives none.
pub const DEFAULT_PRIME_LIMIT: u64 = 100_000;

/// The size of the memory workload when the query gives none.
pub const DEFAULT_MEMORY_SIZE: u64 = 1_000_000;

/// The answer of a computation endpoint.
pub fn compute_response(result: u64, iterations: u64, processing_time_ms: u64) -> (r:
    ComputeResponse)
    ensures
        r.result == result,
        r.iterations == iterations,
        r.processing_time_ms == processing_time_ms,
{
    ComputeResponse { result, iterations, processing_time_ms }
}


/// Calls `<[u64]>::sort` of std on the vector's elements. The contract claims
/// what std documents: the same values afterwards, in ascending order.
#[verifier::external_body]
fn sort_ascending(v: &mut Vec<u64>)
    ensures
        final(v)@.to_multiset() == old(v)@.to_multiset(),
        sorted_by(final(v)@, |a: u64, b: u64| a <= b),
{
    v.sort();
}

/// Reverses the vector in place.
fn reverse(v: &mut Vec<u64>)
    ensures
        final(v)@ == old(v)@.reverse(),
{
    let n = v.len();
    let ghost orig = v@;
    let mut i: usize = 0;
    while i < n / 2
        invariant
            n == v@.len(),
            orig.len() == n,
            i <= n / 2,
            forall|k: int| 0 <= k < i ==> v@[k] == orig[n - 1 - k],
            forall|k: int| 0 <= k < i ==> v@[n - 1 - k] == orig[k],
            forall|k: int| i <= k < n - i ==> v@[k] == orig[k],
        decreases n / 2 - i,
    {
        let a = v[i];
        let b = v[n - 1 - i];
        v.set(i, b);
        v.set(n - 1 - i, a);
        i = i + 1;
    }
    assert(v@ =~= orig.reverse());
}

/// The sum of the `m` largest numbers below `size`:
/// `(size - 1) + (size - 2) + ... + (size - m)`.
pub open spec fn top_sum(size: nat, m: nat) -> int
    decreases m,
{
    if m == 0 {
        0
    } else {
        top_sum(size, (m - 1) as nat) + (size - m)
    }
}

proof fn lemma_top_sum_monotone(size: nat, a: nat, b: nat)
    requires
        a <= b <= size,
    ensures
        0 <= top_sum(size, a) <= top_sum(size, b),
    decreases b,
{
    if a < b {
        lemma_top_sum_monotone(size, a, (b - 1) as nat);
    } else if a > 0 {
        lemma_top_sum_monotone(size, (a - 1) as nat, (a - 1) as nat);
    }
}

/// How many of the largest numbers the memory workload adds up: 1000, or all
/// of them when there are fewer.
pub open spec fn summed_count(size: nat) -> nat {
    if size < 1000 {
        size
    } else {
        1000
    }
}

proof fn lemma_top_sum_closed(size: nat, m: nat)
    ensures
        2 * top_sum(size, m) == m * (2 * size - m - 1),
    decreases m,
{
    if m > 0 {
        lemma_top_sum_closed(size, (m - 1) as nat);
        let t = top_sum(size, (m - 1) as nat);
        let mi: int = m as int;
        let si: int = size as int;
        assert(2 * t == (mi - 1) * (2 * si - (mi - 1) - 1));
        assert(top_sum(size, m) == t + (si - mi));
        assert((mi - 1) * (2 * si - (mi - 1) - 1) + 2 * (si - mi) == mi * (2 * si - mi - 1))
            by (nonlinear_arith);
    } else {
        assert(m * (2 * size - m - 1) == 0) by (nonlinear_arith)
            requires
                m == 0,
        ;
    }
}

/// What the memory workload adds up, in closed form: below 1000 numbers, all
/// of them, `0 + 1 + ... + (size - 1)`; from 1000 on, only the 1000 largest,
/// `(size - 1) + ... + (size - 1000)`.
pub proof fn law_memory_workload_sum(size: nat)
    ensures
        size < 1000 ==> summed_count(size) == size,
        size < 1000 ==> 2 * top_sum(size, summed_count(size)) == size * (size - 1),
        size >= 1000 ==> summed_count(size) == 1000,
        size >= 1000 ==> top_sum(size, summed_count(size)) == 1000 * size - 500500,
{
    lemma_top_sum_closed(size, summed_count(size));
    if size < 1000 {
        assert(summed_count(size) == size);
        assert(size * (2 * size - size - 1) == size * (size - 1)) by (nonlinear_arith);
    } else {
        assert(summed_count(size) == 1000);
        assert(1000 * (2 * size - 1000 - 1) == 2 * (1000 * size - 500500)) by (nonlinear_arith);
    }
}

/// The memory workload: lays out the numbers below `size`, sorts them, reverses
/// them and adds up the first 1000, that is the largest ones. The sum is
/// `None` when it does not fit in 64 bits.
pub fn memory_workload(size: u64) -> (r: Option<u64>)
    requires
        size <= usize::MAX,
    ensures
        top_sum(size as nat, summed_count(size as nat)) <= u64::MAX ==> r == Some(
            top_sum(size as nat, summed_count(size as nat)) as u64,
        ),
        top_sum(size as nat, summed_count(size as nat)) > u64::MAX ==> r is None,
{
    let mut data: Vec<u64> = Vec::new();
    let mut x: u64 = 0;
    while x < size
        invariant
            x <= size,
            data@.len() == x,
            forall|k: int| 0 <= k < x ==> data@[k] == k,
        decreases size - x,
    {
        data.push(x);
        x = x + 1;
    }
    let ghost laid_out = data@;
    sort_ascending(&mut data);
    proof {
        let leq = |a: u64, b: u64| a <= b;
        assert(total_ordering(leq));
        assert(sorted_by(laid_out, leq));
        vstd::seq_lib::lemma_sorted_unique(laid_out, data@, leq);
    }
    reverse(&mut data);
    let count: usize = if data.len() < 1000 { data.len() } else { 1000 };
    let mut sum: u64 = 0;
    let mut k: usize = 0;
    while k < count
        invariant
            data@ == laid_out.reverse(),
            laid_out.len() == size,
            forall|j: int| 0 <= j < size ==> laid_out[j] == j,
            count == summed_count(size as nat),
            k <= count,
            sum == top_sum(size as nat, k as nat),
        decreases count - k,
    {
        assert(data@[k as int] == size - 1 - k);
        match sum.checked_add(data[k]) {
            Some(t) => {
                sum = t;
            },
            None => {
                proof {
                    lemma_top_sum_monotone(size as nat, (k + 1) as nat, count as nat);
                }
                return None;
            },
        }
        k = k + 1;
    }
    Some(sum)
}

} // verus!
