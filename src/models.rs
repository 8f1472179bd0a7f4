//! Request and response records of the service, and the ticker search.
use vstd::prelude::*;
use std::sync::Arc;

verus! {

/// Query of a filing request: the period category.
#[derive(Debug)]
pub struct SECQueryParams {
    pub period: String,
}

/// Body of an error response.
#[derive(Debug)]
pub struct ErrorResponse {
    pub error: String,
}

/// Shared configuration of the service.
pub struct AppState {
    pub public_key_pem: Arc<String>,
    pub jwt_signer_url: Arc<String>,
}

/// Body of a login request.
#[derive(Debug)]
pub struct LoginRequest {
    pub email: String,
    pub password: String,
}

/// Body of a login response.
#[derive(Debug)]
pub struct LoginResponse {
    pub message: String,
}

/// One entry of the company ticker index.
#[derive(Debug)]
pub struct Company {
    pub cik_str: u64,
    pub ticker: String,
    pub title: String,
}

/// Query of a ticker search.
#[derive(Debug)]
pub struct SearchParams {
    pub ticker: String,
}

/// ASCII upper-case letters as lower case; every other character as it is.
pub open spec fn ascii_lower(c: char) -> char {
    if 'A' <= c && c <= 'Z' {
        ((c as u8) + 32) as u8 as char
    } else {
        c
    }
}

/// Equal up to ASCII case, as `str::eq_ignore_ascii_case` compares.
pub open spec fn same_ignoring_ascii_case(a: Seq<char>, b: Seq<char>) -> bool {
    a.len() == b.len() && forall|i: int| 0 <= i < a.len() ==> ascii_lower(#[trigger] a[i]) == ascii_lower(b[i])
}

fn lower(c: char) -> (r: char)
    ensures
        r == ascii_lower(c),
{
    if 'A' <= c && c <= 'Z' {
        ((c as u8) + 32) as char
    } else {
        c
    }
}

/// Whether two texts are equal up to ASCII case.
pub fn eq_ignore_ascii_case(a: &str, b: &str) -> (r: bool)
    ensures
        r == same_ignoring_ascii_case(a@, b@),
{
    let x = crate::text::chars_of(a);
    let y = crate::text::chars_of(b);
    if x.len() != y.len() {
        return false;
    }
    let mut i: usize = 0;
    while i < x.len()
        invariant
            x@ == a@,
            y@ == b@,
            x.len() == y.len(),
            i <= x.len(),
            forall|j: int| 0 <= j < i ==> ascii_lower(#[trigger] x@[j]) == ascii_lower(y@[j]),
        decreases x.len() - i,
    {
        if lower(x[i]) != lower(y[i]) {
            return false;
        }
        i = i + 1;
    }
    true
}

/// The companies whose ticker equals `ticker` up to ASCII case, in order.
pub open spec fn with_ticker(companies: Seq<Company>, ticker: Seq<char>) -> Seq<Company> {
    companies.filter(has_ticker(ticker))
}

/// The company's ticker equals `ticker` up to ASCII case.
pub open spec fn has_ticker(ticker: Seq<char>) -> spec_fn(Company) -> bool {
    |c: Company| same_ignoring_ascii_case(c.ticker@, ticker)
}

/// Keeps the companies whose ticker equals `ticker` up to ASCII case.
pub fn companies_with_ticker(companies: Vec<Company>, ticker: &str) -> (r: Vec<Company>)
    ensures
        r@ == with_ticker(companies@, ticker@),
{
    let ghost all = companies@;
    let ghost p = has_ticker(ticker@);
    let n = companies.len();
    let mut rest = companies;
    let mut out: Vec<Company> = Vec::new();
    let mut i: usize = 0;
    assert(all.take(0) =~= Seq::<Company>::empty());
    assert(all.skip(0) =~= all);
    while rest.len() > 0
        invariant
            all.len() == n,
            p == has_ticker(ticker@),
            i + rest.len() == n,
            rest@ == all.skip(i as int),
            out@ == all.take(i as int).filter(p),
        decreases rest.len(),
    {
        let c = rest.remove(0);
        assert(c == all[i as int]);
        assert(all.take(i + 1).drop_last() =~= all.take(i as int));
        assert(all.take(i + 1).last() == c);
        assert(rest@ =~= all.skip(i + 1));
        let ghost kept = all.take(i as int).filter(p);
        assert(all.take(i + 1) =~= all.take(i as int).push(c));
        proof {
            all.take(i as int).lemma_filter_push(c, p);
        }
        assert(all.take(i + 1).filter(p) == if p(c) {
            kept.push(c)
        } else {
            kept
        });
        assert(p(c) == same_ignoring_ascii_case(c.ticker@, ticker@));
        if eq_ignore_ascii_case(c.ticker.as_str(), ticker) {
            out.push(c);
        }
        i = i + 1;
    }
    assert(all.take(i as int) =~= all);
    out
}

} // verus!
