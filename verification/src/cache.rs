//! The remote-index cache discipline: a cached payload is valid only while
//! the wall clock is strictly before its stored expiry, and a fresh expiry
//! is computed from the response's `Expires` header, or from the
//! `Cache-Control` max-age directive, or from a fixed four-hour default.
//! Times are whole seconds since the Unix epoch.

use vstd::prelude::*;

verus! {

/// The seconds since the Unix epoch that `httpdate::parse_http_date` reads
/// from an HTTP-date string; `None` when the string is not a valid
/// HTTP-date. The result depends on the string alone.
pub uninterp spec fn http_date_secs(s: Seq<char>) -> Option<u64>;

/// Relies on `httpdate::parse_http_date`: the time read from an HTTP-date
/// string depends on the string alone, and parsed dates lie at or after the
/// epoch.
#[verifier::external_body]
pub(crate) fn parse_http_date_secs(s: &str) -> (r: Option<u64>)
    ensures
        r == http_date_secs(s@),
{
    match httpdate::parse_http_date(s) {
        Ok(t) => match t.duration_since(std::time::UNIX_EPOCH) {
            Ok(d) => Some(d.as_secs()),
            Err(_) => None,
        },
        Err(_) => None,
    }
}

/// The default freshness lifetime when no header supplies one: four hours.
pub const DEFAULT_MAX_AGE: u32 = 14400;

pub open spec fn is_ws(c: char) -> bool {
    c == ' ' || c == '\t'
}

pub open spec fn is_digit(c: char) -> bool {
    48 <= c as int <= 57
}

pub open spec fn all_digits(s: Seq<char>) -> bool {
    forall|i: int| 0 <= i < s.len() ==> is_digit(s[i])
}

/// The number denoted by a string of decimal digits.
pub open spec fn digits_val(s: Seq<char>) -> int
    decreases s.len(),
{
    if s.len() == 0 {
        0
    } else {
        digits_val(s.drop_last()) * 10 + (s.last() as int - 48)
    }
}

pub open spec fn trim_front(s: Seq<char>) -> Seq<char>
    decreases s.len(),
{
    if s.len() > 0 && is_ws(s[0]) {
        trim_front(s.drop_first())
    } else {
        s
    }
}

pub open spec fn trim_back(s: Seq<char>) -> Seq<char>
    decreases s.len(),
{
    if s.len() > 0 && is_ws(s.last()) {
        trim_back(s.drop_last())
    } else {
        s
    }
}

/// The string with surrounding spaces and tabs removed.
pub open spec fn spec_trim(s: Seq<char>) -> Seq<char> {
    trim_back(trim_front(s))
}

/// The value of one `Cache-Control` directive when it is a well-formed
/// max-age: after trimming, the text `max-age=` followed by one or more
/// decimal digits whose value fits the directive's 32-bit range.
pub open spec fn max_age_directive(d: Seq<char>) -> Option<u32> {
    let t = spec_trim(d);
    if t.len() >= 9 && t.subrange(0, 8) == "max-age="@ && all_digits(
        t.subrange(8, t.len() as int),
    ) && digits_val(t.subrange(8, t.len() as int)) <= 0xffff_ffff {
        Some(digits_val(t.subrange(8, t.len() as int)) as u32)
    } else {
        None
    }
}

/// The position of the first comma, or the length when there is none.
pub open spec fn comma_index(s: Seq<char>) -> nat
    decreases s.len(),
{
    if s.len() == 0 {
        0
    } else if s[0] == ',' {
        0
    } else {
        1 + comma_index(s.drop_first())
    }
}

pub proof fn lemma_comma_index(s: Seq<char>)
    ensures
        comma_index(s) <= s.len(),
        comma_index(s) < s.len() ==> s[comma_index(s) as int] == ',',
        forall|j: int| 0 <= j < comma_index(s) ==> s[j] != ',',
    decreases s.len(),
{
    if s.len() > 0 && s[0] != ',' {
        let t = s.drop_first();
        lemma_comma_index(t);
        assert forall|j: int| 0 <= j < comma_index(s) implies s[j] != ',' by {
            if j >= 1 {
                assert(t[j - 1] == s[j]);
            }
        }
    }
}

/// The value of the first well-formed max-age directive in a comma-separated
/// `Cache-Control` value, scanning left to right.
pub open spec fn spec_max_age_value(s: Seq<char>) -> Option<u32>
    decreases s.len(),
{
    let k = comma_index(s);
    let d = s.subrange(0, k as int);
    if max_age_directive(d) is Some {
        max_age_directive(d)
    } else if k >= s.len() {
        None
    } else {
        spec_max_age_value(s.subrange(k as int + 1, s.len() as int))
    }
}

/// The freshness lifetime a response's `Cache-Control` header grants: its
/// max-age directive, or the four-hour default when the header is absent or
/// carries no well-formed max-age.
pub open spec fn spec_max_age(cc: Option<Seq<char>>) -> u32 {
    match cc {
        Some(s) => match spec_max_age_value(s) {
            Some(n) => n,
            None => DEFAULT_MAX_AGE,
        },
        None => DEFAULT_MAX_AGE,
    }
}

proof fn lemma_all_digits_drop_last(s: Seq<char>)
    requires
        all_digits(s),
        s.len() > 0,
    ensures
        all_digits(s.drop_last()),
{
    assert forall|i: int| 0 <= i < s.drop_last().len() implies is_digit(s.drop_last()[i]) by {
        assert(s.drop_last()[i] == s[i]);
    }
}

proof fn lemma_digits_val_nonneg(s: Seq<char>)
    requires
        all_digits(s),
    ensures
        digits_val(s) >= 0,
    decreases s.len(),
{
    if s.len() > 0 {
        lemma_all_digits_drop_last(s);
        lemma_digits_val_nonneg(s.drop_last());
    }
}

/// A digit string denotes at least as much as any of its prefixes.
proof fn lemma_digits_val_prefix(s: Seq<char>, i: int)
    requires
        all_digits(s),
        0 <= i <= s.len(),
    ensures
        digits_val(s.subrange(0, i)) <= digits_val(s),
    decreases s.len(),
{
    if i == s.len() {
        assert(s.subrange(0, i) =~= s);
    } else {
        let t = s.drop_last();
        lemma_all_digits_drop_last(s);
        assert(s.subrange(0, i) =~= t.subrange(0, i));
        lemma_digits_val_prefix(t, i);
        lemma_digits_val_nonneg(t);
    }
}

fn ws_at(cc: &str, i: usize) -> (r: bool)
    requires
        i < cc@.len(),
    ensures
        r == is_ws(cc@[i as int]),
{
    let c = cc.get_char(i);
    c == ' ' || c == '\t'
}

/// Reads the max-age value out of the directive `cc[start..end]`, if it is
/// a well-formed max-age directive.
#[verifier::loop_isolation(false)]
fn directive_max_age(cc: &str, start: usize, end: usize) -> (r: Option<u32>)
    requires
        start <= end <= cc@.len(),
    ensures
        r == max_age_directive(cc@.subrange(start as int, end as int)),
{
    let ghost d = cc@.subrange(start as int, end as int);
    let mut a = start;
    while a < end && ws_at(cc, a)
        invariant
            start <= a <= end <= cc@.len(),
            trim_front(d) == trim_front(cc@.subrange(a as int, end as int)),
        decreases end - a,
    {
        proof {
            assert(cc@.subrange(a as int, end as int).drop_first() =~= cc@.subrange(
                a as int + 1,
                end as int,
            ));
        }
        a += 1;
    }
    proof {
        assert(trim_front(d) =~= cc@.subrange(a as int, end as int));
    }
    let mut b = end;
    while b > a && ws_at(cc, b - 1)
        invariant
            a <= b <= end <= cc@.len(),
            trim_front(d) == trim_front(cc@.subrange(a as int, end as int)),
            trim_back(cc@.subrange(a as int, end as int)) == trim_back(
                cc@.subrange(a as int, b as int),
            ),
        decreases b,
    {
        proof {
            assert(cc@.subrange(a as int, b as int).drop_last() =~= cc@.subrange(
                a as int,
                b as int - 1,
            ));
        }
        b -= 1;
    }
    let ghost t = cc@.subrange(a as int, b as int);
    proof {
        assert(spec_trim(d) =~= t);
    }
    if b - a < 9 {
        return None;
    }
    let prefix = cc.substring_char(a, a + 8);
    proof {
        assert(t.subrange(0, 8) =~= cc@.subrange(a as int, a as int + 8));
    }
    if !crate::text::str_eq(prefix, "max-age=") {
        return None;
    }
    let ghost dig = t.subrange(8, t.len() as int);
    let mut k = a + 8;
    let mut val: u64 = 0;
    while k < b
        invariant
            a + 8 <= k <= b <= cc@.len(),
            t == cc@.subrange(a as int, b as int),
            dig == t.subrange(8, t.len() as int),
            all_digits(dig.subrange(0, k - a - 8)),
            val == digits_val(dig.subrange(0, k - a - 8)),
            0 <= val <= 0xffff_ffff,
        decreases b - k,
    {
        let c = cc.get_char(k);
        let code = c as u32;
        proof {
            assert(dig[k - a - 8] == cc@[k as int]);
        }
        if code < 48 || code > 57 {
            proof {
                assert(0 <= k - a - 8 < dig.len());
                assert(!is_digit(dig[k - a - 8]));
                assert(!all_digits(dig));
            }
            return None;
        }
        let digit = (code - 48) as u64;
        let next = val * 10 + digit;
        proof {
            let g1 = dig.subrange(0, k - a - 8 + 1);
            assert(g1.drop_last() =~= dig.subrange(0, k - a - 8));
            assert(g1.last() == dig[k - a - 8]);
            assert forall|i: int| 0 <= i < g1.len() implies is_digit(g1[i]) by {
                if i < g1.len() - 1 {
                    assert(g1[i] == dig.subrange(0, k - a - 8)[i]);
                }
            }
            assert(digits_val(g1) == next);
        }
        if next > 0xffff_ffff {
            proof {
                if all_digits(dig) {
                    lemma_digits_val_prefix(dig, k - a - 8 + 1);
                }
            }
            return None;
        }
        val = next;
        k += 1;
    }
    proof {
        assert(dig.subrange(0, b - a - 8) =~= dig);
    }
    Some(val as u32)
}

/// Reads the first well-formed max-age directive out of a `Cache-Control`
/// header value, or reports the four-hour default when there is none or the
/// header is absent.
#[verifier::loop_isolation(false)]
pub fn max_age(cache_control: Option<&String>) -> (r: u32)
    ensures
        r == spec_max_age(
            match cache_control {
                Some(s) => Some(s@),
                None => None,
            },
        ),
{
    let cc = match cache_control {
        Some(s) => s.as_str(),
        None => {
            return DEFAULT_MAX_AGE;
        },
    };
    let n = cc.unicode_len();
    proof {
        assert(cc@.subrange(0, n as int) =~= cc@);
    }
    let mut start: usize = 0;
    loop
        invariant
            0 <= start <= n,
            n == cc@.len(),
            spec_max_age_value(cc@) == spec_max_age_value(
                cc@.subrange(start as int, n as int),
            ),
        decreases n - start,
    {
        let ghost suffix = cc@.subrange(start as int, n as int);
        let mut k = start;
        while k < n && cc.get_char(k) != ','
            invariant
                start <= k <= n,
                n == cc@.len(),
                forall|j: int| start <= j < k ==> cc@[j] != ',',
            decreases n - k,
        {
            k += 1;
        }
        proof {
            lemma_comma_index(suffix);
            assert forall|j: int| 0 <= j < k - start implies suffix[j] != ',' by {
                assert(suffix[j] == cc@[start + j]);
            }
            if k < n {
                assert(suffix[k - start] == cc@[k as int]);
            }
            assert(comma_index(suffix) == k - start);
            assert(suffix.subrange(0, k - start) =~= cc@.subrange(start as int, k as int));
        }
        let r = directive_max_age(cc, start, k);
        if let Some(v) = r {
            return v;
        }
        if k == n {
            return DEFAULT_MAX_AGE;
        }
        proof {
            assert(suffix.subrange(k - start + 1, suffix.len() as int) =~= cc@.subrange(
                k as int + 1,
                n as int,
            ));
        }
        start = k + 1;
    }
}

/// The expiry of a fresh cache record: the `Expires` header verbatim when it
/// parses, else the current time plus the granted freshness lifetime,
/// saturating at the largest representable time.
pub open spec fn spec_compute_expiry(
    now: u64,
    expires: Option<Seq<char>>,
    cc: Option<Seq<char>>,
) -> u64 {
    let fallback = if now + spec_max_age(cc) > u64::MAX {
        u64::MAX
    } else {
        (now + spec_max_age(cc)) as u64
    };
    match expires {
        Some(e) => match http_date_secs(e) {
            Some(t) => t,
            None => fallback,
        },
        None => fallback,
    }
}

/// Computes the expiry to persist beside a fresh cache payload.
pub fn compute_expiry(now: u64, expires: Option<&String>, cache_control: Option<&String>) -> (r:
    u64)
    ensures
        r == spec_compute_expiry(
            now,
            match expires {
                Some(e) => Some(e@),
                None => None,
            },
            match cache_control {
                Some(s) => Some(s@),
                None => None,
            },
        ),
{
    if let Some(e) = expires {
        if let Some(t) = parse_http_date_secs(e.as_str()) {
            return t;
        }
    }
    let age = max_age(cache_control) as u64;
    if now > u64::MAX - age {
        u64::MAX
    } else {
        now + age
    }
}

/// What a cache read yields: the payload exactly when the stored expiry is
/// present, parses as an HTTP-date, and lies strictly after the current
/// time, and the payload is present; anything less is a miss.
pub open spec fn spec_cache_lookup(
    now: u64,
    expiry: Option<Seq<char>>,
    payload: Option<Seq<char>>,
) -> Option<Seq<char>> {
    match expiry {
        Some(e) => match http_date_secs(e) {
            Some(t) => if now < t {
                payload
            } else {
                None
            },
            None => None,
        },
        None => None,
    }
}

/// Reads the cached payload if the record is still valid: the expiry must
/// be strictly later than the current time. A missing or malformed expiry,
/// an expired record, or a missing payload is a cache miss, never an error.
pub fn read_cached_opt(now: u64, expiry: Option<&String>, payload: Option<&String>) -> (r: Option<
    String,
>)
    ensures
        match r {
            Some(p) => spec_cache_lookup(
                now,
                match expiry {
                    Some(e) => Some(e@),
                    None => None,
                },
                match payload {
                    Some(s) => Some(s@),
                    None => None,
                },
            ) == Some(p@),
            None => spec_cache_lookup(
                now,
                match expiry {
                    Some(e) => Some(e@),
                    None => None,
                },
                match payload {
                    Some(s) => Some(s@),
                    None => None,
                },
            ) is None,
        },
{
    let e = match expiry {
        Some(e) => e,
        None => {
            return None;
        },
    };
    let t = match parse_http_date_secs(e.as_str()) {
        Some(t) => t,
        None => {
            return None;
        },
    };
    if now < t {
        match payload {
            Some(p) => Some(p.clone()),
            None => None,
        }
    } else {
        None
    }
}

/// Where a resolution gets its index: from the still-valid cached payload,
/// or by fetching the registry URL.
#[derive(Debug, PartialEq, Eq)]
pub enum IndexPlan {
    /// The cached payload is valid: use it, with no network request.
    UseCached(String),
    /// The cache misses: fetch the index from this URL.
    FetchRemote(String),
}

/// Decides where the version index comes from: a valid cache record is used
/// as it stands and no network request is issued; otherwise the registry
/// URL must be fetched.
pub fn resolve_index_source(
    now: u64,
    expiry: Option<&String>,
    payload: Option<&String>,
    url: &String,
) -> (r: IndexPlan)
    ensures
        match spec_cache_lookup(
            now,
            match expiry {
                Some(e) => Some(e@),
                None => None,
            },
            match payload {
                Some(s) => Some(s@),
                None => None,
            },
        ) {
            Some(p) => r matches IndexPlan::UseCached(c) && c@ == p,
            None => r matches IndexPlan::FetchRemote(u) && u@ == url@,
        },
{
    match read_cached_opt(now, expiry, payload) {
        Some(p) => IndexPlan::UseCached(p),
        None => IndexPlan::FetchRemote(url.clone()),
    }
}

/// Cache validity is a strict inequality: a record whose expiry equals the
/// current instant is expired and forces a live fetch.
pub proof fn lemma_cache_expiry_strict(now: u64, e: Seq<char>, payload: Option<Seq<char>>)
    requires
        http_date_secs(e) == Some(now),
    ensures
        spec_cache_lookup(now, Some(e), payload) is None,
{
}

/// A cached payload whose expiry lies strictly in the future is served from
/// the cache: the lookup hits and no fetch is planned.
pub proof fn lemma_cache_hit_no_fetch(now: u64, e: Seq<char>, t: u64, payload: Seq<char>)
    requires
        http_date_secs(e) == Some(t),
        now < t,
    ensures
        spec_cache_lookup(now, Some(e), Some(payload)) == Some(payload),
{
}

} // verus!
