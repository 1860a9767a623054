use vstd::prelude::*;
use vstd::string::StringExecFns;
use crate::errors::ForestError;
use crate::text::strip_prefix;
use crate::utils::{digits_value, is_unsigned_text, parse_unsigned, unsigned_digits};

verus! {

/// `s` with its leading slashes taken off.
pub open spec fn without_leading_slashes(s: Seq<char>) -> Seq<char>
    decreases s.len(),
{
    if s.len() > 0 && s[0] == '/' {
        without_leading_slashes(s.drop_first())
    } else {
        s
    }
}

/// The address of `path` under `base_url`: the two joined by one slash.
pub fn request_url(base_url: &str, path: &str) -> (r: String)
    ensures
        r@ == base_url@ + seq!['/'] + without_leading_slashes(path@),
{
    proof {
        reveal_strlit("/");
        assert("/"@ =~= seq!['/']);
    }
    let mut rest = path;
    loop
        invariant
            "/"@ == seq!['/'],
            without_leading_slashes(rest@) == without_leading_slashes(path@),
        ensures
            rest@ == without_leading_slashes(path@),
        decreases rest@.len(),
    {
        match strip_prefix(rest, "/") {
            Some(tail) => {
                assert(rest@.subrange(0, 1)[0] == rest@[0]);
                assert(tail@ =~= rest@.drop_first());
                rest = tail;
            },
            None => {
                assert(rest@.len() > 0 ==> rest@[0] != '/') by {
                    if rest@.len() > 0 && rest@[0] == '/' {
                        assert(rest@.subrange(0, 1) =~= seq!['/']);
                    }
                }
                break ;
            },
        }
    }
    let mut url = String::from_str(base_url);
    url.append("/");
    url.append(rest);
    url
}

/// The value of an `Authorization` header that presents `api_key`.
pub fn bearer_value(api_key: &str) -> (r: String)
    ensures
        r@ == "Bearer "@ + api_key@,
{
    let mut value = String::from_str("Bearer ");
    value.append(api_key);
    value
}

/// The remaining-requests header reads as zero: it does when it is not a
/// 32-bit unsigned decimal.
pub open spec fn reads_as_zero(remaining: Option<Seq<char>>) -> bool {
    match remaining {
        None => true,
        Some(t) => !(is_unsigned_text(t) && digits_value(unsigned_digits(t)) <= u32::MAX)
            || digits_value(unsigned_digits(t)) == 0,
    }
}

/// Whether an answer says the rate limit is spent: it carries a limit header
/// and a remaining-requests header that reads as zero. `remaining` is `None`
/// when that header is absent, `Some(None)` when it is present but not text.
pub fn rate_limited(limit_present: bool, remaining: Option<Option<&str>>) -> (r: bool)
    ensures
        r == (limit_present && remaining is Some && reads_as_zero(
            match remaining->0 {
                None => None,
                Some(t) => Some(t@),
            },
        )),
{
    if !limit_present {
        return false;
    }
    match remaining {
        None => false,
        Some(None) => true,
        Some(Some(text)) => match parse_unsigned(text) {
            Some(v) => v > 4294967295 || v == 0,
            None => true,
        },
    }
}

/// Whether an HTTP status reports success.
pub open spec fn is_success(status: u16) -> bool {
    200 <= status <= 299
}

/// The error an unsuccessful answer stands for, given the message it
/// carried; none for a successful one.
pub fn status_error(status: u16, message: Option<&str>) -> (r: Option<ForestError>)
    ensures
        r is None <==> is_success(status),
        r is Some ==> match r->0 {
            ForestError::AuthenticationError(_) => status == 401 || status == 403,
            ForestError::NotFoundError(_) => status == 404,
            ForestError::RateLimitError(_) => status == 429,
            ForestError::ServerError(_) => !is_success(status) && status != 401 && status != 403
                && status != 404 && status != 429,
            _ => false,
        },
        r is Some && message is Some ==> r->0.reason() == message->0@,
        r is Some && message is None ==> r->0.reason() == "Unknown error"@,
{
    if 200 <= status && status <= 299 {
        return None;
    }
    let text = match message {
        Some(m) => m.to_owned(),
        None => "Unknown error".to_owned(),
    };
    Some(
        if status == 401 || status == 403 {
            ForestError::AuthenticationError(text)
        } else if status == 404 {
            ForestError::NotFoundError(text)
        } else if status == 429 {
            ForestError::RateLimitError(text)
        } else {
            ForestError::ServerError(text)
        },
    )
}

/// A failed request, as a network error: a timeout, a failed connection, or
/// else the transport's own description.
pub fn network_error(timed_out: bool, connect_failed: bool, description: String) -> (r: ForestError)
    ensures
        r is NetworkError,
        timed_out ==> r.reason() == "Request timeout"@,
        !timed_out && connect_failed ==> r.reason() == "Connection error"@,
        !timed_out && !connect_failed ==> r.reason() == description@,
{
    if timed_out {
        ForestError::NetworkError("Request timeout".to_owned())
    } else if connect_failed {
        ForestError::NetworkError("Connection error".to_owned())
    } else {
        ForestError::NetworkError(description)
    }
}

/// `key=value` pairs joined by `&`.
pub open spec fn query_string(params: Seq<(String, String)>) -> Seq<char>
    decreases params.len(),
{
    if params.len() == 0 {
        Seq::empty()
    } else {
        let last = params.last();
        let pair = last.0@ + seq!['='] + last.1@;
        if params.len() == 1 {
            pair
        } else {
            query_string(params.drop_last()) + seq!['&'] + pair
        }
    }
}

/// The path that lists transactions, with the given query parameters.
pub fn transactions_path(params: Option<&Vec<(String, String)>>) -> (r: String)
    ensures
        params is None ==> r@ == "/v1/transactions"@,
        params is Some ==> r@ == "/v1/transactions?"@ + query_string(params->0@),
{
    match params {
        None => "/v1/transactions".to_owned(),
        Some(ps) => {
            proof {
                reveal_strlit("=");
                reveal_strlit("&");
            }
            let mut query = String::new();
            let mut i: usize = 0;
            while i < ps.len()
                invariant
                    i <= ps@.len(),
                    "="@ == seq!['='],
                    "&"@ == seq!['&'],
                    query@ == query_string(ps@.subrange(0, i as int)),
                decreases ps@.len() - i,
            {
                let ghost before = query@;
                if i > 0 {
                    query.append("&");
                }
                query.append(ps[i].0.as_str());
                query.append("=");
                query.append(ps[i].1.as_str());
                proof {
                    let sub = ps@.subrange(0, i + 1);
                    assert(sub.drop_last() =~= ps@.subrange(0, i as int));
                    assert(sub.last() == ps@[i as int]);
                    if i == 0 {
                        assert(before =~= Seq::<char>::empty());
                    }
                    assert(query@ =~= query_string(sub));
                }
                i = i + 1;
            }
            assert(ps@.subrange(0, ps@.len() as int) =~= ps@);
            let mut path = String::from_str("/v1/transactions?");
            path.append(query.as_str());
            path
        },
    }
}

} // verus!
