use vstd::prelude::*;
use crate::text::{second_word, second_word_of};

verus! {

/// The decoded key/value pairs of the query of the URL written `text`, in
/// order, or `None` where `text` is no valid absolute URL.
pub uninterp spec fn url_query_pairs(text: Seq<char>) -> Option<Seq<(Seq<char>, Seq<char>)>>;

/// Relies on `url::Url::parse` to read `text` as an absolute URL, and on
/// `Url::query_pairs` for the percent-decoded pairs of its query, in order.
#[verifier::external_body]
fn parse_query_pairs(text: &str) -> (r: Option<Vec<(String, String)>>)
    ensures
        r is Some == url_query_pairs(text@) is Some,
        r matches Some(v) ==> pairs_view(v@) == url_query_pairs(text@)->0,
{
    url::Url::parse(text).ok().map(
        |u| u.query_pairs().map(|(k, v)| (k.into_owned(), v.into_owned())).collect(),
    )
}

/// The model of a list of key/value pairs.
pub open spec fn pairs_view(v: Seq<(String, String)>) -> Seq<(Seq<char>, Seq<char>)> {
    v.map_values(|p: (String, String)| (p.0@, p.1@))
}

/// The value of the first pair whose key is `key`.
pub open spec fn first_value(pairs: Seq<(Seq<char>, Seq<char>)>, key: Seq<char>) -> Option<
    Seq<char>,
>
    decreases pairs.len(),
{
    if pairs.len() == 0 {
        None
    } else if pairs[0].0 == key {
        Some(pairs[0].1)
    } else {
        first_value(pairs.drop_first(), key)
    }
}

/// The scheme and host against which a redirect's request target is read.
pub open spec fn redirect_base() -> Seq<char> {
    seq!['h', 't', 't', 'p', ':', '/', '/', 'l', 'o', 'c', 'a', 'l', 'h', 'o', 's', 't']
}

/// The name of the query parameter that carries the authorization code.
pub open spec fn code_key() -> Seq<char> {
    seq!['c', 'o', 'd', 'e']
}

/// The name of the query parameter that carries the anti-forgery state.
pub open spec fn state_key() -> Seq<char> {
    seq!['s', 't', 'a', 't', 'e']
}

/// Why a redirect request yields no authorization code.
#[derive(Debug, Clone, Copy, PartialEq, Eq, Structural)]
pub enum CallbackError {
    /// The request line has no request target.
    MissingTarget,
    /// The target does not make a valid URL.
    InvalidUrl,
    /// The query holds no `code` parameter.
    MissingCode,
    /// The `state` parameter is missing or differs from the one sent out.
    StateMismatch,
}

/// The authorization code that the request line `line` of a redirect carries,
/// where the redirect also returns the anti-forgery `state` that was sent out.
pub open spec fn callback_code(line: Seq<char>, state: Seq<char>) -> Result<Seq<char>, CallbackError> {
    match second_word(line) {
        None => Err(CallbackError::MissingTarget),
        Some(target) => match url_query_pairs(redirect_base() + target) {
            None => Err(CallbackError::InvalidUrl),
            Some(pairs) => match first_value(pairs, code_key()) {
                None => Err(CallbackError::MissingCode),
                Some(code) => if first_value(pairs, state_key()) == Some(state) {
                    Ok(code)
                } else {
                    Err(CallbackError::StateMismatch)
                },
            },
        },
    }
}

/// The value of the first pair in `pairs` whose key is `key`.
pub fn find_query_value(pairs: &Vec<(String, String)>, key: &str) -> (r: Option<String>)
    ensures
        r matches Some(v) ==> first_value(pairs_view(pairs@), key@) == Some(v@),
        r is None ==> first_value(pairs_view(pairs@), key@) is None,
{
    let wanted = key.to_owned();
    let mut i: usize = 0;
    assert(pairs_view(pairs@).skip(0) =~= pairs_view(pairs@));
    while i < pairs.len()
        invariant
            i <= pairs.len(),
            wanted@ == key@,
            first_value(pairs_view(pairs@), key@) == first_value(
                pairs_view(pairs@).skip(i as int),
                key@,
            ),
        decreases pairs.len() - i,
    {
        let ghost rest = pairs_view(pairs@).skip(i as int);
        assert(rest.drop_first() =~= pairs_view(pairs@).skip(i + 1));
        if pairs[i].0 == wanted {
            return Some(pairs[i].1.clone());
        }
        i = i + 1;
    }
    assert(pairs_view(pairs@).skip(i as int) =~= Seq::<(Seq<char>, Seq<char>)>::empty());
    None
}

/// The URL that a browser asked for with the request target `target`.
pub fn redirect_url(target: &str) -> (r: String)
    ensures
        r@ == redirect_base() + target@,
{
    let base = "http://localhost".to_owned();
    proof {
        reveal_strlit("http://localhost");
        assert(base@ =~= redirect_base());
    }
    base.concat(target)
}

/// The authorization code in the first line of the redirect request that the
/// local listener received, checked against the anti-forgery `state`.
pub fn code_from_request_line(line: &str, state: &str) -> (r: Result<String, CallbackError>)
    ensures
        r matches Ok(c) ==> callback_code(line@, state@) == Ok::<Seq<char>, CallbackError>(c@),
        r matches Err(e) ==> callback_code(line@, state@) == Err::<Seq<char>, CallbackError>(e),
{
    let target = match second_word_of(line) {
        Some(t) => t,
        None => {
            return Err(CallbackError::MissingTarget);
        },
    };
    let url = redirect_url(target.as_str());
    let pairs = match parse_query_pairs(url.as_str()) {
        Some(p) => p,
        None => {
            return Err(CallbackError::InvalidUrl);
        },
    };
    proof {
        reveal_strlit("code");
        reveal_strlit("state");
        assert("code"@ =~= code_key());
        assert("state"@ =~= state_key());
    }
    let code = match find_query_value(&pairs, "code") {
        Some(code) => code,
        None => {
            return Err(CallbackError::MissingCode);
        },
    };
    let expected = state.to_owned();
    match find_query_value(&pairs, "state") {
        Some(returned) => if returned == expected {
            Ok(code)
        } else {
            Err(CallbackError::StateMismatch)
        },
        None => Err(CallbackError::StateMismatch),
    }
}

} // verus!
