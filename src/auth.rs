use vstd::prelude::*;
use vstd::string::*;
use crate::post::same_text;

verus! {

/// Whether `pat` occurs in `s` starting at `i`.
pub open spec fn occurs_at(s: Seq<char>, pat: Seq<char>, i: int) -> bool {
    0 <= i && i + pat.len() <= s.len() && s.subrange(i, i + pat.len()) == pat
}

/// The first position at or after `i` where `pat` occurs in `s`.
pub open spec fn first_from(s: Seq<char>, pat: Seq<char>, i: int) -> Option<int>
    decreases s.len() + 1 - i,
{
    if i < 0 || i + pat.len() > s.len() {
        None
    } else if occurs_at(s, pat, i) {
        Some(i)
    } else {
        first_from(s, pat, i + 1)
    }
}

/// The authorization code in the query string of an OAuth redirect: the text
/// after the first `code=`, up to the next `&` or `code=`, or to the end.
pub open spec fn auth_code_of(q: Seq<char>) -> Option<Seq<char>> {
    match first_from(q, "code="@, 0) {
        None => None,
        Some(m) => {
            let start = m + "code="@.len();
            let stop_code = match first_from(q, "code="@, start) {
                Some(x) => x,
                None => q.len() as int,
            };
            let stop_amp = match first_from(q, "&"@, start) {
                Some(x) => x,
                None => q.len() as int,
            };
            let stop = if stop_code < stop_amp { stop_code } else { stop_amp };
            Some(q.subrange(start, stop))
        },
    }
}

proof fn lemma_first_from_bounds(s: Seq<char>, pat: Seq<char>, i: int)
    ensures
        first_from(s, pat, i) matches Some(x) ==> i <= x && x + pat.len() <= s.len(),
    decreases s.len() + 1 - i,
{
    if !(i < 0 || i + pat.len() > s.len()) && !occurs_at(s, pat, i) {
        lemma_first_from_bounds(s, pat, i + 1);
    }
}

/// The first position at or after `from` where `pat` occurs in `s`.
fn find_from(s: &str, pat: &str, from: usize) -> (r: Option<usize>)
    ensures
        r matches Some(i) ==> first_from(s@, pat@, from as int) == Some(i as int),
        r matches Some(i) ==> from <= i && i + pat@.len() <= s@.len(),
        r is None ==> first_from(s@, pat@, from as int) is None,
{
    let n = s.unicode_len();
    let m = pat.unicode_len();
    if m > n {
        return None;
    }
    let last = n - m;
    let mut i: usize = from;
    while i <= last
        invariant
            n == s@.len(),
            m == pat@.len(),
            last + m == n,
            from <= i,
            first_from(s@, pat@, from as int) == first_from(s@, pat@, i as int),
        decreases last + 1 - i,
    {
        let piece = s.substring_char(i, i + m);
        if same_text(piece, pat) {
            return Some(i);
        }
        if i == last {
            return None;
        }
        i = i + 1;
    }
    None
}

/// The authorization code carried by the query string of an OAuth redirect,
/// if it holds one; see `auth_code_of`.
pub fn auth_code_from_query(query: &str) -> (r: Option<String>)
    ensures
        match auth_code_of(query@) {
            Some(c) => r matches Some(t) && t@ == c,
            None => r is None,
        },
{
    let marker = "code=";
    proof {
        reveal_strlit("code=");
    }
    let m = match find_from(query, marker, 0) {
        Some(m) => m,
        None => {
            return None;
        },
    };
    let n = query.unicode_len();
    let start = m + 5;
    let stop_code = match find_from(query, marker, start) {
        Some(x) => x,
        None => n,
    };
    let stop_amp = match find_from(query, "&", start) {
        Some(x) => x,
        None => n,
    };
    let stop = if stop_code < stop_amp { stop_code } else { stop_amp };
    proof {
        lemma_first_from_bounds(query@, "code="@, start as int);
        lemma_first_from_bounds(query@, "&"@, start as int);
    }
    Some(String::from_str(query.substring_char(start, stop)))
}

/// Where the user is sent to grant the application access: the OAuth
/// authorization page of the network, asking for a code to be sent back to
/// `redirect_uri`.
pub fn authorization_url(client_id: &str, redirect_uri: &str) -> (r: String)
    ensures
        r@ == "https://www.linkedin.com/oauth/v2/authorization?response_type=code&client_id="@
            + client_id@ + "&redirect_uri="@ + redirect_uri@
            + "&scope=openid%20profile%20email%20w_member_social"@,
{
    let mut url = String::from_str(
        "https://www.linkedin.com/oauth/v2/authorization?response_type=code&client_id=",
    );
    url.append(client_id);
    url.append("&redirect_uri=");
    url.append(redirect_uri);
    url.append("&scope=openid%20profile%20email%20w_member_social");
    url
}

/// The value of the `Authorization` header that carries `token`.
pub fn bearer(token: &str) -> (r: String)
    ensures
        r@ == "Bearer "@ + token@,
{
    let mut value = String::from_str("Bearer ");
    value.append(token);
    value
}

/// The author of a post, as the network names the member `profile_id`.
pub fn author_urn(profile_id: &str) -> (r: String)
    ensures
        r@ == "urn:li:person:"@ + profile_id@,
{
    let mut urn = String::from_str("urn:li:person:");
    urn.append(profile_id);
    urn
}

/// Why the author identity could not be resolved.
#[derive(Clone, Copy, Debug, PartialEq, Eq, Structural)]
pub enum AuthorError {
    /// The profile lookup answered with a status other than success.
    Refused,
    /// The answer holds no `sub` field, or an empty one.
    MissingProfileId,
}

/// The profile identifier that a profile lookup answered with: `succeeded`
/// tells whether its status was a success, `sub` is its `sub` field.
pub fn profile_id_from_reply(succeeded: bool, sub: Option<String>) -> (r: Result<String, AuthorError>)
    ensures
        !succeeded ==> r == Err::<String, AuthorError>(AuthorError::Refused),
        succeeded ==> match sub {
            Some(s) => if s@.len() > 0 {
                r == Ok::<String, AuthorError>(s)
            } else {
                r == Err::<String, AuthorError>(AuthorError::MissingProfileId)
            },
            None => r == Err::<String, AuthorError>(AuthorError::MissingProfileId),
        },
{
    if !succeeded {
        return Err(AuthorError::Refused);
    }
    match sub {
        Some(s) => if s.as_str().unicode_len() > 0 {
            Ok(s)
        } else {
            Err(AuthorError::MissingProfileId)
        },
        None => Err(AuthorError::MissingProfileId),
    }
}

} // verus!
