//! The request parameters of the cloud configuration store.

use vstd::prelude::*;
use vstd::string::*;

verus! {

/// Why a cloud configuration request was not made or gave nothing.
#[derive(Clone, Copy, Debug, PartialEq, Eq, Structural)]
pub enum CloudError {
    /// The store URL is empty once trailing slashes are removed.
    EmptyUrl,
    /// The user name is empty.
    EmptyUsername,
    /// The store answered that its configuration endpoint does not exist.
    EndpointNotFound,
    /// The store holds no configuration for the user.
    NoConfigFound,
}

/// `s` without its trailing slashes.
pub open spec fn trim_trailing_slashes(s: Seq<char>) -> Seq<char>
    decreases s.len(),
{
    if s.len() > 0 && s.last() == '/' {
        trim_trailing_slashes(s.drop_last())
    } else {
        s
    }
}

/// Trailing slashes of the store URL do not change the endpoint.
pub proof fn law_endpoint_ignores_trailing_slash(url: Seq<char>)
    ensures
        trim_trailing_slashes(url.push('/')) == trim_trailing_slashes(url),
{
    assert(url.push('/').drop_last() =~= url);
}

/// The base of the endpoint never ends with a slash, so the path is joined
/// with exactly one.
pub proof fn law_trimmed_base_has_no_trailing_slash(url: Seq<char>)
    ensures
        trim_trailing_slashes(url).len() > 0 ==> trim_trailing_slashes(url).last() != '/',
    decreases url.len(),
{
    if url.len() > 0 && url.last() == '/' {
        law_trimmed_base_has_no_trailing_slash(url.drop_last());
    }
}

/// The configuration endpoint under the store URL.
pub fn config_endpoint(supabase_url: &str) -> (r: Result<String, CloudError>)
    ensures
        ({
            let base = trim_trailing_slashes(supabase_url@);
            if base.len() == 0 {
                r == Err::<String, CloudError>(CloudError::EmptyUrl)
            } else {
                r matches Ok(s) && s@ == base + "/rest/v1/configs"@
            }
        }),
{
    let mut k = supabase_url.unicode_len();
    assert(supabase_url@.take(k as int) =~= supabase_url@);
    while k > 0 && supabase_url.get_char(k - 1) == '/'
        invariant
            k <= supabase_url@.len(),
            trim_trailing_slashes(supabase_url@) == trim_trailing_slashes(
                supabase_url@.take(k as int),
            ),
        decreases k,
    {
        proof {
            assert(supabase_url@.take(k as int).drop_last() =~= supabase_url@.take(k - 1));
        }
        k = k - 1;
    }
    proof {
        if k > 0 {
            assert(supabase_url@.take(k as int).last() == supabase_url@[k - 1]);
        }
    }
    if k == 0 {
        proof {
            assert(supabase_url@.take(0) =~= Seq::<char>::empty());
        }
        return Err(CloudError::EmptyUrl);
    }
    let base = supabase_url.substring_char(0, k);
    let mut r = String::from_str(base);
    r.append("/rest/v1/configs");
    proof {
        assert(supabase_url@.subrange(0, k as int) =~= supabase_url@.take(k as int));
    }
    Ok(r)
}

/// Requests need a user name.
pub fn check_username(username: &str) -> (r: Result<(), CloudError>)
    ensures
        r == (if username@.len() == 0 {
            Err::<(), CloudError>(CloudError::EmptyUsername)
        } else {
            Ok(())
        }),
{
    if username.is_empty() {
        Err(CloudError::EmptyUsername)
    } else {
        Ok(())
    }
}

/// The query value that selects the row whose username exactly matches
/// `username`: the PostgREST operator `eq.` followed by the name.
pub fn username_filter(username: &str) -> (r: String)
    ensures
        r@ == "eq."@ + username@,
{
    let mut r = String::from_str("eq.");
    r.append(username);
    r
}

/// The `Prefer` header value of a save: a row whose username already exists
/// is updated in place of a second row being inserted, and nothing is sent
/// back.
pub fn upsert_preference() -> (r: String)
    ensures
        r@ == "resolution=merge-duplicates,return=minimal"@,
{
    String::from_str("resolution=merge-duplicates,return=minimal")
}

/// The authorization header value for an API key.
pub fn bearer_token(anon_key: &str) -> (r: String)
    ensures
        r@ == "Bearer "@ + anon_key@,
{
    let mut r = String::from_str("Bearer ");
    r.append(anon_key);
    r
}

/// A configuration load fails when the store reports its endpoint missing.
pub fn check_load_status(status: u16) -> (r: Result<(), CloudError>)
    ensures
        r == (if status == 404 {
            Err::<(), CloudError>(CloudError::EndpointNotFound)
        } else {
            Ok(())
        }),
{
    if status == 404 {
        Err(CloudError::EndpointNotFound)
    } else {
        Ok(())
    }
}

/// The configuration of the first returned row.
pub fn first_config<T>(rows: Vec<T>) -> (r: Result<T, CloudError>)
    ensures
        rows@.len() == 0 ==> r == Err::<T, CloudError>(CloudError::NoConfigFound),
        rows@.len() > 0 ==> r == Ok::<T, CloudError>(rows@[0]),
{
    let mut rows = rows;
    if rows.len() == 0 {
        Err(CloudError::NoConfigFound)
    } else {
        Ok(rows.remove(0))
    }
}

} // verus!
