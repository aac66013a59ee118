use vstd::prelude::*;

verus! {

/// The standard, padded base64 encoding of the UTF-8 bytes of `s`.
///
/// The encoding is a pure function of the characters of `s`; its definition
/// is left to the outside encoder that `encode_base64` calls.
pub uninterp spec fn base64_of(s: Seq<char>) -> Seq<char>;

/// Relies on base64::encode (standard alphabet, padded): the result is the
/// base64 encoding of the argument's UTF-8 bytes, determined by the
/// argument's characters alone.  The length bound keeps the encoder's
/// output-size computation within `usize`, the one input on which the
/// encoder panics.
#[verifier::external_body]
fn encode_base64(s: &str) -> (r: String)
    requires
        s@.len() <= usize::MAX as int / 8,
    ensures
        r@ == base64_of(s@),
{
    base64::encode(s.as_bytes())
}

/// The exact `Authorization` header value that authenticates the credential
/// pair `(user, pass)` under the basic scheme.
pub open spec fn expected_basic_header(user: Seq<char>, pass: Seq<char>) -> Seq<char> {
    "Basic "@ + base64_of(user + ":"@ + pass)
}

/// Builds the one `Authorization` header value the auth guard accepts: the basic
/// scheme's challenge response for `(user, pass)`.
pub fn build_expected_authorization(user: &String, pass: &String) -> (r: String)
    requires
        user@.len() + pass@.len() + 1 <= usize::MAX as int / 8,
    ensures
        r@ == expected_basic_header(user@, pass@),
{
    let credential = user.clone().concat(":").concat(pass.as_str());
    proof {
        reveal_strlit(":");
        assert(credential@ =~= user@ + ":"@ + pass@);
    }
    let encoded = encode_base64(credential.as_str());
    let header = String::from_str("Basic ").concat(encoded.as_str());
    proof {
        assert(header@ =~= expected_basic_header(user@, pass@));
    }
    header
}

/// The value of the first header named `name`, or `None` when no header
/// carries that name.  Header names are expected in the lower-case form the
/// HTTP layer normalizes them to.
pub open spec fn header_lookup(headers: Seq<(String, String)>, name: Seq<char>) -> Option<Seq<char>>
    decreases headers.len(),
{
    if headers.len() == 0 {
        None
    } else if headers[0].0@ == name {
        Some(headers[0].1@)
    } else {
        header_lookup(headers.drop_first(), name)
    }
}

/// Finds the first header named `name` in `headers`.
pub fn find_header<'a>(headers: &'a Vec<(String, String)>, name: &String) -> (r: Option<&'a String>)
    ensures
        match r {
            Some(v) => header_lookup(headers@, name@) == Some(v@),
            None => header_lookup(headers@, name@) is None,
        },
{
    let n = headers.len();
    let mut i: usize = 0;
    proof {
        assert(headers@.skip(0) =~= headers@);
    }
    while i < n
        invariant
            n == headers@.len(),
            i <= n,
            header_lookup(headers@, name@) == header_lookup(headers@.skip(i as int), name@),
        decreases n - i,
    {
        proof {
            assert(headers@.skip(i as int).drop_first() =~= headers@.skip(i as int + 1));
        }
        if headers[i].0 == *name {
            return Some(&headers[i].1);
        }
        i += 1;
    }
    proof {
        assert(headers@.skip(n as int) =~= Seq::<(String, String)>::empty());
    }
    None
}

/// Whether `headers` carries the one `Authorization` value that the auth
/// guard accepts for the credential pair `(user, pass)`.
pub open spec fn authorized(headers: Seq<(String, String)>, user: Seq<char>, pass: Seq<char>) -> bool {
    header_lookup(headers, "authorization"@) == Some(expected_basic_header(user, pass))
}

} // verus!
