//! Addresses of the node's RPC server. The resolution of a reference against a
//! base address is the work of the `url` crate and is trusted.

use vstd::prelude::*;

verus! {

/// Why `url` rejected an address. Opaque.
#[verifier::external_type_specification]
#[verifier::external_body]
pub struct ExParseError(url::ParseError);

/// The address that `url` resolves `reference` to against the base address
/// `base`, in its serialised form; `None` where `url` rejects either.
pub uninterp spec fn url_join(base: Seq<char>, reference: Seq<char>) -> Option<Seq<char>>;

/// Parses `base` with `url::Url::parse` and resolves `reference` against it
/// with `url::Url::join`. The contract only names the outcome: the text of an
/// accepted address is `url_join`, and an error comes exactly where `url_join`
/// is `None`.
#[verifier::external_body]
pub(crate) fn join_url(base: &str, reference: &str) -> (r: Result<String, url::ParseError>)
    ensures
        match r {
            Ok(address) => url_join(base@, reference@) == Some(address@),
            Err(_) => url_join(base@, reference@) is None,
        },
{
    let parsed = url::Url::parse(base)?;
    let joined = parsed.join(reference)?;
    Ok(joined.to_string())
}

} // verus!
