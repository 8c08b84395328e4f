//! The side-channel request header that carries a JSON-encoded argument
//! object on content-transfer calls.

use vstd::prelude::*;

verus! {

/// The value of the `Dropbox-API-Arg` request header.
pub struct DropboxAPIArg<D>(pub D);

/// The name of the side-channel argument header.
pub fn arg_header_name() -> (r: &'static str)
    ensures
        r@ == "Dropbox-API-Arg"@,
{
    "Dropbox-API-Arg"
}

/// The name of the response header that carries download metadata.
pub fn result_header_name() -> (r: &'static str)
    ensures
        r@ == "Dropbox-API-Result"@,
{
    "Dropbox-API-Result"
}

} // verus!
