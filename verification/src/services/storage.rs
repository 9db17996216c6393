//! Object storage: the keys under which blobs are stored and the addresses
//! under which they are handed out. Reading and writing the blobs is not
//! done here.

use vstd::prelude::*;
use vstd::string::StringExecFns;
use crate::text::{replace, replaced};
use crate::utils::ident::{format_uuid, is_random_uuid, random_uuid, uuid_text};

verus! {

/// The key of a blob: an identifier in hyphenated form, a slash, and the
/// name of the file.
pub open spec fn object_key(prefix: u128, file_name: Seq<char>) -> Seq<char> {
    uuid_text(prefix) + seq!['/'] + file_name
}

/// The key of a blob under the given identifier.
pub fn object_key_for(prefix: u128, file_name: &str) -> (key: String)
    ensures
        key@ == object_key(prefix, file_name@),
{
    proof {
        reveal_strlit("/");
    }
    assert("/"@ =~= seq!['/']);
    format_uuid(prefix).concat("/").concat(file_name)
}

/// A key for a new blob: under a fresh random identifier, so that two files
/// of the same name do not meet.
pub fn new_object_key(file_name: &str) -> (key: String)
    ensures
        exists|prefix: u128| is_random_uuid(prefix) && key@ == #[trigger] object_key(prefix, file_name@),
{
    let prefix = random_uuid();
    object_key_for(prefix, file_name)
}

/// The address under which the editor fetches a blob: the public address
/// with the endpoint of object storage replaced by the internal one, where
/// there is an internal one.
pub fn editor_file_url(url: &str, endpoint: &str, internal_endpoint: Option<&str>) -> (address: String)
    ensures
        address@ == match internal_endpoint {
            Some(internal) => replaced(url@, endpoint@, internal@),
            None => url@,
        },
{
    match internal_endpoint {
        Some(internal) => replace(url, endpoint, internal),
        None => String::from_str(url),
    }
}

} // verus!
