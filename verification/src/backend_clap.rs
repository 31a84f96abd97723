//! Reading the URI a CLAP plugin is loaded by.
use vstd::prelude::*;
use vstd::string::*;

use crate::plugin_facade::{clap_parts, split_clap_uri};

verus! {

/// Split a CLAP URI, `file:///path/lib.so#plugin_id`, into the library path
/// (without `file://`) and the plugin id; a URI without `#` is refused with
/// a message that names the form expected.
pub fn parse_uri(uri: &str) -> (r: Result<(String, String), String>)
    ensures
        clap_parts(uri@) is None ==> (r matches Err(m) && m@
            == "CLAP URI must be file:///.../lib.so#plugin_id, got: "@ + uri@),
        clap_parts(uri@) matches Some((path, id)) ==> r matches Ok((p, i)) && p@ == path && i@
            == id,
{
    match split_clap_uri(uri) {
        Some(parts) => Ok(parts),
        None => Err(
            String::from_str("CLAP URI must be file:///.../lib.so#plugin_id, got: ").concat(uri),
        ),
    }
}

} // verus!
