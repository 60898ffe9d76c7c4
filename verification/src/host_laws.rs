//! What paths below the home directory are, and what is said where it is not known.

use vstd::prelude::*;
use vstd::utf8::*;

use crate::error;
use crate::error::{IoErrorKind, LaunchError};
use crate::host;

verus! {

/// A path that is taken from another starts with the other and ends in what was added, with one
/// slash in between where there was none. An absolute path stands for itself.
pub proof fn law_joined_path(base: Seq<u8>, tail: Seq<u8>)
    ensures
        tail.len() > 0 && tail[0] == 0x2f ==> host::path_joined(base, tail) == tail,
        tail.len() == 0 || tail[0] != 0x2f ==> {
            &&& base.len() > 0 && base.last() != 0x2f ==> host::path_joined(base, tail) == base + seq![
                0x2fu8,
            ] + tail
            &&& base.len() == 0 || base.last() == 0x2f ==> host::path_joined(base, tail) == base
                + tail
        },
{
}

/// Going down by one more name leads into it from where the others led.
pub proof fn law_descending(base: Seq<u8>, names: Seq<Seq<char>>, name: Seq<char>)
    ensures
        host::below_home(None, names) is None,
        host::below_home(Some(base), seq![]) == Some(base),
        host::below_home(Some(base), names.push(name)) == Some(
            host::path_joined(host::below_home(Some(base), names)->0, encode_utf8(name)),
        ),
{
    assert(names.push(name).drop_last() =~= names);
}

/// The bytes of a path are all of them, and there are none where there is no path.
pub proof fn law_bytes_of(path: Vec<u8>)
    ensures
        host::bytes_of(Some(path)) == Some(path@),
        host::bytes_of(None) is None,
{
}

/// The error for a home directory that was not found says so.
pub proof fn law_home_not_found(e: LaunchError)
    requires
        error::home_not_found(e),
    ensures
        e matches LaunchError::Io(io) && io.kind == IoErrorKind::NotFound && io.os_code is None
            && io.message@ == "Failed to find home directory"@,
{
}

/// An error of the library's own has the kind and the message that it was given, and no code of
/// the operating system.
pub proof fn law_raised(e: LaunchError, kind: IoErrorKind, message: Seq<char>)
    requires
        error::raised(e, kind, message),
    ensures
        e matches LaunchError::Io(io) && io.kind == kind && io.os_code is None && io.message@
            == message,
{
}

/// What is located is the path that is wanted. Where there is none, the home directory was not
/// found, and the error says so.
pub proof fn law_located(r: Result<Vec<u8>, LaunchError>, want: Option<Seq<u8>>)
    requires
        host::located(r, want),
    ensures
        want matches Some(path) ==> (r matches Ok(found) && found@ == path),
        want is None ==> (r matches Err(LaunchError::Io(io)) && io.kind == IoErrorKind::NotFound
            && io.os_code is None && io.message@ == "Failed to find home directory"@),
{
}

} // verus!
