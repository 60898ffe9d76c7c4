//! The host that the library runs on: its paths, its home directory, what its commands print.

use vstd::prelude::*;
use vstd::utf8::*;

use crate::error;
use crate::error::LaunchError;

verus! {

/// What a command left behind when it ended.
#[derive(Debug)]
pub struct CommandOutput {
    /// Whether it exited with success.
    pub success: bool,
    /// Its exit code; none where a signal ended it.
    pub code: Option<i32>,
    /// What it wrote to its standard output.
    pub stdout: Vec<u8>,
    /// What it wrote to its standard error.
    pub stderr: Vec<u8>,
}

/// The bytes of an optional path.
pub open spec fn bytes_of(path: Option<Vec<u8>>) -> Option<Seq<u8>> {
    match path {
        Some(p) => Some(p@),
        None => None,
    }
}

/// The path `tail`, taken from `base`. An absolute `tail` stands for itself.
pub open spec fn path_joined(base: Seq<u8>, tail: Seq<u8>) -> Seq<u8> {
    if tail.len() > 0 && tail[0] == 0x2f {
        tail
    } else if base.len() == 0 || base.last() == 0x2f {
        base + tail
    } else {
        base + seq![0x2fu8] + tail
    }
}

/// Whether `r` is the path `want`, or says that the home directory is not known where there is
/// no such path.
pub open spec fn located(r: Result<Vec<u8>, LaunchError>, want: Option<Seq<u8>>) -> bool {
    match r {
        Ok(path) => want == Some(path@),
        Err(e) => want is None && error::home_not_found(e),
    }
}

/// What [`text_from_utf8_lossy`] reads in `bytes`: the text that they encode, with a replacement
/// character for each maximal piece that encodes none.
pub uninterp spec fn utf8_lossy(bytes: Seq<u8>) -> Seq<char>;

/// The home directory of the current user as `dirs::home_dir` finds it: its path as bytes, or
/// nothing where it is not known. Which directory it is depends on the environment and the user
/// database, so nothing is claimed of it.
#[verifier::external_body]
pub(crate) fn home_dir() -> (home: Option<Vec<u8>>)
{
    dirs::home_dir().map(|path| path.into_os_string().into_encoded_bytes())
}

/// Whether this is what [`home_dir`] found when it was asked.
pub closed spec fn found_home(home: Option<Seq<u8>>) -> bool {
    exists|found: Option<Vec<u8>>| #[trigger]
        call_ensures(home_dir, (), found) && bytes_of(found) == home
}

/// What counts as the home directory is what the look-up gave, all of its bytes, and nothing else.
pub(crate) proof fn law_found_home(home: Option<Seq<u8>>)
    requires
        found_home(home),
    ensures
        exists|found: Option<Vec<u8>>| #[trigger]
            call_ensures(home_dir, (), found) && match found {
                Some(path) => home == Some(path@),
                None => home is None,
            },
{
    let found = choose|found: Option<Vec<u8>>| #[trigger]
        call_ensures(home_dir, (), found) && bytes_of(found) == home;
    assert(call_ensures(home_dir, (), found));
}

/// Asks for what `find` finds.
fn ask<F: Fn() -> Option<Vec<u8>>>(find: F) -> (found: Option<Vec<u8>>)
    requires
        call_requires(find, ()),
    ensures
        call_ensures(find, (), found),
{
    find()
}

/// The home directory of the current user, where it is known.
pub fn current_home() -> (home: Option<Vec<u8>>)
    ensures
        found_home(bytes_of(home)),
{
    let home = ask(home_dir);
    assert(call_ensures(home_dir, (), home) && bytes_of(home) == bytes_of(home));
    home
}

/// `std::str::from_utf8`: the text that `bytes` encode, if they are valid UTF-8, and only then.
#[verifier::external_body]
pub(crate) fn text_from_utf8(bytes: &[u8]) -> (r: Option<&str>)
    ensures
        match r {
            Some(text) => valid_utf8(bytes@) && text@ == decode_utf8(bytes@),
            None => !valid_utf8(bytes@),
        },
{
    std::str::from_utf8(bytes).ok()
}

/// `String::from_utf8_lossy`: a function of the bytes alone, and the text that they encode where
/// they are valid UTF-8.
#[verifier::external_body]
pub(crate) fn text_from_utf8_lossy(bytes: &[u8]) -> (r: String)
    ensures
        r@ == utf8_lossy(bytes@),
        valid_utf8(bytes@) ==> r@ == decode_utf8(bytes@),
{
    String::from_utf8_lossy(bytes).into_owned()
}

/// Appends `tail` to `path`.
fn extend(path: &mut Vec<u8>, tail: &[u8])
    ensures
        final(path)@ == old(path)@ + tail@,
{
    let mut i: usize = 0;
    assert(path@ =~= old(path)@ + tail@.take(0));
    while i < tail.len()
        invariant
            i <= tail.len(),
            path@ == old(path)@ + tail@.take(i as int),
        decreases tail.len() - i,
    {
        path.push(tail[i]);
        i += 1;
        assert(path@ =~= old(path)@ + tail@.take(i as int));
    }
    assert(tail@.take(tail@.len() as int) =~= tail@);
}

/// Takes the path `tail` from `base`. An absolute `tail` stands for itself.
pub fn join_path(base: &[u8], tail: &str) -> (r: Vec<u8>)
    ensures
        r@ == path_joined(base@, encode_utf8(tail@)),
{
    let tail = tail.as_bytes();
    let mut r: Vec<u8> = Vec::new();
    if tail.len() > 0 && tail[0] == 0x2f {
        extend(&mut r, tail);
        assert(r@ =~= tail@);
        return r;
    }
    extend(&mut r, base);
    assert(r@ =~= base@);
    if base.len() > 0 && base[base.len() - 1] != 0x2f {
        r.push(0x2f);
        assert(r@ =~= base@ + seq![0x2fu8]);
    }
    extend(&mut r, tail);
    r
}

/// The path that the names lead to from the home directory, where that is known.
pub open spec fn below_home(home: Option<Seq<u8>>, names: Seq<Seq<char>>) -> Option<Seq<u8>> {
    match home {
        Some(h) => Some(descended(h, names)),
        None => None,
    }
}

/// The path that the names lead to from `base`, one after the other.
pub open spec fn descended(base: Seq<u8>, names: Seq<Seq<char>>) -> Seq<u8>
    decreases names.len(),
{
    if names.len() == 0 {
        base
    } else {
        path_joined(descended(base, names.drop_last()), encode_utf8(names.last()))
    }
}

/// Goes down from the home directory, one name after the other.
pub fn descend_home(home: &Option<Vec<u8>>, names: &[&str]) -> (r: Result<Vec<u8>, LaunchError>)
    ensures
        located(r, below_home(bytes_of(*home), names@.map_values(|s: &str| s@))),
{
    let base = match home {
        Some(base) => base,
        None => {
            return Err(error::home_missing());
        },
    };
    let ghost all = names@.map_values(|s: &str| s@);
    let mut path: Vec<u8> = Vec::new();
    extend(&mut path, base.as_slice());
    assert(path@ =~= base@);
    let mut i: usize = 0;
    while i < names.len()
        invariant
            i <= names.len(),
            all == names@.map_values(|s: &str| s@),
            path@ == descended(base@, all.take(i as int)),
        decreases names.len() - i,
    {
        let ghost some = all.take(i + 1);
        assert(some.drop_last() =~= all.take(i as int));
        path = join_path(path.as_slice(), names[i]);
        i += 1;
    }
    assert(all.take(all.len() as int) =~= all);
    Ok(path)
}

} // verus!
