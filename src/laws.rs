use std::path::PathBuf;
use vstd::prelude::*;
use crate::content::{bundle_read, direct_read, file_scheme, same_outcome, ContentError};

verus! {

/// A loose file whose URL names a local path reads as exactly the bytes that the
/// opener gives for that path.
pub proof fn lemma_direct_read_gives_opened_bytes<O: FnOnce(PathBuf) -> Result<Vec<u8>, std::io::Error>>(
    path: PathBuf,
    open_file: O,
    bytes: Vec<u8>,
    r: Result<Vec<u8>, ContentError>,
)
    requires
        forall|o: Result<Vec<u8>, std::io::Error>|
            call_ensures(open_file, (path,), o) ==> o == Ok::<Vec<u8>, std::io::Error>(bytes),
        direct_read(file_scheme(), Some(path), open_file, r),
    ensures
        r == Ok::<Vec<u8>, ContentError>(bytes),
{
}

/// Reading a loose file twice with an opener that always answers the same for a
/// path gives the same outcome twice.
pub proof fn lemma_direct_read_idempotent<O: FnOnce(PathBuf) -> Result<Vec<u8>, std::io::Error>>(
    scheme: Seq<char>,
    file_path: Option<PathBuf>,
    open_file: O,
    first: Result<Vec<u8>, ContentError>,
    second: Result<Vec<u8>, ContentError>,
)
    requires
        forall|p: PathBuf, a: Result<Vec<u8>, std::io::Error>, b: Result<Vec<u8>, std::io::Error>|
            call_ensures(open_file, (p,), a) && call_ensures(open_file, (p,), b) ==> a == b,
        direct_read(scheme, file_path, open_file, first),
        direct_read(scheme, file_path, open_file, second),
    ensures
        first == second,
{
}

/// Reading a bundle entry twice with a content source that always answers the same
/// for a path gives the same outcome twice.
pub proof fn lemma_bundle_read_idempotent<R: Fn(String) -> Result<Vec<u8>, std::io::Error>>(
    scheme: Seq<char>,
    segments: Seq<Seq<char>>,
    read_content: R,
    first: Result<Vec<u8>, ContentError>,
    second: Result<Vec<u8>, ContentError>,
)
    requires
        forall|p: String, q: String, a: Result<Vec<u8>, std::io::Error>, b: Result<Vec<u8>, std::io::Error>|
            p@ == q@ && call_ensures(read_content, (p,), a) && call_ensures(read_content, (q,), b)
                ==> a == b,
        bundle_read(scheme, segments, read_content, first),
        bundle_read(scheme, segments, read_content, second),
    ensures
        same_outcome(first, second),
{
}

} // verus!
