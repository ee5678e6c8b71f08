//! The artifact store: a directory tree on local disk, keyed by content hash.
//!
//! A successful compile extracts exactly two files — a script and a binary
//! payload with fixed names — into `<cache root>/<hash>/`. This module
//! computes those paths and classifies the outcome of a read: an identifier
//! under which nothing was ever stored is a [`Error::NotFound`], never a
//! generic I/O error. Distinct identifiers always resolve to distinct
//! directories, so concurrent compiles of sources with distinct hashes can
//! never write into each other's slot.

use crate::outcome::Error;
use crate::outcome::ErrorV;
use crate::source_id::dec_seq;
use crate::source_id::digit_char;
use crate::source_id::SourceHash;
use vstd::prelude::*;

verus! {

/// Name of the script artifact of a successful compile.
pub const SCRIPT_ARTIFACT: &'static str = "bevy-project.js";

/// Name of the binary payload artifact of a successful compile.
pub const WASM_ARTIFACT: &'static str = "bevy-project_bg.wasm";

/// Name of the cache directory under the system temp root.
pub const CACHE_SUBDIR: &'static str = "bevy-playground";

/// `a` and `b` joined with a path separator.
pub open spec fn joined(a: Seq<char>, b: Seq<char>) -> Seq<char> {
    a + "/"@ + b
}

/// Join two path components.
pub fn join_path(a: &str, b: &str) -> (r: String)
    ensures
        r@ == joined(a@, b@),
{
    String::from_str(a).concat("/").concat(b)
}

/// The directory under which one identifier's artifacts live.
pub open spec fn artifact_dir_v(cache_root: Seq<char>, id: Seq<char>) -> Seq<char> {
    joined(cache_root, id)
}

/// The full path of one named artifact of one identifier.
pub open spec fn artifact_file_v(cache_root: Seq<char>, id: Seq<char>, name: Seq<char>) -> Seq<
    char,
> {
    joined(artifact_dir_v(cache_root, id), name)
}

/// The directory for a validated identifier.
pub fn artifact_dir(cache_root: &str, id: &SourceHash) -> (r: String)
    ensures
        r@ == artifact_dir_v(cache_root@, id@),
{
    join_path(cache_root, id.as_str())
}

/// The path of one named artifact of a validated identifier.
pub fn artifact_file(cache_root: &str, id: &SourceHash, name: &str) -> (r: String)
    ensures
        r@ == artifact_file_v(cache_root@, id@, name@),
{
    let dir = artifact_dir(cache_root, id);
    join_path(dir.as_str(), name)
}

/// What the driver observed when it tried to read one artifact file: the
/// content, or the fact that no such file exists, or some other host
/// failure.
pub enum ReadResult {
    Found { content: Vec<u8> },
    Missing,
    Failed { message: String },
}

/// Classify the outcome of reading the artifact at `path`: content comes
/// back as is; an artifact that was never stored is reported as not found,
/// never as a generic I/O error; any other host failure is an I/O error.
pub fn classify_read(path: String, r: ReadResult) -> (out: Result<Vec<u8>, Error>)
    ensures
        (r matches ReadResult::Found { content } ==> out == Ok::<Vec<u8>, Error>(content)),
        (r is Missing ==> (out matches Err(e) && e@ == (ErrorV::NotFound { path: path@ }))),
        (r matches ReadResult::Failed { message } ==> (out matches Err(e) && e@ == (
        ErrorV::IO { message: message@ }))),
{
    match r {
        ReadResult::Found { content } => Ok(content),
        ReadResult::Missing => Err(Error::NotFound { path }),
        ReadResult::Failed { message } => Err(Error::IO { message }),
    }
}

/// Joining a fixed prefix is injective in the suffix.
proof fn lemma_joined_injective(a: Seq<char>, b1: Seq<char>, b2: Seq<char>)
    requires
        joined(a, b1) == joined(a, b2),
    ensures
        b1 == b2,
{
    reveal_strlit("/");
    assert(joined(a, b1).len() == a.len() + 1 + b1.len());
    assert(joined(a, b2).len() == a.len() + 1 + b2.len());
    assert(b1.len() == b2.len());
    assert forall|i: int| 0 <= i < b1.len() implies b1[i] == b2[i] by {
        assert(joined(a, b1)[a.len() + 1 + i] == b1[i]);
        assert(joined(a, b2)[a.len() + 1 + i] == b2[i]);
    }
    assert(b1 =~= b2);
}

/// A decimal rendering is never empty, and has at least two characters for
/// values of ten and above.
proof fn lemma_dec_seq_len(n: nat)
    ensures
        dec_seq(n).len() >= 1,
        n >= 10 ==> dec_seq(n).len() >= 2,
    decreases n,
{
    if n >= 10 {
        lemma_dec_seq_len(n / 10);
    }
}

/// Distinct values have distinct decimal renderings.
pub proof fn lemma_dec_seq_injective(m: nat, n: nat)
    requires
        m != n,
    ensures
        dec_seq(m) != dec_seq(n),
    decreases m + n,
{
    if m < 10 && n < 10 {
        assert(dec_seq(m)[0] == digit_char(m));
        assert(dec_seq(n)[0] == digit_char(n));
    } else if m < 10 {
        lemma_dec_seq_len(n);
    } else if n < 10 {
        lemma_dec_seq_len(m);
    } else {
        if m % 10 != n % 10 {
            assert(dec_seq(m).last() == digit_char(m % 10));
            assert(dec_seq(n).last() == digit_char(n % 10));
        } else {
            lemma_dec_seq_injective(m / 10, n / 10);
            if dec_seq(m) == dec_seq(n) {
                assert(dec_seq(m).drop_last() =~= dec_seq(m / 10));
                assert(dec_seq(n).drop_last() =~= dec_seq(n / 10));
            }
        }
    }
}

/// Sources with distinct content hashes are stored under distinct
/// directories: neither of two concurrent compiles can touch the other's
/// artifact slot.
pub proof fn lemma_distinct_hashes_distinct_dirs(cache_root: Seq<char>, h1: u64, h2: u64)
    requires
        h1 != h2,
    ensures
        artifact_dir_v(cache_root, dec_seq(h1 as nat)) != artifact_dir_v(
            cache_root,
            dec_seq(h2 as nat),
        ),
{
    lemma_dec_seq_injective(h1 as nat, h2 as nat);
    if artifact_dir_v(cache_root, dec_seq(h1 as nat)) == artifact_dir_v(
        cache_root,
        dec_seq(h2 as nat),
    ) {
        lemma_joined_injective(cache_root, dec_seq(h1 as nat), dec_seq(h2 as nat));
    }
}

} // verus!
