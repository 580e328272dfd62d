//! The remote working directory of a project.
//!
//! The directory is `~/remote-builds/<hash>/`, where `<hash>` is the decimal
//! rendering of a 64-bit hash of the local project path. The hash is a
//! namespacing convenience and not a security boundary: two distinct paths
//! collide only if their hashes do.
use vstd::prelude::*;
use crate::text::{decimal, decimal_string, lemma_decimal_injective};

verus! {

/// What std's default hasher yields for the project path `root`.
pub uninterp spec fn path_hash(root: Seq<char>) -> u64;

/// Relies on `std::collections::hash_map::DefaultHasher` (built by `new`, fed
/// through `Hash for Path`, read by `finish`): its keys are fixed, so the hash
/// depends on the path alone.
#[verifier::external_body]
fn hash_project_path(root: &str) -> (r: u64)
    ensures
        r == path_hash(root@),
{
    let mut hasher = std::collections::hash_map::DefaultHasher::new();
    std::hash::Hash::hash(std::path::Path::new(root), &mut hasher);
    std::hash::Hasher::finish(&hasher)
}

/// The remote directory named after the hash `h`.
pub open spec fn remote_dir(h: u64) -> Seq<char> {
    "~/remote-builds/"@ + decimal(h as nat) + "/"@
}

/// The remote directory of the project at `root`.
pub open spec fn build_path_of(root: Seq<char>) -> Seq<char> {
    remote_dir(path_hash(root))
}

/// Renders the remote directory named after the hash `h`.
pub fn remote_dir_for_hash(h: u64) -> (r: String)
    ensures
        r@ == remote_dir(h),
{
    let mut r = String::from_str("~/remote-builds/");
    let digits = decimal_string(h);
    r.append(digits.as_str());
    r.append("/");
    r
}

/// Derives the remote working directory of the project at `root`; it depends
/// on `root` alone.
pub fn build_path(root: &str) -> (r: String)
    ensures
        r@ == build_path_of(root@),
{
    let h = hash_project_path(root);
    remote_dir_for_hash(h)
}

/// Distinct hashes name distinct remote directories, and a path always names
/// the same one.
pub proof fn lemma_build_path_distinct(root1: Seq<char>, root2: Seq<char>)
    ensures
        root1 == root2 ==> build_path_of(root1) == build_path_of(root2),
        path_hash(root1) != path_hash(root2) ==> build_path_of(root1) != build_path_of(root2),
{
    lemma_remote_dir_injective(path_hash(root1), path_hash(root2));
}

/// Distinct hashes name distinct remote directories.
pub proof fn lemma_remote_dir_injective(h1: u64, h2: u64)
    ensures
        h1 != h2 ==> remote_dir(h1) != remote_dir(h2),
{
    if remote_dir(h1) == remote_dir(h2) {
        let p = "~/remote-builds/"@;
        let s = "/"@;
        let d1 = decimal(h1 as nat);
        let d2 = decimal(h2 as nat);
        assert(d1 =~= remote_dir(h1).subrange(p.len() as int, remote_dir(h1).len() - s.len()));
        assert(d2 =~= remote_dir(h2).subrange(p.len() as int, remote_dir(h2).len() - s.len()));
        lemma_decimal_injective(h1 as nat, h2 as nat);
    }
}

} // verus!
