use crypto::digest::Digest;
use crypto::md5::Md5;
use vstd::prelude::*;
use vstd::string::StringExecFns;

verus! {

/// A directory on the way up from a starting point, with the path that was
/// looked for below it and whether that path is there.
#[derive(Debug, Clone)]
pub struct Candidate {
    pub dir: String,
    pub path: String,
    pub exists: bool,
}

/// The MD5 digest of the UTF-8 encoding of a text, as lower-case hexadecimal.
pub uninterp spec fn md5_hex(content: Seq<char>) -> Seq<char>;

/// Feeds `content` to a fresh `crypto::md5::Md5` through `Digest::input_str`
/// and reads the digest with `Digest::result_str`. Trusted: the result is the
/// digest that `md5_hex` names; nothing else is claimed of it.
#[verifier::external_body]
fn md5_hex_digest(content: &str) -> (digest: String)
    ensures
        digest@ == md5_hex(content@),
{
    let mut md5 = Md5::new();
    md5.input_str(content);
    md5.result_str()
}

/// `i` is the first of the candidates that exists.
pub open spec fn is_first_existing(candidates: Seq<Candidate>, i: int) -> bool {
    &&& 0 <= i < candidates.len()
    &&& candidates[i].exists
    &&& forall|j: int| 0 <= j < i ==> !candidates[j].exists
}

/// The MD5 digest of a text, as lower-case hexadecimal.
pub fn content_digest(content: &str) -> (digest: String)
    ensures
        digest@ == md5_hex(content@),
{
    md5_hex_digest(content)
}

/// Whether two digests differ.
pub fn digests_differ(source_digest: &String, dest_digest: &String) -> (differ: bool)
    ensures
        differ == (source_digest@ != dest_digest@),
{
    !(*source_digest == *dest_digest)
}

/// Whether the destination must be written: it must where there is none, and
/// where the digest of its content is not that of the source's. A destination
/// that holds what the source holds is never written.
pub fn file_needs_updated(source: &str, dest: Option<&str>) -> (needed: bool)
    ensures
        needed == (match dest {
            None => true,
            Some(d) => md5_hex(source@) != md5_hex(d@),
        }),
        dest matches Some(d) && d@ == source@ ==> !needed,
{
    match dest {
        None => true,
        Some(d) => {
            let source_digest = content_digest(source);
            let dest_digest = content_digest(d);
            digests_differ(&source_digest, &dest_digest)
        },
    }
}

/// The position of the first candidate that exists, if any does.
pub fn find_first_existing(candidates: &Vec<Candidate>) -> (found: Option<usize>)
    ensures
        match found {
            Some(i) => is_first_existing(candidates@, i as int),
            None => forall|j: int| 0 <= j < candidates.len() ==> !candidates[j].exists,
        },
{
    let mut i: usize = 0;
    while i < candidates.len()
        invariant
            i <= candidates.len(),
            forall|j: int| 0 <= j < i ==> !candidates[j].exists,
        decreases candidates.len() - i,
    {
        if candidates[i].exists {
            return Some(i);
        }
        i += 1;
    }
    None
}

/// Walks up a file hierarchy: of the paths looked for, from the starting
/// directory upwards, the first that exists.
pub fn walk_tree_for_path(candidates: &Vec<Candidate>) -> (found: Option<String>)
    ensures
        match found {
            Some(path) => exists|i: int|
                is_first_existing(candidates@, i) && path@ == (#[trigger] candidates[i]).path@,
            None => forall|j: int| 0 <= j < candidates.len() ==> !candidates[j].exists,
        },
{
    match find_first_existing(candidates) {
        Some(i) => Some(String::from_str(candidates[i].path.as_str())),
        None => None,
    }
}

/// The text of a path, given what the path yields as unicode.
pub fn path_to_string(path: Option<&str>) -> (s: String)
    requires
        path is Some,
    ensures
        s@ == path->Some_0@,
{
    match path {
        Some(p) => String::from_str(p),
        None => String::new(),
    }
}

} // verus!
