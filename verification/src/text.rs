use vstd::prelude::*;

verus! {

/// `needle` stands in `haystack` at position `i`.
pub open spec fn occurs_at(haystack: Seq<char>, needle: Seq<char>, i: int) -> bool {
    &&& 0 <= i
    &&& i + needle.len() <= haystack.len()
    &&& haystack.subrange(i, i + needle.len()) == needle
}

/// `needle` stands somewhere in `haystack`.
pub open spec fn is_substring(haystack: Seq<char>, needle: Seq<char>) -> bool {
    exists|i: int| occurs_at(haystack, needle, i)
}

/// `name` stands in `text` at position `i`, with a line break or an end of the
/// text on either side.
pub open spec fn line_at(text: Seq<char>, name: Seq<char>, i: int) -> bool {
    &&& occurs_at(text, name, i)
    &&& (i == 0 || text[i - 1] == '\n')
    &&& (i + name.len() == text.len() || text[i + name.len()] == '\n')
}

/// One of the lines of `text` is `name`.
pub open spec fn has_line(text: Seq<char>, name: Seq<char>) -> bool {
    exists|i: int| line_at(text, name, i)
}

/// Whether two texts hold the same characters.
pub fn same_text(a: &str, b: &str) -> (same: bool)
    ensures
        same == (a@ == b@),
{
    let x = a.to_owned();
    let y = b.to_owned();
    x == y
}

/// The characters of a text, in order.
pub fn chars_of(s: &str) -> (v: Vec<char>)
    ensures
        v@ == s@,
{
    broadcast use vstd::string::group_string_axioms;

    let mut v: Vec<char> = Vec::new();
    for c in it: s.chars()
        invariant
            it.seq() == s@,
            v@ == s@.take(it.index()),
    {
        v.push(c);
    }
    assert(s@.take(s@.len() as int) == s@);
    v
}

/// Whether `needle` stands in `haystack` at position `i`.
fn matches_at(haystack: &Vec<char>, needle: &Vec<char>, i: usize) -> (found: bool)
    requires
        i + needle.len() <= haystack.len(),
    ensures
        found == occurs_at(haystack@, needle@, i as int),
{
    let mut j: usize = 0;
    while j < needle.len()
        invariant
            j <= needle.len(),
            i + needle.len() <= haystack.len(),
            forall|k: int| 0 <= k < j ==> haystack@[i + k] == needle@[k],
        decreases needle.len() - j,
    {
        if haystack[i + j] != needle[j] {
            assert(haystack@.subrange(i as int, i + needle@.len())[j as int] != needle@[j as int]);
            return false;
        }
        j += 1;
    }
    assert(haystack@.subrange(i as int, i + needle@.len()) =~= needle@);
    true
}

/// Whether `needle` stands somewhere in `haystack`.
pub fn contains(haystack: &str, needle: &str) -> (found: bool)
    ensures
        found == is_substring(haystack@, needle@),
{
    let h = chars_of(haystack);
    let n = chars_of(needle);
    if n.len() > h.len() {
        return false;
    }
    let last: usize = h.len() - n.len();
    let mut i: usize = 0;
    loop
        invariant
            i <= last,
            last == h.len() - n.len(),
            h@ == haystack@,
            n@ == needle@,
            forall|k: int| 0 <= k < i ==> !occurs_at(h@, n@, k),
        decreases last - i,
    {
        if matches_at(&h, &n, i) {
            return true;
        }
        if i == last {
            return false;
        }
        i += 1;
    }
}

/// Whether one of the lines of `text` is `name`.
pub fn contains_line(text: &str, name: &str) -> (found: bool)
    ensures
        found == has_line(text@, name@),
{
    let t = chars_of(text);
    let n = chars_of(name);
    if n.len() > t.len() {
        return false;
    }
    let last: usize = t.len() - n.len();
    let mut i: usize = 0;
    loop
        invariant
            i <= last,
            last == t.len() - n.len(),
            t@ == text@,
            n@ == name@,
            forall|k: int| 0 <= k < i ==> !line_at(t@, n@, k),
        decreases last - i,
    {
        let opens = i == 0 || t[i - 1] == '\n';
        let closes = i == last || t[i + n.len()] == '\n';
        if opens && closes && matches_at(&t, &n, i) {
            assert(line_at(t@, n@, i as int));
            return true;
        }
        if i == last {
            return false;
        }
        i += 1;
    }
}

} // verus!
