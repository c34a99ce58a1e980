//! Text helpers: comparison, substring search and path joining.
use vstd::prelude::*;

verus! {

/// The text of an optional string.
pub open spec fn optional_text(text: Option<String>) -> Option<Seq<char>> {
    match text {
        Some(s) => Some(s@),
        None => None,
    }
}

/// The text of an optional string slice.
pub open spec fn optional_str(text: Option<&str>) -> Option<Seq<char>> {
    match text {
        Some(s) => Some(s@),
        None => None,
    }
}

/// The texts of a list of strings, in order.
pub open spec fn texts(list: Seq<String>) -> Seq<Seq<char>> {
    list.map_values(|s: String| s@)
}

/// `needle` occurs in `haystack` at character `at`.
pub open spec fn occurs_at(haystack: Seq<char>, needle: Seq<char>, at: int) -> bool {
    &&& 0 <= at <= haystack.len() - needle.len()
    &&& haystack.subrange(at, at + needle.len()) == needle
}

/// `needle` occurs somewhere in `haystack`.
pub open spec fn occurs_in(haystack: Seq<char>, needle: Seq<char>) -> bool {
    exists|at: int| occurs_at(haystack, needle, at)
}

/// Compares two string slices character by character.
pub(crate) fn same_text(a: &str, b: &str) -> (same: bool)
    ensures
        same == (a@ == b@),
{
    a.to_owned() == b.to_owned()
}

/// What the `{:?}` format prints for a text: quoted, with quotes, backslashes and characters
/// that do not print escaped.
pub uninterp spec fn debugged(text: Seq<char>) -> Seq<char>;

/// Calls `format!` of std with `{:?}`. What it prints is named `debugged`; which characters it
/// escapes is left open.
#[verifier::external_body]
pub(crate) fn debug_text(text: &str) -> (printed: String)
    ensures
        printed@ == debugged(text@),
{
    format!("{:?}", text)
}

/// An owned copy of an optional string slice.
pub(crate) fn owned_text(text: Option<&str>) -> (owned: Option<String>)
    ensures
        optional_text(owned) == optional_str(text),
{
    match text {
        Some(s) => Some(s.to_owned()),
        None => None,
    }
}

/// Copies a list of strings.
pub(crate) fn copy_texts(list: &Vec<String>) -> (copy: Vec<String>)
    ensures
        copy@ == list@,
{
    let mut copy: Vec<String> = Vec::new();
    let mut i: usize = 0;
    while i < list.len()
        invariant
            i <= list.len(),
            copy@ == list@.take(i as int),
        decreases list.len() - i,
    {
        copy.push(list[i].clone());
        i = i + 1;
    }
    copy
}

/// The characters of a string slice.
pub(crate) fn characters(text: &str) -> (list: Vec<char>)
    ensures
        list@ == text@,
{
    let mut list: Vec<char> = Vec::new();
    for c in it: text.chars()
        invariant
            list@ == it.seq().take(it.index() as int),
    {
        list.push(c);
    }
    list
}

/// Whether `needle` stands at character `at` of `haystack`.
fn stands_at(haystack: &Vec<char>, needle: &Vec<char>, at: usize) -> (found: bool)
    requires
        at + needle@.len() <= haystack@.len(),
    ensures
        found == occurs_at(haystack@, needle@, at as int),
{
    let ghost window = haystack@.subrange(at as int, at + needle@.len());
    let mut i: usize = 0;
    while i < needle.len()
        invariant
            at + needle.len() <= haystack.len(),
            window == haystack@.subrange(at as int, at + needle@.len()),
            i <= needle@.len(),
            window.take(i as int) == needle@.take(i as int),
        decreases needle.len() - i,
    {
        if haystack[at + i] != needle[i] {
            assert(window[i as int] != needle@[i as int]);
            return false;
        }
        assert(window.take(i + 1) == window.take(i as int).push(window[i as int]));
        assert(needle@.take(i + 1) == needle@.take(i as int).push(needle@[i as int]));
        i = i + 1;
    }
    assert(window.take(i as int) == window);
    assert(needle@.take(i as int) == needle@);
    true
}

/// Whether `needle` occurs anywhere in `haystack`.
pub fn contains_text(haystack: &str, needle: &str) -> (found: bool)
    ensures
        found == occurs_in(haystack@, needle@),
{
    let hay: Vec<char> = characters(haystack);
    let pin: Vec<char> = characters(needle);
    if pin.len() > hay.len() {
        return false;
    }
    let last: usize = hay.len() - pin.len();
    let mut at: usize = 0;
    while at <= last
        invariant
            at <= last + 1,
            last + pin@.len() == hay@.len(),
            hay@ == haystack@,
            pin@ == needle@,
            forall|j: int| 0 <= j < at ==> !occurs_at(hay@, pin@, j),
        decreases last + 1 - at,
    {
        if stands_at(&hay, &pin, at) {
            return true;
        }
        if at == last {
            return false;
        }
        at = at + 1;
    }
    false
}

/// The path of `file` in the directory `base`: a `/` is put between them unless `base` is
/// empty or already ends in one.
pub open spec fn joined_path(base: Seq<char>, file: Seq<char>) -> Seq<char> {
    if base.len() == 0 || base.last() == '/' {
        base + file
    } else {
        base.push('/') + file
    }
}

/// Joins a directory and the relative name of a file in it.
pub fn join_path(base: &str, file: &str) -> (path: String)
    ensures
        path@ == joined_path(base@, file@),
{
    let length: usize = base.unicode_len();
    let mut path: String = base.to_owned();
    if length > 0 && base.get_char(length - 1) != '/' {
        path.append("/");
        proof {
            reveal_strlit("/");
        }
        assert(path@ == base@.push('/'));
    }
    path.append(file);
    path
}

/// Reading an optional string as text keeps every character, and nothing stays nothing.
pub proof fn law_optional_text_is_the_text(owned: String, slice: &str)
    ensures
        optional_text(Some(owned)) == Some(owned@),
        optional_text(None) is None,
        optional_str(Some(slice)) == Some(slice@),
        optional_str(None) is None,
{
}

/// Reading a list of strings as texts keeps their number, their order and every character.
pub proof fn law_texts_are_the_texts(list: Seq<String>)
    ensures
        texts(list).len() == list.len(),
        forall|i: int| 0 <= i < list.len() ==> #[trigger] texts(list)[i] == list[i]@,
{
}

/// A text occurs in another exactly if the other is that text with something before it and
/// something after it, each of which may be empty.
pub proof fn law_occurrence_splits_text(haystack: Seq<char>, needle: Seq<char>)
    ensures
        occurs_in(haystack, needle) <==> exists|before: Seq<char>, after: Seq<char>|
            haystack == #[trigger] (before + needle + after),
{
    if occurs_in(haystack, needle) {
        let at = choose|at: int| occurs_at(haystack, needle, at);
        let before = haystack.take(at);
        let after = haystack.skip(at + needle.len());
        assert(haystack =~= before + haystack.subrange(at, at + needle.len()) + after);
        assert(haystack == before + needle + after);
    }
    if exists|before: Seq<char>, after: Seq<char>| haystack == #[trigger] (before + needle + after) {
        let (before, after) = choose|before: Seq<char>, after: Seq<char>|
            haystack == #[trigger] (before + needle + after);
        let at = before.len() as int;
        assert(haystack.subrange(at, at + needle.len()) =~= needle);
        assert(occurs_at(haystack, needle, at));
    }
}

/// A joined path begins with the whole directory and ends in the whole name of the file. What
/// stands between them is one `/` where the directory has text and does not end in one, and
/// else nothing.
pub proof fn law_joined_path_keeps_both(base: Seq<char>, file: Seq<char>)
    ensures
        base.len() == 0 ==> joined_path(base, file) == file,
        base.len() > 0 && base.last() == '/' ==> joined_path(base, file) == base + file,
        base.len() > 0 && base.last() != '/' ==> joined_path(base, file) == base + seq!['/'] + file,
{
    if base.len() == 0 {
        assert(base + file =~= file);
    }
    assert(base.push('/') =~= base + seq!['/']);
}

} // verus!
