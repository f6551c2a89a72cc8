use crate::text::text_of;
use vstd::prelude::*;
use vstd::string::StringExecFns;

verus! {

/// The place of the last `c` in `s`, and `-1` where `s` holds none.
pub open spec fn last_index_of(s: Seq<char>, c: char) -> int
    decreases s.len(),
{
    if s.len() == 0 {
        -1
    } else if s.last() == c {
        s.len() - 1
    } else {
        last_index_of(s.drop_last(), c)
    }
}

/// The stem of a file name: what stands before its last dot; the whole name
/// where it has no dot, or none but a leading one.
pub open spec fn file_stem(file_name: Seq<char>) -> Seq<char> {
    let dot = last_index_of(file_name, '.');
    if dot <= 0 {
        file_name
    } else {
        file_name.subrange(0, dot)
    }
}

/// The extension of a file name: what stands after its last dot; none where
/// it has no dot, or none but a leading one.
pub open spec fn file_extension(file_name: Seq<char>) -> Option<Seq<char>> {
    let dot = last_index_of(file_name, '.');
    if dot <= 0 {
        None
    } else {
        Some(file_name.subrange(dot + 1, file_name.len() as int))
    }
}

/// `last_index_of` is `-1` exactly for a text without `c`, and otherwise the
/// place of a `c` after which no other comes.
pub proof fn lemma_last_index_of(s: Seq<char>, c: char)
    ensures
        -1 <= last_index_of(s, c) < s.len(),
        last_index_of(s, c) == -1 <==> !s.contains(c),
        last_index_of(s, c) >= 0 ==> s[last_index_of(s, c)] == c,
        forall|j: int| last_index_of(s, c) < j < s.len() ==> s[j] != c,
    decreases s.len(),
{
    if s.len() == 0 {
    } else if s.last() == c {
        assert(s[s.len() - 1] == c);
    } else {
        let rest = s.drop_last();
        lemma_last_index_of(rest, c);
        if rest.contains(c) {
            let j = choose|j: int| 0 <= j < rest.len() && rest[j] == c;
            assert(s[j] == c);
        }
        if s.contains(c) {
            let j = choose|j: int| 0 <= j < s.len() && s[j] == c;
            assert(rest[j] == c);
        }
        assert forall|j: int| last_index_of(s, c) < j < s.len() implies s[j] != c by {
            if j < rest.len() {
                assert(rest[j] == s[j]);
            }
        }
    }
}

/// Where a text is `before`, then `c`, then an `after` without `c`, its last
/// `c` stands right after `before`.
pub proof fn lemma_last_index_of_split(s: Seq<char>, c: char, before: Seq<char>, after: Seq<char>)
    requires
        s == before + seq![c] + after,
        !after.contains(c),
    ensures
        last_index_of(s, c) == before.len(),
{
    lemma_last_index_of(s, c);
    let at = before.len() as int;
    assert(s[at] == c);
    let got = last_index_of(s, c);
    if got > at {
        assert(after[got - at - 1] == s[got]);
        assert(after.contains(c));
    }
}

/// `str::rsplit_once` with the delimiter `.`: the text before the last dot
/// and the text after it, and nothing for a text without a dot.
#[verifier::external_body]
fn split_at_last_dot<'a>(s: &'a str) -> (r: Option<(&'a str, &'a str)>)
    ensures
        match r {
            Some((before, after)) => s@ == before@ + seq!['.'] + after@ && !after@.contains('.'),
            None => !s@.contains('.'),
        },
{
    s.rsplit_once('.')
}

/// The stem and the extension of a file name.
pub fn split_file_name(file_name: &str) -> (r: (String, Option<String>))
    ensures
        r.0@ == file_stem(file_name@),
        text_of(r.1) == file_extension(file_name@),
{
    proof {
        lemma_last_index_of(file_name@, '.');
    }
    match split_at_last_dot(file_name) {
        None => (String::from_str(file_name), None),
        Some((before, after)) => {
            proof {
                lemma_last_index_of_split(file_name@, '.', before@, after@);
                assert(file_name@.subrange(0, before@.len() as int) =~= before@);
                assert(file_name@.subrange(before@.len() as int + 1, file_name@.len() as int)
                    =~= after@);
            }
            if before.unicode_len() == 0 {
                (String::from_str(file_name), None)
            } else {
                (String::from_str(before), Some(String::from_str(after)))
            }
        },
    }
}

/// `base` with `part` adjoined, as `std::path::Path::join` does it on the
/// platform that the library is built for.
pub uninterp spec fn joined_path(base: Seq<char>, part: Seq<char>) -> Seq<char>;

/// `std::path::Path::join` on two texts: the result is `joined_path` of
/// them. Both are valid Unicode, so nothing is lost in writing the result
/// as a text.
#[verifier::external_body]
pub(crate) fn join_path(base: &str, part: &str) -> (r: String)
    ensures
        r@ == joined_path(base@, part@),
{
    std::path::Path::new(base).join(part).to_string_lossy().to_string()
}

/// The components of a path, as `std::path::Path::iter` gives them on the
/// platform that the library is built for.
pub uninterp spec fn path_components(path: Seq<char>) -> Seq<Seq<char>>;

/// `std::path::Path::iter` on a text, each component written as a text: the
/// result is `path_components` of it.
#[verifier::external_body]
pub(crate) fn split_path(path: &str) -> (r: Vec<String>)
    ensures
        r@.map_values(|s: String| s@) == path_components(path@),
{
    std::path::Path::new(path).iter().map(|part| part.to_string_lossy().to_string()).collect()
}

/// `dirs::home_dir`, written as a text: the user's home folder as the
/// environment gives it, if it gives one. Nothing is known of it.
#[verifier::external_body]
pub(crate) fn home_dir() -> (r: Option<String>) {
    dirs::home_dir().map(|p| p.to_string_lossy().to_string())
}

} // verus!
