//! Text helpers shared by the extractor and the type projections.

use vstd::prelude::*;
use vstd::string::*;

verus! {

/// Whether two string slices hold the same characters.
///
/// Trusted: this is `==` on `str`, which compares the UTF-8 bytes of the two
/// slices. Two valid strings have equal bytes exactly when they have equal
/// character sequences.
#[verifier::external_body]
pub(crate) fn same_text(a: &str, b: &str) -> (same: bool)
    ensures
        same == (a@ == b@),
{
    a == b
}

/// Appends one character to a string.
///
/// Trusted: this is `String::push`, which appends the given character to the
/// end of the string and leaves what was there untouched.
#[verifier::external_body]
pub(crate) fn push_char(text: &mut String, c: char)
    ensures
        final(text)@ == old(text)@.push(c),
{
    text.push(c)
}

/// Whether `extension` can be the extension of the file that `path` names:
/// it stands in the path directly behind a `.`, and holds no `.` itself.
pub open spec fn is_extension_in(path: Seq<char>, extension: Seq<char>) -> bool {
    &&& !extension.contains('.')
    &&& exists|dot: int|
        0 <= dot < path.len() && path[dot] == '.' && dot + 1 + extension.len() <= path.len()
            && #[trigger] path.subrange(dot + 1, dot + 1 + extension.len()) == extension
}

/// The extension of the file that a path names, if it has one.
///
/// Trusted: this is `Path::extension` of std, on a path made from `path` and
/// with the result turned back into a string. Where std finds an extension,
/// it is the portion of the file name after the final `.`: it stands in the
/// path behind a `.` and holds none. Which part of a path is the file name
/// depends on the platform's path syntax, so nothing is stated of when an
/// extension is found.
#[verifier::external_body]
pub(crate) fn file_extension(path: &str) -> (extension: Option<String>)
    ensures
        extension matches Some(found) ==> is_extension_in(path@, found@),
{
    std::path::Path::new(path).extension().and_then(|e| e.to_str()).map(|e| e.to_string())
}

/// The parts written one after another with `sep` between neighbours.
pub open spec fn join(parts: Seq<Seq<char>>, sep: Seq<char>) -> Seq<char>
    decreases parts.len(),
{
    if parts.len() == 0 {
        Seq::empty()
    } else if parts.len() == 1 {
        parts[0]
    } else {
        join(parts.drop_last(), sep) + sep + parts.last()
    }
}

/// The parts written one after another with nothing between them.
pub open spec fn concat_all(parts: Seq<Seq<char>>) -> Seq<char>
    decreases parts.len(),
{
    if parts.len() == 0 {
        Seq::empty()
    } else {
        concat_all(parts.drop_last()) + parts.last()
    }
}

/// Joining one more part appends the separator and the part, except after
/// nothing.
pub proof fn lemma_join_push(parts: Seq<Seq<char>>, sep: Seq<char>, last: Seq<char>)
    ensures
        join(parts.push(last), sep) == if parts.len() == 0 {
            last
        } else {
            join(parts, sep) + sep + last
        },
{
    let all = parts.push(last);
    assert(all.drop_last() =~= parts);
    assert(all.last() == last);
    if parts.len() == 0 {
        assert(all[0] == last);
    }
}

/// Concatenating the first `n + 1` parts appends part `n` to the
/// concatenation of the first `n`.
pub proof fn lemma_concat_all_take(parts: Seq<Seq<char>>, n: int)
    requires
        0 <= n < parts.len(),
    ensures
        concat_all(parts.take(n + 1)) == concat_all(parts.take(n)) + parts[n],
{
    assert(parts.take(n + 1).drop_last() =~= parts.take(n));
    assert(parts.take(n + 1).last() == parts[n]);
}

/// Pushing onto a vector pushes the element's view onto the vector's deep
/// view.
pub proof fn lemma_deep_view_push<T: DeepView>(before: Vec<T>, after: Vec<T>, last: T)
    requires
        after@ == before@.push(last),
    ensures
        after.deep_view() == before.deep_view().push(last.deep_view()),
{
    assert(after.deep_view() =~= before.deep_view().push(last.deep_view()));
}

/// A copy of a string that may be absent.
pub fn clone_opt_text(text: &Option<String>) -> (copy: Option<String>)
    ensures
        copy.deep_view() == text.deep_view(),
{
    match text {
        Some(t) => Some(t.clone()),
        None => None,
    }
}

/// A copy of a list of strings.
pub fn clone_texts(texts: &Vec<String>) -> (copy: Vec<String>)
    ensures
        copy.deep_view() == texts.deep_view(),
{
    let mut copy: Vec<String> = Vec::new();
    let mut i: usize = 0;
    while i < texts.len()
        invariant
            i <= texts.len(),
            copy.len() == i,
            forall|k: int| 0 <= k < i ==> copy@[k]@ == texts@[k]@,
        decreases texts.len() - i,
    {
        copy.push(texts[i].clone());
        i += 1;
    }
    assert(copy.deep_view() =~= texts.deep_view());
    copy
}

/// Whether `needle` is one of `texts`.
pub fn contains_text(texts: &Vec<String>, needle: &str) -> (found: bool)
    ensures
        found == texts.deep_view().contains(needle@),
{
    let mut i: usize = 0;
    while i < texts.len()
        invariant
            i <= texts.len(),
            forall|k: int| 0 <= k < i ==> texts@[k]@ != needle@,
        decreases texts.len() - i,
    {
        if same_text(texts[i].as_str(), needle) {
            assert(texts.deep_view()[i as int] == needle@);
            return true;
        }
        i += 1;
    }
    assert forall|k: int| 0 <= k < texts.deep_view().len() implies texts.deep_view()[k]
        != needle@ by {
        assert(texts.deep_view()[k] == texts@[k]@);
    }
    false
}

} // verus!
