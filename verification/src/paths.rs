//! Paths of the scanned file system, as the platform's own path type sees them.

use std::path::PathBuf;
use vstd::prelude::*;

verus! {

/// `std::path::PathBuf`, carried through unread.
#[verifier::external_type_specification]
#[verifier::external_body]
pub struct ExPathBuf(std::path::PathBuf);

/// The bytes of a path, in the encoding of the platform that it belongs to.
pub uninterp spec fn path_bytes(path: PathBuf) -> Seq<u8>;

/// The separator of the platform that a path belongs to.
pub uninterp spec fn path_separator(path: PathBuf) -> char;

/// A path as text, with what is not Unicode replaced.
pub uninterp spec fn path_text(path: PathBuf) -> Seq<char>;

/// The bytes of `base` joined with `relative`, on the platform that the library is
/// built for, for which its separator stands.
pub uninterp spec fn joined_bytes(separator: char, base: Seq<u8>, relative: Seq<char>) -> Seq<u8>;

/// The components of a path with these bytes, on the platform that the library is
/// built for, for which its separator stands; each written so that components which
/// the platform takes for equal are equal.
pub uninterp spec fn components_of(separator: char, path: Seq<u8>) -> Seq<Seq<u8>>;

/// `std::path::MAIN_SEPARATOR`, which is the separator of every path of this build.
#[verifier::external_body]
pub(crate) fn separator_of(path: &PathBuf) -> (separator: char)
    ensures
        separator == path_separator(*path),
{
    std::path::MAIN_SEPARATOR
}

/// `Path::to_string_lossy`: the text of the path.
#[verifier::external_body]
pub(crate) fn text_of(path: &PathBuf) -> (text: String)
    ensures
        text@ == path_text(*path),
{
    path.to_string_lossy().into_owned()
}

/// `Path::join`: a path of the same platform, whose bytes depend on the platform, the
/// bytes of `base` and the text of `relative`, and on nothing else.
#[verifier::external_body]
pub(crate) fn join(base: &PathBuf, relative: &str) -> (path: PathBuf)
    ensures
        path_separator(path) == path_separator(*base),
        path_bytes(path) == joined_bytes(path_separator(*base), path_bytes(*base), relative@),
{
    base.join(relative)
}

/// `Path::starts_with`: whether `base` is a prefix of `path`, counting whole
/// components only.
#[verifier::external_body]
pub(crate) fn starts_with(path: &PathBuf, base: &PathBuf) -> (found: bool)
    ensures
        found == components_of(path_separator(*base), path_bytes(*base)).is_prefix_of(
            components_of(path_separator(*path), path_bytes(*path)),
        ),
{
    path.starts_with(base)
}

/// Whether some of the excluded paths is the given path or holds it.
pub open spec fn covered(components: Seq<Seq<u8>>, excludes: Seq<Seq<Seq<u8>>>) -> bool {
    exists|e: int| 0 <= e < excludes.len() && #[trigger] excludes[e].is_prefix_of(components)
}

/// The components of each of some paths.
pub open spec fn all_components(paths: Seq<PathBuf>) -> Seq<Seq<Seq<u8>>> {
    paths.map_values(|path: PathBuf| components_of(path_separator(path), path_bytes(path)))
}

/// The components of `base` joined with `relative`.
pub open spec fn joined_components(
    separator: char,
    base: Seq<u8>,
    relative: Seq<char>,
) -> Seq<Seq<u8>> {
    components_of(separator, joined_bytes(separator, base, relative))
}

/// Whether `base` joined with `relative` is one of the excluded paths or lies in one.
pub fn is_excluded(base: &PathBuf, relative: &str, excludes: &Vec<PathBuf>) -> (excluded: bool)
    ensures
        excluded == covered(
            joined_components(path_separator(*base), path_bytes(*base), relative@),
            all_components(excludes@),
        ),
        excluded <==> exists|e: int|
            0 <= e < excludes@.len() && components_of(
                path_separator(#[trigger] excludes@[e]),
                path_bytes(excludes@[e]),
            ).is_prefix_of(
                components_of(
                    path_separator(*base),
                    joined_bytes(path_separator(*base), path_bytes(*base), relative@),
                ),
            ),
{
    proof {
        every_exclude_counts(*base, relative@, excludes@);
    }
    let full = join(base, relative);
    let ghost components = joined_components(
        path_separator(*base),
        path_bytes(*base),
        relative@,
    );
    let ghost all = all_components(excludes@);
    let mut i: usize = 0;
    while i < excludes.len()
        invariant
            i <= excludes@.len(),
            components == components_of(path_separator(full), path_bytes(full)),
            components == joined_components(
                path_separator(*base),
                path_bytes(*base),
                relative@,
            ),
            all == all_components(excludes@),
            forall|e: int| 0 <= e < i ==> !(#[trigger] all[e].is_prefix_of(components)),
        decreases excludes@.len() - i,
    {
        if starts_with(&full, &excludes[i]) {
            proof {
                assert(all[i as int].is_prefix_of(components));
            }
            return true;
        }
        i = i + 1;
    }
    false
}

/// Every exclude counts, and nothing else does: a path is excluded exactly when the
/// components of some exclude, at whatever place in the list, are a prefix of its own.
pub proof fn every_exclude_counts(base: PathBuf, relative: Seq<char>, excludes: Seq<PathBuf>)
    ensures
        covered(
            joined_components(path_separator(base), path_bytes(base), relative),
            all_components(excludes),
        ) <==> exists|e: int|
            0 <= e < excludes.len() && components_of(
                path_separator(#[trigger] excludes[e]),
                path_bytes(excludes[e]),
            ).is_prefix_of(
                components_of(
                    path_separator(base),
                    joined_bytes(path_separator(base), path_bytes(base), relative),
                ),
            ),
{
    let path = joined_components(path_separator(base), path_bytes(base), relative);
    let all = all_components(excludes);
    if covered(path, all) {
        let e = choose|e: int| 0 <= e < all.len() && #[trigger] all[e].is_prefix_of(path);
        assert(all[e] == components_of(path_separator(excludes[e]), path_bytes(excludes[e])));
    }
    if exists|e: int|
        0 <= e < excludes.len() && components_of(
            path_separator(#[trigger] excludes[e]),
            path_bytes(excludes[e]),
        ).is_prefix_of(path) {
        let e = choose|e: int|
            0 <= e < excludes.len() && components_of(
                path_separator(#[trigger] excludes[e]),
                path_bytes(excludes[e]),
            ).is_prefix_of(path);
        assert(all[e].is_prefix_of(path));
    }
}

/// With one more exclude, at whatever place, what was excluded stays so, and only what
/// lies in the new one is excluded besides.
pub proof fn one_more_exclude(
    components: Seq<Seq<u8>>,
    before: Seq<Seq<Seq<u8>>>,
    exclude: Seq<Seq<u8>>,
    after: Seq<Seq<Seq<u8>>>,
)
    ensures
        covered(components, before + seq![exclude] + after) <==> covered(components, before + after)
            || exclude.is_prefix_of(components),
        !covered(components, Seq::empty()),
{
    let fewer = before + after;
    let more = before + seq![exclude] + after;
    assert forall|e: int| 0 <= e < fewer.len() implies fewer[e] == more[if e < before.len() {
        e
    } else {
        e + 1
    }] by {}
    if covered(components, fewer) {
        let e = choose|e: int| 0 <= e < fewer.len() && #[trigger] fewer[e].is_prefix_of(components);
        let at = if e < before.len() {
            e
        } else {
            e + 1
        };
        assert(more[at].is_prefix_of(components));
    }
    if exclude.is_prefix_of(components) {
        assert(more[before.len() as int].is_prefix_of(components));
    }
    if covered(components, more) {
        let e = choose|e: int| 0 <= e < more.len() && #[trigger] more[e].is_prefix_of(components);
        if e != before.len() {
            let at = if e < before.len() {
                e
            } else {
                e - 1
            };
            assert(fewer[at] == more[e]);
            assert(fewer[at].is_prefix_of(components));
        }
    }
}

/// What lies in an excluded path is excluded too.
pub proof fn exclusion_reaches_down(
    outer: Seq<Seq<u8>>,
    inner: Seq<Seq<u8>>,
    excludes: Seq<Seq<Seq<u8>>>,
)
    requires
        outer.is_prefix_of(inner),
        covered(outer, excludes),
    ensures
        covered(inner, excludes),
{
    let e = choose|e: int| 0 <= e < excludes.len() && #[trigger] excludes[e].is_prefix_of(outer);
    assert(excludes[e] =~= inner.subrange(0, excludes[e].len() as int)) by {
        assert(outer =~= inner.subrange(0, outer.len() as int));
        assert(excludes[e] =~= outer.subrange(0, excludes[e].len() as int));
    }
    assert(excludes[e].is_prefix_of(inner));
}

} // verus!
