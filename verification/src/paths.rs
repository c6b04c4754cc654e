//! Paths of files, as texts, and the documents' addresses that they come from.

use std::path::Path;
use std::str::FromStr;

use tower_lsp_server::lsp_types::Uri;
use tower_lsp_server::UriExt;
use vstd::prelude::*;
use vstd::utf8::encode_utf8;

use crate::text::{same_text, texts};

verus! {

/// The file path that `UriExt::to_file_path` of `tower_lsp_server` makes of an address of at most
/// `i32::MAX` bytes. There is none where the text is not an address at all.
pub uninterp spec fn uri_file_path(uri: Seq<char>) -> Option<Seq<char>>;

/// The components that `Path::components` divides a path into.
pub uninterp spec fn path_components(path: Seq<char>) -> Seq<Seq<char>>;

/// The directory that `Path::parent` finds for a path.
pub uninterp spec fn path_parent(path: Seq<char>) -> Option<Seq<char>>;

/// The path that `Path::join` makes of a directory and a path.
pub uninterp spec fn path_join(base: Seq<char>, path: Seq<char>) -> Seq<char>;

/// The file path of a document's address. A text of more than `i32::MAX` bytes is too long for an
/// address.
pub open spec fn document_path(uri: Seq<char>) -> Option<Seq<char>> {
    if encode_utf8(uri).len() <= i32::MAX {
        uri_file_path(uri)
    } else {
        None
    }
}

/// Whether components end in one that is a name.
pub open spec fn last_is_name(components: Seq<Seq<char>>) -> bool {
    &&& components.len() > 0
    &&& components.last() != "/"@
    &&& components.last() != "."@
    &&& components.last() != ".."@
}

/// The name at the end of a path: its last component, where that is a name.
pub open spec fn path_file_name(path: Seq<char>) -> Option<Seq<char>> {
    if last_is_name(path_components(path)) {
        Some(path_components(path).last())
    } else {
        None
    }
}

/// The components of a path adjoined to a directory, from the components of the two. A path from the
/// root takes the place of the directory. A leading `.` stays only where nothing stands before it.
pub open spec fn joined_components(
    base: Seq<Seq<char>>,
    path: Seq<Seq<char>>,
) -> Seq<Seq<char>> {
    if base.len() == 0 || path.len() == 0 {
        base + path
    } else if path.first() == "/"@ {
        path
    } else if path.first() == "."@ {
        base + path.drop_first()
    } else {
        base + path
    }
}

/// Whether `path` is `base` or lies below it: only whole components count.
pub open spec fn path_within(path: Seq<char>, base: Seq<char>) -> bool {
    path_components(base).is_prefix_of(path_components(path))
}

/// The address of a document, parsed by `Uri::from_str` and turned into a path by
/// `UriExt::to_file_path`, both of `tower_lsp_server`. The path is the address's own one with its
/// percent signs decoded, and replacement characters for what is not UTF-8, so it is a text. The
/// parser panics on a text of more than `i32::MAX` bytes. All this is what the calls do on every
/// platform but Windows, for which nothing is claimed.
#[verifier::external_body]
fn to_file_path(uri: &str) -> (path: Option<String>)
    requires
        encode_utf8(uri@).len() <= i32::MAX,
    ensures
        path is Some <==> uri_file_path(uri@) is Some,
        path matches Some(p) ==> Some(p@) == uri_file_path(uri@),
{
    let uri = Uri::from_str(uri).ok()?;
    let path = uri.to_file_path()?;
    Some(path.to_string_lossy().into_owned())
}

/// `Path::components`: the components of a path, each as a text.
#[verifier::external_body]
fn components(path: &str) -> (names: Vec<String>)
    ensures
        texts(names@) == path_components(path@),
{
    Path::new(path).components().map(|c| c.as_os_str().to_string_lossy().into_owned()).collect()
}

/// `Path::file_name`: the final component of a path, where that is a name. On Unix the components
/// that are no names are the root, `.` and `..`.
#[verifier::external_body]
pub(crate) fn file_name(path: &str) -> (name: Option<String>)
    ensures
        name is Some <==> path_file_name(path@) is Some,
        name matches Some(n) ==> Some(n@) == path_file_name(path@),
{
    Path::new(path).file_name().map(|n| n.to_string_lossy().into_owned())
}

/// `Path::parent`: the path without its final component. There is none for the empty path, which has
/// no component, and for one that ends in the root, which on Unix is `/`.
#[verifier::external_body]
pub(crate) fn parent(path: &str) -> (dir: Option<String>)
    ensures
        dir is Some <==> path_parent(path@) is Some,
        dir matches Some(d) ==> Some(d@) == path_parent(path@),
        dir matches Some(d) ==> path_components(path@).len() > 0 && path_components(d@)
            == path_components(path@).drop_last(),
        dir is None <==> path_components(path@).len() == 0 || path_components(path@).last() == "/"@,
        path@.len() == 0 ==> dir is None,
{
    Path::new(path).parent().map(|p| p.to_string_lossy().into_owned())
}

/// `Path::join`: a path adjoined to a directory, or the path alone where it is absolute. What is
/// said of the components holds on Unix; nothing is claimed of them for Windows, where a path can
/// have a prefix such as a drive.
#[verifier::external_body]
pub(crate) fn join(base: &str, path: &str) -> (joined: String)
    ensures
        joined@ == path_join(base@, path@),
        path_components(joined@) == joined_components(
            path_components(base@),
            path_components(path@),
        ),
{
    Path::new(base).join(path).to_string_lossy().into_owned()
}

/// The file path of a document's address, if it has one.
pub fn file_path(uri: &str) -> (path: Option<String>)
    ensures
        path is Some <==> document_path(uri@) is Some,
        path matches Some(p) ==> Some(p@) == document_path(uri@),
{
    if uri.as_bytes().len() <= i32::MAX as usize {
        to_file_path(uri)
    } else {
        None
    }
}

/// Whether `path` is `base` or lies below it: only whole components count.
pub fn is_within(path: &str, base: &str) -> (within: bool)
    ensures
        within == path_within(path@, base@),
{
    let names = components(path);
    let base_names = components(base);
    proof {
        assert(texts(names@).len() == names@.len());
        assert(texts(base_names@).len() == base_names@.len());
    }
    if base_names.len() > names.len() {
        return false;
    }
    let mut i: usize = 0;
    while i < base_names.len()
        invariant
            i <= base_names.len() <= names.len(),
            texts(names@) == path_components(path@),
            texts(base_names@) == path_components(base@),
            forall|j: int| 0 <= j < i ==> base_names@[j]@ == names@[j]@,
        decreases base_names.len() - i,
    {
        if !same_text(base_names[i].as_str(), names[i].as_str()) {
            proof {
                assert(texts(base_names@)[i as int] != texts(names@)[i as int]);
                if path_within(path@, base@) {
                    assert(path_components(base@) =~= path_components(path@).take(
                        path_components(base@).len() as int,
                    ));
                }
            }
            return false;
        }
        i += 1;
    }
    assert(path_components(base@) =~= path_components(path@).take(base_names@.len() as int));
    true
}

/// A path lies in a directory exactly where its components are those of the directory and then
/// some, or none.
pub proof fn paths_below_go_on_from_the_directory(
    path: Seq<char>,
    base: Seq<char>,
    rest: Seq<Seq<char>>,
)
    ensures
        path_components(path) == path_components(base) + rest ==> path_within(path, base),
        path_within(path, base) ==> exists|r: Seq<Seq<char>>|
            path_components(path) == #[trigger] (path_components(base) + r),
        path_within(base, base),
{
    let below = path_components(path);
    let above = path_components(base);
    if below == above + rest {
        assert(above =~= below.take(above.len() as int));
    }
    if path_within(path, base) {
        assert(below =~= above + below.skip(above.len() as int));
    }
    assert(above =~= above.take(above.len() as int));
}

/// The path of a document's address is what the address stands for, and only a text that is too
/// long for an address has none on that account.
pub proof fn addresses_stand_for_their_paths(uri: Seq<char>)
    ensures
        encode_utf8(uri).len() <= 0x7fff_ffff ==> document_path(uri) == uri_file_path(uri),
        encode_utf8(uri).len() > 0x7fff_ffff ==> document_path(uri) is None,
{
}

/// The name at the end of a path is its last component, and there is none where that is the root,
/// `.` or `..`.
pub proof fn names_are_last_components(path: Seq<char>, name: Seq<char>)
    ensures
        path_file_name(path) == Some(name) ==> path_components(path).len() > 0
            && path_components(path).last() == name,
        path_components(path).len() == 0 ==> path_file_name(path) is None,
        path_components(path).len() > 0 ==> (path_file_name(path) is None <==> {
            ||| path_components(path).last() == "/"@
            ||| path_components(path).last() == "."@
            ||| path_components(path).last() == ".."@
        }),
{
}

/// A path adjoined to a directory goes on from it, but for a leading `.`, and a path from the root
/// stays as it is.
pub proof fn joined_paths_go_on_from_the_directory(
    base: Seq<Seq<char>>,
    first: Seq<char>,
    rest: Seq<Seq<char>>,
)
    ensures
        joined_components(base, Seq::empty()) == base,
        joined_components(Seq::empty(), rest) == rest,
        first == "/"@ ==> joined_components(base, seq![first] + rest) == seq![first] + rest,
        first == "."@ && base.len() > 0 ==> joined_components(base, seq![first] + rest) == base
            + rest,
        first != "/"@ && first != "."@ ==> joined_components(base, seq![first] + rest) == base + (
        seq![first] + rest),
{
    reveal_strlit("/");
    reveal_strlit(".");
    assert("/"@[0] != "."@[0]);
    let path = seq![first] + rest;
    assert(path.first() == first);
    assert(path.drop_first() =~= rest);
    assert(base + Seq::<Seq<char>>::empty() =~= base);
    assert(Seq::<Seq<char>>::empty() + rest =~= rest);
    assert(Seq::<Seq<char>>::empty() + path =~= path);
}

} // verus!
