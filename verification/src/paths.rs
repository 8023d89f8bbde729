//! Paths as text: the final component of a path and its extension.
//!
//! A path is a sequence of characters whose components are separated by `/`.

use vstd::prelude::*;

verus! {

/// The index of the last `c` in `s`, or `-1` where `s` holds none.
pub open spec fn last_index_of(s: Seq<char>, c: char) -> int
    decreases s.len(),
{
    if s.len() == 0 {
        -1
    } else if s.last() == c {
        s.len() - 1
    } else {
        last_index_of(s.drop_last(), c)
    }
}

/// The final component of `path`: what follows its last `/`, or all of it.
pub open spec fn file_name_of(path: Seq<char>) -> Seq<char> {
    path.skip(last_index_of(path, '/') + 1)
}

/// The extension of `path`: what follows the last `.` of its final component.
/// There is none where that component holds no `.`, where its only `.` is its
/// first character, and where it is `..`.
pub open spec fn extension_of(path: Seq<char>) -> Option<Seq<char>> {
    let name = file_name_of(path);
    let dot = last_index_of(name, '.');
    if dot <= 0 || name =~= seq!['.', '.'] {
        None
    } else {
        Some(name.skip(dot + 1))
    }
}

/// `path` without its extension and the `.` before it; `path` itself where it
/// has no extension.
pub open spec fn stem_of(path: Seq<char>) -> Seq<char> {
    match extension_of(path) {
        Some(ext) => path.take(path.len() - ext.len() - 1),
        None => path,
    }
}

/// Whether `path` names a `.tar.xz` archive: its extension is `xz`, and `tar`
/// once that is taken off.
pub open spec fn is_tar_xz_path(path: Seq<char>) -> bool {
    extension_of(path) == Some("xz"@) && extension_of(stem_of(path)) == Some("tar"@)
}

/// Whether `path` names a save: its extension is `zip`, in lower case.
pub open spec fn is_zip_path(path: Seq<char>) -> bool {
    extension_of(path) == Some("zip"@)
}

/// Whether `text` ends with `suffix`.
pub open spec fn ends_with(text: Seq<char>, suffix: Seq<char>) -> bool {
    suffix.len() <= text.len() && text.skip(text.len() - suffix.len()) == suffix
}

/// `path` seen from the directory `base`. A `path` that begins with `/` stands
/// for itself. Any other is put behind `base`, with a `/` between the two
/// unless `base` is empty or ends with one.
pub open spec fn join_of(base: Seq<char>, path: Seq<char>) -> Seq<char> {
    if path.len() > 0 && path[0] == '/' {
        path
    } else if base.len() == 0 || base.last() == '/' {
        base + path
    } else {
        base + seq!['/'] + path
    }
}

/// The directory that holds the final component of `path`: what stands before
/// its last `/`. That is `/` for a path directly under the root and the empty
/// path for a single name. The empty path and `/` have none.
pub open spec fn parent_of(path: Seq<char>) -> Option<Seq<char>> {
    let slash = last_index_of(path, '/');
    if path.len() == 0 || path =~= seq!['/'] {
        None
    } else if slash < 0 {
        Some(Seq::empty())
    } else if slash == 0 {
        Some(seq!['/'])
    } else {
        Some(path.take(slash))
    }
}

/// `last_index_of` finds an occurrence, and none comes after it.
pub proof fn lemma_last_index_of(s: Seq<char>, c: char)
    ensures
        -1 <= last_index_of(s, c) < s.len(),
        last_index_of(s, c) >= 0 ==> s[last_index_of(s, c)] == c,
        forall|j: int| last_index_of(s, c) < j < s.len() ==> s[j] != c,
    decreases s.len(),
{
    if s.len() > 0 && s.last() != c {
        lemma_last_index_of(s.drop_last(), c);
        assert forall|j: int| last_index_of(s, c) < j < s.len() implies s[j] != c by {
            if j < s.len() - 1 {
                assert(s.drop_last()[j] == s[j]);
            }
        }
    }
}

/// Where the last `c` of `s` stands, if there is one.
pub fn find_last(s: &str, c: char) -> (found: Option<usize>)
    ensures
        match found {
            Some(i) => i == last_index_of(s@, c),
            None => last_index_of(s@, c) == -1,
        },
{
    let mut i: usize = s.unicode_len();
    assert(s@.take(i as int) =~= s@);
    while i > 0
        invariant
            i <= s@.len(),
            last_index_of(s@, c) == last_index_of(s@.take(i as int), c),
        decreases i,
    {
        if s.get_char(i - 1) == c {
            return Some(i - 1);
        }
        assert(s@.take(i as int).drop_last() =~= s@.take(i - 1));
        i -= 1;
    }
    None
}

/// Whether `text` ends with `suffix`.
pub fn has_suffix(text: &str, suffix: &str) -> (b: bool)
    ensures
        b == ends_with(text@, suffix@),
{
    let len: usize = text.unicode_len();
    let suffix_len: usize = suffix.unicode_len();
    if suffix_len > len {
        return false;
    }
    let tail = text.substring_char(len - suffix_len, len);
    assert(tail@ =~= text@.skip(len - suffix_len));
    tail.to_owned() == suffix.to_owned()
}

/// `path` seen from the directory `base`, as `join_of` defines it.
pub fn join(base: &str, path: &str) -> (joined: String)
    ensures
        joined@ == join_of(base@, path@),
{
    let base_len: usize = base.unicode_len();
    if path.unicode_len() > 0 && path.get_char(0) == '/' {
        path.to_owned()
    } else if base_len == 0 || base.get_char(base_len - 1) == '/' {
        base.to_owned().concat(path)
    } else {
        proof {
            reveal_strlit("/");
            assert("/"@ =~= seq!['/']);
        }
        base.to_owned().concat("/").concat(path)
    }
}

/// The directory that holds the final component of `path`, as `parent_of`
/// defines it.
pub fn parent(path: &str) -> (dir: Option<String>)
    ensures
        match dir {
            Some(dir) => parent_of(path@) == Some(dir@),
            None => parent_of(path@) is None,
        },
{
    let len: usize = path.unicode_len();
    proof {
        lemma_last_index_of(path@, '/');
    }
    if len == 0 {
        return None;
    }
    match find_last(path, '/') {
        None => Some(String::new()),
        Some(slash) => {
            if slash == 0 {
                if len == 1 {
                    assert(path@ =~= seq!['/']);
                    None
                } else {
                    proof {
                        reveal_strlit("/");
                        assert("/"@ =~= seq!['/']);
                    }
                    Some("/".to_owned())
                }
            } else {
                let dir = path.substring_char(0, slash);
                assert(dir@ =~= path@.take(slash as int));
                Some(dir.to_owned())
            }
        },
    }
}

/// The extension of `path`, as `extension_of` defines it.
pub fn extension(path: &str) -> (ext: Option<String>)
    ensures
        match ext {
            Some(e) => extension_of(path@) == Some(e@),
            None => extension_of(path@) is None,
        },
{
    let len: usize = path.unicode_len();
    proof {
        lemma_last_index_of(path@, '/');
    }
    let start: usize = match find_last(path, '/') {
        Some(i) => i + 1,
        None => 0,
    };
    let name = path.substring_char(start, len);
    assert(name@ =~= file_name_of(path@));
    let name_len: usize = len - start;
    proof {
        lemma_last_index_of(name@, '.');
    }
    match find_last(name, '.') {
        None => None,
        Some(dot) => {
            if dot == 0 {
                None
            } else if name_len == 2 && name.get_char(0) == '.' {
                assert(name@ =~= seq!['.', '.']);
                None
            } else {
                assert(!(name@ =~= seq!['.', '.'])) by {
                    if name@ =~= seq!['.', '.'] {
                        assert(name@.len() == 2);
                        assert(name@[0] == '.');
                    }
                }
                let ext = name.substring_char(dot + 1, name_len);
                assert(ext@ =~= name@.skip(dot + 1));
                Some(ext.to_owned())
            }
        },
    }
}

/// Whether the extension of `path` is `ext`.
pub fn has_extension(path: &str, ext: &str) -> (b: bool)
    ensures
        b == (extension_of(path@) == Some(ext@)),
{
    match extension(path) {
        Some(found) => found == ext.to_owned(),
        None => false,
    }
}

/// An extension and the `.` before it are shorter than the path they end.
pub proof fn lemma_extension_is_suffix(path: Seq<char>)
    requires
        extension_of(path) is Some,
    ensures
        extension_of(path)->0.len() < path.len(),
        path.skip(path.len() - extension_of(path)->0.len()) == extension_of(path)->0,
        path[path.len() - extension_of(path)->0.len() - 1] == '.',
{
    let name = file_name_of(path);
    lemma_last_index_of(path, '/');
    lemma_last_index_of(name, '.');
    let start = last_index_of(path, '/') + 1;
    let dot = last_index_of(name, '.');
    assert(name.skip(dot + 1) =~= path.skip(start + dot + 1));
    assert(name[dot] == path[start + dot]);
}

/// `path` without its extension, as `stem_of` defines it.
pub fn without_extension(path: &str) -> (stem: String)
    ensures
        stem@ == stem_of(path@),
{
    match extension(path) {
        Some(ext) => {
            proof {
                lemma_extension_is_suffix(path@);
            }
            let keep: usize = path.unicode_len() - ext.as_str().unicode_len() - 1;
            let stem = path.substring_char(0, keep);
            assert(stem@ =~= path@.take(keep as int));
            stem.to_owned()
        },
        None => path.to_owned(),
    }
}

/// Whether `path` names a save file.
pub fn is_zip(path: &str) -> (b: bool)
    ensures
        b == is_zip_path(path@),
{
    has_extension(path, "zip")
}

/// Whether `path` names a `.tar.xz` archive.
pub fn is_tar_xz(path: &str) -> (b: bool)
    ensures
        b == is_tar_xz_path(path@),
{
    has_extension(path, "xz") && has_extension(without_extension(path).as_str(), "tar")
}

} // verus!
