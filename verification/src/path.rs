//! Paths as text. A path is a sequence of names separated by `/`; the last
//! name may end in an extension, which begins at its last `.` unless that is
//! its first character.

use crate::error::Error;
use crate::text::{chars_of, string_of, substring};
use vstd::prelude::*;

verus! {

/// The index of the last `c` in `s`, or -1 where `s` holds none.
pub open spec fn last_index_of(s: Seq<char>, c: char) -> int
    decreases s.len(),
{
    if s.len() == 0 {
        -1
    } else if s.last() == c {
        s.len() - 1
    } else {
        last_index_of(s.drop_last(), c)
    }
}

/// The last name of a path: what follows its last `/`.
pub open spec fn file_name(path: Seq<char>) -> Seq<char> {
    path.skip(last_index_of(path, '/') + 1)
}

/// The length of a name without its extension.
pub open spec fn stem_len(name: Seq<char>) -> int {
    let dot = last_index_of(name, '.');
    if dot <= 0 {
        name.len() as int
    } else {
        dot
    }
}

/// A name without its extension.
pub open spec fn file_stem(name: Seq<char>) -> Seq<char> {
    name.take(stem_len(name))
}

/// `s` without the `/` characters at its end.
pub open spec fn trim_slashes(s: Seq<char>) -> Seq<char>
    decreases s.len(),
{
    if s.len() > 0 && s.last() == '/' {
        trim_slashes(s.drop_last())
    } else {
        s
    }
}

/// The directory that an archive is extracted into: the archive's path
/// without the extension of its last name.
pub open spec fn spec_data_path(path: Seq<char>) -> Seq<char> {
    let cut = last_index_of(path, '/') + 1;
    path.take(cut + stem_len(path.skip(cut)))
}

/// The directory part of a path: what stands before its last `/`, without
/// the `/` characters at its end. `None` where the path holds no `/`.
pub open spec fn parent_dir(path: Seq<char>) -> Option<Seq<char>> {
    let slash = last_index_of(path, '/');
    if slash < 0 {
        None
    } else {
        Some(trim_slashes(path.take(slash)))
    }
}

/// The site that a file belongs to: the name of the directory that holds
/// it, without that name's extension. `None` where the path names no such
/// directory.
pub open spec fn spec_site(path: Seq<char>) -> Option<Seq<char>> {
    match parent_dir(path) {
        None => None,
        Some(dir) => {
            let name = file_name(dir);
            if name.len() == 0 || name == seq!['.', '.'] {
                None
            } else {
                Some(file_stem(name))
            }
        },
    }
}

/// `name` inside the directory `base`. A name that begins with `/` stands
/// for itself.
pub open spec fn spec_join_path(base: Seq<char>, name: Seq<char>) -> Seq<char> {
    if name.len() > 0 && name[0] == '/' {
        name
    } else if base.len() == 0 || base.last() == '/' {
        base + name
    } else {
        base + seq!['/'] + name
    }
}

/// Where the last `c` stands: it is a `c`, and none follows it.
pub proof fn lemma_last_index_of(s: Seq<char>, c: char)
    ensures
        -1 <= last_index_of(s, c) < s.len(),
        last_index_of(s, c) >= 0 ==> s[last_index_of(s, c)] == c,
        forall|j: int| last_index_of(s, c) < j < s.len() ==> s[j] != c,
    decreases s.len(),
{
    if s.len() > 0 && s.last() != c {
        lemma_last_index_of(s.drop_last(), c);
        assert forall|j: int| last_index_of(s, c) < j < s.len() implies s[j] != c by {
            if j < s.len() - 1 {
                assert(s.drop_last()[j] == s[j]);
            }
        }
    }
}

/// The index of the last `c` among the first `end` characters of `v`.
fn find_last(v: &Vec<char>, end: usize, c: char) -> (r: Option<usize>)
    requires
        end <= v.len(),
    ensures
        match r {
            Some(i) => i as int == last_index_of(v@.take(end as int), c),
            None => last_index_of(v@.take(end as int), c) == -1,
        },
{
    let mut i: usize = end;
    while i > 0
        invariant
            i <= end <= v.len(),
            last_index_of(v@.take(end as int), c) == last_index_of(v@.take(i as int), c),
        decreases i,
    {
        assert(v@.take(i as int).last() == v@[i - 1]);
        if v[i - 1] == c {
            return Some(i - 1);
        }
        assert(v@.take(i as int).drop_last() == v@.take(i - 1));
        i -= 1;
    }
    None
}

/// The index of the last `c` in `v[from..end]`, counted from `from`.
fn find_last_in(v: &Vec<char>, from: usize, end: usize, c: char) -> (r: Option<usize>)
    requires
        from <= end <= v.len(),
    ensures
        match r {
            Some(i) => i as int == last_index_of(v@.subrange(from as int, end as int), c),
            None => last_index_of(v@.subrange(from as int, end as int), c) == -1,
        },
{
    let ghost whole = v@.subrange(from as int, end as int);
    let mut i: usize = end;
    while i > from
        invariant
            from <= i <= end <= v.len(),
            whole == v@.subrange(from as int, end as int),
            last_index_of(whole, c) == last_index_of(v@.subrange(from as int, i as int), c),
        decreases i,
    {
        assert(v@.subrange(from as int, i as int).last() == v@[i - 1]);
        if v[i - 1] == c {
            return Some(i - 1 - from);
        }
        assert(v@.subrange(from as int, i as int).drop_last() == v@.subrange(
            from as int,
            i - 1,
        ));
        i -= 1;
    }
    None
}

/// The length of the name `v[from..end]` without its extension.
fn stem_length(v: &Vec<char>, from: usize, end: usize) -> (r: usize)
    requires
        from <= end <= v.len(),
    ensures
        r as int == stem_len(v@.subrange(from as int, end as int)),
        r <= end - from,
{
    proof {
        lemma_last_index_of(v@.subrange(from as int, end as int), '.');
    }
    match find_last_in(v, from, end, '.') {
        Some(dot) => if dot == 0 {
            end - from
        } else {
            dot
        },
        None => end - from,
    }
}

/// The directory that the archive at `filepath` is extracted into: beside
/// the archive, named after it without its extension.
pub fn get_data_path(filepath: &str) -> (r: String)
    ensures
        r@ == spec_data_path(filepath@),
{
    let v = chars_of(filepath);
    proof {
        lemma_last_index_of(v@, '/');
        assert(v@.take(v.len() as int) == v@);
    }
    let cut: usize = match find_last(&v, v.len(), '/') {
        Some(i) => i + 1,
        None => 0,
    };
    assert(v@.subrange(cut as int, v.len() as int) == v@.skip(cut as int));
    let n = stem_length(&v, cut, v.len());
    assert(v@.subrange(0, cut + n) == v@.take(cut + n));
    substring(&v, 0, cut + n)
}

/// The site that the file at `filepath` belongs to: the name of the directory
/// that holds it, without that name's extension. Fails where the path names
/// no such directory.
pub fn get_site_from_filepath(filepath: &str) -> (r: Result<String, Error>)
    ensures
        match spec_site(filepath@) {
            Some(site) => r matches Ok(s) && s@ == site,
            None => r matches Err(Error::Message(m)) && m@ == "Could not retrieve site"@,
        },
{
    let v = chars_of(filepath);
    proof {
        lemma_last_index_of(v@, '/');
        assert(v@.take(v.len() as int) == v@);
    }
    let slash: usize = match find_last(&v, v.len(), '/') {
        Some(i) => i,
        None => {
            return Err(Error::custom("Could not retrieve site"));
        },
    };
    // the directory part, without the slashes at its end
    let mut end: usize = slash;
    while end > 0 && v[end - 1] == '/'
        invariant
            end <= slash < v.len(),
            trim_slashes(v@.take(slash as int)) == trim_slashes(v@.take(end as int)),
        decreases end,
    {
        assert(v@.take(end as int).last() == v@[end - 1]);
        assert(v@.take(end as int).drop_last() == v@.take(end - 1));
        end -= 1;
    }
    let ghost dir = v@.take(end as int);
    proof {
        if end > 0 {
            assert(dir.last() == v@[end - 1]);
        }
        assert(trim_slashes(dir) == dir);
        assert(parent_dir(filepath@) == Some(dir));
        lemma_last_index_of(dir, '/');
    }
    let start: usize = match find_last(&v, end, '/') {
        Some(i) => i + 1,
        None => 0,
    };
    let ghost name = file_name(dir);
    assert(name == v@.subrange(start as int, end as int)) by {
        assert(dir.skip(start as int) == v@.subrange(start as int, end as int));
    }
    if start == end || (end - start == 2 && v[start] == '.' && v[start + 1] == '.') {
        proof {
            if start != end {
                assert(name == seq!['.', '.']);
            }
        }
        return Err(Error::custom("Could not retrieve site"));
    }
    assert(name != seq!['.', '.']) by {
        if name == seq!['.', '.'] {
            assert(name.len() == 2);
            assert(name[0] == v@[start as int] && name[1] == v@[start + 1]);
        }
    }
    let n = stem_length(&v, start, end);
    assert(v@.subrange(start as int, start + n) == name.take(n as int));
    Ok(substring(&v, start, start + n))
}

/// The path of `name` inside the directory `base`.
pub fn join_path(base: &str, name: &str) -> (r: String)
    ensures
        r@ == spec_join_path(base@, name@),
{
    let b = chars_of(base);
    let n = chars_of(name);
    if n.len() > 0 && n[0] == '/' {
        return string_of(&n);
    }
    let mut r = string_of(&b);
    if !(b.len() == 0 || b[b.len() - 1] == '/') {
        r.push('/');
        assert(r@ == base@ + seq!['/']);
    }
    r.append(name);
    r
}

} // verus!
