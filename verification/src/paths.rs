//! File paths as text, with `/` as the separator: the last component, its stem and
//! extension, and joining two paths. These are the rules of `std::path::Path` on Unix
//! (`file_name`, `file_stem`, `extension`, `join`), written over the text so that they
//! can be stated and proved.
use vstd::prelude::*;

use crate::text::push_char;

verus! {

/// Index of the last occurrence of `c` in `s` before position `end`, or -1.
pub open spec fn last_index_of(s: Seq<char>, c: char, end: int) -> int
    decreases end,
{
    if end <= 0 {
        -1
    } else if s[end - 1] == c {
        end - 1
    } else {
        last_index_of(s, c, end - 1)
    }
}

pub proof fn lemma_last_index_of(s: Seq<char>, c: char, end: int)
    requires
        0 <= end <= s.len(),
    ensures
        -1 <= last_index_of(s, c, end) < end,
        last_index_of(s, c, end) >= 0 ==> s[last_index_of(s, c, end)] == c,
        forall|j: int| last_index_of(s, c, end) < j < end ==> s[j] != c,
    decreases end,
{
    if end > 0 && s[end - 1] != c {
        lemma_last_index_of(s, c, end - 1);
    }
}

/// The last component of the path `p[..end]`: the text after its last `/`, skipping
/// empty components and `.`; none when that component is `..` or there is none.
pub open spec fn file_name_upto(p: Seq<char>, end: int) -> Option<Seq<char>>
    decreases end,
{
    if end <= 0 || end > p.len() {
        None
    } else {
        proof {
            lemma_last_index_of(p, '/', end);
        }
        let k = last_index_of(p, '/', end);
        let seg = p.subrange(k + 1, end);
        if seg.len() == 0 || seg == seq!['.'] {
            if k < 0 {
                None
            } else {
                file_name_upto(p, k)
            }
        } else if seg == seq!['.', '.'] {
            None
        } else {
            Some(seg)
        }
    }
}

/// The file name of a path: its last normal component.
pub open spec fn file_name_spec(p: Seq<char>) -> Option<Seq<char>> {
    file_name_upto(p, p.len() as int)
}

/// The stem of a file name: the text before its last `.`, or the whole name when it
/// has no `.` or its only `.` starts it.
pub open spec fn name_stem(n: Seq<char>) -> Seq<char> {
    let k = last_index_of(n, '.', n.len() as int);
    if k <= 0 {
        n
    } else {
        n.subrange(0, k)
    }
}

/// The extension of a file name: the text after its last `.`, if that `.` does not
/// start the name.
pub open spec fn name_extension(n: Seq<char>) -> Option<Seq<char>> {
    let k = last_index_of(n, '.', n.len() as int);
    if k <= 0 {
        None
    } else {
        Some(n.subrange(k + 1, n.len() as int))
    }
}

/// A file name with an extension is its stem, a `.`, and its extension; the extension
/// holds no `.`.
pub proof fn law_stem_dot_extension_is_the_name(n: Seq<char>)
    requires
        name_extension(n) is Some,
    ensures
        name_stem(n) + seq!['.'] + name_extension(n)->0 == n,
        !(name_extension(n)->0).contains('.'),
{
    lemma_last_index_of(n, '.', n.len() as int);
    let k = last_index_of(n, '.', n.len() as int);
    assert(name_stem(n) + seq!['.'] + name_extension(n)->0 =~= n);
    let e = name_extension(n)->0;
    assert forall|i: int| 0 <= i < e.len() implies e[i] != '.' by {
        assert(e[i] == n[k + 1 + i]);
    }
}

/// The stem of a path's file name.
pub open spec fn file_stem_spec(p: Seq<char>) -> Option<Seq<char>> {
    match file_name_spec(p) {
        Some(n) => Some(name_stem(n)),
        None => None,
    }
}

/// The extension of a path's file name.
pub open spec fn extension_spec(p: Seq<char>) -> Option<Seq<char>> {
    match file_name_spec(p) {
        Some(n) => name_extension(n),
        None => None,
    }
}

/// `b` appended to `a`: `b` itself when it is absolute, else `a`, a `/` if `a` is not
/// empty and does not end with one, then `b`.
pub open spec fn path_join_spec(a: Seq<char>, b: Seq<char>) -> Seq<char> {
    if b.len() > 0 && b[0] == '/' {
        b
    } else if a.len() > 0 && a.last() != '/' {
        a + seq!['/'] + b
    } else {
        a + b
    }
}

fn last_index(s: &str, c: char, end: usize) -> (r: i128)
    requires
        end <= s@.len(),
    ensures
        r == last_index_of(s@, c, end as int),
{
    let mut i: usize = end;
    while i > 0
        invariant
            i <= end,
            end <= s@.len(),
            last_index_of(s@, c, end as int) == last_index_of(s@, c, i as int),
        decreases i,
    {
        if s.get_char(i - 1) == c {
            assert(last_index_of(s@, c, i as int) == i - 1);
            return (i - 1) as i128;
        }
        i -= 1;
    }
    -1
}

fn is_dot_or_empty(s: &str, from: usize, to: usize) -> (r: bool)
    requires
        from <= to <= s@.len(),
    ensures
        r == (s@.subrange(from as int, to as int).len() == 0 || s@.subrange(from as int, to as int)
            == seq!['.']),
{
    if from == to {
        return true;
    }
    if to - from == 1 && s.get_char(from) == '.' {
        assert(s@.subrange(from as int, to as int) =~= seq!['.']);
        return true;
    }
    proof {
        let sub = s@.subrange(from as int, to as int);
        if sub == seq!['.'] {
            assert(sub.len() == 1);
            assert(sub[0] == s@[from as int]);
        }
    }
    false
}

fn is_dot_dot(s: &str, from: usize, to: usize) -> (r: bool)
    requires
        from <= to <= s@.len(),
    ensures
        r == (s@.subrange(from as int, to as int) == seq!['.', '.']),
{
    if to - from == 2 && s.get_char(from) == '.' && s.get_char(from + 1) == '.' {
        assert(s@.subrange(from as int, to as int) =~= seq!['.', '.']);
        return true;
    }
    proof {
        let sub = s@.subrange(from as int, to as int);
        if sub == seq!['.', '.'] {
            assert(sub.len() == 2);
            assert(sub[0] == s@[from as int]);
            assert(sub[1] == s@[from + 1]);
        }
    }
    false
}

/// The file name of a path: its last normal component.
pub fn file_name(p: &str) -> (r: Option<String>)
    ensures
        r matches Some(n) ==> file_name_spec(p@) == Some(n@),
        r is None ==> file_name_spec(p@) is None,
{
    let mut end: usize = p.unicode_len();
    while end > 0
        invariant
            end <= p@.len(),
            file_name_spec(p@) == file_name_upto(p@, end as int),
        decreases end,
    {
        let k = last_index(p, '/', end);
        proof {
            lemma_last_index_of(p@, '/', end as int);
        }
        let from = (k + 1) as usize;
        if is_dot_or_empty(p, from, end) {
            if k < 0 {
                return None;
            }
            end = k as usize;
        } else if is_dot_dot(p, from, end) {
            return None;
        } else {
            let seg = p.substring_char(from, end);
            return Some(String::from_str(seg));
        }
    }
    None
}

/// The stem of a file name.
pub fn stem_of_name(n: &str) -> (r: String)
    ensures
        r@ == name_stem(n@),
{
    let k = last_index(n, '.', n.unicode_len());
    proof {
        lemma_last_index_of(n@, '.', n@.len() as int);
    }
    if k <= 0 {
        String::from_str(n)
    } else {
        String::from_str(n.substring_char(0, k as usize))
    }
}

/// The extension of a file name.
pub fn extension_of_name(n: &str) -> (r: Option<String>)
    ensures
        r matches Some(e) ==> name_extension(n@) == Some(e@),
        r is None ==> name_extension(n@) is None,
{
    let len = n.unicode_len();
    let k = last_index(n, '.', len);
    proof {
        lemma_last_index_of(n@, '.', n@.len() as int);
    }
    if k <= 0 {
        None
    } else {
        Some(String::from_str(n.substring_char((k + 1) as usize, len)))
    }
}

/// The stem of a path's file name.
pub fn file_stem(p: &str) -> (r: Option<String>)
    ensures
        r matches Some(s) ==> file_stem_spec(p@) == Some(s@),
        r is None ==> file_stem_spec(p@) is None,
{
    match file_name(p) {
        Some(n) => Some(stem_of_name(n.as_str())),
        None => None,
    }
}

/// The extension of a path's file name.
pub fn extension(p: &str) -> (r: Option<String>)
    ensures
        r matches Some(e) ==> extension_spec(p@) == Some(e@),
        r is None ==> extension_spec(p@) is None,
{
    match file_name(p) {
        Some(n) => extension_of_name(n.as_str()),
        None => None,
    }
}

/// Appends path `b` to path `a`.
pub fn path_join(a: &str, b: &str) -> (r: String)
    ensures
        r@ == path_join_spec(a@, b@),
{
    let b_len = b.unicode_len();
    if b_len > 0 && b.get_char(0) == '/' {
        return String::from_str(b);
    }
    let a_len = a.unicode_len();
    let mut s = String::from_str(a);
    if a_len > 0 && a.get_char(a_len - 1) != '/' {
        push_char(&mut s, '/');
    }
    s.append(b);
    s
}

} // verus!
