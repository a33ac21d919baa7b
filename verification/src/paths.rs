//! Unix paths held as strings: joining and the absolute/relative test, as
//! `Path::join` and `Path::is_absolute` do them on Unix.
use vstd::prelude::*;
use crate::text::{chars_of, concat2, concat3, eq_lit, slice_vec, string_of};

verus! {

/// `Path::is_absolute` on Unix: the path starts at the root.
pub open spec fn is_absolute(p: Seq<char>) -> bool {
    p.len() > 0 && p[0] == '/'
}

/// `Path::join` on Unix: an absolute `p` replaces `base`; otherwise `p` is
/// appended, with a `/` between unless `base` is empty or ends in one.
pub open spec fn path_join(base: Seq<char>, p: Seq<char>) -> Seq<char> {
    if is_absolute(p) {
        p
    } else if base.len() == 0 || base.last() == '/' {
        base + p
    } else {
        base + seq!['/'] + p
    }
}

pub fn is_absolute_path(p: &str) -> (r: bool)
    ensures
        r == is_absolute(p@),
{
    let v = chars_of(p);
    v.len() > 0 && v[0] == '/'
}

/// Joins two paths as `Path::join` does on Unix.
pub fn join_path(base: &str, p: &str) -> (r: String)
    ensures
        r@ == path_join(base@, p@),
{
    let pv = chars_of(p);
    if pv.len() > 0 && pv[0] == '/' {
        return p.to_owned();
    }
    let bv = chars_of(base);
    let n = bv.len();
    if n == 0 || bv[n - 1] == '/' {
        concat2(base, p)
    } else {
        let r = concat3(base, "/", p);
        proof {
            reveal_strlit("/");
            assert("/"@ =~= seq!['/']);
        }
        r
    }
}

/// The position just after the last `/` of `s`, or 0.
pub open spec fn segment_start(s: Seq<char>) -> int
    decreases s.len(),
{
    if s.len() == 0 {
        0
    } else if s.last() == '/' {
        s.len() as int
    } else {
        segment_start(s.drop_last())
    }
}

proof fn lemma_segment_start_bounds(s: Seq<char>)
    ensures
        0 <= segment_start(s) <= s.len(),
        segment_start(s) > 0 ==> s[segment_start(s) - 1] == '/',
        forall|k: int| segment_start(s) <= k < s.len() ==> s[k] != '/',
    decreases s.len(),
{
    if s.len() > 0 {
        lemma_segment_start_bounds(s.drop_last());
        assert forall|k: int| segment_start(s) <= k < s.len() implies s[k] != '/' by {
            if k < s.len() - 1 {
                assert(s[k] == s.drop_last()[k]);
            }
        }
    }
}

/// Where the last component of a path lies (start and end), as
/// `Path::components` finds it: trailing `/` and `.` components skipped.
pub open spec fn last_part_span(p: Seq<char>) -> Option<(int, int)>
    decreases p.len(),
{
    if p.len() == 0 {
        None
    } else if p.last() == '/' {
        last_part_span(p.drop_last())
    } else {
        let s = segment_start(p);
        if 0 <= s < p.len() && p.subrange(s, p.len() as int) == seq!['.'] {
            if s == 0 {
                None
            } else {
                last_part_span(p.subrange(0, s))
            }
        } else {
            Some((s, p.len() as int))
        }
    }
}

proof fn lemma_last_part_span_bounds(p: Seq<char>)
    ensures
        last_part_span(p) matches Some((s, e)) ==> 0 <= s < e <= p.len() && forall|k: int|
            s <= k < e ==> p[k] != '/',
    decreases p.len(),
{
    if p.len() > 0 {
        if p.last() == '/' {
            lemma_last_part_span_bounds(p.drop_last());
            if let Some((s, e)) = last_part_span(p) {
                assert forall|k: int| s <= k < e implies p[k] != '/' by {
                    assert(p[k] == p.drop_last()[k]);
                }
            }
        } else {
            lemma_segment_start_bounds(p);
            let s = segment_start(p);
            if 0 <= s < p.len() && p.subrange(s, p.len() as int) == seq!['.'] {
                if s != 0 {
                    lemma_last_part_span_bounds(p.subrange(0, s));
                    if let Some((a, e)) = last_part_span(p) {
                        assert forall|k: int| a <= k < e implies p[k] != '/' by {
                            assert(p[k] == p.subrange(0, s)[k]);
                        }
                    }
                }
            }
        }
    }
}

/// `Path::file_name`: the last component, unless it is `..` or there is none.
pub open spec fn file_name(p: Seq<char>) -> Option<Seq<char>> {
    match last_part_span(p) {
        None => None,
        Some((s, e)) => {
            let n = p.subrange(s, e);
            if n == seq!['.', '.'] {
                None
            } else {
                Some(n)
            }
        },
    }
}

/// The position of the last `.` in `s`, or -1.
pub open spec fn last_dot(s: Seq<char>) -> int
    decreases s.len(),
{
    if s.len() == 0 {
        -1
    } else if s.last() == '.' {
        s.len() - 1
    } else {
        last_dot(s.drop_last())
    }
}

/// `Path::file_stem`: the file name without its extension; a name with no
/// dot, or whose only dot leads, is its own stem.
pub open spec fn file_stem(p: Seq<char>) -> Option<Seq<char>> {
    match file_name(p) {
        None => None,
        Some(n) => {
            let d = last_dot(n);
            if d <= 0 {
                Some(n)
            } else {
                Some(n.subrange(0, d))
            }
        },
    }
}

/// `Path::extension`: what follows the last dot of the file name, where
/// that dot does not lead the name.
pub open spec fn file_extension(p: Seq<char>) -> Option<Seq<char>> {
    match file_name(p) {
        None => None,
        Some(n) => {
            let d = last_dot(n);
            if d <= 0 {
                None
            } else {
                Some(n.subrange(d + 1, n.len() as int))
            }
        },
    }
}

fn segment_start_exec(v: &[char], n: usize) -> (r: usize)
    requires
        n <= v@.len(),
    ensures
        r == segment_start(v@.subrange(0, n as int)),
{
    let mut i: usize = n;
    while i > 0 && v[i - 1] != '/'
        invariant
            0 <= i <= n <= v@.len(),
            segment_start(v@.subrange(0, n as int)) == segment_start(v@.subrange(0, i as int)),
        decreases i,
    {
        assert(v@.subrange(0, i as int).drop_last() =~= v@.subrange(0, i - 1));
        i = i - 1;
    }
    i
}

fn last_part_span_exec(v: &[char]) -> (r: Option<(usize, usize)>)
    ensures
        match r {
            Some((s, e)) => last_part_span(v@) == Some((s as int, e as int)),
            None => last_part_span(v@) is None,
        },
{
    let mut n: usize = v.len();
    assert(v@.subrange(0, n as int) =~= v@);
    loop
        invariant
            0 <= n <= v@.len(),
            last_part_span(v@) == last_part_span(v@.subrange(0, n as int)),
        decreases n,
    {
        if n == 0 {
            return None;
        }
        let ghost p = v@.subrange(0, n as int);
        if v[n - 1] == '/' {
            assert(p.drop_last() =~= v@.subrange(0, n - 1));
            n = n - 1;
        } else {
            let s = segment_start_exec(v, n);
            proof {
                lemma_segment_start_bounds(p);
            }
            if s + 1 == n && v[s] == '.' {
                assert(p.subrange(s as int, n as int) =~= seq!['.']);
                if s == 0 {
                    return None;
                }
                assert(p.subrange(0, s as int) =~= v@.subrange(0, s as int));
                n = s;
            } else {
                assert(p.subrange(s as int, n as int) != seq!['.']) by {
                    if p.subrange(s as int, n as int) =~= seq!['.'] {
                        assert(p.subrange(s as int, n as int).len() == 1);
                        assert(p.subrange(s as int, n as int)[0] == v@[s as int]);
                    }
                }
                return Some((s, n));
            }
        }
    }
}

/// The file name of a path, as `Path::file_name` gives it.
pub fn path_file_name(p: &str) -> (r: Option<Vec<char>>)
    ensures
        match r {
            Some(n) => file_name(p@) == Some(n@),
            None => file_name(p@) is None,
        },
{
    let v = chars_of(p);
    match last_part_span_exec(v.as_slice()) {
        None => None,
        Some((s, e)) => {
            proof {
                lemma_last_part_span_bounds(v@);
            }
            let name = slice_vec(v.as_slice(), s, e);
            if name.len() == 2 && name[0] == '.' && name[1] == '.' {
                assert(name@ =~= seq!['.', '.']);
                return None;
            }
            assert(name@ != seq!['.', '.']) by {
                if name@ =~= seq!['.', '.'] {
                    assert(name@.len() == 2);
                }
            }
            Some(name)
        },
    }
}

fn last_dot_exec(n: &[char]) -> (r: Option<usize>)
    ensures
        match r {
            Some(i) => last_dot(n@) == i && i < n@.len(),
            None => last_dot(n@) == -1,
        },
{
    let mut i: usize = n.len();
    assert(n@.subrange(0, i as int) =~= n@);
    while i > 0
        invariant
            0 <= i <= n@.len(),
            last_dot(n@) == last_dot(n@.subrange(0, i as int)),
        decreases i,
    {
        assert(n@.subrange(0, i as int).drop_last() =~= n@.subrange(0, i - 1));
        if n[i - 1] == '.' {
            return Some(i - 1);
        }
        i = i - 1;
    }
    None
}

/// The file stem of a path, as `Path::file_stem` gives it.
pub fn path_file_stem(p: &str) -> (r: Option<Vec<char>>)
    ensures
        match r {
            Some(n) => file_stem(p@) == Some(n@),
            None => file_stem(p@) is None,
        },
{
    let name = match path_file_name(p) {
        None => {
            return None;
        },
        Some(n) => n,
    };
    match last_dot_exec(name.as_slice()) {
        Some(d) => {
            if d == 0 {
                Some(name)
            } else {
                Some(slice_vec(name.as_slice(), 0, d))
            }
        },
        None => Some(name),
    }
}

/// The extension of a path, as `Path::extension` gives it.
pub fn path_file_extension(p: &str) -> (r: Option<Vec<char>>)
    ensures
        match r {
            Some(n) => file_extension(p@) == Some(n@),
            None => file_extension(p@) is None,
        },
{
    let name = match path_file_name(p) {
        None => {
            return None;
        },
        Some(n) => n,
    };
    match last_dot_exec(name.as_slice()) {
        Some(d) => {
            if d == 0 {
                None
            } else {
                let n = name.len();
                Some(slice_vec(name.as_slice(), d + 1, n))
            }
        },
        None => None,
    }
}

/// `PathBuf::set_extension` on Unix: the path cut after the file stem, then
/// `.` and the extension (nothing added for an empty one); a path with no
/// file name is left as it is.
pub open spec fn with_extension(p: Seq<char>, ext: Seq<char>) -> Seq<char> {
    match last_part_span(p) {
        None => p,
        Some((s, e)) => {
            let n = p.subrange(s, e);
            if n == seq!['.', '.'] {
                p
            } else {
                let d = last_dot(n);
                let stem_len = if d <= 0 {
                    n.len() as int
                } else {
                    d
                };
                let head = p.subrange(0, s + stem_len);
                if ext.len() == 0 {
                    head
                } else {
                    head + seq!['.'] + ext
                }
            }
        },
    }
}

/// Replaces the extension of a path, as `PathBuf::set_extension` does.
pub fn set_extension(p: &str, ext: &str) -> (r: String)
    ensures
        r@ == with_extension(p@, ext@),
{
    let v = chars_of(p);
    match last_part_span_exec(v.as_slice()) {
        None => p.to_owned(),
        Some((s, e)) => {
            proof {
                lemma_last_part_span_bounds(v@);
            }
            let name = slice_vec(v.as_slice(), s, e);
            if name.len() == 2 && name[0] == '.' && name[1] == '.' {
                assert(name@ =~= seq!['.', '.']);
                return p.to_owned();
            }
            assert(name@ != seq!['.', '.']) by {
                if name@ =~= seq!['.', '.'] {
                    assert(name@.len() == 2);
                }
            }
            let stem_len: usize = match last_dot_exec(name.as_slice()) {
                Some(d) => if d == 0 {
                    name.len()
                } else {
                    d
                },
                None => name.len(),
            };
            let head = slice_vec(v.as_slice(), 0, s + stem_len);
            let mut out = string_of(head.as_slice());
            let ev = chars_of(ext);
            if ev.len() > 0 {
                crate::text::push_char(&mut out, '.');
                out.append(ext);
            }
            out
        },
    }
}



} // verus!
