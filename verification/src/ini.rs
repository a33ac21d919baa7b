//! The `KEY="value"` configuration format: line splitting, one-line parsing,
//! and the key/value list that a parsed file becomes.
use vstd::prelude::*;
use crate::text::{
    chars_of, find_char, first_index, slice_vec, str_eq, string_of, to_upper, trim, trim_vec,
    upper_text,
};

verus! {

// ---------------------------------------------------------------------------
// Lines (`str::lines`)
// ---------------------------------------------------------------------------

/// A trailing carriage return removed.
pub open spec fn strip_cr(s: Seq<char>) -> Seq<char> {
    if s.len() > 0 && s.last() == '\r' {
        s.drop_last()
    } else {
        s
    }
}

/// Lines completed so far, and the line being read, after reading `s`.
pub open spec fn lines_state(s: Seq<char>) -> (Seq<Seq<char>>, Seq<char>)
    decreases s.len(),
{
    if s.len() == 0 {
        (seq![], seq![])
    } else {
        let (done, cur) = lines_state(s.drop_last());
        if s.last() == '\n' {
            (done.push(strip_cr(cur)), seq![])
        } else {
            (done, cur.push(s.last()))
        }
    }
}

/// `str::lines`: split at `\n`, a `\r` before it dropped, no empty last line.
pub open spec fn lines(s: Seq<char>) -> Seq<Seq<char>> {
    let (done, cur) = lines_state(s);
    if cur.len() > 0 {
        done.push(cur)
    } else {
        done
    }
}

/// Splits text into lines as `str::lines` does.
pub fn split_lines(v: &[char]) -> (r: Vec<Vec<char>>)
    ensures
        r.deep_view() == lines(v@),
{
    let mut done: Vec<Vec<char>> = Vec::new();
    let mut cur: Vec<char> = Vec::new();
    let mut i: usize = 0;
    while i < v.len()
        invariant
            0 <= i <= v@.len(),
            (done.deep_view(), cur@) == lines_state(v@.subrange(0, i as int)),
        decreases v@.len() - i,
    {
        assert(v@.subrange(0, i + 1).drop_last() =~= v@.subrange(0, i as int));
        let c = v[i];
        if c == '\n' {
            let n = cur.len();
            let line = if n > 0 && cur[n - 1] == '\r' {
                slice_vec(cur.as_slice(), 0, n - 1)
            } else {
                cur
            };
            proof {
                if n > 0 && cur@[n - 1] == '\r' {
                    assert(cur@.drop_last() =~= cur@.subrange(0, n - 1));
                }
            }
            let ghost old_done = done.deep_view();
            assert(line.deep_view() =~= line@);
            done.push(line);
            assert(done.deep_view() =~= old_done.push(line@));
            cur = Vec::new();
        } else {
            cur.push(c);
        }
        i = i + 1;
    }
    assert(v@.subrange(0, v@.len() as int) =~= v@);
    if cur.len() > 0 {
        let ghost old_done = done.deep_view();
        assert(cur.deep_view() =~= cur@);
        done.push(cur);
        assert(done.deep_view() =~= old_done.push(cur@));
    }
    done
}

// ---------------------------------------------------------------------------
// One line
// ---------------------------------------------------------------------------

/// Surrounding double quotes removed, where the value has both.
pub open spec fn dequote(v: Seq<char>) -> Seq<char> {
    if v.len() >= 2 && v[0] == '"' && v.last() == '"' {
        v.subrange(1, v.len() - 1)
    } else {
        v
    }
}

/// A line that carries nothing: blank, or a `#` or `;` comment.
pub open spec fn is_skipped_line(t: Seq<char>) -> bool {
    t.len() == 0 || t[0] == '#' || t[0] == ';'
}

/// The key of a `KEY=value` line (its trimmed line `t` holds an `=`).
pub open spec fn pair_key(t: Seq<char>) -> Seq<char> {
    upper_text(trim(t.subrange(0, first_index(t, '='))))
}

/// The value of a `KEY=value` line, trimmed and unquoted.
pub open spec fn pair_value(t: Seq<char>) -> Seq<char> {
    dequote(trim(t.subrange(first_index(t, '=') + 1, t.len() as int)))
}

/// Removes one pair of surrounding double quotes.
pub fn dequote_vec(v: Vec<char>) -> (r: Vec<char>)
    ensures
        r@ == dequote(v@),
{
    let n = v.len();
    if n >= 2 && v[0] == '"' && v[n - 1] == '"' {
        slice_vec(v.as_slice(), 1, n - 1)
    } else {
        v
    }
}

/// Splits a trimmed line that holds an `=` into its key and value.
pub fn split_pair(t: &[char], eq: usize) -> (r: (String, String))
    requires
        eq == first_index(t@, '='),
        0 <= eq < t@.len(),
    ensures
        r.0@ == pair_key(t@),
        r.1@ == pair_value(t@),
{
    let k = slice_vec(t, 0, eq);
    let k = trim_vec(k.as_slice());
    let ks = string_of(k.as_slice());
    let key = to_upper(ks.as_str());
    let n = t.len();
    let v = slice_vec(t, eq + 1, n);
    let v = trim_vec(v.as_slice());
    let v = dequote_vec(v);
    (key, string_of(v.as_slice()))
}

// ---------------------------------------------------------------------------
// Key/value lists
// ---------------------------------------------------------------------------

/// The value stored under `k`: the last pair with that key wins, as a later
/// `insert` into a map replaces an earlier one.
pub open spec fn lookup(pairs: Seq<(Seq<char>, Seq<char>)>, k: Seq<char>) -> Option<Seq<char>>
    decreases pairs.len(),
{
    if pairs.len() == 0 {
        None
    } else if pairs.last().0 == k {
        Some(pairs.last().1)
    } else {
        lookup(pairs.drop_last(), k)
    }
}

/// Looks a key up in a key/value list; the last pair with that key wins.
pub fn get_value<'a>(pairs: &'a Vec<(String, String)>, key: &str) -> (r: Option<&'a String>)
    ensures
        match r {
            Some(v) => lookup(pairs.deep_view(), key@) == Some(v@),
            None => lookup(pairs.deep_view(), key@) is None,
        },
{
    let mut i: usize = pairs.len();
    assert(pairs.deep_view().subrange(0, i as int) =~= pairs.deep_view());
    while i > 0
        invariant
            0 <= i <= pairs@.len(),
            lookup(pairs.deep_view(), key@) == lookup(pairs.deep_view().subrange(0, i as int), key@),
        decreases i,
    {
        let ghost sub = pairs.deep_view().subrange(0, i as int);
        assert(sub.drop_last() =~= pairs.deep_view().subrange(0, i - 1));
        if str_eq(pairs[i - 1].0.as_str(), key) {
            return Some(&pairs[i - 1].1);
        }
        i = i - 1;
    }
    None
}


/// Settings read from a file or the environment: key/value pairs in the
/// order read; a later pair with the same key replaces an earlier one.
#[derive(Debug, Clone)]
pub struct IniValues {
    pub pairs: Vec<(String, String)>,
}

impl IniValues {
    pub open spec fn lookup(self, k: Seq<char>) -> Option<Seq<char>> {
        lookup(self.pairs.deep_view(), k)
    }

    /// No settings.
    pub fn new() -> (r: IniValues)
        ensures
            r.pairs@.len() == 0,
            forall|k: Seq<char>| r.lookup(k) is None,
    {
        IniValues { pairs: Vec::new() }
    }

    /// Sets `key` to `value`.
    pub fn insert(&mut self, key: String, value: String)
        ensures
            forall|k: Seq<char>|
                final(self).lookup(k) == if k == key@ {
                    Some(value@)
                } else {
                    old(self).lookup(k)
                },
    {
        let ghost before = self.pairs.deep_view();
        let ghost kv = (key@, value@);
        self.pairs.push((key, value));
        assert(self.pairs.deep_view() =~= before.push(kv));
        assert(self.pairs.deep_view().drop_last() =~= before);
    }

    /// The value set for `key`, if any.
    pub fn get(&self, key: &str) -> (r: Option<&String>)
        ensures
            match r {
                Some(v) => self.lookup(key@) == Some(v@),
                None => self.lookup(key@) is None,
            },
    {
        get_value(&self.pairs, key)
    }
}

// ---------------------------------------------------------------------------
// A whole file of `KEY=value` lines
// ---------------------------------------------------------------------------

/// Reading the lines of a plain file in order: `Ok` with the pairs so far,
/// or `Err` with the (1-based) number of the first line without `=`.
pub open spec fn ini_state(ls: Seq<Seq<char>>) -> Result<Seq<(Seq<char>, Seq<char>)>, nat>
    decreases ls.len(),
{
    if ls.len() == 0 {
        Ok(seq![])
    } else {
        match ini_state(ls.drop_last()) {
            Err(n) => Err(n),
            Ok(pairs) => {
                let t = trim(ls.last());
                if is_skipped_line(t) {
                    Ok(pairs)
                } else if first_index(t, '=') < 0 {
                    Err(ls.len())
                } else {
                    Ok(pairs.push((pair_key(t), pair_value(t))))
                }
            },
        }
    }
}

/// The content of a configuration file, parsed.
pub open spec fn ini_content(s: Seq<char>) -> Result<Seq<(Seq<char>, Seq<char>)>, nat> {
    ini_state(lines(s))
}

/// A line of a configuration file that is neither blank, a comment nor a
/// `KEY=value` pair.
#[derive(Debug, Clone, Copy, PartialEq, Eq)]
pub struct IniLineError {
    pub line: usize,
}

/// Parses a configuration file of `KEY=value` lines into its pairs, in file
/// order; a later pair with the same key replaces an earlier one on lookup.
/// Keys are upper-cased, values trimmed and unquoted. The first line that is
/// neither blank, a `#`/`;` comment nor holds an `=` is an error.
pub fn parse_ini_content(content: &str) -> (r: Result<IniValues, IniLineError>)
    ensures
        match r {
            Ok(values) => ini_content(content@) == Ok::<Seq<(Seq<char>, Seq<char>)>, nat>(
                values.pairs.deep_view(),
            ),
            Err(e) => ini_content(content@) == Err::<Seq<(Seq<char>, Seq<char>)>, nat>(
                e.line as nat,
            ),
        },
{
    let chars = chars_of(content);
    let ls = split_lines(chars.as_slice());
    let mut pairs: Vec<(String, String)> = Vec::new();
    let mut i: usize = 0;
    assert(ls.deep_view().subrange(0, 0) =~= Seq::<Seq<char>>::empty());
    assert(pairs.deep_view() =~= Seq::<(Seq<char>, Seq<char>)>::empty());
    while i < ls.len()
        invariant
            0 <= i <= ls@.len(),
            ls.deep_view() == lines(content@),
            ini_state(ls.deep_view().subrange(0, i as int)) == Ok::<
                Seq<(Seq<char>, Seq<char>)>,
                nat,
            >(pairs.deep_view()),
        decreases ls@.len() - i,
    {
        let ghost sub = ls.deep_view().subrange(0, i + 1);
        assert(sub.drop_last() =~= ls.deep_view().subrange(0, i as int));
        assert(sub.last() == ls@[i as int]@);
        let t = trim_vec(ls[i].as_slice());
        if t.len() == 0 || t[0] == '#' || t[0] == ';' {
        } else {
            match find_char(t.as_slice(), '=') {
                None => {
                    proof {
                        lemma_ini_state_err_sticks(ls.deep_view(), i + 1);
                    }
                    return Err(IniLineError { line: i + 1 });
                },
                Some(eq) => {
                    let pair = split_pair(t.as_slice(), eq);
                    let ghost old_pairs = pairs.deep_view();
                    pairs.push(pair);
                    assert(pairs.deep_view() =~= old_pairs.push((pair.0@, pair.1@)));
                },
            }
        }
        i = i + 1;
    }
    assert(ls.deep_view().subrange(0, ls@.len() as int) =~= ls.deep_view());
    Ok(IniValues { pairs })
}

/// Once reading fails, reading more lines keeps the same error.
pub proof fn lemma_ini_state_err_sticks(ls: Seq<Seq<char>>, n: int)
    requires
        0 <= n <= ls.len(),
        ini_state(ls.subrange(0, n)) is Err,
    ensures
        ini_state(ls) == ini_state(ls.subrange(0, n)),
    decreases ls.len() - n,
{
    if n < ls.len() {
        assert(ls.subrange(0, n + 1).drop_last() =~= ls.subrange(0, n));
        lemma_ini_state_err_sticks(ls, n + 1);
    } else {
        assert(ls.subrange(0, n) =~= ls);
    }
}

} // verus!
