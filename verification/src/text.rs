use vstd::prelude::*;
use vstd::string::*;

verus! {

/// Whether `c` has the Unicode property White_Space.
pub open spec fn is_whitespace(c: char) -> bool {
    ||| ('\u{9}' <= c && c <= '\u{d}')
    ||| c == ' '
    ||| c == '\u{85}'
    ||| c == '\u{a0}'
    ||| c == '\u{1680}'
    ||| ('\u{2000}' <= c && c <= '\u{200a}')
    ||| c == '\u{2028}'
    ||| c == '\u{2029}'
    ||| c == '\u{202f}'
    ||| c == '\u{205f}'
    ||| c == '\u{3000}'
}

/// `s` without the white space at its start.
pub open spec fn trim_start(s: Seq<char>) -> Seq<char>
    decreases s.len(),
{
    if s.len() > 0 && is_whitespace(s[0]) {
        trim_start(s.drop_first())
    } else {
        s
    }
}

/// `s` without the white space at its end.
pub open spec fn trim_end(s: Seq<char>) -> Seq<char>
    decreases s.len(),
{
    if s.len() > 0 && is_whitespace(s.last()) {
        trim_end(s.drop_last())
    } else {
        s
    }
}

/// `s` without the white space at either end.
pub open spec fn trimmed(s: Seq<char>) -> Seq<char> {
    trim_end(trim_start(s))
}

/// The views of the strings of `v`, in order.
pub open spec fn strings(v: Seq<String>) -> Seq<Seq<char>> {
    Seq::new(v.len(), |i: int| v[i]@)
}

/// The items of `parts` in order, with `separator` between each two.
pub open spec fn joined(parts: Seq<Seq<char>>, separator: Seq<char>) -> Seq<char>
    decreases parts.len(),
{
    if parts.len() == 0 {
        Seq::empty()
    } else if parts.len() == 1 {
        parts[0]
    } else {
        joined(parts.drop_last(), separator) + separator + parts.last()
    }
}

/// All items of `parts` one after the other.
pub open spec fn concatenated(parts: Seq<Seq<char>>) -> Seq<char>
    decreases parts.len(),
{
    if parts.len() == 0 {
        Seq::empty()
    } else {
        concatenated(parts.drop_last()) + parts.last()
    }
}

/// Whether the file that `path` names has the extension `extension`: the path ends
/// with a dot and `extension`, no dot is in `extension`, and before the dot the name of
/// the file has begun. A slash and a backslash both end the name of a folder.
pub open spec fn has_extension(path: Seq<char>, extension: Seq<char>) -> bool {
    let dot = path.len() - extension.len() - 1;
    &&& !extension.contains('.')
    &&& dot >= 1
    &&& path[dot] == '.'
    &&& path[dot - 1] != '/'
    &&& path[dot - 1] != '\\'
    &&& path.subrange(dot + 1, path.len() as int) == extension
}

/// Whether `c` is white space.
pub fn char_is_whitespace(c: char) -> (white: bool)
    ensures
        white == is_whitespace(c),
{
    ('\u{9}' <= c && c <= '\u{d}') || c == ' ' || c == '\u{85}' || c == '\u{a0}' || c == '\u{1680}'
        || ('\u{2000}' <= c && c <= '\u{200a}') || c == '\u{2028}' || c == '\u{2029}' || c
        == '\u{202f}' || c == '\u{205f}' || c == '\u{3000}'
}

/// Removes the white space at both ends of `s`: what is left is the part of `s` from its
/// first to its last character that is no white space.
pub fn trim(s: &str) -> (out: String)
    ensures
        out@ == trimmed(s@),
        exists|start: int, end: int|
            {
                &&& 0 <= start <= end <= s@.len()
                &&& out@ == #[trigger] s@.subrange(start, end)
                &&& forall|i: int| 0 <= i < start ==> is_whitespace(s@[i])
                &&& forall|i: int| end <= i < s@.len() ==> is_whitespace(s@[i])
                &&& start < end ==> !is_whitespace(s@[start]) && !is_whitespace(s@[end - 1])
            },
{
    let n = s.unicode_len();
    let mut i: usize = 0;
    proof {
        assert(s@.skip(0) =~= s@);
    }
    while i < n && char_is_whitespace(s.get_char(i))
        invariant
            n == s@.len(),
            i <= n,
            trim_start(s@) == trim_start(s@.skip(i as int)),
            forall|k: int| 0 <= k < i ==> is_whitespace(s@[k]),
        decreases n - i,
    {
        proof {
            assert(s@.skip(i as int).drop_first() =~= s@.skip(i + 1));
        }
        i += 1;
    }
    let mut j: usize = n;
    proof {
        assert(s@.subrange(i as int, n as int) =~= s@.skip(i as int));
    }
    while j > i && char_is_whitespace(s.get_char(j - 1))
        invariant
            n == s@.len(),
            i <= j <= n,
            trim_start(s@) == s@.skip(i as int),
            trimmed(s@) == trim_end(s@.subrange(i as int, j as int)),
            i < n ==> !is_whitespace(s@[i as int]),
            forall|k: int| j <= k < n ==> is_whitespace(s@[k]),
        decreases j - i,
    {
        proof {
            assert(s@.subrange(i as int, j as int).drop_last() =~= s@.subrange(
                i as int,
                j - 1,
            ));
        }
        j -= 1;
    }
    String::from_str(s.substring_char(i, j))
}

/// Whether the two strings hold the same characters.
pub fn str_eq(a: &str, b: &str) -> (same: bool)
    ensures
        same == (a@ == b@),
{
    String::from_str(a) == String::from_str(b)
}

/// A copy of `v`.
pub fn copy_strings(v: &Vec<String>) -> (out: Vec<String>)
    ensures
        strings(out@) == strings(v@),
{
    let mut out: Vec<String> = Vec::new();
    let mut i: usize = 0;
    while i < v.len()
        invariant
            i <= v.len(),
            out@.len() == i,
            forall|k: int| 0 <= k < i ==> out@[k]@ == v@[k]@,
        decreases v.len() - i,
    {
        out.push(v[i].clone());
        i += 1;
    }
    proof {
        assert(strings(out@) =~= strings(v@));
    }
    out
}

/// Whether some item of `v` is `name`.
pub fn contains_string(v: &Vec<String>, name: &String) -> (found: bool)
    ensures
        found == strings(v@).contains(name@),
{
    let mut i: usize = 0;
    while i < v.len()
        invariant
            i <= v.len(),
            forall|k: int| 0 <= k < i ==> v@[k]@ != name@,
        decreases v.len() - i,
    {
        if v[i] == *name {
            proof {
                assert(strings(v@)[i as int] == name@);
            }
            return true;
        }
        i += 1;
    }
    proof {
        assert forall|k: int| 0 <= k < strings(v@).len() implies strings(v@)[k] != name@ by {
            assert(strings(v@)[k] == v@[k]@);
        }
    }
    false
}

/// The items of `parts` in order, with `separator` between each two.
pub fn join(parts: &Vec<String>, separator: &str) -> (out: String)
    ensures
        out@ == joined(strings(parts@), separator@),
{
    let mut out = String::new();
    let mut i: usize = 0;
    while i < parts.len()
        invariant
            i <= parts.len(),
            out@ == joined(strings(parts@).take(i as int), separator@),
        decreases parts.len() - i,
    {
        proof {
            let before = strings(parts@).take(i as int);
            let after = strings(parts@).take(i + 1);
            assert(after.drop_last() =~= before);
            assert(after.last() == parts@[i as int]@);
            if i == 0 {
                assert(Seq::<char>::empty() + parts@[0]@ =~= parts@[0]@);
            }
        }
        if i > 0 {
            out.append(separator);
        }
        out.append(parts[i].as_str());
        i += 1;
    }
    proof {
        assert(strings(parts@).take(parts@.len() as int) =~= strings(parts@));
    }
    out
}

/// Whether the file that `path` names has the extension `extension`.
pub fn path_has_extension(path: &str, extension: &str) -> (has: bool)
    ensures
        has == has_extension(path@, extension@),
{
    let n = path.unicode_len();
    let m = extension.unicode_len();
    let mut k: usize = 0;
    while k < m
        invariant
            m == extension@.len(),
            k <= m,
            forall|i: int| 0 <= i < k ==> extension@[i] != '.',
        decreases m - k,
    {
        if extension.get_char(k) == '.' {
            return false;
        }
        k += 1;
    }
    if n < 2 || n - 2 < m {
        return false;
    }
    let dot = n - m - 1;
    if path.get_char(dot) != '.' {
        return false;
    }
    let before = path.get_char(dot - 1);
    if before == '/' || before == '\\' {
        return false;
    }
    str_eq(path.substring_char(dot + 1, n), extension)
}

} // verus!
