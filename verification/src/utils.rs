//! Recognition of audio files by file-name extension. The extension is the
//! part of the file name (the component after the last separator, with
//! trailing separators ignored) that follows its last dot, except that a
//! name whose only dot is its first character has no extension. The
//! comparison against the supported set is case-insensitive on ASCII
//! letters.

use vstd::prelude::*;

verus! {

/// Case-insensitive match of one character against a lowercase pattern
/// character: equal, or an ASCII capital whose lowercase form is equal.
pub open spec fn ci_eq(a: char, b: char) -> bool {
    a == b || (65 <= a as u32 && a as u32 <= 90 && a as u32 + 32 == b as u32)
}

/// Case-insensitive match of a candidate extension against a lowercase
/// pattern.
pub open spec fn matches_ext(e: Seq<char>, pat: Seq<char>) -> bool {
    e.len() == pat.len() && (forall|i: int| 0 <= i < e.len() ==> ci_eq(e[i], pat[i]))
}

/// Whether `e` is one of the supported audio extensions, up to ASCII case.
pub open spec fn spec_is_supported_ext(e: Seq<char>) -> bool {
    ||| matches_ext(e, "mp3"@)
    ||| matches_ext(e, "wav"@)
    ||| matches_ext(e, "ogg"@)
    ||| matches_ext(e, "flac"@)
    ||| matches_ext(e, "aac"@)
    ||| matches_ext(e, "m4a"@)
    ||| matches_ext(e, "opus"@)
    ||| matches_ext(e, "wma"@)
}

/// The index of the last occurrence of `c` in `s`, if any.
pub open spec fn last_occurrence(s: Seq<char>, c: char) -> Option<int>
    decreases s.len(),
{
    if s.len() == 0 {
        None
    } else if s.last() == c {
        Some(s.len() - 1)
    } else {
        last_occurrence(s.drop_last(), c)
    }
}

/// `s` with every trailing separator removed.
pub open spec fn spec_trim_slashes(s: Seq<char>) -> Seq<char>
    decreases s.len(),
{
    if s.len() > 0 && s.last() == '/' {
        spec_trim_slashes(s.drop_last())
    } else {
        s
    }
}

/// The file name of a trimmed path: what follows the last separator.
pub open spec fn spec_file_name(t: Seq<char>) -> Seq<char> {
    match last_occurrence(t, '/') {
        Some(k) => t.subrange(k + 1, t.len() as int),
        None => t,
    }
}

/// The extension of a file name: what follows the last dot, except that a
/// name with no dot, or whose only dot starts it, has none.
pub open spec fn spec_extension(name: Seq<char>) -> Option<Seq<char>> {
    match last_occurrence(name, '.') {
        Some(d) => if d == 0 {
            None
        } else {
            Some(name.subrange(d + 1, name.len() as int))
        },
        None => None,
    }
}

/// Whether a path names an audio file: its file name's extension is one of
/// the supported ones, up to ASCII case.
pub open spec fn spec_is_audio_file(s: Seq<char>) -> bool {
    match spec_extension(spec_file_name(spec_trim_slashes(s))) {
        Some(e) => spec_is_supported_ext(e),
        None => false,
    }
}

/// A found occurrence lies in range and carries the sought character.
proof fn lemma_last_occurrence_in_range(s: Seq<char>, c: char)
    ensures
        match last_occurrence(s, c) {
            Some(d) => 0 <= d < s.len() && s[d] == c,
            None => true,
        },
    decreases s.len(),
{
    if s.len() > 0 && s.last() != c {
        lemma_last_occurrence_in_range(s.drop_last(), c);
    }
}

/// The last occurrence inside a suffix is the global last occurrence,
/// shifted, when that falls inside the suffix, and absent otherwise.
proof fn lemma_last_occurrence_suffix(s: Seq<char>, c: char, a: int)
    requires
        0 <= a <= s.len(),
    ensures
        last_occurrence(s.subrange(a, s.len() as int), c) == (match last_occurrence(s, c) {
            Some(d) => if d >= a {
                Some(d - a)
            } else {
                None::<int>
            },
            None => None::<int>,
        }),
    decreases s.len(),
{
    lemma_last_occurrence_in_range(s, c);
    if a == s.len() {
        assert(s.subrange(a, s.len() as int) =~= Seq::<char>::empty());
    } else {
        let suf = s.subrange(a, s.len() as int);
        assert(suf.last() == s.last());
        if s.last() != c {
            assert(suf.drop_last() =~= s.drop_last().subrange(a, s.drop_last().len() as int));
            lemma_last_occurrence_suffix(s.drop_last(), c, a);
        }
    }
}

/// Case-insensitive comparison of one character against a lowercase
/// pattern character.
fn char_ci_eq(a: char, b: char) -> (r: bool)
    ensures
        r == ci_eq(a, b),
{
    if a == b {
        true
    } else {
        let v = a as u32;
        65 <= v && v <= 90 && v + 32 == b as u32
    }
}

/// Case-insensitive comparison of the character range `start..end` of
/// `path` against the lowercase pattern `pat`.
fn range_matches_ext(path: &str, start: usize, end: usize, pat: &str) -> (r: bool)
    requires
        start <= end,
        end as nat <= path@.len(),
    ensures
        r == matches_ext(path@.subrange(start as int, end as int), pat@),
{
    let e = Ghost(path@.subrange(start as int, end as int));
    let plen = pat.unicode_len();
    if end - start != plen {
        return false;
    }
    let mut j: usize = 0;
    while j < plen
        invariant
            0 <= j <= plen,
            plen == pat@.len(),
            start + plen == end,
            end as nat <= path@.len(),
            e@ == path@.subrange(start as int, end as int),
            e@.len() == plen,
            forall|t: int| 0 <= t < j ==> ci_eq(e@[t], pat@[t]),
        decreases plen - j,
    {
        let a = path.get_char(start + j);
        let b = pat.get_char(j);
        if !char_ci_eq(a, b) {
            assert(!ci_eq(e@[j as int], pat@[j as int]));
            return false;
        }
        j += 1;
    }
    true
}

/// The last index below `end` at which `c` occurs in `path`, if any.
fn last_char_at(path: &str, c: char, end: usize) -> (r: Option<usize>)
    requires
        end as nat <= path@.len(),
    ensures
        match r {
            Some(k) => k < end && last_occurrence(path@.subrange(0, end as int), c) == Some(
                k as int,
            ),
            None => last_occurrence(path@.subrange(0, end as int), c) is None,
        },
{
    let mut i: usize = end;
    while i > 0
        invariant
            i <= end,
            end as nat <= path@.len(),
            last_occurrence(path@.subrange(0, end as int), c) == last_occurrence(
                path@.subrange(0, i as int),
                c,
            ),
        decreases i,
    {
        let ch = path.get_char(i - 1);
        if ch == c {
            proof {
                assert(path@.subrange(0, i as int).last() == c);
            }
            return Some(i - 1);
        }
        proof {
            assert(path@.subrange(0, i as int).drop_last() =~= path@.subrange(0, i - 1));
        }
        i -= 1;
    }
    None
}

/// Whether a path names an audio file, judged by its extension.
pub fn is_audio_file(path: &str) -> (r: bool)
    ensures
        r == spec_is_audio_file(path@),
{
    let n = path.unicode_len();
    proof {
        assert(path@.subrange(0, n as int) =~= path@);
    }
    let mut end: usize = n;
    while end > 0 && path.get_char(end - 1) == '/'
        invariant
            end <= n,
            n == path@.len(),
            spec_trim_slashes(path@) == spec_trim_slashes(path@.subrange(0, end as int)),
        decreases end,
    {
        proof {
            assert(path@.subrange(0, end as int).last() == '/');
            assert(path@.subrange(0, end as int).drop_last() =~= path@.subrange(0, end - 1));
        }
        end -= 1;
    }
    proof {
        assert(path@.subrange(0, n as int) =~= path@);
        assert(spec_trim_slashes(path@) == path@.subrange(0, end as int));
    }
    let ghost t = path@.subrange(0, end as int);
    let slash = last_char_at(path, '/', end);
    let dot = last_char_at(path, '.', end);
    let name_start: usize = match slash {
        Some(k) => k + 1,
        None => 0,
    };
    proof {
        lemma_last_occurrence_in_range(t, '/');
        assert(spec_file_name(t) =~= t.subrange(name_start as int, t.len() as int));
        lemma_last_occurrence_suffix(t, '.', name_start as int);
    }
    match dot {
        Some(d) => {
            if d > name_start {
                proof {
                    assert(spec_extension(spec_file_name(t)) matches Some(e) && e =~= path@
                        .subrange(d + 1, end as int));
                }
                range_matches_ext(path, d + 1, end, "mp3") || range_matches_ext(
                    path,
                    d + 1,
                    end,
                    "wav",
                ) || range_matches_ext(path, d + 1, end, "ogg") || range_matches_ext(
                    path,
                    d + 1,
                    end,
                    "flac",
                ) || range_matches_ext(path, d + 1, end, "aac") || range_matches_ext(
                    path,
                    d + 1,
                    end,
                    "m4a",
                ) || range_matches_ext(path, d + 1, end, "opus") || range_matches_ext(
                    path,
                    d + 1,
                    end,
                    "wma",
                )
            } else {
                false
            }
        },
        None => false,
    }
}

/// The supported audio extensions, lowercase, for building file dialogs
/// and filters.
pub fn get_supported_extensions() -> (r: Vec<&'static str>)
    ensures
        r@.len() == 8,
        r@[0]@ == "mp3"@,
        r@[1]@ == "wav"@,
        r@[2]@ == "ogg"@,
        r@[3]@ == "flac"@,
        r@[4]@ == "aac"@,
        r@[5]@ == "m4a"@,
        r@[6]@ == "opus"@,
        r@[7]@ == "wma"@,
{
    let mut v: Vec<&'static str> = Vec::new();
    v.push("mp3");
    v.push("wav");
    v.push("ogg");
    v.push("flac");
    v.push("aac");
    v.push("m4a");
    v.push("opus");
    v.push("wma");
    v
}

} // verus!
