//! Path analysis: file extensions, file stems, and the mapping from a
//! plugin path's extension to its format.

use vstd::prelude::*;

use vstd::string::StrSliceExecFns;
use vstd::string::StringExecFns;

verus! {

/// The position of the last occurrence of `c` in `s`, or `-1`.
pub open spec fn last_pos(s: Seq<char>, c: char) -> int
    decreases s.len(),
{
    if s.len() == 0 {
        -1
    } else if s[s.len() - 1] == c {
        s.len() - 1
    } else {
        last_pos(s.drop_last(), c)
    }
}

/// `last_pos` is in range, lands on `c`, and nothing after it is `c`.
pub proof fn lemma_last_pos(s: Seq<char>, c: char)
    ensures
        -1 <= last_pos(s, c) < s.len(),
        last_pos(s, c) >= 0 ==> s[last_pos(s, c)] == c,
        forall|k: int| last_pos(s, c) < k < s.len() ==> s[k] != c,
    decreases s.len(),
{
    if s.len() > 0 && s[s.len() - 1] != c {
        lemma_last_pos(s.drop_last(), c);
        assert forall|k: int| last_pos(s, c) < k < s.len() implies s[k] != c by {
            if k < s.len() - 1 {
                assert(s.drop_last()[k] == s[k]);
            }
        }
    }
}

/// `i` is the last occurrence of `c` exactly when it lands on `c` and
/// nothing after it does.
proof fn lemma_last_pos_at(s: Seq<char>, c: char, i: int)
    requires
        0 <= i < s.len(),
        s[i] == c,
        forall|k: int| i < k < s.len() ==> s[k] != c,
    ensures
        last_pos(s, c) == i,
    decreases s.len(),
{
    if i < s.len() - 1 {
        assert(s.drop_last()[i] == s[i]);
        assert forall|k: int| i < k < s.drop_last().len() implies s.drop_last()[k] != c by {
            assert(s.drop_last()[k] == s[k]);
        }
        lemma_last_pos_at(s.drop_last(), c, i);
    }
}

/// When `c` does not occur in `s`, `last_pos` is `-1`.
proof fn lemma_last_pos_absent(s: Seq<char>, c: char)
    requires
        forall|k: int| 0 <= k < s.len() ==> s[k] != c,
    ensures
        last_pos(s, c) == -1,
    decreases s.len(),
{
    if s.len() > 0 {
        assert forall|k: int| 0 <= k < s.drop_last().len() implies s.drop_last()[k] != c by {
            assert(s.drop_last()[k] == s[k]);
        }
        lemma_last_pos_absent(s.drop_last(), c);
    }
}

/// The position of the last occurrence of `c`, scanning from the end.
pub fn last_char_pos(s: &str, c: char) -> (r: Option<usize>)
    ensures
        match r {
            Some(i) => last_pos(s@, c) == i as int,
            None => last_pos(s@, c) == -1,
        },
{
    let n = s.unicode_len();
    let mut i = n;
    while i > 0
        invariant
            i <= n,
            n == s@.len(),
            forall|k: int| i <= k < n ==> s@[k] != c,
        decreases i,
    {
        i = i - 1;
        if s.get_char(i) == c {
            proof {
                lemma_last_pos_at(s@, c, i as int);
            }
            return Some(i);
        }
    }
    proof {
        lemma_last_pos_absent(s@, c);
    }
    None
}

/// A character with any ASCII upper-case letter lowered.
pub open spec fn lower_char(c: char) -> char {
    if 65 <= c as u32 <= 90 {
        (((c as u8) + 32) as char)
    } else {
        c
    }
}

/// A character sequence with every ASCII upper-case letter lowered.
pub open spec fn lower_chars(s: Seq<char>) -> Seq<char> {
    Seq::new(s.len(), |i: int| lower_char(s[i]))
}

/// Lowers one character, per [`lower_char`].
pub fn to_lower_char(c: char) -> (r: char)
    ensures
        r == lower_char(c),
{
    let v = c as u32;
    if 65 <= v && v <= 90 {
        ((c as u8) + 32) as char
    } else {
        c
    }
}

/// Whether the range `[lo, hi)` of `s`, ASCII-lowered, spells `lit`.
fn lowered_range_eq(s: &str, lo: usize, hi: usize, lit: &str) -> (r: bool)
    requires
        lo <= hi <= s@.len(),
    ensures
        r == (lower_chars(s@.subrange(lo as int, hi as int)) == lit@),
{
    let m = lit.unicode_len();
    if hi - lo != m {
        proof {
            assert(lower_chars(s@.subrange(lo as int, hi as int)).len() == hi - lo);
        }
        return false;
    }
    let mut i: usize = 0;
    while i < m
        invariant
            m == lit@.len(),
            lo <= hi <= s@.len(),
            hi - lo == m,
            i <= m,
            forall|k: int| 0 <= k < i ==> lower_char(s@[lo + k]) == lit@[k],
        decreases m - i,
    {
        let cs = to_lower_char(s.get_char(lo + i));
        let cl = lit.get_char(i);
        if cs != cl {
            proof {
                assert(lower_chars(s@.subrange(lo as int, hi as int))[i as int]
                    == lower_char(s@[lo + i]));
            }
            return false;
        }
        i = i + 1;
    }
    proof {
        assert(lower_chars(s@.subrange(lo as int, hi as int)) =~= lit@);
    }
    true
}

/// Where the extension of `path` starts, or `-1` if it has none: the part
/// after the last `.` of the file name, provided that dot is neither the
/// name's first character nor a path separator's neighbour.
pub open spec fn extension_start(path: Seq<char>) -> int {
    let dot = last_pos(path, '.');
    let slash = last_pos(path, '/');
    if dot > slash + 1 {
        dot + 1
    } else {
        -1
    }
}

/// The extension of `path`, when it has one.
pub open spec fn extension_of(path: Seq<char>) -> Option<Seq<char>> {
    if extension_start(path) >= 0 {
        Some(path.skip(extension_start(path)))
    } else {
        None
    }
}

/// The audio plugin formats the loader recognizes.
#[derive(Clone, Copy, Debug, PartialEq, Eq, Structural)]
pub enum PluginKind {
    Vst3,
    Clap,
    Vst2,
}

/// The plugin format named by an extension, compared without regard to
/// ASCII case: `vst3`, `clap`, and `dll`/`so`/`vst` for the older format.
pub open spec fn plugin_kind_for_extension(ext: Seq<char>) -> Option<PluginKind> {
    let e = lower_chars(ext);
    if e == "vst3"@ {
        Some(PluginKind::Vst3)
    } else if e == "clap"@ {
        Some(PluginKind::Clap)
    } else if e == "dll"@ || e == "so"@ || e == "vst"@ {
        Some(PluginKind::Vst2)
    } else {
        None
    }
}

/// The plugin format a path's extension names, if any.
pub open spec fn plugin_kind_of(path: Seq<char>) -> Option<PluginKind> {
    match extension_of(path) {
        Some(ext) => plugin_kind_for_extension(ext),
        None => None,
    }
}

/// Resolves the plugin format from a path's file extension, per
/// [`plugin_kind_of`].  An unrecognized or missing extension yields
/// nothing, which the loader treats as a permanent failure.
pub fn plugin_kind_from_path(path: &str) -> (k: Option<PluginKind>)
    ensures
        k == plugin_kind_of(path@),
{
    let n = path.unicode_len();
    let dot = last_char_pos(path, '.');
    let slash = last_char_pos(path, '/');
    proof {
        lemma_last_pos(path@, '.');
        lemma_last_pos(path@, '/');
    }
    let start: usize = match (dot, slash) {
        (Some(d), Some(sl)) => {
            if d > sl + 1 {
                d + 1
            } else {
                return None;
            }
        },
        (Some(d), None) => {
            if d > 0 {
                d + 1
            } else {
                return None;
            }
        },
        _ => {
            return None;
        },
    };
    proof {
        assert(path@.skip(start as int) =~= path@.subrange(start as int, n as int));
    }
    if lowered_range_eq(path, start, n, "vst3") {
        Some(PluginKind::Vst3)
    } else if lowered_range_eq(path, start, n, "clap") {
        Some(PluginKind::Clap)
    } else if lowered_range_eq(path, start, n, "dll") || lowered_range_eq(path, start, n, "so")
        || lowered_range_eq(path, start, n, "vst") {
        Some(PluginKind::Vst2)
    } else {
        None
    }
}

/// The model name a path yields: the file stem (the file name up to its
/// last dot, the whole name if the dot leads it), or `unknown` for a path
/// with no file name.
pub open spec fn model_name_of(path: Seq<char>) -> Seq<char> {
    let name = path.skip(last_pos(path, '/') + 1);
    if name.len() == 0 {
        "unknown"@
    } else {
        let dot = last_pos(name, '.');
        if dot > 0 {
            name.take(dot)
        } else {
            name
        }
    }
}

/// Extracts the model name from an asset path, per [`model_name_of`].
pub fn model_name_from_path(path: &str) -> (name: String)
    ensures
        name@ == model_name_of(path@),
{
    let n = path.unicode_len();
    let slash = last_char_pos(path, '/');
    proof {
        lemma_last_pos(path@, '/');
    }
    let start: usize = match slash {
        Some(i) => i + 1,
        None => 0,
    };
    if start == n {
        proof {
            assert(path@.skip(start as int).len() == 0);
        }
        return String::from_str("unknown");
    }
    let file = path.substring_char(start, n);
    proof {
        assert(file@ =~= path@.skip(start as int));
    }
    let dot = last_char_pos(file, '.');
    match dot {
        Some(d) if d > 0 => {
            proof {
                lemma_last_pos(file@, '.');
            }
            let stem = file.substring_char(0, d);
            proof {
                assert(stem@ =~= file@.take(d as int));
            }
            String::from_str(stem)
        },
        _ => String::from_str(file),
    }
}

} // verus!
