//! Byte-level search over the game's web cache, used to dig the last
//! recorded event URL out of it: the cache is scanned for the last line
//! holding a known marker, and the URL on that line runs from its scheme up
//! to a terminator sequence. The caller reads the cache file and supplies
//! the marker, scheme and terminator bytes; everything here is pure.

use vstd::prelude::*;

verus! {

/// The line feed byte, which ends a cache line.
pub const LINE_FEED: u8 = 10;

/// Whether `needle` occurs in `haystack` at position `i`.
pub open spec fn match_at(haystack: Seq<u8>, needle: Seq<u8>, i: int) -> bool {
    &&& 0 <= i
    &&& i + needle.len() <= haystack.len()
    &&& haystack.subrange(i, i + needle.len()) == needle
}

/// The first occurrence of a non-empty `needle` within
/// `haystack[start..end]`, if any.
pub open spec fn spec_find_in(haystack: Seq<u8>, needle: Seq<u8>, start: int, end: int) -> Option<
    int,
>
    decreases end - start,
{
    if start < 0 || end > haystack.len() || needle.len() == 0 || start + needle.len() > end {
        None
    } else if match_at(haystack, needle, start) {
        Some(start)
    } else {
        spec_find_in(haystack, needle, start + 1, end)
    }
}

/// The last occurrence of a non-empty `needle` in `haystack` starting at or
/// before `from`, if any.
pub open spec fn spec_rfind(haystack: Seq<u8>, needle: Seq<u8>, from: int) -> Option<int>
    decreases from + 1,
{
    if from < 0 || needle.len() == 0 {
        None
    } else if from + needle.len() <= haystack.len() && match_at(haystack, needle, from) {
        Some(from)
    } else {
        spec_rfind(haystack, needle, from - 1)
    }
}

/// The URL cut out of the cache: on the last line holding `marker`, from
/// the first `scheme` occurrence up to (excluding) the following
/// `terminator`.
pub open spec fn spec_marked_url(
    cache: Seq<u8>,
    marker: Seq<u8>,
    scheme: Seq<u8>,
    terminator: Seq<u8>,
) -> Option<Seq<u8>> {
    match spec_rfind(cache, marker, cache.len() as int) {
        None => None,
        Some(m) => {
            let line_start = match spec_rfind(cache, seq![LINE_FEED], m - 1) {
                None => 0,
                Some(p) => p + 1,
            };
            let line_end = match spec_find_in(cache, seq![LINE_FEED], m, cache.len() as int) {
                None => cache.len() as int,
                Some(p) => p,
            };
            match spec_find_in(cache, scheme, line_start, line_end) {
                None => None,
                Some(s) => match spec_find_in(cache, terminator, s, line_end) {
                    None => None,
                    Some(e) => Some(cache.subrange(s, e)),
                },
            }
        },
    }
}

/// The model of an extracted URL.
pub open spec fn spec_opt_bytes(o: Option<Vec<u8>>) -> Option<Seq<u8>> {
    match o {
        Some(v) => Some(v@),
        None => None,
    }
}

/// Whether `needle` occurs in `haystack` at position `i`, per [`match_at`].
fn matches_at(haystack: &Vec<u8>, needle: &Vec<u8>, i: usize) -> (r: bool)
    requires
        i + needle.len() <= haystack.len(),
    ensures
        r == match_at(haystack@, needle@, i as int),
{
    let mut j: usize = 0;
    while j < needle.len()
        invariant
            i + needle.len() <= haystack.len(),
            0 <= j <= needle.len(),
            forall|k: int| 0 <= k < j ==> haystack@[i + k] == needle@[k],
        decreases needle.len() - j,
    {
        if haystack[i + j] != needle[j] {
            proof {
                assert(haystack@.subrange(i as int, i as int + needle@.len())[j as int]
                    == haystack@[i + j]);
            }
            return false;
        }
        j += 1;
    }
    proof {
        assert(haystack@.subrange(i as int, i as int + needle@.len()) =~= needle@);
    }
    true
}

/// The first occurrence of `needle` within `haystack[start..end]`, per
/// [`spec_find_in`], with its bounds.
fn find_in(haystack: &Vec<u8>, needle: &Vec<u8>, start: usize, end: usize) -> (r: Option<usize>)
    requires
        end <= haystack.len(),
    ensures
        match r {
            Some(i) => {
                &&& spec_find_in(haystack@, needle@, start as int, end as int) == Some(i as int)
                &&& start <= i
                &&& i + needle.len() <= end
            },
            None => spec_find_in(haystack@, needle@, start as int, end as int) is None,
        },
{
    if needle.len() == 0 || needle.len() > end {
        return None;
    }
    let last = end - needle.len();
    if start > last {
        return None;
    }
    let mut i: usize = start;
    while i <= last
        invariant
            needle.len() >= 1,
            needle.len() <= end <= haystack.len(),
            last == end - needle.len(),
            start <= i <= last + 1,
            spec_find_in(haystack@, needle@, start as int, end as int) == spec_find_in(
                haystack@,
                needle@,
                i as int,
                end as int,
            ),
        decreases last + 1 - i,
    {
        if matches_at(haystack, needle, i) {
            return Some(i);
        }
        i += 1;
    }
    None
}

/// The last occurrence of `needle` starting at or before `from`, per
/// [`spec_rfind`], with its bounds.
fn rfind(haystack: &Vec<u8>, needle: &Vec<u8>, from: usize) -> (r: Option<usize>)
    ensures
        match r {
            Some(i) => {
                &&& spec_rfind(haystack@, needle@, from as int) == Some(i as int)
                &&& i <= from
                &&& i + needle.len() <= haystack.len()
            },
            None => spec_rfind(haystack@, needle@, from as int) is None,
        },
{
    if needle.len() == 0 {
        return None;
    }
    let mut i: usize = from;
    loop
        invariant
            needle.len() >= 1,
            0 <= i <= from,
            spec_rfind(haystack@, needle@, from as int) == spec_rfind(
                haystack@,
                needle@,
                i as int,
            ),
        decreases i,
    {
        let fits = needle.len() <= haystack.len() && i <= haystack.len() - needle.len();
        if fits && matches_at(haystack, needle, i) {
            return Some(i);
        }
        if i == 0 {
            proof {
                assert(spec_rfind(haystack@, needle@, -1) is None);
            }
            return None;
        }
        i -= 1;
    }
}

/// Cuts the URL out of a web cache, per [`spec_marked_url`]: the last cache
/// line holding `marker` is located, and the URL on it runs from the first
/// `scheme` bytes up to (excluding) the `terminator` bytes. `None` when no
/// line holds the marker, or the line holds no scheme or no terminator
/// after it.
pub fn extract_marked_url(
    cache: &Vec<u8>,
    marker: &Vec<u8>,
    scheme: &Vec<u8>,
    terminator: &Vec<u8>,
) -> (r: Option<Vec<u8>>)
    ensures
        spec_opt_bytes(r) == spec_marked_url(cache@, marker@, scheme@, terminator@),
{
    let mut line_feed: Vec<u8> = Vec::new();
    line_feed.push(LINE_FEED);
    proof {
        assert(line_feed@ =~= seq![LINE_FEED]);
    }

    let m = match rfind(cache, marker, cache.len()) {
        Some(m) => m,
        None => {
            return None;
        },
    };
    let line_start = if m == 0 {
        0
    } else {
        match rfind(cache, &line_feed, m - 1) {
            None => 0,
            Some(p) => p + 1,
        }
    };
    let line_end = match find_in(cache, &line_feed, m, cache.len()) {
        None => cache.len(),
        Some(p) => p,
    };
    let s = match find_in(cache, scheme, line_start, line_end) {
        Some(s) => s,
        None => {
            return None;
        },
    };
    let e = match find_in(cache, terminator, s, line_end) {
        Some(e) => e,
        None => {
            return None;
        },
    };
    let mut url: Vec<u8> = Vec::new();
    let mut i: usize = s;
    proof {
        assert(url@ =~= cache@.subrange(s as int, s as int));
    }
    while i < e
        invariant
            s <= i <= e <= cache.len(),
            url@ == cache@.subrange(s as int, i as int),
        decreases e - i,
    {
        url.push(cache[i]);
        proof {
            assert(cache@.subrange(s as int, i as int + 1) =~= cache@.subrange(
                s as int,
                i as int,
            ).push(cache@[i as int]));
        }
        i += 1;
    }
    Some(url)
}

} // verus!
