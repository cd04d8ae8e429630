//! The decisions of a self-update: which release asset fits the platform,
//! which version a binary reports, and whether that is the released one.

use crate::text::{same_text, text_of};
use vstd::prelude::*;
use vstd::string::StrSliceExecFns;

verus! {

/// `text` ends with `suffix`.
pub open spec fn has_suffix(text: Seq<char>, suffix: Seq<char>) -> bool {
    suffix.len() <= text.len() && text.subrange(text.len() - suffix.len(), text.len() as int)
        == suffix
}

/// `c` is white space, as Unicode defines it.
pub open spec fn is_space(c: char) -> bool {
    let n = c as u32;
    (0x09 <= n <= 0x0d) || n == 0x20 || n == 0x85 || n == 0xa0 || n == 0x1680 || (0x2000 <= n
        <= 0x200a) || n == 0x2028 || n == 0x2029 || n == 0x202f || n == 0x205f || n == 0x3000
}

/// The length of `text` without the white space at its end.
pub open spec fn trimmed_len(text: Seq<char>) -> int
    decreases text.len(),
{
    if text.len() > 0 && is_space(text.last()) {
        trimmed_len(text.drop_last())
    } else {
        text.len() as int
    }
}

/// Where the word begins that `text` ends with: behind the last white space.
pub open spec fn word_start(text: Seq<char>) -> int
    decreases text.len(),
{
    if text.len() > 0 && !is_space(text.last()) {
        word_start(text.drop_last())
    } else {
        text.len() as int
    }
}

/// The last word of `text`, words being set apart by white space.
pub open spec fn last_word(text: Seq<char>) -> Option<Seq<char>> {
    let end = trimmed_len(text);
    if end == 0 {
        None
    } else {
        Some(text.subrange(word_start(text.take(end)), end))
    }
}

/// The number of letters `v` that `text` begins with.
pub open spec fn leading_vs(text: Seq<char>) -> int
    decreases text.len(),
{
    if text.len() > 0 && text[0] == 'v' {
        1 + leading_vs(text.drop_first())
    } else {
        0
    }
}

/// `text` without the letters `v` in front of it.
pub open spec fn without_leading_v(text: Seq<char>) -> Seq<char> {
    text.skip(leading_vs(text))
}

/// The version that a binary reports: the last word of what it prints,
/// without a `v` in front.
pub open spec fn version_in(output: Seq<char>) -> Option<Seq<char>> {
    match last_word(output) {
        Some(word) => Some(without_leading_v(word)),
        None => None,
    }
}

/// The part of a release asset's name that marks the platform.
pub open spec fn suffix_for(os: Seq<char>, arch: Seq<char>) -> Option<Seq<char>> {
    if os == "linux"@ && arch == "x86_64"@ {
        Some("linux-amd64"@)
    } else if os == "macos"@ && arch == "x86_64"@ {
        Some("macos-amd64"@)
    } else if os == "macos"@ && arch == "aarch64"@ {
        Some("macos-arm64"@)
    } else {
        None
    }
}

pub open spec fn str_text(s: Option<&'static str>) -> Option<Seq<char>> {
    match s {
        Some(t) => Some(t@),
        None => None,
    }
}

fn is_space_char(c: char) -> (r: bool)
    ensures
        r == is_space(c),
{
    let n = c as u32;
    (0x09 <= n && n <= 0x0d) || n == 0x20 || n == 0x85 || n == 0xa0 || n == 0x1680 || (0x2000 <= n
        && n <= 0x200a) || n == 0x2028 || n == 0x2029 || n == 0x202f || n == 0x205f || n == 0x3000
}

/// Whether `text` ends with `suffix`.
pub fn ends_with(text: &str, suffix: &str) -> (r: bool)
    ensures
        r == has_suffix(text@, suffix@),
{
    let n = text.unicode_len();
    let m = suffix.unicode_len();
    if m > n {
        return false;
    }
    let from = n - m;
    let mut i: usize = 0;
    while i < m
        invariant
            i <= m,
            m <= n,
            from == n - m,
            n == text@.len(),
            m == suffix@.len(),
            forall|k: int| 0 <= k < i ==> text@[from + k] == suffix@[k],
        decreases m - i,
    {
        if text.get_char(from + i) != suffix.get_char(i) {
            assert(text@.subrange(n - m, n as int)[i as int] == text@[from + i]);
            return false;
        }
        i += 1;
    }
    assert(text@.subrange(n - m, n as int) =~= suffix@);
    true
}

/// The asset suffix for an operating system and a processor architecture,
/// or `None` where no release is built for the pair.
pub fn asset_suffix(os: &str, arch: &str) -> (r: Option<&'static str>)
    ensures
        str_text(r) == suffix_for(os@, arch@),
{
    if same_text(os, "linux") && same_text(arch, "x86_64") {
        Some("linux-amd64")
    } else if same_text(os, "macos") && same_text(arch, "x86_64") {
        Some("macos-amd64")
    } else if same_text(os, "macos") && same_text(arch, "aarch64") {
        Some("macos-arm64")
    } else {
        None
    }
}

/// The place of the first name that ends with `suffix`.
pub fn find_asset(names: &Vec<String>, suffix: &str) -> (r: Option<usize>)
    ensures
        match r {
            Some(i) => i < names@.len() && has_suffix(names@[i as int]@, suffix@) && forall|k: int|
                0 <= k < i ==> !has_suffix(#[trigger] names@[k]@, suffix@),
            None => forall|k: int|
                0 <= k < names@.len() ==> !has_suffix(#[trigger] names@[k]@, suffix@),
        },
{
    let mut i: usize = 0;
    while i < names.len()
        invariant
            i <= names.len(),
            forall|k: int| 0 <= k < i ==> !has_suffix(#[trigger] names@[k]@, suffix@),
        decreases names.len() - i,
    {
        if ends_with(names[i].as_str(), suffix) {
            return Some(i);
        }
        i += 1;
    }
    None
}

/// Drops the letters `v` that a version tag begins with.
pub fn strip_version_prefix(tag: &str) -> (r: String)
    ensures
        r@ == without_leading_v(tag@),
{
    let n = tag.unicode_len();
    let mut k: usize = 0;
    assert(tag@.skip(0) =~= tag@);
    while k < n && tag.get_char(k) == 'v'
        invariant
            k <= n,
            n == tag@.len(),
            leading_vs(tag@) == k + leading_vs(tag@.skip(k as int)),
        decreases n - k,
    {
        assert(tag@.skip(k as int).drop_first() =~= tag@.skip(k + 1));
        k += 1;
    }
    assert(leading_vs(tag@.skip(k as int)) == 0);
    tag.substring_char(k, n).to_owned()
}

/// The version that a binary printed when asked for it, or `None` where it
/// printed nothing but white space.
pub fn version_of_output(output: &str) -> (r: Option<String>)
    ensures
        text_of(r) == version_in(output@),
{
    let n = output.unicode_len();
    let mut end: usize = n;
    assert(output@.take(n as int) =~= output@);
    while end > 0 && is_space_char(output.get_char(end - 1))
        invariant
            end <= n,
            n == output@.len(),
            trimmed_len(output@) == trimmed_len(output@.take(end as int)),
        decreases end,
    {
        assert(output@.take(end as int).drop_last() =~= output@.take(end - 1));
        end -= 1;
    }
    if end == 0 {
        return None;
    }
    let mut start: usize = end;
    while start > 0 && !is_space_char(output.get_char(start - 1))
        invariant
            start <= end,
            end <= n,
            n == output@.len(),
            word_start(output@.take(end as int)) == word_start(output@.take(start as int)),
        decreases start,
    {
        assert(output@.take(start as int).drop_last() =~= output@.take(start - 1));
        start -= 1;
    }
    let word = output.substring_char(start, end);
    assert(word@ =~= output@.subrange(word_start(output@.take(end as int)), end as int));
    Some(strip_version_prefix(word))
}

/// Whether the version that the installed binary reports is the one that
/// the release tag names.
pub fn is_up_to_date(current_version: &str, tag_name: &str) -> (r: bool)
    ensures
        r == (current_version@ == without_leading_v(tag_name@)),
{
    let target = strip_version_prefix(tag_name);
    same_text(current_version, target.as_str())
}

} // verus!
