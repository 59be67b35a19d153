use vstd::prelude::*;

verus! {

/// `c` with ASCII upper-case letters mapped to lower case; other characters unchanged.
pub open spec fn ascii_lower(c: char) -> char {
    if 'A' <= c && c <= 'Z' {
        ((c as u32) + 32) as char
    } else {
        c
    }
}

/// Whether the text, with ASCII letters compared case-insensitively, contains "mumu" at `i`.
pub open spec fn mumu_at(s: Seq<char>, i: int) -> bool {
    &&& 0 <= i
    &&& i + 4 <= s.len()
    &&& ascii_lower(s[i]) == 'm'
    &&& ascii_lower(s[i + 1]) == 'u'
    &&& ascii_lower(s[i + 2]) == 'm'
    &&& ascii_lower(s[i + 3]) == 'u'
}

/// Whether a window title names the MuMu emulator: it contains "mumu" in any ASCII case.
pub open spec fn is_mumu_title(s: Seq<char>) -> bool {
    exists|i: int| mumu_at(s, i)
}

fn lower(c: char) -> (r: char)
    ensures
        r == ascii_lower(c),
{
    if 'A' <= c && c <= 'Z' {
        ((c as u32) + 32) as u8 as char
    } else {
        c
    }
}

/// Whether `title` is the title of a MuMu emulator window.
pub fn is_mumu_window_title(title: &str) -> (r: bool)
    ensures
        r == is_mumu_title(title@),
{
    let mut lowered: Vec<char> = Vec::new();
    for c in it: title.chars()
        invariant
            lowered@.len() == it.index(),
            it.seq() == title@,
            forall|j: int| 0 <= j < lowered@.len() ==> lowered@[j] == ascii_lower(#[trigger] title@[j]),
    {
        lowered.push(lower(c));
    }
    let n = lowered.len();
    if n < 4 {
        return false;
    }
    let mut i: usize = 0;
    while i <= n - 4
        invariant
            n == lowered@.len(),
            n == title@.len(),
            n >= 4,
            i <= n - 3,
            forall|j: int| 0 <= j < lowered@.len() ==> lowered@[j] == ascii_lower(#[trigger] title@[j]),
            forall|j: int| 0 <= j < i ==> !mumu_at(title@, j),
        decreases n - i,
    {
        if lowered[i] == 'm' && lowered[i + 1] == 'u' && lowered[i + 2] == 'm' && lowered[i + 3] == 'u' {
            assert(mumu_at(title@, i as int));
            return true;
        }
        i = i + 1;
    }
    assert forall|j: int| !mumu_at(title@, j) by {
        if 0 <= j && j < i {
        }
    }
    false
}

/// Whether a top-level window is the emulator's: it is visible and its title (`None` when
/// the window has no title or it could not be read) names MuMu.
pub fn is_mumu_window(visible: bool, title: Option<&str>) -> (r: bool)
    ensures
        r == (visible && (title matches Some(t) && is_mumu_title(t@))),
{
    if !visible {
        return false;
    }
    match title {
        Some(t) => is_mumu_window_title(t),
        None => false,
    }
}

} // verus!
