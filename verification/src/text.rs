//! Operations on text.

use vstd::prelude::*;

verus! {

/// What each of the strings holds.
pub open spec fn texts(strings: Seq<String>) -> Seq<Seq<char>> {
    strings.map_values(|s: String| s@)
}

/// A copy of the strings.
pub fn clone_texts(strings: &Vec<String>) -> (r: Vec<String>)
    ensures
        texts(r@) == texts(strings@),
{
    let mut out: Vec<String> = Vec::new();
    let mut i: usize = 0;
    while i < strings.len()
        invariant
            i <= strings.len(),
            out.len() == i,
            forall|k: int| 0 <= k < i ==> out[k]@ == strings[k]@,
        decreases strings.len() - i,
    {
        out.push(strings[i].clone());
        i += 1;
    }
    out
}

/// The text that `str::to_lowercase` returns for `text`: its lowercase
/// equivalent by the rules of Unicode. It depends on `text` alone.
pub uninterp spec fn lowercased(text: Seq<char>) -> Seq<char>;

/// The text that `str::trim` returns for `text`: `text` without the white
/// space, as Unicode defines it, at its start and at its end. It depends on
/// `text` alone.
pub uninterp spec fn trimmed(text: Seq<char>) -> Seq<char>;

/// `str::to_lowercase` of the standard library. Nothing is proved of it: its
/// result is only given the name `lowercased`.
pub assume_specification[ str::to_lowercase ](text: &str) -> (r: String)
    ensures
        r@ == lowercased(text@),
;

/// `str::trim` of the standard library. Nothing is proved of it: its result
/// is only given the name `trimmed`.
pub assume_specification[ str::trim ](text: &str) -> (r: &str)
    ensures
        r@ == trimmed(text@),
;

/// The text that the `Debug` implementation of `str` writes for `text`:
/// `text` between double quotes, with escapes where that implementation puts
/// them. It depends on `text` alone.
pub uninterp spec fn quoted(text: Seq<char>) -> Seq<char>;

/// Formats `text` by the `Debug` implementation that the standard library has
/// for `str`. Nothing is proved of it: its result is only given the name
/// `quoted`.
#[verifier::external_body]
pub(crate) fn quote(text: &str) -> (r: String)
    ensures
        r@ == quoted(text@),
{
    format!("{:?}", text)
}

/// Whether two texts are the same, character by character.
pub fn same_text(a: &str, b: &str) -> (r: bool)
    ensures
        r == (a@ == b@),
{
    a.to_owned() == b.to_owned()
}

/// Whether one of the strings holds `text`.
pub fn contains_text(strings: &Vec<String>, text: &str) -> (r: bool)
    ensures
        r == texts(strings@).contains(text@),
{
    let wanted: String = text.to_owned();
    let mut i: usize = 0;
    while i < strings.len()
        invariant
            i <= strings.len(),
            wanted@ == text@,
            forall|k: int| 0 <= k < i ==> strings[k]@ != text@,
        decreases strings.len() - i,
    {
        if strings[i] == wanted {
            assert(texts(strings@)[i as int] == text@);
            return true;
        }
        i += 1;
    }
    false
}

/// The characters of a text, one by one.
pub fn chars_of(text: &str) -> (r: Vec<char>)
    ensures
        r@ == text@,
{
    let mut out: Vec<char> = Vec::new();
    for c in it: text.chars()
        invariant
            out@ == it.seq().take(it.index()),
            it.seq() == text@,
    {
        out.push(c);
    }
    out
}

/// Whether `needle` stands in `text` at the position `at`.
pub open spec fn occurs_at(needle: Seq<char>, text: Seq<char>, at: int) -> bool {
    &&& 0 <= at
    &&& at + needle.len() <= text.len()
    &&& text.subrange(at, at + needle.len()) == needle
}

/// Whether `needle` stands somewhere in `text`. The empty text stands in
/// every text.
pub open spec fn occurs_in(needle: Seq<char>, text: Seq<char>) -> bool {
    exists|at: int| occurs_at(needle, text, at)
}

/// The code of a character, that of an ASCII capital replaced by the code of
/// its small letter.
pub open spec fn ascii_fold(c: char) -> u32 {
    let code = c as u32;
    if 0x41 <= code <= 0x5a {
        (code + 0x20) as u32
    } else {
        code
    }
}

/// Whether two texts are the same but for the case of their ASCII letters.
pub open spec fn same_ignoring_ascii_case(a: Seq<char>, b: Seq<char>) -> bool {
    &&& a.len() == b.len()
    &&& forall|i: int| 0 <= i < a.len() ==> ascii_fold(#[trigger] a[i]) == ascii_fold(b[i])
}

fn occurs_at_exec(needle: &Vec<char>, text: &Vec<char>, at: usize) -> (r: bool)
    requires
        at + needle.len() <= text.len(),
    ensures
        r == occurs_at(needle@, text@, at as int),
{
    let mut k: usize = 0;
    while k < needle.len()
        invariant
            k <= needle.len(),
            at + needle.len() <= text.len(),
            forall|j: int| 0 <= j < k ==> text[at + j] == needle[j],
        decreases needle.len() - k,
    {
        if text[at + k] != needle[k] {
            return false;
        }
        k += 1;
    }
    assert(text@.subrange(at as int, at + needle.len()) =~= needle@);
    true
}

/// Whether `needle` stands somewhere in `text`.
pub fn contains(text: &str, needle: &str) -> (r: bool)
    ensures
        r == occurs_in(needle@, text@),
{
    let hay = chars_of(text);
    let pin = chars_of(needle);
    if pin.len() > hay.len() {
        return false;
    }
    let last: usize = hay.len() - pin.len();
    let mut at: usize = 0;
    while at < last
        invariant
            hay@ == text@,
            pin@ == needle@,
            at <= last,
            last == hay.len() - pin.len(),
            pin.len() <= hay.len(),
            forall|j: int| 0 <= j < at ==> !occurs_at(pin@, hay@, j),
        decreases last - at,
    {
        if occurs_at_exec(&pin, &hay, at) {
            return true;
        }
        at += 1;
    }
    occurs_at_exec(&pin, &hay, last)
}

fn ascii_fold_exec(c: char) -> (r: u32)
    ensures
        r == ascii_fold(c),
{
    let code: u32 = c as u32;
    if 0x41 <= code && code <= 0x5a {
        code + 0x20
    } else {
        code
    }
}

/// Whether two texts are the same but for the case of their ASCII letters.
pub fn eq_ignore_ascii_case(a: &str, b: &str) -> (r: bool)
    ensures
        r == same_ignoring_ascii_case(a@, b@),
{
    let left = chars_of(a);
    let right = chars_of(b);
    if left.len() != right.len() {
        return false;
    }
    let mut i: usize = 0;
    while i < left.len()
        invariant
            left@ == a@,
            right@ == b@,
            i <= left.len(),
            left.len() == right.len(),
            forall|k: int| 0 <= k < i ==> ascii_fold(#[trigger] left[k]) == ascii_fold(right[k]),
        decreases left.len() - i,
    {
        if ascii_fold_exec(left[i]) != ascii_fold_exec(right[i]) {
            return false;
        }
        i += 1;
    }
    true
}

} // verus!
