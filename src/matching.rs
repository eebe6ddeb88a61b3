//! The shared matching rule: a code matches a text when it is one of the
//! whitespace-separated words of that text, exactly.
use vstd::prelude::*;

verus! {

/// Whether `c` has Unicode's `White_Space` property, the white space of
/// `char::is_whitespace` and `str::split_whitespace`.
pub open spec fn is_white(c: char) -> bool {
    let u = c as u32;
    ||| 0x9 <= u <= 0xd
    ||| u == 0x20
    ||| u == 0x85
    ||| u == 0xa0
    ||| u == 0x1680
    ||| 0x2000 <= u <= 0x200a
    ||| u == 0x2028
    ||| u == 0x2029
    ||| u == 0x202f
    ||| u == 0x205f
    ||| u == 0x3000
}

/// Whether `c` is white space.
pub fn white_space(c: char) -> (r: bool)
    ensures
        r == is_white(c),
{
    let u = c as u32;
    (0x9 <= u && u <= 0xd) || u == 0x20 || u == 0x85 || u == 0xa0 || u == 0x1680 || (0x2000
        <= u && u <= 0x200a) || u == 0x2028 || u == 0x2029 || u == 0x202f || u == 0x205f || u
        == 0x3000
}

/// `w` holds no white space.
pub open spec fn is_word(w: Seq<char>) -> bool {
    &&& w.len() > 0
    &&& forall|k: int| 0 <= k < w.len() ==> !is_white(#[trigger] w[k])
}

/// `w` stands in `s` at position `i` as a whole word: it is there, holds no
/// white space, and is bounded on each side by white space or an end of `s`.
pub open spec fn word_at(s: Seq<char>, w: Seq<char>, i: int) -> bool {
    &&& is_word(w)
    &&& 0 <= i
    &&& i + w.len() <= s.len()
    &&& s.subrange(i, i + w.len()) == w
    &&& (i == 0 || is_white(s[i - 1]))
    &&& (i + w.len() == s.len() || is_white(s[i + w.len()]))
}

/// `w` is one of the words that splitting `s` on white space gives.
pub open spec fn has_word(s: Seq<char>, w: Seq<char>) -> bool {
    exists|i: int| word_at(s, w, i)
}

/// Some fragment of `fragments` has `code` among its words.
pub open spec fn any_has_word(fragments: Seq<Seq<char>>, code: Seq<char>) -> bool {
    exists|j: int| 0 <= j < fragments.len() && has_word(#[trigger] fragments[j], code)
}

/// The texts that a list of strings holds.
pub open spec fn texts(v: Seq<String>) -> Seq<Seq<char>> {
    v.map_values(|s: String| s@)
}

/// The characters of `s`, in order.
pub(crate) fn chars_of(s: &str) -> (r: Vec<char>)
    ensures
        r@ == s@,
{
    let n = s.unicode_len();
    let mut r: Vec<char> = Vec::new();
    let mut i: usize = 0;
    while i < n
        invariant
            n == s@.len(),
            i <= n,
            r@ == s@.subrange(0, i as int),
        decreases n - i,
    {
        r.push(s.get_char(i));
        i += 1;
    }
    assert(r@ =~= s@);
    r
}

/// Whether `w` holds no white space and is not empty.
fn word_check(w: &Vec<char>) -> (r: bool)
    ensures
        r == is_word(w@),
{
    if w.len() == 0 {
        return false;
    }
    let mut k: usize = 0;
    while k < w.len()
        invariant
            k <= w@.len(),
            forall|m: int| 0 <= m < k ==> !is_white(#[trigger] w@[m]),
        decreases w@.len() - k,
    {
        if white_space(w[k]) {
            return false;
        }
        k += 1;
    }
    true
}

/// Whether `w` occurs in `s` at `i`, character for character.
fn occurs_at(s: &Vec<char>, w: &Vec<char>, i: usize) -> (r: bool)
    requires
        i + w@.len() <= s@.len(),
    ensures
        r == (s@.subrange(i as int, i + w@.len()) == w@),
{
    let n = s.len();
    let mut k: usize = 0;
    while k < w.len()
        invariant
            n == s@.len(),
            i + w@.len() <= s@.len(),
            k <= w@.len(),
            forall|m: int| 0 <= m < k ==> s@[i + m] == w@[m],
        decreases w@.len() - k,
    {
        if s[i + k] != w[k] {
            assert(s@.subrange(i as int, i + w@.len())[k as int] != w@[k as int]);
            return false;
        }
        k += 1;
    }
    assert(s@.subrange(i as int, i + w@.len()) =~= w@);
    true
}

/// Whether `w` is one of the words of `s`, given that `w` is a word.
fn word_in(s: &Vec<char>, w: &Vec<char>) -> (r: bool)
    requires
        is_word(w@),
    ensures
        r == has_word(s@, w@),
{
    if w.len() > s.len() {
        return false;
    }
    let n = s.len();
    let last = n - w.len();
    let mut i: usize = 0;
    while i <= last
        invariant
            is_word(w@),
            n == s@.len(),
            last == s@.len() - w@.len(),
            i <= last + 1,
            forall|j: int| 0 <= j < i ==> !word_at(s@, w@, j),
        decreases last + 1 - i,
    {
        let left = i == 0 || white_space(s[i - 1]);
        let right = i == last || white_space(s[i + w.len()]);
        if left && right && occurs_at(s, w, i) {
            assert(word_at(s@, w@, i as int));
            return true;
        }
        if i == last {
            return false;
        }
        i += 1;
    }
    false
}

/// Whether `code` is one of the words that splitting `text` on white space
/// gives, exactly.
pub fn has_code(text: &str, code: &str) -> (r: bool)
    ensures
        r == has_word(text@, code@),
{
    let w = chars_of(code);
    if !word_check(&w) {
        return false;
    }
    let s = chars_of(text);
    word_in(&s, &w)
}

/// The matching rule: whether some fragment, split on white space, has a
/// word equal to `code` exactly (case and all; a longer word that holds
/// `code` does not count).
pub fn contains_code(fragments: &Vec<String>, code: &str) -> (r: bool)
    ensures
        r == any_has_word(texts(fragments@), code@),
{
    let w = chars_of(code);
    if !word_check(&w) {
        assert forall|j: int| 0 <= j < texts(fragments@).len() implies !has_word(
            #[trigger] texts(fragments@)[j],
            code@,
        ) by {
            assert(!is_word(code@));
        }
        return false;
    }
    let mut j: usize = 0;
    while j < fragments.len()
        invariant
            w@ == code@,
            is_word(code@),
            j <= fragments@.len(),
            forall|m: int| 0 <= m < j ==> !has_word(#[trigger] fragments@[m]@, code@),
        decreases fragments@.len() - j,
    {
        let s = chars_of(fragments[j].as_str());
        if word_in(&s, &w) {
            assert(texts(fragments@)[j as int] == fragments@[j as int]@);
            return true;
        }
        j += 1;
    }
    assert forall|m: int| 0 <= m < texts(fragments@).len() implies !has_word(
        #[trigger] texts(fragments@)[m],
        code@,
    ) by {
        assert(texts(fragments@)[m] == fragments@[m]@);
    }
    false
}

} // verus!
