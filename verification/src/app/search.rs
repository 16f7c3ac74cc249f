//! Jumping to an item of a list by the characters typed: to the first item
//! under a letter, and on to the item that starts with what was typed.

use vstd::prelude::*;
use vstd::string::*;
use crate::seqs::{first_from, lemma_first_from};

verus! {

/// What `any_ascii` of the `any_ascii` crate returns for a string: its
/// transliteration into ASCII.
pub uninterp spec fn any_ascii_of(s: Seq<char>) -> Seq<char>;

/// The transliteration of a string into ASCII.
///
/// Calls `any_ascii` of the `any_ascii` crate. The result is a function
/// of the string alone; it is named, not described.
#[verifier::external_body]
fn transliterate(s: &str) -> (r: String)
    ensures
        r@ == any_ascii_of(s@),
{
    any_ascii::any_ascii(s)
}

/// A letter of the upper case of ASCII in lower case; any other character
/// as it is.
pub open spec fn lower_char(c: char) -> char {
    if 'A' <= c <= 'Z' {
        ((c as u8) + 32) as char
    } else {
        c
    }
}

/// A string with its ASCII letters in lower case.
pub open spec fn lower(s: Seq<char>) -> Seq<char> {
    Seq::new(s.len(), |i: int| lower_char(s[i]))
}

/// Whether a character is one of ASCII.
pub open spec fn is_ascii_char(c: char) -> bool {
    (c as u32) < 128
}

/// How many characters are tried as the first character of an item.
pub const ORDER_LEN: usize = 68;

/// The characters that are tried as the first character of an item, in the
/// order in which they are tried: from `!` to `@`, then from `[` to `~`.
pub open spec fn order_char(p: int) -> char {
    if p < 32 {
        ((33 + p) as u8) as char
    } else {
        ((91 + (p - 32)) as u8) as char
    }
}

/// Whether a string starts with another.
pub open spec fn starts_with(s: Seq<char>, prefix: Seq<char>) -> bool {
    prefix.len() <= s.len() && s.take(prefix.len() as int) == prefix
}

/// The first position from `from` on at which `needle` stands in `s`.
pub open spec fn find_sub(s: Seq<char>, needle: Seq<char>, from: int) -> Option<int>
    decreases s.len() - from,
{
    if from < 0 || from > s.len() {
        None
    } else if from + needle.len() <= s.len() && s.subrange(from, from + needle.len())
        == needle {
        Some(from)
    } else if from >= s.len() {
        None
    } else {
        find_sub(s, needle, from + 1)
    }
}

/// A string without the first occurrence of `needle`.
pub open spec fn remove_first(s: Seq<char>, needle: Seq<char>) -> Seq<char> {
    match find_sub(s, needle, 0) {
        Some(i) => s.take(i) + s.skip(i + needle.len()),
        None => s,
    }
}

/// A title as it is compared: transliterated, in lower case, without its
/// first `the `.
pub open spec fn normalized(title: Seq<char>) -> Seq<char> {
    remove_first(lower(any_ascii_of(title)), "the "@)
}

/// Whether a word starts at a position: at the start of the string and
/// behind each space.
pub open spec fn is_word_start(s: Seq<char>, i: int) -> bool {
    0 <= i <= s.len() && (i == 0 || s[i - 1] == ' ')
}

/// Where the word that starts at `i` ends: at the next space or at the end
/// of the string.
pub open spec fn word_end(s: Seq<char>, i: int) -> int
    decreases s.len() - i,
{
    if i < 0 || i >= s.len() || s[i] == ' ' {
        i
    } else {
        word_end(s, i + 1)
    }
}

/// Whether a word of the string starts with the character, whatever its
/// case.
pub open spec fn word_has_first(s: Seq<char>, c: char) -> bool {
    exists|i: int|
        0 <= i < s.len() && #[trigger] is_word_start(s, i) && s[i] != ' ' && lower_char(s[i])
            == c
}

/// Whether an item counts as standing under a character: one of the words
/// of its transliterated title starts with it where titles are taken word
/// by word, else its title as it is compared starts with it.
pub open spec fn item_has(title: Seq<char>, split: bool, c: char) -> bool {
    if split {
        word_has_first(any_ascii_of(title), c)
    } else {
        normalized(title).len() > 0 && lower_char(normalized(title)[0]) == c
    }
}

/// Trying the characters from position `p` on against one item: the item
/// is found where the character tried is the key and the item stands under
/// it; the trying stops at the key, and at a character that the item stands
/// under. Returns whether the item was found, and where the trying stands.
pub open spec fn scan_item(title: Seq<char>, split: bool, key: char, p: int) -> (bool, int)
    decreases ORDER_LEN - p,
{
    if p < 0 || p >= ORDER_LEN {
        (false, p)
    } else if item_has(title, split, order_char(p)) && order_char(p) == key {
        (true, p)
    } else if order_char(p) == key || item_has(title, split, order_char(p)) {
        (false, p)
    } else {
        scan_item(title, split, key, p + 1)
    }
}

/// The first item from `i` on that is found under the key, the trying of
/// characters going on from item to item.
pub open spec fn scan_items(titles: Seq<Seq<char>>, split: bool, key: char, p: int, i: int)
    -> Option<int>
    decreases titles.len() - i,
{
    if i < 0 || i >= titles.len() {
        None
    } else {
        let step = scan_item(titles[i], split, key, p);
        if step.0 {
            Some(i)
        } else {
            scan_items(titles, split, key, step.1, i + 1)
        }
    }
}

/// Whether the word that starts at `i` starts with `prefix`.
pub open spec fn word_starts_with(s: Seq<char>, i: int, prefix: Seq<char>) -> bool {
    starts_with(s.subrange(i, word_end(s, i)), prefix)
}

/// Whether an item starts with what was typed: one of the words of its
/// title where titles are taken word by word, else the title, each as it
/// is compared.
pub open spec fn item_starts(title: Seq<char>, split: bool, input: Seq<char>) -> bool {
    if split {
        exists|i: int|
            #[trigger] is_word_start(normalized(title), i) && word_starts_with(
                normalized(title),
                i,
                input,
            )
    } else {
        starts_with(normalized(title), input)
    }
}

/// The first item from `skip` on that starts with what was typed.
pub open spec fn find_prefix(titles: Seq<Seq<char>>, split: bool, input: Seq<char>, skip: int)
    -> Option<int> {
    first_from(titles, |title: Seq<char>| item_starts(title, split, input), skip)
}

/// Nothing is found from a position on from which the string is too short
/// to hold the needle.
pub proof fn lemma_find_sub_none(s: Seq<char>, needle: Seq<char>, from: int)
    requires
        from + needle.len() > s.len(),
    ensures
        find_sub(s, needle, from) is None,
    decreases s.len() - from,
{
    if 0 <= from < s.len() {
        lemma_find_sub_none(s, needle, from + 1);
    }
}

/// The character in lower case.
pub fn to_lower(c: char) -> (r: char)
    ensures
        r == lower_char(c),
{
    let code = c as u32;
    if 65 <= code && code <= 90 {
        ((code as u8) + 32) as char
    } else {
        c
    }
}

/// The character tried at a position.
pub fn order_at(p: usize) -> (r: char)
    requires
        p < ORDER_LEN,
    ensures
        r == order_char(p as int),
{
    if p < 32 {
        ((33 + p) as u8) as char
    } else {
        ((91 + (p - 32)) as u8) as char
    }
}

/// The characters of a string.
pub fn to_chars(s: &str) -> (r: Vec<char>)
    ensures
        r@ == s@,
{
    let n = s.unicode_len();
    let mut chars: Vec<char> = Vec::new();
    let mut i: usize = 0;
    while i < n
        invariant
            i <= n,
            n == s@.len(),
            chars@ == s@.take(i as int),
        decreases n - i,
    {
        chars.push(s.get_char(i));
        assert(s@.take(i + 1) =~= s@.take(i as int).push(s@[i as int]));
        i += 1;
    }
    assert(s@.take(n as int) =~= s@);
    chars
}

/// The characters in lower case.
pub fn to_lower_all(chars: &Vec<char>) -> (r: Vec<char>)
    ensures
        r@ == lower(chars@),
{
    let mut out: Vec<char> = Vec::new();
    let mut i: usize = 0;
    while i < chars.len()
        invariant
            i <= chars.len(),
            out.len() == i,
            forall|j: int| 0 <= j < i ==> out[j] == lower_char(chars[j]),
        decreases chars.len() - i,
    {
        out.push(to_lower(chars[i]));
        i += 1;
    }
    assert(out@ =~= lower(chars@));
    out
}

/// Whether `needle` stands in `s` at a position.
pub fn stands_at(s: &Vec<char>, needle: &Vec<char>, at: usize) -> (r: bool)
    requires
        at + needle.len() <= s.len(),
    ensures
        r == (s@.subrange(at as int, at + needle.len()) == needle@),
{
    let mut k: usize = 0;
    while k < needle.len()
        invariant
            k <= needle.len(),
            at + needle.len() <= s.len(),
            forall|j: int| 0 <= j < k ==> s[at + j] == needle[j],
        decreases needle.len() - k,
    {
        if s[at + k] != needle[k] {
            assert(s@.subrange(at as int, at + needle.len())[k as int] != needle@[k as int]);
            return false;
        }
        k += 1;
    }
    assert(s@.subrange(at as int, at + needle.len()) =~= needle@);
    true
}

/// Whether the characters start with a prefix.
pub fn has_prefix(s: &Vec<char>, prefix: &Vec<char>) -> (r: bool)
    ensures
        r == starts_with(s@, prefix@),
{
    if prefix.len() > s.len() {
        return false;
    }
    let r = stands_at(s, prefix, 0);
    assert(s@.take(prefix.len() as int) =~= s@.subrange(0, 0 + prefix.len()));
    r
}

/// The characters with those from `at` on, as many as `count`, left out.
fn cut(s: &Vec<char>, at: usize, count: usize) -> (r: Vec<char>)
    requires
        at + count <= s.len(),
    ensures
        r@ == s@.take(at as int) + s@.skip(at + count),
{
    let mut out: Vec<char> = Vec::new();
    let mut k: usize = 0;
    while k < at
        invariant
            k <= at,
            at + count <= s.len(),
            out@ == s@.take(k as int),
        decreases at - k,
    {
        out.push(s[k]);
        assert(s@.take(k + 1) =~= s@.take(k as int).push(s@[k as int]));
        k += 1;
    }
    let mut m: usize = at + count;
    while m < s.len()
        invariant
            at + count <= m <= s.len(),
            out@ == s@.take(at as int) + s@.subrange(at + count, m as int),
        decreases s.len() - m,
    {
        out.push(s[m]);
        assert(s@.subrange(at + count, m + 1) =~= s@.subrange(at + count, m as int).push(
            s@[m as int],
        ));
        m += 1;
    }
    assert(s@.subrange(at + count, s.len() as int) =~= s@.skip(at + count));
    out
}

/// The characters without the first occurrence of `needle`.
pub fn without_first(s: Vec<char>, needle: &Vec<char>) -> (r: Vec<char>)
    ensures
        r@ == remove_first(s@, needle@),
{
    if needle.len() > s.len() {
        proof {
            lemma_find_sub_none(s@, needle@, 0);
        }
        return s;
    }
    let last = s.len() - needle.len();
    let mut i: usize = 0;
    while i < last
        invariant
            i <= last,
            last == s.len() - needle.len(),
            find_sub(s@, needle@, 0) == find_sub(s@, needle@, i as int),
        decreases last - i,
    {
        if stands_at(&s, needle, i) {
            return cut(&s, i, needle.len());
        }
        i += 1;
    }
    if stands_at(&s, needle, last) {
        return cut(&s, last, needle.len());
    }
    proof {
        lemma_find_sub_none(s@, needle@, last + 1);
    }
    s
}

/// The title as it is compared.
pub fn normalize(title: &str) -> (r: Vec<char>)
    ensures
        r@ == normalized(title@),
{
    let ascii = transliterate(title);
    let chars = to_chars(ascii.as_str());
    let lowered = to_lower_all(&chars);
    let mut the: Vec<char> = Vec::new();
    the.push('t');
    the.push('h');
    the.push('e');
    the.push(' ');
    proof {
        reveal_strlit("the ");
        assert(the@ =~= "the "@);
    }
    without_first(lowered, &the)
}

/// Whether a word of the characters starts with the character, whatever
/// its case.
pub fn has_word_under(s: &Vec<char>, c: char) -> (r: bool)
    ensures
        r == word_has_first(s@, c),
{
    let mut i: usize = 0;
    while i < s.len()
        invariant
            i <= s.len(),
            forall|j: int|
                0 <= j < i ==> !(#[trigger] is_word_start(s@, j) && s[j] != ' ' && lower_char(
                    s[j],
                ) == c),
        decreases s.len() - i,
    {
        if (i == 0 || s[i - 1] == ' ') && s[i] != ' ' && to_lower(s[i]) == c {
            assert(is_word_start(s@, i as int));
            return true;
        }
        i += 1;
    }
    false
}

/// Whether a word starts at a position and starts with a prefix.
fn word_at_starts_with(s: &Vec<char>, prefix: &Vec<char>, i: usize) -> (r: bool)
    requires
        i <= s.len(),
    ensures
        r == (is_word_start(s@, i as int) && word_starts_with(s@, i as int, prefix@)),
{
    if !(i == 0 || s[i - 1] == ' ') {
        return false;
    }
    let mut end: usize = i;
    while end < s.len() && s[end] != ' '
        invariant
            i <= end <= s.len(),
            word_end(s@, i as int) == word_end(s@, end as int),
        decreases s.len() - end,
    {
        end += 1;
    }
    let mut fits = prefix.len() <= end - i;
    if fits {
        fits = stands_at(s, prefix, i);
    }
    proof {
        let word = s@.subrange(i as int, end as int);
        if prefix.len() <= end - i {
            assert(word.take(prefix.len() as int) =~= s@.subrange(i as int, i + prefix.len()));
        }
    }
    fits
}

/// Whether a word of the characters starts with a prefix.
pub fn has_word_with_prefix(s: &Vec<char>, prefix: &Vec<char>) -> (r: bool)
    ensures
        r == exists|i: int| #[trigger] is_word_start(s@, i) && word_starts_with(s@, i, prefix@),
{
    let mut i: usize = 0;
    while i < s.len()
        invariant
            i <= s.len(),
            forall|j: int|
                0 <= j < i ==> !(#[trigger] is_word_start(s@, j) && word_starts_with(
                    s@,
                    j,
                    prefix@,
                )),
        decreases s.len() - i,
    {
        if word_at_starts_with(s, prefix, i) {
            return true;
        }
        i += 1;
    }
    if word_at_starts_with(s, prefix, s.len()) {
        return true;
    }
    assert forall|j: int| #[trigger] is_word_start(s@, j) implies !word_starts_with(
        s@,
        j,
        prefix@,
    ) by {}
    false
}

/// What of a title is looked at where items are found by their first
/// character.
fn first_char_form(title: &str, split: bool) -> (r: Vec<char>)
    ensures
        r@ == if split {
            any_ascii_of(title@)
        } else {
            normalized(title@)
        },
{
    if split {
        let ascii = transliterate(title);
        to_chars(ascii.as_str())
    } else {
        normalize(title)
    }
}

fn has_under(form: &Vec<char>, split: bool, c: char) -> (r: bool)
    ensures
        r == if split {
            word_has_first(form@, c)
        } else {
            form@.len() > 0 && lower_char(form@[0]) == c
        },
{
    if split {
        has_word_under(form, c)
    } else {
        form.len() > 0 && to_lower(form[0]) == c
    }
}

/// Finds the first item under the key.
pub fn find_by_first_char(titles: &Vec<String>, split: bool, key: char) -> (r: Option<usize>)
    ensures
        match r {
            Some(i) => i < titles.len() && scan_items(titles.deep_view(), split, key, 0, 0)
                == Some(i as int),
            None => scan_items(titles.deep_view(), split, key, 0, 0) is None,
        },
{
    let ghost all = titles.deep_view();
    let mut p: usize = 0;
    let mut i: usize = 0;
    while i < titles.len()
        invariant
            i <= titles.len(),
            p <= ORDER_LEN,
            all == titles.deep_view(),
            scan_items(all, split, key, 0, 0) == scan_items(all, split, key, p as int, i as int),
        decreases titles.len() - i,
    {
        let form = first_char_form(titles[i].as_str(), split);
        let ghost title = all[i as int];
        let mut found = false;
        let mut stopped = false;
        while p < ORDER_LEN && !stopped
            invariant
                p <= ORDER_LEN,
                title == all[i as int],
                form@ == if split {
                    any_ascii_of(title)
                } else {
                    normalized(title)
                },
                found ==> stopped,
                stopped ==> scan_item(title, split, key, p as int) == (found, p as int),
                scan_items(all, split, key, 0, 0) == scan_items(
                    all,
                    split,
                    key,
                    p as int,
                    i as int,
                ),
                0 <= i < all.len(),
            decreases ORDER_LEN - p + (if stopped { 0int } else { 1int }),
        {
            let pop = order_at(p);
            let has = has_under(&form, split, pop);
            assert(has == item_has(title, split, pop));
            if has && pop == key {
                found = true;
                stopped = true;
            } else if pop == key || has {
                stopped = true;
            } else {
                p += 1;
            }
        }
        if found {
            return Some(i);
        }
        i += 1;
    }
    None
}

/// Finds the first item from `skip` on that starts with what was typed.
pub fn find_by_prefix(titles: &Vec<String>, split: bool, input: &Vec<char>, skip: usize) -> (r:
    Option<usize>)
    ensures
        match r {
            Some(i) => i < titles.len() && find_prefix(
                titles.deep_view(),
                split,
                input@,
                skip as int,
            ) == Some(i as int),
            None => find_prefix(titles.deep_view(), split, input@, skip as int) is None,
        },
{
    let ghost all = titles.deep_view();
    let ghost p = |title: Seq<char>| item_starts(title, split, input@);
    let mut i: usize = skip;
    proof {
        lemma_first_from(all, p, skip as int);
    }
    while i < titles.len()
        invariant
            skip <= i,
            all == titles.deep_view(),
            p == |title: Seq<char>| item_starts(title, split, input@),
            first_from(all, p, skip as int) == first_from(all, p, i as int),
        decreases titles.len() - i,
    {
        let form = normalize(titles[i].as_str());
        let fits = if split {
            has_word_with_prefix(&form, input)
        } else {
            has_prefix(&form, input)
        };
        assert(fits == p(all[i as int]));
        if fits {
            return Some(i);
        }
        i += 1;
    }
    None
}

} // verus!
