//! Text as a sequence of characters: the string operations the rest of the library is built on.
//!
//! A `String` or `&str` is modelled by its view, a `Seq<char>`. Every operation here states its
//! result over that view.
use vstd::prelude::*;
use vstd::string::*;
use crate::values::{lemma_filter_ends, lemma_filter_step};

verus! {

/// `String::push` appends one character.
pub assume_specification[ String::push ](text: &mut String, c: char)
    ensures
        final(text)@ == old(text)@.push(c),
;

// ---------------------------------------------------------------------------------------------
// Characters
// ---------------------------------------------------------------------------------------------
/// The characters with the Unicode property `White_Space`.
pub open spec fn is_white(c: char) -> bool {
    let n = c as int;
    ||| 0x09 <= n <= 0x0d
    ||| n == 0x20
    ||| n == 0x85
    ||| n == 0xa0
    ||| n == 0x1680
    ||| 0x2000 <= n <= 0x200a
    ||| n == 0x2028
    ||| n == 0x2029
    ||| n == 0x202f
    ||| n == 0x205f
    ||| n == 0x3000
}

/// The characters of the Unicode general category `Cc`.
pub open spec fn is_control(c: char) -> bool {
    let n = c as int;
    n <= 0x1f || 0x7f <= n <= 0x9f
}

pub open spec fn is_ascii_digit(c: char) -> bool {
    '0' <= c <= '9'
}

pub open spec fn is_ascii_upper(c: char) -> bool {
    'A' <= c <= 'Z'
}

pub open spec fn is_ascii_lower(c: char) -> bool {
    'a' <= c <= 'z'
}

pub open spec fn is_ascii_alphanumeric(c: char) -> bool {
    is_ascii_digit(c) || is_ascii_upper(c) || is_ascii_lower(c)
}

/// The lower-case form of an ASCII letter; any other character is unchanged.
pub open spec fn lower_char(c: char) -> char {
    if is_ascii_upper(c) {
        (c as int + 32) as char
    } else {
        c
    }
}

/// The text with every ASCII letter in lower case.
pub open spec fn lower(s: Seq<char>) -> Seq<char> {
    s.map_values(|c: char| lower_char(c))
}

/// The code point of a character.
pub fn char_code(c: char) -> (r: u32)
    ensures
        r == c as int,
{
    c as u32
}

pub fn char_is_white(c: char) -> (r: bool)
    ensures
        r == is_white(c),
{
    let n: u32 = c as u32;
    (0x09 <= n && n <= 0x0d) || n == 0x20 || n == 0x85 || n == 0xa0 || n == 0x1680 || (0x2000 <= n
        && n <= 0x200a) || n == 0x2028 || n == 0x2029 || n == 0x202f || n == 0x205f || n == 0x3000
}

pub fn char_is_control(c: char) -> (r: bool)
    ensures
        r == is_control(c),
{
    let n: u32 = c as u32;
    n <= 0x1f || (0x7f <= n && n <= 0x9f)
}

pub fn char_is_ascii_digit(c: char) -> (r: bool)
    ensures
        r == is_ascii_digit(c),
{
    let n: u32 = c as u32;
    48 <= n && n <= 57
}

pub fn char_is_ascii_alphanumeric(c: char) -> (r: bool)
    ensures
        r == is_ascii_alphanumeric(c),
{
    let n: u32 = c as u32;
    (48 <= n && n <= 57) || (65 <= n && n <= 90) || (97 <= n && n <= 122)
}

pub fn char_lower(c: char) -> (r: char)
    ensures
        r == lower_char(c),
{
    let n: u32 = c as u32;
    if 65 <= n && n <= 90 {
        ((n as u8) + 32) as char
    } else {
        c
    }
}

// ---------------------------------------------------------------------------------------------
// Between strings and vectors of characters
// ---------------------------------------------------------------------------------------------
/// The characters of `s`, in order.
pub fn chars_of(s: &str) -> (r: Vec<char>)
    ensures
        r@ == s@,
{
    let mut r: Vec<char> = Vec::new();
    for c in it: s.chars()
        invariant
            r@ == it.seq().take(it.index() as int),
            it.seq() == s@,
    {
        r.push(c);
    }
    r
}

/// The text made of `chars[from..to]`.
pub fn text_between(chars: &Vec<char>, from: usize, to: usize) -> (r: String)
    requires
        from <= to <= chars@.len(),
    ensures
        r@ == chars@.subrange(from as int, to as int),
{
    let mut r: String = String::new();
    let mut i: usize = from;
    while i < to
        invariant
            from <= i <= to <= chars@.len(),
            r@ == chars@.subrange(from as int, i as int),
        decreases to - i,
    {
        r.push(chars[i]);
        i = i + 1;
    }
    r
}

/// The text made of all of `chars`.
pub fn text_of(chars: &Vec<char>) -> (r: String)
    ensures
        r@ == chars@,
{
    let r = text_between(chars, 0, chars.len());
    assert(chars@.subrange(0, chars@.len() as int) =~= chars@);
    r
}

/// Whether two pieces of text hold the same characters.
pub fn same_text(a: &str, b: &str) -> (r: bool)
    ensures
        r == (a@ == b@),
{
    a.to_owned() == b.to_owned()
}

/// `a` followed by `b`.
pub fn join2(a: &str, b: &str) -> (r: String)
    ensures
        r@ == a@ + b@,
{
    let mut r: String = a.to_owned();
    r.append(b);
    r
}

/// `a`, `b` and `c`, one after the other.
pub fn join3(a: &str, b: &str, c: &str) -> (r: String)
    ensures
        r@ == a@ + b@ + c@,
{
    let mut r: String = a.to_owned();
    r.append(b);
    r.append(c);
    r
}

/// `a`, `b`, `c` and `d`, one after the other.
pub fn join4(a: &str, b: &str, c: &str, d: &str) -> (r: String)
    ensures
        r@ == a@ + b@ + c@ + d@,
{
    let mut r: String = join3(a, b, c);
    r.append(d);
    r
}

/// `a`, `b`, `c`, `d` and `e`, one after the other.
pub fn join5(a: &str, b: &str, c: &str, d: &str, e: &str) -> (r: String)
    ensures
        r@ == a@ + b@ + c@ + d@ + e@,
{
    let mut r: String = join4(a, b, c, d);
    r.append(e);
    r
}

/// Seven pieces of text, one after the other.
pub fn join7(a: &str, b: &str, c: &str, d: &str, e: &str, f: &str, g: &str) -> (r: String)
    ensures
        r@ == a@ + b@ + c@ + d@ + e@ + f@ + g@,
{
    let mut r: String = join5(a, b, c, d, e);
    r.append(f);
    r.append(g);
    r
}

// ---------------------------------------------------------------------------------------------
// Properties of every character
// ---------------------------------------------------------------------------------------------
pub open spec fn has_control(s: Seq<char>) -> bool {
    exists|i: int| 0 <= i < s.len() && #[trigger] is_control(s[i])
}

pub open spec fn has_white(s: Seq<char>) -> bool {
    exists|i: int| 0 <= i < s.len() && #[trigger] is_white(s[i])
}

pub open spec fn all_digits(s: Seq<char>) -> bool {
    forall|i: int| 0 <= i < s.len() ==> #[trigger] is_ascii_digit(s[i])
}

pub fn text_has_control(s: &str) -> (r: bool)
    ensures
        r == has_control(s@),
{
    let chars = chars_of(s);
    let mut i: usize = 0;
    while i < chars.len()
        invariant
            chars@ == s@,
            i <= chars@.len(),
            forall|k: int| 0 <= k < i ==> !#[trigger] is_control(s@[k]),
        decreases chars@.len() - i,
    {
        if char_is_control(chars[i]) {
            return true;
        }
        i = i + 1;
    }
    false
}

pub fn text_has_white(s: &str) -> (r: bool)
    ensures
        r == has_white(s@),
{
    let chars = chars_of(s);
    let mut i: usize = 0;
    while i < chars.len()
        invariant
            chars@ == s@,
            i <= chars@.len(),
            forall|k: int| 0 <= k < i ==> !#[trigger] is_white(s@[k]),
        decreases chars@.len() - i,
    {
        if char_is_white(chars[i]) {
            return true;
        }
        i = i + 1;
    }
    false
}

pub fn text_has_char(s: &str, c: char) -> (r: bool)
    ensures
        r == s@.contains(c),
{
    let chars = chars_of(s);
    let mut i: usize = 0;
    while i < chars.len()
        invariant
            chars@ == s@,
            i <= chars@.len(),
            forall|k: int| 0 <= k < i ==> s@[k] != c,
        decreases chars@.len() - i,
    {
        if chars[i] == c {
            return true;
        }
        i = i + 1;
    }
    false
}

/// The text with every ASCII letter in lower case.
pub fn text_lower(s: &str) -> (r: String)
    ensures
        r@ == lower(s@),
{
    let mut r: String = String::new();
    let chars = chars_of(s);
    let mut i: usize = 0;
    while i < chars.len()
        invariant
            chars@ == s@,
            i <= chars@.len(),
            r@ == lower(s@.take(i as int)),
        decreases chars@.len() - i,
    {
        r.push(char_lower(chars[i]));
        i = i + 1;
        assert(lower(s@.take(i as int)) =~= lower(s@.take(i as int - 1)).push(
            lower_char(s@[i as int - 1]),
        ));
    }
    assert(s@.take(i as int) =~= s@);
    r
}

/// A character with ASCII letters in upper case.
pub open spec fn upper_char(c: char) -> char {
    if is_ascii_lower(c) {
        ((c as u32) - 32) as char
    } else {
        c
    }
}

/// The text with every ASCII letter in upper case.
pub open spec fn upper(s: Seq<char>) -> Seq<char> {
    s.map_values(|c: char| upper_char(c))
}

/// A character with ASCII letters in upper case.
pub fn char_upper(c: char) -> (r: char)
    ensures
        r == upper_char(c),
{
    let n: u32 = c as u32;
    if 97 <= n && n <= 122 {
        ((n as u8) - 32) as char
    } else {
        c
    }
}

/// The text with every ASCII letter in upper case.
pub fn text_upper(s: &str) -> (r: String)
    ensures
        r@ == upper(s@),
{
    let mut r: String = String::new();
    let chars = chars_of(s);
    let mut i: usize = 0;
    while i < chars.len()
        invariant
            chars@ == s@,
            i <= chars@.len(),
            r@ == upper(s@.take(i as int)),
        decreases chars@.len() - i,
    {
        r.push(char_upper(chars[i]));
        i = i + 1;
        assert(upper(s@.take(i as int)) =~= upper(s@.take(i as int - 1)).push(
            upper_char(s@[i as int - 1]),
        ));
    }
    assert(s@.take(i as int) =~= s@);
    r
}

/// The characters that are not control characters.
pub open spec fn visible(s: Seq<char>) -> Seq<char> {
    s.filter(|c: char| !is_control(c))
}

/// The characters that are not control characters.
pub fn text_visible(s: &str) -> (r: String)
    ensures
        r@ == visible(s@),
{
    let chars = chars_of(s);
    let ghost keep = |c: char| !is_control(c);
    let mut r: String = String::new();
    let mut i: usize = 0;
    proof {
        lemma_filter_ends(s@, keep);
    }
    while i < chars.len()
        invariant
            i <= chars@.len(),
            chars@ == s@,
            keep == (|c: char| !is_control(c)),
            r@ == s@.take(i as int).filter(keep),
        decreases chars@.len() - i,
    {
        proof {
            lemma_filter_step(s@, i as int, keep);
        }
        if !char_is_control(chars[i]) {
            r.push(chars[i]);
        }
        i = i + 1;
    }
    r
}

/// The ASCII letters and digits.
pub open spec fn alphanumeric(s: Seq<char>) -> Seq<char> {
    s.filter(|c: char| is_ascii_alphanumeric(c))
}

/// The ASCII letters and digits.
pub fn text_alphanumeric(s: &str) -> (r: String)
    ensures
        r@ == alphanumeric(s@),
{
    let chars = chars_of(s);
    let ghost keep = |c: char| is_ascii_alphanumeric(c);
    let mut r: String = String::new();
    let mut i: usize = 0;
    proof {
        lemma_filter_ends(s@, keep);
    }
    while i < chars.len()
        invariant
            i <= chars@.len(),
            chars@ == s@,
            keep == (|c: char| is_ascii_alphanumeric(c)),
            r@ == s@.take(i as int).filter(keep),
        decreases chars@.len() - i,
    {
        proof {
            lemma_filter_step(s@, i as int, keep);
        }
        if char_is_ascii_alphanumeric(chars[i]) {
            r.push(chars[i]);
        }
        i = i + 1;
    }
    r
}

// ---------------------------------------------------------------------------------------------
// Trimming
// ---------------------------------------------------------------------------------------------
/// `s` without its leading white space.
pub open spec fn trim_start(s: Seq<char>) -> Seq<char>
    decreases s.len(),
{
    if s.len() > 0 && is_white(s[0]) {
        trim_start(s.drop_first())
    } else {
        s
    }
}

/// `s` without its trailing white space.
pub open spec fn trim_end(s: Seq<char>) -> Seq<char>
    decreases s.len(),
{
    if s.len() > 0 && is_white(s.last()) {
        trim_end(s.drop_last())
    } else {
        s
    }
}

/// `s` without white space at either end.
pub open spec fn trim(s: Seq<char>) -> Seq<char> {
    trim_end(trim_start(s))
}

/// A text that is empty or all white space.
pub open spec fn is_blank(s: Seq<char>) -> bool {
    trim(s).len() == 0
}

pub fn text_trim(s: &str) -> (r: String)
    ensures
        r@ == trim(s@),
{
    let chars = chars_of(s);
    let mut from: usize = 0;
    assert(s@.subrange(0, s@.len() as int) =~= s@);
    while from < chars.len() && char_is_white(chars[from])
        invariant
            chars@ == s@,
            from <= chars@.len(),
            trim_start(s@) == trim_start(s@.subrange(from as int, s@.len() as int)),
        decreases chars@.len() - from,
    {
        assert(s@.subrange(from as int, s@.len() as int).drop_first() =~= s@.subrange(
            from as int + 1,
            s@.len() as int,
        ));
        from = from + 1;
    }
    assert(trim_start(s@) == s@.subrange(from as int, s@.len() as int));
    let mut to: usize = chars.len();
    while to > from && char_is_white(chars[to - 1])
        invariant
            chars@ == s@,
            from <= to <= chars@.len(),
            trim(s@) == trim_end(s@.subrange(from as int, to as int)),
        decreases to - from,
    {
        assert(s@.subrange(from as int, to as int).drop_last() =~= s@.subrange(
            from as int,
            to as int - 1,
        ));
        to = to - 1;
    }
    text_between(&chars, from, to)
}

/// `s` without the characters `c` that it starts with.
pub open spec fn without_leading(s: Seq<char>, c: char) -> Seq<char>
    decreases s.len(),
{
    if s.len() > 0 && s[0] == c {
        without_leading(s.drop_first(), c)
    } else {
        s
    }
}

pub fn text_without_leading(s: &str, c: char) -> (r: String)
    ensures
        r@ == without_leading(s@, c),
{
    let chars = chars_of(s);
    let mut from: usize = 0;
    assert(s@.subrange(0, s@.len() as int) =~= s@);
    while from < chars.len() && chars[from] == c
        invariant
            chars@ == s@,
            from <= chars@.len(),
            without_leading(s@, c) == without_leading(s@.subrange(from as int, s@.len() as int), c),
        decreases chars@.len() - from,
    {
        assert(s@.subrange(from as int, s@.len() as int).drop_first() =~= s@.subrange(
            from as int + 1,
            s@.len() as int,
        ));
        from = from + 1;
    }
    text_between(&chars, from, chars.len())
}

// ---------------------------------------------------------------------------------------------
// Searching
// ---------------------------------------------------------------------------------------------
/// `part` stands in `s` at position `i`.
pub open spec fn occurs_at(s: Seq<char>, part: Seq<char>, i: int) -> bool {
    0 <= i && i + part.len() <= s.len() && s.subrange(i, i + part.len()) == part
}

/// `part` stands somewhere in `s`.
pub open spec fn contains_text(s: Seq<char>, part: Seq<char>) -> bool {
    exists|i: int| #[trigger] occurs_at(s, part, i)
}

pub open spec fn has_prefix(s: Seq<char>, part: Seq<char>) -> bool {
    occurs_at(s, part, 0)
}

pub open spec fn has_suffix(s: Seq<char>, part: Seq<char>) -> bool {
    occurs_at(s, part, s.len() - part.len())
}

/// The first position at or after `from` where `part` stands in `s`.
pub open spec fn find_from(s: Seq<char>, part: Seq<char>, from: int) -> Option<int>
    decreases s.len() + 1 - from,
{
    if from < 0 || from + part.len() > s.len() {
        None
    } else if occurs_at(s, part, from) {
        Some(from)
    } else {
        find_from(s, part, from + 1)
    }
}

/// The last position before `end` where `part` stands in `s`.
pub open spec fn rfind_before(s: Seq<char>, part: Seq<char>, end: int) -> Option<int>
    decreases end,
{
    if end <= 0 {
        None
    } else if occurs_at(s, part, end - 1) {
        Some(end - 1)
    } else {
        rfind_before(s, part, end - 1)
    }
}

/// The first position of `part` in `s`.
pub open spec fn find(s: Seq<char>, part: Seq<char>) -> Option<int> {
    find_from(s, part, 0)
}

/// The last position of `part` in `s`.
pub open spec fn rfind(s: Seq<char>, part: Seq<char>) -> Option<int> {
    rfind_before(s, part, s.len() as int + 1)
}

/// What `find_from` returns is the least match at or after `from`, or there is none.
pub proof fn lemma_find_from(s: Seq<char>, part: Seq<char>, from: int)
    requires
        0 <= from,
    ensures
        match find_from(s, part, from) {
            Some(i) => from <= i && occurs_at(s, part, i) && (forall|j: int|
                from <= j < i ==> !#[trigger] occurs_at(s, part, j)),
            None => forall|j: int| from <= j ==> !#[trigger] occurs_at(s, part, j),
        },
    decreases s.len() + 1 - from,
{
    if from + part.len() <= s.len() && !occurs_at(s, part, from) {
        lemma_find_from(s, part, from + 1);
    }
}

/// What `rfind_before` returns is the greatest match before `end`, or there is none.
pub proof fn lemma_rfind_before(s: Seq<char>, part: Seq<char>, end: int)
    ensures
        match rfind_before(s, part, end) {
            Some(i) => i < end && occurs_at(s, part, i) && (forall|j: int|
                i < j < end ==> !#[trigger] occurs_at(s, part, j)),
            None => forall|j: int| j < end ==> !#[trigger] occurs_at(s, part, j),
        },
    decreases end,
{
    if end > 0 && !occurs_at(s, part, end - 1) {
        lemma_rfind_before(s, part, end - 1);
    }
}

fn chars_occur_at(chars: &Vec<char>, part: &Vec<char>, i: usize) -> (r: bool)
    requires
        i + part@.len() <= chars@.len(),
    ensures
        r == occurs_at(chars@, part@, i as int),
{
    let mut k: usize = 0;
    while k < part.len()
        invariant
            i + part.len() <= chars.len(),
            k <= part.len(),
            forall|j: int| 0 <= j < k ==> chars@[i + j] == part@[j],
        decreases part@.len() - k,
    {
        if chars[i + k] != part[k] {
            assert(chars@.subrange(i as int, i + part@.len())[k as int] != part@[k as int]);
            return false;
        }
        k = k + 1;
    }
    assert(chars@.subrange(i as int, i + part@.len()) =~= part@);
    true
}

/// The position, counted in characters, where `part` first stands in `s`.
pub fn text_find(s: &str, part: &str) -> (r: Option<usize>)
    ensures
        match r {
            Some(i) => find(s@, part@) == Some(i as int),
            None => find(s@, part@) is None,
        },
{
    let chars = chars_of(s);
    let wanted = chars_of(part);
    if wanted.len() > chars.len() {
        return None;
    }
    let last: usize = chars.len() - wanted.len();
    let mut i: usize = 0;
    while i <= last
        invariant
            chars@ == s@,
            wanted@ == part@,
            last == chars@.len() - wanted@.len(),
            i <= last + 1,
            last < usize::MAX || i <= last,
            find(s@, part@) == find_from(s@, part@, i as int),
        decreases last + 1 - i,
    {
        if chars_occur_at(&chars, &wanted, i) {
            return Some(i);
        }
        if i == last {
            return None;
        }
        i = i + 1;
    }
    None
}

/// The position, counted in characters, where `part` last stands in `s`.
pub fn text_rfind(s: &str, part: &str) -> (r: Option<usize>)
    ensures
        match r {
            Some(i) => rfind(s@, part@) == Some(i as int),
            None => rfind(s@, part@) is None,
        },
{
    let chars = chars_of(s);
    let wanted = chars_of(part);
    proof {
        lemma_rfind_before(s@, part@, s@.len() as int + 1);
    }
    if wanted.len() > chars.len() {
        return None;
    }
    let mut i: usize = chars.len() - wanted.len();
    loop
        invariant
            chars@ == s@,
            wanted@ == part@,
            i + wanted@.len() <= chars@.len(),
            forall|j: int| i < j <= s@.len() ==> !#[trigger] occurs_at(s@, part@, j),
            match rfind(s@, part@) {
                Some(k) => k < s@.len() + 1 && occurs_at(s@, part@, k) && (forall|j: int|
                    k < j < s@.len() + 1 ==> !#[trigger] occurs_at(s@, part@, j)),
                None => forall|j: int| j < s@.len() + 1 ==> !#[trigger] occurs_at(s@, part@, j),
            },
        decreases i,
    {
        if chars_occur_at(&chars, &wanted, i) {
            return Some(i);
        }
        if i == 0 {
            return None;
        }
        i = i - 1;
    }
}

/// Whether `part` stands somewhere in `s`.
pub fn text_contains(s: &str, part: &str) -> (r: bool)
    ensures
        r == contains_text(s@, part@),
{
    proof {
        lemma_find_from(s@, part@, 0);
    }
    text_find(s, part).is_some()
}

pub fn text_starts_with(s: &str, part: &str) -> (r: bool)
    ensures
        r == has_prefix(s@, part@),
{
    let chars = chars_of(s);
    let wanted = chars_of(part);
    wanted.len() <= chars.len() && chars_occur_at(&chars, &wanted, 0)
}

pub fn text_ends_with(s: &str, part: &str) -> (r: bool)
    ensures
        r == has_suffix(s@, part@),
{
    let chars = chars_of(s);
    let wanted = chars_of(part);
    wanted.len() <= chars.len() && chars_occur_at(&chars, &wanted, chars.len() - wanted.len())
}

/// The text after `part`, where `s` starts with it.
pub open spec fn strip_prefix(s: Seq<char>, part: Seq<char>) -> Option<Seq<char>> {
    if has_prefix(s, part) {
        Some(s.skip(part.len() as int))
    } else {
        None
    }
}

/// The text before `part`, where `s` ends with it.
pub open spec fn strip_suffix(s: Seq<char>, part: Seq<char>) -> Option<Seq<char>> {
    if has_suffix(s, part) {
        Some(s.take(s.len() - part.len()))
    } else {
        None
    }
}

pub fn text_strip_prefix(s: &str, part: &str) -> (r: Option<String>)
    ensures
        r.deep_view() == strip_prefix(s@, part@),
{
    if text_starts_with(s, part) {
        let chars = chars_of(s);
        let from: usize = chars_of(part).len();
        Some(text_between(&chars, from, chars.len()))
    } else {
        None
    }
}

pub fn text_strip_suffix(s: &str, part: &str) -> (r: Option<String>)
    ensures
        r.deep_view() == strip_suffix(s@, part@),
{
    if text_ends_with(s, part) {
        let chars = chars_of(s);
        let count: usize = chars_of(part).len();
        Some(text_between(&chars, 0, chars.len() - count))
    } else {
        None
    }
}

/// The text before and the text after the first `separator`.
pub open spec fn split_once(s: Seq<char>, separator: Seq<char>) -> Option<(Seq<char>, Seq<char>)> {
    match find(s, separator) {
        Some(i) => Some((s.take(i), s.skip(i + separator.len()))),
        None => None,
    }
}

/// The text before and the text after the last `separator`.
pub open spec fn rsplit_once(s: Seq<char>, separator: Seq<char>) -> Option<(Seq<char>, Seq<char>)> {
    match rfind(s, separator) {
        Some(i) => Some((s.take(i), s.skip(i + separator.len()))),
        None => None,
    }
}

pub fn text_split_once(s: &str, separator: &str) -> (r: Option<(String, String)>)
    ensures
        r.deep_view() == split_once(s@, separator@),
{
    proof {
        lemma_find_from(s@, separator@, 0);
    }
    match text_find(s, separator) {
        Some(i) => {
            let chars = chars_of(s);
            let count: usize = chars_of(separator).len();
            assert(i + count <= chars.len());
            let before = text_between(&chars, 0, i);
            let after = text_between(&chars, i + count, chars.len());
            assert(before@ =~= s@.take(i as int));
            assert(after@ =~= s@.skip(i + count));
            Some((before, after))
        },
        None => None,
    }
}

pub fn text_rsplit_once(s: &str, separator: &str) -> (r: Option<(String, String)>)
    ensures
        r.deep_view() == rsplit_once(s@, separator@),
{
    proof {
        lemma_rfind_before(s@, separator@, s@.len() as int + 1);
    }
    match text_rfind(s, separator) {
        Some(i) => {
            let chars = chars_of(s);
            let count: usize = chars_of(separator).len();
            assert(i + count <= chars.len());
            let before = text_between(&chars, 0, i);
            let after = text_between(&chars, i + count, chars.len());
            assert(before@ =~= s@.take(i as int));
            assert(after@ =~= s@.skip(i + count));
            Some((before, after))
        },
        None => None,
    }
}

// ---------------------------------------------------------------------------------------------
// Splitting and joining
// ---------------------------------------------------------------------------------------------
/// The fields of `s` between the occurrences of `c`: reading one more character either closes the
/// last field or extends it.
pub open spec fn split_on(s: Seq<char>, c: char) -> Seq<Seq<char>>
    decreases s.len(),
{
    if s.len() == 0 {
        seq![Seq::empty()]
    } else {
        let before = split_on(s.drop_last(), c);
        if s.last() == c {
            before.push(Seq::empty())
        } else {
            before.drop_last().push(before.last().push(s.last()))
        }
    }
}

pub proof fn lemma_split_on_not_empty(s: Seq<char>, c: char)
    ensures
        split_on(s, c).len() > 0,
    decreases s.len(),
{
    if s.len() > 0 {
        lemma_split_on_not_empty(s.drop_last(), c);
    }
}

pub fn text_split(s: &str, c: char) -> (r: Vec<String>)
    ensures
        r.deep_view() == split_on(s@, c),
        r@.len() > 0,
{
    let chars = chars_of(s);
    let mut r: Vec<String> = Vec::new();
    let mut field: String = String::new();
    let mut i: usize = 0;
    assert(r.deep_view().push(field@) =~= split_on(s@.take(0), c));
    while i < chars.len()
        invariant
            chars@ == s@,
            i <= chars@.len(),
            r.deep_view().push(field@) == split_on(s@.take(i as int), c),
        decreases chars@.len() - i,
    {
        let ghost before = r.deep_view().push(field@);
        let ghost fields = r.deep_view();
        assert(s@.take(i as int + 1).drop_last() =~= s@.take(i as int));
        assert(before.drop_last() =~= fields);
        if chars[i] == c {
            r.push(field);
            field = String::new();
            assert(r.deep_view() =~= before);
        } else {
            field.push(chars[i]);
        }
        i = i + 1;
    }
    assert(s@.take(i as int) =~= s@);
    let ghost fields = r.deep_view();
    r.push(field);
    assert(r.deep_view() =~= fields.push(field@));
    r
}

/// A line without the carriage return that stood before its line feed.
pub open spec fn without_carriage_return(line: Seq<char>) -> Seq<char> {
    if line.len() > 0 && line.last() == '\r' {
        line.drop_last()
    } else {
        line
    }
}

/// The lines of `s`: each ends at a line feed or at the end of the text, a carriage return before
/// the line feed belongs to the line ending, and a last line without characters does not count.
pub open spec fn lines(s: Seq<char>) -> Seq<Seq<char>> {
    let fields = split_on(s, '\n');
    let closed = fields.drop_last().map_values(|line: Seq<char>| without_carriage_return(line));
    if fields.last().len() == 0 {
        closed
    } else {
        closed.push(fields.last())
    }
}

pub fn text_lines(s: &str) -> (r: Vec<String>)
    ensures
        r.deep_view() == lines(s@),
{
    let mut fields = text_split(s, '\n');
    let ghost all = fields.deep_view();
    let last = fields.pop().unwrap();
    assert(fields.deep_view() =~= all.drop_last());
    let mut r: Vec<String> = Vec::new();
    let mut i: usize = 0;
    let ghost closed = all.drop_last().map_values(
        |line: Seq<char>| without_carriage_return(line),
    );
    while i < fields.len()
        invariant
            i <= fields@.len(),
            fields.deep_view() == all.drop_last(),
            closed == all.drop_last().map_values(
                |line: Seq<char>| without_carriage_return(line),
            ),
            r.deep_view() == closed.take(i as int),
        decreases fields@.len() - i,
    {
        let chars = chars_of(fields[i].as_str());
        assert(fields.deep_view()[i as int] == chars@);
        let ghost before = r.deep_view();
        let line = if chars.len() > 0 && chars[chars.len() - 1] == '\r' {
            let line = text_between(&chars, 0, chars.len() - 1);
            assert(line@ =~= chars@.drop_last());
            line
        } else {
            text_of(&chars)
        };
        r.push(line);
        assert(r.deep_view() =~= before.push(line@));
        i = i + 1;
        assert(closed.take(i as int) =~= closed.take(i as int - 1).push(closed[i as int - 1]));
    }
    assert(closed.take(i as int) =~= closed);
    if !last.as_str().is_empty() {
        let ghost before = r.deep_view();
        r.push(last);
        assert(r.deep_view() =~= before.push(last@));
    }
    r
}

/// The words of `s` that are complete, and the characters of the one being read.
pub open spec fn words_read(s: Seq<char>) -> (Seq<Seq<char>>, Seq<char>)
    decreases s.len(),
{
    if s.len() == 0 {
        (Seq::empty(), Seq::empty())
    } else {
        let (done, word) = words_read(s.drop_last());
        if !is_white(s.last()) {
            (done, word.push(s.last()))
        } else if word.len() > 0 {
            (done.push(word), Seq::empty())
        } else {
            (done, word)
        }
    }
}

/// The runs of characters of `s` between its white space.
pub open spec fn words(s: Seq<char>) -> Seq<Seq<char>> {
    let (done, word) = words_read(s);
    if word.len() > 0 {
        done.push(word)
    } else {
        done
    }
}

pub fn text_words(s: &str) -> (r: Vec<String>)
    ensures
        r.deep_view() == words(s@),
{
    let chars = chars_of(s);
    let mut r: Vec<String> = Vec::new();
    let mut word: String = String::new();
    let mut i: usize = 0;
    assert(r.deep_view() =~= words_read(s@.take(0)).0);
    while i < chars.len()
        invariant
            chars@ == s@,
            i <= chars@.len(),
            (r.deep_view(), word@) == words_read(s@.take(i as int)),
        decreases chars@.len() - i,
    {
        let ghost before = r.deep_view();
        assert(s@.take(i as int + 1).drop_last() =~= s@.take(i as int));
        if !char_is_white(chars[i]) {
            word.push(chars[i]);
        } else if !word.as_str().is_empty() {
            let ghost done = word@;
            r.push(word);
            word = String::new();
            assert(r.deep_view() =~= before.push(done));
        }
        i = i + 1;
    }
    assert(s@.take(i as int) =~= s@);
    if !word.as_str().is_empty() {
        let ghost before = r.deep_view();
        r.push(word);
        assert(r.deep_view() =~= before.push(word@));
    }
    r
}

/// The parts, with `separator` between each two.
pub open spec fn joined(parts: Seq<Seq<char>>, separator: Seq<char>) -> Seq<char>
    decreases parts.len(),
{
    if parts.len() == 0 {
        Seq::empty()
    } else if parts.len() == 1 {
        parts[0]
    } else {
        joined(parts.drop_last(), separator) + separator + parts.last()
    }
}

pub fn text_join(parts: &Vec<String>, separator: &str) -> (r: String)
    ensures
        r@ == joined(parts.deep_view(), separator@),
{
    let mut r: String = String::new();
    let mut i: usize = 0;
    let ghost all = parts.deep_view();
    while i < parts.len()
        invariant
            i <= parts@.len(),
            all == parts.deep_view(),
            r@ == joined(all.take(i as int), separator@),
        decreases parts@.len() - i,
    {
        assert(all[i as int] == parts@[i as int]@);
        assert(all.take(i as int + 1).drop_last() =~= all.take(i as int));
        if i > 0 {
            r.append(separator);
        }
        r.append(parts[i].as_str());
        i = i + 1;
        assert(r@ =~= joined(all.take(i as int), separator@));
    }
    assert(all.take(i as int) =~= all);
    r
}

// ---------------------------------------------------------------------------------------------
// Numbers
// ---------------------------------------------------------------------------------------------
pub open spec fn digit_char(d: int) -> char {
    (48 + d) as char
}

/// The decimal digits of `n`, without leading zeros.
pub open spec fn decimal(n: nat) -> Seq<char>
    decreases n,
{
    if n < 10 {
        seq![digit_char(n as int)]
    } else {
        decimal(n / 10).push(digit_char((n % 10) as int))
    }
}

/// The decimal digits of an integer, behind a minus sign where it is negative.
pub open spec fn signed_decimal(n: int) -> Seq<char> {
    if n < 0 {
        seq!['-'] + decimal((-n) as nat)
    } else {
        decimal(n as nat)
    }
}

pub fn text_decimal(n: u128) -> (r: String)
    ensures
        r@ == decimal(n as nat),
    decreases n,
{
    let digit: char = (48 + (n % 10) as u8) as char;
    if n < 10 {
        let mut r: String = String::new();
        r.push(digit);
        assert(r@ =~= decimal(n as nat));
        r
    } else {
        let mut r = text_decimal(n / 10);
        r.push(digit);
        r
    }
}

pub fn text_signed_decimal(n: i64) -> (r: String)
    ensures
        r@ == signed_decimal(n as int),
{
    if n < 0 {
        let mut r: String = String::new();
        r.push('-');
        let digits = text_decimal((-(n as i128)) as u128);
        r.append(digits.as_str());
        assert(r@ =~= signed_decimal(n as int));
        r
    } else {
        text_decimal(n as u128)
    }
}

pub open spec fn hex_char(d: int) -> char {
    if d < 10 {
        (48 + d) as char
    } else {
        (87 + d) as char
    }
}

/// The last `width` hexadecimal digits of `n`, with leading zeros.
pub open spec fn hexadecimal(n: nat, width: nat) -> Seq<char>
    decreases width,
{
    if width == 0 {
        Seq::empty()
    } else {
        hexadecimal(n / 16, (width - 1) as nat).push(hex_char((n % 16) as int))
    }
}

pub fn text_hexadecimal(n: u64, width: usize) -> (r: String)
    ensures
        r@ == hexadecimal(n as nat, width as nat),
    decreases width,
{
    if width == 0 {
        String::new()
    } else {
        let mut r = text_hexadecimal(n / 16, width - 1);
        let digit: u8 = (n % 16) as u8;
        if digit < 10 {
            r.push((48 + digit) as char);
        } else {
            r.push((87 + digit) as char);
        }
        r
    }
}

/// The number that a row of decimal digits stands for.
pub open spec fn digits_value(s: Seq<char>) -> nat
    decreases s.len(),
{
    if s.len() == 0 {
        0
    } else {
        (digits_value(s.drop_last()) * 10 + (s.last() as int - 48)) as nat
    }
}

/// The digits of a number that may stand behind one plus sign.
pub open spec fn after_plus(s: Seq<char>) -> Seq<char> {
    if s.len() > 0 && s[0] == '+' {
        s.skip(1)
    } else {
        s
    }
}

/// The number that `s` spells, where it spells one that is at most `max`.
pub open spec fn parse_unsigned(s: Seq<char>, max: nat) -> Option<nat> {
    let digits = after_plus(s);
    if digits.len() > 0 && all_digits(digits) && digits_value(digits) <= max {
        Some(digits_value(digits))
    } else {
        None
    }
}

proof fn lemma_digits_value_monotone(s: Seq<char>, i: int)
    requires
        0 <= i <= s.len(),
        all_digits(s),
    ensures
        digits_value(s.take(i)) <= digits_value(s),
    decreases s.len() - i,
{
    if i < s.len() {
        lemma_digits_value_monotone(s, i + 1);
        assert(s.take(i + 1).drop_last() =~= s.take(i));
        assert(is_ascii_digit(s[i]));
    } else {
        assert(s.take(i) =~= s);
    }
}

pub fn text_parse_unsigned(s: &str, max: u64) -> (r: Option<u64>)
    ensures
        match r {
            Some(n) => parse_unsigned(s@, max as nat) == Some(n as nat),
            None => parse_unsigned(s@, max as nat) is None,
        },
{
    let chars = chars_of(s);
    let start: usize = if chars.len() > 0 && chars[0] == '+' {
        1
    } else {
        0
    };
    let ghost digits = after_plus(s@);
    assert(digits =~= s@.skip(start as int));
    if start == chars.len() {
        return None;
    }
    let mut i: usize = start;
    while i < chars.len()
        invariant
            start <= i <= chars@.len(),
            chars@ == s@,
            digits == s@.skip(start as int),
            digits == after_plus(s@),
            forall|k: int| 0 <= k < i - start ==> #[trigger] is_ascii_digit(digits[k]),
        decreases chars@.len() - i,
    {
        if !char_is_ascii_digit(chars[i]) {
            assert(!is_ascii_digit(digits[i - start]));
            return None;
        }
        i = i + 1;
    }
    let mut value: u64 = 0;
    let mut k: usize = start;
    while k < chars.len()
        invariant
            start <= k <= chars@.len(),
            chars@ == s@,
            digits == s@.skip(start as int),
            digits == after_plus(s@),
            all_digits(digits),
            value == digits_value(digits.take(k - start)),
            value <= max,
        decreases chars@.len() - k,
    {
        assert(is_ascii_digit(digits[k - start]));
        assert(digits.take(k - start + 1).drop_last() =~= digits.take(k - start));
        proof {
            lemma_digits_value_monotone(digits, k - start + 1);
        }
        let digit: u64 = (chars[k] as u32 - 48) as u64;
        let next: u128 = value as u128 * 10 + digit as u128;
        if next > max as u128 {
            return None;
        }
        value = next as u64;
        k = k + 1;
    }
    assert(digits.take(k - start) =~= digits);
    Some(value)
}

// ---------------------------------------------------------------------------------------------
// Order
// ---------------------------------------------------------------------------------------------
/// The order of texts by their first different character; a proper prefix comes first. On UTF-8
/// text it is the order of the bytes.
pub open spec fn text_before(a: Seq<char>, b: Seq<char>) -> bool
    decreases a.len(),
{
    if b.len() == 0 {
        false
    } else if a.len() == 0 {
        true
    } else if a[0] == b[0] {
        text_before(a.drop_first(), b.drop_first())
    } else {
        (a[0] as int) < (b[0] as int)
    }
}

pub proof fn lemma_before_irreflexive(a: Seq<char>)
    ensures
        !text_before(a, a),
    decreases a.len(),
{
    if a.len() > 0 {
        lemma_before_irreflexive(a.drop_first());
    }
}

pub proof fn lemma_before_transitive(a: Seq<char>, b: Seq<char>, c: Seq<char>)
    requires
        text_before(a, b),
        text_before(b, c),
    ensures
        text_before(a, c),
    decreases a.len(),
{
    if a.len() > 0 && a[0] == b[0] && b[0] == c[0] {
        lemma_before_transitive(a.drop_first(), b.drop_first(), c.drop_first());
    }
}

pub proof fn lemma_before_total(a: Seq<char>, b: Seq<char>)
    ensures
        text_before(a, b) || a == b || text_before(b, a),
    decreases a.len(),
{
    if a.len() > 0 && b.len() > 0 && a[0] == b[0] {
        lemma_before_total(a.drop_first(), b.drop_first());
        if a.drop_first() == b.drop_first() {
            assert(a =~= seq![a[0]] + a.drop_first());
            assert(b =~= seq![b[0]] + b.drop_first());
        }
    } else if a.len() == 0 && b.len() == 0 {
        assert(a =~= b);
    }
}

pub proof fn lemma_before_asymmetric(a: Seq<char>, b: Seq<char>)
    requires
        text_before(a, b),
    ensures
        !text_before(b, a),
        a != b,
{
    lemma_before_irreflexive(a);
    if text_before(b, a) {
        lemma_before_transitive(a, b, a);
    }
}

/// Whether `a` comes strictly before `b`.
pub fn text_is_before(a: &str, b: &str) -> (r: bool)
    ensures
        r == text_before(a@, b@),
{
    let left = chars_of(a);
    let right = chars_of(b);
    let mut i: usize = 0;
    assert(a@.skip(0) =~= a@);
    assert(b@.skip(0) =~= b@);
    while i < left.len() && i < right.len() && left[i] == right[i]
        invariant
            left@ == a@,
            right@ == b@,
            i <= left@.len(),
            i <= right@.len(),
            text_before(a@, b@) == text_before(a@.skip(i as int), b@.skip(i as int)),
        decreases left@.len() - i,
    {
        assert(a@.skip(i as int).drop_first() =~= a@.skip(i as int + 1));
        assert(b@.skip(i as int).drop_first() =~= b@.skip(i as int + 1));
        i = i + 1;
    }
    assert(i < a@.len() ==> a@.skip(i as int)[0] == a@[i as int]);
    assert(i < b@.len() ==> b@.skip(i as int)[0] == b@[i as int]);
    if i >= right.len() {
        false
    } else if i >= left.len() {
        true
    } else {
        char_code(left[i]) < char_code(right[i])
    }
}

// ---------------------------------------------------------------------------------------------
// Laws
// ---------------------------------------------------------------------------------------------
proof fn lemma_trim_start(s: Seq<char>)
    ensures
        exists|i: int|
            0 <= i <= s.len() && trim_start(s) == #[trigger] s.skip(i) && forall|k: int|
                0 <= k < i ==> is_white(#[trigger] s[k]),
        trim_start(s).len() > 0 ==> !is_white(trim_start(s)[0]),
    decreases s.len(),
{
    if s.len() > 0 && is_white(s[0]) {
        let rest = s.drop_first();
        lemma_trim_start(rest);
        let i = choose|i: int|
            0 <= i <= rest.len() && trim_start(rest) == #[trigger] rest.skip(i) && forall|k: int|
                0 <= k < i ==> is_white(#[trigger] rest[k]);
        assert(s.skip(i + 1) =~= rest.skip(i));
        assert forall|k: int| 0 <= k < i + 1 implies is_white(#[trigger] s[k]) by {
            if k > 0 {
                assert(rest[k - 1] == s[k]);
            }
        }
    } else {
        assert(s.skip(0) =~= s);
    }
}

proof fn lemma_trim_end(s: Seq<char>)
    ensures
        exists|i: int|
            0 <= i <= s.len() && trim_end(s) == #[trigger] s.take(i) && forall|k: int|
                i <= k < s.len() ==> is_white(#[trigger] s[k]),
        trim_end(s).len() > 0 ==> !is_white(trim_end(s).last()),
    decreases s.len(),
{
    if s.len() > 0 && is_white(s.last()) {
        let front = s.drop_last();
        lemma_trim_end(front);
        let i = choose|i: int|
            0 <= i <= front.len() && trim_end(front) == #[trigger] front.take(i) && forall|k: int|
                i <= k < front.len() ==> is_white(#[trigger] front[k]);
        assert(s.take(i) =~= front.take(i));
        assert forall|k: int| i <= k < s.len() implies is_white(#[trigger] s[k]) by {
            if k < front.len() {
                assert(front[k] == s[k]);
            }
        }
    } else {
        assert(s.take(s.len() as int) =~= s);
    }
}

/// Trimming takes white space off both ends and nothing else: what is left is a part of the text that
/// neither begins nor ends with white space, and everything round it is white space.
pub proof fn law_trim_takes_only_white_space(s: Seq<char>)
    ensures
        exists|i: int, j: int|
            0 <= i <= j <= s.len() && trim(s) == #[trigger] s.subrange(i, j) && (forall|k: int|
                0 <= k < i ==> is_white(#[trigger] s[k])) && forall|k: int|
                j <= k < s.len() ==> is_white(#[trigger] s[k]),
        trim(s).len() > 0 ==> !is_white(trim(s)[0]) && !is_white(trim(s).last()),
        (forall|k: int| 0 <= k < s.len() ==> is_white(#[trigger] s[k])) <==> trim(s).len() == 0,
{
    lemma_trim_start(s);
    let start = trim_start(s);
    lemma_trim_end(start);
    let i = choose|i: int|
        0 <= i <= s.len() && start == #[trigger] s.skip(i) && forall|k: int|
            0 <= k < i ==> is_white(#[trigger] s[k]);
    let n = choose|n: int|
        0 <= n <= start.len() && trim_end(start) == #[trigger] start.take(n) && forall|k: int|
            n <= k < start.len() ==> is_white(#[trigger] start[k]);
    assert(s.subrange(i, i + n) =~= trim(s));
    assert forall|k: int| i + n <= k < s.len() implies is_white(#[trigger] s[k]) by {
        assert(start[k - i] == s[k]);
    }
    if trim(s).len() > 0 {
        assert(trim(s)[0] == start[0]);
        assert(trim(s)[0] == s[i]);
    } else {
        assert forall|k: int| 0 <= k < s.len() implies is_white(#[trigger] s[k]) by {
            if k >= i {
                assert(start[k - i] == s[k]);
            }
        }
    }
}

/// A text that neither begins nor ends with white space is found again, whatever white space is put
/// round it.
pub proof fn law_white_space_round_a_text_does_not_count(
    before: Seq<char>,
    s: Seq<char>,
    after: Seq<char>,
)
    requires
        s.len() > 0,
        !is_white(s[0]),
        !is_white(s.last()),
        forall|k: int| 0 <= k < before.len() ==> is_white(#[trigger] before[k]),
        forall|k: int| 0 <= k < after.len() ==> is_white(#[trigger] after[k]),
    ensures
        trim(before + s + after) == s,
{
    let all = before + s + after;
    law_trim_takes_only_white_space(all);
    let (i, j) = choose|i: int, j: int|
        0 <= i <= j <= all.len() && trim(all) == #[trigger] all.subrange(i, j) && (forall|k: int|
            0 <= k < i ==> is_white(#[trigger] all[k])) && forall|k: int|
            j <= k < all.len() ==> is_white(#[trigger] all[k]);
    let first = before.len() as int;
    let end = before.len() + s.len();
    assert(all[first] == s[0]);
    assert(all[end - 1] == s.last());
    assert(i <= first && j >= end);
    assert(trim(all)[0] == all[i]);
    assert(trim(all).last() == all[j - 1]);
    if i < first {
        assert(all[i] == before[i]);
    }
    if j > end {
        assert(all[j - 1] == after[j - 1 - end]);
    }
    assert(all.subrange(i, j) =~= s);
}

/// A text cut at a character is put together again by that character, and no part holds it.
pub proof fn law_split_is_joined_back(s: Seq<char>, c: char)
    ensures
        joined(split_on(s, c), seq![c]) == s,
        split_on(s, c).len() > 0,
        forall|i: int| 0 <= i < split_on(s, c).len() ==> !(#[trigger] split_on(s, c)[i]).contains(c),
    decreases s.len(),
{
    if s.len() > 0 {
        let front = s.drop_last();
        law_split_is_joined_back(front, c);
        let before = split_on(front, c);
        let parts = split_on(s, c);
        if s.last() == c {
            assert(parts.drop_last() =~= before);
            assert(parts.len() > 1);
            assert(joined(parts, seq![c]) =~= s);
        } else {
            let last = before.last().push(s.last());
            assert(parts.drop_last() =~= before.drop_last());
            assert(!last.contains(c)) by {
                assert(!before[before.len() - 1].contains(c));
                if last.contains(c) {
                    let k = choose|k: int| 0 <= k < last.len() && last[k] == c;
                    assert(before.last()[k] == c);
                }
            }
            assert forall|i: int| 0 <= i < parts.len() implies !(#[trigger] parts[i]).contains(
                c,
            ) by {
                if i < parts.len() - 1 {
                    assert(parts[i] == before[i]);
                }
            }
            assert(joined(parts, seq![c]) =~= joined(before, seq![c]).push(s.last()));
            assert(s =~= front.push(s.last()));
        }
    }
}

/// Cutting goes on behind a separator: the part that follows the last one stands by itself.
pub proof fn lemma_split_push(a: Seq<char>, c: char, b: Seq<char>)
    requires
        !b.contains(c),
    ensures
        split_on(a + seq![c] + b, c) == split_on(a, c).push(b),
    decreases b.len(),
{
    let all = a + seq![c] + b;
    if b.len() == 0 {
        assert(all.drop_last() =~= a);
        assert(b =~= Seq::empty());
    } else {
        let front = b.drop_last();
        assert(!front.contains(c)) by {
            if front.contains(c) {
                let k = choose|k: int| 0 <= k < front.len() && front[k] == c;
                assert(b[k] == c);
            }
        }
        lemma_split_push(a, c, front);
        assert(all.drop_last() =~= a + seq![c] + front);
        assert(b[b.len() - 1] == b.last());
        assert(b.last() != c);
        assert(front.push(b.last()) =~= b);
        assert(split_on(a, c).push(front).drop_last() =~= split_on(a, c));
    }
}

/// A text without the separator is one part.
pub proof fn lemma_split_whole(s: Seq<char>, c: char)
    requires
        !s.contains(c),
    ensures
        split_on(s, c) == seq![s],
    decreases s.len(),
{
    if s.len() > 0 {
        let front = s.drop_last();
        assert(!front.contains(c)) by {
            if front.contains(c) {
                let k = choose|k: int| 0 <= k < front.len() && front[k] == c;
                assert(s[k] == c);
            }
        }
        lemma_split_whole(front, c);
        assert(s[s.len() - 1] == s.last());
        assert(split_on(front, c).drop_last() =~= Seq::<Seq<char>>::empty());
        assert(front.push(s.last()) =~= s);
        assert(split_on(s, c) =~= seq![s]);
    } else {
        assert(s =~= Seq::empty());
    }
}

/// Parts that do not hold the separator are found again in the text that they make together.
pub proof fn law_joined_parts_are_split_again(parts: Seq<Seq<char>>, c: char)
    requires
        parts.len() > 0,
        forall|i: int| 0 <= i < parts.len() ==> !(#[trigger] parts[i]).contains(c),
    ensures
        split_on(joined(parts, seq![c]), c) == parts,
    decreases parts.len(),
{
    if parts.len() == 1 {
        lemma_split_whole(parts[0], c);
        assert(parts =~= seq![parts[0]]);
    } else {
        let front = parts.drop_last();
        assert(forall|i: int| 0 <= i < front.len() ==> #[trigger] front[i] == parts[i]);
        law_joined_parts_are_split_again(front, c);
        assert(!parts[parts.len() - 1].contains(c));
        lemma_split_push(joined(front, seq![c]), c, parts.last());
        assert(parts =~= front.push(parts.last()));
    }
}

/// A text is cut in two at the first place where the separator stands; the two halves and the separator
/// make up the text.
pub proof fn law_split_once_cuts_at_the_first(s: Seq<char>, separator: Seq<char>)
    requires
        separator.len() > 0,
    ensures
        split_once(s, separator) matches Some((before, after)) ==> s == before + separator + after
            && forall|j: int| 0 <= j < before.len() ==> !#[trigger] occurs_at(s, separator, j),
        split_once(s, separator) is None <==> !contains_text(s, separator),
{
    lemma_find_from(s, separator, 0);
    if let Some(i) = find(s, separator) {
        assert(s =~= s.take(i) + separator + s.skip(i + separator.len())) by {
            assert(s.subrange(i, i + separator.len()) =~= separator);
        }
    } else {
        assert forall|j: int| !#[trigger] occurs_at(s, separator, j) by {
            if j >= 0 {
                assert(!occurs_at(s, separator, j));
            }
        }
    }
}

/// A text without a character, that character and another text are cut apart again there.
pub proof fn law_halves_are_found_again(before: Seq<char>, c: char, after: Seq<char>)
    requires
        !before.contains(c),
    ensures
        split_once(before + seq![c] + after, seq![c]) == Some((before, after)),
{
    let s = before + seq![c] + after;
    let at = before.len() as int;
    lemma_find_from(s, seq![c], 0);
    assert(s.subrange(at, at + 1) =~= seq![c]);
    assert(occurs_at(s, seq![c], at));
    let i = find(s, seq![c])->Some_0;
    if i < at {
        assert(s.subrange(i, i + 1)[0] == s[i]);
        assert(before[i] == c);
    }
    assert(s.take(at) =~= before);
    assert(s.skip(at + 1) =~= after);
}

/// A number in decimal digits reads back as the number, and has no leading zero.
pub proof fn law_decimal_reads_back(n: nat)
    ensures
        all_digits(decimal(n)),
        digits_value(decimal(n)) == n,
        decimal(n).len() > 0,
        n > 0 ==> decimal(n)[0] != '0',
        forall|max: nat| n <= max ==> #[trigger] parse_unsigned(decimal(n), max) == Some(n),
    decreases n,
{
    let text = decimal(n);
    if n < 10 {
        assert(text.drop_last() =~= Seq::empty());
        assert(digits_value(Seq::<char>::empty()) == 0);
        assert(is_ascii_digit(text[0]));
    } else {
        let front = decimal(n / 10);
        law_decimal_reads_back(n / 10);
        assert(text.drop_last() =~= front);
        assert forall|i: int| 0 <= i < text.len() implies #[trigger] is_ascii_digit(text[i]) by {
            if i < front.len() {
                assert(is_ascii_digit(front[i]));
            }
        }
    }
    assert(is_ascii_digit(text[0]));
    assert(after_plus(text) == text);
}

proof fn lemma_words_read(s: Seq<char>, word: Seq<char>)
    requires
        forall|k: int| 0 <= k < word.len() ==> !is_white(#[trigger] word[k]),
    ensures
        words_read(s + word) == (words_read(s).0, words_read(s).1 + word),
    decreases word.len(),
{
    if word.len() == 0 {
        assert(s + word =~= s);
        assert(words_read(s).1 + word =~= words_read(s).1);
    } else {
        let front = word.drop_last();
        assert(forall|k: int| 0 <= k < front.len() ==> #[trigger] front[k] == word[k]);
        lemma_words_read(s, front);
        assert((s + word).drop_last() =~= s + front);
        assert(!is_white(word[word.len() - 1]));
        assert((words_read(s).1 + front).push(word.last()) =~= words_read(s).1 + word);
    }
}

/// Words are found again in the line that they make, with single spaces between them.
pub proof fn law_joined_words_are_found_again(all: Seq<Seq<char>>)
    requires
        forall|i: int|
            0 <= i < all.len() ==> (#[trigger] all[i]).len() > 0 && forall|k: int|
                0 <= k < all[i].len() ==> !is_white(#[trigger] all[i][k]),
    ensures
        words(joined(all, seq![' '])) == all,
        all.len() > 0 ==> words_read(joined(all, seq![' '])) == (all.drop_last(), all.last()),
    decreases all.len(),
{
    if all.len() == 0 {
        assert(all =~= Seq::empty());
    } else if all.len() == 1 {
        assert(all[0].len() > 0);
        lemma_words_read(Seq::empty(), all[0]);
        assert(Seq::<char>::empty() + all[0] =~= all[0]);
        assert(all.drop_last() =~= Seq::empty());
        assert(all =~= seq![all[0]]);
    } else {
        let front = all.drop_last();
        assert(forall|k: int| 0 <= k < front.len() ==> #[trigger] front[k] == all[k]);
        law_joined_words_are_found_again(front);
        let line = joined(front, seq![' ']);
        assert(front[front.len() - 1].len() > 0);
        let spaced = line + seq![' '];
        assert(spaced.drop_last() =~= line);
        assert(words_read(spaced) == (front.drop_last().push(front.last()), Seq::<char>::empty()));
        assert(front.drop_last().push(front.last()) =~= front);
        assert(all[all.len() - 1].len() > 0);
        lemma_words_read(spaced, all.last());
        assert(Seq::<char>::empty() + all.last() =~= all.last());
        assert(all =~= front.push(all.last()));
    }
}

proof fn lemma_words_are_words(s: Seq<char>)
    ensures
        forall|i: int|
            0 <= i < words_read(s).0.len() ==> (#[trigger] words_read(s).0[i]).len() > 0
                && !has_white(words_read(s).0[i]),
        !has_white(words_read(s).1),
    decreases s.len(),
{
    if s.len() > 0 {
        lemma_words_are_words(s.drop_last());
        let word = words_read(s.drop_last()).1;
        if !is_white(s.last()) {
            let longer = word.push(s.last());
            if has_white(longer) {
                let k = choose|k: int| 0 <= k < longer.len() && #[trigger] is_white(longer[k]);
                assert(word[k] == longer[k]);
            }
        }
    }
}

/// Words are never empty and hold no white space.
pub proof fn law_words_hold_no_white_space(s: Seq<char>)
    ensures
        forall|i: int|
            0 <= i < words(s).len() ==> (#[trigger] words(s)[i]).len() > 0 && !has_white(
                words(s)[i],
            ),
{
    lemma_words_are_words(s);
}

/// Each line of a text with its end.
pub open spec fn ended_lines(all: Seq<Seq<char>>) -> Seq<char>
    decreases all.len(),
{
    if all.len() == 0 {
        Seq::empty()
    } else {
        ended_lines(all.drop_last()) + all.last() + seq!['\n']
    }
}

/// Lines are found again in the text that they make, each with its end, and with or without an end
/// behind the last one.
pub proof fn law_ended_lines_are_found_again(all: Seq<Seq<char>>, last: Seq<char>)
    requires
        forall|i: int|
            0 <= i < all.len() ==> !(#[trigger] all[i]).contains('\n') && (all[i].len() > 0
                ==> all[i].last() != '\r'),
        !last.contains('\n'),
    ensures
        lines(ended_lines(all)) == all,
        last.len() > 0 ==> lines(ended_lines(all) + last) == all.push(last),
        split_on(ended_lines(all) + last, '\n') == all.push(last),
    decreases all.len(),
{
    let text = ended_lines(all);
    if all.len() == 0 {
        assert(text + last =~= last);
        lemma_split_whole(last, '\n');
        assert(all.push(last) =~= seq![last]);
        assert(Seq::<char>::empty().len() == 0);
        assert(split_on(text, '\n') == seq![Seq::<char>::empty()]);
    } else {
        let front = all.drop_last();
        assert(forall|k: int| 0 <= k < front.len() ==> #[trigger] front[k] == all[k]);
        assert(!all[all.len() - 1].contains('\n'));
        law_ended_lines_are_found_again(front, all.last());
        let start = ended_lines(front) + all.last();
        lemma_split_push(start, '\n', last);
        lemma_split_push(start, '\n', Seq::empty());
        assert(text + last =~= start + seq!['\n'] + last);
        assert(text =~= start + seq!['\n'] + Seq::empty());
        assert(front.push(all.last()) =~= all);
    }
    let kept = |line: Seq<char>| without_carriage_return(line);
    assert(all.push(last).drop_last() =~= all);
    assert(all.push(Seq::empty()).drop_last() =~= all);
    assert(all.map_values(kept) =~= all) by {
        assert forall|k: int| 0 <= k < all.len() implies all.map_values(kept)[k] == all[k] by {
            assert(!all[k].contains('\n'));
        }
    }
    if all.len() == 0 {
        assert(split_on(text, '\n') =~= all.push(Seq::empty()));
    }
}

/// Lower case changes capital letters into the small ones and nothing else.
pub proof fn law_lower_case(s: Seq<char>, i: int)
    requires
        0 <= i < s.len(),
    ensures
        lower(s).len() == s.len(),
        !('A' <= lower(s)[i] <= 'Z'),
        'A' <= s[i] <= 'Z' ==> lower(s)[i] as int - 'a' as int == s[i] as int - 'A' as int,
        !('A' <= s[i] <= 'Z') ==> lower(s)[i] == s[i],
        lower(lower(s)) == lower(s),
{
    assert(lower(lower(s)) =~= lower(s));
}

/// What is visible of a text holds no control character, and a text without one is visible as it
/// stands.
pub proof fn law_visible_text_has_no_control(s: Seq<char>)
    ensures
        !has_control(visible(s)),
        !has_control(s) ==> visible(s) == s,
    decreases s.len(),
{
    let keep = |c: char| !is_control(c);
    assert forall|i: int| 0 <= i < visible(s).len() implies !is_control(#[trigger] visible(s)[i]) by {
        s.lemma_filter_pred(keep, i);
    }
    if !has_control(s) {
        assert(forall|i: int| 0 <= i < s.len() ==> !#[trigger] is_control(s[i]));
        lemma_filter_keeps_all(s, keep);
    }
}

proof fn lemma_filter_keeps_all(s: Seq<char>, keep: spec_fn(char) -> bool)
    requires
        forall|i: int| 0 <= i < s.len() ==> keep(#[trigger] s[i]),
    ensures
        s.filter(keep) == s,
    decreases s.len(),
{
    reveal(Seq::filter);
    if s.len() > 0 {
        let front = s.drop_last();
        assert(forall|i: int| 0 <= i < front.len() ==> #[trigger] front[i] == s[i]);
        lemma_filter_keeps_all(front, keep);
        assert(keep(s[s.len() - 1]));
        assert(s =~= front.push(s.last()));
    } else {
        assert(s.filter(keep) =~= s);
    }
}

} // verus!
