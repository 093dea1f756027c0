//! Character-level operations on text: whitespace, trimming, blank tests,
//! substring search and case folding. Everything is stated over the
//! sequence of characters that a string holds.

use vstd::prelude::*;
use vstd::string::*;

verus! {

/// The characters with the Unicode property `White_Space`.
pub open spec fn is_whitespace(c: char) -> bool {
    let n = c as u32;
    ||| 0x09 <= n <= 0x0D
    ||| n == 0x20
    ||| n == 0x85
    ||| n == 0xA0
    ||| n == 0x1680
    ||| 0x2000 <= n <= 0x200A
    ||| n == 0x2028
    ||| n == 0x2029
    ||| n == 0x202F
    ||| n == 0x205F
    ||| n == 0x3000
}

/// A text is blank when it is empty or holds whitespace only.
pub open spec fn is_blank(s: Seq<char>) -> bool {
    forall|i: int| 0 <= i < s.len() ==> is_whitespace(#[trigger] s[i])
}

/// How many whitespace characters stand at the start of `s`.
pub open spec fn leading_whitespace(s: Seq<char>) -> nat
    decreases s.len(),
{
    if s.len() > 0 && is_whitespace(s[0]) {
        1 + leading_whitespace(s.drop_first())
    } else {
        0
    }
}

/// How many whitespace characters stand at the end of `s`.
pub open spec fn trailing_whitespace(s: Seq<char>) -> nat
    decreases s.len(),
{
    if s.len() > 0 && is_whitespace(s.last()) {
        1 + trailing_whitespace(s.drop_last())
    } else {
        0
    }
}

/// `s` without its leading whitespace.
pub open spec fn trimmed_start(s: Seq<char>) -> Seq<char> {
    s.skip(leading_whitespace(s) as int)
}

/// `s` without its leading and trailing whitespace.
pub open spec fn trimmed(s: Seq<char>) -> Seq<char> {
    let t = trimmed_start(s);
    t.take(t.len() - trailing_whitespace(t))
}

/// `needle` occurs in `hay` as a run of consecutive characters.
pub open spec fn has_substring(hay: Seq<char>, needle: Seq<char>) -> bool {
    exists|i: int| occurs_at(hay, needle, i)
}

/// `needle` occurs in `hay` starting at position `i`.
pub open spec fn occurs_at(hay: Seq<char>, needle: Seq<char>, i: int) -> bool {
    0 <= i && i + needle.len() <= hay.len() && hay.subrange(i, i + needle.len()) == needle
}

/// The lower-case form of a text, as the standard library computes it.
pub uninterp spec fn lowercase(s: Seq<char>) -> Seq<char>;

/// Tests a character for the `White_Space` property.
pub fn char_is_whitespace(c: char) -> (b: bool)
    ensures
        b == is_whitespace(c),
{
    let n: u32 = c as u32;
    (0x09 <= n && n <= 0x0D) || n == 0x20 || n == 0x85 || n == 0xA0 || n == 0x1680 || (0x2000 <= n
        && n <= 0x200A) || n == 0x2028 || n == 0x2029 || n == 0x202F || n == 0x205F || n == 0x3000
}

/// The characters of a string, in order.
pub fn chars_of(s: &str) -> (v: Vec<char>)
    ensures
        v@ == s@,
{
    let mut v: Vec<char> = Vec::new();
    for c in it: s.chars()
        invariant
            v@ == it.seq().take(it.index() as int),
            it.seq() == s@,
    {
        v.push(c);
    }
    v
}

/// Calls `str::to_lowercase`. The result is taken to be a function of the
/// characters of `s` alone, named `lowercase`; nothing more is claimed of it.
#[verifier::external_body]
pub(crate) fn to_lowercase(s: &str) -> (r: String)
    ensures
        r@ == lowercase(s@),
{
    s.to_lowercase()
}

/// Calls `String::push`, which appends one character to the end.
#[verifier::external_body]
pub(crate) fn push_char(s: &mut String, c: char)
    ensures
        final(s)@ == old(s)@.push(c),
{
    s.push(c)
}

/// Every character before position `n` is whitespace and the one at `n`, if
/// there is one, is not: then `n` is the count of leading whitespace.
pub proof fn lemma_leading_whitespace(s: Seq<char>, n: int)
    requires
        0 <= n <= s.len(),
        forall|i: int| 0 <= i < n ==> is_whitespace(#[trigger] s[i]),
        n < s.len() ==> !is_whitespace(s[n]),
    ensures
        leading_whitespace(s) == n,
    decreases n,
{
    if n > 0 {
        let t = s.drop_first();
        assert forall|i: int| 0 <= i < n - 1 implies is_whitespace(#[trigger] t[i]) by {
            assert(t[i] == s[i + 1]);
        }
        lemma_leading_whitespace(t, n - 1);
    }
}

/// Every character from position `s.len() - n` on is whitespace and the one
/// before it, if there is one, is not: then `n` is the count of trailing
/// whitespace.
pub proof fn lemma_trailing_whitespace(s: Seq<char>, n: int)
    requires
        0 <= n <= s.len(),
        forall|i: int| s.len() - n <= i < s.len() ==> is_whitespace(#[trigger] s[i]),
        n < s.len() ==> !is_whitespace(s[s.len() - n - 1]),
    ensures
        trailing_whitespace(s) == n,
    decreases n,
{
    if n > 0 {
        let t = s.drop_last();
        assert forall|i: int| t.len() - (n - 1) <= i < t.len() implies is_whitespace(
            #[trigger] t[i],
        ) by {
            assert(t[i] == s[i]);
        }
        lemma_trailing_whitespace(t, n - 1);
    }
}

/// A text is blank exactly when trimming leaves nothing of it.
pub proof fn lemma_blank_iff_trimmed_empty(s: Seq<char>)
    ensures
        is_blank(s) <==> trimmed(s).len() == 0,
    decreases s.len(),
{
    lemma_trim_bounds(s);
    let a = leading_whitespace(s) as int;
    let t = trimmed_start(s);
    let b = trailing_whitespace(t) as int;
    if is_blank(s) {
        if a < s.len() {
            assert(is_whitespace(s[a]));
        }
    }
    if trimmed(s).len() == 0 {
        assert forall|i: int| 0 <= i < s.len() implies is_whitespace(#[trigger] s[i]) by {
            if i >= a {
                assert(t[i - a] == s[i]);
            }
        }
    }
}

/// What the two counts say of the characters around the trimmed part.
pub proof fn lemma_trim_bounds(s: Seq<char>)
    ensures
        leading_whitespace(s) <= s.len(),
        trailing_whitespace(s) <= s.len(),
        forall|i: int| 0 <= i < leading_whitespace(s) ==> is_whitespace(#[trigger] s[i]),
        leading_whitespace(s) < s.len() ==> !is_whitespace(s[leading_whitespace(s) as int]),
        forall|i: int|
            s.len() - trailing_whitespace(s) <= i < s.len() ==> is_whitespace(#[trigger] s[i]),
        trailing_whitespace(s) < s.len() ==> !is_whitespace(
            s[s.len() - trailing_whitespace(s) - 1],
        ),
        leading_whitespace(s) < s.len() ==> trailing_whitespace(trimmed_start(s))
            < trimmed_start(s).len(),
    decreases s.len(),
{
    if s.len() > 0 {
        let f = s.drop_first();
        let l = s.drop_last();
        lemma_trim_bounds(f);
        lemma_trim_bounds(l);
        if is_whitespace(s[0]) {
            assert forall|i: int| 0 <= i < leading_whitespace(s) implies is_whitespace(
                #[trigger] s[i],
            ) by {
                if i > 0 {
                    assert(f[i - 1] == s[i]);
                }
            }
            if leading_whitespace(s) < s.len() {
                assert(f[leading_whitespace(f) as int] == s[leading_whitespace(s) as int]);
                assert(trimmed_start(s) =~= trimmed_start(f));
            }
        } else {
            let t = trimmed_start(s);
            assert(t =~= s);
            lemma_trim_bounds_last(s);
        }
        if is_whitespace(s.last()) {
            assert forall|i: int|
                s.len() - trailing_whitespace(s) <= i < s.len() implies is_whitespace(
                #[trigger] s[i],
            ) by {
                if i < s.len() - 1 {
                    assert(l[i] == s[i]);
                }
            }
            if trailing_whitespace(s) < s.len() {
                assert(l[l.len() - trailing_whitespace(l) - 1] == s[s.len() - trailing_whitespace(
                    s,
                ) - 1]);
            }
        }
    }
}

/// A text that starts with a character that is no whitespace does not consist
/// of trailing whitespace alone.
proof fn lemma_trim_bounds_last(s: Seq<char>)
    requires
        s.len() > 0,
        !is_whitespace(s[0]),
    ensures
        trailing_whitespace(s) < s.len(),
    decreases s.len(),
{
    if is_whitespace(s.last()) {
        let l = s.drop_last();
        if l.len() > 0 {
            assert(l[0] == s[0]);
            lemma_trim_bounds_last(l);
        }
    }
}

/// Whether the text is empty or holds whitespace only.
pub fn is_blank_text(s: &str) -> (b: bool)
    ensures
        b == is_blank(s@),
{
    let chars = chars_of(s);
    let mut i: usize = 0;
    while i < chars.len()
        invariant
            i <= chars.len(),
            chars@ == s@,
            forall|j: int| 0 <= j < i ==> is_whitespace(#[trigger] s@[j]),
        decreases chars.len() - i,
    {
        if !char_is_whitespace(chars[i]) {
            return false;
        }
        i += 1;
    }
    true
}

/// The text without its leading and trailing whitespace.
pub fn trim(s: &str) -> (r: &str)
    ensures
        r@ == trimmed(s@),
{
    let chars = chars_of(s);
    let n = chars.len();
    let mut start: usize = 0;
    while start < n && char_is_whitespace(chars[start])
        invariant
            start <= n,
            n == chars.len(),
            chars@ == s@,
            forall|j: int| 0 <= j < start ==> is_whitespace(#[trigger] s@[j]),
        decreases n - start,
    {
        start += 1;
    }
    let mut end: usize = n;
    while end > start && char_is_whitespace(chars[end - 1])
        invariant
            start <= end <= n,
            n == chars.len(),
            chars@ == s@,
            forall|j: int| end <= j < n ==> is_whitespace(#[trigger] s@[j]),
        decreases end,
    {
        end -= 1;
    }
    proof {
        lemma_leading_whitespace(s@, start as int);
        let t = trimmed_start(s@);
        assert forall|j: int| t.len() - (n - end) <= j < t.len() implies is_whitespace(
            #[trigger] t[j],
        ) by {
            assert(t[j] == s@[j + start]);
        }
        if n - end < t.len() {
            assert(t[t.len() - (n - end) - 1] == s@[end - 1]);
        }
        lemma_trailing_whitespace(t, n - end);
        assert(trimmed(s@) =~= s@.subrange(start as int, end as int));
    }
    s.substring_char(start, end)
}

/// Whether `needle` occurs in `hay`.
pub fn contains(hay: &str, needle: &str) -> (b: bool)
    ensures
        b == has_substring(hay@, needle@),
{
    let h = chars_of(hay);
    let n = chars_of(needle);
    if n.len() > h.len() {
        assert(!has_substring(hay@, needle@));
        return false;
    }
    let last: usize = h.len() - n.len();
    let mut i: usize = 0;
    while i <= last
        invariant
            i <= last + 1,
            last == h.len() - n.len(),
            h@ == hay@,
            n@ == needle@,
            forall|k: int| 0 <= k < i ==> !occurs_at(hay@, needle@, k),
        decreases last + 1 - i,
    {
        let mut j: usize = 0;
        while j < n.len() && h[i + j] == n[j]
            invariant
                j <= n.len(),
                i <= last,
                last == h.len() - n.len(),
                h@ == hay@,
                n@ == needle@,
                forall|k: int| 0 <= k < j ==> h@[i + k] == n@[k],
            decreases n.len() - j,
        {
            j += 1;
        }
        if j == n.len() {
            assert(hay@.subrange(i as int, i + needle@.len()) =~= needle@);
            assert(occurs_at(hay@, needle@, i as int));
            return true;
        }
        assert(!occurs_at(hay@, needle@, i as int)) by {
            if occurs_at(hay@, needle@, i as int) {
                assert(hay@.subrange(i as int, i + needle@.len())[j as int] == needle@[j as int]);
            }
        }
        i += 1;
    }
    assert(!has_substring(hay@, needle@)) by {
        assert forall|k: int| !occurs_at(hay@, needle@, k) by {}
    }
    false
}

/// The two texts one after the other.
pub fn joined(first: &str, second: &str) -> (r: String)
    ensures
        r@ == first@ + second@,
{
    String::from_str(first).concat(second)
}

/// The character of a decimal digit.
pub open spec fn digit(d: nat) -> char {
    if d == 0 {
        '0'
    } else if d == 1 {
        '1'
    } else if d == 2 {
        '2'
    } else if d == 3 {
        '3'
    } else if d == 4 {
        '4'
    } else if d == 5 {
        '5'
    } else if d == 6 {
        '6'
    } else if d == 7 {
        '7'
    } else if d == 8 {
        '8'
    } else {
        '9'
    }
}

/// The decimal notation of a number, without leading zeros.
pub open spec fn decimal_digits(n: nat) -> Seq<char>
    decreases n,
{
    if n < 10 {
        seq![digit(n)]
    } else {
        decimal_digits(n / 10).push(digit(n % 10))
    }
}

/// The character of a decimal digit.
fn digit_char(d: usize) -> (c: char)
    requires
        d < 10,
    ensures
        c == digit(d as nat),
{
    if d == 0 {
        '0'
    } else if d == 1 {
        '1'
    } else if d == 2 {
        '2'
    } else if d == 3 {
        '3'
    } else if d == 4 {
        '4'
    } else if d == 5 {
        '5'
    } else if d == 6 {
        '6'
    } else if d == 7 {
        '7'
    } else if d == 8 {
        '8'
    } else {
        '9'
    }
}

/// The decimal notation of a number.
pub fn decimal(n: usize) -> (s: String)
    ensures
        s@ == decimal_digits(n as nat),
    decreases n,
{
    if n < 10 {
        let mut s = String::new();
        push_char(&mut s, digit_char(n));
        assert(s@ =~= seq![digit(n as nat)]);
        s
    } else {
        let mut s = decimal(n / 10);
        push_char(&mut s, digit_char(n % 10));
        s
    }
}

/// `c` stands at position `k` of `s` and nowhere before it.
pub open spec fn is_first_at(s: Seq<char>, c: char, k: int) -> bool {
    0 <= k < s.len() && s[k] == c && forall|j: int| 0 <= j < k ==> #[trigger] s[j] != c
}

/// `c` stands at position `k` of `s` and nowhere after it.
pub open spec fn is_last_at(s: Seq<char>, c: char, k: int) -> bool {
    0 <= k < s.len() && s[k] == c && forall|j: int| k < j < s.len() ==> #[trigger] s[j] != c
}

/// The first position of `c` in `s`.
pub open spec fn first_position(s: Seq<char>, c: char) -> Option<int> {
    if exists|k: int| is_first_at(s, c, k) {
        Some(choose|k: int| is_first_at(s, c, k))
    } else {
        None
    }
}

/// The last position of `c` in `s`.
pub open spec fn last_position(s: Seq<char>, c: char) -> Option<int> {
    if exists|k: int| is_last_at(s, c, k) {
        Some(choose|k: int| is_last_at(s, c, k))
    } else {
        None
    }
}

/// A line without the carriage return that ends it, if one does.
pub open spec fn without_carriage_return(line: Seq<char>) -> Seq<char> {
    if line.len() > 0 && line.last() == '\r' {
        line.drop_last()
    } else {
        line
    }
}

/// The lines of a text. A line ends at a line feed, or at a carriage return
/// directly followed by one; neither belongs to the line. The end of the
/// text ends the last line, and a text that ends with a line ending has no
/// empty line after it.
pub open spec fn split_lines(s: Seq<char>) -> Seq<Seq<char>>
    decreases s.len(),
{
    if s.len() == 0 {
        Seq::empty()
    } else {
        match first_position(s, '\n') {
            Some(k) => if 0 <= k < s.len() {
                seq![without_carriage_return(s.take(k))] + split_lines(s.skip(k + 1))
            } else {
                seq![s]
            },
            None => seq![s],
        }
    }
}

/// The characters of the strings of a list.
pub open spec fn text_views(texts: Seq<String>) -> Seq<Seq<char>> {
    texts.map_values(|t: String| t@)
}

/// There is one first and one last position of a character at most, and
/// there is one where the character occurs at all.
pub proof fn lemma_positions(s: Seq<char>, c: char, k: int)
    ensures
        is_first_at(s, c, k) ==> first_position(s, c) == Some(k),
        is_last_at(s, c, k) ==> last_position(s, c) == Some(k),
        first_position(s, c) matches Some(f) ==> is_first_at(s, c, f),
        last_position(s, c) matches Some(l) ==> is_last_at(s, c, l),
        first_position(s, c) is None ==> forall|j: int| 0 <= j < s.len() ==> #[trigger] s[j] != c,
        last_position(s, c) is None ==> forall|j: int| 0 <= j < s.len() ==> #[trigger] s[j] != c,
{
    if is_first_at(s, c, k) {
        let f = choose|f: int| is_first_at(s, c, f);
        if f < k {
            assert(s[f] != c);
        }
        if k < f {
            assert(s[k] != c);
        }
    }
    if is_last_at(s, c, k) {
        let l = choose|l: int| is_last_at(s, c, l);
        if l < k {
            assert(s[k] != c);
        }
        if k < l {
            assert(s[l] != c);
        }
    }
    if first_position(s, c) is None {
        lemma_not_found(s, c, s.len() as int);
    }
    if last_position(s, c) is None {
        lemma_not_found_from(s, c, 0);
    }
}

/// Where no position is the first of `c`, `c` does not occur before `n`.
proof fn lemma_not_found(s: Seq<char>, c: char, n: int)
    requires
        0 <= n <= s.len(),
        forall|k: int| !is_first_at(s, c, k),
    ensures
        forall|j: int| 0 <= j < n ==> #[trigger] s[j] != c,
    decreases n,
{
    if n > 0 {
        lemma_not_found(s, c, n - 1);
        assert(!is_first_at(s, c, n - 1));
    }
}

/// Where no position is the last of `c`, `c` does not occur from `n` on.
proof fn lemma_not_found_from(s: Seq<char>, c: char, n: int)
    requires
        0 <= n <= s.len(),
        forall|k: int| !is_last_at(s, c, k),
    ensures
        forall|j: int| n <= j < s.len() ==> #[trigger] s[j] != c,
    decreases s.len() - n,
{
    if n < s.len() {
        lemma_not_found_from(s, c, n + 1);
        assert(!is_last_at(s, c, n));
    }
}

/// The first position of a character in a text.
pub fn find(s: &str, c: char) -> (r: Option<usize>)
    ensures
        match r {
            Some(k) => first_position(s@, c) == Some(k as int),
            None => first_position(s@, c) is None,
        },
{
    let chars = chars_of(s);
    let mut i: usize = 0;
    while i < chars.len()
        invariant
            i <= chars.len(),
            chars@ == s@,
            forall|j: int| 0 <= j < i ==> #[trigger] s@[j] != c,
        decreases chars.len() - i,
    {
        if chars[i] == c {
            proof {
                lemma_positions(s@, c, i as int);
            }
            return Some(i);
        }
        i += 1;
    }
    proof {
        if first_position(s@, c) is Some {
            lemma_positions(s@, c, 0);
        }
    }
    None
}

/// The last position of a character in a text.
pub fn rfind(s: &str, c: char) -> (r: Option<usize>)
    ensures
        match r {
            Some(k) => last_position(s@, c) == Some(k as int),
            None => last_position(s@, c) is None,
        },
{
    let chars = chars_of(s);
    let mut i: usize = chars.len();
    while i > 0
        invariant
            i <= chars.len(),
            chars@ == s@,
            forall|j: int| i <= j < s@.len() ==> #[trigger] s@[j] != c,
        decreases i,
    {
        if chars[i - 1] == c {
            proof {
                lemma_positions(s@, c, i - 1);
            }
            return Some(i - 1);
        }
        i -= 1;
    }
    proof {
        if last_position(s@, c) is Some {
            lemma_positions(s@, c, 0);
        }
    }
    None
}

/// The lines of a text.
pub fn lines(s: &str) -> (r: Vec<String>)
    ensures
        text_views(r@) == split_lines(s@),
{
    let chars = chars_of(s);
    let n = chars.len();
    let mut r: Vec<String> = Vec::new();
    let mut start: usize = 0;
    let mut i: usize = 0;
    assert(s@.skip(0) =~= s@);
    assert(text_views(r@) =~= Seq::empty());
    while i < n
        invariant
            start <= i <= n,
            n == chars.len(),
            chars@ == s@,
            forall|j: int| start <= j < i ==> #[trigger] s@[j] != '\n',
            text_views(r@) + split_lines(s@.skip(start as int)) == split_lines(s@),
        decreases n - i,
    {
        if chars[i] == '\n' {
            let mut end = i;
            if end > start && chars[end - 1] == '\r' {
                end = end - 1;
            }
            let line = String::from_str(s.substring_char(start, end));
            proof {
                let rest = s@.skip(start as int);
                let k = i - start;
                assert(is_first_at(rest, '\n', k)) by {
                    assert(rest[k] == s@[i as int]);
                    assert forall|j: int| 0 <= j < k implies #[trigger] rest[j] != '\n' by {
                        assert(rest[j] == s@[start + j]);
                    }
                }
                lemma_positions(rest, '\n', k);
                assert(rest.take(k) =~= s@.subrange(start as int, i as int));
                assert(rest.skip(k + 1) =~= s@.skip(i + 1));
                assert(line@ =~= without_carriage_return(rest.take(k))) by {
                    if i > start {
                        assert(rest.take(k).last() == s@[i - 1]);
                    }
                }
                assert(split_lines(rest) == seq![line@] + split_lines(s@.skip(i + 1)));
                assert(text_views(r@.push(line)) =~= text_views(r@).push(line@));
                assert(text_views(r@).push(line@) + split_lines(s@.skip(i + 1)) =~= text_views(r@)
                    + split_lines(rest));
            }
            r.push(line);
            start = i + 1;
        }
        i += 1;
    }
    if start < n {
        let line = String::from_str(s.substring_char(start, n));
        proof {
            let rest = s@.skip(start as int);
            assert(line@ =~= rest);
            if first_position(rest, '\n') is Some {
                lemma_positions(rest, '\n', 0);
                let k = first_position(rest, '\n')->0;
                assert(rest[k] == s@[start + k]);
            }
            assert(split_lines(rest) == seq![rest]);
            assert(text_views(r@.push(line)) =~= text_views(r@).push(line@));
            assert(text_views(r@).push(line@) =~= text_views(r@) + seq![rest]);
        }
        r.push(line);
    } else {
        proof {
            assert(s@.skip(start as int).len() == 0);
            assert(text_views(r@) + Seq::<Seq<char>>::empty() =~= text_views(r@));
        }
    }
    r
}

/// Whether two texts hold the same characters.
pub fn same_text(a: &str, b: &str) -> (same: bool)
    ensures
        same == (a@ == b@),
{
    let x = chars_of(a);
    let y = chars_of(b);
    if x.len() != y.len() {
        return false;
    }
    let mut i: usize = 0;
    while i < x.len()
        invariant
            i <= x.len(),
            x.len() == y.len(),
            x@ == a@,
            y@ == b@,
            forall|j: int| 0 <= j < i ==> a@[j] == b@[j],
        decreases x.len() - i,
    {
        if x[i] != y[i] {
            return false;
        }
        i += 1;
    }
    assert(a@ =~= b@);
    true
}

/// `s` begins with the characters of `prefix`.
pub open spec fn has_prefix(s: Seq<char>, prefix: Seq<char>) -> bool {
    prefix.len() <= s.len() && s.take(prefix.len() as int) == prefix
}

/// Whether a text begins with another.
pub fn starts_with(s: &str, prefix: &str) -> (b: bool)
    ensures
        b == has_prefix(s@, prefix@),
{
    let x = chars_of(s);
    let y = chars_of(prefix);
    if y.len() > x.len() {
        return false;
    }
    let mut i: usize = 0;
    while i < y.len()
        invariant
            i <= y.len() <= x.len(),
            x@ == s@,
            y@ == prefix@,
            forall|j: int| 0 <= j < i ==> s@[j] == prefix@[j],
        decreases y.len() - i,
    {
        if x[i] != y[i] {
            assert(s@.take(prefix@.len() as int)[i as int] != prefix@[i as int]);
            return false;
        }
        i += 1;
    }
    assert(s@.take(prefix@.len() as int) =~= prefix@);
    true
}

} // verus!
