//! Character-level helpers shared by the router and the command handlers.

use vstd::prelude::*;
use vstd::string::*;

verus! {

/// The views of a list of owned strings.
pub open spec fn texts(items: Seq<String>) -> Seq<Seq<char>> {
    items.map_values(|s: String| s@)
}

/// Whether `c` carries the Unicode `White_Space` property.
pub open spec fn is_space(c: char) -> bool {
    let n = c as u32;
    ||| 0x09 <= n <= 0x0D
    ||| n == 0x20
    ||| n == 0x85
    ||| n == 0xA0
    ||| n == 0x1680
    ||| 0x2000 <= n <= 0x200A
    ||| n == 0x2028
    ||| n == 0x2029
    ||| n == 0x202F
    ||| n == 0x205F
    ||| n == 0x3000
}

/// Whether `c` is one of the ASCII digits `0` to `9`.
pub open spec fn is_digit(c: char) -> bool {
    0x30 <= c as u32 <= 0x39
}

/// Executable test for [`is_space`].
pub fn is_whitespace(c: char) -> (b: bool)
    ensures
        b == is_space(c),
{
    let n: u32 = c as u32;
    (0x09 <= n && n <= 0x0D) || n == 0x20 || n == 0x85 || n == 0xA0 || n == 0x1680 || (0x2000 <= n
        && n <= 0x200A) || n == 0x2028 || n == 0x2029 || n == 0x202F || n == 0x205F || n == 0x3000
}

/// The kinds of character runs that [`scan`] can measure.
#[derive(Clone, Copy, Debug)]
pub enum CharClass {
    /// White space.
    Space,
    /// Anything but white space.
    Word,
    /// ASCII digits.
    Digit,
    /// Anything but a comma.
    Field,
}

impl CharClass {
    /// Whether `c` belongs to the class.
    pub open spec fn holds(self, c: char) -> bool {
        match self {
            CharClass::Space => is_space(c),
            CharClass::Word => !is_space(c),
            CharClass::Digit => is_digit(c),
            CharClass::Field => c != ',',
        }
    }

    /// Executable test for [`CharClass::holds`].
    pub fn test(self, c: char) -> (b: bool)
        ensures
            b == self.holds(c),
    {
        match self {
            CharClass::Space => is_whitespace(c),
            CharClass::Word => !is_whitespace(c),
            CharClass::Digit => {
                let n: u32 = c as u32;
                0x30 <= n && n <= 0x39
            },
            CharClass::Field => c != ',',
        }
    }
}

/// The end of the longest run of `class` characters that starts at `from`:
/// the first position at or after `from` whose character is outside the
/// class, or the length of `s` when there is none.
pub open spec fn run_end(s: Seq<char>, from: int, class: CharClass) -> int
    decreases s.len() - from,
{
    if 0 <= from < s.len() && class.holds(s[from]) {
        run_end(s, from + 1, class)
    } else {
        from
    }
}

/// [`run_end`] stays within the text, covers only characters of the class and
/// stops at a character outside it.
pub proof fn lemma_run_end(s: Seq<char>, from: int, class: CharClass)
    requires
        0 <= from <= s.len(),
    ensures
        from <= run_end(s, from, class) <= s.len(),
        forall|k: int| from <= k < run_end(s, from, class) ==> class.holds(#[trigger] s[k]),
        run_end(s, from, class) < s.len() ==> !class.holds(s[run_end(s, from, class)]),
    decreases s.len() - from,
{
    if from < s.len() && class.holds(s[from]) {
        lemma_run_end(s, from + 1, class);
    }
}

/// A position that bounds a run as [`lemma_run_end`] describes is its end.
pub proof fn lemma_run_end_is(s: Seq<char>, from: int, class: CharClass, end: int)
    requires
        0 <= from <= end <= s.len(),
        forall|k: int| from <= k < end ==> class.holds(#[trigger] s[k]),
        end < s.len() ==> !class.holds(s[end]),
    ensures
        run_end(s, from, class) == end,
    decreases end - from,
{
    if from < end {
        lemma_run_end_is(s, from + 1, class, end);
    }
}

/// Scanning behind a `head` that is put in front of `s` ends where scanning
/// `s` alone ends, moved by the length of `head`.
pub proof fn lemma_run_end_behind(head: Seq<char>, s: Seq<char>, from: int, class: CharClass)
    requires
        0 <= from <= s.len(),
    ensures
        run_end(head + s, head.len() + from, class) == head.len() + run_end(s, from, class),
{
    lemma_run_end(s, from, class);
    let end = run_end(s, from, class);
    assert forall|k: int| head.len() + from <= k < head.len() + end implies class.holds(
        #[trigger] (head + s)[k],
    ) by {
        assert((head + s)[k] == s[k - head.len()]);
    }
    if end < s.len() {
        assert((head + s)[head.len() + end] == s[end]);
    }
    lemma_run_end_is(head + s, head.len() + from, class, head.len() + end);
}

/// The character that writes the digit `d`.
pub open spec fn digit_char(d: nat) -> char {
    if d == 0 {
        '0'
    } else if d == 1 {
        '1'
    } else if d == 2 {
        '2'
    } else if d == 3 {
        '3'
    } else if d == 4 {
        '4'
    } else if d == 5 {
        '5'
    } else if d == 6 {
        '6'
    } else if d == 7 {
        '7'
    } else if d == 8 {
        '8'
    } else {
        '9'
    }
}

/// The decimal notation of `n`, without sign or leading zeros.
pub open spec fn decimal(n: nat) -> Seq<char>
    decreases n,
{
    if n < 10 {
        seq![digit_char(n)]
    } else {
        decimal(n / 10).push(digit_char(n % 10))
    }
}

fn digit(d: u64) -> (c: char)
    requires
        d < 10,
    ensures
        c == digit_char(d as nat),
{
    if d == 0 {
        '0'
    } else if d == 1 {
        '1'
    } else if d == 2 {
        '2'
    } else if d == 3 {
        '3'
    } else if d == 4 {
        '4'
    } else if d == 5 {
        '5'
    } else if d == 6 {
        '6'
    } else if d == 7 {
        '7'
    } else if d == 8 {
        '8'
    } else {
        '9'
    }
}

/// Writes `n` in decimal notation.
pub fn decimal_text(n: u64) -> (digits: Vec<char>)
    ensures
        digits@ == decimal(n as nat),
    decreases n,
{
    if n < 10 {
        let mut digits: Vec<char> = Vec::new();
        digits.push(digit(n));
        assert(digits@ =~= seq![digit_char(n as nat)]);
        digits
    } else {
        let mut digits = decimal_text(n / 10);
        digits.push(digit(n % 10));
        digits
    }
}

/// The characters of `s`, in order, as a vector that can be indexed in constant time.
pub fn chars_of(s: &str) -> (v: Vec<char>)
    ensures
        v@ == s@,
{
    let mut v: Vec<char> = Vec::new();
    for c in it: s.chars()
        invariant
            it.seq() == s@,
            v@ == it.seq().take(it.index() as int),
    {
        v.push(c);
    }
    v
}

/// Measures the run of `class` characters in `chars` that starts at `from`.
pub fn scan(chars: &Vec<char>, from: usize, class: CharClass) -> (end: usize)
    ensures
        end == run_end(chars@, from as int, class),
{
    let mut end: usize = from;
    while end < chars.len() && class.test(chars[end])
        invariant
            from <= end,
            run_end(chars@, from as int, class) == run_end(chars@, end as int, class),
        decreases chars.len() - end,
    {
        end = end + 1;
    }
    end
}

/// Whether `pattern` stands in `s` at position `at`.
pub open spec fn occurs_at(s: Seq<char>, at: int, pattern: Seq<char>) -> bool {
    &&& 0 <= at
    &&& at + pattern.len() <= s.len()
    &&& s.subrange(at, at + pattern.len()) == pattern
}

/// Executable test for [`occurs_at`].
pub fn found_at(chars: &Vec<char>, at: usize, pattern: &Vec<char>) -> (found: bool)
    ensures
        found == occurs_at(chars@, at as int, pattern@),
{
    if pattern.len() > chars.len() || at > chars.len() - pattern.len() {
        return false;
    }
    let mut i: usize = 0;
    while i < pattern.len()
        invariant
            i <= pattern.len(),
            at + pattern.len() <= chars.len(),
            forall|j: int| 0 <= j < i ==> chars@[at + j] == pattern@[j],
        decreases pattern.len() - i,
    {
        if chars[at + i] != pattern[i] {
            assert(chars@.subrange(at as int, at + pattern.len())[i as int] != pattern@[i as int]);
            return false;
        }
        i = i + 1;
    }
    assert(chars@.subrange(at as int, at + pattern.len()) =~= pattern@);
    true
}

/// The characters of `text` from position `from` up to, not including, `to`.
pub(crate) fn slice_text(text: &str, from: usize, to: usize) -> (part: String)
    requires
        from <= to <= text@.len(),
    ensures
        part@ == text@.subrange(from as int, to as int),
{
    String::from_str(text.substring_char(from, to))
}

/// The comma-separated fields of `s` that begin at or after `from`.
pub open spec fn fields_from(s: Seq<char>, from: int) -> Seq<Seq<char>>
    decreases s.len() - from,
{
    let end = run_end(s, from, CharClass::Field);
    if from <= end < s.len() {
        seq![s.subrange(from, end)] + fields_from(s, end + 1)
    } else {
        seq![s.subrange(from, s.len() as int)]
    }
}

/// The fields of `s` between its commas, empty ones included. A text
/// without a comma is a single field; the empty text is one empty field.
pub open spec fn fields(s: Seq<char>) -> Seq<Seq<char>> {
    fields_from(s, 0)
}

/// The texts of `parts` written one after the other with a comma between
/// neighbours.
pub open spec fn rejoined(parts: Seq<Seq<char>>) -> Seq<char>
    decreases parts.len(),
{
    if parts.len() == 0 {
        Seq::empty()
    } else if parts.len() == 1 {
        parts[0]
    } else {
        parts[0] + seq![','] + rejoined(parts.skip(1))
    }
}

/// Splitting loses nothing and leaves no comma behind: there is at least one
/// field, no field holds a comma, and the fields joined by commas are the
/// text again.
pub proof fn lemma_fields_from(s: Seq<char>, from: int)
    requires
        0 <= from <= s.len(),
    ensures
        fields_from(s, from).len() >= 1,
        forall|i: int|
            0 <= i < fields_from(s, from).len() ==> !(#[trigger] fields_from(s, from)[i]).contains(
                ',',
            ),
        rejoined(fields_from(s, from)) == s.subrange(from, s.len() as int),
    decreases s.len() - from,
{
    let end = run_end(s, from, CharClass::Field);
    lemma_run_end(s, from, CharClass::Field);
    let first = s.subrange(from, end);
    assert(!first.contains(',')) by {
        if first.contains(',') {
            let k = choose|k: int| 0 <= k < first.len() && first[k] == ',';
            assert(CharClass::Field.holds(s[from + k]));
        }
    }
    if end < s.len() {
        lemma_fields_from(s, end + 1);
        let others = fields_from(s, end + 1);
        let all = fields_from(s, from);
        assert(all == seq![first] + others);
        assert forall|i: int| 0 <= i < all.len() implies !(#[trigger] all[i]).contains(',') by {
            if i > 0 {
                assert(all[i] == others[i - 1]);
            }
        }
        assert(all.skip(1) =~= others);
        assert(s[end] == ',');
        assert(first + seq![','] + s.subrange(end + 1, s.len() as int) =~= s.subrange(
            from,
            s.len() as int,
        ));
    }
}

/// [`lemma_fields_from`] for the whole text.
pub proof fn lemma_fields(s: Seq<char>)
    ensures
        fields(s).len() >= 1,
        forall|i: int| 0 <= i < fields(s).len() ==> !(#[trigger] fields(s)[i]).contains(','),
        rejoined(fields(s)) == s,
{
    lemma_fields_from(s, 0);
    assert(s.subrange(0, s.len() as int) =~= s);
}

/// Splits `text` at every comma.
pub fn split_fields(text: &str) -> (parts: Vec<String>)
    ensures
        texts(parts@) == fields(text@),
{
    let chars = chars_of(text);
    let mut parts: Vec<String> = Vec::new();
    let mut from: usize = 0;
    let mut done = false;
    while !done
        invariant
            chars@ == text@,
            from <= chars.len(),
            !done ==> fields(text@) == texts(parts@) + fields_from(text@, from as int),
            done ==> fields(text@) == texts(parts@),
        decreases (if done { 0 } else { chars.len() - from + 1 }),
    {
        let end = scan(&chars, from, CharClass::Field);
        proof {
            lemma_run_end(chars@, from as int, CharClass::Field);
        }
        let part = slice_text(text, from, end);
        proof {
            parts@.lemma_push_map_commute(|s: String| s@, part);
        }
        parts.push(part);
        if end < chars.len() {
            from = end + 1;
        } else {
            done = true;
        }
    }
    parts
}

} // verus!
