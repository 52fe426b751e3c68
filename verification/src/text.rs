//! Text as sequences of characters: byte lengths, splitting, classes of
//! characters, decimal numbers.
//!
//! Every contract in this crate speaks of a string through its view, a
//! `Seq<char>`. Lengths are counted in UTF-8 bytes, as `str::len` counts them.

use vstd::prelude::*;
use vstd::utf8::encode_utf8;
use vstd::utf8::encode_scalar;
use vstd::utf8::char_is_scalar;

verus! {

// ---------------------------------------------------------------------------
// Classes of characters
// ---------------------------------------------------------------------------

/// Whether `c` is in one of Unicode's number categories, as
/// `char::is_numeric` decides it.
pub uninterp spec fn char_is_numeric(c: char) -> bool;

/// Whether `c` is alphabetic in Unicode's sense, as `char::is_alphabetic`
/// decides it.
pub uninterp spec fn char_is_alphabetic(c: char) -> bool;

/// Whether `c` is alphabetic or numeric.
pub open spec fn char_is_alphanumeric(c: char) -> bool {
    char_is_alphabetic(c) || char_is_numeric(c)
}

/// Whether `c` has Unicode's `White_Space` property, as `char::is_whitespace`
/// decides it.
pub uninterp spec fn char_is_whitespace(c: char) -> bool;

/// The lowercase form of a text, as `str::to_lowercase` computes it.
pub uninterp spec fn lowercase_of(s: Seq<char>) -> Seq<char>;

/// `char::is_numeric` of std. The contract gives its answer a name and claims
/// nothing else: the answer depends on the character alone.
pub assume_specification[ char::is_numeric ](c: char) -> (r: bool)
    ensures
        r == char_is_numeric(c),
;

/// `char::is_alphabetic` of std. The contract gives its answer a name and
/// claims nothing else.
pub assume_specification[ char::is_alphabetic ](c: char) -> (r: bool)
    ensures
        r == char_is_alphabetic(c),
;

/// `char::is_alphanumeric` of std: it holds of the characters of which
/// `char::is_alphabetic` or `char::is_numeric` holds, as its documentation
/// says.
pub assume_specification[ char::is_alphanumeric ](c: char) -> (r: bool)
    ensures
        r == (char_is_alphabetic(c) || char_is_numeric(c)),
;

/// `char::is_whitespace` of std. The contract gives its answer a name and
/// claims nothing else.
pub assume_specification[ char::is_whitespace ](c: char) -> (r: bool)
    ensures
        r == char_is_whitespace(c),
;

/// `str::to_lowercase` of std. The contract gives the result a name and
/// claims nothing else: the result depends on the text alone.
#[verifier::external_body]
pub(crate) fn lowercase(s: &str) -> (r: String)
    ensures
        r@ == lowercase_of(s@),
{
    s.to_lowercase()
}

/// The classes of characters that the rules ask about.
#[derive(Clone, Copy, Debug, PartialEq, Eq, Structural)]
pub enum CharClass {
    Numeric,
    Alphabetic,
    Alphanumeric,
    Whitespace,
}

/// Whether `c` belongs to `class`.
pub open spec fn class_holds(class: CharClass, c: char) -> bool {
    match class {
        CharClass::Numeric => char_is_numeric(c),
        CharClass::Alphabetic => char_is_alphabetic(c),
        CharClass::Alphanumeric => char_is_alphanumeric(c),
        CharClass::Whitespace => char_is_whitespace(c),
    }
}

/// Every character of `s` belongs to `class`.
pub open spec fn all_of_class(s: Seq<char>, class: CharClass) -> bool {
    forall|i: int| 0 <= i < s.len() ==> class_holds(class, #[trigger] s[i])
}

/// Every character of `s` is numeric.
pub open spec fn all_numeric(s: Seq<char>) -> bool {
    all_of_class(s, CharClass::Numeric)
}

/// Every character of `s` is alphabetic.
pub open spec fn all_alphabetic(s: Seq<char>) -> bool {
    all_of_class(s, CharClass::Alphabetic)
}

/// Every character of `s` is alphabetic or numeric.
pub open spec fn all_alphanumeric(s: Seq<char>) -> bool {
    all_of_class(s, CharClass::Alphanumeric)
}

/// `s` holds nothing but white space: trimming it leaves the empty text.
pub open spec fn is_blank(s: Seq<char>) -> bool {
    all_of_class(s, CharClass::Whitespace)
}

/// Whether `c` belongs to `class`.
pub fn char_in_class(c: char, class: CharClass) -> (r: bool)
    ensures
        r == class_holds(class, c),
{
    match class {
        CharClass::Numeric => c.is_numeric(),
        CharClass::Alphabetic => c.is_alphabetic(),
        CharClass::Alphanumeric => c.is_alphanumeric(),
        CharClass::Whitespace => c.is_whitespace(),
    }
}

/// Whether every character of `s` belongs to `class`.
pub fn every_char_is(s: &Vec<char>, class: CharClass) -> (r: bool)
    ensures
        r == all_of_class(s@, class),
{
    let mut i: usize = 0;
    while i < s.len()
        invariant
            i <= s.len(),
            forall|j: int| 0 <= j < i ==> class_holds(class, #[trigger] s@[j]),
        decreases s.len() - i,
    {
        if !char_in_class(s[i], class) {
            return false;
        }
        i = i + 1;
    }
    true
}

/// Whether a string holds nothing but white space.
pub fn str_is_blank(s: &str) -> (r: bool)
    ensures
        r == is_blank(s@),
{
    let cs = chars_of(s);
    every_char_is(&cs, CharClass::Whitespace)
}

// ---------------------------------------------------------------------------
// Characters of a string, byte lengths
// ---------------------------------------------------------------------------

/// The characters of `s`, in order.
pub fn chars_of(s: &str) -> (out: Vec<char>)
    ensures
        out@ == s@,
{
    let mut out: Vec<char> = Vec::new();
    for c in it: s.chars()
        invariant
            out@ == it.seq().take(it.index() as int),
            it.seq() == s@,
    {
        out.push(c);
    }
    out
}

/// Number of bytes that `c` takes in UTF-8.
pub open spec fn utf8_width(c: char) -> nat {
    if (c as u32) < 0x80 {
        1
    } else if (c as u32) < 0x800 {
        2
    } else if (c as u32) < 0x10000 {
        3
    } else {
        4
    }
}

/// Number of bytes that `s` takes in UTF-8: the length that `str::len` reports.
pub open spec fn byte_len(s: Seq<char>) -> nat
    decreases s.len(),
{
    if s.len() == 0 {
        0
    } else {
        byte_len(s.drop_last()) + utf8_width(s.last())
    }
}

proof fn lemma_encode_push(s: Seq<char>, c: char)
    ensures
        encode_utf8(s.push(c)) =~= encode_utf8(s) + encode_scalar(c as u32),
    decreases s.len(),
{
    if s.len() == 0 {
        assert(s.push(c).drop_first() =~= Seq::<char>::empty());
        assert(encode_utf8(s.push(c).drop_first()) =~= Seq::<u8>::empty());
    } else {
        assert(s.push(c).drop_first() =~= s.drop_first().push(c));
        lemma_encode_push(s.drop_first(), c);
    }
}

/// `byte_len` is the length of the UTF-8 encoding.
pub proof fn lemma_byte_len_is_encoded_len(s: Seq<char>)
    ensures
        byte_len(s) == encode_utf8(s).len(),
    decreases s.len(),
{
    if s.len() > 0 {
        let c = s.last();
        lemma_byte_len_is_encoded_len(s.drop_last());
        lemma_encode_push(s.drop_last(), c);
        assert(s.drop_last().push(c) =~= s);
        char_is_scalar(c);
    }
}

fn char_width(c: char) -> (w: u128)
    ensures
        w == utf8_width(c),
{
    let v: u32 = c as u32;
    if v < 0x80 {
        1
    } else if v < 0x800 {
        2
    } else if v < 0x10000 {
        3
    } else {
        4
    }
}

/// The UTF-8 length of a text held as characters.
pub fn byte_length(s: &Vec<char>) -> (n: u128)
    ensures
        n == byte_len(s@),
{
    let mut n: u128 = 0;
    let mut i: usize = 0;
    while i < s.len()
        invariant
            i <= s.len(),
            n == byte_len(s@.take(i as int)),
            n <= 4 * i,
        decreases s.len() - i,
    {
        let w = char_width(s[i]);
        proof {
            assert(s@.take(i + 1).drop_last() =~= s@.take(i as int));
        }
        n = n + w;
        i = i + 1;
    }
    proof {
        assert(s@.take(s.len() as int) =~= s@);
    }
    n
}

/// The UTF-8 length of a string.
pub fn str_byte_length(s: &str) -> (n: u128)
    ensures
        n == byte_len(s@),
{
    let cs = chars_of(s);
    byte_length(&cs)
}

// ---------------------------------------------------------------------------
// Comparing and searching
// ---------------------------------------------------------------------------

/// Whether two texts hold the same characters.
pub fn chars_equal(a: &Vec<char>, b: &Vec<char>) -> (r: bool)
    ensures
        r == (a@ == b@),
{
    if a.len() != b.len() {
        return false;
    }
    let mut i: usize = 0;
    while i < a.len()
        invariant
            i <= a.len(),
            a.len() == b.len(),
            forall|j: int| 0 <= j < i ==> a@[j] == b@[j],
        decreases a.len() - i,
    {
        if a[i] != b[i] {
            return false;
        }
        i = i + 1;
    }
    proof {
        assert(a@ =~= b@);
    }
    true
}

/// Whether two strings hold the same characters.
pub fn str_equal(a: &str, b: &str) -> (r: bool)
    ensures
        r == (a@ == b@),
{
    let x = chars_of(a);
    let y = chars_of(b);
    chars_equal(&x, &y)
}

/// Whether `s` begins with `prefix`.
pub fn chars_start_with(s: &Vec<char>, prefix: &Vec<char>) -> (r: bool)
    ensures
        r == prefix@.is_prefix_of(s@),
{
    if prefix.len() > s.len() {
        return false;
    }
    let mut i: usize = 0;
    while i < prefix.len()
        invariant
            i <= prefix.len(),
            prefix.len() <= s.len(),
            forall|j: int| 0 <= j < i ==> s@[j] == prefix@[j],
        decreases prefix.len() - i,
    {
        if s[i] != prefix[i] {
            assert(s@.subrange(0, prefix@.len() as int)[i as int] != prefix@[i as int]);
            return false;
        }
        i = i + 1;
    }
    proof {
        assert(prefix@ =~= s@.subrange(0, prefix@.len() as int));
    }
    true
}

/// Whether a string begins with `prefix`.
pub fn str_starts_with(s: &str, prefix: &str) -> (r: bool)
    ensures
        r == prefix@.is_prefix_of(s@),
{
    let x = chars_of(s);
    let y = chars_of(prefix);
    chars_start_with(&x, &y)
}

/// Whether `c` occurs in `s`.
pub fn chars_contain(s: &Vec<char>, c: char) -> (r: bool)
    ensures
        r == s@.contains(c),
{
    let mut i: usize = 0;
    while i < s.len()
        invariant
            i <= s.len(),
            forall|j: int| 0 <= j < i ==> s@[j] != c,
        decreases s.len() - i,
    {
        if s[i] == c {
            return true;
        }
        i = i + 1;
    }
    false
}

/// The views of the string literals in `items`.
pub open spec fn literal_views(items: Seq<&'static str>) -> Seq<Seq<char>> {
    Seq::new(items.len(), |i: int| items[i]@)
}

/// Whether `needle` is one of `allowed`.
pub open spec fn one_of(needle: Seq<char>, allowed: Seq<&'static str>) -> bool {
    literal_views(allowed).contains(needle)
}

/// Whether `needle` is one of `allowed`.
pub fn is_one_of(needle: &str, allowed: &Vec<&'static str>) -> (r: bool)
    ensures
        r == one_of(needle@, allowed@),
{
    let x = chars_of(needle);
    let mut i: usize = 0;
    while i < allowed.len()
        invariant
            i <= allowed.len(),
            x@ == needle@,
            forall|j: int| 0 <= j < i ==> (#[trigger] literal_views(allowed@)[j]) != needle@,
        decreases allowed.len() - i,
    {
        let y = chars_of(allowed[i]);
        proof {
            assert(literal_views(allowed@)[i as int] == allowed@[i as int]@);
        }
        if chars_equal(&x, &y) {
            return true;
        }
        i = i + 1;
    }
    proof {
        assert(literal_views(allowed@).len() == allowed@.len());
    }
    false
}

// ---------------------------------------------------------------------------
// Splitting and joining
// ---------------------------------------------------------------------------

/// The parts of `s` between the occurrences of `sep`, in order: one part more
/// than there are separators, empty parts included.
pub open spec fn split_on(s: Seq<char>, sep: char) -> Seq<Seq<char>>
    decreases s.len(),
{
    if s.len() == 0 {
        seq![Seq::<char>::empty()]
    } else {
        let before = split_on(s.drop_last(), sep);
        if s.last() == sep {
            before.push(Seq::<char>::empty())
        } else {
            before.drop_last().push(before.last().push(s.last()))
        }
    }
}

/// The views of the texts in `parts`.
pub open spec fn views_of(parts: Seq<Vec<char>>) -> Seq<Seq<char>> {
    Seq::new(parts.len(), |i: int| parts[i]@)
}

/// Splits `s` at every occurrence of `sep`.
pub fn split_chars(s: &Vec<char>, sep: char) -> (parts: Vec<Vec<char>>)
    ensures
        views_of(parts@) == split_on(s@, sep),
{
    let mut done: Vec<Vec<char>> = Vec::new();
    let mut current: Vec<char> = Vec::new();
    let mut i: usize = 0;
    while i < s.len()
        invariant
            i <= s.len(),
            views_of(done@).push(current@) == split_on(s@.take(i as int), sep),
        decreases s.len() - i,
    {
        let c = s[i];
        proof {
            assert(s@.take(i + 1).drop_last() =~= s@.take(i as int));
            assert(s@.take(i + 1).last() == c);
        }
        let ghost before = views_of(done@).push(current@);
        if c == sep {
            done.push(current);
            current = Vec::new();
            proof {
                assert(views_of(done@) =~= before);
            }
        } else {
            current.push(c);
            proof {
                assert(views_of(done@).push(current@) =~= before.drop_last().push(
                    before.last().push(c),
                ));
            }
        }
        i = i + 1;
    }
    let ghost before = views_of(done@).push(current@);
    done.push(current);
    proof {
        assert(s@.take(s.len() as int) =~= s@);
        assert(views_of(done@) =~= before);
    }
    done
}

/// The texts of `items` with `sep` between each two neighbours.
pub open spec fn joined(items: Seq<Seq<char>>, sep: Seq<char>) -> Seq<char>
    decreases items.len(),
{
    if items.len() == 0 {
        Seq::<char>::empty()
    } else if items.len() == 1 {
        items[0]
    } else {
        joined(items.drop_last(), sep) + sep + items.last()
    }
}

/// What a split is: the parts hold no separator, and joined by the
/// separator they give the text back. There is one part at least.
pub proof fn lemma_split_joins_back(s: Seq<char>, sep: char)
    ensures
        split_on(s, sep).len() >= 1,
        joined(split_on(s, sep), seq![sep]) == s,
        forall|i: int|
            0 <= i < split_on(s, sep).len() ==> !(#[trigger] split_on(s, sep)[i]).contains(sep),
    decreases s.len(),
{
    let parts = split_on(s, sep);
    if s.len() == 0 {
        assert(parts[0] =~= s);
        assert forall|i: int| 0 <= i < parts.len() implies !(#[trigger] parts[i]).contains(sep) by {
            assert(parts[i].len() == 0);
        }
    } else {
        let c = s.last();
        let before = split_on(s.drop_last(), sep);
        lemma_split_joins_back(s.drop_last(), sep);
        assert(s.drop_last().push(c) =~= s);
        if c == sep {
            assert(parts.drop_last() =~= before);
            assert(joined(parts, seq![sep]) =~= joined(before, seq![sep]) + seq![sep]
                + Seq::<char>::empty());
            assert(joined(parts, seq![sep]) =~= s);
            assert forall|i: int| 0 <= i < parts.len() implies !(#[trigger] parts[i]).contains(
                sep,
            ) by {
                if i < before.len() {
                    assert(parts[i] == before[i]);
                } else {
                    assert(parts[i].len() == 0);
                }
            }
        } else {
            let grown = before.last().push(c);
            if before.len() == 1 {
                assert(parts[0] == grown);
                assert(joined(parts, seq![sep]) =~= joined(before, seq![sep]).push(c));
            } else {
                assert(parts.drop_last() =~= before.drop_last());
                assert(joined(parts, seq![sep]) =~= joined(before.drop_last(), seq![sep])
                    + seq![sep] + grown);
                assert(joined(parts, seq![sep]) =~= joined(before, seq![sep]).push(c));
            }
            assert(joined(parts, seq![sep]) =~= s);
            assert forall|i: int| 0 <= i < parts.len() implies !(#[trigger] parts[i]).contains(
                sep,
            ) by {
                if i < parts.len() - 1 {
                    assert(parts[i] == before[i]);
                } else {
                    assert(parts[i] == grown);
                    assert(!before.last().contains(sep));
                    if grown.contains(sep) {
                        let k = choose|k: int| 0 <= k < grown.len() && grown[k] == sep;
                        if k < before.last().len() {
                            assert(before.last()[k] == sep);
                        }
                    }
                }
            }
        }
    }
}

/// Joins the strings of `items`, with `sep` between each two neighbours.
pub fn join_strs(items: &Vec<&'static str>, sep: &str) -> (out: String)
    ensures
        out@ == joined(literal_views(items@), sep@),
{
    let mut out = String::new();
    let mut i: usize = 0;
    while i < items.len()
        invariant
            i <= items.len(),
            out@ == joined(literal_views(items@).take(i as int), sep@),
        decreases items.len() - i,
    {
        proof {
            let now = literal_views(items@).take(i + 1);
            assert(now.drop_last() =~= literal_views(items@).take(i as int));
            assert(now.last() == items@[i as int]@);
        }
        if i > 0 {
            out.append(sep);
        }
        out.append(items[i]);
        proof {
            if i == 0 {
                assert(out@ =~= items@[0]@);
            }
        }
        i = i + 1;
    }
    proof {
        assert(literal_views(items@).take(items.len() as int) =~= literal_views(items@));
    }
    out
}

// ---------------------------------------------------------------------------
// Decimal numbers
// ---------------------------------------------------------------------------

/// The value of an ASCII digit, and `None` for any other character.
pub open spec fn digit_value(c: char) -> Option<nat> {
    if 48 <= (c as u32) <= 57 {
        Some(((c as u32) - 48) as nat)
    } else {
        None
    }
}

/// The number that a run of ASCII digits denotes in base ten, and `None` if
/// some character is no ASCII digit. The empty run denotes 0.
pub open spec fn digits_value(s: Seq<char>) -> Option<nat>
    decreases s.len(),
{
    if s.len() == 0 {
        Some(0)
    } else {
        match (digits_value(s.drop_last()), digit_value(s.last())) {
            (Some(high), Some(low)) => Some(high * 10 + low),
            _ => None,
        }
    }
}

/// What parsing `s` as an unsigned decimal number gives: an optional `+`, then
/// one ASCII digit or more; `None` for any other text.
pub open spec fn unsigned_value(s: Seq<char>) -> Option<nat> {
    let body = if s.len() > 0 && s[0] == '+' {
        s.drop_first()
    } else {
        s
    };
    if body.len() == 0 {
        None
    } else {
        digits_value(body)
    }
}

/// What parsing `s` as a `u32` gives: its unsigned value if that fits.
pub open spec fn u32_value(s: Seq<char>) -> Option<u32> {
    match unsigned_value(s) {
        Some(v) => if v <= u32::MAX {
            Some(v as u32)
        } else {
            None
        },
        None => None,
    }
}

proof fn lemma_digits_grow(s: Seq<char>, k: int)
    requires
        0 <= k <= s.len(),
    ensures
        digits_value(s.take(k)) is None ==> digits_value(s) is None,
        digits_value(s) is Some ==> digits_value(s)->0 >= digits_value(s.take(k))->0,
    decreases s.len() - k,
{
    if k == s.len() {
        assert(s.take(k) =~= s);
    } else {
        lemma_digits_grow(s.drop_last(), k);
        assert(s.drop_last().take(k) =~= s.take(k));
    }
}

/// Parses `s` as a `u32`, as `str::parse::<u32>` does.
pub fn parse_u32(s: &Vec<char>) -> (r: Option<u32>)
    ensures
        r == u32_value(s@),
{
    let start: usize = if s.len() > 0 && s[0] == '+' {
        1
    } else {
        0
    };
    if start == s.len() {
        return None;
    }
    let ghost body = s@.subrange(start as int, s.len() as int);
    proof {
        if start == 1 {
            assert(body =~= s@.drop_first());
        } else {
            assert(body =~= s@);
        }
        assert(body.take(0) =~= Seq::<char>::empty());
    }
    let mut acc: u64 = 0;
    let mut i: usize = start;
    while i < s.len()
        invariant
            start <= i <= s.len(),
            body == s@.subrange(start as int, s.len() as int),
            unsigned_value(s@) == digits_value(body),
            digits_value(body.take(i - start)) == Some(acc as nat),
            acc <= u32::MAX,
        decreases s.len() - i,
    {
        let v: u32 = s[i] as u32;
        proof {
            assert(body.take(i - start + 1).drop_last() =~= body.take(i - start));
            assert(body.take(i - start + 1).last() == s@[i as int]);
            lemma_digits_grow(body, i - start + 1);
        }
        if v < 48 || v > 57 {
            return None;
        }
        let next: u64 = acc * 10 + (v - 48) as u64;
        if next > 0xffff_ffff {
            return None;
        }
        acc = next;
        i = i + 1;
    }
    proof {
        assert(body.take(body.len() as int) =~= body);
    }
    Some(acc as u32)
}

/// The character that stands for the digit `d`.
pub open spec fn digit_char(d: nat) -> char {
    if d == 0 {
        '0'
    } else if d == 1 {
        '1'
    } else if d == 2 {
        '2'
    } else if d == 3 {
        '3'
    } else if d == 4 {
        '4'
    } else if d == 5 {
        '5'
    } else if d == 6 {
        '6'
    } else if d == 7 {
        '7'
    } else if d == 8 {
        '8'
    } else {
        '9'
    }
}

/// The digits of `n` in base ten, without leading zeros.
pub open spec fn decimal_text(n: nat) -> Seq<char>
    decreases n,
{
    if n < 10 {
        seq![digit_char(n)]
    } else {
        decimal_text(n / 10).push(digit_char(n % 10))
    }
}

fn digit_str(d: u8) -> (r: &'static str)
    requires
        d < 10,
    ensures
        r@ == seq![digit_char(d as nat)],
{
    proof {
        reveal_strlit("0");
        reveal_strlit("1");
        reveal_strlit("2");
        reveal_strlit("3");
        reveal_strlit("4");
        reveal_strlit("5");
        reveal_strlit("6");
        reveal_strlit("7");
        reveal_strlit("8");
        reveal_strlit("9");
    }
    let r = if d == 0 {
        "0"
    } else if d == 1 {
        "1"
    } else if d == 2 {
        "2"
    } else if d == 3 {
        "3"
    } else if d == 4 {
        "4"
    } else if d == 5 {
        "5"
    } else if d == 6 {
        "6"
    } else if d == 7 {
        "7"
    } else if d == 8 {
        "8"
    } else {
        "9"
    };
    assert(r@ =~= seq![digit_char(d as nat)]);
    r
}

/// Appends the decimal digits of `n` to `out`.
pub fn push_decimal(out: &mut String, n: u128)
    ensures
        final(out)@ == old(out)@ + decimal_text(n as nat),
    decreases n,
{
    if n >= 10 {
        push_decimal(out, n / 10);
    }
    let d: u8 = (n % 10) as u8;
    out.append(digit_str(d));
    proof {
        assert(final(out)@ =~= old(out)@ + decimal_text(n as nat));
    }
}

/// The decimal digits of `n`.
pub fn decimal_string(n: u128) -> (out: String)
    ensures
        out@ == decimal_text(n as nat),
{
    let mut out = String::new();
    push_decimal(&mut out, n);
    proof {
        assert(Seq::<char>::empty() + decimal_text(n as nat) =~= decimal_text(n as nat));
    }
    out
}

// ---------------------------------------------------------------------------
// Repeated names
// ---------------------------------------------------------------------------

/// Whether the name at place `j` stands at an earlier place too.
pub open spec fn repeats_earlier(names: Seq<Seq<char>>, j: int) -> bool {
    exists|i: int| 0 <= i < j && #[trigger] names[i] == names[j]
}

/// The first place whose name stands at an earlier place too.
pub open spec fn first_repeat(names: Seq<Seq<char>>) -> Option<int>
    decreases names.len(),
{
    if names.len() == 0 {
        None
    } else {
        match first_repeat(names.drop_last()) {
            Some(j) => Some(j),
            None => if repeats_earlier(names, names.len() - 1) {
                Some(names.len() - 1)
            } else {
                None
            },
        }
    }
}

proof fn lemma_first_repeat_stays(names: Seq<Seq<char>>, k: int)
    requires
        0 <= k <= names.len(),
        first_repeat(names.take(k)) is Some,
    ensures
        first_repeat(names) == first_repeat(names.take(k)),
    decreases names.len() - k,
{
    if k == names.len() {
        assert(names.take(k) =~= names);
    } else {
        assert(names.drop_last().take(k) =~= names.take(k));
        lemma_first_repeat_stays(names.drop_last(), k);
    }
}

/// Finds the first name that stands at an earlier place too.
pub fn find_repeat(names: &Vec<Vec<char>>) -> (r: Option<usize>)
    ensures
        r is Some ==> first_repeat(views_of(names@)) == Some(r->0 as int),
        r is Some ==> r->0 < names.len(),
        r is None ==> first_repeat(views_of(names@)) is None,
{
    let ghost all = views_of(names@);
    let mut j: usize = 0;
    while j < names.len()
        invariant
            j <= names.len(),
            all == views_of(names@),
            first_repeat(all.take(j as int)) is None,
        decreases names.len() - j,
    {
        let ghost upto = all.take(j + 1);
        proof {
            assert(upto.drop_last() =~= all.take(j as int));
        }
        let mut i: usize = 0;
        while i < j
            invariant
                i <= j,
                j < names.len(),
                all == views_of(names@),
                upto == all.take(j + 1),
                first_repeat(upto.drop_last()) is None,
                forall|k: int| 0 <= k < i ==> #[trigger] upto[k] != upto[j as int],
            decreases j - i,
        {
            proof {
                assert(upto[i as int] == names@[i as int]@);
                assert(upto[j as int] == names@[j as int]@);
            }
            if chars_equal(&names[i], &names[j]) {
                proof {
                    assert(repeats_earlier(upto, j as int));
                    lemma_first_repeat_stays(all, j + 1);
                }
                return Some(j);
            }
            i = i + 1;
        }
        proof {
            assert(!repeats_earlier(upto, j as int));
        }
        j = j + 1;
    }
    proof {
        assert(all.take(names.len() as int) =~= all);
    }
    None
}

// ---------------------------------------------------------------------------
// Order
// ---------------------------------------------------------------------------

/// Whether `a` comes before `b` or is `b`, in the order in which strings are
/// compared: character by character from the front, a text before every
/// longer text that it begins.
pub open spec fn text_le(a: Seq<char>, b: Seq<char>) -> bool
    decreases a.len(),
{
    if a.len() == 0 {
        true
    } else if b.len() == 0 {
        false
    } else if a[0] != b[0] {
        (a[0] as u32) < (b[0] as u32)
    } else {
        text_le(a.drop_first(), b.drop_first())
    }
}

/// Whether `a` comes before `b` or is `b`.
pub fn chars_le(a: &Vec<char>, b: &Vec<char>) -> (r: bool)
    ensures
        r == text_le(a@, b@),
{
    let mut i: usize = 0;
    proof {
        assert(a@.skip(0) =~= a@);
        assert(b@.skip(0) =~= b@);
    }
    while i < a.len() && i < b.len()
        invariant
            i <= a.len(),
            i <= b.len(),
            text_le(a@, b@) == text_le(a@.skip(i as int), b@.skip(i as int)),
        decreases a.len() - i,
    {
        proof {
            assert(a@.skip(i as int).drop_first() =~= a@.skip(i + 1));
            assert(b@.skip(i as int).drop_first() =~= b@.skip(i + 1));
            assert(a@.skip(i as int)[0] == a@[i as int]);
            assert(b@.skip(i as int)[0] == b@[i as int]);
        }
        if a[i] != b[i] {
            return (a[i] as u32) < (b[i] as u32);
        }
        i = i + 1;
    }
    proof {
        assert(a@.skip(i as int).len() == a.len() - i);
        assert(b@.skip(i as int).len() == b.len() - i);
    }
    i == a.len()
}

/// Whether the string `a` comes before the string `b` or is `b`.
pub fn str_le(a: &str, b: &str) -> (r: bool)
    ensures
        r == text_le(a@, b@),
{
    let x = chars_of(a);
    let y = chars_of(b);
    chars_le(&x, &y)
}

} // verus!
