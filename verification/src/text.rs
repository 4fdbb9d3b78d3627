//! Text helpers shared by the rest of the crate: comparing, trimming and
//! rendering numbers. Strings are specified through their sequence of
//! characters.

use vstd::prelude::*;
use vstd::string::StringSliceAdditionalSpecFns;
use vstd::utf8::encode_utf8_decode_utf8;

verus! {

/// Whether `c` has the Unicode `White_Space` property.
pub uninterp spec fn white_space(c: char) -> bool;

/// Calls `char::is_whitespace`. Trusted: the standard library documents that
/// it answers whether the character has the `White_Space` property, which is
/// what `white_space` names.
#[verifier::external_body]
pub(crate) fn is_whitespace(c: char) -> (b: bool)
    ensures
        b == white_space(c),
{
    c.is_whitespace()
}

/// Calls `String::push`. Trusted: the standard library documents that it
/// appends the character to the end of the string.
#[verifier::external_body]
pub(crate) fn push_char(s: &mut String, c: char)
    ensures
        final(s)@ == old(s)@.push(c),
{
    s.push(c)
}

/// The number of marks that hold at the start of `marks`.
pub open spec fn leading_marked(marks: Seq<bool>) -> nat
    decreases marks.len(),
{
    if marks.len() > 0 && marks[0] {
        1 + leading_marked(marks.subrange(1, marks.len() as int))
    } else {
        0
    }
}

/// The number of marks that hold at the end of `marks`.
pub open spec fn trailing_marked(marks: Seq<bool>) -> nat
    decreases marks.len(),
{
    if marks.len() > 0 && marks.last() {
        1 + trailing_marked(marks.drop_last())
    } else {
        0
    }
}

/// `s` without the characters that are marked at its start and at its
/// end, where `marks` holds one mark for each character. With any other
/// number of marks `s` is left as it is.
pub open spec fn without_marked_ends(s: Seq<char>, marks: Seq<bool>) -> Seq<char> {
    if marks.len() != s.len() {
        s
    } else if leading_marked(marks) == s.len() {
        Seq::empty()
    } else {
        s.subrange(leading_marked(marks) as int, s.len() - trailing_marked(marks))
    }
}

/// For each character of `s`, whether it is white space.
pub open spec fn space_marks(s: Seq<char>) -> Seq<bool> {
    Seq::new(s.len(), |i: int| white_space(s[i]))
}

/// `s` without its leading and trailing white space.
pub open spec fn trimmed(s: Seq<char>) -> Seq<char> {
    without_marked_ends(s, space_marks(s))
}

/// The marks at the start are a run that ends at the first mark that does
/// not hold, or at the end.
pub proof fn lemma_leading_marked(marks: Seq<bool>)
    ensures
        leading_marked(marks) <= marks.len(),
        forall|i: int| 0 <= i < leading_marked(marks) ==> #[trigger] marks[i],
        leading_marked(marks) < marks.len() ==> !marks[leading_marked(marks) as int],
    decreases marks.len(),
{
    if marks.len() > 0 && marks[0] {
        let rest = marks.subrange(1, marks.len() as int);
        lemma_leading_marked(rest);
        assert forall|i: int| 0 <= i < leading_marked(marks) implies #[trigger] marks[i] by {
            if i > 0 {
                assert(marks[i] == rest[i - 1]);
            }
        }
        if leading_marked(marks) < marks.len() {
            assert(marks[leading_marked(marks) as int] == rest[leading_marked(rest) as int]);
        }
    }
}

/// The marks at the end are a run that starts after the last mark that
/// does not hold, or at the start.
pub proof fn lemma_trailing_marked(marks: Seq<bool>)
    ensures
        trailing_marked(marks) <= marks.len(),
        forall|i: int| marks.len() - trailing_marked(marks) <= i < marks.len() ==> #[trigger] marks[i],
        trailing_marked(marks) < marks.len() ==> !marks[marks.len() - trailing_marked(marks) - 1],
    decreases marks.len(),
{
    if marks.len() > 0 && marks.last() {
        let rest = marks.drop_last();
        lemma_trailing_marked(rest);
        assert forall|i: int|
            marks.len() - trailing_marked(marks) <= i < marks.len() implies #[trigger] marks[i] by {
            if i < marks.len() - 1 {
                assert(marks[i] == rest[i]);
            }
        }
        if trailing_marked(marks) < marks.len() {
            assert(marks[marks.len() - trailing_marked(marks) - 1] == rest[rest.len()
                - trailing_marked(rest) - 1]);
        }
    }
}

/// A run of `n` marks that hold at the start, followed by one that does
/// not or by the end, is exactly what is marked at the start.
pub proof fn lemma_leading_marked_is(marks: Seq<bool>, n: nat)
    requires
        n <= marks.len(),
        forall|i: int| 0 <= i < n ==> #[trigger] marks[i],
        n < marks.len() ==> !marks[n as int],
    ensures
        leading_marked(marks) == n,
    decreases n,
{
    if n > 0 {
        let rest = marks.subrange(1, marks.len() as int);
        assert(marks[0]);
        assert forall|i: int| 0 <= i < n - 1 implies #[trigger] rest[i] by {
            assert(rest[i] == marks[i + 1]);
        }
        lemma_leading_marked_is(rest, (n - 1) as nat);
    }
}

/// A run of `n` marks that hold at the end, preceded by one that does not
/// or by the start, is exactly what is marked at the end.
pub proof fn lemma_trailing_marked_is(marks: Seq<bool>, n: nat)
    requires
        n <= marks.len(),
        forall|i: int| marks.len() - n <= i < marks.len() ==> #[trigger] marks[i],
        n < marks.len() ==> !marks[marks.len() - n - 1],
    ensures
        trailing_marked(marks) == n,
    decreases n,
{
    if n > 0 {
        let rest = marks.drop_last();
        assert(marks[marks.len() - 1]);
        assert forall|i: int| rest.len() - (n - 1) <= i < rest.len() implies #[trigger] rest[i] by {
            assert(rest[i] == marks[i]);
        }
        lemma_trailing_marked_is(rest, (n - 1) as nat);
    }
}

/// Trimming is idempotent: a trimmed text has no white space left at either
/// end.
pub proof fn lemma_trimmed_twice(s: Seq<char>)
    ensures
        trimmed(trimmed(s)) == trimmed(s),
{
    let marks = space_marks(s);
    lemma_leading_marked(marks);
    lemma_trailing_marked(marks);
    let t = trimmed(s);
    let again = space_marks(t);
    if t.len() == 0 {
        assert(leading_marked(again) == 0);
    } else {
        let start = leading_marked(marks) as int;
        let end = s.len() - trailing_marked(marks);
        if end <= start {
            // every mark from `start` on would hold
            assert(marks[start]);
        }
        assert(t[0] == s[start]);
        assert(t.last() == s[end - 1]);
        assert(!marks[start] && !marks[end - 1]);
        assert(!again[0] && !again[again.len() - 1]);
        lemma_leading_marked_is(again, 0);
        lemma_trailing_marked_is(again, 0);
        assert(t.subrange(0, t.len() as int) == t);
    }
}

/// Whether two texts hold the same characters.
pub fn same(a: &str, b: &str) -> (r: bool)
    ensures
        r == (a@ == b@),
{
    let x = a.as_bytes();
    let y = b.as_bytes();
    proof {
        encode_utf8_decode_utf8(a@);
        encode_utf8_decode_utf8(b@);
    }
    if x.len() != y.len() {
        return false;
    }
    let mut i: usize = 0;
    while i < x.len()
        invariant
            i <= x.len(),
            x.len() == y.len(),
            x@ == a.spec_bytes(),
            y@ == b.spec_bytes(),
            forall|j: int| 0 <= j < i ==> x@[j] == y@[j],
        decreases x.len() - i,
    {
        if x[i] != y[i] {
            return false;
        }
        i += 1;
    }
    assert(x@ =~= y@);
    true
}

/// A copy of `s` without the characters that are marked at its start and
/// at its end, where `marks` holds one mark for each character. With any
/// other number of marks the copy is all of `s`.
pub fn strip_marked(s: &str, marks: &Vec<bool>) -> (r: String)
    ensures
        r@ == without_marked_ends(s@, marks@),
{
    let n = s.unicode_len();
    if marks.len() != n {
        return s.to_string();
    }
    let mut start: usize = 0;
    while start < n && marks[start]
        invariant
            n == marks@.len(),
            start <= n,
            forall|i: int| 0 <= i < start ==> #[trigger] marks@[i],
        decreases n - start,
    {
        start += 1;
    }
    proof {
        lemma_leading_marked_is(marks@, start as nat);
    }
    if start == n {
        return String::new();
    }
    let mut end: usize = n;
    while end > 0 && marks[end - 1]
        invariant
            n == marks@.len(),
            end <= n,
            forall|i: int| end <= i < n ==> #[trigger] marks@[i],
        decreases end,
    {
        end -= 1;
    }
    proof {
        lemma_trailing_marked_is(marks@, (n - end) as nat);
        if end <= start {
            assert(marks@[start as int]);
        }
    }
    s.substring_char(start, end).to_string()
}

/// A copy of `s` without its leading and trailing white space.
pub fn trim(s: &str) -> (r: String)
    ensures
        r@ == trimmed(s@),
{
    let n = s.unicode_len();
    let mut marks: Vec<bool> = Vec::new();
    let mut i: usize = 0;
    while i < n
        invariant
            n == s@.len(),
            i <= n,
            marks@.len() == i,
            forall|j: int| 0 <= j < i ==> marks@[j] == white_space(#[trigger] s@[j]),
        decreases n - i,
    {
        marks.push(is_whitespace(s.get_char(i)));
        i += 1;
    }
    assert(marks@ =~= space_marks(s@));
    strip_marked(s, &marks)
}

/// An optional text as its characters.
pub open spec fn text_of(text: Option<String>) -> Option<Seq<char>> {
    match text {
        Some(t) => Some(t@),
        None => None,
    }
}

/// The characters of an optional text; none for a missing one.
pub open spec fn or_empty(text: Option<Seq<char>>) -> Seq<char> {
    match text {
        Some(t) => t,
        None => Seq::empty(),
    }
}

/// The text of an optional text; an empty one for a missing one.
pub fn unwrap_or_empty(text: Option<String>) -> (r: String)
    ensures
        r@ == or_empty(text_of(text)),
{
    match text {
        Some(t) => t,
        None => String::new(),
    }
}

/// The characters of each text of a list.
pub open spec fn texts(parts: Seq<String>) -> Seq<Seq<char>> {
    parts.map_values(|s: String| s@)
}

/// A list of the one name if the condition holds, and of nothing if not.
pub open spec fn listed_if(condition: bool, name: Seq<char>) -> Seq<Seq<char>> {
    if condition {
        seq![name]
    } else {
        Seq::empty()
    }
}

/// Adds the name to the end of the list if the condition holds.
pub fn list_if(list: &mut Vec<String>, condition: bool, name: &str)
    ensures
        texts(final(list)@) == texts(old(list)@) + listed_if(condition, name@),
{
    if condition {
        list.push(name.to_string());
    }
    assert(texts(list@) =~= texts(old(list)@) + listed_if(condition, name@));
}

/// The texts of `parts` in order, with `sep` between each two.
pub open spec fn joined(parts: Seq<Seq<char>>, sep: Seq<char>) -> Seq<char>
    decreases parts.len(),
{
    if parts.len() == 0 {
        Seq::empty()
    } else if parts.len() == 1 {
        parts[0]
    } else {
        joined(parts.drop_last(), sep) + sep + parts.last()
    }
}

/// The texts of `parts` in order, with `sep` between each two.
pub fn join(parts: &Vec<String>, sep: &str) -> (r: String)
    ensures
        r@ == joined(texts(parts@), sep@),
{
    let mut r = String::new();
    let mut i: usize = 0;
    while i < parts.len()
        invariant
            i <= parts.len(),
            r@ == joined(texts(parts@).subrange(0, i as int), sep@),
        decreases parts.len() - i,
    {
        if i > 0 {
            r.append(sep);
        }
        r.append(parts[i].as_str());
        proof {
            let before = texts(parts@).subrange(0, i as int);
            let after = texts(parts@).subrange(0, i + 1);
            assert(after.drop_last() =~= before);
            assert(after.last() == parts@[i as int]@);
            assert(r@ =~= joined(after, sep@));
        }
        i += 1;
    }
    assert(texts(parts@).subrange(0, parts.len() as int) =~= texts(parts@));
    r
}

/// The character of a decimal digit.
pub open spec fn digit_char(d: nat) -> char {
    if d == 0 {
        '0'
    } else if d == 1 {
        '1'
    } else if d == 2 {
        '2'
    } else if d == 3 {
        '3'
    } else if d == 4 {
        '4'
    } else if d == 5 {
        '5'
    } else if d == 6 {
        '6'
    } else if d == 7 {
        '7'
    } else if d == 8 {
        '8'
    } else {
        '9'
    }
}

/// The decimal digits of `n`, most significant first, without leading zeros.
pub open spec fn digits(n: nat) -> Seq<char>
    decreases n,
{
    if n < 10 {
        seq![digit_char(n)]
    } else {
        digits(n / 10).push(digit_char(n % 10))
    }
}

/// `count` zeros.
pub open spec fn zeros(count: nat) -> Seq<char> {
    Seq::new(count, |i: int| '0')
}

/// The decimal digits of `n`, with zeros in front up to `width` digits.
pub open spec fn zero_padded(n: nat, width: nat) -> Seq<char> {
    let d = digits(n);
    if d.len() >= width {
        d
    } else {
        zeros((width - d.len()) as nat) + d
    }
}

/// Padding gives the wider of the number's own digits and `width`.
pub proof fn lemma_zero_padded_len(n: nat, width: nat)
    ensures
        zero_padded(n, width).len() == if digits(n).len() >= width {
            digits(n).len()
        } else {
            width
        },
{
}

/// A number has at least one digit, and a `u64` at most twenty.
pub proof fn lemma_digits_len(n: nat)
    ensures
        digits(n).len() >= 1,
        n <= u64::MAX ==> digits(n).len() <= 20,
{
    reveal_with_fuel(digits, 21);
}

fn digit_text(d: u64) -> (r: &'static str)
    requires
        d < 10,
    ensures
        r@ == seq![digit_char(d as nat)],
{
    proof {
        reveal_strlit("0");
        reveal_strlit("1");
        reveal_strlit("2");
        reveal_strlit("3");
        reveal_strlit("4");
        reveal_strlit("5");
        reveal_strlit("6");
        reveal_strlit("7");
        reveal_strlit("8");
        reveal_strlit("9");
    }
    let r = if d == 0 {
        "0"
    } else if d == 1 {
        "1"
    } else if d == 2 {
        "2"
    } else if d == 3 {
        "3"
    } else if d == 4 {
        "4"
    } else if d == 5 {
        "5"
    } else if d == 6 {
        "6"
    } else if d == 7 {
        "7"
    } else if d == 8 {
        "8"
    } else {
        "9"
    };
    assert(r@ =~= seq![digit_char(d as nat)]);
    r
}

/// The decimal digits of `n` as text.
pub fn render_number(n: u64) -> (r: String)
    ensures
        r@ == digits(n as nat),
    decreases n,
{
    if n < 10 {
        digit_text(n).to_string()
    } else {
        let mut r = render_number(n / 10);
        r.append(digit_text(n % 10));
        assert(r@ =~= digits(n as nat));
        r
    }
}

/// The decimal digits of `n` as text, with zeros in front up to `width`
/// digits.
pub fn render_padded(n: u64, width: usize) -> (r: String)
    ensures
        r@ == zero_padded(n as nat, width as nat),
{
    let d = render_number(n);
    let len = d.as_str().unicode_len();
    let mut r = String::new();
    let mut i: usize = len;
    while i < width
        invariant
            len <= i,
            i <= width || i == len,
            r@ == zeros((i - len) as nat),
        decreases width - i,
    {
        proof {
            reveal_strlit("0");
        }
        r.append("0");
        assert(r@ =~= zeros((i + 1 - len) as nat));
        i += 1;
    }
    r.append(d.as_str());
    assert(r@ =~= zero_padded(n as nat, width as nat));
    r
}

} // verus!
