//! Text as sequences of characters: joining, white space and decimal numerals.

use vstd::prelude::*;

verus! {

/// The parts one after another, with `separator` between neighbours.
pub open spec fn joined(parts: Seq<Seq<char>>, separator: Seq<char>) -> Seq<char>
    decreases parts.len(),
{
    if parts.len() == 0 {
        Seq::empty()
    } else if parts.len() == 1 {
        parts[0]
    } else {
        joined(parts.drop_last(), separator) + separator + parts.last()
    }
}

/// Whether `c` has the Unicode property White_Space.
pub open spec fn is_white_space(c: char) -> bool {
    ||| '\u{9}' <= c <= '\u{d}'
    ||| c == ' '
    ||| c == '\u{85}'
    ||| c == '\u{a0}'
    ||| c == '\u{1680}'
    ||| '\u{2000}' <= c <= '\u{200a}'
    ||| c == '\u{2028}'
    ||| c == '\u{2029}'
    ||| c == '\u{202f}'
    ||| c == '\u{205f}'
    ||| c == '\u{3000}'
}

/// Whether `text` holds white space only.
pub open spec fn is_blank(text: Seq<char>) -> bool {
    forall|i: int| 0 <= i < text.len() ==> is_white_space(#[trigger] text[i])
}

/// Whether `text` is in ASCII.
pub open spec fn is_ascii(text: Seq<char>) -> bool {
    forall|i: int| 0 <= i < text.len() ==> #[trigger] text[i] <= '\u{7f}'
}

/// The decimal digit of a number below ten.
pub open spec fn digit(n: nat) -> char {
    if n == 0 {
        '0'
    } else if n == 1 {
        '1'
    } else if n == 2 {
        '2'
    } else if n == 3 {
        '3'
    } else if n == 4 {
        '4'
    } else if n == 5 {
        '5'
    } else if n == 6 {
        '6'
    } else if n == 7 {
        '7'
    } else if n == 8 {
        '8'
    } else {
        '9'
    }
}

/// The decimal numeral of `n`, without leading zeros.
pub open spec fn decimal(n: nat) -> Seq<char>
    decreases n,
{
    if n < 10 {
        seq![digit(n)]
    } else {
        decimal(n / 10).push(digit(n % 10))
    }
}

/// The decimal numeral of `n`, with leading zeros up to `width` digits.
pub open spec fn padded(n: nat, width: nat) -> Seq<char> {
    let digits = decimal(n);
    if digits.len() < width {
        Seq::new((width - digits.len()) as nat, |i: int| '0') + digits
    } else {
        digits
    }
}

/// The views of a list of strings.
pub open spec fn views(list: Seq<String>) -> Seq<Seq<char>> {
    list.map_values(|s: String| s@)
}

/// The characters of `s`.
pub(crate) fn chars_of(s: &str) -> (chars: Vec<char>)
    ensures
        chars@ == s@,
{
    let mut chars: Vec<char> = Vec::new();
    for c in it: s.chars()
        invariant
            chars@ == s@.take(it.index() as int),
            it.seq() == s@,
    {
        chars.push(c);
    }
    chars
}

/// Tells whether `c` is white space.
fn white_space(c: char) -> (b: bool)
    ensures
        b == is_white_space(c),
{
    ('\u{9}' <= c && c <= '\u{d}') || c == ' ' || c == '\u{85}' || c == '\u{a0}' || c == '\u{1680}'
        || ('\u{2000}' <= c && c <= '\u{200a}') || c == '\u{2028}' || c == '\u{2029}' || c
        == '\u{202f}' || c == '\u{205f}' || c == '\u{3000}'
}

/// Tells whether `s` holds white space only.
pub fn blank(s: &str) -> (b: bool)
    ensures
        b == is_blank(s@),
{
    let chars = chars_of(s);
    for i in 0..chars.len()
        invariant
            chars@ == s@,
            is_blank(s@.take(i as int)),
    {
        if !white_space(chars[i]) {
            assert(!is_white_space(s@[i as int]));
            return false;
        }
        assert(s@.take(i + 1) == s@.take(i as int).push(s@[i as int]));
    }
    assert(s@.take(s@.len() as int) == s@);
    true
}

/// Tells whether `s` is in ASCII.
pub fn ascii(s: &str) -> (b: bool)
    ensures
        b == is_ascii(s@),
{
    for c in it: s.chars()
        invariant
            it.seq() == s@,
            forall|i: int| 0 <= i < it.index() ==> #[trigger] s@[i] <= '\u{7f}',
    {
        if c > '\u{7f}' {
            assert(!(s@[it.index() as int] <= '\u{7f}'));
            return false;
        }
    }
    true
}

/// Tells whether `part` stands in `chars` at the position `at`.
pub(crate) fn stands_at(part: &Vec<char>, chars: &Vec<char>, at: usize) -> (b: bool)
    requires
        at <= chars@.len(),
    ensures
        b == part@.is_prefix_of(chars@.skip(at as int)),
{
    if chars.len() - at < part.len() {
        return false;
    }
    for i in 0..part.len()
        invariant
            at + part.len() <= chars.len(),
            forall|j: int| 0 <= j < i ==> part@[j] == chars@[at + j],
    {
        if part[i] != chars[at + i] {
            assert(chars@.skip(at as int)[i as int] != part@[i as int]);
            return false;
        }
    }
    assert(part@ == chars@.skip(at as int).subrange(0, part@.len() as int));
    true
}

/// Appends the decimal digit of `n`.
fn push_digit(out: &mut String, n: u8)
    requires
        n < 10,
    ensures
        final(out)@ == old(out)@.push(digit(n as nat)),
{
    proof {
        reveal_strlit("0");
        reveal_strlit("1");
        reveal_strlit("2");
        reveal_strlit("3");
        reveal_strlit("4");
        reveal_strlit("5");
        reveal_strlit("6");
        reveal_strlit("7");
        reveal_strlit("8");
        reveal_strlit("9");
    }
    let text: &str = match n {
        0 => "0",
        1 => "1",
        2 => "2",
        3 => "3",
        4 => "4",
        5 => "5",
        6 => "6",
        7 => "7",
        8 => "8",
        _ => "9",
    };
    assert(text@ == seq![digit(n as nat)]);
    out.append(text);
}

/// Appends the decimal numeral of `n`.
pub(crate) fn push_decimal(out: &mut String, n: u128)
    ensures
        final(out)@ == old(out)@ + decimal(n as nat),
    decreases n,
{
    if n >= 10 {
        push_decimal(out, n / 10);
    }
    push_digit(out, (n % 10) as u8);
}

/// Appends the decimal numeral of `n`, with leading zeros up to `width` digits.
pub(crate) fn push_padded(out: &mut String, n: u128, width: usize)
    ensures
        final(out)@ == old(out)@ + padded(n as nat, width as nat),
{
    let mut digits = String::new();
    push_decimal(&mut digits, n);
    let len: usize = digits.as_str().unicode_len();
    let ghost before = out@;
    let mut filled: usize = len;
    while filled < width
        invariant
            len == decimal(n as nat).len(),
            len <= filled,
            len < width ==> filled <= width,
            len >= width ==> filled == len,
            out@ == before + Seq::new((filled - len) as nat, |i: int| '0'),
        decreases width - filled,
    {
        push_digit(out, 0);
        filled += 1;
    }
    out.append(digits.as_str());
}

/// The strings one after another, with `separator` between neighbours.
pub(crate) fn join(parts: &Vec<String>, separator: &str) -> (text: String)
    ensures
        text@ == joined(views(parts@), separator@),
{
    let mut text = String::new();
    for i in 0..parts.len()
        invariant
            text@ == joined(views(parts@).take(i as int), separator@),
    {
        if i > 0 {
            text.append(separator);
        }
        text.append(parts[i].as_str());
        assert(views(parts@).take(i + 1).drop_last() == views(parts@).take(i as int));
    }
    assert(views(parts@).take(parts@.len() as int) == views(parts@));
    text
}

/// A joined list of two parts is the two joined lists with the separator between them; a list
/// of one part is that part, and a list of none is empty.
pub proof fn law_joined_of_two_lists(
    a: Seq<Seq<char>>,
    b: Seq<Seq<char>>,
    part: Seq<char>,
    separator: Seq<char>,
)
    requires
        a.len() > 0,
        b.len() > 0,
    ensures
        joined(a + b, separator) == joined(a, separator) + separator + joined(b, separator),
        joined(seq![part], separator) == part,
        joined(Seq::empty(), separator) == Seq::<char>::empty(),
    decreases b.len(),
{
    let whole = a + b;
    if b.len() == 1 {
        assert(whole.drop_last() == a);
        assert(whole.last() == b[0]);
    } else {
        law_joined_of_two_lists(a, b.drop_last(), part, separator);
        assert(whole.drop_last() == a + b.drop_last());
        assert(whole.last() == b.last());
        assert(joined(whole, separator) == joined(a, separator) + separator + joined(
            b.drop_last(),
            separator,
        ) + separator + b.last());
        assert(joined(b, separator) == joined(b.drop_last(), separator) + separator + b.last());
    }
}

/// The number of characters of all parts together.
pub open spec fn total_len(parts: Seq<Seq<char>>) -> nat
    decreases parts.len(),
{
    if parts.len() == 0 {
        0
    } else {
        parts[0].len() + total_len(parts.drop_first())
    }
}

/// A joined list is as long as its parts together and one separator for each gap, and every
/// part stands in it, behind the parts before it.
pub proof fn law_joined_holds_every_part(parts: Seq<Seq<char>>, separator: Seq<char>, i: int)
    requires
        0 <= i < parts.len(),
    ensures
        joined(parts, separator).len() == total_len(parts) + (parts.len() - 1) * separator.len(),
        ({
            let start = total_len(parts.take(i)) + i * separator.len();
            joined(parts, separator).subrange(start, start + parts[i].len()) == parts[i]
        }),
{
    lemma_joined_len(parts, separator);
    lemma_part_stands(parts, separator, i);
}

proof fn lemma_total_of_two_lists(a: Seq<Seq<char>>, b: Seq<Seq<char>>)
    ensures
        total_len(a + b) == total_len(a) + total_len(b),
    decreases a.len(),
{
    if a.len() == 0 {
        assert(a + b == b);
    } else {
        assert((a + b).drop_first() == a.drop_first() + b);
        assert((a + b)[0] == a[0]);
        lemma_total_of_two_lists(a.drop_first(), b);
    }
}

proof fn lemma_total_of_one(part: Seq<char>)
    ensures
        total_len(seq![part]) == part.len(),
{
    assert(total_len(seq![part].drop_first()) == 0);
}

proof fn lemma_joined_len(parts: Seq<Seq<char>>, separator: Seq<char>)
    requires
        parts.len() > 0,
    ensures
        joined(parts, separator).len() == total_len(parts) + (parts.len() - 1) * separator.len(),
    decreases parts.len(),
{
    if parts.len() == 1 {
        assert(parts == seq![parts[0]]);
        lemma_total_of_one(parts[0]);
        assert(0 * separator.len() == 0) by (nonlinear_arith);
    } else {
        let front = parts.drop_last();
        lemma_joined_len(front, separator);
        assert(parts == front + seq![parts.last()]);
        lemma_total_of_two_lists(front, seq![parts.last()]);
        lemma_total_of_one(parts.last());
        let n = parts.len() as int;
        let k = separator.len() as int;
        assert((n - 2) * k + k == (n - 1) * k) by (nonlinear_arith);
    }
}

proof fn lemma_part_stands(parts: Seq<Seq<char>>, separator: Seq<char>, i: int)
    requires
        0 <= i < parts.len(),
    ensures
        ({
            let start = total_len(parts.take(i)) + i * separator.len();
            &&& 0 <= start
            &&& start + parts[i].len() <= joined(parts, separator).len()
            &&& joined(parts, separator).subrange(start, start + parts[i].len()) == parts[i]
        }),
    decreases parts.len(),
{
    let text = joined(parts, separator);
    let k = separator.len() as int;
    let start = total_len(parts.take(i)) + i * k;
    assert(0 <= i * k) by (nonlinear_arith)
        requires
            0 <= i,
            0 <= k,
    ;
    if parts.len() == 1 {
        assert(parts.take(0) == Seq::<Seq<char>>::empty());
        assert(0 * k == 0) by (nonlinear_arith);
        assert(text.subrange(0, text.len() as int) == text);
    } else if i == parts.len() - 1 {
        let front = parts.drop_last();
        lemma_joined_len(front, separator);
        assert(parts.take(i) == front);
        assert((i - 1) * k + k == i * k) by (nonlinear_arith);
        assert(text.subrange(start, start + parts[i].len()) == parts[i]);
    } else {
        let front = parts.drop_last();
        lemma_part_stands(front, separator, i);
        assert(parts.take(i) == front.take(i));
        assert(text.subrange(start, start + parts[i].len()) == joined(front, separator).subrange(
            start,
            start + parts[i].len(),
        ));
    }
}

/// White space is what stands at these code points, the ones with the Unicode property.
pub proof fn law_white_space_by_code_point(c: char)
    ensures
        is_white_space(c) <==> ({
            let code = c as int;
            9 <= code <= 13 || code == 32 || code == 133 || code == 160 || code == 5760 || 8192
                <= code <= 8202 || code == 8232 || code == 8233 || code == 8239 || code == 8287
                || code == 12288
        }),
{
}

/// A text is blank exactly if both parts of it are, wherever it is cut; the empty text is.
pub proof fn law_blank_in_all_parts(a: Seq<char>, b: Seq<char>, c: char)
    ensures
        is_blank(a + b) <==> is_blank(a) && is_blank(b),
        is_blank(seq![c]) <==> is_white_space(c),
        is_blank(Seq::empty()),
{
    if is_blank(a + b) {
        assert forall|i: int| 0 <= i < a.len() implies is_white_space(#[trigger] a[i]) by {
            assert(a[i] == (a + b)[i]);
        }
        assert forall|i: int| 0 <= i < b.len() implies is_white_space(#[trigger] b[i]) by {
            assert(b[i] == (a + b)[a.len() + i]);
        }
    }
    if is_white_space(c) {
        assert(is_blank(seq![c]));
    } else {
        assert(seq![c][0] == c);
    }
}

/// A text is in ASCII exactly if both parts of it are, wherever it is cut; a character is if
/// its code point is below 128.
pub proof fn law_ascii_in_all_parts(a: Seq<char>, b: Seq<char>, c: char)
    ensures
        is_ascii(a + b) <==> is_ascii(a) && is_ascii(b),
        is_ascii(seq![c]) <==> (c as int) < 128,
        is_ascii(Seq::empty()),
{
    if is_ascii(a + b) {
        assert forall|i: int| 0 <= i < a.len() implies #[trigger] a[i] <= '\u{7f}' by {
            assert(a[i] == (a + b)[i]);
        }
        assert forall|i: int| 0 <= i < b.len() implies #[trigger] b[i] <= '\u{7f}' by {
            assert(b[i] == (a + b)[a.len() + i]);
        }
    }
    assert(seq![c][0] == c);
}

/// A numeral has one digit for a number below ten; writing one more digit behind a numeral
/// multiplies its number by ten and adds the digit. Digits are the characters from `0` on.
pub proof fn law_decimal_digit_by_digit(n: nat, d: nat)
    requires
        d < 10,
    ensures
        decimal(d).len() == 1,
        decimal(d)[0] as int == '0' as int + d,
        n > 0 ==> {
            let text = decimal(10 * n + d);
            &&& text.len() == decimal(n).len() + 1
            &&& text.drop_last() == decimal(n)
            &&& text.last() as int == '0' as int + d
        },
{
    assert(digit(d) as int == '0' as int + d);
    if n > 0 {
        let m = 10 * n + d;
        assert(m / 10 == n && m % 10 == d);
        assert(decimal(m).drop_last() == decimal(n));
    }
}

/// A padded numeral is at least `width` long, ends in the numeral, and holds only zeros
/// before it, none if the numeral is long enough.
pub proof fn law_padded_with_zeros(n: nat, width: nat)
    ensures
        ({
            let digits = decimal(n);
            let text = padded(n, width);
            &&& text.len() == if digits.len() < width {
                width
            } else {
                digits.len()
            }
            &&& text.skip(text.len() - digits.len()) == digits
            &&& forall|i: int| 0 <= i < text.len() - digits.len() ==> #[trigger] text[i] == '0'
        }),
{
    let digits = decimal(n);
    let text = padded(n, width);
    assert(text.skip(text.len() - digits.len()) == digits);
}

/// The views of a list are the views of its strings, one for one, in order.
pub proof fn law_views_one_for_one(list: Seq<String>, i: int)
    requires
        0 <= i < list.len(),
    ensures
        views(list).len() == list.len(),
        views(list)[i] == list[i]@,
        views(Seq::empty()) == Seq::<Seq<char>>::empty(),
{
    assert(views(Seq::empty()) =~= Seq::<Seq<char>>::empty());
}

} // verus!
