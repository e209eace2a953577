//! Matcher expressions that Casbin evaluates without a panic.
//!
//! Some of the functions that Casbin gives to matchers panic on arguments that they cannot
//! take: those that make a regular expression of a pattern of the policy, where it is none,
//! and those that cut a text, where the cut falls inside a character. Arithmetic and
//! indexing panic too. A plain matcher does none of this: it compares, combines and groups
//! values, looks them up in lists, and calls functions that do not panic on what they get.

use vstd::prelude::*;

use crate::text::{ascii, chars_of, is_ascii, law_ascii_in_all_parts, views};

verus! {

/// What the names of a matcher stand for.
pub struct Names {
    /// The names of the entries of the request.
    pub request: Vec<String>,
    /// The names of the entries of a policy line. They hide those of the request.
    pub policy: Vec<String>,
    /// Whether all entries of the request are in ASCII.
    pub ascii_request: bool,
    /// Whether all entries of the policy lines are in ASCII.
    pub ascii_policy: bool,
}

/// The view of [`Names`].
#[verifier::ext_equal]
pub struct NamesView {
    pub request: Seq<Seq<char>>,
    pub policy: Seq<Seq<char>>,
    pub ascii_request: bool,
    pub ascii_policy: bool,
}

impl View for Names {
    type V = NamesView;

    open spec fn view(&self) -> NamesView {
        NamesView {
            request: views(self.request@),
            policy: views(self.policy@),
            ascii_request: self.ascii_request,
            ascii_policy: self.ascii_policy,
        }
    }
}

/// Whether `c` can stand in a name.
pub open spec fn is_word_char(c: char) -> bool {
    ||| 'a' <= c <= 'z'
    ||| 'A' <= c <= 'Z'
    ||| '0' <= c <= '9'
    ||| c == '_'
}

/// Whether `c` can stand in a plain matcher outside string literals: in a name or a
/// number, as a separator, or in an operator that compares or combines.
pub open spec fn is_plain_char(c: char) -> bool {
    ||| is_word_char(c)
    ||| c == ' '
    ||| c == '('
    ||| c == ')'
    ||| c == '['
    ||| c == ']'
    ||| c == ','
    ||| c == '.'
    ||| c == '='
    ||| c == '!'
    ||| c == '<'
    ||| c == '>'
    ||| c == '&'
    ||| c == '|'
    ||| c == '"'
}

/// Whether the position `i` lies in a string literal: an odd number of quotation marks
/// stands before it.
pub open spec fn is_quoted(text: Seq<char>, i: int) -> bool
    decreases i,
{
    if i <= 0 {
        false
    } else {
        is_quoted(text, i - 1) != (text[i - 1] == '"')
    }
}

/// Where the spaces that end at `i` start.
pub open spec fn gap_start(text: Seq<char>, i: int) -> int
    decreases i,
{
    if i > 0 && text[i - 1] == ' ' {
        gap_start(text, i - 1)
    } else {
        i
    }
}

/// Where the word that ends at `i` starts.
pub open spec fn word_start(text: Seq<char>, i: int) -> int
    decreases i,
{
    if i > 0 && is_word_char(text[i - 1]) {
        word_start(text, i - 1)
    } else {
        i
    }
}

/// Where the spaces that start at `i` end.
pub open spec fn gap_end(text: Seq<char>, i: int) -> int
    decreases text.len() - i,
{
    if i < text.len() && text[i] == ' ' {
        gap_end(text, i + 1)
    } else {
        i
    }
}

/// Where the word that starts at `i` ends.
pub open spec fn word_end(text: Seq<char>, i: int) -> int
    decreases text.len() - i,
{
    if i < text.len() && is_word_char(text[i]) {
        word_end(text, i + 1)
    } else {
        i
    }
}

/// Where the next quotation mark from `i` on stands, or the end of the text.
pub open spec fn quote_at(text: Seq<char>, i: int) -> int
    decreases text.len() - i,
{
    if i < text.len() && text[i] != '"' {
        quote_at(text, i + 1)
    } else {
        i
    }
}

/// The bounds of the word that stands before the position `i`, with or without spaces
/// between; equal if there is none.
pub open spec fn word_bounds(text: Seq<char>, i: int) -> (int, int) {
    let end = gap_start(text, i);
    (word_start(text, end), end)
}

/// The word that stands before the position `i`; empty if there is none.
pub open spec fn word_before(text: Seq<char>, i: int) -> Seq<char> {
    let bounds = word_bounds(text, i);
    text.subrange(bounds.0, bounds.1)
}

/// Whether the word that stands before the position `i` stands behind a dot.
pub open spec fn is_member(text: Seq<char>, i: int) -> bool {
    let start = word_bounds(text, i).0;
    start > 0 && text[start - 1] == '.'
}

/// Whether the value of a name, if it has one, is in ASCII.
pub open spec fn is_ascii_name(name: Seq<char>, names: NamesView) -> bool {
    if names.policy.contains(name) {
        names.ascii_policy
    } else if names.request.contains(name) {
        names.ascii_request
    } else {
        true
    }
}

/// Whether a comma stands at the position `i`, with or without spaces before it.
pub open spec fn is_comma_at(text: Seq<char>, i: int) -> bool {
    let next = gap_end(text, i);
    next < text.len() && text[next] == ','
}

/// Whether the argument list that opens at `i` starts with a string literal or a name whose
/// value is in ASCII.
pub open spec fn starts_with_ascii(text: Seq<char>, i: int, names: NamesView) -> bool {
    let from = gap_end(text, i + 1);
    if from < text.len() && text[from] == '"' {
        let to = quote_at(text, from + 1);
        to < text.len() && is_ascii(text.subrange(from, to)) && is_comma_at(text, to + 1)
    } else {
        let to = word_end(text, from);
        from < to && is_comma_at(text, to) && is_ascii_name(text.subrange(from, to), names)
    }
}

/// Whether no value that a matcher can come by holds anything but ASCII.
pub open spec fn is_all_ascii(text: Seq<char>, names: NamesView) -> bool {
    names.ascii_request && names.ascii_policy && is_ascii(text)
}

/// Whether `name` is the name of a role function: `g`, `g2` and so on.
pub open spec fn is_role_function(name: Seq<char>) -> bool {
    &&& name.len() > 0
    &&& name[0] == 'g'
    &&& forall|i: int| 1 <= i < name.len() ==> '0' <= #[trigger] name[i] <= '9'
}

/// Whether the parenthesis at `i` groups, or opens the arguments of a function that does not
/// panic on them: a role function, `keyGet2`, or `keyMatch` and `keyGet` where the text that
/// they cut, their first argument, is in ASCII.
pub open spec fn is_safe_call(text: Seq<char>, i: int, names: NamesView) -> bool {
    let name = word_before(text, i);
    ||| name.len() == 0
    ||| name == "in"@
    ||| is_role_function(name)
    ||| name == "keyGet2"@
    ||| (name == "keyMatch"@ || name == "keyGet"@) && (is_all_ascii(text, names) || (!is_member(
        text,
        i,
    ) && starts_with_ascii(text, i, names)))
}

/// Whether the character behind the position `i` is `c`.
pub open spec fn is_followed_by(text: Seq<char>, i: int, c: char) -> bool {
    i + 1 < text.len() && text[i + 1] == c
}

/// Whether the `!` at `i` belongs to the operator `!=` or `!in`.
pub open spec fn is_negated_operator(text: Seq<char>, i: int) -> bool {
    ||| is_followed_by(text, i, '=')
    ||| is_followed_by(text, i, 'i') && is_followed_by(text, i + 1, 'n') && !(i + 3 < text.len()
        && is_word_char(text[i + 3]))
}

/// Whether the character at `i` of a matcher keeps the matcher plain. A parenthesis must not
/// open a call that can panic; nor must `!`, which may stand between a function and its
/// arguments. A bracket must open a list to look something up in. `<` and `>` must not shift.
/// A dot must stand before the name of a member.
pub open spec fn is_plain_at(text: Seq<char>, i: int, names: NamesView) -> bool {
    let c = text[i];
    if is_quoted(text, i) {
        c != '\\'
    } else if c == '(' {
        is_safe_call(text, i, names)
    } else if c == '!' {
        is_negated_operator(text, i) || word_before(text, i).len() == 0
    } else if c == '[' {
        word_before(text, i) == "in"@ && !is_member(text, i)
    } else if c == '<' || c == '>' {
        !is_followed_by(text, i, '<') && !is_followed_by(text, i, '>')
    } else if c == '.' {
        i + 1 < text.len() && is_word_char(text[i + 1]) && !('0' <= text[i + 1] <= '9')
    } else {
        is_plain_char(c)
    }
}

/// Whether a matcher is plain, given what its names stand for.
pub open spec fn is_plain_matcher(text: Seq<char>, names: NamesView) -> bool {
    forall|i: int| 0 <= i < text.len() ==> #[trigger] is_plain_at(text, i, names)
}

/// Whether every entry of a request or of a policy line is in ASCII.
pub open spec fn is_ascii_list(list: Seq<Seq<char>>) -> bool {
    forall|i: int| 0 <= i < list.len() ==> is_ascii(#[trigger] list[i])
}

fn word_char(c: char) -> (b: bool)
    ensures
        b == is_word_char(c),
{
    ('a' <= c && c <= 'z') || ('A' <= c && c <= 'Z') || ('0' <= c && c <= '9') || c == '_'
}

fn plain_char(c: char) -> (b: bool)
    ensures
        b == is_plain_char(c),
{
    word_char(c) || c == ' ' || c == '(' || c == ')' || c == '[' || c == ']' || c == ',' || c == '.'
        || c == '=' || c == '!' || c == '<' || c == '>' || c == '&' || c == '|' || c == '"'
}

/// The bounds of the word that stands before the position `i`.
fn bounds_before(chars: &Vec<char>, i: usize) -> (bounds: (usize, usize))
    requires
        i <= chars@.len(),
    ensures
        bounds.0 <= bounds.1 <= i,
        (bounds.0 as int, bounds.1 as int) == word_bounds(chars@, i as int),
{
    let mut end: usize = i;
    while end > 0 && chars[end - 1] == ' '
        invariant
            end <= i <= chars@.len(),
            gap_start(chars@, end as int) == gap_start(chars@, i as int),
        decreases end,
    {
        end -= 1;
    }
    let mut start: usize = end;
    while start > 0 && word_char(chars[start - 1])
        invariant
            start <= end <= i <= chars@.len(),
            word_start(chars@, start as int) == word_start(chars@, end as int),
        decreases start,
    {
        start -= 1;
    }
    (start, end)
}

/// Tells whether a comma stands at the position `i`, with or without spaces before it.
fn comma_at(chars: &Vec<char>, i: usize) -> (b: bool)
    requires
        i <= chars@.len(),
    ensures
        b == is_comma_at(chars@, i as int),
{
    let next: usize = behind_gap(chars, i);
    next < chars.len() && chars[next] == ','
}

/// Where the spaces that start at `i` end.
fn behind_gap(chars: &Vec<char>, i: usize) -> (end: usize)
    requires
        i <= chars@.len(),
    ensures
        i <= end <= chars@.len(),
        end == gap_end(chars@, i as int),
{
    let mut end: usize = i;
    while end < chars.len() && chars[end] == ' '
        invariant
            i <= end <= chars@.len(),
            gap_end(chars@, end as int) == gap_end(chars@, i as int),
        decreases chars@.len() - end,
    {
        end += 1;
    }
    end
}

/// Tells whether a list holds a name.
fn holds(list: &Vec<String>, name: &String) -> (b: bool)
    ensures
        b == views(list@).contains(name@),
{
    for i in 0..list.len()
        invariant
            forall|j: int| 0 <= j < i ==> #[trigger] views(list@)[j] != name@,
    {
        if list[i] == *name {
            assert(views(list@)[i as int] == name@);
            return true;
        }
    }
    false
}

/// Tells whether the value of a name, if it has one, is in ASCII.
fn ascii_name(name: &String, names: &Names) -> (b: bool)
    ensures
        b == is_ascii_name(name@, names@),
{
    if holds(&names.policy, name) {
        names.ascii_policy
    } else if holds(&names.request, name) {
        names.ascii_request
    } else {
        true
    }
}

/// Tells whether the argument list that opens at `i` starts with a string literal or a name
/// whose value is in ASCII.
fn ascii_first(text: &str, chars: &Vec<char>, i: usize, names: &Names) -> (b: bool)
    requires
        chars@ == text@,
        i < chars.len(),
    ensures
        b == starts_with_ascii(text@, i as int, names@),
{
    let from: usize = behind_gap(chars, i + 1);
    if from < chars.len() && chars[from] == '"' {
        let mut to: usize = from + 1;
        while to < chars.len() && chars[to] != '"'
            invariant
                from < to <= chars@.len(),
                quote_at(chars@, to as int) == quote_at(chars@, from + 1),
            decreases chars@.len() - to,
        {
            to += 1;
        }
        to < chars.len() && ascii(text.substring_char(from, to)) && comma_at(chars, to + 1)
    } else {
        let mut to: usize = from;
        while to < chars.len() && word_char(chars[to])
            invariant
                from <= to <= chars@.len(),
                word_end(chars@, to as int) == word_end(chars@, from as int),
            decreases chars@.len() - to,
        {
            to += 1;
        }
        from < to && comma_at(chars, to) && ascii_name(
            &text.substring_char(from, to).to_owned(),
            names,
        )
    }
}

/// Tells whether the word from `from` to `to` names a role function.
fn role_function(chars: &Vec<char>, from: usize, to: usize) -> (b: bool)
    requires
        from <= to <= chars@.len(),
    ensures
        b == is_role_function(chars@.subrange(from as int, to as int)),
{
    let ghost name = chars@.subrange(from as int, to as int);
    if from == to || chars[from] != 'g' {
        return false;
    }
    for i in from + 1..to
        invariant
            from < to <= chars@.len(),
            name == chars@.subrange(from as int, to as int),
            forall|j: int| 1 <= j < i - from ==> '0' <= #[trigger] name[j] <= '9',
    {
        assert(name[i - from] == chars@[i as int]);
        if chars[i] < '0' || chars[i] > '9' {
            return false;
        }
    }
    true
}

/// Tells whether the parenthesis at `i` groups or opens a call that does not panic.
fn safe_call(text: &str, chars: &Vec<char>, i: usize, names: &Names) -> (b: bool)
    requires
        chars@ == text@,
        i < chars.len(),
    ensures
        b == is_safe_call(text@, i as int, names@),
{
    let (from, to) = bounds_before(chars, i);
    if from == to || role_function(chars, from, to) {
        return true;
    }
    let name: String = text.substring_char(from, to).to_owned();
    if name == "in".to_owned() || name == "keyGet2".to_owned() {
        return true;
    }
    if name != "keyMatch".to_owned() && name != "keyGet".to_owned() {
        return false;
    }
    let behind_dot: bool = from > 0 && chars[from - 1] == '.';
    (names.ascii_request && names.ascii_policy && ascii(text)) || (!behind_dot && ascii_first(
        text,
        chars,
        i,
        names,
    ))
}

/// Tells whether the `!` at `i` belongs to the operator `!=` or `!in`.
fn negated_operator(chars: &Vec<char>, i: usize) -> (b: bool)
    requires
        i < chars.len(),
    ensures
        b == is_negated_operator(chars@, i as int),
{
    let left: usize = chars.len() - i;
    left > 1 && (chars[i + 1] == '=' || (left > 2 && chars[i + 1] == 'i' && chars[i + 2] == 'n'
        && !(left > 3 && word_char(chars[i + 3]))))
}

/// Tells whether the bracket at `i` opens a list to look something up in.
fn list_bracket(text: &str, chars: &Vec<char>, i: usize) -> (b: bool)
    requires
        chars@ == text@,
        i < chars.len(),
    ensures
        b == (word_before(text@, i as int) == "in"@ && !is_member(text@, i as int)),
{
    let (from, to) = bounds_before(chars, i);
    text.substring_char(from, to).to_owned() == "in".to_owned() && !(from > 0 && chars[from - 1]
        == '.')
}

/// Tells whether a matcher is plain, given what its names stand for.
pub fn plain_matcher(text: &str, names: &Names) -> (b: bool)
    ensures
        b == is_plain_matcher(text@, names@),
{
    let chars = chars_of(text);
    let mut quoted: bool = false;
    for i in 0..chars.len()
        invariant
            chars@ == text@,
            quoted == is_quoted(text@, i as int),
            forall|j: int| 0 <= j < i ==> #[trigger] is_plain_at(text@, j, names@),
    {
        let c: char = chars[i];
        let next: Option<char> = if i + 1 < chars.len() {
            Some(chars[i + 1])
        } else {
            None
        };
        let plain: bool = if quoted {
            c != '\\'
        } else if c == '(' {
            safe_call(text, &chars, i, names)
        } else if c == '!' {
            let (from, to) = bounds_before(&chars, i);
            from == to || negated_operator(&chars, i)
        } else if c == '[' {
            list_bracket(text, &chars, i)
        } else if c == '<' || c == '>' {
            next != Some('<') && next != Some('>')
        } else if c == '.' {
            match next {
                Some(next) => word_char(next) && (next < '0' || next > '9'),
                None => false,
            }
        } else {
            plain_char(c)
        };
        assert(plain == is_plain_at(text@, i as int, names@));
        if !plain {
            return false;
        }
        if c == '"' {
            quoted = !quoted;
        }
    }
    true
}

/// Tells whether every entry of a request is in ASCII.
pub fn ascii_list(list: &Vec<String>) -> (b: bool)
    ensures
        b == is_ascii_list(views(list@)),
{
    for i in 0..list.len()
        invariant
            forall|j: int| 0 <= j < i ==> is_ascii(#[trigger] views(list@)[j]),
    {
        if !ascii(list[i].as_str()) {
            assert(!is_ascii(views(list@)[i as int]));
            return false;
        }
    }
    true
}

/// The view of names shows what they stand for.
pub proof fn law_names_show_their_fields(names: Names)
    ensures
        names@.request == views(names.request@),
        names@.policy == views(names.policy@),
        names@.ascii_request == names.ascii_request,
        names@.ascii_policy == names.ascii_policy,
{
}

/// Words are made of the letters and digits of ASCII and the underscore.
pub proof fn law_word_characters(c: char)
    ensures
        is_word_char(c) <==> ({
            let code = c as int;
            48 <= code <= 57 || 65 <= code <= 90 || code == 95 || 97 <= code <= 122
        }),
{
}

/// A text starts outside string literals, and every quotation mark leads into one or out of
/// one.
pub proof fn law_quotation_marks_open_and_close(text: Seq<char>, i: int)
    requires
        0 <= i < text.len(),
    ensures
        !is_quoted(text, 0),
        text[i] == '"' ==> is_quoted(text, i + 1) != is_quoted(text, i),
        text[i] != '"' ==> is_quoted(text, i + 1) == is_quoted(text, i),
{
}

/// A matcher is plain exactly if none of its characters spoils it.
pub proof fn law_plain_in_every_character(text: Seq<char>, names: NamesView)
    ensures
        is_plain_matcher(text, names) <==> !(exists|i: int|
            0 <= i < text.len() && !#[trigger] is_plain_at(text, i, names)),
{
}

/// In a string literal nothing but a backslash spoils a matcher.
pub proof fn law_plain_in_literals(text: Seq<char>, i: int, names: NamesView)
    requires
        0 <= i < text.len(),
        is_quoted(text, i),
    ensures
        is_plain_at(text, i, names) <==> text[i] != '\\',
{
}

/// Outside string literals a matcher may hold words, spaces, commas, quotation marks, the
/// operators `=`, `&` and `|`, and what closes a bracket; `<` and `>` that do not stand
/// together; and a dot before a letter or an underscore. Of what calls, indexes or negates
/// other laws speak; nothing else may stand there.
pub proof fn law_plain_outside_literals(text: Seq<char>, i: int, names: NamesView)
    requires
        0 <= i < text.len(),
        !is_quoted(text, i),
        text[i] != '(',
        text[i] != '[',
        text[i] != '!',
    ensures
        ({
            let c = text[i];
            let plain = is_plain_at(text, i, names);
            let last = i + 1 == text.len();
            &&& c == '<' || c == '>' ==> (plain <==> last || (text[i + 1] != '<' && text[i + 1]
                != '>'))
            &&& c == '.' ==> (plain <==> !last && (text[i + 1] == '_' || (is_word_char(text[i + 1])
                && !(48 <= text[i + 1] as int && text[i + 1] as int <= 57))))
            &&& is_word_char(c) || c == ' ' || c == ',' || c == '"' || c == '=' || c == '&' || c
                == '|' || c == ')' || c == ']' ==> plain
            &&& plain ==> is_word_char(c) || c == ' ' || c == ',' || c == '"' || c == '=' || c
                == '&' || c == '|' || c == ')' || c == ']' || c == '<' || c == '>' || c == '.'
        }),
{
}

proof fn lemma_gap_start(text: Seq<char>, from: int, to: int)
    requires
        0 <= from <= to <= text.len(),
        forall|i: int| from <= i < to ==> #[trigger] text[i] == ' ',
        from > 0 ==> text[from - 1] != ' ',
    ensures
        gap_start(text, to) == from,
    decreases to,
{
    if from < to {
        lemma_gap_start(text, from, to - 1);
    }
}

proof fn lemma_word_start(text: Seq<char>, from: int, to: int)
    requires
        0 <= from <= to <= text.len(),
        forall|i: int| from <= i < to ==> is_word_char(#[trigger] text[i]),
        from > 0 ==> !is_word_char(text[from - 1]),
    ensures
        word_start(text, to) == from,
    decreases to,
{
    if from < to {
        lemma_word_start(text, from, to - 1);
    }
}

proof fn lemma_gap_end(text: Seq<char>, from: int, to: int)
    requires
        0 <= from <= to <= text.len(),
        forall|i: int| from <= i < to ==> #[trigger] text[i] == ' ',
        to < text.len() ==> text[to] != ' ',
    ensures
        gap_end(text, from) == to,
    decreases to - from,
{
    if from < to {
        lemma_gap_end(text, from + 1, to);
    }
}

proof fn lemma_word_end(text: Seq<char>, from: int, to: int)
    requires
        0 <= from <= to <= text.len(),
        forall|i: int| from <= i < to ==> is_word_char(#[trigger] text[i]),
        to < text.len() ==> !is_word_char(text[to]),
    ensures
        word_end(text, from) == to,
    decreases to - from,
{
    if from < to {
        lemma_word_end(text, from + 1, to);
    }
}

proof fn lemma_quote_at(text: Seq<char>, from: int, to: int)
    requires
        0 <= from <= to < text.len(),
        forall|i: int| from <= i < to ==> #[trigger] text[i] != '"',
        text[to] == '"',
    ensures
        quote_at(text, from) == to,
    decreases to - from,
{
    if from < to {
        lemma_quote_at(text, from + 1, to);
    }
}

/// Whether a text ends in `word` and `gap`: a whole word, or none, and the spaces behind it.
pub open spec fn is_word_and_gap(before: Seq<char>, word: Seq<char>, gap: Seq<char>) -> bool {
    &&& forall|i: int| 0 <= i < word.len() ==> is_word_char(#[trigger] word[i])
    &&& forall|i: int| 0 <= i < gap.len() ==> #[trigger] gap[i] == ' '
    &&& before.len() > 0 ==> !is_word_char(before.last())
    &&& before.len() > 0 && word.len() == 0 ==> before.last() != ' '
}

/// The word before a position is the whole word that stands there, whatever spaces stand
/// between, and it is a member if a dot stands before it.
pub proof fn law_word_before(
    before: Seq<char>,
    word: Seq<char>,
    gap: Seq<char>,
    rest: Seq<char>,
)
    requires
        is_word_and_gap(before, word, gap),
    ensures
        ({
            let text = before + word + gap + rest;
            let i = (before.len() + word.len() + gap.len()) as int;
            &&& word_before(text, i) == word
            &&& is_member(text, i) <==> before.len() > 0 && before.last() == '.'
        }),
{
    let text = before + word + gap + rest;
    let start = before.len() as int;
    let end = start + word.len();
    let i = end + gap.len();
    assert forall|k: int| end <= k < i implies #[trigger] text[k] == ' ' by {
        assert(text[k] == gap[k - end]);
    }
    assert forall|k: int| start <= k < end implies is_word_char(#[trigger] text[k]) by {
        assert(text[k] == word[k - start]);
    }
    if start > 0 {
        assert(text[start - 1] == before.last());
    }
    if end > start {
        assert(text[end - 1] == word.last());
        assert(is_word_char(word[word.len() - 1]));
    }
    lemma_gap_start(text, end, i);
    lemma_word_start(text, start, end);
    assert(text.subrange(start, end) =~= word);
}

/// A parenthesis spoils a matcher exactly if it opens the arguments of a function that may
/// panic. It does not where no word stands before it, or the word `in`; nor behind a role
/// function or `keyGet2`; and behind `keyMatch` and `keyGet` it does not where every value
/// is in ASCII, or where the function is no member and its first argument is in ASCII.
pub proof fn law_plain_calls(
    before: Seq<char>,
    word: Seq<char>,
    gap: Seq<char>,
    rest: Seq<char>,
    names: NamesView,
)
    requires
        is_word_and_gap(before, word, gap),
        !is_quoted(
            before + word + gap + (seq!['('] + rest),
            (before.len() + word.len() + gap.len()) as int,
        ),
    ensures
        ({
            let text = before + word + gap + (seq!['('] + rest);
            let i = (before.len() + word.len() + gap.len()) as int;
            let cuts = word == "keyMatch"@ || word == "keyGet"@;
            let member = before.len() > 0 && before.last() == '.';
            is_plain_at(text, i, names) <==> {
                ||| word == Seq::<char>::empty()
                ||| word == "in"@
                ||| word == "keyGet2"@
                ||| is_role_function(word)
                ||| cuts && is_all_ascii(text, names)
                ||| cuts && !member && starts_with_ascii(text, i, names)
            }
        }),
{
    law_word_before(before, word, gap, seq!['('] + rest);
    let text = before + word + gap + (seq!['('] + rest);
    let i = (before.len() + word.len() + gap.len()) as int;
    assert(text[i] == '(');
    if word.len() == 0 {
        assert(word =~= Seq::<char>::empty());
    }
}

/// A `!` spoils a matcher exactly if a word stands before it and it does not belong to `!=` or
/// `!in`: it may then be part of a call.
pub proof fn law_plain_negations(
    before: Seq<char>,
    word: Seq<char>,
    gap: Seq<char>,
    rest: Seq<char>,
    names: NamesView,
)
    requires
        is_word_and_gap(before, word, gap),
        !is_quoted(
            before + word + gap + (seq!['!'] + rest),
            (before.len() + word.len() + gap.len()) as int,
        ),
    ensures
        ({
            let text = before + word + gap + (seq!['!'] + rest);
            let i = (before.len() + word.len() + gap.len()) as int;
            is_plain_at(text, i, names) <==> {
                ||| word.len() == 0
                ||| rest.len() > 0 && rest[0] == '='
                ||| rest.len() == 2 && rest[0] == 'i' && rest[1] == 'n'
                ||| rest.len() > 2 && rest[0] == 'i' && rest[1] == 'n' && !is_word_char(rest[2])
            }
        }),
{
    law_word_before(before, word, gap, seq!['!'] + rest);
    let text = before + word + gap + (seq!['!'] + rest);
    let i = (before.len() + word.len() + gap.len()) as int;
    assert(text[i] == '!');
    assert(text.len() == i + 1 + rest.len());
    assert(rest.len() > 0 ==> text[i + 1] == rest[0]);
    assert(rest.len() > 1 ==> text[i + 2] == rest[1]);
    assert(rest.len() > 2 ==> text[i + 3] == rest[2]);
}

/// An opening bracket spoils a matcher exactly if it does not open a list behind `in`: it may
/// then index.
pub proof fn law_plain_lists(
    before: Seq<char>,
    word: Seq<char>,
    gap: Seq<char>,
    rest: Seq<char>,
    names: NamesView,
)
    requires
        is_word_and_gap(before, word, gap),
        !is_quoted(
            before + word + gap + (seq!['['] + rest),
            (before.len() + word.len() + gap.len()) as int,
        ),
    ensures
        ({
            let text = before + word + gap + (seq!['['] + rest);
            let i = (before.len() + word.len() + gap.len()) as int;
            is_plain_at(text, i, names) <==> word == seq!['i', 'n'] && !(before.len() > 0
                && before.last() == '.')
        }),
{
    reveal_strlit("in");
    assert("in"@ =~= seq!['i', 'n']);
    law_word_before(before, word, gap, seq!['['] + rest);
    let text = before + word + gap + (seq!['['] + rest);
    assert(text[(before.len() + word.len() + gap.len()) as int] == '[');
}

/// A first argument that is a name is in ASCII exactly if the value of the name is and another
/// argument follows.
pub proof fn law_name_as_first_argument(
    before: Seq<char>,
    gap: Seq<char>,
    name: Seq<char>,
    behind: Seq<char>,
    next: char,
    rest: Seq<char>,
    names: NamesView,
)
    requires
        name.len() > 0,
        forall|i: int| 0 <= i < name.len() ==> is_word_char(#[trigger] name[i]),
        forall|i: int| 0 <= i < gap.len() ==> #[trigger] gap[i] == ' ',
        forall|i: int| 0 <= i < behind.len() ==> #[trigger] behind[i] == ' ',
        next != ' ',
        behind.len() == 0 ==> !is_word_char(next),
    ensures
        starts_with_ascii(
            before + seq!['('] + gap + name + behind + (seq![next] + rest),
            before.len() as int,
            names,
        ) <==> next == ',' && is_ascii_name(name, names),
{
    let text = before + seq!['('] + gap + name + behind + (seq![next] + rest);
    let i = before.len() as int;
    let from = i + 1 + gap.len();
    let to = from + name.len();
    let end = to + behind.len();
    assert forall|k: int| i + 1 <= k < from implies #[trigger] text[k] == ' ' by {
        assert(text[k] == gap[k - i - 1]);
    }
    assert forall|k: int| from <= k < to implies is_word_char(#[trigger] text[k]) by {
        assert(text[k] == name[k - from]);
    }
    assert forall|k: int| to <= k < end implies #[trigger] text[k] == ' ' by {
        assert(text[k] == behind[k - to]);
    }
    assert(text[end] == next);
    assert(text[from] == name[0]);
    lemma_gap_end(text, i + 1, from);
    lemma_word_end(text, from, to);
    lemma_gap_end(text, to, end);
    assert(text.subrange(from, to) =~= name);
}

/// A first argument that is a string literal is in ASCII exactly if its text is and another
/// argument follows.
pub proof fn law_literal_as_first_argument(
    before: Seq<char>,
    gap: Seq<char>,
    literal: Seq<char>,
    behind: Seq<char>,
    next: char,
    rest: Seq<char>,
    names: NamesView,
)
    requires
        !literal.contains('"'),
        forall|i: int| 0 <= i < gap.len() ==> #[trigger] gap[i] == ' ',
        forall|i: int| 0 <= i < behind.len() ==> #[trigger] behind[i] == ' ',
        next != ' ',
    ensures
        starts_with_ascii(
            before + seq!['('] + gap + (seq!['"'] + literal + seq!['"']) + behind + (seq![next]
                + rest),
            before.len() as int,
            names,
        ) <==> next == ',' && is_ascii(literal),
{
    let quoted = seq!['"'] + literal + seq!['"'];
    let text = before + seq!['('] + gap + quoted + behind + (seq![next] + rest);
    let i = before.len() as int;
    let from = i + 1 + gap.len();
    let to = from + 1 + literal.len();
    let end = to + 1 + behind.len();
    assert forall|k: int| i + 1 <= k < from implies #[trigger] text[k] == ' ' by {
        assert(text[k] == gap[k - i - 1]);
    }
    assert(text[from] == quoted[0]);
    assert forall|k: int| from + 1 <= k < to implies #[trigger] text[k] != '"' by {
        assert(text[k] == literal[k - from - 1]);
        assert(literal.contains(literal[k - from - 1]));
    }
    assert(text[to] == quoted[to - from]);
    assert forall|k: int| to + 1 <= k < end implies #[trigger] text[k] == ' ' by {
        assert(text[k] == behind[k - to - 1]);
    }
    assert(text[end] == next);
    lemma_gap_end(text, i + 1, from);
    lemma_quote_at(text, from + 1, to);
    lemma_gap_end(text, to + 1, end);
    assert(text.subrange(from, to) =~= seq!['"'] + literal);
    law_ascii_in_all_parts(seq!['"'], literal, '"');
}

/// The value of a name is in ASCII if the policy is and gives the name its value, or if the
/// policy does not and the request does and is; a name without a value holds nothing else.
pub proof fn law_ascii_names(name: Seq<char>, names: NamesView)
    ensures
        names.policy.contains(name) ==> is_ascii_name(name, names) == names.ascii_policy,
        !names.policy.contains(name) && names.request.contains(name) ==> is_ascii_name(name, names)
            == names.ascii_request,
        !names.policy.contains(name) && !names.request.contains(name) ==> is_ascii_name(
            name,
            names,
        ),
{
}

/// Every value is in ASCII exactly if the request, the policy and the matcher are.
pub proof fn law_all_ascii(text: Seq<char>, names: NamesView)
    ensures
        is_all_ascii(text, names) ==> names.ascii_request,
        is_all_ascii(text, names) ==> names.ascii_policy,
        is_all_ascii(text, names) ==> is_ascii(text),
        is_ascii(text) && names.ascii_policy && names.ascii_request ==> is_all_ascii(text, names),
{
}

/// A role function is named by a `g` and digits, or a `g` alone.
pub proof fn law_role_function_names(first: char, digits: Seq<char>)
    ensures
        !is_role_function(Seq::empty()),
        is_role_function(seq![first] + digits) <==> first == 'g' && forall|i: int|
            0 <= i < digits.len() ==> 48 <= (#[trigger] digits[i]) as int <= 57,
{
    let name = seq![first] + digits;
    assert(name[0] == first);
    assert forall|i: int| 0 <= i < digits.len() implies #[trigger] digits[i] == name[i + 1] by {}
    if is_role_function(name) {
        assert forall|i: int| 0 <= i < digits.len() implies 48 <= (#[trigger] digits[i]) as int
            <= 57 by {
            assert('0' <= name[i + 1] <= '9');
        }
    }
    if first == 'g' && forall|i: int|
        0 <= i < digits.len() ==> 48 <= (#[trigger] digits[i]) as int <= 57 {
        assert forall|i: int| 1 <= i < name.len() implies '0' <= #[trigger] name[i] <= '9' by {
            assert(name[i] == digits[i - 1]);
        }
    }
}

/// A list is in ASCII exactly if each entry is.
pub proof fn law_ascii_lists(list: Seq<Seq<char>>, entry: Seq<char>)
    ensures
        is_ascii_list(Seq::empty()),
        is_ascii_list(list.push(entry)) <==> is_ascii_list(list) && is_ascii(entry),
{
    let grown = list.push(entry);
    if is_ascii_list(grown) {
        assert(is_ascii(grown[list.len() as int]));
        assert forall|i: int| 0 <= i < list.len() implies is_ascii(#[trigger] list[i]) by {
            assert(grown[i] == list[i]);
        }
    }
}

} // verus!
