//! Text: searching, joining and writing numbers, as sequences of characters.

use vstd::prelude::*;
use vstd::string::*;

verus! {

/// Whether `pattern` stands in `text` at position `at`.
pub open spec fn occurs_at(text: Seq<char>, pattern: Seq<char>, at: int) -> bool {
    &&& 0 <= at
    &&& at + pattern.len() <= text.len()
    &&& text.subrange(at, at + pattern.len()) == pattern
}

/// Whether `pattern` stands anywhere in `text`.
pub open spec fn contains_text(text: Seq<char>, pattern: Seq<char>) -> bool {
    exists|at: int| occurs_at(text, pattern, at)
}

/// Whether `text` ends with `suffix`.
pub open spec fn ends_with_text(text: Seq<char>, suffix: Seq<char>) -> bool {
    occurs_at(text, suffix, text.len() - suffix.len())
}

/// Whether `at` is the first position at which `pattern` stands in `text`.
pub open spec fn first_at(text: Seq<char>, pattern: Seq<char>, at: int) -> bool {
    &&& occurs_at(text, pattern, at)
    &&& forall|earlier: int| earlier < at ==> !#[trigger] occurs_at(text, pattern, earlier)
}

/// The first position at which `pattern` stands in `text`, if it stands there at all.
pub open spec fn position(text: Seq<char>, pattern: Seq<char>) -> Option<int> {
    if contains_text(text, pattern) {
        Some(choose|at: int| first_at(text, pattern, at))
    } else {
        None
    }
}

/// The part of `text` before the first `mark`, or all of it where there is none.
pub open spec fn before(text: Seq<char>, mark: Seq<char>) -> Seq<char> {
    match position(text, mark) {
        Some(at) => text.take(at),
        None => text,
    }
}

/// The first position is the only one of its kind.
pub proof fn lemma_position(text: Seq<char>, pattern: Seq<char>, at: int)
    requires
        first_at(text, pattern, at),
    ensures
        position(text, pattern) == Some(at),
{
    let chosen = choose|i: int| first_at(text, pattern, i);
    assert(first_at(text, pattern, chosen));
    if chosen < at {
        assert(!occurs_at(text, pattern, chosen));
    }
    if at < chosen {
        assert(!occurs_at(text, pattern, at));
    }
}

/// What stands anywhere in a text stands somewhere first.
pub proof fn lemma_first_exists(whole: Seq<char>, pattern: Seq<char>, at: int)
    requires
        occurs_at(whole, pattern, at),
    ensures
        exists|i: int| first_at(whole, pattern, i),
    decreases at,
{
    if exists|i: int| i < at && occurs_at(whole, pattern, i) {
        let i = choose|i: int| i < at && occurs_at(whole, pattern, i);
        lemma_first_exists(whole, pattern, i);
    } else {
        assert(first_at(whole, pattern, at));
    }
}

/// The characters of a string, in order.
pub fn chars_of(text: &str) -> (chars: Vec<char>)
    ensures
        chars@ == text@,
{
    let mut chars: Vec<char> = Vec::new();
    for c in it: text.chars()
        invariant
            it.seq() == text@,
            chars@ == text@.take(it.index() as int),
    {
        chars.push(c);
    }
    chars
}

/// Whether two strings hold the same characters.
pub fn same_text(left: &str, right: &str) -> (same: bool)
    ensures
        same == (left@ == right@),
{
    left.to_owned() == right.to_owned()
}

/// Whether `pattern` stands at position `at` of `text`, character by character.
pub fn matches_at(text: &Vec<char>, pattern: &Vec<char>, at: usize) -> (found: bool)
    requires
        at + pattern.len() <= text.len(),
    ensures
        found == occurs_at(text@, pattern@, at as int),
{
    let mut i: usize = 0;
    while i < pattern.len()
        invariant
            i <= pattern@.len(),
            at + pattern.len() <= text.len(),
            forall|k: int| 0 <= k < i ==> text@[at + k] == #[trigger] pattern@[k],
        decreases pattern@.len() - i,
    {
        if text[at + i] != pattern[i] {
            assert(text@.subrange(at as int, at + pattern@.len())[i as int] == text@[at + i]);
            return false;
        }
        i += 1;
    }
    assert(text@.subrange(at as int, at + pattern@.len()) =~= pattern@);
    true
}

/// The first position, counted in characters, at which `pattern` stands in `text`.
pub fn find_text(text: &str, pattern: &str) -> (found: Option<usize>)
    ensures
        match found {
            Some(at) => first_at(text@, pattern@, at as int) && position(text@, pattern@) == Some(
                at as int,
            ),
            None => !contains_text(text@, pattern@) && position(text@, pattern@) is None,
        },
{
    let chars: Vec<char> = chars_of(text);
    let wanted: Vec<char> = chars_of(pattern);
    if wanted.len() > chars.len() {
        return None;
    }
    let last: usize = chars.len() - wanted.len();
    let mut at: usize = 0;
    while at < last && !matches_at(&chars, &wanted, at)
        invariant
            chars@ == text@,
            wanted@ == pattern@,
            last == chars.len() - wanted.len(),
            at <= last,
            forall|earlier: int| earlier < at ==> !#[trigger] occurs_at(text@, pattern@, earlier),
        ensures
            at == last || occurs_at(text@, pattern@, at as int),
        decreases last - at,
    {
        at += 1;
    }
    if matches_at(&chars, &wanted, at) {
        proof {
            lemma_position(text@, pattern@, at as int);
        }
        Some(at)
    } else {
        None
    }
}

/// Whether `pattern` stands anywhere in `text`.
pub fn has_text(text: &str, pattern: &str) -> (found: bool)
    ensures
        found == contains_text(text@, pattern@),
{
    find_text(text, pattern).is_some()
}

/// The part of `text` before the first `mark`, or all of it where there is none.
pub fn cut_before(text: &str, mark: &str) -> (cut: String)
    ensures
        cut@ == before(text@, mark@),
{
    match find_text(text, mark) {
        Some(at) => text.substring_char(0, at).to_owned(),
        None => text.to_owned(),
    }
}

/// The part of `text` from position `from`, counted in characters, to its end.
pub fn skip_chars(text: &str, from: usize) -> (rest: String)
    requires
        from <= text@.len(),
    ensures
        rest@ == text@.skip(from as int),
{
    text.substring_char(from, text.unicode_len()).to_owned()
}

/// The texts in order, with `separator` between each two.
pub open spec fn joined(parts: Seq<Seq<char>>, separator: Seq<char>) -> Seq<char>
    decreases parts.len(),
{
    if parts.len() == 0 {
        Seq::empty()
    } else if parts.len() == 1 {
        parts[0]
    } else {
        joined(parts.drop_last(), separator) + separator + parts.last()
    }
}

/// The characters of each string of a list.
pub open spec fn texts(strings: Seq<String>) -> Seq<Seq<char>> {
    strings.map_values(|s: String| s@)
}

/// The characters of a string that may be missing.
pub open spec fn text_option(string: Option<String>) -> Option<Seq<char>> {
    match string {
        Some(s) => Some(s@),
        None => None,
    }
}

/// The characters of each borrowed string of a list.
pub open spec fn names(strings: Seq<&'static str>) -> Seq<Seq<char>> {
    strings.map_values(|s: &'static str| s@)
}

/// The characters of a borrowed string that may be missing.
pub open spec fn str_option(string: Option<&str>) -> Option<Seq<char>> {
    match string {
        Some(s) => Some(s@),
        None => None,
    }
}

/// The texts in order, with `separator` between each two.
pub fn join_texts(parts: &Vec<String>, separator: &str) -> (whole: String)
    ensures
        whole@ == joined(texts(parts@), separator@),
{
    let mut whole: String = String::new();
    let mut i: usize = 0;
    while i < parts.len()
        invariant
            i <= parts@.len(),
            whole@ == joined(texts(parts@).take(i as int), separator@),
        decreases parts@.len() - i,
    {
        if i > 0 {
            whole.append(separator);
        }
        whole.append(parts[i].as_str());
        assert(texts(parts@).take(i + 1).drop_last() =~= texts(parts@).take(i as int));
        assert(whole@ =~= joined(texts(parts@).take(i + 1), separator@));
        i += 1;
    }
    assert(texts(parts@).take(i as int) =~= texts(parts@));
    whole
}

/// The character of a decimal digit.
pub open spec fn digit(value: nat) -> char
    recommends
        value < 10,
{
    (48 + value) as char
}

/// A number in decimal, without leading zeros.
pub open spec fn decimal(value: nat) -> Seq<char>
    decreases value,
{
    if value < 10 {
        seq![digit(value)]
    } else {
        decimal(value / 10).push(digit(value % 10))
    }
}

fn digit_text(value: u16) -> (text: &'static str)
    requires
        value < 10,
    ensures
        text@ == seq![digit(value as nat)],
{
    proof {
        reveal_strlit("0");
        reveal_strlit("1");
        reveal_strlit("2");
        reveal_strlit("3");
        reveal_strlit("4");
        reveal_strlit("5");
        reveal_strlit("6");
        reveal_strlit("7");
        reveal_strlit("8");
        reveal_strlit("9");
    }
    match value {
        0 => "0",
        1 => "1",
        2 => "2",
        3 => "3",
        4 => "4",
        5 => "5",
        6 => "6",
        7 => "7",
        8 => "8",
        _ => "9",
    }
}

/// Writes a number in decimal.
pub fn decimal_text(value: u16) -> (text: String)
    ensures
        text@ == decimal(value as nat),
    decreases value,
{
    if value < 10 {
        digit_text(value).to_owned()
    } else {
        let mut text: String = decimal_text(value / 10);
        text.append(digit_text(value % 10));
        assert(text@ =~= decimal(value as nat));
        text
    }
}

/// A decimal holds digits only.
pub proof fn lemma_decimal_digits(value: nat)
    ensures
        decimal(value).len() > 0,
        forall|i: int| 0 <= i < decimal(value).len() ==> '0' <= #[trigger] decimal(value)[i] <= '9',
    decreases value,
{
    if value >= 10 {
        lemma_decimal_digits(value / 10);
    }
}

/// Different numbers are written differently.
pub proof fn lemma_decimal_injective(left: nat, right: nat)
    requires
        decimal(left) == decimal(right),
    ensures
        left == right,
    decreases left,
{
    lemma_decimal_digits(left / 10);
    lemma_decimal_digits(right / 10);
    assert(decimal(left).last() == digit(left % 10));
    assert(decimal(right).last() == digit(right % 10));
    assert(digit(left % 10) as int == 48 + left % 10);
    assert(digit(right % 10) as int == 48 + right % 10);
    if left >= 10 && right >= 10 {
        assert(decimal(left).drop_last() =~= decimal(left / 10));
        assert(decimal(right).drop_last() =~= decimal(right / 10));
        lemma_decimal_injective(left / 10, right / 10);
    } else {
        assert(decimal(left).len() == decimal(right).len());
    }
}

/// A pattern stands at a position of a text exactly where the text reads like it from there
/// on, character by character.
pub proof fn law_occurs_by_characters(whole: Seq<char>, pattern: Seq<char>, at: int)
    ensures
        occurs_at(whole, pattern, at) <==> (0 <= at && at + pattern.len() <= whole.len() && (
        forall|k: int| 0 <= k < pattern.len() ==> whole[at + k] == #[trigger] pattern[k])),
{
    if occurs_at(whole, pattern, at) {
        let cut = whole.subrange(at, at + pattern.len());
        assert forall|k: int| 0 <= k < pattern.len() implies whole[at + k] == #[trigger] pattern[k] by {
            assert(cut[k] == whole[at + k]);
        }
    }
    if 0 <= at && at + pattern.len() <= whole.len() && (forall|k: int|
        0 <= k < pattern.len() ==> whole[at + k] == #[trigger] pattern[k]) {
        assert(whole.subrange(at, at + pattern.len()) =~= pattern);
    }
}

/// A text holds a pattern exactly where it can be cut into what comes before the pattern,
/// the pattern and what comes after; it ends with the pattern exactly where nothing comes
/// after.
pub proof fn law_contains_split(whole: Seq<char>, pattern: Seq<char>)
    ensures
        contains_text(whole, pattern) <==> exists|front: Seq<char>, back: Seq<char>|
            whole == #[trigger] (front + pattern + back),
        ends_with_text(whole, pattern) <==> exists|front: Seq<char>|
            whole == #[trigger] (front + pattern),
{
    if contains_text(whole, pattern) {
        let at = choose|at: int| occurs_at(whole, pattern, at);
        let front = whole.take(at);
        let back = whole.skip(at + pattern.len());
        assert(whole =~= front + whole.subrange(at, at + pattern.len()) + back);
        assert(whole == front + pattern + back);
    }
    if exists|front: Seq<char>, back: Seq<char>| whole == #[trigger] (front + pattern + back) {
        let (front, back) = choose|front: Seq<char>, back: Seq<char>|
            whole == #[trigger] (front + pattern + back);
        lemma_split_occurs(front, pattern, back);
    }
    if ends_with_text(whole, pattern) {
        let at = whole.len() - pattern.len();
        assert(whole =~= whole.take(at) + whole.subrange(at, at + pattern.len()));
        assert(whole == whole.take(at) + pattern);
    }
    if exists|front: Seq<char>| whole == #[trigger] (front + pattern) {
        let front = choose|front: Seq<char>| whole == #[trigger] (front + pattern);
        assert(whole.subrange(front.len() as int, whole.len() as int) =~= pattern);
    }
}

/// What stands between two parts of a text stands in it.
pub proof fn lemma_split_occurs(front: Seq<char>, pattern: Seq<char>, back: Seq<char>)
    ensures
        occurs_at(front + pattern + back, pattern, front.len() as int),
        contains_text(front + pattern + back, pattern),
{
    let whole = front + pattern + back;
    assert(whole.subrange(front.len() as int, (front + pattern).len() as int) =~= pattern);
}

/// The text before a mark goes up to the mark, which stands nowhere earlier; without the
/// mark it is the whole text.
pub proof fn law_before_first_mark(whole: Seq<char>, mark: Seq<char>)
    ensures
        contains_text(whole, mark) ==> {
            &&& position(whole, mark) == Some(before(whole, mark).len() as int)
            &&& exists|rest: Seq<char>| whole == #[trigger] (before(whole, mark) + mark + rest)
            &&& forall|front: Seq<char>, rest: Seq<char>|
                whole == #[trigger] (front + mark + rest) ==> before(whole, mark).len()
                    <= front.len()
        },
        !contains_text(whole, mark) ==> before(whole, mark) == whole && position(whole, mark) is None,
{
    if contains_text(whole, mark) {
        let any = choose|at: int| occurs_at(whole, mark, at);
        lemma_first_exists(whole, mark, any);
        let at = choose|at: int| first_at(whole, mark, at);
        let rest = whole.skip(at + mark.len());
        assert(whole =~= whole.take(at) + whole.subrange(at, at + mark.len()) + rest);
        assert(whole == before(whole, mark) + mark + rest);
        assert forall|front: Seq<char>, rest: Seq<char>|
            whole == #[trigger] (front + mark + rest) implies before(whole, mark).len()
            <= front.len() by {
            lemma_split_occurs(front, mark, rest);
        }
    }
}

/// Nothing joined is empty, one text joined is that text, and two lists are joined by
/// joining each and putting the separator between the two.
pub proof fn law_joined(
    one: Seq<char>,
    left: Seq<Seq<char>>,
    right: Seq<Seq<char>>,
    separator: Seq<char>,
)
    requires
        left.len() > 0,
        right.len() > 0,
    ensures
        joined(Seq::empty(), separator) == Seq::<char>::empty(),
        joined(seq![one], separator) == one,
        joined(left + right, separator) == joined(left, separator) + separator + joined(
            right,
            separator,
        ),
    decreases right.len(),
{
    let whole = left + right;
    assert(whole.last() == right.last());
    assert(whole.drop_last() =~= left + right.drop_last());
    if right.len() == 1 {
        assert(left + right.drop_last() =~= left);
        assert(right[0] == right.last());
    } else {
        law_joined(one, left, right.drop_last(), separator);
        assert(joined(whole, separator) =~= joined(left, separator) + separator + joined(
            right,
            separator,
        ));
    }
}

/// A number is written in decimal digits that read as that number, and it starts with a zero
/// only where it is zero.
pub proof fn law_decimal_reads_back(value: nat)
    ensures
        decimal(value).fold_left(0int, |read: int, c: char| 10 * read + (c as int - '0' as int))
            == value,
        forall|i: int| 0 <= i < decimal(value).len() ==> '0' <= #[trigger] decimal(value)[i] <= '9',
        decimal(value).len() > 0,
        decimal(value)[0] == '0' ==> value == 0 && decimal(value).len() == 1,
    decreases value,
{
    lemma_decimal_digits(value);
    let read = |read: int, c: char| 10 * read + (c as int - '0' as int);
    if value < 10 {
        assert(decimal(value).last() as int == 48 + value);
        assert(decimal(value).drop_last().fold_left(0int, read) == 0);
    } else {
        law_decimal_reads_back(value / 10);
        lemma_decimal_digits(value / 10);
        assert(decimal(value).drop_last() =~= decimal(value / 10));
        assert(decimal(value).last() as int == 48 + value % 10);
        assert(decimal(value)[0] == decimal(value / 10)[0]);
    }
}

/// Lists and missing strings are read one by one: each text is that of its own string, none
/// is left out, and a text is missing exactly where the string is.
pub proof fn law_texts_one_by_one(
    strings: Seq<String>,
    borrowed: Seq<&'static str>,
    string: Option<String>,
    other: Option<&str>,
)
    ensures
        texts(strings).len() == strings.len(),
        forall|i: int| 0 <= i < strings.len() ==> #[trigger] texts(strings)[i] == strings[i]@,
        names(borrowed).len() == borrowed.len(),
        forall|i: int| 0 <= i < borrowed.len() ==> #[trigger] names(borrowed)[i] == borrowed[i]@,
        text_option(string) is Some <==> string is Some,
        string is Some ==> text_option(string).unwrap() == string.unwrap()@,
        str_option(other) is Some <==> other is Some,
        other is Some ==> str_option(other).unwrap() == other.unwrap()@,
{
}

} // verus!
