//! Numbers in decimal notation, and the pieces of texts that hold them.
use vstd::prelude::*;

verus! {

/// The value of a decimal digit.
pub open spec fn digit_value(c: char) -> int {
    c as int - '0' as int
}

/// Whether a character is a decimal digit.
pub open spec fn is_digit(c: char) -> bool {
    '0' as int <= c as int <= '9' as int
}

/// The digit that stands for a number below ten.
pub open spec fn digit(n: int) -> char {
    ('0' as int + n) as char
}

/// A number in decimal notation, without leading zeros.
pub open spec fn decimal(n: nat) -> Seq<char>
    decreases n,
{
    if n < 10 {
        seq![digit(n as int)]
    } else {
        decimal(n / 10).push(digit((n % 10) as int))
    }
}

/// Whether a text is made of digits alone, and has at least one.
pub open spec fn is_decimal(text: Seq<char>) -> bool {
    &&& text.len() > 0
    &&& forall|i: int| 0 <= i < text.len() ==> is_digit(#[trigger] text[i])
}

/// The number that digits stand for.
pub open spec fn value_of(text: Seq<char>) -> int
    decreases text.len(),
{
    if text.len() == 0 {
        0
    } else {
        10 * value_of(text.drop_last()) + digit_value(text.last())
    }
}

/// The number that an unsigned literal stands for: digits, and a plus sign before
/// them if one likes.
pub open spec fn unsigned_value(text: Seq<char>) -> Option<int> {
    let digits = if text.len() > 0 && text[0] == '+' {
        text.skip(1)
    } else {
        text
    };
    if is_decimal(digits) {
        Some(value_of(digits))
    } else {
        None
    }
}

/// The number that a signed literal stands for: digits, and a sign before them if
/// one likes.
pub open spec fn signed_value(text: Seq<char>) -> Option<int> {
    if text.len() > 0 && text[0] == '-' {
        if is_decimal(text.skip(1)) {
            Some(-value_of(text.skip(1)))
        } else {
            None
        }
    } else {
        unsigned_value(text)
    }
}

/// Digits stand for no negative number.
pub proof fn lemma_value_positive(text: Seq<char>)
    requires
        forall|i: int| 0 <= i < text.len() ==> is_digit(#[trigger] text[i]),
    ensures
        value_of(text) >= 0,
    decreases text.len(),
{
    if text.len() > 0 {
        lemma_value_positive(text.drop_last());
    }
}

/// More digits stand for a number that is no smaller.
pub proof fn lemma_value_grows(text: Seq<char>, count: int)
    requires
        forall|i: int| 0 <= i < text.len() ==> is_digit(#[trigger] text[i]),
        0 <= count <= text.len(),
    ensures
        value_of(text.take(count)) <= value_of(text),
    decreases text.len() - count,
{
    if count == text.len() {
        assert(text.take(count) =~= text);
    } else {
        lemma_value_grows(text, count + 1);
        assert(text.take(count + 1).drop_last() =~= text.take(count));
        lemma_value_positive(text.take(count));
    }
}

/// Decimal notation is read back as the number it was written for.
pub proof fn decimals_are_read_back(n: nat)
    ensures
        is_decimal(decimal(n)),
        value_of(decimal(n)) == n,
        unsigned_value(decimal(n)) == Some(n as int),
        signed_value(decimal(n)) == Some(n as int),
    decreases n,
{
    if n >= 10 {
        decimals_are_read_back(n / 10);
        assert(decimal(n).drop_last() =~= decimal(n / 10));
    } else {
        assert(decimal(n).drop_last() =~= Seq::empty());
        assert(value_of(Seq::<char>::empty()) == 0);
    }
    assert(is_digit(decimal(n)[0]));
}

/// Different numbers have different notations.
pub proof fn decimals_differ(n: nat, m: nat)
    requires
        decimal(n) == decimal(m),
    ensures
        n == m,
{
    decimals_are_read_back(n);
    decimals_are_read_back(m);
}

/// The text of one digit.
fn digit_text(n: u64) -> (text: &'static str)
    requires
        n < 10,
    ensures
        text@ == seq![digit(n as int)],
{
    proof {
        reveal_strlit("0");
        reveal_strlit("1");
        reveal_strlit("2");
        reveal_strlit("3");
        reveal_strlit("4");
        reveal_strlit("5");
        reveal_strlit("6");
        reveal_strlit("7");
        reveal_strlit("8");
        reveal_strlit("9");
    }
    if n == 0 {
        "0"
    } else if n == 1 {
        "1"
    } else if n == 2 {
        "2"
    } else if n == 3 {
        "3"
    } else if n == 4 {
        "4"
    } else if n == 5 {
        "5"
    } else if n == 6 {
        "6"
    } else if n == 7 {
        "7"
    } else if n == 8 {
        "8"
    } else {
        "9"
    }
}

/// Writes a number in decimal notation.
pub fn to_decimal(n: u64) -> (text: String)
    ensures
        text@ == decimal(n as nat),
    decreases n,
{
    if n < 10 {
        digit_text(n).to_owned()
    } else {
        let mut text = to_decimal(n / 10);
        text.append(digit_text(n % 10));
        text
    }
}

/// Reads digits from `from` on, unless they stand for more than `limit`.
fn read_digits(text: &Vec<char>, from: usize, limit: u64) -> (value: Option<u64>)
    requires
        from <= text@.len(),
        limit <= 0x1_0000_0000,
    ensures
        ({
            let digits = text@.skip(from as int);
            &&& value is Some <==> is_decimal(digits) && value_of(digits) <= limit
            &&& value matches Some(n) ==> n == value_of(digits)
        }),
{
    let ghost digits = text@.skip(from as int);
    if from == text.len() {
        return None;
    }
    let mut value: u64 = 0;
    let mut at: usize = from;
    while at < text.len()
        invariant
            from <= at <= text@.len(),
            digits == text@.skip(from as int),
            limit <= 0x1_0000_0000,
            value <= limit,
            value == value_of(digits.take(at - from)),
            forall|i: int| 0 <= i < at - from ==> is_digit(#[trigger] digits[i]),
        decreases text@.len() - at,
    {
        let c = text[at];
        let ghost done = (at - from) as int;
        assert(digits[done] == c);
        if c < '0' || c > '9' {
            return None;
        }
        proof {
            assert(digits.take(done + 1).drop_last() =~= digits.take(done));
            assert(digits.take(done + 1).last() == c);
        }
        value = 10 * value + (c as u64 - '0' as u64);
        assert(value == value_of(digits.take(done + 1)));
        if value > limit {
            proof {
                if is_decimal(digits) {
                    lemma_value_grows(digits, done + 1);
                }
            }
            return None;
        }
        at = at + 1;
    }
    assert(digits.take(at - from) =~= digits);
    Some(value)
}

/// Reads an unsigned number of 32 bits.
pub fn parse_u32(text: &Vec<char>) -> (number: Option<u32>)
    ensures
        number is Some <==> (unsigned_value(text@) matches Some(n) && n <= u32::MAX),
        number matches Some(n) ==> unsigned_value(text@) == Some(n as int),
{
    let mut from: usize = 0;
    if text.len() > 0 && text[0] == '+' {
        from = 1;
    }
    assert(text@.skip(0) =~= text@);
    match read_digits(text, from, 0xffff_ffff) {
        None => None,
        Some(n) => Some(n as u32),
    }
}

/// Reads a signed number of 32 bits.
pub fn parse_i32(text: &Vec<char>) -> (number: Option<i32>)
    ensures
        number is Some <==> (signed_value(text@) matches Some(n) && i32::MIN <= n <= i32::MAX),
        number matches Some(n) ==> signed_value(text@) == Some(n as int),
{
    let mut from: usize = 0;
    let mut negative: bool = false;
    if text.len() > 0 {
        if text[0] == '+' {
            from = 1;
        } else if text[0] == '-' {
            from = 1;
            negative = true;
        }
    }
    let ghost digits = text@.skip(from as int);
    assert(text@.skip(0) =~= text@);
    proof {
        if is_decimal(digits) {
            lemma_value_positive(digits);
        }
    }
    let limit: u64 = if negative {
        0x8000_0000
    } else {
        0x7fff_ffff
    };
    match read_digits(text, from, limit) {
        None => None,
        Some(n) => if negative {
            Some((0 - n as i64) as i32)
        } else {
            Some(n as i32)
        },
    }
}

/// The two pieces of a text that has a single space.
pub open spec fn in_two(text: Seq<char>) -> Option<(Seq<char>, Seq<char>)> {
    let at = text.index_of(' ');
    if text.contains(' ') && !text.skip(at + 1).contains(' ') && !text.take(at).contains(' ') {
        Some((text.take(at), text.skip(at + 1)))
    } else {
        None
    }
}

/// There is one place at most where a text can be parted in two.
pub proof fn lemma_in_two(text: Seq<char>, at: int)
    requires
        0 <= at < text.len(),
        text[at] == ' ',
        forall|i: int| 0 <= i < text.len() && i != at ==> #[trigger] text[i] != ' ',
    ensures
        in_two(text) == Some((text.take(at), text.skip(at + 1))),
{
    assert(text.contains(' '));
    let found = text.index_of(' ');
    assert(text[found] == ' ');
    assert(found == at);
    assert(!text.take(at).contains(' '));
    assert(!text.skip(at + 1).contains(' ')) by {
        if text.skip(at + 1).contains(' ') {
            let j = text.skip(at + 1).index_of(' ');
            assert(text[at + 1 + j] == ' ');
        }
    }
}

/// Part of a list of characters.
fn piece(text: &Vec<char>, from: usize, to: usize) -> (part: Vec<char>)
    requires
        from <= to <= text@.len(),
    ensures
        part@ == text@.subrange(from as int, to as int),
{
    let mut part: Vec<char> = Vec::new();
    let mut at: usize = from;
    while at < to
        invariant
            from <= at <= to <= text@.len(),
            part@ == text@.subrange(from as int, at as int),
        decreases to - at,
    {
        part.push(text[at]);
        at = at + 1;
        assert(part@ =~= text@.subrange(from as int, at as int));
    }
    part
}

/// Parts a text in two at its single space.
pub fn split_in_two(text: &Vec<char>) -> (pieces: Option<(Vec<char>, Vec<char>)>)
    ensures
        pieces is Some <==> in_two(text@) is Some,
        pieces matches Some((first, second)) ==> in_two(text@) == Some((first@, second@)),
{
    let mut found: Option<usize> = None;
    let mut at: usize = 0;
    while at < text.len()
        invariant
            at <= text@.len(),
            match found {
                None => forall|i: int| 0 <= i < at ==> #[trigger] text@[i] != ' ',
                Some(space) => {
                    &&& space < at
                    &&& text@[space as int] == ' '
                    &&& forall|i: int| 0 <= i < at && i != space ==> #[trigger] text@[i] != ' '
                },
            },
        decreases text@.len() - at,
    {
        if text[at] == ' ' {
            if let Some(space) = found {
                proof {
                    let first = text@.index_of(' ');
                    assert(text@.contains(' '));
                    assert(text@[first] == ' ');
                    if first < at {
                        assert(first == space);
                        assert(text@.skip(first + 1)[at - first - 1] == ' ');
                    } else {
                        assert(text@.take(first)[space as int] == ' ');
                    }
                }
                return None;
            }
            found = Some(at);
        }
        at = at + 1;
    }
    match found {
        None => None,
        Some(space) => {
            proof {
                lemma_in_two(text@, space as int);
                assert(text@.subrange(0, space as int) =~= text@.take(space as int));
                assert(text@.subrange(space + 1, text@.len() as int) =~= text@.skip(space + 1));
            }
            Some((piece(text, 0, space), piece(text, space + 1, text.len())))
        },
    }
}

/// Whether `part` stands in `text` at some place.
pub open spec fn has_part(text: Seq<char>, part: Seq<char>) -> bool {
    exists|at: int|
        0 <= at <= text.len() - part.len() && #[trigger] text.subrange(at, at + part.len()) == part
}

/// Whether `part` stands in `text` at `at`.
fn stands_at(text: &Vec<char>, part: &Vec<char>, at: usize) -> (answer: bool)
    requires
        at + part@.len() <= text@.len(),
    ensures
        answer == (text@.subrange(at as int, at + part@.len()) == part@),
{
    let mut i: usize = 0;
    while i < part.len()
        invariant
            at + part@.len() <= text.len(),
            i <= part@.len(),
            forall|j: int| 0 <= j < i ==> text@[at + j] == #[trigger] part@[j],
        decreases part@.len() - i,
    {
        if text[at + i] != part[i] {
            assert(text@.subrange(at as int, at + part@.len())[i as int] != part@[i as int]);
            return false;
        }
        i = i + 1;
    }
    assert(text@.subrange(at as int, at + part@.len()) =~= part@);
    true
}

/// Whether `part` stands in `text` at some place.
pub fn contains(text: &Vec<char>, part: &Vec<char>) -> (answer: bool)
    ensures
        answer == has_part(text@, part@),
{
    if part.len() > text.len() {
        return false;
    }
    let last: usize = text.len() - part.len();
    let mut at: usize = 0;
    while at <= last
        invariant
            last + part@.len() == text@.len(),
            at <= last + 1,
            forall|i: int|
                0 <= i < at ==> #[trigger] text@.subrange(i, i + part@.len()) != part@,
        decreases last + 1 - at,
    {
        if stands_at(text, part, at) {
            return true;
        }
        if at == last {
            return false;
        }
        at = at + 1;
    }
    false
}

/// How often `part` stands in `text`, from left to right and without overlap.
pub open spec fn occurrences(text: Seq<char>, part: Seq<char>) -> nat
    decreases text.len(),
{
    if part.len() == 0 || text.len() < part.len() {
        0
    } else if text.take(part.len() as int) == part {
        1 + occurrences(text.skip(part.len() as int), part)
    } else {
        occurrences(text.drop_first(), part)
    }
}

/// Counts how often `part` stands in `text`, from left to right and without
/// overlap.
pub fn count_occurrences(text: &Vec<char>, part: &Vec<char>) -> (count: usize)
    requires
        part@.len() > 0,
    ensures
        count == occurrences(text@, part@),
{
    let mut count: usize = 0;
    let mut at: usize = 0;
    assert(text@.skip(0) =~= text@);
    while part.len() <= text.len() - at
        invariant
            part@.len() > 0,
            at <= text@.len(),
            count <= at,
            count + occurrences(text@.skip(at as int), part@) == occurrences(text@, part@),
        decreases text@.len() - at,
    {
        let ghost rest = text@.skip(at as int);
        assert(rest.take(part@.len() as int) =~= text@.subrange(at as int, at + part@.len()));
        if stands_at(text, part, at) {
            assert(rest.skip(part@.len() as int) =~= text@.skip(at + part@.len()));
            count = count + 1;
            at = at + part.len();
        } else {
            assert(rest.drop_first() =~= text@.skip(at + 1));
            at = at + 1;
        }
    }
    count
}

/// The digits are the ten characters from zero to nine, in order, and each stands for
/// how far it is from zero.
pub proof fn digits_are_in_order(c: char, n: int)
    ensures
        is_digit(c) <==> 48 <= c as int <= 57,
        is_digit(c) ==> digit_value(c) == c as int - 48,
        0 <= n < 10 ==> digit(n) as int == 48 + n,
{
}

/// A number below ten is written as its digit, any other as its tens and then its ones.
pub proof fn decimals_end_with_the_ones(n: nat)
    ensures
        n < 10 ==> decimal(n).len() == 1 && decimal(n)[0] as int == 48 + n,
        n >= 10 ==> decimal(n) == decimal(n / 10) + decimal(n % 10),
{
    if n >= 10 {
        assert(decimal(n) =~= decimal(n / 10) + decimal(n % 10));
    }
}

/// Each further digit makes the number ten times as great, and adds what it stands for.
pub proof fn digits_are_read_from_the_left(text: Seq<char>, c: char)
    ensures
        value_of(Seq::<char>::empty()) == 0,
        value_of(text.push(c)) == 10 * value_of(text) + (c as int - 48),
{
    assert(text.push(c).drop_last() =~= text);
}

/// A literal is a number exactly where it is digits alone, at least one, or a sign
/// before such digits. A plus sign makes no difference, a minus sign turns the number
/// around and makes the literal a signed one.
pub proof fn signs_stand_before_digits(text: Seq<char>)
    ensures
        ({
            let digits = text.len() > 0 && forall|i: int|
                0 <= i < text.len() ==> 48 <= #[trigger] text[i] as int <= 57;
            let plus = seq!['+'] + text;
            let minus = seq!['-'] + text;
            &&& digits ==> {
                &&& unsigned_value(text) == Some(value_of(text))
                &&& signed_value(text) == Some(value_of(text))
                &&& unsigned_value(plus) == Some(value_of(text))
                &&& signed_value(plus) == Some(value_of(text))
                &&& signed_value(minus) == Some(-value_of(text))
            }
            &&& !digits ==> {
                &&& unsigned_value(plus) is None
                &&& signed_value(plus) is None
                &&& signed_value(minus) is None
                &&& !(text.len() > 0 && text[0] == '+') ==> unsigned_value(text) is None
                &&& !(text.len() > 0 && (text[0] == '+' || text[0] == '-')) ==> signed_value(
                    text,
                ) is None
            }
            &&& unsigned_value(minus) is None
        }),
{
    let plus = seq!['+'] + text;
    let minus = seq!['-'] + text;
    assert(plus.skip(1) =~= text);
    assert(minus.skip(1) =~= text);
    assert(plus[0] == '+');
    assert(minus[0] == '-');
    assert(!is_digit(minus[0]));
    assert(!is_decimal(minus));
    assert(is_decimal(text) <==> (text.len() > 0 && forall|i: int|
        0 <= i < text.len() ==> 48 <= #[trigger] text[i] as int <= 57)) by {
        if is_decimal(text) {
            assert forall|i: int| 0 <= i < text.len() implies 48 <= #[trigger] text[i] as int
                <= 57 by {
                assert(is_digit(text[i]));
            }
        }
    }
    if is_decimal(text) {
        assert(is_digit(text[0]));
    }
}

/// The two pieces of a text are what stands before and after its only space.
pub proof fn pieces_make_up_the_text(text: Seq<char>)
    ensures
        in_two(text) matches Some((first, second)) ==> {
            &&& text == first + seq![' '] + second
            &&& !first.contains(' ')
            &&& !second.contains(' ')
        },
{
    if in_two(text) is Some {
        let at = text.index_of(' ');
        assert(text[at] == ' ');
        assert(text =~= text.take(at) + seq![' '] + text.skip(at + 1));
    }
}

/// Two texts without a space are the pieces of the text that has them with a space
/// between them.
pub proof fn joined_pieces_are_parted(first: Seq<char>, second: Seq<char>)
    requires
        !first.contains(' '),
        !second.contains(' '),
    ensures
        in_two(first + seq![' '] + second) == Some((first, second)),
{
    let text = first + seq![' '] + second;
    let at = first.len() as int;
    assert(text[at] == ' ');
    assert forall|i: int| 0 <= i < text.len() && i != at implies #[trigger] text[i] != ' ' by {
        if i < at {
            assert(first[i] == text[i]);
        } else {
            assert(second[i - at - 1] == text[i]);
        }
    }
    lemma_in_two(text, at);
    assert(text.take(at) =~= first);
    assert(text.skip(at + 1) =~= second);
}

/// A text has a part wherever it stands, and only if it stands somewhere.
pub proof fn parts_are_found(before: Seq<char>, part: Seq<char>, after: Seq<char>, text: Seq<char>)
    ensures
        has_part(before + part + after, part),
        has_part(text, part) ==> exists|at: int|
            0 <= at <= text.len() - part.len() && #[trigger] text.subrange(at, at + part.len())
                == part,
{
    let whole = before + part + after;
    let at = before.len() as int;
    assert(whole.subrange(at, at + part.len()) =~= part);
}

/// A part occurs in a text that has it, and only there.
pub proof fn parts_that_are_found_occur(text: Seq<char>, part: Seq<char>)
    requires
        part.len() > 0,
    ensures
        occurrences(text, part) > 0 <==> has_part(text, part),
    decreases text.len(),
{
    if text.len() >= part.len() {
        let length = part.len() as int;
        assert(text.subrange(0, length) =~= text.take(length));
        if text.take(length) != part {
            let rest = text.drop_first();
            parts_that_are_found_occur(rest, part);
            if has_part(rest, part) {
                let at = choose|at: int|
                    0 <= at <= rest.len() - part.len() && #[trigger] rest.subrange(
                        at,
                        at + part.len(),
                    ) == part;
                assert(text.subrange(at + 1, at + 1 + part.len()) =~= part);
            }
            if has_part(text, part) {
                let at = choose|at: int|
                    0 <= at <= text.len() - part.len() && #[trigger] text.subrange(
                        at,
                        at + part.len(),
                    ) == part;
                assert(at > 0);
                assert(rest.subrange(at - 1, at - 1 + part.len()) =~= part);
            }
        } else {
            assert(text.subrange(0, 0int + part.len()) == part);
        }
    }
}

/// Behind the first place where a part stands, counting goes on from the part's end.
pub proof fn occurrences_do_not_overlap(text: Seq<char>, part: Seq<char>, at: int)
    requires
        part.len() > 0,
        0 <= at <= text.len() - part.len(),
        text.subrange(at, at + part.len()) == part,
        forall|i: int| 0 <= i < at ==> #[trigger] text.subrange(i, i + part.len()) != part,
    ensures
        occurrences(text, part) == 1 + occurrences(text.skip(at + part.len()), part),
    decreases at,
{
    let length = part.len() as int;
    assert(text.take(length) =~= text.subrange(0, length));
    if at == 0 {
        assert(text.skip(length) =~= text.skip(at + part.len()));
    } else {
        assert(text.subrange(0, 0int + part.len()) != part);
        let rest = text.drop_first();
        assert(rest.subrange(at - 1, at - 1 + part.len()) =~= part);
        assert forall|i: int| 0 <= i < at - 1 implies #[trigger] rest.subrange(i, i + part.len())
            != part by {
            assert(rest.subrange(i, i + part.len()) =~= text.subrange(i + 1, i + 1 + part.len()));
        }
        occurrences_do_not_overlap(rest, part, at - 1);
        assert(rest.skip(at - 1 + part.len()) =~= text.skip(at + part.len()));
    }
}

} // verus!
