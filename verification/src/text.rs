//! Text as sequences of characters.

use vstd::prelude::*;

verus! {

/// `String::push` appends one character at the end.
pub assume_specification[ String::push ](s: &mut String, c: char)
    ensures
        final(s)@ == old(s)@.push(c),
;

/// The characters of `text`, in order.
pub fn characters(text: &str) -> (v: Vec<char>)
    ensures
        v@ == text@,
{
    let mut v: Vec<char> = Vec::new();
    for c in it: text.chars()
        invariant
            v@ == it.seq().take(it.index() as int),
            it.seq() == text@,
    {
        v.push(c);
    }
    v
}

/// Do the two texts hold the same characters?
pub fn same_text(a: &str, b: &str) -> (same: bool)
    ensures
        same == (a@ == b@),
{
    let x = characters(a);
    let y = characters(b);
    if x.len() != y.len() {
        return false;
    }
    let mut i: usize = 0;
    while i < x.len()
        invariant
            x@ == a@,
            y@ == b@,
            x.len() == y.len(),
            0 <= i <= x.len(),
            forall|j: int| 0 <= j < i ==> x@[j] == y@[j],
        decreases x.len() - i,
    {
        if x[i] != y[i] {
            return false;
        }
        i += 1;
    }
    assert(a@ =~= b@);
    true
}

/// An optional text as a sequence of characters.
pub open spec fn option_text(text: Option<String>) -> Option<Seq<char>> {
    match text {
        Some(text) => Some(text@),
        None => None,
    }
}

/// An optional borrowed text as a sequence of characters.
pub open spec fn option_str(text: Option<&str>) -> Option<Seq<char>> {
    match text {
        Some(text) => Some(text@),
        None => None,
    }
}

/// Do the two optional texts hold the same characters?
pub fn same_option(a: &Option<String>, b: &Option<String>) -> (same: bool)
    ensures
        same == (option_text(*a) == option_text(*b)),
{
    match (a, b) {
        (Some(x), Some(y)) => same_text(x.as_str(), y.as_str()),
        (None, None) => true,
        _ => false,
    }
}

/// `a` comes strictly before `b` in the order of code points: at the first
/// place where they differ, `a` has the smaller character or has ended.
pub open spec fn precedes(a: Seq<char>, b: Seq<char>) -> bool {
    exists|k: int| #[trigger] differs_at(a, b, k)
}

/// `a` and `b` agree before position `k`, and there `a` is the smaller.
pub open spec fn differs_at(a: Seq<char>, b: Seq<char>, k: int) -> bool {
    &&& 0 <= k <= a.len()
    &&& k < b.len()
    &&& forall|j: int| 0 <= j < k ==> a[j] == b[j]
    &&& k < a.len() ==> a[k] < b[k]
}

/// No text comes before itself.
pub proof fn lemma_precedes_irreflexive(a: Seq<char>)
    ensures
        !precedes(a, a),
{
}

/// The order of texts is transitive.
pub proof fn lemma_precedes_transitive(a: Seq<char>, b: Seq<char>, c: Seq<char>)
    requires
        precedes(a, b),
        precedes(b, c),
    ensures
        precedes(a, c),
{
    let i = choose|k: int| #[trigger] differs_at(a, b, k);
    let j = choose|k: int| #[trigger] differs_at(b, c, k);
    if i <= j {
        assert(differs_at(a, c, i));
    } else {
        assert(differs_at(a, c, j));
    }
}

/// Of two different texts, one comes before the other.
pub proof fn lemma_precedes_total(a: Seq<char>, b: Seq<char>)
    ensures
        precedes(a, b) || precedes(b, a) || a == b,
{
    lemma_first_difference(a, b, 0);
}

proof fn lemma_first_difference(a: Seq<char>, b: Seq<char>, k: int)
    requires
        0 <= k <= a.len(),
        k <= b.len(),
        forall|j: int| 0 <= j < k ==> a[j] == b[j],
    ensures
        precedes(a, b) || precedes(b, a) || a == b,
    decreases a.len() - k,
{
    if k == a.len() && k == b.len() {
        assert(a =~= b);
    } else if k == a.len() {
        assert(differs_at(a, b, k));
    } else if k == b.len() {
        assert(differs_at(b, a, k));
    } else if a[k] == b[k] {
        lemma_first_difference(a, b, k + 1);
    } else if a[k] < b[k] {
        assert(differs_at(a, b, k));
    } else {
        assert(differs_at(b, a, k));
    }
}

/// Does `a` come strictly before `b` in the order of code points?
pub fn comes_before(a: &str, b: &str) -> (before: bool)
    ensures
        before == precedes(a@, b@),
{
    let x = characters(a);
    let y = characters(b);
    let mut i: usize = 0;
    while i < x.len() && i < y.len() && x[i] == y[i]
        invariant
            x@ == a@,
            y@ == b@,
            0 <= i <= x.len(),
            i <= y.len(),
            forall|j: int| 0 <= j < i ==> x@[j] == y@[j],
        decreases x.len() - i,
    {
        i += 1;
    }
    let before = i < y.len() && (i == x.len() || x[i] < y[i]);
    proof {
        if before {
            assert(differs_at(a@, b@, i as int));
        } else {
            assert forall|k: int| !differs_at(a@, b@, k) by {
                if differs_at(a@, b@, k) {
                    if k < i {
                        assert(a@[k] == b@[k]);
                    } else if k > i {
                        assert(a@[i as int] == b@[i as int]);
                    }
                }
            }
        }
    }
    before
}

/// The code of `c` with the ASCII capitals folded onto the small letters.
pub open spec fn folded(c: char) -> u32 {
    if 'A' <= c && c <= 'Z' {
        (c as u32 + 32) as u32
    } else {
        c as u32
    }
}

/// Equal up to the case of ASCII letters.
pub open spec fn equal_ignoring_case(a: Seq<char>, b: Seq<char>) -> bool {
    &&& a.len() == b.len()
    &&& forall|i: int| 0 <= i < a.len() ==> folded(#[trigger] a[i]) == folded(b[i])
}

fn fold(c: char) -> (code: u32)
    ensures
        code == folded(c),
{
    if 'A' <= c && c <= 'Z' {
        c as u32 + 32
    } else {
        c as u32
    }
}

/// Are the two texts equal up to the case of ASCII letters?
pub fn same_ignoring_case(a: &str, b: &str) -> (same: bool)
    ensures
        same == equal_ignoring_case(a@, b@),
{
    let x = characters(a);
    let y = characters(b);
    if x.len() != y.len() {
        return false;
    }
    let mut i: usize = 0;
    while i < x.len()
        invariant
            x@ == a@,
            y@ == b@,
            x.len() == y.len(),
            0 <= i <= x.len(),
            forall|j: int| 0 <= j < i ==> folded(#[trigger] x@[j]) == folded(y@[j]),
        decreases x.len() - i,
    {
        if fold(x[i]) != fold(y[i]) {
            assert(folded(a@[i as int]) != folded(b@[i as int]));
            return false;
        }
        i += 1;
    }
    true
}

/// Does `text` begin with `prefix`?
pub fn begins_with(text: &str, prefix: &str) -> (begins: bool)
    ensures
        begins == prefix@.is_prefix_of(text@),
{
    let x = characters(text);
    let y = characters(prefix);
    if y.len() > x.len() {
        return false;
    }
    let mut i: usize = 0;
    while i < y.len()
        invariant
            x@ == text@,
            y@ == prefix@,
            y.len() <= x.len(),
            0 <= i <= y.len(),
            forall|j: int| 0 <= j < i ==> x@[j] == y@[j],
        decreases y.len() - i,
    {
        if x[i] != y[i] {
            assert(text@.subrange(0, prefix@.len() as int)[i as int] != prefix@[i as int]);
            return false;
        }
        i += 1;
    }
    assert(prefix@ =~= text@.subrange(0, prefix@.len() as int));
    true
}

/// The decimal digit for a value below ten.
pub open spec fn digit(value: nat) -> char {
    (48 + value) as char
}

/// A number written in decimal, without leading zeros.
pub open spec fn decimal(value: nat) -> Seq<char>
    decreases value,
{
    if value < 10 {
        seq![digit(value)]
    } else {
        decimal(value / 10).push(digit(value % 10))
    }
}

/// A number written in decimal, with a leading zero where it has one digit.
pub open spec fn two_digits(value: nat) -> Seq<char> {
    if value < 10 {
        seq!['0', digit(value)]
    } else {
        decimal(value)
    }
}

/// A decimal form has at least one character, and all of them are digits.
pub proof fn lemma_decimal_digits(value: nat)
    ensures
        decimal(value).len() >= 1,
        forall|i: int| 0 <= i < decimal(value).len() ==> '0' <= #[trigger] decimal(value)[i] <= '9',
    decreases value,
{
    if value >= 10 {
        lemma_decimal_digits(value / 10);
    }
}

/// Different numbers have different decimal forms.
pub proof fn lemma_decimal_injective(a: nat, b: nat)
    ensures
        decimal(a) == decimal(b) ==> a == b,
    decreases a,
{
    lemma_decimal_digits(a / 10);
    lemma_decimal_digits(b / 10);
    if decimal(a) == decimal(b) {
        assert(decimal(a).last() == decimal(b).last());
        assert(a % 10 == b % 10);
        if a >= 10 && b >= 10 {
            assert(decimal(a).drop_last() =~= decimal(a / 10));
            assert(decimal(b).drop_last() =~= decimal(b / 10));
            lemma_decimal_injective(a / 10, b / 10);
        }
    }
}

/// Append the decimal form of `value`.
pub fn push_decimal(text: &mut String, value: u64)
    ensures
        final(text)@ == old(text)@ + decimal(value as nat),
    decreases value,
{
    if value >= 10 {
        push_decimal(text, value / 10);
    }
    let last: u8 = (value % 10) as u8;
    text.push((48u8 + last) as char);
    assert(text@ =~= old(text)@ + decimal(value as nat));
}

/// Append the decimal form of `value`, padded to two digits.
pub fn push_two_digits(text: &mut String, value: u32)
    ensures
        final(text)@ == old(text)@ + two_digits(value as nat),
{
    if value < 10 {
        text.push('0');
    }
    push_decimal(text, value as u64);
    assert(text@ =~= old(text)@ + two_digits(value as nat));
}

/// Two texts are compared at the first place where they differ: whatever stands
/// before it is shared, and whatever stands behind it does not matter.
pub proof fn law_first_difference_decides(
    shared: Seq<char>,
    smaller: char,
    larger: char,
    rest: Seq<char>,
    other_rest: Seq<char>,
)
    requires
        smaller < larger,
    ensures
        precedes(shared.push(smaller) + rest, shared.push(larger) + other_rest),
        !precedes(shared.push(larger) + other_rest, shared.push(smaller) + rest),
{
    let a = shared.push(smaller) + rest;
    let b = shared.push(larger) + other_rest;
    assert(differs_at(a, b, shared.len() as int));
    if precedes(b, a) {
        lemma_precedes_transitive(a, b, a);
        lemma_precedes_irreflexive(a);
    }
}

/// A text comes before every longer one that begins with it.
pub proof fn law_beginning_comes_first(text: Seq<char>, next: char, rest: Seq<char>)
    ensures
        precedes(text, text.push(next) + rest),
        !precedes(text.push(next) + rest, text),
{
    let longer = text.push(next) + rest;
    assert(differs_at(text, longer, text.len() as int));
    if precedes(longer, text) {
        lemma_precedes_transitive(text, longer, text);
        lemma_precedes_irreflexive(text);
    }
}

/// Two characters that differ, if at all, in being the capital and the small
/// form of one ASCII letter.
pub open spec fn same_letter(a: char, b: char) -> bool {
    ||| a == b
    ||| 'A' <= a && a <= 'Z' && b as int == a as int + 32
    ||| 'A' <= b && b <= 'Z' && a as int == b as int + 32
}

/// Texts are equal up to case exactly when they are equally long and differ in
/// the case of ASCII letters alone.
pub proof fn law_case_is_ignored_for_ascii_letters_only(a: Seq<char>, b: Seq<char>)
    ensures
        equal_ignoring_case(a, b) <==> a.len() == b.len() && (forall|i: int|
            0 <= i < a.len() ==> same_letter(#[trigger] a[i], b[i])),
{
    assert forall|i: int| 0 <= i < a.len() && a.len() == b.len() implies (folded(
        #[trigger] a[i],
    ) == folded(b[i]) <==> same_letter(a[i], b[i])) by {
        lemma_folding_joins_the_two_forms(a[i], b[i]);
    }
}

/// Folding makes two characters equal exactly when they are one letter.
proof fn lemma_folding_joins_the_two_forms(a: char, b: char)
    ensures
        folded(a) == folded(b) <==> same_letter(a, b),
{
}

/// The number that decimal digits write.
pub open spec fn number_written(digits: Seq<char>) -> int
    decreases digits.len(),
{
    if digits.len() == 0 {
        0
    } else {
        10 * number_written(digits.drop_last()) + (digits.last() as int - '0' as int)
    }
}

/// The decimal form of a number is made of digits, writes that number, and has
/// no zero in front of another digit.
pub proof fn law_decimal_writes_the_number(value: nat)
    ensures
        number_written(decimal(value)) == value,
        forall|i: int| 0 <= i < decimal(value).len() ==> '0' <= #[trigger] decimal(value)[i] <= '9',
        decimal(value).len() >= 1,
        decimal(value).len() > 1 ==> decimal(value)[0] != '0',
        decimal(value).len() == 1 <==> value < 10,
    decreases value,
{
    lemma_decimal_digits(value);
    if value >= 10 {
        law_decimal_writes_the_number(value / 10);
        assert(decimal(value).drop_last() =~= decimal(value / 10));
        assert(decimal(value)[0] == decimal(value / 10)[0]);
        if value / 10 < 10 {
            assert(number_written(decimal(value / 10)) == value / 10);
            assert(decimal(value / 10) =~= seq![digit(value / 10)]);
        }
    } else {
        assert(decimal(value).drop_last() =~= Seq::<char>::empty());
        assert(number_written(Seq::<char>::empty()) == 0);
    }
}

/// Padding puts one zero in front of a single digit, and changes nothing else.
pub proof fn law_padding_is_one_zero(value: nat)
    ensures
        value < 10 ==> two_digits(value) == seq!['0'] + decimal(value),
        value >= 10 ==> two_digits(value) == decimal(value),
        number_written(two_digits(value)) == value,
        two_digits(value).len() >= 2,
{
    law_decimal_writes_the_number(value);
    if value < 10 {
        assert(two_digits(value) =~= seq!['0'] + decimal(value));
        assert(two_digits(value).drop_last() =~= seq!['0']);
        assert(seq!['0'].drop_last() =~= Seq::<char>::empty());
        assert(number_written(Seq::<char>::empty()) == 0);
        assert(number_written(seq!['0']) == 0);
    }
}

/// An optional text is absent exactly where there is none, and otherwise the
/// text itself.
pub proof fn law_optional_texts(owned: String, borrowed: &str)
    ensures
        option_text(Some(owned)) == Some(owned@),
        option_text(None) is None,
        option_str(Some(borrowed)) == Some(borrowed@),
        option_str(None) is None,
{
}

} // verus!
