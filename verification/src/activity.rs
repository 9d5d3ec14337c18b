//! The activity list of a session: a short audit trail of what the session
//! did and when. It is written for the operator and never read back to decide
//! anything.

use crate::types::{CDState, CDStateView};
use arraydeque::{ArrayDeque, Wrapping};
use heapless::consts::U60;
use vstd::prelude::*;
use vstd::string::StringExecFns;
use vstd::utf8::{encode_utf8, is_ascii_chars, is_ascii_chars_encode_utf8};

verus! {

/// How many entries the activity list keeps.
pub const ENTRY_COUNT: usize = 8;

/// How many bytes of text one entry can store.
pub const ENTRY_BYTES: usize = 60;

/// How long a message may be so that it fits behind any time stamp: a time
/// stamp has at most ten digits and the separator has three characters.
pub const MESSAGE_BYTES: usize = 47;

/// The activity list: the most recent entries, oldest first. It is an
/// `arraydeque::ArrayDeque` over an array of eight `heapless::String`s of
/// sixty bytes each, with the wrapping behavior, so it never allocates. The
/// verifier does not look inside: all it knows of a list is what the functions
/// below state of `entries`.
#[verifier::external_body]
pub struct ActivityList {
    ring: ArrayDeque<[heapless::String<U60>; 8], Wrapping>,
}

/// The elements of the ring from front to back, each as its text.
pub uninterp spec fn entries(list: ActivityList) -> Seq<Seq<char>>;

/// Calls `ArrayDeque::new`, which makes a ring without elements.
#[verifier::external_body]
pub(crate) fn new_list() -> (list: ActivityList)
    ensures
        entries(list) == Seq::<Seq<char>>::empty(),
{
    ActivityList { ring: ArrayDeque::new() }
}

/// What a list holds after one more entry was appended: the new entry comes
/// last, and a list that was full loses its oldest entry.
#[verifier::opaque]
pub open spec fn appended(before: Seq<Seq<char>>, line: Seq<char>) -> Seq<Seq<char>> {
    if before.len() < ENTRY_COUNT {
        before.push(line)
    } else {
        before.drop_first().push(line)
    }
}

/// An appended entry comes last. Before it the list holds what it held,
/// without its oldest entry where it was full, so that it never holds more
/// than eight.
pub proof fn lemma_appended(before: Seq<Seq<char>>, line: Seq<char>)
    requires
        before.len() <= ENTRY_COUNT,
    ensures
        appended(before, line).len() <= ENTRY_COUNT,
        appended(before, line).last() == line,
        appended(before, line).drop_last() == if before.len() < ENTRY_COUNT {
            before
        } else {
            before.drop_first()
        },
{
    reveal(appended);
}

/// Calls `ArrayDeque::push_back` of the wrapping ring with the line as a
/// `heapless::String`. The push removes the front element when the ring is
/// full and then writes the new element behind the last one. The conversion
/// stops the program when the text does not fit in sixty bytes, so such a
/// text is not admitted.
#[verifier::external_body]
pub(crate) fn push_back(list: &mut ActivityList, line: &str)
    requires
        encode_utf8(line@).len() <= ENTRY_BYTES,
    ensures
        entries(*final(list)) == appended(entries(*old(list)), line@),
{
    list.ring.push_back(heapless::String::from(line));
}

/// Calls `ArrayDeque::len`, the number of elements in the ring, which is at
/// most the length of the array that backs it.
#[verifier::external_body]
pub(crate) fn len(list: &ActivityList) -> (count: usize)
    ensures
        count == entries(*list).len(),
        count <= ENTRY_COUNT,
{
    list.ring.len()
}

/// Calls `ArrayDeque::get`, which gives the element at `index` counted from
/// the front, or nothing when `index` is not below the length. The element is
/// handed out as a `String` of the same text.
#[verifier::external_body]
pub(crate) fn get(list: &ActivityList, index: usize) -> (line: Option<String>)
    ensures
        index < entries(*list).len() ==> line.is_some() && line.unwrap()@ == entries(*list)[
            index as int
        ],
        index >= entries(*list).len() ==> line.is_none(),
{
    match list.ring.get(index) {
        Some(item) => Some(String::from(item.as_str())),
        None => None,
    }
}

/// The character for one decimal digit.
pub open spec fn digit_char(digit: nat) -> char {
    if digit == 0 {
        '0'
    } else if digit == 1 {
        '1'
    } else if digit == 2 {
        '2'
    } else if digit == 3 {
        '3'
    } else if digit == 4 {
        '4'
    } else if digit == 5 {
        '5'
    } else if digit == 6 {
        '6'
    } else if digit == 7 {
        '7'
    } else if digit == 8 {
        '8'
    } else {
        '9'
    }
}

/// A number in decimal, without sign, padding or leading zeros.
pub open spec fn decimal_text(value: nat) -> Seq<char>
    decreases value,
{
    if value < 10 {
        seq![digit_char(value)]
    } else {
        decimal_text(value / 10).push(digit_char(value % 10))
    }
}

/// Calls ufmt's `uDisplay::fmt` for `u32` on a formatter over the string.
/// It writes the decimal digits of the value, most significant first, behind
/// what the string holds; writing to a `String` cannot fail.
#[verifier::external_body]
pub(crate) fn write_decimal(text: &mut String, value: u32)
    ensures
        final(text)@ == old(text)@ + decimal_text(value as nat),
{
    ufmt::uDisplay::fmt(&value, &mut ufmt::Formatter::new(text)).ok();
}

/// What stands between the time stamp and the text of an entry.
pub open spec fn separator() -> Seq<char> {
    seq![' ', '-', ' ']
}

/// The text of an entry: the time stamp in decimal, a separator and the
/// message. An entry stores at most sixty bytes; the separator and the message
/// are written in one piece, so where they do not fit behind the time stamp
/// the entry keeps the time stamp alone.
#[verifier::opaque]
pub open spec fn entry_text(elapsed: u32, text: Seq<char>) -> Seq<char> {
    let stamp = decimal_text(elapsed as nat);
    if stamp.len() + separator().len() + encode_utf8(text).len() <= ENTRY_BYTES {
        stamp + separator() + text
    } else {
        stamp
    }
}

/// The state after an entry with this time stamp and message was appended
/// to the activity list.
pub open spec fn logged(state: CDStateView, elapsed: u32, text: Seq<char>) -> CDStateView {
    CDStateView { activity_list: appended(state.activity_list, entry_text(elapsed, text)), ..state }
}

/// A decimal number is made of ASCII digits, and a number below
/// `10^digits` has at most `digits` of them.
pub proof fn lemma_decimal_text(value: nat, digits: nat)
    requires
        digits >= 1,
        value < vstd::arithmetic::power::pow(10, digits),
    ensures
        is_ascii_chars(decimal_text(value)),
        1 <= decimal_text(value).len() <= digits,
    decreases value,
{
    vstd::arithmetic::power::lemma_pow1(10);
    if value >= 10 {
        assert(digits >= 2);
        vstd::arithmetic::power::lemma_pow_adds(10, 1, (digits - 1) as nat);
        assert(vstd::arithmetic::power::pow(10, digits) == 10 * vstd::arithmetic::power::pow(
            10,
            (digits - 1) as nat,
        ));
        assert(value / 10 < vstd::arithmetic::power::pow(10, (digits - 1) as nat));
        lemma_decimal_text(value / 10, (digits - 1) as nat);
    }
}

/// Every `u32` has at most ten decimal digits.
pub proof fn lemma_decimal_text_u32(value: u32)
    ensures
        is_ascii_chars(decimal_text(value as nat)),
        1 <= decimal_text(value as nat).len() <= 10,
{
    assert(vstd::arithmetic::power::pow(10, 10) == 10_000_000_000) by {
        reveal_with_fuel(vstd::arithmetic::power::pow, 11);
    }
    lemma_decimal_text(value as nat, 10);
}

/// The UTF-8 form of two texts in a row is the two UTF-8 forms in a row.
pub proof fn lemma_encode_utf8_concat(first: Seq<char>, second: Seq<char>)
    ensures
        encode_utf8(first + second) == encode_utf8(first) + encode_utf8(second),
    decreases first.len(),
{
    if first.len() == 0 {
        assert(first + second == second);
    } else {
        assert((first + second).drop_first() == first.drop_first() + second);
        lemma_encode_utf8_concat(first.drop_first(), second);
    }
}

/// Appends an entry to the activity list: the time stamp, then the message.
pub fn add_to_activity_list(cd_state: &mut CDState, elapsed: u32, text: &str)
    ensures
        final(cd_state)@ == logged(old(cd_state)@, elapsed, text@),
{
    let mut line = String::new();
    write_decimal(&mut line, elapsed);
    let ghost stamp = decimal_text(elapsed as nat);
    proof {
        reveal(entry_text);
        reveal_strlit(" - ");
        assert(" - "@ == separator());
        assert(line@ == stamp);
        lemma_decimal_text_u32(elapsed);
        is_ascii_chars_encode_utf8(stamp);
        assert(is_ascii_chars(separator()));
        is_ascii_chars_encode_utf8(separator());
        lemma_encode_utf8_concat(stamp, separator());
        lemma_encode_utf8_concat(stamp + separator(), text@);
    }
    let used = line.as_str().as_bytes().len();
    if text.as_bytes().len() <= ENTRY_BYTES - 3 - used {
        line.append(" - ");
        line.append(text);
        assert(line@ == stamp + separator() + text@);
    }
    assert(line@ == entry_text(elapsed, text@));
    push_back(&mut cd_state.activity_list, line.as_str());
}

/// Whether a message fits behind every time stamp: it is made of ASCII
/// characters, at most forty-seven of them.
#[verifier::opaque]
pub open spec fn short_message(text: Seq<char>) -> bool {
    is_ascii_chars(text) && text.len() <= MESSAGE_BYTES
}

/// An entry in full: the time stamp in decimal, the separator and the
/// message.
#[verifier::opaque]
pub open spec fn entry_line(elapsed: u32, text: Seq<char>) -> Seq<char> {
    decimal_text(elapsed as nat) + separator() + text
}

/// The state after an entry in full was appended to the activity list.
pub open spec fn noted(state: CDStateView, elapsed: u32, text: Seq<char>) -> CDStateView {
    CDStateView { activity_list: appended(state.activity_list, entry_line(elapsed, text)), ..state }
}

/// A short message fits behind every time stamp, so the entry holds it in
/// full.
pub proof fn lemma_short_message_is_kept(elapsed: u32, text: Seq<char>)
    requires
        short_message(text),
    ensures
        entry_text(elapsed, text) == entry_line(elapsed, text),
{
    reveal(entry_text);
    reveal(entry_line);
    reveal(short_message);
    lemma_decimal_text_u32(elapsed);
    is_ascii_chars_encode_utf8(text);
}

/// Appends an entry with a message that is short enough to be kept in
/// full.
pub(crate) fn note(cd_state: &mut CDState, elapsed: u32, text: &str)
    requires
        short_message(text@),
    ensures
        final(cd_state)@ == noted(old(cd_state)@, elapsed, text@),
{
    proof {
        lemma_short_message_is_kept(elapsed, text@);
    }
    add_to_activity_list(cd_state, elapsed, text);
}

/// The entries of the activity list, oldest first.
pub fn activity_lines(cd_state: &CDState) -> (lines: Vec<String>)
    ensures
        lines@.len() == cd_state@.activity_list.len(),
        lines@.len() <= ENTRY_COUNT,
        forall|i: int| 0 <= i < lines@.len() ==> (#[trigger] lines@[i])@ == cd_state@.activity_list[i],
{
    let count = len(&cd_state.activity_list);
    let mut lines: Vec<String> = Vec::new();
    let mut index: usize = 0;
    while index < count
        invariant
            index <= count,
            count == entries(cd_state.activity_list).len(),
            lines@.len() == index,
            forall|i: int|
                0 <= i < index ==> (#[trigger] lines@[i])@ == entries(cd_state.activity_list)[i],
        decreases count - index,
    {
        if let Some(line) = get(&cd_state.activity_list, index) {
            lines.push(line);
        }
        index = index + 1;
    }
    lines
}

} // verus!
