//! What the display client reads of the machine it runs on, as far as it is
//! a matter of picking values out of what the system reports.

use crate::alert::same_text;
use crate::decoder::{is_padding, trim_padding, without_padding};
use vstd::prelude::*;
use vstd::string::*;

verus! {

/// Whether a character is a decimal digit.
pub open spec fn is_digit(ch: char) -> bool {
    '0' <= ch && ch <= '9'
}

/// The value of a decimal digit.
pub open spec fn digit_of(ch: char) -> nat {
    (ch as nat - '0' as nat) as nat
}

/// The value of a run of decimal digits.
pub open spec fn digits_value(chars: Seq<char>) -> nat
    decreases chars.len(),
{
    if chars.len() == 0 {
        0
    } else {
        digits_value(chars.drop_last()) * 10 + digit_of(chars.last())
    }
}

/// Whether every character is a decimal digit.
pub open spec fn all_digits(chars: Seq<char>) -> bool {
    forall|i: int| 0 <= i < chars.len() ==> is_digit(#[trigger] chars[i])
}

/// `chars` without the white space at its start.
pub open spec fn without_leading_padding(chars: Seq<char>) -> Seq<char>
    decreases chars.len(),
{
    if chars.len() > 0 && is_padding(chars[0]) {
        without_leading_padding(chars.drop_first())
    } else {
        chars
    }
}

/// The digits of a numeral, behind its sign if it has one.
pub open spec fn numeral_digits(chars: Seq<char>) -> Seq<char> {
    if chars.len() > 0 && (chars[0] == '-' || chars[0] == '+') {
        chars.drop_first()
    } else {
        chars
    }
}

/// The number that a decimal numeral spells, if it is one and fits in 32
/// bits: an optional sign, then one digit or more.
pub open spec fn parsed_integer(chars: Seq<char>) -> Option<int> {
    let digits = numeral_digits(chars);
    let value = if chars.len() > 0 && chars[0] == '-' {
        -(digits_value(digits) as int)
    } else {
        digits_value(digits) as int
    };
    if digits.len() > 0 && all_digits(digits) && i32::MIN <= value <= i32::MAX {
        Some(value)
    } else {
        None
    }
}

/// Thousandths turned into whole units, rounded towards zero.
pub open spec fn whole_units(thousandths: int) -> int {
    if thousandths >= 0 {
        thousandths / 1000
    } else {
        -((-thousandths) / 1000)
    }
}

/// The processor's temperature in degrees, from what the thermal zone
/// reports: thousandths of a degree as a decimal numeral, with white space
/// around it.
pub open spec fn cpu_temperature_of(contents: Seq<char>) -> Option<int> {
    match parsed_integer(without_padding(without_leading_padding(contents))) {
        Some(thousandths) => Some(whole_units(thousandths)),
        None => None,
    }
}

proof fn lemma_digits_value_grows(chars: Seq<char>, shorter: int)
    requires
        0 <= shorter <= chars.len(),
    ensures
        digits_value(chars.subrange(0, shorter)) <= digits_value(chars),
    decreases chars.len(),
{
    if shorter < chars.len() {
        lemma_digits_value_grows(chars.drop_last(), shorter);
        assert(chars.drop_last().subrange(0, shorter) =~= chars.subrange(0, shorter));
    } else {
        assert(chars.subrange(0, shorter) =~= chars);
    }
}

/// The text without the white space at its start.
pub fn trim_leading_padding(text: &str) -> (trimmed: &str)
    ensures
        trimmed@ == without_leading_padding(text@),
{
    let len = text.unicode_len();
    let mut start: usize = 0;
    assert(text@.subrange(0, len as int) =~= text@);
    while start < len && crate::text::is_white_space_char(text.get_char(start))
        invariant
            start <= len,
            len == text@.len(),
            without_leading_padding(text@) == without_leading_padding(
                text@.subrange(start as int, len as int),
            ),
        decreases len - start,
    {
        proof {
            let tail = text@.subrange(start as int, len as int);
            assert(tail[0] == text@[start as int]);
            assert(tail.drop_first() =~= text@.subrange(start + 1, len as int));
        }
        start += 1;
    }
    proof {
        let tail = text@.subrange(start as int, len as int);
        if start < len {
            assert(tail[0] == text@[start as int]);
        }
        assert(without_leading_padding(tail) == tail);
    }
    text.substring_char(start, len)
}

fn digit_value_of(ch: char) -> (value: Option<u64>)
    ensures
        value is Some == is_digit(ch),
        value is Some ==> value->0 == digit_of(ch),
{
    let code = ch as u32;
    if 0x30 <= code && code <= 0x39 {
        Some((code - 0x30) as u64)
    } else {
        None
    }
}

/// Reads a decimal numeral that fits in 32 bits.
pub fn parse_integer(text: &str) -> (number: Option<i32>)
    ensures
        number is Some == parsed_integer(text@) is Some,
        number is Some ==> number->0 == parsed_integer(text@)->0,
{
    let len = text.unicode_len();
    if len == 0 {
        return None;
    }
    let first = text.get_char(0);
    let negative = first == '-';
    let start: usize = if first == '-' || first == '+' { 1 } else { 0 };
    let ghost digits = numeral_digits(text@);
    assert(digits =~= text@.subrange(start as int, len as int));
    if start == len {
        return None;
    }
    let mut value: u64 = 0;
    let mut i: usize = start;
    assert(digits.subrange(0, 0) =~= Seq::<char>::empty());
    while i < len
        invariant
            start <= i <= len,
            len == text@.len(),
            digits == text@.subrange(start as int, len as int),
            digits == numeral_digits(text@),
            value == digits_value(digits.subrange(0, i - start)),
            value <= 2147483648,
            all_digits(digits.subrange(0, i - start)),
        decreases len - i,
    {
        let ch = text.get_char(i);
        proof {
            let next = digits.subrange(0, i + 1 - start);
            assert(next.drop_last() =~= digits.subrange(0, i - start));
            assert(next.last() == ch);
            lemma_digits_value_grows(digits, i + 1 - start);
        }
        match digit_value_of(ch) {
            None => {
                proof {
                    assert(digits[i - start] == ch);
                    assert(!all_digits(digits));
                }
                return None;
            },
            Some(digit) => {
                value = value * 10 + digit;
                proof {
                    let next = digits.subrange(0, i + 1 - start);
                    assert(value == digits_value(next));
                    assert(digits_value(next) <= digits_value(digits));
                }
                if value > 2147483648 {
                    return None;
                }
                assert forall|k: int| 0 <= k < i + 1 - start implies is_digit(
                    #[trigger] digits.subrange(0, i + 1 - start)[k],
                ) by {
                    if k < i - start {
                        assert(digits.subrange(0, i - start)[k] == digits[k]);
                    }
                }
            },
        }
        i += 1;
    }
    proof {
        assert(digits.subrange(0, len - start) =~= digits);
    }
    if negative {
        if value == 2147483648 {
            Some(i32::MIN)
        } else {
            Some(-(value as i32))
        }
    } else if value == 2147483648 {
        None
    } else {
        Some(value as i32)
    }
}

/// The processor's temperature in degrees, from what the thermal zone
/// reports; `None` where that is not a number.
pub fn get_cpu_temperature(contents: &str) -> (degrees: Option<i32>)
    ensures
        degrees is Some == cpu_temperature_of(contents@) is Some,
        degrees is Some ==> degrees->0 == cpu_temperature_of(contents@)->0,
{
    match parse_integer(trim_padding(trim_leading_padding(contents))) {
        Some(thousandths) => Some(thousandths / 1000),
        None => None,
    }
}

/// One entry of the system's list of processes.
#[derive(Clone, Debug, PartialEq, Eq)]
pub struct ProcessEntry {
    pub pid: i32,
    /// The name of the program that the process runs.
    pub name: String,
}

/// The processes, in the order listed, that run the same program as this
/// one and are not this one.
pub open spec fn earlier_instances_of(
    own_pid: i32,
    own_name: Seq<char>,
    processes: Seq<ProcessEntry>,
) -> Seq<i32>
    decreases processes.len(),
{
    if processes.len() == 0 {
        Seq::empty()
    } else {
        let rest = earlier_instances_of(own_pid, own_name, processes.drop_last());
        let last = processes.last();
        if last.name@ == own_name && last.pid != own_pid {
            rest.push(last.pid)
        } else {
            rest
        }
    }
}

/// Picks from the system's list of processes those that are other
/// instances of this program, to be stopped.
pub fn earlier_instances(own_pid: i32, own_name: &str, processes: &Vec<ProcessEntry>) -> (pids:
    Vec<i32>)
    ensures
        pids@ == earlier_instances_of(own_pid, own_name@, processes@),
{
    let mut pids: Vec<i32> = Vec::new();
    let mut i: usize = 0;
    assert(processes@.subrange(0, 0) =~= Seq::<ProcessEntry>::empty());
    while i < processes.len()
        invariant
            i <= processes.len(),
            pids@ == earlier_instances_of(own_pid, own_name@, processes@.subrange(0, i as int)),
        decreases processes.len() - i,
    {
        proof {
            let next = processes@.subrange(0, i + 1);
            assert(next.drop_last() =~= processes@.subrange(0, i as int));
            assert(next.last() == processes@[i as int]);
        }
        if same_text(processes[i].name.as_str(), own_name) && processes[i].pid != own_pid {
            pids.push(processes[i].pid);
        }
        i += 1;
    }
    assert(processes@.subrange(0, i as int) =~= processes@);
    pids
}

/// One network interface as the system reports it.
#[derive(Clone, Debug, PartialEq, Eq)]
pub struct Interface {
    pub is_up: bool,
    pub is_loopback: bool,
    /// The interface's IPv4 addresses as they print, in the order reported.
    pub ipv4_addresses: Vec<String>,
}

/// What shows in place of an address while the machine has none.
pub open spec fn no_address_text() -> Seq<char> {
    "bad Local IP address"@
}

/// The machine's address: the last IPv4 address of the last interface that
/// is up, is not the loopback and has one; without any, words that say so.
pub open spec fn local_address_of(interfaces: Seq<Interface>) -> Seq<char>
    decreases interfaces.len(),
{
    if interfaces.len() == 0 {
        no_address_text()
    } else {
        let last = interfaces.last();
        if last.is_up && !last.is_loopback && last.ipv4_addresses@.len() > 0 {
            last.ipv4_addresses@.last()@
        } else {
            local_address_of(interfaces.drop_last())
        }
    }
}

/// Picks the machine's address from its network interfaces.
pub fn get_local_ip_address(interfaces: &Vec<Interface>) -> (address: String)
    ensures
        address@ == local_address_of(interfaces@),
{
    let mut i: usize = interfaces.len();
    assert(interfaces@.subrange(0, i as int) =~= interfaces@);
    while i > 0
        invariant
            i <= interfaces.len(),
            local_address_of(interfaces@) == local_address_of(interfaces@.subrange(0, i as int)),
        decreases i,
    {
        let candidate = &interfaces[i - 1];
        proof {
            let head = interfaces@.subrange(0, i as int);
            assert(head.last() == interfaces@[i - 1]);
            assert(head.drop_last() =~= interfaces@.subrange(0, i - 1));
        }
        let count = candidate.ipv4_addresses.len();
        if candidate.is_up && !candidate.is_loopback && count > 0 {
            return candidate.ipv4_addresses[count - 1].clone();
        }
        i -= 1;
    }
    "bad Local IP address".to_string()
}

/// Whether `pattern` stands in `chars` at the index `at`.
pub open spec fn matches_at(chars: Seq<char>, pattern: Seq<char>, at: int) -> bool {
    0 <= at && at + pattern.len() <= chars.len() && chars.subrange(at, at + pattern.len())
        == pattern
}

/// The first index from `from` on at which `pattern` stands in `chars`.
pub open spec fn first_match(chars: Seq<char>, pattern: Seq<char>, from: int) -> Option<int>
    decreases chars.len() + 1 - from,
{
    if from < 0 || from + pattern.len() > chars.len() {
        None
    } else if matches_at(chars, pattern, from) {
        Some(from)
    } else {
        first_match(chars, pattern, from + 1)
    }
}

/// What shows in place of the signal's strength where the report names none.
pub open spec fn no_strength_text() -> Seq<char> {
    "er2"@
}

/// Number of characters of the interface's name that are passed over
/// before the signal's level is looked for.
pub const INTERFACE_NAME_LEN: usize = 5;

/// The strength of the wireless signal from the system's report: behind the
/// name of the first wireless interface, what stands from the first minus
/// sign up to the next full stop. The level is always below zero.
pub open spec fn wifi_strength_of(report: Seq<char>) -> Seq<char> {
    match first_match(report, "wlan"@, 0) {
        Some(name) => match first_match(report, "-"@, name + INTERFACE_NAME_LEN) {
            Some(minus) => match first_match(report, "."@, minus) {
                Some(stop) => report.subrange(minus, stop),
                None => no_strength_text(),
            },
            None => no_strength_text(),
        },
        None => no_strength_text(),
    }
}

proof fn lemma_first_match_range(chars: Seq<char>, pattern: Seq<char>, from: int)
    ensures
        first_match(chars, pattern, from) is Some ==> from <= first_match(chars, pattern, from)->0
            && first_match(chars, pattern, from)->0 + pattern.len() <= chars.len(),
    decreases chars.len() + 1 - from,
{
    if from < 0 || from + pattern.len() > chars.len() {
    } else if matches_at(chars, pattern, from) {
    } else {
        lemma_first_match_range(chars, pattern, from + 1);
    }
}

fn stands_at(text: &str, pattern: &str, at: usize) -> (found: bool)
    requires
        at + pattern@.len() <= text@.len(),
    ensures
        found == matches_at(text@, pattern@, at as int),
{
    let len = pattern.unicode_len();
    let total = text.unicode_len();
    let mut i: usize = 0;
    assert(text@.subrange(at as int, at + 0) =~= pattern@.subrange(0, 0));
    while i < len
        invariant
            i <= len,
            len == pattern@.len(),
            total == text@.len(),
            at + len <= text@.len(),
            text@.subrange(at as int, at + i) == pattern@.subrange(0, i as int),
        decreases len - i,
    {
        if text.get_char(at + i) != pattern.get_char(i) {
            proof {
                assert(text@.subrange(at as int, at + len)[i as int] != pattern@[i as int]);
            }
            return false;
        }
        proof {
            assert(text@.subrange(at as int, at + i + 1) =~= text@.subrange(at as int, at + i).push(
                text@[at + i],
            ));
            assert(pattern@.subrange(0, i + 1) =~= pattern@.subrange(0, i as int).push(
                pattern@[i as int],
            ));
        }
        i += 1;
    }
    assert(pattern@.subrange(0, len as int) =~= pattern@);
    true
}

/// Finds the first place from `from` on at which `pattern` stands in `text`,
/// counted in characters.
pub fn find_from(text: &str, pattern: &str, from: usize) -> (place: Option<usize>)
    ensures
        place is Some == first_match(text@, pattern@, from as int) is Some,
        place is Some ==> place->0 == first_match(text@, pattern@, from as int)->0,
{
    let len = text.unicode_len();
    let width = pattern.unicode_len();
    if width > len {
        return None;
    }
    if from > len - width {
        return None;
    }
    let mut at: usize = from;
    loop
        invariant
            width <= len,
            len == text@.len(),
            width == pattern@.len(),
            from <= at <= len - width,
            first_match(text@, pattern@, from as int) == first_match(
                text@,
                pattern@,
                at as int,
            ),
        decreases len - at,
    {
        if stands_at(text, pattern, at) {
            return Some(at);
        }
        if at == len - width {
            assert(first_match(text@, pattern@, at + 1) is None);
            return None;
        }
        at += 1;
    }
}

/// Picks the strength of the wireless signal out of the system's report.
pub fn get_wifi_signal_strength(report: &str) -> (strength: String)
    ensures
        strength@ == wifi_strength_of(report@),
{
    proof {
        lemma_first_match_range(report@, "wlan"@, 0);
    }
    let found = match find_from(report, "wlan", 0) {
        Some(name) => {
            proof {
                reveal_strlit("wlan");
                lemma_first_match_range(report@, "-"@, name + INTERFACE_NAME_LEN);
            }
            if report.unicode_len() - name < INTERFACE_NAME_LEN {
                None
            } else {
                match find_from(report, "-", name + INTERFACE_NAME_LEN) {
                    Some(minus) => {
                        proof {
                            lemma_first_match_range(report@, "."@, minus as int);
                        }
                        match find_from(report, ".", minus) {
                            Some(stop) => Some((minus, stop)),
                            None => None,
                        }
                    },
                    None => None,
                }
            }
        },
        None => None,
    };
    match found {
        Some((minus, stop)) => report.substring_char(minus, stop).to_string(),
        None => "er2".to_string(),
    }
}

} // verus!
