//! Serving readings to connected readers: the list of readers, the framing
//! of records, the log's flush times and the commands that readers send.

use vstd::prelude::*;
use vstd::string::{StrSliceExecFns, StringExecFns};

verus! {

/// The pattern of the command that sets a session's energy cap.
pub const SET_ENERGY_PATTERN: &'static str = "set-energy ([0-9]+)";

/// The items whose position is not among the failed ones, in their order.
pub open spec fn surviving<T>(items: Seq<T>, failed: Set<int>) -> Seq<T>
    decreases items.len(),
{
    if items.len() == 0 {
        items
    } else if failed.contains(items.len() - 1) {
        surviving(items.drop_last(), failed)
    } else {
        surviving(items.drop_last(), failed).push(items.last())
    }
}

/// The positions that a list names.
pub open spec fn positions(failed: Seq<usize>) -> Set<int> {
    Set::new(|i: int| exists|k: int| 0 <= k < failed.len() && #[trigger] failed[k] == i)
}

/// The positions rise strictly and lie within a list of the given length.
pub open spec fn rising_within(failed: Seq<usize>, len: nat) -> bool {
    &&& forall|i: int, j: int| 0 <= i < j < failed.len() ==> failed[i] < failed[j]
    &&& forall|i: int| 0 <= i < failed.len() ==> #[trigger] failed[i] < len
}

proof fn lemma_surviving_looks_within<T>(items: Seq<T>, a: Set<int>, b: Set<int>)
    requires
        forall|i: int| 0 <= i < items.len() ==> a.contains(i) == b.contains(i),
    ensures
        surviving(items, a) == surviving(items, b),
    decreases items.len(),
{
    if items.len() > 0 {
        lemma_surviving_looks_within(items.drop_last(), a, b);
    }
}

proof fn lemma_remove_largest<T>(items: Seq<T>, failed: Set<int>, m: int)
    requires
        0 <= m < items.len(),
        failed.contains(m),
        forall|i: int| failed.contains(i) ==> i <= m,
    ensures
        surviving(items, failed) == surviving(items.remove(m), failed.remove(m)),
    decreases items.len(),
{
    let last = items.len() - 1;
    if m == last {
        assert(items.remove(m) =~= items.drop_last());
        lemma_surviving_looks_within(items.drop_last(), failed, failed.remove(m));
    } else {
        let shorter = items.drop_last();
        lemma_remove_largest(shorter, failed, m);
        assert(items.remove(m).drop_last() =~= shorter.remove(m));
        assert(items.remove(m).last() == items.last());
        assert(!failed.contains(last));
        assert(!failed.remove(m).contains(last - 1));
    }
}

/// Takes the failed readers out of the list, the last one first so that the
/// positions of the others stay as they are.
pub fn remove_failed<T>(items: &mut Vec<T>, failed: &mut Vec<usize>)
    requires
        rising_within(old(failed)@, old(items)@.len()),
    ensures
        final(failed)@.len() == 0,
        final(items)@ == surviving(old(items)@, positions(old(failed)@)),
        final(items)@.len() == old(items)@.len() - old(failed)@.len(),
{
    proof {
        lemma_survivors(items@);
    }
    while failed.len() > 0
        invariant
            rising_within(failed@, items@.len()),
            surviving(items@, positions(failed@)) == surviving(
                old(items)@,
                positions(old(failed)@),
            ),
            items@.len() - failed@.len() == old(items)@.len() - old(failed)@.len(),
        decreases failed@.len(),
    {
        let ghost before = failed@;
        let ghost listed = items@;
        let m: usize = failed.pop().unwrap();
        items.remove(m);
        proof {
            assert(before[before.len() - 1] == m);
            assert(positions(before).contains(m as int));
            assert forall|i: int| positions(before).contains(i) implies i <= m by {
                let k = choose|k: int| 0 <= k < before.len() && #[trigger] before[k] == i;
                if k < before.len() - 1 {
                    assert(before[k] < before[before.len() - 1]);
                }
            }
            lemma_remove_largest(listed, positions(before), m as int);
            assert(positions(before).remove(m as int) =~= positions(failed@)) by {
                assert forall|i: int|
                    positions(before).remove(m as int).contains(i) implies positions(
                    failed@,
                ).contains(i) by {
                    let k = choose|k: int| 0 <= k < before.len() && #[trigger] before[k] == i;
                    assert(failed@[k] == i);
                }
                assert forall|i: int| positions(failed@).contains(i) implies positions(
                    before,
                ).remove(m as int).contains(i) by {
                    let k = choose|k: int| 0 <= k < failed@.len() && #[trigger] failed@[k] == i;
                    assert(before[k] == i);
                    assert(before[k] < before[before.len() - 1]);
                }
            }
            assert forall|i: int| 0 <= i < failed@.len() implies #[trigger] failed@[i]
                < items@.len() by {
                assert(before[i] < before[before.len() - 1]);
            }
        }
    }
    proof {
        assert(positions(failed@) =~= Set::<int>::empty());
        lemma_surviving_looks_within(items@, positions(failed@), Set::<int>::empty());
        lemma_survivors(items@);
    }
}

/// Where nothing failed, everything survives.
pub proof fn lemma_survivors<T>(items: Seq<T>)
    ensures
        surviving(items, Set::<int>::empty()) == items,
    decreases items.len(),
{
    if items.len() > 0 {
        lemma_survivors(items.drop_last());
        assert(items.drop_last().push(items.last()) =~= items);
    }
}

/// A record as one line: the record and a line feed.
pub fn frame_line(record: String) -> (line: String)
    ensures
        line@ == record@.push('\n'),
{
    proof {
        reveal_strlit("\n");
    }
    let line = record.concat("\n");
    assert(line@ =~= record@.push('\n'));
    line
}

/// When the log is flushed next.
pub struct FlushSchedule {
    next_flush: u128,
    interval: u128,
}

impl FlushSchedule {
    /// The time of the next flush, in nanoseconds since the Unix epoch.
    pub closed spec fn next_flush(&self) -> u128 {
        self.next_flush
    }

    /// Nanoseconds from a flush to the next.
    pub closed spec fn interval(&self) -> u128 {
        self.interval
    }

    /// A schedule whose first flush is an interval after the given time.
    pub fn starting_at(now: u128, interval_secs: u64) -> (schedule: FlushSchedule)
        ensures
            schedule.interval() == interval_secs * 1_000_000_000,
            schedule.next_flush() == later(now, schedule.interval()),
    {
        let interval: u128 = interval_secs as u128 * 1_000_000_000;
        FlushSchedule { next_flush: now.saturating_add(interval), interval }
    }

    /// Whether a flush is due at the given time; if it is, the next one is
    /// an interval after that time.
    pub fn due(&mut self, now: u128) -> (flush: bool)
        ensures
            flush == (old(self).next_flush() < now),
            final(self).interval() == old(self).interval(),
            final(self).next_flush() == if flush {
                later(now, old(self).interval())
            } else {
                old(self).next_flush()
            },
    {
        if self.next_flush < now {
            self.next_flush = now.saturating_add(self.interval);
            true
        } else {
            false
        }
    }
}

/// A time an interval later, kept within the largest time.
pub open spec fn later(now: u128, interval: u128) -> u128 {
    if now + interval > u128::MAX {
        u128::MAX
    } else {
        (now + interval) as u128
    }
}

/// The first group that a pattern captures in a text, none where the
/// pattern does not compile, does not match, or matches without the group.
pub uninterp spec fn captured(pattern: Seq<char>, text: Seq<char>) -> Option<Seq<char>>;

/// Calls `regex::Regex::new` and `regex::Regex::captures`.  Trusted: the
/// result is the text of the leftmost match's first group, a function of
/// pattern and text alone.
#[verifier::external_body]
fn first_group(pattern: &str, text: &str) -> (group: Option<String>)
    ensures
        match group {
            Some(found) => captured(pattern@, text@) == Some(found@),
            None => captured(pattern@, text@) is None,
        },
{
    let compiled = regex::Regex::new(pattern).ok()?;
    compiled.captures(text)?.get(1).map(|found| found.as_str().to_string())
}

/// The value of a decimal digit.
pub open spec fn digit(c: char) -> Option<int> {
    if 48 <= c as u32 <= 57 {
        Some(c as u32 - 48)
    } else {
        None
    }
}

/// The number that a run of decimal digits writes, none for an empty run or
/// one that holds anything but digits.
pub open spec fn decimal(digits: Seq<char>) -> Option<int>
    decreases digits.len(),
{
    if digits.len() == 0 {
        None
    } else {
        match digit(digits.last()) {
            None => None,
            Some(d) => if digits.len() == 1 {
                Some(d)
            } else {
                match decimal(digits.drop_last()) {
                    Some(high) => Some(10 * high + d),
                    None => None,
                }
            },
        }
    }
}

/// The 32-bit number that a text writes in decimal digits, with or without
/// a plus sign in front; none if it is no such text or the number does not fit.
pub open spec fn number(text: Seq<char>) -> Option<u32> {
    let digits = if text.len() > 0 && text[0] == '+' {
        text.drop_first()
    } else {
        text
    };
    match decimal(digits) {
        Some(value) => if value <= u32::MAX {
            Some(value as u32)
        } else {
            None
        },
        None => None,
    }
}

/// Computes `number`.
pub fn parse_number(text: &str) -> (value: Option<u32>)
    ensures
        value == number(text@),
{
    let n: usize = text.unicode_len();
    if n == 0 {
        return None;
    }
    let start: usize = if text.get_char(0) == '+' {
        1
    } else {
        0
    };
    let ghost digits = if start == 1 {
        text@.drop_first()
    } else {
        text@
    };
    if start == n {
        return None;
    }
    let mut value: u64 = 0;
    let mut fits: bool = true;
    let mut i: usize = start;
    while i < n
        invariant
            start <= i <= n,
            start <= 1,
            n == text@.len(),
            n > 0,
            digits == (if text@[0] == '+' {
                text@.drop_first()
            } else {
                text@
            }),
            digits.len() == n - start,
            forall|k: int| 0 <= k < digits.len() ==> digits[k] == text@[k + start],
            i > start ==> decimal(digits.subrange(0, i - start)) is Some,
            i > start && fits ==> decimal(digits.subrange(0, i - start)) == Some(value as int)
                && value <= u32::MAX,
            i > start && !fits ==> decimal(digits.subrange(0, i - start))->0 > u32::MAX,
            i == start ==> value == 0 && fits,
        decreases n - i,
    {
        let code: u32 = text.get_char(i) as u32;
        let ghost prefix = digits.subrange(0, i + 1 - start);
        proof {
            assert(prefix.last() == text@[i as int]);
            assert(prefix.drop_last() =~= digits.subrange(0, i - start));
        }
        if code < 48 || code > 57 {
            proof {
                assert(digits[i - start] == text@[i as int]);
                assert(digit(digits[i - start]) is None);
                lemma_decimal_needs_digits(digits, i - start);
            }
            return None;
        }
        if fits {
            value = value * 10 + (code - 48) as u64;
            if value > u32::MAX as u64 {
                fits = false;
            }
        }
        i += 1;
    }
    proof {
        assert(digits.subrange(0, n - start) =~= digits);
    }
    if fits {
        Some(value as u32)
    } else {
        None
    }
}

/// A run with something else than a digit in it writes no number.
pub proof fn lemma_decimal_needs_digits(digits: Seq<char>, at: int)
    requires
        0 <= at < digits.len(),
        digit(digits[at]) is None,
    ensures
        decimal(digits) is None,
    decreases digits.len(),
{
    if at < digits.len() - 1 {
        lemma_decimal_needs_digits(digits.drop_last(), at);
    }
}

/// What a reader's text asks for.
#[derive(Debug, Clone, Copy, PartialEq, Eq, Structural)]
pub enum Intake {
    /// The text holds no command.
    Nothing,
    /// The session's energy cap is to be set to this many watt-hours.
    SetEnergy(u32),
    /// The text holds the command with a number that does not fit.
    OutOfRange,
}

/// What a captured number asks for.
pub open spec fn intake_of(group: Option<Seq<char>>) -> Intake {
    match group {
        None => Intake::Nothing,
        Some(digits) => match number(digits) {
            Some(watt_hours) => Intake::SetEnergy(watt_hours),
            None => Intake::OutOfRange,
        },
    }
}

/// Computes `intake_of` for the number that the command's pattern captured.
pub fn intake_from(group: Option<&str>) -> (intake: Intake)
    ensures
        intake == intake_of(
            match group {
                Some(digits) => Some(digits@),
                None => None,
            },
        ),
{
    match group {
        None => Intake::Nothing,
        Some(digits) => match parse_number(digits) {
            Some(watt_hours) => Intake::SetEnergy(watt_hours),
            None => Intake::OutOfRange,
        },
    }
}

/// Reads a reader's text: the first command in it that sets the energy cap.
pub fn read_command(text: &str) -> (intake: Intake)
    ensures
        intake == intake_of(captured(SET_ENERGY_PATTERN@, text@)),
{
    match first_group(SET_ENERGY_PATTERN, text) {
        Some(digits) => intake_from(Some(digits.as_str())),
        None => intake_from(None),
    }
}

} // verus!
