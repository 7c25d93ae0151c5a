//! Finding the touchpad in the system's list of input devices.
//!
//! The list is text, one device after another, each a block of lines. The line
//! that begins with `N:` names the device, the one with `S:` gives its path in
//! the system and with it the number of the I2C bus it hangs on, and the one
//! with `H:` gives its handlers, among them the number of its event device.
//! This module reads the two numbers of the touchpad out of the text; getting
//! the text is left to the caller.

use vstd::prelude::*;
use vstd::slice::slice_subrange;

verus! {

/// Where the touchpad is found: the number of its I2C bus, and the number of
/// its event device.
#[derive(Clone, Copy, Debug, PartialEq, Eq, Structural)]
pub struct TouchPadId {
    pub i2c_id: u32,
    pub ev_id: u32,
}

/// Why the touchpad was not found.
#[derive(Clone, Copy, Debug, PartialEq, Eq, Structural)]
pub enum DiscoveryError {
    /// The list gives no bus for the touchpad: it names no touchpad, or no
    /// line of the touchpad's block was read that begins with `S:`.
    I2cIdNotFound,
    /// The list gives a bus for the touchpad and no event device: its block
    /// has no line that begins with `H:`.
    EvIdNotFound,
    /// A line of the touchpad's block that should hold one of the two numbers
    /// holds none that fits 32 bits.
    MalformedEntry,
}

/// `needle` stands in `line` at the place `at`.
pub open spec fn occurs_at(line: Seq<u8>, needle: Seq<u8>, at: int) -> bool {
    0 <= at && at + needle.len() <= line.len() && line.subrange(at, at + needle.len()) == needle
}

/// `needle` stands somewhere in `line`.
pub open spec fn contains_bytes(line: Seq<u8>, needle: Seq<u8>) -> bool {
    exists|at: int| occurs_at(line, needle, at)
}

/// `at` is the first place of `line` at which `needle` stands.
pub open spec fn first_occurrence(line: Seq<u8>, needle: Seq<u8>, at: int) -> bool {
    occurs_at(line, needle, at) && forall|k: int| 0 <= k < at ==> !occurs_at(line, needle, k)
}

/// `byte` is one of the digits `0` to `9`.
pub open spec fn is_digit(byte: u8) -> bool {
    0x30 <= byte <= 0x39
}

/// How many digits `s` begins with.
pub open spec fn digits_len(s: Seq<u8>) -> nat
    decreases s.len(),
{
    if s.len() > 0 && is_digit(s[0]) {
        1 + digits_len(s.drop_first())
    } else {
        0
    }
}

/// The number that the digits `digits` write in base ten.
pub open spec fn decimal(digits: Seq<u8>) -> nat
    decreases digits.len(),
{
    if digits.len() == 0 {
        0
    } else {
        decimal(digits.drop_last()) * 10 + (digits.last() - 0x30) as nat
    }
}

/// The number that `s` begins with: all the digits at its beginning, read in
/// base ten. There is none where `s` begins with no digit, or with a number
/// that does not fit 32 bits.
pub open spec fn leading_number(s: Seq<u8>) -> Option<u32> {
    let digits = s.take(digits_len(s) as int);
    if digits.len() > 0 && decimal(digits) <= u32::MAX {
        Some(decimal(digits) as u32)
    } else {
        None
    }
}

/// The number that follows the first `needle` of `line`, where there is one.
pub open spec fn number_after(line: Seq<u8>, needle: Seq<u8>) -> Option<u32> {
    if contains_bytes(line, needle) {
        let at = choose|at: int| first_occurrence(line, needle, at);
        leading_number(line.skip(at + needle.len()))
    } else {
        None
    }
}

/// The byte that ends a line.
pub const NEWLINE: u8 = 0x0a;

/// How long the first line of `s` is, without the byte that ends it.
pub open spec fn line_len(s: Seq<u8>) -> nat
    decreases s.len(),
{
    if s.len() > 0 && s[0] != NEWLINE {
        1 + line_len(s.drop_first())
    } else {
        0
    }
}

/// The lines of `s`, each without the byte that ends it. The last line need
/// not be ended.
pub open spec fn lines(s: Seq<u8>) -> Seq<Seq<u8>>
    decreases s.len(),
{
    if s.len() == 0 {
        Seq::empty()
    } else if line_len(s) >= s.len() {
        seq![s]
    } else {
        seq![s.take(line_len(s) as int)] + lines(s.skip(line_len(s) as int + 1))
    }
}

/// `N:`, which begins the line that names a device.
pub open spec fn name_tag() -> Seq<u8> {
    seq![0x4eu8, 0x3au8]
}

/// `S:`, which begins the line with a device's path in the system.
pub open spec fn sysfs_tag() -> Seq<u8> {
    seq![0x53u8, 0x3au8]
}

/// `H:`, which begins the line with a device's handlers.
pub open spec fn handlers_tag() -> Seq<u8> {
    seq![0x48u8, 0x3au8]
}

/// `ASUF`, by which the maker of the touchpad is known.
pub open spec fn vendor_mark() -> Seq<u8> {
    seq![0x41u8, 0x53u8, 0x55u8, 0x46u8]
}

/// `Touchpad`.
pub open spec fn touchpad_mark() -> Seq<u8> {
    seq![0x54u8, 0x6fu8, 0x75u8, 0x63u8, 0x68u8, 0x70u8, 0x61u8, 0x64u8]
}

/// `i2c-`, after which the number of the bus stands.
pub open spec fn bus_mark() -> Seq<u8> {
    seq![0x69u8, 0x32u8, 0x63u8, 0x2du8]
}

/// `event`, after which the number of the event device stands.
pub open spec fn event_mark() -> Seq<u8> {
    seq![0x65u8, 0x76u8, 0x65u8, 0x6eu8, 0x74u8]
}

/// `line` names the touchpad.
pub open spec fn is_touchpad_name(line: Seq<u8>) -> bool {
    name_tag().is_prefix_of(line) && contains_bytes(line, vendor_mark()) && contains_bytes(
        line,
        touchpad_mark(),
    )
}

/// What the numbers that were read amount to. The touchpad is found where
/// both were read, whatever they are; a bus that was not read is missed
/// first.
pub open spec fn verdict(i2c_id: Option<u32>, ev_id: Option<u32>) -> Result<
    TouchPadId,
    DiscoveryError,
> {
    match (i2c_id, ev_id) {
        (None, _) => Err(DiscoveryError::I2cIdNotFound),
        (Some(_), None) => Err(DiscoveryError::EvIdNotFound),
        (Some(i2c_id), Some(ev_id)) => Ok(TouchPadId { i2c_id, ev_id }),
    }
}

/// What the lines `lines` give, read from first to last. `in_block` says
/// whether the line that names the touchpad has been passed, and `i2c_id` is
/// the number of the bus, where one has been read.
///
/// Before the touchpad's name nothing counts. After it, each line that begins
/// with `S:` gives the bus anew, and the first line that begins with `H:`
/// gives the event device and ends the reading.
pub open spec fn scan(lines: Seq<Seq<u8>>, in_block: bool, i2c_id: Option<u32>) -> Result<
    TouchPadId,
    DiscoveryError,
>
    decreases lines.len(),
{
    if lines.len() == 0 {
        verdict(i2c_id, None)
    } else if !in_block {
        scan(lines.drop_first(), is_touchpad_name(lines.first()), i2c_id)
    } else if sysfs_tag().is_prefix_of(lines.first()) {
        match number_after(lines.first(), bus_mark()) {
            Some(bus) => scan(lines.drop_first(), true, Some(bus)),
            None => Err(DiscoveryError::MalformedEntry),
        }
    } else if handlers_tag().is_prefix_of(lines.first()) {
        match number_after(lines.first(), event_mark()) {
            Some(event) => verdict(i2c_id, Some(event)),
            None => Err(DiscoveryError::MalformedEntry),
        }
    } else {
        scan(lines.drop_first(), true, i2c_id)
    }
}

/// Where the list of devices `devices` says the touchpad is.
pub open spec fn touchpad_id(devices: Seq<u8>) -> Result<TouchPadId, DiscoveryError> {
    scan(lines(devices), false, None)
}

/// Whether `line` begins with `prefix`.
fn starts_with(line: &[u8], prefix: &[u8]) -> (begins: bool)
    ensures
        begins == prefix@.is_prefix_of(line@),
{
    if prefix.len() > line.len() {
        return false;
    }
    let mut i: usize = 0;
    while i < prefix.len()
        invariant
            i <= prefix.len() <= line.len(),
            forall|k: int| 0 <= k < i ==> line@[k] == prefix@[k],
        decreases prefix.len() - i,
    {
        if line[i] != prefix[i] {
            return false;
        }
        i += 1;
    }
    true
}

/// Whether `needle` stands in `line` at the place `at`.
fn matches_at(line: &[u8], needle: &[u8], at: usize) -> (found: bool)
    requires
        at + needle.len() <= line.len(),
    ensures
        found == occurs_at(line@, needle@, at as int),
{
    let mut i: usize = 0;
    while i < needle.len()
        invariant
            i <= needle.len(),
            at + needle.len() <= line.len(),
            forall|k: int| 0 <= k < i ==> line@[at + k] == needle@[k],
        decreases needle.len() - i,
    {
        if line[at + i] != needle[i] {
            return false;
        }
        i += 1;
    }
    assert(line@.subrange(at as int, at + needle@.len()) =~= needle@);
    true
}

/// The first place of `line` at which `needle` stands, where there is one.
fn find(line: &[u8], needle: &[u8]) -> (place: Option<usize>)
    ensures
        match place {
            Some(at) => first_occurrence(line@, needle@, at as int),
            None => !contains_bytes(line@, needle@),
        },
{
    if needle.len() > line.len() {
        return None;
    }
    let last = line.len() - needle.len();
    let mut at: usize = 0;
    while at < last
        invariant
            at <= last,
            last == line.len() - needle.len(),
            needle.len() <= line.len(),
            forall|k: int| 0 <= k < at ==> !occurs_at(line@, needle@, k),
        decreases last - at,
    {
        if matches_at(line, needle, at) {
            return Some(at);
        }
        at += 1;
    }
    if matches_at(line, needle, last) {
        Some(last)
    } else {
        None
    }
}

/// The more digits, the greater the number.
proof fn lemma_decimal_grows(digits: Seq<u8>, n: int)
    requires
        0 <= n <= digits.len(),
    ensures
        decimal(digits.take(n)) <= decimal(digits),
    decreases digits.len(),
{
    if n == digits.len() {
        assert(digits.take(n) =~= digits);
    } else {
        assert(digits.drop_last().take(n) =~= digits.take(n));
        lemma_decimal_grows(digits.drop_last(), n);
    }
}

/// A sequence begins with no more digits than it has bytes.
proof fn lemma_digits_len_bound(s: Seq<u8>)
    ensures
        digits_len(s) <= s.len(),
    decreases s.len(),
{
    if s.len() > 0 && is_digit(s[0]) {
        lemma_digits_len_bound(s.drop_first());
    }
}

/// The digits at the beginning of `s` go on where those before `k` end.
proof fn lemma_digits_len_from(s: Seq<u8>, k: int)
    requires
        0 <= k <= s.len(),
        forall|j: int| 0 <= j < k ==> is_digit(s[j]),
    ensures
        digits_len(s) == k + digits_len(s.skip(k)),
    decreases k,
{
    if k == 0 {
        assert(s.skip(0) =~= s);
    } else {
        lemma_digits_len_from(s, k - 1);
        assert(s.skip(k - 1).drop_first() =~= s.skip(k));
    }
}

/// The number that `line` holds at the place `from`.
fn number_at(line: &[u8], from: usize) -> (number: Option<u32>)
    requires
        from <= line.len(),
    ensures
        number == leading_number(line@.skip(from as int)),
{
    let ghost rest = line@.skip(from as int);
    let mut value: u64 = 0;
    let mut i: usize = from;
    while i < line.len() && line[i] >= 0x30 && line[i] <= 0x39
        invariant
            from <= i <= line.len(),
            rest == line@.skip(from as int),
            forall|j: int| 0 <= j < i - from ==> is_digit(rest[j]),
            value == decimal(rest.take(i - from)),
            value <= u32::MAX,
        decreases line.len() - i,
    {
        let digit = (line[i] - 0x30) as u64;
        proof {
            assert(rest.take(i - from + 1).drop_last() =~= rest.take(i - from));
        }
        value = value * 10 + digit;
        i += 1;
        if value > u32::MAX as u64 {
            proof {
                let run = digits_len(rest) as int;
                lemma_digits_len_bound(rest);
                lemma_digits_len_from(rest, i - from);
                lemma_decimal_grows(rest.take(run), i - from);
                assert(rest.take(run).take(i - from) =~= rest.take(i - from));
            }
            return None;
        }
    }
    proof {
        lemma_digits_len_from(rest, i - from);
    }
    if i == from {
        None
    } else {
        Some(value as u32)
    }
}

/// The number that follows the first `needle` of `line`.
fn find_number_after(line: &[u8], needle: &[u8]) -> (number: Option<u32>)
    ensures
        number == number_after(line@, needle@),
{
    match find(line, needle) {
        Some(at) => {
            assert(at + needle.len() <= line.len());
            number_at(line, at + needle.len())
        },
        None => None,
    }
}

/// Whether `line` names the touchpad.
fn names_touchpad(line: &[u8]) -> (named: bool)
    ensures
        named == is_touchpad_name(line@),
{
    let tag: [u8; 2] = [0x4e, 0x3a];
    let vendor: [u8; 4] = [0x41, 0x53, 0x55, 0x46];
    let touchpad: [u8; 8] = [0x54, 0x6f, 0x75, 0x63, 0x68, 0x70, 0x61, 0x64];
    starts_with(line, tag.as_slice()) && find(line, vendor.as_slice()).is_some() && find(
        line,
        touchpad.as_slice(),
    ).is_some()
}

/// Where the line that begins at `start` ends.
fn line_end(devices: &[u8], start: usize) -> (end: usize)
    requires
        start <= devices.len(),
    ensures
        start <= end <= devices.len(),
        end - start == line_len(devices@.skip(start as int)),
{
    let mut end: usize = start;
    while end < devices.len() && devices[end] != NEWLINE
        invariant
            start <= end <= devices.len(),
            line_len(devices@.skip(start as int)) == (end - start) + line_len(
                devices@.skip(end as int),
            ),
        decreases devices.len() - end,
    {
        proof {
            assert(devices@.skip(end as int).drop_first() =~= devices@.skip(end + 1));
        }
        end += 1;
    }
    end
}

/// Reads the list of input devices `devices` and says where the touchpad is.
///
/// The touchpad is the first device whose name holds `ASUF` and `Touchpad`.
/// Its bus is the number after `i2c-` in the last `S:` line between its name
/// and the first `H:` line after it, and its event device is the number after
/// `event` in that `H:` line. Any number counts, zero too: the touchpad is
/// not found only where one of the two lines is not there.
pub fn get_touchpad_id(devices: &[u8]) -> (found: Result<TouchPadId, DiscoveryError>)
    ensures
        found == touchpad_id(devices@),
{
    let sysfs: [u8; 2] = [0x53, 0x3a];
    let handlers: [u8; 2] = [0x48, 0x3a];
    let bus: [u8; 4] = [0x69, 0x32, 0x63, 0x2d];
    let event: [u8; 5] = [0x65, 0x76, 0x65, 0x6e, 0x74];
    let mut i2c_id: Option<u32> = None;
    let mut ev_id: Option<u32> = None;
    let mut is_in_touchpad_block = false;
    let mut start: usize = 0;
    assert(devices@.skip(0) =~= devices@);
    while start < devices.len()
        invariant_except_break
            ev_id is None,
            scan(lines(devices@.skip(start as int)), is_in_touchpad_block, i2c_id) == touchpad_id(
                devices@,
            ),
        invariant
            start <= devices.len(),
            sysfs@ == sysfs_tag(),
            handlers@ == handlers_tag(),
            bus@ == bus_mark(),
            event@ == event_mark(),
        ensures
            verdict(i2c_id, ev_id) == touchpad_id(devices@),
        decreases devices.len() - start,
    {
        let end = line_end(devices, start);
        let line = slice_subrange(devices, start, end);
        let next = if end < devices.len() {
            end + 1
        } else {
            end
        };
        proof {
            let rest = devices@.skip(start as int);
            let after = lines(devices@.skip(next as int));
            assert(line@ =~= rest.take(end - start));
            if end < devices.len() {
                assert(rest.skip(end - start + 1) =~= devices@.skip(next as int));
            }
            assert(lines(rest).drop_first() =~= after);
        }
        if is_in_touchpad_block {
            if starts_with(line, sysfs.as_slice()) {
                match find_number_after(line, bus.as_slice()) {
                    Some(number) => {
                        i2c_id = Some(number);
                    },
                    None => {
                        return Err(DiscoveryError::MalformedEntry);
                    },
                }
            } else if starts_with(line, handlers.as_slice()) {
                match find_number_after(line, event.as_slice()) {
                    Some(number) => {
                        ev_id = Some(number);
                    },
                    None => {
                        return Err(DiscoveryError::MalformedEntry);
                    },
                }
                // The handlers come after the path: nothing is left to read.
                break ;
            }
        } else {
            is_in_touchpad_block = names_touchpad(line);
        }
        start = next;
    }
    match (i2c_id, ev_id) {
        (None, _) => Err(DiscoveryError::I2cIdNotFound),
        (Some(_), None) => Err(DiscoveryError::EvIdNotFound),
        (Some(i2c_id), Some(ev_id)) => Ok(TouchPadId { i2c_id, ev_id }),
    }
}

/// A list that names no touchpad gives no bus: lines count only after the
/// line with the touchpad's name.
pub proof fn lemma_unnamed_not_found(lines: Seq<Seq<u8>>)
    requires
        forall|i: int| 0 <= i < lines.len() ==> !is_touchpad_name(#[trigger] lines[i]),
    ensures
        scan(lines, false, None) == Err::<TouchPadId, DiscoveryError>(
            DiscoveryError::I2cIdNotFound,
        ),
    decreases lines.len(),
{
    if lines.len() > 0 {
        lemma_unnamed_not_found(lines.drop_first());
    }
}

/// Reading begins after the first line that names the touchpad: what stands
/// before it, and that line itself, give nothing.
pub proof fn lemma_reading_begins_after_name(
    lines: Seq<Seq<u8>>,
    name: int,
    i2c_id: Option<u32>,
)
    requires
        0 <= name < lines.len(),
        is_touchpad_name(lines[name]),
        forall|k: int| 0 <= k < name ==> !is_touchpad_name(#[trigger] lines[k]),
    ensures
        scan(lines, false, i2c_id) == scan(lines.skip(name + 1), true, i2c_id),
    decreases name,
{
    if name > 0 {
        let rest = lines.drop_first();
        assert(rest.skip(name) =~= lines.skip(name + 1));
        lemma_reading_begins_after_name(rest, name - 1, i2c_id);
    }
}

/// What the block of the touchpad gives. `block` holds the lines after the
/// touchpad's name, `handlers` is the place of the first of them that begins
/// with `H:`, or their number where there is none, and `sysfs` is the place of
/// the last line before `handlers` that begins with `S:`, or -1 where there
/// is none. Where each `S:` line before `handlers` holds a number, the bus is
/// the number of the line `sysfs`, and the event device is the number of the
/// line `handlers`, be they zero or not. Without the one line or the other
/// the touchpad is not found.
pub proof fn lemma_block_gives(block: Seq<Seq<u8>>, handlers: int, sysfs: int)
    requires
        0 <= handlers <= block.len(),
        handlers < block.len() ==> handlers_tag().is_prefix_of(block[handlers]),
        forall|k: int| 0 <= k < handlers ==> !handlers_tag().is_prefix_of(#[trigger] block[k]),
        forall|k: int|
            0 <= k < handlers && sysfs_tag().is_prefix_of(#[trigger] block[k]) ==> number_after(
                block[k],
                bus_mark(),
            ) is Some,
        -1 <= sysfs < handlers,
        sysfs >= 0 ==> sysfs_tag().is_prefix_of(block[sysfs]),
        forall|k: int| sysfs < k < handlers ==> !sysfs_tag().is_prefix_of(#[trigger] block[k]),
    ensures
        scan(block, true, None) == ({
            let bus = if sysfs >= 0 {
                number_after(block[sysfs], bus_mark())
            } else {
                None
            };
            if handlers == block.len() {
                verdict(bus, None)
            } else {
                match number_after(block[handlers], event_mark()) {
                    Some(event) => verdict(bus, Some(event)),
                    None => Err(DiscoveryError::MalformedEntry),
                }
            }
        }),
{
    lemma_block_gives_from(block, handlers, sysfs, None);
}

/// What the rest of the block of the touchpad gives, where `i2c_id` has been
/// read before it: as [`lemma_block_gives`] says, with `i2c_id` for the bus
/// where the rest has no `S:` line.
proof fn lemma_block_gives_from(
    block: Seq<Seq<u8>>,
    handlers: int,
    sysfs: int,
    i2c_id: Option<u32>,
)
    requires
        0 <= handlers <= block.len(),
        handlers < block.len() ==> handlers_tag().is_prefix_of(block[handlers]),
        forall|k: int| 0 <= k < handlers ==> !handlers_tag().is_prefix_of(#[trigger] block[k]),
        forall|k: int|
            0 <= k < handlers && sysfs_tag().is_prefix_of(#[trigger] block[k]) ==> number_after(
                block[k],
                bus_mark(),
            ) is Some,
        -1 <= sysfs < handlers,
        sysfs >= 0 ==> sysfs_tag().is_prefix_of(block[sysfs]),
        forall|k: int| sysfs < k < handlers ==> !sysfs_tag().is_prefix_of(#[trigger] block[k]),
    ensures
        scan(block, true, i2c_id) == ({
            let bus = if sysfs >= 0 {
                number_after(block[sysfs], bus_mark())
            } else {
                i2c_id
            };
            if handlers == block.len() {
                verdict(bus, None)
            } else {
                match number_after(block[handlers], event_mark()) {
                    Some(event) => verdict(bus, Some(event)),
                    None => Err(DiscoveryError::MalformedEntry),
                }
            }
        }),
    decreases block.len(),
{
    if block.len() > 0 && handlers > 0 {
        let bus = if sysfs_tag().is_prefix_of(block[0]) {
            number_after(block[0], bus_mark())
        } else {
            i2c_id
        };
        lemma_block_gives_from(
            block.drop_first(),
            handlers - 1,
            if sysfs >= 1 {
                sysfs - 1
            } else {
                -1
            },
            bus,
        );
    }
}

} // verus!
