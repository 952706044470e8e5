//! Kindle physical button input via evdev (PagePress, page-turn buttons).
//!
//! Different Kindle models expose page turn buttons on different event devices (e.g.,
//! event0=gpio-keys/power, event3=fsr_keypad), so every device that reports page-turn keys is
//! used. The Kindle Voyage's PagePress capacitive sensors also appear here.

use vstd::prelude::*;
use vstd::slice::slice_subrange;
use vstd::string::*;
use vstd::utf8::*;

verus! {

/// Type of the events that report keys.
pub const EV_KEY: u16 = 0x01;

// Key codes that different Kindle models use for page turn buttons.
// Standard Linux, Kindle Voyage fsr_keypad:
pub const KEY_PAGEUP: u16 = 104;

pub const KEY_PAGEDOWN: u16 = 109;

// Some Kindle models:
pub const KEY_NEXT: u16 = 193;

pub const KEY_PREVIOUS: u16 = 194;

// Directional pad:
pub const KEY_LEFT: u16 = 105;

pub const KEY_RIGHT: u16 = 106;

#[derive(Clone, Copy, Debug, PartialEq, Eq, Structural)]
pub enum PageTurnDirection {
    Prev,
    Next,
}

/// Linux `struct input_event` on 32-bit ARM. `timeval` has two `long` fields (4 bytes each on
/// 32-bit), then `__u16 type`, `__u16 code`, `__s32 value`. Total = 16 bytes.
#[derive(Clone, Copy)]
pub struct InputEvent {
    pub tv_sec: u32,
    pub tv_usec: u32,
    pub kind: u16,
    pub code: u16,
    pub value: i32,
}

/// The number that two bytes stand for, the low byte first.
pub open spec fn le16(bytes: Seq<u8>, at: int) -> int {
    bytes[at] + 256 * bytes[at + 1]
}

/// The number that four bytes stand for, the low byte first.
pub open spec fn le32(bytes: Seq<u8>, at: int) -> int {
    le16(bytes, at) + 65536 * le16(bytes, at + 2)
}

/// The event that 16 bytes, as the kernel hands them out, stand for.
pub open spec fn event_of(bytes: Seq<u8>) -> InputEvent {
    InputEvent {
        tv_sec: le32(bytes, 0) as u32,
        tv_usec: le32(bytes, 4) as u32,
        kind: le16(bytes, 8) as u16,
        code: le16(bytes, 10) as u16,
        value: (le32(bytes, 12) as u32) as i32,
    }
}

fn read_u16(bytes: &[u8; 16], at: usize) -> (n: u16)
    requires
        at + 2 <= 16,
    ensures
        n == le16(bytes@, at as int),
{
    bytes[at] as u16 + 256 * bytes[at + 1] as u16
}

fn read_u32(bytes: &[u8; 16], at: usize) -> (n: u32)
    requires
        at + 4 <= 16,
    ensures
        n == le32(bytes@, at as int),
{
    read_u16(bytes, at) as u32 + 65536 * read_u16(bytes, at + 2) as u32
}

/// Read an event from the bytes that the kernel hands out.
pub fn parse_event(bytes: &[u8; 16]) -> (event: InputEvent)
    ensures
        event == event_of(bytes@),
{
    InputEvent {
        tv_sec: read_u32(bytes, 0),
        tv_usec: read_u32(bytes, 4),
        kind: read_u16(bytes, 8),
        code: read_u16(bytes, 10),
        value: read_u32(bytes, 12) as i32,
    }
}

/// A key that turns to the previous page on most models.
pub open spec fn is_prev_key(code: u16) -> bool {
    code == KEY_PAGEUP || code == KEY_PREVIOUS || code == KEY_LEFT
}

/// A key that turns to the next page on most models.
pub open spec fn is_next_key(code: u16) -> bool {
    code == KEY_PAGEDOWN || code == KEY_NEXT || code == KEY_RIGHT
}

/// The page turn that an event asks for. Only pressing a page-turn key (value 1), and holding it
/// (value 2), turns a page. Where the buttons are inverted, they swap their meaning.
pub open spec fn turn_of(event: InputEvent, inverted: bool) -> Option<PageTurnDirection> {
    if event.kind != EV_KEY || !(event.value == 1 || event.value == 2) {
        None
    } else if is_prev_key(event.code) {
        Some(
            if inverted {
                PageTurnDirection::Next
            } else {
                PageTurnDirection::Prev
            },
        )
    } else if is_next_key(event.code) {
        Some(
            if inverted {
                PageTurnDirection::Prev
            } else {
                PageTurnDirection::Next
            },
        )
    } else {
        None
    }
}

/// The page turn that an event asks for.
pub fn page_turn(event: InputEvent, inverted: bool) -> (turn: Option<PageTurnDirection>)
    ensures
        turn == turn_of(event, inverted),
{
    if event.kind == EV_KEY && (event.value == 1 || event.value == 2) {
        let is_prev: bool = event.code == KEY_PAGEUP || event.code == KEY_PREVIOUS || event.code
            == KEY_LEFT;
        let is_next: bool = event.code == KEY_PAGEDOWN || event.code == KEY_NEXT || event.code
            == KEY_RIGHT;
        if is_prev || is_next {
            // On Oasis, PAGEUP (top) = next, PAGEDOWN (bottom) = prev.
            // On other Kindles, PAGEUP = prev, PAGEDOWN = next.
            return Some(
                if is_prev != inverted {
                    PageTurnDirection::Prev
                } else {
                    PageTurnDirection::Next
                },
            );
        }
    }
    None
}

/// Whether a bit of a bitmap is set; bit 0 is the lowest bit of the first byte.
pub open spec fn bit_set(bitmap: Seq<u8>, bit: int) -> bool {
    bit / 8 < bitmap.len() && bitmap[bit / 8] & (1u8 << ((bit % 8) as u8)) != 0
}

/// Check if a specific key code is supported by the device's key capability bitmap.
pub fn key_supported(key_bits: &[u8], code: u16) -> (supported: bool)
    ensures
        supported == bit_set(key_bits@, code as int),
{
    let byte: usize = (code / 8) as usize;
    let bit: u8 = (code % 8) as u8;
    byte < key_bits.len() && (key_bits[byte] & (1u8 << bit)) != 0
}

/// The device reports keys at all.
pub open spec fn reports_keys(ev_bits: Seq<u8>) -> bool {
    bit_set(ev_bits, EV_KEY as int)
}

/// The device has a page-turn key.
pub open spec fn has_page_key(key_bits: Seq<u8>) -> bool {
    exists|code: u16|
        (is_prev_key(code) || is_next_key(code)) && #[trigger] bit_set(key_bits, code as int)
}

/// Check from a device's event type bitmap if it reports keys at all.
pub fn supports_keys(ev_bits: &[u8; 8]) -> (supported: bool)
    ensures
        supported == reports_keys(ev_bits@),
{
    assert(1u8 << 1u8 == 0x02u8) by (bit_vector);
    // EV_KEY is type 1 → byte 0, bit 1
    ev_bits[0] & 0x02 != 0
}

/// Check from a device's key capability bitmap if it has a page-turn key.
pub fn supports_page_turns(key_bits: &[u8; 32]) -> (supported: bool)
    ensures
        supported == has_page_key(key_bits@),
{
    let bits: &[u8] = key_bits.as_slice();
    let has_prev: bool = key_supported(bits, KEY_PAGEUP) || key_supported(bits, KEY_PREVIOUS)
        || key_supported(bits, KEY_LEFT);
    let has_next: bool = key_supported(bits, KEY_PAGEDOWN) || key_supported(bits, KEY_NEXT)
        || key_supported(bits, KEY_RIGHT);
    has_prev || has_next
}

pub open spec fn is_digit(c: char) -> bool {
    '0' <= c <= '9'
}

/// The number that decimal digits stand for.
pub open spec fn decimal(digits: Seq<char>) -> int
    decreases digits.len(),
{
    if digits.len() == 0 {
        0
    } else {
        10 * decimal(digits.drop_last()) + (digits.last() as int - '0' as int)
    }
}

/// Number of the event device of this name: the name is `event` and a decimal number, one of at
/// most 64 bits, as no device has a larger one.
pub open spec fn device_number(name: Seq<char>) -> Option<int> {
    if name.len() > 5 && name.take(5) == "event"@ && (forall|i: int|
        5 <= i < name.len() ==> is_digit(#[trigger] name[i])) && decimal(name.skip(5))
        <= u64::MAX {
        Some(decimal(name.skip(5)))
    } else {
        None
    }
}

/// Event device `i` of a directory comes before event device `j`: by number, and by place in the
/// directory where the numbers are the same.
pub open spec fn comes_before(names: Seq<String>, i: int, j: int) -> bool {
    let first = device_number(names[i]@)->0;
    let second = device_number(names[j]@)->0;
    first < second || (first == second && i < j)
}

/// More digits never make a number smaller.
proof fn lemma_decimal_grows(digits: Seq<char>, len: int)
    requires
        0 <= len <= digits.len(),
        forall|i: int| 0 <= i < digits.len() ==> is_digit(#[trigger] digits[i]),
    ensures
        0 <= decimal(digits.take(len)) <= decimal(digits),
    decreases digits.len(),
{
    if digits.len() == 0 {
        assert(digits.take(len) =~= digits);
    } else {
        let fewer = digits.drop_last();
        if len == digits.len() {
            assert(digits.take(len) =~= digits);
            lemma_decimal_grows(fewer, len - 1);
            assert(is_digit(digits.last()));
        } else {
            assert(digits.take(len) =~= fewer.take(len));
            lemma_decimal_grows(fewer, len);
            assert(is_digit(digits.last()));
        }
    }
}

/// Number of the event device of this name, if it is the name of one.
pub fn parse_device_number(name: &str) -> (number: Option<u64>)
    ensures
        match number {
            Some(number) => device_number(name@) == Some(number as int),
            None => device_number(name@) is None,
        },
{
    proof {
        reveal_strlit("event");
    }
    let len: usize = name.unicode_len();
    if len <= 5 {
        return None;
    }
    if !(name.get_char(0) == 'e' && name.get_char(1) == 'v' && name.get_char(2) == 'e'
        && name.get_char(3) == 'n' && name.get_char(4) == 't') {
        assert(name@.take(5) != "event"@) by {
            if name@.take(5) == "event"@ {
                assert(name@.take(5)[0] == 'e' && name@.take(5)[1] == 'v' && name@.take(5)[2] == 'e'
                    && name@.take(5)[3] == 'n' && name@.take(5)[4] == 't');
            }
        }
        return None;
    }
    assert(name@.take(5) =~= "event"@);
    let ghost digits = name@.skip(5);
    let mut number: u64 = 0;
    let mut i: usize = 5;
    assert(digits.take(0) =~= Seq::empty());
    while i < len
        invariant
            5 <= i <= len,
            len == name@.len(),
            digits == name@.skip(5),
            forall|k: int| 5 <= k < i ==> is_digit(#[trigger] name@[k]),
            number == decimal(digits.take(i - 5)),
        decreases len - i,
    {
        let c: char = name.get_char(i);
        if !('0' <= c && c <= '9') {
            assert(!is_digit(name@[i as int]));
            return None;
        }
        let digit: u64 = c as u64 - '0' as u64;
        proof {
            let more = digits.take(i - 4);
            assert(more.drop_last() =~= digits.take(i - 5));
            assert(more.last() == c);
            if number > (u64::MAX - digit) / 10 && (forall|k: int|
                5 <= k < name@.len() ==> is_digit(#[trigger] name@[k])) {
                assert forall|k: int| 0 <= k < digits.len() implies is_digit(
                    #[trigger] digits[k],
                ) by {
                    assert(is_digit(name@[k + 5]));
                }
                lemma_decimal_grows(digits, i - 4);
            }
        }
        if number > (u64::MAX - digit) / 10 {
            return None;
        }
        number = 10 * number + digit;
        i = i + 1;
    }
    assert(digits.take(len - 5) =~= digits);
    Some(number)
}

/// Places, in a directory's list of names, of all event devices, in the order of their numbers.
pub fn event_devices(names: &[String]) -> (places: Vec<usize>)
    ensures
        forall|k: int|
            0 <= k < places@.len() ==> #[trigger] places@[k] < names@.len() && device_number(
                names@[places@[k] as int]@,
            ) is Some,
        forall|i: usize|
            i < names@.len() && device_number((#[trigger] names@[i as int])@) is Some
                ==> places@.contains(i),
        forall|j: int, k: int|
            0 <= j < k < places@.len() ==> comes_before(
                names@,
                #[trigger] places@[j] as int,
                #[trigger] places@[k] as int,
            ),
{
    let mut places: Vec<usize> = Vec::new();
    let mut numbers: Vec<u64> = Vec::new();
    let mut i: usize = 0;
    while i < names.len()
        invariant
            i <= names@.len(),
            numbers@.len() == places@.len(),
            forall|k: int|
                0 <= k < places@.len() ==> #[trigger] places@[k] < i && device_number(
                    names@[places@[k] as int]@,
                ) == Some(numbers@[k] as int),
            forall|m: usize|
                m < i && device_number((#[trigger] names@[m as int])@) is Some
                    ==> places@.contains(m),
            forall|j: int, k: int|
                0 <= j < k < places@.len() ==> comes_before(
                    names@,
                    #[trigger] places@[j] as int,
                    #[trigger] places@[k] as int,
                ),
        decreases names@.len() - i,
    {
        if let Some(number) = parse_device_number(names[i].as_str()) {
            let mut at: usize = places.len();
            while at > 0 && numbers[at - 1] > number
                invariant
                    at <= places@.len(),
                    numbers@.len() == places@.len(),
                    forall|k: int| at <= k < numbers@.len() ==> #[trigger] numbers@[k] > number,
                ensures
                    at <= places@.len(),
                    forall|k: int| at <= k < numbers@.len() ==> #[trigger] numbers@[k] > number,
                    at > 0 ==> numbers@[at - 1] <= number,
                decreases at,
            {
                at = at - 1;
            }
            let ghost before = places@;
            let ghost before_numbers = numbers@;
            places.insert(at, i);
            numbers.insert(at, number);
            proof {
                assert forall|k: int| 0 <= k < at implies #[trigger] before_numbers[k]
                    <= number by {
                    assert(before[k] < i && before[at - 1] < i);
                    if k < at - 1 {
                        assert(comes_before(names@, before[k] as int, before[at - 1] as int));
                    }
                }
                assert forall|k: int| 0 <= k < places@.len() implies #[trigger] places@[k] < i + 1
                    && device_number(names@[places@[k] as int]@) == Some(numbers@[k] as int) by {
                    if k < at {
                        assert(places@[k] == before[k] && numbers@[k] == before_numbers[k]);
                    } else if k > at {
                        assert(places@[k] == before[k - 1] && numbers@[k] == before_numbers[k - 1]);
                    }
                }
                assert forall|m: usize|
                    m < i + 1 && device_number((#[trigger] names@[m as int])@) is Some implies
                    places@.contains(m) by {
                    if m == i {
                        assert(places@[at as int] == i);
                    } else {
                        let k = choose|k: int| 0 <= k < before.len() && before[k] == m;
                        assert(places@[if k < at { k } else { k + 1 }] == m);
                    }
                }
                assert forall|j: int, k: int| 0 <= j < k < places@.len() implies comes_before(
                    names@,
                    #[trigger] places@[j] as int,
                    #[trigger] places@[k] as int,
                ) by {
                    let oj = if j < at { j } else { j - 1 };
                    let ok = if k < at { k } else { k - 1 };
                    if j != at {
                        assert(places@[j] == before[oj]);
                        assert(before_numbers[oj] == numbers@[j]);
                    }
                    if k != at {
                        assert(places@[k] == before[ok]);
                        assert(before_numbers[ok] == numbers@[k]);
                    }
                    if j != at && k != at {
                        assert(comes_before(names@, before[oj] as int, before[ok] as int));
                    }
                }
            }
        }
        i = i + 1;
    }
    places
}

/// What was found out about an input device that could be opened.
#[derive(Clone, Copy)]
pub struct DeviceProbe {
    pub fd: i32,
    /// Bitmap of the event types that the device reports, if it could be asked.
    pub ev_bits: Option<[u8; 8]>,
    /// Bitmap of the keys that the device has, if it could be asked.
    pub key_bits: Option<[u8; 32]>,
}

impl DeviceProbe {
    /// The device has page-turn buttons.
    pub open spec fn accepted(self) -> bool {
        &&& self.ev_bits matches Some(ev_bits) && reports_keys(ev_bits@)
        &&& self.key_bits matches Some(key_bits) && has_page_key(key_bits@)
    }

    pub fn is_accepted(&self) -> (accepted: bool)
        ensures
            accepted == self.accepted(),
    {
        match (&self.ev_bits, &self.key_bits) {
            (Some(ev_bits), Some(key_bits)) => supports_keys(ev_bits) && supports_page_turns(
                key_bits,
            ),
            _ => false,
        }
    }
}

/// File descriptors of the devices that are kept (`kept`), or of those that are not.
pub open spec fn fds_of(probes: Seq<DeviceProbe>, kept: bool) -> Seq<i32> {
    probes.filter(|probe: DeviceProbe| probe.accepted() == kept).map_values(
        |probe: DeviceProbe| probe.fd,
    )
}

proof fn lemma_fds_of_push(probes: Seq<DeviceProbe>, probe: DeviceProbe, kept: bool)
    ensures
        fds_of(probes.push(probe), kept) == if probe.accepted() == kept {
            fds_of(probes, kept).push(probe.fd)
        } else {
            fds_of(probes, kept)
        },
{
    reveal(Seq::filter);
    let more = probes.push(probe);
    assert(more.drop_last() =~= probes);
    assert(more.last() == probe);
    if probe.accepted() == kept {
        assert(fds_of(more, kept) =~= fds_of(probes, kept).push(probe.fd));
    }
}

/// The page-turn buttons.
pub struct ButtonInput {
    /// Page-turn button devices (file descriptors)
    pub fds: Vec<i32>,
    /// On Kindle Oasis, the page turn buttons are inverted: top button = next page, bottom
    /// button = prev page. On most other Kindles (Voyage, etc.), bottom = next, top = prev.
    pub inverted: bool,
}

/// The page turns that a run of events asks for, in their order.
pub open spec fn turns_of(events: Seq<[u8; 16]>, inverted: bool) -> Seq<PageTurnDirection>
    decreases events.len(),
{
    if events.len() == 0 {
        Seq::empty()
    } else {
        let before = turns_of(events.drop_last(), inverted);
        match turn_of(event_of(events.last()@), inverted) {
            Some(turn) => before.push(turn),
            None => before,
        }
    }
}

impl ButtonInput {
    /// Pick the devices with page-turn buttons from those that could be opened. Returns `None` if
    /// there are none, and the file descriptors of the devices that are of no use and have to be
    /// closed. `usid` is the device's serial number, if it could be read. Both keep the order of
    /// `probes`, which is that of [`event_devices`].
    pub fn open(probes: &[DeviceProbe], usid: Option<&str>) -> (opened: (
        Option<ButtonInput>,
        Vec<i32>,
    ))
        requires
            fds_of(probes@, true).len() > 0 ==> (usid matches Some(usid) ==> can_slice(
                trimmed(usid@),
            )),
        ensures
            opened.0 is None <==> fds_of(probes@, true).len() == 0,
            opened.0 matches Some(input) ==> {
                &&& input.fds@ == fds_of(probes@, true)
                &&& input.inverted == (usid matches Some(usid) && is_oasis(trimmed(usid@)))
            },
            opened.1@ == fds_of(probes@, false),
    {
        let mut fds: Vec<i32> = Vec::new();
        let mut useless: Vec<i32> = Vec::new();
        let mut i: usize = 0;
        proof {
            reveal(Seq::filter);
            assert(fds_of(probes@.take(0), true) =~= Seq::empty());
            assert(fds_of(probes@.take(0), false) =~= Seq::empty());
        }
        while i < probes.len()
            invariant
                i <= probes@.len(),
                fds@ == fds_of(probes@.take(i as int), true),
                useless@ == fds_of(probes@.take(i as int), false),
            decreases probes@.len() - i,
        {
            proof {
                assert(probes@.take(i + 1) =~= probes@.take(i as int).push(probes@[i as int]));
                lemma_fds_of_push(probes@.take(i as int), probes@[i as int], true);
                lemma_fds_of_push(probes@.take(i as int), probes@[i as int], false);
            }
            if probes[i].is_accepted() {
                fds.push(probes[i].fd);
            } else {
                useless.push(probes[i].fd);
            }
            i = i + 1;
        }
        assert(probes@.take(i as int) =~= probes@);
        if fds.is_empty() {
            (None, useless)
        } else {
            let inverted: bool = is_oasis_model(usid);
            (Some(ButtonInput { fds, inverted }), useless)
        }
    }

    /// Return all file descriptors for polling.
    pub fn fds(&self) -> (fds: &[i32])
        ensures
            fds@ == self.fds@,
    {
        self.fds.as_slice()
    }

    /// The page turns that the events that were waiting on a device ask for.
    pub fn poll(&self, events: &[[u8; 16]]) -> (turns: Vec<PageTurnDirection>)
        ensures
            turns@ == turns_of(events@, self.inverted),
    {
        let mut turns: Vec<PageTurnDirection> = Vec::new();
        let mut i: usize = 0;
        while i < events.len()
            invariant
                i <= events@.len(),
                turns@ == turns_of(events@.take(i as int), self.inverted),
            decreases events@.len() - i,
        {
            proof {
                assert(events@.take(i + 1).drop_last() =~= events@.take(i as int));
            }
            if let Some(turn) = page_turn(parse_event(&events[i]), self.inverted) {
                turns.push(turn);
            }
            i = i + 1;
        }
        assert(events@.take(i as int) =~= events@);
        turns
    }
}

/// Unicode white space.
pub open spec fn is_white_space(c: char) -> bool {
    ||| '\u{9}' <= c <= '\u{d}'
    ||| c == ' '
    ||| c == '\u{85}'
    ||| c == '\u{a0}'
    ||| c == '\u{1680}'
    ||| '\u{2000}' <= c <= '\u{200a}'
    ||| c == '\u{2028}'
    ||| c == '\u{2029}'
    ||| c == '\u{202f}'
    ||| c == '\u{205f}'
    ||| c == '\u{3000}'
}

/// Text without the white space at its ends.
pub open spec fn trimmed(text: Seq<char>) -> Seq<char>
    decreases text.len(),
{
    if text.len() > 0 && is_white_space(text.first()) {
        trimmed(text.drop_first())
    } else if text.len() > 0 && is_white_space(text.last()) {
        trimmed(text.drop_last())
    } else {
        text
    }
}

/// The first six bytes, and the three from the third on, are whole characters, if there are that
/// many.
pub open spec fn can_slice(usid: Seq<char>) -> bool {
    let bytes = encode_utf8(usid);
    bytes.len() >= 6 ==> is_char_boundary(bytes, 2) && is_char_boundary(bytes, 5)
        && is_char_boundary(bytes, 6)
}

/// First six characters of the serial numbers of the Oasis models.
pub open spec fn oasis_prefixes() -> Seq<Seq<char>> {
    seq![
        "G0B0GC"@,
        "G0B0GD"@,
        "G0B0GR"@,
        "G0B0GU"@,
        "G0B0GT"@,
        "G000P8"@,
        "G000S1"@,
        "G000SA"@,
        "G000S2"@,
        "G000P1"@,
        "G0011L"@,
        "G000WQ"@,
        "G000WM"@,
        "G000WL"@,
        "G000WN"@,
        "G000WP"@,
    ]
}

/// Third to fifth character of older serial numbers of the Oasis models.
pub open spec fn oasis_codes() -> Seq<Seq<char>> {
    seq![
        "0GC"@,
        "0GD"@,
        "0GR"@,
        "0GU"@,
        "0GT"@,
        "0LM"@,
        "0LN"@,
        "0LP"@,
        "0LQ"@,
        "0P1"@,
        "0P2"@,
        "0P6"@,
        "0P7"@,
        "0P8"@,
        "0S1"@,
        "0S2"@,
        "0S3"@,
        "0S4"@,
        "0S7"@,
        "0SA"@,
    ]
}

/// The bytes are the text of one of the names.
pub open spec fn is_listed(bytes: Seq<u8>, names: Seq<Seq<char>>) -> bool {
    exists|i: int| 0 <= i < names.len() && bytes == encode_utf8(#[trigger] names[i])
}

/// The serial number is that of an Oasis, Oasis 2 or Oasis 3.
pub open spec fn is_oasis(usid: Seq<char>) -> bool {
    let bytes = encode_utf8(usid);
    bytes.len() >= 6 && (is_listed(bytes.subrange(0, 6), oasis_prefixes()) || is_listed(
        bytes.subrange(2, 5),
        oasis_codes(),
    ))
}

fn is_whitespace(c: char) -> (yes: bool)
    ensures
        yes == is_white_space(c),
{
    ('\u{9}' <= c && c <= '\u{d}') || c == ' ' || c == '\u{85}' || c == '\u{a0}' || c == '\u{1680}'
        || ('\u{2000}' <= c && c <= '\u{200a}') || c == '\u{2028}' || c == '\u{2029}' || c
        == '\u{202f}' || c == '\u{205f}' || c == '\u{3000}'
}

/// Text without the white space at its ends.
fn trim(text: &str) -> (core: &str)
    ensures
        core@ == trimmed(text@),
{
    let mut start: usize = 0;
    let mut end: usize = text.unicode_len();
    assert(text@.subrange(0, end as int) =~= text@);
    while start < end && is_whitespace(text.get_char(start))
        invariant
            start <= end == text@.len(),
            trimmed(text@) == trimmed(text@.subrange(start as int, end as int)),
        ensures
            start <= end == text@.len(),
            trimmed(text@) == trimmed(text@.subrange(start as int, end as int)),
            start < end ==> !is_white_space(text@[start as int]),
        decreases end - start,
    {
        assert(text@.subrange(start as int, end as int).drop_first() =~= text@.subrange(
            start + 1,
            end as int,
        ));
        start = start + 1;
    }
    while start < end && is_whitespace(text.get_char(end - 1))
        invariant
            start <= end <= text@.len(),
            trimmed(text@) == trimmed(text@.subrange(start as int, end as int)),
            start < end ==> !is_white_space(text@[start as int]),
        ensures
            start <= end <= text@.len(),
            trimmed(text@) == text@.subrange(start as int, end as int),
        decreases end - start,
    {
        assert(text@.subrange(start as int, end as int).drop_last() =~= text@.subrange(
            start as int,
            end - 1,
        ));
        end = end - 1;
    }
    text.substring_char(start, end)
}

fn same_bytes(a: &[u8], b: &[u8]) -> (same: bool)
    ensures
        same == (a@ == b@),
{
    if a.len() != b.len() {
        return false;
    }
    let mut i: usize = 0;
    while i < a.len()
        invariant
            i <= a@.len() == b@.len(),
            forall|k: int| 0 <= k < i ==> a@[k] == b@[k],
        decreases a@.len() - i,
    {
        if a[i] != b[i] {
            return false;
        }
        i = i + 1;
    }
    assert(a@ =~= b@);
    true
}

fn listed(bytes: &[u8], names: &[&str]) -> (found: bool)
    ensures
        found == is_listed(bytes@, names@.map_values(|name: &str| name@)),
{
    let ghost texts = names@.map_values(|name: &str| name@);
    let mut i: usize = 0;
    while i < names.len()
        invariant
            i <= names@.len(),
            texts == names@.map_values(|name: &str| name@),
            forall|k: int| 0 <= k < i ==> bytes@ != encode_utf8(#[trigger] texts[k]),
        decreases names@.len() - i,
    {
        if same_bytes(bytes, names[i].as_bytes()) {
            assert(bytes@ == encode_utf8(texts[i as int]));
            return true;
        }
        i = i + 1;
    }
    false
}

/// Whether the serial number can be taken apart as [`is_oasis_model`] does.
pub fn is_sliceable(usid: &str) -> (sliceable: bool)
    ensures
        sliceable == can_slice(trimmed(usid@)),
{
    let usid: &str = trim(usid);
    usid.as_bytes().len() < 6 || (usid.is_char_boundary(2) && usid.is_char_boundary(5)
        && usid.is_char_boundary(6))
}

/// Detect the Kindle model from its serial number and return true if the device has inverted
/// page turn buttons (Oasis, Oasis 2, Oasis 3).
pub fn is_oasis_model(usid: Option<&str>) -> (inverted: bool)
    requires
        usid matches Some(usid) ==> can_slice(trimmed(usid@)),
    ensures
        inverted == (usid matches Some(usid) && is_oasis(trimmed(usid@))),
{
    let usid: &str = match usid {
        Some(usid) => trim(usid),
        None => return false,
    };
    let bytes: &[u8] = usid.as_bytes();
    if bytes.len() < 6 {
        return false;
    }
    let prefix6: &[u8] = slice_subrange(bytes, 0, 6);
    let prefixes: [&str; 16] = [
        "G0B0GC",
        "G0B0GD",
        "G0B0GR",
        "G0B0GU",
        "G0B0GT",
        "G000P8",
        "G000S1",
        "G000SA",
        "G000S2",
        "G000P1",
        "G0011L",
        "G000WQ",
        "G000WM",
        "G000WL",
        "G000WN",
        "G000WP",
    ];
    let code3: &[u8] = slice_subrange(bytes, 2, 5);
    let codes: [&str; 20] = [
        "0GC",
        "0GD",
        "0GR",
        "0GU",
        "0GT",
        "0LM",
        "0LN",
        "0LP",
        "0LQ",
        "0P1",
        "0P2",
        "0P6",
        "0P7",
        "0P8",
        "0S1",
        "0S2",
        "0S3",
        "0S4",
        "0S7",
        "0SA",
    ];
    assert(prefixes@.map_values(|name: &str| name@) =~= oasis_prefixes());
    assert(codes@.map_values(|name: &str| name@) =~= oasis_codes());
    listed(prefix6, prefixes.as_slice()) || listed(code3, codes.as_slice())
}

/// A run of characters of ASCII text is stored as the same run of its bytes.
proof fn lemma_ascii_subrange(text: Seq<char>, from: int, to: int)
    requires
        is_ascii_chars(text),
        0 <= from <= to <= text.len(),
    ensures
        encode_utf8(text).len() == text.len(),
        encode_utf8(text).subrange(from, to) == encode_utf8(text.subrange(from, to)),
{
    let part = text.subrange(from, to);
    assert(is_ascii_chars(part));
    is_ascii_chars_encode_utf8(text);
    is_ascii_chars_encode_utf8(part);
    assert(encode_utf8(text).subrange(from, to) =~= encode_utf8(part)) by {
        assert forall|i: int| 0 <= i < part.len() implies encode_utf8(text).subrange(from, to)[i]
            == encode_utf8(part)[i] by {
            assert(part[i] == text[from + i]);
        }
    }
}

/// Bytes that are stored text are listed exactly if the text is.
proof fn lemma_listed_text(text: Seq<char>, names: Seq<Seq<char>>)
    ensures
        is_listed(encode_utf8(text), names) == names.contains(text),
{
    if is_listed(encode_utf8(text), names) {
        let i = choose|i: int|
            0 <= i < names.len() && encode_utf8(text) == encode_utf8(#[trigger] names[i]);
        encode_utf8_decode_utf8(text);
        encode_utf8_decode_utf8(names[i]);
        assert(names[i] == text);
    }
    if names.contains(text) {
        let i = choose|i: int| 0 <= i < names.len() && names[i] == text;
        assert(encode_utf8(text) == encode_utf8(names[i]));
    }
}

/// A serial number in ASCII can always be taken apart, and it is that of an Oasis exactly if it
/// has at least six characters and starts with one of the listed prefixes or has one of the
/// listed codes from its third character on.
pub proof fn law_ascii_serial_numbers(usid: Seq<char>)
    requires
        is_ascii_chars(usid),
    ensures
        can_slice(usid),
        is_oasis(usid) <==> usid.len() >= 6 && (oasis_prefixes().contains(usid.subrange(0, 6))
            || oasis_codes().contains(usid.subrange(2, 5))),
{
    let bytes = encode_utf8(usid);
    is_ascii_chars_encode_utf8(usid);
    encode_utf8_valid_utf8(usid);
    if usid.len() >= 6 {
        assert forall|i: int| 0 <= i < 6 implies is_char_boundary(bytes, i) by {
            assert(bytes[i] == usid[i] as u8);
            assert(usid[i] as u8 <= 0x7f);
            is_char_boundary_iff_not_is_continuation_byte(bytes, i);
        }
        if usid.len() == 6 {
            is_char_boundary_start_end_of_seq(bytes);
        } else {
            assert(bytes[6] == usid[6] as u8);
            is_char_boundary_iff_not_is_continuation_byte(bytes, 6);
        }
        lemma_ascii_subrange(usid, 0, 6);
        lemma_ascii_subrange(usid, 2, 5);
        lemma_listed_text(usid.subrange(0, 6), oasis_prefixes());
        lemma_listed_text(usid.subrange(2, 5), oasis_codes());
    }
}

/// White space around a serial number makes no difference.
pub proof fn law_trimming_ignores_surrounding_space(text: Seq<char>, space: char)
    requires
        is_white_space(space),
    ensures
        trimmed(seq![space] + text) == trimmed(text),
        trimmed(text.push(space)) == trimmed(text),
        trimmed(trimmed(text)) == trimmed(text),
    decreases text.len(),
{
    assert((seq![space] + text).drop_first() =~= text);
    assert(text.push(space).drop_last() =~= text);
    if text.len() > 0 && is_white_space(text.first()) {
        assert(text.push(space).drop_first() =~= text.drop_first().push(space));
        law_trimming_ignores_surrounding_space(text.drop_first(), space);
    } else if text.len() > 0 && is_white_space(text.last()) {
        law_trimming_ignores_surrounding_space(text.drop_last(), space);
    } else if text.len() == 0 {
        assert(text.push(space).drop_first() =~= text);
    }
}

/// Inverting the buttons swaps the direction of every page turn and changes nothing else: the
/// same events turn pages.
pub proof fn law_inverting_swaps_directions(event: InputEvent)
    ensures
        turn_of(event, true) == (match turn_of(event, false) {
            Some(PageTurnDirection::Prev) => Some(PageTurnDirection::Next),
            Some(PageTurnDirection::Next) => Some(PageTurnDirection::Prev),
            None => None,
        }),
{
}

/// Releasing a key turns no page, and neither does any event that is not a key's.
pub proof fn law_only_presses_turn_pages(event: InputEvent, inverted: bool)
    requires
        event.kind != EV_KEY || event.value == 0,
    ensures
        turn_of(event, inverted) is None,
{
}

/// Events that wait in two batches turn the same pages as if they had waited in one.
pub proof fn law_batches_turn_the_same_pages(
    first: Seq<[u8; 16]>,
    second: Seq<[u8; 16]>,
    inverted: bool,
)
    ensures
        turns_of(first + second, inverted) == turns_of(first, inverted) + turns_of(
            second,
            inverted,
        ),
    decreases second.len(),
{
    if second.len() == 0 {
        assert(first + second =~= first);
        assert(turns_of(first, inverted) + Seq::empty() =~= turns_of(first, inverted));
    } else {
        law_batches_turn_the_same_pages(first, second.drop_last(), inverted);
        assert((first + second).drop_last() =~= first + second.drop_last());
        assert(turns_of(first + second, inverted) =~= turns_of(first, inverted) + turns_of(
            second,
            inverted,
        ));
    }
}

/// A number of 32 bits is made up of its four bytes.
proof fn lemma_four_bytes(n: int)
    requires
        0 <= n < 0x1_0000_0000,
    ensures
        n % 256 + 256 * (n / 256 % 256) + 65536 * (n / 65536 % 256 + 256 * (n / 16777216)) == n,
{
    let high = n / 256;
    let higher = high / 256;
    assert(n / 65536 == higher);
    assert(n / 16777216 == higher / 256);
}

/// The fields of an event are stored one after the other, each with its low byte first: bytes that
/// hold the fields of an event so are read as that event. A negative value is stored as what it
/// is short of a full 32 bits.
#[verifier::spinoff_prover]
pub proof fn law_events_are_stored_low_byte_first(event: InputEvent, bytes: Seq<u8>, value: int)
    requires
        bytes.len() == 16,
        event.value >= 0 ==> value == event.value,
        event.value < 0 ==> value == event.value + 0x1_0000_0000,
        bytes[0] == event.tv_sec as int % 256,
        bytes[1] == event.tv_sec as int / 256 % 256,
        bytes[2] == event.tv_sec as int / 65536 % 256,
        bytes[3] == event.tv_sec as int / 16777216,
        bytes[4] == event.tv_usec as int % 256,
        bytes[5] == event.tv_usec as int / 256 % 256,
        bytes[6] == event.tv_usec as int / 65536 % 256,
        bytes[7] == event.tv_usec as int / 16777216,
        bytes[8] == event.kind as int % 256,
        bytes[9] == event.kind as int / 256,
        bytes[10] == event.code as int % 256,
        bytes[11] == event.code as int / 256,
        bytes[12] == value % 256,
        bytes[13] == value / 256 % 256,
        bytes[14] == value / 65536 % 256,
        bytes[15] == value / 16777216,
    ensures
        event_of(bytes) == event,
{
    lemma_four_bytes(event.tv_sec as int);
    lemma_four_bytes(event.tv_usec as int);
    lemma_four_bytes(value);
    let stored = value as u32;
    let v = event.value;
    assert(v >= 0 ==> v as u32 == v) by (bit_vector);
    assert(v < 0 ==> v as u32 == v + 0x1_0000_0000) by (bit_vector);
    assert(stored == v as u32);
    assert((v as u32) as i32 == v) by (bit_vector);
}

/// The keys 104, 105 and 194, pressed or held, turn to the previous page, and the keys 106, 109
/// and 193 to the next, or the other way round where the buttons are inverted. Nothing else turns
/// a page.
pub proof fn law_six_keys_turn_pages(event: InputEvent, inverted: bool)
    ensures
        ({
            let pressed = event.kind == 1 && (event.value == 1 || event.value == 2);
            let back = event.code == 104 || event.code == 105 || event.code == 194;
            let forth = event.code == 106 || event.code == 109 || event.code == 193;
            let turn = turn_of(event, inverted);
            &&& turn is Some <==> pressed && (back || forth)
            &&& pressed && back && !inverted ==> turn == Some(PageTurnDirection::Prev)
            &&& pressed && back && inverted ==> turn == Some(PageTurnDirection::Next)
            &&& pressed && forth && !inverted ==> turn == Some(PageTurnDirection::Next)
            &&& pressed && forth && inverted ==> turn == Some(PageTurnDirection::Prev)
        }),
{
}

/// An event that comes last adds the page turn that it asks for, if any, after all others.
pub proof fn law_each_event_turns_its_own_page(
    events: Seq<[u8; 16]>,
    event: [u8; 16],
    inverted: bool,
)
    ensures
        turns_of(Seq::empty(), inverted).len() == 0,
        ({
            let before = turns_of(events, inverted);
            let after = turns_of(events.push(event), inverted);
            match turn_of(event_of(event@), inverted) {
                Some(turn) => after == before.push(turn),
                None => after == before,
            }
        }),
{
    assert(events.push(event).drop_last() =~= events);
}

/// A bitmap counts its bits from the lowest bit of its first byte on, eight to a byte, and has no
/// bits beyond its end.
pub proof fn law_bits_are_counted_from_the_lowest(bitmap: Seq<u8>, byte: int)
    requires
        0 <= byte,
    ensures
        byte < bitmap.len() ==> ({
            let b = bitmap[byte] as int;
            &&& bit_set(bitmap, 8 * byte) <==> b % 2 == 1
            &&& bit_set(bitmap, 8 * byte + 1) <==> b / 2 % 2 == 1
            &&& bit_set(bitmap, 8 * byte + 2) <==> b / 4 % 2 == 1
            &&& bit_set(bitmap, 8 * byte + 3) <==> b / 8 % 2 == 1
            &&& bit_set(bitmap, 8 * byte + 4) <==> b / 16 % 2 == 1
            &&& bit_set(bitmap, 8 * byte + 5) <==> b / 32 % 2 == 1
            &&& bit_set(bitmap, 8 * byte + 6) <==> b / 64 % 2 == 1
            &&& bit_set(bitmap, 8 * byte + 7) <==> b / 128 == 1
        }),
        byte >= bitmap.len() ==> forall|bit: int|
            8 * byte <= bit < 8 * byte + 8 ==> !#[trigger] bit_set(bitmap, bit),
{
    if byte < bitmap.len() {
        let b = bitmap[byte];
        assert(b & (1u8 << 0u8) != 0 <==> b % 2 == 1) by (bit_vector);
        assert(b & (1u8 << 1u8) != 0 <==> b / 2 % 2 == 1) by (bit_vector);
        assert(b & (1u8 << 2u8) != 0 <==> b / 4 % 2 == 1) by (bit_vector);
        assert(b & (1u8 << 3u8) != 0 <==> b / 8 % 2 == 1) by (bit_vector);
        assert(b & (1u8 << 4u8) != 0 <==> b / 16 % 2 == 1) by (bit_vector);
        assert(b & (1u8 << 5u8) != 0 <==> b / 32 % 2 == 1) by (bit_vector);
        assert(b & (1u8 << 6u8) != 0 <==> b / 64 % 2 == 1) by (bit_vector);
        assert(b & (1u8 << 7u8) != 0 <==> b / 128 == 1) by (bit_vector);
    }
}

/// Whether a device reports keys is told by one bit of the first byte, whatever the others are;
/// so a device that reports more kinds of events besides is not turned away.
pub proof fn law_one_bit_tells_of_keys(ev_bits: Seq<u8>, other: Seq<u8>, more: u8)
    requires
        ev_bits.len() > 0,
        other.len() > 0,
    ensures
        reports_keys(ev_bits) <==> ev_bits[0] & 0x02 != 0,
        ev_bits[0] & 0x02 == other[0] & 0x02 ==> reports_keys(ev_bits) == reports_keys(other),
        reports_keys(ev_bits) && other[0] == ev_bits[0] | more ==> reports_keys(other),
        reports_keys(ev_bits) && other.len() >= ev_bits.len() && (forall|i: int|
            0 <= i < ev_bits.len() ==> #[trigger] other[i] & ev_bits[i] == ev_bits[i])
            ==> reports_keys(other),
{
    let a = ev_bits[0];
    let b = other[0];
    assert(1u8 << 1u8 == 0x02u8) by (bit_vector);
    assert(b == a | more && a & 0x02 != 0 ==> b & 0x02 != 0) by (bit_vector);
    assert(b & a == a && a & 0x02 != 0 ==> b & 0x02 != 0) by (bit_vector);
}

/// A device has a page-turn key exactly if one of the six bits of those keys is set: the bits 0, 1,
/// 2 and 5 of byte 13, and the bits 1 and 2 of byte 24.
pub proof fn law_six_bits_tell_of_page_keys(key_bits: Seq<u8>)
    requires
        key_bits.len() > 24,
    ensures
        has_page_key(key_bits) <==> key_bits[13] & 0x27 != 0 || key_bits[24] & 0x06 != 0,
{
    let a = key_bits[13];
    let b = key_bits[24];
    assert(a & 0x27 != 0 <==> a & (1u8 << 0u8) != 0 || a & (1u8 << 1u8) != 0 || a & (1u8 << 2u8)
        != 0 || a & (1u8 << 5u8) != 0) by (bit_vector);
    assert(b & 0x06 != 0 <==> b & (1u8 << 1u8) != 0 || b & (1u8 << 2u8) != 0) by (bit_vector);
    assert(bit_set(key_bits, 104u16 as int) <==> a & (1u8 << 0u8) != 0);
    assert(bit_set(key_bits, 105u16 as int) <==> a & (1u8 << 1u8) != 0);
    assert(bit_set(key_bits, 106u16 as int) <==> a & (1u8 << 2u8) != 0);
    assert(bit_set(key_bits, 109u16 as int) <==> a & (1u8 << 5u8) != 0);
    assert(bit_set(key_bits, 193u16 as int) <==> b & (1u8 << 1u8) != 0);
    assert(bit_set(key_bits, 194u16 as int) <==> b & (1u8 << 2u8) != 0);
}

/// A device is used exactly if it could be asked for both of its bitmaps, reports keys, and has
/// one of the six page-turn keys.
pub proof fn law_devices_with_page_keys_are_used(probe: DeviceProbe)
    ensures
        probe.accepted() <==> probe.ev_bits is Some && probe.key_bits is Some && (
        probe.ev_bits->0)@[0] & 0x02 != 0 && ((probe.key_bits->0)@[13] & 0x27 != 0 || (
        probe.key_bits->0)@[24] & 0x06 != 0),
{
    if probe.ev_bits is Some && probe.key_bits is Some {
        let ev_bits = (probe.ev_bits->0)@;
        let key_bits = (probe.key_bits->0)@;
        assert(ev_bits.len() == 8);
        assert(key_bits.len() == 32);
        law_one_bit_tells_of_keys(ev_bits, ev_bits, 0);
        law_six_bits_tell_of_page_keys(key_bits);
    }
}

/// Each device that is probed goes, after those before it, either to the devices that are used or
/// to those that are closed, and the other list does not change.
pub proof fn law_each_device_is_used_or_closed(probes: Seq<DeviceProbe>, probe: DeviceProbe)
    ensures
        fds_of(Seq::empty(), true).len() == 0,
        fds_of(Seq::empty(), false).len() == 0,
        probe.accepted() ==> fds_of(probes.push(probe), true) == fds_of(probes, true).push(
            probe.fd,
        ) && fds_of(probes.push(probe), false) == fds_of(probes, false),
        !probe.accepted() ==> fds_of(probes.push(probe), false) == fds_of(probes, false).push(
            probe.fd,
        ) && fds_of(probes.push(probe), true) == fds_of(probes, true),
{
    reveal(Seq::filter);
    lemma_fds_of_push(probes, probe, true);
    lemma_fds_of_push(probes, probe, false);
}

/// The name of an event device is `event` and one digit or more, and its number is what the digits
/// say: a single digit says itself, and each further digit counts ten times as much as before what
/// came before it. Nothing else is an event device, but for numbers that need more than 64 bits.
pub proof fn law_device_numbers_are_decimal(digits: Seq<char>, digit: char, name: Seq<char>)
    ensures
        decimal(seq![digit]) == digit as int - 48,
        decimal(digits.push(digit)) == 10 * decimal(digits) + (digit as int - 48),
        digits.len() > 0 && (forall|i: int|
            0 <= i < digits.len() ==> 48 <= #[trigger] digits[i] as int <= 57) && decimal(digits)
            < 0x1_0000_0000_0000_0000 ==> device_number("event"@ + digits) == Some(decimal(digits)),
        device_number(name) is Some ==> ({
            let rest = name.skip(5);
            &&& name == "event"@ + rest
            &&& rest.len() > 0
            &&& decimal(rest) == device_number(name)->0
            &&& forall|i: int| 0 <= i < rest.len() ==> 48 <= #[trigger] rest[i] as int <= 57
        }),
{
    reveal_strlit("event");
    assert(digits.push(digit).drop_last() =~= digits);
    assert(seq![digit].drop_last() =~= Seq::empty());
    assert(decimal(Seq::empty()) == 0);
    let whole = "event"@ + digits;
    assert(whole.take(5) =~= "event"@);
    assert(whole.skip(5) =~= digits);
    if digits.len() > 0 && (forall|i: int|
        0 <= i < digits.len() ==> 48 <= #[trigger] digits[i] as int <= 57) {
        assert forall|i: int| 5 <= i < whole.len() implies is_digit(#[trigger] whole[i]) by {
            assert(whole[i] == digits[i - 5]);
        }
    }
    if device_number(name) is Some {
        let rest = name.skip(5);
        assert(name =~= name.take(5) + rest);
        assert forall|i: int| 0 <= i < rest.len() implies 48 <= #[trigger] rest[i] as int
            <= 57 by {
            assert(is_digit(name[i + 5]));
        }
    }
}

/// Event devices come in the order of their numbers; of two with the same number the one that
/// stands first in the directory comes first. So of any two one comes before the other, never both.
pub proof fn law_lower_numbers_come_first(names: Seq<String>, i: int, j: int)
    requires
        0 <= i < names.len(),
        0 <= j < names.len(),
        device_number(names[i]@) is Some,
        device_number(names[j]@) is Some,
    ensures
        device_number(names[i]@)->0 < device_number(names[j]@)->0 ==> comes_before(names, i, j)
            && !comes_before(names, j, i),
        device_number(names[i]@) == device_number(names[j]@) && i < j ==> comes_before(names, i, j)
            && !comes_before(names, j, i),
        !comes_before(names, i, i),
{
}

/// Trimming cuts white space off both ends, all of it and nothing else: what is left is a run of
/// the text that neither starts nor ends with white space. Returns where it starts and ends.
pub proof fn law_trimming_cuts_only_white_space(text: Seq<char>) -> (ends: (int, int))
    ensures
        0 <= ends.0 <= ends.1 <= text.len(),
        trimmed(text) == text.subrange(ends.0, ends.1),
        forall|i: int| 0 <= i < ends.0 ==> is_white_space(#[trigger] text[i]),
        forall|i: int| ends.1 <= i < text.len() ==> is_white_space(#[trigger] text[i]),
        ends.0 < ends.1 ==> !is_white_space(text[ends.0]) && !is_white_space(text[ends.1 - 1]),
    decreases text.len(),
{
    if text.len() > 0 && is_white_space(text.first()) {
        let rest = text.drop_first();
        let (start, end) = law_trimming_cuts_only_white_space(rest);
        assert(rest.subrange(start, end) =~= text.subrange(start + 1, end + 1));
        assert forall|i: int| 0 <= i < start + 1 implies is_white_space(#[trigger] text[i]) by {
            if i > 0 {
                assert(rest[i - 1] == text[i]);
            }
        }
        assert forall|i: int| end + 1 <= i < text.len() implies is_white_space(
            #[trigger] text[i],
        ) by {
            assert(rest[i - 1] == text[i]);
        }
        (start + 1, end + 1)
    } else if text.len() > 0 && is_white_space(text.last()) {
        let rest = text.drop_last();
        let (start, end) = law_trimming_cuts_only_white_space(rest);
        assert(rest.subrange(start, end) =~= text.subrange(start, end));
        assert forall|i: int| 0 <= i < start implies is_white_space(#[trigger] text[i]) by {
            assert(rest[i] == text[i]);
        }
        assert forall|i: int| end <= i < text.len() implies is_white_space(#[trigger] text[i]) by {
            if i < rest.len() {
                assert(rest[i] == text[i]);
            }
        }
        (start, end)
    } else {
        assert(text.subrange(0, text.len() as int) =~= text);
        (0, text.len() as int)
    }
}

/// A serial number can be taken apart exactly if it has less than six bytes, or a character starts
/// at its third, its sixth and its seventh byte, where it has one; the bytes from 128 to 191 start
/// none.
pub proof fn law_serial_numbers_are_cut_between_characters(usid: Seq<char>)
    ensures
        ({
            let bytes = encode_utf8(usid);
            can_slice(usid) <==> bytes.len() < 6 || (!(128 <= bytes[2] <= 191) && !(128 <= bytes[5]
                <= 191) && (bytes.len() == 6 || !(128 <= bytes[6] <= 191)))
        }),
{
    let bytes = encode_utf8(usid);
    encode_utf8_valid_utf8(usid);
    if bytes.len() >= 6 {
        is_char_boundary_iff_not_is_continuation_byte(bytes, 2);
        is_char_boundary_iff_not_is_continuation_byte(bytes, 5);
        if bytes.len() == 6 {
            is_char_boundary_start_end_of_seq(bytes);
        } else {
            is_char_boundary_iff_not_is_continuation_byte(bytes, 6);
        }
    }
}

/// Bytes are a text of six ASCII characters exactly if each is the code of its character.
proof fn lemma_six_bytes(text: Seq<char>, bytes: Seq<u8>)
    requires
        is_ascii_chars(text),
        text.len() == 6,
        bytes.len() == 6,
    ensures
        bytes == encode_utf8(text) <==> bytes[0] == text[0] as u8 && bytes[1] == text[1] as u8
            && bytes[2] == text[2] as u8 && bytes[3] == text[3] as u8 && bytes[4] == text[4] as u8
            && bytes[5] == text[5] as u8,
{
    is_ascii_chars_encode_utf8(text);
    let encoded = encode_utf8(text);
    assert(encoded[0] == text[0] as u8 && encoded[1] == text[1] as u8 && encoded[2] == text[2] as u8
        && encoded[3] == text[3] as u8 && encoded[4] == text[4] as u8 && encoded[5]
        == text[5] as u8);
    if bytes[0] == text[0] as u8 && bytes[1] == text[1] as u8 && bytes[2] == text[2] as u8
        && bytes[3] == text[3] as u8 && bytes[4] == text[4] as u8 && bytes[5] == text[5] as u8 {
        assert(bytes =~= encoded);
    }
}

/// Bytes are a text of three ASCII characters exactly if each is the code of its character.
proof fn lemma_three_bytes(text: Seq<char>, bytes: Seq<u8>)
    requires
        is_ascii_chars(text),
        text.len() == 3,
        bytes.len() == 3,
    ensures
        bytes == encode_utf8(text) <==> bytes[0] == text[0] as u8 && bytes[1] == text[1] as u8
            && bytes[2] == text[2] as u8,
{
    is_ascii_chars_encode_utf8(text);
    let encoded = encode_utf8(text);
    assert(encoded[0] == text[0] as u8 && encoded[1] == text[1] as u8 && encoded[2]
        == text[2] as u8);
    if bytes[0] == text[0] as u8 && bytes[1] == text[1] as u8 && bytes[2] == text[2] as u8 {
        assert(bytes =~= encoded);
    }
}

/// The first six bytes of the serial numbers of the Oasis models: `G0B0G` and one of `CDRUT`, or
/// `G000` and one of `P8`, `P1`, `S1`, `S2`, `SA`, `WL`, `WM`, `WN`, `WP` and `WQ`, or `G0011L`.
pub proof fn law_prefixes_of_the_oasis_models(bytes: Seq<u8>)
    requires
        bytes.len() == 6,
    ensures
        is_listed(bytes, oasis_prefixes()) <==> ({
            let (b2, b3, b4, b5) = (bytes[2], bytes[3], bytes[4], bytes[5]);
            &&& bytes[0] == 'G' as u8
            &&& bytes[1] == '0' as u8
            &&& {
                ||| b2 == 'B' as u8 && b3 == '0' as u8 && b4 == 'G' as u8 && (b5 == 'C' as u8 || b5
                    == 'D' as u8 || b5 == 'R' as u8 || b5 == 'U' as u8 || b5 == 'T' as u8)
                ||| b2 == '0' as u8 && b3 == '0' as u8 && b4 == 'P' as u8 && (b5 == '8' as u8 || b5
                    == '1' as u8)
                ||| b2 == '0' as u8 && b3 == '0' as u8 && b4 == 'S' as u8 && (b5 == '1' as u8 || b5
                    == '2' as u8 || b5 == 'A' as u8)
                ||| b2 == '0' as u8 && b3 == '0' as u8 && b4 == 'W' as u8 && (b5 == 'L' as u8 || b5
                    == 'M' as u8 || b5 == 'N' as u8 || b5 == 'P' as u8 || b5 == 'Q' as u8)
                ||| b2 == '0' as u8 && b3 == '1' as u8 && b4 == '1' as u8 && b5 == 'L' as u8
            }
        }),
{
    reveal_strlit("G0B0GC");
    reveal_strlit("G0B0GD");
    reveal_strlit("G0B0GR");
    reveal_strlit("G0B0GU");
    reveal_strlit("G0B0GT");
    reveal_strlit("G000P8");
    reveal_strlit("G000S1");
    reveal_strlit("G000SA");
    reveal_strlit("G000S2");
    reveal_strlit("G000P1");
    reveal_strlit("G0011L");
    reveal_strlit("G000WQ");
    reveal_strlit("G000WM");
    reveal_strlit("G000WL");
    reveal_strlit("G000WN");
    reveal_strlit("G000WP");
    lemma_six_bytes("G0B0GC"@, bytes);
    lemma_six_bytes("G0B0GD"@, bytes);
    lemma_six_bytes("G0B0GR"@, bytes);
    lemma_six_bytes("G0B0GU"@, bytes);
    lemma_six_bytes("G0B0GT"@, bytes);
    lemma_six_bytes("G000P8"@, bytes);
    lemma_six_bytes("G000S1"@, bytes);
    lemma_six_bytes("G000SA"@, bytes);
    lemma_six_bytes("G000S2"@, bytes);
    lemma_six_bytes("G000P1"@, bytes);
    lemma_six_bytes("G0011L"@, bytes);
    lemma_six_bytes("G000WQ"@, bytes);
    lemma_six_bytes("G000WM"@, bytes);
    lemma_six_bytes("G000WL"@, bytes);
    lemma_six_bytes("G000WN"@, bytes);
    lemma_six_bytes("G000WP"@, bytes);
    let names = oasis_prefixes();
    assert(oasis_prefixes()[0] == "G0B0GC"@);
    assert(oasis_prefixes()[1] == "G0B0GD"@);
    assert(oasis_prefixes()[2] == "G0B0GR"@);
    assert(oasis_prefixes()[3] == "G0B0GU"@);
    assert(oasis_prefixes()[4] == "G0B0GT"@);
    assert(oasis_prefixes()[5] == "G000P8"@);
    assert(oasis_prefixes()[6] == "G000S1"@);
    assert(oasis_prefixes()[7] == "G000SA"@);
    assert(oasis_prefixes()[8] == "G000S2"@);
    assert(oasis_prefixes()[9] == "G000P1"@);
    assert(oasis_prefixes()[10] == "G0011L"@);
    assert(oasis_prefixes()[11] == "G000WQ"@);
    assert(oasis_prefixes()[12] == "G000WM"@);
    assert(oasis_prefixes()[13] == "G000WL"@);
    assert(oasis_prefixes()[14] == "G000WN"@);
    assert(oasis_prefixes()[15] == "G000WP"@);
    if is_listed(bytes, names) {
        let i = choose|i: int| 0 <= i < names.len() && bytes == encode_utf8(#[trigger] names[i]);
        assert(names[i] == oasis_prefixes()[i]);
    }
}

/// The third to fifth byte of the older serial numbers of the Oasis models: `0G` and one of
/// `CDRUT`, `0L` and one of `MNPQ`, `0P` and one of `12678`, or `0S` and one of `12347A`.
pub proof fn law_codes_of_the_older_oasis_models(bytes: Seq<u8>)
    requires
        bytes.len() == 3,
    ensures
        is_listed(bytes, oasis_codes()) <==> ({
            let b2 = bytes[2];
            &&& bytes[0] == '0' as u8
            &&& {
                ||| bytes[1] == 'G' as u8 && (b2 == 'C' as u8 || b2 == 'D' as u8 || b2 == 'R' as u8
                    || b2 == 'U' as u8 || b2 == 'T' as u8)
                ||| bytes[1] == 'L' as u8 && (b2 == 'M' as u8 || b2 == 'N' as u8 || b2 == 'P' as u8
                    || b2 == 'Q' as u8)
                ||| bytes[1] == 'P' as u8 && (b2 == '1' as u8 || b2 == '2' as u8 || b2 == '6' as u8
                    || b2 == '7' as u8 || b2 == '8' as u8)
                ||| bytes[1] == 'S' as u8 && (b2 == '1' as u8 || b2 == '2' as u8 || b2 == '3' as u8
                    || b2 == '4' as u8 || b2 == '7' as u8 || b2 == 'A' as u8)
            }
        }),
{
    reveal_strlit("0GC");
    reveal_strlit("0GD");
    reveal_strlit("0GR");
    reveal_strlit("0GU");
    reveal_strlit("0GT");
    reveal_strlit("0LM");
    reveal_strlit("0LN");
    reveal_strlit("0LP");
    reveal_strlit("0LQ");
    reveal_strlit("0P1");
    reveal_strlit("0P2");
    reveal_strlit("0P6");
    reveal_strlit("0P7");
    reveal_strlit("0P8");
    reveal_strlit("0S1");
    reveal_strlit("0S2");
    reveal_strlit("0S3");
    reveal_strlit("0S4");
    reveal_strlit("0S7");
    reveal_strlit("0SA");
    lemma_three_bytes("0GC"@, bytes);
    lemma_three_bytes("0GD"@, bytes);
    lemma_three_bytes("0GR"@, bytes);
    lemma_three_bytes("0GU"@, bytes);
    lemma_three_bytes("0GT"@, bytes);
    lemma_three_bytes("0LM"@, bytes);
    lemma_three_bytes("0LN"@, bytes);
    lemma_three_bytes("0LP"@, bytes);
    lemma_three_bytes("0LQ"@, bytes);
    lemma_three_bytes("0P1"@, bytes);
    lemma_three_bytes("0P2"@, bytes);
    lemma_three_bytes("0P6"@, bytes);
    lemma_three_bytes("0P7"@, bytes);
    lemma_three_bytes("0P8"@, bytes);
    lemma_three_bytes("0S1"@, bytes);
    lemma_three_bytes("0S2"@, bytes);
    lemma_three_bytes("0S3"@, bytes);
    lemma_three_bytes("0S4"@, bytes);
    lemma_three_bytes("0S7"@, bytes);
    lemma_three_bytes("0SA"@, bytes);
    let names = oasis_codes();
    assert(oasis_codes()[0] == "0GC"@);
    assert(oasis_codes()[1] == "0GD"@);
    assert(oasis_codes()[2] == "0GR"@);
    assert(oasis_codes()[3] == "0GU"@);
    assert(oasis_codes()[4] == "0GT"@);
    assert(oasis_codes()[5] == "0LM"@);
    assert(oasis_codes()[6] == "0LN"@);
    assert(oasis_codes()[7] == "0LP"@);
    assert(oasis_codes()[8] == "0LQ"@);
    assert(oasis_codes()[9] == "0P1"@);
    assert(oasis_codes()[10] == "0P2"@);
    assert(oasis_codes()[11] == "0P6"@);
    assert(oasis_codes()[12] == "0P7"@);
    assert(oasis_codes()[13] == "0P8"@);
    assert(oasis_codes()[14] == "0S1"@);
    assert(oasis_codes()[15] == "0S2"@);
    assert(oasis_codes()[16] == "0S3"@);
    assert(oasis_codes()[17] == "0S4"@);
    assert(oasis_codes()[18] == "0S7"@);
    assert(oasis_codes()[19] == "0SA"@);
    if is_listed(bytes, names) {
        let i = choose|i: int| 0 <= i < names.len() && bytes == encode_utf8(#[trigger] names[i]);
        assert(names[i] == oasis_codes()[i]);
    }
}

/// A serial number is that of an Oasis exactly if it has six bytes or more and either its first
/// six are listed, or its third to fifth are; what follows them makes no difference.
pub proof fn law_only_the_first_six_bytes_tell_the_model(usid: Seq<char>)
    ensures
        ({
            let bytes = encode_utf8(usid);
            &&& bytes.len() < 6 ==> !is_oasis(usid)
            &&& bytes.len() >= 6 ==> (is_oasis(usid) <==> is_listed(
                seq![bytes[0], bytes[1], bytes[2], bytes[3], bytes[4], bytes[5]],
                oasis_prefixes(),
            ) || is_listed(seq![bytes[2], bytes[3], bytes[4]], oasis_codes()))
        }),
{
    let bytes = encode_utf8(usid);
    if bytes.len() >= 6 {
        assert(bytes.subrange(0, 6) =~= seq![
            bytes[0],
            bytes[1],
            bytes[2],
            bytes[3],
            bytes[4],
            bytes[5],
        ]);
        assert(bytes.subrange(2, 5) =~= seq![bytes[2], bytes[3], bytes[4]]);
    }
}

} // verus!
