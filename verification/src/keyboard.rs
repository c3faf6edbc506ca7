//! Keystrokes for the ydotoold virtual keyboard.
//!
//! Text is typed by sending Linux `input_event` records to the ydotoold
//! socket: for each character the key (with Shift when the layout needs it)
//! is pressed and released, each event followed by a synchronisation report,
//! with a short pause after the press and after each character. Which key
//! produces which character comes from the XKB keymap of the keyboard
//! layout; the application scans it with libxkbcommon and this module builds
//! the character table from the scan.

use std::collections::HashMap;

use vstd::prelude::*;
use vstd::string::StrSliceExecFns;

use crate::text::text_eq;

verus! {

/// Event type of a synchronisation report.
pub const EV_SYN: u16 = 0x00;
/// Event type of a key press or release.
pub const EV_KEY: u16 = 0x01;
/// Code of a synchronisation report.
pub const SYN_REPORT: u16 = 0x00;
/// Linux key code of the left Shift key.
pub const KEY_LEFTSHIFT: u16 = 42;
/// Linux key code of the left Control key.
pub const KEY_LEFTCTRL: u16 = 29;
/// Linux key code of the V key.
pub const KEY_V: u16 = 47;
/// Linux key code of the Enter key.
pub const KEY_ENTER: u16 = 28;
/// Linux key code of the Tab key.
pub const KEY_TAB: u16 = 15;
/// Linux key code of the space bar.
pub const KEY_SPACE: u16 = 57;

// ----- input events -----

/// The Linux `input_event` record (time, type, code, value).
#[derive(Clone, Copy)]
pub struct InputEvent {
    pub tv_sec: i64,
    pub tv_usec: i64,
    pub type_: u16,
    pub code: u16,
    pub value: i32,
}

/// `v` divided by 256, `k` times.
pub open spec fn shift_bytes(v: nat, k: nat) -> nat
    decreases k,
{
    if k == 0 {
        v
    } else {
        shift_bytes(v, (k - 1) as nat) / 256
    }
}

/// The `n` lowest bytes of `v`, least significant first.
pub open spec fn le_bytes(v: nat, n: nat) -> Seq<u8> {
    Seq::new(n, |i: int| (shift_bytes(v, i as nat) % 256) as u8)
}

/// The 24 bytes of an event as the kernel lays them out on x86-64: two
/// 64-bit times, the 16-bit type and code and the 32-bit value, each in
/// little-endian order, signed values in two's complement.
pub open spec fn event_bytes(e: InputEvent) -> Seq<u8> {
    le_bytes((e.tv_sec as u64) as nat, 8) + le_bytes((e.tv_usec as u64) as nat, 8) + le_bytes(
        e.type_ as nat,
        2,
    ) + le_bytes(e.code as nat, 2) + le_bytes((e.value as u32) as nat, 4)
}

/// The number whose little-endian bytes are `b`.
pub open spec fn le_value(b: Seq<u8>) -> nat
    decreases b.len(),
{
    if b.len() == 0 {
        0
    } else {
        b[0] as nat + 256 * le_value(b.drop_first())
    }
}

/// 256 to the power `n`.
pub open spec fn byte_range(n: nat) -> nat
    decreases n,
{
    if n == 0 {
        1
    } else {
        256 * byte_range((n - 1) as nat)
    }
}

proof fn lemma_shift_bytes_succ(v: nat, i: nat)
    ensures
        shift_bytes(v, i + 1) == shift_bytes(v / 256, i),
    decreases i,
{
    assert(shift_bytes(v, i + 1) == shift_bytes(v, i) / 256);
    if i > 0 {
        lemma_shift_bytes_succ(v, (i - 1) as nat);
        assert(shift_bytes(v / 256, i) == shift_bytes(v / 256, (i - 1) as nat) / 256);
    }
}

/// Reading `n` little-endian bytes back gives the number they were taken from.
pub proof fn lemma_le_bytes_round_trip(v: nat, n: nat)
    requires
        v < byte_range(n),
    ensures
        le_value(le_bytes(v, n)) == v,
    decreases n,
{
    if n == 0 {
        assert(le_bytes(v, n) =~= Seq::<u8>::empty());
    } else {
        let m = (n - 1) as nat;
        lemma_le_bytes_round_trip(v / 256, m);
        assert forall|i: int| 0 <= i < m implies #[trigger] le_bytes(v, n).drop_first()[i]
            == le_bytes(v / 256, m)[i] by {
            lemma_shift_bytes_succ(v, i as nat);
        }
        assert(le_bytes(v, n).drop_first() =~= le_bytes(v / 256, m));
    }
}

/// The bytes of an event decode back to its fields.
pub proof fn lemma_event_bytes_round_trip(e: InputEvent)
    ensures
        event_bytes(e).len() == 24,
        le_value(event_bytes(e).subrange(0, 8)) == (e.tv_sec as u64) as nat,
        le_value(event_bytes(e).subrange(8, 16)) == (e.tv_usec as u64) as nat,
        le_value(event_bytes(e).subrange(16, 18)) == e.type_ as nat,
        le_value(event_bytes(e).subrange(18, 20)) == e.code as nat,
        le_value(event_bytes(e).subrange(20, 24)) == (e.value as u32) as nat,
{
    let b = event_bytes(e);
    reveal_with_fuel(byte_range, 9);
    assert(byte_range(2) == 0x10000);
    assert(byte_range(4) == 0x1_0000_0000);
    assert(byte_range(8) == 0x1_0000_0000_0000_0000);
    lemma_le_bytes_round_trip((e.tv_sec as u64) as nat, 8);
    lemma_le_bytes_round_trip((e.tv_usec as u64) as nat, 8);
    lemma_le_bytes_round_trip(e.type_ as nat, 2);
    lemma_le_bytes_round_trip(e.code as nat, 2);
    lemma_le_bytes_round_trip((e.value as u32) as nat, 4);
    assert(b.subrange(0, 8) =~= le_bytes((e.tv_sec as u64) as nat, 8));
    assert(b.subrange(8, 16) =~= le_bytes((e.tv_usec as u64) as nat, 8));
    assert(b.subrange(16, 18) =~= le_bytes(e.type_ as nat, 2));
    assert(b.subrange(18, 20) =~= le_bytes(e.code as nat, 2));
    assert(b.subrange(20, 24) =~= le_bytes((e.value as u32) as nat, 4));
}

fn le_byte(v: u64, k: u32) -> (b: u8)
    requires
        k < 8,
    ensures
        b == (shift_bytes(v as nat, k as nat) % 256) as u8,
{
    let mut x = v;
    let mut i: u32 = 0;
    while i < k
        invariant
            i <= k,
            x as nat == shift_bytes(v as nat, i as nat),
        decreases k - i,
    {
        x = x / 256;
        i = i + 1;
    }
    (x % 256) as u8
}

impl InputEvent {
    /// A key press (`value` 1) or release (`value` 0) of the key `code`.
    pub fn key(code: u16, value: i32) -> (e: InputEvent)
        ensures
            e == key_event_spec(code, value),
    {
        InputEvent { tv_sec: 0, tv_usec: 0, type_: EV_KEY, code, value }
    }

    /// The synchronisation report that ends a group of events.
    pub fn syn() -> (e: InputEvent)
        ensures
            e == syn_event_spec(),
    {
        InputEvent { tv_sec: 0, tv_usec: 0, type_: EV_SYN, code: SYN_REPORT, value: 0 }
    }

    /// Serialises the event to the 24 bytes ydotoold reads.
    pub fn to_bytes(&self) -> (b: [u8; 24])
        ensures
            b@ == event_bytes(*self),
    {
        let s = self.tv_sec as u64;
        let u = self.tv_usec as u64;
        let t = self.type_ as u64;
        let c = self.code as u64;
        let v = (self.value as u32) as u64;
        let b = [
            le_byte(s, 0),
            le_byte(s, 1),
            le_byte(s, 2),
            le_byte(s, 3),
            le_byte(s, 4),
            le_byte(s, 5),
            le_byte(s, 6),
            le_byte(s, 7),
            le_byte(u, 0),
            le_byte(u, 1),
            le_byte(u, 2),
            le_byte(u, 3),
            le_byte(u, 4),
            le_byte(u, 5),
            le_byte(u, 6),
            le_byte(u, 7),
            le_byte(t, 0),
            le_byte(t, 1),
            le_byte(c, 0),
            le_byte(c, 1),
            le_byte(v, 0),
            le_byte(v, 1),
            le_byte(v, 2),
            le_byte(v, 3),
        ];
        assert(b@ =~= event_bytes(*self));
        b
    }
}

/// A key press or release event.
pub open spec fn key_event_spec(code: u16, value: i32) -> InputEvent {
    InputEvent { tv_sec: 0, tv_usec: 0, type_: EV_KEY, code, value }
}

/// The synchronisation report.
pub open spec fn syn_event_spec() -> InputEvent {
    InputEvent { tv_sec: 0, tv_usec: 0, type_: EV_SYN, code: SYN_REPORT, value: 0 }
}

// ----- keystroke sequences -----

/// One step of typing: send an event to ydotoold, or pause for a millisecond.
#[derive(Clone, Copy)]
pub enum KeyStep {
    Send(InputEvent),
    Pause,
}

/// A key event followed by its synchronisation report.
pub open spec fn key_steps_spec(code: u16, value: i32) -> Seq<KeyStep> {
    seq![KeyStep::Send(key_event_spec(code, value)), KeyStep::Send(syn_event_spec())]
}

/// The steps that type one character produced by `code`, with Shift held
/// when `shift`: (Shift down), key down, pause, key up, (Shift up), pause.
pub open spec fn char_steps_spec(code: u16, shift: bool) -> Seq<KeyStep> {
    (if shift {
        key_steps_spec(KEY_LEFTSHIFT, 1)
    } else {
        Seq::<KeyStep>::empty()
    }) + key_steps_spec(code, 1) + seq![KeyStep::Pause] + key_steps_spec(code, 0) + (if shift {
        key_steps_spec(KEY_LEFTSHIFT, 0)
    } else {
        Seq::<KeyStep>::empty()
    }) + seq![KeyStep::Pause]
}

/// The steps that type a text: the steps of each character the keymap has,
/// in order; characters the layout cannot produce are skipped.
pub open spec fn text_steps_spec(map: Map<char, (u16, bool)>, text: Seq<char>) -> Seq<KeyStep>
    decreases text.len(),
{
    if text.len() == 0 {
        Seq::<KeyStep>::empty()
    } else {
        text_steps_spec(map, text.drop_last()) + if map.contains_key(text.last()) {
            char_steps_spec(map[text.last()].0, map[text.last()].1)
        } else {
            Seq::<KeyStep>::empty()
        }
    }
}

/// The steps of Ctrl+V: Ctrl down, V down, pause, V up, Ctrl up, pause.
pub open spec fn paste_steps_spec() -> Seq<KeyStep> {
    key_steps_spec(KEY_LEFTCTRL, 1) + key_steps_spec(KEY_V, 1) + seq![KeyStep::Pause]
        + key_steps_spec(KEY_V, 0) + key_steps_spec(KEY_LEFTCTRL, 0) + seq![KeyStep::Pause]
}

fn push_key(steps: &mut Vec<KeyStep>, code: u16, value: i32)
    ensures
        final(steps)@ == old(steps)@ + key_steps_spec(code, value),
{
    steps.push(KeyStep::Send(InputEvent::key(code, value)));
    steps.push(KeyStep::Send(InputEvent::syn()));
    assert(final(steps)@ =~= old(steps)@ + key_steps_spec(code, value));
}

fn push_char_steps(steps: &mut Vec<KeyStep>, code: u16, shift: bool)
    ensures
        final(steps)@ == old(steps)@ + char_steps_spec(code, shift),
{
    let ghost start = steps@;
    if shift {
        push_key(steps, KEY_LEFTSHIFT, 1);
    }
    push_key(steps, code, 1);
    steps.push(KeyStep::Pause);
    push_key(steps, code, 0);
    if shift {
        push_key(steps, KEY_LEFTSHIFT, 0);
    }
    steps.push(KeyStep::Pause);
    assert(steps@ =~= start + char_steps_spec(code, shift));
}

/// The steps of Ctrl+V, which pastes the clipboard.
pub fn paste_steps() -> (steps: Vec<KeyStep>)
    ensures
        steps@ == paste_steps_spec(),
{
    let mut steps: Vec<KeyStep> = Vec::new();
    push_key(&mut steps, KEY_LEFTCTRL, 1);
    push_key(&mut steps, KEY_V, 1);
    steps.push(KeyStep::Pause);
    push_key(&mut steps, KEY_V, 0);
    push_key(&mut steps, KEY_LEFTCTRL, 0);
    steps.push(KeyStep::Pause);
    assert(steps@ =~= paste_steps_spec());
    steps
}

// ----- the character table -----

/// Which key (Linux key code) and whether Shift produces each character,
/// keyed by the character's scalar value.
pub struct Keymap {
    entries: HashMap<u32, (u16, bool)>,
}

impl View for Keymap {
    type V = Map<char, (u16, bool)>;

    closed spec fn view(&self) -> Map<char, (u16, bool)> {
        Map::new(
            |c: char| self.entries@.contains_key(char_code(c)),
            |c: char| self.entries@[char_code(c)],
        )
    }
}

/// The scalar value of a character, the table's key.
pub open spec fn char_code(c: char) -> u32 {
    c as u32
}

proof fn lemma_char_code_injective(x: char, c: char)
    ensures
        char_code(x) == char_code(c) ==> x == c,
{
    assert((x as u32) as int == x as int);
    assert((c as u32) as int == c as int);
}

/// Distinct characters have distinct scalar values.
proof fn lemma_char_codes_distinct(c: char)
    ensures
        forall|x: char| #[trigger] char_code(x) == char_code(c) ==> x == c,
{
    assert forall|x: char| #[trigger] char_code(x) == char_code(c) implies x == c by {
        lemma_char_code_injective(x, c);
    }
}

impl Keymap {
    /// A table with no character.
    pub fn new() -> (m: Keymap)
        ensures
            m@ == Map::<char, (u16, bool)>::empty(),
    {
        let m = Keymap { entries: HashMap::new() };
        assert(m@ =~= Map::<char, (u16, bool)>::empty());
        m
    }

    /// The key and Shift state that produce `c`, if the layout has it.
    pub fn get(&self, c: char) -> (r: Option<(u16, bool)>)
        ensures
            r is Some == self@.contains_key(c),
            r matches Some(v) ==> v == self@[c],
    {
        let k = c as u32;
        match self.entries.get(&k) {
            Some(v) => Some(*v),
            None => None,
        }
    }

    /// Whether the layout has `c`.
    pub fn contains_key(&self, c: char) -> (b: bool)
        ensures
            b == self@.contains_key(c),
    {
        self.get(c).is_some()
    }

    /// Records the key for `c` unless one is recorded already
    /// (`HashMap::entry(c).or_insert`).
    pub fn insert_if_absent(&mut self, c: char, code: u16, shift: bool)
        ensures
            final(self)@ == if old(self)@.contains_key(c) {
                old(self)@
            } else {
                old(self)@.insert(c, (code, shift))
            },
    {
        let k = c as u32;
        if !self.entries.contains_key(&k) {
            self.entries.insert(k, (code, shift));
            proof {
                lemma_char_codes_distinct(c);
            }
            assert(self@ =~= old(self)@.insert(c, (code, shift)));
        }
    }

    /// Records the key for `c`, replacing any recorded one (`HashMap::insert`).
    pub fn insert(&mut self, c: char, code: u16, shift: bool)
        ensures
            final(self)@ == old(self)@.insert(c, (code, shift)),
    {
        let k = c as u32;
        self.entries.insert(k, (code, shift));
        proof {
            lemma_char_codes_distinct(c);
        }
        assert(self@ =~= old(self)@.insert(c, (code, shift)));
    }

    /// The steps that type `text` with this layout (`VirtualKeyboard::type_text`).
    pub fn type_text_steps(&self, text: &str) -> (steps: Vec<KeyStep>)
        ensures
            steps@ == text_steps_spec(self@, text@),
    {
        let n = text.unicode_len();
        let mut steps: Vec<KeyStep> = Vec::new();
        let mut i: usize = 0;
        assert(text@.take(0) =~= Seq::<char>::empty());
        while i < n
            invariant
                n == text@.len(),
                i <= n,
                steps@ == text_steps_spec(self@, text@.take(i as int)),
            decreases n - i,
        {
            let c = text.get_char(i);
            let ghost prefix = text@.take(i + 1);
            assert(prefix.drop_last() =~= text@.take(i as int));
            assert(prefix.last() == c);
            match self.get(c) {
                Some((code, shift)) => {
                    push_char_steps(&mut steps, code, shift);
                },
                None => {
                    assert(steps@ =~= steps@ + Seq::<KeyStep>::empty());
                },
            }
            i = i + 1;
        }
        assert(text@.take(n as int) =~= text@);
        steps
    }
}

/// What libxkbcommon reports for one XKB key code of the layout: the
/// character it produces alone and with Shift held, when it produces one.
pub struct ScannedKey {
    pub xkb_keycode: u32,
    pub plain: Option<char>,
    pub shifted: Option<char>,
}

/// The Linux key code of an XKB key code (`xkb_keycode.saturating_sub(8) as u16`).
pub open spec fn linux_keycode(xkb_keycode: u32) -> u16 {
    (if xkb_keycode >= 8 {
        xkb_keycode - 8
    } else {
        0
    }) as u16
}

/// The character table of a scan, keys in scan order, the key without Shift
/// before the key with it: each character keeps the first key that produces it.
pub open spec fn scan_map(scan: Seq<ScannedKey>) -> Map<char, (u16, bool)>
    decreases scan.len(),
{
    if scan.len() == 0 {
        Map::empty()
    } else {
        let m = scan_map(scan.drop_last());
        let k = scan.last();
        let code = linux_keycode(k.xkb_keycode);
        let m1 = match k.plain {
            Some(c) => if m.contains_key(c) {
                m
            } else {
                m.insert(c, (code, false))
            },
            None => m,
        };
        match k.shifted {
            Some(c) => if m1.contains_key(c) {
                m1
            } else {
                m1.insert(c, (code, true))
            },
            None => m1,
        }
    }
}

/// The character table of a layout: the scan's table, with newline, tab and
/// space always on Enter, Tab and the space bar without Shift.
pub open spec fn keymap_spec(scan: Seq<ScannedKey>) -> Map<char, (u16, bool)> {
    scan_map(scan).insert('\n', (KEY_ENTER, false)).insert('\t', (KEY_TAB, false)).insert(
        ' ',
        (KEY_SPACE, false),
    )
}

/// Newline, tab and space can be typed with every layout, on Enter, Tab and
/// the space bar, whatever the scan found.
pub proof fn lemma_whitespace_always_typable(scan: Seq<ScannedKey>)
    ensures
        keymap_spec(scan)['\n'] == (KEY_ENTER, false),
        keymap_spec(scan)['\t'] == (KEY_TAB, false),
        keymap_spec(scan)[' '] == (KEY_SPACE, false),
        keymap_spec(scan).contains_key('\n'),
        keymap_spec(scan).contains_key('\t'),
        keymap_spec(scan).contains_key(' '),
{
}

/// Every character the scan finds can be typed, on the first key that
/// produces it (newline, tab and space aside).
pub proof fn lemma_scanned_chars_typable(scan: Seq<ScannedKey>, i: int)
    requires
        0 <= i < scan.len(),
    ensures
        scan[i].plain matches Some(c) ==> scan_map(scan).contains_key(c),
        scan[i].shifted matches Some(c) ==> scan_map(scan).contains_key(c),
    decreases scan.len(),
{
    if i < scan.len() - 1 {
        lemma_scanned_chars_typable(scan.drop_last(), i);
        assert(scan.drop_last()[i] == scan[i]);
    }
}

/// Builds the character table of a layout from its scan (the XKB key codes
/// 8 to 255 in order).
pub fn build_keymap(scan: &Vec<ScannedKey>) -> (m: Keymap)
    ensures
        m@ == keymap_spec(scan@),
{
    let mut m = Keymap::new();
    let n = scan.len();
    let mut i: usize = 0;
    assert(scan@.take(0) =~= Seq::<ScannedKey>::empty());
    while i < n
        invariant
            n == scan@.len(),
            i <= n,
            m@ == scan_map(scan@.take(i as int)),
        decreases n - i,
    {
        let k = &scan[i];
        let code: u16 = if k.xkb_keycode >= 8 {
            (k.xkb_keycode - 8) as u16
        } else {
            0
        };
        assert(scan@.take(i + 1).drop_last() =~= scan@.take(i as int));
        match k.plain {
            Some(c) => m.insert_if_absent(c, code, false),
            None => {},
        }
        match k.shifted {
            Some(c) => m.insert_if_absent(c, code, true),
            None => {},
        }
        i = i + 1;
    }
    assert(scan@.take(n as int) =~= scan@);
    m.insert('\n', KEY_ENTER, false);
    m.insert('\t', KEY_TAB, false);
    m.insert(' ', KEY_SPACE, false);
    m
}

// ----- characters of key symbols -----

/// A Unicode control character (general category Cc).
pub open spec fn is_control_spec(c: char) -> bool {
    (c as u32) <= 0x1f || (0x7f <= (c as u32) && (c as u32) <= 0x9f)
}

/// A Unicode scalar value: at most 0x10FFFF and not a surrogate.
pub open spec fn is_scalar_value(v: u32) -> bool {
    v <= 0x10ffff && !(0xd800 <= v && v <= 0xdfff)
}

/// `char::from_u32`: the character with scalar value `v`, when `v` is one.
#[verifier::external_body]
fn char_from_u32(v: u32) -> (r: Option<char>)
    ensures
        r is Some == is_scalar_value(v),
        r matches Some(c) ==> c as u32 == v,
{
    char::from_u32(v)
}

/// Whether a key produces a character, from the key symbol and its UTF-32
/// value: not for the empty symbol, for the value 0, for a value that is not
/// a Unicode scalar value, nor for control characters other than newline and tab.
pub open spec fn produces_char(keysym: u32, utf32: u32) -> bool {
    &&& keysym != 0
    &&& utf32 != 0
    &&& is_scalar_value(utf32)
    &&& !(utf32 <= 0x1f || (0x7f <= utf32 && utf32 <= 0x9f)) || utf32 == 10 || utf32 == 9
}

/// The character a key produces, given its key symbol and the symbol's
/// UTF-32 value (`xkb::keysym_to_utf32`).
pub fn key_char(keysym: u32, utf32: u32) -> (r: Option<char>)
    ensures
        r is Some == produces_char(keysym, utf32),
        r matches Some(c) ==> c as u32 == utf32,
{
    if keysym == 0 {
        return None;
    }
    if utf32 == 0 || utf32 > 0x10ffff {
        return None;
    }
    match char_from_u32(utf32) {
        None => None,
        Some(c) => {
            let v = c as u32;
            let control = v <= 0x1f || (0x7f <= v && v <= 0x9f);
            if !control || v == 10 || v == 9 {
                Some(c)
            } else {
                None
            }
        },
    }
}

// ----- layout -----

/// The layout the configuration fixes, or `None` when it says `auto` and the
/// layout is to be detected.
pub fn configured_layout(configured: &str) -> (r: Option<String>)
    ensures
        configured@ == "auto"@ ==> r is None,
        configured@ != "auto"@ ==> (r matches Some(l) && l@ == configured@),
{
    if text_eq(configured, "auto") {
        None
    } else {
        Some(configured.to_owned())
    }
}

/// A source of the system's keyboard layout, in order of preference.
#[derive(Debug, Clone, Copy, PartialEq, Eq, Structural)]
pub enum LayoutSource {
    /// `$XKB_DEFAULT_LAYOUT`.
    Env,
    /// The X11 layout `localectl status` shows.
    Localectl,
    /// The layout `setxkbmap -query` shows.
    Setxkbmap,
}

/// The next step of the detection: ask another source, or the layout found.
#[derive(Debug, Clone, PartialEq, Eq)]
pub enum LayoutStep {
    Query(LayoutSource),
    Found(String),
}

/// A source answered with a layout (an empty answer counts as none).
pub open spec fn answered(answer: Option<Seq<char>>) -> bool {
    answer matches Some(l) && l.len() > 0
}

/// The source asked after `source`, if any.
pub open spec fn next_source(source: LayoutSource) -> Option<LayoutSource> {
    match source {
        LayoutSource::Env => Some(LayoutSource::Localectl),
        LayoutSource::Localectl => Some(LayoutSource::Setxkbmap),
        LayoutSource::Setxkbmap => None,
    }
}

/// The outcome of one step, with the layout as text.
pub enum LayoutStepView {
    Query(LayoutSource),
    Found(Seq<char>),
}

/// A step as text.
pub open spec fn layout_step_view(step: LayoutStep) -> LayoutStepView {
    match step {
        LayoutStep::Query(s) => LayoutStepView::Query(s),
        LayoutStep::Found(l) => LayoutStepView::Found(l@),
    }
}

/// One step: a source that answered gives the layout; otherwise the next
/// source is asked, and after the last one the layout is `us`.
pub open spec fn layout_step_spec(source: LayoutSource, answer: Option<Seq<char>>) -> LayoutStepView {
    if answered(answer) {
        LayoutStepView::Found(answer.unwrap())
    } else {
        match next_source(source) {
            Some(n) => LayoutStepView::Query(n),
            None => LayoutStepView::Found("us"@),
        }
    }
}

/// What to do with the answer of `source`.
pub fn layout_step(source: LayoutSource, answer: Option<String>) -> (r: LayoutStep)
    ensures
        layout_step_view(r) == layout_step_spec(source, crate::config::opt_view(answer)),
{
    proof {
        reveal_strlit("us");
    }
    match answer {
        Some(l) => if l.as_str().unicode_len() > 0 {
            return LayoutStep::Found(l);
        },
        None => {},
    }
    match source {
        LayoutSource::Env => LayoutStep::Query(LayoutSource::Localectl),
        LayoutSource::Localectl => LayoutStep::Query(LayoutSource::Setxkbmap),
        LayoutSource::Setxkbmap => LayoutStep::Found("us".to_owned()),
    }
}

/// The first source that names a layout.
pub open spec fn detect_layout_spec(
    env: Option<Seq<char>>,
    localectl: Option<Seq<char>>,
    setxkbmap: Option<Seq<char>>,
) -> Seq<char> {
    if answered(env) {
        env.unwrap()
    } else if answered(localectl) {
        localectl.unwrap()
    } else if answered(setxkbmap) {
        setxkbmap.unwrap()
    } else {
        "us"@
    }
}

/// The answer each source gives.
pub open spec fn answer_of(
    source: LayoutSource,
    env: Option<Seq<char>>,
    localectl: Option<Seq<char>>,
    setxkbmap: Option<Seq<char>>,
) -> Option<Seq<char>> {
    match source {
        LayoutSource::Env => env,
        LayoutSource::Localectl => localectl,
        LayoutSource::Setxkbmap => setxkbmap,
    }
}

/// How many sources remain to be asked from `source` on, itself included.
pub open spec fn sources_left(source: LayoutSource) -> nat {
    match source {
        LayoutSource::Env => 3,
        LayoutSource::Localectl => 2,
        LayoutSource::Setxkbmap => 1,
    }
}

/// The layout found by taking the steps from `source` on, each source
/// giving its answer.
pub open spec fn steps_from(
    source: LayoutSource,
    env: Option<Seq<char>>,
    localectl: Option<Seq<char>>,
    setxkbmap: Option<Seq<char>>,
) -> Seq<char>
    decreases sources_left(source),
{
    match layout_step_spec(source, answer_of(source, env, localectl, setxkbmap)) {
        LayoutStepView::Found(l) => l,
        LayoutStepView::Query(n) => if sources_left(n) < sources_left(source) {
            steps_from(n, env, localectl, setxkbmap)
        } else {
            "us"@
        },
    }
}

/// Asking the sources one at a time, starting with the environment and
/// stopping at the first answer, finds the same layout as the detection
/// from all three answers; and it always ends with a layout after at most
/// three questions.
pub proof fn lemma_stepwise_detection_agrees(
    env: Option<Seq<char>>,
    localectl: Option<Seq<char>>,
    setxkbmap: Option<Seq<char>>,
)
    ensures
        steps_from(LayoutSource::Env, env, localectl, setxkbmap) == detect_layout_spec(
            env,
            localectl,
            setxkbmap,
        ),
        detect_layout_spec(env, localectl, setxkbmap).len() > 0,
{
    reveal_strlit("us");
    reveal_with_fuel(steps_from, 3);
}

/// Detects the keyboard layout from what the system reports, in order of
/// preference: `$XKB_DEFAULT_LAYOUT`, the X11 layout `localectl` shows, the
/// layout `setxkbmap -query` shows. Empty answers are ignored; without any
/// answer the layout is `us`.
pub fn detect_keyboard_layout(
    env: Option<String>,
    localectl: Option<String>,
    setxkbmap: Option<String>,
) -> (r: String)
    ensures
        r@ == detect_layout_spec(
            crate::config::opt_view(env),
            crate::config::opt_view(localectl),
            crate::config::opt_view(setxkbmap),
        ),
        r@.len() > 0,
{
    proof {
        reveal_strlit("us");
    }
    match layout_step(LayoutSource::Env, env) {
        LayoutStep::Found(l) => return l,
        LayoutStep::Query(_) => {},
    }
    match layout_step(LayoutSource::Localectl, localectl) {
        LayoutStep::Found(l) => return l,
        LayoutStep::Query(_) => {},
    }
    match layout_step(LayoutSource::Setxkbmap, setxkbmap) {
        LayoutStep::Found(l) => l,
        LayoutStep::Query(_) => "us".to_owned(),
    }
}

/// The ydotoold socket under the runtime directory: `{dir}/.ydotool_socket`.
pub fn ydotool_socket_in(runtime_dir: &str) -> (r: String)
    ensures
        r@ == runtime_dir@ + "/.ydotool_socket"@,
{
    let mut r = runtime_dir.to_owned();
    vstd::string::StringExecFns::append(&mut r, "/.ydotool_socket");
    r
}

/// Every printable Unicode scalar value a key symbol has is produced, as
/// that very character; besides newline and tab, no control character, and
/// nothing for the null symbol, the value 0, surrogates or values past
/// U+10FFFF.
pub proof fn lemma_printable_values_produced(keysym: u32, utf32: u32)
    ensures
        produces_char(keysym, utf32) <==> (keysym != 0 && 0 < utf32 && utf32 <= 0x10ffff && !(0xd800
            <= utf32 && utf32 <= 0xdfff) && (utf32 == 10 || utf32 == 9 || !(utf32 <= 0x1f || (0x7f
            <= utf32 && utf32 <= 0x9f)))),
{
}

/// Typing a text is typing its parts one after the other.
pub proof fn lemma_typing_concatenates(map: Map<char, (u16, bool)>, s1: Seq<char>, s2: Seq<char>)
    ensures
        text_steps_spec(map, s1 + s2) == text_steps_spec(map, s1) + text_steps_spec(map, s2),
    decreases s2.len(),
{
    if s2.len() == 0 {
        assert(s1 + s2 =~= s1);
        assert(text_steps_spec(map, s1) + Seq::<KeyStep>::empty() =~= text_steps_spec(map, s1));
    } else {
        lemma_typing_concatenates(map, s1, s2.drop_last());
        assert((s1 + s2).drop_last() =~= s1 + s2.drop_last());
        assert((s1 + s2).last() == s2.last());
        let tail = if map.contains_key(s2.last()) {
            char_steps_spec(map[s2.last()].0, map[s2.last()].1)
        } else {
            Seq::<KeyStep>::empty()
        };
        assert(text_steps_spec(map, s1) + text_steps_spec(map, s2.drop_last()) + tail
            =~= text_steps_spec(map, s1) + (text_steps_spec(map, s2.drop_last()) + tail));
    }
}

/// Typing one character the layout has presses and releases its key, with
/// Shift held around it when the table says so, each event followed by a
/// synchronisation report and each key stroke by a pause; a character the
/// layout lacks is skipped.
pub proof fn lemma_typing_one_char(map: Map<char, (u16, bool)>, c: char)
    ensures
        !map.contains_key(c) ==> text_steps_spec(map, seq![c]) == Seq::<KeyStep>::empty(),
        map.contains_key(c) ==> {
            let code = map[c].0;
            let syn = KeyStep::Send(
                InputEvent { tv_sec: 0, tv_usec: 0, type_: 0, code: 0, value: 0 },
            );
            let down = KeyStep::Send(
                InputEvent { tv_sec: 0, tv_usec: 0, type_: 1, code: code, value: 1 },
            );
            let up = KeyStep::Send(
                InputEvent { tv_sec: 0, tv_usec: 0, type_: 1, code: code, value: 0 },
            );
            let shift_down = KeyStep::Send(
                InputEvent { tv_sec: 0, tv_usec: 0, type_: 1, code: 42, value: 1 },
            );
            let shift_up = KeyStep::Send(
                InputEvent { tv_sec: 0, tv_usec: 0, type_: 1, code: 42, value: 0 },
            );
            text_steps_spec(map, seq![c]) == if map[c].1 {
                seq![shift_down, syn, down, syn, KeyStep::Pause, up, syn, shift_up, syn, KeyStep::Pause]
            } else {
                seq![down, syn, KeyStep::Pause, up, syn, KeyStep::Pause]
            }
        },
{
    let t = seq![c];
    assert(t.drop_last() =~= Seq::<char>::empty());
    assert(t.last() == c);
    assert(text_steps_spec(map, t.drop_last()) == Seq::<KeyStep>::empty());
    if map.contains_key(c) {
        let code = map[c].0;
        let syn = KeyStep::Send(InputEvent { tv_sec: 0, tv_usec: 0, type_: 0, code: 0, value: 0 });
        let down = KeyStep::Send(InputEvent { tv_sec: 0, tv_usec: 0, type_: 1, code: code, value: 1 });
        let up = KeyStep::Send(InputEvent { tv_sec: 0, tv_usec: 0, type_: 1, code: code, value: 0 });
        let shift_down = KeyStep::Send(
            InputEvent { tv_sec: 0, tv_usec: 0, type_: 1, code: 42, value: 1 },
        );
        let shift_up = KeyStep::Send(
            InputEvent { tv_sec: 0, tv_usec: 0, type_: 1, code: 42, value: 0 },
        );
        assert(text_steps_spec(map, t) == Seq::<KeyStep>::empty() + char_steps_spec(code, map[c].1));
        assert(syn == KeyStep::Send(syn_event_spec()));
        assert(down == KeyStep::Send(key_event_spec(code, 1)));
        assert(up == KeyStep::Send(key_event_spec(code, 0)));
        assert(shift_down == KeyStep::Send(key_event_spec(KEY_LEFTSHIFT, 1)));
        assert(shift_up == KeyStep::Send(key_event_spec(KEY_LEFTSHIFT, 0)));
        if map[c].1 {
            assert(text_steps_spec(map, t) =~= seq![
                shift_down,
                syn,
                down,
                syn,
                KeyStep::Pause,
                up,
                syn,
                shift_up,
                syn,
                KeyStep::Pause,
            ]);
        } else {
            assert(text_steps_spec(map, t) =~= seq![down, syn, KeyStep::Pause, up, syn, KeyStep::Pause]);
        }
    } else {
        assert(text_steps_spec(map, t) =~= Seq::<KeyStep>::empty());
    }
}

} // verus!
