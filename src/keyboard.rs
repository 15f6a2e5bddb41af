//! Conversion of the host terminal's input bytes into Kaypro key codes and
//! emulator commands (function keys).
use vstd::prelude::*;

verus! {

/// Emulator commands bound to the host's function keys.
#[derive(PartialEq, Eq, Structural, Clone, Copy, Debug)]
pub enum Command {
    Help,
    Quit,
    SelectDiskA,
    SelectDiskB,
    ShowStatus,
    TraceCPU,
    SaveMemory,
}

/// What an escape sequence stands for.
#[derive(PartialEq, Eq, Structural, Clone, Copy, Debug)]
pub enum EscapeKey {
    Command(Command),
    Key(u8),
    Ignored,
}

pub open spec fn is_bytes2(s: Seq<u8>, a: u8, b: u8) -> bool {
    s.len() == 2 && s[0] == a && s[1] == b
}

pub open spec fn is_bytes3(s: Seq<u8>, a: u8, b: u8, c: u8) -> bool {
    s.len() == 3 && s[0] == a && s[1] == b && s[2] == c
}

pub open spec fn is_bytes4(s: Seq<u8>, a: u8, b: u8, c: u8, d: u8) -> bool {
    s.len() == 4 && s[0] == a && s[1] == b && s[2] == c && s[3] == d
}

/// Meaning of the bytes that follow ESC in a sequence (as `showkey -a`
/// prints them): `OP` F1, `OQ` F2, `OS` F4, `[15~` F5, `[17~` F6, `[18~` F7,
/// `[19~` F8; Delete gives DEL, Insert gives LINEFEED, and the arrows give
/// the codes that the BIOS maps to cursor moves.
pub open spec fn escape_meaning(s: Seq<u8>) -> EscapeKey {
    if is_bytes2(s, 0x4f, 0x50) {
        EscapeKey::Command(Command::Help)
    } else if is_bytes2(s, 0x4f, 0x51) {
        EscapeKey::Command(Command::ShowStatus)
    } else if is_bytes2(s, 0x4f, 0x53) {
        EscapeKey::Command(Command::Quit)
    } else if is_bytes4(s, 0x5b, 0x31, 0x35, 0x7e) {
        EscapeKey::Command(Command::SelectDiskA)
    } else if is_bytes4(s, 0x5b, 0x31, 0x37, 0x7e) {
        EscapeKey::Command(Command::SelectDiskB)
    } else if is_bytes4(s, 0x5b, 0x31, 0x38, 0x7e) {
        EscapeKey::Command(Command::SaveMemory)
    } else if is_bytes4(s, 0x5b, 0x31, 0x39, 0x7e) {
        EscapeKey::Command(Command::TraceCPU)
    } else if is_bytes3(s, 0x5b, 0x33, 0x7e) {
        EscapeKey::Key(0x7f)
    } else if is_bytes3(s, 0x5b, 0x32, 0x7e) {
        EscapeKey::Key(0x0a)
    } else if is_bytes2(s, 0x5b, 0x41) {
        EscapeKey::Key(0xf1)
    } else if is_bytes2(s, 0x5b, 0x42) {
        EscapeKey::Key(0xf2)
    } else if is_bytes2(s, 0x5b, 0x43) {
        EscapeKey::Key(0xf4)
    } else if is_bytes2(s, 0x5b, 0x44) {
        EscapeKey::Key(0xf3)
    } else {
        EscapeKey::Ignored
    }
}

/// Parameter and intermediate bytes of a control sequence (ECMA-48 5.4).
pub open spec fn is_parameter_byte(b: u8) -> bool {
    b & 0xf0 == 0x20 || b & 0xf0 == 0x30
}

/// The first position from `i` on that holds no parameter byte.
pub open spec fn parameters_end(input: Seq<u8>, i: int) -> int
    decreases input.len() - i,
{
    if 0 <= i < input.len() && is_parameter_byte(input[i]) {
        parameters_end(input, i + 1)
    } else {
        i
    }
}

/// End of the escape sequence whose ESC stands at `pos`: the byte after
/// ESC, the parameter bytes, and a final byte if one is there.
pub open spec fn escape_end(input: Seq<u8>, pos: int) -> int {
    let p = parameters_end(input, pos + 2);
    if p < input.len() {
        p + 1
    } else {
        p
    }
}

/// Key code of a plain input byte: Backspace becomes ^H, the rest keep 7 bits.
pub open spec fn plain_key(b: u8) -> u8 {
    if b == 0x7f {
        0x08
    } else {
        b & 0x7f
    }
}

/// Abstract state of the keyboard.
pub struct KeyboardView {
    pub key: u8,
    pub key_available: bool,
    pub commands: Seq<Command>,
}

impl KeyboardView {
    pub open spec fn with_key(self, key: u8) -> KeyboardView {
        KeyboardView { key, key_available: true, ..self }
    }

    pub open spec fn with_escape(self, s: Seq<u8>) -> KeyboardView {
        match escape_meaning(s) {
            EscapeKey::Command(c) => KeyboardView { commands: self.commands.push(c), ..self },
            EscapeKey::Key(k) => self.with_key(k),
            EscapeKey::Ignored => self,
        }
    }
}

/// The keyboard state after the input bytes from `pos` on: escape
/// sequences, the two-byte UTF-8 letters ñ and Ñ (on the `:` and `;`
/// positions, which end the input), and plain bytes.
pub open spec fn parse_from(k: KeyboardView, input: Seq<u8>, pos: int) -> KeyboardView
    decreases input.len() - pos,
{
    if pos < 0 || pos >= input.len() {
        k
    } else if input.len() - pos > 2 && input[pos] == 0x1b {
        let end = escape_end(input, pos);
        if pos < end <= input.len() {
            parse_from(k.with_escape(input.subrange(pos + 1, end)), input, end)
        } else {
            k
        }
    } else if input.len() - pos >= 2 && input[pos] == 0xc3 && input[pos + 1] == 0xb1 {
        k.with_key(0x3a)
    } else if input.len() - pos >= 2 && input[pos] == 0xc3 && input[pos + 1] == 0x91 {
        k.with_key(0x3b)
    } else {
        parse_from(k.with_key(plain_key(input[pos])), input, pos + 1)
    }
}

/// The last key typed, whether the machine has read it yet, and the
/// emulator commands waiting for the host.
pub struct Keyboard {
    pub key: u8,
    pub key_available: bool,
    pub commands: Vec<Command>,
}

impl View for Keyboard {
    type V = KeyboardView;

    open spec fn view(&self) -> KeyboardView {
        KeyboardView { key: self.key, key_available: self.key_available, commands: self.commands@ }
    }
}

impl Keyboard {
    pub fn new() -> (r: Keyboard)
        ensures
            r@.key == 0,
            !r@.key_available,
            r@.commands.len() == 0,
    {
        Keyboard { key: 0, key_available: false, commands: Vec::new() }
    }

    /// Hands the last key to the machine, which has then read it.
    pub fn get_key(&mut self) -> (r: u8)
        ensures
            r == old(self)@.key,
            final(self)@ == (KeyboardView { key_available: false, ..old(self)@ }),
    {
        self.key_available = false;
        self.key
    }

    /// Whether a key is waiting for the machine.
    pub fn is_key_pressed(&self) -> (r: bool)
        ensures
            r == self@.key_available,
    {
        self.key_available
    }

    pub fn peek_key(&self) -> (r: u8)
        ensures
            r == self@.key,
    {
        self.key
    }

    /// Takes in the bytes read from the host terminal.
    pub fn parse_input(&mut self, input: &[u8])
        ensures
            final(self)@ == parse_from(old(self)@, input@, 0),
    {
        let mut pos: usize = 0;
        while pos < input.len()
            invariant
                pos <= input@.len(),
                parse_from(old(self)@, input@, 0) == parse_from(self@, input@, pos as int),
            decreases input@.len() - pos,
        {
            if input.len() - pos > 2 && input[pos] == 0x1b {
                let end = find_escape_end(input, pos);
                self.apply_escape(input, pos + 1, end);
                pos = end;
            } else if input.len() - pos >= 2 && input[pos] == 0xc3 && input[pos + 1] == 0xb1 {
                // ñ is on the : position
                self.key = 0x3a;
                self.key_available = true;
                return;
            } else if input.len() - pos >= 2 && input[pos] == 0xc3 && input[pos + 1] == 0x91 {
                // Ñ is on the ; position
                self.key = 0x3b;
                self.key_available = true;
                return;
            } else {
                let b = input[pos];
                self.key = if b == 0x7f {
                    0x08
                } else {
                    b & 0x7f
                };
                self.key_available = true;
                pos = pos + 1;
            }
        }
    }

    fn apply_escape(&mut self, input: &[u8], start: usize, end: usize)
        requires
            start <= end <= input@.len(),
        ensures
            final(self)@ == old(self)@.with_escape(input@.subrange(start as int, end as int)),
    {
        let meaning = escape_key(input, start, end);
        match meaning {
            EscapeKey::Command(c) => self.commands.push(c),
            EscapeKey::Key(k) => {
                self.key = k;
                self.key_available = true;
            },
            EscapeKey::Ignored => {},
        }
    }
}

/// End of the escape sequence whose ESC stands at `pos`.
fn find_escape_end(input: &[u8], pos: usize) -> (r: usize)
    requires
        pos + 2 < input@.len() <= usize::MAX,
    ensures
        r == escape_end(input@, pos as int),
        pos + 2 <= r <= input@.len(),
{
    let mut i: usize = pos + 2;
    while i < input.len() && (input[i] & 0xf0 == 0x20 || input[i] & 0xf0 == 0x30)
        invariant
            pos + 2 <= i <= input@.len(),
            parameters_end(input@, (pos + 2) as int) == parameters_end(input@, i as int),
        decreases input@.len() - i,
    {
        i = i + 1;
    }
    if i < input.len() {
        i = i + 1;
    }
    i
}

/// Meaning of the escape sequence bytes `input[start..end]`.
fn escape_key(input: &[u8], start: usize, end: usize) -> (r: EscapeKey)
    requires
        start <= end <= input@.len(),
    ensures
        r == escape_meaning(input@.subrange(start as int, end as int)),
{
    let s = Ghost(input@.subrange(start as int, end as int));
    let n = end - start;
    let b0 = if n > 0 { input[start] } else { 0 };
    let b1 = if n > 1 { input[start + 1] } else { 0 };
    let b2 = if n > 2 { input[start + 2] } else { 0 };
    let b3 = if n > 3 { input[start + 3] } else { 0 };
    assert(n > 0 ==> b0 == s@[0]);
    assert(n > 1 ==> b1 == s@[1]);
    assert(n > 2 ==> b2 == s@[2]);
    assert(n > 3 ==> b3 == s@[3]);
    if n == 2 && b0 == 0x4f && b1 == 0x50 {
        EscapeKey::Command(Command::Help)
    } else if n == 2 && b0 == 0x4f && b1 == 0x51 {
        EscapeKey::Command(Command::ShowStatus)
    } else if n == 2 && b0 == 0x4f && b1 == 0x53 {
        EscapeKey::Command(Command::Quit)
    } else if n == 4 && b0 == 0x5b && b1 == 0x31 && b2 == 0x35 && b3 == 0x7e {
        EscapeKey::Command(Command::SelectDiskA)
    } else if n == 4 && b0 == 0x5b && b1 == 0x31 && b2 == 0x37 && b3 == 0x7e {
        EscapeKey::Command(Command::SelectDiskB)
    } else if n == 4 && b0 == 0x5b && b1 == 0x31 && b2 == 0x38 && b3 == 0x7e {
        EscapeKey::Command(Command::SaveMemory)
    } else if n == 4 && b0 == 0x5b && b1 == 0x31 && b2 == 0x39 && b3 == 0x7e {
        EscapeKey::Command(Command::TraceCPU)
    } else if n == 3 && b0 == 0x5b && b1 == 0x33 && b2 == 0x7e {
        EscapeKey::Key(0x7f)
    } else if n == 3 && b0 == 0x5b && b1 == 0x32 && b2 == 0x7e {
        EscapeKey::Key(0x0a)
    } else if n == 2 && b0 == 0x5b && b1 == 0x41 {
        EscapeKey::Key(0xf1)
    } else if n == 2 && b0 == 0x5b && b1 == 0x42 {
        EscapeKey::Key(0xf2)
    } else if n == 2 && b0 == 0x5b && b1 == 0x43 {
        EscapeKey::Key(0xf4)
    } else if n == 2 && b0 == 0x5b && b1 == 0x44 {
        EscapeKey::Key(0xf3)
    } else {
        EscapeKey::Ignored
    }
}

} // verus!
