//! The key pad: KEYINPUT bits (0 = pressed), key names for scripted input,
//! and the keyboard layout that drives them.
use vstd::prelude::*;
use vstd::string::StrSliceExecFns;

verus! {

pub const KEYINPUT_RELEASED: u16 = 0x03ff;
pub const KEY_A: u16 = 0x0001;
pub const KEY_B: u16 = 0x0002;
pub const KEY_SELECT: u16 = 0x0004;
pub const KEY_START: u16 = 0x0008;
pub const KEY_RIGHT: u16 = 0x0010;
pub const KEY_LEFT: u16 = 0x0020;
pub const KEY_UP: u16 = 0x0040;
pub const KEY_DOWN: u16 = 0x0080;
pub const KEY_R: u16 = 0x0100;
pub const KEY_L: u16 = 0x0200;

/// Whether two strings have the same characters.
fn same_text(a: &str, b: &str) -> (r: bool)
    ensures
        r == (a@ == b@),
{
    let n = a.unicode_len();
    if n != b.unicode_len() {
        return false;
    }
    let mut i: usize = 0;
    while i < n
        invariant
            i <= n,
            n == a@.len(),
            n == b@.len(),
            forall|j: int| 0 <= j < i ==> a@[j] == b@[j],
        decreases n - i,
    {
        if a.get_char(i) != b.get_char(i) {
            return false;
        }
        i += 1;
    }
    assert(a@ =~= b@);
    true
}

/// The key a name stands for: the buttons by name, and the directions also
/// by the W/A/S/D letters (except `a`, which is the A button).
pub open spec fn spec_key_bit(name: Seq<char>) -> Option<u16> {
    if name == "a"@ { Some(KEY_A) }
    else if name == "b"@ { Some(KEY_B) }
    else if name == "select"@ { Some(KEY_SELECT) }
    else if name == "start"@ { Some(KEY_START) }
    else if name == "right"@ || name == "d"@ { Some(KEY_RIGHT) }
    else if name == "left"@ { Some(KEY_LEFT) }
    else if name == "up"@ || name == "w"@ { Some(KEY_UP) }
    else if name == "down"@ || name == "s"@ { Some(KEY_DOWN) }
    else if name == "r"@ { Some(KEY_R) }
    else if name == "l"@ { Some(KEY_L) }
    else { None }
}

/// KEYINPUT with only the named key pressed, or `None` for an unknown name.
pub fn keyinput_for_name(name: &str) -> (r: Option<u16>)
    ensures
        r == (match spec_key_bit(name@) {
            Some(bit) => Some(KEYINPUT_RELEASED & !bit),
            None => None::<u16>,
        }),
{
    let bit = if same_text(name, "a") {
        KEY_A
    } else if same_text(name, "b") {
        KEY_B
    } else if same_text(name, "select") {
        KEY_SELECT
    } else if same_text(name, "start") {
        KEY_START
    } else if same_text(name, "right") || same_text(name, "d") {
        KEY_RIGHT
    } else if same_text(name, "left") {
        KEY_LEFT
    } else if same_text(name, "up") || same_text(name, "w") {
        KEY_UP
    } else if same_text(name, "down") || same_text(name, "s") {
        KEY_DOWN
    } else if same_text(name, "r") {
        KEY_R
    } else if same_text(name, "l") {
        KEY_L
    } else {
        return None;
    };
    Some(KEYINPUT_RELEASED & !bit)
}

pub const SDL_SCANCODE_A: usize = 4;
pub const SDL_SCANCODE_D: usize = 7;
pub const SDL_SCANCODE_I: usize = 12;
pub const SDL_SCANCODE_K: usize = 14;
pub const SDL_SCANCODE_L: usize = 15;
pub const SDL_SCANCODE_O: usize = 18;
pub const SDL_SCANCODE_S: usize = 22;
pub const SDL_SCANCODE_W: usize = 26;
pub const SDL_SCANCODE_RETURN: usize = 40;
pub const SDL_SCANCODE_BACKSPACE: usize = 42;

/// The key at `scancode` is down in the keyboard state `keys` (keys past
/// its end are up).
pub open spec fn spec_pressed(keys: Seq<u8>, scancode: int) -> bool {
    scancode < keys.len() && keys[scancode] != 0
}

/// Clears `bit` of `keyinput` when the key at `scancode` is down.
pub fn clear_if_pressed(keys: &[u8], scancode: usize, keyinput: &mut u16, bit: u16)
    ensures
        *final(keyinput) == (if spec_pressed(keys@, scancode as int) { *old(keyinput) & !bit } else { *old(keyinput) }),
{
    if scancode < keys.len() && keys[scancode] != 0 {
        *keyinput = *keyinput & !bit;
    }
}

/// KEYINPUT for keyboard state `keys`: L, K, Backspace, Return, D, A, W, S,
/// O and I hold A, B, Select, Start, Right, Left, Up, Down, R and L.
pub open spec fn spec_keyinput_from_keys(keys: Seq<u8>) -> u16 {
    let k0 = KEYINPUT_RELEASED;
    let k1 = if spec_pressed(keys, SDL_SCANCODE_L as int) { k0 & !KEY_A } else { k0 };
    let k2 = if spec_pressed(keys, SDL_SCANCODE_K as int) { k1 & !KEY_B } else { k1 };
    let k3 = if spec_pressed(keys, SDL_SCANCODE_BACKSPACE as int) { k2 & !KEY_SELECT } else { k2 };
    let k4 = if spec_pressed(keys, SDL_SCANCODE_RETURN as int) { k3 & !KEY_START } else { k3 };
    let k5 = if spec_pressed(keys, SDL_SCANCODE_D as int) { k4 & !KEY_RIGHT } else { k4 };
    let k6 = if spec_pressed(keys, SDL_SCANCODE_A as int) { k5 & !KEY_LEFT } else { k5 };
    let k7 = if spec_pressed(keys, SDL_SCANCODE_W as int) { k6 & !KEY_UP } else { k6 };
    let k8 = if spec_pressed(keys, SDL_SCANCODE_S as int) { k7 & !KEY_DOWN } else { k7 };
    let k9 = if spec_pressed(keys, SDL_SCANCODE_O as int) { k8 & !KEY_R } else { k8 };
    if spec_pressed(keys, SDL_SCANCODE_I as int) { k9 & !KEY_L } else { k9 }
}

/// KEYINPUT for the keyboard state (see `spec_keyinput_from_keys`).
pub fn keyinput_from_keys(keys: &[u8]) -> (r: u16)
    ensures
        r == spec_keyinput_from_keys(keys@),
{
    let mut keyinput = KEYINPUT_RELEASED;
    clear_if_pressed(keys, SDL_SCANCODE_L, &mut keyinput, KEY_A);
    clear_if_pressed(keys, SDL_SCANCODE_K, &mut keyinput, KEY_B);
    clear_if_pressed(keys, SDL_SCANCODE_BACKSPACE, &mut keyinput, KEY_SELECT);
    clear_if_pressed(keys, SDL_SCANCODE_RETURN, &mut keyinput, KEY_START);
    clear_if_pressed(keys, SDL_SCANCODE_D, &mut keyinput, KEY_RIGHT);
    clear_if_pressed(keys, SDL_SCANCODE_A, &mut keyinput, KEY_LEFT);
    clear_if_pressed(keys, SDL_SCANCODE_W, &mut keyinput, KEY_UP);
    clear_if_pressed(keys, SDL_SCANCODE_S, &mut keyinput, KEY_DOWN);
    clear_if_pressed(keys, SDL_SCANCODE_O, &mut keyinput, KEY_R);
    clear_if_pressed(keys, SDL_SCANCODE_I, &mut keyinput, KEY_L);
    keyinput
}

} // verus!
