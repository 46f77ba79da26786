use vstd::prelude::*;
use crate::flags::{
    has_flag, ModifiersState, SHIFT_BIT, CTRL_BIT, ALT_BIT, LOGO_BIT, ALL_MODIFIER_BITS,
};

verus! {

/// Virtual-key code of either shift key.
pub const VK_SHIFT: u16 = 0x10;
/// Virtual-key code of either control key.
pub const VK_CONTROL: u16 = 0x11;
/// Virtual-key code of either alt ("menu") key.
pub const VK_MENU: u16 = 0x12;
/// Virtual-key code of the pause key.
pub const VK_PAUSE: u16 = 0x13;
/// Virtual-key code of the left windows key.
pub const VK_LWIN: u16 = 0x5B;
/// Virtual-key code of the right windows key.
pub const VK_RWIN: u16 = 0x5C;
/// Virtual-key code of the scroll-lock key.
pub const VK_SCROLL: u16 = 0x91;
/// Virtual-key code of the left control key.
pub const VK_LCONTROL: u16 = 0xA2;
/// Virtual-key code of the right control key.
pub const VK_RCONTROL: u16 = 0xA3;
/// Virtual-key code of the left alt key.
pub const VK_LMENU: u16 = 0xA4;
/// Virtual-key code of the right alt key (AltGr on many layouts).
pub const VK_RMENU: u16 = 0xA5;
/// The virtual-key code that raw input reports for some pause key presses.
pub const VK_RAW_PAUSE: u16 = 0xFF;

/// The high bit of a key state word: set while the key is down.
pub const KEY_DOWN_FLAG: i16 = 1 << 15;

/// A key whose state word has its high bit set is held down.
pub open spec fn spec_key_pressed(key_state: i16) -> bool {
    key_state < 0
}

/// Whether the key whose state word (as the system's key-state query
/// returns it) is `key_state` is held down.
pub fn key_pressed(key_state: i16) -> (r: bool)
    ensures
        r == spec_key_pressed(key_state),
{
    let r = has_flag(key_state, KEY_DOWN_FLAG);
    assert((key_state & KEY_DOWN_FLAG == KEY_DOWN_FLAG) == (key_state < 0)) by (bit_vector);
    r
}

/// The state words of the keys that make up the modifier state, one per key.
#[derive(Clone, Copy, Debug, PartialEq, Eq, Structural)]
pub struct KeyStates {
    /// State of [`VK_SHIFT`].
    pub shift: i16,
    /// State of [`VK_CONTROL`].
    pub control: i16,
    /// State of [`VK_MENU`].
    pub menu: i16,
    /// State of [`VK_RMENU`].
    pub right_menu: i16,
    /// State of [`VK_LWIN`].
    pub left_win: i16,
    /// State of [`VK_RWIN`].
    pub right_win: i16,
}

/// `bit` where `held`, no bit otherwise.
pub open spec fn bit_if(held: bool, bit: u32) -> u32 {
    if held {
        bit
    } else {
        0
    }
}

/// The modifier bits that the key states `k` stand for. A held right alt
/// key (AltGr) hides control and alt, which it reports on many layouts.
pub open spec fn spec_key_mods(k: KeyStates) -> u32 {
    let altgr = spec_key_pressed(k.right_menu);
    bit_if(spec_key_pressed(k.shift), SHIFT_BIT)
        | bit_if(spec_key_pressed(k.control) && !altgr, CTRL_BIT)
        | bit_if(spec_key_pressed(k.menu) && !altgr, ALT_BIT)
        | bit_if(spec_key_pressed(k.left_win) || spec_key_pressed(k.right_win), LOGO_BIT)
}

/// Setting or clearing each modifier bit in turn, starting from no bit, gives
/// the union of the bits that were set.
proof fn lemma_set_chain(
    shift: bool,
    ctrl: bool,
    alt: bool,
    logo: bool,
    m0: u32,
    m1: u32,
    m2: u32,
    m3: u32,
    m4: u32,
)
    by (bit_vector)
    requires
        m0 == 0,
        m1 == (if shift { m0 | SHIFT_BIT } else { m0 & !SHIFT_BIT }),
        m2 == (if ctrl { m1 | CTRL_BIT } else { m1 & !CTRL_BIT }),
        m3 == (if alt { m2 | ALT_BIT } else { m2 & !ALT_BIT }),
        m4 == (if logo { m3 | LOGO_BIT } else { m3 & !LOGO_BIT }),
    ensures
        m4 == bit_if(shift, SHIFT_BIT) | bit_if(ctrl, CTRL_BIT) | bit_if(alt, ALT_BIT) | bit_if(
            logo,
            LOGO_BIT,
        ),
        (m4 & SHIFT_BIT == SHIFT_BIT) == shift,
        (m4 & CTRL_BIT == CTRL_BIT) == ctrl,
        (m4 & ALT_BIT == ALT_BIT) == alt,
        (m4 & LOGO_BIT == LOGO_BIT) == logo,
        !ctrl && !alt ==> m4 & (CTRL_BIT | ALT_BIT) == 0,
{
}

/// The modifiers held, given the state words of the modifier keys.
pub fn get_key_mods(keys: KeyStates) -> (r: ModifiersState)
    ensures
        r@ == spec_key_mods(keys),
        r@ & SHIFT_BIT == SHIFT_BIT <==> spec_key_pressed(keys.shift),
        spec_key_pressed(keys.right_menu) ==> r@ & (CTRL_BIT | ALT_BIT) == 0,
        r@ & LOGO_BIT == LOGO_BIT <==> (spec_key_pressed(keys.left_win) || spec_key_pressed(
            keys.right_win,
        )),
{
    let filter_out_altgr = key_pressed(keys.right_menu);
    let shift = key_pressed(keys.shift);
    let ctrl = key_pressed(keys.control) && !filter_out_altgr;
    let alt = key_pressed(keys.menu) && !filter_out_altgr;
    let logo = key_pressed(keys.left_win) || key_pressed(keys.right_win);

    let mut mods = ModifiersState::empty();
    let ghost m0 = mods@;
    mods.set(ModifiersState::SHIFT(), shift);
    let ghost m1 = mods@;
    mods.set(ModifiersState::CTRL(), ctrl);
    let ghost m2 = mods@;
    mods.set(ModifiersState::ALT(), alt);
    let ghost m3 = mods@;
    mods.set(ModifiersState::LOGO(), logo);
    proof {
        lemma_set_chain(shift, ctrl, alt, logo, m0, m1, m2, m3, mods@);
    }
    mods
}

/// The scancode prefix of keys that send the `E0` escape.
pub const EXTENDED_SCANCODE_PREFIX: u32 = 0xE000;

/// `scancode`, with the `E0` prefix where the key is extended.
pub open spec fn spec_extended_scancode(scancode: u32, extended: bool) -> u32 {
    scancode | (if extended {
        EXTENDED_SCANCODE_PREFIX
    } else {
        0
    })
}

/// The scancode of a key, carrying the `E0` prefix where the key is extended.
/// This is the scancode that the layout is asked to map to a virtual key.
pub fn extended_scancode(scancode: u32, extended: bool) -> (r: u32)
    ensures
        r == spec_extended_scancode(scancode, extended),
{
    scancode | if extended {
        EXTENDED_SCANCODE_PREFIX
    } else {
        0x0000
    }
}

/// The distinct virtual key and scancode that a raw key event stands for,
/// or `None` for the event to drop.
///
/// `layout_vkey` is what the keyboard layout maps the extended scancode
/// (`spec_extended_scancode(scancode, extended)`) to; it names the left or
/// right shift key.
pub open spec fn spec_handle_extended_keys(
    vkey: u16,
    scancode: u32,
    extended: bool,
    layout_vkey: u32,
) -> Option<(u16, u32)> {
    let sc = spec_extended_scancode(scancode, extended);
    if vkey == VK_SHIFT {
        Some((layout_vkey as u16, sc))
    } else if vkey == VK_CONTROL {
        Some((if extended { VK_RCONTROL } else { VK_LCONTROL }, sc))
    } else if vkey == VK_MENU {
        Some((if extended { VK_RMENU } else { VK_LMENU }, sc))
    } else if sc == 0xE01D && vkey == VK_PAUSE {
        // Pause sends left control + num lock; the first half is dropped.
        None
    } else if sc == 0x45 && (vkey == VK_PAUSE || vkey == VK_RAW_PAUSE) {
        // The second half is the pause key.
        Some((VK_PAUSE, 0xE059))
    } else if sc == 0xE046 {
        // Pause with a modifier held reports this scancode.
        Some((VK_PAUSE, 0xE059))
    } else if sc == 0x46 {
        // Scroll lock with a modifier held reports a wrong virtual key.
        Some((VK_SCROLL, sc))
    } else {
        Some((vkey, sc))
    }
}

/// Tells apart the left and right variants of shift, control and alt, and
/// repairs the codes that the pause and scroll-lock keys report.
///
/// `layout_vkey` is what the keyboard layout maps
/// `extended_scancode(scancode, extended)` to (as a virtual key, with its
/// left/right distinction); only the shift key uses it.
pub fn handle_extended_keys(vkey: u16, scancode: u32, extended: bool, layout_vkey: u32) -> (r:
    Option<(u16, u32)>)
    ensures
        r == spec_handle_extended_keys(vkey, scancode, extended, layout_vkey),
        r is None <==> (spec_extended_scancode(scancode, extended) == 0xE01D && vkey == VK_PAUSE),
        vkey == VK_CONTROL ==> r == Some(
            (
                if extended {
                    VK_RCONTROL
                } else {
                    VK_LCONTROL
                },
                spec_extended_scancode(scancode, extended),
            ),
        ),
        vkey == VK_MENU ==> r == Some(
            (
                if extended {
                    VK_RMENU
                } else {
                    VK_LMENU
                },
                spec_extended_scancode(scancode, extended),
            ),
        ),
{
    let scancode = extended_scancode(scancode, extended);
    let vkey = if vkey == VK_SHIFT {
        layout_vkey as u16
    } else if vkey == VK_CONTROL {
        if extended {
            VK_RCONTROL
        } else {
            VK_LCONTROL
        }
    } else if vkey == VK_MENU {
        if extended {
            VK_RMENU
        } else {
            VK_LMENU
        }
    } else if scancode == 0xE01D && vkey == VK_PAUSE {
        return None;
    } else if scancode == 0x45 && (vkey == VK_PAUSE || vkey == VK_RAW_PAUSE) {
        return Some((VK_PAUSE, 0xE059));
    } else if scancode == 0xE046 {
        return Some((VK_PAUSE, 0xE059));
    } else if scancode == 0x46 {
        VK_SCROLL
    } else {
        vkey
    };
    Some((vkey, scancode))
}

} // verus!
