use vstd::prelude::*;

verus! {

/// The physical key positions this remapper handles: the digit row of the
/// main block. Any scancode outside this allow-list passes through
/// untouched; that is deliberate policy, not an error.
#[derive(Debug, Clone, Copy, PartialEq, Eq)]
pub enum AbstractKey {
    Key1,
    Key2,
    Key3,
    Key4,
    Key5,
    Key6,
    Key7,
    Key8,
    Key9,
    Key0,
    OemMinus,
    OemPlus,
}

/// The allow-list: which hardware scancode denotes which abstract key.
/// One scancode always denotes the same physical key, in every layout.
pub open spec fn spec_key_for_scancode(scancode: u8) -> Option<AbstractKey> {
    match scancode {
        0x02 => Some(AbstractKey::Key1),
        0x03 => Some(AbstractKey::Key2),
        0x04 => Some(AbstractKey::Key3),
        0x05 => Some(AbstractKey::Key4),
        0x06 => Some(AbstractKey::Key5),
        0x07 => Some(AbstractKey::Key6),
        0x08 => Some(AbstractKey::Key7),
        0x09 => Some(AbstractKey::Key8),
        0x0A => Some(AbstractKey::Key9),
        0x0B => Some(AbstractKey::Key0),
        0x0C => Some(AbstractKey::OemMinus),
        0x0D => Some(AbstractKey::OemPlus),
        _ => None,
    }
}

/// Resolves a hardware scancode to the abstract key it denotes, or `None`
/// for any scancode outside the allow-list.
pub fn get_key_code_for_scancode(scancode: u8) -> (r: Option<AbstractKey>)
    ensures
        r == spec_key_for_scancode(scancode),
{
    match scancode {
        0x02 => Some(AbstractKey::Key1),
        0x03 => Some(AbstractKey::Key2),
        0x04 => Some(AbstractKey::Key3),
        0x05 => Some(AbstractKey::Key4),
        0x06 => Some(AbstractKey::Key5),
        0x07 => Some(AbstractKey::Key6),
        0x08 => Some(AbstractKey::Key7),
        0x09 => Some(AbstractKey::Key8),
        0x0A => Some(AbstractKey::Key9),
        0x0B => Some(AbstractKey::Key0),
        0x0C => Some(AbstractKey::OemMinus),
        0x0D => Some(AbstractKey::OemPlus),
        _ => None,
    }
}

} // verus!
