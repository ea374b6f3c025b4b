use vstd::prelude::*;

verus! {

/// The bit that marks a held shift key in the platform's modifier set.
pub const SHIFT: u32 = 0x4;

/// The bit that marks a held control key.
pub const CTRL: u32 = 0x20;

/// The bit that marks a held alt key.
pub const ALT: u32 = 0x100;

/// The bit that marks a held logo (command, windows) key.
pub const LOGO: u32 = 0x800;

/// The modifier keys held down, as the windowing system packs them into bits.
#[derive(Clone, Copy, Debug, PartialEq, Eq, Hash, Structural)]
pub struct PlatformModifiers {
    pub bits: u32,
}

/// The four modifier flags of the application's event model.
#[derive(Clone, Copy, Debug, PartialEq, Eq, Hash, Structural)]
pub struct ModifiersState {
    pub shift: bool,
    pub control: bool,
    pub alt: bool,
    pub logo: bool,
}

/// The flags that a packed modifier set stands for: each is set when its bit is.
pub open spec fn modifiers_of(m: PlatformModifiers) -> ModifiersState {
    ModifiersState {
        shift: m.bits & SHIFT != 0,
        control: m.bits & CTRL != 0,
        alt: m.bits & ALT != 0,
        logo: m.bits & LOGO != 0,
    }
}

impl PlatformModifiers {
    /// No modifier held.
    pub fn empty() -> (r: PlatformModifiers)
        ensures
            r.bits == 0,
    {
        PlatformModifiers { bits: 0 }
    }

    pub fn shift(&self) -> (r: bool)
        ensures
            r == (self.bits & SHIFT != 0),
    {
        self.bits & SHIFT != 0
    }

    pub fn ctrl(&self) -> (r: bool)
        ensures
            r == (self.bits & CTRL != 0),
    {
        self.bits & CTRL != 0
    }

    pub fn alt(&self) -> (r: bool)
        ensures
            r == (self.bits & ALT != 0),
    {
        self.bits & ALT != 0
    }

    pub fn logo(&self) -> (r: bool)
        ensures
            r == (self.bits & LOGO != 0),
    {
        self.bits & LOGO != 0
    }
}

/// Unpacks the platform's modifier bits into the four flags, afresh on each call.
pub fn modifiers_state(modifiers: PlatformModifiers) -> (r: ModifiersState)
    ensures
        r == modifiers_of(modifiers),
{
    ModifiersState {
        shift: modifiers.shift(),
        control: modifiers.ctrl(),
        alt: modifiers.alt(),
        logo: modifiers.logo(),
    }
}

} // verus!
