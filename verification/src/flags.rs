use vstd::prelude::*;
use vstd::std_specs::cmp::PartialEqSpec;
use vstd::std_specs::ops::BitAndSpec;

verus! {

/// Whether every bit of `flag` is set in `bitset`.
pub fn has_flag<T>(bitset: T, flag: T) -> (r: bool)
    where T: Copy + PartialEq + core::ops::BitAnd<T, Output = T>,
    requires
        bitset.bitand_req(flag),
    ensures
        T::obeys_bitand_spec() && T::obeys_eq_spec() ==> r == bitset.bitand_spec(flag).eq_spec(&flag),
{
    bitset & flag == flag
}

/// The bit of the "shift" key.
pub const SHIFT_BIT: u32 = 0b100;

/// The bit of the "control" key.
pub const CTRL_BIT: u32 = 0b100 << 3;

/// The bit of the "alt" key.
pub const ALT_BIT: u32 = 0b100 << 6;

/// The bit of the "windows" key on PC and "command" key on Mac.
pub const LOGO_BIT: u32 = 0b100 << 9;

/// The bits of every modifier that [`ModifiersState`] knows.
pub const ALL_MODIFIER_BITS: u32 = SHIFT_BIT | CTRL_BIT | ALT_BIT | LOGO_BIT;

/// The set of keyboard modifiers that are held down.
///
/// Each modifier has a bit of its own; a bit is set while that modifier is
/// active. Bits outside [`ALL_MODIFIER_BITS`] are never set.
#[derive(Clone, Copy, Debug, PartialEq, Eq, Structural)]
pub struct ModifiersState {
    bits: u32,
}

impl View for ModifiersState {
    type V = u32;

    closed spec fn view(&self) -> u32 {
        self.bits
    }
}

/// `set` holds every bit of `flag`.
pub open spec fn spec_contains(set: u32, flag: u32) -> bool {
    set & flag == flag
}

/// `set` with the bits of `flag` added where `value` holds, removed otherwise.
pub open spec fn spec_set(set: u32, flag: u32, value: bool) -> u32 {
    if value {
        set | flag
    } else {
        set & !flag
    }
}

impl ModifiersState {
    #[verifier::type_invariant]
    spec fn known_bits_only(self) -> bool {
        self.bits & !ALL_MODIFIER_BITS == 0
    }

    /// The "shift" key alone.
    pub fn SHIFT() -> (r: Self)
        ensures
            r@ == SHIFT_BIT,
    {
        assert(SHIFT_BIT & !ALL_MODIFIER_BITS == 0) by (bit_vector);
        ModifiersState { bits: SHIFT_BIT }
    }

    /// The "control" key alone.
    pub fn CTRL() -> (r: Self)
        ensures
            r@ == CTRL_BIT,
    {
        assert(CTRL_BIT & !ALL_MODIFIER_BITS == 0) by (bit_vector);
        ModifiersState { bits: CTRL_BIT }
    }

    /// The "alt" key alone.
    pub fn ALT() -> (r: Self)
        ensures
            r@ == ALT_BIT,
    {
        assert(ALT_BIT & !ALL_MODIFIER_BITS == 0) by (bit_vector);
        ModifiersState { bits: ALT_BIT }
    }

    /// The "windows" key on PC and "command" key on Mac, alone.
    pub fn LOGO() -> (r: Self)
        ensures
            r@ == LOGO_BIT,
    {
        assert(LOGO_BIT & !ALL_MODIFIER_BITS == 0) by (bit_vector);
        ModifiersState { bits: LOGO_BIT }
    }

    /// No modifier held.
    pub fn empty() -> (r: Self)
        ensures
            r@ == 0,
    {
        assert(0u32 & !ALL_MODIFIER_BITS == 0) by (bit_vector);
        ModifiersState { bits: 0 }
    }

    /// Every known modifier held.
    pub fn all() -> (r: Self)
        ensures
            r@ == ALL_MODIFIER_BITS,
    {
        assert(ALL_MODIFIER_BITS & !ALL_MODIFIER_BITS == 0) by (bit_vector);
        ModifiersState { bits: ALL_MODIFIER_BITS }
    }

    /// The raw bits of the set.
    pub fn bits(&self) -> (r: u32)
        ensures
            r == self@,
            r & !ALL_MODIFIER_BITS == 0,
    {
        proof {
            use_type_invariant(self);
        }
        self.bits
    }

    /// The set made of the known modifier bits of `bits`; other bits are dropped.
    pub fn from_bits_truncate(bits: u32) -> (r: Self)
        ensures
            r@ == bits & ALL_MODIFIER_BITS,
    {
        assert((bits & ALL_MODIFIER_BITS) & !ALL_MODIFIER_BITS == 0) by (bit_vector);
        ModifiersState { bits: bits & ALL_MODIFIER_BITS }
    }

    /// The set made of `bits`, or `None` where `bits` holds an unknown bit.
    pub fn from_bits(bits: u32) -> (r: Option<Self>)
        ensures
            r is Some <==> bits & !ALL_MODIFIER_BITS == 0,
            r matches Some(m) ==> m@ == bits,
    {
        if bits & !ALL_MODIFIER_BITS == 0 {
            Some(ModifiersState { bits })
        } else {
            None
        }
    }

    /// No modifier is held.
    pub fn is_empty(&self) -> (r: bool)
        ensures
            r == (self@ == 0),
    {
        self.bits == 0
    }

    /// Every known modifier is held.
    pub fn is_all(&self) -> (r: bool)
        ensures
            r == (self@ == ALL_MODIFIER_BITS),
    {
        self.bits == ALL_MODIFIER_BITS
    }

    /// Every modifier of `other` is held in `self`.
    pub fn contains(&self, other: Self) -> (r: bool)
        ensures
            r == spec_contains(self@, other@),
    {
        self.bits & other.bits == other.bits
    }

    /// Adds the modifiers of `other`.
    pub fn insert(&mut self, other: Self)
        ensures
            final(self)@ == old(self)@ | other@,
    {
        proof {
            use_type_invariant(&*self);
            use_type_invariant(other);
        }
        let a = self.bits;
        let b = other.bits;
        assert((a | b) & !ALL_MODIFIER_BITS == 0) by (bit_vector)
            requires
                a & !ALL_MODIFIER_BITS == 0,
                b & !ALL_MODIFIER_BITS == 0,
        ;
        self.bits = a | b;
    }

    /// Removes the modifiers of `other`.
    pub fn remove(&mut self, other: Self)
        ensures
            final(self)@ == old(self)@ & !other@,
    {
        proof {
            use_type_invariant(&*self);
        }
        let a = self.bits;
        let b = other.bits;
        assert((a & !b) & !ALL_MODIFIER_BITS == 0) by (bit_vector)
            requires
                a & !ALL_MODIFIER_BITS == 0,
        ;
        self.bits = a & !b;
    }

    /// Adds the modifiers of `other` where `value` holds, removes them otherwise.
    pub fn set(&mut self, other: Self, value: bool)
        ensures
            final(self)@ == spec_set(old(self)@, other@, value),
    {
        if value {
            self.insert(other);
        } else {
            self.remove(other);
        }
    }
}

impl Default for ModifiersState {
    /// No modifier held.
    fn default() -> (r: Self)
        ensures
            r@ == 0,
    {
        ModifiersState::empty()
    }
}

/// After setting a non-empty flag to `value`, the set holds it exactly when
/// `value` holds, and the other bits are as before.
pub proof fn law_set_then_contains(set: u32, flag: u32, value: bool, other: u32)
    requires
        flag != 0,
        other & flag == 0,
    ensures
        spec_contains(spec_set(set, flag, value), flag) == value,
        spec_set(set, flag, value) & other == set & other,
{
    assert(spec_contains(set | flag, flag)) by (bit_vector);
    assert(flag != 0 ==> !spec_contains(set & !flag, flag)) by (bit_vector);
    assert(other & flag == 0 ==> (set | flag) & other == set & other) by (bit_vector);
    assert((set & !flag) & other == set & other) by (bit_vector)
        requires
            other & flag == 0,
    ;
}

/// Removing what was just inserted leaves the set as removing alone would.
pub proof fn law_insert_then_remove(set: u32, flag: u32)
    ensures
        spec_set(spec_set(set, flag, true), flag, false) == spec_set(set, flag, false),
{
    assert((set | flag) & !flag == set & !flag) by (bit_vector);
}

} // verus!
