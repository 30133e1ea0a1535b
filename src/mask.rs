//! The change mask of a port's info: which fields changed since the previous
//! notification.
use vstd::prelude::*;

verus! {

/// Bit set when the port's properties changed.
pub const PORT_CHANGE_MASK_PROPS: u64 = 1;

/// Bit set when the port's parameter list changed.
pub const PORT_CHANGE_MASK_PARAMS: u64 = 2;

/// The named flags of a change mask.
#[derive(PartialEq, Eq, Structural, Clone, Copy, Debug)]
pub enum PortChange {
    Props,
    Params,
}

impl PortChange {
    pub open spec fn bit(self) -> u64 {
        match self {
            PortChange::Props => PORT_CHANGE_MASK_PROPS,
            PortChange::Params => PORT_CHANGE_MASK_PARAMS,
        }
    }
}

/// A change mask, holding its raw bits as they came, unknown bits included.
#[derive(PartialEq, Eq, Structural, Clone, Copy, Debug)]
pub struct PortChangeMask {
    pub bits: u64,
}

/// The named flags whose bits are set in `bits`, in declaration order.
pub open spec fn named_flags(bits: u64) -> Seq<PortChange> {
    let props: Seq<PortChange> = if bits & PORT_CHANGE_MASK_PROPS != 0 {
        seq![PortChange::Props]
    } else {
        Seq::empty()
    };
    let params: Seq<PortChange> = if bits & PORT_CHANGE_MASK_PARAMS != 0 {
        seq![PortChange::Params]
    } else {
        Seq::empty()
    };
    props + params
}

impl PortChangeMask {
    pub fn empty() -> (r: PortChangeMask)
        ensures
            r.bits == 0,
    {
        PortChangeMask { bits: 0 }
    }

    /// Both named flags.
    pub fn all() -> (r: PortChangeMask)
        ensures
            r.bits == PORT_CHANGE_MASK_PROPS | PORT_CHANGE_MASK_PARAMS,
    {
        PortChangeMask { bits: PORT_CHANGE_MASK_PROPS | PORT_CHANGE_MASK_PARAMS }
    }

    pub fn props() -> (r: PortChangeMask)
        ensures
            r.bits == PORT_CHANGE_MASK_PROPS,
    {
        PortChangeMask { bits: PORT_CHANGE_MASK_PROPS }
    }

    pub fn params() -> (r: PortChangeMask)
        ensures
            r.bits == PORT_CHANGE_MASK_PARAMS,
    {
        PortChangeMask { bits: PORT_CHANGE_MASK_PARAMS }
    }

    /// Keeps every bit, named or not.
    pub fn from_bits_retain(bits: u64) -> (r: PortChangeMask)
        ensures
            r.bits == bits,
    {
        PortChangeMask { bits }
    }

    /// Accepts only masks made of named bits.
    pub fn from_bits(bits: u64) -> (r: Option<PortChangeMask>)
        ensures
            r is Some <==> bits & !(PORT_CHANGE_MASK_PROPS | PORT_CHANGE_MASK_PARAMS) == 0,
            r is Some ==> r->0.bits == bits,
    {
        if bits & !(PORT_CHANGE_MASK_PROPS | PORT_CHANGE_MASK_PARAMS) == 0 {
            Some(PortChangeMask { bits })
        } else {
            None
        }
    }

    pub fn bits(&self) -> (r: u64)
        ensures
            r == self.bits,
    {
        self.bits
    }

    pub fn is_empty(&self) -> (r: bool)
        ensures
            r == (self.bits == 0),
    {
        self.bits == 0
    }

    /// Whether every bit of `other` is set in `self`.
    pub fn contains(&self, other: PortChangeMask) -> (r: bool)
        ensures
            r == (self.bits & other.bits == other.bits),
    {
        self.bits & other.bits == other.bits
    }

    pub fn union(&self, other: PortChangeMask) -> (r: PortChangeMask)
        ensures
            r.bits == self.bits | other.bits,
    {
        PortChangeMask { bits: self.bits | other.bits }
    }

    /// The named flags that are set, in declaration order.
    pub fn flags(&self) -> (r: Vec<PortChange>)
        ensures
            r@ == named_flags(self.bits),
    {
        let mut r: Vec<PortChange> = Vec::new();
        if self.bits & PORT_CHANGE_MASK_PROPS != 0 {
            r.push(PortChange::Props);
        }
        if self.bits & PORT_CHANGE_MASK_PARAMS != 0 {
            r.push(PortChange::Params);
        }
        proof {
            if self.bits & PORT_CHANGE_MASK_PROPS != 0 {
                assert(r@[0] == PortChange::Props);
            }
        }
        assert(r@ =~= named_flags(self.bits));
        r
    }
}

/// Change-mask decoding: a mask is decoded to exactly the named flags whose
/// bits it holds; both named bits give both flags, and zero gives none.
pub proof fn lemma_decode_change_mask(bits: u64)
    ensures
        forall|f: PortChange| named_flags(bits).contains(f) <==> bits & f.bit() != 0,
        bits == 0 ==> named_flags(bits).len() == 0,
        bits == PORT_CHANGE_MASK_PROPS | PORT_CHANGE_MASK_PARAMS ==> named_flags(bits) == seq![
            PortChange::Props,
            PortChange::Params,
        ],
{
    assert(0u64 & 1u64 == 0u64 && 0u64 & 2u64 == 0u64) by (bit_vector);
    assert((1u64 | 2u64) & 1u64 != 0u64 && (1u64 | 2u64) & 2u64 != 0u64) by (bit_vector);
    let s = named_flags(bits);
    assert forall|f: PortChange| s.contains(f) <==> bits & f.bit() != 0 by {
        if bits & f.bit() != 0 {
            match f {
                PortChange::Props => assert(s[0] == PortChange::Props),
                PortChange::Params => assert(s[s.len() - 1] == PortChange::Params),
            }
        }
        if s.contains(f) {
            let i = choose|i: int| 0 <= i < s.len() && s[i] == f;
        }
    }
    if bits == PORT_CHANGE_MASK_PROPS | PORT_CHANGE_MASK_PARAMS {
        assert(named_flags(bits) =~= seq![PortChange::Props, PortChange::Params]);
    }
}

} // verus!
