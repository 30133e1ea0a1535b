//! A port's published state: a read-only view over the record the native
//! side delivers, and an owned variant that holds such a record.
use vstd::prelude::*;
use crate::mask::PortChangeMask;
use crate::spa::{DictRef, Direction, ParamInfo, DIRECTION_INPUT, DIRECTION_OUTPUT};

verus! {

/// The fields of a port's info record, as laid out by the native side: the
/// parameter array is reached through a possibly absent pointer together with
/// a separate count.
#[derive(Debug)]
pub struct PortInfoRef {
    pub id: u32,
    pub direction: u32,
    pub change_mask: u64,
    pub props: Option<DictRef>,
    pub n_params: u32,
    pub params: Option<Vec<ParamInfo>>,
}

impl PortInfoRef {
    /// The direction code is a known one.
    pub open spec fn direction_known(&self) -> bool {
        self.direction == DIRECTION_INPUT || self.direction == DIRECTION_OUTPUT
    }

    /// A present parameter array holds at least the declared count.
    pub open spec fn params_fit(&self) -> bool {
        self.params matches Some(v) ==> self.n_params <= v@.len()
    }

    /// The parameters the record declares: none when the array is absent,
    /// otherwise exactly the first `n_params` entries.
    pub open spec fn params_view(&self) -> Seq<ParamInfo> {
        match self.params {
            Some(v) => v@.subrange(0, self.n_params as int),
            None => Seq::empty(),
        }
    }

    pub fn id(&self) -> (r: u32)
        ensures
            r == self.id,
    {
        self.id
    }

    pub fn direction(&self) -> (r: Direction)
        requires
            self.direction_known(),
        ensures
            r.code() == self.direction,
    {
        Direction::from_raw(self.direction)
    }

    pub fn change_mask(&self) -> (r: PortChangeMask)
        ensures
            r.bits == self.change_mask,
    {
        PortChangeMask::from_bits_retain(self.change_mask)
    }

    /// The property dictionary, present exactly when the record has one.
    pub fn props(&self) -> (r: Option<&DictRef>)
        ensures
            r is Some <==> self.props is Some,
            r is Some ==> *r->0 == self.props->0,
    {
        match &self.props {
            Some(d) => Some(d),
            None => None,
        }
    }

    /// The parameter descriptors, borrowed from the record without copying.
    pub fn params(&self) -> (r: &[ParamInfo])
        requires
            self.params_fit(),
        ensures
            r@ == self.params_view(),
            r@.len() == 0 <==> (self.params is None || self.n_params == 0),
    {
        match &self.params {
            Some(v) => vstd::slice::slice_subrange(v.as_slice(), 0, self.n_params as usize),
            None => {
                let empty: &[ParamInfo] = &[];
                assert(empty@ =~= Seq::<ParamInfo>::empty());
                empty
            }
        }
    }
}

/// An info record owned by this side, released when the owner lets it go.
#[derive(Debug)]
pub struct PortInfo {
    info: Box<PortInfoRef>,
}

impl PortInfo {
    pub closed spec fn record(&self) -> PortInfoRef {
        *self.info
    }

    pub fn new(info: Box<PortInfoRef>) -> (r: PortInfo)
        ensures
            r.record() == *info,
    {
        PortInfo { info }
    }

    /// Takes ownership of a record that must be present.
    pub fn from_raw(raw: Option<Box<PortInfoRef>>) -> (r: PortInfo)
        requires
            raw is Some,
        ensures
            r.record() == *raw->0,
    {
        PortInfo { info: raw.unwrap() }
    }

    /// Hands the record out to the caller, who becomes responsible for it.
    pub fn into_raw(self) -> (r: Box<PortInfoRef>)
        ensures
            *r == self.record(),
    {
        self.info
    }

    /// The borrowed view of the owned record.
    pub fn as_ref(&self) -> (r: &PortInfoRef)
        ensures
            *r == self.record(),
    {
        &self.info
    }
}

} // verus!
