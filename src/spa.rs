//! The plain values that travel with port events: directions, parameter
//! kinds, parameter descriptors, property dictionaries and payloads.
use vstd::prelude::*;

verus! {

/// Raw code of an input port.
pub const DIRECTION_INPUT: u32 = 0;

/// Raw code of an output port.
pub const DIRECTION_OUTPUT: u32 = 1;

/// Reserved parameter id that stands for every parameter kind.
pub const ID_ANY: u32 = 0xffff_ffff;

#[derive(PartialEq, Eq, Structural, Clone, Copy, Debug)]
pub enum Direction {
    Input,
    Output,
}

impl Direction {
    pub open spec fn code(self) -> u32 {
        match self {
            Direction::Input => DIRECTION_INPUT,
            Direction::Output => DIRECTION_OUTPUT,
        }
    }

    /// Decodes a raw direction code; only the two known codes are valid.
    pub fn from_raw(raw: u32) -> (r: Direction)
        requires
            raw == DIRECTION_INPUT || raw == DIRECTION_OUTPUT,
        ensures
            r.code() == raw,
    {
        if raw == DIRECTION_INPUT {
            Direction::Input
        } else {
            Direction::Output
        }
    }

    pub fn as_raw(&self) -> (r: u32)
        ensures
            r == self.code(),
    {
        match self {
            Direction::Input => DIRECTION_INPUT,
            Direction::Output => DIRECTION_OUTPUT,
        }
    }

    /// The opposite direction.
    pub fn reverse(&self) -> (r: Direction)
        ensures
            r != *self,
    {
        match self {
            Direction::Input => Direction::Output,
            Direction::Output => Direction::Input,
        }
    }
}

/// A parameter kind, carried as its raw id.
#[derive(PartialEq, Eq, Structural, Clone, Copy, Debug)]
pub struct ParamType(pub u32);

impl ParamType {
    pub fn from_raw(raw: u32) -> (r: ParamType)
        ensures
            r.0 == raw,
    {
        ParamType(raw)
    }

    pub fn as_raw(&self) -> (r: u32)
        ensures
            r == self.0,
    {
        self.0
    }
}

/// Describes one parameter of an object: its kind and access flags.
#[derive(PartialEq, Eq, Structural, Clone, Copy, Debug)]
pub struct ParamInfo {
    pub id: ParamType,
    pub flags: u32,
}

/// A parameter payload. Its contents are parsed elsewhere; here it is only
/// carried to the closures that receive it.
#[derive(Debug)]
pub struct Pod {
    bytes: Vec<u8>,
}

impl Pod {
    pub closed spec fn view(&self) -> Seq<u8> {
        self.bytes@
    }

    pub fn from_bytes(bytes: Vec<u8>) -> (r: Pod)
        ensures
            r.view() == bytes@,
    {
        Pod { bytes }
    }

    pub fn as_bytes(&self) -> (r: &[u8])
        ensures
            r@ == self.view(),
    {
        self.bytes.as_slice()
    }
}

/// A dictionary of string properties, as published with an object's info.
#[derive(Debug)]
pub struct DictRef {
    items: Vec<(String, String)>,
}

impl DictRef {
    pub closed spec fn entries(&self) -> Seq<(String, String)> {
        self.items@
    }

    pub fn new(items: Vec<(String, String)>) -> (r: DictRef)
        ensures
            r.entries() == items@,
    {
        DictRef { items }
    }

    pub fn len(&self) -> (r: usize)
        ensures
            r == self.entries().len(),
    {
        self.items.len()
    }

    pub fn items(&self) -> (r: &[(String, String)])
        ensures
            r@ == self.entries(),
    {
        self.items.as_slice()
    }
}

} // verus!
