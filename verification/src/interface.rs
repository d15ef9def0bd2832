//! The identities of the engine's COM interfaces.
//!
//! Each interface is known to the engine by a GUID. A caller that is asked
//! for an interface compares the GUID it is given with the one it
//! implements.

use vstd::prelude::*;
use windows_core::GUID;

verus! {

/// A globally unique identifier, in the four parts in which it is written.
#[derive(Clone, Copy, Debug)]
pub struct Guid {
    /// The first 8 hexadecimal digits.
    pub data1: u32,
    /// The first group of 4 hexadecimal digits.
    pub data2: u16,
    /// The second group of 4 hexadecimal digits.
    pub data3: u16,
    /// The third group of 4 hexadecimal digits and the final 12.
    pub data4: [u8; 8],
}

impl Guid {
    /// Whether this identifier is made of these four parts.
    pub open spec fn is(self, data1: u32, data2: u16, data3: u16, data4: Seq<u8>) -> bool {
        self.data1 == data1 && self.data2 == data2 && self.data3 == data3 && self.data4@ == data4
    }

    /// Whether two identifiers are the same, part by part.
    pub open spec fn same_as(self, other: Guid) -> bool {
        self.is(other.data1, other.data2, other.data3, other.data4@)
    }
}

/// `PartialEq::eq` of `windows_core::GUID`, on the identifiers that
/// `GUID::from_values` makes of the parts of `left` and of `right`. The
/// outside crate derives the comparison and `from_values` stores each part
/// as it is given, so the answer is `true` exactly if the identifiers agree
/// in all four parts.
#[verifier::external_body]
fn guid_eq(left: &Guid, right: &Guid) -> (r: bool)
    ensures
        r == left.same_as(*right),
{
    GUID::from_values(left.data1, left.data2, left.data3, left.data4) == GUID::from_values(
        right.data1,
        right.data2,
        right.data3,
        right.data4,
    )
}

/// The interfaces of the engine.
#[derive(Clone, Copy, Debug, PartialEq, Eq, Structural)]
pub enum InterfaceId {
    IDStorageFile,
    IDStorageCustomDecompressionQueue,
    IDStorageCustomDecompressionQueue1,
    IDStorageFactory,
    IDStorageStatusArray,
    IDStorageQueue,
    IDStorageQueue1,
    IDStorageCompressionCodec,
}

impl InterfaceId {
    /// Whether `iid` is the identifier of this interface.
    pub open spec fn is_identified_by(self, iid: Guid) -> bool {
        match self {
            InterfaceId::IDStorageFile => iid.is(
                0x5DE95E7B,
                0x955A,
                0x4868,
                seq![0xA7u8, 0x3C, 0x24, 0x3B, 0x29, 0xF4, 0xB8, 0xDA],
            ),
            InterfaceId::IDStorageCustomDecompressionQueue => iid.is(
                0x97179B2F,
                0x2C21,
                0x49CA,
                seq![0x82u8, 0x91, 0x4E, 0x1B, 0xF4, 0xA1, 0x60, 0xDF],
            ),
            InterfaceId::IDStorageCustomDecompressionQueue1 => iid.is(
                0x0D47C6C9,
                0xE61A,
                0x4706,
                seq![0x93u8, 0xB4, 0x68, 0xBF, 0xE3, 0xF4, 0xAA, 0x4A],
            ),
            InterfaceId::IDStorageFactory => iid.is(
                0x6924EA0C,
                0xC3CD,
                0x4826,
                seq![0xB1u8, 0x0A, 0xF6, 0x4F, 0x4E, 0xD9, 0x27, 0xC1],
            ),
            InterfaceId::IDStorageStatusArray => iid.is(
                0x82397587,
                0x7CD5,
                0x453B,
                seq![0xA0u8, 0x2E, 0x31, 0x37, 0x9B, 0xD6, 0x46, 0x56],
            ),
            InterfaceId::IDStorageQueue => iid.is(
                0xCFDBD83F,
                0x9E06,
                0x4FDA,
                seq![0x8Eu8, 0xA5, 0x69, 0x04, 0x21, 0x37, 0xF4, 0x9B],
            ),
            InterfaceId::IDStorageQueue1 => iid.is(
                0xDD2F482C,
                0x5EFF,
                0x41E8,
                seq![0x9Cu8, 0x9E, 0xD2, 0x37, 0x4B, 0x27, 0x81, 0x28],
            ),
            InterfaceId::IDStorageCompressionCodec => iid.is(
                0x84EF5121,
                0x9B43,
                0x4D03,
                seq![0xB5u8, 0xC1, 0xCC, 0x34, 0x60, 0x6B, 0x26, 0x2D],
            ),
        }
    }

    /// The identifier of this interface.
    pub fn IID(&self) -> (r: Guid)
        ensures
            self.is_identified_by(r),
    {
        let r = match self {
            InterfaceId::IDStorageFile => Guid {
                data1: 0x5DE95E7B,
                data2: 0x955A,
                data3: 0x4868,
                data4: [0xA7, 0x3C, 0x24, 0x3B, 0x29, 0xF4, 0xB8, 0xDA],
            },
            InterfaceId::IDStorageCustomDecompressionQueue => Guid {
                data1: 0x97179B2F,
                data2: 0x2C21,
                data3: 0x49CA,
                data4: [0x82, 0x91, 0x4E, 0x1B, 0xF4, 0xA1, 0x60, 0xDF],
            },
            InterfaceId::IDStorageCustomDecompressionQueue1 => Guid {
                data1: 0x0D47C6C9,
                data2: 0xE61A,
                data3: 0x4706,
                data4: [0x93, 0xB4, 0x68, 0xBF, 0xE3, 0xF4, 0xAA, 0x4A],
            },
            InterfaceId::IDStorageFactory => Guid {
                data1: 0x6924EA0C,
                data2: 0xC3CD,
                data3: 0x4826,
                data4: [0xB1, 0x0A, 0xF6, 0x4F, 0x4E, 0xD9, 0x27, 0xC1],
            },
            InterfaceId::IDStorageStatusArray => Guid {
                data1: 0x82397587,
                data2: 0x7CD5,
                data3: 0x453B,
                data4: [0xA0, 0x2E, 0x31, 0x37, 0x9B, 0xD6, 0x46, 0x56],
            },
            InterfaceId::IDStorageQueue => Guid {
                data1: 0xCFDBD83F,
                data2: 0x9E06,
                data3: 0x4FDA,
                data4: [0x8E, 0xA5, 0x69, 0x04, 0x21, 0x37, 0xF4, 0x9B],
            },
            InterfaceId::IDStorageQueue1 => Guid {
                data1: 0xDD2F482C,
                data2: 0x5EFF,
                data3: 0x41E8,
                data4: [0x9C, 0x9E, 0xD2, 0x37, 0x4B, 0x27, 0x81, 0x28],
            },
            InterfaceId::IDStorageCompressionCodec => Guid {
                data1: 0x84EF5121,
                data2: 0x9B43,
                data3: 0x4D03,
                data4: [0xB5, 0xC1, 0xCC, 0x34, 0x60, 0x6B, 0x26, 0x2D],
            },
        };
        assert(self.is_identified_by(r)) by {
            assert(r.data4@.len() == 8);
            assert(r.data4@ =~= seq![
                r.data4@[0],
                r.data4@[1],
                r.data4@[2],
                r.data4@[3],
                r.data4@[4],
                r.data4@[5],
                r.data4@[6],
                r.data4@[7],
            ]);
        }
        r
    }

    /// Whether `iid` asks for this interface.
    pub fn matches(&self, iid: &Guid) -> (r: bool)
        ensures
            r == self.is_identified_by(*iid),
    {
        let own = self.IID();
        guid_eq(iid, &own)
    }
}

/// No two interfaces share an identifier: an identifier asks for one
/// interface at most.
pub proof fn lemma_identifiers_differ(first: InterfaceId, second: InterfaceId, iid: Guid)
    requires
        first.is_identified_by(iid),
        second.is_identified_by(iid),
    ensures
        first == second,
{
}

} // verus!
