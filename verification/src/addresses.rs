//! The address block of a frame: four MAC fields, with the two bytes of the
//! sequence-control field between the third and the fourth.

use crate::buffer::{read, reader_over, reader_unread};
use crate::error::DecodeError;
use crate::mac::{mac_text, MACField};
use vstd::prelude::*;

verus! {

/// The least number of bytes that an address block is decoded from.
pub const ADDRESS_BLOCK_LEN: usize = 24;

/// The six bytes of `block` from `offset` on. A place past the end of the
/// block reads as zero.
pub open spec fn field_at(block: Seq<u8>, offset: int) -> Seq<u8> {
    Seq::new(
        6,
        |i: int|
            if offset + i < block.len() {
                block[offset + i]
            } else {
                0u8
            },
    )
}

/// The four address fields of a frame, in the order of the wire, as text.
///
/// The fields are read by position: the first three from the offsets 0, 6
/// and 12, then two bytes of sequence control that are not kept, then the
/// fourth from offset 20. A block that ends before offset 26 leaves the
/// missing octets of the fourth field zero.
#[derive(Clone, PartialEq, Eq, Debug)]
pub struct FrameAddresses {
    pub addr1: MACField,
    pub addr2: MACField,
    pub addr3: MACField,
    pub addr4: MACField,
}

/// The four address fields as sequences of characters.
pub struct AddressesView {
    pub addr1: Seq<char>,
    pub addr2: Seq<char>,
    pub addr3: Seq<char>,
    pub addr4: Seq<char>,
}

impl View for FrameAddresses {
    type V = AddressesView;

    open spec fn view(&self) -> AddressesView {
        AddressesView {
            addr1: self.addr1@,
            addr2: self.addr2@,
            addr3: self.addr3@,
            addr4: self.addr4@,
        }
    }
}

impl AddressesView {
    /// The destination, the source and the BSSID among the four fields, by
    /// the two distribution-system flags. A frame that travels between two
    /// access points (both flags set) names no BSSID: its text is empty.
    pub open spec fn roles(self, to_ds: bool, from_ds: bool) -> (Seq<char>, Seq<char>, Seq<char>) {
        match (to_ds, from_ds) {
            (true, true) => (self.addr3, self.addr4, Seq::empty()),
            (true, false) => (self.addr2, self.addr3, self.addr1),
            (false, true) => (self.addr3, self.addr1, self.addr2),
            (false, false) => (self.addr1, self.addr2, self.addr3),
        }
    }
}

impl FrameAddresses {
    /// The fields that the positions of `block` hold.
    pub open spec fn laid_out(block: Seq<u8>) -> AddressesView {
        AddressesView {
            addr1: mac_text(field_at(block, 0)),
            addr2: mac_text(field_at(block, 6)),
            addr3: mac_text(field_at(block, 12)),
            addr4: mac_text(field_at(block, 20)),
        }
    }

    /// What decoding `block` gives: its fields, or the reason why there are
    /// none.
    pub open spec fn decoded(block: Seq<u8>) -> Result<AddressesView, DecodeError> {
        if block.len() < ADDRESS_BLOCK_LEN {
            Err(DecodeError::TruncatedInput)
        } else {
            Ok(Self::laid_out(block))
        }
    }

    /// Decodes the address block `s`.
    pub fn from_bytes(s: &[u8]) -> (res: Result<FrameAddresses, DecodeError>)
        ensures
            match res {
                Ok(addresses) => Self::decoded(s@) == Ok::<AddressesView, DecodeError>(addresses@),
                Err(e) => Self::decoded(s@) == Err::<AddressesView, DecodeError>(e),
            },
            res is Err <==> s@.len() < ADDRESS_BLOCK_LEN,
            res matches Err(e) ==> e == DecodeError::TruncatedInput,
    {
        if s.len() < ADDRESS_BLOCK_LEN {
            return Err(DecodeError::TruncatedInput);
        }
        let mut reader = reader_over(s);

        let mut mac_addr1: [u8; 6] = [0; 6];
        read(&mut reader, &mut mac_addr1);
        assert(mac_addr1@ =~= field_at(s@, 0));
        let addr1 = MACField::from_slice(&mac_addr1);

        let mut mac_addr2: [u8; 6] = [0; 6];
        read(&mut reader, &mut mac_addr2);
        assert(mac_addr2@ =~= field_at(s@, 6));
        let addr2 = MACField::from_slice(&mac_addr2);

        let mut mac_addr3: [u8; 6] = [0; 6];
        read(&mut reader, &mut mac_addr3);
        assert(mac_addr3@ =~= field_at(s@, 12));
        let addr3 = MACField::from_slice(&mac_addr3);

        let mut seq_ctl: [u8; 2] = [0; 2];
        read(&mut reader, &mut seq_ctl);
        assert(reader_unread(reader) =~= s@.skip(20));

        let mut mac_addr4: [u8; 6] = [0; 6];
        read(&mut reader, &mut mac_addr4);
        assert(mac_addr4@ =~= field_at(s@, 20));
        let addr4 = MACField::from_slice(&mac_addr4);

        Ok(FrameAddresses { addr1, addr2, addr3, addr4 })
    }
}

} // verus!
