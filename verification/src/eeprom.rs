//! Framing of the transfers to the 24C-series I2C EEPROM that the programs
//! keep their data in: each transfer starts with the two bytes of the memory
//! address, most significant first.

use vstd::prelude::*;

verus! {

/// The bus address of the EEPROM.
pub const EEPROM_BUS_ADDRESS: u8 = 0x50;

/// The two address bytes that select `address` in the EEPROM.
pub open spec fn spec_address_bytes(address: u16) -> Seq<u8> {
    seq![(address / 256) as u8, (address % 256) as u8]
}

/// The memory address that two address bytes select.
pub open spec fn spec_address_of(high: u8, low: u8) -> int {
    high * 256 + low
}

/// The bytes sent before a read to start it at `address`.
pub fn address_bytes(address: u16) -> (bytes: [u8; 2])
    ensures
        bytes@ == spec_address_bytes(address),
        bytes@[0] * 256 + bytes@[1] == address,
{
    [(address / 256) as u8, (address % 256) as u8]
}

/// The bytes of a write of `data` at `address`: the address, then the data.
pub fn write_frame(address: u16, data: &[u8]) -> (frame: Vec<u8>)
    requires
        data@.len() + 2 <= usize::MAX,
    ensures
        frame@ == spec_address_bytes(address) + data@,
        frame@.len() == data@.len() + 2,
        frame@[0] * 256 + frame@[1] == address,
        frame@.skip(2) == data@,
{
    proof {
        lemma_write_frame_parts(address, data@);
    }
    let mut frame: Vec<u8> = Vec::new();
    frame.push((address / 256) as u8);
    frame.push((address % 256) as u8);
    let n: usize = data.len();
    for i in 0..n
        invariant
            n == data@.len(),
            frame@ == spec_address_bytes(address) + data@.take(i as int),
    {
        frame.push(data[i]);
        assert(data@.take(i + 1) == data@.take(i as int).push(data@[i as int]));
    }
    assert(data@.take(n as int) == data@);
    frame
}

/// The address bytes select the address they were made from.
pub proof fn lemma_address_bytes_select(address: u16)
    ensures
        spec_address_bytes(address).len() == 2,
        spec_address_of(spec_address_bytes(address)[0], spec_address_bytes(address)[1])
            == address,
        spec_address_bytes(address)[0] * 256 + spec_address_bytes(address)[1] == address,
{
}

/// A write frame holds its address in its first two bytes and its data after
/// them, unchanged.
pub proof fn lemma_write_frame_parts(address: u16, data: Seq<u8>)
    ensures
        ({
            let frame = spec_address_bytes(address) + data;
            &&& frame.len() == data.len() + 2
            &&& spec_address_of(frame[0], frame[1]) == address
            &&& frame[0] * 256 + frame[1] == address
            &&& frame.skip(2) == data
        }),
{
    let frame = spec_address_bytes(address) + data;
    assert(frame.skip(2) =~= data);
}

} // verus!
