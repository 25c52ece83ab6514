//! The register layout of the meter: which input registers hold the device
//! identifier and which hold the measurements, and how they are decoded.

use vstd::prelude::*;
use vstd::utf8::*;

use crate::text::string_from_utf8;

verus! {

/// First input register of the device identifier.
pub const DEVICE_ID_START: u16 = 0x1000;

/// First input register of the measurements.
pub const MEASUREMENTS_START: u16 = 0x0000;

/// Number of registers read in each of the two requests.
pub const REGISTER_COUNT: u16 = 7;

/// The low byte of a register word.
pub open spec fn low_byte(w: u16) -> u8 {
    (w % 256) as u8
}

/// The high byte of a register word.
pub open spec fn high_byte(w: u16) -> u8 {
    (w / 256) as u8
}

/// The bytes of a run of register words: each word contributes its low byte,
/// then its high byte.
pub open spec fn register_bytes(words: Seq<u16>) -> Seq<u8> {
    Seq::new(
        2 * words.len(),
        |i: int| if i % 2 == 0 { low_byte(words[i / 2]) } else { high_byte(words[i / 2]) },
    )
}

/// Splits register words into bytes, low byte first.
pub fn registers_to_bytes(words: &[u16]) -> (bytes: Vec<u8>)
    ensures
        bytes@ == register_bytes(words@),
{
    let mut bytes: Vec<u8> = Vec::new();
    let mut k: usize = 0;
    while k < words.len()
        invariant
            k <= words.len(),
            bytes@.len() == 2 * k,
            forall|j: int|
                0 <= j < k ==> bytes@[2 * j] == low_byte(#[trigger] words@[j]) && bytes@[2 * j
                    + 1] == high_byte(words@[j]),
        decreases words.len() - k,
    {
        let w: u16 = words[k];
        let lo: u8 = (w & 0xff) as u8;
        let hi: u8 = (w >> 8) as u8;
        assert(lo == (w % 256) as u8 && hi == (w / 256) as u8) by (bit_vector)
            requires
                lo == (w & 0xff) as u8,
                hi == (w >> 8) as u8,
        ;
        bytes.push(lo);
        bytes.push(hi);
        k += 1;
    }
    assert forall|i: int| 0 <= i < bytes@.len() implies bytes@[i] == register_bytes(words@)[i] by {
        let j: int = i / 2;
        assert(words@[j] == words@[j]);
        if i % 2 == 0 {
            assert(i == 2 * j);
        } else {
            assert(i == 2 * j + 1);
        }
    }
    assert(bytes@ =~= register_bytes(words@));
    bytes
}

/// Splitting loses nothing: every register word equals its low byte plus 256
/// times its high byte, as they stand in the split bytes.
pub proof fn law_register_bytes_lossless(words: Seq<u16>)
    ensures
        register_bytes(words).len() == 2 * words.len(),
        forall|i: int|
            0 <= i < words.len() ==> #[trigger] words[i] == register_bytes(words)[2 * i] + 256
                * register_bytes(words)[2 * i + 1],
{
    assert forall|i: int| 0 <= i < words.len() implies #[trigger] words[i] == register_bytes(words)[2
        * i] + 256 * register_bytes(words)[2 * i + 1] by {
        let w: u16 = words[i];
        assert((2 * i) / 2 == i);
        assert((2 * i + 1) / 2 == i);
        assert((2 * i) % 2 == 0);
        assert((2 * i + 1) % 2 == 1);
        assert(w % 256 < 256);
        assert(w / 256 < 256);
        assert(w == w % 256 + 256 * (w / 256));
    }
}

/// Decodes the device identifier from its registers: the register bytes read as
/// UTF-8 text, or `None` where they are not well-formed UTF-8.
pub fn decode_device_id(words: &[u16]) -> (id: Option<String>)
    ensures
        id is Some <==> valid_utf8(register_bytes(words@)),
        id matches Some(s) ==> s@ == decode_utf8(register_bytes(words@)),
        id matches Some(s) ==> encode_utf8(s@) == register_bytes(words@),
{
    let bytes = registers_to_bytes(words);
    let id = string_from_utf8(bytes);
    proof {
        if id is Some {
            decode_utf8_encode_utf8(register_bytes(words@));
        }
    }
    id
}


/// What a measurement register holds.
#[derive(Debug, Clone, Copy, PartialEq, Eq, Structural)]
pub enum QtyKind {
    /// Mains voltage, in volts.
    Voltage,
    /// Phase current, in amperes.
    Current,
    /// Phase power, in watts.
    Power,
}

impl QtyKind {
    /// The unit symbol of the quantity.
    pub open spec fn spec_unit(self) -> Seq<char> {
        match self {
            QtyKind::Voltage => seq!['V'],
            QtyKind::Current => seq!['A'],
            QtyKind::Power => seq!['W'],
        }
    }

    /// The unit symbol of the quantity: `V`, `A` or `W`.
    pub fn unit(&self) -> (u: &'static str)
        ensures
            u@ == self.spec_unit(),
    {
        match self {
            QtyKind::Voltage => {
                proof { reveal_strlit("V"); }
                "V"
            },
            QtyKind::Current => {
                proof { reveal_strlit("A"); }
                "A"
            },
            QtyKind::Power => {
                proof { reveal_strlit("W"); }
                "W"
            },
        }
    }
}

/// One measurement as the meter reports it: the raw register value and what it
/// measures.
#[derive(Debug, Clone, Copy, PartialEq, Eq, Structural)]
pub struct RawQty {
    pub raw: u16,
    pub kind: QtyKind,
}

/// One snapshot of the meter: its identifier and the seven raw measurements.
#[derive(Debug)]
pub struct RawDeviceData {
    pub device: String,
    pub voltage: RawQty,
    pub current_1: RawQty,
    pub current_2: RawQty,
    pub current_3: RawQty,
    pub power_1: RawQty,
    pub power_2: RawQty,
    pub power_3: RawQty,
}

impl RawDeviceData {
    /// Assigns the measurement registers to their quantities: register 0 is the
    /// voltage, registers 1 to 3 the currents of phases 1 to 3, registers 4 to 6
    /// their powers.
    pub fn from_registers(device: String, values: &[u16]) -> (d: RawDeviceData)
        requires
            values@.len() >= REGISTER_COUNT,
        ensures
            d.device == device,
            d.voltage == (RawQty { raw: values@[0], kind: QtyKind::Voltage }),
            d.current_1 == (RawQty { raw: values@[1], kind: QtyKind::Current }),
            d.current_2 == (RawQty { raw: values@[2], kind: QtyKind::Current }),
            d.current_3 == (RawQty { raw: values@[3], kind: QtyKind::Current }),
            d.power_1 == (RawQty { raw: values@[4], kind: QtyKind::Power }),
            d.power_2 == (RawQty { raw: values@[5], kind: QtyKind::Power }),
            d.power_3 == (RawQty { raw: values@[6], kind: QtyKind::Power }),
    {
        RawDeviceData {
            device,
            voltage: RawQty { raw: values[0], kind: QtyKind::Voltage },
            current_1: RawQty { raw: values[1], kind: QtyKind::Current },
            current_2: RawQty { raw: values[2], kind: QtyKind::Current },
            current_3: RawQty { raw: values[3], kind: QtyKind::Current },
            power_1: RawQty { raw: values[4], kind: QtyKind::Power },
            power_2: RawQty { raw: values[5], kind: QtyKind::Power },
            power_3: RawQty { raw: values[6], kind: QtyKind::Power },
        }
    }
}

} // verus!
