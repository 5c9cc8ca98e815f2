//! Per-device USB serial number, derived from the flash unique ID.

use vstd::prelude::*;

verus! {

/// Length of a flash unique ID.
pub const UID_BYTES: usize = 8;

/// Length of a serial number.
pub const SERIAL_BYTES: usize = 16;

/// The lower-case hexadecimal digit of a number below sixteen, in ASCII.
pub open spec fn hex_digit(n: int) -> u8 {
    if n < 10 {
        (0x30 + n) as u8
    } else {
        (0x61 + n - 10) as u8
    }
}

/// The unique ID in hexadecimal, two digits per byte.
pub open spec fn hex(uid: Seq<u8>) -> Seq<u8> {
    Seq::new(
        2 * uid.len(),
        |i: int|
            if i % 2 == 0 {
                hex_digit(uid[i / 2] as int / 16)
            } else {
                hex_digit(uid[i / 2] as int % 16)
            },
    )
}

/// Serial number of a device whose flash does not tell its ID: the same at
/// every enumeration, so that the host's device cache does not churn. It reads
/// `rpk-rp2040-0000` and ends in a zero byte.
pub open spec fn fallback() -> Seq<u8> {
    seq![
        0x72u8, 0x70, 0x6b, 0x2d, 0x72, 0x70, 0x32, 0x30, 0x34, 0x30, 0x2d, 0x30, 0x30, 0x30, 0x30,
        0,
    ]
}

/// The serial number of a device whose flash tells this ID, or none.
pub open spec fn serial_of(uid: Option<Seq<u8>>) -> Seq<u8> {
    match uid {
        Some(id) => hex(id),
        None => fallback(),
    }
}

/// The lower-case hexadecimal digit of a number below sixteen, in ASCII.
fn hex_char(n: u8) -> (c: u8)
    requires
        n < 16,
    ensures
        c == hex_digit(n as int),
{
    if n < 10 {
        0x30 + n
    } else {
        0x61 + (n - 10)
    }
}

/// The serial number: the flash unique ID as 16 hexadecimal digits, or a fixed
/// one if the ID could not be read.
pub fn flash_serial(uid: Option<[u8; 8]>) -> (serial: [u8; 16])
    ensures
        serial@ == (match uid {
            Some(id) => hex(id@),
            None => fallback(),
        }),
        serial@ == serial_of(
            match uid {
                Some(id) => Some(id@),
                None => None,
            },
        ),
{
    match uid {
        Some(id) => {
            let mut serial: [u8; 16] = [0; 16];
            let mut i: usize = 0;
            while i < UID_BYTES
                invariant
                    i <= UID_BYTES,
                    forall|k: int| 0 <= k < 2 * i ==> #[trigger] serial@[k] == hex(id@)[k],
                decreases UID_BYTES - i,
            {
                let byte: u8 = id[i];
                serial[2 * i] = hex_char(byte / 16);
                serial[2 * i + 1] = hex_char(byte % 16);
                i = i + 1;
            }
            assert(serial@ =~= hex(id@));
            serial
        },
        None => {
            let serial: [u8; 16] = [
                0x72, 0x70, 0x6b, 0x2d, 0x72, 0x70, 0x32, 0x30, 0x34, 0x30, 0x2d, 0x30, 0x30, 0x30,
                0x30, 0,
            ];
            assert(serial@ =~= fallback());
            serial
        },
    }
}

/// A serial number is ASCII, so it is valid UTF-8.
pub proof fn law_serial_is_ascii(uid: Seq<u8>, i: int)
    ensures
        0 <= i < hex(uid).len() ==> hex(uid)[i] < 0x80,
        0 <= i < fallback().len() ==> fallback()[i] < 0x80,
        fallback().len() == SERIAL_BYTES,
        uid.len() == UID_BYTES ==> hex(uid).len() == SERIAL_BYTES,
{
}

/// Devices with different IDs have different serial numbers, and none of them
/// has the fallback.
pub proof fn law_serial_identifies_device(a: Seq<u8>, b: Seq<u8>)
    requires
        a.len() == UID_BYTES,
        b.len() == UID_BYTES,
    ensures
        hex(a) == hex(b) ==> a == b,
        hex(a) != fallback(),
{
    if hex(a) == hex(b) {
        assert forall|i: int| 0 <= i < a.len() implies a[i] == b[i] by {
            assert(hex(a)[2 * i] == hex(b)[2 * i]);
            assert(hex(a)[2 * i + 1] == hex(b)[2 * i + 1]);
            assert((2 * i) / 2 == i && (2 * i + 1) / 2 == i);
        }
        assert(a =~= b);
    }
    assert(hex(a)[0] != fallback()[0]);
}

/// The fallback reads as its name says, and ends in a zero byte.
pub proof fn law_fallback_reads_as_named()
    ensures
        fallback().take(15).map_values(|b: u8| b as char) == "rpk-rp2040-0000"@,
        fallback().len() == 16,
        fallback()[15] == 0,
{
    reveal_strlit("rpk-rp2040-0000");
    assert(fallback().take(15).map_values(|b: u8| b as char) =~= "rpk-rp2040-0000"@);
}

/// The number that a lower-case hexadecimal digit stands for: `0` to `9`, then
/// `a` to `f`.
pub open spec fn hex_read(c: u8) -> int {
    if 0x30 <= c <= 0x39 {
        c - 0x30
    } else if 0x61 <= c <= 0x66 {
        c - 0x61 + 10
    } else {
        -1
    }
}

/// The serial number reads back as the unique ID: two digits per byte, in the
/// order of the bytes, the high digit first.
pub proof fn law_serial_reads_back(uid: Seq<u8>, i: int)
    requires
        0 <= i < uid.len(),
    ensures
        hex(uid).len() == 2 * uid.len(),
        0 <= hex_read(hex(uid)[2 * i]) < 16,
        0 <= hex_read(hex(uid)[2 * i + 1]) < 16,
        16 * hex_read(hex(uid)[2 * i]) + hex_read(hex(uid)[2 * i + 1]) == uid[i],
{
    assert((2 * i) / 2 == i && (2 * i + 1) / 2 == i);
    assert((2 * i) % 2 == 0 && (2 * i + 1) % 2 == 1);
}

/// The serial number is the ID in hexadecimal if there is one, and the named
/// fallback if there is none.
pub proof fn law_serial_is_the_id(uid: Seq<u8>, i: int)
    requires
        0 <= i < uid.len(),
    ensures
        16 * hex_read(serial_of(Some(uid))[2 * i]) + hex_read(serial_of(Some(uid))[2 * i + 1])
            == uid[i],
        serial_of(Some(uid)).len() == 2 * uid.len(),
        serial_of(None).take(15).map_values(|b: u8| b as char) == "rpk-rp2040-0000"@,
{
    law_serial_reads_back(uid, i);
    law_fallback_reads_as_named();
}

} // verus!
