//! Persistent settings storage in the on-board SPI flash.
//!
//! The last 16 KiB of flash (four 4 KiB sectors, kept out of the program by
//! the memory layout) hold a map of settings records with exactly one key. A
//! record is the schema version as a variable-length integer, followed by the
//! serialized settings.
//!
//! The version prefix lets the loader detect records of a firmware version
//! with another settings schema and fall back to defaults instead of silently
//! reading garbage. The flash itself is the caller's: here are the record
//! format, the rules about it and the storage region.

use vstd::prelude::*;

verus! {

/// On-board flash size. The top 16 KiB are reserved for settings.
pub const FLASH_TOTAL_SIZE: usize = 2 * 1024 * 1024;

/// Size of a flash sector, the unit of erasing.
pub const SECTOR_BYTES: u32 = 4096;

/// Bytes reserved for the settings ring: four sectors.
pub const STORAGE_BYTES: u32 = 16 * 1024;

/// Offset (within flash) of the first storage sector.
pub const STORAGE_OFFSET: u32 = 2_080_768;

/// Map key of the single settings record.
pub const KEYER_CONFIG_KEY: u8 = 0;

/// Schema version of the stored record, to be increased whenever the
/// serialized form of the settings changes.
///
/// * v1: initial release.
/// * v2: added the decoder switch.
pub const SCHEMA_VERSION: u16 = 2;

/// Scratch buffer size for reading and writing the flash map. Must
/// comfortably fit a key and a record.
pub const DATA_BUFFER_SIZE: usize = 512;

/// The longest record that is written.
pub const RECORD_BYTES: usize = 256;

/// The flash could not be read.
#[derive(Debug, Clone, Copy, PartialEq, Eq, Structural)]
pub struct ReadFailed;

/// Why a record holds no usable settings.
#[derive(Debug, Clone, Copy, PartialEq, Eq, Structural)]
pub enum RecordError {
    /// The schema version cannot be read.
    Malformed,
    /// The record was written with another schema version.
    OtherSchema(u16),
}

/// A 16-bit number as a variable-length integer: seven bits per byte, lowest
/// first, with the top bit set on all bytes but the last.
pub open spec fn varint(n: u16) -> Seq<u8> {
    if n < 0x80 {
        seq![n as u8]
    } else if n < 0x4000 {
        seq![(n % 0x80 + 0x80) as u8, (n / 0x80) as u8]
    } else {
        seq![(n % 0x80 + 0x80) as u8, ((n / 0x80) % 0x80 + 0x80) as u8, (n / 0x4000) as u8]
    }
}

/// The variable-length integer at the front of some bytes, and how many bytes
/// it takes, if it is one of at most 16 bits.
pub open spec fn varint_front(bytes: Seq<u8>) -> Option<(u16, nat)> {
    if bytes.len() >= 1 && bytes[0] < 0x80 {
        Some((bytes[0] as u16, 1))
    } else if bytes.len() >= 2 && bytes[1] < 0x80 {
        Some(((bytes[0] - 0x80 + bytes[1] * 0x80) as u16, 2))
    } else if bytes.len() >= 3 && bytes[2] <= 3 {
        Some(((bytes[0] - 0x80 + (bytes[1] - 0x80) * 0x80 + bytes[2] * 0x4000) as u16, 3))
    } else {
        None
    }
}

/// A record with the given schema version.
pub open spec fn record(version: u16, config: Seq<u8>) -> Seq<u8> {
    varint(version) + config
}

/// The settings in a record, or why there are none.
pub open spec fn parsed(bytes: Seq<u8>) -> Result<Seq<u8>, RecordError> {
    match varint_front(bytes) {
        None => Err(RecordError::Malformed),
        Some((version, used)) => if version == SCHEMA_VERSION {
            Ok(bytes.skip(used as int))
        } else {
            Err(RecordError::OtherSchema(version))
        },
    }
}

/// The settings that are loaded from a record, if it holds usable ones.
pub open spec fn loaded(bytes: Seq<u8>) -> Option<Seq<u8>> {
    match parsed(bytes) {
        Ok(config) => Some(config),
        Err(_) => None,
    }
}

/// The record that is stored for some settings, unless they are too long.
pub open spec fn saved(config: Seq<u8>) -> Option<Seq<u8>> {
    if record(SCHEMA_VERSION, config).len() <= RECORD_BYTES {
        Some(record(SCHEMA_VERSION, config))
    } else {
        None
    }
}

/// `postcard::to_slice` on a `u16`, with a buffer of three bytes: writes the
/// number as a variable-length integer and hands back the bytes that it wrote.
/// Three bytes are always enough.
#[verifier::external_body]
fn u16_bytes(value: u16) -> (r: Result<Vec<u8>, ()>)
    ensures
        r is Ok,
        r->Ok_0@ == varint(value),
{
    let mut buf = [0u8; 3];
    postcard::to_slice(&value, &mut buf).map(|used| used.to_vec()).map_err(|_| ())
}

/// `postcard::take_from_bytes` for a `u16`: reads the variable-length integer
/// at the front of the bytes and hands back what follows it; fails if the
/// bytes end too soon or the integer has more than 16 bits.
#[verifier::external_body]
fn take_u16(bytes: &[u8]) -> (r: Result<(u16, &[u8]), ()>)
    ensures
        r matches Ok(t) ==> varint_front(bytes@) matches Some((value, used)) && t.0 == value
            && t.1@ == bytes@.skip(used as int),
        r is Ok <==> varint_front(bytes@) is Some,
{
    postcard::take_from_bytes::<u16>(bytes).map_err(|_| ())
}

/// The settings ring's place in flash: start and end offset.
pub fn storage_region() -> (region: (u32, u32))
    ensures
        region == (STORAGE_OFFSET, FLASH_TOTAL_SIZE as u32),
        region.1 - region.0 == STORAGE_BYTES,
{
    (STORAGE_OFFSET, STORAGE_OFFSET + STORAGE_BYTES)
}

/// The serialized settings in a record.
pub fn parse_record(bytes: &[u8]) -> (r: Result<&[u8], RecordError>)
    ensures
        match r {
            Ok(config) => parsed(bytes@) matches Ok(c) && config@ == c,
            Err(e) => parsed(bytes@) matches Err(x) && e == x,
        },
{
    match take_u16(bytes) {
        Ok((version, config)) => if version == SCHEMA_VERSION {
            Ok(config)
        } else {
            Err(RecordError::OtherSchema(version))
        },
        Err(()) => Err(RecordError::Malformed),
    }
}

/// The serialized settings in the most recent record, given what the flash
/// map has under the settings key. `None` if there is no record yet (first
/// boot), the flash read failed, or the record is malformed or of another
/// schema; the caller falls back to defaults.
pub fn load_config(fetched: Result<Option<&[u8]>, ReadFailed>) -> (config: Option<&[u8]>)
    ensures
        match config {
            Some(c) => fetched matches Ok(Some(bytes)) && parsed(bytes@) matches Ok(p) && c@ == p,
            None => fetched matches Ok(Some(bytes)) ==> parsed(bytes@) is Err,
        },
        (match config {
            Some(c) => Some(c@),
            None => None,
        }) == (match fetched {
            Ok(Some(bytes)) => loaded(bytes@),
            _ => None,
        }),
{
    match fetched {
        Ok(Some(bytes)) => match parse_record(bytes) {
            Ok(config) => Some(config),
            Err(_) => None,
        },
        Ok(None) => None,
        Err(_) => None,
    }
}

/// The record to store for some serialized settings. Fails if they are too
/// long for a record.
pub fn save_config(config: &[u8]) -> (r: Result<Vec<u8>, ()>)
    ensures
        r matches Ok(bytes) ==> bytes@ == record(SCHEMA_VERSION, config@),
        r is Ok <==> record(SCHEMA_VERSION, config@).len() <= RECORD_BYTES,
        saved(config@) == (match r {
            Ok(bytes) => Some(bytes@),
            Err(_) => None,
        }),
{
    let mut bytes: Vec<u8> = match u16_bytes(SCHEMA_VERSION) {
        Ok(bytes) => bytes,
        Err(()) => return Err(()),
    };
    if config.len() > RECORD_BYTES - bytes.len() {
        return Err(());
    }
    bytes.extend_from_slice(config);
    assert(bytes@ =~= record(SCHEMA_VERSION, config@));
    Ok(bytes)
}

/// Reading a number back gives the number, and exactly its own bytes are
/// used up.
pub proof fn law_varint_reads_back(n: u16, rest: Seq<u8>)
    ensures
        varint_front(varint(n) + rest) == Some((n, varint(n).len())),
        (varint(n) + rest).skip(varint(n).len() as int) == rest,
        1 <= varint(n).len() <= 3,
{
    let bytes = varint(n) + rest;
    assert(bytes.skip(varint(n).len() as int) =~= rest);
    assert(n / 0x4000 <= 3);
    assert((n / 0x80) / 0x80 == n / 0x4000);
}

/// What is loaded is what was saved.
pub proof fn law_saved_settings_are_loaded(config: Seq<u8>)
    ensures
        parsed(record(SCHEMA_VERSION, config)) matches Ok(loaded) && loaded == config,
{
    law_varint_reads_back(SCHEMA_VERSION, config);
}

/// A record of any other schema version is rejected, whatever it holds, and
/// the error names that version.
pub proof fn law_other_schemas_are_rejected(version: u16, config: Seq<u8>)
    requires
        version != SCHEMA_VERSION,
    ensures
        parsed(record(version, config)) matches Err(e) && e == RecordError::OtherSchema(version),
{
    law_varint_reads_back(version, config);
}

/// The settings ring consists of whole sectors, at least two of them, and
/// ends where the flash ends. A key and a record fit the scratch buffer.
pub proof fn law_storage_region_is_valid()
    ensures
        STORAGE_OFFSET % SECTOR_BYTES == 0,
        STORAGE_BYTES % SECTOR_BYTES == 0,
        STORAGE_BYTES >= 2 * SECTOR_BYTES,
        STORAGE_OFFSET + STORAGE_BYTES == FLASH_TOTAL_SIZE,
        1 + RECORD_BYTES <= DATA_BUFFER_SIZE,
{
}

/// Settings are loaded from a record exactly if it starts with the number two,
/// in whatever length, and they are then exactly what follows that number. A
/// record is malformed exactly if its first three bytes do not end a number of
/// at most 16 bits.
pub proof fn law_loaded_settings_follow_the_version(bytes: Seq<u8>)
    ensures
        ({
            let short = bytes.len() >= 1 && bytes[0] == 2;
            let longer = bytes.len() >= 2 && bytes[0] == 0x82 && bytes[1] == 0;
            let longest = bytes.len() >= 3 && bytes[0] == 0x82 && bytes[1] == 0x80 && bytes[2] == 0;
            &&& parsed(bytes) is Ok <==> short || longer || longest
            &&& short ==> parsed(bytes) == Ok::<Seq<u8>, RecordError>(bytes.skip(1))
            &&& longer ==> parsed(bytes) == Ok::<Seq<u8>, RecordError>(bytes.skip(2))
            &&& longest ==> parsed(bytes) == Ok::<Seq<u8>, RecordError>(bytes.skip(3))
        }),
        ({
            let ends_first = bytes.len() >= 1 && bytes[0] < 0x80;
            let ends_second = bytes.len() >= 2 && bytes[1] < 0x80;
            let ends_third = bytes.len() >= 3 && bytes[2] < 4;
            parsed(bytes) == Err::<Seq<u8>, RecordError>(RecordError::Malformed) <==> !ends_first
                && !ends_second && !ends_third
        }),
{
}

/// A number takes as few bytes as it needs, all but the last with the top bit
/// set.
pub proof fn law_varint_is_short(n: u16, i: int)
    ensures
        varint(n).len() == (if n < 128 {
            1int
        } else if n < 16384 {
            2
        } else {
            3
        }),
        0 <= i < varint(n).len() - 1 ==> varint(n)[i] >= 0x80,
        varint(n).last() < 0x80,
{
    assert(n / 0x4000 <= 3);
}

/// A record is the version two in one byte, then the settings as they are, so
/// settings of up to 255 bytes can be saved.
pub proof fn law_record_is_version_and_settings(config: Seq<u8>)
    ensures
        record(SCHEMA_VERSION, config).len() == 1 + config.len(),
        record(SCHEMA_VERSION, config)[0] == 2,
        record(SCHEMA_VERSION, config).skip(1) == config,
        record(SCHEMA_VERSION, config).len() <= RECORD_BYTES <==> config.len() <= 255,
        FLASH_TOTAL_SIZE == 0x20_0000,
        STORAGE_OFFSET == 0x1f_c000,
        STORAGE_BYTES == 0x4000,
        KEYER_CONFIG_KEY == 0,
        DATA_BUFFER_SIZE == 512,
{
    assert(record(SCHEMA_VERSION, config).skip(1) =~= config);
}

/// Settings of up to 255 bytes are saved and loaded as they were, longer ones
/// are not saved. What is loaded was saved with version two; a record of any
/// other version is not loaded.
pub proof fn law_settings_survive_a_save(config: Seq<u8>, version: u16)
    ensures
        saved(config) is Some <==> config.len() <= 255,
        saved(config) matches Some(bytes) ==> bytes == seq![2u8] + config && loaded(bytes) == Some(
            config,
        ),
        loaded(seq![2u8] + config) == Some(config),
        version != 2 ==> loaded(record(version, config)) is None,
{
    law_saved_settings_are_loaded(config);
    law_record_is_version_and_settings(config);
    assert(record(SCHEMA_VERSION, config) =~= seq![2u8] + config);
    if version != 2 {
        law_other_schemas_are_rejected(version, config);
    }
}

} // verus!
