use vstd::prelude::*;
use crate::save::types::SaveType;

verus! {

/// Whether `needle` occurs in `hay` at position `i`.
pub open spec fn occurs_at(hay: Seq<u8>, needle: Seq<u8>, i: int) -> bool {
    0 <= i && i + needle.len() <= hay.len() && hay.subrange(i, i + needle.len()) == needle
}

/// Whether `needle` occurs anywhere in `hay`.
pub open spec fn occurs(hay: Seq<u8>, needle: Seq<u8>) -> bool {
    exists|i: int| occurs_at(hay, needle, i)
}

/// The bytes of the marker "FLASH1M_V".
pub open spec fn marker_flash1m() -> Seq<u8> {
    seq![0x46u8, 0x4C, 0x41, 0x53, 0x48, 0x31, 0x4D, 0x5F, 0x56]
}

/// The bytes of the marker "FLASH512_V".
pub open spec fn marker_flash512() -> Seq<u8> {
    seq![0x46u8, 0x4C, 0x41, 0x53, 0x48, 0x35, 0x31, 0x32, 0x5F, 0x56]
}

/// The bytes of the marker "FLASH_V".
pub open spec fn marker_flash() -> Seq<u8> {
    seq![0x46u8, 0x4C, 0x41, 0x53, 0x48, 0x5F, 0x56]
}

/// The bytes of the marker "EEPROM_V".
pub open spec fn marker_eeprom() -> Seq<u8> {
    seq![0x45u8, 0x45, 0x50, 0x52, 0x4F, 0x4D, 0x5F, 0x56]
}

/// The bytes of the marker "SRAM_V".
pub open spec fn marker_sram() -> Seq<u8> {
    seq![0x53u8, 0x52, 0x41, 0x4D, 0x5F, 0x56]
}

/// Save type a ROM announces: the first marker found, in the order
/// FLASH1M_V, FLASH512_V, FLASH_V, EEPROM_V (8 KB above 16 MB of ROM),
/// SRAM_V.
pub open spec fn detected(rom: Seq<u8>) -> SaveType {
    if occurs(rom, marker_flash1m()) {
        SaveType::Flash128K
    } else if occurs(rom, marker_flash512()) {
        SaveType::Flash64K
    } else if occurs(rom, marker_flash()) {
        SaveType::Flash64K
    } else if occurs(rom, marker_eeprom()) {
        if rom.len() > 16 * 1024 * 1024 {
            SaveType::Eeprom8K
        } else {
            SaveType::Eeprom512B
        }
    } else if occurs(rom, marker_sram()) {
        SaveType::Sram
    } else {
        SaveType::NoSave
    }
}

/// Whether `needle` occurs at position `i` of `hay`.
fn matches_at(hay: &[u8], needle: &[u8], i: usize) -> (r: bool)
    requires
        i + needle@.len() <= hay@.len(),
    ensures
        r == occurs_at(hay@, needle@, i as int),
{
    let n = hay.len();
    let mut k: usize = 0;
    while k < needle.len()
        invariant
            n == hay@.len(),
            k <= needle@.len(),
            i + needle@.len() <= hay@.len(),
            forall|j: int| 0 <= j < k ==> hay@[i + j] == needle@[j],
        decreases needle@.len() - k,
    {
        assert(i + k < hay@.len());
        if hay[i + k] != needle[k] {
            assert(hay@.subrange(i as int, i + needle@.len())[k as int] != needle@[k as int]);
            return false;
        }
        k = k + 1;
    }
    assert(hay@.subrange(i as int, i + needle@.len()) =~= needle@);
    true
}

/// Whether `needle` occurs anywhere in `hay`.
pub fn contains_bytes(hay: &[u8], needle: &[u8]) -> (r: bool)
    ensures
        r == occurs(hay@, needle@),
{
    if needle.len() > hay.len() {
        return false;
    }
    let last = hay.len() - needle.len();
    let mut i: usize = 0;
    loop
        invariant
            i <= last,
            last == hay@.len() - needle@.len(),
            forall|j: int| 0 <= j < i ==> !occurs_at(hay@, needle@, j),
        decreases last - i,
    {
        if matches_at(hay, needle, i) {
            return true;
        }
        if i == last {
            assert forall|j: int| !occurs_at(hay@, needle@, j) by {
                if 0 <= j && j + needle@.len() <= hay@.len() {
                    assert(j <= last);
                }
            }
            return false;
        }
        i = i + 1;
    }
}

/// Finds which save memory a ROM uses from the marker strings it holds.
pub fn detect_save_type(rom: &[u8]) -> (r: SaveType)
    ensures
        r == detected(rom@),
{
    let flash1m: [u8; 9] = [0x46, 0x4C, 0x41, 0x53, 0x48, 0x31, 0x4D, 0x5F, 0x56];
    let flash512: [u8; 10] = [0x46, 0x4C, 0x41, 0x53, 0x48, 0x35, 0x31, 0x32, 0x5F, 0x56];
    let flash: [u8; 7] = [0x46, 0x4C, 0x41, 0x53, 0x48, 0x5F, 0x56];
    let eeprom: [u8; 8] = [0x45, 0x45, 0x50, 0x52, 0x4F, 0x4D, 0x5F, 0x56];
    let sram: [u8; 6] = [0x53, 0x52, 0x41, 0x4D, 0x5F, 0x56];
    assert(flash1m@ =~= marker_flash1m());
    assert(flash512@ =~= marker_flash512());
    assert(flash@ =~= marker_flash());
    assert(eeprom@ =~= marker_eeprom());
    assert(sram@ =~= marker_sram());
    if contains_bytes(rom, flash1m.as_slice()) {
        SaveType::Flash128K
    } else if contains_bytes(rom, flash512.as_slice()) {
        SaveType::Flash64K
    } else if contains_bytes(rom, flash.as_slice()) {
        SaveType::Flash64K
    } else if contains_bytes(rom, eeprom.as_slice()) {
        if rom.len() > 16 * 1024 * 1024 {
            SaveType::Eeprom8K
        } else {
            SaveType::Eeprom512B
        }
    } else if contains_bytes(rom, sram.as_slice()) {
        SaveType::Sram
    } else {
        SaveType::NoSave
    }
}

/// Confirms a detected save type; the detection is taken as it is.
pub fn verify_save_type(rom: &[u8], detected_type: SaveType) -> (r: SaveType)
    ensures
        r == detected_type,
{
    detected_type
}

} // verus!
