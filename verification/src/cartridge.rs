use vstd::prelude::*;
use std::path::PathBuf;

verus! {

#[verifier::external_type_specification]
#[verifier::external_body]
pub struct ExPathBuf(PathBuf);

/// What `String::from_utf8_lossy` makes of `bytes`: the UTF-8 text, each
/// invalid sequence replaced by U+FFFD.
pub uninterp spec fn utf8_lossy(bytes: Seq<u8>) -> Seq<char>;

/// Decodes `bytes` as UTF-8, replacing invalid sequences.
///
/// Calls `String::from_utf8_lossy`; the contract only names its result
/// after the bytes it was given.
#[verifier::external_body]
fn decode_lossy(bytes: &[u8]) -> (s: String)
    ensures
        s@ == utf8_lossy(bytes@),
{
    String::from_utf8_lossy(bytes).into_owned()
}

/// Why a cartridge could not be made.
#[derive(Debug)]
pub enum CartridgeError {
    /// The image could not be loaded (the message says why).
    LoadError(String),
    /// The image is shorter than its header (0xC0 bytes).
    InvalidSize,
    /// Reading the image failed (the message of the I/O error).
    IoError(String),
}

/// Header fields of a GBA ROM image.
#[derive(Debug, Clone)]
pub struct RomHeader {
    pub title: String,
    pub game_code: String,
    pub maker_code: String,
    pub version: u8,
}

/// `s` without its trailing zero bytes.
pub open spec fn trim_zeros(s: Seq<u8>) -> Seq<u8>
    decreases s.len(),
{
    if s.len() > 0 && s.last() == 0 {
        trim_zeros(s.drop_last())
    } else {
        s
    }
}

/// The header that `rom` holds: title at 0xA0 (12 bytes, trailing zeros
/// dropped), game code at 0xAC (4 bytes), maker code at 0xB0 (2 bytes),
/// version at 0xBC.
pub open spec fn header_of(rom: Seq<u8>) -> (Seq<char>, Seq<char>, Seq<char>, u8) {
    (
        utf8_lossy(trim_zeros(rom.subrange(0xA0, 0xAC))),
        utf8_lossy(rom.subrange(0xAC, 0xB0)),
        utf8_lossy(rom.subrange(0xB0, 0xB2)),
        rom[0xBC],
    )
}

/// A loaded cartridge: its ROM image, the header read from it and the path
/// it came from.
pub struct Cartridge {
    pub rom: Vec<u8>,
    pub header: RomHeader,
    pub rom_path: Option<PathBuf>,
}

/// Length of `s` once its trailing zero bytes are dropped.
fn trimmed_len(s: &[u8]) -> (n: usize)
    ensures
        n <= s@.len(),
        trim_zeros(s@) == s@.subrange(0, n as int),
{
    let mut n = s.len();
    assert(s@.subrange(0, s@.len() as int) =~= s@);
    while n > 0 && s[n - 1] == 0
        invariant
            n <= s@.len(),
            trim_zeros(s@) == trim_zeros(s@.subrange(0, n as int)),
        decreases n,
    {
        assert(s@.subrange(0, n as int).drop_last() =~= s@.subrange(0, n - 1));
        n = n - 1;
    }
    n
}

impl Cartridge {
    /// Reads the header of `rom`, which holds at least 0xC0 bytes.
    fn parse_header(rom: &[u8]) -> (r: Result<RomHeader, CartridgeError>)
        requires
            rom@.len() >= 0xC0,
        ensures
            r matches Ok(h) && (h.title@, h.game_code@, h.maker_code@, h.version) == header_of(rom@),
    {
        let title_bytes = vstd::slice::slice_subrange(rom, 0xA0, 0xAC);
        let n = trimmed_len(title_bytes);
        let title = decode_lossy(vstd::slice::slice_subrange(title_bytes, 0, n));
        let game_code = decode_lossy(vstd::slice::slice_subrange(rom, 0xAC, 0xB0));
        let maker_code = decode_lossy(vstd::slice::slice_subrange(rom, 0xB0, 0xB2));
        let version = rom[0xBC];
        Ok(RomHeader { title, game_code, maker_code, version })
    }

    /// Makes a cartridge of a ROM image that was read from `rom_path`;
    /// an image shorter than its header (0xC0 bytes) is refused.
    pub fn from_image(rom: Vec<u8>, rom_path: Option<PathBuf>) -> (r: Result<Cartridge, CartridgeError>)
        ensures
            rom@.len() < 0xC0 <==> r matches Err(CartridgeError::InvalidSize),
            rom@.len() >= 0xC0 ==> (r matches Ok(c) && c.rom@ == rom@ && c.rom_path == rom_path && (
            c.header.title@,
            c.header.game_code@,
            c.header.maker_code@,
            c.header.version,
            ) == header_of(rom@)),
    {
        if rom.len() < 0xC0 {
            return Err(CartridgeError::InvalidSize);
        }
        match Self::parse_header(rom.as_slice()) {
            Ok(header) => Ok(Cartridge { rom, header, rom_path }),
            Err(e) => Err(e),
        }
    }
}

} // verus!
