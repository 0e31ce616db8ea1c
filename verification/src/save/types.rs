use vstd::prelude::*;

verus! {

/// Kind of save memory a game uses.
#[derive(Debug, Clone, Copy, PartialEq, Eq, Structural)]
pub enum SaveType {
    NoSave,
    Sram,
    Flash64K,
    Flash128K,
    Eeprom512B,
    Eeprom8K,
}

/// Size in bytes of each kind of save memory.
pub open spec fn save_size(t: SaveType) -> usize {
    match t {
        SaveType::NoSave => 0,
        SaveType::Sram => 0x8000,
        SaveType::Flash64K => 0x10000,
        SaveType::Flash128K => 0x20000,
        SaveType::Eeprom512B => 0x200,
        SaveType::Eeprom8K => 0x2000,
    }
}

impl SaveType {
    /// Size in bytes of the save memory.
    pub fn size(&self) -> (r: usize)
        ensures
            r == save_size(*self),
    {
        match self {
            SaveType::NoSave => 0,
            SaveType::Sram => 0x8000,
            SaveType::Flash64K => 0x10000,
            SaveType::Flash128K => 0x20000,
            SaveType::Eeprom512B => 0x200,
            SaveType::Eeprom8K => 0x2000,
        }
    }

    /// Whether the save memory is Flash.
    pub fn is_flash(&self) -> (r: bool)
        ensures
            r == (*self == SaveType::Flash64K || *self == SaveType::Flash128K),
    {
        matches!(self, SaveType::Flash64K | SaveType::Flash128K)
    }

    /// Whether the save memory is EEPROM.
    pub fn is_eeprom(&self) -> (r: bool)
        ensures
            r == (*self == SaveType::Eeprom512B || *self == SaveType::Eeprom8K),
    {
        matches!(self, SaveType::Eeprom512B | SaveType::Eeprom8K)
    }

    /// File extension of the save file: "sav", none without save memory.
    pub fn extension(&self) -> (r: &str)
        ensures
            r@ == extension_of(*self),
    {
        match self {
            SaveType::NoSave => "",
            _ => "sav",
        }
    }
}

/// States of the Flash command protocol.
#[derive(Debug, Clone, Copy, PartialEq, Eq, Structural)]
pub enum FlashState {
    Ready,
    Command1,
    Command2,
    Erase,
    Write,
    ChipId,
    BankSwitch,
}

/// No character of `s` is a path separator.
pub open spec fn no_separator(s: Seq<char>) -> bool {
    forall|i: int| 0 <= i < s.len() ==> s[i] != '/' && s[i] != '\\'
}

/// What `Path::with_extension` makes of the path written `path` with the
/// extension `ext`, written out as text.
pub uninterp spec fn with_extension_of(path: Seq<char>, ext: Seq<char>) -> Seq<char>;

/// The extension of the save file of a save type: "sav", none without
/// save memory.
pub open spec fn extension_of(t: SaveType) -> Seq<char> {
    if t == SaveType::NoSave {
        ""@
    } else {
        "sav"@
    }
}

/// The path `path` with its extension replaced by `ext`.
///
/// Calls `Path::with_extension` (which panics on an extension holding a
/// path separator) and writes the resulting path out as text; the result
/// is named after the two texts it was given.
#[verifier::external_body]
fn path_with_extension(path: &str, ext: &str) -> (r: String)
    requires
        no_separator(ext@),
    ensures
        r@ == with_extension_of(path@, ext@),
{
    std::path::Path::new(path).with_extension(ext).to_string_lossy().into_owned()
}

/// Save file bookkeeping.
#[derive(Debug)]
pub struct SaveMetadata {
    pub save_type: SaveType,
    pub rom_path: Option<String>,
    pub save_path: Option<String>,
    pub modified: bool,
}

impl SaveMetadata {
    pub fn new(save_type: SaveType) -> (r: Self)
        ensures
            r.save_type == save_type,
            r.rom_path.is_none(),
            r.save_path.is_none(),
            !r.modified,
    {
        SaveMetadata { save_type, rom_path: None, save_path: None, modified: false }
    }

    /// Sets the save path to the ROM path with the save file's extension;
    /// without a ROM path nothing changes.
    pub fn generate_save_path(&mut self)
        ensures
            final(self).save_type == old(self).save_type,
            final(self).rom_path == old(self).rom_path,
            final(self).modified == old(self).modified,
            old(self).rom_path matches Some(p) ==> (final(self).save_path matches Some(q) && q@
                == with_extension_of(p@, extension_of(old(self).save_type))),
            old(self).rom_path.is_none() ==> final(self).save_path == old(self).save_path,
    {
        match &self.rom_path {
            Some(rom_path) => {
                proof {
                    reveal_strlit("sav");
                    reveal_strlit("");
                }
                let p = path_with_extension(rom_path.as_str(), self.save_type.extension());
                self.save_path = Some(p);
            },
            None => {},
        }
    }
}

} // verus!
