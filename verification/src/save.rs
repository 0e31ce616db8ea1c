pub mod constants;
pub mod detection;
pub mod eeprom;
pub mod flash;
pub mod sram;
pub mod types;

pub use crate::save::constants::{
    EEPROM_512B_SIZE, EEPROM_8K_SIZE, EEPROM_END, EEPROM_START, FLASH_128K_SIZE, FLASH_64K_SIZE,
    FLASH_ADDR_CMD1, FLASH_ADDR_CMD2, FLASH_ATMEL_64K, FLASH_CMD_BANK_SWITCH, FLASH_CMD_ENTER_ID,
    FLASH_CMD_ERASE_CHIP, FLASH_CMD_ERASE_SECTOR, FLASH_CMD_EXIT_ID, FLASH_CMD_READ,
    FLASH_CMD_WRITE_BYTE, FLASH_CMD_WRITE_DISABLE, FLASH_CMD_WRITE_ENABLE, FLASH_END,
    FLASH_MACRONIX_128K, FLASH_MACRONIX_64K, FLASH_PANASONIC_64K, FLASH_SANYO_128K,
    FLASH_SECTOR_SIZE, FLASH_START, SAVE_EEPROM_V, SAVE_FLASH1M_V, SAVE_FLASH512_V, SAVE_FLASH_V,
    SAVE_SRAM_V, SRAM_END, SRAM_SIZE, SRAM_START,
};
pub use crate::save::detection::{detect_save_type, verify_save_type};
pub use crate::save::types::{SaveMetadata, SaveType};

use vstd::prelude::*;
use crate::memory::byte_at;
use crate::save::detection::detected;
use crate::save::eeprom::Eeprom;
use crate::save::flash::Flash;
use crate::save::sram::{Sram, fitted, wrapped};
use crate::save::types::{extension_of, save_size, with_extension_of};

verus! {

/// The game's save memory: its kind, the active medium, and whether it
/// changed since it was last saved.
pub struct SaveController {
    pub save_type: SaveType,
    pub metadata: SaveMetadata,
    pub sram: Option<Sram>,
    pub flash: Option<Flash>,
    pub eeprom: Option<Eeprom>,
    pub modified: bool,
}

impl SaveController {
    /// The medium of the save type is there, with its size.
    pub open spec fn wf(self) -> bool {
        &&& self.save_type == SaveType::Sram ==> (self.sram is Some && self.sram.unwrap().wf()
            && self.sram.unwrap().size == 0x8000)
        &&& (self.save_type == SaveType::Flash64K || self.save_type == SaveType::Flash128K) ==> (
        self.flash is Some && self.flash.unwrap().wf() && self.flash.unwrap().size == save_size(
            self.save_type,
        ) && self.flash.unwrap().bank <= 1)
        &&& (self.save_type == SaveType::Eeprom512B || self.save_type == SaveType::Eeprom8K) ==> (
        self.eeprom is Some && self.eeprom.unwrap().wf())
    }

    /// The byte a read of the save area at `addr` gives (0xFF without SRAM
    /// or Flash).
    pub open spec fn read_spec(self, addr: u32) -> u8 {
        if self.save_type == SaveType::Sram {
            match self.sram {
                Some(s) => byte_at(s.data@, wrapped(addr & 0xFFFF, s.size), 0xFF),
                None => 0xFF,
            }
        } else if self.save_type == SaveType::Flash64K || self.save_type == SaveType::Flash128K {
            match self.flash {
                Some(f) => f.read_spec(addr & 0x1FFFF),
                None => 0xFF,
            }
        } else {
            0xFF
        }
    }

    /// No save memory.
    pub fn new() -> (r: Self)
        ensures
            r.wf(),
            r.save_type == SaveType::NoSave,
            !r.modified,
            r.sram.is_none() && r.flash.is_none() && r.eeprom.is_none(),
            r.metadata.save_path.is_none(),
            r.metadata.rom_path.is_none(),
            r.metadata.save_type == SaveType::NoSave,
            !r.metadata.modified,
    {
        SaveController {
            save_type: SaveType::NoSave,
            metadata: SaveMetadata::new(SaveType::NoSave),
            sram: None,
            flash: None,
            eeprom: None,
            modified: false,
        }
    }

    /// Sets the save memory up for `rom`: the kind its markers announce, a
    /// fresh medium of that kind, and the save path next to `rom_path`.
    pub fn init_from_rom(&mut self, rom: &[u8], rom_path: Option<String>)
        ensures
            final(self).wf(),
            final(self).save_type == detected(rom@),
            final(self).modified == old(self).modified,
            final(self).metadata.save_type == detected(rom@),
            final(self).metadata.rom_path == rom_path,
            rom_path.is_some() <==> final(self).metadata.save_path.is_some(),
            rom_path matches Some(p) ==> (final(self).metadata.save_path matches Some(q) && q@
                == with_extension_of(p@, extension_of(detected(rom@)))),
            final(self).save_type == SaveType::Sram ==> forall|i: int|
                0 <= i < final(self).sram.unwrap().size ==> final(self).sram.unwrap().data@[i] == 0xFF,
    {
        let save_type = detect_save_type(rom);
        self.save_type = save_type;
        self.metadata = SaveMetadata::new(save_type);
        self.metadata.rom_path = rom_path;
        self.metadata.generate_save_path();
        match save_type {
            SaveType::Sram => {
                self.sram = Some(Sram::new(save_type));
            },
            SaveType::Flash64K | SaveType::Flash128K => {
                self.flash = Some(Flash::new(save_type));
            },
            SaveType::Eeprom512B | SaveType::Eeprom8K => {
                self.eeprom = Some(Eeprom::new(save_type));
            },
            SaveType::NoSave => {},
        }
    }

    /// Reads a byte of the save area (SRAM within 64 KB, Flash within
    /// 128 KB); 0xFF without either.
    pub fn read_byte(&self, addr: u32) -> (r: u8)
        requires
            self.wf(),
        ensures
            r == self.read_spec(addr),
    {
        match self.save_type {
            SaveType::Sram => {
                if let Some(sram) = &self.sram {
                    return sram.read_byte(addr & 0xFFFF);
                }
            },
            SaveType::Flash64K | SaveType::Flash128K => {
                if let Some(flash) = &self.flash {
                    return flash.read_byte(addr & 0x1FFFF);
                }
            },
            _ => {},
        }
        0xFF
    }

    /// Writes a byte of the save area and marks the save as modified; with
    /// no SRAM or Flash nothing happens.
    pub fn write_byte(&mut self, addr: u32, value: u8)
        requires
            old(self).wf(),
        ensures
            final(self).wf(),
            final(self).save_type == old(self).save_type,
            final(self).eeprom == old(self).eeprom,
            final(self).metadata == old(self).metadata,
            old(self).save_type == SaveType::Sram ==> {
                &&& final(self).modified
                &&& final(self).flash == old(self).flash
                &&& final(self).sram is Some
                &&& final(self).sram.unwrap().size == old(self).sram.unwrap().size
                &&& final(self).sram.unwrap().data@ == crate::memory::updated(
                    old(self).sram.unwrap().data@,
                    wrapped(addr & 0xFFFF, old(self).sram.unwrap().size),
                    value,
                )
            },
            (old(self).save_type == SaveType::Flash64K || old(self).save_type == SaveType::Flash128K) ==> {
                &&& final(self).modified
                &&& final(self).sram == old(self).sram
                &&& final(self).flash is Some
                &&& old(self).flash.unwrap().written(addr & 0x1FFFF, value, final(self).flash.unwrap())
            },
            !(old(self).save_type == SaveType::Sram || old(self).save_type == SaveType::Flash64K
                || old(self).save_type == SaveType::Flash128K) ==> *final(self) == *old(self),
    {
        match self.save_type {
            SaveType::Sram => {
                if let Some(sram) = &mut self.sram {
                    sram.write_byte(addr & 0xFFFF, value);
                    self.modified = true;
                }
            },
            SaveType::Flash64K | SaveType::Flash128K => {
                if let Some(flash) = &mut self.flash {
                    flash.write_byte(addr & 0x1FFFF, value);
                    self.modified = true;
                }
            },
            _ => {},
        }
    }

    /// The EEPROM, if any, is consistent and can take one more bit.
    pub open spec fn eeprom_ready(self) -> bool {
        self.eeprom matches Some(e) ==> e.wf()
    }

    /// Passes a serial bit to the EEPROM and returns its answer (1 without
    /// an EEPROM); the save counts as modified.
    pub fn eeprom_process_bit(&mut self, bit: bool) -> (out: bool)
        requires
            old(self).eeprom_ready(),
        ensures
            final(self).save_type == old(self).save_type,
            final(self).sram == old(self).sram,
            final(self).flash == old(self).flash,
            final(self).metadata == old(self).metadata,
            old(self).eeprom is None ==> *final(self) == *old(self) && out,
            old(self).eeprom is Some ==> (final(self).modified && final(self).eeprom is Some
                && old(self).eeprom.unwrap().processed(bit, final(self).eeprom.unwrap(), out)
                && final(self).eeprom.unwrap().wf()),
    {
        if let Some(eeprom) = &mut self.eeprom {
            self.modified = true;
            return eeprom.process_bit(bit);
        }
        true
    }

    /// The contents to write to the save file: those of the medium of the
    /// save type, none without one.
    pub fn save_data(&self) -> (r: Option<&[u8]>)
        ensures
            self.save_type == SaveType::Sram ==> (r is None <==> self.sram is None) && (r is Some
                ==> r.unwrap()@ == self.sram.unwrap().data@),
            (self.save_type == SaveType::Flash64K || self.save_type == SaveType::Flash128K) ==> (r is None
                <==> self.flash is None) && (r is Some ==> r.unwrap()@ == self.flash.unwrap().data@),
            (self.save_type == SaveType::Eeprom512B || self.save_type == SaveType::Eeprom8K) ==> (r is None
                <==> self.eeprom is None) && (r is Some ==> r.unwrap()@ == self.eeprom.unwrap().data@),
            self.save_type == SaveType::NoSave ==> r is None,
    {
        match self.save_type {
            SaveType::Sram => match &self.sram {
                Some(s) => Some(s.data()),
                None => None,
            },
            SaveType::Flash64K | SaveType::Flash128K => match &self.flash {
                Some(f) => Some(f.data()),
                None => None,
            },
            SaveType::Eeprom512B | SaveType::Eeprom8K => match &self.eeprom {
                Some(e) => Some(e.data()),
                None => None,
            },
            SaveType::NoSave => None,
        }
    }

    /// Records that the save was written out.
    pub fn mark_saved(&mut self)
        ensures
            !final(self).modified,
            final(self).save_type == old(self).save_type,
            final(self).sram == old(self).sram,
            final(self).flash == old(self).flash,
            final(self).eeprom == old(self).eeprom,
            final(self).metadata == old(self).metadata,
    {
        self.modified = false;
    }

    /// Takes the contents of a save file into the medium of the save type
    /// (cut or padded with 0xFF to its size); the save is then unmodified.
    pub fn load_data(&mut self, data: Vec<u8>)
        requires
            old(self).wf(),
        ensures
            final(self).wf(),
            !final(self).modified,
            final(self).save_type == old(self).save_type,
            final(self).metadata == old(self).metadata,
            old(self).save_type == SaveType::Sram ==> final(self).sram.unwrap().data@ == fitted(
                data@,
                old(self).sram.unwrap().size as int,
            ),
            (old(self).save_type == SaveType::Flash64K || old(self).save_type == SaveType::Flash128K)
                ==> final(self).flash.unwrap().data@ == fitted(data@, old(self).flash.unwrap().size as int),
            (old(self).save_type == SaveType::Eeprom512B || old(self).save_type == SaveType::Eeprom8K)
                ==> final(self).eeprom.unwrap().data@ == fitted(data@, old(self).eeprom.unwrap().size as int),
    {
        match self.save_type {
            SaveType::Sram => {
                if let Some(sram) = &mut self.sram {
                    sram.load_data(data);
                }
            },
            SaveType::Flash64K | SaveType::Flash128K => {
                if let Some(flash) = &mut self.flash {
                    flash.load_data(data);
                }
            },
            SaveType::Eeprom512B | SaveType::Eeprom8K => {
                if let Some(eeprom) = &mut self.eeprom {
                    eeprom.load_data(data);
                }
            },
            SaveType::NoSave => {},
        }
        self.modified = false;
    }

    /// Where an automatic save goes: the save path when the save was
    /// modified, none otherwise.
    pub fn auto_save_target(&self) -> (r: Option<&String>)
        ensures
            r is Some <==> (self.modified && self.metadata.save_path is Some),
            r matches Some(p) ==> *p == self.metadata.save_path.unwrap(),
    {
        if self.modified {
            self.metadata.save_path.as_ref()
        } else {
            None
        }
    }

    /// Whether the save changed since it was last saved or loaded.
    pub fn is_modified(&self) -> (r: bool)
        ensures
            r == self.modified,
    {
        self.modified
    }

    /// The kind of save memory.
    pub fn save_type(&self) -> (r: SaveType)
        ensures
            r == self.save_type,
    {
        self.save_type
    }

    /// The save file path, once a ROM path gave one.
    pub fn save_path(&self) -> (r: Option<&String>)
        ensures
            r is Some <==> self.metadata.save_path is Some,
            r matches Some(p) ==> *p == self.metadata.save_path.unwrap(),
    {
        self.metadata.save_path.as_ref()
    }
}

impl Default for SaveController {
    fn default() -> (r: Self)
        ensures
            r.wf(),
            r.save_type == SaveType::NoSave,
            !r.modified,
    {
        Self::new()
    }
}

} // verus!
