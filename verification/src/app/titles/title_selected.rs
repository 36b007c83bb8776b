//! The kinds of save data a title can have, and which of them a selected
//! title has.

use vstd::prelude::*;
use crate::fsu::ArchiveID;
use crate::resource::{MediaType, TitleInfo};

verus! {

/// The kinds of save data.
#[derive(Clone, Copy, PartialEq, Eq, Structural, Debug)]
pub enum SaveTypes {
    /// The title's own save data.
    User,
    /// Extra data.
    Ext,
    /// System save data.
    Sys,
    /// Extra data of the background download service.
    Boss,
}

/// A title picked in the list, with the kinds of save data it has.
pub struct TitleSelected {
    /// The title.
    pub title: TitleInfo,
    /// The kind of save data shown: the first the title has.
    pub save_type: Option<SaveTypes>,
    /// The kinds of save data the title has, in the fixed order user,
    /// extra, system, download service.
    pub saves: Vec<SaveTypes>,
}

/// The bit of a kind of save data in a title's save mask.
pub open spec fn save_bit(kind: SaveTypes) -> u8 {
    match kind {
        SaveTypes::User => 1,
        SaveTypes::Ext => 2,
        SaveTypes::Sys => 4,
        SaveTypes::Boss => 8,
    }
}

/// The save mask of a title, given which kinds of save data it has.
pub open spec fn save_mask_of(user: bool, ext: bool, sys: bool, boss: bool) -> u8 {
    ((if user {
        1int
    } else {
        0
    }) + (if ext {
        2int
    } else {
        0
    }) + (if sys {
        4int
    } else {
        0
    }) + (if boss {
        8int
    } else {
        0
    })) as u8
}

/// The kinds of save data a mask names, in the fixed order.
pub open spec fn saves_of(mask: u8) -> Seq<SaveTypes> {
    (if mask & 1 != 0 {
        seq![SaveTypes::User]
    } else {
        Seq::empty()
    }) + (if mask & 2 != 0 {
        seq![SaveTypes::Ext]
    } else {
        Seq::empty()
    }) + (if mask & 4 != 0 {
        seq![SaveTypes::Sys]
    } else {
        Seq::empty()
    }) + (if mask & 8 != 0 {
        seq![SaveTypes::Boss]
    } else {
        Seq::empty()
    })
}

/// The name of a kind of save data in backup paths.
pub open spec fn name_of(kind: SaveTypes) -> Seq<char> {
    match kind {
        SaveTypes::User => "user"@,
        SaveTypes::Ext => "ext"@,
        SaveTypes::Sys => "sys"@,
        SaveTypes::Boss => "boss"@,
    }
}

/// Whether a title on a medium can have a kind of save data at all, so
/// that looking for it is worth the while: user save data lives on the SD
/// card or a game card, system and download service data in internal
/// memory, extra data anywhere.
pub open spec fn can_have_save(kind: SaveTypes, media: MediaType) -> bool {
    match kind {
        SaveTypes::User => media == MediaType::GameCard || media == MediaType::Sd,
        SaveTypes::Ext => true,
        SaveTypes::Sys => media == MediaType::Nand,
        SaveTypes::Boss => media == MediaType::Nand,
    }
}

/// Whether a title read from the device is listed: it must be an
/// application, and one in internal memory must have save data.
pub open spec fn is_listed(id: u64, media: MediaType, has_save: bool) -> bool {
    crate::resource::is_application_spec(id) && (media == MediaType::Nand ==> has_save)
}

impl SaveTypes {
    /// The archive that holds this kind of save data.
    pub fn arch_id(&self) -> (id: ArchiveID)
        ensures
            id == match *self {
                SaveTypes::User => ArchiveID::UserSavedata,
                SaveTypes::Ext => ArchiveID::Extdata,
                SaveTypes::Sys => ArchiveID::SystemSavedata,
                SaveTypes::Boss => ArchiveID::BossExtdata,
            },
    {
        match self {
            SaveTypes::User => ArchiveID::UserSavedata,
            SaveTypes::Ext => ArchiveID::Extdata,
            SaveTypes::Sys => ArchiveID::SystemSavedata,
            SaveTypes::Boss => ArchiveID::BossExtdata,
        }
    }

    /// The name of this kind in backup paths.
    pub fn name(&self) -> (name: &'static str)
        ensures
            name@ == name_of(*self),
    {
        match self {
            SaveTypes::User => "user",
            SaveTypes::Ext => "ext",
            SaveTypes::Sys => "sys",
            SaveTypes::Boss => "boss",
        }
    }

    /// Whether a title on a medium can have this kind of save data.
    pub fn can_exist_on(&self, media: MediaType) -> (possible: bool)
        ensures
            possible == can_have_save(*self, media),
    {
        match self {
            SaveTypes::User => match media {
                MediaType::GameCard => true,
                MediaType::Sd => true,
                MediaType::Nand => false,
            },
            SaveTypes::Ext => true,
            SaveTypes::Sys => match media {
                MediaType::Nand => true,
                _ => false,
            },
            SaveTypes::Boss => match media {
                MediaType::Nand => true,
                _ => false,
            },
        }
    }

    /// Builds a title's save mask from which kinds of save data it has.
    pub fn mask_of(user: bool, ext: bool, sys: bool, boss: bool) -> (mask: u8)
        ensures
            mask == save_mask_of(user, ext, sys, boss),
            mask & 1 != 0 <==> user,
            mask & 2 != 0 <==> ext,
            mask & 4 != 0 <==> sys,
            mask & 8 != 0 <==> boss,
    {
        let u: u8 = if user {
            1
        } else {
            0
        };
        let e: u8 = if ext {
            2
        } else {
            0
        };
        let s: u8 = if sys {
            4
        } else {
            0
        };
        let b: u8 = if boss {
            8
        } else {
            0
        };
        let mask: u8 = u | e | s | b;
        assert(mask == u + e + s + b && (mask & 1 != 0 <==> u == 1) && (mask & 2 != 0 <==> e == 2)
            && (mask & 4 != 0 <==> s == 4) && (mask & 8 != 0 <==> b == 8)) by (bit_vector)
            requires
                mask == u | e | s | b,
                u == 0 || u == 1,
                e == 0 || e == 2,
                s == 0 || s == 4,
                b == 0 || b == 8,
        ;
        mask
    }
}

impl TitleSelected {
    /// Selects a title, given its save mask: the kinds of save data named
    /// by the mask, and the first of them to show.
    pub fn new(title: TitleInfo, save_mask: u8) -> (selected: TitleSelected)
        ensures
            selected.title == title,
            selected.saves@ == saves_of(save_mask),
            selected.save_type == if saves_of(save_mask).len() > 0 {
                Some(saves_of(save_mask)[0])
            } else {
                None
            },
    {
        let mut saves: Vec<SaveTypes> = Vec::new();
        if save_mask & 1 != 0 {
            saves.push(SaveTypes::User);
        }
        if save_mask & 2 != 0 {
            saves.push(SaveTypes::Ext);
        }
        if save_mask & 4 != 0 {
            saves.push(SaveTypes::Sys);
        }
        if save_mask & 8 != 0 {
            saves.push(SaveTypes::Boss);
        }
        assert(saves@ =~= saves_of(save_mask));
        let save_type = if saves.len() > 0 {
            Some(saves[0])
        } else {
            None
        };
        TitleSelected { title, save_type, saves }
    }
}

/// Decides whether a title read from the device is listed.
pub fn keep_title(id: u64, media: MediaType, has_save: bool) -> (listed: bool)
    ensures
        listed == is_listed(id, media, has_save),
{
    if !TitleInfo::is_application(id) {
        return false;
    }
    match media {
        MediaType::Nand => has_save,
        _ => true,
    }
}

} // verus!
