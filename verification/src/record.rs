//! The data carried through the cache: one market snapshot per item and
//! region.
//!
//! `Region` names the game servers a record can belong to; `ItemRecord` is
//! one region's market snapshot for one item.  The payload fields are opaque
//! to the lookup logic, which only ever reads `item_id`.

use vstd::prelude::*;

verus! {

/// A game server region.  Together with an item id it identifies one stored
/// record.
#[derive(Clone, Copy, PartialEq, Eq, Structural, Debug)]
pub enum Region {
    Eu,
    Na,
    Sea,
    Kr,
    Ru,
    Jp,
    ConsoleEu,
    ConsoleNa,
}

impl Region {
    /// The stable integer a region is persisted as.
    pub open spec fn index(self) -> u64 {
        match self {
            Region::Eu => 0,
            Region::Na => 1,
            Region::Sea => 2,
            Region::Kr => 3,
            Region::Ru => 4,
            Region::Jp => 5,
            Region::ConsoleEu => 6,
            Region::ConsoleNa => 7,
        }
    }

    /// Encodes the region as its stable integer.
    pub fn to_index(self) -> (i: u64)
        ensures
            i == self.index(),
    {
        match self {
            Region::Eu => 0,
            Region::Na => 1,
            Region::Sea => 2,
            Region::Kr => 3,
            Region::Ru => 4,
            Region::Jp => 5,
            Region::ConsoleEu => 6,
            Region::ConsoleNa => 7,
        }
    }

    /// Decodes a persisted integer back into a region; integers outside the
    /// encoding are rejected.
    pub fn from_index(i: u64) -> (region: Option<Region>)
        ensures
            match region {
                Some(r) => r.index() == i,
                None => i > 7,
            },
    {
        match i {
            0 => Some(Region::Eu),
            1 => Some(Region::Na),
            2 => Some(Region::Sea),
            3 => Some(Region::Kr),
            4 => Some(Region::Ru),
            5 => Some(Region::Jp),
            6 => Some(Region::ConsoleEu),
            7 => Some(Region::ConsoleNa),
            _ => None,
        }
    }
}

/// Every region decodes back to itself from its own encoding.
pub proof fn lemma_region_index_round_trip(region: Region)
    ensures
        forall|other: Region| region.index() == other.index() ==> region == other,
{
}

/// One region's market snapshot for one item.  `item_id` identifies the
/// item; the remaining fields are the market payload, which the cache
/// treats as an atomic value.
#[derive(PartialEq, Eq, Debug)]
pub struct ItemRecord {
    pub item_id: u64,
    pub base_price: u64,
    pub total_trade_count: u64,
    pub key_type: u64,
    pub sub_key: u64,
    pub count: u64,
    pub name: String,
    pub grade: u64,
    pub main_category: u64,
    pub sub_category: u64,
    pub enhancement_level: u64,
    pub godr_ayed: bool,
}

/// The mathematical value of an `ItemRecord`: the same fields with the name
/// as a sequence of characters.
pub struct ItemRecordV {
    pub item_id: u64,
    pub base_price: u64,
    pub total_trade_count: u64,
    pub key_type: u64,
    pub sub_key: u64,
    pub count: u64,
    pub name: Seq<char>,
    pub grade: u64,
    pub main_category: u64,
    pub sub_category: u64,
    pub enhancement_level: u64,
    pub godr_ayed: bool,
}

impl View for ItemRecord {
    type V = ItemRecordV;

    open spec fn view(&self) -> ItemRecordV {
        ItemRecordV {
            item_id: self.item_id,
            base_price: self.base_price,
            total_trade_count: self.total_trade_count,
            key_type: self.key_type,
            sub_key: self.sub_key,
            count: self.count,
            name: self.name@,
            grade: self.grade,
            main_category: self.main_category,
            sub_category: self.sub_category,
            enhancement_level: self.enhancement_level,
            godr_ayed: self.godr_ayed,
        }
    }
}

impl Clone for ItemRecord {
    /// A clone carries the same mathematical value as the original.
    fn clone(&self) -> (cloned: Self)
        ensures
            cloned@ == self@,
    {
        ItemRecord {
            item_id: self.item_id,
            base_price: self.base_price,
            total_trade_count: self.total_trade_count,
            key_type: self.key_type,
            sub_key: self.sub_key,
            count: self.count,
            name: self.name.clone(),
            grade: self.grade,
            main_category: self.main_category,
            sub_category: self.sub_category,
            enhancement_level: self.enhancement_level,
            godr_ayed: self.godr_ayed,
        }
    }
}

} // verus!
