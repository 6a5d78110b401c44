//! The schema of the definitions: which documents describe a sprite
//! reference, an animation and a grid.

use crate::atlas::{grid_fits, AtlasConfig};
use crate::json::Json;
use crate::registry::ContentKind;
use crate::render::animation::{frame_period, fresh_timer, AnimationConfig};
use vstd::prelude::*;

verus! {

/// The sprite of a definition, before the image it refers to is at hand.
#[derive(Debug)]
pub struct SpriteRef {
    /// The file that holds the sprite; the catalog's own image where absent.
    pub file: Option<String>,
    pub idx_config: IndexConfig,
}

/// Which cells of the sprite sheet a sprite shows: one, or a range in turn.
#[derive(Clone, Copy, Debug, PartialEq, Eq, Structural)]
pub enum IndexConfig {
    Single(usize),
    Range(AnimationConfig),
}

impl Clone for SpriteRef {
    fn clone(&self) -> (copy: SpriteRef)
        ensures
            copy == *self,
    {
        SpriteRef {
            file: match &self.file {
                Some(path) => Some(path.clone()),
                None => None,
            },
            idx_config: self.idx_config,
        }
    }
}

/// The whole number of a member, where the member is there and holds one
/// that is zero or more.
pub open spec fn unsigned_member(doc: Json, key: Seq<char>) -> Option<u64> {
    match doc.spec_member(key) {
        Some(value) => value.spec_unsigned(),
        None => None,
    }
}

fn read_unsigned(doc: &Json, key: &str) -> (n: Option<u64>)
    ensures
        n == unsigned_member(*doc, key@),
{
    match doc.member(key) {
        Some(value) => value.unsigned(),
        None => None,
    }
}

impl ContentKind for AnimationConfig {
    /// An animation is an object with the members `start`, `stop` and `fps`
    /// and no others: two cell indices and a frame rate from 1 to 255.
    open spec fn described(doc: Json) -> Option<AnimationConfig> {
        if !doc.spec_has_only(seq!["start", "stop", "fps"]) {
            None
        } else {
            match (
                unsigned_member(doc, "start"@),
                unsigned_member(doc, "stop"@),
                unsigned_member(doc, "fps"@),
            ) {
                (Some(start), Some(stop), Some(fps)) => if start <= usize::MAX && stop
                    <= usize::MAX && 0 < fps <= u8::MAX {
                    Some(
                        AnimationConfig {
                            start: start as usize,
                            stop: stop as usize,
                            fps: fps as u8,
                            timer: fresh_timer(frame_period(fps as u8)),
                        },
                    )
                } else {
                    None
                },
                _ => None,
            }
        }
    }

    fn from_json(doc: &Json) -> (item: Option<AnimationConfig>) {
        let names = ["start", "stop", "fps"];
        assert(names@ =~= seq!["start", "stop", "fps"]);
        if !doc.has_only(names.as_slice()) {
            return None;
        }
        match (read_unsigned(doc, "start"), read_unsigned(doc, "stop"), read_unsigned(doc, "fps")) {
            (Some(start), Some(stop), Some(fps)) => {
                if start <= usize::MAX as u64 && stop <= usize::MAX as u64 && 0 < fps && fps
                    <= u8::MAX as u64 {
                    Some(AnimationConfig::new(start as usize, stop as usize, fps as u8))
                } else {
                    None
                }
            },
            _ => None,
        }
    }
}

impl ContentKind for IndexConfig {
    /// A whole number names a single cell; an object describes an animation
    /// over a range of cells.
    open spec fn described(doc: Json) -> Option<IndexConfig> {
        match doc {
            Json::Unsigned(index) => if index <= usize::MAX {
                Some(IndexConfig::Single(index as usize))
            } else {
                None
            },
            Json::Object(_) => match AnimationConfig::described(doc) {
                Some(animation) => Some(IndexConfig::Range(animation)),
                None => None,
            },
            _ => None,
        }
    }

    fn from_json(doc: &Json) -> (item: Option<IndexConfig>) {
        match doc {
            Json::Unsigned(index) => {
                if *index <= usize::MAX as u64 {
                    Some(IndexConfig::Single(*index as usize))
                } else {
                    None
                }
            },
            Json::Object(_) => match AnimationConfig::from_json(doc) {
                Some(animation) => Some(IndexConfig::Range(animation)),
                None => None,
            },
            _ => None,
        }
    }
}

/// The file that a `file` member names: none where the member is missing or
/// null, the text where it is one. The outer `None` stands for a member of
/// any other type.
pub open spec fn file_of(member: Option<Json>) -> Option<Option<String>> {
    match member {
        None => Some(None),
        Some(Json::Null) => Some(None),
        Some(Json::Text(path)) => Some(Some(path)),
        Some(_) => None,
    }
}

impl ContentKind for SpriteRef {
    /// A sprite reference is an object with the member `idx_config`,
    /// optionally the member `file`, and no others.
    open spec fn described(doc: Json) -> Option<SpriteRef> {
        if !doc.spec_has_only(seq!["file", "idx_config"]) {
            None
        } else {
            match (file_of(doc.spec_member("file"@)), doc.spec_member("idx_config"@)) {
                (Some(file), Some(index)) => match IndexConfig::described(index) {
                    Some(idx_config) => Some(SpriteRef { file, idx_config }),
                    None => None,
                },
                _ => None,
            }
        }
    }

    fn from_json(doc: &Json) -> (item: Option<SpriteRef>) {
        let names = ["file", "idx_config"];
        assert(names@ =~= seq!["file", "idx_config"]);
        if !doc.has_only(names.as_slice()) {
            return None;
        }
        let file = match doc.member("file") {
            None => None,
            Some(Json::Null) => None,
            Some(Json::Text(path)) => Some(path.clone()),
            Some(_) => {
                return None;
            },
        };
        match doc.member("idx_config") {
            Some(index) => match IndexConfig::from_json(index) {
                Some(idx_config) => Some(SpriteRef { file, idx_config }),
                None => None,
            },
            None => None,
        }
    }
}

/// The two whole numbers of a pair, where the document is an array of
/// exactly two whole numbers that are zero or more.
pub open spec fn pair_of(doc: Json) -> Option<(u64, u64)> {
    match doc {
        Json::Array(parts) => if parts@.len() == 2 {
            match (parts@[0].spec_unsigned(), parts@[1].spec_unsigned()) {
                (Some(first), Some(second)) => Some((first, second)),
                _ => None,
            }
        } else {
            None
        },
        _ => None,
    }
}

fn read_pair(doc: &Json) -> (pair: Option<(u64, u64)>)
    ensures
        pair == pair_of(*doc),
{
    match doc {
        Json::Array(parts) => {
            if parts.len() == 2 {
                match (parts[0].unsigned(), parts[1].unsigned()) {
                    (Some(first), Some(second)) => Some((first, second)),
                    _ => None,
                }
            } else {
                None
            }
        },
        _ => None,
    }
}

impl ContentKind for AtlasConfig {
    /// A grid is an object with the members `tile_size`, a pair of numbers,
    /// `columns` and `rows`, all of them in `u32` and such that the grid fits
    /// the machine's integers. Other members are passed over.
    open spec fn described(doc: Json) -> Option<AtlasConfig> {
        match (
            doc.spec_member("tile_size"@),
            unsigned_member(doc, "columns"@),
            unsigned_member(doc, "rows"@),
        ) {
            (Some(size), Some(columns), Some(rows)) => match pair_of(size) {
                Some((width, height)) => if width <= u32::MAX && height <= u32::MAX && columns
                    <= u32::MAX && rows <= u32::MAX && grid_fits(
                    (width as u32, height as u32),
                    columns as u32,
                    rows as u32,
                ) {
                    Some(AtlasConfig::of((width as u32, height as u32), columns as u32, rows as u32))
                } else {
                    None
                },
                None => None,
            },
            _ => None,
        }
    }

    fn from_json(doc: &Json) -> (item: Option<AtlasConfig>) {
        match (doc.member("tile_size"), read_unsigned(doc, "columns"), read_unsigned(doc, "rows")) {
            (Some(size), Some(columns), Some(rows)) => match read_pair(size) {
                Some((width, height)) => {
                    if width <= u32::MAX as u64 && height <= u32::MAX as u64 && columns
                        <= u32::MAX as u64 && rows <= u32::MAX as u64 {
                        AtlasConfig::new((width as u32, height as u32), columns as u32, rows as u32)
                    } else {
                        None
                    }
                },
                None => None,
            },
            _ => None,
        }
    }
}

} // verus!
