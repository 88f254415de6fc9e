//! Static game data: the client versions this engine supports and the block
//! runtime ids it knows by name.

use vstd::prelude::*;
use crate::text::{chars_equal, str_chars};

verus! {

#[derive(Debug, Clone, Copy, PartialEq, Eq)]
pub struct VersionMetadata {
    pub version_string: &'static str,
    pub protocol_version: u32,
}

/// The supported client versions, oldest first.
pub fn get_supported_versions() -> (r: Vec<VersionMetadata>)
    ensures
        r@ == seq![
            VersionMetadata { version_string: "1.21.100", protocol_version: 766 },
            VersionMetadata { version_string: "1.21.130", protocol_version: 776 },
        ],
{
    let mut versions: Vec<VersionMetadata> = Vec::new();
    versions.push(VersionMetadata { version_string: "1.21.100", protocol_version: 766 });
    versions.push(VersionMetadata { version_string: "1.21.130", protocol_version: 776 });
    assert(versions@ =~= seq![
        VersionMetadata { version_string: "1.21.100", protocol_version: 766 },
        VersionMetadata { version_string: "1.21.130", protocol_version: 776 },
    ]);
    versions
}

/// The runtime id of a block known by its full name.
pub open spec fn block_runtime_id(name: Seq<char>) -> Option<u32> {
    if name == "minecraft:air"@ {
        Some(0)
    } else if name == "minecraft:stone"@ {
        Some(1)
    } else if name == "minecraft:grass_block"@ {
        Some(2)
    } else if name == "minecraft:dirt"@ {
        Some(3)
    } else if name == "minecraft:cobblestone"@ {
        Some(4)
    } else {
        None
    }
}

pub struct BlockRegistry;

fn same_text(chars: &Vec<char>, literal: &str) -> (r: bool)
    ensures
        r == (chars@ == literal@),
{
    let other: Vec<char> = str_chars(literal);
    chars_equal(chars, &other)
}

impl BlockRegistry {
    pub fn get_block_runtime_id(name: &str) -> (r: Option<u32>)
        ensures
            r == block_runtime_id(name@),
    {
        let chars: Vec<char> = str_chars(name);
        if same_text(&chars, "minecraft:air") {
            Some(0)
        } else if same_text(&chars, "minecraft:stone") {
            Some(1)
        } else if same_text(&chars, "minecraft:grass_block") {
            Some(2)
        } else if same_text(&chars, "minecraft:dirt") {
            Some(3)
        } else if same_text(&chars, "minecraft:cobblestone") {
            Some(4)
        } else {
            None
        }
    }
}

} // verus!
