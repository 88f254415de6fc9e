//! Names of Bedrock packets, play statuses and item stack results.

use vstd::prelude::*;

verus! {

/// Name of a packet id in the registry of packets this client knows.
pub open spec fn registry_name(packet_id: u32) -> Option<&'static str> {
    match packet_id {
        0x01 => Some("login"),
        0x02 => Some("play_status"),
        0x03 => Some("server_to_client_handshake"),
        0x04 => Some("client_to_server_handshake"),
        0x05 => Some("disconnect"),
        0x06 => Some("resource_packs_info"),
        0x07 => Some("resource_pack_stack"),
        0x08 => Some("resource_pack_client_response"),
        0x09 => Some("text"),
        0x0a => Some("set_time"),
        0x0b => Some("start_game"),
        0x0c => Some("add_player"),
        0x0d => Some("add_entity"),
        0x0e => Some("remove_entity"),
        0x0f => Some("add_item_entity"),
        0x11 => Some("take_item_entity"),
        0x12 => Some("move_entity"),
        0x13 => Some("move_player"),
        0x15 => Some("update_block"),
        0x17 => Some("tick_sync"),
        0x1d => Some("update_attributes"),
        0x1e => Some("inventory_transaction"),
        0x1f => Some("mob_equipment"),
        0x20 => Some("mob_armor_equipment"),
        0x27 => Some("set_entity_data"),
        0x28 => Some("set_entity_motion"),
        0x2c => Some("animate"),
        0x2b => Some("set_spawn_position"),
        0x2d => Some("respawn"),
        0x30 => Some("player_hotbar"),
        0x31 => Some("inventory_content"),
        0x32 => Some("inventory_slot"),
        0x34 => Some("crafting_data"),
        0x38 => Some("block_entity_data"),
        0x3a => Some("level_chunk"),
        0x3b => Some("set_commands_enabled"),
        0x3c => Some("set_difficulty"),
        0x3f => Some("player_list"),
        0x45 => Some("request_chunk_radius"),
        0x46 => Some("chunk_radius_update"),
        0x48 => Some("game_rules_changed"),
        0x4c => Some("available_commands"),
        0x4d => Some("command_request"),
        0x4f => Some("command_output"),
        0x55 => Some("transfer"),
        0x56 => Some("play_sound"),
        0x57 => Some("stop_sound"),
        0x58 => Some("set_title"),
        0x64 => Some("modal_form_request"),
        0x65 => Some("modal_form_response"),
        0x6a => Some("remove_objective"),
        0x6b => Some("set_display_objective"),
        0x6c => Some("set_score"),
        0x6f => Some("move_entity_delta"),
        0x70 => Some("set_scoreboard_identity"),
        0x71 => Some("set_local_player_as_initialized"),
        0x72 => Some("update_soft_enum"),
        0x73 => Some("network_stack_latency"),
        0x75 => Some("script_custom_event"),
        0x76 => Some("spawn_particle_effect"),
        0x77 => Some("available_entity_identifiers"),
        0x78 => Some("level_sound_event_v2"),
        0x79 => Some("network_chunk_publisher_update"),
        0x7a => Some("biome_definition_list"),
        0x7b => Some("level_sound_event"),
        0x81 => Some("client_cache_status"),
        0x8f => Some("network_settings"),
        0x90 => Some("player_auth_input"),
        0x91 => Some("creative_content"),
        0x92 => Some("player_enchant_options"),
        0x93 => Some("item_stack_request"),
        0x94 => Some("item_stack_response"),
        0xa1 => Some("correct_player_move_prediction"),
        0xa2 => Some("item_registry"),
        0xa5 => Some("sync_entity_property"),
        0xa0 => Some("player_fog"),
        0xbb => Some("update_abilities"),
        0xbc => Some("update_adventure_settings"),
        0xba => Some("toast_request"),
        0xc7 => Some("unlocked_recipes"),
        0xc6 => Some("camera_presets"),
        0x12e => Some("trim_data"),
        0x134 => Some("set_hud"),
        0x146 => Some("player_location"),
        _ => None,
    }
}

/// Name of a packet id in the registry of packets this client knows.
pub fn bedrock_packet_registry_name(packet_id: u32) -> (r: Option<&'static str>)
    ensures
        r == registry_name(packet_id),
{
    match packet_id {
        0x01 => Some("login"),
        0x02 => Some("play_status"),
        0x03 => Some("server_to_client_handshake"),
        0x04 => Some("client_to_server_handshake"),
        0x05 => Some("disconnect"),
        0x06 => Some("resource_packs_info"),
        0x07 => Some("resource_pack_stack"),
        0x08 => Some("resource_pack_client_response"),
        0x09 => Some("text"),
        0x0a => Some("set_time"),
        0x0b => Some("start_game"),
        0x0c => Some("add_player"),
        0x0d => Some("add_entity"),
        0x0e => Some("remove_entity"),
        0x0f => Some("add_item_entity"),
        0x11 => Some("take_item_entity"),
        0x12 => Some("move_entity"),
        0x13 => Some("move_player"),
        0x15 => Some("update_block"),
        0x17 => Some("tick_sync"),
        0x1d => Some("update_attributes"),
        0x1e => Some("inventory_transaction"),
        0x1f => Some("mob_equipment"),
        0x20 => Some("mob_armor_equipment"),
        0x27 => Some("set_entity_data"),
        0x28 => Some("set_entity_motion"),
        0x2c => Some("animate"),
        0x2b => Some("set_spawn_position"),
        0x2d => Some("respawn"),
        0x30 => Some("player_hotbar"),
        0x31 => Some("inventory_content"),
        0x32 => Some("inventory_slot"),
        0x34 => Some("crafting_data"),
        0x38 => Some("block_entity_data"),
        0x3a => Some("level_chunk"),
        0x3b => Some("set_commands_enabled"),
        0x3c => Some("set_difficulty"),
        0x3f => Some("player_list"),
        0x45 => Some("request_chunk_radius"),
        0x46 => Some("chunk_radius_update"),
        0x48 => Some("game_rules_changed"),
        0x4c => Some("available_commands"),
        0x4d => Some("command_request"),
        0x4f => Some("command_output"),
        0x55 => Some("transfer"),
        0x56 => Some("play_sound"),
        0x57 => Some("stop_sound"),
        0x58 => Some("set_title"),
        0x64 => Some("modal_form_request"),
        0x65 => Some("modal_form_response"),
        0x6a => Some("remove_objective"),
        0x6b => Some("set_display_objective"),
        0x6c => Some("set_score"),
        0x6f => Some("move_entity_delta"),
        0x70 => Some("set_scoreboard_identity"),
        0x71 => Some("set_local_player_as_initialized"),
        0x72 => Some("update_soft_enum"),
        0x73 => Some("network_stack_latency"),
        0x75 => Some("script_custom_event"),
        0x76 => Some("spawn_particle_effect"),
        0x77 => Some("available_entity_identifiers"),
        0x78 => Some("level_sound_event_v2"),
        0x79 => Some("network_chunk_publisher_update"),
        0x7a => Some("biome_definition_list"),
        0x7b => Some("level_sound_event"),
        0x81 => Some("client_cache_status"),
        0x8f => Some("network_settings"),
        0x90 => Some("player_auth_input"),
        0x91 => Some("creative_content"),
        0x92 => Some("player_enchant_options"),
        0x93 => Some("item_stack_request"),
        0x94 => Some("item_stack_response"),
        0xa1 => Some("correct_player_move_prediction"),
        0xa2 => Some("item_registry"),
        0xa5 => Some("sync_entity_property"),
        0xa0 => Some("player_fog"),
        0xbb => Some("update_abilities"),
        0xbc => Some("update_adventure_settings"),
        0xba => Some("toast_request"),
        0xc7 => Some("unlocked_recipes"),
        0xc6 => Some("camera_presets"),
        0x12e => Some("trim_data"),
        0x134 => Some("set_hud"),
        0x146 => Some("player_location"),
        _ => None,
    }
}

/// Name of a packet id whose boundaries this client can trace.
pub open spec fn implemented_name(packet_id: u32) -> Option<&'static str> {
    match packet_id {
        0x3a => Some("level_chunk"),
        0x28 => Some("set_entity_motion"),
        0x2b => Some("set_spawn_position"),
        0x2d => Some("respawn"),
        0x3b => Some("set_commands_enabled"),
        0x3c => Some("set_difficulty"),
        0x46 => Some("chunk_radius_update"),
        0x45 => Some("request_chunk_radius"),
        0x48 => Some("game_rules_changed"),
        0x58 => Some("set_title"),
        0x6a => Some("remove_objective"),
        0x6b => Some("set_display_objective"),
        0x6c => Some("set_score"),
        0x72 => Some("update_soft_enum"),
        0xa5 => Some("sync_entity_property"),
        0xbb => Some("update_abilities"),
        0xbc => Some("update_adventure_settings"),
        0xc7 => Some("unlocked_recipes"),
        0x134 => Some("set_hud"),
        0x146 => Some("player_location"),
        _ => None,
    }
}

/// Name of a packet id whose boundaries this client can trace.
pub fn implemented_packet_name(packet_id: u32) -> (r: Option<&'static str>)
    ensures
        r == implemented_name(packet_id),
{
    match packet_id {
        0x3a => Some("level_chunk"),
        0x28 => Some("set_entity_motion"),
        0x2b => Some("set_spawn_position"),
        0x2d => Some("respawn"),
        0x3b => Some("set_commands_enabled"),
        0x3c => Some("set_difficulty"),
        0x46 => Some("chunk_radius_update"),
        0x45 => Some("request_chunk_radius"),
        0x48 => Some("game_rules_changed"),
        0x58 => Some("set_title"),
        0x6a => Some("remove_objective"),
        0x6b => Some("set_display_objective"),
        0x6c => Some("set_score"),
        0x72 => Some("update_soft_enum"),
        0xa5 => Some("sync_entity_property"),
        0xbb => Some("update_abilities"),
        0xbc => Some("update_adventure_settings"),
        0xc7 => Some("unlocked_recipes"),
        0x134 => Some("set_hud"),
        0x146 => Some("player_location"),
        _ => None,
    }
}

/// Name of an item stack response result code.
pub open spec fn item_stack_result_name(value: u8) -> &'static str {
    match value {
        0 => "Success",
        1 => "Error",
        2 => "InvalidRequestActionType",
        3 => "ActionRequestNotAllowed",
        4 => "ScreenHandlerEndRequestFailed",
        5 => "ItemRequestActionHandlerCommitFailed",
        6 => "InvalidRequestCraftActionType",
        7 => "InvalidCraftRequest",
        8 => "InvalidCraftRequestScreen",
        9 => "InvalidCraftResult",
        10 => "InvalidCraftResultIndex",
        11 => "InvalidCraftResultItem",
        12 => "InvalidItemNetId",
        13 => "MissingCreatedOutputContainer",
        14 => "FailedToSetCreatedItemOutputSlot",
        15 => "RequestAlreadyInProgress",
        16 => "FailedToInitSparseContainer",
        17 => "ResultTransferFailed",
        18 => "ExpectedItemSlotNotFullyConsumed",
        19 => "ExpectedAnywhereItemNotFullyConsumed",
        20 => "ItemAlreadyConsumedFromSlot",
        21 => "ConsumedTooMuchFromSlot",
        22 => "MismatchSlotExpectedConsumedItem",
        23 => "MismatchSlotExpectedConsumedItemNetIdVariant",
        24 => "FailedToMatchExpectedSlotConsumedItem",
        25 => "FailedToMatchExpectedAllowedAnywhereConsumedItem",
        26 => "ConsumedItemOutOfAllowedSlotRange",
        27 => "ConsumedItemNotAllowed",
        28 => "PlayerNotInCreativeMode",
        29 => "InvalidExperimentalRecipeRequest",
        30 => "FailedToCraftCreative",
        31 => "FailedToGetLevelRecipe",
        32 => "FailedToFindRecipeByNetId",
        33 => "MismatchedCraftingSize",
        34 => "MissingInputSparseContainer",
        35 => "MismatchedRecipeForInputGridItems",
        36 => "EmptyCraftResults",
        37 => "FailedToEnchant",
        38 => "MissingInputItem",
        39 => "InsufficientPlayerLevelToEnchant",
        40 => "MissingMaterialItem",
        41 => "MissingActor",
        42 => "UnknownPrimaryEffect",
        43 => "PrimaryEffectOutOfRange",
        44 => "PrimaryEffectUnavailable",
        45 => "SecondaryEffectOutOfRange",
        46 => "SecondaryEffectUnavailable",
        47 => "DstContainerEqualToCreatedOutputContainer",
        48 => "DstContainerAndSlotEqualToSrcContainerAndSlot",
        49 => "FailedToValidateSrcSlot",
        50 => "FailedToValidateDstSlot",
        51 => "InvalidAdjustedAmount",
        52 => "InvalidItemSetType",
        53 => "InvalidTransferAmount",
        54 => "CannotSwapItem",
        55 => "CannotPlaceItem",
        56 => "UnhandledItemSetType",
        57 => "InvalidRemovedAmount",
        58 => "InvalidRegion",
        59 => "CannotDropItem",
        60 => "CannotDestroyItem",
        61 => "InvalidSourceContainer",
        62 => "ItemNotConsumed",
        63 => "InvalidNumCrafts",
        64 => "InvalidCraftResultStackSize",
        65 => "CannotRemoveItem",
        66 => "CannotConsumeItem",
        67 => "ScreenStackError",
        _ => "Unknown",
    }
}

/// Name of an item stack response result code.
pub fn item_stack_response_result_name(value: u8) -> (r: &'static str)
    ensures
        r == item_stack_result_name(value),
{
    match value {
        0 => "Success",
        1 => "Error",
        2 => "InvalidRequestActionType",
        3 => "ActionRequestNotAllowed",
        4 => "ScreenHandlerEndRequestFailed",
        5 => "ItemRequestActionHandlerCommitFailed",
        6 => "InvalidRequestCraftActionType",
        7 => "InvalidCraftRequest",
        8 => "InvalidCraftRequestScreen",
        9 => "InvalidCraftResult",
        10 => "InvalidCraftResultIndex",
        11 => "InvalidCraftResultItem",
        12 => "InvalidItemNetId",
        13 => "MissingCreatedOutputContainer",
        14 => "FailedToSetCreatedItemOutputSlot",
        15 => "RequestAlreadyInProgress",
        16 => "FailedToInitSparseContainer",
        17 => "ResultTransferFailed",
        18 => "ExpectedItemSlotNotFullyConsumed",
        19 => "ExpectedAnywhereItemNotFullyConsumed",
        20 => "ItemAlreadyConsumedFromSlot",
        21 => "ConsumedTooMuchFromSlot",
        22 => "MismatchSlotExpectedConsumedItem",
        23 => "MismatchSlotExpectedConsumedItemNetIdVariant",
        24 => "FailedToMatchExpectedSlotConsumedItem",
        25 => "FailedToMatchExpectedAllowedAnywhereConsumedItem",
        26 => "ConsumedItemOutOfAllowedSlotRange",
        27 => "ConsumedItemNotAllowed",
        28 => "PlayerNotInCreativeMode",
        29 => "InvalidExperimentalRecipeRequest",
        30 => "FailedToCraftCreative",
        31 => "FailedToGetLevelRecipe",
        32 => "FailedToFindRecipeByNetId",
        33 => "MismatchedCraftingSize",
        34 => "MissingInputSparseContainer",
        35 => "MismatchedRecipeForInputGridItems",
        36 => "EmptyCraftResults",
        37 => "FailedToEnchant",
        38 => "MissingInputItem",
        39 => "InsufficientPlayerLevelToEnchant",
        40 => "MissingMaterialItem",
        41 => "MissingActor",
        42 => "UnknownPrimaryEffect",
        43 => "PrimaryEffectOutOfRange",
        44 => "PrimaryEffectUnavailable",
        45 => "SecondaryEffectOutOfRange",
        46 => "SecondaryEffectUnavailable",
        47 => "DstContainerEqualToCreatedOutputContainer",
        48 => "DstContainerAndSlotEqualToSrcContainerAndSlot",
        49 => "FailedToValidateSrcSlot",
        50 => "FailedToValidateDstSlot",
        51 => "InvalidAdjustedAmount",
        52 => "InvalidItemSetType",
        53 => "InvalidTransferAmount",
        54 => "CannotSwapItem",
        55 => "CannotPlaceItem",
        56 => "UnhandledItemSetType",
        57 => "InvalidRemovedAmount",
        58 => "InvalidRegion",
        59 => "CannotDropItem",
        60 => "CannotDestroyItem",
        61 => "InvalidSourceContainer",
        62 => "ItemNotConsumed",
        63 => "InvalidNumCrafts",
        64 => "InvalidCraftResultStackSize",
        65 => "CannotRemoveItem",
        66 => "CannotConsumeItem",
        67 => "ScreenStackError",
        _ => "Unknown",
    }
}

/// Name of a play status code.
pub open spec fn play_status_name(value: i32) -> &'static str {
    match value {
        0 => "LoginSuccess",
        1 => "FailedClient (outdated client)",
        2 => "FailedServer (outdated server)",
        3 => "PlayerSpawn",
        4 => "InvalidTenant",
        5 => "EditionMismatchEduToVanilla",
        6 => "EditionMismatchVanillaToEdu",
        7 => "FailedMaxPlayers",
        8 => "FailedServerFull",
        _ => "Unknown",
    }
}

/// Name of a play status code.
pub fn play_status_to_string(value: i32) -> (r: &'static str)
    ensures
        r == play_status_name(value),
{
    match value {
        0 => "LoginSuccess",
        1 => "FailedClient (outdated client)",
        2 => "FailedServer (outdated server)",
        3 => "PlayerSpawn",
        4 => "InvalidTenant",
        5 => "EditionMismatchEduToVanilla",
        6 => "EditionMismatchVanillaToEdu",
        7 => "FailedMaxPlayers",
        8 => "FailedServerFull",
        _ => "Unknown",
    }
}

/// Name of a packet id, "Unknown" outside the registry.
pub open spec fn packet_name(packet_id: u32) -> &'static str {
    match registry_name(packet_id) {
        Some(name) => name,
        None => "Unknown",
    }
}

pub fn bedrock_packet_name(packet_id: u32) -> (r: &'static str)
    ensures
        r == packet_name(packet_id),
{
    match bedrock_packet_registry_name(packet_id) {
        Some(name) => name,
        None => "Unknown",
    }
}

} // verus!
