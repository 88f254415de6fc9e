use torchflower::addon::{AddonManifest, ManifestHeader, Module};
use torchflower::auth_input::{
    encode_player_auth_input_packet_stream, AuthInputError, RawPlayerAuthInput, Vec2Bits,
    INPUT_FLAG_IN_CLIENT_PREDICTED_VEHICLE, INPUT_FLAG_PERFORM_ITEM_INTERACTION,
    INPUT_FLAG_PERFORM_ITEM_STACK_REQUEST,
};
use torchflower::data::{get_supported_versions, BlockRegistry};
use torchflower::easy_auth::DeviceCodeLogin;
use torchflower::encryption::{decode_base64, InvalidBase64};
use torchflower::observe::Vec3Bits;
use torchflower::pool::{heap_bytes_estimated, PoolConfig};
use torchflower::protocol_options::{
    parse_protocol_version_env, BedrockProtocolOptions, BedrockProtocolVersionSource,
    CodecProtocolVersion, ProtocolVersionError, DEFAULT_BEDROCK_PROTOCOL_VERSION,
};

#[test]
fn protocol_options_follow_config_then_env_then_default() {
    let resolved = BedrockProtocolOptions::resolve(None, None, None).unwrap();
    assert_eq!(resolved.requested_protocol_version, DEFAULT_BEDROCK_PROTOCOL_VERSION);
    assert_eq!(resolved.codec_protocol_version, CodecProtocolVersion::V898);
    assert_eq!(resolved.source, BedrockProtocolVersionSource::Default);
    assert!(resolved.codec_exact_match());

    let resolved = BedrockProtocolOptions::resolve(None, None, Some("975")).unwrap();
    assert_eq!(resolved.requested_protocol_version, 975);
    assert_eq!(resolved.codec_protocol_version, CodecProtocolVersion::V975);
    assert_eq!(resolved.source, BedrockProtocolVersionSource::LegacyEnv);

    let resolved = BedrockProtocolOptions::resolve(None, Some(" 766 "), Some("975")).unwrap();
    assert_eq!(resolved.requested_protocol_version, 766);
    assert_eq!(resolved.codec_protocol_version, CodecProtocolVersion::V766);
    assert_eq!(resolved.source, BedrockProtocolVersionSource::TorchflowerEnv);

    let resolved = BedrockProtocolOptions::resolve(Some(662), Some("766"), Some("975")).unwrap();
    assert_eq!(resolved.requested_protocol_version, 662);
    assert_eq!(resolved.codec_protocol_version, CodecProtocolVersion::V662);
    assert_eq!(resolved.source, BedrockProtocolVersionSource::Config);

    let resolved = BedrockProtocolOptions::from_config(899).unwrap();
    assert_eq!(resolved.requested_protocol_version, 899);
    assert_eq!(resolved.codec_protocol_version, CodecProtocolVersion::V898);
    assert!(!resolved.codec_exact_match());

    assert_eq!(
        BedrockProtocolOptions::resolve(None, Some("0"), None),
        Err(ProtocolVersionError::NotPositive(
            BedrockProtocolVersionSource::TorchflowerEnv,
            0
        ))
    );
    assert_eq!(
        BedrockProtocolOptions::resolve(None, Some("-5"), None),
        Err(ProtocolVersionError::NotPositive(
            BedrockProtocolVersionSource::TorchflowerEnv,
            -5
        ))
    );
    assert_eq!(
        BedrockProtocolOptions::resolve(None, Some("  "), None),
        Err(ProtocolVersionError::Empty(
            BedrockProtocolVersionSource::TorchflowerEnv
        ))
    );
    assert_eq!(
        BedrockProtocolOptions::resolve(None, None, Some("12a")),
        Err(ProtocolVersionError::NotAnInteger(
            BedrockProtocolVersionSource::LegacyEnv
        ))
    );
}

#[test]
fn protocol_version_env_parses_like_i32() {
    let source = BedrockProtocolVersionSource::LegacyEnv;
    assert_eq!(parse_protocol_version_env(source, "+42"), Ok(42));
    assert_eq!(parse_protocol_version_env(source, "-2147483648"), Ok(i32::MIN));
    assert_eq!(parse_protocol_version_env(source, "2147483647"), Ok(i32::MAX));
    assert_eq!(
        parse_protocol_version_env(source, "2147483648"),
        Err(ProtocolVersionError::NotAnInteger(source))
    );
    assert_eq!(
        parse_protocol_version_env(source, "-+1"),
        Err(ProtocolVersionError::NotAnInteger(source))
    );
    assert_eq!(
        parse_protocol_version_env(source, "-"),
        Err(ProtocolVersionError::NotAnInteger(source))
    );
    assert_eq!(BedrockProtocolVersionSource::Config.label(), "config");
    assert_eq!(
        BedrockProtocolVersionSource::TorchflowerEnv.label(),
        "TORCHFLOWER_BEDROCK_PROTOCOL_VERSION"
    );
}

fn manifest(name: &str, modules: Vec<Module>) -> AddonManifest {
    AddonManifest {
        header: ManifestHeader {
            name: name.to_string(),
            description: "Test".to_string(),
            uuid: [0; 16],
            version: [1, 0, 0],
            min_engine_version: [1, 21, 0],
        },
        modules,
        dependencies: Vec::new(),
    }
}

#[test]
fn manifest_validation_reports_blank_name_and_missing_modules() {
    let good = manifest(
        "Pack",
        vec![Module::Resources {
            uuid: [0; 16],
            version: [1, 0, 0],
        }],
    );
    assert!(good.validate().is_empty());

    let bad = manifest("   ", Vec::new());
    let messages: Vec<String> = bad.validate().into_iter().map(|w| w.message).collect();
    assert_eq!(
        messages,
        vec![
            "manifest header name is empty".to_string(),
            "manifest has no modules".to_string()
        ]
    );
}

#[test]
fn static_data_lists_versions_and_blocks() {
    let versions = get_supported_versions();
    assert_eq!(versions.len(), 2);
    assert_eq!(versions[0].version_string, "1.21.100");
    assert_eq!(versions[0].protocol_version, 766);
    assert_eq!(versions[1].version_string, "1.21.130");
    assert_eq!(versions[1].protocol_version, 776);
    assert_eq!(BlockRegistry::get_block_runtime_id("minecraft:dirt"), Some(3));
    assert_eq!(BlockRegistry::get_block_runtime_id("minecraft:air"), Some(0));
    assert_eq!(BlockRegistry::get_block_runtime_id("minecraft:Dirt"), None);
}

#[test]
fn pool_sizes_follow_the_configuration() {
    let config = PoolConfig::default();
    assert_eq!(config.max_concurrent, 100);
    assert_eq!(config.max_auth_concurrent, 3);
    assert_eq!(config.spawn_interval, std::time::Duration::from_millis(500));
    assert_eq!(config.buffer_pool_size(), 400);
    let empty = PoolConfig {
        max_concurrent: 0,
        max_auth_concurrent: 0,
        spawn_interval: std::time::Duration::ZERO,
        command_buffer: 0,
        buffer_size: 128,
    };
    assert_eq!(empty.buffer_pool_size(), 1);
    assert_eq!(empty.auth_permits(), 1);
    assert_eq!(empty.command_channel_capacity(), 1);
    assert_eq!(heap_bytes_estimated(3, 4, 1024), 3 * 128 * 1024 + 4 * 1024);
    assert_eq!(heap_bytes_estimated(usize::MAX, 1, 1), usize::MAX);
}

#[test]
fn device_code_login_keeps_a_five_second_poll_floor() {
    let login = DeviceCodeLogin::new();
    assert_eq!(login.get_poll_interval_millis(), 5_000);
    assert!(!login.is_silent());
    let login = login
        .poll_interval(1_000)
        .client_id("client".to_string())
        .silent();
    assert_eq!(login.get_poll_interval_millis(), 5_000);
    assert_eq!(login.get_client_id(), Some(&"client".to_string()));
    assert!(login.is_silent());
    assert_eq!(login.poll_interval(9_000).get_poll_interval_millis(), 9_000);
}

#[test]
fn handshake_base64_accepts_both_alphabets() {
    assert_eq!(decode_base64("aGVsbG8="), Ok(b"hello".to_vec()));
    assert_eq!(decode_base64("aGVsbG8"), Ok(b"hello".to_vec()));
    assert_eq!(decode_base64("-_8"), Ok(vec![0xfb, 0xff]));
    assert_eq!(decode_base64("!!"), Err(InvalidBase64));
}

fn idle_input(flags: u128) -> RawPlayerAuthInput<'static> {
    let zero3 = Vec3Bits { x: 0, y: 0, z: 0 };
    let zero2 = Vec2Bits { x: 0, y: 0 };
    RawPlayerAuthInput {
        position: zero3,
        velocity: zero3,
        yaw: 0,
        pitch: 0,
        input_data: flags,
        tick: 0,
        move_vector: zero3,
        analog_move_vector: zero2,
        raw_move_vector: zero2,
        block_actions: &[],
        item_use_transaction_id: None,
        item_stack_request: None,
    }
}

#[test]
fn auth_input_refuses_flags_without_their_payload() {
    assert_eq!(
        encode_player_auth_input_packet_stream(&idle_input(INPUT_FLAG_PERFORM_ITEM_INTERACTION)),
        Err(AuthInputError::MissingItemUseTransaction)
    );
    assert_eq!(
        encode_player_auth_input_packet_stream(&idle_input(INPUT_FLAG_PERFORM_ITEM_STACK_REQUEST)),
        Err(AuthInputError::MissingItemStackRequest)
    );
    assert_eq!(
        encode_player_auth_input_packet_stream(&idle_input(INPUT_FLAG_IN_CLIENT_PREDICTED_VEHICLE)),
        Err(AuthInputError::PredictedVehicleUnsupported)
    );
}
