use std::str::FromStr;

use glide_compression::magic_header;
use glide_compression::{
    get_command_compression_behavior, process_command_args_for_compression,
    process_response_for_decompression, CommandCompressionBehavior, CompressionBackend,
    CompressionBackendType, CompressionConfig, CompressionError, CompressionManager, RequestType,
    ResponseValue, ZstdBackend,
};

fn zstd_backend() -> CompressionBackend {
    CompressionBackend::Zstd(ZstdBackend::new().unwrap())
}

fn manager_with_min(min: usize) -> CompressionManager {
    let config = CompressionConfig::new(CompressionBackendType::Zstd).with_min_compression_size(min);
    CompressionManager::new(zstd_backend(), config).unwrap()
}

fn is_invalid_configuration<T>(r: Result<T, CompressionError>) -> bool {
    matches!(r, Err(CompressionError::InvalidConfiguration { .. }))
}

#[test]
fn round_trip_through_manager_for_various_inputs() {
    let manager = manager_with_min(1);
    let binary: Vec<u8> = (0..=255u8).cycle().take(777).collect();
    let inputs = vec![
        vec![b'a'; 5000],
        binary,
        b"plain text with some words in it".to_vec(),
        vec![0u8],
    ];
    for data in inputs {
        let compressed = manager.compress_value(&data).unwrap();
        assert_ne!(compressed, data);
        assert_eq!(manager.decompress_value(&compressed).unwrap(), data);
        assert_eq!(manager.try_decompress_value(&manager.try_compress_value(&data)), data);
    }
}

#[test]
fn round_trip_of_empty_input_through_backend() {
    let backend = zstd_backend();
    let compressed = backend.compress(&[], None).unwrap();
    assert!(compressed.len() > magic_header::HEADER_SIZE);
    assert_eq!(backend.decompress(&compressed).unwrap(), Vec::<u8>::new());
}

#[test]
fn compress_value_leaves_framed_data_alone() {
    let manager = manager_with_min(10);
    let data = vec![7u8; 300];
    let once = manager.compress_value(&data).unwrap();
    let twice = manager.compress_value(&once).unwrap();
    assert_eq!(once, twice);

    let mut framed = magic_header::create_header(0x01).to_vec();
    framed.extend_from_slice(b"not really zstd, but framed");
    assert_eq!(manager.compress_value(&framed).unwrap(), framed);
}

#[test]
fn other_backend_id_is_not_compressed() {
    let backend = zstd_backend();
    let mut framed = magic_header::create_header(0x02).to_vec();
    framed.extend_from_slice(&[1, 2, 3, 4]);
    assert!(!backend.is_compressed(&framed));
    assert!(backend.decompress(&framed).is_err());

    let manager = manager_with_min(1);
    assert_eq!(manager.decompress_value(&framed).unwrap(), framed);
}

#[test]
fn threshold_boundaries() {
    let config = CompressionConfig::new(CompressionBackendType::Zstd)
        .with_min_compression_size(64)
        .with_max_compression_size(Some(1024));
    assert!(!config.should_compress(63));
    assert!(config.should_compress(64));
    assert!(config.should_compress(1024));
    assert!(!config.should_compress(1025));

    let disabled = CompressionConfig::disabled();
    for size in [0, 1, 64, 1024, 1 << 20, usize::MAX] {
        assert!(!disabled.should_compress(size));
    }
}

#[test]
fn validation_failures() {
    let base = CompressionConfig::new(CompressionBackendType::Zstd);
    assert!(is_invalid_configuration(base.clone().with_min_compression_size(0).validate()));
    assert!(is_invalid_configuration(base.clone().with_min_compression_size(1_048_577).validate()));
    assert!(base.clone().with_min_compression_size(1_048_576).validate().is_ok());
    assert!(is_invalid_configuration(
        base.clone().with_min_compression_size(100).with_max_compression_size(Some(100)).validate()
    ));
    assert!(base.clone().with_min_compression_size(100).with_max_compression_size(Some(101)).validate().is_ok());
    assert!(is_invalid_configuration(base.clone().with_compression_level(Some(0)).validate()));
    assert!(is_invalid_configuration(base.clone().with_compression_level(Some(23)).validate()));
    assert!(base.clone().with_compression_level(Some(1)).validate().is_ok());
    assert!(base.clone().with_compression_level(Some(22)).validate().is_ok());

    let lz4 = CompressionConfig::new(CompressionBackendType::Lz4);
    assert!(lz4.validate().is_ok());
    assert!(is_invalid_configuration(lz4.with_compression_level(Some(3)).validate()));
}

#[test]
fn fail_open_on_malformed_framed_input() {
    let manager = manager_with_min(1);
    let mut malformed = magic_header::create_header(0x01).to_vec();
    malformed.extend_from_slice(&[0xFF; 40]);
    assert!(matches!(
        manager.decompress_value(&malformed),
        Err(CompressionError::DecompressionFailed { .. })
    ));
    assert_eq!(manager.try_decompress_value(&malformed), malformed);
    assert_eq!(manager.try_compress_value(&malformed), malformed);
}

#[test]
fn disabled_manager_is_identity() {
    let manager = CompressionManager::new(zstd_backend(), CompressionConfig::disabled()).unwrap();
    let compressed = zstd_backend().compress(&[9u8; 200], None).unwrap();
    for data in [vec![], vec![1u8; 500], compressed] {
        assert_eq!(manager.try_compress_value(&data), data);
        assert_eq!(manager.try_decompress_value(&data), data);
    }
    assert!(is_invalid_configuration(manager.compress_value(&[1u8; 500])));
}

#[test]
fn classifier_maps_set_and_get_only() {
    assert_eq!(
        get_command_compression_behavior(RequestType::SetValue),
        CommandCompressionBehavior::CompressValues
    );
    assert_eq!(
        get_command_compression_behavior(RequestType::Get),
        CommandCompressionBehavior::DecompressValues
    );
    for other in [RequestType::MSet, RequestType::MGet, RequestType::Del, RequestType::Exists, RequestType::Info] {
        assert_eq!(get_command_compression_behavior(other), CommandCompressionBehavior::NoCompression);
    }
}

#[test]
fn scenario_set_compresses_repeated_value() {
    let manager = manager_with_min(64);
    let plain = vec![b'x'; 200];
    let mut args = vec![b"key".to_vec(), plain.clone()];
    assert!(process_command_args_for_compression(&mut args, RequestType::SetValue, Some(&manager)).is_ok());
    assert_eq!(args[0], b"key".to_vec());
    assert_ne!(args[1], plain);
    assert!(magic_header::has_magic_header(&args[1]));
    assert_eq!(args[1][4], 0x01);
    assert_eq!(manager.decompress_value(&args[1]).unwrap(), plain);
}

#[test]
fn scenario_set_with_missing_value() {
    let manager = manager_with_min(64);
    let mut args = vec![b"key".to_vec()];
    assert!(process_command_args_for_compression(&mut args, RequestType::SetValue, Some(&manager)).is_ok());
    assert_eq!(args, vec![b"key".to_vec()]);
}

#[test]
fn scenario_nil_reply_unchanged() {
    let manager = manager_with_min(64);
    let result = process_response_for_decompression(ResponseValue::<i64>::Nil, RequestType::Get, Some(&manager)).unwrap();
    assert_eq!(result, ResponseValue::Nil);
}

#[test]
fn scenario_compressed_reply_is_decompressed() {
    let manager = manager_with_min(64);
    let plain = b"a value worth compressing, a value worth compressing, a value worth compressing".to_vec();
    let compressed = manager.compress_value(&plain).unwrap();
    let result = process_response_for_decompression(ResponseValue::<i64>::BulkString(compressed), RequestType::Get, Some(&manager)).unwrap();
    assert_eq!(result, ResponseValue::BulkString(plain));
}

#[test]
fn scenario_small_value_unchanged() {
    let manager = manager_with_min(64);
    let mut args = vec![b"key".to_vec(), b"small".to_vec()];
    assert!(process_command_args_for_compression(&mut args, RequestType::SetValue, Some(&manager)).is_ok());
    assert_eq!(args[1], b"small".to_vec());
}

#[test]
fn scenario_mismatched_backend_rejected() {
    let result = CompressionManager::new(zstd_backend(), CompressionConfig::new(CompressionBackendType::Lz4));
    assert!(is_invalid_configuration(result));
}

#[test]
fn reply_to_other_commands_and_shapes_passes_through() {
    let manager = manager_with_min(1);
    let compressed = manager.compress_value(b"some value").unwrap();
    let bulk = ResponseValue::<i64>::BulkString(compressed.clone());
    assert_eq!(process_response_for_decompression(bulk.clone(), RequestType::HGet, Some(&manager)).unwrap(), bulk);
    let other = ResponseValue::Other(42i64);
    assert_eq!(process_response_for_decompression(other.clone(), RequestType::Get, Some(&manager)).unwrap(), other);
    let text = ResponseValue::<i64>::SimpleString("OK".to_string());
    assert_eq!(process_response_for_decompression(text.clone(), RequestType::Get, Some(&manager)).unwrap(), text);
}

#[test]
fn set_with_extra_arguments_only_touches_value() {
    let manager = manager_with_min(8);
    let value = vec![b'z'; 100];
    let mut args = vec![b"key".to_vec(), value.clone(), b"EX".to_vec(), b"100".to_vec()];
    process_command_args_for_compression(&mut args, RequestType::SetValue, Some(&manager)).unwrap();
    assert_eq!(args.len(), 4);
    assert_eq!(args[0], b"key".to_vec());
    assert_eq!(args[2], b"EX".to_vec());
    assert_eq!(args[3], b"100".to_vec());
    assert_eq!(manager.try_decompress_value(&args[1]), value);
}

#[test]
fn error_kinds_have_triggering_inputs() {
    assert!(matches!(
        ZstdBackend::with_default_level(0),
        Err(CompressionError::BackendInitializationFailed { .. })
    ));
    assert_eq!(
        CompressionBackendType::from_str("brotli"),
        Err(CompressionError::UnsupportedBackend { backend: "brotli".to_string() })
    );
    let backend = ZstdBackend::new().unwrap();
    assert!(matches!(
        backend.decompress(b"plain"),
        Err(CompressionError::DecompressionFailed { .. })
    ));
    assert!(matches!(
        backend.compress(b"data", Some(30)),
        Err(CompressionError::InvalidConfiguration { .. })
    ));
    let manager = manager_with_min(64);
    assert!(is_invalid_configuration(manager.compress_value(b"short")));
}

#[test]
fn backend_name_parsing_ignores_case() {
    assert_eq!(CompressionBackendType::from_str("ZStandard"), Ok(CompressionBackendType::Zstd));
    assert_eq!(CompressionBackendType::from_str("LZ4"), Ok(CompressionBackendType::Lz4));
    assert_eq!(
        CompressionBackendType::from_folded_name("zstd", "Zstd"),
        Ok(CompressionBackendType::Zstd)
    );
    assert!(CompressionBackendType::from_folded_name("ZSTD", "ZSTD").is_err());
}

#[test]
fn custom_default_level_is_used() {
    let backend = ZstdBackend::with_default_level(19).unwrap();
    assert_eq!(backend.default_level(), Some(19));
    let data = vec![3u8; 4096];
    let compressed = backend.compress(&data, None).unwrap();
    assert_eq!(&compressed[..5], &[0x47, 0x4C, 0x49, 0x44, 0x01]);
    assert_eq!(backend.decompress(&compressed).unwrap(), data);
}

#[test]
fn fail_open_compression_matches_strict_and_is_idempotent() {
    let manager = manager_with_min(16);
    for data in [vec![5u8; 8], vec![5u8; 400], b"mixed content 0123456789 mixed content".to_vec()] {
        let once = manager.try_compress_value(&data);
        let expected = match manager.compress_value(&data) {
            Ok(c) => c,
            Err(_) => data.clone(),
        };
        assert_eq!(once, expected);
        assert_eq!(manager.try_compress_value(&once), once);
    }
}

#[test]
fn default_level_matches_explicit_level() {
    let backend = ZstdBackend::new().unwrap();
    let data = b"the same input compressed twice, at the default level and at level three".to_vec();
    assert_eq!(backend.compress(&data, None).unwrap(), backend.compress(&data, Some(3)).unwrap());
}

#[test]
fn construction_reports_validation_message() {
    let config = CompressionConfig::new(CompressionBackendType::Zstd).with_min_compression_size(0);
    assert_eq!(
        CompressionManager::new(zstd_backend(), config).err(),
        Some(CompressionError::InvalidConfiguration {
            message: "min_compression_size must be greater than 0".to_string()
        })
    );
    let mismatch = CompressionManager::new(zstd_backend(), CompressionConfig::new(CompressionBackendType::Lz4));
    assert_eq!(
        mismatch.err(),
        Some(CompressionError::InvalidConfiguration {
            message: "Backend mismatch: expected lz4, got zstd".to_string()
        })
    );
}

#[test]
fn manager_accessors() {
    let manager = manager_with_min(32);
    assert!(manager.is_enabled());
    assert_eq!(manager.backend_name(), "zstd");
    assert_eq!(manager.config().min_compression_size, 32);
    assert_eq!(manager.config().compression_level, Some(3));
}
