//! Validation and inheritance of EVM network configurations.

use gas_price_core::config::GasPriceCacheConfig;
use gas_price_core::errors::ConfigFileError;
use gas_price_core::network::{EvmNetworkConfig, NetworkConfigCommon};

fn create_evm_network(name: &str) -> EvmNetworkConfig {
    EvmNetworkConfig {
        common: NetworkConfigCommon {
            network: name.to_string(),
            from: None,
            rpc_urls: Some(vec!["https://rpc.example.com".to_string()]),
            explorer_urls: Some(vec!["https://explorer.example.com".to_string()]),
            average_blocktime_ms: Some(12000),
            is_testnet: Some(false),
            tags: None,
        },
        chain_id: Some(1),
        required_confirmations: Some(1),
        features: Some(vec!["eip1559".to_string()]),
        symbol: Some("ETH".to_string()),
        gas_price_cache: None,
    }
}

fn create_evm_network_for_inheritance_test(name: &str, from: &str) -> EvmNetworkConfig {
    EvmNetworkConfig {
        common: NetworkConfigCommon {
            network: name.to_string(),
            from: Some(from.to_string()),
            rpc_urls: None,
            explorer_urls: None,
            average_blocktime_ms: None,
            is_testnet: None,
            tags: None,
        },
        chain_id: None,
        required_confirmations: None,
        features: None,
        symbol: None,
        gas_price_cache: None,
    }
}

#[test]
fn test_validate_success_complete_config() {
    let config = create_evm_network("ethereum-mainnet");
    let result = config.validate();
    assert!(result.is_ok());
}

#[test]
fn test_validate_success_minimal_config() {
    let mut config = create_evm_network("minimal-evm");
    config.features = None;
    let result = config.validate();
    assert!(result.is_ok());
}

#[test]
fn test_validate_missing_chain_id() {
    let mut config = create_evm_network("ethereum-mainnet");
    config.chain_id = None;

    let result = config.validate();
    assert!(result.is_err());
    assert!(matches!(
        result.unwrap_err(),
        ConfigFileError::MissingField(_)
    ));
}

#[test]
fn test_validate_missing_required_confirmations() {
    let mut config = create_evm_network("ethereum-mainnet");
    config.required_confirmations = None;

    let result = config.validate();
    assert!(result.is_err());
    assert!(matches!(
        result.unwrap_err(),
        ConfigFileError::MissingField(_)
    ));
}

#[test]
fn test_validate_missing_symbol() {
    let mut config = create_evm_network("ethereum-mainnet");
    config.symbol = None;

    let result = config.validate();
    assert!(result.is_err());
    assert!(matches!(
        result.unwrap_err(),
        ConfigFileError::MissingField(_)
    ));
}

#[test]
fn test_validate_invalid_common_fields() {
    let mut config = create_evm_network("ethereum-mainnet");
    config.common.network = String::new();

    let result = config.validate();
    assert!(result.is_err());
    assert!(matches!(
        result.unwrap_err(),
        ConfigFileError::MissingField(_)
    ));
}

#[test]
fn test_validate_invalid_rpc_urls() {
    let mut config = create_evm_network("ethereum-mainnet");
    config.common.rpc_urls = Some(vec!["invalid-url".to_string()]);

    let result = config.validate();
    assert!(result.is_err());
    assert!(matches!(
        result.unwrap_err(),
        ConfigFileError::InvalidFormat(_)
    ));
}

#[test]
fn test_validate_with_zero_chain_id() {
    let mut config = create_evm_network("ethereum-mainnet");
    config.chain_id = Some(0);

    let result = config.validate();
    assert!(result.is_ok());
}

#[test]
fn test_validate_with_large_chain_id() {
    let mut config = create_evm_network("ethereum-mainnet");
    config.chain_id = Some(u64::MAX);

    let result = config.validate();
    assert!(result.is_ok());
}

#[test]
fn test_validate_with_zero_confirmations() {
    let mut config = create_evm_network("ethereum-mainnet");
    config.required_confirmations = Some(0);

    let result = config.validate();
    assert!(result.is_ok());
}

#[test]
fn test_validate_with_empty_features() {
    let mut config = create_evm_network("ethereum-mainnet");
    config.features = Some(vec![]);

    let result = config.validate();
    assert!(result.is_ok());
}

#[test]
fn test_validate_with_empty_symbol() {
    let mut config = create_evm_network("ethereum-mainnet");
    config.symbol = Some(String::new());

    let result = config.validate();
    assert!(result.is_err());
}

#[test]
fn test_merge_with_parent_child_overrides() {
    let parent = EvmNetworkConfig {
        common: NetworkConfigCommon {
            network: "parent".to_string(),
            from: Some("parent".to_string()),
            rpc_urls: Some(vec!["https://parent-rpc.example.com".to_string()]),
            explorer_urls: Some(vec!["https://parent-explorer.example.com".to_string()]),
            average_blocktime_ms: Some(10000),
            is_testnet: Some(true),
            tags: Some(vec!["parent-tag".to_string()]),
        },
        chain_id: Some(1),
        required_confirmations: Some(6),
        features: Some(vec!["legacy".to_string()]),
        symbol: Some("PETH".to_string()),
        gas_price_cache: Some(GasPriceCacheConfig {
            enabled: true,
            stale_after_ms: 20_000,
            expire_after_ms: 100_000,
        }),
    };

    let child = EvmNetworkConfig {
        common: NetworkConfigCommon {
            network: "child".to_string(),
            from: Some("parent".to_string()),
            rpc_urls: Some(vec!["https://child-rpc.example.com".to_string()]),
            explorer_urls: Some(vec!["https://child-explorer.example.com".to_string()]),
            average_blocktime_ms: Some(15000),
            is_testnet: Some(false),
            tags: Some(vec!["child-tag".to_string()]),
        },
        chain_id: Some(31337),
        required_confirmations: Some(1),
        features: Some(vec!["eip1559".to_string()]),
        symbol: Some("CETH".to_string()),
        gas_price_cache: Some(GasPriceCacheConfig {
            enabled: false,
            stale_after_ms: 40_000,
            expire_after_ms: 200_000,
        }),
    };

    let result = child.merge_with_parent(&parent);

    assert_eq!(result.common.network, "child");
    assert_eq!(result.common.from, Some("parent".to_string()));
    assert_eq!(
        result.common.rpc_urls,
        Some(vec!["https://child-rpc.example.com".to_string()])
    );
    assert_eq!(
        result.common.explorer_urls,
        Some(vec!["https://child-explorer.example.com".to_string()])
    );
    assert_eq!(result.common.average_blocktime_ms, Some(15000));
    assert_eq!(result.common.is_testnet, Some(false));
    assert_eq!(
        result.common.tags,
        Some(vec!["parent-tag".to_string(), "child-tag".to_string()])
    );
    assert_eq!(result.chain_id, Some(31337));
    assert_eq!(result.required_confirmations, Some(1));
    assert_eq!(
        result.features,
        Some(vec!["legacy".to_string(), "eip1559".to_string()])
    );
    assert_eq!(result.symbol, Some("CETH".to_string()));
    assert_eq!(
        result.gas_price_cache,
        Some(GasPriceCacheConfig {
            enabled: false,
            stale_after_ms: 40_000,
            expire_after_ms: 200_000,
        })
    );
}

#[test]
fn test_merge_with_parent_child_inherits() {
    let parent = EvmNetworkConfig {
        common: NetworkConfigCommon {
            network: "parent".to_string(),
            from: None,
            rpc_urls: Some(vec!["https://parent-rpc.example.com".to_string()]),
            explorer_urls: Some(vec!["https://parent-explorer.example.com".to_string()]),
            average_blocktime_ms: Some(10000),
            is_testnet: Some(true),
            tags: Some(vec!["parent-tag".to_string()]),
        },
        chain_id: Some(1),
        required_confirmations: Some(6),
        features: Some(vec!["eip1559".to_string()]),
        symbol: Some("ETH".to_string()),
        gas_price_cache: Some(GasPriceCacheConfig {
            enabled: true,
            stale_after_ms: 20_000,
            expire_after_ms: 100_000,
        }),
    };

    let child = create_evm_network_for_inheritance_test("ethereum-testnet", "ethereum-mainnet");

    let result = child.merge_with_parent(&parent);

    assert_eq!(result.common.network, "ethereum-testnet");
    assert_eq!(result.common.from, Some("ethereum-mainnet".to_string()));
    assert_eq!(
        result.common.rpc_urls,
        Some(vec!["https://parent-rpc.example.com".to_string()])
    );
    assert_eq!(
        result.common.explorer_urls,
        Some(vec!["https://parent-explorer.example.com".to_string()])
    );
    assert_eq!(result.common.average_blocktime_ms, Some(10000));
    assert_eq!(result.common.is_testnet, Some(true));
    assert_eq!(result.common.tags, Some(vec!["parent-tag".to_string()]));
    assert_eq!(result.chain_id, Some(1));
    assert_eq!(result.required_confirmations, Some(6));
    assert_eq!(result.features, Some(vec!["eip1559".to_string()]));
    assert_eq!(result.symbol, Some("ETH".to_string()));
    assert_eq!(
        result.gas_price_cache,
        Some(GasPriceCacheConfig {
            enabled: true,
            stale_after_ms: 20_000,
            expire_after_ms: 100_000,
        })
    );
}

#[test]
fn test_merge_with_parent_mixed_inheritance() {
    let parent = EvmNetworkConfig {
        common: NetworkConfigCommon {
            network: "parent".to_string(),
            from: None,
            rpc_urls: Some(vec!["https://parent-rpc.example.com".to_string()]),
            explorer_urls: Some(vec!["https://parent-explorer.example.com".to_string()]),
            average_blocktime_ms: Some(10000),
            is_testnet: Some(true),
            tags: Some(vec!["parent-tag1".to_string(), "parent-tag2".to_string()]),
        },
        chain_id: Some(1),
        required_confirmations: Some(6),
        features: Some(vec!["eip155".to_string(), "eip1559".to_string()]),
        symbol: Some("ETH".to_string()),
        gas_price_cache: Some(GasPriceCacheConfig {
            enabled: true,
            stale_after_ms: 20_000,
            expire_after_ms: 100_000,
        }),
    };

    let child = EvmNetworkConfig {
        common: NetworkConfigCommon {
            network: "child".to_string(),
            from: Some("parent".to_string()),
            rpc_urls: Some(vec!["https://child-rpc.example.com".to_string()]),
            explorer_urls: Some(vec!["https://child-explorer.example.com".to_string()]),
            average_blocktime_ms: None,
            is_testnet: Some(false),
            tags: Some(vec!["child-tag".to_string()]),
        },
        chain_id: Some(31337),
        required_confirmations: None,
        features: Some(vec!["eip2930".to_string()]),
        symbol: None,
        gas_price_cache: Some(GasPriceCacheConfig {
            enabled: false,
            stale_after_ms: 40_000,
            expire_after_ms: 200_000,
        }),
    };

    let result = child.merge_with_parent(&parent);

    assert_eq!(result.common.network, "child");
    assert_eq!(
        result.common.rpc_urls,
        Some(vec!["https://child-rpc.example.com".to_string()])
    );
    assert_eq!(
        result.common.explorer_urls,
        Some(vec!["https://child-explorer.example.com".to_string()])
    );
    assert_eq!(result.common.average_blocktime_ms, Some(10000));
    assert_eq!(result.common.is_testnet, Some(false));
    assert_eq!(
        result.common.tags,
        Some(vec![
            "parent-tag1".to_string(),
            "parent-tag2".to_string(),
            "child-tag".to_string()
        ])
    );
    assert_eq!(result.chain_id, Some(31337));
    assert_eq!(result.required_confirmations, Some(6));
    assert_eq!(
        result.features,
        Some(vec![
            "eip155".to_string(),
            "eip1559".to_string(),
            "eip2930".to_string()
        ])
    );
    assert_eq!(result.symbol, Some("ETH".to_string()));
    assert_eq!(
        result.gas_price_cache,
        Some(GasPriceCacheConfig {
            enabled: false,
            stale_after_ms: 40_000,
            expire_after_ms: 200_000,
        })
    );
}

#[test]
fn test_merge_with_parent_both_empty() {
    let parent = EvmNetworkConfig {
        common: NetworkConfigCommon {
            network: "parent".to_string(),
            from: None,
            rpc_urls: None,
            explorer_urls: None,
            average_blocktime_ms: None,
            is_testnet: None,
            tags: None,
        },
        chain_id: None,
        required_confirmations: None,
        features: None,
        symbol: None,
        gas_price_cache: None,
    };

    let child = EvmNetworkConfig {
        common: NetworkConfigCommon {
            network: "child".to_string(),
            from: Some("parent".to_string()),
            rpc_urls: None,
            explorer_urls: None,
            average_blocktime_ms: None,
            is_testnet: None,
            tags: None,
        },
        chain_id: None,
        required_confirmations: None,
        features: None,
        symbol: None,
        gas_price_cache: None,
    };

    let result = child.merge_with_parent(&parent);

    assert_eq!(result.common.network, "child");
    assert_eq!(result.common.from, Some("parent".to_string()));
    assert_eq!(result.common.rpc_urls, None);
    assert_eq!(result.common.average_blocktime_ms, None);
    assert_eq!(result.common.is_testnet, None);
    assert_eq!(result.common.tags, None);
    assert_eq!(result.chain_id, None);
    assert_eq!(result.required_confirmations, None);
    assert_eq!(result.features, None);
    assert_eq!(result.symbol, None);
    assert_eq!(result.gas_price_cache, None);
}

#[test]
fn test_merge_with_parent_complex_features_merging() {
    let parent = EvmNetworkConfig {
        common: NetworkConfigCommon {
            network: "parent".to_string(),
            from: None,
            rpc_urls: Some(vec!["https://rpc.example.com".to_string()]),
            explorer_urls: Some(vec!["https://explorer.example.com".to_string()]),
            average_blocktime_ms: Some(12000),
            is_testnet: Some(false),
            tags: None,
        },
        chain_id: Some(1),
        required_confirmations: Some(12),
        features: Some(vec![
            "eip155".to_string(),
            "eip1559".to_string(),
            "shared".to_string(),
        ]),
        symbol: Some("ETH".to_string()),
        gas_price_cache: Some(GasPriceCacheConfig {
            enabled: true,
            stale_after_ms: 20_000,
            expire_after_ms: 100_000,
        }),
    };

    let child = EvmNetworkConfig {
        common: NetworkConfigCommon {
            network: "child".to_string(),
            from: Some("parent".to_string()),
            rpc_urls: None,
            explorer_urls: None,
            average_blocktime_ms: None,
            is_testnet: None,
            tags: None,
        },
        chain_id: None,
        required_confirmations: None,
        features: Some(vec![
            "shared".to_string(),
            "eip2930".to_string(),
            "custom".to_string(),
        ]),
        symbol: None,
        gas_price_cache: None,
    };

    let result = child.merge_with_parent(&parent);

    let expected_features = vec![
        "eip155".to_string(),
        "eip1559".to_string(),
        "shared".to_string(),
        "eip2930".to_string(),
        "custom".to_string(),
    ];
    assert_eq!(result.features, Some(expected_features));
    assert_eq!(
        result.gas_price_cache,
        Some(GasPriceCacheConfig {
            enabled: true,
            stale_after_ms: 20_000,
            expire_after_ms: 100_000,
        })
    );
}

#[test]
fn test_merge_with_parent_preserves_child_network_name() {
    let parent = create_evm_network("ethereum-mainnet");
    let mut child = create_evm_network_for_inheritance_test("ethereum-testnet", "ethereum-mainnet");
    child.common.network = "custom-child-name".to_string();

    let result = child.merge_with_parent(&parent);

    assert_eq!(result.common.network, "custom-child-name");
}

#[test]
fn test_merge_with_parent_preserves_child_from_field() {
    let parent = EvmNetworkConfig {
        common: NetworkConfigCommon {
            network: "parent".to_string(),
            from: Some("grandparent".to_string()),
            rpc_urls: Some(vec!["https://parent.example.com".to_string()]),
            explorer_urls: Some(vec!["https://parent-explorer.example.com".to_string()]),
            average_blocktime_ms: Some(10000),
            is_testnet: Some(true),
            tags: None,
        },
        chain_id: Some(1),
        required_confirmations: Some(6),
        features: None,
        symbol: Some("ETH".to_string()),
        gas_price_cache: Some(GasPriceCacheConfig {
            enabled: true,
            stale_after_ms: 20_000,
            expire_after_ms: 100_000,
        }),
    };

    let child = EvmNetworkConfig {
        common: NetworkConfigCommon {
            network: "child".to_string(),
            from: Some("parent".to_string()),
            rpc_urls: None,
            explorer_urls: None,
            average_blocktime_ms: None,
            is_testnet: None,
            tags: None,
        },
        chain_id: None,
        required_confirmations: None,
        features: None,
        symbol: None,
        gas_price_cache: None,
    };

    let result = child.merge_with_parent(&parent);

    assert_eq!(result.common.from, Some("parent".to_string()));
    assert_eq!(
        result.gas_price_cache,
        Some(GasPriceCacheConfig {
            enabled: true,
            stale_after_ms: 20_000,
            expire_after_ms: 100_000,
        })
    );
}

#[test]
fn test_validate_with_unicode_symbol() {
    let mut config = create_evm_network("ethereum-mainnet");
    config.symbol = Some("Ξ".to_string());

    let result = config.validate();
    assert!(result.is_ok());
}

#[test]
fn test_validate_with_unicode_features() {
    let mut config = create_evm_network("ethereum-mainnet");
    config.features = Some(vec!["eip1559".to_string(), "测试功能".to_string()]);

    let result = config.validate();
    assert!(result.is_ok());
}

#[test]
fn test_merge_with_parent_with_empty_features() {
    let parent = EvmNetworkConfig {
        common: NetworkConfigCommon {
            network: "parent".to_string(),
            from: None,
            rpc_urls: Some(vec!["https://rpc.example.com".to_string()]),
            explorer_urls: Some(vec!["https://explorer.example.com".to_string()]),
            average_blocktime_ms: Some(12000),
            is_testnet: Some(false),
            tags: None,
        },
        chain_id: Some(1),
        required_confirmations: Some(12),
        features: Some(vec![]),
        symbol: Some("ETH".to_string()),
        gas_price_cache: Some(GasPriceCacheConfig {
            enabled: true,
            stale_after_ms: 20_000,
            expire_after_ms: 100_000,
        }),
    };

    let child = EvmNetworkConfig {
        common: NetworkConfigCommon {
            network: "child".to_string(),
            from: Some("parent".to_string()),
            rpc_urls: None,
            explorer_urls: None,
            average_blocktime_ms: None,
            is_testnet: None,
            tags: None,
        },
        chain_id: None,
        required_confirmations: None,
        features: Some(vec!["eip1559".to_string()]),
        symbol: None,
        gas_price_cache: None,
    };

    let result = child.merge_with_parent(&parent);

    assert_eq!(result.features, Some(vec!["eip1559".to_string()]));
    assert_eq!(
        result.gas_price_cache,
        Some(GasPriceCacheConfig {
            enabled: true,
            stale_after_ms: 20_000,
            expire_after_ms: 100_000,
        })
    );
}

#[test]
fn test_validate_with_very_large_confirmations() {
    let mut config = create_evm_network("ethereum-mainnet");
    config.required_confirmations = Some(u64::MAX);

    let result = config.validate();
    assert!(result.is_ok());
}

#[test]
fn test_merge_with_parent_identical_configs() {
    let config = create_evm_network("ethereum-mainnet");
    let result = config.merge_with_parent(&config);

    assert_eq!(result.common.network, config.common.network);
    assert_eq!(result.chain_id, config.chain_id);
    assert_eq!(result.required_confirmations, config.required_confirmations);
    assert_eq!(result.features, config.features);
    assert_eq!(result.symbol, config.symbol);
    assert_eq!(result.gas_price_cache, config.gas_price_cache);
}

#[test]
fn test_validate_propagates_common_validation_errors() {
    let mut config = create_evm_network("ethereum-mainnet");
    config.common.rpc_urls = None;

    let result = config.validate();
    assert!(result.is_err());
    assert!(matches!(
        result.unwrap_err(),
        ConfigFileError::MissingField(_)
    ));
}

#[test]
fn test_gas_price_cache_validation_zero_stale_after() {
    let mut config = create_evm_network("ethereum-mainnet");
    config.gas_price_cache = Some(GasPriceCacheConfig {
        enabled: true,
        stale_after_ms: 0,
        expire_after_ms: 45_000,
    });

    let result = config.validate();
    assert!(result.is_err());
    assert!(matches!(
        result.unwrap_err(),
        ConfigFileError::InvalidFormat(_)
    ));
}

#[test]
fn test_gas_price_cache_validation_zero_expire_after() {
    let mut config = create_evm_network("ethereum-mainnet");
    config.gas_price_cache = Some(GasPriceCacheConfig {
        enabled: true,
        stale_after_ms: 20_000,
        expire_after_ms: 0,
    });

    let result = config.validate();
    assert!(result.is_err());
    assert!(matches!(
        result.unwrap_err(),
        ConfigFileError::InvalidFormat(_)
    ));
}

#[test]
fn test_gas_price_cache_validation_expire_less_than_stale() {
    let mut config = create_evm_network("ethereum-mainnet");
    config.gas_price_cache = Some(GasPriceCacheConfig {
        enabled: true,
        stale_after_ms: 45_000,
        expire_after_ms: 20_000,
    });

    let result = config.validate();
    assert!(result.is_err());
    assert!(matches!(
        result.unwrap_err(),
        ConfigFileError::InvalidFormat(_)
    ));
}

#[test]
fn test_gas_price_cache_validation_expire_equal_to_stale() {
    let mut config = create_evm_network("ethereum-mainnet");
    config.gas_price_cache = Some(GasPriceCacheConfig {
        enabled: true,
        stale_after_ms: 20_000,
        expire_after_ms: 20_000,
    });

    let result = config.validate();
    assert!(result.is_err());
    assert!(matches!(
        result.unwrap_err(),
        ConfigFileError::InvalidFormat(_)
    ));
}

#[test]
fn test_gas_price_cache_validation_valid_config() {
    let mut config = create_evm_network("ethereum-mainnet");
    config.gas_price_cache = Some(GasPriceCacheConfig {
        enabled: true,
        stale_after_ms: 20_000,
        expire_after_ms: 45_000,
    });

    let result = config.validate();
    assert!(result.is_ok());
}

#[test]
fn test_gas_price_cache_default_values() {
    let config = GasPriceCacheConfig::default();

    assert_eq!(config.enabled, false);
    assert_eq!(config.stale_after_ms, 20_000);
    assert_eq!(config.expire_after_ms, 45_000);

    assert!(config.validate().is_ok());
}
