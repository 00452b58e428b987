use subspace_cli::codec::{decode_config_lines, dec_from_str, encode_config_lines, u64_to_dec};
use subspace_cli::config::{CacheConfig, ChainConfig, Config, FarmerConfig, NodeConfig};

fn sample_config(chain: ChainConfig, name: Option<&str>) -> Config {
    Config {
        chain,
        farmer: FarmerConfig {
            reward_address: "5FHneW46xGXgs5mUiveU4sbTyGBzmstUspZC92UhjJM694ty".to_string(),
            plot_directory: "/plots".to_string(),
            plot_size: 100_000_000_000,
            cache: CacheConfig { directory: "/cache".to_string(), size_bytes: 1_000_000_000 },
        },
        node: NodeConfig {
            directory: "/node".to_string(),
            name: name.map(|n| n.to_string()),
            is_executor: false,
        },
    }
}

fn assert_same(a: &Config, b: &Config) {
    assert_eq!(a.chain, b.chain);
    assert_eq!(a.farmer.reward_address, b.farmer.reward_address);
    assert_eq!(a.farmer.plot_directory, b.farmer.plot_directory);
    assert_eq!(a.farmer.plot_size, b.farmer.plot_size);
    assert_eq!(a.farmer.cache.directory, b.farmer.cache.directory);
    assert_eq!(a.farmer.cache.size_bytes, b.farmer.cache.size_bytes);
    assert_eq!(a.node.directory, b.node.directory);
    assert_eq!(a.node.name, b.node.name);
    assert_eq!(a.node.is_executor, b.node.is_executor);
}

#[test]
fn decimal_renders_exact_values() {
    assert_eq!(u64_to_dec(0), "0");
    assert_eq!(u64_to_dec(50_000_000_000), "50000000000");
    assert_eq!(u64_to_dec(u64::MAX), "18446744073709551615");
}

#[test]
fn decimal_reads_back() {
    assert_eq!(dec_from_str("0"), Some(0));
    assert_eq!(dec_from_str("18446744073709551615"), Some(u64::MAX));
    assert_eq!(dec_from_str("18446744073709551616"), None);
    assert_eq!(dec_from_str(""), None);
    assert_eq!(dec_from_str("12a"), None);
    assert_eq!(dec_from_str("-1"), None);
}

#[test]
fn encoding_is_the_fixed_key_order() {
    let config = sample_config(ChainConfig::Gemini3c, Some("alice"));
    let lines = encode_config_lines(&config);
    let expected: Vec<String> = [
        "chain = gemini3c",
        "reward_address = 5FHneW46xGXgs5mUiveU4sbTyGBzmstUspZC92UhjJM694ty",
        "plot_directory = /plots",
        "plot_size = 100000000000",
        "cache_directory = /cache",
        "cache_size = 1000000000",
        "node_directory = /node",
        "is_executor = false",
        "node_name = alice",
    ]
    .iter()
    .map(|s| s.to_string())
    .collect();
    assert_eq!(lines, expected);
}

#[test]
fn round_trip_named_profile() {
    let config = sample_config(ChainConfig::Gemini3c, Some("alice"));
    let decoded = decode_config_lines(&encode_config_lines(&config)).expect("decode should succeed");
    assert_same(&config, &decoded);
}

#[test]
fn round_trip_dev_profile() {
    let config = sample_config(ChainConfig::Dev, None);
    let decoded = decode_config_lines(&encode_config_lines(&config)).expect("decode should succeed");
    assert_same(&config, &decoded);
}

#[test]
fn decode_refuses_missing_or_extra_lines() {
    let config = sample_config(ChainConfig::Dev, None);
    let mut lines = encode_config_lines(&config);
    lines.pop();
    assert!(decode_config_lines(&lines).is_none());
    let mut lines = encode_config_lines(&config);
    lines.push("node_name = bob".to_string());
    assert!(decode_config_lines(&lines).is_none());
}

#[test]
fn decode_refuses_wrong_keys_and_values() {
    let config = sample_config(ChainConfig::Gemini3c, Some("alice"));
    let mut lines = encode_config_lines(&config);
    lines[0] = "chain = moonnet".to_string();
    assert!(decode_config_lines(&lines).is_none());
    let mut lines = encode_config_lines(&config);
    lines[3] = "plot_size = lots".to_string();
    assert!(decode_config_lines(&lines).is_none());
    let mut lines = encode_config_lines(&config);
    lines[7] = "is_executor = perhaps".to_string();
    assert!(decode_config_lines(&lines).is_none());
}
