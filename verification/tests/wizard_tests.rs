use subspace_cli::config::{
    build_farmer, build_node, CacheConfig, ChainConfig, CACHE_SIZE, DEFAULT_PLOT_SIZE,
};
use subspace_cli::errors::FatalError;
use subspace_cli::prompt::{collect_field, prompt_step, Field, FieldValue, PromptOutcome};
use subspace_cli::wizard::{run_wizard, WizardDefaults};

const ADDR: &str = "5FHneW46xGXgs5mUiveU4sbTyGBzmstUspZC92UhjJM694ty";

fn defaults() -> WizardDefaults {
    WizardDefaults {
        node_name: "alice".to_string(),
        plot_directory: "/home/alice/plots".to_string(),
        node_directory: "/home/alice/node".to_string(),
        cache_directory: "/home/alice/cache".to_string(),
    }
}

fn lines(raw: &[&str]) -> Vec<String> {
    raw.iter().map(|s| s.to_string()).collect()
}

#[test]
fn default_bypasses_validation() {
    // An empty node name would fail the validator, yet as a default it is
    // accepted exactly as given.
    let default = FieldValue::Name("".to_string());
    let out = prompt_step(Field::NodeName, "", Some(&default));
    assert_eq!(out, PromptOutcome::Accepted(FieldValue::Name("".to_string())));
}

#[test]
fn rejected_line_is_reported_then_reprompted() {
    let out = prompt_step(Field::PlotSize, "abc", None);
    assert!(matches!(out, PromptOutcome::Rejected(_)));
    let stream = lines(&["abc", "50GB"]);
    let r = collect_field(Field::PlotSize, &stream, 0, None);
    assert_eq!(r, Ok((FieldValue::Size(50_000_000_000), 2)));
}

#[test]
fn reprompt_after_invalid_input_for_each_field() {
    let cases: Vec<(Field, &str, &str, FieldValue)> = vec![
        (Field::RewardAddress, "bogus", ADDR, FieldValue::Address(ADDR.to_string())),
        (Field::NodeName, "a b", "alice", FieldValue::Name("alice".to_string())),
        (Field::PlotDirectory, "", "/plots", FieldValue::Directory("/plots".to_string())),
        (Field::PlotSize, "zzz", "2GB", FieldValue::Size(2_000_000_000)),
        (Field::Chain, "mainnet", "dev", FieldValue::ChainChoice(ChainConfig::Dev)),
        (Field::ExecutorFlag, "maybe", "y", FieldValue::Flag(true)),
    ];
    for (field, bad, good, expected) in cases {
        let stream = lines(&[bad, good]);
        let r = collect_field(field, &stream, 0, None);
        assert_eq!(r, Ok((expected, 2)));
    }
}

#[test]
fn stream_that_ends_is_fatal() {
    let stream = lines(&["bogus"]);
    let r = collect_field(Field::RewardAddress, &stream, 0, None);
    assert_eq!(r, Err(FatalError::InputStreamClosed));
}

#[test]
fn happy_path_default_network() {
    let stream = lines(&[ADDR, "", "", "", "", "n"]);
    let config = run_wizard(false, &stream, &defaults()).expect("wizard should succeed");
    assert_eq!(config.chain, ChainConfig::Gemini3c);
    assert_eq!(config.farmer.reward_address, ADDR);
    assert_eq!(config.farmer.plot_directory, "/home/alice/plots");
    assert_eq!(config.farmer.plot_size, DEFAULT_PLOT_SIZE);
    assert_eq!(config.farmer.cache.directory, "/home/alice/cache");
    assert_eq!(config.farmer.cache.size_bytes, CACHE_SIZE);
    assert_eq!(config.node.directory, "/home/alice/node");
    assert_eq!(config.node.name, Some("alice".to_string()));
    assert!(!config.node.is_executor);
}

#[test]
fn dev_chain_drops_node_name() {
    // A name is typed at the node-name prompt, yet the dev profile keeps
    // none.
    let stream = lines(&[ADDR, "myname", "", "", "dev", "y"]);
    let config = run_wizard(false, &stream, &defaults()).expect("wizard should succeed");
    assert_eq!(config.chain, ChainConfig::Dev);
    assert_eq!(config.node.name, None);
    assert!(config.node.is_executor);
}

#[test]
fn invalid_size_then_valid_size() {
    let stream = lines(&[ADDR, "", "", "abc", "50GB", "", "n"]);
    let config = run_wizard(false, &stream, &defaults()).expect("wizard should succeed");
    assert_eq!(config.farmer.plot_size, 50_000_000_000);
    assert_eq!(config.chain, ChainConfig::Gemini3c);
}

#[test]
fn existing_config_fails_before_any_prompt() {
    let stream = lines(&[ADDR, "", "", "", "", "n"]);
    let r = run_wizard(true, &stream, &defaults());
    assert_eq!(r.err(), Some(FatalError::ConfigAlreadyExists));
}

#[test]
fn exhausted_stream_fails_the_run() {
    let stream = lines(&[ADDR, "", ""]);
    let r = run_wizard(false, &stream, &defaults());
    assert_eq!(r.err(), Some(FatalError::InputStreamClosed));
}

#[test]
fn every_profile_builds_a_matching_pair() {
    for chain in [ChainConfig::Gemini3c, ChainConfig::Dev, ChainConfig::DevNet] {
        let cache = CacheConfig { directory: "/cache".to_string(), size_bytes: CACHE_SIZE };
        let farmer = build_farmer(&chain, ADDR.to_string(), "/plots".to_string(), 1, cache);
        let node = build_node(&chain, "/node".to_string(), "alice".to_string(), false);
        assert_eq!(farmer.reward_address, ADDR);
        assert_eq!(farmer.plot_size, 1);
        assert_eq!(node.name.is_some(), chain.requires_node_name());
    }
}

#[test]
fn cache_rejects_zero_capacity() {
    let r = CacheConfig::new("/cache".to_string(), 0);
    assert_eq!(r.err(), Some(FatalError::ConfigCreateFailed));
    let ok = CacheConfig::new("/cache".to_string(), CACHE_SIZE).expect("positive capacity");
    assert_eq!(ok.directory, "/cache");
    assert_eq!(ok.size_bytes, CACHE_SIZE);
}

#[test]
fn fatal_messages_name_the_operation() {
    assert_eq!(FatalError::ConfigAlreadyExists.message(), "config file already exists");
    assert_eq!(FatalError::ConfigWriteFailed.message(), "failed to write config");
}
