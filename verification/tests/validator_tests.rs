use subspace_cli::config::ChainConfig;
use subspace_cli::errors::ValidationError;
use subspace_cli::validate::{
    chain_parser, node_name_parser, plot_directory_parser, reward_address_parser, size_parser,
    yes_or_no_parser,
};

const ADDR: &str = "5GrwvaEF5zXb26Fz9rcQpDWS57CtERHpNehXCPcNoHGKutQY";

#[test]
fn reward_address_accepts_well_formed() {
    let r = reward_address_parser(ADDR);
    assert_eq!(r, Ok(ADDR.to_string()));
}

#[test]
fn reward_address_rejects_short_text() {
    assert_eq!(reward_address_parser("abc"), Err(ValidationError::InvalidRewardAddress));
}

#[test]
fn reward_address_rejects_wrong_leading_character() {
    // Right length, but led by something other than `5`.
    let text = "4GrwvaEF5zXb26Fz9rcQpDWS57CtERHpNehXCPcNoHGKutQY";
    assert_eq!(reward_address_parser(text), Err(ValidationError::InvalidRewardAddress));
}

#[test]
fn reward_address_rejects_non_base58_character() {
    // `0` and `O` are not base-58 characters.
    let text = "5GrwvaEF5zXb26Fz9rcQpDWS57CtERHpNehXCPcN0HGKutQY";
    assert_eq!(reward_address_parser(text), Err(ValidationError::InvalidRewardAddress));
}

#[test]
fn node_name_accepts_identifier() {
    assert_eq!(node_name_parser("alice"), Ok("alice".to_string()));
    assert_eq!(node_name_parser("node-7_b"), Ok("node-7_b".to_string()));
}

#[test]
fn node_name_rejects_empty_and_spaces() {
    assert_eq!(node_name_parser(""), Err(ValidationError::InvalidNodeName));
    assert_eq!(node_name_parser("a b"), Err(ValidationError::InvalidNodeName));
}

#[test]
fn node_name_rejects_overlong() {
    let long = "a".repeat(65);
    assert_eq!(node_name_parser(&long), Err(ValidationError::InvalidNodeName));
    let just_fits = "a".repeat(64);
    assert_eq!(node_name_parser(&just_fits), Ok(just_fits.clone()));
}

#[test]
fn plot_directory_keeps_text() {
    assert_eq!(plot_directory_parser("/var/plots"), Ok("/var/plots".to_string()));
}

#[test]
fn plot_directory_rejects_empty() {
    assert_eq!(plot_directory_parser(""), Err(ValidationError::InvalidPlotDirectory));
}

#[test]
fn size_accepts_units() {
    assert_eq!(size_parser("50GB"), Ok(50_000_000_000));
    assert_eq!(size_parser("1.5KiB"), Ok(1536));
    assert_eq!(size_parser("100"), Ok(100));
}

#[test]
fn size_rejects_gibberish_and_zero() {
    assert_eq!(size_parser("abc"), Err(ValidationError::InvalidPlotSize));
    assert_eq!(size_parser("0"), Err(ValidationError::InvalidPlotSize));
}

#[test]
fn chain_matches_names_case_insensitively() {
    assert_eq!(chain_parser("gemini3c"), Ok(ChainConfig::Gemini3c));
    assert_eq!(chain_parser("GEMINI3C"), Ok(ChainConfig::Gemini3c));
    assert_eq!(chain_parser("Dev"), Ok(ChainConfig::Dev));
    assert_eq!(chain_parser("devNet"), Ok(ChainConfig::DevNet));
}

#[test]
fn chain_rejects_unknown_names() {
    assert_eq!(chain_parser("mainnet"), Err(ValidationError::UnknownChain));
    assert_eq!(chain_parser(""), Err(ValidationError::UnknownChain));
}

#[test]
fn yes_no_accepts_tokens() {
    assert_eq!(yes_or_no_parser("y"), Ok(true));
    assert_eq!(yes_or_no_parser("YES"), Ok(true));
    assert_eq!(yes_or_no_parser("n"), Ok(false));
    assert_eq!(yes_or_no_parser("No"), Ok(false));
}

#[test]
fn yes_no_rejects_anything_else() {
    assert_eq!(yes_or_no_parser("maybe"), Err(ValidationError::InvalidYesNo));
    assert_eq!(yes_or_no_parser(""), Err(ValidationError::InvalidYesNo));
}

#[test]
fn error_messages_name_the_field() {
    assert_eq!(ValidationError::UnknownChain.message(), "unknown chain");
    assert_eq!(ValidationError::InvalidPlotSize.message(), "invalid plot size");
}
