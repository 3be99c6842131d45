use dkg_sync::config_option::{
    push_decimal, push_name_value, set_toml_comment, set_toml_name_value, ConfigOption, TomlValue,
    DEFAULT_CHAIN_TYPE, DEFAULT_CLUSTER_RPC_URL, DEFAULT_EXTERNAL_RPC_URL,
    DEFAULT_INTERNAL_RPC_URL, DEFAULT_PARTIAL_KEY_AGGREGATION_CYCLE,
    DEFAULT_PARTIAL_KEY_GENERATION_CYCLE, DEFAULT_RADIUS_FOUNDATION_ADDRESS,
};

fn empty_options() -> ConfigOption {
    ConfigOption {
        path: None,
        external_rpc_url: None,
        internal_rpc_url: None,
        cluster_rpc_url: None,
        seed_cluster_rpc_url: None,
        radius_foundation_address: None,
        chain_type: None,
        partial_key_generation_cycle: None,
        partial_key_aggregation_cycle: None,
    }
}

#[test]
fn defaults_hold_the_documented_values() {
    let config = ConfigOption::defaults(String::from("/home/node/.radius"));
    assert_eq!(config.path, Some(String::from("/home/node/.radius")));
    assert_eq!(config.external_rpc_url, Some(String::from("http://127.0.0.1:3000")));
    assert_eq!(config.internal_rpc_url, Some(String::from("http://127.0.0.1:4000")));
    assert_eq!(config.cluster_rpc_url, Some(String::from("http://127.0.0.1:5000")));
    assert_eq!(config.seed_cluster_rpc_url, None);
    assert_eq!(
        config.radius_foundation_address,
        Some(String::from("0xf39Fd6e51aad88F6F4ce6aB8827279cffFb92266"))
    );
    assert_eq!(config.chain_type, Some(String::from("Ethereum")));
    assert_eq!(config.partial_key_generation_cycle, Some(5));
    assert_eq!(config.partial_key_aggregation_cycle, Some(4));
}

#[test]
fn default_constants() {
    assert_eq!(DEFAULT_EXTERNAL_RPC_URL, "http://127.0.0.1:3000");
    assert_eq!(DEFAULT_INTERNAL_RPC_URL, "http://127.0.0.1:4000");
    assert_eq!(DEFAULT_CLUSTER_RPC_URL, "http://127.0.0.1:5000");
    assert_eq!(DEFAULT_RADIUS_FOUNDATION_ADDRESS, "0xf39Fd6e51aad88F6F4ce6aB8827279cffFb92266");
    assert_eq!(DEFAULT_CHAIN_TYPE, "Ethereum");
    assert_eq!(DEFAULT_PARTIAL_KEY_GENERATION_CYCLE, 5);
    assert_eq!(DEFAULT_PARTIAL_KEY_AGGREGATION_CYCLE, 4);
}

#[test]
fn toml_string_of_the_defaults() {
    let config = ConfigOption::defaults(String::from("/tmp/radius"));
    let expected = "# Set external rpc url\n\
external_rpc_url = \"http://127.0.0.1:3000\"\n\n\
# Set internal rpc url\n\
internal_rpc_url = \"http://127.0.0.1:4000\"\n\n\
# Set cluster rpc url\n\
cluster_rpc_url = \"http://127.0.0.1:5000\"\n\n\
# Set seed cluster rpc url\n\
# seed_cluster_rpc_url = None\n\n\
# Set the radius foundation address\n\
radius_foundation_address = \"0xf39Fd6e51aad88F6F4ce6aB8827279cffFb92266\"\n\n\
# Set the chain type (for verifying signature for foundation address)\n\
chain_type = \"Ethereum\"\n\n\
# Set partial key generation cycle\n\
partial_key_generation_cycle = 5\n\n\
# Set partial key aggregation cycle\n\
partial_key_aggregation_cycle = 4\n\n";
    assert_eq!(config.get_toml_string(), expected);
}

#[test]
fn toml_string_of_empty_options_is_all_comments() {
    let expected = "# Set external rpc url\n\
# external_rpc_url = None\n\n\
# Set internal rpc url\n\
# internal_rpc_url = None\n\n\
# Set cluster rpc url\n\
# cluster_rpc_url = None\n\n\
# Set seed cluster rpc url\n\
# seed_cluster_rpc_url = None\n\n\
# Set the radius foundation address\n\
# radius_foundation_address = None\n\n\
# Set the chain type (for verifying signature for foundation address)\n\
# chain_type = None\n\n\
# Set partial key generation cycle\n\
# partial_key_generation_cycle = None\n\n\
# Set partial key aggregation cycle\n\
# partial_key_aggregation_cycle = None\n\n";
    assert_eq!(empty_options().get_toml_string(), expected);
}

#[test]
fn toml_string_leaves_the_path_out() {
    let mut config = empty_options();
    config.path = Some(String::from("/somewhere/else"));
    assert_eq!(config.get_toml_string(), empty_options().get_toml_string());
}

#[test]
fn comment_line_is_hash_space_text_newline() {
    let mut text = String::from("before\n");
    set_toml_comment(&mut text, "Set external rpc url");
    assert_eq!(text, "before\n# Set external rpc url\n");
}

#[test]
fn name_value_line_quotes_a_string() {
    let mut text = String::new();
    set_toml_name_value(&mut text, "chain_type", &Some(String::from("Ethereum")));
    assert_eq!(text, "chain_type = \"Ethereum\"\n\n");
}

#[test]
fn name_value_line_escapes_inside_a_string() {
    let mut text = String::new();
    set_toml_name_value(&mut text, "url", &Some(String::from("a\"b\\c\n")));
    assert_eq!(text, "url = \"a\\\"b\\\\c\\n\"\n\n");
}

#[test]
fn name_value_line_of_a_number() {
    let mut text = String::from("x");
    set_toml_name_value(&mut text, "partial_key_generation_cycle", &Some(5u64));
    assert_eq!(text, "xpartial_key_generation_cycle = 5\n\n");
}

#[test]
fn name_value_line_of_an_absent_value_is_commented_out() {
    let mut text = String::new();
    let absent: Option<u64> = None;
    set_toml_name_value(&mut text, "partial_key_aggregation_cycle", &absent);
    assert_eq!(text, "# partial_key_aggregation_cycle = None\n\n");
}

#[test]
fn decimal_text_of_numbers() {
    let cases: [(u64, &str); 7] = [
        (0, "0"),
        (7, "7"),
        (9, "9"),
        (10, "10"),
        (1234567890, "1234567890"),
        (100, "100"),
        (u64::MAX, "18446744073709551615"),
    ];
    for (n, expected) in cases {
        let mut text = String::new();
        push_decimal(&mut text, n);
        assert_eq!(text, expected);
        assert_eq!(n.to_toml(), format!("{:?}", n));
    }
}

#[test]
fn string_value_renders_as_debug_does() {
    let value = String::from("tab\there 'single' \u{e9}");
    assert_eq!(value.to_toml(), format!("{:?}", value));
    assert_ne!(value.to_toml(), value);
}

#[test]
fn merge_takes_what_the_other_sets() {
    let base = ConfigOption::defaults(String::from("/base"));
    let mut other = empty_options();
    other.external_rpc_url = Some(String::from("http://10.0.0.1:3000"));
    other.seed_cluster_rpc_url = Some(String::from("http://10.0.0.2:5000"));
    other.partial_key_generation_cycle = Some(9);

    let merged = base.merge(&other);
    assert_eq!(merged.path, Some(String::from("/base")));
    assert_eq!(merged.external_rpc_url, Some(String::from("http://10.0.0.1:3000")));
    assert_eq!(merged.internal_rpc_url, Some(String::from("http://127.0.0.1:4000")));
    assert_eq!(merged.cluster_rpc_url, Some(String::from("http://127.0.0.1:5000")));
    assert_eq!(merged.seed_cluster_rpc_url, Some(String::from("http://10.0.0.2:5000")));
    assert_eq!(
        merged.radius_foundation_address,
        Some(String::from("0xf39Fd6e51aad88F6F4ce6aB8827279cffFb92266"))
    );
    assert_eq!(merged.chain_type, Some(String::from("Ethereum")));
    assert_eq!(merged.partial_key_generation_cycle, Some(9));
    assert_eq!(merged.partial_key_aggregation_cycle, Some(4));
}

#[test]
fn merge_with_empty_options_changes_nothing() {
    let merged = ConfigOption::defaults(String::from("/base")).merge(&empty_options());
    let expected = ConfigOption::defaults(String::from("/base"));
    assert_eq!(merged.path, expected.path);
    assert_eq!(merged.get_toml_string(), expected.get_toml_string());
}

#[test]
fn merge_over_empty_options_gives_the_other() {
    let mut other = empty_options();
    other.path = Some(String::from("/other"));
    other.chain_type = Some(String::from("Solana"));
    other.partial_key_aggregation_cycle = Some(0);
    let merged = empty_options().merge(&other);
    assert_eq!(merged.path, Some(String::from("/other")));
    assert_eq!(merged.chain_type, Some(String::from("Solana")));
    assert_eq!(merged.partial_key_aggregation_cycle, Some(0));
    assert_eq!(merged.external_rpc_url, None);
    assert_eq!(merged.partial_key_generation_cycle, None);
}

#[test]
fn name_value_line_from_a_rendered_text() {
    let mut text = String::from("# c\n");
    push_name_value(&mut text, "chain_type", Some("\"Ethereum\""));
    assert_eq!(text, "# c\nchain_type = \"Ethereum\"\n\n");
    push_name_value(&mut text, "seed", None);
    assert_eq!(text, "# c\nchain_type = \"Ethereum\"\n\n# seed = None\n\n");
    push_name_value(&mut text, "", Some(""));
    assert_eq!(text, "# c\nchain_type = \"Ethereum\"\n\n# seed = None\n\n = \n\n");
}
