use varro::builder::VarroBuilder;
use varro::cli::Cli;
use varro::common::{L1Client, OutputOracle, RollupNode};
use varro::config::{Config, ConfigEnv};
use varro::errors::ConfigError;
use varro::hex::{parse_address, parse_h256};

const ADDRESS: &str = "0x00000000000000000000000000000000deadbeef";

fn env(address: &str) -> ConfigEnv {
    ConfigEnv {
        l1_client_rpc_url: "http://l1.example:8545".to_string(),
        rollup_node_rpc_url: "http://rollup.example:7545".to_string(),
        output_oracle_address: address.to_string(),
        mnemonic: "test test test".to_string(),
        output_private_key: "0x01".to_string(),
    }
}

fn cli() -> Cli {
    Cli {
        l1_client_rpc_url: None,
        rollup_node_rpc_url: Some("http://cli-rollup:7545".to_string()),
        output_oracle_address: None,
        polling_interval: 2,
        num_confirmation: 2,
        safe_abort_nonce_too_low: 2,
        resubmission_timeout: 2,
        mnemonic: None,
        output_private_key: Some("cli-key".to_string()),
        output_hd_path: "m/44'/60'/0'/0/0".to_string(),
        allow_non_finalized: true,
    }
}

fn deadbeef() -> [u8; 20] {
    let mut a = [0u8; 20];
    a[16] = 0xde;
    a[17] = 0xad;
    a[18] = 0xbe;
    a[19] = 0xef;
    a
}

#[test]
fn default_config_from_env() {
    let c = Config::from_env(env(ADDRESS)).ok().unwrap();
    assert_eq!(c.l1_client_rpc_url, "http://l1.example:8545");
    assert_eq!(c.output_oracle_address, deadbeef());
    assert_eq!(c.get_output_oracle_address(), deadbeef());
    assert_eq!((c.polling_interval.secs(), c.polling_interval.subsec_nanos()), (5, 0));
    assert_eq!(c.num_confirmation, 1);
    assert_eq!(c.safe_abort_nonce_too_low, 3);
    assert_eq!(c.resubmission_timeout.secs(), 60);
    assert_eq!(c.output_hd_path, "m/44'/60'/0'/0/0");
    assert!(!c.allow_non_finalized);
    assert_eq!(c.mnemonic, "test test test");
}

#[test]
fn default_config_rejects_bad_address() {
    match Config::from_env(env("0x1234")) {
        Err(ConfigError::InvalidOutputOracleAddress(s)) => assert_eq!(s, "0x1234"),
        _ => panic!("expected an invalid address"),
    }
}

#[test]
fn cli_options_override_environment() {
    let c = Config::from_cli(cli(), env(ADDRESS)).ok().unwrap();
    assert_eq!(c.l1_client_rpc_url, "http://l1.example:8545");
    assert_eq!(c.rollup_node_rpc_url, "http://cli-rollup:7545");
    assert_eq!(c.output_oracle_address, deadbeef());
    assert_eq!(c.polling_interval.secs(), 2);
    assert_eq!(c.resubmission_timeout.secs(), 2);
    assert_eq!(c.mnemonic, "test test test");
    assert_eq!(c.output_private_key, "cli-key");
    assert!(c.allow_non_finalized);
}

#[test]
fn cli_with_bad_address_fails() {
    let mut o = cli();
    o.output_oracle_address = Some("not an address".to_string());
    match Config::from_cli(o, env(ADDRESS)) {
        Err(ConfigError::InvalidOutputOracleAddress(s)) => assert_eq!(s, "not an address"),
        _ => panic!("expected an invalid address"),
    }
}

#[test]
fn address_parsing() {
    assert_eq!(parse_address("00000000000000000000000000000000DEADBEEF"), Some(deadbeef()));
    assert_eq!(parse_address("0x0000 0000 0000 0000 0000 0000 0000 0000 dead beef\n"), Some(deadbeef()));
    assert_eq!(parse_address("0x00000000000000000000000000000000deadbee"), None);
    assert_eq!(parse_address("0x00000000000000000000000000000000deadbeef0"), None);
    assert_eq!(parse_address("0X00000000000000000000000000000000deadbeef"), None);
    assert_eq!(parse_address("0x00000000000000000000000000000000deadbeeg"), None);
    assert_eq!(parse_address(""), None);
}

#[test]
fn private_key_parsing() {
    let mut c = Config::from_env(env(ADDRESS)).ok().unwrap();
    c.output_private_key = format!("0x{}", "11".repeat(32));
    assert_eq!(c.get_output_private_key().ok(), Some([0x11u8; 32]));
    assert_eq!(parse_h256(&"ff".repeat(32)), Some([0xffu8; 32]));
    c.output_private_key = "0x01".to_string();
    match c.get_output_private_key() {
        Err(ConfigError::InvalidOutputPrivateKey(s)) => assert_eq!(s, "0x01"),
        _ => panic!("expected an invalid key"),
    }
}

#[test]
fn l1_client_url() {
    let mut c = Config::from_env(env(ADDRESS)).ok().unwrap();
    assert_eq!(c.get_l1_client().ok().unwrap().url(), "http://l1.example:8545/");
    c.l1_client_rpc_url = "not a url".to_string();
    assert!(matches!(c.get_l1_client(), Err(ConfigError::InvalidL1ClientUrl)));
}

#[test]
fn rollup_node_client_url() {
    let mut c = Config::from_env(env(ADDRESS)).ok().unwrap();
    assert_eq!(c.get_rollup_node_client().ok().unwrap().client().url(), "http://rollup.example:7545/");
    c.rollup_node_rpc_url = "::".to_string();
    assert!(matches!(c.get_rollup_node_client(), Err(ConfigError::InvalidRollupNodeRpcUrl)));
    match varro::common::RollupNode::from_url("no scheme".to_string()) {
        Err(varro::errors::RollupNodeError::RollupNodeInvalidUrl(u)) => assert_eq!(u, "no scheme"),
        _ => panic!("expected an invalid url"),
    }
}

#[test]
fn output_oracle_contract_at_configured_address() {
    let mut c = Config::from_env(env(ADDRESS)).ok().unwrap();
    let oracle = c.get_output_oracle_contract().ok().unwrap();
    assert_eq!(oracle.address(), deadbeef());
    assert_eq!(oracle.client().url(), "http://l1.example:8545/");
    c.l1_client_rpc_url = "".to_string();
    assert!(matches!(c.get_output_oracle_contract(), Err(ConfigError::InvalidL1ClientUrl)));
}

const KEY_ONE: &str = "0x0000000000000000000000000000000000000000000000000000000000000001";

fn address_of_key_one() -> [u8; 20] {
    let mut a = [0u8; 20];
    let hex = "7e5f4552091a69125d5dfcb7b8c2659029395bdf";
    for i in 0..20 {
        a[i] = u8::from_str_radix(&hex[2 * i..2 * i + 2], 16).unwrap();
    }
    a
}

#[test]
fn proposer_is_the_address_of_the_key() {
    let mut c = Config::from_env(env(ADDRESS)).ok().unwrap();
    c.output_private_key = KEY_ONE.to_string();
    assert_eq!(c.get_proposer().ok(), Some(address_of_key_one()));
    c.output_private_key = format!("0x{}", "00".repeat(32));
    assert!(matches!(c.get_proposer(), Err(ConfigError::InvalidOutputPrivateKey(_))));
    c.output_private_key = "0xFFFFFFFFFFFFFFFFFFFFFFFFFFFFFFFEBAAEDCE6AF48A03BBFD25E8CD0364141".to_string();
    assert!(matches!(c.get_proposer(), Err(ConfigError::InvalidOutputPrivateKey(_))));
    c.output_private_key = "0xFFFFFFFFFFFFFFFFFFFFFFFFFFFFFFFEBAAEDCE6AF48A03BBFD25E8CD0364140".to_string();
    assert!(c.get_proposer().is_ok());
}

#[test]
fn builder_from_config() {
    let mut c = Config::from_env(env(ADDRESS)).ok().unwrap();
    c.output_private_key = KEY_ONE.to_string();
    let b = VarroBuilder::<L1Client, RollupNode, OutputOracle, ()>::from_config(&c).ok().unwrap();
    assert_eq!(b.l1_client.as_ref().unwrap().url(), "http://l1.example:8545/");
    assert_eq!(b.rollup_node.as_ref().unwrap().client().url(), "http://rollup.example:7545/");
    assert_eq!(b.output_oracle.as_ref().unwrap().address(), deadbeef());
    assert_eq!(b.proposer, Some(address_of_key_one()));
    assert_eq!(b.allow_non_finalized, Some(false));
    assert_eq!(b.tx_backoff.map(|t| t.secs()), Some(60));
    assert_eq!(b.polling_interval.map(|t| t.secs()), Some(5));
    c.rollup_node_rpc_url = "nope".to_string();
    assert!(matches!(
        VarroBuilder::<L1Client, RollupNode, OutputOracle, ()>::from_config(&c),
        Err(ConfigError::InvalidRollupNodeRpcUrl)
    ));
    c.rollup_node_rpc_url = "http://rollup.example:7545".to_string();
    c.output_private_key = "0x01".to_string();
    assert!(matches!(
        VarroBuilder::<L1Client, RollupNode, OutputOracle, ()>::from_config(&c),
        Err(ConfigError::InvalidOutputPrivateKey(_))
    ));
}

#[test]
fn provider_url_is_the_parsed_url() {
    let mut c = Config::from_env(env(ADDRESS)).ok().unwrap();
    c.l1_client_rpc_url = "HTTP://L1.Example:8545/rpc".to_string();
    assert_eq!(c.get_l1_client().ok().unwrap().url(), "http://l1.example:8545/rpc");
}

#[test]
fn printed_key_parses_back() {
    let mut bytes = [0u8; 32];
    for (i, b) in bytes.iter_mut().enumerate() {
        *b = (i as u8).wrapping_mul(37).wrapping_add(5);
    }
    let printed = format!("{:#x}", ethers_core::types::H256::from(bytes));
    let mut c = Config::from_env(env(ADDRESS)).ok().unwrap();
    c.output_private_key = printed;
    assert_eq!(c.get_output_private_key().ok(), Some(bytes));
}
