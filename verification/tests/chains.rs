use ethers::types::Address;
use skale_gasless::chains::{
    get_default_config, strip_hex_prefix, ChainConfig, NetworkType, SkaleChain,
};
use std::str::FromStr;

fn check(
    chain: SkaleChain,
    network_type: NetworkType,
    rpc_url: &str,
    chain_id: u64,
    function_signature: &str,
    target_address: &str,
) {
    let config = ChainConfig::new(chain, network_type);
    assert_eq!(config.chain, chain);
    assert_eq!(config.network_type, network_type);
    assert_eq!(config.rpc_url, rpc_url);
    assert_eq!(config.chain_id, chain_id);
    assert_eq!(config.function_signature, function_signature);
    let address = Address::from_str(target_address).unwrap();
    assert_eq!(Address::from(config.target_address), address);
}

#[test]
fn calypso_entries() {
    check(
        SkaleChain::Calypso,
        NetworkType::Mainnet,
        "https://mainnet.skalenodes.com/v1/honorable-steel-rasalhague",
        1564830818,
        "0x0c11dedd",
        "0x02891b34B7911A9C68e82C193cd7A6fBf0c3b30A",
    );
    check(
        SkaleChain::Calypso,
        NetworkType::Testnet,
        "https://testnet.skalenodes.com/v1/giant-half-dual-testnet",
        974399131,
        "0x0c11dedd",
        "0x62Fe932FF26e0087Ae383f6080bd2Ed481bA5A8A",
    );
}

#[test]
fn nebula_entries() {
    check(
        SkaleChain::Nebula,
        NetworkType::Mainnet,
        "https://mainnet.skalenodes.com/v1/green-giddy-denebola",
        1482601649,
        "0x0c11dedd",
        "0x5a6869ef5b81DCb58EBF51b8F893c31f5AFE3Fa8",
    );
    check(
        SkaleChain::Nebula,
        NetworkType::Testnet,
        "https://testnet.skalenodes.com/v1/lanky-ill-funny-testnet",
        37084624,
        "0x0c11dedd",
        "0x000E9c53C4e2e21F5063f2e232d0AA907318dccb",
    );
}

#[test]
fn titan_entries() {
    check(
        SkaleChain::Titan,
        NetworkType::Mainnet,
        "https://mainnet.skalenodes.com/v1/parallel-stormy-spica",
        1350216234,
        "0x0c11dedd",
        "0xa5C297dF8f8386E4b940D61EF9A8f2bB367a6fAB",
    );
    check(
        SkaleChain::Titan,
        NetworkType::Testnet,
        "https://testnet.skalenodes.com/v1/aware-fake-trim-testnet",
        1020352220,
        "0x0c11dedd",
        "0x08f98Af60eb83C18184231591A8F89577E46A4B9",
    );
}

#[test]
fn europa_entries() {
    check(
        SkaleChain::Europa,
        NetworkType::Mainnet,
        "https://mainnet.skalenodes.com/v1/elated-tan-skat",
        2046399126,
        "0x6a627842",
        "0x2B267A3e49b351DEdac892400a530ABb2f899d23",
    );
    check(
        SkaleChain::Europa,
        NetworkType::Testnet,
        "https://testnet.skalenodes.com/v1/juicy-low-small-testnet",
        1444673419,
        "0x0c11dedd",
        "0x366727B410fE55774C8b0B5b5A6E2d74199a088A",
    );
}

#[test]
fn names_join_chain_and_network() {
    let nebula = ChainConfig::new(SkaleChain::Nebula, NetworkType::Testnet);
    assert_eq!(nebula.name(), "SKALE Nebula Testnet");
    let europa = ChainConfig::new(SkaleChain::Europa, NetworkType::Mainnet);
    assert_eq!(europa.name(), "SKALE Europa Mainnet");
    let calypso = ChainConfig::new(SkaleChain::Calypso, NetworkType::Mainnet);
    assert_eq!(calypso.name(), "SKALE Calypso Mainnet");
    let titan = ChainConfig::new(SkaleChain::Titan, NetworkType::Testnet);
    assert_eq!(titan.name(), "SKALE Titan Testnet");
}

#[test]
fn signature_loses_its_prefix() {
    let nebula = ChainConfig::new(SkaleChain::Nebula, NetworkType::Testnet);
    assert_eq!(nebula.function_signature_without_prefix(), "0c11dedd");
    let europa = ChainConfig::new(SkaleChain::Europa, NetworkType::Mainnet);
    assert_eq!(europa.function_signature_without_prefix(), "6a627842");
    let mut bare = ChainConfig::new(SkaleChain::Titan, NetworkType::Mainnet);
    bare.function_signature = String::from("0c11dedd");
    assert_eq!(bare.function_signature_without_prefix(), "0c11dedd");
}

#[test]
fn strip_hex_prefix_cuts_only_a_leading_marker() {
    assert_eq!(strip_hex_prefix("0xab"), "ab");
    assert_eq!(strip_hex_prefix("0x"), "");
    assert_eq!(strip_hex_prefix("ab0x"), "ab0x");
    assert_eq!(strip_hex_prefix("0"), "0");
    assert_eq!(strip_hex_prefix(""), "");
    assert_eq!(strip_hex_prefix("0X12"), "0X12");
    assert_eq!(strip_hex_prefix("0x0x12"), "0x12");
}

#[test]
fn default_config_is_nebula_testnet() {
    let config = get_default_config();
    assert_eq!(config.chain, SkaleChain::Nebula);
    assert_eq!(config.network_type, NetworkType::Testnet);
    assert_eq!(config.chain_id, 37084624);
    assert_eq!(config.name(), "SKALE Nebula Testnet");
}
