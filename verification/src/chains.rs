//! The chains a gas request can go to, and what is fixed for each of them.

use crate::miner::AddressBytes;
use vstd::prelude::*;
use vstd::string::*;

verus! {

/// A supported chain.
#[derive(Clone, Copy, Debug, PartialEq, Eq, Structural)]
pub enum SkaleChain {
    Calypso,
    Nebula,
    Titan,
    Europa,
}

/// The network of a chain.
#[derive(Clone, Copy, Debug, PartialEq, Eq, Structural)]
pub enum NetworkType {
    Mainnet,
    Testnet,
}

/// What is fixed for one chain on one network.
#[derive(Clone, Debug)]
pub struct ChainConfig {
    pub chain: SkaleChain,
    pub network_type: NetworkType,
    pub rpc_url: String,
    pub chain_id: u64,
    /// Selector of the contract function that hands out gas, as `0x` and hex digits.
    pub function_signature: String,
    /// Address of the contract that hands out gas.
    pub target_address: AddressBytes,
}

/// The endpoint of a chain on a network.
pub open spec fn rpc_url_of(chain: SkaleChain, network_type: NetworkType) -> Seq<char> {
    match (chain, network_type) {
        (SkaleChain::Calypso, NetworkType::Mainnet) => "https://mainnet.skalenodes.com/v1/honorable-steel-rasalhague"@,
        (SkaleChain::Calypso, NetworkType::Testnet) => "https://testnet.skalenodes.com/v1/giant-half-dual-testnet"@,
        (SkaleChain::Nebula, NetworkType::Mainnet) => "https://mainnet.skalenodes.com/v1/green-giddy-denebola"@,
        (SkaleChain::Nebula, NetworkType::Testnet) => "https://testnet.skalenodes.com/v1/lanky-ill-funny-testnet"@,
        (SkaleChain::Titan, NetworkType::Mainnet) => "https://mainnet.skalenodes.com/v1/parallel-stormy-spica"@,
        (SkaleChain::Titan, NetworkType::Testnet) => "https://testnet.skalenodes.com/v1/aware-fake-trim-testnet"@,
        (SkaleChain::Europa, NetworkType::Mainnet) => "https://mainnet.skalenodes.com/v1/elated-tan-skat"@,
        (SkaleChain::Europa, NetworkType::Testnet) => "https://testnet.skalenodes.com/v1/juicy-low-small-testnet"@,
    }
}

/// The identifier of a chain on a network.
pub open spec fn chain_id_of(chain: SkaleChain, network_type: NetworkType) -> u64 {
    match (chain, network_type) {
        (SkaleChain::Calypso, NetworkType::Mainnet) => 1564830818,
        (SkaleChain::Calypso, NetworkType::Testnet) => 974399131,
        (SkaleChain::Nebula, NetworkType::Mainnet) => 1482601649,
        (SkaleChain::Nebula, NetworkType::Testnet) => 37084624,
        (SkaleChain::Titan, NetworkType::Mainnet) => 1350216234,
        (SkaleChain::Titan, NetworkType::Testnet) => 1020352220,
        (SkaleChain::Europa, NetworkType::Mainnet) => 2046399126,
        (SkaleChain::Europa, NetworkType::Testnet) => 1444673419,
    }
}

/// The function selector used on a chain on a network.
pub open spec fn function_signature_of(chain: SkaleChain, network_type: NetworkType) -> Seq<char> {
    match (chain, network_type) {
        (SkaleChain::Europa, NetworkType::Mainnet) => "0x6a627842"@,
        _ => "0x0c11dedd"@,
    }
}

/// The contract address on a chain on a network.
pub open spec fn target_address_of(chain: SkaleChain, network_type: NetworkType) -> Seq<u8> {
    match (chain, network_type) {
        (SkaleChain::Calypso, NetworkType::Mainnet) => seq![
            0x02, 0x89, 0x1b, 0x34, 0xb7, 0x91, 0x1a, 0x9c, 0x68, 0xe8,
            0x2c, 0x19, 0x3c, 0xd7, 0xa6, 0xfb, 0xf0, 0xc3, 0xb3, 0x0a,
        ],
        (SkaleChain::Calypso, NetworkType::Testnet) => seq![
            0x62, 0xfe, 0x93, 0x2f, 0xf2, 0x6e, 0x00, 0x87, 0xae, 0x38,
            0x3f, 0x60, 0x80, 0xbd, 0x2e, 0xd4, 0x81, 0xba, 0x5a, 0x8a,
        ],
        (SkaleChain::Nebula, NetworkType::Mainnet) => seq![
            0x5a, 0x68, 0x69, 0xef, 0x5b, 0x81, 0xdc, 0xb5, 0x8e, 0xbf,
            0x51, 0xb8, 0xf8, 0x93, 0xc3, 0x1f, 0x5a, 0xfe, 0x3f, 0xa8,
        ],
        (SkaleChain::Nebula, NetworkType::Testnet) => seq![
            0x00, 0x0e, 0x9c, 0x53, 0xc4, 0xe2, 0xe2, 0x1f, 0x50, 0x63,
            0xf2, 0xe2, 0x32, 0xd0, 0xaa, 0x90, 0x73, 0x18, 0xdc, 0xcb,
        ],
        (SkaleChain::Titan, NetworkType::Mainnet) => seq![
            0xa5, 0xc2, 0x97, 0xdf, 0x8f, 0x83, 0x86, 0xe4, 0xb9, 0x40,
            0xd6, 0x1e, 0xf9, 0xa8, 0xf2, 0xbb, 0x36, 0x7a, 0x6f, 0xab,
        ],
        (SkaleChain::Titan, NetworkType::Testnet) => seq![
            0x08, 0xf9, 0x8a, 0xf6, 0x0e, 0xb8, 0x3c, 0x18, 0x18, 0x42,
            0x31, 0x59, 0x1a, 0x8f, 0x89, 0x57, 0x7e, 0x46, 0xa4, 0xb9,
        ],
        (SkaleChain::Europa, NetworkType::Mainnet) => seq![
            0x2b, 0x26, 0x7a, 0x3e, 0x49, 0xb3, 0x51, 0xde, 0xda, 0xc8,
            0x92, 0x40, 0x0a, 0x53, 0x0a, 0xbb, 0x2f, 0x89, 0x9d, 0x23,
        ],
        (SkaleChain::Europa, NetworkType::Testnet) => seq![
            0x36, 0x67, 0x27, 0xb4, 0x10, 0xfe, 0x55, 0x77, 0x4c, 0x8b,
            0x0b, 0x5b, 0x5a, 0x6e, 0x2d, 0x74, 0x19, 0x9a, 0x08, 0x8a,
        ],
    }
}

/// The name of a chain.
pub open spec fn chain_name_of(chain: SkaleChain) -> Seq<char> {
    match chain {
        SkaleChain::Calypso => "Calypso"@,
        SkaleChain::Nebula => "Nebula"@,
        SkaleChain::Titan => "Titan"@,
        SkaleChain::Europa => "Europa"@,
    }
}

/// The name of a network.
pub open spec fn network_name_of(network_type: NetworkType) -> Seq<char> {
    match network_type {
        NetworkType::Mainnet => "Mainnet"@,
        NetworkType::Testnet => "Testnet"@,
    }
}

/// A text without its leading `0x`, or the whole text where it has none.
pub open spec fn without_hex_prefix(text: Seq<char>) -> Seq<char> {
    if text.len() >= 2 && text[0] == '0' && text[1] == 'x' {
        text.subrange(2, text.len() as int)
    } else {
        text
    }
}

/// Cuts a leading `0x` off a text.
pub fn strip_hex_prefix(text: &str) -> (out: String)
    ensures
        out@ == without_hex_prefix(text@),
{
    let len = text.unicode_len();
    if len >= 2 && text.get_char(0) == '0' && text.get_char(1) == 'x' {
        text.substring_char(2, len).to_owned()
    } else {
        text.to_owned()
    }
}

fn rpc_url_text(chain: SkaleChain, network_type: NetworkType) -> (text: &'static str)
    ensures
        text@ == rpc_url_of(chain, network_type),
{
    match (chain, network_type) {
        (SkaleChain::Calypso, NetworkType::Mainnet) => "https://mainnet.skalenodes.com/v1/honorable-steel-rasalhague",
        (SkaleChain::Calypso, NetworkType::Testnet) => "https://testnet.skalenodes.com/v1/giant-half-dual-testnet",
        (SkaleChain::Nebula, NetworkType::Mainnet) => "https://mainnet.skalenodes.com/v1/green-giddy-denebola",
        (SkaleChain::Nebula, NetworkType::Testnet) => "https://testnet.skalenodes.com/v1/lanky-ill-funny-testnet",
        (SkaleChain::Titan, NetworkType::Mainnet) => "https://mainnet.skalenodes.com/v1/parallel-stormy-spica",
        (SkaleChain::Titan, NetworkType::Testnet) => "https://testnet.skalenodes.com/v1/aware-fake-trim-testnet",
        (SkaleChain::Europa, NetworkType::Mainnet) => "https://mainnet.skalenodes.com/v1/elated-tan-skat",
        (SkaleChain::Europa, NetworkType::Testnet) => "https://testnet.skalenodes.com/v1/juicy-low-small-testnet",
    }
}

fn target_address_bytes(chain: SkaleChain, network_type: NetworkType) -> (address: AddressBytes)
    ensures
        address@ == target_address_of(chain, network_type),
{
    let address: AddressBytes = match (chain, network_type) {
        (SkaleChain::Calypso, NetworkType::Mainnet) => [
            0x02, 0x89, 0x1b, 0x34, 0xb7, 0x91, 0x1a, 0x9c, 0x68, 0xe8,
            0x2c, 0x19, 0x3c, 0xd7, 0xa6, 0xfb, 0xf0, 0xc3, 0xb3, 0x0a,
        ],
        (SkaleChain::Calypso, NetworkType::Testnet) => [
            0x62, 0xfe, 0x93, 0x2f, 0xf2, 0x6e, 0x00, 0x87, 0xae, 0x38,
            0x3f, 0x60, 0x80, 0xbd, 0x2e, 0xd4, 0x81, 0xba, 0x5a, 0x8a,
        ],
        (SkaleChain::Nebula, NetworkType::Mainnet) => [
            0x5a, 0x68, 0x69, 0xef, 0x5b, 0x81, 0xdc, 0xb5, 0x8e, 0xbf,
            0x51, 0xb8, 0xf8, 0x93, 0xc3, 0x1f, 0x5a, 0xfe, 0x3f, 0xa8,
        ],
        (SkaleChain::Nebula, NetworkType::Testnet) => [
            0x00, 0x0e, 0x9c, 0x53, 0xc4, 0xe2, 0xe2, 0x1f, 0x50, 0x63,
            0xf2, 0xe2, 0x32, 0xd0, 0xaa, 0x90, 0x73, 0x18, 0xdc, 0xcb,
        ],
        (SkaleChain::Titan, NetworkType::Mainnet) => [
            0xa5, 0xc2, 0x97, 0xdf, 0x8f, 0x83, 0x86, 0xe4, 0xb9, 0x40,
            0xd6, 0x1e, 0xf9, 0xa8, 0xf2, 0xbb, 0x36, 0x7a, 0x6f, 0xab,
        ],
        (SkaleChain::Titan, NetworkType::Testnet) => [
            0x08, 0xf9, 0x8a, 0xf6, 0x0e, 0xb8, 0x3c, 0x18, 0x18, 0x42,
            0x31, 0x59, 0x1a, 0x8f, 0x89, 0x57, 0x7e, 0x46, 0xa4, 0xb9,
        ],
        (SkaleChain::Europa, NetworkType::Mainnet) => [
            0x2b, 0x26, 0x7a, 0x3e, 0x49, 0xb3, 0x51, 0xde, 0xda, 0xc8,
            0x92, 0x40, 0x0a, 0x53, 0x0a, 0xbb, 0x2f, 0x89, 0x9d, 0x23,
        ],
        (SkaleChain::Europa, NetworkType::Testnet) => [
            0x36, 0x67, 0x27, 0xb4, 0x10, 0xfe, 0x55, 0x77, 0x4c, 0x8b,
            0x0b, 0x5b, 0x5a, 0x6e, 0x2d, 0x74, 0x19, 0x9a, 0x08, 0x8a,
        ],
    };
    assert(address@ =~= target_address_of(chain, network_type));
    address
}

impl ChainConfig {
    /// Whether this is the entry of the table for its chain and network.
    pub open spec fn wf(&self) -> bool {
        &&& self.rpc_url@ == rpc_url_of(self.chain, self.network_type)
        &&& self.chain_id == chain_id_of(self.chain, self.network_type)
        &&& self.function_signature@ == function_signature_of(self.chain, self.network_type)
        &&& self.target_address@ == target_address_of(self.chain, self.network_type)
    }

    /// The entry of the table for a chain and a network.
    pub fn new(chain: SkaleChain, network_type: NetworkType) -> (config: ChainConfig)
        ensures
            config.chain == chain,
            config.network_type == network_type,
            config.wf(),
    {
        let chain_id: u64 = match (chain, network_type) {
            (SkaleChain::Calypso, NetworkType::Mainnet) => 1564830818,
            (SkaleChain::Calypso, NetworkType::Testnet) => 974399131,
            (SkaleChain::Nebula, NetworkType::Mainnet) => 1482601649,
            (SkaleChain::Nebula, NetworkType::Testnet) => 37084624,
            (SkaleChain::Titan, NetworkType::Mainnet) => 1350216234,
            (SkaleChain::Titan, NetworkType::Testnet) => 1020352220,
            (SkaleChain::Europa, NetworkType::Mainnet) => 2046399126,
            (SkaleChain::Europa, NetworkType::Testnet) => 1444673419,
        };
        let function_signature = match (chain, network_type) {
            (SkaleChain::Europa, NetworkType::Mainnet) => "0x6a627842",
            _ => "0x0c11dedd",
        };
        ChainConfig {
            chain,
            network_type,
            rpc_url: rpc_url_text(chain, network_type).to_owned(),
            chain_id,
            function_signature: function_signature.to_owned(),
            target_address: target_address_bytes(chain, network_type),
        }
    }

    /// The name to show: `SKALE`, the chain and the network, with one space
    /// between them.
    pub fn name(&self) -> (text: String)
        ensures
            text@ == "SKALE "@ + chain_name_of(self.chain) + " "@ + network_name_of(
                self.network_type,
            ),
    {
        let chain_name = match self.chain {
            SkaleChain::Calypso => "Calypso",
            SkaleChain::Nebula => "Nebula",
            SkaleChain::Titan => "Titan",
            SkaleChain::Europa => "Europa",
        };
        let network_name = match self.network_type {
            NetworkType::Mainnet => "Mainnet",
            NetworkType::Testnet => "Testnet",
        };
        let mut text = "SKALE ".to_owned();
        text.append(chain_name);
        text.append(" ");
        text.append(network_name);
        text
    }

    /// The function selector without its leading `0x`; the selector as it is
    /// where it has none.
    pub fn function_signature_without_prefix(&self) -> (text: String)
        ensures
            text@ == without_hex_prefix(self.function_signature@),
    {
        strip_hex_prefix(self.function_signature.as_str())
    }
}

/// The configuration used when none is chosen: Nebula on the test network.
pub fn get_default_config() -> (config: ChainConfig)
    ensures
        config.chain == SkaleChain::Nebula,
        config.network_type == NetworkType::Testnet,
        config.wf(),
{
    ChainConfig::new(SkaleChain::Nebula, NetworkType::Testnet)
}

} // verus!
