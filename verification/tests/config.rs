use pool_price::config::{
    check_args, init_args, parse_address, same_text, AmmVariant, ConfigError, FeeTier, Network, PoolIdentity,
    Config,
};
use pool_price::report::{price_report, undefined_report};
use pool_price::token::U160;

fn args(words: &[&str]) -> Vec<String> {
    words.iter().map(|w| w.to_string()).collect()
}

fn a() -> Option<U160> {
    Some(U160::new(1, 2))
}

fn b() -> Option<U160> {
    Some(U160::new(3, 4))
}

#[test]
fn same_text_compares_character_by_character() {
    assert!(same_text("", ""));
    assert!(same_text("bnb", "bnb"));
    assert!(!same_text("bnb", "bnB"));
    assert!(!same_text("bnb", "bnbb"));
    assert!(!same_text("abc", "abd"));
    assert!(same_text("zürich", "zürich"));
}

#[test]
fn names_are_read_as_written() {
    assert_eq!(Network::parse("ethereum"), Some(Network::Ethereum));
    assert_eq!(Network::parse("polygon"), Some(Network::Polygon));
    assert_eq!(Network::parse("bnb"), Some(Network::Bnb));
    assert_eq!(Network::parse("Ethereum"), None);
    assert_eq!(Network::parse(""), None);
    assert_eq!(AmmVariant::parse("uniswapv2"), Some(AmmVariant::V2));
    assert_eq!(AmmVariant::parse("uniswapv3"), Some(AmmVariant::V3));
    assert_eq!(AmmVariant::parse("uniswapv4"), None);
}

#[test]
fn fee_tiers_are_the_three_known_ones() {
    assert_eq!(FeeTier::parse("500"), Some(FeeTier::Low));
    assert_eq!(FeeTier::parse("3000"), Some(FeeTier::Medium));
    assert_eq!(FeeTier::parse("10000"), Some(FeeTier::High));
    assert_eq!(FeeTier::parse("0500"), None);
    assert_eq!(FeeTier::parse("100"), None);
    assert_eq!(FeeTier::Low.units(), 500);
    assert_eq!(FeeTier::Medium.units(), 3000);
    assert_eq!(FeeTier::High.units(), 10000);
    assert_eq!(FeeTier::from_units(500), Some(FeeTier::Low));
    assert_eq!(FeeTier::from_units(3000), Some(FeeTier::Medium));
    assert_eq!(FeeTier::from_units(10000), Some(FeeTier::High));
    assert_eq!(FeeTier::from_units(0), None);
    assert_eq!(FeeTier::from_units(501), None);
}

#[test]
fn swap_signatures_by_model() {
    assert_eq!(
        AmmVariant::V2.swap_event_signature(),
        "Swap(address,uint256,uint256,uint256,uint256,address)"
    );
    assert_eq!(
        AmmVariant::V3.swap_event_signature(),
        "Swap(address,address,int256,int256,uint160,uint128,int24)"
    );
}

#[test]
fn a_constant_product_selection() {
    let r = check_args(&args(&["prog", "ethereum", "uniswapv2", "0xa", "0xb"]), a(), b());
    assert_eq!(
        r,
        Ok(Config {
            network: Network::Ethereum,
            uniswap_version: AmmVariant::V2,
            token_address_a: U160::new(1, 2),
            token_address_b: U160::new(3, 4),
            fee: None,
        })
    );
}

#[test]
fn a_concentrated_liquidity_selection() {
    let r = check_args(
        &args(&["prog", "polygon", "uniswapv3", "0xa", "0xb", "3000"]),
        a(),
        b(),
    );
    assert_eq!(
        r,
        Ok(Config {
            network: Network::Polygon,
            uniswap_version: AmmVariant::V3,
            token_address_a: U160::new(1, 2),
            token_address_b: U160::new(3, 4),
            fee: Some(FeeTier::Medium),
        })
    );
    let identity = r.unwrap().identify(U160::new(0, 77));
    assert_eq!(
        identity,
        PoolIdentity {
            network: Network::Polygon,
            variant: AmmVariant::V3,
            pool_address: U160::new(0, 77),
            fee: Some(FeeTier::Medium),
        }
    );
}

#[test]
fn wrong_argument_counts_are_refused() {
    for words in [
        &["prog"][..],
        &["prog", "ethereum"][..],
        &["prog", "ethereum", "uniswapv2"][..],
        &["prog", "ethereum", "uniswapv2", "0xa"][..],
        &["prog", "ethereum", "uniswapv2", "0xa", "0xb", "500"][..],
        &["prog", "ethereum", "uniswapv3", "0xa", "0xb"][..],
        &["prog", "ethereum", "uniswapv3", "0xa", "0xb", "500", "x"][..],
    ] {
        assert_eq!(check_args(&args(words), a(), b()), Err(ConfigError::ArgumentCount));
    }
    assert_eq!(check_args(&Vec::new(), a(), b()), Err(ConfigError::ArgumentCount));
}

#[test]
fn an_unknown_model_is_refused() {
    let r = check_args(&args(&["prog", "ethereum", "sushiswap", "0xa", "0xb"]), a(), b());
    assert_eq!(r, Err(ConfigError::UnsupportedDex));
}

#[test]
fn constant_product_is_offered_on_ethereum_alone() {
    for network in ["polygon", "bnb", "solana"] {
        let r = check_args(&args(&["prog", network, "uniswapv2", "0xa", "0xb"]), a(), b());
        assert_eq!(r, Err(ConfigError::ConstantProductOffEthereum));
    }
}

#[test]
fn an_unknown_network_is_refused() {
    let r = check_args(
        &args(&["prog", "solana", "uniswapv3", "0xa", "0xb", "500"]),
        a(),
        b(),
    );
    assert_eq!(r, Err(ConfigError::UnsupportedNetwork));
}

#[test]
fn unreadable_addresses_are_refused_first_token_first() {
    let words = args(&["prog", "bnb", "uniswapv3", "zz", "yy", "1"]);
    assert_eq!(check_args(&words, None, None), Err(ConfigError::InvalidTokenA));
    assert_eq!(check_args(&words, None, b()), Err(ConfigError::InvalidTokenA));
    assert_eq!(check_args(&words, a(), None), Err(ConfigError::InvalidTokenB));
    assert_eq!(check_args(&words, a(), b()), Err(ConfigError::InvalidFee));
}

#[test]
fn an_unknown_fee_is_refused() {
    let r = check_args(
        &args(&["prog", "ethereum", "uniswapv3", "0xa", "0xb", "2500"]),
        a(),
        b(),
    );
    assert_eq!(r, Err(ConfigError::InvalidFee));
}

#[test]
fn a_report_shows_both_directions() {
    let text = price_report("12:34:56", "2.000000000000000000", "0.500000000000000000");
    assert_eq!(
        text,
        "\n[12:34:56] Price of token A in terms of B: 2.000000000000000000\n[12:34:56] Price of token B in terms of A: 0.500000000000000000"
    );
}

#[test]
fn an_undefined_report_names_no_number() {
    assert_eq!(
        undefined_report("00:00:01"),
        "\n[00:00:01] Price of token A in terms of B: undefined\n[00:00:01] Price of token B in terms of A: undefined"
    );
}

#[test]
fn endpoints_end_in_the_key() {
    assert_eq!(Network::Ethereum.rpc_url("k1"), "https://eth-mainnet.g.alchemy.com/v2/k1");
    assert_eq!(Network::Polygon.rpc_url("k2"), "https://polygon-mainnet.g.alchemy.com/v2/k2");
    assert_eq!(Network::Bnb.rpc_url("k3"), "https://blue-practical-patron.bsc.quiknode.pro/k3");
    assert_eq!(Network::Ethereum.ws_endpoint("k1"), "wss://eth-mainnet.g.alchemy.com/v2/k1");
    assert_eq!(Network::Polygon.ws_endpoint("k2"), "wss://polygon-mainnet.g.alchemy.com/v2/k2");
    assert_eq!(Network::Bnb.ws_endpoint(""), "wss://blue-practical-patron.bsc.quiknode.pro/");
}

#[test]
fn environment_variables_by_chain_and_model() {
    assert_eq!(Network::Ethereum.api_key_variable(), "ETH_ALCHEMY_API_KEY");
    assert_eq!(Network::Polygon.api_key_variable(), "POL_ALCHEMY_API_KEY");
    assert_eq!(Network::Bnb.api_key_variable(), "BNB_QUICKNODE_API_KEY");
    assert_eq!(
        AmmVariant::V2.factory_variable(Network::Ethereum),
        "UNISWAP_V2_FACTORY_ADDRESS_ETHEREUM"
    );
    assert_eq!(
        AmmVariant::V3.factory_variable(Network::Ethereum),
        "UNISWAP_V3_FACTORY_ADDRESS_ETHEREUM"
    );
    assert_eq!(
        AmmVariant::V3.factory_variable(Network::Polygon),
        "UNISWAP_V3_FACTORY_ADDRESS_POLYGON"
    );
    assert_eq!(AmmVariant::V3.factory_variable(Network::Bnb), "UNISWAP_V3_FACTORY_ADDRESS_BNB");
}

#[test]
fn every_refusal_has_its_message() {
    assert_eq!(ConfigError::ArgumentCount.message(), "Invalid number of arguments");
    assert_eq!(ConfigError::UnsupportedDex.message(), "Unsupported DEX");
    assert_eq!(
        ConfigError::ConstantProductOffEthereum.message(),
        "Uniswap V2 only supports the Ethereum network"
    );
    assert_eq!(
        ConfigError::UnsupportedNetwork.message(),
        "Uniswap V3 supports Ethereum, Polygon, and BNB networks"
    );
    assert_eq!(ConfigError::InvalidTokenA.message(), "Invalid token address format for token A");
    assert_eq!(ConfigError::InvalidTokenB.message(), "Invalid token address format for token B");
    assert_eq!(ConfigError::InvalidFee.message(), "Invalid fee specified for Uniswap V3");
}

#[test]
fn addresses_are_read_from_hexadecimal() {
    assert_eq!(
        parse_address("0xC02aaA39b223FE8D0A0e5C4F27eAD9083C756Cc2"),
        Some(U160::new(0xC02a_aA39, 0xb223_FE8D_0A0e_5C4F_27eA_D908_3C75_6Cc2))
    );
    assert_eq!(
        parse_address("a0b86991c6218b36c1d19d4a2e9eb0ce3606eb48"),
        Some(U160::new(0xa0b8_6991, 0xc621_8b36_c1d1_9d4a_2e9e_b0ce_3606_eb48))
    );
    assert_eq!(
        parse_address("0x0000000000000000000000000000000000000001"),
        Some(U160::new(0, 1))
    );
    assert_eq!(parse_address(""), None);
    assert_eq!(parse_address("0x"), None);
    assert_eq!(parse_address("0x1234"), None);
    assert_eq!(parse_address("0xZ02aaA39b223FE8D0A0e5C4F27eAD9083C756Cc2"), None);
    assert_eq!(parse_address("0xC02aaA39b223FE8D0A0e5C4F27eAD9083C756Cc200"), None);
}

#[test]
fn init_args_reads_the_addresses_itself() {
    let words = args(&[
        "prog",
        "ethereum",
        "uniswapv2",
        "0xC02aaA39b223FE8D0A0e5C4F27eAD9083C756Cc2",
        "0xA0b86991c6218b36c1d19D4a2e9Eb0cE3606eB48",
    ]);
    assert_eq!(
        init_args(&words),
        Ok(Config {
            network: Network::Ethereum,
            uniswap_version: AmmVariant::V2,
            token_address_a: U160::new(0xC02a_aA39, 0xb223_FE8D_0A0e_5C4F_27eA_D908_3C75_6Cc2),
            token_address_b: U160::new(0xA0b8_6991, 0xc621_8b36_c1d1_9D4a_2e9E_b0cE_3606_eB48),
            fee: None,
        })
    );
    let config = init_args(&words).unwrap();
    assert!(config.token_address_b.lt(&config.token_address_a));
}

#[test]
fn init_args_refuses_what_is_no_address() {
    let bad_a = args(&["prog", "ethereum", "uniswapv2", "0x12", "0xA0b86991c6218b36c1d19D4a2e9Eb0cE3606eB48"]);
    assert_eq!(init_args(&bad_a), Err(ConfigError::InvalidTokenA));
    let bad_b = args(&["prog", "ethereum", "uniswapv2", "0xA0b86991c6218b36c1d19D4a2e9Eb0cE3606eB48", "token"]);
    assert_eq!(init_args(&bad_b), Err(ConfigError::InvalidTokenB));
    let both = args(&["prog", "bnb", "uniswapv3", "x", "y", "500"]);
    assert_eq!(init_args(&both), Err(ConfigError::InvalidTokenA));
    let fee = args(&[
        "prog",
        "bnb",
        "uniswapv3",
        "0xC02aaA39b223FE8D0A0e5C4F27eAD9083C756Cc2",
        "0xA0b86991c6218b36c1d19D4a2e9Eb0cE3606eB48",
        "1",
    ]);
    assert_eq!(init_args(&fee), Err(ConfigError::InvalidFee));
    assert_eq!(init_args(&args(&["prog"])), Err(ConfigError::ArgumentCount));
    assert_eq!(
        init_args(&args(&["prog", "ethereum", "other", "x", "y"])),
        Err(ConfigError::UnsupportedDex)
    );
}
