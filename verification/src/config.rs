use vstd::prelude::*;
use vstd::string::StrSliceExecFns;
use vstd::string::StringExecFns;
use crate::token::U160;
use crate::token::be_value;
use crate::token::words_of;
use ethers_core::types::H160;

verus! {

/// The chain that the pool lives on.
#[derive(Clone, Copy, Debug, PartialEq, Eq, Structural)]
pub enum Network {
    Ethereum,
    Polygon,
    Bnb,
}

/// The pricing model of the pool.
#[derive(Clone, Copy, Debug, PartialEq, Eq, Structural)]
pub enum AmmVariant {
    /// Constant product: the pool reports two reserves.
    V2,
    /// Concentrated liquidity: the pool reports a square-root price.
    V3,
}

/// The fee of a concentrated-liquidity pool, in millionths of the amount
/// traded.
#[derive(Clone, Copy, Debug, PartialEq, Eq, Structural)]
pub enum FeeTier {
    Low,
    Medium,
    High,
}

/// What identifies the monitored pool. A fee tier belongs to a
/// concentrated-liquidity pool and to no other.
#[derive(Clone, Copy, Debug, PartialEq, Eq, Structural)]
pub struct PoolIdentity {
    pub network: Network,
    pub variant: AmmVariant,
    pub pool_address: U160,
    pub fee: Option<FeeTier>,
}

/// Why a selection of network, model, tokens and fee is refused.
#[derive(Clone, Copy, Debug, PartialEq, Eq, Structural)]
pub enum ConfigError {
    /// The number of arguments does not suit the pricing model.
    ArgumentCount,
    /// The pricing model is neither of the two that are supported.
    UnsupportedDex,
    /// The constant-product model was asked for on a chain other than Ethereum.
    ConstantProductOffEthereum,
    /// The chain is none of those that are supported.
    UnsupportedNetwork,
    /// The first token's address could not be read.
    InvalidTokenA,
    /// The second token's address could not be read.
    InvalidTokenB,
    /// The fee is none of the three tiers.
    InvalidFee,
}

/// What to monitor: a selection of chain, model, tokens and fee that has
/// passed every check.
#[derive(Clone, Copy, Debug, PartialEq, Eq, Structural)]
pub struct Config {
    pub network: Network,
    pub uniswap_version: AmmVariant,
    pub token_address_a: U160,
    pub token_address_b: U160,
    pub fee: Option<FeeTier>,
}

/// The chain that a name stands for, if any. Names are matched as written.
pub open spec fn network_of(text: Seq<char>) -> Option<Network> {
    if text == "ethereum"@ {
        Some(Network::Ethereum)
    } else if text == "polygon"@ {
        Some(Network::Polygon)
    } else if text == "bnb"@ {
        Some(Network::Bnb)
    } else {
        None
    }
}

/// The pricing model that a name stands for, if any.
pub open spec fn variant_of(text: Seq<char>) -> Option<AmmVariant> {
    if text == "uniswapv2"@ {
        Some(AmmVariant::V2)
    } else if text == "uniswapv3"@ {
        Some(AmmVariant::V3)
    } else {
        None
    }
}

/// The fee tier that a decimal numeral stands for, if any.
pub open spec fn fee_of(text: Seq<char>) -> Option<FeeTier> {
    if text == "500"@ {
        Some(FeeTier::Low)
    } else if text == "3000"@ {
        Some(FeeTier::Medium)
    } else if text == "10000"@ {
        Some(FeeTier::High)
    } else {
        None
    }
}

/// The number of arguments, the program's own name included, that a pricing
/// model takes.
pub open spec fn arguments_for(variant: AmmVariant) -> nat {
    match variant {
        AmmVariant::V2 => 5,
        AmmVariant::V3 => 6,
    }
}

/// Whether a pricing model is offered on a chain: constant product on Ethereum
/// alone, concentrated liquidity on all three.
pub open spec fn offered_on(variant: AmmVariant, network: Network) -> bool {
    variant == AmmVariant::V3 || network == Network::Ethereum
}

/// The outcome of checking the arguments of a command line: the first check
/// that fails decides the error. The checks run in this order: enough arguments to name a model,
/// the count that the model takes, the model's name, the chain, the first
/// address, the second address, the fee.
pub open spec fn check_args_spec(
    args: Seq<Seq<char>>,
    address_a: Option<U160>,
    address_b: Option<U160>,
) -> Result<Config, ConfigError> {
    if args.len() < 3 {
        Err(ConfigError::ArgumentCount)
    } else {
        match variant_of(args[2]) {
            None => Err(ConfigError::UnsupportedDex),
            Some(variant) => if args.len() != arguments_for(variant) {
                Err(ConfigError::ArgumentCount)
            } else {
                match network_of(args[1]) {
                    None => Err(
                        if variant == AmmVariant::V2 {
                            ConfigError::ConstantProductOffEthereum
                        } else {
                            ConfigError::UnsupportedNetwork
                        },
                    ),
                    Some(network) => if !offered_on(variant, network) {
                        Err(ConfigError::ConstantProductOffEthereum)
                    } else if address_a is None {
                        Err(ConfigError::InvalidTokenA)
                    } else if address_b is None {
                        Err(ConfigError::InvalidTokenB)
                    } else if variant == AmmVariant::V3 && fee_of(args[5]) is None {
                        Err(ConfigError::InvalidFee)
                    } else {
                        Ok(
                            Config {
                                network,
                                uniswap_version: variant,
                                token_address_a: address_a->Some_0,
                                token_address_b: address_b->Some_0,
                                fee: if variant == AmmVariant::V3 {
                                    fee_of(args[5])
                                } else {
                                    None
                                },
                            },
                        )
                    },
                }
            },
        }
    }
}

/// The twenty bytes that a written address stands for, or `None` where the text
/// is no address: what `H160::from_str` of `ethers-core` makes of the text. It
/// reads hexadecimal digits, most significant first, after an optional `0x`.
pub uninterp spec fn parsed_address(text: Seq<char>) -> Option<Seq<u8>>;

/// The address that a text stands for, as a 160-bit quantity.
pub open spec fn address_of(text: Seq<char>) -> Option<U160> {
    match parsed_address(text) {
        Some(bytes) => Some(words_of(be_value(bytes))),
        None => None,
    }
}

/// The address that the argument at `index` stands for; `None` where there is
/// no such argument.
pub open spec fn address_at(args: Seq<Seq<char>>, index: int) -> Option<U160> {
    if 0 <= index < args.len() {
        address_of(args[index])
    } else {
        None
    }
}

/// The outcome of checking the arguments of a command line, the two token
/// addresses read from the fourth and the fifth of them.
pub open spec fn init_args_spec(args: Seq<Seq<char>>) -> Result<Config, ConfigError> {
    check_args_spec(args, address_at(args, 3), address_at(args, 4))
}

/// The event signature whose arrival marks a trade in a pool of the given
/// model.
pub open spec fn swap_signature_spec(variant: AmmVariant) -> Seq<char> {
    match variant {
        AmmVariant::V2 => "Swap(address,uint256,uint256,uint256,uint256,address)"@,
        AmmVariant::V3 => "Swap(address,address,int256,int256,uint160,uint128,int24)"@,
    }
}

/// Calls `H160::from_str` of `ethers-core` (the type is that of
/// `primitive-types`), by way of `str::parse`, and hands out the bytes of the
/// address it returns, or `None` where it returns an error. Trusted: the result is the one that
/// `parsed_address` names, which is to say that it depends on the text alone.
#[verifier::external_body]
fn read_address_bytes(text: &str) -> (r: Option<[u8; 20]>)
    ensures
        r is Some <==> parsed_address(text@) is Some,
        r matches Some(bytes) ==> parsed_address(text@) == Some(bytes@),
{
    match text.parse::<H160>() {
        Ok(address) => Some(address.0),
        Err(_) => None,
    }
}

/// Reads a token's address from its hexadecimal form.
pub fn parse_address(text: &str) -> (r: Option<U160>)
    ensures
        r == address_of(text@),
{
    match read_address_bytes(text) {
        Some(bytes) => Some(U160::from_be_bytes(&bytes)),
        None => None,
    }
}

/// Whether two texts are the same, character by character.
pub fn same_text(a: &str, b: &str) -> (r: bool)
    ensures
        r == (a@ == b@),
{
    let n = a.unicode_len();
    if n != b.unicode_len() {
        return false;
    }
    let mut i: usize = 0;
    while i < n
        invariant
            i <= n,
            n == a@.len(),
            n == b@.len(),
            forall|k: int| 0 <= k < i ==> a@[k] == b@[k],
        decreases n - i,
    {
        if a.get_char(i) != b.get_char(i) {
            return false;
        }
        i = i + 1;
    }
    assert(a@ =~= b@);
    true
}

impl Network {
    /// Reads a chain's name.
    pub fn parse(text: &str) -> (r: Option<Network>)
        ensures
            r == network_of(text@),
    {
        if same_text(text, "ethereum") {
            Some(Network::Ethereum)
        } else if same_text(text, "polygon") {
            Some(Network::Polygon)
        } else if same_text(text, "bnb") {
            Some(Network::Bnb)
        } else {
            None
        }
    }

    /// The address of the node's request endpoint, without the key.
    pub open spec fn rpc_prefix(self) -> Seq<char> {
        match self {
            Network::Ethereum => "https://eth-mainnet.g.alchemy.com/v2/"@,
            Network::Polygon => "https://polygon-mainnet.g.alchemy.com/v2/"@,
            Network::Bnb => "https://blue-practical-patron.bsc.quiknode.pro/"@,
        }
    }

    /// The address of the node's subscription endpoint, without the key.
    pub open spec fn ws_prefix(self) -> Seq<char> {
        match self {
            Network::Ethereum => "wss://eth-mainnet.g.alchemy.com/v2/"@,
            Network::Polygon => "wss://polygon-mainnet.g.alchemy.com/v2/"@,
            Network::Bnb => "wss://blue-practical-patron.bsc.quiknode.pro/"@,
        }
    }

    /// The name of the environment variable that holds the key to this
    /// chain's node.
    pub open spec fn api_key_variable_spec(self) -> Seq<char> {
        match self {
            Network::Ethereum => "ETH_ALCHEMY_API_KEY"@,
            Network::Polygon => "POL_ALCHEMY_API_KEY"@,
            Network::Bnb => "BNB_QUICKNODE_API_KEY"@,
        }
    }

    /// The name of the environment variable that holds the key to this
    /// chain's node.
    pub fn api_key_variable(&self) -> (r: &'static str)
        ensures
            r@ == self.api_key_variable_spec(),
    {
        match self {
            Network::Ethereum => "ETH_ALCHEMY_API_KEY",
            Network::Polygon => "POL_ALCHEMY_API_KEY",
            Network::Bnb => "BNB_QUICKNODE_API_KEY",
        }
    }

    /// The address to send requests to: the chain's endpoint followed by the
    /// key.
    pub fn rpc_url(&self, api_key: &str) -> (r: String)
        ensures
            r@ == self.rpc_prefix() + api_key@,
    {
        let mut out = String::from_str(
            match self {
                Network::Ethereum => "https://eth-mainnet.g.alchemy.com/v2/",
                Network::Polygon => "https://polygon-mainnet.g.alchemy.com/v2/",
                Network::Bnb => "https://blue-practical-patron.bsc.quiknode.pro/",
            },
        );
        out.append(api_key);
        out
    }

    /// The address to subscribe at: the chain's endpoint followed by the key.
    pub fn ws_endpoint(&self, api_key: &str) -> (r: String)
        ensures
            r@ == self.ws_prefix() + api_key@,
    {
        let mut out = String::from_str(
            match self {
                Network::Ethereum => "wss://eth-mainnet.g.alchemy.com/v2/",
                Network::Polygon => "wss://polygon-mainnet.g.alchemy.com/v2/",
                Network::Bnb => "wss://blue-practical-patron.bsc.quiknode.pro/",
            },
        );
        out.append(api_key);
        out
    }
}

/// The name of the environment variable that holds the address of the factory
/// contract of a model on a chain.
pub open spec fn factory_variable_spec(variant: AmmVariant, network: Network) -> Seq<char> {
    match (variant, network) {
        (AmmVariant::V2, _) => "UNISWAP_V2_FACTORY_ADDRESS_ETHEREUM"@,
        (AmmVariant::V3, Network::Ethereum) => "UNISWAP_V3_FACTORY_ADDRESS_ETHEREUM"@,
        (AmmVariant::V3, Network::Polygon) => "UNISWAP_V3_FACTORY_ADDRESS_POLYGON"@,
        (AmmVariant::V3, Network::Bnb) => "UNISWAP_V3_FACTORY_ADDRESS_BNB"@,
    }
}

impl AmmVariant {
    /// The name of the environment variable that holds the address of this
    /// model's factory contract on a chain. The constant-product model has one
    /// factory, on Ethereum.
    pub fn factory_variable(&self, network: Network) -> (r: &'static str)
        ensures
            r@ == factory_variable_spec(*self, network),
    {
        match (self, network) {
            (AmmVariant::V2, _) => "UNISWAP_V2_FACTORY_ADDRESS_ETHEREUM",
            (AmmVariant::V3, Network::Ethereum) => "UNISWAP_V3_FACTORY_ADDRESS_ETHEREUM",
            (AmmVariant::V3, Network::Polygon) => "UNISWAP_V3_FACTORY_ADDRESS_POLYGON",
            (AmmVariant::V3, Network::Bnb) => "UNISWAP_V3_FACTORY_ADDRESS_BNB",
        }
    }

    /// Reads a pricing model's name.
    pub fn parse(text: &str) -> (r: Option<AmmVariant>)
        ensures
            r == variant_of(text@),
    {
        if same_text(text, "uniswapv2") {
            Some(AmmVariant::V2)
        } else if same_text(text, "uniswapv3") {
            Some(AmmVariant::V3)
        } else {
            None
        }
    }

    /// The event signature to subscribe to for a pool of this model.
    pub fn swap_event_signature(&self) -> (r: &'static str)
        ensures
            r@ == swap_signature_spec(*self),
    {
        match self {
            AmmVariant::V2 => "Swap(address,uint256,uint256,uint256,uint256,address)",
            AmmVariant::V3 => "Swap(address,address,int256,int256,uint160,uint128,int24)",
        }
    }
}

impl FeeTier {
    /// The fee in millionths of the amount traded.
    pub open spec fn units_spec(self) -> u32 {
        match self {
            FeeTier::Low => 500,
            FeeTier::Medium => 3000,
            FeeTier::High => 10000,
        }
    }

    /// The fee in millionths of the amount traded.
    pub fn units(&self) -> (r: u32)
        ensures
            r == self.units_spec(),
    {
        match self {
            FeeTier::Low => 500,
            FeeTier::Medium => 3000,
            FeeTier::High => 10000,
        }
    }

    /// The tier with the given fee, if there is one.
    pub fn from_units(units: u32) -> (r: Option<FeeTier>)
        ensures
            r matches Some(t) ==> t.units_spec() == units,
            r is None <==> (units != 500 && units != 3000 && units != 10000),
    {
        if units == 500 {
            Some(FeeTier::Low)
        } else if units == 3000 {
            Some(FeeTier::Medium)
        } else if units == 10000 {
            Some(FeeTier::High)
        } else {
            None
        }
    }

    /// Reads a fee tier from its decimal numeral.
    pub fn parse(text: &str) -> (r: Option<FeeTier>)
        ensures
            r == fee_of(text@),
    {
        if same_text(text, "500") {
            Some(FeeTier::Low)
        } else if same_text(text, "3000") {
            Some(FeeTier::Medium)
        } else if same_text(text, "10000") {
            Some(FeeTier::High)
        } else {
            None
        }
    }
}

impl ConfigError {
    /// What to tell the user.
    pub open spec fn message_spec(self) -> Seq<char> {
        match self {
            ConfigError::ArgumentCount => "Invalid number of arguments"@,
            ConfigError::UnsupportedDex => "Unsupported DEX"@,
            ConfigError::ConstantProductOffEthereum => "Uniswap V2 only supports the Ethereum network"@,
            ConfigError::UnsupportedNetwork => "Uniswap V3 supports Ethereum, Polygon, and BNB networks"@,
            ConfigError::InvalidTokenA => "Invalid token address format for token A"@,
            ConfigError::InvalidTokenB => "Invalid token address format for token B"@,
            ConfigError::InvalidFee => "Invalid fee specified for Uniswap V3"@,
        }
    }

    /// What to tell the user.
    pub fn message(&self) -> (r: &'static str)
        ensures
            r@ == self.message_spec(),
    {
        match self {
            ConfigError::ArgumentCount => "Invalid number of arguments",
            ConfigError::UnsupportedDex => "Unsupported DEX",
            ConfigError::ConstantProductOffEthereum => "Uniswap V2 only supports the Ethereum network",
            ConfigError::UnsupportedNetwork => "Uniswap V3 supports Ethereum, Polygon, and BNB networks",
            ConfigError::InvalidTokenA => "Invalid token address format for token A",
            ConfigError::InvalidTokenB => "Invalid token address format for token B",
            ConfigError::InvalidFee => "Invalid fee specified for Uniswap V3",
        }
    }
}

impl PoolIdentity {
    /// A fee tier is there for a concentrated-liquidity pool and for no other,
    /// and the model is offered on the chain.
    pub open spec fn wf(self) -> bool {
        (self.fee is Some <==> self.variant == AmmVariant::V3) && offered_on(
            self.variant,
            self.network,
        )
    }
}

impl Config {
    /// A fee tier is there for the concentrated-liquidity model and for no
    /// other, and the model is offered on the chain.
    pub open spec fn wf(self) -> bool {
        (self.fee is Some <==> self.uniswap_version == AmmVariant::V3) && offered_on(
            self.uniswap_version,
            self.network,
        )
    }

    /// The identity of the pool that was found for this selection at
    /// `pool_address`.
    pub fn identify(&self, pool_address: U160) -> (r: PoolIdentity)
        ensures
            r == (PoolIdentity {
                network: self.network,
                variant: self.uniswap_version,
                pool_address,
                fee: self.fee,
            }),
            self.wf() ==> r.wf(),
    {
        PoolIdentity {
            network: self.network,
            variant: self.uniswap_version,
            pool_address,
            fee: self.fee,
        }
    }
}

/// The texts of a list of arguments.
pub open spec fn texts(args: Seq<String>) -> Seq<Seq<char>> {
    Seq::new(args.len(), |i: int| args[i]@)
}

/// Checks a command line: `args` as the process received them, the program's
/// own name first, and the two token addresses as far as they could be read.
///
/// The first check that fails decides the error; a selection that is returned
/// is well formed.
pub fn check_args(
    args: &Vec<String>,
    address_a: Option<U160>,
    address_b: Option<U160>,
) -> (r: Result<Config, ConfigError>)
    ensures
        r == check_args_spec(texts(args@), address_a, address_b),
        r matches Ok(s) ==> s.wf(),
{
    if args.len() < 3 {
        return Err(ConfigError::ArgumentCount);
    }
    assert(texts(args@)[1] == args@[1]@);
    assert(texts(args@)[2] == args@[2]@);
    let variant = match AmmVariant::parse(args[2].as_str()) {
        Some(v) => v,
        None => {
            return Err(ConfigError::UnsupportedDex);
        },
    };
    let expected: usize = match variant {
        AmmVariant::V2 => 5,
        AmmVariant::V3 => 6,
    };
    if args.len() != expected {
        return Err(ConfigError::ArgumentCount);
    }
    let is_v2 = match variant {
        AmmVariant::V2 => true,
        AmmVariant::V3 => false,
    };
    let network = match Network::parse(args[1].as_str()) {
        Some(n) => n,
        None => {
            if is_v2 {
                return Err(ConfigError::ConstantProductOffEthereum);
            } else {
                return Err(ConfigError::UnsupportedNetwork);
            }
        },
    };
    let on_ethereum = match network {
        Network::Ethereum => true,
        _ => false,
    };
    if is_v2 && !on_ethereum {
        return Err(ConfigError::ConstantProductOffEthereum);
    }
    let token_a = match address_a {
        Some(a) => a,
        None => {
            return Err(ConfigError::InvalidTokenA);
        },
    };
    let token_b = match address_b {
        Some(b) => b,
        None => {
            return Err(ConfigError::InvalidTokenB);
        },
    };
    let fee = if is_v2 {
        None
    } else {
        assert(texts(args@)[5] == args@[5]@);
        match FeeTier::parse(args[5].as_str()) {
            Some(t) => Some(t),
            None => {
                return Err(ConfigError::InvalidFee);
            },
        }
    };
    Ok(Config {
        network,
        uniswap_version: variant,
        token_address_a: token_a,
        token_address_b: token_b,
        fee,
    })
}

/// Checks a command line: `args` as the process received them, the program's
/// own name first. The two token addresses are read from the fourth and the
/// fifth argument; the rest is as in `check_args`.
pub fn init_args(args: &Vec<String>) -> (r: Result<Config, ConfigError>)
    ensures
        r == init_args_spec(texts(args@)),
        r matches Ok(s) ==> s.wf(),
{
    let address_a = if args.len() > 3 {
        assert(texts(args@)[3] == args@[3]@);
        parse_address(args[3].as_str())
    } else {
        None
    };
    let address_b = if args.len() > 4 {
        assert(texts(args@)[4] == args@[4]@);
        parse_address(args[4].as_str())
    } else {
        None
    };
    check_args(args, address_a, address_b)
}

} // verus!
