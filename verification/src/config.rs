//! The configuration data model: the closed set of chain profiles, the
//! farmer and node sub-records, the cache description and the top-level
//! aggregate, together with the per-profile constructors.

use vstd::prelude::*;

verus! {

/// The fixed plot size offered when the operator accepts the default.
pub const DEFAULT_PLOT_SIZE: u64 = 100_000_000_000;

/// The fixed capacity of the farming cache; it is never prompted for.
pub const CACHE_SIZE: u64 = 1_000_000_000;

/// One of the closed set of supported network profiles.
///
/// Every place that constructs chain-dependent records matches on this enum
/// exhaustively, so a new profile cannot be added without also deciding its
/// constructors.
#[derive(Clone, Copy, Debug, PartialEq, Eq, Structural)]
pub enum ChainConfig {
    /// The production test network.
    Gemini3c,
    /// A development chain run as a single local node.
    Dev,
    /// A development network of several nodes.
    DevNet,
}

impl ChainConfig {
    /// Whether nodes on this chain carry an operator-chosen name: the
    /// single-node development chain does not, every other profile does.
    pub open spec fn spec_requires_node_name(self) -> bool {
        !(self is Dev)
    }

    pub fn requires_node_name(&self) -> (b: bool)
        ensures
            b == self.spec_requires_node_name(),
    {
        match self {
            ChainConfig::Dev => false,
            ChainConfig::Gemini3c => true,
            ChainConfig::DevNet => true,
        }
    }

    /// The canonical (lower-case) name of each profile.
    pub open spec fn spec_name(self) -> Seq<char> {
        match self {
            ChainConfig::Gemini3c => "gemini3c"@,
            ChainConfig::Dev => "dev"@,
            ChainConfig::DevNet => "devnet"@,
        }
    }

    pub fn name(&self) -> (s: &'static str)
        ensures
            s@ == self.spec_name(),
    {
        match self {
            ChainConfig::Gemini3c => "gemini3c",
            ChainConfig::Dev => "dev",
            ChainConfig::DevNet => "devnet",
        }
    }
}

/// The location and fixed capacity of the auxiliary farming cache.
pub struct CacheConfig {
    pub directory: String,
    pub size_bytes: u64,
}

/// The mathematical value of a [`CacheConfig`].
pub struct CacheConfigView {
    pub directory: Seq<char>,
    pub size_bytes: u64,
}

impl View for CacheConfig {
    type V = CacheConfigView;

    open spec fn view(&self) -> CacheConfigView {
        CacheConfigView { directory: self.directory@, size_bytes: self.size_bytes }
    }
}

impl CacheConfig {
    /// A cache description is well formed when its capacity is positive.
    pub open spec fn spec_wf(v: CacheConfigView) -> bool {
        v.size_bytes > 0
    }

    /// Builds a cache description; a zero capacity is rejected, so every
    /// value that leaves this constructor is well formed.
    pub fn new(directory: String, size_bytes: u64) -> (r: Result<CacheConfig, crate::errors::FatalError>)
        ensures
            (r is Ok) == (size_bytes > 0),
            r is Ok ==> r->Ok_0@ == (CacheConfigView { directory: directory@, size_bytes }),
            r is Ok ==> Self::spec_wf(r->Ok_0@),
            r is Err ==> r->Err_0 == crate::errors::FatalError::ConfigCreateFailed,
    {
        if size_bytes == 0 {
            Err(crate::errors::FatalError::ConfigCreateFailed)
        } else {
            Ok(CacheConfig { directory, size_bytes })
        }
    }
}

/// The alphabet that network addresses are written in: the base-58 set,
/// which leaves out `0`, `O`, `I` and `l`.
pub open spec fn is_base58_char(c: char) -> bool {
    let n = c as int;
    ('1' as int <= n && n <= '9' as int) || ('A' as int <= n && n <= 'Z' as int && c != 'I'
        && c != 'O') || ('a' as int <= n && n <= 'z' as int && c != 'l')
}

/// A well-formed reward address for the target networks: 47 or 48
/// characters of the base-58 alphabet, led by the network's `5`.
pub open spec fn valid_reward_address(s: Seq<char>) -> bool {
    &&& 47 <= s.len() <= 48
    &&& s[0] == '5'
    &&& forall|i: int| 0 <= i < s.len() ==> is_base58_char(#[trigger] s[i])
}

/// A well-formed node name: non-empty, at most 64 characters, each an
/// ASCII letter, digit, `-` or `_`.
pub open spec fn is_name_char(c: char) -> bool {
    let n = c as int;
    ('a' as int <= n && n <= 'z' as int) || ('A' as int <= n && n <= 'Z' as int) || ('0' as int
        <= n && n <= '9' as int) || c == '-' || c == '_'
}

pub open spec fn valid_node_name(s: Seq<char>) -> bool {
    &&& 1 <= s.len() <= 64
    &&& forall|i: int| 0 <= i < s.len() ==> is_name_char(#[trigger] s[i])
}

/// The farmer-side sub-record of the aggregate.
pub struct FarmerConfig {
    pub reward_address: String,
    pub plot_directory: String,
    pub plot_size: u64,
    pub cache: CacheConfig,
}

/// The mathematical value of a [`FarmerConfig`].
pub struct FarmerConfigView {
    pub reward_address: Seq<char>,
    pub plot_directory: Seq<char>,
    pub plot_size: u64,
    pub cache: CacheConfigView,
}

impl View for FarmerConfig {
    type V = FarmerConfigView;

    open spec fn view(&self) -> FarmerConfigView {
        FarmerConfigView {
            reward_address: self.reward_address@,
            plot_directory: self.plot_directory@,
            plot_size: self.plot_size,
            cache: self.cache@,
        }
    }
}

impl FarmerConfig {
    /// A farmer record is well formed when its reward address parses under
    /// the network address format, its plot size is positive and its cache
    /// is well formed.
    pub open spec fn spec_wf(v: FarmerConfigView) -> bool {
        &&& valid_reward_address(v.reward_address)
        &&& v.plot_size > 0
        &&& CacheConfig::spec_wf(v.cache)
    }
}

/// The node-side sub-record of the aggregate.
pub struct NodeConfig {
    pub directory: String,
    pub name: Option<String>,
    pub is_executor: bool,
}

/// The mathematical value of a [`NodeConfig`].
pub struct NodeConfigView {
    pub directory: Seq<char>,
    pub name: Option<Seq<char>>,
    pub is_executor: bool,
}

impl View for NodeConfig {
    type V = NodeConfigView;

    open spec fn view(&self) -> NodeConfigView {
        NodeConfigView {
            directory: self.directory@,
            name: match self.name {
                Some(ref n) => Some(n@),
                None => None,
            },
            is_executor: self.is_executor,
        }
    }
}

impl NodeConfig {
    /// A node record fits a chain profile when it carries a name exactly
    /// where the profile asks for one.
    pub open spec fn spec_fits(v: NodeConfigView, chain: ChainConfig) -> bool {
        (v.name is Some) == chain.spec_requires_node_name()
    }
}

/// What `build_farmer` produces: the farmer record that keeps each collected
/// value, whatever the profile; the profiles differ on the node side.
pub open spec fn spec_build_farmer(
    chain: ChainConfig,
    reward_address: Seq<char>,
    plot_directory: Seq<char>,
    plot_size: u64,
    cache: CacheConfigView,
) -> FarmerConfigView {
    FarmerConfigView { reward_address, plot_directory, plot_size, cache }
}

/// What `build_node` produces: the node name is kept on profiles that ask
/// for one and dropped on the single-node development chain.
pub open spec fn spec_build_node(
    chain: ChainConfig,
    directory: Seq<char>,
    node_name: Seq<char>,
    is_executor: bool,
) -> NodeConfigView {
    NodeConfigView {
        directory,
        name: if chain.spec_requires_node_name() {
            Some(node_name)
        } else {
            None
        },
        is_executor,
    }
}

impl FarmerConfig {
    /// The production test network's farmer constructor.
    pub fn gemini_3c(reward_address: String, plot_directory: String, plot_size: u64, cache: CacheConfig) -> (f: FarmerConfig)
        ensures
            f@ == spec_build_farmer(ChainConfig::Gemini3c, reward_address@, plot_directory@, plot_size, cache@),
    {
        FarmerConfig { reward_address, plot_directory, plot_size, cache }
    }

    /// The single-node development chain's farmer constructor.
    pub fn dev(reward_address: String, plot_directory: String, plot_size: u64, cache: CacheConfig) -> (f: FarmerConfig)
        ensures
            f@ == spec_build_farmer(ChainConfig::Dev, reward_address@, plot_directory@, plot_size, cache@),
    {
        FarmerConfig { reward_address, plot_directory, plot_size, cache }
    }

    /// The development network's farmer constructor.
    pub fn devnet(reward_address: String, plot_directory: String, plot_size: u64, cache: CacheConfig) -> (f: FarmerConfig)
        ensures
            f@ == spec_build_farmer(ChainConfig::DevNet, reward_address@, plot_directory@, plot_size, cache@),
    {
        FarmerConfig { reward_address, plot_directory, plot_size, cache }
    }
}

impl NodeConfig {
    /// The production test network's node constructor: the node is named.
    pub fn gemini_3c(directory: String, node_name: String, is_executor: bool) -> (n: NodeConfig)
        ensures
            n@ == spec_build_node(ChainConfig::Gemini3c, directory@, node_name@, is_executor),
    {
        NodeConfig { directory, name: Some(node_name), is_executor }
    }

    /// The single-node development chain's node constructor: no name.
    pub fn dev(directory: String, is_executor: bool) -> (n: NodeConfig)
        ensures
            forall|node_name: Seq<char>|
                n@ == #[trigger] spec_build_node(ChainConfig::Dev, directory@, node_name, is_executor),
    {
        NodeConfig { directory, name: None, is_executor }
    }

    /// The development network's node constructor: the node is named.
    pub fn devnet(directory: String, node_name: String, is_executor: bool) -> (n: NodeConfig)
        ensures
            n@ == spec_build_node(ChainConfig::DevNet, directory@, node_name@, is_executor),
    {
        NodeConfig { directory, name: Some(node_name), is_executor }
    }
}

/// Dispatches to the selected profile's farmer constructor. Total: every
/// profile has one, and the match is exhaustive.
pub fn build_farmer(chain: &ChainConfig, reward_address: String, plot_directory: String, plot_size: u64, cache: CacheConfig) -> (f: FarmerConfig)
    ensures
        f@ == spec_build_farmer(*chain, reward_address@, plot_directory@, plot_size, cache@),
{
    match chain {
        ChainConfig::Gemini3c => FarmerConfig::gemini_3c(reward_address, plot_directory, plot_size, cache),
        ChainConfig::Dev => FarmerConfig::dev(reward_address, plot_directory, plot_size, cache),
        ChainConfig::DevNet => FarmerConfig::devnet(reward_address, plot_directory, plot_size, cache),
    }
}

/// Dispatches to the selected profile's node constructor. Total: every
/// profile has one, and the match is exhaustive. The name collected at the
/// prompt is passed for every profile; the profile decides whether it is
/// kept.
pub fn build_node(chain: &ChainConfig, directory: String, node_name: String, is_executor: bool) -> (n: NodeConfig)
    ensures
        n@ == spec_build_node(*chain, directory@, node_name@, is_executor),
{
    match chain {
        ChainConfig::Gemini3c => NodeConfig::gemini_3c(directory, node_name, is_executor),
        ChainConfig::Dev => NodeConfig::dev(directory, is_executor),
        ChainConfig::DevNet => NodeConfig::devnet(directory, node_name, is_executor),
    }
}

/// The top-level persisted record: the selected chain profile and the two
/// sub-records built under it.
pub struct Config {
    pub chain: ChainConfig,
    pub farmer: FarmerConfig,
    pub node: NodeConfig,
}

/// The mathematical value of a [`Config`].
pub struct ConfigView {
    pub chain: ChainConfig,
    pub farmer: FarmerConfigView,
    pub node: NodeConfigView,
}

impl View for Config {
    type V = ConfigView;

    open spec fn view(&self) -> ConfigView {
        ConfigView { chain: self.chain, farmer: self.farmer@, node: self.node@ }
    }
}

impl Config {
    /// The aggregate's invariant: the farmer record is well formed and the
    /// node record carries a name exactly where the selected profile asks
    /// for one, so both sub-records come from the same profile's branch.
    pub open spec fn spec_wf(v: ConfigView) -> bool {
        &&& FarmerConfig::spec_wf(v.farmer)
        &&& NodeConfig::spec_fits(v.node, v.chain)
    }
}

/// For every chain profile, the constructor pair is defined and total:
/// given a valid reward address, a positive plot size and a well-formed
/// cache, the records they produce assemble into a well-formed aggregate —
/// whichever profile was selected.
pub proof fn lemma_build_total(
    chain: ChainConfig,
    reward_address: Seq<char>,
    plot_directory: Seq<char>,
    plot_size: u64,
    cache: CacheConfigView,
    node_directory: Seq<char>,
    node_name: Seq<char>,
    is_executor: bool,
)
    requires
        valid_reward_address(reward_address),
        plot_size > 0,
        CacheConfig::spec_wf(cache),
    ensures
        Config::spec_wf(
            ConfigView {
                chain,
                farmer: spec_build_farmer(chain, reward_address, plot_directory, plot_size, cache),
                node: spec_build_node(chain, node_directory, node_name, is_executor),
            },
        ),
{
}

} // verus!
