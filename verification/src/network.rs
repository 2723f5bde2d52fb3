//! EVM network configuration: common fields, validation, and parent/child
//! inheritance where child values override parent defaults.

use vstd::prelude::*;
use vstd::string::StrSliceExecFns;
use crate::config::GasPriceCacheConfig;
use crate::errors::ConfigFileError;

verus! {

/// `p` is the start of `s`.
pub open spec fn spec_has_prefix(s: Seq<char>, p: Seq<char>) -> bool {
    s.len() >= p.len() && forall|i: int| 0 <= i < p.len() ==> s[i] == p[i]
}

/// A usable URL: one that names the http or https scheme.
pub open spec fn spec_is_valid_url(s: Seq<char>) -> bool {
    spec_has_prefix(s, seq!['h', 't', 't', 'p', ':', '/', '/']) || spec_has_prefix(
        s,
        seq!['h', 't', 't', 'p', 's', ':', '/', '/'],
    )
}

/// Whether `s` starts with `http://` or `https://`.
fn is_valid_url(s: &str) -> (r: bool)
    ensures
        r == spec_is_valid_url(s@),
{
    let n: usize = s.unicode_len();
    if n < 7 {
        return false;
    }
    if !(s.get_char(0) == 'h' && s.get_char(1) == 't' && s.get_char(2) == 't' && s.get_char(3)
        == 'p') {
        return false;
    }
    let c4 = s.get_char(4);
    if c4 == ':' {
        return s.get_char(5) == '/' && s.get_char(6) == '/';
    }
    if c4 == 's' {
        if n < 8 {
            return false;
        }
        return s.get_char(5) == ':' && s.get_char(6) == '/' && s.get_char(7) == '/';
    }
    false
}

/// Every URL of the series is valid.
pub open spec fn spec_all_urls_valid(urls: Seq<Seq<char>>) -> bool {
    forall|i: int| 0 <= i < urls.len() ==> spec_is_valid_url(#[trigger] urls[i])
}

/// Whether every URL of the series is valid.
fn all_urls_valid(urls: &Vec<String>) -> (r: bool)
    ensures
        r == spec_all_urls_valid(urls.deep_view()),
{
    let n: usize = urls.len();
    let mut i: usize = 0;
    while i < n
        invariant
            i <= n,
            n == urls@.len(),
            forall|j: int| 0 <= j < i ==> spec_is_valid_url(#[trigger] urls.deep_view()[j]),
        decreases n - i,
    {
        if !is_valid_url(urls[i].as_str()) {
            proof {
                assert(urls.deep_view()[i as int] == urls@[i as int]@);
            }
            return false;
        }
        i = i + 1;
    }
    true
}

/// `x` occurs in the series.
pub open spec fn spec_str_in(s: Seq<Seq<char>>, x: Seq<char>) -> bool {
    exists|i: int| 0 <= i < s.len() && s[i] == x
}

/// Whether `x` occurs in the vector.
fn vec_contains_string(v: &Vec<String>, x: &String) -> (r: bool)
    ensures
        r == spec_str_in(v.deep_view(), x@),
{
    let n: usize = v.len();
    let mut i: usize = 0;
    while i < n
        invariant
            i <= n,
            n == v@.len(),
            forall|j: int| 0 <= j < i ==> v.deep_view()[j] != x@,
        decreases n - i,
    {
        if v[i].eq(x) {
            proof {
                assert(v.deep_view()[i as int] == v@[i as int]@);
            }
            return true;
        }
        proof {
            assert(v.deep_view()[i as int] == v@[i as int]@);
        }
        i = i + 1;
    }
    false
}

/// Copies a vector of strings.
fn copy_string_vec(v: &Vec<String>) -> (r: Vec<String>)
    ensures
        r.deep_view() == v.deep_view(),
{
    let n: usize = v.len();
    let mut r: Vec<String> = Vec::new();
    let mut i: usize = 0;
    while i < n
        invariant
            i <= n,
            n == v@.len(),
            r@.len() == i,
            forall|j: int| 0 <= j < i ==> r.deep_view()[j] == v.deep_view()[j],
        decreases n - i,
    {
        r.push(v[i].clone());
        i = i + 1;
    }
    proof {
        assert(r.deep_view() =~= v.deep_view());
    }
    r
}

/// Copies an optional vector of strings.
fn copy_opt_string_vec(v: &Option<Vec<String>>) -> (r: Option<Vec<String>>)
    ensures
        r.deep_view() == v.deep_view(),
{
    match v {
        Option::Some(inner) => Option::Some(copy_string_vec(inner)),
        Option::None => Option::None,
    }
}

/// Copies an optional string.
fn copy_opt_string(v: &Option<String>) -> (r: Option<String>)
    ensures
        r.deep_view() == v.deep_view(),
{
    match v {
        Option::Some(inner) => Option::Some(inner.clone()),
        Option::None => Option::None,
    }
}

/// Appends to `acc` each element of `rest`, in order, that `acc` (as
/// grown so far) does not already hold.
pub open spec fn spec_append_unique(acc: Seq<Seq<char>>, rest: Seq<Seq<char>>) -> Seq<Seq<char>>
    decreases rest.len(),
{
    if rest.len() == 0 {
        acc
    } else {
        spec_append_unique(
            if spec_str_in(acc, rest[0]) {
                acc
            } else {
                acc.push(rest[0])
            },
            rest.drop_first(),
        )
    }
}

/// The merge of two optional string series: a lone side wins; with both
/// present, the parent's items come first and the child contributes what
/// is not already there.
pub open spec fn spec_merge_string_vecs(
    child: Option<Seq<Seq<char>>>,
    parent: Option<Seq<Seq<char>>>,
) -> Option<Seq<Seq<char>>> {
    match (child, parent) {
        (Option::None, Option::None) => Option::None,
        (Option::Some(c), Option::None) => Option::Some(c),
        (Option::None, Option::Some(p)) => Option::Some(p),
        (Option::Some(c), Option::Some(p)) => Option::Some(spec_append_unique(p, c)),
    }
}

/// Merges two optional string lists, parent items first, keeping each
/// item once.
pub fn merge_optional_string_vecs(child: &Option<Vec<String>>, parent: &Option<Vec<String>>) -> (r:
    Option<Vec<String>>)
    ensures
        r.deep_view() == spec_merge_string_vecs(child.deep_view(), parent.deep_view()),
{
    let c = match child {
        Option::Some(c) => c,
        Option::None => {
            return copy_opt_string_vec(parent);
        },
    };
    let p = match parent {
        Option::Some(p) => p,
        Option::None => {
            return Option::Some(copy_string_vec(c));
        },
    };
    let mut acc = copy_string_vec(p);
    let n: usize = c.len();
    let mut i: usize = 0;
    proof {
        assert(c.deep_view().skip(0) =~= c.deep_view());
    }
    while i < n
        invariant
            i <= n,
            n == c@.len(),
            spec_append_unique(p.deep_view(), c.deep_view()) == spec_append_unique(
                acc.deep_view(),
                c.deep_view().skip(i as int),
            ),
        decreases n - i,
    {
        let ghost pre = acc.deep_view();
        let ghost rest = c.deep_view().skip(i as int);
        proof {
            assert(rest.len() > 0);
            assert(rest[0] == c.deep_view()[i as int]);
            assert(rest.drop_first() =~= c.deep_view().skip(i + 1));
            assert(c.deep_view()[i as int] == c@[i as int]@);
        }
        if !vec_contains_string(&acc, &c[i]) {
            acc.push(c[i].clone());
            proof {
                assert(acc.deep_view() =~= pre.push(c@[i as int]@));
            }
        }
        i = i + 1;
    }
    proof {
        assert(c.deep_view().skip(n as int) =~= Seq::<Seq<char>>::empty());
    }
    Option::Some(acc)
}

/// The fields every network kind shares.
#[derive(Debug, Clone, PartialEq, Eq)]
pub struct NetworkConfigCommon {
    /// The network's name; required and non-empty.
    pub network: String,
    /// The name of the network this one inherits from, if any.
    pub from: Option<String>,
    /// The RPC endpoints; required for a standalone network.
    pub rpc_urls: Option<Vec<String>>,
    /// Block-explorer endpoints.
    pub explorer_urls: Option<Vec<String>>,
    /// The network's average block time in milliseconds.
    pub average_blocktime_ms: Option<u64>,
    /// Whether the network is a test network.
    pub is_testnet: Option<bool>,
    /// Free-form labels.
    pub tags: Option<Vec<String>>,
}

/// The mathematical content of a [`NetworkConfigCommon`].
#[verifier::ext_equal]
pub struct NetworkConfigCommonModel {
    pub network: Seq<char>,
    pub from: Option<Seq<char>>,
    pub rpc_urls: Option<Seq<Seq<char>>>,
    pub explorer_urls: Option<Seq<Seq<char>>>,
    pub average_blocktime_ms: Option<u64>,
    pub is_testnet: Option<bool>,
    pub tags: Option<Seq<Seq<char>>>,
}

impl View for NetworkConfigCommon {
    type V = NetworkConfigCommonModel;

    open spec fn view(&self) -> NetworkConfigCommonModel {
        NetworkConfigCommonModel {
            network: self.network@,
            from: self.from.deep_view(),
            rpc_urls: self.rpc_urls.deep_view(),
            explorer_urls: self.explorer_urls.deep_view(),
            average_blocktime_ms: self.average_blocktime_ms,
            is_testnet: self.is_testnet,
            tags: self.tags.deep_view(),
        }
    }
}

impl NetworkConfigCommonModel {
    /// The common fields pass validation: a name, RPC endpoints present,
    /// and every URL naming the http or https scheme.
    pub open spec fn is_valid(self) -> bool {
        &&& self.network.len() > 0
        &&& self.rpc_urls is Some
        &&& spec_all_urls_valid(self.rpc_urls.unwrap())
        &&& (self.explorer_urls is Some ==> spec_all_urls_valid(self.explorer_urls.unwrap()))
    }

    /// The merge of two common sections: the child keeps its identity (its
    /// name and `from`), inherits what it leaves unset, and tags merge.
    pub open spec fn spec_merge(self, parent: NetworkConfigCommonModel) -> NetworkConfigCommonModel {
        NetworkConfigCommonModel {
            network: self.network,
            from: self.from,
            rpc_urls: if self.rpc_urls is Some {
                self.rpc_urls
            } else {
                parent.rpc_urls
            },
            explorer_urls: if self.explorer_urls is Some {
                self.explorer_urls
            } else {
                parent.explorer_urls
            },
            average_blocktime_ms: if self.average_blocktime_ms is Some {
                self.average_blocktime_ms
            } else {
                parent.average_blocktime_ms
            },
            is_testnet: if self.is_testnet is Some {
                self.is_testnet
            } else {
                parent.is_testnet
            },
            tags: spec_merge_string_vecs(self.tags, parent.tags),
        }
    }
}

impl NetworkConfigCommon {
    /// Checks the shared fields: the name must be set, RPC endpoints must
    /// be present, and every URL must name the http or https scheme.
    pub fn validate(&self) -> (r: Result<(), ConfigFileError>)
        ensures
            r is Ok <==> self@.is_valid(),
            self@.network.len() == 0 ==> r matches Err(ConfigFileError::MissingField(_)),
            self@.network.len() > 0 && self@.rpc_urls is None ==> r matches Err(
                ConfigFileError::MissingField(_),
            ),
            self@.network.len() > 0 && self@.rpc_urls is Some && !self@.is_valid() ==> r matches Err(
                ConfigFileError::InvalidFormat(_),
            ),
    {
        if self.network.as_str().unicode_len() == 0 {
            return Err(ConfigFileError::MissingField(String::from_str("network")));
        }
        let rpc = match &self.rpc_urls {
            Option::Some(urls) => urls,
            Option::None => {
                return Err(ConfigFileError::MissingField(String::from_str("rpc_urls")));
            },
        };
        if !all_urls_valid(rpc) {
            return Err(
                ConfigFileError::InvalidFormat(
                    String::from_str("rpc_urls must use the http or https scheme"),
                ),
            );
        }
        if let Option::Some(explorer) = &self.explorer_urls {
            if !all_urls_valid(explorer) {
                return Err(
                    ConfigFileError::InvalidFormat(
                        String::from_str("explorer_urls must use the http or https scheme"),
                    ),
                );
            }
        }
        Ok(())
    }

    /// Merges with a parent section; the child's set fields win, its name
    /// and `from` are always kept, and tags merge parent-first.
    pub fn merge_with_parent(&self, parent: &Self) -> (r: Self)
        ensures
            r@ == self@.spec_merge(parent@),
    {
        let r = NetworkConfigCommon {
            network: self.network.clone(),
            from: copy_opt_string(&self.from),
            rpc_urls: if self.rpc_urls.is_some() {
                copy_opt_string_vec(&self.rpc_urls)
            } else {
                copy_opt_string_vec(&parent.rpc_urls)
            },
            explorer_urls: if self.explorer_urls.is_some() {
                copy_opt_string_vec(&self.explorer_urls)
            } else {
                copy_opt_string_vec(&parent.explorer_urls)
            },
            average_blocktime_ms: if self.average_blocktime_ms.is_some() {
                self.average_blocktime_ms
            } else {
                parent.average_blocktime_ms
            },
            is_testnet: if self.is_testnet.is_some() {
                self.is_testnet
            } else {
                parent.is_testnet
            },
            tags: merge_optional_string_vecs(&self.tags, &parent.tags),
        };
        proof {
            assert(r@ =~= self@.spec_merge(parent@));
        }
        r
    }
}

/// Configuration of one EVM-compatible network.
#[derive(Debug, Clone, PartialEq, Eq)]
pub struct EvmNetworkConfig {
    /// The fields every network kind shares.
    pub common: NetworkConfigCommon,
    /// The chain identifier; required for a standalone network.
    pub chain_id: Option<u64>,
    /// Confirmations before a transaction counts as final; required.
    pub required_confirmations: Option<u64>,
    /// Feature labels such as eip1559.
    pub features: Option<Vec<String>>,
    /// The native currency's symbol; required and non-empty.
    pub symbol: Option<String>,
    /// The gas-price cache settings for this network.
    pub gas_price_cache: Option<GasPriceCacheConfig>,
}

/// The mathematical content of an [`EvmNetworkConfig`].
#[verifier::ext_equal]
pub struct EvmNetworkConfigModel {
    pub common: NetworkConfigCommonModel,
    pub chain_id: Option<u64>,
    pub required_confirmations: Option<u64>,
    pub features: Option<Seq<Seq<char>>>,
    pub symbol: Option<Seq<char>>,
    pub gas_price_cache: Option<GasPriceCacheConfig>,
}

impl View for EvmNetworkConfig {
    type V = EvmNetworkConfigModel;

    open spec fn view(&self) -> EvmNetworkConfigModel {
        EvmNetworkConfigModel {
            common: self.common@,
            chain_id: self.chain_id,
            required_confirmations: self.required_confirmations,
            features: self.features.deep_view(),
            symbol: self.symbol.deep_view(),
            gas_price_cache: self.gas_price_cache,
        }
    }
}

impl EvmNetworkConfigModel {
    /// A valid EVM network: valid common fields, a chain id, a
    /// confirmation count, a non-empty symbol, and — if cache settings are
    /// given — valid freshness thresholds. Any 64-bit chain id is
    /// acceptable, zero and the largest included.
    pub open spec fn is_valid(self) -> bool {
        &&& self.common.is_valid()
        &&& self.chain_id is Some
        &&& self.required_confirmations is Some
        &&& self.symbol is Some
        &&& self.symbol.unwrap().len() > 0
        &&& (self.gas_price_cache is Some ==> self.gas_price_cache.unwrap().is_valid())
    }

    /// The merge of two EVM configurations: the child's set fields win,
    /// features merge parent-first, and the common section merges as
    /// [`NetworkConfigCommonModel::spec_merge`] says.
    pub open spec fn spec_merge(self, parent: EvmNetworkConfigModel) -> EvmNetworkConfigModel {
        EvmNetworkConfigModel {
            common: self.common.spec_merge(parent.common),
            chain_id: if self.chain_id is Some {
                self.chain_id
            } else {
                parent.chain_id
            },
            required_confirmations: if self.required_confirmations is Some {
                self.required_confirmations
            } else {
                parent.required_confirmations
            },
            features: spec_merge_string_vecs(self.features, parent.features),
            symbol: if self.symbol is Some {
                self.symbol
            } else {
                parent.symbol
            },
            gas_price_cache: if self.gas_price_cache is Some {
                self.gas_price_cache
            } else {
                parent.gas_price_cache
            },
        }
    }
}

impl EvmNetworkConfig {
    /// Checks the whole configuration, common fields first; a missing
    /// chain id, confirmation count or symbol is refused, as are invalid
    /// cache thresholds.
    pub fn validate(&self) -> (r: Result<(), ConfigFileError>)
        ensures
            r is Ok <==> self@.is_valid(),
            !self@.common.is_valid() && self@.common.network.len() == 0 ==> r matches Err(
                ConfigFileError::MissingField(_),
            ),
            self@.common.is_valid() && self@.chain_id is None ==> r matches Err(
                ConfigFileError::MissingField(_),
            ),
            self@.common.is_valid() && self@.chain_id is Some && self@.required_confirmations
                is None ==> r matches Err(ConfigFileError::MissingField(_)),
            self@.common.is_valid() && self@.chain_id is Some && self@.required_confirmations
                is Some && (self@.symbol is None || self@.symbol.unwrap().len() == 0)
                ==> r matches Err(ConfigFileError::MissingField(_)),
            self@.common.is_valid() && self@.chain_id is Some && self@.required_confirmations
                is Some && self@.symbol is Some && self@.symbol.unwrap().len() > 0
                && self@.gas_price_cache is Some && !self@.gas_price_cache.unwrap().is_valid()
                ==> r matches Err(ConfigFileError::InvalidFormat(_)),
    {
        match self.common.validate() {
            Ok(_) => {},
            Err(e) => {
                return Err(e);
            },
        }
        if self.chain_id.is_none() {
            return Err(ConfigFileError::MissingField(String::from_str("chain_id")));
        }
        if self.required_confirmations.is_none() {
            return Err(ConfigFileError::MissingField(String::from_str("required_confirmations")));
        }
        let symbol_ok: bool = match &self.symbol {
            Option::Some(s) => s.as_str().unicode_len() > 0,
            Option::None => false,
        };
        if !symbol_ok {
            return Err(ConfigFileError::MissingField(String::from_str("symbol")));
        }
        if let Option::Some(cache_config) = &self.gas_price_cache {
            match cache_config.validate() {
                Ok(_) => {},
                Err(e) => {
                    return Err(e);
                },
            }
        }
        Ok(())
    }

    /// Merges with a parent configuration, child values overriding parent
    /// defaults.
    pub fn merge_with_parent(&self, parent: &Self) -> (r: Self)
        ensures
            r@ == self@.spec_merge(parent@),
    {
        let r = EvmNetworkConfig {
            common: self.common.merge_with_parent(&parent.common),
            chain_id: if self.chain_id.is_some() {
                self.chain_id
            } else {
                parent.chain_id
            },
            required_confirmations: if self.required_confirmations.is_some() {
                self.required_confirmations
            } else {
                parent.required_confirmations
            },
            features: merge_optional_string_vecs(&self.features, &parent.features),
            symbol: if self.symbol.is_some() {
                copy_opt_string(&self.symbol)
            } else {
                copy_opt_string(&parent.symbol)
            },
            gas_price_cache: if self.gas_price_cache.is_some() {
                self.gas_price_cache
            } else {
                parent.gas_price_cache
            },
        };
        proof {
            assert(r@ =~= self@.spec_merge(parent@));
        }
        r
    }
}

} // verus!
