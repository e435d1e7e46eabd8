//! Command-line vocabulary: test modes, target networks and contract
//! operations, parsed from their textual forms, and the endpoint of each network.
use vstd::prelude::*;
use crate::text::{
    chars_of, decimal, digits_value, eq_str, find_char, find_from, lemma_find_from_found,
    lower_eq, lower_eq_exec, parse_unsigned, parse_unsigned_range, push_decimal, push_padded,
    push_str, range_eq_str, slice_chars, starts_with, starts_with_exec, string_from_chars,
    pad_left,
};

verus! {

/// Which kind of load a test run sends.
#[derive(Debug, Clone, Copy, PartialEq, Eq, Structural)]
pub enum TestMode {
    Basic,
    Contract,
}

/// An Ethereum-compatible network to talk to.
#[derive(Debug)]
pub enum Network {
    Local,
    Anvil,
    Main,
    Test,
    /// A QA cluster, optionally one node of it.
    Qa(u32, Option<u32>),
    /// An explicit endpoint.
    Node(String),
}

/// The mathematical value of a `Network`.
pub enum NetworkView {
    Local,
    Anvil,
    Main,
    Test,
    Qa(u32, Option<u32>),
    Node(Seq<char>),
}

impl View for Network {
    type V = NetworkView;

    open spec fn view(&self) -> NetworkView {
        match self {
            Network::Local => NetworkView::Local,
            Network::Anvil => NetworkView::Anvil,
            Network::Main => NetworkView::Main,
            Network::Test => NetworkView::Test,
            Network::Qa(c, n) => NetworkView::Qa(*c, *n),
            Network::Node(u) => NetworkView::Node(u@),
        }
    }
}

/// What to do with a contract.
#[derive(Debug, Clone, Copy, PartialEq, Eq, Structural)]
pub enum ContractOP {
    Deploy,
    Call,
    Query,
}

/// The test mode named by `s`, case-insensitively.
pub open spec fn parse_test_mode(s: Seq<char>) -> Result<TestMode, Seq<char>> {
    if lower_eq(s, "basic"@) {
        Ok(TestMode::Basic)
    } else if lower_eq(s, "contract"@) {
        Ok(TestMode::Contract)
    } else {
        Err("Invalid mode: basic and contract are supported"@)
    }
}

/// The contract operation named by `s`.
pub open spec fn parse_contract_op(s: Seq<char>) -> Result<ContractOP, Seq<char>> {
    if s == "deploy"@ {
        Ok(ContractOP::Deploy)
    } else if s == "call"@ {
        Ok(ContractOP::Call)
    } else if s == "query"@ {
        Ok(ContractOP::Query)
    } else {
        Err("Invalid network"@)
    }
}

/// The cluster and optional node of `qa,<cluster>[,<node>]`, where `c1` is
/// the position of the first comma: the second segment runs to the next comma
/// or the end, and the third, if any, is all that follows that comma.
pub open spec fn parse_qa_numbers(s: Seq<char>, c1: int) -> Result<NetworkView, Seq<char>> {
    let (seg1, seg2) = match find_from(s, ',', c1 + 1) {
        None => (s.subrange(c1 + 1, s.len() as int), None::<Seq<char>>),
        Some(c2) => (s.subrange(c1 + 1, c2), Some(s.subrange(c2 + 1, s.len() as int))),
    };
    match parse_unsigned(seg1, u32::MAX as nat) {
        None => Err("QA env num is a 32-bit integer"@),
        Some(cluster) => match seg2 {
            None => Ok(NetworkView::Qa(cluster as u32, None)),
            Some(t) => match parse_unsigned(t, u32::MAX as nat) {
                Some(node) => Ok(NetworkView::Qa(cluster as u32, Some(node as u32))),
                None => Err("Node num should be a 32-bit integer"@),
            },
        },
    }
}

/// The network named by `s`: a fixed name, `qa,<cluster>[,<node>]` or `node,<url>`.
pub open spec fn parse_network(s: Seq<char>) -> Result<NetworkView, Seq<char>> {
    if s == "local"@ {
        Ok(NetworkView::Local)
    } else if s == "anvil"@ {
        Ok(NetworkView::Anvil)
    } else if s == "main"@ {
        Ok(NetworkView::Main)
    } else if s == "test"@ {
        Ok(NetworkView::Test)
    } else if starts_with(s, "qa"@) {
        match find_from(s, ',', 0) {
            None => Err("Please provide a cluster num at least"@),
            Some(c1) => if s.subrange(0, c1) != "qa"@ {
                Err("Just for qa environment"@)
            } else {
                parse_qa_numbers(s, c1)
            },
        }
    } else if starts_with(s, "node"@) {
        match find_from(s, ',', 0) {
            None => Err("Please provide a node"@),
            Some(c1) => Ok(NetworkView::Node(s.subrange(c1 + 1, s.len() as int))),
        }
    } else {
        Err("Invalid network"@)
    }
}

/// The endpoint URL of a network.
pub open spec fn network_url(n: NetworkView) -> Seq<char> {
    match n {
        NetworkView::Local => "http://localhost:8545"@,
        NetworkView::Anvil => "https://prod-testnet.prod.findora.org:8545"@,
        NetworkView::Main => "https://prod-mainnet.prod.findora.org:8545"@,
        NetworkView::Test => "http://34.211.109.216:8545"@,
        NetworkView::Qa(cluster, Some(node)) => "http://dev-qa"@ + pad_left(
            decimal(cluster as nat),
            2,
            '0',
        ) + "-us-west-2-full-"@ + pad_left(decimal(node as nat), 3, '0')
            + "-open.dev.findora.org:8545"@,
        NetworkView::Qa(cluster, None) => "https://dev-qa"@ + pad_left(decimal(cluster as nat), 2, '0')
            + ".dev.findora.org:8545"@,
        NetworkView::Node(url) => url,
    }
}

/// A `String` holding the characters of a literal.
fn owned(s: &str) -> (r: String)
    ensures
        r@ == s@,
{
    let v = chars_of(s);
    string_from_chars(&v)
}

/// Appends the decimal numeral of `x` right-aligned with zeros to `width`.
fn push_zero_padded(out: &mut Vec<char>, x: u32, width: usize)
    ensures
        final(out)@ == old(out)@ + pad_left(decimal(x as nat), width as nat, '0'),
{
    let mut digits: Vec<char> = Vec::new();
    push_decimal(&mut digits, x as u128);
    assert(digits@ == Seq::<char>::empty() + decimal(x as nat));
    push_padded(out, &digits, width, '0');
}

impl TestMode {
    /// Parses a test mode, ignoring ASCII case.
    pub fn from_str(s: &str) -> (r: Result<TestMode, String>)
        ensures
            r matches Ok(m) ==> parse_test_mode(s@) == Ok::<TestMode, Seq<char>>(m),
            r matches Err(e) ==> parse_test_mode(s@) == Err::<TestMode, Seq<char>>(e@),
    {
        let cs = chars_of(s);
        if lower_eq_exec(&cs, "basic") {
            Ok(TestMode::Basic)
        } else if lower_eq_exec(&cs, "contract") {
            Ok(TestMode::Contract)
        } else {
            Err(owned("Invalid mode: basic and contract are supported"))
        }
    }
}

impl ContractOP {
    /// Parses a contract operation.
    pub fn from_str(s: &str) -> (r: Result<ContractOP, String>)
        ensures
            r matches Ok(m) ==> parse_contract_op(s@) == Ok::<ContractOP, Seq<char>>(m),
            r matches Err(e) ==> parse_contract_op(s@) == Err::<ContractOP, Seq<char>>(e@),
    {
        let cs = chars_of(s);
        if eq_str(&cs, "deploy") {
            Ok(ContractOP::Deploy)
        } else if eq_str(&cs, "call") {
            Ok(ContractOP::Call)
        } else if eq_str(&cs, "query") {
            Ok(ContractOP::Query)
        } else {
            Err(owned("Invalid network"))
        }
    }
}

impl Network {
    /// Parses a network name: `local`, `anvil`, `main`, `test`,
    /// `qa,<cluster>[,<node>]` or `node,<url>`.
    pub fn from_str(s: &str) -> (r: Result<Network, String>)
        ensures
            r matches Ok(n) ==> parse_network(s@) == Ok::<NetworkView, Seq<char>>(n@),
            r matches Err(e) ==> parse_network(s@) == Err::<NetworkView, Seq<char>>(e@),
    {
        let cs = chars_of(s);
        if eq_str(&cs, "local") {
            return Ok(Network::Local);
        }
        if eq_str(&cs, "anvil") {
            return Ok(Network::Anvil);
        }
        if eq_str(&cs, "main") {
            return Ok(Network::Main);
        }
        if eq_str(&cs, "test") {
            return Ok(Network::Test);
        }
        if starts_with_exec(&cs, "qa") {
            let c1 = match find_char(&cs, ',', 0) {
                None => {
                    return Err(owned("Please provide a cluster num at least"));
                },
                Some(c1) => c1,
            };
            if !range_eq_str(&cs, 0, c1, "qa") {
                return Err(owned("Just for qa environment"));
            }
            proof {
                lemma_find_from_found(cs@, ',', 0);
            }
            let next = find_char(&cs, ',', c1 + 1);
            let seg1_end = match next {
                None => cs.len(),
                Some(c2) => c2,
            };
            proof {
                lemma_find_from_found(cs@, ',', c1 + 1);
            }
            let cluster = match parse_unsigned_range(&cs, c1 + 1, seg1_end, 0xffff_ffff) {
                None => {
                    return Err(owned("QA env num is a 32-bit integer"));
                },
                Some(v) => v as u32,
            };
            match next {
                None => {
                    return Ok(Network::Qa(cluster, None));
                },
                Some(c2) => {
                    match parse_unsigned_range(&cs, c2 + 1, cs.len(), 0xffff_ffff) {
                        None => {
                            return Err(owned("Node num should be a 32-bit integer"));
                        },
                        Some(node) => {
                            return Ok(Network::Qa(cluster, Some(node as u32)));
                        },
                    }
                },
            }
        }
        if starts_with_exec(&cs, "node") {
            match find_char(&cs, ',', 0) {
                None => {
                    return Err(owned("Please provide a node"));
                },
                Some(c1) => {
                    proof {
                        lemma_find_from_found(cs@, ',', 0);
                    }
                    let url = slice_chars(&cs, c1 + 1, cs.len());
                    return Ok(Network::Node(string_from_chars(&url)));
                },
            }
        }
        Err(owned("Invalid network"))
    }

    /// The endpoint URL of this network.
    pub fn get_url(&self) -> (r: String)
        ensures
            r@ == network_url(self@),
    {
        match self {
            Network::Local => owned("http://localhost:8545"),
            Network::Anvil => owned("https://prod-testnet.prod.findora.org:8545"),
            Network::Main => owned("https://prod-mainnet.prod.findora.org:8545"),
            Network::Test => owned("http://34.211.109.216:8545"),
            Network::Qa(cluster, node) => {
                let mut out: Vec<char> = Vec::new();
                match node {
                    Some(node) => {
                        push_str(&mut out, "http://dev-qa");
                        push_zero_padded(&mut out, *cluster, 2);
                        push_str(&mut out, "-us-west-2-full-");
                        push_zero_padded(&mut out, *node, 3);
                        push_str(&mut out, "-open.dev.findora.org:8545");
                    },
                    None => {
                        push_str(&mut out, "https://dev-qa");
                        push_zero_padded(&mut out, *cluster, 2);
                        push_str(&mut out, ".dev.findora.org:8545");
                    },
                }
                string_from_chars(&out)
            },
            Network::Node(url) => url.clone(),
        }
    }
}

/// Per-block timing figures of a node, as gathered from its logs.
#[derive(Debug, Default)]
pub struct BlockInfo {
    pub height: u64,
    pub timestamp: i64,
    pub txs: u64,
    pub valid_txs: u64,
    pub block_time: Option<u64>,
    pub begin: u64,
    pub snapshot: u64,
    pub end: u64,
    pub commit: u64,
    pub commit_evm: u64,
}

/// One CSV line: height, block time (0 when unknown), transactions, then the
/// begin, snapshot, end, commit and EVM-commit figures.
pub open spec fn block_info_line(b: BlockInfo) -> Seq<char> {
    decimal(b.height as nat) + ","@ + decimal(
        match b.block_time {
            Some(t) => t as nat,
            None => 0,
        },
    ) + ","@ + decimal(b.txs as nat) + ","@ + decimal(b.begin as nat) + ","@ + decimal(
        b.snapshot as nat,
    ) + ","@ + decimal(b.end as nat) + ","@ + decimal(b.commit as nat) + ","@ + decimal(
        b.commit_evm as nat,
    )
}

impl BlockInfo {
    /// The comma-separated form of the figures.
    pub fn to_line(&self) -> (r: String)
        ensures
            r@ == block_info_line(*self),
    {
        let block_time = match self.block_time {
            Some(t) => t,
            None => 0,
        };
        let mut out: Vec<char> = Vec::new();
        push_decimal(&mut out, self.height as u128);
        push_str(&mut out, ",");
        push_decimal(&mut out, block_time as u128);
        push_str(&mut out, ",");
        push_decimal(&mut out, self.txs as u128);
        push_str(&mut out, ",");
        push_decimal(&mut out, self.begin as u128);
        push_str(&mut out, ",");
        push_decimal(&mut out, self.snapshot as u128);
        push_str(&mut out, ",");
        push_decimal(&mut out, self.end as u128);
        push_str(&mut out, ",");
        push_decimal(&mut out, self.commit as u128);
        push_str(&mut out, ",");
        push_decimal(&mut out, self.commit_evm as u128);
        assert(out@ == Seq::<char>::empty() + block_info_line(*self));
        string_from_chars(&out)
    }
}

} // verus!
