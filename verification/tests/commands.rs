use randao::commands::{BlockInfo, ContractOP, Network, TestMode};

fn net(s: &str) -> Result<Network, String> {
    Network::from_str(s)
}

#[test]
fn network_fixed_names() {
    assert!(matches!(net("local"), Ok(Network::Local)));
    assert!(matches!(net("anvil"), Ok(Network::Anvil)));
    assert!(matches!(net("main"), Ok(Network::Main)));
    assert!(matches!(net("test"), Ok(Network::Test)));
    assert_eq!(net("Local").unwrap_err(), "Invalid network");
    assert_eq!(net("").unwrap_err(), "Invalid network");
}

#[test]
fn network_qa_forms() {
    assert!(matches!(net("qa,01,02"), Ok(Network::Qa(1, Some(2)))));
    assert!(matches!(net("qa,7"), Ok(Network::Qa(7, None))));
    assert!(matches!(net("qa,+3,4294967295"), Ok(Network::Qa(3, Some(4294967295)))));
    assert_eq!(net("qa").unwrap_err(), "Please provide a cluster num at least");
    assert_eq!(net("qa1,2").unwrap_err(), "Just for qa environment");
    assert_eq!(net("qa,").unwrap_err(), "QA env num is a 32-bit integer");
    assert_eq!(net("qa,4294967296").unwrap_err(), "QA env num is a 32-bit integer");
    assert_eq!(net("qa,1,x").unwrap_err(), "Node num should be a 32-bit integer");
    assert_eq!(net("qa,1,2,3").unwrap_err(), "Node num should be a 32-bit integer");
}

#[test]
fn network_node_form() {
    match net("node,http://10.0.0.1:8545,x") {
        Ok(Network::Node(u)) => assert_eq!(u, "http://10.0.0.1:8545,x"),
        _ => panic!("expected a node"),
    }
    match net("nodes,abc") {
        Ok(Network::Node(u)) => assert_eq!(u, "abc"),
        _ => panic!("expected a node"),
    }
    assert_eq!(net("node").unwrap_err(), "Please provide a node");
}

#[test]
fn network_urls() {
    assert_eq!(Network::Local.get_url(), "http://localhost:8545");
    assert_eq!(Network::Anvil.get_url(), "https://prod-testnet.prod.findora.org:8545");
    assert_eq!(Network::Main.get_url(), "https://prod-mainnet.prod.findora.org:8545");
    assert_eq!(Network::Test.get_url(), "http://34.211.109.216:8545");
    assert_eq!(
        Network::Qa(1, Some(2)).get_url(),
        "http://dev-qa01-us-west-2-full-002-open.dev.findora.org:8545"
    );
    assert_eq!(Network::Qa(5, None).get_url(), "https://dev-qa05.dev.findora.org:8545");
    assert_eq!(Network::Qa(123, Some(4567)).get_url(), "http://dev-qa123-us-west-2-full-4567-open.dev.findora.org:8545");
    assert_eq!(Network::Node("http://x:1".to_string()).get_url(), "http://x:1");
}

#[test]
fn test_mode_is_case_insensitive() {
    assert_eq!(TestMode::from_str("basic"), Ok(TestMode::Basic));
    assert_eq!(TestMode::from_str("BaSiC"), Ok(TestMode::Basic));
    assert_eq!(TestMode::from_str("CONTRACT"), Ok(TestMode::Contract));
    assert_eq!(
        TestMode::from_str("basics"),
        Err("Invalid mode: basic and contract are supported".to_string())
    );
}

#[test]
fn contract_op_names() {
    assert_eq!(ContractOP::from_str("deploy"), Ok(ContractOP::Deploy));
    assert_eq!(ContractOP::from_str("call"), Ok(ContractOP::Call));
    assert_eq!(ContractOP::from_str("query"), Ok(ContractOP::Query));
    assert_eq!(ContractOP::from_str("Query"), Err("Invalid network".to_string()));
}

#[test]
fn block_info_line() {
    let b = BlockInfo {
        height: 10,
        timestamp: -5,
        txs: 3,
        valid_txs: 2,
        block_time: None,
        begin: 1,
        snapshot: 2,
        end: 30,
        commit: 4,
        commit_evm: 0,
    };
    assert_eq!(b.to_line(), "10,0,3,1,2,30,4,0");
    let b = BlockInfo { block_time: Some(16), ..b };
    assert_eq!(b.to_line(), "10,16,3,1,2,30,4,0");
}
