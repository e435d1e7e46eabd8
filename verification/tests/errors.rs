use randao::error::{handle_error, parse_error, ContractError, Error, InternalError};

#[test]
fn error_messages() {
    assert_eq!(Error::CheckChainErr.message(), "chain id check failed");
    assert_eq!(Error::GetNumCampaignsErr.message(), "Get numCampaigns faild");
    assert_eq!(Error::CheckCampaignsInfoErr.message(), "Check campaigns info faild");
    assert_eq!(Error::Unknown("boom".to_string()).message(), "a unknown error happened: boom");
    assert_eq!(
        Error::TxInternalErr(InternalError::InvalidNonce("n \"1\"".to_string())).message(),
        "Internal Error:: InvalidNonce(\"n \\\"1\\\"\")"
    );
    assert_eq!(
        Error::TxInternalErr(InternalError::Other("x".to_string())).message(),
        "Internal Error:: Other(\"x\")"
    );
}

#[test]
fn parse_error_classifies_by_first_marker() {
    assert!(matches!(parse_error(Some("rpc broadcast_tx_sync failed")), Error::GetNumCampaignsErr));
    assert!(matches!(parse_error(Some("Transaction check error: x")), Error::CheckChainErr));
    assert!(matches!(parse_error(Some("error sending request for url")), Error::CheckCampaignsInfoErr));
    match parse_error(Some("InternalError: InvalidNonce 3")) {
        Error::TxInternalErr(InternalError::InvalidNonce(s)) => assert_eq!(s, "InternalError: InvalidNonce 3"),
        e => panic!("unexpected {:?}", e),
    }
    match parse_error(Some("InternalError: gas")) {
        Error::TxInternalErr(InternalError::Other(s)) => assert_eq!(s, "InternalError: gas"),
        e => panic!("unexpected {:?}", e),
    }
    // earlier markers win
    assert!(matches!(
        parse_error(Some("InternalError broadcast_tx_sync")),
        Error::GetNumCampaignsErr
    ));
    match parse_error(Some("something else")) {
        Error::Unknown(s) => assert_eq!(s, "something else"),
        e => panic!("unexpected {:?}", e),
    }
    match parse_error(None) {
        Error::Unknown(s) => assert_eq!(s, "empty error"),
        e => panic!("unexpected {:?}", e),
    }
}

#[test]
fn contract_error_texts() {
    assert_eq!(handle_error(ContractError::InvalidOutputType("u".into())), "Invalid output type: u");
    assert_eq!(handle_error(ContractError::Abi("a".into())), "Abi error: a");
    assert_eq!(handle_error(ContractError::Api("b".into())), "Api error: b");
    assert_eq!(handle_error(ContractError::Deployment("c".into())), "Deployment error: c");
    assert_eq!(
        handle_error(ContractError::InterfaceUnsupported),
        "Contract does not support this interface."
    );
}
