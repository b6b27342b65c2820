use std::sync::Arc;

use grin::chain::ChainStore;
use grin::chain::Commitment;
use grin::chain::Output;
use grin::chain::Tip;
use grin::endpoints::build_node_apis;
use grin::endpoints::build_wallet_apis;
use grin::endpoints::ApiError;
use grin::endpoints::ApiResponse;
use grin::endpoints::ApiServer;
use grin::endpoints::ChainApi;
use grin::endpoints::Endpoint;
use grin::endpoints::Operation;
use grin::endpoints::OutputApi;
use grin::endpoints::WalletReceiver;
use grin::keys::derive_wallet_key;

fn tip() -> Tip {
    Tip { height: 5, last_block_h: vec![1, 2], prev_block_h: vec![3, 4], total_difficulty: 100 }
}

fn populated_store() -> Arc<ChainStore> {
    let mut store = ChainStore::new();
    store.set_head(tip());
    store.add_output(Output { commit: Commitment::from_vec(vec![0x0a, 0xff]), proof: vec![9] });
    Arc::new(store)
}

#[test]
fn chain_endpoint_returns_the_tip() {
    let apis = build_node_apis(populated_store());
    let path = String::from("/chain");
    match apis.dispatch(&path, Operation::Get, "", "") {
        Ok(ApiResponse::Tip(t)) => assert_eq!(t.height, 5),
        _ => panic!("expected the chain tip"),
    }
}

#[test]
fn output_endpoint_returns_a_present_output() {
    let apis = build_node_apis(populated_store());
    let path = String::from("/chain/output");
    match apis.dispatch(&path, Operation::Get, "0aff", "") {
        Ok(ApiResponse::Output(o)) => assert_eq!(o.commit.bytes, vec![0x0a, 0xff]),
        _ => panic!("expected the stored output"),
    }
}

#[test]
fn absent_commitment_is_not_found_not_internal() {
    let apis = build_node_apis(populated_store());
    let path = String::from("/chain/output");
    let r = apis.dispatch(&path, Operation::Get, "0b0b", "");
    assert!(matches!(r, Err(ApiError::NotFound)));
}

#[test]
fn non_hex_commitment_is_invalid_argument() {
    let apis = build_node_apis(populated_store());
    let path = String::from("/chain/output");
    let r = apis.dispatch(&path, Operation::Get, "not-hex!", "");
    assert!(matches!(r, Err(ApiError::Argument)));
    // Also on an empty store: the identifier is rejected before any lookup.
    let apis = build_node_apis(Arc::new(ChainStore::new()));
    let r = apis.dispatch(&path, Operation::Get, "zz", "");
    assert!(matches!(r, Err(ApiError::Argument)));
}

#[test]
fn undeclared_operation_is_method_not_allowed() {
    let apis = build_node_apis(populated_store());
    let path = String::from("/chain");
    let r = apis.dispatch(&path, Operation::Create, "", "");
    assert!(matches!(r, Err(ApiError::MethodNotAllowed)));
    let r = apis.dispatch(&path, Operation::Delete, "", "");
    assert!(matches!(r, Err(ApiError::MethodNotAllowed)));
}

#[test]
fn unmounted_path_is_not_found() {
    let apis = build_node_apis(populated_store());
    let path = String::from("/nowhere");
    let r = apis.dispatch(&path, Operation::Get, "", "");
    assert!(matches!(r, Err(ApiError::NotFound)));
}

#[test]
fn headless_store_is_an_internal_failure() {
    let store = Arc::new(ChainStore::new());
    let api = ChainApi { chain_store: store };
    assert!(matches!(api.get(""), Err(ApiError::Internal)));
}

#[test]
fn duplicate_registration_fails_and_does_not_overwrite() {
    let store = populated_store();
    let mut apis = ApiServer::new(String::from("/v1"));
    apis.register_endpoint(
        String::from("/chain"),
        Endpoint::Chain(ChainApi { chain_store: store.clone() }),
    )
    .unwrap();
    // Registering a different endpoint at the same path must fail...
    let key = derive_wallet_key(Some("p")).unwrap();
    let r = apis.register_endpoint(
        String::from("/chain"),
        Endpoint::WalletReceive(WalletReceiver { key }),
    );
    assert!(r.is_err());
    // ...and must not be observable as a silently overwritten mount: the
    // original endpoint still answers, and a Create is still undeclared.
    let path = String::from("/chain");
    assert!(matches!(apis.dispatch(&path, Operation::Get, "", ""), Ok(ApiResponse::Tip(_))));
    assert!(matches!(
        apis.dispatch(&path, Operation::Create, "", ""),
        Err(ApiError::MethodNotAllowed)
    ));
}

#[test]
fn wallet_receiver_accepts_a_coinbase_request() {
    let key = derive_wallet_key(Some("wallet pass")).unwrap();
    let chain_code = key.chain_code.clone();
    let apis = build_wallet_apis(key);
    let path = String::from("/receive_coinbase");
    match apis.dispatch(&path, Operation::Create, "", "500") {
        Ok(ApiResponse::Coinbase(cb)) => {
            assert_eq!(cb.amount, 500);
            assert_eq!(cb.key_id, chain_code);
        },
        _ => panic!("expected a coinbase acknowledgment"),
    }
}

#[test]
fn wallet_receiver_rejects_get_and_bad_bodies() {
    let key = derive_wallet_key(Some("wallet pass")).unwrap();
    let apis = build_wallet_apis(key);
    let path = String::from("/receive_coinbase");
    assert!(matches!(
        apis.dispatch(&path, Operation::Get, "", ""),
        Err(ApiError::MethodNotAllowed)
    ));
    assert!(matches!(
        apis.dispatch(&path, Operation::Create, "", "not a number"),
        Err(ApiError::Argument)
    ));
}

#[test]
fn endpoints_declare_their_operations() {
    let store = populated_store();
    let chain = ChainApi { chain_store: store.clone() };
    assert_eq!(chain.operations(), vec![Operation::Get]);
    let key = derive_wallet_key(Some("p")).unwrap();
    let recv = WalletReceiver { key };
    assert_eq!(recv.operations(), vec![Operation::Create]);
    let ep = Endpoint::Output(OutputApi { chain_store: store });
    assert_eq!(ep.operations(), vec![Operation::Get]);
}
