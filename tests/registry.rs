use admin_server::address::Address;
use admin_server::registry::{
    add_token_finish, add_token_start, add_token_with_count, build_token, storage_unavailable,
    AddTokenRequest, HandlerError, Step, Token,
};

fn usdc(id: Option<u16>) -> AddTokenRequest {
    let mut bytes = [0u8; 20];
    bytes[19] = 0xab;
    AddTokenRequest { id, address: Address { bytes }, symbol: "USDC".to_string(), decimals: 6 }
}

#[test]
fn explicit_id_round_trips() {
    let req = usdc(Some(7));
    let token = match add_token_start(&req) {
        Step::Store(t) => t,
        Step::QueryCount => panic!("an explicit id needs no count"),
    };
    let stored = add_token_finish(token, Ok(())).unwrap();
    assert_eq!(stored.id, 7);
    assert_eq!(stored.address, req.address);
    assert_eq!(stored.symbol, "USDC");
    assert_eq!(stored.decimals, 6);
}

#[test]
fn missing_id_takes_the_count() {
    let req = usdc(None);
    assert!(matches!(add_token_start(&req), Step::QueryCount));
    let token = add_token_with_count(&req, Ok(3)).unwrap();
    assert_eq!(token.id, 3);
    let stored = add_token_finish(token, Ok(())).unwrap();
    assert_eq!(stored.id, 3);
    assert_eq!(stored.symbol, "USDC");
}

#[test]
fn concurrent_requests_without_id_can_get_the_same_id() {
    let a = usdc(None);
    let mut b = usdc(None);
    b.symbol = "DAI".to_string();
    b.decimals = 18;
    let ta = add_token_with_count(&a, Ok(5)).unwrap();
    let tb = add_token_with_count(&b, Ok(5)).unwrap();
    assert_eq!(ta.id, 5);
    assert_eq!(tb.id, 5);
}

#[test]
fn explicit_id_wins_over_count() {
    let req = usdc(Some(9));
    assert_eq!(add_token_with_count(&req, Ok(3)).unwrap().id, 9);
}

#[test]
fn count_is_truncated_to_sixteen_bits() {
    let req = usdc(None);
    assert_eq!(add_token_with_count(&req, Ok(65536 + 5)).unwrap().id, 5);
}

#[test]
fn count_failure_is_a_storage_error() {
    let req = usdc(None);
    let err = add_token_with_count(&req, Err("connection reset".to_string())).unwrap_err();
    assert_eq!(err, HandlerError::StorageRead("connection reset".to_string()));
    assert_eq!(err.status(), 500);
    assert_eq!(err.public_message(), "storage layer error");
    assert_eq!(err.detail(), "connection reset");
}

#[test]
fn persist_failure_hides_the_cause() {
    let token = build_token(&usdc(None), 4);
    let err = add_token_finish(token, Err("duplicate key value violates unique constraint".to_string()))
        .unwrap_err();
    assert!(matches!(err, HandlerError::StorageWrite(_)));
    assert_eq!(err.status(), 500);
    let body = err.public_message();
    assert_eq!(body, "storage layer error");
    assert!(!body.contains("duplicate"));
    assert_eq!(err.detail(), "duplicate key value violates unique constraint");
}

#[test]
fn unreachable_storage_is_a_storage_error() {
    let err = storage_unavailable("pool exhausted".to_string());
    assert_eq!(err, HandlerError::StorageAccess("pool exhausted".to_string()));
    assert_eq!(err.status(), 500);
    assert_eq!(err.public_message(), "storage layer error");
}

#[test]
fn build_token_copies_fields() {
    let req = usdc(None);
    let t = build_token(&req, 12);
    assert_eq!(
        t,
        Token { id: 12, address: req.address, symbol: "USDC".to_string(), decimals: 6 }
    );
}
