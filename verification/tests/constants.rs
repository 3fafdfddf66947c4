use kiteconnect::model::constants::{exchanges, order_types, products, transaction_types, validities};

#[test]
fn test_product_constants() {
    assert_eq!(products::BO, "BO");
    assert_eq!(products::CO, "CO");
    assert_eq!(products::MIS, "MIS");
    assert_eq!(products::CNC, "CNC");
    assert_eq!(products::NRML, "NRML");
    assert_eq!(products::MTF, "MTF");
}

#[test]
fn test_order_type_constants() {
    assert_eq!(order_types::MARKET, "MARKET");
    assert_eq!(order_types::LIMIT, "LIMIT");
    assert_eq!(order_types::SL, "SL");
    assert_eq!(order_types::SLM, "SL-M");
}

#[test]
fn test_exchange_constants() {
    assert_eq!(exchanges::NSE, "NSE");
    assert_eq!(exchanges::BSE, "BSE");
    assert_eq!(exchanges::MCX, "MCX");
    assert_eq!(exchanges::NFO, "NFO");
}

#[test]
fn test_transaction_type_constants() {
    assert_eq!(transaction_types::BUY, "BUY");
    assert_eq!(transaction_types::SELL, "SELL");
}

#[test]
fn test_validity_constants() {
    assert_eq!(validities::DAY, "DAY");
    assert_eq!(validities::IOC, "IOC");
    assert_eq!(validities::TTL, "TTL");
}
