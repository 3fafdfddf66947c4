use kiteconnect::model::gtt::{GTTMeta, GTTResponse, GTTType};
use kiteconnect::model::portfolio::ConvertPositionParams;
use kiteconnect::model::ticker::Mode;
use kiteconnect::model::user::{authorization_header_for, UserMeta, UserProfile};

#[test]
fn convert_position_params_new_keeps_fields() {
    let p = ConvertPositionParams::new(
        "NSE".to_string(),
        "INFY".to_string(),
        "MIS".to_string(),
        "CNC".to_string(),
        "day".to_string(),
        "BUY".to_string(),
        10,
    );
    assert_eq!(p.exchange, "NSE");
    assert_eq!(p.tradingsymbol, "INFY");
    assert_eq!(p.old_product, "MIS");
    assert_eq!(p.new_product, "CNC");
    assert_eq!(p.position_type, "day");
    assert_eq!(p.transaction_type, "BUY");
    assert_eq!(p.quantity, 10);
}

#[test]
fn plain_models() {
    assert_ne!(GTTType::Single, GTTType::TwoLeg);
    assert_ne!(Mode::LTP, Mode::Full);
    let r = GTTResponse { trigger_id: 123 };
    assert_eq!(r.trigger_id, 123);
    let m = GTTMeta { rejection_reason: None };
    assert!(m.rejection_reason.is_none());
}

#[test]
fn authorization_header_value() {
    assert_eq!(authorization_header_for("k", "t"), "token k:t");
}

#[test]
fn profile_permissions() {
    let p = UserProfile {
        user_id: "AB1234".to_string(),
        user_name: "A B".to_string(),
        user_shortname: "AB".to_string(),
        avatar_url: None,
        user_type: "individual".to_string(),
        email: "a@b.c".to_string(),
        broker: "ZERODHA".to_string(),
        meta: UserMeta { demat_consent: "consent".to_string() },
        products: vec!["CNC".to_string(), "MIS".to_string()],
        order_types: vec!["MARKET".to_string()],
        exchanges: vec!["NSE".to_string(), "BSE".to_string()],
    };
    assert!(p.has_exchange("BSE"));
    assert!(!p.has_exchange("MCX"));
    assert!(p.has_product("MIS"));
    assert!(!p.has_product("NRML"));
    assert!(p.has_order_type("MARKET"));
    assert!(!p.has_order_type("LIMIT"));
}

use kiteconnect::model::status::{
    status_is, upper_is, GTTState, InstrumentKind, OrderState, PositionQuantity, SipState, TradeSide,
};

#[test]
fn statuses_ignore_case() {
    assert!(status_is("COMPLETE", "complete"));
    assert!(!status_is("COMPLETED", "complete"));
    assert!(upper_is("buy", "BUY"));
    let o = OrderState { status: "OPEN".to_string() };
    assert!(o.is_pending());
    assert!(!o.is_complete());
    assert!(OrderState { status: "Rejected".to_string() }.is_rejected());
    assert!(OrderState { status: "cancelled".to_string() }.is_cancelled());
    let s = SipState { status: "ACTIVE".to_string() };
    assert!(s.is_active());
    assert!(!s.is_paused());
    assert!(SipState { status: "Completed".to_string() }.is_completed());
    assert!(SipState { status: "CANCELLED".to_string() }.is_cancelled());
    assert!(TradeSide { transaction_type: "sell".to_string() }.is_sell());
    assert!(!TradeSide { transaction_type: "sell".to_string() }.is_buy());
}

#[test]
fn gtt_state_checks() {
    let mut g = GTTState { status: "active".to_string(), gtt_type: GTTType::Single, trigger_count: 1 };
    assert!(g.is_active());
    assert!(!g.is_triggered());
    assert!(!g.is_disabled());
    assert!(g.is_single_leg());
    assert!(!g.is_oco());
    assert_eq!(g.trigger_count(), 1);
    g.status = "triggered".to_string();
    assert!(!g.is_active());
    assert!(g.is_triggered());
}

#[test]
fn position_direction() {
    let long = PositionQuantity { quantity: 100 };
    assert!(long.is_long() && !long.is_short() && !long.is_flat());
    let short = PositionQuantity { quantity: -25 };
    assert!(short.is_short());
    assert_eq!(short.abs_quantity(), 25);
    assert!(PositionQuantity { quantity: 0 }.is_flat());
}

#[test]
fn instrument_kinds() {
    let fut = InstrumentKind {
        segment: "NFO-FUT".to_string(),
        exchange: "NFO".to_string(),
        instrument_type: "FUT".to_string(),
    };
    assert!(fut.is_futures() && fut.is_derivative() && !fut.is_options() && !fut.is_equity());
    let call = InstrumentKind {
        segment: "nfo".to_string(),
        exchange: "NFO".to_string(),
        instrument_type: "CE".to_string(),
    };
    assert!(call.is_options() && call.is_call_option() && !call.is_put_option() && call.is_derivative());
    let eq = InstrumentKind {
        segment: "NSE".to_string(),
        exchange: "NSE".to_string(),
        instrument_type: "EQ".to_string(),
    };
    assert!(eq.is_equity() && !eq.is_derivative());
    let eq2 = InstrumentKind {
        segment: "eq".to_string(),
        exchange: "MCX".to_string(),
        instrument_type: "X".to_string(),
    };
    assert!(eq2.is_equity());
}

use kiteconnect::model::ticker::Time;

#[test]
fn test_time_operations() {
    let time = Time::from_unix(1625461887);
    assert_eq!(time.unix(), 1625461887);
    assert!(!time.is_zero());
    let default_time = Time::default();
    assert!(default_time.is_zero());
}

#[test]
fn times_outside_the_calendar_become_the_epoch() {
    assert_eq!(Time::from_unix(i64::MAX).unix(), 0);
    assert_eq!(Time::from_unix(-86_400).unix(), -86_400);
}
