//! API path templates; `{...}` marks a dynamic segment.

use vstd::prelude::*;

verus! {

/// Path of the `user_session` call: `/session/token`.
pub const USER_SESSION: &'static str = "/session/token";

/// Path of the `user_session_invalidate` call: `/session/token`.
pub const USER_SESSION_INVALIDATE: &'static str = "/session/token";

/// Path of the `user_session_renew` call: `/session/refresh_token`.
pub const USER_SESSION_RENEW: &'static str = "/session/refresh_token";

/// Path of the `user_profile` call: `/user/profile`.
pub const USER_PROFILE: &'static str = "/user/profile";

/// Path of the `full_user_profile` call: `/user/profile/full`.
pub const FULL_USER_PROFILE: &'static str = "/user/profile/full";

/// Path of the `user_margins` call: `/user/margins`.
pub const USER_MARGINS: &'static str = "/user/margins";

/// Path of the `user_margins_segment` call: `/user/margins/{segment}`.
pub const USER_MARGINS_SEGMENT: &'static str = "/user/margins/{segment}";

/// Path of the `get_orders` call: `/orders`.
pub const GET_ORDERS: &'static str = "/orders";

/// Path of the `get_trades` call: `/trades`.
pub const GET_TRADES: &'static str = "/trades";

/// Path of the `get_order_history` call: `/orders/{order_id}`.
pub const GET_ORDER_HISTORY: &'static str = "/orders/{order_id}";

/// Path of the `get_order_trades` call: `/orders/{order_id}/trades`.
pub const GET_ORDER_TRADES: &'static str = "/orders/{order_id}/trades";

/// Path of the `place_order` call: `/orders/{variety}`.
pub const PLACE_ORDER: &'static str = "/orders/{variety}";

/// Path of the `modify_order` call: `/orders/{variety}/{order_id}`.
pub const MODIFY_ORDER: &'static str = "/orders/{variety}/{order_id}";

/// Path of the `cancel_order` call: `/orders/{variety}/{order_id}`.
pub const CANCEL_ORDER: &'static str = "/orders/{variety}/{order_id}";

/// Path of the `get_positions` call: `/portfolio/positions`.
pub const GET_POSITIONS: &'static str = "/portfolio/positions";

/// Path of the `get_holdings` call: `/portfolio/holdings`.
pub const GET_HOLDINGS: &'static str = "/portfolio/holdings";

/// Path of the `init_holdings_auth` call: `/portfolio/holdings/authorise`.
pub const INIT_HOLDINGS_AUTH: &'static str = "/portfolio/holdings/authorise";

/// Path of the `auction_instruments` call: `/portfolio/holdings/auctions`.
pub const AUCTION_INSTRUMENTS: &'static str = "/portfolio/holdings/auctions";

/// Path of the `convert_position` call: `/portfolio/positions`.
pub const CONVERT_POSITION: &'static str = "/portfolio/positions";

/// Path of the `order_margins` call: `/margins/orders`.
pub const ORDER_MARGINS: &'static str = "/margins/orders";

/// Path of the `basket_margins` call: `/margins/basket`.
pub const BASKET_MARGINS: &'static str = "/margins/basket";

/// Path of the `order_charges` call: `/charges/orders`.
pub const ORDER_CHARGES: &'static str = "/charges/orders";

/// Path of the `get_mf_orders` call: `/mf/orders`.
pub const GET_MF_ORDERS: &'static str = "/mf/orders";

/// Path of the `get_mf_order_info` call: `/mf/orders/{order_id}`.
pub const GET_MF_ORDER_INFO: &'static str = "/mf/orders/{order_id}";

/// Path of the `place_mf_order` call: `/mf/orders`.
pub const PLACE_MF_ORDER: &'static str = "/mf/orders";

/// Path of the `cancel_mf_order` call: `/mf/orders/{order_id}`.
pub const CANCEL_MF_ORDER: &'static str = "/mf/orders/{order_id}";

/// Path of the `get_mf_sips` call: `/mf/sips`.
pub const GET_MF_SIPS: &'static str = "/mf/sips";

/// Path of the `get_mf_sip_info` call: `/mf/sips/{sip_id}`.
pub const GET_MF_SIP_INFO: &'static str = "/mf/sips/{sip_id}";

/// Path of the `place_mf_sip` call: `/mf/sips`.
pub const PLACE_MF_SIP: &'static str = "/mf/sips";

/// Path of the `modify_mf_sip` call: `/mf/sips/{sip_id}`.
pub const MODIFY_MF_SIP: &'static str = "/mf/sips/{sip_id}";

/// Path of the `cancel_mf_sip` call: `/mf/sips/{sip_id}`.
pub const CANCEL_MF_SIP: &'static str = "/mf/sips/{sip_id}";

/// Path of the `get_mf_holdings` call: `/mf/holdings`.
pub const GET_MF_HOLDINGS: &'static str = "/mf/holdings";

/// Path of the `get_mf_holding_info` call: `/mf/holdings/{isin}`.
pub const GET_MF_HOLDING_INFO: &'static str = "/mf/holdings/{isin}";

/// Path of the `get_allotted_isins` call: `/mf/allotments`.
pub const GET_ALLOTTED_ISINS: &'static str = "/mf/allotments";

/// Path of the `place_gtt` call: `/gtt/triggers`.
pub const PLACE_GTT: &'static str = "/gtt/triggers";

/// Path of the `get_gtts` call: `/gtt/triggers`.
pub const GET_GTTS: &'static str = "/gtt/triggers";

/// Path of the `get_gtt` call: `/gtt/triggers/{trigger_id}`.
pub const GET_GTT: &'static str = "/gtt/triggers/{trigger_id}";

/// Path of the `modify_gtt` call: `/gtt/triggers/{trigger_id}`.
pub const MODIFY_GTT: &'static str = "/gtt/triggers/{trigger_id}";

/// Path of the `delete_gtt` call: `/gtt/triggers/{trigger_id}`.
pub const DELETE_GTT: &'static str = "/gtt/triggers/{trigger_id}";

/// Path of the `get_instruments` call: `/instruments`.
pub const GET_INSTRUMENTS: &'static str = "/instruments";

/// Path of the `get_mf_instruments` call: `/mf/instruments`.
pub const GET_MF_INSTRUMENTS: &'static str = "/mf/instruments";

/// Path of the `get_instruments_exchange` call: `/instruments/{exchange}`.
pub const GET_INSTRUMENTS_EXCHANGE: &'static str = "/instruments/{exchange}";

/// Path of the `get_historical` call: `/instruments/historical/{instrument_token}/{interval}`.
pub const GET_HISTORICAL: &'static str = "/instruments/historical/{instrument_token}/{interval}";

/// Path of the `get_trigger_range` call: `/instruments/{exchange}/{tradingsymbol}/trigger_range`.
pub const GET_TRIGGER_RANGE: &'static str = "/instruments/{exchange}/{tradingsymbol}/trigger_range";

/// Path of the `get_quote` call: `/quote`.
pub const GET_QUOTE: &'static str = "/quote";

/// Path of the `get_ltp` call: `/quote/ltp`.
pub const GET_LTP: &'static str = "/quote/ltp";

/// Path of the `get_ohlc` call: `/quote/ohlc`.
pub const GET_OHLC: &'static str = "/quote/ohlc";

} // verus!
