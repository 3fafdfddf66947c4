//! The requests of the KiteConnect API calls: for each call, the endpoint,
//! the path segments and the query or form parameters it sends.

use super::client::{session_checksum, KiteConnect};
use super::endpoints::{endpoint_method, KiteEndpoint};
use super::request::{
    names_unique, no_params, no_segments, one_segment, opt_param, opt_segment, opt_view,
    params_view, push_new_opt_param, push_new_param, push_opt_param, push_param, two_segments,
    ApiRequest, BodyEncoding, ParamsView, RequestView, method_body,
};
use crate::text::{join, join_strings, string_views};
use vstd::prelude::*;

verus! {

/// A request with no query and no form.
pub open spec fn plain_request(endpoint: KiteEndpoint, segments: Seq<Seq<char>>) -> RequestView {
    RequestView { endpoint, segments, query: None, form: None }
}

/// A request with a query and no form.
pub open spec fn query_request(
    endpoint: KiteEndpoint,
    segments: Seq<Seq<char>>,
    query: ParamsView,
) -> RequestView {
    RequestView { endpoint, segments, query: Some(query), form: None }
}

/// A request with a form and no query.
pub open spec fn form_request(
    endpoint: KiteEndpoint,
    segments: Seq<Seq<char>>,
    form: ParamsView,
) -> RequestView {
    RequestView { endpoint, segments, query: None, form: Some(form) }
}

/// The same key with each of the values, in order.
pub open spec fn repeated_param(key: Seq<char>, values: Seq<Seq<char>>) -> ParamsView {
    values.map_values(|v: Seq<char>| (key, v))
}

/// Appends the parameter `key=value` for each value, in order.
pub fn push_repeated(params: &mut Vec<(String, String)>, key: &str, values: &Vec<String>)
    ensures
        params_view(final(params)@) == params_view(old(params)@) + repeated_param(
            key@,
            string_views(values@),
        ),
{
    let ghost start = params_view(params@);
    let mut i: usize = 0;
    while i < values.len()
        invariant
            0 <= i <= values@.len(),
            params_view(params@) == start + repeated_param(key@, string_views(values@.take(i as int))),
        decreases values@.len() - i,
    {
        push_param(params, key, values[i].as_str());
        assert(repeated_param(key@, string_views(values@.take(i as int + 1))) =~= repeated_param(
            key@,
            string_views(values@.take(i as int)),
        ).push((key@, values@[i as int]@)));
        i = i + 1;
    }
    assert(values@.take(values@.len() as int) =~= values@);
}

/// A request with no query and no form.
fn plain(endpoint: KiteEndpoint, segments: Vec<String>) -> (r: ApiRequest)
    ensures
        r@ == plain_request(endpoint, string_views(segments@)),
{
    ApiRequest::new(endpoint, segments, None, None)
}

/// A request with a query.
fn with_query(endpoint: KiteEndpoint, segments: Vec<String>, query: Vec<(String, String)>) -> (r: ApiRequest)
    ensures
        r@ == query_request(endpoint, string_views(segments@), params_view(query@)),
{
    ApiRequest::new(endpoint, segments, Some(query), None)
}

/// A request with a form, to an endpoint whose method sends a body.
fn with_form(endpoint: KiteEndpoint, segments: Vec<String>, form: Vec<(String, String)>) -> (r: ApiRequest)
    requires
        method_body(endpoint_method(endpoint)) != BodyEncoding::NoBody,
    ensures
        r@ == form_request(endpoint, string_views(segments@), params_view(form@)),
{
    ApiRequest::new(endpoint, segments, None, Some(form))
}

/// The text `a`, `b` and `c` written one after another.
fn concat3(a: &str, b: &str, c: &str) -> (s: String)
    ensures
        s@ == a@ + b@ + c@,
{
    let mut s = String::from_str(a);
    s.append(b);
    s.append(c);
    s
}

impl KiteConnect {
    /// The request that exchanges a request token for a session: the API
    /// key, the request token and the checksum of key, token and secret.
    pub fn generate_session_request(&self, request_token: &str, api_secret: &str) -> (r: ApiRequest)
        ensures
            r@ == form_request(
                KiteEndpoint::GenerateSession,
                seq![],
                seq![
                    ("api_key"@, self.api_key@),
                    ("request_token"@, request_token@),
                    ("checksum"@, session_checksum(self.api_key@, request_token@, api_secret@)),
                ],
            ),
            r@.form matches Some(f) && names_unique(f),
    {
        let input = concat3(self.api_key.as_str(), request_token, api_secret);
        let checksum = self.compute_checksum(input.as_str());
        proof {
            reveal_strlit("api_key");
            reveal_strlit("request_token");
            reveal_strlit("checksum");
            assert("api_key"@.len() == 7);
            assert("request_token"@.len() == 13);
            assert("checksum"@.len() == 8);
        }
        let mut form = no_params();
        push_new_param(&mut form, "api_key", self.api_key.as_str());
        push_new_param(&mut form, "request_token", request_token);
        push_new_param(&mut form, "checksum", checksum.as_str());
        assert(params_view(form@) =~= seq![
            ("api_key"@, self.api_key@),
            ("request_token"@, request_token@),
            ("checksum"@, checksum@),
        ]);
        with_form(KiteEndpoint::GenerateSession, no_segments(), form)
    }

    /// The request that invalidates an access token.
    pub fn invalidate_access_token_request(&self, access_token: &str) -> (r: ApiRequest)
        ensures
            r@ == form_request(
                KiteEndpoint::InvalidateSession,
                seq![],
                seq![("access_token"@, access_token@)],
            ),
            r@.form matches Some(f) && names_unique(f),
    {
        let mut form = no_params();
        push_new_param(&mut form, "access_token", access_token);
        assert(params_view(form@) =~= seq![("access_token"@, access_token@)]);
        with_form(KiteEndpoint::InvalidateSession, no_segments(), form)
    }

    /// The request that renews the access token with a refresh token: the
    /// API key, the refresh token and the checksum of key, token and secret.
    pub fn renew_access_token_request(&self, refresh_token: &str, api_secret: &str) -> (r: ApiRequest)
        ensures
            r@ == form_request(
                KiteEndpoint::RenewAccessToken,
                seq![],
                seq![
                    ("api_key"@, self.api_key@),
                    ("refresh_token"@, refresh_token@),
                    ("checksum"@, session_checksum(self.api_key@, refresh_token@, api_secret@)),
                ],
            ),
            r@.form matches Some(f) && names_unique(f),
    {
        let input = concat3(self.api_key.as_str(), refresh_token, api_secret);
        let checksum = self.compute_checksum(input.as_str());
        proof {
            reveal_strlit("api_key");
            reveal_strlit("refresh_token");
            reveal_strlit("checksum");
            assert("api_key"@.len() == 7);
            assert("refresh_token"@.len() == 13);
            assert("checksum"@.len() == 8);
        }
        let mut form = no_params();
        push_new_param(&mut form, "api_key", self.api_key.as_str());
        push_new_param(&mut form, "refresh_token", refresh_token);
        push_new_param(&mut form, "checksum", checksum.as_str());
        assert(params_view(form@) =~= seq![
            ("api_key"@, self.api_key@),
            ("refresh_token"@, refresh_token@),
            ("checksum"@, checksum@),
        ]);
        with_form(KiteEndpoint::RenewAccessToken, no_segments(), form)
    }

    /// The request that invalidates a refresh token.
    pub fn invalidate_refresh_token_request(&self, refresh_token: &str) -> (r: ApiRequest)
        ensures
            r@ == form_request(
                KiteEndpoint::InvalidateRefreshToken,
                seq![],
                seq![("refresh_token"@, refresh_token@)],
            ),
            r@.form matches Some(f) && names_unique(f),
    {
        let mut form = no_params();
        push_new_param(&mut form, "refresh_token", refresh_token);
        assert(params_view(form@) =~= seq![("refresh_token"@, refresh_token@)]);
        with_form(KiteEndpoint::InvalidateRefreshToken, no_segments(), form)
    }

    /// The request for the user's profile.
    pub fn profile_request(&self) -> (r: ApiRequest)
        ensures
            r@ == plain_request(KiteEndpoint::Profile, seq![]),
    {
        plain(KiteEndpoint::Profile, no_segments())
    }

    /// The request for the margins of all segments, or of one segment when
    /// given.
    pub fn margins_request(&self, segment: Option<&str>) -> (r: ApiRequest)
        ensures
            r@ == match segment {
                Some(s) => plain_request(KiteEndpoint::MarginsSegment, seq![s@]),
                None => plain_request(KiteEndpoint::Margins, seq![]),
            },
    {
        match segment {
            Some(s) => plain(KiteEndpoint::MarginsSegment, one_segment(s)),
            None => plain(KiteEndpoint::Margins, no_segments()),
        }
    }

    /// The request for the holdings.
    pub fn holdings_request(&self) -> (r: ApiRequest)
        ensures
            r@ == plain_request(KiteEndpoint::Holdings, seq![]),
    {
        plain(KiteEndpoint::Holdings, no_segments())
    }

    /// The request for the positions.
    pub fn positions_request(&self) -> (r: ApiRequest)
        ensures
            r@ == plain_request(KiteEndpoint::Positions, seq![]),
    {
        plain(KiteEndpoint::Positions, no_segments())
    }

    /// The request that converts an open position from one product to
    /// another.
    pub fn convert_position_request(
        &self,
        exchange: &str,
        tradingsymbol: &str,
        transaction_type: &str,
        position_type: &str,
        quantity: &str,
        old_product: &str,
        new_product: &str,
    ) -> (r: ApiRequest)
        ensures
            r@ == form_request(
                KiteEndpoint::ConvertPosition,
                seq![],
                seq![
                    ("exchange"@, exchange@),
                    ("tradingsymbol"@, tradingsymbol@),
                    ("transaction_type"@, transaction_type@),
                    ("position_type"@, position_type@),
                    ("quantity"@, quantity@),
                    ("old_product"@, old_product@),
                    ("new_product"@, new_product@),
                ],
            ),
            r@.form matches Some(f) && names_unique(f),
    {
        proof {
            reveal_strlit("exchange");
            reveal_strlit("tradingsymbol");
            reveal_strlit("transaction_type");
            reveal_strlit("position_type");
            reveal_strlit("quantity");
            reveal_strlit("old_product");
            reveal_strlit("new_product");
            assert("exchange"@.len() == 8);
            assert("tradingsymbol"@.len() == 13);
            assert("transaction_type"@.len() == 16);
            assert("position_type"@.len() == 13);
            assert("quantity"@.len() == 8);
            assert("old_product"@.len() == 11);
            assert("new_product"@.len() == 11);
            assert("exchange"@[0] == 'e');
            assert("quantity"@[0] == 'q');
            assert("position_type"@[0] == 'p');
            assert("tradingsymbol"@[0] == 't');
            assert("new_product"@[0] == 'n');
            assert("old_product"@[0] == 'o');
        }
        let mut form = no_params();
        push_new_param(&mut form, "exchange", exchange);
        push_new_param(&mut form, "tradingsymbol", tradingsymbol);
        push_new_param(&mut form, "transaction_type", transaction_type);
        push_new_param(&mut form, "position_type", position_type);
        push_new_param(&mut form, "quantity", quantity);
        push_new_param(&mut form, "old_product", old_product);
        push_new_param(&mut form, "new_product", new_product);
        assert(params_view(form@) =~= seq![
            ("exchange"@, exchange@),
            ("tradingsymbol"@, tradingsymbol@),
            ("transaction_type"@, transaction_type@),
            ("position_type"@, position_type@),
            ("quantity"@, quantity@),
            ("old_product"@, old_product@),
            ("new_product"@, new_product@),
        ]);
        with_form(KiteEndpoint::ConvertPosition, no_segments(), form)
    }

    /// The request that places an order of a variety: the five required
    /// parameters, then each optional one that is given.
    #[verifier::rlimit(80)]
    #[verifier::spinoff_prover]
    pub fn place_order_request(
        &self,
        variety: &str,
        exchange: &str,
        tradingsymbol: &str,
        transaction_type: &str,
        quantity: &str,
        product: Option<&str>,
        order_type: Option<&str>,
        price: Option<&str>,
        validity: Option<&str>,
        disclosed_quantity: Option<&str>,
        trigger_price: Option<&str>,
        squareoff: Option<&str>,
        stoploss: Option<&str>,
        trailing_stoploss: Option<&str>,
        tag: Option<&str>,
    ) -> (r: ApiRequest)
        ensures
            r@ == form_request(
                KiteEndpoint::PlaceOrder,
                seq![variety@],
                seq![
                    ("variety"@, variety@),
                    ("exchange"@, exchange@),
                    ("tradingsymbol"@, tradingsymbol@),
                    ("transaction_type"@, transaction_type@),
                    ("quantity"@, quantity@),
                ] + opt_param("product"@, opt_view(product)) + opt_param(
                    "order_type"@,
                    opt_view(order_type),
                ) + opt_param("price"@, opt_view(price)) + opt_param(
                    "validity"@,
                    opt_view(validity),
                ) + opt_param("disclosed_quantity"@, opt_view(disclosed_quantity)) + opt_param(
                    "trigger_price"@,
                    opt_view(trigger_price),
                ) + opt_param("squareoff"@, opt_view(squareoff)) + opt_param(
                    "stoploss"@,
                    opt_view(stoploss),
                ) + opt_param("trailing_stoploss"@, opt_view(trailing_stoploss)) + opt_param(
                    "tag"@,
                    opt_view(tag),
                ),
            ),
            r@.form matches Some(f) && names_unique(f),
    {
        proof {
            reveal_strlit("variety");
            reveal_strlit("exchange");
            reveal_strlit("tradingsymbol");
            reveal_strlit("transaction_type");
            reveal_strlit("quantity");
            reveal_strlit("product");
            reveal_strlit("order_type");
            reveal_strlit("price");
            reveal_strlit("validity");
            reveal_strlit("disclosed_quantity");
            reveal_strlit("trigger_price");
            reveal_strlit("squareoff");
            reveal_strlit("stoploss");
            reveal_strlit("trailing_stoploss");
            reveal_strlit("tag");
            assert("variety"@.len() == 7);
            assert("exchange"@.len() == 8);
            assert("tradingsymbol"@.len() == 13);
            assert("transaction_type"@.len() == 16);
            assert("quantity"@.len() == 8);
            assert("product"@.len() == 7);
            assert("order_type"@.len() == 10);
            assert("price"@.len() == 5);
            assert("validity"@.len() == 8);
            assert("disclosed_quantity"@.len() == 18);
            assert("trigger_price"@.len() == 13);
            assert("squareoff"@.len() == 9);
            assert("stoploss"@.len() == 8);
            assert("trailing_stoploss"@.len() == 17);
            assert("tag"@.len() == 3);
            assert("exchange"@[0] == 'e');
            assert("quantity"@[0] == 'q');
            assert("validity"@[0] == 'v');
            assert("stoploss"@[0] == 's');
            assert("tradingsymbol"@[2] == 'a');
            assert("trigger_price"@[2] == 'i');
            assert("product"@[0] == 'p');
            assert("variety"@[0] == 'v');
        }
        let mut form = no_params();
        push_new_param(&mut form, "variety", variety);
        push_new_param(&mut form, "exchange", exchange);
        push_new_param(&mut form, "tradingsymbol", tradingsymbol);
        push_new_param(&mut form, "transaction_type", transaction_type);
        push_new_param(&mut form, "quantity", quantity);
        assert(params_view(form@) =~= seq![
            ("variety"@, variety@),
            ("exchange"@, exchange@),
            ("tradingsymbol"@, tradingsymbol@),
            ("transaction_type"@, transaction_type@),
            ("quantity"@, quantity@),
        ]);
        push_new_opt_param(&mut form, "product", product);
        push_new_opt_param(&mut form, "order_type", order_type);
        push_new_opt_param(&mut form, "price", price);
        push_new_opt_param(&mut form, "validity", validity);
        push_new_opt_param(&mut form, "disclosed_quantity", disclosed_quantity);
        push_new_opt_param(&mut form, "trigger_price", trigger_price);
        push_new_opt_param(&mut form, "squareoff", squareoff);
        push_new_opt_param(&mut form, "stoploss", stoploss);
        push_new_opt_param(&mut form, "trailing_stoploss", trailing_stoploss);
        push_new_opt_param(&mut form, "tag", tag);
        with_form(KiteEndpoint::PlaceOrder, one_segment(variety), form)
    }

    /// The request that modifies an open order: order id and variety, then
    /// each optional parameter that is given.
    pub fn modify_order_request(
        &self,
        order_id: &str,
        variety: &str,
        quantity: Option<&str>,
        price: Option<&str>,
        order_type: Option<&str>,
        validity: Option<&str>,
        disclosed_quantity: Option<&str>,
        trigger_price: Option<&str>,
        parent_order_id: Option<&str>,
    ) -> (r: ApiRequest)
        ensures
            r@ == form_request(
                KiteEndpoint::ModifyOrder,
                seq![variety@, order_id@],
                seq![("order_id"@, order_id@), ("variety"@, variety@)] + opt_param(
                    "quantity"@,
                    opt_view(quantity),
                ) + opt_param("price"@, opt_view(price)) + opt_param(
                    "order_type"@,
                    opt_view(order_type),
                ) + opt_param("validity"@, opt_view(validity)) + opt_param(
                    "disclosed_quantity"@,
                    opt_view(disclosed_quantity),
                ) + opt_param("trigger_price"@, opt_view(trigger_price)) + opt_param(
                    "parent_order_id"@,
                    opt_view(parent_order_id),
                ),
            ),
            r@.form matches Some(f) && names_unique(f),
    {
        proof {
            reveal_strlit("order_id");
            reveal_strlit("variety");
            reveal_strlit("quantity");
            reveal_strlit("price");
            reveal_strlit("order_type");
            reveal_strlit("validity");
            reveal_strlit("disclosed_quantity");
            reveal_strlit("trigger_price");
            reveal_strlit("parent_order_id");
            assert("order_id"@.len() == 8);
            assert("variety"@.len() == 7);
            assert("quantity"@.len() == 8);
            assert("price"@.len() == 5);
            assert("order_type"@.len() == 10);
            assert("validity"@.len() == 8);
            assert("disclosed_quantity"@.len() == 18);
            assert("trigger_price"@.len() == 13);
            assert("parent_order_id"@.len() == 15);
            assert("order_id"@[0] == 'o');
            assert("quantity"@[0] == 'q');
            assert("validity"@[0] == 'v');
        }
        let mut form = no_params();
        push_new_param(&mut form, "order_id", order_id);
        push_new_param(&mut form, "variety", variety);
        assert(params_view(form@) =~= seq![("order_id"@, order_id@), ("variety"@, variety@)]);
        push_new_opt_param(&mut form, "quantity", quantity);
        push_new_opt_param(&mut form, "price", price);
        push_new_opt_param(&mut form, "order_type", order_type);
        push_new_opt_param(&mut form, "validity", validity);
        push_new_opt_param(&mut form, "disclosed_quantity", disclosed_quantity);
        push_new_opt_param(&mut form, "trigger_price", trigger_price);
        push_new_opt_param(&mut form, "parent_order_id", parent_order_id);
        with_form(KiteEndpoint::ModifyOrder, two_segments(variety, order_id), form)
    }

    /// The request that cancels an order: order id, variety and the parent
    /// order id when given.
    pub fn cancel_order_request(&self, order_id: &str, variety: &str, parent_order_id: Option<&str>) -> (r: ApiRequest)
        ensures
            r@ == form_request(
                KiteEndpoint::CancelOrder,
                seq![variety@, order_id@],
                seq![("order_id"@, order_id@), ("variety"@, variety@)] + opt_param(
                    "parent_order_id"@,
                    opt_view(parent_order_id),
                ),
            ),
            r@.form matches Some(f) && names_unique(f),
    {
        proof {
            reveal_strlit("order_id");
            reveal_strlit("variety");
            reveal_strlit("parent_order_id");
            assert("order_id"@.len() == 8);
            assert("variety"@.len() == 7);
            assert("parent_order_id"@.len() == 15);
        }
        let mut form = no_params();
        push_new_param(&mut form, "order_id", order_id);
        push_new_param(&mut form, "variety", variety);
        assert(params_view(form@) =~= seq![("order_id"@, order_id@), ("variety"@, variety@)]);
        push_new_opt_param(&mut form, "parent_order_id", parent_order_id);
        with_form(KiteEndpoint::CancelOrder, two_segments(variety, order_id), form)
    }

    /// The request that exits a bracket or cover order: the same as
    /// cancelling it.
    pub fn exit_order_request(&self, order_id: &str, variety: &str, parent_order_id: Option<&str>) -> (r: ApiRequest)
        ensures
            r@ == form_request(
                KiteEndpoint::CancelOrder,
                seq![variety@, order_id@],
                seq![("order_id"@, order_id@), ("variety"@, variety@)] + opt_param(
                    "parent_order_id"@,
                    opt_view(parent_order_id),
                ),
            ),
            r@.form matches Some(f) && names_unique(f),
    {
        self.cancel_order_request(order_id, variety, parent_order_id)
    }

    /// The request for the day's orders.
    pub fn orders_request(&self) -> (r: ApiRequest)
        ensures
            r@ == plain_request(KiteEndpoint::Orders, seq![]),
    {
        plain(KiteEndpoint::Orders, no_segments())
    }

    /// The request for the history of an order, by its id in the query.
    pub fn order_history_request(&self, order_id: &str) -> (r: ApiRequest)
        ensures
            r@ == query_request(KiteEndpoint::OrderHistory, seq![], seq![("order_id"@, order_id@)]),
    {
        let mut query = no_params();
        push_param(&mut query, "order_id", order_id);
        assert(params_view(query@) =~= seq![("order_id"@, order_id@)]);
        with_query(KiteEndpoint::OrderHistory, no_segments(), query)
    }

    /// The request for the day's trades.
    pub fn trades_request(&self) -> (r: ApiRequest)
        ensures
            r@ == plain_request(KiteEndpoint::Trades, seq![]),
    {
        plain(KiteEndpoint::Trades, no_segments())
    }

    /// The request for the trades of an order: `/orders/{order_id}/trades`.
    pub fn order_trades_request(&self, order_id: &str) -> (r: ApiRequest)
        ensures
            r@ == plain_request(KiteEndpoint::OrderTrades, seq![order_id@, "trades"@]),
    {
        plain(KiteEndpoint::OrderTrades, two_segments(order_id, "trades"))
    }
    /// The request for the trigger range of instruments: the transaction
    /// type, then one `instruments` parameter per instrument.
    pub fn trigger_range_request(&self, transaction_type: &str, instruments: &Vec<String>) -> (r: ApiRequest)
        ensures
            r@ == query_request(
                KiteEndpoint::TriggerRange,
                seq![],
                seq![("transaction_type"@, transaction_type@)] + repeated_param(
                    "instruments"@,
                    string_views(instruments@),
                ),
            ),
    {
        let mut query = no_params();
        push_param(&mut query, "transaction_type", transaction_type);
        assert(params_view(query@) =~= seq![("transaction_type"@, transaction_type@)]);
        push_repeated(&mut query, "instruments", instruments);
        with_query(KiteEndpoint::TriggerRange, no_segments(), query)
    }

    /// The request for the instrument list, of one exchange when given.
    pub fn instruments_request(&self, exchange: Option<&str>) -> (r: ApiRequest)
        ensures
            r@ == plain_request(
                KiteEndpoint::Instruments,
                match exchange {
                    Some(e) => seq![e@],
                    None => seq![],
                },
            ),
    {
        plain(KiteEndpoint::Instruments, opt_segment(exchange))
    }

    /// The request for the mutual fund instrument list.
    pub fn mf_instruments_request(&self) -> (r: ApiRequest)
        ensures
            r@ == plain_request(KiteEndpoint::MFInstruments, seq![]),
    {
        plain(KiteEndpoint::MFInstruments, no_segments())
    }

    /// The request for historical candles of an instrument at an interval:
    /// `/instruments/historical/{token}/{interval}` with the range and the
    /// continuous flag in the query.
    pub fn historical_data_request(
        &self,
        instrument_token: &str,
        from_date: &str,
        to_date: &str,
        interval: &str,
        continuous: &str,
    ) -> (r: ApiRequest)
        ensures
            r@ == query_request(
                KiteEndpoint::HistoricalData,
                seq![instrument_token@, interval@],
                seq![("from"@, from_date@), ("to"@, to_date@), ("continuous"@, continuous@)],
            ),
    {
        let mut query = no_params();
        push_param(&mut query, "from", from_date);
        push_param(&mut query, "to", to_date);
        push_param(&mut query, "continuous", continuous);
        assert(params_view(query@) =~= seq![
            ("from"@, from_date@),
            ("to"@, to_date@),
            ("continuous"@, continuous@),
        ]);
        with_query(KiteEndpoint::HistoricalData, two_segments(instrument_token, interval), query)
    }

    /// The request for historical candles with the optional flags written
    /// as `1` or `0`: `continuous` and `oi` are sent only when given.
    pub fn historical_data_flags_request(
        &self,
        instrument_token: &str,
        from_date: &str,
        to_date: &str,
        interval: &str,
        continuous: Option<bool>,
        oi: Option<bool>,
    ) -> (r: ApiRequest)
        ensures
            r@ == query_request(
                KiteEndpoint::HistoricalData,
                seq![instrument_token@, interval@],
                seq![("from"@, from_date@), ("to"@, to_date@)] + opt_param(
                    "continuous"@,
                    opt_flag(continuous),
                ) + opt_param("oi"@, opt_flag(oi)),
            ),
    {
        let mut query = no_params();
        push_param(&mut query, "from", from_date);
        push_param(&mut query, "to", to_date);
        assert(params_view(query@) =~= seq![("from"@, from_date@), ("to"@, to_date@)]);
        push_opt_param(&mut query, "continuous", flag_text(continuous));
        push_opt_param(&mut query, "oi", flag_text(oi));
        with_query(KiteEndpoint::HistoricalData, two_segments(instrument_token, interval), query)
    }

    /// The request for full quotes of instruments: one `i` parameter each.
    pub fn quote_request(&self, instruments: &Vec<String>) -> (r: ApiRequest)
        ensures
            r@ == query_request(
                KiteEndpoint::Quote,
                seq![],
                repeated_param("i"@, string_views(instruments@)),
            ),
    {
        let mut query = no_params();
        push_repeated(&mut query, "i", instruments);
        assert(params_view(query@) =~= repeated_param("i"@, string_views(instruments@)));
        with_query(KiteEndpoint::Quote, no_segments(), query)
    }

    /// The request for OHLC quotes of instruments: one `i` parameter each.
    pub fn ohlc_request(&self, instruments: &Vec<String>) -> (r: ApiRequest)
        ensures
            r@ == query_request(
                KiteEndpoint::OHLC,
                seq![],
                repeated_param("i"@, string_views(instruments@)),
            ),
    {
        let mut query = no_params();
        push_repeated(&mut query, "i", instruments);
        assert(params_view(query@) =~= repeated_param("i"@, string_views(instruments@)));
        with_query(KiteEndpoint::OHLC, no_segments(), query)
    }

    /// The request for last traded prices of instruments: one `i` parameter
    /// each.
    pub fn ltp_request(&self, instruments: &Vec<String>) -> (r: ApiRequest)
        ensures
            r@ == query_request(
                KiteEndpoint::LTP,
                seq![],
                repeated_param("i"@, string_views(instruments@)),
            ),
    {
        let mut query = no_params();
        push_repeated(&mut query, "i", instruments);
        assert(params_view(query@) =~= repeated_param("i"@, string_views(instruments@)));
        with_query(KiteEndpoint::LTP, no_segments(), query)
    }

    /// The request for the margins of a segment's instruments.
    pub fn instruments_margins_request(&self, segment: &str) -> (r: ApiRequest)
        ensures
            r@ == plain_request(KiteEndpoint::MarketMargins, seq![segment@]),
    {
        plain(KiteEndpoint::MarketMargins, one_segment(segment))
    }

    /// The request for the mutual fund orders, or for one order when an id
    /// is given.
    pub fn mf_orders_request(&self, order_id: Option<&str>) -> (r: ApiRequest)
        ensures
            r@ == match order_id {
                Some(id) => plain_request(KiteEndpoint::MFOrderInfo, seq![id@]),
                None => plain_request(KiteEndpoint::MFOrders, seq![]),
            },
    {
        match order_id {
            Some(id) => plain(KiteEndpoint::MFOrderInfo, one_segment(id)),
            None => plain(KiteEndpoint::MFOrders, no_segments()),
        }
    }

    /// The request that places a mutual fund order: symbol and transaction
    /// type, then quantity, amount and tag when given.
    pub fn place_mf_order_request(
        &self,
        tradingsymbol: &str,
        transaction_type: &str,
        quantity: Option<&str>,
        amount: Option<&str>,
        tag: Option<&str>,
    ) -> (r: ApiRequest)
        ensures
            r@ == form_request(
                KiteEndpoint::PlaceMFOrder,
                seq![],
                seq![("tradingsymbol"@, tradingsymbol@), ("transaction_type"@, transaction_type@)]
                    + opt_param("quantity"@, opt_view(quantity)) + opt_param(
                    "amount"@,
                    opt_view(amount),
                ) + opt_param("tag"@, opt_view(tag)),
            ),
            r@.form matches Some(f) && names_unique(f),
    {
        proof {
            reveal_strlit("tradingsymbol");
            reveal_strlit("transaction_type");
            reveal_strlit("quantity");
            reveal_strlit("amount");
            reveal_strlit("tag");
            assert("tradingsymbol"@.len() == 13);
            assert("transaction_type"@.len() == 16);
            assert("quantity"@.len() == 8);
            assert("amount"@.len() == 6);
            assert("tag"@.len() == 3);
        }
        let mut form = no_params();
        push_new_param(&mut form, "tradingsymbol", tradingsymbol);
        push_new_param(&mut form, "transaction_type", transaction_type);
        assert(params_view(form@) =~= seq![
            ("tradingsymbol"@, tradingsymbol@),
            ("transaction_type"@, transaction_type@),
        ]);
        push_new_opt_param(&mut form, "quantity", quantity);
        push_new_opt_param(&mut form, "amount", amount);
        push_new_opt_param(&mut form, "tag", tag);
        with_form(KiteEndpoint::PlaceMFOrder, no_segments(), form)
    }

    /// The request that cancels a mutual fund order.
    pub fn cancel_mf_order_request(&self, order_id: &str) -> (r: ApiRequest)
        ensures
            r@ == plain_request(KiteEndpoint::CancelMFOrder, seq![order_id@]),
    {
        plain(KiteEndpoint::CancelMFOrder, one_segment(order_id))
    }

    /// The request for the SIPs, or for one SIP when an id is given.
    pub fn mf_sips_request(&self, sip_id: Option<&str>) -> (r: ApiRequest)
        ensures
            r@ == match sip_id {
                Some(id) => plain_request(KiteEndpoint::SIPInfo, seq![id@]),
                None => plain_request(KiteEndpoint::SIPs, seq![]),
            },
    {
        match sip_id {
            Some(id) => plain(KiteEndpoint::SIPInfo, one_segment(id)),
            None => plain(KiteEndpoint::SIPs, no_segments()),
        }
    }

    /// The request that places a SIP: symbol, amount, instalments and
    /// frequency, then initial amount, instalment day and tag when given.
    pub fn place_mf_sip_request(
        &self,
        tradingsymbol: &str,
        amount: &str,
        instalments: &str,
        frequency: &str,
        initial_amount: Option<&str>,
        instalment_day: Option<&str>,
        tag: Option<&str>,
    ) -> (r: ApiRequest)
        ensures
            r@ == form_request(
                KiteEndpoint::PlaceSIP,
                seq![],
                seq![
                    ("tradingsymbol"@, tradingsymbol@),
                    ("amount"@, amount@),
                    ("instalments"@, instalments@),
                    ("frequency"@, frequency@),
                ] + opt_param("initial_amount"@, opt_view(initial_amount)) + opt_param(
                    "instalment_day"@,
                    opt_view(instalment_day),
                ) + opt_param("tag"@, opt_view(tag)),
            ),
            r@.form matches Some(f) && names_unique(f),
    {
        proof {
            reveal_strlit("tradingsymbol");
            reveal_strlit("amount");
            reveal_strlit("instalments");
            reveal_strlit("frequency");
            reveal_strlit("initial_amount");
            reveal_strlit("instalment_day");
            reveal_strlit("tag");
            assert("tradingsymbol"@.len() == 13);
            assert("amount"@.len() == 6);
            assert("instalments"@.len() == 11);
            assert("frequency"@.len() == 9);
            assert("initial_amount"@.len() == 14);
            assert("instalment_day"@.len() == 14);
            assert("tag"@.len() == 3);
            assert("initial_amount"@[2] == 'i');
            assert("instalment_day"@[2] == 's');
        }
        let mut form = no_params();
        push_new_param(&mut form, "tradingsymbol", tradingsymbol);
        push_new_param(&mut form, "amount", amount);
        push_new_param(&mut form, "instalments", instalments);
        push_new_param(&mut form, "frequency", frequency);
        assert(params_view(form@) =~= seq![
            ("tradingsymbol"@, tradingsymbol@),
            ("amount"@, amount@),
            ("instalments"@, instalments@),
            ("frequency"@, frequency@),
        ]);
        push_new_opt_param(&mut form, "initial_amount", initial_amount);
        push_new_opt_param(&mut form, "instalment_day", instalment_day);
        push_new_opt_param(&mut form, "tag", tag);
        with_form(KiteEndpoint::PlaceSIP, no_segments(), form)
    }

    /// The request that modifies a SIP: amount, status, instalments and
    /// frequency, then the instalment day when given.
    pub fn modify_mf_sip_request(
        &self,
        sip_id: &str,
        amount: &str,
        status: &str,
        instalments: &str,
        frequency: &str,
        instalment_day: Option<&str>,
    ) -> (r: ApiRequest)
        ensures
            r@ == form_request(
                KiteEndpoint::ModifySIP,
                seq![sip_id@],
                seq![
                    ("amount"@, amount@),
                    ("status"@, status@),
                    ("instalments"@, instalments@),
                    ("frequency"@, frequency@),
                ] + opt_param("instalment_day"@, opt_view(instalment_day)),
            ),
            r@.form matches Some(f) && names_unique(f),
    {
        proof {
            reveal_strlit("amount");
            reveal_strlit("status");
            reveal_strlit("instalments");
            reveal_strlit("frequency");
            reveal_strlit("instalment_day");
            assert("amount"@.len() == 6);
            assert("status"@.len() == 6);
            assert("instalments"@.len() == 11);
            assert("frequency"@.len() == 9);
            assert("instalment_day"@.len() == 14);
            assert("amount"@[0] == 'a');
            assert("status"@[0] == 's');
        }
        let mut form = no_params();
        push_new_param(&mut form, "amount", amount);
        push_new_param(&mut form, "status", status);
        push_new_param(&mut form, "instalments", instalments);
        push_new_param(&mut form, "frequency", frequency);
        assert(params_view(form@) =~= seq![
            ("amount"@, amount@),
            ("status"@, status@),
            ("instalments"@, instalments@),
            ("frequency"@, frequency@),
        ]);
        push_new_opt_param(&mut form, "instalment_day", instalment_day);
        with_form(KiteEndpoint::ModifySIP, one_segment(sip_id), form)
    }

    /// The request that cancels a SIP.
    pub fn cancel_mf_sip_request(&self, sip_id: &str) -> (r: ApiRequest)
        ensures
            r@ == plain_request(KiteEndpoint::CancelSIP, seq![sip_id@]),
    {
        plain(KiteEndpoint::CancelSIP, one_segment(sip_id))
    }

    /// The request for the mutual fund holdings.
    pub fn mf_holdings_request(&self) -> (r: ApiRequest)
        ensures
            r@ == plain_request(KiteEndpoint::MFHoldings, seq![]),
    {
        plain(KiteEndpoint::MFHoldings, no_segments())
    }

    /// The request for the GTTs, or for one GTT when an id is given.
    pub fn get_gtts_request(&self, gtt_id: Option<&str>) -> (r: ApiRequest)
        ensures
            r@ == match gtt_id {
                Some(id) => plain_request(KiteEndpoint::GTTInfo, seq![id@]),
                None => plain_request(KiteEndpoint::GTTs, seq![]),
            },
    {
        match gtt_id {
            Some(id) => plain(KiteEndpoint::GTTInfo, one_segment(id)),
            None => plain(KiteEndpoint::GTTs, no_segments()),
        }
    }

    /// The request that places a GTT: type, symbol and exchange, the
    /// trigger values joined with commas, the last price and the orders as
    /// JSON text.
    pub fn place_gtt_request(
        &self,
        trigger_type: &str,
        tradingsymbol: &str,
        exchange: &str,
        trigger_values: &Vec<String>,
        last_price: &str,
        orders_json: &str,
    ) -> (r: ApiRequest)
        ensures
            r@ == form_request(
                KiteEndpoint::PlaceGTT,
                seq![],
                gtt_form(
                    trigger_type@,
                    tradingsymbol@,
                    exchange@,
                    string_views(trigger_values@),
                    last_price@,
                    orders_json@,
                ),
            ),
            r@.form matches Some(f) && names_unique(f),
    {
        let form = gtt_params(trigger_type, tradingsymbol, exchange, trigger_values, last_price, orders_json);
        with_form(KiteEndpoint::PlaceGTT, no_segments(), form)
    }

    /// The request that modifies a GTT, with the same parameters as placing
    /// one.
    pub fn modify_gtt_request(
        &self,
        gtt_id: &str,
        trigger_type: &str,
        tradingsymbol: &str,
        exchange: &str,
        trigger_values: &Vec<String>,
        last_price: &str,
        orders_json: &str,
    ) -> (r: ApiRequest)
        ensures
            r@ == form_request(
                KiteEndpoint::ModifyGTT,
                seq![gtt_id@],
                gtt_form(
                    trigger_type@,
                    tradingsymbol@,
                    exchange@,
                    string_views(trigger_values@),
                    last_price@,
                    orders_json@,
                ),
            ),
            r@.form matches Some(f) && names_unique(f),
    {
        let form = gtt_params(trigger_type, tradingsymbol, exchange, trigger_values, last_price, orders_json);
        with_form(KiteEndpoint::ModifyGTT, one_segment(gtt_id), form)
    }

    /// The request that deletes a GTT.
    pub fn delete_gtt_request(&self, gtt_id: &str) -> (r: ApiRequest)
        ensures
            r@ == plain_request(KiteEndpoint::CancelGTT, seq![gtt_id@]),
    {
        plain(KiteEndpoint::CancelGTT, one_segment(gtt_id))
    }
}

/// `1` for true and `0` for false, when a flag is given.
pub open spec fn opt_flag(b: Option<bool>) -> Option<Seq<char>> {
    match b {
        Some(true) => Some("1"@),
        Some(false) => Some("0"@),
        None => None,
    }
}

/// `1` for true and `0` for false, when a flag is given.
fn flag_text(b: Option<bool>) -> (s: Option<&'static str>)
    ensures
        opt_view(s) == opt_flag(b),
{
    match b {
        Some(true) => Some("1"),
        Some(false) => Some("0"),
        None => None,
    }
}

/// The form of a GTT: type, symbol, exchange, the trigger values joined
/// with commas, the last price and the orders' JSON text.
pub open spec fn gtt_form(
    trigger_type: Seq<char>,
    tradingsymbol: Seq<char>,
    exchange: Seq<char>,
    trigger_values: Seq<Seq<char>>,
    last_price: Seq<char>,
    orders_json: Seq<char>,
) -> ParamsView {
    seq![
        ("type"@, trigger_type),
        ("tradingsymbol"@, tradingsymbol),
        ("exchange"@, exchange),
        ("trigger_values"@, join(trigger_values, ","@)),
        ("last_price"@, last_price),
        ("orders"@, orders_json),
    ]
}

/// The form parameters of a GTT.
fn gtt_params(
    trigger_type: &str,
    tradingsymbol: &str,
    exchange: &str,
    trigger_values: &Vec<String>,
    last_price: &str,
    orders_json: &str,
) -> (form: Vec<(String, String)>)
    ensures
        params_view(form@) == gtt_form(
            trigger_type@,
            tradingsymbol@,
            exchange@,
            string_views(trigger_values@),
            last_price@,
            orders_json@,
        ),
        names_unique(params_view(form@)),
{
    let joined = join_strings(trigger_values, ",");
    proof {
        reveal_strlit("type");
        reveal_strlit("tradingsymbol");
        reveal_strlit("exchange");
        reveal_strlit("trigger_values");
        reveal_strlit("last_price");
        reveal_strlit("orders");
        assert("type"@.len() == 4);
        assert("tradingsymbol"@.len() == 13);
        assert("exchange"@.len() == 8);
        assert("trigger_values"@.len() == 14);
        assert("last_price"@.len() == 10);
        assert("orders"@.len() == 6);
    }
    let mut form = no_params();
    push_new_param(&mut form, "type", trigger_type);
    push_new_param(&mut form, "tradingsymbol", tradingsymbol);
    push_new_param(&mut form, "exchange", exchange);
    push_new_param(&mut form, "trigger_values", joined.as_str());
    push_new_param(&mut form, "last_price", last_price);
    push_new_param(&mut form, "orders", orders_json);
    assert(params_view(form@) =~= gtt_form(
        trigger_type@,
        tradingsymbol@,
        exchange@,
        string_views(trigger_values@),
        last_price@,
        orders_json@,
    ));
    form
}

} // verus!
