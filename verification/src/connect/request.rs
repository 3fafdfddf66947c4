//! An API request as plain values: the endpoint, the dynamic path segments,
//! and the query and form parameters, ready to be sent.

use super::endpoints::{endpoint_method, endpoint_path, path_with_segments, HttpMethod, KiteEndpoint};
use crate::text::{owned, string_views};
use vstd::prelude::*;

verus! {

/// A list of `key=value` parameters, as views.
pub type ParamsView = Seq<(Seq<char>, Seq<char>)>;

/// The views of a list of parameters.
pub open spec fn params_view(v: Seq<(String, String)>) -> ParamsView {
    v.map_values(|p: (String, String)| (p.0@, p.1@))
}

/// The view of an optional string slice.
pub open spec fn opt_view(o: Option<&str>) -> Option<Seq<char>> {
    match o {
        Some(s) => Some(s@),
        None => None,
    }
}

/// The parameter `key=value` if a value is given, else nothing.
pub open spec fn opt_param(key: Seq<char>, value: Option<Seq<char>>) -> ParamsView {
    match value {
        Some(v) => seq![(key, v)],
        None => Seq::empty(),
    }
}

/// The view of an optional parameter list.
pub open spec fn opt_params_view(o: Option<Vec<(String, String)>>) -> Option<ParamsView> {
    match o {
        Some(v) => Some(params_view(v@)),
        None => None,
    }
}

/// Appends the parameter `key=value`.
pub fn push_param(params: &mut Vec<(String, String)>, key: &str, value: &str)
    ensures
        params_view(final(params)@) == params_view(old(params)@).push((key@, value@)),
{
    params.push((owned(key), owned(value)));
    assert(params_view(params@) =~= params_view(old(params)@).push((key@, value@)));
}

/// The names of a list of parameters, in order.
pub open spec fn param_names(p: ParamsView) -> Seq<Seq<char>> {
    p.map_values(|kv: (Seq<char>, Seq<char>)| kv.0)
}

/// Whether no two parameters of a list share a name.
pub open spec fn names_unique(p: ParamsView) -> bool {
    param_names(p).no_duplicates()
}

/// Appends the parameter `key=value` to a list whose names are unique and
/// do not include `key`; the names stay unique.
pub fn push_new_param(params: &mut Vec<(String, String)>, key: &str, value: &str)
    requires
        names_unique(params_view(old(params)@)),
        !param_names(params_view(old(params)@)).contains(key@),
    ensures
        params_view(final(params)@) == params_view(old(params)@).push((key@, value@)),
        names_unique(params_view(final(params)@)),
        forall|n: Seq<char>| #[trigger]
            param_names(params_view(final(params)@)).contains(n) <==> (param_names(
                params_view(old(params)@),
            ).contains(n) || n == key@),
{
    let ghost before = params_view(params@);
    push_param(params, key, value);
    let ghost after = params_view(params@);
    assert(param_names(after) =~= param_names(before).push(key@));
    assert forall|n: Seq<char>| #[trigger]
        param_names(after).contains(n) <==> (param_names(before).contains(n) || n == key@) by {
        if param_names(after).contains(n) {
            let i = choose|i: int| 0 <= i < param_names(after).len() && param_names(after)[i] == n;
            if i < param_names(before).len() {
                assert(param_names(before)[i] == n);
            }
        }
        if param_names(before).contains(n) {
            let i = choose|i: int| 0 <= i < param_names(before).len() && param_names(before)[i] == n;
            assert(param_names(after)[i] == n);
        }
        if n == key@ {
            assert(param_names(after)[param_names(before).len() as int] == n);
        }
    }
}

/// Appends the parameter `key=value` when a value is given, to a list whose
/// names are unique and do not include `key`; the names stay unique.
pub fn push_new_opt_param(params: &mut Vec<(String, String)>, key: &str, value: Option<&str>)
    requires
        names_unique(params_view(old(params)@)),
        !param_names(params_view(old(params)@)).contains(key@),
    ensures
        params_view(final(params)@) == params_view(old(params)@) + opt_param(key@, opt_view(value)),
        names_unique(params_view(final(params)@)),
        forall|n: Seq<char>| #[trigger]
            param_names(params_view(final(params)@)).contains(n) ==> (param_names(
                params_view(old(params)@),
            ).contains(n) || n == key@),
{
    match value {
        Some(v) => push_new_param(params, key, v),
        None => {},
    }
    assert(params_view(params@) =~= params_view(old(params)@) + opt_param(key@, opt_view(value)));
}

/// Appends the parameter `key=value` when a value is given.
pub fn push_opt_param(params: &mut Vec<(String, String)>, key: &str, value: Option<&str>)
    ensures
        params_view(final(params)@) == params_view(old(params)@) + opt_param(key@, opt_view(value)),
{
    match value {
        Some(v) => push_param(params, key, v),
        None => {},
    }
    assert(params_view(params@) =~= params_view(old(params)@) + opt_param(key@, opt_view(value)));
}

/// What a request is: its endpoint, path segments, query and form parameters.
pub struct RequestView {
    /// The endpoint.
    pub endpoint: KiteEndpoint,
    /// Dynamic path segments appended to the endpoint's path.
    pub segments: Seq<Seq<char>>,
    /// Query parameters, if the request has a query.
    pub query: Option<ParamsView>,
    /// Form parameters, if the request has a form body.
    pub form: Option<ParamsView>,
}

/// A request to the API.
#[derive(Debug, Clone)]
pub struct ApiRequest {
    /// The endpoint.
    pub endpoint: KiteEndpoint,
    /// Dynamic path segments appended to the endpoint's path.
    pub segments: Vec<String>,
    /// Query parameters, if the request has a query.
    pub query: Option<Vec<(String, String)>>,
    /// Form parameters, if the request has a form body.
    pub form: Option<Vec<(String, String)>>,
}

impl View for ApiRequest {
    type V = RequestView;

    open spec fn view(&self) -> RequestView {
        RequestView {
            endpoint: self.endpoint,
            segments: string_views(self.segments@),
            query: opt_params_view(self.query),
            form: opt_params_view(self.form),
        }
    }
}

impl ApiRequest {
    /// A request from its parts.
    pub fn new(
        endpoint: KiteEndpoint,
        segments: Vec<String>,
        query: Option<Vec<(String, String)>>,
        form: Option<Vec<(String, String)>>,
    ) -> (r: Self)
        ensures
            r.endpoint == endpoint,
            r.segments == segments,
            r.query == query,
            r.form == form,
    {
        ApiRequest { endpoint, segments, query, form }
    }

    /// The HTTP method of the request.
    pub fn method(&self) -> (m: HttpMethod)
        ensures
            m == endpoint_method(self.endpoint),
    {
        self.endpoint.method()
    }

    /// The request's path: the endpoint's path and each segment after a `/`.
    pub fn path(&self) -> (p: String)
        ensures
            p@ == path_with_segments(endpoint_path(self.endpoint), string_views(self.segments@)),
    {
        let ghost segs = string_views(self.segments@);
        let mut out = owned(self.endpoint.path());
        let mut i: usize = 0;
        while i < self.segments.len()
            invariant
                0 <= i <= self.segments@.len(),
                segs == string_views(self.segments@),
                out@ == path_with_segments(endpoint_path(self.endpoint), segs.take(i as int)),
            decreases self.segments@.len() - i,
        {
            out.append("/");
            out.append(self.segments[i].as_str());
            assert(segs.take(i as int + 1).drop_last() =~= segs.take(i as int));
            i = i + 1;
        }
        assert(segs.take(self.segments@.len() as int) =~= segs);
        out
    }
}

/// How a request carries its form parameters.
#[derive(Debug, Clone, Copy, PartialEq, Eq, Structural)]
pub enum BodyEncoding {
    /// No body: the parameters, if any, are dropped.
    NoBody,
    /// An `application/x-www-form-urlencoded` body.
    Form,
    /// A JSON object body.
    Json,
}

/// The body encoding of each method: GET sends none, POST and PUT send a
/// form, DELETE sends JSON.
pub open spec fn method_body(m: HttpMethod) -> BodyEncoding {
    match m {
        HttpMethod::GET => BodyEncoding::NoBody,
        HttpMethod::POST => BodyEncoding::Form,
        HttpMethod::PUT => BodyEncoding::Form,
        HttpMethod::DELETE => BodyEncoding::Json,
    }
}

/// Requests that create or update (POST and PUT: order, GTT, mutual fund and
/// SIP placement and modification, the session exchange, position
/// conversion) send their parameters as a form body; only deletions send
/// JSON, and reads send no body at all.
pub proof fn lemma_body_follows_method(e: KiteEndpoint)
    ensures
        (method_body(endpoint_method(e)) == BodyEncoding::Form) <==> (endpoint_method(e)
            == HttpMethod::POST || endpoint_method(e) == HttpMethod::PUT),
        (method_body(endpoint_method(e)) == BodyEncoding::Json) <==> endpoint_method(e)
            == HttpMethod::DELETE,
        (method_body(endpoint_method(e)) == BodyEncoding::NoBody) <==> endpoint_method(e)
            == HttpMethod::GET,
        (e == KiteEndpoint::GenerateSession || e == KiteEndpoint::RenewAccessToken || e
            == KiteEndpoint::PlaceOrder || e == KiteEndpoint::ModifyOrder || e
            == KiteEndpoint::PlaceGTT || e == KiteEndpoint::ModifyGTT || e
            == KiteEndpoint::PlaceMFOrder || e == KiteEndpoint::PlaceSIP || e
            == KiteEndpoint::ModifySIP || e == KiteEndpoint::ConvertPosition) ==> method_body(
            endpoint_method(e),
        ) == BodyEncoding::Form,
{
}

impl ApiRequest {
    /// How this request carries its form parameters.
    pub fn body_encoding(&self) -> (b: BodyEncoding)
        ensures
            b == method_body(endpoint_method(self.endpoint)),
            (b == BodyEncoding::Form) <==> (endpoint_method(self.endpoint) == HttpMethod::POST
                || endpoint_method(self.endpoint) == HttpMethod::PUT),
            (b == BodyEncoding::Json) <==> endpoint_method(self.endpoint) == HttpMethod::DELETE,
    {
        match self.endpoint.method() {
            HttpMethod::GET => BodyEncoding::NoBody,
            HttpMethod::POST => BodyEncoding::Form,
            HttpMethod::PUT => BodyEncoding::Form,
            HttpMethod::DELETE => BodyEncoding::Json,
        }
    }
}

/// A segment list of no segments.
pub fn no_segments() -> (v: Vec<String>)
    ensures
        string_views(v@) == Seq::<Seq<char>>::empty(),
{
    let v: Vec<String> = Vec::new();
    assert(string_views(v@) =~= Seq::<Seq<char>>::empty());
    v
}

/// A segment list of one segment.
pub fn one_segment(a: &str) -> (v: Vec<String>)
    ensures
        string_views(v@) == seq![a@],
{
    let mut v: Vec<String> = Vec::new();
    v.push(owned(a));
    assert(string_views(v@) =~= seq![a@]);
    v
}

/// A segment list of two segments.
pub fn two_segments(a: &str, b: &str) -> (v: Vec<String>)
    ensures
        string_views(v@) == seq![a@, b@],
{
    let mut v: Vec<String> = Vec::new();
    v.push(owned(a));
    v.push(owned(b));
    assert(string_views(v@) =~= seq![a@, b@]);
    v
}

/// A segment list of one segment when one is given, else none.
pub fn opt_segment(a: Option<&str>) -> (v: Vec<String>)
    ensures
        string_views(v@) == match a {
            Some(s) => seq![s@],
            None => Seq::<Seq<char>>::empty(),
        },
{
    match a {
        Some(s) => one_segment(s),
        None => no_segments(),
    }
}

/// A copy of a parameter list.
pub fn clone_params(v: &Vec<(String, String)>) -> (r: Vec<(String, String)>)
    ensures
        params_view(r@) == params_view(v@),
{
    let mut r: Vec<(String, String)> = Vec::new();
    let mut i: usize = 0;
    while i < v.len()
        invariant
            0 <= i <= v@.len(),
            r@ == v@.take(i as int),
        decreases v@.len() - i,
    {
        let k = v[i].0.clone();
        let x = v[i].1.clone();
        r.push((k, x));
        assert(r@ =~= v@.take(i as int + 1));
        i = i + 1;
    }
    assert(v@.take(v@.len() as int) =~= v@);
    r
}

/// A copy of an optional parameter list.
pub fn clone_opt_params(v: &Option<Vec<(String, String)>>) -> (r: Option<Vec<(String, String)>>)
    ensures
        opt_params_view(r) == opt_params_view(*v),
{
    match v {
        Some(p) => Some(clone_params(p)),
        None => None,
    }
}

/// An empty parameter list.
pub fn no_params() -> (v: Vec<(String, String)>)
    ensures
        params_view(v@) == ParamsView::empty(),
        param_names(params_view(v@)) == Seq::<Seq<char>>::empty(),
{
    let v: Vec<(String, String)> = Vec::new();
    assert(params_view(v@) =~= ParamsView::empty());
    assert(param_names(params_view(v@)) =~= Seq::<Seq<char>>::empty());
    v
}

} // verus!
