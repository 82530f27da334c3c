//! Client-side logic of the web-search API: query parameters, query-string
//! building, credential selection, and the summarizer key handshake. The
//! HTTP calls themselves happen outside the library; everything here is pure
//! and goes from plain values to plain values.

use vstd::prelude::*;
use vstd::string::StringExecFns;

use crate::events::opt_str_rep;
use crate::json::JsonRep;
use crate::json::JsonValue;
use crate::json::rep_get;
use crate::text::pairs_rep;
use crate::text::push_pair;
use crate::text::spec_dec;
use crate::text::u64_to_dec;

verus! {

/// Subscription token of the web-search API.
#[derive(Debug, Clone)]
pub struct Auth {
    pub subscription_token: String,
}

impl Auth {
    pub fn new(subscription_token: &str) -> (a: Self)
        ensures
            a.subscription_token@ == subscription_token@,
    {
        Auth { subscription_token: subscription_token.to_owned() }
    }
}

/// The web-search client: credentials and the endpoint base. The HTTP agent
/// lives with the caller that performs the requests.
#[derive(Debug, Clone)]
pub struct Brave {
    pub auth: Auth,
    pub api_url: String,
}

impl Brave {
    pub fn new(auth: Auth, api_url: &str) -> (b: Self)
        ensures
            b.auth.subscription_token@ == auth.subscription_token@,
            b.api_url@ == api_url@,
    {
        Brave { auth, api_url: api_url.to_owned() }
    }
}

/// A `(key, value)` segment contributed by an optional string parameter.
pub open spec fn opt_pair(key: Seq<char>, v: Option<Seq<char>>) -> Seq<(Seq<char>, Seq<char>)> {
    match v {
        Some(s) => seq![(key, s)],
        None => Seq::empty(),
    }
}

/// A `(key, value)` segment contributed by an optional numeric parameter.
pub open spec fn num_pair(key: Seq<char>, v: Option<u16>) -> Seq<(Seq<char>, Seq<char>)> {
    match v {
        Some(n) => seq![(key, spec_dec(n as nat))],
        None => Seq::empty(),
    }
}

fn push_opt_pair(out: &mut Vec<(String, String)>, key: &str, v: &Option<String>)
    ensures
        pairs_rep(final(out)@) == pairs_rep(old(out)@) + opt_pair(key@, opt_str_rep(*v)),
{
    match v {
        Some(s) => {
            push_pair(out, String::from_str(key), s.clone());
        },
        None => {
            proof {
                assert(pairs_rep(out@) =~= pairs_rep(out@) + opt_pair(key@, opt_str_rep(*v)));
            }
        },
    }
}

fn push_num_pair(out: &mut Vec<(String, String)>, key: &str, v: &Option<u16>)
    ensures
        pairs_rep(final(out)@) == pairs_rep(old(out)@) + num_pair(key@, *v),
{
    match v {
        Some(n) => {
            push_pair(out, String::from_str(key), u64_to_dec(*n as u64));
        },
        None => {
            proof {
                assert(pairs_rep(out@) =~= pairs_rep(out@) + num_pair(key@, *v));
            }
        },
    }
}

/// Query parameters of a web search. `q` is required; everything else is
/// sent only when set.
#[derive(Debug, Clone)]
pub struct WebSearchParams {
    pub q: String,
    pub country: Option<String>,
    pub search_lang: Option<String>,
    pub ui_lang: Option<String>,
    pub count: Option<u16>,
    pub offset: Option<u16>,
    pub safesearch: Option<String>,
    pub freshness: Option<String>,
    pub text_decorations: Option<String>,
    pub spellcheck: Option<String>,
    pub result_filter: Option<String>,
    pub goggles_id: Option<String>,
    pub units: Option<String>,
    pub extra_snippets: Option<String>,
    pub summary: Option<String>,
}

/// Model of `WebSearchParams`.
pub struct WebSearchParamsRep {
    pub q: Seq<char>,
    pub country: Option<Seq<char>>,
    pub search_lang: Option<Seq<char>>,
    pub ui_lang: Option<Seq<char>>,
    pub count: Option<u16>,
    pub offset: Option<u16>,
    pub safesearch: Option<Seq<char>>,
    pub freshness: Option<Seq<char>>,
    pub text_decorations: Option<Seq<char>>,
    pub spellcheck: Option<Seq<char>>,
    pub result_filter: Option<Seq<char>>,
    pub goggles_id: Option<Seq<char>>,
    pub units: Option<Seq<char>>,
    pub extra_snippets: Option<Seq<char>>,
    pub summary: Option<Seq<char>>,
}

impl View for WebSearchParams {
    type V = WebSearchParamsRep;

    open spec fn view(&self) -> WebSearchParamsRep {
        WebSearchParamsRep {
            q: self.q@,
            country: opt_str_rep(self.country),
            search_lang: opt_str_rep(self.search_lang),
            ui_lang: opt_str_rep(self.ui_lang),
            count: self.count,
            offset: self.offset,
            safesearch: opt_str_rep(self.safesearch),
            freshness: opt_str_rep(self.freshness),
            text_decorations: opt_str_rep(self.text_decorations),
            spellcheck: opt_str_rep(self.spellcheck),
            result_filter: opt_str_rep(self.result_filter),
            goggles_id: opt_str_rep(self.goggles_id),
            units: opt_str_rep(self.units),
            extra_snippets: opt_str_rep(self.extra_snippets),
            summary: opt_str_rep(self.summary),
        }
    }
}

/// The query-pair list a web search sends: `q` first, then each set
/// parameter under its key, in a fixed order.
pub open spec fn spec_web_query_params(p: WebSearchParamsRep) -> Seq<(Seq<char>, Seq<char>)> {
    seq![("q"@, p.q)] + opt_pair("country"@, p.country) + opt_pair("search_lang"@, p.search_lang)
        + opt_pair("ui_lang"@, p.ui_lang) + num_pair("count"@, p.count) + num_pair(
        "offset"@,
        p.offset,
    ) + opt_pair("safesearch"@, p.safesearch) + opt_pair("freshness"@, p.freshness) + opt_pair(
        "text_decorations"@,
        p.text_decorations,
    ) + opt_pair("spellcheck"@, p.spellcheck) + opt_pair("result_filter"@, p.result_filter)
        + opt_pair("goggles_id"@, p.goggles_id) + opt_pair("units"@, p.units) + opt_pair(
        "extra_snippets"@,
        p.extra_snippets,
    ) + opt_pair("summary"@, p.summary)
}

impl WebSearchParams {
    /// Parameters with only the query term set.
    pub fn new(q: &str) -> (p: Self)
        ensures
            p@ == (WebSearchParamsRep {
                q: q@,
                country: None,
                search_lang: None,
                ui_lang: None,
                count: None,
                offset: None,
                safesearch: None,
                freshness: None,
                text_decorations: None,
                spellcheck: None,
                result_filter: None,
                goggles_id: None,
                units: None,
                extra_snippets: None,
                summary: None,
            }),
    {
        WebSearchParams {
            q: q.to_owned(),
            country: None,
            search_lang: None,
            ui_lang: None,
            count: None,
            offset: None,
            safesearch: None,
            freshness: None,
            text_decorations: None,
            spellcheck: None,
            result_filter: None,
            goggles_id: None,
            units: None,
            extra_snippets: None,
            summary: None,
        }
    }

    /// The query pairs to send: exactly `spec_web_query_params` of these
    /// parameters.
    pub fn to_query_params(&self) -> (out: Vec<(String, String)>)
        ensures
            pairs_rep(out@) == spec_web_query_params(self@),
    {
        let mut out: Vec<(String, String)> = Vec::new();
        push_pair(&mut out, String::from_str("q"), self.q.clone());
        proof {
            assert(pairs_rep(out@) =~= seq![("q"@, self.q@)]);
        }
        push_opt_pair(&mut out, "country", &self.country);
        push_opt_pair(&mut out, "search_lang", &self.search_lang);
        push_opt_pair(&mut out, "ui_lang", &self.ui_lang);
        push_num_pair(&mut out, "count", &self.count);
        push_num_pair(&mut out, "offset", &self.offset);
        push_opt_pair(&mut out, "safesearch", &self.safesearch);
        push_opt_pair(&mut out, "freshness", &self.freshness);
        push_opt_pair(&mut out, "text_decorations", &self.text_decorations);
        push_opt_pair(&mut out, "spellcheck", &self.spellcheck);
        push_opt_pair(&mut out, "result_filter", &self.result_filter);
        push_opt_pair(&mut out, "goggles_id", &self.goggles_id);
        push_opt_pair(&mut out, "units", &self.units);
        push_opt_pair(&mut out, "extra_snippets", &self.extra_snippets);
        push_opt_pair(&mut out, "summary", &self.summary);
        out
    }
}

/// Query parameters of the suggest API. `q` is required; the rest are sent
/// only when set.
#[derive(Debug, Clone)]
pub struct SuggestSearchParams {
    pub q: String,
    pub country: Option<String>,
    pub lang: Option<String>,
    pub count: Option<u16>,
    pub rich: Option<String>,
}

/// Model of `SuggestSearchParams`.
pub struct SuggestSearchParamsRep {
    pub q: Seq<char>,
    pub country: Option<Seq<char>>,
    pub lang: Option<Seq<char>>,
    pub count: Option<u16>,
    pub rich: Option<Seq<char>>,
}

impl View for SuggestSearchParams {
    type V = SuggestSearchParamsRep;

    open spec fn view(&self) -> SuggestSearchParamsRep {
        SuggestSearchParamsRep {
            q: self.q@,
            country: opt_str_rep(self.country),
            lang: opt_str_rep(self.lang),
            count: self.count,
            rich: opt_str_rep(self.rich),
        }
    }
}

/// The query-pair list a suggest search sends.
pub open spec fn spec_suggest_query_params(p: SuggestSearchParamsRep) -> Seq<
    (Seq<char>, Seq<char>),
> {
    seq![("q"@, p.q)] + opt_pair("country"@, p.country) + opt_pair("lang"@, p.lang) + num_pair(
        "count"@,
        p.count,
    ) + opt_pair("rich"@, p.rich)
}

impl SuggestSearchParams {
    /// Parameters with only the query term set.
    pub fn new(q: &str) -> (p: Self)
        ensures
            p@ == (SuggestSearchParamsRep {
                q: q@,
                country: None,
                lang: None,
                count: None,
                rich: None,
            }),
    {
        SuggestSearchParams { q: q.to_owned(), country: None, lang: None, count: None, rich: None }
    }

    /// The query pairs to send: exactly `spec_suggest_query_params` of these
    /// parameters.
    pub fn to_query_params(&self) -> (out: Vec<(String, String)>)
        ensures
            pairs_rep(out@) == spec_suggest_query_params(self@),
    {
        let mut out: Vec<(String, String)> = Vec::new();
        push_pair(&mut out, String::from_str("q"), self.q.clone());
        proof {
            assert(pairs_rep(out@) =~= seq![("q"@, self.q@)]);
        }
        push_opt_pair(&mut out, "country", &self.country);
        push_opt_pair(&mut out, "lang", &self.lang);
        push_num_pair(&mut out, "count", &self.count);
        push_opt_pair(&mut out, "rich", &self.rich);
        out
    }
}

/// Error of a web-search call.
#[derive(Debug, Clone)]
pub enum Error {
    /// An unclassified error, with its description.
    Unknown(String),
    /// An error the API returned, as its JSON text.
    ApiError(String),
    /// A value could not be serialized.
    SerializeError(String),
    /// A response could not be deserialized.
    DeserializeError(String),
    /// A response body could not be read as JSON.
    DeserializeIoError(String),
    /// A transport-level failure outside the API.
    RequestError(String),
}

/// Model of `Error`.
pub enum ErrorRep {
    Unknown(Seq<char>),
    ApiError(Seq<char>),
    SerializeError(Seq<char>),
    DeserializeError(Seq<char>),
    DeserializeIoError(Seq<char>),
    RequestError(Seq<char>),
}

impl View for Error {
    type V = ErrorRep;

    open spec fn view(&self) -> ErrorRep {
        match self {
            Error::Unknown(s) => ErrorRep::Unknown(s@),
            Error::ApiError(s) => ErrorRep::ApiError(s@),
            Error::SerializeError(s) => ErrorRep::SerializeError(s@),
            Error::DeserializeError(s) => ErrorRep::DeserializeError(s@),
            Error::DeserializeIoError(s) => ErrorRep::DeserializeIoError(s@),
            Error::RequestError(s) => ErrorRep::RequestError(s@),
        }
    }
}

/// The display text of an error.
pub open spec fn spec_error_message(e: ErrorRep) -> Seq<char> {
    match e {
        ErrorRep::Unknown(s) => "sse stream error: "@ + s,
        ErrorRep::ApiError(s) => "API Error: "@ + s,
        ErrorRep::SerializeError(s) => "serialize error: "@ + s,
        ErrorRep::DeserializeError(s) => "deserialize error: "@ + s,
        ErrorRep::DeserializeIoError(s) => "deserialize into error: "@ + s,
        ErrorRep::RequestError(s) => "Request Error: "@ + s,
    }
}

impl Error {
    /// The error as display text.
    pub fn message(&self) -> (out: String)
        ensures
            out@ == spec_error_message(self@),
    {
        let mut out = match self {
            Error::Unknown(_) => String::from_str("sse stream error: "),
            Error::ApiError(_) => String::from_str("API Error: "),
            Error::SerializeError(_) => String::from_str("serialize error: "),
            Error::DeserializeError(_) => String::from_str("deserialize error: "),
            Error::DeserializeIoError(_) => String::from_str("deserialize into error: "),
            Error::RequestError(_) => String::from_str("Request Error: "),
        };
        match self {
            Error::Unknown(s) => out.append(s.as_str()),
            Error::ApiError(s) => out.append(s.as_str()),
            Error::SerializeError(s) => out.append(s.as_str()),
            Error::DeserializeError(s) => out.append(s.as_str()),
            Error::DeserializeIoError(s) => out.append(s.as_str()),
            Error::RequestError(s) => out.append(s.as_str()),
        }
        out
    }
}

/// The text of one query pair, `key=value`.
pub open spec fn spec_pair_text(p: (Seq<char>, Seq<char>)) -> Seq<char> {
    p.0 + "="@ + p.1
}

/// The `&`-joined text of the first `n` query pairs.
pub open spec fn spec_query_string(ps: Seq<(Seq<char>, Seq<char>)>, n: int) -> Seq<char>
    decreases n,
{
    if n <= 0 || n > ps.len() {
        Seq::empty()
    } else if n == 1 {
        spec_pair_text(ps[0])
    } else {
        spec_query_string(ps, n - 1) + "&"@ + spec_pair_text(ps[n - 1])
    }
}

/// Join query pairs as `key=value&key=value&...`, in order.
pub fn query_string(pairs: &Vec<(String, String)>) -> (out: String)
    ensures
        out@ == spec_query_string(pairs_rep(pairs@), pairs@.len() as int),
{
    let ghost reps = pairs_rep(pairs@);
    let mut out = String::new();
    let mut i: usize = 0;
    while i < pairs.len()
        invariant
            reps == pairs_rep(pairs@),
            reps.len() == pairs@.len(),
            i <= pairs@.len(),
            out@ == spec_query_string(reps, i as int),
        decreases pairs@.len() - i,
    {
        if i > 0 {
            out.append("&");
        }
        out.append(pairs[i].0.as_str());
        out.append("=");
        out.append(pairs[i].1.as_str());
        proof {
            assert(out@ =~= spec_query_string(reps, i as int + 1));
        }
        i = i + 1;
    }
    out
}

/// The URL of an endpoint under the API base.
pub fn request_url(api_url: &str, sub_url: &str) -> (out: String)
    ensures
        out@ == api_url@ + "/"@ + sub_url@,
{
    let mut out = String::from_str(api_url);
    out.append("/");
    out.append(sub_url);
    out
}

/// What percent-encoding a text yields. The byte-level encoding is
/// `percent_encoding`'s business; this name stands for its answer, which
/// depends on the text alone.
pub uninterp spec fn percent_encoded(s: Seq<char>) -> Seq<char>;

/// Relies on `percent_encoding::utf8_percent_encode` with the
/// `NON_ALPHANUMERIC` set: every byte of the text's UTF-8 encoding other
/// than an ASCII letter or digit becomes `%XX`.
#[verifier::external_body]
fn percent_encode_component(s: &str) -> (r: String)
    ensures
        r@ == percent_encoded(s@),
{
    percent_encoding::utf8_percent_encode(s, percent_encoding::NON_ALPHANUMERIC).to_string()
}

/// The URL of a summarizer follow-up query for a given key.
pub open spec fn spec_summarize_url(api_url: Seq<char>, sub_url: Seq<char>, key: Seq<char>) -> Seq<
    char,
> {
    api_url + "/"@ + sub_url + "?key="@ + percent_encoded(key) + "&entity_info=1"@
}

/// Build the summarizer follow-up URL, percent-encoding the key.
pub fn summarize_url(api_url: &str, sub_url: &str, key: &str) -> (out: String)
    ensures
        out@ == spec_summarize_url(api_url@, sub_url@, key@),
{
    let mut out = String::from_str(api_url);
    out.append("/");
    out.append(sub_url);
    out.append("?key=");
    let encoded = percent_encode_component(key);
    out.append(encoded.as_str());
    out.append("&entity_info=1");
    out
}

/// Which subscription a command runs under.
#[derive(Debug, Clone, Copy, PartialEq, Eq, Structural)]
pub enum Subscription {
    Suggest,
    WebSearch,
}

/// Pick the credential for a command: an explicit subscription token wins;
/// otherwise the key of the subscription the command needs.
pub fn select_subscription_token(
    subscription: Subscription,
    subscription_token: Option<String>,
    web_search_key: Option<String>,
    suggest_key: Option<String>,
) -> (r: Option<String>)
    ensures
        subscription_token is Some ==> r == subscription_token,
        subscription_token is None && subscription == Subscription::WebSearch ==> r
            == web_search_key,
        subscription_token is None && subscription == Subscription::Suggest ==> r == suggest_key,
{
    match subscription_token {
        Some(t) => Some(t),
        None => match subscription {
            Subscription::Suggest => suggest_key,
            Subscription::WebSearch => web_search_key,
        },
    }
}

/// The summarizer key of a web-search response document, if one is present.
pub open spec fn spec_summarizer_key(doc: JsonRep) -> Option<Seq<char>> {
    match rep_get(doc, "summarizer"@) {
        Option::Some(s) => match rep_get(s, "key"@) {
            Option::Some(JsonRep::Text(k)) => Some(k),
            _ => None,
        },
        Option::None => None,
    }
}

/// Extract the summarizer key of a web-search response document.
pub fn summarizer_key(v: &JsonValue) -> (r: Option<String>)
    ensures
        r matches Some(k) ==> spec_summarizer_key(v@) == Some(k@),
        r is None ==> spec_summarizer_key(v@) is None,
{
    match v.get_field("summarizer") {
        Some(s) => match s.get_field("key") {
            Some(f) => match f {
                JsonValue::Text(k) => Some(k.clone()),
                _ => None,
            },
            None => None,
        },
        None => None,
    }
}

/// The decision after the first summarize query: the key for the follow-up
/// query where the response offers one, and otherwise the error the caller
/// reports.
pub fn summarize_step(v: &JsonValue) -> (r: Result<String, Error>)
    ensures
        r matches Ok(k) ==> spec_summarizer_key(v@) == Some(k@),
        r matches Err(e) ==> spec_summarizer_key(v@) is None && e@ == ErrorRep::ApiError(
            "No summarizer found"@,
        ),
{
    match summarizer_key(v) {
        Some(k) => Ok(k),
        None => Err(Error::ApiError(String::from_str("No summarizer found"))),
    }
}

/// What response handling yields: the parsed body on success, the API's own
/// error body re-rendered as JSON text on an error status, and the transport
/// note otherwise. A body that is not JSON is refused as unreadable.
pub open spec fn spec_deal_response(o: crate::http::HttpOutcomeRep) -> Result<JsonRep, ErrorRep> {
    match o {
        crate::http::HttpOutcomeRep::Success { body } => match crate::json::json_doc_of(body) {
            Option::Some(d) => Ok(d),
            Option::None => Err(ErrorRep::DeserializeIoError(body)),
        },
        crate::http::HttpOutcomeRep::Status { code, body } => match crate::json::json_doc_of(
            body,
        ) {
            Option::Some(d) => Err(ErrorRep::ApiError(crate::json::spec_json_text(d))),
            Option::None => Err(ErrorRep::DeserializeIoError(body)),
        },
        crate::http::HttpOutcomeRep::Transport { note } => Err(ErrorRep::RequestError(note)),
    }
}

/// Handle one request's outcome.
pub fn deal_response(outcome: crate::http::HttpOutcome) -> (r: Result<JsonValue, Error>)
    ensures
        r matches Ok(v) ==> spec_deal_response(outcome@) == Ok::<JsonRep, ErrorRep>(v@),
        r matches Err(e) ==> spec_deal_response(outcome@) == Err::<JsonRep, ErrorRep>(e@),
{
    match outcome {
        crate::http::HttpOutcome::Success { body } => match crate::json::parse_json(
            body.as_str(),
        ) {
            Some(d) => Ok(d),
            None => Err(Error::DeserializeIoError(body)),
        },
        crate::http::HttpOutcome::Status { code: _, body } => match crate::json::parse_json(
            body.as_str(),
        ) {
            Some(d) => Err(Error::ApiError(d.to_text())),
            None => Err(Error::DeserializeIoError(body)),
        },
        crate::http::HttpOutcome::Transport { note } => Err(Error::RequestError(note)),
    }
}

} // verus!
