use vstd::prelude::*;
use crate::types::{InstrumentSelection, InstrumentType, TimeSelector, pairs_view, texts_view};

verus! {

/// The characters of `/SEC/B.`, the market-data endpoint up to its ISIN filter.
pub open spec fn market_data_prefix() -> Seq<char> {
    seq!['/', 'S', 'E', 'C', '/', 'B', '.']
}

/// The characters of `/GOVT_PRIMARY_MARKET/`.
pub open spec fn primary_market_prefix() -> Seq<char> {
    seq![
        '/', 'G', 'O', 'V', 'T', '_', 'P', 'R', 'I', 'M', 'A', 'R', 'Y', '_', 'M', 'A', 'R', 'K',
        'E', 'T', '/',
    ]
}

/// The characters of `..B...`, the fixed filter after the instrument types.
pub open spec fn primary_market_suffix() -> Seq<char> {
    seq!['.', '.', 'B', '.', '.', '.']
}

/// The parts joined with `+` between each two, in order.
pub open spec fn join_plus(parts: Seq<Seq<char>>) -> Seq<char>
    decreases parts.len(),
{
    if parts.len() == 0 {
        Seq::empty()
    } else if parts.len() == 1 {
        parts[0]
    } else {
        join_plus(parts.drop_last()) + seq!['+'] + parts.last()
    }
}

/// The parameters that every request carries: `format=sdmx-json`, `locale=en`.
pub open spec fn base_params() -> Seq<(Seq<char>, Seq<char>)> {
    seq![
        (seq!['f', 'o', 'r', 'm', 'a', 't'], seq!['s', 'd', 'm', 'x', '-', 'j', 's', 'o', 'n']),
        (seq!['l', 'o', 'c', 'a', 'l', 'e'], seq!['e', 'n']),
    ]
}

/// The URL of the market-data endpoint for these ISINs.
pub open spec fn market_data_url(base: Seq<char>, isins: Seq<Seq<char>>) -> Seq<char> {
    base + market_data_prefix() + join_plus(isins) + seq!['.']
}

/// The URL of the primary-market endpoint for these instrument types.
pub open spec fn primary_market_url(base: Seq<char>, types: Seq<InstrumentType>) -> Seq<char> {
    base + primary_market_prefix() + join_plus(types.map_values(|t: InstrumentType| t.code()))
        + primary_market_suffix()
}

/// The query parameters of a request with this time selector, in order.
pub open spec fn query_params(ts: TimeSelector) -> Seq<(Seq<char>, Seq<char>)> {
    base_params() + ts.param_view()
}

/// The characters of the default base URL, `https://data.norges-bank.no/api/data`.
pub open spec fn default_base_url() -> Seq<char> {
    seq![
        'h', 't', 't', 'p', 's', ':', '/', '/', 'd', 'a', 't', 'a', '.', 'n', 'o', 'r', 'g', 'e',
        's', '-', 'b', 'a', 'n', 'k', '.', 'n', 'o', '/', 'a', 'p', 'i', '/', 'd', 'a', 't', 'a',
    ]
}

/// The characters of the default identifying header, `MyRustClient/1.0`.
pub open spec fn default_user_agent() -> Seq<char> {
    seq!['M', 'y', 'R', 'u', 's', 't', 'C', 'l', 'i', 'e', 'n', 't', '/', '1', '.', '0']
}

/// A request is refused before any network call when it selects nothing.
#[derive(Debug, Clone, Copy, PartialEq, Eq, Structural)]
pub enum ConfigurationError {
    NoIsin,
    NoInstrument,
}

/// One GET request: the URL and its query parameters in order.
pub struct HttpRequest {
    pub url: String,
    pub params: Vec<(String, String)>,
}

/// The configuration of a client: the base URL, the timeout of a request in
/// seconds, and the `User-Agent` header sent with each request.
pub struct NorgesBankClientBuilder {
    pub base_url: String,
    pub timeout_secs: u64,
    pub user_agent: String,
}

fn join_with_plus(parts: &Vec<String>) -> (r: String)
    ensures
        r@ == join_plus(texts_view(parts@)),
{
    let mut out = String::new();
    let mut i: usize = 0;
    while i < parts.len()
        invariant
            i <= parts.len(),
            out@ == join_plus(texts_view(parts@).take(i as int)),
        decreases parts.len() - i,
    {
        proof {
            reveal_strlit("+");
        }
        if i > 0 {
            out.append("+");
        }
        out.append(parts[i].as_str());
        assert(texts_view(parts@).take(i + 1).drop_last() =~= texts_view(parts@).take(i as int));
        i += 1;
    }
    assert(texts_view(parts@).take(i as int) =~= texts_view(parts@));
    out
}

fn base_query() -> (r: Vec<(String, String)>)
    ensures
        pairs_view(r@) == base_params(),
{
    proof {
        reveal_strlit("format");
        reveal_strlit("sdmx-json");
        reveal_strlit("locale");
        reveal_strlit("en");
    }
    let k1 = "format".to_string();
    let v1 = "sdmx-json".to_string();
    let k2 = "locale".to_string();
    let v2 = "en".to_string();
    assert(k1@ =~= seq!['f', 'o', 'r', 'm', 'a', 't']);
    assert(v1@ =~= seq!['s', 'd', 'm', 'x', '-', 'j', 's', 'o', 'n']);
    assert(k2@ =~= seq!['l', 'o', 'c', 'a', 'l', 'e']);
    assert(v2@ =~= seq!['e', 'n']);
    let r = vec![(k1, v1), (k2, v2)];
    assert(pairs_view(r@) =~= base_params());
    r
}

impl NorgesBankClientBuilder {
    /// The default configuration: the public API of Norges Bank, ten seconds.
    pub fn new() -> (r: Self)
        ensures
            r.base_url@ == default_base_url(),
            r.timeout_secs == 10,
            r.user_agent@ == default_user_agent(),
    {
        proof {
            reveal_strlit("https://data.norges-bank.no/api/data");
            reveal_strlit("MyRustClient/1.0");
        }
        let base_url = "https://data.norges-bank.no/api/data".to_string();
        let user_agent = "MyRustClient/1.0".to_string();
        assert(base_url@ =~= default_base_url());
        assert(user_agent@ =~= default_user_agent());
        NorgesBankClientBuilder { base_url, timeout_secs: 10, user_agent }
    }

    /// The request for prices and yields of the given ISINs, listed in order.
    pub fn market_data_request(&self, timeselector: TimeSelector, isins: &Vec<String>) -> (r:
        Result<HttpRequest, ConfigurationError>)
        ensures
            isins@.len() == 0 <==> r is Err,
            r matches Err(e) ==> e == ConfigurationError::NoIsin,
            r matches Ok(req) ==> req.url@ == market_data_url(self.base_url@, texts_view(isins@))
                && pairs_view(req.params@) == query_params(timeselector),
    {
        if isins.len() == 0 {
            return Err(ConfigurationError::NoIsin);
        }
        let filter = join_with_plus(isins);
        proof {
            reveal_strlit("/SEC/B.");
            reveal_strlit(".");
        }
        let mut url = self.base_url.clone();
        url.append("/SEC/B.");
        url.append(filter.as_str());
        url.append(".");
        let ghost ts = timeselector;
        let params = timeselector.time_matching(base_query());
        assert(url@ =~= market_data_url(self.base_url@, texts_view(isins@)));
        Ok(HttpRequest { url, params })
    }

    /// The request for primary-market data of the selected instrument types.
    pub fn primary_market_request(
        &self,
        timeselector: TimeSelector,
        instrument_types: &InstrumentSelection,
    ) -> (r: Result<HttpRequest, ConfigurationError>)
        ensures
            instrument_types@.len() == 0 <==> r is Err,
            r matches Err(e) ==> e == ConfigurationError::NoInstrument,
            r matches Ok(req) ==> req.url@ == primary_market_url(self.base_url@, instrument_types@)
                && pairs_view(req.params@) == query_params(timeselector),
    {
        let codes = instrument_types.codes();
        if codes.len() == 0 {
            return Err(ConfigurationError::NoInstrument);
        }
        let filter = join_with_plus(&codes);
        proof {
            reveal_strlit("/GOVT_PRIMARY_MARKET/");
            reveal_strlit("..B...");
        }
        let mut url = self.base_url.clone();
        url.append("/GOVT_PRIMARY_MARKET/");
        url.append(filter.as_str());
        url.append("..B...");
        let params = timeselector.time_matching(base_query());
        assert(url@ =~= primary_market_url(self.base_url@, instrument_types@));
        Ok(HttpRequest { url, params })
    }
}

} // verus!
