//! Common types of the proposal service: the L1 client, the rollup node
//! client and the output oracle contract.

use vstd::prelude::*;
use ethers_providers::{Http, Provider};
use crate::errors::RollupNodeError;
use std::sync::Arc;

verus! {

#[verifier::external_type_specification]
#[verifier::external_body]
#[verifier::reject_recursive_types(P)]
pub struct ExProvider<P>(Provider<P>);

#[verifier::external_type_specification]
#[verifier::external_body]
pub struct ExHttp(Http);

/// What the `url` crate makes of `url`, as `ethers_providers` parses it for an
/// HTTP provider: the serialization of the parsed URL (for instance with a
/// trailing "/" added to a bare host), or `None` where it does not parse.
pub uninterp spec fn parsed_url(url: Seq<char>) -> Option<Seq<char>>;

/// Makes an HTTP provider for `url` with `ethers_providers`'s
/// `Provider::<Http>::try_from`, and hands it out with the URL it sends its
/// requests to, read back from the provider. The contract states that it
/// succeeds exactly where the URL parses, and that the provider's URL is the
/// parsed URL; both are functions of the URL alone. Making the provider builds
/// an HTTP client, which panics where the machine offers no TLS backend,
/// whatever the URL; nothing here states that.
#[verifier::external_body]
fn http_provider(url: &str) -> (r: Option<(Provider<Http>, String)>)
    ensures
        r is Some <==> parsed_url(url@) is Some,
        r matches Some(p) ==> parsed_url(url@) == Some(p.1@),
{
    Provider::<Http>::try_from(url).ok().map(|provider| {
        let endpoint = provider.as_ref().url().to_string();
        (provider, endpoint)
    })
}

/// An HTTP provider together with the URL it sends its requests to.
pub struct HttpProvider {
    provider: Provider<Http>,
    url: String,
}

/// An L1Client is an HTTP provider for Ethereum Mainnet.
pub type L1Client = HttpProvider;

impl HttpProvider {
    /// The URL the provider sends its requests to.
    pub closed spec fn url_spec(&self) -> Seq<char> {
        self.url@
    }

    /// The provider.
    pub closed spec fn provider_spec(&self) -> Provider<Http> {
        self.provider
    }

    /// An HTTP provider for `url`, where the URL parses; it sends its requests
    /// to the parsed URL.
    pub fn from_url(url: &str) -> (r: Option<HttpProvider>)
        ensures
            r is Some <==> parsed_url(url@) is Some,
            r matches Some(p) ==> parsed_url(url@) == Some(p.url_spec()),
    {
        match http_provider(url) {
            Some((provider, endpoint)) => Some(HttpProvider { provider, url: endpoint }),
            None => None,
        }
    }

    /// The provider.
    pub fn provider(&self) -> (p: &Provider<Http>)
        ensures
            *p == self.provider_spec(),
    {
        &self.provider
    }

    /// The URL the provider sends its requests to.
    pub fn url(&self) -> (u: &String)
        ensures
            u@ == self.url_spec(),
    {
        &self.url
    }
}

/// A client of a rollup node's RPC, served over HTTP.
pub struct RollupNode {
    client: HttpProvider,
}

impl RollupNode {
    /// Makes a client of the rollup node served at `url`; fails where the url
    /// is not accepted.
    pub fn from_url(url: String) -> (res: Result<RollupNode, RollupNodeError>)
        ensures
            res is Ok <==> parsed_url(url@) is Some,
            res matches Ok(n) ==> parsed_url(url@) == Some(n.url_spec()),
            res matches Err(e) ==> (e is RollupNodeInvalidUrl && e->RollupNodeInvalidUrl_0@
                == url@),
    {
        match HttpProvider::from_url(url.as_str()) {
            Some(client) => Ok(RollupNode { client }),
            None => Err(RollupNodeError::RollupNodeInvalidUrl(url)),
        }
    }

    /// The URL of the rollup node's RPC.
    pub closed spec fn url_spec(&self) -> Seq<char> {
        self.client.url_spec()
    }

    /// The HTTP provider that carries the rollup node's RPC.
    pub closed spec fn client_spec(&self) -> HttpProvider {
        self.client
    }

    /// The HTTP provider that carries the rollup node's RPC.
    pub fn client(&self) -> (c: &HttpProvider)
        ensures
            *c == self.client_spec(),
            c.url_spec() == self.url_spec(),
    {
        &self.client
    }
}

/// The L2 output oracle contract at an address, reached through a client.
pub struct OutputOracleContract<C> {
    address: [u8; 20],
    client: Arc<C>,
}

/// The output oracle contract reached through the L1 client.
pub type OutputOracle = OutputOracleContract<L1Client>;

impl<C> OutputOracleContract<C> {
    /// The contract's address.
    pub closed spec fn address_spec(&self) -> Seq<u8> {
        self.address@
    }

    /// The client through which the contract is reached.
    pub closed spec fn client_spec(&self) -> Arc<C> {
        self.client
    }

    /// The contract at `address`, reached through `client`.
    pub fn new(address: [u8; 20], client: Arc<C>) -> (c: Self)
        ensures
            c.address_spec() == address@,
            c.client_spec() == client,
    {
        OutputOracleContract { address, client }
    }

    /// The contract's address.
    pub fn address(&self) -> (a: [u8; 20])
        ensures
            a@ == self.address_spec(),
    {
        self.address
    }

    /// The client through which the contract is reached.
    pub fn client(&self) -> (c: &Arc<C>)
        ensures
            *c == self.client_spec(),
    {
        &self.client
    }
}

} // verus!
