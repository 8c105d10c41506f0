use vstd::prelude::*;

use crate::error::PuppetError;
use crate::schemas::FriendshipSearchQueryFilter;

verus! {

/// How to reach the puppet service.
#[derive(Clone, Debug)]
pub struct PuppetOptions {
    pub endpoint: Option<String>,
    pub timeout: Option<u64>,
    pub token: Option<String>,
}

/// Where the service endpoint comes from.
#[derive(Clone, Debug)]
pub enum EndpointSource {
    /// Connect to this endpoint.
    Direct(String),
    /// Look the endpoint up with this token first.
    Discover(String),
}

/// Picks how to reach the service: a given endpoint first, else discovery with
/// the token; with neither, the token is invalid.
pub fn endpoint_source(options: &PuppetOptions) -> (r: Result<EndpointSource, PuppetError>)
    ensures
        options.endpoint matches Some(e) ==> (r matches Ok(EndpointSource::Direct(x)) && x@ == e@),
        options.endpoint is None ==> (options.token matches Some(t) ==> (r matches Ok(
            EndpointSource::Discover(x),
        ) && x@ == t@)),
        options.endpoint is None && options.token is None ==> r matches Err(PuppetError::InvalidToken),
{
    match &options.endpoint {
        Some(e) => Ok(EndpointSource::Direct(e.clone())),
        None => match &options.token {
            Some(t) => Ok(EndpointSource::Discover(t.clone())),
            None => Err(PuppetError::InvalidToken),
        },
    }
}

/// Which backend search a friendship search runs.
#[derive(Clone, Debug)]
pub enum FriendshipSearchRoute {
    ByPhone(String),
    ByWeixin(String),
    /// Nothing to search for: the answer is that no contact was found.
    Nothing,
}

/// Routes a friendship search: by phone when a phone is given, else by weixin id.
pub fn friendship_search_route(query: &FriendshipSearchQueryFilter) -> (r: FriendshipSearchRoute)
    ensures
        query.phone matches Some(p) ==> (r matches FriendshipSearchRoute::ByPhone(x) && x@ == p@),
        query.phone is None ==> (query.weixin matches Some(w) ==> (r matches FriendshipSearchRoute::ByWeixin(
            x,
        ) && x@ == w@)),
        query.phone is None && query.weixin is None ==> r is Nothing,
{
    match &query.phone {
        Some(p) => FriendshipSearchRoute::ByPhone(p.clone()),
        None => match &query.weixin {
            Some(w) => FriendshipSearchRoute::ByWeixin(w.clone()),
            None => FriendshipSearchRoute::Nothing,
        },
    }
}

} // verus!
