//! A chat site, the account that watches it, and the requests sent to it.

use vstd::prelude::*;
use vstd::string::*;

verus! {

/// One account on one chat site: the site's name, the user that signs in and
/// the secret token that proves it.
#[derive(Debug, PartialEq, Eq)]
pub struct ZulipSite {
    pub name: String,
    pub user: String,
    pub token: String,
}

/// What a [`ZulipSite`] holds, as text.
pub struct SiteView {
    pub name: Seq<char>,
    pub user: Seq<char>,
    pub token: Seq<char>,
}

impl View for ZulipSite {
    type V = SiteView;

    open spec fn view(&self) -> SiteView {
        SiteView { name: self.name@, user: self.user@, token: self.token@ }
    }
}

impl Clone for ZulipSite {
    fn clone(&self) -> (copy: Self)
        ensures
            copy == *self,
    {
        ZulipSite { name: self.name.clone(), user: self.user.clone(), token: self.token.clone() }
    }
}

/// The sites to watch, as the configuration lists them.
#[derive(Debug, PartialEq, Eq)]
pub struct Config {
    pub sites: Vec<ZulipSite>,
}

/// The views of a list of sites.
pub open spec fn sites_view(sites: Seq<ZulipSite>) -> Seq<SiteView> {
    sites.map_values(|site: ZulipSite| site@)
}

impl View for Config {
    type V = Seq<SiteView>;

    open spec fn view(&self) -> Seq<SiteView> {
        sites_view(self.sites@)
    }
}

/// The two ways in which the service is addressed.
#[derive(Debug, Clone, Copy, PartialEq, Eq, Structural)]
pub enum Method {
    Get,
    Post,
}

/// A request for the service: where it goes and the basic-auth credentials it
/// carries.  Whoever owns the connection sends it.
#[derive(Debug, PartialEq, Eq)]
pub struct Request {
    pub method: Method,
    pub url: String,
    pub user: String,
    pub token: String,
}

/// What a [`Request`] holds, as text.
pub struct RequestView {
    pub method: Method,
    pub url: Seq<char>,
    pub user: Seq<char>,
    pub token: Seq<char>,
}

impl View for Request {
    type V = RequestView;

    open spec fn view(&self) -> RequestView {
        RequestView { method: self.method, url: self.url@, user: self.user@, token: self.token@ }
    }
}

/// The address of the endpoint `api` of the site called `name`.
pub open spec fn api_url_text(name: Seq<char>, api: Seq<char>) -> Seq<char> {
    "https://"@ + name + ".example-chat-host/api/v1/"@ + api
}

/// The request that addresses the endpoint `api` of `site` with `method`,
/// signed with the site's credentials.
pub open spec fn request_to(site: SiteView, method: Method, api: Seq<char>) -> RequestView {
    RequestView {
        method,
        url: api_url_text(site.name, api),
        user: site.user,
        token: site.token,
    }
}

impl ZulipSite {
    /// The address of the endpoint `api` of this site.
    pub fn api_url(&self, api: &str) -> (url: String)
        ensures
            url@ == api_url_text(self.name@, api@),
    {
        let mut url = String::from_str("https://");
        url.append(self.name.as_str());
        url.append(".example-chat-host/api/v1/");
        url.append(api);
        url
    }

    fn request(&self, method: Method, api: &str) -> (request: Request)
        ensures
            request@ == request_to(self@, method, api@),
    {
        Request {
            method,
            url: self.api_url(api),
            user: self.user.clone(),
            token: self.token.clone(),
        }
    }

    /// A `GET` request for the endpoint `api`, signed with this site's
    /// credentials.
    pub fn get(&self, api: &str) -> (request: Request)
        ensures
            request@ == request_to(self@, Method::Get, api@),
    {
        self.request(Method::Get, api)
    }

    /// A `POST` request for the endpoint `api`, signed with this site's
    /// credentials.
    pub fn post(&self, api: &str) -> (request: Request)
        ensures
            request@ == request_to(self@, Method::Post, api@),
    {
        self.request(Method::Post, api)
    }
}

} // verus!
