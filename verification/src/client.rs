//! The client side of the remote finance manager: where a request goes and
//! with which token it is sent.
use vstd::prelude::*;
use vstd::string::StringExecFns;

verus! {

/// A connection to a finance manager server: its base url and the token that
/// every request carries.
#[derive(Clone, Debug)]
pub struct Client {
    url: String,
    token: String,
}

/// What a client is: its base url and its token.
pub struct ClientView {
    pub url: Seq<char>,
    pub token: Seq<char>,
}

impl View for Client {
    type V = ClientView;

    closed spec fn view(&self) -> ClientView {
        ClientView { url: self.url@, token: self.token@ }
    }
}

/// The address of an endpoint of the server at `url`.
pub open spec fn endpoint_url(url: Seq<char>, path: Seq<char>) -> Seq<char> {
    url + "/"@ + path
}

impl Client {
    /// A client for the server at the first flag, sending the second flag as
    /// its token.
    pub fn new(flags: (String, String)) -> (client: Client)
        ensures
            client@.url == flags.0@,
            client@.token == flags.1@,
    {
        Client { url: flags.0, token: flags.1 }
    }

    /// The base url of the server.
    pub fn url(&self) -> (url: &str)
        ensures
            url@ == self@.url,
    {
        self.url.as_str()
    }

    /// The token sent with each request.
    pub fn token(&self) -> (token: &str)
        ensures
            token@ == self@.token,
    {
        self.token.as_str()
    }

    /// The address that a request for `path` is posted to: the base url, a
    /// slash and the path.
    pub fn endpoint(&self, path: &str) -> (address: String)
        ensures
            address@ == endpoint_url(self@.url, path@),
    {
        let address = String::from_str(self.url.as_str());
        let address = address.concat("/");
        address.concat(path)
    }
}

} // verus!
