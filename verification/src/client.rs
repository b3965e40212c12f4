//! The transport as the library sees it: what a request holds before it is
//! sent, what a response holds once it is back, and a client that stamps its
//! default headers on every request it prepares.

use vstd::prelude::*;
use vstd::string::*;

verus! {

/// A name with its value: a header line or a form field.
#[derive(Debug)]
pub struct Param {
    pub name: String,
    pub value: String,
}

impl View for Param {
    type V = (Seq<char>, Seq<char>);

    open spec fn view(&self) -> (Seq<char>, Seq<char>) {
        (self.name@, self.value@)
    }
}

impl Param {
    /// A parameter with the given name and value.
    pub fn new(name: &str, value: &str) -> (param: Param)
        ensures
            param@ == (name@, value@),
    {
        Param { name: name.to_owned(), value: value.to_owned() }
    }

}

impl Clone for Param {
    fn clone(&self) -> (param: Param)
        ensures
            param@ == self@,
    {
        Param { name: self.name.clone(), value: self.value.clone() }
    }
}

/// The names and values of a list of parameters, in order.
pub open spec fn params_view(params: Seq<Param>) -> Seq<(Seq<char>, Seq<char>)> {
    Seq::new(params.len(), |i: int| params[i]@)
}

/// An empty list of parameters.
pub fn no_params() -> (params: Vec<Param>)
    ensures
        params_view(params@) == Seq::<(Seq<char>, Seq<char>)>::empty(),
{
    let params: Vec<Param> = Vec::new();
    params
}

/// A list of one parameter.
pub fn one_param(name: &str, value: &str) -> (params: Vec<Param>)
    ensures
        params_view(params@) == seq![(name@, value@)],
{
    let mut params: Vec<Param> = Vec::new();
    params.push(Param::new(name, value));
    params
}

/// A list of two parameters.
pub fn two_params(first: (&str, &str), second: (&str, &str)) -> (params: Vec<Param>)
    ensures
        params_view(params@) == seq![(first.0@, first.1@), (second.0@, second.1@)],
{
    let mut params: Vec<Param> = Vec::new();
    params.push(Param::new(first.0, first.1));
    params.push(Param::new(second.0, second.1));
    params
}

/// A list of three parameters.
pub fn three_params(first: (&str, &str), second: (&str, &str), third: (&str, &str)) -> (params:
    Vec<Param>)
    ensures
        params_view(params@) == seq![
            (first.0@, first.1@),
            (second.0@, second.1@),
            (third.0@, third.1@),
        ],
{
    let mut params: Vec<Param> = Vec::new();
    params.push(Param::new(first.0, first.1));
    params.push(Param::new(second.0, second.1));
    params.push(Param::new(third.0, third.1));
    params
}

/// A list of four parameters.
pub fn four_params(
    first: (&str, &str),
    second: (&str, &str),
    third: (&str, &str),
    fourth: (&str, &str),
) -> (params: Vec<Param>)
    ensures
        params_view(params@) == seq![
            (first.0@, first.1@),
            (second.0@, second.1@),
            (third.0@, third.1@),
            (fourth.0@, fourth.1@),
        ],
{
    let mut params: Vec<Param> = Vec::new();
    params.push(Param::new(first.0, first.1));
    params.push(Param::new(second.0, second.1));
    params.push(Param::new(third.0, third.1));
    params.push(Param::new(fourth.0, fourth.1));
    params
}

/// Puts one more parameter behind those of the list.
pub fn push_param(params: &mut Vec<Param>, name: &str, value: &str)
    ensures
        params_view(final(params)@) == params_view(old(params)@).push((name@, value@)),
{
    params.push(Param::new(name, value));
}

/// A copy of a list of parameters.
pub fn duplicate_params(params: &Vec<Param>) -> (copy: Vec<Param>)
    ensures
        params_view(copy@) == params_view(params@),
{
    let mut copy: Vec<Param> = Vec::new();
    let mut i: usize = 0;
    while i < params.len()
        invariant
            i <= params.len(),
            copy.len() == i,
            forall|k: int| 0 <= k < i ==> copy[k]@ == params[k]@,
        decreases params.len() - i,
    {
        copy.push(params[i].clone());
        i += 1;
    }
    copy
}

/// The two request methods the API is called with.
#[derive(Copy, Clone, Debug, PartialEq, Eq)]
pub enum Method {
    Get,
    Post,
}

/// Client identity sent by HTTP basic authentication.
#[derive(Debug)]
pub struct BasicAuth {
    pub user: String,
    pub password: String,
}

/// A request, ready to be sent.
#[derive(Debug)]
pub struct Request {
    pub method: Method,
    pub url: String,
    /// The client's default headers, then the headers of this request.
    pub headers: Vec<Param>,
    pub basic_auth: Option<BasicAuth>,
    /// The fields of the form-encoded body (empty for `Get`).
    pub form: Vec<Param>,
}

/// What a `Request` holds, as mathematical values.
pub struct RequestView {
    pub method: Method,
    pub url: Seq<char>,
    pub headers: Seq<(Seq<char>, Seq<char>)>,
    pub basic_auth: Option<(Seq<char>, Seq<char>)>,
    pub form: Seq<(Seq<char>, Seq<char>)>,
}

impl View for Request {
    type V = RequestView;

    open spec fn view(&self) -> RequestView {
        RequestView {
            method: self.method,
            url: self.url@,
            headers: params_view(self.headers@),
            basic_auth: match self.basic_auth {
                Some(auth) => Some((auth.user@, auth.password@)),
                None => None,
            },
            form: params_view(self.form@),
        }
    }
}

impl Request {
    /// The same request with one more header behind those it has.
    pub fn header(self, name: &str, value: &str) -> (request: Request)
        ensures
            request@ == (RequestView { headers: self@.headers.push((name@, value@)), ..self@ }),
    {
        let mut request = self;
        request.headers.push(Param::new(name, value));
        assert(params_view(request.headers@) =~= self@.headers.push((name@, value@)));
        request
    }

    /// The same request with the given basic-auth identity.
    pub fn basic_auth(self, user: &str, password: &str) -> (request: Request)
        ensures
            request@ == (RequestView { basic_auth: Some((user@, password@)), ..self@ }),
    {
        let mut request = self;
        request.basic_auth = Some(BasicAuth { user: user.to_owned(), password: password.to_owned() });
        request
    }

    /// The same request with the given form as its body.
    pub fn form(self, form: Vec<Param>) -> (request: Request)
        ensures
            request@ == (RequestView { form: params_view(form@), ..self@ }),
    {
        let mut request = self;
        request.form = form;
        request
    }
}

/// A `Get` request for `url` with the given headers and nothing else.
pub open spec fn plain_get(client: Seq<(Seq<char>, Seq<char>)>, url: Seq<char>) -> RequestView {
    RequestView {
        method: Method::Get,
        url: url,
        headers: client,
        basic_auth: None,
        form: Seq::empty(),
    }
}

/// A response as it came back: the status code, the headers and the body's
/// text.
#[derive(Debug)]
pub struct Response {
    pub status: u16,
    pub headers: Vec<Param>,
    pub body: String,
}

/// What a `Response` holds, as mathematical values.
pub struct ResponseView {
    pub status: u16,
    pub headers: Seq<(Seq<char>, Seq<char>)>,
    pub body: Seq<char>,
}

impl View for Response {
    type V = ResponseView;

    open spec fn view(&self) -> ResponseView {
        ResponseView {
            status: self.status,
            headers: params_view(self.headers@),
            body: self.body@,
        }
    }
}

impl Response {
    /// Whether the status is one of the success codes, 200 to 299.
    pub open spec fn spec_is_success(&self) -> bool {
        200 <= self.status <= 299
    }

    /// Whether the status is one of the success codes, 200 to 299.
    #[verifier::when_used_as_spec(spec_is_success)]
    pub fn is_success(&self) -> (ok: bool)
        ensures
            ok == self.spec_is_success(),
    {
        200 <= self.status && self.status <= 299
    }
}

/// A client: the headers that go out with every request it prepares.
#[derive(Debug)]
pub struct Client {
    pub default_headers: Vec<Param>,
}

impl View for Client {
    type V = Seq<(Seq<char>, Seq<char>)>;

    open spec fn view(&self) -> Seq<(Seq<char>, Seq<char>)> {
        params_view(self.default_headers@)
    }
}

impl Client {
    /// A client without default headers.
    pub fn new() -> (client: Client)
        ensures
            client@ == Seq::<(Seq<char>, Seq<char>)>::empty(),
    {
        let client = Client { default_headers: Vec::new() };
        client
    }

    /// A client with the given default headers.
    pub fn with_headers(headers: Vec<Param>) -> (client: Client)
        ensures
            client@ == params_view(headers@),
    {
        Client { default_headers: headers }
    }

    /// A `Get` request for `url` with this client's default headers.
    pub fn get(&self, url: &str) -> (request: Request)
        ensures
            request@ == plain_get(self@, url@),
    {
        let request = Request {
            method: Method::Get,
            url: url.to_owned(),
            headers: duplicate_params(&self.default_headers),
            basic_auth: None,
            form: Vec::new(),
        };
        assert(request@.form =~= Seq::empty());
        request
    }

    /// A `Post` request for `url` with this client's default headers and an
    /// empty form.
    pub fn post(&self, url: &str) -> (request: Request)
        ensures
            request@ == (RequestView {
                method: Method::Post,
                url: url@,
                headers: self@,
                basic_auth: None,
                form: Seq::empty(),
            }),
    {
        let request = Request {
            method: Method::Post,
            url: url.to_owned(),
            headers: duplicate_params(&self.default_headers),
            basic_auth: None,
            form: Vec::new(),
        };
        assert(request@.form =~= Seq::empty());
        request
    }
}

impl Clone for Client {
    fn clone(&self) -> (client: Client)
        ensures
            client@ == self@,
    {
        Client { default_headers: duplicate_params(&self.default_headers) }
    }
}

} // verus!
