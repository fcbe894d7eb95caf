use vstd::prelude::*;

verus! {

/// The HTTP methods a request definition can carry.
#[derive(Clone, Copy, Debug, PartialEq, Eq, Structural)]
pub enum METHODS {
    DELETE,
    GET,
    HEAD,
    OPTIONS,
    PATCH,
    POST,
    PUT,
}

/// Abstract value of a request: name, url, method, headers, body and the
/// dirty flag, in that order.
pub type RequestModel = (Seq<char>, Seq<char>, METHODS, Seq<char>, Seq<char>, bool);

/// One saved HTTP request definition.
#[derive(Clone, Debug)]
pub struct Request {
    pub name: String,
    pub url: String,
    pub method: METHODS,
    pub headers: String,
    pub body: String,
    /// True when the in-memory copy differs from the last persisted one.
    pub has_changed: bool,
}

/// The name given to a fresh request.
pub open spec fn default_name() -> Seq<char> {
    "New Request"@
}

/// The value of a freshly built request.
pub open spec fn default_model() -> RequestModel {
    (default_name(), Seq::empty(), METHODS::GET, Seq::empty(), Seq::empty(), false)
}

/// The same request with its dirty flag set to `dirty`.
pub open spec fn with_dirty(m: RequestModel, dirty: bool) -> RequestModel {
    (m.0, m.1, m.2, m.3, m.4, dirty)
}

impl View for Request {
    type V = RequestModel;

    open spec fn view(&self) -> RequestModel {
        (self.name@, self.url@, self.method, self.headers@, self.body@, self.has_changed)
    }
}

impl Default for Request {
    fn default() -> (r: Self)
        ensures
            r@ == default_model(),
    {
        Request {
            method: METHODS::GET,
            name: "New Request".to_owned(),
            url: String::new(),
            headers: String::new(),
            body: String::new(),
            has_changed: false,
        }
    }
}

impl Request {
    /// A field-by-field copy of the request.
    pub fn duplicate(&self) -> (r: Request)
        ensures
            r@ == self@,
    {
        Request {
            name: self.name.clone(),
            url: self.url.clone(),
            method: self.method,
            headers: self.headers.clone(),
            body: self.body.clone(),
            has_changed: self.has_changed,
        }
    }

    pub fn set_name(&mut self, name: &str)
        ensures
            final(self)@ == (name@, old(self)@.1, old(self)@.2, old(self)@.3, old(self)@.4, old(self)@.5),
    {
        self.name = name.to_owned();
    }

    pub fn set_url(&mut self, url: String)
        ensures
            final(self)@ == (old(self)@.0, url@, old(self)@.2, old(self)@.3, old(self)@.4, old(self)@.5),
    {
        self.url = url;
    }

    pub fn set_method(&mut self, method: METHODS)
        ensures
            final(self)@ == (old(self)@.0, old(self)@.1, method, old(self)@.3, old(self)@.4, old(self)@.5),
    {
        self.method = method;
    }

    pub fn set_headers(&mut self, headers: String)
        ensures
            final(self)@ == (old(self)@.0, old(self)@.1, old(self)@.2, headers@, old(self)@.4, old(self)@.5),
    {
        self.headers = headers;
    }

    pub fn set_body(&mut self, body: String)
        ensures
            final(self)@ == (old(self)@.0, old(self)@.1, old(self)@.2, old(self)@.3, body@, old(self)@.5),
    {
        self.body = body;
    }
}

} // verus!
