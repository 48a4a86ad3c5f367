use vstd::prelude::*;

verus! {

/// Where requests and WebSocket connections are forwarded, and how.
#[derive(Clone, Debug)]
pub struct ProxyConfig {
    /// Authority (host, optionally `:port`) of the upstream server.
    proxy_target: String,
    /// Whether HTTP exchanges go upstream over `https` (true) or `http`.
    web_secure: bool,
    /// Whether WebSocket sessions go upstream over `wss` (true) or `ws`.
    ws_secure: bool,
    /// Whether the inbound path and query are appended to the target.
    support_nesting: bool,
}

/// The abstract value of a [`ProxyConfig`].
pub ghost struct ProxyConfigView {
    pub target: Seq<char>,
    pub web_secure: bool,
    pub ws_secure: bool,
    pub support_nesting: bool,
}

impl View for ProxyConfig {
    type V = ProxyConfigView;

    closed spec fn view(&self) -> ProxyConfigView {
        ProxyConfigView {
            target: self.proxy_target@,
            web_secure: self.web_secure,
            ws_secure: self.ws_secure,
            support_nesting: self.support_nesting,
        }
    }
}

impl Default for ProxyConfig {
    /// A config for `localhost:3000` with every flag off.
    fn default() -> (r: Self)
        ensures
            r@.target == "localhost:3000"@,
            !r@.web_secure,
            !r@.ws_secure,
            !r@.support_nesting,
    {
        ProxyConfig::new(String::from_str("localhost:3000"))
    }
}

impl ProxyConfig {
    /// A config for `target` with `http`, `ws` and no nesting.
    pub fn new(target: String) -> (r: ProxyConfig)
        ensures
            r@ == (ProxyConfigView {
                target: target@,
                web_secure: false,
                ws_secure: false,
                support_nesting: false,
            }),
    {
        ProxyConfig { proxy_target: target, web_secure: false, ws_secure: false, support_nesting: false }
    }

    /// Forward WebSocket sessions over `wss`.
    pub fn ws_secure<'a>(&'a mut self) -> (r: &'a mut ProxyConfig)
        ensures
            (*r)@ == (ProxyConfigView { ws_secure: true, ..old(self)@ }),
            *final(self) == *final(r),
    {
        self.ws_secure = true;
        self
    }

    /// Forward WebSocket sessions over plain `ws`.
    pub fn ws_insecure<'a>(&'a mut self) -> (r: &'a mut ProxyConfig)
        ensures
            (*r)@ == (ProxyConfigView { ws_secure: false, ..old(self)@ }),
            *final(self) == *final(r),
    {
        self.ws_secure = false;
        self
    }

    /// Forward HTTP exchanges over `https`.
    pub fn web_secure<'a>(&'a mut self) -> (r: &'a mut ProxyConfig)
        ensures
            (*r)@ == (ProxyConfigView { web_secure: true, ..old(self)@ }),
            *final(self) == *final(r),
    {
        self.web_secure = true;
        self
    }

    /// Forward HTTP exchanges over plain `http`.
    pub fn web_insecure<'a>(&'a mut self) -> (r: &'a mut ProxyConfig)
        ensures
            (*r)@ == (ProxyConfigView { web_secure: false, ..old(self)@ }),
            *final(self) == *final(r),
    {
        self.web_secure = false;
        self
    }

    /// Append the inbound path and query to the target: a request for
    /// `/favicon.png` goes to `<target>/favicon.png`.
    pub fn enable_nesting<'a>(&'a mut self) -> (r: &'a mut ProxyConfig)
        ensures
            (*r)@ == (ProxyConfigView { support_nesting: true, ..old(self)@ }),
            *final(self) == *final(r),
    {
        self.support_nesting = true;
        self
    }

    /// Forward every request to the bare target, whatever its path.
    pub fn disable_nesting<'a>(&'a mut self) -> (r: &'a mut ProxyConfig)
        ensures
            (*r)@ == (ProxyConfigView { support_nesting: false, ..old(self)@ }),
            *final(self) == *final(r),
    {
        self.support_nesting = false;
        self
    }

    /// The configured upstream target.
    pub fn target(&self) -> (r: &str)
        ensures
            r@ == self@.target,
    {
        self.proxy_target.as_str()
    }

    /// Whether HTTP exchanges use `https`.
    pub fn is_web_secure(&self) -> (r: bool)
        ensures
            r == self@.web_secure,
    {
        self.web_secure
    }

    /// Whether WebSocket sessions use `wss`.
    pub fn is_ws_secure(&self) -> (r: bool)
        ensures
            r == self@.ws_secure,
    {
        self.ws_secure
    }

    /// Whether the inbound path and query are kept.
    pub fn supports_nesting(&self) -> (r: bool)
        ensures
            r == self@.support_nesting,
    {
        self.support_nesting
    }
}

} // verus!
