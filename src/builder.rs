//! Configuration of the asset server, fixed before it starts.
use vstd::prelude::*;
use crate::response::{NoHook, RequestHook};

verus! {

broadcast use vstd::string::group_string_axioms;

/// The decimal digits of `n`.
pub open spec fn decimal(n: nat) -> Seq<char>
    decreases n,
{
    if n < 10 {
        seq![digit(n)]
    } else {
        decimal(n / 10).push(digit(n % 10))
    }
}

pub open spec fn digit(d: nat) -> char {
    if d == 0 {
        '0'
    } else if d == 1 {
        '1'
    } else if d == 2 {
        '2'
    } else if d == 3 {
        '3'
    } else if d == 4 {
        '4'
    } else if d == 5 {
        '5'
    } else if d == 6 {
        '6'
    } else if d == 7 {
        '7'
    } else if d == 8 {
        '8'
    } else {
        '9'
    }
}

fn digit_str(d: u16) -> (r: &'static str)
    requires
        d < 10,
    ensures
        r@ == seq![digit(d as nat)],
{
    proof {
        reveal_strlit("0");
        reveal_strlit("1");
        reveal_strlit("2");
        reveal_strlit("3");
        reveal_strlit("4");
        reveal_strlit("5");
        reveal_strlit("6");
        reveal_strlit("7");
        reveal_strlit("8");
        reveal_strlit("9");
    }
    let r = if d == 0 {
        "0"
    } else if d == 1 {
        "1"
    } else if d == 2 {
        "2"
    } else if d == 3 {
        "3"
    } else if d == 4 {
        "4"
    } else if d == 5 {
        "5"
    } else if d == 6 {
        "6"
    } else if d == 7 {
        "7"
    } else if d == 8 {
        "8"
    } else {
        "9"
    };
    assert(r@ =~= seq![digit(d as nat)]);
    r
}

fn append_decimal(out: &mut String, n: u16)
    ensures
        final(out)@ == old(out)@ + decimal(n as nat),
    decreases n,
{
    if n >= 10 {
        append_decimal(out, n / 10);
        out.append(digit_str(n % 10));
        assert(decimal(n as nat) == decimal((n / 10) as nat).push(digit((n % 10) as nat)));
    } else {
        out.append(digit_str(n));
    }
}

/// The host the server binds to when none is given.
pub open spec fn default_host() -> Seq<char> {
    "localhost"@
}

/// Port, host, asset folder and hook of the asset server.
pub struct Builder<H> {
    port: u16,
    host: Option<String>,
    on_request: Option<H>,
    external_folder: Option<String>,
}

impl Builder<NoHook> {
    /// A server on `port`, on the default host, with no folder and no hook.
    pub fn new(port: u16) -> (r: Builder<NoHook>)
        ensures
            r.spec_port() == port,
            r.spec_host() is None,
            r.spec_folder() is None,
            r.spec_hook() is None,
    {
        Builder { port, host: None, on_request: None, external_folder: None }
    }
}

impl<H: RequestHook> Builder<H> {
    pub closed spec fn spec_port(&self) -> u16 {
        self.port
    }

    pub closed spec fn spec_host(&self) -> Option<Seq<char>> {
        match self.host {
            Some(h) => Some(h@),
            None => None,
        }
    }

    pub closed spec fn spec_folder(&self) -> Option<Seq<char>> {
        match self.external_folder {
            Some(f) => Some(f@),
            None => None,
        }
    }

    pub closed spec fn spec_hook(&self) -> Option<H> {
        self.on_request
    }

    /// The host the server binds to: the one given, else `localhost`.
    pub open spec fn bind_host(&self) -> Seq<char> {
        match self.spec_host() {
            Some(h) => h,
            None => default_host(),
        }
    }

    /// Changes the host the server binds to.
    pub fn host(self, host: &str) -> (r: Self)
        ensures
            r.spec_host() == Some(host@),
            r.spec_port() == self.spec_port(),
            r.spec_folder() == self.spec_folder(),
            r.spec_hook() == self.spec_hook(),
    {
        Builder { host: Some(String::from_str(host)), ..self }
    }

    /// Sets the folder that files are served from.
    pub fn external_folder(self, folder: &str) -> (r: Self)
        ensures
            r.spec_folder() == Some(folder@),
            r.spec_port() == self.spec_port(),
            r.spec_host() == self.spec_host(),
            r.spec_hook() == self.spec_hook(),
    {
        Builder { external_folder: Some(String::from_str(folder)), ..self }
    }

    /// Sets the hook that sees each asset request and may change its headers.
    pub fn on_request<G: RequestHook>(self, f: G) -> (r: Builder<G>)
        ensures
            r.spec_hook() == Some(f),
            r.spec_port() == self.spec_port(),
            r.spec_host() == self.spec_host(),
            r.spec_folder() == self.spec_folder(),
    {
        Builder {
            port: self.port,
            host: self.host,
            on_request: Some(f),
            external_folder: self.external_folder,
        }
    }

    pub fn port(&self) -> (r: u16)
        ensures
            r == self.spec_port(),
    {
        self.port
    }

    /// The folder files are served from, when one was set.
    pub fn folder(&self) -> (r: Option<&String>)
        ensures
            match r {
                Some(f) => self.spec_folder() == Some(f@),
                None => self.spec_folder() is None,
            },
    {
        match &self.external_folder {
            Some(f) => Some(f),
            None => None,
        }
    }

    /// The hook, when one was set.
    pub fn hook(&self) -> (r: &Option<H>)
        ensures
            *r == self.spec_hook(),
    {
        &self.on_request
    }

    /// The address the server binds: `host:port`.
    pub fn server_address(&self) -> (r: String)
        ensures
            r@ == self.bind_host() + seq![':'] + decimal(self.spec_port() as nat),
    {
        proof {
            reveal_strlit(":");
        }
        let mut s = match &self.host {
            Some(h) => h.clone(),
            None => String::from_str("localhost"),
        };
        s.append(":");
        append_decimal(&mut s, self.port);
        s
    }
}

} // verus!
