//! Requests, header sets, the per-request hook, and the replies sent back.
use vstd::prelude::*;

verus! {

broadcast use vstd::string::group_string_axioms;

/// A header list as character sequences.
pub type HeaderList = Seq<(Seq<char>, Seq<char>)>;

pub open spec fn header_view(h: Seq<(String, String)>) -> HeaderList {
    h.map_values(|p: (String, String)| (p.0@, p.1@))
}

/// No key stands twice.
pub open spec fn keys_unique(s: HeaderList) -> bool {
    forall|i: int, j: int| 0 <= i < j < s.len() ==> #[trigger] s[i].0 != #[trigger] s[j].0
}

/// Setting a header: the entry with that key gets the new value in place, or the
/// pair is appended when the key is new.
pub open spec fn with_header(s: HeaderList, k: Seq<char>, v: Seq<char>) -> HeaderList
    decreases s.len(),
{
    if s.len() == 0 {
        seq![(k, v)]
    } else if s[0].0 == k {
        s.update(0, (k, v))
    } else {
        seq![s[0]] + with_header(s.drop_first(), k, v)
    }
}

pub proof fn lemma_with_header_at(s: HeaderList, k: Seq<char>, v: Seq<char>, i: int)
    requires
        0 <= i < s.len(),
        s[i].0 == k,
        forall|j: int| 0 <= j < i ==> s[j].0 != k,
    ensures
        with_header(s, k, v) == s.update(i, (k, v)),
    decreases i,
{
    if i > 0 {
        lemma_with_header_at(s.drop_first(), k, v, i - 1);
        assert(seq![s[0]] + s.drop_first().update(i - 1, (k, v)) =~= s.update(i, (k, v)));
    }
}

pub proof fn lemma_with_header_new(s: HeaderList, k: Seq<char>, v: Seq<char>)
    requires
        forall|j: int| 0 <= j < s.len() ==> s[j].0 != k,
    ensures
        with_header(s, k, v) == s.push((k, v)),
    decreases s.len(),
{
    if s.len() > 0 {
        lemma_with_header_new(s.drop_first(), k, v);
        assert(seq![s[0]] + s.drop_first().push((k, v)) =~= s.push((k, v)));
    }
}

/// The request a hook sees: its target as it was received.
pub struct Request {
    url: String,
}

impl Request {
    pub fn new(url: &str) -> (r: Request)
        ensures
            r.spec_url() == url@,
    {
        Request { url: String::from_str(url) }
    }

    pub closed spec fn spec_url(&self) -> Seq<char> {
        self.url@
    }

    pub fn url(&self) -> (r: &str)
        ensures
            r@ == self.spec_url(),
    {
        self.url.as_str()
    }
}

/// The headers of a response under construction, in order, each key once.
pub struct Response {
    headers: Vec<(String, String)>,
}

impl View for Response {
    type V = HeaderList;

    closed spec fn view(&self) -> HeaderList {
        header_view(self.headers@)
    }
}

impl Response {
    #[verifier::type_invariant]
    spec fn unique_keys(self) -> bool {
        keys_unique(header_view(self.headers@))
    }

    /// A response with no headers.
    pub fn new() -> (r: Response)
        ensures
            r@ == Seq::<(Seq<char>, Seq<char>)>::empty(),
    {
        let r = Response { headers: Vec::new() };
        assert(r@ =~= Seq::<(Seq<char>, Seq<char>)>::empty());
        r
    }

    /// Sets `header` to `value`; a header already set keeps its place and takes
    /// the new value.
    pub fn add_header(&mut self, header: &str, value: &str)
        ensures
            final(self)@ == with_header(old(self)@, header@, value@),
    {
        proof {
            use_type_invariant(&*self);
        }
        let k = String::from_str(header);
        let v = String::from_str(value);
        let ghost s = self@;
        let mut taken = Response::new();
        std::mem::swap(self, &mut taken);
        let Response { headers: mut hs } = taken;
        let n = hs.len();
        let mut i: usize = 0;
        while i < n
            invariant
                n == hs@.len(),
                s == header_view(hs@),
                k@ == header@,
                v@ == value@,
                keys_unique(s),
                s == old(self)@,
                i <= n,
                forall|j: int| 0 <= j < i ==> s[j].0 != k@,
            decreases n - i,
        {
            if hs[i].0 == k {
                proof {
                    lemma_with_header_at(s, k@, v@, i as int);
                }
                let ghost before = hs@;
                let pair = (k, v);
                let ghost gp = pair;
                assert(gp.0@ == header@ && gp.1@ == value@);
                hs.set(i, pair);
                assert(hs@ == before.update(i as int, gp));
                let ghost hv = header_view(hs@);
                assert(hv.len() == s.len());
                assert forall|j: int| 0 <= j < hv.len() implies hv[j] == s.update(
                    i as int,
                    (header@, value@),
                )[j] by {
                    if j != i {
                        assert(hs@[j] == before[j]);
                    }
                }
                assert(hv =~= s.update(i as int, (header@, value@)));
                assert(keys_unique(hv)) by {
                    assert forall|a: int, b: int| 0 <= a < b < hv.len() implies #[trigger] hv[a].0
                        != #[trigger] hv[b].0 by {
                        assert(hv[a].0 == s[a].0);
                        assert(hv[b].0 == s[b].0);
                    }
                }
                *self = Response { headers: hs };
                return;
            }
            i = i + 1;
        }
        proof {
            lemma_with_header_new(s, k@, v@);
        }
        hs.push((k, v));
        let ghost hv = header_view(hs@);
        assert(hv =~= s.push((header@, value@)));
        *self = Response { headers: hs };
    }

    /// The headers, in order.
    pub fn into_headers(self) -> (r: Vec<(String, String)>)
        ensures
            header_view(r@) == self@,
    {
        self.headers
    }
}

/// Something that may adjust the headers of each asset response before it is
/// sent, given the request it answers.
pub trait RequestHook {
    fn on_request(&self, request: &Request, response: &mut Response);
}

/// The hook that leaves every response as it is.
pub struct NoHook;

impl RequestHook for NoHook {
    fn on_request(&self, request: &Request, response: &mut Response) {
    }
}

} // verus!
