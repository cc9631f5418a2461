use vstd::prelude::*;
use crate::error::Error;
use crate::network::{into_network_id, resolve_spec, NetworkId};
use crate::text::text_eq;

verus! {

/// The wire encodings that a service endpoint may speak.
#[derive(Clone, Copy, Debug, PartialEq, Eq, Structural)]
pub enum WrpcEncoding {
    Borsh,
    SerdeJson,
}

/// The encoding that a token names: `borsh` or `json`.
pub open spec fn encoding_of(s: Seq<char>) -> Option<WrpcEncoding> {
    if s == "borsh"@ {
        Some(WrpcEncoding::Borsh)
    } else if s == "json"@ {
        Some(WrpcEncoding::SerdeJson)
    } else {
        None
    }
}

impl WrpcEncoding {
    /// Parses an encoding token: `borsh` or `json`.
    pub fn parse(s: &str) -> (r: Result<WrpcEncoding, Error>)
        ensures
            match encoding_of(s@) {
                Some(e) => r == Ok::<WrpcEncoding, Error>(e),
                None => r == Err::<WrpcEncoding, Error>(Error::InvalidEncoding),
            },
    {
        if text_eq(s, "borsh") {
            Ok(WrpcEncoding::Borsh)
        } else if text_eq(s, "json") {
            Ok(WrpcEncoding::SerdeJson)
        } else {
            Err(Error::InvalidEncoding)
        }
    }
}

/// A service endpoint that a lookup in the pool reported: its identity, its
/// URL, and the encoding and network it serves.
#[derive(Clone, Debug)]
pub struct NodeDescriptor {
    pub uid: String,
    pub url: String,
    pub encoding: WrpcEncoding,
    pub network_id: NetworkId,
}

impl View for NodeDescriptor {
    type V = (Seq<char>, Seq<char>, WrpcEncoding, NetworkId);

    open spec fn view(&self) -> (Seq<char>, Seq<char>, WrpcEncoding, NetworkId) {
        (self.uid@, self.url@, self.encoding, self.network_id)
    }
}

impl NodeDescriptor {
    /// A copy of this descriptor.
    pub fn duplicate(&self) -> (r: NodeDescriptor)
        ensures
            r@ == self@,
    {
        NodeDescriptor {
            uid: self.uid.clone(),
            url: self.url.clone(),
            encoding: self.encoding,
            network_id: self.network_id,
        }
    }
}

/// What a client needs to open a session: the selected endpoint's URL, and
/// the encoding and network to speak there.
#[derive(Clone, Debug)]
pub struct ConnectRequest {
    pub url: String,
    pub encoding: WrpcEncoding,
    pub network_id: NetworkId,
}

/// Whether an endpoint serves the encoding and the network.
pub open spec fn serves(n: NodeDescriptor, encoding: WrpcEncoding, id: NetworkId) -> bool {
    n.encoding == encoding && n.network_id == id
}

/// Whether some candidate serves the encoding and the network.
pub open spec fn has_viable(c: Seq<NodeDescriptor>, encoding: WrpcEncoding, id: NetworkId) -> bool {
    exists|i: int| 0 <= i < c.len() && serves(#[trigger] c[i], encoding, id)
}

/// Whether `i` is the first candidate that serves the encoding and the
/// network.
pub open spec fn is_first_viable(
    c: Seq<NodeDescriptor>,
    encoding: WrpcEncoding,
    id: NetworkId,
    i: int,
) -> bool {
    &&& 0 <= i < c.len()
    &&& serves(c[i], encoding, id)
    &&& forall|j: int| 0 <= j < i ==> !serves(#[trigger] c[j], encoding, id)
}

/// An endpoint resolver over a fixed pool of service URLs (or the built-in
/// default pool) with a TLS preference. The pool never changes after
/// construction.
#[derive(Clone, Debug)]
pub struct Resolver {
    urls: Option<Vec<String>>,
    tls: bool,
}

/// The texts of a sequence of strings.
pub open spec fn strings_view(v: Seq<String>) -> Seq<Seq<char>> {
    v.map_values(|s: String| s@)
}

impl View for Resolver {
    /// The explicit pool, absent for the built-in default, and the TLS
    /// preference.
    type V = (Option<Seq<Seq<char>>>, bool);

    closed spec fn view(&self) -> (Option<Seq<Seq<char>>>, bool) {
        (
            match self.urls {
                Some(v) => Some(strings_view(v@)),
                None => None,
            },
            self.tls,
        )
    }
}

fn copy_strings(v: &Vec<String>) -> (r: Vec<String>)
    ensures
        strings_view(r@) == strings_view(v@),
{
    let mut r: Vec<String> = Vec::new();
    let mut i: usize = 0;
    while i < v.len()
        invariant
            i <= v@.len(),
            strings_view(r@) == strings_view(v@.subrange(0, i as int)),
        decreases v@.len() - i,
    {
        r.push(v[i].clone());
        assert(strings_view(v@.subrange(0, i + 1)) == strings_view(v@.subrange(0, i as int)).push(
            v@[i as int]@,
        ));
        i = i + 1;
    }
    assert(v@.subrange(0, v@.len() as int) == v@);
    r
}

impl Resolver {
    /// Whether the pool was given explicitly and holds no URL.
    pub open spec fn pool_is_empty(&self) -> bool {
        self@.0 matches Some(p) && p.len() == 0
    }

    /// The selection that a request on this resolver comes to, for the
    /// candidates that the lookup reported.
    pub open spec fn outcome(
        &self,
        encoding: Seq<char>,
        network: Seq<char>,
        network_suffix: Option<u32>,
        candidates: Seq<NodeDescriptor>,
    ) -> Result<int, Error> {
        match encoding_of(encoding) {
            None => Err(Error::InvalidEncoding),
            Some(e) => match resolve_spec(network, network_suffix) {
                Err(err) => Err(err),
                Ok(id) => if self.pool_is_empty() || !has_viable(candidates, e, id) {
                    Err(Error::NoViableEndpoint)
                } else {
                    Ok(choose|i: int| is_first_viable(candidates, e, id, i))
                },
            },
        }
    }

    /// A resolver over the given URLs, in their order, or over the built-in
    /// default pool where none are given. TLS is off unless asked for.
    pub fn ctor(urls: Option<Vec<String>>, tls: Option<bool>) -> (r: Resolver)
        ensures
            r@.0 == (match urls {
                Some(v) => Some(strings_view(v@)),
                None => None::<Seq<Seq<char>>>,
            }),
            r@.1 == (match tls {
                Some(b) => b,
                None => false,
            }),
    {
        let tls = match tls {
            Some(b) => b,
            None => false,
        };
        Resolver { urls, tls }
    }

    /// The explicitly configured pool in construction order; empty for the
    /// built-in default pool.
    pub fn urls(&self) -> (r: Vec<String>)
        ensures
            strings_view(r@) == (match self@.0 {
                Some(p) => p,
                None => Seq::<Seq<char>>::empty(),
            }),
    {
        match &self.urls {
            Some(v) => copy_strings(v),
            None => {
                let r: Vec<String> = Vec::new();
                assert(strings_view(r@) == Seq::<Seq<char>>::empty());
                r
            },
        }
    }

    /// Whether TLS is preferred.
    pub fn tls(&self) -> (r: bool)
        ensures
            r == self@.1,
    {
        self.tls
    }

    /// Whether the pool was given explicitly and holds no URL.
    pub fn is_pool_empty(&self) -> (r: bool)
        ensures
            r == self.pool_is_empty(),
    {
        match &self.urls {
            Some(v) => v.len() == 0,
            None => false,
        }
    }

    /// The first candidate that serves the encoding and the network; fails
    /// with `NoViableEndpoint` where none does or the pool is empty.
    pub fn select(&self, candidates: &Vec<NodeDescriptor>, encoding: WrpcEncoding, network_id: NetworkId) -> (r: Result<usize, Error>)
        ensures
            match r {
                Ok(i) => !self.pool_is_empty() && is_first_viable(candidates@, encoding, network_id, i as int),
                Err(e) => e == Error::NoViableEndpoint && (self.pool_is_empty() || !has_viable(candidates@, encoding, network_id)),
            },
    {
        if self.is_pool_empty() {
            return Err(Error::NoViableEndpoint);
        }
        let mut i: usize = 0;
        while i < candidates.len()
            invariant
                i <= candidates@.len(),
                !self.pool_is_empty(),
                forall|j: int| 0 <= j < i ==> !serves(#[trigger] candidates@[j], encoding, network_id),
            decreases candidates@.len() - i,
        {
            let same_encoding = candidates[i].encoding == encoding;
            let same_network = candidates[i].network_id == network_id;
            if same_encoding && same_network {
                return Ok(i);
            }
            i = i + 1;
        }
        Err(Error::NoViableEndpoint)
    }

    fn lookup(
        &self,
        encoding: &str,
        network: &str,
        network_suffix: Option<u32>,
        candidates: &Vec<NodeDescriptor>,
    ) -> (r: Result<usize, Error>)
        ensures
            r matches Ok(i) ==> i < candidates@.len(),
            r matches Ok(i) ==> self.outcome(encoding@, network@, network_suffix, candidates@) == Ok::<int, Error>(i as int),
            r matches Err(e) ==> self.outcome(encoding@, network@, network_suffix, candidates@) == Err::<int, Error>(e),
    {
        let e = WrpcEncoding::parse(encoding)?;
        let id = into_network_id(network, network_suffix)?;
        let r = self.select(candidates, e, id);
        if let Ok(i) = r {
            assert forall|k: int| is_first_viable(candidates@, e, id, k) implies k == i as int by {
                if k < i {
                    assert(!serves(candidates@[k], e, id));
                } else if k > i {
                    assert(!serves(candidates@[i as int], e, id));
                }
            }
            assert(is_first_viable(candidates@, e, id, i as int));
        }
        r
    }

    /// The endpoint, among the candidates that the lookup in the pool
    /// reported, that a request for the encoding and network resolves to:
    /// the first that serves both.
    pub fn get_node(
        &self,
        encoding: &str,
        network: &str,
        network_suffix: Option<u32>,
        candidates: &Vec<NodeDescriptor>,
    ) -> (r: Result<NodeDescriptor, Error>)
        ensures
            match self.outcome(encoding@, network@, network_suffix, candidates@) {
                Ok(i) => r matches Ok(n) && n@ == candidates@[i]@,
                Err(e) => r matches Err(e2) && e2 == e,
            },
    {
        let i = self.lookup(encoding, network, network_suffix, candidates)?;
        Ok(candidates[i].duplicate())
    }

    /// The URL of the endpoint that `get_node` selects.
    pub fn get_url(
        &self,
        encoding: &str,
        network: &str,
        network_suffix: Option<u32>,
        candidates: &Vec<NodeDescriptor>,
    ) -> (r: Result<String, Error>)
        ensures
            match self.outcome(encoding@, network@, network_suffix, candidates@) {
                Ok(i) => r matches Ok(u) && u@ == candidates@[i].url@,
                Err(e) => r matches Err(e2) && e2 == e,
            },
    {
        let i = self.lookup(encoding, network, network_suffix, candidates)?;
        Ok(candidates[i].url.clone())
    }

    /// What a client needs to open a session with the endpoint that
    /// `get_node` selects.
    pub fn connect(
        &self,
        encoding: &str,
        network: &str,
        network_suffix: Option<u32>,
        candidates: &Vec<NodeDescriptor>,
    ) -> (r: Result<ConnectRequest, Error>)
        ensures
            match self.outcome(encoding@, network@, network_suffix, candidates@) {
                Ok(i) => r matches Ok(c) && c.url@ == candidates@[i].url@
                    && c.encoding == candidates@[i].encoding && c.network_id == candidates@[i].network_id,
                Err(e) => r matches Err(e2) && e2 == e,
            },
    {
        let i = self.lookup(encoding, network, network_suffix, candidates)?;
        Ok(ConnectRequest {
            url: candidates[i].url.clone(),
            encoding: candidates[i].encoding,
            network_id: candidates[i].network_id,
        })
    }
}

/// Resolution never yields an endpoint that fails to serve the requested
/// encoding or network, and over an empty pool a well-formed request always
/// fails with `NoViableEndpoint`.
pub proof fn lemma_selection_sound(
    r: Resolver,
    encoding: Seq<char>,
    network: Seq<char>,
    network_suffix: Option<u32>,
    candidates: Seq<NodeDescriptor>,
)
    ensures
        r.outcome(encoding, network, network_suffix, candidates) matches Ok(i) ==> {
            &&& 0 <= i < candidates.len()
            &&& encoding_of(encoding) == Some(candidates[i].encoding)
            &&& resolve_spec(network, network_suffix) == Ok::<NetworkId, Error>(candidates[i].network_id)
        },
        r.pool_is_empty() && encoding_of(encoding) is Some && resolve_spec(network, network_suffix) is Ok
            ==> r.outcome(encoding, network, network_suffix, candidates) == Err::<int, Error>(Error::NoViableEndpoint),
{
    if let Some(e) = encoding_of(encoding) {
        if let Ok(id) = resolve_spec(network, network_suffix) {
            if !r.pool_is_empty() && has_viable(candidates, e, id) {
                lemma_first_viable_exists(candidates, e, id);
            }
        }
    }
}

/// Where some candidate serves the encoding and the network, a first one does.
proof fn lemma_first_viable_exists(c: Seq<NodeDescriptor>, encoding: WrpcEncoding, id: NetworkId)
    requires
        has_viable(c, encoding, id),
    ensures
        exists|i: int| is_first_viable(c, encoding, id, i),
    decreases c.len(),
{
    if serves(c[0], encoding, id) {
        assert(is_first_viable(c, encoding, id, 0));
    } else {
        let rest = c.subrange(1, c.len() as int);
        let k = choose|k: int| 0 <= k < c.len() && serves(#[trigger] c[k], encoding, id);
        assert(rest[k - 1] == c[k]);
        lemma_first_viable_exists(rest, encoding, id);
        let i = choose|i: int| is_first_viable(rest, encoding, id, i);
        assert forall|j: int| 0 <= j < i + 1 implies !serves(#[trigger] c[j], encoding, id) by {
            if j > 0 {
                assert(c[j] == rest[j - 1]);
            }
        }
        assert(c[i + 1] == rest[i]);
        assert(is_first_viable(c, encoding, id, i + 1));
    }
}

} // verus!
