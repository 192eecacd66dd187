//! Normalization of ICE server descriptors into one entry per endpoint.
use vstd::prelude::*;

verus! {

/// The endpoint part of an ICE server descriptor: a single STUN URL, or a
/// list of TURN URLs sharing one credential pair.
#[derive(Clone, Debug)]
pub enum IceUrls {
    Stun(String),
    Turn(Vec<String>),
}

/// An ICE server as the signaling service describes it.
#[derive(Clone, Debug)]
pub struct IceServerDescriptor {
    pub urls: IceUrls,
    pub username: Option<String>,
    pub credential: Option<String>,
}

/// One ICE endpoint with the credentials needed to use it.
#[derive(Clone, Debug)]
pub struct IceEntry {
    pub url: String,
    pub username: Option<String>,
    pub credential: Option<String>,
}

/// An ICE server descriptor that cannot be normalized.
#[derive(Clone, Copy, Debug, PartialEq, Eq, Structural)]
pub enum IceError {
    MalformedIceServer,
}

/// The mathematical value of an entry: endpoint, username, credential.
pub type IceEntryModel = (Seq<char>, Option<Seq<char>>, Option<Seq<char>>);

impl View for IceEntry {
    type V = IceEntryModel;

    open spec fn view(&self) -> IceEntryModel {
        (self.url@, self.username.deep_view(), self.credential.deep_view())
    }
}

/// The entries a descriptor stands for, or `None` when it is malformed.
pub open spec fn spec_normalize(d: IceServerDescriptor) -> Option<Seq<IceEntryModel>> {
    match d.urls {
        IceUrls::Stun(url) => Some(seq![(url@, None::<Seq<char>>, None::<Seq<char>>)]),
        IceUrls::Turn(urls) => if urls@.len() == 0 {
            None
        } else {
            Some(
                Seq::new(
                    urls@.len(),
                    |i: int| (urls@[i]@, d.username.deep_view(), d.credential.deep_view()),
                ),
            )
        },
    }
}

/// The entries of a sequence of descriptors, concatenated in order, or
/// `None` when any of them is malformed.
pub open spec fn spec_normalize_all(ds: Seq<IceServerDescriptor>) -> Option<Seq<IceEntryModel>>
    decreases ds.len(),
{
    if ds.len() == 0 {
        Some(Seq::empty())
    } else {
        match (spec_normalize_all(ds.drop_last()), spec_normalize(ds.last())) {
            (Some(front), Some(back)) => Some(front + back),
            _ => None,
        }
    }
}

/// A STUN descriptor stands for exactly one endpoint, a TURN descriptor for
/// one endpoint per listed URL; every TURN endpoint carries the descriptor's
/// credential.
pub proof fn law_normalized_counts(d: IceServerDescriptor)
    ensures
        d.urls is Stun ==> spec_normalize(d) is Some && spec_normalize(d)->Some_0.len() == 1,
        d.urls matches IceUrls::Turn(urls) ==> (urls@.len() == 0 <==> spec_normalize(d) is None),
        d.urls is Turn && spec_normalize(d) is Some ==> {
            &&& spec_normalize(d)->Some_0.len() == d.urls->Turn_0@.len()
            &&& forall|k: int|
                0 <= k < d.urls->Turn_0@.len() ==> (#[trigger] spec_normalize(d)->Some_0[k]).2
                    == d.credential.deep_view()
        },
{
}

fn clone_opt(o: &Option<String>) -> (r: Option<String>)
    ensures
        r.deep_view() == o.deep_view(),
{
    match o {
        Some(s) => Some(s.clone()),
        None => None,
    }
}

/// Normalizes one descriptor: a STUN URL gives one entry without
/// credentials, a TURN list one entry per URL carrying the descriptor's
/// username and credential. An empty TURN list is malformed.
pub fn normalize(d: &IceServerDescriptor) -> (r: Result<Vec<IceEntry>, IceError>)
    ensures
        r is Ok <==> spec_normalize(*d) is Some,
        r is Ok ==> r->Ok_0@.map_values(|e: IceEntry| e@) == spec_normalize(*d)->Some_0,
        r is Err ==> r == Err::<Vec<IceEntry>, IceError>(IceError::MalformedIceServer),
        r is Ok ==> r->Ok_0@.len() == match d.urls {
            IceUrls::Stun(_) => 1,
            IceUrls::Turn(urls) => urls@.len(),
        },
        r is Ok && d.urls is Turn ==> forall|k: int|
            0 <= k < r->Ok_0@.len() ==> (#[trigger] r->Ok_0@[k]).credential.deep_view()
                == d.credential.deep_view() && r->Ok_0@[k].username.deep_view()
                == d.username.deep_view(),
{
    match &d.urls {
        IceUrls::Stun(url) => {
            let mut out: Vec<IceEntry> = Vec::new();
            out.push(IceEntry { url: url.clone(), username: None, credential: None });
            proof {
                assert(out@.map_values(|e: IceEntry| e@) =~= spec_normalize(*d)->Some_0);
            }
            Ok(out)
        },
        IceUrls::Turn(urls) => {
            if urls.len() == 0 {
                return Err(IceError::MalformedIceServer);
            }
            let mut out: Vec<IceEntry> = Vec::new();
            let mut i: usize = 0;
            while i < urls.len()
                invariant
                    i <= urls@.len(),
                    d.urls == IceUrls::Turn(*urls),
                    out@.len() == i,
                    forall|k: int|
                        0 <= k < i ==> (#[trigger] out@[k])@ == (
                            urls@[k]@,
                            d.username.deep_view(),
                            d.credential.deep_view(),
                        ),
                decreases urls@.len() - i,
            {
                out.push(
                    IceEntry {
                        url: urls[i].clone(),
                        username: clone_opt(&d.username),
                        credential: clone_opt(&d.credential),
                    },
                );
                i = i + 1;
            }
            proof {
                assert(out@.map_values(|e: IceEntry| e@) =~= spec_normalize(*d)->Some_0);
            }
            Ok(out)
        },
    }
}

/// Normalizes every descriptor and concatenates the entries in order; fails
/// on the first malformed descriptor.
pub fn normalize_all(ds: &Vec<IceServerDescriptor>) -> (r: Result<Vec<IceEntry>, IceError>)
    ensures
        r is Ok <==> spec_normalize_all(ds@) is Some,
        r is Ok ==> r->Ok_0@.map_values(|e: IceEntry| e@) == spec_normalize_all(ds@)->Some_0,
        r is Err ==> r == Err::<Vec<IceEntry>, IceError>(IceError::MalformedIceServer),
{
    let mut out: Vec<IceEntry> = Vec::new();
    let mut i: usize = 0;
    while i < ds.len()
        invariant
            i <= ds@.len(),
            spec_normalize_all(ds@.subrange(0, i as int)) is Some,
            out@.map_values(|e: IceEntry| e@) == spec_normalize_all(
                ds@.subrange(0, i as int),
            )->Some_0,
        decreases ds@.len() - i,
    {
        proof {
            assert(ds@.subrange(0, i + 1).drop_last() =~= ds@.subrange(0, i as int));
            assert(ds@.subrange(0, i + 1).last() == ds@[i as int]);
        }
        match normalize(&ds[i]) {
            Ok(mut entries) => {
                let ghost before = out@.map_values(|e: IceEntry| e@);
                let ghost added = entries@.map_values(|e: IceEntry| e@);
                out.append(&mut entries);
                proof {
                    assert(out@.map_values(|e: IceEntry| e@) =~= before + added);
                }
            },
            Err(e) => {
                proof {
                    lemma_malformed_prefix_stays(ds@, i as int + 1);
                }
                return Err(e);
            },
        }
        i = i + 1;
    }
    proof {
        assert(ds@.subrange(0, i as int) =~= ds@);
    }
    Ok(out)
}

/// Once a prefix of the descriptors is malformed, so is the whole sequence.
proof fn lemma_malformed_prefix_stays(ds: Seq<IceServerDescriptor>, n: int)
    requires
        0 <= n <= ds.len(),
        spec_normalize_all(ds.subrange(0, n)) is None,
    ensures
        spec_normalize_all(ds) is None,
    decreases ds.len() - n,
{
    if n < ds.len() {
        assert(ds.subrange(0, n + 1).drop_last() =~= ds.subrange(0, n));
        lemma_malformed_prefix_stays(ds, n + 1);
    } else {
        assert(ds.subrange(0, n) =~= ds);
    }
}

} // verus!
