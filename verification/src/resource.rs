//! Content-addressable resource references and the decision logic of a
//! simple resource manager: which provider outcome settles a fetch, and when
//! a fetch fails outright.
//!
//! Fetching itself is asynchronous host work; the host collects each
//! provider's outcome in completion order and hands the list here.

use vstd::prelude::*;

verus! {

/// A reference to a resource by the hash of its content.
#[derive(Clone, Debug, PartialEq)]
pub struct Resource {
    pub digest: Vec<u8>,
}

impl Resource {
    pub fn new(data: Vec<u8>) -> (r: Resource)
        ensures
            r.digest == data,
    {
        Resource { digest: data }
    }

    /// The hash this reference carries.
    pub fn hash(&self) -> (h: Vec<u8>)
        ensures
            h@ == self.digest@,
    {
        let mut h: Vec<u8> = Vec::new();
        let mut i: usize = 0;
        while i < self.digest.len()
            invariant
                i <= self.digest@.len(),
                h@ == self.digest@.take(i as int),
            decreases self.digest@.len() - i,
        {
            h.push(self.digest[i]);
            proof {
                assert(self.digest@.take(i as int).push(self.digest@[i as int])
                    =~= self.digest@.take(i as int + 1));
            }
            i = i + 1;
        }
        proof {
            assert(self.digest@.take(self.digest@.len() as int) =~= self.digest@);
        }
        h
    }
}

/// Why a fetch failed: a provider reported an error, or nothing handles the
/// requested hash algorithm. `Rehydration` carries the caller's own error
/// type for the decode step that follows a successful fetch.
#[derive(Clone, Debug, PartialEq)]
pub enum ResourceError<T> {
    Provider(String),
    UnknownAlgorithm,
    Rehydration(T),
}

/// What `cast` turns an error into: the same error under another
/// rehydration error type.
pub open spec fn cast_model<T, E>(e: ResourceError<T>) -> ResourceError<E>
    recommends
        !(e is Rehydration),
{
    match e {
        ResourceError::Provider(m) => ResourceError::Provider(m),
        ResourceError::UnknownAlgorithm => ResourceError::UnknownAlgorithm,
        ResourceError::Rehydration(_) => ResourceError::UnknownAlgorithm,
    }
}

impl<T> ResourceError<T> {
    /// Re-type an error that cannot be a rehydration error.
    pub fn cast<E>(self) -> (r: ResourceError<E>)
        requires
            !(self is Rehydration),
        ensures
            r == cast_model::<T, E>(self),
    {
        match self {
            ResourceError::Provider(m) => ResourceError::Provider(m),
            ResourceError::UnknownAlgorithm => ResourceError::UnknownAlgorithm,
            ResourceError::Rehydration(_) => vstd::pervasive::unreached(),
        }
    }
}

/// One provider's answer for a requested hash: the content, a miss, or an
/// error message.
#[derive(Clone, Debug, PartialEq)]
pub enum ProviderOutcome {
    Found(Vec<u8>),
    Missing,
    Failed(String),
}

/// The first decisive outcome settles a fetch: content is returned, an
/// error is reported, and a miss moves on to the next outcome; all misses
/// mean the resource is nowhere to be found.
pub open spec fn fetch_decision(s: Seq<ProviderOutcome>) -> Result<
    Option<Vec<u8>>,
    ResourceError<()>,
>
    decreases s.len(),
{
    if s.len() == 0 {
        Ok(None)
    } else {
        match s[0] {
            ProviderOutcome::Found(d) => Ok(Some(d)),
            ProviderOutcome::Failed(m) => Err(ResourceError::Provider(m)),
            ProviderOutcome::Missing => fetch_decision(s.drop_first()),
        }
    }
}

/// A registry of providers, one entry per registration, each under the
/// identifier of the hash algorithm it serves. The providers themselves —
/// the host's asynchronous fetch callbacks — live with the host.
pub struct SimpleResourceManager {
    pub providers: Vec<u64>,
}

pub open spec fn knows_algorithm(s: Seq<u64>, algorithm: u64) -> bool {
    exists|i: int| 0 <= i < s.len() && s[i] == algorithm
}

impl SimpleResourceManager {
    pub fn new() -> (r: SimpleResourceManager)
        ensures
            r.providers@.len() == 0,
    {
        SimpleResourceManager { providers: Vec::new() }
    }

    /// Register one more provider under a hash algorithm.
    pub fn add_provider(&mut self, algorithm: u64)
        ensures
            final(self).providers@ == old(self).providers@.push(algorithm),
    {
        self.providers.push(algorithm);
    }

    /// Settle a fetch from the outcomes the host collected, in the order
    /// they completed. Fails with `UnknownAlgorithm` exactly when no
    /// provider is registered for the algorithm; otherwise the first
    /// decisive outcome wins.
    pub fn fetch(&self, algorithm: u64, outcomes: Vec<ProviderOutcome>) -> (r: Result<
        Option<Vec<u8>>,
        ResourceError<()>,
    >)
        ensures
            !knows_algorithm(self.providers@, algorithm) ==> r == Err::<
                Option<Vec<u8>>,
                ResourceError<()>,
            >(ResourceError::UnknownAlgorithm),
            knows_algorithm(self.providers@, algorithm) ==> r == fetch_decision(outcomes@),
    {
        let mut known = false;
        let mut i: usize = 0;
        while i < self.providers.len()
            invariant
                i <= self.providers@.len(),
                known == knows_algorithm(self.providers@.take(i as int), algorithm),
            decreases self.providers@.len() - i,
        {
            if self.providers[i] == algorithm {
                known = true;
            }
            proof {
                let s = self.providers@;
                assert(s.take(i as int + 1).drop_last() =~= s.take(i as int));
                assert(s.take(i as int + 1).last() == s[i as int]);
                if s[i as int] == algorithm {
                    assert(knows_algorithm(s.take(i as int + 1), algorithm)) by {
                        assert(s.take(i as int + 1)[i as int] == algorithm);
                    }
                } else {
                    assert(knows_algorithm(s.take(i as int + 1), algorithm)
                        == knows_algorithm(s.take(i as int), algorithm)) by {
                        if knows_algorithm(s.take(i as int), algorithm) {
                            let w = choose|k: int|
                                0 <= k < s.take(i as int).len() && #[trigger] s.take(
                                    i as int,
                                )[k] == algorithm;
                            assert(s.take(i as int + 1)[w] == algorithm);
                        }
                        if knows_algorithm(s.take(i as int + 1), algorithm) {
                            let w = choose|k: int|
                                0 <= k < s.take(i as int + 1).len() && #[trigger] s.take(
                                    i as int + 1,
                                )[k] == algorithm;
                            if w < i as int {
                                assert(s.take(i as int)[w] == algorithm);
                            }
                        }
                    }
                }
            }
            i = i + 1;
        }
        proof {
            assert(self.providers@.take(self.providers@.len() as int) =~= self.providers@);
        }
        if !known {
            return Err(ResourceError::UnknownAlgorithm);
        }
        let mut rest = outcomes;
        while rest.len() > 0
            invariant
                knows_algorithm(self.providers@, algorithm),
                fetch_decision(rest@) == fetch_decision(outcomes@),
            decreases rest@.len(),
        {
            let ghost prev = rest@;
            let first = rest.remove(0);
            proof {
                assert(first == prev[0]);
                assert(rest@ =~= prev.drop_first());
            }
            match first {
                ProviderOutcome::Found(d) => {
                    return Ok(Some(d));
                },
                ProviderOutcome::Failed(m) => {
                    return Err(ResourceError::Provider(m));
                },
                ProviderOutcome::Missing => {},
            }
        }
        Ok(None)
    }
}

} // verus!
