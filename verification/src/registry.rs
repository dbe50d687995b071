//! The service registry: a static mapping from logical service names to
//! network addresses, built once at process start and only read afterwards.

use vstd::prelude::*;

use crate::errors::PlatformError;
use crate::text::str_eq;

verus! {

/// The resolved network address (`host:port`) registered for a logical
/// service name. Profiles are created at registry construction and only
/// ever read afterwards.
pub struct ServiceProfile {
    /// The `host:port` address of the service.
    pub address: String,
}

impl ServiceProfile {
    /// Create a profile for the given address.
    pub fn new(address: String) -> (r: Self)
        ensures
            r.address@ == address@,
    {
        Self { address }
    }

    /// An owned copy of this profile.
    pub fn duplicate(&self) -> (r: Self)
        ensures
            r.address@ == self.address@,
    {
        Self { address: self.address.clone() }
    }
}

/// An immutable mapping from logical service names to service profiles,
/// with unique names. It is populated once, before any lookup, and is then
/// safe to share read-only across any number of concurrent callers.
pub struct ServiceRegistry {
    entries: Vec<(String, ServiceProfile)>,
}

impl ServiceRegistry {
    /// Well-formed: registered names are pairwise distinct.
    pub closed spec fn wf(self) -> bool {
        forall|i: int, j: int|
            0 <= i < j < self.entries@.len() ==> self.entries@[i].0@ != self.entries@[j].0@
    }

    /// The number of registered names.
    pub closed spec fn spec_len(self) -> nat {
        self.entries@.len()
    }

    /// The name registered at a construction position.
    pub closed spec fn name_at(self, i: int) -> Seq<char> {
        self.entries@[i].0@
    }

    /// The address registered at a construction position.
    pub closed spec fn address_at(self, i: int) -> Seq<char> {
        self.entries@[i].1.address@
    }

    /// Whether a name is registered.
    pub closed spec fn contains_name(self, name: Seq<char>) -> bool {
        exists|i: int| 0 <= i < self.entries@.len() && self.entries@[i].0@ == name
    }

    /// The address registered under a name.
    pub closed spec fn address_of(self, name: Seq<char>) -> Seq<char> {
        let i = choose|i: int| 0 <= i < self.entries@.len() && self.entries@[i].0@ == name;
        self.entries@[i].1.address@
    }

    /// In a well-formed registry, the entry at position `i` is the one its
    /// name resolves to.
    proof fn lemma_entry_resolves(self, i: int)
        requires
            self.wf(),
            0 <= i < self.spec_len(),
        ensures
            self.contains_name(self.name_at(i)),
            self.address_of(self.name_at(i)) == self.address_at(i),
    {
        assert(self.contains_name(self.name_at(i)));
        let k = choose|k: int|
            0 <= k < self.entries@.len() && self.entries@[k].0@ == self.name_at(i);
        assert(k == i);
    }

    /// An empty registry.
    pub fn new() -> (r: Self)
        ensures
            r.wf(),
            r.spec_len() == 0,
            forall|n: Seq<char>| !r.contains_name(n),
    {
        Self { entries: Vec::new() }
    }

    /// Whether `name` is registered.
    pub fn contains(&self, name: &str) -> (r: bool)
        ensures
            r == self.contains_name(name@),
    {
        let n = self.entries.len();
        for i in 0..n
            invariant
                n == self.entries@.len(),
                forall|j: int| 0 <= j < i ==> self.entries@[j].0@ != name@,
        {
            if str_eq(self.entries[i].0.as_str(), name) {
                return true;
            }
        }
        false
    }

    /// Register a profile under a fresh name. Registration happens only at
    /// construction time, before the registry is shared.
    pub fn register(&mut self, name: String, profile: ServiceProfile)
        requires
            old(self).wf(),
            !old(self).contains_name(name@),
        ensures
            final(self).wf(),
            final(self).spec_len() == old(self).spec_len() + 1,
            final(self).contains_name(name@),
            final(self).address_of(name@) == profile.address@,
            forall|n: Seq<char>|
                n != name@ ==> final(self).contains_name(n) == old(self).contains_name(n),
            forall|n: Seq<char>|
                n != name@ && old(self).contains_name(n) ==> final(self).address_of(n)
                    == old(self).address_of(n),
    {
        let ghost pre = *self;
        let ghost addr = profile.address@;
        self.entries.push((name, profile));
        proof {
            let len = pre.entries@.len() as int;
            assert(self.entries@ =~= pre.entries@.push((name, profile)));
            assert forall|i: int, j: int|
                0 <= i < j < self.entries@.len() implies self.entries@[i].0@
                != self.entries@[j].0@ by {
                if j < len {
                    assert(pre.wf());
                } else {
                    assert(self.entries@[j].0@ == name@);
                    assert(self.entries@[i] == pre.entries@[i]);
                    assert(!pre.contains_name(name@));
                }
            }
            assert(self.entries@[len].0@ == name@);
            self.lemma_entry_resolves(len);
            assert forall|n: Seq<char>| n != name@ implies self.contains_name(n)
                == pre.contains_name(n) by {
                if self.contains_name(n) {
                    let i = choose|i: int|
                        0 <= i < self.entries@.len() && self.entries@[i].0@ == n;
                    assert(i < len);
                    assert(pre.entries@[i].0@ == n);
                }
                if pre.contains_name(n) {
                    let i = choose|i: int|
                        0 <= i < pre.entries@.len() && pre.entries@[i].0@ == n;
                    assert(self.entries@[i].0@ == n);
                }
            }
            assert forall|n: Seq<char>|
                n != name@ && pre.contains_name(n) implies self.address_of(n)
                == pre.address_of(n) by {
                let i = choose|i: int|
                    0 <= i < pre.entries@.len() && pre.entries@[i].0@ == n;
                pre.lemma_entry_resolves(i);
                assert(self.entries@[i].0@ == n);
                self.lemma_entry_resolves(i);
            }
        }
    }

    /// Resolve a logical service name. Returns the profile registered under
    /// `name`, or a typed configuration error when no such name is
    /// registered; an unknown name never aborts the process.
    pub fn lookup(&self, name: &str) -> (r: Result<ServiceProfile, PlatformError>)
        requires
            self.wf(),
        ensures
            r is Ok <==> self.contains_name(name@),
            r matches Ok(p) ==> p.address@ == self.address_of(name@),
            r matches Err(e) ==> e is ConfigurationError,
    {
        let n = self.entries.len();
        for i in 0..n
            invariant
                self.wf(),
                n == self.entries@.len(),
                forall|j: int| 0 <= j < i ==> self.entries@[j].0@ != name@,
        {
            if str_eq(self.entries[i].0.as_str(), name) {
                proof {
                    self.lemma_entry_resolves(i as int);
                }
                return Ok(self.entries[i].1.duplicate());
            }
        }
        Err(PlatformError::ConfigurationError("unknown service".to_owned()))
    }
}

/// Law: every name registered at construction resolves to exactly the
/// address that was registered with it — the registry never substitutes or
/// loses a profile.
pub proof fn lemma_registered_names_resolve(r: ServiceRegistry, i: int)
    requires
        r.wf(),
        0 <= i < r.spec_len(),
    ensures
        r.contains_name(r.name_at(i)),
        r.address_of(r.name_at(i)) == r.address_at(i),
{
    r.lemma_entry_resolves(i);
}

} // verus!
