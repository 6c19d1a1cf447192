//! The deserializer registry: the configuration kinds the host recognizes,
//! as an explicit value the host owns and passes by reference.
//!
//! The registry is modelled as the sequence of registered kind names, in
//! registration order, without repetition: registering a kind that is
//! already present changes nothing.

use vstd::prelude::*;

verus! {

/// The kinds after registering `kind`: unchanged when it is already present,
/// extended by it otherwise.
pub open spec fn spec_insert_kind(kinds: Seq<Seq<char>>, kind: Seq<char>) -> Seq<Seq<char>> {
    if kinds.contains(kind) {
        kinds
    } else {
        kinds.push(kind)
    }
}

/// The registry of configuration kinds.
#[derive(Debug)]
pub struct Deserializers {
    pub kinds: Vec<String>,
}

impl Deserializers {
    /// The registered kind names, in registration order.
    pub open spec fn registered(&self) -> Seq<Seq<char>> {
        self.kinds.deep_view()
    }

    /// An empty registry.
    pub fn new() -> (r: Deserializers)
        ensures
            r.registered() == Seq::<Seq<char>>::empty(),
    {
        Deserializers { kinds: Vec::new() }
    }

    /// Whether `kind` has been registered.
    pub fn is_registered(&self, kind: &str) -> (r: bool)
        ensures
            r == self.registered().contains(kind@),
    {
        let owned = kind.to_owned();
        let mut i: usize = 0;
        while i < self.kinds.len()
            invariant
                i <= self.kinds.len(),
                owned@ == kind@,
                forall|j: int| 0 <= j < i ==> self.registered()[j] != kind@,
            decreases self.kinds.len() - i,
        {
            if self.kinds[i] == owned {
                assert(self.registered()[i as int] == kind@);
                return true;
            }
            i = i + 1;
        }
        false
    }

    /// Registers `kind`. Registering a kind already present changes nothing.
    pub fn insert(&mut self, kind: &str)
        ensures
            final(self).registered() == spec_insert_kind(old(self).registered(), kind@),
    {
        if !self.is_registered(kind) {
            let ghost before = self.registered();
            self.kinds.push(kind.to_owned());
            proof {
                assert(self.registered() =~= before.push(kind@));
            }
        }
    }
}

/// Registers this crate's configuration kind, "mqtt", enabling declarative
/// configuration of the appender.
pub fn register(deserializers: &mut Deserializers)
    ensures
        final(deserializers).registered() == spec_insert_kind(
            old(deserializers).registered(),
            "mqtt"@,
        ),
{
    deserializers.insert("mqtt");
}

/// Law: registering the same kind twice leaves the registry exactly as one
/// registration does; from the registry consumer's view the second
/// registration does not alter behavior.
pub proof fn lemma_insert_idempotent(kinds: Seq<Seq<char>>, kind: Seq<char>)
    ensures
        spec_insert_kind(spec_insert_kind(kinds, kind), kind) == spec_insert_kind(kinds, kind),
{
    if !kinds.contains(kind) {
        assert(kinds.push(kind)[kinds.len() as int] == kind);
        assert(kinds.push(kind).contains(kind));
    }
}

} // verus!
