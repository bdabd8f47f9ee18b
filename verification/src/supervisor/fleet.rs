//! The services that a supervisor keeps track of.

use vstd::prelude::*;

use crate::keyed::{contents, distinct, entry_is_content, holds, holds_at, keys_count, setting_inserts};
use crate::supervisor::lifecycle::{LifecycleView, ServiceLifecycle, ServiceLifecycleSnapshot};

verus! {

/// The last known lifecycle of each service, by name. A service that has
/// terminated stays on record.
#[derive(Debug)]
pub struct Fleet {
    services: Vec<ServiceLifecycle>,
}

spec fn by_name(services: Seq<ServiceLifecycle>) -> Seq<(Seq<char>, LifecycleView)> {
    services.map_values(|lc: ServiceLifecycle| (lc@.name, lc@))
}

impl View for Fleet {
    type V = Map<Seq<char>, LifecycleView>;

    closed spec fn view(&self) -> Map<Seq<char>, LifecycleView> {
        contents(by_name(self.services@))
    }
}

/// Whether a snapshot shows a service of the fleet at a moment that the
/// service's stopwatch gave.
pub open spec fn shows_service(
    snapshot: ServiceLifecycleSnapshot,
    fleet: Map<Seq<char>, LifecycleView>,
) -> bool {
    let name = snapshot.service_name@;
    &&& fleet.dom().contains(name)
    &&& exists|now| fleet[name].watch.may_show(now) && #[trigger] snapshot.shows(fleet[name], now)
}

impl Fleet {
    /// No name occurs twice.
    #[verifier::type_invariant]
    spec fn names_distinct(self) -> bool {
        distinct(by_name(self.services@))
    }

    /// A fleet of no services.
    pub fn new() -> (r: Self)
        ensures
            r@ == Map::<Seq<char>, LifecycleView>::empty(),
    {
        let fleet = Fleet { services: Vec::new() };
        assert(fleet@ =~= Map::<Seq<char>, LifecycleView>::empty());
        fleet
    }

    fn find(&self, name: &str) -> (r: Option<usize>)
        ensures
            match r {
                Some(i) => holds_at(by_name(self.services@), name@, i as int),
                None => !holds(by_name(self.services@), name@),
            },
    {
        let wanted = name.to_string();
        let mut i: usize = 0;
        while i < self.services.len()
            invariant
                i <= self.services@.len(),
                wanted@ == name@,
                forall|k: int|
                    0 <= k < i ==> !#[trigger] holds_at(by_name(self.services@), name@, k),
            decreases self.services@.len() - i,
        {
            let here = self.services[i].service_name().to_string();
            if here == wanted {
                return Some(i);
            }
            i = i + 1;
        }
        None
    }

    /// Record a lifecycle, in place of an earlier one under the same name.
    pub fn update(&mut self, lifecycle: ServiceLifecycle)
        ensures
            final(self)@ == old(self)@.insert(lifecycle@.name, lifecycle@),
    {
        proof {
            use_type_invariant(&*self);
        }
        let ghost before = by_name(self.services@);
        let ghost lc = lifecycle@;
        let found = self.find(lifecycle.service_name());
        let mut services: Vec<ServiceLifecycle> = Vec::new();
        std::mem::swap(&mut services, &mut self.services);
        match found {
            Some(i) => {
                services[i] = lifecycle;
                assert(by_name(services@) =~= before.update(i as int, (lc.name, lc)));
            },
            None => {
                services.push(lifecycle);
                assert(by_name(services@) =~= before.push((lc.name, lc)));
            },
        }
        proof {
            let at = match found {
                Some(i) => i as int,
                None => before.len() as int,
            };
            setting_inserts(before, by_name(services@), lc.name, lc, at);
        }
        self.services = services;
    }

    /// Number of services on record.
    pub fn service_count(&self) -> (r: usize)
        ensures
            r == self@.dom().len(),
            self@.dom().finite(),
    {
        proof {
            use_type_invariant(self);
            keys_count(by_name(self.services@));
        }
        self.services.len()
    }

    /// Snapshot of the service with the given name; `None` if there is none.
    pub fn service_lifecycle(&self, name: &str) -> (r: Option<ServiceLifecycleSnapshot>)
        ensures
            r is Some <==> self@.dom().contains(name@),
            r is Some ==> r->0.service_name@ == name@ && shows_service(r->0, self@),
    {
        proof {
            use_type_invariant(self);
        }
        match self.find(name) {
            Some(i) => {
                proof {
                    entry_is_content(by_name(self.services@), i as int);
                }
                Some(ServiceLifecycleSnapshot::from(&self.services[i]))
            },
            None => None,
        }
    }

    /// Snapshots of all services, one for each.
    pub fn lifecycle_snapshots(&self) -> (r: Vec<ServiceLifecycleSnapshot>)
        ensures
            r@.len() == self@.dom().len(),
            forall|i: int| 0 <= i < r@.len() ==> shows_service(#[trigger] r@[i], self@),
            forall|i: int, j: int|
                0 <= i < j < r@.len() ==> (#[trigger] r@[i]).service_name@ != (#[trigger] r@[j]).service_name@,
    {
        proof {
            use_type_invariant(self);
            keys_count(by_name(self.services@));
        }
        let mut out: Vec<ServiceLifecycleSnapshot> = Vec::new();
        let mut i: usize = 0;
        while i < self.services.len()
            invariant
                i <= self.services@.len(),
                out@.len() == i,
                distinct(by_name(self.services@)),
                forall|k: int|
                    0 <= k < i ==> (#[trigger] out@[k]).service_name@ == self.services@[k]@.name
                        && shows_service(out@[k], self@),
            decreases self.services@.len() - i,
        {
            proof {
                entry_is_content(by_name(self.services@), i as int);
            }
            out.push(ServiceLifecycleSnapshot::from(&self.services[i]));
            i = i + 1;
        }
        proof {
            assert forall|i: int, j: int| 0 <= i < j < out@.len() implies (
            #[trigger] out@[i]).service_name@ != (#[trigger] out@[j]).service_name@ by {
                assert(by_name(self.services@)[i].0 != by_name(self.services@)[j].0);
            }
        }
        out
    }
}

/// A service's own updates are the only ones that change what the fleet has on
/// record for it, and no service is ever dropped.
pub proof fn updates_are_independent(
    fleet: Map<Seq<char>, LifecycleView>,
    lifecycle: LifecycleView,
    other: Seq<char>,
)
    requires
        other != lifecycle.name,
    ensures
        fleet.insert(lifecycle.name, lifecycle)[lifecycle.name] == lifecycle,
        fleet.insert(lifecycle.name, lifecycle).dom().contains(other) <==> fleet.dom().contains(
            other,
        ),
        fleet.dom().contains(other) ==> fleet.insert(lifecycle.name, lifecycle)[other]
            == fleet[other],
{
}

} // verus!
