//! The metrics registry aggregator.
//!
//! One always-present default registry, plus any number of additional
//! registries keyed by an opaque 128-bit identifier, merged into one
//! snapshot: the families of every held registry, the default last.
//! Removal of an unknown key is a no-op, and the default registry can
//! never be removed. Metric-name collisions across registries are not
//! detected: both families appear in the snapshot, and callers are
//! responsible for namespacing.
//!
//! The registries themselves are `prometheus` registries, opaque here:
//! a registry value is a shared handle, and what `gather` returns
//! depends on the counters registered and incremented through it, so
//! nothing is promised of one gather call. The aggregation — which
//! registries are consulted, and how their family lists are flattened —
//! is this module's own verified logic.

use vstd::prelude::*;
use prometheus::proto::MetricFamily;
use prometheus::{IntCounter, Registry, TextEncoder};

verus! {

#[verifier::external_type_specification]
#[verifier::external_body]
pub struct ExRegistry(Registry);

#[verifier::external_type_specification]
#[verifier::external_body]
pub struct ExMetricFamily(MetricFamily);

#[verifier::external_type_specification]
#[verifier::external_body]
pub struct ExPromError(prometheus::Error);

/// An integer counter registered with a registry: a shared handle to
/// the live value, opaque here. Held in a struct of this library
/// because `prometheus::IntCounter` is a generic type whose `Atomic`
/// bound cannot be declared to the verifier.
#[verifier::external_body]
pub struct MetricCounter {
    inner: IntCounter,
}

impl MetricCounter {
    /// Relies on `prometheus::core::GenericCounter::inc`: adds one to
    /// the live counter value shared with the registry.
    #[verifier::external_body]
    pub fn increment(&self) {
        self.inner.inc()
    }

    /// Relies on `prometheus::core::GenericCounter::get`: the live
    /// counter value at this moment. It moves with concurrent
    /// increments, so nothing is promised of it.
    #[verifier::external_body]
    pub fn value(&self) -> u64 {
        self.inner.get()
    }
}

/// Relies on the derived `Clone` of `prometheus::Registry`: a registry
/// is a shared handle (an `Arc` within), and its clone is a handle to
/// the same underlying registry, here modelled as the same value.
#[verifier::external_body]
fn clone_registry(r: &Registry) -> (c: Registry)
    ensures
        c == *r,
{
    r.clone()
}

/// Relies on `prometheus::Registry::gather`: the families of the
/// collectors currently registered. The result depends on the
/// registry's current contents, so nothing is promised of it.
#[verifier::external_body]
fn gather_one(r: &Registry) -> Vec<MetricFamily> {
    r.gather()
}

/// Relies on `prometheus::TextEncoder::encode_to_string`: the standard
/// text exposition format of the given families, or an encoding error.
#[verifier::external_body]
fn encode_families(families: &Vec<MetricFamily>) -> Result<String, prometheus::Error> {
    TextEncoder.encode_to_string(families.as_slice())
}

/// Relies on the `Display` form of `prometheus::Error`: its message.
#[verifier::external_body]
fn prom_error_text(e: &prometheus::Error) -> String {
    format!("{}", e)
}

/// Relies on `prometheus::core::GenericCounter::new`: a fresh integer
/// counter with the given name and help, or an error when the name is
/// not acceptable to prometheus.
#[verifier::external_body]
fn new_int_counter(name: &str, help: &str) -> Result<MetricCounter, prometheus::Error> {
    match IntCounter::new(name.to_owned(), help.to_owned()) {
        Ok(inner) => Ok(MetricCounter { inner }),
        Err(e) => Err(e),
    }
}

/// Relies on `prometheus::Registry::register`: registers the counter
/// with the registry, or reports the error prometheus returns (a
/// duplicate collector, for one).
#[verifier::external_body]
fn register_counter(r: &Registry, c: &MetricCounter) -> Result<(), prometheus::Error> {
    r.register(Box::new(c.inner.clone()))
}

/// The map a key–registry sequence stands for: later entries shadow
/// earlier ones of the same key.
pub open spec fn entries_map(s: Seq<(u128, Registry)>) -> Map<u128, Registry>
    decreases s.len(),
{
    if s.len() == 0 {
        Map::empty()
    } else {
        entries_map(s.drop_last()).insert(s.last().0, s.last().1)
    }
}

/// The entries of `s` whose key is not `id`, order preserved.
pub open spec fn entries_without(s: Seq<(u128, Registry)>, id: u128) -> Seq<(u128, Registry)>
    decreases s.len(),
{
    if s.len() == 0 {
        Seq::empty()
    } else {
        let init = entries_without(s.drop_last(), id);
        if s.last().0 == id {
            init
        } else {
            init.push(s.last())
        }
    }
}

/// No two entries share a key.
pub open spec fn distinct_keys(s: Seq<(u128, Registry)>) -> bool {
    forall|i: int, j: int| 0 <= i < j < s.len() ==> (#[trigger] s[i]).0 != (#[trigger] s[j]).0
}

proof fn lemma_entries_without_removes(s: Seq<(u128, Registry)>, id: u128)
    ensures
        entries_map(entries_without(s, id)) == entries_map(s).remove(id),
        forall|i: int|
            0 <= i < entries_without(s, id).len() ==> (#[trigger] entries_without(s, id)[i]).0
                != id,
        forall|q: (u128, Registry)| entries_without(s, id).contains(q) ==> s.contains(q),
        distinct_keys(s) ==> distinct_keys(entries_without(s, id)),
    decreases s.len(),
{
    if s.len() == 0 {
        assert(entries_map(entries_without(s, id)) =~= entries_map(s).remove(id));
    } else {
        let init = s.drop_last();
        let p = s.last();
        lemma_entries_without_removes(init, id);
        assert forall|q: (u128, Registry)| init.contains(q) implies s.contains(q) by {
            let k = choose|k: int| 0 <= k < init.len() && init[k] == q;
            assert(s[k] == q);
        }
        if distinct_keys(s) {
            assert forall|i: int, j: int| 0 <= i < j < init.len() implies (#[trigger] init[i]).0
                != (#[trigger] init[j]).0 by {
                assert(init[i] == s[i] && init[j] == s[j]);
            }
        }
        if p.0 == id {
            assert(entries_map(entries_without(init, id)) =~= entries_map(init).insert(
                p.0,
                p.1,
            ).remove(id));
        } else {
            let w = entries_without(init, id);
            assert(entries_without(s, id) == w.push(p));
            assert(entries_map(w.push(p)) == entries_map(w).insert(p.0, p.1)) by {
                assert(w.push(p).drop_last() =~= w);
            }
            assert(entries_map(init).remove(id).insert(p.0, p.1) =~= entries_map(init).insert(
                p.0,
                p.1,
            ).remove(id));
            assert forall|i: int|
                0 <= i < entries_without(s, id).len() implies (#[trigger] entries_without(
                s,
                id,
            )[i]).0 != id by {
                if i < w.len() {
                    assert(entries_without(s, id)[i] == w[i]);
                } else {
                    assert(entries_without(s, id)[i] == p);
                }
            }
            assert forall|q: (u128, Registry)| entries_without(s, id).contains(q) implies s.contains(
                q,
            ) by {
                let k = choose|k: int| 0 <= k < w.push(p).len() && w.push(p)[k] == q;
                if k < w.len() {
                    assert(w.contains(q)) by {
                        assert(w[k] == q);
                    }
                } else {
                    assert(s[s.len() - 1] == q);
                }
            }
            if distinct_keys(s) {
                assert forall|i: int, j: int|
                    0 <= i < j < w.push(p).len() implies (#[trigger] w.push(p)[i]).0 != (
                #[trigger] w.push(p)[j]).0 by {
                    if j < w.len() {
                        assert(w.push(p)[i] == w[i] && w.push(p)[j] == w[j]);
                    } else {
                        assert(w.push(p)[i] == w[i]);
                        assert(w.contains(w[i])) by {
                            assert(w[i] == w[i]);
                        }
                        assert(init.contains(w[i]));
                        let k = choose|k: int| 0 <= k < init.len() && init[k] == w[i];
                        assert(s[k] == w[i]);
                        assert(s[k].0 != s[s.len() - 1].0);
                    }
                }
            }
        }
    }
}

/// Flattened concatenation of a sequence of family lists, in order.
pub open spec fn concat_families(groups: Seq<Seq<MetricFamily>>) -> Seq<MetricFamily>
    decreases groups.len(),
{
    if groups.len() == 0 {
        Seq::empty()
    } else {
        groups.first() + concat_families(groups.drop_first())
    }
}

/// Flattens per-registry family lists into one snapshot list, keeping
/// both the group order and the order within each group.
pub fn flatten_families(groups: Vec<Vec<MetricFamily>>) -> (r: Vec<MetricFamily>)
    ensures
        r@ == concat_families(groups@.map_values(|g: Vec<MetricFamily>| g@)),
{
    let ghost gs = groups@.map_values(|g: Vec<MetricFamily>| g@);
    let mut groups = groups;
    let mut r: Vec<MetricFamily> = Vec::new();
    while groups.len() != 0
        invariant
            concat_families(gs) == r@ + concat_families(
                groups@.map_values(|g: Vec<MetricFamily>| g@),
            ),
        decreases groups@.len(),
    {
        let ghost before = groups@.map_values(|g: Vec<MetricFamily>| g@);
        let mut group = groups.remove(0);
        proof {
            assert(groups@.map_values(|g: Vec<MetricFamily>| g@) =~= before.drop_first());
            assert(before.first() == group@);
            assert(concat_families(before) == group@ + concat_families(before.drop_first()));
        }
        let ghost gseq = group@;
        let ghost r_before = r@;
        r.append(&mut group);
        proof {
            assert(r_before + (gseq + concat_families(before.drop_first())) =~= (r_before + gseq)
                + concat_families(before.drop_first()));
        }
    }
    proof {
        assert(groups@.map_values(|g: Vec<MetricFamily>| g@) =~= Seq::<Seq<MetricFamily>>::empty());
        assert(r@ + concat_families(Seq::<Seq<MetricFamily>>::empty()) =~= r@);
    }
    r
}

/// A service that holds the default registry and the additional
/// registries by key, and merges their families into one snapshot.
pub struct RegistryService {
    default_registry: Registry,
    registries_by_id: Vec<(u128, Registry)>,
}

impl RegistryService {
    /// The default registry's handle.
    pub closed spec fn spec_default(&self) -> Registry {
        self.default_registry
    }

    /// The key–registry map the service currently holds, the default
    /// registry not included.
    pub closed spec fn id_map(&self) -> Map<u128, Registry> {
        entries_map(self.registries_by_id@)
    }

    /// The held entries in order; the snapshot consults exactly these
    /// registries, then the default.
    pub closed spec fn entries(&self) -> Seq<(u128, Registry)> {
        self.registries_by_id@
    }

    /// Keys are never repeated among the held entries.
    pub closed spec fn wf(&self) -> bool {
        distinct_keys(self.registries_by_id@)
    }

    /// Creates the service around the default registry, which is kept
    /// for the service's whole life and can never be removed. No other
    /// registry is held yet.
    pub fn new(default_registry: Registry) -> (s: Self)
        ensures
            s.wf(),
            s.spec_default() == default_registry,
            s.id_map() == Map::<u128, Registry>::empty(),
            s.entries() == Seq::<(u128, Registry)>::empty(),
    {
        let s = RegistryService { default_registry, registries_by_id: Vec::new() };
        proof {
            assert(s.id_map() =~= Map::<u128, Registry>::empty());
        }
        s
    }

    /// The always-present default registry: a shared handle, so callers
    /// register metrics into it directly.
    pub fn default_registry(&self) -> (r: Registry)
        ensures
            r == self.spec_default(),
    {
        clone_registry(&self.default_registry)
    }

    /// Removes the registry keyed `id`, if one is held; removing an
    /// unknown key changes nothing and is not an error. The default
    /// registry is untouched either way.
    pub fn remove_registry(&mut self, id: u128)
        requires
            old(self).wf(),
        ensures
            final(self).wf(),
            final(self).id_map() == old(self).id_map().remove(id),
            final(self).spec_default() == old(self).spec_default(),
            forall|i: int|
                0 <= i < final(self).entries().len() ==> (#[trigger] final(self).entries()[i]).0
                    != id,
    {
        let ghost orig = self.registries_by_id@;
        let n = self.registries_by_id.len();
        let mut kept: Vec<(u128, Registry)> = Vec::new();
        let mut i: usize = 0;
        while i < n
            invariant
                n == self.registries_by_id@.len(),
                i <= n,
                orig == self.registries_by_id@,
                kept@ == entries_without(orig.take(i as int), id),
            decreases n - i,
        {
            let key = self.registries_by_id[i].0;
            proof {
                assert(orig.take(i + 1).drop_last() =~= orig.take(i as int));
                assert(orig.take(i + 1).last() == orig[i as int]);
            }
            if key != id {
                let r = clone_registry(&self.registries_by_id[i].1);
                proof {
                    assert((key, r) == orig[i as int]);
                }
                kept.push((key, r));
            }
            i += 1;
        }
        proof {
            assert(orig.take(n as int) =~= orig);
            lemma_entries_without_removes(orig, id);
        }
        self.registries_by_id = kept;
    }

    /// Holds `registry` under `id`: a later snapshot consults it. An
    /// entry already keyed `id` is replaced. The default registry is
    /// untouched.
    pub fn add_registry(&mut self, id: u128, registry: Registry)
        requires
            old(self).wf(),
        ensures
            final(self).wf(),
            final(self).id_map() == old(self).id_map().insert(id, registry),
            final(self).spec_default() == old(self).spec_default(),
    {
        self.remove_registry(id);
        let ghost mid = *self;
        let ghost cleaned = self.registries_by_id@;
        self.registries_by_id.push((id, registry));
        proof {
            assert(self.registries_by_id@.drop_last() =~= cleaned);
            assert(self.id_map() == entries_map(cleaned).insert(id, registry));
            assert(entries_map(cleaned).insert(id, registry) =~= old(self).id_map().insert(
                id,
                registry,
            ));
            assert forall|i: int, j: int|
                0 <= i < j < self.registries_by_id@.len() implies (
            #[trigger] self.registries_by_id@[i]).0 != (#[trigger] self.registries_by_id@[j]).0 by {
                if j < cleaned.len() {
                    assert(self.registries_by_id@[i] == cleaned[i]);
                    assert(self.registries_by_id@[j] == cleaned[j]);
                } else {
                    assert(self.registries_by_id@[i] == cleaned[i]);
                    assert(self.registries_by_id@[j].0 == id);
                    assert(mid.entries()[i].0 != id);
                    assert(cleaned[i].0 != id);
                }
            }
        }
    }

    /// Every held registry, the default last: exactly the handles the
    /// snapshot gathers from, at this moment — nothing is cached.
    pub fn get_all(&self) -> (r: Vec<Registry>)
        ensures
            r@ == self.entries().map_values(|p: (u128, Registry)| p.1).push(self.spec_default()),
    {
        let ghost vals = self.registries_by_id@.map_values(|p: (u128, Registry)| p.1);
        let mut r: Vec<Registry> = Vec::new();
        let n = self.registries_by_id.len();
        let mut i: usize = 0;
        while i < n
            invariant
                n == self.registries_by_id@.len(),
                i <= n,
                vals == self.registries_by_id@.map_values(|p: (u128, Registry)| p.1),
                r@ == vals.take(i as int),
            decreases n - i,
        {
            let reg = clone_registry(&self.registries_by_id[i].1);
            proof {
                assert(vals.take(i + 1) =~= vals.take(i as int).push(vals[i as int]));
            }
            r.push(reg);
            i += 1;
        }
        proof {
            assert(vals.take(n as int) =~= vals);
        }
        r.push(self.default_registry());
        r
    }

    /// One merged snapshot: the families gathered from every held
    /// registry and from the default, flattened in consultation order.
    /// What each gather returns depends on that registry's live
    /// contents; the flattening itself is [`flatten_families`].
    pub fn gather_all(&self) -> (r: Vec<MetricFamily>)
    {
        let registries = self.get_all();
        let mut groups: Vec<Vec<MetricFamily>> = Vec::new();
        let n = registries.len();
        let mut i: usize = 0;
        while i < n
            invariant
                n == registries@.len(),
                i <= n,
            decreases n - i,
        {
            groups.push(gather_one(&registries[i]));
            i += 1;
        }
        flatten_families(groups)
    }
}

/// The three request counters of the service, registered once at
/// startup into the registry handed in.
pub struct Metrics {
    /// Total requests received.
    pub requests: MetricCounter,
    /// Total attestation requests received.
    pub get_attestation_requests: MetricCounter,
    /// Total data-processing requests received.
    pub process_data_requests: MetricCounter,
}

impl Metrics {
    /// Creates and registers the three counters. Registration is decided
    /// by prometheus (a duplicate name, for one, is refused); any such
    /// error comes back as its message.
    pub fn new(registry: &Registry) -> Result<Metrics, String> {
        let requests = match make_counter(
            registry,
            "total_requests",
            "Total number of requests received by my service",
        ) {
            Ok(c) => c,
            Err(e) => {
                return Err(e);
            },
        };
        let get_attestation_requests = match make_counter(
            registry,
            "total_get_attestation_requests",
            "Total number of get_attestation requests received",
        ) {
            Ok(c) => c,
            Err(e) => {
                return Err(e);
            },
        };
        let process_data_requests = match make_counter(
            registry,
            "total_process_data_requests",
            "Total number of process_data requests received",
        ) {
            Ok(c) => c,
            Err(e) => {
                return Err(e);
            },
        };
        Ok(Metrics { requests, get_attestation_requests, process_data_requests })
    }
}

/// Creates one counter and registers it, mapping either prometheus
/// error to its message.
fn make_counter(registry: &Registry, name: &str, help: &str) -> Result<MetricCounter, String> {
    let counter = match new_int_counter(name, help) {
        Ok(c) => c,
        Err(e) => {
            return Err(prom_error_text(&e));
        },
    };
    match register_counter(registry, &counter) {
        Ok(_) => Ok(counter),
        Err(e) => Err(prom_error_text(&e)),
    }
}

/// The body of the metrics scrape response: the status code and text
/// for an encoding outcome. Success is the exposition text with code
/// 200; failure is code 500 with the error's message inline.
pub fn metrics_response(encoded: Result<String, String>) -> (r: (u16, String))
    ensures
        encoded matches Ok(text) ==> r.0 == 200 && r.1 == text,
        encoded matches Err(msg) ==> r.0 == 500 && r.1@ == "unable to encode metrics: "@ + msg@,
{
    match encoded {
        Ok(text) => (200, text),
        Err(msg) => {
            let mut body: String = "unable to encode metrics: ".to_owned();
            body.append(msg.as_str());
            (500, body)
        },
    }
}

/// The metrics scrape endpoint's core: one fresh snapshot, encoded to
/// the text exposition format; 200 with the text on success, 500 with
/// the error message on failure. Whether encoding succeeds is decided
/// by prometheus; either way the response is [`metrics_response`] of
/// the outcome.
pub fn metrics(registry_service: &RegistryService) -> (r: (u16, String))
    ensures
        r.0 == 200 || r.0 == 500,
{
    let families = registry_service.gather_all();
    let encoded = match encode_families(&families) {
        Ok(text) => Ok(text),
        Err(e) => Err(prom_error_text(&e)),
    };
    metrics_response(encoded)
}

} // verus!
