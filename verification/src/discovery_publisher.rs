//! Aggregating every unit's descriptors into the one retained
//! device-description message. Component keys are namespaced with the host
//! slug and kept pairwise distinct whatever raw identifiers the units
//! supply; serialising and sending the finished payload happen at the
//! runtime's edge.

use vstd::prelude::*;
use crate::command::CommandDiscovery;
use crate::ha::discovery::{
    Device, HaButtonDiscovery, HaComponentDiscovery, HaDeviceDiscovery, HaSensorDiscovery, Origin,
};
use crate::sensor::SensorDiscovery;
use crate::text::has_prefix;

verus! {

/// The keys of a component list, in order.
pub open spec fn keys_of(v: Seq<(String, HaComponentDiscovery)>) -> Seq<Seq<char>> {
    v.map_values(|e: (String, HaComponentDiscovery)| e.0@)
}

/// `base` with `k` underscores appended.
pub open spec fn pad(base: Seq<char>, k: int) -> Seq<char>
    decreases k,
{
    if k <= 0 {
        base
    } else {
        pad(base, k - 1).push('_')
    }
}

/// Padding adds exactly one character per step.
proof fn lemma_pad_len(base: Seq<char>, k: int)
    requires
        k >= 0,
    ensures
        pad(base, k).len() == base.len() + k,
    decreases k,
{
    if k > 0 {
        lemma_pad_len(base, k - 1);
    }
}

/// A sensor entry carries its key as unique identifier and maps the unit's
/// descriptor field for field, the state topic set to the unit's topic.
pub open spec fn sensor_entry_ok(
    s: HaSensorDiscovery,
    d: SensorDiscovery,
    topic: Seq<char>,
    key: Seq<char>,
) -> bool {
    &&& s.unique_id@ == key
    &&& s.name == d.title
    &&& s.icon == d.icon
    &&& s.entity_category == d.entity_category
    &&& s.device_class == d.device_class
    &&& s.state_class == d.state_class
    &&& s.unit_of_measurement == d.unit_of_measurement
    &&& s.suggested_display_precision == d.suggested_display_precision
    &&& s.state_topic@ == topic
    &&& s.value_template == d.value_template
    &&& (d.attributes_template is Some ==> s.json_attributes_topic is Some
        && s.json_attributes_topic->0@ == topic && s.json_attributes_template
        == d.attributes_template)
    &&& (d.attributes_template is None ==> s.json_attributes_topic is None
        && s.json_attributes_template is None)
}

/// A button entry carries its key as unique identifier and maps the unit's
/// descriptor field for field.
pub open spec fn button_entry_ok(
    b: HaButtonDiscovery,
    d: CommandDiscovery,
    topic: Seq<char>,
    key: Seq<char>,
) -> bool {
    &&& b.unique_id@ == key
    &&& b.name == d.name
    &&& b.icon == d.icon
    &&& b.entity_category == d.entity_category
    &&& b.device_class == d.device_class
    &&& b.command_topic@ == topic
}

/// Gathers every unit's descriptors into the component list of the
/// discovery payload.
pub struct ComponentCollector {
    pub hostname_snake: String,
    pub result: Vec<(String, HaComponentDiscovery)>,
}

impl ComponentCollector {
    /// Every key is namespaced with the host slug, and no two keys collide,
    /// whatever raw identifiers the units supplied.
    pub open spec fn inv(&self) -> bool {
        &&& keys_of(self.result@).no_duplicates()
        &&& forall|i: int|
            0 <= i < self.result@.len() ==> has_prefix(
                #[trigger] keys_of(self.result@)[i],
                self.hostname_snake@ + seq!['_'],
            )
    }

    /// An empty collector for the given host slug.
    pub fn new(hostname_snake: String) -> (r: Self)
        ensures
            r.inv(),
            r.hostname_snake == hostname_snake,
            r.result@.len() == 0,
    {
        let r = ComponentCollector { hostname_snake, result: Vec::new() };
        proof {
            assert(keys_of(r.result@) =~= Seq::<Seq<char>>::empty());
        }
        r
    }

    /// Whether some entry already uses this key.
    fn key_taken(&self, key: &str) -> (r: bool)
        ensures
            r == keys_of(self.result@).contains(key@),
    {
        let n = self.result.len();
        let mut i: usize = 0;
        while i < n
            invariant
                n == self.result@.len(),
                0 <= i <= n,
                forall|j: int| 0 <= j < i ==> keys_of(self.result@)[j] != key@,
            decreases n - i,
        {
            if crate::strutil::str_eq(self.result[i].0.as_str(), key) {
                assert(keys_of(self.result@)[i as int] == key@);
                return true;
            }
            i = i + 1;
        }
        proof {
            assert forall|j: int| 0 <= j < keys_of(self.result@).len() implies keys_of(
                self.result@,
            )[j] != key@ by {}
        }
        false
    }

    /// A key for the given raw identifier that no entry uses yet:
    /// `{slug}_{id}`, padded with underscores until it is free.
    fn fresh_key(&self, id: &str) -> (r: String)
        ensures
            has_prefix(r@, self.hostname_snake@ + seq!['_']),
            !keys_of(self.result@).contains(r@),
    {
        let ghost base_v = self.hostname_snake@ + seq!['_'] + id@;
        let mut cand = self.hostname_snake.clone();
        crate::strutil::push_char(&mut cand, '_');
        crate::strutil::append_str(&mut cand, id);
        proof {
            assert(cand@ =~= base_v);
            assert(pad(base_v, 0) == base_v);
            let p = self.hostname_snake@ + seq!['_'];
            assert(cand@.subrange(0, p.len() as int) =~= p);
        }
        if !self.key_taken(cand.as_str()) {
            return cand;
        }
        let n = self.result.len();
        let mut i: usize = 0;
        while i < n
            invariant
                n == self.result@.len(),
                0 <= i <= n,
                cand@ == pad(base_v, i as int),
                has_prefix(cand@, self.hostname_snake@ + seq!['_']),
                forall|j: int| 0 <= j <= i ==> keys_of(self.result@).contains(#[trigger] pad(base_v, j)),
            decreases n - i,
        {
            proof {
                let p = self.hostname_snake@ + seq!['_'];
                assert(cand@.push('_').subrange(0, p.len() as int) =~= cand@.subrange(
                    0,
                    p.len() as int,
                ));
            }
            crate::strutil::push_char(&mut cand, '_');
            i = i + 1;
            if !self.key_taken(cand.as_str()) {
                return cand;
            }
        }
        proof {
            // Every one of the n + 1 candidates collided, yet they are
            // pairwise distinct and the list holds only n keys.
            let cands = Seq::new((n + 1) as nat, |j: int| pad(base_v, j));
            assert forall|a: int, b: int| 0 <= a < cands.len() && 0 <= b < cands.len() && a != b
                implies cands[a] != cands[b] by {
                lemma_pad_len(base_v, a);
                lemma_pad_len(base_v, b);
            }
            assert(cands.no_duplicates());
            cands.unique_seq_to_set();
            let keys = keys_of(self.result@);
            assert forall|x: Seq<char>| cands.to_set().contains(x) implies keys.to_set().contains(
                x,
            ) by {
                let j = choose|j: int| 0 <= j < cands.len() && cands[j] == x;
                assert(keys.contains(pad(base_v, j)));
                let k = choose|k: int| 0 <= k < keys.len() && keys[k] == x;
            }
            assert(cands.to_set().subset_of(keys.to_set()));
            keys.lemma_cardinality_of_set();
            vstd::set_lib::lemma_len_subset(cands.to_set(), keys.to_set());
            assert(false);
        }
        cand
    }

    /// Adds one sensor unit: one entry per descriptor, each keyed with a
    /// fresh slug-namespaced key, the unit's topic as state topic.
    pub fn add_sensor(&mut self, topic: &str, items: Vec<SensorDiscovery>)
        requires
            old(self).inv(),
        ensures
            final(self).inv(),
            final(self).hostname_snake == old(self).hostname_snake,
            final(self).result@.len() == old(self).result@.len() + items@.len(),
            final(self).result@.subrange(0, old(self).result@.len() as int) == old(self).result@,
            forall|j: int|
                0 <= j < items@.len() ==> {
                    let e = #[trigger] final(self).result@[old(self).result@.len() + j];
                    match e.1 {
                        HaComponentDiscovery::Sensor(s) => sensor_entry_ok(
                            s,
                            items@[j],
                            topic@,
                            e.0@,
                        ),
                        _ => false,
                    }
                },
    {
        let mut items = items;
        let ghost orig_items = items@;
        let ghost orig_len = self.result@.len();
        let mut j: usize = 0;
        let total = items.len();
        while j < total
            invariant
                total == orig_items.len(),
                0 <= j <= total,
                items@ == orig_items.skip(j as int),
                self.inv(),
                self.hostname_snake == old(self).hostname_snake,
                self.result@.len() == orig_len + j,
                orig_len == old(self).result@.len(),
                self.result@.subrange(0, orig_len as int) == old(self).result@,
                forall|k: int|
                    0 <= k < j ==> {
                        let e = #[trigger] self.result@[orig_len + k];
                        match e.1 {
                            HaComponentDiscovery::Sensor(s) => sensor_entry_ok(
                                s,
                                orig_items[k],
                                topic@,
                                e.0@,
                            ),
                            _ => false,
                        }
                    },
            decreases total - j,
        {
            let item = items.remove(0);
            let key = self.fresh_key(item.id.as_str());
            let (_raw, comp) = HaSensorDiscovery::new(
                key.clone(),
                String::from_str(topic),
                item,
            );
            proof {
                assert(orig_items.skip(j as int)[0] == orig_items[j as int]);
            }
            let ghost before = self.result@;
            self.result.push((key, HaComponentDiscovery::Sensor(comp)));
            proof {
                assert(keys_of(self.result@) =~= keys_of(before).push(
                    self.result@[before.len() as int].0@,
                ));
                assert(self.result@.subrange(0, orig_len as int) =~= before.subrange(
                    0,
                    orig_len as int,
                ));
                assert(items@ =~= orig_items.skip(j + 1));
            }
            j = j + 1;
        }
    }

    /// Adds one command unit: one entry per descriptor, each keyed with a
    /// fresh slug-namespaced key, the unit's topic as command topic.
    pub fn add_command(&mut self, topic: &str, items: Vec<CommandDiscovery>)
        requires
            old(self).inv(),
        ensures
            final(self).inv(),
            final(self).hostname_snake == old(self).hostname_snake,
            final(self).result@.len() == old(self).result@.len() + items@.len(),
            final(self).result@.subrange(0, old(self).result@.len() as int) == old(self).result@,
            forall|j: int|
                0 <= j < items@.len() ==> {
                    let e = #[trigger] final(self).result@[old(self).result@.len() + j];
                    match e.1 {
                        HaComponentDiscovery::Button(b) => button_entry_ok(
                            b,
                            items@[j],
                            topic@,
                            e.0@,
                        ),
                        _ => false,
                    }
                },
    {
        let mut items = items;
        let ghost orig_items = items@;
        let ghost orig_len = self.result@.len();
        let mut j: usize = 0;
        let total = items.len();
        while j < total
            invariant
                total == orig_items.len(),
                0 <= j <= total,
                items@ == orig_items.skip(j as int),
                self.inv(),
                self.hostname_snake == old(self).hostname_snake,
                self.result@.len() == orig_len + j,
                orig_len == old(self).result@.len(),
                self.result@.subrange(0, orig_len as int) == old(self).result@,
                forall|k: int|
                    0 <= k < j ==> {
                        let e = #[trigger] self.result@[orig_len + k];
                        match e.1 {
                            HaComponentDiscovery::Button(b) => button_entry_ok(
                                b,
                                orig_items[k],
                                topic@,
                                e.0@,
                            ),
                            _ => false,
                        }
                    },
            decreases total - j,
        {
            let item = items.remove(0);
            let key = self.fresh_key(item.id.as_str());
            let (_raw, comp) = HaButtonDiscovery::new(
                key.clone(),
                String::from_str(topic),
                item,
            );
            proof {
                assert(orig_items.skip(j as int)[0] == orig_items[j as int]);
            }
            let ghost before = self.result@;
            self.result.push((key, HaComponentDiscovery::Button(comp)));
            proof {
                assert(keys_of(self.result@) =~= keys_of(before).push(
                    self.result@[before.len() as int].0@,
                ));
                assert(self.result@.subrange(0, orig_len as int) =~= before.subrange(
                    0,
                    orig_len as int,
                ));
                assert(items@ =~= orig_items.skip(j + 1));
            }
            j = j + 1;
        }
    }
}

/// The topic of the retained device-description message.
pub fn discovery_topic(discovery_prefix: &str, hostname_snake: &str) -> (r: String)
    ensures
        r@ == discovery_prefix@ + "/device/"@ + hostname_snake@ + "/config"@,
{
    let mut out = String::from_str(discovery_prefix);
    crate::strutil::append_str(&mut out, "/device/");
    crate::strutil::append_str(&mut out, hostname_snake);
    crate::strutil::append_str(&mut out, "/config");
    out
}

/// Assembles the whole device-description payload from its parts.
pub fn build_device_discovery(
    availability_topic: String,
    hostname: String,
    machine_id: String,
    connections: Vec<(String, String)>,
    origin_name: String,
    origin_version: String,
    collector: ComponentCollector,
) -> (r: HaDeviceDiscovery)
    ensures
        r.device.name == hostname,
        r.device.identifiers@.len() == 1,
        r.device.identifiers@[0] == machine_id,
        r.device.connections == connections,
        r.origin.name == origin_name,
        r.origin.sw_version == origin_version,
        r.availability_topic == availability_topic,
        r.components == collector.result,
{
    let mut identifiers: Vec<String> = Vec::new();
    identifiers.push(machine_id);
    HaDeviceDiscovery {
        device: Device { name: hostname, identifiers, connections },
        origin: Origin { name: origin_name, sw_version: origin_version },
        availability_topic,
        components: collector.result,
    }
}

} // verus!
