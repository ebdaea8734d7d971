//! The cluster registry: named cluster configurations plus an optional
//! active cluster. Names are unique keys; if an active name is set it is
//! always present in the mapping. The registry is mutated only through the
//! methods here; persisting it to disk happens outside this crate after
//! every mutation.

use vstd::prelude::*;
use vstd::string::StrSliceExecFns;
use vstd::string::StringExecFns;
use crate::config::ConsumerConfig;
use crate::config::KafkaConfig;
use crate::config::ProducerConfig;
use crate::config::SecurityConfig;
use crate::config::SpecKafkaConfig;
use crate::config::SpecSecurityConfig;
use crate::config::security_wf;
use crate::error::KafkaEyeError;
use crate::error::SpecError;
use crate::strutil::clone_string_vec;
use crate::strutil::str_eq;

verus! {

/// One named cluster in the registry.
#[derive(Debug, Clone)]
pub struct ClusterEntry {
    pub name: String,
    pub config: KafkaConfig,
}

pub struct SpecClusterEntry {
    pub name: Seq<char>,
    pub config: SpecKafkaConfig,
}

impl View for ClusterEntry {
    type V = SpecClusterEntry;

    open spec fn view(&self) -> SpecClusterEntry {
        SpecClusterEntry { name: self.name@, config: self.config@ }
    }
}

impl DeepView for ClusterEntry {
    type V = SpecClusterEntry;

    open spec fn deep_view(&self) -> SpecClusterEntry {
        self.view()
    }
}

#[derive(Debug, Clone)]
pub struct ClusterRegistry {
    pub clusters: Vec<ClusterEntry>,
    pub active: Option<String>,
}

pub struct SpecRegistry {
    pub clusters: Seq<SpecClusterEntry>,
    pub active: Option<Seq<char>>,
}

impl View for ClusterRegistry {
    type V = SpecRegistry;

    open spec fn view(&self) -> SpecRegistry {
        SpecRegistry { clusters: self.clusters.deep_view(), active: self.active.deep_view() }
    }
}

/// The registry knows the name.
pub open spec fn spec_has(r: SpecRegistry, name: Seq<char>) -> bool {
    exists|i: int| 0 <= i < r.clusters.len() && r.clusters[i].name == name
}

/// The configuration stored under the name.
pub open spec fn spec_config_of(r: SpecRegistry, name: Seq<char>) -> SpecKafkaConfig {
    r.clusters[choose|i: int| 0 <= i < r.clusters.len() && r.clusters[i].name == name].config
}

/// The names, in registry order.
pub open spec fn spec_names(r: SpecRegistry) -> Seq<Seq<char>> {
    Seq::new(r.clusters.len(), |i: int| r.clusters[i].name)
}

/// Whether `add_cluster` accepts this entry: non-empty name and broker
/// list, a coherent security block, and a name not yet taken.
pub open spec fn can_add(
    r: SpecRegistry,
    name: Seq<char>,
    brokers: Seq<Seq<char>>,
    security: Option<SpecSecurityConfig>,
) -> bool {
    &&& name.len() > 0
    &&& brokers.len() > 0
    &&& match security {
        Some(s) => security_wf(s),
        None => true,
    }
    &&& !spec_has(r, name)
}

/// The exact error `add_cluster` reports when it refuses an entry.
pub open spec fn add_error(
    r: SpecRegistry,
    name: Seq<char>,
    brokers: Seq<Seq<char>>,
    security: Option<SpecSecurityConfig>,
) -> SpecError {
    if name.len() == 0 {
        SpecError::Config("Cluster name cannot be empty"@)
    } else if brokers.len() == 0 {
        SpecError::Config("At least one broker is required"@)
    } else if !(match security {
        Some(s) => security_wf(s),
        None => true,
    }) {
        SpecError::Config("Invalid security configuration"@)
    } else {
        SpecError::Config("Cluster already exists: "@ + name)
    }
}

/// The registry after a successful `add_cluster`: the new entry appended,
/// with an empty client id defaulted to `kafka-eye-<name>` and default
/// producer and consumer settings.
pub open spec fn spec_added(
    r: SpecRegistry,
    name: Seq<char>,
    brokers: Seq<Seq<char>>,
    client_id: Seq<char>,
    security: Option<SpecSecurityConfig>,
) -> SpecRegistry {
    SpecRegistry {
        clusters: r.clusters.push(
            SpecClusterEntry {
                name,
                config: SpecKafkaConfig {
                    brokers,
                    client_id: if client_id.len() == 0 {
                        "kafka-eye-"@ + name
                    } else {
                        client_id
                    },
                    security,
                    producer: crate::config::producer_default(),
                    consumer: crate::config::consumer_default(),
                },
            },
        ),
        active: r.active,
    }
}

/// Every stored entry is a valid cluster definition.
pub open spec fn entry_wf(e: SpecClusterEntry) -> bool {
    &&& e.name.len() > 0
    &&& e.config.brokers.len() > 0
    &&& e.config.client_id.len() > 0
    &&& match e.config.security {
        Some(s) => security_wf(s),
        None => true,
    }
}

impl ClusterRegistry {
    /// Names unique, entries valid, and the active name (if set) present.
    pub open spec fn wf(&self) -> bool {
        &&& forall|i: int, j: int|
            0 <= i < j < self@.clusters.len() ==> self@.clusters[i].name != self@.clusters[j].name
        &&& forall|i: int| 0 <= i < self@.clusters.len() ==> entry_wf(#[trigger] self@.clusters[i])
        &&& match self@.active {
            Some(a) => spec_has(self@, a),
            None => true,
        }
    }

    /// An empty registry with no active cluster.
    pub fn new() -> (r: Self)
        ensures
            r@.clusters == Seq::<SpecClusterEntry>::empty(),
            r@.active is None,
            r.wf(),
    {
        let r = ClusterRegistry { clusters: Vec::new(), active: None };
        proof {
            assert(r@.clusters =~= Seq::<SpecClusterEntry>::empty());
        }
        r
    }

    /// How many clusters are configured.
    pub fn len(&self) -> (r: usize)
        ensures
            r == self@.clusters.len(),
    {
        self.clusters.len()
    }

    /// Whether a cluster of this name is configured.
    pub fn has_cluster(&self, name: &str) -> (r: bool)
        ensures
            r == spec_has(self@, name@),
    {
        let mut i: usize = 0;
        while i < self.clusters.len()
            invariant
                i <= self@.clusters.len(),
                forall|j: int| 0 <= j < i ==> self@.clusters[j].name != name@,
            decreases self@.clusters.len() - i,
        {
            if str_eq(self.clusters[i].name.as_str(), name) {
                proof {
                    assert(self@.clusters[i as int].name == name@);
                }
                return true;
            }
            i = i + 1;
        }
        false
    }

    /// The index of the named cluster, if present.
    fn index_of(&self, name: &str) -> (r: Option<usize>)
        ensures
            match r {
                Some(i) => i < self@.clusters.len() && self@.clusters[i as int].name == name@,
                None => !spec_has(self@, name@),
            },
    {
        let mut i: usize = 0;
        while i < self.clusters.len()
            invariant
                i <= self@.clusters.len(),
                forall|j: int| 0 <= j < i ==> self@.clusters[j].name != name@,
            decreases self@.clusters.len() - i,
        {
            if str_eq(self.clusters[i].name.as_str(), name) {
                return Some(i);
            }
            i = i + 1;
        }
        None
    }

    /// The configuration stored under the name, if present.
    pub fn get_cluster(&self, name: &str) -> (r: Option<&KafkaConfig>)
        requires
            self.wf(),
        ensures
            match r {
                Some(c) => spec_has(self@, name@) && c@ == spec_config_of(self@, name@),
                None => !spec_has(self@, name@),
            },
    {
        match self.index_of(name) {
            Some(i) => Some(&self.clusters[i].config),
            None => None,
        }
    }

    /// Adds a cluster under a new name. The entry is validated first: the
    /// name and the broker list must be non-empty and a security block, if
    /// given, must be coherent. An empty client id is defaulted to
    /// `kafka-eye-<name>`. On any error the registry is unchanged.
    pub fn add_cluster(
        &mut self,
        name: &str,
        brokers: &Vec<String>,
        client_id: &str,
        security: Option<SecurityConfig>,
    ) -> (r: Result<(), KafkaEyeError>)
        requires
            old(self).wf(),
        ensures
            final(self).wf(),
            !can_add(old(self)@, name@, brokers.deep_view(), security.deep_view()) ==> (
                r matches Err(e) && e@ == add_error(
                    old(self)@,
                    name@,
                    brokers.deep_view(),
                    security.deep_view(),
                ) && *final(self) == *old(self)),
            can_add(old(self)@, name@, brokers.deep_view(), security.deep_view()) ==> r is Ok
                && final(self)@ == spec_added(
                old(self)@,
                name@,
                brokers.deep_view(),
                client_id@,
                security.deep_view(),
            ),
            r is Ok <==> can_add(old(self)@, name@, brokers.deep_view(), security.deep_view()),
    {
        if name.unicode_len() == 0 {
            return Err(KafkaEyeError::Config("Cluster name cannot be empty".to_owned()));
        }
        if brokers.len() == 0 {
            return Err(KafkaEyeError::Config("At least one broker is required".to_owned()));
        }
        let security_ok = match &security {
            Some(s) => {
                let p = s.protocol.as_str();
                let valid = str_eq(p, "PLAINTEXT") || str_eq(p, "SSL") || str_eq(
                    p,
                    "SASL_PLAINTEXT",
                ) || str_eq(p, "SASL_SSL");
                let sasl_ok = !(str_eq(p, "SASL_PLAINTEXT") || str_eq(p, "SASL_SSL")) || !matches!(
                    &s.sasl,
                    None,
                );
                let ssl_ok = !(str_eq(p, "SSL") || str_eq(p, "SASL_SSL")) || !matches!(
                    &s.ssl,
                    None,
                );
                valid && sasl_ok && ssl_ok
            },
            None => true,
        };
        if !security_ok {
            return Err(KafkaEyeError::Config("Invalid security configuration".to_owned()));
        }
        if self.has_cluster(name) {
            let mut m = "Cluster already exists: ".to_owned();
            m.append(name);
            return Err(KafkaEyeError::Config(m));
        }
        let cid = if client_id.unicode_len() == 0 {
            let mut c = "kafka-eye-".to_owned();
            c.append(name);
            c
        } else {
            client_id.to_owned()
        };
        let entry = ClusterEntry {
            name: name.to_owned(),
            config: KafkaConfig {
                brokers: clone_string_vec(brokers),
                client_id: cid,
                security,
                producer: ProducerConfig::default(),
                consumer: ConsumerConfig::default(),
            },
        };
        let ghost prev = self.clusters.deep_view();
        self.clusters.push(entry);
        proof {
            assert(self.clusters.deep_view() =~= prev.push(self.clusters@.last()@));
            assert(forall|i: int|
                0 <= i < prev.len() ==> self@.clusters[i] == #[trigger] prev[i]);
        }
        Ok(())
    }

    /// Removes the named cluster. If it was the active cluster, the active
    /// pointer is cleared. Removing an unknown name is an error and leaves
    /// the registry unchanged.
    pub fn remove_cluster(&mut self, name: &str) -> (r: Result<(), KafkaEyeError>)
        requires
            old(self).wf(),
        ensures
            final(self).wf(),
            r is Ok <==> spec_has(old(self)@, name@),
            !spec_has(old(self)@, name@) ==> (r matches Err(e) && e@ == SpecError::Config(
                "Cluster not found: "@ + name@,
            ) && *final(self) == *old(self)),
            spec_has(old(self)@, name@) ==> exists|i: int|
                {
                    &&& 0 <= i < old(self)@.clusters.len()
                    &&& old(self)@.clusters[i].name == name@
                    &&& final(self)@.clusters == old(self)@.clusters.remove(i)
                },
            spec_has(old(self)@, name@) ==> final(self)@.active == (if old(self)@.active == Some(
                name@,
            ) {
                None::<Seq<char>>
            } else {
                old(self)@.active
            }),
    {
        let idx = match self.index_of(name) {
            Some(i) => i,
            None => {
                let mut m = "Cluster not found: ".to_owned();
                m.append(name);
                return Err(KafkaEyeError::Config(m));
            },
        };
        let ghost prev = self@;
        let clear_active = match &self.active {
            Some(a) => str_eq(a.as_str(), name),
            None => false,
        };
        if clear_active {
            self.active = None;
        }
        self.clusters.remove(idx);
        proof {
            assert(self.clusters.deep_view() =~= prev.clusters.remove(idx as int));
            assert forall|k: int| 0 <= k < self@.clusters.len() implies entry_wf(
                #[trigger] self@.clusters[k],
            ) by {
                if k < idx {
                    assert(self@.clusters[k] == prev.clusters[k]);
                } else {
                    assert(self@.clusters[k] == prev.clusters[k + 1]);
                }
            }
            assert forall|i: int, j: int|
                0 <= i < j < self@.clusters.len() implies self@.clusters[i].name
                != self@.clusters[j].name by {
                let pi = if i < idx {
                    i
                } else {
                    i + 1
                };
                let pj = if j < idx {
                    j
                } else {
                    j + 1
                };
                assert(self@.clusters[i] == prev.clusters[pi]);
                assert(self@.clusters[j] == prev.clusters[pj]);
            }
            if self@.active is Some {
                let a = self@.active->0;
                let w = choose|i: int|
                    0 <= i < prev.clusters.len() && prev.clusters[i].name == a;
                // The active entry was not the removed one, so it is still
                // present on one side of the removal point.
                assert(prev.clusters[idx as int].name == name@);
                if w < idx {
                    assert(self@.clusters[w].name == a);
                } else {
                    assert(self@.clusters[w - 1].name == a);
                }
            }
        }
        Ok(())
    }

    /// Makes the named cluster active. Unknown names are an error and
    /// leave the registry unchanged.
    pub fn set_active_cluster(&mut self, name: &str) -> (r: Result<(), KafkaEyeError>)
        requires
            old(self).wf(),
        ensures
            final(self).wf(),
            r is Ok <==> spec_has(old(self)@, name@),
            !spec_has(old(self)@, name@) ==> (r matches Err(e) && e@ == SpecError::Config(
                "Cluster not found: "@ + name@,
            ) && *final(self) == *old(self)),
            spec_has(old(self)@, name@) ==> final(self)@.clusters == old(self)@.clusters
                && final(self)@.active == Some(name@),
    {
        if !self.has_cluster(name) {
            let mut m = "Cluster not found: ".to_owned();
            m.append(name);
            return Err(KafkaEyeError::Config(m));
        }
        self.active = Some(name.to_owned());
        Ok(())
    }

    /// Clears the active cluster without touching the mapping.
    pub fn clear_active_cluster(&mut self)
        requires
            old(self).wf(),
        ensures
            final(self).wf(),
            final(self)@.clusters == old(self)@.clusters,
            final(self)@.active is None,
    {
        self.active = None;
    }

    /// The active cluster's name and configuration, if one is set.
    pub fn get_active_cluster(&self) -> (r: Option<(&String, &KafkaConfig)>)
        requires
            self.wf(),
        ensures
            match r {
                Some(p) => self@.active == Some(p.0@) && spec_has(self@, p.0@) && p.1@
                    == spec_config_of(self@, p.0@),
                None => self@.active is None,
            },
    {
        let name = match &self.active {
            Some(a) => a,
            None => {
                return None;
            },
        };
        match self.index_of(name.as_str()) {
            Some(i) => {
                proof {
                    let w = choose|k: int|
                        0 <= k < self@.clusters.len() && self@.clusters[k].name == name@;
                    assert(self@.clusters[w].name == self@.clusters[i as int].name);
                    if w != i {
                        assert(false);
                    }
                }
                Some((&self.clusters[i].name, &self.clusters[i].config))
            },
            None => {
                // Unreachable: well-formedness puts the active name in the map.
                proof {
                    assert(false);
                }
                None
            },
        }
    }

    /// The configured cluster names, in registry order.
    pub fn list_clusters(&self) -> (r: Vec<String>)
        ensures
            r.deep_view() == spec_names(self@),
    {
        let mut names: Vec<String> = Vec::new();
        let mut i: usize = 0;
        while i < self.clusters.len()
            invariant
                i <= self@.clusters.len(),
                names.deep_view() =~= spec_names(self@).subrange(0, i as int),
            decreases self@.clusters.len() - i,
        {
            let ghost prev = names.deep_view();
            names.push(self.clusters[i].name.clone());
            proof {
                assert(names.deep_view() =~= prev.push(self@.clusters[i as int].name));
                assert(prev.push(self@.clusters[i as int].name) =~= spec_names(self@).subrange(
                    0,
                    i + 1,
                ));
            }
            i = i + 1;
        }
        proof {
            assert(spec_names(self@).subrange(0, self@.clusters.len() as int) =~= spec_names(
                self@,
            ));
        }
        names
    }
}

} // verus!
