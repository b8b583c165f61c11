//! The counters that the storage and the search components publish.

use vstd::prelude::*;
use vstd::string::*;
use crate::metrics::new_counter;
use crate::metrics::new_gauge;
use crate::metrics::IntCounter;
use crate::metrics::IntGauge;

verus! {

/// The counters of the search component.
#[derive(Debug)]
pub struct SearchCounters {
    pub num_split_searches: IntCounter,
}

impl Default for SearchCounters {
    fn default() -> (counters: Self)
        ensures
            counters.num_split_searches.name@ == "search::num_split_search"@,
            counters.num_split_searches.help@ == "Number of split search started."@,
            counters.num_split_searches.value == 0,
    {
        SearchCounters {
            num_split_searches: new_counter(
                "search::num_split_search",
                "Number of split search started.",
            ),
        }
    }
}

/// The counters of one cache.
#[derive(Debug)]
pub struct CacheCounters {
    pub component_name: String,
    pub num_items: IntGauge,
    pub num_bytes: IntGauge,
    pub num_cache_hits_items: IntCounter,
    pub num_cache_hits_bytes: IntCounter,
    pub num_cache_miss_items: IntCounter,
}

impl Clone for CacheCounters {
    fn clone(&self) -> (copy: Self)
        ensures
            copy == *self,
    {
        CacheCounters {
            component_name: self.component_name.clone(),
            num_items: self.num_items.clone(),
            num_bytes: self.num_bytes.clone(),
            num_cache_hits_items: self.num_cache_hits_items.clone(),
            num_cache_hits_bytes: self.num_cache_hits_bytes.clone(),
            num_cache_miss_items: self.num_cache_miss_items.clone(),
        }
    }
}

/// The name of a metric of the cache of `component`: `cache:`, the
/// component, a colon and what the metric counts.
pub open spec fn cache_metric_name(component: Seq<char>, metric: Seq<char>) -> Seq<char> {
    "cache:"@ + component + ":"@ + metric
}

fn metric_name(component_name: &str, metric: &str) -> (name: String)
    ensures
        name@ == cache_metric_name(component_name@, metric@),
{
    let mut name = "cache:".to_owned();
    name.append(component_name);
    name.append(":");
    name.append(metric);
    name
}

impl CacheCounters {
    /// Whether these are the counters of the cache of `component`, as they
    /// are declared: each under its name, with its help text, at zero.
    pub open spec fn declared_for(&self, component: Seq<char>) -> bool {
        &&& self.component_name@ == component
        &&& self.num_items.name@ == cache_metric_name(component, "num_items"@)
        &&& self.num_items.help@ == "Number of {component_name} items in cache"@
        &&& self.num_items.value == 0
        &&& self.num_bytes.name@ == cache_metric_name(component, "num_bytes"@)
        &&& self.num_bytes.help@ == "Number of {component_name} bytes in cache"@
        &&& self.num_bytes.value == 0
        &&& self.num_cache_hits_items.name@ == cache_metric_name(component, "cache_hits_items"@)
        &&& self.num_cache_hits_items.help@ == "Number of {component_name} cache hits in items"@
        &&& self.num_cache_hits_items.value == 0
        &&& self.num_cache_hits_bytes.name@ == cache_metric_name(component, "cache_hits_bytes"@)
        &&& self.num_cache_hits_bytes.help@ == "Number of {component_name} cache hits in bytes"@
        &&& self.num_cache_hits_bytes.value == 0
        &&& self.num_cache_miss_items.name@ == cache_metric_name(component, "cache_miss_items"@)
        &&& self.num_cache_miss_items.help@ == "Number of {component_name} cache miss in items"@
        &&& self.num_cache_miss_items.value == 0
    }

    /// Declares the counters of the cache of a component.
    pub fn for_component(component_name: &str) -> (counters: Self)
        ensures
            counters.declared_for(component_name@),
    {
        CacheCounters {
            component_name: component_name.to_owned(),
            num_items: new_gauge(
                metric_name(component_name, "num_items").as_str(),
                "Number of {component_name} items in cache",
            ),
            num_bytes: new_gauge(
                metric_name(component_name, "num_bytes").as_str(),
                "Number of {component_name} bytes in cache",
            ),
            num_cache_hits_items: new_counter(
                metric_name(component_name, "cache_hits_items").as_str(),
                "Number of {component_name} cache hits in items",
            ),
            num_cache_hits_bytes: new_counter(
                metric_name(component_name, "cache_hits_bytes").as_str(),
                "Number of {component_name} cache hits in bytes",
            ),
            num_cache_miss_items: new_counter(
                metric_name(component_name, "cache_miss_items").as_str(),
                "Number of {component_name} cache miss in items",
            ),
        }
    }
}

/// The counters of the storage component: one set for each of its caches.
#[derive(Debug)]
pub struct StorageCounters {
    pub fast_field_cache: CacheCounters,
    pub inflight_cache: CacheCounters,
    pub split_footer_cache: CacheCounters,
}

impl Default for StorageCounters {
    fn default() -> (counters: Self)
        ensures
            counters.fast_field_cache.declared_for("fastfields"@),
            counters.inflight_cache.declared_for("inflight"@),
            counters.split_footer_cache.declared_for("splitfooter"@),
    {
        StorageCounters {
            fast_field_cache: CacheCounters::for_component("fastfields"),
            inflight_cache: CacheCounters::for_component("inflight"),
            split_footer_cache: CacheCounters::for_component("splitfooter"),
        }
    }
}

} // verus!
