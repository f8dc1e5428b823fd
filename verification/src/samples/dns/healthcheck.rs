//! The health of the regions that serve an application, and the choice of
//! the best one.

use crate::clock::{elapsed_since, moment, nanoseconds, unix_seconds};
use vstd::prelude::*;

verus! {

/// A region.
#[derive(Debug, Clone)]
pub struct Region {
    /// The name of the region, such as `us-east-1`.
    pub id: String,
    /// The address that tells whether the region is healthy.
    pub endpoint: String,
    /// The share of the load that the region takes: the more, the larger.
    pub weight: u32,
}

impl Region {
    /// A region with the weight 100.
    pub fn new(id: &str, endpoint: &str) -> (r: Self)
        ensures
            r.id@ == id@,
            r.endpoint@ == endpoint@,
            r.weight == 100,
    {
        Region { id: String::from_str(id), endpoint: String::from_str(endpoint), weight: 100 }
    }

    /// A region with the weight `weight`.
    pub fn with_weight(id: &str, endpoint: &str, weight: u32) -> (r: Self)
        ensures
            r.id@ == id@,
            r.endpoint@ == endpoint@,
            r.weight == weight,
    {
        Region { id: String::from_str(id), endpoint: String::from_str(endpoint), weight }
    }
}

/// What a check found of a region.
#[derive(Debug, Clone)]
pub struct HealthStatus {
    /// The name of the region.
    pub region_id: String,
    /// Whether the region is healthy.
    pub healthy: bool,
    /// How long the region took to answer, in nanoseconds.
    pub latency_nanos: u128,
    /// When the check was made, in seconds since the start of 1970.
    pub last_check: u64,
    /// What was wrong, where the region is not healthy.
    pub error: Option<String>,
}

impl HealthStatus {
    /// The status of a region that answered well after `latency_nanos`,
    /// checked now.
    pub fn healthy(region_id: String, latency_nanos: u128) -> (r: Self)
        ensures
            r.region_id == region_id,
            r.healthy,
            r.latency_nanos == latency_nanos,
            r.error is None,
    {
        HealthStatus {
            region_id,
            healthy: true,
            latency_nanos,
            last_check: unix_seconds(),
            error: None,
        }
    }

    /// The status of a region that failed with `error`, checked now.
    pub fn unhealthy(region_id: String, error: String) -> (r: Self)
        ensures
            r.region_id == region_id,
            !r.healthy,
            r.latency_nanos == 0,
            r.error == Some(error),
    {
        HealthStatus {
            region_id,
            healthy: false,
            latency_nanos: 0,
            last_check: unix_seconds(),
            error: Some(error),
        }
    }
}

/// The first `n` regions whose status, at the same place, is healthy.
pub open spec fn healthy_of(regions: Seq<Region>, statuses: Seq<HealthStatus>, n: nat) -> Seq<
    Region,
>
    decreases n,
{
    if n == 0 || n > regions.len() || n > statuses.len() {
        Seq::empty()
    } else {
        let before = healthy_of(regions, statuses, (n - 1) as nat);
        if statuses[n - 1].healthy {
            before.push(regions[n - 1])
        } else {
            before
        }
    }
}

/// The status at `i` is the best of the first `n`: it is healthy, no healthy
/// one is faster, and none before it is as fast.
pub open spec fn is_best(statuses: Seq<HealthStatus>, n: int, i: int) -> bool {
    &&& 0 <= i < n <= statuses.len()
    &&& statuses[i].healthy
    &&& forall|j: int|
        0 <= j < n && (#[trigger] statuses[j]).healthy ==> statuses[i].latency_nanos
            <= statuses[j].latency_nanos
    &&& forall|j: int|
        0 <= j < i && (#[trigger] statuses[j]).healthy ==> statuses[i].latency_nanos
            < statuses[j].latency_nanos
}

/// The smaller of two lengths.
pub open spec fn shorter(a: nat, b: nat) -> nat {
    if a <= b {
        a
    } else {
        b
    }
}

/// A set of regions whose health is checked.
#[derive(Debug)]
pub struct HealthChecker {
    regions: Vec<Region>,
    timeout_millis: u64,
}

impl HealthChecker {
    /// The regions that are checked.
    pub closed spec fn regions(&self) -> Seq<Region> {
        self.regions@
    }

    /// How long a check may take, in milliseconds.
    pub closed spec fn timeout_millis(&self) -> u64 {
        self.timeout_millis
    }

    /// A checker of `regions` that gives a check five seconds.
    pub fn new(regions: Vec<Region>) -> (r: Self)
        ensures
            r.regions() == regions@,
            r.timeout_millis() == 5000,
    {
        HealthChecker { regions, timeout_millis: 5000 }
    }

    /// This checker with `timeout_millis` milliseconds for a check.
    pub fn with_timeout(self, timeout_millis: u64) -> (r: Self)
        ensures
            r.regions() == self.regions(),
            r.timeout_millis() == timeout_millis,
    {
        HealthChecker { regions: self.regions, timeout_millis }
    }

    /// Checks one region. No request is made: the region is reported healthy,
    /// with the time that the check itself took.
    pub fn check(&self, region: &Region) -> (r: HealthStatus)
        ensures
            r.healthy,
            r.region_id@ == region.id@,
            r.error is None,
    {
        let start = moment();
        let taken = elapsed_since(&start);
        HealthStatus::healthy(region.id.clone(), nanoseconds(&taken))
    }

    /// Checks every region, in order.
    pub fn check_all(&self) -> (r: Vec<HealthStatus>)
        ensures
            r@.len() == self.regions().len(),
            forall|i: int|
                0 <= i < r@.len() ==> (#[trigger] r@[i]).healthy && r@[i].region_id@
                    == self.regions()[i].id@,
    {
        let mut results: Vec<HealthStatus> = Vec::new();
        let mut i: usize = 0;
        while i < self.regions.len()
            invariant
                i <= self.regions.len(),
                results@.len() == i,
                forall|j: int|
                    0 <= j < i ==> (#[trigger] results@[j]).healthy && results@[j].region_id@
                        == self.regions@[j].id@,
            decreases self.regions.len() - i,
        {
            let status = self.check(&self.regions[i]);
            results.push(status);
            i = i + 1;
        }
        results
    }

    /// The regions whose status in `statuses`, at the same place, is healthy.
    /// Regions without a status, and statuses without a region, do not count.
    pub fn healthy_among(&self, statuses: &Vec<HealthStatus>) -> (r: Vec<&Region>)
        ensures
            r@.len() == healthy_of(
                self.regions(),
                statuses@,
                shorter(self.regions().len(), statuses@.len()),
            ).len(),
            forall|k: int|
                0 <= k < r@.len() ==> *(#[trigger] r@[k]) == healthy_of(
                    self.regions(),
                    statuses@,
                    shorter(self.regions().len(), statuses@.len()),
                )[k],
    {
        let n = if self.regions.len() <= statuses.len() {
            self.regions.len()
        } else {
            statuses.len()
        };
        let mut found: Vec<&Region> = Vec::new();
        let mut i: usize = 0;
        while i < n
            invariant
                i <= n,
                n == shorter(self.regions@.len(), statuses@.len()),
                found@.len() == healthy_of(self.regions@, statuses@, i as nat).len(),
                forall|k: int|
                    0 <= k < found@.len() ==> *(#[trigger] found@[k]) == healthy_of(
                        self.regions@,
                        statuses@,
                        i as nat,
                    )[k],
            decreases n - i,
        {
            if statuses[i].healthy {
                found.push(&self.regions[i]);
            }
            i = i + 1;
        }
        found
    }

    /// The place of the best region by `statuses`: the healthy one that
    /// answered fastest, and of several that were as fast the first. `None`
    /// where no region is healthy.
    pub fn best_among(&self, statuses: &Vec<HealthStatus>) -> (r: Option<usize>)
        ensures
            match r {
                Some(i) => is_best(
                    statuses@,
                    shorter(self.regions().len(), statuses@.len()) as int,
                    i as int,
                ),
                None => forall|j: int|
                    0 <= j < shorter(self.regions().len(), statuses@.len()) ==> !(
                    #[trigger] statuses@[j]).healthy,
            },
    {
        let n = if self.regions.len() <= statuses.len() {
            self.regions.len()
        } else {
            statuses.len()
        };
        let mut best: Option<usize> = None;
        let mut i: usize = 0;
        while i < n
            invariant
                i <= n,
                n == shorter(self.regions@.len(), statuses@.len()),
                match best {
                    Some(b) => is_best(statuses@, i as int, b as int),
                    None => forall|j: int| 0 <= j < i ==> !(#[trigger] statuses@[j]).healthy,
                },
            decreases n - i,
        {
            if statuses[i].healthy {
                match best {
                    Some(b) => {
                        if statuses[i].latency_nanos < statuses[b].latency_nanos {
                            best = Some(i);
                        }
                    },
                    None => {
                        best = Some(i);
                    },
                }
            }
            i = i + 1;
        }
        best
    }

    /// The regions that a check of every region finds healthy. As a check
    /// makes no request and reports every region healthy, these are all the
    /// regions, in their order.
    pub fn healthy_regions(&self) -> (r: Vec<&Region>)
        ensures
            r@.len() == self.regions().len(),
            forall|k: int| 0 <= k < r@.len() ==> *(#[trigger] r@[k]) == self.regions()[k],
    {
        let statuses = self.check_all();
        let found = self.healthy_among(&statuses);
        proof {
            lemma_all_healthy(self.regions@, statuses@, self.regions@.len());
            assert(self.regions@.take(self.regions@.len() as int) == self.regions@);
        }
        found
    }

    /// The best region by a check of every region.
    pub fn select_best(&self) -> (r: Option<&Region>)
        ensures
            self.regions().len() == 0 <==> r is None,
            r is Some ==> self.regions().contains(*r->0),
    {
        let statuses = self.check_all();
        match self.best_among(&statuses) {
            Some(i) => Some(&self.regions[i]),
            None => {
                proof {
                    if self.regions@.len() > 0 {
                        assert(statuses@[0].healthy);
                    }
                }
                None
            },
        }
    }
}

/// Where each of the first `n` statuses is healthy, the healthy regions among
/// the first `n` are those `n` regions themselves.
pub proof fn lemma_all_healthy(regions: Seq<Region>, statuses: Seq<HealthStatus>, n: nat)
    requires
        n <= regions.len(),
        n <= statuses.len(),
        forall|i: int| 0 <= i < n ==> (#[trigger] statuses[i]).healthy,
    ensures
        healthy_of(regions, statuses, n) == regions.take(n as int),
    decreases n,
{
    if n == 0 {
        assert(regions.take(0) =~= Seq::<Region>::empty());
    } else {
        lemma_all_healthy(regions, statuses, (n - 1) as nat);
        assert(statuses[n - 1].healthy);
        assert(regions.take(n - 1).push(regions[n - 1]) =~= regions.take(n as int));
    }
}

} // verus!
