//! Disk usage samples: what one looks like, how the disks of the host are
//! filtered and turned into samples, and how samples are put into a batch.

use crate::config::{Config, DiskConfig, DiskFilter};
use crate::clock::instant;
use crate::host::{disk_readings, unix_time_seconds};
use crate::text::{contains_text, occurs_in, owned};
use vstd::prelude::*;

verus! {

/// A share of a whole, kept as two integers.  The share is
/// `numerator / denominator`.
#[derive(Debug, Clone, Copy, PartialEq, Eq, Structural)]
pub struct UsageRatio {
    pub numerator: u64,
    pub denominator: u64,
}

impl UsageRatio {
    /// The denominator is not zero.
    pub open spec fn well_formed(self) -> bool {
        self.denominator > 0
    }

    /// The share lies between nothing and the whole.
    pub open spec fn is_fraction(self) -> bool {
        self.well_formed() && self.numerator <= self.denominator
    }

    /// The share that `part` has of `whole`; of an empty whole, nothing.
    pub open spec fn share(part: u64, whole: u64) -> UsageRatio {
        if whole > 0 {
            UsageRatio { numerator: part, denominator: whole }
        } else {
            UsageRatio { numerator: 0, denominator: 1 }
        }
    }

    /// The share that `part` has of `whole`.
    pub fn of(part: u64, whole: u64) -> (ratio: UsageRatio)
        ensures
            ratio == Self::share(part, whole),
            ratio.well_formed(),
            part <= whole ==> ratio.is_fraction(),
    {
        if whole > 0 {
            UsageRatio { numerator: part, denominator: whole }
        } else {
            UsageRatio { numerator: 0, denominator: 1 }
        }
    }
}

/// One measurement of one disk.
#[derive(Debug, Clone, PartialEq, Eq)]
pub struct DiskMetric {
    pub timestamp: u64,
    pub device: String,
    pub mount_point: String,
    pub total_space_bytes: u64,
    pub used_space_bytes: u64,
    pub available_space_bytes: u64,
    pub usage_percentage: UsageRatio,
}

/// Samples on their way to the collection API, with the identity of the host
/// that took them.
#[derive(Debug)]
pub struct MetricBatch {
    pub server_id: String,
    pub hostname: String,
    pub timestamp: u64,
    pub metrics: Vec<DiskMetric>,
}

/// What the operating system reports of one disk.
#[derive(Debug, Clone)]
pub struct DiskReading {
    pub name: String,
    pub mount_point: String,
    pub total_space: u64,
    pub available_space: u64,
}

/// Why no samples could be taken.
#[derive(Debug)]
pub enum MetricError {
    /// The clock gave no time to stamp the samples with.
    TimestampError,
}

impl MetricError {
    /// The text that describes the error.
    pub open spec fn message_text(self) -> Seq<char> {
        "Failed to get system timestamp"@
    }

    /// Describes the error in words.
    pub fn message(&self) -> (out: String)
        ensures
            out@ == self.message_text(),
    {
        owned("Failed to get system timestamp")
    }
}

/// A source of samples.
pub trait MetricCollector {
    type Metric;

    type Error;

    /// Takes the samples; none where the source is switched off.
    fn collect(&self) -> Result<Vec<Self::Metric>, Self::Error>;

    /// Whether the source is switched on.
    fn is_enabled(&self) -> bool;
}

/// One of `patterns` is a part of `mount`.
pub open spec fn any_occurs(patterns: Seq<String>, mount: Seq<char>) -> bool {
    exists|i: int| 0 <= i < patterns.len() && occurs_in(#[trigger] patterns[i]@, mount)
}

/// The mount point passes the filter: with an include list, one of its
/// patterns is a part of the mount point; with an exclude list, none of its
/// patterns is.
pub open spec fn admits(filter: DiskFilter, mount: Seq<char>) -> bool {
    &&& filter.include_patterns is Some ==> any_occurs(filter.include_patterns->0, mount)
    &&& filter.exclude_patterns is Some ==> !any_occurs(filter.exclude_patterns->0, mount)
}

/// The space in use on a disk of `total` bytes of which `available` are
/// free.  A disk that reports more free space than it has counts as unused.
pub open spec fn used_space(total: u64, available: u64) -> u64 {
    if available <= total {
        (total - available) as u64
    } else {
        0
    }
}

/// The sample that a reading taken at `timestamp` gives.
pub open spec fn metric_of(reading: DiskReading, timestamp: u64) -> DiskMetric {
    DiskMetric {
        timestamp,
        device: reading.name,
        mount_point: reading.mount_point,
        total_space_bytes: reading.total_space,
        used_space_bytes: used_space(reading.total_space, reading.available_space),
        available_space_bytes: reading.available_space,
        usage_percentage: UsageRatio::share(
            used_space(reading.total_space, reading.available_space),
            reading.total_space,
        ),
    }
}

/// The samples that a list of readings gives: one for each reading whose
/// mount point passes the filter, in the order of the readings.
pub open spec fn sampled(filter: DiskFilter, readings: Seq<DiskReading>, timestamp: u64) -> Seq<
    DiskMetric,
>
    decreases readings.len(),
{
    if readings.len() == 0 {
        Seq::empty()
    } else {
        let earlier = sampled(filter, readings.drop_last(), timestamp);
        if admits(filter, readings.last().mount_point@) {
            earlier.push(metric_of(readings.last(), timestamp))
        } else {
            earlier
        }
    }
}

fn any_pattern_in(patterns: &Vec<String>, mount_point: &str) -> (found: bool)
    ensures
        found == any_occurs(patterns@, mount_point@),
{
    let mut i: usize = 0;
    while i < patterns.len()
        invariant
            i <= patterns.len(),
            forall|k: int| 0 <= k < i ==> !occurs_in(#[trigger] patterns@[k]@, mount_point@),
        decreases patterns.len() - i,
    {
        if contains_text(mount_point, patterns[i].as_str()) {
            return true;
        }
        i = i + 1;
    }
    false
}

/// Samples the disks of the host.
pub struct DiskCollector {
    config: DiskConfig,
}

impl DiskCollector {
    /// The filter that the collector works with.
    pub closed spec fn filter(&self) -> DiskFilter {
        self.config@
    }

    pub fn new(config: DiskConfig) -> (collector: Self)
        ensures
            collector.filter() == config@,
    {
        Self { config }
    }

    /// Whether a disk mounted at `mount_point` is to be sampled.
    pub fn should_include_mount_point(&self, mount_point: &str) -> (yes: bool)
        ensures
            yes == admits(self.filter(), mount_point@),
    {
        if let Some(include_list) = &self.config.include_mount_points {
            if !any_pattern_in(include_list, mount_point) {
                return false;
            }
        }
        if let Some(exclude_list) = &self.config.exclude_mount_points {
            if any_pattern_in(exclude_list, mount_point) {
                return false;
            }
        }
        true
    }

    /// The sample for one disk.
    pub fn create_disk_metric(&self, disk: &DiskReading, timestamp: u64) -> (metric: DiskMetric)
        ensures
            metric == metric_of(*disk, timestamp),
            metric.usage_percentage.is_fraction(),
            metric.used_space_bytes <= metric.total_space_bytes,
    {
        let total_space: u64 = disk.total_space;
        let available_space: u64 = disk.available_space;
        let used_space: u64 = if available_space <= total_space {
            total_space - available_space
        } else {
            0
        };
        DiskMetric {
            timestamp,
            device: disk.name.clone(),
            mount_point: disk.mount_point.clone(),
            total_space_bytes: total_space,
            used_space_bytes: used_space,
            available_space_bytes: available_space,
            usage_percentage: UsageRatio::of(used_space, total_space),
        }
    }

    /// The samples for the disks that pass the filter, in the order of the
    /// readings.
    pub fn sample(&self, disks: &Vec<DiskReading>, timestamp: u64) -> (metrics: Vec<DiskMetric>)
        ensures
            metrics@ == sampled(self.filter(), disks@, timestamp),
    {
        let mut metrics: Vec<DiskMetric> = Vec::new();
        let mut i: usize = 0;
        while i < disks.len()
            invariant
                i <= disks.len(),
                metrics@ == sampled(self.filter(), disks@.subrange(0, i as int), timestamp),
            decreases disks.len() - i,
        {
            assert(disks@.subrange(0, i + 1).drop_last() == disks@.subrange(0, i as int));
            if self.should_include_mount_point(disks[i].mount_point.as_str()) {
                metrics.push(self.create_disk_metric(&disks[i], timestamp));
            }
            i = i + 1;
        }
        assert(disks@.subrange(0, disks.len() as int) == disks@);
        metrics
    }

    /// What `collect` hands back once the clock and the disks have been
    /// read: nothing where collection is switched off, an error where the
    /// clock gave no time, and otherwise the samples of the disks that pass
    /// the filter.
    pub open spec fn collected(
        filter: DiskFilter,
        now: Option<u64>,
        disks: Seq<DiskReading>,
    ) -> Result<Seq<DiskMetric>, MetricError> {
        if !filter.enabled {
            Ok(Seq::empty())
        } else if now is None {
            Err(MetricError::TimestampError)
        } else {
            Ok(sampled(filter, disks, now->0))
        }
    }

    /// `outcome` is what a collection with `filter` gives, the clock having
    /// shown `now` and the machine having listed `disks`.
    pub open spec fn gave(
        filter: DiskFilter,
        now: Option<u64>,
        disks: Seq<DiskReading>,
        outcome: Result<Vec<DiskMetric>, MetricError>,
    ) -> bool {
        match Self::collected(filter, now, disks) {
            Ok(metrics) => outcome is Ok && outcome->Ok_0@ == metrics,
            Err(error) => outcome == Err::<Vec<DiskMetric>, MetricError>(error),
        }
    }

    /// Turns what was read from the clock and the disks into samples.
    pub fn collect_from(&self, now: Option<u64>, disks: &Vec<DiskReading>) -> (outcome: Result<
        Vec<DiskMetric>,
        MetricError,
    >)
        ensures
            Self::gave(self.filter(), now, disks@, outcome),
    {
        if !self.config.enabled {
            return Ok(Vec::new());
        }
        match now {
            None => Err(MetricError::TimestampError),
            Some(timestamp) => Ok(self.sample(disks, timestamp)),
        }
    }
}

impl MetricCollector for DiskCollector {
    type Metric = DiskMetric;

    type Error = MetricError;

    /// Reads the disks and the clock and samples the disks that pass the
    /// filter.  Where collection is switched off neither is read and no
    /// sample comes back.  The collection fails only where the clock shows
    /// no time.
    fn collect(&self) -> (outcome: Result<Vec<DiskMetric>, MetricError>)
        ensures
            exists|now: Option<u64>, disks: Seq<DiskReading>|
                Self::gave(self.filter(), now, disks, outcome),
            !self.filter().enabled ==> outcome is Ok && outcome->Ok_0@.len() == 0,
            outcome is Err ==> self.filter().enabled,
    {
        if !self.is_enabled() {
            let none: Vec<DiskMetric> = Vec::new();
            assert(Self::gave(self.filter(), None, Seq::empty(), Ok(none)));
            return Ok(none);
        }
        let disks: Vec<DiskReading> = disk_readings();
        let now: Option<u64> = unix_time_seconds();
        let outcome = self.collect_from(now, &disks);
        assert(Self::gave(self.filter(), now, disks@, outcome));
        outcome
    }

    fn is_enabled(&self) -> (yes: bool)
        ensures
            yes == self.filter().enabled,
    {
        self.config.enabled
    }
}

/// Takes samples from every source and puts them into batches.
pub struct MetricService {
    disk_collector: DiskCollector,
}

impl MetricService {
    /// The filter of the disk collector.
    pub closed spec fn disk_filter(&self) -> DiskFilter {
        self.disk_collector.filter()
    }

    pub fn new(config: &Config) -> (service: Self)
        ensures
            service.disk_filter() == config.collection.disk@,
    {
        Self { disk_collector: DiskCollector::new(config.collection.disk.clone()) }
    }

    /// Collects from every source; there is one, the disks.
    pub fn collect_all_metrics(&self) -> (outcome: Result<Vec<DiskMetric>, MetricError>)
        ensures
            exists|now: Option<u64>, disks: Seq<DiskReading>|
                DiskCollector::gave(self.disk_filter(), now, disks, outcome),
            !self.disk_filter().enabled ==> outcome is Ok && outcome->Ok_0@.len() == 0,
            outcome is Err ==> self.disk_filter().enabled,
    {
        self.disk_collector.collect()
    }

    /// A batch of `metrics` from the host `hostname`, known to the platform
    /// as `server_id`, put together at `timestamp`.
    pub fn create_batch_at(
        &self,
        metrics: Vec<DiskMetric>,
        server_id: &str,
        hostname: &str,
        timestamp: u64,
    ) -> (batch: MetricBatch)
        ensures
            batch.server_id@ == server_id@,
            batch.hostname@ == hostname@,
            batch.timestamp == timestamp,
            batch.metrics == metrics,
    {
        MetricBatch { server_id: owned(server_id), hostname: owned(hostname), timestamp, metrics }
    }

    /// A batch of `metrics`, stamped with the instant that the clock shows.
    pub fn create_batch(&self, metrics: Vec<DiskMetric>, server_id: &str, hostname: &str) -> (batch:
        MetricBatch)
        ensures
            batch.server_id@ == server_id@,
            batch.hostname@ == hostname@,
            batch.metrics == metrics,
    {
        let timestamp: u64 = instant(unix_time_seconds());
        self.create_batch_at(metrics, server_id, hostname, timestamp)
    }
}

} // verus!
