//! Instance identity and the session fingerprint.

use crate::clock::{instant, instant_of};
use crate::host::{system_boot_time, system_uptime, unix_time_seconds};
use crate::text::{chars_of, clone_optional_text, decimal, decimal_text, owned};
use vstd::prelude::*;

verus! {

/// The clouds that the agent recognizes.
#[derive(Debug, Clone, Copy, PartialEq, Eq, Structural)]
pub enum CloudProvider {
    AWS,
    Azure,
    GCP,
    DigitalOcean,
    Unknown,
}

/// Cloud provider instance metadata.
#[derive(Debug, PartialEq, Eq)]
pub struct InstanceMetadata {
    pub instance_id: Option<String>,
    pub cloud_provider: Option<CloudProvider>,
    pub region: Option<String>,
    pub instance_type: Option<String>,
}

impl Clone for InstanceMetadata {
    fn clone(&self) -> (out: Self)
        ensures
            out == *self,
    {
        InstanceMetadata {
            instance_id: clone_optional_text(&self.instance_id),
            cloud_provider: self.cloud_provider,
            region: clone_optional_text(&self.region),
            instance_type: clone_optional_text(&self.instance_type),
        }
    }
}

/// Where `c` stands last in `s`; -1 where it does not stand at all.
pub open spec fn last_position(s: Seq<char>, c: char) -> int
    decreases s.len(),
{
    if s.len() == 0 {
        -1
    } else if s.last() == c {
        s.len() - 1
    } else {
        last_position(s.drop_last(), c)
    }
}

/// What follows the last `/` of a zone; all of it where there is none.
pub open spec fn last_segment(zone: Seq<char>) -> Seq<char> {
    zone.subrange(last_position(zone, '/') + 1, zone.len() as int)
}

/// The region of a zone such as `projects/123/zones/us-central1-a`: its
/// last segment up to the last `-`.  A last segment without `-` names no
/// region.
pub open spec fn region_of_zone(zone: Seq<char>) -> Option<Seq<char>> {
    let segment = last_segment(zone);
    let dash = last_position(segment, '-');
    if dash < 0 {
        None
    } else {
        Some(segment.subrange(0, dash))
    }
}

/// The position of the last `c` at or after `from`, counted from `from`.
fn find_last(chars: &Vec<char>, from: usize, c: char) -> (found: Option<usize>)
    requires
        from <= chars.len(),
    ensures
        match found {
            Some(at) => from + at < chars.len() && at == last_position(
                chars@.subrange(from as int, chars.len() as int),
                c,
            ),
            None => last_position(chars@.subrange(from as int, chars.len() as int), c) == -1,
        },
{
    let ghost tail = chars@.subrange(from as int, chars.len() as int);
    let mut end: usize = chars.len();
    assert(tail.subrange(0, end - from) == tail);
    while end > from
        invariant
            from <= end <= chars.len(),
            tail == chars@.subrange(from as int, chars.len() as int),
            last_position(tail, c) == last_position(tail.subrange(0, end - from), c),
        decreases end,
    {
        let ghost head = tail.subrange(0, end - from);
        assert(head.drop_last() == tail.subrange(0, end - 1 - from));
        if chars[end - 1] == c {
            return Some(end - 1 - from);
        }
        end = end - 1;
    }
    None
}

impl InstanceMetadata {
    /// Metadata of an EC2 instance.
    pub fn from_aws(
        instance_id: String,
        instance_type: Option<String>,
        region: Option<String>,
    ) -> (metadata: Self)
        ensures
            metadata == (InstanceMetadata {
                instance_id: Some(instance_id),
                cloud_provider: Some(CloudProvider::AWS),
                region,
                instance_type,
            }),
    {
        InstanceMetadata {
            instance_id: Some(instance_id),
            cloud_provider: Some(CloudProvider::AWS),
            region,
            instance_type,
        }
    }

    /// Metadata of an Azure virtual machine.
    pub fn from_azure(
        vm_id: String,
        location: Option<String>,
        vm_size: Option<String>,
    ) -> (metadata: Self)
        ensures
            metadata == (InstanceMetadata {
                instance_id: Some(vm_id),
                cloud_provider: Some(CloudProvider::Azure),
                region: location,
                instance_type: vm_size,
            }),
    {
        InstanceMetadata {
            instance_id: Some(vm_id),
            cloud_provider: Some(CloudProvider::Azure),
            region: location,
            instance_type: vm_size,
        }
    }

    /// The region that a zone lies in.
    pub fn region_from_zone(zone: &str) -> (region: Option<String>)
        ensures
            match region_of_zone(zone@) {
                Some(text) => region is Some && region->0@ == text,
                None => region is None,
            },
    {
        let chars: Vec<char> = chars_of(zone);
        let start: usize = match find_last(&chars, 0, '/') {
            Some(slash) => slash + 1,
            None => 0,
        };
        assert(chars@.subrange(0, chars.len() as int) == chars@);
        match find_last(&chars, start, '-') {
            Some(dash) => {
                assert(zone@.subrange(start as int, start + dash) == last_segment(zone@).subrange(
                    0,
                    dash as int,
                ));
                Some(owned(zone.substring_char(start, start + dash)))
            },
            None => None,
        }
    }

    /// Metadata of a Compute Engine instance in `zone`.
    pub fn from_gcp(instance_id: String, zone: Option<String>) -> (metadata: Self)
        ensures
            metadata.instance_id == Some(instance_id),
            metadata.cloud_provider == Some(CloudProvider::GCP),
            metadata.instance_type is None,
            match zone {
                Some(z) => match region_of_zone(z@) {
                    Some(text) => metadata.region is Some && metadata.region->0@ == text,
                    None => metadata.region is None,
                },
                None => metadata.region is None,
            },
    {
        let region: Option<String> = match &zone {
            Some(z) => Self::region_from_zone(z.as_str()),
            None => None,
        };
        InstanceMetadata {
            instance_id: Some(instance_id),
            cloud_provider: Some(CloudProvider::GCP),
            region,
            instance_type: None,
        }
    }

    /// Metadata of a DigitalOcean droplet, named by its number in decimal.
    pub fn from_digitalocean(droplet_id: u64, region: Option<String>) -> (metadata: Self)
        ensures
            metadata.instance_id is Some,
            metadata.instance_id->0@ == decimal_text(droplet_id as nat),
            metadata.cloud_provider == Some(CloudProvider::DigitalOcean),
            metadata.region == region,
            metadata.instance_type is None,
    {
        InstanceMetadata {
            instance_id: Some(decimal(droplet_id)),
            cloud_provider: Some(CloudProvider::DigitalOcean),
            region,
            instance_type: None,
        }
    }
}

/// Boot-time / process-start / uptime triple of one observation of the host.
#[derive(Debug, Clone, Copy, PartialEq, Eq, Structural)]
pub struct SessionInfo {
    /// System boot time (Unix timestamp).
    pub boot_time: u64,
    /// When this agent process started (Unix timestamp).
    pub agent_start_time: u64,
    /// System uptime in seconds at the time of the observation.
    pub uptime_seconds: u64,
}

/// Slack granted to an uptime reading taken `elapsed` seconds after an
/// earlier one: a tenth of the elapsed time and five seconds on top.
pub open spec fn uptime_tolerance(elapsed: int) -> int {
    elapsed / 10 + 5
}

/// Distance between the uptime that was observed and the one that the
/// earlier observation predicts for `elapsed` seconds later.
pub open spec fn uptime_drift(current: int, previous: int, elapsed: int) -> int {
    let expected = previous + elapsed;
    if current >= expected {
        current - expected
    } else {
        expected - current
    }
}

impl SessionInfo {
    /// Whether `self` may be a later observation of the session `previous`.
    ///
    /// A changed boot time never is.  With the boot time unchanged, a changed
    /// process start is an agent restart and always is; with both unchanged
    /// the uptime must have advanced by `elapsed` seconds within tolerance.
    pub open spec fn consistent_with(self, previous: SessionInfo, elapsed: u64) -> bool {
        &&& self.boot_time == previous.boot_time
        &&& (self.agent_start_time != previous.agent_start_time || uptime_drift(
            self.uptime_seconds as int,
            previous.uptime_seconds as int,
            elapsed as int,
        ) <= uptime_tolerance(elapsed as int))
    }

    /// The session that three readings of the machine make up: its boot
    /// time, its clock and its uptime.  The process counts as started at the
    /// instant of the clock.
    pub open spec fn observation(
        boot_time: u64,
        clock: Option<u64>,
        uptime_seconds: u64,
    ) -> SessionInfo {
        SessionInfo { boot_time, agent_start_time: instant_of(clock), uptime_seconds }
    }

    /// The session that three readings of the machine make up.
    pub fn observed(boot_time: u64, clock: Option<u64>, uptime_seconds: u64) -> (session: Self)
        ensures
            session == Self::observation(boot_time, clock, uptime_seconds),
    {
        SessionInfo { boot_time, agent_start_time: instant(clock), uptime_seconds }
    }

    /// The session as the operating system reports it now: the clock, the
    /// boot time and the uptime are read, and make up the session.
    pub fn generate() -> (session: Self) {
        let clock: Option<u64> = unix_time_seconds();
        let boot_time: u64 = system_boot_time();
        Self::observed(boot_time, clock, system_uptime())
    }

    /// Check if this session is consistent with a previous one observed
    /// `elapsed_seconds` earlier.
    pub fn is_consistent_with(&self, previous: &SessionInfo, elapsed_seconds: u64) -> (ok: bool)
        ensures
            ok == self.consistent_with(*previous, elapsed_seconds),
    {
        if self.boot_time != previous.boot_time {
            return false;
        }
        if self.agent_start_time != previous.agent_start_time {
            return true;
        }
        let expected: u128 = previous.uptime_seconds as u128 + elapsed_seconds as u128;
        let observed: u128 = self.uptime_seconds as u128;
        let drift: u128 = if observed >= expected {
            observed - expected
        } else {
            expected - observed
        };
        let tolerance: u128 = (elapsed_seconds / 10) as u128 + 5;
        drift <= tolerance
    }
}

/// A changed boot time is a reboot: the sessions are never consistent.
pub proof fn lemma_reboot_is_inconsistent(
    current: SessionInfo,
    previous: SessionInfo,
    elapsed: u64,
)
    requires
        current.boot_time != previous.boot_time,
    ensures
        !current.consistent_with(previous, elapsed),
{
}

/// The same boot time with another process start is an agent restart: the
/// sessions are consistent whatever the uptimes say.
pub proof fn lemma_restart_is_consistent(current: SessionInfo, previous: SessionInfo, elapsed: u64)
    requires
        current.boot_time == previous.boot_time,
        current.agent_start_time != previous.agent_start_time,
    ensures
        current.consistent_with(previous, elapsed),
{
}

/// The same boot time and the same process start are consistent exactly
/// when the uptime advanced by the elapsed time within the tolerance.
pub proof fn lemma_same_process_within_tolerance(
    current: SessionInfo,
    previous: SessionInfo,
    elapsed: u64,
)
    requires
        current.boot_time == previous.boot_time,
        current.agent_start_time == previous.agent_start_time,
    ensures
        current.consistent_with(previous, elapsed) <==> uptime_drift(
            current.uptime_seconds as int,
            previous.uptime_seconds as int,
            elapsed as int,
        ) <= uptime_tolerance(elapsed as int),
        uptime_tolerance(elapsed as int) >= 5,
{
}

} // verus!
