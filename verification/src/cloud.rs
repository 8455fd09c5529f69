//! Asking the metadata services of the cloud providers: which requests are
//! made, in which order, and what their answers mean.
//!
//! Each provider is asked in a few steps.  The program sends each request
//! and reports the answer; this module says what is asked next and, at the
//! end, what was found out about the instance.

use crate::http::{field, field_texts, is_success_status, success_status, Field};
use crate::metadata::{region_of_zone, CloudProvider, InstanceMetadata};
use crate::text::{decimal_text, owned};
use vstd::prelude::*;

verus! {

/// Where an EC2 instance asks for a session token.
pub const AWS_TOKEN_URL: &'static str = "http://169.254.169.254/latest/api/token";

/// Where an EC2 instance learns its id.
pub const AWS_INSTANCE_ID_URL: &'static str = "http://169.254.169.254/latest/meta-data/instance-id";

/// Where an EC2 instance learns its type.
pub const AWS_INSTANCE_TYPE_URL: &'static str =
    "http://169.254.169.254/latest/meta-data/instance-type";

/// Where an EC2 instance learns its region.
pub const AWS_REGION_URL: &'static str =
    "http://169.254.169.254/latest/meta-data/placement/region";

/// Where an Azure virtual machine learns about itself.
pub const AZURE_INSTANCE_URL: &'static str = "http://169.254.169.254/metadata/instance";

/// Where a Compute Engine instance learns its id.
pub const GCP_INSTANCE_ID_URL: &'static str =
    "http://metadata.google.internal/computeMetadata/v1/instance/id";

/// Where a Compute Engine instance learns its zone.
pub const GCP_ZONE_URL: &'static str =
    "http://metadata.google.internal/computeMetadata/v1/instance/zone";

/// Where a droplet learns about itself.
pub const DROPLET_URL: &'static str = "http://169.254.169.254/metadata/v1.json";

/// The method of a request.
#[derive(Debug, Clone, Copy, PartialEq, Eq, Structural)]
pub enum Method {
    Get,
    Put,
}

/// What the body of an answer holds.
#[derive(Debug, Clone, Copy, PartialEq, Eq, Structural)]
pub enum Payload {
    /// Plain text.
    Text,
    /// The JSON description of an Azure virtual machine.
    AzureInstance,
    /// The JSON description of a droplet.
    Droplet,
}

/// A request to a metadata service.
#[derive(Debug)]
pub struct ProbeRequest {
    pub method: Method,
    pub url: String,
    pub headers: Vec<Field>,
    pub query: Vec<Field>,
    pub payload: Payload,
}

/// A [`ProbeRequest`] with its texts as sequences.
pub ghost struct RequestText {
    pub method: Method,
    pub url: Seq<char>,
    pub headers: Seq<(Seq<char>, Seq<char>)>,
    pub query: Seq<(Seq<char>, Seq<char>)>,
    pub payload: Payload,
}

impl View for ProbeRequest {
    type V = RequestText;

    open spec fn view(&self) -> RequestText {
        RequestText {
            method: self.method,
            url: self.url@,
            headers: field_texts(self.headers@),
            query: field_texts(self.query@),
            payload: self.payload,
        }
    }
}

/// What came back from a metadata service.
#[derive(Debug)]
pub enum ProbeReply {
    /// Nothing: the request did not complete.
    NoAnswer,
    /// An answer whose body could not be read as the payload asked for.
    Unreadable { status: u16 },
    /// An answer with a body of plain text.
    Text { status: u16, text: String },
    /// The description of an Azure virtual machine.
    AzureInstance { vm_id: String, location: Option<String>, vm_size: Option<String> },
    /// The description of a droplet.
    Droplet { droplet_id: u64, region: Option<String> },
}

/// How far the questioning of one provider has come: which answer is
/// awaited, and what is known already.
#[derive(Debug)]
pub enum ProbeProgress {
    /// EC2: the session token.
    AwsToken,
    /// EC2: the instance id, asked for with the token, or without one where
    /// the service gives none.
    AwsInstanceId { token: Option<String> },
    /// EC2: the instance type.
    AwsInstanceType { token: String, instance_id: String },
    /// EC2: the region.
    AwsRegion { token: String, instance_id: String, instance_type: Option<String> },
    /// Azure: the description of the virtual machine.
    Azure,
    /// Compute Engine: the instance id.
    GcpInstanceId,
    /// Compute Engine: the zone.
    GcpZone { instance_id: String },
    /// DigitalOcean: the description of the droplet.
    DigitalOcean,
}

/// The next move in the questioning of one provider.
#[derive(Debug)]
pub enum ProbeStep {
    /// Send `request`; with its answer the questioning goes on from `then`.
    Ask { request: ProbeRequest, then: ProbeProgress },
    /// The questioning is over: the provider knows the host as this
    /// instance, or does not know it.
    Done(Option<InstanceMetadata>),
}

/// The request for an EC2 session token, good for six hours.
pub open spec fn aws_token_request() -> RequestText {
    RequestText {
        method: Method::Put,
        url: AWS_TOKEN_URL@,
        headers: seq![("X-aws-ec2-metadata-token-ttl-seconds"@, "21600"@)],
        query: Seq::empty(),
        payload: Payload::Text,
    }
}

/// The request for one piece of EC2 metadata, with the session token where
/// there is one.
pub open spec fn aws_request(url: Seq<char>, token: Option<String>) -> RequestText {
    RequestText {
        method: Method::Get,
        url,
        headers: match token {
            Some(token) => seq![("X-aws-ec2-metadata-token"@, token@)],
            None => Seq::empty(),
        },
        query: Seq::empty(),
        payload: Payload::Text,
    }
}

/// The request for the description of an Azure virtual machine.
pub open spec fn azure_request() -> RequestText {
    RequestText {
        method: Method::Get,
        url: AZURE_INSTANCE_URL@,
        headers: seq![("Metadata"@, "true"@)],
        query: seq![("api-version"@, "2021-02-01"@)],
        payload: Payload::AzureInstance,
    }
}

/// The request for one piece of Compute Engine metadata.
pub open spec fn gcp_request(url: Seq<char>) -> RequestText {
    RequestText {
        method: Method::Get,
        url,
        headers: seq![("Metadata-Flavor"@, "Google"@)],
        query: Seq::empty(),
        payload: Payload::Text,
    }
}

/// The request for the description of a droplet.
pub open spec fn droplet_request() -> RequestText {
    RequestText {
        method: Method::Get,
        url: DROPLET_URL@,
        headers: Seq::empty(),
        query: Seq::empty(),
        payload: Payload::Droplet,
    }
}

/// The step asks `request` and goes on from `then`.
pub open spec fn asks(step: ProbeStep, request: RequestText, then: ProbeProgress) -> bool {
    step matches ProbeStep::Ask { request: asked, then: next } && asked@ == request && next == then
}

/// `metadata` describes the Compute Engine instance `instance_id`, whose
/// region is that of `zone`.
pub open spec fn describes_gcp(
    metadata: InstanceMetadata,
    instance_id: String,
    zone: Option<String>,
) -> bool {
    &&& metadata.instance_id == Some(instance_id)
    &&& metadata.cloud_provider == Some(CloudProvider::GCP)
    &&& metadata.instance_type is None
    &&& match zone {
        Some(zone) => match region_of_zone(zone@) {
            Some(region) => metadata.region is Some && metadata.region->0@ == region,
            None => metadata.region is None,
        },
        None => metadata.region is None,
    }
}

/// `metadata` describes the droplet with the number `droplet_id`.
pub open spec fn describes_droplet(
    metadata: InstanceMetadata,
    droplet_id: u64,
    region: Option<String>,
) -> bool {
    &&& metadata.instance_id is Some
    &&& metadata.instance_id->0@ == decimal_text(droplet_id as nat)
    &&& metadata.cloud_provider == Some(CloudProvider::DigitalOcean)
    &&& metadata.region == region
    &&& metadata.instance_type is None
}

/// The next move of the search for the cloud that the host runs in.
#[derive(Debug)]
pub enum Detection {
    /// Ask the metadata service of this provider.
    Probe(CloudProvider),
    /// The search is over, with this result.
    Found(InstanceMetadata),
}

impl CloudProvider {
    /// The provider that is asked after `self` gave nothing.  The order is
    /// AWS, Azure, GCP, DigitalOcean.
    pub open spec fn successor(self) -> Option<CloudProvider> {
        match self {
            CloudProvider::AWS => Some(CloudProvider::Azure),
            CloudProvider::Azure => Some(CloudProvider::GCP),
            CloudProvider::GCP => Some(CloudProvider::DigitalOcean),
            CloudProvider::DigitalOcean => None,
            CloudProvider::Unknown => None,
        }
    }

    pub fn next_probe(self) -> (next: Option<CloudProvider>)
        ensures
            next == self.successor(),
    {
        match self {
            CloudProvider::AWS => Some(CloudProvider::Azure),
            CloudProvider::Azure => Some(CloudProvider::GCP),
            CloudProvider::GCP => Some(CloudProvider::DigitalOcean),
            CloudProvider::DigitalOcean => None,
            CloudProvider::Unknown => None,
        }
    }
}

/// The EC2 instance `instance_id` of the given type in the given region.
pub open spec fn aws_instance(
    instance_id: String,
    instance_type: Option<String>,
    region: Option<String>,
) -> InstanceMetadata {
    InstanceMetadata {
        instance_id: Some(instance_id),
        cloud_provider: Some(CloudProvider::AWS),
        region,
        instance_type,
    }
}

/// How the questioning of `provider` begins.  No question can be put to an
/// unknown provider.
pub open spec fn probe_begins(provider: CloudProvider, step: ProbeStep) -> bool {
    match provider {
        CloudProvider::AWS => asks(step, aws_token_request(), ProbeProgress::AwsToken),
        CloudProvider::Azure => asks(step, azure_request(), ProbeProgress::Azure),
        CloudProvider::GCP => asks(
            step,
            gcp_request(GCP_INSTANCE_ID_URL@),
            ProbeProgress::GcpInstanceId,
        ),
        CloudProvider::DigitalOcean => asks(step, droplet_request(), ProbeProgress::DigitalOcean),
        CloudProvider::Unknown => step == ProbeStep::Done(None),
    }
}

/// How the questioning goes on when `reply` arrives at `progress`.
///
/// EC2 is asked for a session token first.  With a token, the instance id,
/// the instance type and the region are asked for; where the service
/// refuses the token, the instance id alone is asked for, without one.  The
/// instance id is needed; type and region are left out where their answers
/// cannot be read.  Compute Engine is asked for the instance id, which is
/// needed, and for the zone.  Azure and DigitalOcean describe the instance
/// in one answer.  A request that does not complete ends the questioning
/// with nothing found.
pub open spec fn probe_continues(
    progress: ProbeProgress,
    reply: ProbeReply,
    step: ProbeStep,
) -> bool {
    match progress {
        ProbeProgress::AwsToken => match reply {
            ProbeReply::Text { status, text } => if success_status(status) {
                asks(
                    step,
                    aws_request(AWS_INSTANCE_ID_URL@, Some(text)),
                    ProbeProgress::AwsInstanceId { token: Some(text) },
                )
            } else {
                asks(
                    step,
                    aws_request(AWS_INSTANCE_ID_URL@, None),
                    ProbeProgress::AwsInstanceId { token: None },
                )
            },
            ProbeReply::Unreadable { status } => if success_status(status) {
                step == ProbeStep::Done(None)
            } else {
                asks(
                    step,
                    aws_request(AWS_INSTANCE_ID_URL@, None),
                    ProbeProgress::AwsInstanceId { token: None },
                )
            },
            _ => step == ProbeStep::Done(None),
        },
        ProbeProgress::AwsInstanceId { token } => match reply {
            ProbeReply::Text { status, text } => match token {
                Some(token) => asks(
                    step,
                    aws_request(AWS_INSTANCE_TYPE_URL@, Some(token)),
                    ProbeProgress::AwsInstanceType { token, instance_id: text },
                ),
                None => step == ProbeStep::Done(Some(aws_instance(text, None, None))),
            },
            _ => step == ProbeStep::Done(None),
        },
        ProbeProgress::AwsInstanceType { token, instance_id } => match reply {
            ProbeReply::NoAnswer => step == ProbeStep::Done(None),
            ProbeReply::Text { status, text } => asks(
                step,
                aws_request(AWS_REGION_URL@, Some(token)),
                ProbeProgress::AwsRegion { token, instance_id, instance_type: Some(text) },
            ),
            _ => asks(
                step,
                aws_request(AWS_REGION_URL@, Some(token)),
                ProbeProgress::AwsRegion { token, instance_id, instance_type: None },
            ),
        },
        ProbeProgress::AwsRegion { token, instance_id, instance_type } => match reply {
            ProbeReply::NoAnswer => step == ProbeStep::Done(None),
            ProbeReply::Text { status, text } => step == ProbeStep::Done(
                Some(aws_instance(instance_id, instance_type, Some(text))),
            ),
            _ => step == ProbeStep::Done(Some(aws_instance(instance_id, instance_type, None))),
        },
        ProbeProgress::Azure => match reply {
            ProbeReply::AzureInstance { vm_id, location, vm_size } => step == ProbeStep::Done(
                Some(
                    InstanceMetadata {
                        instance_id: Some(vm_id),
                        cloud_provider: Some(CloudProvider::Azure),
                        region: location,
                        instance_type: vm_size,
                    },
                ),
            ),
            _ => step == ProbeStep::Done(None),
        },
        ProbeProgress::GcpInstanceId => match reply {
            ProbeReply::Text { status, text } => asks(
                step,
                gcp_request(GCP_ZONE_URL@),
                ProbeProgress::GcpZone { instance_id: text },
            ),
            _ => step == ProbeStep::Done(None),
        },
        ProbeProgress::GcpZone { instance_id } => match reply {
            ProbeReply::NoAnswer => step == ProbeStep::Done(None),
            ProbeReply::Text { status, text } => step matches ProbeStep::Done(Some(metadata))
                && describes_gcp(metadata, instance_id, Some(text)),
            _ => step matches ProbeStep::Done(Some(metadata)) && describes_gcp(
                metadata,
                instance_id,
                None,
            ),
        },
        ProbeProgress::DigitalOcean => match reply {
            ProbeReply::Droplet { droplet_id, region } => step matches ProbeStep::Done(
                Some(metadata),
            ) && describes_droplet(metadata, droplet_id, region),
            _ => step == ProbeStep::Done(None),
        },
    }
}

fn ask_aws(url: &str, token: Option<String>, then: ProbeProgress) -> (step: ProbeStep)
    ensures
        asks(step, aws_request(url@, token), then),
{
    let mut headers: Vec<Field> = Vec::new();
    if let Some(token) = &token {
        headers.push(field("X-aws-ec2-metadata-token", token.as_str()));
    }
    let query: Vec<Field> = Vec::new();
    let request = ProbeRequest {
        method: Method::Get,
        url: owned(url),
        headers,
        query,
        payload: Payload::Text,
    };
    assert(request@.headers =~= aws_request(url@, token).headers);
    assert(request@.query =~= aws_request(url@, token).query);
    ProbeStep::Ask { request, then }
}

fn ask_gcp(url: &str, then: ProbeProgress) -> (step: ProbeStep)
    ensures
        asks(step, gcp_request(url@), then),
{
    let mut headers: Vec<Field> = Vec::new();
    headers.push(field("Metadata-Flavor", "Google"));
    let query: Vec<Field> = Vec::new();
    let request = ProbeRequest {
        method: Method::Get,
        url: owned(url),
        headers,
        query,
        payload: Payload::Text,
    };
    assert(request@.headers =~= gcp_request(url@).headers);
    assert(request@.query =~= gcp_request(url@).query);
    ProbeStep::Ask { request, then }
}

impl InstanceMetadata {
    /// The metadata of a host that no provider claims.
    pub open spec fn unrecognized() -> InstanceMetadata {
        InstanceMetadata {
            instance_id: None,
            cloud_provider: None,
            region: None,
            instance_type: None,
        }
    }

    /// The move that follows the answer `found` of the provider `probed`;
    /// with no provider probed yet, the first move.  The first answer that
    /// holds metadata ends the search; when the last provider has answered
    /// with nothing, the host runs in no recognized cloud.
    pub open spec fn detection(
        probed: Option<CloudProvider>,
        found: Option<InstanceMetadata>,
    ) -> Detection {
        match probed {
            None => Detection::Probe(CloudProvider::AWS),
            Some(provider) => match found {
                Some(metadata) => Detection::Found(metadata),
                None => match provider.successor() {
                    Some(next) => Detection::Probe(next),
                    None => Detection::Found(Self::unrecognized()),
                },
            },
        }
    }

    /// One step of the detection of the cloud environment.
    pub fn detect(probed: Option<CloudProvider>, found: Option<InstanceMetadata>) -> (next:
        Detection)
        ensures
            next == Self::detection(probed, found),
    {
        match probed {
            None => Detection::Probe(CloudProvider::AWS),
            Some(provider) => match found {
                Some(metadata) => Detection::Found(metadata),
                None => match provider.next_probe() {
                    Some(next) => Detection::Probe(next),
                    None => Detection::Found(
                        InstanceMetadata {
                            instance_id: None,
                            cloud_provider: None,
                            region: None,
                            instance_type: None,
                        },
                    ),
                },
            },
        }
    }

    /// The first step of the questioning of `provider`.
    pub fn begin_probe(provider: CloudProvider) -> (step: ProbeStep)
        ensures
            probe_begins(provider, step),
    {
        match provider {
            CloudProvider::AWS => {
                let mut headers: Vec<Field> = Vec::new();
                headers.push(field("X-aws-ec2-metadata-token-ttl-seconds", "21600"));
                let query: Vec<Field> = Vec::new();
                let request = ProbeRequest {
                    method: Method::Put,
                    url: owned(AWS_TOKEN_URL),
                    headers,
                    query,
                    payload: Payload::Text,
                };
                assert(request@.headers =~= aws_token_request().headers);
                assert(request@.query =~= aws_token_request().query);
                ProbeStep::Ask { request, then: ProbeProgress::AwsToken }
            },
            CloudProvider::Azure => {
                let mut headers: Vec<Field> = Vec::new();
                headers.push(field("Metadata", "true"));
                let mut query: Vec<Field> = Vec::new();
                query.push(field("api-version", "2021-02-01"));
                let request = ProbeRequest {
                    method: Method::Get,
                    url: owned(AZURE_INSTANCE_URL),
                    headers,
                    query,
                    payload: Payload::AzureInstance,
                };
                assert(request@.headers =~= azure_request().headers);
                assert(request@.query =~= azure_request().query);
                ProbeStep::Ask { request, then: ProbeProgress::Azure }
            },
            CloudProvider::GCP => ask_gcp(GCP_INSTANCE_ID_URL, ProbeProgress::GcpInstanceId),
            CloudProvider::DigitalOcean => {
                let headers: Vec<Field> = Vec::new();
                let query: Vec<Field> = Vec::new();
                let request = ProbeRequest {
                    method: Method::Get,
                    url: owned(DROPLET_URL),
                    headers,
                    query,
                    payload: Payload::Droplet,
                };
                assert(request@.headers =~= droplet_request().headers);
                assert(request@.query =~= droplet_request().query);
                ProbeStep::Ask { request, then: ProbeProgress::DigitalOcean }
            },
            CloudProvider::Unknown => ProbeStep::Done(None),
        }
    }

    /// The step that follows when `reply` arrives at `progress`.
    pub fn continue_probe(progress: ProbeProgress, reply: ProbeReply) -> (step: ProbeStep)
        ensures
            probe_continues(progress, reply, step),
    {
        match progress {
            ProbeProgress::AwsToken => match reply {
                ProbeReply::Text { status, text } => if is_success_status(status) {
                    let token: String = text.clone();
                    ask_aws(
                        AWS_INSTANCE_ID_URL,
                        Some(text),
                        ProbeProgress::AwsInstanceId { token: Some(token) },
                    )
                } else {
                    ask_aws(AWS_INSTANCE_ID_URL, None, ProbeProgress::AwsInstanceId { token: None })
                },
                ProbeReply::Unreadable { status } => if is_success_status(status) {
                    ProbeStep::Done(None)
                } else {
                    ask_aws(AWS_INSTANCE_ID_URL, None, ProbeProgress::AwsInstanceId { token: None })
                },
                _ => ProbeStep::Done(None),
            },
            ProbeProgress::AwsInstanceId { token } => match reply {
                ProbeReply::Text { status, text } => match token {
                    Some(token) => {
                        let header: String = token.clone();
                        ask_aws(
                            AWS_INSTANCE_TYPE_URL,
                            Some(header),
                            ProbeProgress::AwsInstanceType { token, instance_id: text },
                        )
                    },
                    None => ProbeStep::Done(Some(InstanceMetadata::from_aws(text, None, None))),
                },
                _ => ProbeStep::Done(None),
            },
            ProbeProgress::AwsInstanceType { token, instance_id } => {
                let header: String = token.clone();
                match reply {
                    ProbeReply::NoAnswer => ProbeStep::Done(None),
                    ProbeReply::Text { status, text } => ask_aws(
                        AWS_REGION_URL,
                        Some(header),
                        ProbeProgress::AwsRegion { token, instance_id, instance_type: Some(text) },
                    ),
                    _ => ask_aws(
                        AWS_REGION_URL,
                        Some(header),
                        ProbeProgress::AwsRegion { token, instance_id, instance_type: None },
                    ),
                }
            },
            ProbeProgress::AwsRegion { token, instance_id, instance_type } => match reply {
                ProbeReply::NoAnswer => ProbeStep::Done(None),
                ProbeReply::Text { status, text } => ProbeStep::Done(
                    Some(InstanceMetadata::from_aws(instance_id, instance_type, Some(text))),
                ),
                _ => ProbeStep::Done(
                    Some(InstanceMetadata::from_aws(instance_id, instance_type, None)),
                ),
            },
            ProbeProgress::Azure => match reply {
                ProbeReply::AzureInstance { vm_id, location, vm_size } => ProbeStep::Done(
                    Some(InstanceMetadata::from_azure(vm_id, location, vm_size)),
                ),
                _ => ProbeStep::Done(None),
            },
            ProbeProgress::GcpInstanceId => match reply {
                ProbeReply::Text { status, text } => ask_gcp(
                    GCP_ZONE_URL,
                    ProbeProgress::GcpZone { instance_id: text },
                ),
                _ => ProbeStep::Done(None),
            },
            ProbeProgress::GcpZone { instance_id } => match reply {
                ProbeReply::NoAnswer => ProbeStep::Done(None),
                ProbeReply::Text { status, text } => ProbeStep::Done(
                    Some(InstanceMetadata::from_gcp(instance_id, Some(text))),
                ),
                _ => ProbeStep::Done(Some(InstanceMetadata::from_gcp(instance_id, None))),
            },
            ProbeProgress::DigitalOcean => match reply {
                ProbeReply::Droplet { droplet_id, region } => ProbeStep::Done(
                    Some(InstanceMetadata::from_digitalocean(droplet_id, region)),
                ),
                _ => ProbeStep::Done(None),
            },
        }
    }
}

} // verus!
