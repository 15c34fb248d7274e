//! Node descriptors: which machine to obtain, and from which backend.

use vstd::prelude::*;
use vstd::string::StringExecFns;
use crate::region::{aws_region_known, aws_region_parses, azure_region_known, azure_region_parses};

verus! {

/// The backend that provides a machine.
#[derive(Clone, Copy, Debug, PartialEq, Eq, Structural)]
pub enum Backend {
    Aws,
    Azure,
    Baremetal,
}

/// Why a descriptor cannot be launched.
#[derive(Clone, Copy, Debug, PartialEq, Eq, Structural)]
pub enum ConfigError {
    /// The AWS region parser does not know the region.
    UnknownAwsRegion,
    /// The Azure region parser does not know the region.
    UnknownAzureRegion,
    /// A static host without an address.
    EmptyAddress,
}

/// One target machine and how to obtain it.
#[derive(Clone, Debug)]
pub enum Node {
    Aws { region: String },
    Azure { region: String },
    Baremetal { ip: String, user: String },
}

/// Where the machine image comes from.
#[derive(Clone, Copy, Debug, PartialEq, Eq, Structural)]
pub enum ImageSource {
    /// The newest Ubuntu image for the region, found by a lookup at launch.
    UbuntuLookup,
    /// An image named in the plan.
    Named,
    /// The machine exists already.
    Preinstalled,
}

/// What a provider adapter is asked to launch for one descriptor.
#[derive(Clone, Debug)]
pub struct LaunchPlan {
    pub backend: Backend,
    /// Name under which the machine is launched and found again.
    pub machine_name: String,
    /// Region of a cloud machine, address of a static host.
    pub location: String,
    /// Login user; `None` leaves the provider's default.
    pub username: Option<String>,
    /// Instance type of a cloud machine.
    pub instance_type: Option<String>,
    pub image_source: ImageSource,
    /// The image of `ImageSource::Named`.
    pub image: Option<String>,
    /// SSH port of a static host.
    pub port: u16,
    /// Seconds after which an unfinished launch counts as failed.
    pub launch_timeout_secs: Option<u64>,
    /// Hours of spot capacity to try before falling back to on-demand.
    pub spot_hours: Option<u64>,
}

pub const SSH_PORT: u16 = 22;

pub const AWS_LAUNCH_TIMEOUT_SECS: u64 = 180;

pub const AWS_SPOT_HOURS: u64 = 6;

/// The name every launched machine goes by.
pub open spec fn machine_name_spec() -> Seq<char> {
    "primary-node"@
}

pub fn machine_name() -> (name: &'static str)
    ensures
        name@ == machine_name_spec(),
{
    "primary-node"
}

pub open spec fn ubuntu_release_spec() -> Seq<char> {
    "focal"@
}

/// Ubuntu release that the AWS image lookup asks for.
pub fn ubuntu_release() -> (s: &'static str)
    ensures
        s@ == ubuntu_release_spec(),
{
    "focal"
}

pub open spec fn ubuntu_virtualization_spec() -> Seq<char> {
    "hvm:ebs-ssd"@
}

/// Virtualization and storage kind that the AWS image lookup asks for.
pub fn ubuntu_virtualization() -> (s: &'static str)
    ensures
        s@ == ubuntu_virtualization_spec(),
{
    "hvm:ebs-ssd"
}

pub open spec fn ubuntu_architecture_spec() -> Seq<char> {
    "amd64"@
}

/// Architecture that the AWS image lookup asks for.
pub fn ubuntu_architecture() -> (s: &'static str)
    ensures
        s@ == ubuntu_architecture_spec(),
{
    "amd64"
}

impl Backend {
    /// Cloud backends provision billable machines that must be terminated.
    pub open spec fn is_cloud_spec(self) -> bool {
        self != Backend::Baremetal
    }

    #[verifier::when_used_as_spec(is_cloud_spec)]
    pub fn is_cloud(self) -> (cloud: bool)
        ensures
            cloud == self.is_cloud_spec(),
    {
        match self {
            Backend::Aws => true,
            Backend::Azure => true,
            Backend::Baremetal => false,
        }
    }

    /// The tag under which a backend's log and result files are named.
    pub open spec fn tag_spec(self) -> Seq<char> {
        match self {
            Backend::Aws => "aws"@,
            Backend::Azure => "azure"@,
            Backend::Baremetal => "gcp"@,
        }
    }

    pub fn tag(self) -> (tag: &'static str)
        ensures
            tag@ == self.tag_spec(),
    {
        match self {
            Backend::Aws => "aws",
            Backend::Azure => "azure",
            Backend::Baremetal => "gcp",
        }
    }

    /// The error that an unlaunchable descriptor of this backend gives.
    pub open spec fn config_error(self) -> ConfigError {
        match self {
            Backend::Aws => ConfigError::UnknownAwsRegion,
            Backend::Azure => ConfigError::UnknownAzureRegion,
            Backend::Baremetal => ConfigError::EmptyAddress,
        }
    }

    /// Turns the answer to "is the location usable?" into the verdict on a
    /// descriptor of this backend.
    pub fn verdict(self, location_ok: bool) -> (r: Result<(), ConfigError>)
        ensures
            r == if location_ok {
                Ok::<(), ConfigError>(())
            } else {
                Err::<(), ConfigError>(self.config_error())
            },
    {
        if location_ok {
            Ok(())
        } else {
            match self {
                Backend::Aws => Err(ConfigError::UnknownAwsRegion),
                Backend::Azure => Err(ConfigError::UnknownAzureRegion),
                Backend::Baremetal => Err(ConfigError::EmptyAddress),
            }
        }
    }
}

impl ConfigError {
    pub open spec fn message_spec(self) -> Seq<char> {
        match self {
            ConfigError::UnknownAwsRegion => "unknown aws region"@,
            ConfigError::UnknownAzureRegion => "unknown azure region"@,
            ConfigError::EmptyAddress => "empty host address"@,
        }
    }

    /// A line for the operator.
    pub fn message(self) -> (s: &'static str)
        ensures
            s@ == self.message_spec(),
    {
        match self {
            ConfigError::UnknownAwsRegion => "unknown aws region",
            ConfigError::UnknownAzureRegion => "unknown azure region",
            ConfigError::EmptyAddress => "empty host address",
        }
    }
}

impl Node {
    pub open spec fn backend_spec(&self) -> Backend {
        match self {
            Node::Aws { .. } => Backend::Aws,
            Node::Azure { .. } => Backend::Azure,
            Node::Baremetal { .. } => Backend::Baremetal,
        }
    }

    #[verifier::when_used_as_spec(backend_spec)]
    pub fn backend(&self) -> (b: Backend)
        ensures
            b == self.backend_spec(),
    {
        match self {
            Node::Aws { .. } => Backend::Aws,
            Node::Azure { .. } => Backend::Azure,
            Node::Baremetal { .. } => Backend::Baremetal,
        }
    }

    /// Region of a cloud descriptor, address of a static host.
    pub open spec fn location(&self) -> Seq<char> {
        match self {
            Node::Aws { region } => region@,
            Node::Azure { region } => region@,
            Node::Baremetal { ip, .. } => ip@,
        }
    }

    /// Whether the descriptor's location is usable: a region that its
    /// provider's parser knows, or a static address that is not empty.
    pub open spec fn location_ok(&self) -> bool {
        match self {
            Node::Aws { region } => aws_region_parses(region@),
            Node::Azure { region } => azure_region_parses(region@),
            Node::Baremetal { ip, .. } => ip@.len() > 0,
        }
    }

    /// Decides whether the descriptor can be launched. An empty location is
    /// always refused.
    pub fn validate(&self) -> (r: Result<(), ConfigError>)
        ensures
            r is Ok <==> self.location_ok(),
            r is Err ==> r == Err::<(), ConfigError>(self.backend_spec().config_error()),
            self.location().len() == 0 ==> r is Err,
    {
        let ok = match self {
            Node::Aws { region } => aws_region_known(region.as_str()),
            Node::Azure { region } => azure_region_known(region.as_str()),
            Node::Baremetal { ip, .. } => !ip.as_str().is_empty(),
        };
        self.backend().verdict(ok)
    }

    /// What the descriptor's provider adapter is asked to launch.
    pub fn launch_plan(&self) -> (plan: LaunchPlan)
        ensures
            plan.backend == self.backend_spec(),
            plan.machine_name@ == machine_name_spec(),
            plan.location@ == self.location(),
            plan.port == SSH_PORT,
            match self {
                Node::Aws { .. } => {
                    &&& plan.username matches Some(u) && u@ == "ubuntu"@
                    &&& plan.instance_type matches Some(t) && t@ == "t3.medium"@
                    &&& plan.image_source == ImageSource::UbuntuLookup
                    &&& plan.image is None
                    &&& plan.launch_timeout_secs == Some(AWS_LAUNCH_TIMEOUT_SECS)
                    &&& plan.spot_hours == Some(AWS_SPOT_HOURS)
                },
                Node::Azure { .. } => {
                    &&& plan.username is None
                    &&& plan.instance_type matches Some(t) && t@ == "Standard_B2ms"@
                    &&& plan.image_source == ImageSource::Named
                    &&& plan.image matches Some(i) && i@
                        == "Canonical:0001-com-ubuntu-server-focal:20_04-lts:latest"@
                    &&& plan.launch_timeout_secs is None
                    &&& plan.spot_hours is None
                },
                Node::Baremetal { user, .. } => {
                    &&& plan.username matches Some(u) && u@ == user@
                    &&& plan.instance_type is None
                    &&& plan.image_source == ImageSource::Preinstalled
                    &&& plan.image is None
                    &&& plan.launch_timeout_secs is None
                    &&& plan.spot_hours is None
                },
            },
    {
        let name = String::from_str(machine_name());
        match self {
            Node::Aws { region } => LaunchPlan {
                backend: Backend::Aws,
                machine_name: name,
                location: region.clone(),
                username: Some(String::from_str("ubuntu")),
                instance_type: Some(String::from_str("t3.medium")),
                image_source: ImageSource::UbuntuLookup,
                image: None,
                port: SSH_PORT,
                launch_timeout_secs: Some(AWS_LAUNCH_TIMEOUT_SECS),
                spot_hours: Some(AWS_SPOT_HOURS),
            },
            Node::Azure { region } => LaunchPlan {
                backend: Backend::Azure,
                machine_name: name,
                location: region.clone(),
                username: None,
                instance_type: Some(String::from_str("Standard_B2ms")),
                image_source: ImageSource::Named,
                image: Some(
                    String::from_str("Canonical:0001-com-ubuntu-server-focal:20_04-lts:latest"),
                ),
                port: SSH_PORT,
                launch_timeout_secs: None,
                spot_hours: None,
            },
            Node::Baremetal { ip, user } => LaunchPlan {
                backend: Backend::Baremetal,
                machine_name: name,
                location: ip.clone(),
                username: Some(user.clone()),
                instance_type: None,
                image_source: ImageSource::Preinstalled,
                image: None,
                port: SSH_PORT,
                launch_timeout_secs: None,
                spot_hours: None,
            },
        }
    }
}

} // verus!
