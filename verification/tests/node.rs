use nodebench::node::{
    machine_name, ubuntu_architecture, ubuntu_release, ubuntu_virtualization, Backend, ConfigError,
    ImageSource, Node, AWS_LAUNCH_TIMEOUT_SECS, AWS_SPOT_HOURS, SSH_PORT,
};

fn aws(region: &str) -> Node {
    Node::Aws { region: region.to_string() }
}

fn azure(region: &str) -> Node {
    Node::Azure { region: region.to_string() }
}

fn baremetal(ip: &str, user: &str) -> Node {
    Node::Baremetal { ip: ip.to_string(), user: user.to_string() }
}

#[test]
fn backends_of_the_variants() {
    assert_eq!(aws("us-east-1").backend(), Backend::Aws);
    assert_eq!(azure("eastus").backend(), Backend::Azure);
    assert_eq!(baremetal("10.0.0.1", "me").backend(), Backend::Baremetal);
}

#[test]
fn only_cloud_backends_are_cloud() {
    assert!(Backend::Aws.is_cloud());
    assert!(Backend::Azure.is_cloud());
    assert!(!Backend::Baremetal.is_cloud());
}

#[test]
fn provider_tags() {
    assert_eq!(Backend::Aws.tag(), "aws");
    assert_eq!(Backend::Azure.tag(), "azure");
    assert_eq!(Backend::Baremetal.tag(), "gcp");
}

#[test]
fn fixed_names() {
    assert_eq!(machine_name(), "primary-node");
    assert_eq!(ubuntu_release(), "focal");
    assert_eq!(ubuntu_virtualization(), "hvm:ebs-ssd");
    assert_eq!(ubuntu_architecture(), "amd64");
    assert_eq!(SSH_PORT, 22);
    assert_eq!(AWS_LAUNCH_TIMEOUT_SECS, 180);
    assert_eq!(AWS_SPOT_HOURS, 6);
}

#[test]
fn verdict_on_each_backend() {
    assert_eq!(Backend::Aws.verdict(true), Ok(()));
    assert_eq!(Backend::Azure.verdict(true), Ok(()));
    assert_eq!(Backend::Baremetal.verdict(true), Ok(()));
    assert_eq!(Backend::Aws.verdict(false), Err(ConfigError::UnknownAwsRegion));
    assert_eq!(Backend::Azure.verdict(false), Err(ConfigError::UnknownAzureRegion));
    assert_eq!(Backend::Baremetal.verdict(false), Err(ConfigError::EmptyAddress));
}

#[test]
fn known_aws_regions_are_accepted() {
    assert_eq!(aws("us-east-1").validate(), Ok(()));
    assert_eq!(aws("eu-west-3").validate(), Ok(()));
    assert_eq!(aws("ap-southeast-2").validate(), Ok(()));
}

#[test]
fn unknown_aws_regions_are_rejected() {
    assert_eq!(aws("mars-north-1").validate(), Err(ConfigError::UnknownAwsRegion));
    assert_eq!(aws("eastus").validate(), Err(ConfigError::UnknownAwsRegion));
    assert_eq!(aws("").validate(), Err(ConfigError::UnknownAwsRegion));
}

#[test]
fn known_azure_regions_are_accepted() {
    assert_eq!(azure("eastus").validate(), Ok(()));
    assert_eq!(azure("francecentral").validate(), Ok(()));
    assert_eq!(azure("germanywestcentral").validate(), Ok(()));
}

#[test]
fn unknown_azure_regions_are_rejected() {
    assert_eq!(azure("us-east-1").validate(), Err(ConfigError::UnknownAzureRegion));
    assert_eq!(azure("EastUs").validate(), Err(ConfigError::UnknownAzureRegion));
    assert_eq!(azure("").validate(), Err(ConfigError::UnknownAzureRegion));
}

#[test]
fn static_host_needs_an_address() {
    assert_eq!(baremetal("192.168.1.7", "bench").validate(), Ok(()));
    assert_eq!(baremetal("host.example", "").validate(), Ok(()));
    assert_eq!(baremetal("", "bench").validate(), Err(ConfigError::EmptyAddress));
}

#[test]
fn config_error_messages() {
    assert_eq!(ConfigError::UnknownAwsRegion.message(), "unknown aws region");
    assert_eq!(ConfigError::UnknownAzureRegion.message(), "unknown azure region");
    assert_eq!(ConfigError::EmptyAddress.message(), "empty host address");
}

#[test]
fn aws_launch_plan() {
    let plan = aws("us-west-2").launch_plan();
    assert_eq!(plan.backend, Backend::Aws);
    assert_eq!(plan.machine_name, "primary-node");
    assert_eq!(plan.location, "us-west-2");
    assert_eq!(plan.username.as_deref(), Some("ubuntu"));
    assert_eq!(plan.instance_type.as_deref(), Some("t3.medium"));
    assert_eq!(plan.image_source, ImageSource::UbuntuLookup);
    assert_eq!(plan.image, None);
    assert_eq!(plan.port, 22);
    assert_eq!(plan.launch_timeout_secs, Some(180));
    assert_eq!(plan.spot_hours, Some(6));
}

#[test]
fn azure_launch_plan() {
    let plan = azure("westeurope").launch_plan();
    assert_eq!(plan.backend, Backend::Azure);
    assert_eq!(plan.machine_name, "primary-node");
    assert_eq!(plan.location, "westeurope");
    assert_eq!(plan.username, None);
    assert_eq!(plan.instance_type.as_deref(), Some("Standard_B2ms"));
    assert_eq!(plan.image_source, ImageSource::Named);
    assert_eq!(
        plan.image.as_deref(),
        Some("Canonical:0001-com-ubuntu-server-focal:20_04-lts:latest")
    );
    assert_eq!(plan.launch_timeout_secs, None);
    assert_eq!(plan.spot_hours, None);
}

#[test]
fn baremetal_launch_plan() {
    let plan = baremetal("10.1.2.3", "operator").launch_plan();
    assert_eq!(plan.backend, Backend::Baremetal);
    assert_eq!(plan.machine_name, "primary-node");
    assert_eq!(plan.location, "10.1.2.3");
    assert_eq!(plan.username.as_deref(), Some("operator"));
    assert_eq!(plan.instance_type, None);
    assert_eq!(plan.image_source, ImageSource::Preinstalled);
    assert_eq!(plan.image, None);
    assert_eq!(plan.port, 22);
    assert_eq!(plan.launch_timeout_secs, None);
    assert_eq!(plan.spot_hours, None);
}
