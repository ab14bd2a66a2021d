//! Strong provisioning bootstrap types for Vultr-created instances.
use vstd::prelude::*;

use crate::hephaestus::node::{
    HephaestusAgentBootSecret, HephaestusAgentControlSecret, HephaestusControllerBaseUrl,
};
use crate::text::{
    contains_char, first_fault, lemma_first_fault_at, lemma_first_fault_none, optional_text,
    starts_with, str_contains_char, str_starts_with, string_result_view, string_views, trim,
    view_result, CharClass, Duplicate,
};
use crate::vultr::error::{lemma_vultr_token_idempotent, vultr_check_token, vultr_token, VultrError};

verus! {

/// Byte bound of a Docker image reference.
pub const MAX_DOCKER_IMAGE_REFERENCE_BYTES: usize = 256;
/// Byte bound of a Docker container name.
pub const MAX_DOCKER_CONTAINER_NAME_BYTES: usize = 64;
/// Byte bound of a Docker option, volume mount, resolver or metadata value.
pub const MAX_DOCKER_OPTION_BYTES: usize = 256;
/// Byte bound of an SSH authorized key line.
pub const MAX_SSH_AUTHORIZED_KEY_BYTES: usize = 1024;

/// Validated Docker image reference used in generated bootstrap scripts.
#[derive(PartialEq, Eq, Debug)]
pub struct DockerImageReference(String);

impl Clone for DockerImageReference {
    fn clone(&self) -> (r: Self)
        ensures
            r == *self,
    {
        proof {
            use_type_invariant(self);
        }
        DockerImageReference(self.0.clone())
    }
}

impl View for DockerImageReference {
    type V = Seq<char>;

    closed spec fn view(&self) -> Seq<char> {
        self.0@
    }
}

impl Duplicate for DockerImageReference {
    fn duplicate(&self) -> (r: Self) {
        self.clone()
    }
}

impl DockerImageReference {
    /// The text is a valid token: trimmed, bounded and of allowed
    /// characters.
    #[verifier::type_invariant]
    pub open spec fn valid(&self) -> bool {
        vultr_token(self@, MAX_DOCKER_IMAGE_REFERENCE_BYTES as nat, CharClass::DockerImage) == Ok::<Seq<char>, VultrError>(self@)
    }

    /// Constructs a validated Docker image reference.
    pub fn new(value: &str) -> (r: Result<Self, VultrError>)
        ensures
            view_result(r) == vultr_token(value@, MAX_DOCKER_IMAGE_REFERENCE_BYTES as nat, CharClass::DockerImage),
    {
        proof {
            if vultr_token(value@, MAX_DOCKER_IMAGE_REFERENCE_BYTES as nat, CharClass::DockerImage) is Ok {
                lemma_vultr_token_idempotent(value@, MAX_DOCKER_IMAGE_REFERENCE_BYTES as nat, CharClass::DockerImage);
            }
        }
        match vultr_check_token(value, MAX_DOCKER_IMAGE_REFERENCE_BYTES, CharClass::DockerImage) {
            Ok(text) => Ok(DockerImageReference(text)),
            Err(e) => Err(e),
        }
    }

    /// Returns the validated image reference.
    pub fn as_str(&self) -> (r: &str)
        ensures
            r@ == self@,
    {
        self.0.as_str()
    }
}

/// Validated Docker container name.
#[derive(PartialEq, Eq, Debug)]
pub struct DockerContainerName(String);

impl Clone for DockerContainerName {
    fn clone(&self) -> (r: Self)
        ensures
            r == *self,
    {
        proof {
            use_type_invariant(self);
        }
        DockerContainerName(self.0.clone())
    }
}

impl View for DockerContainerName {
    type V = Seq<char>;

    closed spec fn view(&self) -> Seq<char> {
        self.0@
    }
}

impl Duplicate for DockerContainerName {
    fn duplicate(&self) -> (r: Self) {
        self.clone()
    }
}

impl DockerContainerName {
    /// The text is a valid token: trimmed, bounded and of allowed
    /// characters.
    #[verifier::type_invariant]
    pub open spec fn valid(&self) -> bool {
        vultr_token(self@, MAX_DOCKER_CONTAINER_NAME_BYTES as nat, CharClass::DnsName) == Ok::<Seq<char>, VultrError>(self@)
    }

    /// Constructs a validated Docker container name.
    pub fn new(value: &str) -> (r: Result<Self, VultrError>)
        ensures
            view_result(r) == vultr_token(value@, MAX_DOCKER_CONTAINER_NAME_BYTES as nat, CharClass::DnsName),
    {
        proof {
            if vultr_token(value@, MAX_DOCKER_CONTAINER_NAME_BYTES as nat, CharClass::DnsName) is Ok {
                lemma_vultr_token_idempotent(value@, MAX_DOCKER_CONTAINER_NAME_BYTES as nat, CharClass::DnsName);
            }
        }
        match vultr_check_token(value, MAX_DOCKER_CONTAINER_NAME_BYTES, CharClass::DnsName) {
            Ok(text) => Ok(DockerContainerName(text)),
            Err(e) => Err(e),
        }
    }

    /// Returns the validated container name.
    pub fn as_str(&self) -> (r: &str)
        ensures
            r@ == self@,
    {
        self.0.as_str()
    }
}

/// Validated Docker CLI argument used as one argv item, never as shell text.
#[derive(Clone, PartialEq, Eq, Debug)]
pub struct DockerRunArgument(String);

impl View for DockerRunArgument {
    type V = Seq<char>;

    closed spec fn view(&self) -> Seq<char> {
        self.0@
    }
}

impl Duplicate for DockerRunArgument {
    fn duplicate(&self) -> (r: Self) {
        DockerRunArgument(self.0.clone())
    }
}

impl DockerRunArgument {
    /// Constructs a validated Docker run argument.
    pub fn new(value: &str) -> (r: Result<Self, VultrError>)
        ensures
            view_result(r) == vultr_token(value@, MAX_DOCKER_OPTION_BYTES as nat, CharClass::DockerArgument),
    {
        match vultr_check_token(value, MAX_DOCKER_OPTION_BYTES, CharClass::DockerArgument) {
            Ok(text) => Ok(DockerRunArgument(text)),
            Err(e) => Err(e),
        }
    }

    /// Returns the validated argument.
    pub fn as_str(&self) -> (r: &str)
        ensures
            r@ == self@,
    {
        self.0.as_str()
    }
}

/// Validated Docker DNS resolver address.
#[derive(Clone, PartialEq, Eq, Debug)]
pub struct DockerDnsResolver(String);

impl View for DockerDnsResolver {
    type V = Seq<char>;

    closed spec fn view(&self) -> Seq<char> {
        self.0@
    }
}

impl Duplicate for DockerDnsResolver {
    fn duplicate(&self) -> (r: Self) {
        DockerDnsResolver(self.0.clone())
    }
}

impl DockerDnsResolver {
    /// Constructs a validated DNS resolver value.
    pub fn new(value: &str) -> (r: Result<Self, VultrError>)
        ensures
            view_result(r) == vultr_token(value@, MAX_DOCKER_OPTION_BYTES as nat, CharClass::IpAddress),
    {
        match vultr_check_token(value, MAX_DOCKER_OPTION_BYTES, CharClass::IpAddress) {
            Ok(text) => Ok(DockerDnsResolver(text)),
            Err(e) => Err(e),
        }
    }

    /// Returns the validated resolver.
    pub fn as_str(&self) -> (r: &str)
        ensures
            r@ == self@,
    {
        self.0.as_str()
    }
}

/// Whether an SSH key line starts with one of the accepted key-type prefixes.
pub open spec fn has_known_key_prefix(s: Seq<char>) -> bool {
    ||| starts_with(s, "ssh-ed25519 "@)
    ||| starts_with(s, "ssh-rsa "@)
    ||| starts_with(s, "ecdsa-sha2-nistp256 "@)
}

/// The outcome of validating an SSH authorized key line: the bounded-token
/// rules, then a known key-type prefix.
pub open spec fn ssh_authorized_key_outcome(s: Seq<char>) -> Result<Seq<char>, VultrError> {
    match vultr_token(s, MAX_SSH_AUTHORIZED_KEY_BYTES as nat, CharClass::SshKey) {
        Ok(t) => if has_known_key_prefix(t) {
            Ok(t)
        } else {
            Err(VultrError::InvalidCharacter)
        },
        Err(e) => Err(e),
    }
}

/// An accepted SSH key line is accepted again, unchanged.
pub proof fn lemma_ssh_authorized_key_idempotent(s: Seq<char>)
    requires
        ssh_authorized_key_outcome(s) is Ok,
    ensures
        ssh_authorized_key_outcome(ssh_authorized_key_outcome(s)->Ok_0) == ssh_authorized_key_outcome(s),
{
    lemma_vultr_token_idempotent(s, MAX_SSH_AUTHORIZED_KEY_BYTES as nat, CharClass::SshKey);
}

/// Validated SSH public key line for cloud-init authorized_keys. It has no
/// `Debug` so that the key line never reaches logs.
#[derive(Clone, PartialEq, Eq)]
pub struct SshAuthorizedKey(String);

impl View for SshAuthorizedKey {
    type V = Seq<char>;

    closed spec fn view(&self) -> Seq<char> {
        self.0@
    }
}

impl Duplicate for SshAuthorizedKey {
    fn duplicate(&self) -> (r: Self) {
        SshAuthorizedKey(self.0.clone())
    }
}

impl SshAuthorizedKey {
    /// Returns the debug rendering of this value, which never shows the
    /// key line.
    pub fn debug_text(&self) -> (r: &'static str)
        ensures
            r@ == "SshAuthorizedKey(\"<redacted>\")"@,
    {
        "SshAuthorizedKey(\"<redacted>\")"
    }

    /// Constructs a validated SSH public key line.
    pub fn new(value: &str) -> (r: Result<Self, VultrError>)
        ensures
            view_result(r) == ssh_authorized_key_outcome(value@),
    {
        let text = match vultr_check_token(value, MAX_SSH_AUTHORIZED_KEY_BYTES, CharClass::SshKey) {
            Ok(text) => text,
            Err(e) => return Err(e),
        };
        let known = str_starts_with(text.as_str(), "ssh-ed25519 ") || str_starts_with(
            text.as_str(),
            "ssh-rsa ",
        ) || str_starts_with(text.as_str(), "ecdsa-sha2-nistp256 ");
        if !known {
            return Err(VultrError::InvalidCharacter);
        }
        Ok(SshAuthorizedKey(text))
    }

    /// Returns the validated key line.
    pub fn as_str(&self) -> (r: &str)
        ensures
            r@ == self@,
    {
        self.0.as_str()
    }
}

/// The outcome of validating a Docker volume mount: the bounded-token rules,
/// then a `:` separating the host path from the container path.
pub open spec fn volume_mount_outcome(s: Seq<char>) -> Result<Seq<char>, VultrError> {
    match vultr_token(s, MAX_DOCKER_OPTION_BYTES as nat, CharClass::PathMount) {
        Ok(t) => if contains_char(t, ':') {
            Ok(t)
        } else {
            Err(VultrError::InvalidCharacter)
        },
        Err(e) => Err(e),
    }
}

/// An accepted volume mount is accepted again, unchanged.
pub proof fn lemma_volume_mount_idempotent(s: Seq<char>)
    requires
        volume_mount_outcome(s) is Ok,
    ensures
        volume_mount_outcome(volume_mount_outcome(s)->Ok_0) == volume_mount_outcome(s),
{
    lemma_vultr_token_idempotent(s, MAX_DOCKER_OPTION_BYTES as nat, CharClass::PathMount);
}

/// Validated Docker volume mount in `host_path:container_path[:mode]` form.
#[derive(Clone, PartialEq, Eq, Debug)]
pub struct DockerVolumeMount(String);

impl View for DockerVolumeMount {
    type V = Seq<char>;

    closed spec fn view(&self) -> Seq<char> {
        self.0@
    }
}

impl Duplicate for DockerVolumeMount {
    fn duplicate(&self) -> (r: Self) {
        DockerVolumeMount(self.0.clone())
    }
}

impl DockerVolumeMount {
    /// Constructs a validated Docker volume mount.
    pub fn new(value: &str) -> (r: Result<Self, VultrError>)
        ensures
            view_result(r) == volume_mount_outcome(value@),
    {
        let text = match vultr_check_token(value, MAX_DOCKER_OPTION_BYTES, CharClass::PathMount) {
            Ok(text) => text,
            Err(e) => return Err(e),
        };
        if !str_contains_char(text.as_str(), ':') {
            return Err(VultrError::InvalidCharacter);
        }
        Ok(DockerVolumeMount(text))
    }

    /// Returns the validated mount.
    pub fn as_str(&self) -> (r: &str)
        ensures
            r@ == self@,
    {
        self.0.as_str()
    }
}

/// Docker restart policy for generated app containers.
#[derive(Debug, Clone, Copy, PartialEq, Eq, Structural)]
pub enum DockerRestartPolicy {
    /// Restart unless explicitly stopped.
    UnlessStopped,
    /// Always restart the container.
    Always,
    /// Do not auto-restart.
    No,
}

/// The Docker CLI value of each restart policy.
pub open spec fn restart_policy_cli_value(p: DockerRestartPolicy) -> Seq<char> {
    match p {
        DockerRestartPolicy::UnlessStopped => "unless-stopped"@,
        DockerRestartPolicy::Always => "always"@,
        DockerRestartPolicy::No => "no"@,
    }
}

impl DockerRestartPolicy {
    /// Returns the Docker CLI value.
    pub fn as_cli_value(self) -> (r: &'static str)
        ensures
            r@ == restart_policy_cli_value(self),
    {
        match self {
            DockerRestartPolicy::UnlessStopped => "unless-stopped",
            DockerRestartPolicy::Always => "always",
            DockerRestartPolicy::No => "no",
        }
    }
}

/// The outcome of validating one node metadata value.
pub open spec fn metadata_value_outcome(s: Seq<char>) -> Result<Seq<char>, VultrError> {
    vultr_token(s, MAX_DOCKER_OPTION_BYTES as nat, CharClass::MetadataValue)
}

/// The fault of one node metadata value, if it has one.
pub open spec fn metadata_value_fault(s: Seq<char>) -> Option<VultrError> {
    match metadata_value_outcome(s) {
        Ok(_) => None,
        Err(e) => Some(e),
    }
}

/// [`metadata_value_fault`] as a function value, for scans over lists.
pub open spec fn metadata_fault_fn() -> spec_fn(Seq<char>) -> Option<VultrError> {
    |s: Seq<char>| metadata_value_fault(s)
}

/// The trimmed form of each value of a list.
pub open spec fn trimmed_all(items: Seq<Seq<char>>) -> Seq<Seq<char>> {
    items.map_values(|s: Seq<char>| trim(s))
}

/// The first fault among a list of metadata values, scanning from the front.
pub open spec fn metadata_list_fault(items: Seq<Seq<char>>) -> Option<VultrError> {
    first_fault(items, metadata_fault_fn())
}

/// The fault of an optional metadata value, if it has one.
pub open spec fn optional_metadata_fault(v: Option<Seq<char>>) -> Option<VultrError> {
    match v {
        Some(s) => metadata_value_fault(s),
        None => None,
    }
}

/// The trimmed form of an optional value.
pub open spec fn option_trim(v: Option<Seq<char>>) -> Option<Seq<char>> {
    match v {
        Some(s) => Some(trim(s)),
        None => None,
    }
}

/// Validates one metadata value.
fn validated_metadata_value(value: &str) -> (r: Result<String, VultrError>)
    ensures
        string_result_view(r) == metadata_value_outcome(value@),
{
    vultr_check_token(value, MAX_DOCKER_OPTION_BYTES, CharClass::MetadataValue)
}

/// Validates an optional metadata value.
fn validate_optional_metadata_value(value: Option<String>) -> (r: Result<Option<String>, VultrError>)
    ensures
        match optional_metadata_fault(optional_text(value)) {
            Some(e) => r == Err::<Option<String>, VultrError>(e),
            None => r is Ok && optional_text(r->Ok_0) == option_trim(optional_text(value)),
        },
{
    match value {
        Some(v) => match validated_metadata_value(v.as_str()) {
            Ok(t) => Ok(Some(t)),
            Err(e) => Err(e),
        },
        None => Ok(None),
    }
}

/// Validates every value of a list, stopping at the first fault.
fn validate_metadata_values(values: Vec<String>) -> (r: Result<Vec<String>, VultrError>)
    ensures
        match metadata_list_fault(string_views(values@)) {
            Some(e) => r == Err::<Vec<String>, VultrError>(e),
            None => r is Ok && string_views(r->Ok_0@) == trimmed_all(string_views(values@)),
        },
{
    let ghost items = string_views(values@);
    let mut out: Vec<String> = Vec::new();
    let mut i: usize = 0;
    while i < values.len()
        invariant
            i <= values@.len(),
            items == string_views(values@),
            items.len() == values@.len(),
            forall|j: int| 0 <= j < i ==> metadata_fault_fn()(#[trigger] items[j]) is None,
            string_views(out@) == trimmed_all(items).subrange(0, i as int),
        decreases values@.len() - i,
    {
        assert(items[i as int] == values@[i as int]@);
        match validated_metadata_value(values[i].as_str()) {
            Ok(t) => {
                assert(t@ == trim(items[i as int]));
                assert(trimmed_all(items)[i as int] == trim(items[i as int]));
                let ghost before = out@;
                out.push(t);
                assert(out@ == before.push(t));
                assert(string_views(out@) =~= string_views(before).push(t@));
                i = i + 1;
                assert(string_views(out@) =~= trimmed_all(items).subrange(0, i as int));
            },
            Err(e) => {
                proof {
                    lemma_first_fault_at(items, metadata_fault_fn(), i as int);
                }
                return Err(e);
            },
        }
    }
    proof {
        lemma_first_fault_none(items, metadata_fault_fn());
        assert(trimmed_all(items).subrange(0, i as int) =~= trimmed_all(items));
    }
    Ok(out)
}

/// The first fault among the node metadata inputs, in the order in which
/// they are checked.
pub open spec fn server_metadata_fault(
    dc: Seq<char>,
    datacenters: Seq<Seq<char>>,
    server_id: Seq<char>,
    private_ip: Option<Seq<char>>,
    extra_private_ips: Seq<Seq<char>>,
    service_name: Seq<char>,
    docker_name: Seq<char>,
    ports: Seq<Seq<char>>,
    cluster_id: Seq<char>,
    role: Seq<char>,
) -> Option<VultrError> {
    if metadata_value_fault(dc) is Some {
        metadata_value_fault(dc)
    } else if metadata_list_fault(datacenters) is Some {
        metadata_list_fault(datacenters)
    } else if metadata_value_fault(server_id) is Some {
        metadata_value_fault(server_id)
    } else if optional_metadata_fault(private_ip) is Some {
        optional_metadata_fault(private_ip)
    } else if metadata_list_fault(extra_private_ips) is Some {
        metadata_list_fault(extra_private_ips)
    } else if metadata_value_fault(service_name) is Some {
        metadata_value_fault(service_name)
    } else if metadata_value_fault(docker_name) is Some {
        metadata_value_fault(docker_name)
    } else if metadata_list_fault(ports) is Some {
        metadata_list_fault(ports)
    } else if metadata_value_fault(cluster_id) is Some {
        metadata_value_fault(cluster_id)
    } else {
        metadata_value_fault(role)
    }
}

/// Node metadata carried from Hephaestus into `/etc/hephaestus/server.json`.
#[derive(Debug, Clone, PartialEq, Eq)]
pub struct HephaestusServerMetadata {
    dc: String,
    datacenters: Vec<String>,
    server_id: String,
    private_ip: Option<String>,
    extra_private_ips: Vec<String>,
    service_name: String,
    docker_name: String,
    disable_dns: bool,
    firewall: bool,
    ports: Vec<String>,
    cluster_id: String,
    role: String,
}

impl HephaestusServerMetadata {
    /// The dc.
    pub closed spec fn spec_dc(&self) -> Seq<char> {
        self.dc@
    }

    /// The datacenters.
    pub closed spec fn spec_datacenters(&self) -> Seq<Seq<char>> {
        string_views(self.datacenters@)
    }

    /// The server id.
    pub closed spec fn spec_server_id(&self) -> Seq<char> {
        self.server_id@
    }

    /// The private ip.
    pub closed spec fn spec_private_ip(&self) -> Option<Seq<char>> {
        optional_text(self.private_ip)
    }

    /// The extra private ips.
    pub closed spec fn spec_extra_private_ips(&self) -> Seq<Seq<char>> {
        string_views(self.extra_private_ips@)
    }

    /// The service name.
    pub closed spec fn spec_service_name(&self) -> Seq<char> {
        self.service_name@
    }

    /// The docker name.
    pub closed spec fn spec_docker_name(&self) -> Seq<char> {
        self.docker_name@
    }

    /// The disable dns.
    pub closed spec fn spec_disable_dns(&self) -> bool {
        self.disable_dns
    }

    /// The firewall.
    pub closed spec fn spec_firewall(&self) -> bool {
        self.firewall
    }

    /// The ports.
    pub closed spec fn spec_ports(&self) -> Seq<Seq<char>> {
        string_views(self.ports@)
    }

    /// The cluster id.
    pub closed spec fn spec_cluster_id(&self) -> Seq<char> {
        self.cluster_id@
    }

    /// The role.
    pub closed spec fn spec_role(&self) -> Seq<char> {
        self.role@
    }

    /// Constructs validated node metadata for the current Hephaestus
    /// bootstrap shape used by cloud-init and the local node agent. Every
    /// value is trimmed; the first value that fails the metadata rules
    /// decides the error.
    pub fn new(
        dc: &str,
        datacenters: Vec<String>,
        server_id: &str,
        private_ip: Option<String>,
        extra_private_ips: Vec<String>,
        service_name: &str,
        docker_name: &str,
        disable_dns: bool,
        firewall: bool,
        ports: Vec<String>,
        cluster_id: &str,
        role: &str,
    ) -> (r: Result<Self, VultrError>)
        ensures
            match server_metadata_fault(
                dc@,
                string_views(datacenters@),
                server_id@,
                optional_text(private_ip),
                string_views(extra_private_ips@),
                service_name@,
                docker_name@,
                string_views(ports@),
                cluster_id@,
                role@,
            ) {
                Some(e) => r == Err::<Self, VultrError>(e),
                None => {
                    &&& r is Ok
                    &&& r->Ok_0.spec_dc() == trim(dc@)
                    &&& r->Ok_0.spec_datacenters() == trimmed_all(string_views(datacenters@))
                    &&& r->Ok_0.spec_server_id() == trim(server_id@)
                    &&& r->Ok_0.spec_private_ip() == option_trim(optional_text(private_ip))
                    &&& r->Ok_0.spec_extra_private_ips() == trimmed_all(
                        string_views(extra_private_ips@),
                    )
                    &&& r->Ok_0.spec_service_name() == trim(service_name@)
                    &&& r->Ok_0.spec_docker_name() == trim(docker_name@)
                    &&& r->Ok_0.spec_disable_dns() == disable_dns
                    &&& r->Ok_0.spec_firewall() == firewall
                    &&& r->Ok_0.spec_ports() == trimmed_all(string_views(ports@))
                    &&& r->Ok_0.spec_cluster_id() == trim(cluster_id@)
                    &&& r->Ok_0.spec_role() == trim(role@)
                },
            },
    {
        let dc = validated_metadata_value(dc)?;
        let datacenters = validate_metadata_values(datacenters)?;
        let server_id = validated_metadata_value(server_id)?;
        let private_ip = validate_optional_metadata_value(private_ip)?;
        let extra_private_ips = validate_metadata_values(extra_private_ips)?;
        let service_name = validated_metadata_value(service_name)?;
        let docker_name = validated_metadata_value(docker_name)?;
        let ports = validate_metadata_values(ports)?;
        let cluster_id = validated_metadata_value(cluster_id)?;
        let role = validated_metadata_value(role)?;
        Ok(HephaestusServerMetadata {
            dc,
            datacenters,
            server_id,
            private_ip,
            extra_private_ips,
            service_name,
            docker_name,
            disable_dns,
            firewall,
            ports,
            cluster_id,
            role,
        })
    }

    /// Returns the datacenter code.
    pub fn dc(&self) -> (r: &str)
        ensures
            r@ == self.spec_dc(),
    {
        self.dc.as_str()
    }

    /// Returns the server identifier.
    pub fn server_id(&self) -> (r: &str)
        ensures
            r@ == self.spec_server_id(),
    {
        self.server_id.as_str()
    }

    /// Returns the private IP when one was reserved ahead of create.
    pub fn private_ip(&self) -> (r: Option<&str>)
        ensures
            match r {
                Some(s) => self.spec_private_ip() == Some(s@),
                None => self.spec_private_ip() is None,
            },
    {
        match &self.private_ip {
            Some(s) => Some(s.as_str()),
            None => None,
        }
    }

    /// Returns container ports exposed to external traffic.
    pub fn ports(&self) -> (r: &[String])
        ensures
            string_views(r@) == self.spec_ports(),
    {
        self.ports.as_slice()
    }
}

/// Bootstrap settings for the small Hephaestus node agent container. It has
/// no `Debug`, so that its secrets never reach logs.
#[derive(Clone, PartialEq, Eq)]
pub struct HephaestusAgentCloudInitSpec {
    image: DockerImageReference,
    container_name: DockerContainerName,
    callback_base_url: HephaestusControllerBaseUrl,
    boot_secret: HephaestusAgentBootSecret,
    control_secret: HephaestusAgentControlSecret,
}

impl HephaestusAgentCloudInitSpec {
    /// The image.
    pub closed spec fn spec_image(&self) -> DockerImageReference {
        self.image
    }

    /// The container name.
    pub closed spec fn spec_container_name(&self) -> DockerContainerName {
        self.container_name
    }

    /// The callback base url.
    pub closed spec fn spec_callback_base_url(&self) -> HephaestusControllerBaseUrl {
        self.callback_base_url
    }

    /// The boot secret.
    pub closed spec fn spec_boot_secret(&self) -> HephaestusAgentBootSecret {
        self.boot_secret
    }

    /// The control secret.
    pub closed spec fn spec_control_secret(&self) -> HephaestusAgentControlSecret {
        self.control_secret
    }

    /// Constructs a Hephaestus agent bootstrap spec.
    pub fn new(
        image: DockerImageReference,
        container_name: DockerContainerName,
        callback_base_url: HephaestusControllerBaseUrl,
        boot_secret: HephaestusAgentBootSecret,
        control_secret: HephaestusAgentControlSecret,
    ) -> (r: Self)
        ensures
            r.spec_image() == image,
            r.spec_container_name() == container_name,
            r.spec_callback_base_url() == callback_base_url,
            r.spec_boot_secret() == boot_secret,
            r.spec_control_secret() == control_secret,
    {
        HephaestusAgentCloudInitSpec { image, container_name, callback_base_url, boot_secret, control_secret }
    }

    /// Returns the Docker image.
    pub fn image(&self) -> (r: &DockerImageReference)
        ensures
            *r == self.spec_image(),
    {
        &self.image
    }

    /// Returns the Docker container name.
    pub fn container_name(&self) -> (r: &DockerContainerName)
        ensures
            *r == self.spec_container_name(),
    {
        &self.container_name
    }

    /// Returns the Hephaestus controller callback base URL.
    pub fn callback_base_url(&self) -> (r: &HephaestusControllerBaseUrl)
        ensures
            *r == self.spec_callback_base_url(),
    {
        &self.callback_base_url
    }

    /// Returns the one-time boot secret.
    pub fn boot_secret(&self) -> (r: &HephaestusAgentBootSecret)
        ensures
            *r == self.spec_boot_secret(),
    {
        &self.boot_secret
    }

    /// Returns the shared control secret.
    pub fn control_secret(&self) -> (r: &HephaestusAgentControlSecret)
        ensures
            *r == self.spec_control_secret(),
    {
        &self.control_secret
    }

}

impl Duplicate for HephaestusAgentCloudInitSpec {
    fn duplicate(&self) -> (r: Self) {
        HephaestusAgentCloudInitSpec {
            image: self.image.duplicate(),
            container_name: self.container_name.duplicate(),
            callback_base_url: self.callback_base_url.duplicate(),
            boot_secret: self.boot_secret.duplicate(),
            control_secret: self.control_secret.duplicate(),
        }
    }
}

/// App bootstrap input for a single Docker container on a new VPS.
#[derive(Clone, PartialEq, Eq)]
pub struct DockerCloudInitSpec {
    image: DockerImageReference,
    container_name: DockerContainerName,
    restart_policy: DockerRestartPolicy,
    host_network: bool,
    ssh_authorized_key: Option<SshAuthorizedKey>,
    hephaestus_agent: Option<HephaestusAgentCloudInitSpec>,
    dns_resolvers: Vec<DockerDnsResolver>,
    volumes: Vec<DockerVolumeMount>,
    arguments: Vec<DockerRunArgument>,
    metadata: Option<HephaestusServerMetadata>,
}

impl DockerCloudInitSpec {
    /// The image.
    pub closed spec fn spec_image(&self) -> DockerImageReference {
        self.image
    }

    /// The container name.
    pub closed spec fn spec_container_name(&self) -> DockerContainerName {
        self.container_name
    }

    /// The restart policy.
    pub closed spec fn spec_restart_policy(&self) -> DockerRestartPolicy {
        self.restart_policy
    }

    /// The host network.
    pub closed spec fn spec_host_network(&self) -> bool {
        self.host_network
    }

    /// The ssh authorized key.
    pub closed spec fn spec_ssh_authorized_key(&self) -> Option<SshAuthorizedKey> {
        self.ssh_authorized_key
    }

    /// The hephaestus agent.
    pub closed spec fn spec_hephaestus_agent(&self) -> Option<HephaestusAgentCloudInitSpec> {
        self.hephaestus_agent
    }

    /// The dns resolvers.
    pub closed spec fn spec_dns_resolvers(&self) -> Seq<DockerDnsResolver> {
        self.dns_resolvers@
    }

    /// The volumes.
    pub closed spec fn spec_volumes(&self) -> Seq<DockerVolumeMount> {
        self.volumes@
    }

    /// The arguments.
    pub closed spec fn spec_arguments(&self) -> Seq<DockerRunArgument> {
        self.arguments@
    }

    /// The metadata.
    pub closed spec fn spec_metadata(&self) -> Option<HephaestusServerMetadata> {
        self.metadata
    }

    /// Constructs a Docker cloud-init specification with no key, agent,
    /// resolvers, volumes, arguments or metadata.
    pub fn new(
        image: DockerImageReference,
        container_name: DockerContainerName,
        restart_policy: DockerRestartPolicy,
        host_network: bool,
    ) -> (r: Self)
        ensures
            r.spec_image() == image,
            r.spec_container_name() == container_name,
            r.spec_restart_policy() == restart_policy,
            r.spec_host_network() == host_network,
            r.spec_ssh_authorized_key() is None,
            r.spec_hephaestus_agent() is None,
            r.spec_dns_resolvers() == Seq::<DockerDnsResolver>::empty(),
            r.spec_volumes() == Seq::<DockerVolumeMount>::empty(),
            r.spec_arguments() == Seq::<DockerRunArgument>::empty(),
            r.spec_metadata() is None,
    {
        DockerCloudInitSpec {
            image,
            container_name,
            restart_policy,
            host_network,
            ssh_authorized_key: None,
            hephaestus_agent: None,
            dns_resolvers: Vec::new(),
            volumes: Vec::new(),
            arguments: Vec::new(),
            metadata: None,
        }
    }

    /// Returns the Docker image.
    pub fn image(&self) -> (r: &DockerImageReference)
        ensures
            *r == self.spec_image(),
    {
        &self.image
    }

    /// Returns the container name.
    pub fn container_name(&self) -> (r: &DockerContainerName)
        ensures
            *r == self.spec_container_name(),
    {
        &self.container_name
    }

    /// Returns the restart policy.
    pub fn restart_policy(&self) -> (r: DockerRestartPolicy)
        ensures
            r == self.spec_restart_policy(),
    {
        self.restart_policy
    }

    /// Returns whether Docker host networking should be used.
    pub fn host_network(&self) -> (r: bool)
        ensures
            r == self.spec_host_network(),
    {
        self.host_network
    }

    /// Returns the optional SSH authorized key.
    pub fn ssh_authorized_key(&self) -> (r: Option<&SshAuthorizedKey>)
        ensures
            r == match self.spec_ssh_authorized_key() {
                Some(v) => Some(&v),
                None => None::<&SshAuthorizedKey>,
            },
    {
        self.ssh_authorized_key.as_ref()
    }

    /// Returns the optional Hephaestus agent bootstrap spec.
    pub fn hephaestus_agent(&self) -> (r: Option<&HephaestusAgentCloudInitSpec>)
        ensures
            r == match self.spec_hephaestus_agent() {
                Some(v) => Some(&v),
                None => None::<&HephaestusAgentCloudInitSpec>,
            },
    {
        self.hephaestus_agent.as_ref()
    }

    /// Returns Docker DNS resolvers.
    pub fn dns_resolvers(&self) -> (r: &[DockerDnsResolver])
        ensures
            r@ == self.spec_dns_resolvers(),
    {
        self.dns_resolvers.as_slice()
    }

    /// Returns Docker volume mounts.
    pub fn volumes(&self) -> (r: &[DockerVolumeMount])
        ensures
            r@ == self.spec_volumes(),
    {
        self.volumes.as_slice()
    }

    /// Returns app command arguments.
    pub fn arguments(&self) -> (r: &[DockerRunArgument])
        ensures
            r@ == self.spec_arguments(),
    {
        self.arguments.as_slice()
    }

    /// Returns optional Hephaestus node metadata.
    pub fn metadata(&self) -> (r: Option<&HephaestusServerMetadata>)
        ensures
            r == match self.spec_metadata() {
                Some(v) => Some(&v),
                None => None::<&HephaestusServerMetadata>,
            },
    {
        self.metadata.as_ref()
    }

    /// Returns a copy of this spec with a root SSH authorized key.
    pub fn with_ssh_authorized_key(self, key: SshAuthorizedKey) -> (r: Self)
        ensures
            r.spec_ssh_authorized_key() == Some(key),
            r.spec_image() == self.spec_image(),
            r.spec_container_name() == self.spec_container_name(),
            r.spec_restart_policy() == self.spec_restart_policy(),
            r.spec_host_network() == self.spec_host_network(),
            r.spec_hephaestus_agent() == self.spec_hephaestus_agent(),
            r.spec_dns_resolvers() == self.spec_dns_resolvers(),
            r.spec_volumes() == self.spec_volumes(),
            r.spec_arguments() == self.spec_arguments(),
            r.spec_metadata() == self.spec_metadata(),
    {
        let mut s = self;
        s.ssh_authorized_key = Some(key);
        s
    }

    /// Returns a copy of this spec with the Hephaestus agent enabled.
    pub fn with_hephaestus_agent(self, agent: HephaestusAgentCloudInitSpec) -> (r: Self)
        ensures
            r.spec_hephaestus_agent() == Some(agent),
            r.spec_image() == self.spec_image(),
            r.spec_container_name() == self.spec_container_name(),
            r.spec_restart_policy() == self.spec_restart_policy(),
            r.spec_host_network() == self.spec_host_network(),
            r.spec_ssh_authorized_key() == self.spec_ssh_authorized_key(),
            r.spec_dns_resolvers() == self.spec_dns_resolvers(),
            r.spec_volumes() == self.spec_volumes(),
            r.spec_arguments() == self.spec_arguments(),
            r.spec_metadata() == self.spec_metadata(),
    {
        let mut s = self;
        s.hephaestus_agent = Some(agent);
        s
    }

    /// Returns a copy of this spec with Docker DNS resolvers.
    pub fn with_dns_resolvers(self, dns_resolvers: Vec<DockerDnsResolver>) -> (r: Self)
        ensures
            r.spec_dns_resolvers() == dns_resolvers@,
            r.spec_image() == self.spec_image(),
            r.spec_container_name() == self.spec_container_name(),
            r.spec_restart_policy() == self.spec_restart_policy(),
            r.spec_host_network() == self.spec_host_network(),
            r.spec_ssh_authorized_key() == self.spec_ssh_authorized_key(),
            r.spec_hephaestus_agent() == self.spec_hephaestus_agent(),
            r.spec_volumes() == self.spec_volumes(),
            r.spec_arguments() == self.spec_arguments(),
            r.spec_metadata() == self.spec_metadata(),
    {
        let mut s = self;
        s.dns_resolvers = dns_resolvers;
        s
    }

    /// Returns a copy of this spec with Docker volume mounts.
    pub fn with_volumes(self, volumes: Vec<DockerVolumeMount>) -> (r: Self)
        ensures
            r.spec_volumes() == volumes@,
            r.spec_image() == self.spec_image(),
            r.spec_container_name() == self.spec_container_name(),
            r.spec_restart_policy() == self.spec_restart_policy(),
            r.spec_host_network() == self.spec_host_network(),
            r.spec_ssh_authorized_key() == self.spec_ssh_authorized_key(),
            r.spec_hephaestus_agent() == self.spec_hephaestus_agent(),
            r.spec_dns_resolvers() == self.spec_dns_resolvers(),
            r.spec_arguments() == self.spec_arguments(),
            r.spec_metadata() == self.spec_metadata(),
    {
        let mut s = self;
        s.volumes = volumes;
        s
    }

    /// Returns a copy of this spec with app command arguments.
    pub fn with_arguments(self, arguments: Vec<DockerRunArgument>) -> (r: Self)
        ensures
            r.spec_arguments() == arguments@,
            r.spec_image() == self.spec_image(),
            r.spec_container_name() == self.spec_container_name(),
            r.spec_restart_policy() == self.spec_restart_policy(),
            r.spec_host_network() == self.spec_host_network(),
            r.spec_ssh_authorized_key() == self.spec_ssh_authorized_key(),
            r.spec_hephaestus_agent() == self.spec_hephaestus_agent(),
            r.spec_dns_resolvers() == self.spec_dns_resolvers(),
            r.spec_volumes() == self.spec_volumes(),
            r.spec_metadata() == self.spec_metadata(),
    {
        let mut s = self;
        s.arguments = arguments;
        s
    }

    /// Returns a copy of this spec with Hephaestus node metadata.
    pub fn with_metadata(self, metadata: HephaestusServerMetadata) -> (r: Self)
        ensures
            r.spec_metadata() == Some(metadata),
            r.spec_image() == self.spec_image(),
            r.spec_container_name() == self.spec_container_name(),
            r.spec_restart_policy() == self.spec_restart_policy(),
            r.spec_host_network() == self.spec_host_network(),
            r.spec_ssh_authorized_key() == self.spec_ssh_authorized_key(),
            r.spec_hephaestus_agent() == self.spec_hephaestus_agent(),
            r.spec_dns_resolvers() == self.spec_dns_resolvers(),
            r.spec_volumes() == self.spec_volumes(),
            r.spec_arguments() == self.spec_arguments(),
    {
        let mut s = self;
        s.metadata = Some(metadata);
        s
    }

}

} // verus!
