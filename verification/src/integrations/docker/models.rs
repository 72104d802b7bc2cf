//! How containers and Compose projects are compared, keyed and recorded.
use std::collections::hash_map::DefaultHasher;
use std::hash::{BuildHasher, BuildHasherDefault};
use vstd::prelude::*;
use vstd::string::*;
use crate::collections::{ordered, sort_texts, sorted, TextMap, TextPair};
use crate::domain::{
    command_line, identity_of, record_of, CleanupPolicy, CommandSpec, CommandSpecView, MountSpec,
    MountSpecView, OwnershipStatus, PortSpec, PortSpecView, ResourceIdentity, ResourceKind,
    ResourceRecord, ResourceRecordView,
};
use crate::error::{error_of, seen, ErrorCategory, WorkstateError, WorkstateErrorView};
use crate::ports::{
    DockerActionContext, DockerActionContextView, DockerComposeServiceSnapshot,
    DockerComposeServiceSnapshotView, DockerComposeSnapshot, DockerComposeSnapshotView,
    DockerContainerRequest, DockerContainerRequestView, DockerContainerSnapshot,
    DockerContainerSnapshotView, DockerContainerStateView, DockerHealthState,
    DockerHealthStateView, DockerMountSnapshot, DockerMountSnapshotView, DockerOperationStatus,
    DockerPortSnapshot, DockerPortSnapshotView,
};
use crate::text::{
    decimal, hexadecimal, join3, join5, lower, same_text, text_decimal, text_hexadecimal,
    text_lower,
};
use crate::values::{append, empty_list, option_is_text, Agree, Replicate};

verus! {

// ---------------------------------------------------------------------------------------------
// Comparing
// ---------------------------------------------------------------------------------------------
/// A mount as a snapshot shows it.
pub open spec fn mount_seen(mount: MountSpecView) -> DockerMountSnapshotView {
    DockerMountSnapshotView {
        source: mount.source,
        target: mount.target,
        read_only: mount.read_only,
    }
}

/// A published port as a snapshot shows it.
pub open spec fn port_seen(port: PortSpecView) -> DockerPortSnapshotView {
    DockerPortSnapshotView { host: port.host, container: port.container, protocol: port.protocol }
}

/// A container is what a request asks for where it has the name, and every setting that the request
/// makes: what the request leaves open may be anything.
pub open spec fn matches_request(
    request: DockerContainerRequestView,
    snapshot: DockerContainerSnapshotView,
) -> bool {
    let wanted = request.specification;
    &&& snapshot.name == wanted.name
    &&& wanted.image is Some ==> snapshot.image == wanted.image
    &&& wanted.command is Some ==> snapshot.command == wanted.command
    &&& wanted.environment != Map::<Seq<char>, Seq<char>>::empty() ==> snapshot.environment
        == wanted.environment
    &&& wanted.mounts.len() > 0 ==> snapshot.mounts.len() == wanted.mounts.len()
    &&& forall|i: int|
        0 <= i < wanted.mounts.len() ==> snapshot.mounts.contains(
            mount_seen(#[trigger] wanted.mounts[i]),
        )
    &&& wanted.ports.len() > 0 ==> snapshot.ports.len() == wanted.ports.len()
    &&& forall|i: int|
        0 <= i < wanted.ports.len() ==> snapshot.ports.contains(
            port_seen(#[trigger] wanted.ports[i]),
        )
}

fn mount_is_among(mounts: &Vec<DockerMountSnapshot>, mount: &MountSpec) -> (r: bool)
    ensures
        r == mounts.deep_view().contains(mount_seen(mount@)),
{
    let mut i: usize = 0;
    let ghost all = mounts.deep_view();
    while i < mounts.len()
        invariant
            i <= mounts@.len(),
            all == mounts.deep_view(),
            forall|k: int| 0 <= k < i ==> all[k] != mount_seen(mount@),
        decreases mounts@.len() - i,
    {
        assert(all[i as int] == mounts@[i as int]@);
        if mounts[i].source.agrees(&mount.source) && mounts[i].target.agrees(&mount.target)
            && mounts[i].read_only == mount.read_only {
            assert(all[i as int] == mount_seen(mount@));
            return true;
        }
        i = i + 1;
    }
    false
}

fn port_is_among(ports: &Vec<DockerPortSnapshot>, port: &PortSpec) -> (r: bool)
    ensures
        r == ports.deep_view().contains(port_seen(port@)),
{
    let mut i: usize = 0;
    let ghost all = ports.deep_view();
    while i < ports.len()
        invariant
            i <= ports@.len(),
            all == ports.deep_view(),
            forall|k: int| 0 <= k < i ==> all[k] != port_seen(port@),
        decreases ports@.len() - i,
    {
        assert(all[i as int] == ports@[i as int]@);
        if ports[i].host == port.host && ports[i].container == port.container
            && ports[i].protocol.agrees(&port.protocol) {
            assert(all[i as int] == port_seen(port@));
            return true;
        }
        i = i + 1;
    }
    false
}

/// Whether a container is what a request asks for.
pub fn container_matches(
    request: &DockerContainerRequest,
    snapshot: &DockerContainerSnapshot,
) -> (r: bool)
    ensures
        r == matches_request(request@, snapshot@),
{
    let wanted = &request.specification;
    if !snapshot.name.agrees(&wanted.name) {
        return false;
    }
    if wanted.image.is_some() && !wanted.image.agrees(&snapshot.image) {
        return false;
    }
    if wanted.command.is_some() && !wanted.command.agrees(&snapshot.command) {
        return false;
    }
    if !wanted.environment.is_empty() && !wanted.environment.agrees(&snapshot.environment) {
        return false;
    }
    if wanted.mounts.len() > 0 && wanted.mounts.len() != snapshot.mounts.len() {
        return false;
    }
    if wanted.ports.len() > 0 && wanted.ports.len() != snapshot.ports.len() {
        return false;
    }
    let mut i: usize = 0;
    while i < wanted.mounts.len()
        invariant
            i <= wanted.mounts@.len(),
            wanted@ == request@.specification,
            forall|k: int|
                0 <= k < i ==> snapshot@.mounts.contains(mount_seen(#[trigger] wanted@.mounts[k])),
        decreases wanted.mounts@.len() - i,
    {
        assert(wanted@.mounts[i as int] == wanted.mounts@[i as int]@);
        if !mount_is_among(&snapshot.mounts, &wanted.mounts[i]) {
            return false;
        }
        i = i + 1;
    }
    let mut j: usize = 0;
    while j < wanted.ports.len()
        invariant
            j <= wanted.ports@.len(),
            wanted@ == request@.specification,
            forall|k: int|
                0 <= k < j ==> snapshot@.ports.contains(port_seen(#[trigger] wanted@.ports[k])),
        decreases wanted.ports@.len() - j,
    {
        assert(wanted@.ports[j as int] == wanted.ports@[j as int]@);
        if !port_is_among(&snapshot.ports, &wanted.ports[j]) {
            return false;
        }
        j = j + 1;
    }
    true
}

// ---------------------------------------------------------------------------------------------
// Configuration keys
// ---------------------------------------------------------------------------------------------
/// What the `hash_one` of a default `DefaultHasher` returns for a configuration, on machines of the
/// given word size.
pub uninterp spec fn configuration_digest(
    word_bits: nat,
    name: Seq<char>,
    image: Option<Seq<char>>,
    command: Seq<char>,
    environment: Seq<Seq<char>>,
    mounts: Seq<Seq<char>>,
    ports: Seq<Seq<char>>,
) -> u64;

/// `BuildHasher::hash_one` of a `BuildHasherDefault<DefaultHasher>`, for the parts of a configuration in
/// this order. That hasher starts with fixed keys, so equal parts give equal hashes. The lengths of the
/// lists are hashed as `usize`, so the word size counts too. They are fed to the hasher in the byte order
/// of the machine, which, like the word size, is fixed for a build; it is no argument of the name. The
/// algorithm of the hasher, which std may change with a release, is left to the name as well.
#[verifier::external_body]
fn configuration_hash(
    name: &str,
    image: Option<&str>,
    command: &str,
    environment: &Vec<String>,
    mounts: &Vec<String>,
    ports: &Vec<String>,
) -> (r: u64)
    ensures
        r == configuration_digest(
            usize::BITS as nat,
            name@,
            image.deep_view(),
            command@,
            environment.deep_view(),
            mounts.deep_view(),
            ports.deep_view(),
        ),
{
    BuildHasherDefault::<DefaultHasher>::default().hash_one(
        (name, image, command, environment, mounts, ports),
    )
}

/// The key of a configuration: the digest of its parts, each list in ascending order, as sixteen
/// hexadecimal digits.
pub open spec fn configuration_key(
    name: Seq<char>,
    image: Option<Seq<char>>,
    command: Seq<char>,
    environment: Seq<Seq<char>>,
    mounts: Seq<Seq<char>>,
    ports: Seq<Seq<char>>,
) -> Seq<char> {
    hexadecimal(
        configuration_digest(
            usize::BITS as nat,
            name,
            image,
            command,
            sorted(environment),
            sorted(mounts),
            sorted(ports),
        ) as nat,
        16,
    )
}

fn hash_configuration(
    name: &str,
    image: &Option<String>,
    command: &str,
    environment: &Vec<String>,
    mounts: &Vec<String>,
    ports: &Vec<String>,
) -> (r: String)
    ensures
        r@ == configuration_key(
            name@,
            image.deep_view(),
            command@,
            environment.deep_view(),
            mounts.deep_view(),
            ports.deep_view(),
        ),
{
    let image = match image {
        Some(text) => Some(text.as_str()),
        None => None,
    };
    let digest = configuration_hash(
        name,
        image,
        command,
        &sort_texts(environment),
        &sort_texts(mounts),
        &sort_texts(ports),
    );
    text_hexadecimal(digest, 16)
}

/// A truth value in configuration keys.
pub open spec fn bool_text(value: bool) -> Seq<char> {
    if value {
        "true"@
    } else {
        "false"@
    }
}

/// A truth value in configuration keys.
pub fn text_of_bool(value: bool) -> (r: &'static str)
    ensures
        r@ == bool_text(value),
{
    if value {
        "true"
    } else {
        "false"
    }
}

pub open spec fn setting_line(entry: TextPair) -> Seq<char> {
    entry.0 + "="@ + entry.1
}

pub open spec fn mount_line(mount: DockerMountSnapshotView) -> Seq<char> {
    mount.source + ":"@ + mount.target + ":"@ + bool_text(mount.read_only)
}

pub open spec fn port_line(port: DockerPortSnapshotView) -> Seq<char> {
    decimal(port.host as nat) + ":"@ + decimal(port.container as nat) + ":"@ + port.protocol
}

pub open spec fn setting_lines(settings: Map<Seq<char>, Seq<char>>) -> Seq<Seq<char>> {
    ordered(settings).map_values(|entry: TextPair| setting_line(entry))
}

pub open spec fn command_text(command: Option<CommandSpecView>) -> Seq<char> {
    match command {
        Some(command) => command_line(command),
        None => Seq::empty(),
    }
}

/// The key of the configuration that a request asks for.
pub open spec fn request_key(request: DockerContainerRequestView) -> Seq<char> {
    let wanted = request.specification;
    configuration_key(
        wanted.name,
        wanted.image,
        command_text(wanted.command),
        setting_lines(wanted.environment),
        wanted.mounts.map_values(|mount: MountSpecView| mount_line(mount_seen(mount))),
        wanted.ports.map_values(|port: PortSpecView| port_line(port_seen(port))),
    )
}

/// The key of the configuration that a container has.
pub open spec fn snapshot_key(snapshot: DockerContainerSnapshotView) -> Seq<char> {
    configuration_key(
        snapshot.name,
        snapshot.image,
        command_text(snapshot.command),
        setting_lines(snapshot.environment),
        snapshot.mounts.map_values(|mount: DockerMountSnapshotView| mount_line(mount)),
        snapshot.ports.map_values(|port: DockerPortSnapshotView| port_line(port)),
    )
}

fn setting_lines_of(settings: &TextMap) -> (r: Vec<String>)
    ensures
        r.deep_view() == setting_lines(settings@),
{
    let entries = settings.entries();
    let ghost all = setting_lines(settings@);
    let mut r: Vec<String> = empty_list();
    let mut i: usize = 0;
    while i < entries.len()
        invariant
            i <= entries@.len(),
            entries.deep_view() == ordered(settings@),
            all == setting_lines(settings@),
            r.deep_view() == all.take(i as int),
        decreases entries@.len() - i,
    {
        assert(entries.deep_view()[i as int] == (entries@[i as int].0@, entries@[i as int].1@));
        append(&mut r, join3(entries[i].0.as_str(), "=", entries[i].1.as_str()));
        assert(all.take(i as int + 1) =~= all.take(i as int).push(all[i as int]));
        i = i + 1;
    }
    assert(all.take(i as int) =~= all);
    r
}

fn mount_line_of(source: &str, target: &str, read_only: bool) -> (r: String)
    ensures
        r@ == source@ + ":"@ + target@ + ":"@ + bool_text(read_only),
{
    join5(source, ":", target, ":", text_of_bool(read_only))
}

fn port_line_of(host: u16, container: u16, protocol: &str) -> (r: String)
    ensures
        r@ == decimal(host as nat) + ":"@ + decimal(container as nat) + ":"@ + protocol@,
{
    let host = text_decimal(host as u128);
    let container = text_decimal(container as u128);
    join5(host.as_str(), ":", container.as_str(), ":", protocol)
}

/// The key of the configuration that a request asks for.
pub fn container_configuration_key(request: &DockerContainerRequest) -> (r: String)
    ensures
        r@ == request_key(request@),
{
    let wanted = &request.specification;
    let environment = setting_lines_of(&wanted.environment);
    let mut mounts: Vec<String> = empty_list();
    let ghost mount_lines = wanted@.mounts.map_values(
        |mount: MountSpecView| mount_line(mount_seen(mount)),
    );
    let mut i: usize = 0;
    while i < wanted.mounts.len()
        invariant
            i <= wanted.mounts@.len(),
            mount_lines == wanted@.mounts.map_values(
                |mount: MountSpecView| mount_line(mount_seen(mount)),
            ),
            mounts.deep_view() == mount_lines.take(i as int),
        decreases wanted.mounts@.len() - i,
    {
        let mount = &wanted.mounts[i];
        assert(wanted@.mounts[i as int] == mount@);
        append(&mut mounts, mount_line_of(mount.source.as_str(), mount.target.as_str(), mount.read_only));
        assert(mount_lines.take(i as int + 1) =~= mount_lines.take(i as int).push(
            mount_lines[i as int],
        ));
        i = i + 1;
    }
    assert(mount_lines.take(i as int) =~= mount_lines);
    let mut ports: Vec<String> = empty_list();
    let ghost port_lines = wanted@.ports.map_values(
        |port: PortSpecView| port_line(port_seen(port)),
    );
    let mut j: usize = 0;
    while j < wanted.ports.len()
        invariant
            j <= wanted.ports@.len(),
            port_lines == wanted@.ports.map_values(|port: PortSpecView| port_line(port_seen(port))),
            ports.deep_view() == port_lines.take(j as int),
        decreases wanted.ports@.len() - j,
    {
        let port = &wanted.ports[j];
        assert(wanted@.ports[j as int] == port@);
        append(&mut ports, port_line_of(port.host, port.container, port.protocol.as_str()));
        assert(port_lines.take(j as int + 1) =~= port_lines.take(j as int).push(
            port_lines[j as int],
        ));
        j = j + 1;
    }
    assert(port_lines.take(j as int) =~= port_lines);
    hash_configuration(
        wanted.name.as_str(),
        &wanted.image,
        command_key(&wanted.command).as_str(),
        &environment,
        &mounts,
        &ports,
    )
}

/// The key of the configuration that a container has.
pub fn snapshot_configuration_key(snapshot: &DockerContainerSnapshot) -> (r: String)
    ensures
        r@ == snapshot_key(snapshot@),
{
    let environment = setting_lines_of(&snapshot.environment);
    let mut mounts: Vec<String> = empty_list();
    let ghost mount_lines = snapshot@.mounts.map_values(
        |mount: DockerMountSnapshotView| mount_line(mount),
    );
    let mut i: usize = 0;
    while i < snapshot.mounts.len()
        invariant
            i <= snapshot.mounts@.len(),
            mount_lines == snapshot@.mounts.map_values(
                |mount: DockerMountSnapshotView| mount_line(mount),
            ),
            mounts.deep_view() == mount_lines.take(i as int),
        decreases snapshot.mounts@.len() - i,
    {
        let mount = &snapshot.mounts[i];
        assert(snapshot@.mounts[i as int] == mount@);
        append(&mut mounts, mount_line_of(mount.source.as_str(), mount.target.as_str(), mount.read_only));
        assert(mount_lines.take(i as int + 1) =~= mount_lines.take(i as int).push(
            mount_lines[i as int],
        ));
        i = i + 1;
    }
    assert(mount_lines.take(i as int) =~= mount_lines);
    let mut ports: Vec<String> = empty_list();
    let ghost port_lines = snapshot@.ports.map_values(
        |port: DockerPortSnapshotView| port_line(port),
    );
    let mut j: usize = 0;
    while j < snapshot.ports.len()
        invariant
            j <= snapshot.ports@.len(),
            port_lines == snapshot@.ports.map_values(
                |port: DockerPortSnapshotView| port_line(port),
            ),
            ports.deep_view() == port_lines.take(j as int),
        decreases snapshot.ports@.len() - j,
    {
        let port = &snapshot.ports[j];
        assert(snapshot@.ports[j as int] == port@);
        append(&mut ports, port_line_of(port.host, port.container, port.protocol.as_str()));
        assert(port_lines.take(j as int + 1) =~= port_lines.take(j as int).push(
            port_lines[j as int],
        ));
        j = j + 1;
    }
    assert(port_lines.take(j as int) =~= port_lines);
    hash_configuration(
        snapshot.name.as_str(),
        &snapshot.image,
        command_key(&snapshot.command).as_str(),
        &environment,
        &mounts,
        &ports,
    )
}

/// The command line of a command, where there is one.
pub fn command_key(command: &Option<CommandSpec>) -> (r: String)
    ensures
        r@ == command_text(command.deep_view()),
{
    match command {
        Some(command) => command.display_line(),
        None => String::new(),
    }
}

/// Two configurations whose settings, mounts and ports are the same up to their order have one key.
pub proof fn law_key_ignores_order(
    name: Seq<char>,
    image: Option<Seq<char>>,
    command: Seq<char>,
    first: (Seq<Seq<char>>, Seq<Seq<char>>, Seq<Seq<char>>),
    second: (Seq<Seq<char>>, Seq<Seq<char>>, Seq<Seq<char>>),
)
    requires
        first.0.to_multiset() == second.0.to_multiset(),
        first.1.to_multiset() == second.1.to_multiset(),
        first.2.to_multiset() == second.2.to_multiset(),
    ensures
        configuration_key(name, image, command, first.0, first.1, first.2) == configuration_key(
            name,
            image,
            command,
            second.0,
            second.1,
            second.2,
        ),
{
    crate::collections::law_sorting_ignores_order(first.0, second.0);
    crate::collections::law_sorting_ignores_order(first.1, second.1);
    crate::collections::law_sorting_ignores_order(first.2, second.2);
}

// ---------------------------------------------------------------------------------------------
// Records
// ---------------------------------------------------------------------------------------------
/// What is recorded of a container, before the operation that takes it down is noted.
pub open spec fn container_note(
    context: DockerActionContextView,
    request: DockerContainerRequestView,
    snapshot: DockerContainerSnapshotView,
    resource: crate::domain::ResourceIdentityView,
    ownership: OwnershipStatus,
    observed_before: bool,
) -> ResourceRecordView {
    record_of(
        resource,
        ownership,
        context.action_id,
        observed_before,
        context.cleanup_policy,
    ).noting("container_name"@, snapshot.name).noting(
        "configuration_key"@,
        request_key(request),
    ).noting("environment"@, context.environment)
}

/// A record with the operation that takes the resource down, where there is one.
pub open spec fn noting_operation(
    record: ResourceRecordView,
    operation: Option<Seq<char>>,
) -> ResourceRecordView {
    match operation {
        Some(operation) => record.noting("cleanup_operation"@, operation),
        None => record,
    }
}

/// What is recorded of a container.
pub open spec fn container_recorded(
    context: DockerActionContextView,
    request: DockerContainerRequestView,
    snapshot: DockerContainerSnapshotView,
    ownership: OwnershipStatus,
    observed_before: bool,
    operation: Option<Seq<char>>,
) -> Result<ResourceRecordView, WorkstateErrorView> {
    match identity_of(ResourceKind::DockerContainer, snapshot.id) {
        Err(error) => Err(error),
        Ok(resource) => Ok(
            noting_operation(
                container_note(context, request, snapshot, resource, ownership, observed_before),
                operation,
            ),
        ),
    }
}

/// What takes an owned container down, where nothing else is said.
pub open spec fn default_operation(ownership: OwnershipStatus) -> Option<Seq<char>> {
    if ownership.owned() {
        Some("remove"@)
    } else {
        None
    }
}

/// The record of a container; one that the environment owns is removed with it.
pub fn container_record(
    context: &DockerActionContext,
    request: &DockerContainerRequest,
    snapshot: &DockerContainerSnapshot,
    ownership: OwnershipStatus,
    observed_before: bool,
) -> (r: Result<ResourceRecord, WorkstateError>)
    ensures
        seen(r) == container_recorded(
            context@,
            request@,
            snapshot@,
            ownership,
            observed_before,
            default_operation(ownership),
        ),
{
    let operation = if ownership.is_environment_owned() {
        Some("remove")
    } else {
        None
    };
    container_record_with_cleanup(context, request, snapshot, ownership, observed_before, operation)
}

/// The record of a container, with the operation that takes it down.
pub fn container_record_with_cleanup(
    context: &DockerActionContext,
    request: &DockerContainerRequest,
    snapshot: &DockerContainerSnapshot,
    ownership: OwnershipStatus,
    observed_before: bool,
    cleanup_operation: Option<&str>,
) -> (r: Result<ResourceRecord, WorkstateError>)
    ensures
        seen(r) == container_recorded(
            context@,
            request@,
            snapshot@,
            ownership,
            observed_before,
            cleanup_operation.deep_view(),
        ),
{
    match ResourceIdentity::new(ResourceKind::DockerContainer, snapshot.id.clone()) {
        Err(error) => Err(error),
        Ok(resource) => {
            let mut record = ResourceRecord::of_action(
                resource,
                ownership,
                context.action_id.as_str(),
                observed_before,
                context.cleanup_policy,
            );
            record.note("container_name", snapshot.name.as_str());
            record.note("configuration_key", container_configuration_key(request).as_str());
            record.note("environment", context.environment.as_str());
            if let Some(operation) = cleanup_operation {
                record.note("cleanup_operation", operation);
            }
            Ok(record)
        },
    }
}

/// The identity of a Compose project: its name and where it lives.
pub fn compose_project_identity(project_name: &str, working_directory: &str) -> (r: String)
    ensures
        r@ == project_name@ + "@"@ + working_directory@,
{
    join3(project_name, "@", working_directory)
}

/// What is recorded of a Compose project.
pub open spec fn compose_recorded(
    context: DockerActionContextView,
    snapshot: DockerComposeSnapshotView,
    ownership: OwnershipStatus,
) -> Result<ResourceRecordView, WorkstateErrorView> {
    match identity_of(
        ResourceKind::DockerCompose,
        snapshot.project_name + "@"@ + snapshot.working_directory,
    ) {
        Err(error) => Err(error),
        Ok(resource) => Ok(
            record_of(
                resource,
                ownership,
                context.action_id,
                ownership != OwnershipStatus::CreatedByCurrentRun,
                context.cleanup_policy,
            ).noting("project_name"@, snapshot.project_name).noting(
                "working_directory"@,
                snapshot.working_directory,
            ).noting("environment"@, context.environment),
        ),
    }
}

/// The record of a Compose project.
pub fn compose_record(
    context: &DockerActionContext,
    snapshot: &DockerComposeSnapshot,
    ownership: OwnershipStatus,
) -> (r: Result<ResourceRecord, WorkstateError>)
    ensures
        seen(r) == compose_recorded(context@, snapshot@, ownership),
{
    let identity = compose_project_identity(
        snapshot.project_name.as_str(),
        snapshot.working_directory.as_str(),
    );
    match ResourceIdentity::new(ResourceKind::DockerCompose, identity) {
        Err(error) => Err(error),
        Ok(resource) => {
            let mut record = ResourceRecord::of_action(
                resource,
                ownership,
                context.action_id.as_str(),
                ownership != OwnershipStatus::CreatedByCurrentRun,
                context.cleanup_policy,
            );
            record.note("project_name", snapshot.project_name.as_str());
            record.note("working_directory", snapshot.working_directory.as_str());
            record.note("environment", context.environment.as_str());
            Ok(record)
        },
    }
}

/// What is recorded of the container of one service.
pub open spec fn service_recorded(
    context: DockerActionContextView,
    snapshot: DockerComposeSnapshotView,
    service: DockerComposeServiceSnapshotView,
    container_id: Seq<char>,
    ownership: OwnershipStatus,
    operation: Option<Seq<char>>,
) -> Result<ResourceRecordView, WorkstateErrorView> {
    match identity_of(ResourceKind::DockerContainer, container_id) {
        Err(error) => Err(error),
        Ok(resource) => Ok(
            noting_operation(
                record_of(
                    resource,
                    ownership,
                    context.action_id,
                    ownership != OwnershipStatus::CreatedByCurrentRun || operation == Some("stop"@),
                    context.cleanup_policy,
                ).noting("compose_project"@, snapshot.project_name).noting(
                    "compose_working_directory"@,
                    snapshot.working_directory,
                ).noting("service_name"@, service.name),
                operation,
            ),
        ),
    }
}

/// What is recorded of the containers of the first services, in their order; a service without a
/// container is passed over, and the first identity that cannot be recorded ends it.
pub open spec fn services_recorded(
    context: DockerActionContextView,
    snapshot: DockerComposeSnapshotView,
    services: Seq<DockerComposeServiceSnapshotView>,
    ownership: OwnershipStatus,
    operation: Option<Seq<char>>,
) -> Result<Seq<ResourceRecordView>, WorkstateErrorView>
    decreases services.len(),
{
    if services.len() == 0 {
        Ok(Seq::empty())
    } else {
        match services_recorded(context, snapshot, services.drop_last(), ownership, operation) {
            Err(error) => Err(error),
            Ok(records) => match services.last().container_id {
                None => Ok(records),
                Some(id) => match service_recorded(
                    context,
                    snapshot,
                    services.last(),
                    id,
                    ownership,
                    operation,
                ) {
                    Err(error) => Err(error),
                    Ok(record) => Ok(records.push(record)),
                },
            },
        }
    }
}

proof fn lemma_services_recorded_failed(
    context: DockerActionContextView,
    snapshot: DockerComposeSnapshotView,
    services: Seq<DockerComposeServiceSnapshotView>,
    ownership: OwnershipStatus,
    operation: Option<Seq<char>>,
    upto: int,
)
    requires
        0 <= upto <= services.len(),
        services_recorded(context, snapshot, services.take(upto), ownership, operation) is Err,
    ensures
        services_recorded(context, snapshot, services, ownership, operation)
            == services_recorded(context, snapshot, services.take(upto), ownership, operation),
    decreases services.len(),
{
    if upto == services.len() {
        assert(services.take(upto) =~= services);
    } else {
        assert(services.drop_last().take(upto) =~= services.take(upto));
        lemma_services_recorded_failed(
            context,
            snapshot,
            services.drop_last(),
            ownership,
            operation,
            upto,
        );
    }
}

/// The records of the containers of a Compose project; those that the environment owns are removed
/// with it.
pub fn compose_service_records(
    context: &DockerActionContext,
    snapshot: &DockerComposeSnapshot,
    ownership: OwnershipStatus,
) -> (r: Result<Vec<ResourceRecord>, WorkstateError>)
    ensures
        seen(r) == services_recorded(
            context@,
            snapshot@,
            snapshot@.services,
            ownership,
            default_operation(ownership),
        ),
{
    let operation = if ownership.is_environment_owned() {
        Some("remove")
    } else {
        None
    };
    compose_service_records_with_cleanup(context, snapshot, ownership, operation)
}

/// The records of the containers of a Compose project, with the operation that takes them down.
pub fn compose_service_records_with_cleanup(
    context: &DockerActionContext,
    snapshot: &DockerComposeSnapshot,
    ownership: OwnershipStatus,
    cleanup_operation: Option<&str>,
) -> (r: Result<Vec<ResourceRecord>, WorkstateError>)
    ensures
        seen(r) == services_recorded(
            context@,
            snapshot@,
            snapshot@.services,
            ownership,
            cleanup_operation.deep_view(),
        ),
{
    let mut records: Vec<ResourceRecord> = empty_list();
    let ghost all = snapshot@.services;
    let ghost operation = cleanup_operation.deep_view();
    let stops = match cleanup_operation {
        Some(operation) => same_text(operation, "stop"),
        None => false,
    };
    let mut i: usize = 0;
    assert(all.take(0) =~= Seq::<DockerComposeServiceSnapshotView>::empty());
    while i < snapshot.services.len()
        invariant
            i <= snapshot.services@.len(),
            all == snapshot@.services,
            operation == cleanup_operation.deep_view(),
            stops == (operation == Some("stop"@)),
            services_recorded(context@, snapshot@, all.take(i as int), ownership, operation) == Ok::<
                Seq<ResourceRecordView>,
                WorkstateErrorView,
            >(records.deep_view()),
        decreases snapshot.services@.len() - i,
    {
        let service = &snapshot.services[i];
        assert(all[i as int] == service@);
        assert(all.take(i as int + 1).drop_last() =~= all.take(i as int));
        if let Some(id) = &service.container_id {
            match ResourceIdentity::new(ResourceKind::DockerContainer, id.clone()) {
                Err(error) => {
                    proof {
                        lemma_services_recorded_failed(
                            context@,
                            snapshot@,
                            all,
                            ownership,
                            operation,
                            i as int + 1,
                        );
                    }
                    return Err(error);
                },
                Ok(resource) => {
                    let mut record = ResourceRecord::of_action(
                        resource,
                        ownership,
                        context.action_id.as_str(),
                        ownership != OwnershipStatus::CreatedByCurrentRun || stops,
                        context.cleanup_policy,
                    );
                    record.note("compose_project", snapshot.project_name.as_str());
                    record.note("compose_working_directory", snapshot.working_directory.as_str());
                    record.note("service_name", service.name.as_str());
                    if let Some(operation) = cleanup_operation {
                        record.note("cleanup_operation", operation);
                    }
                    append(&mut records, record);
                },
            }
        }
        i = i + 1;
    }
    assert(all.take(i as int) =~= all);
    Ok(records)
}

// ---------------------------------------------------------------------------------------------
// Judging
// ---------------------------------------------------------------------------------------------
/// A service that runs and whose health does not stand in the way.
pub open spec fn service_ready(service: DockerComposeServiceSnapshotView) -> bool {
    service.state == DockerContainerStateView::Running && service.health.ready()
}

/// Whether a service runs and is healthy.
pub fn compose_service_is_ready(service: &DockerComposeServiceSnapshot) -> (r: bool)
    ensures
        r == service_ready(service@),
{
    service.state.is_running() && service.health.satisfies_readiness()
}

/// Whether an operation changed anything.
pub fn operation_changed(status: DockerOperationStatus) -> (r: bool)
    ensures
        r == (status == DockerOperationStatus::Created || status
            == DockerOperationStatus::Repaired),
{
    status == DockerOperationStatus::Created || status == DockerOperationStatus::Repaired
}

/// A record tells of a container where it has its name and the key of what is asked for, and the
/// container still is what is asked for.
pub open spec fn record_tells_of(
    record: ResourceRecordView,
    request: DockerContainerRequestView,
    snapshot: DockerContainerSnapshotView,
) -> bool {
    record.note("container_name"@) == Some(snapshot.name) && matches_request(request, snapshot)
        && record.note("configuration_key"@) == Some(request_key(request))
}

/// Whether a record tells of a container.
pub fn record_matches_snapshot(
    record: &ResourceRecord,
    request: &DockerContainerRequest,
    snapshot: &DockerContainerSnapshot,
) -> (r: bool)
    ensures
        r == record_tells_of(record@, request@, snapshot@),
{
    option_is_text(
        &record.integration_metadata.get("container_name"),
        snapshot.name.as_str(),
    ) && container_matches(request, snapshot) && option_is_text(
        &record.integration_metadata.get("configuration_key"),
        container_configuration_key(request).as_str(),
    )
}

/// A container that runs and whose health does not stand in the way.
pub open spec fn container_ready(snapshot: DockerContainerSnapshotView) -> bool {
    snapshot.state == DockerContainerStateView::Running && snapshot.health.ready()
}

/// Whether a container runs and is healthy.
pub fn healthy_container(snapshot: &DockerContainerSnapshot) -> (r: bool)
    ensures
        r == container_ready(snapshot@),
{
    snapshot.state.is_running() && snapshot.health.satisfies_readiness()
}

/// The cleanup policy of the given name; only `preserve` keeps resources.
pub fn cleanup_policy(value: Option<&str>) -> (r: CleanupPolicy)
    ensures
        r == (if value.deep_view() == Some("preserve"@) {
            CleanupPolicy::Preserve
        } else {
            CleanupPolicy::OwnedOnly
        }),
{
    match value {
        Some(text) => if same_text(text, "preserve") {
            CleanupPolicy::Preserve
        } else {
            CleanupPolicy::OwnedOnly
        },
        None => CleanupPolicy::OwnedOnly,
    }
}

/// The health that a label stands for, whatever the case of its letters.
pub open spec fn health_of_label(label: Option<Seq<char>>) -> DockerHealthStateView {
    let text = lower(
        match label {
            Some(text) => text,
            None => ""@,
        },
    );
    if text == "healthy"@ {
        DockerHealthStateView::Healthy
    } else if text == "unhealthy"@ {
        DockerHealthStateView::Unhealthy
    } else if text == "starting"@ {
        DockerHealthStateView::Starting
    } else if text == ""@ {
        DockerHealthStateView::Unreported
    } else {
        DockerHealthStateView::Unknown(text)
    }
}

/// The health that a label stands for, whatever the case of its letters.
pub fn health_from_label(value: Option<&str>) -> (r: DockerHealthState)
    ensures
        r@ == health_of_label(value.deep_view()),
{
    let text = match value {
        Some(text) => text_lower(text),
        None => text_lower(""),
    };
    if same_text(text.as_str(), "healthy") {
        DockerHealthState::Healthy
    } else if same_text(text.as_str(), "unhealthy") {
        DockerHealthState::Unhealthy
    } else if same_text(text.as_str(), "starting") {
        DockerHealthState::Starting
    } else if same_text(text.as_str(), "") {
        DockerHealthState::Unreported
    } else {
        DockerHealthState::Unknown(text)
    }
}

/// The error of a snapshot that cannot be used.
pub fn invalid_snapshot(message: &str) -> (r: WorkstateError)
    ensures
        r@ == error_of(ErrorCategory::Integration, message@),
{
    WorkstateError::new(ErrorCategory::Integration, message)
}

/// A path as text.
pub fn path_string(path: &str) -> (r: String)
    ensures
        r@ == path@,
{
    path.to_owned()
}

/// A mount of a container.
pub fn mount_snapshot(source: &str, target: &str, read_only: bool) -> (r: DockerMountSnapshot)
    ensures
        r@ == (DockerMountSnapshotView { source: source@, target: target@, read_only }),
{
    DockerMountSnapshot { source: source.to_owned(), target: target.to_owned(), read_only }
}

/// A container that is recorded when it is what is asked for is found again by its record.
pub proof fn law_record_finds_container(
    context: DockerActionContextView,
    request: DockerContainerRequestView,
    snapshot: DockerContainerSnapshotView,
    ownership: OwnershipStatus,
    observed_before: bool,
    operation: Option<Seq<char>>,
)
    requires
        matches_request(request, snapshot),
        !crate::text::is_blank(snapshot.id),
    ensures
        container_recorded(context, request, snapshot, ownership, observed_before, operation)
            matches Ok(record) && record_tells_of(record, request, snapshot)
            && record.resource.stable_identity == snapshot.id,
{
    reveal_strlit("container_name");
    reveal_strlit("configuration_key");
    reveal_strlit("environment");
    reveal_strlit("cleanup_operation");
    assert("container_name"@.len() != "configuration_key"@.len());
    assert("container_name"@.len() != "environment"@.len());
    assert("container_name"@.len() != "cleanup_operation"@.len());
    assert("configuration_key"@.len() != "environment"@.len());
    assert("configuration_key"@[1] != "cleanup_operation"@[1]);
}

/// A container with everything that a specification asks for is as it should be.
pub proof fn law_asked_configuration_is_recognised(
    request: DockerContainerRequestView,
    snapshot: DockerContainerSnapshotView,
)
    requires
        snapshot.name == request.specification.name,
        snapshot.image == request.specification.image,
        snapshot.command == request.specification.command,
        snapshot.environment == request.specification.environment,
        snapshot.mounts.len() == request.specification.mounts.len(),
        forall|i: int|
            0 <= i < request.specification.mounts.len() ==> (#[trigger] snapshot.mounts[i]).source
                == request.specification.mounts[i].source && snapshot.mounts[i].target
                == request.specification.mounts[i].target && snapshot.mounts[i].read_only
                == request.specification.mounts[i].read_only,
        snapshot.ports.len() == request.specification.ports.len(),
        forall|i: int|
            0 <= i < request.specification.ports.len() ==> (#[trigger] snapshot.ports[i]).host
                == request.specification.ports[i].host && snapshot.ports[i].container
                == request.specification.ports[i].container && snapshot.ports[i].protocol
                == request.specification.ports[i].protocol,
    ensures
        matches_request(request, snapshot),
{
    let wanted = request.specification;
    assert forall|i: int| 0 <= i < wanted.mounts.len() implies snapshot.mounts.contains(
        mount_seen(#[trigger] wanted.mounts[i]),
    ) by {
        assert(snapshot.mounts[i] == mount_seen(wanted.mounts[i]));
    }
    assert forall|i: int| 0 <= i < wanted.ports.len() implies snapshot.ports.contains(
        port_seen(#[trigger] wanted.ports[i]),
    ) by {
        assert(snapshot.ports[i] == port_seen(wanted.ports[i]));
    }
}

/// A container that has another name, or another image, command, set of variables, number of mounts or
/// of ports than a specification asks for, or lacks one of its mounts or ports, is not as it should be.
/// What the specification leaves open may be anything.
pub proof fn law_recognised_configuration_was_asked(
    request: DockerContainerRequestView,
    snapshot: DockerContainerSnapshotView,
)
    requires
        matches_request(request, snapshot),
    ensures
        snapshot.name == request.specification.name,
        request.specification.image is Some ==> snapshot.image == request.specification.image,
        request.specification.command is Some ==> snapshot.command == request.specification.command,
        forall|key: Seq<char>| #[trigger]
            request.specification.environment.contains_key(key) ==> snapshot.environment
                == request.specification.environment,
        request.specification.mounts.len() > 0 ==> snapshot.mounts.len()
            == request.specification.mounts.len(),
        request.specification.ports.len() > 0 ==> snapshot.ports.len()
            == request.specification.ports.len(),
        forall|i: int|
            0 <= i < request.specification.mounts.len() ==> snapshot.mounts.contains(
                DockerMountSnapshotView {
                    source: (#[trigger] request.specification.mounts[i]).source,
                    target: request.specification.mounts[i].target,
                    read_only: request.specification.mounts[i].read_only,
                },
            ),
        forall|i: int|
            0 <= i < request.specification.ports.len() ==> snapshot.ports.contains(
                DockerPortSnapshotView {
                    host: (#[trigger] request.specification.ports[i]).host,
                    container: request.specification.ports[i].container,
                    protocol: request.specification.ports[i].protocol,
                },
            ),
{
    assert forall|key: Seq<char>| #[trigger]
        request.specification.environment.contains_key(key) implies snapshot.environment
        == request.specification.environment by {
        assert(!Map::<Seq<char>, Seq<char>>::empty().contains_key(key));
    }
}

/// A container that is as its specification asks, part for part, has the key of the specification.
pub proof fn law_same_configuration_has_the_same_key(
    request: DockerContainerRequestView,
    snapshot: DockerContainerSnapshotView,
)
    requires
        snapshot.name == request.specification.name,
        snapshot.image == request.specification.image,
        snapshot.command == request.specification.command,
        snapshot.environment == request.specification.environment,
        snapshot.mounts == request.specification.mounts.map_values(
            |mount: MountSpecView| mount_seen(mount),
        ),
        snapshot.ports == request.specification.ports.map_values(
            |port: PortSpecView| port_seen(port),
        ),
    ensures
        snapshot_key(snapshot) == request_key(request),
{
    let wanted = request.specification;
    assert(snapshot.mounts.map_values(|mount: DockerMountSnapshotView| mount_line(mount))
        =~= wanted.mounts.map_values(|mount: MountSpecView| mount_line(mount_seen(mount))));
    assert(snapshot.ports.map_values(|port: DockerPortSnapshotView| port_line(port))
        =~= wanted.ports.map_values(|port: PortSpecView| port_line(port_seen(port))));
}

/// What is recorded of a container names it, says to whom it belongs and under which policy it is
/// cleaned up, and keeps what is needed to know it again; how it is taken down is noted where that was
/// decided.
pub proof fn law_container_is_recorded(
    context: DockerActionContextView,
    request: DockerContainerRequestView,
    snapshot: DockerContainerSnapshotView,
    ownership: OwnershipStatus,
    observed_before: bool,
    operation: Option<Seq<char>>,
)
    ensures
        crate::text::is_blank(snapshot.id) <==> container_recorded(
            context,
            request,
            snapshot,
            ownership,
            observed_before,
            operation,
        ) is Err,
        container_recorded(context, request, snapshot, ownership, observed_before, operation)
            matches Ok(record) ==> record.resource.kind == ResourceKind::DockerContainer
            && record.resource.stable_identity == snapshot.id && record.ownership == ownership
            && record.observed_before == observed_before && record.action_id == Some(
            context.action_id,
        ) && record.cleanup_policy == context.cleanup_policy && record.note("container_name"@)
            == Some(snapshot.name) && record.note("environment"@) == Some(context.environment)
            && record.note("configuration_key"@) == Some(request_key(request)) && record.note(
            "cleanup_operation"@,
        ) == operation,
{
    lemma_note_keys();
}

proof fn lemma_note_keys()
    ensures
        "container_name"@ != "environment"@,
        "container_name"@ != "configuration_key"@,
        "container_name"@ != "cleanup_operation"@,
        "environment"@ != "configuration_key"@,
        "environment"@ != "cleanup_operation"@,
        "configuration_key"@ != "cleanup_operation"@,
{
    reveal_strlit("container_name");
    reveal_strlit("environment");
    reveal_strlit("configuration_key");
    reveal_strlit("cleanup_operation");
    assert("container_name"@.len() == 14 && "environment"@.len() == 11 && "configuration_key"@.len()
        == 17 && "cleanup_operation"@.len() == 17);
    assert("configuration_key"@[1] == 'o' && "cleanup_operation"@[1] == 'l');
}

/// A container, or a service, is ready where it runs and its health check, if it has one, is met.
pub proof fn law_ready_means_running_and_healthy(
    snapshot: DockerContainerSnapshotView,
    service: DockerComposeServiceSnapshotView,
)
    ensures
        container_ready(snapshot) <==> snapshot.state is Running && (snapshot.health is Healthy
            || snapshot.health is Unreported),
        service_ready(service) <==> service.state is Running && (service.health is Healthy
            || service.health is Unreported),
{
}

/// The words that Docker has for the health of a container are read in any case.
pub proof fn law_health_words_are_read(word: Seq<char>)
    ensures
        lower(word) == "healthy"@ ==> health_of_label(Some(word)) is Healthy,
        lower(word) == "unhealthy"@ ==> health_of_label(Some(word)) is Unhealthy,
        lower(word) == "starting"@ ==> health_of_label(Some(word)) is Starting,
        health_of_label(None) is Unreported,
        health_of_label(Some(word)) is Healthy ==> lower(word) == "healthy"@,
        health_of_label(Some(word)) is Unreported ==> word.len() == 0,
{
    reveal_strlit("healthy");
    reveal_strlit("unhealthy");
    reveal_strlit("starting");
    reveal_strlit("");
    assert(lower(""@) =~= ""@);
    assert("healthy"@.len() == 7 && "unhealthy"@.len() == 9 && "starting"@.len() == 8 && ""@.len()
        == 0);
}

} // verus!
