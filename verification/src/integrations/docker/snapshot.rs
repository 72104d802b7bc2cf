//! Containers as `docker inspect` describes them.
use vstd::prelude::*;
use vstd::string::*;
use crate::collections::{map_of, TextMap, TextPair};
use crate::domain::{CommandSpec, CommandSpecView};
use crate::error::{error_from, error_of, seen, ErrorCategory, WorkstateError, WorkstateErrorView};
use crate::integrations::docker::compose::{parse_container_state, state_of_label};
use crate::integrations::docker::models::{health_from_label, health_of_label};
use crate::json::{json_document, member, parse_json, seen_json, Json, JsonView};
use crate::ports::{
    DockerContainerSnapshot, DockerContainerSnapshotView, DockerHealthState, DockerMountSnapshot,
    DockerMountSnapshotView, DockerPortSnapshot, DockerPortSnapshotView,
};
use crate::text::{
    decimal, is_ascii_digit, law_decimal_reads_back, law_halves_are_found_again, lower,
    parse_unsigned, split_once, text_parse_unsigned, text_split_once, text_without_leading,
    without_leading,
};
use crate::values::{append, empty_list, text_list2, text_list3, text_list4};

verus! {

/// The texts among the values.
pub open spec fn texts_of(values: Seq<JsonView>) -> Seq<Seq<char>>
    decreases values.len(),
{
    if values.len() == 0 {
        Seq::empty()
    } else {
        let front = texts_of(values.drop_last());
        match values.last() {
            JsonView::Text(text) => front.push(text),
            _ => front,
        }
    }
}

fn texts_from(items: &Vec<Json>, from: usize) -> (r: Vec<String>)
    requires
        from <= items@.len(),
    ensures
        r.deep_view() == texts_of(items.deep_view().skip(from as int)),
{
    let ghost all = items.deep_view().skip(from as int);
    let mut r: Vec<String> = empty_list();
    let mut i: usize = from;
    assert(all.take(0) =~= Seq::<JsonView>::empty());
    while i < items.len()
        invariant
            from <= i <= items@.len(),
            all == items.deep_view().skip(from as int),
            r.deep_view() == texts_of(all.take(i - from)),
        decreases items@.len() - i,
    {
        assert(all[i - from] == items@[i as int]@);
        assert(all.take(i - from + 1).drop_last() =~= all.take(i - from));
        if let Some(text) = items[i].as_text() {
            append(&mut r, text);
        }
        i = i + 1;
    }
    assert(all.take(i - from) =~= all);
    r
}

/// The command of a container: the first text is the program, the other texts are its arguments.
pub open spec fn command_of(config: JsonView) -> Option<CommandSpecView> {
    match config.get_either("Cmd"@, "cmd"@) {
        Some(JsonView::Array(items)) => if items.len() > 0 && items[0] is Text {
            Some(
                CommandSpecView {
                    program: items[0]->Text_0,
                    arguments: texts_of(items.skip(1)),
                    shell: false,
                    environment: Map::empty(),
                },
            )
        } else {
            None
        },
        _ => None,
    }
}

/// The elements of a JSON array are the elements of its view.
proof fn lemma_array(json: Json, items: Vec<Json>)
    requires
        json == Json::Array(items),
    ensures
        json@ == JsonView::Array(items.deep_view()),
{
    assert(json@->Array_0 =~= items.deep_view());
}

/// The command of a container.
pub fn parse_command(config: &Json) -> (r: Option<CommandSpec>)
    ensures
        r.deep_view() == command_of(config@),
{
    match config.get_either("Cmd", "cmd") {
        Some(found) => match found {
            Json::Array(items) => {
                proof {
                    lemma_array(*found, *items);
                }
                if items.len() == 0 {
                    return None;
                }
                assert(items.deep_view()[0] == items@[0]@);
                match items[0].as_text() {
                    Some(program) => {
                        let mut command = CommandSpec::new(program);
                        command.arguments = texts_from(items, 1);
                        Some(command)
                    },
                    None => None,
                }
            },
            _ => None,
        },
        None => None,
    }
}

/// The settings among the texts: those with an equals sign.
pub open spec fn settings_of(texts: Seq<Seq<char>>) -> Seq<TextPair>
    decreases texts.len(),
{
    if texts.len() == 0 {
        Seq::empty()
    } else {
        let front = settings_of(texts.drop_last());
        match split_once(texts.last(), "="@) {
            Some(pair) => front.push(pair),
            None => front,
        }
    }
}

/// The environment of a container; of two settings with one key the later one counts.
pub open spec fn environment_of(config: JsonView) -> Map<Seq<char>, Seq<char>> {
    match config.get_either("Env"@, "env"@) {
        Some(JsonView::Array(items)) => map_of(settings_of(texts_of(items))),
        _ => Map::empty(),
    }
}

/// The environment of a container.
pub fn parse_environment(config: &Json) -> (r: TextMap)
    ensures
        r@ == environment_of(config@),
{
    match config.get_either("Env", "env") {
        Some(found) => match found {
            Json::Array(items) => {
                proof {
                    lemma_array(*found, *items);
                    assert(items.deep_view().skip(0) =~= items.deep_view());
                }
                let texts = texts_from(items, 0);
                let ghost all = texts.deep_view();
                let mut pairs: Vec<(String, String)> = empty_list();
                let mut i: usize = 0;
                assert(all.take(0) =~= Seq::<Seq<char>>::empty());
                while i < texts.len()
                    invariant
                        i <= texts@.len(),
                        all == texts.deep_view(),
                        pairs.deep_view() == settings_of(all.take(i as int)),
                    decreases texts@.len() - i,
                {
                    assert(all[i as int] == texts@[i as int]@);
                    assert(all.take(i as int + 1).drop_last() =~= all.take(i as int));
                    if let Some(pair) = text_split_once(texts[i].as_str(), "=") {
                        append(&mut pairs, pair);
                    }
                    i = i + 1;
                }
                assert(all.take(i as int) =~= all);
                TextMap::from_pairs(&pairs)
            },
            _ => TextMap::new(),
        },
        None => TextMap::new(),
    }
}

/// The mount that a value describes, where it names both ends; it can be written to unless the value
/// says otherwise.
pub open spec fn mount_of(value: JsonView) -> Option<DockerMountSnapshotView> {
    match (
        value.text_under(seq!["Source"@, "source"@]),
        value.text_under(seq!["Destination"@, "destination"@, "Target"@, "target"@]),
    ) {
        (Some(source), Some(target)) => Some(
            DockerMountSnapshotView {
                source,
                target,
                read_only: value.get_either("RW"@, "rw"@) == Some(JsonView::Bool(false)),
            },
        ),
        _ => None,
    }
}

fn parse_mount(value: &Json) -> (r: Option<DockerMountSnapshot>)
    ensures
        r.deep_view() == (match mount_of(value@) {
            Some(mount) => Some(mount),
            None => None,
        }),
{
    let target_keys = text_list4("Destination", "destination", "Target", "target");
    let read_only = match value.get_either("RW", "rw") {
        Some(writable) => match writable {
            Json::Bool(value) => !*value,
            _ => false,
        },
        None => false,
    };
    match (value.text_under(&text_list2("Source", "source")), value.text_under(&target_keys)) {
        (Some(source), Some(target)) => Some(DockerMountSnapshot { source, target, read_only }),
        _ => None,
    }
}

/// The mounts that the values describe.
pub open spec fn mounts_of(values: Seq<JsonView>) -> Seq<DockerMountSnapshotView>
    decreases values.len(),
{
    if values.len() == 0 {
        Seq::empty()
    } else {
        let front = mounts_of(values.drop_last());
        match mount_of(values.last()) {
            Some(mount) => front.push(mount),
            None => front,
        }
    }
}

/// The mounts of a container.
pub fn parse_mounts(value: &Json) -> (r: Vec<DockerMountSnapshot>)
    ensures
        r.deep_view() == (match value@ {
            JsonView::Array(items) => mounts_of(items),
            _ => Seq::empty(),
        }),
{
    match value {
        Json::Array(items) => {
            proof {
                lemma_array(*value, *items);
            }
            let ghost all = items.deep_view();
            let mut r: Vec<DockerMountSnapshot> = empty_list();
            let mut i: usize = 0;
            assert(all.take(0) =~= Seq::<JsonView>::empty());
            while i < items.len()
                invariant
                    i <= items@.len(),
                    all == items.deep_view(),
                    r.deep_view() == mounts_of(all.take(i as int)),
                decreases items@.len() - i,
            {
                assert(all[i as int] == items@[i as int]@);
                assert(all.take(i as int + 1).drop_last() =~= all.take(i as int));
                if let Some(mount) = parse_mount(&items[i]) {
                    append(&mut r, mount);
                }
                i = i + 1;
            }
            assert(all.take(i as int) =~= all);
            r
        },
        _ => empty_list(),
    }
}

/// A port number: a number, or a text that spells one.
pub open spec fn port_number(value: JsonView) -> Option<u16> {
    match value {
        JsonView::Number(number) => match number.unsigned {
            Some(n) if n <= u16::MAX => Some(n as u16),
            _ => None,
        },
        JsonView::Text(text) => match parse_unsigned(text, u16::MAX as nat) {
            Some(n) => Some(n as u16),
            None => None,
        },
        _ => None,
    }
}

/// A port number.
pub fn value_u16(value: &Json) -> (r: Option<u16>)
    ensures
        r == port_number(value@),
{
    match value {
        Json::Number(number) => match number.unsigned {
            Some(n) => if n <= u16::MAX as u64 {
                Some(n as u16)
            } else {
                None
            },
            None => None,
        },
        Json::Text(text) => match text_parse_unsigned(text.as_str(), u16::MAX as u64) {
            Some(n) => Some(n as u16),
            None => None,
        },
        _ => None,
    }
}

/// The port that a member describes: its key holds the port of the container and the protocol, and
/// the first of its bindings the port of the host.
pub open spec fn port_of(key: Seq<char>, value: JsonView) -> Option<DockerPortSnapshotView> {
    match split_once(key, "/"@) {
        None => None,
        Some((number, protocol)) => match (parse_unsigned(number, u16::MAX as nat), value) {
            (Some(container), JsonView::Array(bindings)) => if bindings.len() > 0
                && bindings[0] is Object {
                match bindings[0].get_either("HostPort"@, "host_port"@) {
                    Some(host) => match port_number(host) {
                        Some(host) => Some(
                            DockerPortSnapshotView { host, container: container as u16, protocol },
                        ),
                        None => None,
                    },
                    None => None,
                }
            } else {
                None
            },
            _ => None,
        },
    }
}

fn parse_port(key: &str, value: &Json) -> (r: Option<DockerPortSnapshot>)
    ensures
        r.deep_view() == port_of(key@, value@),
{
    match text_split_once(key, "/") {
        None => None,
        Some((number, protocol)) => {
            let container = match text_parse_unsigned(number.as_str(), u16::MAX as u64) {
                Some(container) => container as u16,
                None => {
                    return None;
                },
            };
            match value {
                Json::Array(bindings) => {
                    proof {
                        lemma_array(*value, *bindings);
                    }
                    if bindings.len() == 0 {
                        return None;
                    }
                    assert(bindings.deep_view()[0] == bindings@[0]@);
                    match &bindings[0] {
                        Json::Object(_) => match bindings[0].get_either("HostPort", "host_port") {
                            Some(found) => match value_u16(found) {
                                Some(host) => Some(
                                    DockerPortSnapshot { host, container, protocol },
                                ),
                                None => None,
                            },
                            None => None,
                        },
                        _ => None,
                    }
                },
                _ => None,
            }
        },
    }
}

/// The ports that the members describe, in their order.
pub open spec fn ports_of(members: Seq<(Seq<char>, JsonView)>) -> Seq<DockerPortSnapshotView>
    decreases members.len(),
{
    if members.len() == 0 {
        Seq::empty()
    } else {
        let front = ports_of(members.drop_last());
        match port_of(members.last().0, members.last().1) {
            Some(port) => front.push(port),
            None => front,
        }
    }
}

/// The published ports of a container.
pub fn parse_ports(value: &Json) -> (r: Vec<DockerPortSnapshot>)
    ensures
        r.deep_view() == (match value@ {
            JsonView::Object(members) => ports_of(members),
            _ => Seq::empty(),
        }),
{
    match value {
        Json::Object(members) => {
            let ghost all = value@->Object_0;
            let mut r: Vec<DockerPortSnapshot> = empty_list();
            let mut i: usize = 0;
            assert(all.take(0) =~= Seq::<(Seq<char>, JsonView)>::empty());
            while i < members.len()
                invariant
                    i <= members@.len(),
                    value@ == JsonView::Object(all),
                    all.len() == members@.len(),
                    forall|k: int|
                        0 <= k < members@.len() ==> #[trigger] all[k] == (
                            members@[k].0@,
                            members@[k].1@,
                        ),
                    r.deep_view() == ports_of(all.take(i as int)),
                decreases members@.len() - i,
            {
                assert(all[i as int] == (members@[i as int].0@, members@[i as int].1@));
                assert(all.take(i as int + 1).drop_last() =~= all.take(i as int));
                if let Some(port) = parse_port(members[i].0.as_str(), &members[i].1) {
                    append(&mut r, port);
                }
                i = i + 1;
            }
            assert(all.take(i as int) =~= all);
            r
        },
        _ => empty_list(),
    }
}

/// The text under one of two keys of a member, where there is such a member.
pub open spec fn member_text(value: Option<JsonView>, first: Seq<char>, second: Seq<char>) -> Option<
    Seq<char>,
> {
    match value {
        Some(value) => value.text_under(seq![first, second]),
        None => None,
    }
}

fn text_in(value: Option<&Json>, first: &str, second: &str) -> (r: Option<String>)
    ensures
        r.deep_view() == member_text(seen_json(value), first@, second@),
{
    match value {
        Some(value) => value.text_under(&text_list2(first, second)),
        None => None,
    }
}

/// The value that the mounts stand in.
pub open spec fn mounts_in(value: JsonView) -> Seq<DockerMountSnapshotView> {
    match value.get_either("Mounts"@, "mounts"@) {
        Some(JsonView::Array(items)) => mounts_of(items),
        _ => Seq::empty(),
    }
}

/// The value that the ports stand in: those of the network settings, else those of the container.
pub open spec fn ports_value(value: JsonView) -> Option<JsonView> {
    let network = match value.get("NetworkSettings"@) {
        Some(settings) => settings.get("Ports"@),
        None => None,
    };
    match network {
        Some(ports) => Some(ports),
        None => value.get("ports"@),
    }
}

pub open spec fn ports_in(value: JsonView) -> Seq<DockerPortSnapshotView> {
    match ports_value(value) {
        Some(JsonView::Object(members)) => ports_of(members),
        _ => Seq::empty(),
    }
}

pub open spec fn health_value(state: Option<JsonView>) -> Option<JsonView> {
    match state {
        Some(state) => state.get_either("Health"@, "health"@),
        None => None,
    }
}

/// The exit code of a container, where it fits into 32 bits.
pub open spec fn exit_code_of(state: Option<JsonView>) -> Option<i32> {
    match state {
        Some(state) => match state.get_either("ExitCode"@, "exit_code"@) {
            Some(code) => match code.as_signed() {
                Some(n) if i32::MIN <= n <= i32::MAX => Some(n as i32),
                _ => None,
            },
            None => None,
        },
        None => None,
    }
}

/// The container that a JSON object describes.
pub open spec fn container_of(value: JsonView) -> Result<
    DockerContainerSnapshotView,
    WorkstateErrorView,
> {
    let config = value.get_either("Config"@, "config"@);
    let state = value.get_either("State"@, "state"@);
    let name = without_leading(
        match value.text_under(seq!["Name"@, "name"@]) {
            Some(name) => name,
            None => ""@,
        },
        '/',
    );
    match value.text_under(seq!["Id"@, "ID"@, "id"@]) {
        None => Err(
            error_of(
                ErrorCategory::Integration,
                "Docker container data omitted its identity"@,
            ),
        ),
        Some(id) => if name.len() == 0 {
            Err(error_of(ErrorCategory::Integration, "Docker container data omitted its name"@))
        } else {
            Ok(
                DockerContainerSnapshotView {
                    id,
                    name,
                    image: member_text(config, "Image"@, "image"@),
                    command: match config {
                        Some(config) => command_of(config),
                        None => None,
                    },
                    working_directory: member_text(config, "WorkingDir"@, "working_dir"@),
                    environment: match config {
                        Some(config) => environment_of(config),
                        None => Map::empty(),
                    },
                    mounts: mounts_in(value),
                    ports: ports_in(value),
                    state: state_of_label(member_text(state, "Status"@, "status"@)),
                    health: health_of_label(
                        member_text(health_value(state), "Status"@, "status"@),
                    ),
                    exit_code: exit_code_of(state),
                    status: member_text(state, "Status"@, "status"@),
                },
            )
        },
    }
}

/// The container that a document describes: the first of a list, or one alone.
pub open spec fn described_container(value: JsonView) -> Result<
    DockerContainerSnapshotView,
    WorkstateErrorView,
> {
    match value {
        JsonView::Array(items) => if items.len() == 0 {
            Err(
                error_of(
                    ErrorCategory::Integration,
                    "Docker returned an empty container observation"@,
                ),
            )
        } else {
            container_of(items[0])
        },
        _ => container_of(value),
    }
}

fn health_in(state: Option<&Json>) -> (r: DockerHealthState)
    ensures
        r@ == health_of_label(
            member_text(health_value(seen_json(state)), "Status"@, "status"@),
        ),
{
    let health = match state {
        Some(state) => state.get_either("Health", "health"),
        None => None,
    };
    match text_in(health, "Status", "status") {
        Some(label) => health_from_label(Some(label.as_str())),
        None => health_from_label(None),
    }
}

fn exit_code_in(state: Option<&Json>) -> (r: Option<i32>)
    ensures
        r == exit_code_of(seen_json(state)),
{
    match state {
        Some(state) => match state.get_either("ExitCode", "exit_code") {
            Some(code) => match code.as_signed() {
                Some(n) => if i32::MIN as i64 <= n && n <= i32::MAX as i64 {
                    Some(n as i32)
                } else {
                    None
                },
                None => None,
            },
            None => None,
        },
        None => None,
    }
}

fn ports_from(value: &Json) -> (r: Vec<DockerPortSnapshot>)
    ensures
        r.deep_view() == ports_in(value@),
{
    let network = match value.get("NetworkSettings") {
        Some(settings) => settings.get("Ports"),
        None => None,
    };
    let found = match network {
        Some(ports) => Some(ports),
        None => value.get("ports"),
    };
    match found {
        Some(ports) => parse_ports(ports),
        None => empty_list(),
    }
}

fn parse_container(value: &Json) -> (r: Result<DockerContainerSnapshot, WorkstateError>)
    ensures
        seen(r) == container_of(value@),
{
    let id = match value.text_under(&text_list3("Id", "ID", "id")) {
        Some(id) => id,
        None => {
            return Err(
                WorkstateError::new(
                    ErrorCategory::Integration,
                    "Docker container data omitted its identity",
                ),
            );
        },
    };
    let name = match value.text_under(&text_list2("Name", "name")) {
        Some(name) => text_without_leading(name.as_str(), '/'),
        None => text_without_leading("", '/'),
    };
    if name.as_str().is_empty() {
        return Err(
            WorkstateError::new(
                ErrorCategory::Integration,
                "Docker container data omitted its name",
            ),
        );
    }
    let config = value.get_either("Config", "config");
    let state = value.get_either("State", "state");
    let command = match config {
        Some(config) => parse_command(config),
        None => None,
    };
    let environment = match config {
        Some(config) => parse_environment(config),
        None => TextMap::new(),
    };
    let mounts = match value.get_either("Mounts", "mounts") {
        Some(mounts) => parse_mounts(mounts),
        None => empty_list(),
    };
    let status = text_in(state, "Status", "status");
    Ok(
        DockerContainerSnapshot {
            id,
            name,
            image: text_in(config, "Image", "image"),
            command,
            working_directory: text_in(config, "WorkingDir", "working_dir"),
            environment,
            mounts,
            ports: ports_from(value),
            state: parse_container_state(&status),
            health: health_in(state),
            exit_code: exit_code_in(state),
            status,
        },
    )
}

/// The container that a document describes.
pub fn container_snapshot(value: &Json) -> (r: Result<DockerContainerSnapshot, WorkstateError>)
    ensures
        seen(r) == described_container(value@),
{
    match value {
        Json::Array(items) => {
            proof {
                lemma_array(*value, *items);
            }
            if items.len() == 0 {
                return Err(
                    WorkstateError::new(
                        ErrorCategory::Integration,
                        "Docker returned an empty container observation",
                    ),
                );
            }
            assert(items.deep_view()[0] == items@[0]@);
            parse_container(&items[0])
        },
        _ => parse_container(value),
    }
}

/// The container that the output of `docker inspect` describes.
pub open spec fn inspected_container(bytes: Seq<u8>) -> Result<
    DockerContainerSnapshotView,
    WorkstateErrorView,
> {
    match json_document(bytes) {
        Ok(value) => described_container(value),
        Err(text) => Err(
            error_from(
                ErrorCategory::Integration,
                "Docker returned malformed container data"@,
                text,
            ),
        ),
    }
}

/// The container that the output of `docker inspect` describes.
pub fn parse_container_snapshot(bytes: &[u8]) -> (r: Result<
    DockerContainerSnapshot,
    WorkstateError,
>)
    ensures
        seen(r) == inspected_container(bytes@),
{
    match parse_json(bytes) {
        Ok(value) => container_snapshot(&value),
        Err(text) => Err(
            WorkstateError::with_source(
                ErrorCategory::Integration,
                "Docker returned malformed container data",
                text.as_str(),
            ),
        ),
    }
}

/// A port is read as Docker writes it: the port of the container and its protocol in the key, and the
/// port of the host in the first binding.
pub proof fn law_printed_port_is_read(
    host: u16,
    container: u16,
    protocol: Seq<char>,
    members: Seq<(Seq<char>, JsonView)>,
)
    requires
        member(members, "HostPort"@) == Some(JsonView::Text(decimal(host as nat))),
    ensures
        port_of(
            decimal(container as nat) + seq!['/'] + protocol,
            JsonView::Array(seq![JsonView::Object(members)]),
        ) == Some(DockerPortSnapshotView { host, container, protocol }),
        port_of(decimal(container as nat) + seq!['/'] + protocol, JsonView::Null) is None,
{
    reveal_strlit("/");
    assert("/"@ =~= seq!['/']);
    law_decimal_reads_back(host as nat);
    law_decimal_reads_back(container as nat);
    let number = decimal(container as nat);
    assert(!number.contains('/')) by {
        if number.contains('/') {
            let k = choose|k: int| 0 <= k < number.len() && number[k] == '/';
            assert(is_ascii_digit(number[k]));
        }
    }
    law_halves_are_found_again(number, '/', protocol);
    assert(parse_unsigned(number, u16::MAX as nat) == Some(container as nat));
    assert(parse_unsigned(decimal(host as nat), u16::MAX as nat) == Some(host as nat));
    let binding = JsonView::Object(members);
    assert(seq![binding][0] == binding);
}

/// A mount is read as Docker writes it: from its source to its destination, and read-only where it
/// cannot be written.
pub proof fn law_printed_mount_is_read(
    value: JsonView,
    source: Seq<char>,
    target: Seq<char>,
    writable: bool,
)
    requires
        value.get("Source"@) == Some(JsonView::Text(source)),
        value.get("Destination"@) == Some(JsonView::Text(target)),
        value.get("RW"@) == Some(JsonView::Bool(writable)),
    ensures
        mount_of(value) == Some(
            DockerMountSnapshotView { source, target, read_only: !writable },
        ),
{
}

/// Variables are read as Docker writes them: in front of the first sign of equality stands the key, and
/// behind it the value; the last one of a key counts.
pub proof fn law_printed_variables_are_read(
    earlier: Seq<JsonView>,
    key: Seq<char>,
    value: Seq<char>,
    config: JsonView,
    before: JsonView,
)
    requires
        !key.contains('='),
        config.get("Env"@) == Some(
            JsonView::Array(earlier.push(JsonView::Text(key + seq!['='] + value))),
        ),
        before.get("Env"@) == Some(JsonView::Array(earlier)),
    ensures
        environment_of(config) == environment_of(before).insert(key, value),
{
    reveal_strlit("=");
    assert("="@ =~= seq!['=']);
    law_halves_are_found_again(key, '=', value);
    let line = key + seq!['='] + value;
    let items = earlier.push(JsonView::Text(line));
    assert(items.drop_last() =~= earlier);
    assert(texts_of(items).drop_last() =~= texts_of(earlier));
    let settings = settings_of(texts_of(items));
    assert(settings.drop_last() =~= settings_of(texts_of(earlier)));
}

/// A list of texts is read in its order, and what is no text is left out.
pub proof fn law_texts_are_read_in_order(earlier: Seq<JsonView>, text: Seq<char>, other: JsonView)
    ensures
        texts_of(earlier.push(JsonView::Text(text))) == texts_of(earlier).push(text),
        !(other is Text) ==> texts_of(earlier.push(other)) == texts_of(earlier),
        texts_of(Seq::empty()) == Seq::<Seq<char>>::empty(),
{
    assert(earlier.push(JsonView::Text(text)).drop_last() =~= earlier);
    assert(earlier.push(other).drop_last() =~= earlier);
}

/// A container is read as Docker prints it: under its identity and its name without the slash, with the
/// image, the command, the state and the exit status that are printed.
pub proof fn law_printed_container_is_read(
    value: JsonView,
    config: JsonView,
    state: JsonView,
    id: Seq<char>,
    name: Seq<char>,
    image: Seq<char>,
    status: Seq<char>,
    program: Seq<char>,
    rest: Seq<JsonView>,
)
    requires
        value.get("Id"@) == Some(JsonView::Text(id)),
        value.get("Name"@) == Some(JsonView::Text(seq!['/'] + name)),
        name.len() > 0,
        name[0] != '/',
        value.get("Config"@) == Some(config),
        value.get("State"@) == Some(state),
        config.get("Image"@) == Some(JsonView::Text(image)),
        state.get("Status"@) == Some(JsonView::Text(status)),
    ensures
        container_of(value) matches Ok(snapshot) && snapshot.id == id && snapshot.name == name
            && snapshot.image == Some(image) && snapshot.status == Some(status)
            && snapshot.environment == environment_of(config) && snapshot.mounts == mounts_in(value)
            && snapshot.ports == ports_in(value) && (status == "running"@ ==> snapshot.state
            is Running) && (status == "exited"@ ==> snapshot.state is Exited) && (config.get(
            "Cmd"@,
        ) == Some(JsonView::Array(seq![JsonView::Text(program)] + rest)) ==> (
        snapshot.command matches Some(command) && command.program == program
            && command.arguments == texts_of(rest))),
        !(value is Array) ==> described_container(value) == container_of(value),
        described_container(JsonView::Array(seq![value])) == container_of(value),
{
    let written = seq!['/'] + name;
    let items = seq![JsonView::Text(program)] + rest;
    assert(items[0] == JsonView::Text(program));
    assert(items.skip(1) =~= rest);
    assert(value.text_under(seq!["Id"@, "ID"@, "id"@]) == Some(id));
    assert(value.text_under(seq!["Name"@, "name"@]) == Some(written));
    assert(written.drop_first() =~= name);
    assert(without_leading(written, '/') == name) by {
        reveal_with_fuel(without_leading, 2);
        assert(written[0] == '/');
    }
    reveal_strlit("running");
    reveal_strlit("exited");
    reveal_strlit("created");
    reveal_strlit("paused");
    reveal_strlit("restarting");
    assert(lower("running"@) =~= "running"@);
    assert(lower("exited"@) =~= "exited"@);
    assert("running"@.len() == 7 && "created"@.len() == 7 && "paused"@.len() == 6
        && "restarting"@.len() == 10 && "exited"@.len() == 6);
    assert("running"@[0] == 'r' && "created"@[0] == 'c' && "paused"@[0] == 'p' && "exited"@[0]
        == 'e');
    assert(seq![value][0] == value);
}

} // verus!
