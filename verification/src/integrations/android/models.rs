//! What the Android tools print of devices.
use vstd::prelude::*;
use vstd::string::*;
use vstd::utf8::*;
use crate::collections::{lemma_with_new_text, put_once, sorted_set, strictly_ascends, with_text};
use crate::encoding::{lenient_text, strict_text, text_from_utf8, text_from_utf8_lossy};
use crate::error::{seen, WorkstateError, WorkstateErrorView};
use crate::integrations::android::errors::{malformed, malformed_output};
use crate::ports::{
    AndroidDeviceSnapshot, AndroidDeviceSnapshotView, AndroidDeviceState, AndroidDeviceStateView,
    AndroidVirtualDevice, AndroidVirtualDeviceView,
};
use crate::text::{
    alphanumeric, contains_text, has_control, has_prefix, is_white, join3, joined, lines, lower,
    same_text, text_alphanumeric, text_before, text_contains, text_has_control, text_join,
    text_lines, text_lower, text_starts_with, text_trim, text_words, trim, trim_end, trim_start,
    words,
};
use crate::values::{append, empty_list, rest};

verus! {

// ---------------------------------------------------------------------------------------------
// Virtual devices
// ---------------------------------------------------------------------------------------------
/// The names on the lines, in ascending order and each once; a name with control characters cannot be
/// read.
pub open spec fn names_listed(all: Seq<Seq<char>>) -> Result<Seq<Seq<char>>, WorkstateErrorView>
    decreases all.len(),
{
    if all.len() == 0 {
        Ok(Seq::empty())
    } else {
        match names_listed(all.drop_last()) {
            Err(error) => Err(error),
            Ok(earlier) => {
                let name = trim(all.last());
                if name.len() == 0 {
                    Ok(earlier)
                } else if has_control(name) {
                    Err(
                        malformed_output(
                            "list-avds"@,
                            "AVD name contains control characters"@,
                        ),
                    )
                } else if earlier.contains(name) {
                    Ok(earlier)
                } else {
                    Ok(with_text(earlier, name))
                }
            },
        }
    }
}

/// The devices of the given names.
pub open spec fn devices_named(names: Seq<Seq<char>>) -> Seq<AndroidVirtualDeviceView> {
    names.map_values(|name: Seq<char>| AndroidVirtualDeviceView { name })
}

/// The virtual devices that the tool lists.
pub open spec fn avds_listed(bytes: Seq<u8>) -> Result<
    Seq<AndroidVirtualDeviceView>,
    WorkstateErrorView,
> {
    match strict_text(bytes) {
        Err(text) => Err(malformed_output("list-avds"@, text)),
        Ok(text) => match names_listed(lines(text)) {
            Err(error) => Err(error),
            Ok(names) => Ok(devices_named(names)),
        },
    }
}

proof fn lemma_names_listed(all: Seq<Seq<char>>)
    ensures
        names_listed(all) is Ok <==> forall|i: int|
            0 <= i < all.len() ==> !has_control(trim(#[trigger] all[i])),
        names_listed(all) matches Ok(names) ==> strictly_ascends(names) && forall|
            name: Seq<char>,
        | #[trigger]
            names.contains(name) <==> name.len() > 0 && exists|i: int|
                0 <= i < all.len() && trim(#[trigger] all[i]) == name,
    decreases all.len(),
{
    if all.len() > 0 {
        let front = all.drop_last();
        let last = trim(all.last());
        lemma_names_listed(front);
        assert(forall|i: int| 0 <= i < front.len() ==> #[trigger] front[i] == all[i]);
        assert(all[all.len() - 1] == all.last());
        if names_listed(front) is Ok {
            let earlier = names_listed(front)->Ok_0;
            if last.len() > 0 && !has_control(last) && !earlier.contains(last) {
                lemma_with_new_text(earlier, last);
            }
            if names_listed(all) is Ok {
                let names = names_listed(all)->Ok_0;
                assert forall|i: int| 0 <= i < all.len() implies !has_control(
                    trim(#[trigger] all[i]),
                ) by {
                    if i < front.len() {
                        assert(front[i] == all[i]);
                    }
                }
                assert forall|name: Seq<char>| #[trigger] names.contains(name) <==> name.len() > 0
                    && exists|i: int| 0 <= i < all.len() && trim(#[trigger] all[i]) == name by {
                    if earlier.contains(name) {
                        let i = choose|i: int|
                            0 <= i < front.len() && trim(#[trigger] front[i]) == name;
                        assert(trim(all[i]) == name);
                    }
                    if name.len() > 0 && exists|i: int|
                        0 <= i < all.len() && trim(#[trigger] all[i]) == name {
                        let i = choose|i: int|
                            0 <= i < all.len() && trim(#[trigger] all[i]) == name;
                        if i < front.len() {
                            assert(trim(front[i]) == name);
                        }
                    }
                }
            }
        } else {
            let i = choose|i: int|
                0 <= i < front.len() && has_control(trim(#[trigger] front[i]));
            assert(has_control(trim(all[i])));
        }
    }
}

/// The virtual devices stand in strictly ascending order of their names. A device has a name exactly
/// where a line that is not blank is that name, but for white space round it. They can be read exactly
/// where the bytes are text and no line has a control character in such a name.
pub proof fn law_devices_are_the_lines(bytes: Seq<u8>)
    ensures
        avds_listed(bytes) is Ok <==> valid_utf8(bytes) && forall|i: int|
            0 <= i < lines(decode_utf8(bytes)).len() ==> !has_control(
                trim(#[trigger] lines(decode_utf8(bytes))[i]),
            ),
        avds_listed(bytes) matches Ok(devices) ==> forall|i: int, j: int|
            0 <= i < j < devices.len() ==> #[trigger] text_before(devices[i].name, devices[j].name),
        avds_listed(bytes) matches Ok(devices) ==> forall|name: Seq<char>| #[trigger]
            devices.contains(AndroidVirtualDeviceView { name }) <==> name.len() > 0 && exists|
                i: int,
            |
                0 <= i < lines(decode_utf8(bytes)).len() && trim(
                    #[trigger] lines(decode_utf8(bytes))[i],
                ) == name,
{
    if valid_utf8(bytes) {
        let all = lines(decode_utf8(bytes));
        lemma_names_listed(all);
        if avds_listed(bytes) is Ok {
            let names = names_listed(all)->Ok_0;
            let devices = devices_named(names);
            assert forall|i: int, j: int| 0 <= i < j < devices.len() implies #[trigger] text_before(
                devices[i].name,
                devices[j].name,
            ) by {
                assert(text_before(names[i], names[j]));
            }
            assert forall|name: Seq<char>| #[trigger]
                devices.contains(AndroidVirtualDeviceView { name }) <==> names.contains(name) by {
                if devices.contains(AndroidVirtualDeviceView { name }) {
                    let i = choose|i: int|
                        0 <= i < devices.len() && devices[i] == (AndroidVirtualDeviceView { name });
                    assert(names[i] == name);
                }
                if names.contains(name) {
                    let i = choose|i: int| 0 <= i < names.len() && names[i] == name;
                    assert(devices[i] == (AndroidVirtualDeviceView { name }));
                }
            }
        }
    }
}

fn list_names(all: &Vec<String>) -> (r: Result<Vec<String>, WorkstateError>)
    ensures
        seen(r) == names_listed(all.deep_view()),
{
    let ghost view = all.deep_view();
    let mut names: Vec<String> = empty_list();
    let mut failure: Option<WorkstateError> = None;
    let mut i: usize = 0;
    assert(view.take(0) =~= Seq::<Seq<char>>::empty());
    while i < all.len()
        invariant
            i <= all@.len(),
            view == all.deep_view(),
            names_listed(view.take(i as int)) == (match failure {
                Some(error) => Err::<Seq<Seq<char>>, WorkstateErrorView>(error@),
                None => Ok::<Seq<Seq<char>>, WorkstateErrorView>(names.deep_view()),
            }),
        decreases all@.len() - i,
    {
        assert(view[i as int] == all@[i as int]@);
        assert(view.take(i as int + 1).drop_last() =~= view.take(i as int));
        let name = text_trim(all[i].as_str());
        if failure.is_none() && !name.as_str().is_empty() {
            if text_has_control(name.as_str()) {
                failure = Some(
                    malformed("list-avds", "AVD name contains control characters".to_owned()),
                );
            } else {
                names = put_once(names, name);
            }
        }
        i = i + 1;
    }
    assert(view.take(i as int) =~= view);
    match failure {
        Some(error) => Err(error),
        None => Ok(names),
    }
}

/// The virtual devices that the tool lists, in ascending order and each once.
pub fn parse_avd_list(bytes: &[u8]) -> (r: Result<Vec<AndroidVirtualDevice>, WorkstateError>)
    ensures
        seen(r) == avds_listed(bytes@),
{
    let text = match text_from_utf8(bytes) {
        Err(text) => {
            return Err(malformed("list-avds", text));
        },
        Ok(text) => text,
    };
    let names = match list_names(&text_lines(text.as_str())) {
        Err(error) => {
            return Err(error);
        },
        Ok(names) => names,
    };
    let ghost all = names.deep_view();
    let mut devices: Vec<AndroidVirtualDevice> = empty_list();
    let mut i: usize = 0;
    assert(devices_named(all.take(0)) =~= Seq::<AndroidVirtualDeviceView>::empty());
    while i < names.len()
        invariant
            i <= names@.len(),
            all == names.deep_view(),
            devices.deep_view() == devices_named(all.take(i as int)),
        decreases names@.len() - i,
    {
        assert(all[i as int] == names@[i as int]@);
        append(&mut devices, AndroidVirtualDevice { name: names[i].clone() });
        assert(devices_named(all.take(i as int + 1)) =~= devices_named(all.take(i as int)).push(
            AndroidVirtualDeviceView { name: all[i as int] },
        ));
        i = i + 1;
    }
    assert(all.take(i as int) =~= all);
    Ok(devices)
}

// ---------------------------------------------------------------------------------------------
// Devices
// ---------------------------------------------------------------------------------------------
/// The state that two columns stand for.
pub open spec fn state_read(value: Seq<char>, suffix: Seq<char>) -> AndroidDeviceStateView {
    let text = if lower(value) == "no"@ && lower(suffix) == "permissions"@ {
        "no permissions"@
    } else {
        lower(value)
    };
    if text == "device"@ {
        AndroidDeviceStateView::Device
    } else if text == "offline"@ {
        AndroidDeviceStateView::Offline
    } else if text == "unauthorized"@ {
        AndroidDeviceStateView::Unauthorized
    } else if text == "no permissions"@ || text == "nopermissions"@ {
        AndroidDeviceStateView::NoPermissions
    } else {
        AndroidDeviceStateView::Unknown(text)
    }
}

fn parse_device_state(value: &str, suffix: &str) -> (r: AndroidDeviceState)
    ensures
        r@ == state_read(value@, suffix@),
{
    let lowered = text_lower(value);
    let text = if same_text(lowered.as_str(), "no") && same_text(
        text_lower(suffix).as_str(),
        "permissions",
    ) {
        "no permissions".to_owned()
    } else {
        lowered
    };
    if same_text(text.as_str(), "device") {
        AndroidDeviceState::Device
    } else if same_text(text.as_str(), "offline") {
        AndroidDeviceState::Offline
    } else if same_text(text.as_str(), "unauthorized") {
        AndroidDeviceState::Unauthorized
    } else if same_text(text.as_str(), "no permissions") || same_text(
        text.as_str(),
        "nopermissions",
    ) {
        AndroidDeviceState::NoPermissions
    } else {
        AndroidDeviceState::Unknown(text)
    }
}

/// The serial of an emulator.
pub open spec fn names_emulator(serial: Seq<char>) -> bool {
    has_prefix(serial, "emulator-"@)
}

/// Whether a serial is that of an emulator.
pub fn is_emulator_serial(serial: &str) -> (r: bool)
    ensures
        r == names_emulator(serial@),
{
    text_starts_with(serial, "emulator-")
}

/// The device that a line of the list stands for: nothing for one that is no emulator.
pub open spec fn device_on(line: Seq<char>) -> Result<
    Option<AndroidDeviceSnapshotView>,
    WorkstateErrorView,
> {
    let fields = words(line);
    if fields.len() == 0 {
        Ok(None)
    } else if fields.len() == 1 {
        Err(
            malformed_output(
                "adb-devices"@,
                "device '"@ + fields[0] + "' has no connection state"@,
            ),
        )
    } else if !names_emulator(fields[0]) {
        Ok(None)
    } else if has_control(fields[0]) {
        Err(malformed_output("adb-devices"@, "device serial contains control characters"@))
    } else {
        Ok(
            Some(
                AndroidDeviceSnapshotView {
                    serial: fields[0],
                    avd: None,
                    state: state_read(
                        fields[1],
                        joined(fields.drop_first().drop_first(), " "@),
                    ),
                    boot_completed: false,
                },
            ),
        )
    }
}

fn read_device(line: &str) -> (r: Result<Option<AndroidDeviceSnapshot>, WorkstateError>)
    ensures
        seen(r) == device_on(line@),
{
    let fields = text_words(line);
    if fields.len() == 0 {
        return Ok(None);
    }
    assert(fields.deep_view()[0] == fields@[0]@);
    if fields.len() == 1 {
        return Err(
            malformed(
                "adb-devices",
                join3("device '", fields[0].as_str(), "' has no connection state"),
            ),
        );
    }
    if !is_emulator_serial(fields[0].as_str()) {
        return Ok(None);
    }
    if text_has_control(fields[0].as_str()) {
        return Err(
            malformed("adb-devices", "device serial contains control characters".to_owned()),
        );
    }
    let serial = fields[0].clone();
    let others = rest(&fields);
    assert(others.deep_view()[0] == fields.deep_view()[1]);
    assert(others.deep_view().len() == others@.len());
    assert(others.deep_view()[0] == others@[0]@);
    let suffix = text_join(&rest(&others), " ");
    Ok(
        Some(
            AndroidDeviceSnapshot {
                serial,
                avd: None,
                state: parse_device_state(others[0].as_str(), suffix.as_str()),
                boot_completed: false,
            },
        ),
    )
}

/// What was read of the list of devices: whether its heading was seen, and the emulators below it.
pub open spec fn device_list_read(all: Seq<Seq<char>>) -> Result<
    (bool, Seq<AndroidDeviceSnapshotView>),
    WorkstateErrorView,
>
    decreases all.len(),
{
    if all.len() == 0 {
        Ok((false, Seq::empty()))
    } else {
        match device_list_read(all.drop_last()) {
            Err(error) => Err(error),
            Ok((begun, devices)) => {
                let line = trim(all.last());
                if line == "List of devices attached"@ {
                    Ok((true, devices))
                } else if !begun || line.len() == 0 {
                    Ok((begun, devices))
                } else {
                    match device_on(line) {
                        Err(error) => Err(error),
                        Ok(Some(device)) => Ok((begun, devices.push(device))),
                        Ok(None) => Ok((begun, devices)),
                    }
                }
            },
        }
    }
}

/// The emulators that adb lists.
pub open spec fn devices_listed(bytes: Seq<u8>) -> Result<
    Seq<AndroidDeviceSnapshotView>,
    WorkstateErrorView,
> {
    match strict_text(bytes) {
        Err(text) => Err(malformed_output("adb-devices"@, text)),
        Ok(text) => match device_list_read(lines(text)) {
            Err(error) => Err(error),
            Ok((_, devices)) => Ok(devices),
        },
    }
}

/// The emulators that adb lists, with their states; what stands above the heading is passed over.
pub fn parse_devices(bytes: &[u8]) -> (r: Result<Vec<AndroidDeviceSnapshot>, WorkstateError>)
    ensures
        seen(r) == devices_listed(bytes@),
{
    let text = match text_from_utf8(bytes) {
        Err(text) => {
            return Err(malformed("adb-devices", text));
        },
        Ok(text) => text,
    };
    let all = text_lines(text.as_str());
    let ghost view = all.deep_view();
    let mut devices: Vec<AndroidDeviceSnapshot> = empty_list();
    let mut begun: bool = false;
    let mut failure: Option<WorkstateError> = None;
    let mut i: usize = 0;
    assert(view.take(0) =~= Seq::<Seq<char>>::empty());
    while i < all.len()
        invariant
            i <= all@.len(),
            view == all.deep_view(),
            device_list_read(view.take(i as int)) == (match failure {
                Some(error) => Err::<
                    (bool, Seq<AndroidDeviceSnapshotView>),
                    WorkstateErrorView,
                >(error@),
                None => Ok::<(bool, Seq<AndroidDeviceSnapshotView>), WorkstateErrorView>(
                    (begun, devices.deep_view()),
                ),
            }),
        decreases all@.len() - i,
    {
        assert(view[i as int] == all@[i as int]@);
        assert(view.take(i as int + 1).drop_last() =~= view.take(i as int));
        let line = text_trim(all[i].as_str());
        if failure.is_none() {
            if same_text(line.as_str(), "List of devices attached") {
                begun = true;
            } else if begun && !line.as_str().is_empty() {
                match read_device(line.as_str()) {
                    Err(error) => {
                        failure = Some(error);
                    },
                    Ok(Some(device)) => append(&mut devices, device),
                    Ok(None) => {},
                }
            }
        }
        i = i + 1;
    }
    assert(view.take(i as int) =~= view);
    match failure {
        Some(error) => Err(error),
        None => Ok(devices),
    }
}

// ---------------------------------------------------------------------------------------------
// Properties of a device
// ---------------------------------------------------------------------------------------------
/// A line that holds the name of a virtual device.
pub open spec fn is_name_line(value: Seq<char>) -> bool {
    value.len() > 0 && lower(value) != "ok"@ && !has_prefix(lower(value), "error"@) && !has_control(
        value,
    )
}

/// The first line that holds the name of a virtual device.
pub open spec fn name_on(all: Seq<Seq<char>>) -> Option<Seq<char>>
    decreases all.len(),
{
    if all.len() == 0 {
        None
    } else if is_name_line(trim(all[0])) {
        Some(trim(all[0]))
    } else {
        name_on(all.drop_first())
    }
}

/// The name of the virtual device that a console tells.
pub open spec fn avd_told(bytes: Seq<u8>) -> Result<Option<Seq<char>>, WorkstateErrorView> {
    match strict_text(bytes) {
        Err(text) => Err(malformed_output("avd-name"@, text)),
        Ok(text) => Ok(name_on(lines(text))),
    }
}

/// The name of the virtual device that a console tells.
pub fn parse_avd_name(bytes: &[u8]) -> (r: Result<Option<String>, WorkstateError>)
    ensures
        seen(r) == avd_told(bytes@),
{
    let text = match text_from_utf8(bytes) {
        Err(text) => {
            return Err(malformed("avd-name", text));
        },
        Ok(text) => text,
    };
    let all = text_lines(text.as_str());
    let ghost view = all.deep_view();
    let mut i: usize = 0;
    assert(view.skip(0) =~= view);
    while i < all.len()
        invariant
            i <= all@.len(),
            view == all.deep_view(),
            avd_told(bytes@) == Ok::<Option<Seq<char>>, WorkstateErrorView>(name_on(view)),
            name_on(view) == name_on(view.skip(i as int)),
        decreases all@.len() - i,
    {
        assert(view.skip(i as int)[0] == all@[i as int]@);
        assert(view.skip(i as int).drop_first() =~= view.skip(i as int + 1));
        let value = text_trim(all[i].as_str());
        let lowered = text_lower(value.as_str());
        if !value.as_str().is_empty() && !same_text(lowered.as_str(), "ok") && !text_starts_with(
            lowered.as_str(),
            "error",
        ) && !text_has_control(value.as_str()) {
            return Ok(Some(value));
        }
        i = i + 1;
    }
    Ok(None)
}

/// One of the lines says that Android has booted.
pub open spec fn boot_in(text: Seq<char>) -> bool {
    exists|i: int| 0 <= i < lines(text).len() && says_booted(#[trigger] lines(text)[i])
}

/// One of the lines that were printed says that Android has booted.
pub open spec fn boot_told(bytes: Seq<u8>) -> bool {
    boot_in(lenient_text(bytes))
}

pub open spec fn says_booted(line: Seq<char>) -> bool {
    trim(line) == "1"@ || trim(line) == "true"@ || trim(line) == "TRUE"@
}

/// Whether one of the lines says that Android has booted.
pub fn parse_boot_property(bytes: &[u8]) -> (r: bool)
    ensures
        r == boot_told(bytes@),
        valid_utf8(bytes@) ==> r == boot_in(decode_utf8(bytes@)),
{
    let all = text_lines(text_from_utf8_lossy(bytes).as_str());
    let ghost view = all.deep_view();
    let mut i: usize = 0;
    while i < all.len()
        invariant
            i <= all@.len(),
            view == all.deep_view(),
            view == lines(lenient_text(bytes@)),
            forall|k: int| 0 <= k < i ==> !says_booted(#[trigger] view[k]),
        decreases all@.len() - i,
    {
        assert(view[i as int] == all@[i as int]@);
        let value = text_trim(all[i].as_str());
        if same_text(value.as_str(), "1") || same_text(value.as_str(), "true") || same_text(
            value.as_str(),
            "TRUE",
        ) {
            assert(says_booted(lines(lenient_text(bytes@))[i as int]));
            return true;
        }
        i = i + 1;
    }
    false
}

/// An application that shows an emulator.
pub open spec fn shows_emulator(application: Seq<char>) -> bool {
    contains_text(lower(alphanumeric(application)), "emulator"@) || contains_text(
        lower(alphanumeric(application)),
        "qemu"@,
    )
}

/// Whether an application shows an emulator.
pub fn is_android_emulator_application(application: &str) -> (r: bool)
    ensures
        r == shows_emulator(application@),
{
    let name = text_lower(text_alphanumeric(application).as_str());
    text_contains(name.as_str(), "emulator") || text_contains(name.as_str(), "qemu")
}

/// The name of a state.
pub open spec fn state_name(state: AndroidDeviceStateView) -> Seq<char> {
    match state {
        AndroidDeviceStateView::Device => "device"@,
        AndroidDeviceStateView::Offline => "offline"@,
        AndroidDeviceStateView::Unauthorized => "unauthorized"@,
        AndroidDeviceStateView::NoPermissions => "no permissions"@,
        AndroidDeviceStateView::Unknown(value) => value,
    }
}

/// The name of a state.
pub fn state_label(state: &AndroidDeviceState) -> (r: String)
    ensures
        r@ == state_name(state@),
{
    match state {
        AndroidDeviceState::Device => "device".to_owned(),
        AndroidDeviceState::Offline => "offline".to_owned(),
        AndroidDeviceState::Unauthorized => "unauthorized".to_owned(),
        AndroidDeviceState::NoPermissions => "no permissions".to_owned(),
        AndroidDeviceState::Unknown(value) => value.clone(),
    }
}

/// The serials of devices.
pub open spec fn serials_of(devices: Seq<AndroidDeviceSnapshotView>) -> Seq<Seq<char>> {
    devices.map_values(|device: AndroidDeviceSnapshotView| device.serial)
}

/// The serials of devices, in ascending order and each once.
pub fn serials(devices: &Vec<AndroidDeviceSnapshot>) -> (r: Vec<String>)
    ensures
        r.deep_view() == sorted_set(serials_of(devices.deep_view())),
{
    let ghost all = devices.deep_view();
    let mut found: Vec<String> = empty_list();
    let mut i: usize = 0;
    assert(serials_of(all.take(0)) =~= Seq::<Seq<char>>::empty());
    while i < devices.len()
        invariant
            i <= devices@.len(),
            all == devices.deep_view(),
            found.deep_view() == sorted_set(serials_of(all.take(i as int))),
        decreases devices@.len() - i,
    {
        assert(all[i as int] == devices@[i as int]@);
        assert(serials_of(all.take(i as int + 1)).drop_last() =~= serials_of(all.take(i as int)));
        assert(serials_of(all.take(i as int + 1)).last() == all[i as int].serial);
        found = put_once(found, devices[i].serial.clone());
        i = i + 1;
    }
    assert(all.take(i as int) =~= all);
    found
}

/// The name of a state reads back as the state, for every state that has a name of its own.
pub proof fn law_state_name_reads_back(state: AndroidDeviceStateView)
    requires
        !(state is Unknown),
    ensures
        state_read(state_name(state), Seq::empty()) == state,
{
    reveal_strlit("device");
    reveal_strlit("offline");
    reveal_strlit("unauthorized");
    reveal_strlit("no permissions");
    reveal_strlit("nopermissions");
    reveal_strlit("no");
    reveal_strlit("permissions");
    assert(lower("device"@) =~= "device"@);
    assert(lower("offline"@) =~= "offline"@);
    assert(lower("unauthorized"@) =~= "unauthorized"@);
    assert(lower("no permissions"@) =~= "no permissions"@);
    assert(lower(Seq::<char>::empty()) =~= Seq::<char>::empty());
    assert("device"@.len() == 6 && "offline"@.len() == 7 && "unauthorized"@.len() == 12
        && "no permissions"@.len() == 14 && "permissions"@.len() == 11 && "no"@.len() == 2
        && "nopermissions"@.len() == 13);
}

/// A word that stands alone is read as a state whose name is the word in lower case, but for
/// "nopermissions", which is another way to write "no permissions". The name reads back as the state
/// that was read, an unknown one too.
pub proof fn law_word_names_its_state(word: Seq<char>)
    ensures
        state_name(state_read(word, Seq::empty())) == (if lower(word) == "nopermissions"@ {
            "no permissions"@
        } else {
            lower(word)
        }),
        state_read(state_name(state_read(word, Seq::empty())), Seq::empty()) == state_read(
            word,
            Seq::empty(),
        ),
{
    reveal_strlit("device");
    reveal_strlit("offline");
    reveal_strlit("unauthorized");
    reveal_strlit("nopermissions");
    reveal_strlit("permissions");
    assert(lower(Seq::<char>::empty()) =~= Seq::<char>::empty());
    assert("device"@.len() == 6 && "offline"@.len() == 7 && "unauthorized"@.len() == 12
        && "permissions"@.len() == 11 && "nopermissions"@.len() == 13);
    assert(lower(lower(word)) =~= lower(word));
    let state = state_read(word, Seq::empty());
    if !(state is Unknown) {
        law_state_name_reads_back(state);
    }
}

/// A line of the list of devices tells an emulator: its first word is the serial, its second one the
/// state. What stands in front of the heading, and what is no emulator, does not count.
pub proof fn law_listed_line_is_read(
    earlier: Seq<Seq<char>>,
    line: Seq<char>,
    devices: Seq<AndroidDeviceSnapshotView>,
    begun: bool,
)
    requires
        device_list_read(earlier) == Ok::<
            (bool, Seq<AndroidDeviceSnapshotView>),
            WorkstateErrorView,
        >((begun, devices)),
        trim(line) != "List of devices attached"@,
        trim(line).len() > 0,
        words(trim(line)).len() == 2,
        !has_control(words(trim(line))[0]),
    ensures
        begun && has_prefix(words(trim(line))[0], "emulator-"@) ==> (device_list_read(
            earlier.push(line),
        ) matches Ok((going, listed)) && going && listed.len() == devices.len() + 1
            && listed.drop_last() == devices && listed.last().serial == words(trim(line))[0]
            && listed.last().avd is None && !listed.last().boot_completed && (words(
            trim(line),
        )[1] == "device"@ ==> listed.last().state == AndroidDeviceStateView::Device) && (words(
            trim(line),
        )[1] == "offline"@ ==> listed.last().state == AndroidDeviceStateView::Offline)),
        !begun || !has_prefix(words(trim(line))[0], "emulator-"@) ==> device_list_read(
            earlier.push(line),
        ) == Ok::<(bool, Seq<AndroidDeviceSnapshotView>), WorkstateErrorView>((begun, devices)),
        device_list_read(earlier.push("List of devices attached"@)) == Ok::<
            (bool, Seq<AndroidDeviceSnapshotView>),
            WorkstateErrorView,
        >((true, devices)),
{
    let heading = "List of devices attached"@;
    assert(earlier.push(line).drop_last() =~= earlier);
    assert(earlier.push(heading).drop_last() =~= earlier);
    reveal_strlit("List of devices attached");
    assert(heading.len() == 24 && !is_white(heading[0]) && !is_white(heading.last()));
    assert(trim_start(heading) == heading);
    assert(trim_end(heading) == heading);
    reveal_strlit("device");
    reveal_strlit("offline");
    reveal_strlit("no");
    assert(lower("device"@) =~= "device"@);
    assert(lower("offline"@) =~= "offline"@);
    assert("device"@.len() == 6 && "offline"@.len() == 7 && "no"@.len() == 2);
    if begun && has_prefix(words(trim(line))[0], "emulator-"@) {
        let listed = device_list_read(earlier.push(line))->Ok_0.1;
        assert(listed.drop_last() =~= devices);
    }
}

/// The name of a virtual device is the first line that is one: an acknowledgement and an error are none.
pub proof fn law_first_name_is_told(line: Seq<char>, rest: Seq<Seq<char>>)
    ensures
        trim(line).len() > 0 && lower(trim(line)) != "ok"@ && !has_prefix(
            lower(trim(line)),
            "error"@,
        ) && !has_control(trim(line)) ==> name_on(seq![line] + rest) == Some(trim(line)),
        trim(line).len() == 0 || lower(trim(line)) == "ok"@ || has_prefix(
            lower(trim(line)),
            "error"@,
        ) ==> name_on(seq![line] + rest) == name_on(rest),
        name_on(Seq::empty()) is None,
{
    assert((seq![line] + rest)[0] == line);
    assert((seq![line] + rest).drop_first() =~= rest);
}

/// An emulator has booted where one of the lines is the number one or the word for it.
pub proof fn law_booted_line_counts(text: Seq<char>, i: int)
    ensures
        0 <= i < lines(text).len() && trim(lines(text)[i]) == "1"@ ==> boot_in(text),
        (forall|k: int|
            0 <= k < lines(text).len() ==> trim(#[trigger] lines(text)[k]) == "0"@ || trim(
                lines(text)[k],
            ).len() == 0) ==> !boot_in(text),
{
    reveal_strlit("1");
    reveal_strlit("0");
    reveal_strlit("true");
    reveal_strlit("TRUE");
    assert("1"@.len() == 1 && "0"@.len() == 1 && "true"@.len() == 4 && "TRUE"@.len() == 4);
    assert("1"@[0] == '1' && "0"@[0] == '0');
    if 0 <= i < lines(text).len() && trim(lines(text)[i]) == "1"@ {
        assert(says_booted(lines(text)[i]));
    }
}

} // verus!
