//! Readiness checks: what is run for each of them, and what its result says.
use vstd::prelude::*;
use vstd::string::*;
use crate::encoding::{lenient_text, text_from_utf8_lossy};
use crate::error::{error_of, seen, ErrorCategory, WorkstateError, WorkstateErrorView};
use crate::planner::{check_failed, check_passed, ReadinessCheckResult, ReadinessCheckResultView};
use crate::ports::{
    status_text, ProcessOutputView, ProcessRequest, ProcessRequestView, ProcessRun, ProcessRunView,
};
use crate::text::{
    all_digits, contains_text, decimal, digit_char, digits_value, is_ascii_digit, join2, join3,
    join4, joined, law_decimal_reads_back, law_halves_are_found_again,
    law_joined_parts_are_split_again, law_split_once_cuts_at_the_first, occurs_at, parse_unsigned,
    split_on, split_once, text_decimal, text_join, text_parse_unsigned, text_split, text_split_once,
    text_trim, trim,
};
use crate::time::{span_of_millis, TimeSpan};
use crate::values::{append, append_text, empty_list};

verus! {

/// How often a check is repeated where nothing else is asked for, in milliseconds.
pub const DEFAULT_POLL_MILLISECONDS: u64 = 100;

/// The interval that a check is repeated at: an empty one is replaced by the default.
pub fn poll_interval(value: TimeSpan) -> (r: TimeSpan)
    ensures
        r == (if value.nanoseconds == 0 {
            span_of_millis(DEFAULT_POLL_MILLISECONDS)
        } else {
            value
        }),
{
    if value.is_zero() {
        TimeSpan::from_millis(DEFAULT_POLL_MILLISECONDS)
    } else {
        value
    }
}

/// A time limit as curl reads it: seconds with three decimal places, and never zero.
pub open spec fn curl_seconds(timeout: TimeSpan) -> Seq<char> {
    let milliseconds = if timeout.millis() == 0 {
        1
    } else {
        timeout.millis()
    };
    decimal(milliseconds / 1000) + "."@ + seq![
        digit_char((milliseconds % 1000 / 100) as int),
        digit_char((milliseconds % 100 / 10) as int),
        digit_char((milliseconds % 10) as int),
    ]
}

/// A time limit as curl reads it.
pub fn curl_timeout(timeout: TimeSpan) -> (r: String)
    ensures
        r@ == curl_seconds(timeout),
{
    let whole = timeout.as_millis();
    let milliseconds: u128 = if whole == 0 {
        1
    } else {
        whole
    };
    let mut r = text_decimal(milliseconds / 1000);
    r.append(".");
    let hundreds: u8 = (milliseconds % 1000 / 100) as u8;
    let tens: u8 = (milliseconds % 100 / 10) as u8;
    let ones: u8 = (milliseconds % 10) as u8;
    r.push((48 + hundreds) as char);
    r.push((48 + tens) as char);
    r.push((48 + ones) as char);
    assert(r@ =~= curl_seconds(timeout));
    r
}

// ---------------------------------------------------------------------------------------------
// Addresses
// ---------------------------------------------------------------------------------------------
/// One part of a query without its value.
pub open spec fn redacted_part(part: Seq<char>) -> Seq<char> {
    match split_once(part, "="@) {
        Some((key, _)) => key + "=[redacted]"@,
        None => part,
    }
}

/// An address without the values in its query.
pub open spec fn redacted_url(url: Seq<char>) -> Seq<char> {
    match split_once(url, "?"@) {
        Some((prefix, query)) => prefix + "?"@ + joined(
            split_on(query, '&').map_values(|part: Seq<char>| redacted_part(part)),
            "&"@,
        ),
        None => url,
    }
}

/// An address without the values in its query.
pub fn redact_url(url: &str) -> (r: String)
    ensures
        r@ == redacted_url(url@),
{
    match text_split_once(url, "?") {
        None => url.to_owned(),
        Some((prefix, query)) => {
            let parts = text_split(query.as_str(), '&');
            let ghost all = split_on(query@, '&').map_values(
                |part: Seq<char>| redacted_part(part),
            );
            let mut shown: Vec<String> = empty_list();
            let mut i: usize = 0;
            while i < parts.len()
                invariant
                    i <= parts@.len(),
                    parts.deep_view() == split_on(query@, '&'),
                    all == split_on(query@, '&').map_values(
                        |part: Seq<char>| redacted_part(part),
                    ),
                    shown.deep_view() == all.take(i as int),
                decreases parts@.len() - i,
            {
                assert(parts.deep_view()[i as int] == parts@[i as int]@);
                let part = match text_split_once(parts[i].as_str(), "=") {
                    Some((key, _)) => join2(key.as_str(), "=[redacted]"),
                    None => parts[i].clone(),
                };
                append(&mut shown, part);
                assert(all.take(i as int + 1) =~= all.take(i as int).push(all[i as int]));
                i = i + 1;
            }
            assert(all.take(i as int) =~= all);
            join3(prefix.as_str(), "?", text_join(&shown, "&").as_str())
        },
    }
}

// ---------------------------------------------------------------------------------------------
// HTTP
// ---------------------------------------------------------------------------------------------
/// The arguments of the curl call that prints nothing but the status of the answer.
pub open spec fn curl_arguments(url: Seq<char>, timeout: TimeSpan) -> Seq<Seq<char>> {
    seq![
        "--silent"@,
        "--show-error"@,
        "--location"@,
        "--connect-timeout"@,
        curl_seconds(timeout),
        "--max-time"@,
        curl_seconds(timeout),
        "--output"@,
        "/dev/null"@,
        "--write-out"@,
        "%{http_code}"@,
        url,
    ]
}

/// The process that asks an address for its status.
pub fn http_request(url: &str, timeout: TimeSpan, working_directory: Option<String>) -> (r:
    ProcessRequest)
    ensures
        r@ == (ProcessRequestView {
            program: "curl"@,
            arguments: curl_arguments(url@, timeout),
            working_directory: working_directory.deep_view(),
            environment: Seq::empty(),
        }),
{
    let limit = curl_timeout(timeout);
    let mut arguments: Vec<String> = empty_list();
    append_text(&mut arguments, "--silent");
    append_text(&mut arguments, "--show-error");
    append_text(&mut arguments, "--location");
    append_text(&mut arguments, "--connect-timeout");
    append_text(&mut arguments, limit.as_str());
    append_text(&mut arguments, "--max-time");
    append_text(&mut arguments, limit.as_str());
    append_text(&mut arguments, "--output");
    append_text(&mut arguments, "/dev/null");
    append_text(&mut arguments, "--write-out");
    append_text(&mut arguments, "%{http_code}");
    append_text(&mut arguments, url);
    assert(arguments.deep_view() =~= curl_arguments(url@, timeout));
    ProcessRequest {
        program: "curl".to_owned(),
        arguments,
        working_directory,
        environment: empty_list(),
    }
}

/// The error of a check that was cancelled.
pub open spec fn cancelled_error(message: Seq<char>) -> WorkstateErrorView {
    error_of(ErrorCategory::Runtime, message).with("cancelled"@, "true"@)
}

pub fn cancelled(message: &str) -> (r: WorkstateError)
    ensures
        r@ == cancelled_error(message@),
{
    WorkstateError::new(ErrorCategory::Runtime, message).with_context("cancelled", "true")
}

/// A status is accepted where it is the expected one; where none is expected, any success or
/// redirection is.
pub open spec fn status_accepted(status: nat, expected: Option<u16>) -> bool {
    match expected {
        Some(expected) => status == expected,
        None => 200 <= status < 400,
    }
}

/// What the end of the curl process says of the check.
pub open spec fn http_judged(
    url: Seq<char>,
    expected_status: Option<u16>,
    run: ProcessRunView,
) -> Result<ReadinessCheckResultView, WorkstateErrorView> {
    match run {
        ProcessRunView::Cancelled => Err(
            cancelled_error("operation was cancelled during the HTTP readiness check"@),
        ),
        ProcessRunView::TimedOut => Ok(check_failed("HTTP request timed out"@)),
        ProcessRunView::Failed(error) => Err(
            error.with("operation"@, "HTTP readiness check"@).with("url"@, redacted_url(url)),
        ),
        ProcessRunView::Finished(output) => if !output.success() {
            Ok(check_failed("HTTP request failed for "@ + redacted_url(url)))
        } else {
            match parse_unsigned(trim(lenient_text(output.stdout)), u16::MAX as nat) {
                None => Err(
                    error_of(
                        ErrorCategory::Integration,
                        "HTTP readiness command returned an invalid status"@,
                    ),
                ),
                Some(status) => if status_accepted(status, expected_status) {
                    Ok(check_passed())
                } else {
                    Ok(check_failed("HTTP readiness returned status "@ + decimal(status)))
                },
            }
        },
    }
}

/// What the end of the curl process says of the check.
pub fn http_check(url: &str, expected_status: Option<u16>, run: ProcessRun) -> (r: Result<
    ReadinessCheckResult,
    WorkstateError,
>)
    ensures
        seen(r) == http_judged(url@, expected_status, run@),
{
    match run {
        ProcessRun::Cancelled => Err(
            cancelled("operation was cancelled during the HTTP readiness check"),
        ),
        ProcessRun::TimedOut => Ok(ReadinessCheckResult::failed("HTTP request timed out")),
        ProcessRun::Failed(error) => Err(
            error.with_context("operation", "HTTP readiness check").with_context(
                "url",
                redact_url(url).as_str(),
            ),
        ),
        ProcessRun::Finished(output) => {
            if !output.succeeded() {
                let detail = join2("HTTP request failed for ", redact_url(url).as_str());
                return Ok(ReadinessCheckResult::failed(detail.as_str()));
            }
            assert(output.stdout.deep_view() =~= output.stdout@);
            let text = text_trim(text_from_utf8_lossy(output.stdout.as_slice()).as_str());
            match text_parse_unsigned(text.as_str(), u16::MAX as u64) {
                None => Err(
                    WorkstateError::new(
                        ErrorCategory::Integration,
                        "HTTP readiness command returned an invalid status",
                    ),
                ),
                Some(status) => {
                    let accepted = match expected_status {
                        Some(expected) => status == expected as u64,
                        None => 200 <= status && status < 400,
                    };
                    if accepted {
                        Ok(ReadinessCheckResult::passed())
                    } else {
                        let detail = join2(
                            "HTTP readiness returned status ",
                            text_decimal(status as u128).as_str(),
                        );
                        Ok(ReadinessCheckResult::failed(detail.as_str()))
                    }
                },
            }
        },
    }
}

// ---------------------------------------------------------------------------------------------
// Commands, connections and delays
// ---------------------------------------------------------------------------------------------
/// What the end of a readiness command says of the check.
pub open spec fn command_judged(action_id: Seq<char>, run: ProcessRunView) -> Result<
    ReadinessCheckResultView,
    WorkstateErrorView,
> {
    match run {
        ProcessRunView::Cancelled => Err(
            cancelled_error("operation was cancelled during the command readiness check"@),
        ),
        ProcessRunView::TimedOut => Ok(check_failed("readiness command timed out"@)),
        ProcessRunView::Failed(error) => Err(error),
        ProcessRunView::Finished(output) => if output.success() {
            Ok(check_passed())
        } else {
            Ok(
                check_failed(
                    "readiness command for action '"@ + action_id + "' exited with status "@
                        + status_text(output.status),
                ),
            )
        },
    }
}

/// What the end of a readiness command says of the check.
pub fn command_check(action_id: &str, run: ProcessRun) -> (r: Result<
    ReadinessCheckResult,
    WorkstateError,
>)
    ensures
        seen(r) == command_judged(action_id@, run@),
{
    match run {
        ProcessRun::Cancelled => Err(
            cancelled("operation was cancelled during the command readiness check"),
        ),
        ProcessRun::TimedOut => Ok(ReadinessCheckResult::failed("readiness command timed out")),
        ProcessRun::Failed(error) => Err(error),
        ProcessRun::Finished(output) => {
            if output.succeeded() {
                return Ok(ReadinessCheckResult::passed());
            }
            let detail = join4(
                "readiness command for action '",
                action_id,
                "' exited with status ",
                output.status_text().as_str(),
            );
            Ok(ReadinessCheckResult::failed(detail.as_str()))
        },
    }
}

/// How the attempt to connect ended.
pub enum TcpAttempt {
    Connected,
    Refused(WorkstateError),
    WorkerFailed(String),
    TimedOut,
    Cancelled,
}

/// What the attempt to connect says of the check.
pub open spec fn tcp_judged(attempt: TcpAttempt) -> Result<
    ReadinessCheckResultView,
    WorkstateErrorView,
> {
    match attempt {
        TcpAttempt::Connected => Ok(check_passed()),
        TcpAttempt::Refused(error) => Ok(check_failed(error@.message)),
        TcpAttempt::WorkerFailed(detail) => Err(
            error_of(ErrorCategory::Runtime, "TCP readiness worker failed"@).with(
                "detail"@,
                detail@,
            ),
        ),
        TcpAttempt::TimedOut => Ok(check_failed("TCP connection timed out"@)),
        TcpAttempt::Cancelled => Err(
            cancelled_error("operation was cancelled during the TCP readiness check"@),
        ),
    }
}

/// What the attempt to connect says of the check.
pub fn tcp_check(attempt: TcpAttempt) -> (r: Result<ReadinessCheckResult, WorkstateError>)
    ensures
        seen(r) == tcp_judged(attempt),
{
    match attempt {
        TcpAttempt::Connected => Ok(ReadinessCheckResult::passed()),
        TcpAttempt::Refused(error) => Ok(ReadinessCheckResult::failed(error.message.as_str())),
        TcpAttempt::WorkerFailed(detail) => Err(
            WorkstateError::new(ErrorCategory::Runtime, "TCP readiness worker failed").with_context(
                "detail",
                detail.as_str(),
            ),
        ),
        TcpAttempt::TimedOut => Ok(ReadinessCheckResult::failed("TCP connection timed out")),
        TcpAttempt::Cancelled => Err(
            cancelled("operation was cancelled during the TCP readiness check"),
        ),
    }
}

/// What the end of a delay says of the check.
pub fn delay(was_cancelled: bool) -> (r: Result<ReadinessCheckResult, WorkstateError>)
    ensures
        seen(r) == (if was_cancelled {
            Err(cancelled_error("operation was cancelled during a Docker readiness delay"@))
        } else {
            Ok(check_passed())
        }),
{
    if was_cancelled {
        Err(cancelled("operation was cancelled during a Docker readiness delay"))
    } else {
        Ok(ReadinessCheckResult::passed())
    }
}

/// The time that curl is given is the time of the check: seconds and, behind the point, thousandths; at
/// least one thousandth, since none would mean no limit.
pub proof fn law_curl_gets_the_time_of_the_check(timeout: TimeSpan)
    ensures
        ({
            let text = curl_seconds(timeout);
            let at = text.len() - 4;
            &&& at > 0
            &&& text[at] == '.'
            &&& all_digits(text.take(at))
            &&& all_digits(text.skip(at + 1))
            &&& digits_value(text.take(at)) * 1000 + digits_value(text.skip(at + 1)) == if timeout.nanoseconds
                < 1_000_000 {
                1
            } else {
                timeout.nanoseconds as int / 1_000_000
            }
        }),
{
    reveal_strlit(".");
    let milliseconds = if timeout.millis() == 0 {
        1
    } else {
        timeout.millis()
    };
    let whole = decimal(milliseconds / 1000);
    let tenth = digit_char((milliseconds % 1000 / 100) as int);
    let hundredth = digit_char((milliseconds % 100 / 10) as int);
    let thousandth = digit_char((milliseconds % 10) as int);
    let text = curl_seconds(timeout);
    law_decimal_reads_back(milliseconds / 1000);
    let at = text.len() - 4;
    let fraction = seq![tenth, hundredth, thousandth];
    assert("."@ =~= seq!['.']);
    assert(text.take(at) =~= whole);
    assert(text.skip(at + 1) =~= fraction);
    assert(is_ascii_digit(tenth) && is_ascii_digit(hundredth) && is_ascii_digit(thousandth));
    assert(fraction.drop_last() =~= seq![tenth, hundredth]);
    assert(seq![tenth, hundredth].drop_last() =~= seq![tenth]);
    assert(seq![tenth].drop_last() =~= Seq::<char>::empty());
    assert(digits_value(Seq::<char>::empty()) == 0);
    assert(digits_value(seq![tenth]) == milliseconds % 1000 / 100);
    assert(digits_value(seq![tenth, hundredth]) == milliseconds % 1000 / 100 * 10 + milliseconds
        % 100 / 10);
    assert(digits_value(fraction) == milliseconds % 1000 / 100 * 100 + milliseconds % 100 / 10 * 10
        + milliseconds % 10);
}

/// An address passes where it answers with the status that is expected or, where none is, with one that
/// is no error; another status, no answer and an answer that comes too late do not.
pub proof fn law_expected_status_passes(
    url: Seq<char>,
    expected: Option<u16>,
    output: ProcessOutputView,
    status: u16,
)
    requires
        output.status == Some(0i32),
        trim(lenient_text(output.stdout)) == decimal(status as nat),
    ensures
        http_judged(url, expected, ProcessRunView::Finished(output)) matches Ok(result)
            && result.passed == (match expected {
            Some(wanted) => status == wanted,
            None => 200 <= status && status < 400,
        }),
        http_judged(url, expected, ProcessRunView::TimedOut) matches Ok(result) && !result.passed,
        http_judged(url, expected, ProcessRunView::Cancelled) is Err,
        forall|other: ProcessOutputView|
            other.status != Some(0i32) ==> (#[trigger] http_judged(
                url,
                expected,
                ProcessRunView::Finished(other),
            ) matches Ok(result) && !result.passed),
{
    law_decimal_reads_back(status as nat);
    assert(parse_unsigned(decimal(status as nat), u16::MAX as nat) == Some(status as nat));
}

/// A command passes where it ends well, and a connection where it is made.
pub proof fn law_command_or_connection_passes(
    action_id: Seq<char>,
    output: ProcessOutputView,
    attempt: TcpAttempt,
)
    ensures
        command_judged(action_id, ProcessRunView::Finished(output)) matches Ok(result)
            && result.passed == (output.status == Some(0i32)),
        command_judged(action_id, ProcessRunView::TimedOut) matches Ok(result) && !result.passed,
        command_judged(action_id, ProcessRunView::Cancelled) is Err,
        (tcp_judged(attempt) matches Ok(result) && result.passed) <==> attempt is Connected,
        attempt is Refused || attempt is TimedOut ==> (tcp_judged(attempt) matches Ok(result)
            && !result.passed),
        attempt is Cancelled || attempt is WorkerFailed ==> tcp_judged(attempt) is Err,
{
}

/// What an address is asked with is not told: behind the question mark each name stands, and no value.
pub proof fn law_values_of_a_query_are_not_told(
    prefix: Seq<char>,
    keys: Seq<Seq<char>>,
    values: Seq<Seq<char>>,
)
    requires
        !prefix.contains('?'),
        keys.len() > 0,
        keys.len() == values.len(),
        forall|i: int|
            0 <= i < keys.len() ==> !(#[trigger] keys[i]).contains('&') && !keys[i].contains('='),
        forall|i: int| 0 <= i < values.len() ==> !(#[trigger] values[i]).contains('&'),
    ensures
        redacted_url(
            prefix + seq!['?'] + joined(
                Seq::new(keys.len(), |i: int| keys[i] + seq!['='] + values[i]),
                seq!['&'],
            ),
        ) == prefix + seq!['?'] + joined(
            Seq::new(keys.len(), |i: int| keys[i] + "=[redacted]"@),
            seq!['&'],
        ),
        forall|url: Seq<char>| !url.contains('?') ==> #[trigger] redacted_url(url) == url,
{
    reveal_strlit("?");
    reveal_strlit("&");
    reveal_strlit("=");
    assert("?"@ =~= seq!['?']);
    assert("&"@ =~= seq!['&']);
    assert("="@ =~= seq!['=']);
    let parts = Seq::new(keys.len(), |i: int| keys[i] + seq!['='] + values[i]);
    let query = joined(parts, seq!['&']);
    law_halves_are_found_again(prefix, '?', query);
    assert forall|i: int| 0 <= i < parts.len() implies !(#[trigger] parts[i]).contains('&') by {
        if parts[i].contains('&') {
            let k = choose|k: int| 0 <= k < parts[i].len() && parts[i][k] == '&';
            if k < keys[i].len() {
                assert(keys[i][k] == '&');
            } else if k > keys[i].len() {
                assert(values[i][k - keys[i].len() - 1] == '&');
            }
        }
    }
    law_joined_parts_are_split_again(parts, '&');
    let told = parts.map_values(|part: Seq<char>| redacted_part(part));
    assert(told =~= Seq::new(keys.len(), |i: int| keys[i] + "=[redacted]"@)) by {
        assert forall|i: int| 0 <= i < keys.len() implies told[i] == keys[i] + "=[redacted]"@ by {
            assert(parts[i] == keys[i] + seq!['='] + values[i]);
            assert(!keys[i].contains('='));
            law_halves_are_found_again(keys[i], '=', values[i]);
        }
    }
    assert forall|url: Seq<char>| !url.contains('?') implies #[trigger] redacted_url(url) == url by {
        law_split_once_cuts_at_the_first(url, seq!['?']);
        if contains_text(url, seq!['?']) {
            let i = choose|i: int| #[trigger] occurs_at(url, seq!['?'], i);
            assert(url.subrange(i, i + 1)[0] == url[i]);
        }
    }
}

} // verus!
