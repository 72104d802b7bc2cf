//! The errors of Docker operations, without anything sensitive that Docker printed.
use vstd::prelude::*;
use vstd::string::*;
use vstd::utf8::*;
use crate::encoding::{lenient_text, text_from_utf8_lossy};
use crate::error::{error_of, ErrorCategory, WorkstateError, WorkstateErrorView};
use crate::ports::{status_text, ProcessOutput, ProcessOutputView};
use crate::text::{
    char_is_control, chars_of, contains_text, has_control, is_control, join3, join5, joined,
    law_visible_text_has_no_control, lines, lower, text_contains, text_join, text_lines, text_lower,
    text_trim, trim, visible,
};
use crate::values::{append, empty_list, lemma_filter_ends, lemma_filter_step};

verus! {

/// The most characters of a line that are kept.
pub const LINE_LIMIT: usize = 512;

/// A line that may hold a credential.
pub open spec fn is_sensitive(line: Seq<char>) -> bool {
    let text = lower(line);
    ||| contains_text(text, "password"@)
    ||| contains_text(text, "passwd"@)
    ||| contains_text(text, "secret"@)
    ||| contains_text(text, "token"@)
    ||| contains_text(text, "authorization"@)
    ||| contains_text(text, "api_key"@)
    ||| contains_text(text, "apikey"@)
}

/// At most the first `limit` characters.
pub open spec fn at_most(text: Seq<char>, limit: int) -> Seq<char> {
    if text.len() <= limit {
        text
    } else {
        text.take(limit)
    }
}

/// What is shown of one line: nothing of a blank one, a notice in place of a sensitive one, and the
/// first visible characters of any other.
pub open spec fn sanitized_line(line: Seq<char>) -> Option<Seq<char>> {
    let text = trim(line);
    if text.len() == 0 {
        None
    } else if is_sensitive(text) {
        Some("[sensitive Docker diagnostic redacted]"@)
    } else {
        Some(at_most(visible(text), LINE_LIMIT as int))
    }
}

/// What is shown of each line that is shown.
pub open spec fn sanitized_lines(all: Seq<Seq<char>>) -> Seq<Seq<char>>
    decreases all.len(),
{
    if all.len() == 0 {
        Seq::empty()
    } else {
        let front = sanitized_lines(all.drop_last());
        match sanitized_line(all.last()) {
            Some(line) => front.push(line),
            None => front,
        }
    }
}

/// What is shown of a text, where anything is.
pub open spec fn sanitized(text: Seq<char>) -> Option<Seq<char>> {
    let shown = sanitized_lines(lines(text));
    if shown.len() == 0 {
        None
    } else {
        Some(joined(shown, " "@))
    }
}

/// What is shown of the output of a process: of its standard error, else of its standard output.
pub open spec fn diagnostic(output: ProcessOutputView) -> Option<Seq<char>> {
    match sanitized(lenient_text(output.stderr)) {
        Some(text) => Some(text),
        None => sanitized(lenient_text(output.stdout)),
    }
}

/// The error of a Docker operation that failed.
pub open spec fn docker_failure(
    operation: Seq<char>,
    output: ProcessOutputView,
) -> WorkstateErrorView {
    let text = match diagnostic(output) {
        Some(text) => text,
        None => "Docker returned no diagnostic output"@,
    };
    error_of(
        ErrorCategory::Integration,
        "Docker operation '"@ + operation + "' failed: "@ + text,
    ).with("operation"@, operation).with("exit_status"@, status_text(output.status))
}

/// The error of a missing container that no image is known for.
pub open spec fn missing_image_error(
    action_id: Seq<char>,
    container_name: Seq<char>,
) -> WorkstateErrorView {
    error_of(
        ErrorCategory::Integration,
        "container '"@ + container_name + "' is missing and action '"@ + action_id
            + "' does not define an image"@,
    ).with("action_id"@, action_id).with("container_name"@, container_name)
}

/// The error of a container that is not configured as it should be.
pub open spec fn conflict_error(
    container_name: Seq<char>,
    expected_key: Seq<char>,
    actual_key: Seq<char>,
) -> WorkstateErrorView {
    error_of(
        ErrorCategory::Integration,
        "Docker container '"@ + container_name
            + "' exists with incompatible configuration; it was preserved"@,
    ).with("container_name"@, container_name).with("expected_configuration"@, expected_key).with(
        "actual_configuration"@,
        actual_key,
    )
}

fn line_is_sensitive(line: &str) -> (r: bool)
    ensures
        r == is_sensitive(line@),
{
    let lowered = text_lower(line);
    let text = lowered.as_str();
    text_contains(text, "password") || text_contains(text, "passwd") || text_contains(
        text,
        "secret",
    ) || text_contains(text, "token") || text_contains(text, "authorization") || text_contains(
        text,
        "api_key",
    ) || text_contains(text, "apikey")
}

/// The first visible characters of a line.
fn visible_start(line: &str) -> (r: String)
    ensures
        r@ == at_most(visible(line@), LINE_LIMIT as int),
{
    let chars = chars_of(line);
    let ghost keep = |c: char| !is_control(c);
    let mut r: String = String::new();
    let mut count: usize = 0;
    let mut i: usize = 0;
    proof {
        lemma_filter_ends(line@, keep);
    }
    while i < chars.len()
        invariant
            i <= chars@.len(),
            chars@ == line@,
            keep == (|c: char| !is_control(c)),
            r@ == at_most(line@.take(i as int).filter(keep), LINE_LIMIT as int),
            count == r@.len(),
            count <= LINE_LIMIT,
        decreases chars@.len() - i,
    {
        proof {
            lemma_filter_step(line@, i as int, keep);
        }
        let ghost shown = line@.take(i as int).filter(keep);
        if !char_is_control(chars[i]) {
            if count < LINE_LIMIT {
                r.push(chars[i]);
                count = count + 1;
                assert(shown.push(line@[i as int]).len() <= LINE_LIMIT);
            } else {
                assert(shown.push(line@[i as int]).take(LINE_LIMIT as int) =~= r@);
            }
        }
        i = i + 1;
    }
    r
}

/// What is shown of one line.
pub fn sanitize_line(line: &str) -> (r: Option<String>)
    ensures
        r.deep_view() == sanitized_line(line@),
{
    let text = text_trim(line);
    if text.as_str().is_empty() {
        return None;
    }
    if line_is_sensitive(text.as_str()) {
        return Some("[sensitive Docker diagnostic redacted]".to_owned());
    }
    Some(visible_start(text.as_str()))
}

/// What is shown of a text, where anything is.
pub fn sanitized_text(text: &str) -> (r: Option<String>)
    ensures
        r.deep_view() == sanitized(text@),
{
    let all = text_lines(text);
    let ghost view = all.deep_view();
    let mut shown: Vec<String> = empty_list();
    let mut i: usize = 0;
    assert(view.take(0) =~= Seq::<Seq<char>>::empty());
    while i < all.len()
        invariant
            i <= all@.len(),
            view == all.deep_view(),
            shown.deep_view() == sanitized_lines(view.take(i as int)),
        decreases all@.len() - i,
    {
        assert(view.take(i as int + 1).drop_last() =~= view.take(i as int));
        assert(view[i as int] == all@[i as int]@);
        if let Some(line) = sanitize_line(all[i].as_str()) {
            append(&mut shown, line);
        }
        i = i + 1;
    }
    assert(view.take(i as int) =~= view);
    if shown.len() == 0 {
        None
    } else {
        Some(text_join(&shown, " "))
    }
}

/// What is shown of the output of a process, where anything is.
pub fn sanitized_output(bytes: &[u8]) -> (r: Option<String>)
    ensures
        r.deep_view() == sanitized(lenient_text(bytes@)),
        valid_utf8(bytes@) ==> r.deep_view() == sanitized(decode_utf8(bytes@)),
{
    sanitized_text(text_from_utf8_lossy(bytes).as_str())
}

/// What is shown of a failed process: of its standard error, else of its standard output.
pub fn output_diagnostic(output: &ProcessOutput) -> (r: Option<String>)
    ensures
        r.deep_view() == diagnostic(output@),
{
    assert(output.stderr.deep_view() =~= output.stderr@);
    assert(output.stdout.deep_view() =~= output.stdout@);
    match sanitized_output(output.stderr.as_slice()) {
        Some(text) => Some(text),
        None => sanitized_output(output.stdout.as_slice()),
    }
}

/// The error of a Docker operation that failed.
pub fn docker_error(operation: &str, output: &ProcessOutput) -> (r: WorkstateError)
    ensures
        r@ == docker_failure(operation@, output@),
{
    let text = match output_diagnostic(output) {
        Some(text) => text,
        None => "Docker returned no diagnostic output".to_owned(),
    };
    let message = crate::text::join4("Docker operation '", operation, "' failed: ", text.as_str());
    WorkstateError::new(ErrorCategory::Integration, message.as_str()).with_context(
        "operation",
        operation,
    ).with_context("exit_status", output.status_text().as_str())
}

/// The error of a missing container that no image is known for.
pub fn missing_image(action_id: &str, container_name: &str) -> (r: WorkstateError)
    ensures
        r@ == missing_image_error(action_id@, container_name@),
{
    let message = join5(
        "container '",
        container_name,
        "' is missing and action '",
        action_id,
        "' does not define an image",
    );
    WorkstateError::new(ErrorCategory::Integration, message.as_str()).with_context(
        "action_id",
        action_id,
    ).with_context("container_name", container_name)
}

/// The error of a container that is not configured as it should be.
pub fn conflict(container_name: &str, expected_key: &str, actual_key: &str) -> (r: WorkstateError)
    ensures
        r@ == conflict_error(container_name@, expected_key@, actual_key@),
{
    let message = join3(
        "Docker container '",
        container_name,
        "' exists with incompatible configuration; it was preserved",
    );
    WorkstateError::new(ErrorCategory::Integration, message.as_str()).with_context(
        "container_name",
        container_name,
    ).with_context("expected_configuration", expected_key).with_context(
        "actual_configuration",
        actual_key,
    )
}

/// The error of a Compose configuration that cannot be used.
pub fn compose_configuration_error(message: &str) -> (r: WorkstateError)
    ensures
        r@ == error_of(ErrorCategory::Integration, message@),
{
    WorkstateError::new(ErrorCategory::Integration, message)
}

/// The error of a Compose operation that failed.
pub fn compose_failure(operation: &str, output: &ProcessOutput) -> (r: WorkstateError)
    ensures
        r@ == docker_failure(operation@, output@),
{
    docker_error(operation, output)
}

/// The line, without white space round it, holds a word that goes with something secret, in any case.
pub open spec fn tells_a_secret(line: Seq<char>) -> bool {
    exists|i: int|
        0 <= i < secret_words().len() && contains_text(
            lower(trim(line)),
            #[trigger] secret_words()[i],
        )
}

/// Words that go with something secret.
pub open spec fn secret_words() -> Seq<Seq<char>> {
    seq![
        "password"@,
        "passwd"@,
        "secret"@,
        "token"@,
        "authorization"@,
        "api_key"@,
        "apikey"@,
    ]
}

/// Of a line that tells a secret nothing is shown but that it was there; any other line that is not
/// blank is shown, as far as it can be seen and up to a limit; a blank one is not.
pub proof fn law_secrets_are_not_shown(line: Seq<char>)
    ensures
        trim(line).len() == 0 <==> sanitized_line(line) is None,
        trim(line).len() > 0 && tells_a_secret(line) ==> sanitized_line(line) == Some(
            "[sensitive Docker diagnostic redacted]"@,
        ),
        trim(line).len() > 0 && !tells_a_secret(line) && !has_control(trim(line)) ==> (if trim(
            line,
        ).len() <= 512 {
            sanitized_line(line) == Some(trim(line))
        } else {
            sanitized_line(line) == Some(trim(line).take(512))
        }),
        sanitized_line(line) matches Some(shown) ==> !has_control(shown) && shown.len() <= 512,
{
    let text = trim(line);
    let all = secret_words();
    assert(all[0] == "password"@ && all[1] == "passwd"@ && all[2] == "secret"@ && all[3] == "token"@
        && all[4] == "authorization"@ && all[5] == "api_key"@ && all[6] == "apikey"@);
    assert(tells_a_secret(line) <==> is_sensitive(text)) by {
        if is_sensitive(text) {
            assert(contains_text(lower(text), all[0]) || contains_text(lower(text), all[1])
                || contains_text(lower(text), all[2]) || contains_text(lower(text), all[3])
                || contains_text(lower(text), all[4]) || contains_text(lower(text), all[5])
                || contains_text(lower(text), all[6]));
        }
    }
    law_visible_text_has_no_control(text);
    if text.len() > 0 {
        if is_sensitive(text) {
            lemma_redaction_text();
        } else {
            let shown = at_most(visible(text), 512);
            if has_control(shown) {
                let i = choose|i: int| 0 <= i < shown.len() && #[trigger] is_control(shown[i]);
                assert(visible(text)[i] == shown[i]);
            }
        }
    }
}

proof fn lemma_redaction_text()
    ensures
        "[sensitive Docker diagnostic redacted]"@.len() == 38,
        !has_control("[sensitive Docker diagnostic redacted]"@),
{
    reveal_strlit("[sensitive Docker diagnostic redacted]");
    let text = "[sensitive Docker diagnostic redacted]"@;
    assert(text.len() == 38);
    assert forall|i: int| 0 <= i < text.len() implies !#[trigger] is_control(text[i]) by {}
}

/// What is shown of two texts one after the other is what is shown of each, in their order; and nothing
/// is shown exactly where every line is blank.
pub proof fn law_lines_are_shown_in_their_order(a: Seq<Seq<char>>, b: Seq<Seq<char>>)
    ensures
        sanitized_lines(a + b) == sanitized_lines(a) + sanitized_lines(b),
        sanitized_lines(a).len() <= a.len(),
        sanitized_lines(a).len() == 0 <==> forall|i: int|
            0 <= i < a.len() ==> trim(#[trigger] a[i]).len() == 0,
    decreases b.len(), a.len(),
{
    if b.len() > 0 {
        law_lines_are_shown_in_their_order(a, b.drop_last());
        assert((a + b).drop_last() =~= a + b.drop_last());
        assert((a + b).last() == b.last());
        assert(sanitized_lines(a + b) =~= sanitized_lines(a) + sanitized_lines(b));
    } else {
        assert(a + b =~= a);
        assert(sanitized_lines(a) + sanitized_lines(b) =~= sanitized_lines(a));
        if a.len() > 0 {
            let front = a.drop_last();
            law_lines_are_shown_in_their_order(front, b);
            assert(forall|i: int| 0 <= i < front.len() ==> #[trigger] front[i] == a[i]);
            assert(a[a.len() - 1] == a.last());
            law_secrets_are_not_shown(a.last());
            if sanitized_lines(a).len() == 0 {
                assert forall|i: int| 0 <= i < a.len() implies trim(#[trigger] a[i]).len() == 0 by {
                    if i < front.len() {
                        assert(front[i] == a[i]);
                    }
                }
            }
        }
    }
}

/// A failure is told with what Docker printed as an error, or else with what it printed; with the name of
/// the operation and its exit status.
pub proof fn law_failure_tells_what_was_printed(operation: Seq<char>, output: ProcessOutputView)
    ensures
        sanitized(lenient_text(output.stderr)) matches Some(text) ==> docker_failure(
            operation,
            output,
        ).message == "Docker operation '"@ + operation + "' failed: "@ + text,
        sanitized(lenient_text(output.stderr)) is None ==> (sanitized(lenient_text(output.stdout))
            matches Some(text) ==> docker_failure(operation, output).message
            == "Docker operation '"@ + operation + "' failed: "@ + text),
        docker_failure(operation, output).category == ErrorCategory::Integration,
{
}

} // verus!
