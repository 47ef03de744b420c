//! What holds of the raw rendering: a record never breaks its line.

use vstd::prelude::*;

use crate::goose::{optional_request_text, GooseDebug};
use crate::metrics::{
    method_name, GooseErrorMetric, GooseMethod, GooseRawRequest, GooseRequestMetric,
    GooseTaskMetric,
};
use crate::render::{
    fields_text, lemma_escaped_one_line, one_line, optional_number_text, optional_text,
    record_text,
};
use crate::text::{decimal, is_digit, lemma_decimal_digits};

verus! {

/// Neither the names nor the values of the fields hold a line feed.
pub open spec fn fields_one_line(fields: Seq<(Seq<char>, Seq<char>)>) -> bool {
    forall|i: int|
        0 <= i < fields.len() ==> one_line((#[trigger] fields[i]).0) && one_line(fields[i].1)
}

/// A numeral holds no line feed.
pub proof fn lemma_decimal_one_line(n: nat)
    ensures
        one_line(decimal(n)),
{
    lemma_decimal_digits(n);
    assert forall|i: int| 0 <= i < decimal(n).len() implies #[trigger] decimal(n)[i] != '\n' by {
        assert(is_digit(decimal(n)[i]));
    }
}

/// The raw rendering of an optional number holds no line feed.
pub proof fn lemma_optional_number_one_line(value: Option<u64>, indent: Seq<char>)
    ensures
        one_line(optional_number_text(value, false, indent)),
{
    if let Some(n) = value {
        lemma_decimal_one_line(n as nat);
    }
}

/// The raw rendering of an optional text holds no line feed.
pub proof fn lemma_optional_text_one_line(value: Option<String>, indent: Seq<char>)
    ensures
        one_line(optional_text(value, false, indent)),
{
    if let Some(text) = value {
        lemma_escaped_one_line(text@);
    }
}

/// The raw rendering of a record stays on one line where its name and its
/// fields do.
pub proof fn lemma_raw_record_one_line(
    name: Seq<char>,
    fields: Seq<(Seq<char>, Seq<char>)>,
    indent: Seq<char>,
)
    requires
        one_line(name),
        fields_one_line(fields),
    ensures
        one_line(fields_text(fields, false, indent)),
        one_line(record_text(name, fields, false, indent)),
    decreases fields.len(),
{
    if fields.len() > 0 {
        assert(fields_one_line(fields.drop_last())) by {
            assert forall|i: int| 0 <= i < fields.drop_last().len() implies one_line(
                (#[trigger] fields.drop_last()[i]).0,
            ) && one_line(fields.drop_last()[i].1) by {
                assert(fields.drop_last()[i] == fields[i]);
            }
        }
        lemma_raw_record_one_line(name, fields.drop_last(), indent);
        assert(one_line(fields.last().0) && one_line(fields.last().1));
    }
}

/// The names of the methods hold no line feed.
pub proof fn lemma_method_name_one_line(method: GooseMethod)
    ensures
        one_line(method_name(method)),
{
    reveal_strlit("Delete");
    reveal_strlit("Get");
    reveal_strlit("Head");
    reveal_strlit("Patch");
    reveal_strlit("Post");
    reveal_strlit("Put");
}

/// The raw rendering of a request as it was sent stays on one line.
pub proof fn lemma_raw_request_one_line(raw: GooseRawRequest, indent: Seq<char>)
    ensures
        one_line(raw.debug_text(false, indent)),
{
    reveal_strlit("GooseRawRequest");
    reveal_strlit("method");
    reveal_strlit("url");
    reveal_strlit("body");
    lemma_method_name_one_line(raw.method);
    lemma_escaped_one_line(raw.url@);
    lemma_escaped_one_line(raw.body@);
    lemma_raw_record_one_line("GooseRawRequest"@, raw.debug_cells(), indent);
}

/// The raw rendering of a request record stays on one line, whatever its
/// texts hold.
pub proof fn lemma_request_one_line(metric: GooseRequestMetric, indent: Seq<char>)
    ensures
        one_line(metric.debug_text(false, indent)),
{
    reveal_strlit("GooseRequestMetric");
    reveal_strlit("elapsed");
    reveal_strlit("raw");
    reveal_strlit("name");
    reveal_strlit("final_url");
    reveal_strlit("redirected");
    reveal_strlit("response_time");
    reveal_strlit("status_code");
    reveal_strlit("success");
    reveal_strlit("update");
    reveal_strlit("user");
    reveal_strlit("error");
    reveal_strlit("coordinated_omission_elapsed");
    reveal_strlit("user_cadence");
    let inner = crate::render::deeper(indent);
    lemma_decimal_one_line(metric.elapsed as nat);
    lemma_raw_request_one_line(metric.raw, inner);
    lemma_escaped_one_line(metric.name@);
    lemma_escaped_one_line(metric.final_url@);
    lemma_decimal_one_line(metric.response_time as nat);
    lemma_decimal_one_line(metric.status_code as nat);
    lemma_decimal_one_line(metric.user as nat);
    lemma_escaped_one_line(metric.error@);
    lemma_optional_number_one_line(metric.coordinated_omission_elapsed, inner);
    lemma_decimal_one_line(metric.user_cadence as nat);
    lemma_raw_record_one_line("GooseRequestMetric"@, metric.debug_cells(false, indent), indent);
}

/// The raw rendering of an error record stays on one line.
pub proof fn lemma_error_one_line(metric: GooseErrorMetric, indent: Seq<char>)
    ensures
        one_line(metric.debug_text(false, indent)),
{
    reveal_strlit("GooseErrorMetric");
    reveal_strlit("elapsed");
    reveal_strlit("raw");
    reveal_strlit("name");
    reveal_strlit("final_url");
    reveal_strlit("redirected");
    reveal_strlit("response_time");
    reveal_strlit("status_code");
    reveal_strlit("user");
    reveal_strlit("error");
    let inner = crate::render::deeper(indent);
    lemma_decimal_one_line(metric.elapsed as nat);
    lemma_raw_request_one_line(metric.raw, inner);
    lemma_escaped_one_line(metric.name@);
    lemma_escaped_one_line(metric.final_url@);
    lemma_decimal_one_line(metric.response_time as nat);
    lemma_decimal_one_line(metric.status_code as nat);
    lemma_decimal_one_line(metric.user as nat);
    lemma_escaped_one_line(metric.error@);
    lemma_raw_record_one_line("GooseErrorMetric"@, metric.debug_cells(false, indent), indent);
}

/// The raw rendering of a task record stays on one line.
pub proof fn lemma_task_one_line(metric: GooseTaskMetric, indent: Seq<char>)
    ensures
        one_line(metric.debug_text(false, indent)),
{
    reveal_strlit("GooseTaskMetric");
    reveal_strlit("elapsed");
    reveal_strlit("taskset_index");
    reveal_strlit("task_index");
    reveal_strlit("name");
    reveal_strlit("run_time");
    reveal_strlit("success");
    reveal_strlit("user");
    lemma_decimal_one_line(metric.elapsed as nat);
    lemma_decimal_one_line(metric.taskset_index as nat);
    lemma_decimal_one_line(metric.task_index as nat);
    lemma_escaped_one_line(metric.name@);
    lemma_decimal_one_line(metric.run_time as nat);
    lemma_decimal_one_line(metric.user as nat);
    lemma_raw_record_one_line("GooseTaskMetric"@, metric.debug_cells(), indent);
}

/// The raw rendering of a debug record stays on one line.
pub proof fn lemma_debug_one_line(debug: GooseDebug, indent: Seq<char>)
    ensures
        one_line(debug.debug_text(false, indent)),
{
    reveal_strlit("GooseDebug");
    reveal_strlit("tag");
    reveal_strlit("request");
    reveal_strlit("header");
    reveal_strlit("body");
    let inner = crate::render::deeper(indent);
    lemma_escaped_one_line(debug.tag@);
    if let Some(request) = debug.request {
        lemma_request_one_line(request, crate::render::deeper(inner));
    }
    assert(one_line(optional_request_text(debug.request, false, inner)));
    lemma_optional_text_one_line(debug.header, inner);
    lemma_optional_text_one_line(debug.body, inner);
    lemma_raw_record_one_line("GooseDebug"@, debug.debug_cells(false, indent), indent);
}

} // verus!
