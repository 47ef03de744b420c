//! The records that simulated users emit: one for each request and one for
//! each task, and one more for each request that failed.

use vstd::prelude::*;

use crate::csv::{cells_of, CsvCell, CsvField};
use crate::json::{
    json_bool, json_map_insert, json_map_new, json_model, json_null, json_number,
    json_object, json_string, JsonModel,
};
use crate::render::{
    deeper, field_views, flag_field, indent_deeper, number_field, optional_number_field,
    optional_number_text, quoted, record_text, render_record, text_field, DebugField,
};
use crate::text::{bool_text, decimal};

verus! {

/// The method of an HTTP request.
#[derive(Debug, Clone, Copy, PartialEq, Eq, Structural)]
pub enum GooseMethod {
    /// DELETE
    Delete,
    /// GET
    Get,
    /// HEAD
    Head,
    /// PATCH
    Patch,
    /// POST
    Post,
    /// PUT
    Put,
}

/// The request as it was sent.
#[derive(Debug)]
pub struct GooseRawRequest {
    /// The method of the request.
    pub method: GooseMethod,
    /// The URL that was asked for.
    pub url: String,
    /// The body that was sent, where bodies are captured.
    pub body: String,
}

/// The outcome of one request.
#[derive(Debug)]
pub struct GooseRequestMetric {
    /// Milliseconds from the start of the load test to the request.
    pub elapsed: u64,
    /// The request as it was sent.
    pub raw: GooseRawRequest,
    /// The label under which the request is counted.
    pub name: String,
    /// The URL that answered, after any redirect.
    pub final_url: String,
    /// Whether the request was redirected.
    pub redirected: bool,
    /// Milliseconds until the response arrived.
    pub response_time: u64,
    /// The status code of the response.
    pub status_code: u16,
    /// Whether the request counts as a success.
    pub success: bool,
    /// Whether this record replaces an earlier one for the same request.
    pub update: bool,
    /// The user that made the request.
    pub user: usize,
    /// Why the request failed; empty for a success.
    pub error: String,
    /// For a request that stands for one that was held up: the milliseconds
    /// for which the user was held up.
    pub coordinated_omission_elapsed: Option<u64>,
    /// The interval at which the user makes requests, in milliseconds.
    pub user_cadence: u64,
}

/// A request that failed.
#[derive(Debug)]
pub struct GooseErrorMetric {
    /// Milliseconds from the start of the load test to the request.
    pub elapsed: u64,
    /// The request as it was sent.
    pub raw: GooseRawRequest,
    /// The label under which the request is counted.
    pub name: String,
    /// The URL that answered, after any redirect.
    pub final_url: String,
    /// Whether the request was redirected.
    pub redirected: bool,
    /// Milliseconds until the response arrived.
    pub response_time: u64,
    /// The status code of the response.
    pub status_code: u16,
    /// The user that made the request.
    pub user: usize,
    /// Why the request failed.
    pub error: String,
}

/// The outcome of one run of a task.
#[derive(Debug)]
pub struct GooseTaskMetric {
    /// Milliseconds from the start of the load test to the task.
    pub elapsed: u64,
    /// The index of the task set that the task belongs to.
    pub taskset_index: usize,
    /// The index of the task in its task set.
    pub task_index: usize,
    /// The name of the task.
    pub name: String,
    /// Milliseconds that the task ran for.
    pub run_time: u64,
    /// Whether the task succeeded.
    pub success: bool,
    /// The user that ran the task.
    pub user: usize,
}

/// The name of a method, as it stands in records.
pub open spec fn method_name(method: GooseMethod) -> Seq<char> {
    match method {
        GooseMethod::Delete => "Delete"@,
        GooseMethod::Get => "Get"@,
        GooseMethod::Head => "Head"@,
        GooseMethod::Patch => "Patch"@,
        GooseMethod::Post => "Post"@,
        GooseMethod::Put => "Put"@,
    }
}

impl GooseMethod {
    /// The name of the method, as it stands in records.
    pub fn name(&self) -> (r: &'static str)
        ensures
            r@ == method_name(*self),
    {
        match self {
            GooseMethod::Delete => "Delete",
            GooseMethod::Get => "Get",
            GooseMethod::Head => "Head",
            GooseMethod::Patch => "Patch",
            GooseMethod::Post => "Post",
            GooseMethod::Put => "Put",
        }
    }
}

impl GooseRawRequest {
    /// The fields of the request by name, each value rendered.
    pub open spec fn debug_cells(&self) -> Seq<(Seq<char>, Seq<char>)> {
        seq![
            ("method"@, method_name(self.method)),
            ("url"@, quoted(self.url@)),
            ("body"@, quoted(self.body@)),
        ]
    }

    /// The raw or pretty rendering of the request.
    pub open spec fn debug_text(&self, pretty: bool, indent: Seq<char>) -> Seq<char> {
        record_text("GooseRawRequest"@, self.debug_cells(), pretty, indent)
    }

    /// The raw or pretty rendering of the request.
    pub fn debug_string(&self, pretty: bool, indent: &str) -> (r: String)
        ensures
            r@ == self.debug_text(pretty, indent@),
    {
        let mut fields: Vec<DebugField> = Vec::new();
        fields.push(DebugField { name: "method", value: String::from_str(self.method.name()) });
        fields.push(text_field("url", self.url.as_str()));
        fields.push(text_field("body", self.body.as_str()));
        assert(field_views(fields@) =~= self.debug_cells());
        render_record("GooseRawRequest", &fields, pretty, indent)
    }

    /// The JSON object of the request.
    pub open spec fn json(&self) -> JsonModel {
        JsonModel::Object(
            Map::empty().insert("method"@, JsonModel::Text(method_name(self.method))).insert(
                "url"@,
                JsonModel::Text(self.url@),
            ).insert("body"@, JsonModel::Text(self.body@)),
        )
    }

    /// The JSON object of the request, as a `serde_json` value.
    pub fn json_value(&self) -> (r: serde_json::Value)
        ensures
            json_model(r) == self.json(),
    {
        let mut map = json_map_new();
        json_map_insert(&mut map, "method", json_string(self.method.name()));
        json_map_insert(&mut map, "url", json_string(self.url.as_str()));
        json_map_insert(&mut map, "body", json_string(self.body.as_str()));
        json_object(map)
    }
}

/// The JSON value of an optional number: the number, or `null`.
pub open spec fn optional_number_json(value: Option<u64>) -> JsonModel {
    match value {
        Some(n) => JsonModel::Number(n as nat),
        None => JsonModel::Null,
    }
}

/// The field of an optional number in a row: the number, or an empty field.
pub open spec fn optional_number_cell(value: Option<u64>) -> CsvCell {
    match value {
        Some(n) => CsvCell::Number(n),
        None => CsvCell::Empty,
    }
}

impl GooseRequestMetric {
    /// A request counts as a success exactly where it carries no error.
    pub open spec fn well_formed(&self) -> bool {
        self.success <==> self.error@.len() == 0
    }

    /// The fields of the record by name, each value rendered.
    pub open spec fn debug_cells(&self, pretty: bool, indent: Seq<char>) -> Seq<
        (Seq<char>, Seq<char>),
    > {
        seq![
            ("elapsed"@, decimal(self.elapsed as nat)),
            ("raw"@, self.raw.debug_text(pretty, deeper(indent))),
            ("name"@, quoted(self.name@)),
            ("final_url"@, quoted(self.final_url@)),
            ("redirected"@, bool_text(self.redirected)),
            ("response_time"@, decimal(self.response_time as nat)),
            ("status_code"@, decimal(self.status_code as nat)),
            ("success"@, bool_text(self.success)),
            ("update"@, bool_text(self.update)),
            ("user"@, decimal(self.user as nat)),
            ("error"@, quoted(self.error@)),
            (
                "coordinated_omission_elapsed"@,
                optional_number_text(self.coordinated_omission_elapsed, pretty, deeper(indent)),
            ),
            ("user_cadence"@, decimal(self.user_cadence as nat)),
        ]
    }

    /// The raw or pretty rendering of the record.
    pub open spec fn debug_text(&self, pretty: bool, indent: Seq<char>) -> Seq<char> {
        record_text("GooseRequestMetric"@, self.debug_cells(pretty, indent), pretty, indent)
    }

    /// The raw or pretty rendering of the record.
    pub fn debug_string(&self, pretty: bool, indent: &str) -> (r: String)
        ensures
            r@ == self.debug_text(pretty, indent@),
    {
        let inner = indent_deeper(indent);
        let mut fields: Vec<DebugField> = Vec::new();
        fields.push(number_field("elapsed", self.elapsed));
        fields.push(DebugField { name: "raw", value: self.raw.debug_string(pretty, inner.as_str()) });
        fields.push(text_field("name", self.name.as_str()));
        fields.push(text_field("final_url", self.final_url.as_str()));
        fields.push(flag_field("redirected", self.redirected));
        fields.push(number_field("response_time", self.response_time));
        fields.push(number_field("status_code", self.status_code as u64));
        fields.push(flag_field("success", self.success));
        fields.push(flag_field("update", self.update));
        fields.push(number_field("user", self.user as u64));
        fields.push(text_field("error", self.error.as_str()));
        fields.push(
            optional_number_field(
                "coordinated_omission_elapsed",
                self.coordinated_omission_elapsed,
                pretty,
                inner.as_str(),
            ),
        );
        fields.push(number_field("user_cadence", self.user_cadence));
        assert(field_views(fields@) =~= self.debug_cells(pretty, indent@));
        render_record("GooseRequestMetric", &fields, pretty, indent)
    }

    /// The JSON object of the record.
    pub open spec fn json(&self) -> JsonModel {
        JsonModel::Object(
            Map::empty().insert("elapsed"@, JsonModel::Number(self.elapsed as nat)).insert(
                "raw"@,
                self.raw.json(),
            ).insert("name"@, JsonModel::Text(self.name@)).insert(
                "final_url"@,
                JsonModel::Text(self.final_url@),
            ).insert("redirected"@, JsonModel::Bool(self.redirected)).insert(
                "response_time"@,
                JsonModel::Number(self.response_time as nat),
            ).insert("status_code"@, JsonModel::Number(self.status_code as nat)).insert(
                "success"@,
                JsonModel::Bool(self.success),
            ).insert("update"@, JsonModel::Bool(self.update)).insert(
                "user"@,
                JsonModel::Number(self.user as nat),
            ).insert("error"@, JsonModel::Text(self.error@)).insert(
                "coordinated_omission_elapsed"@,
                optional_number_json(self.coordinated_omission_elapsed),
            ).insert("user_cadence"@, JsonModel::Number(self.user_cadence as nat)),
        )
    }

    /// The JSON object of the record, as a `serde_json` value.
    pub fn json_value(&self) -> (r: serde_json::Value)
        ensures
            json_model(r) == self.json(),
    {
        let mut map = json_map_new();
        json_map_insert(&mut map, "elapsed", json_number(self.elapsed));
        json_map_insert(&mut map, "raw", self.raw.json_value());
        json_map_insert(&mut map, "name", json_string(self.name.as_str()));
        json_map_insert(&mut map, "final_url", json_string(self.final_url.as_str()));
        json_map_insert(&mut map, "redirected", json_bool(self.redirected));
        json_map_insert(&mut map, "response_time", json_number(self.response_time));
        json_map_insert(&mut map, "status_code", json_number(self.status_code as u64));
        json_map_insert(&mut map, "success", json_bool(self.success));
        json_map_insert(&mut map, "update", json_bool(self.update));
        json_map_insert(&mut map, "user", json_number(self.user as u64));
        json_map_insert(&mut map, "error", json_string(self.error.as_str()));
        let omission = match self.coordinated_omission_elapsed {
            Some(n) => json_number(n),
            None => json_null(),
        };
        json_map_insert(&mut map, "coordinated_omission_elapsed", omission);
        json_map_insert(&mut map, "user_cadence", json_number(self.user_cadence));
        json_object(map)
    }

    /// The fields of the record's row, in the order of the header.
    pub open spec fn csv_cells(&self) -> Seq<CsvCell> {
        seq![
            CsvCell::Number(self.elapsed),
            CsvCell::Text(self.raw.debug_text(false, Seq::empty())),
            CsvCell::Text(self.name@),
            CsvCell::Text(self.final_url@),
            CsvCell::Flag(self.redirected),
            CsvCell::Number(self.response_time),
            CsvCell::Number(self.status_code as u64),
            CsvCell::Flag(self.success),
            CsvCell::Flag(self.update),
            CsvCell::Number(self.user as u64),
            CsvCell::Text(self.error@),
            optional_number_cell(self.coordinated_omission_elapsed),
            CsvCell::Number(self.user_cadence),
        ]
    }

    /// The fields of the record's row, in the order of the header.
    pub fn csv_fields(&self) -> (r: Vec<CsvField>)
        ensures
            cells_of(r@) == self.csv_cells(),
    {
        let raw = self.raw.debug_string(false, "");
        assert(""@ =~= Seq::<char>::empty()) by {
            reveal_strlit("");
        }
        let omission = match self.coordinated_omission_elapsed {
            Some(n) => CsvField::Number(n),
            None => CsvField::Empty,
        };
        let mut r: Vec<CsvField> = Vec::new();
        r.push(CsvField::Number(self.elapsed));
        r.push(CsvField::Text(raw));
        r.push(CsvField::Text(self.name.clone()));
        r.push(CsvField::Text(self.final_url.clone()));
        r.push(CsvField::Flag(self.redirected));
        r.push(CsvField::Number(self.response_time));
        r.push(CsvField::Number(self.status_code as u64));
        r.push(CsvField::Flag(self.success));
        r.push(CsvField::Flag(self.update));
        r.push(CsvField::Number(self.user as u64));
        r.push(CsvField::Text(self.error.clone()));
        r.push(omission);
        r.push(CsvField::Number(self.user_cadence));
        assert(cells_of(r@) =~= self.csv_cells());
        r
    }
}

impl GooseErrorMetric {
    /// The fields of the record by name, each value rendered.
    pub open spec fn debug_cells(&self, pretty: bool, indent: Seq<char>) -> Seq<
        (Seq<char>, Seq<char>),
    > {
        seq![
            ("elapsed"@, decimal(self.elapsed as nat)),
            ("raw"@, self.raw.debug_text(pretty, deeper(indent))),
            ("name"@, quoted(self.name@)),
            ("final_url"@, quoted(self.final_url@)),
            ("redirected"@, bool_text(self.redirected)),
            ("response_time"@, decimal(self.response_time as nat)),
            ("status_code"@, decimal(self.status_code as nat)),
            ("user"@, decimal(self.user as nat)),
            ("error"@, quoted(self.error@)),
        ]
    }

    /// The raw or pretty rendering of the record.
    pub open spec fn debug_text(&self, pretty: bool, indent: Seq<char>) -> Seq<char> {
        record_text("GooseErrorMetric"@, self.debug_cells(pretty, indent), pretty, indent)
    }

    /// The raw or pretty rendering of the record.
    pub fn debug_string(&self, pretty: bool, indent: &str) -> (r: String)
        ensures
            r@ == self.debug_text(pretty, indent@),
    {
        let inner = indent_deeper(indent);
        let mut fields: Vec<DebugField> = Vec::new();
        fields.push(number_field("elapsed", self.elapsed));
        fields.push(DebugField { name: "raw", value: self.raw.debug_string(pretty, inner.as_str()) });
        fields.push(text_field("name", self.name.as_str()));
        fields.push(text_field("final_url", self.final_url.as_str()));
        fields.push(flag_field("redirected", self.redirected));
        fields.push(number_field("response_time", self.response_time));
        fields.push(number_field("status_code", self.status_code as u64));
        fields.push(number_field("user", self.user as u64));
        fields.push(text_field("error", self.error.as_str()));
        assert(field_views(fields@) =~= self.debug_cells(pretty, indent@));
        render_record("GooseErrorMetric", &fields, pretty, indent)
    }

    /// The JSON object of the record.
    pub open spec fn json(&self) -> JsonModel {
        JsonModel::Object(
            Map::empty().insert("elapsed"@, JsonModel::Number(self.elapsed as nat)).insert(
                "raw"@,
                self.raw.json(),
            ).insert("name"@, JsonModel::Text(self.name@)).insert(
                "final_url"@,
                JsonModel::Text(self.final_url@),
            ).insert("redirected"@, JsonModel::Bool(self.redirected)).insert(
                "response_time"@,
                JsonModel::Number(self.response_time as nat),
            ).insert("status_code"@, JsonModel::Number(self.status_code as nat)).insert(
                "user"@,
                JsonModel::Number(self.user as nat),
            ).insert("error"@, JsonModel::Text(self.error@)),
        )
    }

    /// The JSON object of the record, as a `serde_json` value.
    pub fn json_value(&self) -> (r: serde_json::Value)
        ensures
            json_model(r) == self.json(),
    {
        let mut map = json_map_new();
        json_map_insert(&mut map, "elapsed", json_number(self.elapsed));
        json_map_insert(&mut map, "raw", self.raw.json_value());
        json_map_insert(&mut map, "name", json_string(self.name.as_str()));
        json_map_insert(&mut map, "final_url", json_string(self.final_url.as_str()));
        json_map_insert(&mut map, "redirected", json_bool(self.redirected));
        json_map_insert(&mut map, "response_time", json_number(self.response_time));
        json_map_insert(&mut map, "status_code", json_number(self.status_code as u64));
        json_map_insert(&mut map, "user", json_number(self.user as u64));
        json_map_insert(&mut map, "error", json_string(self.error.as_str()));
        json_object(map)
    }

    /// The fields of the record's row, in the order of the header.
    pub open spec fn csv_cells(&self) -> Seq<CsvCell> {
        seq![
            CsvCell::Number(self.elapsed),
            CsvCell::Text(self.raw.debug_text(false, Seq::empty())),
            CsvCell::Text(self.name@),
            CsvCell::Text(self.final_url@),
            CsvCell::Flag(self.redirected),
            CsvCell::Number(self.response_time),
            CsvCell::Number(self.status_code as u64),
            CsvCell::Number(self.user as u64),
            CsvCell::Text(self.error@),
        ]
    }

    /// The fields of the record's row, in the order of the header.
    pub fn csv_fields(&self) -> (r: Vec<CsvField>)
        ensures
            cells_of(r@) == self.csv_cells(),
    {
        let raw = self.raw.debug_string(false, "");
        assert(""@ =~= Seq::<char>::empty()) by {
            reveal_strlit("");
        }
        let mut r: Vec<CsvField> = Vec::new();
        r.push(CsvField::Number(self.elapsed));
        r.push(CsvField::Text(raw));
        r.push(CsvField::Text(self.name.clone()));
        r.push(CsvField::Text(self.final_url.clone()));
        r.push(CsvField::Flag(self.redirected));
        r.push(CsvField::Number(self.response_time));
        r.push(CsvField::Number(self.status_code as u64));
        r.push(CsvField::Number(self.user as u64));
        r.push(CsvField::Text(self.error.clone()));
        assert(cells_of(r@) =~= self.csv_cells());
        r
    }
}

impl GooseTaskMetric {
    /// The fields of the record by name, each value rendered.
    pub open spec fn debug_cells(&self) -> Seq<(Seq<char>, Seq<char>)> {
        seq![
            ("elapsed"@, decimal(self.elapsed as nat)),
            ("taskset_index"@, decimal(self.taskset_index as nat)),
            ("task_index"@, decimal(self.task_index as nat)),
            ("name"@, quoted(self.name@)),
            ("run_time"@, decimal(self.run_time as nat)),
            ("success"@, bool_text(self.success)),
            ("user"@, decimal(self.user as nat)),
        ]
    }

    /// The raw or pretty rendering of the record.
    pub open spec fn debug_text(&self, pretty: bool, indent: Seq<char>) -> Seq<char> {
        record_text("GooseTaskMetric"@, self.debug_cells(), pretty, indent)
    }

    /// The raw or pretty rendering of the record.
    pub fn debug_string(&self, pretty: bool, indent: &str) -> (r: String)
        ensures
            r@ == self.debug_text(pretty, indent@),
    {
        let mut fields: Vec<DebugField> = Vec::new();
        fields.push(number_field("elapsed", self.elapsed));
        fields.push(number_field("taskset_index", self.taskset_index as u64));
        fields.push(number_field("task_index", self.task_index as u64));
        fields.push(text_field("name", self.name.as_str()));
        fields.push(number_field("run_time", self.run_time));
        fields.push(flag_field("success", self.success));
        fields.push(number_field("user", self.user as u64));
        assert(field_views(fields@) =~= self.debug_cells());
        render_record("GooseTaskMetric", &fields, pretty, indent)
    }

    /// The JSON object of the record.
    pub open spec fn json(&self) -> JsonModel {
        JsonModel::Object(
            Map::empty().insert("elapsed"@, JsonModel::Number(self.elapsed as nat)).insert(
                "taskset_index"@,
                JsonModel::Number(self.taskset_index as nat),
            ).insert("task_index"@, JsonModel::Number(self.task_index as nat)).insert(
                "name"@,
                JsonModel::Text(self.name@),
            ).insert("run_time"@, JsonModel::Number(self.run_time as nat)).insert(
                "success"@,
                JsonModel::Bool(self.success),
            ).insert("user"@, JsonModel::Number(self.user as nat)),
        )
    }

    /// The JSON object of the record, as a `serde_json` value.
    pub fn json_value(&self) -> (r: serde_json::Value)
        ensures
            json_model(r) == self.json(),
    {
        let mut map = json_map_new();
        json_map_insert(&mut map, "elapsed", json_number(self.elapsed));
        json_map_insert(&mut map, "taskset_index", json_number(self.taskset_index as u64));
        json_map_insert(&mut map, "task_index", json_number(self.task_index as u64));
        json_map_insert(&mut map, "name", json_string(self.name.as_str()));
        json_map_insert(&mut map, "run_time", json_number(self.run_time));
        json_map_insert(&mut map, "success", json_bool(self.success));
        json_map_insert(&mut map, "user", json_number(self.user as u64));
        json_object(map)
    }

    /// The fields of the record's row, in the order of the header.
    pub open spec fn csv_cells(&self) -> Seq<CsvCell> {
        seq![
            CsvCell::Number(self.elapsed),
            CsvCell::Number(self.taskset_index as u64),
            CsvCell::Number(self.task_index as u64),
            CsvCell::Text(self.name@),
            CsvCell::Number(self.run_time),
            CsvCell::Flag(self.success),
            CsvCell::Number(self.user as u64),
        ]
    }

    /// The fields of the record's row, in the order of the header.
    pub fn csv_fields(&self) -> (r: Vec<CsvField>)
        ensures
            cells_of(r@) == self.csv_cells(),
    {
        let mut r: Vec<CsvField> = Vec::new();
        r.push(CsvField::Number(self.elapsed));
        r.push(CsvField::Number(self.taskset_index as u64));
        r.push(CsvField::Number(self.task_index as u64));
        r.push(CsvField::Text(self.name.clone()));
        r.push(CsvField::Number(self.run_time));
        r.push(CsvField::Flag(self.success));
        r.push(CsvField::Number(self.user as u64));
        assert(cells_of(r@) =~= self.csv_cells());
        r
    }
}

} // verus!
