//! What the author of a load test works with: task sets, tasks, the client
//! that a task drives, and the debug records that a task may emit.

use vstd::prelude::*;

use crate::csv::{cells_of, CsvCell, CsvField};
use crate::json::{
    json_map_insert, json_map_new, json_model, json_null, json_object, json_string, JsonModel,
};
use crate::error::GooseError;
use crate::metrics::{GooseMethod, GooseRequestMetric};
use crate::render::{
    deeper, field_views, indent_deeper, none_text, optional_text, optional_text_field,
    push_optional_text, push_some_end, push_some_start, quoted, record_text, render_record,
    some_text, text_field, DebugField,
};
use crate::text::push_str;

verus! {

/// A record for the debug log: a tag, and whatever of the request, the
/// response headers and the response body the task chose to keep.
#[derive(Debug)]
pub struct GooseDebug {
    /// What the record is about.
    pub tag: String,
    /// The request, if it was kept.
    pub request: Option<GooseRequestMetric>,
    /// The headers of the response, if they were kept.
    pub header: Option<String>,
    /// The body of the response, if it was kept.
    pub body: Option<String>,
}

/// The raw or pretty rendering of an optional request.
pub open spec fn optional_request_text(
    request: Option<GooseRequestMetric>,
    pretty: bool,
    indent: Seq<char>,
) -> Seq<char> {
    match request {
        Some(r) => some_text(r.debug_text(pretty, deeper(indent)), pretty, indent),
        None => none_text(),
    }
}

/// The JSON value of an optional text: the text, or `null`.
pub open spec fn optional_text_json(value: Option<String>) -> JsonModel {
    match value {
        Some(text) => JsonModel::Text(text@),
        None => JsonModel::Null,
    }
}

/// The JSON value of an optional request: its object, or `null`.
pub open spec fn optional_request_json(request: Option<GooseRequestMetric>) -> JsonModel {
    match request {
        Some(r) => r.json(),
        None => JsonModel::Null,
    }
}

/// The raw or pretty rendering of an optional request.
pub fn optional_request_string(request: &Option<GooseRequestMetric>, pretty: bool, indent: &str) -> (r:
    String)
    ensures
        r@ == optional_request_text(*request, pretty, indent@),
{
    let mut out = String::new();
    match request {
        Some(r) => {
            let inner = indent_deeper(indent);
            push_some_start(&mut out, pretty, indent);
            push_str(&mut out, r.debug_string(pretty, inner.as_str()).as_str());
            push_some_end(&mut out, pretty, indent);
            assert(out@ =~= some_text(r.debug_text(pretty, deeper(indent@)), pretty, indent@));
        },
        None => {
            out.push('N');
            out.push('o');
            out.push('n');
            out.push('e');
            assert(out@ =~= none_text());
        },
    }
    out
}

fn optional_text_json_value(value: &Option<String>) -> (r: serde_json::Value)
    ensures
        json_model(r) == optional_text_json(*value),
{
    match value {
        Some(text) => json_string(text.as_str()),
        None => json_null(),
    }
}

impl GooseDebug {
    /// The fields of the record by name, each value rendered.
    pub open spec fn debug_cells(&self, pretty: bool, indent: Seq<char>) -> Seq<
        (Seq<char>, Seq<char>),
    > {
        seq![
            ("tag"@, quoted(self.tag@)),
            ("request"@, optional_request_text(self.request, pretty, deeper(indent))),
            ("header"@, optional_text(self.header, pretty, deeper(indent))),
            ("body"@, optional_text(self.body, pretty, deeper(indent))),
        ]
    }

    /// The raw or pretty rendering of the record.
    pub open spec fn debug_text(&self, pretty: bool, indent: Seq<char>) -> Seq<char> {
        record_text("GooseDebug"@, self.debug_cells(pretty, indent), pretty, indent)
    }

    /// The raw or pretty rendering of the record.
    pub fn debug_string(&self, pretty: bool, indent: &str) -> (r: String)
        ensures
            r@ == self.debug_text(pretty, indent@),
    {
        let inner = indent_deeper(indent);
        let mut fields: Vec<DebugField> = Vec::new();
        fields.push(text_field("tag", self.tag.as_str()));
        fields.push(
            DebugField {
                name: "request",
                value: optional_request_string(&self.request, pretty, inner.as_str()),
            },
        );
        fields.push(optional_text_field("header", &self.header, pretty, inner.as_str()));
        fields.push(optional_text_field("body", &self.body, pretty, inner.as_str()));
        assert(field_views(fields@) =~= self.debug_cells(pretty, indent@));
        render_record("GooseDebug", &fields, pretty, indent)
    }

    /// The JSON object of the record.
    pub open spec fn json(&self) -> JsonModel {
        JsonModel::Object(
            Map::empty().insert("tag"@, JsonModel::Text(self.tag@)).insert(
                "request"@,
                optional_request_json(self.request),
            ).insert("header"@, optional_text_json(self.header)).insert(
                "body"@,
                optional_text_json(self.body),
            ),
        )
    }

    /// The JSON object of the record, as a `serde_json` value.
    pub fn json_value(&self) -> (r: serde_json::Value)
        ensures
            json_model(r) == self.json(),
    {
        let request = match &self.request {
            Some(r) => r.json_value(),
            None => json_null(),
        };
        let mut map = json_map_new();
        json_map_insert(&mut map, "tag", json_string(self.tag.as_str()));
        json_map_insert(&mut map, "request", request);
        json_map_insert(&mut map, "header", optional_text_json_value(&self.header));
        json_map_insert(&mut map, "body", optional_text_json_value(&self.body));
        json_object(map)
    }

    /// The fields of the record's row, in the order of the header: each a
    /// text, the optional ones in their raw rendering.
    pub open spec fn csv_cells(&self) -> Seq<CsvCell> {
        seq![
            CsvCell::Text(self.tag@),
            CsvCell::Text(optional_request_text(self.request, false, Seq::empty())),
            CsvCell::Text(optional_text(self.header, false, Seq::empty())),
            CsvCell::Text(optional_text(self.body, false, Seq::empty())),
        ]
    }

    /// The fields of the record's row, in the order of the header.
    pub fn csv_fields(&self) -> (r: Vec<CsvField>)
        ensures
            cells_of(r@) == self.csv_cells(),
    {
        assert(""@ =~= Seq::<char>::empty()) by {
            reveal_strlit("");
        }
        let request = optional_request_string(&self.request, false, "");
        let mut header = String::new();
        push_optional_text(&mut header, &self.header, false, "");
        assert(header@ =~= optional_text(self.header, false, Seq::empty()));
        let mut body = String::new();
        push_optional_text(&mut body, &self.body, false, "");
        assert(body@ =~= optional_text(self.body, false, Seq::empty()));
        let mut r: Vec<CsvField> = Vec::new();
        r.push(CsvField::Text(self.tag.clone()));
        r.push(CsvField::Text(request));
        r.push(CsvField::Text(header));
        r.push(CsvField::Text(body));
        assert(cells_of(r@) =~= self.csv_cells());
        r
    }
}

/// How a user picks its next task from the tasks of its task set.
#[derive(Debug, Clone, Copy, PartialEq, Eq, Structural)]
pub enum GooseScheduler {
    /// The tasks take turns in the order of registration, each as often in a
    /// round as its weight says.
    RoundRobin,
    /// Each pick is random, a task being picked in proportion to its weight.
    Random,
    /// Each task runs as often as its weight says before the next one runs.
    Serial,
}

/// One scripted interaction. `F` is whatever the author of the load test
/// uses to name what the task does; the library keeps it and hands it back.
#[derive(Debug)]
pub struct GooseTask<F> {
    /// The name of the task.
    pub name: String,
    /// How often the task runs, relative to the other tasks of its set.
    pub weight: usize,
    /// What the task does.
    pub function: Option<F>,
    /// Whether the task runs once when a user starts, before any other.
    pub on_start: bool,
    /// Whether the task runs once when a user stops, after every other.
    pub on_stop: bool,
}

/// A named group of tasks, assigned to users as a whole.
#[derive(Debug)]
pub struct GooseTaskSet<F> {
    /// The name of the task set.
    pub name: String,
    /// How many users get the task set, relative to the other task sets.
    pub weight: usize,
    /// The tasks, in the order of registration.
    pub tasks: Vec<GooseTask<F>>,
    /// How a user picks its next task.
    pub scheduler: GooseScheduler,
}

/// The task sets of a load test, in the order of registration.
#[derive(Debug)]
pub struct GooseTaskSets<F> {
    /// The task sets.
    pub task_sets: Vec<GooseTaskSet<F>>,
}

/// What a task holds.
pub struct GooseTaskView<F> {
    /// The name of the task.
    pub name: Seq<char>,
    /// The weight of the task.
    pub weight: nat,
    /// What the task does.
    pub function: Option<F>,
    /// Whether the task runs when a user starts.
    pub on_start: bool,
    /// Whether the task runs when a user stops.
    pub on_stop: bool,
}

/// What a task set holds.
pub struct GooseTaskSetView<F> {
    /// The name of the task set.
    pub name: Seq<char>,
    /// The weight of the task set.
    pub weight: nat,
    /// The tasks, in the order of registration.
    pub tasks: Seq<GooseTaskView<F>>,
    /// How a user picks its next task.
    pub scheduler: GooseScheduler,
}

impl<F> View for GooseTask<F> {
    type V = GooseTaskView<F>;

    open spec fn view(&self) -> GooseTaskView<F> {
        GooseTaskView {
            name: self.name@,
            weight: self.weight as nat,
            function: self.function,
            on_start: self.on_start,
            on_stop: self.on_stop,
        }
    }
}

/// What the tasks of a list hold, in order.
pub open spec fn task_views<F>(tasks: Seq<GooseTask<F>>) -> Seq<GooseTaskView<F>> {
    Seq::new(tasks.len(), |i: int| tasks[i]@)
}

impl<F> View for GooseTaskSet<F> {
    type V = GooseTaskSetView<F>;

    open spec fn view(&self) -> GooseTaskSetView<F> {
        GooseTaskSetView {
            name: self.name@,
            weight: self.weight as nat,
            tasks: task_views(self.tasks@),
            scheduler: self.scheduler,
        }
    }
}

/// What the task sets of a list hold, in order.
pub open spec fn task_set_views<F>(task_sets: Seq<GooseTaskSet<F>>) -> Seq<GooseTaskSetView<F>> {
    Seq::new(task_sets.len(), |i: int| task_sets[i]@)
}

impl<F> View for GooseTaskSets<F> {
    type V = Seq<GooseTaskSetView<F>>;

    open spec fn view(&self) -> Seq<GooseTaskSetView<F>> {
        task_set_views(self.task_sets@)
    }
}

/// A task set can run: it has a weight of at least one and at least one
/// task, and each of its tasks has a weight of at least one.
pub open spec fn task_set_valid<F>(task_set: GooseTaskSetView<F>) -> bool {
    &&& task_set.weight >= 1
    &&& task_set.tasks.len() >= 1
    &&& forall|i: int| 0 <= i < task_set.tasks.len() ==> (#[trigger] task_set.tasks[i]).weight >= 1
}

/// Some task set of the list holds no task.
pub open spec fn some_task_set_empty<F>(task_sets: Seq<GooseTaskSetView<F>>) -> bool {
    exists|i: int| 0 <= i < task_sets.len() && (#[trigger] task_sets[i]).tasks.len() == 0
}

/// Some task set of the list, or some task of one, has the weight zero.
pub open spec fn some_weight_zero<F>(task_sets: Seq<GooseTaskSetView<F>>) -> bool {
    exists|i: int|
        0 <= i < task_sets.len() && ((#[trigger] task_sets[i]).weight == 0 || exists|j: int|
            0 <= j < task_sets[i].tasks.len() && (#[trigger] task_sets[i].tasks[j]).weight == 0)
}

impl<F> GooseTask<F> {
    /// A task of that name, with the weight one and nothing to do yet.
    pub fn new(name: &str) -> (r: GooseTask<F>)
        ensures
            r@ == (GooseTaskView::<F> {
                name: name@,
                weight: 1,
                function: None,
                on_start: false,
                on_stop: false,
            }),
    {
        GooseTask {
            name: String::from_str(name),
            weight: 1,
            function: None,
            on_start: false,
            on_stop: false,
        }
    }

    /// The task with another weight.
    pub fn set_weight(self, weight: usize) -> (r: GooseTask<F>)
        ensures
            r@ == (GooseTaskView { weight: weight as nat, ..self@ }),
    {
        let mut task = self;
        task.weight = weight;
        task
    }

    /// The task with something to do.
    pub fn set_function(self, function: F) -> (r: GooseTask<F>)
        ensures
            r@ == (GooseTaskView { function: Some(function), ..self@ }),
    {
        let mut task = self;
        task.function = Some(function);
        task
    }

    /// The task, to run once when a user starts.
    pub fn set_on_start(self) -> (r: GooseTask<F>)
        ensures
            r@ == (GooseTaskView { on_start: true, ..self@ }),
    {
        let mut task = self;
        task.on_start = true;
        task
    }

    /// The task, to run once when a user stops.
    pub fn set_on_stop(self) -> (r: GooseTask<F>)
        ensures
            r@ == (GooseTaskView { on_stop: true, ..self@ }),
    {
        let mut task = self;
        task.on_stop = true;
        task
    }
}

impl<F> GooseTaskSet<F> {
    /// A task set of that name, with the weight one and no task, whose tasks
    /// take turns.
    pub fn new(name: &str) -> (r: GooseTaskSet<F>)
        ensures
            r@ == (GooseTaskSetView::<F> {
                name: name@,
                weight: 1,
                tasks: Seq::empty(),
                scheduler: GooseScheduler::RoundRobin,
            }),
    {
        let r = GooseTaskSet {
            name: String::from_str(name),
            weight: 1,
            tasks: Vec::new(),
            scheduler: GooseScheduler::RoundRobin,
        };
        assert(task_views(r.tasks@) =~= Seq::empty());
        r
    }

    /// The task set with another weight.
    pub fn set_weight(self, weight: usize) -> (r: GooseTaskSet<F>)
        ensures
            r@ == (GooseTaskSetView { weight: weight as nat, ..self@ }),
    {
        let mut task_set = self;
        task_set.weight = weight;
        task_set
    }

    /// The task set with another way to pick the next task.
    pub fn set_scheduler(self, scheduler: GooseScheduler) -> (r: GooseTaskSet<F>)
        ensures
            r@ == (GooseTaskSetView { scheduler, ..self@ }),
    {
        let mut task_set = self;
        task_set.scheduler = scheduler;
        task_set
    }

    /// Adds a task after the tasks that the set holds.
    pub fn register_task(&mut self, task: GooseTask<F>)
        ensures
            final(self)@ == (GooseTaskSetView { tasks: old(self)@.tasks.push(task@), ..old(self)@ }),
    {
        self.tasks.push(task);
        assert(task_views(self.tasks@) =~= task_views(old(self).tasks@).push(task@));
    }
}

impl<F> GooseTaskSets<F> {
    /// No task set yet.
    pub fn new() -> (r: GooseTaskSets<F>)
        ensures
            r@ == Seq::<GooseTaskSetView<F>>::empty(),
    {
        let r = GooseTaskSets { task_sets: Vec::new() };
        assert(r@ =~= Seq::empty());
        r
    }

    /// Adds a task set after the task sets that are registered.
    pub fn register_taskset(&mut self, task_set: GooseTaskSet<F>)
        ensures
            final(self)@ == old(self)@.push(task_set@),
    {
        self.task_sets.push(task_set);
        assert(self@ =~= old(self)@.push(task_set@));
    }

    /// Checks that the load test can run: there is a task set, no task set is
    /// without tasks, and no weight is zero. A load test without tasks is
    /// reported before one with a weight of zero.
    pub fn validate(&self) -> (r: Result<(), GooseError>)
        ensures
            match r {
                Ok(_) => self@.len() >= 1 && forall|i: int|
                    0 <= i < self@.len() ==> task_set_valid(#[trigger] self@[i]),
                Err(e) => if self@.len() == 0 || some_task_set_empty(self@) {
                    e@ == crate::error::GooseErrorView::NoTasks
                } else {
                    some_weight_zero(self@) && e@ == crate::error::GooseErrorView::InvalidOption {
                        option: "weight"@,
                        value: "0"@,
                        detail: "a weight must be at least 1"@,
                    }
                },
            },
    {
        if self.task_sets.len() == 0 {
            return Err(GooseError::NoTasks);
        }
        let mut i: usize = 0;
        while i < self.task_sets.len()
            invariant
                i <= self.task_sets.len(),
                forall|k: int| 0 <= k < i ==> (#[trigger] self@[k]).tasks.len() > 0,
            decreases self.task_sets.len() - i,
        {
            if self.task_sets[i].tasks.len() == 0 {
                assert(self@[i as int].tasks.len() == 0);
                return Err(GooseError::NoTasks);
            }
            i += 1;
        }
        assert(!some_task_set_empty(self@));
        let mut i: usize = 0;
        while i < self.task_sets.len()
            invariant
                i <= self.task_sets.len(),
                forall|k: int| 0 <= k < self@.len() ==> (#[trigger] self@[k]).tasks.len() > 0,
                forall|k: int| 0 <= k < i ==> task_set_valid(#[trigger] self@[k]),
            decreases self.task_sets.len() - i,
        {
            let task_set = &self.task_sets[i];
            let mut zero = task_set.weight == 0;
            let mut j: usize = 0;
            while j < task_set.tasks.len()
                invariant
                    j <= task_set.tasks.len(),
                    task_set == self.task_sets@[i as int],
                    i < self.task_sets.len(),
                    zero <==> (task_set.weight == 0 || exists|k: int|
                        0 <= k < j && (#[trigger] task_set@.tasks[k]).weight == 0),
                decreases task_set.tasks.len() - j,
            {
                if task_set.tasks[j].weight == 0 {
                    assert(task_set@.tasks[j as int].weight == 0);
                    zero = true;
                }
                j += 1;
            }
            if zero {
                assert(self@[i as int] == task_set@);
                return Err(
                    GooseError::InvalidOption {
                        option: String::from_str("weight"),
                        value: String::from_str("0"),
                        detail: String::from_str("a weight must be at least 1"),
                    },
                );
            }
            assert(task_set_valid(self@[i as int]));
            i += 1;
        }
        Ok(())
    }
}

/// A request that a task asked its client to make.
#[derive(Debug)]
pub struct GooseRequest {
    /// The method of the request.
    pub method: GooseMethod,
    /// The URL to ask for.
    pub url: String,
}

impl View for GooseRequest {
    type V = (GooseMethod, Seq<char>);

    open spec fn view(&self) -> (GooseMethod, Seq<char>) {
        (self.method, self.url@)
    }
}

/// What the requests of a list hold, in order.
pub open spec fn request_views(requests: Seq<GooseRequest>) -> Seq<(GooseMethod, Seq<char>)> {
    Seq::new(requests.len(), |i: int| requests[i]@)
}

/// The handle through which a task makes requests. The client keeps the
/// requests in the order in which they were asked for; whoever runs the task
/// sends them.
#[derive(Debug)]
pub struct GooseClient {
    /// The requests that were asked for and not yet taken.
    pub requests: Vec<GooseRequest>,
}

impl View for GooseClient {
    type V = Seq<(GooseMethod, Seq<char>)>;

    open spec fn view(&self) -> Seq<(GooseMethod, Seq<char>)> {
        request_views(self.requests@)
    }
}

impl GooseClient {
    /// A client that was asked for nothing yet.
    pub fn new() -> (r: GooseClient)
        ensures
            r@ == Seq::<(GooseMethod, Seq<char>)>::empty(),
    {
        let r = GooseClient { requests: Vec::new() };
        assert(r@ =~= Seq::empty());
        r
    }

    /// Asks for `url` with the method GET.
    pub fn get(&mut self, url: &str)
        ensures
            final(self)@ == old(self)@.push((GooseMethod::Get, url@)),
    {
        self.requests.push(GooseRequest { method: GooseMethod::Get, url: String::from_str(url) });
        assert(self@ =~= old(self)@.push((GooseMethod::Get, url@)));
    }

    /// Hands out the requests that were asked for, oldest first, and keeps
    /// none.
    pub fn take_requests(&mut self) -> (r: Vec<GooseRequest>)
        ensures
            request_views(r@) == old(self)@,
            final(self)@ == Seq::<(GooseMethod, Seq<char>)>::empty(),
    {
        let mut taken: Vec<GooseRequest> = Vec::new();
        std::mem::swap(&mut taken, &mut self.requests);
        assert(self@ =~= Seq::empty());
        taken
    }
}

} // verus!
