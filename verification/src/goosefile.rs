//! A load test of a small website: one task set of three weighted tasks.

use vstd::prelude::*;

use crate::goose::{
    GooseClient, GooseScheduler, GooseTask, GooseTaskSet, GooseTaskSetView, GooseTaskSets,
    GooseTaskView,
};
use crate::metrics::GooseMethod;

verus! {

/// The tasks of the website load test.
#[derive(Debug, Clone, Copy, PartialEq, Eq, Structural)]
pub enum WebsiteTask {
    /// Load the front page.
    Index,
    /// Load the story.
    Story,
    /// Load the page about the site.
    About,
}

/// The task set of the website load test: three page loads, the story
/// weighted highest.
pub open spec fn website_task_set() -> GooseTaskSetView<WebsiteTask> {
    GooseTaskSetView {
        name: "WebsiteTasks"@,
        weight: 10,
        tasks: seq![
            GooseTaskView {
                name: "/index.html"@,
                weight: 6,
                function: Some(WebsiteTask::Index),
                on_start: false,
                on_stop: false,
            },
            GooseTaskView {
                name: "/story.html"@,
                weight: 9,
                function: Some(WebsiteTask::Story),
                on_start: false,
                on_stop: false,
            },
            GooseTaskView {
                name: "/about.html"@,
                weight: 3,
                function: Some(WebsiteTask::About),
                on_start: false,
                on_stop: false,
            },
        ],
        scheduler: GooseScheduler::RoundRobin,
    }
}

impl GooseTaskSets<WebsiteTask> {
    /// Registers the task set of the website load test after the task sets
    /// that are registered.
    pub fn initialize_goosefile(&mut self)
        ensures
            final(self)@ == old(self)@.push(website_task_set()),
    {
        // Register a website task set and contained tasks
        let mut website_tasks = GooseTaskSet::new("WebsiteTasks").set_weight(10);
        website_tasks.register_task(
            GooseTask::new("/index.html").set_weight(6).set_function(WebsiteTask::Index),
        );
        website_tasks.register_task(
            GooseTask::new("/story.html").set_weight(9).set_function(WebsiteTask::Story),
        );
        website_tasks.register_task(
            GooseTask::new("/about.html").set_weight(3).set_function(WebsiteTask::About),
        );
        assert(website_tasks@.tasks =~= website_task_set().tasks);
        self.register_taskset(website_tasks);
    }
}

/// The URL that a task of the website load test asks for.
pub open spec fn website_url(task: WebsiteTask) -> Seq<char> {
    match task {
        WebsiteTask::Index => "http://apache.fosciana/"@,
        WebsiteTask::Story => "http://apache.fosciana/story.html"@,
        WebsiteTask::About => "http://apache.fosciana/about.html"@,
    }
}

impl GooseClient {
    /// Loads the front page.
    pub fn website_task_index(&mut self)
        ensures
            final(self)@ == old(self)@.push((GooseMethod::Get, website_url(WebsiteTask::Index))),
    {
        self.get("http://apache.fosciana/");
    }

    /// Loads the story.
    pub fn website_task_story(&mut self)
        ensures
            final(self)@ == old(self)@.push((GooseMethod::Get, website_url(WebsiteTask::Story))),
    {
        self.get("http://apache.fosciana/story.html");
    }

    /// Loads the page about the site.
    pub fn website_task_about(&mut self)
        ensures
            final(self)@ == old(self)@.push((GooseMethod::Get, website_url(WebsiteTask::About))),
    {
        self.get("http://apache.fosciana/about.html");
    }

    /// Runs a task of the website load test.
    pub fn run_website_task(&mut self, task: WebsiteTask)
        ensures
            final(self)@ == old(self)@.push((GooseMethod::Get, website_url(task))),
    {
        match task {
            WebsiteTask::Index => self.website_task_index(),
            WebsiteTask::Story => self.website_task_story(),
            WebsiteTask::About => self.website_task_about(),
        }
    }
}

} // verus!
