use goose::error::GooseError;
use goose::goose::{GooseClient, GooseScheduler, GooseTask, GooseTaskSet, GooseTaskSets};
use goose::goosefile::WebsiteTask;
use goose::metrics::GooseMethod;

#[test]
fn the_goosefile_registers_the_website_tasks() {
    let mut task_sets: GooseTaskSets<WebsiteTask> = GooseTaskSets::new();
    task_sets.initialize_goosefile();
    assert_eq!(task_sets.task_sets.len(), 1);
    let set = &task_sets.task_sets[0];
    assert_eq!(set.name, "WebsiteTasks");
    assert_eq!(set.weight, 10);
    assert_eq!(set.scheduler, GooseScheduler::RoundRobin);
    let tasks: Vec<(String, usize, Option<WebsiteTask>)> =
        set.tasks.iter().map(|t| (t.name.clone(), t.weight, t.function)).collect();
    assert_eq!(
        tasks,
        vec![
            ("/index.html".to_string(), 6, Some(WebsiteTask::Index)),
            ("/story.html".to_string(), 9, Some(WebsiteTask::Story)),
            ("/about.html".to_string(), 3, Some(WebsiteTask::About)),
        ]
    );
    assert!(task_sets.validate().is_ok());
    // Registering again adds the task set again, after the first.
    task_sets.initialize_goosefile();
    assert_eq!(task_sets.task_sets.len(), 2);
}

#[test]
fn website_tasks_ask_for_their_pages() {
    let mut client = GooseClient::new();
    client.website_task_index();
    client.website_task_story();
    client.website_task_about();
    client.run_website_task(WebsiteTask::Story);
    let asked: Vec<(GooseMethod, String)> =
        client.take_requests().into_iter().map(|r| (r.method, r.url)).collect();
    assert_eq!(
        asked,
        vec![
            (GooseMethod::Get, "http://apache.fosciana/".to_string()),
            (GooseMethod::Get, "http://apache.fosciana/story.html".to_string()),
            (GooseMethod::Get, "http://apache.fosciana/about.html".to_string()),
            (GooseMethod::Get, "http://apache.fosciana/story.html".to_string()),
        ]
    );
    assert!(client.take_requests().is_empty());
}

#[test]
fn tasks_and_task_sets_are_built_step_by_step() {
    let task: GooseTask<u8> = GooseTask::new("login").set_weight(4).set_function(7).set_on_start();
    assert_eq!(task.name, "login");
    assert_eq!(task.weight, 4);
    assert_eq!(task.function, Some(7));
    assert!(task.on_start);
    assert!(!task.on_stop);
    let stop: GooseTask<u8> = GooseTask::new("logout").set_on_stop();
    assert_eq!(stop.weight, 1);
    assert_eq!(stop.function, None);
    assert!(stop.on_stop);
    let mut set: GooseTaskSet<u8> =
        GooseTaskSet::new("Users").set_weight(2).set_scheduler(GooseScheduler::Serial);
    set.register_task(task);
    set.register_task(stop);
    assert_eq!(set.name, "Users");
    assert_eq!(set.weight, 2);
    assert_eq!(set.scheduler, GooseScheduler::Serial);
    assert_eq!(set.tasks.len(), 2);
    assert_eq!(set.tasks[1].name, "logout");
}

#[test]
fn a_load_test_without_tasks_cannot_run() {
    let task_sets: GooseTaskSets<u8> = GooseTaskSets::new();
    assert!(matches!(task_sets.validate(), Err(GooseError::NoTasks)));
    let mut task_sets: GooseTaskSets<u8> = GooseTaskSets::new();
    let mut full: GooseTaskSet<u8> = GooseTaskSet::new("Full");
    full.register_task(GooseTask::new("a"));
    task_sets.register_taskset(full);
    task_sets.register_taskset(GooseTaskSet::new("Empty"));
    assert!(matches!(task_sets.validate(), Err(GooseError::NoTasks)));
}

#[test]
fn a_weight_of_zero_is_an_invalid_option() {
    let mut task_sets: GooseTaskSets<u8> = GooseTaskSets::new();
    let mut set: GooseTaskSet<u8> = GooseTaskSet::new("Set");
    set.register_task(GooseTask::new("a"));
    set.register_task(GooseTask::new("b").set_weight(0));
    task_sets.register_taskset(set);
    match task_sets.validate() {
        Err(GooseError::InvalidOption { option, value, detail }) => {
            assert_eq!(option, "weight");
            assert_eq!(value, "0");
            assert_eq!(detail, "a weight must be at least 1");
        }
        other => panic!("unexpected: {:?}", other),
    }
    let mut task_sets: GooseTaskSets<u8> = GooseTaskSets::new();
    let mut set: GooseTaskSet<u8> = GooseTaskSet::new("Set").set_weight(0);
    set.register_task(GooseTask::new("a"));
    task_sets.register_taskset(set);
    assert!(matches!(task_sets.validate(), Err(GooseError::InvalidOption { .. })));
}
