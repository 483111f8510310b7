use rtasks::{App, Task};
use serde_json::Value;

fn to_json(tasks: &[Task]) -> String {
    let records: Vec<Value> = tasks
        .iter()
        .map(|t| {
            let mut m = serde_json::Map::new();
            m.insert("id".to_string(), Value::from(t.id));
            m.insert("title".to_string(), Value::from(t.title.clone()));
            m.insert("description".to_string(), Value::from(t.description.clone()));
            m.insert("completed".to_string(), Value::from(t.completed));
            Value::Object(m)
        })
        .collect();
    serde_json::to_string_pretty(&Value::Array(records)).unwrap()
}

fn from_json(text: &str) -> Vec<Task> {
    let value: Value = serde_json::from_str(text).unwrap();
    value
        .as_array()
        .unwrap()
        .iter()
        .map(|r| {
            let mut t = Task::new(
                r["id"].as_u64().unwrap() as usize,
                r["title"].as_str().unwrap().to_string(),
                r["description"].as_str().unwrap().to_string(),
            );
            t.completed = r["completed"].as_bool().unwrap();
            t
        })
        .collect()
}

#[test]
fn reload_after_storing_gives_same_tasks() {
    let mut app = App::new();
    app.add_task("Buy milk".to_string(), String::new());
    app.add_task("Call Bob".to_string(), "urgent".to_string());
    app.add_task("Write \"notes\"".to_string(), "line\nbreak".to_string());
    app.selected_index = 1;
    app.delete_task();
    app.toggle_task();
    let text = to_json(&app.tasks);
    let back = App::from_tasks(from_json(&text));
    assert_eq!(back.tasks.len(), app.tasks.len());
    for (a, b) in app.tasks.iter().zip(back.tasks.iter()) {
        assert_eq!(a.id, b.id);
        assert_eq!(a.title, b.title);
        assert_eq!(a.description, b.description);
        assert_eq!(a.completed, b.completed);
    }
    assert_eq!(back.next_id, 4);
    assert!(back.tasks.iter().all(|t| t.id < back.next_id));
}
