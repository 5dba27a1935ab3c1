use light_engine::engine::{TaskStatus, TaskStatusType};
use light_engine::manager::TaskManager;

fn downloading(streamed: usize) -> TaskStatus {
    TaskStatus { status_type: TaskStatusType::Downloading { total: None, streamed, rate: 0 }, retries: 0 }
}

#[test]
fn a_new_task_is_pending() {
    let mut m = TaskManager::new();
    m.new_task(7);
    let s = m.get_status(7).expect("registered");
    assert_eq!(s.status_type, TaskStatusType::Pending);
    assert_eq!(s.retries, 0);
    assert!(m.get_status(7).is_some());
}

#[test]
fn an_update_is_read_back() {
    let mut m = TaskManager::new();
    m.new_task(1);
    m.update_status(1, downloading(42));
    assert_eq!(m.get_status(1).unwrap().status_type, TaskStatusType::Downloading { total: None, streamed: 42, rate: 0 });
}

#[test]
fn an_unknown_task_is_not_updated() {
    let mut m = TaskManager::new();
    m.update_status(9, downloading(1));
    assert!(m.get_status(9).is_none());
}

#[test]
fn a_final_status_is_read_once() {
    let mut m = TaskManager::new();
    m.new_task(3);
    m.update_status(3, TaskStatus { status_type: TaskStatusType::Completed, retries: 1 });
    let s = m.get_status(3).unwrap();
    assert_eq!(s.status_type, TaskStatusType::Completed);
    assert_eq!(s.retries, 1);
    assert!(m.get_status(3).is_none());
}

#[test]
fn statuses_are_read_in_order_without_removal() {
    let mut m = TaskManager::new();
    m.new_tasks(vec![1, 2, 3]);
    m.update_status(2, TaskStatus { status_type: TaskStatusType::Completed, retries: 0 });
    let all = m.get_statuses(vec![3, 2, 5, 1]);
    assert_eq!(all.len(), 4);
    assert_eq!(all[0].as_ref().unwrap().status_type, TaskStatusType::Pending);
    assert_eq!(all[1].as_ref().unwrap().status_type, TaskStatusType::Completed);
    assert!(all[2].is_none());
    assert_eq!(all[3].as_ref().unwrap().status_type, TaskStatusType::Pending);
    assert!(m.get_statuses(vec![2])[0].is_some());
}

#[test]
fn deleted_tasks_are_forgotten() {
    let mut m = TaskManager::new();
    m.new_tasks(vec![1, 2, 3, 4]);
    m.delete_task(1);
    m.delete_tasks(vec![2, 3]);
    assert!(m.get_status(1).is_none());
    assert!(m.get_status(2).is_none());
    assert!(m.get_status(3).is_none());
    assert!(m.get_status(4).is_some());
}
