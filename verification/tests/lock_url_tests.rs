use desk_reminder::lock_url::{lock_slave_url, LockTaskArgs};

#[test]
fn bare_url_without_task() {
    assert_eq!(lock_slave_url(None), "index.html?mode=lock_slave");
}

#[test]
fn task_data_is_percent_encoded_into_the_query() {
    let args = LockTaskArgs {
        title: "Stand Up".to_string(),
        desc: "walk & drink".to_string(),
        duration: 5,
        icon: "bell".to_string(),
    };
    assert_eq!(
        lock_slave_url(Some(&args)),
        "index.html?mode=lock_slave&title=Stand+Up&desc=walk+%26+drink&duration=5&icon=bell"
    );
}

#[test]
fn negative_duration_is_rendered_signed() {
    let args = LockTaskArgs {
        title: "t".to_string(),
        desc: "d".to_string(),
        duration: -3,
        icon: "i".to_string(),
    };
    assert_eq!(
        lock_slave_url(Some(&args)),
        "index.html?mode=lock_slave&title=t&desc=d&duration=-3&icon=i"
    );
}
