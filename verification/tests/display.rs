use dlrs::display::{
    bar_fill, display_order, display_priority, display_progress, display_rank, done_count,
    error_label, failed_count, order_by_priority, progress_bar_width, shows_before, visible_jobs,
};
use dlrs::job::{has_archive_extension, jobs_from_archives, JobState};

fn error(message: &str) -> JobState {
    JobState::Error { message: message.to_string() }
}

fn parsing(percent: u8) -> JobState {
    JobState::Parsing { percent, current_entity: "Posts.xml".to_string() }
}

#[test]
fn later_stages_rank_higher() {
    assert_eq!(display_rank(&error("x")), 0);
    assert_eq!(display_rank(&JobState::Wait), 1);
    assert_eq!(display_rank(&JobState::Downloading { done: 0, total: 0 }), 2);
    assert_eq!(display_rank(&JobState::Unzipping { percent: 0 }), 3);
    assert_eq!(display_rank(&parsing(0)), 4);
    assert_eq!(display_rank(&JobState::Done), 5);
    assert_eq!(display_progress(&JobState::Downloading { done: 1, total: 4 }), 25);
    assert_eq!(display_progress(&JobState::Downloading { done: 0, total: 0 }), 0);
    assert_eq!(display_progress(&JobState::Unzipping { percent: 41 }), 41);
    assert_eq!(display_progress(&parsing(90)), 90);
    assert_eq!(display_progress(&JobState::Done), 0);
    assert_eq!(display_priority(&parsing(90)), 4 * 256 + 90);
    assert_eq!(display_priority(&error("x")), 0);
}

#[test]
fn shown_before() {
    assert!(shows_before(&parsing(10), &JobState::Unzipping { percent: 99 }));
    assert!(shows_before(&parsing(60), &parsing(10)));
    assert!(!shows_before(&parsing(10), &parsing(10)));
    assert!(!shows_before(&error("a"), &error("b")));
    assert!(shows_before(&JobState::Downloading { done: 0, total: 10 }, &error("a")));
    assert!(shows_before(
        &JobState::Downloading { done: 9, total: 10 },
        &JobState::Downloading { done: 1, total: 10 }
    ));
}

#[test]
fn bar_width_leaves_room_for_names() {
    assert_eq!(progress_bar_width(120, 10), 50);
    assert_eq!(progress_bar_width(80, 10), 40);
    assert_eq!(progress_bar_width(90, 10), 50);
    assert_eq!(progress_bar_width(89, 10), 49);
    assert_eq!(progress_bar_width(40, 10), 0);
    assert_eq!(progress_bar_width(41, 10), 1);
    assert_eq!(progress_bar_width(10, 200), 0);
    assert_eq!(progress_bar_width(0, 0), 0);
    assert_eq!(progress_bar_width(u16::MAX, usize::MAX), 0);
}

#[test]
fn bar_fill_follows_the_percent() {
    assert_eq!(bar_fill(50, 0), 0);
    assert_eq!(bar_fill(50, 50), 25);
    assert_eq!(bar_fill(50, 100), 50);
    assert_eq!(bar_fill(50, 255), 50);
    assert_eq!(bar_fill(40, 33), 13);
    assert_eq!(bar_fill(0, 70), 0);
    assert_eq!(bar_fill(usize::MAX, 100), usize::MAX);
}

#[test]
fn waiting_and_done_jobs_are_not_shown() {
    let states = vec![
        JobState::Wait,
        parsing(10),
        JobState::Done,
        error("x"),
        JobState::Unzipping { percent: 5 },
        JobState::Wait,
    ];
    assert_eq!(visible_jobs(&states, 10), vec![1, 3, 4]);
    assert_eq!(visible_jobs(&states, 4), vec![1, 3, 4]);
    assert_eq!(visible_jobs(&states, 3), vec![1, 3]);
    assert_eq!(visible_jobs(&states, 1), Vec::<usize>::new());
    assert_eq!(visible_jobs(&states, 0), Vec::<usize>::new());
    assert_eq!(visible_jobs(&Vec::new(), 10), Vec::<usize>::new());
    assert_eq!(done_count(&states), 1);
    assert_eq!(done_count(&Vec::new()), 0);
    assert_eq!(done_count(&vec![JobState::Done, JobState::Done]), 2);
    assert_eq!(failed_count(&states), 1);
    assert_eq!(failed_count(&Vec::new()), 0);
    assert_eq!(failed_count(&vec![error("a"), JobState::Done, error("b")]), 2);
}

#[test]
fn jobs_are_shown_the_furthest_first() {
    let states = vec![
        JobState::Downloading { done: 5, total: 10 },
        error("x"),
        parsing(10),
        JobState::Wait,
        parsing(60),
        JobState::Unzipping { percent: 99 },
        JobState::Downloading { done: 9, total: 10 },
        JobState::Done,
    ];
    assert_eq!(display_order(&states, 100), vec![4, 2, 5, 6, 0, 1]);
    assert_eq!(display_order(&states, 4), vec![2, 0, 1]);
    assert_eq!(display_order(&states, 1), Vec::<usize>::new());
}

#[test]
fn order_by_priority_keeps_every_place() {
    assert_eq!(order_by_priority(&Vec::new()), Vec::<usize>::new());
    assert_eq!(order_by_priority(&vec![7]), vec![0]);
    assert_eq!(order_by_priority(&vec![1, 3, 2]), vec![1, 2, 0]);
    assert_eq!(order_by_priority(&vec![5, 5, 9, 5]), vec![2, 0, 1, 3]);
}

#[test]
fn error_label_is_cut_to_the_room() {
    assert_eq!(error_label("download error: x", 8), "download");
    assert_eq!(error_label("short", 80), "short");
    assert_eq!(error_label("short", 5), "short");
    assert_eq!(error_label("short", 0), "");
    assert_eq!(error_label("héllo", 2), "hé");
}

#[test]
fn archives_of_the_data_directory_become_jobs() {
    assert!(has_archive_extension("acme.7z"));
    assert!(has_archive_extension(".7z"));
    assert!(!has_archive_extension("acme.zip"));
    assert!(!has_archive_extension("7z"));
    assert!(!has_archive_extension("acme.7Z"));
    assert!(!has_archive_extension(""));
    let names = vec![
        "acme.7z".to_string(),
        "notes.txt".to_string(),
        "acme".to_string(),
        "beta.com.7z".to_string(),
    ];
    let jobs = jobs_from_archives("./data", &names);
    assert_eq!(jobs.len(), 2);
    assert_eq!(jobs[0].archive_path(), "./data/acme.7z");
    assert_eq!(jobs[0].source_ref(), None);
    assert_eq!(jobs[0].state(), JobState::Wait);
    assert_eq!(jobs[1].archive_path(), "./data/beta.com.7z");
    assert_eq!(jobs_from_archives("./data", &Vec::new()).len(), 0);
}
