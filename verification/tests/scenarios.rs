use dlrs::archive::{extraction_plan, total_size, ArchiveEntry, Extraction};
use dlrs::download::{content_length, download_step, DownloadAction, DownloadEvent, DownloadState};
use dlrs::error::IngestError;
use dlrs::job::{create_job_list, Job, JobState};
use dlrs::loader::{LoadStep, TableLoader};
use dlrs::parse::{parse_step, table_name, EntityKind, ParseAction, ParseEvent, ParseState};
use dlrs::path::{get_data_path, get_site_from_filepath};
use dlrs::pipeline::{process, Stage};
use dlrs::scheduler::Scheduler;
use dlrs::sql_utils::{Field, FieldValue};

/// What a run did.
#[derive(Debug, Default, PartialEq)]
struct Counts {
    gets: usize,
    downloaded: u64,
    extracted: u64,
    rows: u64,
}

/// The world that a run acts in: one remote archive with one entry.
struct World {
    remote_length: Option<u64>,
    local_archive: Option<u64>,
    entry: ArchiveEntry,
    extracted_file: Option<u64>,
    rows_in_file: u64,
    tables: Vec<String>,
}

fn download(job: &mut Job, world: &mut World, counts: &mut Counts) -> Result<(), IngestError> {
    let mut state = DownloadState::Start;
    let mut event = DownloadEvent::Begin { has_source: job.source_ref().is_some() };
    loop {
        let (next, action) = download_step(state, event);
        state = next;
        event = match action {
            DownloadAction::QueryLength => {
                let header = world.remote_length.map(|n| n.to_string());
                match content_length(header.as_deref()) {
                    Ok(remote) => DownloadEvent::Length { remote, local: world.local_archive },
                    Err(e) => DownloadEvent::Failure(e),
                }
            }
            DownloadAction::Fetch => {
                counts.gets += 1;
                world.local_archive = Some(0);
                DownloadEvent::Status { code: 200 }
            }
            DownloadAction::Progress { done, total } => {
                job.set_state(JobState::Downloading { done, total });
                if done < total {
                    let len = (total - done).min(400);
                    counts.downloaded += len;
                    world.local_archive = Some(done + len);
                    DownloadEvent::Chunk { len }
                } else {
                    DownloadEvent::BodyEnd
                }
            }
            DownloadAction::Finish => return Ok(()),
            DownloadAction::Fail(e) => return Err(e),
            DownloadAction::Ignore => panic!("event out of order"),
        };
    }
}

fn unzip(job: &mut Job, world: &mut World, counts: &mut Counts) -> Result<(), IngestError> {
    let entries = vec![world.entry.clone()];
    let total = total_size(&entries).unwrap();
    let plan = extraction_plan(&entries, &vec![world.extracted_file]);
    let mut progress = Extraction::new(total);
    if plan[0] {
        counts.extracted += entries[0].size;
        world.extracted_file = Some(entries[0].size);
        progress.on_bytes(entries[0].size);
        job.set_state(progress.state());
    }
    Ok(())
}

fn parse(job: &mut Job, world: &mut World, counts: &mut Counts) -> Result<(), IngestError> {
    let dir = get_data_path(&job.archive_path());
    let site = get_site_from_filepath(&format!("{}/Posts.xml", dir)).unwrap();
    let mut state = ParseState::Start;
    let mut event = ParseEvent::Begin;
    loop {
        let (next, action) = parse_step(state, event);
        state = next;
        event = match action {
            ParseAction::CheckTable(kind) => {
                ParseEvent::TableExists(world.tables.contains(&table_name(&site, kind)))
            }
            ParseAction::CheckFile(kind) => {
                ParseEvent::FileExists(kind == EntityKind::Post && world.extracted_file.is_some())
            }
            ParseAction::Load(kind) => {
                let mut loader = TableLoader::new(&table_name(&site, kind));
                assert!(loader.begin().is_some());
                for id in 0..world.rows_in_file {
                    let record = vec![
                        Field { name: "@Id".to_string(), value: FieldValue::Int(id as i64) },
                        Field { name: "@Body".to_string(), value: FieldValue::Str("b".to_string()) },
                    ];
                    match loader.on_record(&record).unwrap() {
                        LoadStep::First { .. } => world.tables.push(table_name(&site, kind)),
                        LoadStep::Row { .. } => {}
                    }
                    counts.rows += 1;
                }
                assert!(loader.finish().is_some());
                ParseEvent::Loaded
            }
            ParseAction::Finish => return Ok(()),
            ParseAction::FailMissingFile(_) => {
                // only the posts are in this archive: the other kinds are
                // taken as loaded by giving them their table
                panic!("a file is missing")
            }
            ParseAction::Fail(e) => return Err(e),
            ParseAction::Ignore => panic!("event out of order"),
        };
    }
}

fn run(job: &mut Job, world: &mut World) -> Counts {
    let mut counts = Counts::default();
    let mut stage = Some(Stage::first());
    while let Some(current) = stage {
        let outcome = match current {
            Stage::Download => download(job, world, &mut counts),
            Stage::Archive => unzip(job, world, &mut counts),
            Stage::Parse => parse(job, world, &mut counts),
        };
        stage = process(job, current, outcome);
    }
    counts
}

fn acme_world() -> World {
    let mut tables = Vec::new();
    for kind in EntityKind::all() {
        if kind != EntityKind::Post {
            tables.push(table_name("acme", kind));
        }
    }
    World {
        remote_length: Some(1000),
        local_archive: None,
        entry: ArchiveEntry { name: "Posts.xml".to_string(), size: 500, has_stream: true },
        extracted_file: None,
        rows_in_file: 4,
        tables,
    }
}

#[test]
fn scenario_fresh_run() {
    let mut jobs = create_job_list("data", "acme.7z http://example.test/acme.7z").unwrap();
    let mut world = acme_world();
    let counts = run(&mut jobs[0], &mut world);
    assert_eq!(counts, Counts { gets: 1, downloaded: 1000, extracted: 500, rows: 4 });
    assert_eq!(world.local_archive, Some(1000));
    assert_eq!(world.extracted_file, Some(500));
    assert!(world.tables.contains(&"acme_Post".to_string()));
    assert_eq!(jobs[0].state(), JobState::Done);
}

#[test]
fn scenario_resumed_run() {
    let mut world = acme_world();
    let mut first = create_job_list("data", "acme.7z http://example.test/acme.7z").unwrap();
    run(&mut first[0], &mut world);
    let mut second = create_job_list("data", "acme.7z http://example.test/acme.7z").unwrap();
    let counts = run(&mut second[0], &mut world);
    assert_eq!(counts, Counts { gets: 0, downloaded: 0, extracted: 0, rows: 0 });
    assert_eq!(second[0].state(), JobState::Done);
}

#[test]
fn scenario_missing_content_length() {
    let text = "a.7z http://example.test/a.7z\nacme.7z http://example.test/acme.7z\n";
    let mut jobs = create_job_list("data", text).unwrap();
    let mut broken = acme_world();
    broken.remote_length = None;
    let mut sound = acme_world();
    let mut scheduler = Scheduler::new(jobs.len(), 3);
    while let Some(index) = scheduler.start_next() {
        let world = if index == 0 { &mut broken } else { &mut sound };
        run(&mut jobs[index], world);
        scheduler.complete();
    }
    assert!(scheduler.is_finished());
    assert_eq!(
        jobs[0].state(),
        JobState::Error {
            message: "download error: response doesn't include the content length \
(http://example.test/a.7z)"
                .to_string()
        }
    );
    match jobs[0].state() {
        JobState::Error { message } => assert!(message.starts_with("download error: ")),
        other => panic!("unexpected state {:?}", other),
    }
    assert_eq!(jobs[1].state(), JobState::Done);
}

#[test]
fn scenario_pre_downloaded_archive() {
    let mut job = Job::new(None, "data/acme.7z".to_string());
    let mut world = acme_world();
    world.remote_length = None;
    world.local_archive = Some(1000);
    let counts = run(&mut job, &mut world);
    assert_eq!(counts, Counts { gets: 0, downloaded: 0, extracted: 500, rows: 4 });
    assert_eq!(job.state(), JobState::Done);
}

#[test]
fn scenario_partial_extraction_is_completed() {
    let mut job = Job::new(None, "data/acme.7z".to_string());
    let mut world = acme_world();
    world.extracted_file = Some(499);
    let counts = run(&mut job, &mut world);
    assert_eq!(counts.extracted, 500);
    assert_eq!(world.extracted_file, Some(500));
}
