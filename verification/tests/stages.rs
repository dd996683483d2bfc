use dlrs::archive::{
    entry_destination, extraction_plan, percent, should_extract, total_size, ArchiveEntry,
    Extraction,
};
use dlrs::download::{
    check_status, content_length, download_step, downloading_state, DownloadAction, DownloadEvent,
    DownloadState,
};
use dlrs::error::IngestError;
use dlrs::job::JobState;
use dlrs::parse::{
    entity_path, missing_file, parse_step, parsing_state, table_name, EntityKind, ParseAction,
    ParseEvent, ParseState,
};

fn entry(name: &str, size: u64, has_stream: bool) -> ArchiveEntry {
    ArchiveEntry { name: name.to_string(), size, has_stream }
}

#[test]
fn content_length_header() {
    assert_eq!(content_length(Some("1000")), Ok(1000));
    assert_eq!(content_length(Some("0")), Ok(0));
    assert_eq!(content_length(None), Err(IngestError::MissingContentLength));
    assert_eq!(content_length(Some("")), Err(IngestError::InvalidContentLength));
    assert_eq!(content_length(Some("12 ")), Err(IngestError::InvalidContentLength));
    assert_eq!(content_length(Some("-1")), Err(IngestError::InvalidContentLength));
    assert_eq!(
        content_length(Some("18446744073709551616")),
        Err(IngestError::InvalidContentLength)
    );
}

#[test]
fn only_200_and_206_let_the_body_through() {
    assert_eq!(check_status(200), Ok(()));
    assert_eq!(check_status(206), Ok(()));
    for code in [0u16, 199, 201, 204, 205, 207, 301, 404, 416, 500, 65535] {
        assert_eq!(check_status(code), Err(IngestError::UnexpectedStatus(code)));
    }
}

#[test]
fn download_without_source_is_complete_at_once() {
    assert_eq!(
        download_step(DownloadState::Start, DownloadEvent::Begin { has_source: false }),
        (DownloadState::Done, DownloadAction::Finish)
    );
}

#[test]
fn download_fetches_what_is_not_there() {
    let (s, a) = download_step(DownloadState::Start, DownloadEvent::Begin { has_source: true });
    assert_eq!((s, a), (DownloadState::AwaitingLength, DownloadAction::QueryLength));
    let (s, a) = download_step(s, DownloadEvent::Length { remote: 1000, local: None });
    assert_eq!((s, a), (DownloadState::AwaitingStatus { total: 1000 }, DownloadAction::Fetch));
    let (s, a) = download_step(s, DownloadEvent::Status { code: 200 });
    assert_eq!(
        (s, a),
        (
            DownloadState::Receiving { done: 0, total: 1000 },
            DownloadAction::Progress { done: 0, total: 1000 }
        )
    );
    let (s, a) = download_step(s, DownloadEvent::Chunk { len: 600 });
    assert_eq!(a, DownloadAction::Progress { done: 600, total: 1000 });
    let (s, a) = download_step(s, DownloadEvent::Chunk { len: 400 });
    assert_eq!(a, DownloadAction::Progress { done: 1000, total: 1000 });
    let (s, a) = download_step(s, DownloadEvent::BodyEnd);
    assert_eq!((s, a), (DownloadState::Done, DownloadAction::Finish));
    assert_eq!(download_step(s, DownloadEvent::BodyEnd), (DownloadState::Done, DownloadAction::Ignore));
}

#[test]
fn download_is_skipped_on_equal_length_only() {
    let at = DownloadState::AwaitingLength;
    assert_eq!(
        download_step(at, DownloadEvent::Length { remote: 1000, local: Some(1000) }),
        (DownloadState::Done, DownloadAction::Finish)
    );
    for local in [Some(999), Some(1001), Some(0), None] {
        assert_eq!(
            download_step(at, DownloadEvent::Length { remote: 1000, local }),
            (DownloadState::AwaitingStatus { total: 1000 }, DownloadAction::Fetch)
        );
    }
    assert_eq!(
        download_step(at, DownloadEvent::Length { remote: 0, local: Some(0) }),
        (DownloadState::Done, DownloadAction::Finish)
    );
}

#[test]
fn download_fails_on_bad_status_and_on_failure() {
    assert_eq!(
        download_step(DownloadState::AwaitingStatus { total: 5 }, DownloadEvent::Status { code: 404 }),
        (DownloadState::Failed, DownloadAction::Fail(IngestError::UnexpectedStatus(404)))
    );
    assert_eq!(
        download_step(DownloadState::AwaitingStatus { total: 5 }, DownloadEvent::Status { code: 206 }).0,
        DownloadState::Receiving { done: 0, total: 5 }
    );
    let e = IngestError::Transport("reset".to_string());
    for state in [
        DownloadState::Start,
        DownloadState::AwaitingLength,
        DownloadState::AwaitingStatus { total: 1 },
        DownloadState::Receiving { done: 0, total: 1 },
    ] {
        assert_eq!(
            download_step(state, DownloadEvent::Failure(e.clone())),
            (DownloadState::Failed, DownloadAction::Fail(e.clone()))
        );
    }
    assert_eq!(
        download_step(DownloadState::Failed, DownloadEvent::Failure(e.clone())),
        (DownloadState::Failed, DownloadAction::Ignore)
    );
}

#[test]
fn download_ignores_events_out_of_order() {
    assert_eq!(
        download_step(DownloadState::Start, DownloadEvent::Chunk { len: 1 }),
        (DownloadState::Start, DownloadAction::Ignore)
    );
    assert_eq!(
        download_step(DownloadState::AwaitingLength, DownloadEvent::Begin { has_source: true }),
        (DownloadState::AwaitingLength, DownloadAction::Ignore)
    );
    assert_eq!(
        download_step(DownloadState::Receiving { done: 1, total: 2 }, DownloadEvent::Status { code: 200 }),
        (DownloadState::Receiving { done: 1, total: 2 }, DownloadAction::Ignore)
    );
}

#[test]
fn download_count_stops_at_the_greatest_number() {
    let (s, a) = download_step(
        DownloadState::Receiving { done: u64::MAX - 1, total: 5 },
        DownloadEvent::Chunk { len: 10 },
    );
    assert_eq!(s, DownloadState::Receiving { done: u64::MAX, total: 5 });
    assert_eq!(a, DownloadAction::Progress { done: u64::MAX, total: 5 });
    assert_eq!(downloading_state(3, 9), JobState::Downloading { done: 3, total: 9 });
}

#[test]
fn entries_of_the_right_size_are_not_extracted_again() {
    assert!(!should_extract(500, Some(500)));
    assert!(should_extract(500, Some(499)));
    assert!(should_extract(500, Some(0)));
    assert!(should_extract(500, None));
    assert!(!should_extract(0, Some(0)));
    let entries = vec![entry("Posts.xml", 500, true), entry("Tags.xml", 20, true), entry("dir", 0, false)];
    assert_eq!(
        extraction_plan(&entries, &vec![Some(500), Some(19), None]),
        vec![false, true, true]
    );
    assert_eq!(extraction_plan(&entries, &vec![None, None, Some(0)]), vec![true, true, false]);
    assert_eq!(extraction_plan(&Vec::new(), &Vec::new()), Vec::<bool>::new());
    assert_eq!(extraction_plan(&entries, &vec![Some(500)]), vec![false, true, true]);
    assert_eq!(extraction_plan(&entries, &Vec::new()), vec![true, true, true]);
}

#[test]
fn total_size_counts_entries_with_content() {
    assert_eq!(total_size(&Vec::new()), Some(0));
    assert_eq!(
        total_size(&vec![entry("a", 500, true), entry("d", 7, false), entry("b", 20, true)]),
        Some(520)
    );
    assert_eq!(total_size(&vec![entry("a", u64::MAX, true)]), Some(u64::MAX));
    assert_eq!(total_size(&vec![entry("a", u64::MAX, true), entry("b", 1, true)]), None);
    assert_eq!(total_size(&vec![entry("a", u64::MAX, true), entry("b", 1, false)]), Some(u64::MAX));
}

#[test]
fn percent_is_whole_and_capped() {
    assert_eq!(percent(0, 0), 0);
    assert_eq!(percent(5, 0), 0);
    assert_eq!(percent(0, 100), 0);
    assert_eq!(percent(50, 100), 50);
    assert_eq!(percent(1, 3), 33);
    assert_eq!(percent(2, 3), 66);
    assert_eq!(percent(99, 100), 99);
    assert_eq!(percent(999, 1000), 99);
    assert_eq!(percent(100, 100), 100);
    assert_eq!(percent(101, 100), 100);
    assert_eq!(percent(u64::MAX - 1, u64::MAX), 99);
    assert_eq!(percent(u64::MAX, u64::MAX), 100);
}

#[test]
fn extraction_progress() {
    let mut e = Extraction::new(1000);
    assert_eq!(e.state(), JobState::Unzipping { percent: 0 });
    e.on_bytes(250);
    assert_eq!(e.state(), JobState::Unzipping { percent: 25 });
    e.on_bytes(750);
    assert_eq!(e, Extraction { written: 1000, total: 1000 });
    assert_eq!(e.state(), JobState::Unzipping { percent: 100 });
    e.on_bytes(u64::MAX);
    assert_eq!(e.written, u64::MAX);
    assert_eq!(entry_destination("data/acme", &entry("Posts.xml", 1, true)), "data/acme/Posts.xml");
}

#[test]
fn entity_kinds_in_order() {
    assert_eq!(
        EntityKind::all(),
        vec![
            EntityKind::Badge,
            EntityKind::Comment,
            EntityKind::PostHistory,
            EntityKind::PostLink,
            EntityKind::Post,
            EntityKind::Tag,
            EntityKind::User,
            EntityKind::Vote,
        ]
    );
    let files: Vec<String> = EntityKind::all().iter().map(|k| k.file_name()).collect();
    assert_eq!(
        files,
        vec![
            "Badges.xml", "Comments.xml", "PostHistory.xml", "PostLinks.xml", "Posts.xml",
            "Tags.xml", "Users.xml", "Votes.xml",
        ]
    );
    let marks: Vec<u8> = EntityKind::all().iter().map(|k| k.progress()).collect();
    assert_eq!(marks, vec![0, 10, 40, 50, 60, 70, 80, 90]);
    let mut kind = Some(EntityKind::first());
    let mut walked = Vec::new();
    while let Some(k) = kind {
        walked.push(k);
        kind = k.next();
    }
    assert_eq!(walked, EntityKind::all());
}

#[test]
fn table_names_and_paths() {
    assert_eq!(table_name("acme", EntityKind::Post), "acme_Post");
    assert_eq!(table_name("tor.stackexchange", EntityKind::PostHistory), "tor.stackexchange_PostHistory");
    assert_eq!(table_name("", EntityKind::Vote), "_Vote");
    assert_eq!(entity_path("data/acme", EntityKind::Post), "data/acme/Posts.xml");
    assert_eq!(
        parsing_state(EntityKind::Tag, "data/acme/Tags.xml"),
        JobState::Parsing { percent: 70, current_entity: "data/acme/Tags.xml".to_string() }
    );
    assert_eq!(
        missing_file("data/acme", EntityKind::User),
        IngestError::MissingFile("data/acme/Users.xml".to_string())
    );
}

#[test]
fn an_existing_table_is_skipped() {
    for kind in EntityKind::all() {
        let (state, action) = parse_step(ParseState::Checking(kind), ParseEvent::TableExists(true));
        match kind.next() {
            Some(next) => {
                assert_eq!(state, ParseState::Checking(next));
                assert_eq!(action, ParseAction::CheckTable(next));
            }
            None => {
                assert_eq!(state, ParseState::Done);
                assert_eq!(action, ParseAction::Finish);
            }
        }
    }
}

#[test]
fn an_absent_table_is_loaded_from_its_file() {
    let (s, a) = parse_step(ParseState::Start, ParseEvent::Begin);
    assert_eq!((s, a), (ParseState::Checking(EntityKind::Badge), ParseAction::CheckTable(EntityKind::Badge)));
    let (s, a) = parse_step(s, ParseEvent::TableExists(false));
    assert_eq!((s, a), (ParseState::Locating(EntityKind::Badge), ParseAction::CheckFile(EntityKind::Badge)));
    let (s, a) = parse_step(s, ParseEvent::FileExists(true));
    assert_eq!((s, a), (ParseState::Loading(EntityKind::Badge), ParseAction::Load(EntityKind::Badge)));
    let (s, a) = parse_step(s, ParseEvent::Loaded);
    assert_eq!((s, a), (ParseState::Checking(EntityKind::Comment), ParseAction::CheckTable(EntityKind::Comment)));
    assert_eq!(
        parse_step(ParseState::Loading(EntityKind::Vote), ParseEvent::Loaded),
        (ParseState::Done, ParseAction::Finish)
    );
}

#[test]
fn a_missing_file_fails_the_stage() {
    assert_eq!(
        parse_step(ParseState::Locating(EntityKind::Post), ParseEvent::FileExists(false)),
        (ParseState::Failed, ParseAction::FailMissingFile(EntityKind::Post))
    );
    let e = IngestError::Decode("bad row".to_string());
    assert_eq!(
        parse_step(ParseState::Loading(EntityKind::Post), ParseEvent::Failure(e.clone())),
        (ParseState::Failed, ParseAction::Fail(e.clone()))
    );
    assert_eq!(
        parse_step(ParseState::Failed, ParseEvent::Loaded),
        (ParseState::Failed, ParseAction::Ignore)
    );
    assert_eq!(
        parse_step(ParseState::Done, ParseEvent::Failure(e)),
        (ParseState::Done, ParseAction::Ignore)
    );
    assert_eq!(
        parse_step(ParseState::Start, ParseEvent::Loaded),
        (ParseState::Start, ParseAction::Ignore)
    );
    assert_eq!(
        parse_step(ParseState::Checking(EntityKind::Tag), ParseEvent::FileExists(true)),
        (ParseState::Checking(EntityKind::Tag), ParseAction::Ignore)
    );
}
