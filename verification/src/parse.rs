//! The parse stage: the eight kinds of records of a source, the order in
//! which their files are loaded, and what to do for each.
//!
//! Each kind has a file in the extracted directory and a table in the store.
//! A table that exists stands for a file that was loaded completely: its
//! file is not opened again. The caller asks the store and the disk and
//! loads the files; this module decides.

use crate::error::IngestError;
use crate::job::JobState;
use crate::path::{join_path, spec_join_path};
use crate::text::concat_str;
use vstd::prelude::*;

verus! {

/// The kinds of records of a source, in the order in which they are loaded.
#[derive(Debug, Clone, Copy, PartialEq, Eq, Structural)]
pub enum EntityKind {
    Badge,
    Comment,
    PostHistory,
    PostLink,
    Post,
    Tag,
    User,
    Vote,
}

/// The kinds in loading order.
pub open spec fn entity_order() -> Seq<EntityKind> {
    seq![
        EntityKind::Badge,
        EntityKind::Comment,
        EntityKind::PostHistory,
        EntityKind::PostLink,
        EntityKind::Post,
        EntityKind::Tag,
        EntityKind::User,
        EntityKind::Vote,
    ]
}

impl EntityKind {
    /// The place of this kind in the loading order, from 0.
    pub open spec fn spec_position(self) -> int {
        match self {
            EntityKind::Badge => 0,
            EntityKind::Comment => 1,
            EntityKind::PostHistory => 2,
            EntityKind::PostLink => 3,
            EntityKind::Post => 4,
            EntityKind::Tag => 5,
            EntityKind::User => 6,
            EntityKind::Vote => 7,
        }
    }

    /// The kind loaded after this one, if any.
    pub open spec fn spec_next(self) -> Option<EntityKind> {
        if self.spec_position() + 1 < entity_order().len() {
            Some(entity_order()[self.spec_position() + 1])
        } else {
            None
        }
    }

    /// The name of the file that holds the records of this kind.
    pub open spec fn spec_file_name(self) -> Seq<char> {
        match self {
            EntityKind::Badge => "Badges.xml"@,
            EntityKind::Comment => "Comments.xml"@,
            EntityKind::PostHistory => "PostHistory.xml"@,
            EntityKind::PostLink => "PostLinks.xml"@,
            EntityKind::Post => "Posts.xml"@,
            EntityKind::Tag => "Tags.xml"@,
            EntityKind::User => "Users.xml"@,
            EntityKind::Vote => "Votes.xml"@,
        }
    }

    /// The end of the name of the table that holds the records of this kind.
    pub open spec fn spec_table_suffix(self) -> Seq<char> {
        match self {
            EntityKind::Badge => "Badge"@,
            EntityKind::Comment => "Comment"@,
            EntityKind::PostHistory => "PostHistory"@,
            EntityKind::PostLink => "PostLink"@,
            EntityKind::Post => "Post"@,
            EntityKind::Tag => "Tag"@,
            EntityKind::User => "User"@,
            EntityKind::Vote => "Vote"@,
        }
    }

    /// How far the parse stage has come when it reaches this kind, in
    /// percent.
    pub open spec fn spec_progress(self) -> u8 {
        match self {
            EntityKind::Badge => 0,
            EntityKind::Comment => 10,
            EntityKind::PostHistory => 40,
            EntityKind::PostLink => 50,
            EntityKind::Post => 60,
            EntityKind::Tag => 70,
            EntityKind::User => 80,
            EntityKind::Vote => 90,
        }
    }

    /// The kinds in loading order.
    pub fn all() -> (v: Vec<EntityKind>)
        ensures
            v@ == entity_order(),
    {
        let mut v: Vec<EntityKind> = Vec::new();
        v.push(EntityKind::Badge);
        v.push(EntityKind::Comment);
        v.push(EntityKind::PostHistory);
        v.push(EntityKind::PostLink);
        v.push(EntityKind::Post);
        v.push(EntityKind::Tag);
        v.push(EntityKind::User);
        v.push(EntityKind::Vote);
        assert(v@ =~= entity_order());
        v
    }

    /// The first kind to load.
    pub fn first() -> (k: EntityKind)
        ensures
            k == entity_order()[0],
    {
        EntityKind::Badge
    }

    /// The kind loaded after this one, if any.
    pub fn next(&self) -> (r: Option<EntityKind>)
        ensures
            r == self.spec_next(),
    {
        match self {
            EntityKind::Badge => Some(EntityKind::Comment),
            EntityKind::Comment => Some(EntityKind::PostHistory),
            EntityKind::PostHistory => Some(EntityKind::PostLink),
            EntityKind::PostLink => Some(EntityKind::Post),
            EntityKind::Post => Some(EntityKind::Tag),
            EntityKind::Tag => Some(EntityKind::User),
            EntityKind::User => Some(EntityKind::Vote),
            EntityKind::Vote => None,
        }
    }

    /// The name of the file that holds the records of this kind.
    pub fn file_name(&self) -> (s: String)
        ensures
            s@ == self.spec_file_name(),
    {
        match self {
            EntityKind::Badge => "Badges.xml".to_owned(),
            EntityKind::Comment => "Comments.xml".to_owned(),
            EntityKind::PostHistory => "PostHistory.xml".to_owned(),
            EntityKind::PostLink => "PostLinks.xml".to_owned(),
            EntityKind::Post => "Posts.xml".to_owned(),
            EntityKind::Tag => "Tags.xml".to_owned(),
            EntityKind::User => "Users.xml".to_owned(),
            EntityKind::Vote => "Votes.xml".to_owned(),
        }
    }

    /// The end of the name of the table that holds the records of this kind.
    pub fn table_suffix(&self) -> (s: String)
        ensures
            s@ == self.spec_table_suffix(),
    {
        match self {
            EntityKind::Badge => "Badge".to_owned(),
            EntityKind::Comment => "Comment".to_owned(),
            EntityKind::PostHistory => "PostHistory".to_owned(),
            EntityKind::PostLink => "PostLink".to_owned(),
            EntityKind::Post => "Post".to_owned(),
            EntityKind::Tag => "Tag".to_owned(),
            EntityKind::User => "User".to_owned(),
            EntityKind::Vote => "Vote".to_owned(),
        }
    }

    /// How far the parse stage has come when it reaches this kind.
    pub fn progress(&self) -> (p: u8)
        ensures
            p == self.spec_progress(),
    {
        match self {
            EntityKind::Badge => 0,
            EntityKind::Comment => 10,
            EntityKind::PostHistory => 40,
            EntityKind::PostLink => 50,
            EntityKind::Post => 60,
            EntityKind::Tag => 70,
            EntityKind::User => 80,
            EntityKind::Vote => 90,
        }
    }
}

/// The name of the table of a site's records of one kind: the site, `_` and
/// the kind.
pub open spec fn spec_table_name(site: Seq<char>, kind: EntityKind) -> Seq<char> {
    site + "_"@ + kind.spec_table_suffix()
}

/// The name of the table of a site's records of one kind.
pub fn table_name(site: &str, kind: EntityKind) -> (r: String)
    ensures
        r@ == spec_table_name(site@, kind),
{
    let mut r = concat_str(site, "_");
    let suffix = kind.table_suffix();
    r.append(suffix.as_str());
    r
}

/// The path of the file of one kind inside the directory `dir`.
pub fn entity_path(dir: &str, kind: EntityKind) -> (r: String)
    ensures
        r@ == spec_join_path(dir@, kind.spec_file_name()),
{
    let name = kind.file_name();
    join_path(dir, name.as_str())
}

/// The job state shown while the file at `path` of the kind `kind` is
/// looked at.
pub fn parsing_state(kind: EntityKind, path: &str) -> (s: JobState)
    ensures
        s@ == (crate::job::JobStateView::Parsing {
            percent: kind.spec_progress(),
            current_entity: path@,
        }),
{
    JobState::Parsing { percent: kind.progress(), current_entity: path.to_owned() }
}

/// The error for a kind whose file is missing though its table does not
/// exist: the archive was not extracted completely.
pub fn missing_file(dir: &str, kind: EntityKind) -> (e: IngestError)
    ensures
        e matches IngestError::MissingFile(p) && p@ == spec_join_path(
            dir@,
            kind.spec_file_name(),
        ),
{
    IngestError::MissingFile(entity_path(dir, kind))
}

/// Where the parse stage stands.
#[derive(Debug, Clone, Copy, PartialEq, Eq, Structural)]
pub enum ParseState {
    /// Nothing was done yet.
    Start,
    /// The store was asked whether the table of this kind exists.
    Checking(EntityKind),
    /// The disk was asked whether the file of this kind exists.
    Locating(EntityKind),
    /// The file of this kind is being loaded.
    Loading(EntityKind),
    /// Every kind is loaded.
    Done,
    /// The stage failed.
    Failed,
}

/// What happened since the last step.
#[derive(Debug, Clone, PartialEq, Eq)]
pub enum ParseEvent {
    /// The stage begins.
    Begin,
    /// The store says whether the table exists.
    TableExists(bool),
    /// The disk says whether the file exists.
    FileExists(bool),
    /// The file was loaded and its rows are committed.
    Loaded,
    /// Reading, decoding or storing failed.
    Failure(IngestError),
}

/// What the caller does next.
#[derive(Debug, Clone, PartialEq, Eq)]
pub enum ParseAction {
    /// Ask the store whether the table of this kind exists.
    CheckTable(EntityKind),
    /// Ask the disk whether the file of this kind exists.
    CheckFile(EntityKind),
    /// Load the file of this kind into its table, in one transaction.
    Load(EntityKind),
    /// The stage is complete.
    Finish,
    /// The stage failed: the file of this kind is missing.
    FailMissingFile(EntityKind),
    /// The stage failed.
    Fail(IngestError),
    /// The event does not belong here; nothing changes.
    Ignore,
}

/// The state and the action once the kind `kind` is dealt with: on to the
/// next kind, or the end.
pub open spec fn after_kind(kind: EntityKind) -> (ParseState, ParseAction) {
    match kind.spec_next() {
        Some(next) => (ParseState::Checking(next), ParseAction::CheckTable(next)),
        None => (ParseState::Done, ParseAction::Finish),
    }
}

/// The state after an event, and what the caller does next.
pub open spec fn parse_next(state: ParseState, event: ParseEvent) -> (ParseState, ParseAction) {
    match (state, event) {
        (ParseState::Done, _) => (state, ParseAction::Ignore),
        (ParseState::Failed, _) => (state, ParseAction::Ignore),
        (_, ParseEvent::Failure(e)) => (ParseState::Failed, ParseAction::Fail(e)),
        (ParseState::Start, ParseEvent::Begin) => (
            ParseState::Checking(entity_order()[0]),
            ParseAction::CheckTable(entity_order()[0]),
        ),
        (ParseState::Checking(kind), ParseEvent::TableExists(exists)) => if exists {
            after_kind(kind)
        } else {
            (ParseState::Locating(kind), ParseAction::CheckFile(kind))
        },
        (ParseState::Locating(kind), ParseEvent::FileExists(exists)) => if exists {
            (ParseState::Loading(kind), ParseAction::Load(kind))
        } else {
            (ParseState::Failed, ParseAction::FailMissingFile(kind))
        },
        (ParseState::Loading(kind), ParseEvent::Loaded) => after_kind(kind),
        _ => (state, ParseAction::Ignore),
    }
}

/// Goes on after the kind `kind`.
fn advance(kind: EntityKind) -> (r: (ParseState, ParseAction))
    ensures
        r == after_kind(kind),
{
    match kind.next() {
        Some(next) => (ParseState::Checking(next), ParseAction::CheckTable(next)),
        None => (ParseState::Done, ParseAction::Finish),
    }
}

/// Takes one event: gives the state after it and what to do next.
pub fn parse_step(state: ParseState, event: ParseEvent) -> (r: (ParseState, ParseAction))
    ensures
        r == parse_next(state, event),
{
    match state {
        ParseState::Done => (state, ParseAction::Ignore),
        ParseState::Failed => (state, ParseAction::Ignore),
        _ => match event {
            ParseEvent::Failure(e) => (ParseState::Failed, ParseAction::Fail(e)),
            ParseEvent::Begin => match state {
                ParseState::Start => (
                    ParseState::Checking(EntityKind::first()),
                    ParseAction::CheckTable(EntityKind::first()),
                ),
                _ => (state, ParseAction::Ignore),
            },
            ParseEvent::TableExists(exists) => match state {
                ParseState::Checking(kind) => if exists {
                    advance(kind)
                } else {
                    (ParseState::Locating(kind), ParseAction::CheckFile(kind))
                },
                _ => (state, ParseAction::Ignore),
            },
            ParseEvent::FileExists(exists) => match state {
                ParseState::Locating(kind) => if exists {
                    (ParseState::Loading(kind), ParseAction::Load(kind))
                } else {
                    (ParseState::Failed, ParseAction::FailMissingFile(kind))
                },
                _ => (state, ParseAction::Ignore),
            },
            ParseEvent::Loaded => match state {
                ParseState::Loading(kind) => advance(kind),
                _ => (state, ParseAction::Ignore),
            },
        },
    }
}

/// Whole-table idempotence. For every kind, where the table exists before
/// the stage comes to it, the stage neither asks for the kind's file nor
/// loads it: it goes straight on to the next kind, or ends. So no row is
/// inserted and the file is not opened.
pub proof fn lemma_existing_table_is_skipped(kind: EntityKind)
    ensures
        parse_next(ParseState::Checking(kind), ParseEvent::TableExists(true)) == after_kind(kind),
        after_kind(kind).1 != ParseAction::CheckFile(kind),
        after_kind(kind).1 != ParseAction::Load(kind),
        after_kind(kind).0 != ParseState::Locating(kind),
        after_kind(kind).0 != ParseState::Loading(kind),
        after_kind(kind).1 is CheckTable || after_kind(kind).1 is Finish,
{
}

/// The kinds are loaded in their order: the kind after the one at place `i`
/// is the one at place `i + 1`, and nothing follows the last.
pub proof fn lemma_entity_order(kind: EntityKind)
    ensures
        0 <= kind.spec_position() < 8,
        entity_order().len() == 8,
        entity_order()[kind.spec_position()] == kind,
        kind.spec_next() matches Some(next) ==> next.spec_position() == kind.spec_position() + 1,
        kind.spec_next() is None <==> kind == EntityKind::Vote,
{
}

} // verus!
