use dlrs::error::Error;
use dlrs::kinds::{BadgeClass, LinkType, PostHistoryType, PostType, VoteType};
use dlrs::records::{
    from_rfc3339_without_timezone, from_string, from_string_optional, timestamp_from_parsed,
    Badge, Comment, Post, PostHistory, PostLink, Tag, Tags, Timestamp, User, Vote,
};
use dlrs::sql_utils::{bind_stmt, to_init_table, Field, FieldValue};

fn ts(text: &str) -> Timestamp {
    Timestamp::new(text.to_string())
}

fn names(fields: &Vec<Field>) -> Vec<String> {
    fields.iter().map(|f| f.name.clone()).collect()
}

#[test]
fn enumerations_have_their_numbers() {
    assert_eq!(BadgeClass::Gold.repr(), 1);
    assert_eq!(BadgeClass::Silver.repr(), 2);
    assert_eq!(BadgeClass::Bronze.repr(), 3);
    assert_eq!(LinkType::Linked.repr(), 1);
    assert_eq!(LinkType::Duplicate.repr(), 3);
    assert_eq!(PostType::PrivilegeWiki.repr(), 8);
    assert_eq!(PostHistoryType::QuestionUnmerged.repr(), 22);
    assert_eq!(PostHistoryType::SuggestedEditApplied.repr(), 24);
    assert_eq!(PostHistoryType::MovedToChat.repr(), 31);
    assert_eq!(PostHistoryType::PostMergeDestination.repr(), 38);
    assert_eq!(VoteType::InformModerator.repr(), 13);
    assert_eq!(VoteType::ModeratorReview.repr(), 15);
    assert_eq!(VoteType::ApproveEditSuggestion.repr(), 16);
    assert_eq!(BadgeClass::Gold.name(), "Gold");
    assert_eq!(VoteType::UpMod.name(), "UpMod");
    assert_eq!(PostHistoryType::RollbackTags.name(), "RollbackTags");
}

#[test]
fn enumerations_are_found_again_from_their_numbers() {
    let mut badge = 0;
    let mut history = 0;
    let mut link = 0;
    let mut post = 0;
    let mut vote = 0;
    for n in 0..=255u8 {
        if let Some(v) = BadgeClass::from_repr(n) {
            assert_eq!(v.repr(), n);
            badge += 1;
        }
        if let Some(v) = PostHistoryType::from_repr(n) {
            assert_eq!(v.repr(), n);
            history += 1;
        }
        if let Some(v) = LinkType::from_repr(n) {
            assert_eq!(v.repr(), n);
            link += 1;
        }
        if let Some(v) = PostType::from_repr(n) {
            assert_eq!(v.repr(), n);
            post += 1;
        }
        if let Some(v) = VoteType::from_repr(n) {
            assert_eq!(v.repr(), n);
            vote += 1;
        }
    }
    assert_eq!((badge, history, link, post, vote), (3, 31, 2, 8, 15));
    assert_eq!(BadgeClass::from_repr(0), None);
    assert_eq!(LinkType::from_repr(2), None);
    assert_eq!(PostHistoryType::from_repr(23), None);
    assert_eq!(VoteType::from_repr(14), None);
    assert_eq!(VoteType::from_repr(2), Some(VoteType::UpMod));
}

#[test]
fn from_string_reads_identifiers() {
    assert_eq!(from_string("42"), Ok(42));
    assert_eq!(from_string("-7"), Ok(-7));
    assert_eq!(from_string("+7"), Ok(7));
    assert_eq!(from_string(""), Err(Error::ExpectedInteger));
    assert_eq!(from_string("4 2"), Err(Error::ExpectedInteger));
    assert_eq!(from_string("9223372036854775808"), Err(Error::ExpectedInteger));
    assert_eq!(from_string_optional(None), Ok(None));
    assert_eq!(from_string_optional(Some("12")), Ok(Some(12)));
    assert_eq!(from_string_optional(Some("x")), Err(Error::ExpectedInteger));
}

#[test]
fn timestamps_are_read_by_chrono() {
    let read = from_rfc3339_without_timezone("2009-03-05T22:28:34.823").unwrap().unwrap();
    // the digits after the point count nanoseconds
    assert_eq!(read.text(), "2009-03-05T22:28:34.000000823");
    let whole = from_rfc3339_without_timezone("2011-12-31T23:59:59.0").unwrap().unwrap();
    assert_eq!(whole.text(), "2011-12-31T23:59:59");
    let milli = from_rfc3339_without_timezone("2011-01-02T03:04:05.823000000").unwrap().unwrap();
    assert_eq!(milli.text(), "2011-01-02T03:04:05.823");
}

#[test]
fn what_is_no_timestamp_is_an_error() {
    for bad in ["", "yesterday", "2009-03-05", "2009-13-05T22:28:34.823", "2009-02-30T00:00:00.0", "2009-03-05T22:28:34"] {
        assert_eq!(
            from_rfc3339_without_timezone(bad),
            Err(Error::Message(format!(
                "invalid value: string \"{}\", expected a string represents chrono::NaiveDateTime",
                bad
            )))
        );
    }
}

#[test]
fn timestamp_from_what_was_parsed() {
    assert_eq!(
        timestamp_from_parsed(Some("2009-03-05T22:28:34".to_string()), "ignored"),
        Ok(Some(ts("2009-03-05T22:28:34")))
    );
    assert_eq!(
        timestamp_from_parsed(None, "abc"),
        Err(Error::Message(
            "invalid value: string \"abc\", expected a string represents chrono::NaiveDateTime"
                .to_string()
        ))
    );
}

#[test]
fn tag_gives_its_fields_in_order() {
    let tag = Tag { id: 3, tag_name: "rust".to_string(), count: 12, excerpt_post_id: Some(9), wiki_post_id: None };
    assert_eq!(
        tag.fields(),
        vec![
            Field { name: "@Id".to_string(), value: FieldValue::Int(3) },
            Field { name: "@TagName".to_string(), value: FieldValue::Str("rust".to_string()) },
            Field { name: "@Count".to_string(), value: FieldValue::Int(12) },
            Field { name: "@ExcerptPostId".to_string(), value: FieldValue::Int(9) },
            Field { name: "@WikiPostId".to_string(), value: FieldValue::Absent },
        ]
    );
    let (create, insert) = to_init_table(&tag.fields(), "acme_Tag");
    assert_eq!(
        create,
        "CREATE TABLE IF NOT EXISTS [acme_Tag] (id INTEGER PRIMARY KEY UNIQUE,tag_name TEXT,\
count INTEGER,excerpt_post_id INTEGER,wiki_post_id TEXT);"
    );
    assert_eq!(
        insert,
        "INSERT INTO [acme_Tag] (id,tag_name,count,excerpt_post_id,wiki_post_id) VALUES (?,?,?,?,?);"
    );
    assert_eq!(bind_stmt(&tag.fields()), vec!["3", "rust", "12", "9", "NULL"]);
    let tags = Tags { row: vec![tag.clone(), tag] };
    assert_eq!(tags.row.len(), 2);
}

#[test]
fn badge_stores_its_class_by_number() {
    let badge = Badge {
        id: 1,
        user_id: 2,
        name: "Teacher".to_string(),
        date: ts("2010-01-01T00:00:00"),
        class: BadgeClass::Bronze,
        tag_based: false,
    };
    assert_eq!(names(&badge.fields()), vec!["@Id", "@UserId", "@Name", "@Date", "@Class", "@TagBased"]);
    assert_eq!(
        bind_stmt(&badge.fields()),
        vec!["1", "2", "Teacher", "2010-01-01T00:00:00", "3", "false"]
    );
    let (create, _) = to_init_table(&badge.fields(), "s_Badge");
    assert_eq!(
        create,
        "CREATE TABLE IF NOT EXISTS [s_Badge] (id INTEGER PRIMARY KEY UNIQUE,user_id INTEGER,\
name TEXT,date TEXT,class INTEGER,tag_based TEXT);"
    );
}

#[test]
fn vote_with_a_text_id_still_has_a_primary_key() {
    let vote = Vote {
        id: "17".to_string(),
        post_id: 4,
        vote_type_id: VoteType::BountyClose,
        creation_date: ts("2010-01-01T00:00:00"),
        user_id: None,
        bounty_amount: Some("50".to_string()),
    };
    let (create, _) = to_init_table(&vote.fields(), "s_Vote");
    assert_eq!(
        create,
        "CREATE TABLE IF NOT EXISTS [s_Vote] (id INTEGER PRIMARY KEY UNIQUE,post_id INTEGER,\
vote_type_id INTEGER,creation_date TEXT,user_id TEXT,bounty_amount TEXT);"
    );
    assert_eq!(
        bind_stmt(&vote.fields()),
        vec!["17", "4", "9", "2010-01-01T00:00:00", "NULL", "50"]
    );
}

#[test]
fn every_record_kind_has_its_field_count() {
    let date = ts("2010-01-01T00:00:00");
    let comment = Comment {
        id: 1,
        post_id: 2,
        score: 3,
        text: "t".to_string(),
        creation_date: date.clone(),
        user_display_name: None,
        user_id: Some(5),
    };
    assert_eq!(comment.fields().len(), 7);
    let history = PostHistory {
        id: 1,
        post_history_type_id: 5,
        post_id: 2,
        revision_guid: "g".to_string(),
        creation_date: date.clone(),
        user_id: None,
        user_display_name: None,
        comment: None,
        text: Some("x".to_string()),
    };
    assert_eq!(history.fields().len(), 9);
    assert_eq!(history.fields()[1], Field { name: "@PostHistoryTypeId".to_string(), value: FieldValue::Int(5) });
    let link = PostLink {
        id: 1,
        creation_date: date.clone(),
        post_id: 2,
        related_post_id: 3,
        link_type_id: LinkType::Duplicate,
    };
    assert_eq!(bind_stmt(&link.fields()), vec!["1", "2010-01-01T00:00:00", "2", "3", "3"]);
    let post = Post {
        id: 1,
        post_type_id: PostType::Answer,
        parent_id: Some(7),
        accepted_answer_id: None,
        creation_date: date.clone(),
        deletion_date: None,
        score: -2,
        view_count: None,
        body: "b".to_string(),
        owner_user_id: None,
        owner_display_name: None,
        last_editor_user_id: None,
        last_editor_display_name: None,
        last_edit_date: Some(date.clone()),
        last_activity_date: date.clone(),
        title: None,
        tags: None,
        answer_count: None,
        comment_count: 0,
        favorite_count: None,
        closed_date: None,
        community_owned_date: None,
    };
    assert_eq!(post.fields().len(), 22);
    assert_eq!(post.fields()[21].name, "@CommunityOwnedDate");
    assert_eq!(post.fields()[13].value, FieldValue::Str("2010-01-01T00:00:00".to_string()));
    assert_eq!(post.fields()[1].value, FieldValue::UInt(2));
    let user = User {
        id: 1,
        reputation: 10,
        creation_date: date.clone(),
        display_name: "d".to_string(),
        email_hash: None,
        profile_image_url: None,
        last_access_date: date,
        website_url: None,
        location: None,
        age: Some(30),
        about_me: None,
        views: 4000000000,
        up_votes: 1,
        down_votes: 0,
        account_id: None,
    };
    let bound = bind_stmt(&user.fields());
    assert_eq!(bound.len(), 15);
    assert_eq!(bound[9], "30");
    assert_eq!(bound[11], "4000000000");
}
