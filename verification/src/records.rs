//! The records of a source: one type for each kind, with its fields in the
//! order in which they are stored.
//!
//! A record gives its fields as a list of names and values. The order of
//! that list is the order of the table's columns and of the values bound
//! to an insert. A field that holds an enumeration is stored as the
//! variant's number.

use crate::decimal::{parse_i64, parse_i64_spec};
use crate::error::Error;
use crate::kinds::{BadgeClass, LinkType, PostType, VoteType};
use crate::sql_utils::{record_view, Field, FieldValue, FieldValueView, FieldView};
use crate::text::concat_str;
use vstd::prelude::*;

verus! {

/// A date and a time of day without a time zone, as the text by which it is
/// stored: `2009-03-05T22:28:34.823`.
#[derive(Debug, Clone, PartialEq, Eq)]
pub struct Timestamp {
    text: String,
}

impl View for Timestamp {
    type V = Seq<char>;

    closed spec fn view(&self) -> Seq<char> {
        self.text@
    }
}

impl Timestamp {
    /// The timestamp that is stored as `text`.
    pub fn new(text: String) -> (t: Timestamp)
        ensures
            t@ == text@,
    {
        Timestamp { text }
    }

    /// The text by which this timestamp is stored.
    pub fn text(&self) -> (s: String)
        ensures
            s@ == self@,
    {
        self.text.clone()
    }
}

/// The form in which the source writes a date and a time.
pub open spec fn timestamp_format() -> Seq<char> {
    "%Y-%m-%dT%H:%M:%S.%f"@
}

/// What the text `text` means as a date and a time written in the form
/// `format`, given as the text by which that date and time is stored; `None`
/// where `text` is not of that form or names no date and time.
pub uninterp spec fn naive_datetime_text(text: Seq<char>, format: Seq<char>) -> Option<Seq<char>>;

/// Calls `NaiveDateTime::parse_from_str` of the crate chrono, as serde_with
/// hands it on, on `s` and `format`, and writes what was read with chrono's
/// `Debug` for `NaiveDateTime`, which is also the text that chrono
/// serializes. The contract gives that text the name `naive_datetime_text`
/// and claims nothing else of it.
#[verifier::external_body]
fn parse_naive_datetime(s: &str, format: &str) -> (r: Option<String>)
    ensures
        match r {
            Some(t) => naive_datetime_text(s@, format@) == Some(t@),
            None => naive_datetime_text(s@, format@) is None,
        },
{
    match serde_with::chrono::NaiveDateTime::parse_from_str(s, format) {
        Ok(t) => Some(format!("{:?}", t)),
        Err(_) => None,
    }
}

/// The words of the error for a text that is no date and time.
pub open spec fn invalid_timestamp_text(s: Seq<char>) -> Seq<char> {
    "invalid value: string \""@ + s + "\", expected a string represents chrono::NaiveDateTime"@
}

/// What reading a date and a time from `s` gives, where `parsed` is what the
/// text means.
pub open spec fn timestamp_result(parsed: Option<Seq<char>>, s: Seq<char>) -> Result<
    Option<Seq<char>>,
    Seq<char>,
> {
    match parsed {
        Some(t) => Ok(Some(t)),
        None => Err(invalid_timestamp_text(s)),
    }
}

/// The timestamp read from `s`, where `parsed` is the stored text that `s`
/// means, if it means any: the timestamp with that text, or an error that
/// quotes `s`.
pub fn timestamp_from_parsed(parsed: Option<String>, s: &str) -> (r: Result<
    Option<Timestamp>,
    Error,
>)
    ensures
        match parsed {
            Some(text) => r matches Ok(Some(t)) && t@ == text@,
            None => r matches Err(Error::Message(m)) && m@ == invalid_timestamp_text(s@),
        },
{
    match parsed {
        Some(text) => Ok(Some(Timestamp::new(text))),
        None => {
            let mut m = concat_str("invalid value: string \"", s);
            m.append("\", expected a string represents chrono::NaiveDateTime");
            Err(Error::Message(m))
        },
    }
}

/// Reads a date and a time written as `2009-03-05T22:28:34.823`, without a
/// time zone.
pub fn from_rfc3339_without_timezone(s: &str) -> (r: Result<Option<Timestamp>, Error>)
    ensures
        match naive_datetime_text(s@, timestamp_format()) {
            Some(text) => r matches Ok(Some(t)) && t@ == text,
            None => r matches Err(Error::Message(m)) && m@ == invalid_timestamp_text(s@),
        },
{
    let parsed = parse_naive_datetime(s, "%Y-%m-%dT%H:%M:%S.%f");
    timestamp_from_parsed(parsed, s)
}

/// Reads a whole number written in decimal: an identifier of the source.
pub fn from_string(s: &str) -> (r: Result<i64, Error>)
    ensures
        match parse_i64_spec(s@) {
            Some(v) => r == Ok::<i64, Error>(v),
            None => r == Err::<i64, Error>(Error::ExpectedInteger),
        },
{
    match parse_i64(s) {
        Some(v) => Ok(v),
        None => Err(Error::ExpectedInteger),
    }
}

/// Reads a whole number written in decimal where there is a text; no text
/// gives no number.
pub fn from_string_optional(s: Option<&str>) -> (r: Result<Option<i64>, Error>)
    ensures
        match s {
            None => r == Ok::<Option<i64>, Error>(None),
            Some(text) => match parse_i64_spec(text@) {
                Some(v) => r == Ok::<Option<i64>, Error>(Some(v)),
                None => r == Err::<Option<i64>, Error>(Error::ExpectedInteger),
            },
        },
{
    match s {
        None => Ok(None),
        Some(text) => match parse_i64(text) {
            Some(v) => Ok(Some(v)),
            None => Err(Error::ExpectedInteger),
        },
    }
}

/// The value of a whole number that may be absent.
pub open spec fn opt_int_value(o: Option<i64>) -> FieldValueView {
    match o {
        Some(v) => FieldValueView::Int(v),
        None => FieldValueView::Absent,
    }
}

/// The value of a small whole number that may be absent.
pub open spec fn opt_small_value(o: Option<u8>) -> FieldValueView {
    match o {
        Some(v) => FieldValueView::UInt(v as u64),
        None => FieldValueView::Absent,
    }
}

/// The value of a text that may be absent.
pub open spec fn opt_str_value(o: Option<String>) -> FieldValueView {
    match o {
        Some(s) => FieldValueView::Str(s@),
        None => FieldValueView::Absent,
    }
}

/// The value of a timestamp that may be absent.
pub open spec fn opt_timestamp_value(o: Option<Timestamp>) -> FieldValueView {
    match o {
        Some(t) => FieldValueView::Str(t@),
        None => FieldValueView::Absent,
    }
}

/// The value of a whole number that may be absent.
pub fn opt_int(o: &Option<i64>) -> (r: FieldValue)
    ensures
        r@ == opt_int_value(*o),
{
    match o {
        Some(v) => FieldValue::Int(*v),
        None => FieldValue::Absent,
    }
}

/// The value of a small whole number that may be absent.
pub fn opt_small(o: &Option<u8>) -> (r: FieldValue)
    ensures
        r@ == opt_small_value(*o),
{
    match o {
        Some(v) => FieldValue::UInt(*v as u64),
        None => FieldValue::Absent,
    }
}

/// The value of a text that may be absent.
pub fn opt_str(o: &Option<String>) -> (r: FieldValue)
    ensures
        r@ == opt_str_value(*o),
{
    match o {
        Some(s) => FieldValue::Str(s.clone()),
        None => FieldValue::Absent,
    }
}

/// The value of a timestamp that may be absent.
pub fn opt_timestamp(o: &Option<Timestamp>) -> (r: FieldValue)
    ensures
        r@ == opt_timestamp_value(*o),
{
    match o {
        Some(t) => FieldValue::Str(t.text()),
        None => FieldValue::Absent,
    }
}

/// A badge given to a user.
#[derive(Debug, Clone, PartialEq, Eq)]
pub struct Badge {
    pub id: i64,
    pub user_id: i64,
    pub name: String,
    pub date: Timestamp,
    pub class: BadgeClass,
    pub tag_based: bool,
}

/// The records of one file, in the order of the file.
#[derive(Debug, Clone, PartialEq, Eq)]
pub struct Badges {
    pub row: Vec<Badge>,
}

impl Badge {
    /// The fields of this record, in declaration order: each with the name
    /// of its attribute and its value.
    pub open spec fn spec_fields(self) -> Seq<FieldView> {
        seq![
            FieldView { name: "@Id"@, value: FieldValueView::Int(self.id) },
            FieldView { name: "@UserId"@, value: FieldValueView::Int(self.user_id) },
            FieldView { name: "@Name"@, value: FieldValueView::Str(self.name@) },
            FieldView { name: "@Date"@, value: FieldValueView::Str(self.date@) },
            FieldView { name: "@Class"@, value: FieldValueView::UInt(self.class.spec_repr() as u64) },
            FieldView { name: "@TagBased"@, value: FieldValueView::Bool(self.tag_based) },
        ]
    }

    /// The fields of this record, in declaration order.
    pub fn fields(&self) -> (r: Vec<Field>)
        ensures
            record_view(r@) == self.spec_fields(),
    {
        let mut r: Vec<Field> = Vec::new();
        r.push(Field { name: "@Id".to_owned(), value: FieldValue::Int(self.id) });
        r.push(Field { name: "@UserId".to_owned(), value: FieldValue::Int(self.user_id) });
        r.push(Field { name: "@Name".to_owned(), value: FieldValue::Str(self.name.clone()) });
        r.push(Field { name: "@Date".to_owned(), value: FieldValue::Str(self.date.text()) });
        r.push(Field { name: "@Class".to_owned(), value: FieldValue::UInt(self.class.repr() as u64) });
        r.push(Field { name: "@TagBased".to_owned(), value: FieldValue::Bool(self.tag_based) });
        assert(record_view(r@) =~= self.spec_fields());
        r
    }
}

/// A comment on a post.
#[derive(Debug, Clone, PartialEq, Eq)]
pub struct Comment {
    pub id: i64,
    pub post_id: i64,
    pub score: i64,
    pub text: String,
    pub creation_date: Timestamp,
    pub user_display_name: Option<String>,
    pub user_id: Option<i64>,
}

/// The records of one file, in the order of the file.
#[derive(Debug, Clone, PartialEq, Eq)]
pub struct Comments {
    pub row: Vec<Comment>,
}

impl Comment {
    /// The fields of this record, in declaration order: each with the name
    /// of its attribute and its value.
    pub open spec fn spec_fields(self) -> Seq<FieldView> {
        seq![
            FieldView { name: "@Id"@, value: FieldValueView::Int(self.id) },
            FieldView { name: "@PostId"@, value: FieldValueView::Int(self.post_id) },
            FieldView { name: "@Score"@, value: FieldValueView::Int(self.score) },
            FieldView { name: "@Text"@, value: FieldValueView::Str(self.text@) },
            FieldView { name: "@CreationDate"@, value: FieldValueView::Str(self.creation_date@) },
            FieldView { name: "@UserDisplayName"@, value: opt_str_value(self.user_display_name) },
            FieldView { name: "@UserId"@, value: opt_int_value(self.user_id) },
        ]
    }

    /// The fields of this record, in declaration order.
    pub fn fields(&self) -> (r: Vec<Field>)
        ensures
            record_view(r@) == self.spec_fields(),
    {
        let mut r: Vec<Field> = Vec::new();
        r.push(Field { name: "@Id".to_owned(), value: FieldValue::Int(self.id) });
        r.push(Field { name: "@PostId".to_owned(), value: FieldValue::Int(self.post_id) });
        r.push(Field { name: "@Score".to_owned(), value: FieldValue::Int(self.score) });
        r.push(Field { name: "@Text".to_owned(), value: FieldValue::Str(self.text.clone()) });
        r.push(Field { name: "@CreationDate".to_owned(), value: FieldValue::Str(self.creation_date.text()) });
        r.push(Field { name: "@UserDisplayName".to_owned(), value: opt_str(&self.user_display_name) });
        r.push(Field { name: "@UserId".to_owned(), value: opt_int(&self.user_id) });
        assert(record_view(r@) =~= self.spec_fields());
        r
    }
}

/// An entry of a post's history.
#[derive(Debug, Clone, PartialEq, Eq)]
pub struct PostHistory {
    pub id: i64,
    pub post_history_type_id: i16,
    pub post_id: i64,
    pub revision_guid: String,
    pub creation_date: Timestamp,
    pub user_id: Option<i64>,
    pub user_display_name: Option<String>,
    pub comment: Option<String>,
    pub text: Option<String>,
}

/// The records of one file, in the order of the file.
#[derive(Debug, Clone, PartialEq, Eq)]
pub struct PostHistories {
    pub row: Vec<PostHistory>,
}

impl PostHistory {
    /// The fields of this record, in declaration order: each with the name
    /// of its attribute and its value.
    pub open spec fn spec_fields(self) -> Seq<FieldView> {
        seq![
            FieldView { name: "@Id"@, value: FieldValueView::Int(self.id) },
            FieldView { name: "@PostHistoryTypeId"@, value: FieldValueView::Int(self.post_history_type_id as i64) },
            FieldView { name: "@PostId"@, value: FieldValueView::Int(self.post_id) },
            FieldView { name: "@RevisionGUID"@, value: FieldValueView::Str(self.revision_guid@) },
            FieldView { name: "@CreationDate"@, value: FieldValueView::Str(self.creation_date@) },
            FieldView { name: "@UserId"@, value: opt_int_value(self.user_id) },
            FieldView { name: "@UserDisplayName"@, value: opt_str_value(self.user_display_name) },
            FieldView { name: "@Comment"@, value: opt_str_value(self.comment) },
            FieldView { name: "@Text"@, value: opt_str_value(self.text) },
        ]
    }

    /// The fields of this record, in declaration order.
    pub fn fields(&self) -> (r: Vec<Field>)
        ensures
            record_view(r@) == self.spec_fields(),
    {
        let mut r: Vec<Field> = Vec::new();
        r.push(Field { name: "@Id".to_owned(), value: FieldValue::Int(self.id) });
        r.push(Field { name: "@PostHistoryTypeId".to_owned(), value: FieldValue::Int(self.post_history_type_id as i64) });
        r.push(Field { name: "@PostId".to_owned(), value: FieldValue::Int(self.post_id) });
        r.push(Field { name: "@RevisionGUID".to_owned(), value: FieldValue::Str(self.revision_guid.clone()) });
        r.push(Field { name: "@CreationDate".to_owned(), value: FieldValue::Str(self.creation_date.text()) });
        r.push(Field { name: "@UserId".to_owned(), value: opt_int(&self.user_id) });
        r.push(Field { name: "@UserDisplayName".to_owned(), value: opt_str(&self.user_display_name) });
        r.push(Field { name: "@Comment".to_owned(), value: opt_str(&self.comment) });
        r.push(Field { name: "@Text".to_owned(), value: opt_str(&self.text) });
        assert(record_view(r@) =~= self.spec_fields());
        r
    }
}

/// A link from one post to another.
#[derive(Debug, Clone, PartialEq, Eq)]
pub struct PostLink {
    pub id: i64,
    pub creation_date: Timestamp,
    pub post_id: i64,
    pub related_post_id: i64,
    pub link_type_id: LinkType,
}

/// The records of one file, in the order of the file.
#[derive(Debug, Clone, PartialEq, Eq)]
pub struct PostLinks {
    pub row: Vec<PostLink>,
}

impl PostLink {
    /// The fields of this record, in declaration order: each with the name
    /// of its attribute and its value.
    pub open spec fn spec_fields(self) -> Seq<FieldView> {
        seq![
            FieldView { name: "@Id"@, value: FieldValueView::Int(self.id) },
            FieldView { name: "@CreationDate"@, value: FieldValueView::Str(self.creation_date@) },
            FieldView { name: "@PostId"@, value: FieldValueView::Int(self.post_id) },
            FieldView { name: "@RelatedPostId"@, value: FieldValueView::Int(self.related_post_id) },
            FieldView { name: "@LinkTypeId"@, value: FieldValueView::UInt(self.link_type_id.spec_repr() as u64) },
        ]
    }

    /// The fields of this record, in declaration order.
    pub fn fields(&self) -> (r: Vec<Field>)
        ensures
            record_view(r@) == self.spec_fields(),
    {
        let mut r: Vec<Field> = Vec::new();
        r.push(Field { name: "@Id".to_owned(), value: FieldValue::Int(self.id) });
        r.push(Field { name: "@CreationDate".to_owned(), value: FieldValue::Str(self.creation_date.text()) });
        r.push(Field { name: "@PostId".to_owned(), value: FieldValue::Int(self.post_id) });
        r.push(Field { name: "@RelatedPostId".to_owned(), value: FieldValue::Int(self.related_post_id) });
        r.push(Field { name: "@LinkTypeId".to_owned(), value: FieldValue::UInt(self.link_type_id.repr() as u64) });
        assert(record_view(r@) =~= self.spec_fields());
        r
    }
}

/// A post: a question, an answer or a page.
#[derive(Debug, Clone, PartialEq, Eq)]
pub struct Post {
    pub id: i64,
    pub post_type_id: PostType,
    pub parent_id: Option<i64>,
    pub accepted_answer_id: Option<i64>,
    pub creation_date: Timestamp,
    pub deletion_date: Option<Timestamp>,
    pub score: i64,
    pub view_count: Option<i64>,
    pub body: String,
    pub owner_user_id: Option<i64>,
    pub owner_display_name: Option<String>,
    pub last_editor_user_id: Option<i64>,
    pub last_editor_display_name: Option<String>,
    pub last_edit_date: Option<Timestamp>,
    pub last_activity_date: Timestamp,
    pub title: Option<String>,
    pub tags: Option<String>,
    pub answer_count: Option<i64>,
    pub comment_count: i64,
    pub favorite_count: Option<i64>,
    pub closed_date: Option<Timestamp>,
    pub community_owned_date: Option<Timestamp>,
}

/// The records of one file, in the order of the file.
#[derive(Debug, Clone, PartialEq, Eq)]
pub struct Posts {
    pub row: Vec<Post>,
}

impl Post {
    /// The fields of this record, in declaration order: each with the name
    /// of its attribute and its value.
    pub open spec fn spec_fields(self) -> Seq<FieldView> {
        seq![
            FieldView { name: "@Id"@, value: FieldValueView::Int(self.id) },
            FieldView { name: "@PostTypeId"@, value: FieldValueView::UInt(self.post_type_id.spec_repr() as u64) },
            FieldView { name: "@ParentId"@, value: opt_int_value(self.parent_id) },
            FieldView { name: "@AcceptedAnswerId"@, value: opt_int_value(self.accepted_answer_id) },
            FieldView { name: "@CreationDate"@, value: FieldValueView::Str(self.creation_date@) },
            FieldView { name: "@DeletionDate"@, value: opt_timestamp_value(self.deletion_date) },
            FieldView { name: "@Score"@, value: FieldValueView::Int(self.score) },
            FieldView { name: "@ViewCount"@, value: opt_int_value(self.view_count) },
            FieldView { name: "@Body"@, value: FieldValueView::Str(self.body@) },
            FieldView { name: "@OwnerUserId"@, value: opt_int_value(self.owner_user_id) },
            FieldView { name: "@OwnerDisplayName"@, value: opt_str_value(self.owner_display_name) },
            FieldView { name: "@LastEditorUserId"@, value: opt_int_value(self.last_editor_user_id) },
            FieldView { name: "@LastEditorDisplayName"@, value: opt_str_value(self.last_editor_display_name) },
            FieldView { name: "@LastEditDate"@, value: opt_timestamp_value(self.last_edit_date) },
            FieldView { name: "@LastActivityDate"@, value: FieldValueView::Str(self.last_activity_date@) },
            FieldView { name: "@Title"@, value: opt_str_value(self.title) },
            FieldView { name: "@Tags"@, value: opt_str_value(self.tags) },
            FieldView { name: "@AnswerCount"@, value: opt_int_value(self.answer_count) },
            FieldView { name: "@CommentCount"@, value: FieldValueView::Int(self.comment_count) },
            FieldView { name: "@FavoriteCount"@, value: opt_int_value(self.favorite_count) },
            FieldView { name: "@ClosedDate"@, value: opt_timestamp_value(self.closed_date) },
            FieldView { name: "@CommunityOwnedDate"@, value: opt_timestamp_value(self.community_owned_date) },
        ]
    }

    /// The fields of this record, in declaration order.
    pub fn fields(&self) -> (r: Vec<Field>)
        ensures
            record_view(r@) == self.spec_fields(),
    {
        let mut r: Vec<Field> = Vec::new();
        r.push(Field { name: "@Id".to_owned(), value: FieldValue::Int(self.id) });
        r.push(Field { name: "@PostTypeId".to_owned(), value: FieldValue::UInt(self.post_type_id.repr() as u64) });
        r.push(Field { name: "@ParentId".to_owned(), value: opt_int(&self.parent_id) });
        r.push(Field { name: "@AcceptedAnswerId".to_owned(), value: opt_int(&self.accepted_answer_id) });
        r.push(Field { name: "@CreationDate".to_owned(), value: FieldValue::Str(self.creation_date.text()) });
        r.push(Field { name: "@DeletionDate".to_owned(), value: opt_timestamp(&self.deletion_date) });
        r.push(Field { name: "@Score".to_owned(), value: FieldValue::Int(self.score) });
        r.push(Field { name: "@ViewCount".to_owned(), value: opt_int(&self.view_count) });
        r.push(Field { name: "@Body".to_owned(), value: FieldValue::Str(self.body.clone()) });
        r.push(Field { name: "@OwnerUserId".to_owned(), value: opt_int(&self.owner_user_id) });
        r.push(Field { name: "@OwnerDisplayName".to_owned(), value: opt_str(&self.owner_display_name) });
        r.push(Field { name: "@LastEditorUserId".to_owned(), value: opt_int(&self.last_editor_user_id) });
        r.push(Field { name: "@LastEditorDisplayName".to_owned(), value: opt_str(&self.last_editor_display_name) });
        r.push(Field { name: "@LastEditDate".to_owned(), value: opt_timestamp(&self.last_edit_date) });
        r.push(Field { name: "@LastActivityDate".to_owned(), value: FieldValue::Str(self.last_activity_date.text()) });
        r.push(Field { name: "@Title".to_owned(), value: opt_str(&self.title) });
        r.push(Field { name: "@Tags".to_owned(), value: opt_str(&self.tags) });
        r.push(Field { name: "@AnswerCount".to_owned(), value: opt_int(&self.answer_count) });
        r.push(Field { name: "@CommentCount".to_owned(), value: FieldValue::Int(self.comment_count) });
        r.push(Field { name: "@FavoriteCount".to_owned(), value: opt_int(&self.favorite_count) });
        r.push(Field { name: "@ClosedDate".to_owned(), value: opt_timestamp(&self.closed_date) });
        r.push(Field { name: "@CommunityOwnedDate".to_owned(), value: opt_timestamp(&self.community_owned_date) });
        assert(record_view(r@) =~= self.spec_fields());
        r
    }
}

/// A tag.
#[derive(Debug, Clone, PartialEq, Eq)]
pub struct Tag {
    pub id: i64,
    pub tag_name: String,
    pub count: i64,
    pub excerpt_post_id: Option<i64>,
    pub wiki_post_id: Option<i64>,
}

/// The records of one file, in the order of the file.
#[derive(Debug, Clone, PartialEq, Eq)]
pub struct Tags {
    pub row: Vec<Tag>,
}

impl Tag {
    /// The fields of this record, in declaration order: each with the name
    /// of its attribute and its value.
    pub open spec fn spec_fields(self) -> Seq<FieldView> {
        seq![
            FieldView { name: "@Id"@, value: FieldValueView::Int(self.id) },
            FieldView { name: "@TagName"@, value: FieldValueView::Str(self.tag_name@) },
            FieldView { name: "@Count"@, value: FieldValueView::Int(self.count) },
            FieldView { name: "@ExcerptPostId"@, value: opt_int_value(self.excerpt_post_id) },
            FieldView { name: "@WikiPostId"@, value: opt_int_value(self.wiki_post_id) },
        ]
    }

    /// The fields of this record, in declaration order.
    pub fn fields(&self) -> (r: Vec<Field>)
        ensures
            record_view(r@) == self.spec_fields(),
    {
        let mut r: Vec<Field> = Vec::new();
        r.push(Field { name: "@Id".to_owned(), value: FieldValue::Int(self.id) });
        r.push(Field { name: "@TagName".to_owned(), value: FieldValue::Str(self.tag_name.clone()) });
        r.push(Field { name: "@Count".to_owned(), value: FieldValue::Int(self.count) });
        r.push(Field { name: "@ExcerptPostId".to_owned(), value: opt_int(&self.excerpt_post_id) });
        r.push(Field { name: "@WikiPostId".to_owned(), value: opt_int(&self.wiki_post_id) });
        assert(record_view(r@) =~= self.spec_fields());
        r
    }
}

/// A user.
#[derive(Debug, Clone, PartialEq, Eq)]
pub struct User {
    pub id: i64,
    pub reputation: i64,
    pub creation_date: Timestamp,
    pub display_name: String,
    pub email_hash: Option<String>,
    pub profile_image_url: Option<String>,
    pub last_access_date: Timestamp,
    pub website_url: Option<String>,
    pub location: Option<String>,
    pub age: Option<u8>,
    pub about_me: Option<String>,
    pub views: u32,
    pub up_votes: u32,
    pub down_votes: u32,
    pub account_id: Option<i64>,
}

/// The records of one file, in the order of the file.
#[derive(Debug, Clone, PartialEq, Eq)]
pub struct Users {
    pub row: Vec<User>,
}

impl User {
    /// The fields of this record, in declaration order: each with the name
    /// of its attribute and its value.
    pub open spec fn spec_fields(self) -> Seq<FieldView> {
        seq![
            FieldView { name: "@Id"@, value: FieldValueView::Int(self.id) },
            FieldView { name: "@Reputation"@, value: FieldValueView::Int(self.reputation) },
            FieldView { name: "@CreationDate"@, value: FieldValueView::Str(self.creation_date@) },
            FieldView { name: "@DisplayName"@, value: FieldValueView::Str(self.display_name@) },
            FieldView { name: "@EmailHash"@, value: opt_str_value(self.email_hash) },
            FieldView { name: "@ProfileImageUrl"@, value: opt_str_value(self.profile_image_url) },
            FieldView { name: "@LastAccessDate"@, value: FieldValueView::Str(self.last_access_date@) },
            FieldView { name: "@WebsiteUrl"@, value: opt_str_value(self.website_url) },
            FieldView { name: "@Location"@, value: opt_str_value(self.location) },
            FieldView { name: "@Age"@, value: opt_small_value(self.age) },
            FieldView { name: "@AboutMe"@, value: opt_str_value(self.about_me) },
            FieldView { name: "@Views"@, value: FieldValueView::UInt(self.views as u64) },
            FieldView { name: "@UpVotes"@, value: FieldValueView::UInt(self.up_votes as u64) },
            FieldView { name: "@DownVotes"@, value: FieldValueView::UInt(self.down_votes as u64) },
            FieldView { name: "@AccountId"@, value: opt_int_value(self.account_id) },
        ]
    }

    /// The fields of this record, in declaration order.
    pub fn fields(&self) -> (r: Vec<Field>)
        ensures
            record_view(r@) == self.spec_fields(),
    {
        let mut r: Vec<Field> = Vec::new();
        r.push(Field { name: "@Id".to_owned(), value: FieldValue::Int(self.id) });
        r.push(Field { name: "@Reputation".to_owned(), value: FieldValue::Int(self.reputation) });
        r.push(Field { name: "@CreationDate".to_owned(), value: FieldValue::Str(self.creation_date.text()) });
        r.push(Field { name: "@DisplayName".to_owned(), value: FieldValue::Str(self.display_name.clone()) });
        r.push(Field { name: "@EmailHash".to_owned(), value: opt_str(&self.email_hash) });
        r.push(Field { name: "@ProfileImageUrl".to_owned(), value: opt_str(&self.profile_image_url) });
        r.push(Field { name: "@LastAccessDate".to_owned(), value: FieldValue::Str(self.last_access_date.text()) });
        r.push(Field { name: "@WebsiteUrl".to_owned(), value: opt_str(&self.website_url) });
        r.push(Field { name: "@Location".to_owned(), value: opt_str(&self.location) });
        r.push(Field { name: "@Age".to_owned(), value: opt_small(&self.age) });
        r.push(Field { name: "@AboutMe".to_owned(), value: opt_str(&self.about_me) });
        r.push(Field { name: "@Views".to_owned(), value: FieldValue::UInt(self.views as u64) });
        r.push(Field { name: "@UpVotes".to_owned(), value: FieldValue::UInt(self.up_votes as u64) });
        r.push(Field { name: "@DownVotes".to_owned(), value: FieldValue::UInt(self.down_votes as u64) });
        r.push(Field { name: "@AccountId".to_owned(), value: opt_int(&self.account_id) });
        assert(record_view(r@) =~= self.spec_fields());
        r
    }
}

/// A vote on a post.
#[derive(Debug, Clone, PartialEq, Eq)]
pub struct Vote {
    pub id: String,
    pub post_id: i64,
    pub vote_type_id: VoteType,
    pub creation_date: Timestamp,
    pub user_id: Option<i64>,
    pub bounty_amount: Option<String>,
}

/// The records of one file, in the order of the file.
#[derive(Debug, Clone, PartialEq, Eq)]
pub struct Votes {
    pub row: Vec<Vote>,
}

impl Vote {
    /// The fields of this record, in declaration order: each with the name
    /// of its attribute and its value.
    pub open spec fn spec_fields(self) -> Seq<FieldView> {
        seq![
            FieldView { name: "@Id"@, value: FieldValueView::Str(self.id@) },
            FieldView { name: "@PostId"@, value: FieldValueView::Int(self.post_id) },
            FieldView { name: "@VoteTypeId"@, value: FieldValueView::UInt(self.vote_type_id.spec_repr() as u64) },
            FieldView { name: "@CreationDate"@, value: FieldValueView::Str(self.creation_date@) },
            FieldView { name: "@UserId"@, value: opt_int_value(self.user_id) },
            FieldView { name: "@BountyAmount"@, value: opt_str_value(self.bounty_amount) },
        ]
    }

    /// The fields of this record, in declaration order.
    pub fn fields(&self) -> (r: Vec<Field>)
        ensures
            record_view(r@) == self.spec_fields(),
    {
        let mut r: Vec<Field> = Vec::new();
        r.push(Field { name: "@Id".to_owned(), value: FieldValue::Str(self.id.clone()) });
        r.push(Field { name: "@PostId".to_owned(), value: FieldValue::Int(self.post_id) });
        r.push(Field { name: "@VoteTypeId".to_owned(), value: FieldValue::UInt(self.vote_type_id.repr() as u64) });
        r.push(Field { name: "@CreationDate".to_owned(), value: FieldValue::Str(self.creation_date.text()) });
        r.push(Field { name: "@UserId".to_owned(), value: opt_int(&self.user_id) });
        r.push(Field { name: "@BountyAmount".to_owned(), value: opt_str(&self.bounty_amount) });
        assert(record_view(r@) =~= self.spec_fields());
        r
    }
}

} // verus!
