//! The enumerations of the records of a source. Each variant has a number,
//! by which the source writes it and by which it is stored, and a name.

use vstd::prelude::*;

verus! {

/// The class of a badge.
#[derive(Debug, Clone, Copy, PartialEq, Eq, Structural)]
pub enum BadgeClass {
    Gold,
    Silver,
    Bronze,
}

impl BadgeClass {
    /// The number of this variant.
    pub open spec fn spec_repr(self) -> u8 {
        match self {
            BadgeClass::Gold => 1,
            BadgeClass::Silver => 2,
            BadgeClass::Bronze => 3,
        }
    }

    /// The name of this variant.
    pub open spec fn spec_name(self) -> Seq<char> {
        match self {
            BadgeClass::Gold => "Gold"@,
            BadgeClass::Silver => "Silver"@,
            BadgeClass::Bronze => "Bronze"@,
        }
    }

    /// The number of this variant.
    pub fn repr(&self) -> (n: u8)
        ensures
            n == self.spec_repr(),
    {
        match self {
            BadgeClass::Gold => 1,
            BadgeClass::Silver => 2,
            BadgeClass::Bronze => 3,
        }
    }

    /// The name of this variant.
    pub fn name(&self) -> (s: String)
        ensures
            s@ == self.spec_name(),
    {
        match self {
            BadgeClass::Gold => "Gold".to_owned(),
            BadgeClass::Silver => "Silver".to_owned(),
            BadgeClass::Bronze => "Bronze".to_owned(),
        }
    }

    /// The variant with the number `n`, if there is one.
    pub fn from_repr(n: u8) -> (r: Option<BadgeClass>)
        ensures
            match r {
                Some(v) => v.spec_repr() == n,
                None => forall|v: BadgeClass| v.spec_repr() != n,
            },
    {
        match n {
            1 => Some(BadgeClass::Gold),
            2 => Some(BadgeClass::Silver),
            3 => Some(BadgeClass::Bronze),
            _ => None,
        }
    }
}

/// Each variant of `BadgeClass` is found again from its number, and no two
/// variants share a number.
pub proof fn lemma_badgeclass_repr(a: BadgeClass, b: BadgeClass)
    ensures
        a.spec_repr() == b.spec_repr() ==> a == b,
        a.spec_repr() >= 1,
{
}

/// What an entry of a post's history records.
#[derive(Debug, Clone, Copy, PartialEq, Eq, Structural)]
pub enum PostHistoryType {
    InitialTitle,
    InitialBody,
    InitialTags,
    EditTitle,
    EditBody,
    EditTags,
    RollbackTitle,
    RollbackBody,
    RollbackTags,
    PostClosed,
    PostReopened,
    PostDeleted,
    PostUndeleted,
    PostLocked,
    PostUnlocked,
    CommunityOwned,
    PostMigrated,
    QuestionMerged,
    QuestionProtected,
    QuestionUnprotected,
    PostDisassociated,
    QuestionUnmerged,
    SuggestedEditApplied,
    PostTweeted,
    MovedToChat,
    PostNoticeAdded,
    PostNoticeRemoved,
    PostMigratedAway,
    PostMigratedHere,
    PostMergeSource,
    PostMergeDestination,
}

impl PostHistoryType {
    /// The number of this variant.
    pub open spec fn spec_repr(self) -> u8 {
        match self {
            PostHistoryType::InitialTitle => 1,
            PostHistoryType::InitialBody => 2,
            PostHistoryType::InitialTags => 3,
            PostHistoryType::EditTitle => 4,
            PostHistoryType::EditBody => 5,
            PostHistoryType::EditTags => 6,
            PostHistoryType::RollbackTitle => 7,
            PostHistoryType::RollbackBody => 8,
            PostHistoryType::RollbackTags => 9,
            PostHistoryType::PostClosed => 10,
            PostHistoryType::PostReopened => 11,
            PostHistoryType::PostDeleted => 12,
            PostHistoryType::PostUndeleted => 13,
            PostHistoryType::PostLocked => 14,
            PostHistoryType::PostUnlocked => 15,
            PostHistoryType::CommunityOwned => 16,
            PostHistoryType::PostMigrated => 17,
            PostHistoryType::QuestionMerged => 18,
            PostHistoryType::QuestionProtected => 19,
            PostHistoryType::QuestionUnprotected => 20,
            PostHistoryType::PostDisassociated => 21,
            PostHistoryType::QuestionUnmerged => 22,
            PostHistoryType::SuggestedEditApplied => 24,
            PostHistoryType::PostTweeted => 25,
            PostHistoryType::MovedToChat => 31,
            PostHistoryType::PostNoticeAdded => 33,
            PostHistoryType::PostNoticeRemoved => 34,
            PostHistoryType::PostMigratedAway => 35,
            PostHistoryType::PostMigratedHere => 36,
            PostHistoryType::PostMergeSource => 37,
            PostHistoryType::PostMergeDestination => 38,
        }
    }

    /// The name of this variant.
    pub open spec fn spec_name(self) -> Seq<char> {
        match self {
            PostHistoryType::InitialTitle => "InitialTitle"@,
            PostHistoryType::InitialBody => "InitialBody"@,
            PostHistoryType::InitialTags => "InitialTags"@,
            PostHistoryType::EditTitle => "EditTitle"@,
            PostHistoryType::EditBody => "EditBody"@,
            PostHistoryType::EditTags => "EditTags"@,
            PostHistoryType::RollbackTitle => "RollbackTitle"@,
            PostHistoryType::RollbackBody => "RollbackBody"@,
            PostHistoryType::RollbackTags => "RollbackTags"@,
            PostHistoryType::PostClosed => "PostClosed"@,
            PostHistoryType::PostReopened => "PostReopened"@,
            PostHistoryType::PostDeleted => "PostDeleted"@,
            PostHistoryType::PostUndeleted => "PostUndeleted"@,
            PostHistoryType::PostLocked => "PostLocked"@,
            PostHistoryType::PostUnlocked => "PostUnlocked"@,
            PostHistoryType::CommunityOwned => "CommunityOwned"@,
            PostHistoryType::PostMigrated => "PostMigrated"@,
            PostHistoryType::QuestionMerged => "QuestionMerged"@,
            PostHistoryType::QuestionProtected => "QuestionProtected"@,
            PostHistoryType::QuestionUnprotected => "QuestionUnprotected"@,
            PostHistoryType::PostDisassociated => "PostDisassociated"@,
            PostHistoryType::QuestionUnmerged => "QuestionUnmerged"@,
            PostHistoryType::SuggestedEditApplied => "SuggestedEditApplied"@,
            PostHistoryType::PostTweeted => "PostTweeted"@,
            PostHistoryType::MovedToChat => "MovedToChat"@,
            PostHistoryType::PostNoticeAdded => "PostNoticeAdded"@,
            PostHistoryType::PostNoticeRemoved => "PostNoticeRemoved"@,
            PostHistoryType::PostMigratedAway => "PostMigratedAway"@,
            PostHistoryType::PostMigratedHere => "PostMigratedHere"@,
            PostHistoryType::PostMergeSource => "PostMergeSource"@,
            PostHistoryType::PostMergeDestination => "PostMergeDestination"@,
        }
    }

    /// The number of this variant.
    pub fn repr(&self) -> (n: u8)
        ensures
            n == self.spec_repr(),
    {
        match self {
            PostHistoryType::InitialTitle => 1,
            PostHistoryType::InitialBody => 2,
            PostHistoryType::InitialTags => 3,
            PostHistoryType::EditTitle => 4,
            PostHistoryType::EditBody => 5,
            PostHistoryType::EditTags => 6,
            PostHistoryType::RollbackTitle => 7,
            PostHistoryType::RollbackBody => 8,
            PostHistoryType::RollbackTags => 9,
            PostHistoryType::PostClosed => 10,
            PostHistoryType::PostReopened => 11,
            PostHistoryType::PostDeleted => 12,
            PostHistoryType::PostUndeleted => 13,
            PostHistoryType::PostLocked => 14,
            PostHistoryType::PostUnlocked => 15,
            PostHistoryType::CommunityOwned => 16,
            PostHistoryType::PostMigrated => 17,
            PostHistoryType::QuestionMerged => 18,
            PostHistoryType::QuestionProtected => 19,
            PostHistoryType::QuestionUnprotected => 20,
            PostHistoryType::PostDisassociated => 21,
            PostHistoryType::QuestionUnmerged => 22,
            PostHistoryType::SuggestedEditApplied => 24,
            PostHistoryType::PostTweeted => 25,
            PostHistoryType::MovedToChat => 31,
            PostHistoryType::PostNoticeAdded => 33,
            PostHistoryType::PostNoticeRemoved => 34,
            PostHistoryType::PostMigratedAway => 35,
            PostHistoryType::PostMigratedHere => 36,
            PostHistoryType::PostMergeSource => 37,
            PostHistoryType::PostMergeDestination => 38,
        }
    }

    /// The name of this variant.
    pub fn name(&self) -> (s: String)
        ensures
            s@ == self.spec_name(),
    {
        match self {
            PostHistoryType::InitialTitle => "InitialTitle".to_owned(),
            PostHistoryType::InitialBody => "InitialBody".to_owned(),
            PostHistoryType::InitialTags => "InitialTags".to_owned(),
            PostHistoryType::EditTitle => "EditTitle".to_owned(),
            PostHistoryType::EditBody => "EditBody".to_owned(),
            PostHistoryType::EditTags => "EditTags".to_owned(),
            PostHistoryType::RollbackTitle => "RollbackTitle".to_owned(),
            PostHistoryType::RollbackBody => "RollbackBody".to_owned(),
            PostHistoryType::RollbackTags => "RollbackTags".to_owned(),
            PostHistoryType::PostClosed => "PostClosed".to_owned(),
            PostHistoryType::PostReopened => "PostReopened".to_owned(),
            PostHistoryType::PostDeleted => "PostDeleted".to_owned(),
            PostHistoryType::PostUndeleted => "PostUndeleted".to_owned(),
            PostHistoryType::PostLocked => "PostLocked".to_owned(),
            PostHistoryType::PostUnlocked => "PostUnlocked".to_owned(),
            PostHistoryType::CommunityOwned => "CommunityOwned".to_owned(),
            PostHistoryType::PostMigrated => "PostMigrated".to_owned(),
            PostHistoryType::QuestionMerged => "QuestionMerged".to_owned(),
            PostHistoryType::QuestionProtected => "QuestionProtected".to_owned(),
            PostHistoryType::QuestionUnprotected => "QuestionUnprotected".to_owned(),
            PostHistoryType::PostDisassociated => "PostDisassociated".to_owned(),
            PostHistoryType::QuestionUnmerged => "QuestionUnmerged".to_owned(),
            PostHistoryType::SuggestedEditApplied => "SuggestedEditApplied".to_owned(),
            PostHistoryType::PostTweeted => "PostTweeted".to_owned(),
            PostHistoryType::MovedToChat => "MovedToChat".to_owned(),
            PostHistoryType::PostNoticeAdded => "PostNoticeAdded".to_owned(),
            PostHistoryType::PostNoticeRemoved => "PostNoticeRemoved".to_owned(),
            PostHistoryType::PostMigratedAway => "PostMigratedAway".to_owned(),
            PostHistoryType::PostMigratedHere => "PostMigratedHere".to_owned(),
            PostHistoryType::PostMergeSource => "PostMergeSource".to_owned(),
            PostHistoryType::PostMergeDestination => "PostMergeDestination".to_owned(),
        }
    }

    /// The variant with the number `n`, if there is one.
    pub fn from_repr(n: u8) -> (r: Option<PostHistoryType>)
        ensures
            match r {
                Some(v) => v.spec_repr() == n,
                None => forall|v: PostHistoryType| v.spec_repr() != n,
            },
    {
        match n {
            1 => Some(PostHistoryType::InitialTitle),
            2 => Some(PostHistoryType::InitialBody),
            3 => Some(PostHistoryType::InitialTags),
            4 => Some(PostHistoryType::EditTitle),
            5 => Some(PostHistoryType::EditBody),
            6 => Some(PostHistoryType::EditTags),
            7 => Some(PostHistoryType::RollbackTitle),
            8 => Some(PostHistoryType::RollbackBody),
            9 => Some(PostHistoryType::RollbackTags),
            10 => Some(PostHistoryType::PostClosed),
            11 => Some(PostHistoryType::PostReopened),
            12 => Some(PostHistoryType::PostDeleted),
            13 => Some(PostHistoryType::PostUndeleted),
            14 => Some(PostHistoryType::PostLocked),
            15 => Some(PostHistoryType::PostUnlocked),
            16 => Some(PostHistoryType::CommunityOwned),
            17 => Some(PostHistoryType::PostMigrated),
            18 => Some(PostHistoryType::QuestionMerged),
            19 => Some(PostHistoryType::QuestionProtected),
            20 => Some(PostHistoryType::QuestionUnprotected),
            21 => Some(PostHistoryType::PostDisassociated),
            22 => Some(PostHistoryType::QuestionUnmerged),
            24 => Some(PostHistoryType::SuggestedEditApplied),
            25 => Some(PostHistoryType::PostTweeted),
            31 => Some(PostHistoryType::MovedToChat),
            33 => Some(PostHistoryType::PostNoticeAdded),
            34 => Some(PostHistoryType::PostNoticeRemoved),
            35 => Some(PostHistoryType::PostMigratedAway),
            36 => Some(PostHistoryType::PostMigratedHere),
            37 => Some(PostHistoryType::PostMergeSource),
            38 => Some(PostHistoryType::PostMergeDestination),
            _ => None,
        }
    }
}

/// Each variant of `PostHistoryType` is found again from its number, and no two
/// variants share a number.
pub proof fn lemma_posthistorytype_repr(a: PostHistoryType, b: PostHistoryType)
    ensures
        a.spec_repr() == b.spec_repr() ==> a == b,
        a.spec_repr() >= 1,
{
}

/// How a post is linked to another.
#[derive(Debug, Clone, Copy, PartialEq, Eq, Structural)]
pub enum LinkType {
    Linked,
    Duplicate,
}

impl LinkType {
    /// The number of this variant.
    pub open spec fn spec_repr(self) -> u8 {
        match self {
            LinkType::Linked => 1,
            LinkType::Duplicate => 3,
        }
    }

    /// The name of this variant.
    pub open spec fn spec_name(self) -> Seq<char> {
        match self {
            LinkType::Linked => "Linked"@,
            LinkType::Duplicate => "Duplicate"@,
        }
    }

    /// The number of this variant.
    pub fn repr(&self) -> (n: u8)
        ensures
            n == self.spec_repr(),
    {
        match self {
            LinkType::Linked => 1,
            LinkType::Duplicate => 3,
        }
    }

    /// The name of this variant.
    pub fn name(&self) -> (s: String)
        ensures
            s@ == self.spec_name(),
    {
        match self {
            LinkType::Linked => "Linked".to_owned(),
            LinkType::Duplicate => "Duplicate".to_owned(),
        }
    }

    /// The variant with the number `n`, if there is one.
    pub fn from_repr(n: u8) -> (r: Option<LinkType>)
        ensures
            match r {
                Some(v) => v.spec_repr() == n,
                None => forall|v: LinkType| v.spec_repr() != n,
            },
    {
        match n {
            1 => Some(LinkType::Linked),
            3 => Some(LinkType::Duplicate),
            _ => None,
        }
    }
}

/// Each variant of `LinkType` is found again from its number, and no two
/// variants share a number.
pub proof fn lemma_linktype_repr(a: LinkType, b: LinkType)
    ensures
        a.spec_repr() == b.spec_repr() ==> a == b,
        a.spec_repr() >= 1,
{
}

/// The kind of a post.
#[derive(Debug, Clone, Copy, PartialEq, Eq, Structural)]
pub enum PostType {
    Question,
    Answer,
    Wiki,
    TagWikiExcerpt,
    TagWiki,
    ModeratorNomination,
    WikiPlaceholder,
    PrivilegeWiki,
}

impl PostType {
    /// The number of this variant.
    pub open spec fn spec_repr(self) -> u8 {
        match self {
            PostType::Question => 1,
            PostType::Answer => 2,
            PostType::Wiki => 3,
            PostType::TagWikiExcerpt => 4,
            PostType::TagWiki => 5,
            PostType::ModeratorNomination => 6,
            PostType::WikiPlaceholder => 7,
            PostType::PrivilegeWiki => 8,
        }
    }

    /// The name of this variant.
    pub open spec fn spec_name(self) -> Seq<char> {
        match self {
            PostType::Question => "Question"@,
            PostType::Answer => "Answer"@,
            PostType::Wiki => "Wiki"@,
            PostType::TagWikiExcerpt => "TagWikiExcerpt"@,
            PostType::TagWiki => "TagWiki"@,
            PostType::ModeratorNomination => "ModeratorNomination"@,
            PostType::WikiPlaceholder => "WikiPlaceholder"@,
            PostType::PrivilegeWiki => "PrivilegeWiki"@,
        }
    }

    /// The number of this variant.
    pub fn repr(&self) -> (n: u8)
        ensures
            n == self.spec_repr(),
    {
        match self {
            PostType::Question => 1,
            PostType::Answer => 2,
            PostType::Wiki => 3,
            PostType::TagWikiExcerpt => 4,
            PostType::TagWiki => 5,
            PostType::ModeratorNomination => 6,
            PostType::WikiPlaceholder => 7,
            PostType::PrivilegeWiki => 8,
        }
    }

    /// The name of this variant.
    pub fn name(&self) -> (s: String)
        ensures
            s@ == self.spec_name(),
    {
        match self {
            PostType::Question => "Question".to_owned(),
            PostType::Answer => "Answer".to_owned(),
            PostType::Wiki => "Wiki".to_owned(),
            PostType::TagWikiExcerpt => "TagWikiExcerpt".to_owned(),
            PostType::TagWiki => "TagWiki".to_owned(),
            PostType::ModeratorNomination => "ModeratorNomination".to_owned(),
            PostType::WikiPlaceholder => "WikiPlaceholder".to_owned(),
            PostType::PrivilegeWiki => "PrivilegeWiki".to_owned(),
        }
    }

    /// The variant with the number `n`, if there is one.
    pub fn from_repr(n: u8) -> (r: Option<PostType>)
        ensures
            match r {
                Some(v) => v.spec_repr() == n,
                None => forall|v: PostType| v.spec_repr() != n,
            },
    {
        match n {
            1 => Some(PostType::Question),
            2 => Some(PostType::Answer),
            3 => Some(PostType::Wiki),
            4 => Some(PostType::TagWikiExcerpt),
            5 => Some(PostType::TagWiki),
            6 => Some(PostType::ModeratorNomination),
            7 => Some(PostType::WikiPlaceholder),
            8 => Some(PostType::PrivilegeWiki),
            _ => None,
        }
    }
}

/// Each variant of `PostType` is found again from its number, and no two
/// variants share a number.
pub proof fn lemma_posttype_repr(a: PostType, b: PostType)
    ensures
        a.spec_repr() == b.spec_repr() ==> a == b,
        a.spec_repr() >= 1,
{
}

/// The kind of a vote.
#[derive(Debug, Clone, Copy, PartialEq, Eq, Structural)]
pub enum VoteType {
    AcceptedByOriginator,
    UpMod,
    DownMod,
    Offensive,
    Favorite,
    Close,
    Reopen,
    BountyStart,
    BountyClose,
    Deletion,
    Undeletion,
    Spam,
    InformModerator,
    ModeratorReview,
    ApproveEditSuggestion,
}

impl VoteType {
    /// The number of this variant.
    pub open spec fn spec_repr(self) -> u8 {
        match self {
            VoteType::AcceptedByOriginator => 1,
            VoteType::UpMod => 2,
            VoteType::DownMod => 3,
            VoteType::Offensive => 4,
            VoteType::Favorite => 5,
            VoteType::Close => 6,
            VoteType::Reopen => 7,
            VoteType::BountyStart => 8,
            VoteType::BountyClose => 9,
            VoteType::Deletion => 10,
            VoteType::Undeletion => 11,
            VoteType::Spam => 12,
            VoteType::InformModerator => 13,
            VoteType::ModeratorReview => 15,
            VoteType::ApproveEditSuggestion => 16,
        }
    }

    /// The name of this variant.
    pub open spec fn spec_name(self) -> Seq<char> {
        match self {
            VoteType::AcceptedByOriginator => "AcceptedByOriginator"@,
            VoteType::UpMod => "UpMod"@,
            VoteType::DownMod => "DownMod"@,
            VoteType::Offensive => "Offensive"@,
            VoteType::Favorite => "Favorite"@,
            VoteType::Close => "Close"@,
            VoteType::Reopen => "Reopen"@,
            VoteType::BountyStart => "BountyStart"@,
            VoteType::BountyClose => "BountyClose"@,
            VoteType::Deletion => "Deletion"@,
            VoteType::Undeletion => "Undeletion"@,
            VoteType::Spam => "Spam"@,
            VoteType::InformModerator => "InformModerator"@,
            VoteType::ModeratorReview => "ModeratorReview"@,
            VoteType::ApproveEditSuggestion => "ApproveEditSuggestion"@,
        }
    }

    /// The number of this variant.
    pub fn repr(&self) -> (n: u8)
        ensures
            n == self.spec_repr(),
    {
        match self {
            VoteType::AcceptedByOriginator => 1,
            VoteType::UpMod => 2,
            VoteType::DownMod => 3,
            VoteType::Offensive => 4,
            VoteType::Favorite => 5,
            VoteType::Close => 6,
            VoteType::Reopen => 7,
            VoteType::BountyStart => 8,
            VoteType::BountyClose => 9,
            VoteType::Deletion => 10,
            VoteType::Undeletion => 11,
            VoteType::Spam => 12,
            VoteType::InformModerator => 13,
            VoteType::ModeratorReview => 15,
            VoteType::ApproveEditSuggestion => 16,
        }
    }

    /// The name of this variant.
    pub fn name(&self) -> (s: String)
        ensures
            s@ == self.spec_name(),
    {
        match self {
            VoteType::AcceptedByOriginator => "AcceptedByOriginator".to_owned(),
            VoteType::UpMod => "UpMod".to_owned(),
            VoteType::DownMod => "DownMod".to_owned(),
            VoteType::Offensive => "Offensive".to_owned(),
            VoteType::Favorite => "Favorite".to_owned(),
            VoteType::Close => "Close".to_owned(),
            VoteType::Reopen => "Reopen".to_owned(),
            VoteType::BountyStart => "BountyStart".to_owned(),
            VoteType::BountyClose => "BountyClose".to_owned(),
            VoteType::Deletion => "Deletion".to_owned(),
            VoteType::Undeletion => "Undeletion".to_owned(),
            VoteType::Spam => "Spam".to_owned(),
            VoteType::InformModerator => "InformModerator".to_owned(),
            VoteType::ModeratorReview => "ModeratorReview".to_owned(),
            VoteType::ApproveEditSuggestion => "ApproveEditSuggestion".to_owned(),
        }
    }

    /// The variant with the number `n`, if there is one.
    pub fn from_repr(n: u8) -> (r: Option<VoteType>)
        ensures
            match r {
                Some(v) => v.spec_repr() == n,
                None => forall|v: VoteType| v.spec_repr() != n,
            },
    {
        match n {
            1 => Some(VoteType::AcceptedByOriginator),
            2 => Some(VoteType::UpMod),
            3 => Some(VoteType::DownMod),
            4 => Some(VoteType::Offensive),
            5 => Some(VoteType::Favorite),
            6 => Some(VoteType::Close),
            7 => Some(VoteType::Reopen),
            8 => Some(VoteType::BountyStart),
            9 => Some(VoteType::BountyClose),
            10 => Some(VoteType::Deletion),
            11 => Some(VoteType::Undeletion),
            12 => Some(VoteType::Spam),
            13 => Some(VoteType::InformModerator),
            15 => Some(VoteType::ModeratorReview),
            16 => Some(VoteType::ApproveEditSuggestion),
            _ => None,
        }
    }
}

/// Each variant of `VoteType` is found again from its number, and no two
/// variants share a number.
pub proof fn lemma_votetype_repr(a: VoteType, b: VoteType)
    ensures
        a.spec_repr() == b.spec_repr() ==> a == b,
        a.spec_repr() >= 1,
{
}

} // verus!
