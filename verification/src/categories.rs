//! Community and poll categories: the fixed catalogue, admin-created
//! custom categories, and per-user category subscriptions.

use vstd::prelude::*;
use crate::community::Community;
use crate::errors::VotingSystemError;
use crate::membership::Membership;
use crate::user::{AccountId, User};

verus! {

/// The fixed category catalogue, coded 0 through 10.
#[derive(Clone, Copy, PartialEq, Eq, Structural, Debug)]
pub enum VotingCategory {
    Technology,
    Finance,
    Gaming,
    Art,
    Education,
    Sports,
    Music,
    Politics,
    Science,
    General,
    Custom,
}

/// The category a code names, if any: 0 through 10 in catalogue order.
pub open spec fn category_of_u8(value: u8) -> Option<VotingCategory> {
    if value == 0 {
        Some(VotingCategory::Technology)
    } else if value == 1 {
        Some(VotingCategory::Finance)
    } else if value == 2 {
        Some(VotingCategory::Gaming)
    } else if value == 3 {
        Some(VotingCategory::Art)
    } else if value == 4 {
        Some(VotingCategory::Education)
    } else if value == 5 {
        Some(VotingCategory::Sports)
    } else if value == 6 {
        Some(VotingCategory::Music)
    } else if value == 7 {
        Some(VotingCategory::Politics)
    } else if value == 8 {
        Some(VotingCategory::Science)
    } else if value == 9 {
        Some(VotingCategory::General)
    } else if value == 10 {
        Some(VotingCategory::Custom)
    } else {
        None
    }
}

/// The code a category carries: the inverse of [`category_of_u8`].
pub open spec fn u8_of_category(category: VotingCategory) -> u8 {
    match category {
        VotingCategory::Technology => 0u8,
        VotingCategory::Finance => 1u8,
        VotingCategory::Gaming => 2u8,
        VotingCategory::Art => 3u8,
        VotingCategory::Education => 4u8,
        VotingCategory::Sports => 5u8,
        VotingCategory::Music => 6u8,
        VotingCategory::Politics => 7u8,
        VotingCategory::Science => 8u8,
        VotingCategory::General => 9u8,
        VotingCategory::Custom => 10u8,
    }
}

/// The two codings invert each other: every category's code names it
/// back, and every valid code's category carries that code.
pub proof fn lemma_category_codes_round_trip(category: VotingCategory, value: u8)
    ensures
        category_of_u8(u8_of_category(category)) == Some(category),
        value <= 10 ==> (category_of_u8(value) matches Some(c)
            && u8_of_category(c) == value),
        value > 10 ==> category_of_u8(value) is None,
{
}

impl VotingCategory {
    /// The category a code names, if any.
    pub fn from_u8(value: u8) -> (c: Option<VotingCategory>)
        ensures
            c == category_of_u8(value),
    {
        match value {
            0 => Some(VotingCategory::Technology),
            1 => Some(VotingCategory::Finance),
            2 => Some(VotingCategory::Gaming),
            3 => Some(VotingCategory::Art),
            4 => Some(VotingCategory::Education),
            5 => Some(VotingCategory::Sports),
            6 => Some(VotingCategory::Music),
            7 => Some(VotingCategory::Politics),
            8 => Some(VotingCategory::Science),
            9 => Some(VotingCategory::General),
            10 => Some(VotingCategory::Custom),
            _ => None,
        }
    }

    /// The code this category carries.
    pub fn to_u8(&self) -> (v: u8)
        ensures
            v == u8_of_category(*self),
    {
        match self {
            VotingCategory::Technology => 0,
            VotingCategory::Finance => 1,
            VotingCategory::Gaming => 2,
            VotingCategory::Art => 3,
            VotingCategory::Education => 4,
            VotingCategory::Sports => 5,
            VotingCategory::Music => 6,
            VotingCategory::Politics => 7,
            VotingCategory::Science => 8,
            VotingCategory::General => 9,
            VotingCategory::Custom => 10,
        }
    }

    /// The category's display name.
    pub fn name(&self) -> (s: &'static str)
        ensures
            *self is Technology ==> s@ == "Technology"@,
            *self is Finance ==> s@ == "Finance"@,
            *self is Gaming ==> s@ == "Gaming"@,
            *self is Art ==> s@ == "Art"@,
            *self is Education ==> s@ == "Education"@,
            *self is Sports ==> s@ == "Sports"@,
            *self is Music ==> s@ == "Music"@,
            *self is Politics ==> s@ == "Politics"@,
            *self is Science ==> s@ == "Science"@,
            *self is General ==> s@ == "General"@,
            *self is Custom ==> s@ == "Custom"@,
    {
        match self {
            VotingCategory::Technology => "Technology",
            VotingCategory::Finance => "Finance",
            VotingCategory::Gaming => "Gaming",
            VotingCategory::Art => "Art",
            VotingCategory::Education => "Education",
            VotingCategory::Sports => "Sports",
            VotingCategory::Music => "Music",
            VotingCategory::Politics => "Politics",
            VotingCategory::Science => "Science",
            VotingCategory::General => "General",
            VotingCategory::Custom => "Custom",
        }
    }

    /// A one-line description of the category.
    pub fn description(&self) -> (s: &'static str)
        ensures
            s@.len() > 0,
    {
        let d = match self {
            VotingCategory::Technology => "Software, hardware, blockchain, AI, and tech innovations",
            VotingCategory::Finance => "DeFi, trading, investments, and financial topics",
            VotingCategory::Gaming => "Video games, esports, game development, and gaming culture",
            VotingCategory::Art => "Digital art, NFTs, creative projects, and artistic discussions",
            VotingCategory::Education => "Learning, courses, academic topics, and educational content",
            VotingCategory::Sports => "Traditional sports, fitness, competitions, and athletic events",
            VotingCategory::Music => "Music creation, artists, genres, and musical discussions",
            VotingCategory::Politics => "Governance, policy, political discussions, and civic topics",
            VotingCategory::Science => "Research, discoveries, scientific topics, and STEM fields",
            VotingCategory::General => "General discussions and miscellaneous topics",
            VotingCategory::Custom => "Custom categories defined by community admins",
        };
        proof {
            reveal_strlit("Software, hardware, blockchain, AI, and tech innovations");
            reveal_strlit("DeFi, trading, investments, and financial topics");
            reveal_strlit("Video games, esports, game development, and gaming culture");
            reveal_strlit("Digital art, NFTs, creative projects, and artistic discussions");
            reveal_strlit("Learning, courses, academic topics, and educational content");
            reveal_strlit("Traditional sports, fitness, competitions, and athletic events");
            reveal_strlit("Music creation, artists, genres, and musical discussions");
            reveal_strlit("Governance, policy, political discussions, and civic topics");
            reveal_strlit("Research, discoveries, scientific topics, and STEM fields");
            reveal_strlit("General discussions and miscellaneous topics");
            reveal_strlit("Custom categories defined by community admins");
        }
        d
    }

    /// Whether a code names a catalogue category.
    pub fn is_valid_category(value: u8) -> (valid: bool)
        ensures
            valid == (value <= 10),
            valid == (category_of_u8(value) is Some),
    {
        value <= 10
    }
}

/// An admin-defined category of one community.
#[derive(Debug)]
pub struct CustomCategory {
    pub community: AccountId,
    /// At most 50 characters.
    pub name: String,
    /// At most 200 characters.
    pub description: String,
    /// A colour code for display, at most 7 characters.
    pub color: String,
    /// An icon or emoji, at most 10 characters.
    pub icon: String,
    pub created_by: AccountId,
    pub created_at: i64,
    pub is_active: bool,
    pub usage_count: u64,
}

/// One user's subscription to a category, either inside one community or
/// global.
#[derive(Debug)]
pub struct CategorySubscription {
    pub user: AccountId,
    pub category: VotingCategory,
    /// The community the subscription is scoped to; global when `None`.
    pub community: Option<AccountId>,
    pub subscribed_at: i64,
    pub is_active: bool,
    pub notification_enabled: bool,
}

/// An admin creates a custom category for their community.
///
/// Lengths are capped — name 50, description 200, colour 7, icon 10
/// characters — and only an admin of this community may create
/// (`InvalidCommunity`, then `InsufficientPermissions`).
pub fn create_custom_category(
    community_key: AccountId,
    admin_membership: &Membership,
    name: String,
    description: String,
    color: String,
    icon: String,
    now: i64,
) -> (r: Result<CustomCategory, VotingSystemError>)
    ensures
        r matches Err(e) ==> (
            if name@.len() > 50 {
                e == VotingSystemError::NameTooLong
            } else if description@.len() > 200 {
                e == VotingSystemError::DescriptionTooLong
            } else if color@.len() > 7 {
                e == VotingSystemError::ColorTooLong
            } else if icon@.len() > 10 {
                e == VotingSystemError::IconTooLong
            } else if admin_membership.community != community_key {
                e == VotingSystemError::InvalidCommunity
            } else {
                e == VotingSystemError::InsufficientPermissions
                    && !admin_membership.is_admin()
            }
        ),
        r matches Ok(category) ==> category == (CustomCategory {
            community: community_key,
            name,
            description,
            color,
            icon,
            created_by: admin_membership.user,
            created_at: now,
            is_active: true,
            usage_count: 0,
        }),
        r is Ok <==> (name@.len() <= 50 && description@.len() <= 200 && color@.len() <= 7
            && icon@.len() <= 10 && admin_membership.community == community_key
            && admin_membership.is_admin()),
{
    if name.as_str().unicode_len() > 50 {
        return Err(VotingSystemError::NameTooLong);
    }
    if description.as_str().unicode_len() > 200 {
        return Err(VotingSystemError::DescriptionTooLong);
    }
    if color.as_str().unicode_len() > 7 {
        return Err(VotingSystemError::ColorTooLong);
    }
    if icon.as_str().unicode_len() > 10 {
        return Err(VotingSystemError::IconTooLong);
    }
    if admin_membership.community != community_key {
        return Err(VotingSystemError::InvalidCommunity);
    }
    if !admin_membership.is_admin() {
        return Err(VotingSystemError::InsufficientPermissions);
    }
    Ok(CustomCategory {
        community: community_key,
        name,
        description,
        color,
        icon,
        created_by: admin_membership.user,
        created_at: now,
        is_active: true,
        usage_count: 0,
    })
}

/// Subscribe a user to a category, globally or within one community.
pub fn subscribe_to_category(
    user: &User,
    category: VotingCategory,
    community: Option<AccountId>,
    enable_notifications: bool,
    now: i64,
) -> (subscription: CategorySubscription)
    ensures
        subscription == (CategorySubscription {
            user: user.wallet,
            category,
            community,
            subscribed_at: now,
            is_active: true,
            notification_enabled: enable_notifications,
        }),
{
    CategorySubscription {
        user: user.wallet,
        category,
        community,
        subscribed_at: now,
        is_active: true,
        notification_enabled: enable_notifications,
    }
}

/// Deactivate a subscription, notifications included; everything else on
/// the record stays.
pub fn unsubscribe_from_category(subscription: &mut CategorySubscription)
    ensures
        *final(subscription) == (CategorySubscription {
            is_active: false,
            notification_enabled: false,
            ..*old(subscription)
        }),
{
    subscription.is_active = false;
    subscription.notification_enabled = false;
}

/// Check a community against a category filter.
///
/// The code must name a catalogue category (`InvalidCategory`), the
/// community must carry it (`CategoryMismatch`) and be active
/// (`CommunityInactive`); then the community passes the filter.
pub fn get_communities_by_category(
    community: &Community,
    category: u8,
) -> (r: Result<(), VotingSystemError>)
    ensures
        r matches Err(e) ==> (
            if category > 10 {
                e == VotingSystemError::InvalidCategory
            } else if community.category != category {
                e == VotingSystemError::CategoryMismatch
            } else {
                e == VotingSystemError::CommunityInactive && !community.is_active
            }
        ),
        r is Ok <==> (category <= 10 && community.category == category
            && community.is_active),
{
    if !VotingCategory::is_valid_category(category) {
        return Err(VotingSystemError::InvalidCategory);
    }
    if community.category != category {
        return Err(VotingSystemError::CategoryMismatch);
    }
    if !community.is_active {
        return Err(VotingSystemError::CommunityInactive);
    }
    Ok(())
}

} // verus!
