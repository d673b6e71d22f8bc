//! A category's settings as its settings page shows them, and the team
//! voice channel policies that its buttons cycle through.

use vstd::prelude::*;
use crate::config::DEFAULT_QUOTA;
use crate::category::Category;

verus! {

/// When the team voice channels of a game are created.
#[derive(Debug, Clone, Copy, PartialEq, Eq, Structural)]
pub enum TeamVcCreatePolicy {
    OnFirstJoin,
    OnHot,
    OnGameStart,
}

/// When the team voice channels of a game are removed.
#[derive(Debug, Clone, Copy, PartialEq, Eq, Structural)]
pub enum TeamVcDestroyPolicy {
    OnLastLeave,
    AfterPull,
    AfterExpiration,
}

/// The team voice channel settings of a category.
#[derive(Debug, Clone, Copy, PartialEq, Eq, Structural)]
pub struct TeamVcSettings {
    pub create_policy: TeamVcCreatePolicy,
    pub destroy_policy: TeamVcDestroyPolicy,
    /// Whether a minimum of team channels is kept
    pub keep_minimum: bool,
}

impl TeamVcCreatePolicy {
    /// The next policy of the VC create button's cycle.
    pub fn next(self) -> (r: Self)
        ensures
            r == (match self {
                TeamVcCreatePolicy::OnFirstJoin => TeamVcCreatePolicy::OnHot,
                TeamVcCreatePolicy::OnHot => TeamVcCreatePolicy::OnGameStart,
                TeamVcCreatePolicy::OnGameStart => TeamVcCreatePolicy::OnFirstJoin,
            }),
    {
        match self {
            TeamVcCreatePolicy::OnFirstJoin => TeamVcCreatePolicy::OnHot,
            TeamVcCreatePolicy::OnHot => TeamVcCreatePolicy::OnGameStart,
            TeamVcCreatePolicy::OnGameStart => TeamVcCreatePolicy::OnFirstJoin,
        }
    }
}

impl TeamVcDestroyPolicy {
    /// The next policy of the VC destroy button's cycle.
    pub fn next(self) -> (r: Self)
        ensures
            r == (match self {
                TeamVcDestroyPolicy::OnLastLeave => TeamVcDestroyPolicy::AfterPull,
                TeamVcDestroyPolicy::AfterPull => TeamVcDestroyPolicy::AfterExpiration,
                TeamVcDestroyPolicy::AfterExpiration => TeamVcDestroyPolicy::OnLastLeave,
            }),
    {
        match self {
            TeamVcDestroyPolicy::OnLastLeave => TeamVcDestroyPolicy::AfterPull,
            TeamVcDestroyPolicy::AfterPull => TeamVcDestroyPolicy::AfterExpiration,
            TeamVcDestroyPolicy::AfterExpiration => TeamVcDestroyPolicy::OnLastLeave,
        }
    }
}

/// Pressing a VC policy button three times brings the policy back.
pub proof fn lemma_policy_cycles(c: TeamVcCreatePolicy, d: TeamVcDestroyPolicy)
    ensures
        ({
            let n1 = match c {
                TeamVcCreatePolicy::OnFirstJoin => TeamVcCreatePolicy::OnHot,
                TeamVcCreatePolicy::OnHot => TeamVcCreatePolicy::OnGameStart,
                TeamVcCreatePolicy::OnGameStart => TeamVcCreatePolicy::OnFirstJoin,
            };
            let n2 = match n1 {
                TeamVcCreatePolicy::OnFirstJoin => TeamVcCreatePolicy::OnHot,
                TeamVcCreatePolicy::OnHot => TeamVcCreatePolicy::OnGameStart,
                TeamVcCreatePolicy::OnGameStart => TeamVcCreatePolicy::OnFirstJoin,
            };
            let n3 = match n2 {
                TeamVcCreatePolicy::OnFirstJoin => TeamVcCreatePolicy::OnHot,
                TeamVcCreatePolicy::OnHot => TeamVcCreatePolicy::OnGameStart,
                TeamVcCreatePolicy::OnGameStart => TeamVcCreatePolicy::OnFirstJoin,
            };
            n3 == c && n1 != c
        }),
        ({
            let n1 = match d {
                TeamVcDestroyPolicy::OnLastLeave => TeamVcDestroyPolicy::AfterPull,
                TeamVcDestroyPolicy::AfterPull => TeamVcDestroyPolicy::AfterExpiration,
                TeamVcDestroyPolicy::AfterExpiration => TeamVcDestroyPolicy::OnLastLeave,
            };
            let n2 = match n1 {
                TeamVcDestroyPolicy::OnLastLeave => TeamVcDestroyPolicy::AfterPull,
                TeamVcDestroyPolicy::AfterPull => TeamVcDestroyPolicy::AfterExpiration,
                TeamVcDestroyPolicy::AfterExpiration => TeamVcDestroyPolicy::OnLastLeave,
            };
            let n3 = match n2 {
                TeamVcDestroyPolicy::OnLastLeave => TeamVcDestroyPolicy::AfterPull,
                TeamVcDestroyPolicy::AfterPull => TeamVcDestroyPolicy::AfterExpiration,
                TeamVcDestroyPolicy::AfterExpiration => TeamVcDestroyPolicy::OnLastLeave,
            };
            n3 == d && n1 != d
        }),
{
}

/// A category's settings for its settings page.
pub struct CategorySettings {
    pub category_id: u8,
    pub name: Option<String>,
    pub quota: u8,
    pub confirm_time: u16,
    pub connect_info: Option<String>,
    pub format_names: Vec<String>,
    pub vc_create: String,
    pub vc_destroy: String,
    pub vc_keep_min: bool,
}

impl Category {
    /// The category's quota: that of its first format (the default quota
    /// when it has none).
    pub open spec fn spec_quota(&self) -> u8 {
        if self.formats@.len() > 0 { self.formats@[0].quota } else { DEFAULT_QUOTA }
    }

    /// The category's quota.
    pub fn quota(&self) -> (r: u8)
        ensures
            r == self.spec_quota(),
    {
        if self.formats.len() > 0 { self.formats[0].quota } else { DEFAULT_QUOTA }
    }
}

impl CategorySettings {
    /// The settings of `category`, with the names of its team voice channel
    /// policies and whether it keeps a minimum of team channels.
    pub fn from_category(category: &Category, vc_create: String, vc_destroy: String, vc_keep_min: bool) -> (r: Self)
        ensures
            r.category_id == category.id,
            r.name == category.name,
            r.quota == category.spec_quota(),
            r.confirm_time == category.confirm_time,
            r.connect_info == (if category.formats@.len() > 0 { category.formats@[0].connect_info } else { None }),
            r.format_names@.map_values(|n: String| n@) == category.formats@.map_values(|f: crate::category::Format| f.name@),
            r.vc_create == vc_create,
            r.vc_destroy == vc_destroy,
            r.vc_keep_min == vc_keep_min,
    {
        let n = category.formats.len();
        let mut names: Vec<String> = Vec::new();
        let mut i: usize = 0;
        while i < n
            invariant
                n == category.formats@.len(),
                i <= n,
                names@.len() == i,
                forall|k: int| 0 <= k < i ==> (#[trigger] names@[k])@ == category.formats@[k].name@,
            decreases n - i,
        {
            names.push(category.formats[i].name.clone());
            i = i + 1;
        }
        assert(names@.map_values(|x: String| x@) =~= category.formats@.map_values(|f: crate::category::Format| f.name@));
        let connect_info = if n > 0 { category.formats[0].connect_info.clone() } else { None };
        CategorySettings {
            category_id: category.id,
            name: category.name.clone(),
            quota: category.quota(),
            confirm_time: category.confirm_time,
            connect_info,
            format_names: names,
            vc_create,
            vc_destroy,
            vc_keep_min,
        }
    }
}

} // verus!
