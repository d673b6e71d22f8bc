//! Dashboard and setup buttons, identified by their custom ids.

use vstd::prelude::*;
use vstd::string::*;
use crate::text::{str_eq, has_prefix};
use crate::parse::{parse_u8, parse_u8_spec, split_on, split_spec};

verus! {

/// Represents the different types of button interactions of the bot.
#[derive(Debug)]
pub enum ButtonType {
    // Setup flow buttons
    SetupDashboard,
    SetupQueue,
    SetupQueueVc,
    SetupRed,
    SetupBlue,
    SetupRunner,
    SetupAdmin,
    // Init category flow buttons
    InitDashboard,
    InitQueue,
    InitQueueVc,
    InitRed,
    InitBlue,
    InitRunner,
    InitAdmin,
    InitQuota,
    // Category link buttons
    CategoryLinkDashboard,
    CategoryLinkQueue,
    CategoryLinkQueueVc,
    CategoryLinkRed,
    CategoryLinkBlue,
    // Dashboard action buttons
    DashboardJoin,
    DashboardLeave,
    DashboardShuffle,
    DashboardStart,
    DashboardEnd,
    DashboardCancel,
    DashboardReportScore,
    // Permission confirmation button
    ConfirmPermissions,
    // Rank role creation buttons
    CreateRankRolesYes,
    CreateRankRolesNo,
    /// Any other custom id
    Unknown(String),
}

/// The custom id a button type is parsed from.
pub open spec fn button_id(b: ButtonType) -> Seq<char> {
    match b {
        ButtonType::SetupDashboard => "setup_dashboard"@,
        ButtonType::SetupQueue => "setup_queue"@,
        ButtonType::SetupQueueVc => "setup_queuevc"@,
        ButtonType::SetupRed => "setup_red"@,
        ButtonType::SetupBlue => "setup_blue"@,
        ButtonType::SetupRunner => "setup_runner"@,
        ButtonType::SetupAdmin => "setup_admin"@,
        ButtonType::InitDashboard => "init_dashboard"@,
        ButtonType::InitQueue => "init_queue"@,
        ButtonType::InitQueueVc => "init_queuevc"@,
        ButtonType::InitRed => "init_red"@,
        ButtonType::InitBlue => "init_blue"@,
        ButtonType::InitRunner => "init_runner"@,
        ButtonType::InitAdmin => "init_admin"@,
        ButtonType::InitQuota => "init_quota"@,
        ButtonType::CategoryLinkDashboard => "categorylink_dashboard"@,
        ButtonType::CategoryLinkQueue => "categorylink_queue"@,
        ButtonType::CategoryLinkQueueVc => "categorylink_queuevc"@,
        ButtonType::CategoryLinkRed => "categorylink_red"@,
        ButtonType::CategoryLinkBlue => "categorylink_blue"@,
        ButtonType::DashboardJoin => "join_queue"@,
        ButtonType::DashboardLeave => "leave_queue"@,
        ButtonType::DashboardShuffle => "shuffle_teams"@,
        ButtonType::DashboardStart => "start_match"@,
        ButtonType::DashboardEnd => "end_match"@,
        ButtonType::DashboardCancel => "cancel_match"@,
        ButtonType::DashboardReportScore => "report_score"@,
        ButtonType::ConfirmPermissions => "confirm_permissions"@,
        ButtonType::CreateRankRolesYes => "create_rank_roles_yes"@,
        ButtonType::CreateRankRolesNo => "create_rank_roles_no"@,
        ButtonType::Unknown(s) => s@,
    }
}

/// Whether `s` is the custom id of a known button.
pub open spec fn is_known_id(s: Seq<char>) -> bool {
    s == "setup_dashboard"@
    || s == "setup_queue"@
    || s == "setup_queuevc"@
    || s == "setup_red"@
    || s == "setup_blue"@
    || s == "setup_runner"@
    || s == "setup_admin"@
    || s == "init_dashboard"@
    || s == "init_queue"@
    || s == "init_queuevc"@
    || s == "init_red"@
    || s == "init_blue"@
    || s == "init_runner"@
    || s == "init_admin"@
    || s == "init_quota"@
    || s == "categorylink_dashboard"@
    || s == "categorylink_queue"@
    || s == "categorylink_queuevc"@
    || s == "categorylink_red"@
    || s == "categorylink_blue"@
    || s == "join_queue"@
    || s == "leave_queue"@
    || s == "shuffle_teams"@
    || s == "start_match"@
    || s == "end_match"@
    || s == "cancel_match"@
    || s == "report_score"@
    || s == "confirm_permissions"@
    || s == "create_rank_roles_yes"@
    || s == "create_rank_roles_no"@
}

impl ButtonType {
    /// Parses a custom id: the button whose id it is, or `Unknown` with the
    /// id itself.
    pub fn parse_button(custom_id: &str) -> (r: ButtonType)
        ensures
            button_id(r) == custom_id@,
            (r is Unknown) == !is_known_id(custom_id@),
    {
        if str_eq(custom_id, "setup_dashboard") {
            ButtonType::SetupDashboard
        } else if str_eq(custom_id, "setup_queue") {
            ButtonType::SetupQueue
        } else if str_eq(custom_id, "setup_queuevc") {
            ButtonType::SetupQueueVc
        } else if str_eq(custom_id, "setup_red") {
            ButtonType::SetupRed
        } else if str_eq(custom_id, "setup_blue") {
            ButtonType::SetupBlue
        } else if str_eq(custom_id, "setup_runner") {
            ButtonType::SetupRunner
        } else if str_eq(custom_id, "setup_admin") {
            ButtonType::SetupAdmin
        } else if str_eq(custom_id, "init_dashboard") {
            ButtonType::InitDashboard
        } else if str_eq(custom_id, "init_queue") {
            ButtonType::InitQueue
        } else if str_eq(custom_id, "init_queuevc") {
            ButtonType::InitQueueVc
        } else if str_eq(custom_id, "init_red") {
            ButtonType::InitRed
        } else if str_eq(custom_id, "init_blue") {
            ButtonType::InitBlue
        } else if str_eq(custom_id, "init_runner") {
            ButtonType::InitRunner
        } else if str_eq(custom_id, "init_admin") {
            ButtonType::InitAdmin
        } else if str_eq(custom_id, "init_quota") {
            ButtonType::InitQuota
        } else if str_eq(custom_id, "categorylink_dashboard") {
            ButtonType::CategoryLinkDashboard
        } else if str_eq(custom_id, "categorylink_queue") {
            ButtonType::CategoryLinkQueue
        } else if str_eq(custom_id, "categorylink_queuevc") {
            ButtonType::CategoryLinkQueueVc
        } else if str_eq(custom_id, "categorylink_red") {
            ButtonType::CategoryLinkRed
        } else if str_eq(custom_id, "categorylink_blue") {
            ButtonType::CategoryLinkBlue
        } else if str_eq(custom_id, "join_queue") {
            ButtonType::DashboardJoin
        } else if str_eq(custom_id, "leave_queue") {
            ButtonType::DashboardLeave
        } else if str_eq(custom_id, "shuffle_teams") {
            ButtonType::DashboardShuffle
        } else if str_eq(custom_id, "start_match") {
            ButtonType::DashboardStart
        } else if str_eq(custom_id, "end_match") {
            ButtonType::DashboardEnd
        } else if str_eq(custom_id, "cancel_match") {
            ButtonType::DashboardCancel
        } else if str_eq(custom_id, "report_score") {
            ButtonType::DashboardReportScore
        } else if str_eq(custom_id, "confirm_permissions") {
            ButtonType::ConfirmPermissions
        } else if str_eq(custom_id, "create_rank_roles_yes") {
            ButtonType::CreateRankRolesYes
        } else if str_eq(custom_id, "create_rank_roles_no") {
            ButtonType::CreateRankRolesNo
        } else {
            ButtonType::Unknown(String::from_str(custom_id))
        }
    }

    /// Whether the button belongs to the setup, init or category-link flow.
    pub open spec fn spec_is_setup_button(&self) -> bool {
        *self is SetupDashboard
        || *self is SetupQueue
        || *self is SetupQueueVc
        || *self is SetupRed
        || *self is SetupBlue
        || *self is SetupRunner
        || *self is SetupAdmin
        || *self is InitDashboard
        || *self is InitQueue
        || *self is InitQueueVc
        || *self is InitRed
        || *self is InitBlue
        || *self is InitRunner
        || *self is InitAdmin
        || *self is InitQuota
        || *self is CategoryLinkDashboard
        || *self is CategoryLinkQueue
        || *self is CategoryLinkQueueVc
        || *self is CategoryLinkRed
        || *self is CategoryLinkBlue
    }

    /// Whether this button type requires setup handling.
    pub fn is_setup_button(&self) -> (r: bool)
        ensures
            r == self.spec_is_setup_button(),
    {
        match self {
            ButtonType::SetupDashboard
            | ButtonType::SetupQueue
            | ButtonType::SetupQueueVc
            | ButtonType::SetupRed
            | ButtonType::SetupBlue
            | ButtonType::SetupRunner
            | ButtonType::SetupAdmin
            | ButtonType::InitDashboard
            | ButtonType::InitQueue
            | ButtonType::InitQueueVc
            | ButtonType::InitRed
            | ButtonType::InitBlue
            | ButtonType::InitRunner
            | ButtonType::InitAdmin
            | ButtonType::InitQuota
            | ButtonType::CategoryLinkDashboard
            | ButtonType::CategoryLinkQueue
            | ButtonType::CategoryLinkQueueVc
            | ButtonType::CategoryLinkRed
            | ButtonType::CategoryLinkBlue => true,
            _ => false,
        }
    }

    /// Whether the button is one of the dashboard action buttons, score
    /// reporting included.
    pub open spec fn spec_is_dashboard_action(&self) -> bool {
        *self is DashboardJoin
        || *self is DashboardLeave
        || *self is DashboardShuffle
        || *self is DashboardStart
        || *self is DashboardEnd
        || *self is DashboardCancel
        || *self is DashboardReportScore
    }

    /// Whether this button type is a dashboard action.
    pub fn is_dashboard_action(&self) -> (r: bool)
        ensures
            r == self.spec_is_dashboard_action(),
    {
        match self {
            ButtonType::DashboardJoin
            | ButtonType::DashboardLeave
            | ButtonType::DashboardShuffle
            | ButtonType::DashboardStart
            | ButtonType::DashboardEnd
            | ButtonType::DashboardCancel
            | ButtonType::DashboardReportScore => true,
            _ => false,
        }
    }

    /// The setup step a setup or init button stands for; every setup and
    /// init button except the channel-link ones names one.
    pub open spec fn spec_setup_step(&self) -> Option<Seq<char>> {
        match *self {
            ButtonType::SetupDashboard | ButtonType::InitDashboard => Some("dashboard"@),
            ButtonType::SetupQueue | ButtonType::InitQueue => Some("queue"@),
            ButtonType::SetupRed | ButtonType::InitRed => Some("red"@),
            ButtonType::SetupBlue | ButtonType::InitBlue => Some("blue"@),
            ButtonType::SetupQueueVc | ButtonType::InitQueueVc => Some("queuevc"@),
            ButtonType::SetupRunner | ButtonType::InitRunner => Some("runner"@),
            ButtonType::SetupAdmin | ButtonType::InitAdmin => Some("admin"@),
            ButtonType::InitQuota => Some("quota"@),
            _ => None,
        }
    }

    /// Get the setup step name (for setup/init buttons).
    pub fn setup_step(&self) -> (r: Option<&'static str>)
        ensures
            match self.spec_setup_step() {
                Some(s) => r is Some && r.unwrap()@ == s,
                None => r is None,
            },
    {
        match self {
            ButtonType::SetupDashboard | ButtonType::InitDashboard => Some("dashboard"),
            ButtonType::SetupQueue | ButtonType::InitQueue => Some("queue"),
            ButtonType::SetupRed | ButtonType::InitRed => Some("red"),
            ButtonType::SetupBlue | ButtonType::InitBlue => Some("blue"),
            ButtonType::SetupQueueVc | ButtonType::InitQueueVc => Some("queuevc"),
            ButtonType::SetupRunner | ButtonType::InitRunner => Some("runner"),
            ButtonType::SetupAdmin | ButtonType::InitAdmin => Some("admin"),
            ButtonType::InitQuota => Some("quota"),
            _ => None,
        }
    }
}

/// A button is never both a setup button and a dashboard action, and only
/// setup buttons name a setup step.
pub proof fn lemma_button_kinds(b: ButtonType)
    ensures
        !(b.spec_is_setup_button() && b.spec_is_dashboard_action()),
        b.spec_setup_step() is Some ==> b.spec_is_setup_button(),
{
}

/// Whether `s` is the custom id of a setup, init or category-link button:
/// a known id that starts with `setup_`, `init_` or `categorylink_`.
pub open spec fn is_setup_id(s: Seq<char>) -> bool {
    is_known_id(s) && (has_prefix(s, "setup_"@) || has_prefix(s, "init_"@) || has_prefix(s, "categorylink_"@))
}

proof fn lemma_not_prefix(s: Seq<char>, p: Seq<char>, k: int)
    requires
        0 <= k < p.len(),
        k < s.len(),
        s[k] != p[k],
    ensures
        !has_prefix(s, p),
{
    if has_prefix(s, p) {
        assert(s.subrange(0, p.len() as int)[k] == s[k]);
    }
}

/// The button parsed from a custom id is a setup button exactly when the
/// id is that of a setup, init or category-link button; any other id,
/// known or not, gives no setup button.
pub proof fn lemma_setup_button_by_id(s: Seq<char>, b: ButtonType)
    requires
        button_id(b) == s,
        (b is Unknown) == !is_known_id(s),
    ensures
        b.spec_is_setup_button() == is_setup_id(s),
{
    reveal_strlit("setup_");
    reveal_strlit("init_");
    reveal_strlit("categorylink_");
    match b {
        ButtonType::SetupDashboard => {
            reveal_strlit("setup_dashboard");
            assert(s.subrange(0, 6) =~= "setup_"@);
        },
        ButtonType::SetupQueue => {
            reveal_strlit("setup_queue");
            assert(s.subrange(0, 6) =~= "setup_"@);
        },
        ButtonType::SetupQueueVc => {
            reveal_strlit("setup_queuevc");
            assert(s.subrange(0, 6) =~= "setup_"@);
        },
        ButtonType::SetupRed => {
            reveal_strlit("setup_red");
            assert(s.subrange(0, 6) =~= "setup_"@);
        },
        ButtonType::SetupBlue => {
            reveal_strlit("setup_blue");
            assert(s.subrange(0, 6) =~= "setup_"@);
        },
        ButtonType::SetupRunner => {
            reveal_strlit("setup_runner");
            assert(s.subrange(0, 6) =~= "setup_"@);
        },
        ButtonType::SetupAdmin => {
            reveal_strlit("setup_admin");
            assert(s.subrange(0, 6) =~= "setup_"@);
        },
        ButtonType::InitDashboard => {
            reveal_strlit("init_dashboard");
            assert(s.subrange(0, 5) =~= "init_"@);
        },
        ButtonType::InitQueue => {
            reveal_strlit("init_queue");
            assert(s.subrange(0, 5) =~= "init_"@);
        },
        ButtonType::InitQueueVc => {
            reveal_strlit("init_queuevc");
            assert(s.subrange(0, 5) =~= "init_"@);
        },
        ButtonType::InitRed => {
            reveal_strlit("init_red");
            assert(s.subrange(0, 5) =~= "init_"@);
        },
        ButtonType::InitBlue => {
            reveal_strlit("init_blue");
            assert(s.subrange(0, 5) =~= "init_"@);
        },
        ButtonType::InitRunner => {
            reveal_strlit("init_runner");
            assert(s.subrange(0, 5) =~= "init_"@);
        },
        ButtonType::InitAdmin => {
            reveal_strlit("init_admin");
            assert(s.subrange(0, 5) =~= "init_"@);
        },
        ButtonType::InitQuota => {
            reveal_strlit("init_quota");
            assert(s.subrange(0, 5) =~= "init_"@);
        },
        ButtonType::CategoryLinkDashboard => {
            reveal_strlit("categorylink_dashboard");
            assert(s.subrange(0, 13) =~= "categorylink_"@);
        },
        ButtonType::CategoryLinkQueue => {
            reveal_strlit("categorylink_queue");
            assert(s.subrange(0, 13) =~= "categorylink_"@);
        },
        ButtonType::CategoryLinkQueueVc => {
            reveal_strlit("categorylink_queuevc");
            assert(s.subrange(0, 13) =~= "categorylink_"@);
        },
        ButtonType::CategoryLinkRed => {
            reveal_strlit("categorylink_red");
            assert(s.subrange(0, 13) =~= "categorylink_"@);
        },
        ButtonType::CategoryLinkBlue => {
            reveal_strlit("categorylink_blue");
            assert(s.subrange(0, 13) =~= "categorylink_"@);
        },
        ButtonType::DashboardJoin => {
            reveal_strlit("join_queue");
            lemma_not_prefix(s, "setup_"@, 0);
            lemma_not_prefix(s, "init_"@, 0);
            lemma_not_prefix(s, "categorylink_"@, 0);
        },
        ButtonType::DashboardLeave => {
            reveal_strlit("leave_queue");
            lemma_not_prefix(s, "setup_"@, 0);
            lemma_not_prefix(s, "init_"@, 0);
            lemma_not_prefix(s, "categorylink_"@, 0);
        },
        ButtonType::DashboardShuffle => {
            reveal_strlit("shuffle_teams");
            lemma_not_prefix(s, "setup_"@, 1);
            lemma_not_prefix(s, "init_"@, 0);
            lemma_not_prefix(s, "categorylink_"@, 0);
        },
        ButtonType::DashboardStart => {
            reveal_strlit("start_match");
            lemma_not_prefix(s, "setup_"@, 1);
            lemma_not_prefix(s, "init_"@, 0);
            lemma_not_prefix(s, "categorylink_"@, 0);
        },
        ButtonType::DashboardEnd => {
            reveal_strlit("end_match");
            lemma_not_prefix(s, "setup_"@, 0);
            lemma_not_prefix(s, "init_"@, 0);
            lemma_not_prefix(s, "categorylink_"@, 0);
        },
        ButtonType::DashboardCancel => {
            reveal_strlit("cancel_match");
            lemma_not_prefix(s, "setup_"@, 0);
            lemma_not_prefix(s, "init_"@, 0);
            lemma_not_prefix(s, "categorylink_"@, 2);
        },
        ButtonType::DashboardReportScore => {
            reveal_strlit("report_score");
            lemma_not_prefix(s, "setup_"@, 0);
            lemma_not_prefix(s, "init_"@, 0);
            lemma_not_prefix(s, "categorylink_"@, 0);
        },
        ButtonType::ConfirmPermissions => {
            reveal_strlit("confirm_permissions");
            lemma_not_prefix(s, "setup_"@, 0);
            lemma_not_prefix(s, "init_"@, 0);
            lemma_not_prefix(s, "categorylink_"@, 1);
        },
        ButtonType::CreateRankRolesYes => {
            reveal_strlit("create_rank_roles_yes");
            lemma_not_prefix(s, "setup_"@, 0);
            lemma_not_prefix(s, "init_"@, 0);
            lemma_not_prefix(s, "categorylink_"@, 1);
        },
        ButtonType::CreateRankRolesNo => {
            reveal_strlit("create_rank_roles_no");
            lemma_not_prefix(s, "setup_"@, 0);
            lemma_not_prefix(s, "init_"@, 0);
            lemma_not_prefix(s, "categorylink_"@, 1);
        },
        ButtonType::Unknown(_) => {},
    }
}

/// The format id of a dashboard button: the second `:`-separated field of
/// its custom id read as a `u8`, or 0.
pub open spec fn spec_parse_fmt_id(parts: Seq<Seq<char>>) -> u8 {
    if parts.len() > 1 {
        match parse_u8_spec(parts[1]) {
            Some(v) => v,
            None => 0,
        }
    } else {
        0
    }
}

/// Parse the format id from the fields of a button custom id
/// (`action:fmt_id`): the second field read as a `u8`; 0 when it is missing
/// or invalid.
pub fn parse_fmt_id(parts: &[&str]) -> (r: u8)
    ensures
        r == spec_parse_fmt_id(parts@.map_values(|p: &str| p@)),
{
    if parts.len() > 1 {
        match parse_u8(parts[1]) {
            Some(v) => v,
            None => 0,
        }
    } else {
        0
    }
}

/// The action and format id of a dashboard button custom id
/// (`action` or `action:fmt_id`).
pub fn dashboard_action(custom_id: &str) -> (r: (String, u8))
    ensures
        r.0@ == split_spec(custom_id@, ':')[0],
        r.1 == spec_parse_fmt_id(split_spec(custom_id@, ':')),
{
    let parts = split_on(custom_id, ':');
    let ghost pv = parts@.map_values(|x: String| x@);
    proof {
        crate::parse::lemma_split_nonempty(custom_id@, ':', 0);
    }
    let action = parts[0].clone();
    let fmt_id = if parts.len() > 1 {
        match parse_u8(parts[1].as_str()) {
            Some(v) => v,
            None => 0,
        }
    } else {
        0
    };
    assert(pv[0] == parts@[0]@);
    (action, fmt_id)
}

} // verus!
