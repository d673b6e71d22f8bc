//! The one-command server setup: create the runner and admin roles, the
//! rank roles, a category's channels and its dashboard, then save the
//! category. Each step is outside work; this module decides, from what a
//! step gave back, what comes next and what the admin is told.

use vstd::prelude::*;
use vstd::string::*;
use crate::text::{dec, push_dec};
use crate::config::DEFAULT_QUOTA;

verus! {

/// Where the setup stands: which result it waits for.
#[derive(Debug, Clone, Copy, PartialEq, Eq, Structural)]
pub enum SetupStage {
    /// Waiting for the check that the caller is an admin.
    CheckAdmin,
    AwaitRunnerRole,
    AwaitAdminRole,
    /// The role ids are being saved and the rank roles created (failures
    /// there are only logged).
    AwaitRankRoles,
    AwaitChannels,
    AwaitDashboard,
    AwaitGroup,
    /// Done, successfully or not.
    Finished,
}

/// The channels created for the new category.
#[derive(Debug, Clone, Copy, PartialEq, Eq, Structural)]
pub struct SetupChannels {
    pub category: u64,
    pub dashboard: u64,
    pub queue: u64,
    pub queue_vc: u64,
    pub red: u64,
    pub blue: u64,
}

/// What the setup knows so far.
#[derive(Debug, Clone, Copy, PartialEq, Eq, Structural)]
pub struct SetupState {
    pub stage: SetupStage,
    pub runner_role: u64,
    pub admin_role: u64,
    pub channels: SetupChannels,
    pub dashboard_msg: u64,
}

/// What a step of outside work gave back.
pub enum SetupEvent {
    AdminChecked(bool),
    RunnerRole(Result<u64, String>),
    AdminRole(Result<u64, String>),
    RankRolesDone,
    Channels(Result<SetupChannels, String>),
    /// The dashboard message's id, or why it could not be posted.
    DashboardPublished(Result<u64, String>),
    /// The saved category's id, or the database's error.
    GroupSaved(Result<u64, String>),
}

/// What the caller does next.
pub enum SetupAction {
    /// Answer with this private message and stop.
    Refuse(String),
    /// Show the loading message, then create the runner role.
    CreateRunnerRole,
    CreateAdminRole,
    /// Save both role ids in the guild's configuration, then create the
    /// rank roles.
    SaveRolesAndCreateRankRoles { runner: u64, admin: u64 },
    CreateChannels,
    /// Post the dashboard in this channel.
    PublishDashboard(u64),
    /// Save the category with these channels, dashboard message and quota.
    SaveGroup { channels: SetupChannels, dashboard_msg: u64, quota: u8 },
    /// Delete the message (channel, message) if any and these channels,
    /// then show the failure with this description.
    Fail { description: String, delete_message: Option<(u64, u64)>, delete_channels: Vec<u64> },
    /// Show the success with this description.
    Succeed(String),
    /// The result does not belong to the current step: nothing to do.
    Ignore,
}

/// A `SetupAction` as plain values.
pub enum ActionView {
    Refuse(Seq<char>),
    CreateRunnerRole,
    CreateAdminRole,
    SaveRolesAndCreateRankRoles { runner: u64, admin: u64 },
    CreateChannels,
    PublishDashboard(u64),
    SaveGroup { channels: SetupChannels, dashboard_msg: u64, quota: u8 },
    Fail { description: Seq<char>, delete_message: Option<(u64, u64)>, delete_channels: Seq<u64> },
    Succeed(Seq<char>),
    Ignore,
}

impl SetupAction {
    pub open spec fn view(&self) -> ActionView {
        match self {
            SetupAction::Refuse(s) => ActionView::Refuse(s@),
            SetupAction::CreateRunnerRole => ActionView::CreateRunnerRole,
            SetupAction::CreateAdminRole => ActionView::CreateAdminRole,
            SetupAction::SaveRolesAndCreateRankRoles { runner, admin } =>
                ActionView::SaveRolesAndCreateRankRoles { runner: *runner, admin: *admin },
            SetupAction::CreateChannels => ActionView::CreateChannels,
            SetupAction::PublishDashboard(c) => ActionView::PublishDashboard(*c),
            SetupAction::SaveGroup { channels, dashboard_msg, quota } =>
                ActionView::SaveGroup { channels: *channels, dashboard_msg: *dashboard_msg, quota: *quota },
            SetupAction::Fail { description, delete_message, delete_channels } =>
                ActionView::Fail { description: description@, delete_message: *delete_message, delete_channels: delete_channels@ },
            SetupAction::Succeed(s) => ActionView::Succeed(s@),
            SetupAction::Ignore => ActionView::Ignore,
        }
    }
}

/// A `SetupEvent` as plain values.
pub enum EventView {
    AdminChecked(bool),
    RunnerRole(Result<u64, Seq<char>>),
    AdminRole(Result<u64, Seq<char>>),
    RankRolesDone,
    Channels(Result<SetupChannels, Seq<char>>),
    DashboardPublished(Result<u64, Seq<char>>),
    GroupSaved(Result<u64, Seq<char>>),
}

/// A result with its error as characters.
pub open spec fn res_view<T>(r: Result<T, String>) -> Result<T, Seq<char>> {
    match r {
        Ok(v) => Ok(v),
        Err(e) => Err(e@),
    }
}

impl SetupEvent {
    pub open spec fn view(&self) -> EventView {
        match self {
            SetupEvent::AdminChecked(b) => EventView::AdminChecked(*b),
            SetupEvent::RunnerRole(r) => EventView::RunnerRole(res_view(*r)),
            SetupEvent::AdminRole(r) => EventView::AdminRole(res_view(*r)),
            SetupEvent::RankRolesDone => EventView::RankRolesDone,
            SetupEvent::Channels(r) => EventView::Channels(res_view(*r)),
            SetupEvent::DashboardPublished(r) => EventView::DashboardPublished(res_view(*r)),
            SetupEvent::GroupSaved(r) => EventView::GroupSaved(res_view(*r)),
        }
    }
}

/// The state a setup starts in.
pub open spec fn initial_spec() -> SetupState {
    SetupState {
        stage: SetupStage::CheckAdmin,
        runner_role: 0,
        admin_role: 0,
        channels: SetupChannels { category: 0, dashboard: 0, queue: 0, queue_vc: 0, red: 0, blue: 0 },
        dashboard_msg: 0,
    }
}

/// The state a setup starts in.
pub fn initial_setup() -> (r: SetupState)
    ensures
        r == initial_spec(),
{
    SetupState {
        stage: SetupStage::CheckAdmin,
        runner_role: 0,
        admin_role: 0,
        channels: SetupChannels { category: 0, dashboard: 0, queue: 0, queue_vc: 0, red: 0, blue: 0 },
        dashboard_msg: 0,
    }
}

/// The channels deleted when the setup fails after they were made: the
/// dashboard, queue text, queue voice, red, blue and then the category.
pub open spec fn cleanup_list(c: SetupChannels) -> Seq<u64> {
    seq![c.dashboard, c.queue, c.queue_vc, c.red, c.blue, c.category]
}

/// `<#{id}>`: a channel mention.
pub open spec fn channel_mention(id: u64) -> Seq<char> {
    "<#"@ + dec(id as nat) + ">"@
}

/// What the admin reads when the setup succeeded.
pub open spec fn success_text(st: SetupState) -> Seq<char> {
    "PUG bot is now fully configured!\n\n**Roles Created:**\n• Runner: <@&"@ + dec(st.runner_role as nat)
        + ">\n• Admin: <@&"@ + dec(st.admin_role as nat)
        + ">\n• Rank Roles: Created\n\n**Group Created:**\n• Dashboard: "@ + channel_mention(st.channels.dashboard)
        + "\n• Queue Text: "@ + channel_mention(st.channels.queue)
        + "\n• Queue Voice: "@ + channel_mention(st.channels.queue_vc)
        + "\n• Red Team: "@ + channel_mention(st.channels.red)
        + "\n• Blue Team: "@ + channel_mention(st.channels.blue)
        + "\n• Category: "@ + channel_mention(st.channels.category)
        + "\n\n**Ready to use!** Players can join the queue now."@
}

/// A finished state with the rest kept.
pub open spec fn finished(st: SetupState) -> SetupState {
    SetupState { stage: SetupStage::Finished, ..st }
}

/// A failure with nothing to delete.
pub open spec fn plain_fail(d: Seq<char>) -> ActionView {
    ActionView::Fail { description: d, delete_message: None, delete_channels: Seq::empty() }
}

/// The next state and action of the setup, from its state and the result
/// of the step it waited for.
pub open spec fn setup_step_spec(st: SetupState, ev: EventView) -> (SetupState, ActionView) {
    match (st.stage, ev) {
        (SetupStage::CheckAdmin, EventView::AdminChecked(ok)) =>
            if ok {
                (SetupState { stage: SetupStage::AwaitRunnerRole, ..st }, ActionView::CreateRunnerRole)
            } else {
                (finished(st), ActionView::Refuse("Only admins can run setup!"@))
            },
        (SetupStage::AwaitRunnerRole, EventView::RunnerRole(r)) => match r {
            Ok(id) => (SetupState { stage: SetupStage::AwaitAdminRole, runner_role: id, ..st }, ActionView::CreateAdminRole),
            Err(e) => (finished(st), plain_fail("Failed to create Runner role: "@ + e)),
        },
        (SetupStage::AwaitAdminRole, EventView::AdminRole(r)) => match r {
            Ok(id) => (
                SetupState { stage: SetupStage::AwaitRankRoles, admin_role: id, ..st },
                ActionView::SaveRolesAndCreateRankRoles { runner: st.runner_role, admin: id },
            ),
            Err(e) => (finished(st), plain_fail("Failed to create Admin role: "@ + e)),
        },
        (SetupStage::AwaitRankRoles, EventView::RankRolesDone) =>
            (SetupState { stage: SetupStage::AwaitChannels, ..st }, ActionView::CreateChannels),
        (SetupStage::AwaitChannels, EventView::Channels(r)) => match r {
            Ok(c) => (SetupState { stage: SetupStage::AwaitDashboard, channels: c, ..st }, ActionView::PublishDashboard(c.dashboard)),
            Err(e) => (finished(st), plain_fail("Failed to create channels: "@ + e + "\n\nRoles were created successfully."@)),
        },
        (SetupStage::AwaitDashboard, EventView::DashboardPublished(r)) => match r {
            Ok(m) => (
                SetupState { stage: SetupStage::AwaitGroup, dashboard_msg: m, ..st },
                ActionView::SaveGroup { channels: st.channels, dashboard_msg: m, quota: DEFAULT_QUOTA },
            ),
            Err(e) => (finished(st), ActionView::Fail {
                description: "Failed to create dashboard: "@ + e + "\n\nChannels were cleaned up. Roles remain."@,
                delete_message: None,
                delete_channels: cleanup_list(st.channels),
            }),
        },
        (SetupStage::AwaitGroup, EventView::GroupSaved(r)) => match r {
            Ok(_) => (finished(st), ActionView::Succeed(success_text(st))),
            Err(e) => (finished(st), ActionView::Fail {
                description: "Failed to save group to database: "@ + e + "\n\nChannels were cleaned up. Roles remain."@,
                delete_message: Some((st.channels.dashboard, st.dashboard_msg)),
                delete_channels: cleanup_list(st.channels),
            }),
        },
        _ => (st, ActionView::Ignore),
    }
}

fn push_mention(out: &mut String, id: u64)
    ensures
        final(out)@ == old(out)@ + channel_mention(id),
{
    out.append("<#");
    push_dec(out, id);
    out.append(">");
}

fn success_text_exec(st: &SetupState) -> (r: String)
    ensures
        r@ == success_text(*st),
{
    let mut s = String::from_str("PUG bot is now fully configured!\n\n**Roles Created:**\n• Runner: <@&");
    push_dec(&mut s, st.runner_role);
    s.append(">\n• Admin: <@&");
    push_dec(&mut s, st.admin_role);
    s.append(">\n• Rank Roles: Created\n\n**Group Created:**\n• Dashboard: ");
    push_mention(&mut s, st.channels.dashboard);
    s.append("\n• Queue Text: ");
    push_mention(&mut s, st.channels.queue);
    s.append("\n• Queue Voice: ");
    push_mention(&mut s, st.channels.queue_vc);
    s.append("\n• Red Team: ");
    push_mention(&mut s, st.channels.red);
    s.append("\n• Blue Team: ");
    push_mention(&mut s, st.channels.blue);
    s.append("\n• Category: ");
    push_mention(&mut s, st.channels.category);
    s.append("\n\n**Ready to use!** Players can join the queue now.");
    assert(s@ =~= success_text(*st));
    s
}

fn cleanup_vec(c: &SetupChannels) -> (r: Vec<u64>)
    ensures
        r@ == cleanup_list(*c),
{
    let v = vec![c.dashboard, c.queue, c.queue_vc, c.red, c.blue, c.category];
    assert(v@ =~= cleanup_list(*c));
    v
}

fn concat(a: &str, b: &str) -> (r: String)
    ensures
        r@ == a@ + b@,
{
    let mut s = String::from_str(a);
    s.append(b);
    s
}

fn concat3(a: &str, b: &str, c: &str) -> (r: String)
    ensures
        r@ == a@ + b@ + c@,
{
    let mut s = String::from_str(a);
    s.append(b);
    s.append(c);
    s
}

fn fail_plain(d: String) -> (r: SetupAction)
    ensures
        r.view() == plain_fail(d@),
{
    let v: Vec<u64> = Vec::new();
    assert(v@ =~= Seq::<u64>::empty());
    SetupAction::Fail { description: d, delete_message: None, delete_channels: v }
}

/// Decides the next state and action of the setup from the result of the
/// step it waited for.
pub fn setup_step(st: SetupState, ev: SetupEvent) -> (r: (SetupState, SetupAction))
    ensures
        r.0 == setup_step_spec(st, ev.view()).0,
        r.1.view() == setup_step_spec(st, ev.view()).1,
{
    let done = SetupState { stage: SetupStage::Finished, ..st };
    match (st.stage, ev) {
        (SetupStage::CheckAdmin, SetupEvent::AdminChecked(ok)) => {
            if ok {
                (SetupState { stage: SetupStage::AwaitRunnerRole, ..st }, SetupAction::CreateRunnerRole)
            } else {
                (done, SetupAction::Refuse(String::from_str("Only admins can run setup!")))
            }
        },
        (SetupStage::AwaitRunnerRole, SetupEvent::RunnerRole(r)) => match r {
            Ok(id) => (SetupState { stage: SetupStage::AwaitAdminRole, runner_role: id, ..st }, SetupAction::CreateAdminRole),
            Err(e) => (done, fail_plain(concat("Failed to create Runner role: ", e.as_str()))),
        },
        (SetupStage::AwaitAdminRole, SetupEvent::AdminRole(r)) => match r {
            Ok(id) => (
                SetupState { stage: SetupStage::AwaitRankRoles, admin_role: id, ..st },
                SetupAction::SaveRolesAndCreateRankRoles { runner: st.runner_role, admin: id },
            ),
            Err(e) => (done, fail_plain(concat("Failed to create Admin role: ", e.as_str()))),
        },
        (SetupStage::AwaitRankRoles, SetupEvent::RankRolesDone) =>
            (SetupState { stage: SetupStage::AwaitChannels, ..st }, SetupAction::CreateChannels),
        (SetupStage::AwaitChannels, SetupEvent::Channels(r)) => match r {
            Ok(c) => (SetupState { stage: SetupStage::AwaitDashboard, channels: c, ..st }, SetupAction::PublishDashboard(c.dashboard)),
            Err(e) => (done, fail_plain(concat3("Failed to create channels: ", e.as_str(), "\n\nRoles were created successfully."))),
        },
        (SetupStage::AwaitDashboard, SetupEvent::DashboardPublished(r)) => match r {
            Ok(m) => (
                SetupState { stage: SetupStage::AwaitGroup, dashboard_msg: m, ..st },
                SetupAction::SaveGroup { channels: st.channels, dashboard_msg: m, quota: DEFAULT_QUOTA },
            ),
            Err(e) => (done, SetupAction::Fail {
                description: concat3("Failed to create dashboard: ", e.as_str(), "\n\nChannels were cleaned up. Roles remain."),
                delete_message: None,
                delete_channels: cleanup_vec(&st.channels),
            }),
        },
        (SetupStage::AwaitGroup, SetupEvent::GroupSaved(r)) => match r {
            Ok(_) => (done, SetupAction::Succeed(success_text_exec(&st))),
            Err(e) => (done, SetupAction::Fail {
                description: concat3("Failed to save group to database: ", e.as_str(), "\n\nChannels were cleaned up. Roles remain."),
                delete_message: Some((st.channels.dashboard, st.dashboard_msg)),
                delete_channels: cleanup_vec(&st.channels),
            }),
        },
        _ => (st, SetupAction::Ignore),
    }
}

/// Once the channels exist, a setup that fails deletes every channel it
/// created, and the group is only saved with the channels and dashboard
/// message it made; a finished setup ignores every further result.
pub proof fn lemma_setup_cleans_up(st: SetupState, ev: EventView)
    ensures
        ({
            let (next, act) = setup_step_spec(st, ev);
            &&& (st.stage == SetupStage::AwaitDashboard || st.stage == SetupStage::AwaitGroup) ==>
                (act matches ActionView::Fail { delete_channels, .. } ==> delete_channels == cleanup_list(st.channels))
            &&& act matches ActionView::SaveGroup { channels, dashboard_msg, .. } ==>
                channels == st.channels && dashboard_msg == next.dashboard_msg
            &&& st.stage == SetupStage::Finished ==> next == st && act == ActionView::Ignore
        }),
{
}

} // verus!
