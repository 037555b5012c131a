//! What an entry point hands back to its host: the effects to perform on the
//! session surface and the event channel, in order, and the call's status.

use crate::script::{script_text, TaskModel};
use vstd::prelude::*;

verus! {

/// `serde_json::Value`, declared as an opaque type: a JSON value travels
/// through the coordinator unread.
#[verifier::external_type_specification]
#[verifier::external_body]
pub struct ExJsonValue(serde_json::Value);

/// Name of the event that carries a captured payload.
pub const RESULT_EVENT: &'static str = "scraper_result";

/// Name of the event that asks the user to log in.
pub const AUTH_EVENT: &'static str = "scraper_auth_required";

/// Key of the source id in the payload of either event.
pub const KEY_SOURCE_ID: &'static str = "sourceId";

/// Key of the caller's token in the payload of a result.
pub const KEY_SECRET_KEY: &'static str = "secretKey";

/// Key of the captured data in the payload of a result.
pub const KEY_DATA: &'static str = "data";

/// Key of the request URL in the payload of an authentication event.
pub const KEY_TARGET_URL: &'static str = "targetUrl";

/// Label under which the host keeps the one session surface.
pub const SURFACE_LABEL: &'static str = "scraper_worker";

/// Title of the session surface.
pub const SURFACE_TITLE: &'static str = "Background Worker";

/// Width of a surface that the user is not meant to see, in logical pixels.
pub const HIDDEN_WIDTH: u32 = 10;

/// Height of a surface that the user is not meant to see.
pub const HIDDEN_HEIGHT: u32 = 10;

/// Horizontal position of a surface that the user is not meant to see: far
/// off screen.
pub const HIDDEN_X: i32 = -10000;

/// Vertical position of a surface that the user is not meant to see.
pub const HIDDEN_Y: i32 = -10000;

/// Width of a revealed surface, in logical pixels.
pub const REVEALED_WIDTH: u32 = 800;

/// Height of a revealed surface.
pub const REVEALED_HEIGHT: u32 = 600;

/// Why a call failed.
#[derive(Debug, Clone, Copy, PartialEq, Eq, Structural)]
pub enum TaskError {
    /// The task's URL is not a well-formed absolute URL.
    InvalidTaskInput,
}

impl TaskError {
    /// The text of the error.
    pub open spec fn message_text(self) -> Seq<char> {
        "task url is not a well-formed absolute URL"@
    }

    /// The text of the error, for hosts that report failures as strings.
    pub fn message(&self) -> (text: String)
        ensures
            text@ == self.message_text(),
    {
        String::from_str("task url is not a well-formed absolute URL")
    }
}

/// An event for the UI layer.
#[derive(Debug, PartialEq)]
pub enum ScraperEvent {
    /// The payload captured for a source, with the caller's token.
    Result { source_id: String, secret_key: String, data: serde_json::Value },
    /// The target answered a matched request with an authentication failure.
    AuthRequired { source_id: String, target_url: String },
}

/// The mathematical value of a [`ScraperEvent`].
pub enum EventModel {
    Result { source_id: Seq<char>, secret_key: Seq<char>, data: serde_json::Value },
    AuthRequired { source_id: Seq<char>, target_url: Seq<char> },
}

impl View for ScraperEvent {
    type V = EventModel;

    open spec fn view(&self) -> EventModel {
        match self {
            ScraperEvent::Result { source_id, secret_key, data } => EventModel::Result {
                source_id: source_id@,
                secret_key: secret_key@,
                data: *data,
            },
            ScraperEvent::AuthRequired { source_id, target_url } => EventModel::AuthRequired {
                source_id: source_id@,
                target_url: target_url@,
            },
        }
    }
}

impl EventModel {
    /// The name under which the event is published.
    pub open spec fn name(self) -> Seq<char> {
        match self {
            EventModel::Result { .. } => RESULT_EVENT@,
            EventModel::AuthRequired { .. } => AUTH_EVENT@,
        }
    }
}

impl ScraperEvent {
    /// The name under which the event is published.
    pub fn name(&self) -> (name: &'static str)
        ensures
            name@ == self@.name(),
    {
        match self {
            ScraperEvent::Result { .. } => RESULT_EVENT,
            ScraperEvent::AuthRequired { .. } => AUTH_EVENT,
        }
    }
}

/// How to create the session surface for a task.
#[derive(Debug, PartialEq)]
pub struct SurfacePlan {
    pub title: String,
    /// Page to navigate to.
    pub url: String,
    /// Script to install before any script of the page runs.
    pub init_script: String,
    /// Whether the window is created as a visible one. A window that is
    /// not may have its page suspended by the system.
    pub visible: bool,
    pub width: u32,
    pub height: u32,
    pub x: i32,
    pub y: i32,
}

/// The mathematical value of a [`SurfacePlan`].
pub struct SurfacePlanModel {
    pub title: Seq<char>,
    pub url: Seq<char>,
    pub init_script: Seq<char>,
    pub visible: bool,
    pub width: u32,
    pub height: u32,
    pub x: i32,
    pub y: i32,
}

impl View for SurfacePlan {
    type V = SurfacePlanModel;

    open spec fn view(&self) -> SurfacePlanModel {
        SurfacePlanModel {
            title: self.title@,
            url: self.url@,
            init_script: self.init_script@,
            visible: self.visible,
            width: self.width,
            height: self.height,
            x: self.x,
            y: self.y,
        }
    }
}

/// The surface of a task: its page, with the interception script installed,
/// alive but small and off screen.
pub open spec fn surface_plan(task: TaskModel) -> SurfacePlanModel {
    SurfacePlanModel {
        title: SURFACE_TITLE@,
        url: task.url,
        init_script: script_text(task),
        visible: true,
        width: HIDDEN_WIDTH,
        height: HIDDEN_HEIGHT,
        x: HIDDEN_X,
        y: HIDDEN_Y,
    }
}

/// How to show the session surface to the user.
#[derive(Debug, Clone, Copy, PartialEq, Eq, Structural)]
pub struct RevealPlan {
    /// Whether the window gets its frame and title bar.
    pub decorated: bool,
    pub width: u32,
    pub height: u32,
    /// Whether the window is moved to the middle of the screen.
    pub centered: bool,
    /// Whether the window takes the input focus.
    pub focused: bool,
}

/// One thing for the host to do.
#[derive(Debug, PartialEq)]
pub enum Effect {
    /// Destroy the session surface and its page. Nothing to do if there is none.
    CloseSurface,
    /// Create the session surface.
    OpenSurface(SurfacePlan),
    /// Show the session surface as the plan says. Nothing to do if there is
    /// none.
    RevealSurface(RevealPlan),
    /// Publish an event to the UI layer.
    Publish(ScraperEvent),
    /// Append a line to the operational log.
    Log(String),
}

/// The mathematical value of an [`Effect`].
pub enum EffectModel {
    CloseSurface,
    OpenSurface(SurfacePlanModel),
    RevealSurface(RevealPlan),
    Publish(EventModel),
    Log(Seq<char>),
}

impl View for Effect {
    type V = EffectModel;

    open spec fn view(&self) -> EffectModel {
        match self {
            Effect::CloseSurface => EffectModel::CloseSurface,
            Effect::OpenSurface(plan) => EffectModel::OpenSurface(plan@),
            Effect::RevealSurface(plan) => EffectModel::RevealSurface(*plan),
            Effect::Publish(event) => EffectModel::Publish(event@),
            Effect::Log(line) => EffectModel::Log(line@),
        }
    }
}

/// The session surface as the user is to see it: decorated, at its working
/// size, centred and focused.
pub open spec fn reveal_plan() -> RevealPlan {
    RevealPlan {
        decorated: true,
        width: REVEALED_WIDTH,
        height: REVEALED_HEIGHT,
        centered: true,
        focused: true,
    }
}

/// The request to show the session surface.
pub open spec fn reveal_effect() -> EffectModel {
    EffectModel::RevealSurface(reveal_plan())
}

/// The answer of an entry point.
#[derive(Debug, PartialEq)]
pub struct Reply {
    /// Whether the call succeeded.
    pub status: Result<(), TaskError>,
    /// What the host is to do, in this order, whether or not the call succeeded.
    pub effects: Vec<Effect>,
}

/// The mathematical value of a [`Reply`].
pub struct ReplyModel {
    pub status: Result<(), TaskError>,
    pub effects: Seq<EffectModel>,
}

/// The mathematical values of a list of effects, in order.
pub open spec fn effects_model(effects: Seq<Effect>) -> Seq<EffectModel> {
    effects.map_values(|e: Effect| e@)
}

impl View for Reply {
    type V = ReplyModel;

    open spec fn view(&self) -> ReplyModel {
        ReplyModel { status: self.status, effects: effects_model(self.effects@) }
    }
}

/// A successful reply with the given effects.
pub open spec fn done(effects: Seq<EffectModel>) -> ReplyModel {
    ReplyModel { status: Ok(()), effects }
}

} // verus!
