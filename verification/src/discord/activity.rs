//! The activity that Discord shows on the player's profile.

use vstd::prelude::*;

verus! {

/// What the player is doing, as Discord words it.
#[derive(Debug, Clone, Copy, PartialEq, Eq, Structural)]
pub enum ActivityType {
    Playing,
    Streaming,
    Listening,
    Watching,
    Custom,
    Competing,
}

impl Default for ActivityType {
    fn default() -> (t: ActivityType)
        ensures
            t == ActivityType::Playing,
    {
        ActivityType::Playing
    }
}

/// Which field of the activity Discord shows in the status line.
#[derive(Debug, Clone, Copy, PartialEq, Eq, Structural)]
pub enum StatusDisplayType {
    Name,
    State,
    Details,
}

impl Default for StatusDisplayType {
    fn default() -> (t: StatusDisplayType)
        ensures
            t == StatusDisplayType::Name,
    {
        StatusDisplayType::Name
    }
}

/// When the activity started and ends (seconds since the Unix epoch).
#[derive(Debug, Clone, Copy, PartialEq, Eq, Structural)]
pub struct ActivityTimestamps {
    pub end: Option<i64>,
    pub start: Option<i64>,
}

/// The images of the activity and their texts.
#[derive(Debug, Clone, PartialEq, Eq)]
pub struct ActivityAssets {
    pub large_image: Option<String>,
    pub large_text: Option<String>,
    pub large_url: Option<String>,
    pub small_image: Option<String>,
    pub small_text: Option<String>,
    pub small_url: Option<String>,
}

/// A button under the activity.
#[derive(Debug, Clone, PartialEq, Eq)]
pub struct ActivityButton {
    pub label: String,
    pub url: String,
}

/// The activity shown on the player's profile.
#[derive(Debug, Clone, PartialEq, Eq)]
pub struct Activity {
    pub name: String,
    pub activity_type: ActivityType,
    pub created_at: i64,
    pub status_display_type: StatusDisplayType,
    pub application_id: Option<String>,
    pub details: Option<String>,
    pub details_url: Option<String>,
    pub state: Option<String>,
    pub state_url: Option<String>,
    pub timestamps: Option<ActivityTimestamps>,
    pub assets: Option<ActivityAssets>,
    pub url: Option<String>,
    pub buttons: Option<Vec<ActivityButton>>,
}

/// [`ActivityAssets`] with its texts as character sequences.
pub struct AssetsModel {
    pub large_image: Option<Seq<char>>,
    pub large_text: Option<Seq<char>>,
    pub large_url: Option<Seq<char>>,
    pub small_image: Option<Seq<char>>,
    pub small_text: Option<Seq<char>>,
    pub small_url: Option<Seq<char>>,
}

/// [`ActivityButton`] with its texts as character sequences.
pub struct ButtonModel {
    pub label: Seq<char>,
    pub url: Seq<char>,
}

/// [`Activity`] with its texts as character sequences.
pub struct ActivityModel {
    pub name: Seq<char>,
    pub activity_type: ActivityType,
    pub created_at: i64,
    pub status_display_type: StatusDisplayType,
    pub application_id: Option<Seq<char>>,
    pub details: Option<Seq<char>>,
    pub details_url: Option<Seq<char>>,
    pub state: Option<Seq<char>>,
    pub state_url: Option<Seq<char>>,
    pub timestamps: Option<ActivityTimestamps>,
    pub assets: Option<AssetsModel>,
    pub url: Option<Seq<char>>,
    pub buttons: Option<Seq<ButtonModel>>,
}

impl View for ActivityAssets {
    type V = AssetsModel;

    open spec fn view(&self) -> AssetsModel {
        AssetsModel {
            large_image: self.large_image.deep_view(),
            large_text: self.large_text.deep_view(),
            large_url: self.large_url.deep_view(),
            small_image: self.small_image.deep_view(),
            small_text: self.small_text.deep_view(),
            small_url: self.small_url.deep_view(),
        }
    }
}

impl DeepView for ActivityAssets {
    type V = AssetsModel;

    open spec fn deep_view(&self) -> AssetsModel {
        self@
    }
}

impl View for ActivityButton {
    type V = ButtonModel;

    open spec fn view(&self) -> ButtonModel {
        ButtonModel { label: self.label@, url: self.url@ }
    }
}

impl DeepView for ActivityButton {
    type V = ButtonModel;

    open spec fn deep_view(&self) -> ButtonModel {
        self@
    }
}

impl View for Activity {
    type V = ActivityModel;

    open spec fn view(&self) -> ActivityModel {
        ActivityModel {
            name: self.name@,
            activity_type: self.activity_type,
            created_at: self.created_at,
            status_display_type: self.status_display_type,
            application_id: self.application_id.deep_view(),
            details: self.details.deep_view(),
            details_url: self.details_url.deep_view(),
            state: self.state.deep_view(),
            state_url: self.state_url.deep_view(),
            timestamps: self.timestamps,
            assets: self.assets.deep_view(),
            url: self.url.deep_view(),
            buttons: self.buttons.deep_view(),
        }
    }
}

/// Assets without any image or text.
pub open spec fn empty_assets() -> AssetsModel {
    AssetsModel {
        large_image: None,
        large_text: None,
        large_url: None,
        small_image: None,
        small_text: None,
        small_url: None,
    }
}

/// An activity named `name`, of type `Playing`, with nothing else set.
pub open spec fn plain_activity(name: Seq<char>) -> ActivityModel {
    ActivityModel {
        name,
        activity_type: ActivityType::Playing,
        created_at: 0,
        status_display_type: StatusDisplayType::Name,
        application_id: None,
        details: None,
        details_url: None,
        state: None,
        state_url: None,
        timestamps: None,
        assets: None,
        url: None,
        buttons: None,
    }
}

impl Default for ActivityAssets {
    fn default() -> (assets: ActivityAssets)
        ensures
            assets@ == empty_assets(),
    {
        ActivityAssets {
            large_image: None,
            large_text: None,
            large_url: None,
            small_image: None,
            small_text: None,
            small_url: None,
        }
    }
}

impl Default for Activity {
    fn default() -> (activity: Activity)
        ensures
            activity@ == plain_activity(Seq::empty()),
    {
        Activity {
            name: String::new(),
            activity_type: ActivityType::Playing,
            created_at: 0,
            status_display_type: StatusDisplayType::Name,
            application_id: None,
            details: None,
            details_url: None,
            state: None,
            state_url: None,
            timestamps: None,
            assets: None,
            url: None,
            buttons: None,
        }
    }
}

} // verus!
