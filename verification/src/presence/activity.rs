//! The payload that Discord is sent.
//!
//! An activity of the Discord crate is a record of optional fields. What is
//! said of one here is which fields it holds, and with what values.

use crate::mapper::types::{PresenceKind, PresenceState, PresenceTimestamps, PresenceView};
use discord_rich_presence::activity::{
    Activity, ActivityType, Assets, StatusDisplayType, Timestamps,
};
use vstd::prelude::*;

verus! {

/// The Discord crate's `Activity`, opaque.
#[verifier::external_type_specification]
#[verifier::external_body]
pub struct ExActivity<'a>(Activity<'a>);

/// The Discord crate's `Assets`, opaque.
#[verifier::external_type_specification]
#[verifier::external_body]
pub struct ExAssets<'a>(Assets<'a>);

/// The Discord crate's `Timestamps`, opaque.
#[verifier::external_type_specification]
#[verifier::external_body]
pub struct ExTimestamps(Timestamps);

/// A field of an activity.
pub enum ActivityField {
    /// The verb, as Discord's number for it.
    Verb,
    /// Overrides the application's name in the header.
    Name,
    /// Which field the member list shows, as Discord's number for it.
    StatusDisplay,
    Details,
    /// A link behind the details.
    DetailsUrl,
    State,
    /// A link behind the state.
    StateUrl,
    Assets,
    Timestamps,
    Party,
    Secrets,
    Buttons,
}

/// A field of the assets.
pub enum AssetField {
    LargeImage,
    LargeText,
    /// A link behind the large image.
    LargeUrl,
    SmallImage,
    SmallText,
    /// A link behind the small image.
    SmallUrl,
}

/// A bound of the progress bar.
pub enum TimeField {
    Start,
    End,
}

/// What a field of an activity holds.
pub enum FieldValue {
    Number(int),
    Text(Seq<char>),
    Assets(Map<AssetField, Seq<char>>),
    Timestamps(Map<TimeField, int>),
}

/// The fields that an activity holds, with their values.
pub uninterp spec fn activity_fields(activity: Activity) -> Map<ActivityField, FieldValue>;

/// The fields that assets hold, with their values.
pub uninterp spec fn asset_fields(assets: Assets) -> Map<AssetField, Seq<char>>;

/// The bounds that timestamps hold.
pub uninterp spec fn time_fields(timestamps: Timestamps) -> Map<TimeField, int>;

/// Discord's number for a verb.
pub open spec fn verb_number(kind: PresenceKind) -> int {
    match kind {
        PresenceKind::Watching => 3,
        PresenceKind::Listening => 2,
    }
}

/// Which line of a presence the member list shows.
#[derive(Debug, Clone, Copy, PartialEq, Eq)]
pub enum StatusLine {
    Name,
    State,
    Details,
}

/// Discord's number for showing a line in the member list.
pub open spec fn display_number(line: StatusLine) -> int {
    match line {
        StatusLine::Name => 0,
        StatusLine::State => 1,
        StatusLine::Details => 2,
    }
}

/// `Activity::new` holds no field.
#[verifier::external_body]
fn new_activity<'a>() -> (activity: Activity<'a>)
    ensures
        forall|field: ActivityField| !activity_fields(activity).contains_key(field),
{
    Activity::new()
}

/// `Activity::activity_type` sets the verb, and no other field. The crate
/// numbers the verbs as Discord does.
#[verifier::external_body]
fn with_verb<'a>(activity: Activity<'a>, kind: PresenceKind) -> (changed: Activity<'a>)
    ensures
        activity_fields(changed) == activity_fields(activity).insert(
            ActivityField::Verb,
            FieldValue::Number(verb_number(kind)),
        ),
{
    activity.activity_type(
        match kind {
            PresenceKind::Watching => ActivityType::Watching,
            PresenceKind::Listening => ActivityType::Listening,
        },
    )
}

/// `Activity::name` sets the name, and no other field.
#[verifier::external_body]
fn with_name<'a>(activity: Activity<'a>, name: &'a str) -> (changed: Activity<'a>)
    ensures
        activity_fields(changed) == activity_fields(activity).insert(
            ActivityField::Name,
            FieldValue::Text(name@),
        ),
{
    activity.name(name)
}

/// `Activity::status_display_type` sets the line that the member list shows,
/// and no other field. The crate numbers the lines as Discord does.
#[verifier::external_body]
fn with_status_line<'a>(activity: Activity<'a>, line: StatusLine) -> (changed: Activity<'a>)
    ensures
        activity_fields(changed) == activity_fields(activity).insert(
            ActivityField::StatusDisplay,
            FieldValue::Number(display_number(line)),
        ),
{
    activity.status_display_type(
        match line {
            StatusLine::Name => StatusDisplayType::Name,
            StatusLine::State => StatusDisplayType::State,
            StatusLine::Details => StatusDisplayType::Details,
        },
    )
}

/// `Activity::details` sets the details, and no other field.
#[verifier::external_body]
fn with_details<'a>(activity: Activity<'a>, details: &'a str) -> (changed: Activity<'a>)
    ensures
        activity_fields(changed) == activity_fields(activity).insert(
            ActivityField::Details,
            FieldValue::Text(details@),
        ),
{
    activity.details(details)
}

/// `Activity::state` sets the state, and no other field.
#[verifier::external_body]
fn with_state<'a>(activity: Activity<'a>, state: &'a str) -> (changed: Activity<'a>)
    ensures
        activity_fields(changed) == activity_fields(activity).insert(
            ActivityField::State,
            FieldValue::Text(state@),
        ),
{
    activity.state(state)
}

/// `Activity::assets` sets the assets, and no other field.
#[verifier::external_body]
fn with_assets<'a>(activity: Activity<'a>, assets: Assets<'a>) -> (changed: Activity<'a>)
    ensures
        activity_fields(changed) == activity_fields(activity).insert(
            ActivityField::Assets,
            FieldValue::Assets(asset_fields(assets)),
        ),
{
    activity.assets(assets)
}

/// `Activity::timestamps` sets the timestamps, and no other field.
#[verifier::external_body]
fn with_timestamps<'a>(activity: Activity<'a>, timestamps: Timestamps) -> (changed: Activity<'a>)
    ensures
        activity_fields(changed) == activity_fields(activity).insert(
            ActivityField::Timestamps,
            FieldValue::Timestamps(time_fields(timestamps)),
        ),
{
    activity.timestamps(timestamps)
}

/// `Assets::new` holds no field.
#[verifier::external_body]
fn new_assets<'a>() -> (assets: Assets<'a>)
    ensures
        forall|field: AssetField| !asset_fields(assets).contains_key(field),
{
    Assets::new()
}

/// `Assets::large_image` sets the image, and no other field.
#[verifier::external_body]
fn with_large_image<'a>(assets: Assets<'a>, image: &'a str) -> (changed: Assets<'a>)
    ensures
        asset_fields(changed) == asset_fields(assets).insert(AssetField::LargeImage, image@),
{
    assets.large_image(image)
}

/// `Assets::large_text` sets the hover text, and no other field.
#[verifier::external_body]
fn with_large_text<'a>(assets: Assets<'a>, text: &'a str) -> (changed: Assets<'a>)
    ensures
        asset_fields(changed) == asset_fields(assets).insert(AssetField::LargeText, text@),
{
    assets.large_text(text)
}

/// `Timestamps::new` holds no bound.
#[verifier::external_body]
fn new_timestamps() -> (timestamps: Timestamps)
    ensures
        forall|field: TimeField| !time_fields(timestamps).contains_key(field),
{
    Timestamps::new()
}

/// `Timestamps::start` sets the beginning, and not the end.
#[verifier::external_body]
fn with_start(timestamps: Timestamps, start: i64) -> (changed: Timestamps)
    ensures
        time_fields(changed) == time_fields(timestamps).insert(TimeField::Start, start as int),
{
    timestamps.start(start)
}

/// `Timestamps::end` sets the end, and not the beginning.
#[verifier::external_body]
fn with_end(timestamps: Timestamps, end: i64) -> (changed: Timestamps)
    ensures
        time_fields(changed) == time_fields(timestamps).insert(TimeField::End, end as int),
{
    timestamps.end(end)
}

/// What the assets of a presence hold in a field.
pub open spec fn asset_for(presence: PresenceView, field: AssetField) -> Option<Seq<char>> {
    match field {
        AssetField::LargeImage => presence.large_image,
        AssetField::LargeText => presence.large_text,
        _ => None,
    }
}

/// The assets of a presence.
pub open spec fn assets_for(presence: PresenceView) -> Map<AssetField, Seq<char>> {
    Map::new(
        |field: AssetField| asset_for(presence, field) is Some,
        |field: AssetField| asset_for(presence, field)->0,
    )
}

/// A bound of a progress bar.
pub open spec fn time_for(bounds: PresenceTimestamps, field: TimeField) -> Option<int> {
    match field {
        TimeField::Start => Some(bounds.start as int),
        TimeField::End => match bounds.end {
            Some(end) => Some(end as int),
            None => None,
        },
    }
}

/// The bounds of a progress bar.
pub open spec fn times_for(bounds: PresenceTimestamps) -> Map<TimeField, int> {
    Map::new(
        |field: TimeField| time_for(bounds, field) is Some,
        |field: TimeField| time_for(bounds, field)->0,
    )
}

/// What the payload of a presence holds in a field.
pub open spec fn value_for(presence: PresenceView, field: ActivityField) -> Option<FieldValue> {
    match field {
        ActivityField::Verb => Some(FieldValue::Number(verb_number(presence.kind))),
        ActivityField::Name => Some(FieldValue::Text(presence.name)),
        ActivityField::StatusDisplay => Some(
            FieldValue::Number(display_number(StatusLine::Details)),
        ),
        ActivityField::Details => Some(FieldValue::Text(presence.details)),
        ActivityField::State => match presence.state {
            Some(state) => Some(FieldValue::Text(state)),
            None => None,
        },
        ActivityField::Assets => if presence.large_image is Some || presence.large_text is Some {
            Some(FieldValue::Assets(assets_for(presence)))
        } else {
            None
        },
        ActivityField::Timestamps => match presence.timestamps {
            Some(bounds) => Some(FieldValue::Timestamps(times_for(bounds))),
            None => None,
        },
        ActivityField::DetailsUrl | ActivityField::StateUrl | ActivityField::Party
        | ActivityField::Secrets | ActivityField::Buttons => None,
    }
}

/// The payload of a presence: what is absent in the presence is absent in the
/// payload, and nothing else is in it.
pub open spec fn payload_for(presence: PresenceView) -> Map<ActivityField, FieldValue> {
    Map::new(
        |field: ActivityField| value_for(presence, field) is Some,
        |field: ActivityField| value_for(presence, field)->0,
    )
}

/// No link, button, party or secret is ever sent, and of images only the large
/// one.
pub proof fn law_nothing_else_is_sent(presence: PresenceView)
    ensures
        !payload_for(presence).contains_key(ActivityField::DetailsUrl),
        !payload_for(presence).contains_key(ActivityField::StateUrl),
        !payload_for(presence).contains_key(ActivityField::Party),
        !payload_for(presence).contains_key(ActivityField::Secrets),
        !payload_for(presence).contains_key(ActivityField::Buttons),
        !assets_for(presence).contains_key(AssetField::LargeUrl),
        !assets_for(presence).contains_key(AssetField::SmallImage),
        !assets_for(presence).contains_key(AssetField::SmallText),
        !assets_for(presence).contains_key(AssetField::SmallUrl),
{
}

/// Build the Discord payload from our owned state.
///
/// The activity borrows from `state`; the borrow happens at the last possible
/// moment, immediately before sending.
pub fn build_activity(state: &PresenceState) -> (activity: Activity<'_>)
    ensures
        activity_fields(activity) == payload_for(state@),
{
    // The member list shows the item's title rather than the name of the app.
    let mut activity = with_details(
        with_status_line(
            with_name(with_verb(new_activity(), state.kind), state.name.as_str()),
            StatusLine::Details,
        ),
        state.details.as_str(),
    );
    if let Some(text) = &state.state {
        activity = with_state(activity, text.as_str());
    }
    if state.large_image.is_some() || state.large_text.is_some() {
        let mut assets = new_assets();
        if let Some(image) = &state.large_image {
            assets = with_large_image(assets, image.as_str());
        }
        if let Some(text) = &state.large_text {
            assets = with_large_text(assets, text.as_str());
        }
        assert(asset_fields(assets) =~= assets_for(state@));
        activity = with_assets(activity, assets);
    }
    if let Some(bounds) = state.timestamps {
        let mut timestamps = with_start(new_timestamps(), bounds.start);
        if let Some(end) = bounds.end {
            timestamps = with_end(timestamps, end);
        }
        assert(time_fields(timestamps) =~= times_for(bounds));
        activity = with_timestamps(activity, timestamps);
    }
    assert(activity_fields(activity) =~= payload_for(state@));
    activity
}

/// The payload always names the verb by Discord's number for it, the name and
/// the details, and has the member list show the details.
pub proof fn law_payload_always_says_what_is_played(presence: PresenceState)
    ensures
        ({
            let payload = payload_for(presence@);
            &&& payload.contains_key(ActivityField::Verb)
            &&& presence.kind is Watching ==> payload[ActivityField::Verb] == FieldValue::Number(3)
            &&& presence.kind is Listening ==> payload[ActivityField::Verb] == FieldValue::Number(2)
            &&& payload.contains_key(ActivityField::Name)
            &&& payload[ActivityField::Name] == FieldValue::Text(presence.name@)
            &&& payload.contains_key(ActivityField::Details)
            &&& payload[ActivityField::Details] == FieldValue::Text(presence.details@)
            &&& payload.contains_key(ActivityField::StatusDisplay)
            &&& payload[ActivityField::StatusDisplay] == FieldValue::Number(2)
        }),
{
}

/// The payload has a second line exactly when the presence has one, of either
/// kind, and it is that line.
pub proof fn law_payload_has_the_second_line(presence: PresenceState)
    ensures
        payload_for(presence@).contains_key(ActivityField::State) <==> presence.state is Some,
        presence.state is Some ==> payload_for(presence@)[ActivityField::State]
            == FieldValue::Text(presence.state->0@),
{
}

/// The payload has a picture exactly when the presence has one, and a hover text
/// exactly when it has that, of either kind; assets are sent only to hold them.
pub proof fn law_payload_has_the_picture(presence: PresenceState)
    ensures
        payload_for(presence@).contains_key(ActivityField::Assets) <==> presence.large_image
            is Some || presence.large_text is Some,
        presence.large_image is Some || presence.large_text is Some ==> (payload_for(
            presence@,
        )[ActivityField::Assets] matches FieldValue::Assets(assets) && {
            &&& assets.contains_key(AssetField::LargeImage) <==> presence.large_image is Some
            &&& presence.large_image is Some ==> assets[AssetField::LargeImage]
                == presence.large_image->0@
            &&& assets.contains_key(AssetField::LargeText) <==> presence.large_text is Some
            &&& presence.large_text is Some ==> assets[AssetField::LargeText]
                == presence.large_text->0@
            &&& !assets.contains_key(AssetField::LargeUrl)
            &&& !assets.contains_key(AssetField::SmallImage)
            &&& !assets.contains_key(AssetField::SmallText)
            &&& !assets.contains_key(AssetField::SmallUrl)
        }),
{
}

/// The payload has timestamps exactly when the presence has them, of either
/// kind: the same start, and an end exactly when the presence has one, the same.
pub proof fn law_payload_has_the_bar(presence: PresenceState)
    ensures
        payload_for(presence@).contains_key(ActivityField::Timestamps) <==> presence.timestamps
            is Some,
        presence.timestamps is Some ==> (payload_for(presence@)[ActivityField::Timestamps] matches
            FieldValue::Timestamps(times) && {
            &&& times.contains_key(TimeField::Start)
            &&& times[TimeField::Start] == presence.timestamps->0.start
            &&& times.contains_key(TimeField::End) <==> presence.timestamps->0.end is Some
            &&& presence.timestamps->0.end is Some ==> times[TimeField::End]
                == presence.timestamps->0.end->0
        }),
{
}

/// Two presences have one payload exactly when they agree in everything that is
/// shown: nothing that differs between them is lost on the way.
pub proof fn law_payload_tells_presences_apart(a: PresenceView, b: PresenceView)
    ensures
        payload_for(a) == payload_for(b) <==> a == b,
{
    if payload_for(a) == payload_for(b) {
        let (p, q) = (payload_for(a), payload_for(b));
        assert(p[ActivityField::Verb] == q[ActivityField::Verb]);
        assert(a.kind == b.kind);
        assert(p[ActivityField::Name] == q[ActivityField::Name]);
        assert(p[ActivityField::Details] == q[ActivityField::Details]);
        assert(p.contains_key(ActivityField::State) == q.contains_key(ActivityField::State));
        assert(p[ActivityField::State] == q[ActivityField::State]);
        assert(a.state == b.state);
        assert(p.contains_key(ActivityField::Assets) == q.contains_key(ActivityField::Assets));
        if p.contains_key(ActivityField::Assets) {
            assert(p[ActivityField::Assets] == FieldValue::Assets(assets_for(a)));
            assert(q[ActivityField::Assets] == FieldValue::Assets(assets_for(b)));
            let (m, n) = (assets_for(a), assets_for(b));
            assert(m.contains_key(AssetField::LargeImage) == n.contains_key(
                AssetField::LargeImage,
            ));
            assert(m.contains_key(AssetField::LargeText) == n.contains_key(AssetField::LargeText));
            assert(m[AssetField::LargeImage] == n[AssetField::LargeImage]);
            assert(m[AssetField::LargeText] == n[AssetField::LargeText]);
        }
        assert(a.large_image == b.large_image && a.large_text == b.large_text);
        assert(p.contains_key(ActivityField::Timestamps) == q.contains_key(
            ActivityField::Timestamps,
        ));
        if p.contains_key(ActivityField::Timestamps) {
            assert(p[ActivityField::Timestamps] == FieldValue::Timestamps(
                times_for(a.timestamps->0),
            ));
            assert(q[ActivityField::Timestamps] == FieldValue::Timestamps(
                times_for(b.timestamps->0),
            ));
            let (m, n) = (times_for(a.timestamps->0), times_for(b.timestamps->0));
            assert(m[TimeField::Start] == n[TimeField::Start]);
            assert(m.contains_key(TimeField::End) == n.contains_key(TimeField::End));
            assert(m[TimeField::End] == n[TimeField::End]);
            assert(a.timestamps->0.end == b.timestamps->0.end);
        }
        assert(a.timestamps == b.timestamps);
    }
}

} // verus!
