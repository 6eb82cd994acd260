//! The catalog of queries that read the device's state.

use vstd::prelude::*;
use crate::command::number_param;
use crate::request::{ParamView, params_view};
use crate::text::decimal_of;

verus! {

/// A query to the device.
pub enum Get {
    ActiveApp,
    ActiveTvChannel,
    ActiveTvInput,
    AudioDevice,
    AudioSetting,
    AudioSettings,
    AvSyncOffset,
    DeviceInfo,
    InstalledApps,
    MediaPlayer,
    QueryAppIcon { channel_id: i32 },
    Screensavers,
    TexteditState,
    Themes,
    TvChannels,
    VoiceServiceInfo,
    WarmStandby,
}

/// The wire subject of a query.
pub open spec fn get_subject(g: Get) -> Seq<char> {
    match g {
        Get::ActiveApp => "query-active-app"@,
        Get::ActiveTvChannel => "query-tv-active-channel"@,
        Get::ActiveTvInput => "query-tv-active-input"@,
        Get::AudioDevice => "query-audio-device"@,
        Get::AudioSetting => "query-audio-setting"@,
        Get::AudioSettings => "query-audio-settings"@,
        Get::AvSyncOffset => "query-av-sync-offset"@,
        Get::DeviceInfo => "query-device-info"@,
        Get::InstalledApps => "query-apps"@,
        Get::MediaPlayer => "query-media-player"@,
        Get::QueryAppIcon { .. } => "query-icon"@,
        Get::Screensavers => "query-screensavers"@,
        Get::TexteditState => "query-textedit-state"@,
        Get::Themes => "query-themes"@,
        Get::TvChannels => "query-tv-channels-ex"@,
        Get::VoiceServiceInfo => "query-info-for-voice-service"@,
        Get::WarmStandby => "query-warm-standby"@,
    }
}

/// The parameters of a query.
pub open spec fn get_params(g: Get) -> Option<Seq<ParamView>> {
    match g {
        Get::QueryAppIcon { channel_id } => Some(
            seq![("param-channel-id"@, decimal_of(channel_id as int))],
        ),
        _ => None,
    }
}

impl Get {
    /// The subject of this query.
    pub fn subject(&self) -> (r: &'static str)
        ensures
            r@ == get_subject(*self),
    {
        match self {
            Get::ActiveApp => "query-active-app",
            Get::ActiveTvChannel => "query-tv-active-channel",
            Get::ActiveTvInput => "query-tv-active-input",
            Get::AudioDevice => "query-audio-device",
            Get::AudioSetting => "query-audio-setting",
            Get::AudioSettings => "query-audio-settings",
            Get::AvSyncOffset => "query-av-sync-offset",
            Get::DeviceInfo => "query-device-info",
            Get::InstalledApps => "query-apps",
            Get::MediaPlayer => "query-media-player",
            Get::QueryAppIcon { .. } => "query-icon",
            Get::Screensavers => "query-screensavers",
            Get::TexteditState => "query-textedit-state",
            Get::Themes => "query-themes",
            Get::TvChannels => "query-tv-channels-ex",
            Get::VoiceServiceInfo => "query-info-for-voice-service",
            Get::WarmStandby => "query-warm-standby",
        }
    }

    /// The parameters of this query, if it has any.
    pub fn params(&self) -> (r: Option<Vec<(String, String)>>)
        ensures
            match r {
                Some(v) => get_params(*self) == Some(params_view(v@)),
                None => get_params(*self) is None,
            },
    {
        match self {
            Get::QueryAppIcon { channel_id } => {
                let mut map: Vec<(String, String)> = Vec::new();
                map.push(number_param("param-channel-id", *channel_id));
                assert(get_params(*self) == Some(params_view(map@)));
                Some(map)
            },
            _ => None,
        }
    }
}

} // verus!
