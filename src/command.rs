//! The catalog of commands that change the device's state.

use vstd::prelude::*;
use vstd::string::*;
use crate::request::{ParamView, params_view};
use crate::text::{decimal, decimal_of};

verus! {

/// A command to the device.
pub enum Command {
    AudioOutput {
        audio_output: String,
        sas_min_version: i32,
        sas_max_version: i32,
        guid: String,
        sas_ip_address: String,
        sas_port: String,
        app_build: String,
    },
    AudioSetting { id: String, value: String },
    CaptureScreen,
    LaunchApp { channel_id: i32 },
    PressKey { key: String },
    ResetAudioSettings { scope: String },
    ScreenSaver { channel_id: i32 },
    TexteditText { textedit_id: String, text: String, selection_start: i32, selection_end: i32 },
}

/// The wire subject of a command.
pub open spec fn set_subject(s: Command) -> Seq<char> {
    match s {
        Command::AudioOutput { .. } => "set-audio-output"@,
        Command::AudioSetting { .. } => "set-audio-setting"@,
        Command::CaptureScreen => "capture-screen"@,
        Command::LaunchApp { .. } => "launch"@,
        Command::PressKey { .. } => "key-press"@,
        Command::ResetAudioSettings { .. } => "reset-audio-settings"@,
        Command::ScreenSaver { .. } => "set-screensaver"@,
        Command::TexteditText { .. } => "set-textedit-text"@,
    }
}

/// The parameters of a command, in the order they are listed.
pub open spec fn set_params(s: Command) -> Option<Seq<ParamView>> {
    match s {
        Command::AudioOutput {
            audio_output,
            sas_min_version,
            sas_max_version,
            guid,
            sas_ip_address,
            sas_port,
            app_build,
        } => Some(
            seq![
                ("param-audio-output"@, audio_output@),
                ("param-sas-min-version"@, decimal_of(sas_min_version as int)),
                ("param-sas-max-version"@, decimal_of(sas_max_version as int)),
                ("param-guid"@, guid@),
                ("param-sas-ip-address"@, sas_ip_address@),
                ("param-sas-port"@, sas_port@),
                ("param-app-build"@, app_build@),
            ],
        ),
        Command::AudioSetting { id, value } => Some(
            seq![("param-id"@, id@), ("param-value"@, value@)],
        ),
        Command::CaptureScreen => None,
        Command::LaunchApp { channel_id } => Some(
            seq![("param-channel-id"@, decimal_of(channel_id as int))],
        ),
        Command::PressKey { key } => Some(seq![("param-key"@, key@)]),
        Command::ResetAudioSettings { scope } => Some(seq![("param-scope"@, scope@)]),
        Command::ScreenSaver { channel_id } => Some(
            seq![("param-channel-id"@, decimal_of(channel_id as int))],
        ),
        Command::TexteditText { textedit_id, text, selection_start, selection_end } => Some(
            seq![
                ("param-textedit-id"@, textedit_id@),
                ("param-text"@, text@),
                ("param-selection-start"@, decimal_of(selection_start as int)),
                ("param-selection-end"@, decimal_of(selection_end as int)),
            ],
        ),
    }
}

/// A parameter whose value is text.
pub(crate) fn text_param(key: &str, value: &String) -> (r: (String, String))
    ensures
        r.0@ == key@,
        r.1@ == value@,
{
    (String::from_str(key), value.clone())
}

/// A parameter whose value is an integer, written in decimal.
pub(crate) fn number_param(key: &str, value: i32) -> (r: (String, String))
    ensures
        r.0@ == key@,
        r.1@ == decimal_of(value as int),
{
    (String::from_str(key), decimal(value))
}

impl Command {
    /// The subject of this command.
    pub fn subject(&self) -> (r: &'static str)
        ensures
            r@ == set_subject(*self),
    {
        match self {
            Command::AudioOutput { .. } => "set-audio-output",
            Command::AudioSetting { .. } => "set-audio-setting",
            Command::CaptureScreen => "capture-screen",
            Command::LaunchApp { .. } => "launch",
            Command::PressKey { .. } => "key-press",
            Command::ResetAudioSettings { .. } => "reset-audio-settings",
            Command::ScreenSaver { .. } => "set-screensaver",
            Command::TexteditText { .. } => "set-textedit-text",
        }
    }

    /// The parameters of this command, if it has any.
    pub fn params(&self) -> (r: Option<Vec<(String, String)>>)
        ensures
            match r {
                Some(v) => set_params(*self) == Some(params_view(v@)),
                None => set_params(*self) is None,
            },
    {
        let mut map: Vec<(String, String)> = Vec::new();
        match self {
            Command::AudioOutput {
                audio_output,
                sas_min_version,
                sas_max_version,
                guid,
                sas_ip_address,
                sas_port,
                app_build,
            } => {
                map.push(text_param("param-audio-output", audio_output));
                map.push(number_param("param-sas-min-version", *sas_min_version));
                map.push(number_param("param-sas-max-version", *sas_max_version));
                map.push(text_param("param-guid", guid));
                map.push(text_param("param-sas-ip-address", sas_ip_address));
                map.push(text_param("param-sas-port", sas_port));
                map.push(text_param("param-app-build", app_build));
            },
            Command::AudioSetting { id, value } => {
                map.push(text_param("param-id", id));
                map.push(text_param("param-value", value));
            },
            Command::CaptureScreen => {
                return None;
            },
            Command::LaunchApp { channel_id } => {
                map.push(number_param("param-channel-id", *channel_id));
            },
            Command::PressKey { key } => {
                map.push(text_param("param-key", key));
            },
            Command::ResetAudioSettings { scope } => {
                map.push(text_param("param-scope", scope));
            },
            Command::ScreenSaver { channel_id } => {
                map.push(number_param("param-channel-id", *channel_id));
            },
            Command::TexteditText { textedit_id, text, selection_start, selection_end } => {
                map.push(text_param("param-textedit-id", textedit_id));
                map.push(text_param("param-text", text));
                map.push(number_param("param-selection-start", *selection_start));
                map.push(number_param("param-selection-end", *selection_end));
            },
        }
        assert(set_params(*self) == Some(params_view(map@)));
        Some(map)
    }
}

} // verus!
