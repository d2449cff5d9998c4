//! Named keys: the keys that produce no character, each with its canonical name.

use vstd::prelude::*;

use crate::text::{is_ascii, str_eq};

verus! {

/// The number of named keys.
pub const NAMED_KEY_COUNT: usize = 307;

/// A key without a character value, such as a modifier, a function key or an
/// editing key.
///
/// The variants and their names are the key attribute values of the UI Events
/// standard of the W3C.
#[derive(Copy, Clone, Debug, Eq, Hash, PartialEq, PartialOrd, Ord, Structural)]
pub enum NamedKey {
    // Special.
    Unidentified,

    // Modifier keys.
    Alt,
    AltGraph,
    CapsLock,
    Control,
    Fn,
    FnLock,
    Meta,
    NumLock,
    ScrollLock,
    Shift,
    Symbol,
    SymbolLock,
    Hyper,
    Super,

    // Whitespace keys.
    Enter,
    Tab,

    // Navigation keys.
    ArrowDown,
    ArrowLeft,
    ArrowRight,
    ArrowUp,
    End,
    Home,
    PageDown,
    PageUp,

    // Editing keys.
    Backspace,
    Clear,
    Copy,
    CrSel,
    Cut,
    Delete,
    EraseEof,
    ExSel,
    Insert,
    Paste,
    Redo,
    Undo,

    // User interface keys.
    Accept,
    Again,
    Attn,
    Cancel,
    ContextMenu,
    Escape,
    Execute,
    Find,
    Help,
    Pause,
    Play,
    Props,
    Select,
    ZoomIn,
    ZoomOut,

    // Device keys.
    BrightnessDown,
    BrightnessUp,
    Eject,
    LogOff,
    Power,
    PowerOff,
    PrintScreen,
    Hibernate,
    Standby,
    WakeUp,

    // Input method and composition keys.
    AllCandidates,
    Alphanumeric,
    CodeInput,
    Compose,
    Convert,
    Dead,
    FinalMode,
    GroupFirst,
    GroupLast,
    GroupNext,
    GroupPrevious,
    ModeChange,
    NextCandidate,
    NonConvert,
    PreviousCandidate,
    Process,
    SingleCandidate,

    // Keys specific to Korean keyboards.
    HangulMode,
    HanjaMode,
    JunjaMode,

    // Keys specific to Japanese keyboards.
    Eisu,
    Hankaku,
    Hiragana,
    HiraganaKatakana,
    KanaMode,
    KanjiMode,
    Katakana,
    Romaji,
    Zenkaku,
    ZenkakuHankaku,

    // General-purpose function keys.
    F1,
    F2,
    F3,
    F4,
    F5,
    F6,
    F7,
    F8,
    F9,
    F10,
    F11,
    F12,
    F13,
    F14,
    F15,
    F16,
    F17,
    F18,
    F19,
    F20,
    F21,
    F22,
    F23,
    F24,
    F25,
    F26,
    F27,
    F28,
    F29,
    F30,
    F31,
    F32,
    F33,
    F34,
    F35,
    Soft1,
    Soft2,
    Soft3,
    Soft4,

    // Multimedia keys.
    ChannelDown,
    ChannelUp,
    Close,
    MailForward,
    MailReply,
    MailSend,
    MediaClose,
    MediaFastForward,
    MediaPause,
    MediaPlay,
    MediaPlayPause,
    MediaRecord,
    MediaRewind,
    MediaStop,
    MediaTrackNext,
    MediaTrackPrevious,
    New,
    Open,
    Print,
    Save,
    SpellCheck,

    // Multimedia numpad keys.
    Key11,
    Key12,

    // Audio keys.
    AudioBalanceLeft,
    AudioBalanceRight,
    AudioBassBoostDown,
    AudioBassBoostToggle,
    AudioBassBoostUp,
    AudioFaderFront,
    AudioFaderRear,
    AudioSurroundModeNext,
    AudioTrebleDown,
    AudioTrebleUp,
    AudioVolumeDown,
    AudioVolumeUp,
    AudioVolumeMute,
    MicrophoneToggle,
    MicrophoneVolumeDown,
    MicrophoneVolumeUp,
    MicrophoneVolumeMute,

    // Speech keys.
    SpeechCorrectionList,
    SpeechInputToggle,

    // Application keys.
    LaunchApplication1,
    LaunchApplication2,
    LaunchCalendar,
    LaunchContacts,
    LaunchMail,
    LaunchMediaPlayer,
    LaunchMusicPlayer,
    LaunchPhone,
    LaunchScreenSaver,
    LaunchSpreadsheet,
    LaunchWebBrowser,
    LaunchWebCam,
    LaunchWordProcessor,

    // Browser keys.
    BrowserBack,
    BrowserFavorites,
    BrowserForward,
    BrowserHome,
    BrowserRefresh,
    BrowserSearch,
    BrowserStop,

    // Mobile phone keys.
    AppSwitch,
    Call,
    Camera,
    CameraFocus,
    EndCall,
    GoBack,
    GoHome,
    HeadsetHook,
    LastNumberRedial,
    Notification,
    MannerMode,
    VoiceDial,

    // Television keys.
    TV,
    TV3DMode,
    TVAntennaCable,
    TVAudioDescription,
    TVAudioDescriptionMixDown,
    TVAudioDescriptionMixUp,
    TVContentsMenu,
    TVDataService,
    TVInput,
    TVInputComponent1,
    TVInputComponent2,
    TVInputComposite1,
    TVInputComposite2,
    TVInputHDMI1,
    TVInputHDMI2,
    TVInputHDMI3,
    TVInputHDMI4,
    TVInputVGA1,
    TVMediaContext,
    TVNetwork,
    TVNumberEntry,
    TVPower,
    TVRadioService,
    TVSatellite,
    TVSatelliteBS,
    TVSatelliteCS,
    TVSatelliteToggle,
    TVTerrestrialAnalog,
    TVTerrestrialDigital,
    TVTimer,

    // Media controller keys.
    AVRInput,
    AVRPower,
    ColorF0Red,
    ColorF1Green,
    ColorF2Yellow,
    ColorF3Blue,
    ColorF4Grey,
    ColorF5Brown,
    ClosedCaptionToggle,
    Dimmer,
    DisplaySwap,
    DVR,
    Exit,
    FavoriteClear0,
    FavoriteClear1,
    FavoriteClear2,
    FavoriteClear3,
    FavoriteRecall0,
    FavoriteRecall1,
    FavoriteRecall2,
    FavoriteRecall3,
    FavoriteStore0,
    FavoriteStore1,
    FavoriteStore2,
    FavoriteStore3,
    Guide,
    GuideNextDay,
    GuidePreviousDay,
    Info,
    InstantReplay,
    Link,
    ListProgram,
    LiveContent,
    Lock,
    MediaApps,
    MediaAudioTrack,
    MediaLast,
    MediaSkipBackward,
    MediaSkipForward,
    MediaStepBackward,
    MediaStepForward,
    MediaTopMenu,
    NavigateIn,
    NavigateNext,
    NavigateOut,
    NavigatePrevious,
    NextFavoriteChannel,
    NextUserProfile,
    OnDemand,
    Pairing,
    PinPDown,
    PinPMove,
    PinPToggle,
    PinPUp,
    PlaySpeedDown,
    PlaySpeedReset,
    PlaySpeedUp,
    RandomToggle,
    RcLowBattery,
    RecordSpeedNext,
    RfBypass,
    ScanChannelsToggle,
    ScreenModeNext,
    Settings,
    SplitScreenToggle,
    STBInput,
    STBPower,
    Subtitle,
    Teletext,
    VideoModeNext,
    Wink,
    ZoomToggle,
}

/// Parse error, returned when a string is the name of no [`NamedKey`].
#[derive(Clone, Debug)]
pub struct UnrecognizedNamedKeyError;

impl NamedKey {
    /// The canonical name of the named key, as a sequence of characters.
    pub open spec fn text(self) -> Seq<char> {
        match self {
            NamedKey::Unidentified => "Unidentified"@,
            NamedKey::Alt => "Alt"@,
            NamedKey::AltGraph => "AltGraph"@,
            NamedKey::CapsLock => "CapsLock"@,
            NamedKey::Control => "Control"@,
            NamedKey::Fn => "Fn"@,
            NamedKey::FnLock => "FnLock"@,
            NamedKey::Meta => "Meta"@,
            NamedKey::NumLock => "NumLock"@,
            NamedKey::ScrollLock => "ScrollLock"@,
            NamedKey::Shift => "Shift"@,
            NamedKey::Symbol => "Symbol"@,
            NamedKey::SymbolLock => "SymbolLock"@,
            NamedKey::Hyper => "Hyper"@,
            NamedKey::Super => "Super"@,
            NamedKey::Enter => "Enter"@,
            NamedKey::Tab => "Tab"@,
            NamedKey::ArrowDown => "ArrowDown"@,
            NamedKey::ArrowLeft => "ArrowLeft"@,
            NamedKey::ArrowRight => "ArrowRight"@,
            NamedKey::ArrowUp => "ArrowUp"@,
            NamedKey::End => "End"@,
            NamedKey::Home => "Home"@,
            NamedKey::PageDown => "PageDown"@,
            NamedKey::PageUp => "PageUp"@,
            NamedKey::Backspace => "Backspace"@,
            NamedKey::Clear => "Clear"@,
            NamedKey::Copy => "Copy"@,
            NamedKey::CrSel => "CrSel"@,
            NamedKey::Cut => "Cut"@,
            NamedKey::Delete => "Delete"@,
            NamedKey::EraseEof => "EraseEof"@,
            NamedKey::ExSel => "ExSel"@,
            NamedKey::Insert => "Insert"@,
            NamedKey::Paste => "Paste"@,
            NamedKey::Redo => "Redo"@,
            NamedKey::Undo => "Undo"@,
            NamedKey::Accept => "Accept"@,
            NamedKey::Again => "Again"@,
            NamedKey::Attn => "Attn"@,
            NamedKey::Cancel => "Cancel"@,
            NamedKey::ContextMenu => "ContextMenu"@,
            NamedKey::Escape => "Escape"@,
            NamedKey::Execute => "Execute"@,
            NamedKey::Find => "Find"@,
            NamedKey::Help => "Help"@,
            NamedKey::Pause => "Pause"@,
            NamedKey::Play => "Play"@,
            NamedKey::Props => "Props"@,
            NamedKey::Select => "Select"@,
            NamedKey::ZoomIn => "ZoomIn"@,
            NamedKey::ZoomOut => "ZoomOut"@,
            NamedKey::BrightnessDown => "BrightnessDown"@,
            NamedKey::BrightnessUp => "BrightnessUp"@,
            NamedKey::Eject => "Eject"@,
            NamedKey::LogOff => "LogOff"@,
            NamedKey::Power => "Power"@,
            NamedKey::PowerOff => "PowerOff"@,
            NamedKey::PrintScreen => "PrintScreen"@,
            NamedKey::Hibernate => "Hibernate"@,
            NamedKey::Standby => "Standby"@,
            NamedKey::WakeUp => "WakeUp"@,
            NamedKey::AllCandidates => "AllCandidates"@,
            NamedKey::Alphanumeric => "Alphanumeric"@,
            NamedKey::CodeInput => "CodeInput"@,
            NamedKey::Compose => "Compose"@,
            NamedKey::Convert => "Convert"@,
            NamedKey::Dead => "Dead"@,
            NamedKey::FinalMode => "FinalMode"@,
            NamedKey::GroupFirst => "GroupFirst"@,
            NamedKey::GroupLast => "GroupLast"@,
            NamedKey::GroupNext => "GroupNext"@,
            NamedKey::GroupPrevious => "GroupPrevious"@,
            NamedKey::ModeChange => "ModeChange"@,
            NamedKey::NextCandidate => "NextCandidate"@,
            NamedKey::NonConvert => "NonConvert"@,
            NamedKey::PreviousCandidate => "PreviousCandidate"@,
            NamedKey::Process => "Process"@,
            NamedKey::SingleCandidate => "SingleCandidate"@,
            NamedKey::HangulMode => "HangulMode"@,
            NamedKey::HanjaMode => "HanjaMode"@,
            NamedKey::JunjaMode => "JunjaMode"@,
            NamedKey::Eisu => "Eisu"@,
            NamedKey::Hankaku => "Hankaku"@,
            NamedKey::Hiragana => "Hiragana"@,
            NamedKey::HiraganaKatakana => "HiraganaKatakana"@,
            NamedKey::KanaMode => "KanaMode"@,
            NamedKey::KanjiMode => "KanjiMode"@,
            NamedKey::Katakana => "Katakana"@,
            NamedKey::Romaji => "Romaji"@,
            NamedKey::Zenkaku => "Zenkaku"@,
            NamedKey::ZenkakuHankaku => "ZenkakuHankaku"@,
            NamedKey::F1 => "F1"@,
            NamedKey::F2 => "F2"@,
            NamedKey::F3 => "F3"@,
            NamedKey::F4 => "F4"@,
            NamedKey::F5 => "F5"@,
            NamedKey::F6 => "F6"@,
            NamedKey::F7 => "F7"@,
            NamedKey::F8 => "F8"@,
            NamedKey::F9 => "F9"@,
            NamedKey::F10 => "F10"@,
            NamedKey::F11 => "F11"@,
            NamedKey::F12 => "F12"@,
            NamedKey::F13 => "F13"@,
            NamedKey::F14 => "F14"@,
            NamedKey::F15 => "F15"@,
            NamedKey::F16 => "F16"@,
            NamedKey::F17 => "F17"@,
            NamedKey::F18 => "F18"@,
            NamedKey::F19 => "F19"@,
            NamedKey::F20 => "F20"@,
            NamedKey::F21 => "F21"@,
            NamedKey::F22 => "F22"@,
            NamedKey::F23 => "F23"@,
            NamedKey::F24 => "F24"@,
            NamedKey::F25 => "F25"@,
            NamedKey::F26 => "F26"@,
            NamedKey::F27 => "F27"@,
            NamedKey::F28 => "F28"@,
            NamedKey::F29 => "F29"@,
            NamedKey::F30 => "F30"@,
            NamedKey::F31 => "F31"@,
            NamedKey::F32 => "F32"@,
            NamedKey::F33 => "F33"@,
            NamedKey::F34 => "F34"@,
            NamedKey::F35 => "F35"@,
            NamedKey::Soft1 => "Soft1"@,
            NamedKey::Soft2 => "Soft2"@,
            NamedKey::Soft3 => "Soft3"@,
            NamedKey::Soft4 => "Soft4"@,
            NamedKey::ChannelDown => "ChannelDown"@,
            NamedKey::ChannelUp => "ChannelUp"@,
            NamedKey::Close => "Close"@,
            NamedKey::MailForward => "MailForward"@,
            NamedKey::MailReply => "MailReply"@,
            NamedKey::MailSend => "MailSend"@,
            NamedKey::MediaClose => "MediaClose"@,
            NamedKey::MediaFastForward => "MediaFastForward"@,
            NamedKey::MediaPause => "MediaPause"@,
            NamedKey::MediaPlay => "MediaPlay"@,
            NamedKey::MediaPlayPause => "MediaPlayPause"@,
            NamedKey::MediaRecord => "MediaRecord"@,
            NamedKey::MediaRewind => "MediaRewind"@,
            NamedKey::MediaStop => "MediaStop"@,
            NamedKey::MediaTrackNext => "MediaTrackNext"@,
            NamedKey::MediaTrackPrevious => "MediaTrackPrevious"@,
            NamedKey::New => "New"@,
            NamedKey::Open => "Open"@,
            NamedKey::Print => "Print"@,
            NamedKey::Save => "Save"@,
            NamedKey::SpellCheck => "SpellCheck"@,
            NamedKey::Key11 => "Key11"@,
            NamedKey::Key12 => "Key12"@,
            NamedKey::AudioBalanceLeft => "AudioBalanceLeft"@,
            NamedKey::AudioBalanceRight => "AudioBalanceRight"@,
            NamedKey::AudioBassBoostDown => "AudioBassBoostDown"@,
            NamedKey::AudioBassBoostToggle => "AudioBassBoostToggle"@,
            NamedKey::AudioBassBoostUp => "AudioBassBoostUp"@,
            NamedKey::AudioFaderFront => "AudioFaderFront"@,
            NamedKey::AudioFaderRear => "AudioFaderRear"@,
            NamedKey::AudioSurroundModeNext => "AudioSurroundModeNext"@,
            NamedKey::AudioTrebleDown => "AudioTrebleDown"@,
            NamedKey::AudioTrebleUp => "AudioTrebleUp"@,
            NamedKey::AudioVolumeDown => "AudioVolumeDown"@,
            NamedKey::AudioVolumeUp => "AudioVolumeUp"@,
            NamedKey::AudioVolumeMute => "AudioVolumeMute"@,
            NamedKey::MicrophoneToggle => "MicrophoneToggle"@,
            NamedKey::MicrophoneVolumeDown => "MicrophoneVolumeDown"@,
            NamedKey::MicrophoneVolumeUp => "MicrophoneVolumeUp"@,
            NamedKey::MicrophoneVolumeMute => "MicrophoneVolumeMute"@,
            NamedKey::SpeechCorrectionList => "SpeechCorrectionList"@,
            NamedKey::SpeechInputToggle => "SpeechInputToggle"@,
            NamedKey::LaunchApplication1 => "LaunchApplication1"@,
            NamedKey::LaunchApplication2 => "LaunchApplication2"@,
            NamedKey::LaunchCalendar => "LaunchCalendar"@,
            NamedKey::LaunchContacts => "LaunchContacts"@,
            NamedKey::LaunchMail => "LaunchMail"@,
            NamedKey::LaunchMediaPlayer => "LaunchMediaPlayer"@,
            NamedKey::LaunchMusicPlayer => "LaunchMusicPlayer"@,
            NamedKey::LaunchPhone => "LaunchPhone"@,
            NamedKey::LaunchScreenSaver => "LaunchScreenSaver"@,
            NamedKey::LaunchSpreadsheet => "LaunchSpreadsheet"@,
            NamedKey::LaunchWebBrowser => "LaunchWebBrowser"@,
            NamedKey::LaunchWebCam => "LaunchWebCam"@,
            NamedKey::LaunchWordProcessor => "LaunchWordProcessor"@,
            NamedKey::BrowserBack => "BrowserBack"@,
            NamedKey::BrowserFavorites => "BrowserFavorites"@,
            NamedKey::BrowserForward => "BrowserForward"@,
            NamedKey::BrowserHome => "BrowserHome"@,
            NamedKey::BrowserRefresh => "BrowserRefresh"@,
            NamedKey::BrowserSearch => "BrowserSearch"@,
            NamedKey::BrowserStop => "BrowserStop"@,
            NamedKey::AppSwitch => "AppSwitch"@,
            NamedKey::Call => "Call"@,
            NamedKey::Camera => "Camera"@,
            NamedKey::CameraFocus => "CameraFocus"@,
            NamedKey::EndCall => "EndCall"@,
            NamedKey::GoBack => "GoBack"@,
            NamedKey::GoHome => "GoHome"@,
            NamedKey::HeadsetHook => "HeadsetHook"@,
            NamedKey::LastNumberRedial => "LastNumberRedial"@,
            NamedKey::Notification => "Notification"@,
            NamedKey::MannerMode => "MannerMode"@,
            NamedKey::VoiceDial => "VoiceDial"@,
            NamedKey::TV => "TV"@,
            NamedKey::TV3DMode => "TV3DMode"@,
            NamedKey::TVAntennaCable => "TVAntennaCable"@,
            NamedKey::TVAudioDescription => "TVAudioDescription"@,
            NamedKey::TVAudioDescriptionMixDown => "TVAudioDescriptionMixDown"@,
            NamedKey::TVAudioDescriptionMixUp => "TVAudioDescriptionMixUp"@,
            NamedKey::TVContentsMenu => "TVContentsMenu"@,
            NamedKey::TVDataService => "TVDataService"@,
            NamedKey::TVInput => "TVInput"@,
            NamedKey::TVInputComponent1 => "TVInputComponent1"@,
            NamedKey::TVInputComponent2 => "TVInputComponent2"@,
            NamedKey::TVInputComposite1 => "TVInputComposite1"@,
            NamedKey::TVInputComposite2 => "TVInputComposite2"@,
            NamedKey::TVInputHDMI1 => "TVInputHDMI1"@,
            NamedKey::TVInputHDMI2 => "TVInputHDMI2"@,
            NamedKey::TVInputHDMI3 => "TVInputHDMI3"@,
            NamedKey::TVInputHDMI4 => "TVInputHDMI4"@,
            NamedKey::TVInputVGA1 => "TVInputVGA1"@,
            NamedKey::TVMediaContext => "TVMediaContext"@,
            NamedKey::TVNetwork => "TVNetwork"@,
            NamedKey::TVNumberEntry => "TVNumberEntry"@,
            NamedKey::TVPower => "TVPower"@,
            NamedKey::TVRadioService => "TVRadioService"@,
            NamedKey::TVSatellite => "TVSatellite"@,
            NamedKey::TVSatelliteBS => "TVSatelliteBS"@,
            NamedKey::TVSatelliteCS => "TVSatelliteCS"@,
            NamedKey::TVSatelliteToggle => "TVSatelliteToggle"@,
            NamedKey::TVTerrestrialAnalog => "TVTerrestrialAnalog"@,
            NamedKey::TVTerrestrialDigital => "TVTerrestrialDigital"@,
            NamedKey::TVTimer => "TVTimer"@,
            NamedKey::AVRInput => "AVRInput"@,
            NamedKey::AVRPower => "AVRPower"@,
            NamedKey::ColorF0Red => "ColorF0Red"@,
            NamedKey::ColorF1Green => "ColorF1Green"@,
            NamedKey::ColorF2Yellow => "ColorF2Yellow"@,
            NamedKey::ColorF3Blue => "ColorF3Blue"@,
            NamedKey::ColorF4Grey => "ColorF4Grey"@,
            NamedKey::ColorF5Brown => "ColorF5Brown"@,
            NamedKey::ClosedCaptionToggle => "ClosedCaptionToggle"@,
            NamedKey::Dimmer => "Dimmer"@,
            NamedKey::DisplaySwap => "DisplaySwap"@,
            NamedKey::DVR => "DVR"@,
            NamedKey::Exit => "Exit"@,
            NamedKey::FavoriteClear0 => "FavoriteClear0"@,
            NamedKey::FavoriteClear1 => "FavoriteClear1"@,
            NamedKey::FavoriteClear2 => "FavoriteClear2"@,
            NamedKey::FavoriteClear3 => "FavoriteClear3"@,
            NamedKey::FavoriteRecall0 => "FavoriteRecall0"@,
            NamedKey::FavoriteRecall1 => "FavoriteRecall1"@,
            NamedKey::FavoriteRecall2 => "FavoriteRecall2"@,
            NamedKey::FavoriteRecall3 => "FavoriteRecall3"@,
            NamedKey::FavoriteStore0 => "FavoriteStore0"@,
            NamedKey::FavoriteStore1 => "FavoriteStore1"@,
            NamedKey::FavoriteStore2 => "FavoriteStore2"@,
            NamedKey::FavoriteStore3 => "FavoriteStore3"@,
            NamedKey::Guide => "Guide"@,
            NamedKey::GuideNextDay => "GuideNextDay"@,
            NamedKey::GuidePreviousDay => "GuidePreviousDay"@,
            NamedKey::Info => "Info"@,
            NamedKey::InstantReplay => "InstantReplay"@,
            NamedKey::Link => "Link"@,
            NamedKey::ListProgram => "ListProgram"@,
            NamedKey::LiveContent => "LiveContent"@,
            NamedKey::Lock => "Lock"@,
            NamedKey::MediaApps => "MediaApps"@,
            NamedKey::MediaAudioTrack => "MediaAudioTrack"@,
            NamedKey::MediaLast => "MediaLast"@,
            NamedKey::MediaSkipBackward => "MediaSkipBackward"@,
            NamedKey::MediaSkipForward => "MediaSkipForward"@,
            NamedKey::MediaStepBackward => "MediaStepBackward"@,
            NamedKey::MediaStepForward => "MediaStepForward"@,
            NamedKey::MediaTopMenu => "MediaTopMenu"@,
            NamedKey::NavigateIn => "NavigateIn"@,
            NamedKey::NavigateNext => "NavigateNext"@,
            NamedKey::NavigateOut => "NavigateOut"@,
            NamedKey::NavigatePrevious => "NavigatePrevious"@,
            NamedKey::NextFavoriteChannel => "NextFavoriteChannel"@,
            NamedKey::NextUserProfile => "NextUserProfile"@,
            NamedKey::OnDemand => "OnDemand"@,
            NamedKey::Pairing => "Pairing"@,
            NamedKey::PinPDown => "PinPDown"@,
            NamedKey::PinPMove => "PinPMove"@,
            NamedKey::PinPToggle => "PinPToggle"@,
            NamedKey::PinPUp => "PinPUp"@,
            NamedKey::PlaySpeedDown => "PlaySpeedDown"@,
            NamedKey::PlaySpeedReset => "PlaySpeedReset"@,
            NamedKey::PlaySpeedUp => "PlaySpeedUp"@,
            NamedKey::RandomToggle => "RandomToggle"@,
            NamedKey::RcLowBattery => "RcLowBattery"@,
            NamedKey::RecordSpeedNext => "RecordSpeedNext"@,
            NamedKey::RfBypass => "RfBypass"@,
            NamedKey::ScanChannelsToggle => "ScanChannelsToggle"@,
            NamedKey::ScreenModeNext => "ScreenModeNext"@,
            NamedKey::Settings => "Settings"@,
            NamedKey::SplitScreenToggle => "SplitScreenToggle"@,
            NamedKey::STBInput => "STBInput"@,
            NamedKey::STBPower => "STBPower"@,
            NamedKey::Subtitle => "Subtitle"@,
            NamedKey::Teletext => "Teletext"@,
            NamedKey::VideoModeNext => "VideoModeNext"@,
            NamedKey::Wink => "Wink"@,
            NamedKey::ZoomToggle => "ZoomToggle"@,
        }
    }

    /// The named key that `text` names, if it names one.
    pub open spec fn named(text: Seq<char>) -> Option<NamedKey> {
        if exists|key: NamedKey| key.text() == text {
            Some(choose|key: NamedKey| key.text() == text)
        } else {
            None
        }
    }

    /// The position of the named key in the declaration order, starting at zero.
    pub closed spec fn ordinal(self) -> nat {
        match self {
            NamedKey::Unidentified => 0,
            NamedKey::Alt => 1,
            NamedKey::AltGraph => 2,
            NamedKey::CapsLock => 3,
            NamedKey::Control => 4,
            NamedKey::Fn => 5,
            NamedKey::FnLock => 6,
            NamedKey::Meta => 7,
            NamedKey::NumLock => 8,
            NamedKey::ScrollLock => 9,
            NamedKey::Shift => 10,
            NamedKey::Symbol => 11,
            NamedKey::SymbolLock => 12,
            NamedKey::Hyper => 13,
            NamedKey::Super => 14,
            NamedKey::Enter => 15,
            NamedKey::Tab => 16,
            NamedKey::ArrowDown => 17,
            NamedKey::ArrowLeft => 18,
            NamedKey::ArrowRight => 19,
            NamedKey::ArrowUp => 20,
            NamedKey::End => 21,
            NamedKey::Home => 22,
            NamedKey::PageDown => 23,
            NamedKey::PageUp => 24,
            NamedKey::Backspace => 25,
            NamedKey::Clear => 26,
            NamedKey::Copy => 27,
            NamedKey::CrSel => 28,
            NamedKey::Cut => 29,
            NamedKey::Delete => 30,
            NamedKey::EraseEof => 31,
            NamedKey::ExSel => 32,
            NamedKey::Insert => 33,
            NamedKey::Paste => 34,
            NamedKey::Redo => 35,
            NamedKey::Undo => 36,
            NamedKey::Accept => 37,
            NamedKey::Again => 38,
            NamedKey::Attn => 39,
            NamedKey::Cancel => 40,
            NamedKey::ContextMenu => 41,
            NamedKey::Escape => 42,
            NamedKey::Execute => 43,
            NamedKey::Find => 44,
            NamedKey::Help => 45,
            NamedKey::Pause => 46,
            NamedKey::Play => 47,
            NamedKey::Props => 48,
            NamedKey::Select => 49,
            NamedKey::ZoomIn => 50,
            NamedKey::ZoomOut => 51,
            NamedKey::BrightnessDown => 52,
            NamedKey::BrightnessUp => 53,
            NamedKey::Eject => 54,
            NamedKey::LogOff => 55,
            NamedKey::Power => 56,
            NamedKey::PowerOff => 57,
            NamedKey::PrintScreen => 58,
            NamedKey::Hibernate => 59,
            NamedKey::Standby => 60,
            NamedKey::WakeUp => 61,
            NamedKey::AllCandidates => 62,
            NamedKey::Alphanumeric => 63,
            NamedKey::CodeInput => 64,
            NamedKey::Compose => 65,
            NamedKey::Convert => 66,
            NamedKey::Dead => 67,
            NamedKey::FinalMode => 68,
            NamedKey::GroupFirst => 69,
            NamedKey::GroupLast => 70,
            NamedKey::GroupNext => 71,
            NamedKey::GroupPrevious => 72,
            NamedKey::ModeChange => 73,
            NamedKey::NextCandidate => 74,
            NamedKey::NonConvert => 75,
            NamedKey::PreviousCandidate => 76,
            NamedKey::Process => 77,
            NamedKey::SingleCandidate => 78,
            NamedKey::HangulMode => 79,
            NamedKey::HanjaMode => 80,
            NamedKey::JunjaMode => 81,
            NamedKey::Eisu => 82,
            NamedKey::Hankaku => 83,
            NamedKey::Hiragana => 84,
            NamedKey::HiraganaKatakana => 85,
            NamedKey::KanaMode => 86,
            NamedKey::KanjiMode => 87,
            NamedKey::Katakana => 88,
            NamedKey::Romaji => 89,
            NamedKey::Zenkaku => 90,
            NamedKey::ZenkakuHankaku => 91,
            NamedKey::F1 => 92,
            NamedKey::F2 => 93,
            NamedKey::F3 => 94,
            NamedKey::F4 => 95,
            NamedKey::F5 => 96,
            NamedKey::F6 => 97,
            NamedKey::F7 => 98,
            NamedKey::F8 => 99,
            NamedKey::F9 => 100,
            NamedKey::F10 => 101,
            NamedKey::F11 => 102,
            NamedKey::F12 => 103,
            NamedKey::F13 => 104,
            NamedKey::F14 => 105,
            NamedKey::F15 => 106,
            NamedKey::F16 => 107,
            NamedKey::F17 => 108,
            NamedKey::F18 => 109,
            NamedKey::F19 => 110,
            NamedKey::F20 => 111,
            NamedKey::F21 => 112,
            NamedKey::F22 => 113,
            NamedKey::F23 => 114,
            NamedKey::F24 => 115,
            NamedKey::F25 => 116,
            NamedKey::F26 => 117,
            NamedKey::F27 => 118,
            NamedKey::F28 => 119,
            NamedKey::F29 => 120,
            NamedKey::F30 => 121,
            NamedKey::F31 => 122,
            NamedKey::F32 => 123,
            NamedKey::F33 => 124,
            NamedKey::F34 => 125,
            NamedKey::F35 => 126,
            NamedKey::Soft1 => 127,
            NamedKey::Soft2 => 128,
            NamedKey::Soft3 => 129,
            NamedKey::Soft4 => 130,
            NamedKey::ChannelDown => 131,
            NamedKey::ChannelUp => 132,
            NamedKey::Close => 133,
            NamedKey::MailForward => 134,
            NamedKey::MailReply => 135,
            NamedKey::MailSend => 136,
            NamedKey::MediaClose => 137,
            NamedKey::MediaFastForward => 138,
            NamedKey::MediaPause => 139,
            NamedKey::MediaPlay => 140,
            NamedKey::MediaPlayPause => 141,
            NamedKey::MediaRecord => 142,
            NamedKey::MediaRewind => 143,
            NamedKey::MediaStop => 144,
            NamedKey::MediaTrackNext => 145,
            NamedKey::MediaTrackPrevious => 146,
            NamedKey::New => 147,
            NamedKey::Open => 148,
            NamedKey::Print => 149,
            NamedKey::Save => 150,
            NamedKey::SpellCheck => 151,
            NamedKey::Key11 => 152,
            NamedKey::Key12 => 153,
            NamedKey::AudioBalanceLeft => 154,
            NamedKey::AudioBalanceRight => 155,
            NamedKey::AudioBassBoostDown => 156,
            NamedKey::AudioBassBoostToggle => 157,
            NamedKey::AudioBassBoostUp => 158,
            NamedKey::AudioFaderFront => 159,
            NamedKey::AudioFaderRear => 160,
            NamedKey::AudioSurroundModeNext => 161,
            NamedKey::AudioTrebleDown => 162,
            NamedKey::AudioTrebleUp => 163,
            NamedKey::AudioVolumeDown => 164,
            NamedKey::AudioVolumeUp => 165,
            NamedKey::AudioVolumeMute => 166,
            NamedKey::MicrophoneToggle => 167,
            NamedKey::MicrophoneVolumeDown => 168,
            NamedKey::MicrophoneVolumeUp => 169,
            NamedKey::MicrophoneVolumeMute => 170,
            NamedKey::SpeechCorrectionList => 171,
            NamedKey::SpeechInputToggle => 172,
            NamedKey::LaunchApplication1 => 173,
            NamedKey::LaunchApplication2 => 174,
            NamedKey::LaunchCalendar => 175,
            NamedKey::LaunchContacts => 176,
            NamedKey::LaunchMail => 177,
            NamedKey::LaunchMediaPlayer => 178,
            NamedKey::LaunchMusicPlayer => 179,
            NamedKey::LaunchPhone => 180,
            NamedKey::LaunchScreenSaver => 181,
            NamedKey::LaunchSpreadsheet => 182,
            NamedKey::LaunchWebBrowser => 183,
            NamedKey::LaunchWebCam => 184,
            NamedKey::LaunchWordProcessor => 185,
            NamedKey::BrowserBack => 186,
            NamedKey::BrowserFavorites => 187,
            NamedKey::BrowserForward => 188,
            NamedKey::BrowserHome => 189,
            NamedKey::BrowserRefresh => 190,
            NamedKey::BrowserSearch => 191,
            NamedKey::BrowserStop => 192,
            NamedKey::AppSwitch => 193,
            NamedKey::Call => 194,
            NamedKey::Camera => 195,
            NamedKey::CameraFocus => 196,
            NamedKey::EndCall => 197,
            NamedKey::GoBack => 198,
            NamedKey::GoHome => 199,
            NamedKey::HeadsetHook => 200,
            NamedKey::LastNumberRedial => 201,
            NamedKey::Notification => 202,
            NamedKey::MannerMode => 203,
            NamedKey::VoiceDial => 204,
            NamedKey::TV => 205,
            NamedKey::TV3DMode => 206,
            NamedKey::TVAntennaCable => 207,
            NamedKey::TVAudioDescription => 208,
            NamedKey::TVAudioDescriptionMixDown => 209,
            NamedKey::TVAudioDescriptionMixUp => 210,
            NamedKey::TVContentsMenu => 211,
            NamedKey::TVDataService => 212,
            NamedKey::TVInput => 213,
            NamedKey::TVInputComponent1 => 214,
            NamedKey::TVInputComponent2 => 215,
            NamedKey::TVInputComposite1 => 216,
            NamedKey::TVInputComposite2 => 217,
            NamedKey::TVInputHDMI1 => 218,
            NamedKey::TVInputHDMI2 => 219,
            NamedKey::TVInputHDMI3 => 220,
            NamedKey::TVInputHDMI4 => 221,
            NamedKey::TVInputVGA1 => 222,
            NamedKey::TVMediaContext => 223,
            NamedKey::TVNetwork => 224,
            NamedKey::TVNumberEntry => 225,
            NamedKey::TVPower => 226,
            NamedKey::TVRadioService => 227,
            NamedKey::TVSatellite => 228,
            NamedKey::TVSatelliteBS => 229,
            NamedKey::TVSatelliteCS => 230,
            NamedKey::TVSatelliteToggle => 231,
            NamedKey::TVTerrestrialAnalog => 232,
            NamedKey::TVTerrestrialDigital => 233,
            NamedKey::TVTimer => 234,
            NamedKey::AVRInput => 235,
            NamedKey::AVRPower => 236,
            NamedKey::ColorF0Red => 237,
            NamedKey::ColorF1Green => 238,
            NamedKey::ColorF2Yellow => 239,
            NamedKey::ColorF3Blue => 240,
            NamedKey::ColorF4Grey => 241,
            NamedKey::ColorF5Brown => 242,
            NamedKey::ClosedCaptionToggle => 243,
            NamedKey::Dimmer => 244,
            NamedKey::DisplaySwap => 245,
            NamedKey::DVR => 246,
            NamedKey::Exit => 247,
            NamedKey::FavoriteClear0 => 248,
            NamedKey::FavoriteClear1 => 249,
            NamedKey::FavoriteClear2 => 250,
            NamedKey::FavoriteClear3 => 251,
            NamedKey::FavoriteRecall0 => 252,
            NamedKey::FavoriteRecall1 => 253,
            NamedKey::FavoriteRecall2 => 254,
            NamedKey::FavoriteRecall3 => 255,
            NamedKey::FavoriteStore0 => 256,
            NamedKey::FavoriteStore1 => 257,
            NamedKey::FavoriteStore2 => 258,
            NamedKey::FavoriteStore3 => 259,
            NamedKey::Guide => 260,
            NamedKey::GuideNextDay => 261,
            NamedKey::GuidePreviousDay => 262,
            NamedKey::Info => 263,
            NamedKey::InstantReplay => 264,
            NamedKey::Link => 265,
            NamedKey::ListProgram => 266,
            NamedKey::LiveContent => 267,
            NamedKey::Lock => 268,
            NamedKey::MediaApps => 269,
            NamedKey::MediaAudioTrack => 270,
            NamedKey::MediaLast => 271,
            NamedKey::MediaSkipBackward => 272,
            NamedKey::MediaSkipForward => 273,
            NamedKey::MediaStepBackward => 274,
            NamedKey::MediaStepForward => 275,
            NamedKey::MediaTopMenu => 276,
            NamedKey::NavigateIn => 277,
            NamedKey::NavigateNext => 278,
            NamedKey::NavigateOut => 279,
            NamedKey::NavigatePrevious => 280,
            NamedKey::NextFavoriteChannel => 281,
            NamedKey::NextUserProfile => 282,
            NamedKey::OnDemand => 283,
            NamedKey::Pairing => 284,
            NamedKey::PinPDown => 285,
            NamedKey::PinPMove => 286,
            NamedKey::PinPToggle => 287,
            NamedKey::PinPUp => 288,
            NamedKey::PlaySpeedDown => 289,
            NamedKey::PlaySpeedReset => 290,
            NamedKey::PlaySpeedUp => 291,
            NamedKey::RandomToggle => 292,
            NamedKey::RcLowBattery => 293,
            NamedKey::RecordSpeedNext => 294,
            NamedKey::RfBypass => 295,
            NamedKey::ScanChannelsToggle => 296,
            NamedKey::ScreenModeNext => 297,
            NamedKey::Settings => 298,
            NamedKey::SplitScreenToggle => 299,
            NamedKey::STBInput => 300,
            NamedKey::STBPower => 301,
            NamedKey::Subtitle => 302,
            NamedKey::Teletext => 303,
            NamedKey::VideoModeNext => 304,
            NamedKey::Wink => 305,
            NamedKey::ZoomToggle => 306,
        }
    }

    /// The canonical name of the named key.
    pub fn as_str(self) -> (name: &'static str)
        ensures
            name@ == self.text(),
    {
        match self {
            NamedKey::Unidentified => "Unidentified",
            NamedKey::Alt => "Alt",
            NamedKey::AltGraph => "AltGraph",
            NamedKey::CapsLock => "CapsLock",
            NamedKey::Control => "Control",
            NamedKey::Fn => "Fn",
            NamedKey::FnLock => "FnLock",
            NamedKey::Meta => "Meta",
            NamedKey::NumLock => "NumLock",
            NamedKey::ScrollLock => "ScrollLock",
            NamedKey::Shift => "Shift",
            NamedKey::Symbol => "Symbol",
            NamedKey::SymbolLock => "SymbolLock",
            NamedKey::Hyper => "Hyper",
            NamedKey::Super => "Super",
            NamedKey::Enter => "Enter",
            NamedKey::Tab => "Tab",
            NamedKey::ArrowDown => "ArrowDown",
            NamedKey::ArrowLeft => "ArrowLeft",
            NamedKey::ArrowRight => "ArrowRight",
            NamedKey::ArrowUp => "ArrowUp",
            NamedKey::End => "End",
            NamedKey::Home => "Home",
            NamedKey::PageDown => "PageDown",
            NamedKey::PageUp => "PageUp",
            NamedKey::Backspace => "Backspace",
            NamedKey::Clear => "Clear",
            NamedKey::Copy => "Copy",
            NamedKey::CrSel => "CrSel",
            NamedKey::Cut => "Cut",
            NamedKey::Delete => "Delete",
            NamedKey::EraseEof => "EraseEof",
            NamedKey::ExSel => "ExSel",
            NamedKey::Insert => "Insert",
            NamedKey::Paste => "Paste",
            NamedKey::Redo => "Redo",
            NamedKey::Undo => "Undo",
            NamedKey::Accept => "Accept",
            NamedKey::Again => "Again",
            NamedKey::Attn => "Attn",
            NamedKey::Cancel => "Cancel",
            NamedKey::ContextMenu => "ContextMenu",
            NamedKey::Escape => "Escape",
            NamedKey::Execute => "Execute",
            NamedKey::Find => "Find",
            NamedKey::Help => "Help",
            NamedKey::Pause => "Pause",
            NamedKey::Play => "Play",
            NamedKey::Props => "Props",
            NamedKey::Select => "Select",
            NamedKey::ZoomIn => "ZoomIn",
            NamedKey::ZoomOut => "ZoomOut",
            NamedKey::BrightnessDown => "BrightnessDown",
            NamedKey::BrightnessUp => "BrightnessUp",
            NamedKey::Eject => "Eject",
            NamedKey::LogOff => "LogOff",
            NamedKey::Power => "Power",
            NamedKey::PowerOff => "PowerOff",
            NamedKey::PrintScreen => "PrintScreen",
            NamedKey::Hibernate => "Hibernate",
            NamedKey::Standby => "Standby",
            NamedKey::WakeUp => "WakeUp",
            NamedKey::AllCandidates => "AllCandidates",
            NamedKey::Alphanumeric => "Alphanumeric",
            NamedKey::CodeInput => "CodeInput",
            NamedKey::Compose => "Compose",
            NamedKey::Convert => "Convert",
            NamedKey::Dead => "Dead",
            NamedKey::FinalMode => "FinalMode",
            NamedKey::GroupFirst => "GroupFirst",
            NamedKey::GroupLast => "GroupLast",
            NamedKey::GroupNext => "GroupNext",
            NamedKey::GroupPrevious => "GroupPrevious",
            NamedKey::ModeChange => "ModeChange",
            NamedKey::NextCandidate => "NextCandidate",
            NamedKey::NonConvert => "NonConvert",
            NamedKey::PreviousCandidate => "PreviousCandidate",
            NamedKey::Process => "Process",
            NamedKey::SingleCandidate => "SingleCandidate",
            NamedKey::HangulMode => "HangulMode",
            NamedKey::HanjaMode => "HanjaMode",
            NamedKey::JunjaMode => "JunjaMode",
            NamedKey::Eisu => "Eisu",
            NamedKey::Hankaku => "Hankaku",
            NamedKey::Hiragana => "Hiragana",
            NamedKey::HiraganaKatakana => "HiraganaKatakana",
            NamedKey::KanaMode => "KanaMode",
            NamedKey::KanjiMode => "KanjiMode",
            NamedKey::Katakana => "Katakana",
            NamedKey::Romaji => "Romaji",
            NamedKey::Zenkaku => "Zenkaku",
            NamedKey::ZenkakuHankaku => "ZenkakuHankaku",
            NamedKey::F1 => "F1",
            NamedKey::F2 => "F2",
            NamedKey::F3 => "F3",
            NamedKey::F4 => "F4",
            NamedKey::F5 => "F5",
            NamedKey::F6 => "F6",
            NamedKey::F7 => "F7",
            NamedKey::F8 => "F8",
            NamedKey::F9 => "F9",
            NamedKey::F10 => "F10",
            NamedKey::F11 => "F11",
            NamedKey::F12 => "F12",
            NamedKey::F13 => "F13",
            NamedKey::F14 => "F14",
            NamedKey::F15 => "F15",
            NamedKey::F16 => "F16",
            NamedKey::F17 => "F17",
            NamedKey::F18 => "F18",
            NamedKey::F19 => "F19",
            NamedKey::F20 => "F20",
            NamedKey::F21 => "F21",
            NamedKey::F22 => "F22",
            NamedKey::F23 => "F23",
            NamedKey::F24 => "F24",
            NamedKey::F25 => "F25",
            NamedKey::F26 => "F26",
            NamedKey::F27 => "F27",
            NamedKey::F28 => "F28",
            NamedKey::F29 => "F29",
            NamedKey::F30 => "F30",
            NamedKey::F31 => "F31",
            NamedKey::F32 => "F32",
            NamedKey::F33 => "F33",
            NamedKey::F34 => "F34",
            NamedKey::F35 => "F35",
            NamedKey::Soft1 => "Soft1",
            NamedKey::Soft2 => "Soft2",
            NamedKey::Soft3 => "Soft3",
            NamedKey::Soft4 => "Soft4",
            NamedKey::ChannelDown => "ChannelDown",
            NamedKey::ChannelUp => "ChannelUp",
            NamedKey::Close => "Close",
            NamedKey::MailForward => "MailForward",
            NamedKey::MailReply => "MailReply",
            NamedKey::MailSend => "MailSend",
            NamedKey::MediaClose => "MediaClose",
            NamedKey::MediaFastForward => "MediaFastForward",
            NamedKey::MediaPause => "MediaPause",
            NamedKey::MediaPlay => "MediaPlay",
            NamedKey::MediaPlayPause => "MediaPlayPause",
            NamedKey::MediaRecord => "MediaRecord",
            NamedKey::MediaRewind => "MediaRewind",
            NamedKey::MediaStop => "MediaStop",
            NamedKey::MediaTrackNext => "MediaTrackNext",
            NamedKey::MediaTrackPrevious => "MediaTrackPrevious",
            NamedKey::New => "New",
            NamedKey::Open => "Open",
            NamedKey::Print => "Print",
            NamedKey::Save => "Save",
            NamedKey::SpellCheck => "SpellCheck",
            NamedKey::Key11 => "Key11",
            NamedKey::Key12 => "Key12",
            NamedKey::AudioBalanceLeft => "AudioBalanceLeft",
            NamedKey::AudioBalanceRight => "AudioBalanceRight",
            NamedKey::AudioBassBoostDown => "AudioBassBoostDown",
            NamedKey::AudioBassBoostToggle => "AudioBassBoostToggle",
            NamedKey::AudioBassBoostUp => "AudioBassBoostUp",
            NamedKey::AudioFaderFront => "AudioFaderFront",
            NamedKey::AudioFaderRear => "AudioFaderRear",
            NamedKey::AudioSurroundModeNext => "AudioSurroundModeNext",
            NamedKey::AudioTrebleDown => "AudioTrebleDown",
            NamedKey::AudioTrebleUp => "AudioTrebleUp",
            NamedKey::AudioVolumeDown => "AudioVolumeDown",
            NamedKey::AudioVolumeUp => "AudioVolumeUp",
            NamedKey::AudioVolumeMute => "AudioVolumeMute",
            NamedKey::MicrophoneToggle => "MicrophoneToggle",
            NamedKey::MicrophoneVolumeDown => "MicrophoneVolumeDown",
            NamedKey::MicrophoneVolumeUp => "MicrophoneVolumeUp",
            NamedKey::MicrophoneVolumeMute => "MicrophoneVolumeMute",
            NamedKey::SpeechCorrectionList => "SpeechCorrectionList",
            NamedKey::SpeechInputToggle => "SpeechInputToggle",
            NamedKey::LaunchApplication1 => "LaunchApplication1",
            NamedKey::LaunchApplication2 => "LaunchApplication2",
            NamedKey::LaunchCalendar => "LaunchCalendar",
            NamedKey::LaunchContacts => "LaunchContacts",
            NamedKey::LaunchMail => "LaunchMail",
            NamedKey::LaunchMediaPlayer => "LaunchMediaPlayer",
            NamedKey::LaunchMusicPlayer => "LaunchMusicPlayer",
            NamedKey::LaunchPhone => "LaunchPhone",
            NamedKey::LaunchScreenSaver => "LaunchScreenSaver",
            NamedKey::LaunchSpreadsheet => "LaunchSpreadsheet",
            NamedKey::LaunchWebBrowser => "LaunchWebBrowser",
            NamedKey::LaunchWebCam => "LaunchWebCam",
            NamedKey::LaunchWordProcessor => "LaunchWordProcessor",
            NamedKey::BrowserBack => "BrowserBack",
            NamedKey::BrowserFavorites => "BrowserFavorites",
            NamedKey::BrowserForward => "BrowserForward",
            NamedKey::BrowserHome => "BrowserHome",
            NamedKey::BrowserRefresh => "BrowserRefresh",
            NamedKey::BrowserSearch => "BrowserSearch",
            NamedKey::BrowserStop => "BrowserStop",
            NamedKey::AppSwitch => "AppSwitch",
            NamedKey::Call => "Call",
            NamedKey::Camera => "Camera",
            NamedKey::CameraFocus => "CameraFocus",
            NamedKey::EndCall => "EndCall",
            NamedKey::GoBack => "GoBack",
            NamedKey::GoHome => "GoHome",
            NamedKey::HeadsetHook => "HeadsetHook",
            NamedKey::LastNumberRedial => "LastNumberRedial",
            NamedKey::Notification => "Notification",
            NamedKey::MannerMode => "MannerMode",
            NamedKey::VoiceDial => "VoiceDial",
            NamedKey::TV => "TV",
            NamedKey::TV3DMode => "TV3DMode",
            NamedKey::TVAntennaCable => "TVAntennaCable",
            NamedKey::TVAudioDescription => "TVAudioDescription",
            NamedKey::TVAudioDescriptionMixDown => "TVAudioDescriptionMixDown",
            NamedKey::TVAudioDescriptionMixUp => "TVAudioDescriptionMixUp",
            NamedKey::TVContentsMenu => "TVContentsMenu",
            NamedKey::TVDataService => "TVDataService",
            NamedKey::TVInput => "TVInput",
            NamedKey::TVInputComponent1 => "TVInputComponent1",
            NamedKey::TVInputComponent2 => "TVInputComponent2",
            NamedKey::TVInputComposite1 => "TVInputComposite1",
            NamedKey::TVInputComposite2 => "TVInputComposite2",
            NamedKey::TVInputHDMI1 => "TVInputHDMI1",
            NamedKey::TVInputHDMI2 => "TVInputHDMI2",
            NamedKey::TVInputHDMI3 => "TVInputHDMI3",
            NamedKey::TVInputHDMI4 => "TVInputHDMI4",
            NamedKey::TVInputVGA1 => "TVInputVGA1",
            NamedKey::TVMediaContext => "TVMediaContext",
            NamedKey::TVNetwork => "TVNetwork",
            NamedKey::TVNumberEntry => "TVNumberEntry",
            NamedKey::TVPower => "TVPower",
            NamedKey::TVRadioService => "TVRadioService",
            NamedKey::TVSatellite => "TVSatellite",
            NamedKey::TVSatelliteBS => "TVSatelliteBS",
            NamedKey::TVSatelliteCS => "TVSatelliteCS",
            NamedKey::TVSatelliteToggle => "TVSatelliteToggle",
            NamedKey::TVTerrestrialAnalog => "TVTerrestrialAnalog",
            NamedKey::TVTerrestrialDigital => "TVTerrestrialDigital",
            NamedKey::TVTimer => "TVTimer",
            NamedKey::AVRInput => "AVRInput",
            NamedKey::AVRPower => "AVRPower",
            NamedKey::ColorF0Red => "ColorF0Red",
            NamedKey::ColorF1Green => "ColorF1Green",
            NamedKey::ColorF2Yellow => "ColorF2Yellow",
            NamedKey::ColorF3Blue => "ColorF3Blue",
            NamedKey::ColorF4Grey => "ColorF4Grey",
            NamedKey::ColorF5Brown => "ColorF5Brown",
            NamedKey::ClosedCaptionToggle => "ClosedCaptionToggle",
            NamedKey::Dimmer => "Dimmer",
            NamedKey::DisplaySwap => "DisplaySwap",
            NamedKey::DVR => "DVR",
            NamedKey::Exit => "Exit",
            NamedKey::FavoriteClear0 => "FavoriteClear0",
            NamedKey::FavoriteClear1 => "FavoriteClear1",
            NamedKey::FavoriteClear2 => "FavoriteClear2",
            NamedKey::FavoriteClear3 => "FavoriteClear3",
            NamedKey::FavoriteRecall0 => "FavoriteRecall0",
            NamedKey::FavoriteRecall1 => "FavoriteRecall1",
            NamedKey::FavoriteRecall2 => "FavoriteRecall2",
            NamedKey::FavoriteRecall3 => "FavoriteRecall3",
            NamedKey::FavoriteStore0 => "FavoriteStore0",
            NamedKey::FavoriteStore1 => "FavoriteStore1",
            NamedKey::FavoriteStore2 => "FavoriteStore2",
            NamedKey::FavoriteStore3 => "FavoriteStore3",
            NamedKey::Guide => "Guide",
            NamedKey::GuideNextDay => "GuideNextDay",
            NamedKey::GuidePreviousDay => "GuidePreviousDay",
            NamedKey::Info => "Info",
            NamedKey::InstantReplay => "InstantReplay",
            NamedKey::Link => "Link",
            NamedKey::ListProgram => "ListProgram",
            NamedKey::LiveContent => "LiveContent",
            NamedKey::Lock => "Lock",
            NamedKey::MediaApps => "MediaApps",
            NamedKey::MediaAudioTrack => "MediaAudioTrack",
            NamedKey::MediaLast => "MediaLast",
            NamedKey::MediaSkipBackward => "MediaSkipBackward",
            NamedKey::MediaSkipForward => "MediaSkipForward",
            NamedKey::MediaStepBackward => "MediaStepBackward",
            NamedKey::MediaStepForward => "MediaStepForward",
            NamedKey::MediaTopMenu => "MediaTopMenu",
            NamedKey::NavigateIn => "NavigateIn",
            NamedKey::NavigateNext => "NavigateNext",
            NamedKey::NavigateOut => "NavigateOut",
            NamedKey::NavigatePrevious => "NavigatePrevious",
            NamedKey::NextFavoriteChannel => "NextFavoriteChannel",
            NamedKey::NextUserProfile => "NextUserProfile",
            NamedKey::OnDemand => "OnDemand",
            NamedKey::Pairing => "Pairing",
            NamedKey::PinPDown => "PinPDown",
            NamedKey::PinPMove => "PinPMove",
            NamedKey::PinPToggle => "PinPToggle",
            NamedKey::PinPUp => "PinPUp",
            NamedKey::PlaySpeedDown => "PlaySpeedDown",
            NamedKey::PlaySpeedReset => "PlaySpeedReset",
            NamedKey::PlaySpeedUp => "PlaySpeedUp",
            NamedKey::RandomToggle => "RandomToggle",
            NamedKey::RcLowBattery => "RcLowBattery",
            NamedKey::RecordSpeedNext => "RecordSpeedNext",
            NamedKey::RfBypass => "RfBypass",
            NamedKey::ScanChannelsToggle => "ScanChannelsToggle",
            NamedKey::ScreenModeNext => "ScreenModeNext",
            NamedKey::Settings => "Settings",
            NamedKey::SplitScreenToggle => "SplitScreenToggle",
            NamedKey::STBInput => "STBInput",
            NamedKey::STBPower => "STBPower",
            NamedKey::Subtitle => "Subtitle",
            NamedKey::Teletext => "Teletext",
            NamedKey::VideoModeNext => "VideoModeNext",
            NamedKey::Wink => "Wink",
            NamedKey::ZoomToggle => "ZoomToggle",
        }
    }

    /// The named key at position `index` of the declaration order.
    #[verifier::rlimit(50)]
    fn from_ordinal(index: usize) -> (key: NamedKey)
        requires
            index < NAMED_KEY_COUNT,
        ensures
            key.ordinal() == index,
    {
        match index {
            0 => NamedKey::Unidentified,
            1 => NamedKey::Alt,
            2 => NamedKey::AltGraph,
            3 => NamedKey::CapsLock,
            4 => NamedKey::Control,
            5 => NamedKey::Fn,
            6 => NamedKey::FnLock,
            7 => NamedKey::Meta,
            8 => NamedKey::NumLock,
            9 => NamedKey::ScrollLock,
            10 => NamedKey::Shift,
            11 => NamedKey::Symbol,
            12 => NamedKey::SymbolLock,
            13 => NamedKey::Hyper,
            14 => NamedKey::Super,
            15 => NamedKey::Enter,
            16 => NamedKey::Tab,
            17 => NamedKey::ArrowDown,
            18 => NamedKey::ArrowLeft,
            19 => NamedKey::ArrowRight,
            20 => NamedKey::ArrowUp,
            21 => NamedKey::End,
            22 => NamedKey::Home,
            23 => NamedKey::PageDown,
            24 => NamedKey::PageUp,
            25 => NamedKey::Backspace,
            26 => NamedKey::Clear,
            27 => NamedKey::Copy,
            28 => NamedKey::CrSel,
            29 => NamedKey::Cut,
            30 => NamedKey::Delete,
            31 => NamedKey::EraseEof,
            32 => NamedKey::ExSel,
            33 => NamedKey::Insert,
            34 => NamedKey::Paste,
            35 => NamedKey::Redo,
            36 => NamedKey::Undo,
            37 => NamedKey::Accept,
            38 => NamedKey::Again,
            39 => NamedKey::Attn,
            40 => NamedKey::Cancel,
            41 => NamedKey::ContextMenu,
            42 => NamedKey::Escape,
            43 => NamedKey::Execute,
            44 => NamedKey::Find,
            45 => NamedKey::Help,
            46 => NamedKey::Pause,
            47 => NamedKey::Play,
            48 => NamedKey::Props,
            49 => NamedKey::Select,
            50 => NamedKey::ZoomIn,
            51 => NamedKey::ZoomOut,
            52 => NamedKey::BrightnessDown,
            53 => NamedKey::BrightnessUp,
            54 => NamedKey::Eject,
            55 => NamedKey::LogOff,
            56 => NamedKey::Power,
            57 => NamedKey::PowerOff,
            58 => NamedKey::PrintScreen,
            59 => NamedKey::Hibernate,
            60 => NamedKey::Standby,
            61 => NamedKey::WakeUp,
            62 => NamedKey::AllCandidates,
            63 => NamedKey::Alphanumeric,
            64 => NamedKey::CodeInput,
            65 => NamedKey::Compose,
            66 => NamedKey::Convert,
            67 => NamedKey::Dead,
            68 => NamedKey::FinalMode,
            69 => NamedKey::GroupFirst,
            70 => NamedKey::GroupLast,
            71 => NamedKey::GroupNext,
            72 => NamedKey::GroupPrevious,
            73 => NamedKey::ModeChange,
            74 => NamedKey::NextCandidate,
            75 => NamedKey::NonConvert,
            76 => NamedKey::PreviousCandidate,
            77 => NamedKey::Process,
            78 => NamedKey::SingleCandidate,
            79 => NamedKey::HangulMode,
            80 => NamedKey::HanjaMode,
            81 => NamedKey::JunjaMode,
            82 => NamedKey::Eisu,
            83 => NamedKey::Hankaku,
            84 => NamedKey::Hiragana,
            85 => NamedKey::HiraganaKatakana,
            86 => NamedKey::KanaMode,
            87 => NamedKey::KanjiMode,
            88 => NamedKey::Katakana,
            89 => NamedKey::Romaji,
            90 => NamedKey::Zenkaku,
            91 => NamedKey::ZenkakuHankaku,
            92 => NamedKey::F1,
            93 => NamedKey::F2,
            94 => NamedKey::F3,
            95 => NamedKey::F4,
            96 => NamedKey::F5,
            97 => NamedKey::F6,
            98 => NamedKey::F7,
            99 => NamedKey::F8,
            100 => NamedKey::F9,
            101 => NamedKey::F10,
            102 => NamedKey::F11,
            103 => NamedKey::F12,
            104 => NamedKey::F13,
            105 => NamedKey::F14,
            106 => NamedKey::F15,
            107 => NamedKey::F16,
            108 => NamedKey::F17,
            109 => NamedKey::F18,
            110 => NamedKey::F19,
            111 => NamedKey::F20,
            112 => NamedKey::F21,
            113 => NamedKey::F22,
            114 => NamedKey::F23,
            115 => NamedKey::F24,
            116 => NamedKey::F25,
            117 => NamedKey::F26,
            118 => NamedKey::F27,
            119 => NamedKey::F28,
            120 => NamedKey::F29,
            121 => NamedKey::F30,
            122 => NamedKey::F31,
            123 => NamedKey::F32,
            124 => NamedKey::F33,
            125 => NamedKey::F34,
            126 => NamedKey::F35,
            127 => NamedKey::Soft1,
            128 => NamedKey::Soft2,
            129 => NamedKey::Soft3,
            130 => NamedKey::Soft4,
            131 => NamedKey::ChannelDown,
            132 => NamedKey::ChannelUp,
            133 => NamedKey::Close,
            134 => NamedKey::MailForward,
            135 => NamedKey::MailReply,
            136 => NamedKey::MailSend,
            137 => NamedKey::MediaClose,
            138 => NamedKey::MediaFastForward,
            139 => NamedKey::MediaPause,
            140 => NamedKey::MediaPlay,
            141 => NamedKey::MediaPlayPause,
            142 => NamedKey::MediaRecord,
            143 => NamedKey::MediaRewind,
            144 => NamedKey::MediaStop,
            145 => NamedKey::MediaTrackNext,
            146 => NamedKey::MediaTrackPrevious,
            147 => NamedKey::New,
            148 => NamedKey::Open,
            149 => NamedKey::Print,
            150 => NamedKey::Save,
            151 => NamedKey::SpellCheck,
            152 => NamedKey::Key11,
            153 => NamedKey::Key12,
            154 => NamedKey::AudioBalanceLeft,
            155 => NamedKey::AudioBalanceRight,
            156 => NamedKey::AudioBassBoostDown,
            157 => NamedKey::AudioBassBoostToggle,
            158 => NamedKey::AudioBassBoostUp,
            159 => NamedKey::AudioFaderFront,
            160 => NamedKey::AudioFaderRear,
            161 => NamedKey::AudioSurroundModeNext,
            162 => NamedKey::AudioTrebleDown,
            163 => NamedKey::AudioTrebleUp,
            164 => NamedKey::AudioVolumeDown,
            165 => NamedKey::AudioVolumeUp,
            166 => NamedKey::AudioVolumeMute,
            167 => NamedKey::MicrophoneToggle,
            168 => NamedKey::MicrophoneVolumeDown,
            169 => NamedKey::MicrophoneVolumeUp,
            170 => NamedKey::MicrophoneVolumeMute,
            171 => NamedKey::SpeechCorrectionList,
            172 => NamedKey::SpeechInputToggle,
            173 => NamedKey::LaunchApplication1,
            174 => NamedKey::LaunchApplication2,
            175 => NamedKey::LaunchCalendar,
            176 => NamedKey::LaunchContacts,
            177 => NamedKey::LaunchMail,
            178 => NamedKey::LaunchMediaPlayer,
            179 => NamedKey::LaunchMusicPlayer,
            180 => NamedKey::LaunchPhone,
            181 => NamedKey::LaunchScreenSaver,
            182 => NamedKey::LaunchSpreadsheet,
            183 => NamedKey::LaunchWebBrowser,
            184 => NamedKey::LaunchWebCam,
            185 => NamedKey::LaunchWordProcessor,
            186 => NamedKey::BrowserBack,
            187 => NamedKey::BrowserFavorites,
            188 => NamedKey::BrowserForward,
            189 => NamedKey::BrowserHome,
            190 => NamedKey::BrowserRefresh,
            191 => NamedKey::BrowserSearch,
            192 => NamedKey::BrowserStop,
            193 => NamedKey::AppSwitch,
            194 => NamedKey::Call,
            195 => NamedKey::Camera,
            196 => NamedKey::CameraFocus,
            197 => NamedKey::EndCall,
            198 => NamedKey::GoBack,
            199 => NamedKey::GoHome,
            200 => NamedKey::HeadsetHook,
            201 => NamedKey::LastNumberRedial,
            202 => NamedKey::Notification,
            203 => NamedKey::MannerMode,
            204 => NamedKey::VoiceDial,
            205 => NamedKey::TV,
            206 => NamedKey::TV3DMode,
            207 => NamedKey::TVAntennaCable,
            208 => NamedKey::TVAudioDescription,
            209 => NamedKey::TVAudioDescriptionMixDown,
            210 => NamedKey::TVAudioDescriptionMixUp,
            211 => NamedKey::TVContentsMenu,
            212 => NamedKey::TVDataService,
            213 => NamedKey::TVInput,
            214 => NamedKey::TVInputComponent1,
            215 => NamedKey::TVInputComponent2,
            216 => NamedKey::TVInputComposite1,
            217 => NamedKey::TVInputComposite2,
            218 => NamedKey::TVInputHDMI1,
            219 => NamedKey::TVInputHDMI2,
            220 => NamedKey::TVInputHDMI3,
            221 => NamedKey::TVInputHDMI4,
            222 => NamedKey::TVInputVGA1,
            223 => NamedKey::TVMediaContext,
            224 => NamedKey::TVNetwork,
            225 => NamedKey::TVNumberEntry,
            226 => NamedKey::TVPower,
            227 => NamedKey::TVRadioService,
            228 => NamedKey::TVSatellite,
            229 => NamedKey::TVSatelliteBS,
            230 => NamedKey::TVSatelliteCS,
            231 => NamedKey::TVSatelliteToggle,
            232 => NamedKey::TVTerrestrialAnalog,
            233 => NamedKey::TVTerrestrialDigital,
            234 => NamedKey::TVTimer,
            235 => NamedKey::AVRInput,
            236 => NamedKey::AVRPower,
            237 => NamedKey::ColorF0Red,
            238 => NamedKey::ColorF1Green,
            239 => NamedKey::ColorF2Yellow,
            240 => NamedKey::ColorF3Blue,
            241 => NamedKey::ColorF4Grey,
            242 => NamedKey::ColorF5Brown,
            243 => NamedKey::ClosedCaptionToggle,
            244 => NamedKey::Dimmer,
            245 => NamedKey::DisplaySwap,
            246 => NamedKey::DVR,
            247 => NamedKey::Exit,
            248 => NamedKey::FavoriteClear0,
            249 => NamedKey::FavoriteClear1,
            250 => NamedKey::FavoriteClear2,
            251 => NamedKey::FavoriteClear3,
            252 => NamedKey::FavoriteRecall0,
            253 => NamedKey::FavoriteRecall1,
            254 => NamedKey::FavoriteRecall2,
            255 => NamedKey::FavoriteRecall3,
            256 => NamedKey::FavoriteStore0,
            257 => NamedKey::FavoriteStore1,
            258 => NamedKey::FavoriteStore2,
            259 => NamedKey::FavoriteStore3,
            260 => NamedKey::Guide,
            261 => NamedKey::GuideNextDay,
            262 => NamedKey::GuidePreviousDay,
            263 => NamedKey::Info,
            264 => NamedKey::InstantReplay,
            265 => NamedKey::Link,
            266 => NamedKey::ListProgram,
            267 => NamedKey::LiveContent,
            268 => NamedKey::Lock,
            269 => NamedKey::MediaApps,
            270 => NamedKey::MediaAudioTrack,
            271 => NamedKey::MediaLast,
            272 => NamedKey::MediaSkipBackward,
            273 => NamedKey::MediaSkipForward,
            274 => NamedKey::MediaStepBackward,
            275 => NamedKey::MediaStepForward,
            276 => NamedKey::MediaTopMenu,
            277 => NamedKey::NavigateIn,
            278 => NamedKey::NavigateNext,
            279 => NamedKey::NavigateOut,
            280 => NamedKey::NavigatePrevious,
            281 => NamedKey::NextFavoriteChannel,
            282 => NamedKey::NextUserProfile,
            283 => NamedKey::OnDemand,
            284 => NamedKey::Pairing,
            285 => NamedKey::PinPDown,
            286 => NamedKey::PinPMove,
            287 => NamedKey::PinPToggle,
            288 => NamedKey::PinPUp,
            289 => NamedKey::PlaySpeedDown,
            290 => NamedKey::PlaySpeedReset,
            291 => NamedKey::PlaySpeedUp,
            292 => NamedKey::RandomToggle,
            293 => NamedKey::RcLowBattery,
            294 => NamedKey::RecordSpeedNext,
            295 => NamedKey::RfBypass,
            296 => NamedKey::ScanChannelsToggle,
            297 => NamedKey::ScreenModeNext,
            298 => NamedKey::Settings,
            299 => NamedKey::SplitScreenToggle,
            300 => NamedKey::STBInput,
            301 => NamedKey::STBPower,
            302 => NamedKey::Subtitle,
            303 => NamedKey::Teletext,
            304 => NamedKey::VideoModeNext,
            305 => NamedKey::Wink,
            _ => NamedKey::ZoomToggle,
        }
    }

    /// Parses the canonical name of a named key.
    ///
    /// Succeeds exactly on the names of the named keys, and then returns the
    /// one that bears the name.
    pub fn from_str(s: &str) -> (parsed: Result<NamedKey, UnrecognizedNamedKeyError>)
        ensures
            match parsed {
                Ok(key) => key.text() == s@,
                Err(_) => forall|key: NamedKey| key.text() != s@,
            },
            parsed.ok() == NamedKey::named(s@),
    {
        let mut index: usize = 0;
        while index < NAMED_KEY_COUNT
            invariant
                index <= NAMED_KEY_COUNT,
                forall|key: NamedKey| key.ordinal() < index ==> key.text() != s@,
            decreases NAMED_KEY_COUNT - index,
        {
            let candidate = NamedKey::from_ordinal(index);
            if str_eq(candidate.as_str(), s) {
                proof {
                    lemma_name_determines_key(candidate, NamedKey::named(s@).unwrap());
                }
                return Ok(candidate);
            }
            proof {
                assert forall|key: NamedKey| key.ordinal() < index + 1 implies key.text() != s@ by {
                    lemma_ordinal_determines_key(key, candidate);
                }
            }
            index += 1;
        }
        proof {
            assert forall|key: NamedKey| key.text() != s@ by {
                lemma_ordinal_determines_key(key, key);
            }
        }
        Err(UnrecognizedNamedKeyError)
    }
}

impl core::str::FromStr for NamedKey {
    type Err = UnrecognizedNamedKeyError;

    /// Parses the canonical name of a named key, as [`NamedKey::from_str`] does.
    fn from_str(s: &str) -> (parsed: Result<NamedKey, UnrecognizedNamedKeyError>)
        ensures
            match parsed {
                Ok(key) => key.text() == s@,
                Err(_) => forall|key: NamedKey| key.text() != s@,
            },
            parsed.ok() == NamedKey::named(s@),
    {
        NamedKey::from_str(s)
    }
}

/// Every named key has a position below their number, and no two share a
/// position.
proof fn lemma_ordinal_determines_key(a: NamedKey, b: NamedKey)
    ensures
        a.ordinal() < NAMED_KEY_COUNT,
        a.ordinal() == b.ordinal() ==> a == b,
{
}

/// No two named keys share a name.
pub proof fn lemma_name_determines_key(a: NamedKey, b: NamedKey)
    requires
        a.text() == b.text(),
    ensures
        a == b,
{
    reveal_strlit("Unidentified");
    reveal_strlit("Alt");
    reveal_strlit("AltGraph");
    reveal_strlit("CapsLock");
    reveal_strlit("Control");
    reveal_strlit("Fn");
    reveal_strlit("FnLock");
    reveal_strlit("Meta");
    reveal_strlit("NumLock");
    reveal_strlit("ScrollLock");
    reveal_strlit("Shift");
    reveal_strlit("Symbol");
    reveal_strlit("SymbolLock");
    reveal_strlit("Hyper");
    reveal_strlit("Super");
    reveal_strlit("Enter");
    reveal_strlit("Tab");
    reveal_strlit("ArrowDown");
    reveal_strlit("ArrowLeft");
    reveal_strlit("ArrowRight");
    reveal_strlit("ArrowUp");
    reveal_strlit("End");
    reveal_strlit("Home");
    reveal_strlit("PageDown");
    reveal_strlit("PageUp");
    reveal_strlit("Backspace");
    reveal_strlit("Clear");
    reveal_strlit("Copy");
    reveal_strlit("CrSel");
    reveal_strlit("Cut");
    reveal_strlit("Delete");
    reveal_strlit("EraseEof");
    reveal_strlit("ExSel");
    reveal_strlit("Insert");
    reveal_strlit("Paste");
    reveal_strlit("Redo");
    reveal_strlit("Undo");
    reveal_strlit("Accept");
    reveal_strlit("Again");
    reveal_strlit("Attn");
    reveal_strlit("Cancel");
    reveal_strlit("ContextMenu");
    reveal_strlit("Escape");
    reveal_strlit("Execute");
    reveal_strlit("Find");
    reveal_strlit("Help");
    reveal_strlit("Pause");
    reveal_strlit("Play");
    reveal_strlit("Props");
    reveal_strlit("Select");
    reveal_strlit("ZoomIn");
    reveal_strlit("ZoomOut");
    reveal_strlit("BrightnessDown");
    reveal_strlit("BrightnessUp");
    reveal_strlit("Eject");
    reveal_strlit("LogOff");
    reveal_strlit("Power");
    reveal_strlit("PowerOff");
    reveal_strlit("PrintScreen");
    reveal_strlit("Hibernate");
    reveal_strlit("Standby");
    reveal_strlit("WakeUp");
    reveal_strlit("AllCandidates");
    reveal_strlit("Alphanumeric");
    reveal_strlit("CodeInput");
    reveal_strlit("Compose");
    reveal_strlit("Convert");
    reveal_strlit("Dead");
    reveal_strlit("FinalMode");
    reveal_strlit("GroupFirst");
    reveal_strlit("GroupLast");
    reveal_strlit("GroupNext");
    reveal_strlit("GroupPrevious");
    reveal_strlit("ModeChange");
    reveal_strlit("NextCandidate");
    reveal_strlit("NonConvert");
    reveal_strlit("PreviousCandidate");
    reveal_strlit("Process");
    reveal_strlit("SingleCandidate");
    reveal_strlit("HangulMode");
    reveal_strlit("HanjaMode");
    reveal_strlit("JunjaMode");
    reveal_strlit("Eisu");
    reveal_strlit("Hankaku");
    reveal_strlit("Hiragana");
    reveal_strlit("HiraganaKatakana");
    reveal_strlit("KanaMode");
    reveal_strlit("KanjiMode");
    reveal_strlit("Katakana");
    reveal_strlit("Romaji");
    reveal_strlit("Zenkaku");
    reveal_strlit("ZenkakuHankaku");
    reveal_strlit("F1");
    reveal_strlit("F2");
    reveal_strlit("F3");
    reveal_strlit("F4");
    reveal_strlit("F5");
    reveal_strlit("F6");
    reveal_strlit("F7");
    reveal_strlit("F8");
    reveal_strlit("F9");
    reveal_strlit("F10");
    reveal_strlit("F11");
    reveal_strlit("F12");
    reveal_strlit("F13");
    reveal_strlit("F14");
    reveal_strlit("F15");
    reveal_strlit("F16");
    reveal_strlit("F17");
    reveal_strlit("F18");
    reveal_strlit("F19");
    reveal_strlit("F20");
    reveal_strlit("F21");
    reveal_strlit("F22");
    reveal_strlit("F23");
    reveal_strlit("F24");
    reveal_strlit("F25");
    reveal_strlit("F26");
    reveal_strlit("F27");
    reveal_strlit("F28");
    reveal_strlit("F29");
    reveal_strlit("F30");
    reveal_strlit("F31");
    reveal_strlit("F32");
    reveal_strlit("F33");
    reveal_strlit("F34");
    reveal_strlit("F35");
    reveal_strlit("Soft1");
    reveal_strlit("Soft2");
    reveal_strlit("Soft3");
    reveal_strlit("Soft4");
    reveal_strlit("ChannelDown");
    reveal_strlit("ChannelUp");
    reveal_strlit("Close");
    reveal_strlit("MailForward");
    reveal_strlit("MailReply");
    reveal_strlit("MailSend");
    reveal_strlit("MediaClose");
    reveal_strlit("MediaFastForward");
    reveal_strlit("MediaPause");
    reveal_strlit("MediaPlay");
    reveal_strlit("MediaPlayPause");
    reveal_strlit("MediaRecord");
    reveal_strlit("MediaRewind");
    reveal_strlit("MediaStop");
    reveal_strlit("MediaTrackNext");
    reveal_strlit("MediaTrackPrevious");
    reveal_strlit("New");
    reveal_strlit("Open");
    reveal_strlit("Print");
    reveal_strlit("Save");
    reveal_strlit("SpellCheck");
    reveal_strlit("Key11");
    reveal_strlit("Key12");
    reveal_strlit("AudioBalanceLeft");
    reveal_strlit("AudioBalanceRight");
    reveal_strlit("AudioBassBoostDown");
    reveal_strlit("AudioBassBoostToggle");
    reveal_strlit("AudioBassBoostUp");
    reveal_strlit("AudioFaderFront");
    reveal_strlit("AudioFaderRear");
    reveal_strlit("AudioSurroundModeNext");
    reveal_strlit("AudioTrebleDown");
    reveal_strlit("AudioTrebleUp");
    reveal_strlit("AudioVolumeDown");
    reveal_strlit("AudioVolumeUp");
    reveal_strlit("AudioVolumeMute");
    reveal_strlit("MicrophoneToggle");
    reveal_strlit("MicrophoneVolumeDown");
    reveal_strlit("MicrophoneVolumeUp");
    reveal_strlit("MicrophoneVolumeMute");
    reveal_strlit("SpeechCorrectionList");
    reveal_strlit("SpeechInputToggle");
    reveal_strlit("LaunchApplication1");
    reveal_strlit("LaunchApplication2");
    reveal_strlit("LaunchCalendar");
    reveal_strlit("LaunchContacts");
    reveal_strlit("LaunchMail");
    reveal_strlit("LaunchMediaPlayer");
    reveal_strlit("LaunchMusicPlayer");
    reveal_strlit("LaunchPhone");
    reveal_strlit("LaunchScreenSaver");
    reveal_strlit("LaunchSpreadsheet");
    reveal_strlit("LaunchWebBrowser");
    reveal_strlit("LaunchWebCam");
    reveal_strlit("LaunchWordProcessor");
    reveal_strlit("BrowserBack");
    reveal_strlit("BrowserFavorites");
    reveal_strlit("BrowserForward");
    reveal_strlit("BrowserHome");
    reveal_strlit("BrowserRefresh");
    reveal_strlit("BrowserSearch");
    reveal_strlit("BrowserStop");
    reveal_strlit("AppSwitch");
    reveal_strlit("Call");
    reveal_strlit("Camera");
    reveal_strlit("CameraFocus");
    reveal_strlit("EndCall");
    reveal_strlit("GoBack");
    reveal_strlit("GoHome");
    reveal_strlit("HeadsetHook");
    reveal_strlit("LastNumberRedial");
    reveal_strlit("Notification");
    reveal_strlit("MannerMode");
    reveal_strlit("VoiceDial");
    reveal_strlit("TV");
    reveal_strlit("TV3DMode");
    reveal_strlit("TVAntennaCable");
    reveal_strlit("TVAudioDescription");
    reveal_strlit("TVAudioDescriptionMixDown");
    reveal_strlit("TVAudioDescriptionMixUp");
    reveal_strlit("TVContentsMenu");
    reveal_strlit("TVDataService");
    reveal_strlit("TVInput");
    reveal_strlit("TVInputComponent1");
    reveal_strlit("TVInputComponent2");
    reveal_strlit("TVInputComposite1");
    reveal_strlit("TVInputComposite2");
    reveal_strlit("TVInputHDMI1");
    reveal_strlit("TVInputHDMI2");
    reveal_strlit("TVInputHDMI3");
    reveal_strlit("TVInputHDMI4");
    reveal_strlit("TVInputVGA1");
    reveal_strlit("TVMediaContext");
    reveal_strlit("TVNetwork");
    reveal_strlit("TVNumberEntry");
    reveal_strlit("TVPower");
    reveal_strlit("TVRadioService");
    reveal_strlit("TVSatellite");
    reveal_strlit("TVSatelliteBS");
    reveal_strlit("TVSatelliteCS");
    reveal_strlit("TVSatelliteToggle");
    reveal_strlit("TVTerrestrialAnalog");
    reveal_strlit("TVTerrestrialDigital");
    reveal_strlit("TVTimer");
    reveal_strlit("AVRInput");
    reveal_strlit("AVRPower");
    reveal_strlit("ColorF0Red");
    reveal_strlit("ColorF1Green");
    reveal_strlit("ColorF2Yellow");
    reveal_strlit("ColorF3Blue");
    reveal_strlit("ColorF4Grey");
    reveal_strlit("ColorF5Brown");
    reveal_strlit("ClosedCaptionToggle");
    reveal_strlit("Dimmer");
    reveal_strlit("DisplaySwap");
    reveal_strlit("DVR");
    reveal_strlit("Exit");
    reveal_strlit("FavoriteClear0");
    reveal_strlit("FavoriteClear1");
    reveal_strlit("FavoriteClear2");
    reveal_strlit("FavoriteClear3");
    reveal_strlit("FavoriteRecall0");
    reveal_strlit("FavoriteRecall1");
    reveal_strlit("FavoriteRecall2");
    reveal_strlit("FavoriteRecall3");
    reveal_strlit("FavoriteStore0");
    reveal_strlit("FavoriteStore1");
    reveal_strlit("FavoriteStore2");
    reveal_strlit("FavoriteStore3");
    reveal_strlit("Guide");
    reveal_strlit("GuideNextDay");
    reveal_strlit("GuidePreviousDay");
    reveal_strlit("Info");
    reveal_strlit("InstantReplay");
    reveal_strlit("Link");
    reveal_strlit("ListProgram");
    reveal_strlit("LiveContent");
    reveal_strlit("Lock");
    reveal_strlit("MediaApps");
    reveal_strlit("MediaAudioTrack");
    reveal_strlit("MediaLast");
    reveal_strlit("MediaSkipBackward");
    reveal_strlit("MediaSkipForward");
    reveal_strlit("MediaStepBackward");
    reveal_strlit("MediaStepForward");
    reveal_strlit("MediaTopMenu");
    reveal_strlit("NavigateIn");
    reveal_strlit("NavigateNext");
    reveal_strlit("NavigateOut");
    reveal_strlit("NavigatePrevious");
    reveal_strlit("NextFavoriteChannel");
    reveal_strlit("NextUserProfile");
    reveal_strlit("OnDemand");
    reveal_strlit("Pairing");
    reveal_strlit("PinPDown");
    reveal_strlit("PinPMove");
    reveal_strlit("PinPToggle");
    reveal_strlit("PinPUp");
    reveal_strlit("PlaySpeedDown");
    reveal_strlit("PlaySpeedReset");
    reveal_strlit("PlaySpeedUp");
    reveal_strlit("RandomToggle");
    reveal_strlit("RcLowBattery");
    reveal_strlit("RecordSpeedNext");
    reveal_strlit("RfBypass");
    reveal_strlit("ScanChannelsToggle");
    reveal_strlit("ScreenModeNext");
    reveal_strlit("Settings");
    reveal_strlit("SplitScreenToggle");
    reveal_strlit("STBInput");
    reveal_strlit("STBPower");
    reveal_strlit("Subtitle");
    reveal_strlit("Teletext");
    reveal_strlit("VideoModeNext");
    reveal_strlit("Wink");
    reveal_strlit("ZoomToggle");
    // Equal names agree in length and at every position up to the
    // longest name; two different names differ in one of these.
    let x = a.text();
    let y = b.text();
    assert(x.len() == y.len());
    assert(x[0] == y[0]);
    assert(x[1] == y[1]);
    assert(x[2] == y[2]);
    assert(x[3] == y[3]);
    assert(x[4] == y[4]);
    assert(x[5] == y[5]);
    assert(x[6] == y[6]);
    assert(x[7] == y[7]);
    assert(x[8] == y[8]);
    assert(x[9] == y[9]);
    assert(x[10] == y[10]);
    assert(x[11] == y[11]);
    assert(x[12] == y[12]);
    assert(x[13] == y[13]);
    assert(x[14] == y[14]);
    assert(x[15] == y[15]);
    assert(x[16] == y[16]);
    assert(x[17] == y[17]);
    assert(x[18] == y[18]);
    assert(x[19] == y[19]);
    assert(x[20] == y[20]);
    assert(x[21] == y[21]);
    assert(x[22] == y[22]);
    assert(x[23] == y[23]);
    assert(x[24] == y[24]);
    assert(a == b);
}

/// A named key is found again by its name.
pub proof fn lemma_named_finds_key(key: NamedKey)
    ensures
        NamedKey::named(key.text()) == Some(key),
{
    lemma_name_determines_key(NamedKey::named(key.text()).unwrap(), key);
}

/// Every name has at least two characters, and its first two lie in the
/// ASCII range.
pub proof fn lemma_name_starts_with_ascii(key: NamedKey)
    ensures
        key.text().len() >= 2,
        is_ascii(key.text()[0]),
        is_ascii(key.text()[1]),
{
    reveal_strlit("Unidentified");
    reveal_strlit("Alt");
    reveal_strlit("AltGraph");
    reveal_strlit("CapsLock");
    reveal_strlit("Control");
    reveal_strlit("Fn");
    reveal_strlit("FnLock");
    reveal_strlit("Meta");
    reveal_strlit("NumLock");
    reveal_strlit("ScrollLock");
    reveal_strlit("Shift");
    reveal_strlit("Symbol");
    reveal_strlit("SymbolLock");
    reveal_strlit("Hyper");
    reveal_strlit("Super");
    reveal_strlit("Enter");
    reveal_strlit("Tab");
    reveal_strlit("ArrowDown");
    reveal_strlit("ArrowLeft");
    reveal_strlit("ArrowRight");
    reveal_strlit("ArrowUp");
    reveal_strlit("End");
    reveal_strlit("Home");
    reveal_strlit("PageDown");
    reveal_strlit("PageUp");
    reveal_strlit("Backspace");
    reveal_strlit("Clear");
    reveal_strlit("Copy");
    reveal_strlit("CrSel");
    reveal_strlit("Cut");
    reveal_strlit("Delete");
    reveal_strlit("EraseEof");
    reveal_strlit("ExSel");
    reveal_strlit("Insert");
    reveal_strlit("Paste");
    reveal_strlit("Redo");
    reveal_strlit("Undo");
    reveal_strlit("Accept");
    reveal_strlit("Again");
    reveal_strlit("Attn");
    reveal_strlit("Cancel");
    reveal_strlit("ContextMenu");
    reveal_strlit("Escape");
    reveal_strlit("Execute");
    reveal_strlit("Find");
    reveal_strlit("Help");
    reveal_strlit("Pause");
    reveal_strlit("Play");
    reveal_strlit("Props");
    reveal_strlit("Select");
    reveal_strlit("ZoomIn");
    reveal_strlit("ZoomOut");
    reveal_strlit("BrightnessDown");
    reveal_strlit("BrightnessUp");
    reveal_strlit("Eject");
    reveal_strlit("LogOff");
    reveal_strlit("Power");
    reveal_strlit("PowerOff");
    reveal_strlit("PrintScreen");
    reveal_strlit("Hibernate");
    reveal_strlit("Standby");
    reveal_strlit("WakeUp");
    reveal_strlit("AllCandidates");
    reveal_strlit("Alphanumeric");
    reveal_strlit("CodeInput");
    reveal_strlit("Compose");
    reveal_strlit("Convert");
    reveal_strlit("Dead");
    reveal_strlit("FinalMode");
    reveal_strlit("GroupFirst");
    reveal_strlit("GroupLast");
    reveal_strlit("GroupNext");
    reveal_strlit("GroupPrevious");
    reveal_strlit("ModeChange");
    reveal_strlit("NextCandidate");
    reveal_strlit("NonConvert");
    reveal_strlit("PreviousCandidate");
    reveal_strlit("Process");
    reveal_strlit("SingleCandidate");
    reveal_strlit("HangulMode");
    reveal_strlit("HanjaMode");
    reveal_strlit("JunjaMode");
    reveal_strlit("Eisu");
    reveal_strlit("Hankaku");
    reveal_strlit("Hiragana");
    reveal_strlit("HiraganaKatakana");
    reveal_strlit("KanaMode");
    reveal_strlit("KanjiMode");
    reveal_strlit("Katakana");
    reveal_strlit("Romaji");
    reveal_strlit("Zenkaku");
    reveal_strlit("ZenkakuHankaku");
    reveal_strlit("F1");
    reveal_strlit("F2");
    reveal_strlit("F3");
    reveal_strlit("F4");
    reveal_strlit("F5");
    reveal_strlit("F6");
    reveal_strlit("F7");
    reveal_strlit("F8");
    reveal_strlit("F9");
    reveal_strlit("F10");
    reveal_strlit("F11");
    reveal_strlit("F12");
    reveal_strlit("F13");
    reveal_strlit("F14");
    reveal_strlit("F15");
    reveal_strlit("F16");
    reveal_strlit("F17");
    reveal_strlit("F18");
    reveal_strlit("F19");
    reveal_strlit("F20");
    reveal_strlit("F21");
    reveal_strlit("F22");
    reveal_strlit("F23");
    reveal_strlit("F24");
    reveal_strlit("F25");
    reveal_strlit("F26");
    reveal_strlit("F27");
    reveal_strlit("F28");
    reveal_strlit("F29");
    reveal_strlit("F30");
    reveal_strlit("F31");
    reveal_strlit("F32");
    reveal_strlit("F33");
    reveal_strlit("F34");
    reveal_strlit("F35");
    reveal_strlit("Soft1");
    reveal_strlit("Soft2");
    reveal_strlit("Soft3");
    reveal_strlit("Soft4");
    reveal_strlit("ChannelDown");
    reveal_strlit("ChannelUp");
    reveal_strlit("Close");
    reveal_strlit("MailForward");
    reveal_strlit("MailReply");
    reveal_strlit("MailSend");
    reveal_strlit("MediaClose");
    reveal_strlit("MediaFastForward");
    reveal_strlit("MediaPause");
    reveal_strlit("MediaPlay");
    reveal_strlit("MediaPlayPause");
    reveal_strlit("MediaRecord");
    reveal_strlit("MediaRewind");
    reveal_strlit("MediaStop");
    reveal_strlit("MediaTrackNext");
    reveal_strlit("MediaTrackPrevious");
    reveal_strlit("New");
    reveal_strlit("Open");
    reveal_strlit("Print");
    reveal_strlit("Save");
    reveal_strlit("SpellCheck");
    reveal_strlit("Key11");
    reveal_strlit("Key12");
    reveal_strlit("AudioBalanceLeft");
    reveal_strlit("AudioBalanceRight");
    reveal_strlit("AudioBassBoostDown");
    reveal_strlit("AudioBassBoostToggle");
    reveal_strlit("AudioBassBoostUp");
    reveal_strlit("AudioFaderFront");
    reveal_strlit("AudioFaderRear");
    reveal_strlit("AudioSurroundModeNext");
    reveal_strlit("AudioTrebleDown");
    reveal_strlit("AudioTrebleUp");
    reveal_strlit("AudioVolumeDown");
    reveal_strlit("AudioVolumeUp");
    reveal_strlit("AudioVolumeMute");
    reveal_strlit("MicrophoneToggle");
    reveal_strlit("MicrophoneVolumeDown");
    reveal_strlit("MicrophoneVolumeUp");
    reveal_strlit("MicrophoneVolumeMute");
    reveal_strlit("SpeechCorrectionList");
    reveal_strlit("SpeechInputToggle");
    reveal_strlit("LaunchApplication1");
    reveal_strlit("LaunchApplication2");
    reveal_strlit("LaunchCalendar");
    reveal_strlit("LaunchContacts");
    reveal_strlit("LaunchMail");
    reveal_strlit("LaunchMediaPlayer");
    reveal_strlit("LaunchMusicPlayer");
    reveal_strlit("LaunchPhone");
    reveal_strlit("LaunchScreenSaver");
    reveal_strlit("LaunchSpreadsheet");
    reveal_strlit("LaunchWebBrowser");
    reveal_strlit("LaunchWebCam");
    reveal_strlit("LaunchWordProcessor");
    reveal_strlit("BrowserBack");
    reveal_strlit("BrowserFavorites");
    reveal_strlit("BrowserForward");
    reveal_strlit("BrowserHome");
    reveal_strlit("BrowserRefresh");
    reveal_strlit("BrowserSearch");
    reveal_strlit("BrowserStop");
    reveal_strlit("AppSwitch");
    reveal_strlit("Call");
    reveal_strlit("Camera");
    reveal_strlit("CameraFocus");
    reveal_strlit("EndCall");
    reveal_strlit("GoBack");
    reveal_strlit("GoHome");
    reveal_strlit("HeadsetHook");
    reveal_strlit("LastNumberRedial");
    reveal_strlit("Notification");
    reveal_strlit("MannerMode");
    reveal_strlit("VoiceDial");
    reveal_strlit("TV");
    reveal_strlit("TV3DMode");
    reveal_strlit("TVAntennaCable");
    reveal_strlit("TVAudioDescription");
    reveal_strlit("TVAudioDescriptionMixDown");
    reveal_strlit("TVAudioDescriptionMixUp");
    reveal_strlit("TVContentsMenu");
    reveal_strlit("TVDataService");
    reveal_strlit("TVInput");
    reveal_strlit("TVInputComponent1");
    reveal_strlit("TVInputComponent2");
    reveal_strlit("TVInputComposite1");
    reveal_strlit("TVInputComposite2");
    reveal_strlit("TVInputHDMI1");
    reveal_strlit("TVInputHDMI2");
    reveal_strlit("TVInputHDMI3");
    reveal_strlit("TVInputHDMI4");
    reveal_strlit("TVInputVGA1");
    reveal_strlit("TVMediaContext");
    reveal_strlit("TVNetwork");
    reveal_strlit("TVNumberEntry");
    reveal_strlit("TVPower");
    reveal_strlit("TVRadioService");
    reveal_strlit("TVSatellite");
    reveal_strlit("TVSatelliteBS");
    reveal_strlit("TVSatelliteCS");
    reveal_strlit("TVSatelliteToggle");
    reveal_strlit("TVTerrestrialAnalog");
    reveal_strlit("TVTerrestrialDigital");
    reveal_strlit("TVTimer");
    reveal_strlit("AVRInput");
    reveal_strlit("AVRPower");
    reveal_strlit("ColorF0Red");
    reveal_strlit("ColorF1Green");
    reveal_strlit("ColorF2Yellow");
    reveal_strlit("ColorF3Blue");
    reveal_strlit("ColorF4Grey");
    reveal_strlit("ColorF5Brown");
    reveal_strlit("ClosedCaptionToggle");
    reveal_strlit("Dimmer");
    reveal_strlit("DisplaySwap");
    reveal_strlit("DVR");
    reveal_strlit("Exit");
    reveal_strlit("FavoriteClear0");
    reveal_strlit("FavoriteClear1");
    reveal_strlit("FavoriteClear2");
    reveal_strlit("FavoriteClear3");
    reveal_strlit("FavoriteRecall0");
    reveal_strlit("FavoriteRecall1");
    reveal_strlit("FavoriteRecall2");
    reveal_strlit("FavoriteRecall3");
    reveal_strlit("FavoriteStore0");
    reveal_strlit("FavoriteStore1");
    reveal_strlit("FavoriteStore2");
    reveal_strlit("FavoriteStore3");
    reveal_strlit("Guide");
    reveal_strlit("GuideNextDay");
    reveal_strlit("GuidePreviousDay");
    reveal_strlit("Info");
    reveal_strlit("InstantReplay");
    reveal_strlit("Link");
    reveal_strlit("ListProgram");
    reveal_strlit("LiveContent");
    reveal_strlit("Lock");
    reveal_strlit("MediaApps");
    reveal_strlit("MediaAudioTrack");
    reveal_strlit("MediaLast");
    reveal_strlit("MediaSkipBackward");
    reveal_strlit("MediaSkipForward");
    reveal_strlit("MediaStepBackward");
    reveal_strlit("MediaStepForward");
    reveal_strlit("MediaTopMenu");
    reveal_strlit("NavigateIn");
    reveal_strlit("NavigateNext");
    reveal_strlit("NavigateOut");
    reveal_strlit("NavigatePrevious");
    reveal_strlit("NextFavoriteChannel");
    reveal_strlit("NextUserProfile");
    reveal_strlit("OnDemand");
    reveal_strlit("Pairing");
    reveal_strlit("PinPDown");
    reveal_strlit("PinPMove");
    reveal_strlit("PinPToggle");
    reveal_strlit("PinPUp");
    reveal_strlit("PlaySpeedDown");
    reveal_strlit("PlaySpeedReset");
    reveal_strlit("PlaySpeedUp");
    reveal_strlit("RandomToggle");
    reveal_strlit("RcLowBattery");
    reveal_strlit("RecordSpeedNext");
    reveal_strlit("RfBypass");
    reveal_strlit("ScanChannelsToggle");
    reveal_strlit("ScreenModeNext");
    reveal_strlit("Settings");
    reveal_strlit("SplitScreenToggle");
    reveal_strlit("STBInput");
    reveal_strlit("STBPower");
    reveal_strlit("Subtitle");
    reveal_strlit("Teletext");
    reveal_strlit("VideoModeNext");
    reveal_strlit("Wink");
    reveal_strlit("ZoomToggle");
    let x = key.text();
    assert(x.len() >= 2);
    assert(is_ascii(x[0]));
    assert(is_ascii(x[1]));
}

} // verus!
