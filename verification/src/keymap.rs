//! The tables that give a key symbol its logical key and its place on the
//! keyboard.

use vstd::prelude::*;

pub mod keysyms;

use crate::keyboard::key::Key;
use crate::keyboard::key::Location;
use crate::keyboard::key::Named;

verus! {

/// The named key that a key symbol stands for, if it stands for one.
pub open spec fn named_key_of(keysym: u32) -> Option<Named> {
    match keysym {
        // Terminal keys.
        keysyms::BACKSPACE => Some(Named::Backspace),
        keysyms::TAB => Some(Named::Tab),
        keysyms::CLEAR => Some(Named::Clear),
        keysyms::RETURN => Some(Named::Enter),
        keysyms::PAUSE => Some(Named::Pause),
        keysyms::SCROLL_LOCK => Some(Named::ScrollLock),
        keysyms::SYS_REQ => Some(Named::PrintScreen),
        keysyms::ESCAPE => Some(Named::Escape),
        keysyms::DELETE => Some(Named::Delete),
        // Input methods.
        keysyms::MULTI_KEY => Some(Named::Compose),
        keysyms::CODEINPUT => Some(Named::CodeInput),
        keysyms::SINGLE_CANDIDATE => Some(Named::SingleCandidate),
        keysyms::MULTIPLE_CANDIDATE => Some(Named::AllCandidates),
        keysyms::PREVIOUS_CANDIDATE => Some(Named::PreviousCandidate),
        // Japanese keyboards.
        keysyms::KANJI => Some(Named::KanjiMode),
        keysyms::MUHENKAN => Some(Named::NonConvert),
        keysyms::HENKAN_MODE => Some(Named::Convert),
        keysyms::ROMAJI => Some(Named::Romaji),
        keysyms::HIRAGANA => Some(Named::Hiragana),
        keysyms::HIRAGANA_KATAKANA => Some(Named::HiraganaKatakana),
        keysyms::ZENKAKU => Some(Named::Zenkaku),
        keysyms::HANKAKU => Some(Named::Hankaku),
        keysyms::ZENKAKU_HANKAKU => Some(Named::ZenkakuHankaku),
        keysyms::KANA_LOCK => Some(Named::KanaMode),
        keysyms::KANA_SHIFT => Some(Named::KanaMode),
        keysyms::EISU_SHIFT => Some(Named::Alphanumeric),
        keysyms::EISU_TOGGLE => Some(Named::Alphanumeric),
        // Cursor control.
        keysyms::HOME => Some(Named::Home),
        keysyms::LEFT => Some(Named::ArrowLeft),
        keysyms::UP => Some(Named::ArrowUp),
        keysyms::RIGHT => Some(Named::ArrowRight),
        keysyms::DOWN => Some(Named::ArrowDown),
        keysyms::PAGE_UP => Some(Named::PageUp),
        keysyms::PAGE_DOWN => Some(Named::PageDown),
        keysyms::END => Some(Named::End),
        // Editing and other functions.
        keysyms::SELECT => Some(Named::Select),
        keysyms::PRINT => Some(Named::PrintScreen),
        keysyms::EXECUTE => Some(Named::Execute),
        keysyms::INSERT => Some(Named::Insert),
        keysyms::UNDO => Some(Named::Undo),
        keysyms::REDO => Some(Named::Redo),
        keysyms::MENU => Some(Named::ContextMenu),
        keysyms::FIND => Some(Named::Find),
        keysyms::CANCEL => Some(Named::Cancel),
        keysyms::HELP => Some(Named::Help),
        keysyms::BREAK => Some(Named::Pause),
        keysyms::MODE_SWITCH => Some(Named::ModeChange),
        keysyms::NUM_LOCK => Some(Named::NumLock),
        // Keypad.
        keysyms::KP_TAB => Some(Named::Tab),
        keysyms::KP_ENTER => Some(Named::Enter),
        keysyms::KP_F1 => Some(Named::F1),
        keysyms::KP_F2 => Some(Named::F2),
        keysyms::KP_F3 => Some(Named::F3),
        keysyms::KP_F4 => Some(Named::F4),
        keysyms::KP_HOME => Some(Named::Home),
        keysyms::KP_LEFT => Some(Named::ArrowLeft),
        keysyms::KP_UP => Some(Named::ArrowUp),
        keysyms::KP_RIGHT => Some(Named::ArrowRight),
        keysyms::KP_DOWN => Some(Named::ArrowDown),
        keysyms::KP_PAGE_UP => Some(Named::PageUp),
        keysyms::KP_PAGE_DOWN => Some(Named::PageDown),
        keysyms::KP_END => Some(Named::End),
        keysyms::KP_INSERT => Some(Named::Insert),
        keysyms::KP_DELETE => Some(Named::Delete),
        // Function keys.
        keysyms::F1 => Some(Named::F1),
        keysyms::F2 => Some(Named::F2),
        keysyms::F3 => Some(Named::F3),
        keysyms::F4 => Some(Named::F4),
        keysyms::F5 => Some(Named::F5),
        keysyms::F6 => Some(Named::F6),
        keysyms::F7 => Some(Named::F7),
        keysyms::F8 => Some(Named::F8),
        keysyms::F9 => Some(Named::F9),
        keysyms::F10 => Some(Named::F10),
        keysyms::F11 => Some(Named::F11),
        keysyms::F12 => Some(Named::F12),
        keysyms::F13 => Some(Named::F13),
        keysyms::F14 => Some(Named::F14),
        keysyms::F15 => Some(Named::F15),
        keysyms::F16 => Some(Named::F16),
        keysyms::F17 => Some(Named::F17),
        keysyms::F18 => Some(Named::F18),
        keysyms::F19 => Some(Named::F19),
        keysyms::F20 => Some(Named::F20),
        keysyms::F21 => Some(Named::F21),
        keysyms::F22 => Some(Named::F22),
        keysyms::F23 => Some(Named::F23),
        keysyms::F24 => Some(Named::F24),
        keysyms::F25 => Some(Named::F25),
        keysyms::F26 => Some(Named::F26),
        keysyms::F27 => Some(Named::F27),
        keysyms::F28 => Some(Named::F28),
        keysyms::F29 => Some(Named::F29),
        keysyms::F30 => Some(Named::F30),
        keysyms::F31 => Some(Named::F31),
        keysyms::F32 => Some(Named::F32),
        keysyms::F33 => Some(Named::F33),
        keysyms::F34 => Some(Named::F34),
        keysyms::F35 => Some(Named::F35),
        // Modifiers.
        keysyms::SHIFT_L => Some(Named::Shift),
        keysyms::SHIFT_R => Some(Named::Shift),
        keysyms::CONTROL_L => Some(Named::Control),
        keysyms::CONTROL_R => Some(Named::Control),
        keysyms::CAPS_LOCK => Some(Named::CapsLock),
        keysyms::ALT_L => Some(Named::Alt),
        keysyms::ALT_R => Some(Named::Alt),
        keysyms::SUPER_L => Some(Named::Super),
        keysyms::SUPER_R => Some(Named::Super),
        keysyms::HYPER_L => Some(Named::Hyper),
        keysyms::HYPER_R => Some(Named::Hyper),
        // Layout levels and groups.
        keysyms::ISO_LEVEL3_SHIFT => Some(Named::AltGraph),
        keysyms::ISO_LEVEL3_LATCH => Some(Named::AltGraph),
        keysyms::ISO_LEVEL3_LOCK => Some(Named::AltGraph),
        keysyms::ISO_NEXT_GROUP => Some(Named::GroupNext),
        keysyms::ISO_PREV_GROUP => Some(Named::GroupPrevious),
        keysyms::ISO_FIRST_GROUP => Some(Named::GroupFirst),
        keysyms::ISO_LAST_GROUP => Some(Named::GroupLast),
        keysyms::ISO_LEFT_TAB => Some(Named::Tab),
        keysyms::ISO_ENTER => Some(Named::Enter),
        // 3270 terminals.
        keysyms::IBM3270_ERASE_EOF => Some(Named::EraseEof),
        keysyms::IBM3270_ATTN => Some(Named::Attn),
        keysyms::IBM3270_PLAY => Some(Named::Play),
        keysyms::IBM3270_EX_SELECT => Some(Named::ExSel),
        keysyms::IBM3270_CURSOR_SELECT => Some(Named::CrSel),
        keysyms::IBM3270_PRINT_SCREEN => Some(Named::PrintScreen),
        keysyms::IBM3270_ENTER => Some(Named::Enter),
        // The space bar.
        keysyms::SPACE => Some(Named::Space),
        // Backlight.
        keysyms::XF86_MON_BRIGHTNESS_UP => Some(Named::BrightnessUp),
        keysyms::XF86_MON_BRIGHTNESS_DOWN => Some(Named::BrightnessDown),
        // Media and browser keys.
        keysyms::XF86_STANDBY => Some(Named::Standby),
        keysyms::XF86_AUDIO_LOWER_VOLUME => Some(Named::AudioVolumeDown),
        keysyms::XF86_AUDIO_RAISE_VOLUME => Some(Named::AudioVolumeUp),
        keysyms::XF86_AUDIO_PLAY => Some(Named::MediaPlay),
        keysyms::XF86_AUDIO_STOP => Some(Named::MediaStop),
        keysyms::XF86_AUDIO_PREV => Some(Named::MediaTrackPrevious),
        keysyms::XF86_AUDIO_NEXT => Some(Named::MediaTrackNext),
        keysyms::XF86_HOME_PAGE => Some(Named::BrowserHome),
        keysyms::XF86_MAIL => Some(Named::LaunchMail),
        keysyms::XF86_SEARCH => Some(Named::BrowserSearch),
        keysyms::XF86_AUDIO_RECORD => Some(Named::MediaRecord),
        keysyms::XF86_CALCULATOR => Some(Named::LaunchApplication2),
        keysyms::XF86_CALENDAR => Some(Named::LaunchCalendar),
        keysyms::XF86_POWER_DOWN => Some(Named::Power),
        keysyms::XF86_BACK => Some(Named::BrowserBack),
        keysyms::XF86_FORWARD => Some(Named::BrowserForward),
        keysyms::XF86_REFRESH => Some(Named::BrowserRefresh),
        keysyms::XF86_POWER_OFF => Some(Named::Power),
        keysyms::XF86_WAKE_UP => Some(Named::WakeUp),
        keysyms::XF86_EJECT => Some(Named::Eject),
        keysyms::XF86_SCREEN_SAVER => Some(Named::LaunchScreenSaver),
        keysyms::XF86_WWW => Some(Named::LaunchWebBrowser),
        keysyms::XF86_SLEEP => Some(Named::Standby),
        keysyms::XF86_FAVORITES => Some(Named::BrowserFavorites),
        keysyms::XF86_AUDIO_PAUSE => Some(Named::MediaPause),
        keysyms::XF86_MY_COMPUTER => Some(Named::LaunchApplication1),
        keysyms::XF86_AUDIO_REWIND => Some(Named::MediaRewind),
        keysyms::XF86_CLOSE => Some(Named::Close),
        keysyms::XF86_COPY => Some(Named::Copy),
        keysyms::XF86_CUT => Some(Named::Cut),
        keysyms::XF86_EXCEL => Some(Named::LaunchSpreadsheet),
        keysyms::XF86_LOG_OFF => Some(Named::LogOff),
        keysyms::XF86_NEW => Some(Named::New),
        keysyms::XF86_OPEN => Some(Named::Open),
        keysyms::XF86_PASTE => Some(Named::Paste),
        keysyms::XF86_PHONE => Some(Named::LaunchPhone),
        keysyms::XF86_REPLY => Some(Named::MailReply),
        keysyms::XF86_RELOAD => Some(Named::BrowserRefresh),
        keysyms::XF86_SAVE => Some(Named::Save),
        keysyms::XF86_SEND => Some(Named::MailSend),
        keysyms::XF86_SPELL => Some(Named::SpellCheck),
        keysyms::XF86_SPLIT_SCREEN => Some(Named::SplitScreenToggle),
        keysyms::XF86_VIDEO => Some(Named::LaunchMediaPlayer),
        keysyms::XF86_WORD => Some(Named::LaunchWordProcessor),
        keysyms::XF86_ZOOM_IN => Some(Named::ZoomIn),
        keysyms::XF86_ZOOM_OUT => Some(Named::ZoomOut),
        keysyms::XF86_WEB_CAM => Some(Named::LaunchWebCam),
        keysyms::XF86_MAIL_FORWARD => Some(Named::MailForward),
        keysyms::XF86_MUSIC => Some(Named::LaunchMusicPlayer),
        keysyms::XF86_AUDIO_FORWARD => Some(Named::MediaFastForward),
        keysyms::XF86_AUDIO_RANDOM_PLAY => Some(Named::RandomToggle),
        keysyms::XF86_SUBTITLE => Some(Named::Subtitle),
        keysyms::XF86_AUDIO_CYCLE_TRACK => Some(Named::MediaAudioTrack),
        keysyms::XF86_SUSPEND => Some(Named::Standby),
        keysyms::XF86_HIBERNATE => Some(Named::Hibernate),
        keysyms::XF86_AUDIO_MUTE => Some(Named::AudioVolumeMute),
        keysyms::XF86_NEXT_VMODE => Some(Named::VideoModeNext),
        // Sun keyboards.
        keysyms::SUN_COPY => Some(Named::Copy),
        keysyms::SUN_OPEN => Some(Named::Open),
        keysyms::SUN_PASTE => Some(Named::Paste),
        keysyms::SUN_CUT => Some(Named::Cut),
        keysyms::SUN_AUDIO_LOWER_VOLUME => Some(Named::AudioVolumeDown),
        keysyms::SUN_AUDIO_MUTE => Some(Named::AudioVolumeMute),
        keysyms::SUN_AUDIO_RAISE_VOLUME => Some(Named::AudioVolumeUp),
        keysyms::SUN_VIDEO_LOWER_BRIGHTNESS => Some(Named::BrightnessDown),
        keysyms::SUN_VIDEO_RAISE_BRIGHTNESS => Some(Named::BrightnessUp),
        _ => None,
    }
}

/// The logical key of a key symbol: its named key, or the unidentified key.
pub open spec fn logical_key_of(keysym: u32) -> Key {
    match named_key_of(keysym) {
        Some(name) => Key::Named(name),
        None => Key::Unidentified,
    }
}

/// Whether the key symbol is the left one of a pair of modifier keys.
pub open spec fn is_left_key(keysym: u32) -> bool {
    keysym == keysyms::SHIFT_L
    || keysym == keysyms::CONTROL_L
    || keysym == keysyms::META_L
    || keysym == keysyms::ALT_L
    || keysym == keysyms::SUPER_L
    || keysym == keysyms::HYPER_L
}

/// Whether the key symbol is the right one of a pair of modifier keys.
pub open spec fn is_right_key(keysym: u32) -> bool {
    keysym == keysyms::SHIFT_R
    || keysym == keysyms::CONTROL_R
    || keysym == keysyms::META_R
    || keysym == keysyms::ALT_R
    || keysym == keysyms::SUPER_R
    || keysym == keysyms::HYPER_R
}

/// Whether the key symbol belongs to the numeric keypad.
pub open spec fn is_numpad_key(keysym: u32) -> bool {
    keysym == keysyms::KP_SPACE
    || keysym == keysyms::KP_TAB
    || keysym == keysyms::KP_ENTER
    || keysym == keysyms::KP_F1
    || keysym == keysyms::KP_F2
    || keysym == keysyms::KP_F3
    || keysym == keysyms::KP_F4
    || keysym == keysyms::KP_HOME
    || keysym == keysyms::KP_LEFT
    || keysym == keysyms::KP_UP
    || keysym == keysyms::KP_RIGHT
    || keysym == keysyms::KP_DOWN
    || keysym == keysyms::KP_PAGE_UP
    || keysym == keysyms::KP_PAGE_DOWN
    || keysym == keysyms::KP_END
    || keysym == keysyms::KP_BEGIN
    || keysym == keysyms::KP_INSERT
    || keysym == keysyms::KP_DELETE
    || keysym == keysyms::KP_EQUAL
    || keysym == keysyms::KP_MULTIPLY
    || keysym == keysyms::KP_ADD
    || keysym == keysyms::KP_SEPARATOR
    || keysym == keysyms::KP_SUBTRACT
    || keysym == keysyms::KP_DECIMAL
    || keysym == keysyms::KP_DIVIDE
    || keysym == keysyms::KP_0
    || keysym == keysyms::KP_1
    || keysym == keysyms::KP_2
    || keysym == keysyms::KP_3
    || keysym == keysyms::KP_4
    || keysym == keysyms::KP_5
    || keysym == keysyms::KP_6
    || keysym == keysyms::KP_7
    || keysym == keysyms::KP_8
    || keysym == keysyms::KP_9
}

/// Where the key of a key symbol sits.
pub open spec fn location_of(keysym: u32) -> Location {
    if is_left_key(keysym) {
        Location::Left
    } else if is_right_key(keysym) {
        Location::Right
    } else if is_numpad_key(keysym) {
        Location::Numpad
    } else {
        Location::Standard
    }
}

/// Looks a key symbol up in the table of named keys.
pub fn named_key(keysym: u32) -> (name: Option<Named>)
    ensures
        name == named_key_of(keysym),
{
    match keysym {
        // Terminal keys.
        keysyms::BACKSPACE => Some(Named::Backspace),
        keysyms::TAB => Some(Named::Tab),
        keysyms::CLEAR => Some(Named::Clear),
        keysyms::RETURN => Some(Named::Enter),
        keysyms::PAUSE => Some(Named::Pause),
        keysyms::SCROLL_LOCK => Some(Named::ScrollLock),
        keysyms::SYS_REQ => Some(Named::PrintScreen),
        keysyms::ESCAPE => Some(Named::Escape),
        keysyms::DELETE => Some(Named::Delete),
        // Input methods.
        keysyms::MULTI_KEY => Some(Named::Compose),
        keysyms::CODEINPUT => Some(Named::CodeInput),
        keysyms::SINGLE_CANDIDATE => Some(Named::SingleCandidate),
        keysyms::MULTIPLE_CANDIDATE => Some(Named::AllCandidates),
        keysyms::PREVIOUS_CANDIDATE => Some(Named::PreviousCandidate),
        // Japanese keyboards.
        keysyms::KANJI => Some(Named::KanjiMode),
        keysyms::MUHENKAN => Some(Named::NonConvert),
        keysyms::HENKAN_MODE => Some(Named::Convert),
        keysyms::ROMAJI => Some(Named::Romaji),
        keysyms::HIRAGANA => Some(Named::Hiragana),
        keysyms::HIRAGANA_KATAKANA => Some(Named::HiraganaKatakana),
        keysyms::ZENKAKU => Some(Named::Zenkaku),
        keysyms::HANKAKU => Some(Named::Hankaku),
        keysyms::ZENKAKU_HANKAKU => Some(Named::ZenkakuHankaku),
        keysyms::KANA_LOCK => Some(Named::KanaMode),
        keysyms::KANA_SHIFT => Some(Named::KanaMode),
        keysyms::EISU_SHIFT => Some(Named::Alphanumeric),
        keysyms::EISU_TOGGLE => Some(Named::Alphanumeric),
        // Cursor control.
        keysyms::HOME => Some(Named::Home),
        keysyms::LEFT => Some(Named::ArrowLeft),
        keysyms::UP => Some(Named::ArrowUp),
        keysyms::RIGHT => Some(Named::ArrowRight),
        keysyms::DOWN => Some(Named::ArrowDown),
        keysyms::PAGE_UP => Some(Named::PageUp),
        keysyms::PAGE_DOWN => Some(Named::PageDown),
        keysyms::END => Some(Named::End),
        // Editing and other functions.
        keysyms::SELECT => Some(Named::Select),
        keysyms::PRINT => Some(Named::PrintScreen),
        keysyms::EXECUTE => Some(Named::Execute),
        keysyms::INSERT => Some(Named::Insert),
        keysyms::UNDO => Some(Named::Undo),
        keysyms::REDO => Some(Named::Redo),
        keysyms::MENU => Some(Named::ContextMenu),
        keysyms::FIND => Some(Named::Find),
        keysyms::CANCEL => Some(Named::Cancel),
        keysyms::HELP => Some(Named::Help),
        keysyms::BREAK => Some(Named::Pause),
        keysyms::MODE_SWITCH => Some(Named::ModeChange),
        keysyms::NUM_LOCK => Some(Named::NumLock),
        // Keypad.
        keysyms::KP_TAB => Some(Named::Tab),
        keysyms::KP_ENTER => Some(Named::Enter),
        keysyms::KP_F1 => Some(Named::F1),
        keysyms::KP_F2 => Some(Named::F2),
        keysyms::KP_F3 => Some(Named::F3),
        keysyms::KP_F4 => Some(Named::F4),
        keysyms::KP_HOME => Some(Named::Home),
        keysyms::KP_LEFT => Some(Named::ArrowLeft),
        keysyms::KP_UP => Some(Named::ArrowUp),
        keysyms::KP_RIGHT => Some(Named::ArrowRight),
        keysyms::KP_DOWN => Some(Named::ArrowDown),
        keysyms::KP_PAGE_UP => Some(Named::PageUp),
        keysyms::KP_PAGE_DOWN => Some(Named::PageDown),
        keysyms::KP_END => Some(Named::End),
        keysyms::KP_INSERT => Some(Named::Insert),
        keysyms::KP_DELETE => Some(Named::Delete),
        // Function keys.
        keysyms::F1 => Some(Named::F1),
        keysyms::F2 => Some(Named::F2),
        keysyms::F3 => Some(Named::F3),
        keysyms::F4 => Some(Named::F4),
        keysyms::F5 => Some(Named::F5),
        keysyms::F6 => Some(Named::F6),
        keysyms::F7 => Some(Named::F7),
        keysyms::F8 => Some(Named::F8),
        keysyms::F9 => Some(Named::F9),
        keysyms::F10 => Some(Named::F10),
        keysyms::F11 => Some(Named::F11),
        keysyms::F12 => Some(Named::F12),
        keysyms::F13 => Some(Named::F13),
        keysyms::F14 => Some(Named::F14),
        keysyms::F15 => Some(Named::F15),
        keysyms::F16 => Some(Named::F16),
        keysyms::F17 => Some(Named::F17),
        keysyms::F18 => Some(Named::F18),
        keysyms::F19 => Some(Named::F19),
        keysyms::F20 => Some(Named::F20),
        keysyms::F21 => Some(Named::F21),
        keysyms::F22 => Some(Named::F22),
        keysyms::F23 => Some(Named::F23),
        keysyms::F24 => Some(Named::F24),
        keysyms::F25 => Some(Named::F25),
        keysyms::F26 => Some(Named::F26),
        keysyms::F27 => Some(Named::F27),
        keysyms::F28 => Some(Named::F28),
        keysyms::F29 => Some(Named::F29),
        keysyms::F30 => Some(Named::F30),
        keysyms::F31 => Some(Named::F31),
        keysyms::F32 => Some(Named::F32),
        keysyms::F33 => Some(Named::F33),
        keysyms::F34 => Some(Named::F34),
        keysyms::F35 => Some(Named::F35),
        // Modifiers.
        keysyms::SHIFT_L => Some(Named::Shift),
        keysyms::SHIFT_R => Some(Named::Shift),
        keysyms::CONTROL_L => Some(Named::Control),
        keysyms::CONTROL_R => Some(Named::Control),
        keysyms::CAPS_LOCK => Some(Named::CapsLock),
        keysyms::ALT_L => Some(Named::Alt),
        keysyms::ALT_R => Some(Named::Alt),
        keysyms::SUPER_L => Some(Named::Super),
        keysyms::SUPER_R => Some(Named::Super),
        keysyms::HYPER_L => Some(Named::Hyper),
        keysyms::HYPER_R => Some(Named::Hyper),
        // Layout levels and groups.
        keysyms::ISO_LEVEL3_SHIFT => Some(Named::AltGraph),
        keysyms::ISO_LEVEL3_LATCH => Some(Named::AltGraph),
        keysyms::ISO_LEVEL3_LOCK => Some(Named::AltGraph),
        keysyms::ISO_NEXT_GROUP => Some(Named::GroupNext),
        keysyms::ISO_PREV_GROUP => Some(Named::GroupPrevious),
        keysyms::ISO_FIRST_GROUP => Some(Named::GroupFirst),
        keysyms::ISO_LAST_GROUP => Some(Named::GroupLast),
        keysyms::ISO_LEFT_TAB => Some(Named::Tab),
        keysyms::ISO_ENTER => Some(Named::Enter),
        // 3270 terminals.
        keysyms::IBM3270_ERASE_EOF => Some(Named::EraseEof),
        keysyms::IBM3270_ATTN => Some(Named::Attn),
        keysyms::IBM3270_PLAY => Some(Named::Play),
        keysyms::IBM3270_EX_SELECT => Some(Named::ExSel),
        keysyms::IBM3270_CURSOR_SELECT => Some(Named::CrSel),
        keysyms::IBM3270_PRINT_SCREEN => Some(Named::PrintScreen),
        keysyms::IBM3270_ENTER => Some(Named::Enter),
        // The space bar.
        keysyms::SPACE => Some(Named::Space),
        // Backlight.
        keysyms::XF86_MON_BRIGHTNESS_UP => Some(Named::BrightnessUp),
        keysyms::XF86_MON_BRIGHTNESS_DOWN => Some(Named::BrightnessDown),
        // Media and browser keys.
        keysyms::XF86_STANDBY => Some(Named::Standby),
        keysyms::XF86_AUDIO_LOWER_VOLUME => Some(Named::AudioVolumeDown),
        keysyms::XF86_AUDIO_RAISE_VOLUME => Some(Named::AudioVolumeUp),
        keysyms::XF86_AUDIO_PLAY => Some(Named::MediaPlay),
        keysyms::XF86_AUDIO_STOP => Some(Named::MediaStop),
        keysyms::XF86_AUDIO_PREV => Some(Named::MediaTrackPrevious),
        keysyms::XF86_AUDIO_NEXT => Some(Named::MediaTrackNext),
        keysyms::XF86_HOME_PAGE => Some(Named::BrowserHome),
        keysyms::XF86_MAIL => Some(Named::LaunchMail),
        keysyms::XF86_SEARCH => Some(Named::BrowserSearch),
        keysyms::XF86_AUDIO_RECORD => Some(Named::MediaRecord),
        keysyms::XF86_CALCULATOR => Some(Named::LaunchApplication2),
        keysyms::XF86_CALENDAR => Some(Named::LaunchCalendar),
        keysyms::XF86_POWER_DOWN => Some(Named::Power),
        keysyms::XF86_BACK => Some(Named::BrowserBack),
        keysyms::XF86_FORWARD => Some(Named::BrowserForward),
        keysyms::XF86_REFRESH => Some(Named::BrowserRefresh),
        keysyms::XF86_POWER_OFF => Some(Named::Power),
        keysyms::XF86_WAKE_UP => Some(Named::WakeUp),
        keysyms::XF86_EJECT => Some(Named::Eject),
        keysyms::XF86_SCREEN_SAVER => Some(Named::LaunchScreenSaver),
        keysyms::XF86_WWW => Some(Named::LaunchWebBrowser),
        keysyms::XF86_SLEEP => Some(Named::Standby),
        keysyms::XF86_FAVORITES => Some(Named::BrowserFavorites),
        keysyms::XF86_AUDIO_PAUSE => Some(Named::MediaPause),
        keysyms::XF86_MY_COMPUTER => Some(Named::LaunchApplication1),
        keysyms::XF86_AUDIO_REWIND => Some(Named::MediaRewind),
        keysyms::XF86_CLOSE => Some(Named::Close),
        keysyms::XF86_COPY => Some(Named::Copy),
        keysyms::XF86_CUT => Some(Named::Cut),
        keysyms::XF86_EXCEL => Some(Named::LaunchSpreadsheet),
        keysyms::XF86_LOG_OFF => Some(Named::LogOff),
        keysyms::XF86_NEW => Some(Named::New),
        keysyms::XF86_OPEN => Some(Named::Open),
        keysyms::XF86_PASTE => Some(Named::Paste),
        keysyms::XF86_PHONE => Some(Named::LaunchPhone),
        keysyms::XF86_REPLY => Some(Named::MailReply),
        keysyms::XF86_RELOAD => Some(Named::BrowserRefresh),
        keysyms::XF86_SAVE => Some(Named::Save),
        keysyms::XF86_SEND => Some(Named::MailSend),
        keysyms::XF86_SPELL => Some(Named::SpellCheck),
        keysyms::XF86_SPLIT_SCREEN => Some(Named::SplitScreenToggle),
        keysyms::XF86_VIDEO => Some(Named::LaunchMediaPlayer),
        keysyms::XF86_WORD => Some(Named::LaunchWordProcessor),
        keysyms::XF86_ZOOM_IN => Some(Named::ZoomIn),
        keysyms::XF86_ZOOM_OUT => Some(Named::ZoomOut),
        keysyms::XF86_WEB_CAM => Some(Named::LaunchWebCam),
        keysyms::XF86_MAIL_FORWARD => Some(Named::MailForward),
        keysyms::XF86_MUSIC => Some(Named::LaunchMusicPlayer),
        keysyms::XF86_AUDIO_FORWARD => Some(Named::MediaFastForward),
        keysyms::XF86_AUDIO_RANDOM_PLAY => Some(Named::RandomToggle),
        keysyms::XF86_SUBTITLE => Some(Named::Subtitle),
        keysyms::XF86_AUDIO_CYCLE_TRACK => Some(Named::MediaAudioTrack),
        keysyms::XF86_SUSPEND => Some(Named::Standby),
        keysyms::XF86_HIBERNATE => Some(Named::Hibernate),
        keysyms::XF86_AUDIO_MUTE => Some(Named::AudioVolumeMute),
        keysyms::XF86_NEXT_VMODE => Some(Named::VideoModeNext),
        // Sun keyboards.
        keysyms::SUN_COPY => Some(Named::Copy),
        keysyms::SUN_OPEN => Some(Named::Open),
        keysyms::SUN_PASTE => Some(Named::Paste),
        keysyms::SUN_CUT => Some(Named::Cut),
        keysyms::SUN_AUDIO_LOWER_VOLUME => Some(Named::AudioVolumeDown),
        keysyms::SUN_AUDIO_MUTE => Some(Named::AudioVolumeMute),
        keysyms::SUN_AUDIO_RAISE_VOLUME => Some(Named::AudioVolumeUp),
        keysyms::SUN_VIDEO_LOWER_BRIGHTNESS => Some(Named::BrightnessDown),
        keysyms::SUN_VIDEO_RAISE_BRIGHTNESS => Some(Named::BrightnessUp),
        _ => None,
    }
}

/// Gives the logical key of a key symbol; a symbol that the table does not
/// hold gives the unidentified key.
pub fn keysym_to_logical_key(keysym: u32) -> (key: Key)
    ensures
        key == logical_key_of(keysym),
{
    match named_key(keysym) {
        Some(name) => Key::Named(name),
        None => Key::Unidentified,
    }
}

/// Tells where the key of a key symbol sits: left or right for the modifier
/// keys that come in pairs, on the keypad for keypad keys, and in the
/// standard place for every other symbol.
pub fn key_location(keysym: u32) -> (location: Location)
    ensures
        location == location_of(keysym),
{
    match keysym {
        keysyms::SHIFT_L
        | keysyms::CONTROL_L
        | keysyms::META_L
        | keysyms::ALT_L
        | keysyms::SUPER_L
        | keysyms::HYPER_L => Location::Left,
        keysyms::SHIFT_R
        | keysyms::CONTROL_R
        | keysyms::META_R
        | keysyms::ALT_R
        | keysyms::SUPER_R
        | keysyms::HYPER_R => Location::Right,
        keysyms::KP_SPACE
        | keysyms::KP_TAB
        | keysyms::KP_ENTER
        | keysyms::KP_F1
        | keysyms::KP_F2
        | keysyms::KP_F3
        | keysyms::KP_F4
        | keysyms::KP_HOME
        | keysyms::KP_LEFT
        | keysyms::KP_UP
        | keysyms::KP_RIGHT
        | keysyms::KP_DOWN
        | keysyms::KP_PAGE_UP
        | keysyms::KP_PAGE_DOWN
        | keysyms::KP_END
        | keysyms::KP_BEGIN
        | keysyms::KP_INSERT
        | keysyms::KP_DELETE
        | keysyms::KP_EQUAL
        | keysyms::KP_MULTIPLY
        | keysyms::KP_ADD
        | keysyms::KP_SEPARATOR
        | keysyms::KP_SUBTRACT
        | keysyms::KP_DECIMAL
        | keysyms::KP_DIVIDE
        | keysyms::KP_0
        | keysyms::KP_1
        | keysyms::KP_2
        | keysyms::KP_3
        | keysyms::KP_4
        | keysyms::KP_5
        | keysyms::KP_6
        | keysyms::KP_7
        | keysyms::KP_8
        | keysyms::KP_9 => Location::Numpad,
        _ => Location::Standard,
    }
}

/// The two keys of a pair: the right key follows the left one directly, and
/// both have the same logical key.
pub proof fn lemma_pairs_share_their_key(keysym: u32)
    requires
        is_left_key(keysym),
    ensures
        keysym < u32::MAX,
        is_right_key((keysym + 1) as u32),
        !is_left_key((keysym + 1) as u32),
        logical_key_of((keysym + 1) as u32) == logical_key_of(keysym),
{
}

/// A key has one place: a key symbol of the keypad is neither the left nor
/// the right key of a pair, and no symbol is both left and right.
pub proof fn lemma_places_exclude_each_other(keysym: u32)
    ensures
        !(is_left_key(keysym) && is_right_key(keysym)),
        is_numpad_key(keysym) ==> !is_left_key(keysym) && !is_right_key(keysym),
        location_of(keysym) == Location::Numpad <==> is_numpad_key(keysym),
        location_of(keysym) == Location::Left <==> is_left_key(keysym),
        location_of(keysym) == Location::Right <==> is_right_key(keysym),
{
}

} // verus!
