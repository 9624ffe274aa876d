//! The key symbols that the tables know, by their X11 names.

use vstd::prelude::*;

verus! {

// Terminal keys.
/// The key symbol `BackSpace`.
pub const BACKSPACE: u32 = 0xff08;

/// The key symbol `Tab`.
pub const TAB: u32 = 0xff09;

/// The key symbol `Clear`.
pub const CLEAR: u32 = 0xff0b;

/// The key symbol `Return`.
pub const RETURN: u32 = 0xff0d;

/// The key symbol `Pause`.
pub const PAUSE: u32 = 0xff13;

/// The key symbol `Scroll_Lock`.
pub const SCROLL_LOCK: u32 = 0xff14;

/// The key symbol `Sys_Req`.
pub const SYS_REQ: u32 = 0xff15;

/// The key symbol `Escape`.
pub const ESCAPE: u32 = 0xff1b;

/// The key symbol `Delete`.
pub const DELETE: u32 = 0xffff;

// Input methods.
/// The key symbol `Multi_key`.
pub const MULTI_KEY: u32 = 0xff20;

/// The key symbol `Codeinput`.
pub const CODEINPUT: u32 = 0xff37;

/// The key symbol `SingleCandidate`.
pub const SINGLE_CANDIDATE: u32 = 0xff3c;

/// The key symbol `MultipleCandidate`.
pub const MULTIPLE_CANDIDATE: u32 = 0xff3d;

/// The key symbol `PreviousCandidate`.
pub const PREVIOUS_CANDIDATE: u32 = 0xff3e;

// Japanese keyboards.
/// The key symbol `Kanji`.
pub const KANJI: u32 = 0xff21;

/// The key symbol `Muhenkan`.
pub const MUHENKAN: u32 = 0xff22;

/// The key symbol `Henkan_Mode`.
pub const HENKAN_MODE: u32 = 0xff23;

/// The key symbol `Romaji`.
pub const ROMAJI: u32 = 0xff24;

/// The key symbol `Hiragana`.
pub const HIRAGANA: u32 = 0xff25;

/// The key symbol `Hiragana_Katakana`.
pub const HIRAGANA_KATAKANA: u32 = 0xff27;

/// The key symbol `Zenkaku`.
pub const ZENKAKU: u32 = 0xff28;

/// The key symbol `Hankaku`.
pub const HANKAKU: u32 = 0xff29;

/// The key symbol `Zenkaku_Hankaku`.
pub const ZENKAKU_HANKAKU: u32 = 0xff2a;

/// The key symbol `Kana_Lock`.
pub const KANA_LOCK: u32 = 0xff2d;

/// The key symbol `Kana_Shift`.
pub const KANA_SHIFT: u32 = 0xff2e;

/// The key symbol `Eisu_Shift`.
pub const EISU_SHIFT: u32 = 0xff2f;

/// The key symbol `Eisu_toggle`.
pub const EISU_TOGGLE: u32 = 0xff30;

// Cursor control.
/// The key symbol `Home`.
pub const HOME: u32 = 0xff50;

/// The key symbol `Left`.
pub const LEFT: u32 = 0xff51;

/// The key symbol `Up`.
pub const UP: u32 = 0xff52;

/// The key symbol `Right`.
pub const RIGHT: u32 = 0xff53;

/// The key symbol `Down`.
pub const DOWN: u32 = 0xff54;

/// The key symbol `Page_Up`.
pub const PAGE_UP: u32 = 0xff55;

/// The key symbol `Page_Down`.
pub const PAGE_DOWN: u32 = 0xff56;

/// The key symbol `End`.
pub const END: u32 = 0xff57;

// Editing and other functions.
/// The key symbol `Select`.
pub const SELECT: u32 = 0xff60;

/// The key symbol `Print`.
pub const PRINT: u32 = 0xff61;

/// The key symbol `Execute`.
pub const EXECUTE: u32 = 0xff62;

/// The key symbol `Insert`.
pub const INSERT: u32 = 0xff63;

/// The key symbol `Undo`.
pub const UNDO: u32 = 0xff65;

/// The key symbol `Redo`.
pub const REDO: u32 = 0xff66;

/// The key symbol `Menu`.
pub const MENU: u32 = 0xff67;

/// The key symbol `Find`.
pub const FIND: u32 = 0xff68;

/// The key symbol `Cancel`.
pub const CANCEL: u32 = 0xff69;

/// The key symbol `Help`.
pub const HELP: u32 = 0xff6a;

/// The key symbol `Break`.
pub const BREAK: u32 = 0xff6b;

/// The key symbol `Mode_switch`.
pub const MODE_SWITCH: u32 = 0xff7e;

/// The key symbol `Num_Lock`.
pub const NUM_LOCK: u32 = 0xff7f;

// Keypad.
/// The key symbol `KP_Tab`.
pub const KP_TAB: u32 = 0xff89;

/// The key symbol `KP_Enter`.
pub const KP_ENTER: u32 = 0xff8d;

/// The key symbol `KP_F1`.
pub const KP_F1: u32 = 0xff91;

/// The key symbol `KP_F2`.
pub const KP_F2: u32 = 0xff92;

/// The key symbol `KP_F3`.
pub const KP_F3: u32 = 0xff93;

/// The key symbol `KP_F4`.
pub const KP_F4: u32 = 0xff94;

/// The key symbol `KP_Home`.
pub const KP_HOME: u32 = 0xff95;

/// The key symbol `KP_Left`.
pub const KP_LEFT: u32 = 0xff96;

/// The key symbol `KP_Up`.
pub const KP_UP: u32 = 0xff97;

/// The key symbol `KP_Right`.
pub const KP_RIGHT: u32 = 0xff98;

/// The key symbol `KP_Down`.
pub const KP_DOWN: u32 = 0xff99;

/// The key symbol `KP_Page_Up`.
pub const KP_PAGE_UP: u32 = 0xff9a;

/// The key symbol `KP_Page_Down`.
pub const KP_PAGE_DOWN: u32 = 0xff9b;

/// The key symbol `KP_End`.
pub const KP_END: u32 = 0xff9c;

/// The key symbol `KP_Insert`.
pub const KP_INSERT: u32 = 0xff9e;

/// The key symbol `KP_Delete`.
pub const KP_DELETE: u32 = 0xff9f;

// Function keys.
/// The key symbol `F1`.
pub const F1: u32 = 0xffbe;

/// The key symbol `F2`.
pub const F2: u32 = 0xffbf;

/// The key symbol `F3`.
pub const F3: u32 = 0xffc0;

/// The key symbol `F4`.
pub const F4: u32 = 0xffc1;

/// The key symbol `F5`.
pub const F5: u32 = 0xffc2;

/// The key symbol `F6`.
pub const F6: u32 = 0xffc3;

/// The key symbol `F7`.
pub const F7: u32 = 0xffc4;

/// The key symbol `F8`.
pub const F8: u32 = 0xffc5;

/// The key symbol `F9`.
pub const F9: u32 = 0xffc6;

/// The key symbol `F10`.
pub const F10: u32 = 0xffc7;

/// The key symbol `F11`.
pub const F11: u32 = 0xffc8;

/// The key symbol `F12`.
pub const F12: u32 = 0xffc9;

/// The key symbol `F13`.
pub const F13: u32 = 0xffca;

/// The key symbol `F14`.
pub const F14: u32 = 0xffcb;

/// The key symbol `F15`.
pub const F15: u32 = 0xffcc;

/// The key symbol `F16`.
pub const F16: u32 = 0xffcd;

/// The key symbol `F17`.
pub const F17: u32 = 0xffce;

/// The key symbol `F18`.
pub const F18: u32 = 0xffcf;

/// The key symbol `F19`.
pub const F19: u32 = 0xffd0;

/// The key symbol `F20`.
pub const F20: u32 = 0xffd1;

/// The key symbol `F21`.
pub const F21: u32 = 0xffd2;

/// The key symbol `F22`.
pub const F22: u32 = 0xffd3;

/// The key symbol `F23`.
pub const F23: u32 = 0xffd4;

/// The key symbol `F24`.
pub const F24: u32 = 0xffd5;

/// The key symbol `F25`.
pub const F25: u32 = 0xffd6;

/// The key symbol `F26`.
pub const F26: u32 = 0xffd7;

/// The key symbol `F27`.
pub const F27: u32 = 0xffd8;

/// The key symbol `F28`.
pub const F28: u32 = 0xffd9;

/// The key symbol `F29`.
pub const F29: u32 = 0xffda;

/// The key symbol `F30`.
pub const F30: u32 = 0xffdb;

/// The key symbol `F31`.
pub const F31: u32 = 0xffdc;

/// The key symbol `F32`.
pub const F32: u32 = 0xffdd;

/// The key symbol `F33`.
pub const F33: u32 = 0xffde;

/// The key symbol `F34`.
pub const F34: u32 = 0xffdf;

/// The key symbol `F35`.
pub const F35: u32 = 0xffe0;

// Modifiers.
/// The key symbol `Shift_L`.
pub const SHIFT_L: u32 = 0xffe1;

/// The key symbol `Shift_R`.
pub const SHIFT_R: u32 = 0xffe2;

/// The key symbol `Control_L`.
pub const CONTROL_L: u32 = 0xffe3;

/// The key symbol `Control_R`.
pub const CONTROL_R: u32 = 0xffe4;

/// The key symbol `Caps_Lock`.
pub const CAPS_LOCK: u32 = 0xffe5;

/// The key symbol `Alt_L`.
pub const ALT_L: u32 = 0xffe9;

/// The key symbol `Alt_R`.
pub const ALT_R: u32 = 0xffea;

/// The key symbol `Super_L`.
pub const SUPER_L: u32 = 0xffeb;

/// The key symbol `Super_R`.
pub const SUPER_R: u32 = 0xffec;

/// The key symbol `Hyper_L`.
pub const HYPER_L: u32 = 0xffed;

/// The key symbol `Hyper_R`.
pub const HYPER_R: u32 = 0xffee;

// Layout levels and groups.
/// The key symbol `ISO_Level3_Shift`.
pub const ISO_LEVEL3_SHIFT: u32 = 0xfe03;

/// The key symbol `ISO_Level3_Latch`.
pub const ISO_LEVEL3_LATCH: u32 = 0xfe04;

/// The key symbol `ISO_Level3_Lock`.
pub const ISO_LEVEL3_LOCK: u32 = 0xfe05;

/// The key symbol `ISO_Next_Group`.
pub const ISO_NEXT_GROUP: u32 = 0xfe08;

/// The key symbol `ISO_Prev_Group`.
pub const ISO_PREV_GROUP: u32 = 0xfe0a;

/// The key symbol `ISO_First_Group`.
pub const ISO_FIRST_GROUP: u32 = 0xfe0c;

/// The key symbol `ISO_Last_Group`.
pub const ISO_LAST_GROUP: u32 = 0xfe0e;

/// The key symbol `ISO_Left_Tab`.
pub const ISO_LEFT_TAB: u32 = 0xfe20;

/// The key symbol `ISO_Enter`.
pub const ISO_ENTER: u32 = 0xfe34;

// 3270 terminals.
/// The key symbol `3270_EraseEOF`.
pub const IBM3270_ERASE_EOF: u32 = 0xfd06;

/// The key symbol `3270_Attn`.
pub const IBM3270_ATTN: u32 = 0xfd0e;

/// The key symbol `3270_Play`.
pub const IBM3270_PLAY: u32 = 0xfd16;

/// The key symbol `3270_ExSelect`.
pub const IBM3270_EX_SELECT: u32 = 0xfd1b;

/// The key symbol `3270_CursorSelect`.
pub const IBM3270_CURSOR_SELECT: u32 = 0xfd1c;

/// The key symbol `3270_PrintScreen`.
pub const IBM3270_PRINT_SCREEN: u32 = 0xfd1d;

/// The key symbol `3270_Enter`.
pub const IBM3270_ENTER: u32 = 0xfd1e;

// The space bar.
/// The key symbol `space`.
pub const SPACE: u32 = 0x20;

// Backlight.
/// The key symbol `XF86_MonBrightnessUp`.
pub const XF86_MON_BRIGHTNESS_UP: u32 = 0x1008ff02;

/// The key symbol `XF86_MonBrightnessDown`.
pub const XF86_MON_BRIGHTNESS_DOWN: u32 = 0x1008ff03;

// Media and browser keys.
/// The key symbol `XF86_Standby`.
pub const XF86_STANDBY: u32 = 0x1008ff10;

/// The key symbol `XF86_AudioLowerVolume`.
pub const XF86_AUDIO_LOWER_VOLUME: u32 = 0x1008ff11;

/// The key symbol `XF86_AudioRaiseVolume`.
pub const XF86_AUDIO_RAISE_VOLUME: u32 = 0x1008ff13;

/// The key symbol `XF86_AudioPlay`.
pub const XF86_AUDIO_PLAY: u32 = 0x1008ff14;

/// The key symbol `XF86_AudioStop`.
pub const XF86_AUDIO_STOP: u32 = 0x1008ff15;

/// The key symbol `XF86_AudioPrev`.
pub const XF86_AUDIO_PREV: u32 = 0x1008ff16;

/// The key symbol `XF86_AudioNext`.
pub const XF86_AUDIO_NEXT: u32 = 0x1008ff17;

/// The key symbol `XF86_HomePage`.
pub const XF86_HOME_PAGE: u32 = 0x1008ff18;

/// The key symbol `XF86_Mail`.
pub const XF86_MAIL: u32 = 0x1008ff19;

/// The key symbol `XF86_Search`.
pub const XF86_SEARCH: u32 = 0x1008ff1b;

/// The key symbol `XF86_AudioRecord`.
pub const XF86_AUDIO_RECORD: u32 = 0x1008ff1c;

/// The key symbol `XF86_Calculator`.
pub const XF86_CALCULATOR: u32 = 0x1008ff1d;

/// The key symbol `XF86_Calendar`.
pub const XF86_CALENDAR: u32 = 0x1008ff20;

/// The key symbol `XF86_PowerDown`.
pub const XF86_POWER_DOWN: u32 = 0x1008ff21;

/// The key symbol `XF86_Back`.
pub const XF86_BACK: u32 = 0x1008ff26;

/// The key symbol `XF86_Forward`.
pub const XF86_FORWARD: u32 = 0x1008ff27;

/// The key symbol `XF86_Refresh`.
pub const XF86_REFRESH: u32 = 0x1008ff29;

/// The key symbol `XF86_PowerOff`.
pub const XF86_POWER_OFF: u32 = 0x1008ff2a;

/// The key symbol `XF86_WakeUp`.
pub const XF86_WAKE_UP: u32 = 0x1008ff2b;

/// The key symbol `XF86_Eject`.
pub const XF86_EJECT: u32 = 0x1008ff2c;

/// The key symbol `XF86_ScreenSaver`.
pub const XF86_SCREEN_SAVER: u32 = 0x1008ff2d;

/// The key symbol `XF86_WWW`.
pub const XF86_WWW: u32 = 0x1008ff2e;

/// The key symbol `XF86_Sleep`.
pub const XF86_SLEEP: u32 = 0x1008ff2f;

/// The key symbol `XF86_Favorites`.
pub const XF86_FAVORITES: u32 = 0x1008ff30;

/// The key symbol `XF86_AudioPause`.
pub const XF86_AUDIO_PAUSE: u32 = 0x1008ff31;

/// The key symbol `XF86_MyComputer`.
pub const XF86_MY_COMPUTER: u32 = 0x1008ff33;

/// The key symbol `XF86_AudioRewind`.
pub const XF86_AUDIO_REWIND: u32 = 0x1008ff3e;

/// The key symbol `XF86_Close`.
pub const XF86_CLOSE: u32 = 0x1008ff56;

/// The key symbol `XF86_Copy`.
pub const XF86_COPY: u32 = 0x1008ff57;

/// The key symbol `XF86_Cut`.
pub const XF86_CUT: u32 = 0x1008ff58;

/// The key symbol `XF86_Excel`.
pub const XF86_EXCEL: u32 = 0x1008ff5c;

/// The key symbol `XF86_LogOff`.
pub const XF86_LOG_OFF: u32 = 0x1008ff61;

/// The key symbol `XF86_New`.
pub const XF86_NEW: u32 = 0x1008ff68;

/// The key symbol `XF86_Open`.
pub const XF86_OPEN: u32 = 0x1008ff6b;

/// The key symbol `XF86_Paste`.
pub const XF86_PASTE: u32 = 0x1008ff6d;

/// The key symbol `XF86_Phone`.
pub const XF86_PHONE: u32 = 0x1008ff6e;

/// The key symbol `XF86_Reply`.
pub const XF86_REPLY: u32 = 0x1008ff72;

/// The key symbol `XF86_Reload`.
pub const XF86_RELOAD: u32 = 0x1008ff73;

/// The key symbol `XF86_Save`.
pub const XF86_SAVE: u32 = 0x1008ff77;

/// The key symbol `XF86_Send`.
pub const XF86_SEND: u32 = 0x1008ff7b;

/// The key symbol `XF86_Spell`.
pub const XF86_SPELL: u32 = 0x1008ff7c;

/// The key symbol `XF86_SplitScreen`.
pub const XF86_SPLIT_SCREEN: u32 = 0x1008ff7d;

/// The key symbol `XF86_Video`.
pub const XF86_VIDEO: u32 = 0x1008ff87;

/// The key symbol `XF86_Word`.
pub const XF86_WORD: u32 = 0x1008ff89;

/// The key symbol `XF86_ZoomIn`.
pub const XF86_ZOOM_IN: u32 = 0x1008ff8b;

/// The key symbol `XF86_ZoomOut`.
pub const XF86_ZOOM_OUT: u32 = 0x1008ff8c;

/// The key symbol `XF86_WebCam`.
pub const XF86_WEB_CAM: u32 = 0x1008ff8f;

/// The key symbol `XF86_MailForward`.
pub const XF86_MAIL_FORWARD: u32 = 0x1008ff90;

/// The key symbol `XF86_Music`.
pub const XF86_MUSIC: u32 = 0x1008ff92;

/// The key symbol `XF86_AudioForward`.
pub const XF86_AUDIO_FORWARD: u32 = 0x1008ff97;

/// The key symbol `XF86_AudioRandomPlay`.
pub const XF86_AUDIO_RANDOM_PLAY: u32 = 0x1008ff99;

/// The key symbol `XF86_Subtitle`.
pub const XF86_SUBTITLE: u32 = 0x1008ff9a;

/// The key symbol `XF86_AudioCycleTrack`.
pub const XF86_AUDIO_CYCLE_TRACK: u32 = 0x1008ff9b;

/// The key symbol `XF86_Suspend`.
pub const XF86_SUSPEND: u32 = 0x1008ffa7;

/// The key symbol `XF86_Hibernate`.
pub const XF86_HIBERNATE: u32 = 0x1008ffa8;

/// The key symbol `XF86_AudioMute`.
pub const XF86_AUDIO_MUTE: u32 = 0x1008ff12;

/// The key symbol `XF86_Next_VMode`.
pub const XF86_NEXT_VMODE: u32 = 0x1008fe22;

// Keypad keys that stand for a character.
/// The key symbol `KP_Space`.
pub const KP_SPACE: u32 = 0xff80;

/// The key symbol `KP_Begin`.
pub const KP_BEGIN: u32 = 0xff9d;

/// The key symbol `KP_Equal`.
pub const KP_EQUAL: u32 = 0xffbd;

/// The key symbol `KP_Multiply`.
pub const KP_MULTIPLY: u32 = 0xffaa;

/// The key symbol `KP_Add`.
pub const KP_ADD: u32 = 0xffab;

/// The key symbol `KP_Separator`.
pub const KP_SEPARATOR: u32 = 0xffac;

/// The key symbol `KP_Subtract`.
pub const KP_SUBTRACT: u32 = 0xffad;

/// The key symbol `KP_Decimal`.
pub const KP_DECIMAL: u32 = 0xffae;

/// The key symbol `KP_Divide`.
pub const KP_DIVIDE: u32 = 0xffaf;

/// The key symbol `KP_0`.
pub const KP_0: u32 = 0xffb0;

/// The key symbol `KP_1`.
pub const KP_1: u32 = 0xffb1;

/// The key symbol `KP_2`.
pub const KP_2: u32 = 0xffb2;

/// The key symbol `KP_3`.
pub const KP_3: u32 = 0xffb3;

/// The key symbol `KP_4`.
pub const KP_4: u32 = 0xffb4;

/// The key symbol `KP_5`.
pub const KP_5: u32 = 0xffb5;

/// The key symbol `KP_6`.
pub const KP_6: u32 = 0xffb6;

/// The key symbol `KP_7`.
pub const KP_7: u32 = 0xffb7;

/// The key symbol `KP_8`.
pub const KP_8: u32 = 0xffb8;

/// The key symbol `KP_9`.
pub const KP_9: u32 = 0xffb9;

// The meta keys.
/// The key symbol `Meta_L`.
pub const META_L: u32 = 0xffe7;

/// The key symbol `Meta_R`.
pub const META_R: u32 = 0xffe8;

// Sun keyboards.
/// The key symbol `SUN_Copy`.
pub const SUN_COPY: u32 = 0x1005ff72;

/// The key symbol `SUN_Open`.
pub const SUN_OPEN: u32 = 0x1005ff73;

/// The key symbol `SUN_Paste`.
pub const SUN_PASTE: u32 = 0x1005ff74;

/// The key symbol `SUN_Cut`.
pub const SUN_CUT: u32 = 0x1005ff75;

/// The key symbol `SUN_AudioLowerVolume`.
pub const SUN_AUDIO_LOWER_VOLUME: u32 = 0x1005ff77;

/// The key symbol `SUN_AudioMute`.
pub const SUN_AUDIO_MUTE: u32 = 0x1005ff78;

/// The key symbol `SUN_AudioRaiseVolume`.
pub const SUN_AUDIO_RAISE_VOLUME: u32 = 0x1005ff79;

/// The key symbol `SUN_VideoLowerBrightness`.
pub const SUN_VIDEO_LOWER_BRIGHTNESS: u32 = 0x1005ff7b;

/// The key symbol `SUN_VideoRaiseBrightness`.
pub const SUN_VIDEO_RAISE_BRIGHTNESS: u32 = 0x1005ff7c;

} // verus!
