use vstd::prelude::*;

use crate::models::choice::ChoicePick;
use crate::models::key::GameKey;
use crate::models::metadata::GameMetadata;

verus! {

/// A key on the keyboard.
#[derive(Debug, Clone, Copy, PartialEq, Eq, Structural)]
pub enum KeyCode {
    Char(char),
    Enter,
    Esc,
    Backspace,
    Up,
    Down,
    Left,
    Right,
    PageUp,
    PageDown,
    Tab,
    /// Any other key
    Other,
}

/// No modifier key held.
pub const MOD_NONE: u8 = 0;

/// The Shift modifier bit.
pub const MOD_SHIFT: u8 = 1;

/// The Control modifier bit.
pub const MOD_CONTROL: u8 = 2;

/// The Alt modifier bit.
pub const MOD_ALT: u8 = 4;

/// A key press with the set of modifiers held (bits `MOD_SHIFT`,
/// `MOD_CONTROL`, `MOD_ALT`, and higher bits for other modifiers).
#[derive(Debug, Clone, Copy, PartialEq, Eq, Structural)]
pub struct KeyPress {
    pub code: KeyCode,
    pub modifiers: u8,
}

/// Input from the terminal.
#[derive(Debug, Clone, Copy, PartialEq, Eq, Structural)]
pub enum InputEvent {
    Key(KeyPress),
    /// Mouse, resize, focus and paste events
    Other,
}

/// Everything the UI reacts to.
#[derive(Debug)]
pub enum AppEvent {
    /// Periodic tick for expiry countdown re-render
    Tick,
    /// Keyboard / mouse input from the terminal
    Input(InputEvent),
    /// All order gamekeys fetched from Humble
    OrderRefsLoaded(Vec<String>),
    /// One order's bundle + keys fetched and stored to DB
    OrderLoaded { keys: Vec<GameKey> },
    /// Choice picks of one month fetched
    ChoicePicksLoaded { month: String, picks: Vec<ChoicePick> },
    /// Sync progress update (for status bar)
    SyncProgress { done: u32, total: u32, label: String },
    /// Non-fatal sync error
    SyncError(String),
    /// Initial data loaded from local cache (fast path on startup)
    CacheLoaded { keys: Vec<GameKey>, picks: Vec<ChoicePick> },
    /// Last full sync time (Unix seconds) loaded from DB (None = never synced)
    SyncStateLoaded(Option<i64>),
    /// All cached game metadata loaded on startup
    AllMetadataLoaded(Vec<GameMetadata>),
    /// One game's metadata was enriched and saved
    MetadataEnriched(GameMetadata),
    /// Progress update during a metadata sync
    MetadataProgress { done: u32, total: u32 },
    /// Metadata sync finished
    MetadataSyncComplete,
}

/// What the UI asks the rest of the program to do.
#[derive(Debug)]
pub enum Cmd {
    /// Fetch everything from Humble from scratch
    StartFullSync,
    /// Enrich all items with Steam/IGDB metadata (separate from Humble sync)
    StartMetadataSync,
    /// Export currently filtered view to CSV at the given path
    ExportCsv(String),
    /// Shut down
    Quit,
    /// Open a URL in the browser
    OpenUrl(String),
    /// Put a text on the clipboard
    CopyToClipboard(String),
    /// Store this session cookie in the configuration, then start a full sync
    SaveSessionCookie(String),
}

pub enum CmdView {
    StartFullSync,
    StartMetadataSync,
    ExportCsv(Seq<char>),
    Quit,
    OpenUrl(Seq<char>),
    CopyToClipboard(Seq<char>),
    SaveSessionCookie(Seq<char>),
}

impl View for Cmd {
    type V = CmdView;

    open spec fn view(&self) -> CmdView {
        match self {
            Cmd::StartFullSync => CmdView::StartFullSync,
            Cmd::StartMetadataSync => CmdView::StartMetadataSync,
            Cmd::ExportCsv(p) => CmdView::ExportCsv(p@),
            Cmd::Quit => CmdView::Quit,
            Cmd::OpenUrl(u) => CmdView::OpenUrl(u@),
            Cmd::CopyToClipboard(t) => CmdView::CopyToClipboard(t@),
            Cmd::SaveSessionCookie(c) => CmdView::SaveSessionCookie(c@),
        }
    }
}

/// The view of an optional command.
pub open spec fn opt_cmd_view(c: Option<Cmd>) -> Option<CmdView> {
    match c {
        Some(c) => Some(c@),
        None => None,
    }
}

} // verus!
