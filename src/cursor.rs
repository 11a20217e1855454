//! Cursors the engine asks for, and their names in the host toolkit.
use vstd::prelude::*;

verus! {

/// Pointer cursors of the engine.
#[derive(Clone, Copy, Debug, PartialEq, Eq, Structural)]
pub enum Cursor {
    Hidden,
    Default,
    Help,
    Pointer,
    ContextMenu,
    Progress,
    Wait,
    Cell,
    Crosshair,
    Text,
    VerticalText,
    Alias,
    Copy,
    NoDrop,
    Move,
    NotAllowed,
    Grab,
    Grabbing,
    AllScroll,
    ColResize,
    RowResize,
    NResize,
    EResize,
    SResize,
    WResize,
    NeResize,
    NwResize,
    SwResize,
    SeResize,
    EwResize,
    NsResize,
    NeswResize,
    NwseResize,
    ZoomIn,
    ZoomOut,
}

impl Cursor {
    /// The CSS cursor name of this cursor, under which the host toolkit knows it.
    pub open spec fn spec_name(self) -> Seq<char> {
        match self {
            Cursor::Hidden => "none"@,
            Cursor::Default => "default"@,
            Cursor::Help => "help"@,
            Cursor::Pointer => "pointer"@,
            Cursor::ContextMenu => "context-menu"@,
            Cursor::Progress => "progress"@,
            Cursor::Wait => "wait"@,
            Cursor::Cell => "cell"@,
            Cursor::Crosshair => "crosshair"@,
            Cursor::Text => "text"@,
            Cursor::VerticalText => "vertical-text"@,
            Cursor::Alias => "alias"@,
            Cursor::Copy => "copy"@,
            Cursor::NoDrop => "no-drop"@,
            Cursor::Move => "move"@,
            Cursor::NotAllowed => "not-allowed"@,
            Cursor::Grab => "grab"@,
            Cursor::Grabbing => "grabbing"@,
            Cursor::AllScroll => "all-scroll"@,
            Cursor::ColResize => "col-resize"@,
            Cursor::RowResize => "row-resize"@,
            Cursor::NResize => "n-resize"@,
            Cursor::EResize => "e-resize"@,
            Cursor::SResize => "s-resize"@,
            Cursor::WResize => "w-resize"@,
            Cursor::NeResize => "ne-resize"@,
            Cursor::NwResize => "nw-resize"@,
            Cursor::SwResize => "sw-resize"@,
            Cursor::SeResize => "se-resize"@,
            Cursor::EwResize => "ew-resize"@,
            Cursor::NsResize => "ns-resize"@,
            Cursor::NeswResize => "nesw-resize"@,
            Cursor::NwseResize => "nwse-resize"@,
            Cursor::ZoomIn => "zoom-in"@,
            Cursor::ZoomOut => "zoom-out"@,
        }
    }

    /// The name under which the host toolkit looks this cursor up.
    pub fn name(self) -> (r: &'static str)
        ensures
            r@ == self.spec_name(),
    {
        match self {
            Cursor::Hidden => "none",
            Cursor::Default => "default",
            Cursor::Help => "help",
            Cursor::Pointer => "pointer",
            Cursor::ContextMenu => "context-menu",
            Cursor::Progress => "progress",
            Cursor::Wait => "wait",
            Cursor::Cell => "cell",
            Cursor::Crosshair => "crosshair",
            Cursor::Text => "text",
            Cursor::VerticalText => "vertical-text",
            Cursor::Alias => "alias",
            Cursor::Copy => "copy",
            Cursor::NoDrop => "no-drop",
            Cursor::Move => "move",
            Cursor::NotAllowed => "not-allowed",
            Cursor::Grab => "grab",
            Cursor::Grabbing => "grabbing",
            Cursor::AllScroll => "all-scroll",
            Cursor::ColResize => "col-resize",
            Cursor::RowResize => "row-resize",
            Cursor::NResize => "n-resize",
            Cursor::EResize => "e-resize",
            Cursor::SResize => "s-resize",
            Cursor::WResize => "w-resize",
            Cursor::NeResize => "ne-resize",
            Cursor::NwResize => "nw-resize",
            Cursor::SwResize => "sw-resize",
            Cursor::SeResize => "se-resize",
            Cursor::EwResize => "ew-resize",
            Cursor::NsResize => "ns-resize",
            Cursor::NeswResize => "nesw-resize",
            Cursor::NwseResize => "nwse-resize",
            Cursor::ZoomIn => "zoom-in",
            Cursor::ZoomOut => "zoom-out",
        }
    }
}

} // verus!
