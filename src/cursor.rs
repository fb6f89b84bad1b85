use vstd::prelude::*;

verus! {

/// One reading of the pointer from the host: a position in screen
/// coordinates, or the report that the query failed.
#[derive(Clone, Copy, Debug, PartialEq, Eq, Structural)]
pub enum MouseReading {
    Position { x: i32, y: i32 },
    Error,
}

/// The cursor position as the UI receives it.
#[derive(Clone, Copy, Debug, PartialEq, Eq, Structural)]
pub struct CursorPosition {
    pub client_x: i32,
    pub client_y: i32,
}

/// The position that a reading reports; a failed query gives no data.
pub open spec fn cursor_of(reading: MouseReading) -> Option<CursorPosition> {
    match reading {
        MouseReading::Position { x, y } => Some(CursorPosition { client_x: x, client_y: y }),
        MouseReading::Error => None,
    }
}

/// The cursor position to hand the UI for one reading of the pointer. A
/// failed query is an absent result, never an error.
pub fn get_mouse_position(reading: MouseReading) -> (r: Option<CursorPosition>)
    ensures
        r == cursor_of(reading),
{
    match reading {
        MouseReading::Position { x, y } => Some(CursorPosition { client_x: x, client_y: y }),
        MouseReading::Error => None,
    }
}

} // verus!
