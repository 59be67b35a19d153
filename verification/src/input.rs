use vstd::prelude::*;

verus! {

/// Window size assumed when the emulator window or its size cannot be found.
pub const FALLBACK_SIZE: (i32, i32) = (1280, 720);

/// Duration in milliseconds of the swipe sent for each touch move.
pub const MOVE_SWIPE_MS: i32 = 8;

/// An input event from the phone, with touch coordinates already in emulator pixels.
#[derive(Debug, Clone, PartialEq, Eq)]
pub enum InputEvent {
    Touch { phase: String, x: i32, y: i32 },
    Key { key: String },
    Setting { resolution: Option<String>, fps: Option<u32> },
}

/// What handling an input event asks to be done.
#[derive(Debug, Clone, PartialEq, Eq)]
pub enum InputAction {
    Nothing,
    Swipe { x1: i32, y1: i32, x2: i32, y2: i32, duration_ms: i32 },
    Tap { x: i32, y: i32 },
    KeyEvent { code: String },
    ApplySetting { resolution: Option<String>, fps: Option<u32> },
}

/// The Android key code sent for a named key: "back", "home" and "recent" have their own codes,
/// any other name is sent as it is.
pub open spec fn key_code(key: Seq<char>) -> Seq<char> {
    if key == "back"@ {
        "4"@
    } else if key == "home"@ {
        "3"@
    } else if key == "recent"@ {
        "187"@
    } else {
        key
    }
}

/// The Android key code for a key name.
pub fn map_key(key: &str) -> (r: String)
    ensures
        r@ == key_code(key@),
{
    if key.eq("back") {
        "4".to_owned()
    } else if key.eq("home") {
        "3".to_owned()
    } else if key.eq("recent") {
        "187".to_owned()
    } else {
        key.to_owned()
    }
}

/// The emulator screen size to map touches to: the window's client size when it was found
/// and is positive, otherwise `FALLBACK_SIZE`.
pub fn current_mumu_size(client_size: Option<(i32, i32)>) -> (r: (i32, i32))
    ensures
        r == (match client_size {
            Some((w, h)) => if w > 0 && h > 0 {
                (w, h)
            } else {
                FALLBACK_SIZE
            },
            None => FALLBACK_SIZE,
        }),
{
    if let Some((w, h)) = client_size {
        if w > 0 && h > 0 {
            return (w, h);
        }
    }
    FALLBACK_SIZE
}

/// Handles one input event. A touch "down" remembers the point; a "move" swipes from the
/// remembered point (when there is one) to the new point and remembers it; an "up" taps
/// and forgets; any other phase taps. A key is sent as its key code; a setting is applied.
pub fn handle_event(event: InputEvent, last_touch: &mut Option<(i32, i32)>) -> (r: InputAction)
    ensures
        match event {
            InputEvent::Touch { phase, x, y } => if phase@ == "down"@ {
                r == InputAction::Nothing && *final(last_touch) == Some((x, y))
            } else if phase@ == "move"@ {
                &&& r == (match *old(last_touch) {
                    Some((lx, ly)) => InputAction::Swipe {
                        x1: lx,
                        y1: ly,
                        x2: x,
                        y2: y,
                        duration_ms: MOVE_SWIPE_MS,
                    },
                    None => InputAction::Nothing,
                })
                &&& *final(last_touch) == Some((x, y))
            } else if phase@ == "up"@ {
                r == InputAction::Tap { x, y } && *final(last_touch) == None::<(i32, i32)>
            } else {
                r == InputAction::Tap { x, y } && *final(last_touch) == *old(last_touch)
            },
            InputEvent::Key { key } => (r matches InputAction::KeyEvent { code } && code@ == key_code(
                key@,
            )) && *final(last_touch) == *old(last_touch),
            InputEvent::Setting { resolution, fps } => r == InputAction::ApplySetting {
                resolution,
                fps,
            } && *final(last_touch) == *old(last_touch),
        },
{
    match event {
        InputEvent::Touch { phase, x, y } => {
            if phase.as_str().eq("down") {
                *last_touch = Some((x, y));
                InputAction::Nothing
            } else if phase.as_str().eq("move") {
                let action = match *last_touch {
                    Some((lx, ly)) => InputAction::Swipe {
                        x1: lx,
                        y1: ly,
                        x2: x,
                        y2: y,
                        duration_ms: MOVE_SWIPE_MS,
                    },
                    None => InputAction::Nothing,
                };
                *last_touch = Some((x, y));
                action
            } else if phase.as_str().eq("up") {
                *last_touch = None;
                InputAction::Tap { x, y }
            } else {
                InputAction::Tap { x, y }
            }
        },
        InputEvent::Key { key } => InputAction::KeyEvent { code: map_key(key.as_str()) },
        InputEvent::Setting { resolution, fps } => InputAction::ApplySetting { resolution, fps },
    }
}

} // verus!
