//! The names of the commands, as they are written on the wire.

use vstd::prelude::*;

verus! {

pub const PING: &'static str = "ping";

pub const GET_DOM: &'static str = "get_dom";

pub const MANAGE_LOCAL_STORAGE: &'static str = "manage_local_storage";

pub const EXECUTE_JS: &'static str = "execute_js";

pub const MANAGE_WINDOW: &'static str = "manage_window";

pub const SIMULATE_TEXT_INPUT: &'static str = "simulate_text_input";

pub const SIMULATE_MOUSE_MOVEMENT: &'static str = "simulate_mouse_movement";

pub const GET_ELEMENT_POSITION: &'static str = "get_element_position";

pub const SEND_TEXT_TO_ELEMENT: &'static str = "send_text_to_element";

pub const TAKE_SCREENSHOT: &'static str = "take_screenshot";

} // verus!
