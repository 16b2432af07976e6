//! Keyboard state: which keys are held, and which commands were asked for
//! since they were last reported.

use vstd::prelude::*;

verus! {

/// Whether a key went down or up.
#[derive(Clone, Copy, Debug, PartialEq, Eq, Structural)]
pub enum ElementState {
    Pressed,
    Released,
}

/// The keys that the handler knows; every other key is `Other`.
#[derive(Clone, Copy, Debug, PartialEq, Eq, Structural)]
pub enum VirtualKeyCode {
    W,
    S,
    A,
    D,
    Space,
    LControl,
    LShift,
    Up,
    Down,
    Left,
    Right,
    M,
    N,
    F,
    G,
    Other,
}

/// One keyboard event. The key code is absent where the key has none.
#[derive(Clone, Copy, Debug, PartialEq, Eq, Structural)]
pub struct KeyboardInput {
    pub state: ElementState,
    pub virtual_keycode: Option<VirtualKeyCode>,
}

/// What the keyboard asks for in one frame.
#[derive(Clone, Copy, Debug, PartialEq, Eq)]
pub struct ProcessedKeyboardInput {
    /// Camera movement along the view direction, to the side and upwards, in
    /// units of the movement speed: -1, 0 or 1 each, five times that while
    /// sprinting.
    pub relative_cam_speed: (i8, i8, i8),
    /// Camera rotation sideways and upwards, in units of the look speed: -1,
    /// 0 or 1 each.
    pub cam_turn_speed: (i8, i8),
    pub toggle_continuous_mode: bool,
    pub single_tick: bool,
    pub find_robot: bool,
    pub toggle_follow_robot: bool,
}

impl Default for ProcessedKeyboardInput {
    /// No movement, no rotation, no command.
    fn default() -> (input: ProcessedKeyboardInput)
        ensures
            input == KeyboardEventHandler::idle().report(),
    {
        ProcessedKeyboardInput {
            relative_cam_speed: (0, 0, 0),
            cam_turn_speed: (0, 0),
            toggle_continuous_mode: false,
            single_tick: false,
            find_robot: false,
            toggle_follow_robot: false,
        }
    }
}

/// The pull of two opposed keys: 1 if only `plus` is down, -1 if only `minus`
/// is, else 0.
pub open spec fn axis(plus: bool, minus: bool) -> i8 {
    if plus && !minus {
        1i8
    } else if minus && !plus {
        -1i8
    } else {
        0i8
    }
}

/// The pull `pull` as a speed: five times as fast while sprinting.
pub open spec fn sped_up(pull: i8, sprint: bool) -> i8 {
    if sprint {
        (5 * pull) as i8
    } else {
        pull
    }
}

/// The text that tells the user what the keys do.
pub open spec fn explanation() -> Seq<char> {
    "WASD: control camera movement;
arrows: control camera rotation;
N: advance the game by a single tick;
M: toggle continuous execution of the game.
F: find the robot and move the camera to it
G: toggle following the robot with the camera"@
}

/// The state of the keyboard: for each key that acts while it is held,
/// whether it is down, and for each key that gives a command, whether it went
/// down since the commands were last reported.
#[derive(Clone, Copy, Debug, PartialEq, Eq, Structural)]
pub struct KeyboardEventHandler {
    /// W: forwards.
    pub forward_pressed: bool,
    /// S: backwards.
    pub backward_pressed: bool,
    /// A: to the left.
    pub left_pressed: bool,
    /// D: to the right.
    pub right_pressed: bool,
    /// Space: upwards.
    pub rise_pressed: bool,
    /// Left control: downwards.
    pub sink_pressed: bool,
    /// Left shift: move five times as fast.
    pub sprint_pressed: bool,
    /// Up arrow.
    pub look_up_pressed: bool,
    /// Down arrow.
    pub look_down_pressed: bool,
    /// Left arrow.
    pub look_left_pressed: bool,
    /// Right arrow.
    pub look_right_pressed: bool,
    /// M went down: start or stop continuous running.
    pub toggle_continuous_mode: bool,
    /// N went down: run a single tick.
    pub single_tick: bool,
    /// F went down: move the camera to the agent.
    pub find_robot: bool,
    /// G went down: start or stop following the agent.
    pub toggle_follow_robot: bool,
}

/// 1 if only `plus` holds, -1 if only `minus` does, else 0.
fn pull(plus: bool, minus: bool) -> (value: i8)
    ensures
        value == axis(plus, minus),
{
    if plus && !minus {
        1
    } else if minus && !plus {
        -1
    } else {
        0
    }
}

/// The pull `pull` as a speed: five times as fast while sprinting.
fn speed(pull: i8, sprint: bool) -> (value: i8)
    requires
        -1 <= pull <= 1,
    ensures
        value == sped_up(pull, sprint),
{
    if sprint {
        5 * pull
    } else {
        pull
    }
}

impl KeyboardEventHandler {
    /// The state with no key down and no command waiting.
    pub open spec fn idle() -> KeyboardEventHandler {
        KeyboardEventHandler {
            forward_pressed: false,
            backward_pressed: false,
            left_pressed: false,
            right_pressed: false,
            rise_pressed: false,
            sink_pressed: false,
            sprint_pressed: false,
            look_up_pressed: false,
            look_down_pressed: false,
            look_left_pressed: false,
            look_right_pressed: false,
            toggle_continuous_mode: false,
            single_tick: false,
            find_robot: false,
            toggle_follow_robot: false,
        }
    }

    /// The state after the event `input`. A held key follows the event; a
    /// command is noted when its key goes down, and stays noted.
    pub open spec fn after(self, input: KeyboardInput) -> KeyboardEventHandler {
        match input.virtual_keycode {
            Some(key) => self.with_key(key, input.state is Pressed),
            None => self,
        }
    }

    /// The state after the key `key` went down, if `pressed`, or up. A proof
    /// that goes by what a given key does has to `reveal` this function.
    #[verifier::opaque]
    pub open spec fn with_key(self, key: VirtualKeyCode, pressed: bool) -> KeyboardEventHandler {
        match key {
            VirtualKeyCode::W => KeyboardEventHandler { forward_pressed: pressed, ..self },
            VirtualKeyCode::S => KeyboardEventHandler { backward_pressed: pressed, ..self },
            VirtualKeyCode::A => KeyboardEventHandler { left_pressed: pressed, ..self },
            VirtualKeyCode::D => KeyboardEventHandler { right_pressed: pressed, ..self },
            VirtualKeyCode::Space => KeyboardEventHandler { rise_pressed: pressed, ..self },
            VirtualKeyCode::LControl => KeyboardEventHandler { sink_pressed: pressed, ..self },
            VirtualKeyCode::LShift => KeyboardEventHandler { sprint_pressed: pressed, ..self },
            VirtualKeyCode::Up => KeyboardEventHandler { look_up_pressed: pressed, ..self },
            VirtualKeyCode::Down => KeyboardEventHandler { look_down_pressed: pressed, ..self },
            VirtualKeyCode::Left => KeyboardEventHandler { look_left_pressed: pressed, ..self },
            VirtualKeyCode::Right => KeyboardEventHandler { look_right_pressed: pressed, ..self },
            VirtualKeyCode::M => KeyboardEventHandler {
                toggle_continuous_mode: self.toggle_continuous_mode || pressed,
                ..self
            },
            VirtualKeyCode::N => KeyboardEventHandler {
                single_tick: self.single_tick || pressed,
                ..self
            },
            VirtualKeyCode::F => KeyboardEventHandler {
                find_robot: self.find_robot || pressed,
                ..self
            },
            VirtualKeyCode::G => KeyboardEventHandler {
                toggle_follow_robot: self.toggle_follow_robot || pressed,
                ..self
            },
            _ => self,
        }
    }

    /// What the keyboard asks for in this state.
    pub open spec fn report(self) -> ProcessedKeyboardInput {
        ProcessedKeyboardInput {
            relative_cam_speed: (
                sped_up(axis(self.forward_pressed, self.backward_pressed), self.sprint_pressed),
                sped_up(axis(self.left_pressed, self.right_pressed), self.sprint_pressed),
                sped_up(axis(self.rise_pressed, self.sink_pressed), self.sprint_pressed),
            ),
            cam_turn_speed: (
                axis(self.look_right_pressed, self.look_left_pressed),
                axis(self.look_up_pressed, self.look_down_pressed),
            ),
            toggle_continuous_mode: self.toggle_continuous_mode,
            single_tick: self.single_tick,
            find_robot: self.find_robot,
            toggle_follow_robot: self.toggle_follow_robot,
        }
    }

    /// The state once the commands are reported: the held keys stay, the
    /// commands are forgotten.
    pub open spec fn reported(self) -> KeyboardEventHandler {
        KeyboardEventHandler {
            toggle_continuous_mode: false,
            single_tick: false,
            find_robot: false,
            toggle_follow_robot: false,
            ..self
        }
    }

    /// What the keys do, for the user to read.
    pub fn get_explanation(&self) -> (text: &'static str)
        ensures
            text@ == explanation(),
    {
        "WASD: control camera movement;
arrows: control camera rotation;
N: advance the game by a single tick;
M: toggle continuous execution of the game.
F: find the robot and move the camera to it
G: toggle following the robot with the camera"
    }

    /// A handler with no key down and no command waiting.
    pub fn new() -> (handler: KeyboardEventHandler)
        ensures
            handler == KeyboardEventHandler::idle(),
    {
        KeyboardEventHandler {
            forward_pressed: false,
            backward_pressed: false,
            left_pressed: false,
            right_pressed: false,
            rise_pressed: false,
            sink_pressed: false,
            sprint_pressed: false,
            look_up_pressed: false,
            look_down_pressed: false,
            look_left_pressed: false,
            look_right_pressed: false,
            toggle_continuous_mode: false,
            single_tick: false,
            find_robot: false,
            toggle_follow_robot: false,
        }
    }

    /// Takes in the event `input` and reports what the keyboard asks for now.
    /// A command is reported once.
    pub fn process_input(&mut self, input: KeyboardInput) -> (processed: ProcessedKeyboardInput)
        ensures
            processed == old(self).after(input).report(),
            *final(self) == old(self).after(input).reported(),
    {
        self.handle(input);
        self.get_processed_input()
    }

    /// Takes in the event `input`.
    pub fn handle(&mut self, input: KeyboardInput)
        ensures
            *final(self) == old(self).after(input),
    {
        let pressed = match input.state {
            ElementState::Pressed => true,
            ElementState::Released => false,
        };
        if let Some(keycode) = input.virtual_keycode {
            let next = match keycode {
                VirtualKeyCode::W
                | VirtualKeyCode::S
                | VirtualKeyCode::A
                | VirtualKeyCode::D
                | VirtualKeyCode::Space
                | VirtualKeyCode::LControl
                | VirtualKeyCode::LShift => self.with_movement_key(keycode, pressed),
                VirtualKeyCode::Up
                | VirtualKeyCode::Down
                | VirtualKeyCode::Left
                | VirtualKeyCode::Right => self.with_rotation_key(keycode, pressed),
                VirtualKeyCode::M
                | VirtualKeyCode::N
                | VirtualKeyCode::F
                | VirtualKeyCode::G => self.with_command_key(keycode, pressed),
                VirtualKeyCode::Other => {
                    proof {
                        self.lemma_unknown_key_changes_nothing(pressed);
                    }
                    *self
                },
            };
            *self = next;
        }
    }

    /// A key that the handler does not know leaves the state as it is.
    pub proof fn lemma_unknown_key_changes_nothing(self, pressed: bool)
        ensures
            self.with_key(VirtualKeyCode::Other, pressed) == self,
    {
        reveal(KeyboardEventHandler::with_key);
    }

    /// The state after a key that moves the camera went down or up.
    fn with_movement_key(self, key: VirtualKeyCode, pressed: bool) -> (next: KeyboardEventHandler)
        requires
            key is W || key is S || key is A || key is D || key is Space || key is LControl
                || key is LShift,
        ensures
            next == self.with_key(key, pressed),
    {
        reveal(KeyboardEventHandler::with_key);
        match key {
            VirtualKeyCode::W => KeyboardEventHandler { forward_pressed: pressed, ..self },
            VirtualKeyCode::S => KeyboardEventHandler { backward_pressed: pressed, ..self },
            VirtualKeyCode::A => KeyboardEventHandler { left_pressed: pressed, ..self },
            VirtualKeyCode::D => KeyboardEventHandler { right_pressed: pressed, ..self },
            VirtualKeyCode::Space => KeyboardEventHandler { rise_pressed: pressed, ..self },
            VirtualKeyCode::LControl => KeyboardEventHandler { sink_pressed: pressed, ..self },
            VirtualKeyCode::LShift => KeyboardEventHandler { sprint_pressed: pressed, ..self },
            _ => self,
        }
    }

    /// The state after a key that turns the camera went down or up.
    fn with_rotation_key(self, key: VirtualKeyCode, pressed: bool) -> (next: KeyboardEventHandler)
        requires
            key is Up || key is Down || key is Left || key is Right,
        ensures
            next == self.with_key(key, pressed),
    {
        reveal(KeyboardEventHandler::with_key);
        match key {
            VirtualKeyCode::Up => KeyboardEventHandler { look_up_pressed: pressed, ..self },
            VirtualKeyCode::Down => KeyboardEventHandler { look_down_pressed: pressed, ..self },
            VirtualKeyCode::Left => KeyboardEventHandler { look_left_pressed: pressed, ..self },
            VirtualKeyCode::Right => KeyboardEventHandler { look_right_pressed: pressed, ..self },
            _ => self,
        }
    }

    /// The state after a key that gives a command went down or up.
    fn with_command_key(self, key: VirtualKeyCode, pressed: bool) -> (next: KeyboardEventHandler)
        requires
            key is M || key is N || key is F || key is G,
        ensures
            next == self.with_key(key, pressed),
    {
        reveal(KeyboardEventHandler::with_key);
        match key {
            VirtualKeyCode::M => KeyboardEventHandler {
                toggle_continuous_mode: self.toggle_continuous_mode || pressed,
                ..self
            },
            VirtualKeyCode::N => KeyboardEventHandler {
                single_tick: self.single_tick || pressed,
                ..self
            },
            VirtualKeyCode::F => KeyboardEventHandler {
                find_robot: self.find_robot || pressed,
                ..self
            },
            VirtualKeyCode::G => KeyboardEventHandler {
                toggle_follow_robot: self.toggle_follow_robot || pressed,
                ..self
            },
            _ => self,
        }
    }

    /// Reports what the keyboard asks for now, and forgets the commands.
    pub fn get_processed_input(&mut self) -> (processed: ProcessedKeyboardInput)
        ensures
            processed == old(self).report(),
            *final(self) == old(self).reported(),
    {
        let processed = self.current_report();
        *self = KeyboardEventHandler {
            toggle_continuous_mode: false,
            single_tick: false,
            find_robot: false,
            toggle_follow_robot: false,
            ..*self
        };
        processed
    }

    /// What the keyboard asks for now.
    fn current_report(&self) -> (processed: ProcessedKeyboardInput)
        ensures
            processed == self.report(),
    {
        let sprint = self.sprint_pressed;
        ProcessedKeyboardInput {
            relative_cam_speed: (
                speed(pull(self.forward_pressed, self.backward_pressed), sprint),
                speed(pull(self.left_pressed, self.right_pressed), sprint),
                speed(pull(self.rise_pressed, self.sink_pressed), sprint),
            ),
            cam_turn_speed: (
                pull(self.look_right_pressed, self.look_left_pressed),
                pull(self.look_up_pressed, self.look_down_pressed),
            ),
            toggle_continuous_mode: self.toggle_continuous_mode,
            single_tick: self.single_tick,
            find_robot: self.find_robot,
            toggle_follow_robot: self.toggle_follow_robot,
        }
    }
}

} // verus!
