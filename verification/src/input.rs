//! From engine input to GUI input: the parts that are decisions
//! on plain values.
//!
//! Positions, forces and timestamps are attached by the caller; what is
//! decided here is which GUI events an input event gives rise to, in which
//! order, and how the small per-context states move.

use vstd::prelude::*;
use vstd::string::*;

verus! {

/// The modifier keys as the GUI sees them.
#[derive(Clone, Copy, Debug, PartialEq, Eq, Hash, Structural)]
pub struct Modifiers {
    /// Either alt key is down.
    pub alt: bool,
    /// Either control key is down.
    pub ctrl: bool,
    /// Either shift key is down.
    pub shift: bool,
    /// The command key is down; always false off macOS.
    pub mac_cmd: bool,
    /// The key for shortcuts is down: command on macOS, control elsewhere.
    pub command: bool,
}

/// What the modifier state reads of a logical key.
#[derive(Clone, Copy, Debug, PartialEq, Eq, Hash, Structural)]
pub enum ModifierKey {
    /// A shift key.
    Shift,
    /// A control key.
    Control,
    /// An alt key.
    Alt,
    /// A super key.
    Super,
    /// A meta key.
    Meta,
    /// Any other key.
    Other,
}

/// A key going down or up.
#[derive(Clone, Copy, Debug, PartialEq, Eq, Hash, Structural)]
pub struct ModifierKeyEvent {
    /// The key.
    pub key: ModifierKey,
    /// Whether it went down.
    pub pressed: bool,
}

/// Which modifier keys are down.
#[derive(Clone, Copy, Debug, PartialEq, Eq, Hash, Structural)]
pub struct ModifierKeysState {
    /// A shift key is down.
    pub shift: bool,
    /// A control key is down.
    pub ctrl: bool,
    /// An alt key is down.
    pub alt: bool,
    /// A super or meta key is down.
    pub win: bool,
    /// The host is macOS, where the super key is the key for shortcuts.
    pub is_macos: bool,
}

impl ModifierKeysState {
    /// The modifiers as the GUI sees them.
    pub open spec fn spec_to_egui_modifiers(self) -> Modifiers {
        Modifiers {
            alt: self.alt,
            ctrl: self.ctrl,
            shift: self.shift,
            mac_cmd: self.is_macos && self.win,
            command: if self.is_macos {
                self.win
            } else {
                self.ctrl
            },
        }
    }

    /// Typed characters are text: neither super nor control is down, or, off
    /// macOS, control and alt are down together, which stands for AltGr.
    pub open spec fn spec_text_input_is_allowed(self) -> bool {
        !self.win && !self.ctrl || !self.is_macos && self.ctrl && self.alt
    }

    /// The state with all keys up.
    pub open spec fn spec_reset(self) -> ModifierKeysState {
        ModifierKeysState { shift: false, ctrl: false, alt: false, win: false, ..self }
    }

    /// The state after a key went down or up.
    pub open spec fn spec_apply(self, event: ModifierKeyEvent) -> ModifierKeysState {
        match event.key {
            ModifierKey::Shift => ModifierKeysState { shift: event.pressed, ..self },
            ModifierKey::Control => ModifierKeysState { ctrl: event.pressed, ..self },
            ModifierKey::Alt => ModifierKeysState { alt: event.pressed, ..self },
            ModifierKey::Super | ModifierKey::Meta => ModifierKeysState {
                win: event.pressed,
                ..self
            },
            ModifierKey::Other => self,
        }
    }

    /// The state after a sequence of key events.
    pub open spec fn spec_apply_all(self, events: Seq<ModifierKeyEvent>) -> ModifierKeysState
        decreases events.len(),
    {
        if events.len() == 0 {
            self
        } else {
            self.spec_apply_all(events.drop_last()).spec_apply(events.last())
        }
    }

    /// All keys up, on a macOS host or another.
    pub fn new(is_macos: bool) -> (r: Self)
        ensures
            r.is_macos == is_macos,
            !r.shift && !r.ctrl && !r.alt && !r.win,
    {
        ModifierKeysState { shift: false, ctrl: false, alt: false, win: false, is_macos }
    }

    /// The modifiers as the GUI sees them.
    pub fn to_egui_modifiers(&self) -> (r: Modifiers)
        ensures
            r == self.spec_to_egui_modifiers(),
    {
        Modifiers {
            alt: self.alt,
            ctrl: self.ctrl,
            shift: self.shift,
            mac_cmd: if self.is_macos {
                self.win
            } else {
                false
            },
            command: if self.is_macos {
                self.win
            } else {
                self.ctrl
            },
        }
    }

    /// Whether typed characters are text.
    pub fn text_input_is_allowed(&self) -> (r: bool)
        ensures
            r == self.spec_text_input_is_allowed(),
    {
        !self.win && !self.ctrl || !self.is_macos && self.ctrl && self.alt
    }

    /// Lets all keys up.
    pub fn reset(&mut self)
        ensures
            *final(self) == old(self).spec_reset(),
    {
        self.shift = false;
        self.ctrl = false;
        self.alt = false;
        self.win = false;
    }

    /// Follows the keyboard for one frame. Where the window lost the focus,
    /// all keys are let up first, so that none sticks; then the key events
    /// are applied in order.
    pub fn update(&mut self, focus_lost: bool, events: &Vec<ModifierKeyEvent>)
        ensures
            *final(self) == (if focus_lost {
                old(self).spec_reset()
            } else {
                *old(self)
            }).spec_apply_all(events@),
    {
        if focus_lost {
            self.reset();
        }
        let ghost start = *self;
        let mut i: usize = 0;
        while i < events.len()
            invariant
                i <= events@.len(),
                *self == start.spec_apply_all(events@.take(i as int)),
            decreases events@.len() - i,
        {
            proof {
                assert(events@.take(i + 1).drop_last() == events@.take(i as int));
            }
            let event = events[i];
            match event.key {
                ModifierKey::Shift => {
                    self.shift = event.pressed;
                },
                ModifierKey::Control => {
                    self.ctrl = event.pressed;
                },
                ModifierKey::Alt => {
                    self.alt = event.pressed;
                },
                ModifierKey::Super | ModifierKey::Meta => {
                    self.win = event.pressed;
                },
                ModifierKey::Other => {},
            }
            i += 1;
        }
        proof {
            assert(events@.take(i as int) == events@);
        }
    }
}

/// A mouse button of the engine.
#[derive(Clone, Copy, Debug, PartialEq, Eq, Hash, Structural)]
pub enum MouseButton {
    /// The left button.
    Left,
    /// The right button.
    Right,
    /// The middle button.
    Middle,
    /// The back button.
    Back,
    /// The forward button.
    Forward,
    /// Any other button, by its number.
    Other(u16),
}

/// A pointer button of the GUI.
#[derive(Clone, Copy, Debug, PartialEq, Eq, Hash, Structural)]
pub enum PointerButton {
    /// The primary button.
    Primary,
    /// The secondary button.
    Secondary,
    /// The middle button.
    Middle,
    /// The first extra button.
    Extra1,
    /// The second extra button.
    Extra2,
}

/// The GUI's button for a mouse button; buttons beyond the five known ones
/// have none.
pub fn pointer_button(button: MouseButton) -> (r: Option<PointerButton>)
    ensures
        r == match button {
            MouseButton::Left => Some(PointerButton::Primary),
            MouseButton::Right => Some(PointerButton::Secondary),
            MouseButton::Middle => Some(PointerButton::Middle),
            MouseButton::Back => Some(PointerButton::Extra1),
            MouseButton::Forward => Some(PointerButton::Extra2),
            MouseButton::Other(_) => None,
        },
{
    match button {
        MouseButton::Left => Some(PointerButton::Primary),
        MouseButton::Right => Some(PointerButton::Secondary),
        MouseButton::Middle => Some(PointerButton::Middle),
        MouseButton::Back => Some(PointerButton::Extra1),
        MouseButton::Forward => Some(PointerButton::Extra2),
        MouseButton::Other(_) => None,
    }
}

/// What the clipboard shortcuts read of a key.
#[derive(Clone, Copy, Debug, PartialEq, Eq, Hash, Structural)]
pub enum EditKey {
    /// The key C.
    C,
    /// The key X.
    X,
    /// The key V.
    V,
    /// Any other key.
    Other,
}

/// What a clipboard shortcut asks for.
#[derive(Clone, Copy, Debug, PartialEq, Eq, Hash, Structural)]
pub enum ClipboardCommand {
    /// Copy the selection.
    Copy,
    /// Cut the selection.
    Cut,
    /// Paste the clipboard's text.
    Paste,
}

/// The clipboard command of a key event: the shortcut key with C, X or V, and
/// only as the key goes down.
pub fn clipboard_command(modifiers: Modifiers, key: EditKey, pressed: bool) -> (r: Option<
    ClipboardCommand,
>)
    ensures
        r == (if modifiers.command && pressed {
            match key {
                EditKey::C => Some(ClipboardCommand::Copy),
                EditKey::X => Some(ClipboardCommand::Cut),
                EditKey::V => Some(ClipboardCommand::Paste),
                EditKey::Other => None,
            }
        } else {
            None
        }),
{
    if modifiers.command && pressed {
        match key {
            EditKey::C => Some(ClipboardCommand::Copy),
            EditKey::X => Some(ClipboardCommand::Cut),
            EditKey::V => Some(ClipboardCommand::Paste),
            EditKey::Other => None,
        }
    } else {
        None
    }
}

/// The character is a control code: one of U+0000 to U+001F or U+007F to
/// U+009F.
pub open spec fn spec_is_control(c: char) -> bool {
    (c as u32) <= 0x1f || 0x7f <= (c as u32) <= 0x9f
}

/// Some character of the text is a control code.
pub open spec fn spec_has_control(text: Seq<char>) -> bool {
    exists|i: int| 0 <= i < text.len() && spec_is_control(#[trigger] text[i])
}

/// Whether the character is a control code.
pub fn is_control(c: char) -> (r: bool)
    ensures
        r == spec_is_control(c),
{
    let code: u32 = c as u32;
    code <= 0x1f || (0x7f <= code && code <= 0x9f)
}

/// Whether some character of the text is a control code.
pub fn has_control(text: &str) -> (r: bool)
    ensures
        r == spec_has_control(text@),
{
    let len = text.unicode_len();
    let mut i: usize = 0;
    while i < len
        invariant
            i <= len,
            len == text@.len(),
            forall|k: int| 0 <= k < i ==> !spec_is_control(#[trigger] text@[k]),
        decreases len - i,
    {
        if is_control(text.get_char(i)) {
            return true;
        }
        i += 1;
    }
    false
}

/// What the keyboard handling reads of a logical key as text.
#[derive(Debug, PartialEq, Eq)]
pub enum TextKey {
    /// A key that types the given characters.
    Character(String),
    /// The space bar.
    Space,
    /// A key that types nothing.
    Other,
}

/// A key going down or up, as the keyboard handling reads it.
#[derive(Debug, PartialEq, Eq)]
pub struct KeyInput {
    /// What the key types.
    pub text: TextKey,
    /// The key as the clipboard shortcuts read it, or `None` for a key that
    /// the GUI does not know.
    pub gui_key: Option<EditKey>,
    /// Whether the key went down.
    pub pressed: bool,
}

/// A GUI event that a key event gives rise to. The caller adds the text, the
/// key and the modifiers.
#[derive(Clone, Copy, Debug, PartialEq, Eq, Hash, Structural)]
pub enum KeyOutput {
    /// The text that the key types.
    Text,
    /// The key itself, going down or up.
    Key,
    /// A clipboard shortcut.
    Clipboard(ClipboardCommand),
}

impl KeyInput {
    /// The key types text: it went down while typed characters are text, and
    /// it is the space bar or types characters none of which is a control
    /// code.
    pub open spec fn spec_types_text(&self, state: ModifierKeysState) -> bool {
        state.spec_text_input_is_allowed() && self.pressed && match self.text {
            TextKey::Character(text) => !spec_has_control(text@),
            TextKey::Space => true,
            TextKey::Other => false,
        }
    }

    /// The clipboard shortcut of the key event.
    pub open spec fn spec_clipboard(&self, state: ModifierKeysState) -> Option<ClipboardCommand> {
        match self.gui_key {
            Some(key) => if state.spec_to_egui_modifiers().command && self.pressed {
                match key {
                    EditKey::C => Some(ClipboardCommand::Copy),
                    EditKey::X => Some(ClipboardCommand::Cut),
                    EditKey::V => Some(ClipboardCommand::Paste),
                    EditKey::Other => None,
                }
            } else {
                None
            },
            None => None,
        }
    }

    /// The GUI events of the key event, in order: the text where the key
    /// types text, then, for a key that the GUI knows, the key itself and
    /// its clipboard shortcut where it is one.
    pub open spec fn spec_outputs(&self, state: ModifierKeysState) -> Seq<KeyOutput> {
        let text = if self.spec_types_text(state) {
            seq![KeyOutput::Text]
        } else {
            Seq::empty()
        };
        let key = if self.gui_key is Some {
            seq![KeyOutput::Key]
        } else {
            Seq::empty()
        };
        let clipboard = match self.spec_clipboard(state) {
            Some(command) => seq![KeyOutput::Clipboard(command)],
            None => Seq::empty(),
        };
        text + key + clipboard
    }
}

/// The GUI events that a key event gives rise to.
pub fn on_key(state: &ModifierKeysState, input: &KeyInput) -> (outputs: Vec<KeyOutput>)
    ensures
        outputs@ == input.spec_outputs(*state),
{
    let mut outputs: Vec<KeyOutput> = Vec::new();
    if state.text_input_is_allowed() && input.pressed {
        let types_text = match &input.text {
            TextKey::Character(text) => !has_control(text.as_str()),
            TextKey::Space => true,
            TextKey::Other => false,
        };
        if types_text {
            outputs.push(KeyOutput::Text);
        }
    }
    match input.gui_key {
        Some(key) => {
            outputs.push(KeyOutput::Key);
            match clipboard_command(state.to_egui_modifiers(), key, input.pressed) {
                Some(command) => {
                    outputs.push(KeyOutput::Clipboard(command));
                },
                None => {},
            }
        },
        None => {},
    }
    outputs
}

/// Phase of a touch.
#[derive(Clone, Copy, Debug, PartialEq, Eq, Hash, Structural)]
pub enum TouchPhase {
    /// A finger touched the screen.
    Started,
    /// The finger moved.
    Moved,
    /// The finger was lifted.
    Ended,
    /// The touch was taken away by the system.
    Canceled,
}

/// A GUI event that a touch gives rise to. The caller adds position,
/// modifiers and force.
#[derive(Clone, Copy, Debug, PartialEq, Eq, Hash, Structural)]
pub enum TouchOutput {
    /// The touch itself.
    Touch {
        /// Identity of the touch.
        id: u64,
        /// Its phase.
        phase: TouchPhase,
    },
    /// The pointer moved to the touch.
    PointerMoved,
    /// The primary button went down or up at the touch.
    PointerButton {
        /// Whether the button went down.
        pressed: bool,
    },
    /// The pointer left.
    PointerGone,
}

/// The touch that currently stands in for the mouse pointer of a context.
#[derive(Clone, Copy, Debug, PartialEq, Eq, Hash, Structural)]
pub struct EguiContextPointerTouchId {
    /// Identity of the touch, while there is one.
    pub pointer_touch_id: Option<u64>,
}

impl EguiContextPointerTouchId {
    /// The touch `id` moves the pointer: no touch does yet, or this one does.
    pub open spec fn spec_moves_pointer(self, id: u64) -> bool {
        self.pointer_touch_id is None || self.pointer_touch_id == Some(id)
    }

    /// The state after a touch event. A touch that moves the pointer takes
    /// the pointer when it starts and gives it up when it ends or is
    /// cancelled; other touches change nothing.
    pub open spec fn spec_after(self, id: u64, phase: TouchPhase) -> EguiContextPointerTouchId {
        if self.spec_moves_pointer(id) {
            match phase {
                TouchPhase::Started => EguiContextPointerTouchId { pointer_touch_id: Some(id) },
                TouchPhase::Moved => self,
                TouchPhase::Ended | TouchPhase::Canceled => EguiContextPointerTouchId {
                    pointer_touch_id: None,
                },
            }
        } else {
            self
        }
    }

    /// The GUI events of a touch event: always the touch itself, followed,
    /// for a touch that moves the pointer, by the mouse events that mimic it.
    pub open spec fn spec_outputs(self, id: u64, phase: TouchPhase) -> Seq<TouchOutput> {
        let touch = seq![TouchOutput::Touch { id, phase }];
        if self.spec_moves_pointer(id) {
            touch + match phase {
                TouchPhase::Started => seq![
                    TouchOutput::PointerMoved,
                    TouchOutput::PointerButton { pressed: true },
                ],
                TouchPhase::Moved => seq![TouchOutput::PointerMoved],
                TouchPhase::Ended => seq![
                    TouchOutput::PointerButton { pressed: false },
                    TouchOutput::PointerGone,
                ],
                TouchPhase::Canceled => seq![TouchOutput::PointerGone],
            }
        } else {
            touch
        }
    }

    /// No touch moves the pointer.
    pub fn new() -> (r: Self)
        ensures
            r.pointer_touch_id is None,
    {
        EguiContextPointerTouchId { pointer_touch_id: None }
    }

    /// Takes a touch event and returns the GUI events it gives rise to, in
    /// order.
    pub fn on_touch(&mut self, id: u64, phase: TouchPhase) -> (outputs: Vec<TouchOutput>)
        ensures
            *final(self) == old(self).spec_after(id, phase),
            outputs@ == old(self).spec_outputs(id, phase),
    {
        let mut outputs: Vec<TouchOutput> = Vec::new();
        outputs.push(TouchOutput::Touch { id, phase });
        let moves_pointer = match self.pointer_touch_id {
            None => true,
            Some(current) => current == id,
        };
        if moves_pointer {
            match phase {
                TouchPhase::Started => {
                    self.pointer_touch_id = Some(id);
                    outputs.push(TouchOutput::PointerMoved);
                    outputs.push(TouchOutput::PointerButton { pressed: true });
                },
                TouchPhase::Moved => {
                    outputs.push(TouchOutput::PointerMoved);
                },
                TouchPhase::Ended => {
                    self.pointer_touch_id = None;
                    outputs.push(TouchOutput::PointerButton { pressed: false });
                    outputs.push(TouchOutput::PointerGone);
                },
                TouchPhase::Canceled => {
                    self.pointer_touch_id = None;
                    outputs.push(TouchOutput::PointerGone);
                },
            }
        }
        outputs
    }
}

/// An input method event of the engine.
#[derive(Clone, Copy, Debug, PartialEq, Eq, Hash, Structural)]
pub enum ImeInput {
    /// The input method was switched on.
    Enabled,
    /// Text is being composed.
    Preedit,
    /// Composed text was committed.
    Commit,
    /// The input method was switched off.
    Disabled,
}

/// An input method event for the GUI. The caller adds the text.
#[derive(Clone, Copy, Debug, PartialEq, Eq, Hash, Structural)]
pub enum ImeOutput {
    /// The input method is on.
    Enabled,
    /// The text being composed.
    Preedit,
    /// The committed text.
    Commit,
    /// The input method is off.
    Disabled,
}

/// Whether the GUI of a context was told that the input method is on.
#[derive(Clone, Copy, Debug, PartialEq, Eq, Hash, Structural)]
pub struct EguiContextImeState {
    /// The GUI was told so.
    pub has_sent_ime_enabled: bool,
}

impl EguiContextImeState {
    /// The event that tells the GUI that the input method is on, unless it
    /// was told already.
    pub open spec fn spec_enable(self) -> Seq<ImeOutput> {
        if self.has_sent_ime_enabled {
            Seq::empty()
        } else {
            seq![ImeOutput::Enabled]
        }
    }

    /// The event that tells the GUI that the input method is off. It is sent
    /// while the GUI was not told that the input method is on.
    pub open spec fn spec_disable(self) -> Seq<ImeOutput> {
        if self.has_sent_ime_enabled {
            Seq::empty()
        } else {
            seq![ImeOutput::Disabled]
        }
    }

    /// The GUI events of an input method event.
    pub open spec fn spec_outputs(self, event: ImeInput) -> Seq<ImeOutput> {
        match event {
            ImeInput::Enabled => self.spec_enable(),
            ImeInput::Preedit => self.spec_enable() + seq![ImeOutput::Preedit],
            ImeInput::Commit => seq![ImeOutput::Commit] + self.spec_disable(),
            ImeInput::Disabled => self.spec_disable(),
        }
    }

    /// The state after an input method event: switching on and composing
    /// leave the GUI told; committing and switching off leave the state as it
    /// is.
    pub open spec fn spec_after(self, event: ImeInput) -> EguiContextImeState {
        match event {
            ImeInput::Enabled | ImeInput::Preedit => EguiContextImeState {
                has_sent_ime_enabled: true,
            },
            ImeInput::Commit | ImeInput::Disabled => self,
        }
    }

    /// The GUI was not told anything yet.
    pub fn new() -> (r: Self)
        ensures
            !r.has_sent_ime_enabled,
    {
        EguiContextImeState { has_sent_ime_enabled: false }
    }

    fn enable(&mut self, outputs: &mut Vec<ImeOutput>)
        ensures
            final(outputs)@ == old(outputs)@ + old(self).spec_enable(),
            final(self).has_sent_ime_enabled,
    {
        if !self.has_sent_ime_enabled {
            outputs.push(ImeOutput::Enabled);
            self.has_sent_ime_enabled = true;
        }
    }

    fn disable(&mut self, outputs: &mut Vec<ImeOutput>)
        ensures
            final(outputs)@ == old(outputs)@ + old(self).spec_disable(),
            *final(self) == *old(self),
    {
        if !self.has_sent_ime_enabled {
            outputs.push(ImeOutput::Disabled);
            self.has_sent_ime_enabled = false;
        }
    }

    /// Takes an input method event and returns the GUI events it gives rise
    /// to, in order.
    pub fn on_ime(&mut self, event: ImeInput) -> (outputs: Vec<ImeOutput>)
        ensures
            *final(self) == old(self).spec_after(event),
            outputs@ == old(self).spec_outputs(event),
    {
        let mut outputs: Vec<ImeOutput> = Vec::new();
        match event {
            ImeInput::Enabled => {
                self.enable(&mut outputs);
            },
            ImeInput::Preedit => {
                self.enable(&mut outputs);
                outputs.push(ImeOutput::Preedit);
            },
            ImeInput::Commit => {
                outputs.push(ImeOutput::Commit);
                self.disable(&mut outputs);
            },
            ImeInput::Disabled => {
                self.disable(&mut outputs);
            },
        }
        outputs
    }
}

} // verus!
