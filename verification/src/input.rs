//! Input model: abstract actions produced from keyboard and mouse events,
//! and the handler state that folds events into per-frame action sets.
//!
//! Polling the terminal for events is left to the caller; this module holds
//! every decision: which key maps to which action, how pressed keys toggle
//! actions on and off, and which actions last for a single frame only.

use vstd::prelude::*;

verus! {

/// A discrete movement request, relative to the camera's orientation.
#[derive(Clone, Copy, PartialEq, Eq, Debug, Structural)]
pub enum MoveDirection {
    Right,
    Left,
    Up,
    Down,
    Forward,
    Backward,
}

/// A mouse-look delta in thousandths of normalized screen space. It is kept
/// as integers so that actions remain exactly comparable.
#[derive(Clone, Copy, PartialEq, Eq, Debug, Structural)]
pub struct RotationDelta {
    pub x: i16,
    pub y: i16,
}

/// An action aimed at the scene: move the camera, or turn it.
#[derive(Clone, Copy, PartialEq, Eq, Debug, Structural)]
pub enum SceneAction {
    Move(MoveDirection),
    RotateCamera { delta: RotationDelta },
}

/// Any action the player can request.
#[derive(Clone, Copy, PartialEq, Eq, Debug, Structural)]
pub enum InputAction {
    Quit,
    ChangeRenderType,
    ActionOnScene(SceneAction),
}

/// The keys the engine reacts to; every other key is `Other`.
#[derive(Clone, Copy, PartialEq, Eq, Debug, Structural)]
pub enum KeyCode {
    Esc,
    Tab,
    Char(char),
    Other,
}

/// Whether a key went down or came up; anything else is `Other`.
#[derive(Clone, Copy, PartialEq, Eq, Debug, Structural)]
pub enum KeyEventKind {
    Press,
    Release,
    Other,
}

/// A keyboard event, already stripped to what the handler reads.
#[derive(Clone, Copy, PartialEq, Eq, Debug, Structural)]
pub struct KeyEvent {
    pub code: KeyCode,
    pub kind: KeyEventKind,
}

/// Adds an action to a set kept as a sequence: appended only if absent.
pub open spec fn insert_new(s: Seq<InputAction>, action: InputAction) -> Seq<InputAction> {
    if s.contains(action) {
        s
    } else {
        s.push(action)
    }
}

/// The key binding: Esc quits, the six movement keys move, all else is unbound.
pub open spec fn spec_map_key_to_action(key_code: KeyCode) -> Option<InputAction> {
    match key_code {
        KeyCode::Esc => Some(InputAction::Quit),
        KeyCode::Char(key) => match key {
            'w' => Some(InputAction::ActionOnScene(SceneAction::Move(MoveDirection::Forward))),
            'a' => Some(InputAction::ActionOnScene(SceneAction::Move(MoveDirection::Left))),
            's' => Some(InputAction::ActionOnScene(SceneAction::Move(MoveDirection::Backward))),
            'd' => Some(InputAction::ActionOnScene(SceneAction::Move(MoveDirection::Right))),
            'q' => Some(InputAction::ActionOnScene(SceneAction::Move(MoveDirection::Down))),
            'e' => Some(InputAction::ActionOnScene(SceneAction::Move(MoveDirection::Up))),
            _ => None,
        },
        _ => None,
    }
}

/// The toggled set after a key event: a press of a bound key adds its action,
/// a release removes it, everything else leaves the set as it is.
pub open spec fn spec_toggled_after_key(
    toggled: Seq<InputAction>,
    key_event: KeyEvent,
) -> Seq<InputAction> {
    match spec_map_key_to_action(key_event.code) {
        Some(action) => match key_event.kind {
            KeyEventKind::Press => insert_new(toggled, action),
            KeyEventKind::Release => toggled.remove_value(action),
            KeyEventKind::Other => toggled,
        },
        None => toggled,
    }
}

/// The single-frame set after a key event: pressing Tab requests a render-type
/// change for this frame; no other key touches the set.
pub open spec fn spec_transient_after_key(
    transient: Seq<InputAction>,
    key_event: KeyEvent,
) -> Seq<InputAction> {
    if key_event.code is Tab && key_event.kind is Press {
        insert_new(transient, InputAction::ChangeRenderType)
    } else {
        transient
    }
}

/// The scene actions among a sequence of input actions, in order.
pub open spec fn scene_actions_of(actions: Seq<InputAction>) -> Seq<SceneAction>
    decreases actions.len(),
{
    if actions.len() == 0 {
        Seq::empty()
    } else {
        let rest = scene_actions_of(actions.drop_first());
        match actions[0] {
            InputAction::ActionOnScene(a) => seq![a] + rest,
            _ => rest,
        }
    }
}

/// Appending one action extends the extracted scene actions by that action's
/// scene part, if it has one.
proof fn lemma_scene_actions_push(actions: Seq<InputAction>, action: InputAction)
    ensures
        scene_actions_of(actions.push(action)) == scene_actions_of(actions) + (match action {
            InputAction::ActionOnScene(a) => seq![a],
            _ => Seq::<SceneAction>::empty(),
        }),
    decreases actions.len(),
{
    if actions.len() == 0 {
        assert(actions.push(action).drop_first() =~= Seq::<InputAction>::empty());
        assert(scene_actions_of(Seq::<InputAction>::empty()) =~= Seq::<SceneAction>::empty());
        match action {
            InputAction::ActionOnScene(a) => {
                assert(scene_actions_of(actions.push(action)) =~= scene_actions_of(actions)
                    + seq![a]);
            },
            _ => {
                assert(scene_actions_of(actions.push(action)) =~= scene_actions_of(actions));
            },
        }
    } else {
        assert(actions.push(action).drop_first() =~= actions.drop_first().push(action));
        lemma_scene_actions_push(actions.drop_first(), action);
        assert(scene_actions_of(actions.push(action)) =~= scene_actions_of(actions) + (match action {
            InputAction::ActionOnScene(a) => seq![a],
            _ => Seq::<SceneAction>::empty(),
        }));
    }
}

/// Whether a sequence-backed action set holds the given action.
fn vec_contains(v: &Vec<InputAction>, needle: InputAction) -> (r: bool)
    ensures
        r == v@.contains(needle),
{
    let mut i: usize = 0;
    while i < v.len()
        invariant
            i <= v.len(),
            forall|j: int| 0 <= j < i ==> v@[j] != needle,
        decreases v.len() - i,
    {
        if v[i] == needle {
            assert(v@[i as int] == needle);
            return true;
        }
        i = i + 1;
    }
    false
}

/// Adds an action to a sequence-backed set if it is not already there.
fn vec_insert_new(v: &mut Vec<InputAction>, action: InputAction)
    ensures
        final(v)@ == insert_new(old(v)@, action),
{
    if !vec_contains(v, action) {
        v.push(action);
    }
}

/// Removes the first occurrence of an action, if any, from a sequence-backed set.
fn vec_remove_first(v: &mut Vec<InputAction>, action: InputAction)
    ensures
        final(v)@ == old(v)@.remove_value(action),
{
    let mut i: usize = 0;
    while i < v.len()
        invariant
            i <= v.len(),
            v@ == old(v)@,
            forall|j: int| 0 <= j < i ==> v@[j] != action,
        decreases v.len() - i,
    {
        if v[i] == action {
            proof {
                old(v)@.index_of_first_ensures(action);
                assert(v@[i as int] == action);
            }
            v.remove(i);
            return;
        }
        i = i + 1;
    }
    proof {
        old(v)@.index_of_first_ensures(action);
    }
}

/// Per-frame input state: the actions currently toggled on by held keys, and
/// the actions that apply to a single frame only (mouse look, mode changes).
pub struct TerminalInputHandler {
    toggled_actions: Vec<InputAction>,
    single_time_actions: Vec<InputAction>,
}

impl TerminalInputHandler {
    /// The actions toggled on by currently held keys, in insertion order.
    pub closed spec fn toggled(&self) -> Seq<InputAction> {
        self.toggled_actions@
    }

    /// The single-frame actions recorded since they were last cleared.
    pub closed spec fn transient(&self) -> Seq<InputAction> {
        self.single_time_actions@
    }

    /// A handler with no actions recorded.
    pub fn new() -> (handler: Self)
        ensures
            handler.toggled() == Seq::<InputAction>::empty(),
            handler.transient() == Seq::<InputAction>::empty(),
    {
        TerminalInputHandler { toggled_actions: Vec::new(), single_time_actions: Vec::new() }
    }

    /// Whether the action is currently requested, toggled or single-frame.
    pub fn contains_input(&self, input_action: InputAction) -> (r: bool)
        ensures
            r == (self.toggled().contains(input_action) || self.transient().contains(
                input_action,
            )),
    {
        vec_contains(&self.toggled_actions, input_action) || vec_contains(
            &self.single_time_actions,
            input_action,
        )
    }

    /// All currently requested actions: the toggled ones, then the
    /// single-frame ones.
    pub fn input_actions(&self) -> (actions: Vec<InputAction>)
        ensures
            actions@ == self.toggled() + self.transient(),
    {
        let mut actions: Vec<InputAction> = Vec::new();
        let mut i: usize = 0;
        while i < self.toggled_actions.len()
            invariant
                i <= self.toggled_actions.len(),
                actions@ == self.toggled_actions@.subrange(0, i as int),
            decreases self.toggled_actions.len() - i,
        {
            actions.push(self.toggled_actions[i]);
            proof {
                assert(self.toggled_actions@.subrange(0, i + 1 as int) =~= self.toggled_actions@
                    .subrange(0, i as int).push(self.toggled_actions@[i as int]));
            }
            i = i + 1;
        }
        assert(actions@ =~= self.toggled_actions@);
        let mut k: usize = 0;
        while k < self.single_time_actions.len()
            invariant
                k <= self.single_time_actions.len(),
                actions@ == self.toggled_actions@ + self.single_time_actions@.subrange(
                    0,
                    k as int,
                ),
            decreases self.single_time_actions.len() - k,
        {
            actions.push(self.single_time_actions[k]);
            proof {
                assert(self.single_time_actions@.subrange(0, k + 1 as int)
                    =~= self.single_time_actions@.subrange(0, k as int).push(
                    self.single_time_actions@[k as int],
                ));
                assert(self.toggled_actions@ + self.single_time_actions@.subrange(0, k + 1 as int)
                    =~= (self.toggled_actions@ + self.single_time_actions@.subrange(0, k as int))
                    .push(self.single_time_actions@[k as int]));
            }
            k = k + 1;
        }
        assert(actions@ =~= self.toggled_actions@ + self.single_time_actions@);
        actions
    }

    /// The scene actions among all currently requested actions, in order.
    pub fn scene_actions(&self) -> (actions: Vec<SceneAction>)
        ensures
            actions@ == scene_actions_of(self.toggled() + self.transient()),
    {
        let all = self.input_actions();
        let mut actions: Vec<SceneAction> = Vec::new();
        let mut i: usize = 0;
        while i < all.len()
            invariant
                i <= all.len(),
                all@ == self.toggled() + self.transient(),
                actions@ == scene_actions_of(all@.subrange(0, i as int)),
            decreases all.len() - i,
        {
            proof {
                lemma_scene_actions_push(all@.subrange(0, i as int), all@[i as int]);
                assert(all@.subrange(0, i + 1 as int) =~= all@.subrange(0, i as int).push(
                    all@[i as int],
                ));
            }
            match all[i] {
                InputAction::ActionOnScene(a) => {
                    actions.push(a);
                    assert(actions@ =~= scene_actions_of(all@.subrange(0, i + 1 as int)));
                },
                _ => {
                    assert(actions@ =~= scene_actions_of(all@.subrange(0, i + 1 as int)));
                },
            }
            i = i + 1;
        }
        proof {
            assert(all@.subrange(0, all@.len() as int) =~= all@);
        }
        actions
    }

    /// Forgets the single-frame actions; called before polling a new frame's
    /// events.
    pub fn clear_transient_actions(&mut self)
        ensures
            final(self).toggled() == old(self).toggled(),
            final(self).transient() == Seq::<InputAction>::empty(),
    {
        self.single_time_actions.clear();
    }

    /// Applies one keyboard event: Tab requests a render-type change for this
    /// frame; a bound key toggles its action on at a press and off at a
    /// release.
    pub fn handle_key_event(&mut self, key_event: KeyEvent)
        ensures
            final(self).toggled() == spec_toggled_after_key(old(self).toggled(), key_event),
            final(self).transient() == spec_transient_after_key(old(self).transient(), key_event),
    {
        if key_event.code == KeyCode::Tab && key_event.kind == KeyEventKind::Press {
            vec_insert_new(&mut self.single_time_actions, InputAction::ChangeRenderType);
            return;
        }
        match key_event.kind {
            KeyEventKind::Press => {
                if let Some(action) = self.map_key_to_action(key_event.code) {
                    vec_insert_new(&mut self.toggled_actions, action);
                }
            },
            KeyEventKind::Release => {
                if let Some(action) = self.map_key_to_action(key_event.code) {
                    vec_remove_first(&mut self.toggled_actions, action);
                }
            },
            KeyEventKind::Other => {},
        }
    }

    /// Records a mouse-look rotation for this frame.
    pub fn handle_mouse_event(&mut self, delta: RotationDelta)
        ensures
            final(self).toggled() == old(self).toggled(),
            final(self).transient() == insert_new(
                old(self).transient(),
                InputAction::ActionOnScene((SceneAction::RotateCamera { delta })),
            ),
    {
        vec_insert_new(
            &mut self.single_time_actions,
            InputAction::ActionOnScene(SceneAction::RotateCamera { delta }),
        );
    }

    /// The action bound to a key, if any.
    pub fn map_key_to_action(&self, key_code: KeyCode) -> (action: Option<InputAction>)
        ensures
            action == spec_map_key_to_action(key_code),
    {
        if key_code == KeyCode::Esc {
            return Some(InputAction::Quit);
        }
        let char_key = if let KeyCode::Char(key) = key_code {
            key
        } else {
            return None;
        };
        let move_dir = match char_key {
            'w' => Some(MoveDirection::Forward),
            'a' => Some(MoveDirection::Left),
            's' => Some(MoveDirection::Backward),
            'd' => Some(MoveDirection::Right),
            'q' => Some(MoveDirection::Down),
            'e' => Some(MoveDirection::Up),
            _ => None,
        };
        match move_dir {
            Some(dir) => Some(InputAction::ActionOnScene(SceneAction::Move(dir))),
            None => None,
        }
    }
}

} // verus!
