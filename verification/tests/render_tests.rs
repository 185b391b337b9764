use ray_tracer::input::InputAction;
use ray_tracer::render::{next_render_type, TerminalRenderType};

#[test]
fn toggling_flips_between_the_two_modes() {
    assert_eq!(TerminalRenderType::Colored.toggled(), TerminalRenderType::BlackAndWhite);
    assert_eq!(TerminalRenderType::BlackAndWhite.toggled(), TerminalRenderType::Colored);
}

#[test]
fn a_change_action_toggles_the_render_type() {
    let actions = vec![InputAction::ChangeRenderType];
    assert_eq!(
        next_render_type(TerminalRenderType::Colored, &actions),
        TerminalRenderType::BlackAndWhite
    );
    assert_eq!(
        next_render_type(TerminalRenderType::BlackAndWhite, &actions),
        TerminalRenderType::Colored
    );
}

#[test]
fn without_a_change_action_the_render_type_stays() {
    let actions = vec![InputAction::Quit];
    assert_eq!(
        next_render_type(TerminalRenderType::Colored, &actions),
        TerminalRenderType::Colored
    );
    let empty: Vec<InputAction> = Vec::new();
    assert_eq!(
        next_render_type(TerminalRenderType::BlackAndWhite, &empty),
        TerminalRenderType::BlackAndWhite
    );
}

#[test]
fn repeated_change_actions_still_toggle_once() {
    let actions = vec![InputAction::ChangeRenderType, InputAction::ChangeRenderType];
    assert_eq!(
        next_render_type(TerminalRenderType::Colored, &actions),
        TerminalRenderType::BlackAndWhite
    );
}
