use three_d::clear_state::{ClearState, WriteMask, ONE};
use three_d::context::{clear, Command, Context, COLOR_BUFFER_BIT, DEPTH_BUFFER_BIT};

fn mask(red: bool, green: bool, blue: bool, alpha: bool, depth: bool) -> WriteMask {
    WriteMask { red, green, blue, alpha, depth }
}

fn commands_of(state: ClearState) -> Vec<Command> {
    let mut context = Context::new();
    clear(&mut context, &state);
    context.commands().clone()
}

#[test]
fn none_clears_nothing() {
    let state = ClearState::none();
    assert_eq!(state.red, None);
    assert_eq!(state.depth, None);
    assert_eq!(
        commands_of(state),
        vec![Command::SetWriteMask(mask(false, false, false, false, false))]
    );
}

#[test]
fn depth_clears_only_depth() {
    let commands = commands_of(ClearState::depth(ONE / 2));
    assert_eq!(
        commands,
        vec![
            Command::SetWriteMask(mask(false, false, false, false, true)),
            Command::ClearDepth(500_000),
            Command::Clear(DEPTH_BUFFER_BIT),
        ]
    );
}

#[test]
fn color_clears_only_color() {
    let commands = commands_of(ClearState::color(1, 2, 3, 4));
    assert_eq!(
        commands,
        vec![
            Command::SetWriteMask(mask(true, true, true, true, false)),
            Command::ClearColor(1, 2, 3, 4),
            Command::Clear(COLOR_BUFFER_BIT),
        ]
    );
}

#[test]
fn color_and_depth_clears_all_five() {
    let commands = commands_of(ClearState::color_and_depth(1, 2, 3, 4, 5));
    assert_eq!(
        commands,
        vec![
            Command::SetWriteMask(mask(true, true, true, true, true)),
            Command::ClearColor(1, 2, 3, 4),
            Command::ClearDepth(5),
            Command::Clear(COLOR_BUFFER_BIT | DEPTH_BUFFER_BIT),
        ]
    );
    assert_eq!(COLOR_BUFFER_BIT | DEPTH_BUFFER_BIT, 0x4100);
}

#[test]
fn partial_color_falls_back_to_black_opaque() {
    let state = ClearState { red: Some(7), green: None, blue: None, alpha: None, depth: None };
    assert_eq!(
        commands_of(state),
        vec![
            Command::SetWriteMask(mask(true, false, false, false, false)),
            Command::ClearColor(7, 0, 0, ONE),
            Command::Clear(COLOR_BUFFER_BIT),
        ]
    );
}

#[test]
fn default_is_color_and_depth_black_far() {
    assert_eq!(ClearState::default(), ClearState::color_and_depth(0, 0, 0, ONE, ONE));
    assert_eq!(ONE, 1_000_000);
}

#[test]
fn clear_keeps_binding() {
    let mut context = Context::new();
    clear(&mut context, &ClearState::default());
    assert_eq!(context.bound(), 0);
}
