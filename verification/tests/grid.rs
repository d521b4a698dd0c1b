use reqtui::components::response::ResponseComponents;
use reqtui::components::{ComponentPosition, ComponentState};

#[test]
fn state_is_focused() {
    assert!(!ComponentState::UnFocused.is_focused());
    assert!(ComponentState::Focused.is_focused());
    assert!(ComponentState::Editing.is_focused());
}

#[test]
fn positions_cover_the_grid() {
    assert_eq!(ComponentPosition::RequestMethod.position(), (0, 0));
    assert_eq!(ComponentPosition::RequestUrl.position(), (1, 0));
    assert_eq!(ComponentPosition::RequestQuery.position(), (0, 1));
    assert_eq!(ComponentPosition::RequestBody.position(), (1, 1));
    assert_eq!(
        ComponentPosition::Response(ResponseComponents::Body).position(),
        (0, 2)
    );
    assert_eq!(
        ComponentPosition::Response(ResponseComponents::Header).position(),
        (1, 2)
    );
}

#[test]
fn from_position_inverts_position() {
    for position in [
        ComponentPosition::RequestMethod,
        ComponentPosition::RequestUrl,
        ComponentPosition::RequestQuery,
        ComponentPosition::RequestBody,
        ComponentPosition::Response(ResponseComponents::Body),
        ComponentPosition::Response(ResponseComponents::Header),
    ] {
        assert_eq!(ComponentPosition::from_position(position.position()), Some(position));
    }
    assert_eq!(ComponentPosition::from_position((2, 0)), None);
    assert_eq!(ComponentPosition::from_position((0, 3)), None);
    assert_eq!(ComponentPosition::from_position((-1, 0)), None);
}

#[test]
fn moves_clamp_at_the_edges() {
    // Moving off the grid from the method corner is a no-op: the
    // neighbouring coordinate holds no field.
    assert_eq!(ComponentPosition::RequestMethod.up(), ComponentPosition::RequestMethod);
    assert_eq!(ComponentPosition::RequestMethod.left(), ComponentPosition::RequestMethod);
    assert_eq!(ComponentPosition::RequestMethod.down(), ComponentPosition::RequestQuery);
    assert_eq!(ComponentPosition::RequestMethod.right(), ComponentPosition::RequestUrl);
    assert_eq!(ComponentPosition::RequestUrl.down(), ComponentPosition::RequestBody);
    assert_eq!(
        ComponentPosition::RequestBody.down(),
        ComponentPosition::Response(ResponseComponents::Header)
    );
    assert_eq!(
        ComponentPosition::Response(ResponseComponents::Header).down(),
        ComponentPosition::Response(ResponseComponents::Header)
    );
    assert_eq!(
        ComponentPosition::Response(ResponseComponents::Body).left(),
        ComponentPosition::Response(ResponseComponents::Body)
    );
}
