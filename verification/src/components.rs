use vstd::prelude::*;

pub mod help_message;
pub mod request;

pub mod response;

verus! {

/// Focus lifecycle of a single component: every field of the form is
/// unfocused, focused (navigable) or editing (keys mutate its buffer).
#[derive(Clone, Copy, Debug, PartialEq, Eq, Structural)]
pub enum ComponentState {
    UnFocused,
    Focused,
    Editing,
}

/// A component counts as holding the focus both when it is merely
/// focused and when it is being edited.
pub open spec fn is_active(s: ComponentState) -> bool {
    s is Focused || s is Editing
}

impl ComponentState {
    pub fn is_focused(&self) -> (r: bool)
        ensures
            r == is_active(*self),
    {
        match *self {
            ComponentState::UnFocused => false,
            _ => true,
        }
    }
}

/// The six places of the form, laid out on a 2x3 grid of
/// (column, row) coordinates.
#[derive(Clone, Copy, Debug, PartialEq, Eq, Structural)]
pub enum ComponentPosition {
    RequestMethod,
    RequestUrl,
    RequestQuery,
    RequestBody,
    Response(response::ResponseComponents),
}

impl ComponentPosition {
    /// The grid coordinate of each field.
    pub open spec fn coords(self) -> (int, int) {
        match self {
            ComponentPosition::RequestMethod => (0, 0),
            ComponentPosition::RequestUrl => (1, 0),
            ComponentPosition::RequestQuery => (0, 1),
            ComponentPosition::RequestBody => (1, 1),
            ComponentPosition::Response(response::ResponseComponents::Body) => (0, 2),
            ComponentPosition::Response(response::ResponseComponents::Header) => (1, 2),
        }
    }

    /// The field at a grid coordinate, if any: the inverse of `coords`.
    pub open spec fn at_coords(x: int, y: int) -> Option<ComponentPosition> {
        if x == 0 && y == 0 {
            Some(ComponentPosition::RequestMethod)
        } else if x == 1 && y == 0 {
            Some(ComponentPosition::RequestUrl)
        } else if x == 0 && y == 1 {
            Some(ComponentPosition::RequestQuery)
        } else if x == 1 && y == 1 {
            Some(ComponentPosition::RequestBody)
        } else if x == 0 && y == 2 {
            Some(ComponentPosition::Response(response::ResponseComponents::Body))
        } else if x == 1 && y == 2 {
            Some(ComponentPosition::Response(response::ResponseComponents::Header))
        } else {
            None
        }
    }

    /// A directional move lands on the neighbouring coordinate, or stays
    /// put when that coordinate holds no field (clamped, not wrapping).
    pub open spec fn moved(self, dx: int, dy: int) -> ComponentPosition {
        let (x, y) = self.coords();
        match Self::at_coords(x + dx, y + dy) {
            Some(position) => position,
            None => self,
        }
    }

    pub fn position(&self) -> (r: (isize, isize))
        ensures
            (r.0 as int, r.1 as int) == self.coords(),
    {
        match *self {
            ComponentPosition::RequestMethod => (0, 0),
            ComponentPosition::RequestUrl => (1, 0),
            ComponentPosition::RequestQuery => (0, 1),
            ComponentPosition::RequestBody => (1, 1),
            ComponentPosition::Response(response_component) => match response_component {
                response::ResponseComponents::Body => (0, 2),
                response::ResponseComponents::Header => (1, 2),
            },
        }
    }

    pub fn from_position(coordinate: (isize, isize)) -> (r: Option<ComponentPosition>)
        ensures
            r == Self::at_coords(coordinate.0 as int, coordinate.1 as int),
    {
        match coordinate {
            (0, 0) => Some(ComponentPosition::RequestMethod),
            (1, 0) => Some(ComponentPosition::RequestUrl),
            (0, 1) => Some(ComponentPosition::RequestQuery),
            (1, 1) => Some(ComponentPosition::RequestBody),
            (0, 2) => Some(ComponentPosition::Response(response::ResponseComponents::Body)),
            (1, 2) => Some(ComponentPosition::Response(response::ResponseComponents::Header)),
            _ => None,
        }
    }

    pub fn up(&self) -> (r: ComponentPosition)
        ensures
            r == self.moved(0, -1),
    {
        let current_position = self.position();
        match ComponentPosition::from_position((current_position.0, current_position.1 - 1)) {
            Some(position) => position,
            None => *self,
        }
    }

    pub fn down(&self) -> (r: ComponentPosition)
        ensures
            r == self.moved(0, 1),
    {
        let current_position = self.position();
        match ComponentPosition::from_position((current_position.0, current_position.1 + 1)) {
            Some(position) => position,
            None => *self,
        }
    }

    pub fn right(&self) -> (r: ComponentPosition)
        ensures
            r == self.moved(1, 0),
    {
        let current_position = self.position();
        match ComponentPosition::from_position((current_position.0 + 1, current_position.1)) {
            Some(position) => position,
            None => *self,
        }
    }

    pub fn left(&self) -> (r: ComponentPosition)
        ensures
            r == self.moved(-1, 0),
    {
        let current_position = self.position();
        match ComponentPosition::from_position((current_position.0 - 1, current_position.1)) {
            Some(position) => position,
            None => *self,
        }
    }
}

} // verus!
