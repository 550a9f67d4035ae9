use vstd::prelude::*;

use crate::browser::UIBrowser;

verus! {

/// Data of a focusable element that says whether the element takes focus when its window
/// first connects.
pub trait FocusData {
    spec fn autofocus_spec(&self) -> bool;

    fn has_autofocus(&self) -> (r: bool)
        ensures
            r == self.autofocus_spec(),
    ;
}

/// A row, with the incognito flag it is drawn with: the first row of the filtered view
/// takes focus first.
impl FocusData for (bool, UIBrowser) {
    open spec fn autofocus_spec(&self) -> bool {
        self.1.filtered_index == 0
    }

    fn has_autofocus(&self) -> (r: bool) {
        self.1.filtered_index == 0
    }
}

/// An event that reaches a focusable element.
#[derive(Clone, Copy, Debug, PartialEq, Eq, Structural)]
pub enum FocusWidgetEvent {
    /// The element asked itself for focus because the pointer entered it.
    SetFocusOnHover,
    /// The window was connected to the display.
    WindowConnected,
    /// Tab was pressed, with or without Shift.
    Tab { shift: bool },
    ArrowDown,
    ArrowUp,
    Other,
}

/// How focus moves in answer to an event.
#[derive(Clone, Copy, Debug, PartialEq, Eq, Structural)]
pub enum FocusMove {
    Stay,
    /// The element asks for focus.
    Request,
    /// Focus goes to the next element in traversal order.
    Next,
    /// Focus goes to the previous element in traversal order.
    Previous,
}

/// What a focusable element does with an event before its child sees it.
#[derive(Clone, Copy, Debug, PartialEq, Eq, Structural)]
pub struct FocusEventResponse {
    pub focus: FocusMove,
    pub request_paint: bool,
    pub set_handled: bool,
    pub request_update: bool,
}

/// The element's answer to `event`: hovering asks for focus, the connected window gives it
/// to the element flagged for autofocus, Tab and the arrows step through the focus chain.
pub fn focus_event_response(event: FocusWidgetEvent, has_autofocus: bool) -> (r: FocusEventResponse)
    ensures
        r.focus == match event {
            FocusWidgetEvent::SetFocusOnHover => FocusMove::Request,
            FocusWidgetEvent::WindowConnected => if has_autofocus { FocusMove::Request } else { FocusMove::Stay },
            FocusWidgetEvent::Tab { shift } => if shift { FocusMove::Previous } else { FocusMove::Next },
            FocusWidgetEvent::ArrowDown => FocusMove::Next,
            FocusWidgetEvent::ArrowUp => FocusMove::Previous,
            FocusWidgetEvent::Other => FocusMove::Stay,
        },
        r.request_paint == !(event is WindowConnected || event is Other),
        r.set_handled == !(event is WindowConnected || event is Other),
        r.request_update == (event is SetFocusOnHover),
{
    let quiet = FocusEventResponse { focus: FocusMove::Stay, request_paint: false, set_handled: false, request_update: false };
    match event {
        FocusWidgetEvent::SetFocusOnHover => FocusEventResponse {
            focus: FocusMove::Request,
            request_paint: true,
            set_handled: true,
            request_update: true,
        },
        FocusWidgetEvent::WindowConnected => {
            if has_autofocus {
                FocusEventResponse { focus: FocusMove::Request, ..quiet }
            } else {
                quiet
            }
        },
        FocusWidgetEvent::Tab { shift } => FocusEventResponse {
            focus: if shift { FocusMove::Previous } else { FocusMove::Next },
            request_paint: true,
            set_handled: true,
            request_update: false,
        },
        FocusWidgetEvent::ArrowDown => FocusEventResponse {
            focus: FocusMove::Next,
            request_paint: true,
            set_handled: true,
            request_update: false,
        },
        FocusWidgetEvent::ArrowUp => FocusEventResponse {
            focus: FocusMove::Previous,
            request_paint: true,
            set_handled: true,
            request_update: false,
        },
        FocusWidgetEvent::Other => quiet,
    }
}

/// A change in a focusable element's life.
#[derive(Clone, Copy, Debug, PartialEq, Eq, Structural)]
pub enum FocusLifecycle {
    /// The window collects its focus chain.
    BuildFocusChain,
    /// The element gained (`true`) or lost (`false`) focus.
    FocusChanged(bool),
    /// The pointer entered (`true`) or left (`false`) the element.
    HotChanged(bool),
    Other,
}

/// What a focusable element does when its life changes.
#[derive(Clone, Copy, Debug, PartialEq, Eq, Structural)]
pub struct FocusLifecycleResponse {
    /// Join the focus chain, so that keyboard navigation reaches the element.
    pub register_for_focus: bool,
    /// Scroll the element into view.
    pub scroll_to_view: bool,
    /// Announce the element's row index (none for other elements) as the focused one.
    pub announce_focus: bool,
    pub request_paint: bool,
    /// Ask the element itself for focus, as hovering does.
    pub request_focus_on_hover: bool,
}

/// The element's answer to a change, given whether the pointer is over it (`is_hot`) and
/// whether it holds focus (`has_focus`).
pub fn focus_lifecycle_response(event: FocusLifecycle, is_hot: bool, has_focus: bool) -> (r: FocusLifecycleResponse)
    ensures
        r.register_for_focus == (event is BuildFocusChain),
        r.scroll_to_view == (event == FocusLifecycle::FocusChanged(true) && !is_hot),
        r.announce_focus == (event == FocusLifecycle::FocusChanged(true)),
        r.request_paint == (event is FocusChanged),
        r.request_focus_on_hover == (event == FocusLifecycle::HotChanged(true) && !has_focus),
{
    let quiet = FocusLifecycleResponse {
        register_for_focus: false,
        scroll_to_view: false,
        announce_focus: false,
        request_paint: false,
        request_focus_on_hover: false,
    };
    match event {
        FocusLifecycle::BuildFocusChain => FocusLifecycleResponse { register_for_focus: true, ..quiet },
        FocusLifecycle::FocusChanged(to_focused) => FocusLifecycleResponse {
            scroll_to_view: to_focused && !is_hot,
            announce_focus: to_focused,
            request_paint: true,
            ..quiet
        },
        FocusLifecycle::HotChanged(to_hot) => FocusLifecycleResponse {
            request_focus_on_hover: to_hot && !has_focus,
            ..quiet
        },
        FocusLifecycle::Other => quiet,
    }
}

} // verus!
