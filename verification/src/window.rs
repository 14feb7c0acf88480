//! What the host does with the events of its window.
use vstd::prelude::*;

verus! {

/// The window events the host tells apart.
#[derive(Clone, Copy, PartialEq, Eq, Structural)]
pub enum WindowEventKind {
    CloseRequested,
    RedrawRequested,
    Other,
}

/// What the host does about a window event.
#[derive(Clone, Copy, PartialEq, Eq, Structural)]
pub enum WindowResponse {
    /// Leave the event loop.
    Exit,
    /// Nothing; in particular a redraw asks for no further redraw.
    Ignore,
}

/// The host leaves its event loop when the window is asked to close, and
/// does nothing about any other event.
pub fn window_response(event: WindowEventKind) -> (response: WindowResponse)
    ensures
        response == (if event == WindowEventKind::CloseRequested {
            WindowResponse::Exit
        } else {
            WindowResponse::Ignore
        }),
{
    match event {
        WindowEventKind::CloseRequested => WindowResponse::Exit,
        WindowEventKind::RedrawRequested => WindowResponse::Ignore,
        WindowEventKind::Other => WindowResponse::Ignore,
    }
}

} // verus!
