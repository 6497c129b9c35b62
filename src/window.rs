use vstd::prelude::*;

verus! {

/// The events of an interactive window session that the session reacts to.
#[derive(Clone, Copy, Debug, PartialEq, Eq, Structural)]
pub enum WindowEvent {
    /// The event loop started and the first frame can be drawn.
    FrameReady,
    /// The user asked to close the window.
    CloseRequested,
    /// Any other event, including redraw requests and wake-ups.
    Other,
}

/// What the event loop does in answer to an event.
#[derive(Clone, Copy, Debug, PartialEq, Eq, Structural)]
pub enum WindowAction {
    /// Run the render pipeline into the cached framebuffer, then show it.
    RenderAndPresent,
    /// Show the cached framebuffer again without rendering.
    Present,
    /// Leave the event loop.
    Exit,
}

/// The action for `event` in a session that has (`rendered`) or has not yet
/// rendered its framebuffer.
pub open spec fn action_for(rendered: bool, event: WindowEvent) -> WindowAction {
    match event {
        WindowEvent::CloseRequested => WindowAction::Exit,
        WindowEvent::FrameReady => if rendered {
            WindowAction::Present
        } else {
            WindowAction::RenderAndPresent
        },
        WindowEvent::Other => WindowAction::Present,
    }
}

/// How many times the pipeline runs while a session that starts with
/// `rendered` handles `events` in order, up to the first close request.
pub open spec fn render_count(rendered: bool, events: Seq<WindowEvent>) -> nat
    decreases events.len(),
{
    if events.len() == 0 {
        0
    } else {
        let action = action_for(rendered, events[0]);
        match action {
            WindowAction::Exit => 0,
            WindowAction::RenderAndPresent => 1 + render_count(true, events.drop_first()),
            WindowAction::Present => render_count(rendered, events.drop_first()),
        }
    }
}

/// The state of an interactive session: whether the framebuffer holds the
/// rendered mesh, and whether the session has ended.
pub struct WindowSession {
    rendered: bool,
    closed: bool,
}

impl WindowSession {
    pub closed spec fn is_rendered(&self) -> bool {
        self.rendered
    }

    pub closed spec fn is_closed(&self) -> bool {
        self.closed
    }

    /// A session that has rendered nothing yet.
    pub fn new() -> (r: WindowSession)
        ensures
            !r.is_rendered(),
            !r.is_closed(),
    {
        WindowSession { rendered: false, closed: false }
    }

    /// Whether the event loop should stop.
    pub fn closed(&self) -> (r: bool)
        ensures
            r == self.is_closed(),
    {
        self.closed
    }

    /// Decides what to do with one event: the mesh is rendered once, on the
    /// first frame-ready event, and every later frame shows the cached result.
    pub fn handle(&mut self, event: WindowEvent) -> (r: WindowAction)
        requires
            !old(self).is_closed(),
        ensures
            r == action_for(old(self).is_rendered(), event),
            final(self).is_closed() == (r == WindowAction::Exit),
            final(self).is_rendered() == (old(self).is_rendered() || r == WindowAction::RenderAndPresent),
    {
        match event {
            WindowEvent::CloseRequested => {
                self.closed = true;
                WindowAction::Exit
            },
            WindowEvent::FrameReady => {
                if self.rendered {
                    WindowAction::Present
                } else {
                    self.rendered = true;
                    WindowAction::RenderAndPresent
                }
            },
            WindowEvent::Other => WindowAction::Present,
        }
    }
}

/// A session never runs the render pipeline more than once, whatever events
/// arrive; once it has rendered it never renders again.
pub proof fn lemma_renders_at_most_once(rendered: bool, events: Seq<WindowEvent>)
    ensures
        render_count(rendered, events) <= 1,
        rendered ==> render_count(rendered, events) == 0,
    decreases events.len(),
{
    if events.len() > 0 {
        lemma_renders_at_most_once(true, events.drop_first());
        lemma_renders_at_most_once(rendered, events.drop_first());
    }
}

} // verus!
