use vstd::prelude::*;

verus! {

/// What happened to a key or a mouse button.
#[derive(Clone, Copy, Debug, PartialEq, Eq, Structural)]
pub enum Action {
    Press,
    Release,
    Repeat,
}

/// A window event, reduced to what the platform state reads of it.
#[derive(Clone, Copy, Debug)]
pub enum InputEvent<T> {
    /// The cursor moved to `(x, y)`.
    CursorPos(T, T),
    /// A mouse button changed; `primary` tells whether it is the first button.
    MouseButton { primary: bool, action: Action },
    /// A key changed; `escape` tells whether it is the Escape key.
    Key { escape: bool, action: Action },
    /// The framebuffer was resized to `(width, height)`.
    FramebufferSize(i32, i32),
    /// Any other event.
    Other,
}

/// Whether the platform state reacts to `e` (the others are only reported).
pub open spec fn is_handled<T>(e: InputEvent<T>) -> bool {
    match e {
        InputEvent::CursorPos(_, _) => true,
        InputEvent::MouseButton { primary, action } => primary && (action == Action::Press
            || action == Action::Release),
        InputEvent::Key { escape, action } => escape && action == Action::Press,
        InputEvent::FramebufferSize(_, _) => true,
        InputEvent::Other => false,
    }
}

/// The state after `c` takes the event `e`: a cursor move records the position, a
/// press or release of the primary button records the button state, a framebuffer
/// resize records the new size (each dimension converted to `u32` by wrapping); any
/// other event changes nothing.
pub open spec fn after_event<T>(c: Context<T>, e: InputEvent<T>) -> Context<T> {
    match e {
        InputEvent::CursorPos(x, y) => Context { mouse_x: x, mouse_y: y, ..c },
        InputEvent::MouseButton { primary: true, action: Action::Press } => Context {
            mouse_is_clicked: true,
            ..c
        },
        InputEvent::MouseButton { primary: true, action: Action::Release } => Context {
            mouse_is_clicked: false,
            ..c
        },
        InputEvent::FramebufferSize(w, h) => Context {
            window_width: w as u32,
            window_height: h as u32,
            ..c
        },
        _ => c,
    }
}

/// What one event does, field by field: a cursor move sets the cursor position and
/// nothing else moves it; a press of the primary button sets the button held, a release
/// sets it up, and no other event changes it; a framebuffer resize `(w, h)` sets the
/// width to `w` and the height to `h` (each converted to `u32` by wrapping), and no
/// other event changes the size.
pub open spec fn takes_event<T>(before: Context<T>, e: InputEvent<T>, after: Context<T>) -> bool {
    &&& (e matches InputEvent::CursorPos(x, y) ==> after.mouse_x == x && after.mouse_y == y)
    &&& (!(e is CursorPos) ==> after.mouse_x == before.mouse_x && after.mouse_y == before.mouse_y)
    &&& ((e matches InputEvent::MouseButton { primary: true, action: Action::Press })
        ==> after.mouse_is_clicked)
    &&& ((e matches InputEvent::MouseButton { primary: true, action: Action::Release })
        ==> !after.mouse_is_clicked)
    &&& (!(e matches InputEvent::MouseButton { primary: true, action: Action::Press })
        && !(e matches InputEvent::MouseButton { primary: true, action: Action::Release })
        ==> after.mouse_is_clicked == before.mouse_is_clicked)
    &&& (e matches InputEvent::FramebufferSize(w, h) ==> after.window_width == w as u32
        && after.window_height == h as u32)
    &&& (!(e is FramebufferSize) ==> after.window_width == before.window_width
        && after.window_height == before.window_height)
}

/// The events the state reacts to are exactly the cursor moves, the framebuffer
/// resizes, the presses and releases of the primary button, and the press of Escape;
/// every other event (other buttons, repeats, other keys, Escape released) is left for
/// the caller to report.
pub proof fn lemma_handled_events<T>(e: InputEvent<T>)
    ensures
        is_handled(e) <==> {
            ||| e is CursorPos
            ||| e is FramebufferSize
            ||| (e matches InputEvent::MouseButton { primary: true, action: Action::Press })
            ||| (e matches InputEvent::MouseButton { primary: true, action: Action::Release })
            ||| (e matches InputEvent::Key { escape: true, action: Action::Press })
        },
{
}

/// One event changes the state exactly as `takes_event` describes.
pub proof fn lemma_event_effect<T>(c: Context<T>, e: InputEvent<T>)
    ensures
        takes_event(c, e, after_event(c, e)),
{
}

/// The state after `c` takes the events `es`, first to last.
pub open spec fn after_events<T>(c: Context<T>, es: Seq<InputEvent<T>>) -> Context<T>
    decreases es.len(),
{
    if es.len() == 0 {
        c
    } else {
        after_event(after_events(c, es.drop_last()), es.last())
    }
}

/// `e` presses or releases the primary mouse button.
pub open spec fn changes_click<T>(e: InputEvent<T>) -> bool {
    ||| (e matches InputEvent::MouseButton { primary: true, action: Action::Press })
    ||| (e matches InputEvent::MouseButton { primary: true, action: Action::Release })
}

/// After a run of events the cursor is where the last cursor move put it, or where it
/// was if none moved it.
pub open spec fn cursor_after_events<T>(before: Context<T>, es: Seq<InputEvent<T>>, after: Context<T>) -> bool {
    &&& ((forall|i: int| 0 <= i < es.len() ==> !(#[trigger] es[i] is CursorPos)) ==> after.mouse_x
        == before.mouse_x && after.mouse_y == before.mouse_y)
    &&& (forall|i: int|
        0 <= i < es.len() && #[trigger] es[i] is CursorPos && (forall|j: int|
            i < j < es.len() ==> !(#[trigger] es[j] is CursorPos)) ==> after.mouse_x
            == es[i]->CursorPos_0 && after.mouse_y == es[i]->CursorPos_1)
}

/// After a run of events the button is as the last press or release of the primary
/// button left it, or as it was if none.
pub open spec fn click_after_events<T>(before: Context<T>, es: Seq<InputEvent<T>>, after: Context<T>) -> bool {
    &&& ((forall|i: int| 0 <= i < es.len() ==> !changes_click(#[trigger] es[i]))
        ==> after.mouse_is_clicked == before.mouse_is_clicked)
    &&& (forall|i: int|
        0 <= i < es.len() && changes_click(#[trigger] es[i]) && (forall|j: int|
            i < j < es.len() ==> !changes_click(#[trigger] es[j])) ==> after.mouse_is_clicked == (
        es[i] matches InputEvent::MouseButton { primary: true, action: Action::Press }))
}

/// After a run of events the size is that of the last framebuffer resize (each
/// dimension converted to `u32` by wrapping), or as it was if none.
pub open spec fn size_after_events<T>(before: Context<T>, es: Seq<InputEvent<T>>, after: Context<T>) -> bool {
    &&& ((forall|i: int| 0 <= i < es.len() ==> !(#[trigger] es[i] is FramebufferSize))
        ==> after.window_width == before.window_width && after.window_height
        == before.window_height)
    &&& (forall|i: int|
        0 <= i < es.len() && #[trigger] es[i] is FramebufferSize && (forall|j: int|
            i < j < es.len() ==> !(#[trigger] es[j] is FramebufferSize)) ==> after.window_width
            == es[i]->FramebufferSize_0 as u32 && after.window_height == es[i]->FramebufferSize_1 as u32)
}

/// What a run of events does to the cursor, the button and the size.
pub open spec fn takes_events<T>(before: Context<T>, es: Seq<InputEvent<T>>, after: Context<T>) -> bool {
    &&& cursor_after_events(before, es, after)
    &&& click_after_events(before, es, after)
    &&& size_after_events(before, es, after)
}

/// Taking one more event after a run is taking that event in the state the run left.
pub proof fn lemma_after_events_push<T>(c: Context<T>, es: Seq<InputEvent<T>>, e: InputEvent<T>)
    ensures
        after_events(c, es.push(e)) == after_event(after_events(c, es), e),
{
    assert(es.push(e).drop_last() =~= es);
}

/// After a run of events the cursor is where the last cursor move put it.
pub proof fn lemma_events_cursor<T>(c: Context<T>, es: Seq<InputEvent<T>>)
    ensures
        cursor_after_events(c, es, after_events(c, es)),
    decreases es.len(),
{
    if es.len() > 0 {
        let n = es.len() - 1;
        let es0 = es.drop_last();
        let p = after_events(c, es0);
        let r = after_events(c, es);
        lemma_events_cursor(c, es0);
        lemma_event_effect(p, es[n]);
        assert(r == after_event(p, es[n]));
        if forall|i: int| 0 <= i < es.len() ==> !(#[trigger] es[i] is CursorPos) {
            assert forall|i: int| 0 <= i < es0.len() implies !(#[trigger] es0[i] is CursorPos) by {
                assert(!(es[i] is CursorPos));
            }
            assert(!(es[n] is CursorPos));
        }
        assert forall|i: int|
            0 <= i < es.len() && #[trigger] es[i] is CursorPos && (forall|j: int|
                i < j < es.len() ==> !(#[trigger] es[j] is CursorPos)) implies r.mouse_x
            == es[i]->CursorPos_0 && r.mouse_y == es[i]->CursorPos_1 by {
            if i < n {
                assert(!(es[n] is CursorPos));
                assert forall|j: int| i < j < es0.len() implies !(#[trigger] es0[j] is CursorPos) by {
                    assert(!(es[j] is CursorPos));
                }
                assert(es0[i] == es[i]);
                assert(es0[i] is CursorPos);
            }
        }
    }
}

/// After a run of events the button is as the last primary press or release left it.
pub proof fn lemma_events_click<T>(c: Context<T>, es: Seq<InputEvent<T>>)
    ensures
        click_after_events(c, es, after_events(c, es)),
    decreases es.len(),
{
    if es.len() > 0 {
        let n = es.len() - 1;
        let es0 = es.drop_last();
        let p = after_events(c, es0);
        let r = after_events(c, es);
        lemma_events_click(c, es0);
        lemma_event_effect(p, es[n]);
        assert(r == after_event(p, es[n]));
        if forall|i: int| 0 <= i < es.len() ==> !changes_click(#[trigger] es[i]) {
            assert forall|i: int| 0 <= i < es0.len() implies !changes_click(#[trigger] es0[i]) by {
                assert(!changes_click(es[i]));
            }
            assert(!changes_click(es[n]));
        }
        assert forall|i: int|
            0 <= i < es.len() && changes_click(#[trigger] es[i]) && (forall|j: int|
                i < j < es.len() ==> !changes_click(#[trigger] es[j])) implies r.mouse_is_clicked
            == (es[i] matches InputEvent::MouseButton { primary: true, action: Action::Press }) by {
            if i < n {
                assert(!changes_click(es[n]));
                assert forall|j: int| i < j < es0.len() implies !changes_click(#[trigger] es0[j]) by {
                    assert(!changes_click(es[j]));
                }
                assert(es0[i] == es[i]);
                assert(changes_click(es0[i]));
            }
        }
    }
}

/// After a run of events the size is that of the last framebuffer resize.
pub proof fn lemma_events_size<T>(c: Context<T>, es: Seq<InputEvent<T>>)
    ensures
        size_after_events(c, es, after_events(c, es)),
    decreases es.len(),
{
    if es.len() > 0 {
        let n = es.len() - 1;
        let es0 = es.drop_last();
        let p = after_events(c, es0);
        let r = after_events(c, es);
        lemma_events_size(c, es0);
        lemma_event_effect(p, es[n]);
        assert(r == after_event(p, es[n]));
        if forall|i: int| 0 <= i < es.len() ==> !(#[trigger] es[i] is FramebufferSize) {
            assert forall|i: int| 0 <= i < es0.len() implies !(#[trigger] es0[i] is FramebufferSize) by {
                assert(!(es[i] is FramebufferSize));
            }
            assert(!(es[n] is FramebufferSize));
        }
        assert forall|i: int|
            0 <= i < es.len() && #[trigger] es[i] is FramebufferSize && (forall|j: int|
                i < j < es.len() ==> !(#[trigger] es[j] is FramebufferSize)) implies r.window_width
            == es[i]->FramebufferSize_0 as u32 && r.window_height == es[i]->FramebufferSize_1 as u32 by {
            if i < n {
                assert(!(es[n] is FramebufferSize));
                assert forall|j: int| i < j < es0.len() implies !(#[trigger] es0[j] is FramebufferSize) by {
                    assert(!(es[j] is FramebufferSize));
                }
                assert(es0[i] == es[i]);
                assert(es0[i] is FramebufferSize);
            }
        }
    }
}

/// A run of events changes the state as `takes_events` describes.
pub proof fn lemma_events_effect<T>(c: Context<T>, es: Seq<InputEvent<T>>)
    ensures
        takes_events(c, es, after_events(c, es)),
{
    lemma_events_cursor(c, es);
    lemma_events_click(c, es);
    lemma_events_size(c, es);
}

/// The input state of the window: its size, where the cursor is, and whether the
/// primary mouse button is held.
pub struct Context<T> {
    pub window_width: u32,
    pub window_height: u32,
    pub mouse_x: T,
    pub mouse_y: T,
    pub mouse_is_clicked: bool,
}

impl<T: Copy> Context<T> {
    /// The state of a new window of the given size, with the cursor at `(mouse_x,
    /// mouse_y)` and the button up.
    pub fn new(window_width: u32, window_height: u32, mouse_x: T, mouse_y: T) -> (c: Context<T>)
        ensures
            c == (Context { window_width, window_height, mouse_x, mouse_y, mouse_is_clicked: false }),
    {
        Context { window_width, window_height, mouse_x, mouse_y, mouse_is_clicked: false }
    }

    /// The window's `(width, height)`.
    pub fn get_size(&mut self) -> (size: (u32, u32))
        ensures
            *final(self) == *old(self),
            size == (old(self).window_width, old(self).window_height),
    {
        (self.window_width, self.window_height)
    }

    /// Records the cursor position.
    pub fn set_mouse_pos(&mut self, x_pos: T, y_pos: T)
        ensures
            *final(self) == (Context { mouse_x: x_pos, mouse_y: y_pos, ..*old(self) }),
    {
        self.mouse_x = x_pos;
        self.mouse_y = y_pos;
    }

    /// Records whether the primary button is held.
    pub fn set_mouse_click(&mut self, click_state: bool)
        ensures
            *final(self) == (Context { mouse_is_clicked: click_state, ..*old(self) }),
    {
        self.mouse_is_clicked = click_state;
    }

    /// Applies a window event: a cursor move records the position, a press or release of
    /// the primary button records the button state, a framebuffer resize records the new
    /// size (each dimension converted to `u32` by wrapping), and a press of Escape does
    /// nothing. Returns whether the event is one of these; any other event leaves the
    /// state as it was, for the caller to report.
    pub fn event_match(&mut self, event: &InputEvent<T>) -> (handled: bool)
        ensures
            handled == is_handled(*event),
            *final(self) == after_event(*old(self), *event),
            takes_event(*old(self), *event, *final(self)),
    {
        proof {
            lemma_event_effect(*old(self), *event);
        }
        match *event {
            InputEvent::CursorPos(cur_x_pos, cur_y_pos) => {
                self.set_mouse_pos(cur_x_pos, cur_y_pos);
                true
            },
            InputEvent::MouseButton { primary: true, action: Action::Press } => {
                self.set_mouse_click(true);
                true
            },
            InputEvent::Key { escape: true, action: Action::Press } => true,
            InputEvent::MouseButton { primary: true, action: Action::Release } => {
                self.set_mouse_click(false);
                true
            },
            InputEvent::FramebufferSize(cur_width, cur_height) => {
                self.window_width = cur_width as u32;
                self.window_height = cur_height as u32;
                true
            },
            _ => false,
        }
    }

    /// Applies the events in order, as `event_match` does one at a time, and returns
    /// for each event whether it was handled.
    pub fn apply_events(&mut self, events: &[InputEvent<T>]) -> (handled: Vec<bool>)
        ensures
            *final(self) == after_events(*old(self), events@),
            takes_events(*old(self), events@, *final(self)),
            handled@.len() == events@.len(),
            forall|i: int| 0 <= i < events@.len() ==> handled@[i] == is_handled(#[trigger] events@[i]),
    {
        let mut handled: Vec<bool> = Vec::new();
        let n = events.len();
        for i in 0..n
            invariant
                n == events@.len(),
                *self == after_events(*old(self), events@.take(i as int)),
                handled@.len() == i,
                forall|j: int| 0 <= j < i ==> handled@[j] == is_handled(#[trigger] events@[j]),
        {
            proof {
                assert(events@.take(i + 1).drop_last() =~= events@.take(i as int));
            }
            let h = self.event_match(&events[i]);
            handled.push(h);
        }
        proof {
            assert(events@.take(n as int) =~= events@);
            lemma_events_effect(*old(self), events@);
        }
        handled
    }
}

} // verus!
