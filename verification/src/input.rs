//! Focusless input routing: a capture/pass-through state machine for
//! system-wide key events, driven by click events that toggle an `active`
//! flag without the surface ever holding OS keyboard focus.

use vstd::prelude::*;

verus! {

/// Virtual key code of the up-arrow key.
pub const KEY_UP_ARROW: u16 = 0x7E;
/// Virtual key code of the down-arrow key.
pub const KEY_DOWN_ARROW: u16 = 0x7D;
/// Virtual key code of the left-arrow key.
pub const KEY_LEFT_ARROW: u16 = 0x7B;
/// Virtual key code of the right-arrow key.
pub const KEY_RIGHT_ARROW: u16 = 0x7C;
/// Virtual key code of the escape key.
pub const KEY_ESCAPE: u16 = 0x35;
/// Virtual key code of the tab key.
pub const KEY_TAB: u16 = 0x30;
/// Virtual key code of the return key.
pub const KEY_RETURN: u16 = 0x24;
/// Virtual key code of the delete (backspace) key.
pub const KEY_DELETE: u16 = 0x33;

/// Modifier-flag bit for the command key.
pub const MODIFIER_COMMAND: u64 = 1048576;
/// Modifier-flag bit for the option key.
pub const MODIFIER_OPTION: u64 = 524288;
/// Modifier-flag bit for the control key.
pub const MODIFIER_CONTROL: u64 = 262144;

/// A key is a navigation key when it is one of the arrow keys, escape or tab.
pub open spec fn is_navigation_key(key_code: u16) -> bool {
    ||| key_code == KEY_UP_ARROW
    ||| key_code == KEY_DOWN_ARROW
    ||| key_code == KEY_LEFT_ARROW
    ||| key_code == KEY_RIGHT_ARROW
    ||| key_code == KEY_ESCAPE
    ||| key_code == KEY_TAB
}

/// A chord is reserved when it carries the command, option or control
/// modifier: such chords belong to system or application shortcuts.
pub open spec fn has_reserved_modifier(modifier_flags: u64) -> bool {
    ||| modifier_flags & MODIFIER_COMMAND != 0
    ||| modifier_flags & MODIFIER_OPTION != 0
    ||| modifier_flags & MODIFIER_CONTROL != 0
}

/// A key event must pass through untouched when it is a navigation key or a
/// reserved chord, whatever else the router would do with it.
pub open spec fn pass_through(key_code: u16, modifier_flags: u64) -> bool {
    is_navigation_key(key_code) || has_reserved_modifier(modifier_flags)
}

/// Decides whether an intercepted key event is forwarded unmodified to the
/// rest of the system rather than handled by the overlay's router.
pub fn should_pass_through_key(key_code: u16, modifier_flags: u64) -> (r: bool)
    ensures
        r == pass_through(key_code, modifier_flags),
{
    if key_code == KEY_UP_ARROW || key_code == KEY_DOWN_ARROW || key_code == KEY_LEFT_ARROW
        || key_code == KEY_RIGHT_ARROW || key_code == KEY_ESCAPE || key_code == KEY_TAB {
        return true;
    }
    if (modifier_flags & MODIFIER_COMMAND) != 0 || (modifier_flags & MODIFIER_OPTION) != 0
        || (modifier_flags & MODIFIER_CONTROL) != 0 {
        return true;
    }
    false
}

/// One intercepted key-down event: the numeric key code, the modifier-flags
/// bitmask, and the text the key stands for (empty for keys that carry none).
pub struct KeyEvent {
    pub code: u16,
    pub modifiers: u64,
    pub text: Vec<char>,
}

/// What the router does with an intercepted event: deliver it exactly as if
/// the router did not exist, or make sure it reaches no other process.
#[derive(Clone, Copy, Debug, PartialEq, Eq, Structural)]
pub enum KeyDisposition {
    Forward,
    Swallow,
}

/// The visible effect of routing one key event.
pub struct KeyOutcome {
    /// Whether the event is forwarded or swallowed.
    pub disposition: KeyDisposition,
    /// The prior buffer contents, when this event submitted them.
    pub submission: Option<Vec<char>>,
}

/// Mathematical state of the router: the `active` flag and the text buffer.
pub struct RouterModel {
    pub active: bool,
    pub buffer: Seq<char>,
}

/// Mathematical effect of one routed key event.
pub struct RouterStep {
    pub state: RouterModel,
    pub forwarded: bool,
    pub submission: Option<Seq<char>>,
}

/// The routing rule for one key event against a router state.
///
/// While inactive every event is forwarded untouched. While active,
/// navigation keys and reserved chords are forwarded untouched; delete
/// removes the last buffered character (a no-op on an empty buffer); return
/// submits the buffer's contents and clears it; any other key appends its
/// text. Every handled event is swallowed.
pub open spec fn route(state: RouterModel, code: u16, modifiers: u64, text: Seq<char>) -> RouterStep {
    if !state.active {
        RouterStep { state, forwarded: true, submission: None }
    } else if pass_through(code, modifiers) {
        RouterStep { state, forwarded: true, submission: None }
    } else if code == KEY_DELETE {
        RouterStep {
            state: RouterModel {
                active: state.active,
                buffer: if state.buffer.len() == 0 { state.buffer } else { state.buffer.drop_last() },
            },
            forwarded: false,
            submission: None,
        }
    } else if code == KEY_RETURN {
        RouterStep {
            state: RouterModel { active: state.active, buffer: Seq::empty() },
            forwarded: false,
            submission: Some(state.buffer),
        }
    } else {
        RouterStep {
            state: RouterModel { active: state.active, buffer: state.buffer + text },
            forwarded: false,
            submission: None,
        }
    }
}

/// The capture/pass-through state machine. Both interception paths — the
/// system-wide hook and the process-local one — must drive the same router,
/// so filtering is identical whichever application holds focus.
pub struct InputRouter {
    active: bool,
    buffer: Vec<char>,
}

impl View for InputRouter {
    type V = RouterModel;

    closed spec fn view(&self) -> RouterModel {
        RouterModel { active: self.active, buffer: self.buffer@ }
    }
}

impl InputRouter {
    /// A fresh router: inactive, with an empty buffer.
    pub fn new() -> (r: InputRouter)
        ensures
            !r@.active,
            r@.buffer == Seq::<char>::empty(),
    {
        InputRouter { active: false, buffer: Vec::new() }
    }

    /// Whether the router currently owns keystrokes. It never owns OS focus.
    pub fn is_active(&self) -> (r: bool)
        ensures
            r == self@.active,
    {
        self.active
    }

    /// The buffered text.
    pub fn buffer(&self) -> (r: &Vec<char>)
        ensures
            r@ == self@.buffer,
    {
        &self.buffer
    }

    /// A pointer-down event: the router becomes active exactly when the
    /// click lands inside the designated input region. The buffer is kept.
    pub fn on_click(&mut self, inside_input_region: bool)
        ensures
            final(self)@.active == inside_input_region,
            final(self)@.buffer == old(self)@.buffer,
    {
        self.active = inside_input_region;
    }

    /// Routes one intercepted key event, following `route` exactly: the new
    /// state, the forward/swallow decision and any submission are the ones
    /// the routing rule gives for the old state and this event.
    pub fn on_key(&mut self, event: &KeyEvent) -> (out: KeyOutcome)
        ensures
            final(self)@ == route(old(self)@, event.code, event.modifiers, event.text@).state,
            (out.disposition is Forward) == route(old(self)@, event.code, event.modifiers, event.text@).forwarded,
            (match out.submission {
                Some(s) => route(old(self)@, event.code, event.modifiers, event.text@).submission == Some(s@),
                None => route(old(self)@, event.code, event.modifiers, event.text@).submission is None,
            }),
    {
        if !self.active {
            return KeyOutcome { disposition: KeyDisposition::Forward, submission: None };
        }
        if should_pass_through_key(event.code, event.modifiers) {
            return KeyOutcome { disposition: KeyDisposition::Forward, submission: None };
        }
        if event.code == KEY_DELETE {
            if self.buffer.len() > 0 {
                self.buffer.pop();
            }
            return KeyOutcome { disposition: KeyDisposition::Swallow, submission: None };
        }
        if event.code == KEY_RETURN {
            let mut submitted: Vec<char> = Vec::new();
            std::mem::swap(&mut submitted, &mut self.buffer);
            return KeyOutcome { disposition: KeyDisposition::Swallow, submission: Some(submitted) };
        }
        let ghost base: Seq<char> = self.buffer@;
        let ghost was_active: bool = self.active;
        proof {
            assert(base + event.text@.take(0) =~= base);
        }
        let mut i: usize = 0;
        while i < event.text.len()
            invariant
                i <= event.text.len(),
                self.buffer@ == base + event.text@.take(i as int),
                self.active == was_active,
            decreases event.text.len() - i,
        {
            self.buffer.push(event.text[i]);
            proof {
                assert(base + event.text@.take(i as int) + seq![event.text@[i as int]]
                    =~= base + event.text@.take(i + 1));
            }
            i = i + 1;
        }
        proof {
            assert(base + event.text@.take(event.text@.len() as int) =~= base + event.text@);
        }
        KeyOutcome { disposition: KeyDisposition::Swallow, submission: None }
    }
}

/// The text a submitted buffer is announced with.
pub open spec fn submit_prefix() -> Seq<char> {
    seq!['s', 'u', 'b', 'm', 'i', 't', 't', 'e', 'd', ':', ' ']
}

/// Renders the notification line for one submission: the submit prefix
/// followed by the buffer's prior contents.
pub fn submission_message(content: &Vec<char>) -> (m: Vec<char>)
    ensures
        m@ == submit_prefix() + content@,
{
    let mut m: Vec<char> = vec!['s', 'u', 'b', 'm', 'i', 't', 't', 'e', 'd', ':', ' '];
    proof {
        assert(m@ =~= submit_prefix());
        assert(m@ + content@.take(0) =~= submit_prefix());
    }
    let mut i: usize = 0;
    while i < content.len()
        invariant
            i <= content.len(),
            m@ == submit_prefix() + content@.take(i as int),
        decreases content.len() - i,
    {
        m.push(content[i]);
        proof {
            assert(submit_prefix() + content@.take(i as int) + seq![content@[i as int]]
                =~= submit_prefix() + content@.take(i + 1));
        }
        i = i + 1;
    }
    proof {
        assert(submit_prefix() + content@.take(content@.len() as int) =~= submit_prefix() + content@);
    }
    m
}

/// While the router is inactive, no key event mutates the buffer or the
/// state at all, and every event is forwarded with nothing submitted.
pub proof fn lemma_inactive_keys_leave_buffer(state: RouterModel, code: u16, modifiers: u64, text: Seq<char>)
    requires
        !state.active,
    ensures
        route(state, code, modifiers, text).state == state,
        route(state, code, modifiers, text).forwarded,
        route(state, code, modifiers, text).submission is None,
{
}

/// While active, a delete key with no reserved modifier removes exactly the
/// last buffered character and is swallowed; an empty buffer stays empty,
/// it never underflows.
pub proof fn lemma_delete_removes_last(state: RouterModel, modifiers: u64, text: Seq<char>)
    requires
        state.active,
        !has_reserved_modifier(modifiers),
    ensures
        route(state, KEY_DELETE, modifiers, text).state.buffer
            == (if state.buffer.len() == 0 { state.buffer } else { state.buffer.drop_last() }),
        route(state, KEY_DELETE, modifiers, text).state.buffer.len()
            == (if state.buffer.len() == 0 { 0int } else { state.buffer.len() - 1 }),
        !route(state, KEY_DELETE, modifiers, text).forwarded,
        route(state, KEY_DELETE, modifiers, text).submission is None,
        route(state, KEY_DELETE, modifiers, text).state.active == state.active,
{
}

/// While active, a return key with no reserved modifier submits the buffer's
/// prior contents exactly once, clears the buffer, and is swallowed.
pub proof fn lemma_submit_fires_once(state: RouterModel, modifiers: u64, text: Seq<char>)
    requires
        state.active,
        !has_reserved_modifier(modifiers),
    ensures
        route(state, KEY_RETURN, modifiers, text).submission == Some(state.buffer),
        route(state, KEY_RETURN, modifiers, text).state.buffer.len() == 0,
        !route(state, KEY_RETURN, modifiers, text).forwarded,
        route(state, KEY_RETURN, modifiers, text).state.active == state.active,
{
}

/// While active, any chord carrying a reserved modifier is forwarded
/// unmodified and leaves the router — buffer included — untouched.
pub proof fn lemma_reserved_chord_passes_through(state: RouterModel, code: u16, modifiers: u64, text: Seq<char>)
    requires
        state.active,
        has_reserved_modifier(modifiers),
    ensures
        route(state, code, modifiers, text).forwarded,
        route(state, code, modifiers, text).state == state,
        route(state, code, modifiers, text).submission is None,
{
}

} // verus!
