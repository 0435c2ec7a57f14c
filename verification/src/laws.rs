//! Properties of the interface that span several operations or every state.

use vstd::prelude::*;
use crate::model::{Action, Key};
use crate::text::utf8_len_grows_with_prefix;
use crate::state::{
    token_preview, backed, entered, entry_action, entry_page, erased, key_step, moved_down, moved_up,
    refresh_action, submitted, typed, AppState,
};

verus! {

/// A key press changes nothing but the menu cursor, the page, the typed input
/// and the status line: the menu and everything loaded stay as they were.
pub proof fn key_press_keeps_data(pre: AppState, key: Key, post: AppState, a: Action)
    requires
        key_step(pre, key, post, a),
    ensures
        post == (AppState {
            selected: post.selected,
            current_page: post.current_page,
            input_mode: post.input_mode,
            input_value: post.input_value,
            status_message: post.status_message,
            ..pre
        }),
{
}

/// A key press keeps the menu cursor on an entry of the menu.
pub proof fn key_press_keeps_cursor_in_menu(pre: AppState, key: Key, post: AppState, a: Action)
    requires
        pre.wf(),
        key_step(pre, key, post, a),
    ensures
        post.wf(),
{
}

/// A run of key presses: `states[i + 1]` and `actions[i]` follow from
/// pressing `keys[i]` in `states[i]`.
pub open spec fn key_run(states: Seq<AppState>, keys: Seq<Key>, actions: Seq<Action>) -> bool {
    &&& states.len() == keys.len() + 1
    &&& actions.len() == keys.len()
    &&& forall|i: int|
        0 <= i < keys.len() ==> #[trigger] key_step(states[i], keys[i], states[i + 1], actions[i])
}

proof fn cursor_in_menu_at(states: Seq<AppState>, keys: Seq<Key>, actions: Seq<Action>, i: int)
    requires
        key_run(states, keys, actions),
        states[0].wf(),
        0 <= i < states.len(),
    ensures
        states[i].wf(),
    decreases i,
{
    if i > 0 {
        cursor_in_menu_at(states, keys, actions, i - 1);
        let j = i - 1;
        assert(key_step(states[j], keys[j], states[j + 1], actions[j]));
        key_press_keeps_cursor_in_menu(states[j], keys[j], states[j + 1], actions[j]);
    }
}

/// Along any run of key presses from a state whose cursor is on the menu, the
/// cursor stays on the menu.
pub proof fn key_presses_keep_cursor_in_menu(
    states: Seq<AppState>,
    keys: Seq<Key>,
    actions: Seq<Action>,
)
    requires
        key_run(states, keys, actions),
        states[0].wf(),
    ensures
        forall|i: int| 0 <= i < states.len() ==> #[trigger] states[i].wf(),
{
    assert forall|i: int| 0 <= i < states.len() implies #[trigger] states[i].wf() by {
        cursor_in_menu_at(states, keys, actions, i);
    }
}

/// Moving down undoes moving up, unless the cursor was already on the first entry.
pub proof fn down_undoes_up(s0: AppState, s1: AppState, s2: AppState)
    requires
        s0.wf(),
        s0.selected > 0,
        moved_up(s0, s1),
        moved_down(s1, s2),
    ensures
        s2 == s0,
{
}

/// Moving up undoes moving down, unless the cursor was already on the last entry.
pub proof fn up_undoes_down(s0: AppState, s1: AppState, s2: AppState)
    requires
        s0.selected + 1 < s0.items.len(),
        moved_down(s0, s1),
        moved_up(s1, s2),
    ensures
        s2 == s0,
{
}

/// Erasing a character undoes typing it: the input reads as before and
/// nothing else has changed.
pub proof fn backspace_undoes_typing(s0: AppState, s1: AppState, s2: AppState, c: char)
    requires
        typed(s0, s1, c),
        erased(s1, s2),
    ensures
        s2.input_value@ == s0.input_value@,
        s2 == (AppState { input_value: s2.input_value, ..s0 }),
{
    assert(s0.input_value@.push(c).drop_last() =~= s0.input_value@);
}

/// Submitting the input and then going back ends exactly as going back would:
/// on the main menu, input cleared, with the status line saying so.
pub proof fn submit_then_back_is_back(pre: AppState, mid: AppState, post: AppState)
    requires
        submitted(pre, mid),
        backed(mid, post),
    ensures
        backed(pre, post),
{
}

/// Going back twice is the same as going back once.
pub proof fn back_is_idempotent(s0: AppState, s1: AppState, s2: AppState)
    requires
        backed(s0, s1),
        backed(s1, s2),
    ensures
        s2.input_value@ == s1.input_value@,
        s2.status_message@ == s1.status_message@,
        s2 == (AppState {
            input_value: s2.input_value,
            status_message: s2.status_message,
            ..s1
        }),
{
}

/// Refreshing a page asks for the same outside work as opening it from the
/// menu.
pub proof fn refresh_matches_menu_entry(sel: int)
    requires
        4 <= sel <= 12,
    ensures
        refresh_action(entry_page(sel)) == entry_action(sel),
{
}

/// Choosing a menu entry and then going back returns to the main menu with the
/// menu cursor where it was.
pub proof fn enter_then_back_returns(s0: AppState, s1: AppState, s2: AppState)
    requires
        entered(s0, s1),
        backed(s1, s2),
    ensures
        s2.selected == s0.selected,
        s2 == (AppState {
            current_page: s2.current_page,
            input_mode: s2.input_mode,
            input_value: s2.input_value,
            status_message: s2.status_message,
            ..s0
        }),
        s2.current_page == crate::model::MenuPage::Main,
{
}

/// What the status line shows of a token is determined by the token: at most
/// one leading part of it fills exactly the bytes shown.
pub proof fn token_preview_is_determined(token: Seq<char>, a: Seq<char>, b: Seq<char>)
    requires
        token_preview(token, a),
        token_preview(token, b),
    ensures
        a == b,
{
    if a.len() < b.len() {
        utf8_len_grows_with_prefix(token, a.len() as int, b.len() as int);
    } else if b.len() < a.len() {
        utf8_len_grows_with_prefix(token, b.len() as int, a.len() as int);
    }
}

} // verus!
