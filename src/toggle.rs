use vstd::prelude::*;

use crate::geometry::{anchor_in_range, AnchorPoint, GeometryCache};
use crate::placement::{compute_window_origin, origin_for, Placement, WindowSize};

verus! {

/// Whether the managed window is on screen.
#[derive(Clone, Copy, Debug, PartialEq, Eq, Structural)]
pub enum Visibility {
    Hidden,
    Visible,
}

/// What the platform reports of the managed window when an event arrives.
#[derive(Clone, Copy, Debug, PartialEq, Eq, Structural)]
pub struct WindowStatus {
    pub visible: bool,
    /// `None` when the platform could not report the outer size.
    pub outer_size: Option<WindowSize>,
}

/// One command for the platform or the frontend, carried out in the order
/// given. Failures of the platform calls are ignored by whoever runs them.
#[derive(Clone, Copy, Debug, PartialEq, Eq, Structural)]
pub enum Action {
    /// Tell the frontend the window is about to hide, so that it can start
    /// its exit animation.
    EmitWillHide,
    /// Hide the window.
    Hide,
    /// Move the window.
    Place(Placement),
    /// Show the window.
    Show,
    /// Give the window keyboard focus.
    Focus,
    /// Tell the frontend the window is now on screen.
    EmitDidShow,
    /// End the process with this status code.
    Exit(i32),
}

pub open spec fn visibility_of(visible: bool) -> Visibility {
    if visible {
        Visibility::Visible
    } else {
        Visibility::Hidden
    }
}

pub open spec fn flipped(v: Visibility) -> Visibility {
    match v {
        Visibility::Hidden => Visibility::Visible,
        Visibility::Visible => Visibility::Hidden,
    }
}

/// The commands that toggle the window: announce the hide of a visible
/// window, then hide it; place, show and focus a hidden one, then announce
/// it. Nothing when there is no window.
pub open spec fn toggle_actions(window: Option<WindowStatus>, anchor: Option<AnchorPoint>) -> Seq<
    Action,
> {
    match window {
        None => Seq::empty(),
        Some(w) => if w.visible {
            seq![Action::EmitWillHide, Action::Hide]
        } else {
            seq![
                Action::Place(origin_for(anchor, w.outer_size)),
                Action::Show,
                Action::Focus,
                Action::EmitDidShow,
            ]
        },
    }
}

/// The visibility a window in state `v` ends in once `actions` have run.
pub open spec fn visibility_after(v: Visibility, actions: Seq<Action>) -> Visibility
    decreases actions.len(),
{
    if actions.len() == 0 {
        v
    } else {
        let prev = visibility_after(v, actions.drop_last());
        match actions.last() {
            Action::Show => Visibility::Visible,
            Action::Hide => Visibility::Hidden,
            _ => prev,
        }
    }
}

/// The visibility after `n` toggles of a window that starts hidden.
pub open spec fn after_toggles(n: nat) -> Visibility
    decreases n,
{
    if n == 0 {
        Visibility::Hidden
    } else {
        flipped(after_toggles((n - 1) as nat))
    }
}

/// The commands that bring the window `window` to the opposite visibility,
/// placing it from the anchor in `cache` before it is shown.
pub fn toggle_window_visibility(window: Option<WindowStatus>, cache: &GeometryCache) -> (r: Vec<
    Action,
>)
    ensures
        r@ == toggle_actions(window, cache@),
{
    let mut actions: Vec<Action> = Vec::new();
    match window {
        None => {},
        Some(w) => {
            if w.visible {
                actions.push(Action::EmitWillHide);
                actions.push(Action::Hide);
            } else {
                let anchor = cache.read();
                let placement = compute_window_origin(anchor, w.outer_size);
                actions.push(Action::Place(placement));
                actions.push(Action::Show);
                actions.push(Action::Focus);
                actions.push(Action::EmitDidShow);
            }
        },
    }
    proof {
        assert(actions@ =~= toggle_actions(window, cache@));
    }
    actions
}

/// A toggle takes an existing window to the opposite visibility; the window
/// is placed strictly before it is shown and announced only after it was
/// shown and focused, while the hide is announced strictly before the hide
/// command.
pub proof fn lemma_toggle_flips(w: WindowStatus, anchor: Option<AnchorPoint>)
    ensures
        visibility_after(visibility_of(w.visible), toggle_actions(Some(w), anchor)) == flipped(
            visibility_of(w.visible),
        ),
        !w.visible ==> toggle_actions(Some(w), anchor)[0] is Place && toggle_actions(
            Some(w),
            anchor,
        )[1] is Show && toggle_actions(Some(w), anchor)[3] is EmitDidShow,
        w.visible ==> toggle_actions(Some(w), anchor).len() == 2 && toggle_actions(
            Some(w),
            anchor,
        )[0] is EmitWillHide && toggle_actions(Some(w), anchor)[1] is Hide,
{
    let acts = toggle_actions(Some(w), anchor);
    let v = visibility_of(w.visible);
    if w.visible {
        let s1 = seq![Action::EmitWillHide];
        assert(s1.drop_last() =~= Seq::<Action>::empty());
        assert(acts.drop_last() =~= s1);
        assert(visibility_after(v, Seq::<Action>::empty()) == v);
        assert(visibility_after(v, s1) == v);
    } else {
        let place = Action::Place(origin_for(anchor, w.outer_size));
        let s1 = seq![place];
        let s2 = seq![place, Action::Show];
        let s3 = seq![place, Action::Show, Action::Focus];
        assert(s1.drop_last() =~= Seq::<Action>::empty());
        assert(s2.drop_last() =~= s1);
        assert(s3.drop_last() =~= s2);
        assert(acts.drop_last() =~= s3);
        assert(visibility_after(v, Seq::<Action>::empty()) == v);
        assert(s1.last() == place);
        assert(visibility_after(v, s1) == v);
        assert(visibility_after(v, s2) == Visibility::Visible);
        assert(visibility_after(v, s3) == Visibility::Visible);
    }
}

/// Starting hidden, the window alternates hidden, visible, hidden, ... with
/// each toggle: it is hidden after an even number of toggles and visible
/// after an odd one.
pub proof fn lemma_toggles_alternate(n: nat)
    ensures
        after_toggles(n) == (if n % 2 == 0 {
            Visibility::Hidden
        } else {
            Visibility::Visible
        }),
        after_toggles(n + 1) != after_toggles(n),
    decreases n,
{
    if n > 0 {
        lemma_toggles_alternate((n - 1) as nat);
    }
}

/// The window that `n` toggles left in state `after_toggles(n)` is taken by
/// the commands of one more toggle to `after_toggles(n + 1)`: the toggle's
/// commands are what makes the visibility alternate.
pub proof fn lemma_toggle_steps_alternation(n: nat, w: WindowStatus, anchor: Option<AnchorPoint>)
    requires
        visibility_of(w.visible) == after_toggles(n),
    ensures
        visibility_after(after_toggles(n), toggle_actions(Some(w), anchor)) == after_toggles(n + 1),
{
    lemma_toggle_flips(w, anchor);
}

} // verus!
