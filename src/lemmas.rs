//! Laws of the orchestrator, proved over its transition table.

use vstd::prelude::*;
use crate::launcher::{
    clear_step, empty_search, request_effects, step, toggle_step, window_height, EffectModel,
    LauncherState, Message,
};
use crate::protocol::{LauncherEvent, LauncherResponse, ResultItem};

verus! {

/// The state after `n` toggles from `s`.
pub open spec fn toggle_run(s: LauncherState, n: nat) -> LauncherState
    decreases n,
{
    if n == 0 {
        s
    } else {
        toggle_step(toggle_run(s, (n - 1) as nat)).0
    }
}

/// One toggle either destroys the live surface and leaves none, or, with
/// none live, creates exactly one, under an id greater than every id
/// handed out before.
pub proof fn lemma_toggle_one_surface(s: LauncherState)
    requires
        s.wf(),
    ensures
        toggle_step(s).0.wf(),
        s.surface matches Some(id) ==> toggle_step(s).0.surface is None
            && toggle_step(s).1 == seq![EffectModel::DestroySurface(id)],
        (s.surface is None && s.id_ctr < u64::MAX) ==> ({
            let (t, e) = toggle_step(s);
            &&& t.surface == Some((s.id_ctr + 1) as u64)
            &&& e.len() >= 1
            &&& e.last() == (EffectModel::CreateSurface { id: (s.id_ctr + 1) as u64, height: s.height })
            &&& forall|i: int| 0 <= i < e.len() - 1 ==> !(e[i] is CreateSurface) && !(e[i] is DestroySurface)
        }),
{
    if s.surface is None && s.id_ctr < u64::MAX {
        let e = toggle_step(s).1;
        let r = request_effects(s.session, empty_search());
        assert(e == r + seq![
            EffectModel::FocusInput,
            EffectModel::CreateSurface { id: (s.id_ctr + 1) as u64, height: s.height },
        ]);
        assert forall|i: int| 0 <= i < e.len() - 1 implies !(e[i] is CreateSurface) && !(e[i] is DestroySurface) by {
            if i < r.len() {
                assert(e[i] == r[i]);
            }
        }
    }
}

proof fn lemma_toggle_run_wf(s: LauncherState, n: nat)
    requires
        s.wf(),
    ensures
        toggle_run(s, n).wf(),
        toggle_run(s, n).id_ctr >= s.id_ctr,
    decreases n,
{
    if n > 0 {
        lemma_toggle_run_wf(s, (n - 1) as nat);
        lemma_toggle_one_surface(toggle_run(s, (n - 1) as nat));
    }
}

proof fn lemma_toggle_run_after(s: LauncherState, j: nat, k: nat, a: u64)
    requires
        s.wf(),
        j < k,
        toggle_run(s, j).surface == Some(a),
    ensures
        toggle_run(s, k).id_ctr >= a,
        toggle_run(s, k).surface matches Some(b) ==> b > a,
    decreases k,
{
    lemma_toggle_run_wf(s, j);
    lemma_toggle_run_wf(s, (k - 1) as nat);
    if k == j + 1 {
        lemma_toggle_one_surface(toggle_run(s, j));
    } else {
        lemma_toggle_run_after(s, j, (k - 1) as nat, a);
        lemma_toggle_one_surface(toggle_run(s, (k - 1) as nat));
    }
}

/// Along any run of toggles at most one surface is live at a time (the
/// state keeps the invariant, which names a single live surface), and a
/// surface shown later carries a strictly greater id than one shown
/// earlier.
pub proof fn lemma_toggle_ids_increase(s: LauncherState, j: nat, k: nat)
    requires
        s.wf(),
        j < k,
    ensures
        toggle_run(s, j).wf(),
        toggle_run(s, k).wf(),
        (toggle_run(s, j).surface is Some && toggle_run(s, k).surface is Some)
            ==> toggle_run(s, j).surface->Some_0 < toggle_run(s, k).surface->Some_0,
{
    lemma_toggle_run_wf(s, j);
    lemma_toggle_run_wf(s, k);
    if let Some(a) = toggle_run(s, j).surface {
        lemma_toggle_run_after(s, j, k, a);
    }
}

/// After a result list arrives, the result set is that list, the height is
/// `base + unit * len` (saturated only where that exceeds `u64`), the
/// selection is none or a valid row, and only a visible surface is
/// resized; no surface is created.
pub proof fn lemma_update_replaces(s: LauncherState, list: Vec<ResultItem>)
    requires
        s.wf(),
    ensures
        ({
            let (t, e) = step(s, Message::LauncherEvent(LauncherEvent::Response(LauncherResponse::Update(list))));
            &&& t.wf()
            &&& t.items == list@
            &&& t.items.len() == list@.len()
            &&& t.height == window_height(s.base_height, s.item_height, list@.len())
            &&& (s.base_height + s.item_height * list@.len() <= u64::MAX ==> t.height == s.base_height + s.item_height * list@.len())
            &&& (t.selection matches Some(i) ==> i < t.items.len())
            &&& t.surface == s.surface
            &&& e == match s.surface {
                Some(id) => seq![EffectModel::Resize { id, height: t.height }],
                None => seq![],
            }
        }),
{
}

/// Clearing twice leaves the state that clearing once leaves, and the
/// second clear issues the very effects of the first: on a visible
/// launcher with a live session, each clear sends its own empty search.
pub proof fn lemma_clear_twice(s: LauncherState)
    requires
        s.wf(),
    ensures
        ({
            let (t1, e1) = step(s, Message::Clear);
            let (t2, e2) = step(t1, Message::Clear);
            &&& t2 == t1
            &&& e2 == e1
            &&& t1.wf()
            &&& (s.surface is Some ==> t1.query.len() == 0 && t1.items.len() == 0 && t1.selection is None)
            &&& ((s.surface is Some && s.session is Live) ==> e1 == seq![
                EffectModel::Resize { id: s.surface->Some_0, height: window_height(s.base_height, s.item_height, 0) },
                EffectModel::Send(empty_search()),
            ])
        }),
{
    let (t1, e1) = clear_step(s);
    if s.surface is Some {
        assert(clear_step(t1).0 =~~= t1);
    }
}

/// Hiding destroys the surface and keeps the results; the windowing
/// system's later close of that surface is ignored; the next toggle shows
/// a surface with a greater id and an empty query, keeps the results
/// (only the answer to its search replaces them) and issues one empty
/// search.
pub proof fn lemma_hide_then_toggle(s: LauncherState)
    requires
        s.wf(),
        s.surface is Some,
        s.id_ctr < u64::MAX,
    ensures
        ({
            let old_id = s.surface->Some_0;
            let (h, e1) = step(s, Message::Hide);
            let (c, e2) = step(h, Message::Closed(old_id));
            let (t, e3) = step(c, Message::Toggle);
            let new_id = (s.id_ctr + 1) as u64;
            &&& e1 == seq![EffectModel::DestroySurface(old_id)]
            &&& h.surface is None
            &&& h.items == s.items
            &&& c == h
            &&& e2 == Seq::<EffectModel>::empty()
            &&& t.surface == Some(new_id)
            &&& new_id > old_id
            &&& t.query.len() == 0
            &&& t.items == s.items
            &&& e3 == request_effects(s.session, empty_search()) + seq![
                EffectModel::FocusInput,
                EffectModel::CreateSurface { id: new_id, height: s.height },
            ]
        }),
{
}

} // verus!
