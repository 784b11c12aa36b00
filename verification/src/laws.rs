//! Laws of the session core that span several operations: how activation
//! follows from any history of seat assignments, why no activation's turn
//! loop can ever be started twice, and why no two created sessions share a
//! code.

use vstd::prelude::*;

use crate::game::{ctl_set_seat, ctl_start, empty_setup, spec_set_seat, Color, GameState, LoopCtl};

verus! {

/// The session state after a sequence of seat assignments, each applied by
/// [`spec_set_seat`] — exactly what [`crate::game::Game::set_player`] does
/// to the seats.
pub open spec fn apply_seat_cmds<P>(
    init: GameState<P>,
    cmds: Seq<(Color, Option<P>)>,
) -> GameState<P>
    decreases cmds.len(),
{
    if cmds.len() == 0 {
        init
    } else {
        spec_set_seat(apply_seat_cmds(init, cmds.drop_last()), cmds.last().0, cmds.last().1)
    }
}

/// Whether the most recent assignment to seat `c` in `cmds` gave it an
/// occupant (and nothing cleared it afterwards).
pub open spec fn last_set_some<P>(cmds: Seq<(Color, Option<P>)>, c: Color) -> bool
    decreases cmds.len(),
{
    if cmds.len() == 0 {
        false
    } else if cmds.last().0 == c {
        cmds.last().1 is Some
    } else {
        last_set_some(cmds.drop_last(), c)
    }
}

proof fn lemma_seat_tracks_last_set<P>(cmds: Seq<(Color, Option<P>)>, c: Color)
    ensures
        apply_seat_cmds(empty_setup::<P>(), cmds).seat(c) is Some <==> last_set_some(cmds, c),
    decreases cmds.len(),
{
    if cmds.len() > 0 {
        lemma_seat_tracks_last_set(cmds.drop_last(), c);
        let prev = apply_seat_cmds(empty_setup::<P>(), cmds.drop_last());
        let cc = cmds.last().0;
        let p = cmds.last().1;
        crate::game::lemma_set_seat(prev, cc, p);
        if cc != c {
            assert(cc.spec_other() == c);
        }
    }
}

/// For all sequences of seat assignments starting from the empty session:
/// the session is `Active` if and only if both seats' most recent
/// assignments gave them occupants, with no intervening clearing.
pub proof fn lemma_active_iff_both_seats_recently_set<P>(cmds: Seq<(Color, Option<P>)>)
    ensures
        apply_seat_cmds(empty_setup::<P>(), cmds).is_active() <==> (last_set_some(
            cmds,
            Color::White,
        ) && last_set_some(cmds, Color::Black)),
{
    lemma_seat_tracks_last_set(cmds, Color::White);
    lemma_seat_tracks_last_set(cmds, Color::Black);
    if cmds.len() > 0 {
        let prev = apply_seat_cmds(empty_setup::<P>(), cmds.drop_last());
        let cc = cmds.last().0;
        crate::game::lemma_set_seat(prev, cc, cmds.last().1);
        assert(cc.spec_other().spec_other() == cc);
    }
}

/// One session operation that matters to turn-loop control: a seat
/// assignment, or an attempt to start the turn loop.
pub enum LoopOp<P> {
    Seat(Color, Option<P>),
    Start,
}

/// The loop-control state after running a sequence of operations.
pub open spec fn ctl_run<P>(c: LoopCtl<P>, ops: Seq<LoopOp<P>>) -> LoopCtl<P>
    decreases ops.len(),
{
    if ops.len() == 0 {
        c
    } else {
        let prev = ctl_run(c, ops.drop_last());
        match ops.last() {
            LoopOp::Seat(col, p) => ctl_set_seat(prev, col, p),
            LoopOp::Start => ctl_start(prev).1,
        }
    }
}

/// The activation handles granted to turn loops over a run, in order. A
/// loop runs under the handle granted when it started, so these name the
/// loops that were ever allowed to run.
pub open spec fn ctl_grants<P>(c: LoopCtl<P>, ops: Seq<LoopOp<P>>) -> Seq<nat>
    decreases ops.len(),
{
    if ops.len() == 0 {
        Seq::empty()
    } else {
        let prev = ctl_run(c, ops.drop_last());
        let gs = ctl_grants(c, ops.drop_last());
        match ops.last() {
            LoopOp::Seat(_, _) => gs,
            LoopOp::Start => match ctl_start(prev).0 {
                Some(id) => gs.push(id),
                None => gs,
            },
        }
    }
}

spec fn ctl_inv<P>(c: LoopCtl<P>, grants: Seq<nat>) -> bool {
    &&& forall|i: int| 0 <= i < grants.len() ==> #[trigger] grants[i] <= c.activation
    &&& ((c.state.is_active() && !c.started) ==> forall|i: int|
        0 <= i < grants.len() ==> #[trigger] grants[i] != c.activation)
}

proof fn lemma_ctl_run_inv<P>(c: LoopCtl<P>, ops: Seq<LoopOp<P>>)
    ensures
        ctl_inv(ctl_run(c, ops), ctl_grants(c, ops)),
        forall|i: int, j: int|
            0 <= i < j < ctl_grants(c, ops).len() ==> ctl_grants(c, ops)[i] != ctl_grants(
                c,
                ops,
            )[j],
    decreases ops.len(),
{
    if ops.len() > 0 {
        lemma_ctl_run_inv(c, ops.drop_last());
    }
}

/// No double turn-taking: over any run of seat assignments and start
/// attempts, no two turn loops are ever granted the same activation — a
/// loop started on an activation never coexists with a second loop started
/// on that same activation.
pub proof fn lemma_no_double_start<P>(c: LoopCtl<P>, ops: Seq<LoopOp<P>>, i: int, j: int)
    requires
        0 <= i < j < ctl_grants(c, ops).len(),
    ensures
        ctl_grants(c, ops)[i] != ctl_grants(c, ops)[j],
{
    lemma_ctl_run_inv(c, ops);
}

/// The registry contents after a run of session creations.
pub open spec fn after_creations<T>(
    m0: Map<Seq<char>, T>,
    cs: Seq<(Seq<char>, T)>,
) -> Map<Seq<char>, T>
    decreases cs.len(),
{
    if cs.len() == 0 {
        m0
    } else {
        after_creations(m0, cs.drop_last()).insert(cs.last().0, cs.last().1)
    }
}

/// A legal run of creations: each allocates a code that is fresh for the
/// registry of its moment — exactly what [`crate::registry::Registry::create`]
/// ensures of every call.
pub open spec fn creations_fresh<T>(m0: Map<Seq<char>, T>, cs: Seq<(Seq<char>, T)>) -> bool
    decreases cs.len(),
{
    if cs.len() == 0 {
        true
    } else {
        creations_fresh(m0, cs.drop_last()) && !after_creations(m0, cs.drop_last()).contains_key(
            cs.last().0,
        )
    }
}

proof fn lemma_created_code_lives<T>(m0: Map<Seq<char>, T>, cs: Seq<(Seq<char>, T)>, k: int)
    requires
        0 <= k < cs.len(),
    ensures
        after_creations(m0, cs).contains_key(cs[k].0),
    decreases cs.len(),
{
    if k < cs.len() - 1 {
        lemma_created_code_lives(m0, cs.drop_last(), k);
        assert(cs.drop_last()[k] == cs[k]);
    }
}

/// `create` never returns two live sessions with the same code: over any
/// legal run of creations, the allocated codes are pairwise distinct.
pub proof fn lemma_created_codes_distinct<T>(
    m0: Map<Seq<char>, T>,
    cs: Seq<(Seq<char>, T)>,
    i: int,
    j: int,
)
    requires
        creations_fresh(m0, cs),
        0 <= i < j < cs.len(),
    ensures
        cs[i].0 != cs[j].0,
    decreases cs.len(),
{
    if j == cs.len() - 1 {
        lemma_created_code_lives(m0, cs.drop_last(), i);
        assert(cs.drop_last()[i] == cs[i]);
    } else {
        lemma_created_codes_distinct(m0, cs.drop_last(), i, j);
        assert(cs.drop_last()[i] == cs[i]);
        assert(cs.drop_last()[j] == cs[j]);
    }
}

} // verus!
