//! One game session: seat assignment, the turn-taking state machine, and
//! the decision core of the turn loop.
//!
//! A session is `Setup` while it waits for seats and `Active` while both
//! are filled; after every seat assignment the session re-evaluates, so
//! `Active` holds exactly when both seats are occupied. Participants are
//! opaque to the session: it stores handles of any type `P` (the host uses
//! shared handles to live connections) and never looks inside them. The
//! rules engine that owns the position is likewise the host's collaborator;
//! its verdict on a move token enters through [`Game::apply_move`] as a
//! plain boolean.

use vstd::prelude::*;

use crate::chan;
use crate::frame;

verus! {

/// One of the two turn-taking roles of a session.
#[derive(Clone, Copy, PartialEq, Eq, Structural, Debug)]
pub enum Color {
    White,
    Black,
}

impl Color {
    pub open spec fn spec_other(self) -> Color {
        match self {
            Color::White => Color::Black,
            Color::Black => Color::White,
        }
    }

    /// The seat across the board.
    pub fn other(self) -> (r: Color)
        ensures
            r == self.spec_other(),
    {
        match self {
            Color::White => Color::Black,
            Color::Black => Color::White,
        }
    }
}

/// The seat assignment of a session. `Active` holds an occupant for both
/// seats; `Setup` holds what has been claimed so far.
#[allow(inconsistent_fields)]
pub enum GameState<P> {
    Active { white: P, black: P },
    Setup { white: Option<P>, black: Option<P> },
}

impl<P> GameState<P> {
    /// The occupant of one seat, if any.
    pub open spec fn seat(self, c: Color) -> Option<P> {
        match self {
            GameState::Active { white, black } => if c == Color::White {
                Some(white)
            } else {
                Some(black)
            },
            GameState::Setup { white, black } => if c == Color::White {
                white
            } else {
                black
            },
        }
    }

    pub open spec fn is_active(self) -> bool {
        self is Active
    }
}

/// A session's starting seat assignment: nobody seated.
pub open spec fn empty_setup<P>() -> GameState<P> {
    GameState::Setup { white: None, black: None }
}

/// One seat assignment followed by the activation re-evaluation: the named
/// seat becomes `p`, the other keeps its occupant, and the session is
/// `Active` afterwards exactly when both seats are occupied. Clearing a
/// seat while `Active` therefore demotes to `Setup` with the other seat's
/// occupant preserved.
pub open spec fn spec_set_seat<P>(st: GameState<P>, c: Color, p: Option<P>) -> GameState<P> {
    let w = if c == Color::White {
        p
    } else {
        st.seat(Color::White)
    };
    let b = if c == Color::Black {
        p
    } else {
        st.seat(Color::Black)
    };
    match (w, b) {
        (Some(wp), Some(bp)) => GameState::Active { white: wp, black: bp },
        (w0, b0) => GameState::Setup { white: w0, black: b0 },
    }
}

/// What one seat assignment does, seat by seat: the named seat takes the
/// new value, the other is untouched, and activation afterwards reflects
/// exactly whether both are occupied.
pub proof fn lemma_set_seat<P>(st: GameState<P>, c: Color, p: Option<P>)
    ensures
        spec_set_seat(st, c, p).seat(c) == p,
        spec_set_seat(st, c, p).seat(c.spec_other()) == st.seat(c.spec_other()),
        spec_set_seat(st, c, p).is_active() <==> (p is Some && st.seat(c.spec_other()) is Some),
{
}

/// Clearing a seat while `Active` yields `Setup` with the other seat's
/// occupant preserved as `Some` and the cleared seat empty.
pub proof fn lemma_clear_seat_preserves_other<P>(st: GameState<P>, c: Color)
    requires
        st.is_active(),
    ensures
        !spec_set_seat(st, c, None).is_active(),
        spec_set_seat(st, c, None).seat(c.spec_other()) == st.seat(c.spec_other()),
        spec_set_seat(st, c, None).seat(c.spec_other()) is Some,
        spec_set_seat(st, c, None).seat(c) is None,
{
}

/// The loop-control face of a session: everything that governs when a turn
/// loop may start and how long it keeps running.
pub struct LoopCtl<P> {
    pub state: GameState<P>,
    pub activation: nat,
    pub started: bool,
}

/// A seat assignment as the loop-control model sees it: the seats move as
/// [`spec_set_seat`] says; a `Setup -> Active` edge opens a new activation
/// with no loop started yet; leaving `Active` retires the running loop.
pub open spec fn ctl_set_seat<P>(c: LoopCtl<P>, color: Color, p: Option<P>) -> LoopCtl<P> {
    let st2 = spec_set_seat(c.state, color, p);
    let edge = !c.state.is_active() && st2.is_active();
    LoopCtl {
        state: st2,
        activation: if edge {
            c.activation + 1
        } else {
            c.activation
        },
        started: c.started && st2.is_active() && !edge,
    }
}

/// Starting a turn loop as the loop-control model sees it: the current
/// activation's handle is granted exactly when the session is active and
/// no loop has claimed this activation yet.
pub open spec fn ctl_start<P>(c: LoopCtl<P>) -> (Option<nat>, LoopCtl<P>) {
    if c.state.is_active() && !c.started {
        (
            Some(c.activation),
            LoopCtl { state: c.state, activation: c.activation, started: true },
        )
    } else {
        (None, c)
    }
}

fn set_seat<P>(st: GameState<P>, color: Color, player: Option<P>) -> (r: GameState<P>)
    ensures
        r == spec_set_seat(st, color, player),
{
    let (w0, b0) = match st {
        GameState::Active { white, black } => (Some(white), Some(black)),
        GameState::Setup { white, black } => (white, black),
    };
    let (w1, b1) = match color {
        Color::White => (player, b0),
        Color::Black => (w0, player),
    };
    match (w1, b1) {
        (Some(wp), Some(bp)) => GameState::Active { white: wp, black: bp },
        (w, b) => GameState::Setup { white: w, black: b },
    }
}

/// Refused by a turn-loop operation that only an `Active` session can
/// serve.
#[derive(Clone, Copy, PartialEq, Eq, Structural, Debug)]
pub enum TurnError {
    Inactive,
}

/// One session: the authoritative seat state, the activation bookkeeping
/// that guards the turn loop, and the broadcast channel for confirmed
/// moves, which carries the history of everything published on it.
pub struct Game<P> {
    game_state: GameState<P>,
    broadcast: chan::MoveChannel,
    activation: u64,
    loop_started: bool,
}

impl<P> Game<P> {
    /// The seat assignment.
    pub closed spec fn state(self) -> GameState<P> {
        self.game_state
    }

    pub open spec fn spec_is_active(self) -> bool {
        self.state().is_active()
    }

    /// How many activations (`Setup -> Active` edges) the session has seen;
    /// the current value names the current activation.
    pub closed spec fn activation_spec(self) -> u64 {
        self.activation
    }

    /// Whether a turn loop has been started for the current activation.
    pub closed spec fn loop_started_spec(self) -> bool {
        self.loop_started
    }

    /// Every move token published on the broadcast channel, in order: the
    /// channel's own history.
    pub closed spec fn moves(self) -> Seq<Seq<char>> {
        self.broadcast.history()
    }

    /// The session's loop-control state.
    pub open spec fn ctl(self) -> LoopCtl<P> {
        LoopCtl {
            state: self.state(),
            activation: self.activation_spec() as nat,
            started: self.loop_started_spec(),
        }
    }

    /// Whether a turn loop may start now: the session is active and no
    /// loop has claimed the current activation.
    pub open spec fn may_start(self) -> bool {
        self.spec_is_active() && !self.loop_started_spec()
    }

    /// A fresh session: empty seats, no activation yet, an empty broadcast
    /// history.
    pub fn new() -> (g: Game<P>)
        ensures
            g.state() == empty_setup::<P>(),
            g.activation_spec() == 0,
            !g.loop_started_spec(),
            g.moves() == Seq::<Seq<char>>::empty(),
    {
        Game {
            game_state: GameState::Setup { white: None, black: None },
            broadcast: chan::MoveChannel::new(),
            activation: 0,
            loop_started: false,
        }
    }

    /// The number of the current activation.
    pub fn activation(&self) -> (r: u64)
        ensures
            r == self.activation_spec(),
    {
        self.activation
    }

    pub fn is_active(&self) -> (r: bool)
        ensures
            r == self.spec_is_active(),
    {
        match &self.game_state {
            GameState::Active { .. } => true,
            GameState::Setup { .. } => false,
        }
    }

    /// Assigns, replaces or clears one seat, then re-evaluates activation.
    /// Returns whether this very call produced a `Setup -> Active` edge;
    /// only that caller may start a turn loop for the new activation.
    /// Clearing a seat while `Active` demotes the session to `Setup`,
    /// preserving the other seat's occupant, and retires the running loop.
    pub fn set_player(&mut self, color: Color, player: Option<P>) -> (activated: bool)
        requires
            !old(self).spec_is_active() ==> old(self).activation_spec() < u64::MAX,
        ensures
            final(self).state() == spec_set_seat(old(self).state(), color, player),
            activated == (!old(self).spec_is_active() && final(self).spec_is_active()),
            activated ==> final(self).activation_spec() == old(self).activation_spec() + 1,
            !activated ==> final(self).activation_spec() == old(self).activation_spec(),
            final(self).loop_started_spec() == (old(self).loop_started_spec()
                && final(self).spec_is_active() && !activated),
            final(self).ctl() == ctl_set_seat(old(self).ctl(), color, player),
            final(self).moves() == old(self).moves(),
    {
        let was_active = self.is_active();
        let mut st = GameState::Setup { white: None, black: None };
        core::mem::swap(&mut st, &mut self.game_state);
        self.game_state = set_seat(st, color, player);
        let now_active = self.is_active();
        let activated = !was_active && now_active;
        if activated {
            self.activation = self.activation + 1;
            self.loop_started = false;
        } else {
            self.loop_started = self.loop_started && now_active;
        }
        activated
    }

    /// The occupant of one seat, if any.
    pub fn seat(&self, color: Color) -> (r: Option<&P>)
        ensures
            r matches Some(p) ==> self.state().seat(color) == Some(*p),
            r is None ==> self.state().seat(color) is None,
    {
        match (&self.game_state, color) {
            (GameState::Active { white, .. }, Color::White) => Some(white),
            (GameState::Active { black, .. }, Color::Black) => Some(black),
            (GameState::Setup { white, .. }, Color::White) => white.as_ref(),
            (GameState::Setup { black, .. }, Color::Black) => black.as_ref(),
        }
    }

    /// Selects the participant who owes the next move: the seat named by
    /// the engine's side-to-move. An inactive session serves no turns.
    pub fn next_mover(&self, to_move: Color) -> (r: Result<&P, TurnError>)
        ensures
            r matches Ok(p) ==> self.spec_is_active() && self.state().seat(to_move) == Some(*p),
            r is Err ==> !self.spec_is_active(),
            self.spec_is_active() <==> r is Ok,
    {
        match (&self.game_state, to_move) {
            (GameState::Active { white, .. }, Color::White) => Ok(white),
            (GameState::Active { black, .. }, Color::Black) => Ok(black),
            (GameState::Setup { .. }, _) => Err(TurnError::Inactive),
        }
    }

    /// The iteration guard of a turn loop that was started with handle
    /// `id`: it keeps running exactly while the session is active and still
    /// on that activation.
    pub fn turn_ready(&self, id: u64) -> (r: bool)
        ensures
            r == (self.spec_is_active() && id == self.activation_spec()),
    {
        self.is_active() && id == self.activation
    }

    /// The decision core of one turn. The mover's token has already been
    /// judged by the rules engine, whose verdict arrives as `accepted`: an
    /// accepted move is published on the broadcast channel and handed back
    /// for delivery to the seats; a rejected one changes nothing, and the
    /// loop asks the same participant again.
    pub fn apply_move(&mut self, token: &str, accepted: bool) -> (r: Option<String>)
        ensures
            accepted <==> r is Some,
            r matches Some(t) ==> t@ == token@ && final(self).moves() == old(self).moves().push(
                token@,
            ),
            r is None ==> final(self).moves() == old(self).moves(),
            final(self).state() == old(self).state(),
            final(self).activation_spec() == old(self).activation_spec(),
            final(self).loop_started_spec() == old(self).loop_started_spec(),
    {
        if accepted {
            // fire-and-forget: a failed send only means nobody subscribes yet
            let _ = self.broadcast.send(String::from_str(token));
            Some(String::from_str(token))
        } else {
            None
        }
    }

    /// Claims the turn loop for the current activation. The activation's
    /// handle comes back exactly when the session is active and no loop has
    /// claimed this activation yet, so each activation's loop starts at
    /// most once.
    pub fn start_loop(&mut self) -> (r: Option<u64>)
        ensures
            r == if old(self).may_start() {
                Some(old(self).activation_spec())
            } else {
                None::<u64>
            },
            final(self).ctl() == ctl_start(old(self).ctl()).1,
            (match r {
                Some(id) => Some(id as nat),
                None => None::<nat>,
            }) == ctl_start(old(self).ctl()).0,
            final(self).moves() == old(self).moves(),
    {
        if self.is_active() && !self.loop_started {
            self.loop_started = true;
            Some(self.activation)
        } else {
            None
        }
    }

    /// A new subscription to the confirmed-move broadcast: it observes
    /// exactly the moves published after this call — those past the
    /// current history.
    pub fn watch(&self) -> (r: chan::Subscription)
        ensures
            r.start() == self.moves().len(),
    {
        self.broadcast.subscribe()
    }

    /// What a freshly attached connection is sent, spectator and joiner
    /// alike: first the snapshot frame for the position at attach time,
    /// then (through the returned subscription) every later move — the
    /// subscription starts at the current history, so nothing older than
    /// the snapshot reaches it. The host must write the frame before
    /// relaying from the subscription.
    pub fn attach(&self, snapshot: &str) -> (r: (String, chan::Subscription))
        ensures
            r.0@ == frame::fen_frame_text(snapshot@),
            frame::is_fen_frame(r.0@),
            !frame::is_move_frame(r.0@),
            r.1.start() == self.moves().len(),
    {
        proof {
            frame::lemma_fen_frame_round_trip(snapshot@);
        }
        (frame::fen_frame(snapshot), self.watch())
    }
}

/// The turn-loop starter: anything session-like can be asked to start its
/// turn loop, and grants each activation's loop at most once.
pub trait ExecExt {
    /// Whether a turn loop may start now: the session is active and no
    /// loop has been started for the current activation.
    spec fn can_start(&self) -> bool;

    /// The handle naming the current activation.
    spec fn activation_handle(&self) -> u64;

    /// Claims the turn loop for the current activation. The handle comes
    /// back exactly when the session is active and no loop has claimed
    /// this activation yet, so each activation's loop starts at most once.
    fn start(&mut self) -> (r: Option<u64>)
        ensures
            r == if old(self).can_start() {
                Some(old(self).activation_handle())
            } else {
                None::<u64>
            },
            !final(self).can_start(),
            final(self).activation_handle() == old(self).activation_handle(),
    ;
}

impl<P> ExecExt for Game<P> {
    open spec fn can_start(&self) -> bool {
        self.may_start()
    }

    open spec fn activation_handle(&self) -> u64 {
        self.activation_spec()
    }

    fn start(&mut self) -> (r: Option<u64>) {
        self.start_loop()
    }
}

} // verus!
