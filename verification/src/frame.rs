//! The wire protocol: line-oriented text frames of the form `kind:payload`.
//!
//! Exactly two kinds are recognized. A `fen:` frame carries a full position
//! snapshot and is sent once when a connection attaches. A `move:` frame
//! carries a single move token; outbound it announces an applied move,
//! inbound on a joined connection it is the participant's chosen move.
//! Every other frame is protocol noise and is ignored rather than rejected.

use vstd::prelude::*;

verus! {

/// The characters that open a move frame.
pub open spec fn move_prefix() -> Seq<char> {
    seq!['m', 'o', 'v', 'e', ':']
}

/// The characters that open a snapshot frame.
pub open spec fn fen_prefix() -> Seq<char> {
    seq!['f', 'e', 'n', ':']
}

/// A frame announcing or carrying the move whose token is `token`.
pub open spec fn move_frame_text(token: Seq<char>) -> Seq<char> {
    move_prefix() + token
}

/// A frame carrying the position snapshot `snapshot`.
pub open spec fn fen_frame_text(snapshot: Seq<char>) -> Seq<char> {
    fen_prefix() + snapshot
}

pub open spec fn is_move_frame(s: Seq<char>) -> bool {
    s.len() >= 5 && s.subrange(0, 5) == move_prefix()
}

pub open spec fn is_fen_frame(s: Seq<char>) -> bool {
    s.len() >= 4 && s.subrange(0, 4) == fen_prefix()
}

/// An inbound frame, classified by its kind prefix. `Noise` covers both
/// unrecognized kinds and text with no kind at all.
pub enum Frame {
    Fen(String),
    Move(String),
    Noise,
}

/// No frame is both a move frame and a snapshot frame: the two kind
/// prefixes disagree already on their first character.
pub proof fn lemma_frame_kinds_disjoint(s: Seq<char>)
    ensures
        !(is_move_frame(s) && is_fen_frame(s)),
{
    if is_move_frame(s) && is_fen_frame(s) {
        assert(s.subrange(0, 5)[0] == s[0]);
        assert(s.subrange(0, 4)[0] == s[0]);
        assert(move_prefix()[0] == 'm');
        assert(fen_prefix()[0] == 'f');
    }
}

/// Building a move frame from a token and classifying it again gives the
/// token back, and never yields a snapshot frame.
pub proof fn lemma_move_frame_round_trip(token: Seq<char>)
    ensures
        is_move_frame(move_frame_text(token)),
        move_frame_text(token).skip(5) == token,
        !is_fen_frame(move_frame_text(token)),
{
    assert(move_frame_text(token).subrange(0, 5) =~= move_prefix());
    assert(move_frame_text(token).skip(5) =~= token);
    lemma_frame_kinds_disjoint(move_frame_text(token));
}

/// Building a snapshot frame from a snapshot and classifying it again gives
/// the snapshot back, and never yields a move frame.
pub proof fn lemma_fen_frame_round_trip(snapshot: Seq<char>)
    ensures
        is_fen_frame(fen_frame_text(snapshot)),
        fen_frame_text(snapshot).skip(4) == snapshot,
        !is_move_frame(fen_frame_text(snapshot)),
{
    assert(fen_frame_text(snapshot).subrange(0, 4) =~= fen_prefix());
    assert(fen_frame_text(snapshot).skip(4) =~= snapshot);
    lemma_frame_kinds_disjoint(fen_frame_text(snapshot));
}

/// A confirmed token carrying no surrounding whitespace — every token the
/// inbound filter hands out is of that shape — survives the delivery round
/// trip: framed as a move frame, it passes the filter on the other side
/// and comes back exactly as itself.
pub proof fn lemma_delivery_round_trip(token: Seq<char>)
    requires
        trimmed(token) == token,
    ensures
        is_move_frame(move_frame_text(token)),
        trimmed(move_frame_text(token).skip(5)) == token,
{
    lemma_move_frame_round_trip(token);
}

/// Renders the outbound frame that announces an applied move.
pub fn move_frame(token: &str) -> (r: String)
    ensures
        r@ == move_frame_text(token@),
{
    proof {
        reveal_strlit("move:");
    }
    let mut s = String::from_str("move:");
    s.append(token);
    proof {
        assert(s@ =~= move_frame_text(token@));
    }
    s
}

/// Renders the snapshot frame sent once when a connection attaches.
pub fn fen_frame(snapshot: &str) -> (r: String)
    ensures
        r@ == fen_frame_text(snapshot@),
{
    proof {
        reveal_strlit("fen:");
    }
    let mut s = String::from_str("fen:");
    s.append(snapshot);
    proof {
        assert(s@ =~= fen_frame_text(snapshot@));
    }
    s
}

fn starts_with_move_prefix(s: &str) -> (b: bool)
    ensures
        b == is_move_frame(s@),
{
    let n = s.unicode_len();
    if n < 5 {
        return false;
    }
    let b = s.get_char(0) == 'm' && s.get_char(1) == 'o' && s.get_char(2) == 'v' && s.get_char(3)
        == 'e' && s.get_char(4) == ':';
    proof {
        if b {
            assert(s@.subrange(0, 5) =~= move_prefix());
        } else {
            if s@.subrange(0, 5) == move_prefix() {
                assert(s@[0] == s@.subrange(0, 5)[0]);
                assert(s@[1] == s@.subrange(0, 5)[1]);
                assert(s@[2] == s@.subrange(0, 5)[2]);
                assert(s@[3] == s@.subrange(0, 5)[3]);
                assert(s@[4] == s@.subrange(0, 5)[4]);
            }
        }
    }
    b
}

fn starts_with_fen_prefix(s: &str) -> (b: bool)
    ensures
        b == is_fen_frame(s@),
{
    let n = s.unicode_len();
    if n < 4 {
        return false;
    }
    let b = s.get_char(0) == 'f' && s.get_char(1) == 'e' && s.get_char(2) == 'n' && s.get_char(3)
        == ':';
    proof {
        if b {
            assert(s@.subrange(0, 4) =~= fen_prefix());
        } else {
            if s@.subrange(0, 4) == fen_prefix() {
                assert(s@[0] == s@.subrange(0, 4)[0]);
                assert(s@[1] == s@.subrange(0, 4)[1]);
                assert(s@[2] == s@.subrange(0, 4)[2]);
                assert(s@[3] == s@.subrange(0, 4)[3]);
            }
        }
    }
    b
}

/// What `str::trim` leaves of a text: the text without its leading and
/// trailing whitespace.
pub uninterp spec fn trimmed(s: Seq<char>) -> Seq<char>;

/// Relies on `str::trim`: returns the text with leading and trailing
/// whitespace removed. A text of that shape trims to itself, so the
/// second clause holds of every result.
#[verifier::external_body]
pub fn trim_str(s: &str) -> (r: &str)
    ensures
        r@ == trimmed(s@),
        trimmed(r@) == r@,
{
    s.trim()
}

/// The participant-side filter on inbound frames while a move is awaited:
/// only a move frame yields a candidate token (its payload, trimmed), and
/// anything else is noise, so the read simply repeats. Whether the token
/// names a move the rules engine recognizes is the engine's verdict, which
/// the host obtains before handing the token on.
pub fn inbound_move_token(s: &str) -> (r: Option<String>)
    ensures
        is_move_frame(s@) ==> (r matches Some(t) && t@ == trimmed(s@.skip(5))),
        r matches Some(t) ==> trimmed(t@) == t@,
        !is_move_frame(s@) ==> r is None,
{
    match parse_frame(s) {
        Frame::Move(p) => Some(String::from_str(trim_str(p.as_str()))),
        _ => None,
    }
}

/// Classifies one inbound frame. A recognized kind comes back with its
/// payload; anything else is noise, which the protocol silently discards.
pub fn parse_frame(s: &str) -> (r: Frame)
    ensures
        is_move_frame(s@) ==> (r matches Frame::Move(p) && p@ == s@.skip(5)),
        is_fen_frame(s@) ==> (r matches Frame::Fen(p) && p@ == s@.skip(4)),
        !is_move_frame(s@) && !is_fen_frame(s@) ==> r is Noise,
{
    proof {
        lemma_frame_kinds_disjoint(s@);
    }
    if starts_with_move_prefix(s) {
        let n = s.unicode_len();
        let payload = s.substring_char(5, n);
        Frame::Move(String::from_str(payload))
    } else if starts_with_fen_prefix(s) {
        let n = s.unicode_len();
        let payload = s.substring_char(4, n);
        Frame::Fen(String::from_str(payload))
    } else {
        Frame::Noise
    }
}

} // verus!
