use web_chess::frame::{fen_frame, inbound_move_token, move_frame, parse_frame, Frame};

#[test]
fn move_frame_renders_prefix_and_token() {
    assert_eq!(move_frame("e2e4"), "move:e2e4");
    assert_eq!(move_frame(""), "move:");
}

#[test]
fn fen_frame_renders_prefix_and_snapshot() {
    assert_eq!(
        fen_frame("rnbqkbnr/pppppppp/8/8/8/8/PPPPPPPP/RNBQKBNR w KQkq - 0 1"),
        "fen:rnbqkbnr/pppppppp/8/8/8/8/PPPPPPPP/RNBQKBNR w KQkq - 0 1"
    );
}

#[test]
fn parse_frame_recognizes_move_frames() {
    match parse_frame("move: e2e4") {
        Frame::Move(p) => assert_eq!(p, " e2e4"),
        _ => panic!("a move frame must parse as a move"),
    }
}

#[test]
fn parse_frame_recognizes_fen_frames() {
    match parse_frame("fen:8/8/8/8/8/8/8/8 w - - 0 1") {
        Frame::Fen(p) => assert_eq!(p, "8/8/8/8/8/8/8/8 w - - 0 1"),
        _ => panic!("a snapshot frame must parse as fen"),
    }
}

#[test]
fn parse_frame_keeps_later_colons_in_the_payload() {
    match parse_frame("move:a:b") {
        Frame::Move(p) => assert_eq!(p, "a:b"),
        _ => panic!("only the first colon separates kind from payload"),
    }
}

#[test]
fn parse_frame_discards_noise() {
    assert!(matches!(parse_frame("hello"), Frame::Noise));
    assert!(matches!(parse_frame("mov:e2e4"), Frame::Noise));
    assert!(matches!(parse_frame("chat:hi there"), Frame::Noise));
    assert!(matches!(parse_frame(""), Frame::Noise));
    assert!(matches!(parse_frame("fen"), Frame::Noise));
}

#[test]
fn inbound_filter_takes_only_move_frames_and_trims() {
    assert_eq!(inbound_move_token("move: e2e4"), Some("e2e4".to_string()));
    assert_eq!(inbound_move_token("move:e7e5  "), Some("e7e5".to_string()));
    assert_eq!(inbound_move_token("fen:whatever"), None);
    assert_eq!(inbound_move_token("hello"), None);
    assert_eq!(inbound_move_token(""), None);
}

#[test]
fn an_empty_move_token_passes_to_the_engine_which_rejects_it() {
    // the filter only checks the frame's shape; judging the token is the
    // rules engine's call, and an empty one is simply rejected there
    assert_eq!(inbound_move_token("move:"), Some("".to_string()));
}

#[test]
fn delivered_move_frames_round_trip_through_the_filter() {
    let frame = move_frame("g1f3");
    assert_eq!(inbound_move_token(&frame), Some("g1f3".to_string()));
}
