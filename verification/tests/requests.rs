use chess_gif::api::{
    bool_token, fen_field, BoundedText, CheckSquare, Comment, Coordinates, Date, ErrorKind, Field,
    Orientation, PlayerName, RawBody, RawFrame, RawParams, RequestBody, RequestError,
    RequestFrame, RequestParams, Value,
};
use chess_gif::assets::{BoardTheme, PieceSet};
use chess_gif::chess::{LastMove, Square};
use chess_gif::render::{
    effective_delay, resolve_animation, resolve_still, Layout, Render, Step,
};

fn text(s: &str) -> Option<String> {
    Some(s.to_string())
}

fn token(s: &str) -> Value {
    Value::Text(s.to_string())
}

fn start_position() -> shakmaty::fen::Fen {
    fen_field(&None).unwrap()
}

fn sq(name: &str) -> Square {
    Square::parse(name).unwrap()
}

fn params_error(raw: &RawParams) -> RequestError {
    match RequestParams::parse(raw) {
        Ok(_) => panic!("accepted"),
        Err(error) => error,
    }
}

fn body_error(raw: &RawBody) -> RequestError {
    match RequestBody::parse(raw) {
        Ok(_) => panic!("accepted"),
        Err(error) => error,
    }
}

fn one_frame() -> RawBody {
    RawBody { frames: vec![RawFrame::default()], ..RawBody::default() }
}

#[test]
fn boolean_tokens() {
    for name in ["1", "yes", "true"] {
        assert_eq!(bool_token(name), Some(true));
        assert_eq!(Coordinates::from_text(name), Ok(Coordinates::Yes));
        assert_eq!(CheckSquare::from_text(name), Ok(CheckSquare::Yes));
        assert_eq!(Coordinates::parse(&token(name)), Ok(Coordinates::Yes));
        assert_eq!(CheckSquare::parse(&token(name)), Ok(CheckSquare::Yes));
    }
    for name in ["0", "no", "false"] {
        assert_eq!(bool_token(name), Some(false));
        assert_eq!(Coordinates::from_text(name), Ok(Coordinates::No));
        assert_eq!(CheckSquare::from_text(name), Ok(CheckSquare::No));
        assert_eq!(Coordinates::parse(&token(name)), Ok(Coordinates::No));
        assert_eq!(CheckSquare::parse(&token(name)), Ok(CheckSquare::No));
    }
    assert_eq!(Coordinates::parse(&Value::Bool(true)), Ok(Coordinates::Yes));
    assert_eq!(Coordinates::parse(&Value::Bool(false)), Ok(Coordinates::No));
    assert_eq!(CheckSquare::parse(&Value::Bool(true)), Ok(CheckSquare::Yes));
    assert_eq!(CheckSquare::parse(&Value::Bool(false)), Ok(CheckSquare::No));
    assert_eq!(Coordinates::from_bool(true), Coordinates::Yes);
    assert_eq!(CheckSquare::from_bool(false), CheckSquare::No);
    assert_eq!(Coordinates::default(), Coordinates::Yes);
}

#[test]
fn other_texts_are_no_boolean_tokens() {
    for name in ["", "2", "Yes", "TRUE", "y", "n", "on", "off", "e1", " 1", "true "] {
        assert_eq!(bool_token(name), None);
        assert_eq!(Coordinates::from_text(name), Err(ErrorKind::InvalidCoordinates));
        assert_eq!(Coordinates::parse(&token(name)), Err(ErrorKind::InvalidCoordinates));
    }
    assert_eq!(Coordinates::parse(&Value::Other), Err(ErrorKind::InvalidCoordinates));
}

#[test]
fn check_takes_square_names() {
    assert_eq!(CheckSquare::from_text("e1"), Ok(CheckSquare::Square(sq("e1"))));
    assert_eq!(CheckSquare::parse(&token("h8")), Ok(CheckSquare::Square(sq("h8"))));
    for name in ["", "e9", "maybe", "E1", "2"] {
        assert_eq!(CheckSquare::from_text(name), Err(ErrorKind::InvalidSquareName));
    }
    assert_eq!(CheckSquare::parse(&Value::Other), Err(ErrorKind::ExpectedSquareOrBool));
}

#[test]
fn refusals_have_words() {
    assert_eq!(ErrorKind::InvalidSquareName.message(), "invalid square name");
    assert_eq!(ErrorKind::ExpectedSquareOrBool.message(), "expected square name or boolean");
    assert_eq!(ErrorKind::InvalidCoordinates.message(), "invalid coordinates value");
    assert_eq!(Field::LastMove.name(), "lastMove");
    assert_eq!(Field::Comment.name(), "comment");
}

#[test]
fn bounded_text_at_the_bound() {
    assert_eq!(PlayerName::new(&"a".repeat(100)).unwrap().as_str(), "a".repeat(100));
    assert!(PlayerName::new(&"a".repeat(101)).is_none());
    assert_eq!(Date::new("2024.01.31").unwrap().as_str(), "2024.01.31");
    assert!(Date::new("2024.01.311").is_none());
    assert_eq!(Comment::new(&"c".repeat(255)).unwrap().as_str(), "c".repeat(255));
    assert!(Comment::new(&"c".repeat(256)).is_none());
    assert_eq!(PlayerName::new("").unwrap().as_str(), "");
    assert_eq!(BoundedText::<3>::new("abc").unwrap().clone().as_str(), "abc");
    assert!(BoundedText::<3>::new("abcd").is_none());
    assert!(BoundedText::<0>::new("a").is_none());
}

#[test]
fn bounded_text_counts_characters() {
    let name = "\u{e9}".repeat(100);
    assert_eq!(PlayerName::new(&name).unwrap().as_str(), name);
    assert!(PlayerName::new(&"\u{e9}".repeat(101)).is_none());
}

#[test]
fn a_still_request_without_parameters() {
    let params = RequestParams::parse(&RawParams::default()).unwrap();
    assert!(params.white.is_none());
    assert!(params.black.is_none());
    assert!(params.date.is_none());
    assert!(params.comment.is_none());
    assert_eq!(params.fen, shakmaty::fen::Fen::default());
    assert_eq!(params.fen, start_position());
    assert_eq!(params.last_move, None);
    assert_eq!(params.check, CheckSquare::No);
    assert_eq!(params.orientation, Orientation::White);
    assert_eq!(params.theme, BoardTheme::Standard);
    assert_eq!(params.piece, PieceSet::Standard);
    assert_eq!(params.coordinates, Coordinates::Yes);
    let frame = resolve_still(params);
    assert_eq!(frame.position, start_position());
    assert_eq!(frame.moved_from, None);
    assert_eq!(frame.moved_to, None);
    assert_eq!(frame.checked, None);
    assert_eq!(frame.delay, None);
}

#[test]
fn a_still_request_with_every_parameter() {
    let raw = RawParams {
        white: text("Anna"),
        black: text("Boris"),
        date: text("2024.01.31"),
        comment: text("a game"),
        fen: text("rnbqkbnr/pppppppp/8/8/4P3/8/PPPP1PPP/RNBQKBNR b KQkq - 0 1"),
        last_move: text("e2e4"),
        check: Some(Value::Bool(true)),
        orientation: text("black"),
        theme: text("cherry_blossom"),
        piece: text("celtic"),
        coordinates: Some(token("no")),
    };
    let params = RequestParams::parse(&raw).unwrap();
    assert_eq!(params.white.as_ref().unwrap().as_str(), "Anna");
    assert_eq!(params.black.as_ref().unwrap().as_str(), "Boris");
    assert_eq!(params.date.as_ref().unwrap().as_str(), "2024.01.31");
    assert_eq!(params.comment.as_ref().unwrap().as_str(), "a game");
    assert_eq!(params.last_move, Some(LastMove::Normal { from: sq("e2"), to: sq("e4") }));
    assert_eq!(params.check, CheckSquare::Yes);
    assert_eq!(params.orientation, Orientation::Black);
    assert_eq!(params.theme, BoardTheme::CherryBlossom);
    assert_eq!(params.piece, PieceSet::Celtic);
    assert_eq!(params.coordinates, Coordinates::No);
    let frame = resolve_still(params);
    assert_eq!(frame.moved_from, Some((3, 1)));
    assert_eq!(frame.moved_to, Some((3, 3)));
    assert_eq!(frame.checked, Some((3, 7)));
    assert_eq!(frame.delay, None);
}

#[test]
fn an_explicit_check_square_is_not_held_against_the_position() {
    let raw = RawParams {
        fen: text("4k3/8/8/8/8/8/8/K7 b - - 0 1"),
        check: Some(token("e1")),
        ..RawParams::default()
    };
    let params = RequestParams::parse(&raw).unwrap();
    assert_eq!(params.check, CheckSquare::Square(sq("e1")));
    assert_eq!(params.check.to_square(&params.fen), Some(sq("e1")));
    assert_eq!(resolve_still(params).checked, Some((4, 7)));
}

#[test]
fn a_drop_marks_one_square() {
    let raw = RawParams { last_move: text("Q@f7"), ..RawParams::default() };
    let params = RequestParams::parse(&raw).unwrap();
    let frame = resolve_still(params);
    assert_eq!(frame.moved_from, None);
    assert_eq!(frame.moved_to, Some((5, 1)));
    let raw = RawParams { last_move: text("0000"), ..RawParams::default() };
    let params = RequestParams::parse(&raw).unwrap();
    let frame = resolve_still(params);
    assert_eq!(frame.moved_from, None);
    assert_eq!(frame.moved_to, None);
}

#[test]
fn each_field_is_refused_by_name() {
    let e = |field, kind| RequestError { field, kind, frame: None };
    let raw = RawParams { white: text(&"w".repeat(101)), ..RawParams::default() };
    assert_eq!(params_error(&raw), e(Field::White, ErrorKind::TooLong));
    let raw = RawParams { black: text(&"b".repeat(101)), ..RawParams::default() };
    assert_eq!(params_error(&raw), e(Field::Black, ErrorKind::TooLong));
    let raw = RawParams { date: text("2024.01.311"), ..RawParams::default() };
    assert_eq!(params_error(&raw), e(Field::Date, ErrorKind::TooLong));
    let raw = RawParams { comment: text(&"c".repeat(256)), ..RawParams::default() };
    assert_eq!(params_error(&raw), e(Field::Comment, ErrorKind::TooLong));
    let raw = RawParams { fen: text("no position"), ..RawParams::default() };
    assert_eq!(params_error(&raw), e(Field::Fen, ErrorKind::InvalidFen));
    let raw = RawParams { last_move: text("e2e9"), ..RawParams::default() };
    assert_eq!(params_error(&raw), e(Field::LastMove, ErrorKind::InvalidMove));
    let raw = RawParams { check: Some(token("maybe")), ..RawParams::default() };
    assert_eq!(params_error(&raw), e(Field::Check, ErrorKind::InvalidSquareName));
    let raw = RawParams { check: Some(Value::Other), ..RawParams::default() };
    assert_eq!(params_error(&raw), e(Field::Check, ErrorKind::ExpectedSquareOrBool));
    let raw = RawParams { orientation: text("sideways"), ..RawParams::default() };
    assert_eq!(params_error(&raw), e(Field::Orientation, ErrorKind::InvalidOrientation));
    let raw = RawParams { theme: text("pixel"), ..RawParams::default() };
    assert_eq!(params_error(&raw), e(Field::Theme, ErrorKind::InvalidTheme));
    let raw = RawParams { piece: text("moon"), ..RawParams::default() };
    assert_eq!(params_error(&raw), e(Field::Piece, ErrorKind::InvalidPieceSet));
    let raw = RawParams { coordinates: Some(token("maybe")), ..RawParams::default() };
    assert_eq!(params_error(&raw), e(Field::Coordinates, ErrorKind::InvalidCoordinates));
}

#[test]
fn the_first_field_at_fault_is_reported() {
    let raw = RawParams {
        comment: text(&"c".repeat(256)),
        fen: text("no position"),
        coordinates: Some(Value::Other),
        ..RawParams::default()
    };
    assert_eq!(
        params_error(&raw),
        RequestError { field: Field::Comment, kind: ErrorKind::TooLong, frame: None }
    );
}

#[test]
fn texts_at_the_bound_are_accepted_in_requests() {
    let raw = RawParams {
        white: text(&"w".repeat(100)),
        date: text("0123456789"),
        comment: text(&"c".repeat(255)),
        ..RawParams::default()
    };
    let params = RequestParams::parse(&raw).unwrap();
    assert_eq!(params.white.unwrap().as_str().len(), 100);
    assert_eq!(params.date.unwrap().as_str(), "0123456789");
    assert_eq!(params.comment.unwrap().as_str().len(), 255);
}

#[test]
fn delays_are_inherited() {
    assert_eq!(effective_delay(None, 500), 500);
    assert_eq!(effective_delay(Some(100), 500), 100);
    assert_eq!(effective_delay(Some(0), 500), 0);
    assert_eq!(effective_delay(None, 0), 100);
    assert_eq!(effective_delay(Some(7), 0), 7);
    assert_eq!(effective_delay(None, 65535), 65535);
}

#[test]
fn an_animation_of_three_frames() {
    let raw = RawBody {
        frames: vec![
            RawFrame::default(),
            RawFrame {
                fen: text("rnbqkbnr/pppppppp/8/8/4P3/8/PPPP1PPP/RNBQKBNR b KQkq - 0 1"),
                delay: Some(100),
                last_move: text("e2e4"),
                check: None,
            },
            RawFrame {
                fen: text("rnbqkbnr/pppp1ppp/8/4p3/4P3/8/PPPP1PPP/RNBQKBNR w KQkq - 0 2"),
                delay: None,
                last_move: text("e7e5"),
                check: Some(token("yes")),
            },
        ],
        delay: Some(500),
        ..RawBody::default()
    };
    let body = RequestBody::parse(&raw).unwrap();
    assert_eq!(body.frames.len(), 3);
    assert_eq!(body.delay, 500);
    assert_eq!(body.frames[1].delay, Some(100));
    assert_eq!(body.orientation, Orientation::White);
    let second = body.frames[1].fen.clone();
    let frames = resolve_animation(body);
    let delays: Vec<Option<u16>> = frames.iter().map(|frame| frame.delay).collect();
    assert_eq!(delays, vec![Some(500), Some(100), Some(500)]);
    assert_eq!(frames[0].position, start_position());
    assert_eq!(frames[0].moved_to, None);
    assert_eq!(frames[1].position, second);
    assert_eq!(frames[1].moved_from, Some((4, 6)));
    assert_eq!(frames[1].moved_to, Some((4, 4)));
    assert_eq!(frames[1].checked, None);
    assert_eq!(frames[2].moved_from, Some((4, 1)));
    assert_eq!(frames[2].moved_to, Some((4, 3)));
    assert_eq!(frames[2].checked, Some((4, 7)));
}

#[test]
fn an_animation_without_a_shared_delay_falls_back() {
    let mut raw = one_frame();
    raw.frames.push(RawFrame { delay: Some(30), ..RawFrame::default() });
    let body = RequestBody::parse(&raw).unwrap();
    assert_eq!(body.delay, 0);
    let frames = resolve_animation(body);
    assert_eq!(frames[0].delay, Some(100));
    assert_eq!(frames[1].delay, Some(30));
}

#[test]
fn an_oversized_comment_refuses_the_animation() {
    let raw = RawBody {
        comment: text(&"c".repeat(256)),
        frames: vec![RawFrame { fen: text("no position"), ..RawFrame::default() }],
        ..RawBody::default()
    };
    assert_eq!(
        body_error(&raw),
        RequestError { field: Field::Comment, kind: ErrorKind::TooLong, frame: None }
    );
    let raw = RawBody { comment: text(&"c".repeat(255)), ..one_frame() };
    assert!(RequestBody::parse(&raw).is_ok());
}

#[test]
fn an_animation_needs_a_frame() {
    assert_eq!(
        body_error(&RawBody::default()),
        RequestError { field: Field::Frames, kind: ErrorKind::NoFrames, frame: None }
    );
}

#[test]
fn one_frame_at_fault_refuses_the_animation() {
    let raw = RawBody {
        frames: vec![
            RawFrame::default(),
            RawFrame { last_move: text("e2e9"), ..RawFrame::default() },
            RawFrame { fen: text("no position"), ..RawFrame::default() },
        ],
        ..RawBody::default()
    };
    assert_eq!(
        body_error(&raw),
        RequestError { field: Field::LastMove, kind: ErrorKind::InvalidMove, frame: Some(1) }
    );
    let raw = RawBody { theme: text("none"), ..raw };
    assert_eq!(
        body_error(&raw),
        RequestError { field: Field::Theme, kind: ErrorKind::InvalidTheme, frame: None }
    );
}

#[test]
fn a_frame_is_read_at_its_place() {
    let raw = RawFrame { check: Some(Value::Other), ..RawFrame::default() };
    match RequestFrame::parse(&raw, 5) {
        Ok(_) => panic!("accepted"),
        Err(error) => assert_eq!(
            error,
            RequestError {
                field: Field::Check,
                kind: ErrorKind::ExpectedSquareOrBool,
                frame: Some(5)
            }
        ),
    }
    let frame = RequestFrame::parse(&RawFrame { delay: Some(9), ..RawFrame::default() }, 0).unwrap();
    assert_eq!(frame.delay, Some(9));
    assert_eq!(frame.check, CheckSquare::No);
    assert_eq!(frame.fen, start_position());
}

#[test]
fn a_still_is_encoded_in_four_steps() {
    let params = RequestParams::parse(&RawParams::default()).unwrap();
    let mut render = Render::new_image(params);
    assert_eq!(render.len(), 1);
    assert_eq!(render.frame(0).unwrap().delay, None);
    assert!(render.frame(1).is_none());
    assert_eq!(render.next_step(), Step::Preamble);
    assert_eq!(render.next_step(), Step::Frame(0));
    assert_eq!(render.next_step(), Step::Trailer);
    assert_eq!(render.next_step(), Step::Complete);
    assert_eq!(render.next_step(), Step::Complete);
}

#[test]
fn an_animation_is_encoded_frame_by_frame() {
    let mut raw = one_frame();
    raw.delay = Some(500);
    raw.frames.push(RawFrame { delay: Some(100), ..RawFrame::default() });
    raw.frames.push(RawFrame::default());
    let body = RequestBody::parse(&raw).unwrap();
    let mut render = Render::new_animation(body);
    assert_eq!(render.len(), 3);
    let mut delays = Vec::new();
    let mut steps = Vec::new();
    loop {
        let step = render.next_step();
        steps.push(step);
        match step {
            Step::Frame(index) => delays.push(render.frame(index).unwrap().delay),
            Step::Complete => break,
            _ => {}
        }
    }
    assert_eq!(
        steps,
        vec![
            Step::Preamble,
            Step::Frame(0),
            Step::Frame(1),
            Step::Frame(2),
            Step::Trailer,
            Step::Complete
        ]
    );
    assert_eq!(delays, vec![Some(500), Some(100), Some(500)]);
}

#[test]
fn an_image_without_frames_has_only_a_frame_around_nothing() {
    let layout = Layout {
        white: None,
        black: None,
        date: None,
        comment: None,
        orientation: Orientation::Black,
        theme: BoardTheme::Moon,
        piece: PieceSet::Pixel,
        coordinates: Coordinates::No,
    };
    let mut render = Render::new(layout, Vec::new());
    assert_eq!(render.layout().theme, BoardTheme::Moon);
    assert_eq!(render.len(), 0);
    assert_eq!(render.next_step(), Step::Preamble);
    assert_eq!(render.next_step(), Step::Trailer);
    assert_eq!(render.next_step(), Step::Complete);
}

#[test]
fn a_refused_request_gives_no_image() {
    let raw = RawBody { comment: text(&"c".repeat(256)), ..one_frame() };
    match Render::animation(&raw) {
        Ok(_) => panic!("accepted"),
        Err(error) => assert_eq!(
            error,
            RequestError { field: Field::Comment, kind: ErrorKind::TooLong, frame: None }
        ),
    }
    let raw = RawParams { comment: text(&"c".repeat(256)), ..RawParams::default() };
    match Render::still(&raw) {
        Ok(_) => panic!("accepted"),
        Err(error) => assert_eq!(
            error,
            RequestError { field: Field::Comment, kind: ErrorKind::TooLong, frame: None }
        ),
    }
}

#[test]
fn an_accepted_request_gives_its_image() {
    let mut render = Render::still(&RawParams::default()).unwrap();
    assert_eq!(render.len(), 1);
    assert_eq!(render.layout().orientation, Orientation::White);
    assert_eq!(render.layout().theme, BoardTheme::Standard);
    assert_eq!(render.layout().piece, PieceSet::Standard);
    assert_eq!(render.layout().coordinates, Coordinates::Yes);
    assert!(render.layout().comment.is_none());
    assert_eq!(render.next_step(), Step::Preamble);
    let mut raw = one_frame();
    raw.delay = Some(500);
    raw.frames.push(RawFrame { delay: Some(100), ..RawFrame::default() });
    raw.frames.push(RawFrame::default());
    raw.white = text("Anna");
    raw.orientation = text("black");
    let render = Render::animation(&raw).unwrap();
    assert_eq!(render.layout().white.as_ref().unwrap().as_str(), "Anna");
    assert_eq!(render.layout().orientation, Orientation::Black);
    let delays: Vec<Option<u16>> =
        (0..3).map(|index| render.frame(index).unwrap().delay).collect();
    assert_eq!(delays, vec![Some(500), Some(100), Some(500)]);
}
