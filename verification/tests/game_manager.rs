use chess_core::error::{MoveError, RequestError};
use chess_core::game::{Color, PieceKind};
use chess_core::game_manager::GameManager;
use chess_core::moves::Position;
use uuid::Uuid;

const FIRST: u128 = 0xa1a2a3a4b1b2c1c2d1d2d3d4d5d6d7d8;
const SECOND: u128 = 0x0000000000000000000000000000002a;

#[test]
fn new_registry_is_empty() {
    let manager = GameManager::new();
    assert!(manager.get_all_games().is_empty());
    assert!(manager.get_game(FIRST).is_none());
    assert!(GameManager::default().get_all_games().is_empty());
}

#[test]
fn new_game_is_registered_under_a_random_uuid() {
    let mut manager = GameManager::new();
    let id = manager.new_game();
    let uuid = Uuid::from_u128(id);
    assert_eq!(uuid.get_version_num(), 4);
    assert_eq!(id & 0xF000_C000_0000_0000_0000, 0x4000_8000_0000_0000_0000);
    let game = manager.get_game(id).unwrap();
    assert_eq!(game.id(), &Some(uuid.to_string()));
    assert_eq!(game.get_move_count(), 0);
    assert_eq!(game.get_current_move(), Color::White);
    assert!(game.created_at() > 1_577_836_800_000);
    let king = game.get_piece_by_position(&Position::new(7, 4)).unwrap();
    assert_eq!(king.kind, PieceKind::King);
    assert_eq!(king.color, Color::White);
    let other = manager.new_game();
    assert!(other != id);
    assert_eq!(manager.get_all_games().len(), 2);
}

#[test]
fn registered_game_carries_the_text_of_its_identifier() {
    let mut manager = GameManager::new();
    manager.register(FIRST, 7);
    let game = manager.get_game(FIRST).unwrap();
    assert_eq!(
        game.id(),
        &Some(String::from("a1a2a3a4-b1b2-c1c2-d1d2-d3d4d5d6d7d8"))
    );
    assert_eq!(game.created_at(), 7);
    manager.register(SECOND, 8);
    assert_eq!(
        manager.get_game(SECOND).unwrap().id(),
        &Some(String::from("00000000-0000-0000-0000-00000000002a"))
    );
}

#[test]
fn registering_again_replaces_the_game() {
    let mut manager = GameManager::new();
    manager.register(FIRST, 1);
    manager
        .move_piece_in(Some(FIRST), &Position::new(6, 0), &Position::new(5, 0))
        .unwrap();
    assert_eq!(manager.get_game(FIRST).unwrap().get_move_count(), 1);
    manager.register(FIRST, 2);
    assert_eq!(manager.get_game(FIRST).unwrap().get_move_count(), 0);
    assert_eq!(manager.get_game(FIRST).unwrap().created_at(), 2);
    assert_eq!(manager.get_all_games().len(), 1);
}

#[test]
fn games_are_listed_in_ascending_order_of_identifier() {
    let mut manager = GameManager::new();
    manager.register(FIRST, 1);
    manager.register(SECOND, 2);
    manager.register(u128::MAX, 3);
    manager.register(0, 4);
    let times: Vec<i64> = manager.get_all_games().iter().map(|game| game.created_at()).collect();
    assert_eq!(times, vec![4, 2, 1, 3]);
}

#[test]
fn deleted_game_is_gone() {
    let mut manager = GameManager::new();
    manager.register(FIRST, 1);
    manager.register(SECOND, 2);
    manager.delete_game(FIRST);
    assert!(manager.get_game(FIRST).is_none());
    assert!(manager.get_game(SECOND).is_some());
    manager.delete_game(FIRST);
    assert_eq!(manager.get_all_games().len(), 1);
}

#[test]
fn games_are_located_by_the_text_of_their_identifier() {
    let mut manager = GameManager::new();
    manager.register(FIRST, 1);
    manager.register(SECOND, 2);
    let (id, game) = manager
        .locate_game_by_id("a1a2a3a4-b1b2-c1c2-d1d2-d3d4d5d6d7d8")
        .unwrap();
    assert_eq!(id, FIRST);
    assert_eq!(game.created_at(), 1);
    let (id, game) = manager
        .locate_game_by_id("0000000000000000000000000000002A")
        .unwrap();
    assert_eq!(id, SECOND);
    assert_eq!(game.created_at(), 2);
    assert_eq!(
        manager.locate_game_by_id("not an identifier").err(),
        Some(RequestError::InvalidGameId)
    );
    assert_eq!(manager.locate_game_by_id("").err(), Some(RequestError::InvalidGameId));
    assert_eq!(
        manager
            .locate_game_by_id("ffffffff-ffff-ffff-ffff-ffffffffffff")
            .err(),
        Some(RequestError::GameNotFound)
    );
    let fresh = manager.new_game();
    let text = Uuid::from_u128(fresh).to_string();
    assert_eq!(manager.locate_game_by_id(&text).unwrap().0, fresh);
}

#[test]
fn located_from_a_parsed_identifier() {
    let mut manager = GameManager::new();
    manager.register(FIRST, 1);
    assert_eq!(manager.locate(Some(FIRST)).unwrap().0, FIRST);
    assert_eq!(manager.locate(None).err(), Some(RequestError::InvalidGameId));
    assert_eq!(manager.locate(Some(SECOND)).err(), Some(RequestError::GameNotFound));
}

#[test]
fn moves_reach_the_named_game_only() {
    let mut manager = GameManager::new();
    manager.register(FIRST, 1);
    manager.register(SECOND, 2);
    let from = Position::new(6, 4);
    let to = Position::new(5, 4);
    assert_eq!(
        manager.move_piece("a1a2a3a4-b1b2-c1c2-d1d2-d3d4d5d6d7d8", &from, &to),
        Ok(())
    );
    let moved = manager.get_game(FIRST).unwrap();
    assert_eq!(moved.get_move_count(), 1);
    assert_eq!(moved.get_current_move(), Color::Black);
    assert_eq!(moved.get_piece_by_position(&to).unwrap().move_count, 1);
    assert!(moved.get_piece_by_position(&from).is_none());
    assert_eq!(moved.created_at(), 1);
    let other = manager.get_game(SECOND).unwrap();
    assert_eq!(other.get_move_count(), 0);
    assert!(other.get_piece_by_position(&from).is_some());
}

#[test]
fn failed_requests_change_nothing() {
    let mut manager = GameManager::new();
    manager.register(FIRST, 1);
    let from = Position::new(6, 4);
    let to = Position::new(5, 4);
    assert_eq!(manager.move_piece("nonsense", &from, &to), Err(RequestError::InvalidGameId));
    assert_eq!(
        manager.move_piece("00000000-0000-0000-0000-00000000002a", &from, &to),
        Err(RequestError::GameNotFound)
    );
    assert_eq!(
        manager.move_piece_in(Some(FIRST), &to, &from),
        Err(RequestError::Move(MoveError::PieceNotFoundError))
    );
    assert_eq!(
        manager.move_piece_in(Some(FIRST), &Position::new(1, 4), &Position::new(2, 4)),
        Err(RequestError::Move(MoveError::OutOfTurnError))
    );
    assert_eq!(
        manager.move_piece_in(Some(FIRST), &from, &Position::new(3, 4)),
        Err(RequestError::Move(MoveError::IllegalMoveError))
    );
    assert_eq!(manager.move_piece_in(None, &from, &to), Err(RequestError::InvalidGameId));
    let game = manager.get_game(FIRST).unwrap();
    assert_eq!(game.get_move_count(), 0);
    assert!(game.get_piece_by_position(&from).is_some());
    assert_eq!(manager.get_all_games().len(), 1);
}

#[test]
fn request_errors_have_status_and_description() {
    assert_eq!(RequestError::InvalidGameId.status(), 400);
    assert_eq!(RequestError::GameNotFound.status(), 404);
    assert_eq!(RequestError::Move(MoveError::IllegalMoveError).status(), 404);
    assert_eq!(RequestError::InvalidGameId.description(), "Invalid game ID");
    assert_eq!(
        RequestError::GameNotFound.description(),
        "No game found for the supplied game ID"
    );
    assert_eq!(
        RequestError::Move(MoveError::OutOfTurnError).description(),
        "cannot move out of turn"
    );
}
