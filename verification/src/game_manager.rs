//! The registry of running games.
use std::collections::BTreeMap;
use vstd::prelude::*;
use vstd::std_specs::btree::{increasing_seq, spec_values_iter};
use vstd::std_specs::cmp::OrdSpec;
use vstd::std_specs::iter::IteratorSpec;

use crate::clock::now_millis;
use crate::error::RequestError;
use crate::game::{is_starting_board, Game, GameView};
use crate::ids::{fresh_id, id_text, id_to_string, is_random_id, parse_id, parsed_id};
use crate::moves::Position;

verus! {

/// Whether `game` is a game that has just been registered under `id`: it
/// carries the text of the identifier, shows the starting arrangement, and
/// has no history.
pub open spec fn is_fresh(game: GameView, id: u128) -> bool {
    &&& game.id == Some(id_text(id))
    &&& is_starting_board(game.board)
    &&& game.moves == Seq::<(Position, Position)>::empty()
    &&& game.counts_bounded()
}

/// Whether the identifiers are in strictly ascending order.
pub open spec fn ascending(ids: Seq<u128>) -> bool {
    forall|i: int, j: int| 0 <= i < j < ids.len() ==> ids[i] < ids[j]
}

/// What a request for a move answers: which error, or that the move was made.
pub open spec fn move_result(
    games: Map<u128, GameView>,
    parsed: Option<u128>,
    from: Position,
    to: Position,
) -> Result<(), RequestError> {
    match parsed {
        None => Err(RequestError::InvalidGameId),
        Some(id) => if !games.contains_key(id) {
            Err(RequestError::GameNotFound)
        } else {
            match games[id].move_error(from, to) {
                Some(error) => Err(RequestError::Move(error)),
                None => Ok(()),
            }
        },
    }
}

/// Whether every game but the one under `id` is in `after` as it is in `before`.
pub open spec fn others_kept(
    before: Map<u128, GameView>,
    after: Map<u128, GameView>,
    id: u128,
) -> bool {
    forall|other: u128|
        other != id && before.contains_key(other) ==> after.contains_key(other) && after[other]
            == before[other]
}

/// Whether `after` is `before` with a new game under `id`, which replaces
/// the game that `id` named before, if it named one.
pub open spec fn registered(
    before: Map<u128, GameView>,
    after: Map<u128, GameView>,
    id: u128,
) -> bool {
    &&& after.dom() == before.dom().insert(id)
    &&& is_fresh(after[id], id)
    &&& others_kept(before, after, id)
}

/// Whether `after` is `before` with the move from `from` to `to` made in the
/// game under `id`.
pub open spec fn moved_in(
    before: Map<u128, GameView>,
    after: Map<u128, GameView>,
    id: u128,
    from: Position,
    to: Position,
) -> bool {
    &&& after.dom() == before.dom()
    &&& before[id].moved_to(after[id], from, to)
    &&& others_kept(before, after, id)
}

/// Whether `games` are the games of the registry under the identifiers
/// `ids`, and `ids` are all its identifiers in ascending order.
pub open spec fn lists(ids: Seq<u128>, games: Seq<&Game>, registry: Map<u128, GameView>) -> bool {
    &&& ascending(ids)
    &&& ids.to_set() == registry.dom()
    &&& ids.len() == games.len()
    &&& forall|i: int| 0 <= i < ids.len() ==> (#[trigger] games[i])@ == registry[ids[i]]
}

/// What looking up a parsed identifier answers: `None` stands for a text
/// that is no identifier.
pub open spec fn located(registry: Map<u128, GameView>, parsed: Option<u128>) -> Result<
    (u128, GameView),
    RequestError,
> {
    match parsed {
        None => Err(RequestError::InvalidGameId),
        Some(id) => if registry.contains_key(id) {
            Ok((id, registry[id]))
        } else {
            Err(RequestError::GameNotFound)
        },
    }
}

/// What a lookup found, with the game by its view.
pub open spec fn found_view(found: Result<(u128, &Game), RequestError>) -> Result<
    (u128, GameView),
    RequestError,
> {
    match found {
        Ok((id, game)) => Ok((id, game@)),
        Err(error) => Err(error),
    }
}

/// A registry of games, each under its identifier.
pub struct GameManager {
    games: BTreeMap<u128, Game>,
}

impl View for GameManager {
    type V = Map<u128, GameView>;

    closed spec fn view(&self) -> Map<u128, GameView> {
        Map::new(|id: u128| self.games@.contains_key(id), |id: u128| self.games@[id]@)
    }
}

impl GameManager {
    /// An empty registry.
    pub fn new() -> (manager: GameManager)
        ensures
            manager@ == Map::<u128, GameView>::empty(),
    {
        let manager = GameManager { games: BTreeMap::new() };
        manager
    }

    /// Registers a new game, created at the given time, under the given
    /// identifier. A game that was registered under it before is replaced.
    pub fn register(&mut self, id: u128, created_at: i64)
        ensures
            registered(old(self)@, final(self)@, id),
            final(self)@[id].created_at == created_at,
    {
        let game = Game::new_at(Some(id_to_string(id)), created_at);
        self.games.insert(id, game);
        assert(final(self)@.dom() =~= old(self)@.dom().insert(id));
    }

    /// The game registered under the identifier, if there is one.
    pub fn get_game(&self, id: u128) -> (found: Option<&Game>)
        ensures
            found is Some <==> self@.contains_key(id),
            found matches Some(game) ==> game@ == self@[id],
    {
        self.games.get(&id)
    }

    /// Removes the game registered under the identifier, if there is one.
    pub fn delete_game(&mut self, id: u128)
        ensures
            final(self)@ == old(self)@.remove(id),
    {
        self.games.remove(&id);
    }

    /// The registered games, in ascending order of their identifiers.
    pub fn get_all_games(&self) -> (games: Vec<&Game>)
        ensures
            exists|ids: Seq<u128>| lists(ids, games@, self@),
    {
        let mut games: Vec<&Game> = Vec::new();
        for game in values: self.games.values()
            invariant
                games@.len() == values.index(),
                forall|i: int| 0 <= i < games@.len() ==> games@[i] == values.seq()[i],
                values.seq() == spec_values_iter(&self.games).remaining(),
        {
            games.push(game);
        }
        // The map hands its values out in the order of their keys.
        assert(games@ =~= spec_values_iter(&self.games).remaining());
        let ghost ids = choose|ids: Seq<u128>|
            {
                &&& increasing_seq(ids)
                &&& ids.to_set() == self.games@.dom()
                &&& ids.no_duplicates()
                &&& games@ == ids.map(|i: int, k: u128| &self.games@[k])
            };
        proof {
            vstd::std_specs::btree::axiom_increasing_seq_meaning::<u128>(ids);
            assert forall|i: int, j: int| 0 <= i < j < ids.len() implies ids[i] < ids[j] by {
                assert(ids[i].cmp_spec(&ids[j]) is Less);
            }
            assert(ids.to_set() == self@.dom());
            assert(lists(ids, games@, self@));
        }
        games
    }

    /// Registers a new game under a new random identifier, and returns the
    /// identifier. Should the identifier be in use, its game is replaced.
    pub fn new_game(&mut self) -> (id: u128)
        ensures
            is_random_id(id),
            registered(old(self)@, final(self)@, id),
            final(self)@[id].created_at >= 0,
    {
        let id = fresh_id();
        let created_at = now_millis();
        self.register(id, created_at);
        id
    }

    /// Finds the game that a parsed identifier names: `None` stands for a
    /// text that is no identifier.
    pub fn locate(&self, parsed: Option<u128>) -> (found: Result<(u128, &Game), RequestError>)
        ensures
            found_view(found) == located(self@, parsed),
    {
        match parsed {
            None => Err(RequestError::InvalidGameId),
            Some(id) => match self.get_game(id) {
                Some(game) => Ok((id, game)),
                None => Err(RequestError::GameNotFound),
            },
        }
    }

    /// Finds the game that the text of an identifier names.
    pub fn locate_game_by_id(&self, id: &str) -> (found: Result<(u128, &Game), RequestError>)
        ensures
            found_view(found) == located(self@, parsed_id(id@)),
    {
        let parsed = match parse_id(id) {
            Ok(id) => Some(id),
            Err(_) => None,
        };
        self.locate(parsed)
    }

    /// Attempts a move in the game that a parsed identifier names: `None`
    /// stands for a text that is no identifier. Unless the move is accepted,
    /// the registry is unchanged.
    pub fn move_piece_in(
        &mut self,
        parsed: Option<u128>,
        position: &Position,
        new_position: &Position,
    ) -> (done: Result<(), RequestError>)
        requires
            position.wf(),
            new_position.wf(),
        ensures
            done == move_result(old(self)@, parsed, *position, *new_position),
            done is Err ==> final(self)@ == old(self)@,
            done is Ok ==> moved_in(
                old(self)@,
                final(self)@,
                parsed.unwrap(),
                *position,
                *new_position,
            ),
    {
        let id = match parsed {
            None => {
                return Err(RequestError::InvalidGameId);
            },
            Some(id) => id,
        };
        let mut game = match self.games.remove(&id) {
            None => {
                return Err(RequestError::GameNotFound);
            },
            Some(game) => game,
        };
        let done = game.move_piece_at_position(position, new_position);
        self.games.insert(id, game);
        match done {
            Ok(()) => {
                Ok(())
            },
            Err(error) => {
                Err(RequestError::Move(error))
            },
        }
    }

    /// Attempts a move in the game that the text of an identifier names.
    /// Unless the move is accepted, the registry is unchanged.
    pub fn move_piece(
        &mut self,
        game_id: &str,
        position: &Position,
        new_position: &Position,
    ) -> (done: Result<(), RequestError>)
        requires
            position.wf(),
            new_position.wf(),
        ensures
            done == move_result(old(self)@, parsed_id(game_id@), *position, *new_position),
            done is Err ==> final(self)@ == old(self)@,
            done is Ok ==> moved_in(
                old(self)@,
                final(self)@,
                parsed_id(game_id@).unwrap(),
                *position,
                *new_position,
            ),
    {
        let parsed = match parse_id(game_id) {
            Ok(id) => Some(id),
            Err(_) => None,
        };
        self.move_piece_in(parsed, position, new_position)
    }
}

impl Default for GameManager {
    /// An empty registry.
    fn default() -> (manager: GameManager)
        ensures
            manager@ == Map::<u128, GameView>::empty(),
    {
        GameManager::new()
    }
}

} // verus!
