//! Stateless game API for platform shells: a game travels as a snapshot
//! (start FEN, moves played, players, clock) and is rebuilt on each call.
//! The shells encode snapshots and reports as JSON on their side.

use vstd::prelude::*;

use crate::error::Error;
use crate::game::{
    entry_matches, history_ucis, replay_from, side_text, Game, Side, GameStatus, MoveClass, MoveReport,
    PlayerKind, TimeControl,
};
use crate::position::fen_setup;
use crate::rules::{canonical_fen, start_fen_text, legal_uci_list, uci_play, uci_syntax_ok};

verus! {

/// Transport shape of a game: enough to rebuild it by replaying the moves
/// from the start FEN.
#[derive(Debug, Clone)]
pub struct GameSnapshot {
    pub fen: String,
    pub history_uci: Vec<String>,
    pub white_player: PlayerKind,
    pub black_player: PlayerKind,
    pub time_control: Option<TimeControl>,
}

impl GameSnapshot {
    pub open spec fn moves(self) -> Seq<Seq<char>> {
        Seq::new(self.history_uci@.len(), |i: int| self.history_uci@[i]@)
    }
}

/// The FEN and status of the game a snapshot describes, if its FEN reads
/// and every move replays.
pub open spec fn spec_hydrated(s: GameSnapshot) -> Option<(Seq<char>, GameStatus)> {
    if fen_setup(s.fen@) is None {
        None
    } else {
        replay_from(canonical_fen(s.fen@), GameStatus::Ongoing, s.moves(), 0)
    }
}

/// The game rebuilt from a snapshot matches it.
pub open spec fn hydrated_game(s: GameSnapshot, g: Game) -> bool {
    &&& spec_hydrated(s) matches Some((fen, status))
    &&& g.spec_fen() == fen
    &&& g.spec_status() == status
    &&& g.spec_history().len() == s.history_uci@.len()
    &&& forall|i: int|
        0 <= i < s.history_uci@.len() ==> (#[trigger] g.spec_history()[i]).uci@ == s.moves()[i]
    &&& s.history_uci@.len() > 0 ==> g.spec_history()[0].fen_before@ == canonical_fen(s.fen@)
    &&& s.history_uci@.len() == 0 ==> g.spec_fen() == canonical_fen(s.fen@)
    &&& g.spec_time_control() == s.time_control
    &&& g.spec_players() == (s.white_player, s.black_player)
}

/// `s` is the snapshot of `g`: its start FEN (the position the first move
/// was played from, or the current one), the moves played, its clock, and
/// human players.
pub open spec fn snapshot_of(g: Game, s: GameSnapshot) -> bool {
    &&& s.fen@ == (if g.spec_history().len() > 0 {
        g.spec_history()[0].fen_before@
    } else {
        g.spec_fen()
    })
    &&& s.moves() == history_ucis(g.spec_history())
    &&& s.history_uci@.len() == g.spec_history().len()
    &&& s.white_player == PlayerKind::Human
    &&& s.black_player == PlayerKind::Human
    &&& s.time_control == g.spec_time_control()
}

/// A game's snapshot rebuilds, and the rebuilt game is in the same
/// position, with the same moves played and the same clock; a game still
/// on comes back still on.
pub proof fn law_snapshot_round_trip(g: Game, s: GameSnapshot, g2: Game)
    requires
        g.inv(),
        snapshot_of(g, s),
    ensures
        spec_hydrated(s) is Some,
        hydrated_game(s, g2) ==> {
            &&& g2.spec_fen() == g.spec_fen()
            &&& history_ucis(g2.spec_history()) == history_ucis(g.spec_history())
            &&& g2.spec_time_control() == g.spec_time_control()
            &&& g.spec_status() == GameStatus::Ongoing ==> g2.spec_status() == GameStatus::Ongoing
        },
{
    g.lemma_replays();
    assert(s.moves() == history_ucis(g.spec_history()));
    if hydrated_game(s, g2) {
        assert(history_ucis(g2.spec_history()) =~= s.moves());
    }
}

impl GameSnapshot {
    /// The snapshot of a game: its start FEN (the position the first move
    /// was played from, or the current one), the moves played, and its
    /// clock. Players are recorded as human.
    pub fn from_game(game: &Game) -> (r: GameSnapshot)
        ensures
            snapshot_of(*game, r),
    {
        let history = game.history();
        let fen = if history.len() > 0 {
            history[0].fen_before.clone()
        } else {
            game.fen()
        };
        let mut history_uci: Vec<String> = Vec::new();
        let mut i: usize = 0;
        while i < history.len()
            invariant
                i <= history@.len(),
                history@ == game.spec_history(),
                history_uci@.len() == i,
                forall|k: int| 0 <= k < i ==> #[trigger] history_uci@[k]@ == history@[k].uci@,
            decreases history.len() - i,
        {
            history_uci.push(history[i].uci.clone());
            i = i + 1;
        }
        let r = GameSnapshot {
            fen,
            history_uci,
            white_player: PlayerKind::Human,
            black_player: PlayerKind::Human,
            time_control: game.time_control(),
        };
        assert(r.moves() =~= history_ucis(game.spec_history()));
        r
    }

    /// Rebuild the game: read the start FEN, replay every move, then put
    /// the clock back. Refused exactly when the FEN does not read or a move
    /// is refused.
    pub fn hydrate(&self) -> (r: Result<Game, Error>)
        ensures
            r is Ok <==> spec_hydrated(*self) is Some,
            r matches Ok(g) ==> hydrated_game(*self, g),
    {
        let mut g = match Game::from_fen(self.fen.as_str(), self.white_player, self.black_player) {
            Ok(g) => g,
            Err(e) => return Err(e),
        };
        let ghost ucis = self.moves();
        let ghost start = canonical_fen(self.fen@);
        let mut i: usize = 0;
        while i < self.history_uci.len()
            invariant
                i <= self.history_uci@.len(),
                ucis == self.moves(),
                fen_setup(self.fen@) is Some,
                start == canonical_fen(self.fen@),
                replay_from(start, GameStatus::Ongoing, ucis, 0) == replay_from(
                    g.spec_fen(),
                    g.spec_status(),
                    ucis,
                    i as int,
                ),
                g.spec_history().len() == i,
                forall|k: int| 0 <= k < i ==> (#[trigger] g.spec_history()[k]).uci@ == ucis[k],
                i > 0 ==> g.spec_history()[0].fen_before@ == start,
                i == 0 ==> g.spec_fen() == start,
                g.spec_time_control() is None,
                g.spec_players() == (self.white_player, self.black_player),
            decreases self.history_uci.len() - i,
        {
            let ghost before = g;
            match g.apply(self.history_uci[i].as_str()) {
                Ok(_) => {},
                Err(e) => {
                    return Err(e);
                },
            }
            proof {
                assert(g.spec_history().drop_last() == before.spec_history());
                assert forall|k: int| 0 <= k < i + 1 implies (#[trigger] g.spec_history()[k]).uci@
                    == ucis[k] by {
                    if k < i {
                        assert(g.spec_history()[k] == before.spec_history()[k]);
                    }
                }
                if i > 0 {
                    assert(g.spec_history()[0] == before.spec_history()[0]);
                }
            }
            i = i + 1;
        }
        let g = match self.time_control {
            Some(tc) => g.with_time_control(tc),
            None => g,
        };
        Ok(g)
    }
}

/// A fresh standard game, human against human.
pub fn game_new_standard() -> (r: GameSnapshot)
    ensures
        r.fen@ == start_fen_text(),
        fen_setup(r.fen@) is Some,
        r.history_uci@.len() == 0,
        r.white_player == PlayerKind::Human,
        r.black_player == PlayerKind::Human,
        r.time_control is None,
{
    let g = Game::new_standard(PlayerKind::Human, PlayerKind::Human);
    GameSnapshot::from_game(&g)
}

/// A fresh standard game, human against human, on a Fischer clock:
/// `initial_ms` on each side, `increment_ms` added after each move.
pub fn game_new_timed(initial_ms: u64, increment_ms: u64) -> (r: GameSnapshot)
    ensures
        r.fen@ == start_fen_text(),
        fen_setup(r.fen@) is Some,
        r.history_uci@.len() == 0,
        r.white_player == PlayerKind::Human,
        r.black_player == PlayerKind::Human,
        r.time_control == Some(TimeControl::fischer_spec(initial_ms, increment_ms)),
{
    let g = Game::new_standard(PlayerKind::Human, PlayerKind::Human).with_time_control(
        TimeControl::fischer(initial_ms, increment_ms),
    );
    GameSnapshot::from_game(&g)
}

/// Apply a UCI move to a snapshot: the snapshot after the move and the
/// move report; refused with the error text when the snapshot does not
/// rebuild or the move is refused.
pub fn game_apply(game: &GameSnapshot, uci: &str) -> (r: Result<(GameSnapshot, MoveReport), String>)
    ensures
        apply_result(*game, uci@, r),
{
    apply_inner(game, uci, None)
}

/// Apply a UCI move on the clock (`elapsed_ms` is the time the mover
/// spent), as [`Game::apply_timed`] does.
pub fn game_apply_timed(game: &GameSnapshot, uci: &str, elapsed_ms: u64) -> (r: Result<
    (GameSnapshot, MoveReport),
    String,
>)
    ensures
        timed_apply_result(*game, uci@, elapsed_ms, r),
{
    apply_inner(game, uci, Some(elapsed_ms))
}

/// What applying `uci` to a snapshot gives when the snapshot after the move
/// carries the clock `clock`.
pub open spec fn apply_result_with(
    game: GameSnapshot,
    uci: Seq<char>,
    r: Result<(GameSnapshot, MoveReport), String>,
    clock: Option<TimeControl>,
) -> bool {
    match spec_hydrated(game) {
        None => r is Err,
        Some((fen, status)) => if status != GameStatus::Ongoing || !uci_syntax_ok(uci) {
            r is Err
        } else {
            match uci_play(fen, uci) {
                None => r is Err,
                Some((san, after)) => r matches Ok((s, rep)) && {
                    &&& s.fen@ == canonical_fen(game.fen@)
                    &&& s.moves() == game.moves().push(uci)
                    &&& s.time_control == clock
                    &&& s.white_player == PlayerKind::Human
                    &&& s.black_player == PlayerKind::Human
                    &&& entry_matches(rep.entry, san, uci, fen, after)
                    &&& rep.class == MoveClass::Unclassified
                },
            }
        },
    }
}

/// What applying `uci` to a snapshot gives: refused when the snapshot does
/// not rebuild, the game is over, or the move is not UCI or not legal;
/// otherwise the snapshot with the move appended (from its canonical start
/// FEN, with its clock) and the move's report.
pub open spec fn apply_result(
    game: GameSnapshot,
    uci: Seq<char>,
    r: Result<(GameSnapshot, MoveReport), String>,
) -> bool {
    apply_result_with(game, uci, r, game.time_control)
}

/// The side to move in the position of `fen`.
pub open spec fn mover_of(fen: Seq<char>) -> Side {
    Side::spec_from_color(fen_setup(fen).unwrap().turn)
}

/// What applying `uci` on the clock gives: as [`apply_result`] when the game
/// has no clock, is over, or the mover's clock is not set; refused with the
/// flag message when the mover spent more than the time left; otherwise as
/// [`apply_result`] with the mover's clock charged and the increment added.
pub open spec fn timed_apply_result(
    game: GameSnapshot,
    uci: Seq<char>,
    elapsed_ms: u64,
    r: Result<(GameSnapshot, MoveReport), String>,
) -> bool {
    match (spec_hydrated(game), game.time_control) {
        (Some((fen, status)), Some(tc)) => if status == GameStatus::Ongoing && tc.spec_remaining(
            mover_of(fen),
        ) is Some {
            let mover = mover_of(fen);
            let rem = tc.spec_remaining(mover).unwrap();
            if elapsed_ms > rem {
                r matches Err(m) && m@ == "engine error: "@ + ("flag fell: "@ + side_text(mover)
                    + " ran out of time"@)
            } else {
                apply_result_with(game, uci, r, Some(tc.spec_after_move(mover, rem, elapsed_ms)))
            }
        } else {
            apply_result(game, uci, r)
        },
        _ => apply_result(game, uci, r),
    }
}

fn apply_inner(game: &GameSnapshot, uci: &str, elapsed_ms: Option<u64>) -> (r: Result<
    (GameSnapshot, MoveReport),
    String,
>)
    ensures
        elapsed_ms is None ==> apply_result(*game, uci@, r),
        elapsed_ms matches Some(ms) ==> timed_apply_result(*game, uci@, ms, r),
{
    let mut g = match game.hydrate() {
        Ok(g) => g,
        Err(e) => return Err(e.message()),
    };
    proof {
        use_type_invariant(&g);
        g.lemma_replays();
    }
    let ghost g0 = g;
    let report = match elapsed_ms {
        Some(ms) => g.apply_timed(uci, ms),
        None => g.apply(uci),
    };
    let report = match report {
        Ok(rep) => rep,
        Err(e) => {
            let msg = e.message();
            proof {
                assert(spec_hydrated(*game) == Some((g0.spec_fen(), g0.spec_status())));
                assert(mover_of(g0.spec_fen()) == Side::spec_from_color(g0.spec_turn()));
            }
            return Err(msg);
        },
    };
    proof {
        if elapsed_ms is Some {
            if g0.spec_time_control() is Some && g0.spec_status() == GameStatus::Ongoing {
                Game::lemma_with_clock(g, g0.spec_time_control());
            }
        }
        assert(g.spec_history().drop_last() == g0.spec_history());
        assert(g.spec_history().len() == g0.spec_history().len() + 1);
        assert(g.spec_history().len() > 0);
        if g0.spec_history().len() > 0 {
            assert(g.spec_history()[0] == g0.spec_history()[0]);
        }
    }
    let out = GameSnapshot::from_game(&g);
    proof {
        assert(out.moves() =~= game.moves().push(uci@)) by {
            assert forall|k: int| 0 <= k < g0.spec_history().len() implies #[trigger] out.moves()[k]
                == game.moves()[k] by {
                assert(g.spec_history()[k] == g0.spec_history()[k]);
            }
        }
    }
    Ok((out, report))
}

/// The legal moves (UCI) of the game a snapshot describes.
pub fn game_legal_moves(game: &GameSnapshot) -> (r: Result<Vec<String>, String>)
    ensures
        r is Err <==> spec_hydrated(*game) is None,
        r matches Ok(v) ==> spec_hydrated(*game) matches Some((fen, _)) && v@.len()
            == legal_uci_list(fen).len() && forall|i: int|
            0 <= i < v@.len() ==> #[trigger] v@[i]@ == legal_uci_list(fen)[i],
{
    match game.hydrate() {
        Ok(g) => Ok(g.legal_moves()),
        Err(e) => Err(e.message()),
    }
}

} // verus!
