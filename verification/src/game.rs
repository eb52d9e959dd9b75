//! Live game state: the current position, the move history, the players,
//! the game status and an optional Fischer clock.
//!
//! Play loop: the UI asks `legal_moves()` to highlight, applies the user's
//! move with [`Game::apply`] (or [`Game::apply_timed`] on a clock), and
//! receives a [`MoveReport`] with the history entry of the move.

use vstd::prelude::*;

use crate::error::Error;
use crate::position::{fen_setup, Color, Position};
use crate::rules::{
    canonical_fen, check_uci_syntax, insufficient_material_of, is_insufficient_material,
    is_stalemate, legal_san_list, legal_sans, legal_uci_list, legal_ucis, normalize_fen,
    outcome, outcome_of, play_uci, san_move, san_to_uci, stalemate_of, start_fen, start_fen_text, uci_play,
    uci_syntax_ok,
};
use crate::text::{debug_quoted, debug_text, push_str};
use crate::{PositionAnalysis, ANALYSIS_SCHEMA_VERSION};

verus! {

/// Who controls a given colour.
#[derive(Debug, Clone, Copy, PartialEq, Eq, Structural)]
pub enum PlayerKind {
    Human,
    Bot,
    Remote,
}

#[derive(Debug, Clone, Copy, PartialEq, Eq, Structural)]
pub enum Side {
    White,
    Black,
}

impl Side {
    pub open spec fn spec_from_color(c: Color) -> Side {
        match c {
            Color::White => Side::White,
            Color::Black => Side::Black,
        }
    }

    #[verifier::when_used_as_spec(spec_from_color)]
    pub fn from_color(c: Color) -> (r: Side)
        ensures
            r == Self::spec_from_color(c),
    {
        match c {
            Color::White => Side::White,
            Color::Black => Side::Black,
        }
    }

    pub open spec fn spec_opponent(self) -> Side {
        match self {
            Side::White => Side::Black,
            Side::Black => Side::White,
        }
    }

    #[verifier::when_used_as_spec(spec_opponent)]
    pub fn opponent(self) -> (r: Side)
        ensures
            r == self.spec_opponent(),
    {
        match self {
            Side::White => Side::Black,
            Side::Black => Side::White,
        }
    }
}

/// Coarse classification of a move, shown as a one-line tag.
#[derive(Debug, Clone, Copy, PartialEq, Eq, Structural)]
pub enum MoveClass {
    Best,
    Excellent,
    Good,
    Inaccuracy,
    Mistake,
    Blunder,
    Book,
    Forced,
    Unclassified,
}

/// Single entry in the move list.
#[derive(Debug, Clone)]
pub struct HistoryEntry {
    pub san: String,
    pub uci: String,
    pub fen_before: String,
    pub fen_after: String,
    pub class: MoveClass,
}

/// What [`Game::apply`] returns: the history entry plus the tag line and
/// the deep dive, which are filled in by later analysis stages.
#[derive(Debug, Clone)]
pub struct MoveReport {
    pub entry: HistoryEntry,
    pub class: MoveClass,
    pub tagline: String,
    pub deep_dive: Option<DeepDive>,
}

/// Full context for "here's what you should have seen".
#[derive(Debug, Clone)]
pub struct DeepDive {
    pub pre_move_analysis: PositionAnalysis,
    pub played_uci: String,
    pub best_uci: Option<String>,
    /// The missed idea in one prioritised sentence.
    pub missed_idea: Option<String>,
}

#[derive(Debug, Clone, Copy, PartialEq, Eq, Structural)]
pub enum GameStatus {
    Ongoing,
    Checkmate { winner: Side },
    Stalemate,
    InsufficientMaterial,
    FiftyMoveRule,
    ThreefoldRepetition,
    Resigned { winner: Side },
    DrawAgreed,
    TimedOut { winner: Side },
}

/// Fischer clock: the initial time, the increment added after each
/// completed move, and what each side has left, in milliseconds.
#[derive(Debug, Clone, Copy, PartialEq, Eq, Structural)]
pub struct TimeControl {
    pub initial_ms: Option<u64>,
    pub increment_ms: Option<u64>,
    pub white_remaining_ms: Option<u64>,
    pub black_remaining_ms: Option<u64>,
}

impl Default for TimeControl {
    fn default() -> (r: TimeControl)
        ensures
            r == (TimeControl {
                initial_ms: None,
                increment_ms: None,
                white_remaining_ms: None,
                black_remaining_ms: None,
            }),
    {
        TimeControl {
            initial_ms: None,
            increment_ms: None,
            white_remaining_ms: None,
            black_remaining_ms: None,
        }
    }
}

impl TimeControl {
    pub open spec fn fischer_spec(initial_ms: u64, increment_ms: u64) -> TimeControl {
        TimeControl {
            initial_ms: Some(initial_ms),
            increment_ms: Some(increment_ms),
            white_remaining_ms: Some(initial_ms),
            black_remaining_ms: Some(initial_ms),
        }
    }

    /// A Fischer clock: `initial_ms` on each side, `increment_ms` added
    /// after each completed move.
    pub fn fischer(initial_ms: u64, increment_ms: u64) -> (r: TimeControl)
        ensures
            r == Self::fischer_spec(initial_ms, increment_ms),
    {
        TimeControl {
            initial_ms: Some(initial_ms),
            increment_ms: Some(increment_ms),
            white_remaining_ms: Some(initial_ms),
            black_remaining_ms: Some(initial_ms),
        }
    }

    pub open spec fn spec_remaining(self, side: Side) -> Option<u64> {
        match side {
            Side::White => self.white_remaining_ms,
            Side::Black => self.black_remaining_ms,
        }
    }

    /// The clock after `side` completes a move that took `elapsed_ms` of
    /// its `remaining` time: the time spent is taken off and the increment
    /// added (capped at `u64::MAX`).
    pub open spec fn spec_after_move(self, side: Side, remaining: u64, elapsed_ms: u64) -> TimeControl {
        let inc: int = match self.increment_ms {
            Some(i) => i as int,
            None => 0,
        };
        let left = remaining - elapsed_ms + inc;
        let left = if left > u64::MAX {
            u64::MAX
        } else {
            left as u64
        };
        match side {
            Side::White => TimeControl { white_remaining_ms: Some(left), ..self },
            Side::Black => TimeControl { black_remaining_ms: Some(left), ..self },
        }
    }
}

/// Debug text of a side.
pub open spec fn side_text(s: Side) -> Seq<char> {
    match s {
        Side::White => "White"@,
        Side::Black => "Black"@,
    }
}

/// Debug text of a status, as `{:?}` writes it.
pub open spec fn status_text(s: GameStatus) -> Seq<char> {
    match s {
        GameStatus::Ongoing => "Ongoing"@,
        GameStatus::Checkmate { winner } => "Checkmate { winner: "@ + side_text(winner) + " }"@,
        GameStatus::Stalemate => "Stalemate"@,
        GameStatus::InsufficientMaterial => "InsufficientMaterial"@,
        GameStatus::FiftyMoveRule => "FiftyMoveRule"@,
        GameStatus::ThreefoldRepetition => "ThreefoldRepetition"@,
        GameStatus::Resigned { winner } => "Resigned { winner: "@ + side_text(winner) + " }"@,
        GameStatus::DrawAgreed => "DrawAgreed"@,
        GameStatus::TimedOut { winner } => "TimedOut { winner: "@ + side_text(winner) + " }"@,
    }
}

fn push_side_text(out: &mut String, s: Side)
    ensures
        final(out)@ == old(out)@ + side_text(s),
{
    match s {
        Side::White => push_str(out, "White"),
        Side::Black => push_str(out, "Black"),
    }
}

/// Append the debug text of a status.
pub fn push_status_text(out: &mut String, s: GameStatus)
    ensures
        final(out)@ == old(out)@ + status_text(s),
{
    match s {
        GameStatus::Ongoing => push_str(out, "Ongoing"),
        GameStatus::Checkmate { winner } => {
            push_str(out, "Checkmate { winner: ");
            push_side_text(out, winner);
            push_str(out, " }");
            assert(out@ =~= old(out)@ + status_text(s));
        },
        GameStatus::Stalemate => push_str(out, "Stalemate"),
        GameStatus::InsufficientMaterial => push_str(out, "InsufficientMaterial"),
        GameStatus::FiftyMoveRule => push_str(out, "FiftyMoveRule"),
        GameStatus::ThreefoldRepetition => push_str(out, "ThreefoldRepetition"),
        GameStatus::Resigned { winner } => {
            push_str(out, "Resigned { winner: ");
            push_side_text(out, winner);
            push_str(out, " }");
            assert(out@ =~= old(out)@ + status_text(s));
        },
        GameStatus::DrawAgreed => push_str(out, "DrawAgreed"),
        GameStatus::TimedOut { winner } => {
            push_str(out, "TimedOut { winner: ");
            push_side_text(out, winner);
            push_str(out, " }");
            assert(out@ =~= old(out)@ + status_text(s));
        },
    }
}

/// The status a game has in the position of `fen` after a move: checkmate
/// when a side has won; stalemate or insufficient material for those
/// draws; any other drawn outcome is recorded as agreed (the position
/// alone does not tell fifty-move from repetition); otherwise ongoing.
pub open spec fn status_for(fen: Seq<char>) -> GameStatus {
    match outcome_of(fen) {
        Some(Some(w)) => GameStatus::Checkmate { winner: Side::spec_from_color(w) },
        Some(None) => if stalemate_of(fen) {
            GameStatus::Stalemate
        } else if insufficient_material_of(fen) {
            GameStatus::InsufficientMaterial
        } else {
            GameStatus::DrawAgreed
        },
        None => GameStatus::Ongoing,
    }
}

/// The history entry of a move played from `fen_before`.
pub open spec fn entry_matches(
    e: HistoryEntry,
    san: Seq<char>,
    uci: Seq<char>,
    fen_before: Seq<char>,
    fen_after: Seq<char>,
) -> bool {
    &&& e.san@ == san
    &&& e.uci@ == uci
    &&& e.fen_before@ == fen_before
    &&& e.fen_after@ == fen_after
    &&& e.class == MoveClass::Unclassified
}

/// The moves of a history were played one after the other: each is a
/// legal UCI move of the position it was played from, giving the position
/// the next one was played from, and the game went on after each but the
/// last.
pub open spec fn history_chain(h: Seq<HistoryEntry>) -> bool {
    &&& forall|i: int|
        0 <= i < h.len() ==> uci_syntax_ok(#[trigger] h[i].uci@) && uci_play(h[i].fen_before@, h[i].uci@)
            == Some((h[i].san@, h[i].fen_after@))
    &&& forall|i: int|
        0 <= i < h.len() - 1 ==> (#[trigger] h[i].fen_after@) == h[i + 1].fen_before@ && status_for(
            h[i].fen_after@,
        ) == GameStatus::Ongoing
}

/// The UCI texts of a history's moves, in order.
pub open spec fn history_ucis(h: Seq<HistoryEntry>) -> Seq<Seq<char>> {
    Seq::new(h.len(), |i: int| h[i].uci@)
}

/// Replaying the moves `ucis[i..]` from the position of `fen` in a game
/// whose status is `status`: the final FEN and status, or `None` as soon
/// as a move is refused (game over, not UCI, or illegal).
pub open spec fn replay_from(
    fen: Seq<char>,
    status: GameStatus,
    ucis: Seq<Seq<char>>,
    i: int,
) -> Option<(Seq<char>, GameStatus)>
    decreases ucis.len() - i,
{
    if i < 0 || i >= ucis.len() {
        Some((fen, status))
    } else if status != GameStatus::Ongoing || !uci_syntax_ok(ucis[i]) {
        None
    } else {
        match uci_play(fen, ucis[i]) {
            None => None,
            Some((_, after)) => replay_from(after, status_for(after), ucis, i + 1),
        }
    }
}

/// Replaying a chained history from the position its `k`-th move was
/// played from plays every move from there on and ends where it ends.
proof fn lemma_replay_chain(h: Seq<HistoryEntry>, k: int)
    requires
        history_chain(h),
        0 <= k < h.len(),
    ensures
        replay_from(h[k].fen_before@, GameStatus::Ongoing, history_ucis(h), k) == Some(
            (h.last().fen_after@, status_for(h.last().fen_after@)),
        ),
    decreases h.len() - k,
{
    let ucis = history_ucis(h);
    assert(ucis[k] == h[k].uci@);
    assert(uci_syntax_ok(h[k].uci@));
    if k + 1 < h.len() {
        assert(h[k].fen_after@ == h[k + 1].fen_before@);
        lemma_replay_chain(h, k + 1);
    }
}

pub struct Game {
    position: Position,
    history: Vec<HistoryEntry>,
    white_player: PlayerKind,
    black_player: PlayerKind,
    status: GameStatus,
    time_control: Option<TimeControl>,
}

impl Game {
    /// What every game keeps: the history is a chain of legal moves from
    /// readable, canonical FENs that ends in the current position, and a
    /// game still on after a move is in a position where play goes on.
    #[verifier::type_invariant]
    pub closed spec fn inv(self) -> bool {
        &&& fen_setup(self.position.fen_text()) == Some(self.position.spec_setup())
        &&& forall|i: int|
            0 <= i < self.history@.len() ==> fen_setup(#[trigger] self.history@[i].fen_before@) is Some
                && canonical_fen(self.history@[i].fen_before@) == self.history@[i].fen_before@
        &&& canonical_fen(self.position.fen_text()) == self.position.fen_text()
        &&& history_chain(self.history@)
        &&& self.history@.len() > 0 ==> self.history@.last().fen_after@ == self.position.fen_text()
        &&& self.history@.len() > 0 && self.status == GameStatus::Ongoing ==> status_for(
            self.position.fen_text(),
        ) == GameStatus::Ongoing
    }

    /// FEN of the current position.
    pub closed spec fn spec_fen(self) -> Seq<char> {
        self.position.fen_text()
    }

    pub closed spec fn spec_position(self) -> Position {
        self.position
    }

    pub closed spec fn spec_history(self) -> Seq<HistoryEntry> {
        self.history@
    }

    pub closed spec fn spec_status(self) -> GameStatus {
        self.status
    }

    pub closed spec fn spec_time_control(self) -> Option<TimeControl> {
        self.time_control
    }

    pub closed spec fn spec_players(self) -> (PlayerKind, PlayerKind) {
        (self.white_player, self.black_player)
    }

    pub open spec fn spec_turn(self) -> Color {
        self.spec_position().spec_setup().turn
    }

    /// A game's moves replay from the position the first was played from
    /// (or, with none played, from the current one) to the current
    /// position, and that start FEN reads and is written as `shakmaty`
    /// writes it back; a game still on after a move is in a position where
    /// play goes on.
    pub proof fn lemma_replays(self)
        requires
            self.inv(),
        ensures
            fen_setup(self.spec_fen()) == Some(self.spec_position().spec_setup()),
            canonical_fen(self.spec_fen()) == self.spec_fen(),
            self.spec_history().len() > 0 && self.spec_status() == GameStatus::Ongoing
                ==> status_for(self.spec_fen()) == GameStatus::Ongoing,
            self.spec_history().len() > 0 ==> {
                let h = self.spec_history();
                &&& fen_setup(h[0].fen_before@) is Some
                &&& canonical_fen(h[0].fen_before@) == h[0].fen_before@
                &&& replay_from(h[0].fen_before@, GameStatus::Ongoing, history_ucis(h), 0) == Some(
                    (self.spec_fen(), status_for(self.spec_fen())),
                )
            },
    {
        if self.history@.len() > 0 {
            let h = self.history@;
            assert(fen_setup(h[0].fen_before@) is Some);
            lemma_replay_chain(h, 0);
        }
    }

    /// A fresh game from the standard starting position.
    pub fn new_standard(white_player: PlayerKind, black_player: PlayerKind) -> (r: Game)
        ensures
            r.spec_history().len() == 0,
            r.spec_status() == GameStatus::Ongoing,
            r.spec_time_control() is None,
            r.spec_players() == (white_player, black_player),
            r.spec_fen() == start_fen_text(),
            fen_setup(r.spec_fen()) is Some,
    {
        let fen = start_fen();
        let position = match Position::from_fen(fen.as_str()) {
            Ok(p) => p,
            Err(_) => vstd::pervasive::unreached(),
        };
        Game {
            position,
            history: Vec::new(),
            white_player,
            black_player,
            status: GameStatus::Ongoing,
            time_control: None,
        }
    }

    /// A fresh game from a FEN, refused exactly when the text is not the
    /// FEN of a legal position. The game keeps the FEN as `shakmaty`
    /// writes it back.
    pub fn from_fen(fen: &str, white: PlayerKind, black: PlayerKind) -> (r: Result<Game, Error>)
        ensures
            r is Err <==> fen_setup(fen@) is None,
            r matches Err(e) ==> e is InvalidFen,
            r matches Ok(g) ==> {
                &&& g.spec_fen() == canonical_fen(fen@)
                &&& g.spec_history().len() == 0
                &&& g.spec_status() == GameStatus::Ongoing
                &&& g.spec_time_control() is None
                &&& g.spec_players() == (white, black)
            },
    {
        let canonical = match normalize_fen(fen) {
            Ok(s) => s,
            Err(e) => return Err(Error::InvalidFen(e)),
        };
        let position = match Position::from_fen(canonical.as_str()) {
            Ok(p) => p,
            Err(_) => vstd::pervasive::unreached(),
        };
        Ok(
            Game {
                position,
                history: Vec::new(),
                white_player: white,
                black_player: black,
                status: GameStatus::Ongoing,
                time_control: None,
            },
        )
    }

    /// The same game on a clock.
    pub fn with_time_control(self, tc: TimeControl) -> (r: Game)
        ensures
            r.spec_time_control() == Some(tc),
            r.spec_fen() == self.spec_fen(),
            r.spec_position() == self.spec_position(),
            r.spec_history() == self.spec_history(),
            r.spec_status() == self.spec_status(),
            r.spec_players() == self.spec_players(),
    {
        proof {
            use_type_invariant(&self);
        }
        Game { time_control: Some(tc), ..self }
    }

    pub fn has_time_control(&self) -> (r: bool)
        ensures
            r == self.spec_time_control() is Some,
    {
        self.time_control.is_some()
    }

    /// Time left on `side`'s clock, if the game has one.
    pub fn remaining_ms(&self, side: Side) -> (r: Option<u64>)
        ensures
            r == (match self.spec_time_control() {
                Some(tc) => tc.spec_remaining(side),
                None => None,
            }),
    {
        match &self.time_control {
            Some(tc) => match side {
                Side::White => tc.white_remaining_ms,
                Side::Black => tc.black_remaining_ms,
            },
            None => None,
        }
    }

    pub fn side_to_move(&self) -> (r: Side)
        ensures
            r == Side::spec_from_color(self.spec_turn()),
    {
        Side::from_color(self.position.setup().turn)
    }

    pub fn player_to_move(&self) -> (r: PlayerKind)
        ensures
            r == (match self.spec_turn() {
                Color::White => self.spec_players().0,
                Color::Black => self.spec_players().1,
            }),
    {
        match self.position.setup().turn {
            Color::White => self.white_player,
            Color::Black => self.black_player,
        }
    }

    pub fn status(&self) -> (r: GameStatus)
        ensures
            r == self.spec_status(),
    {
        self.status
    }

    pub fn history(&self) -> (r: &[HistoryEntry])
        ensures
            r@ == self.spec_history(),
    {
        self.history.as_slice()
    }

    pub fn time_control(&self) -> (r: Option<TimeControl>)
        ensures
            r == self.spec_time_control(),
    {
        self.time_control
    }

    /// The current position.
    pub fn position(&self) -> (r: &Position)
        ensures
            *r == self.spec_position(),
    {
        &self.position
    }

    /// FEN of the current position.
    pub fn fen(&self) -> (r: String)
        ensures
            r@ == self.spec_fen(),
            fen_setup(r@) is Some,
    {
        self.position.fen().to_owned()
    }

    /// All legal moves as UCI texts.
    pub fn legal_moves(&self) -> (r: Vec<String>)
        ensures
            r@.len() == legal_uci_list(self.spec_fen()).len(),
            forall|i: int|
                0 <= i < r@.len() ==> #[trigger] r@[i]@ == legal_uci_list(self.spec_fen())[i],
    {
        legal_ucis(self.position.fen())
    }

    /// All legal moves as SAN texts.
    pub fn legal_moves_san(&self) -> (r: Vec<String>)
        ensures
            r@.len() == legal_san_list(self.spec_fen()).len(),
            forall|i: int|
                0 <= i < r@.len() ==> #[trigger] r@[i]@ == legal_san_list(self.spec_fen())[i],
    {
        legal_sans(self.position.fen())
    }

    /// Read a user's move, SAN first (`e4`, `Nf3`, `O-O`) then UCI
    /// (`e2e4`), as the UCI text of a legal move.
    pub fn parse_move(&self, input: &str) -> (r: Result<String, String>)
        ensures
            match r {
                Ok(u) => san_move(self.spec_fen(), input@) == Some(u@) || (san_move(
                    self.spec_fen(),
                    input@,
                ) is None && legal_uci_list(self.spec_fen()).contains(input@) && u@ == input@),
                Err(e) => san_move(self.spec_fen(), input@) is None && !legal_uci_list(
                    self.spec_fen(),
                ).contains(input@) && e@ == "not a legal move in SAN or UCI: "@ + debug_text(
                    input@,
                ),
            },
    {
        if let Some(u) = san_to_uci(self.position.fen(), input) {
            return Ok(u);
        }
        let legal = legal_ucis(self.position.fen());
        let wanted = input.to_owned();
        let ghost list = legal_uci_list(self.spec_fen());
        let mut i: usize = 0;
        while i < legal.len()
            invariant
                i <= legal@.len(),
                wanted@ == input@,
                list == legal_uci_list(self.spec_fen()),
                san_move(self.spec_fen(), input@) is None,
                legal@.len() == list.len(),
                forall|k: int| 0 <= k < legal@.len() ==> #[trigger] legal@[k]@ == list[k],
                forall|k: int| 0 <= k < i ==> list[k] != input@,
            decreases legal.len() - i,
        {
            if legal[i] == wanted {
                assert(list[i as int] == input@);
                assert(list.contains(input@));
                return Ok(input.to_owned());
            }
            i = i + 1;
        }
        let mut e = String::new();
        push_str(&mut e, "not a legal move in SAN or UCI: ");
        let q = debug_quoted(input);
        push_str(&mut e, q.as_str());
        Err(e)
    }

    /// Apply a move given as UCI (e.g. "e2e4", "e7e8q"). Refused, with the
    /// game unchanged, when the game is over, when the text is not UCI, or
    /// when the move is not legal; otherwise the move is played, recorded
    /// in the history and the status follows the new position.
    pub fn apply(&mut self, uci: &str) -> (r: Result<MoveReport, Error>)
        ensures
            Self::apply_outcome(*old(self), *final(self), uci@, r),
    {
        if !matches!(self.status, GameStatus::Ongoing) {
            let mut msg = String::new();
            push_str(&mut msg, "cannot apply move — game status is ");
            push_status_text(&mut msg, self.status);
            return Err(Error::Engine(msg));
        }
        let fen_before = self.fen();
        if let Err(e) = check_uci_syntax(uci) {
            let mut msg = String::new();
            push_str(&mut msg, "bad UCI ");
            push_str(&mut msg, uci);
            push_str(&mut msg, ": ");
            push_str(&mut msg, e.as_str());
            return Err(Error::InvalidFen(msg));
        }
        let (san, fen_after) = match play_uci(fen_before.as_str(), uci) {
            Ok(p) => p,
            Err(e) => {
                let mut msg = String::new();
                push_str(&mut msg, "illegal move ");
                push_str(&mut msg, uci);
                push_str(&mut msg, ": ");
                push_str(&mut msg, e.as_str());
                return Err(Error::InvalidFen(msg));
            },
        };
        let position = match Position::from_fen(fen_after.as_str()) {
            Ok(p) => p,
            Err(_) => vstd::pervasive::unreached(),
        };
        let status = Self::status_after(fen_after.as_str());
        let entry = HistoryEntry {
            san: san.clone(),
            uci: uci.to_owned(),
            fen_before: fen_before.clone(),
            fen_after: fen_after.clone(),
            class: MoveClass::Unclassified,
        };
        let recorded = HistoryEntry {
            san,
            uci: uci.to_owned(),
            fen_before,
            fen_after,
            class: MoveClass::Unclassified,
        };
        proof {
            use_type_invariant(&*self);
        }
        let ghost recorded_view = recorded;
        assert(recorded.fen_before@ == old(self).spec_fen());
        let mut history: Vec<HistoryEntry> = Vec::new();
        std::mem::swap(&mut history, &mut self.history);
        history.push(recorded);
        self.position = position;
        self.status = status;
        proof {
            let h = history@;
            let n = h.len() - 1;
            assert(h.drop_last() =~= old(self).history@);
            assert forall|i: int| 0 <= i < h.len() implies uci_syntax_ok(#[trigger] h[i].uci@)
                && uci_play(h[i].fen_before@, h[i].uci@) == Some((h[i].san@, h[i].fen_after@)) by {
                if i < n {
                    assert(h[i] == old(self).history@[i]);
                }
            }
            assert forall|i: int| 0 <= i < h.len() - 1 implies (#[trigger] h[i].fen_after@)
                == h[i + 1].fen_before@ && status_for(h[i].fen_after@) == GameStatus::Ongoing by {
                let o = old(self).history@;
                assert(h[i] == o[i]);
                assert(history_chain(o));
                if i + 1 < n {
                    assert(h[i + 1] == o[i + 1]);
                    assert(o[i].fen_after@ == o[i + 1].fen_before@);
                    assert(status_for(o[i].fen_after@) == GameStatus::Ongoing);
                } else {
                    assert(i == n - 1);
                    assert(o.last() == o[i]);
                    assert(h[i + 1] == recorded_view);
                    assert(o[i].fen_after@ == old(self).spec_fen());
                    assert(status_for(old(self).spec_fen()) == GameStatus::Ongoing);
                }
            }
        }
        self.history = history;
        assert(self.history@.drop_last() =~= old(self).history@);
        Ok(MoveReport { entry, class: MoveClass::Unclassified, tagline: String::new(), deep_dive: None })
    }

    /// How `apply` of `uci` relates the game before and after and what it
    /// returns.
    pub open spec fn apply_outcome(
        before: Game,
        after: Game,
        uci: Seq<char>,
        r: Result<MoveReport, Error>,
    ) -> bool {
        if before.spec_status() != GameStatus::Ongoing {
            &&& after == before
            &&& r matches Err(Error::Engine(m)) && m@ == "cannot apply move — game status is "@
                + status_text(before.spec_status())
        } else if !uci_syntax_ok(uci) {
            &&& after == before
            &&& r matches Err(Error::InvalidFen(m)) && exists|t: Seq<char>|
                m@ == "bad UCI "@ + uci + ": "@ + t
        } else {
            match uci_play(before.spec_fen(), uci) {
                None => {
                    &&& after == before
                    &&& r matches Err(Error::InvalidFen(m)) && exists|t: Seq<char>|
                        m@ == "illegal move "@ + uci + ": "@ + t
                },
                Some((san, fen_after)) => {
                    &&& Self::applied(before, after, uci, san, fen_after)
                    &&& r matches Ok(rep) && entry_matches(
                        rep.entry,
                        san,
                        uci,
                        before.spec_fen(),
                        fen_after,
                    ) && rep.class == MoveClass::Unclassified && rep.tagline@.len() == 0
                        && rep.deep_dive is None
                },
            }
        }
    }

    /// `after` is `before` with the move `uci` (SAN `san`) played into the
    /// position of `fen_after`.
    pub open spec fn applied(
        before: Game,
        after: Game,
        uci: Seq<char>,
        san: Seq<char>,
        fen_after: Seq<char>,
    ) -> bool {
        &&& after.spec_fen() == fen_after
        &&& after.spec_history().len() == before.spec_history().len() + 1
        &&& after.spec_history().drop_last() == before.spec_history()
        &&& entry_matches(after.spec_history().last(), san, uci, before.spec_fen(), fen_after)
        &&& after.spec_status() == status_for(fen_after)
        &&& after.spec_time_control() == before.spec_time_control()
        &&& after.spec_players() == before.spec_players()
    }

    /// Pop the last move: the position goes back to the one it was played
    /// from and the game is ongoing again. `None`, with the game unchanged,
    /// when no move was played.
    pub fn undo(&mut self) -> (r: Option<HistoryEntry>)
        ensures
            Self::undo_outcome(*old(self), *final(self), r),
    {
        proof {
            use_type_invariant(&*self);
        }
        if self.history.len() == 0 {
            return None;
        }
        let mut history: Vec<HistoryEntry> = Vec::new();
        std::mem::swap(&mut history, &mut self.history);
        let popped = match history.pop() {
            Some(e) => e,
            None => vstd::pervasive::unreached(),
        };
        let ghost n = old(self).history@.len() - 1;
        assert(popped == old(self).history@[n]);
        assert(history@ =~= old(self).history@.drop_last());
        let position = match Position::from_fen(popped.fen_before.as_str()) {
            Ok(p) => p,
            Err(_) => vstd::pervasive::unreached(),
        };
        self.position = position;
        self.status = GameStatus::Ongoing;
        proof {
            let h = history@;
            let o = old(self).history@;
            assert forall|i: int| 0 <= i < h.len() implies uci_syntax_ok(#[trigger] h[i].uci@)
                && uci_play(h[i].fen_before@, h[i].uci@) == Some((h[i].san@, h[i].fen_after@)) by {
                assert(h[i] == o[i]);
            }
            assert forall|i: int| 0 <= i < h.len() - 1 implies (#[trigger] h[i].fen_after@)
                == h[i + 1].fen_before@ && status_for(h[i].fen_after@) == GameStatus::Ongoing by {
                assert(h[i] == o[i]);
                assert(h[i + 1] == o[i + 1]);
            }
            assert forall|i: int| 0 <= i < h.len() implies fen_setup(#[trigger] h[i].fen_before@)
                is Some && canonical_fen(h[i].fen_before@) == h[i].fen_before@ by {
                assert(h[i] == o[i]);
            }
            if h.len() > 0 {
                assert(h.last() == o[n - 1]);
                assert(o[n - 1].fen_after@ == o[n].fen_before@);
            }
        }
        self.history = history;
        Some(popped)
    }

    /// How `undo` relates the game before and after and what it returns.
    pub open spec fn undo_outcome(before: Game, after: Game, r: Option<HistoryEntry>) -> bool {
        if before.spec_history().len() == 0 {
            after == before && r is None
        } else {
            &&& r == Some(before.spec_history().last())
            &&& after.spec_history() == before.spec_history().drop_last()
            &&& after.spec_fen() == before.spec_history().last().fen_before@
            &&& after.spec_status() == GameStatus::Ongoing
            &&& after.spec_time_control() == before.spec_time_control()
            &&& after.spec_players() == before.spec_players()
        }
    }

    /// `side` resigns: the other side wins.
    pub fn resign(&mut self, side: Side)
        ensures
            final(self).spec_status() == (GameStatus::Resigned { winner: side.spec_opponent() }),
            final(self).spec_fen() == old(self).spec_fen(),
            final(self).spec_history() == old(self).spec_history(),
            final(self).spec_time_control() == old(self).spec_time_control(),
            final(self).spec_players() == old(self).spec_players(),
    {
        proof {
            use_type_invariant(&*self);
        }
        let winner = side.opponent();
        self.status = GameStatus::Resigned { winner };
    }

    /// Both sides agree to a draw.
    pub fn agree_draw(&mut self)
        ensures
            final(self).spec_status() == GameStatus::DrawAgreed,
            final(self).spec_fen() == old(self).spec_fen(),
            final(self).spec_history() == old(self).spec_history(),
            final(self).spec_time_control() == old(self).spec_time_control(),
            final(self).spec_players() == old(self).spec_players(),
    {
        proof {
            use_type_invariant(&*self);
        }
        self.status = GameStatus::DrawAgreed;
    }

    /// The game with its clock replaced.
    pub closed spec fn with_clock(g: Game, tc: Option<TimeControl>) -> Game {
        Game { time_control: tc, ..g }
    }

    pub proof fn lemma_with_clock(g: Game, tc: Option<TimeControl>)
        ensures
            Self::with_clock(g, tc).spec_fen() == g.spec_fen(),
            Self::with_clock(g, tc).spec_position() == g.spec_position(),
            Self::with_clock(g, tc).spec_history() == g.spec_history(),
            Self::with_clock(g, tc).spec_status() == g.spec_status(),
            Self::with_clock(g, tc).spec_players() == g.spec_players(),
            Self::with_clock(g, tc).spec_time_control() == tc,
            Self::with_clock(g, g.spec_time_control()) == g,
    {
    }

    /// Apply a move on the clock; `elapsed_ms` is the time the mover spent.
    /// Without a clock (or when the mover's clock is not set) this is
    /// [`Game::apply`]. A mover who spent more than the time left flags:
    /// the game is lost on time and the move is refused. Otherwise the move
    /// is applied as by `apply`, and when it is accepted the time spent is
    /// taken off the mover's clock and the increment added.
    pub fn apply_timed(&mut self, uci: &str, elapsed_ms: u64) -> (r: Result<MoveReport, Error>)
        ensures
            Self::timed_outcome(*old(self), *final(self), uci@, elapsed_ms, r),
    {
        proof {
            use_type_invariant(&*self);
        }
        let tc = match self.time_control {
            None => return self.apply(uci),
            Some(tc) => tc,
        };
        if !matches!(self.status, GameStatus::Ongoing) {
            return self.apply(uci);
        }
        let mover = self.side_to_move();
        let remaining = match mover {
            Side::White => tc.white_remaining_ms,
            Side::Black => tc.black_remaining_ms,
        };
        let rem = match remaining {
            None => return self.apply(uci),
            Some(rem) => rem,
        };
        if elapsed_ms > rem {
            self.status = GameStatus::TimedOut { winner: mover.opponent() };
            let mut msg = String::new();
            push_str(&mut msg, "flag fell: ");
            push_side_text(&mut msg, mover);
            push_str(&mut msg, " ran out of time");
            return Err(Error::Engine(msg));
        }
        let ghost before = *self;
        let result = self.apply(uci);
        match result {
            Err(e) => Err(e),
            Ok(report) => {
                let inc: u64 = match tc.increment_ms {
                    Some(i) => i,
                    None => 0,
                };
                let left: u64 = match (rem - elapsed_ms).checked_add(inc) {
                    Some(v) => v,
                    None => u64::MAX,
                };
                let next = match mover {
                    Side::White => TimeControl { white_remaining_ms: Some(left), ..tc },
                    Side::Black => TimeControl { black_remaining_ms: Some(left), ..tc },
                };
                proof {
                    use_type_invariant(&*self);
                    Self::lemma_with_clock(*self, Some(tc));
                }
                let ghost mid = *self;
                self.time_control = Some(next);
                proof {
                    assert(Self::with_clock(*self, Some(tc)) == mid);
                }
                Ok(report)
            },
        }
    }

    /// How `apply_timed` relates the game before and after and what it
    /// returns.
    pub open spec fn timed_outcome(
        before: Game,
        after: Game,
        uci: Seq<char>,
        elapsed_ms: u64,
        r: Result<MoveReport, Error>,
    ) -> bool {
        let mover = Side::spec_from_color(before.spec_turn());
        match before.spec_time_control() {
            None => Self::apply_outcome(before, after, uci, r),
            Some(tc) => if before.spec_status() != GameStatus::Ongoing {
                Self::apply_outcome(before, after, uci, r)
            } else {
                match tc.spec_remaining(mover) {
                    None => Self::apply_outcome(before, after, uci, r),
                    Some(rem) => if elapsed_ms > rem {
                        &&& after.spec_status() == (GameStatus::TimedOut {
                            winner: mover.spec_opponent(),
                        })
                        &&& after.spec_fen() == before.spec_fen()
                        &&& after.spec_history() == before.spec_history()
                        &&& after.spec_time_control() == before.spec_time_control()
                        &&& after.spec_players() == before.spec_players()
                        &&& r matches Err(Error::Engine(m)) && m@ == "flag fell: "@ + side_text(
                            mover,
                        ) + " ran out of time"@
                    } else {
                        &&& Self::apply_outcome(before, Self::with_clock(after, Some(tc)), uci, r)
                        &&& r is Ok ==> after.spec_time_control() == Some(
                            tc.spec_after_move(mover, rem, elapsed_ms),
                        )
                        &&& r is Err ==> after == before
                    },
                }
            },
        }
    }

    /// Status after a move into the position of `fen`.
    fn status_after(fen: &str) -> (r: GameStatus)
        ensures
            r == status_for(fen@),
    {
        match outcome(fen) {
            Some(Some(w)) => GameStatus::Checkmate { winner: Side::from_color(w) },
            Some(None) => {
                if is_stalemate(fen) {
                    GameStatus::Stalemate
                } else if is_insufficient_material(fen) {
                    GameStatus::InsufficientMaterial
                } else {
                    GameStatus::DrawAgreed
                }
            },
            None => GameStatus::Ongoing,
        }
    }
}

/// Undoing a move that `apply` accepted gives back the position, the move
/// history and the status the game had before the move.
pub proof fn law_undo_reverts_apply(
    g0: Game,
    g1: Game,
    g2: Game,
    uci: Seq<char>,
    applied: Result<MoveReport, Error>,
    undone: Option<HistoryEntry>,
)
    requires
        Game::apply_outcome(g0, g1, uci, applied),
        applied is Ok,
        Game::undo_outcome(g1, g2, undone),
    ensures
        g2.spec_fen() == g0.spec_fen(),
        g2.spec_history() == g0.spec_history(),
        g2.spec_status() == g0.spec_status(),
        g2.spec_time_control() == g0.spec_time_control(),
        undone matches Some(e) && e.uci@ == uci,
{
}

/// The status a position gives a game follows its outcome: ongoing exactly
/// while there is none; a win is a checkmate for the winner; a drawn
/// stalemate position is a stalemate, a drawn position with too little
/// material (and no stalemate) is a draw by insufficient material, and only
/// a draw for neither reason counts as agreed.
pub proof fn law_status_follows_outcome(fen: Seq<char>)
    ensures
        (status_for(fen) == GameStatus::Ongoing) <==> outcome_of(fen) is None,
        outcome_of(fen) matches Some(Some(w)) ==> status_for(fen) == (GameStatus::Checkmate {
            winner: Side::spec_from_color(w),
        }),
        outcome_of(fen) == Some(None::<Color>) && stalemate_of(fen) ==> status_for(fen)
            == GameStatus::Stalemate,
        outcome_of(fen) == Some(None::<Color>) && !stalemate_of(fen) && insufficient_material_of(
            fen,
        ) ==> status_for(fen) == GameStatus::InsufficientMaterial,
        status_for(fen) == GameStatus::DrawAgreed ==> outcome_of(fen) == Some(None::<Color>)
            && !stalemate_of(fen) && !insufficient_material_of(fen),
        status_for(fen) == GameStatus::Stalemate ==> stalemate_of(fen),
{
}

/// After an accepted move the game's status is what the new position's
/// outcome says: a move into a drawn stalemate position leaves the game
/// stalemated, never agreed drawn; a move into a checkmate ends it for the
/// side that won; a move into a position with no outcome keeps it going.
pub proof fn law_status_after_move(
    g0: Game,
    g1: Game,
    uci: Seq<char>,
    r: Result<MoveReport, Error>,
)
    requires
        Game::apply_outcome(g0, g1, uci, r),
        r is Ok,
    ensures
        ({
            let f = g1.spec_fen();
            &&& (g1.spec_status() == GameStatus::Ongoing) <==> outcome_of(f) is None
            &&& outcome_of(f) matches Some(Some(w)) ==> g1.spec_status() == (
            GameStatus::Checkmate { winner: Side::spec_from_color(w) })
            &&& outcome_of(f) == Some(None::<Color>) && stalemate_of(f) ==> g1.spec_status()
                == GameStatus::Stalemate
            &&& g1.spec_status() == GameStatus::DrawAgreed ==> outcome_of(f) == Some(None::<Color>)
                && !stalemate_of(f) && !insufficient_material_of(f)
        }),
{
    law_status_follows_outcome(g1.spec_fen());
}

/// A game that is over accepts no move, and a refused move leaves the game
/// as it was.
pub proof fn law_refused_move_changes_nothing(
    g0: Game,
    g1: Game,
    uci: Seq<char>,
    r: Result<MoveReport, Error>,
)
    requires
        Game::apply_outcome(g0, g1, uci, r),
    ensures
        g0.spec_status() != GameStatus::Ongoing ==> r is Err,
        r is Err ==> g1 == g0,
{
}

/// Analyse the current position of a game: the empty analysis of its FEN.
pub fn analyse_game_position(game: &Game) -> (r: Result<PositionAnalysis, Error>)
    ensures
        r matches Ok(a) && a.is_empty_for(game.spec_fen()),
{
    let fen = game.fen();
    let mut pa = PositionAnalysis::empty(fen.as_str());
    pa.schema_version = ANALYSIS_SCHEMA_VERSION;
    Ok(pa)
}

} // verus!
