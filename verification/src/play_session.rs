//! The decisions of the interactive game at the terminal: a session holds
//! the game and the display settings, reads one command line at a time
//! and answers with the text to print and whether the session is over.
//! Reading lines, timing the mover and printing belong to the shell that
//! drives the session.

use vstd::prelude::*;

use crate::board_render::{board_text, render, RenderOptions};
use crate::error::{error_text, Error};
use crate::game::{
    push_status_text, status_text, Game, GameStatus, HistoryEntry, MoveClass, MoveReport,
    PlayerKind, Side, TimeControl,
};
use crate::inspect::{
    attackers_report, hanging_report, see_report, spec_attackers_report, spec_hanging_report,
    spec_see_report,
};
use crate::rules::{legal_san_list, legal_uci_list, san_move};
use crate::text::{
    chars_of, debug_text, decimal, has_prefix, joined, push_decimal, push_joined, push_str,
    same_chars, slice_of, spec_trim, starts_with, string_of, texts, trim,
};

verus! {

/// A command line of the game prompt, as read.
#[derive(Debug, Clone)]
pub enum PlayCommand {
    /// Nothing but whitespace.
    Empty,
    /// `quit` or `exit`.
    Quit,
    /// `help` or `?`.
    Help,
    Moves,
    Hanging,
    /// `attackers` with no target.
    AttackersUsage,
    /// `attackers <target>`.
    Attackers(String),
    /// `see` with no square.
    SeeUsage,
    /// `see <square>`.
    See(String),
    Flip,
    Fen,
    Undo,
    Resign,
    /// Anything else: a move in SAN or UCI.
    Move(String),
}

/// `s` with every leading repetition of `p` removed (`trim_start_matches`).
pub open spec fn strip_all(s: Seq<char>, p: Seq<char>) -> Seq<char>
    decreases s.len(),
{
    if p.len() > 0 && has_prefix(s, p) {
        strip_all(s.subrange(p.len() as int, s.len() as int), p)
    } else {
        s
    }
}

/// How a line reads as a command: trimmed, then matched in this order.
pub open spec fn parses_as(line: Seq<char>, c: PlayCommand) -> bool {
    let t = spec_trim(line);
    if t.len() == 0 {
        c is Empty
    } else if t == "quit"@ || t == "exit"@ {
        c is Quit
    } else if t == "help"@ || t == "?"@ {
        c is Help
    } else if t == "moves"@ {
        c is Moves
    } else if t == "hanging"@ {
        c is Hanging
    } else if t == "attackers"@ {
        c is AttackersUsage
    } else if has_prefix(t, "attackers "@) {
        c matches PlayCommand::Attackers(a) && a@ == spec_trim(strip_all(t, "attackers "@))
    } else if t == "see"@ {
        c is SeeUsage
    } else if has_prefix(t, "see "@) {
        c matches PlayCommand::See(a) && a@ == spec_trim(strip_all(t, "see "@))
    } else if t == "flip"@ {
        c is Flip
    } else if t == "fen"@ {
        c is Fen
    } else if t == "undo"@ {
        c is Undo
    } else if t == "resign"@ {
        c is Resign
    } else {
        c matches PlayCommand::Move(m) && m@ == t
    }
}

fn strip_all_exec(s: &Vec<char>, p: &str) -> (r: Vec<char>)
    requires
        p@.len() > 0,
    ensures
        r@ == strip_all(s@, p@),
{
    let n = p.unicode_len();
    let mut rest = s.clone();
    assert(rest@ == s@);
    while starts_with(&rest, p)
        invariant
            n == p@.len(),
            n > 0,
            strip_all(rest@, p@) == strip_all(s@, p@),
        decreases rest@.len(),
    {
        let len = rest.len();
        rest = slice_of(&rest, n, len);
    }
    rest
}

/// Read a command line.
pub fn parse_command(line: &str) -> (r: PlayCommand)
    ensures
        parses_as(line@, r),
{
    let t = trim(&chars_of(line));
    if t.len() == 0 {
        return PlayCommand::Empty;
    }
    if same_chars(&t, "quit") || same_chars(&t, "exit") {
        return PlayCommand::Quit;
    }
    if same_chars(&t, "help") || same_chars(&t, "?") {
        return PlayCommand::Help;
    }
    if same_chars(&t, "moves") {
        return PlayCommand::Moves;
    }
    if same_chars(&t, "hanging") {
        return PlayCommand::Hanging;
    }
    if same_chars(&t, "attackers") {
        return PlayCommand::AttackersUsage;
    }
    if starts_with(&t, "attackers ") {
        proof {
            reveal_strlit("attackers ");
        }
        let arg = trim(&strip_all_exec(&t, "attackers "));
        return PlayCommand::Attackers(string_of(&arg));
    }
    if same_chars(&t, "see") {
        return PlayCommand::SeeUsage;
    }
    if starts_with(&t, "see ") {
        proof {
            reveal_strlit("see ");
        }
        let arg = trim(&strip_all_exec(&t, "see "));
        return PlayCommand::See(string_of(&arg));
    }
    if same_chars(&t, "flip") {
        return PlayCommand::Flip;
    }
    if same_chars(&t, "fen") {
        return PlayCommand::Fen;
    }
    if same_chars(&t, "undo") {
        return PlayCommand::Undo;
    }
    if same_chars(&t, "resign") {
        return PlayCommand::Resign;
    }
    PlayCommand::Move(string_of(&t))
}

// ---------------------------------------------------------------------
// Texts.

/// `{:?}` of a move class.
pub open spec fn class_text(c: MoveClass) -> Seq<char> {
    match c {
        MoveClass::Best => "Best"@,
        MoveClass::Excellent => "Excellent"@,
        MoveClass::Good => "Good"@,
        MoveClass::Inaccuracy => "Inaccuracy"@,
        MoveClass::Mistake => "Mistake"@,
        MoveClass::Blunder => "Blunder"@,
        MoveClass::Book => "Book"@,
        MoveClass::Forced => "Forced"@,
        MoveClass::Unclassified => "Unclassified"@,
    }
}

fn push_class_text(out: &mut String, c: MoveClass)
    ensures
        final(out)@ == old(out)@ + class_text(c),
{
    match c {
        MoveClass::Best => push_str(out, "Best"),
        MoveClass::Excellent => push_str(out, "Excellent"),
        MoveClass::Good => push_str(out, "Good"),
        MoveClass::Inaccuracy => push_str(out, "Inaccuracy"),
        MoveClass::Mistake => push_str(out, "Mistake"),
        MoveClass::Blunder => push_str(out, "Blunder"),
        MoveClass::Book => push_str(out, "Book"),
        MoveClass::Forced => push_str(out, "Forced"),
        MoveClass::Unclassified => push_str(out, "Unclassified"),
    }
}

pub open spec fn side_name(s: Side) -> Seq<char> {
    match s {
        Side::White => "White"@,
        Side::Black => "Black"@,
    }
}

/// The help text of the prompt.
pub open spec fn help_text() -> Seq<char> {
    "moves: SAN (e4, Nf3, O-O, Qxf7#) or UCI (e2e4, g1f3).\n"@ + "commands:\n"@
        + "  moves               list every legal move as SAN\n"@
        + "  hanging             list pieces attacked more than defended\n"@
        + "  attackers <sq>      show who attacks a square (e.g. `attackers e4`)\n"@
        + "  attackers <piece>   show attackers on every piece of that letter\n"@
        + "                      (K/Q/R/B/N/P = white, k/q/r/b/n/p = black)\n"@
        + "  see <sq>            SEE (centipawns) for each side capturing on <sq>\n"@
        + "  undo / resign / fen / flip / help / quit\n"@
}

/// The squares of the last move played (`e2`, `e4`), read off its UCI
/// text; `None` before the first move.
pub open spec fn spec_last_move_squares(g: Game) -> Option<(Seq<char>, Seq<char>)> {
    let h = g.spec_history();
    if h.len() == 0 {
        None
    } else {
        let u = h.last().uci@;
        if u.len() < 4 {
            None
        } else {
            Some((u.subrange(0, 2), u.subrange(2, 4)))
        }
    }
}

pub fn last_move_squares(game: &Game) -> (r: Option<(String, String)>)
    ensures
        match r {
            Some((a, b)) => spec_last_move_squares(*game) == Some((a@, b@)),
            None => spec_last_move_squares(*game) is None,
        },
{
    let h = game.history();
    if h.len() == 0 {
        return None;
    }
    let u = chars_of(h[h.len() - 1].uci.as_str());
    if u.len() < 4 {
        return None;
    }
    let from = string_of(&slice_of(&u, 0, 2));
    let to = string_of(&slice_of(&u, 2, 4));
    Some((from, to))
}

/// The move a line names: its SAN reading, else the line itself when it
/// is the UCI text of a legal move.
pub open spec fn parsed_move(fen: Seq<char>, input: Seq<char>) -> Option<Seq<char>> {
    match san_move(fen, input) {
        Some(u) => Some(u),
        None => if legal_uci_list(fen).contains(input) {
            Some(input)
        } else {
            None
        },
    }
}

// ---------------------------------------------------------------------
// The session.

/// The interactive game: the game itself, the display settings and the
/// board orientation the player chose.
pub struct PlaySession {
    game: Game,
    time_sec: Option<u64>,
    increment_sec: u64,
    ascii: bool,
    auto_flip: bool,
    show_board: bool,
    manual_flip: bool,
}

/// What the session answers to a command line.
#[derive(Debug)]
pub struct PlayReply {
    /// The text to print.
    pub text: String,
    /// The session is over (the player quit, or the game ended).
    pub done: bool,
}

impl PlaySession {
    pub closed spec fn spec_game(self) -> Game {
        self.game
    }

    pub closed spec fn spec_manual_flip(self) -> bool {
        self.manual_flip
    }

    /// `(time_sec, increment_sec, ascii, auto_flip, show_board)`.
    pub closed spec fn spec_settings(self) -> (Option<u64>, u64, bool, bool, bool) {
        (self.time_sec, self.increment_sec, self.ascii, self.auto_flip, self.show_board)
    }

    /// The board is shown flipped for `mover`: when the player flipped it,
    /// or when it follows the side to move and Black is to move.
    pub open spec fn flip_for(self, mover: Side) -> bool {
        self.spec_manual_flip() || (self.spec_settings().3 && mover == Side::Black)
    }

    /// The board block the prompt shows before the side-to-move line: a
    /// blank line and the board, highlighting the last move.
    pub open spec fn board_block(self, g: Game, mover: Side) -> Seq<char> {
        "\n"@ + board_text(
            g.spec_fen(),
            self.spec_settings().2,
            self.flip_for(mover),
            spec_last_move_squares(g),
        )
    }

    /// A session of a new standard game between two humans, on a Fischer
    /// clock of `time_sec` seconds plus `increment_sec` a move when a time
    /// is given.
    pub fn new(
        time_sec: Option<u64>,
        increment_sec: u64,
        ascii: bool,
        auto_flip: bool,
        show_board: bool,
    ) -> (r: PlaySession)
        requires
            time_sec matches Some(s) ==> s * 1000 <= u64::MAX && increment_sec * 1000 <= u64::MAX,
        ensures
            r.spec_game().spec_history().len() == 0,
            r.spec_game().spec_status() == GameStatus::Ongoing,
            r.spec_game().spec_players() == (PlayerKind::Human, PlayerKind::Human),
            r.spec_game().spec_time_control() == match time_sec {
                Some(s) => Some(TimeControl::fischer_spec((s * 1000) as u64, (increment_sec * 1000) as u64)),
                None => None,
            },
            r.spec_settings() == (time_sec, increment_sec, ascii, auto_flip, show_board),
            !r.spec_manual_flip(),
    {
        let mut game = Game::new_standard(PlayerKind::Human, PlayerKind::Human);
        match time_sec {
            Some(sec) => {
                game = game.with_time_control(TimeControl::fischer(sec * 1000, increment_sec * 1000));
            },
            None => {},
        }
        PlaySession { game, time_sec, increment_sec, ascii, auto_flip, show_board, manual_flip: false }
    }

    pub fn game(&self) -> (r: &Game)
        ensures
            *r == self.spec_game(),
    {
        &self.game
    }

    pub open spec fn greeting_text(self) -> Seq<char> {
        "chess-tutor play — type moves as SAN (e4, Nf3, O-O) or UCI (e2e4, g1f3).\n"@
            + "commands: moves / hanging / attackers <sq|piece> / see <sq> / undo / resign / fen / flip / help / quit\n"@
            + if self.spec_game().spec_time_control() is Some && self.spec_settings().0 is Some {
            "clock: "@ + decimal(self.spec_settings().0.unwrap() as nat) + "s + "@ + decimal(
                self.spec_settings().1 as nat,
            ) + "s increment\n"@
        } else {
            Seq::empty()
        }
    }

    /// The lines printed when the session starts.
    pub fn greeting(&self) -> (r: String)
        ensures
            r@ == self.greeting_text(),
    {
        let mut out = String::new();
        push_str(
            &mut out,
            "chess-tutor play — type moves as SAN (e4, Nf3, O-O) or UCI (e2e4, g1f3).\n",
        );
        push_str(
            &mut out,
            "commands: moves / hanging / attackers <sq|piece> / see <sq> / undo / resign / fen / flip / help / quit\n",
        );
        let ghost a = out@;
        if self.game.has_time_control() {
            match self.time_sec {
                Some(sec) => {
                    push_str(&mut out, "clock: ");
                    push_decimal(&mut out, sec);
                    push_str(&mut out, "s + ");
                    push_decimal(&mut out, self.increment_sec);
                    push_str(&mut out, "s increment\n");
                },
                None => {},
            }
        }
        assert(out@ =~= self.greeting_text());
        out
    }

    fn board_for(&self, mover: Side) -> (r: String)
        ensures
            r@ == self.board_block(self.spec_game(), mover),
    {
        let flip = self.manual_flip || (self.auto_flip && mover == Side::Black);
        let highlight = last_move_squares(&self.game);
        let fen = self.game.fen();
        let board = render(fen.as_str(), &RenderOptions { ascii: self.ascii, flip, highlight });
        let mut out = String::new();
        push_str(&mut out, "\n");
        push_str(&mut out, board.as_str());
        assert(out@ =~= self.board_block(self.spec_game(), mover));
        out
    }

    /// What the prompt shows before the side-to-move line: the board
    /// block when the board is shown, else nothing.
    pub fn board_view(&self) -> (r: Option<String>)
        ensures
            match r {
                Some(b) => self.spec_settings().4 && b@ == self.board_block(
                    self.spec_game(),
                    Side::spec_from_color(self.spec_game().spec_turn()),
                ),
                None => !self.spec_settings().4,
            },
    {
        if self.show_board {
            let mover = self.game.side_to_move();
            Some(self.board_for(mover))
        } else {
            None
        }
    }

    /// The side-to-move line of a game without a clock ("White to move.").
    /// `None` on a clock: that line shows the clocks in seconds.
    pub fn to_move_line(&self) -> (r: Option<String>)
        ensures
            match r {
                Some(l) => self.spec_game().spec_time_control() is None && l@ == side_name(
                    Side::spec_from_color(self.spec_game().spec_turn()),
                ) + " to move.\n"@,
                None => self.spec_game().spec_time_control() is Some,
            },
    {
        if self.game.has_time_control() {
            return None;
        }
        let mut out = String::new();
        match self.game.side_to_move() {
            Side::White => push_str(&mut out, "White"),
            Side::Black => push_str(&mut out, "Black"),
        }
        push_str(&mut out, " to move.\n");
        Some(out)
    }

    /// The line of a move the game accepted.
    pub open spec fn played_line(rep: MoveReport) -> Seq<char> {
        "played "@ + rep.entry.san@ + " ("@ + class_text(rep.class) + ")\n"@
    }

    /// What follows the move that ended the game: the final board when the
    /// board is shown, then the final status.
    pub open spec fn game_over_text(self, after: Game, mover: Side) -> Seq<char> {
        (if self.spec_settings().4 {
            self.board_block(after, mover)
        } else {
            Seq::empty()
        }) + "game over: "@ + status_text(after.spec_status()) + "\n"@
    }

    /// The reply to a move the game accepted or refused.
    pub open spec fn move_reply(
        self,
        after: Game,
        mover: Side,
        res: Result<MoveReport, Error>,
        r: PlayReply,
    ) -> bool {
        match res {
            Ok(rep) => {
                let over = after.spec_status() != GameStatus::Ongoing;
                &&& r.done == over
                &&& r.text@ == Self::played_line(rep) + if over {
                    self.game_over_text(after, mover)
                } else {
                    Seq::empty()
                }
            },
            Err(e) => !r.done && r.text@ == "rejected: "@ + error_text(e) + "\n"@,
        }
    }

    /// How the session answers the move line `m`.
    pub open spec fn move_handled(
        before: PlaySession,
        after: PlaySession,
        m: Seq<char>,
        elapsed_ms: u64,
        r: PlayReply,
    ) -> bool {
        let g = before.spec_game();
        let g2 = after.spec_game();
        let mover = Side::spec_from_color(g.spec_turn());
        match parsed_move(g.spec_fen(), m) {
            None => after == before && !r.done && r.text@ == "rejected: "@
                + "not a legal move in SAN or UCI: "@ + debug_text(m) + "\n"@,
            Some(uci) => {
                &&& after.spec_settings() == before.spec_settings()
                &&& after.spec_manual_flip() == before.spec_manual_flip()
                &&& exists|res: Result<MoveReport, Error>|
                    {
                        &&& if g.spec_time_control() is Some {
                            Game::timed_outcome(g, g2, uci, elapsed_ms, res)
                        } else {
                            Game::apply_outcome(g, g2, uci, res)
                        }
                        &&& before.move_reply(g2, mover, res, r)
                    }
            },
        }
    }

    /// How the session answers command `c`, given `elapsed_ms` spent by the
    /// mover: what it prints, whether it ends, and how the game and the
    /// board orientation change.
    pub open spec fn handled(
        before: PlaySession,
        after: PlaySession,
        c: PlayCommand,
        elapsed_ms: u64,
        r: PlayReply,
    ) -> bool {
        let g = before.spec_game();
        let g2 = after.spec_game();
        let mover = Side::spec_from_color(g.spec_turn());
        let board = g.spec_position().spec_setup().board;
        let unchanged = after == before;
        &&& after.spec_settings() == before.spec_settings()
        &&& match c {
            PlayCommand::Empty => unchanged && !r.done && r.text@.len() == 0,
            PlayCommand::Quit => unchanged && r.done && r.text@.len() == 0,
            PlayCommand::Help => unchanged && !r.done && r.text@ == help_text(),
            PlayCommand::Moves => unchanged && !r.done && r.text@ == decimal(
                legal_san_list(g.spec_fen()).len(),
            ) + " legal moves: "@ + joined(legal_san_list(g.spec_fen()), " "@) + "\n"@,
            PlayCommand::Hanging => unchanged && !r.done && r.text@ == spec_hanging_report(board),
            PlayCommand::AttackersUsage => unchanged && !r.done && r.text@
                == "usage: attackers <square> | attackers <piece-letter>\n"@,
            PlayCommand::Attackers(a) => unchanged && !r.done && r.text@ == spec_attackers_report(
                board,
                a@,
            ),
            PlayCommand::SeeUsage => unchanged && !r.done && r.text@
                == "usage: see <square>   e.g. `see e5`\n"@,
            PlayCommand::See(a) => unchanged && !r.done && r.text@ == spec_see_report(
                g.spec_position().spec_setup(),
                a@,
            ),
            PlayCommand::Flip => g2 == g && after.spec_manual_flip() == !before.spec_manual_flip()
                && !r.done && r.text@.len() == 0,
            PlayCommand::Fen => unchanged && !r.done && r.text@ == g.spec_fen() + "\n"@,
            PlayCommand::Undo => {
                &&& after.spec_manual_flip() == before.spec_manual_flip()
                &&& !r.done
                &&& exists|u: Option<HistoryEntry>|
                    Game::undo_outcome(g, g2, u) && r.text@ == match u {
                        Some(e) => "undid "@ + e.san@ + "\n"@,
                        None => "nothing to undo\n"@,
                    }
            },
            PlayCommand::Resign => {
                &&& after.spec_manual_flip() == before.spec_manual_flip()
                &&& !r.done
                &&& g2.spec_status() == (GameStatus::Resigned { winner: mover.spec_opponent() })
                &&& g2.spec_fen() == g.spec_fen()
                &&& g2.spec_history() == g.spec_history()
                &&& g2.spec_time_control() == g.spec_time_control()
                &&& g2.spec_players() == g.spec_players()
                &&& r.text@ == "status: "@ + status_text(g2.spec_status()) + "\n"@
            },
            PlayCommand::Move(m) => Self::move_handled(before, after, m@, elapsed_ms, r),
        }
    }

    fn reply(text: String, done: bool) -> (r: PlayReply)
        ensures
            r.text == text,
            r.done == done,
    {
        PlayReply { text, done }
    }

    fn moves_text(&self) -> (r: String)
        ensures
            r@ == decimal(legal_san_list(self.spec_game().spec_fen()).len()) + " legal moves: "@
                + joined(legal_san_list(self.spec_game().spec_fen()), " "@) + "\n"@,
    {
        let sans = self.game.legal_moves_san();
        let mut out = String::new();
        push_decimal(&mut out, sans.len() as u64);
        push_str(&mut out, " legal moves: ");
        push_joined(&mut out, &sans, " ");
        push_str(&mut out, "\n");
        proof {
            assert(texts(sans@) =~= legal_san_list(self.spec_game().spec_fen()));
        }
        out
    }

    fn play_move(&mut self, input: &str, elapsed_ms: u64) -> (r: PlayReply)
        ensures
            Self::move_handled(*old(self), *final(self), input@, elapsed_ms, r),
    {
        let mover = self.game.side_to_move();
        let uci = match self.game.parse_move(input) {
            Ok(u) => u,
            Err(e) => {
                let mut text = String::new();
                push_str(&mut text, "rejected: ");
                push_str(&mut text, e.as_str());
                push_str(&mut text, "\n");
                assert(text@ =~= "rejected: "@ + "not a legal move in SAN or UCI: "@ + debug_text(
                    input@,
                ) + "\n"@);
                return Self::reply(text, false);
            },
        };
        let ghost before = *self;
        let result = if self.game.has_time_control() {
            self.game.apply_timed(uci.as_str(), elapsed_ms)
        } else {
            self.game.apply(uci.as_str())
        };
        let ghost res = result;
        let mut text = String::new();
        match result {
            Ok(report) => {
                push_str(&mut text, "played ");
                push_str(&mut text, report.entry.san.as_str());
                push_str(&mut text, " (");
                push_class_text(&mut text, report.class);
                push_str(&mut text, ")\n");
                let ghost head = text@;
                assert(head =~= Self::played_line(report));
                if !matches!(self.game.status(), GameStatus::Ongoing) {
                    if self.show_board {
                        let b = self.board_for(mover);
                        assert(self.board_block(self.spec_game(), mover) == before.board_block(
                            self.spec_game(),
                            mover,
                        ));
                        push_str(&mut text, b.as_str());
                    }
                    let ghost mid = text@;
                    assert(mid == head + if self.show_board {
                        before.board_block(self.spec_game(), mover)
                    } else {
                        Seq::empty()
                    });
                    push_str(&mut text, "game over: ");
                    push_status_text(&mut text, self.game.status());
                    push_str(&mut text, "\n");
                    assert(text@ =~= head + (if self.show_board {
                        before.board_block(self.spec_game(), mover)
                    } else {
                        Seq::empty()
                    }) + "game over: "@ + status_text(self.spec_game().spec_status()) + "\n"@);
                    let r = Self::reply(text, true);
                    assert(r.text@ =~= Self::played_line(report) + before.game_over_text(
                        self.spec_game(),
                        mover,
                    ));
                    assert(before.move_reply(self.spec_game(), mover, res, r));
                    return r;
                }
                let r = Self::reply(text, false);
                assert(r.text@ =~= Self::played_line(report) + Seq::empty());
                assert(before.move_reply(self.spec_game(), mover, res, r));
                r
            },
            Err(e) => {
                push_str(&mut text, "rejected: ");
                let msg = e.message();
                push_str(&mut text, msg.as_str());
                push_str(&mut text, "\n");
                let r = Self::reply(text, false);
                assert(before.move_reply(self.spec_game(), mover, res, r));
                r
            },
        }
    }

    fn help(&self) -> (r: String)
        ensures
            r@ == help_text(),
    {
        let mut out = String::new();
        push_str(&mut out, "moves: SAN (e4, Nf3, O-O, Qxf7#) or UCI (e2e4, g1f3).\n");
        push_str(&mut out, "commands:\n");
        push_str(&mut out, "  moves               list every legal move as SAN\n");
        push_str(&mut out, "  hanging             list pieces attacked more than defended\n");
        push_str(&mut out, "  attackers <sq>      show who attacks a square (e.g. `attackers e4`)\n");
        push_str(&mut out, "  attackers <piece>   show attackers on every piece of that letter\n");
        push_str(&mut out, "                      (K/Q/R/B/N/P = white, k/q/r/b/n/p = black)\n");
        push_str(&mut out, "  see <sq>            SEE (centipawns) for each side capturing on <sq>\n");
        push_str(&mut out, "  undo / resign / fen / flip / help / quit\n");
        assert(out@ =~= help_text());
        out
    }

    fn text_of(s: &str) -> (r: String)
        ensures
            r@ == s@,
    {
        let mut out = String::new();
        push_str(&mut out, s);
        assert(out@ =~= s@);
        out
    }

    /// Answer one command line; `elapsed_ms` is the time the mover spent
    /// on it, charged to the clock when a move is played on one.
    pub fn handle(&mut self, line: &str, elapsed_ms: u64) -> (r: PlayReply)
        ensures
            exists|c: PlayCommand|
                parses_as(line@, c) && Self::handled(*old(self), *final(self), c, elapsed_ms, r),
    {
        let c = parse_command(line);
        let ghost gc = c;
        let r = match c {
            PlayCommand::Empty => Self::reply(String::new(), false),
            PlayCommand::Quit => Self::reply(String::new(), true),
            PlayCommand::Help => Self::reply(self.help(), false),
            PlayCommand::Moves => Self::reply(self.moves_text(), false),
            PlayCommand::Hanging => Self::reply(hanging_report(self.game.position()), false),
            PlayCommand::AttackersUsage => Self::reply(
                Self::text_of("usage: attackers <square> | attackers <piece-letter>\n"),
                false,
            ),
            PlayCommand::Attackers(a) => Self::reply(
                attackers_report(self.game.position(), a.as_str()),
                false,
            ),
            PlayCommand::SeeUsage => Self::reply(
                Self::text_of("usage: see <square>   e.g. `see e5`\n"),
                false,
            ),
            PlayCommand::See(a) => Self::reply(see_report(self.game.position(), a.as_str()), false),
            PlayCommand::Flip => {
                self.manual_flip = !self.manual_flip;
                Self::reply(String::new(), false)
            },
            PlayCommand::Fen => {
                let mut out = self.game.fen();
                push_str(&mut out, "\n");
                Self::reply(out, false)
            },
            PlayCommand::Undo => {
                let u = self.game.undo();
                let ghost gu = u;
                let mut out = String::new();
                match u {
                    Some(entry) => {
                        push_str(&mut out, "undid ");
                        push_str(&mut out, entry.san.as_str());
                        push_str(&mut out, "\n");
                    },
                    None => push_str(&mut out, "nothing to undo\n"),
                }
                let r = Self::reply(out, false);
                assert(Game::undo_outcome(old(self).spec_game(), self.spec_game(), gu) && r.text@
                    == match gu {
                    Some(e) => "undid "@ + e.san@ + "\n"@,
                    None => "nothing to undo\n"@,
                });
                r
            },
            PlayCommand::Resign => {
                let mover = self.game.side_to_move();
                self.game.resign(mover);
                let mut out = String::new();
                push_str(&mut out, "status: ");
                push_status_text(&mut out, self.game.status());
                push_str(&mut out, "\n");
                Self::reply(out, false)
            },
            PlayCommand::Move(m) => self.play_move(m.as_str(), elapsed_ms),
        };
        assert(parses_as(line@, gc) && Self::handled(*old(self), *self, gc, elapsed_ms, r));
        r
    }
}

} // verus!
