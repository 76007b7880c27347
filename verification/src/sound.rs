//! Every transition takes a sound round to a sound round.
//!
//! The engine relies on these to promise, after each intent, the soundness
//! that it asks for before the next.

use crate::card::{fresh_deck, lemma_fresh_deck, none_hidden, CardState};
use crate::config::{Config, GameTheme};
use crate::player::lemma_fresh_roster;
use crate::round::{GameStates, Resolution, Round};
use vstd::prelude::*;

verus! {

/// Evaluating the board around `card` makes a shaped round sound, provided
/// that at most one other card is selected.
pub proof fn lemma_evaluate_sound(r: Round, card: int)
    requires
        r.shaped(),
        r.at_most_one_waiting(card),
    ensures
        r.evaluate(card).wf(),
{
    let e = r.evaluate(card);
    if r.phase == GameStates::Initial {
        assert(r.cards[0].state == CardState::Hidden);
        assert(!r.pairs_up(card));
        assert(e == r);
    }
    if r.pairs_up(card) {
        let other = r.partner(card);
        assert(r.is_partner(card, other));
        assert forall|i: int| !e.selected(i) by {
            if e.selected(i) {
                assert(r.is_partner(card, i));
            }
        }
    } else {
        assert forall|i: int, j: int| e.selected(i) && e.selected(j) implies i == j by {
            if r.selected(card) {
                assert(!r.is_partner(card, i));
                assert(!r.is_partner(card, j));
            } else {
                assert(r.is_partner(card, i));
                assert(r.is_partner(card, j));
            }
        }
    }
}

/// A new round is sound.
pub proof fn lemma_fresh_sound(config: Config, phase: GameStates, epoch: int)
    requires
        config.valid(),
        phase != GameStates::Over,
        0 <= epoch <= u64::MAX,
    ensures
        Round::fresh(config, phase, epoch).wf(),
{
    lemma_fresh_deck(config.size as int);
    lemma_fresh_roster(config.players as int);
    assert(fresh_deck(config.size as int)[0].state == CardState::Hidden);
}

/// Choosing a theme takes a sound round to a sound round.
pub proof fn lemma_set_theme_sound(r: Round, theme: GameTheme)
    requires
        r.wf(),
    ensures
        r.set_theme(theme).wf(),
{
    let t = r.set_theme(theme);
    if r.phase == GameStates::Initial {
        assert(t =~= Round::fresh(t.config, GameStates::Initial, t.epoch));
        assert(t.cards[0].state == CardState::Hidden);
    }
}

/// Choosing a board size takes a sound round to a sound round.
pub proof fn lemma_set_board_size_sound(r: Round, size: usize)
    requires
        r.wf(),
    ensures
        r.set_board_size(size).wf(),
{
    let t = r.set_board_size(size);
    if t != r {
        lemma_fresh_sound(t.config, GameStates::Initial, t.epoch);
        assert(t =~= Round::fresh(t.config, GameStates::Initial, t.epoch));
    }
}

/// Choosing a number of players takes a sound round to a sound round.
pub proof fn lemma_set_player_count_sound(r: Round, players: u8)
    requires
        r.wf(),
    ensures
        r.set_player_count(players).wf(),
{
    let t = r.set_player_count(players);
    if t != r {
        lemma_fresh_sound(t.config, GameStates::Initial, t.epoch);
        assert(t =~= Round::fresh(t.config, GameStates::Initial, t.epoch));
    }
}

/// Beginning to play takes a sound round to a sound round: the board it
/// begins with has every card face down.
pub proof fn lemma_start_game_sound(r: Round)
    requires
        r.wf(),
    ensures
        r.start_game().wf(),
{
    if r.phase == GameStates::Initial {
        assert(r.start_game().cards[0].state == CardState::Hidden);
    }
}

/// A restart takes a sound round to a sound round.
pub proof fn lemma_restart_sound(r: Round, target: GameStates)
    requires
        r.wf(),
    ensures
        r.restart(target).wf(),
{
    if target != GameStates::Over {
        lemma_fresh_sound(r.config, target, r.restart(target).epoch);
    }
}

/// Selecting a card takes a sound round to a sound round.
pub proof fn lemma_select_sound(r: Round, card: int)
    requires
        r.wf(),
    ensures
        r.select_card(card).wf(),
{
    if r.selectable(card) {
        let s = r.with_card(card, CardState::Selected);
        assert forall|i: int, j: int| s.is_partner(card, i) && s.is_partner(card, j) implies i
            == j by {
            assert(r.selected(i) && r.selected(j));
        }
        lemma_evaluate_sound(s, card);
    }
}

/// Settling a resolution, whichever it is, takes a sound round to a sound
/// round.
pub proof fn lemma_settle_sound(r: Round, res: Resolution)
    requires
        r.wf(),
    ensures
        r.settle(res).wf(),
{
    if res.epoch == r.epoch {
        if res.matched {
            let a = r.show_card(res.first as int);
            lemma_step_sound(r, res.first as int);
            let b = a.show_card(res.second as int);
            lemma_step_sound(a, res.second as int);
            lemma_step_sound(b, res.player as int);
        } else {
            let a = r.hide_card(res.first as int);
            lemma_step_sound(r, res.first as int);
            lemma_step_sound(a, res.second as int);
        }
    }
}

/// Each step of settling takes a sound round to a sound round: showing a
/// card for good, turning one face down again, ending a celebration.
pub proof fn lemma_step_sound(r: Round, i: int)
    requires
        r.wf(),
    ensures
        r.show_card(i).wf(),
        r.hide_card(i).wf(),
        r.calm(i).wf(),
{
    if r.phase == GameStates::Initial {
        assert(r.calm(i) =~= r);
        assert(r.show_card(i) == r);
        assert(r.hide_card(i) == r);
    }
    let shown = r.show_card(i);
    assert forall|a: int, b: int| shown.selected(a) && shown.selected(b) implies a == b by {
        assert(r.selected(a) && r.selected(b));
    }
    if none_hidden(shown.cards) {
        assert forall|j: int| 0 <= j < r.cards.len() implies (#[trigger] r.cards[j]).state
            != CardState::Hidden by {
            assert(shown.cards[j].state != CardState::Hidden);
        }
    }
    let hidden = r.hide_card(i);
    assert forall|a: int, b: int| hidden.selected(a) && hidden.selected(b) implies a == b by {
        assert(r.selected(a) && r.selected(b));
    }
    if none_hidden(hidden.cards) {
        assert forall|j: int| 0 <= j < r.cards.len() implies (#[trigger] r.cards[j]).state
            != CardState::Hidden by {
            assert(hidden.cards[j].state != CardState::Hidden);
        }
    }
    let calmed = r.calm(i);
    assert forall|a: int, b: int| calmed.selected(a) && calmed.selected(b) implies a == b by {
        assert(r.selected(a) && r.selected(b));
    }
}

} // verus!
