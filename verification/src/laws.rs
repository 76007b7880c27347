//! The rules of the game as they show across several intents.

use crate::card::{holders, lemma_deck_pairs, none_hidden, pair_values, CardState};
use crate::config::GameTheme;
use crate::round::{GameStates, Resolution, Round};
use vstd::prelude::*;

verus! {

/// On the board of a sound round with `2k` cards exactly `k` pair values
/// occur, and each of them on exactly two cards.
pub proof fn lemma_board_pairs(r: Round)
    requires
        r.wf(),
    ensures
        r.cards.len() == r.config.size,
        r.config.size % 2 == 0,
        pair_values(r.cards).finite(),
        pair_values(r.cards).len() == r.config.size / 2,
        forall|v: int|
            #![trigger holders(r.cards, v)]
            pair_values(r.cards).contains(v) ==> holders(r.cards, v).finite() && holders(
                r.cards,
                v,
            ).len() == 2,
{
    lemma_deck_pairs(r.cards, r.config.size as int);
}

/// Between two intents the board has nothing to evaluate: at most one card
/// is selected, so no pair is resolved, and a board without a hidden card has
/// closed the round already.
pub proof fn lemma_evaluate_at_rest(r: Round, card: int)
    requires
        r.wf(),
    ensures
        r.evaluate(card) == r,
        r.verdict(card) is None,
{
    if r.pairs_up(card) {
        let other = r.partner(card);
        assert(r.selected(card) && r.selected(other));
    }
}

/// A found pair. With no card selected, selecting a hidden card and then a
/// second hidden card with the same pair value resolves the two as a match:
/// both show `Fine`, and once the resolution is settled both are `Shown`.
/// The player whose turn it was has one point and one move more and keeps
/// the turn. No other card and no other player has changed.
///
/// The counters stop at `u32::MAX`; the law is stated for a player below it.
pub proof fn lemma_match_scores(r: Round, a: int, b: int)
    requires
        r.wf(),
        forall|i: int| !r.selected(i),
        r.selectable(a),
        r.selectable(b),
        a != b,
        r.cards[a].value == r.cards[b].value,
        r.players[r.turn].score < u32::MAX,
        r.players[r.turn].moves < u32::MAX,
    ensures
        r.select_verdict(a) is None,
        r.select_card(a).select_verdict(b) == Some(
            Resolution {
                first: b as usize,
                second: a as usize,
                matched: true,
                player: r.turn as usize,
                epoch: r.epoch as u64,
            },
        ),
        ({
            let resolved = r.select_card(a).select_card(b);
            &&& resolved.cards[a].state == CardState::Fine
            &&& resolved.cards[b].state == CardState::Fine
            &&& resolved.players[r.turn].flash
        }),
        ({
            let resolved = r.select_card(a).select_card(b);
            let settled = resolved.settle(r.select_card(a).select_verdict(b).unwrap());
            &&& settled.cards[a].state == CardState::Shown
            &&& settled.cards[b].state == CardState::Shown
            &&& settled.players[r.turn].score == r.players[r.turn].score + 1
            &&& settled.players[r.turn].moves == r.players[r.turn].moves + 1
            &&& !settled.players[r.turn].flash
            &&& settled.turn == r.turn
            &&& settled.cards.len() == r.cards.len()
            &&& settled.players.len() == r.players.len()
            &&& forall|i: int|
                0 <= i < r.cards.len() && i != a && i != b ==> settled.cards[i] == r.cards[i]
            &&& forall|i: int|
                0 <= i < r.players.len() && i != r.turn ==> settled.players[i] == r.players[i]
        }),
{
    let picked = r.with_card(a, CardState::Selected);
    assert(!picked.is_partner(a, b));
    assert(!picked.pairs_up(a)) by {
        if picked.pairs_up(a) {
            let other = picked.partner(a);
            assert(r.selected(other));
        }
    }
    assert(picked.cards[b].state == CardState::Hidden);
    assert(r.select_card(a) == picked);
    let both = picked.with_card(b, CardState::Selected);
    assert(both.is_partner(b, a));
    assert(both.partner(b) == a) by {
        let other = both.partner(b);
        assert(both.is_partner(b, other));
        if other != a {
            assert(r.selected(other));
        }
    }
}

/// A missed pair. With no card selected, selecting a hidden card and then a
/// second hidden card with another pair value resolves the two as a miss:
/// both show `Wrong`, and once the resolution is settled both are `Hidden`
/// again. The player whose turn it was has one move more and the same score,
/// and the turn has passed to the next seat, the first seat following the
/// last. No other card and no other player has changed.
///
/// The counters stop at `u32::MAX`; the law is stated for a player below it.
pub proof fn lemma_miss_passes_turn(r: Round, a: int, b: int)
    requires
        r.wf(),
        forall|i: int| !r.selected(i),
        r.selectable(a),
        r.selectable(b),
        a != b,
        r.cards[a].value != r.cards[b].value,
        r.players[r.turn].moves < u32::MAX,
    ensures
        r.select_verdict(a) is None,
        r.select_card(a).select_verdict(b) == Some(
            Resolution {
                first: b as usize,
                second: a as usize,
                matched: false,
                player: r.turn as usize,
                epoch: r.epoch as u64,
            },
        ),
        ({
            let resolved = r.select_card(a).select_card(b);
            &&& resolved.cards[a].state == CardState::Wrong
            &&& resolved.cards[b].state == CardState::Wrong
            &&& resolved.turn == (r.turn + 1) % (r.players.len() as int)
        }),
        ({
            let resolved = r.select_card(a).select_card(b);
            let settled = resolved.settle(r.select_card(a).select_verdict(b).unwrap());
            &&& settled.cards[a] == r.cards[a]
            &&& settled.cards[b] == r.cards[b]
            &&& settled.players[r.turn].score == r.players[r.turn].score
            &&& settled.players[r.turn].moves == r.players[r.turn].moves + 1
            &&& settled.turn == (r.turn + 1) % (r.players.len() as int)
            &&& settled.cards == r.cards
            &&& settled.players.len() == r.players.len()
            &&& forall|i: int|
                0 <= i < r.players.len() && i != r.turn ==> settled.players[i] == r.players[i]
        }),
{
    let picked = r.with_card(a, CardState::Selected);
    assert(!picked.is_partner(a, b));
    assert(!picked.pairs_up(a)) by {
        if picked.pairs_up(a) {
            let other = picked.partner(a);
            assert(r.selected(other));
        }
    }
    assert(picked.cards[b].state == CardState::Hidden);
    assert(r.select_card(a) == picked);
    let both = picked.with_card(b, CardState::Selected);
    assert(both.is_partner(b, a));
    assert(both.partner(b) == a) by {
        let other = both.partner(b);
        assert(both.is_partner(b, other));
        if other != a {
            assert(r.selected(other));
        }
    }
    let resolved = r.select_card(a).select_card(b);
    let settled = resolved.settle(r.select_card(a).select_verdict(b).unwrap());
    assert(settled.cards =~= r.cards);
}

/// A card that cannot be selected is ignored: selecting a card that does
/// not lie face down, or that is not on the board, or selecting in a round
/// that is not being played, changes nothing and hands nothing out.
pub proof fn lemma_unavailable_card_ignored(r: Round, card: int)
    requires
        r.phase != GameStates::Playing || !(0 <= card < r.cards.len()) || r.cards[card].state
            != CardState::Hidden,
    ensures
        r.select_card(card) == r,
        r.select_verdict(card) is None,
{
}

/// A sound round whose board has no hidden card is over.
pub proof fn lemma_no_hidden_card_is_over(r: Round)
    requires
        r.wf(),
        none_hidden(r.cards),
    ensures
        r.phase == GameStates::Over,
{
}

/// A round that is over stays over under every intent but a restart, and
/// under the settling of any resolution.
pub proof fn lemma_over_stays_over(
    r: Round,
    theme: GameTheme,
    size: usize,
    players: u8,
    card: int,
    res: Resolution,
)
    requires
        r.phase == GameStates::Over,
    ensures
        r.set_theme(theme).phase == GameStates::Over,
        r.set_board_size(size).phase == GameStates::Over,
        r.set_player_count(players).phase == GameStates::Over,
        r.start_game().phase == GameStates::Over,
        r.restart(GameStates::Over).phase == GameStates::Over,
        r.select_card(card).phase == GameStates::Over,
        r.evaluate(card).phase == GameStates::Over,
        r.show_card(card).phase == GameStates::Over,
        r.hide_card(card).phase == GameStates::Over,
        r.settle(res).phase == GameStates::Over,
{
}

/// A restart leaves any phase: whatever the round was, it is then a new
/// round in the phase asked for, with every card face down and every count
/// at zero.
pub proof fn lemma_restart_is_fresh(r: Round, target: GameStates)
    requires
        r.wf(),
        target != GameStates::Over,
    ensures
        r.restart(target).phase == target,
        r.restart(target).config == r.config,
        r.restart(target).turn == 0,
        r.restart(target).cards.len() == r.config.size,
        r.restart(target).players.len() == r.config.players,
        forall|i: int|
            0 <= i < r.config.size ==> (#[trigger] r.restart(target).cards[i]).state
                == CardState::Hidden,
        forall|i: int|
            0 <= i < r.config.players ==> (#[trigger] r.restart(target).players[i]).score == 0
                && r.restart(target).players[i].moves == 0,
{
}

/// A resolution does not outlive its deck: once the board was dealt anew, by
/// a restart or by a change of size, settling a resolution that was made
/// before changes nothing.
pub proof fn lemma_new_deck_retires_resolution(
    r: Round,
    res: Resolution,
    target: GameStates,
    size: usize,
)
    requires
        r.wf(),
        res.epoch == r.epoch,
    ensures
        target != GameStates::Over ==> r.restart(target).settle(res) == r.restart(target),
        r.set_board_size(size) != r ==> r.set_board_size(size).settle(res) == r.set_board_size(
            size,
        ),
{
}

} // verus!
