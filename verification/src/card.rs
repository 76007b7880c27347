//! Cards and decks.

use vstd::prelude::*;
use vstd::set_lib::{lemma_int_range, set_int_range};

verus! {

/// What a card shows, and whether it can be picked.
///
/// A card travels `Hidden -> Selected`, then either `Fine -> Shown` (its pair
/// was found) or `Wrong -> Hidden` (it was not). Only a `Hidden` card can be
/// selected.
#[derive(Clone, Copy, Debug, PartialEq, Eq, Structural)]
pub enum CardState {
    Hidden,
    Shown,
    Wrong,
    Fine,
    Selected,
}

/// One card of the deck. `id` is its position in the deck; two cards match
/// when they carry the same `value`.
#[derive(Clone, Copy, Debug, PartialEq, Eq, Structural)]
pub struct Card {
    pub id: usize,
    pub value: usize,
    pub state: CardState,
}

/// The card dealt at position `i` of a deck of `size` cards: face down, with
/// pair value `i mod (size / 2)`.
pub open spec fn fresh_card(i: int, size: int) -> Card {
    Card { id: i as usize, value: (i % (size / 2)) as usize, state: CardState::Hidden }
}

/// The deck of `size` cards as it is dealt.
pub open spec fn fresh_deck(size: int) -> Seq<Card> {
    Seq::new(size as nat, |i: int| fresh_card(i, size))
}

/// `cards` is a deck of `size` cards: the ids and pair values are those that
/// were dealt, whatever the cards show by now.
pub open spec fn is_deck(cards: Seq<Card>, size: int) -> bool {
    &&& cards.len() == size
    &&& forall|i: int|
        0 <= i < size ==> (#[trigger] cards[i]).id == i && cards[i].value == i % (size / 2)
}

/// Every card of `cards` lies face down.
pub open spec fn all_hidden(cards: Seq<Card>) -> bool {
    forall|i: int| 0 <= i < cards.len() ==> (#[trigger] cards[i]).state == CardState::Hidden
}

/// No card of `cards` lies face down.
pub open spec fn none_hidden(cards: Seq<Card>) -> bool {
    forall|i: int| 0 <= i < cards.len() ==> (#[trigger] cards[i]).state != CardState::Hidden
}

/// The pair values that occur in `cards`.
pub open spec fn pair_values(cards: Seq<Card>) -> Set<int> {
    Set::new(|v: int| exists|i: int| 0 <= i < cards.len() && (#[trigger] cards[i]).value == v)
}

/// The positions of `cards` that carry the pair value `v`.
pub open spec fn holders(cards: Seq<Card>, v: int) -> Set<int> {
    Set::new(|i: int| 0 <= i < cards.len() && cards[i].value == v)
}

impl Card {
    /// A face-down card.
    pub fn new(value: usize, id: usize) -> (card: Card)
        ensures
            card == (Card { id, value, state: CardState::Hidden }),
    {
        Card { id, value, state: CardState::Hidden }
    }

    /// This card with another face, same id and pair value.
    pub open spec fn showing(self, state: CardState) -> Card {
        Card { state, ..self }
    }
}

/// Deals the deck of `size` cards.
pub fn deal(size: usize) -> (cards: Vec<Card>)
    requires
        size >= 2,
    ensures
        cards@ == fresh_deck(size as int),
{
    let half: usize = size / 2;
    let mut cards: Vec<Card> = Vec::new();
    let mut i: usize = 0;
    while i < size
        invariant
            i <= size,
            half == size / 2,
            half > 0,
            cards@.len() == i,
            forall|j: int| 0 <= j < i ==> cards@[j] == fresh_card(j, size as int),
        decreases size - i,
    {
        cards.push(Card::new(i % half, i));
        i = i + 1;
    }
    assert(cards@ =~= fresh_deck(size as int));
    cards
}

/// A freshly dealt deck is a deck, and lies face down.
pub proof fn lemma_fresh_deck(size: int)
    requires
        2 <= size <= usize::MAX,
    ensures
        is_deck(fresh_deck(size), size),
        all_hidden(fresh_deck(size)),
{
    assert forall|i: int| 0 <= i < size implies (#[trigger] fresh_deck(size)[i]).id == i
        && fresh_deck(size)[i].value == i % (size / 2) by {
        vstd::arithmetic::div_mod::lemma_mod_bound(i, size / 2);
    }
}

/// In a deck of `2k` cards exactly `k` pair values occur, the values `0` to
/// `k - 1`, and each of them on exactly two cards: those at positions `v`
/// and `v + k`.
pub proof fn lemma_deck_pairs(cards: Seq<Card>, size: int)
    requires
        is_deck(cards, size),
        size > 0,
        size % 2 == 0,
    ensures
        pair_values(cards) == set_int_range(0, size / 2),
        pair_values(cards).finite(),
        pair_values(cards).len() == size / 2,
        forall|v: int|
            #![trigger holders(cards, v)]
            pair_values(cards).contains(v) ==> holders(cards, v) == set![v, v + size / 2]
                && holders(cards, v).finite() && holders(cards, v).len() == 2,
{
    let k = size / 2;
    assert(size == 2 * k);
    assert forall|i: int| 0 <= i < size implies (#[trigger] cards[i]).value == (if i < k {
        i
    } else {
        i - k
    }) by {
        if i < k {
            vstd::arithmetic::div_mod::lemma_small_mod(i as nat, k as nat);
        } else {
            vstd::arithmetic::div_mod::lemma_small_mod((i - k) as nat, k as nat);
            vstd::arithmetic::div_mod::lemma_mod_add_multiples_vanish(i - k, k);
        }
    }
    assert forall|v: int| set_int_range(0, k).contains(v) implies pair_values(cards).contains(
        v,
    ) by {
        assert(cards[v].value == v);
    }
    assert(pair_values(cards) =~= set_int_range(0, k));
    lemma_int_range(0, k);
    assert forall|v: int|
        #![trigger holders(cards, v)]
        pair_values(cards).contains(v) implies holders(cards, v) == set![v, v + k] && holders(
        cards,
        v,
    ).finite() && holders(cards, v).len() == 2 by {
        assert(holders(cards, v) =~= set![v, v + k]);
    }
}

} // verus!
