//! The reduction automaton: cards are dealt onto a row of piles, and the top
//! pile is matched against the pile three beneath it until the deck runs out.

use vstd::prelude::*;
use crate::cards::Card;

verus! {

/// The table at one moment of a game.
pub struct Table {
    /// Cards taken from the deck so far: the deal cursor.
    pub dealt: nat,
    /// The top card of each active pile, the oldest pile first.
    pub piles: Seq<Card>,
    /// Cards that have left the row for good, discarded or covered.
    pub gone: nat,
}

impl Table {
    /// The empty table before the first deal.
    pub open spec fn start() -> Table {
        Table { dealt: 0, piles: Seq::empty(), gone: 0 }
    }

    /// The newest pile.
    pub open spec fn top(self) -> Card {
        self.piles[self.piles.len() - 1]
    }

    /// The pile three beneath the newest one.
    pub open spec fn base(self) -> Card {
        self.piles[self.piles.len() - 4]
    }

    /// The next card of the deck becomes a new top pile.
    pub open spec fn deal(self, deck: Seq<Card>) -> Table {
        Table {
            dealt: self.dealt + 1,
            piles: self.piles.push(deck[self.dealt as int]),
            gone: self.gone,
        }
    }

    /// Rank match: the four newest piles leave the row.
    pub open spec fn collapse(self) -> Table {
        Table {
            dealt: self.dealt,
            piles: self.piles.subrange(0, self.piles.len() - 4),
            gone: self.gone + 4,
        }
    }

    /// Suit match: the two piles between the matching pair are absorbed. The
    /// pile three beneath stays, the top card moves down to lie next to it, and
    /// the row is two piles shorter with the same card on top.
    pub open spec fn absorb(self) -> Table {
        Table {
            dealt: self.dealt,
            piles: self.piles.subrange(0, self.piles.len() - 3).push(self.top()),
            gone: self.gone + 2,
        }
    }

    /// One turn of the automaton, taken while cards remain in the deck.
    ///
    /// With fewer than four piles a card is dealt first, and the turn ends
    /// there unless that made the fourth pile. With four piles or more the top
    /// is held against the pile three beneath it: equal rank collapses the
    /// four, else equal suit absorbs the middle two, else the next card is
    /// dealt if there is one. Rank is always tried before suit.
    pub open spec fn turn(self, deck: Seq<Card>) -> Table {
        let t = if self.piles.len() < 4 {
            self.deal(deck)
        } else {
            self
        };
        if t.piles.len() < 4 {
            t
        } else if t.top().value == t.base().value {
            t.collapse()
        } else if t.top().suit == t.base().suit {
            t.absorb()
        } else if t.dealt < deck.len() {
            t.deal(deck)
        } else {
            t
        }
    }

    /// What bounds the turns still to come: each turn lowers it.
    pub open spec fn fuel(self, deck: Seq<Card>) -> int {
        2 * (deck.len() - self.dealt) + self.piles.len()
    }

    /// Cards are neither made nor lost: every card dealt is in a pile or gone,
    /// and cards only ever leave the row in pairs.
    pub open spec fn balanced(self, deck: Seq<Card>) -> bool {
        &&& self.dealt <= deck.len()
        &&& self.piles.len() + self.gone == self.dealt
        &&& self.gone % 2 == 0
    }

    /// The table once the deck is exhausted: turns are taken as long as a card
    /// is left to deal.
    pub open spec fn play(self, deck: Seq<Card>) -> Table
        decreases self.fuel(deck),
    {
        if self.dealt >= deck.len() {
            self
        } else {
            self.turn(deck).play(deck)
        }
    }

    /// Number of turns taken from this table until the deck is exhausted.
    pub open spec fn turns(self, deck: Seq<Card>) -> nat
        decreases self.fuel(deck),
    {
        if self.dealt >= deck.len() {
            0
        } else {
            1 + self.turn(deck).turns(deck)
        }
    }
}

impl Table {
    /// The table after `n` turns, or the final table if the deck ran out sooner.
    pub open spec fn after(self, deck: Seq<Card>, n: nat) -> Table
        decreases n,
    {
        if n == 0 || self.dealt >= deck.len() {
            self
        } else {
            self.turn(deck).after(deck, (n - 1) as nat)
        }
    }

    /// A turn never takes a card back, never deals past the end of the deck,
    /// and always lowers the fuel.
    pub proof fn lemma_turn_progress(self, deck: Seq<Card>)
        requires
            self.dealt < deck.len(),
        ensures
            self.dealt <= self.turn(deck).dealt <= deck.len(),
            self.turn(deck).dealt <= self.dealt + 2,
            0 <= self.turn(deck).fuel(deck) < self.fuel(deck),
    {
    }

    /// A turn keeps the cards in balance.
    pub proof fn lemma_turn_balanced(self, deck: Seq<Card>)
        requires
            self.balanced(deck),
            self.dealt < deck.len(),
        ensures
            self.turn(deck).balanced(deck),
    {
    }

    /// The game ends: from any table the deck is dealt out to its last card,
    /// no further, within as many turns as the fuel allows.
    pub proof fn lemma_play_ends(self, deck: Seq<Card>)
        requires
            self.dealt <= deck.len(),
        ensures
            self.play(deck).dealt == deck.len(),
            self.turns(deck) <= self.fuel(deck),
            self.after(deck, self.turns(deck)) == self.play(deck),
        decreases self.fuel(deck),
    {
        if self.dealt < deck.len() {
            self.lemma_turn_progress(deck);
            self.turn(deck).lemma_play_ends(deck);
        }
    }

    /// The cards stay in balance at every step of a game.
    pub proof fn lemma_after_balanced(self, deck: Seq<Card>, n: nat)
        requires
            self.balanced(deck),
        ensures
            self.after(deck, n).balanced(deck),
        decreases n,
    {
        if n > 0 && self.dealt < deck.len() {
            self.lemma_turn_balanced(deck);
            self.turn(deck).lemma_after_balanced(deck, (n - 1) as nat);
        }
    }
}

/// Every game ends after at most as many deals as the deck has cards, and
/// within twice as many turns: the deal cursor only moves forward and stops at
/// the end of the deck.
pub proof fn lemma_game_terminates(deck: Seq<Card>)
    ensures
        Table::start().play(deck).dealt == deck.len(),
        Table::start().turns(deck) <= 2 * deck.len(),
        forall|n: nat| (#[trigger] Table::start().after(deck, n)).dealt <= deck.len(),
{
    Table::start().lemma_play_ends(deck);
    assert forall|n: nat| (#[trigger] Table::start().after(deck, n)).dealt <= deck.len() by {
        Table::start().lemma_after_balanced(deck, n);
    }
}

/// No card is made or lost: after any number of turns the cards still in the
/// deck, those in piles and those gone add up to the whole deck, and at the end
/// of the game the piles and the cards gone account for all of it. The cards
/// gone are even in number, so an even deck leaves an even number of piles.
pub proof fn lemma_cards_accounted(deck: Seq<Card>, n: nat)
    ensures
        ({
            let t = Table::start().after(deck, n);
            (deck.len() - t.dealt) + t.piles.len() + t.gone == deck.len()
        }),
        ({
            let end = Table::start().play(deck);
            end.piles.len() + end.gone == deck.len()
        }),
        -1 <= outcome(deck) <= deck.len() - 1,
        (deck.len() - (outcome(deck) + 1)) % 2 == 0,
{
    let start = Table::start();
    start.lemma_after_balanced(deck, n);
    start.lemma_play_ends(deck);
    start.lemma_after_balanced(deck, start.turns(deck));
}

/// The outcome depends on the order of the cards alone: two decks in the same
/// order end with the same code and the same piles.
pub proof fn lemma_outcome_deterministic(first: [Card; 52], second: [Card; 52])
    requires
        first@ == second@,
    ensures
        outcome(first@) == outcome(second@),
        Table::start().play(first@) == Table::start().play(second@),
{
}

/// The termination code of a deck: the index of the top pile when the game
/// ends, so one less than the number of piles left; -1 is a perfect clear.
pub open spec fn outcome(deck: Seq<Card>) -> int {
    Table::start().play(deck).piles.len() - 1
}

/// Plays one game on `deck` and returns its termination code.
///
/// `hand` is scratch space for the row of piles; on return its first
/// `code + 1` slots hold the piles that were left.
pub fn play_game(deck: &[Card; 52], hand: &mut [Card; 52]) -> (code: i8)
    ensures
        code == outcome(deck@),
        -1 <= code <= 51,
        (code + 1) % 2 == 0,
        final(hand)@.subrange(0, code + 1) == Table::start().play(deck@).piles,
{
    let mut deck_index: usize = 0;
    let mut hand_index: i8 = -1;

    assert(hand@.subrange(0, 0) =~= Table::start().piles);
    while deck_index < 52
        invariant
            deck_index <= 52,
            -1 <= hand_index,
            hand_index + 1 <= deck_index,
            (deck_index - (hand_index + 1)) % 2 == 0,
            (Table {
                dealt: deck_index as nat,
                piles: hand@.subrange(0, hand_index + 1),
                gone: (deck_index - (hand_index + 1)) as nat,
            }).play(deck@) == Table::start().play(deck@),
        decreases 2 * (52 - deck_index) + (hand_index + 1),
    {
        let ghost before = Table {
            dealt: deck_index as nat,
            piles: hand@.subrange(0, hand_index + 1),
            gone: (deck_index - (hand_index + 1)) as nat,
        };
        if hand_index < 3 {
            hand_index += 1;
            hand[hand_index as usize] = deck[deck_index];
            deck_index += 1;
            assert(hand@.subrange(0, hand_index + 1) =~= before.deal(deck@).piles);
        }
        let ghost dealt_in = Table {
            dealt: deck_index as nat,
            piles: hand@.subrange(0, hand_index + 1),
            gone: (deck_index - (hand_index + 1)) as nat,
        };
        if hand_index >= 3 {
            let top = hand[hand_index as usize];
            let base = hand[(hand_index - 3) as usize];
            assert(top == dealt_in.top());
            assert(base == dealt_in.base());
            if top.value == base.value {
                hand_index -= 4;
                assert(hand@.subrange(0, hand_index + 1) =~= dealt_in.collapse().piles);
            } else if top.suit == base.suit {
                hand[(hand_index - 2) as usize] = top;
                hand_index -= 2;
                assert(hand@.subrange(0, hand_index + 1) =~= dealt_in.absorb().piles);
            } else if deck_index < 52 {
                hand_index += 1;
                hand[hand_index as usize] = deck[deck_index];
                deck_index += 1;
                assert(hand@.subrange(0, hand_index + 1) =~= dealt_in.deal(deck@).piles);
            }
        }
        assert((Table {
            dealt: deck_index as nat,
            piles: hand@.subrange(0, hand_index + 1),
            gone: (deck_index - (hand_index + 1)) as nat,
        }) == before.turn(deck@));
    }
    hand_index
}

} // verus!
