//! The fifty-two cards and the deck in its canonical order.

use vstd::prelude::*;

verus! {

/// The rank of a card. Ranks are only ever compared for equality.
#[derive(Clone, Copy, Debug, PartialEq, Eq, Structural)]
pub enum CardValue {
    Ace,
    Two,
    Three,
    Four,
    Five,
    Six,
    Seven,
    Eight,
    Nine,
    Ten,
    Jack,
    Queen,
    King,
}

/// The suit of a card.
#[derive(Clone, Copy, Debug, PartialEq, Eq, Structural)]
pub enum CardSuit {
    Spades,
    Clubs,
    Hearts,
    Diamonds,
}

/// One playing card: a rank and a suit.
#[derive(Clone, Copy, Debug, PartialEq, Eq, Structural)]
pub struct Card {
    pub value: CardValue,
    pub suit: CardSuit,
}

impl CardValue {
    /// Position of the rank within a suit, Ace first.
    pub open spec fn ordinal(self) -> int {
        match self {
            CardValue::Ace => 0,
            CardValue::Two => 1,
            CardValue::Three => 2,
            CardValue::Four => 3,
            CardValue::Five => 4,
            CardValue::Six => 5,
            CardValue::Seven => 6,
            CardValue::Eight => 7,
            CardValue::Nine => 8,
            CardValue::Ten => 9,
            CardValue::Jack => 10,
            CardValue::Queen => 11,
            CardValue::King => 12,
        }
    }

    /// The name of the rank as it is printed.
    pub open spec fn text(self) -> Seq<char> {
        match self {
            CardValue::Ace => "Ace"@,
            CardValue::Two => "Two"@,
            CardValue::Three => "Three"@,
            CardValue::Four => "Four"@,
            CardValue::Five => "Five"@,
            CardValue::Six => "Six"@,
            CardValue::Seven => "Seven"@,
            CardValue::Eight => "Eight"@,
            CardValue::Nine => "Nine"@,
            CardValue::Ten => "Ten"@,
            CardValue::Jack => "Jack"@,
            CardValue::Queen => "Queen"@,
            CardValue::King => "King"@,
        }
    }

    /// The name of the rank as it is printed.
    pub fn name(&self) -> (name: &'static str)
        ensures
            name@ == self.text(),
    {
        match self {
            CardValue::Ace => "Ace",
            CardValue::Two => "Two",
            CardValue::Three => "Three",
            CardValue::Four => "Four",
            CardValue::Five => "Five",
            CardValue::Six => "Six",
            CardValue::Seven => "Seven",
            CardValue::Eight => "Eight",
            CardValue::Nine => "Nine",
            CardValue::Ten => "Ten",
            CardValue::Jack => "Jack",
            CardValue::Queen => "Queen",
            CardValue::King => "King",
        }
    }

    /// The rank at a position within a suit; positions past the King give the King.
    pub open spec fn at(i: int) -> CardValue {
        if i <= 0 {
            CardValue::Ace
        } else if i == 1 {
            CardValue::Two
        } else if i == 2 {
            CardValue::Three
        } else if i == 3 {
            CardValue::Four
        } else if i == 4 {
            CardValue::Five
        } else if i == 5 {
            CardValue::Six
        } else if i == 6 {
            CardValue::Seven
        } else if i == 7 {
            CardValue::Eight
        } else if i == 8 {
            CardValue::Nine
        } else if i == 9 {
            CardValue::Ten
        } else if i == 10 {
            CardValue::Jack
        } else if i == 11 {
            CardValue::Queen
        } else {
            CardValue::King
        }
    }
}

impl CardSuit {
    /// Position of the suit in the canonical deck, Spades first.
    pub open spec fn ordinal(self) -> int {
        match self {
            CardSuit::Spades => 0,
            CardSuit::Clubs => 1,
            CardSuit::Hearts => 2,
            CardSuit::Diamonds => 3,
        }
    }

    /// The name of the suit as it is printed.
    pub open spec fn text(self) -> Seq<char> {
        match self {
            CardSuit::Spades => "Spades"@,
            CardSuit::Clubs => "Clubs"@,
            CardSuit::Hearts => "Hearts"@,
            CardSuit::Diamonds => "Diamonds"@,
        }
    }

    /// The name of the suit as it is printed.
    pub fn name(&self) -> (name: &'static str)
        ensures
            name@ == self.text(),
    {
        match self {
            CardSuit::Spades => "Spades",
            CardSuit::Clubs => "Clubs",
            CardSuit::Hearts => "Hearts",
            CardSuit::Diamonds => "Diamonds",
        }
    }

    /// The suit at a position in the canonical deck; positions past Diamonds give Diamonds.
    pub open spec fn at(i: int) -> CardSuit {
        if i <= 0 {
            CardSuit::Spades
        } else if i == 1 {
            CardSuit::Clubs
        } else if i == 2 {
            CardSuit::Hearts
        } else {
            CardSuit::Diamonds
        }
    }
}

impl Card {
    /// Position of the card in the canonical deck.
    pub open spec fn ordinal(self) -> int {
        self.suit.ordinal() * 13 + self.value.ordinal()
    }

    /// The card at a position of the canonical deck.
    pub open spec fn at(i: int) -> Card {
        Card { value: CardValue::at(i % 13), suit: CardSuit::at(i / 13) }
    }
}

/// The canonical deck: Ace to King of Spades, then Clubs, Hearts and Diamonds.
pub open spec fn canonical_deck() -> Seq<Card> {
    Seq::new(52, |i: int| Card::at(i))
}

/// A full deck in some order: the cards of the canonical deck, each exactly once.
pub open spec fn is_full_deck(cards: Seq<Card>) -> bool {
    cards.to_multiset() == canonical_deck().to_multiset()
}

/// Every card stands in the canonical deck, at its own ordinal.
pub proof fn lemma_card_ordinal(c: Card)
    ensures
        0 <= c.ordinal() < 52,
        canonical_deck()[c.ordinal()] == c,
{
}

/// The canonical deck holds fifty-two distinct cards.
pub proof fn lemma_canonical_deck_distinct()
    ensures
        canonical_deck().len() == 52,
        canonical_deck().no_duplicates(),
{
    assert forall|i: int, j: int|
        0 <= i < 52 && 0 <= j < 52 && i != j implies canonical_deck()[i] != canonical_deck()[j] by {
        assert(Card::at(i).ordinal() == i);
        assert(Card::at(j).ordinal() == j);
    }
}

/// Builds the deck in canonical order.
pub fn gen_deck() -> (deck: [Card; 52])
    ensures
        deck@ == canonical_deck(),
        is_full_deck(deck@),
{
    let deck = [
        // Spades
        Card { value: CardValue::Ace, suit: CardSuit::Spades },
        Card { value: CardValue::Two, suit: CardSuit::Spades },
        Card { value: CardValue::Three, suit: CardSuit::Spades },
        Card { value: CardValue::Four, suit: CardSuit::Spades },
        Card { value: CardValue::Five, suit: CardSuit::Spades },
        Card { value: CardValue::Six, suit: CardSuit::Spades },
        Card { value: CardValue::Seven, suit: CardSuit::Spades },
        Card { value: CardValue::Eight, suit: CardSuit::Spades },
        Card { value: CardValue::Nine, suit: CardSuit::Spades },
        Card { value: CardValue::Ten, suit: CardSuit::Spades },
        Card { value: CardValue::Jack, suit: CardSuit::Spades },
        Card { value: CardValue::Queen, suit: CardSuit::Spades },
        Card { value: CardValue::King, suit: CardSuit::Spades },
        // Clubs
        Card { value: CardValue::Ace, suit: CardSuit::Clubs },
        Card { value: CardValue::Two, suit: CardSuit::Clubs },
        Card { value: CardValue::Three, suit: CardSuit::Clubs },
        Card { value: CardValue::Four, suit: CardSuit::Clubs },
        Card { value: CardValue::Five, suit: CardSuit::Clubs },
        Card { value: CardValue::Six, suit: CardSuit::Clubs },
        Card { value: CardValue::Seven, suit: CardSuit::Clubs },
        Card { value: CardValue::Eight, suit: CardSuit::Clubs },
        Card { value: CardValue::Nine, suit: CardSuit::Clubs },
        Card { value: CardValue::Ten, suit: CardSuit::Clubs },
        Card { value: CardValue::Jack, suit: CardSuit::Clubs },
        Card { value: CardValue::Queen, suit: CardSuit::Clubs },
        Card { value: CardValue::King, suit: CardSuit::Clubs },
        // Hearts
        Card { value: CardValue::Ace, suit: CardSuit::Hearts },
        Card { value: CardValue::Two, suit: CardSuit::Hearts },
        Card { value: CardValue::Three, suit: CardSuit::Hearts },
        Card { value: CardValue::Four, suit: CardSuit::Hearts },
        Card { value: CardValue::Five, suit: CardSuit::Hearts },
        Card { value: CardValue::Six, suit: CardSuit::Hearts },
        Card { value: CardValue::Seven, suit: CardSuit::Hearts },
        Card { value: CardValue::Eight, suit: CardSuit::Hearts },
        Card { value: CardValue::Nine, suit: CardSuit::Hearts },
        Card { value: CardValue::Ten, suit: CardSuit::Hearts },
        Card { value: CardValue::Jack, suit: CardSuit::Hearts },
        Card { value: CardValue::Queen, suit: CardSuit::Hearts },
        Card { value: CardValue::King, suit: CardSuit::Hearts },
        // Diamonds
        Card { value: CardValue::Ace, suit: CardSuit::Diamonds },
        Card { value: CardValue::Two, suit: CardSuit::Diamonds },
        Card { value: CardValue::Three, suit: CardSuit::Diamonds },
        Card { value: CardValue::Four, suit: CardSuit::Diamonds },
        Card { value: CardValue::Five, suit: CardSuit::Diamonds },
        Card { value: CardValue::Six, suit: CardSuit::Diamonds },
        Card { value: CardValue::Seven, suit: CardSuit::Diamonds },
        Card { value: CardValue::Eight, suit: CardSuit::Diamonds },
        Card { value: CardValue::Nine, suit: CardSuit::Diamonds },
        Card { value: CardValue::Ten, suit: CardSuit::Diamonds },
        Card { value: CardValue::Jack, suit: CardSuit::Diamonds },
        Card { value: CardValue::Queen, suit: CardSuit::Diamonds },
        Card { value: CardValue::King, suit: CardSuit::Diamonds },
    ];
    assert(deck@ =~= canonical_deck());
    deck
}

} // verus!
