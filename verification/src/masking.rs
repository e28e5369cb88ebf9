//! The display-safe form of a card number.

use vstd::prelude::*;
use vstd::string::*;

verus! {

/// What stands in place of every digit but the last four.
pub open spec fn mask_prefix() -> Seq<char> {
    "XXXX-XXXX-XXXX-"@
}

/// The last four characters of a card number.
pub open spec fn last_four(card_number: Seq<char>) -> Seq<char>
    recommends
        card_number.len() >= 4,
{
    card_number.subrange(card_number.len() - 4, card_number.len() as int)
}

/// The masked form of a card number: the fixed prefix, then its last four
/// characters, whatever the number's length or network.
pub open spec fn masked(card_number: Seq<char>) -> Seq<char>
    recommends
        card_number.len() >= 4,
{
    mask_prefix() + last_four(card_number)
}

/// The shape of every masked card: the fixed prefix and four characters
/// more.
pub open spec fn is_masked_card(text: Seq<char>) -> bool {
    text.len() == 19 && mask_prefix().is_prefix_of(text)
}

/// The masked form of a card number of at least four characters has the
/// shape of a masked card.
pub proof fn lemma_masked_is_masked_card(card_number: Seq<char>)
    requires
        card_number.len() >= 4,
    ensures
        is_masked_card(masked(card_number)),
{
    reveal_strlit("XXXX-XXXX-XXXX-");
    assert(masked(card_number).subrange(0, 15) =~= mask_prefix());
}

/// Masks a card number. A number that has passed validation has at least
/// twelve characters; four are enough here, and a caller must know that
/// there are four.
pub fn mask_card(card_number: &str) -> (masked_card: String)
    requires
        card_number@.len() >= 4,
    ensures
        masked_card@ == masked(card_number@),
{
    let len: usize = card_number.unicode_len();
    let tail = card_number.substring_char(len - 4, len);
    let mut masked_card = "XXXX-XXXX-XXXX-".to_owned();
    masked_card.append(tail);
    masked_card
}

} // verus!
