use crate::dna::{combine_spec, gender_of, Kitty};
use crate::registry::{AccountId, Balance, Error, Kitties, PaymentAttempt};
use vstd::prelude::*;

verus! {

/// A selector of all zero bits keeps the first byte; one of all one bits takes
/// the second.
pub proof fn lemma_combine_selector_extremes(a: u8, b: u8)
    ensures
        combine_spec(a, b, 0x00) == a,
        combine_spec(a, b, 0xFF) == b,
{
    assert((!0x00u8 & a) | (0x00u8 & b) == a) by (bit_vector);
    assert((!0xFFu8 & a) | (0xFFu8 & b) == b) by (bit_vector);
}

/// Each successful mint advances the counter by exactly one, so two mints, the
/// second made no earlier than the first, return different ids.
pub proof fn lemma_mint_ids_unique(
    pre1: Kitties,
    post1: Kitties,
    owner1: AccountId,
    kitty1: Kitty,
    id1: u32,
    pre2: Kitties,
    post2: Kitties,
    owner2: AccountId,
    kitty2: Kitty,
    id2: u32,
)
    requires
        Kitties::mint_spec(pre1, post1, owner1, kitty1, Ok(id1)),
        Kitties::mint_spec(pre2, post2, owner2, kitty2, Ok(id2)),
        post1.next_id() <= pre2.next_id(),
    ensures
        post1.next_id() == pre1.next_id() + 1,
        post2.next_id() == pre2.next_id() + 1,
        id1 < id2,
{
}

/// Transferring a kitty to its own owner changes nothing and emits nothing, and
/// fails exactly when the kitty is not the owner's.
pub proof fn lemma_self_transfer_is_noop(
    pre: Kitties,
    post: Kitties,
    owner: AccountId,
    id: u32,
    r: Result<(), Error>,
)
    requires
        Kitties::transfer_spec(pre, post, owner, id, owner, r),
    ensures
        Kitties::unchanged(pre, post),
        r is Ok <==> pre.owns(owner, id),
        !pre.owns(owner, id) ==> r == Err::<(), Error>(Error::KittenNotFound),
{
}

/// After a successful transfer to another account the kitty is not listed.
pub proof fn lemma_transfer_clears_listing(
    pre: Kitties,
    post: Kitties,
    sender: AccountId,
    id: u32,
    dest: AccountId,
    r: Result<(), Error>,
)
    requires
        Kitties::transfer_spec(pre, post, sender, id, dest, r),
        sender != dest,
        r is Ok,
    ensures
        !post.prices().contains_key(id),
        post.owns(dest, id),
{
}

/// An accepted purchase whose payment fails returns the payment's error and
/// leaves the kitty with its owner, listed at the price it had before.
pub proof fn lemma_failed_payment_keeps_state(
    pre: Kitties,
    post: Kitties,
    buyer: AccountId,
    owner: AccountId,
    id: u32,
    max_price: Balance,
    before: Seq<PaymentAttempt>,
    after: Seq<PaymentAttempt>,
    r: Result<(), Error>,
)
    requires
        pre.quote_spec(buyer, owner, id, max_price) is Ok,
        Kitties::buy_spec(pre, post, buyer, owner, id, max_price, r),
        Kitties::payment_spec(pre, buyer, owner, id, max_price, before, after, r),
        after.last().outcome is Err,
    ensures
        after.len() == before.len() + 1,
        r == Err::<(), Error>(Error::Payment(after.last().outcome->Err_0)),
        pre.owns(owner, id),
        post.owns(owner, id),
        post.kitty_of(id) == pre.kitty_of(id),
        pre.prices().contains_key(id),
        post.prices().contains_key(id),
        post.prices()[id] == pre.prices()[id],
        Kitties::unchanged(pre, post),
{
}

/// Breeding two owned kitties of the same gender fails with `SameGenderBreed`;
/// of different genders it succeeds, while ids remain, with an id that neither
/// parent has.
pub proof fn lemma_breed_gender_rule(
    pre: Kitties,
    post: Kitties,
    sender: AccountId,
    first: u32,
    second: u32,
    selector: Seq<u8>,
    r: Result<u32, Error>,
)
    requires
        pre.wf(),
        Kitties::breed_spec(pre, post, sender, first, second, selector, r),
        pre.owns(sender, first),
        pre.owns(sender, second),
    ensures
        gender_of(pre.kitty_of(first)@) == gender_of(pre.kitty_of(second)@) ==> r == Err::<
            u32,
            Error,
        >(Error::SameGenderBreed),
        gender_of(pre.kitty_of(first)@) != gender_of(pre.kitty_of(second)@) && pre.next_id()
            < u32::MAX ==> (r matches Ok(id) && id != first && id != second && post.owns(sender, id)),
{
}

/// Withdrawing a listed kitty from sale makes a following purchase of it fail
/// with `NotForSale`, changing nothing and requesting no payment.
pub proof fn lemma_delisted_not_for_sale(
    s0: Kitties,
    s1: Kitties,
    owner: AccountId,
    id: u32,
    r1: Result<(), Error>,
    s2: Kitties,
    buyer: AccountId,
    max_price: Balance,
    before: Seq<PaymentAttempt>,
    after: Seq<PaymentAttempt>,
    r2: Result<(), Error>,
)
    requires
        s0.owns(owner, id),
        s0.prices().contains_key(id),
        Kitties::set_price_spec(s0, s1, owner, id, None, r1),
        Kitties::buy_spec(s1, s2, buyer, owner, id, max_price, r2),
        Kitties::payment_spec(s1, buyer, owner, id, max_price, before, after, r2),
        buyer != owner,
    ensures
        r1 is Ok,
        !s1.prices().contains_key(id),
        r2 == Err::<(), Error>(Error::NotForSale),
        Kitties::unchanged(s1, s2),
        after == before,
{
}

} // verus!
