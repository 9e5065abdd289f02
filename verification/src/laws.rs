//! The subsystem's cross-operation guarantees, stated and proved once over
//! the same spec functions the operations' contracts use. The token and
//! password round trips live beside their codecs (`jwt`, `password`);
//! uniqueness of registration is the `register` contract itself (success
//! establishes `email_taken`, and `EmailAlreadyExists` holds exactly when
//! it already held); the store-level guarantees live here.

use vstd::prelude::*;
use crate::codes::{
    code_matches, has_live_code, has_usable_token, not_user_code, token_usable,
};
use crate::store::{User, ResetToken, VerificationCode, has_username, merged_username};

verus! {

/// Single-use verification codes: after a successful `verify_code` — which
/// leaves exactly the rows of other users, as its contract ensures — no
/// live code whatsoever remains for that user, so a second attempt with
/// the same (or any) code at any moment is a negative outcome.
pub proof fn lemma_code_single_use(codes_before: Seq<VerificationCode>, uid: i32)
    ensures
        forall|code: Seq<char>, t: int|
            !#[trigger] has_live_code(codes_before.filter(not_user_code(uid)), uid, code, t),
{
    let f = codes_before.filter(not_user_code(uid));
    assert forall|code: Seq<char>, t: int| !#[trigger] has_live_code(f, uid, code, t) by {
        assert forall|k: int| 0 <= k < f.len() implies !code_matches(f[k], uid, code, t) by {
            codes_before.lemma_filter_pred(not_user_code(uid), k);
        }
    }
}

/// Single-use reset tokens: after a consume — which flips exactly one row,
/// the one carrying the token, to used, as `consume_reset_token`'s contract
/// ensures — no row can authorize that token at any moment, because token
/// strings are unique across rows. Two concurrent attempts therefore cannot
/// both succeed: whichever runs second finds the row used.
pub proof fn lemma_reset_token_single_use(
    pre: Seq<ResetToken>,
    post: Seq<ResetToken>,
    ti: int,
    token: Seq<char>,
)
    requires
        0 <= ti < pre.len(),
        pre[ti].token@ == token,
        forall|i: int, j: int|
            0 <= i < j < pre.len() ==> (#[trigger] pre[i]).token@ != (#[trigger] pre[j]).token@,
        post.len() == pre.len(),
        forall|j: int| 0 <= j < pre.len() && j != ti ==> post[j] == pre[j],
        post[ti].is_used,
    ensures
        forall|t: int| !#[trigger] has_usable_token(post, token, t),
{
    assert forall|t: int| !#[trigger] has_usable_token(post, token, t) by {
        assert forall|k: int| 0 <= k < post.len() implies !token_usable(
            #[trigger] post[k],
            token,
            t,
        ) by {
            if k != ti {
                assert(post[k].token@ == pre[k].token@);
                assert(pre[k].token@ != pre[ti].token@);
            }
        }
    }
}

/// No downgrade on OAuth link: a username the user already holds survives
/// every merge untouched, whatever name the provider supplies. This is the
/// rule `link_oauth`'s contract applies through `merged_username`.
pub proof fn lemma_oauth_no_downgrade(
    users: Seq<User>,
    current: Seq<char>,
    supplied: Option<Seq<char>>,
)
    ensures
        merged_username(users, Option::Some(current), supplied) == Option::Some(current),
{
}

/// The fill-gap side of the merge rule: a missing username is only ever
/// filled with a name no record holds yet.
pub proof fn lemma_oauth_fill_respects_uniqueness(users: Seq<User>, supplied: Seq<char>)
    requires
        has_username(users, supplied),
    ensures
        merged_username(users, Option::None, Option::Some(supplied)) is None,
{
}

} // verus!
