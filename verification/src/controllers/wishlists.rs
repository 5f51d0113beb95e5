use vstd::prelude::*;
use crate::error::ApiError;
use crate::models::ActiveValue;
use crate::models::products::ProductSnapshot;
use crate::models::users;
use crate::models::wishlists::{ActiveModel, Model};
use crate::views::base::BaseResponse;

verus! {

/// The product a user puts on their wishlist; `user_id` is ignored, the
/// owner is always the signed-in user.
#[derive(Debug)]
pub struct WishListPostParams {
    pub product_id: i32,
    pub user_id: Option<i32>,
}

impl WishListPostParams {
    /// Sets the entry's product; nothing else changes.
    pub fn update(&self, wishlist: &mut ActiveModel)
        ensures
            *final(wishlist) == (ActiveModel {
                product_id: ActiveValue::Changed(self.product_id),
                ..*old(wishlist)
            }),
    {
        wishlist.product_id = ActiveValue::Changed(self.product_id);
    }
}

/// The refusal to put one's own product on one's wishlist.
pub open spec fn own_product_message() -> Seq<char> {
    "You are not allowed to add your own products to the wishlist."@
}

/// The product a wishlist entry is for: a 404 "Product not found!" when it
/// does not exist, a 400 when the user sells it.
pub fn check_wishlist_product(user: &users::Model, product: Option<&ProductSnapshot>) -> (res: Result<(), ApiError>)
    ensures
        match product {
            None => res matches Err(ApiError::Custom { status, error, description }) && status == 404
                && error@ == "not_found"@ && description@ == "Product not found!"@,
            Some(p) => if p.seller_id == user.id {
                res matches Err(ApiError::Custom { status, error, description }) && status == 400
                    && error@ == "bad_request"@ && description@ == own_product_message()
            } else {
                res is Ok
            },
        },
{
    let product = match product {
        Some(p) => p,
        None => {
            return Err(
                ApiError::Custom {
                    status: 404,
                    error: "not_found".to_owned(),
                    description: "Product not found!".to_owned(),
                },
            );
        },
    };
    if user.id == product.seller_id {
        return Err(
            ApiError::Custom {
                status: 400,
                error: "bad_request".to_owned(),
                description: "You are not allowed to add your own products to the wishlist.".to_owned(),
            },
        );
    }
    Ok(())
}

/// What putting a product on the wishlist writes.
#[derive(Debug)]
pub enum WishlistWrite {
    /// The user had the product on their wishlist before: the entry is
    /// marked present again.
    Restore(ActiveModel),
    /// A new entry.
    Create(ActiveModel),
}

/// The write that puts product `product_id` on user `user_id`'s wishlist:
/// the user's entry for it (`existing`, deleted or not) marked present again,
/// or else a new entry.
pub open spec fn wishlist_write(user_id: i32, existing: Option<Model>, product_id: i32) -> WishlistWrite {
    match existing {
        Some(w) => WishlistWrite::Restore(ActiveModel { is_deleted: ActiveValue::Changed(false), ..w.unchanged() }),
        None => WishlistWrite::Create(
            ActiveModel {
                id: ActiveValue::NotSet,
                user_id: ActiveValue::Changed(user_id),
                product_id: ActiveValue::Changed(product_id),
                is_deleted: ActiveValue::NotSet,
            },
        ),
    }
}

/// Putting a product on the wishlist: the checks of `check_wishlist_product`
/// (a 404 "Product not found!" when `product`, the looked-up product, is
/// missing, a 400 when the user sells it), then the write (see
/// `wishlist_write`); `existing` is the user's entry for the product, deleted
/// or not. The params' `user_id` plays no part.
pub fn user_wishlist_new(
    user: &users::Model,
    product: Option<&ProductSnapshot>,
    existing: Option<Model>,
    params: &WishListPostParams,
) -> (res: Result<WishlistWrite, ApiError>)
    ensures
        match product {
            None => res matches Err(ApiError::Custom { status, error, description }) && status == 404
                && error@ == "not_found"@ && description@ == "Product not found!"@,
            Some(p) => if p.seller_id == user.id {
                res matches Err(ApiError::Custom { status, error, description }) && status == 400
                    && error@ == "bad_request"@ && description@ == own_product_message()
            } else {
                res == Ok::<WishlistWrite, ApiError>(wishlist_write(user.id, existing, params.product_id))
            },
        },
{
    check_wishlist_product(user, product)?;
    match existing {
        Some(w) => Ok(WishlistWrite::Restore(w.into_active_model().set_wishlist_un_deleted())),
        None => {
            let mut wishlist = ActiveModel::new();
            wishlist.user_id = ActiveValue::Changed(user.id);
            params.update(&mut wishlist);
            Ok(WishlistWrite::Create(wishlist))
        },
    }
}

/// The user's entry for a product, or a 404 "Wishlist not found!".
pub fn load_wishlist(found: Option<Model>) -> (res: Result<Model, ApiError>)
    ensures
        match found {
            Some(w) => res == Ok::<Model, ApiError>(w),
            None => res matches Err(ApiError::Custom { status, error, description }) && status == 404
                && error@ == "not_found"@ && description@ == "Wishlist not found!"@,
        },
{
    match found {
        Some(w) => Ok(w),
        None => Err(
            ApiError::Custom {
                status: 404,
                error: "not_found".to_owned(),
                description: "Wishlist not found!".to_owned(),
            },
        ),
    }
}

/// The write that takes an entry off the wishlist: it is only marked
/// deleted.
pub open spec fn removal(w: Model) -> ActiveModel {
    ActiveModel { is_deleted: ActiveValue::Changed(true), ..w.unchanged() }
}

/// Taking a product off the wishlist: the user's entry for it marked deleted
/// (see `removal`), or a 404 "Wishlist not found!" when there is none.
pub fn user_wishlist_delete(found: Option<Model>) -> (res: Result<ActiveModel, ApiError>)
    ensures
        match found {
            Some(w) => res == Ok::<ActiveModel, ApiError>(removal(w)),
            None => res matches Err(ApiError::Custom { status, error, description }) && status == 404
                && error@ == "not_found"@ && description@ == "Wishlist not found!"@,
        },
{
    let w = load_wishlist(found)?;
    Ok(w.into_active_model().set_wishlist_deleted())
}

/// The answer to adding a product to the wishlist.
pub fn wishlist_added() -> (res: BaseResponse)
    ensures
        res.status@ == "success"@,
        res.message@ == "Successfully added into wishlist"@,
{
    BaseResponse::new(&"success".to_owned(), &"Successfully added into wishlist".to_owned())
}

/// The answer to taking a product off the wishlist.
pub fn wishlist_deleted() -> (res: BaseResponse)
    ensures
        res.status@ == "success"@,
        res.message@ == "Wishlist delete successfully"@,
{
    BaseResponse::new(&"success".to_owned(), &"Wishlist delete successfully".to_owned())
}


/// The wishlist table as rows by id: each row is stored under its own id.
pub open spec fn well_keyed(t: Map<i32, Model>) -> bool {
    forall|k: i32| #[trigger] t.dom().contains(k) ==> t[k].id == k
}

/// Whether row `k` of the table is user `u`'s entry for product `p`.
pub open spec fn is_entry(t: Map<i32, Model>, k: i32, u: i32, p: i32) -> bool {
    t.dom().contains(k) && t[k].user_id == u && t[k].product_id == p
}

/// The table holds at most one entry of user `u` for product `p`.
pub open spec fn at_most_one_entry(t: Map<i32, Model>, u: i32, p: i32) -> bool {
    forall|j: i32, k: i32| #[trigger] is_entry(t, j, u, p) && #[trigger] is_entry(t, k, u, p) ==> j == k
}

/// The table holds exactly one entry of user `u` for product `p`, and its
/// deleted mark is `deleted`.
pub open spec fn one_entry(t: Map<i32, Model>, u: i32, p: i32, deleted: bool) -> bool {
    at_most_one_entry(t, u, p) && exists|k: i32| #[trigger] is_entry(t, k, u, p) && t[k].is_deleted == deleted
}

/// The user's entry for the product that a lookup of the table finds.
pub open spec fn entry_of(t: Map<i32, Model>, u: i32, p: i32) -> Option<Model> {
    if exists|k: i32| is_entry(t, k, u, p) {
        Some(t[choose|k: i32| is_entry(t, k, u, p)])
    } else {
        None
    }
}

/// A column's value after a write: the written value, or `current`.
pub open spec fn column<T>(v: ActiveValue<T>, current: T) -> T {
    match v {
        ActiveValue::Changed(x) => x,
        _ => current,
    }
}

/// The table once a row is saved: a row with an id updates the stored row
/// of that id, column by column; a row without one is inserted under the
/// fresh id `fresh`, its unset columns at their defaults (0, and not deleted).
pub open spec fn saved(t: Map<i32, Model>, a: ActiveModel, fresh: i32) -> Map<i32, Model> {
    match a.id {
        ActiveValue::NotSet => t.insert(
            fresh,
            Model {
                id: fresh,
                user_id: column(a.user_id, 0),
                product_id: column(a.product_id, 0),
                is_deleted: column(a.is_deleted, false),
            },
        ),
        ActiveValue::Changed(id) => saved_at(t, a, id),
        ActiveValue::Unchanged(id) => saved_at(t, a, id),
    }
}

/// The table once the row of id `id` is updated with the written columns.
pub open spec fn saved_at(t: Map<i32, Model>, a: ActiveModel, id: i32) -> Map<i32, Model> {
    if t.dom().contains(id) {
        t.insert(
            id,
            Model {
                id,
                user_id: column(a.user_id, t[id].user_id),
                product_id: column(a.product_id, t[id].product_id),
                is_deleted: column(a.is_deleted, t[id].is_deleted),
            },
        )
    } else {
        t
    }
}

/// The row a wishlist write saves.
pub open spec fn written(w: WishlistWrite) -> ActiveModel {
    match w {
        WishlistWrite::Restore(a) => a,
        WishlistWrite::Create(a) => a,
    }
}

proof fn lemma_entry_of(t: Map<i32, Model>, k: i32, u: i32, p: i32)
    requires
        at_most_one_entry(t, u, p),
        is_entry(t, k, u, p),
    ensures
        entry_of(t, u, p) == Some(t[k]),
{
    let c = choose|k: i32| is_entry(t, k, u, p);
    assert(is_entry(t, c, u, p));
}

/// Putting a product on the wishlist, once or again, leaves exactly one
/// entry of the user for it, and that entry is present: adding again marks
/// the entry found present instead of adding a second one.
pub proof fn law_adding_keeps_one_live_entry(t: Map<i32, Model>, u: i32, p: i32, fresh: i32)
    requires
        well_keyed(t),
        at_most_one_entry(t, u, p),
        !t.dom().contains(fresh),
    ensures
        well_keyed(saved(t, written(wishlist_write(u, entry_of(t, u, p), p)), fresh)),
        one_entry(saved(t, written(wishlist_write(u, entry_of(t, u, p), p)), fresh), u, p, false),
{
    let t2 = saved(t, written(wishlist_write(u, entry_of(t, u, p), p)), fresh);
    if exists|k: i32| is_entry(t, k, u, p) {
        let k = choose|k: i32| is_entry(t, k, u, p);
        lemma_entry_of(t, k, u, p);
        assert(t[k].id == k);
        assert(t2 == t.insert(k, Model { is_deleted: false, ..t[k] }));
        assert(is_entry(t2, k, u, p));
        assert forall|i: i32, j: i32| #[trigger] is_entry(t2, i, u, p) && #[trigger] is_entry(t2, j, u, p) implies i == j by {
            assert(is_entry(t, i, u, p));
            assert(is_entry(t, j, u, p));
        }
    } else {
        assert(t2 == t.insert(fresh, Model { id: fresh, user_id: u, product_id: p, is_deleted: false }));
        assert(is_entry(t2, fresh, u, p));
        assert forall|i: i32, j: i32| #[trigger] is_entry(t2, i, u, p) && #[trigger] is_entry(t2, j, u, p) implies i == j by {
            if i != fresh {
                assert(is_entry(t, i, u, p));
            }
            if j != fresh {
                assert(is_entry(t, j, u, p));
            }
        }
    }
}

/// Taking a product off the wishlist keeps its one entry, marked deleted,
/// and putting the product back marks that same entry present again.
pub proof fn law_removing_then_adding_restores(t: Map<i32, Model>, u: i32, p: i32, fresh: i32)
    requires
        well_keyed(t),
        at_most_one_entry(t, u, p),
        entry_of(t, u, p) is Some,
        !t.dom().contains(fresh),
    ensures
        one_entry(saved(t, removal(entry_of(t, u, p)->0), fresh), u, p, true),
        saved(t, removal(entry_of(t, u, p)->0), fresh).dom() == t.dom(),
        one_entry(
            saved(
                saved(t, removal(entry_of(t, u, p)->0), fresh),
                written(wishlist_write(u, entry_of(saved(t, removal(entry_of(t, u, p)->0), fresh), u, p), p)),
                fresh,
            ),
            u,
            p,
            false,
        ),
{
    let k = choose|k: i32| is_entry(t, k, u, p);
    lemma_entry_of(t, k, u, p);
    assert(t[k].id == k);
    let t1 = saved(t, removal(entry_of(t, u, p)->0), fresh);
    assert(t1 == t.insert(k, Model { is_deleted: true, ..t[k] }));
    assert(t1.dom() =~= t.dom());
    assert(is_entry(t1, k, u, p));
    assert forall|i: i32, j: i32| #[trigger] is_entry(t1, i, u, p) && #[trigger] is_entry(t1, j, u, p) implies i == j by {
        assert(is_entry(t, i, u, p));
        assert(is_entry(t, j, u, p));
    }
    assert forall|i: i32| #[trigger] t1.dom().contains(i) implies t1[i].id == i by {
        assert(t.dom().contains(i));
    }
    law_adding_keeps_one_live_entry(t1, u, p, fresh);
}

} // verus!
