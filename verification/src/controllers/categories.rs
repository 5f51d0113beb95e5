use vstd::prelude::*;
use crate::models::ActiveValue;
use crate::models::categories::{ActiveModel, Model};
use crate::views::category::ParentCategoryResponse;

verus! {

/// The fields a category is created or edited with.
#[derive(Debug)]
pub struct CategoryPostParams {
    pub name: String,
    pub parent_id: Option<i32>,
}

/// The filter of the parent-category list: a category to leave out.
#[derive(Debug)]
pub struct ListParams {
    pub exclude_id: Option<i32>,
}

impl CategoryPostParams {
    /// Sets the category's name and parent; its id stays.
    pub fn update(&self, item: &mut ActiveModel)
        ensures
            *final(item) == (ActiveModel {
                name: ActiveValue::Changed(self.name),
                parent_id: ActiveValue::Changed(self.parent_id),
                ..*old(item)
            }),
    {
        item.name = ActiveValue::Changed(self.name.clone());
        item.parent_id = ActiveValue::Changed(self.parent_id);
    }
}

/// The row `category_add` inserts: the params, no id.
pub fn category_add(params: &CategoryPostParams) -> (res: ActiveModel)
    ensures
        res == (ActiveModel {
            id: ActiveValue::NotSet,
            name: ActiveValue::Changed(params.name),
            parent_id: ActiveValue::Changed(params.parent_id),
        }),
{
    let mut item = ActiveModel::new();
    params.update(&mut item);
    item
}

/// The row `category_update` writes: the stored category with the params
/// applied.
pub fn category_update(item: Model, params: &CategoryPostParams) -> (res: ActiveModel)
    ensures
        res == (ActiveModel {
            id: ActiveValue::Unchanged(item.id),
            name: ActiveValue::Changed(params.name),
            parent_id: ActiveValue::Changed(params.parent_id),
        }),
{
    let mut active = item.into_active_model();
    params.update(&mut active);
    active
}

/// Whether a category is offered as a parent under the given filter.
pub open spec fn offered_as_parent(exclude_id: Option<i32>, c: Model) -> bool {
    exclude_id != Some(c.id)
}

/// What a parent-category entry shows of a category: its id and name.
pub open spec fn parent_entry(c: Model) -> (i32, Seq<char>) {
    (c.id, c.name@)
}

/// What a list of parent-category entries shows.
pub open spec fn entries_of(list: Seq<ParentCategoryResponse>) -> Seq<(i32, Seq<char>)> {
    list.map_values(|r: ParentCategoryResponse| (r.id, r.name@))
}

/// The entries offered as parents out of `categories` under the filter.
pub open spec fn parent_entries(categories: Seq<Model>, exclude_id: Option<i32>) -> Seq<(i32, Seq<char>)> {
    categories.filter(|c: Model| offered_as_parent(exclude_id, c)).map_values(|c: Model| parent_entry(c))
}

/// Whether an entry shows one of the categories: its id and name.
pub open spec fn shows_a_category(categories: Seq<Model>, entry: (i32, Seq<char>)) -> bool {
    exists|j: int| 0 <= j < categories.len() && entry == (#[trigger] categories[j].id, categories[j].name@)
}

/// The parent list is every category but the excluded one, whatever its
/// place in the tree: no entry has the excluded id, every other category is
/// offered with its name, and nothing else is offered.
pub proof fn law_parents_are_all_but_the_excluded(categories: Seq<Model>, exclude_id: Option<i32>)
    ensures
        forall|i: int| 0 <= i < parent_entries(categories, exclude_id).len() ==> exclude_id != Some(
            #[trigger] parent_entries(categories, exclude_id)[i].0,
        ),
        forall|j: int|
            0 <= j < categories.len() && exclude_id != Some(#[trigger] categories[j].id) ==> parent_entries(
                categories,
                exclude_id,
            ).contains((categories[j].id, categories[j].name@)),
        forall|i: int| 0 <= i < parent_entries(categories, exclude_id).len() ==> shows_a_category(
            categories,
            #[trigger] parent_entries(categories, exclude_id)[i],
        ),
{
    let keep = |c: Model| offered_as_parent(exclude_id, c);
    let f = |c: Model| parent_entry(c);
    let kept = categories.filter(keep);
    categories.filter_lemma(keep);
    assert(parent_entries(categories, exclude_id) == kept.map_values(f));
    assert forall|i: int| 0 <= i < parent_entries(categories, exclude_id).len() implies exclude_id != Some(
        #[trigger] parent_entries(categories, exclude_id)[i].0,
    ) by {
        assert(keep(kept[i]));
    }
    assert forall|j: int|
        0 <= j < categories.len() && exclude_id != Some(#[trigger] categories[j].id) implies parent_entries(
            categories,
            exclude_id,
        ).contains((categories[j].id, categories[j].name@)) by {
        assert(keep(categories[j]));
        assert(kept.contains(categories[j]));
        let k = choose|k: int| 0 <= k < kept.len() && kept[k] == categories[j];
        assert(parent_entries(categories, exclude_id)[k] == (categories[j].id, categories[j].name@));
    }
    assert forall|i: int| 0 <= i < parent_entries(categories, exclude_id).len() implies shows_a_category(
        categories,
        #[trigger] parent_entries(categories, exclude_id)[i],
    ) by {
        categories.lemma_filter_contains_rev(keep, kept[i]);
        assert(kept.contains(kept[i]));
        let j = choose|j: int| 0 <= j < categories.len() && categories[j] == kept[i];
        assert(parent_entries(categories, exclude_id)[i] == (categories[j].id, categories[j].name@));
    }
}

/// The categories offered as parents: every category but the excluded one,
/// in the order given, as id and name.
pub fn load_parents(categories: Vec<Model>, params: &ListParams) -> (res: Vec<ParentCategoryResponse>)
    ensures
        entries_of(res@) == categories@.filter(|c: Model| offered_as_parent(params.exclude_id, c)).map_values(
            |c: Model| parent_entry(c),
        ),
        forall|i: int| 0 <= i < res@.len() ==> params.exclude_id != Some(#[trigger] res@[i].id),
        forall|j: int|
            0 <= j < categories@.len() && params.exclude_id != Some(#[trigger] categories@[j].id) ==> exists|
                i: int,
            | 0 <= i < res@.len() && res@[i].id == categories@[j].id && res@[i].name@ == categories@[j].name@,
{
    let ghost all = categories@;
    let ghost keep = |c: Model| offered_as_parent(params.exclude_id, c);
    let mut res: Vec<ParentCategoryResponse> = Vec::new();
    let mut i: usize = 0;
    proof {
        assert(all.take(0).filter(keep) =~= Seq::<Model>::empty());
    }
    while i < categories.len()
        invariant
            all == categories@,
            keep == (|c: Model| offered_as_parent(params.exclude_id, c)),
            i <= all.len(),
            entries_of(res@) == all.take(i as int).filter(keep).map_values(|c: Model| parent_entry(c)),
        decreases all.len() - i,
    {
        let c = &categories[i];
        proof {
            assert(all.take(i + 1).drop_last() =~= all.take(i as int));
            assert(all.take(i + 1).last() == *c);
            reveal(Seq::filter);
        }
        let offered = match params.exclude_id {
            Some(x) => x != c.id,
            None => true,
        };
        assert(offered == keep(*c));
        if offered {
            let entry = ParentCategoryResponse { id: c.id, name: c.name.clone() };
            let ghost before = res@;
            res.push(entry);
            proof {
                assert(entries_of(res@) =~= entries_of(before).push(parent_entry(*c)));
                let f = |c: Model| parent_entry(c);
                let kept = all.take(i as int).filter(keep);
                assert(kept.push(*c).map_values(f) =~= kept.map_values(f).push(f(*c)));
                assert(all.take(i + 1).filter(keep) == all.take(i as int).filter(keep).push(*c));
                assert(entries_of(res@) =~= all.take(i + 1).filter(keep).map_values(
                    |c: Model| parent_entry(c),
                ));
            }
        } else {
            proof {
                assert(all.take(i + 1).filter(keep) == all.take(i as int).filter(keep));
            }
        }
        i = i + 1;
    }
    proof {
        assert(all.take(all.len() as int) =~= all);
        law_parents_are_all_but_the_excluded(all, params.exclude_id);
        let pe = parent_entries(all, params.exclude_id);
        assert(entries_of(res@) == pe);
        assert forall|i: int| 0 <= i < res@.len() implies params.exclude_id != Some(#[trigger] res@[i].id) by {
            assert(entries_of(res@)[i] == (res@[i].id, res@[i].name@));
            assert(params.exclude_id != Some(pe[i].0));
        }
        assert forall|j: int|
            0 <= j < all.len() && params.exclude_id != Some(#[trigger] all[j].id) implies exists|i: int|
                0 <= i < res@.len() && res@[i].id == all[j].id && res@[i].name@ == all[j].name@ by {
            assert(pe.contains((all[j].id, all[j].name@)));
            let i = choose|i: int| 0 <= i < pe.len() && pe[i] == (all[j].id, all[j].name@);
            assert(entries_of(res@)[i] == (res@[i].id, res@[i].name@));
        }
    }
    res
}

} // verus!
