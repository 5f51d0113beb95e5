use vstd::prelude::*;
use crate::models::ActiveValue;
use crate::models::brands::{ActiveModel, Model};

verus! {

/// The fields a brand is created or edited with.
#[derive(Debug)]
pub struct BrandParams {
    pub name: String,
    pub code: Option<String>,
    pub is_active: bool,
}

impl BrandParams {
    /// Sets the brand's name, code and active flag; the id stays.
    pub fn update(&self, item: &mut ActiveModel)
        ensures
            final(item).id == old(item).id,
            final(item).name == ActiveValue::Changed(self.name),
            final(item).code == ActiveValue::Changed(self.code),
            final(item).is_active == ActiveValue::Changed(self.is_active),
    {
        item.name = ActiveValue::Changed(self.name.clone());
        item.code = ActiveValue::Changed(self.code.clone());
        item.is_active = ActiveValue::Changed(self.is_active);
    }
}

/// The row `brand_add` inserts: the params, no id.
pub fn brand_add(params: &BrandParams) -> (res: ActiveModel)
    ensures
        res.id is NotSet,
        res.name == ActiveValue::Changed(params.name),
        res.code == ActiveValue::Changed(params.code),
        res.is_active == ActiveValue::Changed(params.is_active),
{
    let mut item = ActiveModel::new();
    params.update(&mut item);
    item
}

/// The row `brand_update` writes: the stored brand with the params applied.
pub fn brand_update(item: Model, params: &BrandParams) -> (res: ActiveModel)
    ensures
        res.id == ActiveValue::Unchanged(item.id),
        res.name == ActiveValue::Changed(params.name),
        res.code == ActiveValue::Changed(params.code),
        res.is_active == ActiveValue::Changed(params.is_active),
{
    let mut active = item.into_active_model();
    params.update(&mut active);
    active
}

} // verus!
