use vstd::prelude::*;
use crate::models::ActiveValue;
use crate::models::delivery_methods::{ActiveModel, Model};

verus! {

/// The fields a delivery method is created or edited with.
#[derive(Debug)]
pub struct Params {
    pub name: String,
    pub active: bool,
}

impl Params {
    /// Sets the method's name and active flag; its id stays.
    pub fn update(&self, item: &mut ActiveModel)
        ensures
            *final(item) == (ActiveModel {
                name: ActiveValue::Changed(self.name),
                active: ActiveValue::Changed(self.active),
                ..*old(item)
            }),
    {
        item.name = ActiveValue::Changed(self.name.clone());
        item.active = ActiveValue::Changed(self.active);
    }
}

/// The row `delivery_method_add` inserts: the params, no id.
pub fn delivery_method_add(params: &Params) -> (res: ActiveModel)
    ensures
        res == (ActiveModel {
            id: ActiveValue::NotSet,
            name: ActiveValue::Changed(params.name),
            active: ActiveValue::Changed(params.active),
        }),
{
    let mut item = ActiveModel::new();
    params.update(&mut item);
    item
}

/// The row `delivery_method_update` writes: the stored method with the
/// params applied.
pub fn delivery_method_update(item: Model, params: &Params) -> (res: ActiveModel)
    ensures
        res == (ActiveModel {
            id: ActiveValue::Unchanged(item.id),
            name: ActiveValue::Changed(params.name),
            active: ActiveValue::Changed(params.active),
        }),
{
    let mut active = item.into_active_model();
    params.update(&mut active);
    active
}

} // verus!
