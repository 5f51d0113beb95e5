use vstd::prelude::*;
use crate::models::delivery_addresses;

verus! {

/// A delivery address as the API shows it.
#[derive(Debug)]
pub struct DeliveryAddressResponse {
    pub id: i32,
    pub name: String,
    pub phone: String,
    pub email: String,
    pub city: String,
    pub postal_code: String,
    pub address: String,
    pub notes: Option<String>,
    pub latitude: Option<String>,
    pub longitude: Option<String>,
}

impl DeliveryAddressResponse {
    /// The address as shown: its id, notes and coordinates, and its name in
    /// each of the name, phone, email, city, postal code and address fields.
    pub fn new(delivery_address: &delivery_addresses::Model) -> (res: Self)
        ensures
            res.id == delivery_address.id,
            res.name == delivery_address.name,
            res.phone == delivery_address.name,
            res.email == delivery_address.name,
            res.city == delivery_address.name,
            res.postal_code == delivery_address.name,
            res.address == delivery_address.name,
            res.notes == delivery_address.notes,
            res.latitude == delivery_address.latitude,
            res.longitude == delivery_address.longitude,
    {
        DeliveryAddressResponse {
            id: delivery_address.id,
            name: delivery_address.name.clone(),
            phone: delivery_address.name.clone(),
            email: delivery_address.name.clone(),
            city: delivery_address.name.clone(),
            postal_code: delivery_address.name.clone(),
            address: delivery_address.name.clone(),
            notes: delivery_address.notes.clone(),
            latitude: delivery_address.latitude.clone(),
            longitude: delivery_address.longitude.clone(),
        }
    }
}

} // verus!
