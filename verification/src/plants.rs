//! The typed response shapes, and the rules that decode them from JSON.
//!
//! The portal may omit almost any field, and sends the plant's name under
//! either of two keys; absence is a valid state, not an error.  Numeric
//! fields keep the number's decimal text (see the json module), so the
//! shapes stay plain values.

use vstd::prelude::*;
use crate::errors::GrowattError;
use crate::json::{json_get, spec_as_str, JsonValue};

verus! {

/// One plant as the plant-list endpoint describes it.  Identifier and name
/// are required; everything else may be absent.
#[derive(Debug, PartialEq)]
pub struct Plant {
    pub plant_id: String,
    pub plant_name: String,
    pub plant_address: Option<String>,
    /// The power figure's decimal text, as it stood in the response.
    pub plant_watts: Option<String>,
    pub is_share: Option<bool>,
}

/// The full answer of the plant-list endpoint.
#[derive(Debug, PartialEq)]
pub struct PlantList(pub Vec<Plant>);

/// The detail record of one plant; the portal may omit any field.
#[derive(Debug, PartialEq)]
pub struct PlantData {
    pub plant_name: Option<String>,
    pub plant_id: Option<String>,
    /// Decimal text of the number, as it stood in the response.
    pub capacity: Option<String>,
    pub today_energy: Option<String>,
    pub total_energy: Option<String>,
    pub current_power: Option<String>,
}

/// The value holding the plant's name: the `name` field if present, else the
/// `plantName` field.
pub open spec fn spec_plant_name(v: JsonValue) -> Option<JsonValue> {
    match json_get(v, "name"@) {
        Some(x) => Some(x),
        None => json_get(v, "plantName"@),
    }
}

/// An optional field decodes as a string: absent, null, or a JSON string.
pub open spec fn spec_opt_str_field(v: JsonValue, key: Seq<char>) -> bool {
    match json_get(v, key) {
        None => true,
        Some(x) => x is Null || x is Str,
    }
}

/// An optional field decodes as a number: absent, null, or a JSON number.
pub open spec fn spec_opt_num_field(v: JsonValue, key: Seq<char>) -> bool {
    match json_get(v, key) {
        None => true,
        Some(x) => x is Null || x is Number,
    }
}

/// An optional field decodes as a boolean: absent, null, or a JSON boolean.
pub open spec fn spec_opt_bool_field(v: JsonValue, key: Seq<char>) -> bool {
    match json_get(v, key) {
        None => true,
        Some(x) => x is Null || x is Boolean,
    }
}

/// A record decodes into [`Plant`]: `id` and one of the two name fields are
/// strings, and each optional field is absent, null, or of its type.
pub open spec fn spec_plant_decodable(v: JsonValue) -> bool {
    &&& (json_get(v, "id"@) matches Some(x) && x is Str)
    &&& (spec_plant_name(v) matches Some(x) && x is Str)
    &&& spec_opt_str_field(v, "plantAddress"@)
    &&& spec_opt_num_field(v, "plantPower"@)
    &&& spec_opt_bool_field(v, "isShare"@)
}

/// `p` holds exactly the values the record `v` carries.
pub open spec fn spec_plant_matches(v: JsonValue, p: Plant) -> bool {
    &&& (json_get(v, "id"@) matches Some(x) && spec_as_str(x) == Some(p.plant_id@))
    &&& (spec_plant_name(v) matches Some(x) && spec_as_str(x) == Some(p.plant_name@))
    &&& (match json_get(v, "plantAddress"@) {
        Some(JsonValue::Str(s)) => p.plant_address matches Some(a) && a@ == s@,
        _ => p.plant_address is None,
    })
    &&& (match json_get(v, "plantPower"@) {
        Some(JsonValue::Number(n)) => p.plant_watts matches Some(w) && w@ == n@,
        _ => p.plant_watts is None,
    })
    &&& (match json_get(v, "isShare"@) {
        Some(JsonValue::Boolean(b)) => p.is_share == Some(b),
        _ => p.is_share is None,
    })
}

/// A record decodes into [`PlantData`]: it is an object, and each known
/// field is absent, null, or of its type.
pub open spec fn spec_plant_data_decodable(v: JsonValue) -> bool {
    &&& v is Object
    &&& spec_opt_str_field(v, "plantName"@)
    &&& spec_opt_str_field(v, "plantId"@)
    &&& spec_opt_num_field(v, "capacity"@)
    &&& spec_opt_num_field(v, "todayEnergy"@)
    &&& spec_opt_num_field(v, "totalEnergy"@)
    &&& spec_opt_num_field(v, "currentPower"@)
}

/// `d` holds exactly the values the record `v` carries.
pub open spec fn spec_plant_data_matches(v: JsonValue, d: PlantData) -> bool {
    &&& (match json_get(v, "plantName"@) {
        Some(JsonValue::Str(s)) => d.plant_name matches Some(x) && x@ == s@,
        _ => d.plant_name is None,
    })
    &&& (match json_get(v, "plantId"@) {
        Some(JsonValue::Str(s)) => d.plant_id matches Some(x) && x@ == s@,
        _ => d.plant_id is None,
    })
    &&& (match json_get(v, "capacity"@) {
        Some(JsonValue::Number(n)) => d.capacity matches Some(x) && x@ == n@,
        _ => d.capacity is None,
    })
    &&& (match json_get(v, "todayEnergy"@) {
        Some(JsonValue::Number(n)) => d.today_energy matches Some(x) && x@ == n@,
        _ => d.today_energy is None,
    })
    &&& (match json_get(v, "totalEnergy"@) {
        Some(JsonValue::Number(n)) => d.total_energy matches Some(x) && x@ == n@,
        _ => d.total_energy is None,
    })
    &&& (match json_get(v, "currentPower"@) {
        Some(JsonValue::Number(n)) => d.current_power matches Some(x) && x@ == n@,
        _ => d.current_power is None,
    })
}

/// Every element of the array decodes into a [`Plant`].
pub open spec fn spec_plant_list_decodable(v: JsonValue) -> bool {
    match v {
        JsonValue::Array(items) => forall|i: int|
            0 <= i < items@.len() ==> spec_plant_decodable(#[trigger] items@[i]),
        _ => false,
    }
}

/// The message reported when a record does not fit the Plant shape.
pub open spec fn spec_plant_err_msg() -> Seq<char> {
    "response does not fit the Plant shape"@
}

/// The message reported when a record does not fit the PlantData shape.
pub open spec fn spec_plant_data_err_msg() -> Seq<char> {
    "response does not fit the PlantData shape"@
}

fn plant_shape_error() -> (r: GrowattError)
    ensures
        r matches GrowattError::JsonError(m) && m@ == spec_plant_err_msg(),
{
    GrowattError::JsonError("response does not fit the Plant shape".to_owned())
}

fn plant_data_shape_error() -> (r: GrowattError)
    ensures
        r matches GrowattError::JsonError(m) && m@ == spec_plant_data_err_msg(),
{
    GrowattError::JsonError("response does not fit the PlantData shape".to_owned())
}

/// Decodes one plant record: succeeds exactly on records that fit the shape,
/// and then carries over every value the record holds, mapping either of the
/// two accepted name fields.
pub fn decode_plant(v: &JsonValue) -> (r: Result<Plant, GrowattError>)
    ensures
        r is Ok <==> spec_plant_decodable(*v),
        r matches Ok(p) ==> spec_plant_matches(*v, p),
        r matches Err(e) ==> (e matches GrowattError::JsonError(m) && m@ == spec_plant_err_msg()),
{
    let plant_id = match v.get_field(&"id".to_owned()) {
        Some(x) => match x.as_str() {
            Some(s) => s.clone(),
            None => {
                return Err(plant_shape_error());
            },
        },
        None => {
            return Err(plant_shape_error());
        },
    };
    let name_value = match v.get_field(&"name".to_owned()) {
        Some(x) => Some(x),
        None => v.get_field(&"plantName".to_owned()),
    };
    let plant_name = match name_value {
        Some(x) => match x.as_str() {
            Some(s) => s.clone(),
            None => {
                return Err(plant_shape_error());
            },
        },
        None => {
            return Err(plant_shape_error());
        },
    };
    let plant_address = match v.get_field(&"plantAddress".to_owned()) {
        Some(x) => match x {
            JsonValue::Null => None,
            JsonValue::Str(s) => Some(s.clone()),
            _ => {
                return Err(plant_shape_error());
            },
        },
        None => None,
    };
    let plant_watts = match v.get_field(&"plantPower".to_owned()) {
        Some(x) => match x {
            JsonValue::Null => None,
            JsonValue::Number(n) => Some(n.clone()),
            _ => {
                return Err(plant_shape_error());
            },
        },
        None => None,
    };
    let is_share = match v.get_field(&"isShare".to_owned()) {
        Some(x) => match x {
            JsonValue::Null => None,
            JsonValue::Boolean(b) => Some(*b),
            _ => {
                return Err(plant_shape_error());
            },
        },
        None => None,
    };
    Ok(Plant { plant_id, plant_name, plant_address, plant_watts, is_share })
}

/// Decodes the plant-list endpoint's array: succeeds exactly when the body
/// is an array whose every element fits the Plant shape, and then keeps the
/// plants in order.
pub fn decode_plant_list(v: &JsonValue) -> (r: Result<PlantList, GrowattError>)
    ensures
        r is Ok <==> spec_plant_list_decodable(*v),
        r matches Ok(list) ==> (match *v {
            JsonValue::Array(items) => list.0@.len() == items@.len() && forall|i: int|
                0 <= i < items@.len() ==> spec_plant_matches(
                    items@[i],
                    #[trigger] list.0@[i],
                ),
            _ => false,
        }),
        r matches Err(e) ==> (e matches GrowattError::JsonError(m) && m@ == spec_plant_err_msg()),
{
    match v {
        JsonValue::Array(items) => {
            let n = items.len();
            let mut plants: Vec<Plant> = Vec::new();
            let mut i: usize = 0;
            while i < n
                invariant
                    *v == JsonValue::Array(*items),
                    i <= n,
                    n == items@.len(),
                    plants@.len() == i as int,
                    forall|k: int|
                        0 <= k < i ==> spec_plant_decodable(#[trigger] items@[k]),
                    forall|k: int|
                        0 <= k < i ==> spec_plant_matches(items@[k], #[trigger] plants@[k]),
                decreases n - i,
            {
                match decode_plant(&items[i]) {
                    Ok(p) => {
                        plants.push(p);
                    },
                    Err(e) => {
                        proof {
                            assert(!spec_plant_decodable(items@[i as int]));
                            assert(v->Array_0@ == items@);
                            assert(!spec_plant_decodable(v->Array_0@[i as int]));
                            assert(!spec_plant_list_decodable(*v));
                        }
                        return Err(e);
                    },
                }
                i += 1;
            }
            Ok(PlantList(plants))
        },
        _ => Err(plant_shape_error()),
    }
}

/// Decodes a plant-detail record: succeeds exactly on objects whose known
/// fields fit the shape, and then carries over every value the record holds.
pub fn decode_plant_data(v: &JsonValue) -> (r: Result<PlantData, GrowattError>)
    ensures
        r is Ok <==> spec_plant_data_decodable(*v),
        r matches Ok(d) ==> spec_plant_data_matches(*v, d),
        r matches Err(e) ==> (e matches GrowattError::JsonError(m) && m@
            == spec_plant_data_err_msg()),
{
    if !v.is_object() {
        return Err(plant_data_shape_error());
    }
    let plant_name = match v.get_field(&"plantName".to_owned()) {
        Some(x) => match x {
            JsonValue::Null => None,
            JsonValue::Str(s) => Some(s.clone()),
            _ => {
                return Err(plant_data_shape_error());
            },
        },
        None => None,
    };
    let plant_id = match v.get_field(&"plantId".to_owned()) {
        Some(x) => match x {
            JsonValue::Null => None,
            JsonValue::Str(s) => Some(s.clone()),
            _ => {
                return Err(plant_data_shape_error());
            },
        },
        None => None,
    };
    let capacity = match v.get_field(&"capacity".to_owned()) {
        Some(x) => match x {
            JsonValue::Null => None,
            JsonValue::Number(n) => Some(n.clone()),
            _ => {
                return Err(plant_data_shape_error());
            },
        },
        None => None,
    };
    let today_energy = match v.get_field(&"todayEnergy".to_owned()) {
        Some(x) => match x {
            JsonValue::Null => None,
            JsonValue::Number(n) => Some(n.clone()),
            _ => {
                return Err(plant_data_shape_error());
            },
        },
        None => None,
    };
    let total_energy = match v.get_field(&"totalEnergy".to_owned()) {
        Some(x) => match x {
            JsonValue::Null => None,
            JsonValue::Number(n) => Some(n.clone()),
            _ => {
                return Err(plant_data_shape_error());
            },
        },
        None => None,
    };
    let current_power = match v.get_field(&"currentPower".to_owned()) {
        Some(x) => match x {
            JsonValue::Null => None,
            JsonValue::Number(n) => Some(n.clone()),
            _ => {
                return Err(plant_data_shape_error());
            },
        },
        None => None,
    };
    Ok(PlantData { plant_name, plant_id, capacity, today_energy, total_energy, current_power })
}

} // verus!
