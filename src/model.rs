//! Request and response bodies of the API, and decoders for the response
//! shapes that callers read.

use vstd::prelude::*;
use crate::json::{
    field_of, get_field, optional_ok, optional_text, optional_text_list, reports_field,
    required_int, required_ok, required_text, take_field, text_list_is, text_list_ok, text_of,
    int_of, DecodeError, FieldKind, JsonValue,
};
use crate::metrics::{fails, opt_text_is, Record};
use crate::text::owned;

verus! {

/// An organization.
#[derive(Debug, Clone)]
pub struct OrgInfo {
    pub id: String,
    pub name: String,
    pub icon: Option<String>,
    pub logo: Option<String>,
    pub owner: Option<String>,
}

impl Record for OrgInfo {
    open spec fn accepts(v: JsonValue) -> bool {
        &&& required_ok(v, "id"@, FieldKind::Text)
        &&& required_ok(v, "name"@, FieldKind::Text)
        &&& optional_ok(v, "icon"@, FieldKind::Text)
        &&& optional_ok(v, "logo"@, FieldKind::Text)
        &&& optional_ok(v, "owner"@, FieldKind::Text)
    }

    open spec fn decoded_from(&self, v: JsonValue) -> bool {
        &&& self.id@ == text_of(field_of(v, "id"@)->0)
        &&& self.name@ == text_of(field_of(v, "name"@)->0)
        &&& opt_text_is(v, "icon"@, self.icon)
        &&& opt_text_is(v, "logo"@, self.logo)
        &&& opt_text_is(v, "owner"@, self.owner)
    }

    open spec fn explains(v: JsonValue, e: DecodeError) -> bool {
        ||| fails(v, "id"@, FieldKind::Text, e)
        ||| fails(v, "name"@, FieldKind::Text, e)
        ||| (!optional_ok(v, "icon"@, FieldKind::Text) && reports_field(e, v, "icon"@))
        ||| (!optional_ok(v, "logo"@, FieldKind::Text) && reports_field(e, v, "logo"@))
        ||| (!optional_ok(v, "owner"@, FieldKind::Text) && reports_field(
            e,
            v,
            "owner"@,
        ))
    }

    fn decode(v: &JsonValue) -> (r: Result<Self, DecodeError>) {
        let id = required_text(v, "id")?;
        let name = required_text(v, "name")?;
        let icon = optional_text(v, "icon")?;
        let logo = optional_text(v, "logo")?;
        let owner = optional_text(v, "owner")?;
        Ok(OrgInfo { id, name, icon, logo, owner })
    }
}

/// The request granting an account a permission on a plant.
#[derive(Debug)]
pub struct OrgAddPermissionInputBody {
    pub plant_id: String,
    pub account_type: String,
    pub email: Option<String>,
    pub username: Option<String>,
}

/// The permission granted.
#[derive(Debug, Clone)]
pub struct OrgAddPermissionOutputBody {
    pub plant_id: String,
    pub account_type: String,
    pub email: Option<String>,
    pub username: Option<String>,
}

/// The plant id of a permission, given as `plant_id` or under its alias
/// `plantId`: exactly one of the two must be there, as a string.
pub open spec fn plant_id_member(v: JsonValue) -> Option<JsonValue> {
    if field_of(v, "plant_id"@) is Some {
        field_of(v, "plant_id"@)
    } else {
        field_of(v, "plantId"@)
    }
}

/// `e` names the plant id as absent or of the wrong type.
pub open spec fn names_plant_id(e: DecodeError) -> bool {
    match e {
        DecodeError::MissingField(f) => f@ == "plant_id"@,
        DecodeError::InvalidType(f) => f@ == "plant_id"@,
        _ => false,
    }
}

/// `e` names the plant id as given twice.
pub open spec fn plant_id_duplicate(e: DecodeError) -> bool {
    match e {
        DecodeError::DuplicateField(f) => f@ == "plant_id"@,
        _ => false,
    }
}

/// Both the name and the alias of the plant id are given.
pub open spec fn plant_id_twice(v: JsonValue) -> bool {
    field_of(v, "plant_id"@) is Some && field_of(v, "plantId"@) is Some
}

impl Record for OrgAddPermissionOutputBody {
    open spec fn accepts(v: JsonValue) -> bool {
        &&& !plant_id_twice(v)
        &&& plant_id_member(v) is Some && plant_id_member(v)->0 is Str
        &&& required_ok(v, "type"@, FieldKind::Text)
        &&& optional_ok(v, "email"@, FieldKind::Text)
        &&& optional_ok(v, "username"@, FieldKind::Text)
    }

    open spec fn decoded_from(&self, v: JsonValue) -> bool {
        &&& self.plant_id@ == text_of(plant_id_member(v)->0)
        &&& self.account_type@ == text_of(field_of(v, "type"@)->0)
        &&& opt_text_is(v, "email"@, self.email)
        &&& opt_text_is(v, "username"@, self.username)
    }

    open spec fn explains(v: JsonValue, e: DecodeError) -> bool {
        ||| (plant_id_twice(v) && plant_id_duplicate(e))
        ||| (!plant_id_twice(v) && !(plant_id_member(v) is Some && plant_id_member(v)->0 is Str)
            && names_plant_id(e))
        ||| fails(v, "type"@, FieldKind::Text, e)
        ||| (!optional_ok(v, "email"@, FieldKind::Text) && reports_field(e, v, "email"@))
        ||| (!optional_ok(v, "username"@, FieldKind::Text) && reports_field(
            e,
            v,
            "username"@,
        ))
    }

    fn decode(v: &JsonValue) -> (r: Result<Self, DecodeError>) {
        let plant_id = match (get_field(v, "plant_id"), get_field(v, "plantId")) {
            (Some(_), Some(_)) => {
                return Err(DecodeError::DuplicateField(owned("plant_id")));
            },
            (Some(JsonValue::Str(s)), None) => s.clone(),
            (None, Some(JsonValue::Str(s))) => s.clone(),
            (None, None) => {
                return Err(DecodeError::MissingField(owned("plant_id")));
            },
            _ => {
                return Err(DecodeError::InvalidType(owned("plant_id")));
            },
        };
        let account_type = required_text(v, "type")?;
        let email = optional_text(v, "email")?;
        let username = optional_text(v, "username")?;
        Ok(OrgAddPermissionOutputBody { plant_id, account_type, email, username })
    }
}

/// A file stored for a plant.
#[derive(Debug, Clone)]
pub struct FileUploadResponse {
    pub id: String,
    pub plant_id: String,
    pub filename: String,
    pub size: i64,
    pub created: String,
    pub updated: String,
}

impl Record for FileUploadResponse {
    open spec fn accepts(v: JsonValue) -> bool {
        &&& required_ok(v, "id"@, FieldKind::Text)
        &&& required_ok(v, "plant_id"@, FieldKind::Text)
        &&& required_ok(v, "filename"@, FieldKind::Text)
        &&& required_ok(v, "size"@, FieldKind::Integer)
        &&& required_ok(v, "created"@, FieldKind::Text)
        &&& required_ok(v, "updated"@, FieldKind::Text)
    }

    open spec fn decoded_from(&self, v: JsonValue) -> bool {
        &&& self.id@ == text_of(field_of(v, "id"@)->0)
        &&& self.plant_id@ == text_of(field_of(v, "plant_id"@)->0)
        &&& self.filename@ == text_of(field_of(v, "filename"@)->0)
        &&& self.size == int_of(field_of(v, "size"@)->0)
        &&& self.created@ == text_of(field_of(v, "created"@)->0)
        &&& self.updated@ == text_of(field_of(v, "updated"@)->0)
    }

    open spec fn explains(v: JsonValue, e: DecodeError) -> bool {
        ||| fails(v, "id"@, FieldKind::Text, e)
        ||| fails(v, "plant_id"@, FieldKind::Text, e)
        ||| fails(v, "filename"@, FieldKind::Text, e)
        ||| fails(v, "size"@, FieldKind::Integer, e)
        ||| fails(v, "created"@, FieldKind::Text, e)
        ||| fails(v, "updated"@, FieldKind::Text, e)
    }

    fn decode(v: &JsonValue) -> (r: Result<Self, DecodeError>) {
        let id = required_text(v, "id")?;
        let plant_id = required_text(v, "plant_id")?;
        let filename = required_text(v, "filename")?;
        let size = required_int(v, "size")?;
        let created = required_text(v, "created")?;
        let updated = required_text(v, "updated")?;
        Ok(FileUploadResponse { id, plant_id, filename, size, created, updated })
    }
}

/// One health level: how many devices, and which.
#[derive(Debug, Clone)]
pub struct HealthLevelCategory {
    pub count: i64,
    pub ids: Option<Vec<String>>,
}

impl Record for HealthLevelCategory {
    open spec fn accepts(v: JsonValue) -> bool {
        &&& required_ok(v, "count"@, FieldKind::Integer)
        &&& text_list_ok(v, "ids"@)
    }

    open spec fn decoded_from(&self, v: JsonValue) -> bool {
        &&& self.count == int_of(field_of(v, "count"@)->0)
        &&& text_list_is(v, "ids"@, self.ids)
    }

    open spec fn explains(v: JsonValue, e: DecodeError) -> bool {
        ||| fails(v, "count"@, FieldKind::Integer, e)
        ||| (!text_list_ok(v, "ids"@) && reports_field(e, v, "ids"@))
    }

    fn decode(v: &JsonValue) -> (r: Result<Self, DecodeError>) {
        let count = required_int(v, "count")?;
        let ids = optional_text_list(v, "ids")?;
        Ok(HealthLevelCategory { count, ids })
    }
}

/// The required member `key` is a record of type `T`.
pub open spec fn record_ok<T: Record>(v: JsonValue, key: Seq<char>) -> bool {
    field_of(v, key) is Some && T::accepts(field_of(v, key)->0)
}

/// `e` explains why the required member `key` is not a record of type `T`.
pub open spec fn record_explains<T: Record>(v: JsonValue, key: Seq<char>, e: DecodeError) -> bool {
    match field_of(v, key) {
        Some(m) => !T::accepts(m) && T::explains(m, e),
        None => e matches DecodeError::MissingField(f) && f@ == key,
    }
}

/// Reads the required member `key` as a record of type `T`.
pub fn required_record<T: Record>(v: &JsonValue, key: &str) -> (r: Result<T, DecodeError>)
    ensures
        r is Ok <==> record_ok::<T>(*v, key@),
        r is Ok ==> r->Ok_0.decoded_from(field_of(*v, key@)->0),
        r is Err ==> record_explains::<T>(*v, key@, r->Err_0),
{
    match get_field(v, key) {
        Some(m) => T::decode(m),
        None => Err(DecodeError::MissingField(owned(key))),
    }
}

/// Devices of a plant by health level.
#[derive(Debug, Clone)]
pub struct HealthLevelBody {
    pub best: HealthLevelCategory,
    pub caution: HealthLevelCategory,
    pub faulty: HealthLevelCategory,
}

impl Record for HealthLevelBody {
    open spec fn accepts(v: JsonValue) -> bool {
        &&& record_ok::<HealthLevelCategory>(v, "best"@)
        &&& record_ok::<HealthLevelCategory>(v, "caution"@)
        &&& record_ok::<HealthLevelCategory>(v, "faulty"@)
    }

    open spec fn decoded_from(&self, v: JsonValue) -> bool {
        &&& self.best.decoded_from(field_of(v, "best"@)->0)
        &&& self.caution.decoded_from(field_of(v, "caution"@)->0)
        &&& self.faulty.decoded_from(field_of(v, "faulty"@)->0)
    }

    open spec fn explains(v: JsonValue, e: DecodeError) -> bool {
        ||| (!record_ok::<HealthLevelCategory>(v, "best"@) && record_explains::<
            HealthLevelCategory,
        >(v, "best"@, e))
        ||| (!record_ok::<HealthLevelCategory>(v, "caution"@) && record_explains::<
            HealthLevelCategory,
        >(v, "caution"@, e))
        ||| (!record_ok::<HealthLevelCategory>(v, "faulty"@) && record_explains::<
            HealthLevelCategory,
        >(v, "faulty"@, e))
    }

    fn decode(v: &JsonValue) -> (r: Result<Self, DecodeError>) {
        let best = required_record::<HealthLevelCategory>(v, "best")?;
        let caution = required_record::<HealthLevelCategory>(v, "caution")?;
        let faulty = required_record::<HealthLevelCategory>(v, "faulty")?;
        Ok(HealthLevelBody { best, caution, faulty })
    }
}

/// The localized message of an inverter log entry.
#[derive(Debug, Clone)]
pub struct InverterLogMessage {
    pub ko: Option<String>,
}

impl Record for InverterLogMessage {
    open spec fn accepts(v: JsonValue) -> bool {
        v is Object && optional_ok(v, "ko"@, FieldKind::Text)
    }

    open spec fn decoded_from(&self, v: JsonValue) -> bool {
        opt_text_is(v, "ko"@, self.ko)
    }

    open spec fn explains(v: JsonValue, e: DecodeError) -> bool {
        ||| (!(v is Object) && e == DecodeError::NotAnObject)
        ||| (!optional_ok(v, "ko"@, FieldKind::Text) && reports_field(e, v, "ko"@))
    }

    fn decode(v: &JsonValue) -> (r: Result<Self, DecodeError>) {
        if !matches!(v, JsonValue::Object(_)) {
            return Err(DecodeError::NotAnObject);
        }
        let ko = optional_text(v, "ko")?;
        Ok(InverterLogMessage { ko })
    }
}

/// The request registering an asset.
#[derive(Debug)]
pub struct RegisterBody {
    pub asset_id: String,
    pub asset_type: String,
    pub map_id: String,
    pub map_type: String,
    pub registered: String,
    pub registered_meta: Option<String>,
    pub tag: Option<String>,
}

/// The request unregistering an asset.
#[derive(Debug)]
pub struct UnregisterBody {
    pub asset_id: String,
    pub asset_type: String,
    pub map_id: String,
    pub map_type: String,
    pub unregistered: String,
    pub unregistered_meta: Option<String>,
    pub tag: Option<String>,
}

/// A plant in the legacy shape: its organization by id, with the
/// organization's record beside it.
#[derive(Debug)]
pub struct PlantBody {
    pub id: String,
    pub name: String,
    pub organization: String,
    pub organization_data: OrgInfo,
    pub created: String,
    pub updated: String,
    pub metadata: JsonValue,
    pub images: Option<Vec<String>>,
}

/// A plant in the v3 shape.
#[derive(Debug)]
pub struct PlantBodyV3 {
    pub id: String,
    pub name: String,
    pub organization: OrgInfo,
    pub created: String,
    pub updated: String,
    pub metadata: JsonValue,
    pub images: Option<Vec<String>>,
}

/// `v` reads as a plant in the v3 shape. `metadata` is required and may be
/// any value, `null` included.
pub open spec fn plant_v3_accepts(v: JsonValue) -> bool {
    &&& required_ok(v, "id"@, FieldKind::Text)
    &&& required_ok(v, "name"@, FieldKind::Text)
    &&& record_ok::<OrgInfo>(v, "organization"@)
    &&& required_ok(v, "created"@, FieldKind::Text)
    &&& required_ok(v, "updated"@, FieldKind::Text)
    &&& field_of(v, "metadata"@) is Some
    &&& text_list_ok(v, "images"@)
}

/// `p` holds the members of a v3 plant `v`.
pub open spec fn plant_v3_decoded_from(p: PlantBodyV3, v: JsonValue) -> bool {
    &&& p.id@ == text_of(field_of(v, "id"@)->0)
    &&& p.name@ == text_of(field_of(v, "name"@)->0)
    &&& p.organization.decoded_from(field_of(v, "organization"@)->0)
    &&& p.created@ == text_of(field_of(v, "created"@)->0)
    &&& p.updated@ == text_of(field_of(v, "updated"@)->0)
    &&& p.metadata == field_of(v, "metadata"@)->0
    &&& text_list_is(v, "images"@, p.images)
}

/// `v` reads as a plant in the legacy shape.
pub open spec fn plant_legacy_accepts(v: JsonValue) -> bool {
    &&& required_ok(v, "id"@, FieldKind::Text)
    &&& required_ok(v, "name"@, FieldKind::Text)
    &&& required_ok(v, "organization"@, FieldKind::Text)
    &&& record_ok::<OrgInfo>(v, "organizationData"@)
    &&& required_ok(v, "created"@, FieldKind::Text)
    &&& required_ok(v, "updated"@, FieldKind::Text)
    &&& field_of(v, "metadata"@) is Some
    &&& text_list_ok(v, "images"@)
}

/// `p` holds the members of a legacy plant `v`.
pub open spec fn plant_legacy_decoded_from(p: PlantBody, v: JsonValue) -> bool {
    &&& p.id@ == text_of(field_of(v, "id"@)->0)
    &&& p.name@ == text_of(field_of(v, "name"@)->0)
    &&& p.organization@ == text_of(field_of(v, "organization"@)->0)
    &&& p.organization_data.decoded_from(field_of(v, "organizationData"@)->0)
    &&& p.created@ == text_of(field_of(v, "created"@)->0)
    &&& p.updated@ == text_of(field_of(v, "updated"@)->0)
    &&& p.metadata == field_of(v, "metadata"@)->0
    &&& text_list_is(v, "images"@, p.images)
}

/// The v3 form of a legacy plant: the organization's record takes the place
/// of its id.
pub open spec fn v3_of_legacy(p: PlantBody) -> PlantBodyV3 {
    PlantBodyV3 {
        id: p.id,
        name: p.name,
        organization: p.organization_data,
        created: p.created,
        updated: p.updated,
        metadata: p.metadata,
        images: p.images,
    }
}

impl From<PlantBody> for PlantBodyV3 {
    fn from(value: PlantBody) -> (r: Self)
        ensures
            r == v3_of_legacy(value),
    {
        PlantBodyV3 {
            id: value.id,
            name: value.name,
            organization: value.organization_data,
            created: value.created,
            updated: value.updated,
            metadata: value.metadata,
            images: value.images,
        }
    }
}

impl vstd::std_specs::convert::FromSpecImpl<PlantBody> for PlantBodyV3 {
    open spec fn obeys_from_spec() -> bool {
        true
    }

    open spec fn from_spec(v: PlantBody) -> Self {
        v3_of_legacy(v)
    }
}

fn plant_v3_members(v: &JsonValue) -> (r: Result<PlantBodyV3, DecodeError>)
    ensures
        r is Ok <==> plant_v3_accepts(*v),
        r is Ok ==> ({
            let p = r->Ok_0;
            p.id@ == text_of(field_of(*v, "id"@)->0) && p.name@ == text_of(field_of(*v, "name"@)->0)
                && p.organization.decoded_from(field_of(*v, "organization"@)->0) && p.created@
                == text_of(field_of(*v, "created"@)->0) && p.updated@ == text_of(
                field_of(*v, "updated"@)->0,
            ) && text_list_is(*v, "images"@, p.images)
        }),
{
    let id = required_text(v, "id")?;
    let name = required_text(v, "name")?;
    let organization = required_record::<OrgInfo>(v, "organization")?;
    let created = required_text(v, "created")?;
    let updated = required_text(v, "updated")?;
    if get_field(v, "metadata").is_none() {
        return Err(DecodeError::MissingField(owned("metadata")));
    }
    let images = optional_text_list(v, "images")?;
    Ok(PlantBodyV3 { id, name, organization, created, updated, metadata: JsonValue::Null, images })
}

fn plant_legacy_members(v: &JsonValue) -> (r: Result<PlantBody, DecodeError>)
    ensures
        r is Ok <==> plant_legacy_accepts(*v),
        r is Ok ==> ({
            let p = r->Ok_0;
            p.id@ == text_of(field_of(*v, "id"@)->0) && p.name@ == text_of(field_of(*v, "name"@)->0)
                && p.organization@ == text_of(field_of(*v, "organization"@)->0)
                && p.organization_data.decoded_from(field_of(*v, "organizationData"@)->0)
                && p.created@ == text_of(field_of(*v, "created"@)->0) && p.updated@ == text_of(
                field_of(*v, "updated"@)->0,
            ) && text_list_is(*v, "images"@, p.images)
        }),
{
    let id = required_text(v, "id")?;
    let name = required_text(v, "name")?;
    let organization = required_text(v, "organization")?;
    let organization_data = required_record::<OrgInfo>(v, "organizationData")?;
    let created = required_text(v, "created")?;
    let updated = required_text(v, "updated")?;
    if get_field(v, "metadata").is_none() {
        return Err(DecodeError::MissingField(owned("metadata")));
    }
    let images = optional_text_list(v, "images")?;
    Ok(
        PlantBody {
            id,
            name,
            organization,
            organization_data,
            created,
            updated,
            metadata: JsonValue::Null,
            images,
        },
    )
}

/// The answer to creating a plant, in either shape, as a v3 plant: the v3
/// shape where the document has it, else the legacy shape converted.
pub open spec fn created_plant_is(v: JsonValue, r: Result<PlantBodyV3, DecodeError>) -> bool {
    if plant_v3_accepts(v) {
        r is Ok && plant_v3_decoded_from(r->Ok_0, v)
    } else if plant_legacy_accepts(v) {
        r is Ok && exists|p: PlantBody| plant_legacy_decoded_from(p, v) && r->Ok_0 == v3_of_legacy(p)
    } else {
        r is Err
    }
}

impl PlantBodyV3 {
    /// Reads the answer to creating a plant (see `created_plant_is`).
    pub fn decode_created(v: JsonValue) -> (r: Result<PlantBodyV3, DecodeError>)
        ensures
            created_plant_is(v, r),
    {
        match plant_v3_members(&v) {
            Ok(mut p) => {
                match take_field(v, "metadata") {
                    Some(m) => {
                        p.metadata = m;
                        Ok(p)
                    },
                    None => Err(DecodeError::MissingField(owned("metadata"))),
                }
            },
            Err(_) => match plant_legacy_members(&v) {
                Ok(mut p) => {
                    let ghost doc = v;
                    match take_field(v, "metadata") {
                        Some(m) => {
                            p.metadata = m;
                            assert(plant_legacy_decoded_from(p, doc));
                            Ok(PlantBodyV3::from(p))
                        },
                        None => Err(DecodeError::MissingField(owned("metadata"))),
                    }
                },
                Err(e) => Err(e),
            },
        }
    }
}

} // verus!
