//! Metrics payloads: dispatch on the `unit` / `interval` tag pair, then
//! validation of the fields that the selected shape requires.

use vstd::prelude::*;
use crate::text::{owned, text_eq};
use crate::json::{
    as_text, elements, field_of, get_field, has_kind, int_of, optional_int, optional_ok, optional_text,
    reports_field, required_int, required_number, required_ok, required_text,
    text_field, text_of, DecodeError, FieldKind, JsonNumber, JsonValue,
};

verus! {

/// A record type that is read from a JSON object.
pub trait Record: Sized {
    /// `v` holds every field the record requires, each of the right type.
    spec fn accepts(v: JsonValue) -> bool;

    /// `self` holds exactly the field values of `v`.
    spec fn decoded_from(&self, v: JsonValue) -> bool;

    /// `e` names a field of the record that `v` lacks or holds with the wrong type.
    spec fn explains(v: JsonValue, e: DecodeError) -> bool;

    fn decode(v: &JsonValue) -> (r: Result<Self, DecodeError>)
        ensures
            r is Ok <==> Self::accepts(*v),
            r is Ok ==> r->Ok_0.decoded_from(*v),
            r is Err ==> Self::explains(*v, r->Err_0),
    ;
}

/// A required field `key` that `v` lacks or holds with the wrong type, named by `e`.
pub open spec fn fails(v: JsonValue, key: Seq<char>, kind: FieldKind, e: DecodeError) -> bool {
    !required_ok(v, key, kind) && reports_field(e, v, key)
}

/// The number held by a required numeric field.
pub open spec fn number_is(v: JsonValue, key: Seq<char>, n: JsonNumber) -> bool {
    field_of(v, key) == Some(JsonValue::Number(n))
}

/// One panel sample of an intraday series.
#[derive(Debug)]
pub struct PanelData {
    pub id: String,
    pub date: String,
    pub timestamp: i64,
    pub energy: JsonNumber,
    pub cumulative_energy: JsonNumber,
    pub i_out: JsonNumber,
    pub p: JsonNumber,
    pub v_in: JsonNumber,
    pub v_out: JsonNumber,
    pub temp: JsonNumber,
}

impl Record for PanelData {
    open spec fn accepts(v: JsonValue) -> bool {
        &&& required_ok(v, "id"@, FieldKind::Text)
        &&& required_ok(v, "date"@, FieldKind::Text)
        &&& required_ok(v, "timestamp"@, FieldKind::Integer)
        &&& required_ok(v, "energy"@, FieldKind::Number)
        &&& required_ok(v, "cumulative_energy"@, FieldKind::Number)
        &&& required_ok(v, "i_out"@, FieldKind::Number)
        &&& required_ok(v, "p"@, FieldKind::Number)
        &&& required_ok(v, "v_in"@, FieldKind::Number)
        &&& required_ok(v, "v_out"@, FieldKind::Number)
        &&& required_ok(v, "temp"@, FieldKind::Number)
    }

    open spec fn decoded_from(&self, v: JsonValue) -> bool {
        &&& self.id@ == text_of(field_of(v, "id"@)->0)
        &&& self.date@ == text_of(field_of(v, "date"@)->0)
        &&& self.timestamp == int_of(field_of(v, "timestamp"@)->0)
        &&& number_is(v, "energy"@, self.energy)
        &&& number_is(v, "cumulative_energy"@, self.cumulative_energy)
        &&& number_is(v, "i_out"@, self.i_out)
        &&& number_is(v, "p"@, self.p)
        &&& number_is(v, "v_in"@, self.v_in)
        &&& number_is(v, "v_out"@, self.v_out)
        &&& number_is(v, "temp"@, self.temp)
    }

    open spec fn explains(v: JsonValue, e: DecodeError) -> bool {
        ||| fails(v, "id"@, FieldKind::Text, e)
        ||| fails(v, "date"@, FieldKind::Text, e)
        ||| fails(v, "timestamp"@, FieldKind::Integer, e)
        ||| fails(v, "energy"@, FieldKind::Number, e)
        ||| fails(v, "cumulative_energy"@, FieldKind::Number, e)
        ||| fails(v, "i_out"@, FieldKind::Number, e)
        ||| fails(v, "p"@, FieldKind::Number, e)
        ||| fails(v, "v_in"@, FieldKind::Number, e)
        ||| fails(v, "v_out"@, FieldKind::Number, e)
        ||| fails(v, "temp"@, FieldKind::Number, e)
    }

    fn decode(v: &JsonValue) -> (r: Result<Self, DecodeError>) {
        let id = required_text(v, "id")?;
        let date = required_text(v, "date")?;
        let timestamp = required_int(v, "timestamp")?;
        let energy = required_number(v, "energy")?;
        let cumulative_energy = required_number(v, "cumulative_energy")?;
        let i_out = required_number(v, "i_out")?;
        let p = required_number(v, "p")?;
        let v_in = required_number(v, "v_in")?;
        let v_out = required_number(v, "v_out")?;
        let temp = required_number(v, "temp")?;
        Ok(PanelData { id, date, timestamp, energy, cumulative_energy, i_out, p, v_in, v_out, temp })
    }
}

/// One panel total of a daily series.
#[derive(Debug)]
pub struct PanelDailyData {
    pub id: String,
    pub energy: JsonNumber,
}

impl Record for PanelDailyData {
    open spec fn accepts(v: JsonValue) -> bool {
        &&& required_ok(v, "id"@, FieldKind::Text)
        &&& required_ok(v, "energy"@, FieldKind::Number)
    }

    open spec fn decoded_from(&self, v: JsonValue) -> bool {
        &&& self.id@ == text_of(field_of(v, "id"@)->0)
        &&& number_is(v, "energy"@, self.energy)
    }

    open spec fn explains(v: JsonValue, e: DecodeError) -> bool {
        ||| fails(v, "id"@, FieldKind::Text, e)
        ||| fails(v, "energy"@, FieldKind::Number, e)
    }

    fn decode(v: &JsonValue) -> (r: Result<Self, DecodeError>) {
        let id = required_text(v, "id")?;
        let energy = required_number(v, "energy")?;
        Ok(PanelDailyData { id, energy })
    }
}

/// One inverter sample of an intraday series.
#[derive(Debug)]
pub struct InverterData {
    pub id: String,
    pub time: String,
    pub energy: JsonNumber,
    pub timestamp: JsonNumber,
}

impl Record for InverterData {
    open spec fn accepts(v: JsonValue) -> bool {
        &&& required_ok(v, "id"@, FieldKind::Text)
        &&& required_ok(v, "time"@, FieldKind::Text)
        &&& required_ok(v, "energy"@, FieldKind::Number)
        &&& required_ok(v, "timestamp"@, FieldKind::Number)
    }

    open spec fn decoded_from(&self, v: JsonValue) -> bool {
        &&& self.id@ == text_of(field_of(v, "id"@)->0)
        &&& self.time@ == text_of(field_of(v, "time"@)->0)
        &&& number_is(v, "energy"@, self.energy)
        &&& number_is(v, "timestamp"@, self.timestamp)
    }

    open spec fn explains(v: JsonValue, e: DecodeError) -> bool {
        ||| fails(v, "id"@, FieldKind::Text, e)
        ||| fails(v, "time"@, FieldKind::Text, e)
        ||| fails(v, "energy"@, FieldKind::Number, e)
        ||| fails(v, "timestamp"@, FieldKind::Number, e)
    }

    fn decode(v: &JsonValue) -> (r: Result<Self, DecodeError>) {
        let id = required_text(v, "id")?;
        let time = required_text(v, "time")?;
        let energy = required_number(v, "energy")?;
        let timestamp = required_number(v, "timestamp")?;
        Ok(InverterData { id, time, energy, timestamp })
    }
}

/// One inverter total of a daily series.
#[derive(Debug)]
pub struct InverterDailyData {
    pub id: String,
    pub date: String,
    pub energy: JsonNumber,
}

impl Record for InverterDailyData {
    open spec fn accepts(v: JsonValue) -> bool {
        &&& required_ok(v, "id"@, FieldKind::Text)
        &&& required_ok(v, "date"@, FieldKind::Text)
        &&& required_ok(v, "energy"@, FieldKind::Number)
    }

    open spec fn decoded_from(&self, v: JsonValue) -> bool {
        &&& self.id@ == text_of(field_of(v, "id"@)->0)
        &&& self.date@ == text_of(field_of(v, "date"@)->0)
        &&& number_is(v, "energy"@, self.energy)
    }

    open spec fn explains(v: JsonValue, e: DecodeError) -> bool {
        ||| fails(v, "id"@, FieldKind::Text, e)
        ||| fails(v, "date"@, FieldKind::Text, e)
        ||| fails(v, "energy"@, FieldKind::Number, e)
    }

    fn decode(v: &JsonValue) -> (r: Result<Self, DecodeError>) {
        let id = required_text(v, "id")?;
        let date = required_text(v, "date")?;
        let energy = required_number(v, "energy")?;
        Ok(InverterDailyData { id, date, energy })
    }
}

/// One plant sample of an intraday series.
#[derive(Debug)]
pub struct PlantData {
    pub date: String,
    pub energy: JsonNumber,
    pub cumulative_energy: JsonNumber,
    pub timestamp: i64,
}

impl Record for PlantData {
    open spec fn accepts(v: JsonValue) -> bool {
        &&& required_ok(v, "date"@, FieldKind::Text)
        &&& required_ok(v, "energy"@, FieldKind::Number)
        &&& required_ok(v, "cumulative_energy"@, FieldKind::Number)
        &&& required_ok(v, "timestamp"@, FieldKind::Integer)
    }

    open spec fn decoded_from(&self, v: JsonValue) -> bool {
        &&& self.date@ == text_of(field_of(v, "date"@)->0)
        &&& number_is(v, "energy"@, self.energy)
        &&& number_is(v, "cumulative_energy"@, self.cumulative_energy)
        &&& self.timestamp == int_of(field_of(v, "timestamp"@)->0)
    }

    open spec fn explains(v: JsonValue, e: DecodeError) -> bool {
        ||| fails(v, "date"@, FieldKind::Text, e)
        ||| fails(v, "energy"@, FieldKind::Number, e)
        ||| fails(v, "cumulative_energy"@, FieldKind::Number, e)
        ||| fails(v, "timestamp"@, FieldKind::Integer, e)
    }

    fn decode(v: &JsonValue) -> (r: Result<Self, DecodeError>) {
        let date = required_text(v, "date")?;
        let energy = required_number(v, "energy")?;
        let cumulative_energy = required_number(v, "cumulative_energy")?;
        let timestamp = required_int(v, "timestamp")?;
        Ok(PlantData { date, energy, cumulative_energy, timestamp })
    }
}

/// One plant total of a daily (aggregated) series.
#[derive(Debug)]
pub struct PlantDailyData {
    pub energy: JsonNumber,
    pub date: String,
    pub id: Option<String>,
}

impl Record for PlantDailyData {
    open spec fn accepts(v: JsonValue) -> bool {
        &&& required_ok(v, "energy"@, FieldKind::Number)
        &&& required_ok(v, "date"@, FieldKind::Text)
        &&& optional_ok(v, "id"@, FieldKind::Text)
    }

    open spec fn decoded_from(&self, v: JsonValue) -> bool {
        &&& number_is(v, "energy"@, self.energy)
        &&& self.date@ == text_of(field_of(v, "date"@)->0)
        &&& opt_text_is(v, "id"@, self.id)
    }

    open spec fn explains(v: JsonValue, e: DecodeError) -> bool {
        ||| fails(v, "energy"@, FieldKind::Number, e)
        ||| fails(v, "date"@, FieldKind::Text, e)
        ||| (!optional_ok(v, "id"@, FieldKind::Text) && reports_field(e, v, "id"@))
    }

    fn decode(v: &JsonValue) -> (r: Result<Self, DecodeError>) {
        let energy = required_number(v, "energy")?;
        let date = required_text(v, "date")?;
        let id = optional_text(v, "id")?;
        Ok(PlantDailyData { energy, date, id })
    }
}

/// An optional text field read into `o`: `None` for absent or `null`.
pub open spec fn opt_text_is(v: JsonValue, key: Seq<char>, o: Option<String>) -> bool {
    match o {
        Some(s) => field_of(v, key) is Some && field_of(v, key)->0 is Str && s@ == text_of(
            field_of(v, key)->0,
        ),
        None => field_of(v, key) is None || field_of(v, key)->0 is Null,
    }
}

/// An optional integer field read into `o`: `None` for absent or `null`.
pub open spec fn opt_int_is(v: JsonValue, key: Seq<char>, o: Option<i64>) -> bool {
    match o {
        Some(i) => field_of(v, key) is Some && has_kind(field_of(v, key)->0, FieldKind::Integer)
            && i == int_of(field_of(v, key)->0),
        None => field_of(v, key) is None || field_of(v, key)->0 is Null,
    }
}

/// The member `key` is absent, `null`, or an array of acceptable records.
pub open spec fn list_ok<T: Record>(v: JsonValue, key: Seq<char>) -> bool {
    let d = field_of(v, key);
    ||| d is None
    ||| d->0 is Null
    ||| (d->0 is Array && forall|i: int|
        0 <= i < elements(d->0).len() ==> T::accepts(#[trigger] elements(d->0)[i]))
}

/// `items` holds the records of the member `key`, one for each element.
pub open spec fn list_is<T: Record>(v: JsonValue, key: Seq<char>, items: Option<Vec<T>>) -> bool {
    let d = field_of(v, key);
    if d is Some && d->0 is Array {
        &&& items is Some
        &&& items->0@.len() == elements(d->0).len()
        &&& forall|i: int|
            0 <= i < elements(d->0).len() ==> (#[trigger] items->0@[i]).decoded_from(
                elements(d->0)[i],
            )
    } else {
        items is None
    }
}

/// `e` explains why the member `key` is refused: an element that is not an
/// acceptable record, or a member that is neither an array nor `null`.
pub open spec fn list_explains<T: Record>(v: JsonValue, key: Seq<char>, e: DecodeError) -> bool {
    let d = field_of(v, key);
    if d is Some && d->0 is Array {
        exists|i: int|
            0 <= i < elements(d->0).len() && !T::accepts(#[trigger] elements(d->0)[i])
                && T::explains(elements(d->0)[i], e)
    } else {
        d is Some && !(d->0 is Null) && reports_field(e, v, key)
    }
}

/// Reads the optional list member `key`: absent and `null` give `None`, an
/// array gives one record for each element.
pub fn decode_list<T: Record>(v: &JsonValue, key: &str) -> (r: Result<Option<Vec<T>>, DecodeError>)
    ensures
        r is Ok <==> list_ok::<T>(*v, key@),
        r is Ok ==> list_is(*v, key@, r->Ok_0),
        r is Err ==> list_explains::<T>(*v, key@, r->Err_0),
{
    match get_field(v, key) {
        None => Ok(None),
        Some(JsonValue::Null) => Ok(None),
        Some(JsonValue::Array(a)) => {
            let mut out: Vec<T> = Vec::new();
            let mut i: usize = 0;
            while i < a.len()
                invariant
                    field_of(*v, key@) == Some(JsonValue::Array(*a)),
                    elements(JsonValue::Array(*a)) == a@,
                    i <= a@.len(),
                    out@.len() == i,
                    forall|j: int| 0 <= j < i ==> T::accepts(#[trigger] a@[j]),
                    forall|j: int| 0 <= j < i ==> (#[trigger] out@[j]).decoded_from(a@[j]),
                decreases a@.len() - i,
            {
                match T::decode(&a[i]) {
                    Ok(x) => out.push(x),
                    Err(e) => {
                        assert(!T::accepts(a@[i as int]) && T::explains(a@[i as int], e));
                        return Err(e);
                    },
                }
                i = i + 1;
            }
            Ok(Some(out))
        },
        Some(_) => Err(DecodeError::InvalidType(owned(key))),
    }
}

/// A metrics series: the envelope fields and the records of one shape.
#[derive(Debug)]
pub struct MetricsSeries<T> {
    pub plant_id: String,
    pub unit: String,
    pub source: String,
    pub date: String,
    pub interval: String,
    pub data: Option<Vec<T>>,
    pub before: Option<i64>,
}

pub type BodyPanelData = MetricsSeries<PanelData>;

pub type BodyPanelDailyData = MetricsSeries<PanelDailyData>;

pub type BodyInverterData = MetricsSeries<InverterData>;

pub type BodyInverterDailyData = MetricsSeries<InverterDailyData>;

pub type BodyPlantData = MetricsSeries<PlantData>;

pub type BodyPlantDailyData = MetricsSeries<PlantDailyData>;

impl<T: Record> Record for MetricsSeries<T> {
    open spec fn accepts(v: JsonValue) -> bool {
        &&& required_ok(v, "plant_id"@, FieldKind::Text)
        &&& required_ok(v, "unit"@, FieldKind::Text)
        &&& required_ok(v, "source"@, FieldKind::Text)
        &&& required_ok(v, "date"@, FieldKind::Text)
        &&& required_ok(v, "interval"@, FieldKind::Text)
        &&& list_ok::<T>(v, "data"@)
        &&& optional_ok(v, "before"@, FieldKind::Integer)
    }

    open spec fn decoded_from(&self, v: JsonValue) -> bool {
        &&& self.plant_id@ == text_of(field_of(v, "plant_id"@)->0)
        &&& self.unit@ == text_of(field_of(v, "unit"@)->0)
        &&& self.source@ == text_of(field_of(v, "source"@)->0)
        &&& self.date@ == text_of(field_of(v, "date"@)->0)
        &&& self.interval@ == text_of(field_of(v, "interval"@)->0)
        &&& list_is(v, "data"@, self.data)
        &&& opt_int_is(v, "before"@, self.before)
    }

    open spec fn explains(v: JsonValue, e: DecodeError) -> bool {
        ||| fails(v, "plant_id"@, FieldKind::Text, e)
        ||| fails(v, "unit"@, FieldKind::Text, e)
        ||| fails(v, "source"@, FieldKind::Text, e)
        ||| fails(v, "date"@, FieldKind::Text, e)
        ||| fails(v, "interval"@, FieldKind::Text, e)
        ||| (!list_ok::<T>(v, "data"@) && list_explains::<T>(v, "data"@, e))
        ||| (!optional_ok(v, "before"@, FieldKind::Integer) && reports_field(e, v, "before"@))
    }

    fn decode(v: &JsonValue) -> (r: Result<Self, DecodeError>) {
        let plant_id = required_text(v, "plant_id")?;
        let unit = required_text(v, "unit")?;
        let source = required_text(v, "source")?;
        let date = required_text(v, "date")?;
        let interval = required_text(v, "interval")?;
        let data = decode_list::<T>(v, "data")?;
        let before = optional_int(v, "before")?;
        Ok(MetricsSeries { plant_id, unit, source, date, interval, data, before })
    }
}

/// The shapes a metrics payload can take, chosen by its `unit` and `interval`.
#[derive(Clone, Copy, Debug, PartialEq, Eq)]
pub enum MetricsKind {
    PanelIntraday,
    PanelDaily,
    InverterIntraday,
    InverterDaily,
    PlantIntraday,
    PlantAggregated,
    Unknown,
}

/// The shape selected by the tag pair; any pair outside the table is `Unknown`.
pub open spec fn metrics_kind_of(unit: Option<Seq<char>>, interval: Option<Seq<char>>) -> MetricsKind {
    if unit == Some("panel"@) && interval == Some("5m"@) {
        MetricsKind::PanelIntraday
    } else if unit == Some("panel"@) && interval == Some("day"@) {
        MetricsKind::PanelDaily
    } else if unit == Some("inverter"@) && interval == Some("5m"@) {
        MetricsKind::InverterIntraday
    } else if unit == Some("inverter"@) && interval == Some("day"@) {
        MetricsKind::InverterDaily
    } else if unit == Some("plant"@) && interval == Some("5m"@) {
        MetricsKind::PlantIntraday
    } else if unit == Some("plant"@) && interval == Some("day"@) {
        MetricsKind::PlantAggregated
    } else {
        MetricsKind::Unknown
    }
}

/// The shape selected by the `unit` and `interval` string fields of `v`.
pub open spec fn kind_of_document(v: JsonValue) -> MetricsKind {
    metrics_kind_of(as_text(field_of(v, "unit"@)), as_text(field_of(v, "interval"@)))
}

/// The views of an optional text.
pub open spec fn opt_view(o: Option<&str>) -> Option<Seq<char>> {
    match o {
        Some(s) => Some(s@),
        None => None,
    }
}

fn is_tag(o: Option<&str>, tag: &str) -> (r: bool)
    ensures
        r == (opt_view(o) == Some(tag@)),
{
    match o {
        Some(s) => text_eq(s, tag),
        None => false,
    }
}

/// Selects the shape for a tag pair.
pub fn metrics_kind(unit: Option<&str>, interval: Option<&str>) -> (k: MetricsKind)
    ensures
        k == metrics_kind_of(opt_view(unit), opt_view(interval)),
{
    let five = is_tag(interval, "5m");
    let day = is_tag(interval, "day");
    if is_tag(unit, "panel") {
        if five {
            return MetricsKind::PanelIntraday;
        } else if day {
            return MetricsKind::PanelDaily;
        }
    } else if is_tag(unit, "inverter") {
        if five {
            return MetricsKind::InverterIntraday;
        } else if day {
            return MetricsKind::InverterDaily;
        }
    } else if is_tag(unit, "plant") {
        if five {
            return MetricsKind::PlantIntraday;
        } else if day {
            return MetricsKind::PlantAggregated;
        }
    }
    MetricsKind::Unknown
}

/// A decoded metrics payload. `Unknown` keeps a document whose tag pair is
/// outside the table.
#[derive(Debug)]
pub enum MetricsBody {
    PanelIntraday(BodyPanelData),
    PanelDaily(BodyPanelDailyData),
    InverterIntraday(BodyInverterData),
    InverterDaily(BodyInverterDailyData),
    PlantIntraday(BodyPlantData),
    PlantAggregated(BodyPlantDailyData),
    Unknown(JsonValue),
}

/// The shape a document of kind `k` must have.
pub open spec fn kind_accepts(k: MetricsKind, v: JsonValue) -> bool {
    match k {
        MetricsKind::PanelIntraday => BodyPanelData::accepts(v),
        MetricsKind::PanelDaily => BodyPanelDailyData::accepts(v),
        MetricsKind::InverterIntraday => BodyInverterData::accepts(v),
        MetricsKind::InverterDaily => BodyInverterDailyData::accepts(v),
        MetricsKind::PlantIntraday => BodyPlantData::accepts(v),
        MetricsKind::PlantAggregated => BodyPlantDailyData::accepts(v),
        MetricsKind::Unknown => true,
    }
}

/// `e` explains why `v` does not have the shape of kind `k`.
pub open spec fn kind_explains(k: MetricsKind, v: JsonValue, e: DecodeError) -> bool {
    match k {
        MetricsKind::PanelIntraday => BodyPanelData::explains(v, e),
        MetricsKind::PanelDaily => BodyPanelDailyData::explains(v, e),
        MetricsKind::InverterIntraday => BodyInverterData::explains(v, e),
        MetricsKind::InverterDaily => BodyInverterDailyData::explains(v, e),
        MetricsKind::PlantIntraday => BodyPlantData::explains(v, e),
        MetricsKind::PlantAggregated => BodyPlantDailyData::explains(v, e),
        MetricsKind::Unknown => false,
    }
}

/// `b` is the decoding of `v`: the variant of `v`'s kind, holding its fields,
/// or the document itself for an unknown tag pair.
pub open spec fn decoded_as(b: MetricsBody, v: JsonValue) -> bool {
    match b {
        MetricsBody::PanelIntraday(s) => kind_of_document(v) == MetricsKind::PanelIntraday
            && s.decoded_from(v),
        MetricsBody::PanelDaily(s) => kind_of_document(v) == MetricsKind::PanelDaily
            && s.decoded_from(v),
        MetricsBody::InverterIntraday(s) => kind_of_document(v) == MetricsKind::InverterIntraday
            && s.decoded_from(v),
        MetricsBody::InverterDaily(s) => kind_of_document(v) == MetricsKind::InverterDaily
            && s.decoded_from(v),
        MetricsBody::PlantIntraday(s) => kind_of_document(v) == MetricsKind::PlantIntraday
            && s.decoded_from(v),
        MetricsBody::PlantAggregated(s) => kind_of_document(v) == MetricsKind::PlantAggregated
            && s.decoded_from(v),
        MetricsBody::Unknown(d) => kind_of_document(v) == MetricsKind::Unknown && d == v,
    }
}

impl MetricsBody {
    /// Decodes a metrics document: the `unit` / `interval` pair selects the
    /// shape, whose required fields are then checked; a pair outside the table
    /// gives `Unknown` with the document unchanged.
    pub fn deserialize(v: JsonValue) -> (r: Result<MetricsBody, DecodeError>)
        ensures
            r is Ok <==> kind_accepts(kind_of_document(v), v),
            r is Ok ==> decoded_as(r->Ok_0, v),
            r is Err ==> kind_explains(kind_of_document(v), v, r->Err_0),
    {
        let kind = metrics_kind(text_field(&v, "unit"), text_field(&v, "interval"));
        match kind {
            MetricsKind::PanelIntraday => Ok(MetricsBody::PanelIntraday(BodyPanelData::decode(&v)?)),
            MetricsKind::PanelDaily => Ok(MetricsBody::PanelDaily(BodyPanelDailyData::decode(&v)?)),
            MetricsKind::InverterIntraday => Ok(
                MetricsBody::InverterIntraday(BodyInverterData::decode(&v)?),
            ),
            MetricsKind::InverterDaily => Ok(
                MetricsBody::InverterDaily(BodyInverterDailyData::decode(&v)?),
            ),
            MetricsKind::PlantIntraday => Ok(MetricsBody::PlantIntraday(BodyPlantData::decode(&v)?)),
            MetricsKind::PlantAggregated => Ok(
                MetricsBody::PlantAggregated(BodyPlantDailyData::decode(&v)?),
            ),
            MetricsKind::Unknown => Ok(MetricsBody::Unknown(v)),
        }
    }
}

} // verus!
