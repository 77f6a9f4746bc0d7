//! How the records of [`crate::data_type`] are written to and read from
//! JSON.
//!
//! A record is an object with one member for each field, named in lower
//! camel case. In reading, members that the record does not know are passed
//! over, an optional field may be missing or `null`, and every other field
//! has to be there with a value of its kind.

use crate::data_type::{
    devices_view, optional_text_view, shockers_view, shocks_view, BaseResponse, BaseResponseView,
    ControlRequest, ControlRequestView, ControlType, ListShockersResponse,
    ListShockersResponseView, RankType, SelfResponse, SelfResponseView, Shock, ShockView,
    ShockerModel, ShockerResponse, ShockerResponseView,
};
use crate::error::Error;
use crate::json::{
    items_view, lemma_items_view, lemma_members_map_push, members_map, members_view, Json, JsonView,
};
use crate::laws::lemma_control_request_round_trip;
use crate::outside::json_text;
use vstd::prelude::*;

verus! {

/// The text in the member `name`, which has to be there and be a string.
pub open spec fn text_field(doc: JsonView, name: Seq<char>) -> Option<Seq<char>> {
    match doc.member(name) {
        Some(member) => member.as_text(),
        None => None,
    }
}

/// The text in the member `name`, which may be missing or `null`, and has to
/// be a string otherwise. The outer `None` says that it is something else.
pub open spec fn optional_text_field(doc: JsonView, name: Seq<char>) -> Option<Option<Seq<char>>> {
    match doc.member(name) {
        None => Some(None),
        Some(JsonView::Null) => Some(None),
        Some(member) => match member.as_text() {
            Some(text) => Some(Some(text)),
            None => None,
        },
    }
}

/// The truth value in the member `name`, which has to be there.
pub open spec fn bool_field(doc: JsonView, name: Seq<char>) -> Option<bool> {
    match doc.member(name) {
        Some(member) => member.as_bool(),
        None => None,
    }
}

/// The number in the member `name`, which has to be there and be an integer
/// from 0 to `max`.
pub open spec fn integer_field(doc: JsonView, name: Seq<char>, max: u64) -> Option<u64> {
    match doc.member(name) {
        Some(member) => match member.as_integer() {
            Some(number) => if number <= max {
                Some(number)
            } else {
                None
            },
            None => None,
        },
        None => None,
    }
}

/// The items of the array in the member `name`, which has to be there.
pub open spec fn items_field(doc: JsonView, name: Seq<char>) -> Option<Seq<JsonView>> {
    match doc.member(name) {
        Some(member) => member.as_items(),
        None => None,
    }
}

/// What `read` makes of the member `name`, which may be missing or `null`.
/// The outer `None` says that the member is there and `read` rejects it.
pub open spec fn optional_field<T>(
    doc: JsonView,
    name: Seq<char>,
    read: spec_fn(JsonView) -> Option<T>,
) -> Option<Option<T>> {
    match doc.member(name) {
        None => Some(None),
        Some(JsonView::Null) => Some(None),
        Some(member) => match read(member) {
            Some(value) => Some(Some(value)),
            None => None,
        },
    }
}

/// What `read` makes of each of `items`, where it accepts them all.
pub open spec fn each_of<T>(items: Seq<JsonView>, read: spec_fn(JsonView) -> Option<T>) -> Option<
    Seq<T>,
> {
    if forall|i: int| 0 <= i < items.len() ==> (#[trigger] read(items[i])) is Some {
        Some(Seq::new(items.len(), |i: int| read(items[i])->Some_0))
    } else {
        None
    }
}

/// [`each_of`] gives nothing where `read` rejects one of the items.
pub proof fn lemma_each_of_rejects<T>(
    items: Seq<JsonView>,
    read: spec_fn(JsonView) -> Option<T>,
    at: int,
)
    requires
        0 <= at < items.len(),
        read(items[at]) is None,
    ensures
        each_of(items, read) is None,
{
}

/// [`each_of`] gives the values that `read` gives item by item.
pub proof fn lemma_each_of_accepts<T>(
    items: Seq<JsonView>,
    read: spec_fn(JsonView) -> Option<T>,
    values: Seq<T>,
)
    requires
        values.len() == items.len(),
        forall|i: int| 0 <= i < items.len() ==> read(items[i]) == Some(#[trigger] values[i]),
    ensures
        each_of(items, read) == Some(values),
{
    assert forall|i: int| 0 <= i < items.len() implies (#[trigger] read(items[i])) is Some by {
        assert(read(items[i]) == Some(values[i]));
    }
    assert(each_of(items, read)->Some_0 =~= values);
}

fn read_text(doc: &Json, name: &str) -> (text: Option<String>)
    ensures
        optional_text_view(text) == text_field(doc@, name@),
{
    let text = doc.member(name)?.as_text()?;
    Some(String::from_str(text))
}

fn read_optional_text(doc: &Json, name: &str) -> (text: Option<Option<String>>)
    ensures
        match text {
            Some(text) => optional_text_field(doc@, name@) == Some(optional_text_view(text)),
            None => optional_text_field(doc@, name@) is None,
        },
{
    match doc.member(name) {
        None => Some(None),
        Some(member) => {
            if member.is_null() {
                Some(None)
            } else {
                let text = member.as_text()?;
                Some(Some(String::from_str(text)))
            }
        },
    }
}

fn read_bool(doc: &Json, name: &str) -> (truth: Option<bool>)
    ensures
        truth == bool_field(doc@, name@),
{
    doc.member(name)?.as_bool()
}

fn read_integer(doc: &Json, name: &str, max: u64) -> (number: Option<u64>)
    ensures
        number == integer_field(doc@, name@, max),
{
    let number = doc.member(name)?.as_integer()?;
    if number <= max {
        Some(number)
    } else {
        None
    }
}

fn read_items<'a>(doc: &'a Json, name: &str) -> (items: Option<&'a Vec<Json>>)
    ensures
        match items {
            Some(items) => items_field(doc@, name@) == Some(items_view(items@)),
            None => items_field(doc@, name@) is None,
        },
{
    doc.member(name)?.as_items()
}

/// Adds a member to the members of an object under construction.
fn push_member(members: &mut Vec<(String, Json)>, name: &str, member: Json)
    ensures
        members_map(members_view(final(members)@)) == members_map(
            members_view(old(members)@),
        ).insert(name@, member@),
{
    let ghost before = members@;
    members.push((String::from_str(name), member));
    proof {
        assert(members@.drop_last() == before);
        lemma_members_map_push(members_view(before), name@, member@);
    }
}

/// A text as a document, `null` where there is none.
fn optional_text_json(text: &Option<String>) -> (doc: Json)
    ensures
        doc@ == optional_text_document(optional_text_view(*text)),
{
    match text {
        Some(text) => Json::String(text.clone()),
        None => Json::Null,
    }
}

/// A text as a document, `null` where there is none.
pub open spec fn optional_text_document(text: Option<Seq<char>>) -> JsonView {
    match text {
        Some(text) => JsonView::String(text),
        None => JsonView::Null,
    }
}

/// The kind of command named in the member `name`.
pub open spec fn control_type_field(doc: JsonView, name: Seq<char>) -> Option<ControlType> {
    match text_field(doc, name) {
        Some(text) => ControlType::of_wire_name(text),
        None => None,
    }
}

/// The instruction that a document denotes, if it denotes one.
pub open spec fn shock_of(doc: JsonView) -> Option<ShockView> {
    match (
        text_field(doc, "id"@),
        control_type_field(doc, "type"@),
        integer_field(doc, "intensity"@, 0xff),
        integer_field(doc, "duration"@, 0xffff),
        bool_field(doc, "exclusive"@),
    ) {
        (Some(id), Some(control_type), Some(intensity), Some(duration), Some(exclusive)) => Some(
            ShockView {
                id,
                control_type,
                intensity: intensity as u8,
                duration: duration as u16,
                exclusive,
            },
        ),
        _ => None,
    }
}

/// The document that stands for an instruction.
pub open spec fn shock_json(shock: ShockView) -> JsonView {
    JsonView::Object(
        Map::empty().insert("id"@, JsonView::String(shock.id)).insert(
            "type"@,
            JsonView::String(shock.control_type.wire_name()),
        ).insert("intensity"@, JsonView::Number(Some(shock.intensity as u64))).insert(
            "duration"@,
            JsonView::Number(Some(shock.duration as u64)),
        ).insert("exclusive"@, JsonView::Bool(shock.exclusive)),
    )
}

/// The instructions that a list of documents denotes, if each denotes one.
pub open spec fn shocks_of(items: Seq<JsonView>) -> Option<Seq<ShockView>> {
    each_of(items, |item: JsonView| shock_of(item))
}

/// The documents that stand for a list of instructions.
pub open spec fn shocks_json(shocks: Seq<ShockView>) -> Seq<JsonView> {
    shocks.map_values(|shock: ShockView| shock_json(shock))
}

/// The control request that a document denotes, if it denotes one.
pub open spec fn control_request_of(doc: JsonView) -> Option<ControlRequestView> {
    match (items_field(doc, "shocks"@), text_field(doc, "customName"@)) {
        (Some(items), Some(custom_name)) => match shocks_of(items) {
            Some(shocks) => Some(ControlRequestView { shocks, custom_name }),
            None => None,
        },
        _ => None,
    }
}

/// The document that stands for a control request.
pub open spec fn control_request_json(request: ControlRequestView) -> JsonView {
    JsonView::Object(
        Map::empty().insert("shocks"@, JsonView::Array(shocks_json(request.shocks))).insert(
            "customName"@,
            JsonView::String(request.custom_name),
        ),
    )
}

impl Shock {
    /// Reads an instruction from a document.
    pub fn from_json(doc: &Json) -> (shock: Option<Shock>)
        ensures
            match shock {
                Some(shock) => shock_of(doc@) == Some(shock@),
                None => shock_of(doc@) is None,
            },
    {
        let id = read_text(doc, "id")?;
        let kind = read_text(doc, "type")?;
        let control_type = ControlType::from_name(kind.as_str())?;
        let intensity = read_integer(doc, "intensity", 0xff)?;
        let duration = read_integer(doc, "duration", 0xffff)?;
        let exclusive = read_bool(doc, "exclusive")?;
        Some(
            Shock {
                id,
                control_type,
                intensity: intensity as u8,
                duration: duration as u16,
                exclusive,
            },
        )
    }

    /// Writes the instruction as a document.
    pub fn to_json(&self) -> (doc: Json)
        ensures
            doc@ == shock_json(self@),
    {
        let mut members: Vec<(String, Json)> = Vec::new();
        push_member(&mut members, "id", Json::String(self.id.clone()));
        push_member(&mut members, "type", Json::String(String::from_str(self.control_type.name())));
        push_member(&mut members, "intensity", Json::Number(Some(self.intensity as u64)));
        push_member(&mut members, "duration", Json::Number(Some(self.duration as u64)));
        push_member(&mut members, "exclusive", Json::Bool(self.exclusive));
        Json::Object(members)
    }
}

impl ControlRequest {
    /// Reads a control request from a document.
    pub fn from_json(doc: &Json) -> (request: Option<ControlRequest>)
        ensures
            match request {
                Some(request) => control_request_of(doc@) == Some(request@),
                None => control_request_of(doc@) is None,
            },
    {
        let items = read_items(doc, "shocks")?;
        let custom_name = read_text(doc, "customName")?;
        let mut shocks: Vec<Shock> = Vec::new();
        let mut i: usize = 0;
        proof {
            lemma_items_view(items@);
        }
        while i < items.len()
            invariant
                i <= items@.len(),
                shocks@.len() == i,
                items_field(doc@, "shocks"@) == Some(items_view(items@)),
                items_view(items@).len() == items@.len(),
                forall|k: int| 0 <= k < items@.len() ==> (#[trigger] items_view(items@)[k]) == items@[k]@,
                forall|k: int| 0 <= k < i ==> shock_of(items@[k]@) == Some((#[trigger] shocks@[k])@),
            decreases items@.len() - i,
        {
            match Shock::from_json(&items[i]) {
                Some(shock) => {
                    shocks.push(shock);
                },
                None => {
                    proof {
                        lemma_each_of_rejects(
                            items_view(items@),
                            |item: JsonView| shock_of(item),
                            i as int,
                        );
                    }
                    return None;
                },
            }
            i += 1;
        }
        proof {
            lemma_each_of_accepts(
                items_view(items@),
                |item: JsonView| shock_of(item),
                shocks_view(shocks@),
            );
        }
        Some(ControlRequest { shocks, custom_name })
    }

    /// Writes the control request as JSON text, which always succeeds.
    pub fn to_text(&self) -> (written: Result<String, Error>)
        ensures
            written matches Ok(text) && text@ == json_text(control_request_json(self@)),
    {
        let document = self.to_json();
        proof {
            lemma_control_request_round_trip(self@);
        }
        document.to_text()
    }

    /// Writes the control request as a document.
    pub fn to_json(&self) -> (doc: Json)
        ensures
            doc@ == control_request_json(self@),
    {
        let mut items: Vec<Json> = Vec::new();
        let mut i: usize = 0;
        while i < self.shocks.len()
            invariant
                i <= self.shocks@.len(),
                items@.len() == i,
                forall|k: int| 0 <= k < i ==> (#[trigger] items@[k])@ == shock_json(self.shocks@[k]@),
            decreases self.shocks@.len() - i,
        {
            items.push(self.shocks[i].to_json());
            i += 1;
        }
        proof {
            lemma_items_view(items@);
            assert(items_view(items@) =~= shocks_json(shocks_view(self.shocks@)));
        }
        let mut members: Vec<(String, Json)> = Vec::new();
        push_member(&mut members, "shocks", Json::Array(items));
        push_member(&mut members, "customName", Json::String(self.custom_name.clone()));
        Json::Object(members)
    }
}

/// The model of shocker named in the member `name`.
pub open spec fn model_field(doc: JsonView, name: Seq<char>) -> Option<ShockerModel> {
    match text_field(doc, name) {
        Some(text) => ShockerModel::of_wire_name(text),
        None => None,
    }
}

/// The rank named in the member `name`.
pub open spec fn rank_field(doc: JsonView, name: Seq<char>) -> Option<RankType> {
    match text_field(doc, name) {
        Some(text) => RankType::of_wire_name(text),
        None => None,
    }
}

/// The shocker that a document denotes, if it denotes one.
pub open spec fn shocker_of(doc: JsonView) -> Option<ShockerResponseView> {
    match (
        optional_text_field(doc, "name"@),
        bool_field(doc, "isPaused"@),
        text_field(doc, "createdOn"@),
        text_field(doc, "id"@),
        integer_field(doc, "rfId"@, 0xffff_ffff),
        model_field(doc, "model"@),
    ) {
        (Some(name), Some(is_paused), Some(created_on), Some(id), Some(rf_id), Some(model)) => Some(
            ShockerResponseView { name, is_paused, created_on, id, rf_id: rf_id as u32, model },
        ),
        _ => None,
    }
}

/// The document that stands for a shocker.
pub open spec fn shocker_json(shocker: ShockerResponseView) -> JsonView {
    JsonView::Object(
        Map::empty().insert("name"@, optional_text_document(shocker.name)).insert(
            "isPaused"@,
            JsonView::Bool(shocker.is_paused),
        ).insert("createdOn"@, JsonView::String(shocker.created_on)).insert(
            "id"@,
            JsonView::String(shocker.id),
        ).insert("rfId"@, JsonView::Number(Some(shocker.rf_id as u64))).insert(
            "model"@,
            JsonView::String(shocker.model.wire_name()),
        ),
    )
}

/// The shockers that a list of documents denotes, if each denotes one.
pub open spec fn shockers_of(items: Seq<JsonView>) -> Option<Seq<ShockerResponseView>> {
    each_of(items, |item: JsonView| shocker_of(item))
}

/// The documents that stand for a list of shockers.
pub open spec fn shockers_json(shockers: Seq<ShockerResponseView>) -> Seq<JsonView> {
    shockers.map_values(|shocker: ShockerResponseView| shocker_json(shocker))
}

/// The device that a document denotes, if it denotes one.
pub open spec fn device_of(doc: JsonView) -> Option<ListShockersResponseView> {
    match (
        items_field(doc, "shockers"@),
        text_field(doc, "id"@),
        text_field(doc, "name"@),
        text_field(doc, "createdOn"@),
    ) {
        (Some(items), Some(id), Some(name), Some(created_on)) => match shockers_of(items) {
            Some(shockers) => Some(ListShockersResponseView { shockers, id, name, created_on }),
            None => None,
        },
        _ => None,
    }
}

/// The document that stands for a device.
pub open spec fn device_json(device: ListShockersResponseView) -> JsonView {
    JsonView::Object(
        Map::empty().insert("shockers"@, JsonView::Array(shockers_json(device.shockers))).insert(
            "id"@,
            JsonView::String(device.id),
        ).insert("name"@, JsonView::String(device.name)).insert(
            "createdOn"@,
            JsonView::String(device.created_on),
        ),
    )
}

/// The devices that a document denotes, if it is an array of them.
pub open spec fn devices_of(doc: JsonView) -> Option<Seq<ListShockersResponseView>> {
    match doc.as_items() {
        Some(items) => each_of(items, |item: JsonView| device_of(item)),
        None => None,
    }
}

/// The document that stands for a list of devices.
pub open spec fn devices_json(devices: Seq<ListShockersResponseView>) -> JsonView {
    JsonView::Array(devices.map_values(|device: ListShockersResponseView| device_json(device)))
}

/// The account that a document denotes, if it denotes one.
pub open spec fn self_response_of(doc: JsonView) -> Option<SelfResponseView> {
    match (
        text_field(doc, "id"@),
        optional_text_field(doc, "name"@),
        optional_text_field(doc, "email"@),
        optional_text_field(doc, "image"@),
        rank_field(doc, "rank"@),
    ) {
        (Some(id), Some(name), Some(email), Some(image), Some(rank)) => Some(
            SelfResponseView { id, name, email, image, rank },
        ),
        _ => None,
    }
}

/// The document that stands for an account.
pub open spec fn self_response_json(account: SelfResponseView) -> JsonView {
    JsonView::Object(
        Map::empty().insert("id"@, JsonView::String(account.id)).insert(
            "name"@,
            optional_text_document(account.name),
        ).insert("email"@, optional_text_document(account.email)).insert(
            "image"@,
            optional_text_document(account.image),
        ).insert("rank"@, JsonView::String(account.rank.wire_name())),
    )
}

impl ShockerResponse {
    /// Reads a shocker from a document.
    pub fn from_json(doc: &Json) -> (shocker: Option<ShockerResponse>)
        ensures
            match shocker {
                Some(shocker) => shocker_of(doc@) == Some(shocker@),
                None => shocker_of(doc@) is None,
            },
    {
        let name = read_optional_text(doc, "name")?;
        let is_paused = read_bool(doc, "isPaused")?;
        let created_on = read_text(doc, "createdOn")?;
        let id = read_text(doc, "id")?;
        let rf_id = read_integer(doc, "rfId", 0xffff_ffff)?;
        let model_name = read_text(doc, "model")?;
        let model = ShockerModel::from_name(model_name.as_str())?;
        Some(ShockerResponse { name, is_paused, created_on, id, rf_id: rf_id as u32, model })
    }

    /// Writes the shocker as a document.
    pub fn to_json(&self) -> (doc: Json)
        ensures
            doc@ == shocker_json(self@),
    {
        let mut members: Vec<(String, Json)> = Vec::new();
        push_member(&mut members, "name", optional_text_json(&self.name));
        push_member(&mut members, "isPaused", Json::Bool(self.is_paused));
        push_member(&mut members, "createdOn", Json::String(self.created_on.clone()));
        push_member(&mut members, "id", Json::String(self.id.clone()));
        push_member(&mut members, "rfId", Json::Number(Some(self.rf_id as u64)));
        push_member(&mut members, "model", Json::String(String::from_str(self.model.name())));
        Json::Object(members)
    }
}

impl ListShockersResponse {
    /// Reads a device from a document.
    pub fn from_json(doc: &Json) -> (device: Option<ListShockersResponse>)
        ensures
            match device {
                Some(device) => device_of(doc@) == Some(device@),
                None => device_of(doc@) is None,
            },
    {
        let items = read_items(doc, "shockers")?;
        let id = read_text(doc, "id")?;
        let name = read_text(doc, "name")?;
        let created_on = read_text(doc, "createdOn")?;
        let mut shockers: Vec<ShockerResponse> = Vec::new();
        let mut i: usize = 0;
        proof {
            lemma_items_view(items@);
        }
        while i < items.len()
            invariant
                i <= items@.len(),
                shockers@.len() == i,
                items_field(doc@, "shockers"@) == Some(items_view(items@)),
                items_view(items@).len() == items@.len(),
                forall|k: int|
                    0 <= k < items@.len() ==> (#[trigger] items_view(items@)[k]) == items@[k]@,
                forall|k: int|
                    0 <= k < i ==> shocker_of(items@[k]@) == Some((#[trigger] shockers@[k])@),
            decreases items@.len() - i,
        {
            match ShockerResponse::from_json(&items[i]) {
                Some(shocker) => {
                    shockers.push(shocker);
                },
                None => {
                    proof {
                        lemma_each_of_rejects(
                            items_view(items@),
                            |item: JsonView| shocker_of(item),
                            i as int,
                        );
                    }
                    return None;
                },
            }
            i += 1;
        }
        proof {
            lemma_each_of_accepts(
                items_view(items@),
                |item: JsonView| shocker_of(item),
                shockers_view(shockers@),
            );
        }
        Some(ListShockersResponse { shockers, id, name, created_on })
    }

    /// Writes the device as a document.
    pub fn to_json(&self) -> (doc: Json)
        ensures
            doc@ == device_json(self@),
    {
        let mut items: Vec<Json> = Vec::new();
        let mut i: usize = 0;
        while i < self.shockers.len()
            invariant
                i <= self.shockers@.len(),
                items@.len() == i,
                forall|k: int|
                    0 <= k < i ==> (#[trigger] items@[k])@ == shocker_json(self.shockers@[k]@),
            decreases self.shockers@.len() - i,
        {
            items.push(self.shockers[i].to_json());
            i += 1;
        }
        proof {
            lemma_items_view(items@);
            assert(items_view(items@) =~= shockers_json(shockers_view(self.shockers@)));
        }
        let mut members: Vec<(String, Json)> = Vec::new();
        push_member(&mut members, "shockers", Json::Array(items));
        push_member(&mut members, "id", Json::String(self.id.clone()));
        push_member(&mut members, "name", Json::String(self.name.clone()));
        push_member(&mut members, "createdOn", Json::String(self.created_on.clone()));
        Json::Object(members)
    }

    /// Reads a list of devices from a document.
    pub fn list_from_json(doc: &Json) -> (devices: Option<Vec<ListShockersResponse>>)
        ensures
            match devices {
                Some(devices) => devices_of(doc@) == Some(devices_view(devices@)),
                None => devices_of(doc@) is None,
            },
    {
        let items = doc.as_items()?;
        let mut devices: Vec<ListShockersResponse> = Vec::new();
        let mut i: usize = 0;
        proof {
            lemma_items_view(items@);
        }
        while i < items.len()
            invariant
                i <= items@.len(),
                devices@.len() == i,
                doc@.as_items() == Some(items_view(items@)),
                items_view(items@).len() == items@.len(),
                forall|k: int|
                    0 <= k < items@.len() ==> (#[trigger] items_view(items@)[k]) == items@[k]@,
                forall|k: int|
                    0 <= k < i ==> device_of(items@[k]@) == Some((#[trigger] devices@[k])@),
            decreases items@.len() - i,
        {
            match ListShockersResponse::from_json(&items[i]) {
                Some(device) => {
                    devices.push(device);
                },
                None => {
                    proof {
                        lemma_each_of_rejects(
                            items_view(items@),
                            |item: JsonView| device_of(item),
                            i as int,
                        );
                    }
                    return None;
                },
            }
            i += 1;
        }
        proof {
            lemma_each_of_accepts(
                items_view(items@),
                |item: JsonView| device_of(item),
                devices_view(devices@),
            );
        }
        Some(devices)
    }

    /// Writes a list of devices as a document.
    pub fn list_to_json(devices: &Vec<ListShockersResponse>) -> (doc: Json)
        ensures
            doc@ == devices_json(devices_view(devices@)),
    {
        let mut items: Vec<Json> = Vec::new();
        let mut i: usize = 0;
        while i < devices.len()
            invariant
                i <= devices@.len(),
                items@.len() == i,
                forall|k: int| 0 <= k < i ==> (#[trigger] items@[k])@ == device_json(devices@[k]@),
            decreases devices@.len() - i,
        {
            items.push(devices[i].to_json());
            i += 1;
        }
        proof {
            lemma_items_view(items@);
            assert(items_view(items@) =~= devices_json(devices_view(devices@))->Array_0);
        }
        Json::Array(items)
    }
}

impl SelfResponse {
    /// Reads an account from a document.
    pub fn from_json(doc: &Json) -> (account: Option<SelfResponse>)
        ensures
            match account {
                Some(account) => self_response_of(doc@) == Some(account@),
                None => self_response_of(doc@) is None,
            },
    {
        let id = read_text(doc, "id")?;
        let name = read_optional_text(doc, "name")?;
        let email = read_optional_text(doc, "email")?;
        let image = read_optional_text(doc, "image")?;
        let rank_name = read_text(doc, "rank")?;
        let rank = RankType::from_name(rank_name.as_str())?;
        Some(SelfResponse { id, name, email, image, rank })
    }

    /// Writes the account as a document.
    pub fn to_json(&self) -> (doc: Json)
        ensures
            doc@ == self_response_json(self@),
    {
        let mut members: Vec<(String, Json)> = Vec::new();
        push_member(&mut members, "id", Json::String(self.id.clone()));
        push_member(&mut members, "name", optional_text_json(&self.name));
        push_member(&mut members, "email", optional_text_json(&self.email));
        push_member(&mut members, "image", optional_text_json(&self.image));
        push_member(&mut members, "rank", Json::String(String::from_str(self.rank.name())));
        Json::Object(members)
    }
}

/// The envelope that a document denotes, with `read` for the payload. The
/// document has to be an object; both the message and the payload may be
/// missing or `null`.
pub open spec fn envelope_of<T>(doc: JsonView, read: spec_fn(JsonView) -> Option<T>) -> Option<
    BaseResponseView<T>,
> {
    if doc is Object {
        match (optional_text_field(doc, "message"@), optional_field(doc, "data"@, read)) {
            (Some(message), Some(data)) => Some(BaseResponseView { message, data }),
            _ => None,
        }
    } else {
        None
    }
}

/// The document that stands for an envelope whose payload is already
/// written as a document.
pub open spec fn envelope_json(message: Option<Seq<char>>, data: Option<JsonView>) -> JsonView {
    JsonView::Object(
        Map::empty().insert("message"@, optional_text_document(message)).insert(
            "data"@,
            match data {
                Some(data) => data,
                None => JsonView::Null,
            },
        ),
    )
}

/// The envelope around an account that a document denotes.
pub open spec fn account_envelope_of(doc: JsonView) -> Option<BaseResponseView<SelfResponseView>> {
    envelope_of(doc, |data: JsonView| self_response_of(data))
}

/// The envelope around a list of devices that a document denotes.
pub open spec fn devices_envelope_of(doc: JsonView) -> Option<
    BaseResponseView<Seq<ListShockersResponseView>>,
> {
    envelope_of(doc, |data: JsonView| devices_of(data))
}

/// The envelope around a text that a document denotes.
pub open spec fn text_envelope_of(doc: JsonView) -> Option<BaseResponseView<Seq<char>>> {
    envelope_of(doc, |data: JsonView| data.as_text())
}

/// The member `name`, unless it is missing or `null`.
fn read_present<'a>(doc: &'a Json, name: &str) -> (present: Option<&'a Json>)
    ensures
        match present {
            Some(member) => doc@.member(name@) == Some(member@) && !(member@ is Null),
            None => doc@.member(name@) is None || doc@.member(name@) == Some(JsonView::Null),
        },
{
    let member = doc.member(name)?;
    if member.is_null() {
        None
    } else {
        Some(member)
    }
}

/// The envelope around a payload that is already written as a document.
fn envelope_to_json(message: &Option<String>, data: Option<Json>) -> (doc: Json)
    ensures
        doc@ == envelope_json(
            optional_text_view(*message),
            match data {
                Some(data) => Some(data@),
                None => None,
            },
        ),
{
    let mut members: Vec<(String, Json)> = Vec::new();
    push_member(&mut members, "message", optional_text_json(message));
    push_member(
        &mut members,
        "data",
        match data {
            Some(data) => data,
            None => Json::Null,
        },
    );
    Json::Object(members)
}

impl BaseResponse<SelfResponse> {
    /// Reads the envelope around an account from a document.
    pub fn from_json(doc: &Json) -> (envelope: Option<BaseResponse<SelfResponse>>)
        ensures
            match envelope {
                Some(envelope) => account_envelope_of(doc@) == Some(envelope@),
                None => account_envelope_of(doc@) is None,
            },
    {
        if !doc.is_object() {
            return None;
        }
        let message = read_optional_text(doc, "message")?;
        let data = match read_present(doc, "data") {
            Some(member) => Some(SelfResponse::from_json(member)?),
            None => None,
        };
        Some(BaseResponse { message, data })
    }

    /// Writes the envelope as a document.
    pub fn to_json(&self) -> (doc: Json)
        ensures
            doc@ == envelope_json(
                self@.message,
                match self@.data {
                    Some(account) => Some(self_response_json(account)),
                    None => None,
                },
            ),
    {
        let data = match &self.data {
            Some(account) => Some(account.to_json()),
            None => None,
        };
        envelope_to_json(&self.message, data)
    }
}

impl BaseResponse<Vec<ListShockersResponse>> {
    /// Reads the envelope around a list of devices from a document.
    pub fn from_json(doc: &Json) -> (envelope: Option<BaseResponse<Vec<ListShockersResponse>>>)
        ensures
            match envelope {
                Some(envelope) => devices_envelope_of(doc@) == Some(envelope@),
                None => devices_envelope_of(doc@) is None,
            },
    {
        if !doc.is_object() {
            return None;
        }
        let message = read_optional_text(doc, "message")?;
        let data = match read_present(doc, "data") {
            Some(member) => Some(ListShockersResponse::list_from_json(member)?),
            None => None,
        };
        Some(BaseResponse { message, data })
    }

    /// Writes the envelope as a document.
    pub fn to_json(&self) -> (doc: Json)
        ensures
            doc@ == envelope_json(
                self@.message,
                match self@.data {
                    Some(devices) => Some(devices_json(devices)),
                    None => None,
                },
            ),
    {
        let data = match &self.data {
            Some(devices) => Some(ListShockersResponse::list_to_json(devices)),
            None => None,
        };
        envelope_to_json(&self.message, data)
    }
}

impl BaseResponse<String> {
    /// Reads the envelope around a text from a document.
    pub fn from_json(doc: &Json) -> (envelope: Option<BaseResponse<String>>)
        ensures
            match envelope {
                Some(envelope) => text_envelope_of(doc@) == Some(envelope@),
                None => text_envelope_of(doc@) is None,
            },
    {
        if !doc.is_object() {
            return None;
        }
        let message = read_optional_text(doc, "message")?;
        let data = match read_present(doc, "data") {
            Some(member) => Some(String::from_str(member.as_text()?)),
            None => None,
        };
        Some(BaseResponse { message, data })
    }

    /// Writes the envelope as a document.
    pub fn to_json(&self) -> (doc: Json)
        ensures
            doc@ == envelope_json(
                self@.message,
                match self@.data {
                    Some(text) => Some(JsonView::String(text)),
                    None => None,
                },
            ),
    {
        let data = match &self.data {
            Some(text) => Some(Json::String(text.clone())),
            None => None,
        };
        envelope_to_json(&self.message, data)
    }
}

} // verus!
