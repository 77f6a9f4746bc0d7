//! What holds of the client as a whole and of the mapping between records
//! and JSON: every record is read back from the document that was written
//! for it, and every such document can be put into text.

use crate::api::{ClientConfig, ListShockerSource};
use crate::api_builder::{default_base_url, BuilderView};
use crate::data_type::{
    lemma_control_type_names, ControlType, lemma_rank_type_names, lemma_shocker_model_names,
    ControlRequestView, ListShockersResponseView, SelfResponseView, ShockView,
    ShockerResponseView,
};
use crate::json::{lemma_writable_array, lemma_writable_empty, lemma_writable_insert, JsonView};
use crate::wire::{
    control_request_json, control_request_of, device_json, device_of, devices_json, devices_of,
    lemma_each_of_accepts, optional_text_document, self_response_json, self_response_of, shock_json, shock_of,
    shocker_json, shocker_of, shockers_json, shocks_json,
};
use vstd::prelude::*;

verus! {

/// What the member names of the records hold, letter by letter.
proof fn lemma_member_names()
    ensures
        "id"@ == seq!['i', 'd'],
        "type"@ == seq!['t', 'y', 'p', 'e'],
        "name"@ == seq!['n', 'a', 'm', 'e'],
        "rfId"@ == seq!['r', 'f', 'I', 'd'],
        "rank"@ == seq!['r', 'a', 'n', 'k'],
        "model"@ == seq!['m', 'o', 'd', 'e', 'l'],
        "email"@ == seq!['e', 'm', 'a', 'i', 'l'],
        "image"@ == seq!['i', 'm', 'a', 'g', 'e'],
        "shocks"@ == seq!['s', 'h', 'o', 'c', 'k', 's'],
        "duration"@ == seq!['d', 'u', 'r', 'a', 't', 'i', 'o', 'n'],
        "isPaused"@ == seq!['i', 's', 'P', 'a', 'u', 's', 'e', 'd'],
        "shockers"@ == seq!['s', 'h', 'o', 'c', 'k', 'e', 'r', 's'],
        "intensity"@ == seq!['i', 'n', 't', 'e', 'n', 's', 'i', 't', 'y'],
        "exclusive"@ == seq!['e', 'x', 'c', 'l', 'u', 's', 'i', 'v', 'e'],
        "createdOn"@ == seq!['c', 'r', 'e', 'a', 't', 'e', 'd', 'O', 'n'],
        "customName"@ == seq!['c', 'u', 's', 't', 'o', 'm', 'N', 'a', 'm', 'e'],
{
    reveal_strlit("id");
    reveal_strlit("type");
    reveal_strlit("name");
    reveal_strlit("rfId");
    reveal_strlit("rank");
    reveal_strlit("model");
    reveal_strlit("email");
    reveal_strlit("image");
    reveal_strlit("shocks");
    reveal_strlit("duration");
    reveal_strlit("isPaused");
    reveal_strlit("shockers");
    reveal_strlit("intensity");
    reveal_strlit("exclusive");
    reveal_strlit("createdOn");
    reveal_strlit("customName");
    assert("id"@ =~= seq!['i', 'd']);
    assert("type"@ =~= seq!['t', 'y', 'p', 'e']);
    assert("name"@ =~= seq!['n', 'a', 'm', 'e']);
    assert("rfId"@ =~= seq!['r', 'f', 'I', 'd']);
    assert("rank"@ =~= seq!['r', 'a', 'n', 'k']);
    assert("model"@ =~= seq!['m', 'o', 'd', 'e', 'l']);
    assert("email"@ =~= seq!['e', 'm', 'a', 'i', 'l']);
    assert("image"@ =~= seq!['i', 'm', 'a', 'g', 'e']);
    assert("shocks"@ =~= seq!['s', 'h', 'o', 'c', 'k', 's']);
    assert("duration"@ =~= seq!['d', 'u', 'r', 'a', 't', 'i', 'o', 'n']);
    assert("isPaused"@ =~= seq!['i', 's', 'P', 'a', 'u', 's', 'e', 'd']);
    assert("shockers"@ =~= seq!['s', 'h', 'o', 'c', 'k', 'e', 'r', 's']);
    assert("intensity"@ =~= seq!['i', 'n', 't', 'e', 'n', 's', 'i', 't', 'y']);
    assert("exclusive"@ =~= seq!['e', 'x', 'c', 'l', 'u', 's', 'i', 'v', 'e']);
    assert("createdOn"@ =~= seq!['c', 'r', 'e', 'a', 't', 'e', 'd', 'O', 'n']);
    assert("customName"@ =~= seq!['c', 'u', 's', 't', 'o', 'm', 'N', 'a', 'm', 'e']);
}

/// An instruction is read back from the document written for it, and that
/// document can be put into text.
pub proof fn lemma_shock_round_trip(shock: ShockView)
    ensures
        shock_of(shock_json(shock)) == Some(shock),
        shock_json(shock).writable(),
{
    lemma_member_names();
    lemma_control_type_names(shock.control_type, Seq::empty());
    let m0 = Map::<Seq<char>, JsonView>::empty();
    let m1 = m0.insert("id"@, JsonView::String(shock.id));
    let m2 = m1.insert("type"@, JsonView::String(shock.control_type.wire_name()));
    let m3 = m2.insert("intensity"@, JsonView::Number(Some(shock.intensity as u64)));
    let m4 = m3.insert("duration"@, JsonView::Number(Some(shock.duration as u64)));
    lemma_writable_empty();
    lemma_writable_insert(m0, "id"@, JsonView::String(shock.id));
    lemma_writable_insert(m1, "type"@, JsonView::String(shock.control_type.wire_name()));
    lemma_writable_insert(m2, "intensity"@, JsonView::Number(Some(shock.intensity as u64)));
    lemma_writable_insert(m3, "duration"@, JsonView::Number(Some(shock.duration as u64)));
    lemma_writable_insert(m4, "exclusive"@, JsonView::Bool(shock.exclusive));
}

/// A control request is read back from the document written for it, and
/// that document can be put into text.
pub proof fn lemma_control_request_round_trip(request: ControlRequestView)
    ensures
        control_request_of(control_request_json(request)) == Some(request),
        control_request_json(request).writable(),
{
    lemma_member_names();
    let items = shocks_json(request.shocks);
    assert forall|i: int| 0 <= i < items.len() implies shock_of(items[i]) == Some(
        #[trigger] request.shocks[i],
    ) && items[i].writable() by {
        lemma_shock_round_trip(request.shocks[i]);
    }
    lemma_each_of_accepts(items, |item: JsonView| shock_of(item), request.shocks);
    lemma_writable_array(items);
    let m0 = Map::<Seq<char>, JsonView>::empty();
    let m1 = m0.insert("shocks"@, JsonView::Array(items));
    lemma_writable_empty();
    lemma_writable_insert(m0, "shocks"@, JsonView::Array(items));
    lemma_writable_insert(m1, "customName"@, JsonView::String(request.custom_name));
}

/// A shocker is read back from the document written for it, and that
/// document can be put into text.
pub proof fn lemma_shocker_round_trip(shocker: ShockerResponseView)
    ensures
        shocker_of(shocker_json(shocker)) == Some(shocker),
        shocker_json(shocker).writable(),
{
    lemma_member_names();
    lemma_shocker_model_names(shocker.model, Seq::empty());
    let name = optional_text_document(shocker.name);
    let m0 = Map::<Seq<char>, JsonView>::empty();
    let m1 = m0.insert("name"@, name);
    let m2 = m1.insert("isPaused"@, JsonView::Bool(shocker.is_paused));
    let m3 = m2.insert("createdOn"@, JsonView::String(shocker.created_on));
    let m4 = m3.insert("id"@, JsonView::String(shocker.id));
    let m5 = m4.insert("rfId"@, JsonView::Number(Some(shocker.rf_id as u64)));
    lemma_writable_empty();
    lemma_writable_insert(m0, "name"@, name);
    lemma_writable_insert(m1, "isPaused"@, JsonView::Bool(shocker.is_paused));
    lemma_writable_insert(m2, "createdOn"@, JsonView::String(shocker.created_on));
    lemma_writable_insert(m3, "id"@, JsonView::String(shocker.id));
    lemma_writable_insert(m4, "rfId"@, JsonView::Number(Some(shocker.rf_id as u64)));
    lemma_writable_insert(m5, "model"@, JsonView::String(shocker.model.wire_name()));
}

/// A device is read back from the document written for it, and that
/// document can be put into text.
pub proof fn lemma_device_round_trip(device: ListShockersResponseView)
    ensures
        device_of(device_json(device)) == Some(device),
        device_json(device).writable(),
{
    lemma_member_names();
    let items = shockers_json(device.shockers);
    assert forall|i: int| 0 <= i < items.len() implies shocker_of(items[i]) == Some(
        #[trigger] device.shockers[i],
    ) && items[i].writable() by {
        lemma_shocker_round_trip(device.shockers[i]);
    }
    lemma_each_of_accepts(items, |item: JsonView| shocker_of(item), device.shockers);
    lemma_writable_array(items);
    let m0 = Map::<Seq<char>, JsonView>::empty();
    let m1 = m0.insert("shockers"@, JsonView::Array(items));
    let m2 = m1.insert("id"@, JsonView::String(device.id));
    let m3 = m2.insert("name"@, JsonView::String(device.name));
    lemma_writable_empty();
    lemma_writable_insert(m0, "shockers"@, JsonView::Array(items));
    lemma_writable_insert(m1, "id"@, JsonView::String(device.id));
    lemma_writable_insert(m2, "name"@, JsonView::String(device.name));
    lemma_writable_insert(m3, "createdOn"@, JsonView::String(device.created_on));
}

/// A list of devices is read back from the document written for it, and
/// that document can be put into text.
pub proof fn lemma_devices_round_trip(devices: Seq<ListShockersResponseView>)
    ensures
        devices_of(devices_json(devices)) == Some(devices),
        devices_json(devices).writable(),
{
    let items = devices_json(devices)->Array_0;
    assert forall|i: int| 0 <= i < items.len() implies device_of(items[i]) == Some(
        #[trigger] devices[i],
    ) && items[i].writable() by {
        lemma_device_round_trip(devices[i]);
    }
    lemma_each_of_accepts(items, |item: JsonView| device_of(item), devices);
    lemma_writable_array(items);
}

/// An account is read back from the document written for it, and that
/// document can be put into text.
pub proof fn lemma_self_response_round_trip(account: SelfResponseView)
    ensures
        self_response_of(self_response_json(account)) == Some(account),
        self_response_json(account).writable(),
{
    lemma_member_names();
    lemma_rank_type_names(account.rank, Seq::empty());
    let name = optional_text_document(account.name);
    let email = optional_text_document(account.email);
    let image = optional_text_document(account.image);
    let m0 = Map::<Seq<char>, JsonView>::empty();
    let m1 = m0.insert("id"@, JsonView::String(account.id));
    let m2 = m1.insert("name"@, name);
    let m3 = m2.insert("email"@, email);
    let m4 = m3.insert("image"@, image);
    lemma_writable_empty();
    lemma_writable_insert(m0, "id"@, JsonView::String(account.id));
    lemma_writable_insert(m1, "name"@, name);
    lemma_writable_insert(m2, "email"@, email);
    lemma_writable_insert(m3, "image"@, image);
    lemma_writable_insert(m4, "rank"@, JsonView::String(account.rank.wire_name()));
}

/// Every source is found again under its path segment, and under no other
/// text.
pub proof fn lemma_source_segments(source: ListShockerSource, segment: Seq<char>)
    ensures
        ListShockerSource::of_path_segment(source.path_segment()) == Some(source),
        ListShockerSource::of_path_segment(segment) == Some(source) ==> segment
            == source.path_segment(),
{
    reveal_strlit("Own");
    reveal_strlit("Shared");
    assert("Own"@.len() == 3 && "Shared"@.len() == 6);
}

/// The two sources of shockers are asked for under the path segments `Own`
/// and `Shared`, and so under different addresses whatever the client.
pub proof fn lemma_sources_have_distinct_paths(config: ClientConfig, api_key: Option<Seq<char>>)
    ensures
        ListShockerSource::Own.path_segment() == seq!['O', 'w', 'n'],
        ListShockerSource::Shared.path_segment() == seq!['S', 'h', 'a', 'r', 'e', 'd'],
        config.shockers_request(ListShockerSource::Own, api_key).url == config.base_url
            + "/1/shockers/"@ + seq!['O', 'w', 'n'],
        config.shockers_request(ListShockerSource::Shared, api_key).url == config.base_url
            + "/1/shockers/"@ + seq!['S', 'h', 'a', 'r', 'e', 'd'],
        config.shockers_request(ListShockerSource::Own, api_key).url != config.shockers_request(
            ListShockerSource::Shared,
            api_key,
        ).url,
{
    reveal_strlit("Own");
    reveal_strlit("Shared");
    assert("Own"@ =~= seq!['O', 'w', 'n']);
    assert("Shared"@ =~= seq!['S', 'h', 'a', 'r', 'e', 'd']);
    let own = config.shockers_request(ListShockerSource::Own, api_key).url;
    let shared = config.shockers_request(ListShockerSource::Shared, api_key).url;
    assert(own.len() + 3 == shared.len());
}

/// A builder that was given a token and no base URL stands for a client of
/// the public API, at exactly its address.
pub proof fn lemma_build_defaults_to_public_api(builder: BuilderView)
    requires
        builder.base_url is None,
    ensures
        builder.config().base_url == default_base_url(),
        default_base_url().len() == 25,
        default_base_url().last() == 'p',
{
    reveal_strlit("https://api.openshock.app");
}

/// What is sent for a command within bounds holds exactly one instruction,
/// which is exclusive and carries what was asked for, under the name of the
/// application; and just that is read from the document written for it.
pub proof fn lemma_control_batch_is_single_and_exclusive(
    config: ClientConfig,
    id: Seq<char>,
    control_type: ControlType,
    intensity: u8,
    duration: u16,
)
    ensures
        ({
            let batch = config.control_batch(id, control_type, intensity, duration);
            &&& batch.shocks.len() == 1
            &&& batch.shocks[0].exclusive
            &&& batch.shocks[0].id == id
            &&& batch.shocks[0].control_type == control_type
            &&& batch.shocks[0].intensity == intensity
            &&& batch.shocks[0].duration == duration
            &&& batch.custom_name == config.app_name
            &&& control_request_of(control_request_json(batch)) == Some(batch)
            &&& control_request_json(batch).writable()
        }),
{
    lemma_control_request_round_trip(config.control_batch(id, control_type, intensity, duration));
}

} // verus!
