//! Image model discovery: the models listed by `GET /images/models` and the
//! provider endpoints listed by
//! `GET /images/models/{author}/{slug}/endpoints`, decoded from JSON. Numbers
//! that may be fractional are kept as the JSON numbers they were sent as.
use vstd::prelude::*;

use crate::decode::{
    default_strings, default_strings_spec, field, keys_view, opt_number, opt_number_spec,
    opt_string, opt_string_spec, opt_strings, opt_strings_spec, req_bool, req_bool_spec,
    req_number, req_number_spec, req_string, req_string_spec, req_strings, req_strings_spec,
    req_u64, req_u64_spec, without_keys, without_keys_spec,
};
use crate::error::OpenRouterError;
use crate::http::opt_strings_view;
use crate::json::{
    json_array_of, json_as_array, json_as_entries, json_data_error, json_entries_of, json_parse,
    json_parse_of, lookup, opt_str_view, JsonMap, json_str_of, json_u64_of, json_is_null_of,
    json_number_of, json_bool_of,
};
use crate::text::strings_view;

verus! {

/// Descriptor for one supported image-generation request parameter.
#[derive(Debug, Clone)]
pub struct ImageCapabilityDescriptor {
    /// The `"type"` field.
    pub capability_type: String,
    pub values: Option<Vec<String>>,
    pub min: Option<serde_json::Number>,
    pub max: Option<serde_json::Number>,
    /// Fields the type does not name.
    pub extra: JsonMap,
}

/// Architecture metadata returned by image model discovery endpoints.
#[derive(Debug, Clone)]
pub struct ImageModelArchitecture {
    pub input_modalities: Vec<String>,
    pub output_modalities: Vec<String>,
    /// Fields the type does not name.
    pub extra: JsonMap,
}

/// Image model metadata returned by `GET /images/models`.
#[derive(Debug, Clone)]
pub struct ImageModel {
    pub id: String,
    pub name: String,
    pub description: String,
    pub created: u64,
    pub architecture: ImageModelArchitecture,
    /// Supported parameters by name, in the object's order.
    pub supported_parameters: Vec<(String, ImageCapabilityDescriptor)>,
    pub supports_streaming: bool,
    pub endpoints: String,
    /// Fields the type does not name.
    pub extra: JsonMap,
}

/// One billable pricing line for an image provider.
#[derive(Debug, Clone)]
pub struct ImagePricingEntry {
    pub billable: String,
    pub unit: String,
    pub cost_usd: serde_json::Number,
    pub variant: Option<String>,
    /// Fields the type does not name.
    pub extra: JsonMap,
}

/// Endpoint metadata for one image generation provider.
#[derive(Debug, Clone)]
pub struct ImageEndpoint {
    pub provider_name: String,
    pub provider_slug: String,
    pub provider_tag: Option<String>,
    /// Supported parameters by name, in the object's order.
    pub supported_parameters: Vec<(String, ImageCapabilityDescriptor)>,
    pub allowed_passthrough_parameters: Vec<String>,
    pub supports_streaming: bool,
    pub pricing: Vec<ImagePricingEntry>,
    /// Fields the type does not name.
    pub extra: JsonMap,
}

/// Response returned by `GET /images/models/{author}/{slug}/endpoints`.
#[derive(Debug, Clone)]
pub struct ImageModelEndpointsResponse {
    pub id: String,
    pub endpoints: Vec<ImageEndpoint>,
    /// Fields the type does not name.
    pub extra: JsonMap,
}

// ---------------------------------------------------------------------------
// Layouts.
// ---------------------------------------------------------------------------

/// Names of the fields of a parameter descriptor.
pub open spec fn descriptor_keys() -> Seq<Seq<char>> {
    seq!["type"@, "values"@, "min"@, "max"@]
}

/// `v` is a JSON object with the layout of a parameter descriptor.
pub open spec fn descriptor_decodes(v: serde_json::Value) -> bool {
    &&& json_entries_of(v) matches Some(e)
    &&& req_string_spec(e, "type"@) is Some
    &&& opt_strings_spec(e, "values"@) is Some
    &&& opt_number_spec(e, "min"@) is Some
    &&& opt_number_spec(e, "max"@) is Some
}

/// `d` is what `v` holds as a parameter descriptor.
pub open spec fn descriptor_from(v: serde_json::Value, d: ImageCapabilityDescriptor) -> bool {
    &&& json_entries_of(v) matches Some(e)
    &&& req_string_spec(e, "type"@) == Some(d.capability_type@)
    &&& opt_strings_spec(e, "values"@) == Some(opt_strings_view(d.values))
    &&& opt_number_spec(e, "min"@) == Some(d.min)
    &&& opt_number_spec(e, "max"@) == Some(d.max)
    &&& d.extra.pairs() == without_keys_spec(e, descriptor_keys())
}

/// Every value of the pairs is a parameter descriptor.
pub open spec fn all_descriptors_decode(e: Seq<(Seq<char>, serde_json::Value)>) -> bool {
    forall|i: int| 0 <= i < e.len() ==> descriptor_decodes(#[trigger] e[i].1)
}

/// `m` holds, in order, each key of the pairs with the descriptor its value
/// holds, and no parameter name twice.
pub open spec fn descriptors_from(e: Seq<(Seq<char>, serde_json::Value)>, m: Seq<(String, ImageCapabilityDescriptor)>) -> bool {
    &&& m.len() == e.len()
    &&& forall|i: int| 0 <= i < e.len() ==> (#[trigger] m[i]).0@ == e[i].0
    &&& forall|i: int| 0 <= i < e.len() ==> descriptor_from(#[trigger] e[i].1, m[i].1)
    &&& forall|i: int, j: int| 0 <= i < j < m.len() ==> (#[trigger] m[i]).0@ != (#[trigger] m[j]).0@
}

/// `v` is a JSON object of parameter descriptors.
pub open spec fn descriptor_map_decodes(v: serde_json::Value) -> bool {
    json_entries_of(v) matches Some(e) && all_descriptors_decode(e)
}

/// `m` is what `v` holds as an object of parameter descriptors.
pub open spec fn descriptor_map_from(v: serde_json::Value, m: Seq<(String, ImageCapabilityDescriptor)>) -> bool {
    json_entries_of(v) matches Some(e) && descriptors_from(e, m)
}

/// Names of the fields of an architecture.
pub open spec fn architecture_keys() -> Seq<Seq<char>> {
    seq!["input_modalities"@, "output_modalities"@]
}

/// `v` is a JSON object with the layout of an architecture.
pub open spec fn architecture_decodes(v: serde_json::Value) -> bool {
    &&& json_entries_of(v) matches Some(e)
    &&& req_strings_spec(e, "input_modalities"@) is Some
    &&& req_strings_spec(e, "output_modalities"@) is Some
}

/// `a` is what `v` holds as an architecture.
pub open spec fn architecture_from(v: serde_json::Value, a: ImageModelArchitecture) -> bool {
    &&& json_entries_of(v) matches Some(e)
    &&& req_strings_spec(e, "input_modalities"@) == Some(strings_view(a.input_modalities@))
    &&& req_strings_spec(e, "output_modalities"@) == Some(strings_view(a.output_modalities@))
    &&& a.extra.pairs() == without_keys_spec(e, architecture_keys())
}

/// Names of the fields of an image model.
pub open spec fn model_keys() -> Seq<Seq<char>> {
    seq![
        "id"@,
        "name"@,
        "description"@,
        "created"@,
        "architecture"@,
        "supported_parameters"@,
        "supports_streaming"@,
        "endpoints"@,
    ]
}

/// `v` is a JSON object with the layout of an image model.
pub open spec fn model_decodes(v: serde_json::Value) -> bool {
    &&& json_entries_of(v) matches Some(e)
    &&& req_string_spec(e, "id"@) is Some
    &&& req_string_spec(e, "name"@) is Some
    &&& req_string_spec(e, "description"@) is Some
    &&& req_u64_spec(e, "created"@) is Some
    &&& lookup(e, "architecture"@) matches Some(a) && architecture_decodes(a)
    &&& lookup(e, "supported_parameters"@) matches Some(p) && descriptor_map_decodes(p)
    &&& req_bool_spec(e, "supports_streaming"@) is Some
    &&& req_string_spec(e, "endpoints"@) is Some
}

/// `m` is what `v` holds as an image model.
pub open spec fn model_from(v: serde_json::Value, m: ImageModel) -> bool {
    &&& json_entries_of(v) matches Some(e)
    &&& req_string_spec(e, "id"@) == Some(m.id@)
    &&& req_string_spec(e, "name"@) == Some(m.name@)
    &&& req_string_spec(e, "description"@) == Some(m.description@)
    &&& req_u64_spec(e, "created"@) == Some(m.created)
    &&& lookup(e, "architecture"@) matches Some(a) && architecture_from(a, m.architecture)
    &&& lookup(e, "supported_parameters"@) matches Some(p) && descriptor_map_from(p, m.supported_parameters@)
    &&& req_bool_spec(e, "supports_streaming"@) == Some(m.supports_streaming)
    &&& req_string_spec(e, "endpoints"@) == Some(m.endpoints@)
    &&& m.extra.pairs() == without_keys_spec(e, model_keys())
}

/// Names of the fields of a pricing line.
pub open spec fn pricing_keys() -> Seq<Seq<char>> {
    seq!["billable"@, "unit"@, "cost_usd"@, "variant"@]
}

/// `v` is a JSON object with the layout of a pricing line.
pub open spec fn pricing_decodes(v: serde_json::Value) -> bool {
    &&& json_entries_of(v) matches Some(e)
    &&& req_string_spec(e, "billable"@) is Some
    &&& req_string_spec(e, "unit"@) is Some
    &&& req_number_spec(e, "cost_usd"@) is Some
    &&& opt_string_spec(e, "variant"@) is Some
}

/// `p` is what `v` holds as a pricing line.
pub open spec fn pricing_from(v: serde_json::Value, p: ImagePricingEntry) -> bool {
    &&& json_entries_of(v) matches Some(e)
    &&& req_string_spec(e, "billable"@) == Some(p.billable@)
    &&& req_string_spec(e, "unit"@) == Some(p.unit@)
    &&& req_number_spec(e, "cost_usd"@) == Some(p.cost_usd)
    &&& opt_string_spec(e, "variant"@) == Some(opt_str_view(p.variant))
    &&& p.extra.pairs() == without_keys_spec(e, pricing_keys())
}

/// Every item is a pricing line.
pub open spec fn all_pricing_decode(items: Seq<serde_json::Value>) -> bool {
    forall|i: int| 0 <= i < items.len() ==> pricing_decodes(#[trigger] items[i])
}

/// `ps` holds, in order, the pricing line of each item.
pub open spec fn pricing_list_from(items: Seq<serde_json::Value>, ps: Seq<ImagePricingEntry>) -> bool {
    &&& ps.len() == items.len()
    &&& forall|i: int| 0 <= i < items.len() ==> pricing_from(#[trigger] items[i], ps[i])
}

/// Names of the fields of an endpoint.
pub open spec fn endpoint_keys() -> Seq<Seq<char>> {
    seq![
        "provider_name"@,
        "provider_slug"@,
        "provider_tag"@,
        "supported_parameters"@,
        "allowed_passthrough_parameters"@,
        "supports_streaming"@,
        "pricing"@,
    ]
}

/// `v` is a JSON object with the layout of an endpoint; the passthrough
/// parameters may be absent.
pub open spec fn endpoint_decodes(v: serde_json::Value) -> bool {
    &&& json_entries_of(v) matches Some(e)
    &&& req_string_spec(e, "provider_name"@) is Some
    &&& req_string_spec(e, "provider_slug"@) is Some
    &&& opt_string_spec(e, "provider_tag"@) is Some
    &&& lookup(e, "supported_parameters"@) matches Some(p) && descriptor_map_decodes(p)
    &&& default_strings_spec(e, "allowed_passthrough_parameters"@) is Some
    &&& req_bool_spec(e, "supports_streaming"@) is Some
    &&& lookup(e, "pricing"@) matches Some(pv) && json_array_of(pv) matches Some(items) && all_pricing_decode(items)
}

/// `x` is what `v` holds as an endpoint.
pub open spec fn endpoint_from(v: serde_json::Value, x: ImageEndpoint) -> bool {
    &&& json_entries_of(v) matches Some(e)
    &&& req_string_spec(e, "provider_name"@) == Some(x.provider_name@)
    &&& req_string_spec(e, "provider_slug"@) == Some(x.provider_slug@)
    &&& opt_string_spec(e, "provider_tag"@) == Some(opt_str_view(x.provider_tag))
    &&& lookup(e, "supported_parameters"@) matches Some(p) && descriptor_map_from(p, x.supported_parameters@)
    &&& default_strings_spec(e, "allowed_passthrough_parameters"@) == Some(strings_view(x.allowed_passthrough_parameters@))
    &&& req_bool_spec(e, "supports_streaming"@) == Some(x.supports_streaming)
    &&& lookup(e, "pricing"@) matches Some(pv) && json_array_of(pv) matches Some(items) && pricing_list_from(items, x.pricing@)
    &&& x.extra.pairs() == without_keys_spec(e, endpoint_keys())
}

/// Every item is an endpoint.
pub open spec fn all_endpoints_decode(items: Seq<serde_json::Value>) -> bool {
    forall|i: int| 0 <= i < items.len() ==> endpoint_decodes(#[trigger] items[i])
}

/// `xs` holds, in order, the endpoint of each item.
pub open spec fn endpoint_list_from(items: Seq<serde_json::Value>, xs: Seq<ImageEndpoint>) -> bool {
    &&& xs.len() == items.len()
    &&& forall|i: int| 0 <= i < items.len() ==> endpoint_from(#[trigger] items[i], xs[i])
}

/// Names of the fields of an endpoints response.
pub open spec fn endpoints_response_keys() -> Seq<Seq<char>> {
    seq!["id"@, "endpoints"@]
}

/// `v` is a JSON object with the layout of an endpoints response.
pub open spec fn endpoints_response_decodes(v: serde_json::Value) -> bool {
    &&& json_entries_of(v) matches Some(e)
    &&& req_string_spec(e, "id"@) is Some
    &&& lookup(e, "endpoints"@) matches Some(ev) && json_array_of(ev) matches Some(items) && all_endpoints_decode(items)
}

/// `r` is what `v` holds as an endpoints response.
pub open spec fn endpoints_response_from(v: serde_json::Value, r: ImageModelEndpointsResponse) -> bool {
    &&& json_entries_of(v) matches Some(e)
    &&& req_string_spec(e, "id"@) == Some(r.id@)
    &&& lookup(e, "endpoints"@) matches Some(ev) && json_array_of(ev) matches Some(items) && endpoint_list_from(items, r.endpoints@)
    &&& r.extra.pairs() == without_keys_spec(e, endpoints_response_keys())
}

/// Every item is an image model.
pub open spec fn all_models_decode(items: Seq<serde_json::Value>) -> bool {
    forall|i: int| 0 <= i < items.len() ==> model_decodes(#[trigger] items[i])
}

/// `ms` holds, in order, the image model of each item.
pub open spec fn model_list_from(items: Seq<serde_json::Value>, ms: Seq<ImageModel>) -> bool {
    &&& ms.len() == items.len()
    &&& forall|i: int| 0 <= i < items.len() ==> model_from(#[trigger] items[i], ms[i])
}

/// `v` is a `{"data": [..]}` object whose data are image models.
pub open spec fn model_list_decodes(v: serde_json::Value) -> bool {
    &&& json_entries_of(v) matches Some(e)
    &&& lookup(e, "data"@) matches Some(d) && json_array_of(d) matches Some(items) && all_models_decode(items)
}

/// `ms` are the image models that `v`'s `"data"` holds.
pub open spec fn model_list_value_from(v: serde_json::Value, ms: Seq<ImageModel>) -> bool {
    &&& json_entries_of(v) matches Some(e)
    &&& lookup(e, "data"@) matches Some(d) && json_array_of(d) matches Some(items) && model_list_from(items, ms)
}

// ---------------------------------------------------------------------------
// Decoders.
// ---------------------------------------------------------------------------

impl ImageCapabilityDescriptor {
    /// Decodes a parameter descriptor from JSON; `None` where the JSON does
    /// not have its layout.
    pub fn from_json_value(v: &serde_json::Value) -> (r: Option<ImageCapabilityDescriptor>)
        ensures
            r is Some <==> descriptor_decodes(*v),
            r matches Some(d) ==> descriptor_from(*v, d),
    {
        let entries = match json_as_entries(v) {
            Some(e) => e,
            None => {
                return None;
            },
        };
        let capability_type = match req_string(&entries, "type") {
            Some(s) => s,
            None => {
                return None;
            },
        };
        let values = match opt_strings(&entries, "values") {
            Some(o) => o,
            None => {
                return None;
            },
        };
        let min = match opt_number(&entries, "min") {
            Some(o) => o,
            None => {
                return None;
            },
        };
        let max = match opt_number(&entries, "max") {
            Some(o) => o,
            None => {
                return None;
            },
        };
        let known: [&str; 4] = ["type", "values", "min", "max"];
        assert(keys_view(known@) =~= descriptor_keys());
        let extra = without_keys(&entries, &known);
        Some(ImageCapabilityDescriptor { capability_type, values, min, max, extra })
    }
}

/// Decodes a JSON object of parameter descriptors, keeping the object's
/// order; `None` where it is no object or a value is no descriptor.
pub fn descriptor_map(v: &serde_json::Value) -> (r: Option<Vec<(String, ImageCapabilityDescriptor)>>)
    ensures
        r is Some <==> descriptor_map_decodes(*v),
        r matches Some(m) ==> descriptor_map_from(*v, m@),
{
    let entries = match json_as_entries(v) {
        Some(e) => e,
        None => {
            return None;
        },
    };
    let ghost e = crate::json::pairs_view(entries@);
    let mut out: Vec<(String, ImageCapabilityDescriptor)> = Vec::new();
    let mut i: usize = 0;
    while i < entries.len()
        invariant
            i <= entries@.len(),
            out@.len() == i,
            e == crate::json::pairs_view(entries@),
            json_entries_of(*v) == Some(e),
            crate::json::keys_distinct(e),
            forall|j: int| 0 <= j < i ==> descriptor_decodes(#[trigger] e[j].1),
            forall|j: int| 0 <= j < i ==> (#[trigger] out@[j]).0@ == e[j].0,
            forall|j: int| 0 <= j < i ==> descriptor_from(#[trigger] e[j].1, out@[j].1),
        decreases entries@.len() - i,
    {
        assert(e[i as int] == (entries@[i as int].0@, entries@[i as int].1));
        match ImageCapabilityDescriptor::from_json_value(&entries[i].1) {
            Some(d) => {
                let key = entries[i].0.clone();
                let ghost before = out@;
                assert(key@ == e[i as int].0);
                assert(descriptor_from(e[i as int].1, d));
                out.push((key, d));
                assert(out@[i as int].1 == d);
                assert(out@[i as int].0@ == e[i as int].0);
                assert forall|j: int| 0 <= j < i + 1 implies (#[trigger] out@[j]).0@ == e[j].0 by {
                    if j < i {
                        assert(out@[j] == before[j]);
                    }
                }
                assert forall|j: int| 0 <= j < i + 1 implies descriptor_from(#[trigger] e[j].1, out@[j].1) by {
                    if j < i {
                        assert(out@[j] == before[j]);
                    }
                }
            },
            None => {
                assert(!descriptor_decodes(e[i as int].1));
                assert(!all_descriptors_decode(e));
                return None;
            },
        }
        i = i + 1;
    }
    assert(all_descriptors_decode(e));
    assert forall|a: int, b: int| 0 <= a < b < out@.len() implies (#[trigger] out@[a]).0@ != (#[trigger] out@[b]).0@ by {
        assert(out@[a].0@ == e[a].0);
        assert(out@[b].0@ == e[b].0);
    }
    assert(descriptors_from(e, out@));
    Some(out)
}

impl ImageModelArchitecture {
    /// Decodes an architecture from JSON; `None` where the JSON does not
    /// have its layout.
    pub fn from_json_value(v: &serde_json::Value) -> (r: Option<ImageModelArchitecture>)
        ensures
            r is Some <==> architecture_decodes(*v),
            r matches Some(a) ==> architecture_from(*v, a),
    {
        let entries = match json_as_entries(v) {
            Some(e) => e,
            None => {
                return None;
            },
        };
        let input_modalities = match req_strings(&entries, "input_modalities") {
            Some(s) => s,
            None => {
                return None;
            },
        };
        let output_modalities = match req_strings(&entries, "output_modalities") {
            Some(s) => s,
            None => {
                return None;
            },
        };
        let known: [&str; 2] = ["input_modalities", "output_modalities"];
        assert(keys_view(known@) =~= architecture_keys());
        let extra = without_keys(&entries, &known);
        Some(ImageModelArchitecture { input_modalities, output_modalities, extra })
    }
}

impl ImageModel {
    /// Decodes an image model from JSON; `None` where the JSON does not have
    /// its layout.
    pub fn from_json_value(v: &serde_json::Value) -> (r: Option<ImageModel>)
        ensures
            r is Some <==> model_decodes(*v),
            r matches Some(m) ==> model_from(*v, m),
    {
        let entries = match json_as_entries(v) {
            Some(e) => e,
            None => {
                return None;
            },
        };
        let id = match req_string(&entries, "id") {
            Some(s) => s,
            None => {
                return None;
            },
        };
        let name = match req_string(&entries, "name") {
            Some(s) => s,
            None => {
                return None;
            },
        };
        let description = match req_string(&entries, "description") {
            Some(s) => s,
            None => {
                return None;
            },
        };
        let created = match req_u64(&entries, "created") {
            Some(n) => n,
            None => {
                return None;
            },
        };
        let architecture = match field(&entries, "architecture") {
            Some(a) => match ImageModelArchitecture::from_json_value(&a) {
                Some(x) => x,
                None => {
                    return None;
                },
            },
            None => {
                return None;
            },
        };
        let supported_parameters = match field(&entries, "supported_parameters") {
            Some(p) => match descriptor_map(&p) {
                Some(m) => m,
                None => {
                    return None;
                },
            },
            None => {
                return None;
            },
        };
        let supports_streaming = match req_bool(&entries, "supports_streaming") {
            Some(b) => b,
            None => {
                return None;
            },
        };
        let endpoints = match req_string(&entries, "endpoints") {
            Some(s) => s,
            None => {
                return None;
            },
        };
        let known: [&str; 8] = [
            "id",
            "name",
            "description",
            "created",
            "architecture",
            "supported_parameters",
            "supports_streaming",
            "endpoints",
        ];
        assert(keys_view(known@) =~= model_keys());
        let extra = without_keys(&entries, &known);
        Some(ImageModel {
            id,
            name,
            description,
            created,
            architecture,
            supported_parameters,
            supports_streaming,
            endpoints,
            extra,
        })
    }
}

impl ImagePricingEntry {
    /// Decodes a pricing line from JSON; `None` where the JSON does not have
    /// its layout.
    pub fn from_json_value(v: &serde_json::Value) -> (r: Option<ImagePricingEntry>)
        ensures
            r is Some <==> pricing_decodes(*v),
            r matches Some(p) ==> pricing_from(*v, p),
    {
        let entries = match json_as_entries(v) {
            Some(e) => e,
            None => {
                return None;
            },
        };
        let billable = match req_string(&entries, "billable") {
            Some(s) => s,
            None => {
                return None;
            },
        };
        let unit = match req_string(&entries, "unit") {
            Some(s) => s,
            None => {
                return None;
            },
        };
        let cost_usd = match req_number(&entries, "cost_usd") {
            Some(n) => n,
            None => {
                return None;
            },
        };
        let variant = match opt_string(&entries, "variant") {
            Some(o) => o,
            None => {
                return None;
            },
        };
        let known: [&str; 4] = ["billable", "unit", "cost_usd", "variant"];
        assert(keys_view(known@) =~= pricing_keys());
        let extra = without_keys(&entries, &known);
        Some(ImagePricingEntry { billable, unit, cost_usd, variant, extra })
    }
}

/// Decodes each item as a pricing line, in order; `None` where one is not.
pub fn pricing_list(items: &Vec<serde_json::Value>) -> (r: Option<Vec<ImagePricingEntry>>)
    ensures
        r is Some <==> all_pricing_decode(items@),
        r matches Some(ps) ==> pricing_list_from(items@, ps@),
{
    let mut out: Vec<ImagePricingEntry> = Vec::new();
    let mut i: usize = 0;
    while i < items.len()
        invariant
            i <= items@.len(),
            out@.len() == i,
            forall|j: int| 0 <= j < i ==> pricing_decodes(#[trigger] items@[j]),
            forall|j: int| 0 <= j < i ==> pricing_from(#[trigger] items@[j], out@[j]),
        decreases items@.len() - i,
    {
        match ImagePricingEntry::from_json_value(&items[i]) {
            Some(p) => {
                out.push(p);
            },
            None => {
                assert(!all_pricing_decode(items@));
                return None;
            },
        }
        i = i + 1;
    }
    Some(out)
}

impl ImageEndpoint {
    /// Decodes an endpoint from JSON; `None` where the JSON does not have
    /// its layout.
    pub fn from_json_value(v: &serde_json::Value) -> (r: Option<ImageEndpoint>)
        ensures
            r is Some <==> endpoint_decodes(*v),
            r matches Some(x) ==> endpoint_from(*v, x),
    {
        let entries = match json_as_entries(v) {
            Some(e) => e,
            None => {
                return None;
            },
        };
        let provider_name = match req_string(&entries, "provider_name") {
            Some(s) => s,
            None => {
                return None;
            },
        };
        let provider_slug = match req_string(&entries, "provider_slug") {
            Some(s) => s,
            None => {
                return None;
            },
        };
        let provider_tag = match opt_string(&entries, "provider_tag") {
            Some(o) => o,
            None => {
                return None;
            },
        };
        let supported_parameters = match field(&entries, "supported_parameters") {
            Some(p) => match descriptor_map(&p) {
                Some(m) => m,
                None => {
                    return None;
                },
            },
            None => {
                return None;
            },
        };
        let allowed_passthrough_parameters = match default_strings(&entries, "allowed_passthrough_parameters") {
            Some(s) => s,
            None => {
                return None;
            },
        };
        let supports_streaming = match req_bool(&entries, "supports_streaming") {
            Some(b) => b,
            None => {
                return None;
            },
        };
        let pricing = match field(&entries, "pricing") {
            Some(pv) => match json_as_array(&pv) {
                Some(items) => match pricing_list(&items) {
                    Some(ps) => ps,
                    None => {
                        return None;
                    },
                },
                None => {
                    return None;
                },
            },
            None => {
                return None;
            },
        };
        let known: [&str; 7] = [
            "provider_name",
            "provider_slug",
            "provider_tag",
            "supported_parameters",
            "allowed_passthrough_parameters",
            "supports_streaming",
            "pricing",
        ];
        assert(keys_view(known@) =~= endpoint_keys());
        let extra = without_keys(&entries, &known);
        Some(ImageEndpoint {
            provider_name,
            provider_slug,
            provider_tag,
            supported_parameters,
            allowed_passthrough_parameters,
            supports_streaming,
            pricing,
            extra,
        })
    }
}

/// Decodes each item as an endpoint, in order; `None` where one is not.
pub fn endpoint_list(items: &Vec<serde_json::Value>) -> (r: Option<Vec<ImageEndpoint>>)
    ensures
        r is Some <==> all_endpoints_decode(items@),
        r matches Some(xs) ==> endpoint_list_from(items@, xs@),
{
    let mut out: Vec<ImageEndpoint> = Vec::new();
    let mut i: usize = 0;
    while i < items.len()
        invariant
            i <= items@.len(),
            out@.len() == i,
            forall|j: int| 0 <= j < i ==> endpoint_decodes(#[trigger] items@[j]),
            forall|j: int| 0 <= j < i ==> endpoint_from(#[trigger] items@[j], out@[j]),
        decreases items@.len() - i,
    {
        match ImageEndpoint::from_json_value(&items[i]) {
            Some(x) => {
                out.push(x);
            },
            None => {
                assert(!all_endpoints_decode(items@));
                return None;
            },
        }
        i = i + 1;
    }
    Some(out)
}

/// Decodes each item as an image model, in order; `None` where one is not.
pub fn model_list(items: &Vec<serde_json::Value>) -> (r: Option<Vec<ImageModel>>)
    ensures
        r is Some <==> all_models_decode(items@),
        r matches Some(ms) ==> model_list_from(items@, ms@),
{
    let mut out: Vec<ImageModel> = Vec::new();
    let mut i: usize = 0;
    while i < items.len()
        invariant
            i <= items@.len(),
            out@.len() == i,
            forall|j: int| 0 <= j < i ==> model_decodes(#[trigger] items@[j]),
            forall|j: int| 0 <= j < i ==> model_from(#[trigger] items@[j], out@[j]),
        decreases items@.len() - i,
    {
        match ImageModel::from_json_value(&items[i]) {
            Some(m) => {
                out.push(m);
            },
            None => {
                assert(!all_models_decode(items@));
                return None;
            },
        }
        i = i + 1;
    }
    Some(out)
}

impl ImageModelEndpointsResponse {
    /// Decodes an endpoints response from JSON; `None` where the JSON does
    /// not have its layout.
    pub fn from_json_value(v: &serde_json::Value) -> (r: Option<ImageModelEndpointsResponse>)
        ensures
            r is Some <==> endpoints_response_decodes(*v),
            r matches Some(x) ==> endpoints_response_from(*v, x),
    {
        let entries = match json_as_entries(v) {
            Some(e) => e,
            None => {
                return None;
            },
        };
        let id = match req_string(&entries, "id") {
            Some(s) => s,
            None => {
                return None;
            },
        };
        let endpoints = match field(&entries, "endpoints") {
            Some(ev) => match json_as_array(&ev) {
                Some(items) => match endpoint_list(&items) {
                    Some(xs) => xs,
                    None => {
                        return None;
                    },
                },
                None => {
                    return None;
                },
            },
            None => {
                return None;
            },
        };
        let known: [&str; 2] = ["id", "endpoints"];
        assert(keys_view(known@) =~= endpoints_response_keys());
        let extra = without_keys(&entries, &known);
        Some(ImageModelEndpointsResponse { id, endpoints, extra })
    }

    /// Decodes an endpoints response from JSON text; a serialization error
    /// where the text is no JSON or lacks the layout.
    pub fn from_json_str(text: &str) -> (r: Result<ImageModelEndpointsResponse, OpenRouterError>)
        ensures
            r is Ok <==> (json_parse_of(text@) matches Some(v) && endpoints_response_decodes(v)),
            r matches Ok(x) ==> json_parse_of(text@) matches Some(v) && endpoints_response_from(v, x),
            r matches Err(e) ==> e matches OpenRouterError::Serialization(_),
    {
        match json_parse(text) {
            Ok(v) => match ImageModelEndpointsResponse::from_json_value(&v) {
                Some(x) => Ok(x),
                None => Err(OpenRouterError::Serialization(json_data_error("invalid image model endpoints response"))),
            },
            Err(e) => Err(OpenRouterError::Serialization(e)),
        }
    }
}

/// Decodes the reply of `GET /images/models`: the image models of its
/// `"data"` array, in order; `None` where the JSON does not have that layout.
pub fn image_models_from_json_value(v: &serde_json::Value) -> (r: Option<Vec<ImageModel>>)
    ensures
        r is Some <==> model_list_decodes(*v),
        r matches Some(ms) ==> model_list_value_from(*v, ms@),
{
    let entries = match json_as_entries(v) {
        Some(e) => e,
        None => {
            return None;
        },
    };
    match field(&entries, "data") {
        Some(d) => match json_as_array(&d) {
            Some(items) => model_list(&items),
            None => None,
        },
        None => None,
    }
}

/// Decodes the reply text of `GET /images/models`; a serialization error
/// where the text is no JSON or lacks the layout.
pub fn image_models_from_json_str(text: &str) -> (r: Result<Vec<ImageModel>, OpenRouterError>)
    ensures
        r is Ok <==> (json_parse_of(text@) matches Some(v) && model_list_decodes(v)),
        r matches Ok(ms) ==> json_parse_of(text@) matches Some(v) && model_list_value_from(v, ms@),
        r matches Err(e) ==> e matches OpenRouterError::Serialization(_),
{
    match json_parse(text) {
        Ok(v) => match image_models_from_json_value(&v) {
            Some(ms) => Ok(ms),
            None => Err(OpenRouterError::Serialization(json_data_error("invalid image models response"))),
        },
        Err(e) => Err(OpenRouterError::Serialization(e)),
    }
}

/// A decoded parameter descriptor holds its JSON object's type, allowed
/// values, minimum and maximum, and every other pair in `extra`.
pub proof fn lemma_descriptor_fields(v: serde_json::Value, d: ImageCapabilityDescriptor)
    requires
        descriptor_from(v, d),
    ensures
        json_entries_of(v) is Some,
        ({
            let e = json_entries_of(v)->0;
            &&& (lookup(e, "type"@) matches Some(j) && json_str_of(j) == Some(d.capability_type@))
            &&& (opt_strings_view(d.values) matches Some(ss) ==> lookup(e, "values"@) matches Some(j) && json_array_of(j) matches Some(items) && items.len() == ss.len() && forall|i: int| 0 <= i < items.len() ==> json_str_of(#[trigger] items[i]) == Some(ss[i]))
            &&& (opt_strings_view(d.values) is None <==> (lookup(e, "values"@) is None || json_is_null_of(lookup(e, "values"@)->0)))
            &&& d.min == (match lookup(e, "min"@) { Some(j) => if json_is_null_of(j) { None::<serde_json::Number> } else { json_number_of(j) }, None => None::<serde_json::Number> })
            &&& d.max == (match lookup(e, "max"@) { Some(j) => if json_is_null_of(j) { None::<serde_json::Number> } else { json_number_of(j) }, None => None::<serde_json::Number> })
            &&& d.extra.pairs() == without_keys_spec(e, seq!["type"@, "values"@, "min"@, "max"@])
        }),
{
}

/// A decoded architecture holds its JSON object's input and output modalities,
/// in order, and every other pair in `extra`.
pub proof fn lemma_architecture_fields(v: serde_json::Value, a: ImageModelArchitecture)
    requires
        architecture_from(v, a),
    ensures
        json_entries_of(v) is Some,
        ({
            let e = json_entries_of(v)->0;
            &&& (lookup(e, "input_modalities"@) matches Some(j) && json_array_of(j) matches Some(items) && items.len() == strings_view(a.input_modalities@).len() && forall|i: int| 0 <= i < items.len() ==> json_str_of(#[trigger] items[i]) == Some(strings_view(a.input_modalities@)[i]))
            &&& (lookup(e, "output_modalities"@) matches Some(j) && json_array_of(j) matches Some(items) && items.len() == strings_view(a.output_modalities@).len() && forall|i: int| 0 <= i < items.len() ==> json_str_of(#[trigger] items[i]) == Some(strings_view(a.output_modalities@)[i]))
            &&& a.extra.pairs() == without_keys_spec(e, seq!["input_modalities"@, "output_modalities"@])
        }),
{
}

/// A decoded image model holds what its JSON object holds: id, name,
/// description, creation time, architecture, each supported parameter in
/// order, the streaming flag under `"supports_streaming"`, the endpoints path,
/// and every other pair in `extra`.
pub proof fn lemma_model_fields(v: serde_json::Value, m: ImageModel)
    requires
        model_from(v, m),
    ensures
        json_entries_of(v) is Some,
        ({
            let e = json_entries_of(v)->0;
            &&& (lookup(e, "id"@) matches Some(j) && json_str_of(j) == Some(m.id@))
            &&& (lookup(e, "name"@) matches Some(j) && json_str_of(j) == Some(m.name@))
            &&& (lookup(e, "description"@) matches Some(j) && json_str_of(j) == Some(m.description@))
            &&& (lookup(e, "created"@) matches Some(j) && json_u64_of(j) == Some(m.created))
            &&& (lookup(e, "architecture"@) matches Some(a) && architecture_from(a, m.architecture))
            &&& (lookup(e, "supported_parameters"@) matches Some(p) && json_entries_of(p) matches Some(pe) && m.supported_parameters@.len() == pe.len() && (forall|i: int| 0 <= i < pe.len() ==> (#[trigger] m.supported_parameters@[i]).0@ == pe[i].0 && descriptor_from(pe[i].1, m.supported_parameters@[i].1)))
            &&& (lookup(e, "supports_streaming"@) matches Some(j) && json_bool_of(j) == Some(m.supports_streaming))
            &&& (lookup(e, "endpoints"@) matches Some(j) && json_str_of(j) == Some(m.endpoints@))
            &&& m.extra.pairs() == without_keys_spec(e, seq!["id"@, "name"@, "description"@, "created"@, "architecture"@, "supported_parameters"@, "supports_streaming"@, "endpoints"@])
        }),
{
}

/// A decoded pricing entry holds its JSON object's billable item, unit, cost
/// and variant, and every other pair in `extra`.
pub proof fn lemma_pricing_fields(v: serde_json::Value, p: ImagePricingEntry)
    requires
        pricing_from(v, p),
    ensures
        json_entries_of(v) is Some,
        ({
            let e = json_entries_of(v)->0;
            &&& (lookup(e, "billable"@) matches Some(j) && json_str_of(j) == Some(p.billable@))
            &&& (lookup(e, "unit"@) matches Some(j) && json_str_of(j) == Some(p.unit@))
            &&& (lookup(e, "cost_usd"@) matches Some(j) && json_number_of(j) == Some(p.cost_usd))
            &&& opt_str_view(p.variant) == (match lookup(e, "variant"@) { Some(j) => if json_is_null_of(j) { None::<Seq<char>> } else { json_str_of(j) }, None => None::<Seq<char>> })
            &&& p.extra.pairs() == without_keys_spec(e, seq!["billable"@, "unit"@, "cost_usd"@, "variant"@])
        }),
{
}

/// A decoded endpoint holds what its JSON object holds: the provider's name
/// under `"provider_name"`, its slug under `"provider_slug"`, its tag, each
/// supported parameter in order, the passthrough parameters (none where
/// absent), the streaming flag, each pricing entry in order, and every other
/// pair in `extra`.
pub proof fn lemma_endpoint_fields(v: serde_json::Value, x: ImageEndpoint)
    requires
        endpoint_from(v, x),
    ensures
        json_entries_of(v) is Some,
        ({
            let e = json_entries_of(v)->0;
            &&& (lookup(e, "provider_name"@) matches Some(j) && json_str_of(j) == Some(x.provider_name@))
            &&& (lookup(e, "provider_slug"@) matches Some(j) && json_str_of(j) == Some(x.provider_slug@))
            &&& opt_str_view(x.provider_tag) == (match lookup(e, "provider_tag"@) { Some(j) => if json_is_null_of(j) { None::<Seq<char>> } else { json_str_of(j) }, None => None::<Seq<char>> })
            &&& (lookup(e, "supported_parameters"@) matches Some(p) && json_entries_of(p) matches Some(pe) && x.supported_parameters@.len() == pe.len() && (forall|i: int| 0 <= i < pe.len() ==> (#[trigger] x.supported_parameters@[i]).0@ == pe[i].0 && descriptor_from(pe[i].1, x.supported_parameters@[i].1)))
            &&& (match lookup(e, "allowed_passthrough_parameters"@) { Some(j) => json_array_of(j) matches Some(items) && items.len() == strings_view(x.allowed_passthrough_parameters@).len() && forall|i: int| 0 <= i < items.len() ==> json_str_of(#[trigger] items[i]) == Some(strings_view(x.allowed_passthrough_parameters@)[i]), None => strings_view(x.allowed_passthrough_parameters@).len() == 0 })
            &&& (lookup(e, "supports_streaming"@) matches Some(j) && json_bool_of(j) == Some(x.supports_streaming))
            &&& (lookup(e, "pricing"@) matches Some(pv) && json_array_of(pv) matches Some(items) && items.len() == x.pricing@.len() && forall|i: int| 0 <= i < items.len() ==> pricing_from(#[trigger] items[i], x.pricing@[i]))
            &&& x.extra.pairs() == without_keys_spec(e, seq!["provider_name"@, "provider_slug"@, "provider_tag"@, "supported_parameters"@, "allowed_passthrough_parameters"@, "supports_streaming"@, "pricing"@])
        }),
{
}

/// A decoded endpoints reply holds its JSON object's model id, one endpoint per
/// item of `"endpoints"`, in order, and every other pair in `extra`.
pub proof fn lemma_endpoints_response_fields(v: serde_json::Value, r: ImageModelEndpointsResponse)
    requires
        endpoints_response_from(v, r),
    ensures
        json_entries_of(v) is Some,
        ({
            let e = json_entries_of(v)->0;
            &&& (lookup(e, "id"@) matches Some(j) && json_str_of(j) == Some(r.id@))
            &&& (lookup(e, "endpoints"@) matches Some(ev) && json_array_of(ev) matches Some(items) && items.len() == r.endpoints@.len() && forall|i: int| 0 <= i < items.len() ==> endpoint_from(#[trigger] items[i], r.endpoints@[i]))
            &&& r.extra.pairs() == without_keys_spec(e, seq!["id"@, "endpoints"@])
        }),
{
}

/// A decoded model list holds one model per item of the JSON object's
/// `"data"` array, in order.
pub proof fn lemma_model_list_fields(v: serde_json::Value, ms: Seq<ImageModel>)
    requires
        model_list_value_from(v, ms),
    ensures
        json_entries_of(v) is Some,
        ({
            let e = json_entries_of(v)->0;
            &&& (lookup(e, "data"@) matches Some(d) && json_array_of(d) matches Some(items) && items.len() == ms.len() && forall|i: int| 0 <= i < items.len() ==> model_from(#[trigger] items[i], ms[i]))
        }),
{
}


/// JSON decodes as a parameter descriptor exactly where it is an object with a
/// type, and allowed values, minimum and maximum that are absent, `null` or of
/// their types.
pub proof fn lemma_descriptor_decodes(v: serde_json::Value)
    ensures
        descriptor_decodes(v) <==> (json_entries_of(v) is Some && {
            let e = json_entries_of(v)->0;
            &&& (lookup(e, "type"@) matches Some(j) && json_str_of(j) is Some)
            &&& (lookup(e, "values"@) matches Some(j) ==> (json_is_null_of(j) || (json_array_of(j) matches Some(items) && forall|i: int| 0 <= i < items.len() ==> (#[trigger] json_str_of(items[i])) is Some)))
            &&& (lookup(e, "min"@) matches Some(j) ==> (json_is_null_of(j) || json_number_of(j) is Some))
            &&& (lookup(e, "max"@) matches Some(j) ==> (json_is_null_of(j) || json_number_of(j) is Some))
        }),
{
}

/// JSON decodes as an architecture exactly where it is an object with input
/// and output modalities as arrays of strings.
pub proof fn lemma_architecture_decodes(v: serde_json::Value)
    ensures
        architecture_decodes(v) <==> (json_entries_of(v) is Some && {
            let e = json_entries_of(v)->0;
            &&& (lookup(e, "input_modalities"@) matches Some(j) && json_array_of(j) matches Some(items) && forall|i: int| 0 <= i < items.len() ==> (#[trigger] json_str_of(items[i])) is Some)
            &&& (lookup(e, "output_modalities"@) matches Some(j) && json_array_of(j) matches Some(items) && forall|i: int| 0 <= i < items.len() ==> (#[trigger] json_str_of(items[i])) is Some)
        }),
{
}

/// JSON decodes as an image model exactly where it is an object with id, name,
/// description, creation time, an architecture, an object of parameter
/// descriptors, a streaming flag and an endpoints path.
pub proof fn lemma_model_decodes(v: serde_json::Value)
    ensures
        model_decodes(v) <==> (json_entries_of(v) is Some && {
            let e = json_entries_of(v)->0;
            &&& (lookup(e, "id"@) matches Some(j) && json_str_of(j) is Some)
            &&& (lookup(e, "name"@) matches Some(j) && json_str_of(j) is Some)
            &&& (lookup(e, "description"@) matches Some(j) && json_str_of(j) is Some)
            &&& (lookup(e, "created"@) matches Some(j) && json_u64_of(j) is Some)
            &&& (lookup(e, "architecture"@) matches Some(a) && architecture_decodes(a))
            &&& (lookup(e, "supported_parameters"@) matches Some(p) && json_entries_of(p) matches Some(pe) && forall|i: int| 0 <= i < pe.len() ==> descriptor_decodes(#[trigger] pe[i].1))
            &&& (lookup(e, "supports_streaming"@) matches Some(j) && json_bool_of(j) is Some)
            &&& (lookup(e, "endpoints"@) matches Some(j) && json_str_of(j) is Some)
        }),
{
}

/// JSON decodes as a pricing entry exactly where it is an object with a
/// billable item, a unit, a cost, and a variant that is absent, `null` or a
/// string.
pub proof fn lemma_pricing_decodes(v: serde_json::Value)
    ensures
        pricing_decodes(v) <==> (json_entries_of(v) is Some && {
            let e = json_entries_of(v)->0;
            &&& (lookup(e, "billable"@) matches Some(j) && json_str_of(j) is Some)
            &&& (lookup(e, "unit"@) matches Some(j) && json_str_of(j) is Some)
            &&& (lookup(e, "cost_usd"@) matches Some(j) && json_number_of(j) is Some)
            &&& (lookup(e, "variant"@) matches Some(j) ==> (json_is_null_of(j) || json_str_of(j) is Some))
        }),
{
}

/// JSON decodes as an endpoint exactly where it is an object with provider
/// name and slug, a tag that is absent, `null` or a string, an object of
/// parameter descriptors, passthrough parameters that are absent or an array of
/// strings, a streaming flag, and an array of pricing entries.
pub proof fn lemma_endpoint_decodes(v: serde_json::Value)
    ensures
        endpoint_decodes(v) <==> (json_entries_of(v) is Some && {
            let e = json_entries_of(v)->0;
            &&& (lookup(e, "provider_name"@) matches Some(j) && json_str_of(j) is Some)
            &&& (lookup(e, "provider_slug"@) matches Some(j) && json_str_of(j) is Some)
            &&& (lookup(e, "provider_tag"@) matches Some(j) ==> (json_is_null_of(j) || json_str_of(j) is Some))
            &&& (lookup(e, "supported_parameters"@) matches Some(p) && json_entries_of(p) matches Some(pe) && forall|i: int| 0 <= i < pe.len() ==> descriptor_decodes(#[trigger] pe[i].1))
            &&& (lookup(e, "allowed_passthrough_parameters"@) matches Some(j) ==> (json_array_of(j) matches Some(items) && forall|i: int| 0 <= i < items.len() ==> (#[trigger] json_str_of(items[i])) is Some))
            &&& (lookup(e, "supports_streaming"@) matches Some(j) && json_bool_of(j) is Some)
            &&& (lookup(e, "pricing"@) matches Some(pv) && json_array_of(pv) matches Some(items) && forall|i: int| 0 <= i < items.len() ==> pricing_decodes(#[trigger] items[i]))
        }),
{
}

/// JSON decodes as an endpoints reply exactly where it is an object with a
/// model id and an array of endpoints.
pub proof fn lemma_endpoints_response_decodes(v: serde_json::Value)
    ensures
        endpoints_response_decodes(v) <==> (json_entries_of(v) is Some && {
            let e = json_entries_of(v)->0;
            &&& (lookup(e, "id"@) matches Some(j) && json_str_of(j) is Some)
            &&& (lookup(e, "endpoints"@) matches Some(ev) && json_array_of(ev) matches Some(items) && forall|i: int| 0 <= i < items.len() ==> endpoint_decodes(#[trigger] items[i]))
        }),
{
}

/// JSON decodes as a model list exactly where it is an object whose `"data"`
/// is an array of image models.
pub proof fn lemma_model_list_decodes(v: serde_json::Value)
    ensures
        model_list_decodes(v) <==> (json_entries_of(v) is Some && {
            let e = json_entries_of(v)->0;
            &&& (lookup(e, "data"@) matches Some(d) && json_array_of(d) matches Some(items) && forall|i: int| 0 <= i < items.len() ==> model_decodes(#[trigger] items[i]))
        }),
{
}

} // verus!
