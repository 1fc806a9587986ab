//! The JSON form in which captured descriptors appear in report tables: the members of
//! each descriptor are laid out here, and `serde_json` pretty-prints them.
use crate::model::{FirmwareSection, FvHob, MemAllocDescriptor, ResourceDescriptor};
use crate::text::{hex_prefixed, push_hex_prefixed};
use vstd::prelude::*;

verus! {

/// A member value: text, a number, or an object whose members are numbers.
pub enum JsonValue {
    Text(String),
    Number(u64),
    NumberObject(Vec<(String, u64)>),
}

/// A member of a JSON object: its key and its value.
pub struct JsonMember {
    pub key: String,
    pub value: JsonValue,
}

/// The plain value of a member value.
pub enum JsonValueView {
    Text(Seq<char>),
    Number(u64),
    NumberObject(Seq<(Seq<char>, u64)>),
}

impl View for JsonValue {
    type V = JsonValueView;

    open spec fn view(&self) -> JsonValueView {
        match self {
            JsonValue::Text(s) => JsonValueView::Text(s@),
            JsonValue::Number(n) => JsonValueView::Number(*n),
            JsonValue::NumberObject(v) => JsonValueView::NumberObject(
                v@.map_values(|m: (String, u64)| (m.0@, m.1)),
            ),
        }
    }
}

impl View for JsonMember {
    type V = (Seq<char>, JsonValueView);

    open spec fn view(&self) -> (Seq<char>, JsonValueView) {
        (self.key@, self.value@)
    }
}

/// The text that `serde_json::to_string_pretty` makes of a `serde_json::Value` object with
/// the given members in the given order (`None` where it reports an error).
pub uninterp spec fn spec_json_pretty_object(members: Seq<(Seq<char>, JsonValueView)>) -> Option<
    Seq<char>,
>;

/// Builds a `serde_json::Value` object from the members (texts, numbers, or objects of
/// numbers, one for one and in order) and calls `serde_json::to_string_pretty` on it. The
/// contract claims that the outcome is the one that the name `spec_json_pretty_object`
/// gives for the members, and that a text made of an object starts with `{`; the rest of
/// the layout is left to serde_json.
#[verifier::external_body]
fn json_pretty_object(members: &Vec<JsonMember>) -> (r: Option<String>)
    ensures
        match r {
            Some(s) => spec_json_pretty_object(members@.map_values(|m: JsonMember| m@)) == Some(s@),
            None => spec_json_pretty_object(members@.map_values(|m: JsonMember| m@)) is None,
        },
        r matches Some(t) ==> t@.len() > 0 && t@[0] == '{',
{
    let mut object = serde_json::Map::new();
    for member in members.iter() {
        let value = match &member.value {
            JsonValue::Text(text) => serde_json::Value::from(text.as_str()),
            JsonValue::Number(number) => serde_json::Value::from(*number),
            JsonValue::NumberObject(inner) => serde_json::Value::Object(
                inner.iter().map(|(k, n)| (k.clone(), serde_json::Value::from(*n))).collect(),
            ),
        };
        object.insert(member.key.clone(), value);
    }
    serde_json::to_string_pretty(&serde_json::Value::Object(object)).ok()
}

/// The pretty JSON text of an object, or `fallback` where it cannot be made.
pub open spec fn json_or(members: Seq<(Seq<char>, JsonValueView)>, fallback: Seq<char>) -> Seq<char> {
    match spec_json_pretty_object(members) {
        Some(s) => s,
        None => fallback,
    }
}

/// Members of a resource descriptor: owner, type, then attribute, start and length as
/// `0x`-prefixed hex text.
pub open spec fn resource_members(d: ResourceDescriptor) -> Seq<(Seq<char>, JsonValueView)> {
    seq![
        ("owner"@, JsonValueView::Text(d.owner@)),
        ("resource_type"@, JsonValueView::Number(d.resource_type as u64)),
        ("resource_attribute"@, JsonValueView::Text(hex_prefixed(d.resource_attribute as nat))),
        ("physical_start"@, JsonValueView::Text(hex_prefixed(d.physical_start as nat))),
        ("resource_length"@, JsonValueView::Text(hex_prefixed(d.resource_length as nat))),
    ]
}

/// Members of a memory allocation descriptor: name, base address as hex text, length and
/// memory type.
pub open spec fn allocation_members(d: MemAllocDescriptor) -> Seq<(Seq<char>, JsonValueView)> {
    seq![
        ("name"@, JsonValueView::Text(d.name@)),
        ("memory_base_address"@, JsonValueView::Text(hex_prefixed(d.memory_base_address as nat))),
        ("memory_length"@, JsonValueView::Number(d.memory_length)),
        ("memory_type"@, JsonValueView::Number(d.memory_type as u64)),
    ]
}

/// Members of a firmware volume HOB: base address as hex text, and length.
pub open spec fn fv_hob_members(d: FvHob) -> Seq<(Seq<char>, JsonValueView)> {
    seq![
        ("base_address"@, JsonValueView::Text(hex_prefixed(d.base_address as nat))),
        ("length"@, JsonValueView::Number(d.length)),
    ]
}

/// Members of a firmware section: type, length as hex text, compression, and the PE
/// header fields where there are any.
pub open spec fn section_members(d: FirmwareSection) -> Seq<(Seq<char>, JsonValueView)> {
    seq![
        ("section_type"@, JsonValueView::Text(d.section_type@)),
        ("length"@, JsonValueView::Text(hex_prefixed(d.length as nat))),
        ("compression_type"@, JsonValueView::Text(d.compression_type@)),
    ] + match d.pe_info {
        Some(pe) => seq![
            (
                "pe_info"@,
                JsonValueView::NumberObject(
                    seq![
                        ("section_alignment"@, pe.section_alignment as u64),
                        ("machine"@, pe.machine as u64),
                        ("subsystem"@, pe.subsystem as u64),
                    ],
                ),
            ),
        ],
        None => seq![],
    }
}

fn text_member(key: &str, text: String) -> (r: JsonMember)
    ensures
        r@ == (key@, JsonValueView::Text(text@)),
{
    JsonMember { key: String::from_str(key), value: JsonValue::Text(text) }
}

fn hex_member(key: &str, n: u64) -> (r: JsonMember)
    ensures
        r@ == (key@, JsonValueView::Text(hex_prefixed(n as nat))),
{
    let mut text = String::new();
    push_hex_prefixed(&mut text, n);
    assert(text@ =~= hex_prefixed(n as nat));
    JsonMember { key: String::from_str(key), value: JsonValue::Text(text) }
}

fn number_member(key: &str, n: u64) -> (r: JsonMember)
    ensures
        r@ == (key@, JsonValueView::Number(n)),
{
    JsonMember { key: String::from_str(key), value: JsonValue::Number(n) }
}

fn render(members: Vec<JsonMember>, fallback: &str, ghost_members: Ghost<Seq<(Seq<char>, JsonValueView)>>) -> (r: String)
    requires
        members@.map_values(|m: JsonMember| m@) == ghost_members@,
    ensures
        r@ == json_or(ghost_members@, fallback@),
        fallback@.len() > 0 ==> r@.len() > 0,
{
    match json_pretty_object(&members) {
        Some(s) => s,
        None => String::from_str(fallback),
    }
}

/// The pretty JSON text of a resource descriptor, or `fallback`.
pub fn resource_json(d: &ResourceDescriptor, fallback: &str) -> (r: String)
    ensures
        r@ == json_or(resource_members(*d), fallback@),
        fallback@.len() > 0 ==> r@.len() > 0,
{
    let members = vec![
        text_member("owner", d.owner.clone()),
        number_member("resource_type", d.resource_type as u64),
        hex_member("resource_attribute", d.resource_attribute as u64),
        hex_member("physical_start", d.physical_start),
        hex_member("resource_length", d.resource_length),
    ];
    assert(members@.map_values(|m: JsonMember| m@) =~= resource_members(*d));
    render(members, fallback, Ghost(resource_members(*d)))
}

/// The pretty JSON text of a memory allocation descriptor, or `fallback`.
pub fn allocation_json(d: &MemAllocDescriptor, fallback: &str) -> (r: String)
    ensures
        r@ == json_or(allocation_members(*d), fallback@),
        fallback@.len() > 0 ==> r@.len() > 0,
{
    let members = vec![
        text_member("name", d.name.clone()),
        hex_member("memory_base_address", d.memory_base_address),
        number_member("memory_length", d.memory_length),
        number_member("memory_type", d.memory_type as u64),
    ];
    assert(members@.map_values(|m: JsonMember| m@) =~= allocation_members(*d));
    render(members, fallback, Ghost(allocation_members(*d)))
}

/// The pretty JSON text of a firmware volume HOB, or `fallback`.
pub fn fv_hob_json(d: &FvHob, fallback: &str) -> (r: String)
    ensures
        r@ == json_or(fv_hob_members(*d), fallback@),
        fallback@.len() > 0 ==> r@.len() > 0,
{
    let members = vec![hex_member("base_address", d.base_address), number_member("length", d.length)];
    assert(members@.map_values(|m: JsonMember| m@) =~= fv_hob_members(*d));
    render(members, fallback, Ghost(fv_hob_members(*d)))
}

/// The pretty JSON text of a firmware section, or `fallback`.
pub fn section_json(d: &FirmwareSection, fallback: &str) -> (r: String)
    ensures
        r@ == json_or(section_members(*d), fallback@),
        fallback@.len() > 0 ==> r@.len() > 0,
{
    let mut members = vec![
        text_member("section_type", d.section_type.clone()),
        hex_member("length", d.length as u64),
        text_member("compression_type", d.compression_type.clone()),
    ];
    if let Some(pe) = &d.pe_info {
        let inner = vec![
            (String::from_str("section_alignment"), pe.section_alignment as u64),
            (String::from_str("machine"), pe.machine as u64),
            (String::from_str("subsystem"), pe.subsystem as u64),
        ];
        assert(inner@.map_values(|m: (String, u64)| (m.0@, m.1)) =~= seq![
            ("section_alignment"@, pe.section_alignment as u64),
            ("machine"@, pe.machine as u64),
            ("subsystem"@, pe.subsystem as u64),
        ]);
        members.push(JsonMember { key: String::from_str("pe_info"), value: JsonValue::NumberObject(inner) });
    }
    assert(members@.map_values(|m: JsonMember| m@) =~= section_members(*d));
    render(members, fallback, Ghost(section_members(*d)))
}

} // verus!
