//! The encoding of a surface message for the method channel: a tree of
//! self-describing values in which every field stands under its name, and
//! the reading of such a tree back into a message.

use crate::geometry::{Point, Rectangle, Size};
use crate::messages::{
    PopupMessage, SubsurfaceMessage, SurfaceMessage, SurfaceMessageView, SurfaceRole,
    ToplevelMessage, UiMessage, XdgSurfaceMessage, XdgSurfaceRole,
};
use vstd::prelude::*;
use vstd::string::StringExecFns;

verus! {

/// A self-describing value.
#[derive(Debug, PartialEq, Eq)]
pub enum EncodableValue {
    Null,
    Boolean(bool),
    Integer(i64),
    Unsigned(u64),
    Text(String),
    Array(Vec<EncodableValue>),
    /// Named values, in order.
    Object(Vec<(String, EncodableValue)>),
}

/// The value under `key` at place `at` of an object with `count` entries;
/// nothing for any other value.
pub open spec fn field(value: EncodableValue, count: nat, at: int, key: Seq<char>) -> Option<
    EncodableValue,
> {
    match value {
        EncodableValue::Object(entries) => {
            if entries@.len() == count && 0 <= at < count && entries@[at].0@ == key {
                Some(entries@[at].1)
            } else {
                None
            }
        },
        _ => None,
    }
}

/// The value of the first entry under `key` among the entries of an
/// object.
pub open spec fn first_under(entries: Seq<(String, EncodableValue)>, key: Seq<char>) -> Option<
    EncodableValue,
>
    decreases entries.len(),
{
    if entries.len() == 0 {
        None
    } else if entries[0].0@ == key {
        Some(entries[0].1)
    } else {
        first_under(entries.skip(1), key)
    }
}

/// The value that an object holds under `key`; nothing where the value is
/// no object or has no such entry.
pub open spec fn spec_get_value(map: EncodableValue, key: Seq<char>) -> Option<EncodableValue> {
    match map {
        EncodableValue::Object(entries) => first_under(entries@, key),
        _ => None,
    }
}

/// Looks up the value that an object holds under `key`.
pub fn get_value<'a>(map: &'a EncodableValue, key: &str) -> (found: Option<&'a EncodableValue>)
    ensures
        match found {
            Some(value) => spec_get_value(*map, key@) == Some(*value),
            None => spec_get_value(*map, key@) is None,
        },
{
    match map {
        EncodableValue::Object(entries) => {
            let name = String::from_str(key);
            let mut i: usize = 0;
            proof {
                assert(entries@.skip(0) =~= entries@);
            }
            while i < entries.len()
                invariant
                    i <= entries.len(),
                    name@ == key@,
                    *map == EncodableValue::Object(*entries),
                    first_under(entries@, key@) == first_under(entries@.skip(i as int), key@),
                decreases entries.len() - i,
            {
                proof {
                    assert(entries@.skip(i as int)[0] == entries@[i as int]);
                    assert(entries@.skip(i as int).skip(1) =~= entries@.skip(i + 1));
                }
                if entries[i].0.eq(&name) {
                    return Some(&entries[i].1);
                }
                i = i + 1;
            }
            None
        },
        _ => None,
    }
}

/// A number of 32 bits is an integer in that range.
pub open spec fn decoded_i32(value: EncodableValue) -> Option<i32> {
    match value {
        EncodableValue::Integer(n) => if i32::MIN <= n <= i32::MAX {
            Some(n as i32)
        } else {
            None
        },
        _ => None,
    }
}

/// A signed number is an integer.
pub open spec fn decoded_i64(value: EncodableValue) -> Option<i64> {
    match value {
        EncodableValue::Integer(n) => Some(n),
        _ => None,
    }
}

/// An id is an unsigned number.
pub open spec fn decoded_u64(value: EncodableValue) -> Option<u64> {
    match value {
        EncodableValue::Unsigned(n) => Some(n),
        _ => None,
    }
}

/// An id that may be absent: `Null` stands for absence.
pub open spec fn decoded_optional_u64(value: EncodableValue) -> Option<Option<u64>> {
    match value {
        EncodableValue::Null => Some(None),
        EncodableValue::Unsigned(n) => Some(Some(n)),
        _ => None,
    }
}

/// A text that may be absent: `Null` stands for absence.
pub open spec fn decoded_optional_text(value: EncodableValue) -> Option<Option<String>> {
    match value {
        EncodableValue::Null => Some(None),
        EncodableValue::Text(text) => Some(Some(text)),
        _ => None,
    }
}

/// A point is an object of `x` and `y`.
pub open spec fn decoded_point(value: EncodableValue) -> Option<Point> {
    match (field(value, 2, 0, "x"@), field(value, 2, 1, "y"@)) {
        (Some(a), Some(b)) => match (decoded_i32(a), decoded_i32(b)) {
            (Some(x), Some(y)) => Some(Point { x, y }),
            _ => None,
        },
        _ => None,
    }
}

/// A size is an object of `w` and `h`.
pub open spec fn decoded_size(value: EncodableValue) -> Option<Size> {
    match (field(value, 2, 0, "w"@), field(value, 2, 1, "h"@)) {
        (Some(a), Some(b)) => match (decoded_i32(a), decoded_i32(b)) {
            (Some(w), Some(h)) => Some(Size { w, h }),
            _ => None,
        },
        _ => None,
    }
}

/// A rectangle is an object of `x`, `y`, `width` and `height`.
pub open spec fn decoded_rectangle(value: EncodableValue) -> Option<Rectangle> {
    match (
        field(value, 4, 0, "x"@),
        field(value, 4, 1, "y"@),
        field(value, 4, 2, "width"@),
        field(value, 4, 3, "height"@),
    ) {
        (Some(a), Some(b), Some(c), Some(d)) => match (
            decoded_i32(a),
            decoded_i32(b),
            decoded_i32(c),
            decoded_i32(d),
        ) {
            (Some(x), Some(y), Some(w), Some(h)) => Some(
                Rectangle { loc: Point { x, y }, size: Size { w, h } },
            ),
            _ => None,
        },
        _ => None,
    }
}

/// A point that may be absent: `Null` stands for absence.
pub open spec fn decoded_optional_point(value: EncodableValue) -> Option<Option<Point>> {
    match value {
        EncodableValue::Null => Some(None),
        _ => match decoded_point(value) {
            Some(p) => Some(Some(p)),
            None => None,
        },
    }
}

/// A size that may be absent: `Null` stands for absence.
pub open spec fn decoded_optional_size(value: EncodableValue) -> Option<Option<Size>> {
    match value {
        EncodableValue::Null => Some(None),
        _ => match decoded_size(value) {
            Some(s) => Some(Some(s)),
            None => None,
        },
    }
}

/// A rectangle that may be absent: `Null` stands for absence.
pub open spec fn decoded_optional_rectangle(value: EncodableValue) -> Option<Option<Rectangle>> {
    match value {
        EncodableValue::Null => Some(None),
        _ => match decoded_rectangle(value) {
            Some(r) => Some(Some(r)),
            None => None,
        },
    }
}

/// The details of a toplevel are an object of `parent_surface_id`,
/// `app_id` and `title`.
pub open spec fn decoded_toplevel(value: EncodableValue) -> Option<ToplevelMessage> {
    match (
        field(value, 3, 0, "parent_surface_id"@),
        field(value, 3, 1, "app_id"@),
        field(value, 3, 2, "title"@),
    ) {
        (Some(a), Some(b), Some(c)) => match (
            decoded_optional_u64(a),
            decoded_optional_text(b),
            decoded_optional_text(c),
        ) {
            (Some(parent_surface_id), Some(app_id), Some(title)) => Some(
                ToplevelMessage { parent_surface_id, app_id, title },
            ),
            _ => None,
        },
        _ => None,
    }
}

/// The details of a popup are an object of `parent` and `position`.
pub open spec fn decoded_popup(value: EncodableValue) -> Option<PopupMessage> {
    match (field(value, 2, 0, "parent"@), field(value, 2, 1, "position"@)) {
        (Some(a), Some(b)) => match (decoded_u64(a), decoded_point(b)) {
            (Some(parent), Some(position)) => Some(PopupMessage { parent, position }),
            _ => None,
        },
        _ => None,
    }
}

/// The details of a subsurface are an object of `position` and `parent`.
pub open spec fn decoded_subsurface(value: EncodableValue) -> Option<SubsurfaceMessage> {
    match (field(value, 2, 0, "position"@), field(value, 2, 1, "parent"@)) {
        (Some(a), Some(b)) => match (decoded_point(a), decoded_u64(b)) {
            (Some(position), Some(parent)) => Some(SubsurfaceMessage { position, parent }),
            _ => None,
        },
        _ => None,
    }
}

/// The shell role is absent as `Null`, or an object with the one entry
/// `XdgToplevel` or `XdgPopup` that holds the details.
pub open spec fn decoded_xdg_role(value: EncodableValue) -> Option<Option<XdgSurfaceRole>> {
    match value {
        EncodableValue::Null => Some(None),
        _ => match field(value, 1, 0, "XdgToplevel"@) {
            Some(details) => match decoded_toplevel(details) {
                Some(m) => Some(Some(XdgSurfaceRole::XdgToplevel(m))),
                None => None,
            },
            None => match field(value, 1, 0, "XdgPopup"@) {
                Some(details) => match decoded_popup(details) {
                    Some(m) => Some(Some(XdgSurfaceRole::XdgPopup(m))),
                    None => None,
                },
                None => None,
            },
        },
    }
}

/// The details of a shell surface are an object of `geometry` and `role`.
pub open spec fn decoded_xdg_surface(value: EncodableValue) -> Option<XdgSurfaceMessage> {
    match (field(value, 2, 0, "geometry"@), field(value, 2, 1, "role"@)) {
        (Some(a), Some(b)) => match (decoded_optional_rectangle(a), decoded_xdg_role(b)) {
            (Some(geometry), Some(role)) => Some(XdgSurfaceMessage { geometry, role }),
            _ => None,
        },
        _ => None,
    }
}

/// The role is absent as `Null`, the text `X11Surface`, or an object with
/// the one entry `XdgSurface` or `Subsurface` that holds the details.
pub open spec fn decoded_role(value: EncodableValue) -> Option<Option<SurfaceRole>> {
    match value {
        EncodableValue::Null => Some(None),
        EncodableValue::Text(tag) => if tag@ == "X11Surface"@ {
            Some(Some(SurfaceRole::X11Surface))
        } else {
            None
        },
        _ => match field(value, 1, 0, "XdgSurface"@) {
            Some(details) => match decoded_xdg_surface(details) {
                Some(m) => Some(Some(SurfaceRole::XdgSurface(m))),
                None => None,
            },
            None => match field(value, 1, 0, "Subsurface"@) {
                Some(details) => match decoded_subsurface(details) {
                    Some(m) => Some(Some(SurfaceRole::Subsurface(m))),
                    None => None,
                },
                None => None,
            },
        },
    }
}

/// A list of ids is an array of unsigned numbers.
pub open spec fn decoded_ids(value: EncodableValue) -> Option<Seq<u64>> {
    match value {
        EncodableValue::Array(items) => {
            if forall|i: int| 0 <= i < items@.len() ==> (#[trigger] items@[i]) is Unsigned {
                Some(Seq::new(items@.len(), |i: int| items@[i]->Unsigned_0))
            } else {
                None
            }
        },
        _ => None,
    }
}

/// A surface message is an object of its nine fields, each under its
/// name, in the order of their declaration.
pub open spec fn decoded_surface_message(value: EncodableValue) -> Option<SurfaceMessageView> {
    match (
        field(value, 9, 0, "surface_id"@),
        field(value, 9, 1, "role"@),
        field(value, 9, 2, "texture_id"@),
        field(value, 9, 3, "buffer_delta"@),
        field(value, 9, 4, "buffer_size"@),
        field(value, 9, 5, "scale"@),
        field(value, 9, 6, "input_region"@),
        field(value, 9, 7, "subsurfaces_below"@),
        field(value, 9, 8, "subsurfaces_above"@),
    ) {
        (Some(a), Some(b), Some(c), Some(d), Some(e), Some(f), Some(g), Some(h), Some(i)) => match (
            decoded_u64(a),
            decoded_role(b),
            decoded_i64(c),
            decoded_optional_point(d),
            decoded_optional_size(e),
            decoded_i32(f),
            decoded_rectangle(g),
            decoded_ids(h),
            decoded_ids(i),
        ) {
            (
                Some(surface_id),
                Some(role),
                Some(texture_id),
                Some(buffer_delta),
                Some(buffer_size),
                Some(scale),
                Some(input_region),
                Some(subsurfaces_below),
                Some(subsurfaces_above),
            ) => Some(
                SurfaceMessageView {
                    surface_id,
                    role,
                    texture_id,
                    buffer_delta,
                    buffer_size,
                    scale,
                    input_region,
                    subsurfaces_below,
                    subsurfaces_above,
                },
            ),
            _ => None,
        },
        _ => None,
    }
}

/// The two tags of a role object are different texts.
pub proof fn lemma_role_tags_differ()
    ensures
        "XdgSurface"@ != "Subsurface"@,
        "XdgToplevel"@ != "XdgPopup"@,
{
    reveal_strlit("XdgSurface");
    reveal_strlit("Subsurface");
    reveal_strlit("XdgToplevel");
    reveal_strlit("XdgPopup");
    assert("XdgSurface"@[0] == 'X');
    assert("Subsurface"@[0] == 'S');
    assert("XdgToplevel"@.len() == 11);
    assert("XdgPopup"@.len() == 8);
}

fn named(key: &str, value: EncodableValue) -> (entry: (String, EncodableValue))
    ensures
        entry.0@ == key@,
        entry.1 == value,
{
    (String::from_str(key), value)
}

fn number(n: i32) -> (value: EncodableValue)
    ensures
        value == EncodableValue::Integer(n as i64),
        decoded_i32(value) == Some(n),
{
    EncodableValue::Integer(n as i64)
}

/// Encodes a point.
pub fn encode_point(point: &Point) -> (value: EncodableValue)
    ensures
        decoded_point(value) == Some(*point),
        value !is Null,
{
    let mut entries: Vec<(String, EncodableValue)> = Vec::new();
    entries.push(named("x", number(point.x)));
    entries.push(named("y", number(point.y)));
    EncodableValue::Object(entries)
}

/// Encodes a size.
pub fn encode_size(size: &Size) -> (value: EncodableValue)
    ensures
        decoded_size(value) == Some(*size),
        value !is Null,
{
    let mut entries: Vec<(String, EncodableValue)> = Vec::new();
    entries.push(named("w", number(size.w)));
    entries.push(named("h", number(size.h)));
    EncodableValue::Object(entries)
}

/// Encodes a rectangle.
pub fn encode_rectangle(rectangle: &Rectangle) -> (value: EncodableValue)
    ensures
        decoded_rectangle(value) == Some(*rectangle),
        value !is Null,
{
    let mut entries: Vec<(String, EncodableValue)> = Vec::new();
    entries.push(named("x", number(rectangle.loc.x)));
    entries.push(named("y", number(rectangle.loc.y)));
    entries.push(named("width", number(rectangle.size.w)));
    entries.push(named("height", number(rectangle.size.h)));
    EncodableValue::Object(entries)
}

fn encode_optional_u64(id: &Option<u64>) -> (value: EncodableValue)
    ensures
        decoded_optional_u64(value) == Some(*id),
{
    match id {
        Some(n) => EncodableValue::Unsigned(*n),
        None => EncodableValue::Null,
    }
}

fn encode_optional_text(text: &Option<String>) -> (value: EncodableValue)
    ensures
        decoded_optional_text(value) == Some(*text),
{
    match text {
        Some(t) => EncodableValue::Text(t.clone()),
        None => EncodableValue::Null,
    }
}

fn encode_optional_point(point: &Option<Point>) -> (value: EncodableValue)
    ensures
        decoded_optional_point(value) == Some(*point),
{
    match point {
        Some(p) => encode_point(p),
        None => EncodableValue::Null,
    }
}

fn encode_optional_size(size: &Option<Size>) -> (value: EncodableValue)
    ensures
        decoded_optional_size(value) == Some(*size),
{
    match size {
        Some(s) => encode_size(s),
        None => EncodableValue::Null,
    }
}

fn encode_optional_rectangle(rectangle: &Option<Rectangle>) -> (value: EncodableValue)
    ensures
        decoded_optional_rectangle(value) == Some(*rectangle),
{
    match rectangle {
        Some(r) => encode_rectangle(r),
        None => EncodableValue::Null,
    }
}

/// Encodes the details of a toplevel.
pub fn encode_toplevel(message: &ToplevelMessage) -> (value: EncodableValue)
    ensures
        decoded_toplevel(value) == Some(*message),
{
    let mut entries: Vec<(String, EncodableValue)> = Vec::new();
    entries.push(named("parent_surface_id", encode_optional_u64(&message.parent_surface_id)));
    entries.push(named("app_id", encode_optional_text(&message.app_id)));
    entries.push(named("title", encode_optional_text(&message.title)));
    EncodableValue::Object(entries)
}

/// Encodes the details of a popup.
pub fn encode_popup(message: &PopupMessage) -> (value: EncodableValue)
    ensures
        decoded_popup(value) == Some(*message),
{
    let mut entries: Vec<(String, EncodableValue)> = Vec::new();
    entries.push(named("parent", EncodableValue::Unsigned(message.parent)));
    entries.push(named("position", encode_point(&message.position)));
    EncodableValue::Object(entries)
}

/// Encodes the details of a subsurface.
pub fn encode_subsurface(message: &SubsurfaceMessage) -> (value: EncodableValue)
    ensures
        decoded_subsurface(value) == Some(*message),
{
    let mut entries: Vec<(String, EncodableValue)> = Vec::new();
    entries.push(named("position", encode_point(&message.position)));
    entries.push(named("parent", EncodableValue::Unsigned(message.parent)));
    EncodableValue::Object(entries)
}

fn tagged(tag: &str, details: EncodableValue) -> (value: EncodableValue)
    ensures
        field(value, 1, 0, tag@) == Some(details),
        forall|other: Seq<char>| other != tag@ ==> field(value, 1, 0, other) is None,
        value !is Null,
        value !is Text,
{
    let mut entries: Vec<(String, EncodableValue)> = Vec::new();
    entries.push(named(tag, details));
    EncodableValue::Object(entries)
}

fn encode_xdg_role(role: &Option<XdgSurfaceRole>) -> (value: EncodableValue)
    ensures
        decoded_xdg_role(value) == Some(*role),
{
    proof {
        lemma_role_tags_differ();
    }
    match role {
        None => EncodableValue::Null,
        Some(XdgSurfaceRole::XdgToplevel(message)) => tagged(
            "XdgToplevel",
            encode_toplevel(message),
        ),
        Some(XdgSurfaceRole::XdgPopup(message)) => tagged("XdgPopup", encode_popup(message)),
    }
}

/// Encodes the details of a shell surface.
pub fn encode_xdg_surface(message: &XdgSurfaceMessage) -> (value: EncodableValue)
    ensures
        decoded_xdg_surface(value) == Some(*message),
{
    let mut entries: Vec<(String, EncodableValue)> = Vec::new();
    entries.push(named("geometry", encode_optional_rectangle(&message.geometry)));
    entries.push(named("role", encode_xdg_role(&message.role)));
    EncodableValue::Object(entries)
}

/// Encodes the role of a surface.
pub fn encode_role(role: &Option<SurfaceRole>) -> (value: EncodableValue)
    ensures
        decoded_role(value) == Some(*role),
{
    proof {
        lemma_role_tags_differ();
    }
    match role {
        None => EncodableValue::Null,
        Some(SurfaceRole::X11Surface) => EncodableValue::Text(String::from_str("X11Surface")),
        Some(SurfaceRole::XdgSurface(message)) => tagged(
            "XdgSurface",
            encode_xdg_surface(message),
        ),
        Some(SurfaceRole::Subsurface(message)) => tagged(
            "Subsurface",
            encode_subsurface(message),
        ),
    }
}

/// Encodes a list of ids.
pub fn encode_ids(ids: &Vec<u64>) -> (value: EncodableValue)
    ensures
        decoded_ids(value) == Some(ids@),
{
    let mut items: Vec<EncodableValue> = Vec::new();
    let mut i: usize = 0;
    while i < ids.len()
        invariant
            i <= ids.len(),
            items@.len() == i,
            forall|j: int| 0 <= j < i ==> (#[trigger] items@[j]) == EncodableValue::Unsigned(
                ids@[j],
            ),
        decreases ids.len() - i,
    {
        items.push(EncodableValue::Unsigned(ids[i]));
        i = i + 1;
    }
    proof {
        assert(Seq::new(items@.len(), |i: int| items@[i]->Unsigned_0) =~= ids@);
    }
    EncodableValue::Array(items)
}

/// Encodes a surface message. Reading the value back gives the message
/// again, field for field.
pub fn encode_surface_message(message: &SurfaceMessage) -> (value: EncodableValue)
    ensures
        decoded_surface_message(value) == Some(message@),
{
    let mut entries: Vec<(String, EncodableValue)> = Vec::new();
    entries.push(named("surface_id", EncodableValue::Unsigned(message.surface_id)));
    entries.push(named("role", encode_role(&message.role)));
    entries.push(named("texture_id", EncodableValue::Integer(message.texture_id)));
    entries.push(named("buffer_delta", encode_optional_point(&message.buffer_delta)));
    entries.push(named("buffer_size", encode_optional_size(&message.buffer_size)));
    entries.push(named("scale", number(message.scale)));
    entries.push(named("input_region", encode_rectangle(&message.input_region)));
    entries.push(named("subsurfaces_below", encode_ids(&message.subsurfaces_below)));
    entries.push(named("subsurfaces_above", encode_ids(&message.subsurfaces_above)));
    EncodableValue::Object(entries)
}

fn field_of<'a>(value: &'a EncodableValue, count: usize, at: usize, key: &str) -> (found: Option<
    &'a EncodableValue,
>)
    ensures
        match found {
            Some(inner) => field(*value, count as nat, at as int, key@) == Some(*inner),
            None => field(*value, count as nat, at as int, key@) is None,
        },
{
    match value {
        EncodableValue::Object(entries) => {
            if entries.len() == count && at < count {
                let name = String::from_str(key);
                if entries[at].0.eq(&name) {
                    Some(&entries[at].1)
                } else {
                    None
                }
            } else {
                None
            }
        },
        _ => None,
    }
}

fn decode_i32(value: &EncodableValue) -> (n: Option<i32>)
    ensures
        n == decoded_i32(*value),
{
    match value {
        EncodableValue::Integer(n) => {
            if -2147483648 <= *n && *n <= 2147483647 {
                Some(*n as i32)
            } else {
                None
            }
        },
        _ => None,
    }
}

fn decode_u64(value: &EncodableValue) -> (n: Option<u64>)
    ensures
        n == decoded_u64(*value),
{
    match value {
        EncodableValue::Unsigned(n) => Some(*n),
        _ => None,
    }
}

fn decode_i64(value: &EncodableValue) -> (n: Option<i64>)
    ensures
        n == decoded_i64(*value),
{
    match value {
        EncodableValue::Integer(n) => Some(*n),
        _ => None,
    }
}

fn decode_optional_u64(value: &EncodableValue) -> (n: Option<Option<u64>>)
    ensures
        n == decoded_optional_u64(*value),
{
    match value {
        EncodableValue::Null => Some(None),
        EncodableValue::Unsigned(n) => Some(Some(*n)),
        _ => None,
    }
}

fn decode_optional_text(value: &EncodableValue) -> (text: Option<Option<String>>)
    ensures
        text == decoded_optional_text(*value),
{
    match value {
        EncodableValue::Null => Some(None),
        EncodableValue::Text(text) => Some(Some(text.clone())),
        _ => None,
    }
}

/// Reads a point.
pub fn decode_point(value: &EncodableValue) -> (point: Option<Point>)
    ensures
        point == decoded_point(*value),
{
    let a = match field_of(value, 2, 0, "x") {
        Some(inner) => inner,
        None => return None,
    };
    let b = match field_of(value, 2, 1, "y") {
        Some(inner) => inner,
        None => return None,
    };
    match (decode_i32(a), decode_i32(b)) {
        (Some(x), Some(y)) => Some(Point { x, y }),
        _ => None,
    }
}

/// Reads a size.
pub fn decode_size(value: &EncodableValue) -> (size: Option<Size>)
    ensures
        size == decoded_size(*value),
{
    let a = match field_of(value, 2, 0, "w") {
        Some(inner) => inner,
        None => return None,
    };
    let b = match field_of(value, 2, 1, "h") {
        Some(inner) => inner,
        None => return None,
    };
    match (decode_i32(a), decode_i32(b)) {
        (Some(w), Some(h)) => Some(Size { w, h }),
        _ => None,
    }
}

/// Reads a rectangle.
pub fn decode_rectangle(value: &EncodableValue) -> (rectangle: Option<Rectangle>)
    ensures
        rectangle == decoded_rectangle(*value),
{
    let a = match field_of(value, 4, 0, "x") {
        Some(inner) => inner,
        None => return None,
    };
    let b = match field_of(value, 4, 1, "y") {
        Some(inner) => inner,
        None => return None,
    };
    let c = match field_of(value, 4, 2, "width") {
        Some(inner) => inner,
        None => return None,
    };
    let d = match field_of(value, 4, 3, "height") {
        Some(inner) => inner,
        None => return None,
    };
    match (decode_i32(a), decode_i32(b), decode_i32(c), decode_i32(d)) {
        (Some(x), Some(y), Some(w), Some(h)) => Some(
            Rectangle { loc: Point { x, y }, size: Size { w, h } },
        ),
        _ => None,
    }
}

fn decode_optional_point(value: &EncodableValue) -> (point: Option<Option<Point>>)
    ensures
        point == decoded_optional_point(*value),
{
    match value {
        EncodableValue::Null => Some(None),
        _ => match decode_point(value) {
            Some(p) => Some(Some(p)),
            None => None,
        },
    }
}

fn decode_optional_size(value: &EncodableValue) -> (size: Option<Option<Size>>)
    ensures
        size == decoded_optional_size(*value),
{
    match value {
        EncodableValue::Null => Some(None),
        _ => match decode_size(value) {
            Some(s) => Some(Some(s)),
            None => None,
        },
    }
}

fn decode_optional_rectangle(value: &EncodableValue) -> (rectangle: Option<Option<Rectangle>>)
    ensures
        rectangle == decoded_optional_rectangle(*value),
{
    match value {
        EncodableValue::Null => Some(None),
        _ => match decode_rectangle(value) {
            Some(r) => Some(Some(r)),
            None => None,
        },
    }
}

/// Reads the details of a toplevel.
pub fn decode_toplevel(value: &EncodableValue) -> (message: Option<ToplevelMessage>)
    ensures
        message == decoded_toplevel(*value),
{
    let a = match field_of(value, 3, 0, "parent_surface_id") {
        Some(inner) => inner,
        None => return None,
    };
    let b = match field_of(value, 3, 1, "app_id") {
        Some(inner) => inner,
        None => return None,
    };
    let c = match field_of(value, 3, 2, "title") {
        Some(inner) => inner,
        None => return None,
    };
    match (decode_optional_u64(a), decode_optional_text(b), decode_optional_text(c)) {
        (Some(parent_surface_id), Some(app_id), Some(title)) => Some(
            ToplevelMessage { parent_surface_id, app_id, title },
        ),
        _ => None,
    }
}

/// Reads the details of a popup.
pub fn decode_popup(value: &EncodableValue) -> (message: Option<PopupMessage>)
    ensures
        message == decoded_popup(*value),
{
    let a = match field_of(value, 2, 0, "parent") {
        Some(inner) => inner,
        None => return None,
    };
    let b = match field_of(value, 2, 1, "position") {
        Some(inner) => inner,
        None => return None,
    };
    match (decode_u64(a), decode_point(b)) {
        (Some(parent), Some(position)) => Some(PopupMessage { parent, position }),
        _ => None,
    }
}

/// Reads the details of a subsurface.
pub fn decode_subsurface(value: &EncodableValue) -> (message: Option<SubsurfaceMessage>)
    ensures
        message == decoded_subsurface(*value),
{
    let a = match field_of(value, 2, 0, "position") {
        Some(inner) => inner,
        None => return None,
    };
    let b = match field_of(value, 2, 1, "parent") {
        Some(inner) => inner,
        None => return None,
    };
    match (decode_point(a), decode_u64(b)) {
        (Some(position), Some(parent)) => Some(SubsurfaceMessage { position, parent }),
        _ => None,
    }
}

fn decode_xdg_role(value: &EncodableValue) -> (role: Option<Option<XdgSurfaceRole>>)
    ensures
        role == decoded_xdg_role(*value),
{
    match value {
        EncodableValue::Null => Some(None),
        _ => match field_of(value, 1, 0, "XdgToplevel") {
            Some(details) => match decode_toplevel(details) {
                Some(m) => Some(Some(XdgSurfaceRole::XdgToplevel(m))),
                None => None,
            },
            None => match field_of(value, 1, 0, "XdgPopup") {
                Some(details) => match decode_popup(details) {
                    Some(m) => Some(Some(XdgSurfaceRole::XdgPopup(m))),
                    None => None,
                },
                None => None,
            },
        },
    }
}

/// Reads the details of a shell surface.
pub fn decode_xdg_surface(value: &EncodableValue) -> (message: Option<XdgSurfaceMessage>)
    ensures
        message == decoded_xdg_surface(*value),
{
    let a = match field_of(value, 2, 0, "geometry") {
        Some(inner) => inner,
        None => return None,
    };
    let b = match field_of(value, 2, 1, "role") {
        Some(inner) => inner,
        None => return None,
    };
    match (decode_optional_rectangle(a), decode_xdg_role(b)) {
        (Some(geometry), Some(role)) => Some(XdgSurfaceMessage { geometry, role }),
        _ => None,
    }
}

/// Reads the role of a surface.
pub fn decode_role(value: &EncodableValue) -> (role: Option<Option<SurfaceRole>>)
    ensures
        role == decoded_role(*value),
{
    match value {
        EncodableValue::Null => Some(None),
        EncodableValue::Text(tag) => {
            let expected = String::from_str("X11Surface");
            if tag.eq(&expected) {
                Some(Some(SurfaceRole::X11Surface))
            } else {
                None
            }
        },
        _ => match field_of(value, 1, 0, "XdgSurface") {
            Some(details) => match decode_xdg_surface(details) {
                Some(m) => Some(Some(SurfaceRole::XdgSurface(m))),
                None => None,
            },
            None => match field_of(value, 1, 0, "Subsurface") {
                Some(details) => match decode_subsurface(details) {
                    Some(m) => Some(Some(SurfaceRole::Subsurface(m))),
                    None => None,
                },
                None => None,
            },
        },
    }
}

/// Reads a list of ids.
pub fn decode_ids(value: &EncodableValue) -> (ids: Option<Vec<u64>>)
    ensures
        match ids {
            Some(list) => decoded_ids(*value) == Some(list@),
            None => decoded_ids(*value) is None,
        },
{
    match value {
        EncodableValue::Array(items) => {
            let mut list: Vec<u64> = Vec::new();
            let mut i: usize = 0;
            while i < items.len()
                invariant
                    i <= items.len(),
                    list@.len() == i,
                    *value == EncodableValue::Array(*items),
                    forall|j: int| 0 <= j < i ==> (#[trigger] items@[j]) is Unsigned,
                    forall|j: int| 0 <= j < i ==> list@[j] == items@[j]->Unsigned_0,
                decreases items.len() - i,
            {
                match &items[i] {
                    EncodableValue::Unsigned(n) => {
                        list.push(*n);
                    },
                    _ => {
                        proof {
                            let at = i as int;
                            assert(0 <= at < items@.len());
                            assert(!(items@[at] is Unsigned));
                            assert(!(forall|j: int|
                                0 <= j < items@.len() ==> (#[trigger] items@[j]) is Unsigned));
                        }
                        return None;
                    },
                }
                i = i + 1;
            }
            proof {
                assert(Seq::new(items@.len(), |i: int| items@[i]->Unsigned_0) =~= list@);
            }
            Some(list)
        },
        _ => None,
    }
}

/// Reads a surface message. A value that `encode_surface_message` made
/// gives the message it was made of; a value of any other shape gives
/// nothing.
pub fn decode_surface_message(value: &EncodableValue) -> (message: Option<SurfaceMessage>)
    ensures
        match message {
            Some(m) => decoded_surface_message(*value) == Some(m@),
            None => decoded_surface_message(*value) is None,
        },
{
    let a = match field_of(value, 9, 0, "surface_id") {
        Some(inner) => inner,
        None => return None,
    };
    let b = match field_of(value, 9, 1, "role") {
        Some(inner) => inner,
        None => return None,
    };
    let c = match field_of(value, 9, 2, "texture_id") {
        Some(inner) => inner,
        None => return None,
    };
    let d = match field_of(value, 9, 3, "buffer_delta") {
        Some(inner) => inner,
        None => return None,
    };
    let e = match field_of(value, 9, 4, "buffer_size") {
        Some(inner) => inner,
        None => return None,
    };
    let f = match field_of(value, 9, 5, "scale") {
        Some(inner) => inner,
        None => return None,
    };
    let g = match field_of(value, 9, 6, "input_region") {
        Some(inner) => inner,
        None => return None,
    };
    let h = match field_of(value, 9, 7, "subsurfaces_below") {
        Some(inner) => inner,
        None => return None,
    };
    let i = match field_of(value, 9, 8, "subsurfaces_above") {
        Some(inner) => inner,
        None => return None,
    };
    let surface_id = match decode_u64(a) {
        Some(v) => v,
        None => return None,
    };
    let role = match decode_role(b) {
        Some(v) => v,
        None => return None,
    };
    let texture_id = match decode_i64(c) {
        Some(v) => v,
        None => return None,
    };
    let buffer_delta = match decode_optional_point(d) {
        Some(v) => v,
        None => return None,
    };
    let buffer_size = match decode_optional_size(e) {
        Some(v) => v,
        None => return None,
    };
    let scale = match decode_i32(f) {
        Some(v) => v,
        None => return None,
    };
    let input_region = match decode_rectangle(g) {
        Some(v) => v,
        None => return None,
    };
    let subsurfaces_below = match decode_ids(h) {
        Some(v) => v,
        None => return None,
    };
    let subsurfaces_above = match decode_ids(i) {
        Some(v) => v,
        None => return None,
    };
    Some(
        SurfaceMessage {
            surface_id,
            role,
            texture_id,
            buffer_delta,
            buffer_size,
            scale,
            input_region,
            subsurfaces_below,
            subsurfaces_above,
        },
    )
}

/// Encoding a surface message and reading the value back gives a message
/// whose every field equals that of the first.
pub fn round_trip(message: &SurfaceMessage) -> (read: SurfaceMessage)
    ensures
        read@ == message@,
{
    let value = encode_surface_message(message);
    match decode_surface_message(&value) {
        Some(read) => read,
        None => {
            proof {
                assert(false);
            }
            unreached()
        },
    }
}

/// Whether `value` is the payload of a notification: an object that names
/// the surface under `surfaceId` and, after it, the other arguments of the
/// notification under their names; for a commit, the encoded surface
/// message.
pub open spec fn is_payload_of(value: EncodableValue, message: UiMessage) -> bool {
    match message {
        UiMessage::NewSurface { surface_id }
        | UiMessage::DestroySurface { surface_id }
        | UiMessage::NewToplevel { surface_id }
        | UiMessage::DestroyToplevel { surface_id }
        | UiMessage::DestroyPopup { surface_id }
        | UiMessage::InteractiveMove { surface_id } => {
            field(value, 1, 0, "surfaceId"@) == Some(EncodableValue::Unsigned(surface_id))
        },
        UiMessage::NewSubsurface { surface_id, parent } => {
            &&& field(value, 2, 0, "surfaceId"@) == Some(EncodableValue::Unsigned(surface_id))
            &&& field(value, 2, 1, "parent"@) == Some(EncodableValue::Unsigned(parent))
        },
        UiMessage::CommitSurface(surface_message) => {
            decoded_surface_message(value) == Some(surface_message@)
        },
        UiMessage::AppIdChanged { surface_id, app_id } => {
            &&& field(value, 2, 0, "surfaceId"@) == Some(EncodableValue::Unsigned(surface_id))
            &&& field(value, 2, 1, "appId"@) matches Some(text) && decoded_optional_text(text)
                == Some(app_id)
        },
        UiMessage::TitleChanged { surface_id, title } => {
            &&& field(value, 2, 0, "surfaceId"@) == Some(EncodableValue::Unsigned(surface_id))
            &&& field(value, 2, 1, "title"@) matches Some(text) && decoded_optional_text(text)
                == Some(title)
        },
        UiMessage::NewPopup { surface_id, parent, position } => {
            &&& field(value, 3, 0, "surfaceId"@) == Some(EncodableValue::Unsigned(surface_id))
            &&& field(value, 3, 1, "parent"@) == Some(EncodableValue::Unsigned(parent))
            &&& field(value, 3, 2, "position"@) matches Some(place) && decoded_point(place)
                == Some(position)
        },
        UiMessage::InteractiveResize { surface_id, edge } => {
            &&& field(value, 2, 0, "surfaceId"@) == Some(EncodableValue::Unsigned(surface_id))
            &&& field(value, 2, 1, "edge"@) == Some(EncodableValue::Integer(edge))
        },
    }
}

fn surface_only(surface_id: u64) -> (value: EncodableValue)
    ensures
        field(value, 1, 0, "surfaceId"@) == Some(EncodableValue::Unsigned(surface_id)),
{
    let mut entries: Vec<(String, EncodableValue)> = Vec::new();
    entries.push(named("surfaceId", EncodableValue::Unsigned(surface_id)));
    EncodableValue::Object(entries)
}

fn surface_and(surface_id: u64, name: &str, argument: EncodableValue) -> (value: EncodableValue)
    ensures
        field(value, 2, 0, "surfaceId"@) == Some(EncodableValue::Unsigned(surface_id)),
        field(value, 2, 1, name@) == Some(argument),
{
    let mut entries: Vec<(String, EncodableValue)> = Vec::new();
    entries.push(named("surfaceId", EncodableValue::Unsigned(surface_id)));
    entries.push(named(name, argument));
    EncodableValue::Object(entries)
}

/// Builds the payload of a notification for the method channel.
pub fn encode_payload(message: &UiMessage) -> (value: EncodableValue)
    ensures
        is_payload_of(value, *message),
{
    match message {
        UiMessage::NewSurface { surface_id } => surface_only(*surface_id),
        UiMessage::DestroySurface { surface_id } => surface_only(*surface_id),
        UiMessage::NewToplevel { surface_id } => surface_only(*surface_id),
        UiMessage::DestroyToplevel { surface_id } => surface_only(*surface_id),
        UiMessage::DestroyPopup { surface_id } => surface_only(*surface_id),
        UiMessage::InteractiveMove { surface_id } => surface_only(*surface_id),
        UiMessage::NewSubsurface { surface_id, parent } => surface_and(
            *surface_id,
            "parent",
            EncodableValue::Unsigned(*parent),
        ),
        UiMessage::CommitSurface(surface_message) => encode_surface_message(surface_message),
        UiMessage::AppIdChanged { surface_id, app_id } => surface_and(
            *surface_id,
            "appId",
            encode_optional_text(app_id),
        ),
        UiMessage::TitleChanged { surface_id, title } => surface_and(
            *surface_id,
            "title",
            encode_optional_text(title),
        ),
        UiMessage::NewPopup { surface_id, parent, position } => {
            let mut entries: Vec<(String, EncodableValue)> = Vec::new();
            entries.push(named("surfaceId", EncodableValue::Unsigned(*surface_id)));
            entries.push(named("parent", EncodableValue::Unsigned(*parent)));
            entries.push(named("position", encode_point(position)));
            EncodableValue::Object(entries)
        },
        UiMessage::InteractiveResize { surface_id, edge } => surface_and(
            *surface_id,
            "edge",
            EncodableValue::Integer(*edge),
        ),
    }
}

} // verus!
