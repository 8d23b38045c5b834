use embedder::codec::{
    decode_ids, decode_point, decode_popup, decode_rectangle, decode_role, decode_size,
    decode_subsurface, decode_surface_message, decode_toplevel, decode_xdg_surface, encode_ids,
    encode_payload, encode_point, encode_popup, encode_rectangle, encode_role, encode_size,
    encode_subsurface, encode_surface_message, encode_toplevel, encode_xdg_surface, get_value,
    EncodableValue,
};
use embedder::geometry::{Point, Rectangle, Size};
use embedder::messages::{
    PopupMessage, SubsurfaceMessage, SurfaceMessage, SurfaceRole, ToplevelMessage, UiMessage,
    XdgSurfaceMessage,
};

fn object(entries: Vec<(&str, EncodableValue)>) -> EncodableValue {
    EncodableValue::Object(entries.into_iter().map(|(k, v)| (k.to_string(), v)).collect())
}

fn signed(n: i64) -> EncodableValue {
    EncodableValue::Integer(n)
}

fn unsigned(n: u64) -> EncodableValue {
    EncodableValue::Unsigned(n)
}

fn text(s: &str) -> EncodableValue {
    EncodableValue::Text(s.to_string())
}

#[test]
fn point_size_and_rectangle_shapes() {
    let point = Point { x: -3, y: 9 };
    assert_eq!(encode_point(&point), object(vec![("x", signed(-3)), ("y", signed(9))]));
    assert_eq!(decode_point(&encode_point(&point)), Some(point));

    let size = Size { w: 200, h: 100 };
    assert_eq!(encode_size(&size), object(vec![("w", signed(200)), ("h", signed(100))]));
    assert_eq!(decode_size(&encode_size(&size)), Some(size));

    let rectangle = Rectangle { loc: Point { x: 1, y: 2 }, size: Size { w: 3, h: 4 } };
    assert_eq!(
        encode_rectangle(&rectangle),
        object(vec![("x", signed(1)), ("y", signed(2)), ("width", signed(3)), ("height", signed(4))])
    );
    assert_eq!(decode_rectangle(&encode_rectangle(&rectangle)), Some(rectangle));
}

#[test]
fn role_shapes() {
    let toplevel = ToplevelMessage {
        parent_surface_id: None,
        app_id: Some("foo".to_string()),
        title: Some("bar".to_string()),
    };
    assert_eq!(
        encode_toplevel(&toplevel),
        object(vec![
            ("parent_surface_id", EncodableValue::Null),
            ("app_id", text("foo")),
            ("title", text("bar")),
        ])
    );
    assert_eq!(decode_toplevel(&encode_toplevel(&toplevel)), Some(toplevel));

    let popup = PopupMessage { parent: 1, position: Point { x: 10, y: 20 } };
    assert_eq!(
        encode_popup(&popup),
        object(vec![
            ("parent", unsigned(1)),
            ("position", object(vec![("x", signed(10)), ("y", signed(20))])),
        ])
    );
    assert_eq!(decode_popup(&encode_popup(&popup)), Some(popup));

    let subsurface = SubsurfaceMessage { position: Point { x: 1, y: 2 }, parent: 5 };
    assert_eq!(
        encode_subsurface(&subsurface),
        object(vec![
            ("position", object(vec![("x", signed(1)), ("y", signed(2))])),
            ("parent", unsigned(5)),
        ])
    );
    assert_eq!(decode_subsurface(&encode_subsurface(&subsurface)), Some(subsurface));

    assert_eq!(encode_role(&None), EncodableValue::Null);
    assert_eq!(encode_role(&Some(SurfaceRole::X11Surface)), text("X11Surface"));
    assert_eq!(
        encode_role(&Some(SurfaceRole::Subsurface(subsurface))),
        object(vec![("Subsurface", encode_subsurface(&subsurface))])
    );
    let bare = XdgSurfaceMessage { geometry: None, role: None };
    assert_eq!(
        encode_xdg_surface(&bare),
        object(vec![("geometry", EncodableValue::Null), ("role", EncodableValue::Null)])
    );
    assert_eq!(decode_xdg_surface(&encode_xdg_surface(&bare)), Some(bare.clone()));
    assert_eq!(
        decode_role(&encode_role(&Some(SurfaceRole::XdgSurface(bare.clone())))),
        Some(Some(SurfaceRole::XdgSurface(bare)))
    );
    assert_eq!(decode_role(&EncodableValue::Null), Some(None));
}

#[test]
fn ids_are_an_array() {
    assert_eq!(encode_ids(&vec![]), EncodableValue::Array(vec![]));
    assert_eq!(encode_ids(&vec![3, 1]), EncodableValue::Array(vec![unsigned(3), unsigned(1)]));
    assert_eq!(decode_ids(&encode_ids(&vec![3, 1])), Some(vec![3, 1]));
    assert_eq!(decode_ids(&EncodableValue::Array(vec![unsigned(3), signed(1)])), None);
    assert_eq!(decode_ids(&EncodableValue::Null), None);
}

#[test]
fn surface_message_shape() {
    let message = SurfaceMessage {
        surface_id: 1,
        role: None,
        texture_id: -1,
        buffer_delta: None,
        buffer_size: Some(Size { w: 2, h: 3 }),
        scale: 1,
        input_region: Rectangle { loc: Point { x: 0, y: 0 }, size: Size { w: 2, h: 3 } },
        subsurfaces_below: vec![4],
        subsurfaces_above: vec![],
    };
    let expected = object(vec![
        ("surface_id", unsigned(1)),
        ("role", EncodableValue::Null),
        ("texture_id", signed(-1)),
        ("buffer_delta", EncodableValue::Null),
        ("buffer_size", object(vec![("w", signed(2)), ("h", signed(3))])),
        ("scale", signed(1)),
        (
            "input_region",
            object(vec![("x", signed(0)), ("y", signed(0)), ("width", signed(2)), ("height", signed(3))]),
        ),
        ("subsurfaces_below", EncodableValue::Array(vec![unsigned(4)])),
        ("subsurfaces_above", EncodableValue::Array(vec![])),
    ]);
    assert_eq!(encode_surface_message(&message), expected);
    assert_eq!(decode_surface_message(&expected), Some(message));
}

#[test]
fn values_of_another_shape_are_refused() {
    assert_eq!(decode_point(&EncodableValue::Null), None);
    assert_eq!(decode_point(&object(vec![("y", signed(1)), ("x", signed(2))])), None);
    assert_eq!(decode_point(&object(vec![("x", signed(1))])), None);
    assert_eq!(decode_point(&object(vec![("x", signed(1)), ("y", unsigned(2))])), None);
    assert_eq!(decode_point(&object(vec![("x", signed(1)), ("y", signed(1 << 31))])), None);
    assert_eq!(
        decode_point(&object(vec![("x", signed(1)), ("y", signed(-(1 << 31)))])),
        Some(Point { x: 1, y: i32::MIN })
    );
    assert_eq!(decode_size(&object(vec![("w", signed(1)), ("h", EncodableValue::Boolean(true))])), None);
    assert_eq!(decode_role(&text("Wayland")), None);
    assert_eq!(decode_role(&object(vec![("Other", EncodableValue::Null)])), None);
    assert_eq!(decode_role(&object(vec![("Subsurface", EncodableValue::Null)])), None);
    assert_eq!(decode_surface_message(&EncodableValue::Array(vec![])), None);
    assert_eq!(decode_surface_message(&object(vec![("surface_id", unsigned(1))])), None);
}

#[test]
fn notification_payloads() {
    assert_eq!(
        encode_payload(&UiMessage::NewSurface { surface_id: 1 }),
        object(vec![("surfaceId", unsigned(1))])
    );
    assert_eq!(
        encode_payload(&UiMessage::DestroySurface { surface_id: 2 }),
        object(vec![("surfaceId", unsigned(2))])
    );
    assert_eq!(
        encode_payload(&UiMessage::NewToplevel { surface_id: 3 }),
        object(vec![("surfaceId", unsigned(3))])
    );
    assert_eq!(
        encode_payload(&UiMessage::DestroyToplevel { surface_id: 3 }),
        object(vec![("surfaceId", unsigned(3))])
    );
    assert_eq!(
        encode_payload(&UiMessage::DestroyPopup { surface_id: 4 }),
        object(vec![("surfaceId", unsigned(4))])
    );
    assert_eq!(
        encode_payload(&UiMessage::InteractiveMove { surface_id: 5 }),
        object(vec![("surfaceId", unsigned(5))])
    );
    assert_eq!(
        encode_payload(&UiMessage::NewSubsurface { surface_id: 2, parent: 1 }),
        object(vec![("surfaceId", unsigned(2)), ("parent", unsigned(1))])
    );
    assert_eq!(
        encode_payload(&UiMessage::AppIdChanged { surface_id: 1, app_id: Some("foo".to_string()) }),
        object(vec![("surfaceId", unsigned(1)), ("appId", text("foo"))])
    );
    assert_eq!(
        encode_payload(&UiMessage::TitleChanged { surface_id: 1, title: None }),
        object(vec![("surfaceId", unsigned(1)), ("title", EncodableValue::Null)])
    );
    assert_eq!(
        encode_payload(&UiMessage::NewPopup {
            surface_id: 2,
            parent: 1,
            position: Point { x: 10, y: 20 }
        }),
        object(vec![
            ("surfaceId", unsigned(2)),
            ("parent", unsigned(1)),
            ("position", object(vec![("x", signed(10)), ("y", signed(20))])),
        ])
    );
    assert_eq!(
        encode_payload(&UiMessage::InteractiveResize { surface_id: 1, edge: 10 }),
        object(vec![("surfaceId", unsigned(1)), ("edge", signed(10))])
    );
}

#[test]
fn values_are_looked_up_by_name() {
    let arguments = object(vec![
        ("view_id", signed(1)),
        ("button", signed(4)),
        ("is_pressed", EncodableValue::Boolean(true)),
        ("button", signed(8)),
    ]);
    assert_eq!(get_value(&arguments, "view_id"), Some(&signed(1)));
    assert_eq!(get_value(&arguments, "is_pressed"), Some(&EncodableValue::Boolean(true)));
    // The first entry of a name counts.
    assert_eq!(get_value(&arguments, "button"), Some(&signed(4)));
    assert_eq!(get_value(&arguments, "x"), None);
    assert_eq!(get_value(&object(vec![]), "view_id"), None);
    assert_eq!(get_value(&EncodableValue::Array(vec![signed(1)]), "view_id"), None);
    assert_eq!(get_value(&EncodableValue::Null, "view_id"), None);
}
