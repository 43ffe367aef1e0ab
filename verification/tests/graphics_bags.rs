//! The per-shape graphics components: exact option objects and guarded
//! effects.

use leptos_cesium::bag::{PropValue, PropertyBag};
use leptos_cesium::context::CesiumEntityContext;
use leptos_cesium::graphics::box_graphics::BoxGraphics;
use leptos_cesium::graphics::corridor::CorridorGraphics;
use leptos_cesium::graphics::cylinder::CylinderGraphics;
use leptos_cesium::graphics::ellipse::EllipseGraphics;
use leptos_cesium::graphics::ellipsoid::EllipsoidGraphics;
use leptos_cesium::graphics::point::PointGraphics;
use leptos_cesium::graphics::polygon::PolygonGraphics;
use leptos_cesium::graphics::polyline::PolylineGraphics;
use leptos_cesium::graphics::polyline_volume::PolylineVolumeGraphics;
use leptos_cesium::graphics::rectangle::RectangleGraphics;
use leptos_cesium::graphics::wall::WallGraphics;
use leptos_cesium::handle::{JsHandle, ThreadToken};
use leptos_cesium::materials::Material;

fn h(id: u64) -> JsHandle {
    JsHandle { id }
}

fn keys(bag: &PropertyBag) -> Vec<String> {
    bag.entries.iter().map(|e| e.key.clone()).collect()
}

fn pairs(bag: &PropertyBag) -> Vec<(String, PropValue)> {
    bag.entries.iter().map(|e| (e.key.clone(), e.value.clone())).collect()
}

#[test]
fn point_options_with_every_input() {
    let g = PointGraphics {
        pixel_size: h(1),
        color: Some(h(2)),
        outline: Some(true),
        outline_color: Some(h(3)),
        outline_width: Some(h(4)),
        show: Some(true),
        height_reference: Some(h(5)),
        disable_depth_test_distance: Some(h(6)),
    };
    assert_eq!(
        pairs(&g.options()),
        vec![
            ("pixelSize".to_string(), PropValue::Raw(h(1))),
            ("color".to_string(), PropValue::Raw(h(2))),
            ("outline".to_string(), PropValue::Bool(true)),
            ("outlineColor".to_string(), PropValue::Raw(h(3))),
            ("outlineWidth".to_string(), PropValue::Raw(h(4))),
            ("show".to_string(), PropValue::Bool(true)),
            ("heightReference".to_string(), PropValue::Raw(h(5))),
            ("disableDepthTestDistance".to_string(), PropValue::Raw(h(6))),
        ]
    );
}

#[test]
fn point_options_minimal() {
    let g = PointGraphics {
        pixel_size: h(9),
        color: None,
        outline: None,
        outline_color: None,
        outline_width: None,
        show: None,
        height_reference: None,
        disable_depth_test_distance: None,
    };
    assert_eq!(pairs(&g.options()), vec![("pixelSize".to_string(), PropValue::Raw(h(9)))]);
}

#[test]
fn point_effect_requires_the_parent_entity() {
    let owner = ThreadToken { id: 1 };
    let other = ThreadToken { id: 2 };
    let g = PointGraphics {
        pixel_size: h(9),
        color: None,
        outline: None,
        outline_color: None,
        outline_width: None,
        show: None,
        height_reference: None,
        disable_depth_test_distance: None,
    };
    let mut ctx = CesiumEntityContext::new(owner);
    assert!(g.effect(&ctx, owner).is_none());
    ctx.set_entity(owner, h(77));
    let update = g.effect(&ctx, owner).expect("entity present");
    assert_eq!(update.entity, h(77));
    assert_eq!(update.key, "point");
    assert_eq!(pairs(&update.options), pairs(&g.options()));
    assert!(g.effect(&ctx, other).is_none());
}

#[test]
fn box_options_carry_material_and_toggles() {
    let g = BoxGraphics {
        dimensions: h(1),
        material: Some(Material::color(h(2))),
        outline: Some(true),
        outline_color: Some(h(3)),
        outline_width: Some(h(4)),
        fill: Some(false),
        show: Some(true),
    };
    assert_eq!(
        pairs(&g.options()),
        vec![
            ("dimensions".to_string(), PropValue::Raw(h(1))),
            ("material".to_string(), PropValue::Raw(h(2))),
            ("outline".to_string(), PropValue::Bool(true)),
            ("outlineColor".to_string(), PropValue::Raw(h(3))),
            ("outlineWidth".to_string(), PropValue::Raw(h(4))),
            ("fill".to_string(), PropValue::Bool(false)),
            ("show".to_string(), PropValue::Bool(true)),
        ]
    );
}

#[test]
fn corridor_options_key_order() {
    let g = CorridorGraphics {
        positions: h(1),
        width: h(2),
        material: Some(Material::stripe(h(3))),
        height: Some(h(4)),
        extruded_height: Some(h(5)),
        outline: Some(true),
        outline_color: Some(h(6)),
        outline_width: Some(h(7)),
        fill: Some(true),
        show: Some(true),
        corner_type: Some(h(8)),
        granularity: Some(h(9)),
    };
    assert_eq!(
        keys(&g.options()),
        vec![
            "positions",
            "width",
            "material",
            "height",
            "extrudedHeight",
            "outline",
            "outlineColor",
            "outlineWidth",
            "fill",
            "show",
            "cornerType",
            "granularity",
        ]
    );
}

#[test]
fn cylinder_options_key_order() {
    let g = CylinderGraphics {
        length: h(1),
        top_radius: h(2),
        bottom_radius: h(3),
        material: None,
        outline: None,
        outline_color: None,
        outline_width: None,
        fill: None,
        show: None,
        number_of_vertical_lines: Some(h(4)),
        slices: Some(h(5)),
    };
    assert_eq!(
        keys(&g.options()),
        vec!["length", "topRadius", "bottomRadius", "numberOfVerticalLines", "slices"]
    );
}

#[test]
fn ellipse_options_key_order() {
    let g = EllipseGraphics {
        semi_minor_axis: h(1),
        semi_major_axis: h(2),
        material: None,
        outline: Some(false),
        outline_color: None,
        outline_width: None,
        rotation: Some(h(3)),
        st_rotation: Some(h(4)),
        extruded_height: None,
        height: Some(h(5)),
    };
    assert_eq!(
        keys(&g.options()),
        vec!["semiMinorAxis", "semiMajorAxis", "outline", "rotation", "stRotation", "height"]
    );
}

#[test]
fn ellipsoid_options_key_order() {
    let g = EllipsoidGraphics {
        radii: h(1),
        material: None,
        outline: None,
        outline_color: None,
        outline_width: None,
        fill: None,
        show: None,
        stack_partitions: Some(h(2)),
        slice_partitions: Some(h(3)),
        subdivision_divisions: Some(h(4)),
    };
    assert_eq!(
        keys(&g.options()),
        vec!["radii", "stackPartitions", "slicePartitions", "subdivisionDivisions"]
    );
}

#[test]
fn polygon_options_key_order() {
    let g = PolygonGraphics {
        hierarchy: h(1),
        material: Some(Material::checkerboard(h(2))),
        outline: Some(true),
        outline_color: Some(h(3)),
        outline_width: None,
        extruded_height: Some(h(4)),
        height: Some(h(5)),
    };
    assert_eq!(
        keys(&g.options()),
        vec!["hierarchy", "material", "outline", "outlineColor", "extrudedHeight", "height"]
    );
}

#[test]
fn polyline_options_key_order() {
    let g = PolylineGraphics {
        positions: h(1),
        width: h(2),
        material: Some(Material::polyline_glow(h(3))),
        clamp_to_ground: Some(true),
        show: Some(true),
        granularity: Some(h(4)),
        follow_surface: Some(false),
        depth_fail_material: Some(h(5)),
    };
    assert_eq!(
        keys(&g.options()),
        vec![
            "positions",
            "width",
            "material",
            "clampToGround",
            "show",
            "granularity",
            "followSurface",
            "depthFailMaterial",
        ]
    );
}

#[test]
fn polyline_volume_options_key_order() {
    let g = PolylineVolumeGraphics {
        positions: h(1),
        shape: h(2),
        material: None,
        outline: None,
        outline_color: None,
        outline_width: None,
        fill: Some(true),
        show: None,
        granularity: None,
        corner_type: Some(h(3)),
    };
    assert_eq!(keys(&g.options()), vec!["positions", "shape", "fill", "cornerType"]);
    let owner = ThreadToken { id: 1 };
    let mut ctx = CesiumEntityContext::new(owner);
    ctx.set_entity(owner, h(8));
    assert_eq!(g.effect(&ctx, owner).unwrap().key, "polylineVolume");
}

#[test]
fn rectangle_options_key_order() {
    let g = RectangleGraphics {
        coordinates: h(1),
        material: None,
        outline: None,
        outline_color: None,
        outline_width: None,
        extruded_height: None,
        height: None,
        rotation: Some(h(2)),
        st_rotation: Some(h(3)),
    };
    assert_eq!(keys(&g.options()), vec!["coordinates", "rotation", "stRotation"]);
}

#[test]
fn wall_options_key_order() {
    let g = WallGraphics {
        positions: h(1),
        material: None,
        maximum_heights: Some(h(2)),
        minimum_heights: Some(h(3)),
        outline: None,
        outline_color: None,
        outline_width: None,
        fill: None,
        show: Some(true),
        granularity: None,
    };
    assert_eq!(keys(&g.options()), vec!["positions", "maximumHeights", "minimumHeights", "show"]);
}

#[test]
fn each_shape_updates_its_own_field() {
    let owner = ThreadToken { id: 1 };
    let mut ctx = CesiumEntityContext::new(owner);
    ctx.set_entity(owner, h(10));

    let box_update = BoxGraphics {
        dimensions: h(1),
        material: None,
        outline: None,
        outline_color: None,
        outline_width: None,
        fill: None,
        show: None,
    }
    .effect(&ctx, owner)
    .unwrap();
    assert_eq!(box_update.key, "box");

    let wall_update = WallGraphics {
        positions: h(1),
        material: None,
        maximum_heights: None,
        minimum_heights: None,
        outline: None,
        outline_color: None,
        outline_width: None,
        fill: None,
        show: None,
        granularity: None,
    }
    .effect(&ctx, owner)
    .unwrap();
    assert_eq!(wall_update.key, "wall");
}
