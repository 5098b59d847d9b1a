use elementtree::Element;
use footlights_engine::adt::build_abstract_dom_tree;
use footlights_engine::background::{Background, BackgroundType, RadialGradient};
use footlights_engine::configs::style::{DropShadow, PositionOption, SizeOption};
use footlights_engine::foundation::{Color, Size};
use footlights_engine::image::Image;
use footlights_engine::shape::{BasicShape, BasicShapeType};
use footlights_engine::svg::{written, Canvas, RenderError, SvgObject};

fn delete_all_whitespaces(tree: &mut Element) {
    if !tree.text().is_empty() {
        tree.set_text(tree.text().trim().to_string());
    }
    if !tree.tail().is_empty() {
        tree.set_tail(tree.tail().trim().to_string());
    }
    for child in tree.children_mut() {
        delete_all_whitespaces(child);
    }
}

fn compare_svg(left: &Element, right: &str) {
    let mut right_root: Element = Element::from_reader(right.as_bytes()).unwrap();
    delete_all_whitespaces(&mut right_root);
    let left_text = left.to_string().unwrap();
    let right_text = right_root.to_string().unwrap();
    assert_eq!(left_text, right_text);
}

fn compare_svg_text(left: &str, right: &str) {
    let mut left_root = Element::from_reader(left.as_bytes()).unwrap();
    let mut right_root = Element::from_reader(right.as_bytes()).unwrap();
    delete_all_whitespaces(&mut left_root);
    delete_all_whitespaces(&mut right_root);
    assert_eq!(left_root.to_string().unwrap(), right_root.to_string().unwrap());
}

#[test]
fn svg_svg_canvas() {
    let img = Canvas::new();
    let xml = img.build_svg_canvas(Size::default());
    const EXPECT: &str = r#"
    <svg width="0" height="0" xmlns="http://www.w3.org/2000/svg"></svg>
    "#;

    compare_svg(&xml, EXPECT);
}

#[test]
fn adt_svg_canvas() {
    let img = Canvas::new();
    let xml = img.build_svg_canvas(Size::default());
    const EXPECT: &str = r#"
<svg width="0" height="0" xmlns="http://www.w3.org/2000/svg"></svg>
"#;

    compare_svg(&xml, EXPECT);
}

#[test]
fn canvas() {
    let img = Canvas::new();
    let xml = img.to_svg_string().unwrap();
    const EXPECT: &str = r#"
<svg width="0" height="0" xmlns="http://www.w3.org/2000/svg"></svg>
"#;

    compare_svg_text(&xml, EXPECT);
}

#[test]
fn svg_svg_gen() {
    let mut canvas = Canvas::new();
    let shape1 = BasicShape::new(BasicShapeType::Rectangle);
    canvas.add_layer_on_top(shape1);

    const EXPECT: &str = r#"
        <svg width="100" height="100" xmlns="http://www.w3.org/2000/svg"><rect width="100" height="100" x="0" y="0"/></svg>
        "#;
    let xml = canvas.to_svg();

    compare_svg(&xml, EXPECT);
}

#[test]
fn adt_svg_gen() {
    let mut canvas = Canvas::new();
    let shape1 = BasicShape::new(BasicShapeType::Rectangle);
    canvas.add_layer_on_top(shape1);

    const EXPECT: &str = r#"
        <svg width="100" height="100" xmlns="http://www.w3.org/2000/svg"><rect width="100" height="100" x="0" y="0"/></svg>
        "#;
    let xml = canvas.to_svg();

    compare_svg(&xml, EXPECT);
}

#[test]
fn empty_canvas_has_no_children() {
    let canvas = Canvas::default();
    assert_eq!(canvas.layer_count(), 0);
    assert!(canvas.validate().is_ok());
    let root = canvas.to_svg();
    assert_eq!(root.child_count(), 0);
    assert_eq!(root.get_attr("width"), Some("0"));
    assert_eq!(root.get_attr("height"), Some("0"));
    assert_eq!(root.tag().ns(), Some("http://www.w3.org/2000/svg"));
    assert!(root.find("{http://www.w3.org/2000/svg}defs").is_none());
    assert!(root.find("defs").is_none());
    assert_eq!(
        canvas.to_svg_string().unwrap(),
        "<?xml version=\"1.0\" encoding=\"utf-8\"?><svg xmlns=\"http://www.w3.org/2000/svg\" height=\"0\" width=\"0\" />"
    );
}

#[test]
fn one_rectangle_fills_the_document() {
    let mut canvas = Canvas::new();
    canvas.add_layer_on_top(BasicShape::new(BasicShapeType::Rectangle));
    assert_eq!(canvas.layer_count(), 1);
    let root = canvas.to_svg();
    assert_eq!(root.get_attr("width"), Some("100"));
    assert_eq!(root.get_attr("height"), Some("100"));
    assert_eq!(root.child_count(), 1);
    let rect = root.get_child(0).unwrap();
    assert_eq!(rect.tag().name(), "rect");
    assert_eq!(rect.get_attr("x"), Some("0"));
    assert_eq!(rect.get_attr("y"), Some("0"));
    assert_eq!(rect.get_attr("width"), Some("100"));
    assert_eq!(rect.get_attr("height"), Some("100"));
    assert_eq!(rect.get_attr("fill"), None);
    assert!(root.find("defs").is_none());
}

#[test]
fn background_wraps_the_image_above_it() {
    let mut canvas = Canvas::new();
    canvas.add_layer_on_top(Background::new_pure(Color::from("black")));
    let mut image = Image::new_from_path("pic.png".to_string(), (100, 50));
    image.round = Some(8);
    image.shadow = Some(DropShadow::new(5, 5, 3));
    canvas.add_layer_on_top(image);
    assert_eq!(canvas.resolve_sizes().unwrap(), vec![Size(330, 280), Size(130, 80)]);

    let root = canvas.to_svg();
    assert_eq!(root.child_count(), 2);
    let frame = root.get_child(1).unwrap();
    assert_eq!(frame.get_attr("x"), Some("100"));
    assert_eq!(frame.get_attr("y"), Some("100"));
    assert_eq!(frame.get_attr("width"), Some("130"));
    assert_eq!(frame.get_attr("height"), Some("80"));
    assert_eq!(frame.child_count(), 3);
    compare_svg(frame, r#"
    <svg width="130" height="80" x="100" y="100">
        <defs>
            <clipPath id="clip-1">
                <rect width="100" height="50" x="15" y="15" rx="8" />
            </clipPath>
            <filter id="shadow-1">
                <feDropShadow dx="5" dy="5" stdDeviation="3" flood-opacity="0.6" />
            </filter>
        </defs>
        <rect width="100" height="50" x="15" y="15" rx="8" filter="url(#shadow-1)" />
        <image width="100" height="50" x="15" y="15" href="pic.png" clip-path="url(#clip-1)" />
    </svg>"#);
    compare_svg(root.get_child(0).unwrap(), r#"<rect width="330" height="280" x="0" y="0" fill="black"/>"#);
}

#[test]
fn layers_are_painted_in_the_order_of_the_stack() {
    let mut canvas = Canvas::new();
    for (i, color) in ["red", "green", "blue"].iter().enumerate() {
        let mut shape = BasicShape::new(BasicShapeType::Rectangle);
        shape.fill = Some(color.to_string());
        shape.size = SizeOption::Absolute(10 * (3 - i as u32), 10);
        canvas.add_layer_on_top(shape);
    }
    let root = canvas.to_svg();
    assert_eq!(root.get_attr("width"), Some("30"));
    assert_eq!(root.child_count(), 3);
    let fills: Vec<&str> = root.children().map(|c| c.get_attr("fill").unwrap()).collect();
    assert_eq!(fills, vec!["red", "green", "blue"]);
    let xs: Vec<&str> = root.children().map(|c| c.get_attr("x").unwrap()).collect();
    assert_eq!(xs, vec!["0", "5", "5"]);
}

#[test]
fn each_layer_is_placed_inside_the_one_beneath() {
    let mut canvas = Canvas::new();
    let mut bottom = BasicShape::new(BasicShapeType::Rectangle);
    bottom.size = SizeOption::Absolute(301, 200);
    bottom.position = PositionOption::Absolute(7, 9);
    canvas.add_layer_on_top(bottom);
    let mut middle = BasicShape::new(BasicShapeType::Rectangle);
    middle.size = SizeOption::FitContent(10);
    canvas.add_layer_on_top(middle);
    let mut top = BasicShape::new(BasicShapeType::Rectangle);
    top.size = SizeOption::Absolute(400, 20);
    canvas.add_layer_on_top(top);

    assert_eq!(
        canvas.resolve_sizes().unwrap(),
        vec![Size(301, 200), Size(420, 40), Size(400, 20)]
    );
    let root = canvas.to_svg();
    assert_eq!(root.get_attr("width"), Some("301"));
    assert_eq!(root.get_attr("height"), Some("200"));
    let place = |i: usize| {
        let child = root.get_child(i).unwrap();
        (child.get_attr("x").unwrap().to_string(), child.get_attr("y").unwrap().to_string())
    };
    assert_eq!(place(0), ("7".to_string(), "9".to_string()));
    assert_eq!(place(1), ("0".to_string(), "80".to_string()));
    assert_eq!(place(2), ("10".to_string(), "10".to_string()));
}

#[test]
fn rendering_twice_gives_the_same_document() {
    let canvas = build_abstract_dom_tree();
    let first = canvas.to_svg_string().unwrap();
    let second = canvas.to_svg_string().unwrap();
    assert_eq!(first, second);
    assert_eq!(canvas.to_svg().to_string().unwrap(), first);
}

#[test]
fn sample_canvas() {
    let canvas = build_abstract_dom_tree();
    assert_eq!(canvas.layer_count(), 3);
    assert_eq!(
        canvas.resolve_sizes().unwrap(),
        vec![Size(400, 400), Size(200, 200), Size(200, 200)]
    );
    const EXPECT: &str = r##"
<svg width="400" height="400" xmlns="http://www.w3.org/2000/svg">
    <svg width="400" height="400" x="0" y="0">
        <defs>
            <linearGradient gradientTransform="rotate(45)" id="background-0">
                <stop offset="0%" stop-color="#000000"/>
                <stop offset="100%" stop-color="#ffffff"/>
            </linearGradient>
        </defs>
        <rect width="100%" height="100%" fill="url(#background-0)"/>
    </svg>
    <rect width="200" height="200" x="100" y="100" fill="blue"/>
    <rect width="200" height="200" x="50" y="50" fill="red"/>
</svg>
"##;
    compare_svg_text(&canvas.to_svg_string().unwrap(), EXPECT);
}

#[test]
fn a_radial_gradient_fails_the_whole_render() {
    let mut canvas = Canvas::new();
    canvas.add_layer_on_top(BasicShape::new(BasicShapeType::Rectangle));
    canvas.add_layer_on_top(Background {
        bg_type: BackgroundType::Radial(RadialGradient {}),
        blur: None,
    });
    canvas.add_layer_on_top(Background {
        bg_type: BackgroundType::Radial(RadialGradient {}),
        blur: Some(1),
    });
    assert!(matches!(canvas.validate(), Err(RenderError::Unimplemented(1))));
    assert!(matches!(canvas.to_svg_string(), Err(RenderError::Unimplemented(1))));
}

#[test]
fn a_layer_without_a_size_fails_the_whole_render() {
    let mut canvas = Canvas::new();
    canvas.add_layer_on_top(Background::new());
    canvas.add_layer_on_top(Background::new());
    let mut shape = BasicShape::new(BasicShapeType::Rectangle);
    shape.size = SizeOption::Absolute(u32::MAX - 200, 1);
    canvas.add_layer_on_top(shape);
    assert_eq!(canvas.resolve_sizes().err(), Some(0));
    assert!(matches!(canvas.validate(), Err(RenderError::TooLarge(0))));
    assert!(matches!(canvas.to_svg_string(), Err(RenderError::TooLarge(0))));

    let mut canvas = Canvas::new();
    canvas.add_layer_on_top(Background {
        bg_type: BackgroundType::Radial(RadialGradient {}),
        blur: None,
    });
    let mut image = Image::new_from_path("p".to_string(), (u32::MAX, 1));
    image.shadow = Some(DropShadow::new(0, 0, 0));
    canvas.add_layer_on_top(image);
    canvas.add_layer_on_top(BasicShape::new(BasicShapeType::Rectangle));
    assert_eq!(canvas.resolve_sizes().err(), Some(1));
    assert!(matches!(canvas.to_svg_string(), Err(RenderError::TooLarge(1))));
}

#[test]
fn the_largest_document_still_renders() {
    let mut canvas = Canvas::new();
    canvas.add_layer_on_top(Background::new());
    let mut shape = BasicShape::new(BasicShapeType::Rectangle);
    shape.size = SizeOption::Absolute(u32::MAX - 200, u32::MAX - 200);
    canvas.add_layer_on_top(shape);
    let root = canvas.to_svg();
    assert_eq!(root.get_attr("width"), Some("4294967295"));
    assert_eq!(root.get_attr("height"), Some("4294967295"));
    assert_eq!(root.get_child(1).unwrap().get_attr("x"), Some("100"));
}

#[test]
fn what_the_writer_says_is_handed_on() {
    assert_eq!(written(Ok("<svg/>".to_string())).unwrap(), "<svg/>");
    let failure = Element::from_reader("<a></b>".as_bytes()).unwrap_err();
    let expected = failure.to_string();
    assert!(!expected.is_empty());
    let failure = Element::from_reader("<a></b>".as_bytes()).map(|_| String::new());
    match written(failure) {
        Err(RenderError::Markup(message)) => assert_eq!(message, expected),
        _ => panic!("the writer's error was lost"),
    }
}

#[test]
fn render_errors_in_words() {
    assert_eq!(RenderError::TooLarge(0).message(), "Layer 0 has no size in 32-bit pixels.");
    assert_eq!(RenderError::TooLarge(12).message(), "Layer 12 has no size in 32-bit pixels.");
    assert_eq!(
        RenderError::Unimplemented(3).message(),
        "Layer 3 is of a kind that cannot be rendered."
    );
    assert_eq!(RenderError::Markup("broken".to_string()).message(), "broken");
    assert_eq!(RenderError::Markup(String::new()).message(), "");

    let mut canvas = Canvas::new();
    canvas.add_layer_on_top(BasicShape::new(BasicShapeType::Rectangle));
    canvas.add_layer_on_top(Background {
        bg_type: BackgroundType::Radial(RadialGradient {}),
        blur: None,
    });
    assert_eq!(
        canvas.to_svg_string().unwrap_err().message(),
        "Layer 1 is of a kind that cannot be rendered."
    );
}

#[test]
fn a_canvas_that_can_be_rendered_gets_its_text() {
    let mut canvas = Canvas::new();
    canvas.add_layer_on_top(Background::new_pure(Color::from("black")));
    let mut image = Image::new_from_path("pic.png".to_string(), (10, 10));
    image.shadow = Some(DropShadow { x: 1, y: 2, blur: 1, opacity: "0.25".to_string() });
    canvas.add_layer_on_top(image);
    assert!(canvas.validate().is_ok());
    let text = canvas.to_svg_string().unwrap();
    assert_eq!(text, canvas.to_svg().to_string().unwrap());
    assert_eq!(
        text,
        concat_all(&[
            "<?xml version=\"1.0\" encoding=\"utf-8\"?>",
            "<svg xmlns=\"http://www.w3.org/2000/svg\" height=\"222\" width=\"220\">",
            "<rect fill=\"black\" height=\"222\" width=\"220\" x=\"0\" y=\"0\" />",
            "<svg height=\"22\" width=\"20\" x=\"100\" y=\"100\">",
            "<defs><filter id=\"shadow-1\">",
            "<feDropShadow dx=\"1\" dy=\"2\" flood-opacity=\"0.25\" stdDeviation=\"1\" />",
            "</filter></defs>",
            "<rect filter=\"url(#shadow-1)\" height=\"10\" rx=\"0\" width=\"10\" x=\"5\" y=\"6\" />",
            "<image height=\"10\" href=\"pic.png\" width=\"10\" x=\"5\" y=\"6\" />",
            "</svg></svg>",
        ])
    );
}

fn concat_all(parts: &[&str]) -> String {
    let mut text = String::new();
    for part in parts {
        text.push_str(part);
    }
    text
}
