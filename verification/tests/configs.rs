use footlights_engine::background::{Background, BackgroundType};
use footlights_engine::configs::structure::{ImageSizeProvider, Layer, LayerType, Structure};
use footlights_engine::configs::style::{DropShadow, Style, StyleCollection};
use footlights_engine::configs::ConfigError;
use footlights_engine::foundation::{Color, Size};
use footlights_engine::svg::{Canvas, SvgObject};

struct Fixed(u32, u32);

impl ImageSizeProvider for Fixed {
    fn get_image_size(&self, _src: &str) -> (u32, u32) {
        (self.0, self.1)
    }
}

struct ByName;

impl ImageSizeProvider for ByName {
    fn get_image_size(&self, src: &str) -> (u32, u32) {
        (src.len() as u32, 1)
    }
}

fn background_style(color: &str) -> Style {
    let mut style = Style::default();
    style.color = Some(BackgroundType::Pure(Color::from(color)));
    style
}

fn image_style(path: &str) -> Style {
    let mut style = Style::default();
    style.image = Some(path.to_string());
    style
}

fn slot(ty: LayerType, name: &str) -> Layer {
    Layer { ty, id: name.to_string(), style: name.to_string() }
}

fn describe(canvas: &Canvas) -> String {
    canvas.to_svg().to_string().unwrap()
}

#[test]
fn default_structure_builds_background_and_image() {
    let mut styles = StyleCollection::default();
    styles.add("bg".to_string(), background_style("white"));
    let mut img = image_style("./assets/input.png");
    img.round = Some(15);
    img.shadow = Some(DropShadow::default());
    styles.add("img".to_string(), img);

    let canvas = Structure::default().build_canvas(&styles, Fixed(100, 60)).unwrap();
    assert_eq!(canvas.layer_count(), 2);
    assert_eq!(
        canvas.resolve_sizes().unwrap(),
        vec![Size(100 + 2 * 27 + 200, 60 + 2 * 27 + 200), Size(100 + 2 * 27, 60 + 2 * 27)]
    );

    let mut expected = Canvas::new();
    expected.add_layer_on_top(Background::new_pure(Color::from("white")));
    let mut image =
        footlights_engine::image::Image::new_from_path("./assets/input.png".to_string(), (100, 60));
    image.round = Some(15);
    image.shadow = Some(DropShadow::new(5, 5, 7));
    expected.add_layer_on_top(image);
    assert_eq!(describe(&canvas), describe(&expected));
}

#[test]
fn the_provider_is_asked_about_the_image_of_the_style() {
    let mut styles = StyleCollection::new();
    styles.add("a".to_string(), image_style("12345"));
    styles.add("b".to_string(), image_style("123"));
    let structure = Structure::from_vec(vec![slot(LayerType::Image, "a"), slot(LayerType::Image, "b")]);
    let canvas = structure.build_canvas(&styles, ByName).unwrap();
    assert_eq!(canvas.resolve_sizes().unwrap(), vec![Size(5, 1), Size(3, 1)]);
}

#[test]
fn a_background_takes_color_and_blur() {
    let mut style = Style::default();
    style.color = Some(BackgroundType::Linear(footlights_engine::background::LinearGradient {
        stops: vec![(Color::from("red"), "0%".to_string())],
        degree: "90".to_string(),
    }));
    style.blur = Some(3);
    style.image = Some("ignored.png".to_string());
    let mut styles = StyleCollection::new();
    styles.add("g".to_string(), style);
    let structure = Structure::from_vec(vec![slot(LayerType::Background, "g")]);
    let canvas = structure.build_canvas(&styles, Fixed(1, 1)).unwrap();

    let mut expected = Canvas::new();
    let mut background =
        Background::new_linear_gradient(vec![(Color::from("red"), "0%".to_string())], "90".to_string());
    background.blur = Some(3);
    expected.add_layer_on_top(background);
    assert_eq!(describe(&canvas), describe(&expected));
    assert!(describe(&canvas).contains("blur-0"));
    assert!(describe(&canvas).contains("rotate(90)"));
}

#[test]
fn a_missing_style_fails_the_build_and_is_named() {
    let mut styles = StyleCollection::default();
    styles.add("bg".to_string(), background_style("white"));
    let result = Structure::default().build_canvas(&styles, Fixed(1, 1));
    match result {
        Err(ConfigError::StyleNotInCollectionError(name)) => assert_eq!(name, "img"),
        _ => panic!("the missing style was not reported"),
    }
    let result = Structure::default().build_canvas(&StyleCollection::new(), Fixed(1, 1));
    match result {
        Err(error) => {
            assert!(matches!(error, ConfigError::StyleNotInCollectionError(_)));
            assert_eq!(error.message(), "Style \"bg\" is not in the style collection.");
        }
        Ok(_) => panic!("built without any style"),
    }
}

#[test]
fn a_missing_attribute_fails_the_build_and_is_named() {
    let mut styles = StyleCollection::default();
    styles.add("bg".to_string(), background_style("white"));
    styles.add("img".to_string(), background_style("white"));
    match Structure::default().build_canvas(&styles, Fixed(1, 1)) {
        Err(ConfigError::ImageNotSetError(name)) => assert_eq!(name, "img"),
        _ => panic!("the missing image was not reported"),
    }
    let mut styles = StyleCollection::default();
    styles.add("bg".to_string(), image_style("a.png"));
    styles.add("img".to_string(), Style::default());
    match Structure::default().build_canvas(&styles, Fixed(1, 1)) {
        Err(ConfigError::ColorNotSetError(name)) => assert_eq!(name, "bg"),
        _ => panic!("the missing color was not reported"),
    }
    assert_eq!(
        ConfigError::ImageNotSetError("img".to_string()).message(),
        "Style \"img\" sets no image for an image layer."
    );
    assert_eq!(
        ConfigError::ColorNotSetError("bg".to_string()).message(),
        "Style \"bg\" sets no color for a background layer."
    );
}

#[test]
fn the_first_fault_is_the_one_reported() {
    let mut styles = StyleCollection::new();
    styles.add("ok".to_string(), background_style("white"));
    styles.add("empty".to_string(), Style::default());
    let structure = Structure::from_vec(vec![
        slot(LayerType::Background, "ok"),
        slot(LayerType::Image, "empty"),
        slot(LayerType::Background, "nowhere"),
        slot(LayerType::Background, "empty"),
    ]);
    match structure.build_canvas(&styles, Fixed(1, 1)) {
        Err(ConfigError::ImageNotSetError(name)) => assert_eq!(name, "empty"),
        _ => panic!("another fault was reported"),
    }
}

#[test]
fn an_empty_structure_builds_an_empty_canvas() {
    let canvas = Structure::from_vec(vec![]).build_canvas(&StyleCollection::new(), Fixed(1, 1));
    assert_eq!(canvas.unwrap().layer_count(), 0);
}

#[test]
fn a_slot_builds_its_own_kind_of_layer() {
    let style = image_style("a.png");
    let image = slot(LayerType::Image, "s").build(&style, (3, 4)).unwrap();
    match image {
        footlights_engine::layers::Layer::Image(image) => {
            assert_eq!(image.path, "a.png");
            assert_eq!(image.size, Size(3, 4));
            assert_eq!(image.round, None);
            assert!(image.shadow.is_none());
        }
        _ => panic!("not an image"),
    }
    assert!(matches!(
        slot(LayerType::Background, "s").build(&style, (3, 4)),
        Err(ConfigError::ColorNotSetError(_))
    ));
}

#[test]
fn a_collection_holds_one_style_for_a_name() {
    let mut styles = StyleCollection::new();
    assert!(styles.get("a").is_none());
    styles.add("a".to_string(), image_style("first.png"));
    styles.add("b".to_string(), image_style("other.png"));
    assert_eq!(styles.get("a").unwrap().image.as_deref(), Some("first.png"));
    styles.add("a".to_string(), image_style("second.png"));
    assert_eq!(styles.get("a").unwrap().image.as_deref(), Some("second.png"));
    assert_eq!(styles.get("b").unwrap().image.as_deref(), Some("other.png"));
    assert!(styles.get("c").is_none());
    assert!(styles.get("").is_none());
}

#[test]
fn a_default_style_sets_nothing() {
    let style = Style::default();
    assert!(style.position.is_none());
    assert!(style.size.is_none());
    assert!(style.image.is_none());
    assert!(style.round.is_none());
    assert!(style.shadow.is_none());
    assert!(style.color.is_none());
    assert!(style.blur.is_none());
}

#[test]
fn a_style_is_copied_whole() {
    let mut style = image_style("a.png");
    style.round = Some(3);
    style.blur = Some(4);
    style.shadow = Some(DropShadow::new(1, 2, 3));
    style.color = Some(BackgroundType::Pure(Color::from("red")));
    style.size = Some(footlights_engine::configs::style::SizeOption::FitContent(9));
    style.position = Some(footlights_engine::configs::style::PositionOption::Absolute(1, 2));
    let copy = style.clone();
    assert_eq!(copy.image.as_deref(), Some("a.png"));
    assert_eq!(copy.round, Some(3));
    assert_eq!(copy.blur, Some(4));
    assert_eq!(copy.shadow, Some(DropShadow::new(1, 2, 3)));
    assert_eq!(copy.size, style.size);
    assert_eq!(copy.position, style.position);
    match copy.color {
        Some(BackgroundType::Pure(color)) => assert_eq!(color, Color::from("red")),
        _ => panic!("the color was lost"),
    }
}

#[test]
fn names_and_slots_are_listed() {
    let mut styles = StyleCollection::new();
    assert!(styles.names().is_empty());
    styles.add("b".to_string(), Style::default());
    styles.add("a".to_string(), Style::default());
    styles.add("b".to_string(), image_style("x"));
    let mut names = styles.names();
    names.sort();
    assert_eq!(names, vec!["a".to_string(), "b".to_string()]);

    let structure = Structure::default();
    let slots = structure.slots();
    assert_eq!(slots.len(), 2);
    assert_eq!(slots[0].ty, LayerType::Background);
    assert_eq!(slots[0].id, "bg");
    assert_eq!(slots[0].style, "bg");
    assert_eq!(slots[1].ty, LayerType::Image);
    assert_eq!(slots[1].id, "img");
    assert_eq!(slots[1].style, "img");
}
