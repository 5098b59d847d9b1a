//! A sample stack of layers.

use vstd::prelude::*;
use crate::background::{stops_view, Background, BackgroundTypeView, BackgroundView,
    LinearGradientView};
use crate::configs::style::{PositionOption, SizeOption};
use crate::foundation::Color;
use crate::layers::{Layer, LayerView};
use crate::shape::{BasicShape, BasicShapeType, BasicShapeView};
use crate::svg::Canvas;

verus! {

/// The layers of the sample, from the bottom up: a gradient from black to
/// white at 45 degrees, a blue square of 200 pixels, centered, and a red
/// square of 200 pixels at (50, 50).
pub open spec fn sample_layers() -> Seq<LayerView> {
    seq![
        LayerView::Background(
            BackgroundView {
                bg_type: BackgroundTypeView::Linear(
                    LinearGradientView {
                        stops: seq![("#000000"@, "0%"@), ("#ffffff"@, "100%"@)],
                        degree: "45"@,
                    },
                ),
                blur: None,
            },
        ),
        LayerView::BasicShape(
            BasicShapeView {
                shape_type: BasicShapeType::Rectangle,
                position: PositionOption::Center,
                size: SizeOption::Absolute(200, 200),
                fill: Some("blue"@),
            },
        ),
        LayerView::BasicShape(
            BasicShapeView {
                shape_type: BasicShapeType::Rectangle,
                position: PositionOption::Absolute(50, 50),
                size: SizeOption::Absolute(200, 200),
                fill: Some("red"@),
            },
        ),
    ]
}

/// Builds the sample canvas.
pub fn build_abstract_dom_tree() -> (canvas: Canvas)
    ensures
        canvas@.len() == 3,
        forall|i: int| 0 <= i < 3 ==> (#[trigger] canvas@[i])@ == sample_layers()[i],
{
    let mut canvas = Canvas::new();

    let mut shape = BasicShape::new(BasicShapeType::Rectangle);
    shape.size = SizeOption::Absolute(200, 200);
    shape.fill = Some("blue".to_owned());

    let mut shape2 = BasicShape::new(BasicShapeType::Rectangle);
    shape2.size = SizeOption::Absolute(200, 200);
    shape2.position = PositionOption::Absolute(50, 50);
    shape2.fill = Some("red".to_owned());

    let mut stops: Vec<(Color, String)> = Vec::new();
    stops.push((Color("#000000".to_owned()), "0%".to_owned()));
    stops.push((Color("#ffffff".to_owned()), "100%".to_owned()));
    assert(stops_view(stops@) =~= seq![("#000000"@, "0%"@), ("#ffffff"@, "100%"@)]);
    let background = Background::new_linear_gradient(stops, "45".to_owned());

    canvas.add_layer_on_top(background);
    canvas.add_layer_on_top(shape);
    canvas.add_layer_on_top(shape2);
    canvas
}

} // verus!
