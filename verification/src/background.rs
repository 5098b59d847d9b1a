//! Background layers: a solid fill or a linear gradient, optionally
//! blurred.

use vstd::prelude::*;
use crate::configs::style::{PositionOption, SizeOption};
use crate::foundation::{Color, Position, PositionOptionT, Size, SizeOptionT};
use crate::markup::{
    append_child, box_attrs, markup_of, new_element, set_attr, set_box_attrs, tagged, url_of,
    url_reference, Markup,
};
use crate::svg::SvgTangibleObject;
use crate::text::{decimal, decimal_string};

verus! {

/// A background layer is a layer only contains style.
/// It has no position info.
#[derive(Debug)]
pub struct Background {
    pub bg_type: BackgroundType,
    /// Gaussian blur std deviation. (`<feGaussianBlur>`)
    pub blur: Option<usize>,
}

/// The kinds of background.
#[derive(Debug)]
pub enum BackgroundType {
    Pure(Color),
    Linear(LinearGradient),
    Radial(RadialGradient),
}

/// A linear gradient: its stops, each a color and an offset, in order, and
/// the angle that the gradient is rotated by, in degrees as a decimal
/// numeral.
#[derive(Debug)]
pub struct LinearGradient {
    /// Color, offset
    pub stops: Vec<(Color, String)>,
    pub degree: String,
}

/// A radial gradient. It is declared and cannot be rendered.
#[derive(Debug, Clone, Copy, PartialEq, Eq, Structural)]
pub struct RadialGradient {}

/// A fill. It holds nothing yet.
#[derive(Debug, Clone, Copy, PartialEq, Eq, Structural)]
pub struct Fill {}

/// What a linear gradient holds.
pub struct LinearGradientView {
    pub stops: Seq<(Seq<char>, Seq<char>)>,
    pub degree: Seq<char>,
}

/// What a kind of background holds.
pub enum BackgroundTypeView {
    Pure(Seq<char>),
    Linear(LinearGradientView),
    Radial,
}

/// What a background layer holds.
pub struct BackgroundView {
    pub bg_type: BackgroundTypeView,
    pub blur: Option<int>,
}

/// The colors and offsets of a list of stops.
pub open spec fn stops_view(stops: Seq<(Color, String)>) -> Seq<(Seq<char>, Seq<char>)> {
    Seq::new(stops.len(), |i: int| (stops[i].0@, stops[i].1@))
}

impl View for LinearGradient {
    type V = LinearGradientView;

    open spec fn view(&self) -> LinearGradientView {
        LinearGradientView { stops: stops_view(self.stops@), degree: self.degree@ }
    }
}

impl View for BackgroundType {
    type V = BackgroundTypeView;

    open spec fn view(&self) -> BackgroundTypeView {
        match self {
            BackgroundType::Pure(color) => BackgroundTypeView::Pure(color@),
            BackgroundType::Linear(gradient) => BackgroundTypeView::Linear(gradient@),
            BackgroundType::Radial(_) => BackgroundTypeView::Radial,
        }
    }
}

impl View for Background {
    type V = BackgroundView;

    open spec fn view(&self) -> BackgroundView {
        BackgroundView {
            bg_type: self.bg_type@,
            blur: match self.blur {
                Some(blur) => Some(blur as int),
                None => None,
            },
        }
    }
}

impl Clone for LinearGradient {
    fn clone(&self) -> (r: Self)
        ensures
            r@ == self@,
    {
        let mut stops: Vec<(Color, String)> = Vec::new();
        let mut i: usize = 0;
        while i < self.stops.len()
            invariant
                i <= self.stops.len(),
                stops.len() == i,
                forall|j: int|
                    0 <= j < i ==> (#[trigger] stops@[j]).0@ == self.stops@[j].0@ && stops@[j].1@
                        == self.stops@[j].1@,
            decreases self.stops.len() - i,
        {
            let stop = &self.stops[i];
            stops.push((stop.0.clone(), stop.1.clone()));
            i += 1;
        }
        assert(stops_view(stops@) =~= stops_view(self.stops@));
        LinearGradient { stops, degree: self.degree.clone() }
    }
}

impl Clone for BackgroundType {
    fn clone(&self) -> (r: Self)
        ensures
            r@ == self@,
    {
        match self {
            BackgroundType::Pure(color) => BackgroundType::Pure(color.clone()),
            BackgroundType::Linear(gradient) => BackgroundType::Linear(gradient.clone()),
            BackgroundType::Radial(gradient) => BackgroundType::Radial(RadialGradient {  }),
        }
    }
}

impl Clone for Background {
    fn clone(&self) -> (r: Self)
        ensures
            r@ == self@,
    {
        Background { bg_type: self.bg_type.clone(), blur: self.blur }
    }
}

impl Background {
    /// A white background.
    pub fn new() -> (r: Self)
        ensures
            r@ == (BackgroundView { bg_type: BackgroundTypeView::Pure("white"@), blur: None }),
    {
        Self { bg_type: BackgroundType::Pure(Color("white".to_owned())), blur: None }
    }

    /// A background of one color.
    pub fn new_pure(color: Color) -> (r: Self)
        ensures
            r@ == (BackgroundView { bg_type: BackgroundTypeView::Pure(color@), blur: None }),
    {
        Self { bg_type: BackgroundType::Pure(color), blur: None }
    }

    /// A background of a linear gradient through `stops`, rotated by
    /// `degree` degrees.
    pub fn new_linear_gradient(stops: Vec<(Color, String)>, degree: String) -> (r: Self)
        ensures
            r@ == (BackgroundView {
                bg_type: BackgroundTypeView::Linear(
                    LinearGradientView { stops: stops_view(stops@), degree: degree@ },
                ),
                blur: None,
            }),
    {
        let linear_gradient = LinearGradient { stops, degree };
        Self { bg_type: BackgroundType::Linear(linear_gradient), blur: None }
    }
}

/// The transform that rotates a gradient by `degree` degrees.
pub open spec fn rotation_of(degree: Seq<char>) -> Seq<char> {
    "rotate("@ + degree + ")"@
}

/// Writes the transform that rotates a gradient by `degree` degrees.
pub fn rotation(degree: &str) -> (r: String)
    ensures
        r@ == rotation_of(degree@),
{
    let mut r = "rotate(".to_owned();
    r.append(degree);
    r.append(")");
    r
}

/// A box that covers its whole frame; `attr` says what paints it.
pub open spec fn full_box(attr: Seq<char>, value: Seq<char>) -> Markup {
    Markup::element(
        "rect"@,
        map!["width"@ => "100%"@, "height"@ => "100%"@, attr => value],
        Seq::empty(),
    )
}

/// One stop of a gradient.
pub open spec fn stop_markup(stop: (Seq<char>, Seq<char>)) -> Markup {
    Markup::element("stop"@, map!["offset"@ => stop.1, "stop-color"@ => stop.0], Seq::empty())
}

impl LinearGradientView {
    /// The gradient's definition: rotated by its angle, with its stops in
    /// order.
    pub open spec fn definition(self, id: Seq<char>) -> Markup {
        Markup::element(
            "linearGradient"@,
            map!["id"@ => "background-"@ + id, "gradientTransform"@ => rotation_of(self.degree)],
            Seq::new(self.stops.len(), |i: int| stop_markup(self.stops[i])),
        )
    }
}

/// The filter that blurs by the standard deviation `blur` and then cuts
/// the alpha channel back to hard edges.
pub open spec fn blur_filter(id: Seq<char>, blur: int) -> Markup {
    Markup::element(
        "filter"@,
        map!["id"@ => "blur-"@ + id],
        seq![
            Markup::element(
                "feGaussianBlur"@,
                map!["stdDeviation"@ => decimal(blur as nat)],
                Seq::empty(),
            ),
            Markup::element(
                "feComponentTransfer"@,
                Map::empty(),
                seq![
                    Markup::element(
                        "feFuncA"@,
                        map!["type"@ => "discrete"@, "tableValues"@ => "0 1"@],
                        Seq::empty(),
                    ),
                ],
            ),
        ],
    )
}

impl BackgroundView {
    /// The frame of a gradient background: its definitions (the blur
    /// filter, if there is a blur, then the gradient), the blurred box, if
    /// there is a blur, and the box filled with the gradient.
    pub open spec fn gradient_frame(
        self,
        gradient: LinearGradientView,
        size: Size,
        position: Position,
        id: Seq<char>,
    ) -> Markup {
        Markup::element(
            "svg"@,
            box_attrs(size, position),
            seq![
                Markup::element(
                    "defs"@,
                    Map::empty(),
                    match self.blur {
                        Some(blur) => seq![blur_filter(id, blur)],
                        None => Seq::empty(),
                    } + seq![gradient.definition(id)],
                ),
            ] + match self.blur {
                Some(_) => seq![full_box("filter"@, url_of("blur-"@, id))],
                None => Seq::empty(),
            } + seq![full_box("fill"@, url_of("background-"@, id))],
        )
    }

    /// What the background renders to, where it can be rendered: a filled
    /// box for one color, a frame for a gradient.
    pub open spec fn markup(self, size: Size, position: Position, id: Seq<char>) -> Markup {
        match self.bg_type {
            BackgroundTypeView::Pure(color) => Markup::element(
                "rect"@,
                box_attrs(size, position).insert("fill"@, color),
                Seq::empty(),
            ),
            BackgroundTypeView::Linear(gradient) => self.gradient_frame(
                gradient,
                size,
                position,
                id,
            ),
            BackgroundTypeView::Radial => arbitrary(),
        }
    }
}

impl SizeOptionT for Background {
    open spec fn sizable(&self) -> bool {
        true
    }

    open spec fn size_option(&self) -> SizeOption {
        SizeOption::FitContent(100)
    }

    fn get_size_option(&self) -> SizeOption {
        SizeOption::FitContent(100)
    }
}

impl PositionOptionT for Background {
    open spec fn position_option(&self) -> PositionOption {
        PositionOption::Center
    }

    fn get_position_option(&self) -> PositionOption {
        PositionOption::Center
    }
}

/// Builds a box that covers its whole frame; `attr` says what paints it.
fn build_full_box(attr: &str, value: &str) -> (rect: elementtree::Element)
    ensures
        markup_of(rect) == full_box(attr@, value@),
{
    let mut rect = new_element(None, "rect");
    set_attr(&mut rect, "width", "100%");
    set_attr(&mut rect, "height", "100%");
    set_attr(&mut rect, attr, value);
    rect
}

/// Builds the filter that blurs by the standard deviation `blur`.
fn build_blur_filter(id: &str, blur: usize) -> (filter: elementtree::Element)
    ensures
        markup_of(filter) == blur_filter(id@, blur as int),
{
    let mut filter = new_element(None, "filter");
    set_attr(&mut filter, "id", tagged("blur-", id).as_str());
    let mut gaussian_blur = new_element(None, "feGaussianBlur");
    set_attr(&mut gaussian_blur, "stdDeviation", decimal_string(blur as u64).as_str());

    let mut component_transfer = new_element(None, "feComponentTransfer");
    let mut func_a = new_element(None, "feFuncA");
    set_attr(&mut func_a, "type", "discrete");
    set_attr(&mut func_a, "tableValues", "0 1");
    append_child(&mut component_transfer, func_a);

    append_child(&mut filter, gaussian_blur);
    append_child(&mut filter, component_transfer);
    assert(markup_of(filter).children =~= blur_filter(id@, blur as int).children);
    filter
}

impl LinearGradient {
    /// Builds the gradient's definition.
    fn build_definition(&self, id: &str) -> (r: elementtree::Element)
        ensures
            markup_of(r) == self@.definition(id@),
    {
        let mut linear = new_element(None, "linearGradient");
        set_attr(&mut linear, "id", tagged("background-", id).as_str());
        set_attr(&mut linear, "gradientTransform", rotation(self.degree.as_str()).as_str());
        let ghost bare = markup_of(linear);
        let mut i: usize = 0;
        while i < self.stops.len()
            invariant
                i <= self.stops.len(),
                markup_of(linear) == (Markup { children: markup_of(linear).children, ..bare }),
                markup_of(linear).children == Seq::new(
                    i as nat,
                    |j: int| stop_markup(self@.stops[j]),
                ),
            decreases self.stops.len() - i,
        {
            let mut stop = new_element(None, "stop");
            set_attr(&mut stop, "offset", self.stops[i].1.as_str());
            set_attr(&mut stop, "stop-color", self.stops[i].0.0.as_str());
            assert(markup_of(stop) == stop_markup(self@.stops[i as int]));
            append_child(&mut linear, stop);
            assert(markup_of(linear).children =~= Seq::new(
                (i + 1) as nat,
                |j: int| stop_markup(self@.stops[j]),
            ));
            i += 1;
        }
        linear
    }
}

impl SvgTangibleObject for Background {
    /// A radial gradient cannot be rendered.
    open spec fn renders_at(&self, size: Size) -> bool {
        !(self.bg_type is Radial)
    }

    open spec fn markup(&self, size: Size, position: Position, id: Seq<char>) -> Markup {
        self@.markup(size, position, id)
    }

    open spec fn definitions(&self, size: Size, position: Position, id: Seq<char>) -> Option<
        Markup,
    > {
        None
    }

    fn to_svg(&self, size: Size, position: Position, id: String) -> (
        elementtree::Element,
        Option<elementtree::Element>,
    ) {
        match &self.bg_type {
            BackgroundType::Linear(linear_gradient) => {
                let mut svg = new_element(None, "svg");
                set_box_attrs(&mut svg, size, position);

                let mut defs = new_element(None, "defs");
                if let Some(blur) = self.blur {
                    append_child(&mut defs, build_blur_filter(id.as_str(), blur));
                }
                append_child(&mut defs, linear_gradient.build_definition(id.as_str()));
                let ghost frame = self@.gradient_frame(linear_gradient@, size, position, id@);
                assert(markup_of(defs).children =~= frame.children[0].children);
                append_child(&mut svg, defs);

                if self.blur.is_some() {
                    append_child(
                        &mut svg,
                        build_full_box("filter", url_reference("blur-", id.as_str()).as_str()),
                    );
                }
                append_child(
                    &mut svg,
                    build_full_box("fill", url_reference("background-", id.as_str()).as_str()),
                );
                assert(markup_of(svg).children =~= frame.children);

                (svg, None)
            },
            BackgroundType::Radial(_) => unreached(),
            BackgroundType::Pure(color) => {
                let mut element = new_element(None, "rect");
                set_box_attrs(&mut element, size, position);
                set_attr(&mut element, "fill", color.0.as_str());

                (element, None)
            },
        }
    }
}

/// A gradient background without a blur has no filter: its frame holds
/// the gradient's definition and the box that the gradient fills.
pub proof fn unblurred_gradient_has_no_filter(
    background: BackgroundView,
    gradient: LinearGradientView,
    size: Size,
    position: Position,
    id: Seq<char>,
)
    requires
        background.blur is None,
    ensures
        background.gradient_frame(gradient, size, position, id) == Markup::element(
            "svg"@,
            box_attrs(size, position),
            seq![
                Markup::element("defs"@, Map::empty(), seq![gradient.definition(id)]),
                full_box("fill"@, url_of("background-"@, id)),
            ],
        ),
{
    let frame = background.gradient_frame(gradient, size, position, id);
    assert(frame.children[0].children =~= seq![gradient.definition(id)]);
    assert(frame.children =~= seq![
        Markup::element("defs"@, Map::empty(), seq![gradient.definition(id)]),
        full_box("fill"@, url_of("background-"@, id)),
    ]);
}

} // verus!
