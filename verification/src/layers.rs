//! The closed set of layers that a canvas can hold.

use vstd::prelude::*;
use crate::background::{Background, BackgroundView};
use crate::configs::style::{PositionOption, SizeOption};
use crate::foundation::{Position, PositionOptionT, Size, SizeOptionT};
use crate::image::{Image, ImageView};
use crate::markup::Markup;
use crate::shape::{BasicShape, BasicShapeView};
use crate::svg::{fits_pixels, resolved_size, SvgTangibleObject};

verus! {

/// One layer of a canvas.
#[derive(Debug)]
pub enum Layer {
    Background(Background),
    Image(Image),
    BasicShape(BasicShape),
}

/// What a layer holds.
pub enum LayerView {
    Background(BackgroundView),
    Image(ImageView),
    BasicShape(BasicShapeView),
}

impl View for Layer {
    type V = LayerView;

    open spec fn view(&self) -> LayerView {
        match self {
            Layer::Background(background) => LayerView::Background(background@),
            Layer::Image(image) => LayerView::Image(image@),
            Layer::BasicShape(shape) => LayerView::BasicShape(shape@),
        }
    }
}

impl From<Background> for Layer {
    fn from(background: Background) -> (r: Self) {
        Layer::Background(background)
    }
}

impl vstd::std_specs::convert::FromSpecImpl<Background> for Layer {
    open spec fn obeys_from_spec() -> bool {
        true
    }

    open spec fn from_spec(background: Background) -> Self {
        Layer::Background(background)
    }
}

impl From<Image> for Layer {
    fn from(image: Image) -> (r: Self) {
        Layer::Image(image)
    }
}

impl vstd::std_specs::convert::FromSpecImpl<Image> for Layer {
    open spec fn obeys_from_spec() -> bool {
        true
    }

    open spec fn from_spec(image: Image) -> Self {
        Layer::Image(image)
    }
}

impl From<BasicShape> for Layer {
    fn from(basic_shape: BasicShape) -> (r: Self) {
        Layer::BasicShape(basic_shape)
    }
}

impl vstd::std_specs::convert::FromSpecImpl<BasicShape> for Layer {
    open spec fn obeys_from_spec() -> bool {
        true
    }

    open spec fn from_spec(basic_shape: BasicShape) -> Self {
        Layer::BasicShape(basic_shape)
    }
}

impl SizeOptionT for Layer {
    open spec fn sizable(&self) -> bool {
        match self {
            Layer::Background(background) => background.sizable(),
            Layer::Image(image) => image.sizable(),
            Layer::BasicShape(shape) => shape.sizable(),
        }
    }

    open spec fn size_option(&self) -> SizeOption {
        match self {
            Layer::Background(background) => background.size_option(),
            Layer::Image(image) => image.size_option(),
            Layer::BasicShape(shape) => shape.size_option(),
        }
    }

    fn get_size_option(&self) -> SizeOption {
        match self {
            Layer::Background(background) => background.get_size_option(),
            Layer::Image(image) => image.get_size_option(),
            Layer::BasicShape(shape) => shape.get_size_option(),
        }
    }
}

impl PositionOptionT for Layer {
    open spec fn position_option(&self) -> PositionOption {
        match self {
            Layer::Background(background) => background.position_option(),
            Layer::Image(image) => image.position_option(),
            Layer::BasicShape(shape) => shape.position_option(),
        }
    }

    fn get_position_option(&self) -> PositionOption {
        match self {
            Layer::Background(background) => background.get_position_option(),
            Layer::Image(image) => image.get_position_option(),
            Layer::BasicShape(shape) => shape.get_position_option(),
        }
    }
}

impl SvgTangibleObject for Layer {
    open spec fn renders_at(&self, size: Size) -> bool {
        match self {
            Layer::Background(background) => background.renders_at(size),
            Layer::Image(image) => image.renders_at(size),
            Layer::BasicShape(shape) => shape.renders_at(size),
        }
    }

    open spec fn markup(&self, size: Size, position: Position, id: Seq<char>) -> Markup {
        match self {
            Layer::Background(background) => background.markup(size, position, id),
            Layer::Image(image) => image.markup(size, position, id),
            Layer::BasicShape(shape) => shape.markup(size, position, id),
        }
    }

    open spec fn definitions(&self, size: Size, position: Position, id: Seq<char>) -> Option<
        Markup,
    > {
        match self {
            Layer::Background(background) => background.definitions(size, position, id),
            Layer::Image(image) => image.definitions(size, position, id),
            Layer::BasicShape(shape) => shape.definitions(size, position, id),
        }
    }

    fn to_svg(&self, size: Size, position: Position, id: String) -> (
        elementtree::Element,
        Option<elementtree::Element>,
    ) {
        match self {
            Layer::Background(background) => background.to_svg(size, position, id),
            Layer::Image(image) => image.to_svg(size, position, id),
            Layer::BasicShape(shape) => shape.to_svg(size, position, id),
        }
    }
}

impl Layer {
    /// The size policy, or `None` where the layer has none that can be
    /// written in 32-bit pixels.
    pub fn checked_size_option(&self) -> (r: Option<SizeOption>)
        ensures
            self.sizable() <==> r is Some,
            r matches Some(option) ==> option == self.size_option(),
    {
        match self {
            Layer::Background(background) => Some(background.get_size_option()),
            Layer::Image(image) => image.checked_size_option(),
            Layer::BasicShape(shape) => Some(shape.get_size_option()),
        }
    }

    /// The size that the layer resolves to around content of size
    /// `child_size`, or `None` where that size cannot be written in 32-bit
    /// pixels.
    pub fn checked_size(&self, child_size: Size) -> (r: Option<Size>)
        ensures
            r is Some <==> self.sizable() && fits_pixels(
                resolved_size(self.size_option(), child_size.extent()),
            ),
            r matches Some(size) ==> size.extent() == resolved_size(
                self.size_option(),
                child_size.extent(),
            ),
    {
        match self.checked_size_option() {
            Some(SizeOption::FitContent(padding)) => {
                let width: u64 = child_size.0 as u64 + 2 * (padding as u64);
                let height: u64 = child_size.1 as u64 + 2 * (padding as u64);
                if width > 0xffff_ffff || height > 0xffff_ffff {
                    None
                } else {
                    Some(Size(width as u32, height as u32))
                }
            },
            Some(SizeOption::Absolute(width, height)) => Some(Size(width, height)),
            None => None,
        }
    }

    /// Whether the layer can be rendered at the resolved size `size`.
    pub fn can_render_at(&self, size: Size) -> (r: bool)
        ensures
            r == self.renders_at(size),
    {
        match self {
            Layer::Background(background) => match &background.bg_type {
                crate::background::BackgroundType::Radial(_) => false,
                _ => true,
            },
            Layer::Image(image) => match &image.shadow {
                Some(shadow) => match shadow.checked_clearance() {
                    Some(padding) => padding.0 <= (size.0 / 2) as usize && padding.1 <= (size.1
                        / 2) as usize,
                    None => false,
                },
                None => true,
            },
            Layer::BasicShape(_) => true,
        }
    }
}

/// What a layer asks for and what it renders to depend on nothing but what
/// it holds.
pub proof fn layers_that_hold_the_same_render_the_same(a: Layer, b: Layer)
    requires
        a@ == b@,
    ensures
        a.sizable() == b.sizable(),
        a.size_option() == b.size_option(),
        a.position_option() == b.position_option(),
        forall|size: Size| a.renders_at(size) == b.renders_at(size),
        forall|size: Size, position: Position, id: Seq<char>|
            a.markup(size, position, id) == b.markup(size, position, id),
        forall|size: Size, position: Position, id: Seq<char>|
            a.definitions(size, position, id) == b.definitions(size, position, id),
{
}

} // verus!
