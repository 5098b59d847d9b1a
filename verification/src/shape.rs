//! Flat-filled basic shapes.

use vstd::prelude::*;
use crate::configs::style::{PositionOption, SizeOption};
use crate::foundation::{Position, PositionOptionT, Size, SizeOptionT};
use crate::markup::{box_attrs, new_element, set_attr, set_box_attrs, Markup};
use crate::svg::SvgTangibleObject;

verus! {

/// The kinds of basic shape.
#[derive(Debug, Clone, Copy, PartialEq, Eq, Structural)]
pub enum BasicShapeType {
    Rectangle,
}

/// A basic shape with a fixed size policy, a fixed position policy and an
/// optional fill.
#[derive(Debug)]
pub struct BasicShape {
    pub shape_type: BasicShapeType,
    pub position: PositionOption,
    pub size: SizeOption,
    pub fill: Option<String>,
}

/// What a basic shape holds.
pub struct BasicShapeView {
    pub shape_type: BasicShapeType,
    pub position: PositionOption,
    pub size: SizeOption,
    pub fill: Option<Seq<char>>,
}

impl View for BasicShape {
    type V = BasicShapeView;

    open spec fn view(&self) -> BasicShapeView {
        BasicShapeView {
            shape_type: self.shape_type,
            position: self.position,
            size: self.size,
            fill: match self.fill {
                Some(fill) => Some(fill@),
                None => None,
            },
        }
    }
}

impl BasicShapeView {
    /// A `rect` at the resolved size and position, filled if the shape has
    /// a fill.
    pub open spec fn markup(self, size: Size, position: Position) -> Markup {
        Markup::element(
            "rect"@,
            match self.fill {
                Some(fill) => box_attrs(size, position).insert("fill"@, fill),
                None => box_attrs(size, position),
            },
            Seq::empty(),
        )
    }
}

impl BasicShape {
    /// A shape of 100 by 100 pixels, centered, without a fill.
    pub fn new(shape_type: BasicShapeType) -> (r: Self)
        ensures
            r@ == (BasicShapeView {
                shape_type,
                position: PositionOption::Center,
                size: SizeOption::Absolute(100, 100),
                fill: None,
            }),
    {
        Self {
            shape_type,
            size: SizeOption::Absolute(100, 100),
            position: PositionOption::Center,
            fill: None,
        }
    }
}

impl Clone for BasicShape {
    fn clone(&self) -> (r: Self)
        ensures
            r@ == self@,
    {
        Self {
            shape_type: self.shape_type,
            position: self.position,
            size: self.size,
            fill: match &self.fill {
                Some(fill) => Some(fill.clone()),
                None => None,
            },
        }
    }
}

impl SizeOptionT for BasicShape {
    open spec fn sizable(&self) -> bool {
        true
    }

    open spec fn size_option(&self) -> SizeOption {
        self.size
    }

    fn get_size_option(&self) -> SizeOption {
        self.size
    }
}

impl PositionOptionT for BasicShape {
    open spec fn position_option(&self) -> PositionOption {
        self.position
    }

    fn get_position_option(&self) -> PositionOption {
        self.position
    }
}

impl SvgTangibleObject for BasicShape {
    open spec fn renders_at(&self, size: Size) -> bool {
        true
    }

    open spec fn markup(&self, size: Size, position: Position, id: Seq<char>) -> Markup {
        self@.markup(size, position)
    }

    open spec fn definitions(&self, size: Size, position: Position, id: Seq<char>) -> Option<
        Markup,
    > {
        None
    }

    fn to_svg(&self, size: Size, position: Position, id: String) -> (
        elementtree::Element,
        Option<elementtree::Element>,
    ) {
        let mut element = new_element(None, "rect");
        set_box_attrs(&mut element, size, position);
        match &self.fill {
            Some(fill) => {
                set_attr(&mut element, "fill", fill.as_str());
            },
            None => {},
        }
        (element, None)
    }
}

} // verus!
